use scorefeed::codec::{decode, encode, DecodeError, WireRecord, ENCODED_LEN};
use scorefeed::snapshot::{
    GamePeriod, GameSnapshot, PenaltySnapshot, PenaltyTime, TimeoutSnapshot,
};

fn plain_snapshot() -> GameSnapshot {
    GameSnapshot {
        current_period: GamePeriod::FirstHalf,
        secs_in_period: 600,
        timeout: TimeoutSnapshot::Inactive,
        b_score: 0,
        w_score: 0,
        b_penalties: Vec::new(),
        w_penalties: Vec::new(),
        next_period_len_secs: None,
        is_old_game: false,
    }
}

fn assert_record_eq(a: &WireRecord, b: &WireRecord) {
    assert_eq!(a.snapshot.current_period, b.snapshot.current_period);
    assert_eq!(a.snapshot.secs_in_period, b.snapshot.secs_in_period);
    assert_eq!(a.snapshot.timeout, b.snapshot.timeout);
    assert_eq!(a.snapshot.b_score, b.snapshot.b_score);
    assert_eq!(a.snapshot.w_score, b.snapshot.w_score);
    assert_eq!(a.snapshot.b_penalties, b.snapshot.b_penalties);
    assert_eq!(a.snapshot.w_penalties, b.snapshot.w_penalties);
    assert_eq!(a.snapshot.next_period_len_secs, b.snapshot.next_period_len_secs);
    assert_eq!(a.snapshot.is_old_game, b.snapshot.is_old_game);
    assert_eq!(a.white_on_right, b.white_on_right);
    assert_eq!(a.flash, b.flash);
}

#[test]
fn round_trip_plain_record() {
    let rec = WireRecord {
        snapshot: plain_snapshot(),
        white_on_right: false,
        flash: false,
    };
    let bytes = encode(&rec);
    assert_eq!(bytes.len(), ENCODED_LEN);
    let back = decode(&bytes).expect("well-formed frame must decode");
    assert_record_eq(&rec, &back);
}

#[test]
fn round_trip_rich_record() {
    let rec = WireRecord {
        snapshot: GameSnapshot {
            current_period: GamePeriod::SuddenDeath,
            secs_in_period: 0x01020304,
            timeout: TimeoutSnapshot::PenaltyShot(45),
            b_score: 13,
            w_score: 12,
            b_penalties: vec![
                PenaltySnapshot { player_number: 7, time: PenaltyTime::Seconds(60) },
                PenaltySnapshot { player_number: 11, time: PenaltyTime::TotalDismissal },
                PenaltySnapshot { player_number: 2, time: PenaltyTime::Seconds(0) },
            ],
            w_penalties: vec![PenaltySnapshot {
                player_number: 9,
                time: PenaltyTime::Seconds(120),
            }],
            next_period_len_secs: Some(900),
            is_old_game: true,
        },
        white_on_right: true,
        flash: true,
    };
    let bytes = encode(&rec);
    assert_eq!(bytes.len(), ENCODED_LEN);
    let back = decode(&bytes).expect("well-formed frame must decode");
    assert_record_eq(&rec, &back);
}

#[test]
fn round_trip_every_period_and_timeout() {
    let periods = [
        GamePeriod::BetweenGames,
        GamePeriod::FirstHalf,
        GamePeriod::HalfTime,
        GamePeriod::SecondHalf,
        GamePeriod::PreOvertime,
        GamePeriod::OvertimeFirstHalf,
        GamePeriod::OvertimeHalfTime,
        GamePeriod::OvertimeSecondHalf,
        GamePeriod::PreSuddenDeath,
        GamePeriod::SuddenDeath,
    ];
    let timeouts = [
        TimeoutSnapshot::Inactive,
        TimeoutSnapshot::Black(30),
        TimeoutSnapshot::White(0),
        TimeoutSnapshot::Ref(65535),
        TimeoutSnapshot::PenaltyShot(1),
    ];
    for period in periods {
        for timeout in timeouts {
            let mut snapshot = plain_snapshot();
            snapshot.current_period = period;
            snapshot.timeout = timeout;
            let rec = WireRecord { snapshot, white_on_right: false, flash: true };
            let back = decode(&encode(&rec)).expect("well-formed frame must decode");
            assert_record_eq(&rec, &back);
        }
    }
}

#[test]
fn exact_frame_bytes() {
    // The layout itself, pinned byte for byte.
    let rec = WireRecord {
        snapshot: GameSnapshot {
            current_period: GamePeriod::SecondHalf,
            secs_in_period: 0x00010203,
            timeout: TimeoutSnapshot::White(0x0102),
            b_score: 3,
            w_score: 2,
            b_penalties: vec![PenaltySnapshot {
                player_number: 5,
                time: PenaltyTime::Seconds(0x0203),
            }],
            w_penalties: Vec::new(),
            next_period_len_secs: Some(0x04050607),
            is_old_game: false,
        },
        white_on_right: true,
        flash: false,
    };
    let bytes = encode(&rec);
    let expected: Vec<u8> = vec![
        3, // second half
        0, 1, 2, 3, // seconds remaining
        2, 1, 2, // white timeout, 0x0102 seconds
        3, 2, // scores
        1, 5, 2, 3, 0, 0, 0, 0, 0, 0, // one black penalty, two empty slots
        0, 0, 0, 0, 0, 0, 0, 0, 0, 0, // no white penalties
        1, 4, 5, 6, 7, // next period length present
        0, // not an old game
        1, // white on right
        0, // no flash
    ];
    assert_eq!(bytes, expected);
}

#[test]
fn wrong_length_rejected_never_panics() {
    // Any length but the fixed frame length is a framing error.
    for len in 0..100 {
        if len == ENCODED_LEN {
            continue;
        }
        let bytes = vec![0u8; len];
        assert_eq!(decode(&bytes).unwrap_err(), DecodeError::WrongLength);
    }
}

#[test]
fn truncated_frame_rejected() {
    let rec = WireRecord { snapshot: plain_snapshot(), white_on_right: false, flash: false };
    let mut bytes = encode(&rec);
    bytes.pop();
    assert_eq!(decode(&bytes).unwrap_err(), DecodeError::WrongLength);
}

#[test]
fn invalid_period_rejected() {
    let mut bytes = vec![0u8; ENCODED_LEN];
    bytes[0] = 10;
    assert_eq!(decode(&bytes).unwrap_err(), DecodeError::InvalidPeriod);
}

#[test]
fn invalid_timeout_rejected() {
    let mut bytes = vec![0u8; ENCODED_LEN];
    bytes[5] = 5;
    assert_eq!(decode(&bytes).unwrap_err(), DecodeError::InvalidTimeout);
}

#[test]
fn invalid_penalty_count_rejected() {
    let mut bytes = vec![0u8; ENCODED_LEN];
    bytes[10] = 4;
    assert_eq!(decode(&bytes).unwrap_err(), DecodeError::InvalidPenaltyCount);
    let mut bytes = vec![0u8; ENCODED_LEN];
    bytes[20] = 255;
    assert_eq!(decode(&bytes).unwrap_err(), DecodeError::InvalidPenaltyCount);
}

#[test]
fn invalid_flag_byte_rejected() {
    for pos in [30, 35, 36, 37] {
        let mut bytes = vec![0u8; ENCODED_LEN];
        bytes[pos] = 2;
        assert_eq!(decode(&bytes).unwrap_err(), DecodeError::InvalidFlag);
    }
}

#[test]
fn all_zero_frame_decodes_to_defaults() {
    let bytes = vec![0u8; ENCODED_LEN];
    let rec = decode(&bytes).expect("the all-zero frame is well formed");
    assert_eq!(rec.snapshot.current_period, GamePeriod::BetweenGames);
    assert_eq!(rec.snapshot.secs_in_period, 0);
    assert_eq!(rec.snapshot.timeout, TimeoutSnapshot::Inactive);
    assert!(rec.snapshot.b_penalties.is_empty());
    assert!(rec.snapshot.w_penalties.is_empty());
    assert_eq!(rec.snapshot.next_period_len_secs, None);
    assert!(!rec.snapshot.is_old_game);
    assert!(!rec.white_on_right);
    assert!(!rec.flash);
}
