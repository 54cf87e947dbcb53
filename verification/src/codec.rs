//! The wire codec: one game-state tick travels as one fixed-length binary
//! frame. The frame length is the single source of truth for framing on the
//! stream; there is no length prefix and no delimiter. Decoding is total and
//! pure: a frame of the wrong length, an unknown discriminant or an
//! out-of-range flag byte yields a [`DecodeError`], never a panic.

use vstd::prelude::*;
use vstd::arithmetic::div_mod::{lemma_div_denominator, lemma_fundamental_div_mod};
use crate::snapshot::{
    GamePeriod, GameSnapshot, PenaltySnapshot, PenaltyTime, SnapshotModel, TimeoutSnapshot,
    MAX_PENALTIES_PER_SIDE,
};

verus! {

/// The exact number of bytes of every wire frame.
pub const ENCODED_LEN: usize = 38;

/// What one frame carries: the snapshot plus two small rendering hints.
#[derive(Clone, Debug)]
pub struct WireRecord {
    pub snapshot: GameSnapshot,
    /// Orientation hint: draw the white team on the right.
    pub white_on_right: bool,
    /// Hint that the display should flash.
    pub flash: bool,
}

/// The mathematical value of a [`WireRecord`].
#[verifier::ext_equal]
pub struct RecordModel {
    pub snapshot: SnapshotModel,
    pub white_on_right: bool,
    pub flash: bool,
}

impl View for WireRecord {
    type V = RecordModel;

    open spec fn view(&self) -> RecordModel {
        RecordModel {
            snapshot: self.snapshot@,
            white_on_right: self.white_on_right,
            flash: self.flash,
        }
    }
}

/// Why a frame was rejected.
#[derive(Clone, Copy, Debug, PartialEq, Eq, Structural)]
pub enum DecodeError {
    /// The input is not exactly [`ENCODED_LEN`] bytes: a framing error.
    WrongLength,
    /// The period discriminant byte is unknown.
    InvalidPeriod,
    /// The timeout discriminant byte is unknown.
    InvalidTimeout,
    /// A penalty count exceeds [`MAX_PENALTIES_PER_SIDE`].
    InvalidPenaltyCount,
    /// A byte that stands for a boolean is neither 0 nor 1.
    InvalidFlag,
}

/// A record fits in one frame: its snapshot is encodable.
pub open spec fn record_encodable(r: RecordModel) -> bool {
    crate::snapshot::snapshot_encodable(r.snapshot)
}

// Field encodings.

pub open spec fn period_tag(p: GamePeriod) -> u8 {
    match p {
        GamePeriod::BetweenGames => 0,
        GamePeriod::FirstHalf => 1,
        GamePeriod::HalfTime => 2,
        GamePeriod::SecondHalf => 3,
        GamePeriod::PreOvertime => 4,
        GamePeriod::OvertimeFirstHalf => 5,
        GamePeriod::OvertimeHalfTime => 6,
        GamePeriod::OvertimeSecondHalf => 7,
        GamePeriod::PreSuddenDeath => 8,
        GamePeriod::SuddenDeath => 9,
    }
}

pub open spec fn period_of_tag(t: u8) -> GamePeriod {
    if t == 0 {
        GamePeriod::BetweenGames
    } else if t == 1 {
        GamePeriod::FirstHalf
    } else if t == 2 {
        GamePeriod::HalfTime
    } else if t == 3 {
        GamePeriod::SecondHalf
    } else if t == 4 {
        GamePeriod::PreOvertime
    } else if t == 5 {
        GamePeriod::OvertimeFirstHalf
    } else if t == 6 {
        GamePeriod::OvertimeHalfTime
    } else if t == 7 {
        GamePeriod::OvertimeSecondHalf
    } else if t == 8 {
        GamePeriod::PreSuddenDeath
    } else {
        GamePeriod::SuddenDeath
    }
}

pub open spec fn timeout_tag(t: TimeoutSnapshot) -> u8 {
    match t {
        TimeoutSnapshot::Inactive => 0,
        TimeoutSnapshot::Black(_) => 1,
        TimeoutSnapshot::White(_) => 2,
        TimeoutSnapshot::Ref(_) => 3,
        TimeoutSnapshot::PenaltyShot(_) => 4,
    }
}

pub open spec fn timeout_secs(t: TimeoutSnapshot) -> u16 {
    match t {
        TimeoutSnapshot::Inactive => 0,
        TimeoutSnapshot::Black(s) => s,
        TimeoutSnapshot::White(s) => s,
        TimeoutSnapshot::Ref(s) => s,
        TimeoutSnapshot::PenaltyShot(s) => s,
    }
}

pub open spec fn timeout_of(tag: u8, secs: u16) -> TimeoutSnapshot {
    if tag == 1 {
        TimeoutSnapshot::Black(secs)
    } else if tag == 2 {
        TimeoutSnapshot::White(secs)
    } else if tag == 3 {
        TimeoutSnapshot::Ref(secs)
    } else if tag == 4 {
        TimeoutSnapshot::PenaltyShot(secs)
    } else {
        TimeoutSnapshot::Inactive
    }
}

pub open spec fn bool_byte(b: bool) -> u8 {
    if b { 1 } else { 0 }
}

/// Big-endian bytes of a 16-bit value.
pub open spec fn enc_u16(x: u16) -> Seq<u8> {
    seq![(x as int / 0x100) as u8, (x as int % 0x100) as u8]
}

/// Big-endian bytes of a 32-bit value.
pub open spec fn enc_u32(x: u32) -> Seq<u8> {
    seq![
        (x as int / 0x1000000) as u8,
        ((x as int / 0x10000) % 0x100) as u8,
        ((x as int / 0x100) % 0x100) as u8,
        (x as int % 0x100) as u8,
    ]
}

pub open spec fn dec_u16(b0: u8, b1: u8) -> u16 {
    (b0 as int * 0x100 + b1 as int) as u16
}

pub open spec fn dec_u32(b0: u8, b1: u8, b2: u8, b3: u8) -> u32 {
    (b0 as int * 0x1000000 + b1 as int * 0x10000 + b2 as int * 0x100 + b3 as int) as u32
}

/// The wire code of a penalty duration; the all-ones value stands for a
/// total dismissal.
pub open spec fn pen_time_code(t: PenaltyTime) -> u16 {
    match t {
        PenaltyTime::Seconds(s) => s,
        PenaltyTime::TotalDismissal => u16::MAX,
    }
}

pub open spec fn pen_time_of(code: u16) -> PenaltyTime {
    if code == u16::MAX {
        PenaltyTime::TotalDismissal
    } else {
        PenaltyTime::Seconds(code)
    }
}

pub open spec fn enc_penalty(p: PenaltySnapshot) -> Seq<u8> {
    seq![p.player_number] + enc_u16(pen_time_code(p.time))
}

/// One of the fixed penalty slots: the penalty at index `i`, or zero filler
/// past the end of the list.
pub open spec fn enc_pen_slot(ps: Seq<PenaltySnapshot>, i: int) -> Seq<u8> {
    if i < ps.len() {
        enc_penalty(ps[i])
    } else {
        seq![0u8, 0u8, 0u8]
    }
}

/// A penalty list: a count byte followed by the fixed slots.
pub open spec fn enc_penalty_list(ps: Seq<PenaltySnapshot>) -> Seq<u8> {
    seq![ps.len() as u8] + enc_pen_slot(ps, 0) + enc_pen_slot(ps, 1) + enc_pen_slot(ps, 2)
}

pub open spec fn opt_u32_value(v: Option<u32>) -> u32 {
    match v {
        Some(x) => x,
        None => 0,
    }
}

/// The frame that an encodable record produces.
pub open spec fn spec_encode(r: RecordModel) -> Seq<u8> {
    seq![period_tag(r.snapshot.current_period)]
        + enc_u32(r.snapshot.secs_in_period)
        + seq![timeout_tag(r.snapshot.timeout)]
        + enc_u16(timeout_secs(r.snapshot.timeout))
        + seq![r.snapshot.b_score]
        + seq![r.snapshot.w_score]
        + enc_penalty_list(r.snapshot.b_penalties)
        + enc_penalty_list(r.snapshot.w_penalties)
        + seq![bool_byte(r.snapshot.next_period_len_secs is Some)]
        + enc_u32(opt_u32_value(r.snapshot.next_period_len_secs))
        + seq![bool_byte(r.snapshot.is_old_game)]
        + seq![bool_byte(r.white_on_right)]
        + seq![bool_byte(r.flash)]
}

pub open spec fn dec_penalty(s: Seq<u8>, off: int) -> PenaltySnapshot {
    PenaltySnapshot {
        player_number: s[off],
        time: pen_time_of(dec_u16(s[off + 1], s[off + 2])),
    }
}

pub open spec fn dec_penalty_list(s: Seq<u8>, off: int) -> Seq<PenaltySnapshot> {
    Seq::new(s[off] as nat, |i: int| dec_penalty(s, off + 1 + 3 * i))
}

/// The record that a byte sequence decodes to, or the error that rejects it.
/// Length is checked first; discriminants and flag bytes after that; all
/// numeric fields cover their full range and cannot fail.
pub open spec fn spec_decode(s: Seq<u8>) -> Result<RecordModel, DecodeError> {
    if s.len() != ENCODED_LEN {
        Err(DecodeError::WrongLength)
    } else if s[0] > 9 {
        Err(DecodeError::InvalidPeriod)
    } else if s[5] > 4 {
        Err(DecodeError::InvalidTimeout)
    } else if s[10] > 3 {
        Err(DecodeError::InvalidPenaltyCount)
    } else if s[20] > 3 {
        Err(DecodeError::InvalidPenaltyCount)
    } else if s[30] > 1 || s[35] > 1 || s[36] > 1 || s[37] > 1 {
        Err(DecodeError::InvalidFlag)
    } else {
        Ok(RecordModel {
            snapshot: SnapshotModel {
                current_period: period_of_tag(s[0]),
                secs_in_period: dec_u32(s[1], s[2], s[3], s[4]),
                timeout: timeout_of(s[5], dec_u16(s[6], s[7])),
                b_score: s[8],
                w_score: s[9],
                b_penalties: dec_penalty_list(s, 10),
                w_penalties: dec_penalty_list(s, 20),
                next_period_len_secs: if s[30] == 1 {
                    Some(dec_u32(s[31], s[32], s[33], s[34]))
                } else {
                    None
                },
                is_old_game: s[35] == 1,
            },
            white_on_right: s[36] == 1,
            flash: s[37] == 1,
        })
    }
}

// Executable encoding.

fn push_byte(out: &mut Vec<u8>, b: u8)
    ensures
        final(out)@ == old(out)@ + seq![b],
{
    out.push(b);
    assert(out@ =~= old(out)@ + seq![b]);
}

fn push_u16(out: &mut Vec<u8>, x: u16)
    ensures
        final(out)@ == old(out)@ + enc_u16(x),
{
    out.push((x / 0x100) as u8);
    out.push((x % 0x100) as u8);
    assert(out@ =~= old(out)@ + enc_u16(x));
}

fn push_u32(out: &mut Vec<u8>, x: u32)
    ensures
        final(out)@ == old(out)@ + enc_u32(x),
{
    out.push((x / 0x1000000) as u8);
    out.push(((x / 0x10000) % 0x100) as u8);
    out.push(((x / 0x100) % 0x100) as u8);
    out.push((x % 0x100) as u8);
    assert(out@ =~= old(out)@ + enc_u32(x));
}

fn push_penalty(out: &mut Vec<u8>, p: &PenaltySnapshot)
    ensures
        final(out)@ == old(out)@ + enc_penalty(*p),
{
    out.push(p.player_number);
    let code: u16 = match p.time {
        PenaltyTime::Seconds(s) => s,
        PenaltyTime::TotalDismissal => u16::MAX,
    };
    push_u16(out, code);
    assert(out@ =~= old(out)@ + enc_penalty(*p));
}

fn push_empty_slot(out: &mut Vec<u8>)
    ensures
        final(out)@ == old(out)@ + seq![0u8, 0u8, 0u8],
{
    out.push(0);
    out.push(0);
    out.push(0);
    assert(out@ =~= old(out)@ + seq![0u8, 0u8, 0u8]);
}

fn push_penalty_list(out: &mut Vec<u8>, ps: &Vec<PenaltySnapshot>)
    requires
        ps@.len() <= MAX_PENALTIES_PER_SIDE,
    ensures
        final(out)@ == old(out)@ + enc_penalty_list(ps@),
{
    out.push(ps.len() as u8);
    if ps.len() > 0 {
        push_penalty(out, &ps[0]);
    } else {
        push_empty_slot(out);
    }
    if ps.len() > 1 {
        push_penalty(out, &ps[1]);
    } else {
        push_empty_slot(out);
    }
    if ps.len() > 2 {
        push_penalty(out, &ps[2]);
    } else {
        push_empty_slot(out);
    }
    assert(out@ =~= old(out)@ + enc_penalty_list(ps@));
}

/// Encode one record as one fixed-length frame.
pub fn encode(r: &WireRecord) -> (out: Vec<u8>)
    requires
        record_encodable(r@),
    ensures
        out@ == spec_encode(r@),
        out@.len() == ENCODED_LEN,
{
    let mut out: Vec<u8> = Vec::new();
    push_byte(&mut out, match r.snapshot.current_period {
        GamePeriod::BetweenGames => 0,
        GamePeriod::FirstHalf => 1,
        GamePeriod::HalfTime => 2,
        GamePeriod::SecondHalf => 3,
        GamePeriod::PreOvertime => 4,
        GamePeriod::OvertimeFirstHalf => 5,
        GamePeriod::OvertimeHalfTime => 6,
        GamePeriod::OvertimeSecondHalf => 7,
        GamePeriod::PreSuddenDeath => 8,
        GamePeriod::SuddenDeath => 9,
    });
    push_u32(&mut out, r.snapshot.secs_in_period);
    push_byte(&mut out, match r.snapshot.timeout {
        TimeoutSnapshot::Inactive => 0,
        TimeoutSnapshot::Black(_) => 1,
        TimeoutSnapshot::White(_) => 2,
        TimeoutSnapshot::Ref(_) => 3,
        TimeoutSnapshot::PenaltyShot(_) => 4,
    });
    push_u16(&mut out, match r.snapshot.timeout {
        TimeoutSnapshot::Inactive => 0,
        TimeoutSnapshot::Black(s) => s,
        TimeoutSnapshot::White(s) => s,
        TimeoutSnapshot::Ref(s) => s,
        TimeoutSnapshot::PenaltyShot(s) => s,
    });
    push_byte(&mut out, r.snapshot.b_score);
    push_byte(&mut out, r.snapshot.w_score);
    push_penalty_list(&mut out, &r.snapshot.b_penalties);
    push_penalty_list(&mut out, &r.snapshot.w_penalties);
    match r.snapshot.next_period_len_secs {
        Some(v) => {
            push_byte(&mut out, 1);
            push_u32(&mut out, v);
        }
        None => {
            push_byte(&mut out, 0);
            push_u32(&mut out, 0);
        }
    }
    push_byte(&mut out, if r.snapshot.is_old_game { 1 } else { 0 });
    push_byte(&mut out, if r.white_on_right { 1 } else { 0 });
    push_byte(&mut out, if r.flash { 1 } else { 0 });
    assert(out@ == spec_encode(r@));
    out
}

// Executable decoding.

fn dec16(b0: u8, b1: u8) -> (r: u16)
    ensures
        r == dec_u16(b0, b1),
{
    (b0 as u16) * 0x100 + (b1 as u16)
}

fn dec32(b0: u8, b1: u8, b2: u8, b3: u8) -> (r: u32)
    ensures
        r == dec_u32(b0, b1, b2, b3),
{
    (b0 as u32) * 0x1000000 + (b1 as u32) * 0x10000 + (b2 as u32) * 0x100 + (b3 as u32)
}

fn read_penalties(bytes: &[u8], off: usize) -> (ps: Vec<PenaltySnapshot>)
    requires
        off + 10 <= bytes@.len(),
        bytes@[off as int] <= 3,
    ensures
        ps@ == dec_penalty_list(bytes@, off as int),
{
    let count = bytes[off];
    let mut ps: Vec<PenaltySnapshot> = Vec::new();
    if count > 0 {
        ps.push(PenaltySnapshot {
            player_number: bytes[off + 1],
            time: pen_time_from(dec16(bytes[off + 2], bytes[off + 3])),
        });
    }
    if count > 1 {
        ps.push(PenaltySnapshot {
            player_number: bytes[off + 4],
            time: pen_time_from(dec16(bytes[off + 5], bytes[off + 6])),
        });
    }
    if count > 2 {
        ps.push(PenaltySnapshot {
            player_number: bytes[off + 7],
            time: pen_time_from(dec16(bytes[off + 8], bytes[off + 9])),
        });
    }
    assert(ps@ =~= dec_penalty_list(bytes@, off as int));
    ps
}

fn pen_time_from(code: u16) -> (t: PenaltyTime)
    ensures
        t == pen_time_of(code),
{
    if code == u16::MAX {
        PenaltyTime::TotalDismissal
    } else {
        PenaltyTime::Seconds(code)
    }
}

/// Decode one frame. The result is exactly what [`spec_decode`] says of the
/// input bytes: a frame of any length other than [`ENCODED_LEN`] is rejected
/// as a framing error, a well-formed frame yields its record.
pub fn decode(bytes: &[u8]) -> (r: Result<WireRecord, DecodeError>)
    ensures
        match r {
            Ok(rec) => spec_decode(bytes@) matches Ok(m) && rec@ == m,
            Err(e) => spec_decode(bytes@) == Err::<RecordModel, DecodeError>(e),
        },
{
    if bytes.len() != ENCODED_LEN {
        return Err(DecodeError::WrongLength);
    }
    let period_byte = bytes[0];
    if period_byte > 9 {
        return Err(DecodeError::InvalidPeriod);
    }
    let timeout_byte = bytes[5];
    if timeout_byte > 4 {
        return Err(DecodeError::InvalidTimeout);
    }
    if bytes[10] > 3 {
        return Err(DecodeError::InvalidPenaltyCount);
    }
    if bytes[20] > 3 {
        return Err(DecodeError::InvalidPenaltyCount);
    }
    if bytes[30] > 1 || bytes[35] > 1 || bytes[36] > 1 || bytes[37] > 1 {
        return Err(DecodeError::InvalidFlag);
    }
    let current_period = if period_byte == 0 {
        GamePeriod::BetweenGames
    } else if period_byte == 1 {
        GamePeriod::FirstHalf
    } else if period_byte == 2 {
        GamePeriod::HalfTime
    } else if period_byte == 3 {
        GamePeriod::SecondHalf
    } else if period_byte == 4 {
        GamePeriod::PreOvertime
    } else if period_byte == 5 {
        GamePeriod::OvertimeFirstHalf
    } else if period_byte == 6 {
        GamePeriod::OvertimeHalfTime
    } else if period_byte == 7 {
        GamePeriod::OvertimeSecondHalf
    } else if period_byte == 8 {
        GamePeriod::PreSuddenDeath
    } else {
        GamePeriod::SuddenDeath
    };
    let timeout_seconds = dec16(bytes[6], bytes[7]);
    let timeout = if timeout_byte == 1 {
        TimeoutSnapshot::Black(timeout_seconds)
    } else if timeout_byte == 2 {
        TimeoutSnapshot::White(timeout_seconds)
    } else if timeout_byte == 3 {
        TimeoutSnapshot::Ref(timeout_seconds)
    } else if timeout_byte == 4 {
        TimeoutSnapshot::PenaltyShot(timeout_seconds)
    } else {
        TimeoutSnapshot::Inactive
    };
    let rec = WireRecord {
        snapshot: GameSnapshot {
            current_period,
            secs_in_period: dec32(bytes[1], bytes[2], bytes[3], bytes[4]),
            timeout,
            b_score: bytes[8],
            w_score: bytes[9],
            b_penalties: read_penalties(bytes, 10),
            w_penalties: read_penalties(bytes, 20),
            next_period_len_secs: if bytes[30] == 1 {
                Some(dec32(bytes[31], bytes[32], bytes[33], bytes[34]))
            } else {
                None
            },
            is_old_game: bytes[35] == 1,
        },
        white_on_right: bytes[36] == 1,
        flash: bytes[37] == 1,
    };
    proof {
        let m = spec_decode(bytes@)->Ok_0;
        assert(rec@.snapshot =~= m.snapshot);
        assert(rec@ =~= m);
    }
    Ok(rec)
}

// Round-trip facts.

proof fn lemma_u16_round(x: u16)
    ensures
        dec_u16((x as int / 0x100) as u8, (x as int % 0x100) as u8) == x,
{
    lemma_fundamental_div_mod(x as int, 0x100);
}

proof fn lemma_u32_round(x: u32)
    ensures
        dec_u32(
            (x as int / 0x1000000) as u8,
            ((x as int / 0x10000) % 0x100) as u8,
            ((x as int / 0x100) % 0x100) as u8,
            (x as int % 0x100) as u8,
        ) == x,
{
    let a = x as int;
    lemma_fundamental_div_mod(a, 0x100);
    lemma_fundamental_div_mod(a / 0x100, 0x100);
    lemma_fundamental_div_mod(a / 0x10000, 0x100);
    lemma_div_denominator(a, 0x100, 0x100);
    lemma_div_denominator(a, 0x10000, 0x100);
    lemma_div_denominator(a, 0x100, 0x10000);
}

/// The frame of an encodable record is exactly [`ENCODED_LEN`] bytes.
pub proof fn lemma_encode_len(r: RecordModel)
    ensures
        spec_encode(r).len() == ENCODED_LEN,
{
}

/// A byte sequence of any other length is rejected as a framing error.
pub proof fn lemma_wrong_length_rejected(s: Seq<u8>)
    requires
        s.len() != ENCODED_LEN,
    ensures
        spec_decode(s) == Err::<RecordModel, DecodeError>(DecodeError::WrongLength),
{
}

proof fn lemma_penalty_list_round(ps: Seq<PenaltySnapshot>, s: Seq<u8>, off: int)
    requires
        ps.len() <= MAX_PENALTIES_PER_SIDE,
        forall|i: int| 0 <= i < ps.len() ==> crate::snapshot::penalty_encodable(#[trigger] ps[i]),
        0 <= off,
        off + 10 <= s.len(),
        s.subrange(off, off + 10) == enc_penalty_list(ps),
    ensures
        s[off] == ps.len() as u8,
        dec_penalty_list(s, off) == ps,
{
    let e = enc_penalty_list(ps);
    assert(s[off] == e[0]);
    assert forall|i: int| 0 <= i < ps.len() implies dec_penalty(s, off + 1 + 3 * i) == ps[i] by {
        let p = ps[i];
        assert(e[1 + 3 * i] == enc_pen_slot(ps, i)[0]);
        assert(e[1 + 3 * i + 1] == enc_pen_slot(ps, i)[1]);
        assert(e[1 + 3 * i + 2] == enc_pen_slot(ps, i)[2]);
        assert(s[off + 1 + 3 * i] == e[1 + 3 * i]);
        assert(s[off + 1 + 3 * i + 1] == e[1 + 3 * i + 1]);
        assert(s[off + 1 + 3 * i + 2] == e[1 + 3 * i + 2]);
        assert(enc_pen_slot(ps, i) == enc_penalty(p));
        lemma_u16_round(pen_time_code(p.time));
        assert(pen_time_of(pen_time_code(p.time)) == p.time);
    }
    assert(dec_penalty_list(s, off) =~= ps);
}

/// Round trip: decoding the frame of any encodable record yields that record.
#[verifier::rlimit(100)]
pub proof fn lemma_round_trip(r: RecordModel)
    requires
        record_encodable(r),
    ensures
        spec_decode(spec_encode(r)) == Ok::<RecordModel, DecodeError>(r),
{
    let s = spec_encode(r);
    assert(s.len() == ENCODED_LEN);
    lemma_u32_round(r.snapshot.secs_in_period);
    lemma_u16_round(timeout_secs(r.snapshot.timeout));
    lemma_u32_round(opt_u32_value(r.snapshot.next_period_len_secs));
    assert(s.subrange(10, 20) =~= enc_penalty_list(r.snapshot.b_penalties));
    assert(s.subrange(20, 30) =~= enc_penalty_list(r.snapshot.w_penalties));
    lemma_penalty_list_round(r.snapshot.b_penalties, s, 10);
    lemma_penalty_list_round(r.snapshot.w_penalties, s, 20);
    let m = spec_decode(s)->Ok_0;
    assert(m.snapshot =~= r.snapshot);
    assert(m =~= r);
}

} // verus!
