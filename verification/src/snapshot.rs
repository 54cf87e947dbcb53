//! The game-state snapshot: the authoritative point-in-time description of
//! period, clock, scores, penalties and timeouts that the controlling process
//! distributes to every display consumer.

use vstd::prelude::*;

verus! {

/// The most penalties per side that one wire frame can carry.
pub const MAX_PENALTIES_PER_SIDE: usize = 3;

/// The phase of the game that the clock currently counts through.
#[derive(Clone, Copy, Debug, PartialEq, Eq, Structural)]
pub enum GamePeriod {
    BetweenGames,
    FirstHalf,
    HalfTime,
    SecondHalf,
    PreOvertime,
    OvertimeFirstHalf,
    OvertimeHalfTime,
    OvertimeSecondHalf,
    PreSuddenDeath,
    SuddenDeath,
}

/// Which timeout, if any, is currently running, with its remaining seconds.
#[derive(Clone, Copy, Debug, PartialEq, Eq, Structural)]
pub enum TimeoutSnapshot {
    Inactive,
    Black(u16),
    White(u16),
    Ref(u16),
    PenaltyShot(u16),
}

/// The remaining duration of one penalty.
#[derive(Clone, Copy, Debug, PartialEq, Eq, Structural)]
pub enum PenaltyTime {
    Seconds(u16),
    TotalDismissal,
}

/// One penalty against one player.
#[derive(Clone, Copy, Debug, PartialEq, Eq, Structural)]
pub struct PenaltySnapshot {
    pub player_number: u8,
    pub time: PenaltyTime,
}

/// The authoritative game state for one tick.
#[derive(Clone, Debug)]
pub struct GameSnapshot {
    pub current_period: GamePeriod,
    /// Seconds remaining in the current period.
    pub secs_in_period: u32,
    pub timeout: TimeoutSnapshot,
    pub b_score: u8,
    pub w_score: u8,
    pub b_penalties: Vec<PenaltySnapshot>,
    pub w_penalties: Vec<PenaltySnapshot>,
    /// Length of the following period, where the source already knows it.
    pub next_period_len_secs: Option<u32>,
    /// True while the between-games pause still shows a game that just ended.
    pub is_old_game: bool,
}

/// The mathematical value of a [`GameSnapshot`]: the same fields with the
/// penalty lists as sequences.
#[verifier::ext_equal]
pub struct SnapshotModel {
    pub current_period: GamePeriod,
    pub secs_in_period: u32,
    pub timeout: TimeoutSnapshot,
    pub b_score: u8,
    pub w_score: u8,
    pub b_penalties: Seq<PenaltySnapshot>,
    pub w_penalties: Seq<PenaltySnapshot>,
    pub next_period_len_secs: Option<u32>,
    pub is_old_game: bool,
}

impl View for GameSnapshot {
    type V = SnapshotModel;

    open spec fn view(&self) -> SnapshotModel {
        SnapshotModel {
            current_period: self.current_period,
            secs_in_period: self.secs_in_period,
            timeout: self.timeout,
            b_score: self.b_score,
            w_score: self.w_score,
            b_penalties: self.b_penalties@,
            w_penalties: self.w_penalties@,
            next_period_len_secs: self.next_period_len_secs,
            is_old_game: self.is_old_game,
        }
    }
}

/// The snapshot a consumer assumes before the first frame arrives: between
/// games, ten minutes on the clock, nothing else set.
pub open spec fn spec_default_snapshot() -> SnapshotModel {
    SnapshotModel {
        current_period: GamePeriod::BetweenGames,
        secs_in_period: 600,
        timeout: TimeoutSnapshot::Inactive,
        b_score: 0,
        w_score: 0,
        b_penalties: Seq::empty(),
        w_penalties: Seq::empty(),
        next_period_len_secs: None,
        is_old_game: false,
    }
}

impl Default for GameSnapshot {
    /// Exactly [`spec_default_snapshot`].
    fn default() -> (s: Self)
        ensures
            s@ == spec_default_snapshot(),
    {
        let s = GameSnapshot {
            current_period: GamePeriod::BetweenGames,
            secs_in_period: 600,
            timeout: TimeoutSnapshot::Inactive,
            b_score: 0,
            w_score: 0,
            b_penalties: Vec::new(),
            w_penalties: Vec::new(),
            next_period_len_secs: None,
            is_old_game: false,
        };
        proof {
            assert(s@ =~= spec_default_snapshot());
        }
        s
    }
}

/// A penalty is encodable: a timed penalty never uses the sentinel value that
/// the wire reserves for a total dismissal.
pub open spec fn penalty_encodable(p: PenaltySnapshot) -> bool {
    match p.time {
        PenaltyTime::Seconds(s) => s < u16::MAX,
        PenaltyTime::TotalDismissal => true,
    }
}

/// A snapshot fits in one fixed-length wire frame: at most
/// [`MAX_PENALTIES_PER_SIDE`] penalties per side, each encodable.
pub open spec fn snapshot_encodable(s: SnapshotModel) -> bool {
    &&& s.b_penalties.len() <= MAX_PENALTIES_PER_SIDE
    &&& s.w_penalties.len() <= MAX_PENALTIES_PER_SIDE
    &&& forall|i: int| 0 <= i < s.b_penalties.len() ==> penalty_encodable(#[trigger] s.b_penalties[i])
    &&& forall|i: int| 0 <= i < s.w_penalties.len() ==> penalty_encodable(#[trigger] s.w_penalties[i])
}

} // verus!
