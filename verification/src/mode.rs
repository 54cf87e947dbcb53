//! The display-mode selector: a pure decision, evaluated once per rendering
//! tick, that picks exactly one of the mutually exclusive display modes from
//! the merged snapshot, plus the per-tick bookkeeping a consumer performs
//! around it. The two thresholds that split the between-games pause are
//! protocol constants shared between producer and consumer, not local magic
//! numbers of a renderer.

use vstd::prelude::*;
use crate::snapshot::{GamePeriod, GameSnapshot, SnapshotModel};
use crate::state::{spec_merge, PacketModel, State, StateModel, StatePacket};

verus! {

/// Between games, displays with more seconds remaining than this show the
/// next game (or the final scores of the one that just ended).
pub const ROSTER_MAX_SECS: u32 = 150;

/// Between games, displays with fewer seconds remaining than this leave the
/// roster and show the pre-game screen.
pub const ROSTER_MIN_SECS: u32 = 30;

/// The mutually exclusive rendering branches.
#[derive(Clone, Copy, Debug, PartialEq, Eq, Structural)]
pub enum DisplayMode {
    /// Between games, long before the start, right after a game ended: its
    /// final scores.
    FinalScores,
    /// Between games, long before the start: the coming game.
    NextGame,
    /// Between games, the start drawing near: the rosters.
    Roster,
    /// Between games, moments before the start.
    PreGame,
    /// First half, half time or second half.
    InGame,
    /// Any overtime or sudden-death phase.
    OvertimeAndSuddenDeath,
}

/// Which mode a snapshot selects. Between games the seconds remaining decide:
/// more than [`ROSTER_MAX_SECS`] shows the final scores of a game that just
/// ended, else the next game; from [`ROSTER_MIN_SECS`] up to
/// [`ROSTER_MAX_SECS`] shows the roster; below [`ROSTER_MIN_SECS`] the
/// pre-game screen.
pub open spec fn spec_select_mode(s: SnapshotModel) -> DisplayMode {
    match s.current_period {
        GamePeriod::BetweenGames => if s.secs_in_period > ROSTER_MAX_SECS {
            if s.is_old_game {
                DisplayMode::FinalScores
            } else {
                DisplayMode::NextGame
            }
        } else if s.secs_in_period >= ROSTER_MIN_SECS {
            DisplayMode::Roster
        } else {
            DisplayMode::PreGame
        },
        GamePeriod::FirstHalf | GamePeriod::HalfTime | GamePeriod::SecondHalf => DisplayMode::InGame,
        _ => DisplayMode::OvertimeAndSuddenDeath,
    }
}

/// Select the display mode for one snapshot: exactly [`spec_select_mode`].
pub fn select_mode(snapshot: &GameSnapshot) -> (mode: DisplayMode)
    ensures
        mode == spec_select_mode(snapshot@),
{
    match snapshot.current_period {
        GamePeriod::BetweenGames => {
            if snapshot.secs_in_period > ROSTER_MAX_SECS {
                if snapshot.is_old_game {
                    DisplayMode::FinalScores
                } else {
                    DisplayMode::NextGame
                }
            } else if snapshot.secs_in_period >= ROSTER_MIN_SECS {
                DisplayMode::Roster
            } else {
                DisplayMode::PreGame
            }
        }
        GamePeriod::FirstHalf | GamePeriod::HalfTime | GamePeriod::SecondHalf => {
            DisplayMode::InGame
        }
        _ => DisplayMode::OvertimeAndSuddenDeath,
    }
}

/// Mode-selection boundaries, between games: 151 seconds and up shows final
/// scores or the next game, 30 to 150 the roster, 29 and below the pre-game
/// screen. Exactly one mode is selected either side of each threshold.
pub proof fn lemma_mode_boundaries(s: SnapshotModel)
    requires
        s.current_period == GamePeriod::BetweenGames,
    ensures
        s.secs_in_period == 151 ==> spec_select_mode(s) == if s.is_old_game {
            DisplayMode::FinalScores
        } else {
            DisplayMode::NextGame
        },
        s.secs_in_period == 150 ==> spec_select_mode(s) == DisplayMode::Roster,
        s.secs_in_period == 30 ==> spec_select_mode(s) == DisplayMode::Roster,
        s.secs_in_period == 29 ==> spec_select_mode(s) == DisplayMode::PreGame,
{
}

pub open spec fn packet_view(p: Option<StatePacket>) -> Option<PacketModel> {
    match p {
        Some(packet) => Some(packet@),
        None => None,
    }
}

/// The local state after one tick: the received update, if any, merged in;
/// and, between games, a newly announced period length remembered as the
/// half duration for the between-games displays.
pub open spec fn spec_tick_state(s: StateModel, r: Option<PacketModel>) -> StateModel {
    let merged = match r {
        Some(p) => spec_merge(s, p),
        None => s,
    };
    if merged.snapshot.current_period == GamePeriod::BetweenGames {
        match merged.snapshot.next_period_len_secs {
            Some(d) => StateModel { half_play_duration: Some(d), ..merged },
            None => merged,
        }
    } else {
        merged
    }
}

/// Everything the renderer needs from one tick besides the state itself.
#[derive(Clone, Copy, Debug, PartialEq, Eq, Structural)]
pub struct TickOutcome {
    /// The one rendering branch to draw.
    pub mode: DisplayMode,
    /// An update arrived: the auxiliary penalty overlay must resynchronize
    /// its indicators from the merged state.
    pub sync_overlay: bool,
    /// Between games: the auxiliary overlay discards its stale tracking.
    pub reset_overlay: bool,
    /// The auxiliary penalty overlay is drawn this tick (in-game and
    /// overtime modes only).
    pub overlay_visible: bool,
}

/// One rendering tick of a consumer: merge the received update, if any, into
/// the local state, remember the announced half duration between games, and
/// decide the mode and the auxiliary overlay's fate. The consumer polls its
/// hand-off channel without blocking and calls this with whatever it got, so
/// a tick with nothing received proceeds from the last-known state.
pub fn consumer_tick(state: &mut State, received: Option<StatePacket>) -> (out: TickOutcome)
    ensures
        final(state)@ == spec_tick_state(old(state)@, packet_view(received)),
        out.mode == spec_select_mode(final(state)@.snapshot),
        out.sync_overlay == received is Some,
        out.reset_overlay == (final(state)@.snapshot.current_period == GamePeriod::BetweenGames),
        out.overlay_visible == (out.mode == DisplayMode::InGame || out.mode
            == DisplayMode::OvertimeAndSuddenDeath),
{
    let sync_overlay = received.is_some();
    match received {
        Some(packet) => crate::state::merge_packet(state, packet),
        None => {}
    }
    let mut reset_overlay = false;
    if matches!(state.snapshot.current_period, GamePeriod::BetweenGames) {
        reset_overlay = true;
        match state.snapshot.next_period_len_secs {
            Some(d) => {
                state.half_play_duration = Some(d);
            }
            None => {}
        }
    }
    let mode = select_mode(&state.snapshot);
    let overlay_visible = matches!(mode, DisplayMode::InGame | DisplayMode::OvertimeAndSuddenDeath);
    proof {
        assert(state@ =~= spec_tick_state(old(state)@, packet_view(received)));
    }
    TickOutcome { mode, sync_overlay, reset_overlay, overlay_visible }
}

} // verus!
