//! The long-lived local display state of one consumer, and the merge that
//! folds a sparse update into it. An optional field that the update carries
//! replaces the local value; one that is absent carries no new information
//! and the local value is retained — a merge, never an overwrite with a
//! default. The mandatory snapshot always fully replaces the previous one.

use vstd::prelude::*;
use crate::snapshot::{GameSnapshot, SnapshotModel};

verus! {

/// One rostered player.
#[derive(Clone, Debug)]
pub struct Player {
    pub name: String,
    pub number: u8,
}

/// The mathematical value of a [`Player`].
#[verifier::ext_equal]
pub struct PlayerModel {
    pub name: Seq<char>,
    pub number: u8,
}

impl View for Player {
    type V = PlayerModel;

    open spec fn view(&self) -> PlayerModel {
        PlayerModel { name: self.name@, number: self.number }
    }
}

/// What is known about one team: its name, its roster, and optionally the
/// raw encoded bytes of its flag image. The bytes are decoded into a
/// displayable texture by an external collaborator; the library only carries
/// them.
#[derive(Clone, Debug)]
pub struct TeamInfo {
    pub team_name: String,
    pub players: Vec<Player>,
    pub flag: Option<Vec<u8>>,
}

/// The mathematical value of a [`TeamInfo`].
#[verifier::ext_equal]
pub struct TeamInfoModel {
    pub team_name: Seq<char>,
    pub players: Seq<PlayerModel>,
    pub flag: Option<Seq<u8>>,
}

pub open spec fn bytes_view(b: Option<Vec<u8>>) -> Option<Seq<u8>> {
    match b {
        Some(v) => Some(v@),
        None => None,
    }
}

impl View for TeamInfo {
    type V = TeamInfoModel;

    open spec fn view(&self) -> TeamInfoModel {
        TeamInfoModel {
            team_name: self.team_name@,
            players: self.players@.map_values(|p: Player| p@),
            flag: bytes_view(self.flag),
        }
    }
}

/// A sparse update from the source of truth. Every `None` field means "no
/// new information", never "clear the field". Only the snapshot is mandatory
/// and always present in full.
#[derive(Clone, Debug)]
pub struct StatePacket {
    pub snapshot: GameSnapshot,
    pub black: Option<TeamInfo>,
    pub white: Option<TeamInfo>,
    pub game_id: Option<u32>,
    pub pool: Option<String>,
    pub start_time: Option<String>,
}

/// The mathematical value of a [`StatePacket`].
#[verifier::ext_equal]
pub struct PacketModel {
    pub snapshot: SnapshotModel,
    pub black: Option<TeamInfoModel>,
    pub white: Option<TeamInfoModel>,
    pub game_id: Option<u32>,
    pub pool: Option<Seq<char>>,
    pub start_time: Option<Seq<char>>,
}

pub open spec fn team_view(t: Option<TeamInfo>) -> Option<TeamInfoModel> {
    match t {
        Some(team) => Some(team@),
        None => None,
    }
}

pub open spec fn string_view(s: Option<String>) -> Option<Seq<char>> {
    match s {
        Some(st) => Some(st@),
        None => None,
    }
}

impl View for StatePacket {
    type V = PacketModel;

    open spec fn view(&self) -> PacketModel {
        PacketModel {
            snapshot: self.snapshot@,
            black: team_view(self.black),
            white: team_view(self.white),
            game_id: self.game_id,
            pool: string_view(self.pool),
            start_time: string_view(self.start_time),
        }
    }
}

/// The local display state one consumer owns. Created once at startup with
/// placeholder defaults, mutated only by the merge and by the between-games
/// bookkeeping, alive for the process lifetime.
///
/// `black_flag` and `white_flag` hold the raw bytes the current flag
/// textures are derived from; the textures themselves live with the
/// renderer, which re-derives one whenever these bytes change and degrades
/// to "no flag image" when its decoder fails. `half_play_duration` remembers
/// the last announced length of a half for the between-games display.
#[derive(Clone, Debug)]
pub struct State {
    pub snapshot: GameSnapshot,
    pub black: TeamInfo,
    pub white: TeamInfo,
    pub game_id: u32,
    pub pool: String,
    pub start_time: String,
    pub black_flag: Option<Vec<u8>>,
    pub white_flag: Option<Vec<u8>>,
    pub half_play_duration: Option<u32>,
}

/// The mathematical value of a [`State`].
#[verifier::ext_equal]
pub struct StateModel {
    pub snapshot: SnapshotModel,
    pub black: TeamInfoModel,
    pub white: TeamInfoModel,
    pub game_id: u32,
    pub pool: Seq<char>,
    pub start_time: Seq<char>,
    pub black_flag: Option<Seq<u8>>,
    pub white_flag: Option<Seq<u8>>,
    pub half_play_duration: Option<u32>,
}

impl View for State {
    type V = StateModel;

    open spec fn view(&self) -> StateModel {
        StateModel {
            snapshot: self.snapshot@,
            black: self.black@,
            white: self.white@,
            game_id: self.game_id,
            pool: self.pool@,
            start_time: self.start_time@,
            black_flag: bytes_view(self.black_flag),
            white_flag: bytes_view(self.white_flag),
            half_play_duration: self.half_play_duration,
        }
    }
}

/// The flag bytes a side shows after a merge: the bytes the update's team
/// info carries, where it carries a team with a flag; the previous bytes
/// otherwise. A team without a flag payload keeps the previous image.
pub open spec fn merged_flag(team: Option<TeamInfoModel>, prev: Option<Seq<u8>>) -> Option<
    Seq<u8>,
> {
    match team {
        Some(t) => match t.flag {
            Some(bytes) => Some(bytes),
            None => prev,
        },
        None => prev,
    }
}

/// The state a merge produces: field for field, the update's value where one
/// is present, the previous value where none is. The snapshot is always
/// replaced; the remembered half duration is not the merge's business.
pub open spec fn spec_merge(s: StateModel, p: PacketModel) -> StateModel {
    StateModel {
        snapshot: p.snapshot,
        black: match p.black {
            Some(t) => t,
            None => s.black,
        },
        white: match p.white {
            Some(t) => t,
            None => s.white,
        },
        game_id: match p.game_id {
            Some(id) => id,
            None => s.game_id,
        },
        pool: match p.pool {
            Some(pool) => pool,
            None => s.pool,
        },
        start_time: match p.start_time {
            Some(t) => t,
            None => s.start_time,
        },
        black_flag: merged_flag(p.black, s.black_flag),
        white_flag: merged_flag(p.white, s.white_flag),
        half_play_duration: s.half_play_duration,
    }
}

/// Fold one sparse update into the local state: exactly [`spec_merge`].
pub fn merge_packet(state: &mut State, packet: StatePacket)
    ensures
        final(state)@ == spec_merge(old(state)@, packet@),
{
    let ghost s0 = old(state)@;
    let ghost pm = packet@;
    match packet.black {
        Some(team) => {
            match &team.flag {
                Some(bytes) => {
                    let fresh = bytes.clone();
                    proof {
                        assert(fresh@ =~= bytes@);
                    }
                    state.black_flag = Some(fresh);
                }
                None => {}
            }
            state.black = team;
        }
        None => {}
    }
    match packet.white {
        Some(team) => {
            match &team.flag {
                Some(bytes) => {
                    let fresh = bytes.clone();
                    proof {
                        assert(fresh@ =~= bytes@);
                    }
                    state.white_flag = Some(fresh);
                }
                None => {}
            }
            state.white = team;
        }
        None => {}
    }
    match packet.game_id {
        Some(id) => {
            state.game_id = id;
        }
        None => {}
    }
    match packet.pool {
        Some(pool) => {
            state.pool = pool;
        }
        None => {}
    }
    match packet.start_time {
        Some(t) => {
            state.start_time = t;
        }
        None => {}
    }
    state.snapshot = packet.snapshot;
    assert(state@ =~= spec_merge(s0, pm));
}

/// Merge idempotence: the wire provides no deduplication, so a consumer may
/// see the same update twice; merging it again changes nothing more —
/// last-merged-wins.
pub proof fn lemma_merge_idempotent(s: StateModel, p: PacketModel)
    ensures
        spec_merge(spec_merge(s, p), p) == spec_merge(s, p),
{
    assert(spec_merge(spec_merge(s, p), p) =~= spec_merge(s, p));
}

/// Merge identity: an update with every optional field absent leaves the
/// team, flag, game, pool and start-time fields untouched; only the snapshot
/// is replaced.
pub proof fn lemma_merge_identity(s: StateModel, p: PacketModel)
    requires
        p.black is None,
        p.white is None,
        p.game_id is None,
        p.pool is None,
        p.start_time is None,
    ensures
        spec_merge(s, p) == (StateModel { snapshot: p.snapshot, ..s }),
{
    assert(spec_merge(s, p) =~= StateModel { snapshot: p.snapshot, ..s });
}

/// Merge totality: an update with every optional field present, each team
/// with a flag payload, fully replaces every corresponding field; only the
/// remembered half duration is carried over.
pub proof fn lemma_merge_totality(s: StateModel, p: PacketModel)
    requires
        p.black matches Some(b) && b.flag is Some,
        p.white matches Some(w) && w.flag is Some,
        p.game_id is Some,
        p.pool is Some,
        p.start_time is Some,
    ensures
        spec_merge(s, p) == (StateModel {
            snapshot: p.snapshot,
            black: p.black->0,
            white: p.white->0,
            game_id: p.game_id->0,
            pool: p.pool->0,
            start_time: p.start_time->0,
            black_flag: p.black->0.flag,
            white_flag: p.white->0.flag,
            half_play_duration: s.half_play_duration,
        }),
{
    assert(spec_merge(s, p) =~= StateModel {
        snapshot: p.snapshot,
        black: p.black->0,
        white: p.white->0,
        game_id: p.game_id->0,
        pool: p.pool->0,
        start_time: p.start_time->0,
        black_flag: p.black->0.flag,
        white_flag: p.white->0.flag,
        half_play_duration: s.half_play_duration,
    });
}

} // verus!
