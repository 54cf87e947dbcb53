use scorefeed::channel::HandoffChannel;
use scorefeed::codec::{encode, WireRecord};
use scorefeed::connection::{initial_state, step, ConnectionState, NetAction, NetEvent};
use scorefeed::mode::{consumer_tick, select_mode, DisplayMode, ROSTER_MAX_SECS, ROSTER_MIN_SECS};
use scorefeed::snapshot::{GamePeriod, GameSnapshot, TimeoutSnapshot};
use scorefeed::state::{merge_packet, Player, State, StatePacket, TeamInfo};
use scorefeed::style::{Button, Container, PaletteColor};

fn between_games_snapshot(secs: u32, is_old_game: bool) -> GameSnapshot {
    GameSnapshot {
        current_period: GamePeriod::BetweenGames,
        secs_in_period: secs,
        timeout: TimeoutSnapshot::Inactive,
        b_score: 0,
        w_score: 0,
        b_penalties: Vec::new(),
        w_penalties: Vec::new(),
        next_period_len_secs: None,
        is_old_game,
    }
}

fn startup_state() -> State {
    State {
        snapshot: between_games_snapshot(600, false),
        black: TeamInfo {
            team_name: String::from("BLACK"),
            players: Vec::new(),
            flag: None,
        },
        white: TeamInfo {
            team_name: String::from("WHITE"),
            players: Vec::new(),
            flag: None,
        },
        game_id: 0,
        pool: String::new(),
        start_time: String::new(),
        black_flag: None,
        white_flag: None,
        half_play_duration: None,
    }
}

fn bare_packet(snapshot: GameSnapshot) -> StatePacket {
    StatePacket {
        snapshot,
        black: None,
        white: None,
        game_id: None,
        pool: None,
        start_time: None,
    }
}

#[test]
fn merge_with_all_fields_absent_changes_only_the_snapshot() {
    let mut state = startup_state();
    state.game_id = 17;
    state.pool = String::from("Pool A");
    state.start_time = String::from("14:00");
    state.black_flag = Some(vec![1, 2, 3]);
    let snapshot = between_games_snapshot(42, true);
    merge_packet(&mut state, bare_packet(snapshot));
    assert_eq!(state.snapshot.secs_in_period, 42);
    assert!(state.snapshot.is_old_game);
    assert_eq!(state.black.team_name, "BLACK");
    assert_eq!(state.white.team_name, "WHITE");
    assert_eq!(state.game_id, 17);
    assert_eq!(state.pool, "Pool A");
    assert_eq!(state.start_time, "14:00");
    assert_eq!(state.black_flag, Some(vec![1, 2, 3]));
    assert_eq!(state.white_flag, None);
}

#[test]
fn merge_with_all_fields_present_replaces_them_all() {
    let mut state = startup_state();
    state.black_flag = Some(vec![9]);
    let packet = StatePacket {
        snapshot: between_games_snapshot(100, false),
        black: Some(TeamInfo {
            team_name: String::from("Sharks"),
            players: vec![Player { name: String::from("Ada"), number: 4 }],
            flag: Some(vec![10, 11]),
        }),
        white: Some(TeamInfo {
            team_name: String::from("Rays"),
            players: Vec::new(),
            flag: Some(vec![12]),
        }),
        game_id: Some(23),
        pool: Some(String::from("Pool B")),
        start_time: Some(String::from("09:30")),
    };
    merge_packet(&mut state, packet);
    assert_eq!(state.black.team_name, "Sharks");
    assert_eq!(state.black.players.len(), 1);
    assert_eq!(state.black.players[0].name, "Ada");
    assert_eq!(state.white.team_name, "Rays");
    assert_eq!(state.game_id, 23);
    assert_eq!(state.pool, "Pool B");
    assert_eq!(state.start_time, "09:30");
    assert_eq!(state.black_flag, Some(vec![10, 11]));
    assert_eq!(state.white_flag, Some(vec![12]));
    assert_eq!(state.snapshot.secs_in_period, 100);
}

#[test]
fn merge_keeps_previous_flag_when_team_update_carries_none() {
    let mut state = startup_state();
    state.black_flag = Some(vec![5, 5]);
    let packet = StatePacket {
        snapshot: between_games_snapshot(100, false),
        black: Some(TeamInfo {
            team_name: String::from("Sharks"),
            players: Vec::new(),
            flag: None,
        }),
        white: None,
        game_id: None,
        pool: None,
        start_time: None,
    };
    merge_packet(&mut state, packet);
    assert_eq!(state.black.team_name, "Sharks");
    assert_eq!(state.black_flag, Some(vec![5, 5]));
}

#[test]
fn merging_the_same_update_twice_changes_nothing_more() {
    let packet = StatePacket {
        snapshot: between_games_snapshot(100, false),
        black: Some(TeamInfo {
            team_name: String::from("Sharks"),
            players: Vec::new(),
            flag: Some(vec![10, 11]),
        }),
        white: None,
        game_id: Some(8),
        pool: None,
        start_time: None,
    };
    let mut once = startup_state();
    merge_packet(&mut once, packet.clone());
    let mut twice = startup_state();
    merge_packet(&mut twice, packet.clone());
    merge_packet(&mut twice, packet);
    assert_eq!(once.black.team_name, twice.black.team_name);
    assert_eq!(once.black_flag, twice.black_flag);
    assert_eq!(once.game_id, twice.game_id);
    assert_eq!(once.pool, twice.pool);
    assert_eq!(once.snapshot.secs_in_period, twice.snapshot.secs_in_period);
}

#[test]
fn default_snapshot_is_between_games_at_ten_minutes() {
    let snapshot = GameSnapshot::default();
    assert_eq!(snapshot.current_period, GamePeriod::BetweenGames);
    assert_eq!(snapshot.secs_in_period, 600);
    assert_eq!(snapshot.timeout, TimeoutSnapshot::Inactive);
    assert!(snapshot.b_penalties.is_empty());
    assert!(snapshot.w_penalties.is_empty());
    assert_eq!(snapshot.next_period_len_secs, None);
    assert!(!snapshot.is_old_game);
}

#[test]
fn mode_boundaries_between_games() {
    assert_eq!(
        select_mode(&between_games_snapshot(151, false)),
        DisplayMode::NextGame
    );
    assert_eq!(
        select_mode(&between_games_snapshot(151, true)),
        DisplayMode::FinalScores
    );
    assert_eq!(select_mode(&between_games_snapshot(150, false)), DisplayMode::Roster);
    assert_eq!(select_mode(&between_games_snapshot(150, true)), DisplayMode::Roster);
    assert_eq!(select_mode(&between_games_snapshot(30, false)), DisplayMode::Roster);
    assert_eq!(select_mode(&between_games_snapshot(29, false)), DisplayMode::PreGame);
    assert_eq!(select_mode(&between_games_snapshot(0, false)), DisplayMode::PreGame);
    assert_eq!(ROSTER_MAX_SECS, 150);
    assert_eq!(ROSTER_MIN_SECS, 30);
}

#[test]
fn mode_by_period() {
    let mut snapshot = between_games_snapshot(600, false);
    for period in [GamePeriod::FirstHalf, GamePeriod::HalfTime, GamePeriod::SecondHalf] {
        snapshot.current_period = period;
        assert_eq!(select_mode(&snapshot), DisplayMode::InGame);
    }
    for period in [
        GamePeriod::PreOvertime,
        GamePeriod::OvertimeFirstHalf,
        GamePeriod::OvertimeHalfTime,
        GamePeriod::OvertimeSecondHalf,
        GamePeriod::PreSuddenDeath,
        GamePeriod::SuddenDeath,
    ] {
        snapshot.current_period = period;
        assert_eq!(select_mode(&snapshot), DisplayMode::OvertimeAndSuddenDeath);
    }
}

#[test]
fn tick_between_games_remembers_half_duration_and_resets_overlay() {
    let mut state = startup_state();
    let mut snapshot = between_games_snapshot(200, false);
    snapshot.next_period_len_secs = Some(900);
    let outcome = consumer_tick(&mut state, Some(bare_packet(snapshot)));
    assert_eq!(state.half_play_duration, Some(900));
    assert_eq!(outcome.mode, DisplayMode::NextGame);
    assert!(outcome.sync_overlay);
    assert!(outcome.reset_overlay);
    assert!(!outcome.overlay_visible);
}

#[test]
fn tick_without_update_keeps_last_known_state() {
    let mut state = startup_state();
    state.snapshot.current_period = GamePeriod::FirstHalf;
    let outcome = consumer_tick(&mut state, None);
    assert_eq!(state.snapshot.current_period, GamePeriod::FirstHalf);
    assert_eq!(outcome.mode, DisplayMode::InGame);
    assert!(!outcome.sync_overlay);
    assert!(!outcome.reset_overlay);
    assert!(outcome.overlay_visible);
}

#[test]
fn button_styles_follow_the_palette() {
    let active = Button::Black.active();
    assert_eq!(active.background, PaletteColor::Black);
    assert_eq!(active.text, PaletteColor::White);
    assert!(!active.border_visible);
    assert!(!active.background_dimmed);

    assert_eq!(Button::Red.hovered(), Button::Red.active());

    let selected = Button::GreenSelected.active();
    assert_eq!(selected.background, PaletteColor::Green);
    assert!(selected.border_visible);

    let pressed = Button::Yellow.pressed();
    assert_eq!(pressed.background, PaletteColor::Yellow);
    assert!(pressed.background_dimmed);

    let disabled = Button::Blue.disabled();
    assert_eq!(disabled.background, PaletteColor::WindowBackground);
    assert_eq!(disabled.text, PaletteColor::Gray);
    assert!(disabled.border_visible);
}

#[test]
fn container_styles_follow_the_palette() {
    let style = Container::Black.style();
    assert_eq!(style.background, Some(PaletteColor::Black));
    assert_eq!(style.text, PaletteColor::White);
    assert!(!style.border_visible);

    let scroll = Container::ScrollBar.style();
    assert_eq!(scroll.background, Some(PaletteColor::WindowBackground));

    let disabled = Container::Disabled.style();
    assert_eq!(disabled.background, None);
    assert_eq!(disabled.text, PaletteColor::Gray);
    assert!(disabled.border_visible);
}

#[test]
fn end_to_end_one_frame_then_clean_close() {
    // A client connects, receives one well-formed frame (first half, 3-2),
    // and the socket then closes cleanly: the consumer's state shows 3-2 in
    // the first half and the machine is stopped with no reconnect attempt.
    let mut chan: HandoffChannel<WireRecord> = HandoffChannel::new();
    let mut local = startup_state();

    let (state, action) = step(initial_state(), NetEvent::ConnectSucceeded);
    assert_eq!(state, ConnectionState::Connected);
    assert!(matches!(action, NetAction::Read));

    let mut snapshot = between_games_snapshot(900, false);
    snapshot.current_period = GamePeriod::FirstHalf;
    snapshot.b_score = 3;
    snapshot.w_score = 2;
    let frame = encode(&WireRecord { snapshot, white_on_right: false, flash: false });

    let (state, action) = step(state, NetEvent::ReadReturned(frame));
    assert_eq!(state, ConnectionState::Connected);
    let delivered = match action {
        NetAction::Deliver(rec) => rec,
        other => panic!("expected a delivery, got {other:?}"),
    };
    chan.try_send(delivered).map_err(|_| ()).expect("channel has room");

    let received = chan.try_recv().map(|rec| bare_packet(rec.snapshot));
    let outcome = consumer_tick(&mut local, received);
    assert_eq!(local.snapshot.current_period, GamePeriod::FirstHalf);
    assert_eq!(local.snapshot.b_score, 3);
    assert_eq!(local.snapshot.w_score, 2);
    assert_eq!(outcome.mode, DisplayMode::InGame);

    let (state, action) = step(state, NetEvent::ReadReturned(Vec::new()));
    assert_eq!(state, ConnectionState::Stopped);
    assert!(matches!(action, NetAction::SignalFatal));
    let (state, action) = step(state, NetEvent::ConnectFailed);
    assert_eq!(state, ConnectionState::Stopped);
    assert!(matches!(action, NetAction::Idle));
}
