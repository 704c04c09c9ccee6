use inferi::args::Args;
use inferi::frame::FPS;
use inferi::session::{
    add_local_player, build_session, configure_session, configure_sync_test, setup,
    start_sync_test, AppState, ConfigurationError, SessionMode, SessionParameters, Startup,
    CHECK_DISTANCE, INPUT_DELAY, MAX_PREDICTION_WINDOW,
};

fn with_players(players: usize) -> Args {
    Args { players, ..Args::default() }
}

#[test]
fn default_arguments() {
    let args = Args::default();
    assert_eq!(args.matchbox, "ws://127.0.0.1:3536");
    assert_eq!(args.room, None);
    assert_eq!(args.players, 2);
}

#[test]
fn session_constants() {
    assert_eq!(MAX_PREDICTION_WINDOW, 12);
    assert_eq!(INPUT_DELAY, 0);
    assert_eq!(CHECK_DISTANCE, 2);
    assert_eq!(FPS, 60);
}

#[test]
fn builder_carries_the_configuration() {
    let builder = configure_session(4);
    let shown = format!("{:?}", builder.inner);
    assert!(shown.contains("num_players: 4"), "{shown}");
    assert!(shown.contains("max_prediction: 12"), "{shown}");
    assert!(shown.contains("fps: 60"), "{shown}");
    assert!(shown.contains("input_delay: 0"), "{shown}");
    assert!(shown.contains("check_dist: 2"), "{shown}");
    assert!(shown.contains("local_players: 0"), "{shown}");
    assert!(shown.contains("handles: {}"), "{shown}");
}

#[test]
fn builder_takes_any_number_of_players() {
    for players in [0usize, 1, 2, 7] {
        let shown = format!("{:?}", configure_session(players).inner);
        assert!(shown.contains(&format!("num_players: {players},")), "{shown}");
    }
}

#[test]
fn sync_test_builder_has_one_local_player() {
    let builder = configure_sync_test();
    let shown = format!("{:?}", builder.inner);
    assert!(shown.contains("num_players: 1,"), "{shown}");
    assert!(shown.contains("local_players: 1,"), "{shown}");
    assert!(shown.contains("handles: {0: Local}"), "{shown}");
    assert!(shown.contains("max_prediction: 12"), "{shown}");
}

#[test]
fn one_player_starts_the_self_test_at_once() {
    let decision = setup(&with_players(1));
    assert_eq!(decision.state(), AppState::InGame);
    assert_eq!(decision.session_mode(), SessionMode::LocalDeterministicTest);
    match decision {
        Startup::SyncTest(session) => {
            assert_eq!(session.inner.num_players(), 1);
            assert_eq!(session.inner.max_prediction(), 12);
            assert_eq!(session.inner.check_distance(), 2);
        }
        Startup::Lobby => panic!("a single player does not visit the lobby"),
    }
}

#[test]
fn several_players_go_to_the_lobby() {
    for players in [0usize, 2, 3, 8] {
        let decision = setup(&with_players(players));
        assert!(matches!(decision, Startup::Lobby));
        assert_eq!(decision.state(), AppState::Lobby);
        assert_eq!(decision.session_mode(), SessionMode::NetworkedMatch);
    }
}

#[test]
fn default_arguments_lead_to_the_lobby() {
    assert!(matches!(setup(&Args::default()), Startup::Lobby));
}

#[test]
fn state_machine_transitions() {
    let states = [AppState::Startup, AppState::Lobby, AppState::InGame, AppState::Paused];
    let allowed = [
        (AppState::Startup, AppState::Lobby),
        (AppState::Startup, AppState::InGame),
        (AppState::Lobby, AppState::InGame),
        (AppState::InGame, AppState::Paused),
        (AppState::Paused, AppState::InGame),
    ];
    for from in states {
        for to in states {
            assert_eq!(from.may_become(to), allowed.contains(&(from, to)));
        }
    }
    assert_eq!(AppState::default(), AppState::Startup);
}

fn parameters(num_players: usize, max_prediction_window: usize, input_delay: usize, fps: usize) -> SessionParameters {
    SessionParameters { num_players, max_prediction_window, input_delay, fps }
}

#[test]
fn parameters_of_the_game() {
    assert_eq!(SessionParameters::for_players(2), parameters(2, 12, 0, 60));
    assert_eq!(SessionParameters::for_players(1), parameters(1, 12, 0, 60));
    assert_eq!(SessionMode::default(), SessionMode::Uninitialized);
}

#[test]
fn builder_holds_the_parameters_it_was_given() {
    let builder = build_session(&parameters(3, 9, 4, 30)).expect("accepted");
    let shown = format!("{:?}", builder.inner);
    assert!(shown.contains("num_players: 3,"), "{shown}");
    assert!(shown.contains("max_prediction: 9,"), "{shown}");
    assert!(shown.contains("input_delay: 4,"), "{shown}");
    assert!(shown.contains("fps: 30,"), "{shown}");
    assert!(shown.contains("check_dist: 2,"), "{shown}");
    assert!(shown.contains("handles: {}"), "{shown}");
}

#[test]
fn a_prediction_window_without_frames_is_refused() {
    assert_eq!(
        build_session(&parameters(2, 0, 0, 60)).err(),
        Some(ConfigurationError::PredictionWindow)
    );
    assert_eq!(
        build_session(&parameters(2, 0, 0, 0)).err(),
        Some(ConfigurationError::PredictionWindow)
    );
}

#[test]
fn a_rate_of_zero_is_refused() {
    assert_eq!(build_session(&parameters(2, 12, 0, 0)).err(), Some(ConfigurationError::Rate));
    assert!(build_session(&parameters(2, 12, 0, 1)).is_ok());
    assert!(build_session(&parameters(2, 1, 0, 60)).is_ok());
}

#[test]
fn local_players_are_registered_one_by_one() {
    let builder = configure_session(2);
    let builder = add_local_player(builder, 1).expect("free handle");
    let shown = format!("{:?}", builder.inner);
    assert!(shown.contains("handles: {1: Local}"), "{shown}");
    assert!(shown.contains("local_players: 1,"), "{shown}");
    let builder = add_local_player(builder, 0).expect("free handle");
    let shown = format!("{:?}", builder.inner);
    assert!(shown.contains("0: Local") && shown.contains("1: Local"), "{shown}");
    assert!(shown.contains("num_players: 2,"), "{shown}");
    assert!(shown.contains("max_prediction: 12,"), "{shown}");
}

#[test]
fn a_taken_handle_is_refused() {
    let builder = add_local_player(configure_session(2), 0).expect("free handle");
    assert_eq!(add_local_player(builder, 0).err(), Some(ConfigurationError::Player { handle: 0 }));
}

#[test]
fn a_handle_beyond_the_players_is_refused() {
    assert_eq!(
        add_local_player(configure_session(2), 2).err(),
        Some(ConfigurationError::Player { handle: 2 })
    );
    assert_eq!(
        add_local_player(configure_session(0), 0).err(),
        Some(ConfigurationError::Player { handle: 0 })
    );
    assert!(add_local_player(configure_session(2), 1).is_ok());
}

#[test]
fn a_self_test_needs_a_window_above_the_check_distance() {
    for window in [1usize, 2] {
        let builder = build_session(&parameters(1, window, 0, 60)).expect("accepted");
        assert_eq!(start_sync_test(builder).err(), Some(ConfigurationError::CheckDistance));
    }
    let builder = build_session(&parameters(2, 3, 1, 60)).expect("accepted");
    let session = start_sync_test(builder).expect("started");
    assert_eq!(session.inner.num_players(), 2);
    assert_eq!(session.inner.max_prediction(), 3);
    assert_eq!(session.inner.check_distance(), 2);
}

#[test]
fn configuration_errors_have_messages() {
    assert_eq!(ConfigurationError::PredictionWindow.message(), "invalid prediction window");
    assert_eq!(ConfigurationError::Rate.message(), "invalid fps");
    assert_eq!(ConfigurationError::Player { handle: 3 }.message(), "failed to add player");
    assert_eq!(ConfigurationError::CheckDistance.message(), "failed to start synctest session");
}
