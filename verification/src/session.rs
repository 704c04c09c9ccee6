//! The session state machine: which mode a match runs in, how its session
//! is configured, and what the events of a running session call for.

use crate::args::Args;
use crate::frame::FPS;
use crate::input::GgrsConfig;
use vstd::prelude::*;

verus! {

/// How many frames the simulation may run ahead of confirmed input.
pub const MAX_PREDICTION_WINDOW: usize = 12;

/// Extra frames by which local input is held back. Rollbacks carry the
/// latency instead, so there are none.
pub const INPUT_DELAY: usize = 0;

/// How many frames a self-test rolls back and resimulates on every step. The
/// game leaves it as the session layer has it.
pub const CHECK_DISTANCE: usize = 2;

/// The states of the application.
#[derive(Debug, Clone, Copy, PartialEq, Eq, Hash, Structural)]
pub enum AppState {
    Startup,
    Lobby,
    InGame,
    Paused,
}

impl Default for AppState {
    fn default() -> (state: Self)
        ensures
            state == AppState::Startup,
    {
        AppState::Startup
    }
}

impl AppState {
    /// The transitions of the state machine: startup leads into the lobby or
    /// straight into the game, the lobby into the game, and a game can be
    /// paused and resumed.
    pub open spec fn allows(self, next: AppState) -> bool {
        match (self, next) {
            (AppState::Startup, AppState::Lobby) => true,
            (AppState::Startup, AppState::InGame) => true,
            (AppState::Lobby, AppState::InGame) => true,
            (AppState::InGame, AppState::Paused) => true,
            (AppState::Paused, AppState::InGame) => true,
            _ => false,
        }
    }

    pub fn may_become(self, next: AppState) -> (allowed: bool)
        ensures
            allowed == self.allows(next),
    {
        match (self, next) {
            (AppState::Startup, AppState::Lobby) => true,
            (AppState::Startup, AppState::InGame) => true,
            (AppState::Lobby, AppState::InGame) => true,
            (AppState::InGame, AppState::Paused) => true,
            (AppState::Paused, AppState::InGame) => true,
            _ => false,
        }
    }
}

/// The mode a match runs in. It is decided once, at startup, from the number
/// of players, and does not change during a match.
#[derive(Debug, Clone, Copy, PartialEq, Eq, Structural)]
pub enum SessionMode {
    Uninitialized,
    LocalDeterministicTest,
    NetworkedMatch,
}

impl Default for SessionMode {
    /// Before startup has decided, no session is initialised.
    fn default() -> (mode: Self)
        ensures
            mode == SessionMode::Uninitialized,
    {
        SessionMode::Uninitialized
    }
}

/// The kind of a participant registered with a session.
#[derive(Debug, Clone, Copy, PartialEq, Eq, Structural)]
pub enum PlayerKind {
    Local,
    Remote,
    Spectator,
}

/// The numbers a session is configured with.
#[derive(Debug, Clone, Copy, PartialEq, Eq, Structural)]
pub struct SessionSettings {
    pub num_players: usize,
    pub max_prediction_window: usize,
    pub input_delay: usize,
    pub fps: usize,
    pub check_distance: usize,
}

impl SessionSettings {
    /// The settings of a builder on which nothing has been set yet.
    pub open spec fn initial() -> SessionSettings {
        SessionSettings {
            num_players: 2,
            max_prediction_window: 8,
            input_delay: 0,
            fps: 60,
            check_distance: CHECK_DISTANCE,
        }
    }

    pub open spec fn with_num_players(self, num_players: usize) -> SessionSettings {
        SessionSettings { num_players, ..self }
    }

    pub open spec fn with_max_prediction_window(self, window: usize) -> SessionSettings {
        SessionSettings { max_prediction_window: window, ..self }
    }

    pub open spec fn with_input_delay(self, delay: usize) -> SessionSettings {
        SessionSettings { input_delay: delay, ..self }
    }

    pub open spec fn with_fps(self, fps: usize) -> SessionSettings {
        SessionSettings { fps, ..self }
    }

    /// A self-test session can be started if its check distance is below
    /// its prediction window.
    pub open spec fn can_start_sync_test(self) -> bool {
        self.check_distance < self.max_prediction_window
    }

    /// What a self-test session keeps of the settings of its builder.
    pub open spec fn kept_by_sync_test(self) -> SyncTestSettings {
        SyncTestSettings {
            num_players: self.num_players,
            max_prediction_window: self.max_prediction_window,
            check_distance: self.check_distance,
            input_delay: self.input_delay,
        }
    }
}

/// The numbers a self-test session runs with.
#[derive(Debug, Clone, Copy, PartialEq, Eq, Structural)]
pub struct SyncTestSettings {
    pub num_players: usize,
    pub max_prediction_window: usize,
    pub check_distance: usize,
    pub input_delay: usize,
}

/// The numbers that can be chosen for a session.
#[derive(Debug, Clone, Copy, PartialEq, Eq, Structural)]
pub struct SessionParameters {
    pub num_players: usize,
    pub max_prediction_window: usize,
    pub input_delay: usize,
    pub fps: usize,
}

impl SessionParameters {
    /// The parameters of every session of this game with `players` players.
    pub open spec fn of_game(players: usize) -> SessionParameters {
        SessionParameters {
            num_players: players,
            max_prediction_window: MAX_PREDICTION_WINDOW,
            input_delay: INPUT_DELAY,
            fps: FPS,
        }
    }

    /// The settings of a builder that was given these parameters: the check
    /// distance is not among them and stays as the session layer has it.
    pub open spec fn settings(self) -> SessionSettings {
        SessionSettings {
            num_players: self.num_players,
            max_prediction_window: self.max_prediction_window,
            input_delay: self.input_delay,
            fps: self.fps,
            check_distance: CHECK_DISTANCE,
        }
    }

    /// Why the session layer refuses these parameters, if it does: it looks
    /// at the prediction window first, then at the rate.
    pub open spec fn refusal(self) -> Option<ConfigurationError> {
        if self.max_prediction_window == 0 {
            Some(ConfigurationError::PredictionWindow)
        } else if self.fps == 0 {
            Some(ConfigurationError::Rate)
        } else {
            None
        }
    }

    pub fn for_players(players: usize) -> (parameters: Self)
        ensures
            parameters == Self::of_game(players),
    {
        SessionParameters {
            num_players: players,
            max_prediction_window: MAX_PREDICTION_WINDOW,
            input_delay: INPUT_DELAY,
            fps: FPS,
        }
    }
}

/// A configuration that the session layer refused. Startup cannot go on
/// after any of these.
#[derive(Debug, Clone, Copy, PartialEq, Eq, Structural)]
pub enum ConfigurationError {
    /// The prediction window has no frame.
    PredictionWindow,
    /// The simulation rate is 0.
    Rate,
    /// The handle is registered already, or is not below the number of
    /// players.
    Player { handle: usize },
    /// The check distance of a self-test is not below its prediction window.
    CheckDistance,
}

impl ConfigurationError {
    /// The message to halt with.
    pub fn message(&self) -> (text: String)
        ensures
            self is PredictionWindow ==> text@ == "invalid prediction window"@,
            self is Rate ==> text@ == "invalid fps"@,
            self is Player ==> text@ == "failed to add player"@,
            self is CheckDistance ==> text@ == "failed to start synctest session"@,
    {
        match self {
            ConfigurationError::PredictionWindow => "invalid prediction window".to_owned(),
            ConfigurationError::Rate => "invalid fps".to_owned(),
            ConfigurationError::Player { .. } => "failed to add player".to_owned(),
            ConfigurationError::CheckDistance => "failed to start synctest session".to_owned(),
        }
    }
}

/// No participant registered.
pub open spec fn no_players() -> Map<usize, PlayerKind> {
    Map::empty()
}

/// A session under construction. Holds a `ggrs::SessionBuilder`.
#[verifier::external_body]
pub struct SessionBuilder {
    pub inner: ggrs::SessionBuilder<GgrsConfig>,
}

/// A running self-test session: a single process that rolls back and
/// resimulates every frame to find out whether the simulation is
/// deterministic. Holds a `ggrs::SyncTestSession`.
#[verifier::external_body]
pub struct SyncTestSession {
    pub inner: ggrs::SyncTestSession<GgrsConfig>,
}

/// `ggrs::GgrsError`, the error of every fallible call of the session layer.
/// Nothing is said of what is inside it.
#[verifier::external_type_specification]
#[verifier::external_body]
pub struct ExGgrsError(ggrs::GgrsError);

/// The participants registered with a builder: the kind of each handle that
/// has been added.
pub uninterp spec fn builder_players(builder: SessionBuilder) -> Map<usize, PlayerKind>;

/// The numbers that a builder will start its session with.
pub uninterp spec fn builder_settings(builder: SessionBuilder) -> SessionSettings;

/// The numbers that a self-test session was started with.
pub uninterp spec fn sync_test_settings(session: SyncTestSession) -> SyncTestSettings;

/// A local player can be added under a handle that is free and below the
/// number of players.
pub open spec fn can_add_player(builder: SessionBuilder, handle: usize) -> bool {
    !builder_players(builder).dom().contains(handle) && handle < builder_settings(
        builder,
    ).num_players
}

/// `ggrs::SessionBuilder::new`: a builder with the defaults of the crate
/// (two players, a prediction window of 8 frames, no input delay, 60 frames
/// per second, a check distance of 2) and no participant.
#[verifier::external_body]
fn builder_new() -> (builder: SessionBuilder)
    ensures
        builder_settings(builder) == SessionSettings::initial(),
        builder_players(builder) == no_players(),
{
    SessionBuilder { inner: ggrs::SessionBuilder::new() }
}

/// `ggrs::SessionBuilder::with_num_players`: sets the number of players and
/// nothing else.
#[verifier::external_body]
fn builder_with_num_players(builder: SessionBuilder, num_players: usize) -> (next: SessionBuilder)
    ensures
        builder_settings(next) == builder_settings(builder).with_num_players(num_players),
        builder_players(next) == builder_players(builder),
{
    SessionBuilder { inner: builder.inner.with_num_players(num_players) }
}

/// `ggrs::SessionBuilder::with_max_prediction_window`: refuses a window of 0
/// frames; otherwise sets the window and nothing else.
#[verifier::external_body]
fn builder_with_max_prediction_window(builder: SessionBuilder, window: usize) -> (next: Result<
    SessionBuilder,
    ggrs::GgrsError,
>)
    ensures
        next.is_ok() == (window != 0),
        next matches Ok(set) ==> builder_players(set) == builder_players(builder),
        next matches Ok(set) ==> builder_settings(set)
            == builder_settings(builder).with_max_prediction_window(window),
{
    match builder.inner.with_max_prediction_window(window) {
        Ok(inner) => Ok(SessionBuilder { inner }),
        Err(error) => Err(error),
    }
}

/// `ggrs::SessionBuilder::with_input_delay`: sets the input delay and nothing
/// else.
#[verifier::external_body]
fn builder_with_input_delay(builder: SessionBuilder, delay: usize) -> (next: SessionBuilder)
    ensures
        builder_settings(next) == builder_settings(builder).with_input_delay(delay),
        builder_players(next) == builder_players(builder),
{
    SessionBuilder { inner: builder.inner.with_input_delay(delay) }
}

/// `ggrs::SessionBuilder::with_fps`: refuses a rate of 0; otherwise sets the
/// rate and nothing else.
#[verifier::external_body]
fn builder_with_fps(builder: SessionBuilder, fps: usize) -> (next: Result<
    SessionBuilder,
    ggrs::GgrsError,
>)
    ensures
        next.is_ok() == (fps != 0),
        next matches Ok(set) ==> builder_players(set) == builder_players(builder),
        next matches Ok(set) ==> builder_settings(set) == builder_settings(builder).with_fps(fps),
{
    match builder.inner.with_fps(fps) {
        Ok(inner) => Ok(SessionBuilder { inner }),
        Err(error) => Err(error),
    }
}

/// `ggrs::SessionBuilder::add_player` with `ggrs::PlayerType::Local`: refuses
/// a handle that is registered already, and one that is not below the number
/// of players; otherwise registers the handle as a local player and changes
/// nothing else.
#[verifier::external_body]
fn builder_add_local_player(builder: SessionBuilder, handle: usize) -> (next: Result<
    SessionBuilder,
    ggrs::GgrsError,
>)
    ensures
        next.is_ok() == can_add_player(builder, handle),
        next matches Ok(set) ==> builder_settings(set) == builder_settings(builder),
        next matches Ok(set) ==> builder_players(set)
            == builder_players(builder).insert(handle, PlayerKind::Local),
{
    match builder.inner.add_player(ggrs::PlayerType::Local, handle) {
        Ok(inner) => Ok(SessionBuilder { inner }),
        Err(error) => Err(error),
    }
}

/// `ggrs::SessionBuilder::start_synctest_session`: refuses a builder whose
/// check distance is not below its prediction window; otherwise starts a
/// session with the builder's number of players, prediction window, check
/// distance and input delay. The session reserves room for two state cells
/// more than the prediction window has frames, which must not overflow.
#[verifier::external_body]
fn builder_start_synctest_session(builder: SessionBuilder) -> (started: Result<
    SyncTestSession,
    ggrs::GgrsError,
>)
    requires
        builder_settings(builder).max_prediction_window <= usize::MAX - 2,
    ensures
        started.is_ok() == builder_settings(builder).can_start_sync_test(),
        started matches Ok(session) ==> sync_test_settings(session)
            == builder_settings(builder).kept_by_sync_test(),
{
    match builder.inner.start_synctest_session() {
        Ok(inner) => Ok(SyncTestSession { inner }),
        Err(error) => Err(error),
    }
}

/// Asks the session layer for a builder with `parameters`. The layer refuses
/// a prediction window without frames and a rate of 0; any other parameters
/// give a builder that holds them, with nobody registered yet.
pub fn build_session(parameters: &SessionParameters) -> (built: Result<
    SessionBuilder,
    ConfigurationError,
>)
    ensures
        built is Ok <==> parameters.refusal() is None,
        built matches Err(error) ==> parameters.refusal() == Some(error),
        built matches Ok(builder) ==> builder_settings(builder) == parameters.settings()
            && builder_players(builder) == no_players(),
{
    let builder = builder_with_num_players(builder_new(), parameters.num_players);
    let builder = match builder_with_max_prediction_window(
        builder,
        parameters.max_prediction_window,
    ) {
        Ok(set) => set,
        Err(_) => {
            return Err(ConfigurationError::PredictionWindow);
        },
    };
    let builder = builder_with_input_delay(builder, parameters.input_delay);
    match builder_with_fps(builder, parameters.fps) {
        Ok(set) => Ok(set),
        Err(_) => Err(ConfigurationError::Rate),
    }
}

/// The builder of a session of this game for `players` players: a prediction
/// window of 12 frames, no input delay, 60 frames per second, nobody
/// registered yet. The session layer never refuses these parameters.
pub fn configure_session(players: usize) -> (builder: SessionBuilder)
    ensures
        builder_settings(builder) == SessionParameters::of_game(players).settings(),
        builder_players(builder) == no_players(),
{
    match build_session(&SessionParameters::for_players(players)) {
        Ok(builder) => builder,
        Err(_) => unreached(),
    }
}

/// Registers `handle` as a local player. The session layer refuses a handle
/// that is taken and one that is not below the number of players; otherwise
/// the handle is registered and nothing else changes.
pub fn add_local_player(builder: SessionBuilder, handle: usize) -> (added: Result<
    SessionBuilder,
    ConfigurationError,
>)
    ensures
        added is Ok <==> can_add_player(builder, handle),
        added is Err ==> added == Err::<SessionBuilder, ConfigurationError>(
            ConfigurationError::Player { handle },
        ),
        added matches Ok(next) ==> builder_settings(next) == builder_settings(builder)
            && builder_players(next) == builder_players(builder).insert(handle, PlayerKind::Local),
{
    match builder_add_local_player(builder, handle) {
        Ok(next) => Ok(next),
        Err(_) => Err(ConfigurationError::Player { handle }),
    }
}

/// Starts the self-test session of a builder. The session layer refuses a
/// builder whose check distance is not below its prediction window;
/// otherwise the session runs with the numbers of the builder.
pub fn start_sync_test(builder: SessionBuilder) -> (started: Result<
    SyncTestSession,
    ConfigurationError,
>)
    requires
        builder_settings(builder).max_prediction_window <= usize::MAX - 2,
    ensures
        started is Ok <==> builder_settings(builder).can_start_sync_test(),
        started is Err ==> started == Err::<SyncTestSession, ConfigurationError>(
            ConfigurationError::CheckDistance,
        ),
        started matches Ok(session) ==> sync_test_settings(session) == builder_settings(
            builder,
        ).kept_by_sync_test(),
{
    match builder_start_synctest_session(builder) {
        Ok(session) => Ok(session),
        Err(_) => Err(ConfigurationError::CheckDistance),
    }
}

/// The participants of a self-test: handle 0, local, and nobody else.
pub open spec fn one_local_player() -> Map<usize, PlayerKind> {
    no_players().insert(0, PlayerKind::Local)
}

/// The builder of the single-player self-test: configured for one player,
/// with that player registered as local under handle 0.
pub fn configure_sync_test() -> (builder: SessionBuilder)
    ensures
        builder_settings(builder) == SessionParameters::of_game(1).settings(),
        builder_players(builder) == one_local_player(),
{
    match add_local_player(configure_session(1), 0) {
        Ok(builder) => builder,
        Err(_) => unreached(),
    }
}

/// What startup decided.
pub enum Startup {
    /// A single player: the self-test session is running.
    SyncTest(SyncTestSession),
    /// Several players: the lobby finds the peers and builds the session.
    Lobby,
}

impl Startup {
    /// The state that the application enters next.
    pub open spec fn next_state(self) -> AppState {
        match self {
            Startup::SyncTest(_) => AppState::InGame,
            Startup::Lobby => AppState::Lobby,
        }
    }

    /// The mode that the match runs in.
    pub open spec fn mode(self) -> SessionMode {
        match self {
            Startup::SyncTest(_) => SessionMode::LocalDeterministicTest,
            Startup::Lobby => SessionMode::NetworkedMatch,
        }
    }

    pub fn state(&self) -> (state: AppState)
        ensures
            state == self.next_state(),
            AppState::Startup.allows(state),
    {
        match self {
            Startup::SyncTest(_) => AppState::InGame,
            Startup::Lobby => AppState::Lobby,
        }
    }

    pub fn session_mode(&self) -> (mode: SessionMode)
        ensures
            mode == self.mode(),
    {
        match self {
            Startup::SyncTest(_) => SessionMode::LocalDeterministicTest,
            Startup::Lobby => SessionMode::NetworkedMatch,
        }
    }
}

/// Leaves the startup state. With one player the self-test session is
/// started here, with that one player registered as local, and the game
/// begins at once, without a visit to the lobby; with any other number of
/// players the lobby comes next and no session is started yet.
pub fn setup(args: &Args) -> (decision: Startup)
    ensures
        args.players == 1 ==> (decision matches Startup::SyncTest(session) && sync_test_settings(
            session,
        ) == SessionParameters::of_game(1).settings().kept_by_sync_test()),
        args.players != 1 ==> decision is Lobby,
        decision.next_state() == if args.players == 1 {
            AppState::InGame
        } else {
            AppState::Lobby
        },
{
    if args.players == 1 {
        match start_sync_test(configure_sync_test()) {
            Ok(session) => Startup::SyncTest(session),
            Err(_) => unreached(),
        }
    } else {
        Startup::Lobby
    }
}

} // verus!
