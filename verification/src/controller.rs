//! The playback controller: a single-threaded state machine that serializes
//! user commands, player events, and the results of its own background
//! lookups into one coherent playback state.
//!
//! The event loop, channels and spawned tasks live outside this crate. They
//! feed every input through [`ControllerCore::step`], whose contract pins the
//! next state and the effects to perform — publish a snapshot, send a player
//! command, start a lookup, persist the configuration — to the spec-level
//! transition [`spec_step`].

use vstd::prelude::*;
use crate::config::{AppConfig, ConfigData, spec_toggle_favorite, favs_wf, lemma_toggle_preserves_wf};
use crate::error::{DirectoryError, DirectoryErrorData, spec_message};
use crate::models::{Station, StationData, StationRef, StationRefData, refs_view, stations_view};
use crate::mpv::{MpvCommand, MpvCommandData, MpvEvent, MpvEventData};
use crate::text::{spec_trim, str_eq, trim_str};

verus! {

/// What playback is doing right now; exactly one value at any time, owned by
/// the controller alone.
#[derive(Debug, Clone, Copy, PartialEq, Eq, Structural)]
pub enum PlaybackPhase {
    NotConfigured,
    Idle,
    Playing,
    Paused,
    Error,
}

/// The observable state, published wholesale on every change; consumers never
/// see a partial mutation.
#[derive(Debug, Clone)]
pub struct ControllerState {
    pub phase: PlaybackPhase,
    pub station: Option<StationRef>,
    pub media_title: Option<String>,
    pub error: Option<String>,
    pub search_query: String,
    pub search_loading: bool,
    pub search_results: Vec<Station>,
    pub favorites: Vec<StationRef>,
}

/// Mathematical image of a [`ControllerState`].
#[verifier::ext_equal]
pub ghost struct StateData {
    pub phase: PlaybackPhase,
    pub station: Option<StationRefData>,
    pub media_title: Option<Seq<char>>,
    pub error: Option<Seq<char>>,
    pub search_query: Seq<char>,
    pub search_loading: bool,
    pub search_results: Seq<StationData>,
    pub favorites: Seq<StationRefData>,
}

impl View for ControllerState {
    type V = StateData;

    open spec fn view(&self) -> StateData {
        StateData {
            phase: self.phase,
            station: match self.station {
                Some(s) => Some(s@),
                None => None,
            },
            media_title: match self.media_title {
                Some(t) => Some(t@),
                None => None,
            },
            error: match self.error {
                Some(e) => Some(e@),
                None => None,
            },
            search_query: self.search_query@,
            search_loading: self.search_loading,
            search_results: stations_view(self.search_results@),
            favorites: refs_view(self.favorites@),
        }
    }
}

/// The text shown on the panel: the station name when one is set and its
/// trimmed name is non-empty, else the trimmed media title when non-empty,
/// else a fixed fallback.
pub open spec fn spec_label_text(st: StateData) -> Seq<char> {
    if st.station is Some && spec_trim(st.station->0.name).len() > 0 {
        spec_trim(st.station->0.name)
    } else if st.media_title is Some && spec_trim(st.media_title->0).len() > 0 {
        spec_trim(st.media_title->0)
    } else {
        "radio"@
    }
}

impl ControllerState {
    /// The text shown on the panel for this state.
    pub fn label_text(&self) -> (r: String)
        ensures
            r@ == spec_label_text(self@),
    {
        if let Some(st) = &self.station {
            let t = trim_str(st.name.as_str());
            if !t.as_str().is_empty() {
                return t;
            }
        }
        if let Some(mt) = &self.media_title {
            let t = trim_str(mt.as_str());
            if !t.as_str().is_empty() {
                return t;
            }
        }
        "radio".to_owned()
    }
}

/// A command from the user interface.
#[derive(Debug, Clone, PartialEq, Eq)]
pub enum UiCommand {
    Search(String),
    Play(StationRef),
    TogglePause,
    Stop,
    ToggleFavorite(StationRef),
    Shutdown,
}

/// Mathematical image of a [`UiCommand`].
pub ghost enum UiCommandData {
    Search(Seq<char>),
    Play(StationRefData),
    TogglePause,
    Stop,
    ToggleFavorite(StationRefData),
    Shutdown,
}

impl View for UiCommand {
    type V = UiCommandData;

    open spec fn view(&self) -> UiCommandData {
        match self {
            UiCommand::Search(q) => UiCommandData::Search(q@),
            UiCommand::Play(s) => UiCommandData::Play(s@),
            UiCommand::TogglePause => UiCommandData::TogglePause,
            UiCommand::Stop => UiCommandData::Stop,
            UiCommand::ToggleFavorite(s) => UiCommandData::ToggleFavorite(s@),
            UiCommand::Shutdown => UiCommandData::Shutdown,
        }
    }
}

/// One input to the controller: a user command, a player event, the closing
/// of the player's event channel, or the completion of a background lookup.
pub enum ControllerInput {
    Ui(UiCommand),
    Player(MpvEvent),
    /// The supervisor's event channel closed: the player side is gone.
    PlayerGone,
    /// A background search finished; `query` is the query it was started for.
    SearchDone { query: String, result: Result<Vec<Station>, DirectoryError> },
    /// A background URL resolution finished; `station` is the station it was
    /// started for, and `last_server` the directory client's preferred mirror
    /// at completion time.
    ResolveDone {
        station: StationRef,
        result: Result<String, DirectoryError>,
        last_server: Option<String>,
    },
}

/// Mathematical image of a [`ControllerInput`].
pub ghost enum InputData {
    Ui(UiCommandData),
    Player(MpvEventData),
    PlayerGone,
    SearchDone { query: Seq<char>, result: Result<Seq<StationData>, DirectoryErrorData> },
    ResolveDone {
        station: StationRefData,
        result: Result<Seq<char>, DirectoryErrorData>,
        last_server: Option<Seq<char>>,
    },
}

impl View for ControllerInput {
    type V = InputData;

    open spec fn view(&self) -> InputData {
        match self {
            ControllerInput::Ui(c) => InputData::Ui(c@),
            ControllerInput::Player(e) => InputData::Player(e@),
            ControllerInput::PlayerGone => InputData::PlayerGone,
            ControllerInput::SearchDone { query, result } => InputData::SearchDone {
                query: query@,
                result: match result {
                    Ok(v) => Ok(stations_view(v@)),
                    Err(e) => Err(e@),
                },
            },
            ControllerInput::ResolveDone { station, result, last_server } => {
                InputData::ResolveDone {
                    station: station@,
                    result: match result {
                        Ok(u) => Ok(u@),
                        Err(e) => Err(e@),
                    },
                    last_server: match last_server {
                        Some(s) => Some(s@),
                        None => None,
                    },
                }
            },
        }
    }
}

/// One thing the event loop must do after a step.
#[derive(Debug, Clone, PartialEq, Eq)]
pub enum ControllerEffect {
    /// Publish the current state snapshot to the UI.
    Publish,
    /// Send a command to the player supervisor.
    Player(MpvCommand),
    /// Start a background directory search for this query.
    StartSearch { query: String, limit: u32 },
    /// Start a background URL resolution for this station.
    StartResolve { station: StationRef },
    /// Persist this configuration snapshot (fire and forget).
    Persist(AppConfig),
    /// Pause input processing briefly (crash-loop damping).
    SleepMs(u64),
    /// End the controller loop.
    Quit,
}

/// Mathematical image of a [`ControllerEffect`].
pub ghost enum EffectData {
    Publish,
    Player(MpvCommandData),
    StartSearch { query: Seq<char>, limit: u32 },
    StartResolve(StationRefData),
    Persist(ConfigData),
    SleepMs(u64),
    Quit,
}

impl View for ControllerEffect {
    type V = EffectData;

    open spec fn view(&self) -> EffectData {
        match self {
            ControllerEffect::Publish => EffectData::Publish,
            ControllerEffect::Player(c) => EffectData::Player(c@),
            ControllerEffect::StartSearch { query, limit } => EffectData::StartSearch {
                query: query@,
                limit: *limit,
            },
            ControllerEffect::StartResolve { station } => EffectData::StartResolve(station@),
            ControllerEffect::Persist(cfg) => EffectData::Persist(cfg@),
            ControllerEffect::SleepMs(ms) => EffectData::SleepMs(*ms),
            ControllerEffect::Quit => EffectData::Quit,
        }
    }
}

/// The images of an effect list.
pub open spec fn effects_view(s: Seq<ControllerEffect>) -> Seq<EffectData> {
    s.map_values(|e: ControllerEffect| e@)
}

/// How many results a search asks the directory for.
pub const SEARCH_LIMIT: u32 = 25;

/// How long input processing pauses after a player crash, in ms.
pub const CRASH_DAMP_MS: u64 = 250;

/// The controller's whole private state: the published snapshot, the
/// persisted configuration, and the desired playback (stream URL and pause
/// flag) replayed to a restarted player.
pub struct ControllerCore {
    pub state: ControllerState,
    pub config: AppConfig,
    pub current_url: Option<String>,
    pub want_paused: bool,
}

/// Mathematical image of a [`ControllerCore`].
#[verifier::ext_equal]
pub ghost struct CoreData {
    pub state: StateData,
    pub config: ConfigData,
    pub current_url: Option<Seq<char>>,
    pub want_paused: bool,
}

impl View for ControllerCore {
    type V = CoreData;

    open spec fn view(&self) -> CoreData {
        CoreData {
            state: self.state@,
            config: self.config@,
            current_url: match self.current_url {
                Some(u) => Some(u@),
                None => None,
            },
            want_paused: self.want_paused,
        }
    }
}

// ---------------------------------------------------------------------------
// The transition relation, at the spec level.
// ---------------------------------------------------------------------------

/// The step for a user command.
pub open spec fn spec_step_ui(c: CoreData, u: UiCommandData) -> (CoreData, Seq<EffectData>) {
    match u {
        UiCommandData::Search(q) => (
            CoreData {
                state: StateData { search_query: q, search_loading: true, error: None, ..c.state },
                ..c
            },
            seq![EffectData::Publish, EffectData::StartSearch { query: q, limit: 25u32 }],
        ),
        UiCommandData::Play(st) => (
            CoreData {
                state: StateData {
                    error: None,
                    media_title: None,
                    station: Some(st),
                    phase: PlaybackPhase::Idle,
                    ..c.state
                },
                want_paused: false,
                ..c
            },
            seq![EffectData::Publish, EffectData::StartResolve(st)],
        ),
        UiCommandData::TogglePause => (
            CoreData { state: StateData { error: None, ..c.state }, ..c },
            seq![EffectData::Player(MpvCommandData::TogglePause)],
        ),
        UiCommandData::Stop => {
            let cfg = ConfigData { last_station: None, ..c.config };
            (
                CoreData {
                    state: StateData {
                        error: None,
                        station: None,
                        media_title: None,
                        phase: PlaybackPhase::NotConfigured,
                        ..c.state
                    },
                    config: cfg,
                    current_url: None,
                    want_paused: false,
                },
                seq![
                    EffectData::Player(MpvCommandData::Stop),
                    EffectData::Publish,
                    EffectData::Persist(cfg),
                ],
            )
        },
        UiCommandData::ToggleFavorite(st) => {
            let favs = spec_toggle_favorite(c.config.favorites, st);
            let cfg = ConfigData { favorites: favs, ..c.config };
            (
                CoreData { state: StateData { favorites: favs, ..c.state }, config: cfg, ..c },
                seq![EffectData::Publish, EffectData::Persist(cfg)],
            )
        },
        UiCommandData::Shutdown => (
            c,
            seq![EffectData::Player(MpvCommandData::Shutdown), EffectData::Quit],
        ),
    }
}

/// The step for a player event.
pub open spec fn spec_step_player(c: CoreData, e: MpvEventData) -> (CoreData, Seq<EffectData>) {
    match e {
        MpvEventData::Ready => match c.current_url {
            Some(u) => (
                CoreData {
                    state: StateData {
                        phase: if c.want_paused {
                            PlaybackPhase::Paused
                        } else {
                            PlaybackPhase::Playing
                        },
                        error: None,
                        ..c.state
                    },
                    ..c
                },
                seq![
                    EffectData::Player(MpvCommandData::LoadUrl(u)),
                    EffectData::Player(MpvCommandData::SetPause(c.want_paused)),
                    EffectData::Publish,
                ],
            ),
            None => (c, Seq::empty()),
        },
        MpvEventData::MediaTitle(t) => (
            CoreData { state: StateData { media_title: t, ..c.state }, ..c },
            seq![EffectData::Publish],
        ),
        MpvEventData::Pause(p) => (
            CoreData {
                state: StateData {
                    phase: if p {
                        PlaybackPhase::Paused
                    } else {
                        PlaybackPhase::Playing
                    },
                    ..c.state
                },
                want_paused: p,
                ..c
            },
            seq![EffectData::Publish],
        ),
        MpvEventData::Crashed(m) => (
            CoreData {
                state: StateData {
                    phase: PlaybackPhase::Error,
                    error: Some("mpv error: "@ + m),
                    ..c.state
                },
                ..c
            },
            seq![EffectData::Publish, EffectData::SleepMs(250)],
        ),
    }
}

/// The step for a finished search: a result for a superseded query is
/// discarded without any change.
pub open spec fn spec_step_search_done(
    c: CoreData,
    q: Seq<char>,
    result: Result<Seq<StationData>, DirectoryErrorData>,
) -> (CoreData, Seq<EffectData>) {
    if q != c.state.search_query {
        (c, Seq::empty())
    } else {
        match result {
            Ok(results) => (
                CoreData {
                    state: StateData {
                        search_results: results,
                        search_loading: false,
                        error: None,
                        ..c.state
                    },
                    ..c
                },
                seq![EffectData::Publish],
            ),
            Err(e) => (
                CoreData {
                    state: StateData {
                        search_loading: false,
                        error: Some(spec_message(e)),
                        ..c.state
                    },
                    ..c
                },
                seq![EffectData::Publish],
            ),
        }
    }
}

/// Whether a finished resolution still belongs to the current station.
pub open spec fn spec_resolve_current(c: CoreData, st: StationRefData) -> bool {
    c.state.station matches Some(cur) && cur.stationuuid == st.stationuuid
}

/// The step for a finished URL resolution: a result for a station other than
/// the current one is discarded without any change.
pub open spec fn spec_step_resolve_done(
    c: CoreData,
    st: StationRefData,
    result: Result<Seq<char>, DirectoryErrorData>,
    last_server: Option<Seq<char>>,
) -> (CoreData, Seq<EffectData>) {
    if !spec_resolve_current(c, st) {
        (c, Seq::empty())
    } else {
        match result {
            Ok(u) => {
                let cfg = ConfigData {
                    last_station: Some(st),
                    last_server: if last_server is Some {
                        last_server
                    } else {
                        c.config.last_server
                    },
                    favorites: c.config.favorites,
                };
                (
                    CoreData {
                        state: StateData {
                            phase: PlaybackPhase::Playing,
                            error: None,
                            ..c.state
                        },
                        config: cfg,
                        current_url: Some(u),
                        want_paused: c.want_paused,
                    },
                    seq![
                        EffectData::Player(MpvCommandData::LoadUrl(u)),
                        EffectData::Publish,
                        EffectData::Persist(cfg),
                    ],
                )
            },
            Err(e) => (
                CoreData {
                    state: StateData {
                        phase: PlaybackPhase::Error,
                        error: Some(spec_message(e)),
                        ..c.state
                    },
                    ..c
                },
                seq![EffectData::Publish],
            ),
        }
    }
}

/// The controller's whole transition relation: next state and effects for
/// every input.
pub open spec fn spec_step(c: CoreData, i: InputData) -> (CoreData, Seq<EffectData>) {
    match i {
        InputData::Ui(u) => spec_step_ui(c, u),
        InputData::Player(e) => spec_step_player(c, e),
        InputData::PlayerGone => (
            CoreData {
                state: StateData {
                    phase: PlaybackPhase::Error,
                    error: Some("mpv controller stopped"@),
                    ..c.state
                },
                ..c
            },
            seq![EffectData::Publish, EffectData::Quit],
        ),
        InputData::SearchDone { query, result } => spec_step_search_done(c, query, result),
        InputData::ResolveDone { station, result, last_server } => spec_step_resolve_done(
            c,
            station,
            result,
            last_server,
        ),
    }
}

/// The initial state built from the loaded configuration: favorites and last
/// station restored, phase `Idle` when a station is restored.
pub open spec fn spec_init(cfg: ConfigData) -> (CoreData, Seq<EffectData>) {
    (
        CoreData {
            state: StateData {
                phase: if cfg.last_station is Some {
                    PlaybackPhase::Idle
                } else {
                    PlaybackPhase::NotConfigured
                },
                station: cfg.last_station,
                media_title: None,
                error: None,
                search_query: Seq::empty(),
                search_loading: false,
                search_results: Seq::empty(),
                favorites: cfg.favorites,
            },
            config: cfg,
            current_url: None,
            want_paused: false,
        },
        seq![EffectData::Publish],
    )
}

// ---------------------------------------------------------------------------
// The executable controller.
// ---------------------------------------------------------------------------

/// Build the controller from the loaded configuration.
pub fn controller_init(config: AppConfig) -> (r: (ControllerCore, Vec<ControllerEffect>))
    ensures
        r.0@ == spec_init(config@).0,
        effects_view(r.1@) == spec_init(config@).1,
{
    let station = match &config.last_station {
        Some(s) => Some(s.duplicate()),
        None => None,
    };
    let phase = if station.is_some() {
        PlaybackPhase::Idle
    } else {
        PlaybackPhase::NotConfigured
    };
    let favorites = crate::models::duplicate_refs(&config.favorites);
    let core = ControllerCore {
        state: ControllerState {
            phase,
            station,
            media_title: None,
            error: None,
            search_query: String::new(),
            search_loading: false,
            search_results: Vec::new(),
            favorites,
        },
        config,
        current_url: None,
        want_paused: false,
    };
    let mut effects: Vec<ControllerEffect> = Vec::new();
    effects.push(ControllerEffect::Publish);
    proof {
        assert(stations_view(Seq::<Station>::empty()) =~= Seq::<StationData>::empty());
        assert(core@ =~= spec_init(config@).0);
        assert(effects_view(effects@) =~= spec_init(config@).1);
    }
    (core, effects)
}

impl ControllerCore {
    /// Process one input: mutate the state exactly as [`spec_step`] says and
    /// return the effects it prescribes, in order.
    pub fn step(&mut self, input: ControllerInput) -> (effects: Vec<ControllerEffect>)
        ensures
            final(self)@ == spec_step(old(self)@, input@).0,
            effects_view(effects@) == spec_step(old(self)@, input@).1,
    {
        let ghost c0 = old(self)@;
        let ghost iv = input@;
        let mut effects: Vec<ControllerEffect> = Vec::new();
        match input {
            ControllerInput::Ui(cmd) => match cmd {
                UiCommand::Search(q) => {
                    let query = q.clone();
                    self.state.search_query = q;
                    self.state.search_loading = true;
                    self.state.error = None;
                    effects.push(ControllerEffect::Publish);
                    effects.push(ControllerEffect::StartSearch { query, limit: SEARCH_LIMIT });
                    proof {
                        assert(self@ =~= spec_step(c0, iv).0);
                        assert(effects_view(effects@) =~= spec_step(c0, iv).1);
                    }
                },
                UiCommand::Play(station) => {
                    self.state.error = None;
                    self.state.media_title = None;
                    self.state.station = Some(station.duplicate());
                    self.state.phase = PlaybackPhase::Idle;
                    self.want_paused = false;
                    effects.push(ControllerEffect::Publish);
                    effects.push(ControllerEffect::StartResolve { station });
                    proof {
                        assert(self@ =~= spec_step(c0, iv).0);
                        assert(effects_view(effects@) =~= spec_step(c0, iv).1);
                    }
                },
                UiCommand::TogglePause => {
                    self.state.error = None;
                    effects.push(ControllerEffect::Player(MpvCommand::TogglePause));
                    proof {
                        assert(self@ =~= spec_step(c0, iv).0);
                        assert(effects_view(effects@) =~= spec_step(c0, iv).1);
                    }
                },
                UiCommand::Stop => {
                    self.state.error = None;
                    self.current_url = None;
                    self.want_paused = false;
                    self.state.station = None;
                    self.state.media_title = None;
                    self.state.phase = PlaybackPhase::NotConfigured;
                    self.config.last_station = None;
                    effects.push(ControllerEffect::Player(MpvCommand::Stop));
                    effects.push(ControllerEffect::Publish);
                    effects.push(ControllerEffect::Persist(self.config.snapshot()));
                    proof {
                        assert(self@ =~= spec_step(c0, iv).0);
                        assert(effects_view(effects@) =~= spec_step(c0, iv).1);
                    }
                },
                UiCommand::ToggleFavorite(station) => {
                    self.config.toggle_favorite(station);
                    self.state.favorites = crate::models::duplicate_refs(&self.config.favorites);
                    effects.push(ControllerEffect::Publish);
                    effects.push(ControllerEffect::Persist(self.config.snapshot()));
                    proof {
                        assert(self@ =~= spec_step(c0, iv).0);
                        assert(effects_view(effects@) =~= spec_step(c0, iv).1);
                    }
                },
                UiCommand::Shutdown => {
                    effects.push(ControllerEffect::Player(MpvCommand::Shutdown));
                    effects.push(ControllerEffect::Quit);
                    proof {
                        assert(self@ =~= spec_step(c0, iv).0);
                        assert(effects_view(effects@) =~= spec_step(c0, iv).1);
                    }
                },
            },
            ControllerInput::Player(ev) => match ev {
                MpvEvent::Ready => {
                    let url = match &self.current_url {
                        Some(u) => Some(u.clone()),
                        None => None,
                    };
                    if let Some(u) = url {
                        effects.push(ControllerEffect::Player(MpvCommand::LoadUrl { url: u }));
                        effects.push(
                            ControllerEffect::Player(MpvCommand::SetPause(self.want_paused)),
                        );
                        effects.push(ControllerEffect::Publish);
                        self.state.phase = if self.want_paused {
                            PlaybackPhase::Paused
                        } else {
                            PlaybackPhase::Playing
                        };
                        self.state.error = None;
                    }
                    proof {
                        assert(self@ =~= spec_step(c0, iv).0);
                        assert(effects_view(effects@) =~= spec_step(c0, iv).1);
                    }
                },
                MpvEvent::MediaTitle(t) => {
                    self.state.media_title = t;
                    effects.push(ControllerEffect::Publish);
                    proof {
                        assert(self@ =~= spec_step(c0, iv).0);
                        assert(effects_view(effects@) =~= spec_step(c0, iv).1);
                    }
                },
                MpvEvent::Pause(p) => {
                    self.want_paused = p;
                    self.state.phase = if p {
                        PlaybackPhase::Paused
                    } else {
                        PlaybackPhase::Playing
                    };
                    effects.push(ControllerEffect::Publish);
                    proof {
                        assert(self@ =~= spec_step(c0, iv).0);
                        assert(effects_view(effects@) =~= spec_step(c0, iv).1);
                    }
                },
                MpvEvent::Crashed(m) => {
                    self.state.phase = PlaybackPhase::Error;
                    let mut msg = "mpv error: ".to_owned();
                    msg.append(m.as_str());
                    self.state.error = Some(msg);
                    effects.push(ControllerEffect::Publish);
                    effects.push(ControllerEffect::SleepMs(CRASH_DAMP_MS));
                    proof {
                        assert(self@ =~= spec_step(c0, iv).0);
                        assert(effects_view(effects@) =~= spec_step(c0, iv).1);
                    }
                },
            },
            ControllerInput::PlayerGone => {
                self.state.phase = PlaybackPhase::Error;
                self.state.error = Some("mpv controller stopped".to_owned());
                effects.push(ControllerEffect::Publish);
                effects.push(ControllerEffect::Quit);
                proof {
                    assert(self@ =~= spec_step(c0, iv).0);
                    assert(effects_view(effects@) =~= spec_step(c0, iv).1);
                }
            },
            ControllerInput::SearchDone { query, result } => {
                let stale = !str_eq(query.as_str(), self.state.search_query.as_str());
                if stale {
                    proof {
                        assert(self@ =~= spec_step(c0, iv).0);
                        assert(effects_view(effects@) =~= spec_step(c0, iv).1);
                    }
                } else {
                    match result {
                        Ok(results) => {
                            self.state.search_results = results;
                            self.state.search_loading = false;
                            self.state.error = None;
                        },
                        Err(e) => {
                            self.state.search_loading = false;
                            self.state.error = Some(e.message());
                        },
                    }
                    effects.push(ControllerEffect::Publish);
                    proof {
                        assert(self@ =~= spec_step(c0, iv).0);
                        assert(effects_view(effects@) =~= spec_step(c0, iv).1);
                    }
                }
            },
            ControllerInput::ResolveDone { station, result, last_server } => {
                let current = match &self.state.station {
                    Some(cur) => str_eq(
                        cur.stationuuid.as_str(),
                        station.stationuuid.as_str(),
                    ),
                    None => false,
                };
                if !current {
                    proof {
                        assert(self@ =~= spec_step(c0, iv).0);
                        assert(effects_view(effects@) =~= spec_step(c0, iv).1);
                    }
                } else {
                    match result {
                        Ok(url) => {
                            effects.push(
                                ControllerEffect::Player(MpvCommand::LoadUrl { url: url.clone() }),
                            );
                            self.current_url = Some(url);
                            self.state.phase = PlaybackPhase::Playing;
                            self.state.error = None;
                            self.config.last_station = Some(station);
                            if let Some(s) = last_server {
                                self.config.last_server = Some(s);
                            }
                            effects.push(ControllerEffect::Publish);
                            effects.push(ControllerEffect::Persist(self.config.snapshot()));
                        },
                        Err(e) => {
                            self.state.phase = PlaybackPhase::Error;
                            self.state.error = Some(e.message());
                            effects.push(ControllerEffect::Publish);
                        },
                    }
                    proof {
                        assert(self@ =~= spec_step(c0, iv).0);
                        assert(effects_view(effects@) =~= spec_step(c0, iv).1);
                    }
                }
            },
        }
        effects
    }
}

// ---------------------------------------------------------------------------
// Laws.
// ---------------------------------------------------------------------------

/// Law: a search result arriving for a query that no longer equals the live
/// search query changes nothing — the state, `searchResults` included, stays
/// as it was, and no effect is produced.
pub proof fn lemma_stale_search_ignored(
    c: CoreData,
    q: Seq<char>,
    result: Result<Seq<StationData>, DirectoryErrorData>,
)
    requires
        q != c.state.search_query,
    ensures
        spec_step(c, InputData::SearchDone { query: q, result }).0 == c,
        spec_step(c, InputData::SearchDone { query: q, result }).1 == Seq::<EffectData>::empty(),
{
}

/// Law: a resolved URL arriving for a station other than the current one
/// changes nothing.
pub proof fn lemma_stale_resolve_ignored(
    c: CoreData,
    st: StationRefData,
    result: Result<Seq<char>, DirectoryErrorData>,
    last_server: Option<Seq<char>>,
)
    requires
        !spec_resolve_current(c, st),
    ensures
        spec_step(c, InputData::ResolveDone { station: st, result, last_server }).0 == c,
        spec_step(c, InputData::ResolveDone { station: st, result, last_server }).1
            == Seq::<EffectData>::empty(),
{
}

/// Law: `Stop` clears the station, the media title, the desired stream URL
/// and the persisted last station — whatever the prior phase — and asks for
/// the new configuration to be persisted.
pub proof fn lemma_stop_clears(c: CoreData)
    ensures
        ({
            let (c2, effs) = spec_step(c, InputData::Ui(UiCommandData::Stop));
            &&& c2.state.station is None
            &&& c2.state.media_title is None
            &&& c2.state.phase == PlaybackPhase::NotConfigured
            &&& c2.config.last_station is None
            &&& c2.current_url is None
            &&& effs.len() == 3
            &&& effs[2] == EffectData::Persist(c2.config)
        }),
{
}

/// Law (crash recovery, controller side): when the player reports `Ready`
/// while a stream URL is desired, the controller replays it — it reloads the
/// URL and re-applies the desired pause state, with no user involvement.
/// Together with the supervisor's crash directives (report `Crashed`,
/// reconnect at once, report `Ready`), a crash heals itself.
pub proof fn lemma_ready_replays_desired_url(c: CoreData, u: Seq<char>)
    requires
        c.current_url == Some(u),
    ensures
        ({
            let (c2, effs) = spec_step(c, InputData::Player(MpvEventData::Ready));
            &&& effs.len() == 3
            &&& effs[0] == EffectData::Player(MpvCommandData::LoadUrl(u))
            &&& effs[1] == EffectData::Player(MpvCommandData::SetPause(c.want_paused))
            &&& c2.current_url == Some(u)
            &&& c2.state.phase == if c.want_paused {
                PlaybackPhase::Paused
            } else {
                PlaybackPhase::Playing
            }
        }),
{
}

/// The controller's data invariant: favorites carry no duplicate ids, the
/// published favorites mirror the persisted ones, and a station is only set
/// while the phase says something is configured.
pub open spec fn core_wf(c: CoreData) -> bool {
    &&& favs_wf(c.state.favorites)
    &&& c.state.favorites == c.config.favorites
    &&& (c.state.station is Some ==> !(c.state.phase is NotConfigured))
}

/// Law: the initial state satisfies the invariant whenever the loaded
/// favorites carry no duplicate ids.
pub proof fn lemma_init_wf(cfg: ConfigData)
    requires
        favs_wf(cfg.favorites),
    ensures
        core_wf(spec_init(cfg).0),
{
}

/// Law: every step preserves the controller's data invariant.
pub proof fn lemma_step_preserves_wf(c: CoreData, i: InputData)
    requires
        core_wf(c),
    ensures
        core_wf(spec_step(c, i).0),
{
    match i {
        InputData::Ui(u) => match u {
            UiCommandData::ToggleFavorite(st) => {
                lemma_toggle_preserves_wf(c.config.favorites, st);
            },
            _ => {},
        },
        _ => {},
    }
}

} // verus!
