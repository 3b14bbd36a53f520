use radio_widget::config::AppConfig;
use radio_widget::controller::{
    controller_init, ControllerCore, ControllerEffect, ControllerInput, ControllerState,
    PlaybackPhase, UiCommand,
};
use radio_widget::error::DirectoryError;
use radio_widget::models::{Station, StationRef};
use radio_widget::mpv::{MpvCommand, MpvEvent, Supervisor, SupervisorDirective};

fn station_ref(id: &str, name: &str) -> StationRef {
    StationRef { stationuuid: id.to_owned(), name: name.to_owned() }
}

fn station(id: &str, name: &str) -> Station {
    Station {
        stationuuid: id.to_owned(),
        name: name.to_owned(),
        country: None,
        codec: None,
        bitrate: None,
        votes: None,
    }
}

fn fresh_core() -> ControllerCore {
    controller_init(AppConfig::default()).0
}

#[test]
fn init_restores_last_station_and_favorites() {
    let cfg = AppConfig {
        last_station: Some(station_ref("u1", "One")),
        last_server: Some("de1.api".to_owned()),
        favorites: vec![station_ref("u2", "Two")],
    };
    let (core, effects) = controller_init(cfg);
    assert_eq!(core.state.phase, PlaybackPhase::Idle);
    assert_eq!(core.state.station, Some(station_ref("u1", "One")));
    assert_eq!(core.state.favorites, vec![station_ref("u2", "Two")]);
    assert_eq!(effects, vec![ControllerEffect::Publish]);

    let (core2, _) = controller_init(AppConfig::default());
    assert_eq!(core2.state.phase, PlaybackPhase::NotConfigured);
    assert!(core2.state.station.is_none());
}

#[test]
fn search_sets_query_and_starts_lookup() {
    let mut core = fresh_core();
    let effects = core.step(ControllerInput::Ui(UiCommand::Search("jazz".to_owned())));
    assert_eq!(core.state.search_query, "jazz");
    assert!(core.state.search_loading);
    assert!(core.state.error.is_none());
    assert_eq!(
        effects,
        vec![
            ControllerEffect::Publish,
            ControllerEffect::StartSearch { query: "jazz".to_owned(), limit: 25 },
        ]
    );
}

#[test]
fn stale_search_results_are_discarded() {
    let mut core = fresh_core();
    core.step(ControllerInput::Ui(UiCommand::Search("first".to_owned())));
    core.step(ControllerInput::SearchDone {
        query: "first".to_owned(),
        result: Ok(vec![station("u1", "First FM")]),
    });
    core.step(ControllerInput::Ui(UiCommand::Search("second".to_owned())));

    // A late result for the superseded query arrives: nothing may change.
    let before_results = core.state.search_results.clone();
    let before_query = core.state.search_query.clone();
    let before_loading = core.state.search_loading;
    let effects = core.step(ControllerInput::SearchDone {
        query: "first".to_owned(),
        result: Ok(vec![station("u9", "Stale FM")]),
    });
    assert!(effects.is_empty(), "a stale result must produce no effect");
    assert_eq!(core.state.search_results, before_results);
    assert_eq!(core.state.search_query, before_query);
    assert_eq!(core.state.search_loading, before_loading);
}

#[test]
fn search_failure_sets_the_error() {
    let mut core = fresh_core();
    core.step(ControllerInput::Ui(UiCommand::Search("q".to_owned())));
    core.step(ControllerInput::SearchDone {
        query: "q".to_owned(),
        result: Err(DirectoryError::EmptyMirrorList),
    });
    assert!(!core.state.search_loading);
    assert_eq!(
        core.state.error.as_deref(),
        Some("radio directory server list was empty")
    );
}

#[test]
fn play_resolves_then_loads_and_persists() {
    let mut core = fresh_core();
    let st = station_ref("u1", "One FM");
    let effects = core.step(ControllerInput::Ui(UiCommand::Play(st.clone())));
    assert_eq!(core.state.phase, PlaybackPhase::Idle);
    assert_eq!(core.state.station, Some(st.clone()));
    assert_eq!(
        effects,
        vec![ControllerEffect::Publish, ControllerEffect::StartResolve { station: st.clone() }]
    );

    let effects = core.step(ControllerInput::ResolveDone {
        station: st.clone(),
        result: Ok("http://s.example/live".to_owned()),
        last_server: Some("de1.api".to_owned()),
    });
    assert_eq!(core.state.phase, PlaybackPhase::Playing);
    assert_eq!(core.current_url.as_deref(), Some("http://s.example/live"));
    assert_eq!(core.config.last_station, Some(st));
    assert_eq!(core.config.last_server.as_deref(), Some("de1.api"));
    assert_eq!(effects.len(), 3);
    assert_eq!(
        effects[0],
        ControllerEffect::Player(MpvCommand::LoadUrl { url: "http://s.example/live".to_owned() })
    );
    assert_eq!(effects[1], ControllerEffect::Publish);
    match &effects[2] {
        ControllerEffect::Persist(cfg) => assert!(cfg.last_station.is_some()),
        other => panic!("expected Persist, got {:?}", other),
    }
}

#[test]
fn stale_resolution_is_discarded() {
    let mut core = fresh_core();
    let first = station_ref("u1", "One");
    let second = station_ref("u2", "Two");
    core.step(ControllerInput::Ui(UiCommand::Play(first.clone())));
    core.step(ControllerInput::Ui(UiCommand::Play(second.clone())));
    // The first station's URL arrives after the user switched away.
    let effects = core.step(ControllerInput::ResolveDone {
        station: first,
        result: Ok("http://stale.example/".to_owned()),
        last_server: None,
    });
    assert!(effects.is_empty());
    assert_eq!(core.state.station, Some(second));
    assert!(core.current_url.is_none());
}

#[test]
fn resolution_failure_reports_an_error_phase() {
    let mut core = fresh_core();
    let st = station_ref("u1", "One");
    core.step(ControllerInput::Ui(UiCommand::Play(st.clone())));
    core.step(ControllerInput::ResolveDone {
        station: st,
        result: Err(DirectoryError::Network("timed out".to_owned())),
        last_server: None,
    });
    assert_eq!(core.state.phase, PlaybackPhase::Error);
    assert_eq!(core.state.error.as_deref(), Some("network error: timed out"));
}

#[test]
fn stop_clears_station_title_and_persisted_last_station() {
    // P-style check across different prior phases.
    for prime_pause in [false, true] {
        let mut core = controller_init(AppConfig {
            last_station: Some(station_ref("u0", "Old")),
            last_server: None,
            favorites: vec![],
        })
        .0;
        let st = station_ref("u1", "One");
        core.step(ControllerInput::Ui(UiCommand::Play(st.clone())));
        core.step(ControllerInput::ResolveDone {
            station: st,
            result: Ok("http://s.example/live".to_owned()),
            last_server: None,
        });
        core.step(ControllerInput::Player(MpvEvent::MediaTitle(Some("Song".to_owned()))));
        if prime_pause {
            core.step(ControllerInput::Player(MpvEvent::Pause(true)));
        }

        let effects = core.step(ControllerInput::Ui(UiCommand::Stop));
        assert!(core.state.station.is_none());
        assert!(core.state.media_title.is_none());
        assert_eq!(core.state.phase, PlaybackPhase::NotConfigured);
        assert!(core.current_url.is_none());
        assert!(core.config.last_station.is_none());
        assert_eq!(effects.len(), 3);
        assert_eq!(effects[0], ControllerEffect::Player(MpvCommand::Stop));
        assert_eq!(effects[1], ControllerEffect::Publish);
        match &effects[2] {
            ControllerEffect::Persist(cfg) => assert!(cfg.last_station.is_none()),
            other => panic!("expected Persist, got {:?}", other),
        }
    }
}

#[test]
fn toggle_favorite_twice_is_a_no_op() {
    let mut core = controller_init(AppConfig {
        last_station: None,
        last_server: None,
        favorites: vec![station_ref("a", "A"), station_ref("b", "B")],
    })
    .0;
    let st = station_ref("c", "C");
    core.step(ControllerInput::Ui(UiCommand::ToggleFavorite(st.clone())));
    assert_eq!(
        core.state.favorites,
        vec![station_ref("a", "A"), station_ref("b", "B"), station_ref("c", "C")]
    );
    core.step(ControllerInput::Ui(UiCommand::ToggleFavorite(st)));
    assert_eq!(
        core.state.favorites,
        vec![station_ref("a", "A"), station_ref("b", "B")],
        "toggling the same id twice restores the list"
    );

    // Toggling an id already present and toggling it again keeps the same
    // membership (identity is the id alone).
    let b = station_ref("b", "B");
    core.step(ControllerInput::Ui(UiCommand::ToggleFavorite(b.clone())));
    assert!(core.state.favorites.iter().all(|f| f.stationuuid != "b"));
    core.step(ControllerInput::Ui(UiCommand::ToggleFavorite(b)));
    assert!(core.state.favorites.iter().any(|f| f.stationuuid == "b"));
    assert_eq!(core.state.favorites.len(), 2);
    // The persisted list mirrors the published one.
    assert_eq!(core.config.favorites, core.state.favorites);
}

#[test]
fn player_crash_recovery_replays_the_desired_url() {
    // The controller is playing a stream.
    let mut core = fresh_core();
    let st = station_ref("u1", "One");
    core.step(ControllerInput::Ui(UiCommand::Play(st.clone())));
    core.step(ControllerInput::ResolveDone {
        station: st,
        result: Ok("http://s.example/live".to_owned()),
        last_server: None,
    });

    // The player process exits: the supervisor reports the crash and — with
    // no sleep and no stop directive — reconnects on its next loop turn.
    let supervisor = Supervisor::new();
    let crash_directives = supervisor.on_session_crashed("mpv exited: code 1".to_owned());
    assert_eq!(crash_directives.len(), 1);
    let crashed_event = match &crash_directives[0] {
        SupervisorDirective::Emit(e) => e.clone(),
        other => panic!("expected Emit, got {:?}", other),
    };
    assert!(crash_directives
        .iter()
        .all(|d| !matches!(d, SupervisorDirective::StopLoop | SupervisorDirective::SleepMs(_))));

    // The controller sees the crash: error phase, briefly damped.
    let effects = core.step(ControllerInput::Player(crashed_event));
    assert_eq!(core.state.phase, PlaybackPhase::Error);
    assert!(effects.contains(&ControllerEffect::SleepMs(250)));

    // The supervisor reconnects and reports Ready without any controller
    // involvement...
    let mut supervisor = supervisor;
    let connect_directives = supervisor.on_connected();
    let ready_event = match connect_directives.last().unwrap() {
        SupervisorDirective::Emit(e) => e.clone(),
        other => panic!("expected Emit, got {:?}", other),
    };
    assert_eq!(ready_event, MpvEvent::Ready);

    // ...and on Ready the controller reloads the previously desired URL.
    let effects = core.step(ControllerInput::Player(ready_event));
    assert_eq!(
        effects[0],
        ControllerEffect::Player(MpvCommand::LoadUrl { url: "http://s.example/live".to_owned() })
    );
    assert_eq!(effects[1], ControllerEffect::Player(MpvCommand::SetPause(false)));
    assert_eq!(core.state.phase, PlaybackPhase::Playing);
}

#[test]
fn ready_without_desired_url_does_nothing() {
    let mut core = fresh_core();
    let effects = core.step(ControllerInput::Player(MpvEvent::Ready));
    assert!(effects.is_empty());
    assert_eq!(core.state.phase, PlaybackPhase::NotConfigured);
}

#[test]
fn pause_events_flip_the_phase() {
    let mut core = fresh_core();
    let st = station_ref("u1", "One");
    core.step(ControllerInput::Ui(UiCommand::Play(st.clone())));
    core.step(ControllerInput::ResolveDone {
        station: st,
        result: Ok("http://s.example/live".to_owned()),
        last_server: None,
    });
    core.step(ControllerInput::Player(MpvEvent::Pause(true)));
    assert_eq!(core.state.phase, PlaybackPhase::Paused);
    assert!(core.want_paused);
    core.step(ControllerInput::Player(MpvEvent::Pause(false)));
    assert_eq!(core.state.phase, PlaybackPhase::Playing);
    assert!(!core.want_paused);
}

#[test]
fn shutdown_forwards_and_quits() {
    let mut core = fresh_core();
    let effects = core.step(ControllerInput::Ui(UiCommand::Shutdown));
    assert_eq!(
        effects,
        vec![ControllerEffect::Player(MpvCommand::Shutdown), ControllerEffect::Quit]
    );
    let effects = core.step(ControllerInput::PlayerGone);
    assert_eq!(core.state.phase, PlaybackPhase::Error);
    assert_eq!(core.state.error.as_deref(), Some("mpv controller stopped"));
    assert!(effects.contains(&ControllerEffect::Quit));
}

#[test]
fn label_text_prefers_station_then_title() {
    let mut state = ControllerState {
        phase: PlaybackPhase::Playing,
        station: Some(station_ref("u1", "  Groove FM  ")),
        media_title: Some("Some Song".to_owned()),
        error: None,
        search_query: String::new(),
        search_loading: false,
        search_results: vec![],
        favorites: vec![],
    };
    assert_eq!(state.label_text(), "Groove FM");
    state.station = Some(station_ref("u1", "   "));
    assert_eq!(state.label_text(), "Some Song");
    state.media_title = Some("  ".to_owned());
    assert_eq!(state.label_text(), "radio");
    state.media_title = None;
    state.station = None;
    assert_eq!(state.label_text(), "radio");
}
