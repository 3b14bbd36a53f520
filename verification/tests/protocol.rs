use radio_widget::mpv::{
    encode_command, json_escape, parse_event, player_args, connect_retry, MpvCommand, MpvEvent,
    Supervisor, SupervisorDirective,
};

#[test]
fn parses_media_title() {
    let line = r#"{"event":"property-change","name":"media-title","data":"Song Title"}"#;
    let ev = parse_event(line).unwrap();
    match ev {
        MpvEvent::MediaTitle(Some(t)) => assert_eq!(t, "Song Title"),
        _ => panic!("unexpected event"),
    }
}

#[test]
fn parses_pause() {
    let line = r#"{"event":"property-change","name":"pause","data":true}"#;
    let ev = parse_event(line).unwrap();
    match ev {
        MpvEvent::Pause(true) => {}
        _ => panic!("unexpected event"),
    }
}

#[test]
fn ignores_unrelated_events() {
    assert!(parse_event(r#"{"event":"idle"}"#).is_none());
    assert!(parse_event(r#"{"event":"property-change","name":"volume","data":50}"#).is_none());
    assert!(parse_event("not json at all").is_none());
    assert!(parse_event(r#"{"request_id":1,"error":"success"}"#).is_none());
}

#[test]
fn parses_missing_title_as_none() {
    let line = r#"{"event":"property-change","name":"media-title","data":null}"#;
    match parse_event(line).unwrap() {
        MpvEvent::MediaTitle(None) => {}
        _ => panic!("unexpected event"),
    }
}

#[test]
fn parses_non_bool_pause_as_unpaused() {
    let line = r#"{"event":"property-change","name":"pause"}"#;
    match parse_event(line).unwrap() {
        MpvEvent::Pause(false) => {}
        _ => panic!("unexpected event"),
    }
}

#[test]
fn encodes_protocol_requests() {
    let load = encode_command(&MpvCommand::LoadUrl { url: "http://ex.am/ple".to_owned() });
    assert_eq!(
        load.unwrap(),
        r#"{"command":["loadfile","http://ex.am/ple","replace"]}"#
    );
    assert_eq!(
        encode_command(&MpvCommand::TogglePause).unwrap(),
        r#"{"command":["cycle","pause"]}"#
    );
    assert_eq!(
        encode_command(&MpvCommand::SetPause(true)).unwrap(),
        r#"{"command":["set_property","pause",true]}"#
    );
    assert_eq!(
        encode_command(&MpvCommand::SetPause(false)).unwrap(),
        r#"{"command":["set_property","pause",false]}"#
    );
    assert_eq!(encode_command(&MpvCommand::Stop).unwrap(), r#"{"command":["stop"]}"#);
    assert!(encode_command(&MpvCommand::Shutdown).is_none());
}

#[test]
fn escapes_json_strings() {
    assert_eq!(json_escape("plain"), "plain");
    assert_eq!(json_escape("a\"b\\c"), "a\\\"b\\\\c");
    assert_eq!(json_escape("line\nbreak\ttab"), "line\\nbreak\\ttab");
    assert_eq!(json_escape("\u{1}"), "\\u0001");
    assert_eq!(json_escape("\u{1f}"), "\\u001f");
}

#[test]
fn encoded_load_round_trips_through_serde() {
    // The verified encoder must produce what a JSON parser reads back.
    let url = "http://radio.example/stream?a=1&b=\"x\"";
    let line = encode_command(&MpvCommand::LoadUrl { url: url.to_owned() }).unwrap();
    let v: serde_json::Value = serde_json::from_str(&line).unwrap();
    assert_eq!(v["command"][0], "loadfile");
    assert_eq!(v["command"][1], url);
    assert_eq!(v["command"][2], "replace");
}

#[test]
fn supervisor_backoff_doubles_to_ceiling() {
    let mut s = Supervisor::new();
    let mut slept: Vec<u64> = Vec::new();
    for _ in 0..7 {
        let d = s.on_connect_failed("spawn failed".to_owned());
        assert_eq!(d.len(), 2);
        match (&d[0], &d[1]) {
            (SupervisorDirective::Emit(MpvEvent::Crashed(m)), SupervisorDirective::SleepMs(ms)) => {
                assert_eq!(m, "spawn failed");
                slept.push(*ms);
            }
            _ => panic!("unexpected directives"),
        }
    }
    assert_eq!(slept, vec![200, 400, 800, 1600, 3200, 5000, 5000]);
}

#[test]
fn supervisor_connect_resets_backoff_and_reports_ready() {
    let mut s = Supervisor::new();
    s.on_connect_failed("x".to_owned());
    s.on_connect_failed("x".to_owned());
    let d = s.on_connected();
    assert_eq!(d.len(), 3);
    assert_eq!(
        d[0],
        SupervisorDirective::WriteLine(
            r#"{"command":["observe_property",1,"media-title"]}"#.to_owned()
        )
    );
    assert_eq!(
        d[1],
        SupervisorDirective::WriteLine(r#"{"command":["observe_property",2,"pause"]}"#.to_owned())
    );
    assert_eq!(d[2], SupervisorDirective::Emit(MpvEvent::Ready));
    // The backoff is back at its start value.
    let d2 = s.on_connect_failed("x".to_owned());
    assert_eq!(d2[1], SupervisorDirective::SleepMs(200));
}

#[test]
fn supervisor_session_crash_retries_immediately() {
    let s = Supervisor::new();
    let d = s.on_session_crashed("mpv exited: signal 9".to_owned());
    assert_eq!(
        d,
        vec![SupervisorDirective::Emit(MpvEvent::Crashed("mpv exited: signal 9".to_owned()))]
    );
    let d2 = s.on_commands_closed();
    assert_eq!(d2, vec![SupervisorDirective::StopLoop]);
}

#[test]
fn supervisor_translates_commands() {
    let s = Supervisor::new();
    let d = s.on_command(&MpvCommand::Stop);
    assert_eq!(d, vec![SupervisorDirective::WriteLine(r#"{"command":["stop"]}"#.to_owned())]);
    let d2 = s.on_command(&MpvCommand::Shutdown);
    assert_eq!(d2, vec![SupervisorDirective::KillPlayer, SupervisorDirective::StopLoop]);
}

#[test]
fn connect_poll_gives_up_after_three_seconds() {
    assert_eq!(connect_retry(0), Some(50));
    assert_eq!(connect_retry(3000), Some(50));
    assert_eq!(connect_retry(3001), None);
}

#[test]
fn player_args_select_headless_idle_mode() {
    let args = player_args("/run/user/1/radio/mpv.sock");
    assert_eq!(
        args,
        vec![
            "--idle=yes".to_owned(),
            "--no-terminal".to_owned(),
            "--no-video".to_owned(),
            "--force-window=no".to_owned(),
            "--keep-open=yes".to_owned(),
            "--input-ipc-server=/run/user/1/radio/mpv.sock".to_owned(),
        ]
    );
}
