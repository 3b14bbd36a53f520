use radio_widget::error::DirectoryError;
use radio_widget::radio_browser::{
    append_chunk, base_url, build_resolve_url, build_search_url, check_content_length,
    discovery_url, interpret_resolve_body, normalize_query, normalize_station_id,
    parse_stream_url, process_server_list, MirrorAttempts, RadioBrowserClient,
};

#[test]
fn validates_stream_url_schemes() {
    assert!(parse_stream_url("https://example.com/stream").is_ok());
    assert!(parse_stream_url("http://example.com/stream").is_ok());
    assert!(parse_stream_url("file:///etc/passwd").is_err());
}

#[test]
fn rejects_unsupported_schemes_by_name() {
    match parse_stream_url("file:///etc/passwd") {
        Err(DirectoryError::UnsupportedScheme(s)) => assert_eq!(s, "file"),
        other => panic!("expected UnsupportedScheme, got {:?}", other),
    }
    match parse_stream_url("ftp://host/x") {
        Err(DirectoryError::UnsupportedScheme(s)) => assert_eq!(s, "ftp"),
        other => panic!("expected UnsupportedScheme, got {:?}", other),
    }
    match parse_stream_url("not a url") {
        Err(DirectoryError::Parse(_)) => {}
        other => panic!("expected Parse error, got {:?}", other),
    }
}

#[test]
fn normalizes_stream_urls() {
    // The parser lower-cases scheme and host: proof that the URL really went
    // through it rather than being handed back unchanged.
    assert_eq!(
        parse_stream_url("HTTP://Example.COM/Stream").unwrap(),
        "http://example.com/Stream"
    );
}

#[test]
fn resolve_body_prefers_json_url_member() {
    assert_eq!(
        interpret_resolve_body(r#"{"url":"http://s.example/live"}"#).unwrap(),
        "http://s.example/live"
    );
    // A bare URL body falls back to the trimmed text.
    assert_eq!(
        interpret_resolve_body("  https://bare.example/x \n").unwrap(),
        "https://bare.example/x"
    );
    // A JSON body with a bad URL does not fall back.
    assert!(interpret_resolve_body(r#"{"url":"file:///etc/passwd"}"#).is_err());
    assert!(interpret_resolve_body("garbage").is_err());
}

#[test]
fn builds_request_urls() {
    assert_eq!(discovery_url(), "https://all.api.radio-browser.info/json/servers");
    assert_eq!(base_url("de1.api.radio-browser.info"), "https://de1.api.radio-browser.info");
    assert_eq!(
        build_search_url("https://de1.api.radio-browser.info", "jazz fm", 25),
        "https://de1.api.radio-browser.info/json/stations/search?name=jazz%20fm&hidebroken=true&limit=25&order=votes&reverse=true"
    );
    assert_eq!(
        build_resolve_url("https://de1.api.radio-browser.info", "abc-123"),
        "https://de1.api.radio-browser.info/json/url/abc-123"
    );
}

#[test]
fn empty_queries_skip_the_network() {
    assert!(normalize_query("").is_none());
    assert!(normalize_query("   \t\n").is_none());
    assert_eq!(normalize_query("  jazz  ").unwrap(), "jazz");
    assert!(normalize_station_id("  ").is_err());
    assert_eq!(normalize_station_id(" u1 ").unwrap(), "u1");
}

#[test]
fn caps_response_sizes() {
    assert!(check_content_length(1000, 1000).is_ok());
    assert_eq!(check_content_length(1001, 1000), Err(DirectoryError::ResponseTooLarge));

    let mut body: Vec<u8> = Vec::new();
    assert!(append_chunk(&mut body, &[1u8; 600], 1000).is_ok());
    assert!(append_chunk(&mut body, &[2u8; 400], 1000).is_ok());
    assert_eq!(body.len(), 1000);
    assert_eq!(append_chunk(&mut body, &[3u8], 1000), Err(DirectoryError::ResponseTooLarge));
    assert_eq!(body.len(), 1000, "a refused chunk must not grow the body");
}

#[test]
fn sorts_and_deduplicates_mirrors() {
    let names: Vec<String> = vec![
        "fr1.api".to_owned(),
        "de1.api".to_owned(),
        "fr1.api".to_owned(),
        "at1.api".to_owned(),
    ];
    let out = process_server_list(names).unwrap();
    assert_eq!(
        out,
        vec!["at1.api".to_owned(), "de1.api".to_owned(), "fr1.api".to_owned()]
    );
}

#[test]
fn empty_mirror_list_is_an_error() {
    assert_eq!(process_server_list(Vec::new()), Err(DirectoryError::EmptyMirrorList));
}

#[test]
fn failover_prefers_the_successful_mirror_next_time() {
    let pool: Vec<String> = vec![
        "m1".to_owned(),
        "m2".to_owned(),
        "m3".to_owned(),
        "m4".to_owned(),
    ];
    let mut client = RadioBrowserClient::new(None);

    // First lookup: the first three mirrors of the arrangement fail, the
    // fourth succeeds.
    let arranged = client.arrange_mirrors(pool.clone());
    assert_eq!(arranged.len(), 4);
    let mut attempts = MirrorAttempts::start(arranged.clone());
    let mut backoffs: Vec<u64> = Vec::new();
    let mut winner: Option<String> = None;
    for round in 0..4 {
        let server = attempts.next_attempt().expect("attempt budget not spent yet");
        assert_eq!(server, arranged[round], "attempts walk the arrangement in order");
        if round < 3 {
            if let Some(ms) = attempts.record_failure() {
                backoffs.push(ms);
            }
        } else {
            client.record_success(server.clone());
            winner = Some(server);
        }
    }
    assert_eq!(backoffs, vec![200, 400, 800]);
    let winner = winner.unwrap();
    assert_eq!(client.last_server(), Some(winner.clone()));
    assert_eq!(winner, arranged[3]);

    // Next lookup: whatever the shuffle does, the remembered mirror comes
    // first, and the arrangement is still the same pool.
    let arranged2 = client.arrange_mirrors(pool.clone());
    assert_eq!(arranged2[0], winner);
    let mut sorted2 = arranged2.clone();
    sorted2.sort();
    let mut sorted_pool = pool.clone();
    sorted_pool.sort();
    assert_eq!(sorted2, sorted_pool);
}

#[test]
fn attempts_wrap_a_small_pool_and_give_up() {
    let pool: Vec<String> = vec!["only".to_owned()];
    let mut attempts = MirrorAttempts::start(pool);
    for _ in 0..4 {
        assert_eq!(attempts.next_attempt().unwrap(), "only");
        attempts.record_failure();
    }
    assert!(attempts.next_attempt().is_none(), "the budget is four attempts");
}

#[test]
fn error_messages_name_their_cause() {
    assert_eq!(
        DirectoryError::Network("timed out".to_owned()).message(),
        "network error: timed out"
    );
    assert_eq!(DirectoryError::Parse("bad row".to_owned()).message(), "parse error: bad row");
    assert_eq!(
        DirectoryError::EmptyMirrorList.message(),
        "radio directory server list was empty"
    );
    assert_eq!(DirectoryError::ResponseTooLarge.message(), "response too large");
    assert_eq!(
        DirectoryError::UnsupportedScheme("ftp".to_owned()).message(),
        "unsupported stream URL scheme: ftp"
    );
}
