use vibecast::protocol::{
    encode_request, classify_line, call_step, resolve_call, parse_line_data_text,
    parse_line_data_number_text, parse_line_data_entry, CmdToken, CallEvent, CallError, CallStep,
    LineVerdict, PendingCall, ResolveOutcome, DEFAULT_COMMAND_TIMEOUT_MS, POLL_COMMAND_TIMEOUT_MS,
};

fn text(s: &str) -> CmdToken {
    CmdToken::Text(s.to_string())
}

#[test]
fn encode_request_plain_tokens() {
    let tokens = vec![text("get_property"), text("media-title")];
    let msg = encode_request(&tokens, 7);
    assert_eq!(
        msg,
        "{\"command\":[\"get_property\",\"media-title\"],\"request_id\":7}\n"
    );
}

#[test]
fn encode_request_with_integer_token() {
    let tokens = vec![text("set_property"), text("volume"), CmdToken::Int(85)];
    let msg = encode_request(&tokens, 12);
    assert_eq!(
        msg,
        "{\"command\":[\"set_property\",\"volume\",85],\"request_id\":12}\n"
    );
}

#[test]
fn encode_request_escapes_specials() {
    let tokens = vec![text("loadfile"), text("a\"b\\c\nd")];
    let msg = encode_request(&tokens, 1);
    assert_eq!(
        msg,
        "{\"command\":[\"loadfile\",\"a\\\"b\\\\c\\nd\"],\"request_id\":1}\n"
    );
    // the message is itself valid JSON carrying the token unchanged
    let v: serde_json::Value = serde_json::from_str(msg.trim_end()).unwrap();
    assert_eq!(v["command"][1].as_str().unwrap(), "a\"b\\c\nd");
}

#[test]
fn encode_request_escapes_control_chars() {
    let tokens = vec![text("x\u{1}y")];
    let msg = encode_request(&tokens, 2);
    assert_eq!(msg, "{\"command\":[\"x\\u0001y\"],\"request_id\":2}\n");
}

#[test]
fn classify_skips_events() {
    let v = classify_line("{\"event\":\"property-change\",\"request_id\":4}", 4);
    assert!(matches!(v, LineVerdict::Skip));
}

#[test]
fn classify_skips_stale_request_id() {
    let v = classify_line("{\"request_id\":3,\"error\":\"success\",\"data\":1}", 4);
    assert!(matches!(v, LineVerdict::Skip));
}

#[test]
fn classify_skips_unparseable() {
    assert!(matches!(classify_line("not json at all", 4), LineVerdict::Skip));
    assert!(matches!(classify_line("[1,2,3]", 4), LineVerdict::Skip));
}

#[test]
fn classify_accepts_matching_success() {
    let v = classify_line("{\"request_id\":4,\"error\":\"success\",\"data\":\"x\"}", 4);
    assert!(matches!(v, LineVerdict::Accept));
    // an absent error field counts as success too
    let v = classify_line("{\"request_id\":4,\"data\":\"x\"}", 4);
    assert!(matches!(v, LineVerdict::Accept));
}

#[test]
fn classify_rejects_matching_error() {
    let v = classify_line("{\"request_id\":4,\"error\":\"property unavailable\"}", 4);
    match v {
        LineVerdict::Reject(e) => assert_eq!(e, "property unavailable"),
        _ => panic!("expected a rejection"),
    }
}

fn pending(id: u64, issued: u64, timeout: u64) -> PendingCall {
    PendingCall {
        request_id: id,
        issued_at_ms: issued,
        timeout_ms: timeout,
    }
}

#[test]
fn stale_and_event_lines_do_not_complete_call() {
    // an interleaved event and a stale response arrive before the real
    // response: both are discarded, the real one completes the call
    let p = pending(9, 1000, DEFAULT_COMMAND_TIMEOUT_MS);
    let events = vec![
        CallEvent::Line {
            at_ms: 1010,
            text: "{\"event\":\"playback-restart\"}".to_string(),
        },
        CallEvent::Line {
            at_ms: 1020,
            text: "{\"request_id\":8,\"error\":\"success\",\"data\":\"old\"}".to_string(),
        },
        CallEvent::Line {
            at_ms: 1030,
            text: "{\"request_id\":9,\"error\":\"success\",\"data\":\"fresh\"}".to_string(),
        },
    ];
    match resolve_call(&p, &events) {
        ResolveOutcome::Completed(i) => assert_eq!(i, 2),
        _ => panic!("the matching response must complete the call"),
    }
}

#[test]
fn timeout_fires_when_nothing_answers() {
    // a transport that never responds: only clock ticks arrive; the call
    // fails with a timeout once a tick passes the 50 ms deadline
    let p = pending(1, 1000, 50);
    let events = vec![
        CallEvent::Tick { at_ms: 1020 },
        CallEvent::Tick { at_ms: 1040 },
        CallEvent::Tick { at_ms: 1051 },
    ];
    match resolve_call(&p, &events) {
        ResolveOutcome::Failed(i, CallError::CommandTimeout) => assert_eq!(i, 2),
        _ => panic!("the call must time out"),
    }
}

#[test]
fn late_line_is_a_timeout_not_an_answer() {
    let p = pending(1, 0, POLL_COMMAND_TIMEOUT_MS);
    let events = vec![CallEvent::Line {
        at_ms: 250,
        text: "{\"request_id\":1,\"error\":\"success\"}".to_string(),
    }];
    assert!(matches!(
        resolve_call(&p, &events),
        ResolveOutcome::Failed(0, CallError::CommandTimeout)
    ));
}

#[test]
fn matching_error_reply_rejects_the_call() {
    let p = pending(2, 0, 2000);
    let events = vec![
        CallEvent::Line {
            at_ms: 5,
            text: "{\"event\":\"idle\"}".to_string(),
        },
        CallEvent::Line {
            at_ms: 10,
            text: "{\"request_id\":2,\"error\":\"invalid parameter\"}".to_string(),
        },
    ];
    match resolve_call(&p, &events) {
        ResolveOutcome::Failed(i, CallError::CommandRejected(e)) => {
            assert_eq!(i, 1);
            assert_eq!(e, "invalid parameter");
        }
        _ => panic!("a matching error reply must reject the call"),
    }
}

#[test]
fn closed_stream_fails_the_call() {
    let p = pending(1, 0, 2000);
    let step = call_step(&p, &CallEvent::Closed { at_ms: 10 });
    assert!(matches!(step, CallStep::Fail(CallError::TransportClosed)));
}

#[test]
fn quiet_stream_keeps_waiting_before_deadline() {
    let p = pending(1, 0, 2000);
    let events = vec![CallEvent::Tick { at_ms: 100 }, CallEvent::Tick { at_ms: 200 }];
    assert!(matches!(resolve_call(&p, &events), ResolveOutcome::StillWaiting));
}

#[test]
fn data_extraction_reads_the_reply() {
    let line = "{\"request_id\":2,\"error\":\"success\",\"data\":\"Some Title\"}";
    assert_eq!(parse_line_data_text(line).as_deref(), Some("Some Title"));
    assert_eq!(parse_line_data_number_text(line), None);

    let num = "{\"request_id\":2,\"error\":\"success\",\"data\":128.25}";
    assert_eq!(parse_line_data_text(num), None);
    assert_eq!(parse_line_data_number_text(num).as_deref(), Some("128.25"));

    let map = "{\"request_id\":2,\"error\":\"success\",\"data\":{\"icy-title\":\"A - B\",\"artist\":\"A\"}}";
    assert_eq!(parse_line_data_entry(map, "icy-title").as_deref(), Some("A - B"));
    assert_eq!(parse_line_data_entry(map, "artist").as_deref(), Some("A"));
    assert_eq!(parse_line_data_entry(map, "album"), None);
}
