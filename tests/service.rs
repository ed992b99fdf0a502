use axum_scaffold::config::{AppMode, ModeError};
use axum_scaffold::envelope::{frame_envelope, Response, UntypedResponse};
use axum_scaffold::routes::{reply_for, result_is_wf, root_handler, serve, HandlerOutcome};
use axum_scaffold::span::{
    classify_outcome, classify_status, trace_request, HttpRequest, Outcome, RequestSpan,
    StatusClass, TraceEvent,
};
use axum_scaffold::telemetry::{
    default_filter, directives_are_trim_safe, http_trace_policy, log_filter, log_format, select_filter, LatencyUnit, Level,
    LogFormat,
};

fn mode(v: &str) -> AppMode {
    AppMode::from_env(Some(v.to_string())).expect("a recognised mode")
}

fn request(method: &str, route: &str) -> HttpRequest {
    HttpRequest {
        method: method.to_string(),
        route: route.to_string(),
        headers: vec![],
        body: vec![],
    }
}

fn keys_of(json: &str) -> Vec<String> {
    let v: serde_json::Value = serde_json::from_str(json).expect("valid JSON");
    let mut keys: Vec<String> = v.as_object().expect("an object").keys().cloned().collect();
    keys.sort();
    keys
}

#[test]
fn development_mode_sets_only_its_flag() {
    let m = mode("development");
    assert_eq!(m.app_env, "development");
    assert!(m.is_development && !m.is_staging && !m.is_production);
}

#[test]
fn staging_mode_sets_only_its_flag() {
    let m = mode("staging");
    assert!(!m.is_development && m.is_staging && !m.is_production);
}

#[test]
fn production_mode_sets_only_its_flag() {
    let m = mode("production");
    assert!(!m.is_development && !m.is_staging && m.is_production);
}

#[test]
fn unknown_mode_is_refused() {
    assert_eq!(
        AppMode::from_env(Some("qa".to_string())).unwrap_err(),
        ModeError::Invalid("qa".to_string())
    );
    assert!(AppMode::from_env(Some("Development".to_string())).is_err());
    assert!(AppMode::from_env(Some(String::new())).is_err());
}

#[test]
fn missing_mode_is_refused() {
    assert_eq!(AppMode::from_env(None).unwrap_err(), ModeError::Missing);
}

#[test]
fn constructors_never_carry_data_and_error_together() {
    for data in [None, Some("1".to_string())] {
        for message in [None, Some("m".to_string())] {
            let r: UntypedResponse = Response::ok(data.clone(), message.clone());
            assert!(r.success && r.error.is_none());
            assert_eq!(r.data, data);
            assert_eq!(r.message, message);
        }
    }
    for error in [None, Some("\"bad\"".to_string())] {
        let r: UntypedResponse = Response::err(error.clone(), None);
        assert!(!r.success && r.data.is_none());
        assert_eq!(r.error, error);
    }
    let d: Response<u32, u32> = Response::default();
    assert!(!d.success && d.message.is_none() && d.data.is_none() && d.error.is_none());
}

#[test]
fn root_handler_greets() {
    let r = root_handler().expect("success");
    assert!(r.success);
    assert_eq!(r.message.as_deref(), Some("Hello world!"));
    assert_eq!(r.to_json(), "{\"success\":true,\"message\":\"Hello world!\"}");
}

#[test]
fn absent_fields_leave_no_key() {
    let bare: UntypedResponse = Response::ok(None, None);
    assert_eq!(bare.to_json(), "{\"success\":true}");
    assert_eq!(keys_of(&bare.to_json()), vec!["success"]);
    let with_data: UntypedResponse = Response::ok(Some("[1,2]".to_string()), None);
    assert_eq!(with_data.to_json(), "{\"success\":true,\"data\":[1,2]}");
    assert_eq!(keys_of(&with_data.to_json()), vec!["data", "success"]);
    let failed: UntypedResponse =
        Response::err(Some("{\"code\":7}".to_string()), Some("no".to_string()));
    assert_eq!(
        failed.to_json(),
        "{\"success\":false,\"message\":\"no\",\"error\":{\"code\":7}}"
    );
    assert_eq!(keys_of(&failed.to_json()), vec!["error", "message", "success"]);
}

#[test]
fn wire_form_reparses_to_the_same_text() {
    let r: UntypedResponse = Response::ok(Some("{\"n\":1}".to_string()), Some("hi".to_string()));
    let text = r.to_json();
    let v: serde_json::Value = serde_json::from_str(&text).unwrap();
    let again: UntypedResponse = Response {
        success: v["success"].as_bool().unwrap(),
        message: v.get("message").map(|m| m.as_str().unwrap().to_string()),
        data: v.get("data").map(|d| d.to_string()),
        error: v.get("error").map(|e| e.to_string()),
    };
    assert_eq!(again.to_json(), text);
}

#[test]
fn message_is_escaped_as_a_json_string() {
    let r: UntypedResponse = Response::err(None, Some("say \"hi\"\n".to_string()));
    assert_eq!(r.to_json(), "{\"success\":false,\"message\":\"say \\\"hi\\\"\\n\"}");
}

#[test]
fn frame_writes_members_in_order() {
    let s = frame_envelope(
        true,
        &Some("\"m\"".to_string()),
        &Some("3".to_string()),
        &Some("null".to_string()),
    );
    assert_eq!(s, "{\"success\":true,\"message\":\"m\",\"data\":3,\"error\":null}");
    assert_eq!(frame_envelope(false, &None, &None, &None), "{\"success\":false}");
}

#[test]
fn trace_policy_redacts_and_sets_levels() {
    let p = http_trace_policy();
    assert_eq!(p.span_level, Level::Info);
    assert_eq!(p.request_level, Level::Debug);
    assert_eq!(p.response_level, Level::Info);
    assert_eq!(p.failure_level, Level::Error);
    assert_eq!(p.response_latency_unit, LatencyUnit::Millis);
    assert_eq!(p.failure_latency_unit, LatencyUnit::Millis);
    assert!(!p.include_request_headers && !p.include_response_headers);
    assert!(!p.log_body_chunks && !p.log_end_of_stream);
}

#[test]
fn log_format_follows_mode() {
    assert_eq!(log_format(&mode("development")), LogFormat::Human);
    assert_eq!(log_format(&mode("staging")), LogFormat::Structured);
    assert_eq!(log_format(&mode("production")), LogFormat::Structured);
}

#[test]
fn log_filter_defaults_to_info() {
    assert_eq!(default_filter("svc"), "tower_http=info,svc=info");
    assert_eq!(log_filter(None, "svc"), "tower_http=info,svc=info");
    assert_eq!(select_filter(Some("debug".to_string()), false, "svc"), "tower_http=info,svc=info");
    assert_eq!(select_filter(Some("debug".to_string()), true, "svc"), "debug");
}

#[test]
fn log_filter_honours_a_valid_override() {
    assert_eq!(log_filter(Some("svc=debug".to_string()), "svc"), "svc=debug");
}

#[test]
fn log_filter_ignores_an_invalid_override() {
    assert_eq!(
        log_filter(Some("svc=loudest".to_string()), "svc"),
        "tower_http=info,svc=info"
    );
}

#[test]
fn status_classes() {
    assert_eq!(classify_status(200), StatusClass::Success);
    assert_eq!(classify_status(304), StatusClass::Success);
    assert_eq!(classify_status(400), StatusClass::ClientFailure);
    assert_eq!(classify_status(499), StatusClass::ClientFailure);
    assert_eq!(classify_status(500), StatusClass::ServerError);
    assert_eq!(classify_status(599), StatusClass::ServerError);
    assert_eq!(classify_status(600), StatusClass::Success);
    assert_eq!(classify_outcome(&Outcome::HandlerFault), StatusClass::ServerError);
    assert_eq!(classify_outcome(&Outcome::TransportError), StatusClass::ServerError);
    assert_eq!(classify_outcome(&Outcome::Aborted), StatusClass::ClientFailure);
}

fn counts(events: &[TraceEvent]) -> (usize, usize, usize) {
    let opens = events.iter().filter(|e| matches!(e, TraceEvent::SpanOpen { .. })).count();
    let recv = events.iter().filter(|e| matches!(e, TraceEvent::RequestReceived { .. })).count();
    let closes = events.iter().filter(|e| matches!(e, TraceEvent::SpanClose { .. })).count();
    (opens, recv, closes)
}

#[test]
fn every_outcome_opens_and_closes_once() {
    let p = http_trace_policy();
    let outcomes = [
        Outcome::Responded { status: 200 },
        Outcome::Responded { status: 404 },
        Outcome::Responded { status: 503 },
        Outcome::HandlerFault,
        Outcome::TransportError,
        Outcome::Aborted,
    ];
    for o in outcomes.iter() {
        let events = trace_request(&request("GET", "/"), o, 12, &p);
        assert_eq!(counts(&events), (1, 1, 1));
    }
}

#[test]
fn span_closes_only_once() {
    let p = http_trace_policy();
    let mut span = RequestSpan::open("POST", "/items", &p);
    span.on_request(&p);
    span.on_request(&p);
    span.on_body_chunk(b"secret");
    span.on_eos();
    assert!(!span.closed());
    span.close(&Outcome::HandlerFault, 3, &p);
    span.close(&Outcome::Responded { status: 200 }, 4, &p);
    assert!(span.closed());
    let events = span.into_events();
    assert_eq!(counts(&events), (1, 1, 1));
    assert!(matches!(
        events[2],
        TraceEvent::SpanClose { level: Level::Error, latency: 3, class: StatusClass::ServerError, .. }
    ));
}

#[test]
fn headers_and_body_never_reach_events() {
    let p = http_trace_policy();
    let plain = request("GET", "/");
    let loaded = HttpRequest {
        method: "GET".to_string(),
        route: "/".to_string(),
        headers: vec![("authorization".to_string(), "Bearer abc123".to_string())],
        body: b"password=hunter2".to_vec(),
    };
    let a = trace_request(&plain, &Outcome::Responded { status: 200 }, 5, &p);
    let b = trace_request(&loaded, &Outcome::Responded { status: 200 }, 5, &p);
    assert_eq!(format!("{:?}", a), format!("{:?}", b));
    let text = format!("{:?}", b);
    assert!(!text.contains("authorization") && !text.contains("hunter2"));
}

#[test]
fn root_request_in_development() {
    let m = mode("development");
    assert_eq!(log_format(&m), LogFormat::Human);
    let p = http_trace_policy();
    let served = serve(&request("GET", "/"), HandlerOutcome::Completed(root_handler()), 8, &p);
    assert_eq!(served.status, 200);
    assert_eq!(served.body, "{\"success\":true,\"message\":\"Hello world!\"}");
    assert_eq!(served.events.len(), 3);
    match &served.events[0] {
        TraceEvent::SpanOpen { level, method, route } => {
            assert_eq!(*level, Level::Info);
            assert_eq!(method, "GET");
            assert_eq!(route, "/");
        }
        other => panic!("expected an open event, got {:?}", other),
    }
    assert!(matches!(served.events[1], TraceEvent::RequestReceived { level: Level::Debug }));
    assert!(matches!(
        served.events[2],
        TraceEvent::SpanClose {
            level: Level::Info,
            latency: 8,
            unit: LatencyUnit::Millis,
            class: StatusClass::Success
        }
    ));
}

#[test]
fn handler_fault_yields_failure_envelope_and_error_close() {
    let p = http_trace_policy();
    let served = serve(&request("GET", "/"), HandlerOutcome::Fault, 21, &p);
    assert_eq!(served.status, 500);
    assert_eq!(served.body, "{\"success\":false}");
    assert_eq!(counts(&served.events), (1, 1, 1));
    assert!(matches!(
        served.events[2],
        TraceEvent::SpanClose { level: Level::Error, latency: 21, class: StatusClass::ServerError, .. }
    ));
}

#[test]
fn client_error_closes_at_info() {
    let p = http_trace_policy();
    let env: UntypedResponse = Response::err(Some("\"not found\"".to_string()), None);
    let served = serve(&request("GET", "/x"), HandlerOutcome::Completed(Err((404, env))), 2, &p);
    assert_eq!(served.status, 404);
    assert_eq!(served.body, "{\"success\":false,\"error\":\"not found\"}");
    assert!(matches!(
        served.events[2],
        TraceEvent::SpanClose { level: Level::Info, class: StatusClass::ClientFailure, .. }
    ));
}

#[test]
fn reply_for_maps_outcomes() {
    let (s, r) = reply_for(HandlerOutcome::Fault);
    assert_eq!(s, 500);
    assert!(!r.success && r.message.is_none() && r.data.is_none() && r.error.is_none());
    let (s, r) = reply_for(HandlerOutcome::Completed(root_handler()));
    assert_eq!(s, 200);
    assert!(r.success);
}

#[test]
fn log_filter_refuses_directives_that_start_oddly() {
    assert!(directives_are_trim_safe("svc=debug,tower_http=info"));
    assert!(directives_are_trim_safe(""));
    assert!(directives_are_trim_safe("a,,b"));
    assert!(!directives_are_trim_safe(" \u{e9}=info"));
    assert!(!directives_are_trim_safe("\u{3000}a=info"));
    assert!(!directives_are_trim_safe("a, b"));
    assert_eq!(log_filter(Some(" \u{e9}=info".to_string()), "svc"), "tower_http=info,svc=info");
    assert_eq!(log_filter(Some("\u{3000}a=info".to_string()), "svc"), "tower_http=info,svc=info");
}

#[test]
fn ill_formed_results_are_answered_as_faults() {
    let both: UntypedResponse = Response {
        success: true,
        message: None,
        data: Some("1".to_string()),
        error: Some("2".to_string()),
    };
    let result = Ok(both);
    assert!(!result_is_wf(&result));
    let p = http_trace_policy();
    let served = serve(&request("GET", "/"), HandlerOutcome::Completed(result), 4, &p);
    assert_eq!(served.status, 500);
    assert_eq!(served.body, "{\"success\":false}");
    assert!(matches!(served.events[2], TraceEvent::SpanClose { level: Level::Error, .. }));

    let success_as_error: UntypedResponse = Response::ok(None, None);
    let (status, env) = reply_for(HandlerOutcome::Completed(Err((503, success_as_error))));
    assert_eq!(status, 500);
    assert!(!env.success && env.data.is_none() && env.error.is_none());
}

#[test]
fn server_error_reply_keeps_its_failure_envelope() {
    let env: UntypedResponse = Response::err(Some("\"db down\"".to_string()), Some("sorry".to_string()));
    let p = http_trace_policy();
    let served = serve(&request("GET", "/"), HandlerOutcome::Completed(Err((503, env))), 9, &p);
    assert_eq!(served.status, 503);
    assert_eq!(served.body, "{\"success\":false,\"message\":\"sorry\",\"error\":\"db down\"}");
    assert!(matches!(
        served.events[2],
        TraceEvent::SpanClose { level: Level::Error, class: StatusClass::ServerError, .. }
    ));
}
