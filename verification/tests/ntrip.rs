use sidereon_wasm::error::ErrorKind;
use sidereon_wasm::ntrip::{
    auth_label, config_from_input, event_js, field_js, ntrip_request_bytes,
    parse_ntrip_sourcetable, parse_version, rejection_js, render_event, sourcetable_summary, state_label, version_label, ConfigInput,
    CredentialsInput, Field, NtripClientMachine, NtripEvent, NtripRejection, NtripSettings,
    NtripState, NtripVersion, StrAuth,
};
use sidereon_core::ntrip::{NtripConfig, NtripCredentials, NtripVersion as CoreVersion};

fn input(version: Option<&str>) -> ConfigInput {
    ConfigInput {
        host: "caster.example.test".to_string(),
        port: None,
        mountpoint: Some("MOUNT".to_string()),
        version: version.map(|v| v.to_string()),
        credentials: None,
        user_agent_product: Some("sidereon-test/0".to_string()),
    }
}

fn ntrip_config(settings: NtripSettings) -> NtripConfig {
    let mut config = NtripConfig::default();
    config.host = settings.host;
    config.port = settings.port;
    config.mountpoint = settings.mountpoint;
    config.version = match settings.version {
        NtripVersion::Rev1 => CoreVersion::Rev1,
        NtripVersion::Rev2 => CoreVersion::Rev2,
    };
    config.credentials = settings.credentials.map(|c| NtripCredentials { username: c.username, password: c.password });
    if let Some(product) = settings.user_agent_product {
        config.user_agent_product = product;
    }
    config
}

fn machine(version: &str) -> NtripClientMachine {
    let settings = config_from_input(input(Some(version))).unwrap();
    NtripClientMachine::new(ntrip_config(settings))
}

#[test]
fn version_labels_and_default() {
    assert_eq!(parse_version(None).unwrap(), NtripVersion::Rev2);
    assert_eq!(parse_version(Some("rev1")).unwrap(), NtripVersion::Rev1);
    assert_eq!(version_label(NtripVersion::Rev2), "rev2");
    let e = parse_version(Some("rev3")).unwrap_err();
    assert_eq!(e.kind, ErrorKind::Type);
    assert_eq!(e.message, "invalid NTRIP version \"rev3\": expected \"rev1\" or \"rev2\"");
}

#[test]
fn state_and_auth_labels() {
    assert_eq!(state_label(NtripState::Idle), "idle");
    assert_eq!(state_label(NtripState::AwaitingStatus), "awaitingStatus");
    assert_eq!(state_label(NtripState::AwaitingHeaders), "awaitingHeaders");
    assert_eq!(state_label(NtripState::Streaming), "streaming");
    assert_eq!(state_label(NtripState::Sourcetable), "sourcetable");
    assert_eq!(state_label(NtripState::Closed), "closed");
    assert_eq!(auth_label(&StrAuth::NoAuth), "none");
    assert_eq!(auth_label(&StrAuth::Basic), "basic");
    assert_eq!(auth_label(&StrAuth::Digest), "digest");
    assert_eq!(auth_label(&StrAuth::Other("token".to_string())), "token");
}

#[test]
fn config_defaults_port_mountpoint_and_revision() {
    let mut i = input(None);
    i.mountpoint = None;
    let s = config_from_input(i).unwrap();
    assert_eq!(s.port, 2101);
    assert_eq!(s.mountpoint, "");
    assert_eq!(s.version, NtripVersion::Rev2);
    assert_eq!(s.host, "caster.example.test");
    let mut j = input(Some("rev1"));
    j.port = Some(8080);
    j.credentials = Some(CredentialsInput { username: "user".to_string(), password: "pass".to_string() });
    let t = config_from_input(j).unwrap();
    assert_eq!(t.port, 8080);
    assert_eq!(t.version, NtripVersion::Rev1);
    assert!(t.credentials.is_some());
    assert_eq!(config_from_input(input(Some("v2"))).unwrap_err().kind, ErrorKind::Type);
}

#[test]
fn request_head_is_a_get_with_blank_line() {
    let settings = config_from_input(input(Some("rev1"))).unwrap();
    let bytes = ntrip_request_bytes(&ntrip_config(settings)).unwrap();
    assert_eq!(bytes, b"GET /MOUNT HTTP/1.0\r\nUser-Agent: NTRIP sidereon-test/0\r\n\r\n".to_vec());
    let mut bad = input(Some("rev2"));
    bad.host = "caster\r\nX: y".to_string();
    let settings = config_from_input(bad).unwrap();
    assert_eq!(ntrip_request_bytes(&ntrip_config(settings)).unwrap_err().kind, ErrorKind::Engine);
}

#[test]
fn icy_stream_connects_then_streams_payload() {
    let mut m = machine("rev1");
    assert_eq!(m.state(), NtripState::Idle);
    let request = m.connection_request().unwrap();
    assert!(request.starts_with(b"GET /MOUNT"));
    assert_eq!(m.state(), NtripState::AwaitingStatus);
    let events = m.push(b"ICY 200 OK\r\n\r\nabc");
    assert_eq!(events.len(), 2);
    assert_eq!(events[0].kind, "connected");
    assert_eq!(events[0].version, Some("rev1"));
    assert_eq!(events[0].chunked, Some(false));
    assert_eq!(events[1].kind, "payload");
    assert_eq!(events[1].payload, Some(b"abc".to_vec()));
    assert_eq!(m.state(), NtripState::Streaming);
    assert_eq!(m.state_label(), "streaming");
    m.reset();
    assert_eq!(m.state(), NtripState::Idle);
}

#[test]
fn rejection_closes_the_machine() {
    let mut m = machine("rev2");
    m.connection_request().unwrap();
    let events = m.push(b"HTTP/1.1 404 Not Found\r\n\r\n");
    assert_eq!(events.len(), 1);
    assert_eq!(events[0].kind, "rejected");
    assert_eq!(events[0].rejection.as_ref().unwrap().kind, "mountpointNotFound");
    assert_eq!(m.state(), NtripState::Closed);
}

#[test]
fn rejection_fields_by_kind() {
    let r = rejection_js(NtripRejection::HttpError { status: 503, reason: "Busy".to_string() });
    assert_eq!(r.kind, "httpError");
    assert_eq!(r.status, Some(503));
    assert_eq!(r.reason.as_deref(), Some("Busy"));
    assert!(r.content_type.is_none() && r.prefix.is_none());
    let c = rejection_js(NtripRejection::UnexpectedContentType { content_type: "text/html".to_string() });
    assert_eq!(c.kind, "unexpectedContentType");
    assert_eq!(c.content_type.as_deref(), Some("text/html"));
    assert!(c.reason.is_none() && c.status.is_none());
    let m = rejection_js(NtripRejection::MalformedHandshake { prefix: vec![1, 2] });
    assert_eq!(m.prefix, Some(vec![1, 2]));
    assert_eq!(rejection_js(NtripRejection::DigestRequired).kind, "digestRequired");
}

#[test]
fn event_fields_by_kind() {
    let e = event_js(NtripEvent::StreamCorrupted { detail: "bad chunk".to_string() });
    assert_eq!(e.kind, "streamCorrupted");
    assert_eq!(e.detail.as_deref(), Some("bad chunk"));
    assert!(e.payload.is_none() && e.rejection.is_none() && e.version.is_none());
    let end = event_js(NtripEvent::StreamEnded);
    assert_eq!(end.kind, "streamEnded");
    assert!(end.detail.is_none());
    let c = event_js(NtripEvent::Connected {
        version: NtripVersion::Rev2,
        chunked: true,
        headers: vec![("Server".to_string(), "x".to_string())],
    });
    assert_eq!(c.version, Some("rev2"));
    assert_eq!(c.chunked, Some(true));
    assert_eq!(c.headers.unwrap().len(), 1);
}

#[test]
fn sourcetable_text_and_fields() {
    let table = parse_ntrip_sourcetable(b"FOO;bar\r\nENDSOURCETABLE\r\n").unwrap();
    assert_eq!(table.records.len(), 1);
    assert_eq!(parse_ntrip_sourcetable(&[0xFF, 0xFE]).unwrap_err().kind, ErrorKind::Type);
    let p = field_js(Field::Parsed(5u32));
    assert_eq!((p.kind, p.value, p.raw), ("parsed", Some(5), None));
    let r = field_js::<u32>(Field::Raw("x".to_string()));
    assert_eq!(r.kind, "raw");
    assert_eq!(r.raw.as_deref(), Some("x"));
    assert_eq!(field_js::<u32>(Field::Empty).kind, "empty");
}

#[test]
fn sourcetable_summary_counts_and_renders() {
    let text = b"STR;MOUNT1;Id;RTCM 3.2;;2;GPS;NET;USA;40.0;-105.0;1;0;sNTRIP;none;B;N;9600;\r\nCAS;caster.example.test;2101;Id;Op;0;USA;40.0;-105.0;;0;\r\nENDSOURCETABLE\r\n";
    let table = parse_ntrip_sourcetable(text).unwrap();
    let summary = sourcetable_summary(&table).unwrap();
    assert_eq!(summary.record_count, 2);
    assert_eq!(summary.stream_count, 1);
    assert!(summary.text.ends_with("ENDSOURCETABLE\r\n"));
    assert!(summary.text.starts_with("STR;MOUNT1;"));
    let empty = parse_ntrip_sourcetable(b"ENDSOURCETABLE\r\n").unwrap();
    let summary = sourcetable_summary(&empty).unwrap();
    assert_eq!((summary.record_count, summary.stream_count), (0, 0));
    assert_eq!(summary.text, "ENDSOURCETABLE\r\n");
}

#[test]
fn rejected_event_carries_rejection_fields() {
    let e = event_js(NtripEvent::Rejected(NtripRejection::HttpError { status: 503, reason: "busy".to_string() }));
    let r = e.rejection.unwrap();
    assert_eq!((r.kind, r.status, r.reason.as_deref()), ("httpError", Some(503), Some("busy")));
    assert_eq!((r.content_type, r.prefix), (None, None));
}

#[test]
fn machine_request_matches_config_request() {
    for version in ["rev1", "rev2"] {
        let settings = config_from_input(input(Some(version))).unwrap();
        let expected = ntrip_request_bytes(&ntrip_config(settings)).unwrap();
        let mut m = machine(version);
        assert_eq!(m.connection_request().unwrap(), expected);
    }
    let rev1 = String::from_utf8(ntrip_request_bytes(&ntrip_config(config_from_input(input(Some("rev1"))).unwrap())).unwrap()).unwrap();
    assert!(rev1.contains("HTTP/1.0"));
    let mut bad = input(None);
    bad.host = "bad\r\nhost".to_string();
    let bad_config = ntrip_config(config_from_input(bad).unwrap());
    assert_eq!(ntrip_request_bytes(&bad_config).unwrap_err().kind, ErrorKind::Engine);
    let mut m = NtripClientMachine::new(bad_config);
    assert_eq!(m.connection_request().unwrap_err().kind, ErrorKind::Engine);
    assert_eq!(m.state(), NtripState::Idle);
}

#[test]
fn rendered_events_carry_sourcetable_summary() {
    let table = parse_ntrip_sourcetable(b"FOO;bar\r\nENDSOURCETABLE\r\n").unwrap();
    let rendered = render_event(event_js(NtripEvent::SourcetableReceived(table))).unwrap();
    assert_eq!(rendered.event.kind, "sourcetable");
    let summary = rendered.sourcetable.unwrap();
    assert_eq!((summary.record_count, summary.stream_count), (1, 0));
    assert!(summary.text.ends_with("ENDSOURCETABLE\r\n"));
    let plain = render_event(event_js(NtripEvent::StreamEnded)).unwrap();
    assert!(plain.sourcetable.is_none());
    assert_eq!(plain.event.kind, "streamEnded");
}
