//! NTRIP client glue: revision and state vocabularies, connection settings
//! with their defaults, the events the sans-I/O client machine reports, and
//! the machine itself. Request building and response parsing live in
//! `sidereon-core`.
use vstd::prelude::*;

use crate::error::{engine_error, invalid_label_message, invalid_label_text, type_error, BindingError, ErrorKind};
use crate::text::{str_eq, utf8_text};
use vstd::utf8::{decode_utf8, valid_utf8};
use sidereon_core::ntrip::NtripClientMachine as CoreNtripClientMachine;
use sidereon_core::ntrip::NtripConfig as CoreNtripConfig;
use sidereon_core::ntrip::NtripEvent as CoreNtripEvent;
use sidereon_core::ntrip::NtripRejection as CoreNtripRejection;
use sidereon_core::ntrip::NtripState as CoreNtripState;
use sidereon_core::ntrip::NtripVersion as CoreNtripVersion;

verus! {

/// NTRIP protocol revision.
#[derive(Clone, Copy, Debug, PartialEq, Eq, Structural)]
pub enum NtripVersion {
    Rev1,
    Rev2,
}

/// Lifecycle state of the NTRIP client machine.
#[derive(Clone, Copy, Debug, PartialEq, Eq, Structural)]
pub enum NtripState {
    Idle,
    AwaitingStatus,
    AwaitingHeaders,
    Streaming,
    Sourcetable,
    Closed,
}

/// The label of a revision.
pub open spec fn version_text(v: NtripVersion) -> Seq<char> {
    match v {
        NtripVersion::Rev1 => "rev1"@,
        NtripVersion::Rev2 => "rev2"@,
    }
}

/// Each `NtripVersion` has its own fixed label: Rev1 is "rev1", Rev2 is "rev2".
pub proof fn law_version_text_literals(v: NtripVersion)
    ensures
        v is Rev1 ==> version_text(v) == "rev1"@,
        v is Rev2 ==> version_text(v) == "rev2"@,
{
}

/// The revision a label names, if any.
pub open spec fn version_of_label(t: Seq<char>) -> Option<NtripVersion> {
    if t == "rev1"@ {
        Some(NtripVersion::Rev1)
    } else if t == "rev2"@ {
        Some(NtripVersion::Rev2)
    } else {
        None
    }
}

/// Each label names a fixed `NtripVersion`: "rev1" names Rev1, "rev2" names Rev2; no other text names one.
pub proof fn law_version_of_label_literals(t: Seq<char>)
    ensures
        version_of_label("rev1"@) == Some(NtripVersion::Rev1),
        version_of_label("rev2"@) == Some(NtripVersion::Rev2),
        version_of_label(t) is Some ==> (t == "rev1"@ || t == "rev2"@),
{
    reveal_strlit("rev1");
    reveal_strlit("rev2");
    assert("rev1"@.len() == 4);
    assert("rev2"@.len() == 4);
    assert("rev1"@[3] != "rev2"@[3]);
}

/// The label of a revision: `"rev1"` or `"rev2"`.
pub fn version_label(v: NtripVersion) -> (r: &'static str)
    ensures
        r@ == version_text(v),
        v is Rev1 ==> r@ == "rev1"@,
        v is Rev2 ==> r@ == "rev2"@,
{
    match v {
        NtripVersion::Rev1 => "rev1",
        NtripVersion::Rev2 => "rev2",
    }
}

/// Parses an optional revision label; absent means revision 2, and an
/// unknown label is a `TypeError`.
pub fn parse_version(label: Option<&str>) -> (r: Result<NtripVersion, BindingError>)
    ensures
        (label matches Some(s) && s@ == "rev1"@) ==> (r matches Ok(x) && x == NtripVersion::Rev1),
        (label matches Some(s) && s@ == "rev2"@) ==> (r matches Ok(x) && x == NtripVersion::Rev2),
        r matches Err(e) ==> (label matches Some(l) && e.message@ == invalid_label_text("NTRIP version"@, l@, ": expected \"rev1\" or \"rev2\""@)),
        match label {
            None => r matches Ok(v) && v == NtripVersion::Rev2,
            Some(l) => match version_of_label(l@) {
                Some(v) => r matches Ok(w) && w == v,
                None => r matches Err(e) && e.kind == ErrorKind::Type,
            },
        },
{
    proof {
        law_version_of_label_literals(Seq::empty());
    }
    match label {
        None => Ok(NtripVersion::Rev2),
        Some(l) => {
            if str_eq(l, "rev1") {
                Ok(NtripVersion::Rev1)
            } else if str_eq(l, "rev2") {
                Ok(NtripVersion::Rev2)
            } else {
                Err(type_error(invalid_label_message("NTRIP version", l, ": expected \"rev1\" or \"rev2\"")))
            }
        },
    }
}

/// Every revision label parses back to its revision.
pub proof fn lemma_version_label_roundtrip(v: NtripVersion)
    ensures
        version_of_label(version_text(v)) == Some(v),
{
    reveal_strlit("rev1");
    reveal_strlit("rev2");
    assert("rev1"@[3] != "rev2"@[3]);
}

/// The label of a machine state.
pub open spec fn state_text(s: NtripState) -> Seq<char> {
    match s {
        NtripState::Idle => "idle"@,
        NtripState::AwaitingStatus => "awaitingStatus"@,
        NtripState::AwaitingHeaders => "awaitingHeaders"@,
        NtripState::Streaming => "streaming"@,
        NtripState::Sourcetable => "sourcetable"@,
        NtripState::Closed => "closed"@,
    }
}

/// Each `NtripState` has its own fixed label: Idle is "idle", AwaitingStatus is "awaitingStatus", AwaitingHeaders is "awaitingHeaders", Streaming is "streaming", Sourcetable is "sourcetable", Closed is "closed".
pub proof fn law_state_text_literals(s: NtripState)
    ensures
        s is Idle ==> state_text(s) == "idle"@,
        s is AwaitingStatus ==> state_text(s) == "awaitingStatus"@,
        s is AwaitingHeaders ==> state_text(s) == "awaitingHeaders"@,
        s is Streaming ==> state_text(s) == "streaming"@,
        s is Sourcetable ==> state_text(s) == "sourcetable"@,
        s is Closed ==> state_text(s) == "closed"@,
{
}

/// The label of a machine state.
pub fn state_label(s: NtripState) -> (r: &'static str)
    ensures
        r@ == state_text(s),
        s is Idle ==> r@ == "idle"@,
        s is AwaitingStatus ==> r@ == "awaitingStatus"@,
        s is AwaitingHeaders ==> r@ == "awaitingHeaders"@,
        s is Streaming ==> r@ == "streaming"@,
        s is Sourcetable ==> r@ == "sourcetable"@,
        s is Closed ==> r@ == "closed"@,
{
    match s {
        NtripState::Idle => "idle",
        NtripState::AwaitingStatus => "awaitingStatus",
        NtripState::AwaitingHeaders => "awaitingHeaders",
        NtripState::Streaming => "streaming",
        NtripState::Sourcetable => "sourcetable",
        NtripState::Closed => "closed",
    }
}

/// Distinct machine states have distinct labels.
pub proof fn lemma_state_label_injective(a: NtripState, b: NtripState)
    ensures
        state_text(a) == state_text(b) ==> a == b,
{
    reveal_strlit("idle");
    reveal_strlit("awaitingStatus");
    reveal_strlit("awaitingHeaders");
    reveal_strlit("streaming");
    reveal_strlit("sourcetable");
    reveal_strlit("closed");
    assert("idle"@.len() == 4 && "awaitingStatus"@.len() == 14 && "awaitingHeaders"@.len() == 15);
    assert("streaming"@.len() == 9 && "sourcetable"@.len() == 11 && "closed"@.len() == 6);
}

/// Authentication scheme of a sourcetable record.
#[derive(Clone, Debug)]
pub enum StrAuth {
    NoAuth,
    Basic,
    Digest,
    Other(String),
}

/// The label of an authentication scheme; an unrecognised token is kept.
pub open spec fn auth_text(a: StrAuth) -> Seq<char> {
    match a {
        StrAuth::NoAuth => "none"@,
        StrAuth::Basic => "basic"@,
        StrAuth::Digest => "digest"@,
        StrAuth::Other(v) => v@,
    }
}

/// Each authentication scheme has its fixed label, and an unrecognised
/// token is kept as it was read.
pub proof fn law_auth_text_literals(a: StrAuth)
    ensures
        a is NoAuth ==> auth_text(a) == "none"@,
        a is Basic ==> auth_text(a) == "basic"@,
        a is Digest ==> auth_text(a) == "digest"@,
        (a matches StrAuth::Other(v) ==> auth_text(a) == v@),
{
}

/// The label of an authentication scheme.
pub fn auth_label(auth: &StrAuth) -> (r: String)
    ensures
        r@ == auth_text(*auth),
        *auth is NoAuth ==> r@ == "none"@,
        *auth is Basic ==> r@ == "basic"@,
        *auth is Digest ==> r@ == "digest"@,
        (*auth matches StrAuth::Other(v) ==> r@ == v@),
{
    match auth {
        StrAuth::NoAuth => "none".to_owned(),
        StrAuth::Basic => "basic".to_owned(),
        StrAuth::Digest => "digest".to_owned(),
        StrAuth::Other(value) => value.clone(),
    }
}


/// Why the caster or the machine refused a connection.
#[derive(Clone, Debug)]
pub enum NtripRejection {
    Unauthorized,
    MountpointNotFound,
    DigestRequired,
    CasterError { reason: String },
    UnexpectedContentType { content_type: String },
    HttpError { status: u16, reason: String },
    MalformedHandshake { prefix: Vec<u8> },
}

/// A rejection as the host sees it: a kind label and the fields that kind
/// carries, the others absent.
#[derive(Clone, Debug)]
pub struct RejectionJs {
    pub kind: &'static str,
    pub reason: Option<String>,
    pub status: Option<u16>,
    pub content_type: Option<String>,
    pub prefix: Option<Vec<u8>>,
}

/// The kind label of a rejection.
pub open spec fn rejection_kind_text(r: NtripRejection) -> Seq<char> {
    match r {
        NtripRejection::Unauthorized => "unauthorized"@,
        NtripRejection::MountpointNotFound => "mountpointNotFound"@,
        NtripRejection::DigestRequired => "digestRequired"@,
        NtripRejection::CasterError { .. } => "casterError"@,
        NtripRejection::UnexpectedContentType { .. } => "unexpectedContentType"@,
        NtripRejection::HttpError { .. } => "httpError"@,
        NtripRejection::MalformedHandshake { .. } => "malformedHandshake"@,
    }
}

/// Each `NtripRejection` has its own fixed label: Unauthorized is "unauthorized", MountpointNotFound is "mountpointNotFound", DigestRequired is "digestRequired", CasterError is "casterError", UnexpectedContentType is "unexpectedContentType", HttpError is "httpError", MalformedHandshake is "malformedHandshake".
pub proof fn law_rejection_kind_text_literals(r: NtripRejection)
    ensures
        r is Unauthorized ==> rejection_kind_text(r) == "unauthorized"@,
        r is MountpointNotFound ==> rejection_kind_text(r) == "mountpointNotFound"@,
        r is DigestRequired ==> rejection_kind_text(r) == "digestRequired"@,
        r is CasterError ==> rejection_kind_text(r) == "casterError"@,
        r is UnexpectedContentType ==> rejection_kind_text(r) == "unexpectedContentType"@,
        r is HttpError ==> rejection_kind_text(r) == "httpError"@,
        r is MalformedHandshake ==> rejection_kind_text(r) == "malformedHandshake"@,
{
}

/// Whether `r` is the host view of `rejection`: its kind label, and the
/// reason, status, content type or prefix exactly when the kind carries it.
pub open spec fn is_rejection_js_of(r: RejectionJs, rejection: NtripRejection) -> bool {
    &&& r.kind@ == rejection_kind_text(rejection)
    &&& match rejection {
        NtripRejection::CasterError { reason } => r.reason matches Some(x) && x@ == reason@,
        NtripRejection::HttpError { reason, .. } => r.reason matches Some(x) && x@ == reason@,
        _ => r.reason is None,
    }
    &&& match rejection {
        NtripRejection::HttpError { status, .. } => r.status == Some(status),
        _ => r.status is None,
    }
    &&& match rejection {
        NtripRejection::UnexpectedContentType { content_type } => r.content_type matches Some(x)
            && x@ == content_type@,
        _ => r.content_type is None,
    }
    &&& match rejection {
        NtripRejection::MalformedHandshake { prefix } => r.prefix matches Some(x) && x@ == prefix@,
        _ => r.prefix is None,
    }
}

/// The host view of a rejection: its kind label, and the reason, status,
/// content type or prefix exactly when the kind carries it.
pub fn rejection_js(rejection: NtripRejection) -> (r: RejectionJs)
    ensures
        is_rejection_js_of(r, rejection),
        r.kind@ == rejection_kind_text(rejection),
        rejection is Unauthorized ==> r.kind@ == "unauthorized"@,
        rejection is MountpointNotFound ==> r.kind@ == "mountpointNotFound"@,
        rejection is DigestRequired ==> r.kind@ == "digestRequired"@,
        rejection is CasterError ==> r.kind@ == "casterError"@,
        rejection is UnexpectedContentType ==> r.kind@ == "unexpectedContentType"@,
        rejection is HttpError ==> r.kind@ == "httpError"@,
        rejection is MalformedHandshake ==> r.kind@ == "malformedHandshake"@,
        match rejection {
            NtripRejection::CasterError { reason } => r.reason matches Some(x) && x@ == reason@,
            NtripRejection::HttpError { reason, .. } => r.reason matches Some(x) && x@ == reason@,
            _ => r.reason is None,
        },
        match rejection {
            NtripRejection::HttpError { status, .. } => r.status == Some(status),
            _ => r.status is None,
        },
        match rejection {
            NtripRejection::UnexpectedContentType { content_type } => r.content_type matches Some(x)
                && x@ == content_type@,
            _ => r.content_type is None,
        },
        match rejection {
            NtripRejection::MalformedHandshake { prefix } => r.prefix matches Some(x) && x@ == prefix@,
            _ => r.prefix is None,
        },
{
    match rejection {
        NtripRejection::Unauthorized => RejectionJs {
            kind: "unauthorized",
            reason: None,
            status: None,
            content_type: None,
            prefix: None,
        },
        NtripRejection::MountpointNotFound => RejectionJs {
            kind: "mountpointNotFound",
            reason: None,
            status: None,
            content_type: None,
            prefix: None,
        },
        NtripRejection::DigestRequired => RejectionJs {
            kind: "digestRequired",
            reason: None,
            status: None,
            content_type: None,
            prefix: None,
        },
        NtripRejection::CasterError { reason } => RejectionJs {
            kind: "casterError",
            reason: Some(reason),
            status: None,
            content_type: None,
            prefix: None,
        },
        NtripRejection::UnexpectedContentType { content_type } => RejectionJs {
            kind: "unexpectedContentType",
            reason: None,
            status: None,
            content_type: Some(content_type),
            prefix: None,
        },
        NtripRejection::HttpError { status, reason } => RejectionJs {
            kind: "httpError",
            reason: Some(reason),
            status: Some(status),
            content_type: None,
            prefix: None,
        },
        NtripRejection::MalformedHandshake { prefix } => RejectionJs {
            kind: "malformedHandshake",
            reason: None,
            status: None,
            content_type: None,
            prefix: Some(prefix),
        },
    }
}

/// The engine's parsed sourcetable, carried opaquely.
#[verifier::external_type_specification]
#[verifier::external_body]
pub struct ExNtripSourcetable(sidereon_core::ntrip::Sourcetable);

/// A protocol event of the client machine.
pub enum NtripEvent {
    Connected { version: NtripVersion, chunked: bool, headers: Vec<(String, String)> },
    Payload(Vec<u8>),
    SourcetableReceived(sidereon_core::ntrip::Sourcetable),
    Rejected(NtripRejection),
    StreamCorrupted { detail: String },
    StreamEnded,
}

/// Whether an event ends the connection.
pub open spec fn is_terminal_event(e: NtripEvent) -> bool {
    e is Rejected || e is StreamCorrupted || e is StreamEnded
}

/// An event as the host sees it: a kind label and the fields that kind
/// carries, the others absent.
pub struct NtripEventJs {
    pub kind: &'static str,
    pub version: Option<&'static str>,
    pub chunked: Option<bool>,
    pub headers: Option<Vec<(String, String)>>,
    pub payload: Option<Vec<u8>>,
    pub sourcetable: Option<sidereon_core::ntrip::Sourcetable>,
    pub rejection: Option<RejectionJs>,
    pub detail: Option<String>,
}

/// The kind label of an event.
pub open spec fn event_kind_text(e: NtripEvent) -> Seq<char> {
    match e {
        NtripEvent::Connected { .. } => "connected"@,
        NtripEvent::Payload(_) => "payload"@,
        NtripEvent::SourcetableReceived(_) => "sourcetable"@,
        NtripEvent::Rejected(_) => "rejected"@,
        NtripEvent::StreamCorrupted { .. } => "streamCorrupted"@,
        NtripEvent::StreamEnded => "streamEnded"@,
    }
}

/// Each `NtripEvent` has its own fixed label: Connected is "connected", Payload is "payload", SourcetableReceived is "sourcetable", Rejected is "rejected", StreamCorrupted is "streamCorrupted", StreamEnded is "streamEnded".
pub proof fn law_event_kind_text_literals(e: NtripEvent)
    ensures
        e is Connected ==> event_kind_text(e) == "connected"@,
        e is Payload ==> event_kind_text(e) == "payload"@,
        e is SourcetableReceived ==> event_kind_text(e) == "sourcetable"@,
        e is Rejected ==> event_kind_text(e) == "rejected"@,
        e is StreamCorrupted ==> event_kind_text(e) == "streamCorrupted"@,
        e is StreamEnded ==> event_kind_text(e) == "streamEnded"@,
{
}

/// Whether `r` is the host view of `event`: its kind label and exactly the
/// fields of that kind.
pub open spec fn is_event_js_of(r: NtripEventJs, event: NtripEvent) -> bool {
    &&& r.kind@ == event_kind_text(event)
    &&& match event {
        NtripEvent::Connected { version, chunked, headers } => {
            &&& r.version matches Some(v) && v@ == version_text(version)
            &&& r.chunked == Some(chunked)
            &&& r.headers matches Some(h) && h@ == headers@
        },
        _ => r.version is None && r.chunked is None && r.headers is None,
    }
    &&& match event {
        NtripEvent::Payload(p) => r.payload matches Some(x) && x@ == p@,
        _ => r.payload is None,
    }
    &&& match event {
        NtripEvent::SourcetableReceived(t) => r.sourcetable == Some(t),
        _ => r.sourcetable is None,
    }
    &&& match event {
        NtripEvent::Rejected(j) => r.rejection matches Some(x) && is_rejection_js_of(x, j),
        _ => r.rejection is None,
    }
    &&& match event {
        NtripEvent::StreamCorrupted { detail } => r.detail matches Some(x) && x@ == detail@,
        _ => r.detail is None,
    }
}

/// The host view of an event: its kind label and exactly the fields of that
/// kind.
pub fn event_js(event: NtripEvent) -> (r: NtripEventJs)
    ensures
        r.kind@ == event_kind_text(event),
        event is Connected ==> r.kind@ == "connected"@,
        event is Payload ==> r.kind@ == "payload"@,
        event is SourcetableReceived ==> r.kind@ == "sourcetable"@,
        event is Rejected ==> r.kind@ == "rejected"@,
        event is StreamCorrupted ==> r.kind@ == "streamCorrupted"@,
        event is StreamEnded ==> r.kind@ == "streamEnded"@,
        match event {
            NtripEvent::Connected { version, chunked, headers } => {
                &&& r.version matches Some(v) && v@ == version_text(version)
                &&& r.chunked == Some(chunked)
                &&& r.headers matches Some(h) && h@ == headers@
            },
            _ => r.version is None && r.chunked is None && r.headers is None,
        },
        match event {
            NtripEvent::Payload(p) => r.payload matches Some(x) && x@ == p@,
            _ => r.payload is None,
        },
        match event {
            NtripEvent::SourcetableReceived(t) => r.sourcetable == Some(t),
            _ => r.sourcetable is None,
        },
        match event {
            NtripEvent::Rejected(j) => r.rejection matches Some(x) && is_rejection_js_of(x, j),
            _ => r.rejection is None,
        },
        match event {
            NtripEvent::StreamCorrupted { detail } => r.detail matches Some(x) && x@ == detail@,
            _ => r.detail is None,
        },
{
    match event {
        NtripEvent::Connected { version, chunked, headers } => NtripEventJs {
            kind: "connected",
            version: Some(version_label(version)),
            chunked: Some(chunked),
            headers: Some(headers),
            payload: None,
            sourcetable: None,
            rejection: None,
            detail: None,
        },
        NtripEvent::Payload(payload) => NtripEventJs {
            kind: "payload",
            version: None,
            chunked: None,
            headers: None,
            payload: Some(payload),
            sourcetable: None,
            rejection: None,
            detail: None,
        },
        NtripEvent::SourcetableReceived(table) => NtripEventJs {
            kind: "sourcetable",
            version: None,
            chunked: None,
            headers: None,
            payload: None,
            sourcetable: Some(table),
            rejection: None,
            detail: None,
        },
        NtripEvent::Rejected(rejection) => NtripEventJs {
            kind: "rejected",
            version: None,
            chunked: None,
            headers: None,
            payload: None,
            sourcetable: None,
            rejection: Some(rejection_js(rejection)),
            detail: None,
        },
        NtripEvent::StreamCorrupted { detail } => NtripEventJs {
            kind: "streamCorrupted",
            version: None,
            chunked: None,
            headers: None,
            payload: None,
            sourcetable: None,
            rejection: None,
            detail: Some(detail),
        },
        NtripEvent::StreamEnded => NtripEventJs {
            kind: "streamEnded",
            version: None,
            chunked: None,
            headers: None,
            payload: None,
            sourcetable: None,
            rejection: None,
            detail: None,
        },
    }
}


/// Credentials as the host passes them.
#[derive(Clone, Debug)]
pub struct CredentialsInput {
    pub username: String,
    pub password: String,
}

/// Connection settings as the host passes them; absent fields take their
/// defaults. (The GGA pacing interval is handled by the host side.)
#[derive(Clone, Debug)]
pub struct ConfigInput {
    pub host: String,
    pub port: Option<u16>,
    pub mountpoint: Option<String>,
    pub version: Option<String>,
    pub credentials: Option<CredentialsInput>,
    pub user_agent_product: Option<String>,
}

/// Connection settings with every default resolved, except the product
/// name, which stays with the engine when absent.
#[derive(Clone, Debug)]
pub struct NtripSettings {
    pub host: String,
    pub port: u16,
    pub mountpoint: String,
    pub version: NtripVersion,
    pub credentials: Option<CredentialsInput>,
    pub user_agent_product: Option<String>,
}

/// Reads the port of `sidereon_core::ntrip::NtripConfig::default()`, which
/// the engine's source sets to 2101.
#[verifier::external_body]
fn core_default_port() -> (p: u16)
    ensures
        p == 2101,
{
    CoreNtripConfig::default().port
}

/// Resolves host connection settings: port 2101, an empty mountpoint and
/// revision 2 when absent; an unknown revision label is a `TypeError`.
pub fn config_from_input(input: ConfigInput) -> (r: Result<NtripSettings, BindingError>)
    ensures
        match input.version {
            None => r is Ok,
            Some(v) => (version_of_label(v@) is Some <==> r is Ok),
        },
        r matches Err(e) ==> e.kind == ErrorKind::Type,
        r matches Ok(s) ==> {
            &&& s.host@ == input.host@
            &&& s.port == (match input.port { Some(p) => p, None => 2101u16 })
            &&& s.mountpoint@ == (match input.mountpoint { Some(m) => m@, None => Seq::<char>::empty() })
            &&& s.version == (match input.version { Some(v) => version_of_label(v@).unwrap(), None => NtripVersion::Rev2 })
            &&& s.credentials == input.credentials
            &&& s.user_agent_product == input.user_agent_product
        },
{
    let version = match &input.version {
        Some(v) => parse_version(Some(v.as_str()))?,
        None => parse_version(None)?,
    };
    let port = match input.port {
        Some(p) => p,
        None => core_default_port(),
    };
    let mountpoint = match input.mountpoint {
        Some(m) => m,
        None => String::new(),
    };
    Ok(NtripSettings {
        host: input.host,
        port,
        mountpoint,
        version,
        credentials: input.credentials,
        user_agent_product: input.user_agent_product,
    })
}

/// The engine's NTRIP configuration, carried opaquely.
#[verifier::external_type_specification]
#[verifier::external_body]
pub struct ExCoreNtripConfig(CoreNtripConfig);

/// The engine's machine state, event and rejection types, carried opaquely.
#[verifier::external_type_specification]
#[verifier::external_body]
pub struct ExCoreNtripState(CoreNtripState);

#[verifier::external_type_specification]
#[verifier::external_body]
pub struct ExCoreNtripEvent(CoreNtripEvent);

#[verifier::external_type_specification]
#[verifier::external_body]
pub struct ExCoreNtripRejection(CoreNtripRejection);

/// The engine's NTRIP client machine, carried opaquely.
#[verifier::external_type_specification]
#[verifier::external_body]
pub struct ExCoreNtripClientMachine(CoreNtripClientMachine);

/// Whether `bytes` begins with `GET /` and ends with the blank line that
/// closes an HTTP request head.
pub open spec fn is_request_head(bytes: Seq<u8>) -> bool {
    &&& bytes.len() >= 9
    &&& bytes.subrange(0, 5) == seq![71u8, 69u8, 84u8, 32u8, 47u8]
    &&& bytes.subrange(bytes.len() - 4, bytes.len() as int) == seq![13u8, 10u8, 13u8, 10u8]
}

/// The request `sidereon_core::ntrip::NtripConfig::request_bytes` writes for a
/// configuration, or `None` where it refuses the configuration.
pub uninterp spec fn request_of_config(config: CoreNtripConfig) -> Option<Seq<u8>>;

/// Calls `sidereon_core::ntrip::NtripConfig::request_bytes`, a function of
/// the configuration alone, which validates it and writes
/// `GET /<mountpoint> HTTP/1.x`, the headers, and a closing blank line.
#[verifier::external_body]
fn core_request_bytes(config: &CoreNtripConfig) -> (r: Result<Vec<u8>, sidereon_core::Error>)
    ensures
        r is Ok <==> request_of_config(*config) is Some,
        r matches Ok(b) ==> request_of_config(*config) == Some(b@),
        r matches Ok(b) ==> is_request_head(b@),
{
    config.request_bytes()
}

/// The NTRIP connection request bytes for a configuration: the engine's
/// request, or an engine `Error` where it refuses the configuration.
pub fn ntrip_request_bytes(config: &CoreNtripConfig) -> (r: Result<Vec<u8>, BindingError>)
    ensures
        r is Ok <==> request_of_config(*config) is Some,
        r matches Ok(b) ==> request_of_config(*config) == Some(b@),
        r matches Ok(b) ==> is_request_head(b@),
        r matches Err(e) ==> e.kind == ErrorKind::Engine,
{
    match core_request_bytes(config) {
        Ok(b) => Ok(b),
        Err(e) => Err(engine_error(&e)),
    }
}

/// Converts the engine's machine state.
#[verifier::external_body]
fn state_from_core(state: CoreNtripState) -> NtripState {
    match state {
        CoreNtripState::Idle => NtripState::Idle,
        CoreNtripState::AwaitingStatus => NtripState::AwaitingStatus,
        CoreNtripState::AwaitingHeaders => NtripState::AwaitingHeaders,
        CoreNtripState::Streaming => NtripState::Streaming,
        CoreNtripState::Sourcetable => NtripState::Sourcetable,
        CoreNtripState::Closed => NtripState::Closed,
    }
}

/// Converts the engine's rejection, moving its fields.
#[verifier::external_body]
fn rejection_from_core(rejection: CoreNtripRejection) -> NtripRejection {
    match rejection {
        CoreNtripRejection::Unauthorized => NtripRejection::Unauthorized,
        CoreNtripRejection::MountpointNotFound => NtripRejection::MountpointNotFound,
        CoreNtripRejection::DigestRequired => NtripRejection::DigestRequired,
        CoreNtripRejection::CasterError { reason } => NtripRejection::CasterError { reason },
        CoreNtripRejection::UnexpectedContentType { content_type } => NtripRejection::UnexpectedContentType { content_type },
        CoreNtripRejection::HttpError { status, reason } => NtripRejection::HttpError { status, reason },
        CoreNtripRejection::MalformedHandshake { prefix } => NtripRejection::MalformedHandshake { prefix },
    }
}

/// Converts the engine's event, moving its fields.
#[verifier::external_body]
fn event_from_core(event: CoreNtripEvent) -> NtripEvent {
    match event {
        CoreNtripEvent::Connected(h) => NtripEvent::Connected {
            version: match h.version { CoreNtripVersion::Rev1 => NtripVersion::Rev1, CoreNtripVersion::Rev2 => NtripVersion::Rev2 },
            chunked: h.chunked,
            headers: h.headers,
        },
        CoreNtripEvent::Payload(p) => NtripEvent::Payload(p),
        CoreNtripEvent::Sourcetable(t) => NtripEvent::SourcetableReceived(t),
        CoreNtripEvent::Rejected(r) => NtripEvent::Rejected(rejection_from_core(r)),
        CoreNtripEvent::StreamCorrupted { detail } => NtripEvent::StreamCorrupted { detail },
        CoreNtripEvent::StreamEnded => NtripEvent::StreamEnded,
    }
}

/// Whether a list of events holds one that ends the connection.
pub open spec fn has_terminal_event(events: Seq<NtripEvent>) -> bool {
    exists|i: int| 0 <= i < events.len() && #[trigger] is_terminal_event(events[i])
}

/// The lifecycle state `sidereon_core::ntrip::NtripClientMachine::state`
/// reports for an engine machine.
pub uninterp spec fn engine_state(machine: CoreNtripClientMachine) -> NtripState;

/// The configuration an engine machine keeps for writing its request.
pub uninterp spec fn engine_config(machine: CoreNtripClientMachine) -> CoreNtripConfig;

/// The machine `sidereon_core::ntrip::NtripClientMachine::new` builds for a
/// configuration.
pub uninterp spec fn engine_machine_new(config: CoreNtripConfig) -> CoreNtripClientMachine;

/// What `sidereon_core::ntrip::NtripClientMachine::push` does to a machine
/// given the bytes: the machine afterwards and the events it returns.
pub uninterp spec fn engine_push(machine: CoreNtripClientMachine, bytes: Seq<u8>) -> (CoreNtripClientMachine, Seq<NtripEvent>);

/// What `sidereon_core::ntrip::NtripClientMachine::finish` does to a
/// machine: the machine afterwards and the events it returns.
pub uninterp spec fn engine_finish(machine: CoreNtripClientMachine) -> (CoreNtripClientMachine, Seq<NtripEvent>);

/// Creates `sidereon_core::ntrip::NtripClientMachine`, which starts idle.
#[verifier::external_body]
fn core_machine_new(config: CoreNtripConfig) -> (r: CoreNtripClientMachine)
    ensures
        r == engine_machine_new(config),
        engine_state(r) == NtripState::Idle,
        engine_config(r) == config,
{
    CoreNtripClientMachine::new(config)
}

/// Reads `NtripClientMachine::state`.
#[verifier::external_body]
fn core_machine_state(machine: &CoreNtripClientMachine) -> (r: NtripState)
    ensures
        r == engine_state(*machine),
{
    state_from_core(machine.state())
}

/// Calls `NtripClientMachine::connection_request`, which writes the request
/// of its kept configuration, moves the machine to awaiting-status on
/// success and returns before changing anything on a configuration error.
#[verifier::external_body]
fn core_machine_connection_request(machine: &mut CoreNtripClientMachine) -> (r: Result<Vec<u8>, sidereon_core::Error>)
    ensures
        r is Ok <==> request_of_config(engine_config(*old(machine))) is Some,
        r matches Ok(b) ==> request_of_config(engine_config(*old(machine))) == Some(b@),
        engine_config(*final(machine)) == engine_config(*old(machine)),
        r is Ok ==> engine_state(*final(machine)) == NtripState::AwaitingStatus,
        r is Err ==> *final(machine) == *old(machine),
        r matches Ok(b) ==> is_request_head(b@),
{
    machine.connection_request()
}

/// Calls `NtripClientMachine::push`, converting its events: a closed machine
/// returns no events and consumes nothing, and a rejection, a corrupted
/// stream or the end of the stream close it.
#[verifier::external_body]
fn core_machine_push(machine: &mut CoreNtripClientMachine, bytes: &[u8]) -> (r: Vec<NtripEvent>)
    ensures
        (*final(machine), r@) == engine_push(*old(machine), bytes@),
        engine_config(*final(machine)) == engine_config(*old(machine)),
        engine_state(*old(machine)) == NtripState::Closed ==> (r@.len() == 0 && *final(machine) == *old(machine)),
        has_terminal_event(r@) ==> engine_state(*final(machine)) == NtripState::Closed,
{
    machine.push(bytes).into_iter().map(event_from_core).collect()
}

/// Calls `NtripClientMachine::finish`, converting its events: outside the
/// sourcetable state it reports nothing and changes nothing; in it, the
/// machine closes.
#[verifier::external_body]
fn core_machine_finish(machine: &mut CoreNtripClientMachine) -> (r: Vec<NtripEvent>)
    ensures
        (*final(machine), r@) == engine_finish(*old(machine)),
        engine_config(*final(machine)) == engine_config(*old(machine)),
        engine_state(*old(machine)) != NtripState::Sourcetable ==> (r@.len() == 0 && *final(machine) == *old(machine)),
        engine_state(*old(machine)) == NtripState::Sourcetable ==> engine_state(*final(machine)) == NtripState::Closed,
{
    machine.finish().into_iter().map(event_from_core).collect()
}

/// Calls `NtripClientMachine::reset`, which restarts the machine idle with
/// (a clone of) the same configuration.
#[verifier::external_body]
fn core_machine_reset(machine: &mut CoreNtripClientMachine)
    ensures
        engine_state(*final(machine)) == NtripState::Idle,
        engine_config(*final(machine)) == engine_config(*old(machine)),
{
    machine.reset()
}

/// Sans-I/O NTRIP client: the caller moves bytes, the machine reports
/// protocol events. Its state is the engine machine's state.
pub struct NtripClientMachine {
    inner: CoreNtripClientMachine,
}

impl NtripClientMachine {
    /// The machine's current lifecycle state.
    pub closed spec fn current_state(&self) -> NtripState {
        engine_state(self.inner)
    }

    /// The engine machine inside.
    pub closed spec fn engine(&self) -> CoreNtripClientMachine {
        self.inner
    }

    /// A new idle machine for a configuration.
    pub fn new(config: CoreNtripConfig) -> (m: Self)
        ensures
            m.engine() == engine_machine_new(config),
            m.current_state() == NtripState::Idle,
            m.config() == config,
    {
        NtripClientMachine { inner: core_machine_new(config) }
    }

    /// The current state.
    pub fn state(&self) -> (s: NtripState)
        ensures
            s == self.current_state(),
    {
        core_machine_state(&self.inner)
    }

    /// The label of the current state.
    pub fn state_label(&self) -> (r: String)
        ensures
            r@ == state_text(self.current_state()),
    {
        state_label(self.state()).to_owned()
    }

    /// The configuration the machine writes its request from.
    pub closed spec fn config(&self) -> CoreNtripConfig {
        engine_config(self.inner)
    }

    /// The connection request of the machine's configuration; on success
    /// the machine awaits the caster's status line, on a configuration error
    /// it stays as it was.
    pub fn connection_request(&mut self) -> (r: Result<Vec<u8>, BindingError>)
        ensures
            r is Ok <==> request_of_config(old(self).config()) is Some,
            r matches Ok(b) ==> request_of_config(old(self).config()) == Some(b@),
            final(self).config() == old(self).config(),
            r matches Ok(b) ==> is_request_head(b@) && final(self).current_state() == NtripState::AwaitingStatus,
            r matches Err(e) ==> e.kind == ErrorKind::Engine && final(self).current_state() == old(self).current_state(),
    {
        match core_machine_connection_request(&mut self.inner) {
            Ok(b) => Ok(b),
            Err(e) => Err(engine_error(&e)),
        }
    }

    /// Feeds received bytes and returns the engine's resulting events in
    /// order, each in its host form; a closed machine returns nothing and
    /// stays as it is, and after a rejection, a corrupted stream or the
    /// stream's end the machine is closed.
    pub fn push(&mut self, bytes: &[u8]) -> (r: Vec<NtripEventJs>)
        ensures
            final(self).engine() == engine_push(old(self).engine(), bytes@).0,
            final(self).config() == old(self).config(),
            r@.len() == engine_push(old(self).engine(), bytes@).1.len(),
            forall|i: int| 0 <= i < r@.len() ==> is_event_js_of(#[trigger] r@[i], engine_push(old(self).engine(), bytes@).1[i]),
            old(self).current_state() == NtripState::Closed ==> (r@.len() == 0 && final(self).engine() == old(self).engine()),
            has_terminal_kind(r@) ==> final(self).current_state() == NtripState::Closed,
    {
        let events = core_machine_push(&mut self.inner, bytes);
        let ghost ev = events@;
        let r = events_js(events);
        proof {
            lemma_terminal_kind(ev, r@);
        }
        r
    }

    /// Completes a sourcetable response at end of input and returns the
    /// engine's events in their host form; outside the sourcetable state it
    /// reports nothing and changes nothing, in it the machine closes.
    pub fn finish(&mut self) -> (r: Vec<NtripEventJs>)
        ensures
            final(self).engine() == engine_finish(old(self).engine()).0,
            final(self).config() == old(self).config(),
            r@.len() == engine_finish(old(self).engine()).1.len(),
            forall|i: int| 0 <= i < r@.len() ==> is_event_js_of(#[trigger] r@[i], engine_finish(old(self).engine()).1[i]),
            old(self).current_state() != NtripState::Sourcetable ==> (r@.len() == 0 && final(self).engine() == old(self).engine()),
            old(self).current_state() == NtripState::Sourcetable ==> final(self).current_state() == NtripState::Closed,
            r@.len() > 0 ==> final(self).current_state() == NtripState::Closed,
    {
        let events = core_machine_finish(&mut self.inner);
        events_js(events)
    }

    /// Restarts the machine idle with the same configuration.
    pub fn reset(&mut self)
        ensures
            final(self).current_state() == NtripState::Idle,
            final(self).config() == old(self).config(),
    {
        core_machine_reset(&mut self.inner)
    }

    /// The engine machine, for GGA pacing (`try_gga_message`).
    pub fn gga_machine(&mut self) -> (m: &mut CoreNtripClientMachine)
        ensures
            *m == old(self).engine(),
            final(self).engine() == *final(m),
    {
        &mut self.inner
    }
}
/// Whether a list of host events holds one that ends the connection.
pub open spec fn has_terminal_kind(events: Seq<NtripEventJs>) -> bool {
    exists|i: int| 0 <= i < events.len() && #[trigger] is_terminal_kind(events[i].kind@)
}

/// The kind labels of the events that end a connection.
pub open spec fn is_terminal_kind(k: Seq<char>) -> bool {
    k == "rejected"@ || k == "streamCorrupted"@ || k == "streamEnded"@
}

/// An event's kind label is a terminal kind exactly when the event ends the
/// connection.
pub proof fn lemma_terminal_event_kind(e: NtripEvent)
    ensures
        is_terminal_kind(event_kind_text(e)) <==> is_terminal_event(e),
{
    reveal_strlit("connected");
    reveal_strlit("payload");
    reveal_strlit("sourcetable");
    reveal_strlit("rejected");
    reveal_strlit("streamCorrupted");
    reveal_strlit("streamEnded");
    assert("connected"@.len() == 9 && "payload"@.len() == 7 && "sourcetable"@.len() == 11);
    assert("rejected"@.len() == 8 && "streamCorrupted"@.len() == 15 && "streamEnded"@.len() == 11);
    assert("sourcetable"@[1] != "streamEnded"@[1]);
}

proof fn lemma_terminal_kind(events: Seq<NtripEvent>, js: Seq<NtripEventJs>)
    requires
        js.len() == events.len(),
        forall|i: int| 0 <= i < events.len() ==> js[i].kind@ == event_kind_text(#[trigger] events[i]),
    ensures
        has_terminal_kind(js) ==> has_terminal_event(events),
{
    if has_terminal_kind(js) {
        let i = choose|i: int| 0 <= i < js.len() && #[trigger] is_terminal_kind(js[i].kind@);
        lemma_terminal_event_kind(events[i]);
        assert(is_terminal_event(events[i]));
    }
}

/// The host views of a list of events, in order.
pub fn events_js(events: Vec<NtripEvent>) -> (r: Vec<NtripEventJs>)
    ensures
        r@.len() == events@.len(),
        forall|i: int| 0 <= i < events@.len() ==> r@[i].kind@ == event_kind_text(#[trigger] events@[i]),
        forall|i: int| 0 <= i < events@.len() ==> is_event_js_of(#[trigger] r@[i], events@[i]),
{
    let ghost original = events@;
    let mut out: Vec<NtripEventJs> = Vec::new();
    let mut rest = events;
    while rest.len() > 0
        invariant
            out@.len() + rest@.len() == original.len(),
            rest@ == original.subrange(out@.len() as int, original.len() as int),
            forall|i: int| 0 <= i < out@.len() ==> out@[i].kind@ == event_kind_text(#[trigger] original[i]),
            forall|i: int| 0 <= i < out@.len() ==> is_event_js_of(#[trigger] out@[i], original[i]),
        decreases rest@.len(),
    {
        let e = rest.remove(0);
        out.push(event_js(e));
    }
    out
}


/// The sourcetable `sidereon_core::ntrip::parse_sourcetable` reads from a
/// text.
pub uninterp spec fn sourcetable_of_text(text: Seq<char>) -> sidereon_core::ntrip::Sourcetable;

/// Calls `sidereon_core::ntrip::parse_sourcetable`, a function of the text
/// alone. Its source reads every line up to `ENDSOURCETABLE` into a record,
/// keeping lines it does not recognise raw, and never returns an error.
#[verifier::external_body]
fn core_parse_sourcetable(text: &str) -> (r: Result<sidereon_core::ntrip::Sourcetable, sidereon_core::Error>)
    ensures
        r is Ok,
        r matches Ok(t) ==> t == sourcetable_of_text(text@),
{
    sidereon_core::ntrip::parse_sourcetable(text)
}

/// Parses NTRIP sourcetable text given as UTF-8 bytes; malformed UTF-8 is a
/// `TypeError`; any UTF-8 text gives the engine's table for it.
pub fn parse_ntrip_sourcetable(bytes: &[u8]) -> (r: Result<sidereon_core::ntrip::Sourcetable, BindingError>)
    ensures
        r is Ok <==> valid_utf8(bytes@),
        r matches Ok(t) ==> t == sourcetable_of_text(decode_utf8(bytes@)),
        r matches Err(e) ==> e.kind == ErrorKind::Type,
{
    let text = utf8_text(bytes, "NTRIP sourcetable")?;
    match core_parse_sourcetable(text.as_str()) {
        Ok(t) => Ok(t),
        Err(e) => Err(engine_error(&e)),
    }
}

/// How many records a sourcetable holds (`records.len()`).
pub uninterp spec fn sourcetable_record_count(table: sidereon_core::ntrip::Sourcetable) -> nat;

/// How many of its records are STR stream records
/// (`Sourcetable::streams().count()`).
pub uninterp spec fn sourcetable_stream_count(table: sidereon_core::ntrip::Sourcetable) -> nat;

/// The text `Sourcetable::to_text` writes for a table, or `None` where it
/// returns an error.
pub uninterp spec fn sourcetable_rendering(table: sidereon_core::ntrip::Sourcetable) -> Option<Seq<char>>;

/// Reads the length of a sourcetable's `records`.
#[verifier::external_body]
fn core_sourcetable_record_count(table: &sidereon_core::ntrip::Sourcetable) -> (r: usize)
    ensures
        r == sourcetable_record_count(*table),
{
    table.records.len()
}

/// Counts `Sourcetable::streams`, which yields the STR records among the
/// records, so there are at most as many as there are records.
#[verifier::external_body]
fn core_sourcetable_stream_count(table: &sidereon_core::ntrip::Sourcetable) -> (r: usize)
    ensures
        r == sourcetable_stream_count(*table),
        r <= sourcetable_record_count(*table),
{
    table.streams().count()
}

/// Calls `Sourcetable::to_text`, which writes each record as a CRLF line
/// and ends with `ENDSOURCETABLE` and CRLF.
#[verifier::external_body]
fn core_sourcetable_text(table: &sidereon_core::ntrip::Sourcetable) -> (r: Result<String, sidereon_core::Error>)
    ensures
        r is Ok <==> sourcetable_rendering(*table) is Some,
        r matches Ok(t) ==> sourcetable_rendering(*table) == Some(t@),
        r matches Ok(t) ==> t@.len() >= 16 && t@.subrange(t@.len() - 16, t@.len() as int) == "ENDSOURCETABLE\r\n"@,
{
    table.to_text()
}

/// The counts and text of a sourcetable.
pub struct SourcetableSummary {
    pub record_count: usize,
    pub stream_count: usize,
    pub text: String,
}

/// A sourcetable's record and stream counts and its text; a table whose
/// records cannot be written back is an engine `Error`.
pub fn sourcetable_summary(table: &sidereon_core::ntrip::Sourcetable) -> (r: Result<SourcetableSummary, BindingError>)
    ensures
        r is Ok <==> sourcetable_rendering(*table) is Some,
        r matches Ok(s) ==> {
            &&& s.record_count == sourcetable_record_count(*table)
            &&& s.stream_count == sourcetable_stream_count(*table)
            &&& s.stream_count <= s.record_count
            &&& sourcetable_rendering(*table) == Some(s.text@)
        },
        r matches Err(e) ==> e.kind == ErrorKind::Engine,
{
    let record_count = core_sourcetable_record_count(table);
    let stream_count = core_sourcetable_stream_count(table);
    match core_sourcetable_text(table) {
        Ok(text) => Ok(SourcetableSummary { record_count, stream_count, text }),
        Err(e) => Err(engine_error(&e)),
    }
}

/// A host event with its sourcetable, when it carries one, counted and
/// written back as text.
pub struct RenderedEvent {
    pub event: NtripEventJs,
    pub sourcetable: Option<SourcetableSummary>,
}

/// Renders a host event for delivery: an event carrying a sourcetable gets
/// the table's counts and text, and fails with an engine `Error` exactly
/// when the table cannot be written back; every other event passes as it
/// is.
pub fn render_event(event: NtripEventJs) -> (r: Result<RenderedEvent, BindingError>)
    ensures
        r is Err <==> (event.sourcetable matches Some(t) && sourcetable_rendering(t) is None),
        r matches Err(e) ==> e.kind == ErrorKind::Engine,
        r matches Ok(x) ==> x.event == event,
        r matches Ok(x) ==> (event.sourcetable is None ==> x.sourcetable is None),
        r matches Ok(x) ==> (event.sourcetable matches Some(t) ==> (x.sourcetable matches Some(s) && {
            &&& s.record_count == sourcetable_record_count(t)
            &&& s.stream_count == sourcetable_stream_count(t)
            &&& sourcetable_rendering(t) == Some(s.text@)
        })),
{
    let sourcetable = match &event.sourcetable {
        Some(t) => match sourcetable_summary(t) {
            Ok(s) => Some(s),
            Err(e) => return Err(e),
        },
        None => None,
    };
    Ok(RenderedEvent { event, sourcetable })
}

/// A field of a sourcetable record: parsed, empty, or kept raw when it did
/// not parse.
#[derive(Clone, Debug)]
pub enum Field<T> {
    Parsed(T),
    Empty,
    Raw(String),
}

/// A sourcetable field as the host sees it: a kind label and the value or
/// the raw text.
#[derive(Clone, Debug)]
pub struct FieldJs<T> {
    pub kind: &'static str,
    pub value: Option<T>,
    pub raw: Option<String>,
}

/// The kind label of a field.
pub open spec fn field_kind_text<T>(f: Field<T>) -> Seq<char> {
    match f {
        Field::Parsed(_) => "parsed"@,
        Field::Empty => "empty"@,
        Field::Raw(_) => "raw"@,
    }
}

/// The host view of a sourcetable field.
pub fn field_js<T>(field: Field<T>) -> (r: FieldJs<T>)
    ensures
        r.kind@ == field_kind_text(field),
        match field {
            Field::Parsed(v) => r.value == Some(v) && r.raw is None,
            Field::Empty => r.value is None && r.raw is None,
            Field::Raw(s) => r.value is None && (r.raw matches Some(x) && x@ == s@),
        },
{
    match field {
        Field::Parsed(value) => FieldJs { kind: "parsed", value: Some(value), raw: None },
        Field::Empty => FieldJs { kind: "empty", value: None, raw: None },
        Field::Raw(raw) => FieldJs { kind: "raw", value: None, raw: Some(raw) },
    }
}

} // verus!
