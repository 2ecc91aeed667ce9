//! The steps of opening a WebSocket. The network is the caller's: each step names the next thing to
//! do, and what came of it leads to the next step.

use vstd::prelude::*;
use vstd::utf8::*;

use crate::http_headers::{is_value, Header};
use crate::shared::AnyError;
use crate::url::parse_url;
use crate::websocket::{
    connect_error, connect_to_url, create_response, CreateResponse, ResourceId, WsConnect, WsError,
    WsUserAgent,
};

verus! {

/// What a script asks for, and what was found out about it.
#[derive(Debug)]
pub struct WsCreateRequest {
    pub url: String,
    /// The answer of the permissions for the URL.
    pub permission: Result<(), AnyError>,
    /// Where the script gave a handle by which it can cancel the connection, what looking the
    /// handle up gave.
    pub cancel_handle: Option<Result<(), AnyError>>,
    pub user_agent: WsUserAgent,
    pub protocols: String,
    pub headers: Option<Vec<(Vec<u8>, Vec<u8>)>>,
}

/// What the server answered to the handshake.
#[derive(Debug)]
pub struct HandshakeResponse {
    /// The value of the first `Sec-WebSocket-Protocol` header.
    pub protocol: Option<Vec<u8>>,
    /// The values of all `Sec-WebSocket-Extensions` headers.
    pub extensions: Vec<Vec<u8>>,
}

/// How a handshake failed.
#[derive(Debug)]
pub enum HandshakeFailure {
    /// The script cancelled the connection.
    Cancelled(AnyError),
    Failed(String),
}

/// What the caller is to do next.
#[derive(Debug)]
pub enum WsCreateAction {
    /// Connect to the address.
    Connect { addr: String },
    /// Make the configuration of encrypted connections.
    ConfigureTls,
    /// Encrypt the connection to the domain.
    StartTls { domain: String },
    /// Ask for a WebSocket with the headers.
    Handshake { headers: Vec<Header> },
    /// Add the socket to the resources, and close the handle by which it could be cancelled, if the
    /// script gave one.
    AddResource { close_cancel_handle: bool },
    Finish(Result<CreateResponse, WsError>),
}

/// What came of an action.
#[derive(Debug)]
pub enum WsCreateEvent {
    Connected(Result<(), AnyError>),
    TlsConfigured(Result<(), AnyError>),
    TlsStarted(Result<(), AnyError>),
    HandshakeDone(Result<HandshakeResponse, HandshakeFailure>),
    /// The number of the new resource.
    ResourceAdded(ResourceId),
}

/// Where the opening of a socket stands.
#[derive(Debug)]
pub enum WsCreatePhase {
    Connecting(WsConnect),
    ConfiguringTls(WsConnect),
    StartingTls(WsConnect),
    Handshaking,
    AddingResource(HandshakeResponse),
    Finished,
}

/// The opening of a socket.
#[derive(Debug)]
pub struct WsCreate {
    pub has_cancel_handle: bool,
    pub phase: WsCreatePhase,
}

/// The opening is over with this error.
pub open spec fn failed(phase: WsCreatePhase, action: WsCreateAction, error: Seq<Seq<char>>) -> bool {
    &&& phase is Finished
    &&& action matches WsCreateAction::Finish(result) && result matches Err(WsError::Other(e)) && e@
        == error
}

/// The opening is over with a `TypeError`.
pub open spec fn failed_by_type(
    phase: WsCreatePhase,
    action: WsCreateAction,
    message: Seq<char>,
) -> bool {
    &&& phase is Finished
    &&& action matches WsCreateAction::Finish(result) && result matches Err(e)
        && crate::websocket::is_type_error(e, message)
}

/// The opening goes on with the handshake.
pub open spec fn shakes_hands(
    connect: WsConnect,
    phase: WsCreatePhase,
    action: WsCreateAction,
) -> bool {
    &&& phase is Handshaking
    &&& action == (WsCreateAction::Handshake { headers: connect.headers })
}

fn fail(error: AnyError) -> (r: (WsCreatePhase, WsCreateAction))
    ensures
        failed(r.0, r.1, error@),
{
    (WsCreatePhase::Finished, WsCreateAction::Finish(Err(WsError::Other(error))))
}

impl WsCreate {
    /// The opening can begin: what is a URL is permitted, and its URI says where to connect to. Its
    /// scheme has to be one of WebSockets, where nothing before that ends the opening: an unknown
    /// handle, or what is no header.
    pub open spec fn can_start(request: WsCreateRequest, key: Seq<char>) -> bool {
        crate::url::parsed_url(request.url@) is Ok ==> {
            &&& request.permission is Ok
            &&& !(request.cancel_handle matches Some(Err(_))) ==> (
            crate::http_headers::parsed_uri(request.url@) matches Ok(uri) ==> {
                &&& crate::websocket::has_authority(uri)
                &&& {
                    &&& crate::websocket::all_script_headers(request.headers) is Ok
                    &&& crate::websocket::handshake_values_are_valid(
                        request.user_agent.0@,
                        crate::websocket::host_of(uri.authority->Some_0),
                        key,
                        request.protocols@,
                    )
                } ==> crate::websocket::has_ws_scheme(uri)
            })
        }
    }

    /// The first step of an opening that can begin, with a key for the handshake: what is wrong with
    /// the request ends it, and otherwise the connection is made.
    pub open spec fn starts(
        request: WsCreateRequest,
        key: Seq<char>,
        phase: WsCreatePhase,
        action: WsCreateAction,
    ) -> bool {
        match (crate::url::parsed_url(request.url@), request.cancel_handle) {
            (Err(cause), _) => failed(phase, action, seq![cause]),
            (Ok(_), Some(Err(e))) => failed(phase, action, e@),
            (Ok(_), _) => match crate::http_headers::parsed_uri(request.url@) {
                Err(message) => failed(phase, action, seq![message]),
                Ok(uri) => match crate::websocket::all_script_headers(request.headers) {
                    Err(message) => failed_by_type(phase, action, message),
                    Ok(added) => if crate::websocket::handshake_values_are_valid(
                        request.user_agent.0@,
                        crate::websocket::host_of(uri.authority->Some_0),
                        key,
                        request.protocols@,
                    ) {
                        &&& phase matches WsCreatePhase::Connecting(connect)
                            && crate::websocket::connects(
                            connect,
                            uri,
                            request.user_agent.0@,
                            key,
                            request.protocols@,
                            added,
                        )
                        &&& action matches WsCreateAction::Connect { addr } && addr
                            == phase->Connecting_0.addr
                    } else {
                        failed(phase, action, seq!["failed to parse header value"@])
                    },
                },
            },
        }
    }

    /// The event answers the action that the opening waits for. What the server agreed to has to be
    /// text.
    pub open spec fn accepts(self, event: WsCreateEvent) -> bool {
        match (self.phase, event) {
            (WsCreatePhase::Connecting(_), WsCreateEvent::Connected(_)) => true,
            (WsCreatePhase::ConfiguringTls(_), WsCreateEvent::TlsConfigured(_)) => true,
            (WsCreatePhase::StartingTls(_), WsCreateEvent::TlsStarted(_)) => true,
            (WsCreatePhase::Handshaking, WsCreateEvent::HandshakeDone(_)) => true,
            (WsCreatePhase::AddingResource(response), WsCreateEvent::ResourceAdded(_)) => {
                &&& response.protocol matches Some(value) ==> crate::http_headers::is_header_text(
                    value@,
                )
                &&& crate::websocket::are_texts(response.extensions@)
            },
            _ => false,
        }
    }

    /// The step that an accepted event leads to.
    pub open spec fn steps_to(
        self,
        event: WsCreateEvent,
        phase: WsCreatePhase,
        action: WsCreateAction,
    ) -> bool {
        match (self.phase, event) {
            (WsCreatePhase::Connecting(connect), WsCreateEvent::Connected(result)) => match result {
                Err(e) => failed(phase, action, e@),
                Ok(_) => if connect.tls {
                    &&& phase == WsCreatePhase::ConfiguringTls(connect)
                    &&& action is ConfigureTls
                } else {
                    shakes_hands(connect, phase, action)
                },
            },
            (WsCreatePhase::ConfiguringTls(connect), WsCreateEvent::TlsConfigured(result)) => {
                match result {
                    Err(e) => failed(phase, action, e@),
                    Ok(_) => if is_server_name(connect.domain@) {
                        &&& phase == WsCreatePhase::StartingTls(connect)
                        &&& action == (WsCreateAction::StartTls { domain: connect.domain })
                    } else {
                        &&& phase is Finished
                        &&& action == WsCreateAction::Finish(
                            Err(WsError::InvalidHostname(connect.domain)),
                        )
                    },
                }
            },
            (WsCreatePhase::StartingTls(connect), WsCreateEvent::TlsStarted(result)) => match result {
                Err(e) => failed(phase, action, e@),
                Ok(_) => shakes_hands(connect, phase, action),
            },
            (WsCreatePhase::Handshaking, WsCreateEvent::HandshakeDone(result)) => match result {
                Err(HandshakeFailure::Cancelled(e)) => failed(phase, action, e@),
                Err(HandshakeFailure::Failed(cause)) => {
                    &&& phase is Finished
                    &&& action matches WsCreateAction::Finish(result) && result matches Err(
                        WsError::Network(e),
                    ) && e.msg@ == "failed to connect to WebSocket: "@ + cause@
                },
                Ok(response) => {
                    &&& phase == WsCreatePhase::AddingResource(response)
                    &&& action == (WsCreateAction::AddResource {
                        close_cancel_handle: self.has_cancel_handle,
                    })
                },
            },
            (WsCreatePhase::AddingResource(response), WsCreateEvent::ResourceAdded(rid)) => {
                &&& phase is Finished
                &&& action matches WsCreateAction::Finish(result) && result matches Ok(created) && {
                    &&& created.rid == rid
                    &&& created.protocol@ == match response.protocol {
                        Some(value) => crate::http_headers::ascii_text(value@),
                        None => ""@,
                    }
                    &&& created.extensions@ == crate::websocket::joined_values(
                        response.extensions@,
                        response.extensions@.len(),
                    )
                }
            },
            _ => false,
        }
    }

    /// Goes on after an action. `None` where the opening does not accept the event.
    pub fn step(self, event: WsCreateEvent) -> (r: Option<(WsCreate, WsCreateAction)>)
        ensures
            r is Some <==> self.accepts(event),
            r matches Some((next, action)) ==> {
                &&& next.has_cancel_handle == self.has_cancel_handle
                &&& self.steps_to(event, next.phase, action)
            },
    {
        let has_cancel_handle = self.has_cancel_handle;
        let (phase, action) = match (self.phase, event) {
            (WsCreatePhase::Connecting(connect), WsCreateEvent::Connected(result)) => match result {
                Err(e) => fail(e),
                Ok(_) => if connect.tls {
                    (WsCreatePhase::ConfiguringTls(connect), WsCreateAction::ConfigureTls)
                } else {
                    (
                        WsCreatePhase::Handshaking,
                        WsCreateAction::Handshake { headers: connect.headers },
                    )
                },
            },
            (WsCreatePhase::ConfiguringTls(connect), WsCreateEvent::TlsConfigured(result)) => {
                match result {
                    Err(e) => fail(e),
                    Ok(_) => tls_step(is_server_name_with_rustls(connect.domain.as_str()), connect),
                }
            },
            (WsCreatePhase::StartingTls(connect), WsCreateEvent::TlsStarted(result)) => match result {
                Err(e) => fail(e),
                Ok(_) => (
                    WsCreatePhase::Handshaking,
                    WsCreateAction::Handshake { headers: connect.headers },
                ),
            },
            (WsCreatePhase::Handshaking, WsCreateEvent::HandshakeDone(result)) => match result {
                Err(HandshakeFailure::Cancelled(e)) => fail(e),
                Err(HandshakeFailure::Failed(cause)) => (
                    WsCreatePhase::Finished,
                    WsCreateAction::Finish(Err(connect_error(cause.as_str()))),
                ),
                Ok(response) => (
                    WsCreatePhase::AddingResource(response),
                    WsCreateAction::AddResource { close_cancel_handle: has_cancel_handle },
                ),
            },
            (WsCreatePhase::AddingResource(response), WsCreateEvent::ResourceAdded(rid)) => {
                if !response_is_text(&response) {
                    return None;
                }
                let created = create_response(rid, response.protocol, &response.extensions);
                (WsCreatePhase::Finished, WsCreateAction::Finish(Ok(created)))
            },
            _ => {
                return None;
            },
        };
        Some((WsCreate { has_cancel_handle, phase }, action))
    }
}

/// The host is one that an encrypted connection can be made to: what
/// `rustls_pki_types::ServerName::try_from` says about its text.
pub uninterp spec fn is_server_name(domain: Seq<char>) -> bool;

/// Calls `rustls_pki_types::ServerName::try_from`: whether the text is a DNS name or an IP address,
/// which is a function of the text.
#[verifier::external_body]
fn is_server_name_with_rustls(domain: &str) -> (r: bool)
    ensures
        r == is_server_name(domain@),
{
    tokio_rustls::rustls::pki_types::ServerName::try_from(domain).is_ok()
}

/// The step to the encryption of a connection, given whether its host is one that it can be made to.
pub fn tls_step(is_valid_name: bool, connect: WsConnect) -> (r: (WsCreatePhase, WsCreateAction))
    ensures
        is_valid_name ==> {
            &&& r.0 == WsCreatePhase::StartingTls(connect)
            &&& r.1 == (WsCreateAction::StartTls { domain: connect.domain })
        },
        !is_valid_name ==> {
            &&& r.0 is Finished
            &&& r.1 == WsCreateAction::Finish(Err(WsError::InvalidHostname(connect.domain)))
        },
{
    if is_valid_name {
        let domain = connect.domain.clone();
        (WsCreatePhase::StartingTls(connect), WsCreateAction::StartTls { domain })
    } else {
        let error = WsError::InvalidHostname(connect.domain);
        (WsCreatePhase::Finished, WsCreateAction::Finish(Err(error)))
    }
}

/// A digit of base64.
pub open spec fn is_base64_digit(c: char) -> bool {
    'A' <= c <= 'Z' || 'a' <= c <= 'z' || '0' <= c <= '9' || c == '+' || c == '/'
}

/// A key for the handshake: sixteen bytes in base64.
pub open spec fn is_handshake_key(key: Seq<char>) -> bool {
    &&& key.len() == 24
    &&& forall|i: int| 0 <= i < 22 ==> is_base64_digit(#[trigger] key[i])
    &&& key[22] == '=' && key[23] == '='
}

/// Calls `fastwebsockets::handshake::generate_key`: sixteen random bytes in base64.
#[verifier::external_body]
fn random_key() -> (r: String)
    ensures
        is_handshake_key(r@),
{
    fastwebsockets::handshake::generate_key()
}

/// A key for the handshake is a header value.
proof fn handshake_key_is_header_value(key: Seq<char>)
    requires
        is_handshake_key(key),
    ensures
        crate::http_headers::is_header_value(encode_utf8(key)),
{
    assert(is_ascii_chars(key)) by {
        assert forall|i: int| 0 <= i < key.len() implies '\0' <= #[trigger] key[i] <= '\u{7f}' by {
            assert(i < 22 ==> is_base64_digit(key[i]));
        }
    }
    is_ascii_chars_encode_utf8(key);
    assert forall|i: int| 0 <= i < encode_utf8(key).len() implies 32 <= #[trigger] encode_utf8(key)[i]
        < 127 by {
        assert(i < 22 ==> is_base64_digit(key[i]));
        assert(key[i] as u8 == encode_utf8(key)[i]);
    }
}

/// Whether an opening can begin does not depend on its key for the handshake.
pub proof fn every_key_can_start(request: WsCreateRequest, a: Seq<char>, b: Seq<char>)
    requires
        is_handshake_key(a),
        is_handshake_key(b),
    ensures
        WsCreate::can_start(request, a) == WsCreate::can_start(request, b),
{
    handshake_key_is_header_value(a);
    handshake_key_is_header_value(b);
}

/// Begins to open a socket, with a new random key for the handshake. `None` where it cannot begin:
/// the permission has to be asked for, and given, before.
pub fn op_ws_create(request: WsCreateRequest) -> (r: Option<(WsCreate, WsCreateAction)>)
    ensures
        forall|key: Seq<char>|
            is_handshake_key(key) ==> (r is Some <==> #[trigger] WsCreate::can_start(request, key)),
        r matches Some((create, action)) ==> {
            &&& create.has_cancel_handle == (request.cancel_handle is Some)
            &&& exists|key: Seq<char>|
                is_handshake_key(key) && #[trigger] WsCreate::starts(
                    request,
                    key,
                    create.phase,
                    action,
                )
        },
{
    let key = random_key();
    proof {
        assert forall|other: Seq<char>|
            is_handshake_key(other) implies #[trigger] WsCreate::can_start(request, other)
            == WsCreate::can_start(request, key@) by {
            every_key_can_start(request, other, key@);
        }
    }
    ws_create_with_key(request, key.as_str())
}

/// Begins to open a socket with the given key for the handshake. `None` where it cannot begin.
pub fn ws_create_with_key(request: WsCreateRequest, key: &str) -> (r: Option<
    (WsCreate, WsCreateAction),
>)
    ensures
        r is Some <==> WsCreate::can_start(request, key@),
        r matches Some((create, action)) ==> {
            &&& create.has_cancel_handle == (request.cancel_handle is Some)
            &&& WsCreate::starts(request, key@, create.phase, action)
        },
{
    let has_cancel_handle = request.cancel_handle.is_some();
    if let Err(cause) = parse_url(request.url.as_str()) {
        let (phase, action) = fail(AnyError::new(cause));
        return Some((WsCreate { has_cancel_handle, phase }, action));
    }
    if request.permission.is_err() {
        return None;
    }
    if let Some(Err(e)) = request.cancel_handle {
        let (phase, action) = fail(e);
        return Some((WsCreate { has_cancel_handle, phase }, action));
    }
    let connect = match connect_to_url(
        request.url.as_str(),
        &request.user_agent,
        key,
        request.protocols.as_str(),
        request.headers,
    ) {
        Some(connect) => connect,
        None => {
            return None;
        },
    };
    let (phase, action) = match connect {
        Err(e) => (WsCreatePhase::Finished, WsCreateAction::Finish(Err(e))),
        Ok(connect) => {
            let addr = connect.addr.clone();
            (WsCreatePhase::Connecting(connect), WsCreateAction::Connect { addr })
        },
    };
    Some((WsCreate { has_cancel_handle, phase }, action))
}

/// Whether what the server agreed to is text.
fn response_is_text(response: &HandshakeResponse) -> (r: bool)
    ensures
        r == ((response.protocol matches Some(value) ==> crate::http_headers::is_header_text(value@))
            && crate::websocket::are_texts(response.extensions@)),
{
    if let Some(value) = &response.protocol {
        if !is_text(value) {
            return false;
        }
    }
    let mut i: usize = 0;
    while i < response.extensions.len()
        invariant
            i <= response.extensions.len(),
            forall|k: int|
                0 <= k < i ==> crate::http_headers::is_header_text(
                    (#[trigger] response.extensions@[k])@,
                ),
        decreases response.extensions.len() - i,
    {
        if !is_text(&response.extensions[i]) {
            return false;
        }
        i += 1;
    }
    true
}

fn is_text(value: &Vec<u8>) -> (r: bool)
    ensures
        r == crate::http_headers::is_header_text(value@),
{
    is_value(value.as_slice()) && crate::http_headers::header_text(value.as_slice()).is_some()
}

/// How far the opening of a socket is.
pub open spec fn progress(phase: WsCreatePhase) -> nat {
    match phase {
        WsCreatePhase::Connecting(_) => 0,
        WsCreatePhase::ConfiguringTls(_) => 1,
        WsCreatePhase::StartingTls(_) => 2,
        WsCreatePhase::Handshaking => 3,
        WsCreatePhase::AddingResource(_) => 4,
        WsCreatePhase::Finished => 5,
    }
}

/// Every step brings the opening nearer to its end, which is the only place where it has a result:
/// it comes to its end after at most five steps.
pub proof fn opening_always_advances(
    create: WsCreate,
    event: WsCreateEvent,
    phase: WsCreatePhase,
    action: WsCreateAction,
)
    requires
        create.accepts(event),
        create.steps_to(event, phase, action),
    ensures
        progress(create.phase) < progress(phase) <= 5,
        action is Finish <==> phase is Finished,
{
}

/// A connection is being encrypted only where the URI asks for it.
pub open spec fn encrypts_as_asked(phase: WsCreatePhase) -> bool {
    match phase {
        WsCreatePhase::ConfiguringTls(connect) => connect.tls,
        WsCreatePhase::StartingTls(connect) => connect.tls,
        _ => true,
    }
}

/// A connection is encrypted exactly where the URI asks for it, and before the handshake.
pub proof fn handshake_follows_the_scheme(
    create: WsCreate,
    event: WsCreateEvent,
    phase: WsCreatePhase,
    action: WsCreateAction,
)
    requires
        create.accepts(event),
        create.steps_to(event, phase, action),
        encrypts_as_asked(create.phase),
    ensures
        encrypts_as_asked(phase),
        action is Handshake ==> match create.phase {
            WsCreatePhase::Connecting(connect) => !connect.tls,
            WsCreatePhase::StartingTls(connect) => connect.tls,
            _ => false,
        },
{
}

/// A socket is opened step by step: the connection, its encryption where the URI asks for it, the
/// handshake with the headers of the request, and the resource. Each step hands on what the steps before
/// it have decided.
pub proof fn opening_goes_step_by_step(
    create: WsCreate,
    event: WsCreateEvent,
    next: WsCreate,
    action: WsCreateAction,
)
    requires
        call_ensures(WsCreate::step, (create, event), Some((next, action))),
    ensures
        next.has_cancel_handle == create.has_cancel_handle,
        match (create.phase, event) {
            (WsCreatePhase::Connecting(connect), WsCreateEvent::Connected(Ok(_))) => {
                &&& connect.tls ==> action is ConfigureTls && next.phase
                    == WsCreatePhase::ConfiguringTls(connect)
                &&& !connect.tls ==> action == (WsCreateAction::Handshake {
                    headers: connect.headers,
                }) && next.phase is Handshaking
            },
            (WsCreatePhase::ConfiguringTls(connect), WsCreateEvent::TlsConfigured(Ok(_))) => {
                &&& is_server_name(connect.domain@) ==> action == (WsCreateAction::StartTls {
                    domain: connect.domain,
                }) && next.phase == WsCreatePhase::StartingTls(connect)
                &&& !is_server_name(connect.domain@) ==> action == WsCreateAction::Finish(
                    Err(WsError::InvalidHostname(connect.domain)),
                )
            },
            (WsCreatePhase::StartingTls(connect), WsCreateEvent::TlsStarted(Ok(_))) => action == (
            WsCreateAction::Handshake { headers: connect.headers }) && next.phase is Handshaking,
            (
                WsCreatePhase::Handshaking,
                WsCreateEvent::HandshakeDone(Ok(response)),
            ) => next.phase == WsCreatePhase::AddingResource(response) && action == (
            WsCreateAction::AddResource { close_cancel_handle: create.has_cancel_handle }),
            (WsCreatePhase::AddingResource(response), WsCreateEvent::ResourceAdded(rid)) => {
                &&& next.phase is Finished
                &&& action matches WsCreateAction::Finish(result) && result matches Ok(created)
                    && created.rid == rid
            },
            _ => next.phase is Finished && (action matches WsCreateAction::Finish(result)
                && result is Err),
        },
{
}

/// A step that fails ends the opening with its error; a handshake that fails is a network error with the
/// cause, unless the script cancelled the connection.
pub proof fn failed_step_ends_the_opening(
    create: WsCreate,
    event: WsCreateEvent,
    error: AnyError,
    next: WsCreate,
    action: WsCreateAction,
)
    requires
        call_ensures(WsCreate::step, (create, event), Some((next, action))),
        event == WsCreateEvent::Connected(Err(error)) || event == WsCreateEvent::TlsConfigured(
            Err(error),
        ) || event == WsCreateEvent::TlsStarted(Err(error)) || event
            == WsCreateEvent::HandshakeDone(Err(HandshakeFailure::Cancelled(error))),
    ensures
        next.phase is Finished,
        action matches WsCreateAction::Finish(result) && result matches Err(WsError::Other(e)) && e@
            == error@,
{
}

/// What a handshake fails with is a network error that names the cause.
pub proof fn failed_handshake_is_a_network_error(
    create: WsCreate,
    cause: String,
    next: WsCreate,
    action: WsCreateAction,
)
    requires
        call_ensures(
            WsCreate::step,
            (create, WsCreateEvent::HandshakeDone(Err(HandshakeFailure::Failed(cause)))),
            Some((next, action)),
        ),
    ensures
        next.phase is Finished,
        action matches WsCreateAction::Finish(result) && result matches Err(WsError::Network(e))
            && e.msg@ == "failed to connect to WebSocket: "@ + cause@,
{
}

/// The protocol and the extensions that the script learns are those that the server agreed to; without a
/// header for the protocol it is empty.
pub proof fn agreement_is_learned(
    response: HandshakeResponse,
    has_cancel_handle: bool,
    rid: ResourceId,
    next: WsCreate,
    action: WsCreateAction,
)
    requires
        call_ensures(
            WsCreate::step,
            (
                WsCreate { has_cancel_handle, phase: WsCreatePhase::AddingResource(response) },
                WsCreateEvent::ResourceAdded(rid),
            ),
            Some((next, action)),
        ),
    ensures
        action matches WsCreateAction::Finish(result) && result matches Ok(created) && {
            &&& created.rid == rid
            &&& response.protocol is None ==> created.protocol@.len() == 0
            &&& response.protocol matches Some(value) ==> created.protocol@.len() == value@.len()
                && forall|i: int|
                0 <= i < value@.len() ==> #[trigger] created.protocol@[i] == value@[i] as char
            &&& created.extensions@ == response.extensions@.map_values(
                |v: Vec<u8>| v@.map_values(|b: u8| b as char),
            ).flatten()
        },
{
    reveal_strlit("");
    crate::websocket::extensions_are_joined(response.extensions@, response.extensions@.len());
    assert(response.extensions@.take(response.extensions@.len() as int) =~= response.extensions@);
}

/// What is wrong with a request ends the opening in this order: what is no URL, an unknown handle, what is
/// no URI, the script's headers, and the texts of the handshake. Where nothing is wrong, the connection
/// goes to the host and the port of the URI.
pub proof fn wrong_request_ends_the_opening(
    request: WsCreateRequest,
    key: &str,
    create: WsCreate,
    action: WsCreateAction,
)
    requires
        call_ensures(ws_create_with_key, (request, key), Some((create, action))),
    ensures
        create.has_cancel_handle <==> request.cancel_handle is Some,
        match crate::url::parsed_url(request.url@) {
            Err(cause) => action matches WsCreateAction::Finish(result) && result matches Err(
                WsError::Other(e),
            ) && e@ == seq![cause],
            Ok(_) => request.permission is Ok && match request.cancel_handle {
                Some(Err(unknown)) => action matches WsCreateAction::Finish(result)
                    && result matches Err(WsError::Other(e)) && e@ == unknown@,
                _ => match crate::http_headers::parsed_uri(request.url@) {
                    Err(message) => action matches WsCreateAction::Finish(result)
                        && result matches Err(WsError::Other(e)) && e@ == seq![message],
                    Ok(uri) => match crate::websocket::all_script_headers(request.headers) {
                        Err(message) => action matches WsCreateAction::Finish(result)
                            && result matches Err(WsError::TypeError(text)) && text@ == message,
                        Ok(_) => match action {
                            WsCreateAction::Connect { addr } => {
                                let port: nat = match uri.port {
                                    Some(port) => port as nat,
                                    None => if uri.scheme == Some("wss"@) {
                                        443nat
                                    } else {
                                        80nat
                                    },
                                };
                                addr@ == uri.host->Some_0 + ":"@ + crate::text::decimal(port)
                            },
                            WsCreateAction::Finish(result) => result matches Err(WsError::Other(e))
                                && e@ == seq!["failed to parse header value"@],
                            _ => false,
                        },
                    },
                },
            },
        },
{
}

/// A socket of a URI of WebSockets with a host can be opened wherever the permission is given; what is wrong
/// with the request is said by the first step. Without the permission nothing is done, unless the text is
/// no URL at all.
pub proof fn permitted_socket_can_be_opened(
    request: WsCreateRequest,
    key: &str,
    r: Option<(WsCreate, WsCreateAction)>,
)
    requires
        call_ensures(ws_create_with_key, (request, key), r),
    ensures
        crate::url::parsed_url(request.url@) is Err ==> r is Some,
        crate::url::parsed_url(request.url@) is Ok && request.permission is Err ==> r is None,
        request.permission is Ok && (request.cancel_handle matches Some(Err(_))) ==> r is Some,
        request.permission is Ok && crate::http_headers::parsed_uri(request.url@) is Err
            ==> r is Some,
        request.permission is Ok && (crate::http_headers::parsed_uri(request.url@) matches Ok(uri)
            && uri.authority is Some && uri.host is Some && (uri.scheme == Some("ws"@) || uri.scheme
            == Some("wss"@))) ==> r is Some,
{
}

/// An opening goes on with what answers its last action, and with nothing else. What the server agreed to has
/// to be text before it is learned.
pub proof fn opening_waits_for_its_answer(
    create: WsCreate,
    event: WsCreateEvent,
    r: Option<(WsCreate, WsCreateAction)>,
)
    requires
        call_ensures(WsCreate::step, (create, event), r),
    ensures
        match (create.phase, event) {
            (WsCreatePhase::Connecting(_), WsCreateEvent::Connected(_)) => r is Some,
            (WsCreatePhase::ConfiguringTls(_), WsCreateEvent::TlsConfigured(_)) => r is Some,
            (WsCreatePhase::StartingTls(_), WsCreateEvent::TlsStarted(_)) => r is Some,
            (WsCreatePhase::Handshaking, WsCreateEvent::HandshakeDone(_)) => r is Some,
            (WsCreatePhase::AddingResource(response), WsCreateEvent::ResourceAdded(_)) => {
                &&& response.protocol is None && response.extensions@.len() == 0 ==> r is Some
                &&& response.protocol matches Some(value) ==> (
                !crate::http_headers::is_header_text(value@) ==> r is None)
                &&& (forall|i: int|
                    0 <= i < response.extensions@.len() ==> crate::http_headers::is_header_text(
                        (#[trigger] response.extensions@[i])@,
                    )) && (response.protocol matches Some(value)
                    ==> crate::http_headers::is_header_text(value@)) ==> r is Some
            },
            _ => r is None,
        },
{
}

/// An encrypted connection is made only to a host that has a name for it; every other host is named by the
/// error.
pub proof fn host_has_to_have_a_name(
    is_valid_name: bool,
    connect: WsConnect,
    r: (WsCreatePhase, WsCreateAction),
)
    requires
        call_ensures(tls_step, (is_valid_name, connect), r),
    ensures
        is_valid_name ==> r.1 == (WsCreateAction::StartTls { domain: connect.domain }) && r.0
            == WsCreatePhase::StartingTls(connect),
        !is_valid_name ==> r.1 == WsCreateAction::Finish(
            Err(WsError::InvalidHostname(connect.domain)),
        ) && r.0 is Finished,
{
}

/// Opening a socket with a random key needs what opening it with any key needs: the permission comes first,
/// what is no URL is said, and a right request is connected.
pub proof fn random_key_does_not_decide(
    request: WsCreateRequest,
    r: Option<(WsCreate, WsCreateAction)>,
)
    requires
        call_ensures(op_ws_create, (request,), r),
    ensures
        crate::url::parsed_url(request.url@) is Err ==> r is Some,
        crate::url::parsed_url(request.url@) is Ok && request.permission is Err ==> r is None,
        request.permission is Ok && (crate::http_headers::parsed_uri(request.url@) matches Ok(uri)
            && uri.authority is Some && uri.host is Some && (uri.scheme == Some("ws"@) || uri.scheme
            == Some("wss"@))) ==> r is Some,
        r matches Some((create, _)) ==> (create.has_cancel_handle
            <==> request.cancel_handle is Some),
        r matches Some((_, action)) ==> action is Connect || action is Finish,
{
    let key = Seq::new(24, |i: int| if i < 22 {
        'A'
    } else {
        '='
    });
    assert(is_handshake_key(key)) by {
        assert forall|i: int| 0 <= i < 22 implies is_base64_digit(#[trigger] key[i]) by {}
    }
    assert(r is Some <==> WsCreate::can_start(request, key));
}

} // verus!
