//! WebSockets: opening a connection, the frames that are sent, and what the frames that arrive
//! mean to the program.

use vstd::prelude::*;
use vstd::string::*;
use vstd::utf8::*;

use crate::http_headers::{
    header_name, header_text, is_value, Header, HeaderView, UriParts, UriView,
};
use crate::shared::AnyError;
use crate::text::{chars_of, decimal_text, str_eq, string_of};
use crate::url::parse_url;

verus! {

/// The user agent that connections announce.
#[derive(Debug, Clone)]
pub struct WsUserAgent(pub String);

/// The hosts whose certificates are not checked; an empty list stands for all hosts.
#[derive(Debug, Clone)]
pub struct UnsafelyIgnoreCertificateErrors(pub Option<Vec<String>>);

/// The number of a resource.
pub type ResourceId = u32;

/// A network error, as scripts see it.
#[derive(Debug, Clone, PartialEq, Eq)]
pub struct DomExceptionNetworkError {
    pub msg: String,
}

impl DomExceptionNetworkError {
    pub fn new(msg: &str) -> (r: DomExceptionNetworkError)
        ensures
            r.msg@ == msg@,
    {
        DomExceptionNetworkError { msg: msg.to_owned() }
    }
}

/// What can go wrong with a WebSocket.
#[derive(Debug, Clone, PartialEq, Eq)]
pub enum WsError {
    Network(DomExceptionNetworkError),
    /// The host is none that an encrypted connection can be made to.
    InvalidHostname(String),
    /// An error that a script sees as a `TypeError`, with its message.
    TypeError(String),
    Other(AnyError),
}

/// The class of the exception that a script sees for a network error.
pub fn get_network_error_class_name(e: &WsError) -> (r: Option<&'static str>)
    ensures
        r is Some <==> e is Network,
        r matches Some(name) ==> name@ == "DOMExceptionNetworkError"@,
{
    match e {
        WsError::Network(_) => Some("DOMExceptionNetworkError"),
        _ => None,
    }
}

/// The error is a `TypeError` with this message.
pub open spec fn is_type_error(e: WsError, message: Seq<char>) -> bool {
    e matches WsError::TypeError(text) && text@ == message
}

/// The error of a connection that could not be opened.
pub fn connect_error(cause: &str) -> (r: WsError)
    ensures
        r matches WsError::Network(e) && e.msg@ == "failed to connect to WebSocket: "@ + cause@,
{
    let mut msg: String = "failed to connect to WebSocket: ".to_owned();
    msg.append(cause);
    WsError::Network(DomExceptionNetworkError::new(msg.as_str()))
}

/// Decides which URLs scripts may connect to.
pub trait WebSocketPermissions: Sized {
    /// The permissions can give this answer, and be `after` where they were `before`. Permissions that
    /// do not say more can give every answer.
    open spec fn answers(
        before: Self,
        after: Self,
        url: Seq<char>,
        api_name: Seq<char>,
        answer: Result<(), AnyError>,
    ) -> bool {
        true
    }

    fn check_net_url(&mut self, url: &str, api_name: &str) -> (r: Result<(), AnyError>)
        ensures
            Self::answers(*old(self), *final(self), url@, api_name@, r),
    ;
}

/// The permissions gave an answer, and it decided the result: where they allowed the connection,
/// whether there is a handle; otherwise their error.
pub open spec fn is_decided_by<WP: WebSocketPermissions>(
    before: WP,
    after: WP,
    url: Seq<char>,
    api_name: Seq<char>,
    cancel_handle: bool,
    r: Result<bool, AnyError>,
    answer: Result<(), AnyError>,
) -> bool {
    &&& WP::answers(before, after, url, api_name, answer)
    &&& answer is Ok ==> r == Ok::<bool, AnyError>(cancel_handle)
    &&& answer is Err ==> r == Err::<bool, AnyError>(answer->Err_0)
}

/// Whether the script may connect, and whether it gets a handle by which it can cancel the
/// connection, given the answer of the permissions.
pub fn permission_and_cancel_handle(
    url: Result<String, String>,
    permission: Result<(), AnyError>,
    cancel_handle: bool,
) -> (r: Result<bool, AnyError>)
    ensures
        match (url, permission) {
            (Err(cause), _) => r matches Err(e) && e@ == seq![cause@],
            (Ok(_), Err(denied)) => r == Err::<bool, AnyError>(denied),
            (Ok(_), Ok(_)) => r == Ok::<bool, AnyError>(cancel_handle),
        },
{
    if let Err(cause) = url {
        return Err(AnyError::new(cause));
    }
    if let Err(denied) = permission {
        return Err(denied);
    }
    Ok(cancel_handle)
}

/// Whether the script may connect to a URL, and whether it gets a handle by which it can cancel the
/// connection. What is no URL is an error, and the permissions are not asked; every other URL is
/// theirs to decide.
pub fn op_ws_check_permission_and_cancel_handle<WP: WebSocketPermissions>(
    permissions: &mut WP,
    api_name: &str,
    url: &str,
    cancel_handle: bool,
) -> (r: Result<bool, AnyError>)
    ensures
        crate::url::parsed_url(url@) matches Err(cause) ==> {
            &&& r matches Err(e) && e@ == seq![cause]
            &&& *final(permissions) == *old(permissions)
        },
        crate::url::parsed_url(url@) is Ok ==> exists|answer: Result<(), AnyError>| #[trigger]
            is_decided_by(
                *old(permissions),
                *final(permissions),
                crate::url::parsed_url(url@)->Ok_0,
                api_name@,
                cancel_handle,
                r,
                answer,
            ),
{
    match parse_url(url) {
        Err(cause) => permission_and_cancel_handle(Err(cause), Ok(()), cancel_handle),
        Ok(parsed) => {
            let permission = permissions.check_net_url(parsed.as_str(), api_name);
            let ghost answer = permission;
            let r = permission_and_cancel_handle(Ok(parsed), permission, cancel_handle);
            assert(is_decided_by(
                *old(permissions),
                *permissions,
                crate::url::parsed_url(url@)->Ok_0,
                api_name@,
                cancel_handle,
                r,
                answer,
            ));
            r
        },
    }
}

/// How to open a connection.
#[derive(Debug, Clone)]
pub struct WsConnect {
    /// The headers of the request that asks for the connection, in order.
    pub headers: Vec<Header>,
    pub domain: String,
    pub port: u16,
    /// The domain and the port.
    pub addr: String,
    /// Whether the connection is encrypted.
    pub tls: bool,
}

/// A header that a script cannot set, because the handshake sets it.
pub open spec fn is_disallowed_header(name: Seq<char>) -> bool {
    ||| name == "host"@
    ||| name == "sec-websocket-accept"@
    ||| name == "sec-websocket-extensions"@
    ||| name == "sec-websocket-key"@
    ||| name == "sec-websocket-protocol"@
    ||| name == "sec-websocket-version"@
    ||| name == "upgrade"@
    ||| name == "connection"@
}

fn is_disallowed(name: &str) -> (r: bool)
    ensures
        r == is_disallowed_header(name@),
{
    str_eq(name, "host") || str_eq(name, "sec-websocket-accept") || str_eq(
        name,
        "sec-websocket-extensions",
    ) || str_eq(name, "sec-websocket-key") || str_eq(name, "sec-websocket-protocol") || str_eq(
        name,
        "sec-websocket-version",
    ) || str_eq(name, "upgrade") || str_eq(name, "connection")
}

/// The headers that the script's first `n` headers add to the request, or what is wrong with the
/// first of them that is no header.
pub open spec fn script_headers(headers: Seq<(Vec<u8>, Vec<u8>)>, n: nat) -> Result<
    Seq<HeaderView>,
    Seq<char>,
>
    decreases n,
{
    if n == 0 {
        Ok(Seq::<HeaderView>::empty())
    } else {
        match script_headers(headers, (n - 1) as nat) {
            Err(e) => Err(e),
            Ok(before) => {
                let (name, value) = headers[n - 1];
                if !crate::http_headers::is_header_name(name@) {
                    Err("invalid HTTP header name"@)
                } else if !crate::http_headers::is_header_value(value@) {
                    Err("failed to parse header value"@)
                } else {
                    let text = crate::http_headers::header_name_text(name@);
                    if is_disallowed_header(text) {
                        Ok(before)
                    } else {
                        Ok(before.push(HeaderView { name: text, value: value@ }))
                    }
                }
            },
        }
    }
}

proof fn script_error_stays(headers: Seq<(Vec<u8>, Vec<u8>)>, n: nat, m: nat)
    requires
        n <= m,
        script_headers(headers, n) is Err,
    ensures
        script_headers(headers, m) == script_headers(headers, n),
    decreases m,
{
    if n < m {
        script_error_stays(headers, n, (m - 1) as nat);
    }
}

/// The headers that the script's headers add to the request. What is no header is a `TypeError`.
pub fn checked_headers(headers: &Vec<(Vec<u8>, Vec<u8>)>) -> (r: Result<Vec<Header>, WsError>)
    ensures
        match script_headers(headers@, headers@.len()) {
            Ok(added) => r matches Ok(h) && crate::http_headers::header_views(h@) == added,
            Err(message) => r matches Err(e) && is_type_error(e, message),
        },
{
    let mut added: Vec<Header> = Vec::new();
    assert(crate::http_headers::header_views(added@) =~= Seq::<HeaderView>::empty());
    let mut i: usize = 0;
    while i < headers.len()
        invariant
            i <= headers.len(),
            script_headers(headers@, i as nat) == Ok::<Seq<HeaderView>, Seq<char>>(
                crate::http_headers::header_views(added@),
            ),
        decreases headers.len() - i,
    {
        let (key, value) = &headers[i];
        let name = match header_name(key.as_slice()) {
            Some(name) => name,
            None => {
                proof {
                    script_error_stays(headers@, (i + 1) as nat, headers@.len());
                }
                return Err(WsError::TypeError("invalid HTTP header name".to_owned()));
            },
        };
        if !is_value(value.as_slice()) {
            proof {
                script_error_stays(headers@, (i + 1) as nat, headers@.len());
            }
            return Err(WsError::TypeError("failed to parse header value".to_owned()));
        }
        if !is_disallowed(name.as_str()) {
            let ghost before = added@;
            let value = vstd::slice::slice_to_vec(value.as_slice());
            added.push(Header { name, value });
            assert(crate::http_headers::header_views(added@)
                =~= crate::http_headers::header_views(before).push(added@.last()@));
        }
        i += 1;
    }
    Ok(added)
}

/// What stands behind the first `c` of a text.
pub open spec fn behind_first(s: Seq<char>, c: char) -> Option<Seq<char>>
    decreases s.len(),
{
    if s.len() == 0 {
        None
    } else if s[0] == c {
        Some(s.drop_first())
    } else {
        behind_first(s.drop_first(), c)
    }
}

/// The host that a request names: what stands behind the first `@` of the authority, or all of it.
pub open spec fn host_of(authority: Seq<char>) -> Seq<char> {
    match behind_first(authority, '@') {
        Some(host) => host,
        None => authority,
    }
}

fn host(authority: &str) -> (r: String)
    ensures
        r@ == host_of(authority@),
{
    let chars = chars_of(authority);
    let mut i: usize = 0;
    assert(authority@.skip(0) =~= authority@);
    while i < chars.len()
        invariant
            i <= chars.len(),
            chars@ == authority@,
            behind_first(authority@, '@') == behind_first(authority@.skip(i as int), '@'),
        decreases chars.len() - i,
    {
        assert(authority@.skip(i as int).drop_first() =~= authority@.skip(i + 1));
        if chars[i] == '@' {
            assert(authority@.subrange(i + 1, chars@.len() as int) =~= authority@.skip(i + 1));
            return string_of(&chars, i + 1, chars.len());
        }
        i += 1;
    }
    authority.to_owned()
}

/// The URI says where to connect to.
pub open spec fn has_authority(uri: UriView) -> bool {
    uri.authority is Some && uri.host is Some
}

/// The scheme of the URI is one of WebSockets: `ws` or `wss`.
pub open spec fn has_ws_scheme(uri: UriView) -> bool {
    uri.scheme == Some("ws"@) || uri.scheme == Some("wss"@)
}

/// The port that a connection goes to: that of the URI, or the usual one of its scheme.
pub open spec fn port_of(uri: UriView) -> u16 {
    match uri.port {
        Some(port) => port,
        None => if uri.scheme == Some("wss"@) {
            443
        } else {
            80
        },
    }
}

/// The headers of the handshake itself.
pub open spec fn handshake_headers(
    user_agent: Seq<char>,
    host: Seq<char>,
    key: Seq<char>,
    protocols: Seq<char>,
) -> Seq<HeaderView> {
    let headers = seq![
        HeaderView { name: "user-agent"@, value: encode_utf8(user_agent) },
        HeaderView { name: "host"@, value: encode_utf8(host) },
        HeaderView { name: "upgrade"@, value: encode_utf8("websocket"@) },
        HeaderView { name: "connection"@, value: encode_utf8("upgrade"@) },
        HeaderView { name: "sec-websocket-key"@, value: encode_utf8(key) },
        HeaderView { name: "sec-websocket-version"@, value: encode_utf8("13"@) },
    ];
    if protocols.len() > 0 {
        headers.push(
            HeaderView { name: "sec-websocket-protocol"@, value: encode_utf8(protocols) },
        )
    } else {
        headers
    }
}

/// The texts that the handshake puts into headers are header values.
pub open spec fn handshake_values_are_valid(
    user_agent: Seq<char>,
    host: Seq<char>,
    key: Seq<char>,
    protocols: Seq<char>,
) -> bool {
    &&& crate::http_headers::is_header_value(encode_utf8(user_agent))
    &&& crate::http_headers::is_header_value(encode_utf8(host))
    &&& crate::http_headers::is_header_value(encode_utf8(key))
    &&& crate::http_headers::is_header_value(encode_utf8(protocols))
}

/// The headers that the script adds; none where it gives no list.
pub open spec fn all_script_headers(headers: Option<Vec<(Vec<u8>, Vec<u8>)>>) -> Result<
    Seq<HeaderView>,
    Seq<char>,
> {
    match headers {
        Some(headers) => script_headers(headers@, headers@.len()),
        None => Ok(Seq::<HeaderView>::empty()),
    }
}

/// The way to open a connection is the one that the URI and the headers ask for.
pub open spec fn connects(
    connect: WsConnect,
    uri: UriView,
    user_agent: Seq<char>,
    key: Seq<char>,
    protocols: Seq<char>,
    added: Seq<HeaderView>,
) -> bool {
    &&& crate::http_headers::header_views(connect.headers@) == handshake_headers(
        user_agent,
        host_of(uri.authority->Some_0),
        key,
        protocols,
    ) + added
    &&& connect.domain@ == uri.host->Some_0
    &&& connect.port == port_of(uri)
    &&& connect.addr@ == uri.host->Some_0 + ":"@ + crate::text::decimal(port_of(uri) as nat)
    &&& connect.tls == (uri.scheme == Some("wss"@))
}

/// What is made of a URI, of the texts of the handshake and of the script's headers. What is no header
/// is an error: first among the script's headers, and next among the texts of the handshake. `None`
/// where the URI does not say where to connect to, and where all headers are right and its scheme is
/// not one of WebSockets.
pub open spec fn is_connection(
    r: Option<Result<WsConnect, WsError>>,
    uri: UriView,
    user_agent: Seq<char>,
    key: Seq<char>,
    protocols: Seq<char>,
    headers: Option<Vec<(Vec<u8>, Vec<u8>)>>,
) -> bool {
    if !has_authority(uri) {
        r is None
    } else {
        match all_script_headers(headers) {
            Err(message) => r matches Some(Err(e)) && is_type_error(e, message),
            Ok(added) => if !handshake_values_are_valid(
                user_agent,
                host_of(uri.authority->Some_0),
                key,
                protocols,
            ) {
                r matches Some(Err(WsError::Other(e))) && e@ == seq![
                    "failed to parse header value"@,
                ]
            } else if has_ws_scheme(uri) {
                r matches Some(Ok(connect)) && connects(
                    connect,
                    uri,
                    user_agent,
                    key,
                    protocols,
                    added,
                )
            } else {
                r is None
            },
        }
    }
}

fn push_header(headers: &mut Vec<Header>, name: &str, value: &str)
    ensures
        crate::http_headers::header_views(final(headers)@) == crate::http_headers::header_views(
            old(headers)@,
        ).push(HeaderView { name: name@, value: encode_utf8(value@) }),
{
    let ghost before = headers@;
    headers.push(Header { name: name.to_owned(), value: value.as_bytes_vec() });
    assert(crate::http_headers::header_views(headers@) =~= crate::http_headers::header_views(
        before,
    ).push(headers@.last()@));
}

/// How to open a connection to a URI. The script's headers come behind those of the handshake,
/// without those that the handshake sets.
pub fn connect_to(
    uri: &UriParts,
    user_agent: &WsUserAgent,
    key: &str,
    protocols: &str,
    headers: Option<Vec<(Vec<u8>, Vec<u8>)>>,
) -> (r: Option<Result<WsConnect, WsError>>)
    ensures
        is_connection(r, uri@, user_agent.0@, key@, protocols@, headers),
{
    let (authority, domain) = match (&uri.authority, &uri.host) {
        (Some(authority), Some(domain)) => (authority, domain),
        _ => {
            return None;
        },
    };
    let mut added = match headers {
        Some(headers) => match checked_headers(&headers) {
            Ok(added) => added,
            Err(e) => {
                return Some(Err(e));
            },
        },
        None => {
            let none: Vec<Header> = Vec::new();
            assert(crate::http_headers::header_views(none@) =~= Seq::<HeaderView>::empty());
            none
        },
    };
    let ghost script = crate::http_headers::header_views(added@);
    let authority = host(authority.as_str());
    if !is_value(user_agent.0.as_str().as_bytes()) || !is_value(authority.as_str().as_bytes())
        || !is_value(key.as_bytes()) || !is_value(protocols.as_bytes()) {
        return Some(
            Err(WsError::Other(AnyError::new("failed to parse header value".to_owned()))),
        );
    }
    let mut request: Vec<Header> = Vec::new();
    assert(crate::http_headers::header_views(request@) =~= Seq::<HeaderView>::empty());
    push_header(&mut request, "user-agent", user_agent.0.as_str());
    push_header(&mut request, "host", authority.as_str());
    push_header(&mut request, "upgrade", "websocket");
    push_header(&mut request, "connection", "upgrade");
    push_header(&mut request, "sec-websocket-key", key);
    push_header(&mut request, "sec-websocket-version", "13");
    if !protocols.is_empty() {
        push_header(&mut request, "sec-websocket-protocol", protocols);
    }
    let ghost handshake = handshake_headers(user_agent.0@, authority@, key@, protocols@);
    assert(crate::http_headers::header_views(request@) =~= handshake);
    request.append(&mut added);
    assert(crate::http_headers::header_views(request@) =~= handshake + script);
    let tls = match &uri.scheme {
        Some(scheme) => if str_eq(scheme.as_str(), "wss") {
            true
        } else if str_eq(scheme.as_str(), "ws") {
            false
        } else {
            return None;
        },
        None => {
            return None;
        },
    };
    let port: u16 = match uri.port {
        Some(port) => port,
        None => if tls {
            443
        } else {
            80
        },
    };
    let domain = domain.clone();
    let mut addr = domain.clone();
    addr.append(":");
    addr.append(decimal_text(port as u64).as_str());
    Some(Ok(WsConnect { headers: request, domain, port, addr, tls }))
}

/// How to open a connection to the URI in a text. What is no URI is an error.
pub fn connect_to_url(
    url: &str,
    user_agent: &WsUserAgent,
    key: &str,
    protocols: &str,
    headers: Option<Vec<(Vec<u8>, Vec<u8>)>>,
) -> (r: Option<Result<WsConnect, WsError>>)
    ensures
        match crate::http_headers::parsed_uri(url@) {
            Err(message) => r matches Some(Err(WsError::Other(e))) && e@ == seq![message],
            Ok(uri) => is_connection(r, uri, user_agent.0@, key@, protocols@, headers),
        },
{
    match UriParts::parse(url) {
        Ok(uri) => connect_to(&uri, user_agent, key, protocols, headers),
        Err(message) => Some(Err(WsError::Other(AnyError::new(message)))),
    }
}

/// An open connection, and what the server agreed to.
#[derive(Debug, Clone, PartialEq, Eq)]
pub struct CreateResponse {
    pub rid: ResourceId,
    pub protocol: String,
    pub extensions: String,
}

/// The texts of the first `n` header values, one after another.
pub open spec fn joined_values(values: Seq<Vec<u8>>, n: nat) -> Seq<char>
    decreases n,
{
    if n == 0 {
        Seq::<char>::empty()
    } else {
        joined_values(values, (n - 1) as nat) + crate::http_headers::ascii_text(values[n - 1]@)
    }
}

/// The header values are texts.
pub open spec fn are_texts(values: Seq<Vec<u8>>) -> bool {
    forall|i: int|
        0 <= i < values.len() ==> crate::http_headers::is_header_text((#[trigger] values[i])@)
}

/// Reads what the server agreed to from the headers of its answer: the first
/// `Sec-WebSocket-Protocol`, and all `Sec-WebSocket-Extensions`, one after another.
pub fn create_response(
    rid: ResourceId,
    protocol: Option<Vec<u8>>,
    extensions: &Vec<Vec<u8>>,
) -> (r: CreateResponse)
    requires
        protocol matches Some(value) ==> crate::http_headers::is_header_text(value@),
        are_texts(extensions@),
    ensures
        r.rid == rid,
        r.protocol@ == match protocol {
            Some(value) => crate::http_headers::ascii_text(value@),
            None => ""@,
        },
        r.extensions@ == joined_values(extensions@, extensions@.len()),
{
    let protocol = match protocol {
        Some(value) => text_of(&value),
        None => "".to_owned(),
    };
    let mut joined: String = String::new();
    let mut i: usize = 0;
    while i < extensions.len()
        invariant
            i <= extensions.len(),
            are_texts(extensions@),
            joined@ == joined_values(extensions@, i as nat),
        decreases extensions.len() - i,
    {
        joined.append(text_of(&extensions[i]).as_str());
        i += 1;
    }
    CreateResponse { rid, protocol, extensions: joined }
}

fn text_of(value: &Vec<u8>) -> (r: String)
    requires
        crate::http_headers::is_header_text(value@),
    ensures
        r@ == crate::http_headers::ascii_text(value@),
{
    match header_text(value.as_slice()) {
        Some(text) => text,
        None => String::new(),
    }
}

/// The kind of a message that a script receives.
#[derive(Debug, Clone, Copy, PartialEq, Eq, Structural)]
pub enum MessageKind {
    Text,
    Binary,
    Pong,
    Ping,
    Error,
    Closed,
}

/// The number that a script knows a kind of message by.
pub open spec fn kind_number(kind: MessageKind) -> u16 {
    match kind {
        MessageKind::Text => 0,
        MessageKind::Binary => 1,
        MessageKind::Pong => 2,
        MessageKind::Ping => 3,
        MessageKind::Error => 5,
        MessageKind::Closed => 6,
    }
}

impl MessageKind {
    /// The number that a script knows the kind by.
    pub fn number(self) -> (r: u16)
        ensures
            r == kind_number(self),
    {
        match self {
            MessageKind::Text => 0,
            MessageKind::Binary => 1,
            MessageKind::Pong => 2,
            MessageKind::Ping => 3,
            MessageKind::Error => 5,
            MessageKind::Closed => 6,
        }
    }
}

/// The kind of a frame.
#[derive(Debug, Clone, Copy, PartialEq, Eq, Structural)]
pub enum OpCode {
    Continuation,
    Text,
    Binary,
    Close,
    Ping,
    Pong,
}

/// A frame, sent or received.
#[derive(Debug, Clone, PartialEq, Eq)]
pub struct Frame {
    pub fin: bool,
    pub opcode: OpCode,
    pub payload: Vec<u8>,
}

/// A final frame of the given kind with the given payload.
pub open spec fn is_frame(frame: Frame, opcode: OpCode, payload: Seq<u8>) -> bool {
    frame.fin && frame.opcode == opcode && frame.payload@ == payload
}

/// What a script sends.
#[derive(Debug, Clone)]
pub enum SendValue {
    Text(String),
    Binary(Vec<u8>),
    Pong,
    Ping,
}

/// The frame that carries binary data.
pub fn op_ws_send_binary(data: Vec<u8>) -> (r: Frame)
    ensures
        is_frame(r, OpCode::Binary, data@),
{
    Frame { fin: true, opcode: OpCode::Binary, payload: data }
}

/// The frame that carries a text.
pub fn op_ws_send_text(data: &str) -> (r: Frame)
    ensures
        is_frame(r, OpCode::Text, encode_utf8(data@)),
{
    Frame { fin: true, opcode: OpCode::Text, payload: data.as_bytes_vec() }
}

/// The frame that carries what a script sends.
pub fn op_ws_send(value: SendValue) -> (r: Frame)
    ensures
        match value {
            SendValue::Text(text) => is_frame(r, OpCode::Text, encode_utf8(text@)),
            SendValue::Binary(buf) => is_frame(r, OpCode::Binary, buf@),
            SendValue::Pong => is_frame(r, OpCode::Pong, Seq::<u8>::empty()),
            SendValue::Ping => is_frame(r, OpCode::Ping, Seq::<u8>::empty()),
        },
{
    match value {
        SendValue::Text(text) => op_ws_send_text(text.as_str()),
        SendValue::Binary(buf) => op_ws_send_binary(buf),
        SendValue::Pong => Frame { fin: true, opcode: OpCode::Pong, payload: Vec::new() },
        SendValue::Ping => Frame { fin: true, opcode: OpCode::Ping, payload: Vec::new() },
    }
}

/// The two bytes of a close code, the high one first.
pub open spec fn code_bytes(code: u16) -> Seq<u8> {
    seq![(code / 256) as u8, (code % 256) as u8]
}

/// Calls `fastwebsockets::Frame::close` for its payload: the two bytes of the code, the high one
/// first, and the reason.
#[verifier::external_body]
fn close_payload(code: u16, reason: &[u8]) -> (r: Vec<u8>)
    ensures
        r@ == code_bytes(code) + reason@,
{
    fastwebsockets::Frame::close(code, reason).payload.to_vec()
}

/// Calls the conversions of `fastwebsockets::CloseCode` from and to a number, which give the same
/// number back.
#[verifier::external_body]
fn known_close_code(code: u16) -> (r: u16)
    ensures
        r == code,
{
    fastwebsockets::CloseCode::from(code).into()
}

/// Calls `String::from_utf8`: the text that the bytes encode, if they are UTF-8.
#[verifier::external_body]
fn decode_text(bytes: Vec<u8>) -> (r: Option<String>)
    ensures
        r is Some <==> valid_utf8(bytes@),
        r matches Some(text) ==> text@ == decode_utf8(bytes@),
{
    String::from_utf8(bytes).ok()
}

/// A text or bytes, as a script receives them.
#[derive(Debug, Clone, PartialEq, Eq)]
pub enum StringOrBuffer {
    Text(String),
    Buffer(Vec<u8>),
}

/// What a script learns of an event: the number of its kind or of the close code, and its data.
#[derive(Debug, Clone, PartialEq, Eq)]
pub struct WsEvent {
    pub kind: u16,
    pub data: StringOrBuffer,
}

/// The event has this number and this text.
pub open spec fn is_text_event(event: WsEvent, kind: u16, text: Seq<char>) -> bool {
    &&& event.kind == kind
    &&& event.data matches StringOrBuffer::Text(t) && t@ == text
}

/// The event has this number and these bytes.
pub open spec fn is_buffer_event(event: WsEvent, kind: u16, bytes: Seq<u8>) -> bool {
    &&& event.kind == kind
    &&& event.data matches StringOrBuffer::Buffer(b) && b@ == bytes
}

/// The text of the frame can be read: a text frame and the reason of a close frame are UTF-8.
pub open spec fn is_readable(frame: Frame) -> bool {
    match frame.opcode {
        OpCode::Text => valid_utf8(frame.payload@),
        OpCode::Close => frame.payload@.len() >= 2 ==> valid_utf8(frame.payload@.skip(2)),
        _ => true,
    }
}

/// The event that a frame means.
pub open spec fn is_event_of(event: WsEvent, frame: Frame) -> bool {
    match frame.opcode {
        OpCode::Text => is_text_event(
            event,
            kind_number(MessageKind::Text),
            decode_utf8(frame.payload@),
        ),
        OpCode::Binary => is_buffer_event(
            event,
            kind_number(MessageKind::Binary),
            frame.payload@,
        ),
        OpCode::Close => if frame.payload@.len() < 2 {
            is_text_event(event, 1005, ""@)
        } else {
            is_text_event(
                event,
                (frame.payload@[0] * 256 + frame.payload@[1]) as u16,
                decode_utf8(frame.payload@.skip(2)),
            )
        },
        OpCode::Ping => is_buffer_event(
            event,
            kind_number(MessageKind::Ping),
            Seq::<u8>::empty(),
        ),
        OpCode::Pong => is_buffer_event(
            event,
            kind_number(MessageKind::Pong),
            Seq::<u8>::empty(),
        ),
        OpCode::Continuation => false,
    }
}

/// The event that a frame means; a `TypeError` for a continuation frame. The frames of a message are
/// put together before they get here.
pub fn event_of(frame: Frame) -> (r: Result<WsEvent, WsError>)
    requires
        is_readable(frame),
    ensures
        r is Ok <==> frame.opcode != OpCode::Continuation,
        r matches Ok(event) ==> is_event_of(event, frame),
        r matches Err(e) ==> is_type_error(e, "Unexpected continuation frame"@),
{
    let payload = frame.payload;
    match frame.opcode {
        OpCode::Text => {
            let text = match decode_text(payload) {
                Some(text) => text,
                None => String::new(),
            };
            Ok(WsEvent { kind: MessageKind::Text.number(), data: StringOrBuffer::Text(text) })
        },
        OpCode::Binary => Ok(
            WsEvent { kind: MessageKind::Binary.number(), data: StringOrBuffer::Buffer(payload) },
        ),
        OpCode::Close => {
            if payload.len() < 2 {
                return Ok(WsEvent { kind: 1005, data: StringOrBuffer::Text("".to_owned()) });
            }
            let high: u16 = payload[0] as u16;
            let low: u16 = payload[1] as u16;
            let code: u16 = high * 256 + low;
            let reason_bytes = vstd::slice::slice_to_vec(
                vstd::slice::slice_subrange(payload.as_slice(), 2, payload.len()),
            );
            assert(reason_bytes@ =~= payload@.skip(2));
            let reason = match decode_text(reason_bytes) {
                Some(text) => text,
                None => String::new(),
            };
            Ok(WsEvent { kind: known_close_code(code), data: StringOrBuffer::Text(reason) })
        },
        OpCode::Ping => Ok(
            WsEvent { kind: MessageKind::Ping.number(), data: StringOrBuffer::Buffer(Vec::new()) },
        ),
        OpCode::Pong => Ok(
            WsEvent { kind: MessageKind::Pong.number(), data: StringOrBuffer::Buffer(Vec::new()) },
        ),
        OpCode::Continuation => Err(
            WsError::TypeError("Unexpected continuation frame".to_owned()),
        ),
    }
}

/// A WebSocket, as far as its state goes beyond that of the stream.
#[derive(Debug, Clone, Copy, PartialEq, Eq, Structural)]
pub struct ServerWebSocket {
    /// The script has closed the socket.
    pub closed: bool,
}

/// What is set on the stream of a socket that a server accepted.
#[derive(Debug, Clone, Copy, PartialEq, Eq, Structural)]
pub struct WsStreamOptions {
    pub writev: bool,
    pub auto_close: bool,
    pub auto_pong: bool,
}

/// A new socket on a connection that was taken over from a server, given what taking it over gave.
pub fn op_ws_server_create(taken: Result<(), AnyError>) -> (r: Result<
    (ServerWebSocket, WsStreamOptions),
    AnyError,
>)
    ensures
        match taken {
            Ok(_) => r matches Ok((socket, options)) && !socket.closed && options == (
            WsStreamOptions { writev: true, auto_close: true, auto_pong: true }),
            Err(e) => r == Err::<(ServerWebSocket, WsStreamOptions), AnyError>(e),
        },
{
    match taken {
        Ok(_) => Ok(ws_create_server_stream()),
        Err(e) => Err(e),
    }
}

/// A new socket of a server, and what is set on its stream.
pub fn ws_create_server_stream() -> (r: (ServerWebSocket, WsStreamOptions))
    ensures
        !r.0.closed,
        r.1 == (WsStreamOptions { writev: true, auto_close: true, auto_pong: true }),
{
    (
        ServerWebSocket { closed: false },
        WsStreamOptions { writev: true, auto_close: true, auto_pong: true },
    )
}

impl ServerWebSocket {
    /// What sending a frame gives: `written` is what writing it to the stream gave. An error of it is
    /// a `TypeError`.
    pub fn write_frame(&self, written: Result<(), String>) -> (r: Result<(), WsError>)
        ensures
            match written {
                Ok(_) => r is Ok,
                Err(message) => r matches Err(e) && is_type_error(e, message@),
            },
    {
        match written {
            Ok(_) => Ok(()),
            Err(message) => Err(WsError::TypeError(message)),
        }
    }
}

/// Closes the socket: the frame that says so. Without a reason the frame is empty, whatever
/// the code; with one, the code is 1005 where none is given.
pub fn op_ws_close(
    resource: &mut ServerWebSocket,
    code: Option<u16>,
    reason: Option<String>,
) -> (r: Frame)
    ensures
        final(resource).closed,
        is_frame(
            r,
            OpCode::Close,
            match reason {
                Some(reason) => code_bytes(
                    match code {
                        Some(code) => code,
                        None => 1005,
                    },
                ) + encode_utf8(reason@),
                None => Seq::<u8>::empty(),
            },
        ),
{
    resource.closed = true;
    let payload = match reason {
        Some(reason) => {
            let code: u16 = match code {
                Some(code) => code,
                None => 1005,
            };
            close_payload(code, reason.as_str().as_bytes())
        },
        None => Vec::new(),
    };
    Frame { fin: true, opcode: OpCode::Close, payload }
}

/// What the script learns from the next frame, or from the error of reading it, and whether
/// the resource is to be closed. An error after the script has closed the socket means that the
/// socket is closed.
pub fn op_ws_next_event(resource: &ServerWebSocket, frame: Result<Frame, String>) -> (r: (
    Result<WsEvent, WsError>,
    bool,
))
    requires
        frame matches Ok(f) ==> is_readable(f),
    ensures
        match frame {
            Ok(frame) => {
                &&& !r.1
                &&& r.0 is Ok <==> frame.opcode != OpCode::Continuation
                &&& r.0 matches Ok(event) ==> is_event_of(event, frame)
                &&& r.0 matches Err(e) ==> is_type_error(e, "Unexpected continuation frame"@)
            },
            Err(message) => {
                &&& r.1 == resource.closed
                &&& r.0 matches Ok(event) && if resource.closed {
                    is_buffer_event(
                        event,
                        kind_number(MessageKind::Closed),
                        Seq::<u8>::empty(),
                    )
                } else {
                    is_text_event(event, kind_number(MessageKind::Error), message@)
                }
            },
        },
{
    match frame {
        Ok(frame) => (event_of(frame), false),
        Err(message) => {
            // No message was received, socket closed while we waited.
            if resource.closed {
                let event = WsEvent {
                    kind: MessageKind::Closed.number(),
                    data: StringOrBuffer::Buffer(Vec::new()),
                };
                return (Ok(event), true);
            }
            let event = WsEvent {
                kind: MessageKind::Error.number(),
                data: StringOrBuffer::Text(message),
            };
            (Ok(event), false)
        },
    }
}

/// The path of a file in a directory.
pub open spec fn joined_path(directory: Seq<char>, file: Seq<char>) -> Seq<char> {
    if directory.len() == 0 {
        file
    } else if directory.last() == '/' {
        directory + file
    } else {
        directory + "/"@ + file
    }
}

/// The path of the type declarations, given the directory of the package.
pub fn get_declaration(package_directory: &str) -> (r: String)
    ensures
        r@ == joined_path(package_directory@, "lib.deno_websocket.d.ts"@),
{
    let chars = chars_of(package_directory);
    let mut path: String = package_directory.to_owned();
    if chars.len() > 0 && chars[chars.len() - 1] != '/' {
        path.append("/");
    }
    path.append("lib.deno_websocket.d.ts");
    assert(path@ =~= joined_path(package_directory@, "lib.deno_websocket.d.ts"@));
    path
}

/// No two kinds of messages have the same number.
pub proof fn kind_numbers_are_distinct(a: MessageKind, b: MessageKind)
    requires
        kind_number(a) == kind_number(b),
    ensures
        a == b,
{
}

/// A script cannot set a header of the handshake.
pub proof fn script_headers_are_allowed(headers: Seq<(Vec<u8>, Vec<u8>)>, n: nat, i: int)
    requires
        script_headers(headers, n) matches Ok(added) && 0 <= i < added.len(),
    ensures
        !is_disallowed_header(script_headers(headers, n)->Ok_0[i].name),
    decreases n,
{
    if n > 0 {
        let before = script_headers(headers, (n - 1) as nat)->Ok_0;
        if i < before.len() {
            script_headers_are_allowed(headers, (n - 1) as nat, i);
        }
    }
}

/// The text that one side sends is the text that the other side receives.
pub proof fn sent_text_is_received(text: Seq<char>, frame: Frame, event: WsEvent)
    requires
        is_frame(frame, OpCode::Text, encode_utf8(text)),
        is_event_of(event, frame),
    ensures
        is_readable(frame),
        is_text_event(event, kind_number(MessageKind::Text), text),
{
    encode_utf8_valid_utf8(text);
    encode_utf8_decode_utf8(text);
}

/// The bytes that one side sends are the bytes that the other side receives.
pub proof fn sent_bytes_are_received(bytes: Seq<u8>, frame: Frame, event: WsEvent)
    requires
        is_frame(frame, OpCode::Binary, bytes),
        is_event_of(event, frame),
    ensures
        is_readable(frame),
        is_buffer_event(event, kind_number(MessageKind::Binary), bytes),
{
}

/// The code and the reason that one side closes with are those that the other side learns; a close
/// without a reason is learned as the code 1005 without a reason.
pub proof fn close_is_learned(code: u16, reason: Option<Seq<char>>, frame: Frame, event: WsEvent)
    requires
        is_frame(
            frame,
            OpCode::Close,
            match reason {
                Some(reason) => code_bytes(code) + encode_utf8(reason),
                None => Seq::<u8>::empty(),
            },
        ),
        is_event_of(event, frame),
    ensures
        is_readable(frame),
        match reason {
            Some(reason) => is_text_event(event, code, reason),
            None => is_text_event(event, 1005, ""@),
        },
{
    if let Some(reason) = reason {
        encode_utf8_valid_utf8(reason);
        encode_utf8_decode_utf8(reason);
        assert(frame.payload@.skip(2) =~= encode_utf8(reason));
        assert(frame.payload@[0] == (code / 256) as u8);
        assert(frame.payload@[1] == (code % 256) as u8);
    }
}

/// The script's headers are added to the request in their order, each with its name in lower case and
/// its value, and none is left out but those that the handshake sets: `host`, `upgrade`, `connection`
/// and the headers of WebSockets for the acceptance, the extensions, the key, the protocol and the
/// version.
pub proof fn only_handshake_headers_are_left_out(headers: Seq<(Vec<u8>, Vec<u8>)>, n: nat)
    requires
        n <= headers.len(),
        script_headers(headers, n) is Ok,
    ensures
        script_headers(headers, n)->Ok_0 == headers.take(n as int).filter(
            |h: (Vec<u8>, Vec<u8>)|
                {
                    let name = crate::http_headers::header_name_text(h.0@);
                    !(name == "host"@ || name == "upgrade"@ || name == "connection"@ || name
                        == "sec-websocket-accept"@ || name == "sec-websocket-extensions"@ || name
                        == "sec-websocket-key"@ || name == "sec-websocket-protocol"@ || name
                        == "sec-websocket-version"@)
                },
        ).map_values(
            |h: (Vec<u8>, Vec<u8>)|
                HeaderView {
                    name: crate::http_headers::header_name_text(h.0@),
                    value: h.1@,
                },
        ),
    decreases n,
{
    let allowed = |h: (Vec<u8>, Vec<u8>)|
        {
            let name = crate::http_headers::header_name_text(h.0@);
            !(name == "host"@ || name == "upgrade"@ || name == "connection"@ || name
                == "sec-websocket-accept"@ || name == "sec-websocket-extensions"@ || name
                == "sec-websocket-key"@ || name == "sec-websocket-protocol"@ || name
                == "sec-websocket-version"@)
        };
    let as_header = |h: (Vec<u8>, Vec<u8>)|
        HeaderView { name: crate::http_headers::header_name_text(h.0@), value: h.1@ };
    reveal(Seq::filter);
    let first = headers.take(n as int);
    if n > 0 {
        only_handshake_headers_are_left_out(headers, (n - 1) as nat);
        assert(first.drop_last() =~= headers.take(n - 1));
        assert(first.last() == headers[n - 1]);
    }
    assert(script_headers(headers, n)->Ok_0 =~= first.filter(allowed).map_values(as_header));
}

/// Every header of the script whose name in lower case is not one that the handshake sets is among the
/// headers that are added, with its value.
pub proof fn other_script_header_is_added(headers: Seq<(Vec<u8>, Vec<u8>)>, n: nat, i: int) -> (k: int)
    requires
        0 <= i < n <= headers.len(),
        script_headers(headers, n) is Ok,
        ({
            let name = crate::http_headers::header_name_text(headers[i].0@);
            &&& name != "host"@
            &&& name != "upgrade"@
            &&& name != "connection"@
            &&& name != "sec-websocket-accept"@
            &&& name != "sec-websocket-extensions"@
            &&& name != "sec-websocket-key"@
            &&& name != "sec-websocket-protocol"@
            &&& name != "sec-websocket-version"@
        }),
    ensures
        0 <= k < script_headers(headers, n)->Ok_0.len(),
        script_headers(headers, n)->Ok_0[k].name == crate::http_headers::header_name_text(
            headers[i].0@,
        ),
        script_headers(headers, n)->Ok_0[k].value == headers[i].1@,
    decreases n,
{
    let before = script_headers(headers, (n - 1) as nat)->Ok_0;
    if i == n - 1 {
        before.len() as int
    } else {
        other_script_header_is_added(headers, (n - 1) as nat, i)
    }
}

/// A header of the handshake that a script gives is not added, in whatever case its name is written.
pub proof fn handshake_header_is_not_added(headers: Seq<(Vec<u8>, Vec<u8>)>, n: nat, k: int)
    requires
        script_headers(headers, n) is Ok,
        0 <= k < script_headers(headers, n)->Ok_0.len(),
    ensures
        ({
            let name = script_headers(headers, n)->Ok_0[k].name;
            &&& name != "host"@
            &&& name != "upgrade"@
            &&& name != "connection"@
            &&& name != "sec-websocket-accept"@
            &&& name != "sec-websocket-extensions"@
            &&& name != "sec-websocket-key"@
            &&& name != "sec-websocket-protocol"@
            &&& name != "sec-websocket-version"@
        }),
{
    script_headers_are_allowed(headers, n, k);
}

/// The script's headers are refused exactly where one of them is no header, and the first such one
/// decides on the message: first its name is looked at, and next its value.
pub proof fn first_wrong_header_is_reported(headers: Seq<(Vec<u8>, Vec<u8>)>, n: nat) -> (i: int)
    requires
        n <= headers.len(),
    ensures
        match script_headers(headers, n) {
            Ok(_) => forall|j: int|
                0 <= j < n ==> crate::http_headers::is_header_name((#[trigger] headers[j]).0@)
                    && crate::http_headers::is_header_value(headers[j].1@),
            Err(message) => {
                &&& 0 <= i < n
                &&& forall|j: int|
                    0 <= j < i ==> crate::http_headers::is_header_name((#[trigger] headers[j]).0@)
                        && crate::http_headers::is_header_value(headers[j].1@)
                &&& !crate::http_headers::is_header_name(headers[i].0@)
                    || !crate::http_headers::is_header_value(headers[i].1@)
                &&& message == if !crate::http_headers::is_header_name(headers[i].0@) {
                    "invalid HTTP header name"@
                } else {
                    "failed to parse header value"@
                }
            },
        },
    decreases n,
{
    if n == 0 {
        0
    } else {
        let i = first_wrong_header_is_reported(headers, (n - 1) as nat);
        if script_headers(headers, (n - 1) as nat) is Err {
            i
        } else {
            n - 1
        }
    }
}

/// The request for a connection begins with the headers of the handshake: the user agent, the host, that
/// the protocol is to be changed to WebSockets, the key, the version 13 and, where there are any, the
/// protocols. Behind them come the script's headers. All of the handshake's are header values.
pub proof fn request_begins_with_the_handshake(
    connect: WsConnect,
    uri: UriView,
    user_agent: Seq<char>,
    key: Seq<char>,
    protocols: Seq<char>,
    headers: Option<Vec<(Vec<u8>, Vec<u8>)>>,
)
    requires
        is_connection(Some(Ok(connect)), uri, user_agent, key, protocols, headers),
    ensures
        ({
            let sent = crate::http_headers::header_views(connect.headers@);
            let own: int = if protocols.len() > 0 {
                7
            } else {
                6
            };
            let added = all_script_headers(headers)->Ok_0;
            &&& sent.len() == own + added.len()
            &&& sent[0].name == "user-agent"@ && sent[0].value == encode_utf8(user_agent)
            &&& sent[1].name == "host"@
            &&& !uri.authority->Some_0.contains('@') ==> sent[1].value == encode_utf8(
                uri.authority->Some_0,
            )
            &&& sent[2].name == "upgrade"@ && sent[2].value == encode_utf8("websocket"@)
            &&& sent[3].name == "connection"@ && sent[3].value == encode_utf8("upgrade"@)
            &&& sent[4].name == "sec-websocket-key"@ && sent[4].value == encode_utf8(key)
            &&& sent[5].name == "sec-websocket-version"@ && sent[5].value == encode_utf8("13"@)
            &&& protocols.len() > 0 ==> sent[6].name == "sec-websocket-protocol"@ && sent[6].value
                == encode_utf8(protocols)
            &&& forall|k: int| 0 <= k < added.len() ==> #[trigger] sent[own + k] == added[k]
            &&& forall|k: int|
                0 <= k < own ==> crate::http_headers::is_header_value((#[trigger] sent[k]).value)
        }),
{
    let sent = crate::http_headers::header_views(connect.headers@);
    let added = all_script_headers(headers)->Ok_0;
    let handshake = handshake_headers(user_agent, host_of(uri.authority->Some_0), key, protocols);
    assert(sent == handshake + added);
    if !uri.authority->Some_0.contains('@') {
        host_is_the_whole_authority(uri.authority->Some_0);
    }
    reveal_strlit("websocket");
    reveal_strlit("upgrade");
    reveal_strlit("13");
    let own: int = if protocols.len() > 0 {
        7
    } else {
        6
    };
    assert forall|k: int| 0 <= k < own implies crate::http_headers::is_header_value(
        (#[trigger] sent[k]).value,
    ) by {
        assert(sent[k] == handshake[k]);
        if k == 2 {
            visible_text_is_a_header_value("websocket"@);
        } else if k == 3 {
            visible_text_is_a_header_value("upgrade"@);
        } else if k == 5 {
            visible_text_is_a_header_value("13"@);
        }
    }
}

proof fn visible_text_is_a_header_value(text: Seq<char>)
    requires
        forall|i: int| 0 <= i < text.len() ==> ' ' <= #[trigger] text[i] && text[i] <= '~',
    ensures
        crate::http_headers::is_header_value(encode_utf8(text)),
{
    assert(is_ascii_chars(text));
    is_ascii_chars_encode_utf8(text);
    assert forall|i: int| 0 <= i < encode_utf8(text).len() implies 32 <= #[trigger] encode_utf8(
        text,
    )[i] < 127 by {
        assert(text[i] as u8 == encode_utf8(text)[i]);
    }
}

/// A connection goes to the host and the port of its URI. Without a port it goes to 443 where the scheme
/// is `wss`, and to 80 where it is `ws`; it is encrypted exactly where the scheme is `wss`.
pub proof fn scheme_decides_on_port_and_encryption(
    connect: WsConnect,
    uri: UriView,
    user_agent: Seq<char>,
    key: Seq<char>,
    protocols: Seq<char>,
    headers: Option<Vec<(Vec<u8>, Vec<u8>)>>,
)
    requires
        is_connection(Some(Ok(connect)), uri, user_agent, key, protocols, headers),
    ensures
        uri.scheme == Some("ws"@) || uri.scheme == Some("wss"@),
        connect.tls <==> uri.scheme == Some("wss"@),
        uri.host == Some(connect.domain@),
        uri.port matches Some(port) ==> connect.port == port,
        uri.port is None && uri.scheme == Some("wss"@) ==> connect.port == 443,
        uri.port is None && uri.scheme == Some("ws"@) ==> connect.port == 80,
        connect.addr@ == connect.domain@ + ":"@ + crate::text::decimal(connect.port as nat),
{
    reveal_strlit("ws");
    reveal_strlit("wss");
    assert("ws"@.len() == 2);
    assert("wss"@.len() == 3);
}

/// A URI of a WebSocket with a host can be connected to, wherever all headers are right; and what is
/// wrong with a header of the script is said before what is wrong with one of the handshake.
pub proof fn right_headers_are_enough(
    r: Option<Result<WsConnect, WsError>>,
    uri: UriView,
    user_agent: Seq<char>,
    key: Seq<char>,
    protocols: Seq<char>,
    headers: Option<Vec<(Vec<u8>, Vec<u8>)>>,
)
    requires
        is_connection(r, uri, user_agent, key, protocols, headers),
        uri.authority is Some,
        uri.host is Some,
    ensures
        headers is None ==> all_script_headers(headers) == Ok::<Seq<HeaderView>, Seq<char>>(
            Seq::empty(),
        ),
        all_script_headers(headers) matches Err(message) ==> (r matches Some(Err(
            WsError::TypeError(text),
        )) && text@ == message),
        all_script_headers(headers) is Ok && crate::http_headers::is_header_value(
            encode_utf8(user_agent),
        ) && crate::http_headers::is_header_value(encode_utf8(host_of(uri.authority->Some_0)))
            && crate::http_headers::is_header_value(encode_utf8(key))
            && crate::http_headers::is_header_value(encode_utf8(protocols)) && (uri.scheme == Some(
            "ws"@,
        ) || uri.scheme == Some("wss"@)) ==> (r matches Some(Ok(_))),
{
}

proof fn host_is_the_whole_authority(authority: Seq<char>)
    requires
        !authority.contains('@'),
    ensures
        behind_first(authority, '@') is None,
        host_of(authority) == authority,
    decreases authority.len(),
{
    if authority.len() > 0 {
        let rest = authority.drop_first();
        assert(authority[0] != '@');
        assert(!rest.contains('@')) by {
            if rest.contains('@') {
                let i = choose|i: int| 0 <= i < rest.len() && rest[i] == '@';
                assert(authority[i + 1] == '@');
            }
        }
        host_is_the_whole_authority(rest);
    }
}

/// The user and the password before the first `@` of an authority are not part of the host that a request
/// names.
pub proof fn credentials_are_not_part_of_the_host(user: Seq<char>, host: Seq<char>)
    requires
        !user.contains('@'),
    ensures
        host_of(user + seq!['@'] + host) == host,
    decreases user.len(),
{
    let authority = user + seq!['@'] + host;
    if user.len() == 0 {
        assert(authority.drop_first() =~= host);
    } else {
        let rest = user.drop_first();
        assert(user[0] != '@');
        assert(!rest.contains('@')) by {
            if rest.contains('@') {
                let i = choose|i: int| 0 <= i < rest.len() && rest[i] == '@';
                assert(user[i + 1] == '@');
            }
        }
        assert(authority.drop_first() =~= rest + seq!['@'] + host);
        credentials_are_not_part_of_the_host(rest, host);
        assert(behind_first(authority, '@') == behind_first(rest + seq!['@'] + host, '@'));
        behind_first_is_found(rest, host);
    }
}

proof fn behind_first_is_found(before: Seq<char>, behind: Seq<char>)
    ensures
        behind_first(before + seq!['@'] + behind, '@') is Some,
    decreases before.len(),
{
    let s = before + seq!['@'] + behind;
    if before.len() > 0 {
        assert(s.drop_first() =~= before.drop_first() + seq!['@'] + behind);
        behind_first_is_found(before.drop_first(), behind);
    }
}

/// What a script learns of each kind of frame: the number 0 and the text of a text, 1 and the bytes of
/// binary data, 3 of a ping and 2 of a pong, without data, and of a close frame its code and its reason,
/// or 1005 and none where it has no code. A continuation frame is an error.
pub proof fn frames_have_their_numbers(frame: Frame, r: Result<WsEvent, WsError>)
    requires
        call_ensures(event_of, (frame,), r),
    ensures
        frame.opcode is Continuation <==> r is Err,
        frame.opcode is Text ==> r->Ok_0.kind == 0 && (r->Ok_0.data matches StringOrBuffer::Text(
            text,
        ) && text@ == decode_utf8(frame.payload@)),
        frame.opcode is Binary ==> r->Ok_0.kind == 1 && (
        r->Ok_0.data matches StringOrBuffer::Buffer(bytes) && bytes@ == frame.payload@),
        frame.opcode is Pong ==> r->Ok_0.kind == 2 && (r->Ok_0.data matches StringOrBuffer::Buffer(
            bytes,
        ) && bytes@.len() == 0),
        frame.opcode is Ping ==> r->Ok_0.kind == 3 && (r->Ok_0.data matches StringOrBuffer::Buffer(
            bytes,
        ) && bytes@.len() == 0),
        frame.opcode is Close && frame.payload@.len() < 2 ==> r->Ok_0.kind == 1005,
        frame.opcode is Close && frame.payload@.len() >= 2 ==> r->Ok_0.kind == frame.payload@[0]
            * 256 + frame.payload@[1] && (r->Ok_0.data matches StringOrBuffer::Text(text) && text@
            == decode_utf8(frame.payload@.skip(2))),
{
}

/// An error of reading means that the socket is closed where the script has closed it: the script learns
/// the number 6, and the resource is to be closed. Otherwise it learns the number 5 and the message.
/// A frame is learned as it is, and leaves the resource open.
pub proof fn failed_read_is_learned(
    resource: &ServerWebSocket,
    message: String,
    r: (Result<WsEvent, WsError>, bool),
)
    requires
        call_ensures(op_ws_next_event, (resource, Err(message)), r),
    ensures
        resource.closed ==> r.1 && (r.0 matches Ok(event) && event.kind == 6),
        !resource.closed ==> !r.1 && (r.0 matches Ok(event) && event.kind == 5 && (
        event.data matches StringOrBuffer::Text(text) && text@ == message@)),
{
}

/// What a script sends goes out in one final frame of its kind, and the other side learns just that.
pub proof fn sent_value_is_learned(value: SendValue, frame: Frame, r: Result<WsEvent, WsError>)
    requires
        call_ensures(op_ws_send, (value,), frame),
        call_ensures(event_of, (frame,), r),
    ensures
        frame.fin,
        match value {
            SendValue::Text(text) => frame.opcode is Text && r->Ok_0.kind == 0 && (
            r->Ok_0.data matches StringOrBuffer::Text(learned) && learned@ == text@),
            SendValue::Binary(bytes) => frame.opcode is Binary && r->Ok_0.kind == 1 && (
            r->Ok_0.data matches StringOrBuffer::Buffer(learned) && learned@ == bytes@),
            SendValue::Pong => frame.opcode is Pong && frame.payload@.len() == 0 && r->Ok_0.kind
                == 2,
            SendValue::Ping => frame.opcode is Ping && frame.payload@.len() == 0 && r->Ok_0.kind
                == 3,
        },
{
    if let SendValue::Text(text) = value {
        encode_utf8_valid_utf8(text@);
        encode_utf8_decode_utf8(text@);
    }
}

/// The numbers by which a script knows the kinds of messages.
pub proof fn kinds_have_their_numbers(kind: MessageKind, number: u16)
    requires
        call_ensures(MessageKind::number, (kind,), number),
    ensures
        number == match kind {
            MessageKind::Text => 0u16,
            MessageKind::Binary => 1,
            MessageKind::Pong => 2,
            MessageKind::Ping => 3,
            MessageKind::Error => 5,
            MessageKind::Closed => 6,
        },
{
}

/// The extensions that a server agreed to are the texts of all its headers for them, one after another:
/// the text of one more header comes behind those of the others.
pub proof fn extensions_are_joined(values: Seq<Vec<u8>>, n: nat)
    requires
        n <= values.len(),
    ensures
        joined_values(values, n) == values.take(n as int).map_values(
            |v: Vec<u8>| v@.map_values(|b: u8| b as char),
        ).flatten(),
    decreases n,
{
    let as_text = |v: Vec<u8>| v@.map_values(|b: u8| b as char);
    let texts = values.take(n as int).map_values(as_text);
    if n > 0 {
        extensions_are_joined(values, (n - 1) as nat);
        let before = values.take(n - 1).map_values(as_text);
        assert(texts =~= before.push(as_text(values[n - 1])));
        before.lemma_flatten_push(as_text(values[n - 1]));
    } else {
        assert(texts =~= Seq::empty());
    }
}

/// A socket of a server is open, and answers pings and closes by itself.
pub proof fn server_socket_is_open(
    taken: Result<(), AnyError>,
    r: Result<(ServerWebSocket, WsStreamOptions), AnyError>,
)
    requires
        call_ensures(op_ws_server_create, (taken,), r),
    ensures
        r is Ok <==> taken is Ok,
        r matches Err(e) ==> taken == Err::<(), AnyError>(e),
        r matches Ok((socket, options)) ==> !socket.closed && options.writev && options.auto_close
            && options.auto_pong,
{
}

/// Closing a socket with a reason tells the other side the reason and the code, which is 1005 where none
/// is given; closing it without a reason tells the other side the code 1005, whatever the code.
pub proof fn close_reaches_the_other_side(
    resource: &mut ServerWebSocket,
    code: Option<u16>,
    reason: Option<String>,
    frame: Frame,
    r: Result<WsEvent, WsError>,
)
    requires
        call_ensures(op_ws_close, (resource, code, reason), frame),
        call_ensures(event_of, (frame,), r),
    ensures
        final(resource).closed,
        frame.fin,
        frame.opcode is Close,
        reason is None ==> frame.payload@.len() == 0,
        r matches Ok(event) && event.kind == (if code is Some && reason is Some {
            code->Some_0
        } else {
            1005u16
        }) && (event.data matches StringOrBuffer::Text(text) && text@ == (match reason {
            Some(reason) => reason@,
            None => ""@,
        })),
{
    let learned = match reason {
        Some(reason) => Some(reason@),
        None => None,
    };
    let sent: u16 = if code is Some {
        code->Some_0
    } else {
        1005
    };
    close_is_learned(sent, learned, frame, r->Ok_0);
}

/// A script may connect where its URL is one and the permissions allow it. What is no URL is an error before
/// the permissions are asked, and their refusal is handed on.
pub proof fn permission_decides(
    url: Result<String, String>,
    permission: Result<(), AnyError>,
    cancel_handle: bool,
    r: Result<bool, AnyError>,
)
    requires
        call_ensures(permission_and_cancel_handle, (url, permission, cancel_handle), r),
    ensures
        r is Ok <==> url is Ok && permission is Ok,
        r matches Ok(has_handle) ==> has_handle == cancel_handle,
        url matches Err(cause) ==> r->Err_0@ == seq![cause@],
        url is Ok && permission is Err ==> r->Err_0 == permission->Err_0,
{
}

/// Only network errors have a class of their own, and a connection that fails is one that names its cause.
pub proof fn network_errors_have_their_class(
    e: &WsError,
    class: Option<&'static str>,
    cause: &str,
    failed: WsError,
)
    requires
        call_ensures(get_network_error_class_name, (e,), class),
        call_ensures(connect_error, (cause,), failed),
    ensures
        e is Network <==> class is Some,
        class matches Some(name) ==> name@ == "DOMExceptionNetworkError"@,
        failed matches WsError::Network(error) && error.msg@ == "failed to connect to WebSocket: "@
            + cause@,
{
}

/// A text is connected to as its URI is; a text that is none is an error with the message of the parser.
pub proof fn url_is_connected_to_as_its_uri(
    url: &str,
    user_agent: &WsUserAgent,
    key: &str,
    protocols: &str,
    headers: Option<Vec<(Vec<u8>, Vec<u8>)>>,
    r: Option<Result<WsConnect, WsError>>,
)
    requires
        call_ensures(connect_to_url, (url, user_agent, key, protocols, headers), r),
    ensures
        crate::http_headers::parsed_uri(url@) matches Err(message) ==> (r matches Some(Err(
            WsError::Other(e),
        )) && e@ == seq![message]),
        crate::http_headers::parsed_uri(url@) matches Ok(uri) ==> {
            &&& uri.authority is None || uri.host is None ==> r is None
            &&& r matches Some(Ok(connect)) ==> {
                &&& uri.host == Some(connect.domain@)
                &&& connect.tls <==> uri.scheme == Some("wss"@)
                &&& connect.port == (match uri.port {
                    Some(port) => port,
                    None => if connect.tls {
                        443u16
                    } else {
                        80u16
                    },
                })
            }
            &&& uri.scheme != Some("ws"@) && uri.scheme != Some("wss"@) ==> !(r matches Some(Ok(_)))
        },
{
}

/// What writing a frame fails with is a `TypeError` with its message.
pub proof fn failed_write_is_a_type_error(
    socket: &ServerWebSocket,
    written: Result<(), String>,
    r: Result<(), WsError>,
)
    requires
        call_ensures(ServerWebSocket::write_frame, (socket, written), r),
    ensures
        r is Ok <==> written is Ok,
        written matches Err(message) ==> (r matches Err(WsError::TypeError(text)) && text@
            == message@),
{
}

/// The script's headers are checked as they are added: each is a header, and those of the handshake are left
/// out.
pub proof fn checked_headers_are_the_allowed_ones(
    headers: &Vec<(Vec<u8>, Vec<u8>)>,
    r: Result<Vec<Header>, WsError>,
    i: int,
)
    requires
        call_ensures(checked_headers, (headers,), r),
        0 <= i < headers@.len(),
    ensures
        !crate::http_headers::is_header_name(headers@[i].0@) || !crate::http_headers::is_header_value(
            headers@[i].1@,
        ) ==> (r matches Err(WsError::TypeError(_))),
        r matches Ok(added) ==> {
            let name = crate::http_headers::header_name_text(headers@[i].0@);
            name != "host"@ && name != "upgrade"@ && name != "connection"@ && name
                != "sec-websocket-accept"@ && name != "sec-websocket-extensions"@ && name
                != "sec-websocket-key"@ && name != "sec-websocket-protocol"@ && name
                != "sec-websocket-version"@ ==> exists|k: int|
                0 <= k < added@.len() && (#[trigger] added@[k]).name@ == name && added@[k].value@
                    == headers@[i].1@
        },
{
    let n = headers@.len();
    let first = first_wrong_header_is_reported(headers@, n);
    if let Ok(added) = r {
        let views = crate::http_headers::header_views(added@);
        let name = crate::http_headers::header_name_text(headers@[i].0@);
        if name != "host"@ && name != "upgrade"@ && name != "connection"@ && name
            != "sec-websocket-accept"@ && name != "sec-websocket-extensions"@ && name
            != "sec-websocket-key"@ && name != "sec-websocket-protocol"@ && name
            != "sec-websocket-version"@ {
            let k = other_script_header_is_added(headers@, n, i);
            assert(views[k] == added@[k]@);
        }
    }
}

/// The type declarations are in the directory of the package.
pub proof fn declarations_are_in_the_package(package_directory: &str, r: String)
    requires
        call_ensures(get_declaration, (package_directory,), r),
    ensures
        "lib.deno_websocket.d.ts"@.is_suffix_of(r@),
        package_directory@.is_prefix_of(r@),
        package_directory@.len() > 0 && package_directory@.last() != '/' ==> r@
            == package_directory@ + "/"@ + "lib.deno_websocket.d.ts"@,
        package_directory@.len() == 0 || package_directory@.last() == '/' ==> r@
            == package_directory@ + "lib.deno_websocket.d.ts"@,
{
    let directory = package_directory@;
    let file = "lib.deno_websocket.d.ts"@;
    if directory.len() == 0 {
        assert(directory + file =~= file);
    }
    assert(r@.subrange(r@.len() - file.len(), r@.len() as int) =~= file);
    assert(r@.subrange(0, directory.len() as int) =~= directory);
}

/// What is no URL is refused, and the permissions are not asked. Otherwise they decide, and the script gets a
/// handle exactly where it asks for one.
pub proof fn permissions_are_asked_about_urls<WP: WebSocketPermissions>(
    permissions: &mut WP,
    api_name: &str,
    url: &str,
    cancel_handle: bool,
    r: Result<bool, AnyError>,
)
    requires
        call_ensures(
            op_ws_check_permission_and_cancel_handle::<WP>,
            (permissions, api_name, url, cancel_handle),
            r,
        ),
    ensures
        crate::url::parsed_url(url@) matches Err(cause) ==> (r matches Err(e) && e@ == seq![cause])
            && *final(permissions) == *old(permissions),
        r matches Ok(has_handle) ==> has_handle == cancel_handle && crate::url::parsed_url(
            url@,
        ) is Ok,
{
}

} // verus!
