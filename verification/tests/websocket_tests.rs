use deno_tools::http_headers::{header_name, header_text, is_value, Header, UriParts};
use deno_tools::shared::AnyError;
use deno_tools::websocket::{
    checked_headers, connect_error, connect_to, connect_to_url, create_response, event_of, get_declaration,
    get_network_error_class_name, op_ws_check_permission_and_cancel_handle, op_ws_close,
    op_ws_next_event, op_ws_send, op_ws_send_binary, op_ws_send_text, op_ws_server_create,
    permission_and_cancel_handle, ws_create_server_stream, CreateResponse,
    DomExceptionNetworkError, Frame, MessageKind, OpCode, SendValue, ServerWebSocket,
    StringOrBuffer, UnsafelyIgnoreCertificateErrors, WebSocketPermissions, WsConnect, WsError,
    WsEvent, WsUserAgent,
};
use deno_tools::websocket_create::{
    op_ws_create, tls_step, ws_create_with_key, HandshakeFailure, HandshakeResponse, WsCreate,
    WsCreateAction, WsCreateEvent, WsCreatePhase, WsCreateRequest,
};

fn agent() -> WsUserAgent {
    WsUserAgent("Deno/1".to_string())
}

fn pair(name: &str, value: &str) -> (Vec<u8>, Vec<u8>) {
    (name.as_bytes().to_vec(), value.as_bytes().to_vec())
}

fn names(connect: &WsConnect) -> Vec<String> {
    connect.headers.iter().map(|h| h.name.clone()).collect()
}

fn value(connect: &WsConnect, name: &str) -> String {
    let header = connect.headers.iter().find(|h| h.name == name).unwrap();
    String::from_utf8(header.value.clone()).unwrap()
}

#[test]
fn connection_of_a_plain_socket() {
    let connect =
        connect_to_url("ws://user:pw@example.com/path", &agent(), "KEY", "", None).unwrap().unwrap();
    assert_eq!(connect.domain, "example.com");
    assert_eq!(connect.port, 80);
    assert_eq!(connect.addr, "example.com:80");
    assert!(!connect.tls);
    assert_eq!(
        names(&connect),
        vec![
            "user-agent",
            "host",
            "upgrade",
            "connection",
            "sec-websocket-key",
            "sec-websocket-version"
        ]
    );
    assert_eq!(value(&connect, "user-agent"), "Deno/1");
    assert_eq!(value(&connect, "host"), "example.com");
    assert_eq!(value(&connect, "upgrade"), "websocket");
    assert_eq!(value(&connect, "connection"), "upgrade");
    assert_eq!(value(&connect, "sec-websocket-key"), "KEY");
    assert_eq!(value(&connect, "sec-websocket-version"), "13");
}

#[test]
fn connection_of_an_encrypted_socket() {
    let headers = vec![
        pair("X-Custom", "1"),
        pair("Host", "evil.com"),
        pair("Sec-WebSocket-Key", "x"),
        pair("Connection", "close"),
        pair("x-custom", "2"),
    ];
    let connect =
        connect_to_url("wss://example.com:8443", &agent(), "KEY", "chat, superchat", Some(headers))
            .unwrap()
            .unwrap();
    assert_eq!(connect.port, 8443);
    assert_eq!(connect.addr, "example.com:8443");
    assert!(connect.tls);
    assert_eq!(value(&connect, "host"), "example.com:8443");
    assert_eq!(value(&connect, "sec-websocket-protocol"), "chat, superchat");
    assert_eq!(names(&connect)[6..], ["sec-websocket-protocol", "x-custom", "x-custom"]);
    let connect = connect_to_url("wss://example.com", &agent(), "KEY", "", None).unwrap().unwrap();
    assert_eq!(connect.port, 443);
}

fn other_error(message: &str) -> WsError {
    WsError::Other(AnyError::new(message.to_string()))
}

fn type_error(message: &str) -> WsError {
    WsError::TypeError(message.to_string())
}

#[test]
fn connections_that_cannot_be_opened() {
    let error = |result: Option<Result<WsConnect, WsError>>| result.unwrap().unwrap_err();
    assert_eq!(
        error(connect_to_url("ws://a b", &agent(), "K", "", None)),
        other_error("invalid uri character")
    );
    let bad_name = || Some(vec![pair("a b", "1")]);
    assert_eq!(
        error(connect_to_url("ws://a", &agent(), "K", "", bad_name())),
        type_error("invalid HTTP header name")
    );
    let bad_value = Some(vec![pair("a", "1\n")]);
    assert_eq!(
        error(connect_to_url("ws://a", &agent(), "K", "", bad_value)),
        type_error("failed to parse header value")
    );
    // what is wrong with a header of the script comes first
    let bad_agent = WsUserAgent("\n".to_string());
    assert_eq!(
        error(connect_to_url("ws://a", &bad_agent, "K", "", Some(vec![pair("", "1")]))),
        type_error("invalid HTTP header name")
    );
    assert_eq!(
        error(connect_to_url("ws://a", &bad_agent, "K", "", None)),
        other_error("failed to parse header value")
    );
    assert_eq!(
        error(connect_to_url("ws://a", &agent(), "K", "a\u{7f}", None)),
        other_error("failed to parse header value")
    );
    // what is wrong with a header comes before the scheme, and behind the authority
    assert_eq!(
        error(connect_to_url("http://a", &agent(), "K", "", bad_name())),
        type_error("invalid HTTP header name")
    );
    assert_eq!(
        error(connect_to_url("http://a", &bad_agent, "K", "", None)),
        other_error("failed to parse header value")
    );
    assert!(connect_to_url("/path", &agent(), "K", "", bad_name()).is_none());
    assert!(connect_to_url("http://a", &agent(), "K", "", None).is_none());
    assert!(connect_to_url("/path", &agent(), "K", "", None).is_none());
    assert!(connect_to_url("a:1", &agent(), "K", "", None).is_none());
}

#[test]
fn connection_by_given_parts() {
    let uri = UriParts {
        scheme: Some("ws".to_string()),
        authority: Some("a@b@c:9".to_string()),
        host: Some("c".to_string()),
        port: Some(9),
    };
    let connect = connect_to(&uri, &agent(), "K", "", Some(vec![])).unwrap().unwrap();
    assert_eq!(value(&connect, "host"), "b@c:9");
    assert_eq!(connect.addr, "c:9");
}

#[test]
fn headers_of_a_script_are_checked() {
    let headers = vec![pair("Accept", "*/*"), pair("Upgrade", "h2c"), pair("B", "\u{e9}")];
    let added = checked_headers(&headers).unwrap();
    assert_eq!(
        added,
        vec![
            Header { name: "accept".to_string(), value: b"*/*".to_vec() },
            Header { name: "b".to_string(), value: "\u{e9}".as_bytes().to_vec() },
        ]
    );
    assert_eq!(
        checked_headers(&vec![pair("", "1")]).unwrap_err(),
        type_error("invalid HTTP header name")
    );
    assert_eq!(
        checked_headers(&vec![pair("Host", "\n")]).unwrap_err(),
        type_error("failed to parse header value")
    );
}

#[test]
fn header_names_and_values() {
    assert_eq!(header_name(b"X-Y_z!#$%&'*+.^`|~09"), Some("x-y_z!#$%&'*+.^`|~09".to_string()));
    for bad in [&b""[..], b" ", b"a:b", b"a(b", b"a\"b", b"\xc3\xa9", b"a/b", b"a[b", b"a{b", b"a\x7f"] {
        assert_eq!(header_name(bad), None);
    }
    assert_eq!(header_name(&vec![b'a'; 65535]).unwrap().len(), 65535);
    assert_eq!(header_name(&vec![b'a'; 65536]), None);
    assert!(is_value(b"a\tb \xff"));
    assert!(!is_value(b"\x00"));
    assert!(!is_value(b"\x7f"));
    assert!(!is_value(b"a\r\n"));
    assert_eq!(header_text(b"a\tb ~"), Some("a\tb ~".to_string()));
    assert_eq!(header_text(b"\xff"), None);
}

#[test]
fn uri_is_taken_apart() {
    let parts = UriParts::parse("wss://u@h:1/p?q").unwrap();
    assert_eq!(parts.scheme, Some("wss".to_string()));
    assert_eq!(parts.authority, Some("u@h:1".to_string()));
    assert_eq!(parts.host, Some("h".to_string()));
    assert_eq!(parts.port, Some(1));
    assert_eq!(UriParts::parse("/p").unwrap().authority, None);
    assert_eq!(UriParts::parse("").unwrap_err(), "empty string");
}

/// Denies what is not in the list, and remembers what it was asked.
struct AllowedUrls {
    allowed: Vec<&'static str>,
    asked: Vec<(String, String)>,
}

impl WebSocketPermissions for AllowedUrls {
    fn check_net_url(&mut self, url: &str, api_name: &str) -> Result<(), AnyError> {
        self.asked.push((url.to_string(), api_name.to_string()));
        if self.allowed.contains(&url) {
            Ok(())
        } else {
            Err(AnyError::new("denied".to_string()))
        }
    }
}

#[test]
fn permission_is_asked_for_a_url() {
    let mut permissions = AllowedUrls { allowed: vec!["ws://a/"], asked: vec![] };
    let mut check = |url, handle| {
        op_ws_check_permission_and_cancel_handle(&mut permissions, "new WebSocket()", url, handle)
    };
    assert_eq!(check("ws://a", true), Ok(true));
    assert_eq!(check("ws://A", false), Ok(false));
    assert_eq!(check("ws://b", true).unwrap_err().message, "denied");
    assert_eq!(check("nothing", true).unwrap_err().message, "relative URL without a base");
    let api = || "new WebSocket()".to_string();
    assert_eq!(
        permissions.asked,
        vec![
            ("ws://a/".to_string(), api()),
            ("ws://a/".to_string(), api()),
            ("ws://b/".to_string(), api())
        ]
    );
}

#[test]
fn permission_is_given_or_denied() {
    let url = || Ok("ws://a/".to_string());
    let denied = || Err(AnyError::new("denied".to_string()));
    assert_eq!(permission_and_cancel_handle(url(), Ok(()), true), Ok(true));
    assert_eq!(permission_and_cancel_handle(url(), Ok(()), false), Ok(false));
    assert_eq!(permission_and_cancel_handle(url(), denied(), true), denied().map(|()| true));
    let error = permission_and_cancel_handle(Err("no url".to_string()), denied(), true);
    assert_eq!(error.unwrap_err().message, "no url");
}

fn create_request(url: &str) -> WsCreateRequest {
    WsCreateRequest {
        url: url.to_string(),
        permission: Ok(()),
        cancel_handle: Some(Ok(())),
        user_agent: agent(),
        protocols: "chat".to_string(),
        headers: None,
    }
}

fn begin(url: &str) -> (WsCreate, WsCreateAction) {
    ws_create_with_key(create_request(url), "KEY").unwrap()
}

fn finished(action: WsCreateAction) -> Result<CreateResponse, WsError> {
    match action {
        WsCreateAction::Finish(result) => result,
        other => panic!("{:?}", other),
    }
}

fn accepted(protocol: Option<&[u8]>) -> WsCreateEvent {
    WsCreateEvent::HandshakeDone(Ok(HandshakeResponse {
        protocol: protocol.map(|p| p.to_vec()),
        extensions: vec![b"x".to_vec(), b"y".to_vec()],
    }))
}

#[test]
fn socket_is_opened_step_by_step() {
    let (create, action) = begin("wss://example.com/a");
    assert!(matches!(action, WsCreateAction::Connect { addr } if addr == "example.com:443"));
    let (create, action) = create.step(WsCreateEvent::Connected(Ok(()))).unwrap();
    assert!(matches!(action, WsCreateAction::ConfigureTls));
    let (create, action) = create.step(WsCreateEvent::TlsConfigured(Ok(()))).unwrap();
    assert!(matches!(action, WsCreateAction::StartTls { domain } if domain == "example.com"));
    let (create, action) = create.step(WsCreateEvent::TlsStarted(Ok(()))).unwrap();
    match action {
        WsCreateAction::Handshake { headers } => {
            assert_eq!(headers.len(), 7);
            assert_eq!(headers[4].name, "sec-websocket-key");
            assert_eq!(headers[4].value, b"KEY".to_vec());
            assert_eq!(headers[6].name, "sec-websocket-protocol");
            assert_eq!(headers[6].value, b"chat".to_vec());
        }
        other => panic!("{:?}", other),
    }
    let (create, action) = create.step(accepted(Some(b"chat"))).unwrap();
    assert!(matches!(action, WsCreateAction::AddResource { close_cancel_handle: true }));
    let (create, action) = create.step(WsCreateEvent::ResourceAdded(3)).unwrap();
    let expected =
        CreateResponse { rid: 3, protocol: "chat".to_string(), extensions: "xy".to_string() };
    assert_eq!(finished(action), Ok(expected));
    assert!(create.step(WsCreateEvent::ResourceAdded(3)).is_none());
}

#[test]
fn plain_socket_is_not_encrypted() {
    let mut request = create_request("ws://example.com:8000");
    request.cancel_handle = None;
    let (create, action) = op_ws_create(request).unwrap();
    assert!(matches!(action, WsCreateAction::Connect { addr } if addr == "example.com:8000"));
    assert!(!create.has_cancel_handle);
    let (create, action) = create.step(WsCreateEvent::Connected(Ok(()))).unwrap();
    assert!(matches!(action, WsCreateAction::Handshake { .. }));
    let (create, action) = create.step(accepted(None)).unwrap();
    assert!(matches!(action, WsCreateAction::AddResource { close_cancel_handle: false }));
    let (_, action) = create.step(WsCreateEvent::ResourceAdded(9)).unwrap();
    assert_eq!(finished(action).unwrap().protocol, "");
}

#[test]
fn opening_can_fail_at_every_step() {
    let error = || Err(AnyError::new("reset".to_string()));
    let (create, _) = begin("wss://a");
    let (_, action) = create.step(WsCreateEvent::Connected(error())).unwrap();
    assert_eq!(finished(action), Err(other_error("reset")));
    let (create, _) = begin("wss://a");
    let (create, _) = create.step(WsCreateEvent::Connected(Ok(()))).unwrap();
    let (_, action) = create.step(WsCreateEvent::TlsConfigured(error())).unwrap();
    assert_eq!(finished(action), Err(other_error("reset")));
    let (create, _) = begin("wss://a");
    let (create, _) = create.step(WsCreateEvent::Connected(Ok(()))).unwrap();
    let (create, _) = create.step(WsCreateEvent::TlsConfigured(Ok(()))).unwrap();
    let (_, action) = create.step(WsCreateEvent::TlsStarted(error())).unwrap();
    assert_eq!(finished(action), Err(other_error("reset")));
    let (create, _) = begin("ws://a");
    let (create, _) = create.step(WsCreateEvent::Connected(Ok(()))).unwrap();
    let cancelled = HandshakeFailure::Cancelled(AnyError::new("Interrupted".to_string()));
    let (_, action) = create.step(WsCreateEvent::HandshakeDone(Err(cancelled))).unwrap();
    assert_eq!(finished(action), Err(other_error("Interrupted")));
    let (create, _) = begin("ws://a");
    let (create, _) = create.step(WsCreateEvent::Connected(Ok(()))).unwrap();
    let failed = HandshakeFailure::Failed("Invalid status code".to_string());
    let (_, action) = create.step(WsCreateEvent::HandshakeDone(Err(failed))).unwrap();
    assert_eq!(finished(action), Err(connect_error("Invalid status code")));
}

fn key_of(action: WsCreateAction) -> String {
    match action {
        WsCreateAction::Handshake { headers } => {
            let key = headers.into_iter().find(|h| h.name == "sec-websocket-key").unwrap();
            String::from_utf8(key.value).unwrap()
        }
        other => panic!("{:?}", other),
    }
}

#[test]
fn every_opening_has_a_key_of_its_own() {
    let key = || {
        let (create, _) = op_ws_create(create_request("ws://a")).unwrap();
        let (_, action) = create.step(WsCreateEvent::Connected(Ok(()))).unwrap();
        key_of(action)
    };
    let (a, b) = (key(), key());
    assert_eq!(a.len(), 24);
    assert!(a.ends_with("=="));
    assert!(a[..22].chars().all(|c| c.is_ascii_alphanumeric() || c == '+' || c == '/'));
    assert_ne!(a, b);
}

#[test]
fn encryption_needs_the_name_of_a_host() {
    let (create, _) = begin("wss://a_b-");
    let (create, _) = create.step(WsCreateEvent::Connected(Ok(()))).unwrap();
    let (_, action) = create.step(WsCreateEvent::TlsConfigured(Ok(()))).unwrap();
    assert_eq!(finished(action), Err(WsError::InvalidHostname("a_b-".to_string())));
    let (create, _) = begin("wss://127.0.0.1");
    let (create, _) = create.step(WsCreateEvent::Connected(Ok(()))).unwrap();
    let (_, action) = create.step(WsCreateEvent::TlsConfigured(Ok(()))).unwrap();
    assert!(matches!(action, WsCreateAction::StartTls { domain } if domain == "127.0.0.1"));

    let connect = || connect_to_url("wss://a", &agent(), "KEY", "", None).unwrap().unwrap();
    let (phase, action) = tls_step(true, connect());
    assert!(matches!(phase, WsCreatePhase::StartingTls(_)));
    assert!(matches!(action, WsCreateAction::StartTls { .. }));
    let (phase, action) = tls_step(false, connect());
    assert!(matches!(phase, WsCreatePhase::Finished));
    let error = WsError::InvalidHostname("a".to_string());
    assert_eq!(get_network_error_class_name(&error), None);
    assert_eq!(finished(action), Err(error));
}

#[test]
fn opening_that_cannot_begin() {
    let (_, action) = begin("nothing");
    assert_eq!(finished(action), Err(other_error("relative URL without a base")));
    let mut request = create_request("ws://a");
    request.cancel_handle = Some(Err(AnyError::new("Bad resource ID".to_string())));
    let (_, action) = op_ws_create(request).unwrap();
    assert_eq!(finished(action), Err(other_error("Bad resource ID")));
    let mut request = create_request("ws://a");
    request.protocols = "\n".to_string();
    let (_, action) = op_ws_create(request).unwrap();
    assert_eq!(finished(action), Err(other_error("failed to parse header value")));
    let mut request = create_request("ws://a");
    request.permission = Err(AnyError::new("denied".to_string()));
    assert!(op_ws_create(request).is_none());
    assert!(op_ws_create(create_request("http://a")).is_none());
    assert!(ws_create_with_key(create_request("http://a"), "KEY").is_none());
}

#[test]
fn malformed_header_of_a_script_is_a_type_error() {
    for url in ["ws://localhost:4242/", "http://localhost:4242/"] {
        let mut request = create_request(url);
        request.headers = Some(vec![pair("Host", "\n")]);
        let (create, action) = op_ws_create(request).unwrap();
        assert!(matches!(create.phase, WsCreatePhase::Finished));
        assert_eq!(finished(action), Err(type_error("failed to parse header value")));
    }
}

#[test]
fn opening_keeps_to_its_order() {
    let (create, _) = begin("wss://a");
    assert!(create.step(WsCreateEvent::TlsStarted(Ok(()))).is_none());
    let (create, _) = begin("ws://a");
    let (create, _) = create.step(WsCreateEvent::Connected(Ok(()))).unwrap();
    // what the server agreed to has to be text
    let (create, _) = create.step(accepted(Some(b"\xff"))).unwrap();
    assert!(create.step(WsCreateEvent::ResourceAdded(1)).is_none());
}

#[test]
fn response_of_the_server() {
    let response = create_response(
        7,
        Some(b"chat".to_vec()),
        &vec![b"a; b".to_vec(), b"c".to_vec()],
    );
    assert_eq!(response.rid, 7);
    assert_eq!(response.protocol, "chat");
    assert_eq!(response.extensions, "a; bc");
    let response = create_response(8, None, &vec![]);
    assert_eq!(response.protocol, "");
    assert_eq!(response.extensions, "");
}

#[test]
fn network_errors_have_a_class() {
    let error = connect_error("refused");
    assert_eq!(
        error,
        WsError::Network(DomExceptionNetworkError::new("failed to connect to WebSocket: refused"))
    );
    assert_eq!(get_network_error_class_name(&error), Some("DOMExceptionNetworkError"));
    let other = WsError::Other(AnyError::new("x".to_string()));
    assert_eq!(get_network_error_class_name(&other), None);
    assert_eq!(get_network_error_class_name(&type_error("x")), None);
}

fn frame(opcode: OpCode, payload: &[u8]) -> Frame {
    Frame { fin: true, opcode, payload: payload.to_vec() }
}

#[test]
fn frames_that_are_sent() {
    assert_eq!(op_ws_send_binary(vec![1, 2]), frame(OpCode::Binary, &[1, 2]));
    assert_eq!(op_ws_send_text("é"), frame(OpCode::Text, "é".as_bytes()));
    assert_eq!(op_ws_send(SendValue::Text("a".to_string())), frame(OpCode::Text, b"a"));
    assert_eq!(op_ws_send(SendValue::Binary(vec![3])), frame(OpCode::Binary, &[3]));
    assert_eq!(op_ws_send(SendValue::Ping), frame(OpCode::Ping, &[]));
    assert_eq!(op_ws_send(SendValue::Pong), frame(OpCode::Pong, &[]));
}

fn text_event(kind: u16, text: &str) -> WsEvent {
    WsEvent { kind, data: StringOrBuffer::Text(text.to_string()) }
}

fn buffer_event(kind: u16, bytes: &[u8]) -> WsEvent {
    WsEvent { kind, data: StringOrBuffer::Buffer(bytes.to_vec()) }
}

#[test]
fn events_of_frames() {
    let event = |opcode, payload: &[u8]| event_of(frame(opcode, payload)).unwrap();
    assert_eq!(event(OpCode::Text, "é".as_bytes()), text_event(0, "é"));
    assert_eq!(event(OpCode::Binary, &[9, 200]), buffer_event(1, &[9, 200]));
    assert_eq!(event(OpCode::Pong, &[1]), buffer_event(2, &[]));
    assert_eq!(event(OpCode::Ping, &[1]), buffer_event(3, &[]));
    assert_eq!(event(OpCode::Close, &[]), text_event(1005, ""));
    assert_eq!(event(OpCode::Close, &[3]), text_event(1005, ""));
    assert_eq!(event(OpCode::Close, &[3, 232]), text_event(1000, ""));
    assert_eq!(event(OpCode::Close, b"\x0f\xa1bye"), text_event(4001, "bye"));
    assert_eq!(
        event_of(frame(OpCode::Continuation, &[])).unwrap_err(),
        type_error("Unexpected continuation frame")
    );
}

#[test]
fn close_goes_to_the_other_side() {
    let (mut socket, options) = ws_create_server_stream();
    assert!(options.writev && options.auto_close && options.auto_pong);
    assert!(!socket.closed);
    assert_eq!(op_ws_server_create(Ok(())), Ok((socket, options)));
    let no_upgrade = AnyError::new("no upgrade".to_string());
    assert_eq!(op_ws_server_create(Err(no_upgrade.clone())), Err(no_upgrade));
    assert_eq!(socket.write_frame(Ok(())), Ok(()));
    assert_eq!(socket.write_frame(Err("broken".to_string())), Err(type_error("broken")));
    let sent = op_ws_close(&mut socket, Some(3000), Some("done".to_string()));
    assert!(socket.closed);
    assert_eq!(sent, frame(OpCode::Close, b"\x0b\xb8done"));
    assert_eq!(event_of(sent).unwrap(), text_event(3000, "done"));
    let sent = op_ws_close(&mut socket, None, Some("x".to_string()));
    assert_eq!(event_of(sent).unwrap(), text_event(1005, "x"));
    let sent = op_ws_close(&mut socket, Some(3000), None);
    assert_eq!(sent, frame(OpCode::Close, &[]));
}

#[test]
fn every_close_code_is_kept() {
    for code in [0u16, 1, 999, 1000, 1004, 1005, 1006, 1014, 1015, 1016, 2999, 3000, 4999, 5000, 65535] {
        let mut socket = ServerWebSocket { closed: false };
        let sent = op_ws_close(&mut socket, Some(code), Some(String::new()));
        assert_eq!(event_of(sent).unwrap(), text_event(code, ""));
    }
}

#[test]
fn errors_of_reading() {
    let open = ServerWebSocket { closed: false };
    let closed = ServerWebSocket { closed: true };
    assert_eq!(
        op_ws_next_event(&open, Err("reset".to_string())),
        (Ok(text_event(5, "reset")), false)
    );
    assert_eq!(
        op_ws_next_event(&closed, Err("reset".to_string())),
        (Ok(buffer_event(6, &[])), true)
    );
    assert_eq!(
        op_ws_next_event(&closed, Ok(frame(OpCode::Text, b"a"))),
        (Ok(text_event(0, "a")), false)
    );
    assert_eq!(
        op_ws_next_event(&open, Ok(frame(OpCode::Continuation, &[]))),
        (Err(type_error("Unexpected continuation frame")), false)
    );
}

#[test]
fn kinds_have_numbers() {
    let kinds = [
        (MessageKind::Text, 0),
        (MessageKind::Binary, 1),
        (MessageKind::Pong, 2),
        (MessageKind::Ping, 3),
        (MessageKind::Error, 5),
        (MessageKind::Closed, 6),
    ];
    for (kind, number) in kinds {
        assert_eq!(kind.number(), number);
    }
}

#[test]
fn declaration_is_in_the_package() {
    assert_eq!(get_declaration("/ext/websocket"), "/ext/websocket/lib.deno_websocket.d.ts");
    assert_eq!(get_declaration("/ext/"), "/ext/lib.deno_websocket.d.ts");
    assert_eq!(get_declaration(""), "lib.deno_websocket.d.ts");
    assert!(UnsafelyIgnoreCertificateErrors(None).0.is_none());
}
