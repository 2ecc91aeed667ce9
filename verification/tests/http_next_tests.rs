use deno_tools::http_headers::Header;
use deno_tools::http_next::{
    accept_next, is_status_code, merge_cookies, new_slab_future, op_get_request_header,
    op_get_request_headers, op_get_request_method_and_url, op_http_track, op_http_wait,
    op_http_wait_joined, op_read_request_body, op_serve_http, op_serve_http_on,
    op_set_promise_complete, op_set_response_body_bytes, op_set_response_body_resource,
    op_set_response_body_stream, op_set_response_body_text, op_set_response_header,
    op_set_response_headers, op_upgrade, serve_http, serve_http_on, serve_https, AcceptStep,
    HttpConnectionProperties, HttpJoinHandle, HttpListenProperties, HttpProtocol, HttpSlab,
    NetworkStreamKind, PeerAddress, RequestParts, Response, ResponseBody, ServeFailure, ServePlan,
    SlabPhase, WaitStep,
};
use deno_tools::shared::AnyError;

fn header(name: &str, value: &str) -> Header {
    Header { name: name.to_string(), value: value.as_bytes().to_vec() }
}

fn pair(name: &str, value: &str) -> (Vec<u8>, Vec<u8>) {
    (name.as_bytes().to_vec(), value.as_bytes().to_vec())
}

fn request(headers: Vec<Header>) -> RequestParts {
    RequestParts {
        method: "GET".to_string(),
        authority: Some("deno.land".to_string()),
        path_and_query: Some("/x?y".to_string()),
        headers,
        can_upgrade: true,
    }
}

fn peer() -> HttpConnectionProperties {
    HttpConnectionProperties { peer_address: "127.0.0.1".to_string(), peer_port: Some(4500) }
}

fn error(message: &str) -> AnyError {
    AnyError::new(message.to_string())
}

fn response(slab: &HttpSlab, index: usize) -> Response {
    slab.get(index).unwrap().response.clone().unwrap()
}

#[test]
fn requests_get_indices_of_their_own() {
    let mut slab = HttpSlab::new();
    let a = slab.slab_insert(request(vec![]), peer());
    let b = slab.slab_insert(request(vec![]), peer());
    assert_ne!(a, b);
    op_set_promise_complete(&mut slab, a, 404);
    assert_eq!(response(&slab, a).status, 404);
    assert!(slab.get(a).unwrap().promise);
    assert_eq!(response(&slab, b).status, 200);
    assert!(!slab.get(b).unwrap().promise);
    let removed = slab.remove(a);
    assert!(removed.promise);
    assert!(slab.get(a).is_none());
    assert!(slab.get(b).is_some());
}

#[test]
fn method_and_url_of_a_request() {
    let mut slab = HttpSlab::new();
    let index = slab.slab_insert(request(vec![]), peer());
    assert_eq!(
        op_get_request_method_and_url(&slab, index),
        (
            "GET".to_string(),
            Some("deno.land".to_string()),
            "/x?y".to_string(),
            "127.0.0.1".to_string(),
            Some(4500)
        )
    );
    let mut other = request(vec![]);
    other.authority = None;
    other.path_and_query = None;
    let index = slab.slab_insert(other, peer());
    let (_, authority, path, _, _) = op_get_request_method_and_url(&slab, index);
    assert_eq!(authority, None);
    assert_eq!(path, "");
}

#[test]
fn header_of_a_request() {
    let mut slab = HttpSlab::new();
    let headers = vec![header("accept", "a"), header("x-y", "1"), header("x-y", "2")];
    let index = slab.slab_insert(request(headers), peer());
    assert_eq!(op_get_request_header(&slab, index, "X-Y"), Some(b"1".to_vec()));
    assert_eq!(op_get_request_header(&slab, index, "accept"), Some(b"a".to_vec()));
    assert_eq!(op_get_request_header(&slab, index, "z"), None);
    assert_eq!(op_get_request_header(&slab, index, "x y"), None);
}

#[test]
fn cookies_are_merged_and_come_last() {
    let mut slab = HttpSlab::new();
    let headers = vec![
        header("cookie", "a=1"),
        header("accept", "*/*"),
        header("cookie", "b=2; c=3"),
        header("host", "h"),
        header("cookie", ""),
    ];
    let index = slab.slab_insert(request(headers), peer());
    assert_eq!(
        op_get_request_headers(&slab, index),
        vec![pair("accept", "*/*"), pair("host", "h"), pair("cookie", "a=1; b=2; c=3; ")]
    );
    assert_eq!(merge_cookies(&vec![header("a", "b")]), vec![pair("a", "b")]);
    assert_eq!(merge_cookies(&vec![header("cookie", "x")]), vec![pair("cookie", "x")]);
    assert!(merge_cookies(&vec![]).is_empty());
}

#[test]
fn body_of_a_request_is_taken_once() {
    let mut slab = HttpSlab::new();
    let index = slab.slab_insert(request(vec![]), peer());
    assert!(slab.get(index).unwrap().request_body);
    op_read_request_body(&mut slab, index, 3);
    assert!(!slab.get(index).unwrap().request_body);
    assert_eq!(slab.get(index).unwrap().body, Some(3));
}

#[test]
fn response_is_put_together() {
    let mut slab = HttpSlab::new();
    let index = slab.slab_insert(request(vec![]), peer());
    op_set_response_header(&mut slab, index, &b"X-A".to_vec(), &b"1".to_vec());
    op_set_response_headers(&mut slab, index, &vec![pair("X-B", "2"), pair("x-a", "3")]);
    op_set_response_body_text(&mut slab, index, "");
    assert_eq!(response(&slab, index).body, ResponseBody::Empty);
    op_set_response_body_text(&mut slab, index, "é");
    assert_eq!(response(&slab, index).body, ResponseBody::Bytes("é".as_bytes().to_vec()));
    assert_eq!(
        response(&slab, index).headers,
        vec![header("x-a", "1"), header("x-b", "2"), header("x-a", "3")]
    );
    op_set_response_body_bytes(&mut slab, index, vec![]);
    assert_eq!(response(&slab, index).body, ResponseBody::Bytes("é".as_bytes().to_vec()));
    op_set_response_body_bytes(&mut slab, index, vec![0]);
    assert_eq!(response(&slab, index).body, ResponseBody::Bytes(vec![0]));
    op_set_response_body_stream(&mut slab, index);
    assert_eq!(response(&slab, index).body, ResponseBody::Stream);
    let found = op_set_response_body_resource(&mut slab, index, 5, true, Err(error("bad rid")));
    assert_eq!(found, Err(error("bad rid")));
    assert_eq!(response(&slab, index).body, ResponseBody::Stream);
    assert_eq!(op_set_response_body_resource(&mut slab, index, 5, true, Ok(())), Ok(()));
    assert_eq!(
        response(&slab, index).body,
        ResponseBody::Resource { stream_rid: 5, auto_close: true }
    );
    assert!(!slab.get(index).unwrap().promise);
}

#[test]
fn connection_is_taken_over_once() {
    let mut slab = HttpSlab::new();
    let index = slab.slab_insert(request(vec![]), peer());
    assert_eq!(op_upgrade(&mut slab, index, &vec![pair("Upgrade", "websocket")]), Ok(()));
    let record = slab.get(index).unwrap();
    assert!(record.promise);
    assert!(!record.request_parts.can_upgrade);
    assert_eq!(response(&slab, index).status, 101);
    assert_eq!(response(&slab, index).headers, vec![header("upgrade", "websocket")]);
    assert_eq!(op_upgrade(&mut slab, index, &vec![]), Err(error("upgrade unavailable")));
    assert_eq!(response(&slab, index).headers.len(), 1);
}

#[test]
fn status_codes_have_three_digits() {
    assert!(is_status_code(100));
    assert!(is_status_code(999));
    assert!(!is_status_code(99));
    assert!(!is_status_code(1000));
}

#[test]
fn answer_becomes_ready() {
    let mut slab = HttpSlab::new();
    let mut future = new_slab_future(&mut slab, request(vec![]), peer());
    assert_eq!(future.phase, SlabPhase::Sending);
    assert!(future.poll(&mut slab).is_none());
    op_set_promise_complete(&mut slab, future.index, 201);
    assert!(future.poll(&mut slab).is_none());
    future.sent(true);
    assert_eq!(future.poll(&mut slab).unwrap().status, 201);
    assert!(slab.get(future.index).unwrap().response.is_none());
    future.drop_request(&mut slab);
    assert!(slab.get(future.index).is_none());

    let mut future = new_slab_future(&mut slab, request(vec![]), peer());
    future.sent(true);
    assert!(future.poll(&mut slab).is_none());
    // nobody receives requests any more
    future.sent(false);
    assert_eq!(future.poll(&mut slab).unwrap().status, 200);
}

#[test]
fn tracking_a_response() {
    assert_eq!(op_http_track(Ok(true)), Ok(()));
    assert_eq!(op_http_track(Err(())), Ok(()));
    assert_eq!(
        op_http_track(Ok(false)),
        Err(error("connection closed before message completed"))
    );
}

#[test]
fn protocol_of_a_connection() {
    assert_eq!(serve_https(Some(&b"h2".to_vec())), HttpProtocol::Http2);
    assert_eq!(serve_https(Some(&b"http/1.1".to_vec())), HttpProtocol::Http1);
    assert_eq!(serve_https(Some(&b"h3".to_vec())), HttpProtocol::Http1);
    assert_eq!(serve_https(None), HttpProtocol::Http1);
    assert_eq!(serve_http(), HttpProtocol::Http1);
    let address = || Ok(PeerAddress { host: "::1".to_string(), port: 9 });
    let plan = serve_http_on(NetworkStreamKind::Tcp, address());
    assert_eq!(plan.protocol, Some(HttpProtocol::Http1));
    assert_eq!(plan.peer_address.host, "::1");
    assert_eq!(serve_http_on(NetworkStreamKind::Tls, address()).protocol, None);
    let plan = serve_http_on(NetworkStreamKind::Unix, Err(error("unnamed")));
    assert_eq!(plan.protocol, Some(HttpProtocol::Http1));
    assert_eq!(plan.peer_address, PeerAddress { host: "0.0.0.0".to_string(), port: 0 });
}

#[test]
fn server_that_was_started() {
    let properties = || {
        Ok(HttpListenProperties {
            scheme: "http://".to_string(),
            fallback_host: "localhost:8000".to_string(),
        })
    };
    assert_eq!(
        op_serve_http(Ok(()), properties(), 4),
        Ok((4, "http://".to_string(), "localhost:8000".to_string()))
    );
    assert_eq!(op_serve_http(Err(error("rid")), properties(), 4), Err(error("rid")));
    assert_eq!(op_serve_http(Ok(()), Err(error("addr")), 4), Err(error("addr")));
    assert_eq!(
        op_serve_http_on(Ok(()), properties(), 5),
        Ok((5, "http://".to_string(), "localhost:8000".to_string()))
    );
    assert_eq!(op_serve_http_on(Err(error("rid")), properties(), 5), Err(error("rid")));
}

#[test]
fn waiting_for_requests() {
    let mut handle = HttpJoinHandle::new();
    assert_eq!(op_http_wait(&mut handle, Some(7)), WaitStep::Request(7));
    assert_eq!(op_http_wait(&mut handle, Some(u32::MAX as usize + 2)), WaitStep::Request(1));
    assert!(handle.has_task);
    handle.close();
    assert_eq!(op_http_wait(&mut handle, None), WaitStep::JoinServer);
    assert_eq!(handle, HttpJoinHandle { has_task: false, cancelled: true });
    assert_eq!(handle.name(), "http");
}

#[test]
fn server_accepts_until_it_cannot() {
    let address = PeerAddress { host: "::1".to_string(), port: 9 };
    let plan = ServePlan { peer_address: address.clone(), protocol: None };
    assert_eq!(accept_next(Ok((NetworkStreamKind::Tls, Ok(address)))), AcceptStep::Serve(plan));
    assert_eq!(accept_next(Err(error("cancelled"))), AcceptStep::Stop(error("cancelled")));
}

#[test]
fn server_that_has_ended() {
    let failure = |is_not_connected| ServeFailure { error: error("io"), is_not_connected };
    assert_eq!(op_http_wait_joined(Ok(Ok(())), Ok(())), Ok(u32::MAX));
    assert_eq!(op_http_wait_joined(Ok(Err(failure(true))), Ok(())), Ok(u32::MAX));
    assert_eq!(op_http_wait_joined(Ok(Err(failure(false))), Ok(())), Err(error("io")));
    assert_eq!(op_http_wait_joined(Err(error("join")), Ok(())), Err(error("join")));
    assert_eq!(op_http_wait_joined(Ok(Err(failure(true))), Err(error("gone"))), Err(error("gone")));
}
