//! The server side of HTTP: the requests that are being answered, their responses, and the
//! decisions of the server around its connections.

use vstd::prelude::*;
use vstd::string::*;
use vstd::utf8::*;

use crate::http_headers::{header_name, Header, HeaderView};
use crate::shared::AnyError;
use crate::text::str_eq;

verus! {

/// The number of a resource.
pub type ResourceId = u32;

/// Where a connection comes from.
#[derive(Debug, Clone, PartialEq, Eq)]
pub struct HttpConnectionProperties {
    pub peer_address: String,
    pub peer_port: Option<u16>,
}

/// The head of a request.
#[derive(Debug, Clone, PartialEq, Eq)]
pub struct RequestParts {
    pub method: String,
    /// The authority that the request is for.
    pub authority: Option<String>,
    pub path_and_query: Option<String>,
    /// The headers, in the order in which the header map gives them.
    pub headers: Vec<Header>,
    /// The connection can be taken over from the server.
    pub can_upgrade: bool,
}

/// The body of a response.
#[derive(Debug, Clone, PartialEq, Eq)]
pub enum ResponseBody {
    Empty,
    /// The data of a resource, which is closed at the end where `auto_close` is set.
    Resource { stream_rid: ResourceId, auto_close: bool },
    /// What a script writes.
    Stream,
    Bytes(Vec<u8>),
}

#[derive(Debug, Clone, PartialEq, Eq)]
pub struct Response {
    pub status: u16,
    pub headers: Vec<Header>,
    pub body: ResponseBody,
}

/// A request that is being answered.
#[derive(Debug, Clone, PartialEq, Eq)]
pub struct HttpSlabRecord {
    pub request_info: HttpConnectionProperties,
    pub request_parts: RequestParts,
    /// The body of the request has not been taken yet.
    pub request_body: bool,
    /// The response, until the server takes it.
    pub response: Option<Response>,
    /// The resource that the body of the request is read by.
    pub body: Option<ResourceId>,
    /// The response can be sent.
    pub promise: bool,
}

/// A slab of the `slab` crate.
#[verifier::external_type_specification]
#[verifier::external_body]
#[verifier::reject_recursive_types(T)]
pub struct ExSlab<T>(slab::Slab<T>);

/// The records that a slab holds, by their keys.
pub uninterp spec fn slab_records(slab: slab::Slab<HttpSlabRecord>) -> Map<usize, HttpSlabRecord>;

/// Calls `slab::Slab::with_capacity`: an empty slab, with room for that many records. It panics where
/// there is no such room.
#[verifier::external_body]
fn new_slab(capacity: usize) -> (r: slab::Slab<HttpSlabRecord>)
    requires
        capacity <= 1024,
    ensures
        slab_records(r).dom() == Set::<usize>::empty(),
{
    slab::Slab::with_capacity(capacity)
}

/// Calls `slab::Slab::insert`: adds the record under a key that no record has.
#[verifier::external_body]
fn insert_into_slab(slab: &mut slab::Slab<HttpSlabRecord>, record: HttpSlabRecord) -> (r: usize)
    ensures
        !slab_records(*old(slab)).dom().contains(r),
        slab_records(*final(slab)) == slab_records(*old(slab)).insert(r, record),
{
    slab.insert(record)
}

/// Calls `slab::Slab::get`: the record under a key, if there is one.
#[verifier::external_body]
fn get_from_slab(slab: &slab::Slab<HttpSlabRecord>, key: usize) -> (r: Option<&HttpSlabRecord>)
    ensures
        r is Some <==> slab_records(*slab).dom().contains(key),
        r matches Some(record) ==> *record == slab_records(*slab)[key],
{
    slab.get(key)
}

/// Calls `slab::Slab::get_mut`: the record under a key, to be changed in its place.
#[verifier::external_body]
fn get_mut_from_slab(slab: &mut slab::Slab<HttpSlabRecord>, key: usize) -> (r: &mut HttpSlabRecord)
    requires
        slab_records(*old(slab)).dom().contains(key),
    ensures
        *r == slab_records(*old(slab))[key],
        slab_records(*final(slab)) == slab_records(*old(slab)).insert(key, *final(r)),
{
    slab.get_mut(key).unwrap()
}

/// Calls `slab::Slab::remove`: takes the record under a key out of the slab. It panics where there
/// is none.
#[verifier::external_body]
fn remove_from_slab(slab: &mut slab::Slab<HttpSlabRecord>, key: usize) -> (r: HttpSlabRecord)
    requires
        slab_records(*old(slab)).dom().contains(key),
    ensures
        r == slab_records(*old(slab))[key],
        slab_records(*final(slab)) == slab_records(*old(slab)).remove(key),
{
    slab.remove(key)
}

/// The requests that are being answered.
pub struct HttpSlab {
    slab: slab::Slab<HttpSlabRecord>,
}

impl View for HttpSlab {
    type V = Map<usize, HttpSlabRecord>;

    closed spec fn view(&self) -> Map<usize, HttpSlabRecord> {
        slab_records(self.slab)
    }
}

/// A response to which nothing has been set.
pub open spec fn is_new_response(response: Response) -> bool {
    response.status == 200 && response.headers@.len() == 0 && response.body is Empty
}

/// A record of a request that nothing has been done with.
pub open spec fn is_new_record(
    record: HttpSlabRecord,
    request: RequestParts,
    request_info: HttpConnectionProperties,
) -> bool {
    &&& record.request_info == request_info
    &&& record.request_parts == request
    &&& record.request_body
    &&& record.response matches Some(response) && is_new_response(response)
    &&& record.body is None
    &&& !record.promise
}

impl HttpSlab {
    pub fn new() -> (r: HttpSlab)
        ensures
            r@.dom() == Set::<usize>::empty(),
    {
        HttpSlab { slab: new_slab(1024) }
    }

    /// Adds a request, under an index that no other request has.
    pub fn slab_insert(
        &mut self,
        request: RequestParts,
        request_info: HttpConnectionProperties,
    ) -> (r: usize)
        ensures
            !old(self)@.dom().contains(r),
            final(self)@.dom() == old(self)@.dom().insert(r),
            is_new_record(final(self)@[r], request, request_info),
            final(self)@ == old(self)@.insert(r, final(self)@[r]),
    {
        let record = HttpSlabRecord {
            request_info,
            request_parts: request,
            request_body: true,
            response: Some(
                Response { status: 200, headers: Vec::new(), body: ResponseBody::Empty },
            ),
            body: None,
            promise: false,
        };
        insert_into_slab(&mut self.slab, record)
    }

    /// The record of a request, if there is such a request.
    pub fn get(&self, index: usize) -> (r: Option<&HttpSlabRecord>)
        ensures
            r is Some <==> self@.dom().contains(index),
            r matches Some(record) ==> *record == self@[index],
    {
        get_from_slab(&self.slab, index)
    }
}

/// Only the response and the promise of the record differ.
pub open spec fn same_request(a: HttpSlabRecord, b: HttpSlabRecord) -> bool {
    &&& a.request_info == b.request_info
    &&& a.request_parts == b.request_parts
    &&& a.request_body == b.request_body
    &&& a.body == b.body
}

/// A header as a script gives it, with its name in any case.
pub open spec fn given_header(name: Seq<u8>, value: Seq<u8>) -> HeaderView {
    HeaderView { name: crate::http_headers::header_name_text(name), value }
}

/// The headers as a script gives them.
pub open spec fn given_headers(headers: Seq<(Vec<u8>, Vec<u8>)>) -> Seq<HeaderView> {
    headers.map_values(|h: (Vec<u8>, Vec<u8>)| given_header(h.0@, h.1@))
}

/// The bytes are a header's name and its value.
pub open spec fn is_header(name: Seq<u8>, value: Seq<u8>) -> bool {
    crate::http_headers::is_header_name(name) && crate::http_headers::is_header_value(value)
}

/// Every entry is a header's name and its value.
pub open spec fn are_headers(headers: Seq<(Vec<u8>, Vec<u8>)>) -> bool {
    forall|i: int| 0 <= i < headers.len() ==> is_header((#[trigger] headers[i]).0@, headers[i].1@)
}

/// A status code that a response can have.
pub open spec fn is_status(status: u16) -> bool {
    100 <= status < 1000
}

/// Calls `http::StatusCode::from_u16`: whether the number is a status code, which has three
/// digits.
#[verifier::external_body]
fn is_status_with_http(status: u16) -> (r: bool)
    ensures
        r == is_status(status),
{
    http::StatusCode::from_u16(status).is_ok()
}

/// Whether the number is a status code.
pub fn is_status_code(status: u16) -> (r: bool)
    ensures
        r == is_status(status),
{
    is_status_with_http(status)
}

fn append_header(headers: &mut Vec<Header>, name: &Vec<u8>, value: &Vec<u8>)
    requires
        is_header(name@, value@),
    ensures
        crate::http_headers::header_views(final(headers)@) == crate::http_headers::header_views(
            old(headers)@,
        ).push(given_header(name@, value@)),
{
    let ghost before = headers@;
    let name = match header_name(name.as_slice()) {
        Some(name) => name,
        None => String::new(),
    };
    headers.push(Header { name, value: vstd::slice::slice_to_vec(value.as_slice()) });
    assert(crate::http_headers::header_views(headers@) =~= crate::http_headers::header_views(
        before,
    ).push(headers@.last()@));
}

fn append_headers(headers: &mut Vec<Header>, added: &Vec<(Vec<u8>, Vec<u8>)>)
    requires
        are_headers(added@),
    ensures
        crate::http_headers::header_views(final(headers)@) == crate::http_headers::header_views(
            old(headers)@,
        ) + given_headers(added@),
{
    let ghost before = crate::http_headers::header_views(headers@);
    let ghost all = given_headers(added@);
    assert(before + all.take(0) =~= before);
    let mut i: usize = 0;
    while i < added.len()
        invariant
            i <= added.len(),
            are_headers(added@),
            all == given_headers(added@),
            crate::http_headers::header_views(headers@) == before + all.take(i as int),
        decreases added.len() - i,
    {
        append_header(headers, &added[i].0, &added[i].1);
        assert(before + all.take(i + 1) =~= (before + all.take(i as int)).push(all[i as int]));
        i += 1;
    }
    assert(all.take(i as int) =~= all);
}

/// What is wanted of a change to a response: the other records stay, and so does everything else of
/// this record but its promise.
pub open spec fn response_changed(
    before: Map<usize, HttpSlabRecord>,
    after: Map<usize, HttpSlabRecord>,
    index: usize,
) -> bool {
    &&& after == before.insert(index, after[index])
    &&& same_request(before[index], after[index])
    &&& after[index].response is Some
}

impl HttpSlab {
    /// The request is there, and its response has not been taken.
    pub open spec fn can_respond(self, index: usize) -> bool {
        self@.dom().contains(index) && self@[index].response is Some
    }

    fn set_body(&mut self, index: usize, body: ResponseBody)
        requires
            old(self).can_respond(index),
        ensures
            final(self)@ == old(self)@.insert(
                index,
                HttpSlabRecord {
                    response: Some(Response { body, ..old(self)@[index].response->Some_0 }),
                    ..old(self)@[index]
                },
            ),
    {
        let record = get_mut_from_slab(&mut self.slab, index);
        if let Some(response) = &mut record.response {
            response.body = body;
        }
    }

    /// Hands the response to the server.
    pub fn take_response(&mut self, index: usize) -> (r: Response)
        requires
            old(self).can_respond(index),
        ensures
            r == old(self)@[index].response->Some_0,
            final(self)@ == old(self)@.insert(
                index,
                HttpSlabRecord { response: None, ..old(self)@[index] },
            ),
    {
        let record = get_mut_from_slab(&mut self.slab, index);
        match record.response.take() {
            Some(response) => response,
            None => Response { status: 200, headers: Vec::new(), body: ResponseBody::Empty },
        }
    }

    /// Forgets a request.
    pub fn remove(&mut self, index: usize) -> (r: HttpSlabRecord)
        requires
            old(self)@.dom().contains(index),
        ensures
            r == old(self)@[index],
            final(self)@ == old(self)@.remove(index),
    {
        remove_from_slab(&mut self.slab, index)
    }
}

/// Takes the connection over from the server: the response switches protocols, has the given
/// headers, and can be sent. An error, and no change, where the connection cannot be taken
/// over.
pub fn op_upgrade(
    slab: &mut HttpSlab,
    index: usize,
    headers: &Vec<(Vec<u8>, Vec<u8>)>,
) -> (r: Result<(), AnyError>)
    requires
        old(slab)@.dom().contains(index),
        old(slab)@[index].request_parts.can_upgrade ==> {
            &&& old(slab).can_respond(index)
            &&& are_headers(headers@)
        },
    ensures
        r is Ok <==> old(slab)@[index].request_parts.can_upgrade,
        r matches Err(e) ==> e@ == seq!["upgrade unavailable"@] && final(slab)@ == old(slab)@,
        r is Ok ==> {
            let before = old(slab)@[index];
            let after = final(slab)@[index];
            &&& final(slab)@ == old(slab)@.insert(index, after)
            &&& after.request_info == before.request_info
            &&& after.request_parts == (RequestParts {
                can_upgrade: false,
                ..before.request_parts
            })
            &&& after.request_body == before.request_body
            &&& after.body == before.body
            &&& after.promise
            &&& after.response matches Some(response) && {
                &&& response.status == 101
                &&& crate::http_headers::header_views(response.headers@)
                    == crate::http_headers::header_views(before.response->Some_0.headers@)
                    + given_headers(headers@)
                &&& response.body == before.response->Some_0.body
            }
        },
{
    let record = get_mut_from_slab(&mut slab.slab, index);
    if !record.request_parts.can_upgrade {
        return Err(AnyError::new("upgrade unavailable".to_owned()));
    }
    record.request_parts.can_upgrade = false;
    if let Some(response) = &mut record.response {
        response.status = 101;
        append_headers(&mut response.headers, headers);
    }
    record.promise = true;
    Ok(())
}

/// Gives the response its status, and lets it be sent.
pub fn op_set_promise_complete(slab: &mut HttpSlab, index: usize, status: u16)
    requires
        old(slab).can_respond(index),
        is_status(status),
    ensures
        response_changed(old(slab)@, final(slab)@, index),
        final(slab)@[index].promise,
        final(slab)@[index].response == Some(
            Response { status, ..old(slab)@[index].response->Some_0 },
        ),
{
    let record = get_mut_from_slab(&mut slab.slab, index);
    if let Some(response) = &mut record.response {
        response.status = status;
    }
    record.promise = true;
}

/// The method, the authority, the path with its query, and the address and port of the peer.
pub fn op_get_request_method_and_url(slab: &HttpSlab, index: usize) -> (r: (
    String,
    Option<String>,
    String,
    String,
    Option<u16>,
))
    requires
        slab@.dom().contains(index),
    ensures
        ({
            let record = slab@[index];
            &&& r.0@ == record.request_parts.method@
            &&& crate::text::opt_text(r.1) == crate::text::opt_text(
                record.request_parts.authority,
            )
            &&& r.2@ == match record.request_parts.path_and_query {
                Some(path) => path@,
                None => ""@,
            }
            &&& r.3@ == record.request_info.peer_address@
            &&& r.4 == record.request_info.peer_port
        }),
{
    match get_from_slab(&slab.slab, index) {
        Some(record) => {
            let authority = match &record.request_parts.authority {
                Some(authority) => Some(authority.clone()),
                None => None,
            };
            // Only extract the path part - we handle authority elsewhere
            let path = match &record.request_parts.path_and_query {
                Some(path) => path.clone(),
                None => "".to_owned(),
            };
            (
                record.request_parts.method.clone(),
                authority,
                path,
                record.request_info.peer_address.clone(),
                record.request_info.peer_port,
            )
        },
        None => (String::new(), None, String::new(), String::new(), None),
    }
}

/// The value of the first header with the given name, in any case.
pub fn op_get_request_header(slab: &HttpSlab, index: usize, name: &str) -> (r: Option<Vec<u8>>)
    requires
        slab@.dom().contains(index),
    ensures
        opt_bytes(r) == if crate::http_headers::is_header_name(encode_utf8(name@)) {
            first_value(
                crate::http_headers::header_views(slab@[index].request_parts.headers@),
                crate::http_headers::header_name_text(encode_utf8(name@)),
            )
        } else {
            None
        },
{
    let name = match header_name(name.as_bytes()) {
        Some(name) => name,
        None => {
            return None;
        },
    };
    match get_from_slab(&slab.slab, index) {
        Some(record) => find_value(&record.request_parts.headers, name.as_str()),
        None => None,
    }
}

/// The headers of a request, with all cookies in one header, behind the others.
pub fn op_get_request_headers(slab: &HttpSlab, index: usize) -> (r: Vec<(Vec<u8>, Vec<u8>)>)
    requires
        slab@.dom().contains(index),
    ensures
        pair_views(r@) == script_view(
            crate::http_headers::header_views(slab@[index].request_parts.headers@),
        ),
{
    match get_from_slab(&slab.slab, index) {
        Some(record) => merge_cookies(&record.request_parts.headers),
        None => Vec::new(),
    }
}

/// Takes the body of the request, to be read by the given resource.
pub fn op_read_request_body(slab: &mut HttpSlab, index: usize, body_resource: ResourceId)
    requires
        old(slab)@.dom().contains(index),
        old(slab)@[index].request_body,
    ensures
        final(slab)@ == old(slab)@.insert(
            index,
            HttpSlabRecord {
                request_body: false,
                body: Some(body_resource),
                ..old(slab)@[index]
            },
        ),
{
    let record = get_mut_from_slab(&mut slab.slab, index);
    record.request_body = false;
    record.body = Some(body_resource);
}

/// Adds a header to the response.
pub fn op_set_response_header(slab: &mut HttpSlab, index: usize, name: &Vec<u8>, value: &Vec<u8>)
    requires
        old(slab).can_respond(index),
        is_header(name@, value@),
    ensures
        response_changed(old(slab)@, final(slab)@, index),
        final(slab)@[index].promise == old(slab)@[index].promise,
        ({
            let before = old(slab)@[index].response->Some_0;
            let after = final(slab)@[index].response->Some_0;
            &&& after.status == before.status
            &&& after.body == before.body
            &&& crate::http_headers::header_views(after.headers@)
                == crate::http_headers::header_views(before.headers@).push(
                given_header(name@, value@),
            )
        }),
{
    let record = get_mut_from_slab(&mut slab.slab, index);
    if let Some(response) = &mut record.response {
        append_header(&mut response.headers, name, value);
    }
}

/// Adds headers to the response.
pub fn op_set_response_headers(
    slab: &mut HttpSlab,
    index: usize,
    headers: &Vec<(Vec<u8>, Vec<u8>)>,
)
    requires
        old(slab).can_respond(index),
        are_headers(headers@),
    ensures
        response_changed(old(slab)@, final(slab)@, index),
        final(slab)@[index].promise == old(slab)@[index].promise,
        ({
            let before = old(slab)@[index].response->Some_0;
            let after = final(slab)@[index].response->Some_0;
            &&& after.status == before.status
            &&& after.body == before.body
            &&& crate::http_headers::header_views(after.headers@)
                == crate::http_headers::header_views(before.headers@) + given_headers(headers@)
        }),
{
    let record = get_mut_from_slab(&mut slab.slab, index);
    if let Some(response) = &mut record.response {
        append_headers(&mut response.headers, headers);
    }
}

/// The response has the data of a resource as its body. `found` is what looking the resource
/// up gave: where it is an error, nothing changes.
pub fn op_set_response_body_resource(
    slab: &mut HttpSlab,
    index: usize,
    stream_rid: ResourceId,
    auto_close: bool,
    found: Result<(), AnyError>,
) -> (r: Result<(), AnyError>)
    requires
        found is Ok ==> old(slab).can_respond(index),
    ensures
        r == found,
        final(slab)@ == if found is Ok {
            with_body(
                old(slab)@,
                index,
                ResponseBody::Resource { stream_rid, auto_close },
            )
        } else {
            old(slab)@
        },
{
    if found.is_ok() {
        slab.set_body(index, ResponseBody::Resource { stream_rid, auto_close });
    }
    found
}

/// The response has what a script writes as its body.
pub fn op_set_response_body_stream(slab: &mut HttpSlab, index: usize)
    requires
        old(slab).can_respond(index),
    ensures
        final(slab)@ == with_body(old(slab)@, index, ResponseBody::Stream),
{
    slab.set_body(index, ResponseBody::Stream);
}

/// The response has a text as its body. An empty text changes nothing.
pub fn op_set_response_body_text(slab: &mut HttpSlab, index: usize, text: &str)
    requires
        text@.len() > 0 ==> old(slab).can_respond(index),
    ensures
        text@.len() == 0 ==> final(slab)@ == old(slab)@,
        text@.len() > 0 ==> {
            let body = final(slab)@[index].response->Some_0.body;
            &&& body matches ResponseBody::Bytes(bytes) && bytes@ == encode_utf8(text@)
            &&& final(slab)@ == with_body(old(slab)@, index, body)
        },
{
    if !text.is_empty() {
        slab.set_body(index, ResponseBody::Bytes(text.as_bytes_vec()));
    }
}

/// The response has bytes as its body. An empty buffer changes nothing.
pub fn op_set_response_body_bytes(slab: &mut HttpSlab, index: usize, buffer: Vec<u8>)
    requires
        buffer@.len() > 0 ==> old(slab).can_respond(index),
    ensures
        final(slab)@ == if buffer@.len() > 0 {
            with_body(old(slab)@, index, ResponseBody::Bytes(buffer))
        } else {
            old(slab)@
        },
{
    if buffer.len() > 0 {
        slab.set_body(index, ResponseBody::Bytes(buffer));
    }
}

/// The records after the response of one of them got a body.
pub open spec fn with_body(
    records: Map<usize, HttpSlabRecord>,
    index: usize,
    body: ResponseBody,
) -> Map<usize, HttpSlabRecord> {
    records.insert(
        index,
        HttpSlabRecord {
            response: Some(Response { body, ..records[index].response->Some_0 }),
            ..records[index]
        },
    )
}

/// The bytes of an optional vector.
pub open spec fn opt_bytes(bytes: Option<Vec<u8>>) -> Option<Seq<u8>> {
    match bytes {
        Some(b) => Some(b@),
        None => None,
    }
}

/// The value of the first header with a name.
pub open spec fn first_value(headers: Seq<HeaderView>, name: Seq<char>) -> Option<Seq<u8>>
    decreases headers.len(),
{
    if headers.len() == 0 {
        None
    } else if headers[0].name == name {
        Some(headers[0].value)
    } else {
        first_value(headers.drop_first(), name)
    }
}

fn find_value(headers: &Vec<Header>, name: &str) -> (r: Option<Vec<u8>>)
    ensures
        opt_bytes(r) == first_value(crate::http_headers::header_views(headers@), name@),
{
    let ghost views = crate::http_headers::header_views(headers@);
    assert(views.skip(0) =~= views);
    let mut i: usize = 0;
    while i < headers.len()
        invariant
            i <= headers.len(),
            views == crate::http_headers::header_views(headers@),
            first_value(views, name@) == first_value(views.skip(i as int), name@),
        decreases headers.len() - i,
    {
        assert(views.skip(i as int).drop_first() =~= views.skip(i + 1));
        assert(views[i as int] == headers@[i as int]@);
        if str_eq(headers[i].name.as_str(), name) {
            return Some(vstd::slice::slice_to_vec(headers[i].value.as_slice()));
        }
        i += 1;
    }
    None
}

/// A header's name and value as bytes.
pub open spec fn header_bytes(header: HeaderView) -> (Seq<u8>, Seq<u8>) {
    (encode_utf8(header.name), header.value)
}

/// The headers of a list that are no cookies, in order, as bytes.
pub open spec fn other_headers(headers: Seq<HeaderView>) -> Seq<(Seq<u8>, Seq<u8>)>
    decreases headers.len(),
{
    if headers.len() == 0 {
        Seq::empty()
    } else {
        let before = other_headers(headers.drop_last());
        if headers.last().name == "cookie"@ {
            before
        } else {
            before.push(header_bytes(headers.last()))
        }
    }
}

/// The cookies of a list of headers, joined by a semicolon and a space, if there is one.
pub open spec fn joined_cookies(headers: Seq<HeaderView>) -> Option<Seq<u8>>
    decreases headers.len(),
{
    if headers.len() == 0 {
        None
    } else {
        let before = joined_cookies(headers.drop_last());
        if headers.last().name == "cookie"@ {
            match before {
                Some(cookies) => Some(cookies + encode_utf8("; "@) + headers.last().value),
                None => Some(headers.last().value),
            }
        } else {
            before
        }
    }
}

/// The headers of a request as a script sees them: those that are no cookies, and one header with
/// all cookies behind them, if there is one.
pub open spec fn script_view(headers: Seq<HeaderView>) -> Seq<(Seq<u8>, Seq<u8>)> {
    match joined_cookies(headers) {
        Some(cookies) => other_headers(headers).push((encode_utf8("cookie"@), cookies)),
        None => other_headers(headers),
    }
}

/// The bytes of a list of pairs.
pub open spec fn pair_views(pairs: Seq<(Vec<u8>, Vec<u8>)>) -> Seq<(Seq<u8>, Seq<u8>)> {
    pairs.map_values(|p: (Vec<u8>, Vec<u8>)| (p.0@, p.1@))
}

/// The headers as a script sees them.
pub fn merge_cookies(headers: &Vec<Header>) -> (r: Vec<(Vec<u8>, Vec<u8>)>)
    ensures
        pair_views(r@) == script_view(crate::http_headers::header_views(headers@)),
{
    let ghost views = crate::http_headers::header_views(headers@);
    let mut vec: Vec<(Vec<u8>, Vec<u8>)> = Vec::new();
    let mut cookies: Option<Vec<u8>> = None;
    let mut i: usize = 0;
    proof {
        assert(views.take(0) =~= Seq::empty());
        assert(pair_views(vec@) =~= Seq::empty());
    }
    while i < headers.len()
        invariant
            i <= headers.len(),
            views == crate::http_headers::header_views(headers@),
            pair_views(vec@) == other_headers(views.take(i as int)),
            opt_bytes(cookies) == joined_cookies(views.take(i as int)),
        decreases headers.len() - i,
    {
        let header = &headers[i];
        assert(views.take(i + 1).drop_last() =~= views.take(i as int));
        assert(views.take(i + 1).last() == header@);
        let mut value = vstd::slice::slice_to_vec(header.value.as_slice());
        if str_eq(header.name.as_str(), "cookie") {
            cookies = match cookies {
                Some(mut joined) => {
                    let ghost first = joined@;
                    let mut separator = "; ".as_bytes_vec();
                    joined.append(&mut separator);
                    joined.append(&mut value);
                    assert(joined@ =~= first + encode_utf8("; "@) + header.value@);
                    Some(joined)
                },
                None => Some(value),
            };
        } else {
            let ghost before = vec@;
            let name = header.name.as_str().as_bytes_vec();
            vec.push((name, value));
            assert(pair_views(vec@) =~= pair_views(before).push(header_bytes(header@)));
        }
        i += 1;
    }
    assert(views.take(i as int) =~= views);
    if let Some(joined) = cookies {
        let ghost before = vec@;
        vec.push(("cookie".as_bytes_vec(), joined));
        assert(pair_views(vec@) =~= pair_views(before).push((encode_utf8("cookie"@), joined@)));
    }
    vec
}

/// What a script that waits for a response to be sent learns. `completed` is what the body's end
/// gave: whether all of it was sent, or that the server was cancelled.
pub fn op_http_track(completed: Result<bool, ()>) -> (r: Result<(), AnyError>)
    ensures
        r is Ok <==> completed != Ok::<bool, ()>(false),
        r matches Err(e) ==> e@ == seq!["connection closed before message completed"@],
{
    match completed {
        Ok(true) => Ok(()),
        Ok(false) => Err(AnyError::new("connection closed before message completed".to_owned())),
        Err(_) => Ok(()),
    }
}

/// How far the answer to a request is.
#[derive(Debug, Clone, Copy, PartialEq, Eq, Structural)]
pub enum SlabPhase {
    /// The index of the request is being sent to the script.
    Sending,
    /// The script has the request.
    Waiting,
    /// The script will not get the request.
    Closed,
}

/// The answer to a request, which becomes ready when the script is done with it.
#[derive(Debug, Clone, Copy, PartialEq, Eq, Structural)]
pub struct SlabFuture {
    pub index: usize,
    pub phase: SlabPhase,
}

/// Takes a request in. Its index is to be sent to the script.
pub fn new_slab_future(
    slab: &mut HttpSlab,
    request: RequestParts,
    request_info: HttpConnectionProperties,
) -> (r: SlabFuture)
    ensures
        r.phase is Sending,
        !old(slab)@.dom().contains(r.index),
        is_new_record(final(slab)@[r.index], request, request_info),
        final(slab)@ == old(slab)@.insert(r.index, final(slab)@[r.index]),
{
    let index = slab.slab_insert(request, request_info);
    SlabFuture { index, phase: SlabPhase::Sending }
}

impl SlabFuture {
    /// The response can be taken: the script is done with the request, or will not get it.
    pub open spec fn is_ready(self, records: Map<usize, HttpSlabRecord>) -> bool {
        self.phase is Closed || (self.phase is Waiting && records[self.index].promise)
    }

    /// The index was sent to the script, or could not be sent because nobody receives it.
    pub fn sent(&mut self, delivered: bool)
        ensures
            final(self).index == old(self).index,
            final(self).phase == if delivered {
                SlabPhase::Waiting
            } else {
                SlabPhase::Closed
            },
    {
        // We only need to wait for completion if we aren't closed
        self.phase = if delivered {
            SlabPhase::Waiting
        } else {
            SlabPhase::Closed
        };
    }

    /// The response, if it is ready.
    pub fn poll(&self, slab: &mut HttpSlab) -> (r: Option<Response>)
        requires
            old(slab).can_respond(self.index),
        ensures
            r is Some <==> self.is_ready(old(slab)@),
            match r {
                Some(response) => {
                    &&& response == old(slab)@[self.index].response->Some_0
                    &&& final(slab)@ == old(slab)@.insert(
                        self.index,
                        HttpSlabRecord { response: None, ..old(slab)@[self.index] },
                    )
                },
                None => final(slab)@ == old(slab)@,
            },
    {
        let promise = match slab.get(self.index) {
            Some(record) => record.promise,
            None => false,
        };
        let ready = match self.phase {
            SlabPhase::Sending => false,
            SlabPhase::Waiting => promise,
            SlabPhase::Closed => true,
        };
        if ready {
            Some(slab.take_response(self.index))
        } else {
            None
        }
    }

    /// The server is done with the request, and forgets it.
    pub fn drop_request(self, slab: &mut HttpSlab)
        requires
            old(slab)@.dom().contains(self.index),
        ensures
            final(slab)@ == old(slab)@.remove(self.index),
    {
        let _record = slab.remove(self.index);
    }
}

/// A request that was taken in and forgotten leaves the others as they were, whatever was done with
/// it in between.
pub proof fn forgotten_request_leaves_no_trace(
    before: Map<usize, HttpSlabRecord>,
    index: usize,
    record: HttpSlabRecord,
)
    requires
        !before.dom().contains(index),
    ensures
        before.insert(index, record).remove(index) == before,
{
    assert(before.insert(index, record).remove(index) =~= before);
}

/// What is done to one request is not seen by another: the operations change nothing but the record
/// at their index.
pub proof fn requests_are_separate(
    before: Map<usize, HttpSlabRecord>,
    after: Map<usize, HttpSlabRecord>,
    index: usize,
    other: usize,
)
    requires
        after == before.insert(index, after[index]),
        other != index,
    ensures
        after.dom().contains(other) == before.dom().contains(other),
        before.dom().contains(other) ==> after[other] == before[other],
{
}

/// A response is taken once: after [`SlabFuture::poll`] has given it, there is none to be changed or
/// to be taken.
pub proof fn response_is_taken_once(before: HttpSlab, after: HttpSlab, index: usize)
    requires
        before.can_respond(index),
        after@ == before@.insert(index, HttpSlabRecord { response: None, ..before@[index] }),
    ensures
        !after.can_respond(index),
        after@.dom() == before@.dom(),
{
    assert(after@.dom() =~= before@.dom());
}

/// A request without cookies is seen with its headers as they are.
pub proof fn headers_without_cookies_stay(headers: Seq<HeaderView>)
    requires
        forall|i: int| 0 <= i < headers.len() ==> (#[trigger] headers[i]).name != "cookie"@,
    ensures
        joined_cookies(headers) is None,
        script_view(headers) == headers.map_values(|h: HeaderView| header_bytes(h)),
    decreases headers.len(),
{
    if headers.len() > 0 {
        let shorter = headers.drop_last();
        assert forall|i: int| 0 <= i < shorter.len() implies (#[trigger] shorter[i]).name
            != "cookie"@ by {
            assert(shorter[i] == headers[i]);
        }
        headers_without_cookies_stay(shorter);
        assert(headers[headers.len() - 1].name != "cookie"@);
        assert(script_view(headers) =~= headers.map_values(|h: HeaderView| header_bytes(h)));
    } else {
        assert(script_view(headers) =~= headers.map_values(|h: HeaderView| header_bytes(h)));
    }
}

/// A script never sees a header named `cookie` but, if at all, as the last one.
pub proof fn cookies_come_last(headers: Seq<HeaderView>, i: int)
    requires
        0 <= i < script_view(headers).len(),
        script_view(headers)[i].0 == encode_utf8("cookie"@),
    ensures
        joined_cookies(headers) is Some,
        i == script_view(headers).len() - 1,
{
    if i < other_headers(headers).len() {
        let k = other_header_is_no_cookie(headers, i);
        encode_utf8_decode_utf8(headers[k].name);
        encode_utf8_decode_utf8("cookie"@);
    }
}

proof fn other_header_is_no_cookie(headers: Seq<HeaderView>, i: int) -> (k: int)
    requires
        0 <= i < other_headers(headers).len(),
    ensures
        0 <= k < headers.len(),
        headers[k].name != "cookie"@,
        other_headers(headers)[i] == header_bytes(headers[k]),
    decreases headers.len(),
{
    let before = other_headers(headers.drop_last());
    if i < before.len() {
        other_header_is_no_cookie(headers.drop_last(), i)
    } else {
        headers.len() - 1
    }
}

/// How the bytes of a connection come.
#[derive(Debug, Clone, Copy, PartialEq, Eq, Structural)]
pub enum NetworkStreamKind {
    Tcp,
    Tls,
    Unix,
}

/// The protocol that a connection is served by.
#[derive(Debug, Clone, Copy, PartialEq, Eq, Structural)]
pub enum HttpProtocol {
    /// HTTP/1, on a connection that is kept and that can be taken over.
    Http1,
    Http2,
}

/// The protocol of an encrypted connection: HTTP/2 where the handshake agreed on `h2`.
pub fn serve_https(alpn_protocol: Option<&Vec<u8>>) -> (r: HttpProtocol)
    ensures
        r is Http2 <==> (alpn_protocol matches Some(name) && name@ == seq![104u8, 50u8]),
{
    if let Some(name) = alpn_protocol {
        if name.len() == 2 && name[0] == 104 && name[1] == 50 {
            assert(name@ =~= seq![104u8, 50u8]);
            return HttpProtocol::Http2;
        }
    }
    HttpProtocol::Http1
}

/// The protocol of a connection that is not encrypted.
pub fn serve_http() -> (r: HttpProtocol)
    ensures
        r is Http1,
{
    HttpProtocol::Http1
}

/// The address of a peer.
#[derive(Debug, Clone, PartialEq, Eq)]
pub struct PeerAddress {
    pub host: String,
    pub port: u16,
}

/// How a connection is served.
#[derive(Debug, Clone, PartialEq, Eq)]
pub struct ServePlan {
    pub peer_address: PeerAddress,
    /// The protocol, or `None` where the handshake decides on it.
    pub protocol: Option<HttpProtocol>,
}

impl ServePlan {
    /// The plan is the one for a connection. Where the peer's address is not known, one is made up.
    pub open spec fn serves(
        self,
        stream: NetworkStreamKind,
        peer_address: Result<PeerAddress, AnyError>,
    ) -> bool {
        &&& match peer_address {
            Ok(address) => self.peer_address == address,
            Err(_) => self.peer_address.host@ == "0.0.0.0"@ && self.peer_address.port == 0,
        }
        &&& self.protocol == match stream {
            NetworkStreamKind::Tls => None,
            _ => Some(HttpProtocol::Http1),
        }
    }
}

/// How a connection is served.
pub fn serve_http_on(
    stream: NetworkStreamKind,
    peer_address: Result<PeerAddress, AnyError>,
) -> (r: ServePlan)
    ensures
        r.serves(stream, peer_address),
{
    // We always want some sort of peer address. If we can't get one, just make up one.
    let peer_address = match peer_address {
        Ok(address) => address,
        Err(_) => PeerAddress { host: "0.0.0.0".to_owned(), port: 0 },
    };
    let protocol = match stream {
        NetworkStreamKind::Tcp => Some(serve_http()),
        NetworkStreamKind::Tls => None,
        NetworkStreamKind::Unix => Some(serve_http()),
    };
    ServePlan { peer_address, protocol }
}

/// What a server does with a connection that it has accepted, or that it could not accept.
#[derive(Debug, Clone, PartialEq, Eq)]
pub enum AcceptStep {
    /// Serve the connection, and accept the next one.
    Serve(ServePlan),
    /// Stop with the error.
    Stop(AnyError),
}

/// One round of a server: it goes on until it cannot accept a connection, as it cannot after it was
/// cancelled.
pub fn accept_next(
    accepted: Result<(NetworkStreamKind, Result<PeerAddress, AnyError>), AnyError>,
) -> (r: AcceptStep)
    ensures
        match accepted {
            Err(e) => r == AcceptStep::Stop(e),
            Ok((stream, peer_address)) => r matches AcceptStep::Serve(plan) && plan.serves(
                stream,
                peer_address,
            ),
        },
{
    match accepted {
        Err(e) => AcceptStep::Stop(e),
        Ok((stream, peer_address)) => AcceptStep::Serve(serve_http_on(stream, peer_address)),
    }
}

/// Where a server listens.
#[derive(Debug, Clone, PartialEq, Eq)]
pub struct HttpListenProperties {
    pub scheme: String,
    pub fallback_host: String,
}

/// What a script learns of a server: its resource, the scheme, and the host that requests without
/// one are for. The server is started only where both the listener or connection and its local
/// address could be had.
pub open spec fn is_serve_result(
    r: Result<(ResourceId, String, String), AnyError>,
    stream: Result<(), AnyError>,
    listen_properties: Result<HttpListenProperties, AnyError>,
    rid: ResourceId,
) -> bool {
    match (stream, listen_properties) {
        (Err(e), _) => r == Err::<(ResourceId, String, String), AnyError>(e),
        (Ok(_), Err(e)) => r == Err::<(ResourceId, String, String), AnyError>(e),
        (Ok(_), Ok(properties)) => r == Ok::<(ResourceId, String, String), AnyError>(
            (rid, properties.scheme, properties.fallback_host),
        ),
    }
}

/// What a script learns of a server on a listener.
pub fn op_serve_http(
    listener: Result<(), AnyError>,
    listen_properties: Result<HttpListenProperties, AnyError>,
    rid: ResourceId,
) -> (r: Result<(ResourceId, String, String), AnyError>)
    ensures
        is_serve_result(r, listener, listen_properties, rid),
{
    if let Err(e) = listener {
        return Err(e);
    }
    match listen_properties {
        Ok(properties) => Ok((rid, properties.scheme, properties.fallback_host)),
        Err(e) => Err(e),
    }
}

/// What a script learns of a server on one connection.
pub fn op_serve_http_on(
    conn: Result<(), AnyError>,
    listen_properties: Result<HttpListenProperties, AnyError>,
    rid: ResourceId,
) -> (r: Result<(ResourceId, String, String), AnyError>)
    ensures
        is_serve_result(r, conn, listen_properties, rid),
{
    op_serve_http(conn, listen_properties, rid)
}

/// A running server, as far as its state goes beyond its task.
#[derive(Debug, Clone, Copy, PartialEq, Eq, Structural)]
pub struct HttpJoinHandle {
    /// Nobody has waited for the end of the task yet.
    pub has_task: bool,
    /// The server was cancelled.
    pub cancelled: bool,
}

impl HttpJoinHandle {
    /// A server whose task was started.
    pub fn new() -> (r: HttpJoinHandle)
        ensures
            r == (HttpJoinHandle { has_task: true, cancelled: false }),
    {
        HttpJoinHandle { has_task: true, cancelled: false }
    }

    pub fn name(&self) -> (r: &'static str)
        ensures
            r@ == "http"@,
    {
        "http"
    }

    /// Closing the resource cancels the server.
    pub fn close(&mut self)
        ensures
            *final(self) == (HttpJoinHandle { cancelled: true, ..*old(self) }),
    {
        self.cancelled = true;
    }
}

/// What an error of a server comes from.
#[derive(Debug, Clone, PartialEq, Eq)]
pub struct ServeFailure {
    pub error: AnyError,
    /// The error was caused by an I/O error that says that the socket is not connected.
    pub is_not_connected: bool,
}

/// What comes next for a script that waits for a request.
#[derive(Debug, Clone, Copy, PartialEq, Eq, Structural)]
pub enum WaitStep {
    /// There is a request.
    Request(u32),
    /// There will be no more requests: wait for the server to end.
    JoinServer,
}

/// What comes next for a script that waits for a request. `next` is the index of a request, or
/// `None` where there are no more requests or the server was cancelled. The end of the server is
/// waited for once.
pub fn op_http_wait(join_handle: &mut HttpJoinHandle, next: Option<usize>) -> (r: WaitStep)
    requires
        next is None ==> old(join_handle).has_task,
    ensures
        match next {
            Some(index) => {
                &&& r == WaitStep::Request((index as nat % 0x1_0000_0000) as u32)
                &&& *final(join_handle) == *old(join_handle)
            },
            None => {
                &&& r is JoinServer
                &&& *final(join_handle) == (HttpJoinHandle {
                    has_task: false,
                    ..*old(join_handle)
                })
            },
        },
{
    match next {
        Some(index) => WaitStep::Request((index as u64 % 0x1_0000_0000) as u32),
        None => {
            join_handle.has_task = false;
            WaitStep::JoinServer
        },
    }
}

/// What a script learns when the server has ended: the greatest number, or the error that the
/// server ended with. That a socket is not connected is no error, but how a server is shut down.
/// `joined` is the end of the server's task, and `taken` what taking its resource gave.
pub fn op_http_wait_joined(
    joined: Result<Result<(), ServeFailure>, AnyError>,
    taken: Result<(), AnyError>,
) -> (r: Result<u32, AnyError>)
    ensures
        match (joined, taken) {
            (Err(e), _) => r == Err::<u32, AnyError>(e),
            (Ok(_), Err(e)) => r == Err::<u32, AnyError>(e),
            (Ok(Ok(_)), Ok(_)) => r == Ok::<u32, AnyError>(u32::MAX),
            (Ok(Err(failure)), Ok(_)) => if failure.is_not_connected {
                r == Ok::<u32, AnyError>(u32::MAX)
            } else {
                r == Err::<u32, AnyError>(failure.error)
            },
        },
{
    let res = match joined {
        Ok(res) => res,
        Err(e) => {
            return Err(e);
        },
    };
    if let Err(e) = taken {
        return Err(e);
    }
    // Filter out shutdown (ENOTCONN) errors
    if let Err(failure) = res {
        if failure.is_not_connected {
            return Ok(u32::MAX);
        }
        return Err(failure.error);
    }
    Ok(u32::MAX)
}

/// A request that is taken in gets an index that no other request has, and its record is as new: its body is
/// there to be read, its response is an empty one with the status 200, and it waits for the script. All
/// other requests stay as they are.
pub proof fn request_is_taken_in(
    slab: &mut HttpSlab,
    request: RequestParts,
    request_info: HttpConnectionProperties,
    r: SlabFuture,
    other: usize,
)
    requires
        call_ensures(new_slab_future, (slab, request, request_info), r),
    ensures
        !old(slab)@.dom().contains(r.index),
        final(slab)@.dom().contains(r.index),
        r.phase is Sending,
        ({
            let record = final(slab)@[r.index];
            &&& record.request_parts == request
            &&& record.request_info == request_info
            &&& record.request_body
            &&& record.body is None
            &&& !record.promise
            &&& record.response matches Some(response) && response.status == 200
                && response.headers@.len() == 0 && response.body is Empty
        }),
        other != r.index ==> (final(slab)@.dom().contains(other) <==> old(slab)@.dom().contains(
            other,
        )) && (old(slab)@.dom().contains(other) ==> final(slab)@[other] == old(slab)@[other]),
{
}

/// A response can be taken when the script has said that it is complete, or will not get the request; not
/// while its index is being sent. Once taken, it is no longer there.
pub proof fn response_is_taken_when_complete(
    future: &SlabFuture,
    slab: &mut HttpSlab,
    r: Option<Response>,
)
    requires
        old(slab).can_respond(future.index),
        call_ensures(SlabFuture::poll, (future, slab), r),
    ensures
        future.phase is Sending ==> r is None,
        future.phase is Closed ==> r is Some,
        future.phase is Waiting ==> (r is Some <==> old(slab)@[future.index].promise),
        r matches Some(response) ==> old(slab)@[future.index].response == Some(response) && final(slab)@[future.index].response is None,
        r is None ==> final(slab)@ == old(slab)@,
{
}

/// An index that was delivered makes the server wait for the script; one that could not be delivered does
/// not.
pub proof fn undelivered_request_is_not_waited_for(future: &mut SlabFuture, delivered: bool)
    requires
        call_ensures(SlabFuture::sent, (future, delivered), ()),
    ensures
        final(future).index == old(future).index,
        delivered ==> final(future).phase is Waiting,
        !delivered ==> final(future).phase is Closed,
{
}

/// A connection that can be taken over answers with the status 101 and the given headers behind those that
/// the response has, can be sent, and cannot be taken over again. One that cannot be is an error that
/// changes nothing.
pub proof fn connection_is_taken_over_once(
    slab: &mut HttpSlab,
    index: usize,
    headers: &Vec<(Vec<u8>, Vec<u8>)>,
    r: Result<(), AnyError>,
    i: int,
)
    requires
        old(slab).can_respond(index),
        are_headers(headers@),
        call_ensures(op_upgrade, (slab, index, headers), r),
    ensures
        r is Ok <==> old(slab)@[index].request_parts.can_upgrade,
        r matches Err(e) ==> e@ == seq!["upgrade unavailable"@] && final(slab)@ == old(slab)@,
        r is Ok ==> {
            let before = old(slab)@[index].response->Some_0;
            let after = final(slab)@[index].response->Some_0;
            &&& !final(slab)@[index].request_parts.can_upgrade
            &&& final(slab)@[index].promise
            &&& final(slab)@[index].response is Some
            &&& after.status == 101
            &&& after.body == before.body
            &&& after.headers@.len() == before.headers@.len() + headers@.len()
            &&& 0 <= i < before.headers@.len() ==> after.headers@[i]@ == before.headers@[i]@
            &&& 0 <= i < headers@.len() ==> after.headers@[before.headers@.len() + i].value@
                == headers@[i].1@ && after.headers@[before.headers@.len() + i].name@
                == crate::http_headers::header_name_text(headers@[i].0@)
        },
{
    if r is Ok {
        let before = old(slab)@[index].response->Some_0;
        let after = final(slab)@[index].response->Some_0;
        headers_are_behind_the_others(before.headers@, after.headers@, headers@, i);
    }
}

proof fn headers_are_behind_the_others(
    before: Seq<Header>,
    after: Seq<Header>,
    added: Seq<(Vec<u8>, Vec<u8>)>,
    i: int,
)
    requires
        crate::http_headers::header_views(after) == crate::http_headers::header_views(before)
            + given_headers(added),
    ensures
        after.len() == before.len() + added.len(),
        0 <= i < before.len() ==> after[i]@ == before[i]@,
        0 <= i < added.len() ==> after[before.len() + i].value@ == added[i].1@ && after[before.len()
            + i].name@ == crate::http_headers::header_name_text(added[i].0@),
{
    let views = crate::http_headers::header_views(after);
    let first = crate::http_headers::header_views(before);
    let second = given_headers(added);
    assert(views.len() == first.len() + second.len());
    if 0 <= i < before.len() {
        assert(views[i] == first[i]);
    }
    if 0 <= i < added.len() {
        assert(views[before.len() + i] == second[i]);
        assert(views[before.len() + i] == after[before.len() + i]@);
    }
}

/// Headers that are set on a response come behind those that it has, in their order, each with its value and
/// its name in lower case. Nothing else of the response changes, and it is not sent by that.
pub proof fn headers_are_added_to_the_response(
    slab: &mut HttpSlab,
    index: usize,
    headers: &Vec<(Vec<u8>, Vec<u8>)>,
    i: int,
)
    requires
        old(slab).can_respond(index),
        are_headers(headers@),
        call_ensures(op_set_response_headers, (slab, index, headers), ()),
    ensures
        ({
            let before = old(slab)@[index].response->Some_0;
            let after = final(slab)@[index].response->Some_0;
            &&& final(slab)@[index].response is Some
            &&& after.status == before.status
            &&& after.body == before.body
            &&& final(slab)@[index].promise == old(slab)@[index].promise
            &&& after.headers@.len() == before.headers@.len() + headers@.len()
            &&& 0 <= i < before.headers@.len() ==> after.headers@[i]@ == before.headers@[i]@
            &&& 0 <= i < headers@.len() ==> after.headers@[before.headers@.len() + i].value@
                == headers@[i].1@ && after.headers@[before.headers@.len() + i].name@
                == crate::http_headers::header_name_text(headers@[i].0@)
        }),
{
    let before = old(slab)@[index].response->Some_0;
    let after = final(slab)@[index].response->Some_0;
    headers_are_behind_the_others(before.headers@, after.headers@, headers@, i);
}

/// One header that is set on a response comes behind those that it has.
pub proof fn header_is_added_to_the_response(
    slab: &mut HttpSlab,
    index: usize,
    name: &Vec<u8>,
    value: &Vec<u8>,
)
    requires
        old(slab).can_respond(index),
        is_header(name@, value@),
        call_ensures(op_set_response_header, (slab, index, name, value), ()),
    ensures
        ({
            let before = old(slab)@[index].response->Some_0;
            let after = final(slab)@[index].response->Some_0;
            &&& after.status == before.status
            &&& after.body == before.body
            &&& final(slab)@[index].promise == old(slab)@[index].promise
            &&& after.headers@.len() == before.headers@.len() + 1
            &&& after.headers@.last().value@ == value@
            &&& after.headers@.last().name@ == crate::http_headers::header_name_text(name@)
        }),
{
    let before = old(slab)@[index].response->Some_0;
    let after = final(slab)@[index].response->Some_0;
    let views = crate::http_headers::header_views(after.headers@);
    assert(views.len() == before.headers@.len() + 1);
    assert(views.last() == after.headers@.last()@);
}

/// Completing a response gives it its status and lets it be sent; its headers and its body stay.
pub proof fn complete_response_can_be_sent(slab: &mut HttpSlab, index: usize, status: u16)
    requires
        old(slab).can_respond(index),
        call_ensures(op_set_promise_complete, (slab, index, status), ()),
    ensures
        final(slab)@[index].promise,
        final(slab)@[index].response matches Some(response) && response.status == status
            && response.headers == old(slab)@[index].response->Some_0.headers && response.body
            == old(slab)@[index].response->Some_0.body,
{
}

/// Giving a response a body changes nothing else of it, and does not let it be sent. An empty text and an
/// empty buffer change nothing at all.
pub proof fn body_is_set(
    text_slab: &mut HttpSlab,
    bytes_slab: &mut HttpSlab,
    stream_slab: &mut HttpSlab,
    index: usize,
    text: &str,
    buffer: Vec<u8>,
)
    requires
        old(text_slab).can_respond(index),
        old(bytes_slab).can_respond(index),
        old(stream_slab).can_respond(index),
        call_ensures(op_set_response_body_text, (text_slab, index, text), ()),
        call_ensures(op_set_response_body_bytes, (bytes_slab, index, buffer), ()),
        call_ensures(op_set_response_body_stream, (stream_slab, index), ()),
    ensures
        text@.len() == 0 ==> final(text_slab)@ == old(text_slab)@,
        text@.len() > 0 ==> (final(text_slab)@[index].response->Some_0.body matches ResponseBody::Bytes(bytes) && bytes@ == encode_utf8(
            text@,
        )),
        final(text_slab)@[index].response->Some_0.status == old(text_slab)@[index].response->Some_0.status,
        final(text_slab)@[index].response->Some_0.headers == old(text_slab)@[index].response->Some_0.headers,
        final(text_slab)@[index].promise == old(text_slab)@[index].promise,
        buffer@.len() == 0 ==> final(bytes_slab)@ == old(bytes_slab)@,
        buffer@.len() > 0 ==> final(bytes_slab)@[index].response->Some_0.body
            == ResponseBody::Bytes(buffer),
        final(bytes_slab)@[index].response->Some_0.status == old(bytes_slab)@[index].response->Some_0.status,
        final(bytes_slab)@[index].promise == old(bytes_slab)@[index].promise,
        final(stream_slab)@[index].response->Some_0.body is Stream,
        final(stream_slab)@[index].promise == old(stream_slab)@[index].promise,
{
}

/// A resource is the body of a response only where it was found; otherwise nothing changes, and the error is
/// handed on.
pub proof fn resource_body_has_to_be_found(
    slab: &mut HttpSlab,
    index: usize,
    stream_rid: ResourceId,
    auto_close: bool,
    found: Result<(), AnyError>,
    r: Result<(), AnyError>,
)
    requires
        old(slab).can_respond(index),
        call_ensures(
            op_set_response_body_resource,
            (slab, index, stream_rid, auto_close, found),
            r,
        ),
    ensures
        r == found,
        found is Err ==> final(slab)@ == old(slab)@,
        found is Ok ==> final(slab)@[index].response->Some_0.body == (ResponseBody::Resource {
            stream_rid,
            auto_close,
        }) && final(slab)@[index].promise == old(slab)@[index].promise,
{
}

/// The body of a request is taken by a resource, and is no longer there to be read.
pub proof fn request_body_is_taken(slab: &mut HttpSlab, index: usize, body_resource: ResourceId)
    requires
        old(slab)@.dom().contains(index),
        call_ensures(op_read_request_body, (slab, index, body_resource), ()),
    ensures
        !final(slab)@[index].request_body,
        final(slab)@[index].body == Some(body_resource),
        final(slab)@[index].request_parts == old(slab)@[index].request_parts,
        final(slab)@[index].response == old(slab)@[index].response,
        final(slab)@[index].promise == old(slab)@[index].promise,
{
}

/// A script learns the method, the authority, the path and the peer of a request; a request without a path has
/// an empty one.
pub proof fn request_is_learned(
    slab: &HttpSlab,
    index: usize,
    r: (String, Option<String>, String, String, Option<u16>),
)
    requires
        call_ensures(op_get_request_method_and_url, (slab, index), r),
    ensures
        r.0@ == slab@[index].request_parts.method@,
        r.1 is Some <==> slab@[index].request_parts.authority is Some,
        r.1 matches Some(authority) ==> authority@
            == slab@[index].request_parts.authority->Some_0@,
        slab@[index].request_parts.path_and_query matches Some(path) ==> r.2@ == path@,
        slab@[index].request_parts.path_and_query is None ==> r.2@.len() == 0,
        r.3@ == slab@[index].request_info.peer_address@,
        r.4 == slab@[index].request_info.peer_port,
{
    reveal_strlit("");
}

/// The value of a header is that of the first header with the name, in whatever case it is asked for. Where
/// there is none, and where the name is none of a header, there is no value.
pub proof fn first_header_is_found(
    slab: &HttpSlab,
    index: usize,
    name: &str,
    r: Option<Vec<u8>>,
    i: int,
)
    requires
        call_ensures(op_get_request_header, (slab, index, name), r),
        0 <= i <= slab@[index].request_parts.headers@.len(),
        forall|k: int|
            0 <= k < i ==> (#[trigger] slab@[index].request_parts.headers@[k]).name@
                != crate::http_headers::header_name_text(encode_utf8(name@)),
    ensures
        ({
            let headers = slab@[index].request_parts.headers@;
            let asked = crate::http_headers::header_name_text(encode_utf8(name@));
            &&& i == headers.len() ==> r is None
            &&& !crate::http_headers::is_header_name(encode_utf8(name@)) ==> r is None
            &&& crate::http_headers::is_header_name(encode_utf8(name@)) && i < headers.len()
                && headers[i].name@ == asked ==> (r matches Some(value) && value@
                == headers[i].value@)
        }),
{
    let headers = slab@[index].request_parts.headers@;
    let views = crate::http_headers::header_views(headers);
    let asked = crate::http_headers::header_name_text(encode_utf8(name@));
    assert forall|k: int| 0 <= k < i implies (#[trigger] views[k]).name != asked by {
        assert(views[k] == headers[k]@);
    }
    other_names_are_passed_over(views, asked, i);
    if i < headers.len() {
        assert(views.skip(i)[0] == headers[i]@);
    }
}

proof fn other_names_are_passed_over(headers: Seq<HeaderView>, name: Seq<char>, i: int)
    requires
        0 <= i <= headers.len(),
        forall|k: int| 0 <= k < i ==> (#[trigger] headers[k]).name != name,
    ensures
        first_value(headers, name) == first_value(headers.skip(i), name),
    decreases i,
{
    if i == 0 {
        assert(headers.skip(0) =~= headers);
    } else {
        other_names_are_passed_over(headers, name, i - 1);
        assert(headers[i - 1].name != name);
        assert(headers.skip(i - 1)[0] == headers[i - 1]);
        assert(headers.skip(i - 1).drop_first() =~= headers.skip(i));
    }
}

/// A script sees all headers of a request that are no cookies, in their order and as they are.
pub proof fn other_headers_are_all_seen(headers: Seq<HeaderView>)
    ensures
        other_headers(headers) == headers.filter(
            |h: HeaderView| h.name != "cookie"@,
        ).map_values(|h: HeaderView| (encode_utf8(h.name), h.value)),
        other_headers(headers).is_prefix_of(script_view(headers)),
    decreases headers.len(),
{
    reveal(Seq::filter);
    if headers.len() > 0 {
        other_headers_are_all_seen(headers.drop_last());
    }
    assert(other_headers(headers) =~= headers.filter(
        |h: HeaderView| h.name != "cookie"@,
    ).map_values(|h: HeaderView| (encode_utf8(h.name), h.value)));
}

/// One more cookie of a request is seen behind the others, with a semicolon and a space between them; the
/// first one is seen alone. Headers that are no cookies do not change what is seen of the cookies.
pub proof fn cookies_are_joined(headers: Seq<HeaderView>, header: HeaderView)
    ensures
        headers.len() == 0 ==> joined_cookies(headers) is None,
        header.name != "cookie"@ ==> joined_cookies(headers.push(header)) == joined_cookies(headers),
        header.name == "cookie"@ && joined_cookies(headers) is None ==> joined_cookies(
            headers.push(header),
        ) == Some(header.value),
        header.name == "cookie"@ && joined_cookies(headers) is Some ==> joined_cookies(
            headers.push(header),
        ) == Some(joined_cookies(headers)->Some_0 + seq![0x3bu8, 0x20u8] + header.value),
        joined_cookies(headers) is Some ==> script_view(headers).last().0 == encode_utf8("cookie"@)
            && script_view(headers).last().1 == joined_cookies(headers)->Some_0
            && script_view(headers).len() == other_headers(headers).len() + 1,
        joined_cookies(headers) is None ==> script_view(headers).len() == other_headers(
            headers,
        ).len(),
{
    assert(headers.push(header).drop_last() =~= headers);
    reveal_strlit("; ");
    assert("; "@ =~= seq![';', ' ']);
    assert(is_ascii_chars("; "@));
    is_ascii_chars_encode_utf8("; "@);
    assert(encode_utf8("; "@) =~= seq![0x3bu8, 0x20u8]);
}

/// A request has cookies exactly where one of its headers is named `cookie`.
pub proof fn cookies_are_seen_where_there_are_some(headers: Seq<HeaderView>)
    ensures
        joined_cookies(headers) is Some <==> exists|i: int|
            0 <= i < headers.len() && (#[trigger] headers[i]).name == "cookie"@,
    decreases headers.len(),
{
    if headers.len() > 0 {
        let shorter = headers.drop_last();
        cookies_are_seen_where_there_are_some(shorter);
        if headers.last().name == "cookie"@ {
            assert(headers[headers.len() - 1].name == "cookie"@);
        } else if joined_cookies(shorter) is Some {
            let i = choose|i: int| 0 <= i < shorter.len() && (#[trigger] shorter[i]).name == "cookie"@;
            assert(headers[i].name == "cookie"@);
        } else {
            assert forall|i: int| 0 <= i < headers.len() implies (#[trigger] headers[i]).name
                != "cookie"@ by {
                if i < shorter.len() {
                    assert(shorter[i] == headers[i]);
                }
            }
        }
    }
}

/// An encrypted connection is served by HTTP/2 exactly where the handshake agreed on `h2`.
pub proof fn handshake_decides_on_the_protocol(alpn_protocol: Option<&Vec<u8>>, r: HttpProtocol)
    requires
        call_ensures(serve_https, (alpn_protocol,), r),
    ensures
        alpn_protocol is None ==> r is Http1,
        alpn_protocol matches Some(name) ==> (r is Http2 <==> name@ == encode_utf8("h2"@)),
{
    reveal_strlit("h2");
    assert("h2"@ =~= seq!['h', '2']);
    assert(is_ascii_chars("h2"@));
    is_ascii_chars_encode_utf8("h2"@);
    assert(encode_utf8("h2"@) =~= seq![104u8, 50u8]);
}

/// A connection that was accepted is served, and one that could not be accepted ends the server with its
/// error. The handshake of an encrypted connection decides on its protocol; all others are served by
/// HTTP/1. Where the address of the peer is not known, it is `0.0.0.0` with the port 0.
pub proof fn accepted_connection_is_served(
    stream: NetworkStreamKind,
    peer_address: Result<PeerAddress, AnyError>,
    error: AnyError,
    served: AcceptStep,
    stopped: AcceptStep,
)
    requires
        call_ensures(accept_next, (Ok((stream, peer_address)),), served),
        call_ensures(accept_next, (Err(error),), stopped),
    ensures
        stopped == AcceptStep::Stop(error),
        served matches AcceptStep::Serve(plan) && {
            &&& stream is Tls ==> plan.protocol is None
            &&& !(stream is Tls) ==> plan.protocol == Some(HttpProtocol::Http1)
            &&& peer_address matches Ok(address) ==> plan.peer_address == address
            &&& peer_address is Err ==> plan.peer_address.host@ == "0.0.0.0"@
                && plan.peer_address.port == 0
        },
{
}

/// A server is started only where there are a listener and its local address, and the script learns its
/// resource, its scheme and its host; otherwise it learns the first error.
pub proof fn server_needs_a_listener(
    listener: Result<(), AnyError>,
    listen_properties: Result<HttpListenProperties, AnyError>,
    rid: ResourceId,
    r: Result<(ResourceId, String, String), AnyError>,
)
    requires
        call_ensures(op_serve_http, (listener, listen_properties, rid), r),
    ensures
        r is Ok <==> listener is Ok && listen_properties is Ok,
        r matches Ok((id, scheme, host)) ==> id == rid && scheme
            == listen_properties->Ok_0.scheme && host == listen_properties->Ok_0.fallback_host,
        r matches Err(e) ==> if listener is Err {
            listener->Err_0 == e
        } else {
            listen_properties->Err_0 == e
        },
{
}

/// A script that waits gets the index of the next request, and the server goes on; when there are no more
/// requests, it waits for the end of the server, once.
pub proof fn end_of_the_server_is_waited_for_once(
    join_handle: &mut HttpJoinHandle,
    next: Option<usize>,
    r: WaitStep,
)
    requires
        call_ensures(op_http_wait, (join_handle, next), r),
    ensures
        next is None ==> r is JoinServer && !final(join_handle).has_task,
        next is Some ==> r is Request && final(join_handle).has_task == old(join_handle).has_task,
        next matches Some(index) ==> (index <= 0xffff_ffff ==> r == WaitStep::Request(index as u32)),
        next matches Some(index) ==> (r matches WaitStep::Request(n) && (index - n) % 0x1_0000_0000
            == 0),
        final(join_handle).cancelled == old(join_handle).cancelled,
{
}

/// What a script learns of the end of a server: the greatest number where it ended well or because its socket
/// was not connected, and its error otherwise. A task that failed, and a resource that was not there, come
/// first.
pub proof fn unconnected_socket_is_no_error(
    joined: Result<Result<(), ServeFailure>, AnyError>,
    taken: Result<(), AnyError>,
    r: Result<u32, AnyError>,
)
    requires
        call_ensures(op_http_wait_joined, (joined, taken), r),
    ensures
        r matches Ok(n) ==> n == 0xffff_ffff,
        r is Ok <==> joined is Ok && taken is Ok && (joined->Ok_0 is Ok
            || joined->Ok_0->Err_0.is_not_connected),
        r matches Err(e) ==> if joined is Err {
            e == joined->Err_0
        } else if taken is Err {
            e == taken->Err_0
        } else {
            e == joined->Ok_0->Err_0.error
        },
{
}

/// A script that tracks a response learns an error only where the connection was closed before all of it was
/// sent; a cancelled server is none.
pub proof fn cancelled_response_is_no_error(completed: Result<bool, ()>, r: Result<(), AnyError>)
    requires
        call_ensures(op_http_track, (completed,), r),
    ensures
        completed is Err ==> r is Ok,
        completed matches Ok(done) ==> (r is Ok <==> done),
        r matches Err(e) ==> e@ == seq!["connection closed before message completed"@],
{
}

/// A status has three digits.
pub proof fn status_has_three_digits(status: u16, r: bool)
    requires
        call_ensures(is_status_code, (status,), r),
    ensures
        r <==> crate::text::decimal(status as nat).len() == 3 && status >= 100 && status <= 999,
{
    if 100 <= status <= 999 {
        reveal_with_fuel(crate::text::decimal, 4);
    }
}

/// A server is running until its resource is closed, and closing it does not wait for its end.
pub proof fn closing_cancels_the_server(started: HttpJoinHandle, handle: &mut HttpJoinHandle)
    requires
        call_ensures(HttpJoinHandle::new, (), started),
        call_ensures(HttpJoinHandle::close, (handle,), ()),
    ensures
        started.has_task && !started.cancelled,
        final(handle).cancelled,
        final(handle).has_task == old(handle).has_task,
{
}

/// A script sees every header of a request that is no cookie, under its name and with its value, and nothing
/// twice: there are as many as there are such headers, and one more for the cookies, if there are any.
pub proof fn script_sees_the_headers(
    slab: &HttpSlab,
    index: usize,
    r: Vec<(Vec<u8>, Vec<u8>)>,
)
    requires
        call_ensures(op_get_request_headers, (slab, index), r),
    ensures
        ({
            let headers = crate::http_headers::header_views(
                slab@[index].request_parts.headers@,
            );
            let others = headers.filter(|h: HeaderView| h.name != "cookie"@);
            let has_cookies = exists|i: int|
                0 <= i < headers.len() && (#[trigger] headers[i]).name == "cookie"@;
            &&& r@.len() == others.len() + (if has_cookies {
                1int
            } else {
                0int
            })
            &&& forall|k: int|
                0 <= k < others.len() ==> (#[trigger] r@[k]).0@ == encode_utf8(others[k].name)
                    && r@[k].1@ == others[k].value
            &&& has_cookies ==> r@.last().0@ == encode_utf8("cookie"@) && joined_cookies(headers)
                == Some(r@.last().1@)
        }),
{
    let headers = crate::http_headers::header_views(slab@[index].request_parts.headers@);
    let others = headers.filter(|h: HeaderView| h.name != "cookie"@);
    let views = pair_views(r@);
    let all = script_view(headers);
    other_headers_are_all_seen(headers);
    cookies_are_seen_where_there_are_some(headers);
    assert(views == all);
    assert(views.len() == r@.len());
    assert(other_headers(headers).len() == others.len());
    assert forall|k: int| 0 <= k < others.len() implies (#[trigger] r@[k]).0@ == encode_utf8(
        others[k].name,
    ) && r@[k].1@ == others[k].value by {
        assert(views[k] == (r@[k].0@, r@[k].1@));
        assert(all[k] == other_headers(headers)[k]);
    }
    if joined_cookies(headers) is Some {
        assert(views.last() == (r@.last().0@, r@.last().1@));
    }
}

/// A request that the server is done with is forgotten, and no other.
pub proof fn only_the_request_is_forgotten(future: SlabFuture, slab: &mut HttpSlab, other: usize)
    requires
        call_ensures(SlabFuture::drop_request, (future, slab), ()),
        old(slab)@.dom().contains(future.index),
    ensures
        !final(slab)@.dom().contains(future.index),
        other != future.index ==> (final(slab)@.dom().contains(other) <==> old(slab)@.dom().contains(
            other,
        )),
        other != future.index && old(slab)@.dom().contains(other) ==> final(slab)@[other] == old(
            slab
        )@[other],
{
}

} // verus!
