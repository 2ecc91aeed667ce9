//! Header names and values, and the parts of a request's URI.

use vstd::prelude::*;
use vstd::string::*;

verus! {

/// A character that a header name can have.
pub open spec fn is_name_byte(b: u8) -> bool {
    ||| 0x61 <= b <= 0x7a
    ||| 0x41 <= b <= 0x5a
    ||| 0x30 <= b <= 0x39
    ||| b == 0x21
    ||| 0x23 <= b <= 0x27
    ||| b == 0x2a
    ||| b == 0x2b
    ||| b == 0x2d
    ||| b == 0x2e
    ||| 0x5e <= b <= 0x60
    ||| b == 0x7c
    ||| b == 0x7e
}

/// The bytes are a header name.
pub open spec fn is_header_name(name: Seq<u8>) -> bool {
    1 <= name.len() <= 65535 && forall|i: int|
        0 <= i < name.len() ==> is_name_byte(#[trigger] name[i])
}

/// The lower-case form of an ASCII byte, as a character.
pub open spec fn lower(b: u8) -> char {
    if 0x41 <= b <= 0x5a {
        (b + 0x20) as char
    } else {
        b as char
    }
}

/// A header name as it is written: in lower case.
pub open spec fn header_name_text(name: Seq<u8>) -> Seq<char> {
    name.map_values(|b: u8| lower(b))
}

/// The bytes are a header value: they are no control characters but tabs.
pub open spec fn is_header_value(value: Seq<u8>) -> bool {
    forall|i: int|
        0 <= i < value.len() ==> (#[trigger] value[i] >= 32 && value[i] != 127) || value[i] == 9
}

/// The bytes are a header value that is a text: they are visible ASCII characters or tabs.
pub open spec fn is_header_text(value: Seq<u8>) -> bool {
    forall|i: int|
        0 <= i < value.len() ==> (32 <= #[trigger] value[i] && value[i] < 127) || value[i] == 9
}

/// ASCII bytes as characters.
pub open spec fn ascii_text(value: Seq<u8>) -> Seq<char> {
    value.map_values(|b: u8| b as char)
}

/// Calls `http::HeaderName::from_bytes`. It takes the names of at most 65535 characters that RFC
/// 9110 calls tokens, and writes them in lower case.
#[verifier::external_body]
fn name_with_http(name: &[u8]) -> (r: Option<String>)
    ensures
        r is Some <==> is_header_name(name@),
        r matches Some(text) ==> text@ == header_name_text(name@),
{
    Some(http::HeaderName::from_bytes(name).ok()?.as_str().to_owned())
}

/// Calls `http::HeaderValue::from_bytes`. It takes every byte but control characters other than
/// the tab.
#[verifier::external_body]
fn is_value_with_http(value: &[u8]) -> (r: bool)
    ensures
        r == is_header_value(value@),
{
    http::HeaderValue::from_bytes(value).is_ok()
}

/// Calls `http::HeaderValue::to_str`. It gives the text of a value that has nothing but visible
/// ASCII characters and tabs.
#[verifier::external_body]
fn text_with_http(value: &[u8]) -> (r: Option<String>)
    requires
        is_header_value(value@),
    ensures
        r is Some <==> is_header_text(value@),
        r matches Some(text) ==> text@ == ascii_text(value@),
{
    let value = http::HeaderValue::from_bytes(value).unwrap();
    Some(value.to_str().ok()?.to_owned())
}

/// The header name that the bytes stand for, in lower case.
pub fn header_name(name: &[u8]) -> (r: Option<String>)
    ensures
        r is Some <==> is_header_name(name@),
        r matches Some(text) ==> text@ == header_name_text(name@),
{
    name_with_http(name)
}

/// Whether the bytes are a header value.
pub fn is_value(value: &[u8]) -> (r: bool)
    ensures
        r == is_header_value(value@),
{
    is_value_with_http(value)
}

/// The text of a header value, if it is one.
pub fn header_text(value: &[u8]) -> (r: Option<String>)
    requires
        is_header_value(value@),
    ensures
        r is Some <==> is_header_text(value@),
        r matches Some(text) ==> text@ == ascii_text(value@),
{
    text_with_http(value)
}

/// A header, with its name in lower case.
#[derive(Debug, Clone, PartialEq, Eq)]
pub struct Header {
    pub name: String,
    pub value: Vec<u8>,
}

/// What a [`Header`] holds.
#[verifier::ext_equal]
pub struct HeaderView {
    pub name: Seq<char>,
    pub value: Seq<u8>,
}

impl View for Header {
    type V = HeaderView;

    open spec fn view(&self) -> HeaderView {
        HeaderView { name: self.name@, value: self.value@ }
    }
}

/// What a sequence of headers holds.
pub open spec fn header_views(headers: Seq<Header>) -> Seq<HeaderView> {
    headers.map_values(|h: Header| h@)
}

/// The parts of a URI that a connection is made by.
#[derive(Debug, Clone, PartialEq, Eq)]
pub struct UriParts {
    pub scheme: Option<String>,
    pub authority: Option<String>,
    pub host: Option<String>,
    pub port: Option<u16>,
}

/// What [`UriParts`] hold.
#[verifier::ext_equal]
pub struct UriView {
    pub scheme: Option<Seq<char>>,
    pub authority: Option<Seq<char>>,
    pub host: Option<Seq<char>>,
    pub port: Option<u16>,
}

impl View for UriParts {
    type V = UriView;

    open spec fn view(&self) -> UriView {
        UriView {
            scheme: crate::text::opt_text(self.scheme),
            authority: crate::text::opt_text(self.authority),
            host: crate::text::opt_text(self.host),
            port: self.port,
        }
    }
}

/// What parsing a text as an `http::Uri` gives: the parts of the URI, or the message of the error.
pub uninterp spec fn parsed_uri(text: Seq<char>) -> Result<UriView, Seq<char>>;

/// What a result holds.
pub open spec fn uri_result(r: Result<UriParts, String>) -> Result<UriView, Seq<char>> {
    match r {
        Ok(parts) => Ok(parts@),
        Err(e) => Err(e@),
    }
}

/// Parses a text as an `http::Uri`, which is a function of the text. A URI has a host exactly where
/// it has an authority.
#[verifier::external_body]
fn parse_with_http(text: &str) -> (r: Result<UriParts, String>)
    ensures
        uri_result(r) == parsed_uri(text@),
        r matches Ok(parts) ==> (parts.host is Some <==> parts.authority is Some),
{
    let uri = text.parse::<http::Uri>().map_err(|e| e.to_string())?;
    Ok(UriParts {
        scheme: uri.scheme_str().map(str::to_owned),
        authority: uri.authority().map(|a| a.as_str().to_owned()),
        host: uri.host().map(str::to_owned),
        port: uri.port_u16(),
    })
}

impl UriParts {
    /// The parts of the URI that a text holds, or what is wrong with the text.
    pub fn parse(text: &str) -> (r: Result<UriParts, String>)
        ensures
            uri_result(r) == parsed_uri(text@),
            r matches Ok(parts) ==> (parts.host is Some <==> parts.authority is Some),
    {
        parse_with_http(text)
    }
}

} // verus!
