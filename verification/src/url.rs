//! URLs.

use vstd::prelude::*;

verus! {

/// What `url::Url::parse` makes of a text: the serialization of the URL, or the message of the
/// error.
pub uninterp spec fn parsed_url(text: Seq<char>) -> Result<Seq<char>, Seq<char>>;

/// The texts of a result.
pub open spec fn result_texts(r: Result<String, String>) -> Result<Seq<char>, Seq<char>> {
    match r {
        Ok(t) => Ok(t@),
        Err(e) => Err(e@),
    }
}

/// Calls `url::Url::parse`, whose result is a function of the text.
#[verifier::external_body]
fn parse_with_url(text: &str) -> (r: Result<String, String>)
    ensures
        result_texts(r) == parsed_url(text@),
{
    match url::Url::parse(text) {
        Ok(url) => Ok(url.to_string()),
        Err(e) => Err(e.to_string()),
    }
}

/// The serialization of the URL that a text holds, or what is wrong with the text.
pub fn parse_url(text: &str) -> (r: Result<String, String>)
    ensures
        result_texts(r) == parsed_url(text@),
{
    parse_with_url(text)
}

/// What `url::Url::join` makes of a reference in a document with the URL `base`: the serialization
/// of the URL; `None` where `base` is no URL or the reference leads to none.
pub uninterp spec fn joined_url(base: Seq<char>, reference: Seq<char>) -> Option<Seq<char>>;

/// Calls `url::Url::join`, whose result is a function of the URL and the reference.
#[verifier::external_body]
fn join_with_url(base: &str, reference: &str) -> (r: Option<String>)
    ensures
        crate::text::opt_text(r) == joined_url(base@, reference@),
{
    Some(url::Url::parse(base).ok()?.join(reference).ok()?.to_string())
}

/// The serialization of the URL that a reference leads to from the document with the URL `base`.
pub fn join_url(base: &str, reference: &str) -> (r: Option<String>)
    ensures
        crate::text::opt_text(r) == joined_url(base@, reference@),
{
    join_with_url(base, reference)
}

/// What `url::Url::make_relative` makes of two URLs: the reference that leads from the first to
/// the second, if there is one; `None` where one of the texts is no URL.
pub uninterp spec fn relative_url(from: Seq<char>, to: Seq<char>) -> Option<Seq<char>>;

/// Calls `url::Url::make_relative`, whose result is a function of the two URLs.
#[verifier::external_body]
fn make_relative_with_url(from: &str, to: &str) -> (r: Option<String>)
    ensures
        crate::text::opt_text(r) == relative_url(from@, to@),
{
    url::Url::parse(from).ok()?.make_relative(&url::Url::parse(to).ok()?)
}

/// The reference that leads from one URL to another, if there is one.
pub fn make_relative(from: &str, to: &str) -> (r: Option<String>)
    ensures
        crate::text::opt_text(r) == relative_url(from@, to@),
{
    make_relative_with_url(from, to)
}

} // verus!
