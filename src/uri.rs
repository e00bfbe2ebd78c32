//! Text-level URL operations, each resting on the `url` crate.
//!
//! URLs travel through the library as their serialized text. What the `url` crate computes
//! from that text (resolution of a relative reference, query replacement) is named by the
//! spec functions below; the library's contracts speak of those names.
use vstd::prelude::*;

verus! {

/// Whether the text parses as an absolute URL that has a host.
pub uninterp spec fn host_present(s: Seq<char>) -> bool;

/// The text of `rel` resolved against the absolute URL `base`, or the parser's message.
pub uninterp spec fn joined_url(base: Seq<char>, rel: Seq<char>) -> Result<Seq<char>, Seq<char>>;

/// The text of `url` with its query replaced by `query`, or the parser's message.
pub uninterp spec fn queried_url(url: Seq<char>, query: Seq<char>) -> Result<
    Seq<char>,
    Seq<char>,
>;

/// Relies on `url::Url::parse` and `Url::has_host`: true when the text is an absolute URL
/// with a host, false when it has none or does not parse as an absolute URL.
#[verifier::external_body]
pub(crate) fn url_has_host(s: &str) -> (r: bool)
    ensures
        r == host_present(s@),
{
    match url::Url::parse(s) {
        Ok(u) => u.has_host(),
        Err(_) => false,
    }
}

/// Relies on `url::Url::join`: resolves `rel` against `base` (RFC 3986 reference resolution);
/// a parse failure comes back as the parser's message.
#[verifier::external_body]
pub(crate) fn url_join(base: &str, rel: &str) -> (r: Result<String, String>)
    ensures
        match r {
            Ok(u) => joined_url(base@, rel@) == Ok::<Seq<char>, Seq<char>>(u@),
            Err(m) => joined_url(base@, rel@) == Err::<Seq<char>, Seq<char>>(m@),
        },
{
    match url::Url::parse(base) {
        Ok(b) => match b.join(rel) {
            Ok(u) => Ok(u.to_string()),
            Err(e) => Err(e.to_string()),
        },
        Err(e) => Err(e.to_string()),
    }
}

/// Relies on `url::Url::set_query`: replaces the query of `url` by `query`, percent-encoding
/// what a query may not hold; a parse failure of `url` comes back as the parser's message.
#[verifier::external_body]
pub(crate) fn url_set_query(url: &str, query: &str) -> (r: Result<String, String>)
    ensures
        match r {
            Ok(u) => queried_url(url@, query@) == Ok::<Seq<char>, Seq<char>>(u@),
            Err(m) => queried_url(url@, query@) == Err::<Seq<char>, Seq<char>>(m@),
        },
{
    match url::Url::parse(url) {
        Ok(mut u) => {
            u.set_query(Some(query));
            Ok(u.to_string())
        },
        Err(e) => Err(e.to_string()),
    }
}

} // verus!
