//! Navigation along the HATEOAS links that the service's models carry.
//!
//! Each model holds links by relation name ("self", "users", ...). A model's id is the last
//! path segment of its "self" link; the other links lead to related resources.
use freedom_models::band::Band;
use freedom_models::site::{Site, SiteConfiguration};
use vstd::prelude::*;

use crate::error::Error;
use crate::pagination::opt_view;
use crate::text::{i32_of_text, parse_i32};

verus! {

#[verifier::external_type_specification]
#[verifier::external_body]
pub struct ExBand(freedom_models::band::Band);

#[verifier::external_type_specification]
#[verifier::external_body]
pub struct ExSite(freedom_models::site::Site);

#[verifier::external_type_specification]
#[verifier::external_body]
pub struct ExSiteConfiguration(freedom_models::site::SiteConfiguration);

/// The last path segment of the URL `url`: `Err` with the parser's message when the text
/// does not parse, `Ok(None)` when the URL has no path segments.
pub uninterp spec fn final_segment(url: Seq<char>) -> Result<Option<Seq<char>>, Seq<char>>;

/// Relies on `url::Url::parse` and `Url::path_segments`: the last segment of the path.
#[verifier::external_body]
fn last_path_segment(url: &str) -> (r: Result<Option<String>, String>)
    ensures
        match r {
            Ok(s) => final_segment(url@) == Ok::<Option<Seq<char>>, Seq<char>>(opt_view(s)),
            Err(m) => final_segment(url@) == Err::<Option<Seq<char>>, Seq<char>>(m@),
        },
{
    match url::Url::parse(url) {
        Ok(u) => match u.path_segments() {
            Some(segments) => Ok(segments.last().map(|s| s.to_owned())),
            None => Ok(None),
        },
        Err(e) => Err(e.to_string()),
    }
}

/// Relies on `Hateoas::get_links` and `HashMap::get`: the text of the model's link with
/// relation `rel`, if it has one. The links are the model's own; nothing is assumed of them.
#[verifier::external_body]
fn hateoas_link<H: freedom_models::Hateoas>(model: &H, rel: &str) -> (r: Option<String>) {
    model.get_links().get(rel).map(|u| u.to_string())
}

/// The link `link` found under relation `reference`, or `MissingUri` naming the relation.
pub fn link_or_missing(reference: &str, link: Option<String>) -> (r: Result<String, Error>)
    ensures
        match link {
            Some(l) => r == Ok::<String, Error>(l),
            None => r matches Err(Error::MissingUri(t)) && t@ == reference@,
        },
{
    match link {
        Some(l) => Ok(l),
        None => Err(Error::MissingUri(reference.to_owned())),
    }
}

/// Whether `r` is the id that the link `link`, found under relation `reference`, gives.
pub open spec fn id_result(r: Result<i32, Error>, reference: Seq<char>, link: Option<Seq<char>>) -> bool {
    match link {
        None => r matches Err(Error::MissingUri(t)) && t@ == reference,
        Some(l) => segment_id_result(r, final_segment(l)),
    }
}

/// Whether `r` is the id that the last path segment `segment` of a link gives.
pub open spec fn segment_id_result(r: Result<i32, Error>, segment: Result<Option<Seq<char>>, Seq<char>>) -> bool {
    match segment {
        Err(m) => r matches Err(Error::InvalidUri(t)) && t@ == m,
        Ok(None) => r matches Err(Error::InvalidUri(t)) && t@ == "Missing Path"@,
        Ok(Some(seg)) => match i32_of_text(seg) {
            Some(v) => r == Ok::<i32, Error>(v),
            None => r matches Err(Error::InvalidId),
        },
    }
}

/// The view of a segment lookup.
pub open spec fn segment_view(s: Result<Option<String>, String>) -> Result<Option<Seq<char>>, Seq<char>> {
    match s {
        Ok(o) => Ok(opt_view(o)),
        Err(m) => Err(m@),
    }
}

/// The id that the last path segment of a link gives (`Ok(None)` when the link has no
/// path, `Err` with the message when it did not parse): the segment read as an `i32`,
/// else `InvalidId`; a link without a path or that did not parse gives `InvalidUri`.
pub fn id_from_segment(segment: Result<Option<String>, String>) -> (r: Result<i32, Error>)
    ensures
        segment_id_result(r, segment_view(segment)),
{
    match segment {
        Err(m) => Err(Error::InvalidUri(m)),
        Ok(None) => Err(Error::InvalidUri("Missing Path".to_owned())),
        Ok(Some(seg)) => match parse_i32(seg.as_str()) {
            Some(v) => Ok(v),
            None => Err(Error::InvalidId),
        },
    }
}

/// The id of a resource from its link under relation `reference`: the last path segment
/// read as an integer. A missing link gives `MissingUri`, a link without a path
/// `InvalidUri`, and a segment that is not an `i32` `InvalidId`.
pub fn get_id(reference: &str, link: Option<String>) -> (r: Result<i32, Error>)
    ensures
        id_result(r, reference@, opt_view(link)),
{
    let url = link_or_missing(reference, link)?;
    id_from_segment(last_path_segment(url.as_str()))
}

/// Ids of satellite bands.
pub trait BandExt {
    /// The id in the band's "self" link.
    fn get_id(&self) -> Result<i32, Error>;
}

impl BandExt for Band {
    fn get_id(&self) -> Result<i32, Error> {
        get_id("self", hateoas_link(self, "self"))
    }
}

/// Ids of site configurations.
pub trait SiteConfigurationExt {
    /// The id in the configuration's "self" link.
    fn get_id(&self) -> Result<i32, Error>;
}

impl SiteConfigurationExt for SiteConfiguration {
    fn get_id(&self) -> Result<i32, Error> {
        get_id("self", hateoas_link(self, "self"))
    }
}

/// Ids of sites.
pub trait SiteExt {
    /// The id in the site's "self" link.
    fn get_id(&self) -> Result<i32, Error>;
}

impl SiteExt for Site {
    fn get_id(&self) -> Result<i32, Error> {
        get_id("self", hateoas_link(self, "self"))
    }
}

} // verus!
