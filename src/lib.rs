//! Client library for a REST satellite-scheduling service.
//!
//! The library holds what a client decides, each part verified against its contract:
//!
//! - [`container`]: the owned and shared wrappers in which results are handed out;
//! - [`pagination`]: the engine that walks a paginated collection page by page;
//! - [`cache`]: the single-flight, URL-keyed response cache;
//! - [`api`] and [`client`]: the request context and the URL of every query;
//! - [`post`]: typestate builders for the bodies of POST requests;
//! - [`extensions`]: ids and links of the service's models.
//!
//! Performing requests (HTTP, decoding, scheduling of concurrent work) is left to the
//! transport that drives these parts.
use vstd::prelude::*;

pub mod api;
pub mod cache;
pub mod client;
pub mod container;
pub mod error;
pub mod extensions;
pub mod keyed;
pub mod pagination;
pub mod post;
pub mod text;
pub mod uri;

pub use api::FreedomApi;
pub use cache::{Lookup, Response, ResponseCache};
pub use client::Client;
pub use container::{FreedomApiContainer, FreedomApiValue, Inner};
pub use error::Error;
pub use extensions::{BandExt, SiteConfigurationExt, SiteExt};
pub use pagination::{Page, Paginator, Step};
pub use post::{
    OverrideBuilder, SatelliteBuilder, SatelliteConfigurationBuilder, TaskRequestBuilder,
    UserBuilder,
};
pub use text::{list_to_string, Timestamp};

verus! {

} // verus!
