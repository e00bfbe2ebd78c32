//! The body of a new satellite configuration.
use vstd::prelude::*;

use crate::api::{band_urls_spec, url_step, FreedomApi};
use crate::error::Error;
use crate::text::texts_view;

verus! {

/// A new satellite configuration: a name, the bands it uses, and optional settings.
pub struct SatelliteConfiguration {
    pub name: String,
    pub doppler: Option<bool>,
    pub notes: Option<String>,
    pub band_details: Vec<String>,
}

/// No field given yet.
pub struct NoName;

/// Builds a [`SatelliteConfiguration`], one required field at a time.
pub struct SatelliteConfigurationBuilder<'a, C, S> {
    client: &'a C,
    state: S,
}

impl<'a, C, S> SatelliteConfigurationBuilder<'a, C, S> {
    /// The fields given so far.
    pub closed spec fn current(&self) -> S {
        self.state
    }

    /// The client the body is for.
    pub closed spec fn client_ref(&self) -> &'a C {
        self.client
    }

    /// The fields given so far.
    pub fn state(&self) -> (r: &S)
        ensures
            *r == self.current(),
    {
        &self.state
    }

    /// The client the body is for.
    pub fn client(&self) -> (r: &'a C)
        ensures
            r == self.client_ref(),
    {
        self.client
    }
}

/// Starts a satellite configuration body for `client`.
pub fn new<C>(client: &C) -> (r: SatelliteConfigurationBuilder<'_, C, NoName>)
    ensures
        r.client_ref() == client,
{
    SatelliteConfigurationBuilder { client, state: NoName }
}

impl<'a, C> SatelliteConfigurationBuilder<'a, C, NoName> {
    /// Gives the configuration's name.
    pub fn name(self, name: String) -> (r: SatelliteConfigurationBuilder<'a, C, NoBand>)
        ensures
            r.client_ref() == self.client_ref(),
            r.current() == (NoBand { name }),
    {
        SatelliteConfigurationBuilder { client: self.client, state: NoBand { name } }
    }
}

/// The name is given.
pub struct NoBand {
    pub name: String,
}

impl<'a, C> SatelliteConfigurationBuilder<'a, C, NoBand> {
    /// Gives the URLs of the bands; the configuration is then complete, with no doppler
    /// setting and no notes.
    pub fn band_urls(self, urls: Vec<String>) -> (r: SatelliteConfigurationBuilder<
        'a,
        C,
        SatelliteConfiguration,
    >)
        ensures
            r.client_ref() == self.client_ref(),
            r.current() == (SatelliteConfiguration {
                name: self.current().name,
                doppler: None,
                notes: None,
                band_details: urls,
            }),
    {
        let state = SatelliteConfiguration {
            name: self.state.name,
            doppler: None,
            notes: None,
            band_details: urls,
        };
        SatelliteConfigurationBuilder { client: self.client, state }
    }
}

impl<'a, C: FreedomApi> SatelliteConfigurationBuilder<'a, C, NoBand> {
    /// Gives the bands by id, as their URLs under the client's entrypoint, in order.
    pub fn band_ids(self, ids: Vec<i32>) -> (r: Result<
        SatelliteConfigurationBuilder<'a, C, SatelliteConfiguration>,
        Error,
    >)
        ensures
            match band_urls_spec(self.client_ref().entrypoint_view(), ids@) {
                Ok(us) => r matches Ok(b) && b.client_ref() == self.client_ref()
                    && b.current().name == self.current().name && b.current().doppler is None
                    && b.current().notes is None && texts_view(b.current().band_details@) == us,
                Err(m) => r matches Err(Error::InvalidUri(t)) && t@ == m,
            },
    {
        let urls = self.client.band_detail_urls(&ids)?;
        Ok(self.band_urls(urls))
    }
}

impl<'a, C> SatelliteConfigurationBuilder<'a, C, SatelliteConfiguration> {
    /// Sets whether doppler correction applies.
    pub fn doppler(self, doppler: bool) -> (r: Self)
        ensures
            r.client_ref() == self.client_ref(),
            r.current() == (SatelliteConfiguration { doppler: Some(doppler), ..self.current() }),
    {
        let mut b = self;
        b.state.doppler = Some(doppler);
        b
    }

    /// Sets the notes, replacing any earlier ones.
    pub fn notes(self, notes: String) -> (r: Self)
        ensures
            r.client_ref() == self.client_ref(),
            r.current() == (SatelliteConfiguration { notes: Some(notes), ..self.current() }),
    {
        let mut b = self;
        b.state.notes = Some(notes);
        b
    }
}

} // verus!
