//! The body of a new satellite.
use vstd::prelude::*;

use crate::api::{url_step, FreedomApi};
use crate::error::Error;
use crate::text::decimal_text;
use crate::uri::joined_url;

verus! {

/// A new satellite.
pub struct Satellite {
    pub name: String,
    pub description: Option<String>,
    pub norad_cat_id: u32,
    pub configuration: String,
}

/// Builds a [`Satellite`], one required field at a time.
pub struct SatelliteBuilder<'a, C, S> {
    client: &'a C,
    state: S,
}

impl<'a, C, S> SatelliteBuilder<'a, C, S> {
    /// The fields given so far.
    pub closed spec fn current(&self) -> S {
        self.state
    }

    /// The client the body is for.
    pub closed spec fn client_ref(&self) -> &'a C {
        self.client
    }

    /// The fields given so far.
    pub fn state(&self) -> (r: &S)
        ensures
            *r == self.current(),
    {
        &self.state
    }

    /// The client the body is for.
    pub fn client(&self) -> (r: &'a C)
        ensures
            r == self.client_ref(),
    {
        self.client
    }
}

/// Starts a satellite body for `client`.
pub fn new<C>(client: &C) -> (r: SatelliteBuilder<'_, C, NoName>)
    ensures
        r.client_ref() == client,
{
    SatelliteBuilder { client, state: NoName }
}

/// No field given yet.
pub struct NoName;

impl<'a, C> SatelliteBuilder<'a, C, NoName> {
    /// Gives the satellite's name.
    pub fn name(self, name: String) -> (r: SatelliteBuilder<'a, C, NoConfig>)
        ensures
            r.client_ref() == self.client_ref(),
            r.current() == (NoConfig { name }),
    {
        SatelliteBuilder { client: self.client, state: NoConfig { name } }
    }
}

/// The name is given.
pub struct NoConfig {
    pub name: String,
}

impl<'a, C> SatelliteBuilder<'a, C, NoConfig> {
    /// Gives the URL of the satellite's configuration.
    pub fn satellite_configuration_url(self, url: String) -> (r: SatelliteBuilder<'a, C, NoNorad>)
        ensures
            r.client_ref() == self.client_ref(),
            r.current() == (NoNorad { name: self.current().name, configuration: url }),
    {
        SatelliteBuilder {
            client: self.client,
            state: NoNorad { name: self.state.name, configuration: url },
        }
    }
}

impl<'a, C: FreedomApi> SatelliteBuilder<'a, C, NoConfig> {
    /// Gives the satellite's configuration by id, as its URL under the client's entrypoint.
    pub fn satellite_configuration_id(self, id: i32) -> (r: Result<
        SatelliteBuilder<'a, C, NoNorad>,
        Error,
    >)
        ensures
            url_step(
                r,
                joined_url(
                    self.client_ref().entrypoint_view(),
                    "satellite_configurations/"@ + decimal_text(id as int),
                ),
                |b: SatelliteBuilder<'a, C, NoNorad>, u: Seq<char>|
                    b.client_ref() == self.client_ref() && b.current().name == self.current().name
                        && b.current().configuration@ == u,
            ),
    {
        let configuration = self.client.satellite_configuration_url(id)?;
        Ok(self.satellite_configuration_url(configuration))
    }
}

/// The name and configuration are given.
pub struct NoNorad {
    pub name: String,
    pub configuration: String,
}

impl<'a, C> SatelliteBuilder<'a, C, NoNorad> {
    /// Gives the satellite's NORAD catalogue id; the satellite is then complete, without a
    /// description.
    pub fn norad_id(self, norad_id: u32) -> (r: SatelliteBuilder<'a, C, Satellite>)
        ensures
            r.client_ref() == self.client_ref(),
            r.current() == (Satellite {
                name: self.current().name,
                description: None,
                norad_cat_id: norad_id,
                configuration: self.current().configuration,
            }),
    {
        let state = Satellite {
            name: self.state.name,
            description: None,
            norad_cat_id: norad_id,
            configuration: self.state.configuration,
        };
        SatelliteBuilder { client: self.client, state }
    }
}

impl<'a, C> SatelliteBuilder<'a, C, Satellite> {
    /// Gives the satellite a description, replacing any earlier one.
    pub fn description(self, description: String) -> (r: Self)
        ensures
            r.client_ref() == self.client_ref(),
            r.current() == (Satellite { description: Some(description), ..self.current() }),
    {
        let mut b = self;
        b.state.description = Some(description);
        b
    }
}

} // verus!
