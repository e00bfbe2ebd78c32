//! The body of a new override: named property values for a satellite and configuration.
use vstd::prelude::*;

use crate::api::{url_step, FreedomApi};
use crate::error::Error;
use crate::keyed::{keys_unique, position};
use crate::text::decimal_text;
use crate::uri::joined_url;

verus! {

/// A new override.
pub struct Override {
    pub name: String,
    pub satellite: String,
    pub configuration: String,
    /// Property names and values; a name appears at most once.
    pub properties: Vec<(String, String)>,
}

/// The view of a list of properties.
pub open spec fn props_view(p: Seq<(String, String)>) -> Seq<(Seq<char>, Seq<char>)> {
    p.map_values(|e: (String, String)| (e.0@, e.1@))
}

/// `props` with `key` set to `value`: the first entry with that name takes the value,
/// otherwise the pair is added at the end.
pub open spec fn set_property(
    props: Seq<(Seq<char>, Seq<char>)>,
    key: Seq<char>,
    value: Seq<char>,
) -> Seq<(Seq<char>, Seq<char>)> {
    if exists|i: int| 0 <= i < props.len() && #[trigger] props[i].0 == key {
        let i = choose|i: int|
            0 <= i < props.len() && #[trigger] props[i].0 == key && forall|j: int|
                0 <= j < i ==> props[j].0 != key;
        props.update(i, (key, value))
    } else {
        props.push((key, value))
    }
}

/// Builds an [`Override`], one required field at a time.
pub struct OverrideBuilder<'a, C, S> {
    client: &'a C,
    state: S,
}

impl<'a, C, S> OverrideBuilder<'a, C, S> {
    /// The fields given so far.
    pub closed spec fn current(&self) -> S {
        self.state
    }

    /// The client the body is for.
    pub closed spec fn client_ref(&self) -> &'a C {
        self.client
    }

    /// The fields given so far.
    pub fn state(&self) -> (r: &S)
        ensures
            *r == self.current(),
    {
        &self.state
    }

    /// The client the body is for.
    pub fn client(&self) -> (r: &'a C)
        ensures
            r == self.client_ref(),
    {
        self.client
    }
}

/// Starts an override body for `client`.
pub fn new<C>(client: &C) -> (r: OverrideBuilder<'_, C, NoName>)
    ensures
        r.client_ref() == client,
{
    OverrideBuilder { client, state: NoName }
}

/// No field given yet.
pub struct NoName;

impl<'a, C> OverrideBuilder<'a, C, NoName> {
    /// Gives the override's name.
    pub fn name(self, name: String) -> (r: OverrideBuilder<'a, C, NoSatellite>)
        ensures
            r.client_ref() == self.client_ref(),
            r.current() == (NoSatellite { name }),
    {
        OverrideBuilder { client: self.client, state: NoSatellite { name } }
    }
}

/// The name is given.
pub struct NoSatellite {
    pub name: String,
}

impl<'a, C: FreedomApi> OverrideBuilder<'a, C, NoSatellite> {
    /// Gives the satellite by id, as its URL under the client's entrypoint.
    pub fn satellite_id(self, id: i32) -> (r: Result<OverrideBuilder<'a, C, NoConfig>, Error>)
        ensures
            url_step(
                r,
                joined_url(self.client_ref().entrypoint_view(), "satellites/"@ + decimal_text(id as int)),
                |b: OverrideBuilder<'a, C, NoConfig>, u: Seq<char>|
                    b.client_ref() == self.client_ref() && b.current().name == self.current().name
                        && b.current().satellite@ == u,
            ),
    {
        let satellite = self.client.satellite_url(id)?;
        Ok(self.satellite_url(satellite))
    }
}

impl<'a, C> OverrideBuilder<'a, C, NoSatellite> {
    /// Gives the URL of the satellite.
    pub fn satellite_url(self, url: String) -> (r: OverrideBuilder<'a, C, NoConfig>)
        ensures
            r.client_ref() == self.client_ref(),
            r.current() == (NoConfig { name: self.current().name, satellite: url }),
    {
        OverrideBuilder {
            client: self.client,
            state: NoConfig { name: self.state.name, satellite: url },
        }
    }
}

/// The name and satellite are given.
pub struct NoConfig {
    pub name: String,
    pub satellite: String,
}

impl<'a, C: FreedomApi> OverrideBuilder<'a, C, NoConfig> {
    /// Gives the configuration by id, as the URL `satellites/{id}` under the client's
    /// entrypoint.
    pub fn satellite_configuration_id(self, id: i32) -> (r: Result<
        OverrideBuilder<'a, C, Override>,
        Error,
    >)
        ensures
            url_step(
                r,
                joined_url(self.client_ref().entrypoint_view(), "satellites/"@ + decimal_text(id as int)),
                |b: OverrideBuilder<'a, C, Override>, u: Seq<char>|
                    b.client_ref() == self.client_ref() && b.current().name == self.current().name
                        && b.current().satellite == self.current().satellite
                        && b.current().configuration@ == u && b.current().properties@.len() == 0,
            ),
    {
        let configuration = self.client.satellite_url(id)?;
        Ok(self.satellite_configuration_url(configuration))
    }
}

impl<'a, C> OverrideBuilder<'a, C, NoConfig> {
    /// Gives the URL of the configuration; the override is then complete, with no
    /// properties yet.
    pub fn satellite_configuration_url(self, url: String) -> (r: OverrideBuilder<'a, C, Override>)
        ensures
            r.client_ref() == self.client_ref(),
            r.current().name == self.current().name,
            r.current().satellite == self.current().satellite,
            r.current().configuration == url,
            r.current().properties@.len() == 0,
    {
        let state = Override {
            name: self.state.name,
            satellite: self.state.satellite,
            configuration: url,
            properties: Vec::new(),
        };
        OverrideBuilder { client: self.client, state }
    }
}

impl<'a, C> OverrideBuilder<'a, C, Override> {
    /// Sets the property `key` to `value`, replacing an earlier value of that property.
    pub fn add_property(self, key: String, value: String) -> (r: Self)
        ensures
            r.client_ref() == self.client_ref(),
            r.current().name == self.current().name,
            r.current().satellite == self.current().satellite,
            r.current().configuration == self.current().configuration,
            props_view(r.current().properties@) == set_property(
                props_view(self.current().properties@),
                key@,
                value@,
            ),
            keys_unique(props_view(self.current().properties@)) ==> keys_unique(
                props_view(r.current().properties@),
            ),
    {
        let mut b = self;
        let ghost old_props = props_view(b.state.properties@);
        match position(&b.state.properties, &key) {
            Some(i) => {
                let ghost kv = (key@, value@);
                b.state.properties.remove(i);
                b.state.properties.insert(i, (key, value));
                proof {
                    let new_props = props_view(b.state.properties@);
                    assert(new_props =~= old_props.update(i as int, kv));
                    assert(old_props[i as int].0 == kv.0);
                    let c = choose|c: int|
                        0 <= c < old_props.len() && #[trigger] old_props[c].0 == kv.0 && forall|j: int|
                            0 <= j < c ==> old_props[j].0 != kv.0;
                    assert(c == i as int) by {
                        if c < i {
                            assert(old_props[c].0 != kv.0);
                        } else if c > i {
                            assert(old_props[i as int].0 != kv.0);
                        }
                    }
                    if keys_unique(old_props) {
                        assert forall|a: int, x: int|
                            0 <= a < new_props.len() && 0 <= x < new_props.len() && a != x implies #[trigger] new_props[a].0
                            != #[trigger] new_props[x].0 by {
                            assert(new_props[a].0 == old_props[a].0);
                            assert(new_props[x].0 == old_props[x].0);
                        }
                    }
                }
            },
            None => {
                let ghost kv = (key@, value@);
                b.state.properties.push((key, value));
                proof {
                    let new_props = props_view(b.state.properties@);
                    assert(new_props =~= old_props.push(kv));
                    assert(!exists|i: int| 0 <= i < old_props.len() && #[trigger] old_props[i].0 == kv.0);
                    if keys_unique(old_props) {
                        assert forall|a: int, x: int|
                            0 <= a < new_props.len() && 0 <= x < new_props.len() && a != x implies #[trigger] new_props[a].0
                            != #[trigger] new_props[x].0 by {
                            if a < old_props.len() && x < old_props.len() {
                                assert(new_props[a].0 == old_props[a].0);
                                assert(new_props[x].0 == old_props[x].0);
                            } else if a < old_props.len() {
                                assert(new_props[a].0 == old_props[a].0);
                            } else {
                                assert(new_props[x].0 == old_props[x].0);
                            }
                        }
                    }
                }
            },
        }
        b
    }
}

} // verus!
