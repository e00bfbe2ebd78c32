//! The per-client request context: configuration, entrypoint and universal headers.
use freedom_config::Config;
use vstd::prelude::*;

use crate::api::FreedomApi;

verus! {

#[verifier::external_type_specification]
#[verifier::external_body]
pub struct ExConfig(freedom_config::Config);

/// Relies on `Config::environment` and `Env::freedom_entrypoint`: the entrypoint URL of the
/// configured environment, as text. The environment is a trait object that callers may
/// implement, so nothing is assumed of the text.
#[verifier::external_body]
fn config_entrypoint(config: &Config) -> (r: String) {
    config.environment().freedom_entrypoint().to_string()
}

/// Relies on `Config`'s `PartialEq` (environment name, key and secret compared); nothing is
/// assumed of the answer.
#[verifier::external_body]
fn config_eq(a: &Config, b: &Config) -> bool {
    a == b
}

/// The immutable state of a client: its configuration (environment and credentials), the
/// entrypoint against which paths are resolved, and headers added to every request.
pub struct Client {
    config: Config,
    entrypoint: String,
    universal_headers: Vec<(String, String)>,
}

impl Client {
    /// The configuration.
    pub closed spec fn config_spec(&self) -> Config {
        self.config
    }

    /// The headers added to every request, in the order they were given.
    pub closed spec fn headers_view(&self) -> Seq<(Seq<char>, Seq<char>)> {
        self.universal_headers@.map_values(|h: (String, String)| (h.0@, h.1@))
    }

    /// A client for the given configuration, with no universal headers.
    pub fn from_config(config: Config) -> (r: Self)
        ensures
            r.config_spec() == config,
            r.headers_view() == Seq::<(Seq<char>, Seq<char>)>::empty(),
    {
        let entrypoint = config_entrypoint(&config);
        let r = Client { config, entrypoint, universal_headers: Vec::new() };
        assert(r.headers_view() =~= Seq::<(Seq<char>, Seq<char>)>::empty());
        r
    }

    /// The same client, adding a header to every request it makes.
    pub fn with_universal_header(self, key: String, value: String) -> (r: Self)
        ensures
            r.headers_view() == self.headers_view().push((key@, value@)),
            r.entrypoint_view() == self.entrypoint_view(),
            r.config_spec() == self.config_spec(),
    {
        let ghost before = self.headers_view();
        let mut r = self;
        r.universal_headers.push((key, value));
        assert(r.headers_view() =~= before.push((key@, value@)));
        r
    }

    /// The headers added to every request.
    pub fn universal_headers(&self) -> (r: &Vec<(String, String)>)
        ensures
            r@.map_values(|h: (String, String)| (h.0@, h.1@)) == self.headers_view(),
    {
        &self.universal_headers
    }

    /// The configuration.
    pub fn config(&self) -> (r: &Config)
        ensures
            *r == self.config_spec(),
    {
        &self.config
    }
}

impl PartialEq for Client {
    /// Clients are equal when their configurations are.
    fn eq(&self, other: &Client) -> bool {
        config_eq(&self.config, &other.config)
    }
}

impl vstd::std_specs::cmp::PartialEqSpecImpl for Client {
    /// Configuration equality is the outside crate's; `==` on clients promises nothing here.
    open spec fn obeys_eq_spec() -> bool {
        false
    }

    open spec fn eq_spec(&self, other: &Client) -> bool {
        true
    }
}

impl FreedomApi for Client {
    closed spec fn entrypoint_view(&self) -> Seq<char> {
        self.entrypoint@
    }

    fn entrypoint(&self) -> (r: &str) {
        self.entrypoint.as_str()
    }
}

} // verus!
