//! Typestate builders for the bodies of POST requests.
//!
//! Each builder borrows the client and moves through one state per required field, so that
//! a body can only be finished once every required field is given. Sending a finished body
//! is the transport's work.
pub mod overrides;
pub mod request;
pub mod sat_config;
pub mod satellite;
pub mod user;

pub use self::{
    overrides::OverrideBuilder, request::TaskRequestBuilder,
    sat_config::SatelliteConfigurationBuilder, satellite::SatelliteBuilder, user::UserBuilder,
};
