//! Internal HTTP client configuration shared across all Blizzard API
//! connectors, modeled by the options the transport is constructed with.

pub mod builder;
pub mod reqwest;
