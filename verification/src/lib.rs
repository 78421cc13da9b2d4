//! Instance-type catalog: unit parsers, pricing-list normalisation, the
//! catalog store and the refresh cycle that keeps it current.

pub mod domain;
pub mod env_config;
pub mod infrastructure;
pub mod utils;
