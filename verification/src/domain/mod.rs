//! The catalog's data, its ports and the services built on them.

pub mod model;
pub mod ports;
pub mod services;
