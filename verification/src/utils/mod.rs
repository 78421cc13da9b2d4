//! Helpers shared by the catalog services.

pub mod parsers;
