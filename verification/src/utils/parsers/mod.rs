//! Parsers for human-readable resource quantities.

pub mod cpu;
pub mod decimal;
pub mod grammar;
pub mod memory;
pub mod pattern;
pub mod text;
