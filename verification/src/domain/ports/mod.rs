//! What the services offer and what they ask of their surroundings.

pub mod incoming;
pub mod outgoing;
