//! Toggling a networked smart bulb over its JSON-over-UDP control protocol,
//! and the routing decisions of the HTTP endpoint that triggers it.

pub mod exchange;
pub mod front_door;
pub mod laws;
pub mod protocol;
pub mod reply;
