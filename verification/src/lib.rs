//! A serial-port session for a game engine's stream interface: line
//! settings, connection tracking, and the decisions around each exchange
//! with the port.

pub mod config;
pub mod errors;
pub mod text;
pub mod ports;
pub mod line;
pub mod serial;
pub mod laws;
pub mod behaviour;
