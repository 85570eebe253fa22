//! Device-link core for a small ground-control application: a registry that
//! holds at most one live transport (an ASCII serial line or a MAVLink
//! session), a connection manager that opens and tears transports down, a
//! pure command encoder, and a dispatcher that routes motor-test commands to
//! the active transport.

pub mod commands;
pub mod config;
pub mod decimal;
pub mod dispatch;
pub mod errors;
pub mod link;
pub mod motor;
