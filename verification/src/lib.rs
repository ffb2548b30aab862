//! Decision core of a daemon that runs a fixed set of commands on SSH hosts
//! and relays interactive authentication to its clients.
//!
//! The library decides and its caller acts: a function here takes what the
//! outside world answered and says what to do next. Sockets, timers and
//! terminals live with the caller. Only path rules and the user's
//! directories are asked of the platform from here, in `paths`.

pub mod auth;
pub mod client;
pub mod config;
pub mod lock;
pub mod net;
pub mod paths;
pub mod protocol;
pub mod registry;
pub mod session;
pub mod text;
pub mod whitelist;
