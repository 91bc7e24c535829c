//! A small time service: a catalog of two tools (`get_time`, `wait`), the
//! validation and dispatch of their calls, a tree of cancellation scopes and
//! the live-session table that serve them.
pub mod numeral;
pub mod error;
pub mod catalog;
pub mod params;
pub mod clock;
pub mod wait;
pub mod scope;
pub mod session;
pub mod service;
