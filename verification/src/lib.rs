//! A remote terminal multiplexer's session subsystem: the bookkeeping and the
//! decisions behind PTY-backed shell sessions, stated with contracts and proved.
//!
//! The crate holds no I/O. A driver spawns processes, moves bytes and keeps
//! time; it hands the outcomes to the functions here and carries out the
//! actions they return.

pub mod config;
pub mod error;
pub mod history;
pub mod http;
pub mod ids;
pub mod protocol;
pub mod pty;
pub mod pump;
pub mod registry;
pub mod service;
pub mod session;
pub mod text;
pub mod transport;
