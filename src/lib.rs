//! Lifecycle supervision for a SOCKS5 proxy client: configuration bootstrap,
//! run preparation, exit reporting and the shutdown state machine.

pub mod config;
pub mod store;
pub mod bootstrap;
pub mod tasks;
pub mod lifecycle;
