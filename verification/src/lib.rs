//! A client library for a payment processor's REST API family.
//!
//! The library centers on two guarantees:
//! - a client object can only be constructed once mutual-TLS credentials are
//!   attached (the builder's type states make a premature `build` impossible
//!   to express), and
//! - every outgoing request carries a basic-authentication header derived
//!   from those credentials, with message-level encryption toggled without
//!   changing call sites.

pub mod api_level;
pub mod base64;
pub mod basic_auth;
pub mod builder;
pub mod client;
pub mod config;
pub mod errors;
pub mod foreign_exchange;
pub mod hello_world;
pub mod http;
pub mod message_level_encryption;
pub mod mutual_tls;
pub mod state;
pub mod transport;
