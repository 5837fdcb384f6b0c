//! Client library for a brokerage trading API: account configuration,
//! request construction, the token and hashkey-signing steps, the request
//! builders of each trading operation, and the real-time order-book decoder.
//!
//! The library performs no network I/O itself. Every operation yields a
//! request descriptor, and each step that depends on an upstream answer takes
//! that answer (status code and body text) as an argument.

pub mod account;
pub mod api;
pub mod error;
pub mod json;
pub mod orderbook;
pub mod pairs;
pub mod request;
pub mod split;
pub mod text;
pub mod trader;
