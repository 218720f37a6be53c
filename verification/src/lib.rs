//! A client library for a remote VPN-panel management API.
//!
//! The crate holds the client's verified core: URL normalization, the
//! planning of every request — including the synthetic status 401 issued
//! before any network attempt when a required token is absent — the
//! creation and edit payload rules for user records, the presentation
//! fields derived from a fetched record, and collision-resistant name
//! generation. Carrying the planned requests over HTTP, and moving values
//! in and out of JSON bodies, is left to the code around the library.

pub mod client;
pub mod metrics;
pub mod namegen;
pub mod proxies;
pub mod urlfmt;
pub mod user;
