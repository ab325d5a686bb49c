//! Verified core of a spot-trading client for a cryptocurrency exchange.
//!
//! The crate covers the authenticated request-signing and order-submission
//! engine (HMAC-SHA256 signatures over a canonical signing string, header
//! assembly, market-order construction) and the listing watcher (a schedule
//! of upcoming token listings matched against the clock at minute
//! granularity, with at-most-once order dispatch per listing).
//!
//! Network transport, JSON serialization of wire schemas, and the on-disk
//! listing store are collaborators outside this crate: callers hand their
//! results in as plain values, and every decision taken on those values is
//! verified here.

pub mod clock;
pub mod crypto;
pub mod kucoin_client;
pub mod numfmt;
pub mod watcher;
