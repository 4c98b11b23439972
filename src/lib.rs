//! Polled, non-blocking façades for network clients embedded in a host
//! application: a request/reply bridge and four protocol adapters.

pub mod service;
pub mod domain;
pub mod keyed;
pub mod discovery;
pub mod socket;
pub mod pubsub;
pub mod links;
pub mod bot;
