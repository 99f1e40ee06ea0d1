//! Header augmentation for outbound HTTP requests.
//!
//! A background refresher fetches a set of headers from a header providing
//! service and keeps the raw payload in a shared, versioned cache slot. Every
//! request reads that slot and is either augmented with the cached headers or
//! rejected when no payload has ever been stored.
//!
//! The crate holds the decisions of that scheme: the configuration model, the
//! cache slot, the refresh state machine and the request-time injector. Timers,
//! the upstream call and the request itself belong to the host, which performs
//! the actions that these functions return.

pub mod cache;
pub mod config;
pub mod error;
pub mod injector;
pub mod interval;
pub mod json;
pub mod laws;
pub mod refresh;
