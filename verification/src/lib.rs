//! A single-slot cache in front of a name-resolution service.
//!
//! The crate holds the decisions of a caching resolver: what a resolution
//! does when the cache is populated, what it does when it is empty, and what
//! it writes back when the underlying lookup finishes. Driving the underlying
//! resolver and sharing the cache between threads is left to the caller.

pub mod address;
pub mod cache;
pub mod task;
pub mod resolver;
pub mod laws;

pub use crate::address::{AddressList, Endpoint};
pub use crate::cache::ResolutionCache;
pub use crate::resolver::CachedResolver;
pub use crate::task::CachedFuture;
