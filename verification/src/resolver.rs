//! The resolver that connection logic talks to.

use vstd::prelude::*;
use crate::address::Endpoint;
use crate::cache::ResolutionCache;
use crate::task::{
    cache_after_poll, poll_yields, queries_issued, start_yields, state_after_poll, state_after_start,
    CachedFuture, Progress, QueryEvent, Start, TaskState,
};

verus! {

/// Whether a resolver can take a request now.
#[derive(Debug, PartialEq, Eq)]
pub enum Readiness<E> {
    Pending,
    Ready(Result<(), E>),
}

/// A resolver with a cache of its last successful resolution.
///
/// It owns the one cache that all of its tasks read and write. To share it
/// between several handles, share the resolver itself behind a lock and take
/// the lock for one call at a time: no call here waits for anything.
#[derive(Debug)]
pub struct CachedResolver {
    cache: ResolutionCache,
}

impl View for CachedResolver {
    type V = Option<Seq<Endpoint>>;

    /// What the cache holds.
    closed spec fn view(&self) -> Option<Seq<Endpoint>> {
        self.cache@
    }
}

impl CachedResolver {
    /// A resolver with an empty cache.
    pub fn new() -> (resolver: CachedResolver)
        ensures
            resolver@ is None,
    {
        CachedResolver { cache: ResolutionCache::new() }
    }

    /// The cache, for reading.
    pub fn cache(&self) -> (cache: &ResolutionCache)
        ensures
            cache@ == self@,
    {
        &self.cache
    }

    /// The readiness of this resolver, given that of the underlying one.
    ///
    /// It is the underlying resolver's, unchanged: the cache holds no
    /// request back.
    pub fn poll_ready<E>(&self, underlying: Readiness<E>) -> (out: Readiness<E>)
        ensures
            out == underlying,
    {
        underlying
    }

    /// A task that resolves `name`. Nothing is looked up until it is driven.
    pub fn call(&self, name: String) -> (task: CachedFuture)
        ensures
            task.spec_state() == TaskState::Created,
            task.spec_name() == name@,
    {
        CachedFuture::new(name)
    }

    /// Drives the first step of `task` against this resolver's cache.
    pub fn start(&self, task: &mut CachedFuture) -> (out: Start)
        requires
            old(task).spec_state() == TaskState::Created,
        ensures
            final(task).spec_state() == state_after_start(self@),
            final(task).spec_name() == old(task).spec_name(),
            start_yields(self@, old(task).spec_name(), out),
            queries_issued(final(task).spec_state()) == (if out is Query { 1nat } else { 0nat }),
    {
        task.start(&self.cache)
    }

    /// Hands `task` one outcome of its query, against this resolver's cache.
    pub fn poll<E>(&mut self, task: &mut CachedFuture, event: QueryEvent<E>) -> (out: Progress<E>)
        requires
            old(task).spec_state() == TaskState::Querying,
        ensures
            final(task).spec_state() == state_after_poll(event),
            final(task).spec_name() == old(task).spec_name(),
            final(self)@ == cache_after_poll(old(self)@, event),
            poll_yields(event, out),
            queries_issued(final(task).spec_state()) == queries_issued(old(task).spec_state()),
    {
        task.poll(&mut self.cache, event)
    }
}

} // verus!
