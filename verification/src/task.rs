//! One resolution, as a state machine that its caller drives.
//!
//! A task is created for one name. Its first step, `start`, consults the
//! cache: a populated cache answers at once, an empty one asks the caller to
//! query the underlying resolver. The caller then drives that query and hands
//! each outcome to `poll`, which writes a success into the cache before it
//! gives it back, and passes a failure on untouched.

use vstd::prelude::*;
use crate::address::{AddressList, Endpoint};
use crate::cache::ResolutionCache;

verus! {

/// Where a task stands.
#[derive(Clone, Copy, Debug, PartialEq, Eq, Structural)]
pub enum TaskState {
    /// Not driven yet.
    Created,
    /// Completed from the cache, without a query.
    ShortCircuited,
    /// A query to the underlying resolver is in flight.
    Querying,
    /// The query succeeded and its result was stored.
    Succeeded,
    /// The query failed.
    Failed,
}

/// What the first step of a task asks of its caller.
#[derive(Debug, PartialEq, Eq)]
pub enum Start {
    /// The cache answered: the resolution is complete with this list.
    Hit(AddressList),
    /// The cache was empty: query the underlying resolver for this name.
    Query(String),
}

/// What one drive of the underlying resolver's operation produced.
#[derive(Debug, PartialEq, Eq)]
pub enum QueryEvent<E> {
    Pending,
    Resolved(AddressList),
    Failed(E),
}

/// What a task hands back after one drive.
#[derive(Debug, PartialEq, Eq)]
pub enum Progress<E> {
    Pending,
    Ready(Result<AddressList, E>),
}

/// How many queries a task in `state` has sent to the underlying resolver.
pub open spec fn queries_issued(state: TaskState) -> nat {
    match state {
        TaskState::Created | TaskState::ShortCircuited => 0,
        TaskState::Querying | TaskState::Succeeded | TaskState::Failed => 1,
    }
}

/// Whether a task in `state` has handed its result back.
pub open spec fn is_complete(state: TaskState) -> bool {
    state == TaskState::ShortCircuited || state == TaskState::Succeeded || state
        == TaskState::Failed
}

/// The state of a task after its first step against `cache`.
pub open spec fn state_after_start(cache: Option<Seq<Endpoint>>) -> TaskState {
    if cache is Some {
        TaskState::ShortCircuited
    } else {
        TaskState::Querying
    }
}

/// Whether `out` is what the first step of a task for `name` hands back
/// against `cache`: the cached list, or the request to query for `name`.
pub open spec fn start_yields(cache: Option<Seq<Endpoint>>, name: Seq<char>, out: Start) -> bool {
    match cache {
        Some(stored) => out matches Start::Hit(list) && list@ == stored,
        None => out matches Start::Query(asked) && asked@ == name,
    }
}

/// The state of a querying task after `event`.
pub open spec fn state_after_poll<E>(event: QueryEvent<E>) -> TaskState {
    match event {
        QueryEvent::Pending => TaskState::Querying,
        QueryEvent::Resolved(_) => TaskState::Succeeded,
        QueryEvent::Failed(_) => TaskState::Failed,
    }
}

/// The content of the cache after a querying task has taken `event`.
pub open spec fn cache_after_poll<E>(cache: Option<Seq<Endpoint>>, event: QueryEvent<E>) -> Option<
    Seq<Endpoint>,
> {
    match event {
        QueryEvent::Resolved(list) => Some(list@),
        _ => cache,
    }
}

/// Whether `out` is what a querying task hands back for `event`.
pub open spec fn poll_yields<E>(event: QueryEvent<E>, out: Progress<E>) -> bool {
    match event {
        QueryEvent::Pending => out is Pending,
        QueryEvent::Resolved(list) => out matches Progress::Ready(Ok(given)) && given@ == list@,
        QueryEvent::Failed(error) => out == Progress::Ready(Result::<AddressList, E>::Err(error)),
    }
}

/// One resolution of one name.
#[derive(Debug)]
pub struct CachedFuture {
    state: TaskState,
    name: String,
}

impl CachedFuture {
    /// Where the task stands.
    pub closed spec fn spec_state(&self) -> TaskState {
        self.state
    }

    /// The name that the task resolves.
    pub closed spec fn spec_name(&self) -> Seq<char> {
        self.name@
    }

    /// A task for `name`, not driven yet.
    pub fn new(name: String) -> (task: CachedFuture)
        ensures
            task.spec_state() == TaskState::Created,
            task.spec_name() == name@,
    {
        CachedFuture { state: TaskState::Created, name }
    }

    /// Where the task stands.
    #[verifier::when_used_as_spec(spec_state)]
    pub fn state(&self) -> (state: TaskState)
        ensures
            state == self.spec_state(),
    {
        self.state
    }

    /// The name that the task resolves.
    pub fn name(&self) -> (name: &String)
        ensures
            name@ == self.spec_name(),
    {
        &self.name
    }

    /// The first step: consult the cache.
    ///
    /// A populated cache completes the task with a copy of the stored list,
    /// and no query is made. An empty cache moves the task to `Querying` and
    /// asks for a query of the task's name.
    pub fn start(&mut self, cache: &ResolutionCache) -> (out: Start)
        requires
            old(self).spec_state() == TaskState::Created,
        ensures
            final(self).spec_state() == state_after_start(cache@),
            final(self).spec_name() == old(self).spec_name(),
            start_yields(cache@, old(self).spec_name(), out),
            queries_issued(final(self).spec_state()) == (if out is Query { 1nat } else { 0nat }),
    {
        match cache.get() {
            Some(list) => {
                self.state = TaskState::ShortCircuited;
                Start::Hit(list)
            },
            None => {
                self.state = TaskState::Querying;
                Start::Query(self.name.clone())
            },
        }
    }

    /// Takes one outcome of driving the underlying query.
    ///
    /// While the query is pending nothing changes. A success is stored in the
    /// cache, replacing what was there, and then handed back. A failure is
    /// handed back as it came, and the cache is left as it was.
    pub fn poll<E>(&mut self, cache: &mut ResolutionCache, event: QueryEvent<E>) -> (out: Progress<E>)
        requires
            old(self).spec_state() == TaskState::Querying,
        ensures
            final(self).spec_state() == state_after_poll(event),
            final(self).spec_name() == old(self).spec_name(),
            final(cache)@ == cache_after_poll(old(cache)@, event),
            poll_yields(event, out),
            queries_issued(final(self).spec_state()) == queries_issued(old(self).spec_state()),
    {
        match event {
            QueryEvent::Pending => Progress::Pending,
            QueryEvent::Resolved(list) => {
                cache.set(list.duplicate());
                self.state = TaskState::Succeeded;
                Progress::Ready(Ok(list))
            },
            QueryEvent::Failed(error) => {
                self.state = TaskState::Failed;
                Progress::Ready(Err(error))
            },
        }
    }
}

} // verus!
