//! What holds of every run of tasks against one cache.
//!
//! Each step of a task reads or writes the cache at one instant, so a run of
//! several tasks, however they interleave, is a sequence of steps. Only the
//! outcomes handed to `poll` can write; the laws below fold them in order.

use vstd::prelude::*;
use crate::address::{AddressList, Endpoint};
use crate::task::{
    cache_after_poll, is_complete, poll_yields, queries_issued, start_yields, state_after_poll,
    state_after_start, Progress, QueryEvent, Start, TaskState,
};

verus! {

/// The content of the cache after the outcomes `events` were taken in order,
/// each by some querying task.
pub open spec fn cache_after_all<E>(cache: Option<Seq<Endpoint>>, events: Seq<QueryEvent<E>>) -> Option<
    Seq<Endpoint>,
>
    decreases events.len(),
{
    if events.len() == 0 {
        cache
    } else {
        cache_after_poll(cache_after_all(cache, events.drop_last()), events.last())
    }
}

/// A task takes its first step once: no step leads back to `Created`, so
/// the one chance to ask for a query is that first step.
pub proof fn task_starts_once<E>(cache: Option<Seq<Endpoint>>, event: QueryEvent<E>)
    ensures
        state_after_start(cache) != TaskState::Created,
        state_after_poll(event) != TaskState::Created,
        queries_issued(state_after_start(cache)) <= 1,
        queries_issued(state_after_poll(event)) == queries_issued(TaskState::Querying),
{
}

/// A task started on an empty cache sends one query, however long that query
/// stays pending and however it ends, and a success comes back as the list
/// that the underlying resolver gave, which is then what the cache holds.
pub proof fn miss_queries_once<E>(name: Seq<char>, first: Start, event: QueryEvent<E>, out: Progress<E>)
    requires
        start_yields(None, name, first),
        poll_yields(event, out),
    ensures
        queries_issued(TaskState::Created) == 0,
        first matches Start::Query(asked) && asked@ == name,
        queries_issued(state_after_start(None)) == 1,
        queries_issued(state_after_poll(event)) == 1,
        event matches QueryEvent::Resolved(list) ==> {
            &&& out matches Progress::Ready(Ok(given)) && given@ == list@
            &&& cache_after_poll(None, event) == Some(list@)
        },
{
}

/// Once a resolution has succeeded with `list`, a task started on that cache
/// completes at once with the same list and sends no query.
pub proof fn hit_after_success<E>(
    cache: Option<Seq<Endpoint>>,
    event: QueryEvent<E>,
    name: Seq<char>,
    next: Start,
)
    requires
        event is Resolved,
        start_yields(cache_after_poll(cache, event), name, next),
    ensures
        event matches QueryEvent::Resolved(list) && next matches Start::Hit(given) && given@
            == list@,
        is_complete(state_after_start(cache_after_poll(cache, event))),
        queries_issued(state_after_start(cache_after_poll(cache, event))) == 0,
{
}

/// While no later query succeeds, every task started on a cache that holds
/// `stored` completes at once with `stored` and sends no query.
pub proof fn later_resolutions_hit<E>(
    stored: Seq<Endpoint>,
    events: Seq<QueryEvent<E>>,
    name: Seq<char>,
    out: Start,
)
    requires
        forall|i: int| 0 <= i < events.len() ==> !(#[trigger] events[i] is Resolved),
        start_yields(cache_after_all(Some(stored), events), name, out),
    ensures
        out matches Start::Hit(given) && given@ == stored,
        state_after_start(cache_after_all(Some(stored), events)) == TaskState::ShortCircuited,
        queries_issued(state_after_start(cache_after_all(Some(stored), events))) == 0,
{
    abandoned_query_leaves_cache(Some(stored), events);
}

/// A failed query is handed back as it came and writes nothing; if the cache
/// was empty, the next task queries again.
pub proof fn failure_is_not_cached<E>(cache: Option<Seq<Endpoint>>, error: E, out: Progress<E>)
    requires
        poll_yields(QueryEvent::Failed(error), out),
    ensures
        out == Progress::Ready(Result::<AddressList, E>::Err(error)),
        state_after_poll(QueryEvent::Failed(error)) == TaskState::Failed,
        cache_after_poll(cache, QueryEvent::Failed(error)) == cache,
        cache is None ==> state_after_start(cache_after_poll(cache, QueryEvent::Failed(error)))
            == TaskState::Querying,
{
}

/// A populated cache stays populated, whatever outcomes follow.
pub proof fn cache_is_never_emptied<E>(cache: Option<Seq<Endpoint>>, events: Seq<QueryEvent<E>>)
    requires
        cache is Some,
    ensures
        cache_after_all(cache, events) is Some,
    decreases events.len(),
{
    if events.len() > 0 {
        cache_is_never_emptied(cache, events.drop_last());
    }
}

/// After any outcomes, the cache holds what it held before them or the whole
/// list of one of the successes among them: never a mixture.
pub proof fn stored_value_is_one_result<E>(cache: Option<Seq<Endpoint>>, events: Seq<QueryEvent<E>>)
    ensures
        cache_after_all(cache, events) == cache || exists|i: int|
            0 <= i < events.len() && (#[trigger] events[i] matches QueryEvent::Resolved(list)
                && cache_after_all(cache, events) == Some(list@)),
    decreases events.len(),
{
    if events.len() > 0 {
        let earlier = events.drop_last();
        stored_value_is_one_result(cache, earlier);
        let last = events.len() - 1;
        if events[last] is Resolved {
            assert(events[last] matches QueryEvent::Resolved(list) && cache_after_all(cache, events)
                == Some(list@));
        } else if cache_after_all(cache, earlier) != cache {
            let i = choose|i: int|
                0 <= i < earlier.len() && (#[trigger] earlier[i] matches QueryEvent::Resolved(list)
                    && cache_after_all(cache, earlier) == Some(list@));
            assert(earlier[i] == events[i]);
        }
    }
}

/// The last success wins: if the outcome at `i` is a success and none after
/// it is, the cache ends up holding exactly its list.
pub proof fn last_writer_wins<E>(cache: Option<Seq<Endpoint>>, events: Seq<QueryEvent<E>>, i: int)
    requires
        0 <= i < events.len(),
        events[i] is Resolved,
        forall|j: int| i < j < events.len() ==> !(#[trigger] events[j] is Resolved),
    ensures
        events[i] matches QueryEvent::Resolved(list) && cache_after_all(cache, events) == Some(
            list@,
        ),
    decreases events.len(),
{
    if i < events.len() - 1 {
        let earlier = events.drop_last();
        assert forall|j: int| i < j < earlier.len() implies !(#[trigger] earlier[j] is Resolved) by {
            assert(earlier[j] == events[j]);
        }
        assert(earlier[i] == events[i]);
        last_writer_wins(cache, earlier, i);
    }
}

/// Outcomes without a success leave the cache as it was. A task that is
/// dropped while its query is pending has handed over only such outcomes.
pub proof fn abandoned_query_leaves_cache<E>(cache: Option<Seq<Endpoint>>, events: Seq<QueryEvent<E>>)
    requires
        forall|i: int| 0 <= i < events.len() ==> !(#[trigger] events[i] is Resolved),
    ensures
        cache_after_all(cache, events) == cache,
    decreases events.len(),
{
    if events.len() > 0 {
        let earlier = events.drop_last();
        assert forall|i: int| 0 <= i < earlier.len() implies !(#[trigger] earlier[i] is Resolved) by {
            assert(earlier[i] == events[i]);
        }
        abandoned_query_leaves_cache(cache, earlier);
    }
}

} // verus!
