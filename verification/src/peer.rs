//! How many queries may run against one peer at a time.

use vstd::prelude::*;
use crate::config::MAX_QUERIES;

verus! {

/// The counter after one more query has come; it wraps around at its end.
pub open spec fn entered(queries: u32) -> u32 {
    if queries == u32::MAX {
        0
    } else {
        (queries + 1) as u32
    }
}

/// The counter after one query has gone; it wraps around at zero.
pub open spec fn left(queries: u32) -> u32 {
    if queries == 0 {
        u32::MAX
    } else {
        (queries - 1) as u32
    }
}

/// Queries that are under way when `queries` have come and not gone: the
/// others wait their turn.
pub open spec fn in_flight(queries: u32) -> u32 {
    if queries < MAX_QUERIES {
        queries
    } else {
        MAX_QUERIES
    }
}

/// The queries that have come for one peer and not yet gone.
#[derive(Clone, Copy, Debug, PartialEq, Eq, Structural)]
pub struct RldpPeer {
    queries: u32,
}

impl RldpPeer {
    /// Queries that have come and not yet gone, waiting ones included.
    pub closed spec fn spec_queries(&self) -> u32 {
        self.queries
    }

    /// A peer without queries.
    pub fn new() -> (peer: Self)
        ensures
            peer.spec_queries() == 0,
    {
        Self { queries: 0 }
    }

    /// Queries that have come and not yet gone, waiting ones included.
    pub fn queries(&self) -> (queries: u32)
        ensures
            queries == self.spec_queries(),
    {
        self.queries
    }

    /// Counts a query in and says whether it has to wait: it has to when
    /// `MAX_QUERIES` others came before it and have not gone.
    pub fn enter(&mut self) -> (wait: bool)
        ensures
            final(self).spec_queries() == entered(old(self).spec_queries()),
            wait == (old(self).spec_queries() >= MAX_QUERIES),
    {
        let queries = self.queries;
        self.queries = if queries == u32::MAX {
            0
        } else {
            queries + 1
        };
        queries >= MAX_QUERIES
    }

    /// Counts a query out and says whether one of the waiting queries is to
    /// be let go: one is when more than `MAX_QUERIES` had come.
    pub fn leave(&mut self) -> (release: bool)
        ensures
            final(self).spec_queries() == left(old(self).spec_queries()),
            release == (old(self).spec_queries() > MAX_QUERIES),
    {
        let queries = self.queries;
        self.queries = if queries == 0 {
            u32::MAX
        } else {
            queries - 1
        };
        queries > MAX_QUERIES
    }
}

/// A query that comes and goes leaves the counter as it was.
pub proof fn enter_then_leave(queries: u32)
    ensures
        left(entered(queries)) == queries,
{
}

/// A query waits exactly when it would be one too many in flight, and a
/// query that goes lets one go exactly when one was waiting: the number in
/// flight never exceeds `MAX_QUERIES`, and it falls only when nobody waits.
pub proof fn admission_is_bounded(queries: u32)
    requires
        queries < u32::MAX,
    ensures
        in_flight(queries) <= MAX_QUERIES,
        in_flight(entered(queries)) == in_flight(queries) + (if queries >= MAX_QUERIES {
            0int
        } else {
            1int
        }),
        queries > 0 ==> in_flight(left(queries)) == in_flight(queries) - (if queries > MAX_QUERIES {
            0int
        } else {
            1int
        }),
{
}

/// The counter after a run of queries that come (`true`) and go
/// (`false`), in the order in which they reach the counter.
pub open spec fn counted(queries: u32, events: Seq<bool>) -> u32
    decreases events.len(),
{
    if events.len() == 0 {
        queries
    } else if events.last() {
        entered(counted(queries, events.drop_last()))
    } else {
        left(counted(queries, events.drop_last()))
    }
}

/// How many queries come in a run.
pub open spec fn arrivals(events: Seq<bool>) -> nat
    decreases events.len(),
{
    if events.len() == 0 {
        0
    } else {
        arrivals(events.drop_last()) + if events.last() {
            1nat
        } else {
            0nat
        }
    }
}

/// How many queries go in a run.
pub open spec fn departures(events: Seq<bool>) -> nat
    decreases events.len(),
{
    if events.len() == 0 {
        0
    } else {
        departures(events.drop_last()) + if events.last() {
            0nat
        } else {
            1nat
        }
    }
}

/// Whether at no point of a run more queries have gone than were there
/// or had come.
pub open spec fn orderly(queries: u32, events: Seq<bool>) -> bool
    decreases events.len(),
{
    events.len() == 0 || (orderly(queries, events.drop_last()) && departures(events) <= queries
        + arrivals(events))
}

/// Over a whole run, in whatever order the queries reach the counter:
/// the counter stands at the queries that have come and not gone, so it
/// is back where it was once all have gone; and of these never more than
/// `MAX_QUERIES` are in flight, the others waiting.
pub proof fn admission_over_a_run(queries: u32, events: Seq<bool>)
    requires
        orderly(queries, events),
        queries + events.len() < u32::MAX,
    ensures
        counted(queries, events) == queries + arrivals(events) - departures(events),
        in_flight(counted(queries, events)) <= MAX_QUERIES,
        arrivals(events) == departures(events) ==> counted(queries, events) == queries,
        arrivals(events) + departures(events) == events.len(),
    decreases events.len(),
{
    if events.len() > 0 {
        admission_over_a_run(queries, events.drop_last());
    }
}

/// In a run that begins with no query, a query that comes is let through
/// at once exactly when fewer than `MAX_QUERIES` have come and not gone,
/// and a query that goes lets a waiting one through exactly when one
/// waits.
pub proof fn admission_in_a_run(events: Seq<bool>)
    requires
        orderly(0, events),
        events.len() < u32::MAX,
    ensures
        (counted(0, events) >= MAX_QUERIES) == (arrivals(events) - departures(events)
            >= MAX_QUERIES),
        (counted(0, events) > MAX_QUERIES) == (arrivals(events) - departures(events)
            > MAX_QUERIES),
{
    admission_over_a_run(0, events);
}

} // verus!
