//! Rebuilding the projections from the log alone.

use vstd::prelude::*;
use crate::event::{event_slug, EventLog};
use crate::projection::{
    clicks_of, lemma_count_bounded_by_length, lemma_replay_push, links_of, ClickCounters,
    SlugRegistry,
};

verus! {

/// Starts from empty projections and folds every event of `log` into them,
/// in append order. The result is the replay of the whole log.
pub fn rebuild(log: &EventLog) -> (projections: (SlugRegistry, ClickCounters))
    ensures
        projections.0@ == links_of(log@),
        projections.1@ == clicks_of(log@),
{
    let mut registry = SlugRegistry::new();
    let mut counters = ClickCounters::new();
    let count = log.len();
    let mut next: usize = 0;
    while next < count
        invariant
            count == log@.len(),
            next <= count,
            registry@ == links_of(log@.take(next as int)),
            counters@ == clicks_of(log@.take(next as int)),
        decreases count - next,
    {
        if let Some(event) = log.get(next) {
            proof {
                let replayed = log@.take(next as int);
                lemma_count_bounded_by_length(replayed, event_slug(event@));
                lemma_replay_push(replayed, event@);
                assert(log@.take(next + 1) =~= replayed.push(event@));
            }
            registry.apply(event);
            counters.apply(event);
        }
        next = next + 1;
    }
    assert(log@.take(count as int) =~= log@);
    (registry, counters)
}

} // verus!
