//! The read path: queries are answered from the projections alone and never
//! change anything.

use vstd::prelude::*;
use crate::event::{EventSourced, EventView};
use crate::model::{stats_outcome, ShortLink, ShortLinkView, ShortenerError, Slug, Stats, StatsView};
use crate::projection::{clicks_of, count_of, links_of, ClickCounters, SlugRegistry};

verus! {

/// The statistics of `slug` read from a registry and a set of counters: the
/// registered URL joined with the count, zero where none was counted;
/// `SlugNotFound` for a slug that is not registered.
pub open spec fn join_stats(
    links: Map<Seq<char>, Seq<char>>,
    clicks: Map<Seq<char>, nat>,
    slug: Seq<char>,
) -> Result<StatsView, ShortenerError> {
    if links.contains_key(slug) {
        Ok(
            StatsView {
                link: ShortLinkView { slug, url: links[slug] },
                redirects: count_of(clicks, slug),
            },
        )
    } else {
        Err(ShortenerError::SlugNotFound)
    }
}

/// The statistics of `slug` after `history`.
pub open spec fn stats_of(history: Seq<EventView>, slug: Seq<char>) -> Result<
    StatsView,
    ShortenerError,
> {
    join_stats(links_of(history), clicks_of(history), slug)
}

/// Reads the statistics of `slug` from the two projections.
pub fn read_stats(registry: &SlugRegistry, counters: &ClickCounters, slug: Slug) -> (result: Result<
    Stats,
    ShortenerError,
>)
    ensures
        stats_outcome(result) == join_stats(registry@, counters@, slug@),
{
    match registry.lookup(&slug) {
        Some(url) => {
            let redirects = counters.get(&slug);
            Ok(Stats { link: ShortLink { slug, url }, redirects })
        },
        None => Err(ShortenerError::SlugNotFound),
    }
}

/// The query side of the service.
pub trait QueryHandler: EventSourced {
    /// The short link registered under `slug` with its redirect count, or
    /// `SlugNotFound`. The answer is a function of the recorded history.
    fn get_stats(&self, slug: Slug) -> (result: Result<Stats, ShortenerError>)
        ensures
            stats_outcome(result) == stats_of(self.history(), slug@),
    ;
}

} // verus!
