//! Read models folded from the event log.
//!
//! A projection is the result of folding events, one at a time and in log
//! order, into an initially empty state. The fold steps ([`fold_link`],
//! [`fold_click`]) and the folds over a whole history ([`links_of`],
//! [`clicks_of`]) are the mathematical definitions; [`SlugRegistry`] and
//! [`ClickCounters`] are the executable states that implement them.

use vstd::prelude::*;
use vstd::hash_map::StringHashMap;
use crate::event::{event_slug, Event, EventView};
use crate::model::{Slug, Url};

verus! {

/// The slug registry after folding `event` into `links`: a creation
/// registers its slug unless the slug is taken (the first creation wins);
/// a redirect changes nothing.
pub open spec fn fold_link(links: Map<Seq<char>, Seq<char>>, event: EventView) -> Map<
    Seq<char>,
    Seq<char>,
> {
    match event {
        EventView::LinkCreated { slug, url } => if links.contains_key(slug) {
            links
        } else {
            links.insert(slug, url)
        },
        EventView::RedirectOccurred { .. } => links,
    }
}

/// The count that `clicks` holds for `slug`: zero where it holds none.
pub open spec fn count_of(clicks: Map<Seq<char>, nat>, slug: Seq<char>) -> nat {
    if clicks.contains_key(slug) {
        clicks[slug]
    } else {
        0
    }
}

/// The click counters after folding `event` into `clicks`: a redirect adds
/// one to the count of its slug; a creation changes nothing.
pub open spec fn fold_click(clicks: Map<Seq<char>, nat>, event: EventView) -> Map<
    Seq<char>,
    nat,
> {
    match event {
        EventView::LinkCreated { .. } => clicks,
        EventView::RedirectOccurred { slug } => clicks.insert(slug, count_of(clicks, slug) + 1),
    }
}

/// The slug registry after folding `events`, in order, into `start`.
pub open spec fn fold_links(start: Map<Seq<char>, Seq<char>>, events: Seq<EventView>) -> Map<
    Seq<char>,
    Seq<char>,
>
    decreases events.len(),
{
    if events.len() == 0 {
        start
    } else {
        fold_link(fold_links(start, events.drop_last()), events.last())
    }
}

/// The click counters after folding `events`, in order, into `start`.
pub open spec fn fold_clicks(start: Map<Seq<char>, nat>, events: Seq<EventView>) -> Map<
    Seq<char>,
    nat,
>
    decreases events.len(),
{
    if events.len() == 0 {
        start
    } else {
        fold_click(fold_clicks(start, events.drop_last()), events.last())
    }
}

/// The slug registry that replaying `history` from the empty state builds.
pub open spec fn links_of(history: Seq<EventView>) -> Map<Seq<char>, Seq<char>> {
    fold_links(Map::empty(), history)
}

/// The click counters that replaying `history` from the empty state builds.
pub open spec fn clicks_of(history: Seq<EventView>) -> Map<Seq<char>, nat> {
    fold_clicks(Map::empty(), history)
}

/// Replaying one more event is one more fold step.
pub proof fn lemma_replay_push(history: Seq<EventView>, event: EventView)
    ensures
        links_of(history.push(event)) == fold_link(links_of(history), event),
        clicks_of(history.push(event)) == fold_click(clicks_of(history), event),
{
    assert(history.push(event).drop_last() =~= history);
}

/// No counter exceeds the number of events that were replayed.
pub proof fn lemma_count_bounded_by_length(history: Seq<EventView>, slug: Seq<char>)
    ensures
        count_of(clicks_of(history), slug) <= history.len(),
    decreases history.len(),
{
    if history.len() > 0 {
        lemma_count_bounded_by_length(history.drop_last(), slug);
    }
}

/// The slug → URL mapping, built from the creation events.
pub struct SlugRegistry {
    urls: StringHashMap<String>,
}

impl View for SlugRegistry {
    type V = Map<Seq<char>, Seq<char>>;

    closed spec fn view(&self) -> Map<Seq<char>, Seq<char>> {
        self.urls@.map_values(|url: String| url@)
    }
}

impl SlugRegistry {
    /// A registry that knows no slug.
    pub fn new() -> (registry: Self)
        ensures
            registry@ == Map::<Seq<char>, Seq<char>>::empty(),
    {
        SlugRegistry { urls: StringHashMap::new() }
    }

    /// Folds one event into the registry.
    pub fn apply(&mut self, event: &Event)
        ensures
            final(self)@ == fold_link(old(self)@, event@),
    {
        match event {
            Event::LinkCreated { slug, url } => {
                if !self.urls.contains_key(slug.0.as_str()) {
                    self.urls.insert(slug.0.clone(), url.0.clone());
                }
            },
            Event::RedirectOccurred { .. } => {},
        }
    }

    /// The URL registered under `slug`, if any.
    pub fn lookup(&self, slug: &Slug) -> (url: Option<Url>)
        ensures
            match url {
                Some(found) => self@.contains_key(slug@) && found@ == self@[slug@],
                None => !self@.contains_key(slug@),
            },
    {
        match self.urls.get(slug.0.as_str()) {
            Some(url) => Some(Url(url.clone())),
            None => None,
        }
    }

    /// Whether `slug` is registered.
    pub fn contains(&self, slug: &Slug) -> (registered: bool)
        ensures
            registered == self@.contains_key(slug@),
    {
        self.urls.contains_key(slug.0.as_str())
    }
}

/// The slug → redirect count mapping, built from the redirect events.
pub struct ClickCounters {
    counts: StringHashMap<u64>,
}

impl View for ClickCounters {
    type V = Map<Seq<char>, nat>;

    closed spec fn view(&self) -> Map<Seq<char>, nat> {
        self.counts@.map_values(|count: u64| count as nat)
    }
}

impl ClickCounters {
    /// Counters that have seen no redirect.
    pub fn new() -> (counters: Self)
        ensures
            counters@ == Map::<Seq<char>, nat>::empty(),
    {
        ClickCounters { counts: StringHashMap::new() }
    }

    /// Folds one event into the counters. A counter is a `u64`: the count of
    /// the slug of a redirect must leave room for one more.
    pub fn apply(&mut self, event: &Event)
        requires
            event@ is RedirectOccurred ==> count_of(old(self)@, event_slug(event@)) < u64::MAX,
        ensures
            final(self)@ == fold_click(old(self)@, event@),
    {
        match event {
            Event::LinkCreated { .. } => {},
            Event::RedirectOccurred { slug } => {
                let seen = self.get(slug);
                self.counts.insert(slug.0.clone(), seen + 1);
            },
        }
    }

    /// How many redirects were counted for `slug`: zero for a slug that was
    /// never redirected, registered or not.
    pub fn get(&self, slug: &Slug) -> (count: u64)
        ensures
            count == count_of(self@, slug@),
    {
        match self.counts.get(slug.0.as_str()) {
            Some(count) => *count,
            None => 0,
        }
    }
}

} // verus!
