//! Domain events and the append-only log that records them.
//!
//! The log is the single source of truth: everything the service can answer
//! is a function of the sequence of events held here.

use vstd::prelude::*;
use vstd::std_specs::cmp::PartialEqSpecImpl;
use crate::model::{Slug, Url};

verus! {

/// What an [`Event`] is, as mathematics.
pub enum EventView {
    /// A short link was registered under `slug`.
    LinkCreated { slug: Seq<char>, url: Seq<char> },
    /// A redirect through `slug` was served.
    RedirectOccurred { slug: Seq<char> },
}

/// An immutable fact, recorded once and never changed.
#[derive(Debug)]
pub enum Event {
    /// A short link was registered under `slug`.
    LinkCreated { slug: Slug, url: Url },
    /// A redirect through `slug` was served.
    RedirectOccurred { slug: Slug },
}

impl View for Event {
    type V = EventView;

    open spec fn view(&self) -> EventView {
        match *self {
            Event::LinkCreated { slug, url } => EventView::LinkCreated { slug: slug@, url: url@ },
            Event::RedirectOccurred { slug } => EventView::RedirectOccurred { slug: slug@ },
        }
    }
}

impl Clone for Event {
    fn clone(&self) -> (copy: Self)
        ensures
            copy@ == self@,
    {
        match self {
            Event::LinkCreated { slug, url } => Event::LinkCreated {
                slug: slug.clone(),
                url: url.clone(),
            },
            Event::RedirectOccurred { slug } => Event::RedirectOccurred { slug: slug.clone() },
        }
    }
}

impl PartialEq for Event {
    fn eq(&self, other: &Self) -> (same: bool) {
        match self {
            Event::LinkCreated { slug, url } => match other {
                Event::LinkCreated { slug: other_slug, url: other_url } => *slug == *other_slug
                    && *url == *other_url,
                Event::RedirectOccurred { .. } => false,
            },
            Event::RedirectOccurred { slug } => match other {
                Event::LinkCreated { .. } => false,
                Event::RedirectOccurred { slug: other_slug } => *slug == *other_slug,
            },
        }
    }
}

impl PartialEqSpecImpl for Event {
    open spec fn obeys_eq_spec() -> bool {
        true
    }

    open spec fn eq_spec(&self, other: &Self) -> bool {
        self@ == other@
    }
}

impl Event {
    /// The slug the event is about.
    pub fn slug(&self) -> (slug: &Slug)
        ensures
            slug@ == event_slug(self@),
    {
        match self {
            Event::LinkCreated { slug, .. } => slug,
            Event::RedirectOccurred { slug } => slug,
        }
    }
}

/// The slug an event is about.
pub open spec fn event_slug(event: EventView) -> Seq<char> {
    match event {
        EventView::LinkCreated { slug, .. } => slug,
        EventView::RedirectOccurred { slug } => slug,
    }
}

/// Anything whose state is a recorded history of events.
pub trait EventSourced {
    /// Every event recorded so far, oldest first.
    spec fn history(&self) -> Seq<EventView>;
}

/// An append-only, ordered record of events. The position of an event in the
/// log is its sequence number, counted from zero.
pub struct EventLog {
    events: Vec<Event>,
}

impl View for EventLog {
    type V = Seq<EventView>;

    closed spec fn view(&self) -> Seq<EventView> {
        self.events@.map_values(|event: Event| event@)
    }
}

impl EventLog {
    /// A log in which nothing has happened yet.
    pub fn new() -> (log: Self)
        ensures
            log@ == Seq::<EventView>::empty(),
    {
        EventLog { events: Vec::new() }
    }

    /// Records `event` behind everything recorded before and returns the
    /// sequence number it was given. Earlier entries are left as they were.
    /// The log never holds more events than a `usize` can count.
    pub fn append(&mut self, event: Event) -> (sequence_number: usize)
        ensures
            final(self)@ == old(self)@.push(event@),
            sequence_number == old(self)@.len(),
            final(self)@.len() <= usize::MAX,
    {
        let sequence_number = self.events.len();
        self.events.push(event);
        assert(self@.len() == self.events.len());
        sequence_number
    }

    /// How many events were recorded.
    pub fn len(&self) -> (count: usize)
        ensures
            count == self@.len(),
    {
        self.events.len()
    }

    /// Whether nothing was recorded yet.
    pub fn is_empty(&self) -> (empty: bool)
        ensures
            empty == (self@.len() == 0),
    {
        self.events.len() == 0
    }

    /// The event with the given sequence number, if one was recorded.
    pub fn get(&self, sequence_number: usize) -> (event: Option<&Event>)
        ensures
            match event {
                Some(found) => sequence_number < self@.len() && found@ == self@[sequence_number as int],
                None => sequence_number >= self@.len(),
            },
    {
        if sequence_number < self.events.len() {
            Some(&self.events[sequence_number])
        } else {
            None
        }
    }

    /// Every recorded event with its sequence number, in append order. Two
    /// calls with no append between them give the same entries.
    pub fn entries(&self) -> (all: Vec<(usize, Event)>)
        ensures
            all@.len() == self@.len(),
            forall|i: int|
                0 <= i < all@.len() ==> (#[trigger] all@[i]).0 == i && all@[i].1@ == self@[i],
    {
        let mut all: Vec<(usize, Event)> = Vec::new();
        let count = self.events.len();
        let mut next: usize = 0;
        while next < count
            invariant
                count == self.events@.len(),
                next <= count,
                all@.len() == next,
                forall|i: int|
                    0 <= i < all@.len() ==> (#[trigger] all@[i]).0 == i && all@[i].1@ == self@[i],
            decreases count - next,
        {
            let event = self.events[next].clone();
            all.push((next, event));
            next = next + 1;
        }
        all
    }
}

} // verus!
