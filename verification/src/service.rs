//! The aggregate that ties the log and its projections together, and the
//! service that guards it.
//!
//! The log and the two projections form one unit of consistency: at every
//! point where a caller can observe the service, each projection is exactly
//! the replay of the log, and the log is well formed.

use vstd::prelude::*;
use crate::capability::{generate_slug, is_valid_absolute_url, valid_absolute_url};
use crate::commands::{
    admissible, create_effect, decide_create, decide_redirect, redirect_effect, well_formed,
    CommandHandler,
};
use crate::event::{event_slug, Event, EventLog, EventSourced, EventView};
use crate::model::{link_outcome, ShortLink, ShortenerError, Slug, Stats, Url};
use crate::projection::{
    clicks_of, lemma_count_bounded_by_length, lemma_replay_push, links_of, ClickCounters,
    SlugRegistry,
};
use crate::queries::{read_stats, QueryHandler};

verus! {

/// The log with the projections folded from it.
struct Ledger {
    log: EventLog,
    registry: SlugRegistry,
    counters: ClickCounters,
}

impl Ledger {
    /// Each projection is the replay of the log, and every event of the log
    /// was admissible when it was appended.
    spec fn consistent(&self) -> bool {
        &&& self.registry@ == links_of(self.log@)
        &&& self.counters@ == clicks_of(self.log@)
        &&& well_formed(self.log@)
    }

    /// An empty log with empty projections.
    fn new() -> (ledger: Self)
        ensures
            ledger.consistent(),
            ledger.log@ == Seq::<EventView>::empty(),
    {
        Ledger { log: EventLog::new(), registry: SlugRegistry::new(), counters: ClickCounters::new() }
    }

    /// Appends `event` to the log and folds what the log now holds at that
    /// position into both projections.
    fn record(&mut self, event: Event)
        requires
            old(self).consistent(),
            admissible(old(self).log@, event@),
        ensures
            final(self).consistent(),
            final(self).log@ == old(self).log@.push(event@),
    {
        proof {
            lemma_count_bounded_by_length(self.log@, event_slug(event@));
            lemma_replay_push(self.log@, event@);
            assert(self.log@.push(event@).drop_last() =~= self.log@);
        }
        let sequence_number = self.log.append(event);
        if let Some(recorded) = self.log.get(sequence_number) {
            self.registry.apply(recorded);
            self.counters.apply(recorded);
        }
    }

    /// Decides a creation against the registry and records it if accepted.
    fn create(&mut self, url: Url, slug: Slug, url_is_valid: bool) -> (result: Result<
        ShortLink,
        ShortenerError,
    >)
        requires
            old(self).consistent(),
        ensures
            final(self).consistent(),
            (link_outcome(result), final(self).log@) == create_effect(
                old(self).log@,
                url@,
                slug@,
                url_is_valid,
            ),
    {
        match decide_create(&self.registry, &url, &slug, url_is_valid) {
            Ok(event) => {
                self.record(event);
                Ok(ShortLink { slug, url })
            },
            Err(error) => Err(error),
        }
    }

    /// Decides a redirect against the registry and records it if accepted.
    /// An accepted redirect is of a registered slug, so its URL is found.
    fn redirect(&mut self, slug: Slug) -> (result: Result<ShortLink, ShortenerError>)
        requires
            old(self).consistent(),
        ensures
            final(self).consistent(),
            (link_outcome(result), final(self).log@) == redirect_effect(old(self).log@, slug@),
    {
        match decide_redirect(&self.registry, &slug) {
            Ok(event) => match self.registry.lookup(&slug) {
                Some(url) => {
                    self.record(event);
                    Ok(ShortLink { slug, url })
                },
                None => Err(ShortenerError::SlugNotFound),
            },
            Err(error) => Err(error),
        }
    }
}

/// The URL-shortening service: an event log, the projections folded from
/// it, and the command and query handlers over them.
pub struct UrlShortenerService {
    ledger: Ledger,
}

impl EventSourced for UrlShortenerService {
    closed spec fn history(&self) -> Seq<EventView> {
        self.ledger.log@
    }
}

impl UrlShortenerService {
    #[verifier::type_invariant]
    spec fn consistent(self) -> bool {
        self.ledger.consistent()
    }

    /// Moves the ledger out and leaves an empty one behind. Appending to
    /// the log and folding the event are separate steps, and the invariant
    /// must hold of the service at each of them: so a command works on the
    /// ledger it took out and puts it back when both are done.
    fn take_ledger(&mut self) -> (ledger: Ledger)
        ensures
            ledger.consistent(),
            ledger.log@ == old(self).history(),
    {
        proof {
            use_type_invariant(&*self);
        }
        let mut ledger = Ledger::new();
        std::mem::swap(&mut ledger, &mut self.ledger);
        ledger
    }

    /// A service in which nothing has happened yet.
    pub fn new() -> (service: Self)
        ensures
            service.history() == Seq::<EventView>::empty(),
    {
        UrlShortenerService { ledger: Ledger::new() }
    }

    /// Registers `url` under `slug`, given the validator's answer for the
    /// URL. This is the whole of link creation once the slug is chosen and
    /// the URL was judged.
    pub fn register_link(&mut self, url: Url, slug: Slug, url_is_valid: bool) -> (result: Result<
        ShortLink,
        ShortenerError,
    >)
        ensures
            well_formed(final(self).history()),
            (link_outcome(result), final(self).history()) == create_effect(
                old(self).history(),
                url@,
                slug@,
                url_is_valid,
            ),
    {
        let mut ledger = self.take_ledger();
        let result = ledger.create(url, slug, url_is_valid);
        self.ledger = ledger;
        result
    }

    /// The event log. It is well formed at every point.
    pub fn log(&self) -> (log: &EventLog)
        ensures
            log@ == self.history(),
            well_formed(log@),
    {
        proof {
            use_type_invariant(self);
        }
        &self.ledger.log
    }

    /// The live slug registry. It is the replay of the log.
    pub fn registry(&self) -> (registry: &SlugRegistry)
        ensures
            registry@ == links_of(self.history()),
    {
        proof {
            use_type_invariant(self);
        }
        &self.ledger.registry
    }

    /// The live click counters. They are the replay of the log.
    pub fn counters(&self) -> (counters: &ClickCounters)
        ensures
            counters@ == clicks_of(self.history()),
    {
        proof {
            use_type_invariant(self);
        }
        &self.ledger.counters
    }
}

impl CommandHandler for UrlShortenerService {
    fn handle_create_short_link(&mut self, url: Url, slug: Option<Slug>) -> (result: Result<
        ShortLink,
        ShortenerError,
    >)
        ensures
            well_formed(final(self).history()),
    {
        let chosen = match slug {
            Some(requested) => requested,
            None => generate_slug(),
        };
        let url_is_valid = is_valid_absolute_url(url.0.as_str());
        let result = self.register_link(url, chosen, url_is_valid);
        proof {
            // the generated token is the witness for a request without a slug
            assert(create_effect(old(self).history(), url@, chosen@, valid_absolute_url(url@)) == (
                link_outcome(result),
                final(self).history(),
            ));
        }
        result
    }

    fn handle_redirect(&mut self, slug: Slug) -> (result: Result<ShortLink, ShortenerError>)
        ensures
            well_formed(final(self).history()),
    {
        let mut ledger = self.take_ledger();
        let result = ledger.redirect(slug);
        self.ledger = ledger;
        result
    }
}

impl QueryHandler for UrlShortenerService {
    fn get_stats(&self, slug: Slug) -> (result: Result<Stats, ShortenerError>) {
        proof {
            use_type_invariant(self);
        }
        read_stats(&self.ledger.registry, &self.ledger.counters, slug)
    }
}

} // verus!
