//! The write path: commands are validated against the slug registry and, if
//! accepted, become one new event at the end of the log.
//!
//! A command is handled in two steps. The decision ([`decide_create`],
//! [`decide_redirect`]) reads the registry and yields either the event to
//! record or the reason for rejecting the command. The effect
//! ([`create_effect`], [`redirect_effect`]) says what the decision does to
//! the history and what the caller gets back.

use vstd::prelude::*;
use crate::capability::{is_generated_slug, valid_absolute_url};
use crate::event::{Event, EventSourced, EventView};
use crate::model::{link_outcome, ShortLink, ShortLinkView, ShortenerError, Slug, Url};
use crate::projection::{links_of, SlugRegistry};

verus! {

/// The decision on a request to register `url` under `slug`, given the
/// validator's answer for the URL: an invalid URL is rejected first, then a
/// slug that is taken; otherwise the creation is recorded.
pub open spec fn create_decision(
    links: Map<Seq<char>, Seq<char>>,
    url: Seq<char>,
    slug: Seq<char>,
    url_is_valid: bool,
) -> Result<EventView, ShortenerError> {
    if !url_is_valid {
        Err(ShortenerError::InvalidUrl)
    } else if links.contains_key(slug) {
        Err(ShortenerError::SlugAlreadyInUse)
    } else {
        Ok(EventView::LinkCreated { slug, url })
    }
}

/// The decision on a request to follow `slug`: a redirect is recorded
/// exactly if the slug is registered.
pub open spec fn redirect_decision(links: Map<Seq<char>, Seq<char>>, slug: Seq<char>) -> Result<
    EventView,
    ShortenerError,
> {
    if links.contains_key(slug) {
        Ok(EventView::RedirectOccurred { slug })
    } else {
        Err(ShortenerError::SlugNotFound)
    }
}

/// What a creation command returns and the history it leaves behind. A
/// rejected command leaves the history as it was.
pub open spec fn create_effect(
    history: Seq<EventView>,
    url: Seq<char>,
    slug: Seq<char>,
    url_is_valid: bool,
) -> (Result<ShortLinkView, ShortenerError>, Seq<EventView>) {
    match create_decision(links_of(history), url, slug, url_is_valid) {
        Ok(event) => (Ok(ShortLinkView { slug, url }), history.push(event)),
        Err(error) => (Err(error), history),
    }
}

/// What a redirect command returns and the history it leaves behind. A
/// rejected command leaves the history as it was.
pub open spec fn redirect_effect(history: Seq<EventView>, slug: Seq<char>) -> (
    Result<ShortLinkView, ShortenerError>,
    Seq<EventView>,
) {
    match redirect_decision(links_of(history), slug) {
        Ok(event) => (
            Ok(ShortLinkView { slug, url: links_of(history)[slug] }),
            history.push(event),
        ),
        Err(error) => (Err(error), history),
    }
}

/// A command as the handler sees it once the slug is chosen and the URL was
/// judged by the validator.
pub enum Command {
    /// Register `url` under `slug`.
    Create { url: Seq<char>, slug: Seq<char>, url_is_valid: bool },
    /// Follow `slug`.
    Redirect { slug: Seq<char> },
}

/// What `command` returns and the history it leaves behind.
pub open spec fn execute(history: Seq<EventView>, command: Command) -> (
    Result<ShortLinkView, ShortenerError>,
    Seq<EventView>,
) {
    match command {
        Command::Create { url, slug, url_is_valid } => create_effect(
            history,
            url,
            slug,
            url_is_valid,
        ),
        Command::Redirect { slug } => redirect_effect(history, slug),
    }
}

/// Whether `event` may be appended to `history`: a creation needs a free
/// slug, a redirect a registered one.
pub open spec fn admissible(history: Seq<EventView>, event: EventView) -> bool {
    match event {
        EventView::LinkCreated { slug, .. } => !links_of(history).contains_key(slug),
        EventView::RedirectOccurred { slug } => links_of(history).contains_key(slug),
    }
}

/// Whether every event of `history` was admissible when it was appended.
pub open spec fn well_formed(history: Seq<EventView>) -> bool
    decreases history.len(),
{
    history.len() == 0 || (well_formed(history.drop_last()) && admissible(
        history.drop_last(),
        history.last(),
    ))
}

/// The view of a decision: the event by its text, the error as it is.
pub open spec fn decision_outcome(decision: Result<Event, ShortenerError>) -> Result<
    EventView,
    ShortenerError,
> {
    match decision {
        Ok(event) => Ok(event@),
        Err(error) => Err(error),
    }
}

/// Decides a creation command against the registry. `url_is_valid` is the
/// validator's answer for `url`.
pub fn decide_create(registry: &SlugRegistry, url: &Url, slug: &Slug, url_is_valid: bool) -> (decision:
    Result<Event, ShortenerError>)
    ensures
        decision_outcome(decision) == create_decision(registry@, url@, slug@, url_is_valid),
{
    if !url_is_valid {
        Err(ShortenerError::InvalidUrl)
    } else if registry.contains(slug) {
        Err(ShortenerError::SlugAlreadyInUse)
    } else {
        Ok(Event::LinkCreated { slug: slug.clone(), url: url.clone() })
    }
}

/// Decides a redirect command against the registry.
pub fn decide_redirect(registry: &SlugRegistry, slug: &Slug) -> (decision: Result<
    Event,
    ShortenerError,
>)
    ensures
        decision_outcome(decision) == redirect_decision(registry@, slug@),
{
    if registry.contains(slug) {
        Ok(Event::RedirectOccurred { slug: slug.clone() })
    } else {
        Err(ShortenerError::SlugNotFound)
    }
}

/// The command side of the service.
pub trait CommandHandler: EventSourced {
    /// Registers `url` under `slug`, or under a freshly generated slug where
    /// none is given, and returns the new short link.
    ///
    /// With a given slug the outcome is [`create_effect`] for that slug and
    /// the validator's answer for the URL. Without one it is the same for
    /// some token of the generated shape; a collision of that token is
    /// reported like any other, not retried.
    fn handle_create_short_link(&mut self, url: Url, slug: Option<Slug>) -> (result: Result<
        ShortLink,
        ShortenerError,
    >)
        ensures
            well_formed(old(self).history()) ==> well_formed(final(self).history()),
            match slug {
                Some(requested) => (link_outcome(result), final(self).history()) == create_effect(
                    old(self).history(),
                    url@,
                    requested@,
                    valid_absolute_url(url@),
                ),
                None => exists|token: Seq<char>|
                    is_generated_slug(token) && #[trigger] create_effect(
                        old(self).history(),
                        url@,
                        token,
                        valid_absolute_url(url@),
                    ) == (link_outcome(result), final(self).history()),
            },
    ;

    /// Follows `slug`: records the redirect and returns the short link, or
    /// rejects an unregistered slug with `SlugNotFound`.
    fn handle_redirect(&mut self, slug: Slug) -> (result: Result<ShortLink, ShortenerError>)
        ensures
            well_formed(old(self).history()) ==> well_formed(final(self).history()),
            (link_outcome(result), final(self).history()) == redirect_effect(
                old(self).history(),
                slug@,
            ),
    ;
}

} // verus!
