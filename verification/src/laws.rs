//! What holds of every history the service can produce.
//!
//! The laws speak of runs: a run executes a sequence of commands, one after
//! the other, each against the history its predecessors left behind.

use vstd::prelude::*;
use crate::commands::{
    admissible, create_decision, execute, redirect_decision, redirect_effect, well_formed,
    Command,
};
use crate::event::{event_slug, EventView};
use crate::model::{ShortLinkView, ShortenerError};
use crate::projection::{
    clicks_of, count_of, fold_click, fold_clicks, fold_link, fold_links, lemma_replay_push,
    links_of,
};
use crate::queries::stats_of;

verus! {

/// The history after executing `commands`, in order, starting from `start`.
pub open spec fn run_from(start: Seq<EventView>, commands: Seq<Command>) -> Seq<EventView>
    decreases commands.len(),
{
    if commands.len() == 0 {
        start
    } else {
        execute(run_from(start, commands.drop_last()), commands.last()).1
    }
}

/// What the command at `position` returns when `commands` are executed, in
/// order, starting from `start`.
pub open spec fn outcome_at(start: Seq<EventView>, commands: Seq<Command>, position: int) -> Result<
    ShortLinkView,
    ShortenerError,
> {
    execute(run_from(start, commands.take(position)), commands[position]).0
}

/// How many of `commands` are redirects of `slug` that succeed when the
/// commands are executed, in order, starting from `start`.
pub open spec fn successful_redirects(
    start: Seq<EventView>,
    commands: Seq<Command>,
    slug: Seq<char>,
) -> nat
    decreases commands.len(),
{
    if commands.len() == 0 {
        0
    } else {
        let earlier = commands.drop_last();
        let counted: nat = if commands.last() == (Command::Redirect { slug }) && execute(
            run_from(start, earlier),
            commands.last(),
        ).0 is Ok {
            1
        } else {
            0
        };
        successful_redirects(start, earlier, slug) + counted
    }
}

/// Whether `smaller` is part of `larger`: every slug it registers is
/// registered in `larger` too, under the same URL.
pub open spec fn links_within(
    smaller: Map<Seq<char>, Seq<char>>,
    larger: Map<Seq<char>, Seq<char>>,
) -> bool {
    forall|slug: Seq<char>| #[trigger]
        smaller.contains_key(slug) ==> larger.contains_key(slug) && larger[slug] == smaller[slug]
}

/// Whether the event at `position` of `history` creates a link under `slug`.
pub open spec fn creation_at(history: Seq<EventView>, position: int, slug: Seq<char>) -> bool {
    &&& 0 <= position < history.len()
    &&& history[position] is LinkCreated
    &&& event_slug(history[position]) == slug
}

/// Whether the event at `position` is the first of `history` that creates a
/// link under `slug`.
pub open spec fn first_creation_at(history: Seq<EventView>, position: int, slug: Seq<char>) -> bool {
    &&& creation_at(history, position, slug)
    &&& forall|earlier: int| 0 <= earlier < position ==> !creation_at(history, earlier, slug)
}

/// The redirects of `slug` that `history` records.
pub open spec fn redirects_of(history: Seq<EventView>, slug: Seq<char>) -> Seq<EventView> {
    history.filter(|event: EventView| event == EventView::RedirectOccurred { slug })
}

/// A slug that some event of the history creates is registered.
pub proof fn law_created_slug_is_registered(
    history: Seq<EventView>,
    position: int,
    slug: Seq<char>,
)
    requires
        creation_at(history, position, slug),
    ensures
        links_of(history).contains_key(slug),
    decreases history.len(),
{
    if position < history.len() - 1 {
        law_created_slug_is_registered(history.drop_last(), position, slug);
    }
}

/// A registered slug was created: the history holds a first event that
/// creates it, and the lemma returns its position.
pub proof fn law_registered_slug_was_created(history: Seq<EventView>, slug: Seq<char>) -> (position:
    int)
    requires
        links_of(history).contains_key(slug),
    ensures
        first_creation_at(history, position, slug),
    decreases history.len(),
{
    let earlier = history.drop_last();
    if links_of(earlier).contains_key(slug) {
        let position = law_registered_slug_was_created(earlier, slug);
        assert forall|before: int| 0 <= before < position implies !creation_at(
            history,
            before,
            slug,
        ) by {
            assert(!creation_at(earlier, before, slug));
        }
        position
    } else {
        let last = history.len() - 1;
        assert forall|before: int| 0 <= before < last implies !creation_at(
            history,
            before,
            slug,
        ) by {
            if creation_at(history, before, slug) {
                law_created_slug_is_registered(earlier, before, slug);
            }
        }
        last
    }
}

/// The first creation wins: the registry holds, for every registered slug,
/// the URL of the first event that created it.
pub proof fn law_first_creation_wins(history: Seq<EventView>, position: int, slug: Seq<char>)
    requires
        first_creation_at(history, position, slug),
    ensures
        links_of(history).contains_key(slug),
        links_of(history)[slug] == history[position]->LinkCreated_url,
    decreases history.len(),
{
    let earlier = history.drop_last();
    if position < history.len() - 1 {
        assert forall|before: int| 0 <= before < position implies !creation_at(
            earlier,
            before,
            slug,
        ) by {
            assert(!creation_at(history, before, slug));
        }
        law_first_creation_wins(earlier, position, slug);
    } else if links_of(earlier).contains_key(slug) {
        let before = law_registered_slug_was_created(earlier, slug);
        assert(creation_at(history, before, slug));
    }
}

/// A counter holds the number of redirects of its slug that the history
/// records.
pub proof fn law_count_is_number_of_redirects(history: Seq<EventView>, slug: Seq<char>)
    ensures
        count_of(clicks_of(history), slug) == redirects_of(history, slug).len(),
    decreases history.len(),
{
    reveal(Seq::filter);
    if history.len() > 0 {
        law_count_is_number_of_redirects(history.drop_last(), slug);
    }
}

/// Replay is sequential: folding a log in two parts, the second into what
/// the first produced, gives what folding the whole log gives.
pub proof fn law_replay_in_parts(
    links: Map<Seq<char>, Seq<char>>,
    clicks: Map<Seq<char>, nat>,
    earlier: Seq<EventView>,
    later: Seq<EventView>,
)
    ensures
        fold_links(links, earlier + later) == fold_links(fold_links(links, earlier), later),
        fold_clicks(clicks, earlier + later) == fold_clicks(fold_clicks(clicks, earlier), later),
    decreases later.len(),
{
    if later.len() > 0 {
        law_replay_in_parts(links, clicks, earlier, later.drop_last());
        assert((earlier + later).drop_last() =~= earlier + later.drop_last());
    }
}

/// Projections kept up to date event by event equal the replay of the
/// resulting log from the empty state: if `links` and `clicks` are the
/// replay of `history`, then folding `appended` into them gives the replay
/// of `history + appended`.
pub proof fn law_incremental_equals_replay(history: Seq<EventView>, appended: Seq<EventView>)
    ensures
        fold_links(links_of(history), appended) == links_of(history + appended),
        fold_clicks(clicks_of(history), appended) == clicks_of(history + appended),
{
    law_replay_in_parts(Map::empty(), Map::empty(), history, appended);
}

/// What a running service holds: the log, and the two projections it keeps
/// up to date as events are appended.
pub struct Live {
    pub history: Seq<EventView>,
    pub links: Map<Seq<char>, Seq<char>>,
    pub clicks: Map<Seq<char>, nat>,
}

/// A running service in which nothing has happened yet.
pub open spec fn fresh() -> Live {
    Live { history: Seq::empty(), links: Map::empty(), clicks: Map::empty() }
}

/// One command against a running service: it is decided against the live
/// registry, and an accepted event is appended to the log and folded into
/// both live projections. A rejected command changes nothing.
pub open spec fn live_step(state: Live, command: Command) -> Live {
    let decision = match command {
        Command::Create { url, slug, url_is_valid } => create_decision(
            state.links,
            url,
            slug,
            url_is_valid,
        ),
        Command::Redirect { slug } => redirect_decision(state.links, slug),
    };
    match decision {
        Ok(event) => Live {
            history: state.history.push(event),
            links: fold_link(state.links, event),
            clicks: fold_click(state.clicks, event),
        },
        Err(_) => state,
    }
}

/// A running service after `commands`, in order.
pub open spec fn live_run(state: Live, commands: Seq<Command>) -> Live
    decreases commands.len(),
{
    if commands.len() == 0 {
        state
    } else {
        live_step(live_run(state, commands.drop_last()), commands.last())
    }
}

/// After any sequence of commands, the projections that were kept up to
/// date event by event are the projections that replaying the resulting
/// log from the empty state builds, and the log is the one the commands
/// produce when each is decided against the replay of its predecessors.
pub proof fn law_live_projections_equal_replay(state: Live, commands: Seq<Command>)
    requires
        state.links == links_of(state.history),
        state.clicks == clicks_of(state.history),
    ensures
        live_run(state, commands).links == links_of(live_run(state, commands).history),
        live_run(state, commands).clicks == clicks_of(live_run(state, commands).history),
        live_run(state, commands).history == run_from(state.history, commands),
    decreases commands.len(),
{
    if commands.len() > 0 {
        let before = live_run(state, commands.drop_last());
        law_live_projections_equal_replay(state, commands.drop_last());
        let after = live_step(before, commands.last());
        if after.history != before.history {
            lemma_replay_push(before.history, after.history.last());
        }
    }
}

/// The same for a service that starts empty.
pub proof fn law_fresh_projections_equal_replay(commands: Seq<Command>)
    ensures
        live_run(fresh(), commands).links == links_of(live_run(fresh(), commands).history),
        live_run(fresh(), commands).clicks == clicks_of(live_run(fresh(), commands).history),
        live_run(fresh(), commands).history == run_from(Seq::empty(), commands),
{
    law_live_projections_equal_replay(fresh(), commands);
}

/// A registered slug stays registered, under the URL it was first given,
/// whatever is appended to the log.
pub proof fn law_links_only_grow(history: Seq<EventView>, appended: Seq<EventView>)
    ensures
        links_within(links_of(history), links_of(history + appended)),
    decreases appended.len(),
{
    if appended.len() > 0 {
        law_links_only_grow(history, appended.drop_last());
        assert((history + appended).drop_last() =~= history + appended.drop_last());
    }
}

/// No counter ever decreases, whatever is appended to the log.
pub proof fn law_counts_only_grow(
    history: Seq<EventView>,
    appended: Seq<EventView>,
    slug: Seq<char>,
)
    ensures
        count_of(clicks_of(history), slug) <= count_of(clicks_of(history + appended), slug),
    decreases appended.len(),
{
    if appended.len() > 0 {
        law_counts_only_grow(history, appended.drop_last(), slug);
        assert((history + appended).drop_last() =~= history + appended.drop_last());
    }
}

/// A command appends at most one event, and only an admissible one: the
/// history it leaves is the history it found, extended by nothing or by
/// that event.
pub proof fn law_execute_appends(history: Seq<EventView>, command: Command)
    ensures
        ({
            let (outcome, after) = execute(history, command);
            match outcome {
                Ok(link) => after.len() == history.len() + 1 && after == history.push(after.last())
                    && admissible(history, after.last()) && event_slug(after.last())
                    == link.slug,
                Err(_) => after == history,
            }
        }),
        well_formed(history) ==> well_formed(execute(history, command).1),
{
    let (outcome, after) = execute(history, command);
    if outcome is Ok {
        assert(after.drop_last() =~= history);
    }
}

/// A run only ever appends to the history it started from.
pub proof fn law_run_appends(start: Seq<EventView>, commands: Seq<Command>)
    ensures
        start.len() <= run_from(start, commands).len(),
        run_from(start, commands) == start + run_from(start, commands).skip(start.len() as int),
        well_formed(start) ==> well_formed(run_from(start, commands)),
    decreases commands.len(),
{
    if commands.len() > 0 {
        law_run_appends(start, commands.drop_last());
        law_execute_appends(run_from(start, commands.drop_last()), commands.last());
    }
}

/// A longer run of the same commands has appended to what a shorter run
/// left behind.
pub proof fn law_run_in_parts(start: Seq<EventView>, commands: Seq<Command>, position: int)
    requires
        0 <= position <= commands.len(),
    ensures
        run_from(start, commands) == run_from(
            run_from(start, commands.take(position)),
            commands.skip(position),
        ),
    decreases commands.len() - position,
{
    let later = commands.skip(position);
    if position == commands.len() {
        assert(commands.take(position) =~= commands);
    } else {
        law_run_in_parts(start, commands.drop_last(), position);
        assert(commands.drop_last().take(position) =~= commands.take(position));
        assert(commands.drop_last().skip(position) =~= later.drop_last());
    }
}

/// In any run of commands, no two successful creations return the same
/// slug.
pub proof fn law_created_slugs_are_unique(
    start: Seq<EventView>,
    commands: Seq<Command>,
    first: int,
    second: int,
)
    requires
        0 <= first < second < commands.len(),
        commands[first] is Create,
        commands[second] is Create,
        outcome_at(start, commands, first) is Ok,
        outcome_at(start, commands, second) is Ok,
    ensures
        outcome_at(start, commands, first)->Ok_0.slug != outcome_at(
            start,
            commands,
            second,
        )->Ok_0.slug,
{
    let before_first = run_from(start, commands.take(first));
    let after_first = run_from(start, commands.take(first + 1));
    let before_second = run_from(start, commands.take(second));
    let slug = outcome_at(start, commands, first)->Ok_0.slug;

    law_execute_appends(before_first, commands[first]);
    lemma_replay_push(before_first, after_first.last());
    assert(links_of(after_first).contains_key(slug));

    let prefix = commands.take(second);
    law_run_in_parts(start, prefix, first + 1);
    assert(prefix.take(first + 1) =~= commands.take(first + 1));
    law_run_appends(after_first, prefix.skip(first + 1));
    law_links_only_grow(after_first, before_second.skip(after_first.len() as int));
}

/// The log of the service never holds two creations of one slug: in a
/// well-formed history, creation events at different positions carry
/// different slugs.
pub proof fn law_log_creations_are_unique(history: Seq<EventView>, first: int, second: int)
    requires
        well_formed(history),
        0 <= first < second < history.len(),
        history[first] is LinkCreated,
        history[second] is LinkCreated,
    ensures
        event_slug(history[first]) != event_slug(history[second]),
    decreases history.len(),
{
    let earlier = history.drop_last();
    if second < history.len() - 1 {
        law_log_creations_are_unique(earlier, first, second);
    } else {
        let through_first = earlier.take(first + 1);
        lemma_replay_push(earlier.take(first), history[first]);
        assert(links_of(through_first).contains_key(event_slug(history[first])));
        law_links_only_grow(through_first, earlier.skip(first + 1));
        assert(through_first + earlier.skip(first + 1) =~= earlier);
    }
}

/// A successful redirect adds exactly one to the count of its slug and
/// leaves every other count as it was.
pub proof fn law_redirect_counts_once(history: Seq<EventView>, slug: Seq<char>, other: Seq<char>)
    requires
        links_of(history).contains_key(slug),
        other != slug,
    ensures
        count_of(clicks_of(redirect_effect(history, slug).1), slug) == count_of(
            clicks_of(history),
            slug,
        ) + 1,
        count_of(clicks_of(redirect_effect(history, slug).1), other) == count_of(
            clicks_of(history),
            other,
        ),
{
    lemma_replay_push(history, EventView::RedirectOccurred { slug });
}

/// A slug that is not registered in a well-formed history was never
/// redirected.
pub proof fn law_unregistered_slug_has_no_clicks(history: Seq<EventView>, slug: Seq<char>)
    requires
        well_formed(history),
        !links_of(history).contains_key(slug),
    ensures
        count_of(clicks_of(history), slug) == 0,
    decreases history.len(),
{
    if history.len() > 0 {
        law_unregistered_slug_has_no_clicks(history.drop_last(), slug);
    }
}

/// After a run, the count of a slug is what it was before plus the number
/// of redirects of that slug that succeeded. No other command moves it,
/// and nothing lowers it.
pub proof fn law_count_is_successful_redirects(
    start: Seq<EventView>,
    commands: Seq<Command>,
    slug: Seq<char>,
)
    ensures
        count_of(clicks_of(run_from(start, commands)), slug) == count_of(clicks_of(start), slug)
            + successful_redirects(start, commands, slug),
    decreases commands.len(),
{
    if commands.len() > 0 {
        let before = run_from(start, commands.drop_last());
        law_count_is_successful_redirects(start, commands.drop_last(), slug);
        law_execute_appends(before, commands.last());
        let (outcome, after) = execute(before, commands.last());
        if outcome is Ok {
            lemma_replay_push(before, after.last());
        }
    }
}

/// On a service that starts empty, the statistics of a registered slug
/// report exactly the number of successful redirects of that slug.
pub proof fn law_stats_count_successful_redirects(commands: Seq<Command>, slug: Seq<char>)
    requires
        links_of(run_from(Seq::empty(), commands)).contains_key(slug),
    ensures
        stats_of(run_from(Seq::empty(), commands), slug) matches Ok(stats) && stats.redirects
            == successful_redirects(Seq::empty(), commands, slug),
{
    law_count_is_successful_redirects(Seq::empty(), commands, slug);
}

/// The statistics of a registered slug are a function of the history, and
/// the only command that changes them is a redirect of that very slug: asked
/// again with no such redirect in between, a query gives the same answer.
pub proof fn law_stats_change_only_by_redirect(
    history: Seq<EventView>,
    command: Command,
    slug: Seq<char>,
)
    requires
        links_of(history).contains_key(slug),
        command != (Command::Redirect { slug }),
    ensures
        stats_of(execute(history, command).1, slug) == stats_of(history, slug),
{
    law_execute_appends(history, command);
    let (outcome, after) = execute(history, command);
    if outcome is Ok {
        lemma_replay_push(history, after.last());
    }
}

} // verus!
