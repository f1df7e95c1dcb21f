//! What holds of every run of the orchestrator.

use crate::control::{CommandView, CONNECT_ATTEMPTS};
use crate::error::{ErrorView, OutcomeView};
use crate::play::{
    burst_commands, burst_events, ActionView, Confirmation, EventView, OrchestratorView,
    PhaseView, Session,
};
use crate::resolver::enumerated;
use vstd::prelude::*;

verus! {

/// One step keeps what holds of every state.
pub proof fn lemma_step_keeps_inv(s: OrchestratorView, event: EventView)
    requires
        s.inv(),
    ensures
        s.next(event).inv(),
{
    let t = s.next(event);
    assert forall|j: int| t.lead() <= j < t.sent.len() implies #[trigger] t.shaped_at(j) by {
        if j < s.sent.len() {
            assert(s.shaped_at(j));
        }
    }
    if t.session == Session::Attached && t.playlist {
        assert forall|k: int| 0 <= 2 * k < t.sent.len() implies #[trigger] t.titled_at(k) by {
            if 2 * k < s.sent.len() {
                assert(s.titled_at(k));
            }
        }
    }
}

/// Every run keeps what holds of every state.
pub proof fn lemma_run_keeps_inv(s: OrchestratorView, events: Seq<EventView>)
    requires
        s.inv(),
    ensures
        s.run(events).inv(),
    decreases events.len(),
{
    if events.len() > 0 {
        lemma_step_keeps_inv(s, events.first());
        lemma_run_keeps_inv(s.next(events.first()), events.drop_first());
    }
}

/// What holds of every state holds of every state that an invocation
/// reaches from its start.
pub proof fn law_reachable(
    intent: crate::intent::IntentView,
    config: crate::config::ConfigView,
    cookie: Option<crate::supervisor::CookieView>,
    format: Seq<char>,
    events: Seq<EventView>,
)
    ensures
        crate::play::initial(intent, config, cookie, format).run(events).inv(),
{
    lemma_run_keeps_inv(crate::play::initial(intent, config, cookie, format), events);
}

/// Once the route is decided, no event changes the items, nor whether
/// they are a playlist: a list that was cut is never grown again.
pub proof fn law_items_settled(s: OrchestratorView, events: Seq<EventView>)
    requires
        s.settled(),
    ensures
        s.run(events).settled(),
        s.run(events).items == s.items,
        s.run(events).playlist == s.playlist,
    decreases events.len(),
{
    if events.len() > 0 {
        law_items_settled(s.next(events.first()), events.drop_first());
    }
}

/// A listing of at most one entry makes the intent a single item, and no
/// later event makes it a playlist or brings the question for a count.
pub proof fn law_single_item(
    s: OrchestratorView,
    output: Option<Seq<char>>,
    later: Seq<EventView>,
)
    requires
        s.phase is Classifying,
        enumerated(output).len() <= 1,
    ensures
        ({
            let t = s.next(EventView::Enumerated(output)).run(later);
            &&& !t.playlist
            &&& t.items == seq![s.single()]
            &&& !(t.phase is Confirming)
            &&& !(t.pending() is Confirm)
        }),
{
    law_items_settled(s.next(EventView::Enumerated(output)), later);
}

/// A count above zero keeps exactly the first so many items, in their
/// order, or all where there are no more; they are a playlist, and no later
/// event changes them.
pub proof fn law_truncation(s: OrchestratorView, n: usize, later: Seq<EventView>)
    requires
        s.phase is Confirming,
        n > 0,
    ensures
        ({
            let t = s.next(EventView::Confirmed(Confirmation::Count(n))).run(later);
            &&& t.playlist
            &&& t.items == if n < s.items.len() {
                s.items.take(n as int)
            } else {
                s.items
            }
        }),
{
    law_items_settled(s.next(EventView::Confirmed(Confirmation::Count(n))), later);
}

/// Once the burst of commands is over, nothing more is resolved or sent:
/// the log stays as it is.
pub proof fn law_burst_closed(s: OrchestratorView, events: Seq<EventView>)
    requires
        s.burst_over(),
    ensures
        s.run(events).burst_over(),
        s.run(events).sent == s.sent,
        !(s.run(events).pending() is Send),
        !(s.run(events).pending() is Resolve),
    decreases events.len(),
{
    if events.len() > 0 {
        law_burst_closed(s.next(events.first()), events.drop_first());
    }
}

/// A write that fails ends the burst: what was written before it stays the
/// log, and whatever happens later, nothing more is resolved or sent.
pub proof fn law_write_failure(s: OrchestratorView, later: Seq<EventView>)
    requires
        s.phase is Sending,
    ensures
        ({
            let t = s.next(EventView::Sent(false)).run(later);
            &&& t.sent == s.sent
            &&& t.burst_over()
            &&& !(t.pending() is Send)
            &&& !(t.pending() is Resolve)
        }),
{
    law_burst_closed(s.next(EventView::Sent(false)), later);
}

/// A failed write fails the invocation exactly where nothing was written
/// before it: no item was accepted then. The failure is of the write, not of
/// the connection or of the player's exit, and it ends the invocation at
/// once. After a write that succeeded, a new player is waited for and the
/// invocation for a running player ends with success.
pub proof fn law_write_failure_outcome(s: OrchestratorView)
    requires
        s.phase is Sending,
    ensures
        ({
            let t = s.next(EventView::Sent(false));
            &&& s.sent.len() == 0 ==> t.phase == PhaseView::Done(
                OutcomeView::Failure(ErrorView::SocketWriteFailed),
            ) && t.pending() == ActionView::Finish(
                OutcomeView::Failure(ErrorView::SocketWriteFailed),
            )
            &&& s.sent.len() > 0 && s.session == Session::Owned ==> t.phase is Waiting
            &&& s.sent.len() > 0 && s.session != Session::Owned ==> t.phase == PhaseView::Done(
                OutcomeView::Success,
            )
        }),
{
}

/// The first write to a new player is the one that replaces what the player
/// holds. Where it fails, the invocation fails for the write whatever
/// happens later: nothing is resolved, nothing more is sent, and the
/// player's exit decides nothing.
pub proof fn law_first_write_failure(s: OrchestratorView, later: Seq<EventView>)
    requires
        s.inv(),
        s.phase is Sending,
        s.phase->Sending_command is LoadReplace,
    ensures
        ({
            let t = s.next(EventView::Sent(false)).run(later);
            &&& t.phase == PhaseView::Done(OutcomeView::Failure(ErrorView::SocketWriteFailed))
            &&& t.sent.len() == 0
            &&& !(t.pending() is Send)
            &&& !(t.pending() is Resolve)
        }),
{
    let u = s.next(EventView::Sent(false));
    law_done_stays(u, later);
    law_burst_closed(u, later);
}

/// A machine that has ended stays as it is.
pub proof fn law_done_stays(s: OrchestratorView, events: Seq<EventView>)
    requires
        s.phase is Done,
    ensures
        s.run(events) == s,
    decreases events.len(),
{
    if events.len() > 0 {
        law_done_stays(s.next(events.first()), events.drop_first());
    }
}

/// An append that was written is followed by the command that gives the
/// appended item its title, for the same item.
pub proof fn law_append_then_title(s: OrchestratorView)
    requires
        s.phase is Sending,
        s.phase->Sending_command is LoadAppend,
    ensures
        ({
            let t = s.next(EventView::Sent(true));
            &&& t.sent == s.sent.push(s.phase->Sending_command)
            &&& t.phase == (PhaseView::Sending {
                index: s.phase->Sending_index,
                command: CommandView::SetLastItemTitle {
                    title: crate::play::title_of(s.phase->Sending_command),
                },
            })
        }),
{
}

/// Only the first command for a new player replaces what the player holds;
/// no command for a running player does.
pub proof fn law_replace_first_only(s: OrchestratorView, j: int)
    requires
        s.inv(),
        0 <= j < s.sent.len(),
    ensures
        s.sent[j] is LoadReplace <==> s.session == Session::Owned && j == 0,
{
    if s.lead() <= j {
        assert(s.shaped_at(j));
    }
}

/// The commands in the log of a running player that was sent a playlist:
/// the item `k` was appended under the title of its entry, and then given
/// that title.
pub proof fn law_attached_order(s: OrchestratorView, k: int)
    requires
        s.inv(),
        s.session == Session::Attached,
        s.playlist,
        0 <= k,
        2 * k + 1 < s.sent.len(),
    ensures
        k < s.items.len(),
        s.sent[2 * k] is LoadAppend,
        crate::play::title_of(s.sent[2 * k]) == s.items[k].title,
        s.sent[2 * k + 1] == (CommandView::SetLastItemTitle { title: s.items[k].title }),
{
    assert(s.shaped_at(2 * k));
    assert(s.shaped_at(2 * k + 1));
    assert(s.titled_at(k));
}

/// The tries to connect to a new player are bounded: when as many have
/// failed as the budget allows, the player is killed, and the invocation
/// fails for want of a connection, not for the player's exit.
pub proof fn law_connect_budget(s: OrchestratorView, failures: Seq<EventView>)
    requires
        s.phase is Connecting,
        s.phase->Connecting_attempt < CONNECT_ATTEMPTS,
        failures.len() == CONNECT_ATTEMPTS - s.phase->Connecting_attempt,
        forall|i: int| 0 <= i < failures.len() ==> failures[i] == EventView::Connected(false),
    ensures
        s.run(failures).phase is Killing,
        s.run(failures).next(EventView::Killed).phase == PhaseView::Done(
            OutcomeView::Failure(ErrorView::SocketConnectionFailed),
        ),
    decreases failures.len(),
{
    let t = s.next(failures.first());
    let rest = failures.drop_first();
    if t.phase is Connecting {
        law_connect_budget(t, rest);
    } else {
        assert(rest.len() == 0);
        assert(t.run(rest) == t);
    }
}

/// A player that was started is waited for, with two exceptions: the one
/// that was killed because its socket never accepted a connection, and the
/// one whose first write failed.
pub proof fn law_how_owned_ends(s: OrchestratorView, event: EventView)
    requires
        s.inv(),
        s.session == Session::Owned,
        !(s.phase is Done),
        s.next(event).phase is Done,
    ensures
        s.phase is Waiting || s.phase is Killing || (s.phase is Sending
            && s.phase->Sending_command is LoadReplace && event == EventView::Sent(false)
            && s.next(event).phase == PhaseView::Done(
            OutcomeView::Failure(ErrorView::SocketWriteFailed),
        )),
{
}

/// An invocation has one session: once the player that the commands go to
/// is decided, no event changes it.
pub proof fn law_one_session(s: OrchestratorView, events: Seq<EventView>)
    requires
        s.inv(),
        s.session != Session::Pending,
    ensures
        s.run(events).session == s.session,
    decreases events.len(),
{
    if events.len() > 0 {
        lemma_step_keeps_inv(s, events.first());
        law_one_session(s.next(events.first()), events.drop_first());
    }
}

/// For a running player nothing is started, killed or waited for: the
/// machine resolves, sends, or has ended.
pub proof fn law_attached_starts_nothing(s: OrchestratorView)
    requires
        s.inv(),
        s.session == Session::Attached,
    ensures
        s.pending() is Resolve || s.pending() is Send || s.pending() is Finish,
{
}

/// One item takes three events: its resolution and two writes. They add to
/// the log the append made of what was resolved and the title of what was
/// appended, and lead to the next item, or past the last item out of the
/// burst.
pub proof fn law_item_round(s: OrchestratorView, output: Option<Seq<char>>)
    requires
        s.phase is Resolving,
    ensures
        ({
            let index = s.phase->Resolving_index;
            let append = s.append_command(index as int, output);
            let t = s.next(EventView::Resolved(output)).next(EventView::Sent(true)).next(
                EventView::Sent(true),
            );
            &&& t.sent == s.sent.push(append).push(
                CommandView::SetLastItemTitle { title: crate::play::title_of(append) },
            )
            &&& t.phase == s.after_item(index)
            &&& t.items == s.items
            &&& t.session == s.session
        }),
{
}

/// A burst in which every write succeeds, from the item that is being
/// resolved to the last: the log grows by an append and a title for each
/// item, in the order of the items, and the machine leaves the burst. For a
/// running player that ends the invocation with success; a new player is
/// waited for.
pub proof fn law_complete_burst(s: OrchestratorView, outputs: Seq<Option<Seq<char>>>)
    requires
        s.inv(),
        s.phase is Resolving,
        outputs.len() == s.items.len() - s.phase->Resolving_index,
    ensures
        ({
            let t = s.run(burst_events(outputs));
            &&& t.sent == s.sent + burst_commands(
                s.items,
                s.keeps_entry_titles(),
                s.phase->Resolving_index as int,
                outputs,
            )
            &&& t.phase == s.after_burst()
        }),
    decreases outputs.len(),
{
    let index = s.phase->Resolving_index;
    let output = outputs.first();
    let rest = outputs.drop_first();
    let events = burst_events(outputs);
    let a = s.next(EventView::Resolved(output));
    let b = a.next(EventView::Sent(true));
    let c = b.next(EventView::Sent(true));
    lemma_step_keeps_inv(s, EventView::Resolved(output));
    lemma_step_keeps_inv(a, EventView::Sent(true));
    lemma_step_keeps_inv(b, EventView::Sent(true));
    law_item_round(s, output);
    assert(s.run(events) == c.run(burst_events(rest))) by {
        let e1 = events.drop_first();
        let e2 = e1.drop_first();
        assert(events.first() == EventView::Resolved(output));
        assert(e1.first() == EventView::Sent(true));
        assert(e2.first() == EventView::Sent(true));
        assert(e2.drop_first() =~= burst_events(rest));
        assert(s.run(events) == a.run(e1));
        assert(a.run(e1) == b.run(e2));
        assert(b.run(e2) == c.run(e2.drop_first()));
    }
    let added = burst_commands(s.items, s.keeps_entry_titles(), index as int, outputs);
    if rest.len() > 0 {
        law_complete_burst(c, rest);
        assert(c.run(burst_events(rest)).sent =~= s.sent + added);
    } else {
        assert(burst_events(rest) =~= Seq::<EventView>::empty());
        assert(burst_commands(s.items, s.keeps_entry_titles(), index as int + 1, rest)
            =~= Seq::<CommandView>::empty());
        assert(c.sent =~= s.sent + added);
    }
}

/// An event that does not answer the pending action changes nothing.
pub proof fn law_unanswered(s: OrchestratorView, event: EventView)
    requires
        !s.answers(event),
    ensures
        s.next(event) == s,
{
}

/// Once the items are listed, every answer brings the end nearer: the
/// machine ends after no more answers than `answers_left` counts, and only
/// a machine that has ended takes no answer.
pub proof fn law_progress(s: OrchestratorView, event: EventView)
    requires
        s.inv(),
        !(s.phase is Classifying),
        s.answers(event),
    ensures
        s.next(event).answers_left() < s.answers_left(),
        !(s.next(event).phase is Classifying),
{
    let t = s.next(event);
    match (s.phase, event) {
        (PhaseView::Confirming, EventView::Confirmed(answer)) => {
            assert(t.items.len() <= s.items.len());
        },
        _ => {},
    }
}

/// A machine that has not ended waits for an answer, and a machine that has
/// ended takes none.
pub proof fn law_ends_only_when_done(s: OrchestratorView, event: EventView)
    ensures
        s.phase is Done ==> !s.answers(event),
        s.phase is Done <==> s.pending() is Finish,
        s.inv() && !(s.phase is Classifying) ==> (s.answers_left() == 0 <==> s.phase is Done),
{
}

} // verus!
