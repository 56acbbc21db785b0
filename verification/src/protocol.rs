//! Laws of whole runs. A run folds the transition function over a sequence
//! of events and collects every outbound call asked for on the way; the
//! proofs here state what holds of every run, however the events fall: a
//! closed session is final, the timeout reply ends a session for good, the
//! button UI is installed at most once, deletion is asked for at most once,
//! a selected value is write-once, and another user's interactions are
//! ignored entirely.

use crate::catalog::{lemma_director_values_unique, spec_director_menu};
use crate::prompt::{spec_chosen_content, spec_selection_prompt, spec_timeout_reply, spec_yell_reply};
use crate::session::{spec_step, CommandView, EventView, Phase, SessionView};
use vstd::prelude::*;

verus! {

/// The commands one step emits, as a sequence: none or one.
pub open spec fn spec_emits(c: Option<CommandView>) -> Seq<CommandView> {
    match c {
        Some(cmd) => seq![cmd],
        None => Seq::empty(),
    }
}

/// A whole run: the state after consuming `events` in order, and every
/// command emitted on the way, in emission order.
pub open spec fn spec_run(s: SessionView, events: Seq<EventView>) -> (SessionView, Seq<CommandView>)
    decreases events.len(),
{
    if events.len() == 0 {
        (s, Seq::empty())
    } else {
        let first = spec_step(s, events[0]);
        let rest = spec_run(first.0, events.drop_first());
        (rest.0, spec_emits(first.1) + rest.1)
    }
}

/// How many commands of `cs` ask for deletion.
pub open spec fn spec_delete_count(cs: Seq<CommandView>) -> nat
    decreases cs.len(),
{
    if cs.len() == 0 {
        0
    } else {
        (if cs[0] is DeleteMessage {
            1nat
        } else {
            0nat
        }) + spec_delete_count(cs.drop_first())
    }
}

/// How many commands of `cs` install the button UI.
pub open spec fn spec_edit_count(cs: Seq<CommandView>) -> nat
    decreases cs.len(),
{
    if cs.len() == 0 {
        0
    } else {
        (if cs[0] is EditToActionPrompt {
            1nat
        } else {
            0nat
        }) + spec_edit_count(cs.drop_first())
    }
}

/// One step keeps a session internally consistent.
pub proof fn lemma_step_preserves_wf(s: SessionView, e: EventView)
    requires
        s.wf(),
    ensures
        spec_step(s, e).0.wf(),
{
}

/// A closed session is final: it stays closed, ignores every further
/// event, and never asks for another outbound call.
pub proof fn lemma_closed_is_final(s: SessionView, events: Seq<EventView>)
    requires
        s.phase == Phase::Closed,
    ensures
        spec_run(s, events).0 == s,
        spec_run(s, events).1 == Seq::<CommandView>::empty(),
    decreases events.len(),
{
    if events.len() > 0 {
        lemma_closed_is_final(s, events.drop_first());
        assert(spec_run(s, events).1 =~= Seq::<CommandView>::empty());
    }
}

/// An expired selection wait earns exactly one outbound call, the timeout
/// reply: whatever events follow, the run emits nothing further — no
/// button UI is ever created on this path and nothing is deleted.
pub proof fn lemma_selection_timeout_is_final(s: SessionView, events: Seq<EventView>)
    requires
        s.wf(),
        s.phase == Phase::AwaitingSelection,
        events.len() > 0,
        events[0] == EventView::Timeout,
    ensures
        spec_run(s, events).0.phase == Phase::Closed,
        spec_run(s, events).1 == seq![
            CommandView::SendTimeoutReply { content: spec_timeout_reply() },
        ],
{
    let first = spec_step(s, events[0]);
    lemma_closed_is_final(first.0, events.drop_first());
    assert(spec_run(s, events).1 =~= seq![
        CommandView::SendTimeoutReply { content: spec_timeout_reply() },
    ]);
}

/// Deletion is asked for exactly once in a run that ends with the session
/// deleted, and never otherwise — so at most once per session, however
/// many events arrive and in whatever order.
pub proof fn lemma_delete_at_most_once(s: SessionView, events: Seq<EventView>)
    requires
        s.wf(),
    ensures
        spec_delete_count(spec_run(s, events).1) == (if spec_run(s, events).0.deleted
            && !s.deleted {
            1nat
        } else {
            0nat
        }),
        spec_delete_count(spec_run(s, events).1) <= 1,
    decreases events.len(),
{
    if events.len() > 0 {
        let first = spec_step(s, events[0]);
        let rest = spec_run(first.0, events.drop_first());
        lemma_step_preserves_wf(s, events[0]);
        lemma_delete_at_most_once(first.0, events.drop_first());
        if first.0.deleted {
            lemma_closed_is_final(first.0, events.drop_first());
        }
        match first.1 {
            Some(cmd) => {
                assert((spec_emits(first.1) + rest.1).drop_first() =~= rest.1);
                assert(spec_delete_count(spec_run(s, events).1) == (if cmd is DeleteMessage {
                    1nat
                } else {
                    0nat
                }) + spec_delete_count(rest.1));
            },
            None => {
                assert(spec_emits(first.1) + rest.1 =~= rest.1);
            },
        }
    }
}

/// The button UI is installed exactly once in a run that records a
/// selection, and never otherwise — so at most once per session, and never
/// once the selection phase is over.
pub proof fn lemma_edit_at_most_once(s: SessionView, events: Seq<EventView>)
    requires
        s.wf(),
    ensures
        spec_edit_count(spec_run(s, events).1) == (if spec_run(s, events).0.selected is Some
            && s.selected is None {
            1nat
        } else {
            0nat
        }),
        spec_edit_count(spec_run(s, events).1) <= 1,
        s.phase != Phase::AwaitingSelection ==> spec_edit_count(spec_run(s, events).1) == 0,
    decreases events.len(),
{
    if events.len() > 0 {
        let first = spec_step(s, events[0]);
        let rest = spec_run(first.0, events.drop_first());
        lemma_step_preserves_wf(s, events[0]);
        lemma_edit_at_most_once(first.0, events.drop_first());
        match first.0.selected {
            Some(v) => lemma_selected_write_once(first.0, events.drop_first(), v),
            None => {},
        }
        match first.1 {
            Some(cmd) => {
                assert((spec_emits(first.1) + rest.1).drop_first() =~= rest.1);
                assert(spec_edit_count(spec_run(s, events).1) == (if cmd is EditToActionPrompt {
                    1nat
                } else {
                    0nat
                }) + spec_edit_count(rest.1));
            },
            None => {
                assert(spec_emits(first.1) + rest.1 =~= rest.1);
            },
        }
    }
}

/// A run that begins with the owner's selection installs the button UI
/// exactly once, whatever events follow.
pub proof fn lemma_accepted_selection_edits_exactly_once(
    s: SessionView,
    events: Seq<EventView>,
    value: Seq<char>,
)
    requires
        s.wf(),
        s.phase == Phase::AwaitingSelection,
        events.len() > 0,
        events[0] == (EventView::Selection { actor: s.owner, value }),
    ensures
        spec_edit_count(spec_run(s, events).1) == 1,
{
    let first = spec_step(s, events[0]);
    lemma_step_preserves_wf(s, events[0]);
    lemma_selected_write_once(first.0, events.drop_first(), value);
    lemma_edit_at_most_once(s, events);
}

/// Ending the action window, by timeout or stream closure, earns exactly
/// one outbound call in all that follows: the deletion of the message.
pub proof fn lemma_window_end_deletes_exactly_once(s: SessionView, events: Seq<EventView>)
    requires
        s.wf(),
        s.phase == Phase::AwaitingAction,
        events.len() > 0,
        events[0] == EventView::Timeout || events[0] == EventView::StreamClosed,
    ensures
        spec_run(s, events).1 == seq![CommandView::DeleteMessage],
{
    let first = spec_step(s, events[0]);
    lemma_closed_is_final(first.0, events.drop_first());
    assert(spec_run(s, events).1 =~= seq![CommandView::DeleteMessage]);
}

/// Whether `e` is an interaction by someone other than `owner`.
pub open spec fn spec_foreign(e: EventView, owner: u64) -> bool {
    match e {
        EventView::Selection { actor, .. } => actor != owner,
        EventView::ButtonPress { actor, .. } => actor != owner,
        EventView::Timeout => false,
        EventView::StreamClosed => false,
    }
}

/// Sessions are isolated by owner: a run made only of other users'
/// interactions changes nothing and is never answered. In particular a
/// selection by one user can never be accepted by another user's session.
pub proof fn lemma_foreign_events_ignored(s: SessionView, events: Seq<EventView>)
    requires
        forall|i: int| 0 <= i < events.len() ==> spec_foreign(#[trigger] events[i], s.owner),
    ensures
        spec_run(s, events).0 == s,
        spec_run(s, events).1 == Seq::<CommandView>::empty(),
    decreases events.len(),
{
    if events.len() > 0 {
        assert(spec_foreign(events[0], s.owner));
        assert forall|i: int| 0 <= i < events.drop_first().len() implies spec_foreign(
            #[trigger] events.drop_first()[i],
            s.owner,
        ) by {
            assert(events.drop_first()[i] == events[i + 1]);
        }
        lemma_foreign_events_ignored(s, events.drop_first());
        assert(spec_run(s, events).1 =~= Seq::<CommandView>::empty());
    }
}

/// A selected value is write-once: once set, every later state of the run
/// carries the same value.
pub proof fn lemma_selected_write_once(s: SessionView, events: Seq<EventView>, v: Seq<char>)
    requires
        s.wf(),
        s.selected == Some(v),
    ensures
        spec_run(s, events).0.selected == Some(v),
    decreases events.len(),
{
    if events.len() > 0 {
        lemma_step_preserves_wf(s, events[0]);
        lemma_selected_write_once(spec_step(s, events[0]).0, events.drop_first(), v);
    }
}

/// An accepted selection: the session moves to the action phase, records
/// the value, and asks for exactly one edit, whose body echoes the value.
pub proof fn lemma_selection_accepted(s: SessionView, value: Seq<char>)
    requires
        s.wf(),
        s.phase == Phase::AwaitingSelection,
    ensures
        ({
            let r = spec_step(s, EventView::Selection { actor: s.owner, value });
            &&& r.0.phase == Phase::AwaitingAction
            &&& r.0.selected == Some(value)
            &&& r.0.owner == s.owner
            &&& r.0.wf()
            &&& r.1 matches Some(c) && c is EditToActionPrompt
            &&& (r.1 matches Some(CommandView::EditToActionPrompt { prompt }) ==> prompt.content
                == spec_chosen_content(value))
        }),
{
}

/// An accepted button press: exactly one ephemeral reply of the literal
/// shape, and the session stays in the action phase, unchanged.
pub proof fn lemma_button_press_replies(s: SessionView, director: Seq<char>, action: Seq<char>)
    requires
        s.wf(),
        s.phase == Phase::AwaitingAction,
        s.selected == Some(director),
    ensures
        ({
            let r = spec_step(s, EventView::ButtonPress { actor: s.owner, action });
            &&& r.0 == s
            &&& r.1 == Some(
                CommandView::SendEphemeralReply { content: spec_yell_reply(director, action) },
            )
        }),
{
}

/// The end of the action window, by timeout or stream closure: the session
/// closes and asks for exactly one deletion.
pub proof fn lemma_action_window_end(s: SessionView, e: EventView)
    requires
        s.wf(),
        s.phase == Phase::AwaitingAction,
        e == EventView::Timeout || e == EventView::StreamClosed,
    ensures
        ({
            let r = spec_step(s, e);
            &&& r.0.phase == Phase::Closed
            &&& r.0.deleted
            &&& r.1 == Some(CommandView::DeleteMessage)
        }),
{
}

/// The selection prompt a trigger earns carries all five configured
/// options, in menu order, and their values are pairwise distinct.
pub proof fn lemma_selection_prompt_complete()
    ensures
        ({
            let p = spec_selection_prompt(spec_director_menu());
            &&& p.entries.len() == 5
            &&& forall|i: int| 0 <= i < 5 ==> #[trigger] p.entries[i] == spec_director_menu()[i]
            &&& forall|i: int, j: int|
                0 <= i < j < 5 ==> p.entries[i].value != p.entries[j].value
        }),
{
    lemma_director_values_unique();
    let p = spec_selection_prompt(spec_director_menu());
    assert forall|i: int, j: int| 0 <= i < j < 5 implies p.entries[i].value != p.entries[j].value by {
        assert(crate::catalog::spec_director_values()[i] == p.entries[i].value);
        assert(crate::catalog::spec_director_values()[j] == p.entries[j].value);
    }
}

} // verus!
