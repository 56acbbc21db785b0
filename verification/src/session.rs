//! The session state machine. One session serves one trigger message: it
//! owns the lifecycle AwaitingSelection, then AwaitingAction, then Closed,
//! decides which inbound events it accepts, and names the outbound call it
//! asks for after each event. Waiting on the platform, sending, and the
//! measurement of the wait window are the embedding program's part; the
//! events it hands in are those the event source delivered for the
//! session's own message, and every decision taken on them stands here.

use crate::catalog::{director_menu, sound_actions, spec_director_menu, spec_trigger, MenuEntry};
use crate::prompt::{
    build_action_prompt, build_selection_prompt, spec_action_prompt, spec_selection_prompt,
    spec_timeout_reply, spec_yell_reply, timeout_reply, yell_reply, ActionPrompt,
    ActionPromptView, SelectionPrompt,
};
use vstd::prelude::*;

verus! {

/// The phase of a session's lifecycle.
#[derive(Debug, Clone, Copy, PartialEq, Eq, Structural)]
pub enum Phase {
    AwaitingSelection,
    AwaitingAction,
    Closed,
}

/// An occurrence a running session can react to. `Selection` and
/// `ButtonPress` carry the acting user; `Timeout` says the current wait's
/// deadline expired; `StreamClosed` says the event source closed the
/// stream of interactions.
#[derive(Debug, Clone, PartialEq, Eq)]
pub enum Event {
    Selection { actor: u64, value: String },
    ButtonPress { actor: u64, action: String },
    Timeout,
    StreamClosed,
}

/// The mathematical image of an [`Event`].
pub enum EventView {
    Selection { actor: u64, value: Seq<char> },
    ButtonPress { actor: u64, action: Seq<char> },
    Timeout,
    StreamClosed,
}

impl View for Event {
    type V = EventView;

    open spec fn view(&self) -> EventView {
        match self {
            Event::Selection { actor, value } => EventView::Selection {
                actor: *actor,
                value: value@,
            },
            Event::ButtonPress { actor, action } => EventView::ButtonPress {
                actor: *actor,
                action: action@,
            },
            Event::Timeout => EventView::Timeout,
            Event::StreamClosed => EventView::StreamClosed,
        }
    }
}

/// An outbound call a session asks the embedding program to perform against
/// the session's message or the acting user.
#[derive(Debug, Clone, PartialEq, Eq)]
pub enum Command {
    /// Replace the message's body and components with the action prompt.
    EditToActionPrompt { prompt: ActionPrompt },
    /// Send the acting user a reply only they can see, with this body.
    SendEphemeralReply { content: String },
    /// Reply under the message that the wait expired.
    SendTimeoutReply { content: String },
    /// Delete the message.
    DeleteMessage,
}

/// The mathematical image of a [`Command`].
#[verifier::ext_equal]
pub enum CommandView {
    EditToActionPrompt { prompt: ActionPromptView },
    SendEphemeralReply { content: Seq<char> },
    SendTimeoutReply { content: Seq<char> },
    DeleteMessage,
}

impl View for Command {
    type V = CommandView;

    open spec fn view(&self) -> CommandView {
        match self {
            Command::EditToActionPrompt { prompt } => CommandView::EditToActionPrompt {
                prompt: prompt@,
            },
            Command::SendEphemeralReply { content } => CommandView::SendEphemeralReply {
                content: content@,
            },
            Command::SendTimeoutReply { content } => CommandView::SendTimeoutReply {
                content: content@,
            },
            Command::DeleteMessage => CommandView::DeleteMessage,
        }
    }
}

/// The image of an optional [`Command`].
pub open spec fn spec_cmd(c: Option<Command>) -> Option<CommandView> {
    match c {
        Some(cmd) => Some(cmd@),
        None => None,
    }
}

/// The live state of one dialogue: who triggered it, where in the lifecycle
/// it stands, the value chosen so far, and whether the message's deletion
/// has been asked for.
#[derive(Debug, Clone, PartialEq, Eq)]
pub struct Session {
    pub owner: u64,
    pub phase: Phase,
    pub selected: Option<String>,
    pub deleted: bool,
}

/// The mathematical image of a [`Session`].
#[verifier::ext_equal]
pub struct SessionView {
    pub owner: u64,
    pub phase: Phase,
    pub selected: Option<Seq<char>>,
    pub deleted: bool,
}

impl View for Session {
    type V = SessionView;

    open spec fn view(&self) -> SessionView {
        SessionView {
            owner: self.owner,
            phase: self.phase,
            selected: self.selected.deep_view(),
            deleted: self.deleted,
        }
    }
}

impl SessionView {
    /// Internal consistency: a value is selected exactly from the action
    /// phase on, and deletion is asked for only once the session is closed.
    pub open spec fn wf(self) -> bool {
        &&& self.phase == Phase::AwaitingSelection ==> self.selected is None && !self.deleted
        &&& self.phase == Phase::AwaitingAction ==> self.selected is Some && !self.deleted
        &&& self.deleted ==> self.phase == Phase::Closed
    }
}

/// The state a fresh session for `owner` starts in.
pub open spec fn spec_new_session(owner: u64) -> SessionView {
    SessionView {
        owner,
        phase: Phase::AwaitingSelection,
        selected: None,
        deleted: false,
    }
}

/// The transition function: state and event to next state and the outbound
/// call the session asks for, if any.
pub open spec fn spec_step(s: SessionView, e: EventView) -> (SessionView, Option<CommandView>) {
    match s.phase {
        Phase::AwaitingSelection => match e {
            EventView::Selection { actor, value } => {
                if actor == s.owner {
                    (
                        SessionView {
                            phase: Phase::AwaitingAction,
                            selected: Some(value),
                            ..s
                        },
                        Some(CommandView::EditToActionPrompt { prompt: spec_action_prompt(value) }),
                    )
                } else {
                    (s, None)
                }
            },
            EventView::Timeout => (
                SessionView { phase: Phase::Closed, ..s },
                Some(CommandView::SendTimeoutReply { content: spec_timeout_reply() }),
            ),
            EventView::ButtonPress { .. } => (s, None),
            EventView::StreamClosed => (s, None),
        },
        Phase::AwaitingAction => match e {
            EventView::ButtonPress { actor, action } => {
                if actor == s.owner {
                    match s.selected {
                        Some(director) => (
                            s,
                            Some(CommandView::SendEphemeralReply {
                                content: spec_yell_reply(director, action),
                            }),
                        ),
                        None => (s, None),
                    }
                } else {
                    (s, None)
                }
            },
            EventView::Timeout | EventView::StreamClosed => (
                SessionView { phase: Phase::Closed, deleted: true, ..s },
                Some(CommandView::DeleteMessage),
            ),
            EventView::Selection { .. } => (s, None),
        },
        Phase::Closed => (s, None),
    }
}

/// True iff `body` is exactly the trigger command: a case-sensitive match
/// of the whole body, with no tolerance for surrounding whitespace.
pub fn is_trigger(body: &str) -> (r: bool)
    ensures
        r == (body@ == spec_trigger()),
{
    let b: String = body.to_owned();
    let t: String = "!director".to_owned();
    b == t
}

/// Handles one inbound message. Where `body` is exactly the trigger
/// command, a fresh session for `owner` is returned together with the one
/// selection prompt to send; any other body starts nothing and asks for no
/// outbound call.
pub fn start_session(owner: u64, body: &str) -> (r: Option<(Session, SelectionPrompt)>)
    ensures
        (r is Some) == (body@ == spec_trigger()),
        r matches Some((s, p)) ==> s@ == spec_new_session(owner) && s@.wf() && p@
            == spec_selection_prompt(spec_director_menu()),
{
    if is_trigger(body) {
        let session = Session {
            owner,
            phase: Phase::AwaitingSelection,
            selected: None,
            deleted: false,
        };
        let entries = director_menu();
        proof {
            assert(entries@.len() == entries@.map_values(|e: MenuEntry| e@).len());
        }
        let prompt = build_selection_prompt(entries);
        Some((session, prompt))
    } else {
        None
    }
}

impl Session {
    /// Runtime check of the state invariant, for callers outside the
    /// verified world.
    pub fn is_wf(&self) -> (r: bool)
        ensures
            r == self@.wf(),
    {
        match self.phase {
            Phase::AwaitingSelection => self.selected.is_none() && !self.deleted,
            Phase::AwaitingAction => self.selected.is_some() && !self.deleted,
            Phase::Closed => true,
        }
    }

    /// Advances the session by one event and returns the outbound call it
    /// asks for, if any. The relation to the transition function pins both
    /// the new state and the call down completely.
    pub fn step(&mut self, event: Event) -> (cmd: Option<Command>)
        requires
            old(self)@.wf(),
        ensures
            final(self)@ == spec_step(old(self)@, event@).0,
            spec_cmd(cmd) == spec_step(old(self)@, event@).1,
            final(self)@.wf(),
    {
        match self.phase {
            Phase::AwaitingSelection => match event {
                Event::Selection { actor, value } => {
                    if actor == self.owner {
                        let actions = sound_actions();
                        let prompt = build_action_prompt(value.as_str(), &actions);
                        self.phase = Phase::AwaitingAction;
                        self.selected = Some(value);
                        Some(Command::EditToActionPrompt { prompt })
                    } else {
                        None
                    }
                },
                Event::Timeout => {
                    self.phase = Phase::Closed;
                    Some(Command::SendTimeoutReply { content: timeout_reply() })
                },
                Event::ButtonPress { .. } => None,
                Event::StreamClosed => None,
            },
            Phase::AwaitingAction => match event {
                Event::ButtonPress { actor, action } => {
                    if actor == self.owner {
                        let director = self.selected.as_ref().unwrap();
                        Some(Command::SendEphemeralReply {
                            content: yell_reply(director.as_str(), action.as_str()),
                        })
                    } else {
                        None
                    }
                },
                Event::Timeout | Event::StreamClosed => {
                    self.phase = Phase::Closed;
                    self.deleted = true;
                    Some(Command::DeleteMessage)
                },
                Event::Selection { .. } => None,
            },
            Phase::Closed => None,
        }
    }
}

} // verus!

