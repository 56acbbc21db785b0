use director_bot::catalog::{director_menu, sound_actions, WAIT_WINDOW_SECS};
use director_bot::prompt::{build_action_prompt, build_selection_prompt, sound_button, timeout_reply, yell_reply};
use director_bot::session::{start_session, Command, Event, Phase, Session};

fn started(owner: u64) -> (Session, director_bot::prompt::SelectionPrompt) {
    start_session(owner, "!director").expect("the trigger must start a session")
}

fn selecting(owner: u64, value: &str) -> Session {
    let (mut session, _) = started(owner);
    let cmd = session.step(Event::Selection {
        actor: owner,
        value: value.to_owned(),
    });
    assert!(matches!(cmd, Some(Command::EditToActionPrompt { .. })));
    session
}

#[test]
fn mismatched_message_starts_nothing() {
    assert!(start_session(1, "!directors").is_none());
    assert!(start_session(1, "!Director").is_none());
    assert!(start_session(1, " !director").is_none());
    assert!(start_session(1, "!director ").is_none());
    assert!(start_session(1, "hello").is_none());
    assert!(start_session(1, "").is_none());
}

#[test]
fn trigger_starts_session_with_selection_prompt() {
    let (session, prompt) = started(9);
    assert_eq!(session.owner, 9);
    assert_eq!(session.phase, Phase::AwaitingSelection);
    assert_eq!(session.selected, None);
    assert!(!session.deleted);
    assert_eq!(prompt.content, "Please select your favorite director");
    assert_eq!(prompt.menu_id, "director_select");
    assert_eq!(prompt.placeholder, "No director selected");
    let values: Vec<&str> = prompt.entries.iter().map(|e| e.value.as_str()).collect();
    assert_eq!(
        values,
        vec![
            "Steven Spielberg",
            "Stanley Kubrick",
            "Martin Scorsese",
            "Alfred Hitchcock",
            "Quentin Tarantino",
        ]
    );
    for entry in &prompt.entries {
        assert_eq!(entry.icon, "🎬");
        assert_eq!(entry.label, entry.value);
    }
}

#[test]
fn selection_prompt_values_are_unique() {
    let (_, prompt) = started(3);
    for i in 0..prompt.entries.len() {
        for j in (i + 1)..prompt.entries.len() {
            assert_ne!(prompt.entries[i].value, prompt.entries[j].value);
        }
    }
}

#[test]
fn accepted_selection_edits_message_once() {
    let (mut session, _) = started(4);
    let cmd = session.step(Event::Selection {
        actor: 4,
        value: "Martin Scorsese".to_owned(),
    });
    match cmd {
        Some(Command::EditToActionPrompt { prompt }) => {
            assert_eq!(prompt.content, "You chose: **Martin Scorsese**\nNow choose a command!");
            let ids: Vec<&str> = prompt.buttons.iter().map(|b| b.custom_id.as_str()).collect();
            assert_eq!(ids, vec!["action", "cut", "print it", "another take", "that's a wrap"]);
            for button in &prompt.buttons {
                assert_eq!(button.label, button.custom_id);
                assert_eq!(button.icon, "📣");
            }
        }
        other => panic!("expected an edit, got {:?}", other),
    }
    assert_eq!(session.phase, Phase::AwaitingAction);
    assert_eq!(session.selected.as_deref(), Some("Martin Scorsese"));
    // A second selection is no longer processed: the UI is edited only once.
    let again = session.step(Event::Selection {
        actor: 4,
        value: "Steven Spielberg".to_owned(),
    });
    assert_eq!(again, None);
    assert_eq!(session.selected.as_deref(), Some("Martin Scorsese"));
}

#[test]
fn selection_by_another_user_is_ignored() {
    let (mut session, _) = started(4);
    let cmd = session.step(Event::Selection {
        actor: 5,
        value: "Stanley Kubrick".to_owned(),
    });
    assert_eq!(cmd, None);
    assert_eq!(session.phase, Phase::AwaitingSelection);
    assert_eq!(session.selected, None);
}

#[test]
fn selection_timeout_sends_one_reply_and_never_deletes() {
    let (mut session, _) = started(6);
    let cmd = session.step(Event::Timeout);
    assert_eq!(
        cmd,
        Some(Command::SendTimeoutReply {
            content: "Sorry, I can't sit around waiting all day.".to_owned(),
        })
    );
    assert_eq!(session.phase, Phase::Closed);
    assert!(!session.deleted);
    // The session is over: nothing further is accepted or sent, and no
    // button UI was ever created, so nothing is deleted either.
    assert_eq!(session.step(Event::Timeout), None);
    assert_eq!(session.step(Event::StreamClosed), None);
    assert_eq!(
        session.step(Event::ButtonPress {
            actor: 6,
            action: "cut".to_owned(),
        }),
        None
    );
    assert!(!session.deleted);
}

#[test]
fn button_press_earns_ephemeral_reply_and_session_stays_open() {
    let mut session = selecting(2, "Alfred Hitchcock");
    let cmd = session.step(Event::ButtonPress {
        actor: 2,
        action: "print it".to_owned(),
    });
    assert_eq!(
        cmd,
        Some(Command::SendEphemeralReply {
            content: "**Alfred Hitchcock** yells __print it__!".to_owned(),
        })
    );
    assert_eq!(session.phase, Phase::AwaitingAction);
    // Presses may repeat for as long as the window is open.
    let cmd = session.step(Event::ButtonPress {
        actor: 2,
        action: "action".to_owned(),
    });
    assert_eq!(
        cmd,
        Some(Command::SendEphemeralReply {
            content: "**Alfred Hitchcock** yells __action__!".to_owned(),
        })
    );
    assert_eq!(session.phase, Phase::AwaitingAction);
}

#[test]
fn button_press_by_another_user_is_ignored() {
    let mut session = selecting(2, "Alfred Hitchcock");
    let cmd = session.step(Event::ButtonPress {
        actor: 3,
        action: "cut".to_owned(),
    });
    assert_eq!(cmd, None);
    assert_eq!(session.phase, Phase::AwaitingAction);
}

#[test]
fn action_window_timeout_deletes_exactly_once() {
    let mut session = selecting(8, "Quentin Tarantino");
    assert_eq!(session.step(Event::Timeout), Some(Command::DeleteMessage));
    assert_eq!(session.phase, Phase::Closed);
    assert!(session.deleted);
    // However many further events arrive, deletion is not asked for again.
    assert_eq!(session.step(Event::Timeout), None);
    assert_eq!(session.step(Event::StreamClosed), None);
    assert_eq!(
        session.step(Event::ButtonPress {
            actor: 8,
            action: "cut".to_owned(),
        }),
        None
    );
    assert!(session.deleted);
}

#[test]
fn stream_closure_deletes_exactly_once() {
    let mut session = selecting(8, "Quentin Tarantino");
    assert_eq!(session.step(Event::StreamClosed), Some(Command::DeleteMessage));
    assert_eq!(session.phase, Phase::Closed);
    assert!(session.deleted);
    assert_eq!(session.step(Event::StreamClosed), None);
}

#[test]
fn two_sessions_are_independent() {
    let (mut alice, _) = started(100);
    let (mut bob, _) = started(200);
    // Alice's selection reaches both subscriptions; only her session takes it.
    let to_bob = bob.step(Event::Selection {
        actor: 100,
        value: "Stanley Kubrick".to_owned(),
    });
    assert_eq!(to_bob, None);
    assert_eq!(bob.phase, Phase::AwaitingSelection);
    let to_alice = alice.step(Event::Selection {
        actor: 100,
        value: "Stanley Kubrick".to_owned(),
    });
    assert!(matches!(to_alice, Some(Command::EditToActionPrompt { .. })));
    assert_eq!(alice.phase, Phase::AwaitingAction);
    // Bob's dialogue goes on untouched by Alice's.
    let bob_cmd = bob.step(Event::Selection {
        actor: 200,
        value: "Martin Scorsese".to_owned(),
    });
    assert!(matches!(bob_cmd, Some(Command::EditToActionPrompt { .. })));
    assert_eq!(alice.selected.as_deref(), Some("Stanley Kubrick"));
    assert_eq!(bob.selected.as_deref(), Some("Martin Scorsese"));
}

#[test]
fn end_to_end_scenario() {
    let (mut session, prompt) = start_session(77, "!director").expect("trigger starts a session");
    let values: Vec<&str> = prompt.entries.iter().map(|e| e.value.as_str()).collect();
    assert_eq!(
        values,
        vec![
            "Steven Spielberg",
            "Stanley Kubrick",
            "Martin Scorsese",
            "Alfred Hitchcock",
            "Quentin Tarantino",
        ]
    );
    let edit = session.step(Event::Selection {
        actor: 77,
        value: "Stanley Kubrick".to_owned(),
    });
    match edit {
        Some(Command::EditToActionPrompt { prompt }) => {
            assert_eq!(prompt.content, "You chose: **Stanley Kubrick**\nNow choose a command!");
            let ids: Vec<&str> = prompt.buttons.iter().map(|b| b.custom_id.as_str()).collect();
            assert_eq!(ids, vec!["action", "cut", "print it", "another take", "that's a wrap"]);
        }
        other => panic!("expected an edit, got {:?}", other),
    }
    let reply = session.step(Event::ButtonPress {
        actor: 77,
        action: "cut".to_owned(),
    });
    assert_eq!(
        reply,
        Some(Command::SendEphemeralReply {
            content: "**Stanley Kubrick** yells __cut__!".to_owned(),
        })
    );
    // After 180 idle seconds the window times out and the message goes away.
    assert_eq!(WAIT_WINDOW_SECS, 180);
    assert_eq!(session.step(Event::Timeout), Some(Command::DeleteMessage));
    assert_eq!(session.phase, Phase::Closed);
}

#[test]
fn builders_are_pure_functions_of_their_inputs() {
    let menu = director_menu();
    assert_eq!(menu.len(), 5);
    let prompt = build_selection_prompt(menu.clone());
    assert_eq!(prompt.entries, menu);

    let actions = sound_actions();
    assert_eq!(actions.len(), 5);
    let action_prompt = build_action_prompt("Steven Spielberg", &actions);
    assert_eq!(
        action_prompt.content,
        "You chose: **Steven Spielberg**\nNow choose a command!"
    );
    assert_eq!(action_prompt.buttons.len(), actions.len());
    for (button, action) in action_prompt.buttons.iter().zip(actions.iter()) {
        assert_eq!(*button, sound_button(action));
        assert_eq!(button.custom_id, action.name);
        assert_eq!(button.icon, action.icon);
    }

    assert_eq!(
        yell_reply("Stanley Kubrick", "that's a wrap"),
        "**Stanley Kubrick** yells __that's a wrap__!"
    );
    assert_eq!(timeout_reply(), "Sorry, I can't sit around waiting all day.");
}
