//! The prompt builder: the outbound selection-menu message, the outbound
//! button-row message, and the texts of the replies a session sends. All
//! builders are pure: the result is a function of the arguments alone.

use crate::catalog::{ActionEntry, ActionEntryView, MenuEntry, MenuEntryView};
use vstd::prelude::*;

verus! {

/// Identifier carried by the selection control.
pub open spec fn spec_menu_id() -> Seq<char> {
    "director_select"@
}

/// Text the menu shows while nothing is chosen yet.
pub open spec fn spec_placeholder() -> Seq<char> {
    "No director selected"@
}

/// Body of the message that carries the selection menu.
pub open spec fn spec_selection_content() -> Seq<char> {
    "Please select your favorite director"@
}

/// Body of the edited message once `director` has been chosen.
pub open spec fn spec_chosen_content(director: Seq<char>) -> Seq<char> {
    "You chose: **"@ + director + "**\nNow choose a command!"@
}

/// Body of the ephemeral reply to a press of `action` after `director` was
/// chosen.
pub open spec fn spec_yell_reply(director: Seq<char>, action: Seq<char>) -> Seq<char> {
    "**"@ + director + "** yells __"@ + action + "__!"@
}

/// Body of the reply sent when the selection wait expires.
pub open spec fn spec_timeout_reply() -> Seq<char> {
    "Sorry, I can't sit around waiting all day."@
}

/// One button of the action row. Every button is rendered in the platform's
/// primary style; the style is therefore not part of the data.
#[derive(Debug, Clone, PartialEq, Eq)]
pub struct ButtonSpec {
    pub custom_id: String,
    pub label: String,
    pub icon: String,
}

/// The mathematical image of a [`ButtonSpec`].
#[verifier::ext_equal]
pub struct ButtonSpecView {
    pub custom_id: Seq<char>,
    pub label: Seq<char>,
    pub icon: Seq<char>,
}

impl View for ButtonSpec {
    type V = ButtonSpecView;

    open spec fn view(&self) -> ButtonSpecView {
        ButtonSpecView { custom_id: self.custom_id@, label: self.label@, icon: self.icon@ }
    }
}

/// The outbound message that asks the owner to pick a director: a body, one
/// selection control, and the control's choices.
#[derive(Debug, Clone, PartialEq, Eq)]
pub struct SelectionPrompt {
    pub content: String,
    pub menu_id: String,
    pub placeholder: String,
    pub entries: Vec<MenuEntry>,
}

/// The mathematical image of a [`SelectionPrompt`].
#[verifier::ext_equal]
pub struct SelectionPromptView {
    pub content: Seq<char>,
    pub menu_id: Seq<char>,
    pub placeholder: Seq<char>,
    pub entries: Seq<MenuEntryView>,
}

impl View for SelectionPrompt {
    type V = SelectionPromptView;

    open spec fn view(&self) -> SelectionPromptView {
        SelectionPromptView {
            content: self.content@,
            menu_id: self.menu_id@,
            placeholder: self.placeholder@,
            entries: self.entries@.map_values(|e: MenuEntry| e@),
        }
    }
}

/// The replacement message installed when a selection is accepted: a body
/// naming the chosen director and one row of action buttons.
#[derive(Debug, Clone, PartialEq, Eq)]
pub struct ActionPrompt {
    pub content: String,
    pub buttons: Vec<ButtonSpec>,
}

/// The mathematical image of an [`ActionPrompt`].
#[verifier::ext_equal]
pub struct ActionPromptView {
    pub content: Seq<char>,
    pub buttons: Seq<ButtonSpecView>,
}

impl View for ActionPrompt {
    type V = ActionPromptView;

    open spec fn view(&self) -> ActionPromptView {
        ActionPromptView {
            content: self.content@,
            buttons: self.buttons@.map_values(|b: ButtonSpec| b@),
        }
    }
}

/// The button an action row shows for `a`: the action's name is both the
/// button's identifier and its label.
pub open spec fn spec_button_of(a: ActionEntryView) -> ButtonSpecView {
    ButtonSpecView { custom_id: a.name, label: a.name, icon: a.icon }
}

/// The selection prompt built over `entries`.
pub open spec fn spec_selection_prompt(entries: Seq<MenuEntryView>) -> SelectionPromptView {
    SelectionPromptView {
        content: spec_selection_content(),
        menu_id: spec_menu_id(),
        placeholder: spec_placeholder(),
        entries,
    }
}

/// The action prompt built over `director` and `actions`.
pub open spec fn spec_action_prompt_of(
    director: Seq<char>,
    actions: Seq<ActionEntryView>,
) -> ActionPromptView {
    ActionPromptView {
        content: spec_chosen_content(director),
        buttons: actions.map_values(|a: ActionEntryView| spec_button_of(a)),
    }
}

/// The action prompt as configured: the five sound buttons.
pub open spec fn spec_action_prompt(director: Seq<char>) -> ActionPromptView {
    spec_action_prompt_of(director, crate::catalog::spec_sound_actions())
}

/// Builds the button that carries `action` in the action row.
pub fn sound_button(action: &ActionEntry) -> (b: ButtonSpec)
    ensures
        b@ == spec_button_of(action@),
{
    ButtonSpec {
        custom_id: action.name.clone(),
        label: action.name.clone(),
        icon: action.icon.clone(),
    }
}

/// Builds the selection prompt over `entries`. An empty menu would be a
/// configuration mistake, not a runtime condition, so it is ruled out here.
pub fn build_selection_prompt(entries: Vec<MenuEntry>) -> (p: SelectionPrompt)
    requires
        entries@.len() > 0,
    ensures
        p@ == spec_selection_prompt(entries@.map_values(|e: MenuEntry| e@)),
{
    SelectionPrompt {
        content: "Please select your favorite director".to_owned(),
        menu_id: "director_select".to_owned(),
        placeholder: "No director selected".to_owned(),
        entries,
    }
}

/// Builds the action prompt: the body names `director`, and one button per
/// entry of `actions` follows, in order.
pub fn build_action_prompt(director: &str, actions: &Vec<ActionEntry>) -> (p: ActionPrompt)
    ensures
        p@ == spec_action_prompt_of(director@, actions@.map_values(|a: ActionEntry| a@)),
{
    let mut content: String = "You chose: **".to_owned();
    content.append(director);
    content.append("**\nNow choose a command!");
    let mut buttons: Vec<ButtonSpec> = Vec::new();
    let mut i: usize = 0;
    while i < actions.len()
        invariant
            i <= actions.len(),
            buttons@.len() == i,
            forall|k: int| #![auto] 0 <= k < i ==> buttons@[k]@ == spec_button_of(actions@[k]@),
        decreases actions.len() - i,
    {
        buttons.push(sound_button(&actions[i]));
        i += 1;
    }
    let p = ActionPrompt { content, buttons };
    proof {
        let avs = actions@.map_values(|a: ActionEntry| a@);
        assert(p@.buttons =~= avs.map_values(|a: ActionEntryView| spec_button_of(a)));
    }
    p
}

/// Builds the ephemeral reply to a press of `action`.
pub fn yell_reply(director: &str, action: &str) -> (r: String)
    ensures
        r@ == spec_yell_reply(director@, action@),
{
    let mut r: String = "**".to_owned();
    r.append(director);
    r.append("** yells __");
    r.append(action);
    r.append("__!");
    r
}

/// Builds the reply sent when the selection wait expires.
pub fn timeout_reply() -> (r: String)
    ensures
        r@ == spec_timeout_reply(),
{
    "Sorry, I can't sit around waiting all day.".to_owned()
}

} // verus!
