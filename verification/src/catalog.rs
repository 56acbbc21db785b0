//! The static configuration of the dialogue: the trigger command, the five
//! menu entries, the five sound actions, and the length of the wait window.

use vstd::prelude::*;

verus! {

/// Seconds a session waits in either phase before the pending wait times out.
pub const WAIT_WINDOW_SECS: u64 = 180;

/// One entry of the selection menu: a display label, the value reported when
/// the entry is chosen, and a decorative glyph shown beside the label.
#[derive(Debug, Clone, PartialEq, Eq)]
pub struct MenuEntry {
    pub label: String,
    pub value: String,
    pub icon: String,
}

/// The mathematical image of a [`MenuEntry`].
pub struct MenuEntryView {
    pub label: Seq<char>,
    pub value: Seq<char>,
    pub icon: Seq<char>,
}

impl View for MenuEntry {
    type V = MenuEntryView;

    open spec fn view(&self) -> MenuEntryView {
        MenuEntryView { label: self.label@, value: self.value@, icon: self.icon@ }
    }
}

/// One push-button action: the identifier reported when its button is
/// pressed, and a decorative glyph shown on the button.
#[derive(Debug, Clone, PartialEq, Eq)]
pub struct ActionEntry {
    pub name: String,
    pub icon: String,
}

/// The mathematical image of an [`ActionEntry`].
pub struct ActionEntryView {
    pub name: Seq<char>,
    pub icon: Seq<char>,
}

impl View for ActionEntry {
    type V = ActionEntryView;

    open spec fn view(&self) -> ActionEntryView {
        ActionEntryView { name: self.name@, icon: self.icon@ }
    }
}

impl MenuEntry {
    /// The label as the menu shows it: the glyph, a space, the label text.
    pub fn display_label(&self) -> (r: String)
        ensures
            r@ == self.icon@ + " "@ + self.label@,
    {
        let mut r: String = self.icon.clone();
        r.append(" ");
        r.append(self.label.as_str());
        r
    }
}

/// The exact body an inbound message must have to start a session.
pub open spec fn spec_trigger() -> Seq<char> {
    "!director"@
}

/// The five entries of the selection menu, as configured.
pub open spec fn spec_director_menu() -> Seq<MenuEntryView> {
    seq![
        MenuEntryView { label: "Steven Spielberg"@, value: "Steven Spielberg"@, icon: "🎬"@ },
        MenuEntryView { label: "Stanley Kubrick"@, value: "Stanley Kubrick"@, icon: "🎬"@ },
        MenuEntryView { label: "Martin Scorsese"@, value: "Martin Scorsese"@, icon: "🎬"@ },
        MenuEntryView { label: "Alfred Hitchcock"@, value: "Alfred Hitchcock"@, icon: "🎬"@ },
        MenuEntryView { label: "Quentin Tarantino"@, value: "Quentin Tarantino"@, icon: "🎬"@ },
    ]
}

/// The values the selection menu can report, in menu order.
pub open spec fn spec_director_values() -> Seq<Seq<char>> {
    spec_director_menu().map_values(|e: MenuEntryView| e.value)
}

/// The five push-button actions, as configured.
pub open spec fn spec_sound_actions() -> Seq<ActionEntryView> {
    seq![
        ActionEntryView { name: "action"@, icon: "📣"@ },
        ActionEntryView { name: "cut"@, icon: "📣"@ },
        ActionEntryView { name: "print it"@, icon: "📣"@ },
        ActionEntryView { name: "another take"@, icon: "📣"@ },
        ActionEntryView { name: "that's a wrap"@, icon: "📣"@ },
    ]
}

fn menu_entry(text: &str, icon: &str) -> (e: MenuEntry)
    ensures
        e@ == (MenuEntryView { label: text@, value: text@, icon: icon@ }),
{
    MenuEntry { label: text.to_owned(), value: text.to_owned(), icon: icon.to_owned() }
}

fn action_entry(name: &str, icon: &str) -> (a: ActionEntry)
    ensures
        a@ == (ActionEntryView { name: name@, icon: icon@ }),
{
    ActionEntry { name: name.to_owned(), icon: icon.to_owned() }
}

/// Builds the configured selection menu.
pub fn director_menu() -> (r: Vec<MenuEntry>)
    ensures
        r@.map_values(|e: MenuEntry| e@) == spec_director_menu(),
{
    let mut r: Vec<MenuEntry> = Vec::new();
    r.push(menu_entry("Steven Spielberg", "🎬"));
    r.push(menu_entry("Stanley Kubrick", "🎬"));
    r.push(menu_entry("Martin Scorsese", "🎬"));
    r.push(menu_entry("Alfred Hitchcock", "🎬"));
    r.push(menu_entry("Quentin Tarantino", "🎬"));
    proof {
        assert(r@.map_values(|e: MenuEntry| e@) =~= spec_director_menu());
    }
    r
}

/// Builds the configured action row.
pub fn sound_actions() -> (r: Vec<ActionEntry>)
    ensures
        r@.map_values(|a: ActionEntry| a@) == spec_sound_actions(),
{
    let mut r: Vec<ActionEntry> = Vec::new();
    r.push(action_entry("action", "📣"));
    r.push(action_entry("cut", "📣"));
    r.push(action_entry("print it", "📣"));
    r.push(action_entry("another take", "📣"));
    r.push(action_entry("that's a wrap", "📣"));
    proof {
        assert(r@.map_values(|a: ActionEntry| a@) =~= spec_sound_actions());
    }
    r
}

/// The five menu values are pairwise distinct: choosing an entry identifies
/// it without ambiguity.
pub proof fn lemma_director_values_unique()
    ensures
        forall|i: int, j: int|
            0 <= i < j < spec_director_values().len()
                ==> spec_director_values()[i] != spec_director_values()[j],
{
    reveal_strlit("Steven Spielberg");
    reveal_strlit("Stanley Kubrick");
    reveal_strlit("Martin Scorsese");
    reveal_strlit("Alfred Hitchcock");
    reveal_strlit("Quentin Tarantino");
    let vs = spec_director_values();
    assert(vs.len() == 5);
    // Lengths separate most pairs; a differing character settles the rest.
    assert(vs[0].len() == 16);
    assert(vs[1].len() == 15);
    assert(vs[2].len() == 15);
    assert(vs[3].len() == 16);
    assert(vs[4].len() == 17);
    assert(vs[0] != vs[3]) by {
        assert(vs[0][0] == 'S' && vs[3][0] == 'A');
    }
    assert(vs[1] != vs[2]) by {
        assert(vs[1][0] == 'S' && vs[2][0] == 'M');
    }
}

} // verus!
