//! The main menu.

use vstd::prelude::*;
use crate::config::Credential;
use crate::strmap::StrMap;
use crate::error::concat3;
use crate::text::to_owned_string;
use crate::settings::opt_view;
use super::keys::{is_down, is_up, key_is_down, key_is_up, Key, KeyPress};
use super::widgets::{moved_down, moved_up, selected_index, SelectList};

verus! {

broadcast use vstd::string::group_string_axioms;

/// What a menu entry does.
#[derive(PartialEq, Eq, Structural, Clone, Copy)]
pub enum MenuAction {
    Last,
    Use,
    Default,
    Add,
    Edit,
    Delete,
    Settings,
    Help,
    Exit,
}

/// A screen the main menu opens.
#[derive(PartialEq, Eq, Structural, Clone, Copy)]
pub enum Target {
    Launch,
    Add,
    Edit,
    Delete,
    Settings,
    Help,
}

/// The names the menu shows: the assistant that is launched, and this
/// launcher.
pub struct MenuNames {
    pub assistant: String,
    pub launcher: String,
}

/// The menu's entries: label, description and action, naming the assistant
/// and the launcher as `names` gives them. "Launch Last" is listed only
/// when a last launch is known, with `last` as its description.
pub open spec fn menu_rows(last: Option<Seq<char>>, names: MenuNames) -> Seq<(Seq<char>, Seq<char>, MenuAction)> {
    let rest = seq![
        ("Launch with provider"@, "run "@ + names.assistant@ + " with saved credentials"@, MenuAction::Use),
        ("Launch default"@, "run with official Anthropic settings"@, MenuAction::Default),
        ("Add credentials"@, "save new credentials for a provider"@, MenuAction::Add),
        ("Edit credentials"@, "modify a saved set"@, MenuAction::Edit),
        ("Delete credentials"@, "remove a saved set"@, MenuAction::Delete),
        ("Settings"@, "configure "@ + names.launcher@ + ""@, MenuAction::Settings),
        ("Help"@, "about "@ + names.launcher@ + ""@, MenuAction::Help),
        ("Exit"@, ""@, MenuAction::Exit),
    ];
    match last {
        Some(n) => seq![("Launch Last"@, n, MenuAction::Last)] + rest,
        None => rest,
    }
}

/// How the last launched slug is described: the name of its credentials
/// when they are saved, else the slug itself.
pub open spec fn last_label(last: Option<Seq<char>>, creds: Map<Seq<char>, Credential>) -> Option<Seq<char>> {
    match last {
        Some(s) => Some(
            if creds.contains_key(s) {
                creds[s].name@
            } else {
                s
            },
        ),
        None => None,
    }
}

/// The menu: a list of entries and the action of each.
pub struct MainMenuState {
    pub list: SelectList,
    pub actions: Vec<MenuAction>,
}

impl MainMenuState {
    /// One action per entry, and a well-formed list.
    pub open spec fn wf(&self) -> bool {
        self.list.wf() && self.actions@.len() == self.list.items@.len()
    }

    /// The entries and actions match `rows`, in order.
    pub open spec fn shows(&self, rows: Seq<(Seq<char>, Seq<char>, MenuAction)>) -> bool {
        &&& self.list.items@.len() == rows.len()
        &&& self.actions@.len() == rows.len()
        &&& forall|i: int|
            0 <= i < rows.len() ==> (#[trigger] self.list.items@[i]).0@ == rows[i].0 && self.list.items@[i].1@
                == rows[i].1 && self.actions@[i] == rows[i].2
    }

    /// A menu as first shown for last launch `last` and credentials `creds`.
    pub open spec fn is_fresh(&self, last: Option<Seq<char>>, creds: Map<Seq<char>, Credential>, names: MenuNames) -> bool {
        &&& self.wf()
        &&& self.shows(menu_rows(last_label(last, creds), names))
        &&& self.list.selected == 0
        &&& self.list.filter@.len() == 0
        &&& self.list.filtered_indices@ == Seq::new(self.list.items@.len(), |i: int| i as usize)
    }

    /// The menu for a session whose last launch was `last_launched_credential`
    /// (described through `creds`), cursor on the first entry.
    pub fn new(last_launched_credential: Option<String>, creds: &StrMap<Credential>, names: &MenuNames) -> (r: Self)
        ensures
            r.is_fresh(opt_view(last_launched_credential), creds@, *names),
            r.wf(),
            r.shows(menu_rows(last_label(opt_view(last_launched_credential), creds@), *names)),
            r.list.selected == 0,
            r.list.filter@.len() == 0,
            r.list.filtered_indices@ == Seq::new(r.list.items@.len(), |i: int| i as usize),
    {
        let ghost rows = menu_rows(last_label(opt_view(last_launched_credential), creds@), *names);
        let mut items: Vec<(String, String)> = Vec::new();
        let mut actions: Vec<MenuAction> = Vec::new();
        match last_launched_credential {
            Some(slug) => {
                let name = match creds.get(slug.as_str()) {
                    Some(c) => c.name.clone(),
                    None => slug,
                };
                items.push((to_owned_string("Launch Last"), name));
                actions.push(MenuAction::Last);
            },
            None => {},
        }
        let ghost k = items@.len();
        items.push((to_owned_string("Launch with provider"), concat3("run ", names.assistant.as_str(), " with saved credentials")));
        actions.push(MenuAction::Use);
        items.push((to_owned_string("Launch default"), to_owned_string("run with official Anthropic settings")));
        actions.push(MenuAction::Default);
        items.push((to_owned_string("Add credentials"), to_owned_string("save new credentials for a provider")));
        actions.push(MenuAction::Add);
        items.push((to_owned_string("Edit credentials"), to_owned_string("modify a saved set")));
        actions.push(MenuAction::Edit);
        items.push((to_owned_string("Delete credentials"), to_owned_string("remove a saved set")));
        actions.push(MenuAction::Delete);
        items.push((to_owned_string("Settings"), concat3("configure ", names.launcher.as_str(), "")));
        actions.push(MenuAction::Settings);
        items.push((to_owned_string("Help"), concat3("about ", names.launcher.as_str(), "")));
        actions.push(MenuAction::Help);
        items.push((to_owned_string("Exit"), String::new()));
        actions.push(MenuAction::Exit);
        let ghost iv = items@;
        let ghost last = opt_view(last_launched_credential);
        assert(k == 0 <==> last is None);
        let r = MainMenuState { list: SelectList::new(items), actions };
        assert(r.list.items@ == iv);
        assert(r.shows(rows)) by {
            assert forall|i: int| 0 <= i < rows.len() implies (#[trigger] r.list.items@[i]).0@ == rows[i].0
                && r.list.items@[i].1@ == rows[i].1 && r.actions@[i] == rows[i].2 by {
                let j = i - k;
                if k == 1 && i == 0 {
                } else if j == 0 {
                } else if j == 1 {
                } else if j == 2 {
                } else if j == 3 {
                } else if j == 4 {
                } else if j == 5 {
                } else if j == 6 {
                } else {
                    reveal_strlit("");
                }
            }
        }
        r
    }
}

/// Where a menu key leads.
pub enum Nav {
    /// Stay on the menu.
    Stay,
    Exit,
    LaunchDefault,
    LaunchLast,
    GoTo(Target),
}

/// What choosing an entry with action `a` leads to.
pub open spec fn action_nav(a: MenuAction) -> Nav {
    match a {
        MenuAction::Exit => Nav::Exit,
        MenuAction::Default => Nav::LaunchDefault,
        MenuAction::Last => Nav::LaunchLast,
        MenuAction::Use => Nav::GoTo(Target::Launch),
        MenuAction::Add => Nav::GoTo(Target::Add),
        MenuAction::Edit => Nav::GoTo(Target::Edit),
        MenuAction::Delete => Nav::GoTo(Target::Delete),
        MenuAction::Settings => Nav::GoTo(Target::Settings),
        MenuAction::Help => Nav::GoTo(Target::Help),
    }
}

/// Where a menu key leads: up and down move the cursor, Enter takes the
/// entry under it, `q` and Esc leave.
pub open spec fn menu_nav(s: MainMenuState, k: Key) -> Nav {
    if is_up(k) || is_down(k) {
        Nav::Stay
    } else if k is Enter {
        match selected_index(s.list) {
            Some(i) => action_nav(s.actions@[i as int]),
            None => Nav::Stay,
        }
    } else if k is Esc || k == Key::Char('q') {
        Nav::Exit
    } else {
        Nav::Stay
    }
}

/// Handles a key on the main menu.
pub fn handle_key(state: &mut MainMenuState, key: KeyPress) -> (nav: Nav)
    requires
        old(state).wf(),
    ensures
        final(state).wf(),
        final(state).actions == old(state).actions,
        nav == menu_nav(*old(state), key.code),
        final(state).list == if is_up(key.code) {
            moved_up(old(state).list)
        } else if is_down(key.code) {
            moved_down(old(state).list)
        } else {
            old(state).list
        },
{
    if key_is_up(&key.code) {
        state.list.move_up();
        return Nav::Stay;
    }
    if key_is_down(&key.code) {
        state.list.move_down();
        return Nav::Stay;
    }
    match key.code {
        Key::Enter => match state.list.selected_original_index() {
            Some(idx) => match state.actions[idx] {
                MenuAction::Exit => Nav::Exit,
                MenuAction::Default => Nav::LaunchDefault,
                MenuAction::Last => Nav::LaunchLast,
                MenuAction::Use => Nav::GoTo(Target::Launch),
                MenuAction::Add => Nav::GoTo(Target::Add),
                MenuAction::Edit => Nav::GoTo(Target::Edit),
                MenuAction::Delete => Nav::GoTo(Target::Delete),
                MenuAction::Settings => Nav::GoTo(Target::Settings),
                MenuAction::Help => Nav::GoTo(Target::Help),
            },
            None => Nav::Stay,
        },
        Key::Esc => Nav::Exit,
        Key::Char(c) => if c == 'q' {
            Nav::Exit
        } else {
            Nav::Stay
        },
        _ => Nav::Stay,
    }
}

} // verus!
