//! The settings screen: switching, adding, editing and deleting workspaces.

use vstd::prelude::*;
use crate::error::{concat3, AppError};
use crate::settings::{
    add_spec, add_workspace, expand_path, expand_path_spec, opt_view, paths_view, remove_spec, remove_workspace,
    rename_spec, rename_workspace, set_active_spec, set_active_workspace, settings_wf, slugify_label,
    update_path_spec, update_workspace_path, Settings, SettingsView,
};
use crate::slug::slug_spec;
use crate::strmap::{lists_keys_sorted, sorted_keys};
use crate::text::{str_eq, to_owned_string, trim, trim_spec, views};
use super::form::TextInput;
use super::keys::{is_down, is_up, key_is_down, key_is_up, Key, KeyPress};
use super::widgets::{moved_down, moved_up, selected_index, SelectList};

verus! {

broadcast use vstd::string::group_string_axioms;

/// Where the settings screen is.
#[derive(PartialEq, Eq, Structural, Clone, Copy)]
pub enum SettingsStep {
    TopMenu,
    SwitchWorkspace,
    /// Adding a workspace: typing its label.
    AddLabel,
    /// Adding a workspace: typing its path.
    AddPath,
    EditWorkspaceMenu,
    /// Editing workspace `target`: choosing what to change.
    EditActionMenu,
    EditPath,
    EditRename,
    DeleteWorkspace,
}

/// What an entry of the top menu does.
#[derive(PartialEq, Eq, Structural, Clone, Copy)]
pub enum TopAction {
    Switch,
    Add,
    Edit,
    Delete,
    Back,
}

/// Where the paths typed on this screen are resolved: the default
/// credentials path offered for new workspaces, and the home and current
/// directories (when known).
pub struct Places {
    pub default_path: String,
    pub home: Option<String>,
    pub cwd: Option<String>,
}

/// The settings screen.
pub struct SettingsState {
    pub step: SettingsStep,
    pub menu_list: SelectList,
    pub workspace_list: SelectList,
    /// The label of each workspace list item, ascending.
    pub workspace_slugs: Vec<String>,
    /// The workspace being edited.
    pub target: String,
    /// The label, path or new label being typed.
    pub text_input: String,
    /// The path being typed when adding.
    pub text_input2: String,
    pub status: String,
    pub is_error: bool,
    /// The message to show once changed settings are written.
    pub pending: Option<String>,
}

/// The top menu's entries.
pub open spec fn top_rows() -> Seq<(Seq<char>, Seq<char>)> {
    seq![
        ("Switch workspace"@, "pick which workspace is active"@),
        ("Add workspace"@, "register a new profiles file"@),
        ("Edit workspace"@, "rename or change a workspace path"@),
        ("Delete workspace"@, "remove a workspace (cannot be active)"@),
        ("Back"@, ""@),
    ]
}

/// What the top menu's entry `i` does.
pub open spec fn top_action(i: int) -> TopAction {
    if i == 0 {
        TopAction::Switch
    } else if i == 1 {
        TopAction::Add
    } else if i == 2 {
        TopAction::Edit
    } else if i == 3 {
        TopAction::Delete
    } else {
        TopAction::Back
    }
}

/// The entries offered for a workspace being edited.
pub open spec fn edit_rows() -> Seq<(Seq<char>, Seq<char>)> {
    seq![
        ("Change path"@, "point this workspace at a different file"@),
        ("Rename"@, "change the label"@),
        ("Back"@, ""@),
    ]
}

/// A list shows `rows`, cursor on the first, no filter.
pub open spec fn fresh_list(l: SelectList, rows: Seq<(Seq<char>, Seq<char>)>) -> bool {
    &&& l.items@.len() == rows.len()
    &&& forall|i: int| 0 <= i < rows.len() ==> (#[trigger] l.items@[i]).0@ == rows[i].0 && l.items@[i].1@ == rows[i].1
    &&& l.selected == 0
    &&& l.filter@.len() == 0
    &&& l.filtered_indices@ == Seq::new(rows.len(), |i: int| i as usize)
    &&& l.wf()
}

fn list_of(rows: Vec<(String, String)>) -> (l: SelectList)
    ensures
        l.items@ == rows@,
        l.selected == 0,
        l.filter@.len() == 0,
        l.filtered_indices@ == Seq::new(rows@.len(), |i: int| i as usize),
        l.wf(),
{
    SelectList::new(rows)
}

impl SettingsState {
    /// The lists are well formed, the top menu has at most five entries and
    /// the workspace list one label per item.
    pub open spec fn wf(&self) -> bool {
        &&& self.menu_list.wf()
        &&& self.menu_list.items@.len() <= 5
        &&& self.workspace_list.wf()
        &&& self.workspace_slugs@.len() == self.workspace_list.items@.len()
    }

    /// The screen as first shown: the top menu.
    pub open spec fn is_fresh(&self) -> bool {
        &&& self.wf()
        &&& self.step == SettingsStep::TopMenu
        &&& fresh_list(self.menu_list, top_rows())
        &&& self.workspace_slugs@.len() == 0
        &&& self.status@.len() == 0
        &&& !self.is_error
        &&& self.pending is None
    }

    /// The screen on its top menu.
    pub fn new() -> (r: Self)
        ensures
            r.is_fresh(),
            r.wf(),
            r.step == SettingsStep::TopMenu,
            fresh_list(r.menu_list, top_rows()),
            r.workspace_slugs@.len() == 0,
            r.status@.len() == 0,
            !r.is_error,
            r.pending is None,
    {
        let mut rows: Vec<(String, String)> = Vec::new();
        rows.push((to_owned_string("Switch workspace"), to_owned_string("pick which workspace is active")));
        rows.push((to_owned_string("Add workspace"), to_owned_string("register a new profiles file")));
        rows.push((to_owned_string("Edit workspace"), to_owned_string("rename or change a workspace path")));
        rows.push((to_owned_string("Delete workspace"), to_owned_string("remove a workspace (cannot be active)")));
        rows.push((to_owned_string("Back"), String::new()));
        let menu_list = list_of(rows);
        proof {
            reveal_strlit("");
            assert forall|i: int| 0 <= i < 5 implies (#[trigger] menu_list.items@[i]).0@ == top_rows()[i].0
                && menu_list.items@[i].1@ == top_rows()[i].1 by {
            }
        }
        SettingsState {
            step: SettingsStep::TopMenu,
            menu_list,
            workspace_list: list_of(Vec::new()),
            workspace_slugs: Vec::new(),
            target: String::new(),
            text_input: String::new(),
            text_input2: String::new(),
            status: String::new(),
            is_error: false,
            pending: None,
        }
    }
}

/// How workspace `label` is listed: its label (marked when active) and path.
pub open spec fn workspace_row(s: SettingsView, label: Seq<char>) -> (Seq<char>, Seq<char>) {
    (
        if label == s.active {
            label + " (active)"@
        } else {
            label
        },
        s.workspaces[label],
    )
}

/// The workspace list shows every workspace of `s`, ascending by label.
pub open spec fn lists_workspaces(st: SettingsState, s: &Settings) -> bool {
    &&& lists_keys_sorted(views(st.workspace_slugs@), &s.workspaces)
    &&& fresh_list(
        st.workspace_list,
        Seq::new(st.workspace_slugs@.len(), |i: int| workspace_row(s@, st.workspace_slugs@[i]@)),
    )
}

impl SettingsState {
    /// Lists the workspaces of `s` afresh.
    fn refresh_workspace_list(&mut self, s: &Settings)
        requires
            old(self).wf(),
        ensures
            final(self).wf(),
            lists_workspaces(*final(self), s),
            final(self).step == old(self).step,
            final(self).menu_list == old(self).menu_list,
            final(self).target == old(self).target,
            final(self).text_input == old(self).text_input,
            final(self).text_input2 == old(self).text_input2,
            final(self).status == old(self).status,
            final(self).is_error == old(self).is_error,
            final(self).pending == old(self).pending,
    {
        let slugs = sorted_keys(&s.workspaces);
        let mut rows: Vec<(String, String)> = Vec::new();
        let mut i: usize = 0;
        while i < slugs.len()
            invariant
                lists_keys_sorted(views(slugs@), &s.workspaces),
                0 <= i <= slugs@.len(),
                rows@.len() == i,
                forall|j: int|
                    0 <= j < i ==> (#[trigger] rows@[j]).0@ == workspace_row(s@, slugs@[j]@).0 && rows@[j].1@
                        == workspace_row(s@, slugs@[j]@).1,
            decreases slugs.len() - i,
        {
            assert(s.workspaces@.contains_key(views(slugs@)[i as int]));
            let path = s.workspaces.get(slugs[i].as_str()).unwrap().clone();
            let label = if str_eq(slugs[i].as_str(), s.active_workspace.as_str()) {
                concat3(slugs[i].as_str(), " (active)", "")
            } else {
                slugs[i].clone()
            };
            proof {
                reveal_strlit("");
            }
            rows.push((label, path));
            i += 1;
        }
        self.workspace_list = list_of(rows);
        self.workspace_slugs = slugs;
    }
}

/// Where a key on the settings screen leads.
pub enum Nav {
    Stay,
    Back,
    /// The settings were changed: they are to be written, and the outcome
    /// goes to `finish_store`.
    Persist,
}


/// `new` equals `old` but for the lists.
pub open spec fn same_text(old: SettingsState, new: SettingsState) -> bool {
    &&& new.target == old.target
    &&& new.text_input == old.text_input
    &&& new.text_input2 == old.text_input2
    &&& new.pending == old.pending
}

/// `new` is `old` moved to `step`, nothing else changed.
pub open spec fn moved_to(old: SettingsState, new: SettingsState, step: SettingsStep) -> bool {
    &&& same_text(old, new)
    &&& new.step == step
    &&& new.menu_list == old.menu_list
    &&& new.workspace_list == old.workspace_list
    &&& new.workspace_slugs == old.workspace_slugs
    &&& new.status == old.status
    &&& new.is_error == old.is_error
}

/// `new` is `old` with `list` moved by the key (up or down).
pub open spec fn list_moved(old: SelectList, new: SelectList, k: Key) -> bool {
    new == if is_up(k) {
        moved_up(old)
    } else {
        moved_down(old)
    }
}

/// `new` shows status `msg` as an error, nothing else changed.
pub open spec fn failed_with(old: SettingsState, new: SettingsState, msg: Seq<char>) -> bool {
    &&& same_text(old, new)
    &&& new.step == old.step
    &&& new.menu_list == old.menu_list
    &&& new.workspace_list == old.workspace_list
    &&& new.workspace_slugs == old.workspace_slugs
    &&& new.status@ == msg
    &&& new.is_error
}

/// An operation on the settings succeeded with `t`: the settings are now
/// `t`, and `msg` waits to be shown once they are written.
pub open spec fn persisted(
    old: SettingsState,
    new: SettingsState,
    s1: SettingsView,
    t: SettingsView,
    msg: Seq<char>,
    nav: Nav,
) -> bool {
    &&& nav is Persist
    &&& s1 == t
    &&& opt_view(new.pending) == Some(msg)
    &&& new.step == old.step
    &&& new.menu_list == old.menu_list
    &&& new.workspace_list == old.workspace_list
    &&& new.workspace_slugs == old.workspace_slugs
    &&& new.target == old.target
    &&& new.text_input == old.text_input
    &&& new.text_input2 == old.text_input2
    &&& new.status == old.status
    &&& new.is_error == old.is_error
}

/// The label under the workspace list's cursor, if any.
pub open spec fn chosen_label(st: SettingsState) -> Option<Seq<char>> {
    match selected_index(st.workspace_list) {
        Some(i) => Some(st.workspace_slugs@[i as int]@),
        None => None,
    }
}

/// An operation on the settings that succeeds with `t` or fails with a
/// message.
pub open spec fn outcome(
    old: SettingsState,
    new: SettingsState,
    s0: SettingsView,
    s1: SettingsView,
    r: Result<SettingsView, Seq<char>>,
    msg: Seq<char>,
    nav: Nav,
) -> bool {
    match r {
        Ok(t) => persisted(old, new, s1, t, msg, nav),
        Err(m) => nav is Stay && s1 == s0 && failed_with(old, new, m),
    }
}

/// One key on the settings screen, by step, with the settings going from
/// `s0` to `s1`. Everywhere Esc returns to the top menu (leaves from it) and
/// up and down move the list shown; Enter acts:
/// - top menu: the entry's action (the workspace list is refreshed; adding
///   starts from an empty label and the default path);
/// - switch, delete: on the workspace under the cursor;
/// - add label: checks the label gives a new, non-empty slug, then asks for
///   the path; add path: adds the workspace at the expanded path;
/// - edit menu: offers to change the path or the label of the workspace
///   under the cursor (pre-filled), or to go back;
/// - edit path, rename: applies the change.
/// Other keys type into the text being entered.
pub open spec fn settings_step(
    old: SettingsState,
    new: SettingsState,
    k: KeyPress,
    s0: SettingsView,
    s1: SettingsView,
    places: Places,
    nav: Nav,
    input: TextInput,
) -> bool {
    let c = k.code;
    let moves = is_up(c) || is_down(c);
    match old.step {
        SettingsStep::TopMenu => {
            &&& input is Nothing
            &&& s1 == s0
            &&& if c is Esc || c == Key::Char('q') {
                nav is Back && new == old
            } else if moves {
                &&& nav is Stay
                &&& same_text(old, new)
                &&& new.step == old.step
                &&& list_moved(old.menu_list, new.menu_list, c)
                &&& new.workspace_list == old.workspace_list
                &&& new.workspace_slugs == old.workspace_slugs
                &&& new.status == old.status
                &&& new.is_error == old.is_error
            } else if c is Enter && selected_index(old.menu_list) is Some {
                let a = top_action(selected_index(old.menu_list).unwrap() as int);
                &&& a != TopAction::Back ==> new.status@.len() == 0
                &&& new.is_error == old.is_error
                &&& new.menu_list == old.menu_list
                &&& new.pending == old.pending
                &&& new.target == old.target
                &&& match a {
                    TopAction::Back => nav is Back && new == old,
                    TopAction::Add => {
                        &&& nav is Stay
                        &&& new.step == SettingsStep::AddLabel
                        &&& new.text_input@.len() == 0
                        &&& new.text_input2@ == places.default_path@
                        &&& new.workspace_list == old.workspace_list
                        &&& new.workspace_slugs == old.workspace_slugs
                    },
                    _ => {
                        &&& nav is Stay
                        &&& new.text_input == old.text_input
                        &&& new.text_input2 == old.text_input2
                        &&& new.step == match a {
                            TopAction::Switch => SettingsStep::SwitchWorkspace,
                            TopAction::Edit => SettingsStep::EditWorkspaceMenu,
                            _ => SettingsStep::DeleteWorkspace,
                        }
                        &&& lists_workspaces_view(new, s0)
                    },
                }
            } else {
                nav is Stay && new == old
            }
        },
        SettingsStep::SwitchWorkspace | SettingsStep::DeleteWorkspace | SettingsStep::EditWorkspaceMenu => {
            &&& input is Nothing
            &&& if c is Esc {
                nav is Stay && s1 == s0 && moved_to(old, new, SettingsStep::TopMenu)
            } else if moves {
                &&& nav is Stay
                &&& s1 == s0
                &&& same_text(old, new)
                &&& new.step == old.step
                &&& new.menu_list == old.menu_list
                &&& list_moved(old.workspace_list, new.workspace_list, c)
                &&& new.workspace_slugs == old.workspace_slugs
                &&& new.status == old.status
                &&& new.is_error == old.is_error
            } else if c is Enter && chosen_label(old) is Some {
                let label = chosen_label(old).unwrap();
                match old.step {
                    SettingsStep::SwitchWorkspace => outcome(
                        old,
                        new,
                        s0,
                        s1,
                        set_active_spec(s0, label),
                        "Active workspace is now \""@ + label + "\"."@,
                        nav,
                    ),
                    SettingsStep::DeleteWorkspace => outcome(
                        old,
                        new,
                        s0,
                        s1,
                        remove_spec(s0, label),
                        "Workspace \""@ + label + "\" deleted."@,
                        nav,
                    ),
                    _ => {
                        &&& nav is Stay
                        &&& s1 == s0
                        &&& new.step == SettingsStep::EditActionMenu
                        &&& new.target@ == label
                        &&& fresh_list(new.menu_list, edit_rows())
                        &&& new.workspace_list == old.workspace_list
                        &&& new.workspace_slugs == old.workspace_slugs
                        &&& new.text_input == old.text_input
                        &&& new.text_input2 == old.text_input2
                        &&& new.status == old.status
                        &&& new.is_error == old.is_error
                        &&& new.pending == old.pending
                    },
                }
            } else {
                nav is Stay && s1 == s0 && new == old
            }
        },
        SettingsStep::EditActionMenu => {
            &&& input is Nothing
            &&& s1 == s0
            &&& nav is Stay
            &&& if c is Esc {
                moved_to(old, new, SettingsStep::TopMenu)
            } else if moves {
                &&& same_text(old, new)
                &&& new.step == old.step
                &&& list_moved(old.menu_list, new.menu_list, c)
                &&& new.workspace_list == old.workspace_list
                &&& new.workspace_slugs == old.workspace_slugs
                &&& new.status == old.status
                &&& new.is_error == old.is_error
            } else if c is Enter {
                let i = match selected_index(old.menu_list) {
                    Some(i) => i as int,
                    None => 2,
                };
                &&& new.menu_list == old.menu_list
                &&& new.workspace_list == old.workspace_list
                &&& new.workspace_slugs == old.workspace_slugs
                &&& new.status == old.status
                &&& new.is_error == old.is_error
                &&& new.target == old.target
                &&& new.text_input2 == old.text_input2
                &&& new.pending == old.pending
                &&& if i == 0 {
                    new.step == SettingsStep::EditPath && new.text_input@ == (if s0.workspaces.contains_key(old.target@) {
                        s0.workspaces[old.target@]
                    } else {
                        Seq::empty()
                    })
                } else if i == 1 {
                    new.step == SettingsStep::EditRename && new.text_input@ == old.target@
                } else {
                    new.step == SettingsStep::TopMenu && new.text_input == old.text_input
                }
            } else {
                new == old
            }
        },
        _ => {
            if c is Esc {
                input is Nothing && nav is Stay && s1 == s0 && moved_to(old, new, SettingsStep::TopMenu)
            } else if c is Enter {
                &&& input is Nothing
                &&& match old.step {
                    SettingsStep::AddLabel => {
                        let slug = slug_spec(trim_spec(old.text_input@));
                        &&& nav is Stay
                        &&& s1 == s0
                        &&& if slug.len() == 0 {
                            failed_with(old, new, "Label needs at least one alphanumeric character"@)
                        } else if s0.workspaces.contains_key(slug) {
                            failed_with(old, new, "Workspace \""@ + slug + "\" already exists."@)
                        } else {
                            &&& same_text(old, new)
                            &&& new.step == SettingsStep::AddPath
                            &&& new.menu_list == old.menu_list
                            &&& new.workspace_list == old.workspace_list
                            &&& new.workspace_slugs == old.workspace_slugs
                            &&& new.status@.len() == 0
                            &&& new.is_error == old.is_error
                        }
                    },
                    SettingsStep::AddPath => {
                        let slug = slug_spec(trim_spec(old.text_input@));
                        let path = expand_path_spec(old.text_input2@, opt_view(places.home), opt_view(places.cwd));
                        if path.len() == 0 {
                            nav is Stay && s1 == s0 && failed_with(old, new, "Path is required"@)
                        } else {
                            match add_spec(s0, slug, path) {
                                Ok((t, fs)) => persisted(old, new, s1, t, "Workspace \""@ + fs + "\" added."@, nav),
                                Err(m) => nav is Stay && s1 == s0 && failed_with(old, new, m),
                            }
                        }
                    },
                    SettingsStep::EditPath => {
                        let path = expand_path_spec(old.text_input@, opt_view(places.home), opt_view(places.cwd));
                        outcome(
                            old,
                            new,
                            s0,
                            s1,
                            update_path_spec(s0, old.target@, path),
                            "Path updated for \""@ + old.target@ + "\"."@,
                            nav,
                        )
                    },
                    _ => match rename_spec(s0, old.target@, trim_spec(old.text_input@)) {
                        Ok((t, ns)) => persisted(
                            old,
                            new,
                            s1,
                            t,
                            "Renamed \""@ + old.target@ + "\" → \""@ + ns + "\"."@,
                            nav,
                        ),
                        Err(m) => nav is Stay && s1 == s0 && failed_with(old, new, m),
                    },
                }
            } else {
                &&& nav is Stay
                &&& s1 == s0
                &&& new == old
                &&& input == TextInput::Key(if old.step == SettingsStep::AddPath {
                    1usize
                } else {
                    0usize
                })
            }
        },
    }
}

/// The workspace list shows every workspace of `s`, ascending by label.
pub open spec fn lists_workspaces_view(st: SettingsState, s: SettingsView) -> bool {
    &&& crate::text::sorted(views(st.workspace_slugs@))
    &&& views(st.workspace_slugs@).len() == s.workspaces.len()
    &&& forall|i: int| 0 <= i < st.workspace_slugs@.len() ==> s.workspaces.contains_key(#[trigger] st.workspace_slugs@[i]@)
    &&& forall|k: Seq<char>| #[trigger] s.workspaces.contains_key(k) ==> views(st.workspace_slugs@).contains(k)
    &&& fresh_list(
        st.workspace_list,
        Seq::new(st.workspace_slugs@.len(), |i: int| workspace_row(s, st.workspace_slugs@[i]@)),
    )
}


proof fn lemma_listed_view(st: SettingsState, s: &Settings)
    requires
        lists_workspaces(st, s),
    ensures
        lists_workspaces_view(st, s@),
{
    assert(s@.workspaces.dom() =~= s.workspaces@.dom());
    assert forall|k: Seq<char>| #[trigger] s@.workspaces.contains_key(k) implies views(st.workspace_slugs@).contains(k) by {
        assert(s.workspaces@.contains_key(k));
    }
    assert forall|i: int| 0 <= i < st.workspace_slugs@.len() implies s@.workspaces.contains_key(#[trigger] st.workspace_slugs@[i]@) by {
        assert(s.workspaces@.contains_key(views(st.workspace_slugs@)[i]));
    }
}

fn op_message(e: AppError) -> (m: String)
    ensures
        e matches AppError::Other(x) ==> m@ == x@,
{
    match e {
        AppError::Other(x) => x,
        other => other.message(),
    }
}

/// Handles a key on the settings screen (see `settings_step`); `settings`
/// are the settings in use, changed in place when an operation succeeds.
pub fn handle_key(state: &mut SettingsState, key: KeyPress, settings: &mut Settings, places: &Places) -> (r: (
    Nav,
    TextInput,
))
    requires
        old(state).wf(),
        old(settings).wf(),
    ensures
        final(state).wf(),
        final(settings).wf(),
        settings_step(*old(state), *final(state), key, old(settings)@, final(settings)@, *places, r.0, r.1),
{
    let c = &key.code;
    let moves = key_is_up(c) || key_is_down(c);
    match state.step {
        SettingsStep::TopMenu => {
            let is_q = match c {
                Key::Char(ch) => *ch == 'q',
                _ => false,
            };
            if matches!(c, Key::Esc) || is_q {
                return (Nav::Back, TextInput::Nothing);
            }
            if moves {
                if key_is_up(c) {
                    state.menu_list.move_up();
                } else {
                    state.menu_list.move_down();
                }
                return (Nav::Stay, TextInput::Nothing);
            }
            if matches!(c, Key::Enter) {
                match state.menu_list.selected_original_index() {
                    Some(idx) => {
                        if idx == 4 || idx > 4 {
                            return (Nav::Back, TextInput::Nothing);
                        }
                        state.status = String::new();
                        if idx == 1 {
                            state.text_input = String::new();
                            state.text_input2 = places.default_path.clone();
                            state.step = SettingsStep::AddLabel;
                            return (Nav::Stay, TextInput::Nothing);
                        }
                        state.refresh_workspace_list(settings);
                        proof {
                            lemma_listed_view(*state, settings);
                        }
                        state.step = if idx == 0 {
                            SettingsStep::SwitchWorkspace
                        } else if idx == 2 {
                            SettingsStep::EditWorkspaceMenu
                        } else {
                            SettingsStep::DeleteWorkspace
                        };
                        return (Nav::Stay, TextInput::Nothing);
                    },
                    None => {
                        return (Nav::Stay, TextInput::Nothing);
                    },
                }
            }
            (Nav::Stay, TextInput::Nothing)
        },
        SettingsStep::SwitchWorkspace | SettingsStep::DeleteWorkspace | SettingsStep::EditWorkspaceMenu => {
            if matches!(c, Key::Esc) {
                state.step = SettingsStep::TopMenu;
                return (Nav::Stay, TextInput::Nothing);
            }
            if moves {
                if key_is_up(c) {
                    state.workspace_list.move_up();
                } else {
                    state.workspace_list.move_down();
                }
                return (Nav::Stay, TextInput::Nothing);
            }
            if !matches!(c, Key::Enter) {
                return (Nav::Stay, TextInput::Nothing);
            }
            let idx = match state.workspace_list.selected_original_index() {
                Some(i) => i,
                None => {
                    return (Nav::Stay, TextInput::Nothing);
                },
            };
            let label = state.workspace_slugs[idx].clone();
            match state.step {
                SettingsStep::SwitchWorkspace => match set_active_workspace(settings, label.as_str()) {
                    Ok(()) => {
                        state.pending = Some(concat3("Active workspace is now \"", label.as_str(), "\"."));
                        (Nav::Persist, TextInput::Nothing)
                    },
                    Err(e) => {
                        state.status = op_message(e);
                        state.is_error = true;
                        (Nav::Stay, TextInput::Nothing)
                    },
                },
                SettingsStep::DeleteWorkspace => match remove_workspace(settings, label.as_str()) {
                    Ok(()) => {
                        state.pending = Some(concat3("Workspace \"", label.as_str(), "\" deleted."));
                        (Nav::Persist, TextInput::Nothing)
                    },
                    Err(e) => {
                        state.status = op_message(e);
                        state.is_error = true;
                        (Nav::Stay, TextInput::Nothing)
                    },
                },
                _ => {
                    let mut rows: Vec<(String, String)> = Vec::new();
                    rows.push((to_owned_string("Change path"), to_owned_string("point this workspace at a different file")));
                    rows.push((to_owned_string("Rename"), to_owned_string("change the label")));
                    rows.push((to_owned_string("Back"), String::new()));
                    let l = list_of(rows);
                    proof {
                        reveal_strlit("");
                        assert forall|i: int| 0 <= i < 3 implies (#[trigger] l.items@[i]).0@ == edit_rows()[i].0
                            && l.items@[i].1@ == edit_rows()[i].1 by {
                        }
                    }
                    state.menu_list = l;
                    state.target = label;
                    state.step = SettingsStep::EditActionMenu;
                    (Nav::Stay, TextInput::Nothing)
                },
            }
        },
        SettingsStep::EditActionMenu => {
            if matches!(c, Key::Esc) {
                state.step = SettingsStep::TopMenu;
                return (Nav::Stay, TextInput::Nothing);
            }
            if moves {
                if key_is_up(c) {
                    state.menu_list.move_up();
                } else {
                    state.menu_list.move_down();
                }
                return (Nav::Stay, TextInput::Nothing);
            }
            if !matches!(c, Key::Enter) {
                return (Nav::Stay, TextInput::Nothing);
            }
            let idx = match state.menu_list.selected_original_index() {
                Some(i) => i,
                None => 2,
            };
            if idx == 0 {
                state.text_input = match settings.workspaces.get(state.target.as_str()) {
                    Some(p) => p.clone(),
                    None => String::new(),
                };
                state.step = SettingsStep::EditPath;
            } else if idx == 1 {
                state.text_input = state.target.clone();
                state.step = SettingsStep::EditRename;
            } else {
                state.step = SettingsStep::TopMenu;
            }
            (Nav::Stay, TextInput::Nothing)
        },
        _ => {
            if matches!(c, Key::Esc) {
                state.step = SettingsStep::TopMenu;
                return (Nav::Stay, TextInput::Nothing);
            }
            if !matches!(c, Key::Enter) {
                let slot: usize = if state.step == SettingsStep::AddPath {
                    1
                } else {
                    0
                };
                return (Nav::Stay, TextInput::Key(slot));
            }
            match state.step {
                SettingsStep::AddLabel => {
                    let label = trim(state.text_input.as_str());
                    let slug = slugify_label(label.as_str());
                    if slug.as_str().is_empty() {
                        state.status = to_owned_string("Label needs at least one alphanumeric character");
                        state.is_error = true;
                    } else if settings.workspaces.contains_key(slug.as_str()) {
                        state.status = concat3("Workspace \"", slug.as_str(), "\" already exists.");
                        state.is_error = true;
                        proof {
                            assert(settings.workspaces@.dom() =~= old(settings)@.workspaces.dom());
                        }
                    } else {
                        proof {
                            assert(settings.workspaces@.dom() =~= old(settings)@.workspaces.dom());
                        }
                        state.status = String::new();
                        state.step = SettingsStep::AddPath;
                    }
                    (Nav::Stay, TextInput::Nothing)
                },
                SettingsStep::AddPath => {
                    let label = trim(state.text_input.as_str());
                    let slug = slugify_label(label.as_str());
                    let path = expand_path(state.text_input2.as_str(), &places.home, &places.cwd);
                    if path.as_str().is_empty() {
                        state.status = to_owned_string("Path is required");
                        state.is_error = true;
                        return (Nav::Stay, TextInput::Nothing);
                    }
                    match add_workspace(settings, slug.as_str(), path.as_str()) {
                        Ok(final_slug) => {
                            state.pending = Some(concat3("Workspace \"", final_slug.as_str(), "\" added."));
                            (Nav::Persist, TextInput::Nothing)
                        },
                        Err(e) => {
                            state.status = op_message(e);
                            state.is_error = true;
                            (Nav::Stay, TextInput::Nothing)
                        },
                    }
                },
                SettingsStep::EditPath => {
                    let path = expand_path(state.text_input.as_str(), &places.home, &places.cwd);
                    match update_workspace_path(settings, state.target.as_str(), path.as_str()) {
                        Ok(()) => {
                            state.pending = Some(concat3("Path updated for \"", state.target.as_str(), "\"."));
                            (Nav::Persist, TextInput::Nothing)
                        },
                        Err(e) => {
                            state.status = op_message(e);
                            state.is_error = true;
                            (Nav::Stay, TextInput::Nothing)
                        },
                    }
                },
                _ => {
                    let new_label = trim(state.text_input.as_str());
                    match rename_workspace(settings, state.target.as_str(), new_label.as_str()) {
                        Ok(ns) => {
                            let mut m = concat3("Renamed \"", state.target.as_str(), "\" → \"");
                            crate::text::append_str(&mut m, ns.as_str());
                            crate::text::append_str(&mut m, "\".");
                            state.pending = Some(m);
                            (Nav::Persist, TextInput::Nothing)
                        },
                        Err(e) => {
                            state.status = op_message(e);
                            state.is_error = true;
                            (Nav::Stay, TextInput::Nothing)
                        },
                    }
                },
            }
        },
    }
}

/// Takes the outcome of writing changed settings (after `Nav::Persist`):
/// on success the waiting message is shown and the top menu returns; on
/// failure the error is shown where the screen is.
pub fn finish_store(state: &mut SettingsState, result: Result<(), String>)
    requires
        old(state).wf(),
    ensures
        final(state).wf(),
        final(state).pending is None,
        final(state).menu_list == old(state).menu_list,
        final(state).workspace_list == old(state).workspace_list,
        final(state).workspace_slugs == old(state).workspace_slugs,
        final(state).target == old(state).target,
        final(state).text_input == old(state).text_input,
        final(state).text_input2 == old(state).text_input2,
        match result {
            Ok(_) => {
                &&& final(state).step == SettingsStep::TopMenu
                &&& final(state).status@ == match old(state).pending {
                    Some(m) => m@,
                    None => Seq::empty(),
                }
                &&& !final(state).is_error
            },
            Err(e) => {
                &&& final(state).step == old(state).step
                &&& final(state).status@ == e@
                &&& final(state).is_error
            },
        },
{
    let pending = state.pending.take();
    match result {
        Ok(_) => {
            state.status = match pending {
                Some(m) => m,
                None => String::new(),
            };
            state.is_error = false;
            state.step = SettingsStep::TopMenu;
        },
        Err(e) => {
            state.status = e;
            state.is_error = true;
        },
    }
}

} // verus!
