//! Deleting saved credentials: pick a set, then confirm.

use vstd::prelude::*;
use crate::config::Credential;
use crate::error::concat3;
use crate::settings::opt_view;
use crate::strmap::{lists_keys_sorted, sorted_keys, StrMap};
use crate::text::{to_owned_string, views};
use super::keys::{is_down, is_up, key_is_down, key_is_up, Key, KeyPress};
use super::widgets::{moved_down, moved_up, selected_index, SelectList};

verus! {

broadcast use vstd::string::group_string_axioms;

/// The step of the delete flow.
#[derive(PartialEq, Eq, Structural, Clone, Copy)]
pub enum DeleteStep {
    PickCredential,
    Confirm,
}

/// The delete screen.
pub struct DeleteState {
    pub step: DeleteStep,
    pub list: SelectList,
    /// The slug of each list item, ascending.
    pub slugs: Vec<String>,
    /// The name of each slug's credentials.
    pub names: Vec<String>,
    pub selected_slug: Option<String>,
    pub selected_name: Option<String>,
    /// Whether "Yes" is highlighted in the confirmation.
    pub confirm_yes: bool,
    pub status: String,
    pub is_error: bool,
    /// No credentials are saved; the one item offers to add some.
    pub empty: bool,
}

/// `items` shows name and provider of the credentials under `slugs`, and
/// `names` holds their names.
pub open spec fn shows_names(
    items: Seq<(String, String)>,
    names: Seq<String>,
    slugs: Seq<String>,
    all: Map<Seq<char>, Credential>,
) -> bool {
    &&& items.len() == slugs.len()
    &&& names.len() == slugs.len()
    &&& forall|i: int|
        0 <= i < items.len() ==> (#[trigger] items[i]).0@ == all[slugs[i]@].name@ && items[i].1@
            == all[slugs[i]@].provider@ && names[i]@ == all[slugs[i]@].name@
}

impl DeleteState {
    /// The cursor is on a slug, one slug and name per item, unless nothing is
    /// saved; the confirmation knows its slug.
    pub open spec fn wf(&self) -> bool {
        &&& self.list.wf()
        &&& self.empty == (self.slugs@.len() == 0)
        &&& self.names@.len() == self.slugs@.len()
        &&& !self.empty ==> self.slugs@.len() == self.list.items@.len()
    }

    /// The screen as first shown for credentials `all`.
    pub open spec fn is_fresh(&self, all: &StrMap<Credential>) -> bool {
        &&& self.wf()
        &&& lists_keys_sorted(views(self.slugs@), all)
        &&& self.empty == (all@.len() == 0)
        &&& self.empty ==> self.list.items@.len() == 1 && self.list.items@[0].0@ == "Add credentials"@
            && self.list.items@[0].1@.len() == 0
        &&& !self.empty ==> shows_names(self.list.items@, self.names@, self.slugs@, all@)
        &&& self.step == DeleteStep::PickCredential
        &&& self.selected_slug is None
        &&& self.selected_name is None
        &&& !self.confirm_yes
        &&& self.list.selected == 0
        &&& self.list.filter@.len() == 0
        &&& self.status@.len() == 0
        &&& !self.is_error
    }

    /// The picker over the credentials `all`, sorted by slug; with nothing
    /// saved its one item is "Add credentials".
    pub fn new(all: &StrMap<Credential>) -> (r: Self)
        ensures
            r.is_fresh(all),
            r.wf(),
            lists_keys_sorted(views(r.slugs@), all),
            r.empty == (all@.len() == 0),
            r.empty ==> r.list.items@.len() == 1 && r.list.items@[0].0@ == "Add credentials"@
                && r.list.items@[0].1@.len() == 0,
            !r.empty ==> shows_names(r.list.items@, r.names@, r.slugs@, all@),
            r.step == DeleteStep::PickCredential,
            r.selected_slug is None,
            r.selected_name is None,
            !r.confirm_yes,
            r.list.selected == 0,
            r.list.filter@.len() == 0,
            r.status@.len() == 0,
            !r.is_error,
    {
        let slugs = sorted_keys(all);
        let empty = slugs.len() == 0;
        let mut items: Vec<(String, String)> = Vec::new();
        let mut names: Vec<String> = Vec::new();
        let mut i: usize = 0;
        while i < slugs.len()
            invariant
                lists_keys_sorted(views(slugs@), all),
                0 <= i <= slugs@.len(),
                shows_names(items@, names@, slugs@.take(i as int), all@),
            decreases slugs.len() - i,
        {
            assert(all@.contains_key(views(slugs@)[i as int]));
            let c = all.get(slugs[i].as_str()).unwrap();
            items.push((c.name.clone(), c.provider.clone()));
            names.push(c.name.clone());
            proof {
                let t = slugs@.take(i + 1);
                assert forall|j: int| 0 <= j < items@.len() implies (#[trigger] items@[j]).0@ == all@[t[j]@].name@
                    && items@[j].1@ == all@[t[j]@].provider@ && names@[j]@ == all@[t[j]@].name@ by {
                    if j < i {
                        assert(t[j] == slugs@.take(i as int)[j]);
                    }
                }
            }
            i += 1;
        }
        assert(slugs@.take(slugs@.len() as int) =~= slugs@);
        if empty {
            items.push((to_owned_string("Add credentials"), String::new()));
        }
        DeleteState {
            step: DeleteStep::PickCredential,
            list: SelectList::new(items),
            slugs,
            names,
            selected_slug: None,
            selected_name: None,
            confirm_yes: false,
            status: String::new(),
            is_error: false,
            empty,
        }
    }
}

/// Where a key on the delete screen leads.
pub enum Nav {
    Stay,
    Back,
    AddCredentials,
    /// The credentials under `slug` are to be removed; the outcome goes to
    /// `finish_remove`.
    Remove { slug: String },
}

/// `new` equals `old` but for the list and the step data.
pub open spec fn same_fixed(old: DeleteState, new: DeleteState) -> bool {
    &&& new.slugs == old.slugs
    &&& new.names == old.names
    &&& new.empty == old.empty
    &&& new.status == old.status
    &&& new.is_error == old.is_error
}

/// One key on the delete screen. Picking: Esc goes back, up and down move,
/// Enter asks to confirm the set under the cursor (with "No" highlighted).
/// Confirming: Esc or `n` goes back, left, right and Tab switch the
/// highlight, Enter on "Yes" asks to remove the set, on "No" goes back.
pub open spec fn delete_step(old: DeleteState, new: DeleteState, k: Key, nav: Nav) -> bool {
    &&& same_fixed(old, new)
    &&& match old.step {
        DeleteStep::PickCredential => {
            &&& new.list == if is_up(k) {
                moved_up(old.list)
            } else if is_down(k) {
                moved_down(old.list)
            } else {
                old.list
            }
            &&& if k is Enter && !old.empty && selected_index(old.list) is Some {
                let i = selected_index(old.list).unwrap() as int;
                &&& nav is Stay
                &&& new.step == DeleteStep::Confirm
                &&& opt_view(new.selected_slug) == Some(old.slugs@[i]@)
                &&& opt_view(new.selected_name) == Some(old.names@[i]@)
                &&& !new.confirm_yes
            } else {
                &&& new.step == old.step
                &&& new.selected_slug == old.selected_slug
                &&& new.selected_name == old.selected_name
                &&& new.confirm_yes == old.confirm_yes
                &&& nav is Stay || (k is Esc && nav is Back) || (k is Enter && old.empty && nav is AddCredentials)
                &&& (k is Esc ==> nav is Back)
                &&& (k is Enter && old.empty ==> nav is AddCredentials)
            }
        },
        DeleteStep::Confirm => {
            &&& new.list == old.list
            &&& new.step == old.step
            &&& new.selected_slug == old.selected_slug
            &&& new.selected_name == old.selected_name
            &&& new.confirm_yes == if k is Left || k is Right || k is Tab {
                !old.confirm_yes
            } else {
                old.confirm_yes
            }
            &&& if k is Esc || k == Key::Char('n') || k == Key::Char('N') {
                nav is Back
            } else if k is Enter {
                if old.confirm_yes && old.selected_slug is Some {
                    nav matches Nav::Remove { slug } && slug@ == opt_view(old.selected_slug).unwrap()
                } else {
                    nav is Back
                }
            } else {
                nav is Stay
            }
        },
    }
}

/// Handles a key on the delete screen (see `delete_step`).
pub fn handle_key(state: &mut DeleteState, key: KeyPress) -> (nav: Nav)
    requires
        old(state).wf(),
    ensures
        final(state).wf(),
        delete_step(*old(state), *final(state), key.code, nav),
{
    match state.step {
        DeleteStep::PickCredential => handle_picker_key(state, key),
        DeleteStep::Confirm => handle_confirm_key(state, key),
    }
}

fn handle_picker_key(state: &mut DeleteState, key: KeyPress) -> (nav: Nav)
    requires
        old(state).wf(),
        old(state).step == DeleteStep::PickCredential,
    ensures
        final(state).wf(),
        delete_step(*old(state), *final(state), key.code, nav),
{
    if key_is_up(&key.code) {
        state.list.move_up();
        return Nav::Stay;
    }
    if key_is_down(&key.code) {
        state.list.move_down();
        return Nav::Stay;
    }
    match key.code {
        Key::Esc => Nav::Back,
        Key::Enter => {
            if state.empty {
                return Nav::AddCredentials;
            }
            match state.list.selected_original_index() {
                Some(idx) => {
                    state.selected_slug = Some(state.slugs[idx].clone());
                    state.selected_name = Some(state.names[idx].clone());
                    state.confirm_yes = false;
                    state.step = DeleteStep::Confirm;
                },
                None => {},
            }
            Nav::Stay
        },
        _ => Nav::Stay,
    }
}

fn handle_confirm_key(state: &mut DeleteState, key: KeyPress) -> (nav: Nav)
    requires
        old(state).wf(),
        old(state).step == DeleteStep::Confirm,
    ensures
        final(state).wf(),
        delete_step(*old(state), *final(state), key.code, nav),
{
    match key.code {
        Key::Esc => Nav::Back,
        Key::Char(c) => if c == 'n' || c == 'N' {
            Nav::Back
        } else {
            Nav::Stay
        },
        Key::Left | Key::Right | Key::Tab => {
            state.confirm_yes = !state.confirm_yes;
            Nav::Stay
        },
        Key::Enter => {
            if !state.confirm_yes {
                return Nav::Back;
            }
            match &state.selected_slug {
                Some(slug) => Nav::Remove { slug: slug.clone() },
                None => Nav::Back,
            }
        },
        _ => Nav::Stay,
    }
}

/// The status after removing `slug`, named `name` when known.
pub open spec fn removal_status(name: Option<Seq<char>>, slug: Seq<char>, result: Result<(), Seq<char>>) -> Seq<char> {
    match result {
        Ok(_) => "Credentials \""@ + (match name {
            Some(n) => n,
            None => slug,
        }) + "\" deleted."@,
        Err(e) => "Failed to delete: "@ + e,
    }
}

/// Takes the outcome of a removal asked for by `Nav::Remove`: on success the
/// screen reports it and goes back, on failure it shows the error and stays.
pub fn finish_remove(state: &mut DeleteState, result: Result<(), String>) -> (nav: Nav)
    requires
        old(state).wf(),
        old(state).selected_slug is Some,
    ensures
        final(state).wf(),
        final(state).step == old(state).step,
        final(state).list == old(state).list,
        final(state).slugs == old(state).slugs,
        final(state).selected_slug == old(state).selected_slug,
        final(state).selected_name == old(state).selected_name,
        final(state).status@ == removal_status(
            opt_view(old(state).selected_name),
            opt_view(old(state).selected_slug).unwrap(),
            match result {
                Ok(_) => Ok(()),
                Err(e) => Err(e@),
            },
        ),
        final(state).is_error == result is Err,
        if result is Ok {
            nav is Back
        } else {
            nav is Stay
        },
{
    match result {
        Ok(_) => {
            let shown = match &state.selected_name {
                Some(n) => n.clone(),
                None => state.selected_slug.clone().unwrap(),
            };
            state.status = concat3("Credentials \"", shown.as_str(), "\" deleted.");
            state.is_error = false;
            Nav::Back
        },
        Err(e) => {
            state.status = concat3("Failed to delete: ", e.as_str(), "");
            state.is_error = true;
            proof {
                reveal_strlit("");
            }
            Nav::Stay
        },
    }
}

} // verus!
