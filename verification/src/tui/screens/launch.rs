//! Picking saved credentials to launch with.

use vstd::prelude::*;
use crate::config::{credential_summary, summary_spec, token_maskable, Credential};
use crate::strmap::{lists_keys_sorted, sorted_keys, StrMap};
use crate::text::{to_owned_string, views};
use super::keys::{is_down, is_up, key_is_down, key_is_up, Key, KeyPress};
use super::widgets::{edits_filter, filter_edit, filter_edited, moved_down, moved_up, refiltered, selected_index, SelectList};

verus! {

broadcast use vstd::string::group_string_axioms;

/// The launch picker.
pub struct LaunchState {
    pub list: SelectList,
    /// The slug of each list item, ascending.
    pub slugs: Vec<String>,
    pub status: String,
    pub is_error: bool,
    /// No credentials are saved; the one item offers to add some.
    pub empty: bool,
}

/// Every saved credential's token can be masked.
pub open spec fn all_maskable(all: Map<Seq<char>, Credential>) -> bool {
    forall|k: Seq<char>| #[trigger] all.contains_key(k) ==> token_maskable(all[k])
}

/// `items` shows the credentials of `all` under `slugs`, in order: the name,
/// then the summary.
pub open spec fn shows_credentials(
    items: Seq<(String, String)>,
    slugs: Seq<String>,
    all: Map<Seq<char>, Credential>,
) -> bool {
    &&& items.len() == slugs.len()
    &&& forall|i: int|
        0 <= i < items.len() ==> (#[trigger] items[i]).0@ == all[slugs[i]@].name@ && items[i].1@ == summary_spec(
            all[slugs[i]@],
        )
}

/// Whether every saved credential's token can be masked (see
/// `all_maskable`).
pub fn all_maskable_tokens(all: &StrMap<Credential>) -> (r: bool)
    ensures
        r == all_maskable(all@),
{
    let pairs = all.pairs();
    let mut i: usize = 0;
    while i < pairs.len()
        invariant
            pairs@ == all.seq(),
            0 <= i <= pairs@.len(),
            forall|j: int| 0 <= j < i ==> token_maskable(#[trigger] pairs@[j].1),
            forall|j: int| #![trigger all.seq()[j]] 0 <= j < all.seq().len() ==> all@[all.seq()[j].0@] == all.seq()[j].1,
            forall|k: Seq<char>|
                #![trigger all@.contains_key(k)]
                all@.contains_key(k) <==> exists|j: int| 0 <= j < all.seq().len() && all.seq()[j].0@ == k,
        decreases pairs.len() - i,
    {
        let ok = match pairs[i].1.env.get(crate::providers::ENV_AUTH_TOKEN) {
            Some(t) => crate::config::is_maskable(t.as_str()),
            None => true,
        };
        if !ok {
            let ghost k = pairs@[i as int].0@;
            assert(all.seq()[i as int].0@ == k);
            assert(all@.contains_key(k));
            assert(all@[k] == pairs@[i as int].1);
            assert(!token_maskable(all@[k]));
            return false;
        }
        i += 1;
    }
    assert forall|k: Seq<char>| #[trigger] all@.contains_key(k) implies token_maskable(all@[k]) by {
        let j = choose|j: int| 0 <= j < all.seq().len() && all.seq()[j].0@ == k;
        assert(token_maskable(pairs@[j].1));
    }
    true
}

impl LaunchState {
    /// The cursor is on a slug, one slug per item, unless nothing is saved.
    pub open spec fn wf(&self) -> bool {
        &&& self.list.wf()
        &&& self.empty == (self.slugs@.len() == 0)
        &&& !self.empty ==> self.slugs@.len() == self.list.items@.len()
    }

    /// The picker as first shown for credentials `all`.
    pub open spec fn is_fresh(&self, all: &StrMap<Credential>) -> bool {
        &&& self.wf()
        &&& lists_keys_sorted(views(self.slugs@), all)
        &&& self.empty == (all@.len() == 0)
        &&& self.empty ==> self.list.items@.len() == 1 && self.list.items@[0].0@ == "Add credentials"@
            && self.list.items@[0].1@.len() == 0
        &&& !self.empty ==> shows_credentials(self.list.items@, self.slugs@, all@)
        &&& self.list.selected == 0
        &&& self.list.filter@.len() == 0
        &&& self.status@.len() == 0
        &&& !self.is_error
    }

    /// The picker over the credentials `all`, sorted by slug; with nothing
    /// saved its one item is "Add credentials".
    pub fn new(all: &StrMap<Credential>) -> (r: Self)
        requires
            all_maskable(all@),
        ensures
            r.is_fresh(all),
            r.wf(),
            lists_keys_sorted(views(r.slugs@), all),
            r.empty == (all@.len() == 0),
            r.empty ==> r.list.items@.len() == 1 && r.list.items@[0].0@ == "Add credentials"@
                && r.list.items@[0].1@.len() == 0,
            !r.empty ==> shows_credentials(r.list.items@, r.slugs@, all@),
            r.list.selected == 0,
            r.list.filter@.len() == 0,
            r.status@.len() == 0,
            !r.is_error,
    {
        let slugs = sorted_keys(all);
        let empty = slugs.len() == 0;
        let mut items: Vec<(String, String)> = Vec::new();
        if empty {
            items.push((to_owned_string("Add credentials"), String::new()));
        } else {
            let mut i: usize = 0;
            while i < slugs.len()
                invariant
                    lists_keys_sorted(views(slugs@), all),
                    all_maskable(all@),
                    0 <= i <= slugs@.len(),
                    shows_credentials(items@, slugs@.take(i as int), all@),
                decreases slugs.len() - i,
            {
                assert(all@.contains_key(views(slugs@)[i as int]));
                let c = all.get(slugs[i].as_str()).unwrap();
                let ghost before = items@;
                items.push((c.name.clone(), credential_summary(c)));
                proof {
                    let t = slugs@.take(i + 1);
                    assert forall|j: int| 0 <= j < items@.len() implies (#[trigger] items@[j]).0@
                        == all@[t[j]@].name@ && items@[j].1@ == summary_spec(all@[t[j]@]) by {
                        if j < i {
                            assert(t[j] == slugs@.take(i as int)[j]);
                        }
                    }
                }
                i += 1;
            }
            assert(slugs@.take(slugs@.len() as int) =~= slugs@);
        }
        LaunchState { list: SelectList::new(items), slugs, status: String::new(), is_error: false, empty }
    }
}

/// Where a key on the launch picker leads.
pub enum Nav {
    Stay,
    Back,
    Launch { slug: String, claude_args: Vec<String> },
    AddCredentials,
}

/// One key on the launch picker: Esc clears a filter or goes back, typing
/// edits the filter, up and down move, Enter launches the slug under the
/// cursor (or offers to add credentials when none are saved).
pub open spec fn launch_step(old: LaunchState, new: LaunchState, k: Key, nav: Nav) -> bool {
    &&& new.slugs == old.slugs
    &&& new.status == old.status
    &&& new.is_error == old.is_error
    &&& new.empty == old.empty
    &&& if k is Esc {
        if old.list.filter@.len() > 0 {
            nav is Stay && refiltered(old.list, new.list, Seq::empty())
        } else {
            nav is Back && new.list == old.list
        }
    } else if edits_filter(old.list, k) {
        nav is Stay && filter_edited(old.list, new.list, k)
    } else if is_up(k) {
        nav is Stay && new.list == moved_up(old.list)
    } else if is_down(k) {
        nav is Stay && new.list == moved_down(old.list)
    } else if k is Enter {
        &&& new.list == old.list
        &&& if old.empty {
            nav is AddCredentials
        } else {
            match selected_index(old.list) {
                Some(i) => nav matches Nav::Launch { slug, claude_args } && slug@ == old.slugs@[i as int]@
                    && claude_args@.len() == 0,
                None => nav is Stay,
            }
        }
    } else {
        nav is Stay && new.list == old.list
    }
}

/// Handles a key on the launch picker (see `launch_step`).
pub fn handle_key(state: &mut LaunchState, key: KeyPress) -> (nav: Nav)
    requires
        old(state).wf(),
    ensures
        final(state).wf(),
        launch_step(*old(state), *final(state), key.code, nav),
{
    if matches!(key.code, Key::Esc) {
        if !state.list.filter.as_str().is_empty() {
            state.list.clear_filter();
            return Nav::Stay;
        }
        return Nav::Back;
    }
    if filter_edit(&mut state.list, &key.code) {
        return Nav::Stay;
    }
    if key_is_up(&key.code) {
        state.list.move_up();
        return Nav::Stay;
    }
    if key_is_down(&key.code) {
        state.list.move_down();
        return Nav::Stay;
    }
    if matches!(key.code, Key::Enter) {
        if state.empty {
            return Nav::AddCredentials;
        }
        return match state.list.selected_original_index() {
            Some(idx) => Nav::Launch { slug: state.slugs[idx].clone(), claude_args: Vec::new() },
            None => Nav::Stay,
        };
    }
    Nav::Stay
}

} // verus!
