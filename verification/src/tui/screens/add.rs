//! Adding credentials: pick a provider, fill its form (optionally copying
//! the values of saved credentials of the same provider), save.

use vstd::prelude::*;
use crate::config::{credential_summary, summary_spec, Credential};
use crate::error::concat3;
use crate::json::{json_view, JsonValue};
use crate::providers::{find_provider_spec, get_provider, providers, providers_view, registry, FieldType, FieldView, ProviderView};
use crate::settings::opt_view;
use crate::slug::{first_free, slug_spec, unique_slug};
use crate::strmap::{lists_keys_sorted, sorted_keys, string_values_view, StrMap};
use crate::text::{lex_le, sorted, to_owned_string, trim, trim_spec, views};
use super::form::{
    checked_spec, collect_fields, collect_spec, is_bool_field, open_picker, opt_json_view, picker_key,
    picker_opened, picker_step, picker_wf, add_extra_body, env_with_extra, saved_extra, stored_extra, stored_text, stored_text_spec, toggled, PickerKey, Stored,
    TextInput,
};
use super::edit::{picker_result, toggled_spec};
use super::keys::{is_down, is_up, key_is_down, key_is_up, Key, KeyPress};
use super::launch::all_maskable;
use super::widgets::{
    edits_filter, filter_edit, filter_edited, moved_down, moved_up, refiltered, selected_index, ChoicePicker,
    SelectList,
};

verus! {

broadcast use vstd::string::group_string_axioms;

/// The step of the add flow.
#[derive(PartialEq, Eq, Structural, Clone, Copy)]
pub enum AddStep {
    PickProvider,
    FillForm,
    PickCopySource,
}

/// The add screen.
pub struct AddState {
    pub step: AddStep,
    pub provider_list: SelectList,
    /// The chosen provider, once picked.
    pub provider_id: Option<String>,
    /// The name field's text (the form's first field).
    pub name: String,
    /// The text of each of the provider's fields.
    pub fields: Vec<String>,
    /// 0 is the name field, `1..=n` the provider's fields.
    pub field_cursor: usize,
    pub status: String,
    pub is_error: bool,
    /// Saved credentials to copy from, while that picker is open.
    pub copy_source_list: Option<SelectList>,
    /// The slug of each item of that picker.
    pub copy_source_slugs: Option<Vec<String>>,
    /// The option picker, while open.
    pub choice_picker: Option<ChoicePicker>,
}

/// The provider picked on the add screen.
pub open spec fn chosen_provider(s: AddState) -> ProviderView {
    find_provider_spec(opt_view(s.provider_id).unwrap()).unwrap()
}

/// The default text of each field (empty without a default).
pub open spec fn default_texts(fields: Seq<FieldView>) -> Seq<Seq<char>> {
    fields.map_values(
        |f: FieldView|
            match f.default {
                Some(d) => d,
                None => Seq::<char>::empty(),
            },
    )
}

impl AddState {
    /// The form belongs to a known provider, one text per field; the cursor
    /// is on a form slot; the copy picker is open exactly in its step.
    pub open spec fn wf(&self) -> bool {
        &&& self.provider_list.wf()
        &&& self.provider_list.items@.len() == registry().len()
        &&& self.step != AddStep::PickProvider ==> {
            &&& self.provider_id is Some
            &&& find_provider_spec(opt_view(self.provider_id).unwrap()) is Some
            &&& chosen_provider(*self).fields.len() == self.fields@.len()
        }
        &&& self.field_cursor <= self.fields@.len()
        &&& self.choice_picker matches Some(p) ==> picker_wf(p) && p.field_index < self.fields@.len()
        &&& self.step == AddStep::PickProvider ==> self.choice_picker is None
        &&& self.step == AddStep::PickCopySource ==> {
            &&& self.copy_source_list matches Some(l) && l.wf()
            &&& self.copy_source_slugs matches Some(ss) && ss@.len() == self.copy_source_list.unwrap().items@.len()
        }
    }

    /// The screen as first shown: every built-in provider by name.
    pub open spec fn is_fresh(&self) -> bool {
        &&& self.wf()
        &&& self.step == AddStep::PickProvider
        &&& forall|i: int|
            0 <= i < registry().len() ==> (#[trigger] self.provider_list.items@[i]).0@ == registry()[i].name
                && self.provider_list.items@[i].1@.len() == 0
        &&& self.provider_list.selected == 0
        &&& self.provider_list.filter@.len() == 0
        &&& self.provider_id is None
        &&& self.choice_picker is None
        &&& self.copy_source_list is None
        &&& self.status@.len() == 0
        &&& !self.is_error
    }

    /// The provider picker: every built-in provider by name.
    pub fn new() -> (r: Self)
        ensures
            r.is_fresh(),
            r.wf(),
            r.step == AddStep::PickProvider,
            forall|i: int|
                0 <= i < registry().len() ==> (#[trigger] r.provider_list.items@[i]).0@ == registry()[i].name
                    && r.provider_list.items@[i].1@.len() == 0,
            r.provider_list.selected == 0,
            r.provider_list.filter@.len() == 0,
            r.provider_id is None,
            r.choice_picker is None,
            r.copy_source_list is None,
            r.status@.len() == 0,
            !r.is_error,
    {
        let ps = providers();
        let mut items: Vec<(String, String)> = Vec::new();
        let mut i: usize = 0;
        while i < ps.len()
            invariant
                providers_view(ps@) == registry(),
                0 <= i <= ps@.len(),
                items@.len() == i,
                forall|j: int|
                    0 <= j < i ==> (#[trigger] items@[j]).0@ == registry()[j].name && items@[j].1@.len() == 0,
            decreases ps.len() - i,
        {
            assert(registry()[i as int] == ps@[i as int]@);
            items.push((to_owned_string(ps[i].name), String::new()));
            i += 1;
        }
        AddState {
            step: AddStep::PickProvider,
            provider_list: SelectList::new(items),
            provider_id: None,
            name: String::new(),
            fields: Vec::new(),
            field_cursor: 0,
            status: String::new(),
            is_error: false,
            copy_source_list: None,
            copy_source_slugs: None,
            choice_picker: None,
        }
    }

    /// The number of form slots: the name and each provider field.
    pub fn total_fields(&self) -> (r: usize)
        requires
            self.fields@.len() < usize::MAX,
        ensures
            r == 1 + self.fields@.len(),
    {
        1 + self.fields.len()
    }
}


/// Where a key on the add screen leads.
pub enum Nav {
    Stay,
    Back,
    /// `credential` (its extra-body text already in its environment) is to be
    /// saved under the new `slug`; the outcome goes to `finish_save`.
    Save { slug: String, credential: Credential },
}

/// `new` equals `old` but for the provider list.
pub open spec fn only_provider_list(old: AddState, new: AddState) -> bool {
    &&& new.step == old.step
    &&& new.provider_id == old.provider_id
    &&& new.name == old.name
    &&& new.fields == old.fields
    &&& new.field_cursor == old.field_cursor
    &&& new.status == old.status
    &&& new.is_error == old.is_error
    &&& new.copy_source_list == old.copy_source_list
    &&& new.copy_source_slugs == old.copy_source_slugs
    &&& new.choice_picker == old.choice_picker
}

/// One key on the provider picker: Esc clears a filter or goes back, typing
/// edits the filter, up and down move, Enter opens the form of the provider
/// under the cursor (empty name, each field's default, cursor on the name).
pub open spec fn provider_step(old: AddState, new: AddState, k: Key, nav: Nav) -> bool {
    if k is Esc {
        &&& only_provider_list(old, new)
        &&& if old.provider_list.filter@.len() > 0 {
            nav is Stay && refiltered(old.provider_list, new.provider_list, Seq::empty())
        } else {
            nav is Back && new.provider_list == old.provider_list
        }
    } else if edits_filter(old.provider_list, k) {
        nav is Stay && only_provider_list(old, new) && filter_edited(old.provider_list, new.provider_list, k)
    } else if is_up(k) {
        nav is Stay && only_provider_list(old, new) && new.provider_list == moved_up(old.provider_list)
    } else if is_down(k) {
        nav is Stay && only_provider_list(old, new) && new.provider_list == moved_down(old.provider_list)
    } else if k is Enter && selected_index(old.provider_list) is Some {
        let i = selected_index(old.provider_list).unwrap() as int;
        &&& nav is Stay
        &&& new.provider_list == old.provider_list
        &&& new.step == AddStep::FillForm
        &&& opt_view(new.provider_id) == Some(registry()[i].id)
        &&& new.name@.len() == 0
        &&& views(new.fields@) == default_texts(registry()[i].fields)
        &&& new.field_cursor == 0
        &&& new.status@.len() == 0
        &&& new.is_error == old.is_error
        &&& new.copy_source_list == old.copy_source_list
        &&& new.copy_source_slugs == old.copy_source_slugs
        &&& new.choice_picker == old.choice_picker
    } else {
        nav is Stay && new == old
    }
}

fn handle_provider_key(state: &mut AddState, key: KeyPress) -> (nav: Nav)
    requires
        old(state).wf(),
        old(state).step == AddStep::PickProvider,
    ensures
        final(state).wf(),
        provider_step(*old(state), *final(state), key.code, nav),
{
    if matches!(key.code, Key::Esc) {
        if !state.provider_list.filter.as_str().is_empty() {
            state.provider_list.clear_filter();
            return Nav::Stay;
        }
        return Nav::Back;
    }
    if filter_edit(&mut state.provider_list, &key.code) {
        return Nav::Stay;
    }
    if key_is_up(&key.code) {
        state.provider_list.move_up();
        return Nav::Stay;
    }
    if key_is_down(&key.code) {
        state.provider_list.move_down();
        return Nav::Stay;
    }
    if matches!(key.code, Key::Enter) {
        match state.provider_list.selected_original_index() {
            Some(idx) => {
                let ps = providers();
                let provider = &ps[idx];
                proof {
                    assert(registry()[idx as int] == provider@);
                    crate::providers::lemma_find_registry(idx as int);
                }
                let mut texts: Vec<String> = Vec::new();
                let mut i: usize = 0;
                while i < provider.fields.len()
                    invariant
                        0 <= i <= provider.fields@.len(),
                        views(texts@) == default_texts(provider@.fields).take(i as int),
                    decreases provider.fields.len() - i,
                {
                    let t = match provider.fields[i].default {
                        Some(d) => to_owned_string(d),
                        None => String::new(),
                    };
                    let ghost before = views(texts@);
                    texts.push(t);
                    proof {
                        assert(provider@.fields[i as int] == provider.fields@[i as int]@);
                        assert(views(texts@) =~= before.push(t@));
                        assert(default_texts(provider@.fields).take(i + 1) =~= default_texts(provider@.fields).take(
                            i as int,
                        ).push(default_texts(provider@.fields)[i as int]));
                    }
                    i += 1;
                }
                assert(default_texts(provider@.fields).take(provider.fields@.len() as int) =~= default_texts(
                    provider@.fields,
                ));
                state.provider_id = Some(to_owned_string(provider.id));
                state.name = String::new();
                state.fields = texts;
                state.field_cursor = 0;
                state.step = AddStep::FillForm;
                state.status = String::new();
            },
            None => {},
        }
        return Nav::Stay;
    }
    Nav::Stay
}


// ---- Copying from saved credentials -------------------------------------------------

/// `ss` lists, ascending, the slugs of the saved credentials of provider `id`.
pub open spec fn lists_matching(ss: Seq<Seq<char>>, creds: Map<Seq<char>, Credential>, id: Seq<char>) -> bool {
    &&& sorted(ss)
    &&& forall|i: int|
        0 <= i < ss.len() ==> creds.contains_key(#[trigger] ss[i]) && creds[ss[i]].provider@ == id
    &&& forall|k: Seq<char>| #[trigger] creds.contains_key(k) && creds[k].provider@ == id ==> ss.contains(k)
}

/// Some saved credentials are of provider `id`.
pub open spec fn has_matching(creds: Map<Seq<char>, Credential>, id: Seq<char>) -> bool {
    exists|k: Seq<char>| #[trigger] creds.contains_key(k) && creds[k].provider@ == id
}

/// `new` equals `old` but for the status and the copy picker.
pub open spec fn same_form(old: AddState, new: AddState) -> bool {
    &&& new.provider_list == old.provider_list
    &&& new.provider_id == old.provider_id
    &&& new.name == old.name
    &&& new.fields == old.fields
    &&& new.field_cursor == old.field_cursor
    &&& new.choice_picker == old.choice_picker
}

/// Ctrl-R on the form: with the saved credentials unreadable, or none of
/// this provider, the form says so; else the copy picker opens over those of
/// this provider (name and summary, ascending by slug).
pub open spec fn copy_entered(old: AddState, new: AddState, stored: Stored) -> bool {
    let id = opt_view(old.provider_id).unwrap();
    &&& same_form(old, new)
    &&& if !stored.loaded {
        &&& new.step == old.step
        &&& new.copy_source_list == old.copy_source_list
        &&& new.copy_source_slugs == old.copy_source_slugs
        &&& new.status@ == "Failed to load profiles"@
        &&& new.is_error
    } else if !has_matching(stored.creds@, id) {
        &&& new.step == old.step
        &&& new.copy_source_list == old.copy_source_list
        &&& new.copy_source_slugs == old.copy_source_slugs
        &&& new.status@ == "No existing profiles for this provider"@
        &&& new.is_error
    } else {
        &&& new.step == AddStep::PickCopySource
        &&& new.status == old.status
        &&& new.is_error == old.is_error
        &&& new.copy_source_slugs matches Some(ss) && lists_matching(views(ss@), stored.creds@, id)
        &&& new.copy_source_list matches Some(l) && {
            &&& l.items@.len() == new.copy_source_slugs.unwrap()@.len()
            &&& forall|i: int|
                0 <= i < l.items@.len() ==> {
                    let c = stored.creds@[new.copy_source_slugs.unwrap()@[i]@];
                    (#[trigger] l.items@[i]).0@ == c.name@ && l.items@[i].1@ == summary_spec(c)
                }
            &&& l.selected == 0
            &&& l.filter@.len() == 0
        }
    }
}

impl AddState {
    fn enter_copy_source_picker(&mut self, stored: &Stored)
        requires
            old(self).wf(),
            old(self).step == AddStep::FillForm,
            all_maskable(stored.creds@),
        ensures
            final(self).wf(),
            copy_entered(*old(self), *final(self), *stored),
    {
        let id = match &self.provider_id {
            Some(i) => i.clone(),
            None => String::new(),
        };
        if !stored.loaded {
            self.status = to_owned_string("Failed to load profiles");
            self.is_error = true;
            return;
        }
        let keys = sorted_keys(&stored.creds);
        let ghost kv = views(keys@);
        let mut ss: Vec<String> = Vec::new();
        let mut items: Vec<(String, String)> = Vec::new();
        let mut i: usize = 0;
        while i < keys.len()
            invariant
                kv == views(keys@),
                crate::strmap::lists_keys_sorted(kv, &stored.creds),
                all_maskable(stored.creds@),
                0 <= i <= keys@.len(),
                sorted(views(ss@)),
                items@.len() == ss@.len(),
                forall|a: int, j: int| 0 <= a < ss@.len() && i <= j < kv.len() ==> lex_le(#[trigger] ss@[a]@, #[trigger] kv[j]),
                forall|a: int|
                    0 <= a < ss@.len() ==> stored.creds@.contains_key(#[trigger] views(ss@)[a]) && stored.creds@[views(
                        ss@,
                    )[a]].provider@ == id@,
                forall|a: int|
                    0 <= a < items@.len() ==> {
                        let c = stored.creds@[ss@[a]@];
                        (#[trigger] items@[a]).0@ == c.name@ && items@[a].1@ == summary_spec(c)
                    },
                forall|j: int|
                    0 <= j < i && stored.creds@[#[trigger] kv[j]].provider@ == id@ ==> views(ss@).contains(kv[j]),
            decreases keys.len() - i,
        {
            assert(stored.creds@.contains_key(kv[i as int]));
            let c = stored.creds.get(keys[i].as_str()).unwrap();
            if crate::text::str_eq(c.provider.as_str(), id.as_str()) {
                let ghost before = ss@;
                ss.push(keys[i].clone());
                items.push((c.name.clone(), credential_summary(c)));
                proof {
                    assert(views(ss@) =~= views(before).push(kv[i as int]));
                    assert forall|a: int, b: int| 0 <= a < b < views(ss@).len() implies lex_le(
                        #[trigger] views(ss@)[a],
                        #[trigger] views(ss@)[b],
                    ) by {
                        if b == views(ss@).len() - 1 {
                            assert(lex_le(before[a]@, kv[i as int]));
                        } else {
                            assert(lex_le(views(before)[a], views(before)[b]));
                        }
                    }
                    assert forall|a: int, j: int| 0 <= a < ss@.len() && i + 1 <= j < kv.len() implies lex_le(
                        #[trigger] ss@[a]@,
                        #[trigger] kv[j],
                    ) by {
                        if a == ss@.len() - 1 {
                            assert(lex_le(kv[i as int], kv[j]));
                        } else {
                            assert(lex_le(before[a]@, kv[j]));
                        }
                    }
                    assert forall|j: int|
                        0 <= j < i + 1 && stored.creds@[#[trigger] kv[j]].provider@ == id@ implies views(ss@).contains(
                        kv[j],
                    ) by {
                        if j == i {
                            assert(views(ss@)[views(ss@).len() - 1] == kv[j]);
                        } else {
                            let w = choose|w: int| 0 <= w < views(before).len() && views(before)[w] == kv[j];
                            assert(views(ss@)[w] == kv[j]);
                        }
                    }
                }
            }
            i += 1;
        }
        if ss.len() == 0 {
            proof {
                assert forall|k: Seq<char>| #[trigger] stored.creds@.contains_key(k) implies stored.creds@[k].provider@ != id@ by {
                    assert(kv.contains(k));
                    let j = choose|j: int| 0 <= j < kv.len() && kv[j] == k;
                    if stored.creds@[k].provider@ == id@ {
                        assert(views(ss@).contains(kv[j]));
                    }
                }
            }
            self.status = to_owned_string("No existing profiles for this provider");
            self.is_error = true;
            return;
        }
        proof {
            let k0 = views(ss@)[0];
            assert(stored.creds@.contains_key(k0) && stored.creds@[k0].provider@ == id@);
            assert forall|k: Seq<char>| #[trigger] stored.creds@.contains_key(k) && stored.creds@[k].provider@ == id@ implies views(
                ss@,
            ).contains(k) by {
                assert(kv.contains(k));
                let j = choose|j: int| 0 <= j < kv.len() && kv[j] == k;
            }
        }
        self.copy_source_slugs = Some(ss);
        self.copy_source_list = Some(SelectList::new(items));
        self.step = AddStep::PickCopySource;
    }
}


/// The field texts after copying from saved credentials with environment
/// `env` and extra body `extra`: each field with a saved value takes it.
pub open spec fn copied(
    texts: Seq<Seq<char>>,
    fields: Seq<FieldView>,
    env: Map<Seq<char>, String>,
    extra: Option<crate::json::JsonView>,
) -> Seq<Seq<char>> {
    Seq::new(
        texts.len(),
        |i: int|
            match stored_text_spec(fields[i], env, extra) {
                Some(v) => v,
                None => texts[i],
            },
    )
}

/// The field texts after copying from the credentials under `slug` (no
/// change when they cannot be read).
pub open spec fn copied_from(s: AddState, stored: Stored, slug: Seq<char>) -> Seq<Seq<char>> {
    if stored.loaded && stored.creds@.contains_key(slug) {
        copied(
            views(s.fields@),
            chosen_provider(s).fields,
            stored.creds@[slug].env@,
            stored_extra(stored.creds@[slug].env@),
        )
    } else {
        views(s.fields@)
    }
}

/// One key on the copy picker: up and down move, typing edits the filter,
/// Esc closes it, Enter closes it copying the values of the credentials
/// under the cursor into the form (and says so).
pub open spec fn copy_step(old: AddState, new: AddState, k: Key, stored: Stored) -> bool {
    let l = old.copy_source_list.unwrap();
    let ss = old.copy_source_slugs.unwrap();
    &&& new.provider_list == old.provider_list
    &&& new.provider_id == old.provider_id
    &&& new.name == old.name
    &&& new.field_cursor == old.field_cursor
    &&& new.choice_picker == old.choice_picker
    &&& if is_up(k) || is_down(k) || (!(k is Enter) && !(k is Esc) && edits_filter(l, k)) {
        &&& new.step == old.step
        &&& new.fields == old.fields
        &&& new.status == old.status
        &&& new.is_error == old.is_error
        &&& new.copy_source_slugs == old.copy_source_slugs
        &&& new.copy_source_list matches Some(nl) && if is_up(k) {
            nl == moved_up(l)
        } else if is_down(k) {
            nl == moved_down(l)
        } else {
            filter_edited(l, nl, k)
        }
    } else if k is Enter || k is Esc {
        &&& new.step == AddStep::FillForm
        &&& new.copy_source_list is None
        &&& new.copy_source_slugs is None
        &&& if k is Enter && selected_index(l) is Some {
            let slug = ss@[selected_index(l).unwrap() as int]@;
            &&& views(new.fields@) == copied_from(old, stored, slug)
            &&& new.status@ == "Fields copied from existing profile"@
            &&& !new.is_error
        } else {
            &&& new.fields == old.fields
            &&& new.status == old.status
            &&& new.is_error == old.is_error
        }
    } else {
        new == old
    }
}

impl AddState {
    fn copy_fields_from_profile(&mut self, slug: &str, stored: &Stored)
        requires
            old(self).wf(),
            old(self).step != AddStep::PickProvider,
        ensures
            final(self).wf(),
            views(final(self).fields@) == copied_from(*old(self), *stored, slug@),
            final(self).step == old(self).step,
            final(self).provider_list == old(self).provider_list,
            final(self).provider_id == old(self).provider_id,
            final(self).name == old(self).name,
            final(self).field_cursor == old(self).field_cursor,
            final(self).status == old(self).status,
            final(self).is_error == old(self).is_error,
            final(self).copy_source_list == old(self).copy_source_list,
            final(self).copy_source_slugs == old(self).copy_source_slugs,
            final(self).choice_picker == old(self).choice_picker,
    {
        if !stored.loaded {
            return;
        }
        let profile = match stored.creds.get(slug) {
            Some(c) => c,
            None => {
                return;
            },
        };
        let id = match &self.provider_id {
            Some(i) => i.clone(),
            None => String::new(),
        };
        let provider = match get_provider(id.as_str()) {
            Some(p) => p,
            None => {
                return;
            },
        };
        let parsed = saved_extra(&profile.env);
        let extra: Option<&JsonValue> = match &parsed {
            Some(v) => Some(v),
            None => None,
        };
        let ghost ex = opt_json_view(extra);
        let ghost orig = views(self.fields@);
        let ghost target = copied(orig, provider@.fields, profile.env@, ex);
        let mut i: usize = 0;
        while i < provider.fields.len()
            invariant
                ex == opt_json_view(extra),
                orig.len() == provider.fields@.len(),
                self.fields@.len() == provider.fields@.len(),
                target == copied(orig, provider@.fields, profile.env@, ex),
                0 <= i <= provider.fields@.len(),
                forall|j: int| 0 <= j < i ==> views(self.fields@)[j] == #[trigger] target[j],
                forall|j: int| i <= j < orig.len() ==> views(self.fields@)[j] == #[trigger] orig[j],
                old(self).wf(),
                self.step == old(self).step,
                self.provider_list == old(self).provider_list,
                self.provider_id == old(self).provider_id,
                self.name == old(self).name,
                self.field_cursor == old(self).field_cursor,
                self.status == old(self).status,
                self.is_error == old(self).is_error,
                self.copy_source_list == old(self).copy_source_list,
                self.copy_source_slugs == old(self).copy_source_slugs,
                self.choice_picker == old(self).choice_picker,
            decreases provider.fields.len() - i,
        {
            assert(provider@.fields[i as int] == provider.fields@[i as int]@);
            match stored_text(&provider.fields[i], &profile.env, extra) {
                Some(v) => {
                    self.fields.set(i, v);
                },
                None => {},
            }
            i += 1;
        }
        assert(views(self.fields@) =~= target);
    }
}

fn handle_copy_source_key(state: &mut AddState, key: KeyPress, stored: &Stored)
    requires
        old(state).wf(),
        old(state).step == AddStep::PickCopySource,
    ensures
        final(state).wf(),
        copy_step(*old(state), *final(state), key.code, *stored),
{
    let mut list = state.copy_source_list.take().unwrap();
    let ghost l0 = list;
    if key_is_up(&key.code) {
        list.move_up();
        state.copy_source_list = Some(list);
        return;
    }
    if key_is_down(&key.code) {
        list.move_down();
        state.copy_source_list = Some(list);
        return;
    }
    match key.code {
        Key::Enter => {
            let chosen: Option<String> = match list.selected_original_index() {
                Some(orig) => match &state.copy_source_slugs {
                    Some(ss) => Some(ss[orig].clone()),
                    None => None,
                },
                None => None,
            };
            state.copy_source_slugs = None;
            state.step = AddStep::FillForm;
            match chosen {
                Some(slug) => {
                    state.copy_fields_from_profile(slug.as_str(), stored);
                    state.status = to_owned_string("Fields copied from existing profile");
                    state.is_error = false;
                },
                None => {},
            }
            return;
        },
        Key::Esc => {
            state.copy_source_slugs = None;
            state.step = AddStep::FillForm;
            return;
        },
        _ => {},
    }
    filter_edit(&mut list, &key.code);
    state.copy_source_list = Some(list);
}


// ---- The form --------------------------------------------------------------------------

/// `new` is `old` with only the status (and error flag) changed.
pub open spec fn only_status(old: AddState, new: AddState) -> bool {
    &&& same_form(old, new)
    &&& new.step == old.step
    &&& new.copy_source_list == old.copy_source_list
    &&& new.copy_source_slugs == old.copy_source_slugs
}

/// `new` is `old` with only the cursor set to `c`.
pub open spec fn add_cursor_moved(old: AddState, new: AddState, c: int) -> bool {
    &&& new.step == old.step
    &&& new.provider_list == old.provider_list
    &&& new.provider_id == old.provider_id
    &&& new.name == old.name
    &&& new.fields == old.fields
    &&& new.field_cursor == c
    &&& new.status == old.status
    &&& new.is_error == old.is_error
    &&& new.copy_source_list == old.copy_source_list
    &&& new.copy_source_slugs == old.copy_source_slugs
    &&& new.choice_picker == old.choice_picker
}

/// Enter on the last slot. The name must be non-empty (else the cursor
/// returns to it), no required field may be empty, and the name must give a
/// non-empty slug; each failure is reported and the form stays. Otherwise
/// the form asks to save new credentials (the name, this provider, the
/// collected environment and extra body) under the first free slug.
pub open spec fn add_save_outcome(old: AddState, new: AddState, stored: Stored, nav: Nav) -> bool {
    let name = trim_spec(old.name@);
    let p = chosen_provider(old);
    let col = collect_spec(p.fields, views(old.fields@), None, p.fields.len() as int);
    if name.len() == 0 {
        &&& nav is Stay
        &&& new.status@ == "Name is required"@
        &&& new.is_error
        &&& new.field_cursor == 0
        &&& new.step == old.step
        &&& new.provider_list == old.provider_list
        &&& new.provider_id == old.provider_id
        &&& new.name == old.name
        &&& new.fields == old.fields
        &&& new.choice_picker == old.choice_picker
        &&& new.copy_source_list == old.copy_source_list
        &&& new.copy_source_slugs == old.copy_source_slugs
    } else if col.missing is Some {
        &&& nav is Stay
        &&& only_status(old, new)
        &&& new.status@ == "Required field missing: "@ + col.missing.unwrap()
        &&& new.is_error
    } else if slug_spec(name).len() == 0 {
        &&& nav is Stay
        &&& only_status(old, new)
        &&& new.status@ == "Name produces an empty slug — use at least one alphanumeric character"@
        &&& new.is_error
    } else {
        &&& new == old
        &&& nav matches Nav::Save { slug, credential } && {
            &&& first_free(slug_spec(name), stored.creds@.dom(), slug@)
            &&& credential.name@ == name
            &&& credential.provider@ == p.id
            &&& string_values_view(credential.env@) == env_with_extra(col.env, col.extra)
            &&& !credential.statusline_enabled
        }
    }
}

/// One key on the add form when no picker takes it. Slot 0 is the name,
/// slot `i` the provider's field `i - 1`. Esc leaves; Tab and Shift-Tab
/// cycle; Enter moves on, or saves on the last slot; Ctrl-R opens the copy
/// picker; Ctrl-V pastes; Space opens a choice field's picker or flips a
/// yes/no field; other keys edit the current slot's text (never a yes/no
/// field's).
pub open spec fn add_form_key_step(old: AddState, new: AddState, k: KeyPress, stored: Stored, nav: Nav, input: TextInput) -> bool {
    let p = chosen_provider(old);
    let total = p.fields.len() + 1int;
    let cur = old.field_cursor as int;
    let typed = if cur == 0 {
        input == TextInput::Key(0)
    } else if is_bool_field(p.fields[cur - 1]) {
        input is Nothing
    } else {
        input == TextInput::Key(old.field_cursor)
    };
    match k.code {
        Key::Esc => nav is Back && input is Nothing && new == old,
        Key::Tab => nav is Stay && input is Nothing && add_cursor_moved(old, new, (cur + 1) % total),
        Key::BackTab => nav is Stay && input is Nothing && add_cursor_moved(
            old,
            new,
            if cur == 0 {
                total - 1
            } else {
                cur - 1
            },
        ),
        Key::Enter => if cur + 1 < total {
            nav is Stay && input is Nothing && add_cursor_moved(old, new, cur + 1)
        } else {
            input is Nothing && add_save_outcome(old, new, stored, nav)
        },
        Key::Char(ch) => if ch == 'r' && k.ctrl {
            nav is Stay && input is Nothing && copy_entered(old, new, stored)
        } else if ch == 'v' && k.ctrl {
            nav is Stay && input == TextInput::Paste(old.field_cursor) && new == old
        } else if ch == ' ' && cur > 0 && p.fields[cur - 1].field_type is Choice {
            &&& nav is Stay
            &&& input is Nothing
            &&& new.choice_picker matches Some(np) && picker_opened(
                np,
                cur - 1,
                p.fields[cur - 1].field_type->options,
                old.fields@[cur - 1]@,
            )
            &&& new.step == old.step
            &&& new.provider_list == old.provider_list
            &&& new.provider_id == old.provider_id
            &&& new.name == old.name
            &&& new.fields == old.fields
            &&& new.field_cursor == old.field_cursor
            &&& new.status == old.status
            &&& new.is_error == old.is_error
            &&& new.copy_source_list == old.copy_source_list
            &&& new.copy_source_slugs == old.copy_source_slugs
        } else if ch == ' ' && cur > 0 && is_bool_field(p.fields[cur - 1]) {
            &&& nav is Stay
            &&& input is Nothing
            &&& views(new.fields@) == views(old.fields@).update(cur - 1, toggled_spec(old.fields@[cur - 1]@))
            &&& new.step == old.step
            &&& new.provider_list == old.provider_list
            &&& new.provider_id == old.provider_id
            &&& new.name == old.name
            &&& new.field_cursor == old.field_cursor
            &&& new.status == old.status
            &&& new.is_error == old.is_error
            &&& new.copy_source_list == old.copy_source_list
            &&& new.copy_source_slugs == old.copy_source_slugs
            &&& new.choice_picker == old.choice_picker
        } else {
            nav is Stay && typed && new == old
        },
        _ => nav is Stay && typed && new == old,
    }
}

/// One key on the add form: an open picker takes it first (choosing an
/// option fills its field and says so); else see `add_form_key_step`.
pub open spec fn add_form_step(old: AddState, new: AddState, k: KeyPress, stored: Stored, nav: Nav, input: TextInput) -> bool {
    if old.choice_picker is Some && !(picker_result(old.choice_picker.unwrap(), k.code) is Unhandled) {
        let op = old.choice_picker.unwrap();
        &&& nav is Stay
        &&& input is Nothing
        &&& new.step == old.step
        &&& new.provider_list == old.provider_list
        &&& new.provider_id == old.provider_id
        &&& new.name == old.name
        &&& new.field_cursor == old.field_cursor
        &&& new.copy_source_list == old.copy_source_list
        &&& new.copy_source_slugs == old.copy_source_slugs
        &&& match picker_result(op, k.code) {
            PickerKey::Handled => {
                &&& new.choice_picker matches Some(np) && picker_step(op, np, k.code, PickerKey::Handled)
                &&& new.fields == old.fields
                &&& new.status == old.status
                &&& new.is_error == old.is_error
            },
            PickerKey::Close(Some(i)) => {
                &&& new.choice_picker is None
                &&& views(new.fields@) == views(old.fields@).update(op.field_index as int, op.options@[i as int]@)
                &&& new.status@ == "Effort level: "@ + op.options@[i as int]@
                &&& !new.is_error
            },
            _ => {
                &&& new.choice_picker is None
                &&& new.fields == old.fields
                &&& new.status == old.status
                &&& new.is_error == old.is_error
            },
        }
    } else {
        add_form_key_step(old, new, k, stored, nav, input)
    }
}

fn try_save(state: &mut AddState, provider: &crate::providers::ProviderDef, stored: &Stored) -> (nav: Nav)
    requires
        old(state).wf(),
        old(state).step == AddStep::FillForm,
        provider@ == chosen_provider(*old(state)),
    ensures
        final(state).wf(),
        add_save_outcome(*old(state), *final(state), *stored, nav),
{
    let name = trim(state.name.as_str());
    if name.as_str().is_empty() {
        state.status = to_owned_string("Name is required");
        state.is_error = true;
        state.field_cursor = 0;
        return Nav::Stay;
    }
    let (mut env, extra, missing) = collect_fields(&provider.fields, &state.fields, None);
    match missing {
        Some(label) => {
            state.status = concat3("Required field missing: ", label, "");
            state.is_error = true;
            proof {
                reveal_strlit("");
            }
            return Nav::Stay;
        },
        None => {},
    }
    let slug = crate::config::slugify_name(name.as_str());
    if slug.as_str().is_empty() {
        state.status = to_owned_string("Name produces an empty slug — use at least one alphanumeric character");
        state.is_error = true;
        return Nav::Stay;
    }
    let final_slug = unique_slug(slug.as_str(), &stored.creds);
    add_extra_body(&mut env, &extra);
    let credential = Credential {
        name,
        provider: to_owned_string(provider.id),
        env,
        statusline_enabled: false,
    };
    Nav::Save { slug: final_slug, credential }
}

fn handle_form_key(state: &mut AddState, key: KeyPress, stored: &Stored) -> (r: (Nav, TextInput))
    requires
        old(state).wf(),
        old(state).step == AddStep::FillForm,
        all_maskable(stored.creds@),
    ensures
        final(state).wf(),
        add_form_step(*old(state), *final(state), key, *stored, r.0, r.1),
{
    let id = match &state.provider_id {
        Some(i) => i.clone(),
        None => String::new(),
    };
    let provider = match get_provider(id.as_str()) {
        Some(p) => p,
        None => {
            return (Nav::Back, TextInput::Nothing);
        },
    };
    let ghost p = provider@;
    assert(p == chosen_provider(*old(state)));
    let n = provider.fields.len();
    let total = state.total_fields();
    let cur = state.field_cursor;
    if state.choice_picker.is_some() {
        let ghost before = *state;
        let mut picker = state.choice_picker.take().unwrap();
        let res = picker_key(&mut picker, &key.code);
        match res {
            PickerKey::Handled => {
                state.choice_picker = Some(picker);
                return (Nav::Stay, TextInput::Nothing);
            },
            PickerKey::Close(Some(i)) => {
                let v = picker.options[i].clone();
                let fi = picker.field_index;
                let msg = concat3("Effort level: ", v.as_str(), "");
                state.fields.set(fi, v);
                state.status = msg;
                state.is_error = false;
                proof {
                    reveal_strlit("");
                    assert(views(state.fields@) =~= views(before.fields@).update(fi as int, picker.options@[i as int]@));
                }
                return (Nav::Stay, TextInput::Nothing);
            },
            PickerKey::Close(None) => {
                return (Nav::Stay, TextInput::Nothing);
            },
            PickerKey::Unhandled => {
                state.choice_picker = Some(picker);
            },
        }
    }
    let slot_is_bool = cur > 0 && provider.fields[cur - 1].is_bool();
    match key.code {
        Key::Esc => (Nav::Back, TextInput::Nothing),
        Key::Tab => {
            state.field_cursor = (cur + 1) % total;
            (Nav::Stay, TextInput::Nothing)
        },
        Key::BackTab => {
            state.field_cursor = if cur == 0 {
                total - 1
            } else {
                cur - 1
            };
            (Nav::Stay, TextInput::Nothing)
        },
        Key::Enter => {
            if cur + 1 < total {
                state.field_cursor = cur + 1;
                return (Nav::Stay, TextInput::Nothing);
            }
            (try_save(state, &provider, stored), TextInput::Nothing)
        },
        Key::Char(ch) => {
            if ch == 'r' && key.ctrl {
                state.enter_copy_source_picker(stored);
                return (Nav::Stay, TextInput::Nothing);
            }
            if ch == 'v' && key.ctrl {
                return (Nav::Stay, TextInput::Paste(cur));
            }
            if ch == ' ' && cur > 0 {
                let fi = cur - 1;
                match &provider.fields[fi].field_type {
                    FieldType::Choice { options } => {
                        let picker = open_picker(fi, options, state.fields[fi].as_str());
                        state.choice_picker = Some(picker);
                        return (Nav::Stay, TextInput::Nothing);
                    },
                    _ => {},
                }
                if slot_is_bool {
                    let t = toggled(state.fields[fi].as_str());
                    let ghost before = views(state.fields@);
                    state.fields.set(fi, t);
                    assert(views(state.fields@) =~= before.update(fi as int, toggled_spec(old(state).fields@[fi as int]@)));
                    return (Nav::Stay, TextInput::Nothing);
                }
            }
            if slot_is_bool {
                (Nav::Stay, TextInput::Nothing)
            } else {
                (Nav::Stay, TextInput::Key(cur))
            }
        },
        _ => {
            if slot_is_bool {
                (Nav::Stay, TextInput::Nothing)
            } else {
                (Nav::Stay, TextInput::Key(cur))
            }
        },
    }
}

/// One key on the add screen, by step (see `provider_step`,
/// `add_form_step`, `copy_step`); the second result says what to do with
/// the form's text fields.
pub open spec fn add_step(old: AddState, new: AddState, k: KeyPress, stored: Stored, nav: Nav, input: TextInput) -> bool {
    match old.step {
        AddStep::PickProvider => provider_step(old, new, k.code, nav) && input is Nothing,
        AddStep::FillForm => add_form_step(old, new, k, stored, nav, input),
        AddStep::PickCopySource => copy_step(old, new, k.code, stored) && nav is Stay && input is Nothing,
    }
}

/// Handles a key on the add screen (see `add_step`).
pub fn handle_key(state: &mut AddState, key: KeyPress, stored: &Stored) -> (r: (Nav, TextInput))
    requires
        old(state).wf(),
        all_maskable(stored.creds@),
    ensures
        final(state).wf(),
        add_step(*old(state), *final(state), key, *stored, r.0, r.1),
{
    match state.step {
        AddStep::PickProvider => (handle_provider_key(state, key), TextInput::Nothing),
        AddStep::FillForm => handle_form_key(state, key, stored),
        AddStep::PickCopySource => {
            handle_copy_source_key(state, key, stored);
            (Nav::Stay, TextInput::Nothing)
        },
    }
}

/// The status after saving credentials named `name` under `slug`.
pub open spec fn saved_status(name: Seq<char>, slug: Seq<char>, result: Result<(), Seq<char>>) -> Seq<char> {
    match result {
        Ok(_) => "Profile \""@ + name + "\" saved as \""@ + slug + "\"!"@,
        Err(e) => "Failed to save: "@ + e,
    }
}

/// Takes the outcome of a save asked for by `Nav::Save` of credentials
/// named `name` under `slug`: on success the screen reports it and goes
/// back, on failure it shows the error and stays.
pub fn finish_save(state: &mut AddState, name: &str, slug: &str, result: Result<(), String>) -> (nav: Nav)
    requires
        old(state).wf(),
    ensures
        final(state).wf(),
        only_status(*old(state), *final(state)),
        final(state).status@ == saved_status(
            name@,
            slug@,
            match result {
                Ok(_) => Ok(()),
                Err(e) => Err(e@),
            },
        ),
        final(state).is_error == result is Err,
        if result is Ok {
            nav is Back
        } else {
            nav is Stay
        },
{
    match result {
        Ok(_) => {
            let mut m = concat3("Profile \"", name, "\" saved as \"");
            crate::text::append_str(&mut m, slug);
            crate::text::append_str(&mut m, "\"!");
            state.status = m;
            state.is_error = false;
            Nav::Back
        },
        Err(e) => {
            state.status = concat3("Failed to save: ", e.as_str(), "");
            state.is_error = true;
            proof {
                reveal_strlit("");
            }
            Nav::Stay
        },
    }
}

} // verus!
