//! Editing saved credentials: pick a set, then change its fields.

use vstd::prelude::*;
use crate::config::Credential;
use crate::error::concat3;
use crate::json::{JsonValue, JsonView};
use crate::providers::{find_provider_spec, get_provider, FieldTypeView, FieldType, ProviderView};
use crate::settings::opt_view;
use crate::strmap::{lists_keys_sorted, sorted_keys, string_values_view, StrMap};
use crate::text::{to_owned_string, views};
use super::form::{
    checked_spec, collect_fields, collect_spec, is_bool_field, open_picker, picker_key, picker_opened,
    picker_step, picker_wf, add_extra_body, env_with_extra, saved_extra, stored_extra, stored_text, stored_text_spec, opt_json_view, toggled, PickerKey, Stored, TextInput,
};
use super::keys::{is_down, is_up, key_is_down, key_is_up, Key, KeyPress};
use super::widgets::{moved_down, moved_up, selected_index, ChoicePicker, SelectList};

verus! {

broadcast use vstd::string::group_string_axioms;

/// The step of the edit flow.
#[derive(PartialEq, Eq, Structural, Clone, Copy)]
pub enum EditStep {
    PickProfile,
    FillForm,
}

/// The edit screen.
pub struct EditState {
    pub step: EditStep,
    pub list: SelectList,
    /// The slug of each list item, ascending.
    pub slugs: Vec<String>,
    /// The slug whose form is open.
    pub current_slug: Option<String>,
    /// The text of each of the provider's fields.
    pub fields: Vec<String>,
    /// The field being edited.
    pub field_cursor: usize,
    pub status: String,
    pub is_error: bool,
    /// No credentials are saved; the one item offers to add some.
    pub empty: bool,
    /// The option picker, while open.
    pub choice_picker: Option<ChoicePicker>,
}

/// The text a field starts with in the edit form: a JSON field's saved
/// value (or nothing), another field's saved value, else its default.
pub open spec fn initial_text(f: crate::providers::FieldView, env: Map<Seq<char>, String>, extra: Option<JsonView>) -> Seq<char> {
    let stored = match stored_text_spec(f, env, extra) {
        Some(s) => s,
        None => Seq::empty(),
    };
    if f.field_type is ExtraBody || stored.len() > 0 {
        stored
    } else {
        match f.default {
            Some(d) => d,
            None => Seq::empty(),
        }
    }
}

/// The slug of the open form ("" when none).
pub open spec fn form_slug(s: EditState) -> Seq<char> {
    match s.current_slug {
        Some(x) => x@,
        None => Seq::empty(),
    }
}

/// The saved credentials and provider behind the open form, when they exist
/// and the form has one non-empty text per provider field.
pub open spec fn form_target(s: EditState, stored: Stored) -> Option<(Credential, ProviderView)> {
    let slug = form_slug(s);
    if stored.creds@.contains_key(slug) {
        let c = stored.creds@[slug];
        match find_provider_spec(c.provider@) {
            Some(p) => if p.fields.len() == s.fields@.len() && p.fields.len() > 0 {
                Some((c, p))
            } else {
                None
            },
            None => None,
        }
    } else {
        None
    }
}

impl EditState {
    /// The cursor is on a field (when there are fields) and on a slug; an
    /// open picker edits an existing field.
    pub open spec fn wf(&self) -> bool {
        &&& self.list.wf()
        &&& self.empty == (self.slugs@.len() == 0)
        &&& !self.empty ==> self.slugs@.len() == self.list.items@.len()
        &&& (self.fields@.len() > 0 ==> self.field_cursor < self.fields@.len())
        &&& (self.fields@.len() == 0 ==> self.field_cursor == 0)
        &&& self.choice_picker matches Some(p) ==> picker_wf(p) && p.field_index < self.fields@.len()
        &&& self.step == EditStep::PickProfile ==> self.choice_picker is None
    }

    /// The screen as first shown for credentials `all`.
    pub open spec fn is_fresh(&self, all: &StrMap<Credential>) -> bool {
        &&& self.wf()
        &&& lists_keys_sorted(views(self.slugs@), all)
        &&& self.empty == (all@.len() == 0)
        &&& self.empty ==> self.list.items@.len() == 1 && self.list.items@[0].0@ == "Add profile"@
            && self.list.items@[0].1@.len() == 0
        &&& !self.empty ==> self.list.items@.len() == self.slugs@.len() && forall|i: int|
            0 <= i < self.slugs@.len() ==> (#[trigger] self.list.items@[i]).0@ == all@[self.slugs@[i]@].name@
                && self.list.items@[i].1@ == all@[self.slugs@[i]@].provider@
        &&& self.step == EditStep::PickProfile
        &&& self.current_slug is None
        &&& self.fields@.len() == 0
        &&& self.choice_picker is None
        &&& self.list.selected == 0
        &&& self.list.filter@.len() == 0
        &&& self.status@.len() == 0
        &&& !self.is_error
    }

    /// The picker over the credentials `all`, sorted by slug; with nothing
    /// saved its one item is "Add profile".
    pub fn new(all: &StrMap<Credential>) -> (r: Self)
        ensures
            r.is_fresh(all),
            r.wf(),
            lists_keys_sorted(views(r.slugs@), all),
            r.empty == (all@.len() == 0),
            r.empty ==> r.list.items@.len() == 1 && r.list.items@[0].0@ == "Add profile"@
                && r.list.items@[0].1@.len() == 0,
            !r.empty ==> r.list.items@.len() == r.slugs@.len() && forall|i: int|
                0 <= i < r.slugs@.len() ==> (#[trigger] r.list.items@[i]).0@ == all@[r.slugs@[i]@].name@
                    && r.list.items@[i].1@ == all@[r.slugs@[i]@].provider@,
            r.step == EditStep::PickProfile,
            r.current_slug is None,
            r.fields@.len() == 0,
            r.choice_picker is None,
            r.list.selected == 0,
            r.list.filter@.len() == 0,
            r.status@.len() == 0,
            !r.is_error,
    {
        let slugs = sorted_keys(all);
        let empty = slugs.len() == 0;
        let mut items: Vec<(String, String)> = Vec::new();
        let mut i: usize = 0;
        while i < slugs.len()
            invariant
                lists_keys_sorted(views(slugs@), all),
                0 <= i <= slugs@.len(),
                items@.len() == i,
                forall|j: int|
                    0 <= j < i ==> (#[trigger] items@[j]).0@ == all@[slugs@[j]@].name@ && items@[j].1@
                        == all@[slugs@[j]@].provider@,
            decreases slugs.len() - i,
        {
            assert(all@.contains_key(views(slugs@)[i as int]));
            let c = all.get(slugs[i].as_str()).unwrap();
            items.push((c.name.clone(), c.provider.clone()));
            i += 1;
        }
        if empty {
            items.push((to_owned_string("Add profile"), String::new()));
        }
        EditState {
            step: EditStep::PickProfile,
            list: SelectList::new(items),
            slugs,
            current_slug: None,
            fields: Vec::new(),
            field_cursor: 0,
            status: String::new(),
            is_error: false,
            empty,
            choice_picker: None,
        }
    }

    /// Opens the form for `slug`: one text per field of its provider, filled
    /// from what is saved (see `initial_text`), cursor on the first. Nothing
    /// changes when the slug or its provider is unknown.
    pub fn init_form(&mut self, slug: &str, stored: &Stored)
        requires
            old(self).wf(),
            old(self).choice_picker is None,
        ensures
            final(self).wf(),
            final(self).choice_picker is None,
            final(self).step == old(self).step,
            final(self).list == old(self).list,
            final(self).slugs == old(self).slugs,
            final(self).empty == old(self).empty,
            final(self).status == old(self).status,
            final(self).is_error == old(self).is_error,
            ({
                let known = stored.creds@.contains_key(slug@) && find_provider_spec(
                    stored.creds@[slug@].provider@,
                ) is Some;
                if known {
                    let c = stored.creds@[slug@];
                    let p = find_provider_spec(c.provider@).unwrap();
                    let extra = stored_extra(stored.creds@[slug@].env@);
                    &&& opt_view(final(self).current_slug) == Some(slug@)
                    &&& final(self).field_cursor == 0
                    &&& views(final(self).fields@) == p.fields.map_values(
                        |f: crate::providers::FieldView| initial_text(f, c.env@, extra),
                    )
                } else {
                    &&& final(self).current_slug == old(self).current_slug
                    &&& final(self).fields == old(self).fields
                    &&& final(self).field_cursor == old(self).field_cursor
                }
            }),
    {
        let profile = match stored.creds.get(slug) {
            Some(c) => c,
            None => {
                return;
            },
        };
        let provider = match get_provider(profile.provider.as_str()) {
            Some(p) => p,
            None => {
                return;
            },
        };
        let parsed = saved_extra(&profile.env);
        let extra: Option<&JsonValue> = match &parsed {
            Some(v) => Some(v),
            None => None,
        };
        let ghost ex = opt_json_view(extra);
        let ghost pv = provider@;
        let mut texts: Vec<String> = Vec::new();
        let mut i: usize = 0;
        while i < provider.fields.len()
            invariant
                pv == provider@,
                ex == opt_json_view(extra),
                0 <= i <= provider.fields@.len(),
                views(texts@) == pv.fields.take(i as int).map_values(
                    |f: crate::providers::FieldView| initial_text(f, profile.env@, ex),
                ),
            decreases provider.fields.len() - i,
        {
            let f = &provider.fields[i];
            assert(pv.fields[i as int] == f@);
            let s = match stored_text(f, &profile.env, extra) {
                Some(s) => s,
                None => String::new(),
            };
            let is_json = match &f.field_type {
                FieldType::ExtraBody { .. } => true,
                _ => false,
            };
            let t = if is_json || !s.as_str().is_empty() {
                s
            } else {
                match f.default {
                    Some(d) => to_owned_string(d),
                    None => String::new(),
                }
            };
            let ghost before = views(texts@);
            texts.push(t);
            proof {
                assert(views(texts@) =~= before.push(initial_text(f@, profile.env@, ex)));
                assert(pv.fields.take(i + 1) =~= pv.fields.take(i as int).push(pv.fields[i as int]));
                assert(pv.fields.take(i + 1).map_values(|f: crate::providers::FieldView| initial_text(f, profile.env@, ex))
                    =~= pv.fields.take(i as int).map_values(|f: crate::providers::FieldView| initial_text(f, profile.env@, ex)).push(
                    initial_text(pv.fields[i as int], profile.env@, ex),
                ));
            }
            i += 1;
        }
        assert(pv.fields.take(provider.fields@.len() as int) =~= pv.fields);
        self.fields = texts;
        self.current_slug = Some(to_owned_string(slug));
        self.field_cursor = 0;
    }
}


/// Where a key on the edit screen leads.
pub enum Nav {
    Stay,
    Back,
    AddProfile,
    /// `credential` (its extra-body text already in its environment) is to be
    /// saved under `slug` (in place); the outcome goes to `finish_save`.
    Save { slug: String, credential: Credential },
}

/// What a key does to an open picker (see `picker_step`).
pub open spec fn picker_result(p: ChoicePicker, k: Key) -> PickerKey {
    if is_up(k) || is_down(k) {
        PickerKey::Handled
    } else if k is Esc {
        PickerKey::Close(None)
    } else if k is Enter {
        PickerKey::Close(
            match selected_index(p.list) {
                Some(i) => if (i as int) < p.options@.len() {
                    Some(i)
                } else {
                    None
                },
                None => None,
            },
        )
    } else if super::widgets::edits_filter(p.list, k) {
        PickerKey::Handled
    } else if k is Backspace {
        PickerKey::Unhandled
    } else {
        PickerKey::Handled
    }
}

/// The parts of the state a form key never changes.
pub open spec fn same_frame(old: EditState, new: EditState) -> bool {
    &&& new.step == old.step
    &&& new.list == old.list
    &&& new.slugs == old.slugs
    &&& new.current_slug == old.current_slug
    &&& new.empty == old.empty
}

/// `new` is `old` with only the cursor set to `c`.
pub open spec fn cursor_moved(old: EditState, new: EditState, c: int) -> bool {
    &&& same_frame(old, new)
    &&& new.fields == old.fields
    &&& new.field_cursor == c
    &&& new.status == old.status
    &&& new.is_error == old.is_error
    &&& new.choice_picker == old.choice_picker
}

/// The text of a yes/no field after Space.
pub open spec fn toggled_spec(t: Seq<char>) -> Seq<char> {
    if checked_spec(t) {
        "false"@
    } else {
        "true"@
    }
}

/// Enter on the last field: with a required field empty, the form says
/// which and stays; else it asks to save the credentials (same name and
/// provider, the collected environment and extra body) and is unchanged.
pub open spec fn save_outcome(old: EditState, new: EditState, c: Credential, p: ProviderView, nav: Nav) -> bool {
    let col = collect_spec(p.fields, views(old.fields@), Some(c.env@), p.fields.len() as int);
    match col.missing {
        Some(l) => {
            &&& nav is Stay
            &&& same_frame(old, new)
            &&& new.fields == old.fields
            &&& new.field_cursor == old.field_cursor
            &&& new.choice_picker == old.choice_picker
            &&& new.status@ == "Required field missing: "@ + l
            &&& new.is_error
        },
        None => {
            &&& new == old
            &&& nav matches Nav::Save { slug, credential } && {
                &&& slug@ == form_slug(old)
                &&& credential.name@ == c.name@
                &&& credential.provider@ == p.id
                &&& string_values_view(credential.env@) == env_with_extra(col.env, col.extra)
                &&& credential.statusline_enabled == c.statusline_enabled
            }
        },
    }
}

/// One key on the open form of credentials `c` with provider `p`, when no
/// picker takes it. Esc leaves; Tab and Shift-Tab cycle the cursor; Enter
/// moves on, or saves on the last field; Ctrl-V pastes; Space opens the
/// picker of a choice field or flips a yes/no field; other keys edit the
/// current field's text (never a yes/no field's).
pub open spec fn form_key_step(
    old: EditState,
    new: EditState,
    k: KeyPress,
    c: Credential,
    p: ProviderView,
    nav: Nav,
    input: TextInput,
) -> bool {
    let n = p.fields.len() as int;
    let cur = old.field_cursor as int;
    let f = p.fields[cur];
    let typed = if is_bool_field(f) {
        input is Nothing
    } else {
        input == TextInput::Key(old.field_cursor)
    };
    match k.code {
        Key::Esc => nav is Back && input is Nothing && new == old,
        Key::Tab => nav is Stay && input is Nothing && cursor_moved(old, new, (cur + 1) % n),
        Key::BackTab => nav is Stay && input is Nothing && cursor_moved(
            old,
            new,
            if cur == 0 {
                n - 1
            } else {
                cur - 1
            },
        ),
        Key::Enter => if cur + 1 < n {
            nav is Stay && input is Nothing && cursor_moved(old, new, cur + 1)
        } else {
            input is Nothing && save_outcome(old, new, c, p, nav)
        },
        Key::Char(ch) => if ch == 'v' && k.ctrl {
            nav is Stay && input == TextInput::Paste(old.field_cursor) && new == old
        } else if ch == ' ' {
            &&& nav is Stay
            &&& same_frame(old, new)
            &&& new.field_cursor == old.field_cursor
            &&& new.status == old.status
            &&& new.is_error == old.is_error
            &&& if f.field_type is Choice {
                &&& input is Nothing
                &&& new.fields == old.fields
                &&& new.choice_picker matches Some(np) && picker_opened(
                    np,
                    cur,
                    f.field_type->options,
                    old.fields@[cur]@,
                )
            } else if is_bool_field(f) {
                &&& input is Nothing
                &&& new.choice_picker == old.choice_picker
                &&& views(new.fields@) == views(old.fields@).update(cur, toggled_spec(old.fields@[cur]@))
            } else {
                input == TextInput::Key(old.field_cursor) && new == old
            }
        } else {
            nav is Stay && typed && new == old
        },
        _ => nav is Stay && typed && new == old,
    }
}

/// One key on the edit form: with the credentials gone it leaves; an open
/// picker takes the key first (choosing an option fills its field and says
/// so); else see `form_key_step`.
pub open spec fn edit_form_step(old: EditState, new: EditState, k: KeyPress, stored: Stored, nav: Nav, input: TextInput) -> bool {
    match form_target(old, stored) {
        None => nav is Back && input is Nothing && new == old,
        Some((c, p)) => if old.choice_picker is Some && !(picker_result(old.choice_picker.unwrap(), k.code) is Unhandled) {
            let op = old.choice_picker.unwrap();
            &&& nav is Stay
            &&& input is Nothing
            &&& same_frame(old, new)
            &&& new.field_cursor == old.field_cursor
            &&& match picker_result(op, k.code) {
                PickerKey::Handled => {
                    &&& new.choice_picker matches Some(np) && picker_step(op, np, k.code, PickerKey::Handled)
                    &&& new.fields == old.fields
                    &&& new.status == old.status
                    &&& new.is_error == old.is_error
                },
                PickerKey::Close(Some(i)) => {
                    &&& new.choice_picker is None
                    &&& views(new.fields@) == views(old.fields@).update(op.field_index as int, op.options@[i as int]@)
                    &&& new.status@ == "Effort level: "@ + op.options@[i as int]@
                    &&& !new.is_error
                },
                _ => {
                    &&& new.choice_picker is None
                    &&& new.fields == old.fields
                    &&& new.status == old.status
                    &&& new.is_error == old.is_error
                },
            }
        } else {
            form_key_step(old, new, k, c, p, nav, input)
        },
    }
}

/// One key on the profile picker: Esc leaves, up and down move, Enter opens
/// the form of the slug under the cursor (or offers to add credentials when
/// none are saved).
pub open spec fn edit_pick_step(old: EditState, new: EditState, k: Key, stored: Stored, nav: Nav) -> bool {
    if k is Enter && !old.empty && selected_index(old.list) is Some {
        let slug = old.slugs@[selected_index(old.list).unwrap() as int]@;
        let known = stored.creds@.contains_key(slug) && find_provider_spec(stored.creds@[slug].provider@) is Some;
        &&& nav is Stay
        &&& new.step == EditStep::FillForm
        &&& new.list == old.list
        &&& new.slugs == old.slugs
        &&& new.status == old.status
        &&& new.choice_picker is None
        &&& known ==> opt_view(new.current_slug) == Some(slug) && new.field_cursor == 0 && views(new.fields@)
            == find_provider_spec(stored.creds@[slug].provider@).unwrap().fields.map_values(
            |f: crate::providers::FieldView|
                initial_text(
                    f,
                    stored.creds@[slug].env@,
                    stored_extra(stored.creds@[slug].env@),
                ),
        )
        &&& !known ==> new.current_slug == old.current_slug && new.fields == old.fields
    } else {
        &&& new.step == old.step
        &&& new.fields == old.fields
        &&& new.current_slug == old.current_slug
        &&& new.choice_picker == old.choice_picker
        &&& new.list == if is_up(k) {
            moved_up(old.list)
        } else if is_down(k) {
            moved_down(old.list)
        } else {
            old.list
        }
        &&& if k is Esc {
            nav is Back
        } else if k is Enter && old.empty {
            nav is AddProfile
        } else {
            nav is Stay
        }
    }
}

/// Handles a key on the edit screen: on the picker (see `edit_pick_step`)
/// or on the form (see `edit_form_step`, which also says what to do with the
/// form's text fields).
pub fn handle_key(state: &mut EditState, key: KeyPress, stored: &Stored) -> (r: (Nav, TextInput))
    requires
        old(state).wf(),
    ensures
        final(state).wf(),
        old(state).step == EditStep::PickProfile ==> edit_pick_step(*old(state), *final(state), key.code, *stored, r.0)
            && r.1 is Nothing,
        old(state).step == EditStep::FillForm ==> edit_form_step(*old(state), *final(state), key, *stored, r.0, r.1),
{
    match state.step {
        EditStep::PickProfile => (handle_picker_key(state, key, stored), TextInput::Nothing),
        EditStep::FillForm => handle_form_key(state, key, stored),
    }
}

fn handle_picker_key(state: &mut EditState, key: KeyPress, stored: &Stored) -> (nav: Nav)
    requires
        old(state).wf(),
        old(state).step == EditStep::PickProfile,
    ensures
        final(state).wf(),
        edit_pick_step(*old(state), *final(state), key.code, *stored, nav),
{
    if key_is_up(&key.code) {
        state.list.move_up();
        return Nav::Stay;
    }
    if key_is_down(&key.code) {
        state.list.move_down();
        return Nav::Stay;
    }
    match key.code {
        Key::Esc => Nav::Back,
        Key::Enter => {
            if state.empty {
                return Nav::AddProfile;
            }
            match state.list.selected_original_index() {
                Some(idx) => {
                    let slug = state.slugs[idx].clone();
                    state.init_form(slug.as_str(), stored);
                    state.step = EditStep::FillForm;
                },
                None => {},
            }
            Nav::Stay
        },
        _ => Nav::Stay,
    }
}

fn handle_form_key(state: &mut EditState, key: KeyPress, stored: &Stored) -> (r: (Nav, TextInput))
    requires
        old(state).wf(),
        old(state).step == EditStep::FillForm,
    ensures
        final(state).wf(),
        edit_form_step(*old(state), *final(state), key, *stored, r.0, r.1),
{
    let slug = match &state.current_slug {
        Some(s) => s.clone(),
        None => String::new(),
    };
    let profile = match stored.creds.get(slug.as_str()) {
        Some(c) => c,
        None => {
            return (Nav::Back, TextInput::Nothing);
        },
    };
    let provider = match get_provider(profile.provider.as_str()) {
        Some(p) => p,
        None => {
            return (Nav::Back, TextInput::Nothing);
        },
    };
    let n = provider.fields.len();
    if n != state.fields.len() || n == 0 {
        return (Nav::Back, TextInput::Nothing);
    }
    let ghost c = *profile;
    let ghost p = provider@;
    assert(form_target(*old(state), *stored) == Some((c, p)));
    let cur = state.field_cursor;
    assert(p.fields[cur as int] == provider.fields@[cur as int]@);
    if state.choice_picker.is_some() {
        let ghost before = *state;
        let mut picker = state.choice_picker.take().unwrap();
        let res = picker_key(&mut picker, &key.code);
        match res {
            PickerKey::Handled => {
                state.choice_picker = Some(picker);
                return (Nav::Stay, TextInput::Nothing);
            },
            PickerKey::Close(Some(i)) => {
                let v = picker.options[i].clone();
                let fi = picker.field_index;
                let msg = concat3("Effort level: ", v.as_str(), "");
                state.fields.set(fi, v);
                state.status = msg;
                state.is_error = false;
                proof {
                    reveal_strlit("");
                    assert(views(state.fields@) =~= views(before.fields@).update(fi as int, picker.options@[i as int]@));
                }
                return (Nav::Stay, TextInput::Nothing);
            },
            PickerKey::Close(None) => {
                return (Nav::Stay, TextInput::Nothing);
            },
            PickerKey::Unhandled => {
                state.choice_picker = Some(picker);
            },
        }
    }
    let is_bool = provider.fields[cur].is_bool();
    match key.code {
        Key::Esc => (Nav::Back, TextInput::Nothing),
        Key::Tab => {
            state.field_cursor = (cur + 1) % n;
            (Nav::Stay, TextInput::Nothing)
        },
        Key::BackTab => {
            state.field_cursor = if cur == 0 {
                n - 1
            } else {
                cur - 1
            };
            (Nav::Stay, TextInput::Nothing)
        },
        Key::Enter => {
            if cur + 1 < n {
                state.field_cursor = cur + 1;
                return (Nav::Stay, TextInput::Nothing);
            }
            (try_save(state, profile, &provider, slug), TextInput::Nothing)
        },
        Key::Char(ch) => {
            if ch == 'v' && key.ctrl {
                return (Nav::Stay, TextInput::Paste(cur));
            }
            if ch == ' ' {
                match &provider.fields[cur].field_type {
                    FieldType::Choice { options } => {
                        let picker = open_picker(cur, options, state.fields[cur].as_str());
                        state.choice_picker = Some(picker);
                        return (Nav::Stay, TextInput::Nothing);
                    },
                    _ => {},
                }
                if is_bool {
                    let t = toggled(state.fields[cur].as_str());
                    let ghost before = views(state.fields@);
                    state.fields.set(cur, t);
                    assert(views(state.fields@) =~= before.update(cur as int, toggled_spec(old(state).fields@[cur as int]@)));
                    return (Nav::Stay, TextInput::Nothing);
                }
                return (Nav::Stay, TextInput::Key(cur));
            }
            if is_bool {
                (Nav::Stay, TextInput::Nothing)
            } else {
                (Nav::Stay, TextInput::Key(cur))
            }
        },
        _ => {
            if is_bool {
                (Nav::Stay, TextInput::Nothing)
            } else {
                (Nav::Stay, TextInput::Key(cur))
            }
        },
    }
}

fn try_save(state: &mut EditState, profile: &Credential, provider: &crate::providers::ProviderDef, slug: String) -> (nav: Nav)
    requires
        old(state).wf(),
        provider.fields@.len() == old(state).fields@.len(),
        find_provider_spec(profile.provider@) == Some(provider@),
        slug@ == form_slug(*old(state)),
    ensures
        final(state).wf(),
        save_outcome(*old(state), *final(state), *profile, provider@, nav),
{
    let (mut env, extra, missing) = collect_fields(&provider.fields, &state.fields, Some(&profile.env));
    match missing {
        Some(label) => {
            state.status = concat3("Required field missing: ", label, "");
            state.is_error = true;
            proof {
                reveal_strlit("");
            }
            Nav::Stay
        },
        None => {
            proof {
                let reg = crate::providers::registry();
                let w = choose|i: int|
                    0 <= i < reg.len() && reg[i].id == profile.provider@ && forall|j: int|
                        0 <= j < i ==> reg[j].id != profile.provider@;
                assert(provider@.id == profile.provider@);
            }
            add_extra_body(&mut env, &extra);
            let credential = Credential {
                name: profile.name.clone(),
                provider: to_owned_string(provider.id),
                env,
                statusline_enabled: profile.statusline_enabled,
            };
            Nav::Save { slug, credential }
        },
    }
}

/// The status after saving the edited credentials named `name`.
pub open spec fn save_status(name: Seq<char>, result: Result<(), Seq<char>>) -> Seq<char> {
    match result {
        Ok(_) => "Profile \""@ + name + "\" updated!"@,
        Err(e) => "Failed to save: "@ + e,
    }
}

/// Takes the outcome of a save asked for by `Nav::Save` of credentials named
/// `name`: on success the screen reports it and goes back, on failure it
/// shows the error and stays.
pub fn finish_save(state: &mut EditState, name: &str, result: Result<(), String>) -> (nav: Nav)
    requires
        old(state).wf(),
    ensures
        final(state).wf(),
        same_frame(*old(state), *final(state)),
        final(state).fields == old(state).fields,
        final(state).field_cursor == old(state).field_cursor,
        final(state).choice_picker == old(state).choice_picker,
        final(state).status@ == save_status(
            name@,
            match result {
                Ok(_) => Ok(()),
                Err(e) => Err(e@),
            },
        ),
        final(state).is_error == result is Err,
        if result is Ok {
            nav is Back
        } else {
            nav is Stay
        },
{
    match result {
        Ok(_) => {
            state.status = concat3("Profile \"", name, "\" updated!");
            state.is_error = false;
            Nav::Back
        },
        Err(e) => {
            state.status = concat3("Failed to save: ", e.as_str(), "");
            state.is_error = true;
            proof {
                reveal_strlit("");
            }
            Nav::Stay
        },
    }
}

} // verus!
