//! What the add and edit forms share: yes/no fields, the option picker, and
//! how field texts become the saved environment.

use vstd::prelude::*;
use crate::json::{json_view, JsonValue, JsonView};
use crate::providers::{ExtraBodyValueType, FieldTypeView, FieldView, ProviderField, FieldType, ENV_EXTRA_BODY};
use crate::strmap::StrMap;
use crate::strmap::string_values_view;
use crate::text::{spec_to_lowercase, str_eq, to_lowercase, to_owned_string, trim, trim_spec};
use crate::config::Credential;
use super::extra_body::{serialize_value, serialize_value_spec, set_nested_path, set_path_spec, members_view};
use super::keys::{is_down, is_up, key_is_down, key_is_up, Key};
use super::widgets::{
    edits_filter, filter_edit, filter_edited, moved_down, moved_up, selected_index, ChoicePicker, SelectList,
};

verus! {

broadcast use vstd::string::group_string_axioms;

/// What the saved credentials look like to the screens: the credentials by
/// slug (empty when the file could not be read).
pub struct Stored {
    pub loaded: bool,
    pub creds: StrMap<Credential>,
}

/// What the application does with a form's text fields after a key: nothing,
/// hand the key to field `i`'s editor, or paste into it.
pub enum TextInput {
    Nothing,
    Key(usize),
    Paste(usize),
}

/// A yes/no text reads as "yes": `true`, `yes` or `1`, in any case, around
/// spaces.
pub open spec fn checked_spec(text: Seq<char>) -> bool {
    let l = spec_to_lowercase(trim_spec(text));
    l == "true"@ || l == "yes"@ || l == "1"@
}

/// Whether a yes/no field's text reads as "yes".
pub fn is_checked(text: &str) -> (r: bool)
    ensures
        r == checked_spec(text@),
{
    let t = trim(text);
    let l = to_lowercase(t.as_str());
    str_eq(l.as_str(), "true") || str_eq(l.as_str(), "yes") || str_eq(l.as_str(), "1")
}

/// The text of a yes/no field after Space: `false` when it read as "yes",
/// else `true`.
pub fn toggled(text: &str) -> (r: String)
    ensures
        r@ == if checked_spec(text@) {
            "false"@
        } else {
            "true"@
        },
{
    if is_checked(text) {
        to_owned_string("false")
    } else {
        to_owned_string("true")
    }
}

/// The field is a yes/no value inside the extra body.
pub open spec fn is_bool_field(f: FieldView) -> bool {
    f.field_type matches FieldTypeView::ExtraBody { value_type, .. } && value_type == ExtraBodyValueType::Bool
}

// ---- The option picker ----------------------------------------------------------------

/// The picker's items: each option, then "Custom...".
pub open spec fn picker_rows(options: Seq<Seq<char>>) -> Seq<(Seq<char>, Seq<char>)> {
    options.map_values(|o: Seq<char>| (o, Seq::<char>::empty())).push(("Custom..."@, "type your own value"@))
}

/// `i` is the first position of `x` in `s`.
pub open spec fn first_pos(s: Seq<Seq<char>>, x: Seq<char>, i: int) -> bool {
    0 <= i < s.len() && s[i] == x && forall|j: int| 0 <= j < i ==> s[j] != x
}

/// Where the picker's cursor starts: on the current value's option, on
/// "Custom..." for a value that is no option, on the first item when empty.
pub open spec fn picker_start(options: Seq<Seq<char>>, current: Seq<char>) -> int {
    let c = trim_spec(current);
    if c.len() == 0 {
        0
    } else if exists|i: int| first_pos(options, c, i) {
        choose|i: int| first_pos(options, c, i)
    } else {
        options.len() as int
    }
}

/// The picker's items and options show `options`, its cursor is at
/// `picker_start`, and it edits field `field_index`.
pub open spec fn picker_opened(p: ChoicePicker, field_index: int, options: Seq<Seq<char>>, current: Seq<char>) -> bool {
    &&& p.field_index == field_index
    &&& crate::text::views(p.options@) == options
    &&& p.list.items@.len() == options.len() + 1
    &&& forall|i: int|
        0 <= i < p.list.items@.len() ==> (#[trigger] p.list.items@[i]).0@ == picker_rows(options)[i].0
            && p.list.items@[i].1@ == picker_rows(options)[i].1
    &&& p.list.selected == picker_start(options, current)
    &&& p.list.filter@.len() == 0
    &&& p.list.filtered_indices@ == Seq::new(p.list.items@.len(), |i: int| i as usize)
    &&& p.list.wf()
}

/// A picker's list has one more item than options.
pub open spec fn picker_wf(p: ChoicePicker) -> bool {
    p.list.wf() && p.list.items@.len() == p.options@.len() + 1
}

/// Opens the option picker for field `field_index` whose text is `current`.
pub fn open_picker(field_index: usize, options: &Vec<&'static str>, current: &str) -> (r: ChoicePicker)
    ensures
        picker_opened(r, field_index as int, crate::providers::strs_view(options@), current@),
        picker_wf(r),
{
    let ghost ov = crate::providers::strs_view(options@);
    let c = trim(current);
    let mut items: Vec<(String, String)> = Vec::new();
    let mut opts: Vec<String> = Vec::new();
    let mut found: Option<usize> = None;
    let mut i: usize = 0;
    while i < options.len()
        invariant
            ov == crate::providers::strs_view(options@),
            c@ == trim_spec(current@),
            0 <= i <= options@.len(),
            items@.len() == i,
            crate::text::views(opts@) == ov.take(i as int),
            forall|j: int|
                0 <= j < i ==> (#[trigger] items@[j]).0@ == ov[j] && items@[j].1@ == Seq::<char>::empty(),
            match found {
                Some(k) => first_pos(ov, c@, k as int) && k < i,
                None => forall|j: int| 0 <= j < i ==> ov[j] != c@,
            },
        decreases options.len() - i,
    {
        let o = options[i];
        let ghost before = opts@;
        items.push((to_owned_string(o), String::new()));
        opts.push(to_owned_string(o));
        assert(ov[i as int] == o@);
        assert(crate::text::views(opts@) =~= crate::text::views(before).push(o@));
        assert(ov.take(i + 1) =~= ov.take(i as int).push(ov[i as int]));
        if found.is_none() && str_eq(o, c.as_str()) {
            found = Some(i);
        }
        assert(crate::text::views(opts@) =~= ov.take(i + 1));
        i += 1;
    }
    assert(ov.take(options@.len() as int) =~= ov);
    items.push((to_owned_string("Custom..."), to_owned_string("type your own value")));
    let n = items.len();
    let start: usize = if c.as_str().is_empty() {
        0
    } else {
        match found {
            Some(k) => k,
            None => options.len(),
        }
    };
    let mut list = SelectList::new(items);
    let cap = if n > 0 {
        n - 1
    } else {
        0
    };
    list.selected = if start < cap {
        start
    } else {
        cap
    };
    proof {
        let rows = picker_rows(ov);
        assert forall|j: int| 0 <= j < list.items@.len() implies (#[trigger] list.items@[j]).0@ == rows[j].0
            && list.items@[j].1@ == rows[j].1 by {
        }
        if c@.len() > 0 {
            match found {
                Some(k) => {
                    let w = choose|w: int| first_pos(ov, c@, w);
                    assert(w == k as int);
                },
                None => {
                    assert(!exists|w: int| first_pos(ov, c@, w));
                },
            }
        }
    }
    ChoicePicker { field_index, list, options: opts }
}

/// What a key does to an open picker.
pub enum PickerKey {
    /// The key moved the cursor or edited the filter (or did nothing).
    Handled,
    /// The picker closes; with `Some(i)`, option `i` was chosen.
    Close(Option<usize>),
    /// Backspace on an empty filter: the form handles the key itself.
    Unhandled,
}

/// One key on an open picker: up and down move, Esc closes, Enter closes
/// choosing the option under the cursor ("Custom..." chooses nothing), typing
/// edits the filter, Backspace on an empty filter is left to the form.
pub open spec fn picker_step(old: ChoicePicker, new: ChoicePicker, k: Key, r: PickerKey) -> bool {
    &&& new.field_index == old.field_index
    &&& new.options == old.options
    &&& if is_up(k) {
        r is Handled && new.list == moved_up(old.list)
    } else if is_down(k) {
        r is Handled && new.list == moved_down(old.list)
    } else if k is Esc {
        r == PickerKey::Close(None) && new.list == old.list
    } else if k is Enter {
        &&& new.list == old.list
        &&& r == PickerKey::Close(
            match selected_index(old.list) {
                Some(i) => if (i as int) < old.options@.len() {
                    Some(i)
                } else {
                    None
                },
                None => None,
            },
        )
    } else if edits_filter(old.list, k) {
        r is Handled && filter_edited(old.list, new.list, k)
    } else if k is Backspace {
        r is Unhandled && new.list == old.list
    } else {
        r is Handled && new.list == old.list
    }
}

/// Handles a key on an open picker (see `picker_step`).
pub fn picker_key(picker: &mut ChoicePicker, k: &Key) -> (r: PickerKey)
    requires
        picker_wf(*old(picker)),
    ensures
        picker_wf(*final(picker)),
        picker_step(*old(picker), *final(picker), *k, r),
{
    if key_is_up(k) {
        picker.list.move_up();
        return PickerKey::Handled;
    }
    if key_is_down(k) {
        picker.list.move_down();
        return PickerKey::Handled;
    }
    match k {
        Key::Esc => {
            return PickerKey::Close(None);
        },
        Key::Enter => {
            return match picker.list.selected_original_index() {
                Some(i) => if i < picker.options.len() {
                    PickerKey::Close(Some(i))
                } else {
                    PickerKey::Close(None)
                },
                None => PickerKey::Close(None),
            };
        },
        _ => {},
    }
    if filter_edit(&mut picker.list, k) {
        return PickerKey::Handled;
    }
    match k {
        Key::Backspace => PickerKey::Unhandled,
        _ => PickerKey::Handled,
    }
}

} // verus!

verus! {

// ---- From field texts to the saved environment ------------------------------------

/// What a form's fields amount to: environment variables, the extra-body
/// object, and the label of a required field left empty (the last such one).
pub struct Collected {
    pub env: Map<Seq<char>, Seq<char>>,
    pub extra: Seq<(Seq<char>, JsonView)>,
    pub missing: Option<Seq<char>>,
}

/// The value a non-JSON field saves when editing: its trimmed text, or for an
/// empty secret or choice the value saved before (if any).
pub open spec fn kept_value(f: FieldView, v: Seq<char>, old_env: Option<Map<Seq<char>, String>>) -> Seq<char> {
    if v.len() > 0 {
        v
    } else {
        match old_env {
            Some(e) => if (f.field_type is Secret || f.field_type is Choice) && e.contains_key(f.key) {
                e[f.key]@
            } else {
                Seq::empty()
            },
            None => Seq::empty(),
        }
    }
}

/// The first `n` fields with their texts, folded into what they save. Texts
/// are trimmed. A JSON field's non-empty text goes into the extra body at its
/// path (when it converts). Other fields save under their key when non-empty;
/// an empty required field is reported missing (when adding, JSON fields
/// too). When editing (`old_env` is the saved environment), an empty secret
/// or choice keeps its saved value.
pub open spec fn collect_spec(
    fields: Seq<FieldView>,
    texts: Seq<Seq<char>>,
    old_env: Option<Map<Seq<char>, String>>,
    n: int,
) -> Collected
    decreases n,
{
    if n <= 0 {
        Collected { env: Map::empty(), extra: Seq::empty(), missing: None }
    } else {
        let acc = collect_spec(fields, texts, old_env, n - 1);
        let f = fields[n - 1];
        let v = trim_spec(texts[n - 1]);
        match f.field_type {
            FieldTypeView::ExtraBody { json_path, value_type } => if v.len() > 0 {
                match serialize_value_spec(value_type, v) {
                    Some(j) => Collected { env: acc.env, extra: set_path_spec(acc.extra, json_path, j), missing: acc.missing },
                    None => acc,
                }
            } else if f.required && old_env is None {
                Collected { env: acc.env, extra: acc.extra, missing: Some(f.label) }
            } else {
                acc
            },
            _ => {
                let w = kept_value(f, v, old_env);
                if w.len() > 0 {
                    Collected { env: acc.env.insert(f.key, w), extra: acc.extra, missing: acc.missing }
                } else if f.required {
                    Collected { env: acc.env, extra: acc.extra, missing: Some(f.label) }
                } else {
                    acc
                }
            },
        }
    }
}

proof fn lemma_collect_keeps_text(
    fields: Seq<FieldView>,
    texts: Seq<Seq<char>>,
    old_env: Option<Map<Seq<char>, String>>,
    i: int,
    n: int,
)
    requires
        0 <= i < n <= fields.len(),
        texts.len() == fields.len(),
        !(fields[i].field_type is ExtraBody),
        trim_spec(texts[i]).len() > 0,
        forall|j: int| i < j < fields.len() && !(fields[j].field_type is ExtraBody) ==> fields[j].key != fields[i].key,
    ensures
        collect_spec(fields, texts, old_env, n).env.contains_key(fields[i].key),
        collect_spec(fields, texts, old_env, n).env[fields[i].key] == trim_spec(texts[i]),
    decreases n,
{
    if n > i + 1 {
        lemma_collect_keeps_text(fields, texts, old_env, i, n - 1);
    }
}

/// Law: a field that is not kept in the extra body and whose text is not
/// blank saves its trimmed text under its variable (the last such field
/// with that variable wins), whatever its kind, when adding or editing.
pub proof fn lemma_collect_saves_text(
    fields: Seq<FieldView>,
    texts: Seq<Seq<char>>,
    old_env: Option<Map<Seq<char>, String>>,
    i: int,
)
    requires
        0 <= i < fields.len(),
        texts.len() == fields.len(),
        !(fields[i].field_type is ExtraBody),
        trim_spec(texts[i]).len() > 0,
        forall|j: int| i < j < fields.len() && !(fields[j].field_type is ExtraBody) ==> fields[j].key != fields[i].key,
    ensures
        collect_spec(fields, texts, old_env, fields.len() as int).env.contains_key(fields[i].key),
        collect_spec(fields, texts, old_env, fields.len() as int).env[fields[i].key] == trim_spec(texts[i]),
{
    lemma_collect_keeps_text(fields, texts, old_env, i, fields.len() as int);
}

proof fn lemma_collect_keeps_saved(
    fields: Seq<FieldView>,
    texts: Seq<Seq<char>>,
    e: Map<Seq<char>, String>,
    i: int,
    n: int,
)
    requires
        0 <= i < n <= fields.len(),
        texts.len() == fields.len(),
        fields[i].field_type is Secret || fields[i].field_type is Choice,
        trim_spec(texts[i]).len() == 0,
        e.contains_key(fields[i].key),
        e[fields[i].key]@.len() > 0,
        forall|j: int| i < j < fields.len() && !(fields[j].field_type is ExtraBody) ==> fields[j].key != fields[i].key,
    ensures
        collect_spec(fields, texts, Some(e), n).env.contains_key(fields[i].key),
        collect_spec(fields, texts, Some(e), n).env[fields[i].key] == e[fields[i].key]@,
    decreases n,
{
    if n > i + 1 {
        lemma_collect_keeps_saved(fields, texts, e, i, n - 1);
    }
}

/// Law: when editing, a secret or choice field left blank keeps the value
/// saved before under its variable (the last such field with that variable
/// wins).
pub proof fn lemma_collect_keeps_saved_secret(
    fields: Seq<FieldView>,
    texts: Seq<Seq<char>>,
    e: Map<Seq<char>, String>,
    i: int,
)
    requires
        0 <= i < fields.len(),
        texts.len() == fields.len(),
        fields[i].field_type is Secret || fields[i].field_type is Choice,
        trim_spec(texts[i]).len() == 0,
        e.contains_key(fields[i].key),
        e[fields[i].key]@.len() > 0,
        forall|j: int| i < j < fields.len() && !(fields[j].field_type is ExtraBody) ==> fields[j].key != fields[i].key,
    ensures
        collect_spec(fields, texts, Some(e), fields.len() as int).env.contains_key(fields[i].key),
        collect_spec(fields, texts, Some(e), fields.len() as int).env[fields[i].key] == e[fields[i].key]@,
{
    lemma_collect_keeps_saved(fields, texts, e, i, fields.len() as int);
}

/// Law: when adding, the only variables saved are those of fields that are
/// not kept in the extra body and whose text is not blank.
pub proof fn lemma_collect_saves_only_filled(fields: Seq<FieldView>, texts: Seq<Seq<char>>, k: Seq<char>)
    requires
        texts.len() == fields.len(),
        collect_spec(fields, texts, None, fields.len() as int).env.contains_key(k),
    ensures
        exists|i: int|
            0 <= i < fields.len() && !(fields[i].field_type is ExtraBody) && fields[i].key == k && trim_spec(
                #[trigger] texts[i],
            ).len() > 0,
{
    lemma_collect_only_filled(fields, texts, k, fields.len() as int);
}

proof fn lemma_collect_only_filled(fields: Seq<FieldView>, texts: Seq<Seq<char>>, k: Seq<char>, n: int)
    requires
        0 <= n <= fields.len(),
        texts.len() == fields.len(),
        collect_spec(fields, texts, None, n).env.contains_key(k),
    ensures
        exists|i: int|
            0 <= i < n && !(fields[i].field_type is ExtraBody) && fields[i].key == k && trim_spec(
                #[trigger] texts[i],
            ).len() > 0,
    decreases n,
{
    if n > 0 {
        let acc = collect_spec(fields, texts, None, n - 1);
        if acc.env.contains_key(k) {
            lemma_collect_only_filled(fields, texts, k, n - 1);
        } else {
            let i = n - 1;
            assert(!(fields[i].field_type is ExtraBody) && fields[i].key == k && trim_spec(texts[i]).len() > 0);
        }
    }
}

/// Law: when adding, a save is refused exactly when some required field is
/// blank, and the field named is the last such one.
pub proof fn lemma_collect_missing(fields: Seq<FieldView>, texts: Seq<Seq<char>>, n: int)
    requires
        0 <= n <= fields.len(),
        texts.len() == fields.len(),
    ensures
        (collect_spec(fields, texts, None, n).missing is None) == (forall|i: int|
            0 <= i < n && #[trigger] fields[i].required ==> trim_spec(texts[i]).len() > 0),
        collect_spec(fields, texts, None, n).missing matches Some(l) ==> exists|i: int|
            0 <= i < n && #[trigger] fields[i].required && trim_spec(texts[i]).len() == 0 && fields[i].label == l
                && forall|j: int| i < j < n && fields[j].required ==> trim_spec(texts[j]).len() > 0,
    decreases n,
{
    if n > 0 {
        lemma_collect_missing(fields, texts, n - 1);
        let acc = collect_spec(fields, texts, None, n - 1);
        let f = fields[n - 1];
        let v = trim_spec(texts[n - 1]);
        if f.required && v.len() == 0 {
            assert(fields[n - 1].required && trim_spec(texts[n - 1]).len() == 0);
        } else {
            assert forall|i: int| 0 <= i < n && #[trigger] fields[i].required implies trim_spec(texts[i]).len() > 0
                <== (forall|j: int| 0 <= j < n - 1 && #[trigger] fields[j].required ==> trim_spec(texts[j]).len()
                > 0) by {
                if i == n - 1 {
                }
            }
            if let Some(l) = acc.missing {
                let i = choose|i: int|
                    0 <= i < n - 1 && #[trigger] fields[i].required && trim_spec(texts[i]).len() == 0 && fields[i].label
                        == l && forall|j: int| i < j < n - 1 && fields[j].required ==> trim_spec(texts[j]).len() > 0;
                assert(0 <= i < n && fields[i].required && trim_spec(texts[i]).len() == 0 && fields[i].label == l
                    && forall|j: int| i < j < n && fields[j].required ==> trim_spec(texts[j]).len() > 0);
            }
        }
    }
}

/// Folds the fields' texts into environment variables, the extra-body
/// members and the last missing required label (see `collect_spec`; editing
/// when `old_env` is given).
pub fn collect_fields(fields: &Vec<ProviderField>, texts: &Vec<String>, old_env: Option<&StrMap<String>>) -> (r: (
    StrMap<String>,
    Vec<(String, JsonValue)>,
    Option<&'static str>,
))
    requires
        texts@.len() == fields@.len(),
    ensures
        ({
            let c = collect_spec(
                crate::providers::fields_view(fields@),
                crate::text::views(texts@),
                match old_env {
                    Some(e) => Some(e@),
                    None => None,
                },
                fields@.len() as int,
            );
            &&& string_values_view(r.0@) == c.env
            &&& members_view(&r.1) == c.extra
            &&& crate::providers::opt_str_view(r.2) == c.missing
        }),
{
    let ghost fv = crate::providers::fields_view(fields@);
    let ghost tv = crate::text::views(texts@);
    let ghost oe = match old_env {
        Some(e) => Some(e@),
        None => None,
    };
    let mut env: StrMap<String> = StrMap::new();
    let mut extra: Vec<(String, JsonValue)> = Vec::new();
    let mut missing: Option<&'static str> = None;
    let mut i: usize = 0;
    proof {
        assert(string_values_view(env@) =~= Map::<Seq<char>, Seq<char>>::empty());
        assert(members_view(&extra) =~= Seq::<(Seq<char>, JsonView)>::empty());
    }
    while i < fields.len()
        invariant
            fv == crate::providers::fields_view(fields@),
            tv == crate::text::views(texts@),
            oe == match old_env {
                Some(e) => Some(e@),
                None => None::<Map<Seq<char>, String>>,
            },
            texts@.len() == fields@.len(),
            0 <= i <= fields@.len(),
            string_values_view(env@) == collect_spec(fv, tv, oe, i as int).env,
            members_view(&extra) == collect_spec(fv, tv, oe, i as int).extra,
            crate::providers::opt_str_view(missing) == collect_spec(fv, tv, oe, i as int).missing,
        decreases fields.len() - i,
    {
        let f = &fields[i];
        let v = trim(texts[i].as_str());
        let empty = v.as_str().is_empty();
        assert(fv[i as int] == f@);
        assert(tv[i as int] == texts@[i as int]@);
        match &f.field_type {
            FieldType::ExtraBody { json_path, value_type } => {
                if !empty {
                    match serialize_value(value_type, v.as_str()) {
                        Some(j) => {
                            set_nested_path(&mut extra, json_path, j);
                        },
                        None => {},
                    }
                } else if f.required && old_env.is_none() {
                    missing = Some(f.label);
                }
            },
            _ => {
                let w: String = if !empty {
                    v
                } else {
                    match old_env {
                        Some(e) => if f.is_secret() || f.is_choice() {
                            match e.get(f.key) {
                                Some(x) => x.clone(),
                                None => String::new(),
                            }
                        } else {
                            String::new()
                        },
                        None => String::new(),
                    }
                };
                if !w.as_str().is_empty() {
                    let ghost before = env@;
                    env.insert(to_owned_string(f.key), w);
                    proof {
                        assert(string_values_view(env@) =~= string_values_view(before).insert(f.key@, w@));
                    }
                } else if f.required {
                    missing = Some(f.label);
                }
            },
        }
        i += 1;
    }
    (env, extra, missing)
}

} // verus!

verus! {

// ---- From saved credentials to field texts ----------------------------------------

/// The text saved for field `f`: a JSON field's value at its path in the
/// extra body (when it reads back), another field's variable.
pub open spec fn stored_text_spec(f: FieldView, env: Map<Seq<char>, String>, extra: Option<JsonView>) -> Option<
    Seq<char>,
> {
    match f.field_type {
        FieldTypeView::ExtraBody { json_path, value_type } => match extra {
            Some(j) => match super::extra_body::get_path_spec(j, json_path) {
                Some(v) => super::extra_body::deserialize_value_spec(value_type, v),
                None => None,
            },
            None => None,
        },
        _ => if env.contains_key(f.key) {
            Some(env[f.key]@)
        } else {
            None
        },
    }
}

/// The JSON value held in an environment's extra-body variable, when it is
/// JSON.
pub open spec fn stored_extra(env: Map<Seq<char>, String>) -> Option<JsonView> {
    if env.contains_key(ENV_EXTRA_BODY@) {
        super::extra_body::spec_json_parse(env[ENV_EXTRA_BODY@]@)
    } else {
        None
    }
}

/// The JSON value held in `env`'s extra-body variable, parsed.
pub fn saved_extra(env: &StrMap<String>) -> (r: Option<JsonValue>)
    ensures
        match r {
            Some(v) => stored_extra(env@) == Some(json_view(&v)),
            None => stored_extra(env@) is None,
        },
{
    match env.get(ENV_EXTRA_BODY) {
        Some(t) => super::extra_body::parse_json_text(Some(t.as_str())),
        None => None,
    }
}

/// The environment saved from a form: the collected variables, with the
/// extra-body variable set to the members' JSON text when there are any.
pub open spec fn env_with_extra(env: Map<Seq<char>, Seq<char>>, extra: Seq<(Seq<char>, JsonView)>) -> Map<
    Seq<char>,
    Seq<char>,
> {
    if extra.len() == 0 {
        env
    } else {
        env.insert(ENV_EXTRA_BODY@, super::extra_body::spec_json_text(JsonView::Object(extra)))
    }
}

/// Adds the extra-body text for `extra` to `env` (see `env_with_extra`).
pub fn add_extra_body(env: &mut StrMap<String>, extra: &Vec<(String, JsonValue)>)
    ensures
        string_values_view(final(env)@) == env_with_extra(string_values_view(old(env)@), members_view(extra)),
{
    match super::extra_body::build_extra_body(extra) {
        Some(body) => {
            let ghost before = env@;
            let ghost bv = body@;
            env.insert(to_owned_string(ENV_EXTRA_BODY), body);
            assert(string_values_view(env@) =~= string_values_view(before).insert(ENV_EXTRA_BODY@, bv));
        },
        None => {},
    }
}

/// An optional JSON value's content.
pub open spec fn opt_json_view(o: Option<&JsonValue>) -> Option<JsonView> {
    match o {
        Some(j) => Some(json_view(j)),
        None => None,
    }
}

/// The text saved for field `f` (see `stored_text_spec`).
pub fn stored_text(f: &ProviderField, env: &StrMap<String>, extra: Option<&JsonValue>) -> (r: Option<String>)
    ensures
        crate::settings::opt_view(r) == stored_text_spec(f@, env@, opt_json_view(extra)),
{
    match &f.field_type {
        FieldType::ExtraBody { json_path, value_type } => match extra {
            Some(j) => match super::extra_body::get_nested_path(j, json_path) {
                Some(v) => super::extra_body::deserialize_value(value_type, v),
                None => None,
            },
            None => None,
        },
        _ => match env.get(f.key) {
            Some(s) => Some(s.clone()),
            None => None,
        },
    }
}

} // verus!
