//! Workspaces: labelled paths to credential files, one of which is active.
//!
//! The settings file stores `{ activeWorkspace, workspaces: { <label>: <path> },
//! lastLaunchedProfile }`. Reading and writing it is the application's job;
//! this module holds what is decided about its contents.

use vstd::prelude::*;
use crate::error::{AppError, concat3};
use crate::slug::slug_spec;
use crate::strmap::StrMap;
use crate::text::{str_eq, to_owned_string};

verus! {

broadcast use vstd::string::group_string_axioms;

/// Label of the workspace created on first run.
pub const DEFAULT_WORKSPACE_LABEL: &'static str = "default";

/// The settings file as read, before any repair.
pub struct RawSettings {
    pub active_workspace: Option<String>,
    pub workspaces: Option<StrMap<String>>,
    pub last_launched_profile: Option<String>,
}

/// Settings in use: a workspace map and the active workspace's label.
pub struct Settings {
    pub active_workspace: String,
    pub workspaces: StrMap<String>,
    pub last_launched_profile: Option<String>,
}

/// The mathematical content of `Settings`.
pub struct SettingsView {
    pub active: Seq<char>,
    pub workspaces: Map<Seq<char>, Seq<char>>,
    pub last: Option<Seq<char>>,
}

/// The mathematical content of `RawSettings`.
pub struct RawSettingsView {
    pub active: Option<Seq<char>>,
    pub workspaces: Option<Map<Seq<char>, Seq<char>>>,
    pub last: Option<Seq<char>>,
}

/// An optional string, as an optional character sequence.
pub open spec fn opt_view(o: Option<String>) -> Option<Seq<char>> {
    match o {
        Some(s) => Some(s@),
        None => None,
    }
}

/// The paths of a workspace map, as character sequences.
pub open spec fn paths_view(m: Map<Seq<char>, String>) -> Map<Seq<char>, Seq<char>> {
    m.map_values(|v: String| v@)
}

impl View for Settings {
    type V = SettingsView;

    open spec fn view(&self) -> SettingsView {
        SettingsView {
            active: self.active_workspace@,
            workspaces: paths_view(self.workspaces@),
            last: opt_view(self.last_launched_profile),
        }
    }
}

impl View for RawSettings {
    type V = RawSettingsView;

    open spec fn view(&self) -> RawSettingsView {
        RawSettingsView {
            active: opt_view(self.active_workspace),
            workspaces: match self.workspaces {
                Some(m) => Some(paths_view(m@)),
                None => None,
            },
            last: opt_view(self.last_launched_profile),
        }
    }
}

/// The active workspace is one of the workspaces.
pub open spec fn settings_wf(s: SettingsView) -> bool {
    s.workspaces.contains_key(s.active)
}

impl Settings {
    /// The active workspace is one of the workspaces.
    pub open spec fn wf(&self) -> bool {
        settings_wf(self@)
    }
}

// ---- Messages --------------------------------------------------------------

pub open spec fn not_found_msg(label: Seq<char>) -> Seq<char> {
    "Workspace \""@ + label + "\" does not exist"@
}

pub open spec fn exists_msg(slug: Seq<char>) -> Seq<char> {
    "Workspace \""@ + slug + "\" already exists"@
}

pub open spec fn empty_label_msg() -> Seq<char> {
    "Workspace label must contain at least one alphanumeric character"@
}

pub open spec fn active_delete_msg(label: Seq<char>) -> Seq<char> {
    "Cannot delete active workspace \""@ + label + "\". Switch to another workspace first."@
}

fn not_found_error(label: &str) -> (e: AppError)
    ensures
        e matches AppError::Other(m) && m@ == not_found_msg(label@),
{
    AppError::Other(concat3("Workspace \"", label, "\" does not exist"))
}

fn exists_error(slug: &str) -> (e: AppError)
    ensures
        e matches AppError::Other(m) && m@ == exists_msg(slug@),
{
    AppError::Other(concat3("Workspace \"", slug, "\" already exists"))
}

fn empty_label_error() -> (e: AppError)
    ensures
        e matches AppError::Other(m) && m@ == empty_label_msg(),
{
    AppError::Other(to_owned_string("Workspace label must contain at least one alphanumeric character"))
}

// ---- Operations, as functions of the view ----------------------------------

/// Making `label` the active workspace.
pub open spec fn set_active_spec(s: SettingsView, label: Seq<char>) -> Result<SettingsView, Seq<char>> {
    if !s.workspaces.contains_key(label) {
        Err(not_found_msg(label))
    } else {
        Ok(SettingsView { active: label, workspaces: s.workspaces, last: s.last })
    }
}

/// Registering a workspace under the slug of `label`; yields the slug.
pub open spec fn add_spec(s: SettingsView, label: Seq<char>, path: Seq<char>) -> Result<
    (SettingsView, Seq<char>),
    Seq<char>,
> {
    let slug = slug_spec(label);
    if slug.len() == 0 {
        Err(empty_label_msg())
    } else if s.workspaces.contains_key(slug) {
        Err(exists_msg(slug))
    } else {
        Ok((SettingsView { active: s.active, workspaces: s.workspaces.insert(slug, path), last: s.last }, slug))
    }
}

/// Moving workspace `old` to the slug of `new_label`; yields the new slug.
pub open spec fn rename_spec(s: SettingsView, old: Seq<char>, new_label: Seq<char>) -> Result<
    (SettingsView, Seq<char>),
    Seq<char>,
> {
    let ns = slug_spec(new_label);
    if ns.len() == 0 {
        Err(empty_label_msg())
    } else if !s.workspaces.contains_key(old) {
        Err(not_found_msg(old))
    } else if ns == old {
        Ok((s, ns))
    } else if s.workspaces.contains_key(ns) {
        Err(exists_msg(ns))
    } else {
        Ok(
            (
                SettingsView {
                    active: if s.active == old {
                        ns
                    } else {
                        s.active
                    },
                    workspaces: s.workspaces.remove(old).insert(ns, s.workspaces[old]),
                    last: s.last,
                },
                ns,
            ),
        )
    }
}

/// Pointing workspace `label` at `path`.
pub open spec fn update_path_spec(s: SettingsView, label: Seq<char>, path: Seq<char>) -> Result<
    SettingsView,
    Seq<char>,
> {
    if !s.workspaces.contains_key(label) {
        Err(not_found_msg(label))
    } else {
        Ok(SettingsView { active: s.active, workspaces: s.workspaces.insert(label, path), last: s.last })
    }
}

/// Dropping workspace `label`, which must not be the active one.
pub open spec fn remove_spec(s: SettingsView, label: Seq<char>) -> Result<SettingsView, Seq<char>> {
    if !s.workspaces.contains_key(label) {
        Err(not_found_msg(label))
    } else if s.active == label {
        Err(active_delete_msg(label))
    } else {
        Ok(SettingsView { active: s.active, workspaces: s.workspaces.remove(label), last: s.last })
    }
}

// ---- Normalisation ---------------------------------------------------------

/// The entries of `m` whose path is not empty.
pub open spec fn nonempty_paths(m: Map<Seq<char>, Seq<char>>) -> Map<Seq<char>, Seq<char>> {
    Map::new(|k: Seq<char>| m.contains_key(k) && m[k].len() > 0, |k: Seq<char>| m[k])
}

/// `normalize(raw, default_path)` may give `(s, dirty)`: workspaces with an
/// empty path are dropped; if none remain, a single `default` workspace at
/// `default_path` takes their place and becomes active; otherwise the stored
/// active label is kept when it names a workspace, and some workspace is
/// chosen when it does not. `dirty` says whether the stored file differs from
/// the result in a way that calls for writing it back.
pub open spec fn normalize_rel(raw: RawSettingsView, default_path: Seq<char>, s: SettingsView, dirty: bool) -> bool {
    let w = match raw.workspaces {
        Some(m) => m,
        None => Map::empty(),
    };
    let kept = nonempty_paths(w);
    let stored_active = match raw.active {
        Some(a) => a,
        None => Seq::<char>::empty(),
    };
    &&& s.last == raw.last
    &&& settings_wf(s)
    &&& if w =~= Map::empty() {
        &&& s.workspaces == map![DEFAULT_WORKSPACE_LABEL@ => default_path]
        &&& s.active == DEFAULT_WORKSPACE_LABEL@
        &&& dirty == (raw.workspaces is None || default_path.len() == 0)
    } else if kept =~= Map::empty() {
        &&& s.workspaces == map![DEFAULT_WORKSPACE_LABEL@ => default_path]
        &&& s.active == DEFAULT_WORKSPACE_LABEL@
        &&& dirty
    } else {
        &&& s.workspaces == kept
        &&& kept.contains_key(stored_active) ==> s.active == stored_active
        &&& dirty == !kept.contains_key(stored_active)
    }
}

/// The entries of `m` whose value is not empty, in their order.
fn retain_nonempty(m: StrMap<String>) -> (r: StrMap<String>)
    ensures
        paths_view(r@) == nonempty_paths(paths_view(m@)),
{
    let pairs = m.pairs();
    let mut r: StrMap<String> = StrMap::new();
    let mut i: usize = 0;
    while i < pairs.len()
        invariant
            pairs@ == m.seq(),
            vstd::prelude::Seq::len(pairs@) == pairs.len(),
            crate::strmap::distinct_keys(m.seq()),
            forall|k: Seq<char>|
                #![trigger m@.contains_key(k)]
                m@.contains_key(k) <==> exists|j: int| 0 <= j < m.seq().len() && m.seq()[j].0@ == k,
            forall|j: int| #![trigger m.seq()[j]] 0 <= j < m.seq().len() ==> m@[m.seq()[j].0@] == m.seq()[j].1,
            0 <= i <= pairs@.len(),
            forall|k: Seq<char>|
                #![trigger r@.contains_key(k)]
                r@.contains_key(k) <==> exists|j: int|
                    0 <= j < i && pairs@[j].0@ == k && pairs@[j].1@.len() > 0,
            forall|k: Seq<char>| #[trigger] r@.contains_key(k) ==> r@[k] == m@[k],
        decreases pairs.len() - i,
    {
        let key = &pairs[i].0;
        let val = &pairs[i].1;
        if !val.as_str().is_empty() {
            let ghost before = r@;
            r.insert(key.clone(), val.clone());
            proof {
                assert(m.seq()[i as int] == pairs@[i as int]);
                assert forall|k: Seq<char>| r@.contains_key(k) <==> exists|j: int|
                    0 <= j < i + 1 && pairs@[j].0@ == k && pairs@[j].1@.len() > 0 by {
                    if k != key@ && r@.contains_key(k) {
                        assert(before.contains_key(k));
                    }
                    if exists|j: int| 0 <= j < i + 1 && pairs@[j].0@ == k && pairs@[j].1@.len() > 0 {
                        let j = choose|j: int| 0 <= j < i + 1 && pairs@[j].0@ == k && pairs@[j].1@.len() > 0;
                        if j < i {
                            assert(before.contains_key(k));
                        }
                    }
                }
            }
        } else {
            proof {
                assert forall|k: Seq<char>| r@.contains_key(k) <==> exists|j: int|
                    0 <= j < i + 1 && pairs@[j].0@ == k && pairs@[j].1@.len() > 0 by {
                    if exists|j: int| 0 <= j < i + 1 && pairs@[j].0@ == k && pairs@[j].1@.len() > 0 {
                        let j = choose|j: int| 0 <= j < i + 1 && pairs@[j].0@ == k && pairs@[j].1@.len() > 0;
                        assert(j != i);
                    }
                }
            }
        }
        i += 1;
    }
    proof {
        let a = paths_view(r@);
        let b = nonempty_paths(paths_view(m@));
        assert forall|k: Seq<char>| a.contains_key(k) <==> b.contains_key(k) by {
            if a.contains_key(k) {
                let j = choose|j: int| 0 <= j < i && pairs@[j].0@ == k && pairs@[j].1@.len() > 0;
                assert(m.seq()[j] == pairs@[j]);
            }
            if b.contains_key(k) {
                let j = choose|j: int| 0 <= j < m.seq().len() && m.seq()[j].0@ == k;
                assert(m.seq()[j] == pairs@[j]);
            }
        }
        assert(a =~= b);
    }
    r
}

/// Repairs settings as read from disk (see `normalize_rel`). Of the possible
/// choices of active workspace when the stored one is gone, this picks the
/// first remaining workspace.
pub fn normalize(raw: RawSettings, default_path: &str) -> (r: (Settings, bool))
    ensures
        normalize_rel(raw@, default_path@, r.0@, r.1),
        r.0.wf(),
{
    let ghost raw_view = raw@;
    let mut dirty = false;
    let had_none = raw.workspaces.is_none();
    let mut active: Option<String> = raw.active_workspace;
    let mut ws: StrMap<String> = match raw.workspaces {
        Some(m) => m,
        None => StrMap::new(),
    };
    let ghost w = paths_view(ws@);
    assert(w == match raw_view.workspaces {
        Some(m) => m,
        None => Map::<Seq<char>, Seq<char>>::empty(),
    });
    let was_empty = ws.is_empty();
    let _ = ws.pairs();
    proof {
        if was_empty {
            assert(ws@.dom() =~= Set::<Seq<char>>::empty());
            assert(w =~= Map::empty());
        } else {
            assert(!(w =~= Map::empty())) by {
                assert(ws@.dom().len() > 0);
                if w =~= Map::<Seq<char>, Seq<char>>::empty() {
                    assert(ws@.dom() =~= Set::<Seq<char>>::empty());
                }
            }
        }
    }
    if was_empty {
        ws.insert(to_owned_string(DEFAULT_WORKSPACE_LABEL), to_owned_string(default_path));
        active = Some(to_owned_string(DEFAULT_WORKSPACE_LABEL));
        dirty = dirty || had_none;
    }
    let mut kept = retain_nonempty(ws);
    let kept_empty = kept.is_empty();
    let _ = kept.pairs();
    proof {
        if kept_empty {
            assert(paths_view(kept@) =~= Map::empty());
        } else {
            assert(!(paths_view(kept@) =~= Map::<Seq<char>, Seq<char>>::empty())) by {
                if paths_view(kept@) =~= Map::<Seq<char>, Seq<char>>::empty() {
                    assert(kept@.dom() =~= Set::<Seq<char>>::empty());
                }
            }
        }
    }
    if kept_empty {
        kept.insert(to_owned_string(DEFAULT_WORKSPACE_LABEL), to_owned_string(default_path));
        active = Some(to_owned_string(DEFAULT_WORKSPACE_LABEL));
        dirty = true;
    }
    let active_s = match active {
        Some(a) => a,
        None => String::new(),
    };
    let chosen = if kept.contains_key(active_s.as_str()) {
        active_s
    } else {
        dirty = true;
        let pairs = kept.pairs();
        let first = pairs[0].0.clone();
        proof {
            assert(kept@.contains_key(pairs@[0].0@));
        }
        first
    };
    let s = Settings { active_workspace: chosen, workspaces: kept, last_launched_profile: raw.last_launched_profile };
    proof {
        let kv = nonempty_paths(w);
        if was_empty {
            assert(paths_view(s.workspaces@) =~= map![DEFAULT_WORKSPACE_LABEL@ => default_path@]) by {
                reveal_strlit("default");
            }
        } else if kept_empty {
            assert(kv =~= Map::empty());
            assert(paths_view(s.workspaces@) =~= map![DEFAULT_WORKSPACE_LABEL@ => default_path@]);
        } else {
            assert(paths_view(s.workspaces@) == kv);
        }
    }
    (s, dirty)
}

// ---- Operations ------------------------------------------------------------

/// The slug of a workspace label (see `crate::slug`).
pub fn slugify_label(name: &str) -> (r: String)
    ensures
        r@ == slug_spec(name@),
{
    crate::slug::slugify(name)
}

/// All workspaces, keyed by label.
pub fn list_workspaces(s: Settings) -> (r: StrMap<String>)
    ensures
        r@ == s.workspaces@,
        r.seq() == s.workspaces.seq(),
{
    s.workspaces
}

/// The active workspace's label and path.
pub fn get_active_workspace(s: &Settings) -> (r: (String, String))
    requires
        s.wf(),
    ensures
        r.0@ == s@.active,
        r.1@ == s@.workspaces[s@.active],
{
    match s.workspaces.get(s.active_workspace.as_str()) {
        Some(p) => (s.active_workspace.clone(), p.clone()),
        None => {
            assert(false);
            (String::new(), String::new())
        },
    }
}

/// The slug of the credential launched last, if any.
pub fn get_last_launched_profile(s: Settings) -> (r: Option<String>)
    ensures
        opt_view(r) == s@.last,
{
    s.last_launched_profile
}

/// Records `slug` as the credential launched last.
pub fn update_last_launched_profile(s: &mut Settings, slug: &str)
    ensures
        final(s)@ == (SettingsView { active: old(s)@.active, workspaces: old(s)@.workspaces, last: Some(slug@) }),
{
    s.last_launched_profile = Some(to_owned_string(slug));
}

/// Makes `label` the active workspace.
pub fn set_active_workspace(s: &mut Settings, label: &str) -> (r: Result<(), AppError>)
    ensures
        match r {
            Ok(()) => set_active_spec(old(s)@, label@) == Ok::<SettingsView, Seq<char>>(final(s)@),
            Err(AppError::Other(m)) => set_active_spec(old(s)@, label@) == Err::<SettingsView, Seq<char>>(m@)
                && final(s)@ == old(s)@,
            Err(_) => false,
        },
{
    if !s.workspaces.contains_key(label) {
        return Err(not_found_error(label));
    }
    s.active_workspace = to_owned_string(label);
    Ok(())
}

/// Registers a workspace at `workspace_path` under the slug of `label`, which
/// must be new; returns the slug.
pub fn add_workspace(s: &mut Settings, label: &str, workspace_path: &str) -> (r: Result<String, AppError>)
    ensures
        match r {
            Ok(slug) => add_spec(old(s)@, label@, workspace_path@) == Ok::<(SettingsView, Seq<char>), Seq<char>>(
                (final(s)@, slug@),
            ),
            Err(AppError::Other(m)) => add_spec(old(s)@, label@, workspace_path@) == Err::<
                (SettingsView, Seq<char>),
                Seq<char>,
            >(m@) && final(s)@ == old(s)@,
            Err(_) => false,
        },
{
    let slug = slugify_label(label);
    if slug.as_str().is_empty() {
        return Err(empty_label_error());
    }
    if s.workspaces.contains_key(slug.as_str()) {
        return Err(exists_error(slug.as_str()));
    }
    let ghost before = s.workspaces@;
    s.workspaces.insert(slug.clone(), to_owned_string(workspace_path));
    assert(paths_view(s.workspaces@) =~= paths_view(before).insert(slug@, workspace_path@));
    Ok(slug)
}

/// Moves workspace `old_label` to the slug of `new_label`; the active label
/// follows. Returns the new slug.
pub fn rename_workspace(s: &mut Settings, old_label: &str, new_label: &str) -> (r: Result<String, AppError>)
    ensures
        match r {
            Ok(slug) => rename_spec(old(s)@, old_label@, new_label@) == Ok::<
                (SettingsView, Seq<char>),
                Seq<char>,
            >((final(s)@, slug@)),
            Err(AppError::Other(m)) => rename_spec(old(s)@, old_label@, new_label@) == Err::<
                (SettingsView, Seq<char>),
                Seq<char>,
            >(m@) && final(s)@ == old(s)@,
            Err(_) => false,
        },
{
    let new_slug = slugify_label(new_label);
    if new_slug.as_str().is_empty() {
        return Err(empty_label_error());
    }
    if !s.workspaces.contains_key(old_label) {
        return Err(not_found_error(old_label));
    }
    if str_eq(new_slug.as_str(), old_label) {
        return Ok(new_slug);
    }
    if s.workspaces.contains_key(new_slug.as_str()) {
        return Err(exists_error(new_slug.as_str()));
    }
    let ghost before = s.workspaces@;
    let path = match s.workspaces.remove(old_label) {
        Some(p) => p,
        None => {
            assert(false);
            String::new()
        },
    };
    s.workspaces.insert(new_slug.clone(), path);
    assert(paths_view(s.workspaces@) =~= paths_view(before).remove(old_label@).insert(
        new_slug@,
        paths_view(before)[old_label@],
    ));
    if str_eq(s.active_workspace.as_str(), old_label) {
        s.active_workspace = new_slug.clone();
    }
    Ok(new_slug)
}

/// Points workspace `label` at `new_path`.
pub fn update_workspace_path(s: &mut Settings, label: &str, new_path: &str) -> (r: Result<(), AppError>)
    ensures
        match r {
            Ok(()) => update_path_spec(old(s)@, label@, new_path@) == Ok::<SettingsView, Seq<char>>(final(s)@),
            Err(AppError::Other(m)) => update_path_spec(old(s)@, label@, new_path@) == Err::<
                SettingsView,
                Seq<char>,
            >(m@) && final(s)@ == old(s)@,
            Err(_) => false,
        },
{
    if !s.workspaces.contains_key(label) {
        return Err(not_found_error(label));
    }
    let ghost before = s.workspaces@;
    s.workspaces.insert(to_owned_string(label), to_owned_string(new_path));
    assert(paths_view(s.workspaces@) =~= paths_view(before).insert(label@, new_path@));
    Ok(())
}

/// Removes workspace `label`; the active workspace cannot be removed.
pub fn remove_workspace(s: &mut Settings, label: &str) -> (r: Result<(), AppError>)
    ensures
        match r {
            Ok(()) => remove_spec(old(s)@, label@) == Ok::<SettingsView, Seq<char>>(final(s)@),
            Err(AppError::Other(m)) => remove_spec(old(s)@, label@) == Err::<SettingsView, Seq<char>>(m@)
                && final(s)@ == old(s)@,
            Err(_) => false,
        },
{
    if !s.workspaces.contains_key(label) {
        return Err(not_found_error(label));
    }
    if str_eq(s.active_workspace.as_str(), label) {
        return Err(AppError::Other(
            concat3("Cannot delete active workspace \"", label, "\". Switch to another workspace first."),
        ));
    }
    let ghost before = s.workspaces@;
    let _ = s.workspaces.remove(label);
    assert(paths_view(s.workspaces@) =~= paths_view(before).remove(label@));
    Ok(())
}

/// The credentials file in use: the run's override when one is given,
/// otherwise the active workspace's path.
pub fn get_config_path(runtime_override: &Option<String>, s: &Settings) -> (r: String)
    requires
        s.wf(),
    ensures
        r@ == match runtime_override {
            Some(p) => p@,
            None => s@.workspaces[s@.active],
        },
{
    match runtime_override {
        Some(p) => p.clone(),
        None => {
            let (_, path) = get_active_workspace(s);
            path
        },
    }
}

// ---- Laws ------------------------------------------------------------------

/// Law: every operation that succeeds keeps the active workspace among the
/// workspaces.
pub proof fn lemma_ops_keep_wf(
    s: SettingsView,
    label: Seq<char>,
    other: Seq<char>,
    path: Seq<char>,
)
    requires
        settings_wf(s),
    ensures
        set_active_spec(s, label) matches Ok(t) ==> settings_wf(t),
        add_spec(s, label, path) matches Ok((t, _)) ==> settings_wf(t),
        rename_spec(s, label, other) matches Ok((t, _)) ==> settings_wf(t),
        update_path_spec(s, label, path) matches Ok(t) ==> settings_wf(t),
        remove_spec(s, label) matches Ok(t) ==> settings_wf(t),
{
}

/// Law: after making a workspace active, the active workspace is that label
/// with its path.
pub proof fn lemma_set_active_then_get(s: SettingsView, label: Seq<char>)
    requires
        s.workspaces.contains_key(label),
    ensures
        set_active_spec(s, label) matches Ok(t) && t.active == label && t.workspaces[t.active]
            == s.workspaces[label],
{
}

/// Law: adding a workspace and then removing the slug it was added under
/// gives back the original settings.
pub proof fn lemma_add_then_remove(s: SettingsView, label: Seq<char>, path: Seq<char>)
    requires
        settings_wf(s),
    ensures
        add_spec(s, label, path) matches Ok((t, slug)) ==> remove_spec(t, slug) == Ok::<SettingsView, Seq<char>>(s),
{
    if let Ok((t, slug)) = add_spec(s, label, path) {
        assert(t.workspaces.remove(slug) =~= s.workspaces);
    }
}

/// Law: renaming keeps the path under the new slug, drops the old label, keeps
/// every other workspace, and the active label follows the rename.
pub proof fn lemma_rename_moves_path(s: SettingsView, old: Seq<char>, new_label: Seq<char>, other: Seq<char>)
    ensures
        rename_spec(s, old, new_label) matches Ok((t, ns)) ==> {
            &&& t.workspaces.contains_key(ns)
            &&& t.workspaces[ns] == s.workspaces[old]
            &&& ns != old ==> !t.workspaces.contains_key(old)
            &&& (other != old && other != ns) ==> (t.workspaces.contains_key(other) == s.workspaces.contains_key(
                other,
            ) && (s.workspaces.contains_key(other) ==> t.workspaces[other] == s.workspaces[other]))
            &&& s.active == old ==> t.active == ns
            &&& s.active != old ==> t.active == s.active
        },
{
}

/// Law: the active workspace cannot be removed.
pub proof fn lemma_remove_active_refused(s: SettingsView)
    requires
        settings_wf(s),
    ensures
        remove_spec(s, s.active) == Err::<SettingsView, Seq<char>>(active_delete_msg(s.active)),
{
}

/// The file contents written for settings `s`.
pub open spec fn stored(s: SettingsView) -> RawSettingsView {
    RawSettingsView { active: Some(s.active), workspaces: Some(s.workspaces), last: s.last }
}

/// Law: settings whose workspaces all have a path come back unchanged, and
/// clean, when what is written for them is read again.
pub proof fn lemma_store_then_normalize(s: SettingsView, default_path: Seq<char>, t: SettingsView, dirty: bool)
    requires
        settings_wf(s),
        forall|k: Seq<char>| #[trigger] s.workspaces.contains_key(k) ==> s.workspaces[k].len() > 0,
        normalize_rel(stored(s), default_path, t, dirty),
    ensures
        t == s,
        !dirty,
{
    let w = s.workspaces;
    assert(nonempty_paths(w) =~= w);
    assert(!(w =~= Map::empty())) by {
        assert(w.contains_key(s.active));
    }
    assert(t.workspaces == s.workspaces);
}


/// Law: with a non-empty default path, repaired settings have a path for
/// every workspace, so the active workspace's credentials file is named.
pub proof fn lemma_normalize_paths_nonempty(raw: RawSettingsView, default_path: Seq<char>, s: SettingsView, dirty: bool)
    requires
        default_path.len() > 0,
        normalize_rel(raw, default_path, s, dirty),
    ensures
        forall|k: Seq<char>| #[trigger] s.workspaces.contains_key(k) ==> s.workspaces[k].len() > 0,
        s.workspaces[s.active].len() > 0,
{
}

} // verus!

verus! {

// ---- Paths typed by the user ------------------------------------------------

/// `base` joined with `rest` as a Unix path: an absolute `rest` replaces
/// `base`; otherwise a `/` separates them unless `base` is empty or already
/// ends with one.
pub open spec fn join_path(base: Seq<char>, rest: Seq<char>) -> Seq<char> {
    if rest.len() > 0 && rest[0] == '/' {
        rest
    } else if base.len() > 0 && base.last() != '/' {
        base + seq!['/'] + rest
    } else {
        base + rest
    }
}

/// A typed path made absolute: trimmed, a leading `~` (alone or before
/// `/`) stands for the home directory (`.` when unknown), and a relative
/// result is taken from the current directory (`.` when unknown).
pub open spec fn expand_path_spec(input: Seq<char>, home: Option<Seq<char>>, cwd: Option<Seq<char>>) -> Seq<char> {
    let t = crate::text::trim_spec(input);
    let h = match home {
        Some(h) => h,
        None => seq!['.'],
    };
    let e = if t == seq!['~'] {
        h
    } else if crate::text::starts_with_spec(t, seq!['~', '/']) {
        join_path(h, t.skip(2))
    } else {
        t
    };
    if e.len() > 0 && e[0] == '/' {
        e
    } else {
        join_path(
            match cwd {
                Some(c) => c,
                None => seq!['.'],
            },
            e,
        )
    }
}

/// `base` joined with `rest` (see `join_path`).
pub fn join_path_exec(base: &str, rest: &str) -> (r: String)
    ensures
        r@ == join_path(base@, rest@),
{
    let b = crate::text::chars_of(base);
    let q = crate::text::chars_of(rest);
    if q.len() > 0 && q[0] == '/' {
        return to_owned_string(rest);
    }
    let mut r = to_owned_string(base);
    if b.len() > 0 && b[b.len() - 1] != '/' {
        crate::text::push_char(&mut r, '/');
    }
    crate::text::append_str(&mut r, rest);
    r
}

/// Makes a typed path absolute (see `expand_path_spec`), given the home
/// and current directories where known.
pub fn expand_path(input: &str, home: &Option<String>, cwd: &Option<String>) -> (r: String)
    ensures
        r@ == expand_path_spec(input@, opt_view(*home), opt_view(*cwd)),
{
    let t = crate::text::trim(input);
    let h = match home {
        Some(h) => h.clone(),
        None => to_owned_string("."),
    };
    let tc = crate::text::chars_of(t.as_str());
    proof {
        reveal_strlit(".");
        reveal_strlit("~");
        reveal_strlit("~/");
        assert("."@ =~= seq!['.']);
        assert("~"@ =~= seq!['~']);
        assert("~/"@ =~= seq!['~', '/']);
    }
    let e = if str_eq(t.as_str(), "~") {
        h
    } else if crate::text::starts_with(t.as_str(), "~/") {
        let rest = crate::text::string_from_range(&tc, 2, tc.len());
        assert(rest@ =~= t@.skip(2));
        join_path_exec(h.as_str(), rest.as_str())
    } else {
        t
    };
    let ec = crate::text::chars_of(e.as_str());
    if ec.len() > 0 && ec[0] == '/' {
        return e;
    }
    let c = match cwd {
        Some(c) => c.clone(),
        None => to_owned_string("."),
    };
    join_path_exec(c.as_str(), e.as_str())
}

} // verus!
