use provider_launcher::error::AppError;
use provider_launcher::settings::{
    add_workspace, expand_path, get_active_workspace, get_config_path, normalize, remove_workspace, rename_workspace,
    set_active_workspace, update_last_launched_profile, update_workspace_path, RawSettings, Settings,
};
use provider_launcher::strmap::StrMap;

fn ws(entries: &[(&str, &str)]) -> StrMap<String> {
    let mut m = StrMap::new();
    for (k, v) in entries {
        m.insert(k.to_string(), v.to_string());
    }
    m
}

fn settings(active: &str, entries: &[(&str, &str)]) -> Settings {
    Settings { active_workspace: active.to_string(), workspaces: ws(entries), last_launched_profile: None }
}

fn other(e: AppError) -> String {
    match e {
        AppError::Other(m) => m,
        _ => panic!("expected a message"),
    }
}

#[test]
fn normalize_fresh_file_creates_default_workspace() {
    let raw = RawSettings { active_workspace: None, workspaces: None, last_launched_profile: None };
    let (s, dirty) = normalize(raw, "/cfg/default.json");
    assert!(dirty);
    assert_eq!(s.active_workspace, "default");
    assert_eq!(s.workspaces.get("default").map(|p| p.as_str()), Some("/cfg/default.json"));
    assert_eq!(s.workspaces.len(), 1);
}

#[test]
fn normalize_drops_empty_paths_and_repairs_active() {
    let raw = RawSettings {
        active_workspace: Some("gone".to_string()),
        workspaces: Some(ws(&[("a", "/a.json"), ("empty", "")])),
        last_launched_profile: Some("x".to_string()),
    };
    let (s, dirty) = normalize(raw, "/cfg/default.json");
    assert!(dirty);
    assert_eq!(s.active_workspace, "a");
    assert!(!s.workspaces.contains_key("empty"));
    assert_eq!(s.last_launched_profile.as_deref(), Some("x"));
}

#[test]
fn normalize_keeps_clean_settings() {
    let raw = RawSettings {
        active_workspace: Some("b".to_string()),
        workspaces: Some(ws(&[("a", "/a.json"), ("b", "/b.json")])),
        last_launched_profile: None,
    };
    let (s, dirty) = normalize(raw, "/cfg/default.json");
    assert!(!dirty);
    assert_eq!(s.active_workspace, "b");
    assert_eq!(s.workspaces.len(), 2);
}

#[test]
fn stored_settings_read_back_unchanged() {
    let s = settings("work", &[("work", "/w.json"), ("home", "/h.json")]);
    let raw = RawSettings {
        active_workspace: Some(s.active_workspace.clone()),
        workspaces: Some(ws(&[("work", "/w.json"), ("home", "/h.json")])),
        last_launched_profile: None,
    };
    let (t, dirty) = normalize(raw, "/d.json");
    assert!(!dirty);
    assert_eq!(t.active_workspace, s.active_workspace);
    assert_eq!(t.workspaces.get("home").map(|p| p.as_str()), Some("/h.json"));
}

#[test]
fn set_active_then_active_is_that_workspace() {
    let mut s = settings("a", &[("a", "/a"), ("b", "/b")]);
    set_active_workspace(&mut s, "b").unwrap();
    let (label, path) = get_active_workspace(&s);
    assert_eq!(label, "b");
    assert_eq!(path, "/b");
}

#[test]
fn set_active_unknown_is_refused() {
    let mut s = settings("a", &[("a", "/a")]);
    let e = set_active_workspace(&mut s, "zz").unwrap_err();
    assert_eq!(other(e), "Workspace \"zz\" does not exist");
    assert_eq!(s.active_workspace, "a");
}

#[test]
fn add_workspace_slugifies_label() {
    let mut s = settings("a", &[("a", "/a")]);
    let slug = add_workspace(&mut s, "My Work", "/w.json").unwrap();
    assert_eq!(slug, "my-work");
    assert_eq!(s.workspaces.get("my-work").map(|p| p.as_str()), Some("/w.json"));
}

#[test]
fn add_workspace_errors() {
    let mut s = settings("a", &[("a", "/a")]);
    assert_eq!(other(add_workspace(&mut s, "A", "/x").unwrap_err()), "Workspace \"a\" already exists");
    assert_eq!(
        other(add_workspace(&mut s, "!!", "/x").unwrap_err()),
        "Workspace label must contain at least one alphanumeric character"
    );
}

#[test]
fn add_then_remove_restores_workspaces() {
    let mut s = settings("a", &[("a", "/a")]);
    let slug = add_workspace(&mut s, "new", "/n").unwrap();
    remove_workspace(&mut s, &slug).unwrap();
    assert_eq!(s.workspaces.len(), 1);
    assert!(s.workspaces.contains_key("a"));
}

#[test]
fn rename_moves_path_and_active_label() {
    let mut s = settings("old", &[("old", "/o"), ("x", "/x")]);
    let ns = rename_workspace(&mut s, "old", "New Name").unwrap();
    assert_eq!(ns, "new-name");
    assert_eq!(s.active_workspace, "new-name");
    assert_eq!(s.workspaces.get("new-name").map(|p| p.as_str()), Some("/o"));
    assert!(!s.workspaces.contains_key("old"));
    assert_eq!(other(rename_workspace(&mut s, "x", "new name").unwrap_err()), "Workspace \"new-name\" already exists");
    assert_eq!(other(rename_workspace(&mut s, "nope", "y").unwrap_err()), "Workspace \"nope\" does not exist");
}

#[test]
fn removing_the_active_workspace_is_refused() {
    let mut s = settings("a", &[("a", "/a"), ("b", "/b")]);
    let e = remove_workspace(&mut s, "a").unwrap_err();
    assert_eq!(other(e), "Cannot delete active workspace \"a\". Switch to another workspace first.");
    remove_workspace(&mut s, "b").unwrap();
    assert_eq!(s.workspaces.len(), 1);
}

#[test]
fn update_path_and_last_launched() {
    let mut s = settings("a", &[("a", "/a")]);
    update_workspace_path(&mut s, "a", "/new").unwrap();
    assert_eq!(s.workspaces.get("a").map(|p| p.as_str()), Some("/new"));
    assert_eq!(other(update_workspace_path(&mut s, "b", "/b").unwrap_err()), "Workspace \"b\" does not exist");
    update_last_launched_profile(&mut s, "prof");
    assert_eq!(s.last_launched_profile.as_deref(), Some("prof"));
}

#[test]
fn config_path_prefers_the_override() {
    let s = settings("a", &[("a", "/a.json")]);
    assert_eq!(get_config_path(&None, &s), "/a.json");
    assert_eq!(get_config_path(&Some("/tmp/x.json".to_string()), &s), "/tmp/x.json");
}

#[test]
fn expand_path_cases() {
    let home = Some("/home/u".to_string());
    let cwd = Some("/work".to_string());
    assert_eq!(expand_path("  ~  ", &home, &cwd), "/home/u");
    assert_eq!(expand_path("~/p.json", &home, &cwd), "/home/u/p.json");
    assert_eq!(expand_path("/abs/p.json", &home, &cwd), "/abs/p.json");
    assert_eq!(expand_path("rel/p.json", &home, &cwd), "/work/rel/p.json");
    assert_eq!(expand_path("rel", &None, &None), "./rel");
    assert_eq!(expand_path("~/x", &None, &Some("/c/".to_string())), "/c/./x");
    assert_eq!(expand_path("", &home, &cwd), "/work/");
}
