use provider_launcher::config::Credential;
use provider_launcher::settings::Settings;
use provider_launcher::strmap::StrMap;
use provider_launcher::tui::screens::add::{self, AddState, AddStep};
use provider_launcher::tui::screens::delete::{self, DeleteState, DeleteStep};
use provider_launcher::tui::screens::edit::{self, EditState, EditStep};
use provider_launcher::tui::screens::form::{Stored, TextInput};
use provider_launcher::tui::screens::help;
use provider_launcher::tui::screens::keys::{Key, KeyPress};
use provider_launcher::tui::screens::launch::{self, LaunchState};
use provider_launcher::tui::screens::main_menu::{self, MainMenuState, MenuNames, Target};
use provider_launcher::tui::screens::widgets::SelectList;
use provider_launcher::tui::screens::workspaces::{self, Places, SettingsState, SettingsStep};
use provider_launcher::tui::screens::{Action, Context, Screen};
use provider_launcher::tui::{finish_request, handle_key, App};

fn key(code: Key) -> KeyPress {
    KeyPress { code, ctrl: false }
}

fn ctrl(c: char) -> KeyPress {
    KeyPress { code: Key::Char(c), ctrl: true }
}

fn cred(name: &str, provider: &str, entries: &[(&str, &str)]) -> Credential {
    let mut m = StrMap::new();
    for (k, v) in entries {
        m.insert(k.to_string(), v.to_string());
    }
    Credential { name: name.to_string(), provider: provider.to_string(), env: m, statusline_enabled: false }
}

fn two_creds() -> StrMap<Credential> {
    let mut all = StrMap::new();
    all.insert("b".to_string(), cred("Beta", "zai", &[("ANTHROPIC_AUTH_TOKEN", "sk-00001111")]));
    all.insert("a".to_string(), cred("Alpha", "zai", &[]));
    all
}

fn stored(creds: StrMap<Credential>) -> Stored {
    Stored { loaded: true, creds }
}

#[test]
fn list_moves_and_filters() {
    let mut l = SelectList::new(vec![
        ("Alpha".to_string(), "one".to_string()),
        ("Beta".to_string(), "two".to_string()),
        ("Gamma".to_string(), "ALPHA too".to_string()),
    ]);
    l.move_up();
    assert_eq!(l.selected, 0);
    l.move_down();
    l.move_down();
    l.move_down();
    assert_eq!(l.selected, 2);
    l.push_filter_char('a');
    l.push_filter_char('L');
    assert_eq!(l.filtered_indices, vec![0, 2]);
    assert_eq!(l.selected, 1);
    assert_eq!(l.selected_original_index(), Some(2));
    l.push_filter_char('z');
    assert!(l.filtered_indices.is_empty());
    assert_eq!(l.selected_original_index(), None);
    l.pop_filter_char();
    assert_eq!(l.filtered_indices, vec![0, 2]);
    l.clear_filter();
    assert_eq!(l.filtered_indices, vec![0, 1, 2]);
}

fn names() -> MenuNames {
    MenuNames { assistant: "Assistant X".to_string(), launcher: "x-launcher".to_string() }
}

#[test]
fn main_menu_offers_last_launch_by_name() {
    let creds = two_creds();
    let m = MainMenuState::new(Some("a".to_string()), &creds, &names());
    assert_eq!(m.list.items.len(), 9);
    assert_eq!(m.list.items[0], ("Launch Last".to_string(), "Alpha".to_string()));
    let m2 = MainMenuState::new(Some("zz".to_string()), &creds, &names());
    assert_eq!(m2.list.items[0].1, "zz");
    let m3 = MainMenuState::new(None, &creds, &names());
    assert_eq!(m3.list.items.len(), 8);
    assert_eq!(m3.list.items[0], ("Launch with provider".to_string(), "run Assistant X with saved credentials".to_string()));
    assert_eq!(m3.list.items[5], ("Settings".to_string(), "configure x-launcher".to_string()));
    assert_eq!(m3.list.items[6], ("Help".to_string(), "about x-launcher".to_string()));
}

#[test]
fn main_menu_keys() {
    let creds = two_creds();
    let mut m = MainMenuState::new(Some("a".to_string()), &creds, &names());
    assert!(matches!(main_menu::handle_key(&mut m, key(Key::Enter)), main_menu::Nav::LaunchLast));
    assert!(matches!(main_menu::handle_key(&mut m, key(Key::Char('j'))), main_menu::Nav::Stay));
    assert!(matches!(main_menu::handle_key(&mut m, key(Key::Enter)), main_menu::Nav::GoTo(Target::Launch)));
    assert!(matches!(main_menu::handle_key(&mut m, key(Key::Down)), main_menu::Nav::Stay));
    assert!(matches!(main_menu::handle_key(&mut m, key(Key::Enter)), main_menu::Nav::LaunchDefault));
    assert!(matches!(main_menu::handle_key(&mut m, key(Key::Char('q'))), main_menu::Nav::Exit));
    assert!(matches!(main_menu::handle_key(&mut m, key(Key::Esc)), main_menu::Nav::Exit));
    assert!(matches!(main_menu::handle_key(&mut m, key(Key::Char('x'))), main_menu::Nav::Stay));
}

#[test]
fn launch_picker_lists_sorted_slugs_and_launches() {
    let creds = two_creds();
    let mut s = LaunchState::new(&creds);
    assert_eq!(s.slugs, vec!["a".to_string(), "b".to_string()]);
    assert_eq!(s.list.items[0], ("Alpha".to_string(), "zai · no key".to_string()));
    assert_eq!(s.list.items[1], ("Beta".to_string(), "zai · ****1111".to_string()));
    assert!(matches!(launch::handle_key(&mut s, key(Key::Down)), launch::Nav::Stay));
    match launch::handle_key(&mut s, key(Key::Enter)) {
        launch::Nav::Launch { slug, claude_args } => {
            assert_eq!(slug, "b");
            assert!(claude_args.is_empty());
        },
        _ => panic!("launch expected"),
    }
    assert!(matches!(launch::handle_key(&mut s, key(Key::Esc)), launch::Nav::Back));
}

#[test]
fn launch_picker_slash_does_not_start_a_filter() {
    let creds = two_creds();
    let mut s = LaunchState::new(&creds);
    launch::handle_key(&mut s, key(Key::Char('/')));
    launch::handle_key(&mut s, key(Key::Char('x')));
    assert!(s.list.filter.is_empty());
    launch::handle_key(&mut s, key(Key::Char('j')));
    assert_eq!(s.list.selected, 1);
}

#[test]
fn launch_picker_without_credentials_offers_to_add() {
    let mut s = LaunchState::new(&StrMap::new());
    assert!(s.empty);
    assert_eq!(s.list.items[0].0, "Add credentials");
    assert!(matches!(launch::handle_key(&mut s, key(Key::Enter)), launch::Nav::AddCredentials));
}

#[test]
fn delete_asks_before_removing() {
    let creds = two_creds();
    let mut d = DeleteState::new(&creds);
    assert!(matches!(delete::handle_key(&mut d, key(Key::Enter)), delete::Nav::Stay));
    assert!(d.step == DeleteStep::Confirm);
    assert_eq!(d.selected_slug.as_deref(), Some("a"));
    assert!(!d.confirm_yes);
    assert!(matches!(delete::handle_key(&mut d, key(Key::Tab)), delete::Nav::Stay));
    assert!(d.confirm_yes);
    match delete::handle_key(&mut d, key(Key::Enter)) {
        delete::Nav::Remove { slug } => assert_eq!(slug, "a"),
        _ => panic!("removal expected"),
    }
    assert!(matches!(delete::finish_remove(&mut d, Err("disk full".to_string())), delete::Nav::Stay));
    assert_eq!(d.status, "Failed to delete: disk full");
    assert!(d.is_error);
    assert!(matches!(delete::finish_remove(&mut d, Ok(())), delete::Nav::Back));
    assert_eq!(d.status, "Credentials \"Alpha\" deleted.");
}

#[test]
fn delete_confirm_defaults_to_no() {
    let creds = two_creds();
    let mut d = DeleteState::new(&creds);
    delete::handle_key(&mut d, key(Key::Enter));
    assert!(matches!(delete::handle_key(&mut d, key(Key::Enter)), delete::Nav::Back));
    let mut d2 = DeleteState::new(&creds);
    delete::handle_key(&mut d2, key(Key::Enter));
    assert!(matches!(delete::handle_key(&mut d2, key(Key::Char('n'))), delete::Nav::Back));
}

fn openrouter_stored() -> Stored {
    let mut creds = StrMap::new();
    creds.insert(
        "or".to_string(),
        cred(
            "Router",
            "openrouter",
            &[
                ("ANTHROPIC_AUTH_TOKEN", "tok"),
                ("CLAUDE_CODE_EXTRA_BODY", r#"{"provider":{"only":["x","y"],"allow_fallbacks":true}}"#),
            ],
        ),
    );
    Stored { loaded: true, creds }
}

#[test]
fn edit_form_fills_from_saved_values() {
    let st = openrouter_stored();
    let mut e = EditState::new(&st.creds);
    let (nav, input) = edit::handle_key(&mut e, key(Key::Enter), &st);
    assert!(matches!(nav, edit::Nav::Stay));
    assert!(matches!(input, TextInput::Nothing));
    assert!(e.step == EditStep::FillForm);
    assert_eq!(e.fields.len(), 11);
    assert_eq!(e.fields[0], "https://openrouter.ai/api");
    assert_eq!(e.fields[1], "tok");
    assert_eq!(e.fields[2], "");
    assert_eq!(e.fields[6], "x, y");
    assert_eq!(e.fields[9], "true");
}

#[test]
fn edit_form_toggles_and_saves() {
    let st = openrouter_stored();
    let mut e = EditState::new(&st.creds);
    edit::handle_key(&mut e, key(Key::Enter), &st);
    for _ in 0..9 {
        edit::handle_key(&mut e, key(Key::Tab), &st);
    }
    assert_eq!(e.field_cursor, 9);
    let (_, input) = edit::handle_key(&mut e, key(Key::Char('x')), &st);
    assert!(matches!(input, TextInput::Nothing));
    edit::handle_key(&mut e, key(Key::Char(' ')), &st);
    assert_eq!(e.fields[9], "false");
    let (_, input) = edit::handle_key(&mut e, key(Key::BackTab), &st);
    assert!(matches!(input, TextInput::Nothing));
    let (_, input) = edit::handle_key(&mut e, key(Key::Char('q')), &st);
    assert!(matches!(input, TextInput::Key(8)));
    let (_, input) = edit::handle_key(&mut e, ctrl('v'), &st);
    assert!(matches!(input, TextInput::Paste(8)));
    edit::handle_key(&mut e, key(Key::Tab), &st);
    edit::handle_key(&mut e, key(Key::Tab), &st);
    assert_eq!(e.field_cursor, 10);
    match edit::handle_key(&mut e, key(Key::Enter), &st).0 {
        edit::Nav::Save { slug, credential } => {
            assert_eq!(slug, "or");
            assert_eq!(credential.name, "Router");
            assert_eq!(credential.provider, "openrouter");
            assert_eq!(credential.env.len(), 3);
            assert_eq!(credential.env.get("ANTHROPIC_BASE_URL").map(|s| s.as_str()), Some("https://openrouter.ai/api"));
            assert_eq!(credential.env.get("ANTHROPIC_AUTH_TOKEN").map(|s| s.as_str()), Some("tok"));
            assert_eq!(
                credential.env.get("CLAUDE_CODE_EXTRA_BODY").map(|s| s.as_str()),
                Some(r#"{"provider":{"allow_fallbacks":false,"only":["x","y"]}}"#)
            );
        },
        _ => panic!("save expected"),
    }
    assert!(matches!(edit::finish_save(&mut e, "Router", Ok(())), edit::Nav::Back));
    assert_eq!(e.status, "Profile \"Router\" updated!");
}

#[test]
fn edit_form_reports_a_missing_required_field() {
    let st = openrouter_stored();
    let mut e = EditState::new(&st.creds);
    edit::handle_key(&mut e, key(Key::Enter), &st);
    e.fields[0] = "  ".to_string();
    e.field_cursor = 10;
    assert!(matches!(edit::handle_key(&mut e, key(Key::Enter), &st).0, edit::Nav::Stay));
    assert_eq!(e.status, "Required field missing: API Base URL");
    assert!(e.is_error);
}

#[test]
fn edit_form_of_deleted_credentials_goes_back() {
    let st = openrouter_stored();
    let mut e = EditState::new(&st.creds);
    edit::handle_key(&mut e, key(Key::Enter), &st);
    let empty = stored(StrMap::new());
    assert!(matches!(edit::handle_key(&mut e, key(Key::Tab), &empty).0, edit::Nav::Back));
}

fn pick_first_provider(a: &mut AddState, st: &Stored) {
    let (nav, _) = add::handle_key(a, key(Key::Enter), st);
    assert!(matches!(nav, add::Nav::Stay));
    assert!(a.step == AddStep::FillForm);
}

#[test]
fn add_form_starts_from_defaults() {
    let st = stored(StrMap::new());
    let mut a = AddState::new();
    assert_eq!(a.provider_list.items[0].0, "Any Anthropic or OpenAI Compatible");
    pick_first_provider(&mut a, &st);
    assert_eq!(a.provider_id.as_deref(), Some("anthropic-compatible"));
    assert_eq!(a.fields, vec!["http://localhost:8083", "", "", "", "", ""]);
    assert_eq!(a.field_cursor, 0);
    let (_, input) = add::handle_key(&mut a, key(Key::Char('W')), &st);
    assert!(matches!(input, TextInput::Key(0)));
}

#[test]
fn add_form_checks_before_saving() {
    let st = stored(StrMap::new());
    let mut a = AddState::new();
    pick_first_provider(&mut a, &st);
    a.field_cursor = 6;
    add::handle_key(&mut a, key(Key::Enter), &st);
    assert_eq!(a.status, "Name is required");
    assert_eq!(a.field_cursor, 0);
    a.name = "!!!".to_string();
    a.field_cursor = 6;
    add::handle_key(&mut a, key(Key::Enter), &st);
    assert_eq!(a.status, "Name produces an empty slug — use at least one alphanumeric character");
    a.name = "Box".to_string();
    a.fields[0] = String::new();
    add::handle_key(&mut a, key(Key::Enter), &st);
    assert_eq!(a.status, "Required field missing: Anthropic Compatible URL");
    assert!(a.is_error);
}

#[test]
fn add_form_saves_under_a_free_slug() {
    let mut creds = StrMap::new();
    creds.insert("work-box".to_string(), cred("Work Box", "zai", &[]));
    let st = stored(creds);
    let mut a = AddState::new();
    pick_first_provider(&mut a, &st);
    a.name = "  Work Box ".to_string();
    a.fields[1] = "secret".to_string();
    a.field_cursor = 6;
    match add::handle_key(&mut a, key(Key::Enter), &st).0 {
        add::Nav::Save { slug, credential } => {
            assert_eq!(slug, "work-box-2");
            assert_eq!(credential.name, "Work Box");
            assert_eq!(credential.provider, "anthropic-compatible");
            assert_eq!(credential.env.get("ANTHROPIC_BASE_URL").map(|s| s.as_str()), Some("http://localhost:8083"));
            assert_eq!(credential.env.get("ANTHROPIC_AUTH_TOKEN").map(|s| s.as_str()), Some("secret"));
            assert_eq!(credential.env.len(), 2);
            assert!(!credential.statusline_enabled);
            assert!(credential.env.get("CLAUDE_CODE_EXTRA_BODY").is_none());
        },
        _ => panic!("save expected"),
    }
    assert!(matches!(add::finish_save(&mut a, "Work Box", "work-box-2", Ok(())), add::Nav::Back));
    assert_eq!(a.status, "Profile \"Work Box\" saved as \"work-box-2\"!");
    assert!(matches!(add::finish_save(&mut a, "Work Box", "work-box-2", Err("denied".to_string())), add::Nav::Stay));
    assert_eq!(a.status, "Failed to save: denied");
}

#[test]
fn add_form_picks_an_effort_level() {
    let st = stored(StrMap::new());
    let mut a = AddState::new();
    pick_first_provider(&mut a, &st);
    a.field_cursor = 6;
    add::handle_key(&mut a, key(Key::Char(' ')), &st);
    let picker = a.choice_picker.as_ref().expect("picker open");
    assert_eq!(picker.field_index, 5);
    assert_eq!(picker.list.items.len(), 7);
    assert_eq!(picker.list.items[6].0, "Custom...");
    assert_eq!(picker.list.selected, 0);
    add::handle_key(&mut a, key(Key::Down), &st);
    add::handle_key(&mut a, key(Key::Enter), &st);
    assert!(a.choice_picker.is_none());
    assert_eq!(a.fields[5], "low");
    assert_eq!(a.status, "Effort level: low");
    add::handle_key(&mut a, key(Key::Char(' ')), &st);
    assert_eq!(a.choice_picker.as_ref().unwrap().list.selected, 1);
    add::handle_key(&mut a, key(Key::Esc), &st);
    assert!(a.choice_picker.is_none());
    assert_eq!(a.fields[5], "low");
}

#[test]
fn add_form_copies_from_saved_credentials() {
    let mut creds = StrMap::new();
    creds.insert(
        "src".to_string(),
        cred("Source", "anthropic-compatible", &[("ANTHROPIC_BASE_URL", "http://copy"), ("ANTHROPIC_AUTH_TOKEN", "sk-xyz12345")]),
    );
    creds.insert("other".to_string(), cred("Other", "zai", &[]));
    let st = stored(creds);
    let mut a = AddState::new();
    pick_first_provider(&mut a, &st);
    add::handle_key(&mut a, ctrl('r'), &st);
    assert!(a.step == AddStep::PickCopySource);
    let list = a.copy_source_list.as_ref().unwrap();
    assert_eq!(list.items.len(), 1);
    assert_eq!(list.items[0], ("Source".to_string(), "anthropic-compatible · ****2345".to_string()));
    add::handle_key(&mut a, key(Key::Enter), &st);
    assert!(a.step == AddStep::FillForm);
    assert_eq!(a.fields[0], "http://copy");
    assert_eq!(a.fields[1], "sk-xyz12345");
    assert_eq!(a.name, "");
    assert_eq!(a.status, "Fields copied from existing profile");
}

#[test]
fn add_form_copy_without_matching_credentials() {
    let st = stored(StrMap::new());
    let mut a = AddState::new();
    pick_first_provider(&mut a, &st);
    add::handle_key(&mut a, ctrl('r'), &st);
    assert!(a.step == AddStep::FillForm);
    assert_eq!(a.status, "No existing profiles for this provider");
    let unread = Stored { loaded: false, creds: StrMap::new() };
    add::handle_key(&mut a, ctrl('r'), &unread);
    assert_eq!(a.status, "Failed to load profiles");
}

fn places() -> Places {
    Places { default_path: "/cfg/default.json".to_string(), home: Some("/home/u".to_string()), cwd: Some("/w".to_string()) }
}

fn base_settings() -> Settings {
    let mut ws = StrMap::new();
    ws.insert("default".to_string(), "/cfg/default.json".to_string());
    Settings { active_workspace: "default".to_string(), workspaces: ws, last_launched_profile: None }
}

#[test]
fn settings_screen_adds_a_workspace() {
    let mut st = SettingsState::new();
    let mut s = base_settings();
    let p = places();
    workspaces::handle_key(&mut st, key(Key::Down), &mut s, &p);
    workspaces::handle_key(&mut st, key(Key::Enter), &mut s, &p);
    assert!(st.step == SettingsStep::AddLabel);
    assert_eq!(st.text_input2, "/cfg/default.json");
    let (_, input) = workspaces::handle_key(&mut st, key(Key::Char('T')), &mut s, &p);
    assert!(matches!(input, TextInput::Key(0)));
    st.text_input = "Default".to_string();
    workspaces::handle_key(&mut st, key(Key::Enter), &mut s, &p);
    assert_eq!(st.status, "Workspace \"default\" already exists.");
    st.text_input = " Team ".to_string();
    workspaces::handle_key(&mut st, key(Key::Enter), &mut s, &p);
    assert!(st.step == SettingsStep::AddPath);
    let (_, input) = workspaces::handle_key(&mut st, key(Key::Char('x')), &mut s, &p);
    assert!(matches!(input, TextInput::Key(1)));
    st.text_input2 = "~/team.json".to_string();
    let (nav, _) = workspaces::handle_key(&mut st, key(Key::Enter), &mut s, &p);
    assert!(matches!(nav, workspaces::Nav::Persist));
    assert_eq!(s.workspaces.get("team").map(|x| x.as_str()), Some("/home/u/team.json"));
    workspaces::finish_store(&mut st, Ok(()));
    assert!(st.step == SettingsStep::TopMenu);
    assert_eq!(st.status, "Workspace \"team\" added.");
}

#[test]
fn settings_screen_refuses_to_delete_the_active_workspace() {
    let mut st = SettingsState::new();
    let mut s = base_settings();
    let p = places();
    for _ in 0..3 {
        workspaces::handle_key(&mut st, key(Key::Down), &mut s, &p);
    }
    workspaces::handle_key(&mut st, key(Key::Enter), &mut s, &p);
    assert!(st.step == SettingsStep::DeleteWorkspace);
    assert_eq!(st.workspace_list.items[0].0, "default (active)");
    let (nav, _) = workspaces::handle_key(&mut st, key(Key::Enter), &mut s, &p);
    assert!(matches!(nav, workspaces::Nav::Stay));
    assert_eq!(st.status, "Cannot delete active workspace \"default\". Switch to another workspace first.");
    assert!(st.is_error);
    workspaces::handle_key(&mut st, key(Key::Esc), &mut s, &p);
    assert!(st.step == SettingsStep::TopMenu);
}

#[test]
fn settings_screen_renames_and_reports_write_failures() {
    let mut st = SettingsState::new();
    let mut s = base_settings();
    let p = places();
    workspaces::handle_key(&mut st, key(Key::Down), &mut s, &p);
    workspaces::handle_key(&mut st, key(Key::Down), &mut s, &p);
    workspaces::handle_key(&mut st, key(Key::Enter), &mut s, &p);
    assert!(st.step == SettingsStep::EditWorkspaceMenu);
    workspaces::handle_key(&mut st, key(Key::Enter), &mut s, &p);
    assert!(st.step == SettingsStep::EditActionMenu);
    assert_eq!(st.target, "default");
    workspaces::handle_key(&mut st, key(Key::Down), &mut s, &p);
    workspaces::handle_key(&mut st, key(Key::Enter), &mut s, &p);
    assert!(st.step == SettingsStep::EditRename);
    assert_eq!(st.text_input, "default");
    st.text_input = "Main".to_string();
    let (nav, _) = workspaces::handle_key(&mut st, key(Key::Enter), &mut s, &p);
    assert!(matches!(nav, workspaces::Nav::Persist));
    assert_eq!(s.active_workspace, "main");
    workspaces::finish_store(&mut st, Err("read-only".to_string()));
    assert!(st.step == SettingsStep::EditRename);
    assert_eq!(st.status, "read-only");
}

#[test]
fn help_goes_back() {
    assert!(matches!(help::handle_key(key(Key::Char('q'))), help::Nav::Back));
    assert!(matches!(help::handle_key(key(Key::Enter)), help::Nav::Back));
    assert!(matches!(help::handle_key(key(Key::Up)), help::Nav::Stay));
}

fn context() -> Context {
    Context { settings: base_settings(), stored: stored(two_creds()), places: places(), names: names() }
}

#[test]
fn app_launches_from_the_picker_and_remembers() {
    let mut ctx = context();
    let mut app = App::new(&ctx);
    assert_eq!(app.profile_label, "default");
    assert_eq!(app.profile_path, "/cfg/default.json");
    let (action, _) = handle_key(&mut app, key(Key::Enter), &mut ctx);
    assert!(matches!(action, Action::Continue));
    assert!(matches!(app.screen, Screen::Launch(_)));
    let (action, _) = handle_key(&mut app, key(Key::Enter), &mut ctx);
    match action {
        Action::LaunchClaude { slug, claude_args, print_only, remember } => {
            assert_eq!(slug.as_deref(), Some("a"));
            assert!(claude_args.is_empty());
            assert!(!print_only);
            assert!(remember);
        },
        _ => panic!("launch expected"),
    }
    assert_eq!(ctx.settings.last_launched_profile.as_deref(), Some("a"));
}

#[test]
fn app_opens_help_and_returns() {
    let mut ctx = context();
    let mut app = App::new(&ctx);
    for _ in 0..6 {
        handle_key(&mut app, key(Key::Down), &mut ctx);
    }
    handle_key(&mut app, key(Key::Enter), &mut ctx);
    assert!(matches!(app.screen, Screen::Help));
    app.profile_label = "stale".to_string();
    app.profile_path = String::new();
    handle_key(&mut app, key(Key::Esc), &mut ctx);
    assert!(matches!(app.screen, Screen::MainMenu(_)));
    assert_eq!(app.profile_label, ctx.settings.active_workspace);
    assert_eq!(Some(&app.profile_path), ctx.settings.workspaces.get(&ctx.settings.active_workspace));
    let (action, _) = handle_key(&mut app, key(Key::Char('q')), &mut ctx);
    assert!(matches!(action, Action::Quit));
}

#[test]
fn app_deletes_through_a_request() {
    let mut ctx = context();
    let mut app = App::new(&ctx);
    for _ in 0..4 {
        handle_key(&mut app, key(Key::Down), &mut ctx);
    }
    handle_key(&mut app, key(Key::Enter), &mut ctx);
    assert!(matches!(app.screen, Screen::Delete(_)));
    handle_key(&mut app, key(Key::Enter), &mut ctx);
    handle_key(&mut app, key(Key::Right), &mut ctx);
    let (action, _) = handle_key(&mut app, key(Key::Enter), &mut ctx);
    match action {
        Action::RemoveCredential { slug } => assert_eq!(slug, "a"),
        _ => panic!("removal expected"),
    }
    finish_request(&mut app, &ctx, Ok(()));
    assert!(matches!(app.screen, Screen::MainMenu(_)));
}

#[test]
fn app_launch_last_needs_a_last_launch() {
    let mut ctx = context();
    ctx.settings.last_launched_profile = Some("b".to_string());
    let mut app = App::new(&ctx);
    match handle_key(&mut app, key(Key::Enter), &mut ctx).0 {
        Action::LaunchClaude { slug, remember, .. } => {
            assert_eq!(slug.as_deref(), Some("b"));
            assert!(!remember);
        },
        _ => panic!("launch expected"),
    }
}

/// Whether a field of the provider's form whose label holds `text` is shown on tab `tab`.
fn tab_shows(provider_id: &str, tab: usize, text: &str) -> bool {
    let p = provider_launcher::providers::get_provider(provider_id).unwrap();
    p.tab_field_indices(tab).into_iter().any(|i| p.fields[i].label.contains(text))
}

#[test]
fn form_tabs_follow_the_focused_field() {
    let st = stored(StrMap::new());
    let mut a = AddState::new();
    add::handle_key(&mut a, key(Key::Down), &st);
    add::handle_key(&mut a, key(Key::Down), &st);
    add::handle_key(&mut a, key(Key::Enter), &st);
    assert_eq!(a.provider_id.as_deref(), Some("openrouter"));
    let p = provider_launcher::providers::get_provider("openrouter").unwrap();
    let labels: Vec<&str> = p.groups.as_ref().unwrap().iter().map(|g| g.label).collect();
    assert_eq!(labels, vec!["General", "Provider Selection"]);

    assert!(tab_shows("openrouter", 0, "API Base URL") && tab_shows("openrouter", 0, "API Key"));
    assert!(!tab_shows("openrouter", 0, "Provider Only") && !tab_shows("openrouter", 0, "Allow Fallbacks"));

    for _ in 0..7 {
        add::handle_key(&mut a, key(Key::Tab), &st);
    }
    assert_eq!(a.field_cursor, 7);
    assert_eq!(p.tab_for_field(6), Some(1));
    assert_eq!(p.shown_tab(Some(6)), 1);
    assert_eq!(p.shown_tab(Some(10)), 0);
    assert_eq!(p.shown_tab(None), 0);
    assert_eq!(p.shown_tab(Some(99)), 0);
    assert!(tab_shows("openrouter", 1, "Provider Only") && tab_shows("openrouter", 1, "Quantization Levels"));
    assert!(!tab_shows("openrouter", 1, "API Base URL"));

    add::handle_key(&mut a, key(Key::BackTab), &st);
    assert_eq!(a.field_cursor, 6);
    assert_eq!(p.tab_for_field(5), Some(0));
    assert_eq!(p.fields[5].label, "Opus Model Override");

    let zai = provider_launcher::providers::get_provider("zai").unwrap();
    assert!(zai.groups.is_none());
    assert!(tab_shows("zai", 0, "API Key") && tab_shows("zai", 0, "Effort Level"));
}
