use provider_launcher::cli::{config_override, plan_run, Cli, Command, OverrideError, Run};
use provider_launcher::strmap::StrMap;

fn cli() -> Cli {
    Cli { workspace: None, config: None, profiles: None, print: false, command: None, claude_args: vec![] }
}

fn labels() -> StrMap<String> {
    let mut m = StrMap::new();
    m.insert("work".to_string(), "/w.json".to_string());
    m.insert("home".to_string(), "/h.json".to_string());
    m
}

#[test]
fn no_override_without_flags() {
    assert!(matches!(config_override(&cli(), &labels(), &None, &None), Ok(None)));
}

#[test]
fn workspace_and_config_are_exclusive() {
    let mut c = cli();
    c.workspace = Some("work".to_string());
    c.config = Some("/x.json".to_string());
    assert!(matches!(config_override(&c, &labels(), &None, &None), Err(OverrideError::Exclusive)));
}

#[test]
fn config_flag_is_expanded() {
    let mut c = cli();
    c.config = Some("~/p.json".to_string());
    match config_override(&c, &labels(), &Some("/home/u".to_string()), &Some("/w".to_string())) {
        Ok(Some(p)) => assert_eq!(p, "/home/u/p.json"),
        _ => panic!("path expected"),
    }
}

#[test]
fn workspace_flag_uses_its_path() {
    let mut c = cli();
    c.workspace = Some("home".to_string());
    match config_override(&c, &labels(), &None, &None) {
        Ok(Some(p)) => assert_eq!(p, "/h.json"),
        _ => panic!("path expected"),
    }
    c.workspace = Some("nope".to_string());
    match config_override(&c, &labels(), &None, &None) {
        Err(OverrideError::UnknownWorkspace { label, available }) => {
            assert_eq!(label, "nope");
            assert_eq!(available, "home, work");
        },
        _ => panic!("error expected"),
    }
    match config_override(&c, &StrMap::new(), &None, &None) {
        Err(OverrideError::UnknownWorkspace { available, .. }) => assert_eq!(available, "(none)"),
        _ => panic!("error expected"),
    }
}

#[test]
fn run_plans() {
    let mut c = cli();
    assert!(matches!(plan_run(&c), Run::Interactive));
    c.command = Some(Command::List);
    assert!(matches!(plan_run(&c), Run::List));
    c.print = true;
    c.command = Some(Command::Launch { slug: Some("x".to_string()), print: false });
    assert!(matches!(plan_run(&c), Run::LaunchSlug { slug, print_only: true } if slug == "x"));
    c.command = Some(Command::Launch { slug: None, print: true });
    assert!(matches!(plan_run(&c), Run::Interactive));
    c.command = Some(Command::Statusline { profile: "p".to_string() });
    assert!(matches!(plan_run(&c), Run::Statusline { slug } if slug == "p"));
    c.profiles = Some("legacy".to_string());
    c.print = false;
    assert!(matches!(plan_run(&c), Run::LaunchSlug { slug, print_only: false } if slug == "legacy"));
}
