//! State of the interactive interface, without the drawing: which screen is
//! shown and how keys move between screens.

pub mod screens;

use vstd::prelude::*;
use crate::settings::{get_active_workspace, opt_view, Settings, SettingsView};
use screens::{
    add, delete, edit, help, launch, main_menu, menu_opened, open_menu, open_target, opened, screen_wf, workspaces,
    Action, Context, Screen,
};
use screens::form::TextInput;
use screens::keys::{is_down, is_up, Key, KeyPress};
use screens::main_menu::{menu_nav, MainMenuState};
use screens::widgets::{moved_down, moved_up};

verus! {

broadcast use vstd::string::group_string_axioms;

/// The interface: the screen shown and the active workspace's label and
/// path (shown in the banner).
pub struct App {
    pub screen: Screen,
    pub profile_label: String,
    pub profile_path: String,
    /// Name and slug of credentials being saved, until the outcome is known.
    pub pending: Option<(String, String)>,
}

/// The banner shows the active workspace of `s`.
pub open spec fn shows_workspace(app: App, s: SettingsView) -> bool {
    app.profile_label@ == s.active && app.profile_path@ == s.workspaces[s.active]
}

impl App {
    /// The interface on its main menu.
    pub fn new(ctx: &Context) -> (r: Self)
        requires
            ctx.wf(),
        ensures
            menu_opened(r.screen, *ctx),
            screen_wf(r.screen),
            shows_workspace(r, ctx.settings@),
            r.pending is None,
    {
        let (label, path) = get_active_workspace(&ctx.settings);
        App { screen: open_menu(ctx), profile_label: label, profile_path: path, pending: None }
    }

    /// Shows the active workspace of `s` in the banner.
    pub fn refresh_profile(&mut self, s: &Settings)
        requires
            s.wf(),
        ensures
            shows_workspace(*final(self), s@),
            final(self).screen == old(self).screen,
            final(self).pending == old(self).pending,
    {
        let (label, path) = get_active_workspace(s);
        self.profile_label = label;
        self.profile_path = path;
    }
}

/// The main menu after a key that keeps it shown.
pub open spec fn menu_after(m: MainMenuState, k: Key) -> MainMenuState {
    MainMenuState {
        list: if is_up(k) {
            moved_up(m.list)
        } else if is_down(k) {
            moved_down(m.list)
        } else {
            m.list
        },
        actions: m.actions,
    }
}

/// `new` shows the main menu afresh, its banner showing the active
/// workspace of `ctx`.
pub open spec fn back_to_menu(old: App, new: App, ctx: Context) -> bool {
    &&& menu_opened(new.screen, ctx)
    &&& new.pending == old.pending
    &&& shows_workspace(new, ctx.settings@)
}

/// `new` shows screen `sc`, nothing else changed.
pub open spec fn shows(old: App, new: App, sc: Screen) -> bool {
    &&& new.screen == sc
    &&& new.profile_label == old.profile_label
    &&& new.profile_path == old.profile_path
    &&& new.pending == old.pending
}

/// One key on the interface, with the context going from `c0` to `c1`:
/// the shown screen handles it (see each screen's step), and what its
/// handler leads to decides the next screen or the application's action.
pub open spec fn app_step(old: App, new: App, k: KeyPress, c0: Context, c1: Context, action: Action, input: TextInput) -> bool {
    match old.screen {
        Screen::MainMenu(m) => {
            &&& c1 == c0
            &&& input is Nothing
            &&& match menu_nav(m, k.code) {
                main_menu::Nav::Stay => action is Continue && shows(old, new, Screen::MainMenu(menu_after(m, k.code))),
                main_menu::Nav::Exit => action is Quit && new == old,
                main_menu::Nav::LaunchDefault => {
                    &&& new == old
                    &&& action matches Action::LaunchClaude { slug: None, claude_args, print_only: false, remember: false }
                        && claude_args@.len() == 0
                },
                main_menu::Nav::LaunchLast => new == old && match c0.settings@.last {
                    Some(l) => action matches Action::LaunchClaude { slug: Some(x), claude_args, print_only: false, remember: false }
                        && x@ == l && claude_args@.len() == 0,
                    None => action is Continue,
                },
                main_menu::Nav::GoTo(t) => action is Continue && opened(t, new.screen, c0) && new.pending == old.pending
                    && new.profile_label == old.profile_label && new.profile_path == old.profile_path,
            }
        },
        Screen::Launch(s) => {
            &&& input is Nothing
            &&& match action {
                Action::Continue => c1 == c0 && match new.screen {
                    Screen::Launch(s2) => launch::launch_step(s, s2, k.code, launch::Nav::Stay) && shows(old, new, new.screen),
                    Screen::MainMenu(_) => launch::launch_step(s, s, k.code, launch::Nav::Back) && back_to_menu(old, new, c0),
                    Screen::Add(a) => launch::launch_step(s, s, k.code, launch::Nav::AddCredentials) && a.is_fresh()
                        && shows(old, new, new.screen),
                    _ => false,
                },
                Action::LaunchClaude { slug: Some(sl), claude_args, print_only, remember } => {
                    &&& !print_only
                    &&& remember
                    &&& launch::launch_step(s, s, k.code, launch::Nav::Launch { slug: sl, claude_args })
                    &&& new == old
                    &&& c1.settings@ == (SettingsView { active: c0.settings@.active, workspaces: c0.settings@.workspaces, last: Some(sl@) })
                    &&& c1.stored == c0.stored
                    &&& c1.places == c0.places
                },
                _ => false,
            }
        },
        Screen::Add(a) => {
            &&& c1 == c0
            &&& match action {
                Action::Continue => match new.screen {
                    Screen::Add(a2) => add::add_step(a, a2, k, c0.stored, add::Nav::Stay, input) && shows(old, new, new.screen),
                    Screen::MainMenu(_) => add::add_step(a, a, k, c0.stored, add::Nav::Back, input) && back_to_menu(old, new, c0),
                    _ => false,
                },
                Action::SaveCredential { slug, credential } => {
                    &&& add::add_step(a, a, k, c0.stored, add::Nav::Save { slug, credential }, input)
                    &&& new.screen == old.screen
                    &&& new.profile_label == old.profile_label
                    &&& new.profile_path == old.profile_path
                    &&& new.pending matches Some((n, x)) && n@ == credential.name@ && x@ == slug@
                },
                _ => false,
            }
        },
        Screen::Edit(e) => {
            &&& c1 == c0
            &&& match action {
                Action::Continue => match new.screen {
                    Screen::Edit(e2) => (if e.step == edit::EditStep::PickProfile {
                        edit::edit_pick_step(e, e2, k.code, c0.stored, edit::Nav::Stay) && input is Nothing
                    } else {
                        edit::edit_form_step(e, e2, k, c0.stored, edit::Nav::Stay, input)
                    }) && shows(old, new, new.screen),
                    Screen::MainMenu(_) => (if e.step == edit::EditStep::PickProfile {
                        edit::edit_pick_step(e, e, k.code, c0.stored, edit::Nav::Back) && input is Nothing
                    } else {
                        edit::edit_form_step(e, e, k, c0.stored, edit::Nav::Back, input)
                    }) && back_to_menu(old, new, c0),
                    Screen::Add(a) => e.step == edit::EditStep::PickProfile && edit::edit_pick_step(
                        e,
                        e,
                        k.code,
                        c0.stored,
                        edit::Nav::AddProfile,
                    ) && input is Nothing && a.is_fresh() && shows(old, new, new.screen),
                    _ => false,
                },
                Action::SaveCredential { slug, credential } => {
                    &&& e.step == edit::EditStep::FillForm
                    &&& edit::edit_form_step(e, e, k, c0.stored, edit::Nav::Save { slug, credential }, input)
                    &&& new.screen == old.screen
                    &&& new.profile_label == old.profile_label
                    &&& new.profile_path == old.profile_path
                    &&& new.pending matches Some((n, x)) && n@ == credential.name@ && x@ == slug@
                },
                _ => false,
            }
        },
        Screen::Delete(d) => {
            &&& c1 == c0
            &&& input is Nothing
            &&& match action {
                Action::Continue => match new.screen {
                    Screen::Delete(d2) => delete::delete_step(d, d2, k.code, delete::Nav::Stay) && shows(old, new, new.screen),
                    Screen::MainMenu(_) => delete::delete_step(d, d, k.code, delete::Nav::Back) && back_to_menu(old, new, c0),
                    Screen::Add(a) => delete::delete_step(d, d, k.code, delete::Nav::AddCredentials) && a.is_fresh()
                        && shows(old, new, new.screen),
                    _ => false,
                },
                Action::RemoveCredential { slug } => delete::delete_step(d, d, k.code, delete::Nav::Remove { slug }) && new == old,
                _ => false,
            }
        },
        Screen::Settings(st) => {
            &&& c1.stored == c0.stored
            &&& c1.places == c0.places
            &&& match action {
                Action::Continue => match new.screen {
                    Screen::Settings(st2) => workspaces::settings_step(
                        st,
                        st2,
                        k,
                        c0.settings@,
                        c1.settings@,
                        c0.places,
                        workspaces::Nav::Stay,
                        input,
                    ) && shows(old, new, new.screen),
                    Screen::MainMenu(_) => workspaces::settings_step(
                        st,
                        st,
                        k,
                        c0.settings@,
                        c1.settings@,
                        c0.places,
                        workspaces::Nav::Back,
                        input,
                    ) && back_to_menu(old, new, c1),
                    _ => false,
                },
                Action::StoreSettings => new.screen matches Screen::Settings(st2) && workspaces::settings_step(
                    st,
                    st2,
                    k,
                    c0.settings@,
                    c1.settings@,
                    c0.places,
                    workspaces::Nav::Persist,
                    input,
                ) && shows(old, new, new.screen),
                _ => false,
            }
        },
        Screen::Help => {
            &&& c1 == c0
            &&& input is Nothing
            &&& action is Continue
            &&& if k.code is Esc || k.code is Enter || k.code == Key::Char('q') {
                back_to_menu(old, new, c0)
            } else {
                new == old
            }
        },
    }
}

fn on_menu(app: &mut App, m: MainMenuState, key: KeyPress, ctx: &mut Context) -> (r: (Action, TextInput))
    requires
        old(ctx).wf(),
        m.wf(),
    ensures
        final(ctx).wf(),
        screen_wf(final(app).screen),
        app_step(
            App {
                screen: Screen::MainMenu(m),
                profile_label: old(app).profile_label,
                profile_path: old(app).profile_path,
                pending: old(app).pending,
            },
            *final(app),
            key,
            *old(ctx),
            *final(ctx),
            r.0,
            r.1,
        ),
{
    let mut m = m;
    let nav = main_menu::handle_key(&mut m, key);
    match nav {
        main_menu::Nav::Stay => {
            app.screen = Screen::MainMenu(m);
            (Action::Continue, TextInput::Nothing)
        },
        main_menu::Nav::Exit => {
            app.screen = Screen::MainMenu(m);
            (Action::Quit, TextInput::Nothing)
        },
        main_menu::Nav::LaunchDefault => {
            app.screen = Screen::MainMenu(m);
            (
                Action::LaunchClaude { slug: None, claude_args: Vec::new(), print_only: false, remember: false },
                TextInput::Nothing,
            )
        },
        main_menu::Nav::LaunchLast => {
            app.screen = Screen::MainMenu(m);
            match ctx.settings.last_launched_profile.clone() {
                Some(slug) => (
                    Action::LaunchClaude {
                        slug: Some(slug),
                        claude_args: Vec::new(),
                        print_only: false,
                        remember: false,
                    },
                    TextInput::Nothing,
                ),
                None => (Action::Continue, TextInput::Nothing),
            }
        },
        main_menu::Nav::GoTo(t) => {
            app.screen = open_target(t, ctx);
            (Action::Continue, TextInput::Nothing)
        },
    }
}

fn on_launch(app: &mut App, s: launch::LaunchState, key: KeyPress, ctx: &mut Context) -> (r: (Action, TextInput))
    requires
        old(ctx).wf(),
        s.wf(),
    ensures
        final(ctx).wf(),
        screen_wf(final(app).screen),
        app_step(
            App {
                screen: Screen::Launch(s),
                profile_label: old(app).profile_label,
                profile_path: old(app).profile_path,
                pending: old(app).pending,
            },
            *final(app),
            key,
            *old(ctx),
            *final(ctx),
            r.0,
            r.1,
        ),
{
    let mut s = s;
    let nav = launch::handle_key(&mut s, key);
    match nav {
        launch::Nav::Stay => {
            app.screen = Screen::Launch(s);
            (Action::Continue, TextInput::Nothing)
        },
        launch::Nav::Back => {
            app.refresh_profile(&ctx.settings);
            app.screen = open_menu(ctx);
            (Action::Continue, TextInput::Nothing)
        },
        launch::Nav::Launch { slug, claude_args } => {
            app.screen = Screen::Launch(s);
            crate::settings::update_last_launched_profile(&mut ctx.settings, slug.as_str());
            (
                Action::LaunchClaude { slug: Some(slug), claude_args, print_only: false, remember: true },
                TextInput::Nothing,
            )
        },
        launch::Nav::AddCredentials => {
            app.screen = Screen::Add(add::AddState::new());
            (Action::Continue, TextInput::Nothing)
        },
    }
}

fn on_add(app: &mut App, a: add::AddState, key: KeyPress, ctx: &mut Context) -> (r: (Action, TextInput))
    requires
        old(ctx).wf(),
        a.wf(),
    ensures
        final(ctx).wf(),
        screen_wf(final(app).screen),
        app_step(
            App {
                screen: Screen::Add(a),
                profile_label: old(app).profile_label,
                profile_path: old(app).profile_path,
                pending: old(app).pending,
            },
            *final(app),
            key,
            *old(ctx),
            *final(ctx),
            r.0,
            r.1,
        ),
{
    let mut a = a;
    let (nav, input) = add::handle_key(&mut a, key, &ctx.stored);
    match nav {
        add::Nav::Stay => {
            app.screen = Screen::Add(a);
            (Action::Continue, input)
        },
        add::Nav::Back => {
            app.refresh_profile(&ctx.settings);
            app.screen = open_menu(ctx);
            (Action::Continue, input)
        },
        add::Nav::Save { slug, credential } => {
            app.screen = Screen::Add(a);
            app.pending = Some((credential.name.clone(), slug.clone()));
            (Action::SaveCredential { slug, credential }, input)
        },
    }
}

fn on_edit(app: &mut App, e: edit::EditState, key: KeyPress, ctx: &mut Context) -> (r: (Action, TextInput))
    requires
        old(ctx).wf(),
        e.wf(),
    ensures
        final(ctx).wf(),
        screen_wf(final(app).screen),
        app_step(
            App {
                screen: Screen::Edit(e),
                profile_label: old(app).profile_label,
                profile_path: old(app).profile_path,
                pending: old(app).pending,
            },
            *final(app),
            key,
            *old(ctx),
            *final(ctx),
            r.0,
            r.1,
        ),
{
    let mut e = e;
    let (nav, input) = edit::handle_key(&mut e, key, &ctx.stored);
    match nav {
        edit::Nav::Stay => {
            app.screen = Screen::Edit(e);
            (Action::Continue, input)
        },
        edit::Nav::Back => {
            app.refresh_profile(&ctx.settings);
            app.screen = open_menu(ctx);
            (Action::Continue, input)
        },
        edit::Nav::AddProfile => {
            app.screen = Screen::Add(add::AddState::new());
            (Action::Continue, input)
        },
        edit::Nav::Save { slug, credential } => {
            app.screen = Screen::Edit(e);
            app.pending = Some((credential.name.clone(), slug.clone()));
            (Action::SaveCredential { slug, credential }, input)
        },
    }
}

fn on_delete(app: &mut App, d: delete::DeleteState, key: KeyPress, ctx: &mut Context) -> (r: (Action, TextInput))
    requires
        old(ctx).wf(),
        d.wf(),
    ensures
        final(ctx).wf(),
        screen_wf(final(app).screen),
        app_step(
            App {
                screen: Screen::Delete(d),
                profile_label: old(app).profile_label,
                profile_path: old(app).profile_path,
                pending: old(app).pending,
            },
            *final(app),
            key,
            *old(ctx),
            *final(ctx),
            r.0,
            r.1,
        ),
{
    let mut d = d;
    let nav = delete::handle_key(&mut d, key);
    match nav {
        delete::Nav::Stay => {
            app.screen = Screen::Delete(d);
            (Action::Continue, TextInput::Nothing)
        },
        delete::Nav::Back => {
            app.refresh_profile(&ctx.settings);
            app.screen = open_menu(ctx);
            (Action::Continue, TextInput::Nothing)
        },
        delete::Nav::AddCredentials => {
            app.screen = Screen::Add(add::AddState::new());
            (Action::Continue, TextInput::Nothing)
        },
        delete::Nav::Remove { slug } => {
            app.screen = Screen::Delete(d);
            (Action::RemoveCredential { slug }, TextInput::Nothing)
        },
    }
}

fn on_settings(app: &mut App, st: workspaces::SettingsState, key: KeyPress, ctx: &mut Context) -> (r: (Action, TextInput))
    requires
        old(ctx).wf(),
        st.wf(),
    ensures
        final(ctx).wf(),
        screen_wf(final(app).screen),
        app_step(
            App {
                screen: Screen::Settings(st),
                profile_label: old(app).profile_label,
                profile_path: old(app).profile_path,
                pending: old(app).pending,
            },
            *final(app),
            key,
            *old(ctx),
            *final(ctx),
            r.0,
            r.1,
        ),
{
    let mut st = st;
    let (nav, input) = workspaces::handle_key(&mut st, key, &mut ctx.settings, &ctx.places);
    match nav {
        workspaces::Nav::Stay => {
            app.screen = Screen::Settings(st);
            (Action::Continue, input)
        },
        workspaces::Nav::Back => {
            app.refresh_profile(&ctx.settings);
            app.screen = open_menu(ctx);
            (Action::Continue, input)
        },
        workspaces::Nav::Persist => {
            app.screen = Screen::Settings(st);
            (Action::StoreSettings, input)
        },
    }
}

/// Handles a key on the interface (see `app_step`); the second result says
/// what to do with the shown form's text fields.
pub fn handle_key(app: &mut App, key: KeyPress, ctx: &mut Context) -> (r: (Action, TextInput))
    requires
        old(ctx).wf(),
        screen_wf(old(app).screen),
    ensures
        final(ctx).wf(),
        screen_wf(final(app).screen),
        app_step(*old(app), *final(app), key, *old(ctx), *final(ctx), r.0, r.1),
{
    let mut screen = Screen::Help;
    std::mem::swap(&mut screen, &mut app.screen);
    match screen {
        Screen::MainMenu(m) => on_menu(app, m, key, ctx),
        Screen::Launch(s) => on_launch(app, s, key, ctx),
        Screen::Add(a) => on_add(app, a, key, ctx),
        Screen::Edit(e) => on_edit(app, e, key, ctx),
        Screen::Delete(d) => on_delete(app, d, key, ctx),
        Screen::Settings(st) => on_settings(app, st, key, ctx),
        Screen::Help => {
            match help::handle_key(key) {
                help::Nav::Back => {
                    app.screen = open_menu(ctx);
                    app.refresh_profile(&ctx.settings);
                },
                help::Nav::Stay => {
                    app.screen = Screen::Help;
                },
            }
            (Action::Continue, TextInput::Nothing)
        },
    }
}


/// A request's outcome as a sequence result.
pub open spec fn result_view(r: Result<(), String>) -> Result<(), Seq<char>> {
    match r {
        Ok(_) => Ok(()),
        Err(e) => Err(e@),
    }
}

/// Takes the outcome of the request the last key led to (saving or
/// removing credentials, writing settings): the shown screen reports it,
/// and a successful save or removal returns to the main menu.
pub fn finish_request(app: &mut App, ctx: &Context, result: Result<(), String>)
    requires
        ctx.wf(),
        screen_wf(old(app).screen),
    ensures
        screen_wf(final(app).screen),
        match old(app).screen {
            Screen::Add(a) => {
                let (n, x) = match old(app).pending {
                    Some((n, x)) => (n@, x@),
                    None => (Seq::empty(), Seq::empty()),
                };
                if result is Ok {
                    final(app).pending is None && menu_opened(final(app).screen, *ctx) && shows_workspace(
                        *final(app),
                        ctx.settings@,
                    )
                } else {
                    final(app).screen matches Screen::Add(a2) && add::only_status(a, a2) && a2.status@ == add::saved_status(
                        n,
                        x,
                        result_view(result),
                    ) && a2.is_error
                }
            },
            Screen::Edit(e) => {
                let n = match old(app).pending {
                    Some((n, _)) => n@,
                    None => Seq::empty(),
                };
                if result is Ok {
                    final(app).pending is None && menu_opened(final(app).screen, *ctx) && shows_workspace(
                        *final(app),
                        ctx.settings@,
                    )
                } else {
                    final(app).screen matches Screen::Edit(e2) && e2.status@ == edit::save_status(n, result_view(result))
                        && e2.is_error && e2.fields == e.fields
                }
            },
            Screen::Delete(d) => d.selected_slug is Some ==> if result is Ok {
                menu_opened(final(app).screen, *ctx) && shows_workspace(*final(app), ctx.settings@)
            } else {
                final(app).screen matches Screen::Delete(d2) && d2.status@ == delete::removal_status(
                    opt_view(d.selected_name),
                    opt_view(d.selected_slug).unwrap(),
                    result_view(result),
                ) && d2.is_error
            },
            Screen::Settings(st) => final(app).screen matches Screen::Settings(st2) && match result {
                Ok(_) => st2.step == workspaces::SettingsStep::TopMenu && !st2.is_error && st2.status@ == match st.pending {
                    Some(m) => m@,
                    None => Seq::empty(),
                },
                Err(e) => st2.status@ == e@ && st2.is_error && st2.step == st.step,
            },
            _ => *final(app) == *old(app),
        },
{
    let mut screen = Screen::Help;
    std::mem::swap(&mut screen, &mut app.screen);
    match screen {
        Screen::Add(mut a) => {
            let (name, slug) = match app.pending.take() {
                Some(p) => p,
                None => (String::new(), String::new()),
            };
            match add::finish_save(&mut a, name.as_str(), slug.as_str(), result) {
                add::Nav::Back => {
                    app.refresh_profile(&ctx.settings);
                    app.screen = open_menu(ctx);
                },
                _ => {
                    app.screen = Screen::Add(a);
                },
            }
        },
        Screen::Edit(mut e) => {
            let name = match app.pending.take() {
                Some((n, _)) => n,
                None => String::new(),
            };
            match edit::finish_save(&mut e, name.as_str(), result) {
                edit::Nav::Back => {
                    app.refresh_profile(&ctx.settings);
                    app.screen = open_menu(ctx);
                },
                _ => {
                    app.screen = Screen::Edit(e);
                },
            }
        },
        Screen::Delete(mut d) => {
            if d.selected_slug.is_none() {
                app.screen = Screen::Delete(d);
                return;
            }
            match delete::finish_remove(&mut d, result) {
                delete::Nav::Back => {
                    app.refresh_profile(&ctx.settings);
                    app.screen = open_menu(ctx);
                },
                _ => {
                    app.screen = Screen::Delete(d);
                },
            }
        },
        Screen::Settings(mut st) => {
            workspaces::finish_store(&mut st, result);
            app.screen = Screen::Settings(st);
        },
        other => {
            app.screen = other;
        },
    }
}

} // verus!
