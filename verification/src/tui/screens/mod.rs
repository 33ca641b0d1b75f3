//! The screens of the interactive interface: their state and how each key
//! changes it. Drawing them, and the reading and writing of files that some
//! keys ask for, belong to the application.

pub mod add;
pub mod delete;
pub mod edit;
pub mod extra_body;
pub mod form;
pub mod help;
pub mod keys;
pub mod launch;
pub mod main_menu;
pub mod widgets;
pub mod workspaces;

use vstd::prelude::*;
use crate::config::Credential;
use crate::settings::{opt_view, Settings, SettingsView};
use crate::strmap::StrMap;
use form::{Stored, TextInput};
use keys::KeyPress;
use launch::all_maskable;
use main_menu::{menu_nav, MainMenuState, Target};
use workspaces::Places;

verus! {

/// The screen on display, with its state.
pub enum Screen {
    MainMenu(main_menu::MainMenuState),
    Launch(launch::LaunchState),
    Add(add::AddState),
    Edit(edit::EditState),
    Delete(delete::DeleteState),
    Settings(workspaces::SettingsState),
    Help,
}

/// What the application does after a key.
pub enum Action {
    /// Keep going.
    Continue,
    /// Leave the interface.
    Quit,
    /// Leave the interface and launch the CLI with the credentials under
    /// `slug` (none: the CLI's own defaults). With `remember`, the settings
    /// (which record the launch) are written first, whatever comes of it.
    LaunchClaude { slug: Option<String>, claude_args: Vec<String>, print_only: bool, remember: bool },
    /// Save `credential` under `slug`, then report with `finish_request`.
    SaveCredential { slug: String, credential: Credential },
    /// Remove the credentials under `slug`, then report with `finish_request`.
    RemoveCredential { slug: String },
    /// Write the settings, then report with `finish_request`.
    StoreSettings,
}

/// What the screens read: the settings in use, the saved credentials,
/// where typed paths are resolved, and the names the menu shows.
pub struct Context {
    pub settings: Settings,
    pub stored: Stored,
    pub places: Places,
    pub names: main_menu::MenuNames,
}

impl Context {
    /// The settings are well formed and every saved token can be masked.
    pub open spec fn wf(&self) -> bool {
        self.settings.wf() && all_maskable(self.stored.creds@)
    }
}

/// `sc` is target screen `t` as first shown with context `ctx`.
pub open spec fn opened(t: Target, sc: Screen, ctx: Context) -> bool {
    match t {
        Target::Launch => sc matches Screen::Launch(s) && s.is_fresh(&ctx.stored.creds),
        Target::Add => sc matches Screen::Add(s) && s.is_fresh(),
        Target::Edit => sc matches Screen::Edit(s) && s.is_fresh(&ctx.stored.creds),
        Target::Delete => sc matches Screen::Delete(s) && s.is_fresh(&ctx.stored.creds),
        Target::Settings => sc matches Screen::Settings(s) && s.is_fresh(),
        Target::Help => sc is Help,
    }
}

/// `sc` is the main menu as first shown with context `ctx`.
pub open spec fn menu_opened(sc: Screen, ctx: Context) -> bool {
    sc matches Screen::MainMenu(m) && m.is_fresh(ctx.settings@.last, ctx.stored.creds@, ctx.names)
}

/// Every screen's state is well formed.
pub open spec fn screen_wf(sc: Screen) -> bool {
    match sc {
        Screen::MainMenu(s) => s.wf(),
        Screen::Launch(s) => s.wf(),
        Screen::Add(s) => s.wf(),
        Screen::Edit(s) => s.wf(),
        Screen::Delete(s) => s.wf(),
        Screen::Settings(s) => s.wf(),
        Screen::Help => true,
    }
}

/// Opens target screen `t`.
pub fn open_target(t: Target, ctx: &Context) -> (sc: Screen)
    requires
        ctx.wf(),
    ensures
        opened(t, sc, *ctx),
        screen_wf(sc),
{
    match t {
        Target::Launch => Screen::Launch(launch::LaunchState::new(&ctx.stored.creds)),
        Target::Add => Screen::Add(add::AddState::new()),
        Target::Edit => Screen::Edit(edit::EditState::new(&ctx.stored.creds)),
        Target::Delete => Screen::Delete(delete::DeleteState::new(&ctx.stored.creds)),
        Target::Settings => Screen::Settings(workspaces::SettingsState::new()),
        Target::Help => Screen::Help,
    }
}

/// Opens the main menu.
pub fn open_menu(ctx: &Context) -> (sc: Screen)
    ensures
        menu_opened(sc, *ctx),
        screen_wf(sc),
{
    Screen::MainMenu(MainMenuState::new(ctx.settings.last_launched_profile.clone(), &ctx.stored.creds, &ctx.names))
}

} // verus!
