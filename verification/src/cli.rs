//! The command line: what was asked for, and how it is turned into the
//! credentials file to use and the thing to run. Parsing the arguments is
//! the application's job.

use vstd::prelude::*;
use crate::settings::{expand_path, expand_path_spec, opt_view};
use crate::strmap::{lists_keys_sorted, sorted_keys, StrMap};
use crate::text::{join, join_spec, to_owned_string, views};

verus! {

broadcast use vstd::string::group_string_axioms;

/// The command line.
pub struct Cli {
    /// Use a saved workspace for this run only.
    pub workspace: Option<String>,
    /// An ad-hoc credentials file for this run only.
    pub config: Option<String>,
    /// Launch straight away with the credentials under this slug.
    pub profiles: Option<String>,
    /// Print the environment and command instead of launching.
    pub print: bool,
    pub command: Option<Command>,
    /// Arguments passed on to the launched CLI.
    pub claude_args: Vec<String>,
}

/// A subcommand.
pub enum Command {
    /// List the saved credentials.
    List,
    /// Launch with the credentials under `slug` (a picker without one).
    Launch { slug: Option<String>, print: bool },
    /// Print the status line for the credentials under `profile`.
    Statusline { profile: String },
}

/// Why the command line's choice of credentials file is refused.
pub enum OverrideError {
    /// A workspace and a file were both given.
    Exclusive,
    /// No workspace has `label`; `available` lists the labels there are.
    UnknownWorkspace { label: String, available: String },
}

/// The labels offered when an unknown workspace is asked for: all labels,
/// ascending, joined by ", ", or "(none)".
pub open spec fn available_spec(sorted_labels: Seq<Seq<char>>) -> Seq<char> {
    if sorted_labels.len() == 0 {
        "(none)"@
    } else {
        join_spec(sorted_labels, ", "@)
    }
}

/// The credentials file this run uses instead of the active workspace's,
/// if any: a given file (made absolute), or a given workspace's path. Both
/// at once, or an unknown workspace, are refused.
pub fn config_override(
    cli: &Cli,
    workspaces: &StrMap<String>,
    home: &Option<String>,
    cwd: &Option<String>,
) -> (r: Result<Option<String>, OverrideError>)
    ensures
        r matches Ok(o) && o is None ==> cli.workspace is None && cli.config is None,
        r matches Ok(o) && o is Some ==> match cli.config {
            Some(c) => cli.workspace is None && r->Ok_0->Some_0@ == expand_path_spec(
                c@,
                opt_view(*home),
                opt_view(*cwd),
            ),
            None => cli.workspace matches Some(w) && workspaces@.contains_key(w@) && r->Ok_0->Some_0@
                == workspaces@[w@]@,
        },
        r matches Err(OverrideError::Exclusive) ==> cli.workspace is Some && cli.config is Some,
        r matches Err(OverrideError::UnknownWorkspace { label, available }) ==> {
            &&& cli.config is None
            &&& cli.workspace matches Some(w) && w@ == label@ && !workspaces@.contains_key(w@)
            &&& exists|s: Seq<Seq<char>>| lists_keys_sorted(s, workspaces) && available@ == available_spec(s)
        },
{
    if cli.workspace.is_some() && cli.config.is_some() {
        return Err(OverrideError::Exclusive);
    }
    if cli.config.is_some() {
        let c = cli.config.as_ref().unwrap();
        return Ok(Some(expand_path(c.as_str(), home, cwd)));
    }
    assert(cli.config is None);
    match &cli.workspace {
        Some(w) => match workspaces.get(w.as_str()) {
            Some(p) => Ok(Some(p.clone())),
            None => {
                let labels = sorted_keys(workspaces);
                let available = if labels.len() == 0 {
                    to_owned_string("(none)")
                } else {
                    join(&labels, ", ")
                };
                assert(lists_keys_sorted(views(labels@), workspaces) && available@ == available_spec(views(labels@)));
                Err(OverrideError::UnknownWorkspace { label: w.clone(), available })
            },
        },
        None => {
            assert(cli.workspace is None);
            Ok(None)
        },
    }
}

/// What a run does.
pub enum Run {
    /// Launch (or, with `print_only`, print) with the credentials under `slug`.
    LaunchSlug { slug: String, print_only: bool },
    List,
    Statusline { slug: String },
    /// Start the interactive interface.
    Interactive,
}

/// What the command line asks to run: `--profiles` launches straight away;
/// otherwise the subcommand decides (a launch prints when either print
/// flag is given; a launch without a slug, or no subcommand, is
/// interactive).
pub fn plan_run(cli: &Cli) -> (r: Run)
    ensures
        match cli.profiles {
            Some(p) => r matches Run::LaunchSlug { slug, print_only } && slug@ == p@ && print_only == cli.print,
            None => match cli.command {
                Some(Command::List) => r is List,
                Some(Command::Launch { slug: Some(s), print }) => r matches Run::LaunchSlug { slug, print_only }
                    && slug@ == s@ && print_only == (print || cli.print),
                Some(Command::Launch { slug: None, .. }) => r is Interactive,
                Some(Command::Statusline { profile }) => r matches Run::Statusline { slug } && slug@ == profile@,
                None => r is Interactive,
            },
        },
{
    match &cli.profiles {
        Some(p) => {
            return Run::LaunchSlug { slug: p.clone(), print_only: cli.print };
        },
        None => {},
    }
    match &cli.command {
        Some(Command::List) => Run::List,
        Some(Command::Launch { slug: Some(s), print }) => Run::LaunchSlug { slug: s.clone(), print_only: *print || cli.print },
        Some(Command::Launch { slug: None, .. }) => Run::Interactive,
        Some(Command::Statusline { profile }) => Run::Statusline { slug: profile.clone() },
        None => Run::Interactive,
    }
}

} // verus!
