//! What a launch runs: the environment handed to the launched CLI, its
//! arguments, and the shell command printed by `--print`.

use vstd::prelude::*;
use crate::config::Credential;
use crate::error::{concat3, AppError};
use crate::providers::{
    get_provider, find_provider_spec, ENV_AUTH_TOKEN, ENV_BASE_URL, ENV_HAIKU_MODEL, ENV_MANAGEMENT_KEY,
    ENV_OPUS_MODEL, ENV_SONNET_MODEL, PROVIDER_LLAMACPP_SINGLE_MODEL,
};
use crate::strmap::{clone_string_map, keys_of, string_values_view, without_key, StrMap};
use crate::text::{
    append_str, join, join_spec, replace_char, replace_char_spec, str_eq, to_owned_string, trim, trim_spec,
    views,
};

verus! {

broadcast use vstd::string::group_string_axioms;

// ---- Environment -------------------------------------------------------------

/// The environment without the launcher's own variables (the OpenRouter
/// management key), which are never passed on or printed.
pub open spec fn external_env_spec(env: Map<Seq<char>, Seq<char>>) -> Map<Seq<char>, Seq<char>> {
    env.remove(ENV_MANAGEMENT_KEY@)
}

/// The environment to pass on: `env` without launcher-internal variables,
/// entries in their original order.
pub fn external_env(env: &StrMap<String>) -> (r: StrMap<String>)
    ensures
        string_values_view(r@) == external_env_spec(string_values_view(env@)),
        r.keys() == without_key(env.keys(), ENV_MANAGEMENT_KEY@),
{
    let mut r = clone_string_map(env);
    let ghost before = r@;
    let _ = r.remove(ENV_MANAGEMENT_KEY);
    assert(string_values_view(r@) =~= string_values_view(before).remove(ENV_MANAGEMENT_KEY@));
    r
}

// ---- The printed command -------------------------------------------------------

/// `value` in single quotes for a POSIX shell, inner quotes written as `'\''`.
pub open spec fn shell_quote_spec(value: Seq<char>) -> Seq<char> {
    "'"@ + replace_char_spec(value, '\'', "'\\''"@) + "'"@
}

fn shell_quote(value: &str) -> (r: String)
    ensures
        r@ == shell_quote_spec(value@),
{
    let mut r = to_owned_string("'");
    let inner = replace_char(value, '\'', "'\\''");
    append_str(&mut r, inner.as_str());
    append_str(&mut r, "'");
    r
}

/// How a POSIX shell reads one word made of plain characters, single-quoted
/// runs and backslash escapes, with `quoted` telling whether a single quote
/// is open: inside quotes every character stands for itself until the
/// closing quote; outside, a backslash keeps the next character and a quote
/// opens a run. (Words here hold no blanks or expansions outside quotes.)
pub open spec fn shell_read(s: Seq<char>, quoted: bool) -> Seq<char>
    decreases s.len(),
{
    if s.len() == 0 {
        Seq::empty()
    } else if quoted {
        if s[0] == '\'' {
            shell_read(s.drop_first(), false)
        } else {
            seq![s[0]] + shell_read(s.drop_first(), true)
        }
    } else if s[0] == '\'' {
        shell_read(s.drop_first(), true)
    } else if s[0] == '\\' && s.len() >= 2 {
        seq![s[1]] + shell_read(s.skip(2), false)
    } else {
        seq![s[0]] + shell_read(s.drop_first(), false)
    }
}

/// What `replace_char_spec` puts for one character.
pub open spec fn replaced_piece(x: char, c: char, rep: Seq<char>) -> Seq<char> {
    if x == c {
        rep
    } else {
        seq![x]
    }
}

proof fn lemma_replace_front(x: char, t: Seq<char>, c: char, rep: Seq<char>)
    ensures
        replace_char_spec(seq![x] + t, c, rep) == replaced_piece(x, c, rep) + replace_char_spec(t, c, rep),
    decreases t.len(),
{
    let u = seq![x] + t;
    if t.len() == 0 {
        assert(u.drop_last() =~= Seq::<char>::empty());
        assert(u.last() == x);
        assert(replace_char_spec(u.drop_last(), c, rep) =~= Seq::<char>::empty());
        assert(replace_char_spec(t, c, rep) =~= Seq::<char>::empty());
        assert(replace_char_spec(u, c, rep) =~= replaced_piece(x, c, rep) + replace_char_spec(t, c, rep));
    } else {
        assert(u.drop_last() =~= seq![x] + t.drop_last());
        assert(u.last() == t.last());
        lemma_replace_front(x, t.drop_last(), c, rep);
        assert(replace_char_spec(u, c, rep) =~= replaced_piece(x, c, rep) + replace_char_spec(t, c, rep));
    }
}

proof fn lemma_read_quoted(v: Seq<char>, rest: Seq<char>)
    ensures
        shell_read(replace_char_spec(v, '\'', "'\\''"@) + seq!['\''] + rest, true) == v + shell_read(rest, false),
    decreases v.len(),
{
    reveal_strlit("'\\''");
    let q = "'\\''"@;
    if v.len() == 0 {
        assert(replace_char_spec(v, '\'', q) =~= Seq::<char>::empty());
        let s = replace_char_spec(v, '\'', q) + seq!['\''] + rest;
        assert(s =~= seq!['\''] + rest);
        assert(s.drop_first() =~= rest);
        assert(v + shell_read(rest, false) =~= shell_read(rest, false));
    } else {
        let x = v[0];
        let t = v.drop_first();
        assert(v =~= seq![x] + t);
        lemma_replace_front(x, t, '\'', q);
        lemma_read_quoted(t, rest);
        let tail = replace_char_spec(t, '\'', q) + seq!['\''] + rest;
        let s = replace_char_spec(v, '\'', q) + seq!['\''] + rest;
        assert(s =~= replaced_piece(x, '\'', q) + tail);
        if x == '\'' {
            assert(s.drop_first() =~= seq!['\\', '\'', '\''] + tail);
            let s1 = s.drop_first();
            assert(s1.skip(2) =~= seq!['\''] + tail);
            assert((seq!['\''] + tail).drop_first() =~= tail);
            assert(shell_read(s, true) == shell_read(s1, false));
            assert(shell_read(s1, false) == seq!['\''] + shell_read(s1.skip(2), false));
            assert(shell_read(s1.skip(2), false) == shell_read(tail, true));
            assert(v + shell_read(rest, false) =~= seq![x] + (t + shell_read(rest, false)));
        } else {
            assert(s.drop_first() =~= tail);
            assert(v + shell_read(rest, false) =~= seq![x] + (t + shell_read(rest, false)));
        }
    }
}

/// Law: a POSIX shell reads a quoted value back as the value itself,
/// whatever characters it holds.
pub proof fn lemma_shell_quote_reads_back(v: Seq<char>)
    ensures
        shell_read(shell_quote_spec(v), false) == v,
{
    reveal_strlit("'");
    let s = shell_quote_spec(v);
    lemma_read_quoted(v, Seq::empty());
    assert(s.drop_first() =~= replace_char_spec(v, '\'', "'\\''"@) + seq!['\''] + Seq::<char>::empty());
    assert(v + shell_read(Seq::<char>::empty(), false) =~= v);
}

/// The quoted arguments after the program name, each preceded by a space.
pub open spec fn args_part_spec(args: Seq<Seq<char>>) -> Seq<char> {
    if args.len() == 0 {
        Seq::empty()
    } else {
        " "@ + join_spec(args.map_values(|a: Seq<char>| shell_quote_spec(a)), " "@)
    }
}

/// `KEY='value'` for each entry, in order.
pub open spec fn env_parts_spec(entries: Seq<(String, String)>) -> Seq<Seq<char>> {
    entries.map_values(|e: (String, String)| e.0@ + "="@ + shell_quote_spec(e.1@))
}

/// The command line: one `KEY='value'` per line, continued with backslashes,
/// then `program` with its quoted arguments.
pub open spec fn build_command_spec(entries: Seq<(String, String)>, program: Seq<char>, args: Seq<Seq<char>>) -> Seq<
    char,
> {
    if entries.len() == 0 {
        program + args_part_spec(args)
    } else {
        join_spec(env_parts_spec(entries), " \\\n  "@) + " \\\n  "@ + program + args_part_spec(args)
    }
}

/// Law: the printed command is one `KEY=value` word per entry and then the
/// program with its argument words, joined by line continuations; every
/// value and every argument is quoted so that a POSIX shell reads it back
/// as itself.
pub proof fn lemma_build_command_words(entries: Seq<(String, String)>, program: Seq<char>, args: Seq<Seq<char>>)
    ensures
        build_command_spec(entries, program, args) == join_spec(
            env_parts_spec(entries).push(program + args_part_spec(args)),
            " \\\n  "@,
        ),
        forall|i: int|
            0 <= i < entries.len() ==> #[trigger] env_parts_spec(entries)[i] == entries[i].0@ + "="@ + shell_quote_spec(
                entries[i].1@,
            ) && shell_read(shell_quote_spec(entries[i].1@), false) == entries[i].1@,
        args.len() > 0 ==> args_part_spec(args) == " "@ + join_spec(
            args.map_values(|a: Seq<char>| shell_quote_spec(a)),
            " "@,
        ),
        forall|j: int| 0 <= j < args.len() ==> shell_read(#[trigger] shell_quote_spec(args[j]), false) == args[j],
{
    let parts = env_parts_spec(entries);
    let last = program + args_part_spec(args);
    let all = parts.push(last);
    assert(all.drop_last() =~= parts);
    assert(all.last() == last);
    if parts.len() == 0 {
        assert(all.len() == 1);
        assert(all[0] == last);
    }
    assert forall|i: int| 0 <= i < entries.len() implies #[trigger] env_parts_spec(entries)[i] == entries[i].0@ + "="@
        + shell_quote_spec(entries[i].1@) && shell_read(shell_quote_spec(entries[i].1@), false) == entries[i].1@ by {
        lemma_shell_quote_reads_back(entries[i].1@);
    }
    assert forall|j: int| 0 <= j < args.len() implies shell_read(#[trigger] shell_quote_spec(args[j]), false)
        == args[j] by {
        lemma_shell_quote_reads_back(args[j]);
    }
}

/// The shell command that runs the CLI `program` with `env` and
/// `claude_args`.
pub fn build_command(env: &StrMap<String>, program: &str, claude_args: &Vec<String>) -> (r: String)
    ensures
        r@ == build_command_spec(env.seq(), program@, views(claude_args@)),
{
    let mut quoted: Vec<String> = Vec::new();
    let mut i: usize = 0;
    while i < claude_args.len()
        invariant
            0 <= i <= claude_args@.len(),
            views(quoted@) == views(claude_args@).take(i as int).map_values(|a: Seq<char>| shell_quote_spec(a)),
        decreases claude_args.len() - i,
    {
        let q = shell_quote(claude_args[i].as_str());
        let ghost before = quoted@;
        quoted.push(q);
        assert(views(quoted@) =~= views(before).push(q@));
        assert(views(claude_args@).take(i + 1).map_values(|a: Seq<char>| shell_quote_spec(a)) =~= views(
            claude_args@,
        ).take(i as int).map_values(|a: Seq<char>| shell_quote_spec(a)).push(shell_quote_spec(claude_args@[i as int]@)));
        i += 1;
    }
    assert(views(claude_args@).take(claude_args@.len() as int) =~= views(claude_args@));
    let mut args_part = String::new();
    if claude_args.len() > 0 {
        args_part = to_owned_string(" ");
        let joined = join(&quoted, " ");
        append_str(&mut args_part, joined.as_str());
    }
    assert(args_part@ == args_part_spec(views(claude_args@)));
    let pairs = env.pairs();
    if pairs.len() == 0 {
        let mut r = to_owned_string(program);
        append_str(&mut r, args_part.as_str());
        return r;
    }
    let mut parts: Vec<String> = Vec::new();
    let mut j: usize = 0;
    while j < pairs.len()
        invariant
            0 <= j <= pairs@.len(),
            views(parts@) == env_parts_spec(pairs@.take(j as int)),
        decreases pairs.len() - j,
    {
        let mut part = to_owned_string(pairs[j].0.as_str());
        append_str(&mut part, "=");
        let q = shell_quote(pairs[j].1.as_str());
        append_str(&mut part, q.as_str());
        let ghost before = parts@;
        parts.push(part);
        assert(views(parts@) =~= views(before).push(part@));
        assert(env_parts_spec(pairs@.take(j + 1)) =~= env_parts_spec(pairs@.take(j as int)).push(
            pairs@[j as int].0@ + "="@ + shell_quote_spec(pairs@[j as int].1@),
        ));
        j += 1;
    }
    assert(pairs@.take(pairs@.len() as int) =~= pairs@);
    let mut r = join(&parts, " \\\n  ");
    append_str(&mut r, " \\\n  ");
    append_str(&mut r, program);
    append_str(&mut r, args_part.as_str());
    r
}

// ---- llama.cpp model detection ---------------------------------------------------

/// The text of an `env` entry, or the empty string when absent.
pub open spec fn env_or_empty(env: Map<Seq<char>, String>, key: Seq<char>) -> Seq<char> {
    if env.contains_key(key) {
        env[key]@
    } else {
        Seq::empty()
    }
}

fn get_or_empty(env: &StrMap<String>, key: &str) -> (r: String)
    ensures
        r@ == env_or_empty(env@, key@),
{
    match env.get(key) {
        Some(v) => v.clone(),
        None => String::new(),
    }
}

/// What a launch with `cred` must ask the server before it can start:
/// nothing for other providers (`Ok(None)`); for llama.cpp, the models
/// endpoint at the stored base URL with the stored token
/// (`Ok(Some((base_url, token)))`), or an error when no base URL is stored.
pub open spec fn llama_detect_request_spec(slug: Seq<char>, cred: Credential) -> Result<
    Option<(Seq<char>, Seq<char>)>,
    Seq<char>,
> {
    if cred.provider@ != PROVIDER_LLAMACPP_SINGLE_MODEL@ {
        Ok(None)
    } else if trim_spec(env_or_empty(cred.env@, ENV_BASE_URL@)).len() == 0 {
        Err(
            "Profile \""@ + slug + "\" has no ANTHROPIC_BASE_URL \u{2014} cannot auto-detect the llama.cpp model."@,
        )
    } else {
        Ok(Some((env_or_empty(cred.env@, ENV_BASE_URL@), env_or_empty(cred.env@, ENV_AUTH_TOKEN@))))
    }
}

/// Decides whether a launch with `cred` needs the served model's name first
/// (see `llama_detect_request_spec`).
pub fn llama_detect_request(slug: &str, cred: &Credential) -> (r: Result<Option<(String, String)>, AppError>)
    ensures
        match r {
            Ok(None) => llama_detect_request_spec(slug@, *cred) == Ok::<
                Option<(Seq<char>, Seq<char>)>,
                Seq<char>,
            >(None),
            Ok(Some((u, t))) => llama_detect_request_spec(slug@, *cred) == Ok::<
                Option<(Seq<char>, Seq<char>)>,
                Seq<char>,
            >(Some((u@, t@))),
            Err(AppError::Other(m)) => llama_detect_request_spec(slug@, *cred) == Err::<
                Option<(Seq<char>, Seq<char>)>,
                Seq<char>,
            >(m@),
            Err(_) => false,
        },
{
    if !str_eq(cred.provider.as_str(), PROVIDER_LLAMACPP_SINGLE_MODEL) {
        return Ok(None);
    }
    let base_url = get_or_empty(&cred.env, ENV_BASE_URL);
    let t = trim(base_url.as_str());
    if t.as_str().is_empty() {
        return Err(
            AppError::Other(
                concat3(
                    "Profile \"",
                    slug,
                    "\" has no ANTHROPIC_BASE_URL \u{2014} cannot auto-detect the llama.cpp model.",
                ),
            ),
        );
    }
    let token = get_or_empty(&cred.env, ENV_AUTH_TOKEN);
    Ok(Some((base_url, token)))
}

/// The environment once the served model is known: the stored environment
/// with the three model overrides set to `model`.
pub open spec fn with_model_spec(env: Map<Seq<char>, Seq<char>>, model: Seq<char>) -> Map<Seq<char>, Seq<char>> {
    env.insert(ENV_HAIKU_MODEL@, model).insert(ENV_SONNET_MODEL@, model).insert(ENV_OPUS_MODEL@, model)
}

/// The message for a failed detection.
pub open spec fn detect_failed_msg(slug: Seq<char>, e: Seq<char>) -> Seq<char> {
    "Failed to auto-detect model for profile \""@ + slug + "\":\n  "@ + e
}

/// Finishes resolving the launch environment from the detection's outcome:
/// the model fills the three model overrides; a failure becomes an error
/// naming the profile.
pub fn apply_detected_model(slug: &str, cred: &Credential, detected: Result<String, String>) -> (r: Result<
    StrMap<String>,
    AppError,
>)
    ensures
        match (detected, r) {
            (Ok(model), Ok(env)) => string_values_view(env@) == with_model_spec(
                string_values_view(cred.env@),
                model@,
            ),
            (Err(e), Err(AppError::Other(m))) => m@ == detect_failed_msg(slug@, e@),
            _ => false,
        },
{
    match detected {
        Ok(model) => {
            let mut env = clone_string_map(&cred.env);
            let ghost e0 = string_values_view(env@);
            env.insert(to_owned_string(ENV_HAIKU_MODEL), model.clone());
            env.insert(to_owned_string(ENV_SONNET_MODEL), model.clone());
            env.insert(to_owned_string(ENV_OPUS_MODEL), model);
            assert(string_values_view(env@) =~= with_model_spec(e0, model@));
            Ok(env)
        },
        Err(e) => {
            let mut m = concat3("Failed to auto-detect model for profile \"", slug, "\":\n  ");
            append_str(&mut m, e.as_str());
            Err(AppError::Other(m))
        },
    }
}

// ---- Status line arguments --------------------------------------------------------

/// A hex digit, lowercase.
pub open spec fn hex_digit(d: int) -> char {
    if d < 10 {
        ('0' as int + d) as char
    } else {
        ('a' as int + d - 10) as char
    }
}

/// How serde_json writes a character inside a string literal: `"` and `\`
/// and the control characters below U+0020 escaped (the short forms
/// `\b \t \n \f \r` where they exist, `\u00XX` otherwise), every other
/// character as it is.
pub open spec fn json_char_escape(c: char) -> Seq<char> {
    if c == '"' {
        seq!['\\', '"']
    } else if c == '\\' {
        seq!['\\', '\\']
    } else if c == '\x08' {
        seq!['\\', 'b']
    } else if c == '\t' {
        seq!['\\', 't']
    } else if c == '\n' {
        seq!['\\', 'n']
    } else if c == '\x0c' {
        seq!['\\', 'f']
    } else if c == '\r' {
        seq!['\\', 'r']
    } else if (c as u32) < 0x20 {
        seq!['\\', 'u', '0', '0', hex_digit((c as u32) as int / 16), hex_digit((c as u32) as int % 16)]
    } else {
        seq![c]
    }
}

/// The characters of `s`, each as serde_json writes it in a string literal.
pub open spec fn json_escaped(s: Seq<char>) -> Seq<char>
    decreases s.len(),
{
    if s.len() == 0 {
        Seq::empty()
    } else {
        json_escaped(s.drop_last()) + json_char_escape(s.last())
    }
}

/// The JSON string literal of `s`.
pub open spec fn json_string_literal_spec(s: Seq<char>) -> Seq<char> {
    seq!['"'] + json_escaped(s) + seq!['"']
}

/// Calls `serde_json::to_string` on a string slice: the string between
/// quotes, escaped as `json_char_escape` says (serde_json's escape table;
/// writing a string to a `String` does not fail).
#[verifier::external_body]
fn json_string_literal(s: &str) -> (r: String)
    ensures
        r@ == json_string_literal_spec(s@),
{
    match serde_json::to_string(s) {
        Ok(t) => t,
        Err(_) => String::new(),
    }
}

/// The command the CLI runs for its status line.
pub open spec fn statusline_command_spec(exe: Seq<char>, slug: Seq<char>) -> Seq<char> {
    exe + " statusline --profile "@ + slug
}

/// The `--settings` value that installs the status line command.
pub open spec fn statusline_settings_spec(exe: Seq<char>, slug: Seq<char>) -> Seq<char> {
    "{\"statusLine\":{\"command\":"@ + json_string_literal_spec(statusline_command_spec(exe, slug))
        + ",\"type\":\"command\"}}"@
}

/// Whether launches with `cred` show the status line: it is switched on and
/// its provider supports one.
pub open spec fn wants_statusline(cred: Credential) -> bool {
    &&& cred.statusline_enabled
    &&& (find_provider_spec(cred.provider@) matches Some(p) && p.supports_statusline)
}

/// The arguments for the CLI: `claude_args`, preceded by `--settings` and the
/// status line settings when the credential wants a status line. `exe` is the
/// path of this program.
pub fn build_statusline_args(slug: &str, cred: &Credential, exe: &str, claude_args: &Vec<String>) -> (r: Vec<
    String,
>)
    ensures
        views(r@) == if wants_statusline(*cred) {
            seq!["--settings"@, statusline_settings_spec(exe@, slug@)] + views(claude_args@)
        } else {
            views(claude_args@)
        },
{
    let mut out: Vec<String> = Vec::new();
    let supports = cred.statusline_enabled && match get_provider(cred.provider.as_str()) {
        Some(p) => p.supports_statusline,
        None => false,
    };
    if supports {
        out.push(to_owned_string("--settings"));
        let mut command = to_owned_string(exe);
        append_str(&mut command, " statusline --profile ");
        append_str(&mut command, slug);
        let lit = json_string_literal(command.as_str());
        let mut settings = to_owned_string("{\"statusLine\":{\"command\":");
        append_str(&mut settings, lit.as_str());
        append_str(&mut settings, ",\"type\":\"command\"}}");
        out.push(settings);
    }
    let ghost head = views(out@);
    let mut i: usize = 0;
    while i < claude_args.len()
        invariant
            0 <= i <= claude_args@.len(),
            views(out@) == head + views(claude_args@).take(i as int),
        decreases claude_args.len() - i,
    {
        let a = claude_args[i].clone();
        let ghost before = out@;
        out.push(a);
        assert(views(out@) =~= views(before).push(claude_args@[i as int]@));
        assert(views(claude_args@).take(i + 1) =~= views(claude_args@).take(i as int).push(claude_args@[i as int]@));
        assert(views(out@) =~= head + views(claude_args@).take(i + 1));
        i += 1;
    }
    assert(views(claude_args@).take(claude_args@.len() as int) =~= views(claude_args@));
    assert(views(out@) =~= head + views(claude_args@));
    out
}

// ---- Unknown slug --------------------------------------------------------------------

/// The listing line for one saved credential.
pub open spec fn available_line_spec(e: (String, Credential)) -> Seq<char> {
    "    - "@ + e.0@ + " ("@ + e.1.name@ + ")"@
}

/// The error for an unknown slug, listing the saved credentials (in `all`'s
/// order) when there are any.
pub open spec fn not_found_message_spec(slug: Seq<char>, all: Seq<(String, Credential)>) -> Seq<char> {
    "Profile \""@ + slug + "\" not found."@ + if all.len() == 0 {
        Seq::empty()
    } else {
        "\n  Available profiles:\n"@ + join_spec(
            all.map_values(|e: (String, Credential)| available_line_spec(e)),
            "\n"@,
        )
    }
}

fn available_lines(pairs: &Vec<(String, Credential)>) -> (r: Vec<String>)
    ensures
        views(r@) == pairs@.map_values(|e: (String, Credential)| available_line_spec(e)),
{
    let mut lines: Vec<String> = Vec::new();
    let mut i: usize = 0;
    while i < pairs.len()
        invariant
            0 <= i <= pairs@.len(),
            views(lines@) == pairs@.take(i as int).map_values(|e: (String, Credential)| available_line_spec(e)),
        decreases pairs.len() - i,
    {
        let mut line = to_owned_string("    - ");
        append_str(&mut line, pairs[i].0.as_str());
        append_str(&mut line, " (");
        append_str(&mut line, pairs[i].1.name.as_str());
        append_str(&mut line, ")");
        let ghost before = lines@;
        lines.push(line);
        proof {
            let e = pairs@[i as int];
            assert(line@ == available_line_spec(e));
            assert(views(lines@) =~= views(before).push(line@));
            assert(pairs@.take(i + 1).map_values(|e: (String, Credential)| available_line_spec(e)) =~= pairs@.take(
                i as int,
            ).map_values(|e: (String, Credential)| available_line_spec(e)).push(available_line_spec(e)));
        }
        i += 1;
    }
    assert(pairs@.take(pairs@.len() as int) =~= pairs@);
    lines
}

/// The error for launching with an unknown slug.
pub fn not_found_message(slug: &str, all: &StrMap<Credential>) -> (r: String)
    ensures
        r@ == not_found_message_spec(slug@, all.seq()),
{
    let mut r = concat3("Profile \"", slug, "\" not found.");
    let pairs = all.pairs();
    if pairs.len() == 0 {
        return r;
    }
    let lines = available_lines(pairs);
    append_str(&mut r, "\n  Available profiles:\n");
    let joined = join(&lines, "\n");
    append_str(&mut r, joined.as_str());
    r
}

} // verus!
