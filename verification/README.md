# provider_launcher

A launcher for an AI coding assistant's command-line tool: it keeps named
sets of provider credentials (base URL, token, model overrides and extra
request settings) in a JSON file, lets the user pick one from a terminal
menu or by slug, and starts the tool with those values in its environment.
It can also print a status line with the provider's account balance.

## Layout

- `src/` — the verified library (Verus). The credentials and settings
  models and their operations, the provider registry and forms, slugs and
  path handling, the command-line plan, the launch environment and command
  text, the status-line decisions and texts, and every screen of the
  interactive interface as a state machine (`handle_key` from state and key
  to new state and request). Calls into outside crates (jiff, crossterm,
  serde_json, itertools) sit behind small trusted wrappers
  whose contracts are stated where they are declared.
- `app/` — the program around it: argument parsing (clap), files and
  permissions, HTTP requests (ureq), the balance cache (heed), the terminal
  and drawing (ratatui, ratatui-textarea), and running the assistant.
- `tests/` — tests of the library on concrete values.
