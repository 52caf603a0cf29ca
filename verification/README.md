# codex_windows_cn

The decision core of Codex Windows 中文助手, a Chinese install/update
assistant for the official Codex / ChatGPT desktop app on Windows, written in
Verus: every rule is an executable function whose `requires`/`ensures`
contract Verus proves.

## Layout

- `src/` — the verified library.
  - `versions` — strict dotted-numeric version names, scanning `versions/`
    (newest first), launch targets, retention and deletion guards.
  - `updater` — version ordering, automatic-check cooldowns, snooze/skip
    choices, cached prompts, the launcher's own release checks.
  - `registry` — ownership of the `codex://` registration and the
    Add/Remove Programs entry; `installer` — install/update configuration,
    shortcut plans, `codex://` synchronisation; `protocol_change` — the
    state machines that enable, replace or remove `codex://` with rollback.
  - `cli` — the one-shot helper command line and the hexadecimal rollback
    transport; `elevated` — the result protocol of the elevated helper.
  - `proxy` — which processes and versions are running, the launch plan.
  - `install_flow`, `update_flow` — the order of a fresh install (with its
    cancel points) and of an update, each ending in one final outcome, as
    step functions the shell drives.
  - `bridge`, `shortcut`, `shortcut_toggle`, `post_work`, `junction`,
    `config`, `text`, `clock` — UI texts, shortcut names, the work after an
    install, `versions/current`, the settings model and text utilities.
- `tests/` — executable tests of the library.
- `app/` — the Windows shell around it: files, registry, shortcuts,
  processes and elevation, handing plain values to the library.

Public proof functions named `law_*` state properties that hold across
functions (for instance: decoding what was encoded gives it back, a helper
command line parses back to its action, writing a registration and
registering again changes nothing, retention never deletes a running
version).
