//! Verified core of the Codex Windows Chinese install/update assistant:
//! version naming, ordering, retention and deletion; update-check and
//! snooze decisions; the `codex://` protocol ownership rules and the state
//! machines that change them; shortcut plans; the `versions/current`
//! junction; the order of a fresh install and of an update, and the work
//! after either; the UI bridge texts; the
//! one-shot helper command line and the result protocol of the elevated
//! helper. Apart from the clock and the per-user folder lookup, whatever
//! touches the disk, the registry, processes or the network is done by the
//! application shell, which hands plain values in and carries out the
//! decisions that come back.

pub mod bridge;
pub mod cli;
pub mod clock;
pub mod config;
pub mod elevated;
pub mod install_flow;
pub mod installer;
pub mod junction;
pub mod post_work;
pub mod protocol_change;
pub mod proxy;
pub mod registry;
pub mod shortcut;
pub mod shortcut_toggle;
pub mod text;
pub mod update_flow;
pub mod updater;
pub mod versions;
