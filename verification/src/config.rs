//! The launcher's persisted settings (`updater.json`) as plain values, and
//! their mathematical view. Reading and writing the file is done by the
//! application shell; the library only decides how the values change.

use vstd::prelude::*;

verus! {

/// Where an installation lives and which Windows hive/profile it uses.
#[derive(Debug, Clone, Copy, PartialEq, Eq, Structural)]
pub enum InstallMode {
    Portable,
    User,
    System,
}

/// How often automatic (startup) update checks may query the network.
#[derive(Debug, Clone, Copy, PartialEq, Eq, Structural)]
pub enum UpdatePolicy {
    Always,
    Daily,
    Weekly,
    Never,
}

/// How the official MSIX package is obtained.
#[derive(Debug, Clone, Copy, PartialEq, Eq, Structural)]
pub enum Fetcher {
    Direct,
    Winget,
    LocalFile,
}

/// Persisted launcher configuration.
#[derive(Debug, Clone)]
pub struct Config {
    pub install_mode: InstallMode,
    pub current_version: String,
    pub update_policy: UpdatePolicy,
    pub last_check_unix: Option<u64>,
    pub last_launcher_check_unix: Option<u64>,
    pub suppress_until_unix: Option<u64>,
    pub known_latest: Option<String>,
    pub skipped_version: Option<String>,
    pub keep_versions: u32,
    pub keep_all_versions: bool,
    pub fetcher: Fetcher,
    pub use_current_junction: bool,
    pub register_uninstall: bool,
    pub register_codex_protocol: Option<bool>,
    pub known_latest_launcher: Option<String>,
    pub skipped_launcher_version: Option<String>,
    pub launcher_suppress_until_unix: Option<u64>,
}

/// The configuration with its texts taken as character sequences.
#[verifier::ext_equal]
pub struct ConfigView {
    pub install_mode: InstallMode,
    pub current_version: Seq<char>,
    pub update_policy: UpdatePolicy,
    pub last_check_unix: Option<u64>,
    pub last_launcher_check_unix: Option<u64>,
    pub suppress_until_unix: Option<u64>,
    pub known_latest: Option<Seq<char>>,
    pub skipped_version: Option<Seq<char>>,
    pub keep_versions: u32,
    pub keep_all_versions: bool,
    pub fetcher: Fetcher,
    pub use_current_junction: bool,
    pub register_uninstall: bool,
    pub register_codex_protocol: Option<bool>,
    pub known_latest_launcher: Option<Seq<char>>,
    pub skipped_launcher_version: Option<Seq<char>>,
    pub launcher_suppress_until_unix: Option<u64>,
}

pub open spec fn opt_text(o: Option<String>) -> Option<Seq<char>> {
    match o {
        Some(s) => Some(s@),
        None => None,
    }
}

impl View for Config {
    type V = ConfigView;

    open spec fn view(&self) -> ConfigView {
        ConfigView {
            install_mode: self.install_mode,
            current_version: self.current_version@,
            update_policy: self.update_policy,
            last_check_unix: self.last_check_unix,
            last_launcher_check_unix: self.last_launcher_check_unix,
            suppress_until_unix: self.suppress_until_unix,
            known_latest: opt_text(self.known_latest),
            skipped_version: opt_text(self.skipped_version),
            keep_versions: self.keep_versions,
            keep_all_versions: self.keep_all_versions,
            fetcher: self.fetcher,
            use_current_junction: self.use_current_junction,
            register_uninstall: self.register_uninstall,
            register_codex_protocol: self.register_codex_protocol,
            known_latest_launcher: opt_text(self.known_latest_launcher),
            skipped_launcher_version: opt_text(self.skipped_launcher_version),
            launcher_suppress_until_unix: self.launcher_suppress_until_unix,
        }
    }
}

impl Config {
    /// The explicit `codex://` preference: `Some(true)` keep it registered,
    /// `Some(false)` keep it removed, `None` only repair an existing one.
    pub fn register_codex_protocol_preference(&self) -> (r: Option<bool>)
        ensures
            r == self.register_codex_protocol,
    {
        self.register_codex_protocol
    }
}

} // verus!
