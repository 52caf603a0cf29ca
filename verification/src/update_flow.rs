//! The order of an update of an existing install, as a step function: the
//! shell loads the configuration, downloads and extracts the new version,
//! reloads the configuration (so settings changed meanwhile survive),
//! saves it for the new version and keeps the launch surface in line; this
//! module says what comes next, and the flow ends with exactly one final
//! action.

use crate::config::{opt_text, Config, ConfigView, Fetcher};
use crate::installer::{
    configured_update_fetcher, protocol_sync_warning, protocol_sync_warning_spec, record_update,
    update_detail_spec, update_start_detail,
};
use crate::post_work::{extract_start_detail, extract_start_spec};
use crate::text::owned;
use vstd::prelude::*;

verus! {

/// What the flow waits for: the outcome of the action it asked for last.
#[derive(Debug, Clone, Copy, PartialEq, Eq, Structural)]
pub enum UpdateStage {
    LoadingConfig,
    Downloading,
    AnnouncingExtract,
    Extracting,
    AnnouncingFinalize,
    ReloadingConfig,
    SavingConfig,
    SyncingSurface,
    /// A final action was given; nothing follows.
    Finished,
}

/// Where an update stands: the stage, and the version once downloaded.
#[derive(Debug, Clone)]
pub struct UpdateFlow {
    pub stage: UpdateStage,
    pub version: Option<String>,
}

pub struct UpdateFlowView {
    pub stage: UpdateStage,
    pub version: Option<Seq<char>>,
}

impl View for UpdateFlow {
    type V = UpdateFlowView;

    open spec fn view(&self) -> UpdateFlowView {
        UpdateFlowView { stage: self.stage, version: opt_text(self.version) }
    }
}

/// What the shell reports back.
#[derive(Debug, Clone)]
pub enum UpdateFlowEvent {
    /// The install's runtime configuration as just read, with the clock
    /// reading taken at that moment.
    ConfigLoaded { config: Config, now: u64 },
    /// The action finished.
    StepDone,
    /// The new package was downloaded; it holds `version`.
    Downloaded { version: String },
    /// Keeping `versions/current` and `codex://` in line finished, with its
    /// error when it failed.
    SurfaceSynced { error: Option<String> },
    /// The action failed with this message.
    Failed { message: String },
}

pub enum UpdateEventView {
    ConfigLoaded { config: ConfigView, now: u64 },
    StepDone,
    Downloaded { version: Seq<char> },
    SurfaceSynced { error: Option<Seq<char>> },
    Failed { message: Seq<char> },
}

impl View for UpdateFlowEvent {
    type V = UpdateEventView;

    open spec fn view(&self) -> UpdateEventView {
        match self {
            UpdateFlowEvent::ConfigLoaded { config, now } => UpdateEventView::ConfigLoaded {
                config: config@,
                now: *now,
            },
            UpdateFlowEvent::StepDone => UpdateEventView::StepDone,
            UpdateFlowEvent::Downloaded { version } => UpdateEventView::Downloaded {
                version: version@,
            },
            UpdateFlowEvent::SurfaceSynced { error } => UpdateEventView::SurfaceSynced {
                error: opt_text(*error),
            },
            UpdateFlowEvent::Failed { message } => UpdateEventView::Failed { message: message@ },
        }
    }
}

/// What the shell does next.
#[derive(Debug, Clone)]
pub enum UpdateFlowAction {
    /// Read the install's runtime configuration.
    LoadConfig,
    /// Create the `downloads` folder, show the "Downloading" phase with
    /// `detail`, then download the latest package, starting with `fetcher`
    /// and falling back to the other one.
    Download { detail: String, fetcher: Fetcher },
    /// Show the "Extracting" phase with `detail`.
    AnnounceExtract { detail: String },
    /// Extract the package as `versions/<version>`.
    Extract { version: String },
    /// Show the "Finalizing" phase with `detail`.
    AnnounceFinalize { detail: String },
    /// Read the runtime configuration again.
    ReloadConfig,
    /// Save this configuration as the install's configuration.
    SaveConfig { config: Config },
    /// Bring `versions/current` and `codex://` in line with the saved configuration.
    SyncLaunchSurface,
    /// The update is usable: show `warning` if there is one, run the
    /// post-update integration work, and report `version` as installed.
    Finish { version: String, warning: Option<String> },
    /// The update stops with this message.
    Fail { message: String },
    /// The flow has ended.
    Nothing,
}

pub enum UpdateActionView {
    LoadConfig,
    Download { detail: Seq<char>, fetcher: Fetcher },
    AnnounceExtract { detail: Seq<char> },
    Extract { version: Seq<char> },
    AnnounceFinalize { detail: Seq<char> },
    ReloadConfig,
    SaveConfig { config: ConfigView },
    SyncLaunchSurface,
    Finish { version: Seq<char>, warning: Option<Seq<char>> },
    Fail { message: Seq<char> },
    Nothing,
}

impl View for UpdateFlowAction {
    type V = UpdateActionView;

    open spec fn view(&self) -> UpdateActionView {
        match self {
            UpdateFlowAction::LoadConfig => UpdateActionView::LoadConfig,
            UpdateFlowAction::Download { detail, fetcher } => UpdateActionView::Download {
                detail: detail@,
                fetcher: *fetcher,
            },
            UpdateFlowAction::AnnounceExtract { detail } => UpdateActionView::AnnounceExtract {
                detail: detail@,
            },
            UpdateFlowAction::Extract { version } => UpdateActionView::Extract {
                version: version@,
            },
            UpdateFlowAction::AnnounceFinalize { detail } => UpdateActionView::AnnounceFinalize {
                detail: detail@,
            },
            UpdateFlowAction::ReloadConfig => UpdateActionView::ReloadConfig,
            UpdateFlowAction::SaveConfig { config } => UpdateActionView::SaveConfig {
                config: config@,
            },
            UpdateFlowAction::SyncLaunchSurface => UpdateActionView::SyncLaunchSurface,
            UpdateFlowAction::Finish { version, warning } => UpdateActionView::Finish {
                version: version@,
                warning: opt_text(*warning),
            },
            UpdateFlowAction::Fail { message } => UpdateActionView::Fail { message: message@ },
            UpdateFlowAction::Nothing => UpdateActionView::Nothing,
        }
    }
}

pub open spec fn update_finalize_detail() -> Seq<char> {
    "正在写入更新配置。"@
}

/// The reloaded configuration `c` as saved after updating to `version` at `now`.
pub open spec fn updated_config_spec(c: ConfigView, version: Seq<char>, now: u64) -> ConfigView {
    ConfigView {
        current_version: version,
        known_latest: Some(version),
        suppress_until_unix: None,
        last_check_unix: Some(now),
        ..c
    }
}

/// The fetcher an update starts with for a configuration.
pub open spec fn update_fetcher_spec(c: ConfigView) -> Fetcher {
    if c.fetcher == Fetcher::LocalFile {
        Fetcher::Direct
    } else {
        c.fetcher
    }
}

pub open spec fn upd(stage: UpdateStage, version: Option<Seq<char>>) -> UpdateFlowView {
    UpdateFlowView { stage, version }
}

/// The next stage and action of an update in `s` on event `e`.
pub open spec fn update_next_spec(s: UpdateFlowView, e: UpdateEventView) -> (
    UpdateFlowView,
    UpdateActionView,
) {
    let v = s.version;
    let idle = (s, UpdateActionView::Nothing);
    match e {
        UpdateEventView::Failed { message } => if s.stage == UpdateStage::Finished {
            idle
        } else {
            (upd(UpdateStage::Finished, v), UpdateActionView::Fail { message })
        },
        UpdateEventView::ConfigLoaded { config, now } => if s.stage == UpdateStage::LoadingConfig {
            (
                upd(UpdateStage::Downloading, v),
                UpdateActionView::Download {
                    detail: update_detail_spec(update_fetcher_spec(config)),
                    fetcher: update_fetcher_spec(config),
                },
            )
        } else if s.stage == UpdateStage::ReloadingConfig && v is Some {
            (
                upd(UpdateStage::SavingConfig, v),
                UpdateActionView::SaveConfig { config: updated_config_spec(config, v->0, now) },
            )
        } else {
            idle
        },
        UpdateEventView::StepDone => match s.stage {
            UpdateStage::AnnouncingExtract => if v is Some {
                (upd(UpdateStage::Extracting, v), UpdateActionView::Extract { version: v->0 })
            } else {
                idle
            },
            UpdateStage::Extracting => (
                upd(UpdateStage::AnnouncingFinalize, v),
                UpdateActionView::AnnounceFinalize { detail: update_finalize_detail() },
            ),
            UpdateStage::AnnouncingFinalize => (
                upd(UpdateStage::ReloadingConfig, v),
                UpdateActionView::ReloadConfig,
            ),
            UpdateStage::SavingConfig => (
                upd(UpdateStage::SyncingSurface, v),
                UpdateActionView::SyncLaunchSurface,
            ),
            _ => idle,
        },
        UpdateEventView::Downloaded { version } => if s.stage == UpdateStage::Downloading {
            (
                upd(UpdateStage::AnnouncingExtract, Some(version)),
                UpdateActionView::AnnounceExtract { detail: extract_start_spec(version) },
            )
        } else {
            idle
        },
        UpdateEventView::SurfaceSynced { error } => if s.stage == UpdateStage::SyncingSurface
            && v is Some {
            (
                upd(UpdateStage::Finished, v),
                UpdateActionView::Finish {
                    version: v->0,
                    warning: match error {
                        Some(m) => Some(protocol_sync_warning_spec("更新"@, m)),
                        None => None,
                    },
                },
            )
        } else {
            idle
        },
    }
}

/// An update before anything has happened: its first action loads the
/// configuration.
pub fn update_flow_start() -> (r: (UpdateFlow, UpdateFlowAction))
    ensures
        r.0@ == upd(UpdateStage::LoadingConfig, None),
        r.1@ == UpdateActionView::LoadConfig,
{
    (UpdateFlow { stage: UpdateStage::LoadingConfig, version: None }, UpdateFlowAction::LoadConfig)
}

/// The next stage and action of an update.
pub fn update_next(s: UpdateFlow, e: UpdateFlowEvent) -> (r: (UpdateFlow, UpdateFlowAction))
    ensures
        (r.0@, r.1@) == update_next_spec(s@, e@),
{
    let stage = s.stage;
    let version = s.version;
    match e {
        UpdateFlowEvent::Failed { message } => {
            if stage == UpdateStage::Finished {
                (UpdateFlow { stage, version }, UpdateFlowAction::Nothing)
            } else {
                (
                    UpdateFlow { stage: UpdateStage::Finished, version },
                    UpdateFlowAction::Fail { message },
                )
            }
        },
        UpdateFlowEvent::ConfigLoaded { config, now } => {
            if stage == UpdateStage::LoadingConfig {
                let fetcher = configured_update_fetcher(config.fetcher);
                (
                    UpdateFlow { stage: UpdateStage::Downloading, version },
                    UpdateFlowAction::Download { detail: update_start_detail(fetcher), fetcher },
                )
            } else if stage == UpdateStage::ReloadingConfig && version.is_some() {
                let v = version.unwrap();
                let mut config = config;
                record_update(&mut config, v.as_str(), now);
                (
                    UpdateFlow { stage: UpdateStage::SavingConfig, version: Some(v) },
                    UpdateFlowAction::SaveConfig { config },
                )
            } else {
                (UpdateFlow { stage, version }, UpdateFlowAction::Nothing)
            }
        },
        UpdateFlowEvent::StepDone => match stage {
            UpdateStage::AnnouncingExtract => match version {
                Some(v) => (
                    UpdateFlow { stage: UpdateStage::Extracting, version: Some(v.clone()) },
                    UpdateFlowAction::Extract { version: v },
                ),
                None => (UpdateFlow { stage, version: None }, UpdateFlowAction::Nothing),
            },
            UpdateStage::Extracting => (
                UpdateFlow { stage: UpdateStage::AnnouncingFinalize, version },
                UpdateFlowAction::AnnounceFinalize { detail: owned("正在写入更新配置。") },
            ),
            UpdateStage::AnnouncingFinalize => (
                UpdateFlow { stage: UpdateStage::ReloadingConfig, version },
                UpdateFlowAction::ReloadConfig,
            ),
            UpdateStage::SavingConfig => (
                UpdateFlow { stage: UpdateStage::SyncingSurface, version },
                UpdateFlowAction::SyncLaunchSurface,
            ),
            _ => (UpdateFlow { stage, version }, UpdateFlowAction::Nothing),
        },
        UpdateFlowEvent::Downloaded { version: downloaded } => {
            if stage == UpdateStage::Downloading {
                let detail = extract_start_detail(downloaded.as_str());
                (
                    UpdateFlow { stage: UpdateStage::AnnouncingExtract, version: Some(downloaded) },
                    UpdateFlowAction::AnnounceExtract { detail },
                )
            } else {
                (UpdateFlow { stage, version }, UpdateFlowAction::Nothing)
            }
        },
        UpdateFlowEvent::SurfaceSynced { error } => {
            if stage == UpdateStage::SyncingSurface && version.is_some() {
                let v = version.unwrap();
                let warning = match error {
                    Some(m) => Some(protocol_sync_warning("更新", m.as_str())),
                    None => None,
                };
                (
                    UpdateFlow { stage: UpdateStage::Finished, version: Some(v.clone()) },
                    UpdateFlowAction::Finish { version: v, warning },
                )
            } else {
                (UpdateFlow { stage, version }, UpdateFlowAction::Nothing)
            }
        },
    }
}

// ---------------------------------------------------------------------------
// Laws of the update flow
// ---------------------------------------------------------------------------

/// The configuration saved after an update is the one read after the new
/// version was extracted, with only the current and known-latest versions,
/// the snooze and the last check time changed: settings changed while the
/// update ran survive it.
pub proof fn law_update_keeps_settings_changed_meanwhile(
    version: Seq<char>,
    reloaded: ConfigView,
    now: u64,
)
    ensures
        ({
            let (_, a) = update_next_spec(
                upd(UpdateStage::ReloadingConfig, Some(version)),
                UpdateEventView::ConfigLoaded { config: reloaded, now },
            );
            &&& a matches UpdateActionView::SaveConfig { config: c }
            &&& c.current_version == version
            &&& c.known_latest == Some(version)
            &&& c.suppress_until_unix is None
            &&& c.last_check_unix == Some(now)
            &&& c.install_mode == reloaded.install_mode
            &&& c.update_policy == reloaded.update_policy
            &&& c.skipped_version == reloaded.skipped_version
            &&& c.keep_versions == reloaded.keep_versions
            &&& c.keep_all_versions == reloaded.keep_all_versions
            &&& c.fetcher == reloaded.fetcher
            &&& c.use_current_junction == reloaded.use_current_junction
            &&& c.register_uninstall == reloaded.register_uninstall
            &&& c.register_codex_protocol == reloaded.register_codex_protocol
            &&& c.last_launcher_check_unix == reloaded.last_launcher_check_unix
            &&& c.known_latest_launcher == reloaded.known_latest_launcher
            &&& c.skipped_launcher_version == reloaded.skipped_launcher_version
            &&& c.launcher_suppress_until_unix == reloaded.launcher_suppress_until_unix
        }),
{
}

/// Once a final action has been given, nothing more happens.
pub proof fn law_finished_update_stays_finished(s: UpdateFlowView, e: UpdateEventView)
    requires
        s.stage == UpdateStage::Finished,
    ensures
        update_next_spec(s, e) == (s, UpdateActionView::Nothing),
{
}

/// Without a failure, an update loads the configuration, downloads with
/// the configured fetcher, announces and extracts the downloaded version,
/// reloads and saves the configuration for it, syncs the launch surface and
/// finishes with that version and, when the sync failed, its warning.
pub proof fn law_update_runs_in_order(
    first: ConfigView,
    reloaded: ConfigView,
    now: u64,
    version: Seq<char>,
    sync_error: Option<Seq<char>>,
)
    ensures
        ({
            let s0 = upd(UpdateStage::LoadingConfig, None);
            let (s1, a1) = update_next_spec(
                s0,
                UpdateEventView::ConfigLoaded { config: first, now },
            );
            let (s2, a2) = update_next_spec(s1, UpdateEventView::Downloaded { version });
            let (s3, a3) = update_next_spec(s2, UpdateEventView::StepDone);
            let (s4, a4) = update_next_spec(s3, UpdateEventView::StepDone);
            let (s5, a5) = update_next_spec(s4, UpdateEventView::StepDone);
            let (s6, a6) = update_next_spec(
                s5,
                UpdateEventView::ConfigLoaded { config: reloaded, now },
            );
            let (s7, a7) = update_next_spec(s6, UpdateEventView::StepDone);
            let (s8, a8) = update_next_spec(s7, UpdateEventView::SurfaceSynced { error: sync_error });
            &&& a1 == UpdateActionView::Download {
                detail: update_detail_spec(update_fetcher_spec(first)),
                fetcher: update_fetcher_spec(first),
            }
            &&& a2 == UpdateActionView::AnnounceExtract { detail: extract_start_spec(version) }
            &&& a3 == UpdateActionView::Extract { version }
            &&& a4 == UpdateActionView::AnnounceFinalize { detail: update_finalize_detail() }
            &&& a5 == UpdateActionView::ReloadConfig
            &&& a6 == UpdateActionView::SaveConfig {
                config: updated_config_spec(reloaded, version, now),
            }
            &&& a7 == UpdateActionView::SyncLaunchSurface
            &&& a8 == UpdateActionView::Finish {
                version,
                warning: match sync_error {
                    Some(m) => Some(protocol_sync_warning_spec("更新"@, m)),
                    None => None,
                },
            }
            &&& s8.stage == UpdateStage::Finished
        }),
{
}

} // verus!
