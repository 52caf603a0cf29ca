//! The order of a fresh install, as a step function: the shell performs each
//! action (creating folders, downloading, extracting, writing files, keeping
//! the launch surface in line) and reports what happened; this module says
//! what comes next. The user's cancel request is honoured at each point
//! where the install may still stop, and the flow ends with exactly one
//! final action: success with the installed version, or failure.

use crate::config::{Config, ConfigView, UpdatePolicy};
use crate::installer::{
    download_detail_spec, download_start_detail, installed_config, installed_config_spec,
    protocol_sync_warning, protocol_sync_warning_spec, InstallOptions,
};
use crate::post_work::{
    extract_start_detail, extract_start_spec, install_steps_spec, post_install_steps,
    retention_spec, IntegrationStep,
};
use crate::text::owned;
use vstd::prelude::*;

verus! {

/// What the flow waits for: the outcome of the action it asked for last.
#[derive(Debug, Clone, Copy, PartialEq, Eq, Structural)]
pub enum InstallStage {
    /// Nothing has happened yet; the first report is the cancel flag.
    Begin,
    Preparing,
    Downloading,
    AnnouncingExtract,
    Extracting,
    AnnouncingFinalize,
    PlacingLauncher,
    SavingConfig,
    SyncingSurface,
    /// A final action was given; nothing follows.
    Finished,
}

/// Where an install stands: the stage, and the version once downloaded.
#[derive(Debug, Clone)]
pub struct InstallFlow {
    pub stage: InstallStage,
    pub version: Option<String>,
}

pub struct InstallFlowView {
    pub stage: InstallStage,
    pub version: Option<Seq<char>>,
}

impl View for InstallFlow {
    type V = InstallFlowView;

    open spec fn view(&self) -> InstallFlowView {
        InstallFlowView { stage: self.stage, version: crate::config::opt_text(self.version) }
    }
}

/// What the shell reports back.
#[derive(Debug, Clone)]
pub enum InstallFlowEvent {
    /// The action finished; `cancelled` is the user's cancel request as read
    /// right afterwards.
    StepDone { cancelled: bool },
    /// The package was downloaded (or copied); it holds `version`.
    Downloaded { version: String },
    /// Keeping `versions/current` and `codex://` in line finished, with its
    /// error when it failed.
    SurfaceSynced { error: Option<String> },
    /// The action failed with this message.
    Failed { message: String },
}

pub enum InstallEventView {
    StepDone { cancelled: bool },
    Downloaded { version: Seq<char> },
    SurfaceSynced { error: Option<Seq<char>> },
    Failed { message: Seq<char> },
}

impl View for InstallFlowEvent {
    type V = InstallEventView;

    open spec fn view(&self) -> InstallEventView {
        match self {
            InstallFlowEvent::StepDone { cancelled } => InstallEventView::StepDone {
                cancelled: *cancelled,
            },
            InstallFlowEvent::Downloaded { version } => InstallEventView::Downloaded {
                version: version@,
            },
            InstallFlowEvent::SurfaceSynced { error } => InstallEventView::SurfaceSynced {
                error: crate::config::opt_text(*error),
            },
            InstallFlowEvent::Failed { message } => InstallEventView::Failed { message: message@ },
        }
    }
}

/// What the shell does next.
#[derive(Debug, Clone)]
pub enum InstallFlowAction {
    /// Create the install root and its `downloads` folder, then show the
    /// "Downloading" phase with `detail`.
    Prepare { detail: String },
    /// Download the latest package with the chosen fetcher (or copy the
    /// local package).
    Download,
    /// Show the "Extracting" phase with `detail`.
    AnnounceExtract { detail: String },
    /// Extract the package as `versions/<version>`.
    Extract { version: String },
    /// Show the "Finalizing" phase with `detail`.
    AnnounceFinalize { detail: String },
    /// Put the launcher in the install root.
    PlaceLauncher,
    /// Save this configuration as the install's configuration.
    SaveConfig { config: Config },
    /// Bring `versions/current` and `codex://` in line with the saved configuration.
    SyncLaunchSurface,
    /// The install is usable: show `warning` if there is one, run the
    /// integration `steps` in order, and report `version` as installed.
    Finish { version: String, warning: Option<String>, steps: Vec<IntegrationStep> },
    /// The install stops with this message.
    Fail { message: String },
    /// The flow has ended.
    Nothing,
}

pub enum InstallActionView {
    Prepare { detail: Seq<char> },
    Download,
    AnnounceExtract { detail: Seq<char> },
    Extract { version: Seq<char> },
    AnnounceFinalize { detail: Seq<char> },
    PlaceLauncher,
    SaveConfig { config: ConfigView },
    SyncLaunchSurface,
    Finish { version: Seq<char>, warning: Option<Seq<char>>, steps: Seq<IntegrationStep> },
    Fail { message: Seq<char> },
    Nothing,
}

impl View for InstallFlowAction {
    type V = InstallActionView;

    open spec fn view(&self) -> InstallActionView {
        match self {
            InstallFlowAction::Prepare { detail } => InstallActionView::Prepare { detail: detail@ },
            InstallFlowAction::Download => InstallActionView::Download,
            InstallFlowAction::AnnounceExtract { detail } => InstallActionView::AnnounceExtract {
                detail: detail@,
            },
            InstallFlowAction::Extract { version } => InstallActionView::Extract {
                version: version@,
            },
            InstallFlowAction::AnnounceFinalize { detail } => InstallActionView::AnnounceFinalize {
                detail: detail@,
            },
            InstallFlowAction::PlaceLauncher => InstallActionView::PlaceLauncher,
            InstallFlowAction::SaveConfig { config } => InstallActionView::SaveConfig {
                config: config@,
            },
            InstallFlowAction::SyncLaunchSurface => InstallActionView::SyncLaunchSurface,
            InstallFlowAction::Finish { version, warning, steps } => InstallActionView::Finish {
                version: version@,
                warning: crate::config::opt_text(*warning),
                steps: steps@,
            },
            InstallFlowAction::Fail { message } => InstallActionView::Fail { message: message@ },
            InstallFlowAction::Nothing => InstallActionView::Nothing,
        }
    }
}

pub open spec fn cancelled_message() -> Seq<char> {
    "安装已取消"@
}

pub open spec fn finalize_detail() -> Seq<char> {
    "正在写入启动器和配置。"@
}

/// The integration steps after installing with `opts`, using the retention
/// that the saved configuration holds.
pub open spec fn install_flow_steps(opts: InstallOptions) -> Seq<IntegrationStep> {
    install_steps_spec(
        opts.create_shortcut,
        opts.create_desktop_shortcut,
        opts.create_assistant_desktop_shortcut,
        opts.register_uninstall,
        retention_spec(
            if opts.keep_versions == 0 {
                1
            } else {
                opts.keep_versions
            },
            opts.keep_all_versions,
        ),
    )
}

pub open spec fn at(stage: InstallStage, version: Option<Seq<char>>) -> InstallFlowView {
    InstallFlowView { stage, version }
}

/// Stop: the flow is finished with `message`.
pub open spec fn stop(version: Option<Seq<char>>, message: Seq<char>) -> (
    InstallFlowView,
    InstallActionView,
) {
    (at(InstallStage::Finished, version), InstallActionView::Fail { message })
}

/// After a step whose report is checked for cancellation: stop when the
/// user cancelled, otherwise go to `stage` with `action`.
pub open spec fn unless_cancelled(
    cancelled: bool,
    version: Option<Seq<char>>,
    stage: InstallStage,
    action: InstallActionView,
) -> (InstallFlowView, InstallActionView) {
    if cancelled {
        stop(version, cancelled_message())
    } else {
        (at(stage, version), action)
    }
}

/// The next stage and action of an install with `opts` (new configurations
/// get `update_policy`) in `s` on event `e`.
pub open spec fn install_next_spec(
    opts: InstallOptions,
    update_policy: UpdatePolicy,
    s: InstallFlowView,
    e: InstallEventView,
) -> (InstallFlowView, InstallActionView) {
    let v = s.version;
    match e {
        InstallEventView::Failed { message } => if s.stage == InstallStage::Finished {
            (s, InstallActionView::Nothing)
        } else {
            stop(v, message)
        },
        InstallEventView::StepDone { cancelled } => match s.stage {
            InstallStage::Begin => unless_cancelled(
                cancelled,
                v,
                InstallStage::Preparing,
                InstallActionView::Prepare { detail: download_detail_spec(opts.fetcher) },
            ),
            InstallStage::Preparing => unless_cancelled(
                cancelled,
                v,
                InstallStage::Downloading,
                InstallActionView::Download,
            ),
            InstallStage::AnnouncingExtract => if v is Some {
                unless_cancelled(
                    cancelled,
                    v,
                    InstallStage::Extracting,
                    InstallActionView::Extract { version: v->0 },
                )
            } else {
                (s, InstallActionView::Nothing)
            },
            InstallStage::Extracting => (
                at(InstallStage::AnnouncingFinalize, v),
                InstallActionView::AnnounceFinalize { detail: finalize_detail() },
            ),
            InstallStage::AnnouncingFinalize => unless_cancelled(
                cancelled,
                v,
                InstallStage::PlacingLauncher,
                InstallActionView::PlaceLauncher,
            ),
            InstallStage::PlacingLauncher => if v is Some {
                unless_cancelled(
                    cancelled,
                    v,
                    InstallStage::SavingConfig,
                    InstallActionView::SaveConfig {
                        config: installed_config_spec(opts, v->0, update_policy),
                    },
                )
            } else {
                (s, InstallActionView::Nothing)
            },
            InstallStage::SavingConfig => (
                at(InstallStage::SyncingSurface, v),
                InstallActionView::SyncLaunchSurface,
            ),
            _ => (s, InstallActionView::Nothing),
        },
        InstallEventView::Downloaded { version } => if s.stage == InstallStage::Downloading {
            (
                at(InstallStage::AnnouncingExtract, Some(version)),
                InstallActionView::AnnounceExtract { detail: extract_start_spec(version) },
            )
        } else {
            (s, InstallActionView::Nothing)
        },
        InstallEventView::SurfaceSynced { error } => if s.stage == InstallStage::SyncingSurface
            && v is Some {
            (
                at(InstallStage::Finished, v),
                InstallActionView::Finish {
                    version: v->0,
                    warning: match error {
                        Some(m) => Some(protocol_sync_warning_spec("安装"@, m)),
                        None => None,
                    },
                    steps: install_flow_steps(opts),
                },
            )
        } else {
            (s, InstallActionView::Nothing)
        },
    }
}

/// A fresh install, before anything has happened.
pub fn install_flow_start() -> (r: InstallFlow)
    ensures
        r@ == at(InstallStage::Begin, None),
{
    InstallFlow { stage: InstallStage::Begin, version: None }
}

fn failure(version: Option<String>, message: String) -> (r: (InstallFlow, InstallFlowAction))
    ensures
        (r.0@, r.1@) == stop(crate::config::opt_text(version), message@),
{
    (InstallFlow { stage: InstallStage::Finished, version }, InstallFlowAction::Fail { message })
}

/// The next stage and action of an install with `opts`, where a new
/// configuration gets `update_policy`.
pub fn install_next(
    opts: &InstallOptions,
    update_policy: UpdatePolicy,
    s: InstallFlow,
    e: InstallFlowEvent,
) -> (r: (InstallFlow, InstallFlowAction))
    ensures
        (r.0@, r.1@) == install_next_spec(*opts, update_policy, s@, e@),
{
    let stage = s.stage;
    let version = s.version;
    match e {
        InstallFlowEvent::Failed { message } => {
            if stage == InstallStage::Finished {
                (InstallFlow { stage, version }, InstallFlowAction::Nothing)
            } else {
                failure(version, message)
            }
        },
        InstallFlowEvent::StepDone { cancelled } => {
            let gated = match stage {
                InstallStage::Begin | InstallStage::Preparing | InstallStage::AnnouncingFinalize => true,
                InstallStage::AnnouncingExtract | InstallStage::PlacingLauncher => version.is_some(),
                _ => false,
            };
            if gated && cancelled {
                return failure(version, owned("安装已取消"));
            }
            match stage {
                InstallStage::Begin => (
                    InstallFlow { stage: InstallStage::Preparing, version },
                    InstallFlowAction::Prepare { detail: download_start_detail(opts.fetcher) },
                ),
                InstallStage::Preparing => (
                    InstallFlow { stage: InstallStage::Downloading, version },
                    InstallFlowAction::Download,
                ),
                InstallStage::AnnouncingExtract => match version {
                    Some(v) => (
                        InstallFlow { stage: InstallStage::Extracting, version: Some(v.clone()) },
                        InstallFlowAction::Extract { version: v },
                    ),
                    None => (InstallFlow { stage, version: None }, InstallFlowAction::Nothing),
                },
                InstallStage::Extracting => (
                    InstallFlow { stage: InstallStage::AnnouncingFinalize, version },
                    InstallFlowAction::AnnounceFinalize { detail: owned("正在写入启动器和配置。") },
                ),
                InstallStage::AnnouncingFinalize => (
                    InstallFlow { stage: InstallStage::PlacingLauncher, version },
                    InstallFlowAction::PlaceLauncher,
                ),
                InstallStage::PlacingLauncher => match version {
                    Some(v) => {
                        let config = installed_config(opts, v.as_str(), update_policy);
                        (
                            InstallFlow { stage: InstallStage::SavingConfig, version: Some(v) },
                            InstallFlowAction::SaveConfig { config },
                        )
                    },
                    None => (InstallFlow { stage, version: None }, InstallFlowAction::Nothing),
                },
                InstallStage::SavingConfig => (
                    InstallFlow { stage: InstallStage::SyncingSurface, version },
                    InstallFlowAction::SyncLaunchSurface,
                ),
                _ => (InstallFlow { stage, version }, InstallFlowAction::Nothing),
            }
        },
        InstallFlowEvent::Downloaded { version: downloaded } => {
            if stage == InstallStage::Downloading {
                let detail = extract_start_detail(downloaded.as_str());
                (
                    InstallFlow { stage: InstallStage::AnnouncingExtract, version: Some(downloaded) },
                    InstallFlowAction::AnnounceExtract { detail },
                )
            } else {
                (InstallFlow { stage, version }, InstallFlowAction::Nothing)
            }
        },
        InstallFlowEvent::SurfaceSynced { error } => {
            if stage == InstallStage::SyncingSurface && version.is_some() {
                let v = version.unwrap();
                let warning = match error {
                    Some(m) => Some(protocol_sync_warning("安装", m.as_str())),
                    None => None,
                };
                let keep: u32 = if opts.keep_versions == 0 {
                    1
                } else {
                    opts.keep_versions
                };
                let steps = post_install_steps(
                    opts.create_shortcut,
                    opts.create_desktop_shortcut,
                    opts.create_assistant_desktop_shortcut,
                    opts.register_uninstall,
                    keep,
                    opts.keep_all_versions,
                );
                (
                    InstallFlow { stage: InstallStage::Finished, version: Some(v.clone()) },
                    InstallFlowAction::Finish { version: v, warning, steps },
                )
            } else {
                (InstallFlow { stage, version }, InstallFlowAction::Nothing)
            }
        },
    }
}

// ---------------------------------------------------------------------------
// Laws of the install flow
// ---------------------------------------------------------------------------

/// A cancel request seen at any point where the install may still stop
/// ends it at once with the cancellation message.
pub proof fn law_cancel_stops_install(
    opts: InstallOptions,
    update_policy: UpdatePolicy,
    s: InstallFlowView,
)
    requires
        s.stage == InstallStage::Begin || s.stage == InstallStage::Preparing || s.stage
            == InstallStage::AnnouncingFinalize || ((s.stage == InstallStage::AnnouncingExtract
            || s.stage == InstallStage::PlacingLauncher) && s.version is Some),
    ensures
        install_next_spec(opts, update_policy, s, InstallEventView::StepDone { cancelled: true })
            == stop(s.version, cancelled_message()),
{
}

/// Once a final action has been given, nothing more happens.
pub proof fn law_finished_install_stays_finished(
    opts: InstallOptions,
    update_policy: UpdatePolicy,
    s: InstallFlowView,
    e: InstallEventView,
)
    requires
        s.stage == InstallStage::Finished,
    ensures
        install_next_spec(opts, update_policy, s, e) == (s, InstallActionView::Nothing),
{
}

/// The install finishes successfully only right after the launch surface
/// was brought in line, and the surface is synced only right after the
/// configuration was saved.
pub proof fn law_finish_follows_saved_config(
    opts: InstallOptions,
    update_policy: UpdatePolicy,
    s: InstallFlowView,
    e: InstallEventView,
)
    ensures
        install_next_spec(opts, update_policy, s, e).1 is Finish ==> s.stage
            == InstallStage::SyncingSurface,
        install_next_spec(opts, update_policy, s, e).1 is SyncLaunchSurface ==> s.stage
            == InstallStage::SavingConfig,
        install_next_spec(opts, update_policy, s, e).1 is SaveConfig ==> s.stage
            == InstallStage::PlacingLauncher,
        install_next_spec(opts, update_policy, s, e).1 is PlaceLauncher ==> s.stage
            == InstallStage::AnnouncingFinalize,
{
}

/// Without a cancel request or a failure, an install prepares, downloads,
/// announces and extracts the downloaded version, places the launcher,
/// saves the configuration for that version, syncs the launch surface and
/// finishes with that version, the integration steps and, when the sync
/// failed, its warning.
pub proof fn law_uncancelled_install_runs_in_order(
    opts: InstallOptions,
    update_policy: UpdatePolicy,
    version: Seq<char>,
    sync_error: Option<Seq<char>>,
)
    ensures
        ({
            let go = InstallEventView::StepDone { cancelled: false };
            let s0 = at(InstallStage::Begin, None);
            let (s1, a1) = install_next_spec(opts, update_policy, s0, go);
            let (s2, a2) = install_next_spec(opts, update_policy, s1, go);
            let (s3, a3) = install_next_spec(
                opts,
                update_policy,
                s2,
                InstallEventView::Downloaded { version },
            );
            let (s4, a4) = install_next_spec(opts, update_policy, s3, go);
            let (s5, a5) = install_next_spec(opts, update_policy, s4, go);
            let (s6, a6) = install_next_spec(opts, update_policy, s5, go);
            let (s7, a7) = install_next_spec(opts, update_policy, s6, go);
            let (s8, a8) = install_next_spec(opts, update_policy, s7, go);
            let (s9, a9) = install_next_spec(
                opts,
                update_policy,
                s8,
                InstallEventView::SurfaceSynced { error: sync_error },
            );
            &&& a1 == InstallActionView::Prepare { detail: download_detail_spec(opts.fetcher) }
            &&& a2 == InstallActionView::Download
            &&& a3 == InstallActionView::AnnounceExtract { detail: extract_start_spec(version) }
            &&& a4 == InstallActionView::Extract { version }
            &&& a5 == InstallActionView::AnnounceFinalize { detail: finalize_detail() }
            &&& a6 == InstallActionView::PlaceLauncher
            &&& a7 == InstallActionView::SaveConfig {
                config: installed_config_spec(opts, version, update_policy),
            }
            &&& a8 == InstallActionView::SyncLaunchSurface
            &&& a9 == InstallActionView::Finish {
                version,
                warning: match sync_error {
                    Some(m) => Some(protocol_sync_warning_spec("安装"@, m)),
                    None => None,
                },
                steps: install_flow_steps(opts),
            }
            &&& s9.stage == InstallStage::Finished
        }),
{
}

} // verus!
