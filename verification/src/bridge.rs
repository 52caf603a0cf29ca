//! The values the desktop UI exchanges with the backend: the product's
//! status, install defaults, install requests turned into installer
//! options, and the Chinese titles and details of installer progress.

use crate::config::{opt_text, Fetcher, InstallMode};
use crate::registry::CodexProtocolStatus;
use crate::installer::{default_path_from, default_path_spec, opt_view, InstallOptions};
use crate::text::{
    has_prefix, owned, starts_with, str_eq, trim, trim_start_matches_str, trim_start_seq, trim_str,
};
use vstd::prelude::*;

verus! {

#[derive(Debug, Clone, PartialEq, Eq)]
pub struct AppStatus {
    pub product_name: &'static str,
    pub v1_boundary: &'static str,
    pub main_paths: Vec<MainPath>,
}

#[derive(Debug, Clone, Copy, PartialEq, Eq, Structural)]
pub enum MainPath {
    Install,
    ProxyLaunch,
    CheckAndUpdate,
    Uninstall,
    LauncherSelfUpdate,
}

#[derive(Debug, Clone, PartialEq, Eq)]
pub struct InstallerDefaults {
    pub recommended_mode: BridgeInstallMode,
    pub recommended_fetcher: BridgeFetcher,
    pub modes: Vec<InstallModeDefaults>,
    pub fetchers: Vec<BridgeFetcher>,
}

#[derive(Debug, Clone, PartialEq, Eq)]
pub struct InstallModeDefaults {
    pub mode: BridgeInstallMode,
    pub label: &'static str,
    pub default_root: String,
    pub create_shortcut: bool,
    pub create_desktop_shortcut: bool,
    pub create_assistant_desktop_shortcut: bool,
    pub register_uninstall: bool,
    pub keep_versions: u32,
    pub keep_all_versions: bool,
    pub use_current_junction: bool,
}

#[derive(Debug, Clone, Copy, PartialEq, Eq, Structural)]
pub enum BridgeInstallMode {
    Portable,
    User,
    System,
}

#[derive(Debug, Clone, Copy, PartialEq, Eq, Structural)]
pub enum BridgeFetcher {
    Direct,
    Winget,
    LocalFile,
}

#[derive(Debug, Clone, PartialEq, Eq)]
pub struct InstallRequest {
    pub mode: BridgeInstallMode,
    pub root: String,
    pub create_shortcut: bool,
    pub create_desktop_shortcut: bool,
    pub create_assistant_desktop_shortcut: bool,
    pub register_uninstall: bool,
    pub keep_versions: u32,
    pub keep_all_versions: bool,
    pub fetcher: BridgeFetcher,
    pub use_current_junction: bool,
    pub local_msix: Option<String>,
}

#[derive(Debug, Clone, Copy, PartialEq, Eq, Structural)]
pub struct InstallStart {
    pub accepted: bool,
    /// Whether the UI may offer to cancel (not while an elevated helper runs).
    pub cancellable: bool,
}

#[derive(Debug, Clone, Copy, PartialEq, Eq, Structural)]
pub enum InstallEventKind {
    Phase,
    Progress,
    Done,
    Error,
}

// ---------------------------------------------------------------------------
// Status and defaults
// ---------------------------------------------------------------------------

pub open spec fn main_paths_spec() -> Seq<MainPath> {
    seq![
        MainPath::Install,
        MainPath::ProxyLaunch,
        MainPath::CheckAndUpdate,
        MainPath::Uninstall,
        MainPath::LauncherSelfUpdate,
    ]
}

/// The product's identity and its five main paths.
pub fn app_status() -> (r: AppStatus)
    ensures
        r.product_name@ == "Codex Windows 中文助手"@,
        r.v1_boundary@ == "中文安装更新助手"@,
        r.main_paths@ == main_paths_spec(),
{
    let mut main_paths = Vec::new();
    main_paths.push(MainPath::Install);
    main_paths.push(MainPath::ProxyLaunch);
    main_paths.push(MainPath::CheckAndUpdate);
    main_paths.push(MainPath::Uninstall);
    main_paths.push(MainPath::LauncherSelfUpdate);
    assert(main_paths@ =~= main_paths_spec());
    AppStatus {
        product_name: "Codex Windows 中文助手",
        v1_boundary: "中文安装更新助手",
        main_paths,
    }
}

pub open spec fn bridge_mode_spec(mode: InstallMode) -> BridgeInstallMode {
    match mode {
        InstallMode::Portable => BridgeInstallMode::Portable,
        InstallMode::User => BridgeInstallMode::User,
        InstallMode::System => BridgeInstallMode::System,
    }
}

pub open spec fn core_mode_spec(mode: BridgeInstallMode) -> InstallMode {
    match mode {
        BridgeInstallMode::Portable => InstallMode::Portable,
        BridgeInstallMode::User => InstallMode::User,
        BridgeInstallMode::System => InstallMode::System,
    }
}

pub open spec fn bridge_fetcher_spec(fetcher: Fetcher) -> BridgeFetcher {
    match fetcher {
        Fetcher::Direct => BridgeFetcher::Direct,
        Fetcher::Winget => BridgeFetcher::Winget,
        Fetcher::LocalFile => BridgeFetcher::LocalFile,
    }
}

pub open spec fn core_fetcher_spec(fetcher: BridgeFetcher) -> Fetcher {
    match fetcher {
        BridgeFetcher::Direct => Fetcher::Direct,
        BridgeFetcher::Winget => Fetcher::Winget,
        BridgeFetcher::LocalFile => Fetcher::LocalFile,
    }
}

pub fn bridge_install_mode(mode: InstallMode) -> (r: BridgeInstallMode)
    ensures
        r == bridge_mode_spec(mode),
{
    match mode {
        InstallMode::Portable => BridgeInstallMode::Portable,
        InstallMode::User => BridgeInstallMode::User,
        InstallMode::System => BridgeInstallMode::System,
    }
}

pub fn core_install_mode(mode: BridgeInstallMode) -> (r: InstallMode)
    ensures
        r == core_mode_spec(mode),
{
    match mode {
        BridgeInstallMode::Portable => InstallMode::Portable,
        BridgeInstallMode::User => InstallMode::User,
        BridgeInstallMode::System => InstallMode::System,
    }
}

pub fn bridge_fetcher(fetcher: Fetcher) -> (r: BridgeFetcher)
    ensures
        r == bridge_fetcher_spec(fetcher),
{
    match fetcher {
        Fetcher::Direct => BridgeFetcher::Direct,
        Fetcher::Winget => BridgeFetcher::Winget,
        Fetcher::LocalFile => BridgeFetcher::LocalFile,
    }
}

pub fn core_fetcher(fetcher: BridgeFetcher) -> (r: Fetcher)
    ensures
        r == core_fetcher_spec(fetcher),
{
    match fetcher {
        BridgeFetcher::Direct => Fetcher::Direct,
        BridgeFetcher::Winget => Fetcher::Winget,
        BridgeFetcher::LocalFile => Fetcher::LocalFile,
    }
}

pub open spec fn mode_label_spec(mode: InstallMode) -> Seq<char> {
    match mode {
        InstallMode::Portable => "便携模式"@,
        InstallMode::User => "当前用户"@,
        InstallMode::System => "所有用户"@,
    }
}

/// The Chinese label of an install mode.
pub fn install_mode_label(mode: InstallMode) -> (r: &'static str)
    ensures
        r@ == mode_label_spec(mode),
{
    match mode {
        InstallMode::Portable => "便携模式",
        InstallMode::User => "当前用户",
        InstallMode::System => "所有用户",
    }
}

/// The defaults offered for a mode: everything but portable installs gets
/// Start Menu and desktop shortcuts plus an uninstall entry; five versions
/// are kept; the `current` junction is used.
pub open spec fn mode_defaults_ok(d: InstallModeDefaults, mode: InstallMode, root: Seq<char>) -> bool {
    let managed = mode != InstallMode::Portable;
    &&& d.mode == bridge_mode_spec(mode)
    &&& d.label@ == mode_label_spec(mode)
    &&& d.default_root@ == root
    &&& d.create_shortcut == managed
    &&& d.create_desktop_shortcut == managed
    &&& !d.create_assistant_desktop_shortcut
    &&& d.register_uninstall == managed
    &&& d.keep_versions == 5
    &&& !d.keep_all_versions
    &&& d.use_current_junction
}

pub fn install_mode_defaults(mode: InstallMode, default_root: String) -> (r: InstallModeDefaults)
    ensures
        mode_defaults_ok(r, mode, default_root@),
{
    let user_managed = mode != InstallMode::Portable;
    InstallModeDefaults {
        mode: bridge_install_mode(mode),
        label: install_mode_label(mode),
        default_root,
        create_shortcut: user_managed,
        create_desktop_shortcut: user_managed,
        create_assistant_desktop_shortcut: false,
        register_uninstall: user_managed,
        keep_versions: 5,
        keep_all_versions: false,
        use_current_junction: true,
    }
}

pub open spec fn defaults_ok(
    d: InstallerDefaults,
    current_dir: Option<Seq<char>>,
    local_data: Option<Seq<char>>,
) -> bool {
    &&& d.recommended_mode == BridgeInstallMode::User
    &&& d.recommended_fetcher == BridgeFetcher::Direct
    &&& d.modes.len() == 3
    &&& mode_defaults_ok(
        d.modes@[0],
        InstallMode::Portable,
        default_path_spec(InstallMode::Portable, current_dir, local_data),
    )
    &&& mode_defaults_ok(
        d.modes@[1],
        InstallMode::User,
        default_path_spec(InstallMode::User, current_dir, local_data),
    )
    &&& mode_defaults_ok(
        d.modes@[2],
        InstallMode::System,
        default_path_spec(InstallMode::System, current_dir, local_data),
    )
    &&& d.fetchers@ == seq![BridgeFetcher::Direct, BridgeFetcher::Winget, BridgeFetcher::LocalFile]
}

/// The install wizard's defaults, given the working directory (portable
/// default) and the user's local application data folder.
pub fn installer_defaults(current_dir: Option<String>, local_data: Option<String>) -> (r:
    InstallerDefaults)
    ensures
        defaults_ok(r, opt_view(current_dir), opt_view(local_data)),
{
    let portable = default_path_from(InstallMode::Portable, current_dir.clone(), local_data.clone());
    let user = default_path_from(InstallMode::User, current_dir.clone(), local_data.clone());
    let system = default_path_from(InstallMode::System, current_dir, local_data);
    let mut modes = Vec::new();
    modes.push(install_mode_defaults(InstallMode::Portable, portable));
    modes.push(install_mode_defaults(InstallMode::User, user));
    modes.push(install_mode_defaults(InstallMode::System, system));
    let mut fetchers = Vec::new();
    fetchers.push(bridge_fetcher(Fetcher::Direct));
    fetchers.push(bridge_fetcher(Fetcher::Winget));
    fetchers.push(bridge_fetcher(Fetcher::LocalFile));
    assert(fetchers@ =~= seq![BridgeFetcher::Direct, BridgeFetcher::Winget, BridgeFetcher::LocalFile]);
    InstallerDefaults {
        recommended_mode: BridgeInstallMode::User,
        recommended_fetcher: bridge_fetcher(Fetcher::Direct),
        modes,
        fetchers,
    }
}

// ---------------------------------------------------------------------------
// Install requests
// ---------------------------------------------------------------------------

/// The local MSIX path the request carries, unless it is blank.
pub open spec fn msix_spec(request: InstallRequest) -> Option<Seq<char>> {
    match request.local_msix {
        Some(p) => if trim(p@).len() > 0 {
            Some(p@)
        } else {
            None
        },
        None => None,
    }
}

/// Why a request cannot be installed, if it cannot.
pub open spec fn request_error(request: InstallRequest) -> Option<Seq<char>> {
    if trim(request.root@).len() == 0 {
        Some("请选择安装位置"@)
    } else if request.fetcher == BridgeFetcher::LocalFile && msix_spec(request) is None {
        Some("使用本地 MSIX 时需要选择文件"@)
    } else {
        None
    }
}

pub open spec fn options_match(o: InstallOptions, request: InstallRequest) -> bool {
    &&& o.mode == core_mode_spec(request.mode)
    &&& o.root@ == trim(request.root@)
    &&& o.create_shortcut == request.create_shortcut
    &&& o.create_desktop_shortcut == request.create_desktop_shortcut
    &&& o.create_assistant_desktop_shortcut == request.create_assistant_desktop_shortcut
    &&& o.register_uninstall == request.register_uninstall
    &&& o.register_codex_protocol
    &&& o.keep_versions == (if request.keep_versions == 0 {
        1
    } else {
        request.keep_versions
    })
    &&& o.keep_all_versions == request.keep_all_versions
    &&& o.fetcher == core_fetcher_spec(request.fetcher)
    &&& o.use_current_junction == request.use_current_junction
    &&& opt_text(o.local_msix) == msix_spec(request)
}

/// Turns the wizard's request into installer options without touching the
/// disk: the root is trimmed and required, a blank MSIX path counts as
/// none, at least one version is kept.
pub fn install_options_from_request(request: InstallRequest) -> (r: Result<InstallOptions, String>)
    ensures
        match r {
            Ok(o) => request_error(request) is None && options_match(o, request),
            Err(e) => request_error(request) == Some(e@),
        },
{
    let root = trim_str(request.root.as_str());
    if root.unicode_len() == 0 {
        return Err(owned("请选择安装位置"));
    }
    let fetcher = core_fetcher(request.fetcher);
    let local_msix = match &request.local_msix {
        Some(path) => {
            let trimmed = trim_str(path.as_str());
            if trimmed.unicode_len() == 0 {
                None
            } else {
                Some(path.clone())
            }
        },
        None => None,
    };
    if fetcher == Fetcher::LocalFile && local_msix.is_none() {
        return Err(owned("使用本地 MSIX 时需要选择文件"));
    }
    Ok(
        InstallOptions {
            mode: core_install_mode(request.mode),
            root,
            create_shortcut: request.create_shortcut,
            create_desktop_shortcut: request.create_desktop_shortcut,
            create_assistant_desktop_shortcut: request.create_assistant_desktop_shortcut,
            register_uninstall: request.register_uninstall,
            register_codex_protocol: true,
            keep_versions: if request.keep_versions == 0 {
                1
            } else {
                request.keep_versions
            },
            keep_all_versions: request.keep_all_versions,
            fetcher,
            use_current_junction: request.use_current_junction,
            local_msix,
        },
    )
}

// ---------------------------------------------------------------------------
// Progress texts
// ---------------------------------------------------------------------------

pub open spec fn phase_title_spec(phase: Seq<char>) -> Seq<char> {
    if phase == "Downloading"@ {
        "正在下载"@
    } else if phase == "Extracting"@ {
        "正在解压"@
    } else if phase == "Finalizing"@ {
        "正在完成"@
    } else {
        "正在安装"@
    }
}

/// The Chinese title of an installer phase.
pub fn phase_title(phase: &str) -> (r: &'static str)
    ensures
        r@ == phase_title_spec(phase@),
{
    if str_eq(phase, "Downloading") {
        "正在下载"
    } else if str_eq(phase, "Extracting") {
        "正在解压"
    } else if str_eq(phase, "Finalizing") {
        "正在完成"
    } else {
        "正在安装"
    }
}

pub open spec fn phase_detail_spec(detail: Seq<char>) -> Seq<char> {
    if detail == "via Direct"@ {
        "通过直连 Microsoft Store"@
    } else if detail == "via Winget"@ {
        "通过 winget"@
    } else if detail == "via LocalFile"@ {
        "通过本地 MSIX"@
    } else if has_prefix(detail, "version "@) {
        "版本 "@ + trim_start_seq(detail, "version "@)
    } else {
        detail
    }
}

/// The Chinese rendering of an installer detail line.
pub fn phase_detail(detail: &str) -> (r: String)
    ensures
        r@ == phase_detail_spec(detail@),
{
    if str_eq(detail, "via Direct") {
        owned("通过直连 Microsoft Store")
    } else if str_eq(detail, "via Winget") {
        owned("通过 winget")
    } else if str_eq(detail, "via LocalFile") {
        owned("通过本地 MSIX")
    } else if starts_with(detail, "version ") {
        let mut r = owned("版本 ");
        let rest = trim_start_matches_str(detail, "version ");
        r.append(rest.as_str());
        r
    } else {
        owned(detail)
    }
}

// ---------------------------------------------------------------------------
// Installer messages as UI events
// ---------------------------------------------------------------------------

/// An installer worker message without its progress fraction (the shell
/// carries the fraction alongside).
#[derive(Debug, Clone, PartialEq, Eq)]
pub enum WorkerMessage {
    Phase { phase: String, detail: String },
    Progress,
    ProgressDetail { phase: String, detail: String },
    Done { version: String },
    Error(String),
}

/// The texts of the UI event for a worker message.
#[derive(Debug, Clone, PartialEq, Eq)]
pub struct InstallEventText {
    pub kind: InstallEventKind,
    pub title: String,
    pub detail: String,
    pub version: Option<String>,
    pub message: Option<String>,
}

pub open spec fn event_text_spec(msg: WorkerMessage) -> (
    InstallEventKind,
    Seq<char>,
    Seq<char>,
    Option<Seq<char>>,
    Option<Seq<char>>,
) {
    match msg {
        WorkerMessage::Phase { phase, detail } => (
            InstallEventKind::Phase,
            phase_title_spec(phase@),
            phase_detail_spec(detail@),
            None,
            None,
        ),
        WorkerMessage::Progress => (InstallEventKind::Progress, "安装进度"@, Seq::empty(), None, None),
        WorkerMessage::ProgressDetail { phase, detail } => (
            InstallEventKind::Progress,
            phase_title_spec(phase@),
            detail@,
            None,
            None,
        ),
        WorkerMessage::Done { version } => (
            InstallEventKind::Done,
            "安装完成"@,
            "已安装官方桌面应用 "@ + version@,
            Some(version@),
            None,
        ),
        WorkerMessage::Error(message) => (
            InstallEventKind::Error,
            "安装失败"@,
            Seq::empty(),
            None,
            Some(message@),
        ),
    }
}

pub open spec fn event_text_view(e: InstallEventText) -> (
    InstallEventKind,
    Seq<char>,
    Seq<char>,
    Option<Seq<char>>,
    Option<Seq<char>>,
) {
    (e.kind, e.title@, e.detail@, opt_text(e.version), opt_text(e.message))
}

/// The Chinese event shown for an installer worker message: phases get
/// Chinese titles and details, progress keeps its detail line, completion
/// names the installed version without assuming the product's name.
pub fn install_event_text(msg: WorkerMessage) -> (r: InstallEventText)
    ensures
        event_text_view(r) == event_text_spec(msg),
{
    match msg {
        WorkerMessage::Phase { phase, detail } => InstallEventText {
            kind: InstallEventKind::Phase,
            title: owned(phase_title(phase.as_str())),
            detail: phase_detail(detail.as_str()),
            version: None,
            message: None,
        },
        WorkerMessage::Progress => InstallEventText {
            kind: InstallEventKind::Progress,
            title: owned("安装进度"),
            detail: String::new(),
            version: None,
            message: None,
        },
        WorkerMessage::ProgressDetail { phase, detail } => InstallEventText {
            kind: InstallEventKind::Progress,
            title: owned(phase_title(phase.as_str())),
            detail,
            version: None,
            message: None,
        },
        WorkerMessage::Done { version } => {
            let mut detail = owned("已安装官方桌面应用 ");
            detail.append(version.as_str());
            InstallEventText {
                kind: InstallEventKind::Done,
                title: owned("安装完成"),
                detail,
                version: Some(version),
                message: None,
            }
        },
        WorkerMessage::Error(message) => InstallEventText {
            kind: InstallEventKind::Error,
            title: owned("安装失败"),
            detail: String::new(),
            version: None,
            message: Some(message),
        },
    }
}

/// The UI's names for install modes and fetchers are the installer's, one
/// for one in both directions.
pub proof fn law_bridge_names_round_trip(mode: InstallMode, bmode: BridgeInstallMode, fetcher: Fetcher, bfetcher: BridgeFetcher)
    ensures
        core_mode_spec(bridge_mode_spec(mode)) == mode,
        bridge_mode_spec(core_mode_spec(bmode)) == bmode,
        core_fetcher_spec(bridge_fetcher_spec(fetcher)) == fetcher,
        bridge_fetcher_spec(core_fetcher_spec(bfetcher)) == bfetcher,
{
}

// ---------------------------------------------------------------------------
// Starting and guarding long-running work
// ---------------------------------------------------------------------------

pub const ELEVATED_UI_INSTALL_MESSAGE: &'static str =
    "为确保同步发起用户的配置，请以普通用户身份重新启动中文助手后再执行所有用户安装";

/// An all-users install is started from an unelevated UI (the elevated
/// helper does the work), so that the starting user's settings are synced.
pub fn install_start_refusal(mode: BridgeInstallMode, elevated: bool) -> (r: Option<&'static str>)
    ensures
        r is Some <==> (mode == BridgeInstallMode::System && elevated),
        r is Some ==> r->0@ == ELEVATED_UI_INSTALL_MESSAGE@,
{
    if mode == BridgeInstallMode::System && elevated {
        Some(ELEVATED_UI_INSTALL_MESSAGE)
    } else {
        None
    }
}

/// Whether an install runs through the elevated helper.
pub fn install_needs_elevation(mode: BridgeInstallMode, elevated: bool) -> (r: bool)
    ensures
        r == (mode == BridgeInstallMode::System && !elevated),
{
    mode == BridgeInstallMode::System && !elevated
}

/// The answer to a started install: an install run by the elevated helper
/// cannot be cancelled from the UI.
pub fn install_start(through_helper: bool) -> (r: InstallStart)
    ensures
        r.accepted,
        r.cancellable == !through_helper,
{
    InstallStart { accepted: true, cancellable: !through_helper }
}

pub const NO_INSTALL_TO_CANCEL: &'static str = "当前没有正在运行的安装任务";

/// Cancelling: accepted while a cancellable install runs, refused otherwise.
pub fn cancel_install_answer(install_running: bool) -> (r: Result<InstallStart, &'static str>)
    ensures
        install_running ==> r == Ok::<InstallStart, &'static str>(
            InstallStart { accepted: true, cancellable: true },
        ),
        !install_running ==> r is Err && r->Err_0@ == NO_INSTALL_TO_CANCEL@,
{
    if install_running {
        Ok(InstallStart { accepted: true, cancellable: true })
    } else {
        Err(NO_INSTALL_TO_CANCEL)
    }
}

pub open spec fn update_busy_spec(operation: Seq<char>) -> Seq<char> {
    "更新进行中，暂不能"@ + operation
}

/// The refusal of an operation while an update runs.
pub fn ensure_update_inactive(update_active: bool, operation: &str) -> (r: Result<(), String>)
    ensures
        !update_active ==> r is Ok,
        update_active ==> r is Err && r->Err_0@ == update_busy_spec(operation@),
{
    if update_active {
        let mut m = owned("更新进行中，暂不能");
        m.append(operation);
        return Err(m);
    }
    Ok(())
}

pub open spec fn shadowed_warning_spec(
    operation: Seq<char>,
    status: Result<CodexProtocolStatus, Seq<char>>,
) -> Option<Seq<char>> {
    match status {
        Ok(s) => if s == CodexProtocolStatus::Ready {
            None
        } else {
            Some(
                operation
                    + "已完成，但当前 Windows 用户的 codex:// 默认关联仍由其他应用覆盖。\n\n可在中文助手设置中查看状态，或先到 Windows 默认应用中移除现有关联。"@,
            )
        },
        Err(cause) => Some(
            operation + "已完成，但无法核验当前 Windows 用户的 codex:// 会话链接："@ + cause,
        ),
    }
}

pub open spec fn status_view(r: Result<CodexProtocolStatus, String>) -> Result<
    CodexProtocolStatus,
    Seq<char>,
> {
    match r {
        Ok(s) => Ok(s),
        Err(e) => Err(e@),
    }
}

/// After an all-users install or update that should handle `codex://`, the
/// warning shown when this user's association does not reach it.
pub fn shadowed_protocol_warning(operation: &str, status: Result<CodexProtocolStatus, String>) -> (r:
    Option<String>)
    ensures
        opt_text(r) == shadowed_warning_spec(operation@, status_view(status)),
{
    match status {
        Ok(s) => {
            if s == CodexProtocolStatus::Ready {
                None
            } else {
                let mut m = owned(operation);
                m.append(
                    "已完成，但当前 Windows 用户的 codex:// 默认关联仍由其他应用覆盖。\n\n可在中文助手设置中查看状态，或先到 Windows 默认应用中移除现有关联。",
                );
                Some(m)
            }
        },
        Err(cause) => {
            let mut m = owned(operation);
            m.append("已完成，但无法核验当前 Windows 用户的 codex:// 会话链接：");
            m.append(cause.as_str());
            Some(m)
        },
    }
}

pub const ELEVATED_UI_UPDATE_MESSAGE: &'static str =
    "为避免读取提权账户的更新设置，请以普通用户身份重新启动中文助手后再更新";

pub const ELEVATED_UI_UNINSTALL_MESSAGE: &'static str =
    "为确保清理发起卸载用户的 codex:// 关联，请以普通用户身份重新启动中文助手后再卸载";

/// An all-users install is updated from an unelevated UI, so that this
/// user's update settings are the ones read.
pub fn update_start_refusal(system_install: bool, elevated: bool) -> (r: Option<&'static str>)
    ensures
        r is Some <==> (system_install && elevated),
        r is Some ==> r->0@ == ELEVATED_UI_UPDATE_MESSAGE@,
{
    if system_install && elevated {
        Some(ELEVATED_UI_UPDATE_MESSAGE)
    } else {
        None
    }
}

/// An all-users install is uninstalled from an unelevated UI, so that this
/// user's `codex://` association is the one cleaned up.
pub fn uninstall_start_refusal(system_install: bool, elevated: bool) -> (r: Option<&'static str>)
    ensures
        r is Some <==> (system_install && elevated),
        r is Some ==> r->0@ == ELEVATED_UI_UNINSTALL_MESSAGE@,
{
    if system_install && elevated {
        Some(ELEVATED_UI_UNINSTALL_MESSAGE)
    } else {
        None
    }
}

pub open spec fn uninstall_cleanup_spec(cause: Seq<char>) -> Seq<char> {
    "系统卸载已完成，但清理当前用户的 codex:// 会话链接失败："@ + cause
}

/// The error when an all-users uninstall finished but this user's own
/// `codex://` registration could not be removed.
pub fn uninstall_cleanup_failure(cause: &str) -> (r: String)
    ensures
        r@ == uninstall_cleanup_spec(cause@),
{
    let mut m = owned("系统卸载已完成，但清理当前用户的 codex:// 会话链接失败：");
    m.append(cause);
    m
}

} // verus!
