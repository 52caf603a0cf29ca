//! Install/update decisions: default locations, which fetcher an update
//! uses, progress texts, the configuration written after an install, the
//! uninstall entry, and when the launcher's shortcuts may be created,
//! refreshed or removed. Downloading, extracting, copying and the Windows
//! shell work are done by the application shell.

use crate::config::{opt_text, Config, ConfigView, Fetcher, InstallMode, UpdatePolicy};
use crate::registry::{
    classify_spec, codex_protocol_status, command_spec, effective_view, handler_error,
    register_codex_protocol, register_plan_spec, remove_codex_protocol_if_owned, removal_spec,
    replace_codex_protocol, CodexProtocolStatus, ExistingProtocol, HandlerFacts, ProtocolPlan,
    ProtocolRemoval,
};
use crate::shortcut::{is_owned, is_owned_spec, ShortcutInfo};
use crate::text::{decimal, decimal_string, owned};
use crate::versions::{display_name_spec, join_path, join_spec, LaunchTarget};
use vstd::prelude::*;

verus! {

pub const LAUNCHER_FILE: &'static str = "codex-launcher.exe";

pub const LAUNCH_LATEST_ARGUMENT: &'static str = "--launch-latest";

pub const SYSTEM_DEFAULT_ROOT: &'static str = "C:\\Program Files\\Codex";

pub const USER_FALLBACK_ROOT: &'static str = "C:\\Users\\Public\\Codex";

#[derive(Debug, Clone)]
pub struct InstallOptions {
    pub mode: InstallMode,
    pub root: String,
    pub create_shortcut: bool,
    pub create_desktop_shortcut: bool,
    pub create_assistant_desktop_shortcut: bool,
    /// Write the Add/Remove Programs entry so Windows Settings can uninstall.
    pub register_uninstall: bool,
    /// Maintain the `codex://` URL protocol for CLI `/app` handoff.
    pub register_codex_protocol: bool,
    pub keep_versions: u32,
    pub keep_all_versions: bool,
    pub fetcher: Fetcher,
    /// Keep `versions/current` pointing at the newest install.
    pub use_current_junction: bool,
    /// For the LocalFile fetcher: the user-supplied MSIX path.
    pub local_msix: Option<String>,
}

/// `directories::BaseDirs::new()` and its `data_local_dir()`: the per-user
/// local application data folder, when the platform reports one. Nothing is
/// claimed about the value.
#[verifier::external_body]
fn local_data_dir() -> Option<String> {
    match directories::BaseDirs::new() {
        Some(dirs) => Some(dirs.data_local_dir().to_string_lossy().into_owned()),
        None => None,
    }
}

pub open spec fn default_path_spec(
    mode: InstallMode,
    current_dir: Option<Seq<char>>,
    local_data: Option<Seq<char>>,
) -> Seq<char> {
    match mode {
        InstallMode::Portable => join_spec(
            match current_dir {
                Some(d) => d,
                None => "."@,
            },
            "CodexPortable"@,
        ),
        InstallMode::User => match local_data {
            Some(d) => join_spec(d, "Codex"@),
            None => "C:\\Users\\Public\\Codex"@,
        },
        InstallMode::System => "C:\\Program Files\\Codex"@,
    }
}

pub open spec fn opt_view(o: Option<String>) -> Option<Seq<char>> {
    crate::config::opt_text(o)
}

/// Default install path for a mode, given the process's working directory
/// and the user's local application data folder (when known).
pub fn default_path_from(mode: InstallMode, current_dir: Option<String>, local_data: Option<String>) -> (r:
    String)
    ensures
        r@ == default_path_spec(mode, opt_view(current_dir), opt_view(local_data)),
{
    match mode {
        InstallMode::Portable => {
            let base = match current_dir {
                Some(d) => d,
                None => owned("."),
            };
            join_path(base.as_str(), "CodexPortable")
        },
        InstallMode::User => match local_data {
            Some(d) => join_path(d.as_str(), "Codex"),
            None => owned(USER_FALLBACK_ROOT),
        },
        InstallMode::System => owned(SYSTEM_DEFAULT_ROOT),
    }
}

/// Default install path for a mode; the user folder comes from the
/// platform's known-folder lookup.
pub fn default_path(mode: InstallMode, current_dir: Option<String>) -> (r: String)
    ensures
        exists|local_data: Option<Seq<char>>|
            r@ == #[trigger] default_path_spec(mode, opt_view(current_dir), local_data),
{
    let local = if mode == InstallMode::User {
        local_data_dir()
    } else {
        None
    };
    let r = default_path_from(mode, current_dir, local);
    assert(r@ == default_path_spec(mode, opt_view(current_dir), opt_view(local)));
    r
}

/// Updates keep the configured fetcher; a legacy LocalFile setting updates
/// directly from the Store.
pub fn configured_update_fetcher(fetcher: Fetcher) -> (r: Fetcher)
    ensures
        r == (if fetcher == Fetcher::LocalFile {
            Fetcher::Direct
        } else {
            fetcher
        }),
{
    match fetcher {
        Fetcher::LocalFile => Fetcher::Direct,
        other => other,
    }
}

pub open spec fn download_detail_spec(fetcher: Fetcher) -> Seq<char> {
    match fetcher {
        Fetcher::Direct => "正在解析 Codex 下载地址；如果直连超时，将自动切换 winget。"@,
        Fetcher::Winget => "正在调用 winget 下载 Codex。"@,
        Fetcher::LocalFile => "正在复制本地 MSIX 文件。"@,
    }
}

pub open spec fn update_detail_spec(fetcher: Fetcher) -> Seq<char> {
    match fetcher {
        Fetcher::Direct => "正在解析 Codex 下载地址；如果直连失败，将自动切换 winget。"@,
        Fetcher::Winget => "正在调用 winget 下载 Codex；如果 winget 失败，将自动切换直连。"@,
        Fetcher::LocalFile => download_detail_spec(Fetcher::LocalFile),
    }
}

/// The first progress line of an install.
pub fn download_start_detail(fetcher: Fetcher) -> (r: String)
    ensures
        r@ == download_detail_spec(fetcher),
{
    match fetcher {
        Fetcher::Direct => owned("正在解析 Codex 下载地址；如果直连超时，将自动切换 winget。"),
        Fetcher::Winget => owned("正在调用 winget 下载 Codex。"),
        Fetcher::LocalFile => owned("正在复制本地 MSIX 文件。"),
    }
}

/// The first progress line of an update.
pub fn update_start_detail(fetcher: Fetcher) -> (r: String)
    ensures
        r@ == update_detail_spec(fetcher),
{
    match fetcher {
        Fetcher::Direct => owned("正在解析 Codex 下载地址；如果直连失败，将自动切换 winget。"),
        Fetcher::Winget => owned(
            "正在调用 winget 下载 Codex；如果 winget 失败，将自动切换直连。",
        ),
        other => download_start_detail(other),
    }
}

/// Fails with the cancellation message once the user cancelled.
pub fn check_cancel(cancelled: bool) -> (r: Result<(), String>)
    ensures
        cancelled ==> r is Err && r->Err_0@ == "安装已取消"@,
        !cancelled ==> r is Ok,
{
    if cancelled {
        return Err(owned("安装已取消"));
    }
    Ok(())
}

/// The configuration written after installing `version` with `opts`; the
/// LocalFile fetcher is never persisted.
pub open spec fn installed_config_spec(
    opts: InstallOptions,
    version: Seq<char>,
    update_policy: UpdatePolicy,
) -> ConfigView {
    ConfigView {
        install_mode: opts.mode,
        current_version: version,
        update_policy: update_policy,
        last_check_unix: None,
        last_launcher_check_unix: None,
        suppress_until_unix: None,
        known_latest: Some(version),
        skipped_version: None,
        keep_versions: if opts.keep_versions == 0 {
            1
        } else {
            opts.keep_versions
        },
        keep_all_versions: opts.keep_all_versions,
        fetcher: if opts.fetcher == Fetcher::LocalFile {
            Fetcher::Direct
        } else {
            opts.fetcher
        },
        use_current_junction: opts.use_current_junction,
        register_uninstall: opts.register_uninstall,
        register_codex_protocol: Some(opts.register_codex_protocol),
        known_latest_launcher: None,
        skipped_launcher_version: None,
        launcher_suppress_until_unix: None,
    }
}

/// The configuration written after installing `version` with `opts`.
pub fn installed_config(opts: &InstallOptions, version: &str, update_policy: UpdatePolicy) -> (r:
    Config)
    ensures
        r@ == installed_config_spec(*opts, version@, update_policy),
{
    Config {
        install_mode: opts.mode,
        current_version: owned(version),
        update_policy,
        last_check_unix: None,
        last_launcher_check_unix: None,
        suppress_until_unix: None,
        known_latest: Some(owned(version)),
        skipped_version: None,
        keep_versions: if opts.keep_versions == 0 {
            1
        } else {
            opts.keep_versions
        },
        keep_all_versions: opts.keep_all_versions,
        fetcher: configured_update_fetcher(opts.fetcher),
        use_current_junction: opts.use_current_junction,
        register_uninstall: opts.register_uninstall,
        register_codex_protocol: Some(opts.register_codex_protocol),
        known_latest_launcher: None,
        skipped_launcher_version: None,
        launcher_suppress_until_unix: None,
    }
}

pub const MIB: u64 = 1_048_576;

pub open spec fn download_progress_spec(done: u64, total: Option<u64>) -> Seq<char> {
    match total {
        Some(t) => decimal((done / MIB) as nat) + " / "@ + decimal((t / MIB) as nat) + " MB"@,
        None => decimal((done / MIB) as nat) + " MB"@,
    }
}

/// The detail line of download progress, in whole mebibytes.
pub fn download_progress_detail(done: u64, total: Option<u64>) -> (r: String)
    ensures
        r@ == download_progress_spec(done, total),
{
    let mut r = decimal_string(done / MIB);
    match total {
        Some(t) => {
            r.append(" / ");
            let total_text = decimal_string(t / MIB);
            r.append(total_text.as_str());
            r.append(" MB");
        },
        None => {
            r.append(" MB");
        },
    }
    r
}

pub open spec fn extract_progress_spec(done: u64, total: Option<u64>) -> Seq<char> {
    match total {
        Some(t) => decimal(done as nat) + " / "@ + decimal(t as nat) + " files"@,
        None => decimal(done as nat) + " files"@,
    }
}

/// The detail line of extraction progress, in files.
pub fn extract_progress_detail(done: u64, total: Option<u64>) -> (r: String)
    ensures
        r@ == extract_progress_spec(done, total),
{
    let mut r = decimal_string(done);
    match total {
        Some(t) => {
            r.append(" / ");
            let total_text = decimal_string(t);
            r.append(total_text.as_str());
            r.append(" files");
        },
        None => {
            r.append(" files");
        },
    }
    r
}

pub open spec fn protocol_sync_warning_spec(operation: Seq<char>, error: Seq<char>) -> Seq<char> {
    "桌面应用"@ + operation + "已完成，但 codex:// 会话链接配置失败："@ + error
        + "\n\n可稍后在中文助手的设置页重试。"@
}

/// The notice shown when an install or update finished but keeping
/// `codex://` in line failed.
pub fn protocol_sync_warning(operation: &str, error: &str) -> (r: String)
    ensures
        r@ == protocol_sync_warning_spec(operation@, error@),
{
    let mut r = owned("桌面应用");
    r.append(operation);
    r.append("已完成，但 codex:// 会话链接配置失败：");
    r.append(error);
    r.append("\n\n可稍后在中文助手的设置页重试。");
    r
}

/// Records a finished update of `cfg` to `version` at time `now`.
pub fn record_update(cfg: &mut Config, version: &str, now: u64)
    ensures
        final(cfg)@ == (ConfigView {
            current_version: version@,
            known_latest: Some(version@),
            suppress_until_unix: None,
            last_check_unix: Some(now),
            ..old(cfg)@
        }),
{
    cfg.current_version = owned(version);
    cfg.known_latest = Some(owned(version));
    cfg.suppress_until_unix = None;
    cfg.last_check_unix = Some(now);
    assert(cfg@ =~= (ConfigView {
        current_version: version@,
        known_latest: Some(version@),
        suppress_until_unix: None,
        last_check_unix: Some(now),
        ..old(cfg)@
    }));
}

/// The Add/Remove Programs entry of an install.
#[derive(Debug, Clone)]
pub struct UninstallEntry {
    pub display_name: String,
    pub display_version: String,
    pub publisher: String,
    pub install_location: String,
    pub uninstall_string: String,
    pub display_icon: String,
}

pub open spec fn launcher_path_spec(root: Seq<char>) -> Seq<char> {
    join_spec(root, "codex-launcher.exe"@)
}

/// The uninstall entry for `version` installed at `root`.
pub fn uninstall_entry(root: &str, version: &str) -> (r: UninstallEntry)
    ensures
        r.display_name@ == "Codex Windows 中文助手"@,
        r.display_version@ == version@,
        r.publisher@ == "chrichuang218"@,
        r.install_location@ == root@,
        r.uninstall_string@ == "\""@ + launcher_path_spec(root@) + "\" --uninstall"@,
        r.display_icon@ == launcher_path_spec(root@),
{
    let launcher = join_path(root, LAUNCHER_FILE);
    let mut uninstall_string = owned("\"");
    uninstall_string.append(launcher.as_str());
    uninstall_string.append("\" --uninstall");
    UninstallEntry {
        display_name: owned("Codex Windows 中文助手"),
        display_version: owned(version),
        publisher: owned("chrichuang218"),
        install_location: owned(root),
        uninstall_string,
        display_icon: launcher,
    }
}

// ---------------------------------------------------------------------------
// codex:// synchronisation after install/update
// ---------------------------------------------------------------------------

/// What keeping `codex://` in line with the saved preference means.
#[derive(Debug, Clone, Copy, PartialEq, Eq, Structural)]
pub enum ProtocolSync {
    /// Register (or refresh) it for this install.
    Register,
    /// Remove it if this install owns it.
    RemoveIfOwned,
    /// Only repair an existing registration of this install.
    RepairIfNeeded,
}

/// The synchronisation a `codex://` preference asks for.
pub fn protocol_sync_for(preference: Option<bool>) -> (r: ProtocolSync)
    ensures
        r == (match preference {
            Some(true) => ProtocolSync::Register,
            Some(false) => ProtocolSync::RemoveIfOwned,
            None => ProtocolSync::RepairIfNeeded,
        }),
{
    match preference {
        Some(true) => ProtocolSync::Register,
        Some(false) => ProtocolSync::RemoveIfOwned,
        None => ProtocolSync::RepairIfNeeded,
    }
}

/// Under `RepairIfNeeded`, whether the current status calls for re-registering.
pub fn repair_needed(status: CodexProtocolStatus) -> (r: bool)
    ensures
        r == (status == CodexProtocolStatus::NeedsRepair),
{
    status == CodexProtocolStatus::NeedsRepair
}

// ---------------------------------------------------------------------------
// Shortcuts
// ---------------------------------------------------------------------------
//
// The shell reads each existing `.lnk` and canonicalizes the paths it can:
// `launcher_canonical` is the canonical path of this install's launcher,
// `None` when it cannot be resolved.

/// What to write into a `.lnk`, and whether a legacy shortcut goes away.
#[derive(Debug, Clone)]
pub struct ShortcutPlan {
    pub target: String,
    pub icon: String,
    pub description: String,
    pub working_dir: String,
    pub arguments: String,
    pub remove_legacy: bool,
}

pub open spec fn plan_is(
    p: ShortcutPlan,
    target: Seq<char>,
    icon: Seq<char>,
    description: Seq<char>,
    working_dir: Seq<char>,
    arguments: Seq<char>,
    remove_legacy: bool,
) -> bool {
    &&& p.target@ == target
    &&& p.icon@ == icon
    &&& p.description@ == description
    &&& p.working_dir@ == working_dir
    &&& p.arguments@ == arguments
    &&& p.remove_legacy == remove_legacy
}

fn launcher_path(root: &str) -> (r: String)
    ensures
        r@ == launcher_path_spec(root@),
{
    join_path(root, LAUNCHER_FILE)
}

fn any_owned(root: &str, launcher_canonical: &Option<String>, links: &[Option<ShortcutInfo>], arguments: &str) -> (r: bool)
    ensures
        r == exists|i: int|
            0 <= i < links.len() && is_owned_spec(
                #[trigger] links@[i],
                launcher_path_spec(root@),
                opt_text(*launcher_canonical),
                arguments@,
            ),
{
    let target = launcher_path(root);
    let mut i: usize = 0;
    while i < links.len()
        invariant
            i <= links.len(),
            target@ == launcher_path_spec(root@),
            forall|k: int|
                0 <= k < i ==> !is_owned_spec(
                    #[trigger] links@[k],
                    launcher_path_spec(root@),
                    opt_text(*launcher_canonical),
                    arguments@,
                ),
        decreases links.len() - i,
    {
        if is_owned(&links[i], target.as_str(), launcher_canonical, arguments) {
            return true;
        }
        i = i + 1;
    }
    false
}

fn owned_flags(root: &str, launcher_canonical: &Option<String>, links: &[Option<ShortcutInfo>], arguments: &str) -> (r: Vec<bool>)
    ensures
        r.len() == links.len(),
        forall|i: int|
            0 <= i < links.len() ==> #[trigger] r@[i] == is_owned_spec(
                links@[i],
                launcher_path_spec(root@),
                opt_text(*launcher_canonical),
                arguments@,
            ),
{
    let target = launcher_path(root);
    let mut out: Vec<bool> = Vec::new();
    let mut i: usize = 0;
    while i < links.len()
        invariant
            i <= links.len(),
            out.len() == i,
            target@ == launcher_path_spec(root@),
            forall|k: int|
                0 <= k < i ==> #[trigger] out@[k] == is_owned_spec(
                    links@[k],
                    launcher_path_spec(root@),
                    opt_text(*launcher_canonical),
                    arguments@,
                ),
        decreases links.len() - i,
    {
        out.push(is_owned(&links[i], target.as_str(), launcher_canonical, arguments));
        i = i + 1;
    }
    out
}

/// Whether any of the Start Menu shortcuts (current and legacy names, as
/// read by the shell) is this install's.
pub fn start_menu_shortcut_exists(root: &str, launcher_canonical: &Option<String>, links: &[Option<ShortcutInfo>]) -> (r: bool)
    ensures
        r == exists|i: int|
            0 <= i < links.len() && is_owned_spec(
                #[trigger] links@[i],
                launcher_path_spec(root@),
                opt_text(*launcher_canonical),
                ""@,
            ),
{
    any_owned(root, launcher_canonical, links, "")
}

/// Which of the Start Menu shortcuts to delete: exactly this install's.
pub fn remove_start_menu_shortcut(root: &str, launcher_canonical: &Option<String>, links: &[Option<ShortcutInfo>]) -> (r: Vec<bool>)
    ensures
        r.len() == links.len(),
        forall|i: int|
            0 <= i < links.len() ==> #[trigger] r@[i] == is_owned_spec(
                links@[i],
                launcher_path_spec(root@),
                opt_text(*launcher_canonical),
                ""@,
            ),
{
    owned_flags(root, launcher_canonical, links, "")
}

/// Whether any of the desktop launch shortcuts is this install's.
pub fn desktop_shortcut_exists(root: &str, launcher_canonical: &Option<String>, links: &[Option<ShortcutInfo>]) -> (r: bool)
    ensures
        r == exists|i: int|
            0 <= i < links.len() && is_owned_spec(
                #[trigger] links@[i],
                launcher_path_spec(root@),
                opt_text(*launcher_canonical),
                "--launch-latest"@,
            ),
{
    any_owned(root, launcher_canonical, links, LAUNCH_LATEST_ARGUMENT)
}

/// Which of the desktop launch shortcuts to delete: exactly this install's.
pub fn remove_desktop_shortcut(root: &str, launcher_canonical: &Option<String>, links: &[Option<ShortcutInfo>]) -> (r: Vec<bool>)
    ensures
        r.len() == links.len(),
        forall|i: int|
            0 <= i < links.len() ==> #[trigger] r@[i] == is_owned_spec(
                links@[i],
                launcher_path_spec(root@),
                opt_text(*launcher_canonical),
                "--launch-latest"@,
            ),
{
    owned_flags(root, launcher_canonical, links, LAUNCH_LATEST_ARGUMENT)
}

/// Whether the assistant's desktop shortcut is this install's.
pub fn assistant_desktop_shortcut_exists(root: &str, launcher_canonical: &Option<String>, link: &Option<ShortcutInfo>) -> (r: bool)
    ensures
        r == is_owned_spec(*link, launcher_path_spec(root@), opt_text(*launcher_canonical), ""@),
{
    let target = launcher_path(root);
    is_owned(link, target.as_str(), launcher_canonical, "")
}

/// Whether to delete the assistant's desktop shortcut: only if it is this install's.
pub fn remove_assistant_desktop_shortcut(root: &str, launcher_canonical: &Option<String>, link: &Option<ShortcutInfo>) -> (r: bool)
    ensures
        r == is_owned_spec(*link, launcher_path_spec(root@), opt_text(*launcher_canonical), ""@),
{
    assistant_desktop_shortcut_exists(root, launcher_canonical, link)
}

/// Writing the Start Menu shortcut: refused when a foreign file holds its
/// name; an owned legacy shortcut is removed afterwards.
pub fn write_start_menu_shortcut(
    root: &str,
    launcher_canonical: &Option<String>,
    link_exists: bool,
    link: &Option<ShortcutInfo>,
    legacy: &Option<ShortcutInfo>,
) -> (r: Result<ShortcutPlan, String>)
    ensures
        link_exists && !is_owned_spec(*link, launcher_path_spec(root@), opt_text(*launcher_canonical), ""@) ==> r is Err
            && r->Err_0@
            == "开始菜单已存在其他来源的 Codex Windows 中文助手快捷方式，为避免覆盖已保留原文件"@,
        !(link_exists && !is_owned_spec(*link, launcher_path_spec(root@), opt_text(*launcher_canonical), ""@)) ==> r is Ok
            && plan_is(
            r->Ok_0,
            launcher_path_spec(root@),
            launcher_path_spec(root@),
            "Codex Windows 中文助手"@,
            root@,
            ""@,
            is_owned_spec(*legacy, launcher_path_spec(root@), opt_text(*launcher_canonical), ""@),
        ),
{
    let target = launcher_path(root);
    if link_exists && !is_owned(link, target.as_str(), launcher_canonical, "") {
        return Err(
            owned(
                "开始菜单已存在其他来源的 Codex Windows 中文助手快捷方式，为避免覆盖已保留原文件",
            ),
        );
    }
    let remove_legacy = is_owned(legacy, target.as_str(), launcher_canonical, "");
    Ok(
        ShortcutPlan {
            target: target.clone(),
            icon: target,
            description: owned("Codex Windows 中文助手"),
            working_dir: owned(root),
            arguments: owned(""),
            remove_legacy,
        },
    )
}

/// Creating or refreshing the ChatGPT desktop shortcut for `launch` (the
/// resolved default launch target): refused when a foreign file holds its
/// name; an owned legacy shortcut is removed afterwards.
pub fn create_or_update_desktop_shortcut(
    root: &str,
    launcher_canonical: &Option<String>,
    link_exists: bool,
    link: &Option<ShortcutInfo>,
    legacy: &Option<ShortcutInfo>,
    launch: &LaunchTarget,
) -> (r: Result<ShortcutPlan, String>)
    ensures
        link_exists && !is_owned_spec(*link, launcher_path_spec(root@), opt_text(*launcher_canonical), "--launch-latest"@) ==> r
            is Err && r->Err_0@
            == "桌面已存在其他来源的 ChatGPT 快捷方式，为避免覆盖已保留原文件"@,
        !(link_exists && !is_owned_spec(*link, launcher_path_spec(root@), opt_text(*launcher_canonical), "--launch-latest"@))
            ==> r is Ok && plan_is(
            r->Ok_0,
            launcher_path_spec(root@),
            launch.executable@,
            "启动最新 "@ + display_name_spec(launch.app_kind),
            root@,
            "--launch-latest"@,
            is_owned_spec(*legacy, launcher_path_spec(root@), opt_text(*launcher_canonical), "--launch-latest"@),
        ),
{
    let target = launcher_path(root);
    if link_exists && !is_owned(link, target.as_str(), launcher_canonical, LAUNCH_LATEST_ARGUMENT) {
        return Err(owned("桌面已存在其他来源的 ChatGPT 快捷方式，为避免覆盖已保留原文件"));
    }
    let remove_legacy = is_owned(legacy, target.as_str(), launcher_canonical, LAUNCH_LATEST_ARGUMENT);
    let mut description = owned("启动最新 ");
    description.append(launch.app_kind.display_name());
    Ok(
        ShortcutPlan {
            target,
            icon: launch.executable.clone(),
            description,
            working_dir: owned(root),
            arguments: owned(LAUNCH_LATEST_ARGUMENT),
            remove_legacy,
        },
    )
}

/// Creating or refreshing the assistant's own desktop shortcut: refused
/// when a foreign file holds its name.
pub fn create_or_update_assistant_desktop_shortcut(
    root: &str,
    launcher_canonical: &Option<String>,
    link_exists: bool,
    link: &Option<ShortcutInfo>,
) -> (r: Result<ShortcutPlan, String>)
    ensures
        link_exists && !is_owned_spec(*link, launcher_path_spec(root@), opt_text(*launcher_canonical), ""@) ==> r is Err
            && r->Err_0@
            == "桌面已存在其他来源的 Codex Windows 中文助手快捷方式，为避免覆盖已保留原文件"@,
        !(link_exists && !is_owned_spec(*link, launcher_path_spec(root@), opt_text(*launcher_canonical), ""@)) ==> r is Ok
            && plan_is(
            r->Ok_0,
            launcher_path_spec(root@),
            launcher_path_spec(root@),
            "打开 Codex Windows 中文助手"@,
            root@,
            ""@,
            false,
        ),
{
    let target = launcher_path(root);
    if link_exists && !is_owned(link, target.as_str(), launcher_canonical, "") {
        return Err(
            owned("桌面已存在其他来源的 Codex Windows 中文助手快捷方式，为避免覆盖已保留原文件"),
        );
    }
    Ok(
        ShortcutPlan {
            target: target.clone(),
            icon: target,
            description: owned("打开 Codex Windows 中文助手"),
            working_dir: owned(root),
            arguments: owned(""),
            remove_legacy: false,
        },
    )
}

// ---------------------------------------------------------------------------
// codex:// actions of an installed launcher
// ---------------------------------------------------------------------------

/// What enabling `codex://` for the launch target `handler_exe` does; with
/// `replace_foreign` another installation's registration is taken over.
pub fn enable_codex_protocol(
    existing: &ExistingProtocol,
    install_root: &str,
    handler_exe: &str,
    facts: &HandlerFacts,
    effective_handler: Result<Option<String>, String>,
    replace_foreign: bool,
) -> (r: Result<ProtocolPlan, String>)
    ensures
        match r {
            Ok(plan) => register_plan_spec(
                existing@,
                install_root@,
                handler_exe@,
                *facts,
                effective_view(effective_handler),
                replace_foreign,
            ) == Ok::<ProtocolPlan, Seq<char>>(plan),
            Err(e) => register_plan_spec(
                existing@,
                install_root@,
                handler_exe@,
                *facts,
                effective_view(effective_handler),
                replace_foreign,
            ) == Err::<ProtocolPlan, Seq<char>>(e@),
        },
{
    if replace_foreign {
        replace_codex_protocol(existing, install_root, handler_exe, facts, effective_handler)
    } else {
        register_codex_protocol(existing, install_root, handler_exe, facts, effective_handler)
    }
}

/// What disabling `codex://` does: only this install's registration goes.
pub fn disable_codex_protocol(existing: &ExistingProtocol, install_root: &str) -> (r:
    ProtocolRemoval)
    ensures
        r == removal_spec(existing@, install_root@),
{
    remove_codex_protocol_if_owned(existing, install_root)
}

/// The registry work that keeps `codex://` in line with the saved preference.
#[derive(Debug, Clone, Copy, PartialEq, Eq, Structural)]
pub enum ProtocolSyncWork {
    /// Carry out this registration plan.
    Register(ProtocolPlan),
    /// Carry out this removal outcome (`Removed` deletes the key).
    Remove(ProtocolRemoval),
    /// Nothing to change.
    Nothing,
}

/// The work for a preference: `Some(true)` registers (keeping another
/// installation's registration), `Some(false)` removes this install's
/// registration, `None` re-registers only a registration of this install
/// that needs repair.
pub open spec fn sync_spec(
    preference: Option<bool>,
    e: crate::registry::ExistingView,
    root: Seq<char>,
    handler: Seq<char>,
    facts: HandlerFacts,
    effective: Result<Option<Seq<char>>, Seq<char>>,
) -> Result<ProtocolSyncWork, Seq<char>> {
    match preference {
        Some(true) => match register_plan_spec(e, root, handler, facts, effective, false) {
            Ok(plan) => Ok(ProtocolSyncWork::Register(plan)),
            Err(m) => Err(m),
        },
        Some(false) => Ok(ProtocolSyncWork::Remove(removal_spec(e, root))),
        None => match handler_error(root, handler, facts) {
            Some(m) => Err(m),
            None => if classify_spec(e, root, command_spec(handler))
                == CodexProtocolStatus::NeedsRepair {
                match register_plan_spec(e, root, handler, facts, effective, false) {
                    Ok(plan) => Ok(ProtocolSyncWork::Register(plan)),
                    Err(m) => Err(m),
                }
            } else {
                Ok(ProtocolSyncWork::Nothing)
            },
        },
    }
}

/// The `codex://` work after an install, update or version change, for the
/// launch target `handler_exe` and the configuration's preference.
pub fn sync_codex_protocol(
    cfg: &Config,
    existing: &ExistingProtocol,
    install_root: &str,
    handler_exe: &str,
    facts: &HandlerFacts,
    effective_handler: Result<Option<String>, String>,
) -> (r: Result<ProtocolSyncWork, String>)
    ensures
        match r {
            Ok(w) => sync_spec(
                cfg.register_codex_protocol,
                existing@,
                install_root@,
                handler_exe@,
                *facts,
                effective_view(effective_handler),
            ) == Ok::<ProtocolSyncWork, Seq<char>>(w),
            Err(m) => sync_spec(
                cfg.register_codex_protocol,
                existing@,
                install_root@,
                handler_exe@,
                *facts,
                effective_view(effective_handler),
            ) == Err::<ProtocolSyncWork, Seq<char>>(m@),
        },
{
    match cfg.register_codex_protocol_preference() {
        Some(true) => {
            let plan = register_codex_protocol(
                existing,
                install_root,
                handler_exe,
                facts,
                effective_handler,
            )?;
            Ok(ProtocolSyncWork::Register(plan))
        },
        Some(false) => Ok(
            ProtocolSyncWork::Remove(remove_codex_protocol_if_owned(existing, install_root)),
        ),
        None => {
            let status = codex_protocol_status(existing, install_root, handler_exe, facts)?;
            if repair_needed(status) {
                let plan = register_codex_protocol(
                    existing,
                    install_root,
                    handler_exe,
                    facts,
                    effective_handler,
                )?;
                Ok(ProtocolSyncWork::Register(plan))
            } else {
                Ok(ProtocolSyncWork::Nothing)
            }
        },
    }
}

/// The configuration saved after an install records the request as given:
/// mode, the installed version as current and known latest, the retention
/// choice (at least one version kept), the `versions/current` junction, the
/// uninstall entry and the `codex://` preference; nothing is snoozed,
/// skipped or checked yet, and a local package is never remembered as the
/// fetcher.
pub proof fn law_installed_config_keeps_the_request(
    opts: InstallOptions,
    version: Seq<char>,
    update_policy: UpdatePolicy,
)
    ensures
        ({
            let c = installed_config_spec(opts, version, update_policy);
            &&& c.install_mode == opts.mode
            &&& c.current_version == version
            &&& c.known_latest == Some(version)
            &&& c.update_policy == update_policy
            &&& c.keep_all_versions == opts.keep_all_versions
            &&& c.keep_versions >= 1
            &&& opts.keep_versions >= 1 ==> c.keep_versions == opts.keep_versions
            &&& c.use_current_junction == opts.use_current_junction
            &&& c.register_uninstall == opts.register_uninstall
            &&& c.register_codex_protocol == Some(opts.register_codex_protocol)
            &&& c.fetcher != Fetcher::LocalFile
            &&& opts.fetcher != Fetcher::LocalFile ==> c.fetcher == opts.fetcher
            &&& c.suppress_until_unix is None
            &&& c.skipped_version is None
            &&& c.last_check_unix is None
        }),
{
}

} // verus!
