//! The Windows integration done once an install or update is usable:
//! shortcuts, the uninstall entry, retention and removing the downloaded
//! package, in that order, and what the user is told when a shortcut step
//! fails. The shell performs each step.

use crate::text::owned;
use crate::versions::RetentionPolicy;
use vstd::prelude::*;

verus! {

/// One piece of post-install or post-update work.
#[derive(Debug, Clone, Copy, PartialEq, Eq, Structural)]
pub enum IntegrationStep {
    StartMenuShortcut,
    DesktopShortcut,
    AssistantDesktopShortcut,
    UninstallEntry,
    PruneVersions(RetentionPolicy),
    RemovePackage,
}

/// When a step runs: right after an install, refreshing a shortcut after an
/// update, or inspecting whether a shortcut exists after an update.
#[derive(Debug, Clone, Copy, PartialEq, Eq, Structural)]
pub enum IntegrationPhase {
    Install,
    UpdateRefresh,
    UpdateInspect,
}

/// Keep-all, or keep the newest `keep_versions`.
pub open spec fn retention_spec(keep_versions: u32, keep_all_versions: bool) -> RetentionPolicy {
    if keep_all_versions {
        RetentionPolicy::KeepAll
    } else {
        RetentionPolicy::KeepLatest(keep_versions)
    }
}

/// The retention policy of a configuration.
pub fn retention_policy(keep_versions: u32, keep_all_versions: bool) -> (r: RetentionPolicy)
    ensures
        r == retention_spec(keep_versions, keep_all_versions),
{
    if keep_all_versions {
        RetentionPolicy::KeepAll
    } else {
        RetentionPolicy::KeepLatest(keep_versions)
    }
}

pub open spec fn when(c: bool, s: IntegrationStep) -> Seq<IntegrationStep> {
    if c {
        seq![s]
    } else {
        Seq::empty()
    }
}

/// The steps after an install, for the options the user chose.
pub open spec fn install_steps_spec(
    start_menu: bool,
    desktop: bool,
    assistant_desktop: bool,
    uninstall_entry: bool,
    retention: RetentionPolicy,
) -> Seq<IntegrationStep> {
    when(start_menu, IntegrationStep::StartMenuShortcut) + when(
        desktop,
        IntegrationStep::DesktopShortcut,
    ) + when(assistant_desktop, IntegrationStep::AssistantDesktopShortcut) + when(
        uninstall_entry,
        IntegrationStep::UninstallEntry,
    ) + seq![IntegrationStep::PruneVersions(retention), IntegrationStep::RemovePackage]
}

fn push_when(v: &mut Vec<IntegrationStep>, c: bool, s: IntegrationStep)
    ensures
        final(v)@ == old(v)@ + when(c, s),
{
    if c {
        v.push(s);
        assert(final(v)@ =~= old(v)@ + when(c, s));
    } else {
        assert(v@ =~= old(v)@ + when(c, s));
    }
}

/// The integration steps after an install: the chosen shortcuts, the
/// uninstall entry when requested, then retention and package removal.
pub fn post_install_steps(
    create_shortcut: bool,
    create_desktop_shortcut: bool,
    create_assistant_desktop_shortcut: bool,
    register_uninstall: bool,
    keep_versions: u32,
    keep_all_versions: bool,
) -> (r: Vec<IntegrationStep>)
    ensures
        r@ == install_steps_spec(
            create_shortcut,
            create_desktop_shortcut,
            create_assistant_desktop_shortcut,
            register_uninstall,
            retention_spec(keep_versions, keep_all_versions),
        ),
{
    let mut v: Vec<IntegrationStep> = Vec::new();
    push_when(&mut v, create_shortcut, IntegrationStep::StartMenuShortcut);
    push_when(&mut v, create_desktop_shortcut, IntegrationStep::DesktopShortcut);
    push_when(&mut v, create_assistant_desktop_shortcut, IntegrationStep::AssistantDesktopShortcut);
    push_when(&mut v, register_uninstall, IntegrationStep::UninstallEntry);
    let ghost before = v@;
    v.push(IntegrationStep::PruneVersions(retention_policy(keep_versions, keep_all_versions)));
    v.push(IntegrationStep::RemovePackage);
    assert(v@ =~= before + seq![
        IntegrationStep::PruneVersions(retention_spec(keep_versions, keep_all_versions)),
        IntegrationStep::RemovePackage,
    ]);
    v
}

/// The integration steps after an update: only shortcuts that exist are
/// refreshed (none is created), then the uninstall entry, retention and
/// package removal.
pub fn post_update_steps(
    start_menu_exists: bool,
    desktop_exists: bool,
    assistant_desktop_exists: bool,
    register_uninstall: bool,
    keep_versions: u32,
    keep_all_versions: bool,
) -> (r: Vec<IntegrationStep>)
    ensures
        r@ == install_steps_spec(
            start_menu_exists,
            desktop_exists,
            assistant_desktop_exists,
            register_uninstall,
            retention_spec(keep_versions, keep_all_versions),
        ),
{
    post_install_steps(
        start_menu_exists,
        desktop_exists,
        assistant_desktop_exists,
        register_uninstall,
        keep_versions,
        keep_all_versions,
    )
}

pub open spec fn failure_parts(step: IntegrationStep, phase: IntegrationPhase) -> Option<
    (Seq<char>, Seq<char>),
> {
    let start_menu_hint = "\n\n可重新运行安装程序后重试。"@;
    let settings_retry = "\n\n可稍后在中文助手的设置页重试。"@;
    let settings_recreate = "\n\n可在中文助手的设置页重新创建。"@;
    match (step, phase) {
        (IntegrationStep::StartMenuShortcut, IntegrationPhase::Install) => Some(
            ("创建中文助手开始菜单快捷方式失败："@, start_menu_hint),
        ),
        (IntegrationStep::StartMenuShortcut, IntegrationPhase::UpdateRefresh) => Some(
            ("更新中文助手开始菜单快捷方式失败："@, start_menu_hint),
        ),
        (IntegrationStep::StartMenuShortcut, IntegrationPhase::UpdateInspect) => Some(
            ("检查中文助手开始菜单快捷方式失败："@, start_menu_hint),
        ),
        (IntegrationStep::DesktopShortcut, IntegrationPhase::Install) => Some(
            ("创建 ChatGPT 桌面快捷方式失败："@, settings_retry),
        ),
        (IntegrationStep::DesktopShortcut, IntegrationPhase::UpdateRefresh) => Some(
            ("更新 ChatGPT 桌面快捷方式失败："@, settings_recreate),
        ),
        (IntegrationStep::DesktopShortcut, IntegrationPhase::UpdateInspect) => Some(
            ("检查 ChatGPT 桌面快捷方式失败："@, settings_recreate),
        ),
        (IntegrationStep::AssistantDesktopShortcut, IntegrationPhase::Install) => Some(
            ("创建中文助手桌面快捷方式失败："@, settings_retry),
        ),
        (IntegrationStep::AssistantDesktopShortcut, IntegrationPhase::UpdateRefresh) => Some(
            ("更新中文助手桌面快捷方式失败："@, settings_recreate),
        ),
        (IntegrationStep::AssistantDesktopShortcut, IntegrationPhase::UpdateInspect) => Some(
            ("检查中文助手桌面快捷方式失败："@, settings_recreate),
        ),
        _ => None,
    }
}

pub open spec fn failure_message_spec(
    step: IntegrationStep,
    phase: IntegrationPhase,
    cause: Seq<char>,
) -> Option<Seq<char>> {
    match failure_parts(step, phase) {
        Some((head, hint)) => Some(head + cause + hint),
        None => None,
    }
}

fn parts(step: IntegrationStep, phase: IntegrationPhase) -> (r: Option<(&'static str, &'static str)>)
    ensures
        match r {
            Some((h, t)) => failure_parts(step, phase) == Some((h@, t@)),
            None => failure_parts(step, phase) is None,
        },
{
    let start_menu_hint = "\n\n可重新运行安装程序后重试。";
    let settings_retry = "\n\n可稍后在中文助手的设置页重试。";
    let settings_recreate = "\n\n可在中文助手的设置页重新创建。";
    match (step, phase) {
        (IntegrationStep::StartMenuShortcut, IntegrationPhase::Install) => Some(
            ("创建中文助手开始菜单快捷方式失败：", start_menu_hint),
        ),
        (IntegrationStep::StartMenuShortcut, IntegrationPhase::UpdateRefresh) => Some(
            ("更新中文助手开始菜单快捷方式失败：", start_menu_hint),
        ),
        (IntegrationStep::StartMenuShortcut, IntegrationPhase::UpdateInspect) => Some(
            ("检查中文助手开始菜单快捷方式失败：", start_menu_hint),
        ),
        (IntegrationStep::DesktopShortcut, IntegrationPhase::Install) => Some(
            ("创建 ChatGPT 桌面快捷方式失败：", settings_retry),
        ),
        (IntegrationStep::DesktopShortcut, IntegrationPhase::UpdateRefresh) => Some(
            ("更新 ChatGPT 桌面快捷方式失败：", settings_recreate),
        ),
        (IntegrationStep::DesktopShortcut, IntegrationPhase::UpdateInspect) => Some(
            ("检查 ChatGPT 桌面快捷方式失败：", settings_recreate),
        ),
        (IntegrationStep::AssistantDesktopShortcut, IntegrationPhase::Install) => Some(
            ("创建中文助手桌面快捷方式失败：", settings_retry),
        ),
        (IntegrationStep::AssistantDesktopShortcut, IntegrationPhase::UpdateRefresh) => Some(
            ("更新中文助手桌面快捷方式失败：", settings_recreate),
        ),
        (IntegrationStep::AssistantDesktopShortcut, IntegrationPhase::UpdateInspect) => Some(
            ("检查中文助手桌面快捷方式失败：", settings_recreate),
        ),
        _ => None,
    }
}

/// The message shown when a shortcut step fails; other steps only log.
pub fn integration_failure_message(step: IntegrationStep, phase: IntegrationPhase, cause: &str) -> (r:
    Option<String>)
    ensures
        crate::config::opt_text(r) == failure_message_spec(step, phase, cause@),
{
    match parts(step, phase) {
        Some((head, hint)) => {
            let mut m = owned(head);
            m.append(cause);
            m.append(hint);
            Some(m)
        },
        None => None,
    }
}

pub open spec fn extract_start_spec(version: Seq<char>) -> Seq<char> {
    "正在准备解压 Codex "@ + version + "。"@
}

/// The detail line shown before extracting `version`.
pub fn extract_start_detail(version: &str) -> (r: String)
    ensures
        r@ == extract_start_spec(version@),
{
    let mut r = owned("正在准备解压 Codex ");
    r.append(version);
    r.append("。");
    r
}

/// After an install or update, the downloaded package is always removed
/// last and retention runs just before it, whatever the options.
pub proof fn law_integration_ends_with_retention_then_cleanup(
    start_menu: bool,
    desktop: bool,
    assistant_desktop: bool,
    uninstall_entry: bool,
    retention: RetentionPolicy,
)
    ensures
        ({
            let s = install_steps_spec(start_menu, desktop, assistant_desktop, uninstall_entry, retention);
            &&& s.len() >= 2
            &&& s.last() == IntegrationStep::RemovePackage
            &&& s[s.len() - 2] == IntegrationStep::PruneVersions(retention)
        }),
{
}

} // verus!
