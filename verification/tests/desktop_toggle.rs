use codex_windows_cn::cli::CliHelperAction;
use codex_windows_cn::config::InstallMode;
use codex_windows_cn::shortcut_toggle::{
    toggle_error_message, toggle_helper_action, toggle_helper_failure, toggle_needs_helper,
    toggle_success_message, DesktopEntry,
};

#[test]
fn only_unelevated_all_users_installs_use_the_helper() {
    assert!(toggle_needs_helper(InstallMode::System, false));
    assert!(!toggle_needs_helper(InstallMode::System, true));
    assert!(!toggle_needs_helper(InstallMode::User, false));
    assert!(!toggle_needs_helper(InstallMode::Portable, false));
}

#[test]
fn helper_calls_name_the_toggled_shortcut() {
    assert_eq!(
        toggle_helper_action(DesktopEntry::ChatGpt, true),
        CliHelperAction::SetDesktopShortcut(true)
    );
    assert_eq!(
        toggle_helper_action(DesktopEntry::Assistant, false),
        CliHelperAction::SetAssistantDesktopShortcut(false)
    );
}

#[test]
fn helper_outcomes_become_messages() {
    assert_eq!(toggle_helper_failure(DesktopEntry::ChatGpt, Ok(0)), None);
    assert_eq!(
        toggle_helper_failure(DesktopEntry::ChatGpt, Err(())).as_deref(),
        Some("管理公共桌面快捷方式需要管理员权限，授权未完成")
    );
    assert_eq!(
        toggle_helper_failure(DesktopEntry::Assistant, Ok(1)).as_deref(),
        Some("管理员快捷方式进程执行失败，未修改中文助手桌面入口")
    );
    assert_eq!(
        toggle_success_message(DesktopEntry::ChatGpt, false),
        "已移除 ChatGPT 桌面快捷方式"
    );
    assert_eq!(
        toggle_success_message(DesktopEntry::Assistant, true),
        "已创建中文助手桌面快捷方式"
    );
    assert_eq!(
        toggle_error_message(DesktopEntry::ChatGpt, true, "COM"),
        "创建 ChatGPT 桌面快捷方式失败：COM"
    );
}
