use codex_windows_cn::post_work::{
    extract_start_detail, integration_failure_message, post_install_steps, post_update_steps,
    retention_policy, IntegrationPhase, IntegrationStep,
};
use codex_windows_cn::versions::RetentionPolicy;

#[test]
fn install_steps_follow_the_chosen_options() {
    assert_eq!(
        post_install_steps(true, true, false, true, 5, false),
        vec![
            IntegrationStep::StartMenuShortcut,
            IntegrationStep::DesktopShortcut,
            IntegrationStep::UninstallEntry,
            IntegrationStep::PruneVersions(RetentionPolicy::KeepLatest(5)),
            IntegrationStep::RemovePackage,
        ]
    );
    assert_eq!(
        post_install_steps(false, false, false, false, 2, true),
        vec![
            IntegrationStep::PruneVersions(RetentionPolicy::KeepAll),
            IntegrationStep::RemovePackage,
        ]
    );
}

#[test]
fn update_refreshes_only_existing_shortcuts() {
    assert_eq!(
        post_update_steps(false, true, true, false, 3, false),
        vec![
            IntegrationStep::DesktopShortcut,
            IntegrationStep::AssistantDesktopShortcut,
            IntegrationStep::PruneVersions(RetentionPolicy::KeepLatest(3)),
            IntegrationStep::RemovePackage,
        ]
    );
    assert_eq!(retention_policy(4, true), RetentionPolicy::KeepAll);
}

#[test]
fn shortcut_failures_tell_the_user_where_to_retry() {
    assert_eq!(
        integration_failure_message(IntegrationStep::StartMenuShortcut, IntegrationPhase::Install, "COM")
            .as_deref(),
        Some("创建中文助手开始菜单快捷方式失败：COM\n\n可重新运行安装程序后重试。")
    );
    assert_eq!(
        integration_failure_message(IntegrationStep::DesktopShortcut, IntegrationPhase::UpdateInspect, "x")
            .as_deref(),
        Some("检查 ChatGPT 桌面快捷方式失败：x\n\n可在中文助手的设置页重新创建。")
    );
    assert_eq!(
        integration_failure_message(IntegrationStep::UninstallEntry, IntegrationPhase::Install, "x"),
        None
    );
    assert_eq!(extract_start_detail("1.2.0"), "正在准备解压 Codex 1.2.0。");
}
