use codex_windows_cn::config::{Fetcher, InstallMode, UpdatePolicy};
use codex_windows_cn::installer::{
    check_cancel, configured_update_fetcher, create_or_update_desktop_shortcut,
    default_path_from, download_progress_detail, download_start_detail, extract_progress_detail,
    protocol_sync_warning, installed_config, protocol_sync_for,
    record_update, uninstall_entry, update_start_detail, write_start_menu_shortcut,
    InstallOptions, ProtocolSync,
};
use codex_windows_cn::shortcut::{
    paths_equal, ShortcutInfo, ASSISTANT_DESKTOP_SHORTCUT_NAME, DESKTOP_SHORTCUT_NAME,
    LEGACY_DESKTOP_SHORTCUT_NAME, LEGACY_SHORTCUT_NAME, SHORTCUT_NAME,
};
use codex_windows_cn::versions::{AppKind, LaunchTarget};

#[test]
fn update_keeps_configured_direct_fetcher() {
    assert_eq!(configured_update_fetcher(Fetcher::Direct), Fetcher::Direct);
}

#[test]
fn update_keeps_configured_winget_fetcher() {
    assert_eq!(configured_update_fetcher(Fetcher::Winget), Fetcher::Winget);
}

#[test]
fn update_normalizes_legacy_local_file_fetcher_to_direct() {
    assert_eq!(
        configured_update_fetcher(Fetcher::LocalFile),
        Fetcher::Direct
    );
}

#[test]
fn update_direct_detail_matches_actual_preferred_fetcher() {
    assert_eq!(
        update_start_detail(configured_update_fetcher(Fetcher::Direct)),
        "正在解析 Codex 下载地址；如果直连失败，将自动切换 winget。"
    );
}

#[test]
fn desktop_shortcut_uses_plain_chatgpt_name() {
    assert_eq!(SHORTCUT_NAME, "Codex Windows 中文助手.lnk");
    assert_eq!(LEGACY_SHORTCUT_NAME, "Codex.lnk");
    assert_eq!(DESKTOP_SHORTCUT_NAME, "ChatGPT.lnk");
    assert_eq!(LEGACY_DESKTOP_SHORTCUT_NAME, "ChatGPT（中文助手）.lnk");
    assert_eq!(
        ASSISTANT_DESKTOP_SHORTCUT_NAME,
        "Codex Windows 中文助手.lnk"
    );
}

#[test]
fn ownership_path_comparison_is_case_insensitive() {
    assert!(paths_equal(
        r"C:\Program Files\Codex\codex-launcher.exe",
        r"c:/program files/codex/CODEX-LAUNCHER.EXE",
        &None,
        &None,
    ));
}

#[test]
fn resolved_canonical_paths_decide_shortcut_ownership() {
    let canonical = Some(r"\\?\D:\Codex\codex-launcher.exe".to_string());
    // a link through another path text that resolves to the launcher is ours
    assert!(paths_equal(
        r"C:\Link\codex-launcher.exe",
        r"C:\Codex\codex-launcher.exe",
        &canonical,
        &canonical,
    ));
    // equal texts whose canonical forms differ are different files
    assert!(!paths_equal(
        r"C:\Codex\codex-launcher.exe",
        r"c:\codex\codex-launcher.exe",
        &Some(r"\\?\C:\A\codex-launcher.exe".to_string()),
        &Some(r"\\?\C:\B\codex-launcher.exe".to_string()),
    ));
    // one side unresolved: the normalized texts decide
    assert!(paths_equal(
        r"C:\Codex\codex-launcher.exe",
        r"c:/codex/codex-launcher.exe\",
        &canonical,
        &None,
    ));
    let linked = Some(ShortcutInfo {
        target: r"C:\Link\codex-launcher.exe".into(),
        arguments: String::new(),
        target_canonical: canonical.clone(),
    });
    assert!(write_start_menu_shortcut(r"C:\Codex", &canonical, true, &linked, &None).is_ok());
    assert!(write_start_menu_shortcut(r"C:\Codex", &None, true, &linked, &None).is_err());
}

#[test]
fn different_paths_are_not_equal() {
    assert!(!paths_equal(r"C:\Codex\codex-launcher.exe", r"C:\Codex2\codex-launcher.exe", &None, &None));
}

#[test]
fn default_install_paths_per_mode() {
    assert_eq!(
        default_path_from(InstallMode::User, None, Some(r"C:\Users\tester\AppData\Local".into())),
        r"C:\Users\tester\AppData\Local\Codex"
    );
    assert_eq!(
        default_path_from(InstallMode::System, None, None),
        r"C:\Program Files\Codex"
    );
}

#[test]
fn install_detail_names_the_chosen_fetcher() {
    assert_ne!(
        download_start_detail(Fetcher::Winget),
        download_start_detail(Fetcher::Direct)
    );
    assert_ne!(
        update_start_detail(Fetcher::Winget),
        update_start_detail(Fetcher::Direct)
    );
}

#[test]
fn cancelled_install_reports_cancellation() {
    assert_eq!(check_cancel(true), Err("安装已取消".to_string()));
    assert_eq!(check_cancel(false), Ok(()));
}

fn options(fetcher: Fetcher, keep_versions: u32) -> InstallOptions {
    InstallOptions {
        mode: InstallMode::User,
        root: r"C:\Codex".into(),
        create_shortcut: true,
        create_desktop_shortcut: true,
        create_assistant_desktop_shortcut: false,
        register_uninstall: true,
        register_codex_protocol: true,
        keep_versions,
        keep_all_versions: false,
        fetcher,
        use_current_junction: true,
        local_msix: None,
    }
}

#[test]
fn installed_config_records_the_install_without_a_local_file_fetcher() {
    let cfg = installed_config(&options(Fetcher::LocalFile, 0), "26.707.3748.0", UpdatePolicy::Daily);
    assert_eq!(cfg.current_version, "26.707.3748.0");
    assert_eq!(cfg.known_latest.as_deref(), Some("26.707.3748.0"));
    assert_eq!(cfg.fetcher, Fetcher::Direct);
    assert_eq!(cfg.keep_versions, 1);
    assert_eq!(cfg.register_codex_protocol, Some(true));
    assert_eq!(cfg.update_policy, UpdatePolicy::Daily);
}

#[test]
fn recording_an_update_clears_snooze_and_stamps_the_check() {
    let mut cfg = installed_config(&options(Fetcher::Winget, 3), "1.0.0", UpdatePolicy::Weekly);
    cfg.suppress_until_unix = Some(99);
    record_update(&mut cfg, "1.2.0", 1_234);
    assert_eq!(cfg.current_version, "1.2.0");
    assert_eq!(cfg.known_latest.as_deref(), Some("1.2.0"));
    assert_eq!(cfg.suppress_until_unix, None);
    assert_eq!(cfg.last_check_unix, Some(1_234));
    assert_eq!(cfg.fetcher, Fetcher::Winget);
    assert_eq!(cfg.keep_versions, 3);
}

#[test]
fn uninstall_entry_points_at_the_launcher() {
    let entry = uninstall_entry(r"C:\Codex", "1.2.0");
    assert_eq!(entry.display_name, "Codex Windows 中文助手");
    assert_eq!(entry.display_version, "1.2.0");
    assert_eq!(entry.publisher, "chrichuang218");
    assert_eq!(entry.install_location, r"C:\Codex");
    assert_eq!(entry.uninstall_string, r#""C:\Codex\codex-launcher.exe" --uninstall"#);
    assert_eq!(entry.display_icon, r"C:\Codex\codex-launcher.exe");
}

#[test]
fn protocol_preference_selects_the_sync_work() {
    assert_eq!(protocol_sync_for(Some(true)), ProtocolSync::Register);
    assert_eq!(protocol_sync_for(Some(false)), ProtocolSync::RemoveIfOwned);
    assert_eq!(protocol_sync_for(None), ProtocolSync::RepairIfNeeded);
}

#[test]
fn start_menu_shortcut_refuses_a_foreign_file() {
    let foreign = Some(ShortcutInfo {
        target: r"D:\Other\codex-launcher.exe".into(),
        arguments: String::new(),
        target_canonical: None,
    });
    assert!(write_start_menu_shortcut(r"C:\Codex", &None, true, &foreign, &None).is_err());
    let ours = Some(ShortcutInfo {
        target: r"c:\codex\CODEX-LAUNCHER.exe".into(),
        arguments: String::new(),
        target_canonical: None,
    });
    let plan = write_start_menu_shortcut(r"C:\Codex", &None, true, &ours, &ours)
        .expect("own shortcut can be refreshed");
    assert_eq!(plan.target, r"C:\Codex\codex-launcher.exe");
    assert!(plan.remove_legacy);
}

#[test]
fn desktop_shortcut_launches_latest_through_the_launcher() {
    let launch = LaunchTarget {
        version: "26.707.3748.0".into(),
        app_kind: AppKind::ChatGpt,
        executable: r"C:\Codex\versions\current\ChatGPT.exe".into(),
    };
    let plan = create_or_update_desktop_shortcut(r"C:\Codex", &None, false, &None, &None, &launch)
        .expect("no shortcut yet");
    assert_eq!(plan.target, r"C:\Codex\codex-launcher.exe");
    assert_eq!(plan.icon, r"C:\Codex\versions\current\ChatGPT.exe");
    assert_eq!(plan.description, "启动最新 ChatGPT");
    assert_eq!(plan.arguments, "--launch-latest");
    assert_eq!(plan.working_dir, r"C:\Codex");
    assert!(!plan.remove_legacy);
    let foreign = Some(ShortcutInfo {
        target: r"C:\Codex\codex-launcher.exe".into(),
        arguments: String::new(),
        target_canonical: None,
    });
    assert_eq!(
        create_or_update_desktop_shortcut(r"C:\Codex", &None, true, &foreign, &None, &launch).err(),
        Some("桌面已存在其他来源的 ChatGPT 快捷方式，为避免覆盖已保留原文件".to_string())
    );
}

#[test]
fn progress_details_count_mebibytes_and_files() {
    assert_eq!(download_progress_detail(538 * 1_048_576 + 5, Some(639 * 1_048_576)), "538 / 639 MB");
    assert_eq!(download_progress_detail(1_048_575, None), "0 MB");
    assert_eq!(extract_progress_detail(318, Some(900)), "318 / 900 files");
    assert_eq!(extract_progress_detail(7, None), "7 files");
}

#[test]
fn protocol_sync_failure_notice_names_the_operation() {
    assert_eq!(
        protocol_sync_warning("更新", "access denied"),
        "桌面应用更新已完成，但 codex:// 会话链接配置失败：access denied\n\n可稍后在中文助手的设置页重试。"
    );
}
