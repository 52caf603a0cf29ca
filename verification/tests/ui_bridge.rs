use codex_windows_cn::bridge::{
    app_status, bridge_fetcher, bridge_install_mode, cancel_install_answer, core_fetcher,
    core_install_mode, ensure_update_inactive, install_needs_elevation, install_start,
    install_start_refusal, shadowed_protocol_warning, uninstall_cleanup_failure,
    uninstall_start_refusal, update_start_refusal, InstallStart,
    install_event_text, install_mode_label, install_options_from_request, installer_defaults,
    phase_detail, phase_title, BridgeFetcher, BridgeInstallMode, InstallEventKind, InstallRequest,
    MainPath, WorkerMessage,
};
use codex_windows_cn::config::{Fetcher, InstallMode};
use codex_windows_cn::registry::CodexProtocolStatus;

fn defaults() -> codex_windows_cn::bridge::InstallerDefaults {
    installer_defaults(
        Some(r"C:\Tools".into()),
        Some(r"C:\Users\tester\AppData\Local".into()),
    )
}

#[test]
fn app_status_describes_the_v1_chinese_install_update_assistant() {
    let status = app_status();

    assert_eq!(status.product_name, "Codex Windows 中文助手");
    assert_eq!(status.v1_boundary, "中文安装更新助手");
    assert_eq!(
        status.main_paths,
        vec![
            MainPath::Install,
            MainPath::ProxyLaunch,
            MainPath::CheckAndUpdate,
            MainPath::Uninstall,
            MainPath::LauncherSelfUpdate,
        ]
    );
}

#[test]
fn installer_defaults_offer_a_recommended_user_install_path() {
    let defaults = defaults();

    assert_eq!(defaults.recommended_mode, BridgeInstallMode::User);
    assert_eq!(defaults.recommended_fetcher, BridgeFetcher::Direct);
    assert_eq!(
        defaults
            .modes
            .iter()
            .map(|mode| mode.mode)
            .collect::<Vec<_>>(),
        vec![
            BridgeInstallMode::Portable,
            BridgeInstallMode::User,
            BridgeInstallMode::System,
        ]
    );
    assert_eq!(
        defaults.fetchers,
        vec![
            BridgeFetcher::Direct,
            BridgeFetcher::Winget,
            BridgeFetcher::LocalFile,
        ]
    );

    let user_mode = defaults
        .modes
        .iter()
        .find(|mode| mode.mode == BridgeInstallMode::User)
        .expect("user install mode should be available");
    assert_eq!(user_mode.label, "当前用户");
    assert!(user_mode.default_root.ends_with(r"\Codex"));
    assert!(user_mode.create_shortcut);
    assert!(user_mode.create_desktop_shortcut);
    assert!(!user_mode.create_assistant_desktop_shortcut);
    assert!(user_mode.register_uninstall);
    assert_eq!(user_mode.keep_versions, 5);
    assert!(!user_mode.keep_all_versions);
    assert!(user_mode.use_current_junction);

    let portable_mode = defaults
        .modes
        .iter()
        .find(|mode| mode.mode == BridgeInstallMode::Portable)
        .expect("portable install mode should be available");
    assert_eq!(portable_mode.label, "便携模式");
    assert!(!portable_mode.create_shortcut);
    assert!(!portable_mode.create_desktop_shortcut);
    assert!(!portable_mode.create_assistant_desktop_shortcut);
    assert!(!portable_mode.register_uninstall);
}

fn request(fetcher: BridgeFetcher, local_msix: Option<String>) -> InstallRequest {
    InstallRequest {
        mode: BridgeInstallMode::User,
        root: r"C:\Users\tester\AppData\Local\Codex".into(),
        create_shortcut: true,
        create_desktop_shortcut: true,
        create_assistant_desktop_shortcut: true,
        register_uninstall: true,
        keep_versions: 2,
        keep_all_versions: false,
        fetcher,
        use_current_junction: true,
        local_msix,
    }
}

#[test]
fn install_request_builds_installer_options_without_touching_disk() {
    let options =
        install_options_from_request(request(BridgeFetcher::Direct, None)).expect("valid install request");

    assert_eq!(options.mode, InstallMode::User);
    assert_eq!(options.root, r"C:\Users\tester\AppData\Local\Codex");
    assert!(options.create_shortcut);
    assert!(options.create_desktop_shortcut);
    assert!(options.create_assistant_desktop_shortcut);
    assert!(options.register_uninstall);
    assert_eq!(options.keep_versions, 2);
    assert_eq!(options.fetcher, Fetcher::Direct);
    assert!(options.use_current_junction);
    assert!(options.local_msix.is_none());
}

#[test]
fn install_requests_need_a_root_and_a_local_package() {
    let mut blank = request(BridgeFetcher::Direct, None);
    blank.root = "   ".into();
    assert_eq!(
        install_options_from_request(blank).err(),
        Some("请选择安装位置".to_string())
    );
    assert_eq!(
        install_options_from_request(request(BridgeFetcher::LocalFile, Some("  ".into()))).err(),
        Some("使用本地 MSIX 时需要选择文件".to_string())
    );
    let options = install_options_from_request(request(
        BridgeFetcher::LocalFile,
        Some(r"D:\pkg.msix".into()),
    ))
    .expect("local package given");
    assert_eq!(options.local_msix.as_deref(), Some(r"D:\pkg.msix"));
    let mut zero = request(BridgeFetcher::Winget, None);
    zero.keep_versions = 0;
    zero.root = "  C:\\Codex  ".into();
    let options = install_options_from_request(zero).expect("valid");
    assert_eq!(options.keep_versions, 1);
    assert_eq!(options.root, r"C:\Codex");
}

#[test]
fn install_worker_messages_are_reported_as_chinese_events() {
    let event = install_event_text(WorkerMessage::Phase {
        phase: "Downloading".into(),
        detail: "via Direct".into(),
    });

    assert_eq!(event.kind, InstallEventKind::Phase);
    assert_eq!(event.title, "正在下载");
    assert_eq!(event.detail, "通过直连 Microsoft Store");
    assert_eq!(event.version, None);
    assert_eq!(event.message, None);
}

#[test]
fn install_done_does_not_assume_the_downloaded_product_name() {
    let event = install_event_text(WorkerMessage::Done {
        version: "26.707.3748.0".into(),
    });

    assert_eq!(event.title, "安装完成");
    assert_eq!(event.detail, "已安装官方桌面应用 26.707.3748.0");
}

#[test]
fn install_progress_event_keeps_download_title_and_size_detail() {
    let event = install_event_text(WorkerMessage::ProgressDetail {
        phase: "Downloading".into(),
        detail: "538 / 639 MB".into(),
    });
    assert_eq!(event.kind, InstallEventKind::Progress);
    assert_eq!(event.title, "正在下载");
    assert_eq!(event.detail, "538 / 639 MB");
    assert_eq!(event.version, None);
    assert_eq!(event.message, None);
}

#[test]
fn install_progress_event_keeps_extract_title_and_file_count() {
    let event = install_event_text(WorkerMessage::ProgressDetail {
        phase: "Extracting".into(),
        detail: "318 / 900 files".into(),
    });
    assert_eq!(event.kind, InstallEventKind::Progress);
    assert_eq!(event.title, "正在解压");
    assert_eq!(event.detail, "318 / 900 files");
}

#[test]
fn install_progress_event_keeps_finalizing_title_and_detail() {
    let event = install_event_text(WorkerMessage::ProgressDetail {
        phase: "Finalizing".into(),
        detail: "正在写入启动器和配置。".into(),
    });
    assert_eq!(event.kind, InstallEventKind::Progress);
    assert_eq!(event.title, "正在完成");
    assert_eq!(event.detail, "正在写入启动器和配置。");
}

#[test]
fn install_errors_carry_the_message() {
    let event = install_event_text(WorkerMessage::Error("磁盘已满".into()));
    assert_eq!(event.kind, InstallEventKind::Error);
    assert_eq!(event.title, "安装失败");
    assert_eq!(event.detail, "");
    assert_eq!(event.message.as_deref(), Some("磁盘已满"));
    let event = install_event_text(WorkerMessage::Progress);
    assert_eq!(event.title, "安装进度");
}

#[test]
fn phase_texts_render_known_phases_in_chinese() {
    assert_eq!(phase_title("Something"), "正在安装");
    assert_eq!(phase_detail("via Winget"), "通过 winget");
    assert_eq!(phase_detail("via LocalFile"), "通过本地 MSIX");
    assert_eq!(phase_detail("version 1.2.3"), "版本 1.2.3");
    assert_eq!(phase_detail("other"), "other");
}

#[test]
fn install_mode_and_fetcher_names_round_trip() {
    for mode in [InstallMode::Portable, InstallMode::User, InstallMode::System] {
        assert_eq!(core_install_mode(bridge_install_mode(mode)), mode);
    }
    for fetcher in [Fetcher::Direct, Fetcher::Winget, Fetcher::LocalFile] {
        assert_eq!(core_fetcher(bridge_fetcher(fetcher)), fetcher);
    }
    assert_eq!(install_mode_label(InstallMode::System), "所有用户");
}

#[test]
fn all_users_installs_start_from_an_unelevated_ui() {
    assert_eq!(
        install_start_refusal(BridgeInstallMode::System, true),
        Some("为确保同步发起用户的配置，请以普通用户身份重新启动中文助手后再执行所有用户安装")
    );
    assert_eq!(install_start_refusal(BridgeInstallMode::User, true), None);
    assert!(install_needs_elevation(BridgeInstallMode::System, false));
    assert!(!install_needs_elevation(BridgeInstallMode::Portable, false));
    assert_eq!(
        install_start(true),
        InstallStart {
            accepted: true,
            cancellable: false
        }
    );
    assert_eq!(
        install_start(false),
        InstallStart {
            accepted: true,
            cancellable: true
        }
    );
    assert_eq!(cancel_install_answer(false), Err("当前没有正在运行的安装任务"));
}

#[test]
fn running_updates_block_other_changes() {
    assert_eq!(
        ensure_update_inactive(true, "删除已安装版本"),
        Err("更新进行中，暂不能删除已安装版本".to_string())
    );
    assert_eq!(ensure_update_inactive(false, "删除已安装版本"), Ok(()));
}

#[test]
fn shadowed_protocol_after_install_is_reported() {
    assert_eq!(shadowed_protocol_warning("系统安装", Ok(CodexProtocolStatus::Ready)), None);
    assert_eq!(
        shadowed_protocol_warning("系统安装", Ok(CodexProtocolStatus::OtherOwner)).as_deref(),
        Some("系统安装已完成，但当前 Windows 用户的 codex:// 默认关联仍由其他应用覆盖。\n\n可在中文助手设置中查看状态，或先到 Windows 默认应用中移除现有关联。")
    );
    assert_eq!(
        shadowed_protocol_warning("系统更新", Err("denied".into())).as_deref(),
        Some("系统更新已完成，但无法核验当前 Windows 用户的 codex:// 会话链接：denied")
    );
}

#[test]
fn all_users_updates_and_uninstalls_start_unelevated() {
    assert_eq!(
        update_start_refusal(true, true),
        Some("为避免读取提权账户的更新设置，请以普通用户身份重新启动中文助手后再更新")
    );
    assert_eq!(update_start_refusal(true, false), None);
    assert_eq!(
        uninstall_start_refusal(true, true),
        Some("为确保清理发起卸载用户的 codex:// 关联，请以普通用户身份重新启动中文助手后再卸载")
    );
    assert_eq!(uninstall_start_refusal(false, true), None);
    assert_eq!(
        uninstall_cleanup_failure("denied"),
        "系统卸载已完成，但清理当前用户的 codex:// 会话链接失败：denied"
    );
}
