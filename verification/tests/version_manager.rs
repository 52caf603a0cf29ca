use codex_windows_cn::config::{Config, Fetcher, InstallMode, UpdatePolicy};
use codex_windows_cn::versions::{
    delete_and_repair, delete_from_ui_refusal, delete_installed, delete_message, is_partial_directory_name,
    is_version_name, latest_codex_exe, launch_target_for, parse_version, scan_installed,
    select_launch_version, versions_to_prune, AppKind, DeleteRepair, InstalledVersion,
    RetentionPolicy, VersionDirEntry,
};

const ROOT: &str = r"C:\Codex";
const VERSIONS: &str = r"C:\Codex\versions";

/// A version directory holding the given entry executable.
fn version_dir(name: &str, exe: &str) -> VersionDirEntry {
    VersionDirEntry {
        name: name.into(),
        is_dir: true,
        is_symlink: false,
        has_chatgpt_exe: exe == "ChatGPT.exe",
        has_codex_exe: exe == "Codex.exe",
        size_bytes: 4,
        installed_at_unix: 0,
    }
}

fn scan(entries: Vec<VersionDirEntry>) -> Vec<InstalledVersion> {
    scan_installed(VERSIONS, entries)
}

fn codex_versions(names: &[&str]) -> Vec<InstalledVersion> {
    scan(names.iter().map(|name| version_dir(name, "Codex.exe")).collect())
}

#[test]
fn scanner_prefers_chatgpt_and_ignores_non_version_directories() {
    let mut both = version_dir("26.707.3748.0", "Codex.exe");
    both.has_chatgpt_exe = true;
    let empty = VersionDirEntry {
        name: "empty".into(),
        is_dir: true,
        is_symlink: false,
        has_chatgpt_exe: false,
        has_codex_exe: false,
        size_bytes: 0,
        installed_at_unix: 0,
    };
    let versions = scan(vec![
        version_dir("26.623.13972.0", "Codex.exe"),
        both,
        version_dir("26.623.13972.0 - 副本", "Codex.exe"),
        version_dir("26.800.0.0.partial", "ChatGPT.exe"),
        empty,
    ]);

    assert_eq!(versions.len(), 2);
    assert_eq!(versions[0].version, "26.707.3748.0");
    assert_eq!(versions[0].app_kind, AppKind::ChatGpt);
    assert!(versions[0].executable.ends_with("ChatGPT.exe"));
    assert_eq!(versions[1].version, "26.623.13972.0");
    assert_eq!(versions[1].app_kind, AppKind::Codex);
    assert!(versions[1].executable.ends_with("Codex.exe"));
}

#[test]
fn scanner_skips_links_and_files_and_orders_numerically() {
    let mut link = version_dir("9.0.0", "Codex.exe");
    link.is_symlink = true;
    let mut file = version_dir("8.0.0", "Codex.exe");
    file.is_dir = false;
    let versions = scan(vec![
        version_dir("10.0.0", "Codex.exe"),
        link,
        file,
        version_dir("9.1.0", "ChatGPT.exe"),
        version_dir("10.0.1", "Codex.exe"),
    ]);
    let names: Vec<&str> = versions.iter().map(|v| v.version.as_str()).collect();
    assert_eq!(names, vec!["10.0.1", "10.0.0", "9.1.0"]);
    assert_eq!(versions[2].executable, r"C:\Codex\versions\9.1.0\ChatGPT.exe");
}

#[test]
fn retention_keeps_latest_count_and_never_prunes_a_running_version() {
    let versions = codex_versions(&["1.0.0", "2.0.0", "3.0.0", "4.0.0"]);
    let running = vec!["1.0.0".to_string()];

    let pruned = versions_to_prune(&versions, RetentionPolicy::KeepLatest(2), &running);

    assert_eq!(pruned, vec!["2.0.0"]);
}

#[test]
fn keep_all_never_schedules_automatic_deletion() {
    let versions = codex_versions(&["1.0.0", "2.0.0", "3.0.0"]);

    let pruned = versions_to_prune(&versions, RetentionPolicy::KeepAll, &[]);

    assert!(pruned.is_empty());
}

#[test]
fn retention_of_zero_still_keeps_the_newest() {
    let versions = codex_versions(&["1.0.0", "2.0.0", "3.0.0"]);
    assert_eq!(
        versions_to_prune(&versions, RetentionPolicy::KeepLatest(0), &[]),
        vec!["2.0.0", "1.0.0"]
    );
    assert!(versions_to_prune(&versions, RetentionPolicy::KeepLatest(5), &[]).is_empty());
}

#[test]
fn explicit_launch_resolves_the_requested_historical_version() {
    let versions = scan(vec![
        version_dir("1.0.0", "Codex.exe"),
        version_dir("2.0.0", "ChatGPT.exe"),
    ]);

    let index = select_launch_version(ROOT, &versions, Some("1.0.0"))
        .expect("resolve historical target");
    let target = launch_target_for(ROOT, &versions[index], false);

    assert_eq!(target.version, "1.0.0");
    assert_eq!(target.app_kind, AppKind::Codex);
    assert!(target.executable.ends_with(r"1.0.0\Codex.exe"));
}

#[test]
fn default_launch_uses_the_newest_version_and_the_current_junction() {
    let versions = scan(vec![
        version_dir("1.0.0", "Codex.exe"),
        version_dir("2.0.0", "ChatGPT.exe"),
    ]);
    let index = select_launch_version(ROOT, &versions, None).expect("default target");
    assert_eq!(index, 0);
    let target = launch_target_for(ROOT, &versions[index], true);
    assert_eq!(target.version, "2.0.0");
    assert_eq!(target.executable, r"C:\Codex\versions\current\ChatGPT.exe");
    assert_eq!(
        latest_codex_exe(ROOT, &versions, true, false).as_deref(),
        Some(r"C:\Codex\versions\2.0.0\ChatGPT.exe")
    );
    assert_eq!(
        select_launch_version(ROOT, &versions, Some("3.0.0")),
        Err("installed version 3.0.0 is not available".to_string())
    );
    assert_eq!(
        select_launch_version(ROOT, &[], None),
        Err(r"no launchable installed version under C:\Codex".to_string())
    );
    assert_eq!(latest_codex_exe(ROOT, &[], true, true), None);
}

#[test]
fn delete_guards_running_and_final_versions() {
    let versions = scan(vec![
        version_dir("1.0.0", "Codex.exe"),
        version_dir("2.0.0", "ChatGPT.exe"),
    ]);

    let running = vec!["1.0.0".to_string()];
    let running_error = delete_installed("1.0.0", &running, &versions)
        .expect_err("running version must be protected");
    assert!(running_error.contains("currently running"));

    delete_installed("1.0.0", &[], &versions).expect("delete old version");
    let remaining = scan(vec![version_dir("2.0.0", "ChatGPT.exe")]);
    let final_error = delete_installed("2.0.0", &[], &remaining)
        .expect_err("final version must be protected");
    assert!(final_error.contains("final launchable version"));
}

#[test]
fn delete_refuses_invalid_and_unknown_versions() {
    let versions = codex_versions(&["1.0.0", "2.0.0"]);
    assert_eq!(
        delete_installed("../x", &[], &versions),
        Err("invalid installed version: ../x".to_string())
    );
    assert_eq!(
        delete_installed("3.0.0", &[], &versions),
        Err("installed version 3.0.0 does not exist".to_string())
    );
}

fn portable_config(current: &str) -> Config {
    Config {
        install_mode: InstallMode::Portable,
        current_version: current.into(),
        update_policy: UpdatePolicy::Daily,
        last_check_unix: None,
        last_launcher_check_unix: None,
        suppress_until_unix: None,
        known_latest: None,
        skipped_version: None,
        keep_versions: 5,
        keep_all_versions: false,
        fetcher: Fetcher::Direct,
        use_current_junction: true,
        register_uninstall: false,
        register_codex_protocol: None,
        known_latest_launcher: None,
        skipped_launcher_version: None,
        launcher_suppress_until_unix: None,
    }
}

#[test]
fn deleting_the_default_repairs_config_and_current_junction() {
    let mut cfg = portable_config("2.0.0");
    let remaining = scan(vec![version_dir("1.0.0", "Codex.exe")]);

    let repair = delete_and_repair(&mut cfg, &remaining, true).expect("delete and repair");

    assert_eq!(repair.default_version, "1.0.0");
    assert!(repair.current_repaired);
    assert_eq!(cfg.current_version, "1.0.0");

    let mut cfg = portable_config("2.0.0");
    assert_eq!(
        delete_and_repair(&mut cfg, &[], true).err(),
        Some("deletion left no launchable installed version".to_string())
    );
    assert_eq!(cfg.current_version, "2.0.0");
}

#[test]
fn delete_messages_mention_a_pending_junction_repair() {
    let repaired = DeleteRepair {
        default_version: "1.0.0".into(),
        current_repaired: true,
    };
    assert_eq!(delete_message("2.0.0", &repaired, ""), "已删除版本 2.0.0");
    let pending = DeleteRepair {
        default_version: "1.0.0".into(),
        current_repaired: false,
    };
    assert_eq!(
        delete_message("2.0.0", &pending, "；codex:// 会话链接刷新失败：x"),
        "已删除版本 2.0.0；current 入口将在下次启动时重试修复到 1.0.0；codex:// 会话链接刷新失败：x"
    );
}

#[test]
fn version_names_are_dotted_numbers() {
    assert!(is_version_name("26.707.3748.0"));
    assert!(!is_version_name("26.707.3748.0 - 副本"));
    assert!(!is_version_name(""));
    assert!(!is_version_name("1..2"));
    assert_eq!(parse_version("1.20.3"), Some(vec![1, 20, 3]));
    assert_eq!(parse_version("current"), None);
    assert!(is_partial_directory_name("26.800.0.0.partial"));
    assert!(!is_partial_directory_name("26.800.0.0"));
}

#[test]
fn app_kind_names_and_entry_files() {
    assert_eq!(AppKind::ChatGpt.display_name(), "ChatGPT");
    assert_eq!(AppKind::Codex.display_name(), "Codex");
    assert_eq!(AppKind::ChatGpt.entry_file(), "ChatGPT.exe");
    assert_eq!(AppKind::Codex.entry_file(), "Codex.exe");
}

#[test]
fn an_elevated_ui_does_not_delete_all_users_versions() {
    assert_eq!(
        delete_from_ui_refusal(true, true),
        Some("为避免读取提权账户的版本设置，请以普通用户身份重新启动中文助手后再删除版本")
    );
    assert_eq!(delete_from_ui_refusal(true, false), None);
    assert_eq!(delete_from_ui_refusal(false, true), None);
}

#[test]
fn versions_with_equal_numbers_keep_their_listing_order() {
    let versions = scan(vec![
        version_dir("1.0", "Codex.exe"),
        version_dir("2.0", "Codex.exe"),
        version_dir("01.0", "ChatGPT.exe"),
        version_dir("1.00", "Codex.exe"),
    ]);
    let names: Vec<&str> = versions.iter().map(|v| v.version.as_str()).collect();
    assert_eq!(names, vec!["2.0", "1.0", "01.0", "1.00"]);

    let versions = scan(vec![
        version_dir("1.00", "Codex.exe"),
        version_dir("01.0", "ChatGPT.exe"),
        version_dir("1.0", "Codex.exe"),
    ]);
    let names: Vec<&str> = versions.iter().map(|v| v.version.as_str()).collect();
    assert_eq!(names, vec!["1.00", "01.0", "1.0"]);
}
