use codex_windows_cn::config::{Config, Fetcher, InstallMode, UpdatePolicy};
use codex_windows_cn::updater::{
    apply_defer_at, apply_launcher_defer_at, auto_check_will_query, auto_check_will_query_at,
    cached_update_decision, cached_update_decision_at, check_auto, check_launcher_auto,
    check_launcher_now, check_now, launcher_auto_check_will_query, launcher_status_decision_at,
    launcher_update_target, merge_system_update, pending_launcher_from_state_at,
    update_status_decision_at,
    record_auto_check, record_auto_check_at, record_launcher_check, tag_from_latest_release_location,
    version_gt, DeferChoice, LatestProduct, LauncherDecision, LauncherDeferChoice, UpdateDecision,
    LAUNCHER_LATEST_API, LAUNCHER_LATEST_RELEASE_URL, LAUNCHER_REPO,
};

fn test_config() -> Config {
    Config {
        install_mode: InstallMode::User,
        current_version: "1.0.0".into(),
        update_policy: UpdatePolicy::Daily,
        last_check_unix: None,
        last_launcher_check_unix: None,
        suppress_until_unix: None,
        known_latest: None,
        skipped_version: None,
        keep_versions: 2,
        keep_all_versions: false,
        fetcher: Fetcher::Direct,
        use_current_junction: true,
        register_uninstall: true,
        register_codex_protocol: Some(true),
        known_latest_launcher: None,
        skipped_launcher_version: None,
        launcher_suppress_until_unix: None,
    }
}

fn product(version: &str, title: &str) -> LatestProduct {
    LatestProduct {
        version: version.into(),
        title: title.into(),
    }
}

#[test]
fn version_compare() {
    assert!(version_gt("26.500.0.0", "26.422.2437.0"));
    assert!(!version_gt("26.422.2437.0", "26.422.2437.0"));
    assert!(!version_gt("26.100.0.0", "26.422.0.0"));
    assert!(version_gt("27.0.0.0", "26.999.999.999"));
}

#[test]
fn version_compare_edge_cases() {
    // a longer version with an equal prefix is newer
    assert!(version_gt("1.0.0.1", "1.0.0"));
    assert!(!version_gt("1.0.0", "1.0.0.1"));
    // a component that is not a number counts as zero
    assert!(!version_gt("1.x", "1.0"));
    assert!(version_gt("1.1", "1.x"));
}

#[test]
fn latest_release_redirect_location_yields_tag() {
    assert_eq!(
        tag_from_latest_release_location(
            "https://github.com/chrichuang218/codex-windows-cn/releases/tag/v0.2.0"
        )
        .as_deref(),
        Some("v0.2.0")
    );
    assert_eq!(
        tag_from_latest_release_location(
            "/chrichuang218/codex-windows-cn/releases/tag/v0.2.1?expanded=true"
        )
        .as_deref(),
        Some("v0.2.1")
    );
    assert_eq!(tag_from_latest_release_location("/releases/latest"), None);
}

#[test]
fn launcher_release_source_uses_this_project_repository() {
    assert_eq!(LAUNCHER_REPO, "chrichuang218/codex-windows-cn");
    assert_eq!(
        LAUNCHER_LATEST_RELEASE_URL,
        "https://github.com/chrichuang218/codex-windows-cn/releases/latest"
    );
    assert_eq!(
        LAUNCHER_LATEST_API,
        "https://api.github.com/repos/chrichuang218/codex-windows-cn/releases/latest"
    );
}

#[test]
fn automatic_check_frequency_honors_policy_and_cooldown() {
    let mut cfg = test_config();

    cfg.update_policy = UpdatePolicy::Never;
    assert!(!auto_check_will_query(&cfg));

    cfg.update_policy = UpdatePolicy::Daily;
    cfg.last_check_unix = Some(u64::MAX);
    assert!(!auto_check_will_query(&cfg));

    cfg.update_policy = UpdatePolicy::Weekly;
    assert!(!auto_check_will_query(&cfg));

    cfg.update_policy = UpdatePolicy::Always;
    assert!(auto_check_will_query(&cfg));
}

#[test]
fn cached_available_update_is_reused_during_cooldown() {
    let mut cfg = test_config();
    cfg.known_latest = Some("2.0.0".into());
    cfg.last_check_unix = Some(u64::MAX);

    assert!(matches!(
        cached_update_decision(&cfg, "ChatGPT"),
        Some(UpdateDecision::Available {
            current,
            latest,
            product_name,
        }) if current == "1.0.0" && latest == "2.0.0" && product_name == "ChatGPT"
    ));
}

#[test]
fn app_and_launcher_cooldowns_are_independent() {
    let mut cfg = test_config();
    cfg.last_check_unix = Some(u64::MAX);
    assert!(!auto_check_will_query(&cfg));
    assert!(launcher_auto_check_will_query(&cfg));

    cfg.last_check_unix = None;
    cfg.last_launcher_check_unix = Some(u64::MAX);
    assert!(auto_check_will_query(&cfg));
    assert!(!launcher_auto_check_will_query(&cfg));

    cfg.last_check_unix = None;
    cfg.last_launcher_check_unix = None;
    record_auto_check(&mut cfg, &UpdateDecision::Error("offline".into()));
    assert!(launcher_auto_check_will_query(&cfg));
    record_launcher_check(&mut cfg, &LauncherDecision::Error("offline".into()));
    assert!(!auto_check_will_query(&cfg));
    assert!(!launcher_auto_check_will_query(&cfg));
}

#[test]
fn cooldown_boundaries_are_exact() {
    let mut cfg = test_config();
    cfg.last_check_unix = Some(1_000);
    assert!(!auto_check_will_query_at(&cfg, 1_000 + 86_399));
    assert!(auto_check_will_query_at(&cfg, 1_000 + 86_400));
    cfg.update_policy = UpdatePolicy::Weekly;
    assert!(!auto_check_will_query_at(&cfg, 1_000 + 604_799));
    assert!(auto_check_will_query_at(&cfg, 1_000 + 604_800));
    // a clock behind the last check counts as no time elapsed
    cfg.update_policy = UpdatePolicy::Daily;
    assert!(!auto_check_will_query_at(&cfg, 10));
}

#[test]
fn explicit_check_compares_against_the_installed_version() {
    let cfg = test_config();
    assert!(matches!(
        check_now(&cfg, Ok(product("1.2.0", "ChatGPT"))),
        UpdateDecision::Available { current, latest, product_name }
            if current == "1.0.0" && latest == "1.2.0" && product_name == "ChatGPT"
    ));
    assert!(matches!(
        check_now(&cfg, Ok(product("1.0.0", "ChatGPT"))),
        UpdateDecision::UpToDate { version, product_name }
            if version == "1.0.0" && product_name == "ChatGPT"
    ));
    assert!(matches!(
        check_now(&cfg, Err("network failed".into())),
        UpdateDecision::Error(message) if message == "network failed"
    ));
}

#[test]
fn explicit_check_offers_any_version_other_than_the_installed_one() {
    let cfg = test_config();
    assert!(matches!(
        check_now(&cfg, Ok(product("0.9.0", "ChatGPT"))),
        UpdateDecision::Available { current, latest, product_name }
            if current == "1.0.0" && latest == "0.9.0" && product_name == "ChatGPT"
    ));
    assert!(matches!(
        check_now(&cfg, Ok(product("1.0", "ChatGPT"))),
        UpdateDecision::Available { current, latest, .. }
            if current == "1.0.0" && latest == "1.0"
    ));
    assert!(matches!(
        check_auto(&cfg, 5_000, Some(Ok(product("0.9.0", "ChatGPT")))),
        UpdateDecision::Available { latest, .. } if latest == "0.9.0"
    ));
}

#[test]
fn cached_store_result_is_offered_only_when_newer() {
    let mut cfg = test_config();
    cfg.known_latest = Some("0.9.0".into());
    cfg.last_check_unix = Some(500);
    assert!(matches!(
        cached_update_decision_at(&cfg, "ChatGPT", 600),
        Some(UpdateDecision::UpToDate { version, product_name })
            if version == "1.0.0" && product_name == "ChatGPT"
    ));
    cfg.known_latest = Some("1.0.1".into());
    assert!(matches!(
        cached_update_decision_at(&cfg, "ChatGPT", 600),
        Some(UpdateDecision::Available { current, latest, product_name })
            if current == "1.0.0" && latest == "1.0.1" && product_name == "ChatGPT"
    ));
}

#[test]
fn automatic_check_reports_why_it_skipped() {
    let mut cfg = test_config();
    cfg.update_policy = UpdatePolicy::Never;
    assert!(matches!(
        check_auto(&cfg, 5_000, None),
        UpdateDecision::Skipped { reason } if reason == "update_policy = never"
    ));
    cfg.update_policy = UpdatePolicy::Daily;
    cfg.suppress_until_unix = Some(5_000 + 2 * 86_400 + 10);
    assert!(matches!(
        check_auto(&cfg, 5_000, None),
        UpdateDecision::Skipped { reason } if reason == "suppressed for ~2d"
    ));
    cfg.suppress_until_unix = None;
    cfg.last_check_unix = Some(4_000);
    assert!(matches!(
        check_auto(&cfg, 5_000, None),
        UpdateDecision::Skipped { reason } if reason == "within cooldown"
    ));
}

#[test]
fn skip_this_version_suppresses_only_that_version() {
    let mut cfg = test_config();
    apply_defer_at(&mut cfg, DeferChoice::SkipThisVersion, "1.2.0", 100);
    assert_eq!(cfg.skipped_version.as_deref(), Some("1.2.0"));
    assert_eq!(cfg.known_latest.as_deref(), Some("1.2.0"));
    assert_eq!(cfg.last_check_unix, Some(100));
    let later = 100 + 86_400;
    assert!(matches!(
        check_auto(&cfg, later, Some(Ok(product("1.2.0", "ChatGPT")))),
        UpdateDecision::Skipped { reason } if reason == "version 1.2.0 skipped by user"
    ));
    assert!(matches!(
        check_auto(&cfg, later, Some(Ok(product("1.3.0", "ChatGPT")))),
        UpdateDecision::Available { latest, .. } if latest == "1.3.0"
    ));
    assert!(cached_update_decision_at(&cfg, "ChatGPT", later).is_none());
}

#[test]
fn snooze_and_update_now_set_and_clear_suppression() {
    let mut cfg = test_config();
    apply_defer_at(&mut cfg, DeferChoice::SnoozeSevenDays, "1.2.0", 1_000);
    assert_eq!(cfg.suppress_until_unix, Some(1_000 + 604_800));
    assert!(!auto_check_will_query_at(&cfg, 1_000 + 604_799));
    apply_defer_at(&mut cfg, DeferChoice::SkipThisVersion, "1.2.0", 2_000);
    apply_defer_at(&mut cfg, DeferChoice::UpdateNow, "1.2.0", 3_000);
    assert_eq!(cfg.suppress_until_unix, None);
    assert_eq!(cfg.skipped_version, None);
    apply_defer_at(&mut cfg, DeferChoice::Never, "1.2.0", 4_000);
    assert_eq!(cfg.update_policy, UpdatePolicy::Never);
}

#[test]
fn recorded_up_to_date_check_becomes_the_cached_answer() {
    let mut cfg = test_config();
    record_auto_check_at(
        &mut cfg,
        &UpdateDecision::UpToDate {
            version: "1.0.0".into(),
            product_name: "ChatGPT".into(),
        },
        500,
    );
    assert_eq!(cfg.last_check_unix, Some(500));
    assert_eq!(cfg.known_latest.as_deref(), Some("1.0.0"));
    assert!(matches!(
        cached_update_decision_at(&cfg, "ChatGPT", 600),
        Some(UpdateDecision::UpToDate { version, product_name })
            if version == "1.0.0" && product_name == "ChatGPT"
    ));
}

#[test]
fn launcher_check_offers_newer_tags_with_their_release_page() {
    assert!(matches!(
        check_launcher_now("0.1.2", Ok("v0.2.0".into())),
        LauncherDecision::Available { current, latest, release_url }
            if current == "0.1.2" && latest == "0.2.0"
                && release_url == "https://github.com/chrichuang218/codex-windows-cn/releases/tag/v0.2.0"
    ));
    assert!(matches!(
        check_launcher_now("0.2.0", Ok("v0.2.0".into())),
        LauncherDecision::UpToDate { version } if version == "0.2.0"
    ));
    assert!(matches!(
        check_launcher_now("0.2.0", Err("rate limited".into())),
        LauncherDecision::Error(message) if message == "rate limited"
    ));
}

#[test]
fn launcher_skip_and_snooze_are_honored() {
    let mut cfg = test_config();
    apply_launcher_defer_at(&mut cfg, LauncherDeferChoice::SkipThisVersion, "0.2.0", 100);
    assert!(matches!(
        check_launcher_auto(&cfg, "0.1.2", 200, Some(Ok("v0.2.0".into()))),
        LauncherDecision::Skipped { reason } if reason == "launcher version 0.2.0 skipped by user"
    ));
    assert!(pending_launcher_from_state_at(&cfg, "0.1.2", 200).is_none());
    let mut cfg = test_config();
    apply_launcher_defer_at(&mut cfg, LauncherDeferChoice::NotNow, "0.2.0", 100);
    assert!(matches!(
        pending_launcher_from_state_at(&cfg, "0.1.2", 200),
        Some(LauncherDecision::Available { latest, .. }) if latest == "0.2.0"
    ));
    apply_launcher_defer_at(&mut cfg, LauncherDeferChoice::Never, "0.2.0", 100);
    assert_eq!(cfg.launcher_suppress_until_unix, Some(u64::MAX));
    assert!(pending_launcher_from_state_at(&cfg, "0.1.2", 200).is_none());
}

#[test]
fn update_status_queries_and_records_only_when_due() {
    let mut cfg = test_config();
    let (decision, queried) =
        update_status_decision_at(&mut cfg, "ChatGPT", 10_000, Some(Ok(product("1.2.0", "ChatGPT"))));
    assert!(queried);
    assert!(matches!(decision, UpdateDecision::Available { ref latest, .. } if latest == "1.2.0"));
    assert_eq!(cfg.last_check_unix, Some(10_000));
    assert_eq!(cfg.known_latest.as_deref(), Some("1.2.0"));

    // within the cooldown the saved answer is shown without a lookup
    let (decision, queried) = update_status_decision_at(&mut cfg, "ChatGPT", 10_100, None);
    assert!(!queried);
    assert!(matches!(decision, UpdateDecision::Available { ref latest, .. } if latest == "1.2.0"));
    assert_eq!(cfg.last_check_unix, Some(10_000));

    // nothing cached: the skip reason is shown
    let mut fresh = test_config();
    fresh.last_check_unix = Some(10_000);
    let (decision, queried) = update_status_decision_at(&mut fresh, "ChatGPT", 10_100, None);
    assert!(!queried);
    assert!(matches!(decision, UpdateDecision::Skipped { ref reason } if reason == "within cooldown"));
}

#[test]
fn launcher_status_prefers_the_saved_prompt() {
    let mut cfg = test_config();
    cfg.known_latest_launcher = Some("0.3.0".into());
    let (decision, queried) = launcher_status_decision_at(&mut cfg, "0.2.0", 50, None);
    assert!(!queried);
    assert!(matches!(decision, LauncherDecision::Available { ref latest, .. } if latest == "0.3.0"));

    let mut cfg = test_config();
    let (decision, queried) =
        launcher_status_decision_at(&mut cfg, "0.3.0", 50, Some(Ok("v0.3.0".into())));
    assert!(queried);
    assert!(matches!(decision, LauncherDecision::UpToDate { ref version } if version == "0.3.0"));
    assert_eq!(cfg.last_launcher_check_unix, Some(50));
    assert_eq!(cfg.known_latest_launcher.as_deref(), Some("0.3.0"));
}

#[test]
fn system_update_results_reach_this_users_settings() {
    let mut user = test_config();
    user.update_policy = UpdatePolicy::Weekly;
    user.skipped_version = Some("1.1.0".into());
    user.suppress_until_unix = Some(77);
    let mut installed = test_config();
    installed.current_version = "1.2.0".into();
    installed.known_latest = Some("1.2.0".into());
    installed.suppress_until_unix = None;
    installed.last_check_unix = Some(900);
    merge_system_update(&mut user, &installed);
    assert_eq!(user.current_version, "1.2.0");
    assert_eq!(user.known_latest.as_deref(), Some("1.2.0"));
    assert_eq!(user.suppress_until_unix, None);
    assert_eq!(user.last_check_unix, Some(900));
    assert_eq!(user.update_policy, UpdatePolicy::Weekly);
    assert_eq!(user.skipped_version.as_deref(), Some("1.1.0"));
}

#[test]
fn launcher_update_needs_a_target_version() {
    assert_eq!(launcher_update_target("  0.3.0 "), Ok("0.3.0".to_string()));
    assert_eq!(launcher_update_target("   "), Err("缺少启动器目标版本".to_string()));
}
