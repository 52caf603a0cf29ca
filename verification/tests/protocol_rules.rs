use codex_windows_cn::config::{Config, Fetcher, InstallMode, UpdatePolicy};
use codex_windows_cn::installer::{
    disable_codex_protocol, enable_codex_protocol, sync_codex_protocol, ProtocolSyncWork,
};
use codex_windows_cn::registry::{
    classify_protocol, codex_protocol_status, protocol_command_executable,
    protocol_handler_belongs_to, protocol_hive, register_codex_protocol, resolved_handler_belongs_to,
    remove_codex_protocol_if_owned, replace_codex_protocol, CodexProtocolStatus, ExistingProtocol,
    HandlerFacts, Hive, ProtocolPlan, ProtocolRegistration, ProtocolRegistryLocation,
    ProtocolRemoval, ProtocolValues, PROTOCOL_OWNER_ID,
};

const ROOT: &str = r"D:\Codex";
const HANDLER: &str = r"D:\Codex\versions\1.0.0\ChatGPT.exe";

fn facts() -> HandlerFacts {
    HandlerFacts {
        is_absolute: true,
        is_file: true,
        canonical: None,
    }
}

fn missing() -> ExistingProtocol {
    ExistingProtocol {
        key_exists: false,
        owner: None,
        install_root: None,
        command: None,
        command_executable_canonical: None,
    }
}

fn written(root: &str, handler: &str) -> ExistingProtocol {
    ExistingProtocol {
        key_exists: true,
        owner: Some(PROTOCOL_OWNER_ID.into()),
        install_root: Some(root.into()),
        command: Some(ProtocolValues::new(handler).command),
        command_executable_canonical: None,
    }
}

fn command_only(command: &str) -> ExistingProtocol {
    ExistingProtocol {
        key_exists: true,
        owner: None,
        install_root: None,
        command: Some(command.into()),
        command_executable_canonical: None,
    }
}

#[test]
fn protocol_values_quote_executable_and_uri_placeholder() {
    let values = ProtocolValues::new(r"D:\Codex 中文版\versions\current\ChatGPT.exe");

    assert_eq!(
        values.command,
        r#""D:\Codex 中文版\versions\current\ChatGPT.exe" "%1""#
    );
    assert_eq!(
        values.icon,
        r#""D:\Codex 中文版\versions\current\ChatGPT.exe",0"#
    );
}

#[test]
fn legacy_handler_is_repairable_but_similar_path_is_foreign() {
    let desired = ProtocolValues::new(r"D:\Codex\versions\current\ChatGPT.exe");
    let legacy = command_only(r#""D:\Codex\versions\26.7.1\ChatGPT.exe" "%1""#);
    let foreign = command_only(r#""D:\Codex-other\versions\26.7.1\ChatGPT.exe" "%1""#);

    assert_eq!(
        classify_protocol(&legacy, ROOT, &desired),
        CodexProtocolStatus::NeedsRepair
    );
    assert_eq!(
        classify_protocol(&foreign, ROOT, &desired),
        CodexProtocolStatus::OtherOwner
    );
}

#[test]
fn isolated_protocol_registration_round_trip_is_idempotent() {
    assert_eq!(
        register_codex_protocol(&missing(), ROOT, HANDLER, &facts(), Ok(None)),
        Ok(ProtocolPlan::Write {
            replace_existing: false,
            outcome: ProtocolRegistration::Created,
        })
    );
    let after = written(ROOT, HANDLER);
    assert_eq!(
        codex_protocol_status(&after, ROOT, HANDLER, &facts()),
        Ok(CodexProtocolStatus::Ready)
    );
    assert_eq!(
        after.command.as_deref(),
        Some(ProtocolValues::new(HANDLER).command.as_str())
    );
    assert_eq!(
        register_codex_protocol(&after, ROOT, HANDLER, &facts(), Ok(None)),
        Ok(ProtocolPlan::Done(ProtocolRegistration::Unchanged))
    );
    assert_eq!(
        remove_codex_protocol_if_owned(&after, ROOT),
        ProtocolRemoval::Removed
    );
    assert_eq!(
        remove_codex_protocol_if_owned(&missing(), ROOT),
        ProtocolRemoval::NotFound
    );
}

#[test]
fn foreign_protocol_is_preserved_until_user_explicitly_replaces_it() {
    let foreign_command = r#""D:\Other Codex\versions\current\ChatGPT.exe" "%1""#;
    let foreign = command_only(foreign_command);

    assert_eq!(
        register_codex_protocol(&foreign, ROOT, HANDLER, &facts(), Ok(None)),
        Ok(ProtocolPlan::Done(ProtocolRegistration::PreservedForeign))
    );
    assert_eq!(
        remove_codex_protocol_if_owned(&foreign, ROOT),
        ProtocolRemoval::PreservedForeign
    );
    assert_eq!(foreign.command.as_deref(), Some(foreign_command));
    assert_eq!(
        replace_codex_protocol(&foreign, ROOT, HANDLER, &facts(), Ok(None)),
        Ok(ProtocolPlan::Write {
            replace_existing: true,
            outcome: ProtocolRegistration::Refreshed,
        })
    );
    assert_eq!(
        codex_protocol_status(&written(ROOT, HANDLER), ROOT, HANDLER, &facts()),
        Ok(CodexProtocolStatus::Ready)
    );
}

#[test]
fn missing_target_key_does_not_shadow_an_effective_foreign_handler() {
    let effective = Some(r"D:\Codex\foreign\ChatGPT.exe".to_string());
    assert_eq!(
        register_codex_protocol(&missing(), ROOT, HANDLER, &facts(), Ok(effective.clone())),
        Ok(ProtocolPlan::Done(ProtocolRegistration::PreservedForeign))
    );
    assert_eq!(
        replace_codex_protocol(&missing(), ROOT, HANDLER, &facts(), Ok(effective)),
        Ok(ProtocolPlan::Write {
            replace_existing: false,
            outcome: ProtocolRegistration::Created,
        })
    );
    assert_eq!(
        register_codex_protocol(&missing(), ROOT, HANDLER, &facts(), Err("lookup failed".into())),
        Err("lookup failed".to_string())
    );
}

#[test]
fn invalid_handlers_are_refused_with_their_reason() {
    let not_absolute = HandlerFacts {
        is_absolute: false,
        is_file: true,
        canonical: None,
    };
    assert_eq!(
        register_codex_protocol(&missing(), ROOT, HANDLER, &not_absolute, Ok(None)),
        Err(format!("protocol handler must be an absolute path: {HANDLER}"))
    );
    let no_file = HandlerFacts {
        is_absolute: true,
        is_file: false,
        canonical: None,
    };
    assert_eq!(
        codex_protocol_status(&missing(), ROOT, HANDLER, &no_file),
        Err(format!("protocol handler does not exist: {HANDLER}"))
    );
    let outside = r"D:\Elsewhere\ChatGPT.exe";
    assert_eq!(
        codex_protocol_status(&missing(), ROOT, outside, &facts()),
        Err(format!(
            "protocol handler is outside the managed versions directory: {outside}"
        ))
    );
}

#[test]
fn handler_ownership_follows_the_versions_layout() {
    assert!(protocol_handler_belongs_to(ROOT, HANDLER));
    assert!(protocol_handler_belongs_to(ROOT, r"d:/codex/VERSIONS/2.0.0/codex.exe"));
    assert!(!protocol_handler_belongs_to(ROOT, r"D:\Codex\versions\ChatGPT.exe"));
    assert!(!protocol_handler_belongs_to(ROOT, r"D:\Codex\versions\1.0.0\sub\ChatGPT.exe"));
    assert_eq!(
        protocol_command_executable(r#"  "C:\x\ChatGPT.exe"  "%1" "#).as_deref(),
        Some(r"C:\x\ChatGPT.exe")
    );
    assert_eq!(protocol_command_executable(r#"C:\x\ChatGPT.exe "%1""#), None);
}

#[test]
fn protocol_hive_and_location() {
    assert_eq!(protocol_hive(InstallMode::System), Hive::LocalMachine);
    assert_eq!(protocol_hive(InstallMode::User), Hive::CurrentUser);
    let location = ProtocolRegistryLocation::new("codex");
    assert_eq!(location.subkey, r"Software\Classes\codex");
    assert_eq!(location.icon_subkey(), r"Software\Classes\codex\DefaultIcon");
    assert_eq!(
        location.command_subkey(),
        r"Software\Classes\codex\shell\open\command"
    );
}

fn config(preference: Option<bool>) -> Config {
    Config {
        install_mode: InstallMode::User,
        current_version: "1.0.0".into(),
        update_policy: UpdatePolicy::Daily,
        last_check_unix: None,
        last_launcher_check_unix: None,
        suppress_until_unix: None,
        known_latest: None,
        skipped_version: None,
        keep_versions: 5,
        keep_all_versions: false,
        fetcher: Fetcher::Direct,
        use_current_junction: true,
        register_uninstall: true,
        register_codex_protocol: preference,
        known_latest_launcher: None,
        skipped_launcher_version: None,
        launcher_suppress_until_unix: None,
    }
}

#[test]
fn enabling_and_disabling_follow_ownership() {
    let foreign = command_only(r#""D:\Other\versions\1.0\ChatGPT.exe" "%1""#);
    assert_eq!(
        enable_codex_protocol(&foreign, ROOT, HANDLER, &facts(), Ok(None), false),
        Ok(ProtocolPlan::Done(ProtocolRegistration::PreservedForeign))
    );
    assert_eq!(
        enable_codex_protocol(&foreign, ROOT, HANDLER, &facts(), Ok(None), true),
        Ok(ProtocolPlan::Write {
            replace_existing: true,
            outcome: ProtocolRegistration::Refreshed,
        })
    );
    assert_eq!(
        disable_codex_protocol(&foreign, ROOT),
        ProtocolRemoval::PreservedForeign
    );
    assert_eq!(
        disable_codex_protocol(&written(ROOT, HANDLER), ROOT),
        ProtocolRemoval::Removed
    );
}

#[test]
fn sync_follows_the_saved_preference() {
    let stale = written(ROOT, r"D:\Codex\versions\0.9.0\ChatGPT.exe");
    assert_eq!(
        sync_codex_protocol(&config(Some(true)), &missing(), ROOT, HANDLER, &facts(), Ok(None)),
        Ok(ProtocolSyncWork::Register(ProtocolPlan::Write {
            replace_existing: false,
            outcome: ProtocolRegistration::Created,
        }))
    );
    assert_eq!(
        sync_codex_protocol(&config(Some(false)), &stale, ROOT, HANDLER, &facts(), Ok(None)),
        Ok(ProtocolSyncWork::Remove(ProtocolRemoval::Removed))
    );
    assert_eq!(
        sync_codex_protocol(&config(None), &stale, ROOT, HANDLER, &facts(), Ok(None)),
        Ok(ProtocolSyncWork::Register(ProtocolPlan::Write {
            replace_existing: false,
            outcome: ProtocolRegistration::Refreshed,
        }))
    );
    assert_eq!(
        sync_codex_protocol(&config(None), &missing(), ROOT, HANDLER, &facts(), Ok(None)),
        Ok(ProtocolSyncWork::Nothing)
    );
}

#[test]
fn canonical_paths_decide_protocol_ownership_when_they_resolve() {
    let alias = r"C:\Link\versions\1.0.0\ChatGPT.exe";
    let resolved = Some(r"\\?\D:\Codex\versions\1.0.0\ChatGPT.exe".to_string());
    assert!(resolved_handler_belongs_to(ROOT, alias, &resolved));
    assert!(!resolved_handler_belongs_to(ROOT, alias, &None));
    assert!(!resolved_handler_belongs_to(ROOT, HANDLER, &Some(r"\\?\E:\Other\ChatGPT.exe".into())));

    let through_alias = HandlerFacts {
        is_absolute: true,
        is_file: true,
        canonical: resolved.clone(),
    };
    assert_eq!(
        register_codex_protocol(&missing(), ROOT, alias, &through_alias, Ok(None)),
        Ok(ProtocolPlan::Write {
            replace_existing: false,
            outcome: ProtocolRegistration::Created,
        })
    );
    let mut stored = written(ROOT, alias);
    assert_eq!(classify_protocol(&stored, ROOT, &ProtocolValues::new(alias)), CodexProtocolStatus::OtherOwner);
    stored.command_executable_canonical = resolved;
    assert_eq!(classify_protocol(&stored, ROOT, &ProtocolValues::new(alias)), CodexProtocolStatus::Ready);
    assert_eq!(
        register_codex_protocol(&stored, ROOT, alias, &through_alias, Ok(None)),
        Ok(ProtocolPlan::Done(ProtocolRegistration::Unchanged))
    );
}
