use codex_windows_cn::cli::{
    helper_command_line, helper_words, hex_decode, hex_encode, parse_cli_helper, quote_cli_path,
    rollback_payload_fits, CliHelperAction, CodexProtocolAction, HEX_CHARACTER_ERROR,
    HEX_LENGTH_ERROR,
};

fn parse(args: &[&str]) -> Result<Option<CliHelperAction>, ()> {
    let owned: Vec<String> = args.iter().map(|arg| (*arg).to_string()).collect();
    parse_cli_helper(&owned)
}

#[test]
fn parses_desktop_shortcut_and_launch_helpers() {
    assert_eq!(
        parse(&["--set-desktop-shortcut", "create"]),
        Ok(Some(CliHelperAction::SetDesktopShortcut(true)))
    );
    assert_eq!(
        parse(&["--set-desktop-shortcut", "remove"]),
        Ok(Some(CliHelperAction::SetDesktopShortcut(false)))
    );
    assert_eq!(
        parse(&["--set-assistant-desktop-shortcut", "create"]),
        Ok(Some(CliHelperAction::SetAssistantDesktopShortcut(true)))
    );
    assert_eq!(
        parse(&["--set-assistant-desktop-shortcut", "remove"]),
        Ok(Some(CliHelperAction::SetAssistantDesktopShortcut(false)))
    );
    assert_eq!(
        parse(&["--set-codex-protocol", "create", "result.json", "00"]),
        Ok(Some(CliHelperAction::SetCodexProtocol {
            action: CodexProtocolAction::Create,
            result_path: "result.json".into(),
            rollback: "00".into(),
        }))
    );
    assert_eq!(
        parse(&["--set-codex-protocol", "replace", "result.json", "00"]),
        Ok(Some(CliHelperAction::SetCodexProtocol {
            action: CodexProtocolAction::Replace,
            result_path: "result.json".into(),
            rollback: "00".into(),
        }))
    );
    assert_eq!(
        parse(&["--set-codex-protocol", "remove", "result.json", "00"]),
        Ok(Some(CliHelperAction::SetCodexProtocol {
            action: CodexProtocolAction::Remove,
            result_path: "result.json".into(),
            rollback: "00".into(),
        }))
    );
    assert_eq!(
        parse(&["--restore-codex-protocol", "00"]),
        Ok(Some(CliHelperAction::RestoreCodexProtocol("00".into())))
    );
    assert_eq!(
        parse(&["--launch-latest"]),
        Ok(Some(CliHelperAction::LaunchLatest))
    );
}

#[test]
fn parses_system_install_and_update_helpers() {
    assert_eq!(
        parse(&["--delete-installed-version", "request.json", "result.json"]),
        Ok(Some(CliHelperAction::DeleteInstalledVersion {
            request_path: "request.json".into(),
            result_path: "result.json".into(),
        }))
    );
    assert_eq!(
        parse(&["--install-system", "request.json", "result.json"]),
        Ok(Some(CliHelperAction::InstallSystem {
            request_path: "request.json".into(),
            result_path: "result.json".into(),
        }))
    );
    assert_eq!(
        parse(&["--update-system", "request.json", "result.json"]),
        Ok(Some(CliHelperAction::UpdateSystem {
            request_path: "request.json".into(),
            result_path: "result.json".into(),
        }))
    );
    assert_eq!(
        parse(&["--uninstall-system", "result.json"]),
        Ok(Some(CliHelperAction::UninstallSystem {
            result_path: "result.json".into(),
        }))
    );
    assert_eq!(parse(&["--uninstall"]), Ok(Some(CliHelperAction::Uninstall)));
    assert_eq!(
        parse(&["--uninstall-elevated"]),
        Ok(Some(CliHelperAction::UninstallElevated))
    );
}

#[test]
fn rejects_invalid_helper_arguments() {
    assert_eq!(parse(&["--set-desktop-shortcut"]), Err(()));
    assert_eq!(parse(&["--set-assistant-desktop-shortcut"]), Err(()));
    assert_eq!(parse(&["--set-codex-protocol"]), Err(()));
    assert_eq!(parse(&["--set-codex-protocol", "create"]), Err(()));
    assert_eq!(
        parse(&["--set-codex-protocol", "create", "result.json"]),
        Err(())
    );
    assert_eq!(parse(&["--launch-latest", "extra"]), Err(()));
    assert_eq!(parse(&["--install-system", "request.json"]), Err(()));
    assert_eq!(parse(&["--delete-installed-version"]), Err(()));
    assert_eq!(
        parse(&["--delete-installed-version", "request.json"]),
        Err(())
    );
    assert_eq!(parse(&["--update-system"]), Err(()));
    assert_eq!(parse(&["--update-system", "request.json"]), Err(()));
    assert_eq!(parse(&["--uninstall-system"]), Err(()));
    assert_eq!(parse(&["--uninstall", "extra"]), Err(()));
    assert_eq!(
        parse(&["--update-system", "request.json", "result.json", "extra"]),
        Err(())
    );
}

#[test]
fn no_arguments_or_unknown_flags_are_not_helper_calls() {
    assert_eq!(parse(&[]), Ok(None));
    assert_eq!(parse(&["--self-test"]), Ok(None));
    assert_eq!(parse(&["codex://session/123", "extra"]), Ok(None));
    assert_eq!(parse(&["--set-desktop-shortcut", "toggle"]), Err(()));
    assert_eq!(
        parse(&["--set-codex-protocol", "toggle", "result.json", "00"]),
        Err(())
    );
}

#[test]
fn helper_words_parse_back_to_the_same_action() {
    let actions = vec![
        CliHelperAction::Uninstall,
        CliHelperAction::UninstallElevated,
        CliHelperAction::DeleteInstalledVersion {
            request_path: r"C:\Temp\request.json".into(),
            result_path: r"C:\Temp\result.json".into(),
        },
        CliHelperAction::SetDesktopShortcut(true),
        CliHelperAction::SetAssistantDesktopShortcut(false),
        CliHelperAction::SetCodexProtocol {
            action: CodexProtocolAction::Replace,
            result_path: "result.json".into(),
            rollback: "7b7d".into(),
        },
        CliHelperAction::RestoreCodexProtocol("7b7d".into()),
        CliHelperAction::InstallSystem {
            request_path: "a.json".into(),
            result_path: "b.json".into(),
        },
        CliHelperAction::UpdateSystem {
            request_path: "a.json".into(),
            result_path: "b.json".into(),
        },
        CliHelperAction::UninstallSystem {
            result_path: "b.json".into(),
        },
        CliHelperAction::LaunchLatest,
    ];
    for action in actions {
        let words = helper_words(&action);
        assert_eq!(parse_cli_helper(&words), Ok(Some(action)));
    }
}

#[test]
fn helper_command_line_quotes_only_paths() {
    let line = helper_command_line(&CliHelperAction::SetCodexProtocol {
        action: CodexProtocolAction::Create,
        result_path: r"C:\Temp\codex result.json".into(),
        rollback: "00ff".into(),
    });
    assert_eq!(
        line,
        r#"--set-codex-protocol create "C:\Temp\codex result.json" 00ff"#
    );
    let line = helper_command_line(&CliHelperAction::DeleteInstalledVersion {
        request_path: "req.json".into(),
        result_path: "res.json".into(),
    });
    assert_eq!(line, r#"--delete-installed-version "req.json" "res.json""#);
    assert_eq!(
        helper_command_line(&CliHelperAction::SetDesktopShortcut(false)),
        "--set-desktop-shortcut remove"
    );
    assert_eq!(
        helper_command_line(&CliHelperAction::LaunchLatest),
        "--launch-latest"
    );
    assert_eq!(quote_cli_path(r"C:\a b"), r#""C:\a b""#);
}

#[test]
fn protocol_action_words_and_messages() {
    assert_eq!(CodexProtocolAction::Create.helper_argument(), "create");
    assert_eq!(CodexProtocolAction::Replace.helper_argument(), "replace");
    assert_eq!(CodexProtocolAction::Remove.helper_argument(), "remove");
    assert!(CodexProtocolAction::Create.enabled());
    assert!(CodexProtocolAction::Replace.enabled());
    assert!(!CodexProtocolAction::Remove.enabled());
    assert!(CodexProtocolAction::Replace.replace_other());
    assert!(!CodexProtocolAction::Create.replace_other());
    assert_eq!(
        CodexProtocolAction::Create.success_message(),
        "已创建或修复 codex:// 会话链接"
    );
    assert_eq!(
        CodexProtocolAction::Replace.success_message(),
        "已将 codex:// 会话链接切换到当前安装"
    );
    assert_eq!(
        CodexProtocolAction::Remove.success_message(),
        "已停止由当前安装处理 codex:// 会话链接"
    );
}

#[test]
fn rollback_hex_round_trips_utf8_payloads() {
    let payload = "codex:// 中文回滚".as_bytes();
    let encoded = hex_encode(payload);
    assert_eq!(hex_decode(&encoded), Ok(payload.to_vec()));
    assert_eq!(hex_encode(&[0x00, 0x7b, 0xff]), "007bff");
    assert_eq!(hex_decode("007BfF"), Ok(vec![0x00, 0x7b, 0xff]));
    assert_eq!(hex_decode(""), Ok(Vec::new()));
}

#[test]
fn rollback_hex_rejects_odd_length_and_non_digits() {
    assert_eq!(hex_decode("abc"), Err(HEX_LENGTH_ERROR.to_string()));
    assert_eq!(HEX_LENGTH_ERROR, "codex:// 回滚数据长度无效");
    assert_eq!(hex_decode("zz"), Err(HEX_CHARACTER_ERROR.to_string()));
    assert_eq!(HEX_CHARACTER_ERROR, "codex:// 回滚数据包含无效字符");
    // a two-byte UTF-8 character has an even byte length but no hex digits
    assert_eq!(hex_decode("中a"), Err(HEX_CHARACTER_ERROR.to_string()));
}

#[test]
fn rollback_payload_size_limit_is_in_bytes() {
    assert!(rollback_payload_fits(&"0".repeat(24_000)));
    assert!(!rollback_payload_fits(&"0".repeat(24_001)));
}
