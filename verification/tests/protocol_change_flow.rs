use codex_windows_cn::cli::CodexProtocolAction;
use codex_windows_cn::config::InstallMode;
use codex_windows_cn::protocol_change::{
    change_rollback_message, next_change_step, protocol_change_refusal, uses_system_change, next_system_change_step, registry_rollback_message,
    status_text, ChangeEvent, ChangeStep, CurrentUserRollback, SystemChangeEvent,
    SystemChangeStep, FOREIGN_HANDLER_MESSAGE, SHADOWED_AFTER_HELPER_MESSAGE,
    UNSAFE_SYSTEM_TAKEOVER_MESSAGE,
};
use codex_windows_cn::registry::{CodexProtocolStatus, ProtocolRegistration};

#[test]
fn a_user_change_runs_enable_check_save() {
    let a = CodexProtocolAction::Create;
    assert_eq!(
        next_change_step(a, false, ChangeEvent::Started),
        ChangeStep::Enable {
            replace_other: false
        }
    );
    assert_eq!(
        next_change_step(a, false, ChangeEvent::Registered(ProtocolRegistration::Created)),
        ChangeStep::CheckStatus
    );
    assert_eq!(
        next_change_step(a, true, ChangeEvent::Registered(ProtocolRegistration::Created)),
        ChangeStep::Save { register: true }
    );
    assert_eq!(
        next_change_step(a, false, ChangeEvent::StatusRead(CodexProtocolStatus::Ready)),
        ChangeStep::Save { register: true }
    );
    assert_eq!(
        next_change_step(a, false, ChangeEvent::Saved),
        ChangeStep::Succeed("已创建或修复 codex:// 会话链接".into())
    );
}

#[test]
fn a_user_change_rolls_back_failures() {
    let a = CodexProtocolAction::Replace;
    assert_eq!(
        next_change_step(a, false, ChangeEvent::Started),
        ChangeStep::Enable {
            replace_other: true
        }
    );
    assert_eq!(
        next_change_step(a, false, ChangeEvent::ApplyFailed("denied".into())),
        ChangeStep::RollbackRegistry("配置 codex:// 会话链接失败：denied".into())
    );
    assert_eq!(
        next_change_step(a, false, ChangeEvent::StatusRead(CodexProtocolStatus::OtherOwner)),
        ChangeStep::RollbackRegistry(
            "codex:// 注册未成为当前有效处理程序，实际状态：OtherOwner".into()
        )
    );
    assert_eq!(
        next_change_step(a, false, ChangeEvent::StatusFailed("io".into())),
        ChangeStep::RollbackRegistry("核验 codex:// 当前有效处理程序失败：io".into())
    );
    assert_eq!(
        next_change_step(a, false, ChangeEvent::SaveFailed("disk".into())),
        ChangeStep::RollbackAll("保存 codex:// 会话链接偏好失败：disk".into())
    );
    assert_eq!(
        next_change_step(
            CodexProtocolAction::Create,
            false,
            ChangeEvent::Registered(ProtocolRegistration::PreservedForeign)
        ),
        ChangeStep::Fail(FOREIGN_HANDLER_MESSAGE.into())
    );
}

#[test]
fn removing_skips_the_status_check() {
    let a = CodexProtocolAction::Remove;
    assert_eq!(next_change_step(a, false, ChangeEvent::Started), ChangeStep::Disable);
    assert_eq!(
        next_change_step(a, false, ChangeEvent::Removed),
        ChangeStep::Save { register: false }
    );
    assert_eq!(
        next_change_step(a, false, ChangeEvent::ApplyFailed("x".into())),
        ChangeStep::RollbackRegistry("移除 codex:// 会话链接失败：x".into())
    );
}

#[test]
fn rollback_messages_append_restore_failures() {
    assert_eq!(registry_rollback_message("cause", None), "cause");
    assert_eq!(
        registry_rollback_message("cause", Some("e".into())),
        "cause；恢复 codex:// 注册失败：e"
    );
    assert_eq!(
        change_rollback_message("cause", Some("e".into()), Some("f".into())),
        "cause；恢复 codex:// 注册失败：e；回滚未完整完成：恢复安装配置失败：f"
    );
    assert_eq!(change_rollback_message("cause", None, None), "cause");
    assert_eq!(status_text(CodexProtocolStatus::NeedsRepair), "NeedsRepair");
}

#[test]
fn an_all_users_change_checks_before_running_the_helper() {
    let a = CodexProtocolAction::Create;
    assert_eq!(
        next_system_change_step(a, SystemChangeEvent::Started),
        SystemChangeStep::ReadCurrentStatus
    );
    assert_eq!(
        next_system_change_step(a, SystemChangeEvent::CurrentStatus(Ok(CodexProtocolStatus::Ready))),
        SystemChangeStep::SavePreferenceOnly
    );
    assert_eq!(
        next_system_change_step(a, SystemChangeEvent::PreferenceOnlySaved(Ok(()))),
        SystemChangeStep::Succeed("已创建或修复 codex:// 会话链接".into())
    );
    assert_eq!(
        next_system_change_step(
            a,
            SystemChangeEvent::CurrentStatus(Ok(CodexProtocolStatus::Missing))
        ),
        SystemChangeStep::CheckReplaceSafety
    );
    assert_eq!(
        next_system_change_step(a, SystemChangeEvent::ReplaceSafety(Ok(false))),
        SystemChangeStep::Fail(UNSAFE_SYSTEM_TAKEOVER_MESSAGE.into())
    );
    assert_eq!(
        next_system_change_step(a, SystemChangeEvent::ReplaceSafety(Ok(true))),
        SystemChangeStep::RunHelper
    );
    assert_eq!(
        next_system_change_step(a, SystemChangeEvent::HelperApplied(Ok(()))),
        SystemChangeStep::VerifyStatus
    );
    assert_eq!(
        next_system_change_step(a, SystemChangeEvent::Verified(Ok(CodexProtocolStatus::Missing))),
        SystemChangeStep::Rollback {
            current_user: CurrentUserRollback::Untouched,
            cause: SHADOWED_AFTER_HELPER_MESSAGE.into(),
        }
    );
    assert_eq!(
        next_system_change_step(a, SystemChangeEvent::PreferenceSaved(Err("disk".into()))),
        SystemChangeStep::Rollback {
            current_user: CurrentUserRollback::RuntimeState,
            cause: "保存 codex:// 会话链接偏好失败：disk".into(),
        }
    );
}

#[test]
fn disabling_an_all_users_registration_cleans_the_user_one() {
    let a = CodexProtocolAction::Remove;
    assert_eq!(
        next_system_change_step(a, SystemChangeEvent::Started),
        SystemChangeStep::RunHelper
    );
    assert_eq!(
        next_system_change_step(a, SystemChangeEvent::HelperApplied(Ok(()))),
        SystemChangeStep::SavePreference { register: false }
    );
    assert_eq!(
        next_system_change_step(a, SystemChangeEvent::PreferenceSaved(Ok(()))),
        SystemChangeStep::RemoveUserRegistration
    );
    assert_eq!(
        next_system_change_step(
            a,
            SystemChangeEvent::UserRegistrationRemoved(Err("locked".into()))
        ),
        SystemChangeStep::Rollback {
            current_user: CurrentUserRollback::ProtocolAndRuntimeState,
            cause: "清理当前用户的 codex:// 会话链接失败：locked".into(),
        }
    );
    assert_eq!(
        next_system_change_step(a, SystemChangeEvent::UserRegistrationRemoved(Ok(()))),
        SystemChangeStep::Succeed("已停止由当前安装处理 codex:// 会话链接".into())
    );
    assert_eq!(
        next_system_change_step(a, SystemChangeEvent::HelperApplied(Err("denied".into()))),
        SystemChangeStep::Fail("denied".into())
    );
    assert!(CurrentUserRollback::ProtocolAndRuntimeState.restores_protocol());
    assert!(!CurrentUserRollback::RuntimeState.restores_protocol());
    assert!(CurrentUserRollback::RuntimeState.restores_runtime_state());
    assert!(!CurrentUserRollback::Untouched.restores_runtime_state());
}

#[test]
fn an_elevated_ui_does_not_change_an_all_users_registration() {
    assert_eq!(
        protocol_change_refusal(InstallMode::System, true),
        Some("为避免操作到提权账户的用户关联，请以普通用户身份重新启动中文助手后再修改 codex://")
    );
    assert_eq!(protocol_change_refusal(InstallMode::System, false), None);
    assert_eq!(protocol_change_refusal(InstallMode::User, true), None);
    assert!(uses_system_change(InstallMode::System));
    assert!(!uses_system_change(InstallMode::Portable));
}
