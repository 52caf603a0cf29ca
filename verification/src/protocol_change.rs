//! Changing the `codex://` preference from the UI, as two state machines:
//! one for per-user and portable installs, which the launcher changes
//! itself, and one for all-users installs, whose registry is changed by an
//! elevated helper. Each step takes what the last registry or file
//! operation reported and says what to do next; every failure after the
//! registry was touched ends in a rollback. The application shell carries
//! out the operations.

use crate::cli::CodexProtocolAction;
use crate::config::InstallMode;
use crate::registry::{CodexProtocolStatus, ProtocolRegistration};
use crate::text::owned;
use vstd::prelude::*;

verus! {

/// What a per-user change has just learned.
#[derive(Debug, Clone, PartialEq, Eq)]
pub enum ChangeEvent {
    /// The current registration and install configuration were backed up.
    Started,
    /// Enabling registered (or kept) a registration with this outcome.
    Registered(ProtocolRegistration),
    /// Disabling removed this install's registration (or found none).
    Removed,
    /// Enabling or disabling failed.
    ApplyFailed(String),
    /// The effective handler's status after enabling.
    StatusRead(CodexProtocolStatus),
    /// Reading that status failed.
    StatusFailed(String),
    /// The preference was saved.
    Saved,
    /// Saving the preference failed.
    SaveFailed(String),
}

/// What a per-user change does next.
#[derive(Debug, Clone, PartialEq, Eq)]
pub enum ChangeStep {
    Enable { replace_other: bool },
    Disable,
    CheckStatus,
    /// Save `register_codex_protocol = Some(register)`.
    Save { register: bool },
    /// Restore the backed-up registration, then report this cause.
    RollbackRegistry(String),
    /// Restore the backed-up registration and install configuration, then
    /// report this cause.
    RollbackAll(String),
    /// Report this error; nothing was changed.
    Fail(String),
    /// Report this success.
    Succeed(String),
}

pub enum ChangeStepView {
    Enable { replace_other: bool },
    Disable,
    CheckStatus,
    Save { register: bool },
    RollbackRegistry(Seq<char>),
    RollbackAll(Seq<char>),
    Fail(Seq<char>),
    Succeed(Seq<char>),
}

impl View for ChangeStep {
    type V = ChangeStepView;

    open spec fn view(&self) -> ChangeStepView {
        match self {
            ChangeStep::Enable { replace_other } => ChangeStepView::Enable {
                replace_other: *replace_other,
            },
            ChangeStep::Disable => ChangeStepView::Disable,
            ChangeStep::CheckStatus => ChangeStepView::CheckStatus,
            ChangeStep::Save { register } => ChangeStepView::Save { register: *register },
            ChangeStep::RollbackRegistry(m) => ChangeStepView::RollbackRegistry(m@),
            ChangeStep::RollbackAll(m) => ChangeStepView::RollbackAll(m@),
            ChangeStep::Fail(m) => ChangeStepView::Fail(m@),
            ChangeStep::Succeed(m) => ChangeStepView::Succeed(m@),
        }
    }
}

pub const FOREIGN_HANDLER_MESSAGE: &'static str =
    "codex:// 当前由其他 Codex 安装处理；如需切换，请使用“设为当前安装”";

pub open spec fn status_name(s: CodexProtocolStatus) -> Seq<char> {
    match s {
        CodexProtocolStatus::Missing => "Missing"@,
        CodexProtocolStatus::Ready => "Ready"@,
        CodexProtocolStatus::NeedsRepair => "NeedsRepair"@,
        CodexProtocolStatus::OtherOwner => "OtherOwner"@,
    }
}

/// The name of a protocol status as the UI shows it.
pub fn status_text(s: CodexProtocolStatus) -> (r: &'static str)
    ensures
        r@ == status_name(s),
{
    match s {
        CodexProtocolStatus::Missing => "Missing",
        CodexProtocolStatus::Ready => "Ready",
        CodexProtocolStatus::NeedsRepair => "NeedsRepair",
        CodexProtocolStatus::OtherOwner => "OtherOwner",
    }
}

pub open spec fn apply_failure_prefix(enabled: bool) -> Seq<char> {
    if enabled {
        "配置 codex:// 会话链接失败："@
    } else {
        "移除 codex:// 会话链接失败："@
    }
}

/// What follows once the registry was changed: a check of the effective
/// handler when enabling without persisting the install configuration,
/// otherwise saving the preference.
pub open spec fn after_apply(action: CodexProtocolAction, persist_install: bool) -> ChangeStepView {
    if action.enabled_spec() && !persist_install {
        ChangeStepView::CheckStatus
    } else {
        ChangeStepView::Save { register: action.enabled_spec() }
    }
}

/// The per-user change: back up, enable or disable, check (when enabling
/// the running configuration), save the preference; a failure once the
/// registry was touched restores it, and a failed save also restores the
/// install configuration. A registration kept for another installation is
/// refused without changes.
pub open spec fn change_step_spec(
    action: CodexProtocolAction,
    persist_install: bool,
    event: ChangeEvent,
) -> ChangeStepView {
    match event {
        ChangeEvent::Started => if action.enabled_spec() {
            ChangeStepView::Enable { replace_other: action == CodexProtocolAction::Replace }
        } else {
            ChangeStepView::Disable
        },
        ChangeEvent::Registered(outcome) => if outcome == ProtocolRegistration::PreservedForeign {
            ChangeStepView::Fail(FOREIGN_HANDLER_MESSAGE@)
        } else {
            after_apply(action, persist_install)
        },
        ChangeEvent::Removed => after_apply(action, persist_install),
        ChangeEvent::ApplyFailed(cause) => ChangeStepView::RollbackRegistry(
            apply_failure_prefix(action.enabled_spec()) + cause@,
        ),
        ChangeEvent::StatusRead(status) => if status == CodexProtocolStatus::Ready {
            ChangeStepView::Save { register: action.enabled_spec() }
        } else {
            ChangeStepView::RollbackRegistry(
                "codex:// 注册未成为当前有效处理程序，实际状态："@ + status_name(status),
            )
        },
        ChangeEvent::StatusFailed(cause) => ChangeStepView::RollbackRegistry(
            "核验 codex:// 当前有效处理程序失败："@ + cause@,
        ),
        ChangeEvent::Saved => ChangeStepView::Succeed(action.success_message_spec()),
        ChangeEvent::SaveFailed(cause) => ChangeStepView::RollbackAll(
            "保存 codex:// 会话链接偏好失败："@ + cause@,
        ),
    }
}

fn prefixed(prefix: &str, cause: &str) -> (r: String)
    ensures
        r@ == prefix@ + cause@,
{
    let mut r = owned(prefix);
    r.append(cause);
    r
}

fn after_apply_exec(action: CodexProtocolAction, persist_install: bool) -> (r: ChangeStep)
    ensures
        r@ == after_apply(action, persist_install),
{
    if action.enabled() && !persist_install {
        ChangeStep::CheckStatus
    } else {
        ChangeStep::Save { register: action.enabled() }
    }
}

/// The next step of a per-user `codex://` change.
pub fn next_change_step(action: CodexProtocolAction, persist_install: bool, event: ChangeEvent) -> (r:
    ChangeStep)
    ensures
        r@ == change_step_spec(action, persist_install, event),
{
    match event {
        ChangeEvent::Started => {
            if action.enabled() {
                ChangeStep::Enable { replace_other: action.replace_other() }
            } else {
                ChangeStep::Disable
            }
        },
        ChangeEvent::Registered(outcome) => {
            if outcome == ProtocolRegistration::PreservedForeign {
                ChangeStep::Fail(owned(FOREIGN_HANDLER_MESSAGE))
            } else {
                after_apply_exec(action, persist_install)
            }
        },
        ChangeEvent::Removed => after_apply_exec(action, persist_install),
        ChangeEvent::ApplyFailed(cause) => {
            if action.enabled() {
                ChangeStep::RollbackRegistry(prefixed("配置 codex:// 会话链接失败：", cause.as_str()))
            } else {
                ChangeStep::RollbackRegistry(prefixed("移除 codex:// 会话链接失败：", cause.as_str()))
            }
        },
        ChangeEvent::StatusRead(status) => {
            if status == CodexProtocolStatus::Ready {
                ChangeStep::Save { register: action.enabled() }
            } else {
                ChangeStep::RollbackRegistry(
                    prefixed("codex:// 注册未成为当前有效处理程序，实际状态：", status_text(status)),
                )
            }
        },
        ChangeEvent::StatusFailed(cause) => ChangeStep::RollbackRegistry(
            prefixed("核验 codex:// 当前有效处理程序失败：", cause.as_str()),
        ),
        ChangeEvent::Saved => ChangeStep::Succeed(owned(action.success_message())),
        ChangeEvent::SaveFailed(cause) => ChangeStep::RollbackAll(
            prefixed("保存 codex:// 会话链接偏好失败：", cause.as_str()),
        ),
    }
}

pub open spec fn opt_view(o: Option<String>) -> Option<Seq<char>> {
    match o {
        Some(s) => Some(s@),
        None => None,
    }
}

pub open spec fn registry_rollback_spec(cause: Seq<char>, restore_error: Option<Seq<char>>) -> Seq<
    char,
> {
    match restore_error {
        None => cause,
        Some(e) => cause + "；恢复 codex:// 注册失败："@ + e,
    }
}

/// The error reported after restoring the registration, naming a failed
/// restore.
pub fn registry_rollback_message(cause: &str, restore_error: Option<String>) -> (r: String)
    ensures
        r@ == registry_rollback_spec(cause@, opt_view(restore_error)),
{
    match restore_error {
        None => owned(cause),
        Some(e) => {
            let mut r = prefixed(cause, "；恢复 codex:// 注册失败：");
            r.append(e.as_str());
            r
        },
    }
}

pub open spec fn change_rollback_spec(
    cause: Seq<char>,
    restore_error: Option<Seq<char>>,
    config_error: Option<Seq<char>>,
) -> Seq<char> {
    let after_registry = registry_rollback_spec(cause, restore_error);
    match config_error {
        None => after_registry,
        Some(e) => after_registry + "；回滚未完整完成：恢复安装配置失败："@ + e,
    }
}

/// The error reported after restoring both the registration and the
/// install configuration.
pub fn change_rollback_message(
    cause: &str,
    restore_error: Option<String>,
    config_error: Option<String>,
) -> (r: String)
    ensures
        r@ == change_rollback_spec(cause@, opt_view(restore_error), opt_view(config_error)),
{
    let after_registry = registry_rollback_message(cause, restore_error);
    match config_error {
        None => after_registry,
        Some(e) => {
            let mut r = prefixed(after_registry.as_str(), "；回滚未完整完成：恢复安装配置失败：");
            r.append(e.as_str());
            r
        },
    }
}

pub const ELEVATED_UI_PROTOCOL_MESSAGE: &'static str =
    "为避免操作到提权账户的用户关联，请以普通用户身份重新启动中文助手后再修改 codex://";

/// An all-users install's `codex://` is changed only from an unelevated UI,
/// so that the current user's associations are the ones inspected.
pub fn protocol_change_refusal(mode: InstallMode, elevated: bool) -> (r: Option<&'static str>)
    ensures
        r is Some <==> (mode == InstallMode::System && elevated),
        r is Some ==> r->0@ == ELEVATED_UI_PROTOCOL_MESSAGE@,
{
    if mode == InstallMode::System && elevated {
        Some(ELEVATED_UI_PROTOCOL_MESSAGE)
    } else {
        None
    }
}

/// Whether the change runs the all-users state machine.
pub fn uses_system_change(mode: InstallMode) -> (r: bool)
    ensures
        r == (mode == InstallMode::System),
{
    mode == InstallMode::System
}

// ---------------------------------------------------------------------------
// All-users installs
// ---------------------------------------------------------------------------

/// Which per-user state a system rollback restores besides the system one.
#[derive(Debug, Clone, Copy, PartialEq, Eq, Structural)]
pub enum CurrentUserRollback {
    Untouched,
    RuntimeState,
    ProtocolAndRuntimeState,
}

impl CurrentUserRollback {
    /// Whether the current user's `codex://` registration is restored.
    pub fn restores_protocol(self) -> (r: bool)
        ensures
            r == (self == CurrentUserRollback::ProtocolAndRuntimeState),
    {
        matches!(self, CurrentUserRollback::ProtocolAndRuntimeState)
    }

    /// Whether the current user's runtime configuration is restored.
    pub fn restores_runtime_state(self) -> (r: bool)
        ensures
            r == (self != CurrentUserRollback::Untouched),
    {
        !matches!(self, CurrentUserRollback::Untouched)
    }
}

/// What a change of an all-users install has just learned.
#[derive(Debug, PartialEq, Eq)]
pub enum SystemChangeEvent {
    /// The system maintenance lock is held.
    Started,
    /// The current user's effective `codex://` status, before any change.
    CurrentStatus(Result<CodexProtocolStatus, String>),
    /// Saving the preference when nothing else had to change.
    PreferenceOnlySaved(Result<(), String>),
    /// Whether a system registration can take over for the current user.
    ReplaceSafety(Result<bool, String>),
    /// The elevated helper's report (already read and checked).
    HelperApplied(Result<(), String>),
    /// The current user's effective status after the helper's change.
    Verified(Result<CodexProtocolStatus, String>),
    /// Saving the preference after the helper's change.
    PreferenceSaved(Result<(), String>),
    /// Removing the current user's own registration after disabling.
    UserRegistrationRemoved(Result<(), String>),
}

/// What a change of an all-users install does next.
#[derive(Debug, Clone, PartialEq, Eq)]
pub enum SystemChangeStep {
    ReadCurrentStatus,
    /// Save `register_codex_protocol = Some(true)`; nothing else changes.
    SavePreferenceOnly,
    CheckReplaceSafety,
    /// Back up the system state and run the elevated helper.
    RunHelper,
    VerifyStatus,
    SavePreference { register: bool },
    RemoveUserRegistration,
    /// Undo the helper's change and the listed per-user state, then report.
    Rollback { current_user: CurrentUserRollback, cause: String },
    Fail(String),
    Succeed(String),
}

pub enum SystemChangeStepView {
    ReadCurrentStatus,
    SavePreferenceOnly,
    CheckReplaceSafety,
    RunHelper,
    VerifyStatus,
    SavePreference { register: bool },
    RemoveUserRegistration,
    Rollback { current_user: CurrentUserRollback, cause: Seq<char> },
    Fail(Seq<char>),
    Succeed(Seq<char>),
}

impl View for SystemChangeStep {
    type V = SystemChangeStepView;

    open spec fn view(&self) -> SystemChangeStepView {
        match self {
            SystemChangeStep::ReadCurrentStatus => SystemChangeStepView::ReadCurrentStatus,
            SystemChangeStep::SavePreferenceOnly => SystemChangeStepView::SavePreferenceOnly,
            SystemChangeStep::CheckReplaceSafety => SystemChangeStepView::CheckReplaceSafety,
            SystemChangeStep::RunHelper => SystemChangeStepView::RunHelper,
            SystemChangeStep::VerifyStatus => SystemChangeStepView::VerifyStatus,
            SystemChangeStep::SavePreference { register } => SystemChangeStepView::SavePreference {
                register: *register,
            },
            SystemChangeStep::RemoveUserRegistration => SystemChangeStepView::RemoveUserRegistration,
            SystemChangeStep::Rollback { current_user, cause } => SystemChangeStepView::Rollback {
                current_user: *current_user,
                cause: cause@,
            },
            SystemChangeStep::Fail(m) => SystemChangeStepView::Fail(m@),
            SystemChangeStep::Succeed(m) => SystemChangeStepView::Succeed(m@),
        }
    }
}

pub const UNSAFE_SYSTEM_TAKEOVER_MESSAGE: &'static str =
    "当前 Windows 用户已有 codex:// 覆盖项，系统级注册无法安全接管；请先在 Windows 默认应用中移除现有关联";

pub const SHADOWED_AFTER_HELPER_MESSAGE: &'static str =
    "授权期间当前用户的 codex:// 默认关联发生变化，系统级注册未能成为实际处理程序";

/// The change of an all-users install: when enabling, a handler that is
/// already effective only needs the preference saved, and the helper runs
/// only if a system registration can take over for this user; after the
/// helper, enabling is checked, the preference saved and, when disabling,
/// this user's own registration removed. Failures after the helper's change
/// roll it back together with the per-user state touched so far.
pub open spec fn system_step_spec(action: CodexProtocolAction, event: SystemChangeEvent) -> SystemChangeStepView {
    let enabled = action.enabled_spec();
    match event {
        SystemChangeEvent::Started => if enabled {
            SystemChangeStepView::ReadCurrentStatus
        } else {
            SystemChangeStepView::RunHelper
        },
        SystemChangeEvent::CurrentStatus(r) => match r {
            Err(c) => SystemChangeStepView::Fail("读取当前用户的 codex:// 会话链接失败："@ + c@),
            Ok(s) => if s == CodexProtocolStatus::Ready {
                SystemChangeStepView::SavePreferenceOnly
            } else {
                SystemChangeStepView::CheckReplaceSafety
            },
        },
        SystemChangeEvent::PreferenceOnlySaved(r) => match r {
            Ok(()) => SystemChangeStepView::Succeed(action.success_message_spec()),
            Err(c) => SystemChangeStepView::Fail("保存 codex:// 会话链接偏好失败："@ + c@),
        },
        SystemChangeEvent::ReplaceSafety(r) => match r {
            Err(c) => SystemChangeStepView::Fail("检查系统级 codex:// 接管范围失败："@ + c@),
            Ok(safe) => if safe {
                SystemChangeStepView::RunHelper
            } else {
                SystemChangeStepView::Fail(UNSAFE_SYSTEM_TAKEOVER_MESSAGE@)
            },
        },
        SystemChangeEvent::HelperApplied(r) => match r {
            Err(m) => SystemChangeStepView::Fail(m@),
            Ok(()) => if enabled {
                SystemChangeStepView::VerifyStatus
            } else {
                SystemChangeStepView::SavePreference { register: false }
            },
        },
        SystemChangeEvent::Verified(r) => match r {
            Ok(s) => if s == CodexProtocolStatus::Ready {
                SystemChangeStepView::SavePreference { register: enabled }
            } else {
                SystemChangeStepView::Rollback {
                    current_user: CurrentUserRollback::Untouched,
                    cause: SHADOWED_AFTER_HELPER_MESSAGE@,
                }
            },
            Err(c) => SystemChangeStepView::Rollback {
                current_user: CurrentUserRollback::Untouched,
                cause: "核验当前用户的 codex:// 会话链接失败："@ + c@,
            },
        },
        SystemChangeEvent::PreferenceSaved(r) => match r {
            Ok(()) => if enabled {
                SystemChangeStepView::Succeed(action.success_message_spec())
            } else {
                SystemChangeStepView::RemoveUserRegistration
            },
            Err(c) => SystemChangeStepView::Rollback {
                current_user: CurrentUserRollback::RuntimeState,
                cause: "保存 codex:// 会话链接偏好失败："@ + c@,
            },
        },
        SystemChangeEvent::UserRegistrationRemoved(r) => match r {
            Ok(()) => SystemChangeStepView::Succeed(action.success_message_spec()),
            Err(c) => SystemChangeStepView::Rollback {
                current_user: CurrentUserRollback::ProtocolAndRuntimeState,
                cause: "清理当前用户的 codex:// 会话链接失败："@ + c@,
            },
        },
    }
}

/// The next step of a `codex://` change of an all-users install.
pub fn next_system_change_step(action: CodexProtocolAction, event: SystemChangeEvent) -> (r:
    SystemChangeStep)
    ensures
        r@ == system_step_spec(action, event),
{
    let enabled = action.enabled();
    match event {
        SystemChangeEvent::Started => {
            if enabled {
                SystemChangeStep::ReadCurrentStatus
            } else {
                SystemChangeStep::RunHelper
            }
        },
        SystemChangeEvent::CurrentStatus(r) => match r {
            Err(c) => SystemChangeStep::Fail(
                prefixed("读取当前用户的 codex:// 会话链接失败：", c.as_str()),
            ),
            Ok(s) => {
                if s == CodexProtocolStatus::Ready {
                    SystemChangeStep::SavePreferenceOnly
                } else {
                    SystemChangeStep::CheckReplaceSafety
                }
            },
        },
        SystemChangeEvent::PreferenceOnlySaved(r) => match r {
            Ok(()) => SystemChangeStep::Succeed(owned(action.success_message())),
            Err(c) => SystemChangeStep::Fail(prefixed("保存 codex:// 会话链接偏好失败：", c.as_str())),
        },
        SystemChangeEvent::ReplaceSafety(r) => match r {
            Err(c) => SystemChangeStep::Fail(
                prefixed("检查系统级 codex:// 接管范围失败：", c.as_str()),
            ),
            Ok(safe) => {
                if safe {
                    SystemChangeStep::RunHelper
                } else {
                    SystemChangeStep::Fail(owned(UNSAFE_SYSTEM_TAKEOVER_MESSAGE))
                }
            },
        },
        SystemChangeEvent::HelperApplied(r) => match r {
            Err(m) => SystemChangeStep::Fail(m),
            Ok(()) => {
                if enabled {
                    SystemChangeStep::VerifyStatus
                } else {
                    SystemChangeStep::SavePreference { register: false }
                }
            },
        },
        SystemChangeEvent::Verified(r) => match r {
            Ok(s) => {
                if s == CodexProtocolStatus::Ready {
                    SystemChangeStep::SavePreference { register: enabled }
                } else {
                    SystemChangeStep::Rollback {
                        current_user: CurrentUserRollback::Untouched,
                        cause: owned(SHADOWED_AFTER_HELPER_MESSAGE),
                    }
                }
            },
            Err(c) => SystemChangeStep::Rollback {
                current_user: CurrentUserRollback::Untouched,
                cause: prefixed("核验当前用户的 codex:// 会话链接失败：", c.as_str()),
            },
        },
        SystemChangeEvent::PreferenceSaved(r) => match r {
            Ok(()) => {
                if enabled {
                    SystemChangeStep::Succeed(owned(action.success_message()))
                } else {
                    SystemChangeStep::RemoveUserRegistration
                }
            },
            Err(c) => SystemChangeStep::Rollback {
                current_user: CurrentUserRollback::RuntimeState,
                cause: prefixed("保存 codex:// 会话链接偏好失败：", c.as_str()),
            },
        },
        SystemChangeEvent::UserRegistrationRemoved(r) => match r {
            Ok(()) => SystemChangeStep::Succeed(owned(action.success_message())),
            Err(c) => SystemChangeStep::Rollback {
                current_user: CurrentUserRollback::ProtocolAndRuntimeState,
                cause: prefixed("清理当前用户的 codex:// 会话链接失败：", c.as_str()),
            },
        },
    }
}

/// A per-user change reports success only once the preference was saved,
/// and the preference it saves is whether the action enables `codex://`.
pub proof fn law_change_succeeds_only_after_save(
    action: CodexProtocolAction,
    persist_install: bool,
    event: ChangeEvent,
)
    ensures
        change_step_spec(action, persist_install, event) is Succeed <==> event == ChangeEvent::Saved,
        change_step_spec(action, persist_install, event) matches ChangeStepView::Save { register }
            ==> register == action.enabled_spec(),
{
}

/// Once the registry was touched, a per-user change never fails without
/// restoring it; a failed save restores the install configuration too. The
/// one refusal without rollback is a registration kept for another
/// installation, where nothing was written.
pub proof fn law_change_failures_roll_back(
    action: CodexProtocolAction,
    persist_install: bool,
    event: ChangeEvent,
)
    ensures
        change_step_spec(action, persist_install, event) is Fail ==> event == ChangeEvent::Registered(
            ProtocolRegistration::PreservedForeign,
        ),
        event is SaveFailed ==> change_step_spec(action, persist_install, event) is RollbackAll,
        (event is ApplyFailed || event is StatusFailed) ==> change_step_spec(
            action,
            persist_install,
            event,
        ) is RollbackRegistry,
{
}

/// An all-users change never reports success while a later step is still
/// owed, saves as preference whether the action enables `codex://`, and
/// rolls back every failure that follows the helper's change.
pub proof fn law_system_change_rolls_back_after_helper(
    action: CodexProtocolAction,
    event: SystemChangeEvent,
)
    ensures
        system_step_spec(action, event) is Succeed ==> ((event matches SystemChangeEvent::PreferenceOnlySaved(r)
            && r is Ok) || (event matches SystemChangeEvent::UserRegistrationRemoved(r) && r is Ok)
            || (event matches SystemChangeEvent::PreferenceSaved(r) && r is Ok
            && action.enabled_spec())),
        system_step_spec(action, event) matches SystemChangeStepView::SavePreference { register }
            ==> register == action.enabled_spec(),
        (event is Verified || event is PreferenceSaved || event is UserRegistrationRemoved)
            ==> !(system_step_spec(action, event) is Fail),
{
}

} // verus!
