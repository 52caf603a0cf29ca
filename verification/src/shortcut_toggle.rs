//! Turning the desktop shortcuts on and off from the UI: whether the change
//! has to go through the elevated helper (the public desktop of an
//! all-users install), which helper call carries it, and what the UI
//! reports for each outcome.

use crate::cli::{CliActionView, CliHelperAction};
use crate::config::InstallMode;
use crate::text::owned;
use vstd::prelude::*;

verus! {

/// Which desktop shortcut is toggled.
#[derive(Debug, Clone, Copy, PartialEq, Eq, Structural)]
pub enum DesktopEntry {
    /// The "ChatGPT" shortcut that launches the newest version.
    ChatGpt,
    /// The shortcut that opens the assistant itself.
    Assistant,
}

/// Only an unelevated all-users install needs the elevated helper.
pub fn toggle_needs_helper(mode: InstallMode, elevated: bool) -> (r: bool)
    ensures
        r == (mode == InstallMode::System && !elevated),
{
    mode == InstallMode::System && !elevated
}

/// The helper call that toggles `entry`.
pub fn toggle_helper_action(entry: DesktopEntry, enabled: bool) -> (r: CliHelperAction)
    ensures
        r@ == match entry {
            DesktopEntry::ChatGpt => CliActionView::SetDesktopShortcut(enabled),
            DesktopEntry::Assistant => CliActionView::SetAssistantDesktopShortcut(enabled),
        },
{
    match entry {
        DesktopEntry::ChatGpt => CliHelperAction::SetDesktopShortcut(enabled),
        DesktopEntry::Assistant => CliHelperAction::SetAssistantDesktopShortcut(enabled),
    }
}

pub open spec fn helper_failure_spec(entry: DesktopEntry, waited: Result<u32, ()>) -> Option<
    Seq<char>,
> {
    match waited {
        Err(()) => Some(
            match entry {
                DesktopEntry::ChatGpt => "管理公共桌面快捷方式需要管理员权限，授权未完成"@,
                DesktopEntry::Assistant => "管理公共桌面的中文助手快捷方式需要管理员权限，授权未完成"@,
            },
        ),
        Ok(code) => if code != 0 {
            Some(
                match entry {
                    DesktopEntry::ChatGpt => "管理员快捷方式进程执行失败，未修改桌面入口"@,
                    DesktopEntry::Assistant => "管理员快捷方式进程执行失败，未修改中文助手桌面入口"@,
                },
            )
        } else {
            None
        },
    }
}

/// The error after waiting for the helper (`Err` when the wait failed),
/// `None` when it succeeded.
pub fn toggle_helper_failure(entry: DesktopEntry, waited: Result<u32, ()>) -> (r: Option<String>)
    ensures
        crate::config::opt_text(r) == helper_failure_spec(entry, waited),
{
    match waited {
        Err(()) => Some(
            owned(
                match entry {
                    DesktopEntry::ChatGpt => "管理公共桌面快捷方式需要管理员权限，授权未完成",
                    DesktopEntry::Assistant => "管理公共桌面的中文助手快捷方式需要管理员权限，授权未完成",
                },
            ),
        ),
        Ok(code) => {
            if code != 0 {
                Some(
                    owned(
                        match entry {
                            DesktopEntry::ChatGpt => "管理员快捷方式进程执行失败，未修改桌面入口",
                            DesktopEntry::Assistant =>
                                "管理员快捷方式进程执行失败，未修改中文助手桌面入口",
                        },
                    ),
                )
            } else {
                None
            }
        },
    }
}

pub open spec fn toggle_success_spec(entry: DesktopEntry, enabled: bool) -> Seq<char> {
    match (entry, enabled) {
        (DesktopEntry::ChatGpt, true) => "已创建 ChatGPT 桌面快捷方式"@,
        (DesktopEntry::ChatGpt, false) => "已移除 ChatGPT 桌面快捷方式"@,
        (DesktopEntry::Assistant, true) => "已创建中文助手桌面快捷方式"@,
        (DesktopEntry::Assistant, false) => "已移除中文助手桌面快捷方式"@,
    }
}

/// What the UI reports once the shortcut was toggled.
pub fn toggle_success_message(entry: DesktopEntry, enabled: bool) -> (r: &'static str)
    ensures
        r@ == toggle_success_spec(entry, enabled),
{
    match (entry, enabled) {
        (DesktopEntry::ChatGpt, true) => "已创建 ChatGPT 桌面快捷方式",
        (DesktopEntry::ChatGpt, false) => "已移除 ChatGPT 桌面快捷方式",
        (DesktopEntry::Assistant, true) => "已创建中文助手桌面快捷方式",
        (DesktopEntry::Assistant, false) => "已移除中文助手桌面快捷方式",
    }
}

pub open spec fn toggle_error_prefix(entry: DesktopEntry, enabled: bool) -> Seq<char> {
    match (entry, enabled) {
        (DesktopEntry::ChatGpt, true) => "创建 ChatGPT 桌面快捷方式失败："@,
        (DesktopEntry::ChatGpt, false) => "移除 ChatGPT 桌面快捷方式失败："@,
        (DesktopEntry::Assistant, true) => "创建中文助手桌面快捷方式失败："@,
        (DesktopEntry::Assistant, false) => "移除中文助手桌面快捷方式失败："@,
    }
}

/// The error when creating or removing the shortcut directly failed.
pub fn toggle_error_message(entry: DesktopEntry, enabled: bool, cause: &str) -> (r: String)
    ensures
        r@ == toggle_error_prefix(entry, enabled) + cause@,
{
    let mut r = owned(
        match (entry, enabled) {
            (DesktopEntry::ChatGpt, true) => "创建 ChatGPT 桌面快捷方式失败：",
            (DesktopEntry::ChatGpt, false) => "移除 ChatGPT 桌面快捷方式失败：",
            (DesktopEntry::Assistant, true) => "创建中文助手桌面快捷方式失败：",
            (DesktopEntry::Assistant, false) => "移除中文助手桌面快捷方式失败：",
        },
    );
    r.append(cause);
    r
}

} // verus!
