//! The one-shot helper command line the launcher passes to itself (often
//! through an elevation prompt), the `codex://` actions those helpers carry,
//! and the hexadecimal transport of rollback payloads on that command line.

use crate::text::{owned, push_char, str_eq};
use vstd::string::StringSliceAdditionalSpecFns;
use vstd::prelude::*;

verus! {

/// What a `codex://` change asks for.
#[derive(Debug, Clone, Copy, PartialEq, Eq, Structural)]
pub enum CodexProtocolAction {
    Create,
    Replace,
    Remove,
}

pub const CREATE_ARGUMENT: &'static str = "create";

pub const REPLACE_ARGUMENT: &'static str = "replace";

pub const REMOVE_ARGUMENT: &'static str = "remove";

impl CodexProtocolAction {
    pub open spec fn enabled_spec(self) -> bool {
        self != CodexProtocolAction::Remove
    }

    /// Whether the launcher handles `codex://` after this action.
    pub fn enabled(self) -> (r: bool)
        ensures
            r == self.enabled_spec(),
    {
        !matches!(self, CodexProtocolAction::Remove)
    }

    /// Whether a registration owned by another install is taken over.
    pub fn replace_other(self) -> (r: bool)
        ensures
            r == (self == CodexProtocolAction::Replace),
    {
        matches!(self, CodexProtocolAction::Replace)
    }

    pub open spec fn helper_argument_spec(self) -> Seq<char> {
        match self {
            CodexProtocolAction::Create => CREATE_ARGUMENT@,
            CodexProtocolAction::Replace => REPLACE_ARGUMENT@,
            CodexProtocolAction::Remove => REMOVE_ARGUMENT@,
        }
    }

    /// The word that names this action on the helper command line.
    pub fn helper_argument(self) -> (r: &'static str)
        ensures
            r@ == self.helper_argument_spec(),
    {
        match self {
            CodexProtocolAction::Create => CREATE_ARGUMENT,
            CodexProtocolAction::Replace => REPLACE_ARGUMENT,
            CodexProtocolAction::Remove => REMOVE_ARGUMENT,
        }
    }

    pub open spec fn success_message_spec(self) -> Seq<char> {
        match self {
            CodexProtocolAction::Create => "已创建或修复 codex:// 会话链接"@,
            CodexProtocolAction::Replace => "已将 codex:// 会话链接切换到当前安装"@,
            CodexProtocolAction::Remove => "已停止由当前安装处理 codex:// 会话链接"@,
        }
    }

    /// What the UI reports once the action has been applied.
    pub fn success_message(self) -> (r: &'static str)
        ensures
            r@ == self.success_message_spec(),
    {
        match self {
            CodexProtocolAction::Create => "已创建或修复 codex:// 会话链接",
            CodexProtocolAction::Replace => "已将 codex:// 会话链接切换到当前安装",
            CodexProtocolAction::Remove => "已停止由当前安装处理 codex:// 会话链接",
        }
    }
}

/// A helper invocation recognised on the command line.
#[derive(Debug, PartialEq, Eq)]
pub enum CliHelperAction {
    Uninstall,
    UninstallElevated,
    DeleteInstalledVersion { request_path: String, result_path: String },
    SetDesktopShortcut(bool),
    SetAssistantDesktopShortcut(bool),
    SetCodexProtocol { action: CodexProtocolAction, result_path: String, rollback: String },
    RestoreCodexProtocol(String),
    InstallSystem { request_path: String, result_path: String },
    UpdateSystem { request_path: String, result_path: String },
    UninstallSystem { result_path: String },
    LaunchLatest,
}

/// `CliHelperAction` with its texts as character sequences.
pub enum CliActionView {
    Uninstall,
    UninstallElevated,
    DeleteInstalledVersion { request_path: Seq<char>, result_path: Seq<char> },
    SetDesktopShortcut(bool),
    SetAssistantDesktopShortcut(bool),
    SetCodexProtocol { action: CodexProtocolAction, result_path: Seq<char>, rollback: Seq<char> },
    RestoreCodexProtocol(Seq<char>),
    InstallSystem { request_path: Seq<char>, result_path: Seq<char> },
    UpdateSystem { request_path: Seq<char>, result_path: Seq<char> },
    UninstallSystem { result_path: Seq<char> },
    LaunchLatest,
}

impl View for CliHelperAction {
    type V = CliActionView;

    open spec fn view(&self) -> CliActionView {
        match self {
            CliHelperAction::Uninstall => CliActionView::Uninstall,
            CliHelperAction::UninstallElevated => CliActionView::UninstallElevated,
            CliHelperAction::DeleteInstalledVersion { request_path, result_path } =>
                CliActionView::DeleteInstalledVersion {
                    request_path: request_path@,
                    result_path: result_path@,
                },
            CliHelperAction::SetDesktopShortcut(b) => CliActionView::SetDesktopShortcut(*b),
            CliHelperAction::SetAssistantDesktopShortcut(b) =>
                CliActionView::SetAssistantDesktopShortcut(*b),
            CliHelperAction::SetCodexProtocol { action, result_path, rollback } =>
                CliActionView::SetCodexProtocol {
                    action: *action,
                    result_path: result_path@,
                    rollback: rollback@,
                },
            CliHelperAction::RestoreCodexProtocol(s) => CliActionView::RestoreCodexProtocol(s@),
            CliHelperAction::InstallSystem { request_path, result_path } =>
                CliActionView::InstallSystem {
                    request_path: request_path@,
                    result_path: result_path@,
                },
            CliHelperAction::UpdateSystem { request_path, result_path } =>
                CliActionView::UpdateSystem { request_path: request_path@, result_path: result_path@ },
            CliHelperAction::UninstallSystem { result_path } =>
                CliActionView::UninstallSystem { result_path: result_path@ },
            CliHelperAction::LaunchLatest => CliActionView::LaunchLatest,
        }
    }
}

pub open spec fn arg_views(args: Seq<String>) -> Seq<Seq<char>> {
    args.map_values(|a: String| a@)
}

pub open spec fn parse_result_view(r: Result<Option<CliHelperAction>, ()>) -> Result<
    Option<CliActionView>,
    (),
> {
    match r {
        Ok(Some(a)) => Ok(Some(a@)),
        Ok(None) => Ok(None),
        Err(()) => Err(()),
    }
}

/// The action when exactly `n` words were given, else a rejection.
pub open spec fn exactly(args: Seq<Seq<char>>, n: nat, a: CliActionView) -> Result<
    Option<CliActionView>,
    (),
> {
    if args.len() == n {
        Ok(Some(a))
    } else {
        Err(())
    }
}

/// The word after the flag, when there is one.
pub open spec fn second_is(args: Seq<Seq<char>>, word: Seq<char>) -> bool {
    args.len() >= 2 && args[1] == word
}

/// The helper grammar: no words or an unknown first word is no helper call
/// (`Ok(None)`); a known flag with missing, unknown or extra words is a
/// rejection (`Err`); otherwise the recognised action.
pub open spec fn parse_cli_spec(args: Seq<Seq<char>>) -> Result<Option<CliActionView>, ()> {
    if args.len() == 0 {
        Ok(None)
    } else {
        let f = args[0];
        if f == "--uninstall"@ {
            exactly(args, 1, CliActionView::Uninstall)
        } else if f == "--uninstall-elevated"@ {
            exactly(args, 1, CliActionView::UninstallElevated)
        } else if f == "--delete-installed-version"@ {
            if args.len() == 3 {
                Ok(
                    Some(
                        CliActionView::DeleteInstalledVersion {
                            request_path: args[1],
                            result_path: args[2],
                        },
                    ),
                )
            } else {
                Err(())
            }
        } else if f == "--set-desktop-shortcut"@ {
            if second_is(args, CREATE_ARGUMENT@) {
                exactly(args, 2, CliActionView::SetDesktopShortcut(true))
            } else if second_is(args, REMOVE_ARGUMENT@) {
                exactly(args, 2, CliActionView::SetDesktopShortcut(false))
            } else {
                Err(())
            }
        } else if f == "--set-assistant-desktop-shortcut"@ {
            if second_is(args, CREATE_ARGUMENT@) {
                exactly(args, 2, CliActionView::SetAssistantDesktopShortcut(true))
            } else if second_is(args, REMOVE_ARGUMENT@) {
                exactly(args, 2, CliActionView::SetAssistantDesktopShortcut(false))
            } else {
                Err(())
            }
        } else if f == "--set-codex-protocol"@ {
            let action = if second_is(args, CREATE_ARGUMENT@) {
                Some(CodexProtocolAction::Create)
            } else if second_is(args, REPLACE_ARGUMENT@) {
                Some(CodexProtocolAction::Replace)
            } else if second_is(args, REMOVE_ARGUMENT@) {
                Some(CodexProtocolAction::Remove)
            } else {
                None
            };
            match action {
                Some(action) => if args.len() == 4 {
                    Ok(
                        Some(
                            CliActionView::SetCodexProtocol {
                                action,
                                result_path: args[2],
                                rollback: args[3],
                            },
                        ),
                    )
                } else {
                    Err(())
                },
                None => Err(()),
            }
        } else if f == "--restore-codex-protocol"@ {
            if args.len() == 2 {
                Ok(Some(CliActionView::RestoreCodexProtocol(args[1])))
            } else {
                Err(())
            }
        } else if f == "--install-system"@ {
            if args.len() == 3 {
                Ok(Some(CliActionView::InstallSystem { request_path: args[1], result_path: args[2] }))
            } else {
                Err(())
            }
        } else if f == "--update-system"@ {
            if args.len() == 3 {
                Ok(Some(CliActionView::UpdateSystem { request_path: args[1], result_path: args[2] }))
            } else {
                Err(())
            }
        } else if f == "--uninstall-system"@ {
            if args.len() == 2 {
                Ok(Some(CliActionView::UninstallSystem { result_path: args[1] }))
            } else {
                Err(())
            }
        } else if f == "--launch-latest"@ {
            exactly(args, 1, CliActionView::LaunchLatest)
        } else {
            Ok(None)
        }
    }
}

fn copy_arg(args: &[String], i: usize) -> (r: String)
    requires
        i < args@.len(),
    ensures
        r@ == arg_views(args@)[i as int],
{
    args[i].clone()
}

/// The action when exactly `want` words were given.
fn exactly_exec(n: usize, want: usize, a: CliHelperAction) -> (r: Result<
    Option<CliHelperAction>,
    (),
>)
    ensures
        r == (if n == want {
            Ok(Some(a))
        } else {
            Err::<Option<CliHelperAction>, ()>(())
        }),
{
    if n == want {
        Ok(Some(a))
    } else {
        Err(())
    }
}

/// Whether the word after the flag is `word`.
fn second_is_exec(args: &[String], word: &str) -> (r: bool)
    ensures
        r == second_is(arg_views(args@), word@),
{
    args.len() >= 2 && str_eq(args[1].as_str(), word)
}

/// Recognises a helper invocation among the launcher's arguments (the
/// program name excluded).
pub fn parse_cli_helper(args: &[String]) -> (r: Result<Option<CliHelperAction>, ()>)
    ensures
        parse_result_view(r) == parse_cli_spec(arg_views(args@)),
{
    let ghost a = arg_views(args@);
    let n = args.len();
    if n == 0 {
        return Ok(None);
    }
    let flag = args[0].as_str();
    assert(flag@ == a[0]);
    if str_eq(flag, "--uninstall") {
        exactly_exec(n, 1, CliHelperAction::Uninstall)
    } else if str_eq(flag, "--uninstall-elevated") {
        exactly_exec(n, 1, CliHelperAction::UninstallElevated)
    } else if str_eq(flag, "--delete-installed-version") {
        if n == 3 {
            Ok(
                Some(
                    CliHelperAction::DeleteInstalledVersion {
                        request_path: copy_arg(args, 1),
                        result_path: copy_arg(args, 2),
                    },
                ),
            )
        } else {
            Err(())
        }
    } else if str_eq(flag, "--set-desktop-shortcut") {
        if second_is_exec(args, CREATE_ARGUMENT) {
            exactly_exec(n, 2, CliHelperAction::SetDesktopShortcut(true))
        } else if second_is_exec(args, REMOVE_ARGUMENT) {
            exactly_exec(n, 2, CliHelperAction::SetDesktopShortcut(false))
        } else {
            Err(())
        }
    } else if str_eq(flag, "--set-assistant-desktop-shortcut") {
        if second_is_exec(args, CREATE_ARGUMENT) {
            exactly_exec(n, 2, CliHelperAction::SetAssistantDesktopShortcut(true))
        } else if second_is_exec(args, REMOVE_ARGUMENT) {
            exactly_exec(n, 2, CliHelperAction::SetAssistantDesktopShortcut(false))
        } else {
            Err(())
        }
    } else if str_eq(flag, "--set-codex-protocol") {
        let action = if second_is_exec(args, CREATE_ARGUMENT) {
            Some(CodexProtocolAction::Create)
        } else if second_is_exec(args, REPLACE_ARGUMENT) {
            Some(CodexProtocolAction::Replace)
        } else if second_is_exec(args, REMOVE_ARGUMENT) {
            Some(CodexProtocolAction::Remove)
        } else {
            None
        };
        match action {
            Some(action) => {
                if n == 4 {
                    Ok(
                        Some(
                            CliHelperAction::SetCodexProtocol {
                                action,
                                result_path: copy_arg(args, 2),
                                rollback: copy_arg(args, 3),
                            },
                        ),
                    )
                } else {
                    Err(())
                }
            },
            None => Err(()),
        }
    } else if str_eq(flag, "--restore-codex-protocol") {
        if n == 2 {
            Ok(Some(CliHelperAction::RestoreCodexProtocol(copy_arg(args, 1))))
        } else {
            Err(())
        }
    } else if str_eq(flag, "--install-system") {
        if n == 3 {
            Ok(
                Some(
                    CliHelperAction::InstallSystem {
                        request_path: copy_arg(args, 1),
                        result_path: copy_arg(args, 2),
                    },
                ),
            )
        } else {
            Err(())
        }
    } else if str_eq(flag, "--update-system") {
        if n == 3 {
            Ok(
                Some(
                    CliHelperAction::UpdateSystem {
                        request_path: copy_arg(args, 1),
                        result_path: copy_arg(args, 2),
                    },
                ),
            )
        } else {
            Err(())
        }
    } else if str_eq(flag, "--uninstall-system") {
        if n == 2 {
            Ok(Some(CliHelperAction::UninstallSystem { result_path: copy_arg(args, 1) }))
        } else {
            Err(())
        }
    } else if str_eq(flag, "--launch-latest") {
        exactly_exec(n, 1, CliHelperAction::LaunchLatest)
    } else {
        Ok(None)
    }
}

/// The words that ask for `a` on the helper command line.
pub open spec fn helper_words_spec(a: CliActionView) -> Seq<Seq<char>> {
    match a {
        CliActionView::Uninstall => seq!["--uninstall"@],
        CliActionView::UninstallElevated => seq!["--uninstall-elevated"@],
        CliActionView::DeleteInstalledVersion { request_path, result_path } => seq![
            "--delete-installed-version"@,
            request_path,
            result_path,
        ],
        CliActionView::SetDesktopShortcut(b) => seq![
            "--set-desktop-shortcut"@,
            if b {
                CREATE_ARGUMENT@
            } else {
                REMOVE_ARGUMENT@
            },
        ],
        CliActionView::SetAssistantDesktopShortcut(b) => seq![
            "--set-assistant-desktop-shortcut"@,
            if b {
                CREATE_ARGUMENT@
            } else {
                REMOVE_ARGUMENT@
            },
        ],
        CliActionView::SetCodexProtocol { action, result_path, rollback } => seq![
            "--set-codex-protocol"@,
            action.helper_argument_spec(),
            result_path,
            rollback,
        ],
        CliActionView::RestoreCodexProtocol(payload) => seq!["--restore-codex-protocol"@, payload],
        CliActionView::InstallSystem { request_path, result_path } => seq![
            "--install-system"@,
            request_path,
            result_path,
        ],
        CliActionView::UpdateSystem { request_path, result_path } => seq![
            "--update-system"@,
            request_path,
            result_path,
        ],
        CliActionView::UninstallSystem { result_path } => seq!["--uninstall-system"@, result_path],
        CliActionView::LaunchLatest => seq!["--launch-latest"@],
    }
}

fn words1(a: &str) -> (r: Vec<String>)
    ensures
        arg_views(r@) == seq![a@],
{
    let mut r: Vec<String> = Vec::new();
    r.push(owned(a));
    assert(arg_views(r@) =~= seq![a@]);
    r
}

fn words2(a: &str, b: &str) -> (r: Vec<String>)
    ensures
        arg_views(r@) == seq![a@, b@],
{
    let mut r: Vec<String> = Vec::new();
    r.push(owned(a));
    r.push(owned(b));
    assert(arg_views(r@) =~= seq![a@, b@]);
    r
}

fn words3(a: &str, b: &str, c: &str) -> (r: Vec<String>)
    ensures
        arg_views(r@) == seq![a@, b@, c@],
{
    let mut r: Vec<String> = Vec::new();
    r.push(owned(a));
    r.push(owned(b));
    r.push(owned(c));
    assert(arg_views(r@) =~= seq![a@, b@, c@]);
    r
}

fn create_or_remove(b: bool) -> (r: &'static str)
    ensures
        r@ == (if b {
            CREATE_ARGUMENT@
        } else {
            REMOVE_ARGUMENT@
        }),
{
    if b {
        CREATE_ARGUMENT
    } else {
        REMOVE_ARGUMENT
    }
}

/// The words of the helper command line for `a` (the program excluded).
pub fn helper_words(a: &CliHelperAction) -> (r: Vec<String>)
    ensures
        arg_views(r@) == helper_words_spec(a@),
{
    match a {
        CliHelperAction::Uninstall => words1("--uninstall"),
        CliHelperAction::UninstallElevated => words1("--uninstall-elevated"),
        CliHelperAction::DeleteInstalledVersion { request_path, result_path } => words3(
            "--delete-installed-version",
            request_path.as_str(),
            result_path.as_str(),
        ),
        CliHelperAction::SetDesktopShortcut(b) => words2(
            "--set-desktop-shortcut",
            create_or_remove(*b),
        ),
        CliHelperAction::SetAssistantDesktopShortcut(b) => words2(
            "--set-assistant-desktop-shortcut",
            create_or_remove(*b),
        ),
        CliHelperAction::SetCodexProtocol { action, result_path, rollback } => {
            let mut r = words2("--set-codex-protocol", action.helper_argument());
            let ghost w2 = arg_views(r@);
            r.push(result_path.clone());
            assert(arg_views(r@) =~= w2.push(result_path@));
            let ghost w3 = arg_views(r@);
            r.push(rollback.clone());
            assert(arg_views(r@) =~= w3.push(rollback@));
            assert(arg_views(r@) =~= helper_words_spec(a@));
            r
        },
        CliHelperAction::RestoreCodexProtocol(payload) => words2(
            "--restore-codex-protocol",
            payload.as_str(),
        ),
        CliHelperAction::InstallSystem { request_path, result_path } => words3(
            "--install-system",
            request_path.as_str(),
            result_path.as_str(),
        ),
        CliHelperAction::UpdateSystem { request_path, result_path } => words3(
            "--update-system",
            request_path.as_str(),
            result_path.as_str(),
        ),
        CliHelperAction::UninstallSystem { result_path } => words2(
            "--uninstall-system",
            result_path.as_str(),
        ),
        CliHelperAction::LaunchLatest => words1("--launch-latest"),
    }
}

/// The helper command line for `a` as one string, words separated by
/// single spaces and file paths quoted.
pub open spec fn helper_line_spec(a: CliActionView) -> Seq<char> {
    match a {
        CliActionView::DeleteInstalledVersion { request_path, result_path } =>
            "--delete-installed-version "@ + quote_cli_path_spec(request_path) + " "@
                + quote_cli_path_spec(result_path),
        CliActionView::SetCodexProtocol { action, result_path, rollback } => "--set-codex-protocol "@
            + action.helper_argument_spec() + " "@ + quote_cli_path_spec(result_path) + " "@
            + rollback,
        CliActionView::InstallSystem { request_path, result_path } => "--install-system "@
            + quote_cli_path_spec(request_path) + " "@ + quote_cli_path_spec(result_path),
        CliActionView::UpdateSystem { request_path, result_path } => "--update-system "@
            + quote_cli_path_spec(request_path) + " "@ + quote_cli_path_spec(result_path),
        CliActionView::UninstallSystem { result_path } => "--uninstall-system "@
            + quote_cli_path_spec(result_path),
        CliActionView::Uninstall => "--uninstall"@,
        CliActionView::UninstallElevated => "--uninstall-elevated"@,
        CliActionView::SetDesktopShortcut(b) => "--set-desktop-shortcut "@ + if b {
            CREATE_ARGUMENT@
        } else {
            REMOVE_ARGUMENT@
        },
        CliActionView::SetAssistantDesktopShortcut(b) => "--set-assistant-desktop-shortcut "@ + if b {
            CREATE_ARGUMENT@
        } else {
            REMOVE_ARGUMENT@
        },
        CliActionView::RestoreCodexProtocol(payload) => "--restore-codex-protocol "@ + payload,
        CliActionView::LaunchLatest => "--launch-latest"@,
    }
}

fn append_quoted(line: &mut String, path: &str)
    ensures
        final(line)@ == old(line)@ + quote_cli_path_spec(path@),
{
    let q = quote_cli_path(path);
    line.append(q.as_str());
}

/// The helper command line for `a`, as handed to the elevation prompt.
pub fn helper_command_line(a: &CliHelperAction) -> (r: String)
    ensures
        r@ == helper_line_spec(a@),
{
    match a {
        CliHelperAction::DeleteInstalledVersion { request_path, result_path } => {
            let mut r = owned("--delete-installed-version ");
            append_quoted(&mut r, request_path.as_str());
            r.append(" ");
            append_quoted(&mut r, result_path.as_str());
            r
        },
        CliHelperAction::SetCodexProtocol { action, result_path, rollback } => {
            let mut r = owned("--set-codex-protocol ");
            r.append(action.helper_argument());
            r.append(" ");
            append_quoted(&mut r, result_path.as_str());
            r.append(" ");
            r.append(rollback.as_str());
            r
        },
        CliHelperAction::InstallSystem { request_path, result_path } => {
            let mut r = owned("--install-system ");
            append_quoted(&mut r, request_path.as_str());
            r.append(" ");
            append_quoted(&mut r, result_path.as_str());
            r
        },
        CliHelperAction::UpdateSystem { request_path, result_path } => {
            let mut r = owned("--update-system ");
            append_quoted(&mut r, request_path.as_str());
            r.append(" ");
            append_quoted(&mut r, result_path.as_str());
            r
        },
        CliHelperAction::UninstallSystem { result_path } => {
            let mut r = owned("--uninstall-system ");
            append_quoted(&mut r, result_path.as_str());
            r
        },
        CliHelperAction::Uninstall => owned("--uninstall"),
        CliHelperAction::UninstallElevated => owned("--uninstall-elevated"),
        CliHelperAction::SetDesktopShortcut(b) => {
            let mut r = owned("--set-desktop-shortcut ");
            r.append(create_or_remove(*b));
            r
        },
        CliHelperAction::SetAssistantDesktopShortcut(b) => {
            let mut r = owned("--set-assistant-desktop-shortcut ");
            r.append(create_or_remove(*b));
            r
        },
        CliHelperAction::RestoreCodexProtocol(payload) => {
            let mut r = owned("--restore-codex-protocol ");
            r.append(payload.as_str());
            r
        },
        CliHelperAction::LaunchLatest => owned("--launch-latest"),
    }
}

/// The largest hexadecimal rollback payload put on a command line.
pub const MAX_ROLLBACK_HEX_BYTES: usize = 24000;

/// Whether an encoded rollback payload is small enough for the command line.
pub fn rollback_payload_fits(encoded: &str) -> (r: bool)
    ensures
        r == (encoded.spec_bytes().len() as usize <= MAX_ROLLBACK_HEX_BYTES),
{
    encoded.len() <= MAX_ROLLBACK_HEX_BYTES
}

/// The lengths of the helper flags and action words, which tell them apart.
proof fn lemma_helper_words_distinct()
    ensures
        "--uninstall"@.len() == 11,
        "--uninstall-elevated"@.len() == 20,
        "--delete-installed-version"@.len() == 26,
        "--set-desktop-shortcut"@.len() == 22,
        "--set-assistant-desktop-shortcut"@.len() == 32,
        "--set-codex-protocol"@.len() == 20,
        "--restore-codex-protocol"@.len() == 24,
        "--install-system"@.len() == 16,
        "--update-system"@.len() == 15,
        "--uninstall-system"@.len() == 18,
        "--launch-latest"@.len() == 15,
        "--uninstall-elevated"@ != "--set-codex-protocol"@,
        "--update-system"@ != "--launch-latest"@,
        CREATE_ARGUMENT@.len() == 6,
        REPLACE_ARGUMENT@.len() == 7,
        REMOVE_ARGUMENT@.len() == 6,
        CREATE_ARGUMENT@ != REMOVE_ARGUMENT@,
{
    reveal_strlit("--uninstall");
    reveal_strlit("--uninstall-elevated");
    reveal_strlit("--delete-installed-version");
    reveal_strlit("--set-desktop-shortcut");
    reveal_strlit("--set-assistant-desktop-shortcut");
    reveal_strlit("--set-codex-protocol");
    reveal_strlit("--restore-codex-protocol");
    reveal_strlit("--install-system");
    reveal_strlit("--update-system");
    reveal_strlit("--uninstall-system");
    reveal_strlit("--launch-latest");
    reveal_strlit("create");
    reveal_strlit("replace");
    reveal_strlit("remove");
    assert("--uninstall-elevated"@[2] != "--set-codex-protocol"@[2]);
    assert("--update-system"@[2] != "--launch-latest"@[2]);
    assert(CREATE_ARGUMENT@[0] != REMOVE_ARGUMENT@[0]);
}

/// Every helper invocation the launcher writes is read back as the same
/// action.
pub proof fn law_helper_words_parse_back(a: CliActionView)
    ensures
        parse_cli_spec(helper_words_spec(a)) == Ok::<Option<CliActionView>, ()>(Some(a)),
{
    lemma_helper_words_distinct();
}

pub open spec fn quote_cli_path_spec(path: Seq<char>) -> Seq<char> {
    seq!['"'] + path + seq!['"']
}

/// A path as one double-quoted word of a helper command line.
pub fn quote_cli_path(path: &str) -> (r: String)
    ensures
        r@ == quote_cli_path_spec(path@),
{
    let mut out = String::new();
    push_char(&mut out, '"');
    let ghost start = out@;
    let n = path.unicode_len();
    let mut i: usize = 0;
    while i < n
        invariant
            n == path@.len(),
            i <= n,
            start == seq!['"'],
            out@ == start + path@.subrange(0, i as int),
        decreases n - i,
    {
        push_char(&mut out, path.get_char(i));
        i = i + 1;
        assert(out@ =~= start + path@.subrange(0, i as int));
    }
    push_char(&mut out, '"');
    assert(path@.subrange(0, n as int) =~= path@);
    assert(out@ =~= quote_cli_path_spec(path@));
    out
}

// ---------------------------------------------------------------------------
// Hexadecimal transport
// ---------------------------------------------------------------------------

pub const HEX_LENGTH_ERROR: &'static str = "codex:// 回滚数据长度无效";

pub const HEX_CHARACTER_ERROR: &'static str = "codex:// 回滚数据包含无效字符";

/// The value of one hexadecimal digit byte (either case).
pub open spec fn hex_value(b: u8) -> Option<u8> {
    if 48 <= b <= 57 {
        Some((b - 48) as u8)
    } else if 97 <= b <= 102 {
        Some((b - 87) as u8)
    } else if 65 <= b <= 70 {
        Some((b - 55) as u8)
    } else {
        None
    }
}

pub open spec fn all_hex(s: Seq<u8>) -> bool {
    forall|i: int| 0 <= i < s.len() ==> #[trigger] hex_value(s[i]) is Some
}

/// The byte spelled by the digits at `2 * i` and `2 * i + 1`.
pub open spec fn pair_value(s: Seq<u8>, i: int) -> u8 {
    (hex_value(s[2 * i]).unwrap() * 16 + hex_value(s[2 * i + 1]).unwrap()) as u8
}

pub open spec fn decode_pairs(s: Seq<u8>) -> Seq<u8> {
    Seq::new(s.len() / 2, |i: int| pair_value(s, i))
}

/// Decoding the bytes of a hexadecimal text: an odd length, then any
/// non-digit, is refused.
pub open spec fn hex_decode_spec(s: Seq<u8>) -> Result<Seq<u8>, Seq<char>> {
    if s.len() % 2 != 0 {
        Err(HEX_LENGTH_ERROR@)
    } else if !all_hex(s) {
        Err(HEX_CHARACTER_ERROR@)
    } else {
        Ok(decode_pairs(s))
    }
}

fn hex_digit(b: u8) -> (r: Option<u8>)
    ensures
        r == hex_value(b),
{
    if 48 <= b && b <= 57 {
        Some(b - 48)
    } else if 97 <= b && b <= 102 {
        Some(b - 87)
    } else if 65 <= b && b <= 70 {
        Some(b - 55)
    } else {
        None
    }
}

/// Decodes a hexadecimal rollback payload into its bytes.
pub fn hex_decode(encoded: &str) -> (r: Result<Vec<u8>, String>)
    ensures
        match r {
            Ok(v) => hex_decode_spec(encoded.spec_bytes()) == Ok::<Seq<u8>, Seq<char>>(v@),
            Err(e) => hex_decode_spec(encoded.spec_bytes()) == Err::<Seq<u8>, Seq<char>>(e@),
        },
{
    let bytes = encoded.as_bytes();
    let ghost s = encoded.spec_bytes();
    let n = bytes.len();
    if n % 2 != 0 {
        return Err(owned(HEX_LENGTH_ERROR));
    }
    let mut out: Vec<u8> = Vec::new();
    let mut i: usize = 0;
    while i < n / 2
        invariant
            bytes@ == s,
            s == encoded.spec_bytes(),
            n == s.len(),
            n % 2 == 0,
            i <= n / 2,
            out@.len() == i,
            forall|k: int| 0 <= k < 2 * i ==> #[trigger] hex_value(s[k]) is Some,
            forall|k: int| 0 <= k < i ==> #[trigger] out@[k] == pair_value(s, k),
        decreases n / 2 - i,
    {
        let high = hex_digit(bytes[2 * i]);
        let low = hex_digit(bytes[2 * i + 1]);
        match (high, low) {
            (Some(h), Some(l)) => {
                assert(h < 16 && l < 16);
                out.push(h * 16 + l);
                assert forall|k: int| 0 <= k < 2 * (i + 1) implies #[trigger] hex_value(
                    s[k],
                ) is Some by {
                    if k < 2 * i {
                    } else if k == 2 * i {
                    } else {
                        assert(k == 2 * i + 1);
                    }
                }
                i = i + 1;
            },
            _ => {
                proof {
                    if high is None {
                        assert(!(hex_value(s[2 * i as int]) is Some));
                    } else {
                        assert(!(hex_value(s[2 * i + 1]) is Some));
                    }
                    assert(!all_hex(s));
                }
                return Err(owned(HEX_CHARACTER_ERROR));
            },
        }
    }
    assert(all_hex(s));
    assert(out@ =~= decode_pairs(s));
    Ok(out)
}

/// The lowercase digit for a value below sixteen.
pub open spec fn nibble_char(v: int) -> char {
    if v < 10 {
        (48 + v) as char
    } else {
        (87 + v) as char
    }
}

/// Two lowercase digits per byte, high digit first.
pub open spec fn hex_chars(b: Seq<u8>) -> Seq<char> {
    Seq::new(
        2 * b.len(),
        |i: int|
            if i % 2 == 0 {
                nibble_char((b[i / 2] / 16) as int)
            } else {
                nibble_char((b[i / 2] % 16) as int)
            },
    )
}

fn nibble(v: u8) -> (c: char)
    requires
        v < 16,
    ensures
        c == nibble_char(v as int),
{
    if v < 10 {
        ((48 + v) as char)
    } else {
        ((87 + v) as char)
    }
}

/// Encodes bytes as lowercase hexadecimal text.
pub fn hex_encode(bytes: &[u8]) -> (s: String)
    ensures
        s@ == hex_chars(bytes@),
{
    let mut s = String::new();
    let n = bytes.len();
    let mut i: usize = 0;
    while i < n
        invariant
            n == bytes@.len(),
            i <= n,
            s@ == hex_chars(bytes@.subrange(0, i as int)),
        decreases n - i,
    {
        let b = bytes[i];
        let ghost before = s@;
        push_char(&mut s, nibble(b / 16));
        push_char(&mut s, nibble(b % 16));
        i = i + 1;
        assert(s@ =~= hex_chars(bytes@.subrange(0, i as int))) by {
            let p = bytes@.subrange(0, i as int);
            assert forall|k: int| 0 <= k < s@.len() implies s@[k] == hex_chars(p)[k] by {
                if k < 2 * (i - 1) {
                    assert(before[k] == hex_chars(bytes@.subrange(0, i - 1))[k]);
                    assert(p[k / 2] == bytes@.subrange(0, i - 1)[k / 2]);
                }
            }
        }
    }
    assert(bytes@.subrange(0, n as int) =~= bytes@);
    s
}

/// Decoding what was encoded gives the bytes back.
pub proof fn law_hex_round_trip(b: Seq<u8>)
    ensures
        hex_decode_spec(vstd::utf8::encode_utf8(hex_chars(b))) == Ok::<Seq<u8>, Seq<char>>(b),
{
    let c = hex_chars(b);
    assert(vstd::utf8::is_ascii_chars(c)) by {
        assert forall|i: int| 0 <= i < c.len() implies '\0' <= #[trigger] c[i] <= '\u{7f}' by {
            let v = if i % 2 == 0 {
                b[i / 2] / 16
            } else {
                b[i / 2] % 16
            };
            assert(0 <= v < 16);
        }
    }
    vstd::utf8::is_ascii_chars_encode_utf8(c);
    let s = vstd::utf8::encode_utf8(c);
    assert(s.len() == 2 * b.len());
    assert forall|i: int| 0 <= i < s.len() implies #[trigger] hex_value(s[i]) == Some(
        (if i % 2 == 0 {
            b[i / 2] / 16
        } else {
            b[i / 2] % 16
        }) as u8,
    ) by {
        assert(c[i] as u8 == s[i]);
        let v = if i % 2 == 0 {
            b[i / 2] / 16
        } else {
            b[i / 2] % 16
        };
        assert(0 <= v < 16);
    }
    assert(s.len() % 2 == 0);
    assert(all_hex(s));
    assert forall|j: int| 0 <= j < b.len() implies #[trigger] pair_value(s, j) == b[j] by {
        assert(hex_value(s[2 * j]) == Some((b[j] / 16) as u8));
        assert(hex_value(s[2 * j + 1]) == Some((b[j] % 16) as u8));
        assert((2 * j + 1) / 2 == j);
        assert((2 * j) / 2 == j);
        let x = b[j];
        assert((x / 16) * 16 + x % 16 == x) by (nonlinear_arith);
    }
    assert(decode_pairs(s) =~= b);
}

} // verus!
