//! Shortcut names, where they live, and when an existing `.lnk` counts as
//! one this launcher created. Resolving known folders and reading or
//! writing `.lnk` files is done by the shell.

use crate::config::{opt_text, InstallMode};
use crate::text::{
    ascii_lower, map_char, replace_char, str_eq, to_ascii_lowercase, trim, trim_end_char,
    trim_end_matches_char, trim_str,
};
use crate::versions::{join_path, join_spec};
use vstd::prelude::*;

verus! {

pub const SHORTCUT_NAME: &'static str = "Codex Windows 中文助手.lnk";

pub const LEGACY_SHORTCUT_NAME: &'static str = "Codex.lnk";

pub const DESKTOP_SHORTCUT_NAME: &'static str = "ChatGPT.lnk";

pub const LEGACY_DESKTOP_SHORTCUT_NAME: &'static str = "ChatGPT（中文助手）.lnk";

pub const ASSISTANT_DESKTOP_SHORTCUT_NAME: &'static str = "Codex Windows 中文助手.lnk";

/// Shell known folders the shortcuts live in.
#[derive(Debug, Clone, Copy, PartialEq, Eq, Structural)]
pub enum KnownFolder {
    StartMenu,
    CommonStartMenu,
    Desktop,
    PublicDesktop,
}

/// What the shell read from an existing `.lnk` file: its stored target and
/// arguments, and the target's canonical path when the shell could resolve it.
#[derive(Debug, Clone)]
pub struct ShortcutInfo {
    pub target: String,
    pub arguments: String,
    pub target_canonical: Option<String>,
}

/// The Start Menu folder for a mode; portable installs get no Start Menu shortcut.
pub fn start_menu_folder(mode: InstallMode) -> (r: Option<KnownFolder>)
    ensures
        r == (match mode {
            InstallMode::Portable => None,
            InstallMode::User => Some(KnownFolder::StartMenu),
            InstallMode::System => Some(KnownFolder::CommonStartMenu),
        }),
{
    match mode {
        InstallMode::Portable => None,
        InstallMode::User => Some(KnownFolder::StartMenu),
        InstallMode::System => Some(KnownFolder::CommonStartMenu),
    }
}

/// The desktop for a mode: the user's own desktop, or the public one for
/// system installs.
pub fn desktop_folder(mode: InstallMode) -> (r: KnownFolder)
    ensures
        r == (if mode == InstallMode::System {
            KnownFolder::PublicDesktop
        } else {
            KnownFolder::Desktop
        }),
{
    match mode {
        InstallMode::Portable | InstallMode::User => KnownFolder::Desktop,
        InstallMode::System => KnownFolder::PublicDesktop,
    }
}

pub open spec fn start_menu_link_spec(mode: InstallMode, start_menu: Seq<char>, name: Seq<char>) -> Option<
    Seq<char>,
> {
    if mode == InstallMode::Portable {
        None
    } else {
        Some(join_spec(join_spec(start_menu, "Programs"@), name))
    }
}

fn start_menu_link(mode: InstallMode, start_menu: &str, name: &str) -> (r: Option<String>)
    ensures
        match r {
            Some(p) => start_menu_link_spec(mode, start_menu@, name@) == Some(p@),
            None => start_menu_link_spec(mode, start_menu@, name@) is None,
        },
{
    match mode {
        InstallMode::Portable => None,
        _ => {
            let programs = join_path(start_menu, "Programs");
            Some(join_path(programs.as_str(), name))
        },
    }
}

/// `<StartMenu>\Programs\Codex Windows 中文助手.lnk` for `mode`, where
/// `start_menu` is the resolved Start Menu folder; none for portable installs.
pub fn link_path(mode: InstallMode, start_menu: &str) -> (r: Option<String>)
    ensures
        match r {
            Some(p) => start_menu_link_spec(mode, start_menu@, SHORTCUT_NAME@) == Some(p@),
            None => start_menu_link_spec(mode, start_menu@, SHORTCUT_NAME@) is None,
        },
{
    start_menu_link(mode, start_menu, SHORTCUT_NAME)
}

/// The pre-rename Start Menu shortcut `<StartMenu>\Programs\Codex.lnk`.
pub fn legacy_link_path(mode: InstallMode, start_menu: &str) -> (r: Option<String>)
    ensures
        match r {
            Some(p) => start_menu_link_spec(mode, start_menu@, LEGACY_SHORTCUT_NAME@) == Some(p@),
            None => start_menu_link_spec(mode, start_menu@, LEGACY_SHORTCUT_NAME@) is None,
        },
{
    start_menu_link(mode, start_menu, LEGACY_SHORTCUT_NAME)
}

/// The direct-launch ChatGPT shortcut on `desktop`.
pub fn desktop_link_path(desktop: &str) -> (r: String)
    ensures
        r@ == join_spec(desktop@, DESKTOP_SHORTCUT_NAME@),
{
    join_path(desktop, DESKTOP_SHORTCUT_NAME)
}

/// The pre-rename direct-launch shortcut on `desktop`.
pub fn legacy_desktop_link_path(desktop: &str) -> (r: String)
    ensures
        r@ == join_spec(desktop@, LEGACY_DESKTOP_SHORTCUT_NAME@),
{
    join_path(desktop, LEGACY_DESKTOP_SHORTCUT_NAME)
}

/// The shortcut that opens this assistant, on `desktop`.
pub fn assistant_desktop_link_path(desktop: &str) -> (r: String)
    ensures
        r@ == join_spec(desktop@, ASSISTANT_DESKTOP_SHORTCUT_NAME@),
{
    join_path(desktop, ASSISTANT_DESKTOP_SHORTCUT_NAME)
}

/// A path text reduced for comparison: `/` becomes `\`, trailing `\` are
/// dropped, ASCII letters are lowercased.
pub open spec fn shortcut_normalized(path: Seq<char>) -> Seq<char> {
    ascii_lower(trim_end_char(map_char(path, '/', '\\'), '\\'))
}

/// Two paths name the same file: when both canonical forms are known they
/// are compared, otherwise the normalized texts are.
pub open spec fn same_path_spec(
    left: Seq<char>,
    right: Seq<char>,
    left_canonical: Option<Seq<char>>,
    right_canonical: Option<Seq<char>>,
) -> bool {
    match (left_canonical, right_canonical) {
        (Some(a), Some(b)) => a == b,
        _ => shortcut_normalized(left) == shortcut_normalized(right),
    }
}

/// Case-insensitive comparison of two path texts.
pub fn normalized_paths_equal(left: &str, right: &str) -> (r: bool)
    ensures
        r == (shortcut_normalized(left@) == shortcut_normalized(right@)),
{
    let a = to_ascii_lowercase(
        trim_end_matches_char(replace_char(left, '/', '\\').as_str(), '\\').as_str(),
    );
    let b = to_ascii_lowercase(
        trim_end_matches_char(replace_char(right, '/', '\\').as_str(), '\\').as_str(),
    );
    str_eq(a.as_str(), b.as_str())
}

/// Whether two paths name the same file, given the canonical forms the
/// shell could resolve (`None` where resolving failed).
pub fn paths_equal(
    left: &str,
    right: &str,
    left_canonical: &Option<String>,
    right_canonical: &Option<String>,
) -> (r: bool)
    ensures
        r == same_path_spec(left@, right@, opt_text(*left_canonical), opt_text(*right_canonical)),
{
    match (left_canonical, right_canonical) {
        (Some(a), Some(b)) => str_eq(a.as_str(), b.as_str()),
        _ => normalized_paths_equal(left, right),
    }
}

pub open spec fn is_owned_spec(
    link: Option<ShortcutInfo>,
    target_exe: Seq<char>,
    target_exe_canonical: Option<Seq<char>>,
    arguments: Seq<char>,
) -> bool {
    match link {
        None => false,
        Some(info) => same_path_spec(
            info.target@,
            target_exe,
            opt_text(info.target_canonical),
            target_exe_canonical,
        ) && trim(info.arguments@) == arguments,
    }
}

/// Whether a shortcut (`None` when no such file exists) was created by this
/// launcher: it targets `target_exe` (canonical form `target_exe_canonical`
/// when resolvable) with exactly `arguments`.
pub fn is_owned(
    link: &Option<ShortcutInfo>,
    target_exe: &str,
    target_exe_canonical: &Option<String>,
    arguments: &str,
) -> (r: bool)
    ensures
        r == is_owned_spec(*link, target_exe@, opt_text(*target_exe_canonical), arguments@),
{
    match link {
        None => false,
        Some(info) => {
            let same_target = paths_equal(
                info.target.as_str(),
                target_exe,
                &info.target_canonical,
                target_exe_canonical,
            );
            let actual = trim_str(info.arguments.as_str());
            same_target && str_eq(actual.as_str(), arguments)
        },
    }
}

} // verus!
