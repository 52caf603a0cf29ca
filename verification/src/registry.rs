//! Ownership rules for the `codex://` URL protocol registration and the
//! Add/Remove Programs entry.
//!
//! The shell reads the registry into an [`ExistingProtocol`], asks this
//! module what to do, and performs the write or delete it is told to.
//! Paths are compared in their canonical form where the shell could
//! resolve them on disk, and as their own text otherwise, after
//! normalizing separators, a `\\?\` prefix, trailing separators and ASCII
//! case. The install root, the stored install root and the shell's effective
//! handler are used only in comparisons, so the shell hands them over
//! already canonicalized where they resolve; the handler and the stored
//! command are also written or compared as text, so their canonical forms
//! come alongside (`HandlerFacts::canonical`,
//! `ExistingProtocol::command_executable_canonical`).

use crate::config::{opt_text, InstallMode};
use crate::text::{
    ascii_lower, find, find_chars, find_from, is_whitespace, lemma_trim_end_at,
    lemma_trim_start_at, trim_end, trim_start, has_prefix, lemma_split_nonempty, map_char, owned, replace_char,
    split, split_chars, str_eq, string_from_chars, to_ascii_lowercase, to_chars, trim,
    trim_end_char, trim_end_matches_char, trim_start_matches_str, trim_start_seq, trim_str,
};
use vstd::prelude::*;

verus! {

pub const UNINSTALL_SUBKEY: &'static str =
    "Software\\Microsoft\\Windows\\CurrentVersion\\Uninstall\\CodexUnofficialUpdater";

pub const PROTOCOL_OWNER_ID: &'static str = "chrichuang218/codex-windows-cn";

pub const PROTOCOL_OWNER_VALUE: &'static str = "CodexWindowsCnOwner";

pub const PROTOCOL_INSTALL_ROOT_VALUE: &'static str = "CodexWindowsCnInstallRoot";

#[derive(Debug, Clone, Copy, PartialEq, Eq, Structural)]
pub enum ProtocolRegistration {
    Created,
    Refreshed,
    Unchanged,
    PreservedForeign,
}

#[derive(Debug, Clone, Copy, PartialEq, Eq, Structural)]
pub enum ProtocolRemoval {
    Removed,
    NotFound,
    PreservedForeign,
}

#[derive(Debug, Clone, Copy, PartialEq, Eq, Structural)]
pub enum CodexProtocolStatus {
    Missing,
    Ready,
    NeedsRepair,
    OtherOwner,
}

/// Which registry hive an install mode writes to.
#[derive(Debug, Clone, Copy, PartialEq, Eq, Structural)]
pub enum Hive {
    CurrentUser,
    LocalMachine,
}

/// The values written under the protocol key for a handler executable.
#[derive(Debug, Clone)]
pub struct ProtocolValues {
    pub command: String,
    pub icon: String,
}

/// What the registry currently holds under the protocol key: the owner
/// marker, the stored install root (canonicalized where it resolves), the
/// command line, and the canonical path of the command's executable when it
/// resolves.
#[derive(Debug, Clone)]
pub struct ExistingProtocol {
    pub key_exists: bool,
    pub owner: Option<String>,
    pub install_root: Option<String>,
    pub command: Option<String>,
    pub command_executable_canonical: Option<String>,
}

pub struct ExistingView {
    pub key_exists: bool,
    pub owner: Option<Seq<char>>,
    pub install_root: Option<Seq<char>>,
    pub command: Option<Seq<char>>,
    pub command_executable_canonical: Option<Seq<char>>,
}

impl View for ExistingProtocol {
    type V = ExistingView;

    open spec fn view(&self) -> ExistingView {
        ExistingView {
            key_exists: self.key_exists,
            owner: opt_text(self.owner),
            install_root: opt_text(self.install_root),
            command: opt_text(self.command),
            command_executable_canonical: opt_text(self.command_executable_canonical),
        }
    }
}

/// Facts the shell observed about the handler executable on disk, with its
/// canonical path when it resolves.
#[derive(Debug, Clone)]
pub struct HandlerFacts {
    pub is_absolute: bool,
    pub is_file: bool,
    pub canonical: Option<String>,
}

/// What to do to the protocol key.
#[derive(Debug, Clone, Copy, PartialEq, Eq, Structural)]
pub enum ProtocolPlan {
    /// Leave the registry alone and report this outcome.
    Done(ProtocolRegistration),
    /// Write the desired values (deleting the existing key first when
    /// `replace_existing`), notify the shell, then report `outcome`.
    Write { replace_existing: bool, outcome: ProtocolRegistration },
}

/// Registry location of a URL scheme's class key.
#[derive(Debug, Clone)]
pub struct ProtocolRegistryLocation {
    pub scheme: String,
    pub subkey: String,
}

// ---------------------------------------------------------------------------
// Specifications
// ---------------------------------------------------------------------------

pub open spec fn owner_id() -> Seq<char> {
    "chrichuang218/codex-windows-cn"@
}

pub open spec fn command_spec(executable: Seq<char>) -> Seq<char> {
    "\""@ + executable + "\" \"%1\""@
}

pub open spec fn icon_spec(executable: Seq<char>) -> Seq<char> {
    "\""@ + executable + "\",0"@
}

/// A path text reduced for comparison: `/` becomes `\`, any `\\?\`
/// prefix and trailing `\` are dropped, ASCII letters are lowercased.
pub open spec fn normalized_spec(path: Seq<char>) -> Seq<char> {
    ascii_lower(trim_end_char(trim_start_seq(map_char(path, '/', '\\'), "\\\\?\\"@), '\\'))
}

pub open spec fn paths_equal_spec(a: Seq<char>, b: Seq<char>) -> bool {
    normalized_spec(a) == normalized_spec(b)
}

/// The executable of a `"<exe>" "%1"` command line.
pub open spec fn command_executable_spec(command: Seq<char>) -> Option<Seq<char>> {
    let c = trim(command);
    if c.len() > 0 && c[0] == '"' {
        let q = c.drop_first();
        match find(q, "\""@) {
            Some(end) => if trim(q.subrange(end + 1, q.len() as int)) == "\"%1\""@ {
                Some(q.subrange(0, end))
            } else {
                None
            },
            None => None,
        }
    } else {
        None
    }
}

/// The form a path is compared in: its canonical path when the shell could
/// resolve it, its own text otherwise, normalized.
pub open spec fn compare_form(text: Seq<char>, canonical: Option<Seq<char>>) -> Seq<char> {
    match canonical {
        Some(c) => normalized_spec(c),
        None => normalized_spec(text),
    }
}

/// The normalized `exe` is `<root>\versions\<version>\{chatgpt,codex}.exe`
/// for the normalized `root`.
pub open spec fn belongs_form(root: Seq<char>, exe: Seq<char>) -> bool {
    let prefix = root + "\\versions\\"@;
    if has_prefix(exe, prefix) {
        let parts = split(exe.skip(prefix.len() as int), '\\');
        parts.len() == 2 && parts[0].len() > 0 && (parts[1] == "chatgpt.exe"@ || parts[1]
            == "codex.exe"@)
    } else {
        false
    }
}

/// `executable` is `<install_root>\versions\<version>\{chatgpt,codex}.exe`.
pub open spec fn belongs_spec(install_root: Seq<char>, executable: Seq<char>) -> bool {
    belongs_form(normalized_spec(install_root), normalized_spec(executable))
}

/// `executable`, with canonical form `canonical` when it resolves, is a
/// version entrypoint of the install at `install_root`.
pub open spec fn resolved_belongs(
    install_root: Seq<char>,
    executable: Seq<char>,
    canonical: Option<Seq<char>>,
) -> bool {
    belongs_form(normalized_spec(install_root), compare_form(executable, canonical))
}

pub open spec fn foreign_marker(e: ExistingView, root: Seq<char>) -> bool {
    ||| (e.owner is Some && e.owner->0 != owner_id())
    ||| (e.install_root is Some && !paths_equal_spec(e.install_root->0, root))
}

pub open spec fn marker_owned(e: ExistingView, root: Seq<char>) -> bool {
    e.owner == Some(owner_id()) && e.install_root is Some && paths_equal_spec(
        e.install_root->0,
        root,
    )
}

pub open spec fn owned_command(e: ExistingView, root: Seq<char>) -> bool {
    e.command is Some && command_executable_spec(e.command->0) is Some && resolved_belongs(
        root,
        command_executable_spec(e.command->0)->0,
        e.command_executable_canonical,
    )
}

pub open spec fn classify_spec(
    e: ExistingView,
    root: Seq<char>,
    desired_command: Seq<char>,
) -> CodexProtocolStatus {
    if !e.key_exists {
        CodexProtocolStatus::Missing
    } else if foreign_marker(e, root) {
        CodexProtocolStatus::OtherOwner
    } else if !owned_command(e, root) {
        if e.command is None && marker_owned(e, root) {
            CodexProtocolStatus::NeedsRepair
        } else {
            CodexProtocolStatus::OtherOwner
        }
    } else if marker_owned(e, root) && e.command == Some(desired_command) {
        CodexProtocolStatus::Ready
    } else {
        CodexProtocolStatus::NeedsRepair
    }
}

pub open spec fn is_owned_spec(e: ExistingView, root: Seq<char>) -> bool {
    if foreign_marker(e, root) {
        false
    } else {
        match e.command {
            Some(c) => command_executable_spec(c) is Some && resolved_belongs(
                root,
                command_executable_spec(c)->0,
                e.command_executable_canonical,
            ),
            None => marker_owned(e, root),
        }
    }
}

pub open spec fn handler_error(root: Seq<char>, handler: Seq<char>, facts: HandlerFacts) -> Option<
    Seq<char>,
> {
    if !facts.is_absolute {
        Some("protocol handler must be an absolute path: "@ + handler)
    } else if !facts.is_file {
        Some("protocol handler does not exist: "@ + handler)
    } else if !resolved_belongs(root, handler, opt_text(facts.canonical)) {
        Some("protocol handler is outside the managed versions directory: "@ + handler)
    } else {
        None
    }
}

pub open spec fn effective_view(r: Result<Option<String>, String>) -> Result<
    Option<Seq<char>>,
    Seq<char>,
> {
    match r {
        Ok(o) => Ok(opt_text(o)),
        Err(e) => Err(e@),
    }
}

/// What registering the protocol for `handler` does.
pub open spec fn register_plan_spec(
    e: ExistingView,
    root: Seq<char>,
    handler: Seq<char>,
    facts: HandlerFacts,
    effective: Result<Option<Seq<char>>, Seq<char>>,
    replace_foreign: bool,
) -> Result<ProtocolPlan, Seq<char>> {
    match handler_error(root, handler, facts) {
        Some(message) => Err(message),
        None => {
            let status = classify_spec(e, root, command_spec(handler));
            if status == CodexProtocolStatus::Ready {
                Ok(ProtocolPlan::Done(ProtocolRegistration::Unchanged))
            } else if status == CodexProtocolStatus::OtherOwner && !replace_foreign {
                Ok(ProtocolPlan::Done(ProtocolRegistration::PreservedForeign))
            } else if status == CodexProtocolStatus::Missing && effective is Err {
                Err(effective->Err_0)
            } else if status == CodexProtocolStatus::Missing && effective->Ok_0 is Some
                && !belongs_spec(root, effective->Ok_0->0) && !replace_foreign {
                Ok(ProtocolPlan::Done(ProtocolRegistration::PreservedForeign))
            } else {
                Ok(
                    ProtocolPlan::Write {
                        replace_existing: status == CodexProtocolStatus::OtherOwner,
                        outcome: if status == CodexProtocolStatus::Missing {
                            ProtocolRegistration::Created
                        } else {
                            ProtocolRegistration::Refreshed
                        },
                    },
                )
            }
        },
    }
}

pub open spec fn removal_spec(e: ExistingView, root: Seq<char>) -> ProtocolRemoval {
    if !e.key_exists {
        ProtocolRemoval::NotFound
    } else if !is_owned_spec(e, root) {
        ProtocolRemoval::PreservedForeign
    } else {
        ProtocolRemoval::Removed
    }
}

/// The registry state right after this install wrote its protocol values
/// for `handler`, whose canonical path is `canonical` when it resolves.
pub open spec fn written_state(
    root: Seq<char>,
    handler: Seq<char>,
    canonical: Option<Seq<char>>,
) -> ExistingView {
    ExistingView {
        key_exists: true,
        owner: Some(owner_id()),
        install_root: Some(root),
        command: Some(command_spec(handler)),
        command_executable_canonical: canonical,
    }
}

// ---------------------------------------------------------------------------
// Executable rules
// ---------------------------------------------------------------------------

/// The hive an install mode registers under.
pub fn protocol_hive(mode: InstallMode) -> (r: Hive)
    ensures
        r == (if mode == InstallMode::System {
            Hive::LocalMachine
        } else {
            Hive::CurrentUser
        }),
{
    match mode {
        InstallMode::System => Hive::LocalMachine,
        _ => Hive::CurrentUser,
    }
}

impl ProtocolRegistryLocation {
    /// `Software\Classes\<scheme>`.
    pub fn new(scheme: &str) -> (r: Self)
        ensures
            r.scheme@ == scheme@,
            r.subkey@ == "Software\\Classes\\"@ + scheme@,
    {
        let mut subkey = owned("Software\\Classes\\");
        subkey.append(scheme);
        ProtocolRegistryLocation { scheme: owned(scheme), subkey }
    }

    pub fn icon_subkey(&self) -> (r: String)
        ensures
            r@ == self.subkey@ + "\\DefaultIcon"@,
    {
        let mut r = self.subkey.clone();
        r.append("\\DefaultIcon");
        r
    }

    pub fn command_subkey(&self) -> (r: String)
        ensures
            r@ == self.subkey@ + "\\shell\\open\\command"@,
    {
        let mut r = self.subkey.clone();
        r.append("\\shell\\open\\command");
        r
    }
}

impl ProtocolValues {
    /// `"<exe>" "%1"` and `"<exe>",0`.
    pub fn new(executable: &str) -> (r: Self)
        ensures
            r.command@ == command_spec(executable@),
            r.icon@ == icon_spec(executable@),
    {
        let mut command = owned("\"");
        command.append(executable);
        command.append("\" \"%1\"");
        let mut icon = owned("\"");
        icon.append(executable);
        icon.append("\",0");
        ProtocolValues { command, icon }
    }
}

/// A path text reduced for comparison.
pub fn normalized_path(path: &str) -> (r: String)
    ensures
        r@ == normalized_spec(path@),
{
    let slashes = replace_char(path, '/', '\\');
    let unprefixed = trim_start_matches_str(slashes.as_str(), "\\\\?\\");
    let trimmed = trim_end_matches_char(unprefixed.as_str(), '\\');
    to_ascii_lowercase(trimmed.as_str())
}

/// Whether two path texts name the same location (case-insensitively).
pub fn paths_equal(left: &str, right: &str) -> (r: bool)
    ensures
        r == paths_equal_spec(left@, right@),
{
    let a = normalized_path(left);
    let b = normalized_path(right);
    str_eq(a.as_str(), b.as_str())
}

/// The executable named by a `"<exe>" "%1"` command line.
pub fn protocol_command_executable(command: &str) -> (r: Option<String>)
    ensures
        opt_text(r) == command_executable_spec(command@),
{
    let trimmed = trim_str(command);
    let c = to_chars(trimmed.as_str());
    if c.len() == 0 || c[0] != '"' {
        return None;
    }
    let q = string_from_chars(&c, 1, c.len());
    assert(q@ =~= c@.drop_first());
    let qv = to_chars(q.as_str());
    let quote_mark = to_chars("\"");
    let found = find_chars(&qv, &quote_mark);
    let end = match found {
        Some(end) => end,
        None => return None,
    };
    proof {
        reveal_strlit("\"");
        lemma_find_bounds(qv@, quote_mark@, 0);
    }
    let tail = string_from_chars(&qv, end + 1, qv.len());
    let tail_trimmed = trim_str(tail.as_str());
    if !str_eq(tail_trimmed.as_str(), "\"%1\"") {
        return None;
    }
    Some(string_from_chars(&qv, 0, end))
}

proof fn lemma_find_bounds(s: Seq<char>, m: Seq<char>, i: int)
    requires
        crate::text::find_from(s, m, i) is Some,
    ensures
        i <= crate::text::find_from(s, m, i)->0,
        crate::text::find_from(s, m, i)->0 + m.len() <= s.len(),
    decreases s.len() - i,
{
    if !(i < 0 || i + m.len() > s.len()) && !(m.len() == 0 || s.subrange(i, i + m.len()) == m) {
        lemma_find_bounds(s, m, i + 1);
    }
}

/// Whether `executable` is a version entrypoint of the install at `install_root`.
pub fn protocol_handler_belongs_to(install_root: &str, executable: &str) -> (r: bool)
    ensures
        r == belongs_spec(install_root@, executable@),
{
    let mut prefix = normalized_path(install_root);
    prefix.append("\\versions\\");
    let exe = normalized_path(executable);
    let pv = to_chars(prefix.as_str());
    let ev = to_chars(exe.as_str());
    if pv.len() > ev.len() {
        return false;
    }
    let mut j: usize = 0;
    while j < pv.len()
        invariant
            pv.len() <= ev.len(),
            pv@ == prefix@,
            ev@ == exe@,
            prefix@ == normalized_spec(install_root@) + "\\versions\\"@,
            exe@ == normalized_spec(executable@),
            j <= pv.len(),
            ev@.subrange(0, j as int) == pv@.subrange(0, j as int),
        decreases pv.len() - j,
    {
        if ev[j] != pv[j] {
            assert(ev@.subrange(0, pv.len() as int)[j as int] != pv@[j as int]);
            assert(!has_prefix(ev@, pv@));
            return false;
        }
        j = j + 1;
        assert(ev@.subrange(0, j as int) =~= ev@.subrange(0, j - 1).push(ev@[j - 1]));
        assert(pv@.subrange(0, j as int) =~= pv@.subrange(0, j - 1).push(pv@[j - 1]));
    }
    assert(pv@.subrange(0, pv.len() as int) =~= pv@);
    let rest = string_from_chars(&ev, pv.len(), ev.len());
    assert(rest@ =~= exe@.skip(pv@.len() as int));
    let rv = to_chars(rest.as_str());
    let parts = split_chars(&rv, '\\');
    if parts.len() != 2 {
        return false;
    }
    if parts[0].len() == 0 {
        return false;
    }
    let file_name = string_from_chars(&parts[1], 0, parts[1].len());
    assert(parts[1]@.subrange(0, parts[1]@.len() as int) =~= parts[1]@);
    str_eq(file_name.as_str(), "chatgpt.exe") || str_eq(file_name.as_str(), "codex.exe")
}

fn opt_is(o: &Option<String>, s: &str) -> (r: bool)
    ensures
        r == (opt_text(*o) == Some(s@)),
{
    match o {
        Some(x) => str_eq(x.as_str(), s),
        None => false,
    }
}

fn has_foreign_marker(existing: &ExistingProtocol, install_root: &str) -> (r: bool)
    ensures
        r == foreign_marker(existing@, install_root@),
{
    let foreign_owner = match &existing.owner {
        Some(owner) => !str_eq(owner.as_str(), PROTOCOL_OWNER_ID),
        None => false,
    };
    let foreign_root = match &existing.install_root {
        Some(root) => !paths_equal(root.as_str(), install_root),
        None => false,
    };
    foreign_owner || foreign_root
}

fn has_owned_markers(existing: &ExistingProtocol, install_root: &str) -> (r: bool)
    ensures
        r == marker_owned(existing@, install_root@),
{
    let owner_ok = opt_is(&existing.owner, PROTOCOL_OWNER_ID);
    let root_ok = match &existing.install_root {
        Some(root) => paths_equal(root.as_str(), install_root),
        None => false,
    };
    owner_ok && root_ok
}

fn command_is_owned(existing: &ExistingProtocol, install_root: &str) -> (r: bool)
    ensures
        r == owned_command(existing@, install_root@),
{
    match &existing.command {
        Some(command) => match protocol_command_executable(command.as_str()) {
            Some(executable) => resolved_handler_belongs_to(
                install_root,
                executable.as_str(),
                &existing.command_executable_canonical,
            ),
            None => false,
        },
        None => false,
    }
}

/// How the current protocol registration relates to this install.
pub fn classify_protocol(
    existing: &ExistingProtocol,
    install_root: &str,
    desired: &ProtocolValues,
) -> (r: CodexProtocolStatus)
    ensures
        r == classify_spec(existing@, install_root@, desired.command@),
{
    if !existing.key_exists {
        return CodexProtocolStatus::Missing;
    }
    if has_foreign_marker(existing, install_root) {
        return CodexProtocolStatus::OtherOwner;
    }
    let markers = has_owned_markers(existing, install_root);
    if !command_is_owned(existing, install_root) {
        return if existing.command.is_none() && markers {
            CodexProtocolStatus::NeedsRepair
        } else {
            CodexProtocolStatus::OtherOwner
        };
    }
    if markers && opt_is(&existing.command, desired.command.as_str()) {
        CodexProtocolStatus::Ready
    } else {
        CodexProtocolStatus::NeedsRepair
    }
}

/// Whether the existing registration belongs to the install at `install_root`.
pub fn protocol_is_owned(existing: &ExistingProtocol, install_root: &str) -> (r: bool)
    ensures
        r == is_owned_spec(existing@, install_root@),
{
    if has_foreign_marker(existing, install_root) {
        return false;
    }
    match &existing.command {
        Some(command) => match protocol_command_executable(command.as_str()) {
            Some(executable) => resolved_handler_belongs_to(
                install_root,
                executable.as_str(),
                &existing.command_executable_canonical,
            ),
            None => false,
        },
        None => has_owned_markers(existing, install_root),
    }
}

/// Refuses a handler that is not an existing absolute entrypoint of this install.
pub fn validate_protocol_handler(install_root: &str, handler_exe: &str, facts: &HandlerFacts) -> (r:
    Result<(), String>)
    ensures
        match r {
            Ok(()) => handler_error(install_root@, handler_exe@, *facts) is None,
            Err(e) => handler_error(install_root@, handler_exe@, *facts) == Some(e@),
        },
{
    if !facts.is_absolute {
        let mut e = owned("protocol handler must be an absolute path: ");
        e.append(handler_exe);
        return Err(e);
    }
    if !facts.is_file {
        let mut e = owned("protocol handler does not exist: ");
        e.append(handler_exe);
        return Err(e);
    }
    if !resolved_handler_belongs_to(install_root, handler_exe, &facts.canonical) {
        let mut e = owned("protocol handler is outside the managed versions directory: ");
        e.append(handler_exe);
        return Err(e);
    }
    Ok(())
}

/// The status of `codex://` for this install with `handler_exe` as handler.
pub fn codex_protocol_status(
    existing: &ExistingProtocol,
    install_root: &str,
    handler_exe: &str,
    facts: &HandlerFacts,
) -> (r: Result<CodexProtocolStatus, String>)
    ensures
        match r {
            Ok(status) => handler_error(install_root@, handler_exe@, *facts) is None && status
                == classify_spec(existing@, install_root@, command_spec(handler_exe@)),
            Err(e) => handler_error(install_root@, handler_exe@, *facts) == Some(e@),
        },
{
    validate_protocol_handler(install_root, handler_exe, facts)?;
    let desired = ProtocolValues::new(handler_exe);
    Ok(classify_protocol(existing, install_root, &desired))
}

fn register_plan(
    existing: &ExistingProtocol,
    install_root: &str,
    handler_exe: &str,
    facts: &HandlerFacts,
    effective_handler: Result<Option<String>, String>,
    replace_foreign: bool,
) -> (r: Result<ProtocolPlan, String>)
    ensures
        match r {
            Ok(plan) => register_plan_spec(
                existing@,
                install_root@,
                handler_exe@,
                *facts,
                effective_view(effective_handler),
                replace_foreign,
            ) == Ok::<ProtocolPlan, Seq<char>>(plan),
            Err(e) => register_plan_spec(
                existing@,
                install_root@,
                handler_exe@,
                *facts,
                effective_view(effective_handler),
                replace_foreign,
            ) == Err::<ProtocolPlan, Seq<char>>(e@),
        },
{
    validate_protocol_handler(install_root, handler_exe, facts)?;
    let desired = ProtocolValues::new(handler_exe);
    let status = classify_protocol(existing, install_root, &desired);
    if status == CodexProtocolStatus::Ready {
        return Ok(ProtocolPlan::Done(ProtocolRegistration::Unchanged));
    }
    if status == CodexProtocolStatus::OtherOwner && !replace_foreign {
        return Ok(ProtocolPlan::Done(ProtocolRegistration::PreservedForeign));
    }
    if status == CodexProtocolStatus::Missing {
        match effective_handler {
            Err(message) => return Err(message),
            Ok(Some(effective)) => {
                if !protocol_handler_belongs_to(install_root, effective.as_str())
                    && !replace_foreign {
                    return Ok(ProtocolPlan::Done(ProtocolRegistration::PreservedForeign));
                }
            },
            Ok(None) => {},
        }
    }
    Ok(
        ProtocolPlan::Write {
            replace_existing: status == CodexProtocolStatus::OtherOwner,
            outcome: if status == CodexProtocolStatus::Missing {
                ProtocolRegistration::Created
            } else {
                ProtocolRegistration::Refreshed
            },
        },
    )
}

/// What registering `codex://` for this install does, keeping a registration
/// that belongs to another installation. `effective_handler` is the shell's
/// association lookup for the scheme (consulted only when the key is missing).
pub fn register_codex_protocol(
    existing: &ExistingProtocol,
    install_root: &str,
    handler_exe: &str,
    facts: &HandlerFacts,
    effective_handler: Result<Option<String>, String>,
) -> (r: Result<ProtocolPlan, String>)
    ensures
        match r {
            Ok(plan) => register_plan_spec(
                existing@,
                install_root@,
                handler_exe@,
                *facts,
                effective_view(effective_handler),
                false,
            ) == Ok::<ProtocolPlan, Seq<char>>(plan),
            Err(e) => register_plan_spec(
                existing@,
                install_root@,
                handler_exe@,
                *facts,
                effective_view(effective_handler),
                false,
            ) == Err::<ProtocolPlan, Seq<char>>(e@),
        },
{
    register_plan(existing, install_root, handler_exe, facts, effective_handler, false)
}

/// What registering `codex://` for this install does when the user asked to
/// take it over from another installation.
pub fn replace_codex_protocol(
    existing: &ExistingProtocol,
    install_root: &str,
    handler_exe: &str,
    facts: &HandlerFacts,
    effective_handler: Result<Option<String>, String>,
) -> (r: Result<ProtocolPlan, String>)
    ensures
        match r {
            Ok(plan) => register_plan_spec(
                existing@,
                install_root@,
                handler_exe@,
                *facts,
                effective_view(effective_handler),
                true,
            ) == Ok::<ProtocolPlan, Seq<char>>(plan),
            Err(e) => register_plan_spec(
                existing@,
                install_root@,
                handler_exe@,
                *facts,
                effective_view(effective_handler),
                true,
            ) == Err::<ProtocolPlan, Seq<char>>(e@),
        },
{
    register_plan(existing, install_root, handler_exe, facts, effective_handler, true)
}

/// What removing `codex://` does: `Removed` means the shell deletes the key;
/// another installation's registration is preserved.
pub fn remove_codex_protocol_if_owned(existing: &ExistingProtocol, install_root: &str) -> (r:
    ProtocolRemoval)
    ensures
        r == removal_spec(existing@, install_root@),
{
    if !existing.key_exists {
        return ProtocolRemoval::NotFound;
    }
    if !protocol_is_owned(existing, install_root) {
        return ProtocolRemoval::PreservedForeign;
    }
    ProtocolRemoval::Removed
}

/// Whether `executable`, whose canonical path is `canonical` when it
/// resolves, is a version entrypoint of the install at `install_root`.
pub fn resolved_handler_belongs_to(
    install_root: &str,
    executable: &str,
    canonical: &Option<String>,
) -> (r: bool)
    ensures
        r == resolved_belongs(install_root@, executable@, opt_text(*canonical)),
{
    match canonical {
        Some(c) => protocol_handler_belongs_to(install_root, c.as_str()),
        None => protocol_handler_belongs_to(install_root, executable),
    }
}

// ---------------------------------------------------------------------------
// Laws of the protocol rules
// ---------------------------------------------------------------------------

proof fn lemma_trim_keeps(s: Seq<char>)
    requires
        s.len() > 0,
        !is_whitespace(s[0]),
        !is_whitespace(s.last()),
    ensures
        trim(s) == s,
{
    lemma_trim_start_at(s, 0);
    assert(s.subrange(0, s.len() as int) =~= s);
    lemma_trim_end_at(s, s.len() as int);
}

proof fn lemma_find_quote_from(h: Seq<char>, rest: Seq<char>, i: int)
    requires
        0 <= i <= h.len(),
        forall|k: int| 0 <= k < h.len() ==> h[k] != '"',
        rest.len() > 0,
        rest[0] == '"',
    ensures
        find_from(h + rest, "\""@, i) == Some(h.len() as int),
    decreases h.len() - i,
{
    reveal_strlit("\"");
    let s = h + rest;
    if i < h.len() {
        assert(s.subrange(i, i + 1)[0] == h[i]);
        assert(s.subrange(i, i + 1) != "\""@);
        lemma_find_quote_from(h, rest, i + 1);
    } else {
        assert(s.subrange(i, i + 1) =~= "\""@);
    }
}

/// The executable named by the command line written for `handler`.
proof fn lemma_command_executable_of_written(handler: Seq<char>)
    requires
        forall|k: int| 0 <= k < handler.len() ==> handler[k] != '"',
    ensures
        command_executable_spec(command_spec(handler)) == Some(handler),
{
    reveal_strlit("\"");
    reveal_strlit("\" \"%1\"");
    reveal_strlit("\"%1\"");
    let cmd = command_spec(handler);
    let tail = "\" \"%1\""@;
    assert(cmd[0] == '"');
    assert(cmd.last() == '"');
    lemma_trim_keeps(cmd);
    let q = cmd.drop_first();
    assert(q =~= handler + tail);
    lemma_find_quote_from(handler, tail, 0);
    let after = q.subrange(handler.len() as int + 1, q.len() as int);
    assert(after =~= seq![' ', '"', '%', '1', '"']);
    lemma_trim_start_at(after, 1);
    let t = after.subrange(1, after.len() as int);
    assert(t =~= "\"%1\""@);
    lemma_trim_end_at(t, t.len() as int);
    assert(t.subrange(0, t.len() as int) =~= t);
    assert(q.subrange(0, handler.len() as int) =~= handler);
}

/// Registering is idempotent: right after this install wrote its values for
/// a valid handler, the registration reads as ready, registering again
/// changes nothing, and removing it deletes it.
pub proof fn law_written_registration_is_ready(
    root: Seq<char>,
    handler: Seq<char>,
    facts: HandlerFacts,
    effective: Result<Option<Seq<char>>, Seq<char>>,
    replace_foreign: bool,
)
    requires
        handler_error(root, handler, facts) is None,
        forall|k: int| 0 <= k < handler.len() ==> handler[k] != '"',
    ensures
        classify_spec(written_state(root, handler, opt_text(facts.canonical)), root, command_spec(handler))
            == CodexProtocolStatus::Ready,
        register_plan_spec(written_state(root, handler, opt_text(facts.canonical)), root, handler, facts, effective, replace_foreign)
            == Ok::<ProtocolPlan, Seq<char>>(ProtocolPlan::Done(ProtocolRegistration::Unchanged)),
        removal_spec(written_state(root, handler, opt_text(facts.canonical)), root) == ProtocolRemoval::Removed,
{
    lemma_command_executable_of_written(handler);
}

/// Another installation's registration is never overwritten or removed
/// unless the user asked to take it over.
pub proof fn law_foreign_registration_is_preserved(
    e: ExistingView,
    root: Seq<char>,
    handler: Seq<char>,
    facts: HandlerFacts,
    effective: Result<Option<Seq<char>>, Seq<char>>,
)
    requires
        handler_error(root, handler, facts) is None,
        classify_spec(e, root, command_spec(handler)) == CodexProtocolStatus::OtherOwner,
    ensures
        register_plan_spec(e, root, handler, facts, effective, false) == Ok::<ProtocolPlan, Seq<char>>(
            ProtocolPlan::Done(ProtocolRegistration::PreservedForeign),
        ),
        foreign_marker(e, root) ==> removal_spec(e, root) != ProtocolRemoval::Removed,
{
}

/// A registration that names no other installation and whose command
/// starts an entrypoint `<root>\versions\<version>\{chatgpt,codex}.exe` of
/// this install belongs to it, whether or not the marker values were
/// written: disabling or uninstalling removes it.
pub proof fn law_own_command_is_removed(
    e: ExistingView,
    root: Seq<char>,
    command: Seq<char>,
    executable: Seq<char>,
)
    requires
        e.key_exists,
        e.owner is None || e.owner == Some(owner_id()),
        e.install_root is None || paths_equal_spec(e.install_root->0, root),
        e.command == Some(command),
        command_executable_spec(command) == Some(executable),
        resolved_belongs(root, executable, e.command_executable_canonical),
    ensures
        is_owned_spec(e, root),
        removal_spec(e, root) == ProtocolRemoval::Removed,
{
}

/// Whatever registration reads as ready or in need of repair for this
/// install is this install's: disabling or uninstalling removes it.
pub proof fn law_not_foreign_registration_is_removed(
    e: ExistingView,
    root: Seq<char>,
    desired_command: Seq<char>,
)
    requires
        e.key_exists,
        classify_spec(e, root, desired_command) != CodexProtocolStatus::OtherOwner,
    ensures
        removal_spec(e, root) == ProtocolRemoval::Removed,
{
}

} // verus!
