//! Proxy-launch decisions: which running processes belong to this install,
//! which installed versions are running, whether launching a version needs
//! the user's confirmation to switch, and where Codex keeps its user data.
//! Enumerating processes, spawning and terminating them is done by the shell.

use crate::text::{
    ascii_lower, has_prefix, owned, split, split_chars, starts_with, str_eq, string_from_chars,
    string_of, to_ascii_lowercase, to_chars, trim, trim_str,
};
use crate::versions::{
    is_version_name, is_version_name_spec, join_path, join_spec, latest_codex_exe, texts,
    launch_target_spec, AppKind, InstalledVersion,
};
use vstd::prelude::*;

verus! {

#[derive(Debug, Clone)]
pub enum LaunchOutcome {
    Launched { version: String, app_kind: AppKind },
    SwitchRequired { running_versions: Vec<String>, target_version: String },
}

/// Identity of the process holding Codex's single-instance lock.
#[derive(Debug, Clone)]
pub struct SingletonHolder {
    pub pid: u32,
    pub image_path: String,
}

/// A process and its image path, when it could be queried.
#[derive(Debug, Clone)]
pub struct ProcessImage {
    pub pid: u32,
    pub image_path: Option<String>,
}

/// A process-table entry: its id and executable file name.
#[derive(Debug, Clone)]
pub struct ProcessEntry {
    pub pid: u32,
    pub exe_name: String,
}

/// What launching a target version requires.
#[derive(Debug, Clone)]
pub enum LaunchPlan {
    /// Other managed versions are running and the user has not confirmed a switch.
    SwitchRequired { running_versions: Vec<String>, target_version: String },
    /// Launch; first close the other running versions when `close_others`,
    /// and afterwards wait for the target to come up when `wait_for_start`.
    Launch { close_others: bool, wait_for_start: bool },
}

// ---------------------------------------------------------------------------
// Case-insensitive path prefixes
// ---------------------------------------------------------------------------

/// What `str::to_lowercase` returns for a text (full Unicode lowercase mapping).
pub uninterp spec fn lowercase(s: Seq<char>) -> Seq<char>;

/// `str::to_lowercase`: Unicode lowercase mapping; the result is named by
/// `lowercase` and nothing else is claimed about it.
#[verifier::external_body]
fn to_lowercase(s: &str) -> (r: String)
    ensures
        r@ == lowercase(s@),
{
    s.to_lowercase()
}

pub open spec fn with_separator(pre: Seq<char>) -> Seq<char> {
    if pre.len() > 0 && (pre.last() == '\\' || pre.last() == '/') {
        pre
    } else {
        pre + "\\"@
    }
}

/// `path` equals `prefix` or lies beneath it on whole path components,
/// both texts taken as they are.
pub open spec fn component_prefix_spec(path: Seq<char>, prefix: Seq<char>) -> bool {
    path == prefix || has_prefix(path, with_separator(prefix))
}

/// `path` equals `prefix` or lies beneath it, compared case-insensitively
/// and on whole path components.
pub open spec fn starts_with_ci_spec(path: Seq<char>, prefix: Seq<char>) -> bool {
    component_prefix_spec(lowercase(path), lowercase(prefix))
}

/// Component-wise prefix test on two path texts that are already lowercased.
pub fn lowered_path_starts_with(path: &str, prefix: &str) -> (r: bool)
    ensures
        r == component_prefix_spec(path@, prefix@),
{
    if str_eq(path, prefix) {
        return true;
    }
    let n = prefix.unicode_len();
    let pre_sep = if n > 0 && (prefix.get_char(n - 1) == '\\' || prefix.get_char(n - 1) == '/') {
        owned(prefix)
    } else {
        let mut s = owned(prefix);
        s.append("\\");
        s
    };
    starts_with(path, pre_sep.as_str())
}

/// Case-insensitive, component-wise `Path::starts_with` on Windows path texts.
pub fn path_starts_with_ci(path: &str, prefix: &str) -> (r: bool)
    ensures
        r == starts_with_ci_spec(path@, prefix@),
{
    let p = to_lowercase(path);
    let pre = to_lowercase(prefix);
    lowered_path_starts_with(p.as_str(), pre.as_str())
}

/// Whether the lock holder runs from outside this install's `versions` folder.
pub fn holder_is_foreign(holder: &SingletonHolder, versions_root: &str) -> (r: bool)
    ensures
        r == !starts_with_ci_spec(holder.image_path@, versions_root@),
{
    !path_starts_with_ci(holder.image_path.as_str(), versions_root)
}

// ---------------------------------------------------------------------------
// Running versions
// ---------------------------------------------------------------------------

/// The installed version a (canonical) process path runs, when it is a root
/// entrypoint `<versions_root>\<version>\{codex,chatgpt}.exe`.
pub open spec fn running_version_spec(versions_root: Seq<char>, process: Seq<char>) -> Option<
    Seq<char>,
> {
    let root = with_separator(versions_root);
    if has_prefix(process, root) {
        let parts = split(process.skip(root.len() as int), '\\');
        let exe = ascii_lower(if parts.len() >= 2 {
            parts[1]
        } else {
            Seq::empty()
        });
        if parts.len() == 2 && (exe == "codex.exe"@ || exe == "chatgpt.exe"@)
            && is_version_name_spec(parts[0]) {
            Some(parts[0])
        } else {
            None
        }
    } else {
        None
    }
}

/// The version a process path runs, if it is a managed root entrypoint.
/// Both paths are canonical texts.
pub fn running_version_from_process_path(versions_root: &str, process_path: &str) -> (r: Option<
    String,
>)
    ensures
        crate::config::opt_text(r) == running_version_spec(versions_root@, process_path@),
{
    let n = versions_root.unicode_len();
    let root = if n > 0 && (versions_root.get_char(n - 1) == '\\' || versions_root.get_char(n - 1)
        == '/') {
        owned(versions_root)
    } else {
        let mut s = owned(versions_root);
        s.append("\\");
        s
    };
    if !starts_with(process_path, root.as_str()) {
        return None;
    }
    let pv = to_chars(process_path);
    let rl = root.unicode_len();
    let rest = string_from_chars(&pv, rl, pv.len());
    assert(rest@ =~= process_path@.skip(root@.len() as int));
    let rv = to_chars(rest.as_str());
    let parts = split_chars(&rv, '\\');
    if parts.len() != 2 {
        return None;
    }
    let version = string_of(&parts[0]);
    let exe_raw = string_of(&parts[1]);
    let exe = to_ascii_lowercase(exe_raw.as_str());
    if !(str_eq(exe.as_str(), "codex.exe") || str_eq(exe.as_str(), "chatgpt.exe")) {
        return None;
    }
    if !is_version_name(version.as_str()) {
        return None;
    }
    Some(version)
}

pub open spec fn runs_version(versions_root: Seq<char>, paths: Seq<Seq<char>>, v: Seq<char>) -> bool {
    exists|i: int|
        0 <= i < paths.len() && #[trigger] running_version_spec(versions_root, paths[i]) == Some(
            v,
        )
}

/// The distinct installed versions that the given (canonical) process
/// image paths are running.
pub fn running_versions(versions_root: &str, process_paths: &[String]) -> (r: Vec<String>)
    ensures
        texts(r@).no_duplicates(),
        forall|v: Seq<char>|
            #![trigger texts(r@).contains(v)]
            texts(r@).contains(v) <==> runs_version(versions_root@, texts(process_paths@), v),
{
    let mut out: Vec<String> = Vec::new();
    let mut i: usize = 0;
    while i < process_paths.len()
        invariant
            i <= process_paths.len(),
            texts(out@).no_duplicates(),
            forall|v: Seq<char>|
                #![trigger texts(out@).contains(v)]
                texts(out@).contains(v) <==> runs_version(
                    versions_root@,
                    texts(process_paths@).subrange(0, i as int),
                    v,
                ),
        decreases process_paths.len() - i,
    {
        let ghost before = texts(out@);
        let ghost paths_i = texts(process_paths@).subrange(0, i as int);
        let ghost paths_next = texts(process_paths@).subrange(0, i + 1);
        assert(paths_next[i as int] == process_paths@[i as int]@);
        let found = running_version_from_process_path(versions_root, process_paths[i].as_str());
        let ghost found_view = crate::config::opt_text(found);
        let ghost mut grew = false;
        match found {
            Some(v) => {
                if !crate::versions::contains_text(out.as_slice(), v.as_str()) {
                    out.push(v);
                    proof {
                        grew = true;
                    }
                    assert(texts(out@) =~= before.push(v@));
                }
            },
            None => {},
        }
        assert(grew ==> found_view is Some && !before.contains(found_view->0) && texts(out@)
            == before.push(found_view->0));
        assert(!grew ==> texts(out@) == before && (found_view is Some ==> before.contains(
            found_view->0,
        )));
        proof {
            assert(found_view == running_version_spec(versions_root@, paths_next[i as int]));
            assert forall|v: Seq<char>| #![trigger texts(out@).contains(v)]
                texts(out@).contains(v) <==> runs_version(versions_root@, paths_next, v) by {
                if runs_version(versions_root@, paths_next, v) {
                    let k = choose|k: int|
                        0 <= k < paths_next.len() && #[trigger] running_version_spec(
                            versions_root@,
                            paths_next[k],
                        ) == Some(v);
                    if k < i {
                        assert(paths_i[k] == paths_next[k]);
                        assert(runs_version(versions_root@, paths_i, v));
                        assert(before.contains(v));
                    } else {
                        assert(found_view == Some(v));
                    }
                    if before.contains(v) {
                        let j = choose|j: int| 0 <= j < before.len() && before[j] == v;
                        assert(texts(out@)[j] == v);
                    } else {
                        assert(texts(out@)[before.len() as int] == v);
                    }
                    assert(texts(out@).contains(v));
                }
                if texts(out@).contains(v) {
                    if before.contains(v) {
                        assert(runs_version(versions_root@, paths_i, v));
                        let k = choose|k: int|
                            0 <= k < paths_i.len() && #[trigger] running_version_spec(
                                versions_root@,
                                paths_i[k],
                            ) == Some(v);
                        assert(paths_i[k] == paths_next[k]);
                        assert(running_version_spec(versions_root@, paths_next[k]) == Some(v));
                    } else {
                        assert(found_view == Some(v));
                        assert(running_version_spec(versions_root@, paths_next[i as int]) == Some(
                            v,
                        ));
                    }
                    assert(runs_version(versions_root@, paths_next, v));
                }
            }
        }
        i = i + 1;
    }
    assert(texts(process_paths@).subrange(0, process_paths.len() as int) =~= texts(
        process_paths@,
    ));
    out
}

// ---------------------------------------------------------------------------
// Process selection
// ---------------------------------------------------------------------------

pub open spec fn is_codex_name(name: Seq<char>) -> bool {
    ascii_lower(name) == "codex.exe"@ || ascii_lower(name) == "chatgpt.exe"@
}

/// The ids of Codex/ChatGPT processes in a process table, except ours.
pub fn find_codex_pids(processes: &[ProcessEntry], current_pid: u32) -> (r: Vec<u32>)
    ensures
        r@ == processes@.filter(
            |e: ProcessEntry| e.pid != current_pid && is_codex_name(e.exe_name@),
        ).map_values(|e: ProcessEntry| e.pid),
{
    let ghost pred = |e: ProcessEntry| e.pid != current_pid && is_codex_name(e.exe_name@);
    let mut out: Vec<u32> = Vec::new();
    let mut i: usize = 0;
    while i < processes.len()
        invariant
            i <= processes.len(),
            pred == (|e: ProcessEntry| e.pid != current_pid && is_codex_name(e.exe_name@)),
            out@ == processes@.subrange(0, i as int).filter(pred).map_values(
                |e: ProcessEntry| e.pid,
            ),
        decreases processes.len() - i,
    {
        let e = &processes[i];
        let name = to_ascii_lowercase(e.exe_name.as_str());
        let matched = e.pid != current_pid && (str_eq(name.as_str(), "codex.exe") || str_eq(
            name.as_str(),
            "chatgpt.exe",
        ));
        proof {
            let s = processes@.subrange(0, i as int);
            assert(processes@.subrange(0, i + 1) =~= s.push(*e));
            s.lemma_filter_push(*e, pred);
        }
        if matched {
            out.push(e.pid);
        }
        i = i + 1;
        proof {
            let s = processes@.subrange(0, i as int);
            assert(out@ =~= s.filter(pred).map_values(|e: ProcessEntry| e.pid));
        }
    }
    assert(processes@.subrange(0, processes.len() as int) =~= processes@);
    out
}

pub open spec fn under_root(p: ProcessImage, versions_root: Seq<char>) -> bool {
    p.image_path is Some && starts_with_ci_spec(p.image_path->0@, versions_root)
}

/// The ids of processes whose image lies under this install's `versions`
/// folder (main, renderers, helpers).
pub fn find_our_codex_pids(versions_root: &str, processes: &[ProcessImage]) -> (r: Vec<u32>)
    ensures
        r@ == processes@.filter(|p: ProcessImage| under_root(p, versions_root@)).map_values(
            |p: ProcessImage| p.pid,
        ),
{
    let ghost pred = |p: ProcessImage| under_root(p, versions_root@);
    let mut out: Vec<u32> = Vec::new();
    let mut i: usize = 0;
    while i < processes.len()
        invariant
            i <= processes.len(),
            pred == (|p: ProcessImage| under_root(p, versions_root@)),
            out@ == processes@.subrange(0, i as int).filter(pred).map_values(
                |p: ProcessImage| p.pid,
            ),
        decreases processes.len() - i,
    {
        let p = &processes[i];
        let matched = match &p.image_path {
            Some(image) => path_starts_with_ci(image.as_str(), versions_root),
            None => false,
        };
        proof {
            let s = processes@.subrange(0, i as int);
            assert(processes@.subrange(0, i + 1) =~= s.push(*p));
            s.lemma_filter_push(*p, pred);
        }
        if matched {
            out.push(p.pid);
        }
        i = i + 1;
        proof {
            let s = processes@.subrange(0, i as int);
            assert(out@ =~= s.filter(pred).map_values(|p: ProcessImage| p.pid));
        }
    }
    assert(processes@.subrange(0, processes.len() as int) =~= processes@);
    out
}

pub open spec fn foreign_target(p: ProcessImage, holder_pid: u32, versions_root: Seq<char>) -> bool {
    match p.image_path {
        Some(image) => !starts_with_ci_spec(image@, versions_root),
        None => p.pid == holder_pid,
    }
}

/// The Codex processes to terminate when the user chose to kill a foreign
/// lock holder: those running from elsewhere, plus the holder itself when
/// its image cannot be queried.
pub fn foreign_codex_pids(holder_pid: u32, versions_root: &str, processes: &[ProcessImage]) -> (r:
    Vec<u32>)
    ensures
        r@ == processes@.filter(
            |p: ProcessImage| foreign_target(p, holder_pid, versions_root@),
        ).map_values(|p: ProcessImage| p.pid),
{
    let ghost pred = |p: ProcessImage| foreign_target(p, holder_pid, versions_root@);
    let mut out: Vec<u32> = Vec::new();
    let mut i: usize = 0;
    while i < processes.len()
        invariant
            i <= processes.len(),
            pred == (|p: ProcessImage| foreign_target(p, holder_pid, versions_root@)),
            out@ == processes@.subrange(0, i as int).filter(pred).map_values(
                |p: ProcessImage| p.pid,
            ),
        decreases processes.len() - i,
    {
        let p = &processes[i];
        let matched = match &p.image_path {
            Some(image) => !path_starts_with_ci(image.as_str(), versions_root),
            None => p.pid == holder_pid,
        };
        proof {
            let s = processes@.subrange(0, i as int);
            assert(processes@.subrange(0, i + 1) =~= s.push(*p));
            s.lemma_filter_push(*p, pred);
        }
        if matched {
            out.push(p.pid);
        }
        i = i + 1;
        proof {
            let s = processes@.subrange(0, i as int);
            assert(out@ =~= s.filter(pred).map_values(|p: ProcessImage| p.pid));
        }
    }
    assert(processes@.subrange(0, processes.len() as int) =~= processes@);
    out
}

// ---------------------------------------------------------------------------
// User data and launch decisions
// ---------------------------------------------------------------------------

pub open spec fn user_data_spec(override_path: Option<Seq<char>>, appdata: Option<Seq<char>>) -> Option<
    Seq<char>,
> {
    if override_path is Some && trim(override_path->0).len() > 0 {
        Some(trim(override_path->0))
    } else {
        match appdata {
            Some(a) => Some(join_spec(a, "Codex"@)),
            None => None,
        }
    }
}

/// Codex's user-data folder: `CODEX_ELECTRON_USER_DATA_PATH` when set and
/// not blank, otherwise `%APPDATA%\Codex` (the shell reads both variables).
pub fn codex_user_data_dir(override_path: Option<String>, appdata: Option<String>) -> (r: Option<
    String,
>)
    ensures
        crate::config::opt_text(r) == user_data_spec(
            crate::config::opt_text(override_path),
            crate::config::opt_text(appdata),
        ),
{
    if let Some(v) = &override_path {
        let trimmed = trim_str(v.as_str());
        if trimmed.unicode_len() > 0 {
            return Some(trimmed);
        }
    }
    match appdata {
        Some(a) => Some(join_path(a.as_str(), "Codex")),
        None => None,
    }
}

/// Same self-heal as the installer's launch button: the default launch
/// executable of the install.
pub fn resolve_codex_exe(
    root: &str,
    installed: &[InstalledVersion],
    use_junction: bool,
    junction_repaired: bool,
) -> (r: Option<String>)
    ensures
        installed.len() == 0 ==> r is None,
        installed.len() > 0 ==> r is Some && r->0@ == launch_target_spec(
            root@,
            installed@[0]@,
            use_junction && junction_repaired,
        ).2,
{
    latest_codex_exe(root, installed, use_junction, junction_repaired)
}

/// Strict "less than" on texts by code points (`String`'s `<`).
pub open spec fn text_lt(a: Seq<char>, b: Seq<char>) -> bool
    decreases a.len(),
{
    if b.len() == 0 {
        false
    } else if a.len() == 0 {
        true
    } else if a[0] != b[0] {
        a[0] < b[0]
    } else {
        text_lt(a.drop_first(), b.drop_first())
    }
}

proof fn lemma_text_lt_irreflexive(a: Seq<char>)
    ensures
        !text_lt(a, a),
    decreases a.len(),
{
    if a.len() > 0 {
        lemma_text_lt_irreflexive(a.drop_first());
    }
}

proof fn lemma_text_lt_transitive(a: Seq<char>, b: Seq<char>, c: Seq<char>)
    requires
        text_lt(a, b),
        text_lt(b, c),
    ensures
        text_lt(a, c),
    decreases a.len(),
{
    if a.len() > 0 && b.len() > 0 && c.len() > 0 && a[0] == b[0] && b[0] == c[0] {
        lemma_text_lt_transitive(a.drop_first(), b.drop_first(), c.drop_first());
    }
}

proof fn lemma_text_lt_total(a: Seq<char>, b: Seq<char>)
    ensures
        a == b || text_lt(a, b) || text_lt(b, a),
    decreases a.len(),
{
    if a.len() > 0 && b.len() > 0 && a[0] == b[0] {
        lemma_text_lt_total(a.drop_first(), b.drop_first());
        if a.drop_first() == b.drop_first() {
            assert(a =~= seq![a[0]] + a.drop_first());
            assert(b =~= seq![b[0]] + b.drop_first());
        }
    } else if a.len() == 0 && b.len() == 0 {
        assert(a =~= b);
    }
}

fn text_less(a: &str, b: &str) -> (r: bool)
    ensures
        r == text_lt(a@, b@),
{
    let av = to_chars(a);
    let bv = to_chars(b);
    let mut i: usize = 0;
    while i < av.len() && i < bv.len()
        invariant
            av@ == a@,
            bv@ == b@,
            i <= av.len(),
            i <= bv.len(),
            forall|j: int| 0 <= j < i ==> av@[j] == bv@[j],
        decreases av.len() - i,
    {
        if av[i] != bv[i] {
            proof {
                lemma_text_lt_skip(av@, bv@, i as int);
                assert(av@.skip(i as int)[0] == av@[i as int]);
                assert(bv@.skip(i as int)[0] == bv@[i as int]);
            }
            return av[i] < bv[i];
        }
        i = i + 1;
    }
    proof {
        lemma_text_lt_skip(av@, bv@, i as int);
    }
    i < bv.len()
}

proof fn lemma_text_lt_skip(a: Seq<char>, b: Seq<char>, i: int)
    requires
        0 <= i <= a.len(),
        i <= b.len(),
        forall|j: int| 0 <= j < i ==> a[j] == b[j],
    ensures
        text_lt(a, b) == text_lt(a.skip(i), b.skip(i)),
    decreases i,
{
    if i > 0 {
        lemma_text_lt_skip(a.drop_first(), b.drop_first(), i - 1);
        assert(a.drop_first().skip(i - 1) =~= a.skip(i));
        assert(b.drop_first().skip(i - 1) =~= b.skip(i));
    } else {
        assert(a.skip(0) =~= a);
        assert(b.skip(0) =~= b);
    }
}

/// Ascending text order: no later entry is smaller than an earlier one.
pub open spec fn ascending(s: Seq<Seq<char>>) -> bool {
    forall|i: int, j: int| 0 <= i < j < s.len() ==> !text_lt(#[trigger] s[j], #[trigger] s[i])
}

proof fn lemma_insert_keeps_ascending(s: Seq<Seq<char>>, pos: int, x: Seq<char>)
    requires
        ascending(s),
        0 <= pos <= s.len(),
        forall|i: int| 0 <= i < pos ==> !text_lt(x, #[trigger] s[i]),
        pos < s.len() ==> text_lt(x, s[pos]),
    ensures
        ascending(s.insert(pos, x)),
{
    let t = s.insert(pos, x);
    assert forall|i: int, j: int| 0 <= i < j < t.len() implies !text_lt(
        #[trigger] t[j],
        #[trigger] t[i],
    ) by {
        if j < pos {
            assert(t[i] == s[i] && t[j] == s[j]);
        } else if j == pos {
            assert(t[i] == s[i] && t[j] == x);
        } else if i < pos {
            assert(t[i] == s[i] && t[j] == s[j - 1]);
        } else if i == pos {
            assert(t[i] == x && t[j] == s[j - 1]);
            if text_lt(s[j - 1], x) {
                lemma_text_lt_transitive(s[j - 1], x, s[pos]);
                if j - 1 == pos {
                    lemma_text_lt_irreflexive(s[pos]);
                } else {
                    assert(!text_lt(s[j - 1], s[pos]));
                }
            }
        } else {
            assert(t[i] == s[i - 1] && t[j] == s[j - 1]);
        }
    }
}

/// The running versions other than `target`, in ascending order.
pub fn other_running_sorted(target: &str, running: &[String]) -> (r: Vec<String>)
    ensures
        ascending(texts(r@)),
        texts(r@).to_multiset() == texts(running@).filter(|v: Seq<char>| v != target@).to_multiset(),
{
    let ghost pred = |v: Seq<char>| v != target@;
    let mut out: Vec<String> = Vec::new();
    let mut i: usize = 0;
    proof {
        let e = texts(running@).subrange(0, 0);
        e.lemma_filter_len(pred);
        assert(e.filter(pred) =~= Seq::<Seq<char>>::empty());
        assert(texts(out@) =~= Seq::<Seq<char>>::empty());
    }
    while i < running.len()
        invariant
            i <= running.len(),
            pred == (|v: Seq<char>| v != target@),
            ascending(texts(out@)),
            texts(out@).to_multiset() == texts(running@).subrange(0, i as int).filter(
                pred,
            ).to_multiset(),
        decreases running.len() - i,
    {
        let v = &running[i];
        let ghost prefix = texts(running@).subrange(0, i as int);
        proof {
            assert(texts(running@).subrange(0, i + 1) =~= prefix.push(v@));
            prefix.lemma_filter_push(v@, pred);
        }
        if !str_eq(v.as_str(), target) {
            let mut pos: usize = 0;
            let mut found = false;
            while pos < out.len() && !found
                invariant
                    pos <= out.len(),
                    forall|k: int| 0 <= k < pos ==> !text_lt(v@, #[trigger] texts(out@)[k]),
                    found ==> pos < out.len() && text_lt(v@, texts(out@)[pos as int]),
                decreases out.len() - pos + (if found { 0int } else { 1int }),
            {
                assert(texts(out@)[pos as int] == out@[pos as int]@);
                if text_less(v.as_str(), out[pos].as_str()) {
                    found = true;
                } else {
                    pos = pos + 1;
                }
            }
            let item = v.clone();
            proof {
                lemma_insert_keeps_ascending(texts(out@), pos as int, v@);
                assert(texts(out@.insert(pos as int, item)) =~= texts(out@).insert(
                    pos as int,
                    v@,
                ));
                vstd::seq_lib::to_multiset_insert(texts(out@), pos as int, v@);
                vstd::seq_lib::to_multiset_build(prefix.filter(pred), v@);
            }
            out.insert(pos, item);
        }
        i = i + 1;
    }
    assert(texts(running@).subrange(0, running.len() as int) =~= texts(running@));
    out
}

/// Whether `target` is among `running`.
fn is_running(target: &str, running: &[String]) -> (r: bool)
    ensures
        r == texts(running@).contains(target@),
{
    crate::versions::contains_text(running, target)
}

/// The plan for launching `target` while `running` versions are up:
/// other running versions require confirmation (`switch_running`), are then
/// closed first, and the launch waits for the target unless it already runs.
pub fn plan_launch(target: &str, running: &[String], switch_running: bool) -> (r: LaunchPlan)
    ensures
        ({
            let others = texts(running@).filter(|v: Seq<char>| v != target@);
            match r {
                LaunchPlan::SwitchRequired { running_versions, target_version } => others.len() > 0
                    && !switch_running && target_version@ == target@ && ascending(
                    texts(running_versions@),
                ) && texts(running_versions@).to_multiset() == others.to_multiset(),
                LaunchPlan::Launch { close_others, wait_for_start } => (others.len() == 0
                    || switch_running) && close_others == (others.len() > 0) && wait_for_start == !(
                others.len() == 0 && texts(running@).contains(target@)),
            }
        }),
{
    let different = other_running_sorted(target, running);
    proof {
        vstd::seq_lib::to_multiset_len(texts(different@));
        vstd::seq_lib::to_multiset_len(texts(running@).filter(|v: Seq<char>| v != target@));
    }
    if different.len() > 0 && !switch_running {
        return LaunchPlan::SwitchRequired { running_versions: different, target_version: owned(target) };
    }
    let already = different.len() == 0 && is_running(target, running);
    LaunchPlan::Launch { close_others: different.len() > 0, wait_for_start: !already }
}

/// `items` joined with `sep` (`[String]::join`).
pub open spec fn joined(items: Seq<Seq<char>>, sep: Seq<char>) -> Seq<char>
    decreases items.len(),
{
    if items.len() == 0 {
        Seq::empty()
    } else if items.len() == 1 {
        items[0]
    } else {
        joined(items.drop_last(), sep) + sep + items.last()
    }
}

fn join_texts(items: &Vec<String>, sep: &str) -> (r: String)
    ensures
        r@ == joined(texts(items@), sep@),
{
    let mut r = String::new();
    let mut i: usize = 0;
    assert(texts(items@).subrange(0, 0) =~= Seq::<Seq<char>>::empty());
    while i < items.len()
        invariant
            i <= items.len(),
            r@ == joined(texts(items@).subrange(0, i as int), sep@),
        decreases items.len() - i,
    {
        let ghost before = texts(items@).subrange(0, i as int);
        assert(texts(items@).subrange(0, i + 1).drop_last() =~= before);
        if i > 0 {
            r.append(sep);
        } else {
            assert(r@ =~= Seq::<char>::empty());
        }
        r.append(items[i].as_str());
        i = i + 1;
        proof {
            if i == 1 {
                assert(r@ =~= joined(texts(items@).subrange(0, 1), sep@));
            }
        }
    }
    assert(texts(items@).subrange(0, items.len() as int) =~= texts(items@));
    r
}

pub open spec fn launch_result_spec(outcome: LaunchOutcome) -> Result<(), Seq<char>> {
    match outcome {
        LaunchOutcome::Launched { .. } => Ok(()),
        LaunchOutcome::SwitchRequired { running_versions, target_version } => Err(
            "version switch required from "@ + joined(texts(running_versions@), ", "@) + " to "@
                + target_version@,
        ),
    }
}

/// The plain launch path (shortcuts, CLI): a required switch is an error.
pub fn launch(outcome: LaunchOutcome) -> (r: Result<(), String>)
    ensures
        match r {
            Ok(()) => launch_result_spec(outcome) is Ok,
            Err(e) => launch_result_spec(outcome) == Err::<(), Seq<char>>(e@),
        },
{
    match outcome {
        LaunchOutcome::Launched { .. } => Ok(()),
        LaunchOutcome::SwitchRequired { running_versions, target_version } => {
            let mut e = owned("version switch required from ");
            let list = join_texts(&running_versions, ", ");
            e.append(list.as_str());
            e.append(" to ");
            e.append(target_version.as_str());
            Err(e)
        },
    }
}

} // verus!
