//! Local installed versions: which directories count as versions, how they
//! are ordered, which one launches by default, what retention prunes and
//! when a version may be deleted.
//!
//! Paths are Windows path texts. Listing `versions/`, measuring directories,
//! touching the `current` junction and deleting directories are done by the
//! application shell, which hands the observed facts in as plain values.

use crate::config::{Config, ConfigView};
use crate::text::{
    has_suffix, lemma_split_nonempty, owned, parse_u64, parse_u64_chars, split, split_chars,
    str_eq, to_chars,
};
use crate::updater::{
    components_gt, lemma_lex_gt_asymmetric, lemma_lex_gt_irreflexive, lemma_lex_gt_total,
    lemma_lex_gt_transitive, lex_gt, version_components, version_key, version_newer,
};
use vstd::prelude::*;

verus! {

/// Which product an installed version launches.
#[derive(Debug, Clone, Copy, PartialEq, Eq, Structural)]
pub enum AppKind {
    Codex,
    ChatGpt,
}

pub open spec fn display_name_spec(kind: AppKind) -> Seq<char> {
    match kind {
        AppKind::Codex => "Codex"@,
        AppKind::ChatGpt => "ChatGPT"@,
    }
}

pub open spec fn entry_file_spec(kind: AppKind) -> Seq<char> {
    match kind {
        AppKind::Codex => "Codex.exe"@,
        AppKind::ChatGpt => "ChatGPT.exe"@,
    }
}

impl AppKind {
    /// The product name shown to the user.
    pub fn display_name(self) -> (r: &'static str)
        ensures
            r@ == display_name_spec(self),
    {
        match self {
            AppKind::Codex => "Codex",
            AppKind::ChatGpt => "ChatGPT",
        }
    }

    /// The entry executable's file name inside a version directory.
    pub fn entry_file(self) -> (r: &'static str)
        ensures
            r@ == entry_file_spec(self),
    {
        match self {
            AppKind::Codex => "Codex.exe",
            AppKind::ChatGpt => "ChatGPT.exe",
        }
    }
}

#[derive(Debug, Clone)]
pub struct InstalledVersion {
    pub version: String,
    pub app_kind: AppKind,
    pub executable: String,
    pub size_bytes: u64,
    pub installed_at_unix: u64,
}

pub struct InstalledView {
    pub version: Seq<char>,
    pub app_kind: AppKind,
    pub executable: Seq<char>,
    pub size_bytes: u64,
    pub installed_at_unix: u64,
}

impl View for InstalledVersion {
    type V = InstalledView;

    open spec fn view(&self) -> InstalledView {
        InstalledView {
            version: self.version@,
            app_kind: self.app_kind,
            executable: self.executable@,
            size_bytes: self.size_bytes,
            installed_at_unix: self.installed_at_unix,
        }
    }
}

#[derive(Debug, Clone)]
pub struct LaunchTarget {
    pub version: String,
    pub app_kind: AppKind,
    pub executable: String,
}

#[derive(Debug, Clone, Copy, PartialEq, Eq, Structural)]
pub enum RetentionPolicy {
    KeepLatest(u32),
    KeepAll,
}

#[derive(Debug, Clone)]
pub struct DeleteRepair {
    pub default_version: String,
    pub current_repaired: bool,
}

/// What the shell observed about one directory entry of `versions/`.
#[derive(Debug, Clone)]
pub struct VersionDirEntry {
    pub name: String,
    pub is_dir: bool,
    pub is_symlink: bool,
    pub has_chatgpt_exe: bool,
    pub has_codex_exe: bool,
    pub size_bytes: u64,
    pub installed_at_unix: u64,
}

// ---------------------------------------------------------------------------
// Version names
// ---------------------------------------------------------------------------

pub open spec fn all_parse(pieces: Seq<Seq<char>>) -> bool {
    forall|i: int| 0 <= i < pieces.len() ==> #[trigger] parse_u64(pieces[i]) is Some
}

/// A strict dotted-numeric version: at least two components, each a number.
pub open spec fn parse_version_spec(v: Seq<char>) -> Option<Seq<u64>> {
    let pieces = split(v, '.');
    if pieces.len() >= 2 && all_parse(pieces) {
        Some(version_key(v))
    } else {
        None
    }
}

pub open spec fn is_version_name_spec(v: Seq<char>) -> bool {
    parse_version_spec(v) is Some
}

/// The components of a strict dotted-numeric version.
pub fn parse_version(version: &str) -> (r: Option<Vec<u64>>)
    ensures
        match r {
            Some(parts) => parse_version_spec(version@) == Some(parts@),
            None => parse_version_spec(version@) is None,
        },
{
    let chars = to_chars(version);
    let pieces = split_chars(&chars, '.');
    let mut i: usize = 0;
    while i < pieces.len()
        invariant
            i <= pieces.len(),
            pieces.len() == split(version@, '.').len(),
            forall|j: int|
                0 <= j < pieces.len() ==> #[trigger] pieces[j]@ == split(version@, '.')[j],
            forall|j: int| 0 <= j < i ==> #[trigger] parse_u64(split(version@, '.')[j]) is Some,
        decreases pieces.len() - i,
    {
        let piece = &pieces[i];
        assert(piece@.subrange(0, piece@.len() as int) =~= piece@);
        if parse_u64_chars(piece, 0, piece.len()).is_none() {
            assert(!all_parse(split(version@, '.')));
            return None;
        }
        i = i + 1;
    }
    if pieces.len() < 2 {
        return None;
    }
    Some(version_components(version))
}

/// Whether a directory name is a strict dotted-numeric version.
pub fn is_version_name(version: &str) -> (r: bool)
    ensures
        r == is_version_name_spec(version@),
{
    parse_version(version).is_some()
}

// ---------------------------------------------------------------------------
// Paths
// ---------------------------------------------------------------------------

pub open spec fn is_separator(c: char) -> bool {
    c == '\\' || c == '/'
}

/// `Path::join` of a relative name onto a Windows directory path.
pub open spec fn join_spec(base: Seq<char>, name: Seq<char>) -> Seq<char> {
    if base.len() > 0 && is_separator(base.last()) {
        base + name
    } else {
        base + "\\"@ + name
    }
}

/// Joins a relative name onto a Windows directory path.
pub fn join_path(base: &str, name: &str) -> (r: String)
    ensures
        r@ == join_spec(base@, name@),
{
    let n = base.unicode_len();
    let mut r = owned(base);
    if n > 0 && (base.get_char(n - 1) == '\\' || base.get_char(n - 1) == '/') {
        r.append(name);
    } else {
        r.append("\\");
        r.append(name);
    }
    r
}

// ---------------------------------------------------------------------------
// Scanning and ordering
// ---------------------------------------------------------------------------

pub open spec fn entry_kind_spec(e: VersionDirEntry) -> Option<AppKind> {
    if e.has_chatgpt_exe {
        Some(AppKind::ChatGpt)
    } else if e.has_codex_exe {
        Some(AppKind::Codex)
    } else {
        None
    }
}

/// A directory entry that counts as an installed version: a real directory
/// (not a junction or symlink) with a version name and an entry executable.
pub open spec fn entry_accepted(e: VersionDirEntry) -> bool {
    e.is_dir && !e.is_symlink && is_version_name_spec(e.name@) && entry_kind_spec(e) is Some
}

pub open spec fn entry_installed(versions_root: Seq<char>, e: VersionDirEntry) -> InstalledView {
    let kind = entry_kind_spec(e)->0;
    InstalledView {
        version: e.name@,
        app_kind: kind,
        executable: join_spec(join_spec(versions_root, e.name@), entry_file_spec(kind)),
        size_bytes: e.size_bytes,
        installed_at_unix: e.installed_at_unix,
    }
}

/// The accepted entries, in listing order, as installed versions.
pub open spec fn accepted_versions(versions_root: Seq<char>, entries: Seq<VersionDirEntry>) -> Seq<
    InstalledView,
>
    decreases entries.len(),
{
    if entries.len() == 0 {
        Seq::empty()
    } else {
        let rest = accepted_versions(versions_root, entries.drop_last());
        if entry_accepted(entries.last()) {
            rest.push(entry_installed(versions_root, entries.last()))
        } else {
            rest
        }
    }
}

pub open spec fn views_of(s: Seq<InstalledVersion>) -> Seq<InstalledView> {
    s.map_values(|x: InstalledVersion| x@)
}

pub open spec fn versions_of(s: Seq<InstalledView>) -> Seq<Seq<char>> {
    s.map_values(|x: InstalledView| x.version)
}

/// Newest first: no later entry is newer than an earlier one.
pub open spec fn newest_first(s: Seq<InstalledView>) -> bool {
    forall|i: int, j: int|
        0 <= i < j < s.len() ==> !lex_gt(
            #[trigger] version_key(s[j].version),
            #[trigger] version_key(s[i].version),
        )
}

proof fn lemma_insert_keeps_newest_first(s: Seq<InstalledView>, pos: int, x: InstalledView)
    requires
        newest_first(s),
        0 <= pos <= s.len(),
        forall|i: int| 0 <= i < pos ==> !lex_gt(version_key(x.version), #[trigger] version_key(s[i].version)),
        pos < s.len() ==> lex_gt(version_key(x.version), version_key(s[pos].version)),
    ensures
        newest_first(s.insert(pos, x)),
{
    let t = s.insert(pos, x);
    assert forall|i: int, j: int| 0 <= i < j < t.len() implies !lex_gt(
        #[trigger] version_key(t[j].version),
        #[trigger] version_key(t[i].version),
    ) by {
        if j < pos {
            assert(t[i] == s[i] && t[j] == s[j]);
        } else if j == pos {
            assert(t[i] == s[i] && t[j] == x);
        } else if i < pos {
            assert(t[i] == s[i] && t[j] == s[j - 1]);
        } else if i == pos {
            assert(t[i] == x && t[j] == s[j - 1]);
            let kj = version_key(s[j - 1].version);
            let kp = version_key(s[pos].version);
            let kx = version_key(x.version);
            if lex_gt(kj, kx) {
                lemma_lex_gt_transitive(kj, kx, kp);
                if j - 1 == pos {
                    lemma_lex_gt_irreflexive(kp);
                } else {
                    assert(!lex_gt(version_key(s[j - 1].version), version_key(s[pos].version)));
                }
            }
        } else {
            assert(t[i] == s[i - 1] && t[j] == s[j - 1]);
        }
    }
}

/// The versions of `s` whose numeric key is `k`, in their order in `s`.
pub open spec fn with_key(s: Seq<InstalledView>, k: Seq<u64>) -> Seq<InstalledView> {
    s.filter(|x: InstalledView| version_key(x.version) == k)
}

proof fn lemma_with_key_push(s: Seq<InstalledView>, x: InstalledView, k: Seq<u64>)
    ensures
        with_key(s.push(x), k) == if version_key(x.version) == k {
            with_key(s, k).push(x)
        } else {
            with_key(s, k)
        },
{
    reveal(Seq::filter);
    assert(s.push(x).drop_last() =~= s);
}

/// Inserting `x` in front of every entry with a smaller key appends it to the
/// versions that share its key, and leaves the other keys' versions alone.
proof fn lemma_with_key_insert(s: Seq<InstalledView>, pos: int, x: InstalledView, k: Seq<u64>)
    requires
        newest_first(s),
        0 <= pos <= s.len(),
        pos < s.len() ==> lex_gt(version_key(x.version), version_key(s[pos].version)),
    ensures
        with_key(s.insert(pos, x), k) == if version_key(x.version) == k {
            with_key(s, k).push(x)
        } else {
            with_key(s, k)
        },
{
    let pred = |y: InstalledView| version_key(y.version) == k;
    let head = s.take(pos);
    let tail = s.skip(pos);
    assert(s.insert(pos, x) =~= head + seq![x] + tail);
    assert(s =~= head + tail);
    Seq::filter_distributes_over_add(head + seq![x], tail, pred);
    Seq::filter_distributes_over_add(head, seq![x], pred);
    Seq::filter_distributes_over_add(head, tail, pred);
    reveal_with_fuel(Seq::filter, 2);
    assert(seq![x].drop_last() =~= Seq::<InstalledView>::empty());
    if version_key(x.version) == k {
        assert forall|j: int| 0 <= j < tail.len() implies !pred(#[trigger] tail[j]) by {
            assert(tail[j] == s[pos + j]);
            if j == 0 {
                lemma_lex_gt_irreflexive(k);
            } else {
                assert(!lex_gt(version_key(s[pos + j].version), version_key(s[pos].version)));
            }
        }
        tail.lemma_all_neg_filter_empty(pred);
        assert(tail.filter(pred) =~= Seq::<InstalledView>::empty());
        assert(head.filter(pred) + seq![x] =~= head.filter(pred).push(x));
    }
}

/// The installed versions among the listed entries of `versions_root`,
/// newest first; versions with equal numeric keys keep their listing order.
pub fn scan_installed(versions_root: &str, entries: Vec<VersionDirEntry>) -> (r: Vec<InstalledVersion>)
    ensures
        views_of(r@).to_multiset() == accepted_versions(versions_root@, entries@).to_multiset(),
        newest_first(views_of(r@)),
        forall|k: Seq<u64>|
            #[trigger] with_key(views_of(r@), k) == with_key(
                accepted_versions(versions_root@, entries@),
                k,
            ),
        forall|i: int| 0 <= i < r.len() ==> is_version_name_spec(#[trigger] r@[i].version@),
{
    let mut out: Vec<InstalledVersion> = Vec::new();
    let mut i: usize = 0;
    assert(entries@.subrange(0, 0) =~= Seq::<VersionDirEntry>::empty());
    assert(views_of(out@) =~= Seq::<InstalledView>::empty());
    while i < entries.len()
        invariant
            i <= entries.len(),
            views_of(out@).to_multiset() == accepted_versions(
                versions_root@,
                entries@.subrange(0, i as int),
            ).to_multiset(),
            newest_first(views_of(out@)),
            forall|k: Seq<u64>|
                #[trigger] with_key(views_of(out@), k) == with_key(
                    accepted_versions(versions_root@, entries@.subrange(0, i as int)),
                    k,
                ),
            forall|k: int| 0 <= k < out.len() ==> is_version_name_spec(#[trigger] out@[k].version@),
        decreases entries.len() - i,
    {
        let e = &entries[i];
        let ghost prefix = entries@.subrange(0, i as int);
        assert(entries@.subrange(0, i + 1).drop_last() =~= prefix);
        assert(entries@.subrange(0, i + 1).last() == *e);
        let kind = if e.has_chatgpt_exe {
            Some(AppKind::ChatGpt)
        } else if e.has_codex_exe {
            Some(AppKind::Codex)
        } else {
            None
        };
        if e.is_dir && !e.is_symlink && is_version_name(e.name.as_str()) && kind.is_some() {
            let kind = kind.unwrap();
            let dir = join_path(versions_root, e.name.as_str());
            let executable = join_path(dir.as_str(), kind.entry_file());
            let item = InstalledVersion {
                version: e.name.clone(),
                app_kind: kind,
                executable,
                size_bytes: e.size_bytes,
                installed_at_unix: e.installed_at_unix,
            };
            assert(item@ == entry_installed(versions_root@, *e));
            let key = version_components(item.version.as_str());
            let mut pos: usize = 0;
            let mut found = false;
            while pos < out.len() && !found
                invariant
                    pos <= out.len(),
                    key@ == version_key(item.version@),
                    !found ==> forall|k: int| 0 <= k < pos ==> !lex_gt(
                        key@,
                        #[trigger] version_key(out@[k].version@),
                    ),
                    found ==> pos < out.len() && lex_gt(key@, version_key(out@[pos as int].version@)),
                    found ==> forall|k: int| 0 <= k < pos ==> !lex_gt(
                        key@,
                        #[trigger] version_key(out@[k].version@),
                    ),
                decreases out.len() - pos + (if found { 0int } else { 1int }),
            {
                let other = version_components(out[pos].version.as_str());
                if components_gt(&key, &other) {
                    found = true;
                } else {
                    pos = pos + 1;
                }
            }
            proof {
                assert forall|k: int| 0 <= k < pos implies !lex_gt(
                    version_key(item@.version),
                    #[trigger] version_key(views_of(out@)[k].version),
                ) by {
                    assert(views_of(out@)[k] == out@[k]@);
                }
                if pos < out.len() {
                    assert(views_of(out@)[pos as int] == out@[pos as int]@);
                }
                lemma_insert_keeps_newest_first(views_of(out@), pos as int, item@);
                assert(views_of(out@.insert(pos as int, item)) =~= views_of(out@).insert(
                    pos as int,
                    item@,
                ));
                vstd::seq_lib::to_multiset_insert(views_of(out@), pos as int, item@);
                vstd::seq_lib::to_multiset_build(
                    accepted_versions(versions_root@, prefix),
                    entry_installed(versions_root@, *e),
                );
                assert forall|k: Seq<u64>| #[trigger]
                    with_key(views_of(out@).insert(pos as int, item@), k) == with_key(
                        accepted_versions(versions_root@, prefix).push(
                            entry_installed(versions_root@, *e),
                        ),
                        k,
                    ) by {
                    lemma_with_key_insert(views_of(out@), pos as int, item@, k);
                    lemma_with_key_push(
                        accepted_versions(versions_root@, prefix),
                        entry_installed(versions_root@, *e),
                        k,
                    );
                }
            }
            out.insert(pos, item);
        }
        i = i + 1;
    }
    assert(entries@.subrange(0, entries.len() as int) =~= entries@);
    out
}

// ---------------------------------------------------------------------------
// Launch target
// ---------------------------------------------------------------------------

/// Which installed version launches: the requested one, or the first
/// (newest) when none is requested.
pub open spec fn select_spec(installed: Seq<InstalledView>, requested: Option<Seq<char>>) -> Option<
    int,
> {
    match requested {
        None => if installed.len() > 0 {
            Some(0)
        } else {
            None
        },
        Some(v) => first_with_version(installed, v, 0),
    }
}

pub open spec fn first_with_version(s: Seq<InstalledView>, v: Seq<char>, i: int) -> Option<int>
    decreases s.len() - i,
{
    if i < 0 || i >= s.len() {
        None
    } else if s[i].version == v {
        Some(i)
    } else {
        first_with_version(s, v, i + 1)
    }
}

proof fn lemma_first_with_version_bounds(s: Seq<InstalledView>, v: Seq<char>, i: int)
    requires
        first_with_version(s, v, i) is Some,
    ensures
        i <= first_with_version(s, v, i)->0 < s.len(),
        s[first_with_version(s, v, i)->0].version == v,
    decreases s.len() - i,
{
    if !(i < 0 || i >= s.len()) && s[i].version != v {
        lemma_first_with_version_bounds(s, v, i + 1);
    }
}

pub open spec fn opt_str(o: Option<&str>) -> Option<Seq<char>> {
    match o {
        Some(s) => Some(s@),
        None => None,
    }
}

pub open spec fn launch_error_spec(root: Seq<char>, requested: Option<Seq<char>>) -> Seq<char> {
    match requested {
        Some(v) => "installed version "@ + v + " is not available"@,
        None => "no launchable installed version under "@ + root,
    }
}

/// The index of the version to launch, or the error the launcher reports.
pub fn select_launch_version(root: &str, installed: &[InstalledVersion], requested: Option<&str>) -> (r:
    Result<usize, String>)
    ensures
        match r {
            Ok(i) => select_spec(views_of(installed@), opt_str(requested)) == Some(i as int),
            Err(e) => select_spec(views_of(installed@), opt_str(requested)) is None && e@
                == launch_error_spec(root@, opt_str(requested)),
        },
{
    match requested {
        None => {
            if installed.len() > 0 {
                Ok(0)
            } else {
                let mut e = owned("no launchable installed version under ");
                e.append(root);
                Err(e)
            }
        },
        Some(v) => {
            let mut i: usize = 0;
            while i < installed.len()
                invariant
                    i <= installed.len(),
                    requested == Some(v),
                    first_with_version(views_of(installed@), v@, 0) == first_with_version(
                        views_of(installed@),
                        v@,
                        i as int,
                    ),
                decreases installed.len() - i,
            {
                assert(views_of(installed@)[i as int] == installed@[i as int]@);
                if str_eq(installed[i].version.as_str(), v) {
                    assert(first_with_version(views_of(installed@), v@, i as int) == Some(
                        i as int,
                    ));
                    return Ok(i);
                }
                i = i + 1;
            }
            let mut e = owned("installed version ");
            e.append(v);
            e.append(" is not available");
            Err(e)
        },
    }
}

pub open spec fn launch_target_spec(root: Seq<char>, item: InstalledView, via_current: bool) -> (
    Seq<char>,
    AppKind,
    Seq<char>,
) {
    (
        item.version,
        item.app_kind,
        if via_current {
            join_spec(join_spec(join_spec(root, "versions"@), "current"@), entry_file_spec(item.app_kind))
        } else {
            item.executable
        },
    )
}

pub open spec fn target_view(t: LaunchTarget) -> (Seq<char>, AppKind, Seq<char>) {
    (t.version@, t.app_kind, t.executable@)
}

/// The launch target for `item`. `via_current` is true when the default
/// version is launched through `versions/current` and the shell managed to
/// point that junction at `item`; the stable junction path is then used.
pub fn launch_target_for(root: &str, item: &InstalledVersion, via_current: bool) -> (r: LaunchTarget)
    ensures
        target_view(r) == launch_target_spec(root@, item@, via_current),
{
    let executable = if via_current {
        let versions = join_path(root, "versions");
        let current = join_path(versions.as_str(), "current");
        join_path(current.as_str(), item.app_kind.entry_file())
    } else {
        item.executable.clone()
    };
    LaunchTarget { version: item.version.clone(), app_kind: item.app_kind, executable }
}

/// The executable to launch by default: the newest installed version,
/// through `versions/current` when the junction is in use and repaired.
pub fn latest_codex_exe(
    root: &str,
    installed: &[InstalledVersion],
    use_junction: bool,
    junction_repaired: bool,
) -> (r: Option<String>)
    ensures
        installed.len() == 0 ==> r is None,
        installed.len() > 0 ==> r is Some && r->0@ == launch_target_spec(
            root@,
            installed@[0]@,
            use_junction && junction_repaired,
        ).2,
{
    if installed.len() == 0 {
        return None;
    }
    let target = launch_target_for(root, &installed[0], use_junction && junction_repaired);
    Some(target.executable)
}

// ---------------------------------------------------------------------------
// Retention and deletion
// ---------------------------------------------------------------------------

pub open spec fn texts(s: Seq<String>) -> Seq<Seq<char>> {
    s.map_values(|x: String| x@)
}

/// The versions in `s` that are not running, in order.
pub open spec fn not_running(s: Seq<Seq<char>>, running: Seq<Seq<char>>) -> Seq<Seq<char>>
    decreases s.len(),
{
    if s.len() == 0 {
        Seq::empty()
    } else {
        let rest = not_running(s.drop_last(), running);
        if running.contains(s.last()) {
            rest
        } else {
            rest.push(s.last())
        }
    }
}

pub open spec fn keep_count(keep: u32) -> int {
    if keep == 0 {
        1
    } else {
        keep as int
    }
}

/// What retention removes: everything after the newest `max(keep, 1)`
/// versions that is not running; nothing under keep-all.
pub open spec fn prune_spec(
    installed: Seq<InstalledView>,
    policy: RetentionPolicy,
    running: Seq<Seq<char>>,
) -> Seq<Seq<char>> {
    match policy {
        RetentionPolicy::KeepAll => Seq::empty(),
        RetentionPolicy::KeepLatest(keep) => if keep_count(keep) >= installed.len() {
            Seq::empty()
        } else {
            not_running(versions_of(installed).skip(keep_count(keep)), running)
        },
    }
}

/// Whether `v` is among `list`.
pub fn contains_text(list: &[String], v: &str) -> (r: bool)
    ensures
        r == texts(list@).contains(v@),
{
    let mut i: usize = 0;
    while i < list.len()
        invariant
            i <= list.len(),
            forall|k: int| 0 <= k < i ==> list@[k]@ != v@,
        decreases list.len() - i,
    {
        if str_eq(list[i].as_str(), v) {
            assert(texts(list@)[i as int] == v@);
            return true;
        }
        i = i + 1;
    }
    proof {
        if texts(list@).contains(v@) {
            let k = choose|k: int| 0 <= k < texts(list@).len() && texts(list@)[k] == v@;
            assert(list@[k]@ == v@);
        }
    }
    false
}

/// Versions that automatic retention deletes under `policy`, never one that
/// is running.
pub fn versions_to_prune(
    installed: &[InstalledVersion],
    policy: RetentionPolicy,
    running_versions: &[String],
) -> (r: Vec<String>)
    ensures
        texts(r@) == prune_spec(views_of(installed@), policy, texts(running_versions@)),
{
    let keep = match policy {
        RetentionPolicy::KeepAll => {
            let empty: Vec<String> = Vec::new();
            assert(texts(empty@) =~= Seq::<Seq<char>>::empty());
            return empty;
        },
        RetentionPolicy::KeepLatest(keep) => if keep == 0 {
            1usize
        } else {
            keep as usize
        },
    };
    let mut out: Vec<String> = Vec::new();
    if keep >= installed.len() {
        assert(texts(out@) =~= Seq::<Seq<char>>::empty());
        return out;
    }
    let ghost all = versions_of(views_of(installed@)).skip(keep as int);
    let mut i: usize = keep;
    assert(all.subrange(0, 0) =~= Seq::<Seq<char>>::empty());
    while i < installed.len()
        invariant
            keep <= i <= installed.len(),
            all == versions_of(views_of(installed@)).skip(keep as int),
            texts(out@) == not_running(all.subrange(0, i - keep), texts(running_versions@)),
        decreases installed.len() - i,
    {
        let v = &installed[i].version;
        assert(all.subrange(0, i + 1 - keep).drop_last() =~= all.subrange(0, i - keep));
        assert(all.subrange(0, i + 1 - keep).last() == v@);
        if !contains_text(running_versions, v.as_str()) {
            out.push(v.clone());
            assert(texts(out@) =~= texts(out@.drop_last()).push(v@));
        }
        i = i + 1;
    }
    assert(all.subrange(0, installed.len() - keep) =~= all);
    out
}

pub open spec fn contains_version(installed: Seq<InstalledView>, v: Seq<char>) -> bool {
    exists|i: int| 0 <= i < installed.len() && #[trigger] installed[i].version == v
}

/// Why a manual deletion of `version` is refused, if it is.
pub open spec fn delete_refusal(
    version: Seq<char>,
    running: Seq<Seq<char>>,
    installed: Seq<InstalledView>,
) -> Option<Seq<char>> {
    if !is_version_name_spec(version) {
        Some("invalid installed version: "@ + version)
    } else if running.contains(version) {
        Some("version "@ + version + " is currently running"@)
    } else if installed.len() <= 1 {
        Some("cannot delete the final launchable version"@)
    } else if !contains_version(installed, version) {
        Some("installed version "@ + version + " does not exist"@)
    } else {
        None
    }
}

/// Checks that `version` may be deleted: a valid name, not running, present,
/// and not the only launchable version. The shell removes the directory
/// only after `Ok`.
pub fn delete_installed(
    version: &str,
    running_versions: &[String],
    installed: &[InstalledVersion],
) -> (r: Result<(), String>)
    ensures
        match r {
            Ok(()) => delete_refusal(version@, texts(running_versions@), views_of(installed@))
                is None,
            Err(e) => delete_refusal(version@, texts(running_versions@), views_of(installed@))
                == Some(e@),
        },
{
    if !is_version_name(version) {
        let mut e = owned("invalid installed version: ");
        e.append(version);
        return Err(e);
    }
    if contains_text(running_versions, version) {
        let mut e = owned("version ");
        e.append(version);
        e.append(" is currently running");
        return Err(e);
    }
    if installed.len() <= 1 {
        return Err(owned("cannot delete the final launchable version"));
    }
    let mut i: usize = 0;
    while i < installed.len()
        invariant
            i <= installed.len(),
            installed.len() > 1,
            is_version_name_spec(version@),
            !texts(running_versions@).contains(version@),
            forall|k: int| 0 <= k < i ==> installed@[k].version@ != version@,
        decreases installed.len() - i,
    {
        if str_eq(installed[i].version.as_str(), version) {
            assert(views_of(installed@)[i as int] == installed@[i as int]@);
            assert(views_of(installed@)[i as int].version == version@);
            assert(contains_version(views_of(installed@), version@));
            return Ok(());
        }
        i = i + 1;
    }
    proof {
        if contains_version(views_of(installed@), version@) {
            let k = choose|k: int|
                0 <= k < views_of(installed@).len() && #[trigger] views_of(installed@)[k].version
                    == version@;
            assert(views_of(installed@)[k] == installed@[k]@);
        }
    }
    let mut e = owned("installed version ");
    e.append(version);
    e.append(" does not exist");
    Err(e)
}

/// After a deletion, make the newest remaining version the default.
/// `remaining` is the rescanned list (newest first); `junction_repaired`
/// says whether the shell re-pointed `versions/current` at its first entry.
pub fn delete_and_repair(cfg: &mut Config, remaining: &[InstalledVersion], junction_repaired: bool) -> (r:
    Result<DeleteRepair, String>)
    ensures
        remaining.len() == 0 ==> final(cfg)@ == old(cfg)@ && r is Err && r->Err_0@
            == "deletion left no launchable installed version"@,
        remaining.len() > 0 ==> r is Ok && final(cfg)@ == (ConfigView {
            current_version: remaining@[0].version@,
            ..old(cfg)@
        }) && r->Ok_0.default_version@ == remaining@[0].version@ && r->Ok_0.current_repaired == (
        !old(cfg).use_current_junction || junction_repaired),
{
    if remaining.len() == 0 {
        return Err(owned("deletion left no launchable installed version"));
    }
    let latest = &remaining[0];
    cfg.current_version = latest.version.clone();
    assert(cfg@ =~= (ConfigView { current_version: remaining@[0].version@, ..old(cfg)@ }));
    let current_repaired = !cfg.use_current_junction || junction_repaired;
    Ok(DeleteRepair { default_version: latest.version.clone(), current_repaired })
}

pub const ELEVATED_UI_DELETE_MESSAGE: &'static str =
    "为避免读取提权账户的版本设置，请以普通用户身份重新启动中文助手后再删除版本";

/// Versions of an all-users install are deleted only from an unelevated UI
/// (through the elevated helper), so that this user's settings are used.
pub fn delete_from_ui_refusal(system_install: bool, elevated: bool) -> (r: Option<&'static str>)
    ensures
        r is Some <==> (system_install && elevated),
        r is Some ==> r->0@ == ELEVATED_UI_DELETE_MESSAGE@,
{
    if system_install && elevated {
        Some(ELEVATED_UI_DELETE_MESSAGE)
    } else {
        None
    }
}

pub open spec fn delete_message_spec(
    version: Seq<char>,
    default_version: Seq<char>,
    current_repaired: bool,
    protocol_warning: Seq<char>,
) -> Seq<char> {
    if current_repaired {
        "已删除版本 "@ + version + protocol_warning
    } else {
        "已删除版本 "@ + version + "；current 入口将在下次启动时重试修复到 "@ + default_version
            + protocol_warning
    }
}

/// What the UI reports after deleting `version`; `protocol_warning` is empty
/// or names a failed `codex://` refresh.
pub fn delete_message(version: &str, repair: &DeleteRepair, protocol_warning: &str) -> (r: String)
    ensures
        r@ == delete_message_spec(
            version@,
            repair.default_version@,
            repair.current_repaired,
            protocol_warning@,
        ),
{
    let mut r = owned("已删除版本 ");
    r.append(version);
    if !repair.current_repaired {
        r.append("；current 入口将在下次启动时重试修复到 ");
        r.append(repair.default_version.as_str());
    }
    r.append(protocol_warning);
    r
}

/// Whether a directory name is a leftover partial extraction.
pub fn is_partial_directory_name(name: &str) -> (r: bool)
    ensures
        r == has_suffix(name@, ".partial"@),
{
    let chars = to_chars(name);
    let suffix = to_chars(".partial");
    if suffix.len() > chars.len() {
        return false;
    }
    let start = chars.len() - suffix.len();
    let mut j: usize = 0;
    while j < suffix.len()
        invariant
            start + suffix.len() == chars.len(),
            chars@ == name@,
            suffix@ == ".partial"@,
            j <= suffix.len(),
            chars@.subrange(start as int, start + j) == suffix@.subrange(0, j as int),
        decreases suffix.len() - j,
    {
        if chars[start + j] != suffix[j] {
            assert(chars@.subrange(start as int, chars.len() as int)[j as int] != suffix@[j as int]);
            assert(chars@.subrange(start as int, chars.len() as int) != suffix@);
            assert(!has_suffix(name@, ".partial"@));
            return false;
        }
        j = j + 1;
        assert(chars@.subrange(start as int, start + j) =~= chars@.subrange(
            start as int,
            start + j - 1,
        ).push(chars@[start + j - 1]));
        assert(suffix@.subrange(0, j as int) =~= suffix@.subrange(0, j - 1).push(suffix@[j - 1]));
    }
    assert(suffix@.subrange(0, suffix.len() as int) =~= suffix@);
    true
}

// ---------------------------------------------------------------------------
// Laws of retention, launching and deletion
// ---------------------------------------------------------------------------

proof fn lemma_not_running_members(s: Seq<Seq<char>>, running: Seq<Seq<char>>)
    ensures
        forall|k: int|
            0 <= k < not_running(s, running).len() ==> s.contains(
                #[trigger] not_running(s, running)[k],
            ) && !running.contains(not_running(s, running)[k]),
    decreases s.len(),
{
    if s.len() > 0 {
        lemma_not_running_members(s.drop_last(), running);
        let rest = not_running(s.drop_last(), running);
        assert forall|k: int| 0 <= k < not_running(s, running).len() implies s.contains(
            #[trigger] not_running(s, running)[k],
        ) && !running.contains(not_running(s, running)[k]) by {
            if k < rest.len() {
                let x = rest[k];
                assert(s.drop_last().contains(x));
                let j = choose|j: int| 0 <= j < s.drop_last().len() && s.drop_last()[j] == x;
                assert(s[j] == x);
            } else {
                assert(not_running(s, running)[k] == s.last());
                assert(s[s.len() - 1] == s.last());
            }
        }
    }
}

/// Retention never deletes a running version, never one of the newest
/// `max(keep, 1)` positions, and nothing under keep-all.
pub proof fn law_retention_spares_newest_and_running(
    installed: Seq<InstalledView>,
    policy: RetentionPolicy,
    running: Seq<Seq<char>>,
)
    ensures
        policy == RetentionPolicy::KeepAll ==> prune_spec(installed, policy, running).len() == 0,
        forall|k: int|
            0 <= k < prune_spec(installed, policy, running).len() ==> !running.contains(
                #[trigger] prune_spec(installed, policy, running)[k],
            ),
        policy matches RetentionPolicy::KeepLatest(keep) ==> forall|k: int|
            0 <= k < prune_spec(installed, policy, running).len() ==> versions_of(installed).skip(
                keep_count(keep),
            ).contains(#[trigger] prune_spec(installed, policy, running)[k]),
{
    match policy {
        RetentionPolicy::KeepAll => {},
        RetentionPolicy::KeepLatest(keep) => {
            if keep_count(keep) < installed.len() {
                lemma_not_running_members(versions_of(installed).skip(keep_count(keep)), running);
            }
        },
    }
}

/// The version launched by default is the newest installed one: no
/// installed version is newer than it.
pub proof fn law_default_launch_is_newest(installed: Seq<InstalledView>)
    requires
        newest_first(installed),
        installed.len() > 0,
    ensures
        select_spec(installed, None) == Some(0int),
        forall|j: int|
            0 <= j < installed.len() ==> !version_newer(
                #[trigger] installed[j].version,
                installed[0].version,
            ),
{
    assert forall|j: int| 0 <= j < installed.len() implies !version_newer(
        #[trigger] installed[j].version,
        installed[0].version,
    ) by {
        if j == 0 {
            lemma_lex_gt_irreflexive(version_key(installed[0].version));
        } else {
            assert(!lex_gt(version_key(installed[j].version), version_key(installed[0].version)));
        }
    }
}

/// An explicit launch starts exactly the requested version when it is
/// installed (the first entry of that name), and fails otherwise.
pub proof fn law_explicit_launch_is_exact(installed: Seq<InstalledView>, requested: Seq<char>)
    ensures
        select_spec(installed, Some(requested)) is Some ==> ({
            let i = select_spec(installed, Some(requested))->0;
            0 <= i < installed.len() && installed[i].version == requested && forall|j: int|
                0 <= j < i ==> #[trigger] installed[j].version != requested
        }),
        select_spec(installed, Some(requested)) is None ==> !contains_version(installed, requested),
{
    if select_spec(installed, Some(requested)) is Some {
        lemma_first_with_version_bounds(installed, requested, 0);
        lemma_first_with_version_first(installed, requested, 0);
    } else {
        lemma_first_with_version_none(installed, requested, 0);
    }
}

proof fn lemma_first_with_version_first(s: Seq<InstalledView>, v: Seq<char>, i: int)
    requires
        0 <= i,
        first_with_version(s, v, i) is Some,
    ensures
        forall|j: int| i <= j < first_with_version(s, v, i)->0 ==> #[trigger] s[j].version != v,
    decreases s.len() - i,
{
    if i < s.len() && s[i].version != v {
        lemma_first_with_version_first(s, v, i + 1);
    }
}

proof fn lemma_first_with_version_none(s: Seq<InstalledView>, v: Seq<char>, i: int)
    requires
        0 <= i,
        first_with_version(s, v, i) is None,
    ensures
        forall|j: int| i <= j < s.len() ==> #[trigger] s[j].version != v,
    decreases s.len() - i,
{
    if i < s.len() {
        lemma_first_with_version_none(s, v, i + 1);
    }
}

/// A manual deletion that is allowed removes a present version that is not
/// running and leaves at least one other installed version.
pub proof fn law_delete_spares_running_and_last(
    version: Seq<char>,
    running: Seq<Seq<char>>,
    installed: Seq<InstalledView>,
)
    requires
        delete_refusal(version, running, installed) is None,
    ensures
        !running.contains(version),
        installed.len() >= 2,
        contains_version(installed, version),
        is_version_name_spec(version),
{
}

/// Deleting installed versions one at a time, each accepted deletion
/// removing that version's directory, always leaves a launchable version:
/// after an accepted deletion at least one version remains, and once only
/// one remains every further deletion is refused.
pub proof fn law_delete_sequence_keeps_a_version(
    version: Seq<char>,
    running: Seq<Seq<char>>,
    installed: Seq<InstalledView>,
    i: int,
    next: Seq<char>,
    next_running: Seq<Seq<char>>,
)
    requires
        delete_refusal(version, running, installed) is None,
        0 <= i < installed.len(),
        installed[i].version == version,
    ensures
        installed.remove(i).len() >= 1,
        installed.remove(i).len() == 1 ==> delete_refusal(next, next_running, installed.remove(i))
            is Some,
{
}

/// A manual deletion is refused only for an invalid name, a running
/// version, the last remaining version or a version that is not installed:
/// any other installed version may be deleted, the newest included, as long
/// as another one remains.
pub proof fn law_delete_allowed_unless_guarded(
    version: Seq<char>,
    running: Seq<Seq<char>>,
    installed: Seq<InstalledView>,
    i: int,
)
    requires
        is_version_name_spec(version),
        !running.contains(version),
        installed.len() >= 2,
        0 <= i < installed.len(),
        installed[i].version == version,
    ensures
        delete_refusal(version, running, installed) is None,
{
    assert(contains_version(installed, version));
}

} // verus!
