//! Update-check decisions for the official app and for the launcher itself.
//!
//! Decision flow for an automatic check:
//!   1. policy == Never              -> Skipped
//!   2. suppress_until > now         -> Skipped
//!   3. inside the policy cooldown   -> Skipped
//!   4. otherwise the latest version is resolved (by the caller, over the
//!      network) and compared against `current_version`; an available
//!      version equal to the user's skipped version is reported as Skipped.
//!
//! An explicit "check now" bypasses steps 1-3. Every function that reads the
//! clock has a twin taking `now` explicitly; the twin carries the exact
//! contract.

use crate::clock::now_unix;
use crate::config::{opt_text, Config, ConfigView, UpdatePolicy};
use crate::text::{
    decimal, decimal_string, find, find_chars, find_from, lemma_split_nonempty, owned, parse_u64,
    parse_u64_chars, split, split_chars, str_eq, string_from_chars, string_of, to_chars, trim,
    trim_start_char, trim_start_matches_char, trim_str,
};
use vstd::prelude::*;

verus! {

/// Owner/repo of the launcher's own GitHub releases.
pub const LAUNCHER_REPO: &'static str = "chrichuang218/codex-windows-cn";

pub const LAUNCHER_LATEST_RELEASE_URL: &'static str =
    "https://github.com/chrichuang218/codex-windows-cn/releases/latest";

pub const LAUNCHER_LATEST_API: &'static str =
    "https://api.github.com/repos/chrichuang218/codex-windows-cn/releases/latest";

/// Prefix of a launcher release page; the tag follows it.
pub const LAUNCHER_RELEASE_TAG_URL: &'static str =
    "https://github.com/chrichuang218/codex-windows-cn/releases/tag/";

pub const ONE_DAY_SECS: u64 = 86_400;

pub const SEVEN_DAYS_SECS: u64 = 604_800;

// ---------------------------------------------------------------------------
// Version ordering
// ---------------------------------------------------------------------------

/// The numeric components of a dotted version; a component that is not a
/// number counts as 0.
pub open spec fn version_key(v: Seq<char>) -> Seq<u64> {
    split(v, '.').map_values(
        |p: Seq<char>|
            match parse_u64(p) {
                Some(n) => n,
                None => 0u64,
            },
    )
}

/// Lexicographic "greater than" on component sequences (a longer sequence
/// with an equal prefix is greater).
pub open spec fn lex_gt(a: Seq<u64>, b: Seq<u64>) -> bool
    decreases a.len(),
{
    if a.len() == 0 {
        false
    } else if b.len() == 0 {
        true
    } else if a[0] != b[0] {
        a[0] > b[0]
    } else {
        lex_gt(a.drop_first(), b.drop_first())
    }
}

/// `a` is a newer dotted version than `b`.
pub open spec fn version_newer(a: Seq<char>, b: Seq<char>) -> bool {
    lex_gt(version_key(a), version_key(b))
}

proof fn lemma_lex_gt_skip(a: Seq<u64>, b: Seq<u64>, i: int)
    requires
        0 <= i <= a.len(),
        i <= b.len(),
        forall|j: int| 0 <= j < i ==> a[j] == b[j],
    ensures
        lex_gt(a, b) == lex_gt(a.skip(i), b.skip(i)),
    decreases i,
{
    if i > 0 {
        assert(a[0] == b[0]);
        lemma_lex_gt_skip(a.drop_first(), b.drop_first(), i - 1);
        assert(a.drop_first().skip(i - 1) =~= a.skip(i));
        assert(b.drop_first().skip(i - 1) =~= b.skip(i));
    } else {
        assert(a.skip(0) =~= a);
        assert(b.skip(0) =~= b);
    }
}

/// No version is newer than itself.
pub proof fn lemma_lex_gt_irreflexive(a: Seq<u64>)
    ensures
        !lex_gt(a, a),
    decreases a.len(),
{
    if a.len() > 0 {
        lemma_lex_gt_irreflexive(a.drop_first());
    }
}

/// Of two versions at most one is newer than the other.
pub proof fn lemma_lex_gt_asymmetric(a: Seq<u64>, b: Seq<u64>)
    ensures
        !(lex_gt(a, b) && lex_gt(b, a)),
    decreases a.len(),
{
    if a.len() > 0 && b.len() > 0 && a[0] == b[0] {
        lemma_lex_gt_asymmetric(a.drop_first(), b.drop_first());
    }
}

/// "Newer" is transitive.
pub proof fn lemma_lex_gt_transitive(a: Seq<u64>, b: Seq<u64>, c: Seq<u64>)
    requires
        lex_gt(a, b),
        lex_gt(b, c),
    ensures
        lex_gt(a, c),
    decreases a.len(),
{
    if a.len() > 0 && b.len() > 0 && c.len() > 0 && a[0] == b[0] && b[0] == c[0] {
        lemma_lex_gt_transitive(a.drop_first(), b.drop_first(), c.drop_first());
    }
}

/// Two component sequences are equal or one is newer.
pub proof fn lemma_lex_gt_total(a: Seq<u64>, b: Seq<u64>)
    ensures
        a == b || lex_gt(a, b) || lex_gt(b, a),
    decreases a.len(),
{
    if a.len() > 0 && b.len() > 0 && a[0] == b[0] {
        lemma_lex_gt_total(a.drop_first(), b.drop_first());
        if a.drop_first() == b.drop_first() {
            assert(a =~= seq![a[0]] + a.drop_first());
            assert(b =~= seq![b[0]] + b.drop_first());
        }
    } else if a.len() == 0 && b.len() == 0 {
        assert(a =~= b);
    }
}

/// "Is a newer version than" is a strict order on version texts: no version
/// is newer than itself, and it is transitive.
pub proof fn law_version_order_is_strict(a: Seq<char>, b: Seq<char>, c: Seq<char>)
    ensures
        !version_newer(a, a),
        !(version_newer(a, b) && version_newer(b, a)),
        version_newer(a, b) && version_newer(b, c) ==> version_newer(a, c),
{
    lemma_lex_gt_irreflexive(version_key(a));
    lemma_lex_gt_asymmetric(version_key(a), version_key(b));
    if version_newer(a, b) && version_newer(b, c) {
        lemma_lex_gt_transitive(version_key(a), version_key(b), version_key(c));
    }
}

/// The numeric components of `v`, each `parse().unwrap_or(0)`.
pub fn version_components(v: &str) -> (r: Vec<u64>)
    ensures
        r@ == version_key(v@),
{
    let chars = to_chars(v);
    let pieces = split_chars(&chars, '.');
    let mut out: Vec<u64> = Vec::new();
    let mut i: usize = 0;
    while i < pieces.len()
        invariant
            i <= pieces.len(),
            pieces.len() == split(v@, '.').len(),
            chars@ == v@,
            forall|j: int| 0 <= j < pieces.len() ==> #[trigger] pieces[j]@ == split(v@, '.')[j],
            out@ == version_key(v@).subrange(0, i as int),
        decreases pieces.len() - i,
    {
        let piece = &pieces[i];
        let parsed = parse_u64_chars(piece, 0, piece.len());
        assert(piece@.subrange(0, piece@.len() as int) =~= piece@);
        let n = match parsed {
            Some(n) => n,
            None => 0,
        };
        out.push(n);
        i = i + 1;
        assert(out@ =~= version_key(v@).subrange(0, i as int));
    }
    assert(version_key(v@).subrange(0, i as int) =~= version_key(v@));
    out
}

/// Lexicographic comparison of component vectors (`Vec<u64>`'s `>`).
pub fn components_gt(a: &Vec<u64>, b: &Vec<u64>) -> (r: bool)
    ensures
        r == lex_gt(a@, b@),
{
    let mut i: usize = 0;
    while i < a.len() && i < b.len()
        invariant
            i <= a.len(),
            i <= b.len(),
            forall|j: int| 0 <= j < i ==> a@[j] == b@[j],
        decreases a.len() - i,
    {
        if a[i] != b[i] {
            proof {
                lemma_lex_gt_skip(a@, b@, i as int);
                assert(a@.skip(i as int)[0] == a@[i as int]);
                assert(b@.skip(i as int)[0] == b@[i as int]);
            }
            return a[i] > b[i];
        }
        i = i + 1;
    }
    proof {
        lemma_lex_gt_skip(a@, b@, i as int);
    }
    a.len() > b.len()
}

/// Dotted-numeric compare: is `a` newer than `b`?
pub fn version_gt(a: &str, b: &str) -> (r: bool)
    ensures
        r == version_newer(a@, b@),
{
    let pa = version_components(a);
    let pb = version_components(b);
    components_gt(&pa, &pb)
}

// ---------------------------------------------------------------------------
// Decisions
// ---------------------------------------------------------------------------

/// The official app's latest Store release as resolved over the network.
#[derive(Debug, Clone)]
pub struct LatestProduct {
    pub version: String,
    pub title: String,
}

#[derive(Debug, Clone)]
pub enum UpdateDecision {
    /// Skip the check entirely (policy=Never, suppressed, or policy cooldown).
    Skipped { reason: String },
    /// Check ran; we're on the latest version.
    UpToDate { version: String, product_name: String },
    /// Check ran; the Store publishes a version other than the installed one.
    Available { current: String, latest: String, product_name: String },
    /// Check failed; surface the error but don't block the app.
    Error(String),
}

pub enum UpdateDecisionView {
    Skipped(Seq<char>),
    UpToDate(Seq<char>, Seq<char>),
    Available(Seq<char>, Seq<char>, Seq<char>),
    Error(Seq<char>),
}

impl View for UpdateDecision {
    type V = UpdateDecisionView;

    open spec fn view(&self) -> UpdateDecisionView {
        match self {
            UpdateDecision::Skipped { reason } => UpdateDecisionView::Skipped(reason@),
            UpdateDecision::UpToDate { version, product_name } => UpdateDecisionView::UpToDate(
                version@,
                product_name@,
            ),
            UpdateDecision::Available { current, latest, product_name } =>
                UpdateDecisionView::Available(current@, latest@, product_name@),
            UpdateDecision::Error(message) => UpdateDecisionView::Error(message@),
        }
    }
}

#[derive(Debug, Clone, Copy, PartialEq, Eq, Structural)]
pub enum DeferChoice {
    /// Update right now.
    UpdateNow,
    /// Remind me on the next scheduled check.
    NotNow,
    /// Skip this specific version.
    SkipThisVersion,
    /// Snooze 1 day.
    SnoozeOneDay,
    /// Snooze 7 days.
    SnoozeSevenDays,
    /// Turn off all update prompts.
    Never,
}

#[derive(Debug, Clone)]
pub enum LauncherDecision {
    /// Skipped (policy=Never, snoozed, within cooldown, or skip-this-version match).
    Skipped { reason: String },
    /// We're on the latest tag.
    UpToDate { version: String },
    /// A newer tag is published; `release_url` is its GitHub Releases page.
    Available { current: String, latest: String, release_url: String },
    /// API call or parse failed. Surface but don't block.
    Error(String),
}

pub enum LauncherDecisionView {
    Skipped(Seq<char>),
    UpToDate(Seq<char>),
    Available(Seq<char>, Seq<char>, Seq<char>),
    Error(Seq<char>),
}

impl View for LauncherDecision {
    type V = LauncherDecisionView;

    open spec fn view(&self) -> LauncherDecisionView {
        match self {
            LauncherDecision::Skipped { reason } => LauncherDecisionView::Skipped(reason@),
            LauncherDecision::UpToDate { version } => LauncherDecisionView::UpToDate(version@),
            LauncherDecision::Available { current, latest, release_url } =>
                LauncherDecisionView::Available(current@, latest@, release_url@),
            LauncherDecision::Error(message) => LauncherDecisionView::Error(message@),
        }
    }
}

#[derive(Debug, Clone, Copy, PartialEq, Eq, Structural)]
pub enum LauncherDeferChoice {
    /// Open the release page in the user's default browser. Doesn't dismiss.
    ViewRelease,
    /// Defer until next cooldown roll.
    NotNow,
    /// Suppress prompts only while GitHub's latest equals this version.
    SkipThisVersion,
    SnoozeOneDay,
    SnoozeSevenDays,
    /// Suppress launcher prompts effectively forever.
    Never,
    /// Download the new launcher and replace the running exe in place.
    ApplyUpdate,
}

// ---------------------------------------------------------------------------
// Specifications of the decisions
// ---------------------------------------------------------------------------

pub open spec fn cooldown_secs(p: UpdatePolicy) -> u64 {
    match p {
        UpdatePolicy::Always => 0,
        UpdatePolicy::Daily => 86_400,
        UpdatePolicy::Weekly => 604_800,
        UpdatePolicy::Never => u64::MAX,
    }
}

pub open spec fn saturating_sub(a: u64, b: u64) -> u64 {
    if a >= b {
        (a - b) as u64
    } else {
        0
    }
}

pub open spec fn days_left(until: u64, now: u64) -> nat {
    ((until - now) / 86_400) as nat
}

/// Why an automatic app check would not query the Store, if it would not.
pub open spec fn auto_skip_reason(cfg: ConfigView, now: u64) -> Option<Seq<char>> {
    if cfg.update_policy == UpdatePolicy::Never {
        Some("update_policy = never"@)
    } else if cfg.suppress_until_unix is Some && now < cfg.suppress_until_unix->0 {
        Some("suppressed for ~"@ + decimal(days_left(cfg.suppress_until_unix->0, now)) + "d"@)
    } else if cfg.last_check_unix is Some && saturating_sub(now, cfg.last_check_unix->0)
        < cooldown_secs(cfg.update_policy) {
        Some("within cooldown"@)
    } else {
        None
    }
}

/// Why an automatic launcher check would not query GitHub, if it would not.
pub open spec fn launcher_skip_reason(cfg: ConfigView, now: u64) -> Option<Seq<char>> {
    if cfg.update_policy == UpdatePolicy::Never {
        Some("update_policy = never"@)
    } else if cfg.launcher_suppress_until_unix is Some && now
        < cfg.launcher_suppress_until_unix->0 {
        Some(
            "launcher prompt suppressed for ~"@ + decimal(
                days_left(cfg.launcher_suppress_until_unix->0, now),
            ) + "d"@,
        )
    } else if cfg.last_launcher_check_unix is Some && saturating_sub(
        now,
        cfg.last_launcher_check_unix->0,
    ) < cooldown_secs(cfg.update_policy) {
        Some("within cooldown"@)
    } else {
        None
    }
}

/// The Store lookup's outcome as plain text: `(version, title)` or an error.
pub open spec fn resolved_view(r: Result<LatestProduct, String>) -> Result<
    (Seq<char>, Seq<char>),
    Seq<char>,
> {
    match r {
        Ok(p) => Ok((p.version@, p.title@)),
        Err(e) => Err(e@),
    }
}

pub open spec fn text_result(r: Result<String, String>) -> Result<Seq<char>, Seq<char>> {
    match r {
        Ok(t) => Ok(t@),
        Err(e) => Err(e@),
    }
}

/// An explicit check: the resolved latest equal to `current_version` is up to
/// date; any other version is offered.
pub open spec fn check_now_spec(
    cfg: ConfigView,
    resolved: Result<(Seq<char>, Seq<char>), Seq<char>>,
) -> UpdateDecisionView {
    match resolved {
        Ok((version, title)) => if version != cfg.current_version {
            UpdateDecisionView::Available(cfg.current_version, version, title)
        } else {
            UpdateDecisionView::UpToDate(version, title)
        },
        Err(message) => UpdateDecisionView::Error(message),
    }
}

/// "Skip this version" holds only while the latest equals the skipped version.
pub open spec fn honor_skipped(cfg: ConfigView, d: UpdateDecisionView) -> UpdateDecisionView {
    match d {
        UpdateDecisionView::Available(_, latest, _) => if cfg.skipped_version == Some(latest) {
            UpdateDecisionView::Skipped("version "@ + latest + " skipped by user"@)
        } else {
            d
        },
        _ => d,
    }
}

pub open spec fn check_auto_spec(
    cfg: ConfigView,
    now: u64,
    resolved: Result<(Seq<char>, Seq<char>), Seq<char>>,
) -> UpdateDecisionView {
    match auto_skip_reason(cfg, now) {
        Some(reason) => UpdateDecisionView::Skipped(reason),
        None => honor_skipped(cfg, check_now_spec(cfg, resolved)),
    }
}

pub open spec fn cached_decision_spec(cfg: ConfigView, product_name: Seq<char>, now: u64) -> Option<
    UpdateDecisionView,
> {
    if cfg.update_policy == UpdatePolicy::Never {
        None
    } else if cfg.suppress_until_unix is Some && now < cfg.suppress_until_unix->0 {
        None
    } else if cfg.known_latest is None {
        None
    } else if cfg.skipped_version == cfg.known_latest {
        None
    } else if version_newer(cfg.known_latest->0, cfg.current_version) {
        Some(
            UpdateDecisionView::Available(cfg.current_version, cfg.known_latest->0, product_name),
        )
    } else {
        Some(UpdateDecisionView::UpToDate(cfg.current_version, product_name))
    }
}

pub open spec fn apply_defer_spec(
    cfg: ConfigView,
    choice: DeferChoice,
    latest: Seq<char>,
    now: u64,
) -> ConfigView {
    let base = ConfigView { last_check_unix: Some(now), known_latest: Some(latest), ..cfg };
    match choice {
        DeferChoice::UpdateNow => ConfigView {
            suppress_until_unix: None,
            skipped_version: None,
            ..base
        },
        DeferChoice::NotNow => base,
        DeferChoice::SkipThisVersion => ConfigView { skipped_version: Some(latest), ..base },
        DeferChoice::SnoozeOneDay => ConfigView {
            suppress_until_unix: Some((now + 86_400) as u64),
            ..base
        },
        DeferChoice::SnoozeSevenDays => ConfigView {
            suppress_until_unix: Some((now + 604_800) as u64),
            ..base
        },
        DeferChoice::Never => ConfigView {
            update_policy: UpdatePolicy::Never,
            suppress_until_unix: None,
            ..base
        },
    }
}

pub open spec fn record_auto_check_spec(
    cfg: ConfigView,
    decision: UpdateDecisionView,
    now: u64,
) -> ConfigView {
    let base = ConfigView { last_check_unix: Some(now), ..cfg };
    match decision {
        UpdateDecisionView::Available(_, latest, _) => ConfigView {
            known_latest: Some(latest),
            ..base
        },
        UpdateDecisionView::UpToDate(version, _) => ConfigView {
            known_latest: Some(version),
            ..base
        },
        _ => base,
    }
}

pub open spec fn release_page(tag: Seq<char>) -> Seq<char> {
    "https://github.com/chrichuang218/codex-windows-cn/releases/tag/"@ + tag
}

pub open spec fn pending_launcher_spec(cfg: ConfigView, current: Seq<char>, now: u64) -> Option<
    LauncherDecisionView,
> {
    if cfg.update_policy == UpdatePolicy::Never {
        None
    } else if cfg.launcher_suppress_until_unix is Some && now
        < cfg.launcher_suppress_until_unix->0 {
        None
    } else if cfg.known_latest_launcher is None {
        None
    } else if cfg.skipped_launcher_version == cfg.known_latest_launcher {
        None
    } else if !version_newer(cfg.known_latest_launcher->0, current) {
        None
    } else {
        Some(
            LauncherDecisionView::Available(
                current,
                cfg.known_latest_launcher->0,
                release_page("v"@ + cfg.known_latest_launcher->0),
            ),
        )
    }
}

pub open spec fn check_launcher_now_spec(
    current: Seq<char>,
    fetched: Result<Seq<char>, Seq<char>>,
) -> LauncherDecisionView {
    match fetched {
        Ok(tag) => {
            let latest = trim_start_char(tag, 'v');
            if version_newer(latest, current) {
                LauncherDecisionView::Available(current, latest, release_page(tag))
            } else {
                LauncherDecisionView::UpToDate(latest)
            }
        },
        Err(message) => LauncherDecisionView::Error(message),
    }
}

pub open spec fn check_launcher_auto_spec(
    cfg: ConfigView,
    current: Seq<char>,
    now: u64,
    fetched: Result<Seq<char>, Seq<char>>,
) -> LauncherDecisionView {
    match launcher_skip_reason(cfg, now) {
        Some(reason) => LauncherDecisionView::Skipped(reason),
        None => {
            let d = check_launcher_now_spec(current, fetched);
            match d {
                LauncherDecisionView::Available(_, latest, _) => if cfg.skipped_launcher_version
                    == Some(latest) {
                    LauncherDecisionView::Skipped(
                        "launcher version "@ + latest + " skipped by user"@,
                    )
                } else {
                    d
                },
                _ => d,
            }
        },
    }
}

pub open spec fn apply_launcher_defer_spec(
    cfg: ConfigView,
    choice: LauncherDeferChoice,
    latest: Seq<char>,
    now: u64,
) -> ConfigView {
    let base = ConfigView { known_latest_launcher: Some(latest), ..cfg };
    match choice {
        LauncherDeferChoice::SkipThisVersion => ConfigView {
            skipped_launcher_version: Some(latest),
            ..base
        },
        LauncherDeferChoice::SnoozeOneDay => ConfigView {
            launcher_suppress_until_unix: Some((now + 86_400) as u64),
            ..base
        },
        LauncherDeferChoice::SnoozeSevenDays => ConfigView {
            launcher_suppress_until_unix: Some((now + 604_800) as u64),
            ..base
        },
        LauncherDeferChoice::Never => ConfigView {
            launcher_suppress_until_unix: Some(u64::MAX),
            ..base
        },
        _ => base,
    }
}

pub open spec fn record_launcher_check_spec(
    cfg: ConfigView,
    decision: LauncherDecisionView,
    now: u64,
) -> ConfigView {
    let base = ConfigView { last_launcher_check_unix: Some(now), ..cfg };
    match decision {
        LauncherDecisionView::Available(_, latest, _) => ConfigView {
            known_latest_launcher: Some(latest),
            ..base
        },
        LauncherDecisionView::UpToDate(version) => ConfigView {
            known_latest_launcher: Some(version),
            ..base
        },
        _ => base,
    }
}

/// The tag named by a `/releases/latest` redirect `Location`.
pub open spec fn tag_from_location_spec(location: Seq<char>) -> Option<Seq<char>> {
    let without_query = split(split(location, '#')[0], '?')[0];
    let marker = "/releases/tag/"@;
    match find(without_query, marker) {
        None => None,
        Some(at) => {
            let rest = without_query.subrange(at + marker.len(), without_query.len() as int);
            let tag = trim(split(rest, '/')[0]);
            if tag.len() == 0 {
                None
            } else {
                Some(tag)
            }
        },
    }
}

// ---------------------------------------------------------------------------
// Executable decisions
// ---------------------------------------------------------------------------

fn opt_text_eq(o: &Option<String>, s: &str) -> (r: bool)
    ensures
        r == (opt_text(*o) == Some(s@)),
{
    match o {
        Some(x) => str_eq(x.as_str(), s),
        None => false,
    }
}

fn opt_texts_eq(a: &Option<String>, b: &Option<String>) -> (r: bool)
    ensures
        r == (opt_text(*a) == opt_text(*b)),
{
    match (a, b) {
        (Some(x), Some(y)) => str_eq(x.as_str(), y.as_str()),
        (None, None) => true,
        _ => false,
    }
}

/// Seconds an automatic check waits after the previous one.
pub fn policy_cooldown_secs(p: UpdatePolicy) -> (r: u64)
    ensures
        r == cooldown_secs(p),
{
    match p {
        UpdatePolicy::Always => 0,
        UpdatePolicy::Daily => 86_400,
        UpdatePolicy::Weekly => 604_800,
        UpdatePolicy::Never => u64::MAX,
    }
}

fn suppressed_text(label: &str, until: u64, now: u64) -> (r: String)
    requires
        now < until,
    ensures
        r@ == label@ + decimal(days_left(until, now)) + "d"@,
{
    let days = (until - now) / 86_400;
    let mut r = owned(label);
    let digits = decimal_string(days);
    r.append(digits.as_str());
    r.append("d");
    r
}

/// Why an automatic app check at time `now` would skip the Store query.
pub fn auto_check_skip_reason_at(cfg: &Config, now: u64) -> (r: Option<String>)
    ensures
        opt_text(r) == auto_skip_reason(cfg@, now),
{
    if cfg.update_policy == UpdatePolicy::Never {
        return Some(owned("update_policy = never"));
    }
    if let Some(until) = cfg.suppress_until_unix {
        if now < until {
            return Some(suppressed_text("suppressed for ~", until, now));
        }
    }
    if let Some(last) = cfg.last_check_unix {
        let cooldown = policy_cooldown_secs(cfg.update_policy);
        if now.saturating_sub(last) < cooldown {
            return Some(owned("within cooldown"));
        }
    }
    None
}

/// Why an automatic launcher check at time `now` would skip the GitHub query.
pub fn launcher_auto_check_skip_reason_at(cfg: &Config, now: u64) -> (r: Option<String>)
    ensures
        opt_text(r) == launcher_skip_reason(cfg@, now),
{
    if cfg.update_policy == UpdatePolicy::Never {
        return Some(owned("update_policy = never"));
    }
    if let Some(until) = cfg.launcher_suppress_until_unix {
        if now < until {
            return Some(suppressed_text("launcher prompt suppressed for ~", until, now));
        }
    }
    if let Some(last) = cfg.last_launcher_check_unix {
        let cooldown = policy_cooldown_secs(cfg.update_policy);
        if now.saturating_sub(last) < cooldown {
            return Some(owned("within cooldown"));
        }
    }
    None
}

/// Whether an automatic app check at time `now` would query the Store.
pub fn auto_check_will_query_at(cfg: &Config, now: u64) -> (r: bool)
    ensures
        r == (auto_skip_reason(cfg@, now) is None),
{
    auto_check_skip_reason_at(cfg, now).is_none()
}

/// True when `check_auto` would perform the Store lookup now instead of
/// skipping due to policy, snooze, or cooldown.
pub fn auto_check_will_query(cfg: &Config) -> (r: bool)
    ensures
        exists|now: u64| r == (auto_skip_reason(cfg@, now) is None),
{
    let now = now_unix();
    auto_check_will_query_at(cfg, now)
}

/// Whether an automatic launcher check at time `now` would query GitHub.
pub fn launcher_auto_check_will_query_at(cfg: &Config, now: u64) -> (r: bool)
    ensures
        r == (launcher_skip_reason(cfg@, now) is None),
{
    launcher_auto_check_skip_reason_at(cfg, now).is_none()
}

/// True when `check_launcher_auto` would call GitHub now instead of
/// skipping due to policy, launcher snooze, or cooldown.
pub fn launcher_auto_check_will_query(cfg: &Config) -> (r: bool)
    ensures
        exists|now: u64| r == (launcher_skip_reason(cfg@, now) is None),
{
    let now = now_unix();
    launcher_auto_check_will_query_at(cfg, now)
}

/// An explicit check: compares the Store's latest (already resolved by the
/// caller) against `current_version`, regardless of policy or suppression.
/// The same version is up to date; any different one is offered.
pub fn check_now(cfg: &Config, resolved: Result<LatestProduct, String>) -> (r: UpdateDecision)
    ensures
        r@ == check_now_spec(cfg@, resolved_view(resolved)),
{
    match resolved {
        Ok(product) => {
            if !str_eq(product.version.as_str(), cfg.current_version.as_str()) {
                UpdateDecision::Available {
                    current: cfg.current_version.clone(),
                    latest: product.version,
                    product_name: product.title,
                }
            } else {
                UpdateDecision::UpToDate { version: product.version, product_name: product.title }
            }
        },
        Err(message) => UpdateDecision::Error(message),
    }
}

/// An automatic check at time `now`. `resolved` is the Store lookup, which
/// the caller performs exactly when `auto_check_will_query_at` says so.
pub fn check_auto(cfg: &Config, now: u64, resolved: Option<Result<LatestProduct, String>>) -> (r:
    UpdateDecision)
    requires
        auto_skip_reason(cfg@, now) is None ==> resolved is Some,
    ensures
        auto_skip_reason(cfg@, now) is Some ==> r@ == UpdateDecisionView::Skipped(
            auto_skip_reason(cfg@, now)->0,
        ),
        auto_skip_reason(cfg@, now) is None ==> r@ == check_auto_spec(
            cfg@,
            now,
            resolved_view(resolved->0),
        ),
{
    if let Some(reason) = auto_check_skip_reason_at(cfg, now) {
        return UpdateDecision::Skipped { reason };
    }
    let resolved = match resolved {
        Some(r) => r,
        None => {
            proof {
                assert(false);
            }
            Err(String::new())
        },
    };
    let decision = check_now(cfg, resolved);
    match decision {
        UpdateDecision::Available { current, latest, product_name } => {
            if opt_text_eq(&cfg.skipped_version, latest.as_str()) {
                let mut reason = owned("version ");
                reason.append(latest.as_str());
                reason.append(" skipped by user");
                UpdateDecision::Skipped { reason }
            } else {
                UpdateDecision::Available { current, latest, product_name }
            }
        },
        other => other,
    }
}

/// The last Store result reused while an automatic check is inside its
/// cooldown at time `now`, if prompting is allowed: a known version newer
/// than the installed one is offered, anything else reads as up to date.
pub fn cached_update_decision_at(cfg: &Config, product_name: &str, now: u64) -> (r: Option<
    UpdateDecision,
>)
    ensures
        match r {
            Some(d) => cached_decision_spec(cfg@, product_name@, now) == Some(d@),
            None => cached_decision_spec(cfg@, product_name@, now) is None,
        },
{
    if cfg.update_policy == UpdatePolicy::Never {
        return None;
    }
    if let Some(until) = cfg.suppress_until_unix {
        if now < until {
            return None;
        }
    }
    let latest = match &cfg.known_latest {
        Some(latest) => latest,
        None => return None,
    };
    if opt_texts_eq(&cfg.skipped_version, &cfg.known_latest) {
        return None;
    }
    if version_gt(latest.as_str(), cfg.current_version.as_str()) {
        return Some(
            UpdateDecision::Available {
                current: cfg.current_version.clone(),
                latest: latest.clone(),
                product_name: owned(product_name),
            },
        );
    }
    Some(
        UpdateDecision::UpToDate {
            version: cfg.current_version.clone(),
            product_name: owned(product_name),
        },
    )
}

/// Reuse the last successful Store result while an automatic check is inside
/// its cooldown, so a known update stays visible without a network request.
pub fn cached_update_decision(cfg: &Config, product_name: &str) -> (r: Option<UpdateDecision>)
    ensures
        exists|now: u64|
            match r {
                Some(d) => cached_decision_spec(cfg@, product_name@, now) == Some(d@),
                None => cached_decision_spec(cfg@, product_name@, now) is None,
            },
{
    let now = now_unix();
    cached_update_decision_at(cfg, product_name, now)
}

/// Apply a defer choice made at time `now`. `latest` is the version the user
/// was prompted about.
pub fn apply_defer_at(cfg: &mut Config, choice: DeferChoice, latest: &str, now: u64)
    requires
        now <= u64::MAX - SEVEN_DAYS_SECS,
    ensures
        final(cfg)@ == apply_defer_spec(old(cfg)@, choice, latest@, now),
{
    cfg.last_check_unix = Some(now);
    cfg.known_latest = Some(owned(latest));
    match choice {
        DeferChoice::UpdateNow => {
            cfg.suppress_until_unix = None;
            cfg.skipped_version = None;
        },
        DeferChoice::NotNow => {},
        DeferChoice::SkipThisVersion => {
            cfg.skipped_version = Some(owned(latest));
        },
        DeferChoice::SnoozeOneDay => {
            cfg.suppress_until_unix = Some(now + ONE_DAY_SECS);
        },
        DeferChoice::SnoozeSevenDays => {
            cfg.suppress_until_unix = Some(now + SEVEN_DAYS_SECS);
        },
        DeferChoice::Never => {
            cfg.update_policy = UpdatePolicy::Never;
            cfg.suppress_until_unix = None;
        },
    }
    assert(cfg@ =~= apply_defer_spec(old(cfg)@, choice, latest@, now));
}

/// The clock reading used for prompts, kept far enough from the end of the
/// `u64` range that a seven-day snooze still fits.
fn prompt_clock() -> (now: u64)
    ensures
        now <= u64::MAX - SEVEN_DAYS_SECS,
{
    let now = now_unix();
    if now > u64::MAX - SEVEN_DAYS_SECS {
        u64::MAX - SEVEN_DAYS_SECS
    } else {
        now
    }
}

/// Apply a defer choice to `cfg` at the current time. Caller persists.
pub fn apply_defer(cfg: &mut Config, choice: DeferChoice, latest: &str)
    ensures
        exists|now: u64| final(cfg)@ == apply_defer_spec(old(cfg)@, choice, latest@, now),
{
    let now = prompt_clock();
    apply_defer_at(cfg, choice, latest, now);
}

/// Record a successful check at time `now`.
pub fn record_check_at(cfg: &mut Config, latest: &str, now: u64)
    ensures
        final(cfg)@ == (ConfigView {
            last_check_unix: Some(now),
            known_latest: Some(latest@),
            ..old(cfg)@
        }),
{
    cfg.last_check_unix = Some(now);
    cfg.known_latest = Some(owned(latest));
    assert(cfg@ =~= (ConfigView {
        last_check_unix: Some(now),
        known_latest: Some(latest@),
        ..old(cfg)@
    }));
}

/// Record a successful up-to-date check: bumps `last_check_unix` and `known_latest`.
pub fn record_check(cfg: &mut Config, latest: &str)
    ensures
        final(cfg)@.last_check_unix is Some,
        final(cfg)@ == (ConfigView {
            last_check_unix: final(cfg)@.last_check_unix,
            known_latest: Some(latest@),
            ..old(cfg)@
        }),
{
    let now = now_unix();
    record_check_at(cfg, latest, now);
}

/// Record an automatic check attempt made at time `now`.
pub fn record_auto_check_at(cfg: &mut Config, decision: &UpdateDecision, now: u64)
    ensures
        final(cfg)@ == record_auto_check_spec(old(cfg)@, decision@, now),
{
    cfg.last_check_unix = Some(now);
    match decision {
        UpdateDecision::Available { latest, .. } => cfg.known_latest = Some(latest.clone()),
        UpdateDecision::UpToDate { version, .. } => cfg.known_latest = Some(version.clone()),
        UpdateDecision::Skipped { .. } | UpdateDecision::Error(_) => {},
    }
    assert(cfg@ =~= record_auto_check_spec(old(cfg)@, decision@, now));
}

/// Record an automatic check attempt so the cooldown also applies after an
/// available update or a transient error.
pub fn record_auto_check(cfg: &mut Config, decision: &UpdateDecision)
    ensures
        exists|now: u64| final(cfg)@ == record_auto_check_spec(old(cfg)@, decision@, now),
{
    let now = now_unix();
    record_auto_check_at(cfg, decision, now);
}

/// A pending launcher prompt rebuilt from persisted state at time `now`,
/// with `current` the running launcher's version; no network.
pub fn pending_launcher_from_state_at(cfg: &Config, current: &str, now: u64) -> (r: Option<
    LauncherDecision,
>)
    ensures
        match r {
            Some(d) => pending_launcher_spec(cfg@, current@, now) == Some(d@),
            None => pending_launcher_spec(cfg@, current@, now) is None,
        },
{
    if cfg.update_policy == UpdatePolicy::Never {
        return None;
    }
    if let Some(until) = cfg.launcher_suppress_until_unix {
        if now < until {
            return None;
        }
    }
    let latest = match &cfg.known_latest_launcher {
        Some(latest) => latest,
        None => return None,
    };
    if opt_texts_eq(&cfg.skipped_launcher_version, &cfg.known_latest_launcher) {
        return None;
    }
    if !version_gt(latest.as_str(), current) {
        return None;
    }
    let mut release_url = owned(LAUNCHER_RELEASE_TAG_URL);
    release_url.append("v");
    release_url.append(latest.as_str());
    assert(release_url@ =~= release_page("v"@ + latest@));
    Some(
        LauncherDecision::Available {
            current: owned(current),
            latest: latest.clone(),
            release_url,
        },
    )
}

/// Reconstruct a pending launcher prompt from persisted state; `Some` only
/// when the known latest launcher is newer than `current` and not silenced.
pub fn pending_launcher_from_state(cfg: &Config, current: &str) -> (r: Option<LauncherDecision>)
    ensures
        exists|now: u64|
            match r {
                Some(d) => pending_launcher_spec(cfg@, current@, now) == Some(d@),
                None => pending_launcher_spec(cfg@, current@, now) is None,
            },
{
    let now = now_unix();
    pending_launcher_from_state_at(cfg, current, now)
}

/// A forced launcher check: `fetched` is the latest release tag (or the
/// error) that the caller obtained from GitHub; `current` is the running
/// launcher's version.
pub fn check_launcher_now(current: &str, fetched: Result<String, String>) -> (r: LauncherDecision)
    ensures
        r@ == check_launcher_now_spec(current@, text_result(fetched)),
{
    match fetched {
        Ok(tag) => {
            let latest = trim_start_matches_char(tag.as_str(), 'v');
            if version_gt(latest.as_str(), current) {
                let mut release_url = owned(LAUNCHER_RELEASE_TAG_URL);
                release_url.append(tag.as_str());
                LauncherDecision::Available { current: owned(current), latest, release_url }
            } else {
                LauncherDecision::UpToDate { version: latest }
            }
        },
        Err(message) => LauncherDecision::Error(message),
    }
}

/// An automatic launcher check at time `now`; `fetched` is the GitHub
/// lookup, performed exactly when `launcher_auto_check_will_query_at` says so.
pub fn check_launcher_auto(
    cfg: &Config,
    current: &str,
    now: u64,
    fetched: Option<Result<String, String>>,
) -> (r: LauncherDecision)
    requires
        launcher_skip_reason(cfg@, now) is None ==> fetched is Some,
    ensures
        launcher_skip_reason(cfg@, now) is Some ==> r@ == LauncherDecisionView::Skipped(
            launcher_skip_reason(cfg@, now)->0,
        ),
        launcher_skip_reason(cfg@, now) is None ==> r@ == check_launcher_auto_spec(
            cfg@,
            current@,
            now,
            text_result(fetched->0),
        ),
{
    if let Some(reason) = launcher_auto_check_skip_reason_at(cfg, now) {
        return LauncherDecision::Skipped { reason };
    }
    let fetched = match fetched {
        Some(f) => f,
        None => {
            proof {
                assert(false);
            }
            Err(String::new())
        },
    };
    let decision = check_launcher_now(current, fetched);
    match decision {
        LauncherDecision::Available { current, latest, release_url } => {
            if opt_text_eq(&cfg.skipped_launcher_version, latest.as_str()) {
                let mut reason = owned("launcher version ");
                reason.append(latest.as_str());
                reason.append(" skipped by user");
                LauncherDecision::Skipped { reason }
            } else {
                LauncherDecision::Available { current, latest, release_url }
            }
        },
        other => other,
    }
}

/// The tag in a GitHub `/releases/latest` redirect `Location` header.
pub fn tag_from_latest_release_location(location: &str) -> (r: Option<String>)
    ensures
        opt_text(r) == tag_from_location_spec(location@),
{
    let chars = to_chars(location);
    let hash_pieces = split_chars(&chars, '#');
    proof {
        lemma_split_nonempty(location@, '#');
    }
    let without_fragment = &hash_pieces[0];
    let query_pieces = split_chars(without_fragment, '?');
    proof {
        lemma_split_nonempty(without_fragment@, '?');
    }
    let without_query = &query_pieces[0];
    let marker = to_chars("/releases/tag/");
    let found = find_chars(without_query, &marker);
    let at = match found {
        Some(at) => at,
        None => return None,
    };
    proof {
        reveal_strlit("/releases/tag/");
        lemma_find_in_bounds(without_query@, marker@, 0);
        assert(find(without_query@, marker@) == Some(at as int));
        assert(at + marker@.len() <= without_query@.len());
    }
    assert(without_query@.len() == without_query.len());
    assert(marker@.len() == marker.len());
    let start = at + marker.len();
    let rest = string_from_chars(without_query, start, without_query.len());
    let rest_chars = to_chars(rest.as_str());
    let slash_pieces = split_chars(&rest_chars, '/');
    proof {
        lemma_split_nonempty(rest@, '/');
    }
    let first = string_of(&slash_pieces[0]);
    let tag = trim_str(first.as_str());
    if tag.unicode_len() == 0 {
        return None;
    }
    Some(tag)
}

proof fn lemma_find_in_bounds(s: Seq<char>, m: Seq<char>, i: int)
    requires
        find_from(s, m, i) is Some,
    ensures
        i <= find_from(s, m, i)->0,
        find_from(s, m, i)->0 + m.len() <= s.len(),
    decreases s.len() - i,
{
    if !(i < 0 || i + m.len() > s.len()) && !(m.len() == 0 || s.subrange(i, i + m.len()) == m) {
        lemma_find_in_bounds(s, m, i + 1);
    }
}

/// Apply a launcher defer choice made at time `now`. Caller persists.
pub fn apply_launcher_defer_at(cfg: &mut Config, choice: LauncherDeferChoice, latest: &str, now: u64)
    requires
        now <= u64::MAX - SEVEN_DAYS_SECS,
    ensures
        final(cfg)@ == apply_launcher_defer_spec(old(cfg)@, choice, latest@, now),
{
    cfg.known_latest_launcher = Some(owned(latest));
    match choice {
        LauncherDeferChoice::ViewRelease
        | LauncherDeferChoice::NotNow
        | LauncherDeferChoice::ApplyUpdate => {},
        LauncherDeferChoice::SkipThisVersion => {
            cfg.skipped_launcher_version = Some(owned(latest));
        },
        LauncherDeferChoice::SnoozeOneDay => {
            cfg.launcher_suppress_until_unix = Some(now + ONE_DAY_SECS);
        },
        LauncherDeferChoice::SnoozeSevenDays => {
            cfg.launcher_suppress_until_unix = Some(now + SEVEN_DAYS_SECS);
        },
        LauncherDeferChoice::Never => {
            cfg.launcher_suppress_until_unix = Some(u64::MAX);
        },
    }
    assert(cfg@ =~= apply_launcher_defer_spec(old(cfg)@, choice, latest@, now));
}

/// Apply a launcher defer choice at the current time. Caller persists.
pub fn apply_launcher_defer(cfg: &mut Config, choice: LauncherDeferChoice, latest: &str)
    ensures
        exists|now: u64|
            final(cfg)@ == apply_launcher_defer_spec(old(cfg)@, choice, latest@, now),
{
    let now = prompt_clock();
    apply_launcher_defer_at(cfg, choice, latest, now);
}

/// Record that a launcher check ran at time `now`.
pub fn record_launcher_check_at(cfg: &mut Config, decision: &LauncherDecision, now: u64)
    ensures
        final(cfg)@ == record_launcher_check_spec(old(cfg)@, decision@, now),
{
    cfg.last_launcher_check_unix = Some(now);
    match decision {
        LauncherDecision::Available { latest, .. } => {
            cfg.known_latest_launcher = Some(latest.clone());
        },
        LauncherDecision::UpToDate { version } => {
            cfg.known_latest_launcher = Some(version.clone());
        },
        LauncherDecision::Skipped { .. } | LauncherDecision::Error(_) => {},
    }
    assert(cfg@ =~= record_launcher_check_spec(old(cfg)@, decision@, now));
}

/// Record that the launcher update check ran. Successful checks also refresh
/// the latest launcher version; errors only advance the cooldown.
pub fn record_launcher_check(cfg: &mut Config, decision: &LauncherDecision)
    ensures
        exists|now: u64| final(cfg)@ == record_launcher_check_spec(old(cfg)@, decision@, now),
{
    let now = now_unix();
    record_launcher_check_at(cfg, decision, now);
}

// ---------------------------------------------------------------------------
// Status checks shown by the UI
// ---------------------------------------------------------------------------

/// The update status the UI shows at time `now`. When an automatic check
/// would query the Store, `resolved` (that lookup) decides and the attempt
/// is recorded in `cfg` (the second result says so, and that `cfg` must be
/// saved); otherwise `cfg` is unchanged and the cached result is reused, or
/// the reason for skipping is shown.
pub fn update_status_decision_at(
    cfg: &mut Config,
    product_name: &str,
    now: u64,
    resolved: Option<Result<LatestProduct, String>>,
) -> (r: (UpdateDecision, bool))
    requires
        auto_skip_reason(old(cfg)@, now) is None ==> resolved is Some,
    ensures
        r.1 == (auto_skip_reason(old(cfg)@, now) is None),
        r.1 ==> r.0@ == check_auto_spec(old(cfg)@, now, resolved_view(resolved->0)) && final(cfg)@
            == record_auto_check_spec(old(cfg)@, r.0@, now),
        !r.1 ==> final(cfg)@ == old(cfg)@ && match cached_decision_spec(
            old(cfg)@,
            product_name@,
            now,
        ) {
            Some(d) => r.0@ == d,
            None => r.0@ == UpdateDecisionView::Skipped(auto_skip_reason(old(cfg)@, now)->0),
        },
{
    let will_query = auto_check_will_query_at(cfg, now);
    if will_query {
        let decision = check_auto(cfg, now, resolved);
        record_auto_check_at(cfg, &decision, now);
        (decision, true)
    } else {
        match cached_update_decision_at(cfg, product_name, now) {
            Some(d) => (d, false),
            None => (check_auto(cfg, now, None), false),
        }
    }
}

/// The launcher update status the UI shows at time `now`, for the running
/// launcher version `current`: a prompt rebuilt from saved state comes
/// first; otherwise an automatic check decides from `fetched` (the GitHub
/// lookup) and is recorded when it queried (the second result says so).
pub fn launcher_status_decision_at(
    cfg: &mut Config,
    current: &str,
    now: u64,
    fetched: Option<Result<String, String>>,
) -> (r: (LauncherDecision, bool))
    requires
        pending_launcher_spec(old(cfg)@, current@, now) is None && launcher_skip_reason(
            old(cfg)@,
            now,
        ) is None ==> fetched is Some,
    ensures
        pending_launcher_spec(old(cfg)@, current@, now) is Some ==> !r.1 && final(cfg)@ == old(cfg)@
            && Some(r.0@) == pending_launcher_spec(old(cfg)@, current@, now),
        pending_launcher_spec(old(cfg)@, current@, now) is None ==> r.1 == (launcher_skip_reason(
            old(cfg)@,
            now,
        ) is None),
        pending_launcher_spec(old(cfg)@, current@, now) is None && launcher_skip_reason(
            old(cfg)@,
            now,
        ) is Some ==> final(cfg)@ == old(cfg)@ && r.0@ == LauncherDecisionView::Skipped(
            launcher_skip_reason(old(cfg)@, now)->0,
        ),
        pending_launcher_spec(old(cfg)@, current@, now) is None && launcher_skip_reason(
            old(cfg)@,
            now,
        ) is None ==> r.0@ == check_launcher_auto_spec(
            old(cfg)@,
            current@,
            now,
            text_result(fetched->0),
        ) && final(cfg)@ == record_launcher_check_spec(old(cfg)@, r.0@, now),
{
    if let Some(d) = pending_launcher_from_state_at(cfg, current, now) {
        return (d, false);
    }
    let will_query = launcher_auto_check_will_query_at(cfg, now);
    let decision = check_launcher_auto(cfg, current, now, fetched);
    if will_query {
        record_launcher_check_at(cfg, &decision, now);
    }
    (decision, will_query)
}

/// After an all-users update, this user's settings take the installed
/// version, the known latest, the cleared snooze and the check time from
/// the updated install; everything else is kept.
pub fn merge_system_update(current_user: &mut Config, updated: &Config)
    ensures
        final(current_user)@ == (ConfigView {
            current_version: updated@.current_version,
            known_latest: updated@.known_latest,
            suppress_until_unix: updated@.suppress_until_unix,
            last_check_unix: updated@.last_check_unix,
            ..old(current_user)@
        }),
{
    current_user.current_version = updated.current_version.clone();
    current_user.known_latest = match &updated.known_latest {
        Some(v) => Some(v.clone()),
        None => None,
    };
    current_user.suppress_until_unix = updated.suppress_until_unix;
    current_user.last_check_unix = updated.last_check_unix;
    assert(current_user@ =~= (ConfigView {
        current_version: updated@.current_version,
        known_latest: updated@.known_latest,
        suppress_until_unix: updated@.suppress_until_unix,
        last_check_unix: updated@.last_check_unix,
        ..old(current_user)@
    }));
}

pub const MISSING_LAUNCHER_TARGET: &'static str = "缺少启动器目标版本";

/// The launcher version a self-update targets: the trimmed text, which
/// must not be blank.
pub fn launcher_update_target(latest_version: &str) -> (r: Result<String, String>)
    ensures
        match r {
            Ok(v) => trim(latest_version@).len() > 0 && v@ == trim(latest_version@),
            Err(e) => trim(latest_version@).len() == 0 && e@ == MISSING_LAUNCHER_TARGET@,
        },
{
    let v = trim_str(latest_version);
    if v.unicode_len() == 0 {
        return Err(owned(MISSING_LAUNCHER_TARGET));
    }
    Ok(v)
}

// ---------------------------------------------------------------------------
// Laws of the update decisions
// ---------------------------------------------------------------------------

/// With the policy `Never`, no automatic check of the app or of the
/// launcher queries anything, and no cached prompt is shown.
pub proof fn law_never_policy_never_prompts(
    cfg: ConfigView,
    now: u64,
    product_name: Seq<char>,
    current_launcher: Seq<char>,
)
    requires
        cfg.update_policy == UpdatePolicy::Never,
    ensures
        auto_skip_reason(cfg, now) is Some,
        launcher_skip_reason(cfg, now) is Some,
        cached_decision_spec(cfg, product_name, now) is None,
        pending_launcher_spec(cfg, current_launcher, now) is None,
{
}

/// "Skip this version" suppresses exactly the skipped version: no later
/// automatic check offers it, while any other version that differs from the
/// current one is still offered once no other skip reason applies.
pub proof fn law_skip_this_version_is_exact(
    cfg: ConfigView,
    latest: Seq<char>,
    now: u64,
    later: u64,
    resolved: Result<(Seq<char>, Seq<char>), Seq<char>>,
)
    ensures
        ({
            let c = apply_defer_spec(cfg, DeferChoice::SkipThisVersion, latest, now);
            &&& check_auto_spec(c, later, resolved) matches UpdateDecisionView::Available(_, l, _)
                ==> l != latest
            &&& (auto_skip_reason(c, later) is None && resolved is Ok && resolved->Ok_0.0 != latest
                && resolved->Ok_0.0 != c.current_version) ==> check_auto_spec(
                c,
                later,
                resolved,
            ) == UpdateDecisionView::Available(c.current_version, resolved->Ok_0.0, resolved->Ok_0.1)
        }),
{
}

/// Snoozing keeps automatic checks and cached prompts quiet for the whole
/// snooze period.
pub proof fn law_snooze_silences_until_expiry(
    cfg: ConfigView,
    choice: DeferChoice,
    latest: Seq<char>,
    now: u64,
    later: u64,
    product_name: Seq<char>,
)
    requires
        choice == DeferChoice::SnoozeOneDay || choice == DeferChoice::SnoozeSevenDays,
        now + SEVEN_DAYS_SECS <= u64::MAX,
        now <= later,
        later < now + (if choice == DeferChoice::SnoozeOneDay {
            ONE_DAY_SECS
        } else {
            SEVEN_DAYS_SECS
        }),
    ensures
        auto_skip_reason(apply_defer_spec(cfg, choice, latest, now), later) is Some,
        cached_decision_spec(apply_defer_spec(cfg, choice, latest, now), product_name, later) is None,
{
}

/// "Update now" lifts every earlier snooze and skip.
pub proof fn law_update_now_clears_suppression(cfg: ConfigView, latest: Seq<char>, now: u64)
    ensures
        apply_defer_spec(cfg, DeferChoice::UpdateNow, latest, now).suppress_until_unix is None,
        apply_defer_spec(cfg, DeferChoice::UpdateNow, latest, now).skipped_version is None,
        apply_defer_spec(cfg, DeferChoice::UpdateNow, latest, now).update_policy == cfg.update_policy,
{
}

/// Recording an app check leaves the launcher's cooldown as it was, and
/// recording a launcher check leaves the app's cooldown as it was.
pub proof fn law_app_and_launcher_cooldowns_are_independent(
    cfg: ConfigView,
    app_decision: UpdateDecisionView,
    launcher_decision: LauncherDecisionView,
    now: u64,
    later: u64,
)
    ensures
        launcher_skip_reason(record_auto_check_spec(cfg, app_decision, now), later)
            == launcher_skip_reason(cfg, later),
        auto_skip_reason(record_launcher_check_spec(cfg, launcher_decision, now), later)
            == auto_skip_reason(cfg, later),
{
}

/// An available update found by an automatic check is offered again from
/// the saved state while the next check is still in its cooldown, unless
/// the user skipped that version or snoozed prompts.
pub proof fn law_cached_available_update_is_reused(
    cfg: ConfigView,
    current: Seq<char>,
    latest: Seq<char>,
    title: Seq<char>,
    product_name: Seq<char>,
    now: u64,
    later: u64,
)
    requires
        cfg.update_policy != UpdatePolicy::Never,
        !(cfg.suppress_until_unix is Some && later < cfg.suppress_until_unix->0),
        cfg.skipped_version != Some(latest),
        version_newer(latest, cfg.current_version),
    ensures
        cached_decision_spec(
            record_auto_check_spec(cfg, UpdateDecisionView::Available(current, latest, title), now),
            product_name,
            later,
        ) == Some(UpdateDecisionView::Available(cfg.current_version, latest, product_name)),
{
}

/// "Skip this version" of the launcher suppresses exactly that version in
/// later automatic launcher checks.
pub proof fn law_launcher_skip_is_exact(
    cfg: ConfigView,
    latest: Seq<char>,
    now: u64,
    current: Seq<char>,
    later: u64,
    fetched: Result<Seq<char>, Seq<char>>,
)
    ensures
        check_launcher_auto_spec(
            apply_launcher_defer_spec(cfg, LauncherDeferChoice::SkipThisVersion, latest, now),
            current,
            later,
            fetched,
        ) matches LauncherDecisionView::Available(_, l, _) ==> l != latest,
{
}

/// While the launcher's own snooze lies in the future, every automatic
/// launcher check is skipped; unless updates are off altogether the reason
/// is the launcher snooze with the whole days left. The app's own snooze
/// plays no part in it.
pub proof fn law_launcher_snooze_skips_launcher_checks(
    cfg: ConfigView,
    now: u64,
    until: u64,
    app_snooze: Option<u64>,
)
    requires
        cfg.launcher_suppress_until_unix == Some(until),
        now < until,
    ensures
        launcher_skip_reason(cfg, now) is Some,
        cfg.update_policy != UpdatePolicy::Never ==> launcher_skip_reason(cfg, now) == Some(
            "launcher prompt suppressed for ~"@ + decimal(((until - now) / 86_400) as nat) + "d"@,
        ),
        launcher_skip_reason(ConfigView { suppress_until_unix: app_snooze, ..cfg }, now)
            == launcher_skip_reason(cfg, now),
{
}

/// A launcher snooze of one or seven days chosen at `now` keeps every
/// automatic launcher check quiet before it runs out, whatever the app's own
/// snooze is, and is itself no reason to skip once it has run out.
pub proof fn law_launcher_snooze_lasts_its_period(
    cfg: ConfigView,
    choice: LauncherDeferChoice,
    latest: Seq<char>,
    now: u64,
    later: u64,
)
    requires
        choice == LauncherDeferChoice::SnoozeOneDay || choice
            == LauncherDeferChoice::SnoozeSevenDays,
        now + 604_800 <= u64::MAX,
    ensures
        ({
            let period: int = if choice == LauncherDeferChoice::SnoozeOneDay {
                86_400
            } else {
                604_800
            };
            let c = apply_launcher_defer_spec(cfg, choice, latest, now);
            &&& c.launcher_suppress_until_unix == Some((now + period) as u64)
            &&& c.suppress_until_unix == cfg.suppress_until_unix
            &&& (now <= later && later < now + period) ==> launcher_skip_reason(c, later) is Some
            &&& later >= now + period ==> launcher_skip_reason(c, later) == launcher_skip_reason(
                ConfigView { launcher_suppress_until_unix: None, ..c },
                later,
            )
        }),
{
}

/// A snooze of one or seven days chosen at `now` silences automatic app
/// checks for exactly that period: the snooze ends at `now` plus one day or
/// seven days, and from then on it is no reason to skip.
pub proof fn law_snooze_lasts_exactly_its_period(
    cfg: ConfigView,
    choice: DeferChoice,
    latest: Seq<char>,
    now: u64,
    later: u64,
)
    requires
        choice == DeferChoice::SnoozeOneDay || choice == DeferChoice::SnoozeSevenDays,
        now + 604_800 <= u64::MAX,
    ensures
        ({
            let period: int = if choice == DeferChoice::SnoozeOneDay {
                86_400
            } else {
                604_800
            };
            let c = apply_defer_spec(cfg, choice, latest, now);
            &&& c.suppress_until_unix == Some((now + period) as u64)
            &&& (c.suppress_until_unix is Some && later < c.suppress_until_unix->0) <==> later
                < now + period
            &&& later >= now + period ==> auto_skip_reason(c, later) == auto_skip_reason(
                ConfigView { suppress_until_unix: None, ..c },
                later,
            )
        }),
{
}

} // verus!
