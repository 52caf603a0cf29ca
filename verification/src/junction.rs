//! Keeping `versions/current` pointed at the newest installed version:
//! whether the existing junction can stay, and the `mklink /J` command that
//! recreates it otherwise. The shell canonicalizes paths and runs commands.

use crate::text::{ascii_lower, owned, str_eq, to_ascii_lowercase};
use vstd::prelude::*;

verus! {

/// What keeping `versions/current` on a target requires.
#[derive(Debug, Clone, PartialEq, Eq)]
pub enum JunctionStep {
    /// The junction already resolves to the target.
    Keep,
    /// Remove whatever is at the link, then run `cmd` with these arguments.
    Recreate { command_args: Vec<String> },
}

/// Two canonical paths name the same directory (ASCII case ignored, as on
/// Windows volumes).
pub open spec fn same_canonical(a: Seq<char>, b: Seq<char>) -> bool {
    ascii_lower(a) == ascii_lower(b)
}

pub open spec fn opt_view(o: Option<String>) -> Option<Seq<char>> {
    match o {
        Some(s) => Some(s@),
        None => None,
    }
}

pub open spec fn mklink_args_spec(link: Seq<char>, target: Seq<char>) -> Seq<Seq<char>> {
    seq!["/c"@, "mklink"@, "/J"@, link, target]
}

pub open spec fn args_view(v: Seq<String>) -> Seq<Seq<char>> {
    v.map_values(|s: String| s@)
}

/// The step for pointing `link` at `target`: a missing target is an error;
/// a link that already resolves to the target is kept; anything else is
/// recreated with `mklink /J <link> <target>`.
pub open spec fn set_current_spec(
    target_is_dir: bool,
    link_canonical: Option<Seq<char>>,
    target_canonical: Option<Seq<char>>,
    link: Seq<char>,
    target: Seq<char>,
) -> Result<Option<Seq<Seq<char>>>, Seq<char>> {
    if !target_is_dir {
        Err("junction target "@ + target + " does not exist"@)
    } else if link_canonical is Some && target_canonical is Some && same_canonical(
        link_canonical->0,
        target_canonical->0,
    ) {
        Ok(None)
    } else {
        Ok(Some(mklink_args_spec(link, target)))
    }
}

pub open spec fn step_view(s: JunctionStep) -> Option<Seq<Seq<char>>> {
    match s {
        JunctionStep::Keep => None,
        JunctionStep::Recreate { command_args } => Some(args_view(command_args@)),
    }
}

fn same_canonical_exec(a: &str, b: &str) -> (r: bool)
    ensures
        r == same_canonical(a@, b@),
{
    let la = to_ascii_lowercase(a);
    let lb = to_ascii_lowercase(b);
    str_eq(la.as_str(), lb.as_str())
}

/// Decides how to point `link` at `target`, given whether the target is a
/// directory and both paths canonicalized (`None` when that failed).
pub fn set_current_step(
    target_is_dir: bool,
    link_canonical: Option<String>,
    target_canonical: Option<String>,
    link: &str,
    target: &str,
) -> (r: Result<JunctionStep, String>)
    ensures
        match r {
            Ok(step) => set_current_spec(
                target_is_dir,
                opt_view(link_canonical),
                opt_view(target_canonical),
                link@,
                target@,
            ) == Ok::<Option<Seq<Seq<char>>>, Seq<char>>(step_view(step)),
            Err(e) => set_current_spec(
                target_is_dir,
                opt_view(link_canonical),
                opt_view(target_canonical),
                link@,
                target@,
            ) == Err::<Option<Seq<Seq<char>>>, Seq<char>>(e@),
        },
{
    if !target_is_dir {
        let mut e = owned("junction target ");
        e.append(target);
        e.append(" does not exist");
        return Err(e);
    }
    match (&link_canonical, &target_canonical) {
        (Some(l), Some(t)) => {
            if same_canonical_exec(l.as_str(), t.as_str()) {
                return Ok(JunctionStep::Keep);
            }
        },
        _ => {},
    }
    let mut args: Vec<String> = Vec::new();
    args.push(owned("/c"));
    args.push(owned("mklink"));
    args.push(owned("/J"));
    args.push(owned(link));
    args.push(owned(target));
    assert(args_view(args@) =~= mklink_args_spec(link@, target@));
    Ok(JunctionStep::Recreate { command_args: args })
}

/// Once a junction resolves to its target, asking again keeps it.
pub proof fn law_set_current_is_idempotent(link: Seq<char>, target: Seq<char>, canonical: Seq<char>)
    ensures
        set_current_spec(true, Some(canonical), Some(canonical), link, target) == Ok::<
            Option<Seq<Seq<char>>>,
            Seq<char>,
        >(None),
{
}

} // verus!
