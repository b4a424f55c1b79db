//! Candidate-path search for the backend root.
//!
//! Starting from a base directory supplied by the host shell, the supervisor
//! probes a fixed, ordered list of locations that might hold the backend and
//! accepts the first one that exists on disk. When none exists it still
//! returns the last candidate: existence checks cannot predict spawn-time
//! permissions, so "not found" is deferred and surfaces later as a
//! process-start error.
//!
//! The filesystem is passed in as the plain list of paths that exist, so the
//! search itself is fully verified; the host performs the actual existence
//! checks.

use vstd::prelude::*;

use crate::platform::Platform;

verus! {

/// A path joined with `/`, the separator the host normalises to.
pub open spec fn join_seq(base: Seq<char>, component: Seq<char>) -> Seq<char> {
    base + "/"@ + component
}

/// Joins `component` onto `base` with a `/` separator.
pub fn join_path(base: &str, component: &str) -> (r: String)
    ensures
        r@ == join_seq(base@, component@),
{
    let mut s = String::from_str(base);
    s.append("/");
    s.append(component);
    s
}

/// The ordered candidate locations for the backend root: the primary
/// candidate under the base directory, a nested packaging-layout fallback,
/// a development-time path relative to the working directory, and, on Linux
/// only, fixed system installation paths.
pub open spec fn spec_candidates(p: Platform, base: Seq<char>, cwd: Seq<char>) -> Seq<Seq<char>> {
    let primary = join_seq(base, "backend"@);
    let nested = join_seq(join_seq(join_seq(base, "_up_"@), "_up_"@), "backend"@);
    let dev = join_seq(cwd, "../../backend"@);
    if p is Linux {
        seq![
            primary,
            nested,
            dev,
            "/usr/lib/Verba/backend"@,
            "/usr/lib/Verba/_up_/_up_/backend"@,
        ]
    } else {
        seq![primary, nested, dev]
    }
}

/// Builds the candidate list for `p`, in search order.
pub fn candidate_paths(p: Platform, base: &str, cwd: &str) -> (r: Vec<String>)
    ensures
        r.deep_view() == spec_candidates(p, base@, cwd@),
{
    let mut r: Vec<String> = Vec::new();
    r.push(join_path(base, "backend"));
    let up = join_path(base, "_up_");
    let up_up = join_path(up.as_str(), "_up_");
    r.push(join_path(up_up.as_str(), "backend"));
    r.push(join_path(cwd, "../../backend"));
    match p {
        Platform::Linux => {
            r.push(String::from_str("/usr/lib/Verba/backend"));
            r.push(String::from_str("/usr/lib/Verba/_up_/_up_/backend"));
        },
        _ => {},
    }
    proof {
        assert(r.deep_view() =~= spec_candidates(p, base@, cwd@));
    }
    r
}

/// Whether path `p` is among the existing paths `fs`.
pub open spec fn spec_path_exists(fs: Seq<Seq<char>>, p: Seq<char>) -> bool {
    fs.contains(p)
}

/// Membership of `p` in the host-supplied list of existing paths.
pub fn path_exists_in(fs: &Vec<String>, p: &String) -> (r: bool)
    ensures
        r == spec_path_exists(fs.deep_view(), p@),
{
    let ghost fsv = fs.deep_view();
    let mut i: usize = 0;
    while i < fs.len()
        invariant
            0 <= i <= fs@.len(),
            fsv == fs.deep_view(),
            forall|j: int| 0 <= j < i ==> fsv[j] != p@,
        decreases fs@.len() - i,
    {
        if fs[i].eq(p) {
            proof {
                assert(fsv[i as int] == p@);
            }
            return true;
        }
        i += 1;
    }
    proof {
        assert(!fsv.contains(p@));
    }
    false
}

/// First candidate that exists, or the last candidate when none does.
pub open spec fn spec_select_root(cands: Seq<Seq<char>>, fs: Seq<Seq<char>>) -> Seq<char>
    recommends
        cands.len() > 0,
    decreases cands.len(),
{
    if cands.len() <= 1 {
        cands[0]
    } else if fs.contains(cands[0]) {
        cands[0]
    } else {
        spec_select_root(cands.drop_first(), fs)
    }
}

/// Whether any candidate exists; when false the search fell through to the
/// last candidate and the deferred not-found outcome is reported.
pub open spec fn spec_root_found(cands: Seq<Seq<char>>, fs: Seq<Seq<char>>) -> bool {
    exists|i: int| 0 <= i < cands.len() && fs.contains(cands[i])
}

/// When no candidate exists, the search terminates and yields the last
/// candidate: there is no error path out of path resolution.
pub proof fn lemma_none_found_returns_last(cands: Seq<Seq<char>>, fs: Seq<Seq<char>>)
    requires
        cands.len() > 0,
        forall|i: int| 0 <= i < cands.len() ==> !fs.contains(cands[i]),
    ensures
        spec_select_root(cands, fs) == cands.last(),
    decreases cands.len(),
{
    if cands.len() > 1 {
        assert(!fs.contains(cands[0]));
        let rest = cands.drop_first();
        assert(forall|i: int| 0 <= i < rest.len() ==> rest[i] == cands[i + 1]);
        lemma_none_found_returns_last(rest, fs);
        assert(rest.last() == cands.last());
    }
}

/// The search is first-match-wins: a candidate that exists and is preceded
/// only by candidates that do not exist is the one selected.
pub proof fn lemma_first_existing_selected(cands: Seq<Seq<char>>, fs: Seq<Seq<char>>, i: int)
    requires
        0 <= i < cands.len(),
        fs.contains(cands[i]),
        forall|j: int| 0 <= j < i ==> !fs.contains(cands[j]),
    ensures
        spec_select_root(cands, fs) == cands[i],
    decreases cands.len(),
{
    if i > 0 {
        let rest = cands.drop_first();
        assert(forall|j: int| 0 <= j < rest.len() ==> rest[j] == cands[j + 1]);
        lemma_first_existing_selected(rest, fs, i - 1);
    }
}

/// Outcome of the candidate-path search. `found` is false exactly when no
/// candidate existed; `path` is then still the last candidate tried.
pub struct ResolvedRoot {
    pub path: String,
    pub found: bool,
}

/// Runs the first-match-wins search over `cands` against the existing paths
/// `fs`.
pub fn select_backend_root(cands: &Vec<String>, fs: &Vec<String>) -> (r: ResolvedRoot)
    requires
        cands@.len() > 0,
    ensures
        r.path@ == spec_select_root(cands.deep_view(), fs.deep_view()),
        r.found == spec_root_found(cands.deep_view(), fs.deep_view()),
{
    let ghost candsv = cands.deep_view();
    let ghost fsv = fs.deep_view();
    let mut i: usize = 0;
    while i < cands.len()
        invariant
            0 <= i <= cands@.len(),
            candsv == cands.deep_view(),
            fsv == fs.deep_view(),
            forall|j: int| 0 <= j < i ==> !fsv.contains(candsv[j]),
        decreases cands@.len() - i,
    {
        if path_exists_in(fs, &cands[i]) {
            proof {
                lemma_first_existing_selected(candsv, fsv, i as int);
            }
            return ResolvedRoot { path: cands[i].clone(), found: true };
        }
        i += 1;
    }
    proof {
        lemma_none_found_returns_last(candsv, fsv);
        assert(!spec_root_found(candsv, fsv));
    }
    ResolvedRoot { path: cands[cands.len() - 1].clone(), found: false }
}

} // verus!
