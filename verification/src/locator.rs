//! Local-installation locator.
//!
//! Enumerates a fixed list of candidate relative paths under the working
//! directory and under up to five parent directories, in deterministic
//! order: directory depth first, candidate list order within a depth. The
//! first candidate that exists on disk wins; the locator itself never
//! writes.

use vstd::prelude::*;
use crate::path::{path_clone, path_join};

verus! {

/// How many parent levels above the working directory are searched.
pub open spec fn search_depth() -> nat {
    5
}

/// The primary relative path of a project-local installation.
pub open spec fn rel_primary() -> Seq<Seq<char>> {
    seq!["node_modules"@, "@0xshariq"@, "package-installer"@, "dist"@, "index.js"@]
}

/// The legacy alias relative path of a project-local installation.
pub open spec fn rel_legacy() -> Seq<Seq<char>> {
    seq!["node_modules"@, "package-installer-cli"@, "dist"@, "index.js"@]
}

/// The directory `k` levels above `dir` (`k <= dir.len()`).
pub open spec fn ancestor(dir: Seq<Seq<char>>, k: int) -> Seq<Seq<char>> {
    dir.take(dir.len() - k)
}

/// The two candidates rooted at the directory `d` levels above `cwd`.
pub open spec fn spec_candidates_at(cwd: Seq<Seq<char>>, d: int) -> Seq<Seq<Seq<char>>> {
    seq![ancestor(cwd, d) + rel_primary(), ancestor(cwd, d) + rel_legacy()]
}

/// All candidates at depths `0 ..= d`, in search order.
pub open spec fn spec_candidates_upto(cwd: Seq<Seq<char>>, d: nat) -> Seq<Seq<Seq<char>>>
    decreases d,
{
    if d == 0 {
        spec_candidates_at(cwd, 0)
    } else {
        spec_candidates_upto(cwd, (d - 1) as nat) + spec_candidates_at(cwd, d as int)
    }
}

/// Deepest searched level: five parents, or the filesystem root if the
/// working directory is shallower than that.
pub open spec fn spec_max_depth(cwd: Seq<Seq<char>>) -> nat {
    if cwd.len() < search_depth() {
        cwd.len()
    } else {
        search_depth()
    }
}

/// The full ordered candidate list searched for `cwd`.
pub open spec fn spec_local_candidates(cwd: Seq<Seq<char>>) -> Seq<Seq<Seq<char>>> {
    spec_candidates_upto(cwd, spec_max_depth(cwd))
}

/// The first candidate of `cands` that the filesystem `fs` contains.
pub open spec fn first_found(cands: Seq<Seq<Seq<char>>>, fs: Set<Seq<Seq<char>>>) -> Option<
    Seq<Seq<char>>,
>
    decreases cands.len(),
{
    if cands.len() == 0 {
        None
    } else if fs.contains(cands[0]) {
        Some(cands[0])
    } else {
        first_found(cands.drop_first(), fs)
    }
}

/// What the locator yields on a filesystem `fs`: the first existing
/// candidate, or `None` when no candidate exists.
pub open spec fn spec_locate_local(cwd: Seq<Seq<char>>, fs: Set<Seq<Seq<char>>>) -> Option<
    Seq<Seq<char>>,
> {
    first_found(spec_local_candidates(cwd), fs)
}

/// Appends the two candidates rooted at `dir` to `out`.
fn push_candidates_at(out: &mut Vec<Vec<String>>, dir: &Vec<String>, Ghost(cwd): Ghost<Seq<Seq<char>>>, Ghost(d): Ghost<int>)
    requires
        dir.deep_view() == ancestor(cwd, d),
    ensures
        final(out).deep_view() == old(out).deep_view() + spec_candidates_at(cwd, d),
{
    let nm = path_join(dir, "node_modules");
    let vendor = path_join(&nm, "@0xshariq");
    let tool = path_join(&vendor, "package-installer");
    let dist = path_join(&tool, "dist");
    let primary = path_join(&dist, "index.js");

    let legacy_tool = path_join(&nm, "package-installer-cli");
    let legacy_dist = path_join(&legacy_tool, "dist");
    let legacy = path_join(&legacy_dist, "index.js");

    proof {
        assert(primary.deep_view() =~= ancestor(cwd, d) + rel_primary());
        assert(legacy.deep_view() =~= ancestor(cwd, d) + rel_legacy());
    }
    out.push(primary);
    out.push(legacy);
    proof {
        assert(out.deep_view() =~= old(out).deep_view() + spec_candidates_at(cwd, d));
    }
}

/// Builds the ordered candidate list for the working directory `cwd`:
/// both relative paths at `cwd` itself and at each of up to five parents.
pub fn local_candidates(cwd: &Vec<String>) -> (r: Vec<Vec<String>>)
    ensures
        r.deep_view() == spec_local_candidates(cwd.deep_view()),
{
    let ghost cwds = cwd.deep_view();
    let mut out: Vec<Vec<String>> = Vec::new();
    let mut dir = path_clone(cwd);
    proof {
        assert(dir.deep_view() =~= ancestor(cwds, 0));
    }
    push_candidates_at(&mut out, &dir, Ghost(cwds), Ghost(0));
    let mut d: usize = 0;
    proof {
        assert(out.deep_view() =~= spec_candidates_upto(cwds, 0));
    }
    while d < 5 && dir.len() > 0
        invariant
            0 <= d <= 5,
            d as nat <= spec_max_depth(cwds),
            dir.deep_view() == ancestor(cwds, d as int),
            dir@.len() == dir.deep_view().len(),
            out.deep_view() == spec_candidates_upto(cwds, d as nat),
        decreases 5 - d,
    {
        proof {
            assert(dir.deep_view().len() == cwds.len() - d);
            assert(cwds.len() > d);
            assert((d + 1) as nat <= spec_max_depth(cwds));
        }
        let n = dir.len();
        dir.truncate(n - 1);
        proof {
            assert(dir.deep_view() =~= ancestor(cwds, d + 1));
        }
        d = d + 1;
        push_candidates_at(&mut out, &dir, Ghost(cwds), Ghost(d as int));
    }
    proof {
        if d < 5 {
            assert(dir.deep_view().len() == 0);
            assert(cwds.len() - d as int == 0);
            assert(spec_max_depth(cwds) == d as nat);
        } else {
            assert(spec_max_depth(cwds) == 5);
        }
        assert(out.deep_view() == spec_local_candidates(cwds));
    }
    out
}

/// Picks the first index whose existence flag is set.
pub fn first_existing(cands: &Vec<Vec<String>>, exists: &Vec<bool>) -> (r: Option<usize>)
    requires
        cands.len() == exists.len(),
    ensures
        r matches Some(i) ==> i < cands.len() && exists[i as int] && forall|j: int|
            0 <= j < i ==> !exists[j],
        r is None ==> forall|j: int| 0 <= j < exists.len() ==> !exists[j],
{
    let mut i: usize = 0;
    while i < exists.len()
        invariant
            cands.len() == exists.len(),
            0 <= i <= exists.len(),
            forall|j: int| 0 <= j < i ==> !exists[j],
        decreases exists.len() - i,
    {
        if exists[i] {
            return Some(i);
        }
        i = i + 1;
    }
    None
}

/// `first_found` succeeds exactly when some candidate exists, and what it
/// yields is an existing candidate.
pub proof fn lemma_first_found_characterized(cands: Seq<Seq<Seq<char>>>, fs: Set<Seq<Seq<char>>>)
    ensures
        (first_found(cands, fs) is Some) <==> exists|i: int|
            0 <= i < cands.len() && fs.contains(cands[i]),
        first_found(cands, fs) matches Some(p) ==> fs.contains(p),
    decreases cands.len(),
{
    if cands.len() == 0 {
    } else if fs.contains(cands[0]) {
        assert(0 <= 0 < cands.len() && fs.contains(cands[0]));
    } else {
        lemma_first_found_characterized(cands.drop_first(), fs);
        if first_found(cands, fs) is Some {
            let i = choose|i: int| 0 <= i < cands.drop_first().len() && fs.contains(
                cands.drop_first()[i],
            );
            assert(cands[i + 1] == cands.drop_first()[i]);
        }
        if exists|i: int| 0 <= i < cands.len() && fs.contains(cands[i]) {
            let i = choose|i: int| 0 <= i < cands.len() && fs.contains(cands[i]);
            assert(i >= 1);
            assert(cands.drop_first()[i - 1] == cands[i]);
        }
    }
}

/// Existence flags gathered in candidate order determine what the model
/// locator yields: when `i` is the first set flag, the first existing
/// candidate is candidate `i`.
pub proof fn lemma_first_found_at_index(
    cands: Seq<Seq<Seq<char>>>,
    fs: Set<Seq<Seq<char>>>,
    flags: Seq<bool>,
    i: int,
)
    requires
        flags.len() == cands.len(),
        forall|j: int| 0 <= j < flags.len() ==> #[trigger] flags[j] == fs.contains(cands[j]),
        0 <= i < flags.len(),
        flags[i],
        forall|j: int| 0 <= j < i ==> !flags[j],
    ensures
        first_found(cands, fs) == Some(cands[i]),
    decreases i,
{
    if i == 0 {
        assert(fs.contains(cands[0]));
    } else {
        assert(!flags[0]);
        assert(!fs.contains(cands[0]));
        assert forall|j: int| 0 <= j < flags.drop_first().len() implies #[trigger] flags.drop_first()[j]
            == fs.contains(cands.drop_first()[j]) by {
            assert(flags.drop_first()[j] == flags[j + 1]);
            assert(cands.drop_first()[j] == cands[j + 1]);
        }
        lemma_first_found_at_index(cands.drop_first(), fs, flags.drop_first(), i - 1);
        assert(cands.drop_first()[i - 1] == cands[i]);
    }
}

/// The candidate list up to depth `dd` has `2 * (dd + 1)` entries, laid out
/// pairwise by depth.
pub proof fn lemma_candidates_upto_index(cwd: Seq<Seq<char>>, dd: nat)
    ensures
        spec_candidates_upto(cwd, dd).len() == 2 * (dd + 1),
        forall|d: int|
            0 <= d <= dd ==> spec_candidates_upto(cwd, dd)[2 * d] == ancestor(cwd, d)
                + rel_primary() && spec_candidates_upto(cwd, dd)[2 * d + 1] == ancestor(cwd, d)
                + rel_legacy(),
    decreases dd,
{
    if dd == 0 {
    } else {
        lemma_candidates_upto_index(cwd, (dd - 1) as nat);
    }
}

/// Every working directory within five parent levels of a directory that
/// holds a local installation finds one: if the filesystem contains either
/// relative form at the `k`-th ancestor, `k <= 5`, the locator yields an
/// existing path.
pub proof fn lemma_local_found_within_reach(
    cwd: Seq<Seq<char>>,
    fs: Set<Seq<Seq<char>>>,
    k: int,
)
    requires
        0 <= k <= search_depth(),
        k <= cwd.len(),
        fs.contains(ancestor(cwd, k) + rel_primary()) || fs.contains(
            ancestor(cwd, k) + rel_legacy(),
        ),
    ensures
        spec_locate_local(cwd, fs) is Some,
        spec_locate_local(cwd, fs) matches Some(p) ==> fs.contains(p),
{
    let dd = spec_max_depth(cwd);
    assert(k <= dd);
    lemma_candidates_upto_index(cwd, dd);
    let cands = spec_local_candidates(cwd);
    assert(cands[2 * k] == ancestor(cwd, k) + rel_primary());
    assert(cands[2 * k + 1] == ancestor(cwd, k) + rel_legacy());
    lemma_first_found_characterized(cands, fs);
}

/// At six levels of separation nothing is found: if the only paths the
/// filesystem holds are installations at the sixth ancestor, the locator
/// yields `None`, because no candidate ever reaches that deep.
pub proof fn lemma_local_not_found_at_depth_six(cwd: Seq<Seq<char>>, fs: Set<Seq<Seq<char>>>)
    requires
        cwd.len() >= 6,
        forall|p: Seq<Seq<char>>|
            fs.contains(p) ==> p == ancestor(cwd, 6) + rel_primary() || p == ancestor(cwd, 6)
                + rel_legacy(),
    ensures
        spec_locate_local(cwd, fs) is None,
{
    let dd = spec_max_depth(cwd);
    assert(dd == 5);
    lemma_candidates_upto_index(cwd, dd);
    let cands = spec_local_candidates(cwd);
    let n = cwd.len();
    assert forall|i: int| 0 <= i < cands.len() implies !fs.contains(cands[i]) by {
        let d = i / 2;
        assert(0 <= d <= 5);
        if i % 2 == 0 {
            assert(cands[i] == ancestor(cwd, d) + rel_primary());
        } else {
            assert(cands[i] == ancestor(cwd, d) + rel_legacy());
        }
        // Candidates at depth d have n - d + 5 or n - d + 4 components; the
        // sixth-ancestor installations have n - 1 and n - 2. With d <= 5 the
        // only length collision is the legacy form at depth 5 against the
        // primary form at depth 6, and those differ in their first component
        // below the shared ancestor.
        assert((ancestor(cwd, d) + rel_primary()).len() == n - d + 5);
        assert((ancestor(cwd, d) + rel_legacy()).len() == n - d + 4);
        assert((ancestor(cwd, 6) + rel_primary()).len() == n - 1);
        assert((ancestor(cwd, 6) + rel_legacy()).len() == n - 2);
        if fs.contains(cands[i]) {
            if i % 2 == 1 && d == 5 && cands[i] == ancestor(cwd, 6) + rel_primary() {
                let lhs = ancestor(cwd, 5) + rel_legacy();
                let rhs = ancestor(cwd, 6) + rel_primary();
                assert(ancestor(cwd, 5).len() == n - 5);
                assert(ancestor(cwd, 6).len() == n - 6);
                assert(lhs[n - 5] == "node_modules"@);
                assert(rhs[n - 5] == "@0xshariq"@);
                reveal_strlit("node_modules");
                reveal_strlit("@0xshariq");
                assert("node_modules"@.len() != "@0xshariq"@.len());
                assert(false);
            } else {
                assert(false);
            }
        }
    }
    lemma_first_found_characterized(cands, fs);
}

} // verus!
