//! Laws of the resolution pipeline, proved of [`crate::resolver::step_rel`].
//!
//! A run of the launcher is a trace: a phase sequence chained by the
//! transition relation, each event answering the previous action. The
//! lemmas here hold of every such trace, whatever the driver observed.

use vstd::prelude::*;
use crate::artifact::{ArtifactKind, Candidate, Origin};
use crate::resolver::{
    ctx_entry, ctx_locals, ctx_marker, is_delegating, is_run, step_rel, Action, Ctx,
    Event, Phase,
};

verus! {

/// A strictly increasing measure along transitions: the machine never
/// revisits a tier.
pub open spec fn rank(p: Phase) -> int {
    match p {
        Phase::Start => 0,
        Phase::Local => 1,
        Phase::CacheEntry => 2,
        Phase::Metadata => 3,
        Phase::Archive => 4,
        Phase::Unpacked => 5,
        Phase::Copied => 6,
        Phase::DepsGate { .. } => 10,
        Phase::Managers { .. } => 11,
        Phase::Installing { .. } => 12,
        Phase::Verify => 13,
        Phase::BundledScript { idx } => 20 + 2 * (idx as int),
        Phase::Delegating { next_script, .. } => match next_script {
            Some(j) => 19 + 2 * (j as int),
            None => 50,
        },
        Phase::NativeCheck { idx } => 40 + (idx as int),
        Phase::Finished { .. } => 60,
    }
}

/// Every transition strictly increases the rank.
pub proof fn lemma_rank_increases(ctx: Ctx, p: Phase, e: Event, p2: Phase, a: Action)
    requires
        step_rel(ctx, p, e, p2, a),
    ensures
        rank(p2) > rank(p),
{
    match p {
        Phase::Local => {
            match e {
                Event::ExistsMany { flags } => {
                    if exists|i: int| 0 <= i < flags@.len() && flags@[i] {
                        let i = choose|i: int|
                            {
                                &&& 0 <= i < flags@.len()
                                &&& #[trigger] flags@[i]
                                &&& forall|j: int| 0 <= j < i ==> !flags@[j]
                                &&& is_delegating(
                                    p2,
                                    ArtifactKind::Script,
                                    ctx_locals(ctx)[i],
                                    Origin::LocalProject,
                                    None,
                                )
                                &&& is_run(
                                    a,
                                    ArtifactKind::Script,
                                    ctx_locals(ctx)[i],
                                    Origin::LocalProject,
                                )
                            };
                        assert(is_delegating(
                            p2,
                            ArtifactKind::Script,
                            ctx_locals(ctx)[i],
                            Origin::LocalProject,
                            None,
                        ));
                    }
                },
                _ => {},
            }
        },
        _ => {},
    }
}

/// A trace: phases chained by the transition relation, one action issued
/// per step.
pub open spec fn valid_trace(
    ctx: Ctx,
    phases: Seq<Phase>,
    events: Seq<Event>,
    actions: Seq<Action>,
) -> bool {
    &&& phases.len() == events.len() + 1
    &&& actions.len() == events.len()
    &&& forall|i: int|
        0 <= i < events.len() ==> step_rel(ctx, phases[i], events[i], phases[i + 1], #[trigger] actions[i])
}

/// Along a trace the rank strictly increases.
pub proof fn lemma_trace_rank_monotone(
    ctx: Ctx,
    phases: Seq<Phase>,
    events: Seq<Event>,
    actions: Seq<Action>,
    i: int,
    j: int,
)
    requires
        valid_trace(ctx, phases, events, actions),
        0 <= i <= j < phases.len(),
    ensures
        rank(phases[i]) <= rank(phases[j]),
        i < j ==> rank(phases[i]) < rank(phases[j]),
    decreases j - i,
{
    if i < j {
        lemma_trace_rank_monotone(ctx, phases, events, actions, i, j - 1);
        assert(step_rel(ctx, phases[j - 1], events[j - 1], phases[j], actions[j - 1]));
        lemma_rank_increases(ctx, phases[j - 1], events[j - 1], phases[j], actions[j - 1]);
    }
}

/// The metadata fetch is issued only by the transition that finds the
/// cache entry point missing, and it enters the `Metadata` phase.
pub proof fn lemma_fetch_only_from_cache_check(ctx: Ctx, p: Phase, e: Event, p2: Phase, a: Action)
    requires
        step_rel(ctx, p, e, p2, a),
        a is Fetch,
    ensures
        p is CacheEntry,
        p2 is Metadata,
{
    match p {
        Phase::Local => {
            match e {
                Event::ExistsMany { flags } => {
                    if exists|i: int| 0 <= i < flags@.len() && flags@[i] {
                        let i = choose|i: int|
                            {
                                &&& 0 <= i < flags@.len()
                                &&& #[trigger] flags@[i]
                                &&& forall|j: int| 0 <= j < i ==> !flags@[j]
                                &&& is_delegating(
                                    p2,
                                    ArtifactKind::Script,
                                    ctx_locals(ctx)[i],
                                    Origin::LocalProject,
                                    None,
                                )
                                &&& is_run(
                                    a,
                                    ArtifactKind::Script,
                                    ctx_locals(ctx)[i],
                                    Origin::LocalProject,
                                )
                            };
                        assert(is_run(a, ArtifactKind::Script, ctx_locals(ctx)[i], Origin::LocalProject));
                        assert(false);
                    }
                },
                _ => {},
            }
        },
        _ => {},
    }
}

/// The remote provisioner runs exactly once per resolution when the cache
/// entry point is missing: the step that sees it missing issues the one
/// metadata fetch of the whole trace, and no other step fetches.
pub proof fn lemma_provision_fetches_exactly_once(
    ctx: Ctx,
    phases: Seq<Phase>,
    events: Seq<Event>,
    actions: Seq<Action>,
    i: int,
)
    requires
        valid_trace(ctx, phases, events, actions),
        0 <= i < actions.len(),
        phases[i] is CacheEntry,
        events[i] matches Event::Exists { yes: false },
    ensures
        actions[i] is Fetch,
        forall|l: int| 0 <= l < actions.len() && l != i ==> !(#[trigger] actions[l] is Fetch),
{
    assert(step_rel(ctx, phases[i], events[i], phases[i + 1], actions[i]));
    assert forall|l: int| 0 <= l < actions.len() && l != i implies !(#[trigger] actions[l]
        is Fetch) by {
        if actions[l] is Fetch {
            assert(step_rel(ctx, phases[l], events[l], phases[l + 1], actions[l]));
            lemma_fetch_only_from_cache_check(ctx, phases[l], events[l], phases[l + 1], actions[l]);
            if l > i {
                lemma_trace_rank_monotone(ctx, phases, events, actions, i + 1, l);
                assert(rank(phases[i + 1]) <= rank(phases[l]));
            } else {
                lemma_trace_rank_monotone(ctx, phases, events, actions, l + 1, i);
                assert(rank(phases[l + 1]) <= rank(phases[i]));
            }
        }
    }
}

/// A trace never fetches the release metadata twice.
pub proof fn lemma_fetch_at_most_once(
    ctx: Ctx,
    phases: Seq<Phase>,
    events: Seq<Event>,
    actions: Seq<Action>,
    k: int,
    l: int,
)
    requires
        valid_trace(ctx, phases, events, actions),
        0 <= k < l < actions.len(),
        actions[k] is Fetch,
    ensures
        !(actions[l] is Fetch),
{
    assert(step_rel(ctx, phases[k], events[k], phases[k + 1], actions[k]));
    lemma_fetch_only_from_cache_check(ctx, phases[k], events[k], phases[k + 1], actions[k]);
    if actions[l] is Fetch {
        assert(step_rel(ctx, phases[l], events[l], phases[l + 1], actions[l]));
        lemma_fetch_only_from_cache_check(ctx, phases[l], events[l], phases[l + 1], actions[l]);
        lemma_trace_rank_monotone(ctx, phases, events, actions, k + 1, l);
    }
}

/// The dependency installer is entered if and only if the manifest exists
/// and the dependency-output marker is absent; in particular, with the
/// marker present no install is ever launched, so a second pass over an
/// installed cache is a no-op.
pub proof fn lemma_installer_gate(
    ctx: Ctx,
    provisioned: bool,
    e: Event,
    p2: Phase,
    a: Action,
)
    requires
        step_rel(ctx, Phase::DepsGate { provisioned }, e, p2, a),
    ensures
        (p2 is Managers) <==> (e matches Event::Exists2 { manifest, marker } && manifest
            && !marker),
        e matches Event::Exists2 { manifest, marker } && !(manifest && !marker) ==> !(a
            is ProbeManagers) && !(p2 is Managers),
{
}

/// The delegated child's exit code is forwarded exactly: a completed child
/// keeps its own code, a child killed by a signal reports 1, a failed
/// spawn reports 1 with remediation.
pub proof fn lemma_exit_code_forwarded(
    ctx: Ctx,
    cand: Candidate,
    spawned: bool,
    code: Option<i32>,
    p2: Phase,
    a: Action,
)
    requires
        step_rel(
            ctx,
            Phase::Delegating { candidate: cand, next_script: None },
            Event::RunResult { spawned, code },
            p2,
            a,
        ),
    ensures
        spawned ==> (code matches Some(c) ==> (a matches Action::Exit { code: x, .. } && x == c)),
        spawned && code is None ==> (a matches Action::Exit { code: x, .. } && x == 1),
        !spawned ==> (a matches Action::Exit { code: x, remediation } && x == 1 && remediation),
{
}

/// The world a trace is replayed against: which paths exist. Actions that
/// only observe the filesystem are answered from it; all other events are
/// unconstrained.
pub struct WorldModel {
    /// The set of existing filesystem paths.
    pub fs: Set<Seq<Seq<char>>>,
}

/// The event truthfully answers the action in world `w`.
pub open spec fn responds(w: WorldModel, a: Action, e: Event) -> bool {
    match a {
        Action::StatMany { paths } => e matches Event::ExistsMany { flags } && flags@.len()
            == paths.deep_view().len() && forall|j: int|
            0 <= j < flags@.len() ==> #[trigger] flags@[j] == w.fs.contains(paths.deep_view()[j]),
        Action::EnsureDirAndStat { entry, .. } => e matches Event::Exists { yes } && yes
            == w.fs.contains(entry.deep_view()),
        Action::Stat { path } => e matches Event::Exists { yes } && yes == w.fs.contains(
            path.deep_view(),
        ),
        Action::Stat2 { manifest, marker } => e matches Event::Exists2 {
            manifest: m,
            marker: k,
        } && m == w.fs.contains(manifest.deep_view()) && k == w.fs.contains(marker.deep_view()),
        Action::FinishProvision { entry, .. } => e matches Event::Exists { yes } && yes
            == w.fs.contains(entry.deep_view()),
        _ => true,
    }
}

/// Resolution over a populated cache is idempotent and offline: in any
/// world whose cache entry point and dependency marker exist and which
/// holds no project-local installation, every complete replayed trace
/// performs no network action and delegates to the cache entry point —
/// so two successive resolutions observe the same world and yield the
/// same candidate path.
pub proof fn lemma_resolve_idempotent_on_populated_cache(
    ctx: Ctx,
    w: WorldModel,
    phases: Seq<Phase>,
    events: Seq<Event>,
    actions: Seq<Action>,
)
    requires
        valid_trace(ctx, phases, events, actions),
        phases.len() >= 2,
        phases[0] is Start,
        phases[phases.len() - 1] is Finished,
        forall|i: int|
            0 <= i < actions.len() - 1 ==> #[trigger] responds(w, actions[i], events[i + 1]),
        forall|j: int| 0 <= j < ctx_locals(ctx).len() ==> !w.fs.contains(#[trigger] ctx_locals(ctx)[j]),
        w.fs.contains(ctx_entry(ctx)),
        w.fs.contains(ctx_marker(ctx)),
    ensures
        forall|i: int|
            0 <= i < actions.len() ==> !(#[trigger] actions[i] is Fetch) && !(actions[i]
                is Download),
        forall|i: int|
            0 <= i < actions.len() ==> (#[trigger] actions[i] matches Action::Run { candidate }
                ==> candidate.path.deep_view() == ctx_entry(ctx) && candidate.kind is Script
                && candidate.origin is Cache),
        exists|i: int|
            0 <= i < actions.len() && (#[trigger] actions[i] matches Action::Run { candidate }
                && candidate.path.deep_view() == ctx_entry(ctx)),
{
    let n = actions.len() as int;
    assert(step_rel(ctx, phases[0], events[0], phases[1], actions[0]));
    assert(phases[1] is Local);
    assert(n >= 2);

    assert(responds(w, actions[0], events[1]));
    assert(step_rel(ctx, phases[1], events[1], phases[2], actions[1]));
    match events[1] {
        Event::ExistsMany { flags } => {
            assert(forall|j: int|
                0 <= j < flags@.len() ==> #[trigger] flags@[j] == w.fs.contains(
                    ctx_locals(ctx)[j],
                ));
            assert(!(exists|i: int| 0 <= i < flags@.len() && flags@[i]));
        },
        _ => {
            assert(false);
        },
    }
    assert(phases[2] is CacheEntry);
    assert(n >= 3);

    assert(responds(w, actions[1], events[2]));
    assert(events[2] matches Event::Exists { yes } && yes);
    assert(step_rel(ctx, phases[2], events[2], phases[3], actions[2]));
    assert(phases[3] is DepsGate);
    assert(n >= 4);

    assert(responds(w, actions[2], events[3]));
    assert(events[3] matches Event::Exists2 { manifest, marker } && marker);
    assert(step_rel(ctx, phases[3], events[3], phases[4], actions[3]));
    assert(is_run(actions[3], ArtifactKind::Script, ctx_entry(ctx), Origin::Cache));
    assert(phases[4] is Delegating);
    assert(n >= 5);

    assert(step_rel(ctx, phases[4], events[4], phases[5], actions[4]));
    assert(phases[5] is Finished);
    if n > 5 {
        assert(step_rel(ctx, phases[5], events[5], phases[6], actions[5]));
        assert(false);
    }
    assert(n == 5);

    assert(actions[3] matches Action::Run { candidate } && candidate.path.deep_view() == ctx_entry(
        ctx,
    ));
}

} // verus!
