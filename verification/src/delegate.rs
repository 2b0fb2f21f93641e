//! Process-delegation contract.
//!
//! A script candidate is run through the configured scripting runtime with
//! the script path first; a native candidate is run directly. The forwarded
//! arguments follow verbatim, in order. A child that completed hands back
//! its own exit code unchanged; a child killed by a signal, or a spawn that
//! failed outright, count as exit code 1.

use vstd::prelude::*;
use crate::artifact::{ArtifactKind, Candidate};
use crate::config::Config;
use crate::path::path_clone;

verus! {

/// What the driver must spawn for a candidate.
pub struct SpawnPlan {
    /// `Some(runtime)` for a script — the runtime binary runs the script —
    /// or `None` for a native executable run directly.
    pub runtime: Option<String>,
    /// The artifact's path; the runtime's first argument, or the program
    /// itself.
    pub target: Vec<String>,
    /// The forwarded arguments, appended after the target, verbatim.
    pub args: Vec<String>,
}

/// Builds the spawn plan for a candidate and the forwarded arguments.
pub fn spawn_plan(cfg: &Config, c: &Candidate, forwarded: &Vec<String>) -> (p: SpawnPlan)
    ensures
        c.kind is Script ==> (p.runtime matches Some(r) && r@ == cfg.runtime@),
        c.kind is NativeExecutable ==> p.runtime is None,
        p.target.deep_view() == c.path.deep_view(),
        p.args.deep_view() == forwarded.deep_view(),
{
    let runtime = match c.kind {
        ArtifactKind::Script => Some(cfg.runtime.clone()),
        ArtifactKind::NativeExecutable => None,
    };
    SpawnPlan { runtime, target: path_clone(&c.path), args: path_clone(forwarded) }
}

/// This process's exit code for a delegation outcome: the child's own code
/// when it completed; 1 when it died to a signal and left no code; 1 when
/// the spawn itself failed.
pub open spec fn spec_exit_code(spawned: bool, code: Option<i32>) -> int {
    if !spawned {
        1
    } else {
        match code {
            Some(c) => c as int,
            None => 1,
        }
    }
}

/// Maps a delegation outcome to this process's exit code. Every completed
/// child's code — 0, 255, anything the platform reports — passes through
/// unchanged; only a missing code or a failed spawn becomes 1.
pub fn exit_code(spawned: bool, code: Option<i32>) -> (c: i32)
    ensures
        c as int == spec_exit_code(spawned, code),
{
    if !spawned {
        1
    } else {
        match code {
            Some(c) => c,
            None => 1,
        }
    }
}

} // verus!
