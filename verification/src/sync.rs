//! The synchronization engine: the strictly ordered restore / shelve /
//! rebase / unshelve sequence that merges template updates into the
//! working copy while preserving the user's strategy subtree.
//!
//! The engine is a state machine over the captured results of external
//! tool invocations. The loop that actually spawns the tool lives outside
//! the library: it asks [`next_sync_step`] which step to perform, runs the
//! command given by [`sync_step_args`], and feeds the captured result back
//! through [`apply_sync_result`].

use vstd::prelude::*;

verus! {

use crate::config::Config;
use crate::runner::RunOutput;
use crate::strategy_rel_path_spec;

/// The four ordered steps of the synchronization sequence.
#[derive(Clone, Copy, Debug, PartialEq, Eq, Structural)]
pub enum SyncStep {
    /// Overwrite every tracked file outside the protected subtree with the
    /// template branch's content.
    Restore,
    /// Capture the whole working-tree diff as one recoverable snapshot and
    /// revert the tree to the local head.
    Shelve,
    /// Replay the local commits on top of the template branch's tip.
    Rebase,
    /// Reapply the snapshot on top of the new head.
    Unshelve,
}

/// States of the synchronization sequence. Each non-terminal state has
/// exactly one next step; failure of any step absorbs into [`SyncState::Failed`],
/// tagged with the step and the tool's error stream.
#[derive(Debug)]
pub enum SyncState {
    NotStarted,
    Restored,
    Shelved,
    Rebased,
    Complete,
    Failed(SyncStep, String),
}

/// A terminal result of the sequence: success, or failure tagged with the
/// step at which it occurred and the raw diagnostic text.
#[derive(Debug)]
pub enum SyncOutcome {
    Success,
    Failure(SyncStep, String),
}

/// The step the sequence performs next from a given state; none from the
/// two terminal states. No transition skips a step and no step is retried.
pub open spec fn next_step_spec(state: SyncState) -> Option<SyncStep> {
    match state {
        SyncState::NotStarted => Some(SyncStep::Restore),
        SyncState::Restored => Some(SyncStep::Shelve),
        SyncState::Shelved => Some(SyncStep::Rebase),
        SyncState::Rebased => Some(SyncStep::Unshelve),
        SyncState::Complete => None,
        SyncState::Failed(_, _) => None,
    }
}

/// The next step to perform, or nothing when the sequence has ended.
pub fn next_sync_step(state: &SyncState) -> (r: Option<SyncStep>)
    ensures
        r == next_step_spec(*state),
{
    match state {
        SyncState::NotStarted => Some(SyncStep::Restore),
        SyncState::Restored => Some(SyncStep::Shelve),
        SyncState::Shelved => Some(SyncStep::Rebase),
        SyncState::Rebased => Some(SyncStep::Unshelve),
        SyncState::Complete => None,
        SyncState::Failed(_, _) => None,
    }
}

/// The state after the pending step's invocation returns: success
/// advances one state in order, a non-zero exit absorbs into the failed
/// state; a terminal state is left as it is.
pub open spec fn apply_result_spec(state: SyncState, out: RunOutput) -> SyncState {
    match next_step_spec(state) {
        Some(step) => if out.success {
            match step {
                SyncStep::Restore => SyncState::Restored,
                SyncStep::Shelve => SyncState::Shelved,
                SyncStep::Rebase => SyncState::Rebased,
                SyncStep::Unshelve => SyncState::Complete,
            }
        } else {
            SyncState::Failed(step, out.stderr)
        },
        None => state,
    }
}

/// Feeds one captured invocation result to the state machine.
pub fn apply_sync_result(state: SyncState, out: &RunOutput) -> (r: SyncState)
    ensures
        r == apply_result_spec(state, *out),
{
    match next_sync_step(&state) {
        Some(step) => if out.success {
            match step {
                SyncStep::Restore => SyncState::Restored,
                SyncStep::Shelve => SyncState::Shelved,
                SyncStep::Rebase => SyncState::Rebased,
                SyncStep::Unshelve => SyncState::Complete,
            }
        } else {
            SyncState::Failed(step, out.stderr.clone())
        },
        None => state,
    }
}

/// The terminal outcome of a state, if it is terminal.
pub open spec fn outcome_spec(state: SyncState) -> Option<SyncOutcome> {
    match state {
        SyncState::Complete => Some(SyncOutcome::Success),
        SyncState::Failed(step, diag) => Some(SyncOutcome::Failure(step, diag)),
        _ => None,
    }
}

/// The terminal outcome reached by the sequence, or nothing while steps
/// remain.
pub fn sync_outcome(state: &SyncState) -> (r: Option<SyncOutcome>)
    ensures
        r == outcome_spec(*state),
{
    match state {
        SyncState::Complete => Some(SyncOutcome::Success),
        SyncState::Failed(step, diag) => Some(SyncOutcome::Failure(*step, diag.clone())),
        _ => None,
    }
}

/// Arguments of each step's external invocation; bit-exact contracts with
/// the version-control tool. The restore excludes the protected subtree
/// and everything beneath it.
pub fn sync_step_args(step: &SyncStep, config: &Config) -> (args: Vec<String>)
    ensures
        match *step {
            SyncStep::Restore => {
                &&& args@.len() == 6
                &&& args@[0]@ == "restore"@
                &&& args@[1]@ == "--source=upstream/main"@
                &&& args@[2]@ == "--"@
                &&& args@[3]@ == "."@
                &&& args@[4]@ == ":!"@ + strategy_rel_path_spec(config.language)
                &&& args@[5]@ == ":!"@ + strategy_rel_path_spec(config.language) + "/**"@
            },
            SyncStep::Shelve => {
                &&& args@.len() == 1
                &&& args@[0]@ == "stash"@
            },
            SyncStep::Rebase => {
                &&& args@.len() == 2
                &&& args@[0]@ == "rebase"@
                &&& args@[1]@ == "upstream/main"@
            },
            SyncStep::Unshelve => {
                &&& args@.len() == 2
                &&& args@[0]@ == "stash"@
                &&& args@[1]@ == "pop"@
            },
        },
{
    let mut v: Vec<String> = Vec::new();
    match step {
        SyncStep::Restore => {
            let p = crate::strategy_path(config);
            v.push(String::from_str("restore"));
            v.push(String::from_str("--source=upstream/main"));
            v.push(String::from_str("--"));
            v.push(String::from_str("."));
            v.push(String::from_str(":!").concat(p.as_str()));
            v.push(String::from_str(":!").concat(p.as_str()).concat("/**"));
        },
        SyncStep::Shelve => {
            v.push(String::from_str("stash"));
        },
        SyncStep::Rebase => {
            v.push(String::from_str("rebase"));
            v.push(String::from_str("upstream/main"));
        },
        SyncStep::Unshelve => {
            v.push(String::from_str("stash"));
            v.push(String::from_str("pop"));
        },
    }
    v
}

/// The state after feeding the machine one captured result per issued
/// command, starting from `state`: the whole sequence as the outside loop
/// runs it against a given behaviour of the external tool.
pub open spec fn run_from_spec(state: SyncState, outs: Seq<RunOutput>) -> SyncState
    decreases outs.len(),
{
    if outs.len() == 0 || next_step_spec(state) is None {
        state
    } else {
        run_from_spec(apply_result_spec(state, outs[0]), outs.drop_first())
    }
}

/// The steps the machine attempts when fed `outs`, in order.
pub open spec fn attempted_steps_spec(state: SyncState, outs: Seq<RunOutput>) -> Seq<SyncStep>
    decreases outs.len(),
{
    match next_step_spec(state) {
        None => Seq::empty(),
        Some(step) => if outs.len() == 0 {
            Seq::empty()
        } else {
            seq![step] + attempted_steps_spec(apply_result_spec(state, outs[0]), outs.drop_first())
        },
    }
}

/// A fully successful run: the four steps are attempted in their fixed
/// order and the machine ends complete.
pub proof fn lemma_sync_success_run(outs: Seq<RunOutput>)
    requires
        outs.len() == 4,
        forall|i: int| 0 <= i < 4 ==> outs[i].success,
    ensures
        run_from_spec(SyncState::NotStarted, outs) == SyncState::Complete,
        attempted_steps_spec(SyncState::NotStarted, outs) =~= seq![
            SyncStep::Restore,
            SyncStep::Shelve,
            SyncStep::Rebase,
            SyncStep::Unshelve,
        ],
{
    let o1 = outs.drop_first();
    let o2 = o1.drop_first();
    let o3 = o2.drop_first();
    assert(o1[0] == outs[1] && o2[0] == outs[2] && o3[0] == outs[3]);
    assert(run_from_spec(SyncState::NotStarted, outs) == run_from_spec(SyncState::Restored, o1));
    assert(run_from_spec(SyncState::Restored, o1) == run_from_spec(SyncState::Shelved, o2));
    assert(run_from_spec(SyncState::Shelved, o2) == run_from_spec(SyncState::Rebased, o3));
    assert(run_from_spec(SyncState::Rebased, o3) == run_from_spec(
        SyncState::Complete,
        o3.drop_first(),
    ));
    assert(run_from_spec(SyncState::Complete, o3.drop_first()) == SyncState::Complete);
    assert(attempted_steps_spec(SyncState::NotStarted, outs) == seq![SyncStep::Restore]
        + attempted_steps_spec(SyncState::Restored, o1));
    assert(attempted_steps_spec(SyncState::Restored, o1) == seq![SyncStep::Shelve]
        + attempted_steps_spec(SyncState::Shelved, o2));
    assert(attempted_steps_spec(SyncState::Shelved, o2) == seq![SyncStep::Rebase]
        + attempted_steps_spec(SyncState::Rebased, o3));
    assert(attempted_steps_spec(SyncState::Rebased, o3) == seq![SyncStep::Unshelve]
        + attempted_steps_spec(SyncState::Complete, o3.drop_first()));
    assert(attempted_steps_spec(SyncState::Complete, o3.drop_first()) =~= Seq::<
        SyncStep,
    >::empty());
}

/// Rebase-failure containment: when restore and shelve succeed and the
/// rebase exits non-zero, the sequence ends failed and tagged with the
/// rebase step, carrying the rebase's error stream verbatim; the unshelve
/// step is never attempted, whatever further results the tool would have
/// produced. Since only the unshelve command consumes the shelved
/// snapshot, the snapshot created by the shelve step is still present
/// afterwards, as the designed recovery anchor.
pub proof fn lemma_rebase_failure_containment(outs: Seq<RunOutput>)
    requires
        outs.len() >= 3,
        outs[0].success,
        outs[1].success,
        !outs[2].success,
    ensures
        run_from_spec(SyncState::NotStarted, outs) == SyncState::Failed(
            SyncStep::Rebase,
            outs[2].stderr,
        ),
        !attempted_steps_spec(SyncState::NotStarted, outs).contains(SyncStep::Unshelve),
{
    let o1 = outs.drop_first();
    let o2 = o1.drop_first();
    let o3 = o2.drop_first();
    assert(o1[0] == outs[1] && o2[0] == outs[2]);
    let failed = SyncState::Failed(SyncStep::Rebase, outs[2].stderr);
    assert(run_from_spec(SyncState::NotStarted, outs) == run_from_spec(SyncState::Restored, o1));
    assert(run_from_spec(SyncState::Restored, o1) == run_from_spec(SyncState::Shelved, o2));
    assert(run_from_spec(SyncState::Shelved, o2) == run_from_spec(failed, o3));
    assert(run_from_spec(failed, o3) == failed);
    let attempted = attempted_steps_spec(SyncState::NotStarted, outs);
    assert(attempted == seq![SyncStep::Restore] + attempted_steps_spec(SyncState::Restored, o1));
    assert(attempted_steps_spec(SyncState::Restored, o1) == seq![SyncStep::Shelve]
        + attempted_steps_spec(SyncState::Shelved, o2));
    assert(attempted_steps_spec(SyncState::Shelved, o2) == seq![SyncStep::Rebase]
        + attempted_steps_spec(failed, o3));
    assert(attempted_steps_spec(failed, o3) =~= Seq::<SyncStep>::empty());
    assert(attempted =~= seq![SyncStep::Restore, SyncStep::Shelve, SyncStep::Rebase]);
    assert forall|i: int| 0 <= i < attempted.len() implies attempted[i] != SyncStep::Unshelve by {
        assert(i == 0 || i == 1 || i == 2);
    }
}

// ---------------------------------------------------------------------
// A model of the working tree, to state what the sequence does to file
// contents. A tree maps each tracked path to its content; the external
// tool owns the real trees, and the model states the documented effect of
// each step on them.
// ---------------------------------------------------------------------

/// Whether a path lies in the protected strategy subtree: it is the
/// subtree itself or a descendant of it.
pub open spec fn path_protected(p: Seq<char>, strat: Seq<char>) -> bool {
    ||| p == strat
    ||| (p.len() > strat.len() && p.subrange(0, strat.len() as int) == strat && p[strat.len() as int]
        == '/')
}

/// Effect of the selective restore on the working tree: every tracked
/// path outside the protected subtree takes the template branch's
/// content; protected paths keep theirs.
pub open spec fn restore_effect(
    work: Map<Seq<char>, Seq<char>>,
    upstream: Map<Seq<char>, Seq<char>>,
    strat: Seq<char>,
) -> Map<Seq<char>, Seq<char>> {
    Map::new(
        |p: Seq<char>| work.dom().contains(p),
        |p: Seq<char>|
            if path_protected(p, strat) {
                work[p]
            } else {
                upstream[p]
            },
    )
}

/// Effect of reapplying a shelved snapshot on top of the current tree: a
/// path whose shelved content differed from the base (the head at shelve
/// time) takes the shelved content back; every other path keeps the
/// current content. This is the clean-application case; a conflicting
/// application is a failure of the unshelve step, not modelled here.
pub open spec fn unshelve_effect(
    cur: Map<Seq<char>, Seq<char>>,
    shelf: Map<Seq<char>, Seq<char>>,
    base: Map<Seq<char>, Seq<char>>,
) -> Map<Seq<char>, Seq<char>> {
    Map::new(
        |p: Seq<char>| cur.dom().contains(p),
        |p: Seq<char>|
            if shelf.dom().contains(p) && base.dom().contains(p) && shelf[p] != base[p] {
                shelf[p]
            } else {
                cur[p]
            },
    )
}

/// The working tree after a fully successful run: the restore rewrites
/// the non-protected paths, the shelve captures the tree and reverts it
/// to the old head, the rebase leaves the clean tree of the new head
/// `head1`, and the unshelve reapplies the snapshot on top of it.
pub open spec fn sync_success_tree(
    work0: Map<Seq<char>, Seq<char>>,
    head0: Map<Seq<char>, Seq<char>>,
    upstream: Map<Seq<char>, Seq<char>>,
    head1: Map<Seq<char>, Seq<char>>,
    strat: Seq<char>,
) -> Map<Seq<char>, Seq<char>> {
    unshelve_effect(head1, restore_effect(work0, upstream, strat), head0)
}

/// Preservation: a successful run returns every protected path's content
/// bit-identical to what it was immediately before the sequence began,
/// and gives every non-protected path the template branch's content.
///
/// The trees share one set of tracked paths. The two hypotheses on the
/// rebased head `head1` state the rebase step's documented result when
/// the template's advance touches no protected path: replaying the local
/// commits keeps the old head's protected content, and every
/// non-protected path ends at the template's content.
pub proof fn lemma_sync_preserves_protected(
    work0: Map<Seq<char>, Seq<char>>,
    head0: Map<Seq<char>, Seq<char>>,
    upstream: Map<Seq<char>, Seq<char>>,
    head1: Map<Seq<char>, Seq<char>>,
    strat: Seq<char>,
)
    requires
        head0.dom() == work0.dom(),
        upstream.dom() == work0.dom(),
        head1.dom() == work0.dom(),
        forall|p: Seq<char>|
            work0.dom().contains(p) && path_protected(p, strat) ==> #[trigger] head1[p] == head0[p],
        forall|p: Seq<char>|
            work0.dom().contains(p) && !path_protected(p, strat) ==> #[trigger] head1[p]
                == upstream[p],
    ensures
        sync_success_tree(work0, head0, upstream, head1, strat).dom() == work0.dom(),
        forall|p: Seq<char>|
            work0.dom().contains(p) && path_protected(p, strat) ==> #[trigger] sync_success_tree(
                work0,
                head0,
                upstream,
                head1,
                strat,
            )[p] == work0[p],
        forall|p: Seq<char>|
            work0.dom().contains(p) && !path_protected(p, strat) ==> #[trigger] sync_success_tree(
                work0,
                head0,
                upstream,
                head1,
                strat,
            )[p] == upstream[p],
{
    let restored = restore_effect(work0, upstream, strat);
    let fin = sync_success_tree(work0, head0, upstream, head1, strat);
    assert(restored.dom() =~= work0.dom());
    assert(fin.dom() =~= work0.dom());
    assert forall|p: Seq<char>|
        work0.dom().contains(p) && path_protected(p, strat) implies #[trigger] fin[p]
        == work0[p] by {
        assert(restored[p] == work0[p]);
        if restored.dom().contains(p) && head0.dom().contains(p) && restored[p] != head0[p] {
            assert(fin[p] == restored[p]);
        } else {
            assert(fin[p] == head1[p]);
            assert(head1[p] == head0[p]);
        }
    }
    assert forall|p: Seq<char>|
        work0.dom().contains(p) && !path_protected(p, strat) implies #[trigger] fin[p]
        == upstream[p] by {
        assert(restored[p] == upstream[p]);
        if restored.dom().contains(p) && head0.dom().contains(p) && restored[p] != head0[p] {
            assert(fin[p] == restored[p]);
        } else {
            assert(fin[p] == head1[p]);
            assert(head1[p] == upstream[p]);
        }
    }
}

} // verus!
