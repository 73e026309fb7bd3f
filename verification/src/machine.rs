//! The launch sequence as a state machine.
//!
//! A run performs at most five steps in a fixed order; each step either
//! succeeds, moving the run to the next phase, or fails, terminating the run
//! with the error kind of the failed step. There is no retry and no rollback.
//! The model here is the reference for the executable launcher: the lemmas
//! below establish the ordering and termination properties of every run,
//! for every combination of step outcomes.

use vstd::prelude::*;

verus! {

use crate::errors::BootError;

/// One fallible step of the launch sequence, in the order performed.
#[derive(Clone, Copy, Debug, PartialEq, Eq, Structural)]
pub enum Step {
    /// Canonicalize the application directory against the working directory.
    ResolvePath,
    /// Attach to the process-wide embedded interpreter.
    AcquireRuntime,
    /// Append the application directory to the interpreter's search path.
    RegisterPath,
    /// Import the application module by name.
    ImportModule,
    /// Resolve the entry attribute and call it with no arguments.
    InvokeEntry,
}

/// How far a run has progressed, or how it terminated.
#[derive(Clone, Copy, Debug, PartialEq, Eq, Structural)]
pub enum Phase {
    Init,
    PathResolved,
    RuntimeAcquired,
    PathRegistered,
    ModuleImported,
    Done,
    Failed(BootError),
}

/// The step a run in phase `p` performs next; `None` once it has terminated.
pub open spec fn pending_step(p: Phase) -> Option<Step> {
    match p {
        Phase::Init => Some(Step::ResolvePath),
        Phase::PathResolved => Some(Step::AcquireRuntime),
        Phase::RuntimeAcquired => Some(Step::RegisterPath),
        Phase::PathRegistered => Some(Step::ImportModule),
        Phase::ModuleImported => Some(Step::InvokeEntry),
        Phase::Done => None,
        Phase::Failed(_) => None,
    }
}

/// The error kind produced when a step fails.
pub open spec fn step_error(s: Step) -> BootError {
    match s {
        Step::ResolvePath => BootError::PathResolution,
        Step::AcquireRuntime => BootError::RuntimeIntegration,
        Step::RegisterPath => BootError::RuntimeIntegration,
        Step::ImportModule => BootError::ModuleImport,
        Step::InvokeEntry => BootError::EntryPoint,
    }
}

/// The phase entered when a step succeeds.
pub open spec fn step_success(s: Step) -> Phase {
    match s {
        Step::ResolvePath => Phase::PathResolved,
        Step::AcquireRuntime => Phase::RuntimeAcquired,
        Step::RegisterPath => Phase::PathRegistered,
        Step::ImportModule => Phase::ModuleImported,
        Step::InvokeEntry => Phase::Done,
    }
}

/// One transition: perform the pending step with outcome `ok`. A terminated
/// run is left unchanged.
pub open spec fn advance(p: Phase, ok: bool) -> Phase {
    match pending_step(p) {
        Some(s) => if ok {
            step_success(s)
        } else {
            Phase::Failed(step_error(s))
        },
        None => p,
    }
}

/// The phase reached from `Init` after the step outcomes `outcomes`,
/// applied in order.
pub open spec fn phase_after(outcomes: Seq<bool>) -> Phase
    decreases outcomes.len(),
{
    if outcomes.len() == 0 {
        Phase::Init
    } else {
        advance(phase_after(outcomes.drop_last()), outcomes.last())
    }
}

/// The steps a run with outcomes `outcomes` attempts, in order. An outcome
/// offered to a terminated run attempts nothing.
pub open spec fn steps_attempted(outcomes: Seq<bool>) -> Seq<Step>
    decreases outcomes.len(),
{
    if outcomes.len() == 0 {
        Seq::empty()
    } else {
        let prefix = steps_attempted(outcomes.drop_last());
        match pending_step(phase_after(outcomes.drop_last())) {
            Some(s) => prefix.push(s),
            None => prefix,
        }
    }
}

/// How many times `s` occurs in `steps`.
pub open spec fn count_step(steps: Seq<Step>, s: Step) -> nat
    decreases steps.len(),
{
    if steps.len() == 0 {
        0
    } else {
        count_step(steps.drop_last(), s) + if steps.last() == s {
            1nat
        } else {
            0nat
        }
    }
}

/// A run that has terminated ignores every further outcome.
pub proof fn lemma_terminal_absorbs(p: Phase, ok: bool)
    requires
        p is Done || p is Failed,
    ensures
        advance(p, ok) == p,
{
}

/// A run whose five steps all succeed terminates in `Done`, having attempted
/// exactly the five steps of the sequence, in order.
pub proof fn lemma_all_success_runs_to_done()
    ensures
        phase_after(seq![true, true, true, true, true]) == Phase::Done,
        steps_attempted(seq![true, true, true, true, true]) =~= seq![
            Step::ResolvePath,
            Step::AcquireRuntime,
            Step::RegisterPath,
            Step::ImportModule,
            Step::InvokeEntry,
        ],
{
    let o5 = seq![true, true, true, true, true];
    let o4 = seq![true, true, true, true];
    let o3 = seq![true, true, true];
    let o2 = seq![true, true];
    let o1 = seq![true];
    let o0 = Seq::<bool>::empty();
    assert(o5.drop_last() =~= o4);
    assert(o4.drop_last() =~= o3);
    assert(o3.drop_last() =~= o2);
    assert(o2.drop_last() =~= o1);
    assert(o1.drop_last() =~= o0);
    assert(phase_after(o0) == Phase::Init);
    assert(phase_after(o1) == Phase::PathResolved);
    assert(phase_after(o2) == Phase::RuntimeAcquired);
    assert(phase_after(o3) == Phase::PathRegistered);
    assert(phase_after(o4) == Phase::ModuleImported);
    assert(phase_after(o5) == Phase::Done);
    assert(steps_attempted(o0) =~= Seq::<Step>::empty());
    assert(steps_attempted(o1) =~= seq![Step::ResolvePath]);
    assert(steps_attempted(o2) =~= seq![Step::ResolvePath, Step::AcquireRuntime]);
    assert(steps_attempted(o3) =~= seq![Step::ResolvePath, Step::AcquireRuntime, Step::RegisterPath]);
    assert(steps_attempted(o4) =~= seq![
        Step::ResolvePath,
        Step::AcquireRuntime,
        Step::RegisterPath,
        Step::ImportModule,
    ]);
    assert(steps_attempted(o5) =~= seq![
        Step::ResolvePath,
        Step::AcquireRuntime,
        Step::RegisterPath,
        Step::ImportModule,
        Step::InvokeEntry,
    ]);
}

/// A failed path resolution terminates the run at once: it ends in
/// `Failed(PathResolution)`, and path resolution is the only step ever
/// attempted — runtime acquisition, path registration, module import and
/// entry invocation are unreachable.
pub proof fn lemma_path_failure_stops_run(outcomes: Seq<bool>)
    requires
        outcomes.len() >= 1,
        !outcomes[0],
    ensures
        phase_after(outcomes) == Phase::Failed(BootError::PathResolution),
        steps_attempted(outcomes) =~= seq![Step::ResolvePath],
    decreases outcomes.len(),
{
    if outcomes.len() == 1 {
        let o0 = outcomes.drop_last();
        assert(o0 =~= Seq::<bool>::empty());
        assert(outcomes.last() == outcomes[0]);
        assert(phase_after(o0) == Phase::Init);
        assert(steps_attempted(o0) =~= Seq::<Step>::empty());
        assert(steps_attempted(outcomes) =~= seq![Step::ResolvePath]);
    } else {
        let prev = outcomes.drop_last();
        assert(prev[0] == outcomes[0]);
        lemma_path_failure_stops_run(prev);
        lemma_terminal_absorbs(phase_after(prev), outcomes.last());
        assert(pending_step(phase_after(prev)) is None);
        assert(steps_attempted(outcomes) =~= steps_attempted(prev));
    }
}

/// When the first three steps succeed and the module import fails, the run
/// ends in `Failed(ModuleImport)`, and the search path had already been
/// registered: `RegisterPath` stands among the attempted steps.
pub proof fn lemma_import_failure_after_registration(outcomes: Seq<bool>)
    requires
        outcomes.len() >= 4,
        outcomes[0],
        outcomes[1],
        outcomes[2],
        !outcomes[3],
    ensures
        phase_after(outcomes) == Phase::Failed(BootError::ModuleImport),
        steps_attempted(outcomes).contains(Step::RegisterPath),
    decreases outcomes.len(),
{
    if outcomes.len() == 4 {
        let o3 = outcomes.drop_last();
        let o2 = o3.drop_last();
        let o1 = o2.drop_last();
        let o0 = o1.drop_last();
        assert(o0 =~= Seq::<bool>::empty());
        assert(o1.last() == outcomes[0]);
        assert(o2.last() == outcomes[1]);
        assert(o3.last() == outcomes[2]);
        assert(outcomes.last() == outcomes[3]);
        assert(phase_after(o0) == Phase::Init);
        assert(phase_after(o1) == Phase::PathResolved);
        assert(phase_after(o2) == Phase::RuntimeAcquired);
        assert(phase_after(o3) == Phase::PathRegistered);
        assert(steps_attempted(o0) =~= Seq::<Step>::empty());
        assert(steps_attempted(o1) =~= seq![Step::ResolvePath]);
        assert(steps_attempted(o2) =~= seq![Step::ResolvePath, Step::AcquireRuntime]);
        assert(steps_attempted(o3) =~= seq![
            Step::ResolvePath,
            Step::AcquireRuntime,
            Step::RegisterPath,
        ]);
        assert(steps_attempted(outcomes) =~= seq![
            Step::ResolvePath,
            Step::AcquireRuntime,
            Step::RegisterPath,
            Step::ImportModule,
        ]);
        assert(steps_attempted(outcomes)[2] == Step::RegisterPath);
    } else {
        let prev = outcomes.drop_last();
        assert(prev[0] == outcomes[0]);
        assert(prev[1] == outcomes[1]);
        assert(prev[2] == outcomes[2]);
        assert(prev[3] == outcomes[3]);
        lemma_import_failure_after_registration(prev);
        lemma_terminal_absorbs(phase_after(prev), outcomes.last());
        assert(pending_step(phase_after(prev)) is None);
        assert(steps_attempted(outcomes) =~= steps_attempted(prev));
        let prefix = steps_attempted(prev);
        let i = choose|i: int| 0 <= i < prefix.len() && prefix[i] == Step::RegisterPath;
        assert(steps_attempted(outcomes)[i] == Step::RegisterPath);
    }
}

/// When the first four steps succeed and the entry invocation fails, the run
/// ends in `Failed(EntryPoint)` — an outcome distinct from every
/// `Failed(ModuleImport)` run, so the two failures are distinguishable.
pub proof fn lemma_entry_failure_distinct(outcomes: Seq<bool>)
    requires
        outcomes.len() >= 5,
        outcomes[0],
        outcomes[1],
        outcomes[2],
        outcomes[3],
        !outcomes[4],
    ensures
        phase_after(outcomes) == Phase::Failed(BootError::EntryPoint),
        phase_after(outcomes) != Phase::Failed(BootError::ModuleImport),
    decreases outcomes.len(),
{
    if outcomes.len() == 5 {
        let o4 = outcomes.drop_last();
        let o3 = o4.drop_last();
        let o2 = o3.drop_last();
        let o1 = o2.drop_last();
        let o0 = o1.drop_last();
        assert(o0 =~= Seq::<bool>::empty());
        assert(o1.last() == outcomes[0]);
        assert(o2.last() == outcomes[1]);
        assert(o3.last() == outcomes[2]);
        assert(o4.last() == outcomes[3]);
        assert(outcomes.last() == outcomes[4]);
        assert(phase_after(o0) == Phase::Init);
        assert(phase_after(o1) == Phase::PathResolved);
        assert(phase_after(o2) == Phase::RuntimeAcquired);
        assert(phase_after(o3) == Phase::PathRegistered);
        assert(phase_after(o4) == Phase::ModuleImported);
    } else {
        let prev = outcomes.drop_last();
        assert(prev[0] == outcomes[0]);
        assert(prev[1] == outcomes[1]);
        assert(prev[2] == outcomes[2]);
        assert(prev[3] == outcomes[3]);
        assert(prev[4] == outcomes[4]);
        lemma_entry_failure_distinct(prev);
        lemma_terminal_absorbs(phase_after(prev), outcomes.last());
    }
}

/// A failed run's error kind always names the step that failed: the last
/// step the run attempted. The taxonomy is therefore sound — in particular,
/// a `ModuleImport` failure can only come out of an import attempt and an
/// `EntryPoint` failure only out of an entry invocation, so the two are
/// distinguishable in every run.
pub proof fn lemma_failure_names_failed_step(outcomes: Seq<bool>)
    ensures
        phase_after(outcomes) matches Phase::Failed(e) ==> steps_attempted(outcomes).len() > 0
            && e == step_error(steps_attempted(outcomes).last()),
    decreases outcomes.len(),
{
    if outcomes.len() == 0 {
    } else {
        let prev = outcomes.drop_last();
        lemma_failure_names_failed_step(prev);
        let prefix = steps_attempted(prev);
        match pending_step(phase_after(prev)) {
            Some(s) => {
                assert(steps_attempted(outcomes) == prefix.push(s));
                assert(prefix.push(s).last() == s);
            },
            None => {
                assert(steps_attempted(outcomes) == prefix);
            },
        }
    }
}

/// How far through the five-step sequence a phase stands; both terminal
/// phases count as past the last step.
pub open spec fn progress(p: Phase) -> nat {
    match p {
        Phase::Init => 0,
        Phase::PathResolved => 1,
        Phase::RuntimeAcquired => 2,
        Phase::PathRegistered => 3,
        Phase::ModuleImported => 4,
        Phase::Done => 5,
        Phase::Failed(_) => 5,
    }
}

proof fn lemma_progress_lower_bound(outcomes: Seq<bool>)
    ensures
        progress(phase_after(outcomes)) >= outcomes.len() || progress(phase_after(outcomes)) == 5,
    decreases outcomes.len(),
{
    if outcomes.len() == 0 {
    } else {
        lemma_progress_lower_bound(outcomes.drop_last());
    }
}

/// Every run is single-shot: after at most five step outcomes it has
/// terminated, in `Done` or in `Failed`, and no step remains pending.
pub proof fn lemma_run_terminates(outcomes: Seq<bool>)
    requires
        outcomes.len() >= 5,
    ensures
        pending_step(phase_after(outcomes)) is None,
        phase_after(outcomes) is Done || phase_after(outcomes) is Failed,
{
    lemma_progress_lower_bound(outcomes);
}

/// The registration count a phase admits: how often `RegisterPath` has been
/// attempted on any run that reaches the phase.
spec fn register_count_bound(p: Phase) -> (nat, nat) {
    match p {
        Phase::Init => (0, 0),
        Phase::PathResolved => (0, 0),
        Phase::RuntimeAcquired => (0, 0),
        Phase::PathRegistered => (1, 1),
        Phase::ModuleImported => (1, 1),
        Phase::Done => (1, 1),
        Phase::Failed(e) => match e {
            BootError::PathResolution => (0, 0),
            BootError::RuntimeIntegration => (0, 1),
            BootError::ModuleImport => (1, 1),
            BootError::EntryPoint => (1, 1),
        },
    }
}

proof fn lemma_register_count_invariant(outcomes: Seq<bool>)
    ensures
        register_count_bound(phase_after(outcomes)).0 <= count_step(
            steps_attempted(outcomes),
            Step::RegisterPath,
        ) <= register_count_bound(phase_after(outcomes)).1,
    decreases outcomes.len(),
{
    if outcomes.len() == 0 {
    } else {
        let prev = outcomes.drop_last();
        lemma_register_count_invariant(prev);
        let prefix = steps_attempted(prev);
        match pending_step(phase_after(prev)) {
            Some(s) => {
                let steps = prefix.push(s);
                assert(steps_attempted(outcomes) == steps);
                assert(steps.drop_last() =~= prefix);
                assert(steps.last() == s);
                assert(count_step(steps, Step::RegisterPath) == count_step(
                    prefix,
                    Step::RegisterPath,
                ) + if s == Step::RegisterPath {
                    1nat
                } else {
                    0nat
                });
            },
            None => {
                assert(steps_attempted(outcomes) == prefix);
            },
        }
    }
}

/// Search-path registration is append-only and never repeated within a run:
/// no run attempts `RegisterPath` more than once, and every run that
/// completes (or fails only at import or entry invocation) attempted it
/// exactly once.
pub proof fn lemma_register_at_most_once(outcomes: Seq<bool>)
    ensures
        count_step(steps_attempted(outcomes), Step::RegisterPath) <= 1,
        phase_after(outcomes) == Phase::Done ==> count_step(
            steps_attempted(outcomes),
            Step::RegisterPath,
        ) == 1,
        phase_after(outcomes) == Phase::Failed(BootError::ModuleImport) ==> count_step(
            steps_attempted(outcomes),
            Step::RegisterPath,
        ) == 1,
        phase_after(outcomes) == Phase::Failed(BootError::EntryPoint) ==> count_step(
            steps_attempted(outcomes),
            Step::RegisterPath,
        ) == 1,
{
    lemma_register_count_invariant(outcomes);
}

} // verus!
