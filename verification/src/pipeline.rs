//! The driving protocol of the pipeline: which stage is to be executed next,
//! and what the outcome of a stage does to the machine.
//!
//! The caller executes the stage that `Pipeline::advance` hands out, reports
//! how it ended, and stops when it is told that the pipeline is finished or
//! halted. After every call it writes the state file as the machine's saved
//! stage says.

use vstd::prelude::*;

use crate::state_machine::{LauncherState, StateMachine};

verus! {

/// How the stage handed out last has ended; `Begin` before the first.
#[derive(Debug, Clone, Copy, PartialEq, Eq, Structural)]
pub enum StageOutcome {
    Begin,
    Succeeded,
    Failed,
}

/// What the caller has to do next.
#[derive(Debug, Clone, Copy, PartialEq, Eq, Structural)]
pub enum Directive {
    /// Execute the action of the stage and report its outcome.
    Run(LauncherState),
    /// The pipeline is complete; the state file is to be deleted.
    Finished,
    /// The stage failed; the state file records `Failed`. Nothing is retried.
    Halted,
}

/// Whether a stage is passed over in a dry run: the stages that change the
/// installation are.
pub open spec fn skipped_in_dry_run(stage: LauncherState) -> bool {
    stage == LauncherState::Sync || stage == LauncherState::Build || stage
        == LauncherState::Launch
}

/// The stage to execute when the machine stands at `stage`: the stage
/// itself; `Init` where the last run failed; in a dry run the next stage
/// that is not passed over. `None` where the machine reaches `Complete`
/// first.
pub open spec fn stage_to_run(stage: LauncherState, dry_run: bool) -> Option<LauncherState> {
    match stage {
        LauncherState::Failed => Some(LauncherState::Init),
        LauncherState::Complete => None,
        _ => if dry_run && skipped_in_dry_run(stage) {
            None
        } else {
            Some(stage)
        },
    }
}

/// The stage at which a run starts, given the stage that the machine was
/// resumed at: a run that finds the pipeline completed starts over.
pub open spec fn entry_stage(stage: LauncherState) -> LauncherState {
    if stage == LauncherState::Complete {
        LauncherState::Init
    } else {
        stage
    }
}

/// The directive for a machine that stands at `stage` with nothing awaited.
pub open spec fn directive_at(stage: LauncherState, dry_run: bool) -> Directive {
    match stage_to_run(stage, dry_run) {
        Some(s) => Directive::Run(s),
        None => Directive::Finished,
    }
}

/// The directive that follows an outcome.
pub open spec fn directive_after(
    stage: LauncherState,
    outcome: StageOutcome,
    dry_run: bool,
) -> Directive {
    match outcome {
        StageOutcome::Failed => Directive::Halted,
        StageOutcome::Succeeded => match stage.successor() {
            Some(next) => directive_at(next, dry_run),
            None => Directive::Finished,
        },
        StageOutcome::Begin => directive_at(entry_stage(stage), dry_run),
    }
}

/// The driver of the pipeline. In a dry run only the stages that change
/// nothing on the machine are executed.
pub struct Pipeline {
    pub dry_run: bool,
}

impl Pipeline {
    /// A driver for a run, dry or not.
    pub fn new(dry_run: bool) -> (res: Pipeline)
        ensures
            res.dry_run == dry_run,
    {
        Pipeline { dry_run }
    }

    /// Takes in the outcome of the stage handed out last and hands out what
    /// is to be done next.
    ///
    /// A success moves the machine to the next stage, a failure to `Failed`.
    /// A machine found at `Failed` is reset and starts over at `Init`; one
    /// found at `Complete` when a run begins, too. In a dry run the stages
    /// that change the installation are passed over as if they had succeeded.
    /// When the directive is `Run`, the machine stands at the stage to
    /// execute, and that stage is saved, unless the run has only begun and
    /// the machine stood there already; when it is `Finished`, no stage is
    /// saved any more.
    pub fn advance(&self, machine: &mut StateMachine, outcome: StageOutcome) -> (res: Directive)
        ensures
            res == directive_after(old(machine).stage(), outcome, self.dry_run),
            final(machine).file() == old(machine).file(),
            res matches Directive::Run(stage) ==> {
                &&& final(machine).stage() == stage
                &&& final(machine).persisted() == if outcome is Begin && old(machine).stage()
                    == stage {
                    old(machine).persisted()
                } else {
                    Some(stage)
                }
            },
            res is Finished ==> {
                &&& final(machine).persisted() is None
                &&& final(machine).stage() == LauncherState::Complete || final(machine).stage()
                    == old(machine).stage()
            },
            res is Halted ==> {
                &&& final(machine).stage() == LauncherState::Failed
                &&& final(machine).persisted() == Some(LauncherState::Failed)
            },
    {
        match outcome {
            StageOutcome::Failed => {
                machine.fail();
                return Directive::Halted;
            },
            StageOutcome::Succeeded => {
                if machine.transition().is_none() {
                    machine.clear_saved_state();
                    return Directive::Finished;
                }
            },
            StageOutcome::Begin => {
                if machine.current() == LauncherState::Complete {
                    machine.reset();
                }
            },
        }
        let stage = machine.current();
        match stage {
            LauncherState::Complete => {
                machine.clear_saved_state();
                Directive::Finished
            },
            LauncherState::Failed => {
                machine.reset();
                Directive::Run(LauncherState::Init)
            },
            LauncherState::Sync | LauncherState::Build | LauncherState::Launch => {
                if !self.dry_run {
                    return Directive::Run(stage);
                }
                while machine.current() != LauncherState::Complete
                    invariant
                        machine.file() == old(machine).file(),
                        skipped_in_dry_run(machine.stage()) || machine.stage()
                            == LauncherState::Complete,
                    decreases 6 - machine.stage().position(),
                {
                    let _ = machine.transition();
                }
                machine.clear_saved_state();
                Directive::Finished
            },
            _ => Directive::Run(stage),
        }
    }
}

/// Resuming: a run that finds a stage recorded, other than `Complete` and
/// `Failed`, begins by executing that very stage, no earlier one.
pub proof fn lemma_resumes_at_recorded_stage(recorded: LauncherState)
    requires
        recorded != LauncherState::Complete,
        recorded != LauncherState::Failed,
    ensures
        directive_after(
            crate::state_machine::starting_stage(Some(recorded)),
            StageOutcome::Begin,
            false,
        ) == Directive::Run(recorded),
{
}

/// Starting over: a run that finds the pipeline completed, failed, or no
/// stage recorded at all begins with `Init`.
pub proof fn lemma_starts_over(recorded: Option<LauncherState>, dry_run: bool)
    requires
        recorded is None || recorded == Some(LauncherState::Complete) || recorded == Some(
            LauncherState::Failed,
        ),
    ensures
        directive_after(crate::state_machine::starting_stage(recorded), StageOutcome::Begin, dry_run)
            == Directive::Run(LauncherState::Init),
{
}

/// Progress: after a stage has succeeded, the stage executed next, if any,
/// is its successor. No stage is executed again and none is left out, and
/// the pipeline is finished exactly when `Launch` has succeeded.
pub proof fn lemma_success_moves_forward(stage: LauncherState)
    requires
        stage != LauncherState::Complete,
        stage != LauncherState::Failed,
    ensures
        directive_after(stage, StageOutcome::Succeeded, false) == if stage
            == LauncherState::Launch {
            Directive::Finished
        } else {
            Directive::Run(stage.successor()->0)
        },
        directive_after(stage, StageOutcome::Succeeded, false) matches Directive::Run(next)
            ==> next.position() == stage.position() + 1,
{
}

/// A failure always halts the pipeline, and nothing halts it but a failure.
pub proof fn lemma_halts_only_on_failure(stage: LauncherState, outcome: StageOutcome, dry_run: bool)
    ensures
        directive_after(stage, outcome, dry_run) is Halted <==> outcome is Failed,
{
}

/// In a dry run no stage that changes the installation is ever executed.
pub proof fn lemma_dry_run_changes_nothing(stage: LauncherState, outcome: StageOutcome)
    ensures
        directive_after(stage, outcome, true) matches Directive::Run(next) ==> !skipped_in_dry_run(
            next,
        ),
{
}

/// Restart: a run that is interrupted while the stage handed out last is
/// at work, and finds that stage recorded when it is started again, is
/// handed the same stage again.
pub proof fn lemma_restart_repeats_directive(
    stage: LauncherState,
    outcome: StageOutcome,
    dry_run: bool,
)
    ensures
        directive_after(stage, outcome, dry_run) matches Directive::Run(next) ==> directive_after(
            crate::state_machine::starting_stage(Some(next)),
            StageOutcome::Begin,
            dry_run,
        ) == Directive::Run(next),
{
}

/// The stages that a run executes, in order, where every stage succeeds:
/// the stage handed out after `outcome`, then the stages handed out after
/// each success, for at most `rounds` stages.
pub open spec fn executed(
    stage: LauncherState,
    outcome: StageOutcome,
    dry_run: bool,
    rounds: nat,
) -> Seq<
    LauncherState,
>
    decreases rounds,
{
    if rounds == 0 {
        Seq::empty()
    } else {
        match directive_after(stage, outcome, dry_run) {
            Directive::Run(next) => seq![next] + executed(
                next,
                StageOutcome::Succeeded,
                dry_run,
                (rounds - 1) as nat,
            ),
            _ => Seq::empty(),
        }
    }
}

/// A whole run: resumed at a recorded stage other than `Complete` and
/// `Failed`, a run in which every stage succeeds executes that stage and
/// every later stage up to `Launch`, each once and in order, and no other.
pub proof fn lemma_run_executes_the_rest(recorded: LauncherState)
    requires
        recorded != LauncherState::Complete,
        recorded != LauncherState::Failed,
    ensures
        executed(recorded, StageOutcome::Begin, false, 7).len() == 6 - recorded.position(),
        forall|i: int|
            0 <= i < 6 - recorded.position() ==> (#[trigger] executed(
                recorded,
                StageOutcome::Begin,
                false,
                7,
            )[i]).position() == recorded.position() + i,
{
    reveal_with_fuel(executed, 8);
}

/// A fresh run, and a run after a completed or a failed one, executes all
/// six stages from `Init` to `Launch`; a dry run executes the first three.
pub proof fn lemma_run_from_the_start(stage: LauncherState)
    requires
        stage == LauncherState::Init || stage == LauncherState::Complete || stage
            == LauncherState::Failed,
    ensures
        executed(stage, StageOutcome::Begin, false, 7) == seq![
            LauncherState::Init,
            LauncherState::SelfUpdate,
            LauncherState::DependencyAudit,
            LauncherState::Sync,
            LauncherState::Build,
            LauncherState::Launch,
        ],
        executed(stage, StageOutcome::Begin, true, 7) == seq![
            LauncherState::Init,
            LauncherState::SelfUpdate,
            LauncherState::DependencyAudit,
        ],
{
    reveal_with_fuel(executed, 8);
    assert(executed(stage, StageOutcome::Begin, false, 7) =~= seq![
        LauncherState::Init,
        LauncherState::SelfUpdate,
        LauncherState::DependencyAudit,
        LauncherState::Sync,
        LauncherState::Build,
        LauncherState::Launch,
    ]);
    assert(executed(stage, StageOutcome::Begin, true, 7) =~= seq![
        LauncherState::Init,
        LauncherState::SelfUpdate,
        LauncherState::DependencyAudit,
    ]);
}

} // verus!
