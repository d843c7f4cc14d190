//! The order of the stages and what a failure does to it.
//!
//! A run starts at [`Stage::Start`] and moves one stage at a time. Every
//! stage but the last ones asks for a task; the caller performs it and hands
//! its outcome to [`Pipeline::advance`]. Success leads to the next stage,
//! failure to [`Stage::Failed`], which nothing leaves.

use crate::error::PipelineError;
use vstd::prelude::*;

verus! {

/// How far a run has come.
#[derive(Clone, Copy, Debug, PartialEq, Eq, Structural)]
pub enum Stage {
    /// Nothing has happened yet.
    Start,
    /// The source path is accepted.
    Validated,
    /// The output root is fresh and empty.
    OutputReady,
    /// The members of the archive lie below the output root.
    Extracted,
    /// The intermediate archive has been produced.
    Packaged,
    /// The sources have been decompiled.
    Decompiled,
    /// The resources have been decoded.
    ResourcesDecoded,
    /// The run is complete.
    Finished,
    /// A stage failed; the run is over.
    Failed,
}

/// The work that leads from one stage to the next.
#[derive(Clone, Copy, Debug, PartialEq, Eq, Structural)]
pub enum Task {
    Validate,
    PrepareOutput,
    Extract,
    Package,
    Decompile,
    DecodeResources,
}

/// A run of the pipeline: the stage it has reached and whether it decodes
/// the resources at its end.
#[derive(Clone, Copy, Debug, PartialEq, Eq, Structural)]
pub struct Pipeline {
    pub stage: Stage,
    pub decode_resources: bool,
}

/// The run is over at `stage`.
pub open spec fn spec_is_terminal(stage: Stage) -> bool {
    stage == Stage::Finished || stage == Stage::Failed
}

/// The task that `stage` asks for. The stage after decompiling asks for
/// one only where the resources are to be decoded; the stages at which the
/// run is over ask for none, nor does the stage after decoding.
pub open spec fn spec_task(stage: Stage, decode_resources: bool) -> Option<Task> {
    match stage {
        Stage::Start => Some(Task::Validate),
        Stage::Validated => Some(Task::PrepareOutput),
        Stage::OutputReady => Some(Task::Extract),
        Stage::Extracted => Some(Task::Package),
        Stage::Packaged => Some(Task::Decompile),
        Stage::Decompiled => if decode_resources {
            Some(Task::DecodeResources)
        } else {
            None
        },
        Stage::ResourcesDecoded => None,
        Stage::Finished => None,
        Stage::Failed => None,
    }
}

/// The stage that follows `stage` once its task has succeeded, or at once
/// where it asks for none.
pub open spec fn spec_successor(stage: Stage, decode_resources: bool) -> Stage {
    match stage {
        Stage::Start => Stage::Validated,
        Stage::Validated => Stage::OutputReady,
        Stage::OutputReady => Stage::Extracted,
        Stage::Extracted => Stage::Packaged,
        Stage::Packaged => Stage::Decompiled,
        Stage::Decompiled => if decode_resources {
            Stage::ResourcesDecoded
        } else {
            Stage::Finished
        },
        Stage::ResourcesDecoded => Stage::Finished,
        Stage::Finished => Stage::Finished,
        Stage::Failed => Stage::Failed,
    }
}

/// The stage that follows `stage` on an outcome: where the run is over it
/// stays; a failure leads to [`Stage::Failed`]; success to the successor.
pub open spec fn spec_advance(stage: Stage, decode_resources: bool, succeeded: bool) -> Stage {
    if spec_is_terminal(stage) {
        stage
    } else if succeeded {
        spec_successor(stage, decode_resources)
    } else {
        Stage::Failed
    }
}

/// The stage that a run reaches from `stage` on the given outcomes, taken
/// in turn; `true` stands for success.
pub open spec fn spec_run(stage: Stage, decode_resources: bool, outcomes: Seq<bool>) -> Stage
    decreases outcomes.len(),
{
    if outcomes.len() == 0 {
        stage
    } else {
        spec_run(
            spec_advance(stage, decode_resources, outcomes[0]),
            decode_resources,
            outcomes.drop_first(),
        )
    }
}

/// How many stages lie at most between `stage` and the end of the run.
pub open spec fn spec_distance(stage: Stage) -> nat {
    match stage {
        Stage::Start => 7,
        Stage::Validated => 6,
        Stage::OutputReady => 5,
        Stage::Extracted => 4,
        Stage::Packaged => 3,
        Stage::Decompiled => 2,
        Stage::ResourcesDecoded => 1,
        Stage::Finished => 0,
        Stage::Failed => 0,
    }
}

/// The tasks that a run asks for from `stage` on while every one succeeds,
/// in their order.
pub open spec fn spec_tasks_from(stage: Stage, decode_resources: bool) -> Seq<Task>
    decreases spec_distance(stage),
{
    if spec_is_terminal(stage) {
        Seq::empty()
    } else {
        let rest = spec_tasks_from(spec_successor(stage, decode_resources), decode_resources);
        match spec_task(stage, decode_resources) {
            Some(task) => seq![task] + rest,
            None => rest,
        }
    }
}

impl Pipeline {
    /// A run at its start.
    pub fn new(decode_resources: bool) -> (r: Pipeline)
        ensures
            r.stage == Stage::Start,
            r.decode_resources == decode_resources,
    {
        Pipeline { stage: Stage::Start, decode_resources }
    }

    /// Tells whether the run is over.
    pub fn is_terminal(&self) -> (r: bool)
        ensures
            r == spec_is_terminal(self.stage),
    {
        match self.stage {
            Stage::Finished => true,
            Stage::Failed => true,
            _ => false,
        }
    }

    /// The task that the current stage asks for.
    pub fn task(&self) -> (r: Option<Task>)
        ensures
            r == spec_task(self.stage, self.decode_resources),
    {
        match self.stage {
            Stage::Start => Some(Task::Validate),
            Stage::Validated => Some(Task::PrepareOutput),
            Stage::OutputReady => Some(Task::Extract),
            Stage::Extracted => Some(Task::Package),
            Stage::Packaged => Some(Task::Decompile),
            Stage::Decompiled => if self.decode_resources {
                Some(Task::DecodeResources)
            } else {
                None
            },
            _ => None,
        }
    }

    /// Moves the run on by the outcome of the current stage's task; a stage
    /// without a task is left on success.
    pub fn advance(&mut self, outcome: &Result<(), PipelineError>)
        ensures
            final(self).decode_resources == old(self).decode_resources,
            final(self).stage == spec_advance(
                old(self).stage,
                old(self).decode_resources,
                outcome is Ok,
            ),
    {
        let next = match self.stage {
            Stage::Finished => Stage::Finished,
            Stage::Failed => Stage::Failed,
            stage => if outcome.is_ok() {
                match stage {
                    Stage::Start => Stage::Validated,
                    Stage::Validated => Stage::OutputReady,
                    Stage::OutputReady => Stage::Extracted,
                    Stage::Extracted => Stage::Packaged,
                    Stage::Packaged => Stage::Decompiled,
                    Stage::Decompiled => if self.decode_resources {
                        Stage::ResourcesDecoded
                    } else {
                        Stage::Finished
                    },
                    _ => Stage::Finished,
                }
            } else {
                Stage::Failed
            },
        };
        self.stage = next;
    }

    /// What the run has come to: nothing while it is under way, success
    /// once it is finished, and `failure` once it has failed.
    pub fn result(&self, failure: PipelineError) -> (r: Option<Result<(), PipelineError>>)
        ensures
            r == match self.stage {
                Stage::Finished => Some(Ok::<(), PipelineError>(())),
                Stage::Failed => Some(Err::<(), PipelineError>(failure)),
                _ => None,
            },
    {
        match self.stage {
            Stage::Finished => Some(Ok(())),
            Stage::Failed => Some(Err(failure)),
            _ => None,
        }
    }
}

/// Nothing leaves a stage at which the run is over, whatever comes after.
pub proof fn lemma_terminal_is_absorbing(
    stage: Stage,
    decode_resources: bool,
    outcomes: Seq<bool>,
)
    requires
        spec_is_terminal(stage),
    ensures
        spec_run(stage, decode_resources, outcomes) == stage,
        spec_task(stage, decode_resources) is None,
    decreases outcomes.len(),
{
    if outcomes.len() > 0 {
        lemma_terminal_is_absorbing(stage, decode_resources, outcomes.drop_first());
    }
}

/// A failure ends the run at once: from a stage that is under way it leads
/// to [`Stage::Failed`], where no task is asked for and which no later
/// outcome leaves.
pub proof fn lemma_failure_aborts(stage: Stage, decode_resources: bool, later: Seq<bool>)
    requires
        !spec_is_terminal(stage),
    ensures
        spec_advance(stage, decode_resources, false) == Stage::Failed,
        spec_task(Stage::Failed, decode_resources) is None,
        spec_run(stage, decode_resources, seq![false] + later) == Stage::Failed,
{
    let outcomes = seq![false] + later;
    assert(outcomes[0] == false);
    assert(outcomes.drop_first() =~= later);
    lemma_terminal_is_absorbing(Stage::Failed, decode_resources, later);
}

/// A run of successes that is long enough ends finished, wherever it sets
/// out but from failure.
pub proof fn lemma_successes_finish(stage: Stage, decode_resources: bool, outcomes: Seq<bool>)
    requires
        stage != Stage::Failed,
        outcomes.len() >= spec_distance(stage),
        forall|i: int| 0 <= i < outcomes.len() ==> outcomes[i],
    ensures
        spec_run(stage, decode_resources, outcomes) == Stage::Finished,
    decreases outcomes.len(),
{
    if outcomes.len() > 0 {
        let rest = outcomes.drop_first();
        assert forall|i: int| 0 <= i < rest.len() implies rest[i] by {
            assert(rest[i] == outcomes[i + 1]);
        }
        lemma_successes_finish(
            spec_advance(stage, decode_resources, outcomes[0]),
            decode_resources,
            rest,
        );
    }
}

/// A run in which every task succeeds asks for the stages' tasks in their
/// fixed order, none left out but the decoding of resources where it is
/// switched off, and ends finished.
pub proof fn lemma_order_of_tasks(decode_resources: bool)
    ensures
        spec_tasks_from(Stage::Start, decode_resources) == if decode_resources {
            seq![
                Task::Validate,
                Task::PrepareOutput,
                Task::Extract,
                Task::Package,
                Task::Decompile,
                Task::DecodeResources,
            ]
        } else {
            seq![Task::Validate, Task::PrepareOutput, Task::Extract, Task::Package, Task::Decompile]
        },
        spec_run(Stage::Start, decode_resources, Seq::new(7, |i: int| true)) == Stage::Finished,
{
    reveal_with_fuel(spec_tasks_from, 9);
    let tasks = spec_tasks_from(Stage::Start, decode_resources);
    if decode_resources {
        assert(tasks =~= seq![
            Task::Validate,
            Task::PrepareOutput,
            Task::Extract,
            Task::Package,
            Task::Decompile,
            Task::DecodeResources,
        ]);
    } else {
        assert(tasks =~= seq![
            Task::Validate,
            Task::PrepareOutput,
            Task::Extract,
            Task::Package,
            Task::Decompile,
        ]);
    }
    lemma_successes_finish(Stage::Start, decode_resources, Seq::new(7, |i: int| true));
}

} // verus!
