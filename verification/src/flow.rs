//! The single-shot submission flow.
//!
//! Every example drives the accelerator through the same strictly linear
//! progression, traversed exactly once: uninitialized, device ready,
//! resources ready, pipeline ready, recorded, submitted, completed, read.
//! The unverified shell performs each outside action (device creation,
//! allocation, pipeline build, recording, submission, fence wait, read-back)
//! only after `advance` has accepted the corresponding step; a step offered
//! out of order is refused and the run aborts, which is the fatal-on-first-
//! error policy of the examples.

use vstd::prelude::*;

verus! {

/// The stage a single-shot run has reached.
#[derive(Clone, Copy, Debug, PartialEq, Eq, Structural)]
pub enum RunState {
    Uninitialized,
    DeviceReady,
    ResourcesReady,
    PipelineReady,
    Recorded,
    Submitted,
    Completed,
    Read,
}

/// One step of the flow, named after the outside action it authorizes.
#[derive(Clone, Copy, Debug, PartialEq, Eq, Structural)]
pub enum Step {
    SelectDevice,
    AllocateResources,
    BuildPipeline,
    RecordCommands,
    Submit,
    AwaitFence,
    ReadBack,
}

/// A step was offered from a state it does not start from.
#[derive(Clone, Copy, Debug, PartialEq, Eq, Structural)]
pub enum FlowError {
    OutOfOrder,
}

/// The only state a step may start from.
pub open spec fn step_source(step: Step) -> RunState {
    match step {
        Step::SelectDevice => RunState::Uninitialized,
        Step::AllocateResources => RunState::DeviceReady,
        Step::BuildPipeline => RunState::ResourcesReady,
        Step::RecordCommands => RunState::PipelineReady,
        Step::Submit => RunState::Recorded,
        Step::AwaitFence => RunState::Submitted,
        Step::ReadBack => RunState::Completed,
    }
}

/// The state a step leads to when accepted.
pub open spec fn step_target(step: Step) -> RunState {
    match step {
        Step::SelectDevice => RunState::DeviceReady,
        Step::AllocateResources => RunState::ResourcesReady,
        Step::BuildPipeline => RunState::PipelineReady,
        Step::RecordCommands => RunState::Recorded,
        Step::Submit => RunState::Submitted,
        Step::AwaitFence => RunState::Completed,
        Step::ReadBack => RunState::Read,
    }
}

/// What `advance` decides: a step is accepted exactly from its source state.
pub open spec fn advance_spec(state: RunState, step: Step) -> Result<RunState, FlowError> {
    if state == step_source(step) {
        Ok(step_target(step))
    } else {
        Err(FlowError::OutOfOrder)
    }
}

/// Decide whether `step` may run from `state`, and if so which state the run
/// is in afterwards.  The shell consults this before every outside action.
pub fn advance(state: RunState, step: Step) -> (r: Result<RunState, FlowError>)
    ensures
        r == advance_spec(state, step),
{
    let source = match step {
        Step::SelectDevice => RunState::Uninitialized,
        Step::AllocateResources => RunState::DeviceReady,
        Step::BuildPipeline => RunState::ResourcesReady,
        Step::RecordCommands => RunState::PipelineReady,
        Step::Submit => RunState::Recorded,
        Step::AwaitFence => RunState::Submitted,
        Step::ReadBack => RunState::Completed,
    };
    if state == source {
        let target = match step {
            Step::SelectDevice => RunState::DeviceReady,
            Step::AllocateResources => RunState::ResourcesReady,
            Step::BuildPipeline => RunState::PipelineReady,
            Step::RecordCommands => RunState::Recorded,
            Step::Submit => RunState::Submitted,
            Step::AwaitFence => RunState::Completed,
            Step::ReadBack => RunState::Read,
        };
        Ok(target)
    } else {
        Err(FlowError::OutOfOrder)
    }
}

/// The flow is linear: from the initial state, the seven steps taken in
/// order are each accepted, and they end in the read state; so one full run
/// traverses every stage exactly once.
pub proof fn lemma_single_shot_run()
    ensures
        advance_spec(RunState::Uninitialized, Step::SelectDevice) == Ok::<RunState, FlowError>(
            RunState::DeviceReady,
        ),
        advance_spec(RunState::DeviceReady, Step::AllocateResources) == Ok::<RunState, FlowError>(
            RunState::ResourcesReady,
        ),
        advance_spec(RunState::ResourcesReady, Step::BuildPipeline) == Ok::<RunState, FlowError>(
            RunState::PipelineReady,
        ),
        advance_spec(RunState::PipelineReady, Step::RecordCommands) == Ok::<RunState, FlowError>(
            RunState::Recorded,
        ),
        advance_spec(RunState::Recorded, Step::Submit) == Ok::<RunState, FlowError>(
            RunState::Submitted,
        ),
        advance_spec(RunState::Submitted, Step::AwaitFence) == Ok::<RunState, FlowError>(
            RunState::Completed,
        ),
        advance_spec(RunState::Completed, Step::ReadBack) == Ok::<RunState, FlowError>(
            RunState::Read,
        ),
{
}

/// A run is single-shot: once the result has been read, no further step is
/// accepted.
pub proof fn lemma_read_is_terminal(step: Step)
    ensures
        advance_spec(RunState::Read, step) == Err::<RunState, FlowError>(FlowError::OutOfOrder),
{
}

/// Resource allocation is accepted only once a device is ready: from any
/// other state, in particular the initial one, the allocation step is
/// refused.
pub proof fn lemma_allocation_needs_device(state: RunState)
    ensures
        advance_spec(state, Step::AllocateResources) is Ok <==> state == RunState::DeviceReady,
{
}

} // verus!
