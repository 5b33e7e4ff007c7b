use gpu_singleshot::device::{
    init, Accelerator, Capability, DeviceSelection, InitError, QueueFamily,
};
use gpu_singleshot::flow::{advance, FlowError, RunState, Step};

fn family(graphics: bool, compute: bool) -> QueueFamily {
    QueueFamily { queues_count: 1, supports_graphics: graphics, supports_compute: compute }
}

#[test]
fn init_selects_first_graphics_family() {
    let accelerators = vec![Accelerator {
        queue_families: vec![family(false, true), family(true, true), family(true, false)],
    }];
    let selection = init(&accelerators, Capability::Graphics).unwrap();
    assert_eq!(
        selection,
        DeviceSelection { accelerator_index: 0, queue_family_index: 1 }
    );
}

#[test]
fn init_selects_first_accelerator_only() {
    // A graphics family on the second accelerator does not help: the policy
    // looks at the first accelerator alone.
    let accelerators = vec![
        Accelerator { queue_families: vec![family(false, true)] },
        Accelerator { queue_families: vec![family(true, true)] },
    ];
    assert_eq!(
        init(&accelerators, Capability::Graphics),
        Err(InitError::NoQueueFamily)
    );
}

#[test]
fn init_compute_capability() {
    let accelerators = vec![Accelerator {
        queue_families: vec![family(true, false), family(false, true)],
    }];
    let selection = init(&accelerators, Capability::Compute).unwrap();
    assert_eq!(selection.queue_family_index, 1);
}

#[test]
fn init_no_accelerator() {
    let accelerators: Vec<Accelerator> = Vec::new();
    assert_eq!(
        init(&accelerators, Capability::Graphics),
        Err(InitError::NoAccelerator)
    );
}

#[test]
fn init_no_queue_family() {
    let accelerators = vec![Accelerator { queue_families: Vec::new() }];
    assert_eq!(
        init(&accelerators, Capability::Graphics),
        Err(InitError::NoQueueFamily)
    );
}

#[test]
fn no_allocation_without_device() {
    // With zero accelerators, initialization fails while the flow is still in
    // its initial state, and the allocation step is refused there.
    let accelerators: Vec<Accelerator> = Vec::new();
    assert!(init(&accelerators, Capability::Graphics).is_err());
    assert_eq!(
        advance(RunState::Uninitialized, Step::AllocateResources),
        Err(FlowError::OutOfOrder)
    );
}

#[test]
fn flow_full_run() {
    let steps = [
        Step::SelectDevice,
        Step::AllocateResources,
        Step::BuildPipeline,
        Step::RecordCommands,
        Step::Submit,
        Step::AwaitFence,
        Step::ReadBack,
    ];
    let mut state = RunState::Uninitialized;
    for step in steps {
        state = advance(state, step).unwrap();
    }
    assert_eq!(state, RunState::Read);
}

#[test]
fn flow_refuses_out_of_order_steps() {
    assert_eq!(
        advance(RunState::Uninitialized, Step::Submit),
        Err(FlowError::OutOfOrder)
    );
    assert_eq!(
        advance(RunState::DeviceReady, Step::SelectDevice),
        Err(FlowError::OutOfOrder)
    );
    assert_eq!(
        advance(RunState::Submitted, Step::ReadBack),
        Err(FlowError::OutOfOrder)
    );
}

#[test]
fn flow_read_is_terminal() {
    let steps = [
        Step::SelectDevice,
        Step::AllocateResources,
        Step::BuildPipeline,
        Step::RecordCommands,
        Step::Submit,
        Step::AwaitFence,
        Step::ReadBack,
    ];
    for step in steps {
        assert_eq!(advance(RunState::Read, step), Err(FlowError::OutOfOrder));
    }
}
