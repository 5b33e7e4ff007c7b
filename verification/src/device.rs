//! Device selection.
//!
//! The examples all open the platform the same way: enumerate the physical
//! accelerators, take the first one, and take its first queue family that
//! supports the required class of operation.  The enumeration itself is an
//! outside action; the shell hands its findings over as plain values, and
//! `init` makes the selection and says exactly when it fails.

use vstd::prelude::*;

use crate::flow::{advance_spec, FlowError, RunState, Step};

verus! {

/// One queue family of an accelerator, as the enumeration reports it.
#[derive(Clone, Copy, Debug, PartialEq, Eq, Structural)]
pub struct QueueFamily {
    pub queues_count: u32,
    pub supports_graphics: bool,
    pub supports_compute: bool,
}

/// One physical accelerator: the queue families it exposes, in enumeration
/// order.
pub struct Accelerator {
    pub queue_families: Vec<QueueFamily>,
}

/// The class of operation a run needs its queue to support.
#[derive(Clone, Copy, Debug, PartialEq, Eq, Structural)]
pub enum Capability {
    Graphics,
    Compute,
}

/// The selection a successful initialization makes: which accelerator and
/// which of its queue families the logical device is to be built on.
#[derive(Clone, Copy, Debug, PartialEq, Eq, Structural)]
pub struct DeviceSelection {
    pub accelerator_index: usize,
    pub queue_family_index: usize,
}

/// Why initialization failed.
#[derive(Clone, Copy, Debug, PartialEq, Eq, Structural)]
pub enum InitError {
    /// The enumeration found no accelerator at all.
    NoAccelerator,
    /// The first accelerator has no queue family with the required
    /// capability.
    NoQueueFamily,
}

/// Whether one queue family supports the required capability.
pub open spec fn supports(family: QueueFamily, cap: Capability) -> bool {
    match cap {
        Capability::Graphics => family.supports_graphics,
        Capability::Compute => family.supports_compute,
    }
}

/// The index of the first queue family supporting `cap`, if any.
pub open spec fn first_supporting(families: Seq<QueueFamily>, cap: Capability) -> Option<int>
    decreases families.len(),
{
    if families.len() == 0 {
        None
    } else if supports(families[0], cap) {
        Some(0)
    } else {
        match first_supporting(families.skip(1), cap) {
            Some(j) => Some(j + 1),
            None => None,
        }
    }
}

/// What initialization decides: the first accelerator, and its first queue
/// family with the required capability; failure exactly when there is no
/// accelerator, or none of the first accelerator's families qualifies.
pub open spec fn init_spec(accelerators: Seq<Accelerator>, cap: Capability) -> Result<
    DeviceSelection,
    InitError,
> {
    if accelerators.len() == 0 {
        Err(InitError::NoAccelerator)
    } else {
        match first_supporting(accelerators[0].queue_families@, cap) {
            Some(j) => Ok(
                DeviceSelection { accelerator_index: 0, queue_family_index: j as usize },
            ),
            None => Err(InitError::NoQueueFamily),
        }
    }
}

/// A family at `i` preceded only by non-supporting ones is the first
/// supporting one.
proof fn lemma_first_supporting_at(families: Seq<QueueFamily>, cap: Capability, i: int)
    requires
        0 <= i < families.len(),
        supports(families[i], cap),
        forall|k: int| 0 <= k < i ==> !supports(families[k], cap),
    ensures
        first_supporting(families, cap) == Some(i),
    decreases i,
{
    if i > 0 {
        assert(families.skip(1)[i - 1] == families[i]);
        assert(forall|k: int|
            0 <= k < i - 1 ==> families.skip(1)[k] == families[k + 1]
                && !supports(families[k + 1], cap));
        lemma_first_supporting_at(families.skip(1), cap, i - 1);
    }
}

/// With no supporting family at all, there is no first supporting one.
proof fn lemma_first_supporting_none(families: Seq<QueueFamily>, cap: Capability)
    requires
        forall|k: int| 0 <= k < families.len() ==> !supports(families[k], cap),
    ensures
        first_supporting(families, cap) is None,
    decreases families.len(),
{
    if families.len() > 0 {
        assert(forall|k: int|
            0 <= k < families.skip(1).len() ==> families.skip(1)[k] == families[k + 1]
                && !supports(families[k + 1], cap));
        lemma_first_supporting_none(families.skip(1), cap);
    }
}

/// Whether `family` supports `cap`.
pub fn family_supports(family: &QueueFamily, cap: Capability) -> (r: bool)
    ensures
        r == supports(*family, cap),
{
    match cap {
        Capability::Graphics => family.supports_graphics,
        Capability::Compute => family.supports_compute,
    }
}

/// Select the accelerator and queue family to build the logical device on:
/// the first accelerator enumerated, and its first queue family supporting
/// `cap`.  Fails with `NoAccelerator` exactly when the enumeration is empty,
/// and with `NoQueueFamily` exactly when the first accelerator has no
/// qualifying family.
pub fn init(accelerators: &Vec<Accelerator>, cap: Capability) -> (r: Result<
    DeviceSelection,
    InitError,
>)
    ensures
        r == init_spec(accelerators@, cap),
{
    if accelerators.len() == 0 {
        return Err(InitError::NoAccelerator);
    }
    let families = &accelerators[0].queue_families;
    let n = families.len();
    let mut j: usize = 0;
    while j < n
        invariant
            accelerators@.len() > 0,
            families@ == accelerators@[0].queue_families@,
            n == families@.len(),
            0 <= j <= n,
            forall|k: int| 0 <= k < j ==> !supports(families@[k], cap),
        decreases n - j,
    {
        if family_supports(&families[j], cap) {
            proof {
                lemma_first_supporting_at(families@, cap, j as int);
            }
            return Ok(DeviceSelection { accelerator_index: 0, queue_family_index: j });
        }
        j = j + 1;
    }
    proof {
        lemma_first_supporting_none(families@, cap);
    }
    Err(InitError::NoQueueFamily)
}

/// With zero accelerators enumerated, initialization fails with
/// `NoAccelerator`; and since a failed initialization leaves the flow in its
/// initial state, the allocation step is refused there: no allocation is
/// attempted on an absent device.
pub proof fn lemma_no_accelerator_blocks_allocation(
    accelerators: Seq<Accelerator>,
    cap: Capability,
)
    requires
        accelerators.len() == 0,
    ensures
        init_spec(accelerators, cap) == Err::<DeviceSelection, InitError>(
            InitError::NoAccelerator,
        ),
        advance_spec(RunState::Uninitialized, Step::AllocateResources) == Err::<
            RunState,
            FlowError,
        >(FlowError::OutOfOrder),
{
}

} // verus!
