//! Single-shot GPU command submission, modelled and verified.
//!
//! Each run of one of the example flows drives an accelerator through a
//! strictly linear progression: select a device, allocate resources, build a
//! pipeline, record one command buffer, submit it, wait on the fence, and
//! read the result back.  This crate holds the decisions and the data-level
//! logic of those flows: the device-selection policy, the step ordering, the
//! host-side model of the compute shaders, and the pixel-buffer handling for
//! the image-producing flows.  The accelerator itself, and the file output,
//! stay outside and are driven by a thin unverified shell.

pub mod compute;
pub mod device;
pub mod flow;
pub mod imaging;
