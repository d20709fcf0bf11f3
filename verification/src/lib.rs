//! Trigger-synchronized frame capture: a continuously running sensor stream
//! is buffered in a bounded pre-trigger ring; when an external trigger event
//! arrives, the ring's contents become the "before" half of a fixed-length
//! window, the following frames fill the "after" half, and the completed
//! window is handed to a persistence worker together with per-frame metadata.

pub mod buffer;
pub mod capture;
pub mod classifier;
pub mod frame;
mod json;
pub mod laws;
pub mod persist;
pub mod tracker;

use vstd::prelude::*;

verus! {

/// `n` rounded up to the next multiple of 32, the alignment step the sensor
/// interface requires of region offsets.
pub open spec fn round_up_to_align(n: nat) -> nat {
    ((n + 31) / 32) * 32
}

/// Offsets that center a capture region of `width x height` inside the
/// sensor's maximum resolution, each rounded up to the alignment step.
pub fn get_offset_for_resolution(
    max_resolution: (u32, u32),
    width: u32,
    height: u32,
) -> (r: Result<(u32, u32), i32>)
    requires
        width <= max_resolution.0,
        height <= max_resolution.1,
    ensures
        r is Ok,
        r matches Ok(offsets) ==> {
            &&& offsets.0 == round_up_to_align(((max_resolution.0 - width) / 2) as nat)
            &&& offsets.1 == round_up_to_align(((max_resolution.1 - height) / 2) as nat)
        },
{
    let offset_x: u32 = (max_resolution.0 - width) / 2;
    let offset_y: u32 = (max_resolution.1 - height) / 2;
    let aligned_x: u32 = ((offset_x + 31) / 32) * 32;
    let aligned_y: u32 = ((offset_y + 31) / 32) * 32;
    Ok((aligned_x, aligned_y))
}

} // verus!
