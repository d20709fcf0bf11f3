//! The data carried through the capture pipeline: frames as the sensor hands
//! them out, the trigger record that tags a capture, and the completed window
//! that is handed to the persistence worker.

use vstd::prelude::*;

verus! {

/// One sensor frame, immutable once created: an opaque pixel payload plus the
/// counters and timing the sensor stamped on it. `nframe` and `acq_nframe`
/// are monotone sequence numbers assigned by the source; `timestamp_raw` is a
/// hardware timestamp in source-defined units.
#[derive(Clone)]
pub struct ImageData {
    pub data: Vec<u8>,
    pub width: u32,
    pub height: u32,
    pub nframe: u32,
    pub acq_nframe: u32,
    pub timestamp_raw: u64,
    pub exposure_time: u32,
}

impl Default for ImageData {
    /// An empty frame: no pixels, all counters zero.
    fn default() -> (r: Self)
        ensures
            r.data@.len() == 0,
            r.width == 0 && r.height == 0,
            r.nframe == 0 && r.acq_nframe == 0,
            r.timestamp_raw == 0 && r.exposure_time == 0,
    {
        ImageData {
            data: Vec::new(),
            width: 0,
            height: 0,
            nframe: 0,
            acq_nframe: 0,
            timestamp_raw: 0,
            exposure_time: 0,
        }
    }
}

/// The trigger record: the fields of the upstream estimator's message that
/// the pipeline itself reads. The full message also carries a timestamp and
/// position/velocity/covariance estimates; those are floating-point values
/// that only tag the capture for a human reader, and the pipeline never
/// branches on them, so they are not modelled here.
#[derive(Clone, Copy, Debug, PartialEq, Eq, Structural)]
pub struct KalmanEstimateRow {
    pub obj_id: u32,
    pub frame: u64,
}

impl Default for KalmanEstimateRow {
    /// The tag of a window that no trigger caused: both identifiers zero.
    fn default() -> (r: Self)
        ensures
            r.obj_id == 0 && r.frame == 0,
    {
        KalmanEstimateRow { obj_id: 0, frame: 0 }
    }
}

/// A completed capture: the pre-trigger frames followed by the post-trigger
/// frames, in arrival order, tagged with the trigger that caused it (or the
/// default tag for the final shutdown flush).
pub struct Window {
    pub frames: Vec<ImageData>,
    pub tag: KalmanEstimateRow,
}

/// What travels over the handoff queue to the persistence worker: either a
/// completed window or the terminal sentinel.
pub enum Packet {
    Images(Window),
    Kill,
}

} // verus!
