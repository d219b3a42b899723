use vstd::prelude::*;

use crate::geometry::Detection;
use crate::marker_detection::{apply_frame, encode, MarkerDetector};

verus! {

/// What capturing and detecting one frame came to.
pub enum FrameOutcome {
    /// The frame was read and the detector returned these detections.
    Detected(Vec<Detection>),
    /// Reading the frame or running the detector failed.
    Failed,
}

/// What the loop does after a frame.
pub enum CycleAction {
    /// Send this message over the transport, then capture the next frame.
    Send(String),
    /// Stop: a fatal error ended the loop.
    Stop,
}

/// One cycle of the capture/send loop. Detections update the table and yield
/// the encoded table to send; a failed capture stops the loop with the table
/// untouched and nothing encoded or sent.
pub fn next_action(tracker: &mut MarkerDetector, outcome: FrameOutcome) -> (r: CycleAction)
    ensures
        match outcome {
            FrameOutcome::Detected(ds) => {
                &&& final(tracker)@ == apply_frame(old(tracker)@, ds@)
                &&& r matches CycleAction::Send(msg) && msg@ == encode(final(tracker)@)
            },
            FrameOutcome::Failed => {
                &&& final(tracker)@ == old(tracker)@
                &&& r is Stop
            },
        },
{
    match outcome {
        FrameOutcome::Detected(ds) => {
            tracker.observation_loop(&ds);
            CycleAction::Send(tracker.print_markers())
        },
        FrameOutcome::Failed => CycleAction::Stop,
    }
}

} // verus!
