//! The delivery loop's per-tick decision.
//!
//! The background thread wakes on a fixed interval, drains the capture
//! buffer under the lock, and asks [`plan_tick`] what to do: exit because a
//! stop was requested, emit the drained samples to the sink as one batch
//! tagged with the session's channel count and sample rate, or sleep until
//! the next tick because nothing was buffered. A failed emission is logged
//! by the shell and does not end the session; on exit the shell closes the
//! device session and resets the controller to idle.

use vstd::prelude::*;

use crate::controller::CaptureState;
use crate::controller::stop_next;
use crate::controller::stop_result;
use crate::controller::teardown_next;
use crate::normalizer::Sample;

verus! {

/// One batch of interleaved normalized samples, tagged with the session's
/// channel count and sample rate. Produced by the delivery loop, consumed
/// exactly once by the sink, not retained afterwards.
pub struct AudioBatch {
    pub samples: Vec<Sample>,
    pub channel_count: u32,
    pub sample_rate: u32,
}

/// What one tick of the delivery loop does.
pub enum TickPlan {
    /// A stop was requested: exit the loop, close the session, reset to idle.
    Exit,
    /// Forward this batch to the sink, then sleep until the next tick.
    Emit(AudioBatch),
    /// Nothing was buffered: sleep until the next tick.
    Sleep,
}

/// Decide one tick of the delivery loop. The plan is `Exit` exactly when a
/// stop was requested; otherwise the drained samples, if any, become one
/// batch carrying all of them in order, tagged with the session's channel
/// count and sample rate; an empty drain means sleep — not an error and not
/// an empty emission.
pub fn plan_tick(
    stop_requested: bool,
    drained: Vec<Sample>,
    channel_count: u32,
    sample_rate: u32,
) -> (p: TickPlan)
    ensures
        p is Exit <==> stop_requested,
        p is Sleep <==> !stop_requested && drained@.len() == 0,
        !stop_requested && drained@.len() > 0 ==> (p matches TickPlan::Emit(b) && b.samples@
            == drained@ && b.channel_count == channel_count && b.sample_rate == sample_rate),
{
    if stop_requested {
        TickPlan::Exit
    } else if drained.len() == 0 {
        TickPlan::Sleep
    } else {
        TickPlan::Emit(AudioBatch { samples: drained, channel_count, sample_rate })
    }
}

/// A requested stop is observed and leads back to idle: after `stop`
/// succeeds on a well-formed state, the stop flag is set — so by
/// [`plan_tick`]'s contract the delivery loop's next tick exits — and once
/// the loop's exit resets the state, `status` reports false. The loop polls
/// the flag at least once per interval, so the shell observes the idle state
/// within a bounded number of intervals plus teardown time.
pub proof fn lemma_stop_leads_to_idle(s: CaptureState)
    requires
        s.wf(),
        stop_result(s) is Ok,
    ensures
        stop_next(s).stop_requested,
        teardown_next(stop_next(s)).is_idle(),
        !teardown_next(stop_next(s)).is_running,
{
}

} // verus!
