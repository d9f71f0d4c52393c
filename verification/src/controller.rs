//! The capture controller: the start/stop state machine.
//!
//! The controller owns a [`CaptureState`] pair of flags under one lock in the
//! shell. `start` rejects with `AlreadyRunning` while a session is active, so
//! at most one background capture thread ever exists; `stop` only requests a
//! stop and returns at once — the background delivery loop observes the
//! request, tears the session down, and calls [`CaptureState::finish_session`]
//! to return to idle asynchronously. `status` reports the running flag from
//! any state.

use vstd::prelude::*;

use crate::CaptureError;
use crate::devices::AudioDevice;
use crate::devices::device_choice;
use crate::devices::select_device;
use crate::devices::selector_view;
use crate::session::StreamConfig;
use crate::session::SupportedConfigRange;
use crate::session::config_outcome;
use crate::session::select_config;

verus! {

/// The controller's state: whether a capture session is active, and whether
/// a stop of it has been requested. Well-formedness: a stop can only be
/// pending while a session runs.
#[derive(Clone, Copy, Debug, PartialEq, Eq, Structural)]
pub struct CaptureState {
    pub is_running: bool,
    pub stop_requested: bool,
}

/// The state after a successful start: a session is running and no stop of
/// it is pending yet. A start on a running state changes nothing.
pub open spec fn start_next(s: CaptureState) -> CaptureState {
    if s.is_running {
        s
    } else {
        CaptureState { is_running: true, stop_requested: false }
    }
}

/// What a start returns: `AlreadyRunning` exactly when a session is active.
pub open spec fn start_result(s: CaptureState) -> Result<(), CaptureError> {
    if s.is_running {
        Err(CaptureError::AlreadyRunning)
    } else {
        Ok(())
    }
}

/// The state after a stop request: the running session keeps running with a
/// stop pending. A stop on an idle state changes nothing.
pub open spec fn stop_next(s: CaptureState) -> CaptureState {
    if s.is_running {
        CaptureState { is_running: true, stop_requested: true }
    } else {
        s
    }
}

/// What a stop returns: `NotRunning` exactly when no session is active.
pub open spec fn stop_result(s: CaptureState) -> Result<(), CaptureError> {
    if s.is_running {
        Ok(())
    } else {
        Err(CaptureError::NotRunning)
    }
}

/// The state after the delivery loop exits: both flags reset atomically.
pub open spec fn teardown_next(s: CaptureState) -> CaptureState {
    CaptureState { is_running: false, stop_requested: false }
}

/// What a whole session start decides, given everything the host exposes:
/// the chosen device index and the negotiated configuration, or the first
/// setup error — device selection first, then configuration negotiation on
/// the chosen device's enumeration.
pub open spec fn session_plan(
    devices: Seq<AudioDevice>,
    selector: Option<Seq<char>>,
    default_index: Option<usize>,
    configs_per_device: Seq<Vec<SupportedConfigRange>>,
) -> Result<(usize, StreamConfig), CaptureError> {
    match device_choice(devices, selector, default_index) {
        Ok(d) => match config_outcome(configs_per_device[d as int]@) {
            Ok(cfg) => Ok((d, cfg)),
            Err(e) => Err(e),
        },
        Err(e) => Err(e),
    }
}

impl CaptureState {
    /// A stop may only be pending while a session runs.
    pub open spec fn wf(self) -> bool {
        self.stop_requested ==> self.is_running
    }

    /// No session is active and none is being stopped.
    pub open spec fn is_idle(self) -> bool {
        !self.is_running && !self.stop_requested
    }

    /// A fresh controller is idle.
    pub fn new() -> (s: CaptureState)
        ensures
            s.is_idle(),
            s.wf(),
    {
        CaptureState { is_running: false, stop_requested: false }
    }

    /// The current snapshot of whether a capture session is active; callable
    /// from any state, never blocks.
    pub fn status(&self) -> (r: bool)
        ensures
            r == self.is_running,
    {
        self.is_running
    }

    /// Start a capture session: reject with `AlreadyRunning` while one is
    /// active; otherwise pick the device for the selector, negotiate its
    /// configuration, and only on full success move to running. Any setup
    /// failure leaves the state exactly as it was — no session, no orphaned
    /// thread.
    pub fn start(
        &mut self,
        devices: &Vec<AudioDevice>,
        selector: &Option<String>,
        default_index: Option<usize>,
        configs_per_device: &Vec<Vec<SupportedConfigRange>>,
    ) -> (r: Result<(usize, StreamConfig), CaptureError>)
        requires
            old(self).wf(),
            configs_per_device@.len() == devices@.len(),
            default_index matches Some(d) ==> d < devices@.len(),
        ensures
            final(self).wf(),
            old(self).is_running ==> r == Err::<(usize, StreamConfig), CaptureError>(
                CaptureError::AlreadyRunning,
            ) && *final(self) == *old(self),
            !old(self).is_running ==> r == session_plan(
                devices@,
                selector_view(*selector),
                default_index,
                configs_per_device@,
            ),
            r is Ok ==> *final(self) == start_next(*old(self)),
            r is Err ==> *final(self) == *old(self),
    {
        if self.is_running {
            return Err(CaptureError::AlreadyRunning);
        }
        let d = match select_device(devices, selector, default_index) {
            Ok(d) => d,
            Err(e) => {
                return Err(e);
            },
        };
        proof {
            if let Some(sel) = selector {
                crate::devices::lemma_first_matching_index(devices@, sel@);
            }
        }
        let cfg = match select_config(&configs_per_device[d]) {
            Ok(cfg) => cfg,
            Err(e) => {
                return Err(e);
            },
        };
        self.is_running = true;
        self.stop_requested = false;
        Ok((d, cfg))
    }

    /// Request that the running session stop: reject with `NotRunning` while
    /// idle; otherwise set the stop flag and return immediately, without
    /// blocking on the delivery loop. Teardown happens asynchronously and is
    /// observed later through `status`.
    pub fn stop(&mut self) -> (r: Result<(), CaptureError>)
        requires
            old(self).wf(),
        ensures
            *final(self) == stop_next(*old(self)),
            r == stop_result(*old(self)),
            !old(self).is_running ==> r == Err::<(), CaptureError>(CaptureError::NotRunning)
                && *final(self) == *old(self),
            final(self).wf(),
    {
        if !self.is_running {
            return Err(CaptureError::NotRunning);
        }
        self.stop_requested = true;
        Ok(())
    }

    /// Reset to idle when the delivery loop exits — after it observed the
    /// stop request and closed the device session, or after a setup failure
    /// past the running transition. Both flags fall together, atomically
    /// under the shell's lock.
    pub fn finish_session(&mut self)
        ensures
            *final(self) == teardown_next(*old(self)),
            final(self).is_idle(),
            final(self).wf(),
    {
        self.is_running = false;
        self.stop_requested = false;
    }
}

/// A second start without an intervening completed teardown is rejected with
/// `AlreadyRunning` and leaves the state untouched — even when a stop was
/// already requested but the delivery loop has not yet exited. At most one
/// capture session is ever active.
pub proof fn lemma_second_start_rejected(s: CaptureState)
    requires
        start_result(s) is Ok,
    ensures
        start_result(start_next(s)) == Err::<(), CaptureError>(CaptureError::AlreadyRunning),
        start_next(start_next(s)) == start_next(s),
        start_result(stop_next(start_next(s))) == Err::<(), CaptureError>(
            CaptureError::AlreadyRunning,
        ),
{
}

} // verus!
