//! Real-time audio capture engine.
//!
//! The engine opens a host input device, normalizes raw hardware samples into
//! a canonical fixed-point representation of the range [-1.0, 1.0], buffers
//! them between the hardware callback and a periodic delivery loop, and hands
//! batches to an external sink while a start/stop state machine guarantees at
//! most one active capture session.
//!
//! Everything the engine decides — sample normalization, the buffering
//! discipline, device and configuration selection, the session state machine
//! and the delivery loop's per-tick plan — lives here and is verified. The
//! host-facing shell (the platform audio backend, threads, timers, the sink
//! transport) drives these functions from outside.

use vstd::prelude::*;
use vstd::string::StringExecFns;

pub mod buffer;
pub mod controller;
pub mod delivery;
pub mod devices;
pub mod normalizer;
pub mod session;

verus! {

/// A friendly greeting for the host application's smoke test.
pub fn greet(name: &str) -> (r: String)
    ensures
        r@ == "Hello, "@ + name@ + "! You've been greeted from Rust!"@,
{
    let mut r = String::from_str("Hello, ");
    r.append(name);
    r.append("! You've been greeted from Rust!");
    r
}

/// Everything that can go wrong in the capture engine.
///
/// Setup-phase errors (`NoDeviceFound`, `NoSupportedConfig`,
/// `UnsupportedFormat`, `StreamStartFailed`) abort a start synchronously and
/// leave the controller idle. `DeliveryFailed` is non-fatal to a running
/// session; `LockPoisoned` is fatal to it.
#[derive(Clone, Copy, Debug, PartialEq, Eq, Structural)]
pub enum CaptureError {
    AlreadyRunning,
    NotRunning,
    NoDeviceFound,
    NoSupportedConfig,
    UnsupportedFormat,
    StreamStartFailed,
    LockPoisoned,
    DeliveryFailed,
}

/// The human-readable description of each error, as the command surface
/// reports it.
pub open spec fn message_of(e: CaptureError) -> Seq<char> {
    match e {
        CaptureError::AlreadyRunning => "Audio capture is already running"@,
        CaptureError::NotRunning => "Audio capture is not running"@,
        CaptureError::NoDeviceFound => "No audio input device found"@,
        CaptureError::NoSupportedConfig => "No supported input configs found"@,
        CaptureError::UnsupportedFormat => "Unsupported sample format"@,
        CaptureError::StreamStartFailed => "Error starting stream"@,
        CaptureError::LockPoisoned => "Capture state lock poisoned"@,
        CaptureError::DeliveryFailed => "Error emitting audio data"@,
    }
}

impl CaptureError {
    /// A human-readable description of the error, for the command surface.
    pub fn message(&self) -> (r: &'static str)
        ensures
            r@ == message_of(*self),
    {
        match self {
            CaptureError::AlreadyRunning => "Audio capture is already running",
            CaptureError::NotRunning => "Audio capture is not running",
            CaptureError::NoDeviceFound => "No audio input device found",
            CaptureError::NoSupportedConfig => "No supported input configs found",
            CaptureError::UnsupportedFormat => "Unsupported sample format",
            CaptureError::StreamStartFailed => "Error starting stream",
            CaptureError::LockPoisoned => "Capture state lock poisoned",
            CaptureError::DeliveryFailed => "Error emitting audio data",
        }
    }
}

} // verus!
