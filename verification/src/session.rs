//! Stream configuration negotiation for a device session.
//!
//! Among the configurations a device supports, the engine prefers the
//! floating-point sample format and otherwise takes the first enumerated
//! configuration, always at the configuration's maximum offered sample rate.
//! A device exposing zero configurations fails with `NoSupportedConfig`; a
//! chosen configuration whose sample format the engine cannot normalize
//! fails with `UnsupportedFormat` and aborts the session start — samples of
//! an unrecognized format are never silently dropped mid-stream.

use vstd::prelude::*;

use crate::CaptureError;

verus! {

/// A sample format as the host reports it. `Other` stands for any format
/// the engine does not normalize.
#[derive(Clone, Copy, Debug, PartialEq, Eq, Structural)]
pub enum HostSampleFormat {
    F32,
    I16,
    U16,
    Other,
}

/// A sample format the engine handles.
#[derive(Clone, Copy, Debug, PartialEq, Eq, Structural)]
pub enum SampleFormat {
    F32,
    I16,
    U16,
}

/// One supported configuration range a device enumerates: a channel count,
/// a span of sample rates, and a sample format.
#[derive(Clone, Copy, Debug, PartialEq, Eq, Structural)]
pub struct SupportedConfigRange {
    pub channels: u16,
    pub min_sample_rate: u32,
    pub max_sample_rate: u32,
    pub format: HostSampleFormat,
}

/// The configuration negotiated for a session, immutable for the session's
/// lifetime.
#[derive(Clone, Copy, Debug, PartialEq, Eq, Structural)]
pub struct StreamConfig {
    pub channel_count: u32,
    pub sample_rate: u32,
    pub sample_format: SampleFormat,
}

/// The position of the first configuration with floating-point format, or -1
/// when none has it.
pub open spec fn first_f32_index(configs: Seq<SupportedConfigRange>) -> int
    decreases configs.len(),
{
    if configs.len() == 0 {
        -1
    } else if configs[0].format is F32 {
        0
    } else {
        let rest = first_f32_index(configs.drop_first());
        if rest == -1 {
            -1
        } else {
            rest + 1
        }
    }
}

/// `first_f32_index` names the first floating-point configuration: when it
/// is -1 none is floating-point, and otherwise it points at one before which
/// none is.
pub proof fn lemma_first_f32_index(configs: Seq<SupportedConfigRange>)
    ensures
        first_f32_index(configs) == -1 ==> forall|j: int|
            0 <= j < configs.len() ==> !((#[trigger] configs[j].format) is F32),
        first_f32_index(configs) != -1 ==> {
            let m = first_f32_index(configs);
            &&& 0 <= m < configs.len()
            &&& configs[m].format is F32
            &&& forall|j: int| 0 <= j < m ==> !((#[trigger] configs[j].format) is F32)
        },
    decreases configs.len(),
{
    if configs.len() == 0 {
    } else if configs[0].format is F32 {
    } else {
        let rest = configs.drop_first();
        lemma_first_f32_index(rest);
        let mr = first_f32_index(rest);
        if mr == -1 {
            assert forall|j: int| 0 <= j < configs.len() implies !((#[trigger] configs[j].format)
                is F32) by {
                if j > 0 {
                    assert(configs[j] == rest[j - 1]);
                }
            }
        } else {
            assert(configs[mr + 1] == rest[mr]);
            assert forall|j: int| 0 <= j < mr + 1 implies !((#[trigger] configs[j].format)
                is F32) by {
                if j > 0 {
                    assert(configs[j] == rest[j - 1]);
                }
            }
        }
    }
}

/// The configuration range that negotiation picks from a non-empty
/// enumeration: the first floating-point one, else the first.
pub open spec fn preferred_config(configs: Seq<SupportedConfigRange>) -> SupportedConfigRange
    recommends
        configs.len() > 0,
{
    if first_f32_index(configs) >= 0 {
        configs[first_f32_index(configs)]
    } else {
        configs[0]
    }
}

/// The session configuration a supported range negotiates to: its channel
/// count, its maximum offered sample rate, and its format — or
/// `UnsupportedFormat` when the engine cannot normalize that format.
pub open spec fn negotiated(c: SupportedConfigRange) -> Result<StreamConfig, CaptureError> {
    match c.format {
        HostSampleFormat::F32 => Ok(
            StreamConfig {
                channel_count: c.channels as u32,
                sample_rate: c.max_sample_rate,
                sample_format: SampleFormat::F32,
            },
        ),
        HostSampleFormat::I16 => Ok(
            StreamConfig {
                channel_count: c.channels as u32,
                sample_rate: c.max_sample_rate,
                sample_format: SampleFormat::I16,
            },
        ),
        HostSampleFormat::U16 => Ok(
            StreamConfig {
                channel_count: c.channels as u32,
                sample_rate: c.max_sample_rate,
                sample_format: SampleFormat::U16,
            },
        ),
        HostSampleFormat::Other => Err(CaptureError::UnsupportedFormat),
    }
}

/// What configuration selection returns for a device's whole enumeration.
pub open spec fn config_outcome(configs: Seq<SupportedConfigRange>) -> Result<
    StreamConfig,
    CaptureError,
> {
    if configs.len() == 0 {
        Err(CaptureError::NoSupportedConfig)
    } else {
        negotiated(preferred_config(configs))
    }
}

/// Negotiate the session configuration from the configurations the device
/// supports: prefer the floating-point format, otherwise take the first
/// enumerated configuration, at its maximum offered sample rate.
/// `NoSupportedConfig` exactly when the device exposes zero configurations;
/// `UnsupportedFormat` exactly when the preferred configuration's format
/// cannot be normalized.
pub fn select_config(configs: &Vec<SupportedConfigRange>) -> (r: Result<
    StreamConfig,
    CaptureError,
>)
    ensures
        r == config_outcome(configs@),
{
    if configs.len() == 0 {
        return Err(CaptureError::NoSupportedConfig);
    }
    let mut i: usize = 0;
    while i < configs.len()
        invariant
            i <= configs@.len(),
            forall|j: int| 0 <= j < i ==> !((#[trigger] configs@[j].format) is F32),
        decreases configs@.len() - i,
    {
        let c = configs[i];
        if let HostSampleFormat::F32 = c.format {
            proof {
                lemma_first_f32_index(configs@);
            }
            return Ok(
                StreamConfig {
                    channel_count: c.channels as u32,
                    sample_rate: c.max_sample_rate,
                    sample_format: SampleFormat::F32,
                },
            );
        }
        i += 1;
    }
    proof {
        lemma_first_f32_index(configs@);
    }
    let c = configs[0];
    match c.format {
        HostSampleFormat::F32 => Ok(
            StreamConfig {
                channel_count: c.channels as u32,
                sample_rate: c.max_sample_rate,
                sample_format: SampleFormat::F32,
            },
        ),
        HostSampleFormat::I16 => Ok(
            StreamConfig {
                channel_count: c.channels as u32,
                sample_rate: c.max_sample_rate,
                sample_format: SampleFormat::I16,
            },
        ),
        HostSampleFormat::U16 => Ok(
            StreamConfig {
                channel_count: c.channels as u32,
                sample_rate: c.max_sample_rate,
                sample_format: SampleFormat::U16,
            },
        ),
        HostSampleFormat::Other => Err(CaptureError::UnsupportedFormat),
    }
}

} // verus!
