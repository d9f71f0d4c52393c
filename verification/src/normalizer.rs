//! Sample normalization: raw hardware samples to the canonical range.
//!
//! The engine represents a normalized sample exactly, without machine
//! floating point:
//! - a sample that arrived from an integer format is a fixed-point value
//!   `num / 32768`, with `num` in `[-32768, 32767]` — so the represented
//!   value lies in [-1.0, 32767/32768];
//! - a sample that arrived as 32-bit float is already normalized by
//!   convention and is carried through unchanged as its 32 raw bits.
//!
//! The documented convention for unsigned 16-bit input is midpoint 32768:
//! the normalized value is `(s - 32768) / 32768`, mapping 0 to -1.0 and
//! 65535 to 32767/32768. Signed 16-bit input is divided by 32768, mapping
//! -32768 to -1.0 and 32767 to 32767/32768. Both divisions are by a power of
//! two of a 16-bit numerator, so the shell can realize them exactly in a
//! 32-bit float.

use vstd::prelude::*;

verus! {

/// The fixed-point denominator of normalized integer samples, and the
/// midpoint subtracted from unsigned 16-bit input.
pub const FIXED_POINT_SCALE: i32 = 32768;

/// One raw sample as the hardware callback delivers it, tagged with its
/// declared format. A 32-bit float sample is carried as its raw bits.
#[derive(Clone, Copy, Debug, PartialEq, Eq, Structural)]
pub enum RawSample {
    F32Bits(u32),
    I16(i16),
    U16(u16),
}

/// One normalized sample.
///
/// `Fixed(num)` stands for the value `num / 32768`; `Bits(b)` carries an
/// already-normalized 32-bit float sample through unchanged as its raw bits.
#[derive(Clone, Copy, Debug, PartialEq, Eq, Structural)]
pub enum Sample {
    Fixed(i32),
    Bits(u32),
}

impl Sample {
    /// A normalized sample is well formed when its fixed-point numerator
    /// stays within one unit of full scale: the value it stands for lies in
    /// [-1.0, 32767/32768].
    pub open spec fn wf(self) -> bool {
        match self {
            Sample::Fixed(num) => -32768 <= num <= 32767,
            Sample::Bits(_) => true,
        }
    }
}

/// What `normalize` returns for each raw sample.
pub open spec fn normalize_spec(raw: RawSample) -> Sample {
    match raw {
        RawSample::F32Bits(b) => Sample::Bits(b),
        RawSample::I16(s) => Sample::Fixed(s as i32),
        RawSample::U16(s) => Sample::Fixed(((s as int) - 32768) as i32),
    }
}

/// Convert one raw sample of a declared format into its normalized form.
///
/// Signed 16-bit input keeps its value as the fixed-point numerator; unsigned
/// 16-bit input has the midpoint 32768 subtracted; float input passes through
/// unchanged. No allocation, no side effects: safe to call from the
/// real-time hardware callback.
pub fn normalize(raw: RawSample) -> (s: Sample)
    ensures
        s == normalize_spec(raw),
        s.wf(),
{
    match raw {
        RawSample::F32Bits(b) => Sample::Bits(b),
        RawSample::I16(v) => Sample::Fixed(v as i32),
        RawSample::U16(v) => Sample::Fixed(v as i32 - FIXED_POINT_SCALE),
    }
}

} // verus!
