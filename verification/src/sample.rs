//! The telemetry sample: one node's instantaneous metrics, produced as one
//! immutable unit, and the stand-in producer that synthesizes samples from
//! fixed, documented ranges.

use vstd::prelude::*;

verus! {

/// Fixed cadence of the telemetry producer, in milliseconds: one sample is
/// synthesized and published per tick.
pub const SAMPLE_PERIOD_MS: u64 = 1000;

/// Bit pattern of 40.0f32: the lowest temperature the stand-in producer reports.
pub const TEMP_MIN_BITS: u32 = 0x4220_0000;

/// Bit pattern of 90.0f32: the (exclusive) upper temperature bound.
pub const TEMP_MAX_BITS: u32 = 0x42B4_0000;

/// Bit pattern of 0.0f32: the lowest usage fraction.
pub const USAGE_MIN_BITS: u32 = 0x0000_0000;

/// Bit pattern of 1.0f32: the (exclusive) upper usage bound.
pub const USAGE_MAX_BITS: u32 = 0x3F80_0000;

/// Lowest VRAM figure the stand-in producer reports, in bytes.
pub const VRAM_MIN_BYTES: u64 = 1_000_000_000;

/// (Exclusive) upper VRAM bound, in bytes.
pub const VRAM_MAX_BYTES: u64 = 24_000_000_000;

/// One node's instantaneous metrics. A sample is immutable once constructed:
/// a new sample always replaces, never mutates, the previous one, so a
/// consumer can never observe a torn sample.
///
/// `temperature_bits` and `usage_bits` carry `f32` values as bit patterns.
/// For non-negative finite floats the bit encoding is strictly monotone, so
/// the bounds in [`GpuStats::wf`] say exactly that the temperature lies in
/// [40.0, 90.0) degrees and the usage fraction in [0.0, 1.0).
pub struct GpuStats {
    /// Stable identity of the reporting node, fixed for the process lifetime.
    pub id: String,
    /// GPU temperature in degrees, as the bit pattern of an `f32`.
    pub temperature_bits: u32,
    /// GPU usage fraction, as the bit pattern of an `f32`.
    pub usage_bits: u32,
    /// VRAM in use, in bytes.
    pub vram_used: u64,
}

impl GpuStats {
    /// Every metric lies in the producer's documented range.
    pub open spec fn wf(self) -> bool {
        &&& TEMP_MIN_BITS <= self.temperature_bits < TEMP_MAX_BITS
        &&& USAGE_MIN_BITS <= self.usage_bits < USAGE_MAX_BITS
        &&& VRAM_MIN_BYTES <= self.vram_used < VRAM_MAX_BYTES
    }
}

impl Clone for GpuStats {
    fn clone(&self) -> (r: Self)
        ensures
            r == *self,
    {
        GpuStats {
            id: self.id.clone(),
            temperature_bits: self.temperature_bits,
            usage_bits: self.usage_bits,
            vram_used: self.vram_used,
        }
    }
}

/// Relies on rand::random_range on `lo..hi`: returns a value in [lo, hi);
/// it panics on an empty range, which the precondition rules out.
#[verifier::external_body]
fn draw_u32(lo: u32, hi: u32) -> (r: u32)
    requires
        lo < hi,
    ensures
        lo <= r < hi,
{
    rand::random_range(lo..hi)
}

/// Relies on rand::random_range on `lo..hi`: returns a value in [lo, hi);
/// it panics on an empty range, which the precondition rules out.
#[verifier::external_body]
fn draw_u64(lo: u64, hi: u64) -> (r: u64)
    requires
        lo < hi,
    ensures
        lo <= r < hi,
{
    rand::random_range(lo..hi)
}

/// Synthesize one telemetry sample for this node, with every metric drawn
/// from its documented range. This is the sole place a real hardware query
/// would be substituted in; the rest of the design only relies on the
/// returned sample carrying this node's id and in-range metrics.
pub fn fresh_sample(node_id: &String) -> (s: GpuStats)
    ensures
        s.id == *node_id,
        s.wf(),
{
    GpuStats {
        id: node_id.clone(),
        temperature_bits: draw_u32(TEMP_MIN_BITS, TEMP_MAX_BITS),
        usage_bits: draw_u32(USAGE_MIN_BITS, USAGE_MAX_BITS),
        vram_used: draw_u64(VRAM_MIN_BYTES, VRAM_MAX_BYTES),
    }
}

} // verus!
