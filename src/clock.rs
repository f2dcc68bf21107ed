use vstd::prelude::*;

verus! {

/// Declares `std::time::Instant`, carried through opaque.
#[verifier::external_type_specification]
#[verifier::external_body]
pub struct ExInstant(std::time::Instant);

/// Relies on `Instant::elapsed`: the time since the instant, which depends on
/// the clock, so nothing is promised of it.
pub assume_specification[ std::time::Instant::elapsed ](i: &std::time::Instant) -> std::time::Duration;

/// Relies on `Duration::as_secs`: the whole seconds of the duration.
pub assume_specification[ core::time::Duration::as_secs ](d: &core::time::Duration) -> u64;

/// Relies on `Duration::subsec_nanos`: the fractional part in nanoseconds,
/// which the documentation says is always below one billion.
pub assume_specification[ core::time::Duration::subsec_nanos ](d: &core::time::Duration) -> (r: u32)
    ensures
        r < 1_000_000_000,
;

pub const NANOS_PER_SEC: u64 = 1_000_000_000;

/// The fraction of a second `nanos / 10^9`, scaled to the range of a `u32`
/// (`2^32` steps per second), rounded to the nearest step.
pub open spec fn scaled_fraction(nanos: nat) -> nat {
    (nanos * 0x1_0000_0000 + 500_000_000) / 1_000_000_000
}

/// A duration as two words, `[whole seconds, scaled fraction]`; `None` when the
/// seconds do not fit in a `u32`.
pub fn duration_as_vec(secs: u64, subsec_nanos: u32) -> (r: Option<[u32; 2]>)
    requires
        subsec_nanos < 1_000_000_000,
    ensures
        r is Some <==> secs <= u32::MAX,
        r matches Some(a) ==> a[0] == secs && a[1] == scaled_fraction(subsec_nanos as nat),
{
    if secs > u32::MAX as u64 {
        return None;
    }
    let nanos = subsec_nanos as u64;
    assert(nanos * 0x1_0000_0000 + 500_000_000 < 0x1_0000_0000 * 1_000_000_000) by (nonlinear_arith)
        requires
            nanos < 1_000_000_000,
    ;
    let shifted = nanos << 32u64;
    assert(shifted == nanos * 0x1_0000_0000) by (bit_vector)
        requires
            nanos < 1_000_000_000,
            shifted == nanos << 32u64,
    ;
    let scaled = (shifted + 500_000_000) / NANOS_PER_SEC;
    assert(scaled < 0x1_0000_0000) by (nonlinear_arith)
        requires
            scaled == (nanos * 0x1_0000_0000 + 500_000_000) / 1_000_000_000,
            nanos * 0x1_0000_0000 + 500_000_000 < 0x1_0000_0000 * 1_000_000_000,
    ;
    Some([secs as u32, scaled as u32])
}

/// The time elapsed since `start_time` as `[whole seconds, scaled fraction]`,
/// or `None` once more than `u32::MAX` seconds have passed.
pub fn elapsed_as_vec(start_time: std::time::Instant) -> (r: Option<[u32; 2]>) {
    let elapsed = start_time.elapsed();
    duration_as_vec(elapsed.as_secs(), elapsed.subsec_nanos())
}

} // verus!
