use vstd::prelude::*;

use std::time::Duration;

verus! {

/// The `Duration` that `Duration::new` builds from whole seconds and
/// additional nanoseconds.
pub uninterp spec fn duration_from_parts(secs: u64, nanos: u32) -> Duration;

/// Calls `std::time::Duration::new`, which builds a span of `secs`
/// seconds and `nanos` nanoseconds. Its result is trusted to be the
/// value that `duration_from_parts` names for these arguments; `nanos`
/// stays below one second, so no carry into the seconds can overflow.
#[verifier::external_body]
fn new_duration(secs: u64, nanos: u32) -> (duration: Duration)
    requires
        nanos < 1_000_000_000,
    ensures
        duration == duration_from_parts(secs, nanos),
{
    Duration::new(secs, nanos)
}

/// The time that `num_frames` frames take at `sample_rate` frames per
/// second, in nanoseconds, rounded to the nearest nanosecond (halves up).
pub open spec fn frames_nanos(num_frames: nat, sample_rate: nat) -> nat {
    ((num_frames * 2_000_000_000 + sample_rate) / (2 * sample_rate)) as nat
}

/// The time that `num_frames` frames take at `sample_rate` frames per
/// second, rounded to the nearest nanosecond (halves up).
pub open spec fn frames_duration(num_frames: nat, sample_rate: nat) -> Duration {
    duration_from_parts(
        (frames_nanos(num_frames, sample_rate) / 1_000_000_000) as u64,
        (frames_nanos(num_frames, sample_rate) % 1_000_000_000) as u32,
    )
}

/// Returns how long `num_frames` frames last at `sample_rate` frames per
/// second, rounded to the nearest nanosecond (halves up).
pub fn duration_of_frames(num_frames: usize, sample_rate: u32) -> (duration: Duration)
    requires
        sample_rate > 0,
    ensures
        duration == frames_duration(num_frames as nat, sample_rate as nat),
{
    let frames = num_frames as u64;
    let rate = sample_rate as u64;
    let secs = frames / rate;
    let remainder = frames % rate;
    assert(remainder * 2_000_000_000 + rate <= u64::MAX) by (nonlinear_arith)
        requires
            remainder < rate,
            rate <= u32::MAX,
    ;
    let scaled = remainder * 2_000_000_000 + rate;
    let nanos = scaled / (2 * rate);
    proof {
        let n = num_frames as int;
        let r = rate as int;
        assert(n == r * secs + remainder) by {
            vstd::arithmetic::div_mod::lemma_fundamental_div_mod(n, r);
        }
        assert(n * 2_000_000_000 + r == scaled + (secs * 1_000_000_000) * (2 * r))
            by (nonlinear_arith)
            requires
                n == r * secs + remainder,
                scaled == remainder * 2_000_000_000 + r,
        ;
        vstd::arithmetic::div_mod::lemma_hoist_over_denominator(
            scaled as int,
            secs * 1_000_000_000,
            (2 * r) as nat,
        );
        assert(nanos <= 1_000_000_000) by (nonlinear_arith)
            requires
                remainder < r,
                scaled == remainder * 2_000_000_000 + r,
                nanos == (scaled as int) / (2 * r),
                r > 0,
        ;
        assert(frames_nanos(num_frames as nat, sample_rate as nat) == secs * 1_000_000_000
            + nanos);
    }
    if nanos == 1_000_000_000 {
        proof {
            let total = frames_nanos(num_frames as nat, sample_rate as nat) as int;
            vstd::arithmetic::div_mod::lemma_fundamental_div_mod_converse(
                total,
                1_000_000_000,
                secs + 1,
                0,
            );
        }
        assert(remainder > 0) by (nonlinear_arith)
            requires
                scaled == remainder * 2_000_000_000 + rate,
                nanos == (scaled as int) / (2 * rate),
                nanos == 1_000_000_000,
                rate > 0,
        ;
        assert(secs * 2 <= frames) by (nonlinear_arith)
            requires
                secs == frames / rate,
                rate >= 2,
        ;
        new_duration(secs + 1, 0)
    } else {
        proof {
            let total = frames_nanos(num_frames as nat, sample_rate as nat) as int;
            vstd::arithmetic::div_mod::lemma_fundamental_div_mod_converse(
                total,
                1_000_000_000,
                secs as int,
                nanos as int,
            );
        }
        new_duration(secs, nanos as u32)
    }
}

} // verus!
