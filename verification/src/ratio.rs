//! Exact rational values for the derived statistics. Durations, frame
//! rates and bitrates are quotients of the container's integer fields;
//! keeping numerator and denominator preserves fractional precision
//! exactly, and a consumer quantizes only at the presentation edge.

use vstd::prelude::*;
use crate::walk::TrackStats;

verus! {

/// A non-negative rational number, as numerator over denominator.
#[derive(Clone, Copy, Debug, PartialEq, Eq, Structural)]
pub struct Ratio {
    pub num: u128,
    pub den: u128,
}

/// The mathematical image of a `Ratio`.
pub ghost struct RatioView {
    pub num: int,
    pub den: int,
}

impl View for Ratio {
    type V = RatioView;

    open spec fn view(&self) -> RatioView {
        RatioView { num: self.num as int, den: self.den as int }
    }
}

/// The exact zero, the default that derived statistics fall back to.
pub open spec fn zero_ratio() -> RatioView {
    RatioView { num: 0, den: 1 }
}

/// Whether `r` is exactly the integer `k`.
pub open spec fn ratio_is_int(r: RatioView, k: int) -> bool {
    r.den != 0 && r.num == k * r.den
}

/// The presentation length in seconds: `duration / timescale`, kept exact.
/// A zero timescale cannot divide, so it falls back to zero.
pub open spec fn duration_ratio(duration: int, timescale: int) -> RatioView {
    if timescale == 0 {
        zero_ratio()
    } else {
        RatioView { num: duration, den: timescale }
    }
}

/// The frame rate in frames per second: `sample_count / duration_seconds`,
/// which is `sample_count * timescale / duration`. Without a classified
/// video track, or with a zero duration, it stays at zero instead of
/// failing.
pub open spec fn fps_ratio(video: Option<TrackStats>, duration: int, timescale: int) -> RatioView {
    match video {
        None => zero_ratio(),
        Some(t) => {
            if timescale == 0 || duration == 0 {
                zero_ratio()
            } else {
                RatioView { num: t.sample_count * timescale, den: duration }
            }
        },
    }
}

/// The bitrate in kilobits per second:
/// `(total_sample_bytes * 8 / duration_seconds) / 1000`, which is
/// `total_sample_bytes * 8 * timescale / (duration * 1000)`. Without a
/// classified video track, or with a zero duration, it stays at zero.
pub open spec fn bitrate_ratio(video: Option<TrackStats>, duration: int, timescale: int) -> RatioView {
    match video {
        None => zero_ratio(),
        Some(t) => {
            if timescale == 0 || duration == 0 {
                zero_ratio()
            } else {
                RatioView { num: t.total_sample_bytes * 8 * timescale, den: duration * 1000 }
            }
        },
    }
}

/// Builds the duration rational of a movie header's raw fields.
pub fn make_duration_ratio(duration: u64, timescale: u32) -> (r: Ratio)
    ensures
        r@ == duration_ratio(duration as int, timescale as int),
{
    if timescale == 0 {
        Ratio { num: 0, den: 1 }
    } else {
        Ratio { num: duration as u128, den: timescale as u128 }
    }
}

/// Builds the frame-rate rational of the classified video track.
pub fn make_fps_ratio(video: Option<TrackStats>, duration: u64, timescale: u32) -> (r: Ratio)
    ensures
        r@ == fps_ratio(video, duration as int, timescale as int),
{
    match video {
        None => Ratio { num: 0, den: 1 },
        Some(t) => {
            if timescale == 0 || duration == 0 {
                Ratio { num: 0, den: 1 }
            } else {
                proof {
                    assert(t.sample_count * timescale <= 0xFFFF_FFFF_FFFF_FFFFu64 * 0xFFFF_FFFFu32)
                        by (nonlinear_arith)
                        requires
                            t.sample_count <= 0xFFFF_FFFF_FFFF_FFFFu64,
                            timescale <= 0xFFFF_FFFFu32,
                            t.sample_count >= 0,
                            timescale >= 0,
                    ;
                }
                Ratio { num: (t.sample_count as u128) * (timescale as u128), den: duration as u128 }
            }
        },
    }
}

/// Builds the bitrate rational of the classified video track.
pub fn make_bitrate_ratio(video: Option<TrackStats>, duration: u64, timescale: u32) -> (r: Ratio)
    ensures
        r@ == bitrate_ratio(video, duration as int, timescale as int),
{
    match video {
        None => Ratio { num: 0, den: 1 },
        Some(t) => {
            if timescale == 0 || duration == 0 {
                Ratio { num: 0, den: 1 }
            } else {
                proof {
                    assert(t.total_sample_bytes * 8 * timescale <= 0xFFFF_FFFF_FFFF_FFFFu64 * 8
                        * 0xFFFF_FFFFu32) by (nonlinear_arith)
                        requires
                            t.total_sample_bytes <= 0xFFFF_FFFF_FFFF_FFFFu64,
                            timescale <= 0xFFFF_FFFFu32,
                            t.total_sample_bytes >= 0,
                            timescale >= 0,
                    ;
                }
                Ratio {
                    num: (t.total_sample_bytes as u128) * 8 * (timescale as u128),
                    den: (duration as u128) * 1000,
                }
            }
        },
    }
}

/// Whether this rational is exactly the integer `k`.
pub fn ratio_equals_int(r: &Ratio, k: u64) -> (b: bool)
    ensures
        b == ratio_is_int(r@, k as int),
{
    if r.den == 0 {
        return false;
    }
    let q = r.num / r.den;
    let m = r.num % r.den;
    proof {
        assert(r.num == r.den * (r.num as int / r.den as int) + r.num as int % r.den as int)
            by (nonlinear_arith)
            requires r.den > 0;
        assert(m == 0 && q == k ==> r.num == k * r.den) by (nonlinear_arith)
            requires
                r.num == r.den * q + m,
                r.den > 0,
        ;
        assert(r.num == k * r.den ==> m == 0 && q == k) by (nonlinear_arith)
            requires
                r.num == r.den * q + m,
                0 <= m < r.den,
                r.den > 0,
        ;
    }
    m == 0 && q == (k as u128)
}

/// Whether this rational is exactly zero.
pub fn ratio_is_zero(r: &Ratio) -> (b: bool)
    ensures
        b == ratio_is_int(r@, 0),
{
    ratio_equals_int(r, 0)
}

/// The duration rational is the exact quotient of the raw fields: with a
/// nonzero timescale it is precisely `duration` over `timescale`, and it
/// equals a whole number of seconds `k` exactly when `timescale` divides
/// `duration` with quotient `k` — exact divisions stay exact, and anything
/// else stays visibly fractional.
pub proof fn lemma_duration_ratio_exact(duration: int, timescale: int, k: int)
    requires
        timescale != 0,
    ensures
        duration_ratio(duration, timescale).num == duration,
        duration_ratio(duration, timescale).den == timescale,
        ratio_is_int(duration_ratio(duration, timescale), k) <==> duration == k * timescale,
{
}

/// Without a classified video track, and likewise whenever the duration in
/// seconds is zero, the frame rate and the bitrate are exactly zero rather
/// than an error.
pub proof fn lemma_zero_rates_without_video(video: Option<TrackStats>, duration: int, timescale: int)
    requires
        video is None || duration == 0 || timescale == 0,
    ensures
        fps_ratio(video, duration, timescale) == zero_ratio(),
        bitrate_ratio(video, duration, timescale) == zero_ratio(),
        ratio_is_int(fps_ratio(video, duration, timescale), 0),
        ratio_is_int(bitrate_ratio(video, duration, timescale), 0),
{
}

/// With a classified video track and a nonzero duration, the frame rate is
/// the exact quotient `sample_count / (duration / timescale)`: it equals a
/// whole number `k` of frames per second exactly when
/// `sample_count * timescale == k * duration`. In particular, a track of
/// 300 samples over a 10-second presentation comes out at exactly 30.
pub proof fn lemma_fps_exact(t: TrackStats, duration: int, timescale: int, k: int)
    requires
        timescale != 0,
        duration != 0,
    ensures
        fps_ratio(Some(t), duration, timescale) == (RatioView {
            num: t.sample_count * timescale,
            den: duration,
        }),
        ratio_is_int(fps_ratio(Some(t), duration, timescale), k) <==> t.sample_count * timescale
            == k * duration,
{
}

} // verus!
