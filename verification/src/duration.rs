//! Playing time from what a container reports of its streams.

use vstd::prelude::*;
use crate::error::MusicError;

verus! {

/// What a container says of one stream's length.
#[derive(Debug, Clone, Copy)]
pub struct TrackTiming {
    /// The number of frames in the stream.
    pub n_frames: Option<u64>,
    /// Frames per second.
    pub sample_rate: Option<u32>,
    /// The length of one tick in seconds, as numerator and denominator.
    pub time_base: Option<(u32, u32)>,
}

/// The whole seconds that one stream lasts, where its figures allow a
/// division: frames by sample rate, or else frames times the time base.
/// A zero divisor, or a quotient beyond 64 bits, makes the figures unusable.
pub open spec fn timing_seconds(t: TrackTiming) -> Option<u64> {
    match t.n_frames {
        None => None,
        Some(n) => {
            if t.sample_rate is Some && t.sample_rate.unwrap() > 0 {
                Some((n / (t.sample_rate.unwrap() as u64)) as u64)
            } else if t.time_base is Some && t.time_base.unwrap().1 > 0 && (t.time_base.unwrap().0
                * n) / (t.time_base.unwrap().1 as int) <= u64::MAX {
                Some(((t.time_base.unwrap().0 * n) / (t.time_base.unwrap().1 as int)) as u64)
            } else {
                None
            }
        },
    }
}

/// The seconds of the first stream from index `i` on whose figures are usable.
pub open spec fn first_usable_from(tracks: Seq<TrackTiming>, i: int) -> Option<u64>
    decreases tracks.len() - i,
{
    if i < 0 || i >= tracks.len() {
        None
    } else {
        match timing_seconds(tracks[i]) {
            Some(s) => Some(s),
            None => first_usable_from(tracks, i + 1),
        }
    }
}

/// The playing time that a list of streams gives: that of the first usable
/// stream, unless it is zero.
pub open spec fn probed_duration(tracks: Seq<TrackTiming>) -> Option<u64> {
    match first_usable_from(tracks, 0) {
        Some(s) => if s > 0 {
            Some(s)
        } else {
            None
        },
        None => None,
    }
}

/// The whole seconds of one stream.
pub fn seconds_of(t: &TrackTiming) -> (r: Option<u64>)
    ensures
        r == timing_seconds(*t),
{
    match t.n_frames {
        None => None,
        Some(n) => {
            if let Some(rate) = t.sample_rate {
                if rate > 0 {
                    return Some(n / (rate as u64));
                }
            }
            if let Some((numer, denom)) = t.time_base {
                if denom > 0 {
                    assert((numer as u128) * (n as u128) <= 0xFFFF_FFFF * 0xFFFF_FFFF_FFFF_FFFF)
                        by (nonlinear_arith)
                        requires
                            numer <= 0xFFFF_FFFF,
                            n <= 0xFFFF_FFFF_FFFF_FFFF,
                    ;
                    let ticks: u128 = (numer as u128) * (n as u128);
                    let whole: u128 = ticks / (denom as u128);
                    if whole <= u64::MAX as u128 {
                        return Some(whole as u64);
                    }
                }
            }
            None
        },
    }
}

/// The playing time in whole seconds that the streams of a container give.
/// Fails where no stream has usable figures, or the first that has gives
/// zero.
pub fn duration_from_tracks(tracks: &Vec<TrackTiming>) -> (r: Result<u64, MusicError>)
    ensures
        r is Ok <==> probed_duration(tracks@) is Some,
        r is Ok ==> Some(r.unwrap()) == probed_duration(tracks@),
        r is Err ==> r.unwrap_err() == MusicError::DurationUnavailable,
{
    let mut i: usize = 0;
    while i < tracks.len()
        invariant
            i <= tracks@.len(),
            first_usable_from(tracks@, 0) == first_usable_from(tracks@, i as int),
        decreases tracks@.len() - i,
    {
        match seconds_of(&tracks[i]) {
            Some(s) => {
                if s > 0 {
                    return Ok(s);
                } else {
                    return Err(MusicError::DurationUnavailable);
                }
            },
            None => {},
        }
        i += 1;
    }
    Err(MusicError::DurationUnavailable)
}

} // verus!
