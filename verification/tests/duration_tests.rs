use music_catalog::duration::{duration_from_tracks, seconds_of, TrackTiming};
use music_catalog::error::MusicError;

fn timing(n: Option<u64>, rate: Option<u32>, tb: Option<(u32, u32)>) -> TrackTiming {
    TrackTiming { n_frames: n, sample_rate: rate, time_base: tb }
}

#[test]
fn frames_by_sample_rate() {
    assert_eq!(seconds_of(&timing(Some(441_000), Some(44_100), None)), Some(10));
    assert_eq!(seconds_of(&timing(Some(441_099), Some(44_100), None)), Some(10));
    assert_eq!(seconds_of(&timing(Some(100), Some(44_100), None)), Some(0));
}

#[test]
fn frames_by_time_base() {
    assert_eq!(seconds_of(&timing(Some(90_000), None, Some((1, 1000)))), Some(90));
    assert_eq!(seconds_of(&timing(Some(7), None, Some((3, 2)))), Some(10));
}

#[test]
fn sample_rate_goes_before_time_base() {
    assert_eq!(seconds_of(&timing(Some(48_000), Some(48_000), Some((1, 1)))), Some(1));
}

#[test]
fn figures_that_allow_no_division_are_unusable() {
    assert_eq!(seconds_of(&timing(None, Some(44_100), Some((1, 1000)))), None);
    assert_eq!(seconds_of(&timing(Some(1000), None, None)), None);
    assert_eq!(seconds_of(&timing(Some(1000), None, Some((1, 0)))), None);
    assert_eq!(seconds_of(&timing(Some(1000), Some(0), None)), None);
    assert_eq!(seconds_of(&timing(Some(1000), Some(0), Some((1, 10)))), Some(100));
}

#[test]
fn a_quotient_beyond_64_bits_is_unusable() {
    assert_eq!(seconds_of(&timing(Some(u64::MAX), None, Some((2, 1)))), None);
    assert_eq!(seconds_of(&timing(Some(u64::MAX), None, Some((2, 2)))), Some(u64::MAX));
    assert_eq!(
        seconds_of(&timing(Some(u64::MAX), None, Some((u32::MAX, u32::MAX)))),
        Some(u64::MAX)
    );
}

#[test]
fn the_first_usable_stream_decides() {
    let tracks = vec![
        timing(None, None, None),
        timing(Some(96_000), Some(48_000), None),
        timing(Some(480_000), Some(48_000), None),
    ];
    assert_eq!(duration_from_tracks(&tracks), Ok(2));
}

#[test]
fn a_first_usable_stream_of_zero_seconds_gives_no_duration() {
    let tracks = vec![
        timing(Some(10), Some(48_000), None),
        timing(Some(480_000), Some(48_000), None),
    ];
    assert_eq!(duration_from_tracks(&tracks), Err(MusicError::DurationUnavailable));
}

#[test]
fn no_streams_no_duration() {
    assert_eq!(duration_from_tracks(&Vec::new()), Err(MusicError::DurationUnavailable));
    assert_eq!(
        duration_from_tracks(&vec![timing(None, Some(1), None)]),
        Err(MusicError::DurationUnavailable)
    );
}

#[test]
fn time_base_serves_where_the_first_stream_has_no_sample_rate() {
    let tracks = vec![timing(Some(180_000), None, Some((1, 1000))), timing(Some(1), Some(1), None)];
    assert_eq!(duration_from_tracks(&tracks), Ok(180));
}
