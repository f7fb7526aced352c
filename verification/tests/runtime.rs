use chrono::Duration;
use spcli::error::Error;
use spcli::model::SimplifiedTrack;
use spcli::runtime::{runtime_str, total_runtime};

fn track(name: &str, duration_ms: i64) -> SimplifiedTrack {
    SimplifiedTrack { name: name.to_string(), duration_ms }
}

// What the runtime of a duration looks like when it is taken from chrono directly.
fn shown_by_chrono(millis: i64) -> String {
    let runtime = Duration::milliseconds(millis);
    format!(
        "{}:{:02}",
        runtime.num_minutes(),
        runtime.num_seconds() - runtime.num_minutes() * 60
    )
}

#[test]
fn total_of_two_tracks_is_their_sum() {
    let tracks = vec![track("a", 185_000), track("b", 240_000)];
    assert_eq!(total_runtime(&tracks), Ok(425_000));
}

#[test]
fn total_of_no_tracks_is_zero() {
    assert_eq!(total_runtime(&Vec::new()), Ok(0));
}

#[test]
fn total_counts_negative_durations() {
    let tracks = vec![track("a", 1_000), track("b", -3_000), track("c", 500)];
    assert_eq!(total_runtime(&tracks), Ok(-1_500));
}

#[test]
fn total_reaches_the_largest_duration() {
    let tracks = vec![track("a", i64::MAX - 1), track("b", 1)];
    assert_eq!(total_runtime(&tracks), Ok(i64::MAX));
}

#[test]
fn total_reaches_the_smallest_duration() {
    let tracks = vec![track("a", -i64::MAX + 1), track("b", -1)];
    assert_eq!(total_runtime(&tracks), Ok(-i64::MAX));
}

#[test]
fn total_fails_above_the_largest_duration() {
    let tracks = vec![track("a", i64::MAX), track("b", 1)];
    assert_eq!(total_runtime(&tracks), Err(Error::RuntimeOutOfRange));
}

#[test]
fn total_fails_below_the_smallest_duration() {
    let tracks = vec![track("a", -i64::MAX), track("b", -1)];
    assert_eq!(total_runtime(&tracks), Err(Error::RuntimeOutOfRange));
}

#[test]
fn total_fails_on_a_sum_that_leaves_the_range_on_the_way() {
    let tracks = vec![track("a", i64::MAX), track("b", 5), track("c", -10)];
    assert_eq!(total_runtime(&tracks), Err(Error::RuntimeOutOfRange));
}

#[test]
fn total_fails_on_a_duration_that_is_none() {
    assert_eq!(total_runtime(&vec![track("a", i64::MIN)]), Err(Error::RuntimeOutOfRange));
    let tracks = vec![track("a", 5), track("b", i64::MIN)];
    assert_eq!(total_runtime(&tracks), Err(Error::RuntimeOutOfRange));
}

#[test]
fn runtime_shows_minutes_and_two_digit_seconds() {
    assert_eq!(runtime_str(425_000), Ok("7:05".to_string()));
    assert_eq!(runtime_str(185_000), Ok("3:05".to_string()));
    assert_eq!(runtime_str(240_000), Ok("4:00".to_string()));
}

#[test]
fn runtime_drops_the_milliseconds() {
    assert_eq!(runtime_str(0), Ok("0:00".to_string()));
    assert_eq!(runtime_str(999), Ok("0:00".to_string()));
    assert_eq!(runtime_str(1_000), Ok("0:01".to_string()));
    assert_eq!(runtime_str(59_999), Ok("0:59".to_string()));
    assert_eq!(runtime_str(60_000), Ok("1:00".to_string()));
}

#[test]
fn runtime_does_not_wrap_minutes_into_hours() {
    assert_eq!(runtime_str(3_600_000), Ok("60:00".to_string()));
    assert_eq!(runtime_str(7_261_000), Ok("121:01".to_string()));
}

#[test]
fn runtime_of_a_negative_duration_rounds_toward_zero() {
    assert_eq!(runtime_str(-999), Ok("0:00".to_string()));
    assert_eq!(runtime_str(-5_000), Ok("0:-5".to_string()));
    assert_eq!(runtime_str(-65_000), Ok("-1:-5".to_string()));
    assert_eq!(runtime_str(-60_000), Ok("-1:00".to_string()));
    assert_eq!(runtime_str(-75_500), Ok("-1:-15".to_string()));
}

#[test]
fn runtime_of_the_extremes() {
    assert_eq!(runtime_str(i64::MAX), Ok("153722867280912:55".to_string()));
    assert_eq!(runtime_str(-i64::MAX), Ok("-153722867280912:-55".to_string()));
    assert_eq!(runtime_str(i64::MIN), Err(Error::RuntimeOutOfRange));
}

#[test]
fn runtime_agrees_with_chrono() {
    let samples: [i64; 16] = [
        0,
        1,
        -1,
        999,
        1_000,
        -1_000,
        59_999,
        60_000,
        -59_999,
        -60_001,
        425_000,
        3_599_999,
        86_400_000,
        -86_400_001,
        i64::MAX,
        -i64::MAX,
    ];
    for millis in samples {
        assert_eq!(runtime_str(millis), Ok(shown_by_chrono(millis)));
    }
}

#[test]
fn total_agrees_with_chrono() {
    let durations: [i64; 5] = [185_000, 240_000, -1_234, 7, 86_400_000];
    let mut expected = Duration::zero();
    let mut tracks = Vec::new();
    for millis in durations {
        expected = expected + Duration::milliseconds(millis);
        tracks.push(track("t", millis));
    }
    assert_eq!(total_runtime(&tracks), Ok(expected.num_milliseconds()));
}
