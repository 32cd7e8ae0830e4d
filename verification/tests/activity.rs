use music_player::activity::{countdown, ActivityPayload, ActivityState, TimeRange, LARGE_IMAGE_KEY};

fn track<'a>(duration: i64, elapsed: i64, is_playing: bool) -> ActivityState<'a> {
    ActivityState {
        title: "Blue in Green",
        album: "Kind of Blue",
        duration_seconds: duration,
        elapsed_seconds: elapsed,
        is_playing,
    }
}

#[test]
fn countdown_of_a_track_half_a_minute_in() {
    let now: i64 = 1_700_000_000;
    let range = countdown(now, 180, 30).unwrap();
    assert_eq!(range, TimeRange { start: 1_699_999_970, end: 1_700_000_150 });
    assert_eq!(range.end - range.start, 180);
    assert_eq!(now - range.start, 30);
}

#[test]
fn countdown_is_anchored_at_every_now() {
    for now in [0i64, 1, 1_000, 1_700_000_000, 4_102_444_800] {
        let range = countdown(now, 180, 30).unwrap();
        assert_eq!(range.end - range.start, 180);
        assert_eq!(now - range.start, 30);
    }
}

#[test]
fn countdown_at_the_start_and_at_the_end_of_a_track() {
    assert_eq!(countdown(1_000, 240, 0), Some(TimeRange { start: 1_000, end: 1_240 }));
    assert_eq!(countdown(1_000, 240, 240), Some(TimeRange { start: 760, end: 1_000 }));
}

#[test]
fn countdown_with_a_position_outside_the_track() {
    assert_eq!(countdown(1_000, 100, 150), Some(TimeRange { start: 850, end: 950 }));
    assert_eq!(countdown(1_000, 100, -20), Some(TimeRange { start: 1_020, end: 1_120 }));
}

#[test]
fn countdown_at_the_limits_of_a_timestamp() {
    assert_eq!(
        countdown(i64::MAX, 0, 0),
        Some(TimeRange { start: i64::MAX, end: i64::MAX })
    );
    assert_eq!(
        countdown(0, i64::MAX, 0),
        Some(TimeRange { start: 0, end: i64::MAX })
    );
    assert_eq!(
        countdown(-5, i64::MAX, -3),
        Some(TimeRange { start: -2, end: i64::MAX - 2 })
    );
    assert_eq!(
        countdown(i64::MIN, 0, 0),
        Some(TimeRange { start: i64::MIN, end: i64::MIN })
    );
}

#[test]
fn countdown_that_does_not_fit_is_refused() {
    assert_eq!(countdown(1, i64::MAX, 0), None);
    assert_eq!(countdown(0, 10, i64::MIN), None);
    assert_eq!(countdown(i64::MAX, 10, 5), None);
    assert_eq!(countdown(i64::MIN, 10, 5), None);
    assert_eq!(countdown(1_700_000_000, 180, i64::MIN), None);
}

#[test]
fn playing_track_gets_title_album_image_and_countdown() {
    let payload = track(180, 30, true).payload_at(1_000).unwrap();
    assert_eq!(
        payload,
        ActivityPayload {
            state: "Blue in Green",
            large_image: "music_icon",
            large_text: "Kind of Blue",
            timestamps: Some(TimeRange { start: 970, end: 1_150 }),
        }
    );
    assert_eq!(LARGE_IMAGE_KEY, "music_icon");
}

#[test]
fn paused_track_gets_no_countdown() {
    for elapsed in [i64::MIN, -1, 0, 30, 180, 10_000, i64::MAX] {
        let payload = track(180, elapsed, false).payload_at(1_000).unwrap();
        assert_eq!(payload.timestamps, None);
        assert_eq!(payload.state, "Blue in Green");
        assert_eq!(payload.large_image, "music_icon");
        assert_eq!(payload.large_text, "Kind of Blue");
    }
}

#[test]
fn track_without_length_gets_no_countdown() {
    for duration in [0i64, -1, -180, i64::MIN] {
        for elapsed in [i64::MIN, 0, 30, i64::MAX] {
            for is_playing in [true, false] {
                let payload = track(duration, elapsed, is_playing).payload_at(1_000).unwrap();
                assert_eq!(payload.timestamps, None);
            }
        }
    }
}

#[test]
fn shortest_track_gets_a_countdown() {
    let payload = track(1, 0, true).payload_at(50).unwrap();
    assert_eq!(payload.timestamps, Some(TimeRange { start: 50, end: 51 }));
}

#[test]
fn playing_track_whose_countdown_does_not_fit_has_no_payload() {
    assert_eq!(track(180, i64::MIN, true).payload_at(1_000), None);
    assert_eq!(track(i64::MAX, 0, true).payload_at(1), None);
}

#[test]
fn paused_track_has_a_payload_whatever_the_numbers() {
    assert!(track(i64::MAX, i64::MIN, false).payload_at(i64::MAX).is_some());
    assert!(track(-5, i64::MIN, true).payload_at(i64::MIN).is_some());
}

#[test]
fn payload_is_computed_anew_for_every_now() {
    let state = track(200, 50, true);
    let first = state.payload_at(1_000).unwrap();
    let second = state.payload_at(1_007).unwrap();
    assert_eq!(first.timestamps, Some(TimeRange { start: 950, end: 1_150 }));
    assert_eq!(second.timestamps, Some(TimeRange { start: 957, end: 1_157 }));
}
