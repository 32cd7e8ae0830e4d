//! What the player reports and what the presence service is shown for it.

use vstd::prelude::*;

verus! {

/// The asset that every activity of the player shows as its large image.
pub const LARGE_IMAGE_KEY: &'static str = "music_icon";

/// A span of wall-clock time, both ends in whole seconds since the Unix epoch.
/// The service renders it as a running countdown.
#[derive(Clone, Copy, Debug, PartialEq, Eq, Structural)]
pub struct TimeRange {
    pub start: i64,
    pub end: i64,
}

/// What the player reports with one update.
#[derive(Clone, Copy, Debug)]
pub struct ActivityState<'a> {
    pub title: &'a str,
    pub album: &'a str,
    /// Length of the track; zero or less switches the progress display off.
    pub duration_seconds: i64,
    /// Position within the track.
    pub elapsed_seconds: i64,
    pub is_playing: bool,
}

/// What the presence service is asked to show.
#[derive(Clone, Copy, Debug, PartialEq, Eq)]
pub struct ActivityPayload<'a> {
    /// The state line.
    pub state: &'a str,
    /// Key of the large image.
    pub large_image: &'a str,
    /// Hover text of the large image.
    pub large_text: &'a str,
    /// The countdown, where one is shown.
    pub timestamps: Option<TimeRange>,
}

/// An [`ActivityPayload`] as plain values.
pub struct ActivityView {
    pub state: Seq<char>,
    pub large_image: Seq<char>,
    pub large_text: Seq<char>,
    pub timestamps: Option<TimeRange>,
}

impl<'a> View for ActivityPayload<'a> {
    type V = ActivityView;

    open spec fn view(&self) -> ActivityView {
        ActivityView {
            state: self.state@,
            large_image: self.large_image@,
            large_text: self.large_text@,
            timestamps: self.timestamps,
        }
    }
}

/// Whether a track in this condition gets a countdown at all.
pub open spec fn shows_progress(is_playing: bool, duration_seconds: int) -> bool {
    is_playing && duration_seconds > 0
}

/// The moment at which a track that is `elapsed` seconds in at `now` began.
pub open spec fn countdown_start(now: int, elapsed: int) -> int {
    now - elapsed
}

/// The moment at which a track of `duration` seconds that is `elapsed`
/// seconds in at `now` will end.
pub open spec fn countdown_end(now: int, duration: int, elapsed: int) -> int {
    now + (duration - elapsed)
}

/// Whether `x` can be written as a 64-bit timestamp.
pub open spec fn fits_i64(x: int) -> bool {
    i64::MIN <= x <= i64::MAX
}

/// The countdown anchored at `now`, where both of its ends can be written as
/// 64-bit timestamps.
pub open spec fn countdown_at(now: int, duration: int, elapsed: int) -> Option<TimeRange> {
    if fits_i64(countdown_start(now, elapsed)) && fits_i64(countdown_end(now, duration, elapsed)) {
        Some(
            TimeRange {
                start: countdown_start(now, elapsed) as i64,
                end: countdown_end(now, duration, elapsed) as i64,
            },
        )
    } else {
        None
    }
}

/// Computes the countdown of a track of `duration` seconds that is `elapsed`
/// seconds in at `now`. `None` means that an end of the span lies outside the
/// 64-bit range.
pub fn countdown(now: i64, duration: i64, elapsed: i64) -> (r: Option<TimeRange>)
    ensures
        r == countdown_at(now as int, duration as int, elapsed as int),
{
    let start: i128 = now as i128 - elapsed as i128;
    let end: i128 = now as i128 + (duration as i128 - elapsed as i128);
    if start < i64::MIN as i128 || start > i64::MAX as i128 || end < i64::MIN as i128 || end
        > i64::MAX as i128 {
        None
    } else {
        Some(TimeRange { start: start as i64, end: end as i64 })
    }
}

impl<'a> ActivityState<'a> {
    /// Whether this report gets a countdown.
    pub open spec fn shows_progress(&self) -> bool {
        shows_progress(self.is_playing, self.duration_seconds as int)
    }

    /// The countdown that this report gets at `now`: none for a track that is
    /// paused or has no length, else the span from its start to its end.
    pub open spec fn timestamps_at(&self, now: int) -> Option<TimeRange> {
        if self.shows_progress() {
            countdown_at(now, self.duration_seconds as int, self.elapsed_seconds as int)
        } else {
            None
        }
    }

    /// Whether the payload for this report can be written at `now`. It
    /// always can where no countdown is shown.
    pub open spec fn representable_at(&self, now: int) -> bool {
        self.shows_progress() ==> self.timestamps_at(now) is Some
    }

    /// The payload for this report at `now`: the title as the state line,
    /// the player's image with the album as its hover text, and the
    /// countdown where one is shown.
    pub open spec fn payload_view_at(&self, now: int) -> ActivityView {
        ActivityView {
            state: self.title@,
            large_image: LARGE_IMAGE_KEY@,
            large_text: self.album@,
            timestamps: self.timestamps_at(now),
        }
    }

    /// Builds the payload for this report, with the countdown anchored at
    /// `now`. `None` means that the countdown cannot be written.
    pub fn payload_at(&self, now: i64) -> (r: Option<ActivityPayload<'a>>)
        ensures
            match r {
                Some(p) => self.representable_at(now as int) && p@ == self.payload_view_at(
                    now as int,
                ),
                None => !self.representable_at(now as int),
            },
    {
        if self.is_playing && self.duration_seconds > 0 {
            match countdown(now, self.duration_seconds, self.elapsed_seconds) {
                Some(range) => Some(
                    ActivityPayload {
                        state: self.title,
                        large_image: LARGE_IMAGE_KEY,
                        large_text: self.album,
                        timestamps: Some(range),
                    },
                ),
                None => None,
            }
        } else {
            Some(
                ActivityPayload {
                    state: self.title,
                    large_image: LARGE_IMAGE_KEY,
                    large_text: self.album,
                    timestamps: None,
                },
            )
        }
    }
}

/// A countdown spans exactly the length of the track, and lies exactly as far
/// behind `now` as the track has played.
pub proof fn lemma_countdown_is_anchored(now: int, duration: int, elapsed: int)
    requires
        countdown_at(now, duration, elapsed) is Some,
    ensures
        ({
            let range = countdown_at(now, duration, elapsed)->Some_0;
            &&& range.end - range.start == duration
            &&& now - range.start == elapsed
        }),
{
}

/// A track that is paused, or that has no length, gets no countdown, wherever
/// in the track the player is and whatever the time.
pub proof fn lemma_idle_track_has_no_countdown(state: ActivityState<'_>, now: int)
    requires
        !state.is_playing || state.duration_seconds <= 0,
    ensures
        state.representable_at(now),
        state.payload_view_at(now).timestamps is None,
{
}

} // verus!
