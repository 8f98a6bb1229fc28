//! The records Cider's RPC server answers with, holding the values that the
//! bridge reads from them.

use vstd::prelude::*;

verus! {

/// Body of `GET /api/v1/playback/now-playing`.
#[derive(Debug, Clone)]
pub struct NowPlayingResponse {
    pub info: NowPlayingInfo,
}

/// The track Cider is playing.
///
/// The playback position is kept in whole microseconds: the position that
/// Cider reports in seconds, scaled by one million and converted to an
/// integer as Rust's float-to-int `as` does (truncating toward zero,
/// saturating at the bounds).
#[derive(Debug, Clone)]
pub struct NowPlayingInfo {
    pub name: String,
    pub artist_name: String,
    pub album_name: String,
    pub duration_in_millis: u64,
    pub current_playback_time_us: i64,
    pub artwork: Option<Artwork>,
    pub repeat_mode: u8,
    pub shuffle_mode: u8,
}

#[derive(Debug, Clone)]
pub struct Artwork {
    pub url: String,
}

/// Body of `GET /api/v1/playback/is-playing`.
#[derive(Debug, Clone)]
pub struct PlaybackStatusResponse {
    pub is_playing: bool,
}

/// Body of `GET /api/v1/playback/repeat-mode`.
#[derive(Debug, Clone)]
pub struct RepeatModeResponse {
    pub repeat_mode: u8,
}

/// Body of `GET /api/v1/playback/shuffle-mode`.
#[derive(Debug, Clone)]
pub struct ShuffleModeResponse {
    pub shuffle_mode: u8,
}

impl NowPlayingInfo {
    /// The track length in microseconds as the bridge computes it: the
    /// millisecond count reinterpreted as an `i64`, times one thousand.
    pub open spec fn length_us(self) -> int {
        (self.duration_in_millis as i64) * 1000
    }

    /// The track length fits in an `i64`, so computing it does not overflow.
    pub open spec fn length_fits(self) -> bool {
        i64::MIN <= self.length_us() <= i64::MAX
    }

    /// Tests [`Self::length_fits`].
    pub fn length_in_range(&self) -> (fits: bool)
        ensures
            fits == self.length_fits(),
    {
        (self.duration_in_millis as i64).checked_mul(1000).is_some()
    }
}

} // verus!
