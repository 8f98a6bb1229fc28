//! The player as MPRIS sees it: its status, the state that the polling loop
//! keeps up to date, and the values of the player's D-Bus properties.

use vstd::prelude::*;
use std::time::Duration;
use std::time::Instant;
use crate::cider::types::NowPlayingInfo;

verus! {

/// Declares `std::time::Instant` so that it can stand in fields and
/// signatures; its values are opaque.
#[verifier::external_type_specification]
#[verifier::external_body]
pub struct ExInstant(std::time::Instant);

/// Reads the monotonic clock through `std::time::Instant::now`. Nothing is
/// stated of the reading: it depends on the time of the call.
#[verifier::external_body]
pub(crate) fn instant_now() -> (now: Instant) {
    Instant::now()
}

/// Calls `std::time::Instant::elapsed`: the time since `at` (zero when the
/// clock reads earlier than `at`). Nothing is stated of the result: it
/// depends on the time of the call.
#[verifier::external_body]
fn elapsed_since(at: &Instant) -> (d: Duration) {
    at.elapsed()
}

/// Calls `std::time::Duration::as_micros`: the whole microseconds in `d`.
/// The duration is opaque here, so nothing is stated of the result.
#[verifier::external_body]
fn whole_micros(d: &Duration) -> (us: u128) {
    d.as_micros()
}

/// The MPRIS `PlaybackStatus` of the player.
#[derive(Debug, Clone, Copy, PartialEq, Eq, Structural)]
pub enum PlaybackStatus {
    Playing,
    Paused,
    Stopped,
}

impl PlaybackStatus {
    /// The name MPRIS uses for this status.
    pub open spec fn name(self) -> Seq<char> {
        match self {
            PlaybackStatus::Playing => "Playing"@,
            PlaybackStatus::Paused => "Paused"@,
            PlaybackStatus::Stopped => "Stopped"@,
        }
    }

    pub fn as_str(&self) -> (s: &'static str)
        ensures
            s@ == self.name(),
    {
        match self {
            PlaybackStatus::Playing => "Playing",
            PlaybackStatus::Paused => "Paused",
            PlaybackStatus::Stopped => "Stopped",
        }
    }
}

/// The MPRIS `LoopStatus`, derived from Cider's repeat mode.
#[derive(Debug, Clone, Copy, PartialEq, Eq, Structural)]
pub enum LoopStatus {
    /// MPRIS `"None"`: no repetition.
    Off,
    /// MPRIS `"Track"`: the current track repeats.
    Track,
    /// MPRIS `"Playlist"`: the playlist repeats.
    Playlist,
}

impl LoopStatus {
    /// Cider's repeat mode `1` repeats the track, `2` the playlist; any
    /// other value is read as no repetition.
    pub open spec fn of_repeat_mode(mode: u8) -> LoopStatus {
        if mode == 1 {
            LoopStatus::Track
        } else if mode == 2 {
            LoopStatus::Playlist
        } else {
            LoopStatus::Off
        }
    }

    pub fn from_repeat_mode(mode: u8) -> (s: LoopStatus)
        ensures
            s == Self::of_repeat_mode(mode),
    {
        match mode {
            1 => LoopStatus::Track,
            2 => LoopStatus::Playlist,
            _ => LoopStatus::Off,
        }
    }

    /// The name MPRIS uses for this loop status.
    pub open spec fn name(self) -> Seq<char> {
        match self {
            LoopStatus::Off => "None"@,
            LoopStatus::Track => "Track"@,
            LoopStatus::Playlist => "Playlist"@,
        }
    }

    pub fn as_str(&self) -> (s: &'static str)
        ensures
            s@ == self.name(),
    {
        match self {
            LoopStatus::Off => "None",
            LoopStatus::Track => "Track",
            LoopStatus::Playlist => "Playlist",
        }
    }
}

/// `a + b`, clamped to the range of `i64`.
pub open spec fn saturating_add_i64(a: i64, b: i64) -> i64 {
    if a + b > i64::MAX {
        i64::MAX
    } else if a + b < i64::MIN {
        i64::MIN
    } else {
        (a + b) as i64
    }
}

fn saturating_add(a: i64, b: i64) -> (r: i64)
    ensures
        r == saturating_add_i64(a, b),
{
    match a.checked_add(b) {
        Some(r) => r,
        None => if b > 0 {
            i64::MAX
        } else {
            i64::MIN
        },
    }
}

/// What the bridge knows of the player, written by the polling loop and read
/// by the D-Bus properties.
pub struct PlayerState {
    pub playback_status: PlaybackStatus,
    pub now_playing: Option<NowPlayingInfo>,
    /// The position reported at the last poll, in microseconds.
    pub position_snapshot_us: i64,
    /// When that position was reported.
    pub position_snapshot_at: Instant,
    pub repeat_mode: u8,
    pub shuffle_mode: u8,
}

impl Default for PlayerState {
    fn default() -> (s: Self)
        ensures
            s.playback_status == PlaybackStatus::Stopped,
            s.now_playing is None,
            s.position_snapshot_us == 0,
            s.repeat_mode == 0,
            s.shuffle_mode == 0,
    {
        PlayerState {
            playback_status: PlaybackStatus::Stopped,
            now_playing: None,
            position_snapshot_us: 0,
            position_snapshot_at: instant_now(),
            repeat_mode: 0,
            shuffle_mode: 0,
        }
    }
}

impl PlayerState {
    /// The position, in microseconds, `elapsed_us` microseconds after the
    /// snapshot: it advances only while playing, with the elapsed time
    /// reinterpreted as an `i64` and the sum saturating.
    pub open spec fn position_after(self, elapsed_us: u128) -> i64 {
        if self.playback_status == PlaybackStatus::Playing {
            saturating_add_i64(self.position_snapshot_us, elapsed_us as i64)
        } else {
            self.position_snapshot_us
        }
    }

    /// The interpolated position, given the microseconds since the snapshot.
    pub fn position_after_elapsed(&self, elapsed_us: u128) -> (p: i64)
        ensures
            p == self.position_after(elapsed_us),
    {
        if self.playback_status == PlaybackStatus::Playing {
            saturating_add(self.position_snapshot_us, elapsed_us as i64)
        } else {
            self.position_snapshot_us
        }
    }

    /// The MPRIS `Position` property: the snapshot, advanced by the time
    /// elapsed since it was taken when the player is playing.
    pub fn position(&self) -> (p: i64)
        ensures
            exists|e: u128| p == self.position_after(e),
            self.playback_status != PlaybackStatus::Playing ==> p == self.position_snapshot_us,
    {
        let elapsed = elapsed_since(&self.position_snapshot_at);
        let us = whole_micros(&elapsed);
        self.position_after_elapsed(us)
    }

    /// The MPRIS `LoopStatus` property.
    pub fn loop_status(&self) -> (s: LoopStatus)
        ensures
            s == LoopStatus::of_repeat_mode(self.repeat_mode),
    {
        LoopStatus::from_repeat_mode(self.repeat_mode)
    }

    /// The MPRIS `Shuffle` property: on for every nonzero shuffle mode.
    pub fn shuffle(&self) -> (on: bool)
        ensures
            on == (self.shuffle_mode != 0),
    {
        self.shuffle_mode != 0
    }
}

/// The MPRIS player capabilities the bridge announces.
#[derive(Debug, Clone, Copy, PartialEq, Eq, Structural)]
pub enum Capability {
    GoNext,
    GoPrevious,
    Play,
    Pause,
    Seek,
    Control,
}

/// Whether the player offers a capability: the bridge passes every command
/// on to Cider, so it offers all of them.
pub fn supports(c: Capability) -> (offered: bool)
    ensures
        offered,
{
    match c {
        Capability::GoNext => true,
        Capability::GoPrevious => true,
        Capability::Play => true,
        Capability::Pause => true,
        Capability::Seek => true,
        Capability::Control => true,
    }
}

/// Where a relative seek lands: the current position plus the offset, and
/// never before the start of the track.
pub open spec fn seek_target(current_us: i64, offset_us: i64) -> int {
    if current_us + offset_us < 0 {
        0
    } else {
        current_us + offset_us
    }
}

/// The target, in microseconds, of an MPRIS `Seek` by `offset_us` from
/// `current_us`.
pub fn seek_target_us(current_us: i64, offset_us: i64) -> (t: i64)
    requires
        i64::MIN <= current_us + offset_us <= i64::MAX,
    ensures
        t == seek_target(current_us, offset_us),
        t >= 0,
{
    let sum = current_us + offset_us;
    if sum < 0 {
        0
    } else {
        sum
    }
}

/// The target, in microseconds, of an MPRIS `SetPosition`: negative
/// positions move to the start.
pub fn position_target_us(position_us: i64) -> (t: i64)
    ensures
        t == (if position_us < 0 { 0 } else { position_us }),
{
    if position_us < 0 {
        0
    } else {
        position_us
    }
}

/// While the player is not playing its position stands still: it is the
/// snapshot, however much time has passed.
pub proof fn lemma_position_frozen_unless_playing(s: PlayerState, e1: u128, e2: u128)
    requires
        s.playback_status != PlaybackStatus::Playing,
    ensures
        s.position_after(e1) == s.position_after(e2),
        s.position_after(e1) == s.position_snapshot_us,
{
}

/// While playing, the position moves forward with the clock: it never goes
/// back as time passes (for elapsed times within the range of `i64`), and
/// it is the snapshot plus the elapsed time when that sum fits.
pub proof fn lemma_position_advances_while_playing(s: PlayerState, e1: u128, e2: u128)
    requires
        s.playback_status == PlaybackStatus::Playing,
        e1 <= e2 <= i64::MAX,
    ensures
        s.position_after(e1) <= s.position_after(e2),
        s.position_snapshot_us + e2 <= i64::MAX ==> s.position_after(e2) == s.position_snapshot_us + e2,
{
    assert(e1 as i64 == e1);
    assert(e2 as i64 == e2);
}

} // verus!
