use cider_mpris::cider::types::{Artwork, NowPlayingInfo};
use cider_mpris::mpris::metadata::{
    build_metadata_map, same_identity, track_identity, track_metadata, MetadataKey, MetadataValue,
};
use cider_mpris::mpris::player::{
    position_target_us, seek_target_us, supports, Capability, LoopStatus, PlaybackStatus,
    PlayerState,
};

fn info(name: &str, artist: &str, album: &str, millis: u64, art: Option<&str>) -> NowPlayingInfo {
    NowPlayingInfo {
        name: name.to_string(),
        artist_name: artist.to_string(),
        album_name: album.to_string(),
        duration_in_millis: millis,
        current_playback_time_us: 2_066_576,
        artwork: art.map(|u| Artwork { url: u.to_string() }),
        repeat_mode: 0,
        shuffle_mode: 0,
    }
}

#[test]
fn playback_status_names() {
    assert_eq!(PlaybackStatus::Playing.as_str(), "Playing");
    assert_eq!(PlaybackStatus::Paused.as_str(), "Paused");
    assert_eq!(PlaybackStatus::Stopped.as_str(), "Stopped");
}

#[test]
fn loop_status_follows_repeat_mode() {
    assert_eq!(LoopStatus::from_repeat_mode(0), LoopStatus::Off);
    assert_eq!(LoopStatus::from_repeat_mode(1), LoopStatus::Track);
    assert_eq!(LoopStatus::from_repeat_mode(2), LoopStatus::Playlist);
    assert_eq!(LoopStatus::from_repeat_mode(7), LoopStatus::Off);
    assert_eq!(LoopStatus::Off.as_str(), "None");
    assert_eq!(LoopStatus::Track.as_str(), "Track");
    assert_eq!(LoopStatus::Playlist.as_str(), "Playlist");
}

#[test]
fn default_player_state_is_stopped_and_empty() {
    let s = PlayerState::default();
    assert_eq!(s.playback_status, PlaybackStatus::Stopped);
    assert!(s.now_playing.is_none());
    assert_eq!(s.position_snapshot_us, 0);
    assert_eq!(s.repeat_mode, 0);
    assert_eq!(s.shuffle_mode, 0);
    assert_eq!(s.loop_status(), LoopStatus::Off);
    assert!(!s.shuffle());
}

#[test]
fn shuffle_is_on_for_any_nonzero_mode() {
    let mut s = PlayerState::default();
    s.shuffle_mode = 1;
    assert!(s.shuffle());
    s.shuffle_mode = 9;
    assert!(s.shuffle());
    s.repeat_mode = 2;
    assert_eq!(s.loop_status(), LoopStatus::Playlist);
}

#[test]
fn position_stands_still_when_not_playing() {
    let mut s = PlayerState::default();
    s.position_snapshot_us = 42_000_000;
    s.playback_status = PlaybackStatus::Paused;
    assert_eq!(s.position_after_elapsed(0), 42_000_000);
    assert_eq!(s.position_after_elapsed(5_000_000), 42_000_000);
    assert_eq!(s.position(), 42_000_000);
    s.playback_status = PlaybackStatus::Stopped;
    assert_eq!(s.position_after_elapsed(123), 42_000_000);
}

#[test]
fn position_advances_while_playing() {
    let mut s = PlayerState::default();
    s.position_snapshot_us = 1_000_000;
    s.playback_status = PlaybackStatus::Playing;
    assert_eq!(s.position_after_elapsed(0), 1_000_000);
    assert_eq!(s.position_after_elapsed(250_000), 1_250_000);
    assert!(s.position() >= 1_000_000);
}

#[test]
fn position_saturates_at_the_top() {
    let mut s = PlayerState::default();
    s.playback_status = PlaybackStatus::Playing;
    s.position_snapshot_us = i64::MAX - 10;
    assert_eq!(s.position_after_elapsed(100), i64::MAX);
    // An elapsed time beyond i64 is reinterpreted as an i64, as `as i64` does.
    s.position_snapshot_us = 0;
    assert_eq!(s.position_after_elapsed(1u128 << 64), 0);
    assert_eq!(s.position_after_elapsed(u64::MAX as u128), -1);
}

#[test]
fn seek_target_is_never_negative() {
    assert_eq!(seek_target_us(10_000_000, 5_000_000), 15_000_000);
    assert_eq!(seek_target_us(10_000_000, -4_000_000), 6_000_000);
    assert_eq!(seek_target_us(1_000_000, -5_000_000), 0);
    assert_eq!(seek_target_us(0, 0), 0);
}

#[test]
fn set_position_target_clamps_at_zero() {
    assert_eq!(position_target_us(-1), 0);
    assert_eq!(position_target_us(0), 0);
    assert_eq!(position_target_us(30_000_000), 30_000_000);
}

#[test]
fn metadata_empty_when_nothing_playing() {
    let s = PlayerState::default();
    assert!(build_metadata_map(&s).is_empty());
}

#[test]
fn metadata_of_a_track_without_artwork() {
    let i = info("Like Water (feat. MNDR)", "Flume", "Skin", 193_633, None);
    let m = track_metadata(&i);
    assert_eq!(m.len(), 5);
    let keys: Vec<&str> = m.iter().map(|e| e.key.as_str()).collect();
    assert_eq!(keys, vec!["mpris:trackid", "mpris:length", "xesam:artist", "xesam:title", "xesam:album"]);
    match &m[0].value {
        MetadataValue::Text(t) => assert_eq!(t, "/org/mpris/MediaPlayer2/TrackList/NoTrack"),
        other => panic!("unexpected {:?}", other),
    }
    match &m[1].value {
        MetadataValue::Integer(n) => assert_eq!(*n, 193_633_000),
        other => panic!("unexpected {:?}", other),
    }
    match &m[2].value {
        MetadataValue::TextList(v) => assert_eq!(v, &vec!["Flume".to_string()]),
        other => panic!("unexpected {:?}", other),
    }
    match &m[3].value {
        MetadataValue::Text(t) => assert_eq!(t, "Like Water (feat. MNDR)"),
        other => panic!("unexpected {:?}", other),
    }
    match &m[4].value {
        MetadataValue::Text(t) => assert_eq!(t, "Skin"),
        other => panic!("unexpected {:?}", other),
    }
}

#[test]
fn metadata_names_artwork_when_present() {
    let mut s = PlayerState::default();
    s.now_playing = Some(info("T", "A", "B", 1, Some("https://example.org/a.jpg")));
    let m = build_metadata_map(&s);
    assert_eq!(m.len(), 6);
    assert_eq!(m[5].key, MetadataKey::ArtUrl);
    for i in 0..m.len() {
        for j in (i + 1)..m.len() {
            assert_ne!(m[i].key, m[j].key);
        }
    }
    assert_eq!(m[5].key.as_str(), "mpris:artUrl");
    match &m[5].value {
        MetadataValue::Text(t) => assert_eq!(t, "https://example.org/a.jpg"),
        other => panic!("unexpected {:?}", other),
    }
}

#[test]
fn metadata_length_reinterprets_large_durations() {
    // A duration above i64::MAX milliseconds reads as a negative i64.
    let i = info("T", "A", "B", u64::MAX, None);
    let m = track_metadata(&i);
    match &m[1].value {
        MetadataValue::Integer(n) => assert_eq!(*n, -1000),
        other => panic!("unexpected {:?}", other),
    }
}

#[test]
fn identity_tracks_the_shown_fields() {
    let a = info("T", "A", "B", 1_000, Some("https://example.org/1.jpg"));
    let ia = track_identity(&a);
    assert_eq!(ia.title, "T");
    assert_eq!(ia.length_us, 1_000_000);
    assert_eq!(ia.art_url.as_deref(), Some("https://example.org/1.jpg"));
    assert!(same_identity(&ia, &track_identity(&a.clone())));
    let b = info("T", "A", "B", 1_000, Some("https://example.org/2.jpg"));
    assert!(!same_identity(&ia, &track_identity(&b)));
    let c = info("T", "A", "B", 2_000, Some("https://example.org/1.jpg"));
    assert!(!same_identity(&ia, &track_identity(&c)));
    let d = info("T", "A", "B", 1_000, None);
    assert!(!same_identity(&ia, &track_identity(&d)));
    // Fields are compared one by one: moving a bar between them is a change.
    let e = info("T|A", "", "B", 1_000, Some("https://example.org/1.jpg"));
    let f = info("T", "|A", "B", 1_000, Some("https://example.org/1.jpg"));
    assert!(!same_identity(&track_identity(&e), &track_identity(&f)));
}

#[test]
fn length_range_test_matches_the_computation() {
    assert!(info("T", "A", "B", 193_633, None).length_in_range());
    assert!(info("T", "A", "B", 9_223_372_036_854_775, None).length_in_range());
    assert!(!info("T", "A", "B", 9_223_372_036_854_776, None).length_in_range());
    // Reinterpreted as -1, the length is -1000 and fits.
    assert!(info("T", "A", "B", u64::MAX, None).length_in_range());
}

#[test]
fn every_capability_is_offered() {
    for c in [
        Capability::GoNext,
        Capability::GoPrevious,
        Capability::Play,
        Capability::Pause,
        Capability::Seek,
        Capability::Control,
    ] {
        assert!(supports(c));
    }
}
