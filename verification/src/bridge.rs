//! The decisions of the polling loop that keeps the MPRIS player in step
//! with Cider.
//!
//! Each poll asks Cider whether it is playing and, when it answers, what it
//! plays. The [`BridgeTracker`] remembers what D-Bus clients were last told
//! and whether the bridge holds its bus name; its transitions update the
//! shared [`PlayerState`] and return the actions to perform, in order:
//! property-change signals to emit and the bus name to request or release.
//! A property is announced only when its value differs from the last value
//! announced, so a steady player produces no signals. The tracker also says
//! how long to wait before the next poll.

use vstd::prelude::*;
use crate::cider::types::NowPlayingInfo;
use crate::mpris::metadata::{
    build_metadata_map, entries_view, identity_of, metadata_of, same_identity, track_identity,
    MetadataEntry, MetadataKey, MetadataValueView, TrackIdentity, TrackIdentityView,
};
use crate::mpris::player::{LoopStatus, PlaybackStatus, PlayerState};

verus! {

/// The well-known bus name the bridge owns while Cider plays something.
pub const MPRIS_BUS_NAME: &'static str = "org.mpris.MediaPlayer2.cider-mpris";

/// The object path of the MPRIS interfaces.
pub const MPRIS_OBJECT_PATH: &'static str = "/org/mpris/MediaPlayer2";

/// The MPRIS player interface, whose properties the signals announce.
pub const PLAYER_INTERFACE: &'static str = "org.mpris.MediaPlayer2.Player";

/// Milliseconds between polls while Cider answers.
pub const ACTIVE_POLL_INTERVAL_MS: u64 = 500;

/// Milliseconds between polls while Cider does not answer.
pub const RETRY_POLL_INTERVAL_MS: u64 = 2000;

/// Milliseconds to wait for Cider's answer to the is-playing query before
/// counting Cider as unavailable.
pub const IS_PLAYING_TIMEOUT_MS: u64 = 2000;

/// A property of the MPRIS player interface, with its new value.
#[derive(Debug, Clone)]
pub enum PropertyChange {
    PlaybackStatus(PlaybackStatus),
    /// The position, in microseconds, announced when the status changes.
    Position(i64),
    Metadata(Vec<MetadataEntry>),
    LoopStatus(LoopStatus),
    Shuffle(bool),
}

pub enum PropertyChangeView {
    PlaybackStatus(PlaybackStatus),
    Position(i64),
    Metadata(Seq<(MetadataKey, MetadataValueView)>),
    LoopStatus(LoopStatus),
    Shuffle(bool),
}

impl View for PropertyChange {
    type V = PropertyChangeView;

    open spec fn view(&self) -> PropertyChangeView {
        match self {
            PropertyChange::PlaybackStatus(s) => PropertyChangeView::PlaybackStatus(*s),
            PropertyChange::Position(p) => PropertyChangeView::Position(*p),
            PropertyChange::Metadata(m) => PropertyChangeView::Metadata(entries_view(m@)),
            PropertyChange::LoopStatus(l) => PropertyChangeView::LoopStatus(*l),
            PropertyChange::Shuffle(b) => PropertyChangeView::Shuffle(*b),
        }
    }
}

impl PropertyChange {
    /// The name of the changed property on the MPRIS player interface.
    pub open spec fn property_name(self) -> Seq<char> {
        match self {
            PropertyChange::PlaybackStatus(_) => "PlaybackStatus"@,
            PropertyChange::Position(_) => "Position"@,
            PropertyChange::Metadata(_) => "Metadata"@,
            PropertyChange::LoopStatus(_) => "LoopStatus"@,
            PropertyChange::Shuffle(_) => "Shuffle"@,
        }
    }

    pub fn name(&self) -> (s: &'static str)
        ensures
            s@ == self.property_name(),
    {
        match self {
            PropertyChange::PlaybackStatus(_) => "PlaybackStatus",
            PropertyChange::Position(_) => "Position",
            PropertyChange::Metadata(_) => "Metadata",
            PropertyChange::LoopStatus(_) => "LoopStatus",
            PropertyChange::Shuffle(_) => "Shuffle",
        }
    }
}

/// What the loop does after a transition, in the order given.
#[derive(Debug, Clone)]
pub enum BridgeAction {
    /// Emit `PropertiesChanged` for this property.
    Emit(PropertyChange),
    /// Request the well-known MPRIS bus name.
    RequestName,
    /// Release the well-known MPRIS bus name.
    ReleaseName,
}

pub enum BridgeActionView {
    Emit(PropertyChangeView),
    RequestName,
    ReleaseName,
}

impl View for BridgeAction {
    type V = BridgeActionView;

    open spec fn view(&self) -> BridgeActionView {
        match self {
            BridgeAction::Emit(p) => BridgeActionView::Emit(p@),
            BridgeAction::RequestName => BridgeActionView::RequestName,
            BridgeAction::ReleaseName => BridgeActionView::ReleaseName,
        }
    }
}

pub open spec fn actions_view(actions: Seq<BridgeAction>) -> Seq<BridgeActionView> {
    actions.map_values(|a: BridgeAction| a@)
}

/// The loop's memory between polls.
pub struct BridgeTracker {
    /// Whether Cider answered the last is-playing query.
    pub cider_available: bool,
    /// Whether the bridge holds the well-known MPRIS bus name.
    pub name_owned: bool,
    /// The playback status last announced.
    pub prev_status: Option<PlaybackStatus>,
    /// The identity of the track whose metadata was last announced.
    pub prev_metadata: Option<TrackIdentity>,
    /// The repeat mode whose loop status was last announced.
    pub prev_repeat_mode: Option<u8>,
    /// The shuffle mode whose shuffle flag was last announced.
    pub prev_shuffle_mode: Option<u8>,
}

pub struct TrackerView {
    pub cider_available: bool,
    pub name_owned: bool,
    pub prev_status: Option<PlaybackStatus>,
    pub prev_metadata: Option<TrackIdentityView>,
    pub prev_repeat_mode: Option<u8>,
    pub prev_shuffle_mode: Option<u8>,
}

impl View for BridgeTracker {
    type V = TrackerView;

    open spec fn view(&self) -> TrackerView {
        TrackerView {
            cider_available: self.cider_available,
            name_owned: self.name_owned,
            prev_status: self.prev_status,
            prev_metadata: match self.prev_metadata {
                Some(k) => Some(k@),
                None => None,
            },
            prev_repeat_mode: self.prev_repeat_mode,
            prev_shuffle_mode: self.prev_shuffle_mode,
        }
    }
}

/// The part of [`PlayerState`] the transitions decide: all of it but the
/// clock reading of the position snapshot.
pub struct PlayerModel {
    pub playback_status: PlaybackStatus,
    pub now_playing: Option<NowPlayingInfo>,
    pub position_snapshot_us: i64,
    pub repeat_mode: u8,
    pub shuffle_mode: u8,
}

pub open spec fn model_of(s: PlayerState) -> PlayerModel {
    PlayerModel {
        playback_status: s.playback_status,
        now_playing: s.now_playing,
        position_snapshot_us: s.position_snapshot_us,
        repeat_mode: s.repeat_mode,
        shuffle_mode: s.shuffle_mode,
    }
}


/// The tracker at start-up: Cider presumed available, no bus name, nothing
/// announced.
pub open spec fn initial_tracker() -> TrackerView {
    TrackerView {
        cider_available: true,
        name_owned: false,
        prev_status: None,
        prev_metadata: None,
        prev_repeat_mode: None,
        prev_shuffle_mode: None,
    }
}

/// Milliseconds until the next poll: the active interval while Cider
/// answers, the retry interval while it does not.
pub open spec fn poll_delay(t: TrackerView) -> u64 {
    if t.cider_available {
        ACTIVE_POLL_INTERVAL_MS
    } else {
        RETRY_POLL_INTERVAL_MS
    }
}

/// The player shows something: it is not stopped, or has a track.
pub open spec fn shows_something(s: PlayerModel) -> bool {
    s.playback_status != PlaybackStatus::Stopped || s.now_playing is Some
}

/// The player stopped and emptied.
pub open spec fn stopped(s: PlayerModel) -> PlayerModel {
    PlayerModel { playback_status: PlaybackStatus::Stopped, now_playing: None, ..s }
}

/// The signals of a status change: the new status, then the position.
pub open spec fn status_signals(status: PlaybackStatus, position_us: i64) -> Seq<BridgeActionView> {
    seq![
        BridgeActionView::Emit(PropertyChangeView::PlaybackStatus(status)),
        BridgeActionView::Emit(PropertyChangeView::Position(position_us)),
    ]
}

/// The signals that clear the player `s`: status `Stopped` with its
/// position, then empty metadata.
pub open spec fn clear_signals(s: PlayerModel) -> Seq<BridgeActionView> {
    status_signals(PlaybackStatus::Stopped, s.position_snapshot_us) + seq![
        BridgeActionView::Emit(PropertyChangeView::Metadata(seq![])),
    ]
}

/// The tracker after the player was cleared: stopped announced, nothing
/// else remembered.
pub open spec fn after_clear(t: TrackerView) -> TrackerView {
    TrackerView {
        prev_status: Some(PlaybackStatus::Stopped),
        prev_metadata: None,
        prev_repeat_mode: None,
        prev_shuffle_mode: None,
        ..t
    }
}

/// Cider did not answer the is-playing query (an error or a timeout).
///
/// On the first failure after Cider was available: the player is cleared
/// (signalled only when it showed something), the bus name is released if
/// held, and the tracker remembers `Stopped` as announced. Later failures
/// change nothing and do nothing.
pub open spec fn unavailable_step(t: TrackerView, s: PlayerModel) -> (TrackerView, PlayerModel, Seq<BridgeActionView>) {
    if t.cider_available {
        let should = shows_something(s);
        let s2 = if should { stopped(s) } else { s };
        let signals = if should { clear_signals(s) } else { seq![] };
        let release = if t.name_owned { seq![BridgeActionView::ReleaseName] } else { seq![] };
        let t2 = after_clear(TrackerView { cider_available: false, name_owned: false, ..t });
        (t2, s2, signals + release)
    } else {
        (t, s, seq![])
    }
}

/// Cider reported that nothing is playing.
///
/// The bus name is released if held. When the player showed something it is
/// cleared, signalled, and the tracker remembers `Stopped` as announced.
pub open spec fn idle_step(t: TrackerView, s: PlayerModel) -> (TrackerView, PlayerModel, Seq<BridgeActionView>) {
    let release = if t.name_owned { seq![BridgeActionView::ReleaseName] } else { seq![] };
    let t1 = TrackerView { name_owned: false, ..t };
    if shows_something(s) {
        (after_clear(t1), stopped(s), release + clear_signals(s))
    } else {
        (t1, s, release)
    }
}

/// The status Cider's is-playing answer stands for.
pub open spec fn status_for(playing: bool) -> PlaybackStatus {
    if playing {
        PlaybackStatus::Playing
    } else {
        PlaybackStatus::Paused
    }
}

/// The player after Cider reported `info` playing (or paused, by `playing`).
pub open spec fn with_track(s: PlayerModel, playing: bool, info: NowPlayingInfo) -> PlayerModel {
    PlayerModel {
        playback_status: status_for(playing),
        now_playing: Some(info),
        position_snapshot_us: info.current_playback_time_us,
        repeat_mode: info.repeat_mode,
        shuffle_mode: info.shuffle_mode,
    }
}

/// The bus name request made before taking in a track: one exactly when
/// the name is not held.
pub open spec fn name_request(t: TrackerView) -> Seq<BridgeActionView> {
    if t.name_owned {
        seq![]
    } else {
        seq![BridgeActionView::RequestName]
    }
}

/// Cider reported `info` and whether it is playing.
///
/// First the bus name is requested if not held (the outcome is recorded by
/// [`BridgeTracker::on_name_request`]). The player takes the new status,
/// track, position and modes. Then status (with the position), metadata,
/// loop status and shuffle are each signalled, in that order, when they
/// differ from what was last announced; the metadata counts as changed when
/// the track's title, artist, album, artwork URL or length did. Afterwards
/// the tracker has all four as announced.
pub open spec fn track_step(t: TrackerView, s: PlayerModel, playing: bool, info: NowPlayingInfo) -> (TrackerView, PlayerModel, Seq<BridgeActionView>) {
    let status = status_for(playing);
    let id = identity_of(info);
    let a1 = if t.prev_status != Some(status) {
        status_signals(status, info.current_playback_time_us)
    } else {
        seq![]
    };
    let a2 = if t.prev_metadata != Some(id) {
        seq![BridgeActionView::Emit(PropertyChangeView::Metadata(metadata_of(Some(info))))]
    } else {
        seq![]
    };
    let a3 = if t.prev_repeat_mode != Some(info.repeat_mode) {
        seq![BridgeActionView::Emit(PropertyChangeView::LoopStatus(LoopStatus::of_repeat_mode(info.repeat_mode)))]
    } else {
        seq![]
    };
    let a4 = if t.prev_shuffle_mode != Some(info.shuffle_mode) {
        seq![BridgeActionView::Emit(PropertyChangeView::Shuffle(info.shuffle_mode != 0))]
    } else {
        seq![]
    };
    let t2 = TrackerView {
        prev_status: Some(status),
        prev_metadata: Some(id),
        prev_repeat_mode: Some(info.repeat_mode),
        prev_shuffle_mode: Some(info.shuffle_mode),
        ..t
    };
    (t2, with_track(s, playing, info), name_request(t) + a1 + a2 + a3 + a4)
}

/// Pushes the signals of a status change.
fn push_status_signals(actions: &mut Vec<BridgeAction>, status: PlaybackStatus, position_us: i64)
    ensures
        actions_view(final(actions)@) == actions_view(old(actions)@) + status_signals(status, position_us),
{
    let ghost before = actions@;
    actions.push(BridgeAction::Emit(PropertyChange::PlaybackStatus(status)));
    actions.push(BridgeAction::Emit(PropertyChange::Position(position_us)));
    assert(actions_view(actions@) =~= actions_view(before) + status_signals(status, position_us));
}

/// Clears the player, pushing the signals that announce it when it showed
/// something; returns whether it did.
fn clear_player(state: &mut PlayerState, actions: &mut Vec<BridgeAction>) -> (cleared: bool)
    ensures
        cleared == shows_something(model_of(*old(state))),
        model_of(*final(state)) == (if cleared { stopped(model_of(*old(state))) } else { model_of(*old(state)) }),
        final(state).position_snapshot_at == old(state).position_snapshot_at,
        actions_view(final(actions)@) == actions_view(old(actions)@) + (if cleared {
            clear_signals(model_of(*old(state)))
        } else {
            seq![]
        }),
{
    let ghost before = actions@;
    let should = state.playback_status != PlaybackStatus::Stopped || state.now_playing.is_some();
    if should {
        state.playback_status = PlaybackStatus::Stopped;
        state.now_playing = None;
        push_status_signals(actions, PlaybackStatus::Stopped, state.position_snapshot_us);
        let ghost mid = actions@;
        let empty: Vec<MetadataEntry> = Vec::new();
        assert(entries_view(empty@) =~= seq![]);
        actions.push(BridgeAction::Emit(PropertyChange::Metadata(empty)));
        assert(actions_view(actions@) =~= actions_view(mid) + seq![
            BridgeActionView::Emit(PropertyChangeView::Metadata(seq![])),
        ]);
    }
    assert(actions_view(actions@) =~= actions_view(before) + (if should {
        clear_signals(model_of(*old(state)))
    } else {
        seq![]
    }));
    should
}

impl BridgeTracker {
    /// The tracker at start-up.
    pub fn new() -> (t: BridgeTracker)
        ensures
            t@ == initial_tracker(),
    {
        BridgeTracker {
            cider_available: true,
            name_owned: false,
            prev_status: None,
            prev_metadata: None,
            prev_repeat_mode: None,
            prev_shuffle_mode: None,
        }
    }

    /// Milliseconds to wait before the next poll. See [`poll_delay`].
    pub fn poll_delay_ms(&self) -> (ms: u64)
        ensures
            ms == poll_delay(self@),
    {
        if self.cider_available {
            ACTIVE_POLL_INTERVAL_MS
        } else {
            RETRY_POLL_INTERVAL_MS
        }
    }

    /// Cider did not answer the is-playing query. See [`unavailable_step`].
    pub fn on_unavailable(&mut self, state: &mut PlayerState) -> (actions: Vec<BridgeAction>)
        ensures
            (final(self)@, model_of(*final(state)), actions_view(actions@))
                == unavailable_step(old(self)@, model_of(*old(state))),
            final(state).position_snapshot_at == old(state).position_snapshot_at,
    {
        let mut actions: Vec<BridgeAction> = Vec::new();
        if self.cider_available {
            self.cider_available = false;
            clear_player(state, &mut actions);
            if self.name_owned {
                actions.push(BridgeAction::ReleaseName);
                self.name_owned = false;
            }
            self.prev_status = Some(PlaybackStatus::Stopped);
            self.prev_metadata = None;
            self.prev_repeat_mode = None;
            self.prev_shuffle_mode = None;
        }
        proof {
            let (t2, s2, a2) = unavailable_step(old(self)@, model_of(*old(state)));
            assert(actions_view(actions@) =~= a2);
        }
        actions
    }

    /// Cider answered the is-playing query; returns whether it had been
    /// unavailable until now.
    pub fn on_responded(&mut self) -> (recovered: bool)
        ensures
            recovered == !old(self).cider_available,
            final(self)@ == (TrackerView { cider_available: true, ..old(self)@ }),
    {
        let recovered = !self.cider_available;
        self.cider_available = true;
        recovered
    }

    /// Records the outcome of a bus name request.
    pub fn on_name_request(&mut self, acquired: bool)
        requires
            !old(self).name_owned,
        ensures
            final(self)@ == (TrackerView { name_owned: acquired, ..old(self)@ }),
    {
        self.name_owned = acquired;
    }

    /// Cider reported that nothing is playing. See [`idle_step`].
    pub fn on_nothing_playing(&mut self, state: &mut PlayerState) -> (actions: Vec<BridgeAction>)
        ensures
            (final(self)@, model_of(*final(state)), actions_view(actions@))
                == idle_step(old(self)@, model_of(*old(state))),
            final(state).position_snapshot_at == old(state).position_snapshot_at,
    {
        let mut actions: Vec<BridgeAction> = Vec::new();
        if self.name_owned {
            actions.push(BridgeAction::ReleaseName);
            self.name_owned = false;
        }
        let should = clear_player(state, &mut actions);
        if should {
            self.prev_status = Some(PlaybackStatus::Stopped);
            self.prev_metadata = None;
            self.prev_repeat_mode = None;
            self.prev_shuffle_mode = None;
        }
        proof {
            let (t2, s2, a2) = idle_step(old(self)@, model_of(*old(state)));
            assert(actions_view(actions@) =~= a2);
        }
        actions
    }

    /// Cider reported `info`, playing or paused by `playing`. See
    /// [`track_step`]. The position snapshot is stamped with the clock.
    #[verifier::rlimit(30)]
    pub fn on_track(&mut self, state: &mut PlayerState, playing: bool, info: NowPlayingInfo) -> (actions: Vec<BridgeAction>)
        requires
            info.length_fits(),
        ensures
            (final(self)@, model_of(*final(state)), actions_view(actions@))
                == track_step(old(self)@, model_of(*old(state)), playing, info),
    {
        let ghost t0 = old(self)@;
        let ghost info0 = info;
        let mut actions: Vec<BridgeAction> = Vec::new();
        if !self.name_owned {
            actions.push(BridgeAction::RequestName);
        }
        assert(actions_view(actions@) =~= name_request(t0));
        let status = if playing {
            PlaybackStatus::Playing
        } else {
            PlaybackStatus::Paused
        };
        let repeat_mode = info.repeat_mode;
        let shuffle_mode = info.shuffle_mode;
        let position_us = info.current_playback_time_us;
        let id = track_identity(&info);
        let metadata_changed = match &self.prev_metadata {
            Some(k) => !same_identity(k, &id),
            None => true,
        };
        let status_changed = match self.prev_status {
            Some(p) => p != status,
            None => true,
        };
        state.playback_status = status;
        state.position_snapshot_us = position_us;
        state.now_playing = Some(info);
        state.position_snapshot_at = crate::mpris::player::instant_now();
        state.repeat_mode = repeat_mode;
        state.shuffle_mode = shuffle_mode;
        let metadata = build_metadata_map(state);

        let ghost g1 = actions@;
        if status_changed {
            push_status_signals(&mut actions, status, position_us);
            self.prev_status = Some(status);
        }
        assert(actions_view(actions@) =~= actions_view(g1) + (if t0.prev_status != Some(status) {
            status_signals(status, position_us)
        } else {
            seq![]
        }));
        let ghost g2 = actions@;
        if metadata_changed {
            actions.push(BridgeAction::Emit(PropertyChange::Metadata(metadata)));
            self.prev_metadata = Some(id);
        }
        assert(actions_view(actions@) =~= actions_view(g2) + (if t0.prev_metadata != Some(identity_of(info0)) {
            seq![BridgeActionView::Emit(PropertyChangeView::Metadata(metadata_of(Some(info0))))]
        } else {
            seq![]
        }));
        let current_repeat = state.repeat_mode;
        let current_shuffle = state.shuffle_mode;
        let repeat_changed = match self.prev_repeat_mode {
            Some(m) => m != current_repeat,
            None => true,
        };
        let ghost g3 = actions@;
        if repeat_changed {
            actions.push(BridgeAction::Emit(PropertyChange::LoopStatus(LoopStatus::from_repeat_mode(current_repeat))));
            self.prev_repeat_mode = Some(current_repeat);
        }
        assert(actions_view(actions@) =~= actions_view(g3) + (if t0.prev_repeat_mode != Some(repeat_mode) {
            seq![BridgeActionView::Emit(PropertyChangeView::LoopStatus(LoopStatus::of_repeat_mode(repeat_mode)))]
        } else {
            seq![]
        }));
        let shuffle_changed = match self.prev_shuffle_mode {
            Some(m) => m != current_shuffle,
            None => true,
        };
        let ghost g4 = actions@;
        if shuffle_changed {
            actions.push(BridgeAction::Emit(PropertyChange::Shuffle(current_shuffle != 0)));
            self.prev_shuffle_mode = Some(current_shuffle);
        }
        assert(actions_view(actions@) =~= actions_view(g4) + (if t0.prev_shuffle_mode != Some(shuffle_mode) {
            seq![BridgeActionView::Emit(PropertyChangeView::Shuffle(shuffle_mode != 0))]
        } else {
            seq![]
        }));
        proof {
            let (t2, s2, a2) = track_step(t0, model_of(*old(state)), playing, info0);
            assert(actions_view(actions@) =~= a2);
            assert(self@ == t2);
        }
        actions
    }
}

/// Every value remembered as announced is the player's current value.
pub open spec fn announced_matches(t: TrackerView, s: PlayerModel) -> bool {
    &&& (t.prev_status matches Some(st) ==> st == s.playback_status)
    &&& (t.prev_metadata matches Some(k) ==> (s.now_playing matches Some(info) && k
        == identity_of(info)))
    &&& (t.prev_repeat_mode matches Some(m) ==> m == s.repeat_mode)
    &&& (t.prev_shuffle_mode matches Some(m) ==> m == s.shuffle_mode)
}

/// Every signal in `actions` carries the player's current value of its
/// property (the position being the fresh snapshot).
pub open spec fn signals_agree(actions: Seq<BridgeActionView>, s: PlayerModel) -> bool {
    forall|i: int|
        0 <= i < actions.len() ==> match #[trigger] actions[i] {
            BridgeActionView::Emit(PropertyChangeView::PlaybackStatus(st)) => st == s.playback_status,
            BridgeActionView::Emit(PropertyChangeView::Position(p)) => p == s.position_snapshot_us,
            BridgeActionView::Emit(PropertyChangeView::Metadata(m)) => m == metadata_of(s.now_playing),
            BridgeActionView::Emit(PropertyChangeView::LoopStatus(l)) => l == LoopStatus::of_repeat_mode(
                s.repeat_mode,
            ),
            BridgeActionView::Emit(PropertyChangeView::Shuffle(b)) => b == (s.shuffle_mode != 0),
            _ => true,
        }
}

/// What the bridge remembers as announced always agrees with the player:
/// it holds at start-up, and every transition of the loop keeps it.
pub proof fn lemma_announcements_follow_player(t: TrackerView, s: PlayerModel, playing: bool, info: NowPlayingInfo, acquired: bool)
    requires
        announced_matches(t, s),
    ensures
        announced_matches(initial_tracker(), s),
        announced_matches(unavailable_step(t, s).0, unavailable_step(t, s).1),
        announced_matches(idle_step(t, s).0, idle_step(t, s).1),
        announced_matches(track_step(t, s, playing, info).0, track_step(t, s, playing, info).1),
        announced_matches(TrackerView { cider_available: true, ..t }, s),
        announced_matches(TrackerView { name_owned: acquired, ..t }, s),
{
}

/// Every signal the loop emits carries the value the player has after the
/// transition: D-Bus clients are told the player's actual properties.
pub proof fn lemma_signals_carry_new_values(t: TrackerView, s: PlayerModel, playing: bool, info: NowPlayingInfo)
    ensures
        signals_agree(unavailable_step(t, s).2, unavailable_step(t, s).1),
        signals_agree(idle_step(t, s).2, idle_step(t, s).1),
        signals_agree(track_step(t, s, playing, info).2, track_step(t, s, playing, info).1),
{
    let (t1, s1, a1) = unavailable_step(t, s);
    assert(metadata_of(s1.now_playing) =~= seq![] || !t.cider_available || !shows_something(s));
    let (t2, s2, a2) = idle_step(t, s);
    assert(metadata_of(s2.now_playing) =~= seq![] || !shows_something(s));
}

/// After a track update every property is announced: the tracker remembers
/// exactly the player's status, track, repeat mode and shuffle mode.
pub proof fn lemma_track_update_brings_clients_up_to_date(t: TrackerView, s: PlayerModel, playing: bool, info: NowPlayingInfo)
    ensures
        ({
            let (t2, s2, a) = track_step(t, s, playing, info);
            &&& t2.prev_status == Some(s2.playback_status)
            &&& t2.prev_metadata == Some(identity_of(info))
            &&& s2.now_playing == Some(info)
            &&& t2.prev_repeat_mode == Some(s2.repeat_mode)
            &&& t2.prev_shuffle_mode == Some(s2.shuffle_mode)
            &&& t2.cider_available == t.cider_available
            &&& t2.name_owned == t.name_owned
        }),
{
}

/// Signals go out only on change: polling a player whose track and status
/// did not change emits no signal and changes nothing; all it may do is ask
/// again for a bus name that is still not held.
pub proof fn lemma_steady_track_is_quiet(t: TrackerView, s: PlayerModel, playing: bool, info: NowPlayingInfo)
    ensures
        ({
            let (t2, s2, a) = track_step(t, s, playing, info);
            track_step(t2, s2, playing, info) == (t2, s2, name_request(t2))
        }),
{
    let (t2, s2, a) = track_step(t, s, playing, info);
    let (t3, s3, a3) = track_step(t2, s2, playing, info);
    assert(a3 =~= name_request(t2));
}

/// The metadata is re-announced exactly when the published metadata
/// changes: once a track's metadata is announced, reporting another track
/// signals metadata iff its metadata map differs.
pub proof fn lemma_metadata_announced_on_change(t: TrackerView, s: PlayerModel, playing: bool, info: NowPlayingInfo, next: NowPlayingInfo)
    ensures
        ({
            let (t2, s2, a) = track_step(t, s, playing, info);
            let (t3, s3, a3) = track_step(t2, s2, playing, next);
            a3.contains(BridgeActionView::Emit(PropertyChangeView::Metadata(metadata_of(Some(next)))))
                <==> metadata_of(Some(next)) != metadata_of(Some(info))
        }),
{
    crate::mpris::metadata::lemma_identity_decides_metadata(info, next);
    let (t2, s2, a) = track_step(t, s, playing, info);
    let (t3, s3, a3) = track_step(t2, s2, playing, next);
    let m = BridgeActionView::Emit(PropertyChangeView::Metadata(metadata_of(Some(next))));
    let n = name_request(t2).len() as int;
    if metadata_of(Some(next)) != metadata_of(Some(info)) {
        assert(a3[n] == m);
    } else {
        assert forall|i: int| 0 <= i < a3.len() implies a3[i] != m by {
            if t2.prev_repeat_mode != Some(next.repeat_mode) || t2.prev_shuffle_mode != Some(next.shuffle_mode) {
            }
        }
    }
}

/// Cider going away is announced once: while it stays unavailable, later
/// failed polls emit nothing and change nothing.
pub proof fn lemma_unavailability_announced_once(t: TrackerView, s: PlayerModel)
    ensures
        ({
            let (t2, s2, a) = unavailable_step(t, s);
            unavailable_step(t2, s2) == (t2, s2, Seq::<BridgeActionView>::empty())
        }),
{
}

/// "Nothing playing" is announced once: reported again, it emits nothing
/// and changes nothing.
pub proof fn lemma_idle_announced_once(t: TrackerView, s: PlayerModel)
    ensures
        ({
            let (t2, s2, a) = idle_step(t, s);
            idle_step(t2, s2) == (t2, s2, Seq::<BridgeActionView>::empty())
        }),
{
    let (t2, s2, a) = idle_step(t, s);
    let (t3, s3, a3) = idle_step(t2, s2);
    assert(a3 =~= Seq::<BridgeActionView>::empty());
    assert(t3 == t2);
}

/// When Cider becomes unavailable, or reports nothing playing, the player
/// is left stopped and empty and the bus name is given up, so desktop
/// widgets hide the player; the name is released exactly when it was held.
/// While Cider is unavailable the loop waits the longer retry interval.
pub proof fn lemma_player_hidden_without_music(t: TrackerView, s: PlayerModel)
    ensures
        t.cider_available ==> ({
            let (t2, s2, a) = unavailable_step(t, s);
            &&& s2.playback_status == PlaybackStatus::Stopped
            &&& s2.now_playing is None
            &&& !t2.name_owned
            &&& !t2.cider_available
            &&& poll_delay(t2) == RETRY_POLL_INTERVAL_MS
            &&& (a.contains(BridgeActionView::ReleaseName) <==> t.name_owned)
        }),
        ({
            let (t2, s2, a) = idle_step(t, s);
            &&& s2.playback_status == PlaybackStatus::Stopped
            &&& s2.now_playing is None
            &&& !t2.name_owned
            &&& t2.cider_available == t.cider_available
            &&& (a.contains(BridgeActionView::ReleaseName) <==> t.name_owned)
        }),
{
    let (t1, s1, a1) = unavailable_step(t, s);
    if t.cider_available && t.name_owned {
        assert(a1[a1.len() - 1] == BridgeActionView::ReleaseName);
    }
    if t.cider_available && !t.name_owned {
        assert forall|i: int| 0 <= i < a1.len() implies a1[i] != BridgeActionView::ReleaseName by {
            if shows_something(s) {
                assert(a1 =~= clear_signals(s));
            }
        }
    }
    let (t2, s2, a2) = idle_step(t, s);
    if t.name_owned {
        assert(a2[0] == BridgeActionView::ReleaseName);
    } else {
        assert forall|i: int| 0 <= i < a2.len() implies a2[i] != BridgeActionView::ReleaseName by {
            if shows_something(s) {
                assert(a2 =~= clear_signals(s));
            }
        }
    }
}

/// While Cider is unavailable the player is stopped and empty and the bus
/// name is not held.
pub open spec fn hidden_while_unavailable(t: TrackerView, s: PlayerModel) -> bool {
    !t.cider_available ==> (s.playback_status == PlaybackStatus::Stopped && s.now_playing is None
        && !t.name_owned)
}

/// The player stays hidden for as long as Cider is unavailable: the loop
/// keeps [`hidden_while_unavailable`] in every transition it makes (it
/// takes in tracks, "nothing playing" and name requests only after Cider
/// answered).
pub proof fn lemma_hidden_while_unavailable(t: TrackerView, s: PlayerModel, playing: bool, info: NowPlayingInfo, acquired: bool)
    requires
        hidden_while_unavailable(t, s),
    ensures
        hidden_while_unavailable(initial_tracker(), s),
        hidden_while_unavailable(unavailable_step(t, s).0, unavailable_step(t, s).1),
        hidden_while_unavailable(TrackerView { cider_available: true, ..t }, s),
        t.cider_available ==> hidden_while_unavailable(idle_step(t, s).0, idle_step(t, s).1),
        t.cider_available ==> hidden_while_unavailable(
            track_step(t, s, playing, info).0,
            track_step(t, s, playing, info).1,
        ),
        t.cider_available ==> hidden_while_unavailable(TrackerView { name_owned: acquired, ..t }, s),
{
}

/// When Cider comes back, the first track it reports asks for the bus name
/// again and is announced in full: status with position, metadata, loop
/// status and shuffle, in that order; polling goes back to the active
/// interval.
pub proof fn lemma_recovery_announces_everything(t: TrackerView, s: PlayerModel, playing: bool, info: NowPlayingInfo)
    requires
        t.cider_available,
    ensures
        ({
            let (t1, s1, a1) = unavailable_step(t, s);
            let t2 = TrackerView { cider_available: true, ..t1 };
            &&& poll_delay(t2) == ACTIVE_POLL_INTERVAL_MS
            &&& track_step(t2, s1, playing, info).2 == seq![
                BridgeActionView::RequestName,
                BridgeActionView::Emit(PropertyChangeView::PlaybackStatus(status_for(playing))),
                BridgeActionView::Emit(PropertyChangeView::Position(info.current_playback_time_us)),
                BridgeActionView::Emit(PropertyChangeView::Metadata(metadata_of(Some(info)))),
                BridgeActionView::Emit(PropertyChangeView::LoopStatus(LoopStatus::of_repeat_mode(info.repeat_mode))),
                BridgeActionView::Emit(PropertyChangeView::Shuffle(info.shuffle_mode != 0)),
            ]
        }),
{
    let (t1, s1, a1) = unavailable_step(t, s);
    let t2 = TrackerView { cider_available: true, ..t1 };
    let (t3, s3, a3) = track_step(t2, s1, playing, info);
    assert(a3 =~= seq![
        BridgeActionView::RequestName,
        BridgeActionView::Emit(PropertyChangeView::PlaybackStatus(status_for(playing))),
        BridgeActionView::Emit(PropertyChangeView::Position(info.current_playback_time_us)),
        BridgeActionView::Emit(PropertyChangeView::Metadata(metadata_of(Some(info)))),
        BridgeActionView::Emit(PropertyChangeView::LoopStatus(LoopStatus::of_repeat_mode(info.repeat_mode))),
        BridgeActionView::Emit(PropertyChangeView::Shuffle(info.shuffle_mode != 0)),
    ]);
}

/// Whether an action is a playback-status signal.
pub open spec fn is_status_signal(a: BridgeActionView) -> bool {
    a matches BridgeActionView::Emit(PropertyChangeView::PlaybackStatus(_))
}

/// A track update announces the playback status exactly when it differs
/// from the last one announced: then the new status (Playing when Cider
/// plays, Paused otherwise) goes out together with the reported position,
/// whatever the previous status was; otherwise no status signal goes out.
/// Either way the player and the tracker end with the new status.
pub proof fn lemma_status_announced_iff_changed(t: TrackerView, s: PlayerModel, playing: bool, info: NowPlayingInfo)
    ensures
        ({
            let new_status = if playing { PlaybackStatus::Playing } else { PlaybackStatus::Paused };
            let (t2, s2, a) = track_step(t, s, playing, info);
            &&& t.prev_status != Some(new_status) ==> {
                &&& a.contains(BridgeActionView::Emit(PropertyChangeView::PlaybackStatus(new_status)))
                &&& a.contains(BridgeActionView::Emit(PropertyChangeView::Position(info.current_playback_time_us)))
            }
            &&& t.prev_status == Some(new_status) ==> forall|i: int| 0 <= i < a.len() ==> !is_status_signal(#[trigger] a[i])
            &&& forall|i: int| 0 <= i < a.len() && is_status_signal(#[trigger] a[i]) ==> a[i]
                == BridgeActionView::Emit(PropertyChangeView::PlaybackStatus(new_status))
            &&& s2.playback_status == new_status
            &&& t2.prev_status == Some(new_status)
        }),
{
    let new_status = if playing { PlaybackStatus::Playing } else { PlaybackStatus::Paused };
    let (t2, s2, a) = track_step(t, s, playing, info);
    let n = name_request(t).len() as int;
    if t.prev_status != Some(new_status) {
        assert(a[n] == BridgeActionView::Emit(PropertyChangeView::PlaybackStatus(new_status)));
        assert(a[n + 1] == BridgeActionView::Emit(PropertyChangeView::Position(info.current_playback_time_us)));
    }
}

/// The first failed poll after Cider was available stops and empties the
/// player; when the player showed anything (a status other than Stopped,
/// or a track), it announces `Stopped` and empty metadata, whatever the
/// previous status and whether the bus name was held. When it showed
/// nothing, no signal goes out.
pub proof fn lemma_unavailable_announces_stop(t: TrackerView, s: PlayerModel)
    requires
        t.cider_available,
    ensures
        ({
            let (t2, s2, a) = unavailable_step(t, s);
            let showed = s.playback_status != PlaybackStatus::Stopped || s.now_playing is Some;
            &&& s2.playback_status == PlaybackStatus::Stopped
            &&& s2.now_playing is None
            &&& t2.prev_status == Some(PlaybackStatus::Stopped)
            &&& showed ==> {
                &&& a.contains(BridgeActionView::Emit(PropertyChangeView::PlaybackStatus(PlaybackStatus::Stopped)))
                &&& a.contains(BridgeActionView::Emit(PropertyChangeView::Metadata(seq![])))
            }
            &&& !showed ==> forall|i: int| 0 <= i < a.len() ==> !(#[trigger] a[i] is Emit)
        }),
{
    let (t2, s2, a) = unavailable_step(t, s);
    if s.playback_status != PlaybackStatus::Stopped || s.now_playing is Some {
        assert(a[0] == BridgeActionView::Emit(PropertyChangeView::PlaybackStatus(PlaybackStatus::Stopped)));
        assert(a[2] == BridgeActionView::Emit(PropertyChangeView::Metadata(seq![])));
    }
}

/// "Nothing playing" stops and empties the player; when the player showed
/// anything it announces `Stopped` and empty metadata, whatever the
/// previous status and whether the bus name was held. When it showed
/// nothing, no signal goes out.
pub proof fn lemma_idle_announces_stop(t: TrackerView, s: PlayerModel)
    ensures
        ({
            let (t2, s2, a) = idle_step(t, s);
            let showed = s.playback_status != PlaybackStatus::Stopped || s.now_playing is Some;
            &&& s2.playback_status == PlaybackStatus::Stopped
            &&& s2.now_playing is None
            &&& !t2.name_owned
            &&& showed ==> {
                &&& a.contains(BridgeActionView::Emit(PropertyChangeView::PlaybackStatus(PlaybackStatus::Stopped)))
                &&& a.contains(BridgeActionView::Emit(PropertyChangeView::Metadata(seq![])))
                &&& t2.prev_status == Some(PlaybackStatus::Stopped)
            }
            &&& !showed ==> forall|i: int| 0 <= i < a.len() ==> !(#[trigger] a[i] is Emit)
        }),
{
    let (t2, s2, a) = idle_step(t, s);
    let n: int = if t.name_owned { 1 } else { 0 };
    if s.playback_status != PlaybackStatus::Stopped || s.now_playing is Some {
        assert(a[n] == BridgeActionView::Emit(PropertyChangeView::PlaybackStatus(PlaybackStatus::Stopped)));
        assert(a[n + 2] == BridgeActionView::Emit(PropertyChangeView::Metadata(seq![])));
    }
}

} // verus!
