//! The MPRIS `Metadata` property: the track Cider plays, as key/value
//! entries.

use vstd::prelude::*;
use crate::cider::types::NowPlayingInfo;
use crate::mpris::player::PlayerState;

verus! {

/// The metadata keys the bridge publishes.
#[derive(Debug, Clone, Copy, PartialEq, Eq, Structural)]
pub enum MetadataKey {
    TrackId,
    Length,
    Artist,
    Title,
    Album,
    ArtUrl,
}

impl MetadataKey {
    /// The key's name in the MPRIS metadata map.
    pub open spec fn name(self) -> Seq<char> {
        match self {
            MetadataKey::TrackId => "mpris:trackid"@,
            MetadataKey::Length => "mpris:length"@,
            MetadataKey::Artist => "xesam:artist"@,
            MetadataKey::Title => "xesam:title"@,
            MetadataKey::Album => "xesam:album"@,
            MetadataKey::ArtUrl => "mpris:artUrl"@,
        }
    }

    pub fn as_str(&self) -> (s: &'static str)
        ensures
            s@ == self.name(),
    {
        match self {
            MetadataKey::TrackId => "mpris:trackid",
            MetadataKey::Length => "mpris:length",
            MetadataKey::Artist => "xesam:artist",
            MetadataKey::Title => "xesam:title",
            MetadataKey::Album => "xesam:album",
            MetadataKey::ArtUrl => "mpris:artUrl",
        }
    }
}

/// A metadata value: a string, a 64-bit integer or a list of strings.
#[derive(Debug, Clone)]
pub enum MetadataValue {
    Text(String),
    Integer(i64),
    TextList(Vec<String>),
}

/// The mathematical content of a [`MetadataValue`].
pub enum MetadataValueView {
    Text(Seq<char>),
    Integer(i64),
    TextList(Seq<Seq<char>>),
}

impl View for MetadataValue {
    type V = MetadataValueView;

    open spec fn view(&self) -> MetadataValueView {
        match self {
            MetadataValue::Text(s) => MetadataValueView::Text(s@),
            MetadataValue::Integer(i) => MetadataValueView::Integer(*i),
            MetadataValue::TextList(v) => MetadataValueView::TextList(
                v@.map_values(|s: String| s@),
            ),
        }
    }
}

/// One entry of the metadata map.
#[derive(Debug, Clone)]
pub struct MetadataEntry {
    pub key: MetadataKey,
    pub value: MetadataValue,
}

impl View for MetadataEntry {
    type V = (MetadataKey, MetadataValueView);

    open spec fn view(&self) -> (MetadataKey, MetadataValueView) {
        (self.key, self.value@)
    }
}

/// The entries of a metadata map, by their views.
pub open spec fn entries_view(entries: Seq<MetadataEntry>) -> Seq<(MetadataKey, MetadataValueView)> {
    entries.map_values(|e: MetadataEntry| e@)
}

/// The track id the bridge publishes: MPRIS's "no track" object path, since
/// Cider gives no track list.
pub open spec fn no_track_id() -> Seq<char> {
    "/org/mpris/MediaPlayer2/TrackList/NoTrack"@
}

/// The metadata published for what is playing: nothing when nothing plays;
/// else track id, length, artist list, title and album, then the artwork URL
/// when there is artwork.
pub open spec fn metadata_of(now_playing: Option<NowPlayingInfo>) -> Seq<(MetadataKey, MetadataValueView)> {
    match now_playing {
        None => seq![],
        Some(info) => {
            let base = seq![
                (MetadataKey::TrackId, MetadataValueView::Text(no_track_id())),
                (MetadataKey::Length, MetadataValueView::Integer(info.length_us() as i64)),
                (MetadataKey::Artist, MetadataValueView::TextList(seq![info.artist_name@])),
                (MetadataKey::Title, MetadataValueView::Text(info.name@)),
                (MetadataKey::Album, MetadataValueView::Text(info.album_name@)),
            ];
            match info.artwork {
                Some(art) => base.push((MetadataKey::ArtUrl, MetadataValueView::Text(art.url@))),
                None => base,
            }
        },
    }
}

/// The metadata of a track, with its length known to fit in an `i64`.
pub fn track_metadata(info: &NowPlayingInfo) -> (entries: Vec<MetadataEntry>)
    requires
        info.length_fits(),
    ensures
        entries_view(entries@) == metadata_of(Some(*info)),
{
    let mut entries: Vec<MetadataEntry> = Vec::new();
    entries.push(
        MetadataEntry {
            key: MetadataKey::TrackId,
            value: MetadataValue::Text(String::from_str("/org/mpris/MediaPlayer2/TrackList/NoTrack")),
        },
    );
    let length = (info.duration_in_millis as i64) * 1000;
    entries.push(MetadataEntry { key: MetadataKey::Length, value: MetadataValue::Integer(length) });
    let artists = vec![info.artist_name.clone()];
    entries.push(MetadataEntry { key: MetadataKey::Artist, value: MetadataValue::TextList(artists) });
    entries.push(MetadataEntry { key: MetadataKey::Title, value: MetadataValue::Text(info.name.clone()) });
    entries.push(
        MetadataEntry { key: MetadataKey::Album, value: MetadataValue::Text(info.album_name.clone()) },
    );
    match &info.artwork {
        Some(art) => {
            entries.push(
                MetadataEntry { key: MetadataKey::ArtUrl, value: MetadataValue::Text(art.url.clone()) },
            );
        },
        None => {},
    }
    proof {
        assert(artists@.map_values(|s: String| s@) =~= seq![info.artist_name@]);
        assert(entries_view(entries@) =~= metadata_of(Some(*info)));
    }
    entries
}

/// Builds the MPRIS metadata map of the player's state.
pub fn build_metadata_map(state: &PlayerState) -> (entries: Vec<MetadataEntry>)
    requires
        state.now_playing matches Some(info) ==> info.length_fits(),
    ensures
        entries_view(entries@) == metadata_of(state.now_playing),
{
    match &state.now_playing {
        Some(info) => track_metadata(info),
        None => {
            let entries: Vec<MetadataEntry> = Vec::new();
            assert(entries_view(entries@) =~= seq![]);
            entries
        },
    }
}

/// The published metadata is a map: no key occurs twice. It is empty
/// exactly when nothing is playing, and it names an artwork URL exactly
/// when the track has artwork.
pub proof fn lemma_metadata_is_a_map(now_playing: Option<NowPlayingInfo>)
    ensures
        forall|i: int, j: int|
            0 <= i < j < metadata_of(now_playing).len() ==> #[trigger] metadata_of(now_playing)[i].0
                != #[trigger] metadata_of(now_playing)[j].0,
        (metadata_of(now_playing).len() == 0) <==> now_playing is None,
        now_playing matches Some(info) ==> ((exists|i: int|
            0 <= i < metadata_of(now_playing).len() && #[trigger] metadata_of(now_playing)[i].0
                == MetadataKey::ArtUrl) <==> info.artwork is Some),
{
    let m = metadata_of(now_playing);
    if let Some(info) = now_playing {
        if let Some(art) = info.artwork {
            assert(m[5].0 == MetadataKey::ArtUrl);
        }
    }
}

/// The fields of a track that its published metadata shows: title,
/// artist, album, artwork URL and length. The bridge re-announces the
/// metadata when these change.
#[derive(Debug, Clone)]
pub struct TrackIdentity {
    pub title: String,
    pub artist: String,
    pub album: String,
    pub art_url: Option<String>,
    pub length_us: i64,
}

pub struct TrackIdentityView {
    pub title: Seq<char>,
    pub artist: Seq<char>,
    pub album: Seq<char>,
    pub art_url: Option<Seq<char>>,
    pub length_us: i64,
}

impl View for TrackIdentity {
    type V = TrackIdentityView;

    open spec fn view(&self) -> TrackIdentityView {
        TrackIdentityView {
            title: self.title@,
            artist: self.artist@,
            album: self.album@,
            art_url: match self.art_url {
                Some(u) => Some(u@),
                None => None,
            },
            length_us: self.length_us,
        }
    }
}

/// The identity of a track, by its shown fields.
pub open spec fn identity_of(info: NowPlayingInfo) -> TrackIdentityView {
    TrackIdentityView {
        title: info.name@,
        artist: info.artist_name@,
        album: info.album_name@,
        art_url: match info.artwork {
            Some(art) => Some(art.url@),
            None => None,
        },
        length_us: info.length_us() as i64,
    }
}

/// Computes [`identity_of`].
pub fn track_identity(info: &NowPlayingInfo) -> (id: TrackIdentity)
    requires
        info.length_fits(),
    ensures
        id@ == identity_of(*info),
{
    let art_url = match &info.artwork {
        Some(art) => Some(art.url.clone()),
        None => None,
    };
    TrackIdentity {
        title: info.name.clone(),
        artist: info.artist_name.clone(),
        album: info.album_name.clone(),
        art_url,
        length_us: (info.duration_in_millis as i64) * 1000,
    }
}

/// Whether two identities show the same fields.
pub fn same_identity(a: &TrackIdentity, b: &TrackIdentity) -> (same: bool)
    ensures
        same == (a@ == b@),
{
    let urls_equal = match (&a.art_url, &b.art_url) {
        (Some(x), Some(y)) => x.eq(y),
        (None, None) => true,
        _ => false,
    };
    a.title.eq(&b.title) && a.artist.eq(&b.artist) && a.album.eq(&b.album) && urls_equal
        && a.length_us == b.length_us
}

/// Two tracks have the same identity exactly when their published
/// metadata is the same: comparing identities detects every change of the
/// metadata, and no other change.
pub proof fn lemma_identity_decides_metadata(a: NowPlayingInfo, b: NowPlayingInfo)
    ensures
        (identity_of(a) == identity_of(b)) <==> (metadata_of(Some(a)) == metadata_of(Some(b))),
{
    let ma = metadata_of(Some(a));
    let mb = metadata_of(Some(b));
    if identity_of(a) == identity_of(b) {
        assert(ma =~= mb);
    }
    if ma == mb {
        assert(ma[1] == mb[1]);
        assert(ma[2] == mb[2]);
        assert(ma[3] == mb[3]);
        assert(ma[4] == mb[4]);
        assert(ma.len() == mb.len());
        let sa = seq![a.artist_name@];
        let sb = seq![b.artist_name@];
        assert(sa[0] == sb[0]);
        if a.artwork is Some {
            assert(ma[5] == mb[5]);
        }
        assert(identity_of(a) == identity_of(b));
    }
}

/// The published metadata of a track whose length fits: the no-track id,
/// the length in microseconds (the millisecond count, as an `i64`, times a
/// thousand), the artist as a one-element list, the title and the album;
/// and the identity used to detect changes carries the same length.
pub proof fn lemma_track_metadata_values(info: NowPlayingInfo)
    requires
        info.length_fits(),
    ensures
        ({
            let m = metadata_of(Some(info));
            &&& m[0] == (MetadataKey::TrackId, MetadataValueView::Text(
                "/org/mpris/MediaPlayer2/TrackList/NoTrack"@,
            ))
            &&& m[1].0 == MetadataKey::Length
            &&& m[1].1 matches MetadataValueView::Integer(n) && n == (info.duration_in_millis as i64)
                * 1000
            &&& m[2] == (MetadataKey::Artist, MetadataValueView::TextList(seq![info.artist_name@]))
            &&& m[3] == (MetadataKey::Title, MetadataValueView::Text(info.name@))
            &&& m[4] == (MetadataKey::Album, MetadataValueView::Text(info.album_name@))
            &&& identity_of(info).length_us == (info.duration_in_millis as i64) * 1000
        }),
{
}

} // verus!
