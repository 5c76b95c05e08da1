//! The album endpoints: a page of albums with their tracks, and one album.
use vstd::prelude::*;

use crate::grouping::{group_of, grouped_by, id_views, key_views};
use crate::models::{opt_view, Album, AlbumWithTracks, Artist, Track, TrackInRes};
use crate::routes::{route, table_of, Method, Route};

verus! {

/// The ids of the albums.
pub open spec fn album_ids(albums: Seq<Album>) -> Seq<Seq<char>> {
    albums.map_values(|a: Album| a.id@)
}

/// The album keys of the tracks.
pub open spec fn track_album_keys(tracks: Seq<Track>) -> Seq<Option<Seq<char>>> {
    tracks.map_values(|t: Track| opt_view(t.album_id))
}

/// Each track beside the artists featured on it.
pub open spec fn with_features(tracks: Seq<Track>, features: Seq<Vec<Artist>>) -> Seq<
    (Track, Vec<Artist>),
> {
    Seq::new(tracks.len(), |j: int| (tracks[j], features[j]))
}

/// A track of an album as the album listing shows it: credited to the
/// album's artist, with the album and its features.
pub open spec fn album_track(c: (Track, Vec<Artist>), album: Album, artist: Artist) -> TrackInRes {
    TrackInRes { track: c.0, artist: Some(artist), album: Some(album), features: c.1 }
}

/// The entry of album `i` in a listing.
pub open spec fn album_entry(
    albums: Seq<Album>,
    artists: Seq<Artist>,
    tracks: Seq<Track>,
    features: Seq<Vec<Artist>>,
    i: int,
) -> (Album, Artist, Seq<TrackInRes>) {
    (
        albums[i],
        artists[i],
        group_of(
            album_ids(albums),
            with_features(tracks, features),
            track_album_keys(tracks),
            i,
        ).map_values(|c: (Track, Vec<Artist>)| album_track(c, albums[i], artists[i])),
    )
}

/// Builds an album listing. `artists[i]` is the artist of `albums[i]`;
/// `features[j]` lists the artists featured on `tracks[j]`. Every track
/// goes under the album its key names (the last one with that id, if the
/// list names an album twice); tracks of no listed album are left out.
pub fn albums_with_tracks(
    albums: Vec<Album>,
    artists: Vec<Artist>,
    tracks: Vec<Track>,
    features: Vec<Vec<Artist>>,
) -> (r: Vec<AlbumWithTracks>)
    requires
        albums.len() == artists.len(),
        tracks.len() == features.len(),
    ensures
        r.len() == albums.len(),
        forall|i: int|
            0 <= i < albums.len() ==> {
                let e = album_entry(albums@, artists@, tracks@, features@, i);
                &&& (#[trigger] r[i]).album == e.0
                &&& r[i].artist == e.1
                &&& r[i].tracks@ == e.2
            },
{
    let ghost albums0 = albums@;
    let ghost artists0 = artists@;
    let ghost tracks0 = tracks@;
    let ghost features0 = features@;
    let mut ids: Vec<String> = Vec::new();
    let mut i: usize = 0;
    while i < albums.len()
        invariant
            i <= albums.len(),
            ids.len() == i,
            forall|k: int| 0 <= k < i ==> (#[trigger] ids[k])@ == albums[k].id@,
        decreases albums.len() - i,
    {
        ids.push(albums[i].id.clone());
        i = i + 1;
    }
    assert(id_views(ids@) =~= album_ids(albums@));
    let mut keys: Vec<Option<String>> = Vec::new();
    let mut children: Vec<(Track, Vec<Artist>)> = Vec::new();
    let mut tracks = tracks;
    let mut features = features;
    let mut j: usize = 0;
    while tracks.len() > 0
        invariant
            j + tracks.len() == tracks0.len(),
            tracks0.len() <= usize::MAX,
            tracks.len() == features.len(),
            tracks0.len() == features0.len(),
            tracks@ == tracks0.skip(j as int),
            features@ == features0.skip(j as int),
            keys.len() == j,
            children.len() == j,
            forall|k: int| 0 <= k < j ==> opt_view(#[trigger] keys[k]) == opt_view(tracks0[k].album_id),
            forall|k: int| 0 <= k < j ==> #[trigger] children[k] == (tracks0[k], features0[k]),
        decreases tracks.len(),
    {
        let t = tracks.remove(0);
        let f = features.remove(0);
        keys.push(t.album_id.clone());
        children.push((t, f));
        j = j + 1;
    }
    assert(key_views(keys@) =~= track_album_keys(tracks0));
    assert(children@ =~= with_features(tracks0, features0));
    let mut groups = grouped_by(&ids, children, &keys);
    let mut result: Vec<AlbumWithTracks> = Vec::new();
    let mut albums = albums;
    let mut artists = artists;
    let mut n: usize = 0;
    while albums.len() > 0
        invariant
            n + albums.len() == albums0.len(),
            albums0.len() <= usize::MAX,
            albums.len() == artists.len(),
            albums0.len() == artists0.len(),
            albums@ == albums0.skip(n as int),
            artists@ == artists0.skip(n as int),
            groups.len() == albums.len(),
            forall|k: int|
                0 <= k < groups.len() ==> (#[trigger] groups[k])@ == group_of(
                    album_ids(albums0),
                    with_features(tracks0, features0),
                    track_album_keys(tracks0),
                    k + n,
                ),
            result.len() == n,
            forall|i: int|
                0 <= i < n ==> {
                    let e = album_entry(albums0, artists0, tracks0, features0, i);
                    &&& (#[trigger] result[i]).album == e.0
                    &&& result[i].artist == e.1
                    &&& result[i].tracks@ == e.2
                },
        decreases albums.len(),
    {
        let album = albums.remove(0);
        let artist = artists.remove(0);
        let group = groups.remove(0);
        let ghost g = group@;
        assert(g.len() == group.len());
        let mut entries: Vec<TrackInRes> = Vec::new();
        let mut rest = group;
        let mut m: usize = 0;
        while rest.len() > 0
            invariant
                m + rest.len() == g.len(),
                g.len() <= usize::MAX,
                rest@ == g.skip(m as int),
                entries.len() == m,
                forall|k: int|
                    0 <= k < m ==> #[trigger] entries[k] == album_track(g[k], album, artist),
            decreases rest.len(),
        {
            let c = rest.remove(0);
            let (t, f) = c;
            entries.push(
                TrackInRes { track: t, artist: Some(artist.clone()), album: Some(album.clone()), features: f },
            );
            m = m + 1;
        }
        let ghost expected = album_entry(albums0, artists0, tracks0, features0, n as int);
        assert(album == albums0[n as int]);
        assert(artist == artists0[n as int]);
        assert(entries@ =~= expected.2);
        result.push(AlbumWithTracks { album, artist, tracks: entries });
        n = n + 1;
    }
    result
}

/// One page of albums with their tracks.
pub struct Data {
    pub albums: Vec<AlbumWithTracks>,
    pub offset: Option<i64>,
    pub limit: Option<i64>,
    pub total: i64,
}

/// One album with its tracks.
pub struct AlbumData {
    pub album: AlbumWithTracks,
}

/// The album routes: method and URI of each.
pub open spec fn albums_table() -> Seq<(Method, Seq<char>)> {
    seq![
        (Method::Get, "/albums?<artist>&<offset>&<limit>"@),
        (Method::Get, "/albums/<id>"@),
    ]
}

/// The album routes.
pub fn routes() -> (r: Vec<Route>)
    ensures
        table_of(r@) == albums_table(),
{
    let mut r: Vec<Route> = Vec::new();
    r.push(route(Method::Get, "/albums?<artist>&<offset>&<limit>"));
    r.push(route(Method::Get, "/albums/<id>"));
    assert(table_of(r@) =~= albums_table());
    r
}

} // verus!
