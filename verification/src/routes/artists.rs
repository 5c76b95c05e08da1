//! The artist endpoints: a page of artists with their tracks, and one
//! artist with its tracks and the tracks it is featured on.
use vstd::prelude::*;

use crate::grouping::{group_of, grouped_by, id_views, key_views};
use crate::models::{opt_view, Album, Artist, ArtistWithTracks, Track, TrackInRes};
use crate::response::Response;
use crate::routes::{error_reply_of, is_error_reply, route, table_of, Method, Route, Step};
use crate::text::{concat3, owned};

verus! {

/// A track loaded for an artist: the track, its album if it has one, and
/// the artists featured on it.
pub type TrackRow = (Track, Option<Album>, Vec<Artist>);

/// The ids of the artists.
pub open spec fn artist_ids(artists: Seq<Artist>) -> Seq<Seq<char>> {
    artists.map_values(|a: Artist| a.id@)
}

/// The artist keys of the rows' tracks.
pub open spec fn row_artist_keys(rows: Seq<TrackRow>) -> Seq<Option<Seq<char>>> {
    rows.map_values(|c: TrackRow| opt_view(c.0.artist_id))
}

/// A row as an artist's page shows it: credited to that artist.
pub open spec fn credited(c: TrackRow, artist: Artist) -> TrackInRes {
    TrackInRes { track: c.0, artist: Some(artist), album: c.1, features: c.2 }
}

/// The rows, each credited to the artist.
pub open spec fn all_credited(rows: Seq<TrackRow>, artist: Artist) -> Seq<TrackInRes> {
    rows.map_values(|c: TrackRow| credited(c, artist))
}

/// Credits every row to `artist`, in order.
pub fn credit_rows(rows: Vec<TrackRow>, artist: &Artist) -> (r: Vec<TrackInRes>)
    ensures
        r@ == all_credited(rows@, *artist),
{
    let ghost all = rows@;
    assert(all.len() == rows.len());
    let mut rest = rows;
    let mut out: Vec<TrackInRes> = Vec::new();
    let mut m: usize = 0;
    while rest.len() > 0
        invariant
            m + rest.len() == all.len(),
            all.len() <= usize::MAX,
            rest@ == all.skip(m as int),
            out.len() == m,
            forall|k: int| 0 <= k < m ==> #[trigger] out[k] == credited(all[k], *artist),
        decreases rest.len(),
    {
        let (t, album, features) = rest.remove(0);
        out.push(TrackInRes { track: t, artist: Some(artist.clone()), album, features });
        m = m + 1;
    }
    assert(out@ =~= all_credited(all, *artist));
    out
}

/// Builds an artist listing: every row goes under the artist its track's
/// artist key names (the last one with that id, if the list names an
/// artist twice), credited to that artist; rows of no listed artist are
/// left out. The listing gives no featured tracks.
pub fn artists_with_tracks(artists: Vec<Artist>, rows: Vec<TrackRow>) -> (r: Vec<ArtistWithTracks>)
    ensures
        r.len() == artists.len(),
        forall|i: int|
            0 <= i < artists.len() ==> {
                &&& (#[trigger] r[i]).artist == artists[i]
                &&& r[i].tracks@ == all_credited(
                    group_of(artist_ids(artists@), rows@, row_artist_keys(rows@), i),
                    artists[i],
                )
                &&& r[i].featured_on@ == Seq::<TrackInRes>::empty()
            },
{
    let ghost artists0 = artists@;
    let ghost rows0 = rows@;
    let mut ids: Vec<String> = Vec::new();
    let mut i: usize = 0;
    while i < artists.len()
        invariant
            i <= artists.len(),
            ids.len() == i,
            forall|k: int| 0 <= k < i ==> (#[trigger] ids[k])@ == artists[k].id@,
        decreases artists.len() - i,
    {
        ids.push(artists[i].id.clone());
        i = i + 1;
    }
    assert(id_views(ids@) =~= artist_ids(artists@));
    let mut keys: Vec<Option<String>> = Vec::new();
    let mut j: usize = 0;
    while j < rows.len()
        invariant
            j <= rows.len(),
            keys.len() == j,
            forall|k: int| 0 <= k < j ==> opt_view(#[trigger] keys[k]) == opt_view(rows[k].0.artist_id),
        decreases rows.len() - j,
    {
        keys.push(rows[j].0.artist_id.clone());
        j = j + 1;
    }
    assert(key_views(keys@) =~= row_artist_keys(rows0));
    let mut groups = grouped_by(&ids, rows, &keys);
    let mut result: Vec<ArtistWithTracks> = Vec::new();
    let mut artists = artists;
    let mut n: usize = 0;
    while artists.len() > 0
        invariant
            n + artists.len() == artists0.len(),
            artists0.len() <= usize::MAX,
            artists@ == artists0.skip(n as int),
            groups.len() == artists.len(),
            forall|k: int|
                0 <= k < groups.len() ==> (#[trigger] groups[k])@ == group_of(
                    artist_ids(artists0),
                    rows0,
                    row_artist_keys(rows0),
                    k + n,
                ),
            result.len() == n,
            forall|i: int|
                0 <= i < n ==> {
                    &&& (#[trigger] result[i]).artist == artists0[i]
                    &&& result[i].tracks@ == all_credited(
                        group_of(artist_ids(artists0), rows0, row_artist_keys(rows0), i),
                        artists0[i],
                    )
                    &&& result[i].featured_on@ == Seq::<TrackInRes>::empty()
                },
        decreases artists.len(),
    {
        let artist = artists.remove(0);
        let group = groups.remove(0);
        let tracks = credit_rows(group, &artist);
        result.push(ArtistWithTracks { artist, featured_on: Vec::new(), tracks });
        n = n + 1;
    }
    result
}

/// A question that the artist page asks the database.
pub enum ArtistQuery {
    /// Load the artist with this id.
    FetchArtist(String),
    /// Load the tracks credited to the artist with this id, each with its
    /// album and features.
    ArtistTracks(String),
    /// Load the tracks the artist with this id is featured on, each with
    /// its album and features.
    FeaturedTracks(String),
}

/// What the database has answered so far for an artist page.
pub struct OneArtistFacts {
    pub artist: Option<Result<Artist, String>>,
    pub tracks: Option<Result<Vec<TrackRow>, String>>,
    pub featured: Option<Vec<TrackRow>>,
}

/// How the artist page proceeds: the artist is loaded, then its tracks,
/// then the tracks it is featured on; all of them are credited to it.
pub open spec fn one_artist_next(
    id: Seq<char>,
    facts: OneArtistFacts,
    r: Step<ArtistQuery, Response<ArtistWithTracks>>,
) -> bool {
    match facts.artist {
        None => r matches Step::Ask(ArtistQuery::FetchArtist(a)) && a@ == id,
        Some(Err(e)) => is_error_reply(r, e@, "Artist '"@ + id + "' does not exists!"@),
        Some(Ok(artist)) => match facts.tracks {
            None => r matches Step::Ask(ArtistQuery::ArtistTracks(a)) && a@ == artist.id@,
            Some(Err(e)) => is_error_reply(
                r,
                e@,
                "Failed to get tracks for artist '"@ + id + "'!"@,
            ),
            Some(Ok(rows)) => match facts.featured {
                None => r matches Step::Ask(ArtistQuery::FeaturedTracks(a)) && a@ == artist.id@,
                Some(featured) => r matches Step::Reply(Response::data(w)) && w.artist == artist
                    && w.tracks@ == all_credited(rows@, artist) && w.featured_on@ == all_credited(
                    featured@,
                    artist,
                ),
            },
        },
    }
}

/// The next step of the page of artist `id`. The facts stay as they were,
/// except that the reply takes the rows out of them.
pub fn one_artist_step(id: &String, facts: &mut OneArtistFacts) -> (r: Step<
    ArtistQuery,
    Response<ArtistWithTracks>,
>)
    ensures
        one_artist_next(id@, *old(facts), r),
        r matches Step::Reply(Response::data(_)) ==> *final(facts) == (OneArtistFacts {
            artist: None,
            tracks: None,
            featured: None,
        }),
        !(r matches Step::Reply(Response::data(_))) ==> *final(facts) == *old(facts),
{
    match &facts.artist {
        None => return Step::Ask(ArtistQuery::FetchArtist(id.clone())),
        Some(Err(e)) => return error_reply_of(
            e.clone(),
            concat3("Artist '", id.as_str(), "' does not exists!"),
        ),
        Some(Ok(a)) => {
            match &facts.tracks {
                None => return Step::Ask(ArtistQuery::ArtistTracks(a.id.clone())),
                Some(Err(e)) => return error_reply_of(
                    e.clone(),
                    concat3("Failed to get tracks for artist '", id.as_str(), "'!"),
                ),
                Some(Ok(_)) => {},
            }
            if facts.featured.is_none() {
                return Step::Ask(ArtistQuery::FeaturedTracks(a.id.clone()));
            }
        },
    }
    let artist = facts.artist.take();
    let tracks = facts.tracks.take();
    let featured = facts.featured.take();
    match (artist, tracks, featured) {
        (Some(Ok(artist)), Some(Ok(rows)), Some(featured)) => {
            let tracks = credit_rows(rows, &artist);
            let featured_on = credit_rows(featured, &artist);
            Step::Reply(Response::data(ArtistWithTracks { artist, featured_on, tracks }))
        },
        _ => {
            proof {
                assert(false);
            }
            Step::Ask(ArtistQuery::FetchArtist(owned("")))
        },
    }
}

/// One page of artists with their tracks.
pub struct Data {
    pub artists: Vec<ArtistWithTracks>,
    pub offset: Option<i64>,
    pub limit: Option<i64>,
    pub total: i64,
}

/// One artist with its tracks.
pub struct ArtistData {
    pub artist: ArtistWithTracks,
}

/// The artist routes: method and URI of each.
pub open spec fn artists_table() -> Seq<(Method, Seq<char>)> {
    seq![
        (Method::Get, "/artists?<offset>&<limit>"@),
        (Method::Get, "/artists/<id>"@),
    ]
}

/// The artist routes.
pub fn routes() -> (r: Vec<Route>)
    ensures
        table_of(r@) == artists_table(),
{
    let mut r: Vec<Route> = Vec::new();
    r.push(route(Method::Get, "/artists?<offset>&<limit>"));
    r.push(route(Method::Get, "/artists/<id>"));
    assert(table_of(r@) =~= artists_table());
    r
}

} // verus!
