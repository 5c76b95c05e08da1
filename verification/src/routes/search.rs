//! The search endpoints: artists, tracks and albums whose name or title
//! contains the query, ignoring case.
use vstd::prelude::*;

use crate::models::{AlbumWithTracks, ArtistWithTracks, TrackInRes};
use crate::text::concat3;
use crate::routes::{route, table_of, Method, Route};

verus! {

/// The `ILIKE` pattern that matches the texts containing `q`: `q` between
/// two `%`. The characters of `q` go in as they are, so a `%` or `_` in it
/// acts as a wildcard.
pub fn search_pattern(q: &str) -> (r: String)
    ensures
        r@ == seq!['%'] + q@ + seq!['%'],
{
    let r = concat3("%", q, "%");
    proof {
        reveal_strlit("%");
    }
    r
}

/// The reply to a search of everything.
pub struct SearchAllData {
    pub artists: Vec<ArtistWithTracks>,
    pub tracks: Vec<TrackInRes>,
    pub albums: Vec<AlbumWithTracks>,
}

/// The reply to a search of tracks.
pub struct TracksSearchData {
    pub tracks: Vec<TrackInRes>,
}

/// The reply to a search of artists.
pub struct ArtistsSearchData {
    pub artists: Vec<ArtistWithTracks>,
}

/// The reply to a search of albums.
pub struct AlbumsSearchData {
    pub albums: Vec<AlbumWithTracks>,
}

/// The search routes: method and URI of each.
pub open spec fn search_table() -> Seq<(Method, Seq<char>)> {
    seq![
        (Method::Get, "/search?<q>&<offset>&<limit>"@),
        (Method::Get, "/search/artists?<q>&<offset>&<limit>"@),
        (Method::Get, "/search/tracks?<q>&<offset>&<limit>"@),
        (Method::Get, "/search/albums?<q>&<offset>&<limit>"@),
    ]
}

/// The search routes.
pub fn routes() -> (r: Vec<Route>)
    ensures
        table_of(r@) == search_table(),
{
    let mut r: Vec<Route> = Vec::new();
    r.push(route(Method::Get, "/search?<q>&<offset>&<limit>"));
    r.push(route(Method::Get, "/search/artists?<q>&<offset>&<limit>"));
    r.push(route(Method::Get, "/search/tracks?<q>&<offset>&<limit>"));
    r.push(route(Method::Get, "/search/albums?<q>&<offset>&<limit>"));
    assert(table_of(r@) =~= search_table());
    r
}

} // verus!
