//! The track endpoints: a page of tracks, and one track.
use vstd::prelude::*;

use crate::models::Track;
use crate::response::{ResError, Response};
use crate::text::{concat3, owned};
use crate::routes::{route, table_of, Method, Route};

verus! {

/// One page of tracks.
pub struct TracksData {
    pub tracks: Vec<Track>,
    pub offset: Option<i64>,
    pub limit: Option<i64>,
    pub total: i64,
}

/// One track.
pub struct TrackData {
    pub track: Track,
}

/// The reply to a page request, given the loaded page, the paging asked
/// for and the number of tracks in the library.
pub fn tracks_reply(loaded: Result<Vec<Track>, String>, offset: Option<i64>, limit: Option<i64>, total: i64) -> (r:
    Response<TracksData>)
    ensures
        match loaded {
            Ok(tracks) => r == Response::data(TracksData { tracks, offset, limit, total }),
            Err(e) => r matches Response::error(x) && x.msg == e && x.detail@ == "Failed to get tracks"@,
        },
{
    match loaded {
        Ok(tracks) => Response::data(TracksData { tracks, offset, limit, total }),
        Err(e) => Response::error(ResError { msg: e, detail: owned("Failed to get tracks") }),
    }
}

/// The reply to a request for track `id`, given what loading it gave.
pub fn track_reply(id: &str, found: Result<Track, String>) -> (r: Response<TrackData>)
    ensures
        match found {
            Ok(track) => r == Response::data(TrackData { track }),
            Err(e) => r matches Response::error(x) && x.msg == e && x.detail@ == "Track '"@ + id@
                + "' does not exists!"@,
        },
{
    match found {
        Ok(track) => Response::data(TrackData { track }),
        Err(e) => Response::error(ResError { msg: e, detail: concat3("Track '", id, "' does not exists!") }),
    }
}

/// The track routes: method and URI of each.
pub open spec fn tracks_table() -> Seq<(Method, Seq<char>)> {
    seq![
        (Method::Get, "/tracks?<offset>&<limit>"@),
        (Method::Get, "/tracks/<id>"@),
    ]
}

/// The track routes.
pub fn routes() -> (r: Vec<Route>)
    ensures
        table_of(r@) == tracks_table(),
{
    let mut r: Vec<Route> = Vec::new();
    r.push(route(Method::Get, "/tracks?<offset>&<limit>"));
    r.push(route(Method::Get, "/tracks/<id>"));
    assert(table_of(r@) =~= tracks_table());
    r
}

} // verus!
