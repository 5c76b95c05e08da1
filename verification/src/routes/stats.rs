//! The statistics endpoint: how many artists, albums and tracks the
//! library holds, and the last scan.
use vstd::prelude::*;

use crate::models::ScanInfo;
use crate::response::{ResError, Response};
use crate::text::owned;

verus! {

/// The library's statistics.
pub struct Stats {
    pub artists: i64,
    pub albums: i64,
    pub tracks: i64,
    pub last_scan: Option<ScanInfo>,
}

/// A count, or 0 when counting failed.
pub open spec fn count_or_zero(c: Result<i64, String>) -> i64 {
    match c {
        Ok(n) => n,
        Err(_) => 0,
    }
}

/// The statistics, given the scans ordered by id and the three counts:
/// an error when the scans could not be loaded; otherwise the counts (0
/// for one that failed) and the last scan, if any.
pub fn stats_reply(
    scans: Result<Vec<ScanInfo>, String>,
    artists: Result<i64, String>,
    albums: Result<i64, String>,
    tracks: Result<i64, String>,
) -> (r: Response<Stats>)
    ensures
        match scans {
            Err(e) => r matches Response::error(x) && x.msg == e && x.detail@
                == "Failed to get scans info!"@,
            Ok(s) => r matches Response::data(st) && st.artists == count_or_zero(artists)
                && st.albums == count_or_zero(albums) && st.tracks == count_or_zero(tracks) && (if s@.len()
                == 0 {
                st.last_scan is None
            } else {
                st.last_scan == Some(s@.last())
            }),
        },
{
    match scans {
        Err(e) => Response::error(ResError { msg: e, detail: owned("Failed to get scans info!") }),
        Ok(mut s) => {
            let artists = match artists {
                Ok(n) => n,
                Err(_) => 0,
            };
            let albums = match albums {
                Ok(n) => n,
                Err(_) => 0,
            };
            let tracks = match tracks {
                Ok(n) => n,
                Err(_) => 0,
            };
            let last_scan = s.pop();
            Response::data(Stats { artists, albums, tracks, last_scan })
        },
    }
}

} // verus!
