//! The scan endpoints: a scan of the music folder run in the request,
//! starting a scan in the background, and the record of a scan.
use vstd::prelude::*;

use crate::models::ScanInfo;
use crate::response::{ResError, Response};
use crate::text::owned;
use crate::routes::{route, table_of, Method, Route};

verus! {

/// The reply to starting a scan: its id.
pub struct Data {
    pub scan_id: String,
}

/// The reply to a request for the record of a scan.
pub struct ScanData {
    pub scan: ScanInfo,
}

/// The reply to starting a scan with id `scan_id`: refused while another
/// scan holds the lock; otherwise the id, and the scan runs in the
/// background.
pub fn run_scan_reply(locked: bool, scan_id: &String) -> (r: Response<Data>)
    ensures
        locked ==> (r matches Response::error(e) && e.msg@ == "Scanner is already running"@
            && e.detail@ == ""@),
        !locked ==> (r matches Response::data(d) && d.scan_id@ == scan_id@),
{
    if locked {
        Response::error(ResError::of("Scanner is already running", ""))
    } else {
        Response::data(Data { scan_id: scan_id.clone() })
    }
}

/// The reply to a request for the record of a scan, given what loading it
/// gave.
pub fn scan_info_reply(found: Result<ScanInfo, String>) -> (r: Response<ScanData>)
    ensures
        match found {
            Ok(scan) => r == Response::data(ScanData { scan }),
            Err(e) => r matches Response::error(x) && x.msg == e && x.detail@
                == "Failed to get scan info!"@,
        },
{
    match found {
        Ok(scan) => Response::data(ScanData { scan }),
        Err(e) => Response::error(ResError { msg: e, detail: owned("Failed to get scan info!") }),
    }
}

/// The reply to a scan run in the request itself, given what the scan
/// gave: its record, or an error whose text is both message and detail.
pub fn scan_reply(result: Result<Option<ScanInfo>, String>) -> (r: Response<Option<ScanInfo>>)
    ensures
        match result {
            Ok(info) => r == Response::data(info),
            Err(e) => r matches Response::error(x) && x.msg == e && x.detail == e,
        },
{
    match result {
        Ok(info) => Response::data(info),
        Err(e) => Response::error(ResError { msg: e.clone(), detail: e }),
    }
}

/// The route of a scan run in the request itself, which may first clear
/// the catalogue: `GET /scan?<clean>`. Its reply is [`scan_reply`]. This
/// is the one scan route that the API mounts (see
/// [`crate::routes::routes`]).
pub fn scan_route() -> (r: Route)
    ensures
        r.method == Method::Get,
        r.uri@ == "/scan?<clean>"@,
{
    route(Method::Get, "/scan?<clean>")
}

/// The routes of the scan endpoints that start a scan in the background
/// and report on a scan: method and URI of each. The API does not mount
/// them; it mounts [`scan_route`].
pub open spec fn scan_table() -> Seq<(Method, Seq<char>)> {
    seq![
        (Method::Post, "/scan"@),
        (Method::Get, "/scan/<id>"@),
    ]
}

/// The routes of the scan endpoints that start a scan in the background
/// and report on a scan (see [`scan_table`]).
pub fn routes() -> (r: Vec<Route>)
    ensures
        table_of(r@) == scan_table(),
{
    let mut r: Vec<Route> = Vec::new();
    r.push(route(Method::Post, "/scan"));
    r.push(route(Method::Get, "/scan/<id>"));
    assert(table_of(r@) =~= scan_table());
    r
}

} // verus!
