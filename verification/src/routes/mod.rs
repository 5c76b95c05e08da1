//! The endpoints of the API. Each endpoint that talks to the database
//! in several steps is written as a step function: from what the database
//! has answered so far, it decides the next question to ask it, or the
//! reply to send. The caller runs the questions and feeds the answers back.
use vstd::prelude::*;

use crate::response::{ResError, Response};

pub mod albums;
pub mod artists;
pub mod auth;
pub mod favorites;
pub mod picture;
pub mod playlists;
pub mod scan;
pub mod search;
pub mod stats;
pub mod stream;
pub mod tracks;

verus! {

/// The next move of an endpoint: a question for the database, or the reply.
pub enum Step<Q, R> {
    Ask(Q),
    Reply(R),
}

/// `s` is the error reply with these two texts.
pub open spec fn is_error_reply<Q, T>(s: Step<Q, Response<T>>, msg: Seq<char>, detail: Seq<char>) -> bool {
    s matches Step::Reply(Response::error(e)) && e.msg@ == msg && e.detail@ == detail
}

/// The step that replies with this error.
pub fn error_reply<Q, T>(msg: &str, detail: &str) -> (r: Step<Q, Response<T>>)
    ensures
        is_error_reply(r, msg@, detail@),
{
    Step::Reply(Response::error(ResError::of(msg, detail)))
}

/// The step that replies with an error whose texts are already built.
pub fn error_reply_of<Q, T>(msg: String, detail: String) -> (r: Step<Q, Response<T>>)
    ensures
        is_error_reply(r, msg@, detail@),
{
    Step::Reply(Response::error(ResError { msg, detail }))
}

/// The HTTP methods of the API.
#[derive(Debug, Clone, Copy, PartialEq, Eq, Structural)]
pub enum Method {
    Get,
    Post,
    Delete,
    Patch,
}

/// A route: a method and the URI pattern it answers, with `<name>` for
/// a path or query parameter.
pub struct Route {
    pub method: Method,
    pub uri: String,
}

/// The method and URI of each route.
pub open spec fn table_of(routes: Seq<Route>) -> Seq<(Method, Seq<char>)> {
    routes.map_values(|r: Route| (r.method, r.uri@))
}

/// The route for this method and URI.
pub fn route(method: Method, uri: &str) -> (r: Route)
    ensures
        r.method == method,
        r.uri@ == uri@,
{
    Route { method, uri: crate::text::owned(uri) }
}

/// The routes of the whole API, mounted under `/api/`: streaming, the
/// pictures, the statistics and the scan run in the request first, then
/// the accounts, the playlists, the albums, the artists, the tracks, the
/// favorites and the search.
pub open spec fn api_table() -> Seq<(Method, Seq<char>)> {
    seq![
        (Method::Get, "/stream/<id>"@),
        (Method::Get, "/picture/<id>?<pic_type>"@),
        (Method::Get, "/stats"@),
        (Method::Get, "/scan?<clean>"@),
    ] + auth::auth_table() + playlists::playlists_table()
        + albums::albums_table() + artists::artists_table() + tracks::tracks_table()
        + favorites::favorites_table() + search::search_table()
}

/// The routes of the whole API.
pub fn routes() -> (r: Vec<Route>)
    ensures
        table_of(r@) == api_table(),
{
    let mut api: Vec<Route> = Vec::new();
    api.push(route(Method::Get, "/stream/<id>"));
    api.push(route(Method::Get, "/picture/<id>?<pic_type>"));
    api.push(route(Method::Get, "/stats"));
    api.push(scan::scan_route());
    let mut more = auth::routes();
    api.append(&mut more);
    let mut more = playlists::routes();
    api.append(&mut more);
    let mut more = albums::routes();
    api.append(&mut more);
    let mut more = artists::routes();
    api.append(&mut more);
    let mut more = tracks::routes();
    api.append(&mut more);
    let mut more = favorites::routes();
    api.append(&mut more);
    let mut more = search::routes();
    api.append(&mut more);
    assert(table_of(api@) =~= api_table());
    api
}

/// No two routes of the API share both method and URI.
pub proof fn api_routes_are_distinct()
    ensures
        forall|i: int, j: int|
            0 <= i < j < api_table().len() ==> #[trigger] api_table()[i] != #[trigger] api_table()[j],
{
    let all = seq![
            (Method::Get, "/stream/<id>"@),
            (Method::Get, "/picture/<id>?<pic_type>"@),
            (Method::Get, "/stats"@),
            (Method::Get, "/scan?<clean>"@),
            (Method::Post, "/login"@),
            (Method::Post, "/logout"@),
            (Method::Post, "/signup"@),
            (Method::Get, "/playlists?<offset>&<limit>"@),
            (Method::Get, "/playlists/<id>"@),
            (Method::Post, "/playlists"@),
            (Method::Delete, "/playlists/<id>"@),
            (Method::Post, "/playlists/<id>/<track_id>"@),
            (Method::Patch, "/playlists/<id>"@),
            (Method::Delete, "/playlists/<id>/<track_id>"@),
            (Method::Get, "/albums?<artist>&<offset>&<limit>"@),
            (Method::Get, "/albums/<id>"@),
            (Method::Get, "/artists?<offset>&<limit>"@),
            (Method::Get, "/artists/<id>"@),
            (Method::Get, "/tracks?<offset>&<limit>"@),
            (Method::Get, "/tracks/<id>"@),
            (Method::Get, "/favorites?<offset>&<limit>"@),
            (Method::Post, "/favorites/<track_id>"@),
            (Method::Delete, "/favorites/<track_id>"@),
            (Method::Get, "/search?<q>&<offset>&<limit>"@),
            (Method::Get, "/search/artists?<q>&<offset>&<limit>"@),
            (Method::Get, "/search/tracks?<q>&<offset>&<limit>"@),
            (Method::Get, "/search/albums?<q>&<offset>&<limit>"@),
        ];
    assert(api_table() =~= all);
    // the lengths, and one differing character where two lengths agree,
    // tell the routes apart
    reveal_strlit("/stream/<id>");
    reveal_strlit("/picture/<id>?<pic_type>");
    reveal_strlit("/stats");
    reveal_strlit("/scan?<clean>");
    reveal_strlit("/login");
    reveal_strlit("/logout");
    reveal_strlit("/signup");
    reveal_strlit("/playlists?<offset>&<limit>");
    reveal_strlit("/playlists/<id>");
    reveal_strlit("/playlists");
    reveal_strlit("/playlists/<id>");
    reveal_strlit("/playlists/<id>/<track_id>");
    reveal_strlit("/playlists/<id>");
    reveal_strlit("/playlists/<id>/<track_id>");
    reveal_strlit("/albums?<artist>&<offset>&<limit>");
    reveal_strlit("/albums/<id>");
    reveal_strlit("/artists?<offset>&<limit>");
    reveal_strlit("/artists/<id>");
    reveal_strlit("/tracks?<offset>&<limit>");
    reveal_strlit("/tracks/<id>");
    reveal_strlit("/favorites?<offset>&<limit>");
    reveal_strlit("/favorites/<track_id>");
    reveal_strlit("/favorites/<track_id>");
    reveal_strlit("/search?<q>&<offset>&<limit>");
    reveal_strlit("/search/artists?<q>&<offset>&<limit>");
    reveal_strlit("/search/tracks?<q>&<offset>&<limit>");
    reveal_strlit("/search/albums?<q>&<offset>&<limit>");
    assert(all[0].1[1] != all[15].1[1]);
    assert(all[0].1[1] != all[19].1[1]);
    assert(all[1].1[1] != all[18].1[1]);
    assert(all[3].1[1] != all[17].1[1]);
    assert(all[5].1[1] != all[6].1[1]);
    assert(all[7].1[1] != all[20].1[1]);
    assert(all[15].1[1] != all[19].1[1]);
    assert(all[25].1[8] != all[26].1[8]);
    assert(all[0].1.len() == 12);
    assert(all[1].1.len() == 24);
    assert(all[2].1.len() == 6);
    assert(all[3].1.len() == 13);
    assert(all[4].1.len() == 6);
    assert(all[5].1.len() == 7);
    assert(all[6].1.len() == 7);
    assert(all[7].1.len() == 27);
    assert(all[8].1.len() == 15);
    assert(all[9].1.len() == 10);
    assert(all[10].1.len() == 15);
    assert(all[11].1.len() == 26);
    assert(all[12].1.len() == 15);
    assert(all[13].1.len() == 26);
    assert(all[14].1.len() == 33);
    assert(all[15].1.len() == 12);
    assert(all[16].1.len() == 25);
    assert(all[17].1.len() == 13);
    assert(all[18].1.len() == 24);
    assert(all[19].1.len() == 12);
    assert(all[20].1.len() == 27);
    assert(all[21].1.len() == 21);
    assert(all[22].1.len() == 21);
    assert(all[23].1.len() == 28);
    assert(all[24].1.len() == 36);
    assert(all[25].1.len() == 35);
    assert(all[26].1.len() == 35);
    assert forall|i: int, j: int| 0 <= i < j < all.len() implies #[trigger] all[i] != #[trigger] all[j] by {}
}

} // verus!
