//! The favorites endpoints: listing a user's favorite tracks, adding a
//! track to them and removing one.
use vstd::prelude::*;

use crate::ids::{is_nanoid, new_id};
use crate::models::{NewFavorite, Track, TrackInRes};
use crate::response::Response;
use crate::routes::{error_reply, error_reply_of, is_error_reply, route, table_of, Method, Route, Step};
use crate::text::owned;

verus! {

/// A question that a favorites endpoint asks the database.
pub enum FavoriteQuery {
    /// Load the track with this id.
    FetchTrack(String),
    /// Is the track among the user's favorites?
    IsFavorite { track_id: String, user_id: String },
    /// Store the favorite (under a fresh id, see [`new_favorite`]) and say
    /// whether that worked.
    AddFavorite { user_id: String, track_id: String },
    /// Delete the user's favorite rows for the track and say whether that
    /// worked.
    RemoveFavorite { track_id: String, user_id: String },
    /// Load the tracks among this user's favorites, newest favorite first,
    /// skipping the first `offset` and keeping at most `limit` (all when
    /// not given), each with its artist, album and features.
    UserFavorites { user_id: String, offset: Option<i64>, limit: Option<i64> },
    /// Count the rows of the favorites table: the total that the listing
    /// reports.
    CountFavorites,
}

/// The reply of the endpoints that add or remove a favorite: the track,
/// which the caller shows with its artist, album and features.
pub type FavoriteStep = Step<FavoriteQuery, Response<Track>>;

/// What the database has answered so far when a favorite is added.
pub struct NewFavoriteFacts {
    pub track: Option<Result<Track, String>>,
    pub already_favorite: Option<bool>,
    pub written: Option<Result<(), String>>,
}

/// How adding a favorite proceeds: the track must exist and must not be a
/// favorite of the user yet; then the favorite is stored.
pub open spec fn new_favorite_next(
    user_id: Seq<char>,
    track_id: Seq<char>,
    facts: NewFavoriteFacts,
    r: FavoriteStep,
) -> bool {
    match facts.track {
        None => r matches Step::Ask(FavoriteQuery::FetchTrack(t)) && t@ == track_id,
        Some(Err(_)) => is_error_reply(r, "Track does not exists"@, "Track does not exists"@),
        Some(Ok(track)) => match facts.already_favorite {
            None => r matches Step::Ask(FavoriteQuery::IsFavorite { track_id: t, user_id: u })
                && t@ == track_id && u@ == user_id,
            Some(true) => is_error_reply(
                r,
                "Already in favorites"@,
                "Track is already in favorites"@,
            ),
            Some(false) => match facts.written {
                None => r matches Step::Ask(FavoriteQuery::AddFavorite { user_id: u, track_id: t })
                    && t@ == track_id && u@ == user_id,
                Some(Err(e)) => is_error_reply(r, e@, "Failed to add track to favorites"@),
                Some(Ok(())) => r == Step::<FavoriteQuery, Response<Track>>::Reply(
                    Response::data(track),
                ),
            },
        },
    }
}

/// The next step of adding track `track_id` to the favorites of user
/// `user_id`. The facts stay as they were, except that the reply with the
/// track takes the track out of them.
pub fn new_favorite_step(user_id: &String, track_id: &String, facts: &mut NewFavoriteFacts) -> (r:
    FavoriteStep)
    ensures
        new_favorite_next(user_id@, track_id@, *old(facts), r),
        r matches Step::Reply(Response::data(_)) ==> *final(facts) == (NewFavoriteFacts {
            track: None,
            ..*old(facts)
        }),
        !(r matches Step::Reply(Response::data(_))) ==> *final(facts) == *old(facts),
{
    match &facts.track {
        None => return Step::Ask(FavoriteQuery::FetchTrack(track_id.clone())),
        Some(Err(_)) => return error_reply("Track does not exists", "Track does not exists"),
        Some(Ok(_)) => {},
    }
    match &facts.already_favorite {
        None => return Step::Ask(
            FavoriteQuery::IsFavorite { track_id: track_id.clone(), user_id: user_id.clone() },
        ),
        Some(true) => return error_reply("Already in favorites", "Track is already in favorites"),
        Some(false) => {},
    }
    match &facts.written {
        None => return Step::Ask(
            FavoriteQuery::AddFavorite { user_id: user_id.clone(), track_id: track_id.clone() },
        ),
        Some(Err(e)) => return error_reply_of(e.clone(), owned("Failed to add track to favorites")),
        Some(Ok(())) => {},
    }
    match facts.track.take() {
        Some(Ok(track)) => Step::Reply(Response::data(track)),
        _ => {
            proof {
                assert(false);
            }
            Step::Ask(FavoriteQuery::FetchTrack(owned("")))
        },
    }
}

/// The favorite row that marks track `track_id` for user `user_id`, under
/// a fresh id.
pub fn new_favorite(user_id: &String, track_id: &String) -> (r: NewFavorite)
    ensures
        is_nanoid(r.id@, 21),
        r.user_id@ == user_id@,
        r.track_id@ == track_id@,
{
    NewFavorite { id: new_id(), user_id: user_id.clone(), track_id: track_id.clone() }
}

/// What the database has answered so far when a favorite is removed.
/// Once the favorite is deleted the track is loaded; when that row is
/// missing the caller fails, so `track` holds the loaded track.
pub struct RemoveFavoriteFacts {
    pub removed: Option<Result<(), String>>,
    pub track: Option<Track>,
}

/// How removing a favorite proceeds: the favorite is deleted, then the
/// track is loaded for the reply.
pub open spec fn remove_favorite_next(
    user_id: Seq<char>,
    track_id: Seq<char>,
    facts: RemoveFavoriteFacts,
    r: FavoriteStep,
) -> bool {
    match facts.removed {
        None => r matches Step::Ask(FavoriteQuery::RemoveFavorite { track_id: t, user_id: u })
            && t@ == track_id && u@ == user_id,
        Some(Err(e)) => is_error_reply(r, e@, "Track does not exists in favorites"@),
        Some(Ok(())) => match facts.track {
            None => r matches Step::Ask(FavoriteQuery::FetchTrack(t)) && t@ == track_id,
            Some(track) => r == Step::<FavoriteQuery, Response<Track>>::Reply(
                Response::data(track),
            ),
        },
    }
}

/// The next step of removing track `track_id` from the favorites of user
/// `user_id`. The facts stay as they were, except that the reply with the
/// track takes the track out of them.
pub fn remove_favorite_step(user_id: &String, track_id: &String, facts: &mut RemoveFavoriteFacts) -> (r:
    FavoriteStep)
    ensures
        remove_favorite_next(user_id@, track_id@, *old(facts), r),
        r matches Step::Reply(Response::data(_)) ==> *final(facts) == (RemoveFavoriteFacts {
            track: None,
            ..*old(facts)
        }),
        !(r matches Step::Reply(Response::data(_))) ==> *final(facts) == *old(facts),
{
    match &facts.removed {
        None => return Step::Ask(
            FavoriteQuery::RemoveFavorite { track_id: track_id.clone(), user_id: user_id.clone() },
        ),
        Some(Err(e)) => return error_reply_of(e.clone(), owned("Track does not exists in favorites")),
        Some(Ok(())) => {},
    }
    if facts.track.is_none() {
        return Step::Ask(FavoriteQuery::FetchTrack(track_id.clone()));
    }
    match facts.track.take() {
        Some(track) => Step::Reply(Response::data(track)),
        None => {
            proof {
                assert(false);
            }
            Step::Ask(FavoriteQuery::FetchTrack(owned("")))
        },
    }
}

/// One page of a user's favorite tracks, newest first.
pub struct Data {
    pub tracks: Vec<TrackInRes>,
    pub offset: Option<i64>,
    pub limit: Option<i64>,
    pub total: i64,
}

/// What the database has answered so far when a user's favorites are
/// listed.
pub struct AllFavoritesFacts {
    pub tracks: Option<Vec<TrackInRes>>,
    pub total: Option<i64>,
}

/// How listing a user's favorites proceeds: the page of favorite tracks
/// is loaded, then the total (which counts the whole favorites table, as
/// the listing always has); the reply holds the tracks, the paging asked
/// for and that total.
pub open spec fn all_favorites_next(
    user_id: Seq<char>,
    offset: Option<i64>,
    limit: Option<i64>,
    facts: AllFavoritesFacts,
    r: Step<FavoriteQuery, Response<Data>>,
) -> bool {
    match facts.tracks {
        None => r matches Step::Ask(FavoriteQuery::UserFavorites { user_id: u, offset: o, limit: l })
            && u@ == user_id && o == offset && l == limit,
        Some(ts) => match facts.total {
            None => r matches Step::Ask(FavoriteQuery::CountFavorites),
            Some(n) => r matches Step::Reply(Response::data(d)) && d.tracks == ts && d.offset
                == offset && d.limit == limit && d.total == n,
        },
    }
}

/// The next step of listing the favorite tracks of user `user_id`, with
/// the paging asked for. The facts stay as they were, except that the
/// reply takes the tracks out of them.
pub fn all_favorites_step(
    user_id: &String,
    offset: Option<i64>,
    limit: Option<i64>,
    facts: &mut AllFavoritesFacts,
) -> (r: Step<FavoriteQuery, Response<Data>>)
    ensures
        all_favorites_next(user_id@, offset, limit, *old(facts), r),
        r matches Step::Reply(Response::data(_)) ==> *final(facts) == (AllFavoritesFacts {
            tracks: None,
            ..*old(facts)
        }),
        !(r matches Step::Reply(Response::data(_))) ==> *final(facts) == *old(facts),
{
    if facts.tracks.is_none() {
        return Step::Ask(FavoriteQuery::UserFavorites { user_id: user_id.clone(), offset, limit });
    }
    let total = match facts.total {
        None => return Step::Ask(FavoriteQuery::CountFavorites),
        Some(n) => n,
    };
    match facts.tracks.take() {
        Some(tracks) => Step::Reply(Response::data(Data { tracks, offset, limit, total })),
        None => {
            proof {
                assert(false);
            }
            Step::Ask(FavoriteQuery::CountFavorites)
        },
    }
}

/// The favorites routes: method and URI of each.
pub open spec fn favorites_table() -> Seq<(Method, Seq<char>)> {
    seq![
        (Method::Get, "/favorites?<offset>&<limit>"@),
        (Method::Post, "/favorites/<track_id>"@),
        (Method::Delete, "/favorites/<track_id>"@),
    ]
}

/// The favorites routes.
pub fn routes() -> (r: Vec<Route>)
    ensures
        table_of(r@) == favorites_table(),
{
    let mut r: Vec<Route> = Vec::new();
    r.push(route(Method::Get, "/favorites?<offset>&<limit>"));
    r.push(route(Method::Post, "/favorites/<track_id>"));
    r.push(route(Method::Delete, "/favorites/<track_id>"));
    assert(table_of(r@) =~= favorites_table());
    r
}

} // verus!
