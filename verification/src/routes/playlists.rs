//! The playlist endpoints: listing, fetching, creating, updating and
//! removing playlists, and adding and removing their tracks.
use vstd::prelude::*;

use crate::ids::{is_nanoid, new_id};
use crate::models::{NewPlaylist, NewPlaylistTrack, Playlist, PlaylistInRes, Track, TrackInRes};
use crate::response::{ResError, Response};
use crate::routes::{error_reply, error_reply_of, is_error_reply, route, table_of, Method, Route, Step};
use crate::text::{concat3, concat5, owned};

verus! {

/// A question that a playlist endpoint asks the database.
pub enum PlaylistQuery {
    /// Does a playlist with this id exist?
    PlaylistExists(String),
    /// Does this user own at least one playlist?
    UserHasPlaylist(String),
    /// Load the track with this id.
    FetchTrack(String),
    /// Is the track in the playlist?
    TrackInPlaylist { playlist_id: String, track_id: String },
    /// Store the track in the playlist (under a fresh id, see
    /// [`new_playlist_track`]) and say whether that worked.
    AddTrack { playlist_id: String, track_id: String },
    /// Remove the track from the playlist and say whether that worked.
    RemoveTrack { playlist_id: String, track_id: String },
    /// Delete the playlist with this id and hand back the deleted row.
    DeletePlaylist(String),
    /// Set the given fields of the playlist with this id (the others
    /// stay) and hand back the updated row.
    UpdatePlaylist { playlist_id: String, changes: UpdatePlaylistBody },
    /// Load the playlist with this id if this user owns it.
    FetchOwnedPlaylist { user_id: String, playlist_id: String },
    /// Load the tracks of the playlist with this id, each with its artist,
    /// album and features.
    PlaylistTracks(String),
    /// Load this user's playlists, newest first, skipping the first
    /// `offset` of them and keeping at most `limit` (all when not given).
    UserPlaylists { user_id: String, offset: Option<i64>, limit: Option<i64> },
    /// Count the rows of the favorites table: the total that the listing
    /// of playlists reports.
    CountFavorites,
}

/// What the database has answered so far to an endpoint that works on
/// one track of one playlist. `None` stands for a question not asked yet;
/// an `Err` carries the database's error text.
pub struct PlaylistTrackFacts {
    pub playlist_exists: Option<bool>,
    pub user_has_playlist: Option<bool>,
    pub track: Option<Result<Track, String>>,
    pub in_playlist: Option<bool>,
    pub written: Option<Result<(), String>>,
}

/// The reply of the endpoints that add or remove a track: the track,
/// which the caller shows with its artist, album and features.
pub type TrackStep = Step<PlaylistQuery, Response<Track>>;

/// How adding a track to a playlist proceeds: the playlist must exist,
/// the user must own a playlist, the track must exist and must not be in
/// the playlist yet; then the track is added.
pub open spec fn add_track_next(
    user_id: Seq<char>,
    playlist_id: Seq<char>,
    track_id: Seq<char>,
    facts: PlaylistTrackFacts,
    r: TrackStep,
) -> bool {
    match facts.playlist_exists {
        None => r matches Step::Ask(PlaylistQuery::PlaylistExists(p)) && p@ == playlist_id,
        Some(false) => is_error_reply(
            r,
            "Failed playlist does not exists"@,
            "Playlist does not exists"@,
        ),
        Some(true) => match facts.user_has_playlist {
            None => r matches Step::Ask(PlaylistQuery::UserHasPlaylist(u)) && u@ == user_id,
            Some(false) => is_error_reply(
                r,
                "Permission denied"@,
                "You are not allowd to add a track to this playlist"@,
            ),
            Some(true) => match facts.track {
                None => r matches Step::Ask(PlaylistQuery::FetchTrack(t)) && t@ == track_id,
                Some(Err(e)) => is_error_reply(
                    r,
                    e@,
                    "track('"@ + track_id + "') does not exists"@,
                ),
                Some(Ok(track)) => match facts.in_playlist {
                    None => r matches Step::Ask(
                        PlaylistQuery::TrackInPlaylist { playlist_id: p, track_id: t },
                    ) && p@ == playlist_id && t@ == track_id,
                    Some(true) => is_error_reply(
                        r,
                        "Failed to add track"@,
                        "Track already exists in playlist"@,
                    ),
                    Some(false) => match facts.written {
                        None => r matches Step::Ask(
                            PlaylistQuery::AddTrack { playlist_id: p, track_id: t },
                        ) && p@ == playlist_id && t@ == track_id,
                        Some(Err(e)) => is_error_reply(
                            r,
                            e@,
                            "Failed to add track('"@ + track_id + "') to playlist('"@ + playlist_id
                                + "')"@,
                        ),
                        Some(Ok(())) => r == Step::<PlaylistQuery, Response<Track>>::Reply(
                            Response::data(track),
                        ),
                    },
                },
            },
        },
    }
}

/// The next step of adding track `track_id` to playlist `playlist_id` on
/// behalf of user `user_id`. The facts stay as they were, except that the
/// reply with the track takes the track out of them.
pub fn add_track_step(
    user_id: &String,
    playlist_id: &String,
    track_id: &String,
    facts: &mut PlaylistTrackFacts,
) -> (r: TrackStep)
    ensures
        add_track_next(user_id@, playlist_id@, track_id@, *old(facts), r),
        r matches Step::Reply(Response::data(_)) ==> *final(facts) == (PlaylistTrackFacts {
            track: None,
            ..*old(facts)
        }),
        !(r matches Step::Reply(Response::data(_))) ==> *final(facts) == *old(facts),
{
    match &facts.playlist_exists {
        None => return Step::Ask(PlaylistQuery::PlaylistExists(playlist_id.clone())),
        Some(false) => return error_reply(
            "Failed playlist does not exists",
            "Playlist does not exists",
        ),
        Some(true) => {},
    }
    match &facts.user_has_playlist {
        None => return Step::Ask(PlaylistQuery::UserHasPlaylist(user_id.clone())),
        Some(false) => return error_reply(
            "Permission denied",
            "You are not allowd to add a track to this playlist",
        ),
        Some(true) => {},
    }
    match &facts.track {
        None => return Step::Ask(PlaylistQuery::FetchTrack(track_id.clone())),
        Some(Err(e)) => return error_reply_of(
            e.clone(),
            concat3("track('", track_id.as_str(), "') does not exists"),
        ),
        Some(Ok(_)) => {},
    }
    match &facts.in_playlist {
        None => return Step::Ask(
            PlaylistQuery::TrackInPlaylist {
                playlist_id: playlist_id.clone(),
                track_id: track_id.clone(),
            },
        ),
        Some(true) => return error_reply("Failed to add track", "Track already exists in playlist"),
        Some(false) => {},
    }
    match &facts.written {
        None => return Step::Ask(
            PlaylistQuery::AddTrack { playlist_id: playlist_id.clone(), track_id: track_id.clone() },
        ),
        Some(Err(e)) => return error_reply_of(
            e.clone(),
            concat5(
                "Failed to add track('",
                track_id.as_str(),
                "') to playlist('",
                playlist_id.as_str(),
                "')",
            ),
        ),
        Some(Ok(())) => {},
    }
    take_track_reply(facts)
}

/// Replies with the track of the facts, taking it out of them.
fn take_track_reply(facts: &mut PlaylistTrackFacts) -> (r: TrackStep)
    requires
        old(facts).track matches Some(Ok(_)),
    ensures
        old(facts).track matches Some(Ok(t)) && r == Step::<PlaylistQuery, Response<Track>>::Reply(
            Response::data(t),
        ),
        *final(facts) == (PlaylistTrackFacts { track: None, ..*old(facts) }),
{
    match facts.track.take() {
        Some(Ok(track)) => Step::Reply(Response::data(track)),
        _ => {
            proof {
                assert(false);
            }
            Step::Ask(PlaylistQuery::FetchTrack(owned("")))
        },
    }
}

/// How removing a track from a playlist proceeds: the playlist must
/// exist, the user must own a playlist, the track must be in the playlist
/// and must exist; then it is removed.
pub open spec fn remove_track_next(
    user_id: Seq<char>,
    playlist_id: Seq<char>,
    track_id: Seq<char>,
    facts: PlaylistTrackFacts,
    r: TrackStep,
) -> bool {
    match facts.playlist_exists {
        None => r matches Step::Ask(PlaylistQuery::PlaylistExists(p)) && p@ == playlist_id,
        Some(false) => is_error_reply(
            r,
            "Failed playlist does not exists"@,
            "Playlist does not exists"@,
        ),
        Some(true) => match facts.user_has_playlist {
            None => r matches Step::Ask(PlaylistQuery::UserHasPlaylist(u)) && u@ == user_id,
            Some(false) => is_error_reply(
                r,
                "Permission denied"@,
                "You are not allowd to add a track to this playlist"@,
            ),
            Some(true) => match facts.in_playlist {
                None => r matches Step::Ask(
                    PlaylistQuery::TrackInPlaylist { playlist_id: p, track_id: t },
                ) && p@ == playlist_id && t@ == track_id,
                Some(false) => is_error_reply(r, "Track does not exists in playlist"@, ""@),
                Some(true) => match facts.track {
                    None => r matches Step::Ask(PlaylistQuery::FetchTrack(t)) && t@ == track_id,
                    Some(Err(e)) => is_error_reply(r, "Track does not exists"@, e@),
                    Some(Ok(track)) => match facts.written {
                        None => r matches Step::Ask(
                            PlaylistQuery::RemoveTrack { playlist_id: p, track_id: t },
                        ) && p@ == playlist_id && t@ == track_id,
                        Some(Err(e)) => is_error_reply(
                            r,
                            "Failed to remove track from playlist"@,
                            e@,
                        ),
                        Some(Ok(())) => r == Step::<PlaylistQuery, Response<Track>>::Reply(
                            Response::data(track),
                        ),
                    },
                },
            },
        },
    }
}

/// The next step of removing track `track_id` from playlist
/// `playlist_id` on behalf of user `user_id`. The facts stay as they were,
/// except that the reply with the track takes the track out of them.
pub fn remove_track_step(
    user_id: &String,
    playlist_id: &String,
    track_id: &String,
    facts: &mut PlaylistTrackFacts,
) -> (r: TrackStep)
    ensures
        remove_track_next(user_id@, playlist_id@, track_id@, *old(facts), r),
        r matches Step::Reply(Response::data(_)) ==> *final(facts) == (PlaylistTrackFacts {
            track: None,
            ..*old(facts)
        }),
        !(r matches Step::Reply(Response::data(_))) ==> *final(facts) == *old(facts),
{
    match &facts.playlist_exists {
        None => return Step::Ask(PlaylistQuery::PlaylistExists(playlist_id.clone())),
        Some(false) => return error_reply(
            "Failed playlist does not exists",
            "Playlist does not exists",
        ),
        Some(true) => {},
    }
    match &facts.user_has_playlist {
        None => return Step::Ask(PlaylistQuery::UserHasPlaylist(user_id.clone())),
        Some(false) => return error_reply(
            "Permission denied",
            "You are not allowd to add a track to this playlist",
        ),
        Some(true) => {},
    }
    match &facts.in_playlist {
        None => return Step::Ask(
            PlaylistQuery::TrackInPlaylist {
                playlist_id: playlist_id.clone(),
                track_id: track_id.clone(),
            },
        ),
        Some(false) => return error_reply("Track does not exists in playlist", ""),
        Some(true) => {},
    }
    match &facts.track {
        None => return Step::Ask(PlaylistQuery::FetchTrack(track_id.clone())),
        Some(Err(e)) => return error_reply_of(owned("Track does not exists"), e.clone()),
        Some(Ok(_)) => {},
    }
    match &facts.written {
        None => return Step::Ask(
            PlaylistQuery::RemoveTrack {
                playlist_id: playlist_id.clone(),
                track_id: track_id.clone(),
            },
        ),
        Some(Err(e)) => return error_reply_of(
            owned("Failed to remove track from playlist"),
            e.clone(),
        ),
        Some(Ok(())) => {},
    }
    take_track_reply(facts)
}

/// The membership row that adds track `track_id` to playlist
/// `playlist_id`, under a fresh id.
pub fn new_playlist_track(playlist_id: &String, track_id: &String) -> (r: NewPlaylistTrack)
    ensures
        is_nanoid(r.id@, 21),
        r.playlist_id@ == playlist_id@,
        r.track_id@ == track_id@,
{
    NewPlaylistTrack { id: new_id(), playlist_id: playlist_id.clone(), track_id: track_id.clone() }
}

/// What the database has answered so far when a playlist is removed.
pub struct RemovePlaylistFacts {
    pub user_has_playlist: Option<bool>,
    pub deleted: Option<Result<Playlist, String>>,
}

/// How removing a playlist proceeds: the user must own a playlist; then
/// the playlist is deleted and the deleted row is the reply.
pub open spec fn remove_playlist_next(
    user_id: Seq<char>,
    playlist_id: Seq<char>,
    facts: RemovePlaylistFacts,
    r: Step<PlaylistQuery, Response<Playlist>>,
) -> bool {
    match facts.user_has_playlist {
        None => r matches Step::Ask(PlaylistQuery::UserHasPlaylist(u)) && u@ == user_id,
        Some(false) => is_error_reply(
            r,
            "Permission denied"@,
            "You are not allowd to remove this playlist"@,
        ),
        Some(true) => match facts.deleted {
            None => r matches Step::Ask(PlaylistQuery::DeletePlaylist(p)) && p@ == playlist_id,
            Some(Err(e)) => is_error_reply(r, "Failed to delete playlist"@, e@),
            Some(Ok(p)) => r == Step::<PlaylistQuery, Response<Playlist>>::Reply(
                Response::data(p),
            ),
        },
    }
}

/// The next step of removing playlist `playlist_id` on behalf of user
/// `user_id`. The facts stay as they were, except that the reply with the
/// deleted playlist takes it out of them.
pub fn remove_playlist_step(
    user_id: &String,
    playlist_id: &String,
    facts: &mut RemovePlaylistFacts,
) -> (r: Step<PlaylistQuery, Response<Playlist>>)
    ensures
        remove_playlist_next(user_id@, playlist_id@, *old(facts), r),
        r matches Step::Reply(Response::data(_)) ==> *final(facts) == (RemovePlaylistFacts {
            deleted: None,
            ..*old(facts)
        }),
        !(r matches Step::Reply(Response::data(_))) ==> *final(facts) == *old(facts),
{
    match &facts.user_has_playlist {
        None => return Step::Ask(PlaylistQuery::UserHasPlaylist(user_id.clone())),
        Some(false) => return error_reply(
            "Permission denied",
            "You are not allowd to remove this playlist",
        ),
        Some(true) => {},
    }
    match &facts.deleted {
        None => return Step::Ask(PlaylistQuery::DeletePlaylist(playlist_id.clone())),
        Some(Err(e)) => return error_reply_of(owned("Failed to delete playlist"), e.clone()),
        Some(Ok(_)) => {},
    }
    match facts.deleted.take() {
        Some(Ok(p)) => Step::Reply(Response::data(p)),
        _ => {
            proof {
                assert(false);
            }
            Step::Ask(PlaylistQuery::DeletePlaylist(owned("")))
        },
    }
}

/// The fields of a playlist that an update sets; the others stay.
pub struct UpdatePlaylistBody {
    pub name: Option<String>,
    pub description: Option<String>,
    pub is_public: Option<bool>,
}

/// What the database has answered so far when a playlist is updated.
pub struct UpdatePlaylistFacts {
    pub playlist_exists: Option<bool>,
    pub user_has_playlist: Option<bool>,
    pub updated: Option<Result<Playlist, String>>,
}

/// How updating a playlist proceeds: the playlist must exist and the user
/// must own a playlist; then the update is applied and the updated row is
/// the reply.
pub open spec fn update_playlist_next(
    user_id: Seq<char>,
    playlist_id: Seq<char>,
    changes: UpdatePlaylistBody,
    facts: UpdatePlaylistFacts,
    r: Step<PlaylistQuery, Response<Playlist>>,
) -> bool {
    match facts.playlist_exists {
        None => r matches Step::Ask(PlaylistQuery::PlaylistExists(p)) && p@ == playlist_id,
        Some(false) => is_error_reply(
            r,
            "Failed playlist does not exists"@,
            "Playlist does not exists"@,
        ),
        Some(true) => match facts.user_has_playlist {
            None => r matches Step::Ask(PlaylistQuery::UserHasPlaylist(u)) && u@ == user_id,
            Some(false) => is_error_reply(
                r,
                "Permission denied"@,
                "You are not allowd to update this playlist"@,
            ),
            Some(true) => match facts.updated {
                None => r matches Step::Ask(PlaylistQuery::UpdatePlaylist { playlist_id: p, changes: c })
                    && p@ == playlist_id && c == changes,
                Some(Err(e)) => is_error_reply(r, e@, ""@),
                Some(Ok(p)) => r == Step::<PlaylistQuery, Response<Playlist>>::Reply(
                    Response::data(p),
                ),
            },
        },
    }
}

/// The next step of setting the fields `changes` of playlist
/// `playlist_id` on behalf of user `user_id`. The facts stay as they
/// were, except that the reply with the updated playlist takes it out of
/// them.
pub fn update_playlist_step(
    user_id: &String,
    playlist_id: &String,
    changes: &UpdatePlaylistBody,
    facts: &mut UpdatePlaylistFacts,
) -> (r: Step<PlaylistQuery, Response<Playlist>>)
    ensures
        update_playlist_next(user_id@, playlist_id@, *changes, *old(facts), r),
        r matches Step::Reply(Response::data(_)) ==> *final(facts) == (UpdatePlaylistFacts {
            updated: None,
            ..*old(facts)
        }),
        !(r matches Step::Reply(Response::data(_))) ==> *final(facts) == *old(facts),
{
    match &facts.playlist_exists {
        None => return Step::Ask(PlaylistQuery::PlaylistExists(playlist_id.clone())),
        Some(false) => return error_reply(
            "Failed playlist does not exists",
            "Playlist does not exists",
        ),
        Some(true) => {},
    }
    match &facts.user_has_playlist {
        None => return Step::Ask(PlaylistQuery::UserHasPlaylist(user_id.clone())),
        Some(false) => return error_reply(
            "Permission denied",
            "You are not allowd to update this playlist",
        ),
        Some(true) => {},
    }
    match &facts.updated {
        None => return Step::Ask(
            PlaylistQuery::UpdatePlaylist {
                playlist_id: playlist_id.clone(),
                changes: UpdatePlaylistBody {
                    name: changes.name.clone(),
                    description: changes.description.clone(),
                    is_public: changes.is_public,
                },
            },
        ),
        Some(Err(e)) => return error_reply_of(e.clone(), owned("")),
        Some(Ok(_)) => {},
    }
    match facts.updated.take() {
        Some(Ok(p)) => Step::Reply(Response::data(p)),
        _ => {
            proof {
                assert(false);
            }
            Step::Ask(PlaylistQuery::PlaylistExists(owned("")))
        },
    }
}

/// The body of a request that creates a playlist.
pub struct NewPlaylistBody {
    pub name: String,
    pub description: Option<String>,
    pub is_public: bool,
}

/// The row of a new playlist of user `user_id`, under a fresh id.
pub fn new_playlist(user_id: &String, body: NewPlaylistBody) -> (r: NewPlaylist)
    ensures
        is_nanoid(r.id@, 21),
        r.user_id@ == user_id@,
        r.name == body.name,
        r.description == body.description,
        r.is_public == body.is_public,
{
    NewPlaylist {
        id: new_id(),
        user_id: user_id.clone(),
        name: body.name,
        description: body.description,
        is_public: body.is_public,
    }
}

/// The reply to creating a playlist, given what storing it gave back.
pub fn new_playlist_reply(stored: Result<Playlist, String>) -> (r: Response<Playlist>)
    ensures
        match stored {
            Ok(p) => r == Response::data(p),
            Err(e) => r matches Response::error(x) && x.msg == e && x.detail@ == ""@,
        },
{
    match stored {
        Ok(p) => Response::data(p),
        Err(e) => Response::error(ResError { msg: e, detail: owned("") }),
    }
}

/// What the database has answered so far when one playlist is fetched.
pub struct OnePlaylistFacts {
    pub playlist: Option<Result<Playlist, String>>,
    pub tracks: Option<Vec<TrackInRes>>,
}

/// How fetching a playlist proceeds: the playlist is loaded if the user
/// owns it, then its tracks.
pub open spec fn one_playlist_next(
    user_id: Seq<char>,
    playlist_id: Seq<char>,
    facts: OnePlaylistFacts,
    r: Step<PlaylistQuery, Response<PlaylistInRes>>,
) -> bool {
    match facts.playlist {
        None => r matches Step::Ask(
            PlaylistQuery::FetchOwnedPlaylist { user_id: u, playlist_id: p },
        ) && u@ == user_id && p@ == playlist_id,
        Some(Err(e)) => is_error_reply(r, "Failed to fetch playlist"@, e@),
        Some(Ok(p)) => match facts.tracks {
            None => r matches Step::Ask(PlaylistQuery::PlaylistTracks(i)) && i@ == p.id@,
            Some(tracks) => r == Step::<PlaylistQuery, Response<PlaylistInRes>>::Reply(
                Response::data(PlaylistInRes { playlist: p, tracks }),
            ),
        },
    }
}

/// The next step of fetching playlist `playlist_id` of user `user_id`.
/// The facts stay as they were, except that the reply takes the playlist
/// and its tracks out of them.
pub fn one_playlist_step(user_id: &String, playlist_id: &String, facts: &mut OnePlaylistFacts) -> (r:
    Step<PlaylistQuery, Response<PlaylistInRes>>)
    ensures
        one_playlist_next(user_id@, playlist_id@, *old(facts), r),
        r matches Step::Reply(Response::data(_)) ==> *final(facts) == (OnePlaylistFacts {
            playlist: None,
            tracks: None,
        }),
        !(r matches Step::Reply(Response::data(_))) ==> *final(facts) == *old(facts),
{
    match &facts.playlist {
        None => return Step::Ask(
            PlaylistQuery::FetchOwnedPlaylist {
                user_id: user_id.clone(),
                playlist_id: playlist_id.clone(),
            },
        ),
        Some(Err(e)) => return error_reply_of(owned("Failed to fetch playlist"), e.clone()),
        Some(Ok(p)) => {
            if facts.tracks.is_none() {
                return Step::Ask(PlaylistQuery::PlaylistTracks(p.id.clone()));
            }
        },
    }
    let playlist = facts.playlist.take();
    let tracks = facts.tracks.take();
    match (playlist, tracks) {
        (Some(Ok(playlist)), Some(tracks)) => Step::Reply(
            Response::data(PlaylistInRes { playlist, tracks }),
        ),
        _ => {
            proof {
                assert(false);
            }
            Step::Ask(PlaylistQuery::PlaylistTracks(owned("")))
        },
    }
}

/// One page of a user's playlists.
pub struct Data {
    pub playlists: Vec<PlaylistInRes>,
    pub offset: Option<i64>,
    pub limit: Option<i64>,
    pub total: i64,
}

/// What the database has answered so far when a user's playlists are
/// listed: the page of playlists, the tracks of the first of them (in
/// order, one list per playlist), and the total.
pub struct AllPlaylistsFacts {
    pub playlists: Option<Vec<Playlist>>,
    pub tracks: Vec<Vec<TrackInRes>>,
    pub total: Option<i64>,
}

/// Each playlist beside its tracks.
pub open spec fn playlists_with_tracks(
    playlists: Seq<Playlist>,
    tracks: Seq<Vec<TrackInRes>>,
) -> Seq<PlaylistInRes> {
    Seq::new(playlists.len(), |i: int| PlaylistInRes { playlist: playlists[i], tracks: tracks[i] })
}

/// How listing a user's playlists proceeds: the page of the user's
/// playlists is loaded, then the tracks of each playlist in turn, then the
/// total (which counts the favorites table, as the listing always has);
/// the reply holds each playlist with its tracks, the paging asked for and
/// that total.
pub open spec fn all_playlists_next(
    user_id: Seq<char>,
    offset: Option<i64>,
    limit: Option<i64>,
    facts: AllPlaylistsFacts,
    r: Step<PlaylistQuery, Response<Data>>,
) -> bool {
    match facts.playlists {
        None => r matches Step::Ask(PlaylistQuery::UserPlaylists { user_id: u, offset: o, limit: l })
            && u@ == user_id && o == offset && l == limit,
        Some(ps) => if facts.tracks.len() < ps.len() {
            r matches Step::Ask(PlaylistQuery::PlaylistTracks(i)) && i@ == ps@[facts.tracks.len() as int].id@
        } else {
            match facts.total {
                None => r matches Step::Ask(PlaylistQuery::CountFavorites),
                Some(n) => r matches Step::Reply(Response::data(d)) && d.playlists@
                    == playlists_with_tracks(ps@, facts.tracks@) && d.offset == offset && d.limit
                    == limit && d.total == n,
            }
        },
    }
}

/// The next step of listing the playlists of user `user_id`, with the
/// paging asked for. The tracks handed back are those of the playlists in
/// order, so never more lists than playlists. The facts stay as they were,
/// except that the reply takes the playlists and their tracks out of them.
pub fn all_playlists_step(
    user_id: &String,
    offset: Option<i64>,
    limit: Option<i64>,
    facts: &mut AllPlaylistsFacts,
) -> (r: Step<PlaylistQuery, Response<Data>>)
    requires
        old(facts).playlists matches Some(ps) ==> old(facts).tracks.len() <= ps.len(),
    ensures
        all_playlists_next(user_id@, offset, limit, *old(facts), r),
        r matches Step::Reply(Response::data(_)) ==> {
            &&& final(facts).playlists is None
            &&& final(facts).tracks@.len() == 0
            &&& final(facts).total == old(facts).total
        },
        !(r matches Step::Reply(Response::data(_))) ==> *final(facts) == *old(facts),
{
    match &facts.playlists {
        None => return Step::Ask(
            PlaylistQuery::UserPlaylists { user_id: user_id.clone(), offset, limit },
        ),
        Some(ps) => {
            if facts.tracks.len() < ps.len() {
                let i = facts.tracks.len();
                return Step::Ask(PlaylistQuery::PlaylistTracks(ps[i].id.clone()));
            }
        },
    }
    let total = match facts.total {
        None => return Step::Ask(PlaylistQuery::CountFavorites),
        Some(n) => n,
    };
    let mut ps = match facts.playlists.take() {
        Some(ps) => ps,
        None => {
            proof {
                assert(false);
            }
            Vec::new()
        },
    };
    let mut ts: Vec<Vec<TrackInRes>> = Vec::new();
    std::mem::swap(&mut ts, &mut facts.tracks);
    let ghost ps0 = ps@;
    let ghost ts0 = ts@;
    assert(ps0.len() == ts0.len());
    let mut out: Vec<PlaylistInRes> = Vec::new();
    let mut n: usize = 0;
    while ps.len() > 0
        invariant
            n + ps.len() == ps0.len(),
            ps0.len() == ts0.len(),
            ps0.len() <= usize::MAX,
            ps@ == ps0.skip(n as int),
            ts@ == ts0.skip(n as int),
            out.len() == n,
            forall|k: int| 0 <= k < n ==> #[trigger] out[k] == playlists_with_tracks(ps0, ts0)[k],
        decreases ps.len(),
    {
        let p = ps.remove(0);
        let t = ts.remove(0);
        out.push(PlaylistInRes { playlist: p, tracks: t });
        n = n + 1;
    }
    assert(out@ =~= playlists_with_tracks(ps0, ts0));
    Step::Reply(Response::data(Data { playlists: out, offset, limit, total }))
}

/// The playlist routes: method and URI of each.
pub open spec fn playlists_table() -> Seq<(Method, Seq<char>)> {
    seq![
        (Method::Get, "/playlists?<offset>&<limit>"@),
        (Method::Get, "/playlists/<id>"@),
        (Method::Post, "/playlists"@),
        (Method::Delete, "/playlists/<id>"@),
        (Method::Post, "/playlists/<id>/<track_id>"@),
        (Method::Patch, "/playlists/<id>"@),
        (Method::Delete, "/playlists/<id>/<track_id>"@),
    ]
}

/// The playlist routes.
pub fn routes() -> (r: Vec<Route>)
    ensures
        table_of(r@) == playlists_table(),
{
    let mut r: Vec<Route> = Vec::new();
    r.push(route(Method::Get, "/playlists?<offset>&<limit>"));
    r.push(route(Method::Get, "/playlists/<id>"));
    r.push(route(Method::Post, "/playlists"));
    r.push(route(Method::Delete, "/playlists/<id>"));
    r.push(route(Method::Post, "/playlists/<id>/<track_id>"));
    r.push(route(Method::Patch, "/playlists/<id>"));
    r.push(route(Method::Delete, "/playlists/<id>/<track_id>"));
    assert(table_of(r@) =~= playlists_table());
    r
}

} // verus!
