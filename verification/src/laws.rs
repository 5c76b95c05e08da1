//! Properties that hold across the endpoints and their helpers.
use vstd::prelude::*;

use crate::auth::{
    bearer_marker, contains_bearer, has_second_word, is_ws, second_word, second_word_start,
    skip_word, skip_ws,
};
use crate::models::{NewToken, User};
use crate::password::bcrypt_verifies;
use crate::response::Response;
use crate::routes::auth::{is_session_of, login_next, AccountQuery, Data, LoginFacts};
use crate::routes::favorites::{new_favorite_next, FavoriteQuery, FavoriteStep, NewFavoriteFacts};
use crate::models::Playlist;
use crate::routes::playlists::{
    add_track_next, remove_playlist_next, remove_track_next, update_playlist_next, PlaylistQuery,
    PlaylistTrackFacts, RemovePlaylistFacts, TrackStep, UpdatePlaylistBody, UpdatePlaylistFacts,
};
use crate::routes::Step;

verus! {

/// A track is written into a playlist only once every check has passed:
/// the playlist exists, the user owns a playlist, the track exists and is
/// not in the playlist yet; and it is written into that playlist.
pub proof fn add_track_only_after_checks(
    user_id: Seq<char>,
    playlist_id: Seq<char>,
    track_id: Seq<char>,
    facts: PlaylistTrackFacts,
    r: TrackStep,
)
    requires
        add_track_next(user_id, playlist_id, track_id, facts, r),
        r matches Step::Ask(PlaylistQuery::AddTrack { .. }),
    ensures
        facts.playlist_exists == Some(true),
        facts.user_has_playlist == Some(true),
        facts.track matches Some(Ok(_)),
        facts.in_playlist == Some(false),
        facts.written is None,
        r matches Step::Ask(PlaylistQuery::AddTrack { playlist_id: p, track_id: t }) && p@
            == playlist_id && t@ == track_id,
{
}

/// A track already in a playlist is never added to it again: once the
/// other checks pass, the request is refused as a duplicate.
pub proof fn add_track_refuses_duplicates(
    user_id: Seq<char>,
    playlist_id: Seq<char>,
    track_id: Seq<char>,
    facts: PlaylistTrackFacts,
    r: TrackStep,
)
    requires
        add_track_next(user_id, playlist_id, track_id, facts, r),
        facts.in_playlist == Some(true),
    ensures
        !(r matches Step::Ask(PlaylistQuery::AddTrack { .. })),
        (facts.playlist_exists == Some(true) && facts.user_has_playlist == Some(true) && (
        facts.track matches Some(Ok(_)))) ==> (r matches Step::Reply(Response::error(e))
            && e.msg@ == "Failed to add track"@ && e.detail@ == "Track already exists in playlist"@),
{
}

/// A track is removed from a playlist only once every check has passed:
/// the playlist exists, the user owns a playlist, the track is in the
/// playlist and exists.
pub proof fn remove_track_only_after_checks(
    user_id: Seq<char>,
    playlist_id: Seq<char>,
    track_id: Seq<char>,
    facts: PlaylistTrackFacts,
    r: TrackStep,
)
    requires
        remove_track_next(user_id, playlist_id, track_id, facts, r),
        r matches Step::Ask(PlaylistQuery::RemoveTrack { .. }),
    ensures
        facts.playlist_exists == Some(true),
        facts.user_has_playlist == Some(true),
        facts.in_playlist == Some(true),
        facts.track matches Some(Ok(_)),
        facts.written is None,
{
}

/// A track that is not in a playlist is never removed from it: once the
/// playlist's existence and the permission check have passed, the request
/// is refused.
pub proof fn remove_track_refuses_absent(
    user_id: Seq<char>,
    playlist_id: Seq<char>,
    track_id: Seq<char>,
    facts: PlaylistTrackFacts,
    r: TrackStep,
)
    requires
        remove_track_next(user_id, playlist_id, track_id, facts, r),
        facts.in_playlist == Some(false),
    ensures
        !(r matches Step::Ask(PlaylistQuery::RemoveTrack { .. })),
        (facts.playlist_exists == Some(true) && facts.user_has_playlist == Some(true)) ==> (
        r matches Step::Reply(Response::error(e)) && e.msg@ == "Track does not exists in playlist"@
            && e.detail@ == ""@),
{
}

/// A playlist is deleted or updated only once the permission check has
/// passed: the user owns at least one playlist (the check asks no more
/// than that, not whether it is this one); for an update, the playlist
/// must also exist. The write names the requested playlist and, for an
/// update, the requested changes.
pub proof fn playlist_written_only_after_permission_check(
    user_id: Seq<char>,
    playlist_id: Seq<char>,
    changes: UpdatePlaylistBody,
    remove_facts: RemovePlaylistFacts,
    removal: Step<PlaylistQuery, Response<Playlist>>,
    update_facts: UpdatePlaylistFacts,
    update: Step<PlaylistQuery, Response<Playlist>>,
)
    requires
        remove_playlist_next(user_id, playlist_id, remove_facts, removal),
        update_playlist_next(user_id, playlist_id, changes, update_facts, update),
    ensures
        (removal matches Step::Ask(PlaylistQuery::DeletePlaylist(p))) ==> (
        remove_facts.user_has_playlist == Some(true) && (removal matches Step::Ask(
            PlaylistQuery::DeletePlaylist(p),
        ) && p@ == playlist_id)),
        (update matches Step::Ask(PlaylistQuery::UpdatePlaylist { .. })) ==> (
        update_facts.playlist_exists == Some(true) && update_facts.user_has_playlist == Some(true)
            && (update matches Step::Ask(PlaylistQuery::UpdatePlaylist { playlist_id: p, changes: c })
            && p@ == playlist_id && c == changes)),
        remove_facts.user_has_playlist == Some(false) ==> !(removal matches Step::Ask(
            PlaylistQuery::DeletePlaylist(_),
        )),
        update_facts.user_has_playlist == Some(false) ==> !(update matches Step::Ask(
            PlaylistQuery::UpdatePlaylist { .. },
        )),
{
}

/// A favorite is stored only for an existing track that is not yet a
/// favorite of the user; a track already among the favorites is refused.
pub proof fn favorite_added_once(
    user_id: Seq<char>,
    track_id: Seq<char>,
    facts: NewFavoriteFacts,
    r: FavoriteStep,
)
    requires
        new_favorite_next(user_id, track_id, facts, r),
    ensures
        (r matches Step::Ask(FavoriteQuery::AddFavorite { .. })) ==> ((facts.track matches Some(
            Ok(_),
        )) && facts.already_favorite == Some(false)),
        ((facts.track matches Some(Ok(_))) && facts.already_favorite == Some(true)) ==> (
        r matches Step::Reply(Response::error(e)) && e.msg@ == "Already in favorites"@),
{
}

/// A user whose stored hash was made from a password (as [`new_user`]
/// makes it at signup) logs in with that password: the login is not
/// refused, a session is opened for the user, and the reply carries the
/// 128-character id of the session token opened for that user.
///
/// [`new_user`]: crate::routes::auth::new_user
pub proof fn signed_up_password_logs_in(
    username: Seq<char>,
    password: Seq<char>,
    user: User,
    token: Option<NewToken>,
    r: Step<AccountQuery, Response<Data>>,
)
    requires
        bcrypt_verifies(password, user.password@),
        token matches Some(t) ==> is_session_of(t, user.id@),
        login_next(
            username,
            password,
            LoginFacts { user_exists: Some(true), user: Some(Ok(user)), token },
            r,
        ),
    ensures
        token is None ==> (r matches Step::Ask(AccountQuery::IssueToken(u)) && u@ == user.id@),
        token matches Some(t) ==> (r matches Step::Reply(Response::data(d)) && d.token@ == t.id@
            && d.token@.len() == 128 && t.user_id@ == user.id@),
{
}

/// A password that does not verify against the stored hash is refused,
/// and no session is opened.
pub proof fn wrong_password_is_refused(
    username: Seq<char>,
    password: Seq<char>,
    user: User,
    token: Option<NewToken>,
    r: Step<AccountQuery, Response<Data>>,
)
    requires
        !bcrypt_verifies(password, user.password@),
        login_next(
            username,
            password,
            LoginFacts { user_exists: Some(true), user: Some(Ok(user)), token },
            r,
        ),
    ensures
        r matches Step::Reply(Response::error(e)) && e.msg@ == "Failed to login"@ && e.detail@
            == "Incorrect password"@,
{
}

proof fn lemma_skip_word_over(s: Seq<char>, i: int, end: int)
    requires
        0 <= i <= end <= s.len(),
        forall|k: int| i <= k < end ==> !is_ws(#[trigger] s[k]),
        end == s.len() || is_ws(s[end]),
    ensures
        skip_word(s, i) == end,
    decreases end - i,
{
    if i < end {
        lemma_skip_word_over(s, i + 1, end);
    }
}

/// The header `Bearer <token>` carries the token, for every non-empty
/// token without white space.
pub proof fn bearer_header_carries_token(token: Seq<char>)
    requires
        token.len() > 0,
        forall|k: int| 0 <= k < token.len() ==> !is_ws(#[trigger] token[k]),
    ensures
        contains_bearer(bearer_marker() + token),
        has_second_word(bearer_marker() + token),
        second_word(bearer_marker() + token) == token,
{
    let s = bearer_marker() + token;
    assert(s.subrange(0, 7) =~= bearer_marker());
    assert(s[0] == 'B');
    assert(skip_ws(s, 0) == 0);
    assert(forall|k: int| 0 <= k < 6 ==> #[trigger] s[k] == bearer_marker()[k]);
    lemma_skip_word_over(s, 0, 6);
    assert(s[6] == ' ');
    assert(s[7] == token[0]);
    assert(skip_ws(s, 7) == 7);
    assert(skip_ws(s, 6) == 7);
    assert(second_word_start(s) == 7);
    assert forall|k: int| 7 <= k < s.len() implies !is_ws(#[trigger] s[k]) by {
        assert(s[k] == token[k - 7]);
    }
    lemma_skip_word_over(s, 7, s.len() as int);
    assert(second_word(s) =~= token);
}

} // verus!
