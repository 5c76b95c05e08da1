use music_server::models::{Playlist, Track, TrackInRes};
use music_server::response::Response;
use music_server::routes::favorites::{
    all_favorites_step, new_favorite, AllFavoritesFacts, new_favorite_step, remove_favorite_step, FavoriteQuery, NewFavoriteFacts,
    RemoveFavoriteFacts,
};
use music_server::routes::playlists::{
    add_track_step, all_playlists_step, new_playlist, AllPlaylistsFacts, new_playlist_reply, new_playlist_track, one_playlist_step,
    remove_playlist_step, remove_track_step, update_playlist_step, NewPlaylistBody,
    OnePlaylistFacts, PlaylistQuery, PlaylistTrackFacts, RemovePlaylistFacts, UpdatePlaylistBody,
    UpdatePlaylistFacts,
};
use music_server::routes::Step;

fn track(id: &str) -> Track {
    Track {
        id: id.to_string(),
        title: "Song".to_string(),
        artist_id: None,
        album_id: None,
        duration: 200,
        year: None,
        track_number: None,
        last_play: None,
        plays: 0,
        path: "/music/song.mp3".to_string(),
        created_at: 0,
        updated_at: 0,
    }
}

fn playlist(id: &str) -> Playlist {
    Playlist {
        id: id.to_string(),
        user_id: "u1".to_string(),
        name: "Mix".to_string(),
        description: None,
        is_public: true,
        created_at: 0,
        updated_at: 0,
    }
}

fn s(x: &str) -> String {
    x.to_string()
}

fn empty_facts() -> PlaylistTrackFacts {
    PlaylistTrackFacts { playlist_exists: None, user_has_playlist: None, track: None, in_playlist: None, written: None }
}

fn expect_error<Q, T>(step: Step<Q, Response<T>>, msg: &str, detail: &str) {
    match step {
        Step::Reply(Response::error(e)) => {
            assert_eq!(e.msg, msg);
            assert_eq!(e.detail, detail);
        },
        _ => panic!("expected the error {msg} / {detail}"),
    }
}

#[test]
fn adding_a_track_asks_in_order_then_adds() {
    let (u, p, t) = (s("u1"), s("p1"), s("t1"));
    let mut f = empty_facts();
    assert!(matches!(add_track_step(&u, &p, &t, &mut f), Step::Ask(PlaylistQuery::PlaylistExists(x)) if x == "p1"));
    f.playlist_exists = Some(true);
    assert!(matches!(add_track_step(&u, &p, &t, &mut f), Step::Ask(PlaylistQuery::UserHasPlaylist(x)) if x == "u1"));
    f.user_has_playlist = Some(true);
    assert!(matches!(add_track_step(&u, &p, &t, &mut f), Step::Ask(PlaylistQuery::FetchTrack(x)) if x == "t1"));
    f.track = Some(Ok(track("t1")));
    assert!(matches!(
        add_track_step(&u, &p, &t, &mut f),
        Step::Ask(PlaylistQuery::TrackInPlaylist { playlist_id, track_id }) if playlist_id == "p1" && track_id == "t1"
    ));
    f.in_playlist = Some(false);
    assert!(matches!(
        add_track_step(&u, &p, &t, &mut f),
        Step::Ask(PlaylistQuery::AddTrack { playlist_id, track_id }) if playlist_id == "p1" && track_id == "t1"
    ));
    f.written = Some(Ok(()));
    match add_track_step(&u, &p, &t, &mut f) {
        Step::Reply(Response::data(tr)) => assert_eq!(tr.id, "t1"),
        _ => panic!(),
    }
    assert!(f.track.is_none());
}

#[test]
fn adding_a_track_refusals() {
    let (u, p, t) = (s("u1"), s("p1"), s("t1"));
    let mut f = empty_facts();
    f.playlist_exists = Some(false);
    expect_error(add_track_step(&u, &p, &t, &mut f), "Failed playlist does not exists", "Playlist does not exists");
    f.playlist_exists = Some(true);
    f.user_has_playlist = Some(false);
    expect_error(
        add_track_step(&u, &p, &t, &mut f),
        "Permission denied",
        "You are not allowd to add a track to this playlist",
    );
    f.user_has_playlist = Some(true);
    f.track = Some(Err(s("NotFound")));
    expect_error(add_track_step(&u, &p, &t, &mut f), "NotFound", "track('t1') does not exists");
    f.track = Some(Ok(track("t1")));
    f.in_playlist = Some(true);
    expect_error(add_track_step(&u, &p, &t, &mut f), "Failed to add track", "Track already exists in playlist");
    f.in_playlist = Some(false);
    f.written = Some(Err(s("db down")));
    expect_error(add_track_step(&u, &p, &t, &mut f), "db down", "Failed to add track('t1') to playlist('p1')");
    assert!(f.track.is_some());
}

#[test]
fn removing_a_track_asks_in_order_then_removes() {
    let (u, p, t) = (s("u1"), s("p1"), s("t1"));
    let mut f = empty_facts();
    f.playlist_exists = Some(true);
    f.user_has_playlist = Some(true);
    assert!(matches!(remove_track_step(&u, &p, &t, &mut f), Step::Ask(PlaylistQuery::TrackInPlaylist { .. })));
    f.in_playlist = Some(false);
    expect_error(remove_track_step(&u, &p, &t, &mut f), "Track does not exists in playlist", "");
    f.in_playlist = Some(true);
    assert!(matches!(remove_track_step(&u, &p, &t, &mut f), Step::Ask(PlaylistQuery::FetchTrack(_))));
    f.track = Some(Err(s("gone")));
    expect_error(remove_track_step(&u, &p, &t, &mut f), "Track does not exists", "gone");
    f.track = Some(Ok(track("t1")));
    assert!(matches!(remove_track_step(&u, &p, &t, &mut f), Step::Ask(PlaylistQuery::RemoveTrack { .. })));
    f.written = Some(Err(s("locked")));
    expect_error(remove_track_step(&u, &p, &t, &mut f), "Failed to remove track from playlist", "locked");
    f.written = Some(Ok(()));
    assert!(matches!(remove_track_step(&u, &p, &t, &mut f), Step::Reply(Response::data(tr)) if tr.id == "t1"));
}

#[test]
fn removing_a_playlist() {
    let (u, p) = (s("u1"), s("p1"));
    let mut f = RemovePlaylistFacts { user_has_playlist: None, deleted: None };
    assert!(matches!(remove_playlist_step(&u, &p, &mut f), Step::Ask(PlaylistQuery::UserHasPlaylist(_))));
    f.user_has_playlist = Some(false);
    expect_error(remove_playlist_step(&u, &p, &mut f), "Permission denied", "You are not allowd to remove this playlist");
    f.user_has_playlist = Some(true);
    assert!(matches!(remove_playlist_step(&u, &p, &mut f), Step::Ask(PlaylistQuery::DeletePlaylist(x)) if x == "p1"));
    f.deleted = Some(Err(s("no row")));
    expect_error(remove_playlist_step(&u, &p, &mut f), "Failed to delete playlist", "no row");
    f.deleted = Some(Ok(playlist("p1")));
    assert!(matches!(remove_playlist_step(&u, &p, &mut f), Step::Reply(Response::data(pl)) if pl.id == "p1"));
}

#[test]
fn updating_a_playlist() {
    let (u, p) = (s("u1"), s("p1"));
    let c = UpdatePlaylistBody { name: Some(s("New name")), description: None, is_public: Some(false) };
    let mut f = UpdatePlaylistFacts { playlist_exists: Some(false), user_has_playlist: None, updated: None };
    expect_error(update_playlist_step(&u, &p, &c, &mut f), "Failed playlist does not exists", "Playlist does not exists");
    f.playlist_exists = Some(true);
    f.user_has_playlist = Some(false);
    expect_error(update_playlist_step(&u, &p, &c, &mut f), "Permission denied", "You are not allowd to update this playlist");
    f.user_has_playlist = Some(true);
    match update_playlist_step(&u, &p, &c, &mut f) {
        Step::Ask(PlaylistQuery::UpdatePlaylist { playlist_id, changes }) => {
            assert_eq!(playlist_id, "p1");
            assert_eq!(changes.name.as_deref(), Some("New name"));
            assert_eq!(changes.description, None);
            assert_eq!(changes.is_public, Some(false));
        },
        _ => panic!(),
    }
    f.updated = Some(Err(s("There are no changes to save")));
    expect_error(update_playlist_step(&u, &p, &c, &mut f), "There are no changes to save", "");
    f.updated = Some(Ok(playlist("p1")));
    assert!(matches!(update_playlist_step(&u, &p, &c, &mut f), Step::Reply(Response::data(_))));
}

#[test]
fn creating_a_playlist() {
    let body = NewPlaylistBody { name: s("Road"), description: Some(s("trip")), is_public: false };
    let row = new_playlist(&s("u1"), body);
    assert_eq!(row.id.chars().count(), 21);
    assert_eq!(row.user_id, "u1");
    assert_eq!(row.name, "Road");
    assert_eq!(row.description.as_deref(), Some("trip"));
    assert!(!row.is_public);
    assert!(matches!(new_playlist_reply(Ok(playlist("p2"))), Response::data(p) if p.id == "p2"));
    match new_playlist_reply(Err(s("bad"))) {
        Response::error(e) => {
            assert_eq!(e.msg, "bad");
            assert_eq!(e.detail, "");
        },
        _ => panic!(),
    }
    let m = new_playlist_track(&s("p1"), &s("t1"));
    assert_eq!((m.playlist_id.as_str(), m.track_id.as_str(), m.id.chars().count()), ("p1", "t1", 21));
}

#[test]
fn fetching_one_playlist() {
    let (u, p) = (s("u1"), s("p1"));
    let mut f = OnePlaylistFacts { playlist: None, tracks: None };
    assert!(matches!(
        one_playlist_step(&u, &p, &mut f),
        Step::Ask(PlaylistQuery::FetchOwnedPlaylist { user_id, playlist_id }) if user_id == "u1" && playlist_id == "p1"
    ));
    f.playlist = Some(Err(s("not found")));
    expect_error(one_playlist_step(&u, &p, &mut f), "Failed to fetch playlist", "not found");
    f.playlist = Some(Ok(playlist("p1")));
    assert!(matches!(one_playlist_step(&u, &p, &mut f), Step::Ask(PlaylistQuery::PlaylistTracks(x)) if x == "p1"));
    let tr = TrackInRes { track: track("t1"), artist: None, album: None, features: vec![] };
    f.tracks = Some(vec![tr]);
    match one_playlist_step(&u, &p, &mut f) {
        Step::Reply(Response::data(pl)) => {
            assert_eq!(pl.playlist.id, "p1");
            assert_eq!(pl.tracks.len(), 1);
        },
        _ => panic!(),
    }
}

#[test]
fn adding_a_favorite() {
    let (u, t) = (s("u1"), s("t1"));
    let mut f = NewFavoriteFacts { track: None, already_favorite: None, written: None };
    assert!(matches!(new_favorite_step(&u, &t, &mut f), Step::Ask(FavoriteQuery::FetchTrack(x)) if x == "t1"));
    f.track = Some(Err(s("x")));
    expect_error(new_favorite_step(&u, &t, &mut f), "Track does not exists", "Track does not exists");
    f.track = Some(Ok(track("t1")));
    assert!(matches!(new_favorite_step(&u, &t, &mut f), Step::Ask(FavoriteQuery::IsFavorite { .. })));
    f.already_favorite = Some(true);
    expect_error(new_favorite_step(&u, &t, &mut f), "Already in favorites", "Track is already in favorites");
    f.already_favorite = Some(false);
    assert!(matches!(
        new_favorite_step(&u, &t, &mut f),
        Step::Ask(FavoriteQuery::AddFavorite { user_id, track_id }) if user_id == "u1" && track_id == "t1"
    ));
    f.written = Some(Err(s("dup")));
    expect_error(new_favorite_step(&u, &t, &mut f), "dup", "Failed to add track to favorites");
    f.written = Some(Ok(()));
    assert!(matches!(new_favorite_step(&u, &t, &mut f), Step::Reply(Response::data(tr)) if tr.id == "t1"));
    let row = new_favorite(&u, &t);
    assert_eq!((row.user_id.as_str(), row.track_id.as_str(), row.id.chars().count()), ("u1", "t1", 21));
}

#[test]
fn removing_a_favorite() {
    let (u, t) = (s("u1"), s("t1"));
    let mut f = RemoveFavoriteFacts { removed: None, track: None };
    assert!(matches!(remove_favorite_step(&u, &t, &mut f), Step::Ask(FavoriteQuery::RemoveFavorite { .. })));
    f.removed = Some(Err(s("oops")));
    expect_error(remove_favorite_step(&u, &t, &mut f), "oops", "Track does not exists in favorites");
    f.removed = Some(Ok(()));
    assert!(matches!(remove_favorite_step(&u, &t, &mut f), Step::Ask(FavoriteQuery::FetchTrack(_))));
    f.track = Some(track("t1"));
    assert!(matches!(remove_favorite_step(&u, &t, &mut f), Step::Reply(Response::data(tr)) if tr.id == "t1"));
}

#[test]
fn listing_playlists_loads_each_playlists_tracks_then_the_total() {
    let u = s("u1");
    let mut f = AllPlaylistsFacts { playlists: None, tracks: Vec::new(), total: None };
    match all_playlists_step(&u, Some(0), Some(10), &mut f) {
        Step::Ask(PlaylistQuery::UserPlaylists { user_id, offset, limit }) => {
            assert_eq!((user_id.as_str(), offset, limit), ("u1", Some(0), Some(10)));
        },
        _ => panic!(),
    }
    f.playlists = Some(vec![playlist("p1"), playlist("p2")]);
    assert!(matches!(all_playlists_step(&u, Some(0), Some(10), &mut f), Step::Ask(PlaylistQuery::PlaylistTracks(p)) if p == "p1"));
    f.tracks.push(vec![]);
    assert!(matches!(all_playlists_step(&u, Some(0), Some(10), &mut f), Step::Ask(PlaylistQuery::PlaylistTracks(p)) if p == "p2"));
    f.tracks.push(vec![TrackInRes { track: track("t1"), artist: None, album: None, features: vec![] }]);
    assert!(matches!(all_playlists_step(&u, Some(0), Some(10), &mut f), Step::Ask(PlaylistQuery::CountFavorites)));
    f.total = Some(7);
    match all_playlists_step(&u, Some(0), Some(10), &mut f) {
        Step::Reply(Response::data(d)) => {
            assert_eq!(d.playlists.len(), 2);
            assert_eq!(d.playlists[0].playlist.id, "p1");
            assert!(d.playlists[0].tracks.is_empty());
            assert_eq!(d.playlists[1].playlist.id, "p2");
            assert_eq!(d.playlists[1].tracks[0].track.id, "t1");
            assert_eq!((d.offset, d.limit, d.total), (Some(0), Some(10), 7));
        },
        _ => panic!(),
    }
    assert!(f.playlists.is_none() && f.tracks.is_empty() && f.total == Some(7));
    let mut none = AllPlaylistsFacts { playlists: Some(vec![]), tracks: Vec::new(), total: Some(0) };
    assert!(matches!(all_playlists_step(&u, None, None, &mut none), Step::Reply(Response::data(d)) if d.playlists.is_empty() && d.offset.is_none()));
}

#[test]
fn listing_favorites_loads_the_page_then_the_total() {
    let u = s("u1");
    let mut f = AllFavoritesFacts { tracks: None, total: None };
    match all_favorites_step(&u, None, Some(5), &mut f) {
        Step::Ask(FavoriteQuery::UserFavorites { user_id, offset, limit }) => {
            assert_eq!((user_id.as_str(), offset, limit), ("u1", None, Some(5)));
        },
        _ => panic!(),
    }
    f.tracks = Some(vec![TrackInRes { track: track("t9"), artist: None, album: None, features: vec![] }]);
    assert!(matches!(all_favorites_step(&u, None, Some(5), &mut f), Step::Ask(FavoriteQuery::CountFavorites)));
    f.total = Some(12);
    match all_favorites_step(&u, None, Some(5), &mut f) {
        Step::Reply(Response::data(d)) => {
            assert_eq!(d.tracks.len(), 1);
            assert_eq!(d.tracks[0].track.id, "t9");
            assert_eq!((d.offset, d.limit, d.total), (None, Some(5), 12));
        },
        _ => panic!(),
    }
    assert!(f.tracks.is_none() && f.total == Some(12));
}
