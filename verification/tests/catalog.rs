use music_server::grouping::grouped_by;
use music_server::models::{Album, Artist, ScanInfo, Track};
use music_server::response::Response;
use music_server::routes::albums::albums_with_tracks;
use music_server::routes::artists::{
    artists_with_tracks, credit_rows, one_artist_step, ArtistQuery, OneArtistFacts,
};
use music_server::routes::picture::{
    cover_step, picture_step, select_picture, PicType, Picture, PictureFacts, PictureQuery,
};
use music_server::routes::scan::{run_scan_reply, scan_info_reply, scan_reply};
use music_server::routes::search::search_pattern;
use music_server::routes::stats::stats_reply;
use music_server::routes::stream::{stream_step, StreamFacts, StreamQuery};
use music_server::routes::tracks::{track_reply, tracks_reply};
use music_server::routes::{albums, artists, auth, favorites, playlists, scan, search, tracks};
use music_server::routes::{routes, Method, Step};
use music_server::startup::{startup_scan, StartupScan};

fn s(x: &str) -> String {
    x.to_string()
}

fn artist(id: &str) -> Artist {
    Artist { id: s(id), name: format!("Artist {id}"), created_at: 0, updated_at: 0 }
}

fn album(id: &str, artist_id: &str) -> Album {
    Album { id: s(id), title: format!("Album {id}"), artist_id: s(artist_id), created_at: 0, updated_at: 0 }
}

fn track(id: &str, artist_id: Option<&str>, album_id: Option<&str>) -> Track {
    Track {
        id: s(id),
        title: format!("Track {id}"),
        artist_id: artist_id.map(s),
        album_id: album_id.map(s),
        duration: 180,
        year: Some(2020),
        track_number: None,
        last_play: None,
        plays: 7,
        path: format!("/music/{id}.mp3"),
        created_at: 0,
        updated_at: 0,
    }
}

fn scan(id: &str) -> ScanInfo {
    ScanInfo { id: s(id), scan_start: 0, scan_end: None, is_done: true, artists: 1, albums: 2, tracks: 3 }
}

#[test]
fn grouping_follows_parent_order_and_drops_orphans() {
    let ids = vec![s("a"), s("b"), s("c")];
    let children = vec![1, 2, 3, 4, 5, 6];
    let keys = vec![Some(s("b")), None, Some(s("a")), Some(s("zz")), Some(s("b")), Some(s("a"))];
    let g = grouped_by(&ids, children, &keys);
    assert_eq!(g, vec![vec![3, 6], vec![1, 5], vec![]]);
}

#[test]
fn grouping_puts_a_repeated_parent_id_in_the_last_slot() {
    let ids = vec![s("a"), s("a")];
    let g = grouped_by(&ids, vec![10, 20], &vec![Some(s("a")), Some(s("a"))]);
    assert_eq!(g, vec![vec![], vec![10, 20]]);
}

#[test]
fn grouping_keeps_every_child_whose_parent_is_listed() {
    let ids = vec![s("x"), s("y")];
    let keys = vec![Some(s("y")), Some(s("x")), Some(s("y")), Some(s("y"))];
    let g = grouped_by(&ids, vec![0, 1, 2, 3], &keys);
    assert_eq!(g.iter().map(|v| v.len()).sum::<usize>(), 4);
}

#[test]
fn album_listing_credits_tracks_to_the_album_artist() {
    let albums = vec![album("al1", "ar1"), album("al2", "ar2")];
    let artists = vec![artist("ar1"), artist("ar2")];
    let tracks = vec![
        track("t1", Some("other"), Some("al2")),
        track("t2", None, Some("al1")),
        track("t3", None, None),
        track("t4", Some("ar1"), Some("al2")),
    ];
    let features = vec![vec![artist("f1")], vec![], vec![], vec![artist("f2"), artist("f3")]];
    let out = albums_with_tracks(albums, artists, tracks, features);
    assert_eq!(out.len(), 2);
    assert_eq!(out[0].album.id, "al1");
    assert_eq!(out[0].artist.id, "ar1");
    assert_eq!(out[0].tracks.len(), 1);
    assert_eq!(out[0].tracks[0].track.id, "t2");
    assert_eq!(out[1].tracks.iter().map(|t| t.track.id.as_str()).collect::<Vec<_>>(), vec!["t1", "t4"]);
    for t in &out[1].tracks {
        assert_eq!(t.artist.as_ref().unwrap().id, "ar2");
        assert_eq!(t.album.as_ref().unwrap().id, "al2");
    }
    assert_eq!(out[1].tracks[1].features.len(), 2);
    assert_eq!(out[1].tracks[0].features[0].id, "f1");
}

#[test]
fn artist_listing_groups_tracks_by_artist() {
    let artists = vec![artist("ar1"), artist("ar2")];
    let rows = vec![
        (track("t1", Some("ar2"), None), Some(album("al1", "ar2")), vec![]),
        (track("t2", Some("ar1"), None), None, vec![artist("f")]),
        (track("t3", None, None), None, vec![]),
    ];
    let out = artists_with_tracks(artists, rows);
    assert_eq!(out.len(), 2);
    assert_eq!(out[0].tracks.len(), 1);
    assert_eq!(out[0].tracks[0].track.id, "t2");
    assert_eq!(out[0].tracks[0].artist.as_ref().unwrap().id, "ar1");
    assert_eq!(out[1].tracks[0].album.as_ref().unwrap().id, "al1");
    assert!(out[0].featured_on.is_empty() && out[1].featured_on.is_empty());
}

#[test]
fn crediting_rows_keeps_their_order() {
    let rows = vec![(track("a", None, None), None, vec![]), (track("b", None, None), None, vec![])];
    let out = credit_rows(rows, &artist("z"));
    assert_eq!(out.iter().map(|t| t.track.id.as_str()).collect::<Vec<_>>(), vec!["a", "b"]);
    assert!(out.iter().all(|t| t.artist.as_ref().unwrap().id == "z"));
}

#[test]
fn artist_page_steps() {
    let id = s("ar1");
    let mut f = OneArtistFacts { artist: None, tracks: None, featured: None };
    assert!(matches!(one_artist_step(&id, &mut f), Step::Ask(ArtistQuery::FetchArtist(x)) if x == "ar1"));
    f.artist = Some(Err(s("NotFound")));
    match one_artist_step(&id, &mut f) {
        Step::Reply(Response::error(e)) => {
            assert_eq!(e.msg, "NotFound");
            assert_eq!(e.detail, "Artist 'ar1' does not exists!");
        },
        _ => panic!(),
    }
    f.artist = Some(Ok(artist("ar1")));
    assert!(matches!(one_artist_step(&id, &mut f), Step::Ask(ArtistQuery::ArtistTracks(x)) if x == "ar1"));
    f.tracks = Some(Err(s("boom")));
    match one_artist_step(&id, &mut f) {
        Step::Reply(Response::error(e)) => assert_eq!(e.detail, "Failed to get tracks for artist 'ar1'!"),
        _ => panic!(),
    }
    f.tracks = Some(Ok(vec![(track("t1", Some("ar1"), None), None, vec![])]));
    assert!(matches!(one_artist_step(&id, &mut f), Step::Ask(ArtistQuery::FeaturedTracks(_))));
    f.featured = Some(vec![(track("t9", Some("ar7"), None), None, vec![artist("ar1")])]);
    match one_artist_step(&id, &mut f) {
        Step::Reply(Response::data(w)) => {
            assert_eq!(w.artist.id, "ar1");
            assert_eq!(w.tracks[0].track.id, "t1");
            assert_eq!(w.featured_on[0].track.id, "t9");
            assert_eq!(w.featured_on[0].artist.as_ref().unwrap().id, "ar1");
        },
        _ => panic!(),
    }
}

fn pic(kind: Option<PicType>, byte: u8) -> Picture {
    Picture { kind, data: vec![byte] }
}

#[test]
fn the_first_picture_of_the_type_is_chosen() {
    let pics = vec![pic(None, 0), pic(Some(PicType::cover_back), 1), pic(Some(PicType::cover_front), 2), pic(Some(PicType::cover_front), 3)];
    assert_eq!(select_picture(pics, PicType::cover_front), Some(vec![2]));
    let pics = vec![pic(Some(PicType::cover_back), 1)];
    assert_eq!(select_picture(pics, PicType::band_logo), None);
}

#[test]
fn picture_steps_default_to_the_front_cover() {
    let id = s("t1");
    let mut f = PictureFacts { track: None, file_exists: None, pictures: None };
    assert!(matches!(picture_step(&id, None, &mut f), Step::Ask(PictureQuery::FetchTrack(x)) if x == "t1"));
    f.track = Some(Err(s("x")));
    assert!(matches!(picture_step(&id, None, &mut f), Step::Reply(Err(m)) if m == "Track does not exists!"));
    assert!(matches!(cover_step(&id, &mut f), Step::Reply(Err(m)) if m == "Track not found!"));
    f.track = Some(Ok(track("t1", None, None)));
    assert!(matches!(picture_step(&id, None, &mut f), Step::Ask(PictureQuery::FileExists(p)) if p == "/music/t1.mp3"));
    f.file_exists = Some(false);
    assert!(matches!(picture_step(&id, None, &mut f), Step::Reply(Err(m)) if m == "Track file does not exists!"));
    assert!(matches!(cover_step(&id, &mut f), Step::Reply(Err(m)) if m == "Track file not found!"));
    f.file_exists = Some(true);
    assert!(matches!(picture_step(&id, None, &mut f), Step::Ask(PictureQuery::ReadPictures(_))));
    f.pictures = Some(vec![pic(Some(PicType::artist), 8), pic(Some(PicType::cover_front), 9)]);
    assert!(matches!(picture_step(&id, None, &mut f), Step::Reply(Ok(d)) if d == vec![9]));
    f.pictures = Some(vec![pic(Some(PicType::artist), 8), pic(Some(PicType::cover_front), 9)]);
    assert!(matches!(picture_step(&id, Some(PicType::artist), &mut f), Step::Reply(Ok(d)) if d == vec![8]));
    f.pictures = Some(vec![pic(Some(PicType::artist), 8)]);
    assert!(matches!(picture_step(&id, None, &mut f), Step::Reply(Err(m)) if m == "Picture does not exists!"));
    f.pictures = Some(vec![pic(Some(PicType::artist), 8)]);
    assert!(matches!(cover_step(&id, &mut f), Step::Reply(Err(m)) if m == "Cover not found!"));
}

#[test]
fn streaming_counts_one_more_play() {
    let id = s("t1");
    let mut f = StreamFacts { track: None, plays_saved: None, file_exists: None, opened: None };
    assert!(matches!(stream_step(&id, &f), Step::Ask(StreamQuery::FetchTrack(_))));
    f.track = Some(Err(s("no such track")));
    assert!(matches!(stream_step(&id, &f), Step::Reply(Err(m)) if m == "no such track"));
    f.track = Some(Ok(track("t1", None, None)));
    assert!(matches!(stream_step(&id, &f), Step::Ask(StreamQuery::SetPlays { id, plays: 8 }) if id == "t1"));
    f.plays_saved = Some(());
    assert!(matches!(stream_step(&id, &f), Step::Ask(StreamQuery::FileExists(_))));
    f.file_exists = Some(false);
    assert!(matches!(stream_step(&id, &f), Step::Reply(Err(m)) if m == "Track file does not exists!"));
    f.file_exists = Some(true);
    assert!(matches!(stream_step(&id, &f), Step::Ask(StreamQuery::OpenFile(p)) if p == "/music/t1.mp3"));
    f.opened = Some(Err(s("permission denied")));
    assert!(matches!(stream_step(&id, &f), Step::Reply(Err(m)) if m == "permission denied"));
    f.opened = Some(Ok(()));
    assert!(matches!(stream_step(&id, &f), Step::Reply(Ok(()))));
}

#[test]
fn scan_replies() {
    match run_scan_reply(true, &s("sc1")) {
        Response::error(e) => {
            assert_eq!(e.msg, "Scanner is already running");
            assert_eq!(e.detail, "");
        },
        _ => panic!(),
    }
    assert!(matches!(run_scan_reply(false, &s("sc1")), Response::data(d) if d.scan_id == "sc1"));
    assert!(matches!(scan_info_reply(Ok(scan("a"))), Response::data(d) if d.scan.id == "a"));
    assert!(matches!(scan_info_reply(Err(s("e"))), Response::error(x) if x.msg == "e" && x.detail == "Failed to get scan info!"));
    assert!(matches!(scan_reply(Err(s("io"))), Response::error(x) if x.msg == "io" && x.detail == "io"));
    assert!(matches!(scan_reply(Ok(None)), Response::data(None)));
}

#[test]
fn stats_use_the_last_scan_and_zero_for_failed_counts() {
    match stats_reply(Ok(vec![scan("1"), scan("2")]), Ok(3), Err(s("x")), Ok(40)) {
        Response::data(st) => {
            assert_eq!((st.artists, st.albums, st.tracks), (3, 0, 40));
            assert_eq!(st.last_scan.unwrap().id, "2");
        },
        _ => panic!(),
    }
    assert!(matches!(stats_reply(Ok(vec![]), Ok(0), Ok(0), Ok(0)), Response::data(st) if st.last_scan.is_none()));
    assert!(matches!(
        stats_reply(Err(s("down")), Ok(0), Ok(0), Ok(0)),
        Response::error(e) if e.msg == "down" && e.detail == "Failed to get scans info!"
    ));
}

#[test]
fn track_replies() {
    match tracks_reply(Ok(vec![track("t1", None, None)]), Some(5), None, 12) {
        Response::data(d) => {
            assert_eq!((d.tracks.len(), d.offset, d.limit, d.total), (1, Some(5), None, 12));
        },
        _ => panic!(),
    }
    assert!(matches!(tracks_reply(Err(s("e")), None, None, 0), Response::error(x) if x.detail == "Failed to get tracks"));
    assert!(matches!(track_reply("t7", Err(s("e"))), Response::error(x) if x.msg == "e" && x.detail == "Track 't7' does not exists!"));
    assert!(matches!(track_reply("t7", Ok(track("t7", None, None))), Response::data(d) if d.track.id == "t7"));
}

#[test]
fn search_pattern_wraps_the_query() {
    assert_eq!(search_pattern("beat"), "%beat%");
    assert_eq!(search_pattern(""), "%%");
    assert_eq!(search_pattern("50%"), "%50%%");
}

#[test]
fn api_routes_are_listed_once_each() {
    let r = routes();
    assert_eq!(r.len(), 27);
    let mut seen = std::collections::HashSet::new();
    for x in &r {
        assert!(seen.insert((format!("{:?}", x.method), x.uri.clone())));
    }
    assert_eq!(r[0].uri, "/stream/<id>");
    assert_eq!(r[0].method, Method::Get);
    assert_eq!((r[1].method, r[1].uri.as_str()), (Method::Get, "/picture/<id>?<pic_type>"));
    assert_eq!((r[2].method, r[2].uri.as_str()), (Method::Get, "/stats"));
    assert_eq!((r[3].method, r[3].uri.as_str()), (Method::Get, "/scan?<clean>"));
    assert_eq!((r[4].method, r[4].uri.as_str()), (Method::Post, "/login"));
    assert_eq!((r[20].method, r[20].uri.as_str()), (Method::Get, "/favorites?<offset>&<limit>"));
    assert_eq!(r[26].uri, "/search/albums?<q>&<offset>&<limit>");
    assert!(!r.iter().any(|x| x.uri == "/scan" || x.uri == "/scan/<id>"));
    assert!(r.iter().any(|x| x.method == Method::Patch && x.uri == "/playlists/<id>"));
}

#[test]
fn startup_scans_only_an_empty_library() {
    assert_eq!(startup_scan(2, false), StartupScan::Skip);
    assert_eq!(startup_scan(0, true), StartupScan::AlreadyRunning);
    assert_eq!(startup_scan(0, false), StartupScan::Start);
}

#[test]
fn a_track_in_response_carries_its_rows() {
    let t = track("t1", Some("ar1"), Some("al1"));
    let r = t.in_response(Some(artist("ar1")), Some(album("al1", "ar1")), vec![artist("f1")]);
    assert_eq!(r.track.id, "t1");
    assert_eq!(r.artist.unwrap().id, "ar1");
    assert_eq!(r.album.unwrap().id, "al1");
    assert_eq!(r.features[0].id, "f1");
}

#[test]
fn module_route_tables() {
    let uris = |v: Vec<music_server::routes::Route>| v.into_iter().map(|r| (r.method, r.uri)).collect::<Vec<_>>();
    assert_eq!(
        uris(albums::routes()),
        vec![(Method::Get, s("/albums?<artist>&<offset>&<limit>")), (Method::Get, s("/albums/<id>"))]
    );
    assert_eq!(uris(artists::routes()), vec![(Method::Get, s("/artists?<offset>&<limit>")), (Method::Get, s("/artists/<id>"))]);
    assert_eq!(
        uris(auth::routes()),
        vec![(Method::Post, s("/login")), (Method::Post, s("/logout")), (Method::Post, s("/signup"))]
    );
    assert_eq!(favorites::routes().len(), 3);
    assert_eq!(favorites::routes()[2].method, Method::Delete);
    let p = uris(playlists::routes());
    assert_eq!(p.len(), 7);
    assert_eq!(p[5], (Method::Patch, s("/playlists/<id>")));
    assert_eq!(uris(scan::routes()), vec![(Method::Post, s("/scan")), (Method::Get, s("/scan/<id>"))]);
    let one = scan::scan_route();
    assert_eq!((one.method, one.uri.as_str()), (Method::Get, "/scan?<clean>"));
    assert_eq!(search::routes().len(), 4);
    assert_eq!(tracks::routes()[1].uri, "/tracks/<id>");
}
