//! The rows the server reads and writes, and the shapes it answers with.
//! Points in time are microseconds since the Unix epoch, in UTC.
use vstd::prelude::*;

verus! {

/// A performer.
pub struct Artist {
    pub id: String,
    pub name: String,
    pub created_at: i64,
    pub updated_at: i64,
}

/// An album, credited to one artist.
pub struct Album {
    pub id: String,
    pub title: String,
    pub artist_id: String,
    pub created_at: i64,
    pub updated_at: i64,
}

/// A track of the library, with the file it is read from.
pub struct Track {
    pub id: String,
    pub title: String,
    pub artist_id: Option<String>,
    pub album_id: Option<String>,
    pub duration: i32,
    pub year: Option<i32>,
    pub track_number: Option<i32>,
    pub last_play: Option<i64>,
    pub plays: i32,
    pub path: String,
    pub created_at: i64,
    pub updated_at: i64,
}

/// A track as the API shows it: with its artist, its album and the
/// artists featured on it.
pub struct TrackInRes {
    pub track: Track,
    pub artist: Option<Artist>,
    pub album: Option<Album>,
    pub features: Vec<Artist>,
}

/// An album with its artist and its tracks.
pub struct AlbumWithTracks {
    pub album: Album,
    pub artist: Artist,
    pub tracks: Vec<TrackInRes>,
}

/// An artist with the tracks credited to it and those it is featured on.
pub struct ArtistWithTracks {
    pub artist: Artist,
    pub featured_on: Vec<TrackInRes>,
    pub tracks: Vec<TrackInRes>,
}

/// A user's playlist.
pub struct Playlist {
    pub id: String,
    pub user_id: String,
    pub name: String,
    pub description: Option<String>,
    pub is_public: bool,
    pub created_at: i64,
    pub updated_at: i64,
}

/// A playlist with its tracks.
pub struct PlaylistInRes {
    pub playlist: Playlist,
    pub tracks: Vec<TrackInRes>,
}

/// A playlist about to be stored.
pub struct NewPlaylist {
    pub id: String,
    pub user_id: String,
    pub name: String,
    pub description: Option<String>,
    pub is_public: bool,
}

/// The membership of a track in a playlist, about to be stored.
pub struct NewPlaylistTrack {
    pub id: String,
    pub playlist_id: String,
    pub track_id: String,
}

/// A favorite, about to be stored.
pub struct NewFavorite {
    pub id: String,
    pub user_id: String,
    pub track_id: String,
}

/// An account. `password` holds the bcrypt hash of the password.
pub struct User {
    pub id: String,
    pub name: String,
    pub password: String,
    pub created_at: i64,
    pub updated_at: i64,
}

/// An account about to be stored.
pub struct NewUser {
    pub id: String,
    pub name: String,
    pub password: String,
}

/// A session token.
pub struct Token {
    pub id: String,
    pub user_id: String,
    pub created_at: i64,
    pub expires_at: i64,
}

/// A session token about to be stored.
pub struct NewToken {
    pub id: String,
    pub user_id: String,
    pub expires_at: i64,
}

/// The record of one scan of the music folder.
pub struct ScanInfo {
    pub id: String,
    pub scan_start: i64,
    pub scan_end: Option<i64>,
    pub is_done: bool,
    pub artists: i32,
    pub albums: i32,
    pub tracks: i32,
}

impl Clone for Artist {
    fn clone(&self) -> (r: Self)
        ensures
            r == *self,
    {
        Artist {
            id: self.id.clone(),
            name: self.name.clone(),
            created_at: self.created_at,
            updated_at: self.updated_at,
        }
    }
}

impl Clone for Album {
    fn clone(&self) -> (r: Self)
        ensures
            r == *self,
    {
        Album {
            id: self.id.clone(),
            title: self.title.clone(),
            artist_id: self.artist_id.clone(),
            created_at: self.created_at,
            updated_at: self.updated_at,
        }
    }
}

/// The view of an optional text.
pub open spec fn opt_view(s: Option<String>) -> Option<Seq<char>> {
    match s {
        Some(x) => Some(x@),
        None => None,
    }
}

impl Track {
    /// The track as the API shows it, with the artist and album rows its
    /// keys point to and the artists featured on it.
    pub fn in_response(self, artist: Option<Artist>, album: Option<Album>, features: Vec<Artist>) -> (r:
        TrackInRes)
        requires
            artist is Some <==> self.artist_id is Some,
            album is Some <==> self.album_id is Some,
            artist matches Some(a) ==> Some(a.id@) == opt_view(self.artist_id),
            album matches Some(a) ==> Some(a.id@) == opt_view(self.album_id),
        ensures
            r == (TrackInRes { track: self, artist, album, features }),
    {
        TrackInRes { track: self, artist, album, features }
    }
}

} // verus!
