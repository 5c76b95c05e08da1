//! The streaming endpoint: counts a play of the track and serves its file.
use vstd::prelude::*;

use crate::models::Track;
use crate::routes::Step;
use crate::text::owned;

verus! {

/// A question that the streaming endpoint asks about the track and its
/// file.
pub enum StreamQuery {
    /// Load the track with this id.
    FetchTrack(String),
    /// Set the play count of the track with this id.
    SetPlays { id: String, plays: i32 },
    /// Does a file exist at this path?
    FileExists(String),
    /// Open the file at this path for streaming.
    OpenFile(String),
}

/// What has been answered so far for a stream request. Failing to save
/// the play count is only logged, so its answer carries nothing.
pub struct StreamFacts {
    pub track: Option<Result<Track, String>>,
    pub plays_saved: Option<()>,
    pub file_exists: Option<bool>,
    pub opened: Option<Result<(), String>>,
}

/// How a stream request proceeds: the track must exist; its play count
/// goes up by one; its file must exist and open; then the opened file is
/// the reply (`Ok`). Failures reply with a text (`Err`).
pub open spec fn stream_next(id: Seq<char>, facts: StreamFacts, r: Step<StreamQuery, Result<(), String>>) -> bool {
    match facts.track {
        None => r matches Step::Ask(StreamQuery::FetchTrack(t)) && t@ == id,
        Some(Err(e)) => r matches Step::Reply(Err(m)) && m@ == e@,
        Some(Ok(track)) => match facts.plays_saved {
            None => r matches Step::Ask(StreamQuery::SetPlays { id: t, plays: p }) && t@ == id && p
                == track.plays + 1,
            Some(()) => match facts.file_exists {
                None => r matches Step::Ask(StreamQuery::FileExists(p)) && p@ == track.path@,
                Some(false) => r matches Step::Reply(Err(m)) && m@ == "Track file does not exists!"@,
                Some(true) => match facts.opened {
                    None => r matches Step::Ask(StreamQuery::OpenFile(p)) && p@ == track.path@,
                    Some(Err(e)) => r matches Step::Reply(Err(m)) && m@ == e@,
                    Some(Ok(())) => r matches Step::Reply(Ok(())),
                },
            },
        },
    }
}

/// The next step of streaming track `id`. A track whose play count is at
/// the largest `i32` cannot be counted once more.
pub fn stream_step(id: &String, facts: &StreamFacts) -> (r: Step<StreamQuery, Result<(), String>>)
    requires
        facts.track matches Some(Ok(t)) ==> t.plays < i32::MAX,
    ensures
        stream_next(id@, *facts, r),
{
    let track = match &facts.track {
        None => return Step::Ask(StreamQuery::FetchTrack(id.clone())),
        Some(Err(e)) => return Step::Reply(Err(e.clone())),
        Some(Ok(t)) => t,
    };
    if facts.plays_saved.is_none() {
        return Step::Ask(StreamQuery::SetPlays { id: id.clone(), plays: track.plays + 1 });
    }
    match &facts.file_exists {
        None => return Step::Ask(StreamQuery::FileExists(track.path.clone())),
        Some(false) => return Step::Reply(Err(owned("Track file does not exists!"))),
        Some(true) => {},
    }
    match &facts.opened {
        None => Step::Ask(StreamQuery::OpenFile(track.path.clone())),
        Some(Err(e)) => Step::Reply(Err(e.clone())),
        Some(Ok(())) => Step::Reply(Ok(())),
    }
}

} // verus!
