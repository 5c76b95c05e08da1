//! The picture endpoints: the embedded picture of a given type of a
//! track's file (the front cover unless asked otherwise), and the cover.
use vstd::prelude::*;

use crate::models::Track;
use crate::routes::Step;
use crate::text::owned;

verus! {

/// The types of picture an ID3 tag may embed.
#[allow(non_camel_case_types)]
#[derive(Debug, PartialEq, Eq, Structural)]
pub enum PicType {
    other,
    icon,
    other_icon,
    cover_front,
    cover_back,
    leaflet,
    media,
    lead_artist,
    artist,
    conductor,
    band,
    composer,
    lyricist,
    recording_location,
    during_recording,
    during_performance,
    screen_capture,
    bright_fish,
    illustration,
    band_logo,
    publisher_logo,
}

/// A picture embedded in a track's file: its type (none for a type code
/// outside the standard list) and its image data.
pub struct Picture {
    pub kind: Option<PicType>,
    pub data: Vec<u8>,
}

/// Picture `i` is the first one of type `wanted`.
pub open spec fn is_first_of_kind(pictures: Seq<Picture>, wanted: PicType, i: int) -> bool {
    &&& 0 <= i < pictures.len()
    &&& pictures[i].kind == Some(wanted)
    &&& forall|j: int| 0 <= j < i ==> (#[trigger] pictures[j]).kind != Some(wanted)
}

/// The image data of the first picture of type `wanted`, if there is one.
pub fn select_picture(pictures: Vec<Picture>, wanted: PicType) -> (r: Option<Vec<u8>>)
    ensures
        r matches Some(d) ==> exists|i: int|
            #[trigger] is_first_of_kind(pictures@, wanted, i) && d@ == pictures@[i].data@,
        r is None ==> forall|i: int|
            0 <= i < pictures.len() ==> (#[trigger] pictures@[i]).kind != Some(wanted),
{
    let ghost all = pictures@;
    assert(all.len() == pictures.len());
    let mut rest = pictures;
    let mut k: usize = 0;
    while rest.len() > 0
        invariant
            k + rest.len() == all.len(),
            all.len() <= usize::MAX,
            all == pictures@,
            rest@ == all.skip(k as int),
            forall|j: int| 0 <= j < k ==> (#[trigger] all[j]).kind != Some(wanted),
        decreases rest.len(),
    {
        let p = rest.remove(0);
        assert(p == all[k as int]);
        let hit = match &p.kind {
            Some(kind) => *kind == wanted,
            None => false,
        };
        if hit {
            assert(is_first_of_kind(all, wanted, k as int));
            return Some(p.data);
        }
        k = k + 1;
    }
    None
}

/// A question that a picture endpoint asks about the track and its file.
pub enum PictureQuery {
    /// Load the track with this id.
    FetchTrack(String),
    /// Does a file exist at this path?
    FileExists(String),
    /// Read the pictures of the ID3 tag of the file at this path.
    ReadPictures(String),
}

/// What has been answered so far for a picture request. Reading the tag
/// of an existing file always succeeds; the caller fails otherwise.
pub struct PictureFacts {
    pub track: Option<Result<Track, String>>,
    pub file_exists: Option<bool>,
    pub pictures: Option<Vec<Picture>>,
}

/// How a picture request proceeds: the track must exist, its file must
/// exist; then the first picture of type `wanted` in the file's tag is
/// the reply.
pub open spec fn picture_next(
    id: Seq<char>,
    wanted: PicType,
    texts: (Seq<char>, Seq<char>, Seq<char>),
    facts: PictureFacts,
    r: Step<PictureQuery, Result<Vec<u8>, String>>,
) -> bool {
    match facts.track {
        None => r matches Step::Ask(PictureQuery::FetchTrack(t)) && t@ == id,
        Some(Err(_)) => r matches Step::Reply(Err(m)) && m@ == texts.0,
        Some(Ok(track)) => match facts.file_exists {
            None => r matches Step::Ask(PictureQuery::FileExists(p)) && p@ == track.path@,
            Some(false) => r matches Step::Reply(Err(m)) && m@ == texts.1,
            Some(true) => match facts.pictures {
                None => r matches Step::Ask(PictureQuery::ReadPictures(p)) && p@ == track.path@,
                Some(pictures) => if exists|i: int| is_first_of_kind(pictures@, wanted, i) {
                    r matches Step::Reply(Ok(d)) && exists|i: int|
                        is_first_of_kind(pictures@, wanted, i) && d@ == pictures@[i].data@
                } else {
                    r matches Step::Reply(Err(m)) && m@ == texts.2
                },
            },
        },
    }
}

/// The next step of a request for the picture of type `wanted` of track
/// `id`, failing with the given texts. The answers about the track and
/// its file stay; the pictures stay or are taken out.
fn find_picture_step(
    id: &String,
    wanted: PicType,
    no_track: &str,
    no_file: &str,
    no_picture: &str,
    facts: &mut PictureFacts,
) -> (r: Step<PictureQuery, Result<Vec<u8>, String>>)
    ensures
        picture_next(id@, wanted, (no_track@, no_file@, no_picture@), *old(facts), r),
        final(facts).track == old(facts).track,
        final(facts).file_exists == old(facts).file_exists,
        final(facts).pictures is None || final(facts).pictures == old(facts).pictures,
        r is Ask ==> *final(facts) == *old(facts),
{
    match &facts.track {
        None => return Step::Ask(PictureQuery::FetchTrack(id.clone())),
        Some(Err(_)) => return Step::Reply(Err(owned(no_track))),
        Some(Ok(track)) => {
            match &facts.file_exists {
                None => return Step::Ask(PictureQuery::FileExists(track.path.clone())),
                Some(false) => return Step::Reply(Err(owned(no_file))),
                Some(true) => {},
            }
            if facts.pictures.is_none() {
                return Step::Ask(PictureQuery::ReadPictures(track.path.clone()));
            }
        },
    }
    let pictures = match facts.pictures.take() {
        Some(p) => p,
        None => {
            proof {
                assert(false);
            }
            Vec::new()
        },
    };
    match select_picture(pictures, wanted) {
        Some(d) => Step::Reply(Ok(d)),
        None => Step::Reply(Err(owned(no_picture))),
    }
}

/// The next step of a request for the picture of type `pic_type` (the
/// front cover when none is given) of track `id`.
pub fn picture_step(id: &String, pic_type: Option<PicType>, facts: &mut PictureFacts) -> (r: Step<
    PictureQuery,
    Result<Vec<u8>, String>,
>)
    ensures
        picture_next(
            id@,
            match pic_type {
                Some(t) => t,
                None => PicType::cover_front,
            },
            ("Track does not exists!"@, "Track file does not exists!"@, "Picture does not exists!"@),
            *old(facts),
            r,
        ),
        final(facts).track == old(facts).track,
        final(facts).file_exists == old(facts).file_exists,
        final(facts).pictures is None || final(facts).pictures == old(facts).pictures,
        r is Ask ==> *final(facts) == *old(facts),
{
    let wanted = match pic_type {
        Some(t) => t,
        None => PicType::cover_front,
    };
    find_picture_step(
        id,
        wanted,
        "Track does not exists!",
        "Track file does not exists!",
        "Picture does not exists!",
        facts,
    )
}

/// The next step of a request for the front cover of track `id`.
pub fn cover_step(id: &String, facts: &mut PictureFacts) -> (r: Step<
    PictureQuery,
    Result<Vec<u8>, String>,
>)
    ensures
        picture_next(
            id@,
            PicType::cover_front,
            ("Track not found!"@, "Track file not found!"@, "Cover not found!"@),
            *old(facts),
            r,
        ),
        final(facts).track == old(facts).track,
        final(facts).file_exists == old(facts).file_exists,
        final(facts).pictures is None || final(facts).pictures == old(facts).pictures,
        r is Ask ==> *final(facts) == *old(facts),
{
    find_picture_step(
        id,
        PicType::cover_front,
        "Track not found!",
        "Track file not found!",
        "Cover not found!",
        facts,
    )
}

} // verus!
