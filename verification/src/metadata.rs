//! Metadata loader: derives the display title and artist of a track from
//! whatever embedded tag the host could read, falling back to the bare file
//! name and a placeholder artist.

use vstd::prelude::*;
use vstd::string::*;

verus! {

/// The fields of an embedded tag that the display cares about, as the host
/// hands them over after reading the file. A field absent from the tag is
/// `None`.
pub struct TagInfo {
    pub title: Option<String>,
    pub artist: Option<String>,
}

/// What the player displays for one track.
pub struct TrackMetadata {
    pub title: String,
    pub artist: String,
}

/// The display title: the tag's title when the tag was read and carries one,
/// the placeholder when the tag was read without one, and the bare file name
/// when no tag could be read at all.
pub open spec fn title_of(tag: Option<TagInfo>, filename: Seq<char>) -> Seq<char> {
    match tag {
        Some(info) => match info.title {
            Some(t) => t@,
            None => "Unknown Title"@,
        },
        None => filename,
    }
}

/// The display artist: the tag's artist when the tag was read and carries
/// one, and the placeholder otherwise.
pub open spec fn artist_of(tag: Option<TagInfo>) -> Seq<char> {
    match tag {
        Some(info) => match info.artist {
            Some(a) => a@,
            None => "Unknown Artist"@,
        },
        None => "Unknown Artist"@,
    }
}

/// Derive the display metadata of a track from the tag the host read (or
/// failed to read) and the track's file name. Every outcome of the read
/// yields something displayable; in particular a track with no readable tag
/// shows its file name as the title and the placeholder artist.
pub fn load_metadata(tag: Option<TagInfo>, filename: &str) -> (m: TrackMetadata)
    ensures
        m.title@ == title_of(tag, filename@),
        m.artist@ == artist_of(tag),
{
    match tag {
        Some(info) => {
            let title = match info.title {
                Some(t) => t,
                None => String::from_str("Unknown Title"),
            };
            let artist = match info.artist {
                Some(a) => a,
                None => String::from_str("Unknown Artist"),
            };
            TrackMetadata { title, artist }
        },
        None => TrackMetadata {
            title: String::from_str(filename),
            artist: String::from_str("Unknown Artist"),
        },
    }
}

} // verus!
