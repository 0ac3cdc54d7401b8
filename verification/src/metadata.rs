//! What a decode source reports of a file once, when it opens it.

use vstd::prelude::*;

verus! {

/// The shape of a stream.
#[derive(Clone, Copy, Debug, PartialEq, Eq, Structural)]
pub struct StreamInfo {
    /// The number of frames in the whole stream.
    pub frames: i64,
    /// The samples per second.
    pub samplerate: i32,
    /// The number of channels.
    pub channels: i32,
}

/// The tags of a file. A tag that the file lacks is empty.
#[derive(Clone, Debug, PartialEq, Eq)]
pub struct Tags {
    pub title: String,
    pub copyright: String,
    pub software: String,
    pub artist: String,
    pub comment: String,
    pub date: String,
    pub album: String,
    pub license: String,
    pub track_number: String,
    pub genre: String,
}

impl Tags {
    /// True when every tag is empty.
    pub open spec fn is_empty(&self) -> bool {
        &&& self.title@.len() == 0
        &&& self.copyright@.len() == 0
        &&& self.software@.len() == 0
        &&& self.artist@.len() == 0
        &&& self.comment@.len() == 0
        &&& self.date@.len() == 0
        &&& self.album@.len() == 0
        &&& self.license@.len() == 0
        &&& self.track_number@.len() == 0
        &&& self.genre@.len() == 0
    }

    /// The tags of a file that has none.
    pub fn empty() -> (tags: Tags)
        ensures
            tags.is_empty(),
    {
        Tags {
            title: String::new(),
            copyright: String::new(),
            software: String::new(),
            artist: String::new(),
            comment: String::new(),
            date: String::new(),
            album: String::new(),
            license: String::new(),
            track_number: String::new(),
            genre: String::new(),
        }
    }
}

} // verus!
