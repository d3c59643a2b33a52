//! Item kinds, resolved media, and the error taxonomy of the pipeline.

use vstd::prelude::*;

verus! {

use crate::strutil::str_eq;

/// Kind of item a source link points at.
#[derive(Debug, Clone, Copy, PartialEq, Eq, Structural)]
pub enum ItemType {
    Video,
    Photo,
    Unknown,
}

/// The item kind a kind token stands for: `"video"` and `"photo"` are the
/// recognized tokens; any other token is `Unknown`.
pub open spec fn kind_of_token(t: Seq<char>) -> ItemType {
    if t == "video"@ {
        ItemType::Video
    } else if t == "photo"@ {
        ItemType::Photo
    } else {
        ItemType::Unknown
    }
}

impl ItemType {
    /// Maps a kind token to the item kind it stands for.
    pub fn from_str(s: &str) -> (r: ItemType)
        ensures
            r == kind_of_token(s@),
    {
        if str_eq(s, "video") {
            ItemType::Video
        } else if str_eq(s, "photo") {
            ItemType::Photo
        } else {
            ItemType::Unknown
        }
    }
}

/// Why a source link failed to parse.
#[derive(Debug, Clone, Copy, PartialEq, Eq, Structural)]
pub enum ParseError {
    MalformedUrl,
}

/// Why a resolution round-trip failed.
#[derive(Debug)]
pub enum ResolutionError {
    /// The request never completed: connection failure or timeout.
    Transport,
    /// The resolver answered with a non-success HTTP status.
    Http(u16),
    /// The response body was not well-formed structured data.
    MalformedResponse,
    /// The response envelope reported an application-level failure.
    Remote { code: i64, message: String },
    /// A success envelope lacked an expected field (or held the wrong type).
    MissingField(String),
}

/// Why a download failed.
#[derive(Debug, Clone, Copy, PartialEq, Eq, Structural)]
pub enum DownloadError {
    /// A media fetch answered with a non-success HTTP status.
    Http(u16),
    /// Writing a fetched body to disk failed.
    Io,
}

/// What a successful resolution produced: one video URL, or the ordered
/// URLs of a photo set.
#[derive(Debug)]
pub enum ResolvedMedia {
    Video(String),
    Photos(Vec<String>),
}

} // verus!
