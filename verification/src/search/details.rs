//! A detail is something that will be searched on.
//!
//! For example, in a search for media of a kind, the kind is the
//! detail.

use vstd::prelude::*;

use crate::metadata::Framerate;

verus! {

/// The location of media.
#[derive(Clone, Debug)]
pub struct PathDetail(pub String);

/// A point in time to compare one of the record's dates against, in
/// microseconds since the Unix epoch.
#[derive(Clone, Copy, Debug, PartialEq, Eq, Structural)]
pub enum DateDetail {
    Created(i64),
    Modified(i64),
    Accessed(i64),
    FirstSeen(i64),
}

/// A MIME type or a file extension.
#[derive(Clone, Debug)]
pub enum FormatDetail {
    MimeType(String),
    Extension(String),
}

/// A coarse media kind to search for.
#[derive(Clone, Copy, Debug, PartialEq, Eq, Structural)]
pub enum KindDetail {
    Image,
    Video,
}

/// Frames per second of a video.
#[derive(Clone, Copy, Debug, PartialEq, Eq, Structural)]
pub struct FramerateDetail(pub Framerate);

/// How a record's tags are searched: by name, by person, or by count.
#[derive(Clone, Debug)]
pub enum TagDetail {
    TagName(String),
    PersonTagName(String),
    PersonTagWithMarker(String, String),
    Count(u8, Comparison),
}

/// An ordering comparison in a search.
#[derive(Clone, Copy, Debug, PartialEq, Eq, Structural)]
pub enum Comparison {
    Less,
    LessOrEqual,
    Equal,
    GreaterOrEqual,
    Greater,
}

/// "landscape", "portrait" or "square".
#[derive(Clone, Copy, Debug, PartialEq, Eq, Structural)]
pub enum OrientationDetail {
    Landscape,
    Portrait,
    Square,
}

/// An exact file size in bytes.
#[derive(Clone, Copy, Debug, PartialEq, Eq, Structural)]
pub struct FileSizeDetail(pub u64);

/// Compressed or lossless.
#[derive(Clone, Copy, Debug, PartialEq, Eq, Structural)]
pub enum CompressionDetail {
    Lossless,
    Lossy,
}

} // verus!
