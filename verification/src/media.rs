//! The canonical record for one media file.

use vstd::prelude::*;

use crate::metadata::{
    Format, FormatView, OtherMetadataMap, OtherMetadataValueView, SpecificMetadata,
};
use crate::tags::{Tag, TagView};

verus! {

/// Some media file: one file's identity plus everything the pipeline
/// knows about it.
///
/// `id` and `first_seen_date` are immutable once set; every other field
/// may be overwritten on re-ingestion.
#[derive(Clone, Debug)]
pub struct Media {
    /// Unique identifier for this piece of media; assigned once at first
    /// ingestion and never changed afterward, even if the file moves or
    /// its content changes.
    pub id: u128,

    /// The last known file path for this media file.
    pub path: String,

    /// The folder the media file sits in.
    pub album: String,

    /// How large the file is, in bytes.
    pub filesize: i64,

    /// The MIME type (format) of the file.
    pub format: Format,

    /// The time the file was created, according to the file system, in
    /// microseconds since the Unix epoch. Best-effort.
    pub creation_date: Option<i64>,

    /// The time the file was last modified, according to the file
    /// system, in microseconds since the Unix epoch. Best-effort.
    pub modification_date: Option<i64>,

    /// The time the file's content was first observed, in microseconds
    /// since the Unix epoch; preserved across re-ingestions.
    pub first_seen_date: i64,

    /// The media's width (horizontal) in pixels.
    pub width_px: u32,

    /// The media's height (vertical) in pixels.
    pub height_px: u32,

    /// Additional metadata that's specific to the media's kind, such as
    /// a video's length.
    pub specific_metadata: SpecificMetadata,

    /// Long-tail metadata that can be read as strings.
    pub other_metadata: Option<OtherMetadataMap>,

    /// The tags of a media file.
    pub tags: Vec<Tag>,
}

/// The mathematical shape of a [`Media`] record.
pub struct MediaView {
    pub id: u128,
    pub path: Seq<char>,
    pub album: Seq<char>,
    pub filesize: i64,
    pub format: FormatView,
    pub creation_date: Option<i64>,
    pub modification_date: Option<i64>,
    pub first_seen_date: i64,
    pub width_px: u32,
    pub height_px: u32,
    pub specific_metadata: SpecificMetadata,
    pub other_metadata: Option<Seq<(Seq<char>, OtherMetadataValueView)>>,
    pub tags: Seq<TagView>,
}

impl View for Media {
    type V = MediaView;

    open spec fn view(&self) -> MediaView {
        MediaView {
            id: self.id,
            path: self.path@,
            album: self.album@,
            filesize: self.filesize,
            format: self.format@,
            creation_date: self.creation_date,
            modification_date: self.modification_date,
            first_seen_date: self.first_seen_date,
            width_px: self.width_px,
            height_px: self.height_px,
            specific_metadata: self.specific_metadata,
            other_metadata: match self.other_metadata {
                Some(m) => Some(m@),
                None => None,
            },
            tags: self.tags@.map_values(|t: Tag| t@),
        }
    }
}

/// An explicit copy of a tag list; every tag keeps its fields.
pub fn clone_tags(tags: &Vec<Tag>) -> (r: Vec<Tag>)
    ensures
        r@.map_values(|t: Tag| t@) == tags@.map_values(|t: Tag| t@),
{
    let mut out: Vec<Tag> = Vec::new();
    let n: usize = tags.len();
    let mut i: usize = 0;
    while i < n
        invariant
            n == tags@.len(),
            i <= n,
            out@.len() == i,
            forall|j: int| 0 <= j < i ==> (#[trigger] out@[j])@ == tags@[j]@,
        decreases n - i,
    {
        out.push(tags[i].clone_tag());
        i = i + 1;
    }
    proof {
        assert(out@.map_values(|t: Tag| t@) =~= tags@.map_values(|t: Tag| t@));
    }
    out
}

impl Media {
    /// Grabs the path of this media file.
    pub fn path(&self) -> (r: String)
        ensures
            r@ == self@.path,
    {
        self.path.clone()
    }

    /// Creates a string from this media file's path.
    pub fn path_str(&self) -> (r: String)
        ensures
            r@ == self@.path,
    {
        self.path()
    }

    /// The kind-specific part of this record's metadata.
    pub fn specific_type(&self) -> (r: SpecificMetadata)
        ensures
            r == self@.specific_metadata,
    {
        self.specific_metadata
    }

    /// An explicit copy; every field keeps its value.
    pub fn clone_record(&self) -> (r: Media)
        ensures
            r@ == self@,
    {
        Media {
            id: self.id,
            path: self.path.clone(),
            album: self.album.clone(),
            filesize: self.filesize,
            format: self.format.clone_format(),
            creation_date: self.creation_date,
            modification_date: self.modification_date,
            first_seen_date: self.first_seen_date,
            width_px: self.width_px,
            height_px: self.height_px,
            specific_metadata: self.specific_metadata,
            other_metadata: match &self.other_metadata {
                Some(m) => Some(m.clone_map()),
                None => None,
            },
            tags: clone_tags(&self.tags),
        }
    }
}

} // verus!
