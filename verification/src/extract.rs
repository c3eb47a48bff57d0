//! The codec boundary: byte-signature sniffing and the format-specific
//! metadata readers.
//!
//! Each reader is an outside crate called through one trusted wrapper.
//! Every reader is a pure function of the file bytes it is given, so
//! each wrapper's result carries a name (an uninterpreted function of
//! the bytes): the chain's contracts then speak of those names exactly.

use vstd::prelude::*;

use image::GenericImageView;

verus! {

/// What the EXIF reader found: the primary image's pixel dimensions and
/// every field rendered as a (tag, value) pair of strings.
#[derive(Clone, Debug)]
pub struct ExifProbe {
    pub width: Option<u32>,
    pub height: Option<u32>,
    pub fields: Vec<(String, String)>,
}

/// One track of an MP4 container: whether it is a video track, and its
/// header dimensions when the header is present.
#[derive(Clone, Copy, Debug, PartialEq, Eq, Structural)]
pub struct Mp4Track {
    pub is_video: bool,
    pub width: Option<u32>,
    pub height: Option<u32>,
}

/// The first video track of a Matroska container.
#[derive(Clone, Copy, Debug, PartialEq, Eq, Structural)]
pub struct MkvVideo {
    pub pixel_width: u64,
    pub pixel_height: u64,
}

/// What the Matroska reader found: the first video track's dimensions
/// and the container's duration in milliseconds.
#[derive(Clone, Copy, Debug, PartialEq, Eq, Structural)]
pub struct MkvProbe {
    pub video: Option<MkvVideo>,
    pub duration_ms: Option<u128>,
}

/// What the track-metadata reader found: the track's dimensions and its
/// tagged entries rendered as (tag, value) pairs of strings.
#[derive(Clone, Debug)]
pub struct TrackProbe {
    pub width: Option<u32>,
    pub height: Option<u32>,
    pub fields: Vec<(String, String)>,
}

/// What the byte-signature sniffer returns on these bytes.
pub uninterp spec fn sniffed_mime_of(b: Seq<u8>) -> Option<Seq<char>>;

/// What the alternate-encoding still-image reader returns on these bytes.
pub uninterp spec fn avif_dims_of(b: Seq<u8>) -> Option<(u32, u32)>;

/// What the structured-photo-metadata reader returns on these bytes.
pub uninterp spec fn exif_probe_of(b: Seq<u8>) -> Option<ExifProbe>;

/// What the generic image decoder returns on these bytes.
pub uninterp spec fn image_dims_of(b: Seq<u8>) -> Option<(u32, u32)>;

/// What the MP4 container parser returns on these bytes.
pub uninterp spec fn mp4_tracks_of(b: Seq<u8>) -> Option<Vec<Mp4Track>>;

/// What the Matroska container parser returns on these bytes.
pub uninterp spec fn mkv_probe_of(b: Seq<u8>) -> Option<MkvProbe>;

/// What the track-metadata reader returns on these bytes.
pub uninterp spec fn track_probe_of(b: Seq<u8>) -> Option<TrackProbe>;

/// Relies on `infer::get`: the MIME type sniffed from the byte
/// signature, a function of the bytes alone; `None` when no known
/// signature matches.
#[verifier::external_body]
pub fn sniff_mime(bytes: &[u8]) -> (r: Option<String>)
    ensures
        r is Some <==> sniffed_mime_of(bytes@) is Some,
        r matches Some(m) ==> Some(m@) == sniffed_mime_of(bytes@),
{
    infer::get(bytes).map(|t| t.mime_type().to_string())
}

/// Relies on `avif_parse::read_avif` and `AvifData::primary_item_metadata`:
/// the primary still image's dimensions, a function of the bytes alone;
/// `None` when the bytes do not parse as AVIF.
#[verifier::external_body]
pub fn avif_dimensions(bytes: &[u8]) -> (r: Option<(u32, u32)>)
    ensures
        r == avif_dims_of(bytes@),
{
    let data = avif_parse::read_avif(&mut std::io::Cursor::new(bytes)).ok()?;
    let meta = data.primary_item_metadata().ok()?;
    Some((meta.max_frame_width.get(), meta.max_frame_height.get()))
}

/// Relies on `exif::Reader::read_from_container`, `Exif::get_field` and
/// `Field::display_value`: the primary image's pixel dimensions and all
/// fields rendered as strings, a function of the bytes alone.
#[verifier::external_body]
pub fn exif_probe(bytes: &[u8]) -> (r: Option<ExifProbe>)
    ensures
        r == exif_probe_of(bytes@),
{
    let parsed = exif::Reader::new().read_from_container(&mut std::io::Cursor::new(bytes)).ok()?;
    let long_at = |tag: exif::Tag| match parsed.get_field(tag, exif::In::PRIMARY).map(|f| &f.value)
        {
        Some(exif::Value::Long(v)) => v.first().copied(),
        _ => None,
    };
    Some(
        ExifProbe {
            width: long_at(exif::Tag::PixelXDimension),
            height: long_at(exif::Tag::PixelYDimension),
            fields: parsed.fields().map(
                |f| (f.tag.to_string(), f.display_value().to_string()),
            ).collect(),
        },
    )
}

/// Relies on `image::load_from_memory` and `GenericImageView::dimensions`:
/// the decoded image's dimensions, a function of the bytes alone; `None`
/// when no decoder accepts the bytes.
#[verifier::external_body]
pub fn image_dimensions(bytes: &[u8]) -> (r: Option<(u32, u32)>)
    ensures
        r == image_dims_of(bytes@),
{
    image::load_from_memory(bytes).ok().map(|img| img.dimensions())
}

/// Relies on `mp4parse::read_mp4`: each track's type and header
/// dimensions, a function of the bytes alone; `None` when the bytes do
/// not parse as an MP4 container.
#[verifier::external_body]
pub fn mp4_tracks(bytes: &[u8]) -> (r: Option<Vec<Mp4Track>>)
    ensures
        r == mp4_tracks_of(bytes@),
{
    let ctx = mp4parse::read_mp4(&mut std::io::Cursor::new(bytes)).ok()?;
    Some(
        ctx.tracks.iter().map(
            |t| Mp4Track {
                is_video: matches!(t.track_type, mp4parse::TrackType::Video),
                width: t.tkhd.as_ref().map(|h| h.width),
                height: t.tkhd.as_ref().map(|h| h.height),
            },
        ).collect(),
    )
}

/// Relies on `matroska::Matroska::open` and `Matroska::video_tracks`:
/// the first video track's pixel dimensions and the file's duration, a
/// function of the bytes alone; `None` when the bytes do not parse as a
/// Matroska container.
#[verifier::external_body]
pub fn matroska_probe(bytes: &[u8]) -> (r: Option<MkvProbe>)
    ensures
        r == mkv_probe_of(bytes@),
{
    let mkv = matroska::Matroska::open(std::io::Cursor::new(bytes)).ok()?;
    let video = mkv.video_tracks().next().and_then(|t| match &t.settings {
        matroska::Settings::Video(v) => Some(
            MkvVideo { pixel_width: v.pixel_width, pixel_height: v.pixel_height },
        ),
        _ => None,
    });
    Some(MkvProbe { video, duration_ms: mkv.info.duration.map(|d| d.as_millis()) })
}

/// Relies on `nom_exif::MediaParser::parse_track` and `TrackInfo::get`:
/// the track's dimensions and its tagged entries rendered as strings, a
/// function of the bytes alone; `None` when the bytes carry no track
/// metadata it understands.
#[verifier::external_body]
pub fn nom_track_probe(bytes: &[u8]) -> (r: Option<TrackProbe>)
    ensures
        r == track_probe_of(bytes@),
{
    let src = nom_exif::MediaSource::seekable(std::io::Cursor::new(bytes)).ok()?;
    let info = nom_exif::MediaParser::new().parse_track(src).ok()?;
    Some(
        TrackProbe {
            width: info.get(nom_exif::TrackInfoTag::Width).and_then(|v| v.as_u32()),
            height: info.get(nom_exif::TrackInfoTag::Height).and_then(|v| v.as_u32()),
            fields: info.iter().map(
                |(t, v)| (format!("{:?}", t), v.to_string()),
            ).collect(),
        },
    )
}

} // verus!
