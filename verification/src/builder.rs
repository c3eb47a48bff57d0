//! MediaRecordBuilder: turns one observed file into a complete,
//! validated media record.
//!
//! Extraction is a fallback chain, not a dispatch table: strategies are
//! tried in capability order, a failure is swallowed and the next
//! strategy runs, and a later strategy only fills fields that earlier
//! ones left unset. Only exhaustion of every applicable strategy is a
//! hard error, naming the missing field. Identity (`id`,
//! `first_seen_date`) is resolved against the cache: an exact path match
//! reuses both; a content-hash match elsewhere reuses only the first
//! seen date under a fresh identity; otherwise both are fresh.

use vstd::prelude::*;

use crate::error::RavesError;
use crate::extract::{
    avif_dimensions, avif_dims_of, exif_probe, exif_probe_of, image_dimensions, image_dims_of,
    matroska_probe, mkv_probe_of, mp4_tracks, mp4_tracks_of, nom_track_probe, sniff_mime,
    sniffed_mime_of, track_probe_of, Mp4Track,
};
use crate::hash::{blake3_of, hash_bytes};
use crate::ident::{mint_id, now_micros};
use crate::media::{Media, MediaView};
use crate::metadata::{
    spec_insert_pair, spec_mime_kind, Format, FormatView, MediaKind, OtherMetadataMap,
    OtherMetadataValue, OtherMetadataValueView, SpecificMetadata,
};
use crate::snapshot::{DemuxProbe, FileSnapshot, FileStat, SnapshotView};
use crate::store::{spec_find_by_hash, spec_find_by_path, CacheStore, StoreView};
use crate::tags::Tag;

verus! {

/// A media file's metadata while it is being accumulated: every field
/// is optional until the chain has run.
#[derive(Clone, Debug)]
pub struct MediaBuilder {
    /// How large the file is, in bytes.
    pub filesize: Option<i64>,

    /// The MIME type (format) of the file.
    pub format: Option<Format>,

    /// The time the file was created, according to the file system.
    pub creation_date: Option<i64>,

    /// The time the file was last modified, according to the file system.
    pub modification_date: Option<i64>,

    /// The media's width (horizontal) in pixels.
    pub width_px: Option<u32>,

    /// The media's height (vertical) in pixels.
    pub height_px: Option<u32>,

    /// Additional metadata that's specific to the media's kind.
    pub specific_metadata: Option<SpecificMetadata>,

    /// Long-tail metadata that can be read as strings.
    pub other_metadata: Option<OtherMetadataMap>,

    /// The tags of a media file.
    pub tags: Vec<Tag>,
}

/// The mathematical shape of a [`MediaBuilder`].
pub struct MediaBuilderView {
    pub filesize: Option<i64>,
    pub format: Option<FormatView>,
    pub creation_date: Option<i64>,
    pub modification_date: Option<i64>,
    pub width_px: Option<u32>,
    pub height_px: Option<u32>,
    pub specific_metadata: Option<SpecificMetadata>,
    pub other_metadata: Option<Seq<(Seq<char>, OtherMetadataValueView)>>,
    pub tags: Seq<crate::tags::TagView>,
}

impl View for MediaBuilder {
    type V = MediaBuilderView;

    open spec fn view(&self) -> MediaBuilderView {
        MediaBuilderView {
            filesize: self.filesize,
            format: match self.format {
                Some(f) => Some(f@),
                None => None,
            },
            creation_date: self.creation_date,
            modification_date: self.modification_date,
            width_px: self.width_px,
            height_px: self.height_px,
            specific_metadata: self.specific_metadata,
            other_metadata: match self.other_metadata {
                Some(m) => Some(m@),
                None => None,
            },
            tags: self.tags@.map_values(|t: Tag| t@),
        }
    }
}

impl Default for MediaBuilder {
    fn default() -> (r: MediaBuilder)
        ensures
            r@.filesize is None,
            r@.format is None,
            r@.creation_date is None,
            r@.modification_date is None,
            r@.width_px is None,
            r@.height_px is None,
            r@.specific_metadata is None,
            r@.other_metadata is None,
            r@.tags == Seq::<crate::tags::TagView>::empty(),
    {
        let r = MediaBuilder {
            filesize: None,
            format: None,
            creation_date: None,
            modification_date: None,
            width_px: None,
            height_px: None,
            specific_metadata: None,
            other_metadata: None,
            tags: Vec::new(),
        };
        proof {
            assert(r@.tags =~= Seq::<crate::tags::TagView>::empty());
        }
        r
    }
}

/// Fill-forward: a value already present is kept; only a gap is filled.
pub open spec fn or_keep<T>(cur: Option<T>, new: T) -> Option<T> {
    if cur is Some {
        cur
    } else {
        Some(new)
    }
}

/// What applying the filesystem attributes does: on a successful stat,
/// size and both dates are taken from it; a failed stat changes nothing.
pub open spec fn spec_apply_stat(b: MediaBuilderView, stat: Option<FileStat>) -> MediaBuilderView {
    match stat {
        None => b,
        Some(st) => MediaBuilderView {
            filesize: Some(st.filesize),
            creation_date: st.created,
            modification_date: st.modified,
            ..b
        },
    }
}

/// What the alternate-encoding still-image strategy does: on success it
/// fills the resolution gaps and, for a photo, the kind-specific slot.
pub open spec fn spec_apply_avif(
    b: MediaBuilderView,
    bytes: Seq<u8>,
    kind: MediaKind,
) -> MediaBuilderView {
    match avif_dims_of(bytes) {
        None => b,
        Some(dims) => MediaBuilderView {
            width_px: or_keep(b.width_px, dims.0),
            height_px: or_keep(b.height_px, dims.1),
            specific_metadata: if kind is Photo {
                or_keep(b.specific_metadata, SpecificMetadata::Image {  })
            } else {
                b.specific_metadata
            },
            ..b
        },
    }
}

/// The free-form map built from probe fields, inserted in order with
/// replace-on-repeat; `named` says whether the key doubles as the
/// user-facing name.
pub open spec fn spec_om_from_pairs(
    pairs: Seq<(String, String)>,
    named: bool,
) -> Seq<(Seq<char>, OtherMetadataValueView)>
    decreases pairs.len(),
{
    if pairs.len() == 0 {
        Seq::empty()
    } else {
        spec_insert_pair(
            spec_om_from_pairs(pairs.drop_last(), named),
            pairs.last().0@,
            OtherMetadataValueView {
                user_facing_name: if named {
                    Some(pairs.last().0@)
                } else {
                    None
                },
                value: pairs.last().1@,
            },
        )
    }
}

/// Whether the structured-metadata strategy succeeds on these bytes: it
/// needs a parse and both pixel dimensions.
pub open spec fn spec_kamadak_ok(bytes: Seq<u8>) -> bool {
    &&& exif_probe_of(bytes) is Some
    &&& exif_probe_of(bytes)->Some_0.width is Some
    &&& exif_probe_of(bytes)->Some_0.height is Some
}

/// What the structured-metadata strategy does: on success it fills the
/// resolution gaps, the kind-specific slot for a photo, and the
/// free-form map.
pub open spec fn spec_apply_kamadak(
    b: MediaBuilderView,
    bytes: Seq<u8>,
    kind: MediaKind,
) -> MediaBuilderView {
    if !spec_kamadak_ok(bytes) {
        b
    } else {
        let p = exif_probe_of(bytes)->Some_0;
        MediaBuilderView {
            width_px: or_keep(b.width_px, p.width->Some_0),
            height_px: or_keep(b.height_px, p.height->Some_0),
            specific_metadata: if kind is Photo {
                or_keep(b.specific_metadata, SpecificMetadata::Image {  })
            } else {
                b.specific_metadata
            },
            other_metadata: or_keep(b.other_metadata, spec_om_from_pairs(p.fields@, true)),
            ..b
        }
    }
}

/// What the last-resort pixel-decoding strategy does: on success it
/// fills the resolution gaps and, for a photo, the kind-specific slot.
pub open spec fn spec_apply_image(
    b: MediaBuilderView,
    bytes: Seq<u8>,
    kind: MediaKind,
) -> MediaBuilderView {
    match image_dims_of(bytes) {
        None => b,
        Some(dims) => MediaBuilderView {
            width_px: or_keep(b.width_px, dims.0),
            height_px: or_keep(b.height_px, dims.1),
            specific_metadata: if kind is Photo {
                or_keep(b.specific_metadata, SpecificMetadata::Image {  })
            } else {
                b.specific_metadata
            },
            ..b
        },
    }
}

/// The photo chain in capability order: the alternate-encoding reader
/// (only when the MIME type mentions it), then the structured-metadata
/// reader, then — only when both failed — the pixel decoder.
pub open spec fn spec_photo_chain(
    b: MediaBuilderView,
    bytes: Seq<u8>,
    is_avif: bool,
    kind: MediaKind,
) -> MediaBuilderView {
    let b1 = if is_avif {
        spec_apply_avif(b, bytes, kind)
    } else {
        b
    };
    let avif_ok = is_avif && avif_dims_of(bytes) is Some;
    let b2 = spec_apply_kamadak(b1, bytes, kind);
    let kam_ok = spec_kamadak_ok(bytes);
    if !avif_ok && !kam_ok {
        spec_apply_image(b2, bytes, kind)
    } else {
        b2
    }
}

/// Fallback ordering: on a photo whose first two strategies fail — the
/// alternate-encoding reader finds nothing and the structured-metadata
/// reader yields no dimensions — the chain's resolution is exactly what
/// the last-resort pixel decoder returned.
pub proof fn lemma_fallback_ordering(
    b: MediaBuilderView,
    bytes: Seq<u8>,
    is_avif: bool,
    kind: MediaKind,
)
    requires
        b.width_px is None,
        b.height_px is None,
        avif_dims_of(bytes) is None,
        !spec_kamadak_ok(bytes),
        image_dims_of(bytes) is Some,
    ensures
        ({
            let after = spec_photo_chain(b, bytes, is_avif, kind);
            &&& after.width_px == Some(image_dims_of(bytes)->Some_0.0)
            &&& after.height_px == Some(image_dims_of(bytes)->Some_0.1)
        }),
{
}

/// The first video track of an MP4 container, if any.
pub open spec fn spec_first_video(ts: Seq<Mp4Track>) -> Option<Mp4Track>
    decreases ts.len(),
{
    if ts.len() == 0 {
        None
    } else if ts[0].is_video {
        Some(ts[0])
    } else {
        spec_first_video(ts.drop_first())
    }
}

/// What the MP4 strategy does: when the container parses and its first
/// video track carries a header, the resolution gaps are filled.
pub open spec fn spec_apply_mp4(b: MediaBuilderView, bytes: Seq<u8>) -> MediaBuilderView {
    match mp4_tracks_of(bytes) {
        None => b,
        Some(tracks) => match spec_first_video(tracks@) {
            None => b,
            Some(tr) => match (tr.width, tr.height) {
                (Some(w), Some(h)) => MediaBuilderView {
                    width_px: or_keep(b.width_px, w),
                    height_px: or_keep(b.height_px, h),
                    ..b
                },
                _ => b,
            },
        },
    }
}

/// A millisecond count clipped into a 64-bit value.
pub open spec fn spec_sat_u64(d: u128) -> u64 {
    if d > u64::MAX {
        u64::MAX
    } else {
        d as u64
    }
}

/// A pixel count clipped into a 32-bit value, the way the container's
/// 64-bit field is stored in the record.
pub open spec fn spec_px_u32(d: u64) -> u32 {
    (d % 0x1_0000_0000) as u32
}

/// What the Matroska strategy does for a video: the first video track's
/// dimensions fill the resolution gaps, and the container duration
/// fills the kind-specific slot.
pub open spec fn spec_apply_matroska(
    b: MediaBuilderView,
    bytes: Seq<u8>,
    kind: MediaKind,
) -> MediaBuilderView {
    if !(kind is Video) {
        b
    } else {
        match mkv_probe_of(bytes) {
            None => b,
            Some(p) => {
                let b1 = match p.video {
                    Some(v) => MediaBuilderView {
                        width_px: or_keep(b.width_px, spec_px_u32(v.pixel_width)),
                        height_px: or_keep(b.height_px, spec_px_u32(v.pixel_height)),
                        ..b
                    },
                    None => b,
                };
                match p.duration_ms {
                    Some(d) => MediaBuilderView {
                        specific_metadata: or_keep(
                            b1.specific_metadata,
                            SpecificMetadata::Video { length_ms: spec_sat_u64(d) },
                        ),
                        ..b1
                    },
                    None => b1,
                }
            },
        }
    }
}

/// Whether the track-metadata strategy succeeds on these bytes: it
/// needs a parse and both dimensions.
pub open spec fn spec_nom_ok(bytes: Seq<u8>) -> bool {
    &&& track_probe_of(bytes) is Some
    &&& track_probe_of(bytes)->Some_0.width is Some
    &&& track_probe_of(bytes)->Some_0.height is Some
}

/// What the track-metadata strategy does: on success it fills the
/// resolution gaps and the free-form map (whose entries carry no
/// user-facing names, only raw tag codes).
pub open spec fn spec_apply_nom(b: MediaBuilderView, bytes: Seq<u8>) -> MediaBuilderView {
    if !spec_nom_ok(bytes) {
        b
    } else {
        let p = track_probe_of(bytes)->Some_0;
        MediaBuilderView {
            width_px: or_keep(b.width_px, p.width->Some_0),
            height_px: or_keep(b.height_px, p.height->Some_0),
            other_metadata: or_keep(b.other_metadata, spec_om_from_pairs(p.fields@, false)),
            ..b
        }
    }
}

/// The video chain: the demuxer's duration is written first, then the
/// container strategies fill the remaining gaps.
pub open spec fn spec_video_chain(
    b: MediaBuilderView,
    bytes: Seq<u8>,
    specific: SpecificMetadata,
) -> MediaBuilderView {
    let b0 = MediaBuilderView { specific_metadata: Some(specific), ..b };
    let b1 = spec_apply_mp4(b0, bytes);
    let b2 = spec_apply_matroska(b1, bytes, MediaKind::Video);
    spec_apply_nom(b2, bytes)
}

impl MediaBuilder {
    /// Adds typical file attributes to `self`, as far as the stat gave
    /// them; a failed stat leaves the builder untouched.
    pub fn apply_stat(&mut self, stat: &Option<FileStat>) -> (r: bool)
        ensures
            final(self)@ == spec_apply_stat(old(self)@, *stat),
            r == (stat is Some),
    {
        match stat {
            None => false,
            Some(st) => {
                self.filesize = Some(st.filesize);
                self.creation_date = st.created;
                self.modification_date = st.modified;
                true
            },
        }
    }

    /// Applies the alternate-encoding still-image reader to `self`.
    pub fn apply_avif(&mut self, bytes: &Vec<u8>, media_kind: MediaKind) -> (r: bool)
        ensures
            final(self)@ == spec_apply_avif(old(self)@, bytes@, media_kind),
            r == (avif_dims_of(bytes@) is Some),
    {
        match avif_dimensions(bytes.as_slice()) {
            None => false,
            Some(dims) => {
                if self.width_px.is_none() {
                    self.width_px = Some(dims.0);
                }
                if self.height_px.is_none() {
                    self.height_px = Some(dims.1);
                }
                if matches!(media_kind, MediaKind::Photo) && self.specific_metadata.is_none() {
                    self.specific_metadata = Some(SpecificMetadata::Image {  });
                }
                true
            },
        }
    }

    /// Applies the structured-metadata reader to `self`.
    pub fn apply_kamadak_exif(&mut self, bytes: &Vec<u8>, media_kind: MediaKind) -> (r: bool)
        ensures
            final(self)@ == spec_apply_kamadak(old(self)@, bytes@, media_kind),
            r == spec_kamadak_ok(bytes@),
    {
        match exif_probe(bytes.as_slice()) {
            None => false,
            Some(p) => {
                match (p.width, p.height) {
                    (Some(w), Some(h)) => {
                        if self.width_px.is_none() {
                            self.width_px = Some(w);
                        }
                        if self.height_px.is_none() {
                            self.height_px = Some(h);
                        }
                        if matches!(media_kind, MediaKind::Photo)
                            && self.specific_metadata.is_none() {
                            self.specific_metadata = Some(SpecificMetadata::Image {  });
                        }
                        if self.other_metadata.is_none() {
                            self.other_metadata = Some(om_from_pairs(&p.fields, true));
                        }
                        true
                    },
                    _ => false,
                }
            },
        }
    }

    /// Applies the generic image decoder to `self`.
    pub fn apply_image(&mut self, bytes: &Vec<u8>, media_kind: MediaKind) -> (r: bool)
        ensures
            final(self)@ == spec_apply_image(old(self)@, bytes@, media_kind),
            r == (image_dims_of(bytes@) is Some),
    {
        match image_dimensions(bytes.as_slice()) {
            None => false,
            Some(dims) => {
                if self.width_px.is_none() {
                    self.width_px = Some(dims.0);
                }
                if self.height_px.is_none() {
                    self.height_px = Some(dims.1);
                }
                if matches!(media_kind, MediaKind::Photo) && self.specific_metadata.is_none() {
                    self.specific_metadata = Some(SpecificMetadata::Image {  });
                }
                true
            },
        }
    }

    /// Runs the photo chain on `self` in capability order.
    pub fn photo_chain(&mut self, bytes: &Vec<u8>, is_avif: bool, media_kind: MediaKind)
        ensures
            final(self)@ == spec_photo_chain(old(self)@, bytes@, is_avif, media_kind),
    {
        let avif_ok: bool = if is_avif {
            self.apply_avif(bytes, media_kind)
        } else {
            false
        };
        let kamadak_ok = self.apply_kamadak_exif(bytes, media_kind);
        if !avif_ok && !kamadak_ok {
            let _ = self.apply_image(bytes, media_kind);
        }
    }

    /// Applies the MP4 container parser to `self`.
    pub fn apply_mp4parse(&mut self, bytes: &Vec<u8>) -> (r: bool)
        ensures
            final(self)@ == spec_apply_mp4(old(self)@, bytes@),
            r == (mp4_tracks_of(bytes@) is Some),
    {
        match mp4_tracks(bytes.as_slice()) {
            None => false,
            Some(tracks) => {
                let track = first_video_track(&tracks);
                match track {
                    Some(tr) => {
                        match (tr.width, tr.height) {
                            (Some(w), Some(h)) => {
                                if self.width_px.is_none() {
                                    self.width_px = Some(w);
                                }
                                if self.height_px.is_none() {
                                    self.height_px = Some(h);
                                }
                            },
                            _ => {},
                        }
                    },
                    None => {},
                }
                true
            },
        }
    }

    /// Applies the Matroska container parser to `self`.
    pub fn apply_matroska(&mut self, bytes: &Vec<u8>, media_kind: MediaKind) -> (r: bool)
        ensures
            final(self)@ == spec_apply_matroska(old(self)@, bytes@, media_kind),
            r == (media_kind is Video && mkv_probe_of(bytes@) is Some),
    {
        if !matches!(media_kind, MediaKind::Video) {
            return false;
        }
        match matroska_probe(bytes.as_slice()) {
            None => false,
            Some(p) => {
                match p.video {
                    Some(v) => {
                        if self.width_px.is_none() {
                            self.width_px = Some(px_u32(v.pixel_width));
                        }
                        if self.height_px.is_none() {
                            self.height_px = Some(px_u32(v.pixel_height));
                        }
                    },
                    None => {},
                }
                match p.duration_ms {
                    Some(d) => {
                        if self.specific_metadata.is_none() {
                            self.specific_metadata = Some(
                                SpecificMetadata::Video { length_ms: sat_u64(d) },
                            );
                        }
                    },
                    None => {},
                }
                true
            },
        }
    }

    /// Applies the track-metadata reader to `self`.
    pub fn apply_nom_exif(&mut self, bytes: &Vec<u8>) -> (r: bool)
        ensures
            final(self)@ == spec_apply_nom(old(self)@, bytes@),
            r == spec_nom_ok(bytes@),
    {
        match nom_track_probe(bytes.as_slice()) {
            None => false,
            Some(p) => {
                match (p.width, p.height) {
                    (Some(w), Some(h)) => {
                        if self.width_px.is_none() {
                            self.width_px = Some(w);
                        }
                        if self.height_px.is_none() {
                            self.height_px = Some(h);
                        }
                        if self.other_metadata.is_none() {
                            self.other_metadata = Some(om_from_pairs(&p.fields, false));
                        }
                        true
                    },
                    _ => false,
                }
            },
        }
    }

    /// Runs the video chain on `self`: the demuxer's answer first, then
    /// the container strategies fill the gaps.
    pub fn video_chain(&mut self, bytes: &Vec<u8>, specific: SpecificMetadata)
        ensures
            final(self)@ == spec_video_chain(old(self)@, bytes@, specific),
    {
        self.specific_metadata = Some(specific);
        let _ = self.apply_mp4parse(bytes);
        let _ = self.apply_matroska(bytes, MediaKind::Video);
        let _ = self.apply_nom_exif(bytes);
    }
}

/// Builds the free-form map from probe fields, in order, replacing
/// repeated keys.
pub fn om_from_pairs(pairs: &Vec<(String, String)>, named: bool) -> (r: OtherMetadataMap)
    ensures
        r@ == spec_om_from_pairs(pairs@, named),
{
    let mut r = OtherMetadataMap::new();
    let n: usize = pairs.len();
    let mut i: usize = 0;
    proof {
        assert(pairs@.take(0) =~= Seq::<(String, String)>::empty());
    }
    while i < n
        invariant
            n == pairs@.len(),
            i <= n,
            r@ == spec_om_from_pairs(pairs@.take(i as int), named),
        decreases n - i,
    {
        let key: String = pairs[i].0.clone();
        let name: Option<String> = if named {
            Some(pairs[i].0.clone())
        } else {
            None
        };
        let value = OtherMetadataValue { user_facing_name: name, value: pairs[i].1.clone() };
        r.insert(key, value);
        proof {
            assert(pairs@.take(i + 1).drop_last() =~= pairs@.take(i as int));
            assert(pairs@.take(i + 1).last() == pairs@[i as int]);
        }
        i = i + 1;
    }
    proof {
        assert(pairs@.take(n as int) =~= pairs@);
    }
    r
}

/// The first video track of the parsed container.
pub fn first_video_track(tracks: &Vec<Mp4Track>) -> (r: Option<Mp4Track>)
    ensures
        r == spec_first_video(tracks@),
{
    let n: usize = tracks.len();
    let mut i: usize = 0;
    proof {
        assert(tracks@.skip(0) =~= tracks@);
    }
    while i < n
        invariant
            n == tracks@.len(),
            i <= n,
            spec_first_video(tracks@) == spec_first_video(tracks@.skip(i as int)),
        decreases n - i,
    {
        proof {
            assert(tracks@.skip(i as int).drop_first() =~= tracks@.skip(i + 1));
            assert(tracks@.skip(i as int)[0] == tracks@[i as int]);
        }
        if tracks[i].is_video {
            return Some(tracks[i]);
        }
        i = i + 1;
    }
    proof {
        assert(tracks@.skip(n as int) =~= Seq::<Mp4Track>::empty());
    }
    None
}

/// Clips a millisecond count into a 64-bit value.
pub fn sat_u64(d: u128) -> (r: u64)
    ensures
        r == spec_sat_u64(d),
{
    if d > u64::MAX as u128 {
        u64::MAX
    } else {
        d as u64
    }
}

/// Clips a container's 64-bit pixel count the way the record stores it.
pub fn px_u32(d: u64) -> (r: u32)
    ensures
        r == spec_px_u32(d),
{
    (d % 0x1_0000_0000) as u32
}

/// The position of the last '/' in a path, if any.
pub open spec fn spec_last_slash(p: Seq<char>) -> Option<int>
    decreases p.len(),
{
    if p.len() == 0 {
        None
    } else if p.last() == '/' {
        Some(p.len() - 1)
    } else {
        spec_last_slash(p.drop_last())
    }
}

/// The directory a canonicalized file path sits in: everything before
/// the last '/'; the root keeps its leading '/'; a bare file name has
/// the empty parent; the root itself and the empty path have none.
pub open spec fn spec_parent(p: Seq<char>) -> Option<Seq<char>> {
    if p.len() == 0 || p == "/"@ {
        None
    } else {
        match spec_last_slash(p) {
            None => Some(Seq::empty()),
            Some(i) => if i == 0 {
                Some("/"@)
            } else {
                Some(p.take(i))
            },
        }
    }
}

/// A last-slash search that has ruled out everything from `i` on can
/// continue on the prefix.
proof fn lemma_last_slash_prefix(p: Seq<char>, i: int)
    requires
        0 <= i < p.len(),
        forall|j: int| i <= j < p.len() ==> p[j] != '/',
    ensures
        spec_last_slash(p) == spec_last_slash(p.take(i)),
    decreases p.len() - i,
{
    if i == p.len() - 1 {
        assert(p.drop_last() =~= p.take(i));
    } else {
        lemma_last_slash_prefix(p.drop_last(), i);
        assert(p.drop_last().take(i) =~= p.take(i));
    }
}

/// The directory part of a path, as [`spec_parent`] defines it.
pub fn parent_dir(path: &str) -> (r: Option<String>)
    ensures
        r is Some <==> spec_parent(path@) is Some,
        r matches Some(a) ==> Some(a@) == spec_parent(path@),
{
    let n: usize = path.unicode_len();
    if n == 0 {
        return None;
    }
    let mut i: usize = n;
    while i > 0 && path.get_char(i - 1) != '/'
        invariant
            n == path@.len(),
            i <= n,
            forall|j: int| i <= j < n ==> path@[j] != '/',
        decreases i,
    {
        i = i - 1;
    }
    proof {
        if i == 0 {
            if n > 0 {
                lemma_last_slash_prefix(path@, 0);
                assert(path@.take(0) =~= Seq::<char>::empty());
            }
            assert(spec_last_slash(path@) is None);
        } else {
            if i < n {
                lemma_last_slash_prefix(path@, i as int);
            }
            assert(path@.take(i as int).last() == path@[i - 1]);
            assert(spec_last_slash(path@) == Some(i - 1));
        }
        reveal_strlit("/");
    }
    if i == 0 {
        proof {
            assert(path@ != "/"@);
        }
        return Some(String::new());
    }
    if i == 1 {
        if n == 1 {
            // the path is exactly "/"
            proof {
                assert(path@ =~= "/"@);
            }
            return None;
        }
        proof {
            assert(path@ != "/"@);
        }
        return Some(String::from_str("/"));
    }
    proof {
        assert(path@ != "/"@);
    }
    let a: String = path.substring_char(0, i - 1).to_owned();
    proof {
        assert(a@ =~= path@.take(i - 1));
    }
    Some(a)
}

/// Whether a MIME type string mentions the alternate still-image
/// encoding. The sniffer emits lower-case ASCII MIME types, so a plain
/// substring check decides it.
pub open spec fn spec_has_avif(m: Seq<char>) -> bool {
    exists|i: int| 0 <= i && i + 4 <= m.len() && #[trigger] m.subrange(i, i + 4) == "avif"@
}

/// Decides [`spec_has_avif`] on a MIME type string.
pub fn mime_mentions_avif(mime: &str) -> (r: bool)
    ensures
        r == spec_has_avif(mime@),
{
    let n: usize = mime.unicode_len();
    if n < 4 {
        return false;
    }
    let mut i: usize = 0;
    while i <= n - 4
        invariant
            n == mime@.len(),
            4 <= n,
            i <= n,
            forall|j: int| 0 <= j < i ==> #[trigger] mime@.subrange(j, j + 4) != "avif"@,
        decreases n - i,
    {
        let c0 = mime.get_char(i);
        let c1 = mime.get_char(i + 1);
        let c2 = mime.get_char(i + 2);
        let c3 = mime.get_char(i + 3);
        if c0 == 'a' && c1 == 'v' && c2 == 'i' && c3 == 'f' {
            proof {
                reveal_strlit("avif");
                assert(mime@.subrange(i as int, i as int + 4) =~= "avif"@);
            }
            return true;
        }
        proof {
            reveal_strlit("avif");
            if mime@.subrange(i as int, i as int + 4) == "avif"@ {
                assert(mime@.subrange(i as int, i as int + 4)[0] == 'a');
                assert(mime@.subrange(i as int, i as int + 4)[1] == 'v');
                assert(mime@.subrange(i as int, i as int + 4)[2] == 'i');
                assert(mime@.subrange(i as int, i as int + 4)[3] == 'f');
                assert(false);
            }
        }
        i = i + 1;
    }
    false
}

/// Whether format resolution succeeds on these bytes: the sniffer finds
/// a signature and its top-level type maps to a media kind.
pub open spec fn spec_format_ok(bytes: Seq<u8>) -> bool {
    &&& sniffed_mime_of(bytes) is Some
    &&& spec_mime_kind(sniffed_mime_of(bytes)->Some_0) is Some
}

/// The format resolution succeeds to, when it succeeds.
pub open spec fn spec_resolved_format(bytes: Seq<u8>) -> FormatView {
    FormatView {
        media_kind: spec_mime_kind(sniffed_mime_of(bytes)->Some_0)->Some_0,
        mime_type: sniffed_mime_of(bytes)->Some_0,
    }
}

/// Grabs the format of the media file from its bytes: no signature is
/// a missing-MIME failure, and a signature outside the supported kinds
/// is an unsupported-format failure.
pub fn resolve_format(bytes: &Vec<u8>, path: &String) -> (r: Result<Format, RavesError>)
    ensures
        r is Ok <==> spec_format_ok(bytes@),
        r matches Ok(f) ==> f@ == spec_resolved_format(bytes@),
        r matches Err(e) ==> if sniffed_mime_of(bytes@) is None {
            e matches RavesError::NoMimeData { path: p } && p@ == path@
        } else {
            e matches RavesError::FileNotSupportedMedia { path: p } && p@ == path@
        },
{
    match sniff_mime(bytes.as_slice()) {
        None => Err(RavesError::NoMimeData { path: path.clone() }),
        Some(mime) => match Format::new_from_mime(mime.as_str()) {
            None => Err(RavesError::FileNotSupportedMedia { path: path.clone() }),
            Some(f) => Ok(f),
        },
    }
}

/// A stream duration in time-base units converted to milliseconds,
/// clipped into a 64-bit value; a zero time base yields zero.
pub open spec fn spec_video_length_ms(ticks: u64, tb_num: u32, tb_den: u32) -> u64 {
    if tb_den == 0 {
        0
    } else {
        let v = (ticks as int * tb_num as int * 1000) / (tb_den as int);
        if v > u64::MAX {
            u64::MAX
        } else {
            v as u64
        }
    }
}

/// Converts a stream duration in time-base units to milliseconds.
pub fn video_length_ms(ticks: u64, tb_num: u32, tb_den: u32) -> (r: u64)
    ensures
        r == spec_video_length_ms(ticks, tb_num, tb_den),
{
    if tb_den == 0 {
        return 0;
    }
    proof {
        assert((ticks as int) * (tb_num as int) <= 0xffffffffffffffffint * 0xffffffffint)
            by (nonlinear_arith)
            requires
                ticks <= 0xffffffffffffffffu64,
                tb_num <= 0xffffffffu32,
        ;
        assert((ticks as int) * (tb_num as int) * 1000 <= 0xffffffffffffffffint * 0xffffffffint
            * 1000) by (nonlinear_arith)
            requires
                (ticks as int) * (tb_num as int) <= 0xffffffffffffffffint * 0xffffffffint,
        ;
    }
    let prod: u128 = (ticks as u128) * (tb_num as u128) * 1000;
    let v: u128 = prod / (tb_den as u128);
    if v > u64::MAX as u128 {
        u64::MAX
    } else {
        v as u64
    }
}

/// What the demuxer's report means for the record: an unavailable
/// demuxer is a failure; a container without a video stream has length
/// zero rather than an error; a stream's duration is converted from its
/// time base.
pub open spec fn spec_video_specific(demux: DemuxProbe) -> Option<SpecificMetadata> {
    match demux {
        DemuxProbe::Unavailable(_) => None,
        DemuxProbe::NoVideoStream => Some(SpecificMetadata::Video { length_ms: 0 }),
        DemuxProbe::Stream { duration_ticks, time_base_num, time_base_den } => Some(
            SpecificMetadata::Video {
                length_ms: spec_video_length_ms(duration_ticks, time_base_num, time_base_den),
            },
        ),
    }
}

/// Grabs the video length of a media file from the demuxer's report.
pub fn get_video_len(path: &String, demux: &DemuxProbe) -> (r: Result<
    SpecificMetadata,
    RavesError,
>)
    ensures
        r is Ok <==> !(demux is Unavailable),
        r matches Ok(s) ==> Some(s) == spec_video_specific(*demux),
        r matches Err(e) ==> e matches RavesError::FfmpegFailedProcessing { path: p, err: er }
            && p@ == path@,
{
    match demux {
        DemuxProbe::Unavailable(err) => Err(
            RavesError::FfmpegFailedProcessing { path: path.clone(), err: err.clone() },
        ),
        DemuxProbe::NoVideoStream => Ok(SpecificMetadata::Video { length_ms: 0 }),
        DemuxProbe::Stream { duration_ticks, time_base_num, time_base_den } => Ok(
            SpecificMetadata::Video {
                length_ms: video_length_ms(*duration_ticks, *time_base_num, *time_base_den),
            },
        ),
    }
}

/// The identity a record gets, resolved against the cache: an exact
/// path match reuses the stored identity and first seen date; a
/// content-hash match elsewhere keeps only that record's first seen
/// date under the fresh identifier (duplicate content under a new path
/// is deliberately tracked as a logically new record); everything else
/// is fresh.
pub open spec fn spec_identity(
    store: StoreView,
    path: Seq<char>,
    content: Option<Seq<u8>>,
    fresh_id: u128,
    now: i64,
) -> (u128, i64) {
    match spec_find_by_path(store.media, path) {
        Some(old) => (old.id, old.first_seen_date),
        None => match content {
            Some(b) => match spec_find_by_hash(store, blake3_of(b)) {
                Some(dup) => (fresh_id, dup.first_seen_date),
                None => (fresh_id, now),
            },
            None => (fresh_id, now),
        },
    }
}

/// Either steals or creates the identity fields of a record, as
/// [`spec_identity`] lays them out.
pub fn resolve_identity(
    store: &CacheStore,
    path: &String,
    content: &Option<Vec<u8>>,
    fresh_id: u128,
    now: i64,
) -> (r: (u128, i64))
    ensures
        r == spec_identity(
            store@,
            path@,
            match content {
                Some(b) => Some(b@),
                None => None,
            },
            fresh_id,
            now,
        ),
{
    if let Some(old) = store.get_by_path(path) {
        return (old.id, old.first_seen_date);
    }
    if let Some(bytes) = content {
        let h = hash_bytes(bytes.as_slice());
        if let Some(dup) = store.get_by_hash(&h) {
            return (fresh_id, dup.first_seen_date);
        }
    }
    (fresh_id, now)
}

/// The builder a snapshot extracts to, once the format is known: the
/// format slot is written, the stat applied, then the chain for the
/// resolved kind runs.
pub open spec fn spec_builder_after(b0: MediaBuilderView, snap: SnapshotView) -> MediaBuilderView {
    let bytes = snap.content->Some_0;
    let fv = spec_resolved_format(bytes);
    let b1 = MediaBuilderView { format: Some(fv), ..b0 };
    let b2 = spec_apply_stat(b1, snap.stat);
    if fv.media_kind is Video {
        spec_video_chain(b2, bytes, spec_video_specific(snap.demux)->Some_0)
    } else {
        spec_photo_chain(b2, bytes, spec_has_avif(fv.mime_type), fv.media_kind)
    }
}

/// Whether building a record from this snapshot succeeds: the path has
/// a parent, the content was readable, the format resolves, a video's
/// demuxer answered, and the chain produced every required field.
pub open spec fn spec_build_ok(
    b0: MediaBuilderView,
    path: Seq<char>,
    snap: SnapshotView,
) -> bool {
    &&& spec_parent(path) is Some
    &&& snap.content is Some
    &&& spec_format_ok(snap.content->Some_0)
    &&& (spec_resolved_format(snap.content->Some_0).media_kind is Video ==> !(
        snap.demux is Unavailable))
    &&& spec_builder_after(b0, snap).filesize is Some
    &&& spec_builder_after(b0, snap).width_px is Some
    &&& spec_builder_after(b0, snap).height_px is Some
    &&& spec_builder_after(b0, snap).specific_metadata is Some
}

/// The record a successful build produces.
pub open spec fn spec_built_media(
    b0: MediaBuilderView,
    store: StoreView,
    path: Seq<char>,
    snap: SnapshotView,
    fresh_id: u128,
    now: i64,
) -> MediaView {
    let after = spec_builder_after(b0, snap);
    let ident = spec_identity(store, path, snap.content, fresh_id, now);
    MediaView {
        id: ident.0,
        path: path,
        album: spec_parent(path)->Some_0,
        filesize: after.filesize->Some_0,
        format: after.format->Some_0,
        creation_date: after.creation_date,
        modification_date: after.modification_date,
        first_seen_date: ident.1,
        width_px: after.width_px->Some_0,
        height_px: after.height_px->Some_0,
        specific_metadata: after.specific_metadata->Some_0,
        other_metadata: after.other_metadata,
        tags: after.tags,
    }
}

/// Which failure a build reports, in the order the pipeline checks for
/// them.
pub open spec fn spec_build_error_matches(
    b0: MediaBuilderView,
    path: Seq<char>,
    snap: SnapshotView,
    e: RavesError,
) -> bool {
    if spec_parent(path) is None {
        e matches RavesError::MediaFilePathNoParent(p) && p@ == path
    } else if snap.content is None {
        e matches RavesError::MediaDoesntExist { path: p } && p@ == path
    } else if sniffed_mime_of(snap.content->Some_0) is None {
        e matches RavesError::NoMimeData { path: p } && p@ == path
    } else if spec_mime_kind(sniffed_mime_of(snap.content->Some_0)->Some_0) is None {
        e matches RavesError::FileNotSupportedMedia { path: p } && p@ == path
    } else if spec_resolved_format(snap.content->Some_0).media_kind is Video
        && snap.demux is Unavailable {
        e matches RavesError::FfmpegFailedProcessing { path: p, err: er } && p@ == path
    } else {
        let after = spec_builder_after(b0, snap);
        if after.filesize is None {
            e matches RavesError::FileMissingMetadata(p, msg) && p@ == path && msg@
                == "no file size given"@
        } else if after.width_px is None {
            e matches RavesError::FileMissingMetadata(p, msg) && p@ == path && msg@
                == "no width (res) given"@
        } else if after.height_px is None {
            e matches RavesError::FileMissingMetadata(p, msg) && p@ == path && msg@
                == "no height (res) given"@
        } else {
            e matches RavesError::FileMissingMetadata(p, msg) && p@ == path && msg@
                == "no specific metadata (file kind variant)"@
        }
    }
}

impl MediaBuilder {
    /// The deterministic core of a build: everything the record gets is
    /// a function of the starting builder, the snapshot, the cache and
    /// the identity material handed in.
    pub fn build_internal(
        self,
        path: &String,
        snap: &FileSnapshot,
        store: &CacheStore,
        fresh_id: u128,
        now: i64,
    ) -> (r: Result<Media, RavesError>)
        ensures
            r is Ok <==> spec_build_ok(self@, path@, snap@),
            r matches Ok(m) ==> m@ == spec_built_media(self@, store@, path@, snap@, fresh_id, now),
            r matches Err(e) ==> spec_build_error_matches(self@, path@, snap@, e),
    {
        // before anything, make sure the media file has an album to use
        let album: String = match parent_dir(path.as_str()) {
            Some(a) => a,
            None => {
                return Err(RavesError::MediaFilePathNoParent(path.clone()));
            },
        };
        let bytes: &Vec<u8> = match &snap.content {
            Some(b) => b,
            None => {
                return Err(RavesError::MediaDoesntExist { path: path.clone() });
            },
        };

        // grab format and apply it to self
        let format = resolve_format(bytes, path)?;
        let mime_type = format.mime_type();
        let media_kind = format.media_kind();
        let mut b = self;
        b.format = Some(format);

        // grab file metadata real quick; a failure here is non-fatal
        let _ = b.apply_stat(&snap.stat);

        // choose the strategies for the kind of media at hand
        match media_kind {
            MediaKind::Photo | MediaKind::AnimatedPhoto => {
                let is_avif = mime_mentions_avif(mime_type.as_str());
                b.photo_chain(bytes, is_avif, media_kind);
            },
            MediaKind::Video => {
                let specific = get_video_len(path, &snap.demux)?;
                b.video_chain(bytes, specific);
            },
        }

        // steal or mint the static fields
        let identity = resolve_identity(store, path, &snap.content, fresh_id, now);

        // unwrap all required fields into a complete record
        let filesize: i64 = match b.filesize {
            Some(x) => x,
            None => {
                return Err(
                    RavesError::FileMissingMetadata(
                        path.clone(),
                        String::from_str("no file size given"),
                    ),
                );
            },
        };
        let fmt: Format = match b.format {
            Some(f) => f,
            None => {
                return Err(
                    RavesError::FileMissingMetadata(
                        path.clone(),
                        String::from_str("no format given"),
                    ),
                );
            },
        };
        let width_px: u32 = match b.width_px {
            Some(w) => w,
            None => {
                return Err(
                    RavesError::FileMissingMetadata(
                        path.clone(),
                        String::from_str("no width (res) given"),
                    ),
                );
            },
        };
        let height_px: u32 = match b.height_px {
            Some(h) => h,
            None => {
                return Err(
                    RavesError::FileMissingMetadata(
                        path.clone(),
                        String::from_str("no height (res) given"),
                    ),
                );
            },
        };
        let specific_metadata: SpecificMetadata = match b.specific_metadata {
            Some(s) => s,
            None => {
                return Err(
                    RavesError::FileMissingMetadata(
                        path.clone(),
                        String::from_str("no specific metadata (file kind variant)"),
                    ),
                );
            },
        };

        Ok(
            Media {
                id: identity.0,
                path: path.clone(),
                album,
                filesize,
                format: fmt,
                creation_date: b.creation_date,
                modification_date: b.modification_date,
                first_seen_date: identity.1,
                width_px,
                height_px,
                specific_metadata,
                other_metadata: b.other_metadata,
                tags: b.tags,
            },
        )
    }

    /// Constructs a complete media record from this builder and one
    /// observed file, minting the fresh identity material itself. On an
    /// exact path match in the cache the stored identity and first seen
    /// date are reused verbatim.
    pub fn build(self, path: &String, snap: &FileSnapshot, store: &CacheStore) -> (r: Result<
        Media,
        RavesError,
    >)
        ensures
            r is Ok <==> spec_build_ok(self@, path@, snap@),
            r matches Ok(m) ==> exists|fid: u128, t: i64|
                m@ == spec_built_media(self@, store@, path@, snap@, fid, t),
            r matches Ok(m) ==> (spec_find_by_path(store@.media, path@) matches Some(old)
                ==> m@.id == old.id && m@.first_seen_date == old.first_seen_date),
            r matches Err(e) ==> spec_build_error_matches(self@, path@, snap@, e),
    {
        let fresh_id: u128 = mint_id();
        let now: i64 = now_micros();
        let r = self.build_internal(path, snap, store, fresh_id, now);
        proof {
            match &r {
                Ok(m) => {
                    assert(m@ == spec_built_media(self@, store@, path@, snap@, fresh_id, now));
                    match spec_find_by_path(store@.media, path@) {
                        Some(old) => {
                            assert(spec_identity(store@, path@, snap@.content, fresh_id, now)
                                == (old.id, old.first_seen_date));
                        },
                        None => {},
                    }
                },
                Err(_) => {},
            }
        }
        r
    }
}

} // verus!

