//! End-to-end tests of the ingestion pipeline: format resolution, the
//! extraction chain, hashing, identity resolution and the cache-aware
//! load/refresh semantics.

use exif::experimental::Writer;

use backdrop::builder::{get_video_len, MediaBuilder};
use backdrop::error::RavesError;
use backdrop::hash::{classify_hash, eq_hash, hash_bytes, HashUpToDate, MediaHash};
use backdrop::load::{load, load_internal};
use backdrop::media::Media;
use backdrop::metadata::{Format, MediaKind, SpecificMetadata};
use backdrop::snapshot::{DemuxProbe, FileCheck, FileSnapshot, FileStat};
use backdrop::store::CacheStore;

/// An in-memory JPEG of the given size.
fn jpeg_bytes(width: u32, height: u32) -> Vec<u8> {
    let img = image::DynamicImage::ImageRgb8(image::RgbImage::new(width, height));
    let mut buf = std::io::Cursor::new(Vec::new());
    img.write_to(&mut buf, image::ImageFormat::Jpeg).unwrap();
    buf.into_inner()
}

/// An in-memory PNG of the given size.
fn png_bytes(width: u32, height: u32) -> Vec<u8> {
    let img = image::DynamicImage::ImageRgb8(image::RgbImage::new(width, height));
    let mut buf = std::io::Cursor::new(Vec::new());
    img.write_to(&mut buf, image::ImageFormat::Png).unwrap();
    buf.into_inner()
}

/// A raw TIFF carrying only EXIF pixel-dimension fields: the
/// structured-metadata reader can see it, the pixel decoder cannot.
fn exif_tiff_bytes(width: u32, height: u32) -> Vec<u8> {
    let width_field = exif::Field {
        tag: exif::Tag::PixelXDimension,
        ifd_num: exif::In::PRIMARY,
        value: exif::Value::Long(vec![width]),
    };
    let height_field = exif::Field {
        tag: exif::Tag::PixelYDimension,
        ifd_num: exif::In::PRIMARY,
        value: exif::Value::Long(vec![height]),
    };
    let mut writer = Writer::new();
    writer.push_field(&width_field);
    writer.push_field(&height_field);
    let mut buf = std::io::Cursor::new(Vec::new());
    writer.write(&mut buf, false).unwrap();
    buf.into_inner()
}

/// A snapshot of an existing, readable file with plain attributes.
fn snapshot(bytes: Vec<u8>) -> FileSnapshot {
    let filesize = bytes.len() as i64;
    FileSnapshot {
        check: FileCheck::Exists,
        content: Some(bytes),
        stat: Some(FileStat { filesize, created: Some(1_000), modified: Some(2_000) }),
        demux: DemuxProbe::NoVideoStream,
    }
}

fn sample_media(id: u128, path: &str, first_seen: i64, width: u32) -> Media {
    Media {
        id,
        path: path.to_string(),
        album: "/".to_string(),
        filesize: 1024,
        format: Format::new_from_mime("image/jpeg").unwrap(),
        creation_date: None,
        modification_date: None,
        first_seen_date: first_seen,
        width_px: width,
        height_px: width,
        specific_metadata: SpecificMetadata::Image {},
        other_metadata: None,
        tags: vec![],
    }
}

#[test]
fn scenario_new_file_ingestion() {
    let mut store = CacheStore::new();
    let snap = snapshot(jpeg_bytes(1920, 1080));
    let path = "/a.jpg".to_string();

    let media = load_internal(&mut store, &path, &snap, 42, 777_000).unwrap();

    assert_eq!(media.width_px, 1920);
    assert_eq!(media.height_px, 1080);
    assert_eq!(media.format.media_kind(), MediaKind::Photo);
    assert_eq!(media.format.mime_type(), "image/jpeg");
    assert!(matches!(media.specific_metadata, SpecificMetadata::Image {}));
    assert_eq!(media.id, 42, "a fresh identity is minted");
    assert_eq!(media.first_seen_date, 777_000, "first seen is now");
    assert_eq!(media.path, "/a.jpg");
    assert_eq!(media.album, "/");
    assert_eq!(media.filesize, snap.content.as_ref().unwrap().len() as i64);
    assert_eq!(store.media_count(), 1);
    assert_eq!(store.hash_count(), 1);
}

#[test]
fn scenario_noop_reingestion() {
    let mut store = CacheStore::new();
    let snap = snapshot(jpeg_bytes(1920, 1080));
    let path = "/a.jpg".to_string();

    let first = load_internal(&mut store, &path, &snap, 42, 777_000).unwrap();
    // the second load hands in different identity material: none of it
    // may be used, since the cached record is returned verbatim
    let second = load_internal(&mut store, &path, &snap, 43, 888_000).unwrap();

    assert_eq!(second.id, first.id);
    assert_eq!(second.first_seen_date, first.first_seen_date);
    assert_eq!(second.width_px, first.width_px);
    // no extraction, no writes: the cache is exactly as it was
    assert_eq!(store.media_count(), 1);
    assert_eq!(store.hash_count(), 1);

    // the minting entry point agrees
    let third = load(&mut store, &path, &snap).unwrap();
    assert_eq!(third.id, first.id);
    assert_eq!(third.first_seen_date, first.first_seen_date);
    assert_eq!(store.media_count(), 1);
}

#[test]
fn identity_stable_under_content_change() {
    let mut store = CacheStore::new();
    let path = "/a.jpg".to_string();
    load_internal(&mut store, &path, &snapshot(jpeg_bytes(1920, 1080)), 42, 777_000).unwrap();

    // the file's content changes in place
    let changed = snapshot(jpeg_bytes(800, 600));
    Media::update_metadata(&mut store, &path, &changed).unwrap();

    let refreshed = store.get_by_path(&path).unwrap();
    assert_eq!(refreshed.id, 42, "identity never changes");
    assert_eq!(refreshed.first_seen_date, 777_000, "first seen never changes");
    assert_eq!(refreshed.width_px, 800, "metadata follows the new content");
    assert_eq!(refreshed.height_px, 600);
    assert_eq!(store.media_count(), 1);
    assert_eq!(store.hash_count(), 1);
}

#[test]
fn update_metadata_skips_unchanged_content() {
    let mut store = CacheStore::new();
    let path = "/a.jpg".to_string();
    let snap = snapshot(jpeg_bytes(1920, 1080));
    load_internal(&mut store, &path, &snap, 42, 777_000).unwrap();

    // same content: the stored hash row matches, nothing is touched
    Media::update_metadata(&mut store, &path, &snap).unwrap();

    let kept = store.get_by_path(&path).unwrap();
    assert_eq!(kept.width_px, 1920);
    assert_eq!(store.media_count(), 1);
    assert_eq!(store.hash_count(), 1);
}

#[test]
fn fallback_ordering_uses_pixel_decoder() {
    // a plain PNG: the alternate-encoding reader and the
    // structured-metadata reader both fail deterministically
    let bytes = png_bytes(320, 200);

    let mut probe = MediaBuilder::default();
    assert!(!probe.apply_avif(&bytes, MediaKind::Photo));
    assert!(probe.width_px.is_none());
    assert!(!probe.apply_kamadak_exif(&bytes, MediaKind::Photo));
    assert!(probe.width_px.is_none());

    // the chain then takes the third strategy's resolution
    let mut builder = MediaBuilder::default();
    builder.photo_chain(&bytes, false, MediaKind::Photo);
    assert_eq!(builder.width_px, Some(320));
    assert_eq!(builder.height_px, Some(200));
    assert!(matches!(builder.specific_metadata, Some(SpecificMetadata::Image {})));
}

#[test]
fn exif_strategy_yields_resolution_and_fields() {
    let mut store = CacheStore::new();
    let path = "/shot.tif".to_string();
    let media =
        load_internal(&mut store, &path, &snapshot(exif_tiff_bytes(800, 600)), 7, 1).unwrap();

    assert_eq!(media.width_px, 800);
    assert_eq!(media.height_px, 600);
    assert_eq!(media.format.mime_type(), "image/tiff");
    let om = media.other_metadata.expect("EXIF fields land in the free-form map");
    assert!(om.len() >= 2);
}

#[test]
fn hash_determinism_across_paths() {
    let content = b"byte-identical content".to_vec();
    let h1 = MediaHash::hash_file(&"/x/a.bin".to_string(), &Some(content.clone())).unwrap();
    let h2 = MediaHash::hash_file(&"/y/b.bin".to_string(), &Some(content.clone())).unwrap();
    assert_eq!(h1, h2, "the digest depends on the bytes alone");
    assert_eq!(h1.len(), 32);

    let h3 = MediaHash::hash_file(&"/x/a.bin".to_string(), &Some(b"other".to_vec())).unwrap();
    assert_ne!(h1, h3);

    // the digest is a real computation, not the input handed back
    let input = vec![7u8; 32];
    let digest = hash_bytes(input.as_slice());
    assert_ne!(digest, input);
}

#[test]
fn hash_state_classification() {
    let fresh = vec![1u8, 2, 3];
    assert_eq!(classify_hash(&None, &fresh), HashUpToDate::NotInDatabase);
    assert_eq!(classify_hash(&Some(vec![1u8, 2, 3]), &fresh), HashUpToDate::UpToDate);
    assert_eq!(classify_hash(&Some(vec![9u8]), &fresh), HashUpToDate::Outdated);

    assert!(eq_hash(&vec![1u8, 2], &vec![1u8, 2]));
    assert!(!eq_hash(&vec![1u8, 2], &vec![1u8, 3]));
    assert!(!eq_hash(&vec![1u8, 2], &vec![1u8, 2, 3]));
}

#[test]
fn hash_states_through_a_record() {
    let mut store = CacheStore::new();
    let path = "/a.jpg".to_string();
    let bytes = jpeg_bytes(64, 64);
    let media = load_internal(&mut store, &path, &snapshot(bytes.clone()), 42, 1).unwrap();

    // the stored row matches the unchanged content
    let (_, state) = media.hash(&store, &Some(bytes)).unwrap();
    assert_eq!(state, HashUpToDate::UpToDate);

    // changed content is outdated
    let (_, state) = media.hash(&store, &Some(jpeg_bytes(65, 65))).unwrap();
    assert_eq!(state, HashUpToDate::Outdated);

    // a record with no stored row at all
    let empty = CacheStore::new();
    let (_, state) = media.hash(&empty, &Some(jpeg_bytes(64, 64))).unwrap();
    assert_eq!(state, HashUpToDate::NotInDatabase);
}

#[test]
fn duplicate_content_under_new_path_is_a_new_record() {
    let mut store = CacheStore::new();
    let bytes = jpeg_bytes(100, 100);
    load_internal(&mut store, &"/a.jpg".to_string(), &snapshot(bytes.clone()), 42, 100).unwrap();

    // the same content appears under a second path: it keeps the old
    // first-seen date but is tracked as a logically new record
    let copy = load_internal(&mut store, &"/copy.jpg".to_string(), &snapshot(bytes), 77, 999)
        .unwrap();
    assert_eq!(copy.id, 77, "a new identity is minted for the new path");
    assert_eq!(copy.first_seen_date, 100, "the first-seen date of the duplicate is kept");
    assert_eq!(store.media_count(), 2);
}

#[test]
fn scenario_unsupported_file() {
    let mut store = CacheStore::new();
    let r = load_internal(
        &mut store,
        &"/note.txt".to_string(),
        &snapshot(b"just a note, not media\n".to_vec()),
        1,
        2,
    );
    assert!(matches!(r, Err(RavesError::NoMimeData { .. })), "plain text has no signature");
    assert_eq!(store.media_count(), 0, "no row is written");
    assert_eq!(store.hash_count(), 0);
}

#[test]
fn known_signature_of_nonmedia_is_not_supported() {
    let mut store = CacheStore::new();
    let mut zip = vec![0x50u8, 0x4B, 0x03, 0x04];
    zip.extend_from_slice(&[0u8; 28]);
    let r = load_internal(&mut store, &"/archive.zip".to_string(), &snapshot(zip), 1, 2);
    assert!(matches!(r, Err(RavesError::FileNotSupportedMedia { .. })));
    assert_eq!(store.media_count(), 0, "no row is written");
    assert_eq!(store.hash_count(), 0);
}

#[test]
fn scenario_missing_required_field() {
    let mut store = CacheStore::new();
    let full = jpeg_bytes(64, 64);
    let truncated = full[..40].to_vec();

    let r = load_internal(&mut store, &"/broken.jpg".to_string(), &snapshot(truncated), 1, 2);
    match r {
        Err(RavesError::FileMissingMetadata(path, field)) => {
            assert_eq!(path, "/broken.jpg");
            assert!(field.contains("width"), "the missing field is named: {field}");
        },
        other => panic!("expected a missing-field failure, got {other:?}"),
    }
    assert_eq!(store.media_count(), 0, "no partially-populated record is written");
}

#[test]
fn missing_file_errors() {
    let mut store = CacheStore::new();
    let gone = FileSnapshot {
        check: FileCheck::Missing,
        content: None,
        stat: None,
        demux: DemuxProbe::NoVideoStream,
    };
    let r = load_internal(&mut store, &"/gone.jpg".to_string(), &gone, 1, 2);
    assert!(matches!(r, Err(RavesError::MediaDoesntExist { .. })));

    let unreadable = FileSnapshot {
        check: FileCheck::CheckFailed("permission denied".to_string()),
        content: None,
        stat: None,
        demux: DemuxProbe::NoVideoStream,
    };
    let r = load_internal(&mut store, &"/locked.jpg".to_string(), &unreadable, 1, 2);
    assert!(matches!(r, Err(RavesError::FailedToOpenMediaFile { .. })));

    let readfail = FileSnapshot {
        check: FileCheck::Exists,
        content: None,
        stat: None,
        demux: DemuxProbe::NoVideoStream,
    };
    let r = load_internal(&mut store, &"/flaky.jpg".to_string(), &readfail, 1, 2);
    assert!(matches!(r, Err(RavesError::HashFailure(_))));

    let r = load_internal(&mut store, &"/".to_string(), &snapshot(jpeg_bytes(4, 4)), 1, 2);
    assert!(matches!(r, Err(RavesError::MediaFilePathNoParent(_))));
    assert_eq!(store.media_count(), 0);
}

#[test]
fn video_length_comes_from_the_demuxer() {
    let path = "/clip.mp4".to_string();
    assert!(matches!(
        get_video_len(&path, &DemuxProbe::NoVideoStream),
        Ok(SpecificMetadata::Video { length_ms: 0 })
    ));
    assert!(matches!(
        get_video_len(
            &path,
            &DemuxProbe::Stream { duration_ticks: 90_000, time_base_num: 1, time_base_den: 90 }
        ),
        Ok(SpecificMetadata::Video { length_ms: 1_000_000 })
    ));
    assert!(matches!(
        get_video_len(&path, &DemuxProbe::Unavailable("no demuxer".to_string())),
        Err(RavesError::FfmpegFailedProcessing { .. })
    ));
}

#[test]
fn video_ingestion_fails_cleanly_without_a_demuxer() {
    // a minimal MP4 signature so the sniffer resolves a video kind
    let mut mp4 = vec![0x00u8, 0x00, 0x00, 0x18];
    mp4.extend_from_slice(b"ftypisom");
    mp4.extend_from_slice(&[0u8; 16]);

    let mut store = CacheStore::new();
    let mut snap = snapshot(mp4.clone());
    snap.demux = DemuxProbe::Unavailable("demuxer not present".to_string());
    let r = load_internal(&mut store, &"/clip.mp4".to_string(), &snap, 1, 2);
    assert!(matches!(r, Err(RavesError::FfmpegFailedProcessing { .. })));

    // with a demuxer answer but an unparsable container, the chain is
    // exhausted and the missing field is named
    let mut store = CacheStore::new();
    let snap = snapshot(mp4);
    let r = load_internal(&mut store, &"/clip.mp4".to_string(), &snap, 1, 2);
    match r {
        Err(RavesError::FileMissingMetadata(_, field)) => {
            assert!(field.contains("width"));
        },
        other => panic!("expected a missing-field failure, got {other:?}"),
    }
}

#[test]
fn upsert_keeps_first_seen_and_replaces_the_rest() {
    let mut store = CacheStore::new();
    store.upsert_media(sample_media(1, "/a", 100, 10));
    store.upsert_media(sample_media(1, "/a", 999, 20));

    let m = store.get_by_id(1).unwrap();
    assert_eq!(m.first_seen_date, 100, "first seen is immutable once set");
    assert_eq!(m.width_px, 20, "every other field is overwritten");
    assert_eq!(store.media_count(), 1);
}

#[test]
fn hash_rows_replace_never_accumulate() {
    let mut store = CacheStore::new();
    store.upsert_hash(MediaHash { media_id: 5, hash: vec![1u8; 32] });
    store.upsert_hash(MediaHash { media_id: 5, hash: vec![2u8; 32] });
    assert_eq!(store.hash_count(), 1, "at most one hash row per record");
    assert_eq!(store.get_hash(5).unwrap(), vec![2u8; 32]);

    store.upsert_hash(MediaHash { media_id: 6, hash: vec![3u8; 32] });
    assert_eq!(store.hash_count(), 2);
}

#[test]
fn lookup_by_hash_goes_through_the_id() {
    let mut store = CacheStore::new();
    store.upsert_media(sample_media(5, "/a", 100, 10));
    store.upsert_hash(MediaHash { media_id: 5, hash: vec![9u8; 32] });

    let found = store.get_by_hash(&vec![9u8; 32]).unwrap();
    assert_eq!(found.id, 5);
    assert!(store.get_by_hash(&vec![8u8; 32]).is_none());
}
