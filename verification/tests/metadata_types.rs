//! Tests of the metadata vocabulary: formats, aspect ratios, the
//! free-form map and the small conversions.

use backdrop::builder::{mime_mentions_avif, parent_dir, px_u32, sat_u64, video_length_ms};
use backdrop::metadata::{
    AspectRatio, Filesize, Format, MediaKind, Orientation, OtherMetadataMap, OtherMetadataValue,
    Resolution,
};

#[test]
fn aspect_ratios_16_9() {
    let ratio = AspectRatio::new(16, 9);
    assert_eq!(16, ratio.width());
    assert_eq!(9, ratio.height());
}

#[test]
fn zero_aspect_ratios_should_be_zero() {
    // zero height
    let ratio = AspectRatio::new(4, 0);
    assert_eq!(0, ratio.width());
    assert_eq!(0, ratio.height());

    // zero width
    let ratio = AspectRatio::new(0, 9);
    assert_eq!(0, ratio.width());
    assert_eq!(0, ratio.height());

    // all zero, baby
    let ratio = AspectRatio::new(0, 0);
    assert_eq!(0, ratio.width());
    assert_eq!(0, ratio.height());
}

#[test]
fn aspect_ratios_should_simplify() {
    let ratio = AspectRatio::new(32, 18);
    assert_eq!(16, ratio.width());
    assert_eq!(9, ratio.height());
}

#[test]
fn format_from_image_mime() {
    let format = Format::new_from_mime("image/jpeg").unwrap();
    assert_eq!(format.media_kind(), MediaKind::Photo);
    assert_eq!(format.mime_type(), "image/jpeg");
    assert_eq!(format.display(), "photo/image/jpeg");
}

#[test]
fn format_from_video_mime() {
    let format = Format::new_from_mime("video/webm").unwrap();
    assert_eq!(format.media_kind(), MediaKind::Video);
    assert_eq!(format.mime_type(), "video/webm");
    assert_eq!(format.display(), "video/video/webm");
}

#[test]
fn format_rejects_other_top_level_types() {
    assert!(Format::new_from_mime("application/zip").is_none());
    assert!(Format::new_from_mime("text/plain").is_none());
    assert!(Format::new_from_mime("").is_none());
}

#[test]
fn format_accepts_bare_top_level_type() {
    // a MIME string without a '/' is its own top-level type
    let format = Format::new_from_mime("image").unwrap();
    assert_eq!(format.media_kind(), MediaKind::Photo);
    assert_eq!(format.mime_type(), "image");
}

#[test]
fn media_kind_display_names() {
    assert_eq!(MediaKind::Photo.display(), "Photo");
    assert_eq!(MediaKind::AnimatedPhoto.display(), "AnimatedPhoto");
    assert_eq!(MediaKind::Video.display(), "Video");
}

#[test]
fn orientation_follows_resolution() {
    assert_eq!(Orientation::from(Resolution::new(1920, 1080)), Orientation::Landscape);
    assert_eq!(Orientation::from(Resolution::new(1080, 1920)), Orientation::Portrait);
    assert_eq!(Orientation::from(Resolution::new(512, 512)), Orientation::Square);
    assert_eq!(Orientation::from(AspectRatio::new(16, 9)), Orientation::Landscape);
}

#[test]
fn filesize_from_u64() {
    assert_eq!(Filesize::from(5_194_673u64), Filesize(5_194_673));
}

#[test]
fn other_metadata_insert_replaces_keys() {
    let mut map = OtherMetadataMap::new();
    assert_eq!(map.len(), 0);

    map.insert(
        "Exposure".to_string(),
        OtherMetadataValue::new("Exposure", "1/100"),
    );
    map.insert(
        "Aperture".to_string(),
        OtherMetadataValue::new("Aperture", "f/2.8"),
    );
    assert_eq!(map.len(), 2);

    // inserting an existing key replaces, never accumulates
    map.insert(
        "Exposure".to_string(),
        OtherMetadataValue::new("Exposure", "1/250"),
    );
    assert_eq!(map.len(), 2);
    assert_eq!(map.0[0].1.value, "1/250");
}

#[test]
fn other_metadata_maps_compare_by_content_and_order_by_size() {
    let mut one = OtherMetadataMap::new();
    one.insert("A".to_string(), OtherMetadataValue::new("A", "1"));
    let mut two = OtherMetadataMap::new();
    two.insert("A".to_string(), OtherMetadataValue::new("A", "1"));
    two.insert("B".to_string(), OtherMetadataValue::new("B", "2"));

    assert_eq!(one, one.clone_map());
    assert!(one != two);
    assert_eq!(one.partial_cmp(&two), Some(std::cmp::Ordering::Less));
    assert_eq!(two.partial_cmp(&one), Some(std::cmp::Ordering::Greater));
    assert_eq!(one.partial_cmp(&one.clone_map()), Some(std::cmp::Ordering::Equal));
}

#[test]
fn other_metadata_value_new_keeps_both_parts() {
    let value = OtherMetadataValue::new("ISO", "400");
    assert_eq!(value.user_facing_name.as_deref(), Some("ISO"));
    assert_eq!(value.value, "400");
}

#[test]
fn parent_dir_cases() {
    assert_eq!(parent_dir("/media/photos/a.jpg").as_deref(), Some("/media/photos"));
    assert_eq!(parent_dir("/a.jpg").as_deref(), Some("/"));
    assert_eq!(parent_dir("a.jpg").as_deref(), Some(""));
    assert_eq!(parent_dir("media/a.jpg").as_deref(), Some("media"));
    assert_eq!(parent_dir("/"), None);
    assert_eq!(parent_dir(""), None);
}

#[test]
fn avif_mention_detection() {
    assert!(mime_mentions_avif("image/avif"));
    assert!(mime_mentions_avif("avif"));
    assert!(!mime_mentions_avif("image/jpeg"));
    assert!(!mime_mentions_avif("avi"));
    assert!(!mime_mentions_avif(""));
}

#[test]
fn video_length_from_time_base() {
    // 90000 ticks in a 1/90 time base is 1000 seconds
    assert_eq!(video_length_ms(90_000, 1, 90), 1_000_000);
    // a zero time base yields zero, not a fault
    assert_eq!(video_length_ms(123, 1, 0), 0);
    // plain milliseconds
    assert_eq!(video_length_ms(3, 1, 1000), 3);
}

#[test]
fn clip_helpers() {
    assert_eq!(sat_u64(42u128), 42u64);
    assert_eq!(sat_u64(u64::MAX as u128 + 5), u64::MAX);
    assert_eq!(px_u32(1920), 1920);
    assert_eq!(px_u32(0x1_0000_0000 + 7), 7);
}
