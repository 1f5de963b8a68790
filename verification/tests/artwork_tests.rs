use metamusic::artwork::ArtworkCache;
use metamusic::tags::TagData;
use ratatui_image::picker::Picker;
use std::sync::Arc;

fn png_bytes() -> Vec<u8> {
    let image = image::DynamicImage::new_rgb8(4, 3);
    let mut bytes = Vec::new();
    image.write_to(&mut std::io::Cursor::new(&mut bytes), image::ImageFormat::Png).unwrap();
    bytes
}

fn tag_with_picture(bytes: Vec<u8>) -> TagData {
    let mut tag = TagData::new();
    tag.picture = Some(bytes);
    tag
}

fn cache() -> ArtworkCache {
    ArtworkCache::new(Picker::from_fontsize((10, 24)))
}

#[test]
fn a_new_cache_is_empty() {
    let cache = cache();
    assert!(!cache.contains("a.mp3"));
    assert!(cache.get("a.mp3").is_none());
}

#[test]
fn artwork_is_decoded_and_cached() {
    let mut cache = cache();
    let tag = tag_with_picture(png_bytes());
    let handle = cache.load("a.mp3", Some(&tag));
    assert!(handle.is_some());
    assert!(cache.contains("a.mp3"));
    assert!(!cache.contains("b.mp3"));
    assert!(Arc::ptr_eq(&handle.unwrap(), &cache.get("a.mp3").unwrap()));
}

#[test]
fn asking_twice_gives_the_same_handle() {
    let mut cache = cache();
    let tag = tag_with_picture(png_bytes());
    let first = cache.load("a.mp3", Some(&tag)).unwrap();
    let second = cache.load("a.mp3", Some(&tag)).unwrap();
    assert!(Arc::ptr_eq(&first, &second));
}

#[test]
fn a_cached_handle_is_handed_out_without_looking_at_the_file() {
    let mut cache = cache();
    let tag = tag_with_picture(png_bytes());
    let first = cache.load("a.mp3", Some(&tag)).unwrap();
    let without_tags = cache.load("a.mp3", None).unwrap();
    let with_broken_image = cache.load("a.mp3", Some(&tag_with_picture(vec![0, 1, 2]))).unwrap();
    let without_image = cache.load("a.mp3", Some(&TagData::new())).unwrap();
    assert!(Arc::ptr_eq(&first, &without_tags));
    assert!(Arc::ptr_eq(&first, &with_broken_image));
    assert!(Arc::ptr_eq(&first, &without_image));
}

#[test]
fn each_file_has_its_own_handle() {
    let mut cache = cache();
    let tag = tag_with_picture(png_bytes());
    let a = cache.load("a.mp3", Some(&tag)).unwrap();
    let b = cache.load("b.mp3", Some(&tag)).unwrap();
    assert!(!Arc::ptr_eq(&a, &b));
    assert!(Arc::ptr_eq(&a, &cache.get("a.mp3").unwrap()));
    assert!(Arc::ptr_eq(&b, &cache.get("b.mp3").unwrap()));
}

#[test]
fn a_file_without_tags_or_image_has_no_artwork() {
    let mut cache = cache();
    assert!(cache.load("a.mp3", None).is_none());
    assert!(cache.load("a.mp3", Some(&TagData::new())).is_none());
    assert!(!cache.contains("a.mp3"));
}

#[test]
fn an_image_that_does_not_decode_is_not_cached_and_tried_again() {
    let mut cache = cache();
    assert!(cache.load("a.mp3", Some(&tag_with_picture(vec![1, 2, 3, 4]))).is_none());
    assert!(cache.load("a.mp3", Some(&tag_with_picture(Vec::new()))).is_none());
    assert!(!cache.contains("a.mp3"));
    assert!(cache.load("a.mp3", Some(&tag_with_picture(png_bytes()))).is_some());
    assert!(cache.contains("a.mp3"));
}

#[test]
fn storing_a_failed_decoding_caches_nothing() {
    let mut cache = cache();
    assert!(cache.store("a.mp3", None).is_none());
    assert!(!cache.contains("a.mp3"));
    let handle = cache.store("a.mp3", Some(image::DynamicImage::new_rgb8(1, 1))).unwrap();
    assert!(Arc::ptr_eq(&handle, &cache.get("a.mp3").unwrap()));
}

#[test]
fn the_handle_can_be_locked_for_rendering() {
    let mut cache = cache();
    let handle = cache.load("a.mp3", Some(&tag_with_picture(png_bytes()))).unwrap();
    assert!(handle.lock().is_ok());
}

#[test]
fn artwork_is_reported_for_an_embedded_image_before_and_after_loading() {
    let mut cache = cache();
    let tag = tag_with_picture(png_bytes());
    assert!(cache.has_artwork("a.mp3", Some(&tag)));
    cache.load("a.mp3", Some(&tag));
    assert!(cache.has_artwork("a.mp3", Some(&tag)));
    assert!(!cache.has_artwork("b.mp3", Some(&TagData::new())));
    assert!(!cache.has_artwork("b.mp3", None));
    cache.load("b.mp3", None);
    assert!(!cache.has_artwork("b.mp3", None));
}

#[test]
fn artwork_is_reported_for_an_image_that_does_not_decode() {
    let mut cache = cache();
    let tag = tag_with_picture(vec![9, 9, 9]);
    assert!(cache.has_artwork("a.mp3", Some(&tag)));
    assert!(cache.load("a.mp3", Some(&tag)).is_none());
    assert!(cache.has_artwork("a.mp3", Some(&tag)));
}

#[test]
fn cached_artwork_is_reported_even_without_tags() {
    let mut cache = cache();
    cache.load("a.mp3", Some(&tag_with_picture(png_bytes())));
    assert!(cache.has_artwork("a.mp3", None));
}
