use image::ImageFormat;
use image_resizer::cache::{expired, Cache, ImageCacheItem, CACHE_TTL_MILLIS};

fn item(time: u64, format: ImageFormat, image: &[u8]) -> ImageCacheItem {
    ImageCacheItem { time, format, image: image.to_vec() }
}

fn sorted(mut keys: Vec<String>) -> Vec<String> {
    keys.sort();
    keys
}

#[test]
fn new_cache_is_empty() {
    let cache = Cache::default();
    assert_eq!(cache.len(), 0);
    assert!(cache.read_image("/a/cat.jpg").is_none());
}

#[test]
fn read_your_write() {
    let mut cache = Cache::default();
    cache.write_image("/a/cat.jpg", item(17, ImageFormat::Png, &[1, 2, 3, 4]));
    let found = cache.read_image("/a/cat.jpg").expect("the entry that was written");
    assert_eq!(found.image, vec![1, 2, 3, 4]);
    assert_eq!(found.format, ImageFormat::Png);
    assert_eq!(found.time, 17);
    assert_eq!(cache.len(), 1);
}

#[test]
fn read_of_another_key_misses() {
    let mut cache = Cache::default();
    cache.write_image("/a/cat.jpg", item(0, ImageFormat::Jpeg, &[9]));
    assert!(cache.read_image("/a/cat.jp").is_none());
    assert!(cache.read_image("/a/cat.jpg ").is_none());
    assert!(cache.read_image("").is_none());
}

#[test]
fn write_overwrites_the_entry_of_the_key() {
    let mut cache = Cache::default();
    cache.write_image("/a/cat.jpg", item(1, ImageFormat::Jpeg, &[1]));
    cache.write_image("/a/dog.png", item(2, ImageFormat::Png, &[2]));
    cache.write_image("/a/cat.jpg", item(3, ImageFormat::WebP, &[3, 3]));
    assert_eq!(cache.len(), 2);
    let cat = cache.read_image("/a/cat.jpg").unwrap();
    assert_eq!(cat.image, vec![3, 3]);
    assert_eq!(cat.format, ImageFormat::WebP);
    assert_eq!(cat.time, 3);
    assert_eq!(cache.read_image("/a/dog.png").unwrap().image, vec![2]);
}

#[test]
fn lookup_returns_a_stale_entry_until_a_sweep_removes_it() {
    let mut cache = Cache::default();
    cache.write_image("/a/cat.jpg", item(0, ImageFormat::Jpeg, &[5]));
    assert!(expired(0, 1_000_000));
    assert_eq!(cache.read_image("/a/cat.jpg").unwrap().image, vec![5]);
    assert_eq!(cache.cull(1_000_000), 1);
    assert!(cache.read_image("/a/cat.jpg").is_none());
}

#[test]
fn ttl_is_three_hundred_seconds() {
    assert_eq!(CACHE_TTL_MILLIS, 300_000);
}

#[test]
fn sweep_at_ttl_plus_one_second_removes_the_entry() {
    let inserted_at = 42_000;
    let mut cache = Cache::default();
    cache.write_image("/a/cat.jpg", item(inserted_at, ImageFormat::Jpeg, &[1]));
    assert_eq!(cache.cull(inserted_at + 301_000), 1);
    assert!(cache.read_image("/a/cat.jpg").is_none());
    assert_eq!(cache.len(), 0);
}

#[test]
fn sweep_one_second_before_ttl_keeps_the_entry() {
    let inserted_at = 42_000;
    let mut cache = Cache::default();
    cache.write_image("/a/cat.jpg", item(inserted_at, ImageFormat::Jpeg, &[1]));
    assert_eq!(cache.cull(inserted_at + 299_000), 0);
    let kept = cache.read_image("/a/cat.jpg").unwrap();
    assert_eq!(kept.image, vec![1]);
    assert_eq!(kept.time, inserted_at);
}

#[test]
fn entry_expires_once_its_age_exceeds_the_ttl() {
    assert!(!expired(1_000, 1_000));
    assert!(!expired(1_000, 300_999));
    assert!(!expired(1_000, 301_000));
    assert!(expired(1_000, 301_001));
    assert!(expired(0, u64::MAX));
    assert!(!expired(u64::MAX, u64::MAX));
}

#[test]
fn clock_reading_before_the_entry_counts_as_no_age() {
    assert!(!expired(500_000, 0));
    let mut cache = Cache::default();
    cache.write_image("/k", item(500_000, ImageFormat::Gif, &[7]));
    assert_eq!(cache.cull(10), 0);
    assert_eq!(cache.len(), 1);
}

#[test]
fn sweep_removes_exactly_the_expired_entries() {
    let mut cache = Cache::default();
    cache.write_image("/old/1", item(0, ImageFormat::Jpeg, &[1]));
    cache.write_image("/new/1", item(200_000, ImageFormat::Jpeg, &[2]));
    cache.write_image("/old/2", item(99_999, ImageFormat::Png, &[3]));
    cache.write_image("/edge", item(100_000, ImageFormat::Png, &[4]));
    cache.write_image("/new/2", item(400_000, ImageFormat::Bmp, &[5]));
    assert_eq!(
        sorted(cache.expired_keys(400_000)),
        vec![String::from("/old/1"), String::from("/old/2")]
    );
    assert_eq!(cache.len(), 5);
    assert_eq!(cache.cull(400_000), 2);
    assert_eq!(cache.len(), 3);
    assert!(cache.read_image("/old/1").is_none());
    assert!(cache.read_image("/old/2").is_none());
    assert_eq!(cache.read_image("/edge").unwrap().image, vec![4]);
    assert_eq!(cache.read_image("/new/1").unwrap().image, vec![2]);
    assert_eq!(cache.read_image("/new/2").unwrap().format, ImageFormat::Bmp);
}

#[test]
fn sweeping_twice_in_succession_removes_nothing_the_second_time() {
    let mut cache = Cache::default();
    cache.write_image("/a", item(0, ImageFormat::Jpeg, &[1]));
    cache.write_image("/b", item(10, ImageFormat::Jpeg, &[2]));
    cache.write_image("/c", item(350_000, ImageFormat::Jpeg, &[3]));
    assert_eq!(cache.cull(400_000), 2);
    assert!(cache.expired_keys(400_000).is_empty());
    assert_eq!(cache.cull(400_000), 0);
    assert_eq!(cache.len(), 1);
    assert_eq!(cache.read_image("/c").unwrap().image, vec![3]);
}

#[test]
fn sweep_of_an_empty_cache_removes_nothing() {
    let mut cache = Cache::default();
    assert_eq!(cache.cull(u64::MAX), 0);
    assert!(cache.expired_keys(u64::MAX).is_empty());
}

#[test]
fn key_can_be_written_again_after_its_eviction() {
    let mut cache = Cache::default();
    cache.write_image("/a", item(0, ImageFormat::Jpeg, &[1]));
    assert_eq!(cache.cull(300_001), 1);
    cache.write_image("/a", item(300_002, ImageFormat::Png, &[2]));
    assert_eq!(cache.len(), 1);
    assert_eq!(cache.cull(300_003), 0);
    let again = cache.read_image("/a").unwrap();
    assert_eq!(again.image, vec![2]);
    assert_eq!(again.format, ImageFormat::Png);
}

#[test]
fn copy_of_an_entry_holds_what_the_entry_holds() {
    let source = item(5, ImageFormat::Tiff, &[1, 2, 3]);
    let copy = source.clone();
    assert_eq!(copy.time, 5);
    assert_eq!(copy.format, ImageFormat::Tiff);
    assert_eq!(copy.image, vec![1, 2, 3]);
}

#[test]
fn many_keys_are_kept_apart() {
    let mut cache = Cache::default();
    for i in 0..200u64 {
        cache.write_image(&format!("/img/{i}.png"), item(i * 1_000, ImageFormat::Png, &[i as u8]));
    }
    assert_eq!(cache.len(), 200);
    assert_eq!(cache.read_image("/img/137.png").unwrap().image, vec![137]);
    // at 400 s the entries written before 100 s are older than 300 s
    assert_eq!(cache.cull(400_000), 100);
    assert_eq!(cache.len(), 100);
    assert!(cache.read_image("/img/99.png").is_none());
    assert_eq!(cache.read_image("/img/100.png").unwrap().image, vec![100]);
}
