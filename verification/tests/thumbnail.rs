use neodlp_bridge::thumbnail::{
    data_uri_of, image_data_uri, remember_image, thumbnail_file_name, ImageCache,
};

#[test]
fn data_uri_holds_the_base64_of_the_image() {
    assert_eq!(image_data_uri(b"").unwrap(), "data:image/jpeg;base64,");
    assert_eq!(image_data_uri(b"f").unwrap(), "data:image/jpeg;base64,Zg==");
    assert_eq!(image_data_uri(b"fo").unwrap(), "data:image/jpeg;base64,Zm8=");
    assert_eq!(image_data_uri(b"foo").unwrap(), "data:image/jpeg;base64,Zm9v");
    assert_eq!(image_data_uri(b"foobar").unwrap(), "data:image/jpeg;base64,Zm9vYmFy");
    assert_eq!(image_data_uri(&[0xff, 0xd8, 0xff, 0xe0]).unwrap(), "data:image/jpeg;base64,/9j/4A==");
    assert_eq!(image_data_uri(&[0xfb, 0xef, 0xbe]).unwrap(), "data:image/jpeg;base64,++++");
    assert_eq!(data_uri_of("QUJD"), "data:image/jpeg;base64,QUJD");
}

#[test]
fn thumbnail_name_holds_the_hash() {
    assert_eq!(thumbnail_file_name(0), "thumb_0.jpg");
    assert_eq!(thumbnail_file_name(1234567890), "thumb_1234567890.jpg");
    assert_eq!(thumbnail_file_name(u64::MAX), "thumb_18446744073709551615.jpg");
}

#[test]
fn cache_keeps_one_uri_per_address() {
    let mut cache = ImageCache::new();
    assert_eq!(cache.get("https://a/1.jpg"), None);
    cache.insert("https://a/1.jpg".to_string(), "one".to_string());
    cache.insert("https://a/2.jpg".to_string(), "two".to_string());
    assert_eq!(cache.get("https://a/1.jpg"), Some("one".to_string()));
    assert_eq!(cache.get("https://a/2.jpg"), Some("two".to_string()));
    assert_eq!(cache.get("https://a/3.jpg"), None);
    cache.insert("https://a/1.jpg".to_string(), "uno".to_string());
    assert_eq!(cache.get("https://a/1.jpg"), Some("uno".to_string()));
    assert_eq!(cache.get("https://a/2.jpg"), Some("two".to_string()));
    assert_eq!(cache.get(""), None);
}

#[test]
fn fetched_image_is_remembered() {
    let mut cache = ImageCache::new();
    let uri = remember_image(&mut cache, "u".to_string(), b"foo");
    assert_eq!(uri, Some("data:image/jpeg;base64,Zm9v".to_string()));
    assert_eq!(cache.get("u"), uri);
    let again = remember_image(&mut cache, "u".to_string(), b"fo");
    assert_eq!(cache.get("u"), again);
    assert_eq!(again, Some("data:image/jpeg;base64,Zm8=".to_string()));
}
