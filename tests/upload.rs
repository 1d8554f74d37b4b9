use mstickerlib::{
    upload_after_lookup, upload_after_record, upload_after_store, upload_begin, CacheAnswer, Error,
    Image, UploadAction,
};
use std::collections::HashMap;
use std::sync::Arc;

fn image(name: &str, data: &[u8]) -> Image {
    Image { file_name: name.to_string(), data: Arc::new(data.to_vec()), width: 0, height: 0 }
}

/// Runs the steps against a map as the cache and a store that answers `store`;
/// returns the final action and how often the store was called.
fn drive(
    img: &Image,
    cache: Option<&mut HashMap<Vec<u8>, String>>,
    store: Option<&str>,
) -> (UploadAction, usize) {
    let key = img.data.to_vec();
    let has_cache = cache.is_some();
    let mut cache = cache;
    let mut calls = 0;
    let mut action = upload_begin(img, has_cache);
    loop {
        action = match action {
            UploadAction::QueryCache => {
                let answer = match cache.as_ref().unwrap().get(&key) {
                    Some(url) => CacheAnswer::Hit(url.clone()),
                    None => CacheAnswer::Miss,
                };
                upload_after_lookup(img, answer)
            },
            UploadAction::Upload { .. } => {
                calls += 1;
                upload_after_store(has_cache, store.map(|s| s.to_string()))
            },
            UploadAction::Record { url } => {
                cache.as_mut().unwrap().insert(key.clone(), url.clone());
                upload_after_record(url, true)
            },
            done => return (done, calls),
        };
    }
}

#[test]
fn same_content_is_uploaded_once() {
    let mut cache = HashMap::new();
    let (first, calls) = drive(&image("a.webp", b"pixels"), Some(&mut cache), Some("mxc://x/1"));
    assert!(matches!(first, UploadAction::Done { ref url, is_new: true } if url == "mxc://x/1"));
    assert_eq!(calls, 1);
    let (second, calls) = drive(&image("b.png", b"pixels"), Some(&mut cache), Some("mxc://x/2"));
    assert!(matches!(second, UploadAction::Done { ref url, is_new: false } if url == "mxc://x/1"));
    assert_eq!(calls, 0);
}

#[test]
fn no_extension_fails_without_upload() {
    let mut cache = HashMap::new();
    let (out, calls) = drive(&image("sticker", b"x"), Some(&mut cache), Some("mxc://x/1"));
    assert!(matches!(out, UploadAction::Fail(Error::NoMimeType)));
    assert_eq!(calls, 0);
    let (out, calls) = drive(&image("sticker", b"x"), None, Some("mxc://x/1"));
    assert!(matches!(out, UploadAction::Fail(Error::NoMimeType)));
    assert_eq!(calls, 0);
}

#[test]
fn failed_upload_records_nothing() {
    let mut cache = HashMap::new();
    let (out, calls) = drive(&image("a.gif", b"x"), Some(&mut cache), None);
    assert!(matches!(out, UploadAction::Fail(Error::Transport)));
    assert_eq!(calls, 1);
    assert!(cache.is_empty());
}

#[test]
fn upload_without_cache_is_new() {
    let (out, calls) = drive(&image("a.gif", b"x"), None, Some("mxc://y"));
    assert!(matches!(out, UploadAction::Done { ref url, is_new: true } if url == "mxc://y"));
    assert_eq!(calls, 1);
}

#[test]
fn begin_asks_cache_first() {
    assert!(matches!(upload_begin(&image("a.gif", b""), true), UploadAction::QueryCache));
}

#[test]
fn upload_uses_mime_type_of_name() {
    let out = upload_after_lookup(&image("a.webm", b""), CacheAnswer::Miss);
    assert!(matches!(out, UploadAction::Upload { ref mime_type } if mime_type == "video/webm"));
    let out = upload_begin(&image("a.webp", b""), false);
    assert!(matches!(out, UploadAction::Upload { ref mime_type } if mime_type == "image/webp"));
}

#[test]
fn cache_failures_are_database_errors() {
    let out = upload_after_lookup(&image("a.gif", b""), CacheAnswer::Failed);
    assert!(matches!(out, UploadAction::Fail(Error::Database)));
    let out = upload_after_record("mxc://z".to_string(), false);
    assert!(matches!(out, UploadAction::Fail(Error::Database)));
}

#[test]
fn store_answer_with_cache_is_recorded() {
    let out = upload_after_store(true, Some("mxc://z".to_string()));
    assert!(matches!(out, UploadAction::Record { ref url } if url == "mxc://z"));
}
