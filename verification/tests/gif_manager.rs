use clipboard_history::gif_manager::{
    decimal_string, file_uri_of, path_for_hash, ClipboardHandler, Downloader, GifCache,
    PasteAction, PasteFlow, APP_CACHE_DIR,
};
use std::collections::hash_map::DefaultHasher;
use std::hash::{Hash, Hasher};
use std::path::Path;

fn system_cache_dir() -> Option<String> {
    dirs::cache_dir().map(|p| p.to_string_lossy().into_owned())
}

#[test]
fn test_cache_resolution() {
    let dir = GifCache::get_dir(system_cache_dir().as_deref());
    assert!(dir.is_ok());
    assert!(Path::new(&dir.unwrap()).ends_with("win11-clipboard-history/gifs"));
}

#[test]
fn test_path_generation() {
    let dir = GifCache::get_dir(system_cache_dir().as_deref());
    let path = GifCache::get_path_for_url(dir, "http://example.com/cat.gif");
    assert!(path.is_ok());
    assert!(Path::new(&path.unwrap()).extension().unwrap() == "gif");
}

#[test]
fn cache_dir_values() {
    assert_eq!(
        GifCache::get_dir(Some("/home/u/.cache")).unwrap(),
        "/home/u/.cache/win11-clipboard-history/gifs"
    );
    assert_eq!(
        GifCache::get_dir(Some("/home/u/.cache/")).unwrap(),
        "/home/u/.cache/win11-clipboard-history/gifs"
    );
    assert_eq!(
        GifCache::get_dir(None).unwrap_err(),
        "Failed to resolve system cache directory"
    );
    assert_eq!(APP_CACHE_DIR, "win11-clipboard-history/gifs");
}

#[test]
fn path_is_hash_in_decimal() {
    let url = "http://example.com/cat.gif";
    let mut hasher = DefaultHasher::new();
    url.hash(&mut hasher);
    let hash = hasher.finish();
    let path = GifCache::get_path_for_url(Ok("/c".to_string()), url).unwrap();
    assert_eq!(path, format!("/c/{}.gif", hash));
    let again = GifCache::get_path_for_url(Ok("/c".to_string()), url).unwrap();
    assert_eq!(path, again);
    let other = GifCache::get_path_for_url(Ok("/c".to_string()), "http://example.com/dog.gif").unwrap();
    assert_ne!(path, other);
    assert_eq!(Path::new(&path).parent().unwrap(), Path::new("/c"));
}

#[test]
fn path_passes_dir_error_on() {
    let r = GifCache::get_path_for_url(Err("no dir".to_string()), "http://x/y.gif");
    assert_eq!(r.unwrap_err(), "no dir");
}

#[test]
fn decimal_forms() {
    assert_eq!(decimal_string(0), "0");
    assert_eq!(decimal_string(7), "7");
    assert_eq!(decimal_string(10), "10");
    assert_eq!(decimal_string(1234567890), "1234567890");
    assert_eq!(decimal_string(u64::MAX), u64::MAX.to_string());
}

#[test]
fn joining_paths() {
    assert_eq!(GifCache::get_dir(Some("")).unwrap(), "win11-clipboard-history/gifs");
    assert_eq!(GifCache::get_dir(Some("/")).unwrap(), "/win11-clipboard-history/gifs");
    assert_eq!(
        GifCache::get_dir(Some("rel")).unwrap(),
        Path::new("rel").join(APP_CACHE_DIR).to_string_lossy()
    );
    assert_eq!(path_for_hash("/a/b/", 5), "/a/b/5.gif");
}

#[test]
fn file_uris() {
    assert_eq!(file_uri_of("/tmp/1.gif"), "file:///tmp/1.gif");
    assert_eq!(file_uri_of(""), "file://");
}

#[test]
fn http_status_verdicts() {
    assert!(Downloader::check_status(200, "200 OK").is_ok());
    assert!(Downloader::check_status(204, "204 No Content").is_ok());
    assert!(Downloader::check_status(299, "299").is_ok());
    assert_eq!(
        Downloader::check_status(404, "404 Not Found").unwrap_err(),
        "HTTP Error: 404 Not Found"
    );
    assert_eq!(Downloader::check_status(199, "199").unwrap_err(), "HTTP Error: 199");
    assert_eq!(Downloader::check_status(300, "300 Multiple Choices").unwrap_err(), "HTTP Error: 300 Multiple Choices");
}

#[test]
fn pasteboard_write_outcome() {
    assert!(ClipboardHandler::write_outcome(true).is_ok());
    assert_eq!(
        ClipboardHandler::write_outcome(false).unwrap_err(),
        "NSPasteboard writeObjects returned false"
    );
}

#[test]
fn path_for_given_hash() {
    assert_eq!(path_for_hash("/c", 0), "/c/0.gif");
    assert_eq!(path_for_hash("/c/", 1234), "/c/1234.gif");
    assert_eq!(path_for_hash("", u64::MAX), format!("{}.gif", u64::MAX));
}

const URL: &str = "http://example.com/cat.gif";

fn cache_path() -> String {
    GifCache::get_path_for_url(Ok("/c".to_string()), URL).unwrap()
}

#[test]
fn paste_flow_happy_path() {
    let flow = PasteFlow::start(URL, Ok("/c".to_string()));
    match flow.action() {
        PasteAction::Download(target) => assert_eq!(target, &cache_path()),
        _ => panic!("expected a download"),
    }
    let flow = flow.advance(Ok(()));
    match flow.action() {
        PasteAction::CopyFileUrl(target) => assert_eq!(target, &cache_path()),
        _ => panic!("expected a file-URL copy"),
    }
    let flow = flow.advance(Ok(()));
    assert!(matches!(flow.action(), PasteAction::Finish(_)));
    assert_eq!(flow.into_result(), Ok(Some(format!("file://{}", cache_path()))));
}

#[test]
fn paste_flow_falls_back_after_download_error() {
    let flow = PasteFlow::start(URL, Ok("/c".to_string()));
    let flow = flow.advance(Err("Network request failed".to_string()));
    assert!(matches!(flow.action(), PasteAction::CopyUrlText));
    let flow = flow.advance(Ok(()));
    assert_eq!(flow.into_result(), Ok(Some(URL.to_string())));
}

#[test]
fn paste_flow_falls_back_after_file_copy_error() {
    let flow = PasteFlow::start(URL, Ok("/c".to_string()));
    let flow = flow.advance(Ok(()));
    let flow = flow.advance(Err("NSPasteboard writeObjects returned false".to_string()));
    assert!(matches!(flow.action(), PasteAction::CopyUrlText));
    let flow = flow.advance(Ok(()));
    assert_eq!(flow.into_result(), Ok(Some(URL.to_string())));
}

#[test]
fn paste_flow_without_cache_dir() {
    let flow = PasteFlow::start(URL, Err("Failed to resolve system cache directory".to_string()));
    assert!(matches!(flow.action(), PasteAction::CopyUrlText));
    let flow = flow.advance(Err("clipboard busy".to_string()));
    assert_eq!(flow.into_result(), Err("clipboard busy".to_string()));
}
