use drag_and_crop::{classify, is_image_file, is_video_file, MediaKind};
use drag_and_crop::urlcheck::{get_extension, has_valid_content_type, is_image_url, is_video_url};

#[test]
fn test_classify_is_case_insensitive() {
    assert_eq!(classify("A.JPG"), Some(MediaKind::Image));
    assert_eq!(classify("x.mp4"), Some(MediaKind::Video));
    assert_eq!(classify("x.txt"), None);
}

#[test]
fn test_classify_mixed_case_and_tiff() {
    assert_eq!(classify("scan.TiFf"), Some(MediaKind::Image));
    assert_eq!(classify("clip.WebM"), Some(MediaKind::Video));
    assert_eq!(classify("art.WEBP"), Some(MediaKind::Image));
}

#[test]
fn test_classify_without_extension() {
    assert_eq!(classify("no_extension"), None);
    assert_eq!(classify("a/.hidden"), None);
    assert_eq!(classify(""), None);
}

#[test]
fn test_is_image_file() {
    assert!(is_image_file("./images/family-photo.jpg"));
    assert!(!is_image_file("./files/abc.txt"));
    assert!(!is_image_file("./videos/family-video.mkv"));
}

#[test]
fn test_is_video_file() {
    assert!(is_video_file("./videos/family-video.mkv"));
    assert!(!is_video_file("./files/abc.txt"));
    assert!(!is_video_file("./images/family-photo.jpg"));
}

#[test]
fn test_is_image_url_accepts_query() {
    assert!(is_image_url("https://i.imgur.com/mXxCzXG.png?a=b"));
}

#[test]
fn test_is_video_url_accepts_query() {
    assert!(is_video_url("https://i.imgur.com/mXxCzXG.mp4?c=d"));
}

#[test]
fn test_is_image_url_requires_https() {
    assert!(!is_image_url("http://i.imgur.com/mXxCzXG.png"));
}

#[test]
fn test_is_image_url_requires_host_part() {
    assert!(!is_image_url("https://.png"));
    assert!(is_image_url("https://a.png"));
}

#[test]
fn test_is_image_url_rejects_line_break_in_host() {
    assert!(!is_image_url("https://a\nb.png"));
}

#[test]
fn test_is_image_url_link_may_sit_anywhere() {
    assert!(is_image_url("see https://host/pic.jpg for the picture"));
}

#[test]
fn test_is_image_url_extension_is_lower_case_only() {
    assert!(!is_image_url("https://host/pic.PNG"));
}

#[test]
fn test_is_video_url_rejects_image_extension() {
    assert!(!is_video_url("https://i.imgur.com/mXxCzXG.png"));
}

#[test]
fn test_get_extension() {
    let url = "https://i.imgur.com/mXxCzXG.mp4?c=d";
    assert_eq!(get_extension(url), Some(String::from(".mp4")));
}

#[test]
fn test_get_extension_takes_first_match_in_name() {
    assert_eq!(
        get_extension("https://host/a.png.mp4"),
        Some(String::from(".png"))
    );
}

#[test]
fn test_get_extension_none() {
    assert_eq!(get_extension("https://host/no-extension"), None);
    assert_eq!(get_extension("https://host/file.txt"), None);
}

#[test]
fn test_has_valid_content_type() {
    assert!(has_valid_content_type("image/jpeg"));
    assert!(has_valid_content_type("video/mp4"));
    assert!(!has_valid_content_type("text/html"));
    assert!(!has_valid_content_type(""));
}
