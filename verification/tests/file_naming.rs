use drag_and_crop::{
    append_to_file_name, change_file_name, first_free_output_path, format_file_name_for_storage,
    get_file_name, get_output_path,
};
use drag_and_crop::naming::cropped_output_path;

#[test]
fn test_change_file_name_keeps_extension() {
    let renamed = change_file_name("./my/path/name.rs", "new_name");
    assert_eq!(renamed.as_str(), "./my/path/new_name.rs");
}

#[test]
fn test_change_file_name_without_extension() {
    let renamed = change_file_name("a/b", "c");
    assert_eq!(renamed.as_str(), "a/c");
}

#[test]
fn test_change_file_name_overwrites_new_extension() {
    let renamed = change_file_name("a/old.rs", "new.x");
    assert_eq!(renamed.as_str(), "a/new.rs");
}

#[test]
fn test_get_file_name_strips_extension() {
    let name = get_file_name("./my/path/test.rs");
    assert_eq!(name.as_str(), "test");
}

#[test]
fn test_get_file_name_hidden_file() {
    let name = get_file_name("a/.config");
    assert_eq!(name.as_str(), ".config");
}

#[test]
fn test_append_to_file_name() {
    let appended = append_to_file_name(".\\my\\path\\test.rs", "123");
    assert_eq!(appended.as_str(), ".\\my\\path\\test123.rs");
}

#[test]
fn test_append_to_file_name_plain() {
    let appended = append_to_file_name("dir/photo.jpg", "-1");
    assert_eq!(appended.as_str(), "dir/photo-1.jpg");
}

#[test]
fn test_format_file_name_for_storage() {
    let formatted = format_file_name_for_storage("./tmp/cropped-image-1.jpg");
    assert_eq!(formatted.as_str(), "image-1.jpg");
}

#[test]
fn test_format_file_name_for_storage_unmarked_name_unchanged() {
    let formatted = format_file_name_for_storage("./tmp/image-1.jpg");
    assert_eq!(formatted.as_str(), "image-1.jpg");
}

#[test]
fn test_format_file_name_for_storage_short_name_unchanged() {
    let formatted = format_file_name_for_storage("ab.jpg");
    assert_eq!(formatted.as_str(), "ab.jpg");
}

#[test]
fn test_format_file_name_for_storage_partial_marker_unchanged() {
    let formatted = format_file_name_for_storage("./tmp/cropped.jpg");
    assert_eq!(formatted.as_str(), "cropped.jpg");
}

#[test]
fn test_storage_name_round_trip() {
    let marked = cropped_output_path("./tmp/photo-3.png");
    assert_eq!(marked.as_str(), "./tmp/cropped-photo-3.png");
    let back = format_file_name_for_storage(marked.as_str());
    assert_eq!(back.as_str(), "photo-3.png");
}

#[test]
fn test_first_free_output_path_fresh() {
    let existing: Vec<String> = Vec::new();
    let p = first_free_output_path("./a/img.png", &existing);
    assert_eq!(p.as_str(), "./a/img-1.png");
}

#[test]
fn test_first_free_output_path_skips_taken() {
    let existing = vec![
        String::from("./a/img-1.png"),
        String::from("./a/img-2.png"),
    ];
    let p = first_free_output_path("./a/img.png", &existing);
    assert_eq!(p.as_str(), "./a/img-3.png");
}

#[test]
fn test_first_free_output_path_accumulating_never_collides() {
    let mut existing: Vec<String> = Vec::new();
    for i in 1..=12 {
        let p = first_free_output_path("./a/img.png", &existing);
        assert!(!existing.contains(&p));
        assert_eq!(p, format!("./a/img-{}.png", i));
        existing.push(p);
    }
    assert_eq!(existing.last().unwrap().as_str(), "./a/img-12.png");
}

#[test]
fn test_first_free_output_path_unordered_pool() {
    let existing = vec![
        String::from("./a/img-2.png"),
        String::from("unrelated.txt"),
        String::from("./a/img-1.png"),
    ];
    let p = first_free_output_path("./a/img.png", &existing);
    assert_eq!(p.as_str(), "./a/img-3.png");
}

#[test]
fn test_get_output_path_fresh_directory() {
    let input = String::from("./no-such-file-for-naming-probe.jpg");
    let p = get_output_path(&input);
    assert_eq!(p.as_str(), "./no-such-file-for-naming-probe-1.jpg");
}
