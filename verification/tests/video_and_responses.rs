use drag_and_crop::{finish_video_crop, post_crop_video, ProcessOutcome};
use drag_and_crop::crop::crop_filter;
use drag_and_crop::responses::{
    default_catcher, options_crop_image, options_crop_video, options_upload_media,
    unprocessable_entity,
};
use drag_and_crop::storage::{
    content_type_for, download_request_url, local_download_path, storage_object_name,
    upload_request_url, url_download_path,
};
use drag_and_crop::{CropDimensions, ImageSize, Point};

#[test]
fn test_crop_filter_format() {
    let d = CropDimensions {
        top_left_point: Point { x: 50, y: 50 },
        size: ImageSize { width: 400, height: 300 },
    };
    assert_eq!(crop_filter(&d).as_str(), "crop=400:300:50:50");
}

#[test]
fn test_crop_filter_multi_digit() {
    let d = CropDimensions {
        top_left_point: Point { x: 250, y: 300 },
        size: ImageSize { width: 500, height: 400 },
    };
    assert_eq!(crop_filter(&d).as_str(), "crop=500:400:250:300");
}

#[test]
fn test_finish_video_crop_success() {
    let outcome = ProcessOutcome::Exited {
        success: true,
        status_text: String::from("exit status: 0"),
        stderr_text: String::new(),
    };
    let result = finish_video_crop(String::from("./test-cropped.mp4"), &outcome);
    assert_eq!(result, Ok(String::from("./test-cropped.mp4")));
}

#[test]
fn test_finish_video_crop_nonzero_exit_carries_stderr() {
    let outcome = ProcessOutcome::Exited {
        success: false,
        status_text: String::from("exit status: 1"),
        stderr_text: String::from("Invalid crop area"),
    };
    let result = finish_video_crop(String::from("./test-cropped.mp4"), &outcome);
    assert_eq!(result, Err(String::from("exit status: 1\nInvalid crop area")));
}

#[test]
fn test_finish_video_crop_launch_failure() {
    let outcome = ProcessOutcome::LaunchFailed { error_text: String::from("No such file") };
    let result = finish_video_crop(String::from("./test-cropped.mp4"), &outcome);
    assert_eq!(
        result,
        Err(String::from(
            "There was an error while processing the video: No such file"
        ))
    );
}

#[test]
fn test_post_crop_video_maps_result() {
    let ok = post_crop_video(Ok(String::from("./out.mp4")));
    assert!(ok.success);
    assert_eq!(ok.message, None);
    assert_eq!(ok.data, Some(String::from("./out.mp4")));

    let err = post_crop_video(Err(String::from("boom")));
    assert!(!err.success);
    assert_eq!(err.message, Some(String::from("boom")));
    assert_eq!(err.data, None);
}

#[test]
fn test_unprocessable_entity_message() {
    let r = unprocessable_entity();
    assert!(!r.success);
    assert_eq!(
        r.message,
        Some(String::from(
            "Bad request - there was a type mismatch with the request data."
        ))
    );
    assert_eq!(r.data, None);
}

#[test]
fn test_default_catcher_message() {
    let r = default_catcher();
    assert!(!r.success);
    assert_eq!(
        r.message,
        Some(String::from(
            "There was an unknown error while processing the request."
        ))
    );
    assert_eq!(r.data, None);
}

#[test]
fn test_options_endpoints_answer_no_content() {
    let a = options_crop_image();
    let b = options_crop_video();
    let c = options_upload_media();
    assert_eq!(a.status, 204);
    assert_eq!(a.body.as_str(), "");
    assert_eq!(b.status, 204);
    assert_eq!(b.body.as_str(), "");
    assert_eq!(c.status, 204);
    assert_eq!(c.body.as_str(), "");
}

#[test]
fn test_storage_object_name_per_kind() {
    assert_eq!(
        storage_object_name("./tmp/cropped-photo.jpg", true).as_str(),
        "cropped/images/photo.jpg"
    );
    assert_eq!(
        storage_object_name("./tmp/cropped-clip1.mp4", false).as_str(),
        "cropped/videos/clip1.mp4"
    );
}

#[test]
fn test_local_download_path() {
    assert_eq!(
        local_download_path("folder/clip.mp4").as_str(),
        "./tmp/clip.mp4"
    );
}

#[test]
fn test_download_request_url_percent_encodes() {
    let url = download_request_url("images/pic 1.jpg");
    assert_eq!(
        url.as_str(),
        "https://storage.googleapis.com/download/storage/v1/b/drag-n-crop.appspot.com/o/images%2Fpic%201.jpg"
    );
}

#[test]
fn test_upload_request_url() {
    assert_eq!(
        upload_request_url(),
        "https://storage.googleapis.com/upload/storage/v1/b/drag-n-crop.appspot.com/o"
    );
}

#[test]
fn test_content_type_for_kind() {
    assert_eq!(content_type_for(true), "image/jpeg");
    assert_eq!(content_type_for(false), "video/mp4");
}

#[test]
fn test_url_download_path() {
    assert_eq!(
        url_download_path("0a1b2c", ".mp4").as_str(),
        "./tmp/0a1b2c.mp4"
    );
}
