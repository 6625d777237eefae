use drag_and_crop::{CropDimensions, CropRequest, ImageSize, Point, UploadRequest};
use drag_and_crop::orchestrate::{
    start_crop, start_upload, step_crop, step_upload, CropAction, CropEvent, Stage,
};

fn region() -> CropDimensions {
    CropDimensions {
        top_left_point: Point { x: 50, y: 50 },
        size: ImageSize { width: 400, height: 300 },
    }
}

fn storage_request() -> CropRequest {
    CropRequest {
        storage_file_path: Some(String::from("uploads/pic.jpg")),
        url: None,
        dimensions: region(),
    }
}

#[test]
fn test_malformed_request_both_set() {
    let request = CropRequest {
        storage_file_path: Some(String::from("uploads/pic.jpg")),
        url: Some(String::from("https://host/pic.jpg")),
        dimensions: region(),
    };
    let (flow, action) = start_crop(request, true);
    assert_eq!(flow.stage, Stage::Failed);
    match action {
        CropAction::Respond { response } => {
            assert!(!response.success);
            assert_eq!(
                response.message,
                Some(String::from(
                    "Bad request - both storage file path and URL fields are set."
                ))
            );
            assert_eq!(response.data, None);
        }
        _ => panic!("a malformed request must be answered, not acted on"),
    }
}

#[test]
fn test_malformed_request_neither_set() {
    let request = CropRequest {
        storage_file_path: None,
        url: None,
        dimensions: region(),
    };
    let (flow, action) = start_crop(request, true);
    assert_eq!(flow.stage, Stage::Failed);
    match action {
        CropAction::Respond { response } => {
            assert!(!response.success);
            assert_eq!(
                response.message,
                Some(String::from(
                    "Bad request - both storage file path and URL fields are empty."
                ))
            );
        }
        _ => panic!("a malformed request must be answered, not acted on"),
    }
}

#[test]
fn test_well_formed_request_authenticates_first() {
    let (flow, action) = start_crop(storage_request(), true);
    assert_eq!(flow.stage, Stage::Authenticating);
    assert!(matches!(action, CropAction::Authenticate));
}

#[test]
fn test_crop_happy_path_image() {
    let (flow, action) = start_crop(storage_request(), true);
    assert!(matches!(action, CropAction::Authenticate));

    let (flow, action) = step_crop(flow, CropEvent::Authenticated(Ok(String::from("token"))));
    assert_eq!(flow.stage, Stage::Acquiring);
    match &action {
        CropAction::FetchFromStorage { storage_file_path } => {
            assert_eq!(storage_file_path.as_str(), "uploads/pic.jpg");
        }
        _ => panic!("a storage request must be fetched from storage"),
    }

    let (flow, action) = step_crop(flow, CropEvent::Acquired(Ok(String::from("./tmp/pic.jpg"))));
    assert_eq!(flow.stage, Stage::Cropping);
    match &action {
        CropAction::RunImageCrop { parameters } => {
            assert_eq!(parameters.input_file_path.as_str(), "./tmp/pic.jpg");
            assert_eq!(
                parameters.output_file_path,
                Some(String::from("./tmp/cropped-pic.jpg"))
            );
            assert_eq!(parameters.dimensions, region());
        }
        _ => panic!("an image request must run the image crop"),
    }

    let (flow, action) = step_crop(
        flow,
        CropEvent::Cropped(Ok(String::from("./tmp/cropped-pic.jpg"))),
    );
    assert_eq!(flow.stage, Stage::Publishing);
    match &action {
        CropAction::PublishArtifact { local_path, is_image } => {
            assert_eq!(local_path.as_str(), "./tmp/cropped-pic.jpg");
            assert!(is_image);
        }
        _ => panic!("a cropped artifact must be published"),
    }

    let (flow, action) = step_crop(
        flow,
        CropEvent::Published(Ok(String::from("cropped/images/pic.jpg"))),
    );
    assert_eq!(flow.stage, Stage::Done);
    match action {
        CropAction::Respond { response } => {
            assert!(response.success);
            assert_eq!(response.message, None);
            assert_eq!(response.data, Some(String::from("cropped/images/pic.jpg")));
        }
        _ => panic!("a finished request must be answered"),
    }
}

#[test]
fn test_crop_video_path_dispatches_video_crop() {
    let (flow, _) = start_crop(storage_request(), false);
    let (flow, _) = step_crop(flow, CropEvent::Authenticated(Ok(String::from("token"))));
    let (flow, action) = step_crop(flow, CropEvent::Acquired(Ok(String::from("./tmp/clip.mp4"))));
    assert_eq!(flow.stage, Stage::Cropping);
    assert!(matches!(action, CropAction::RunVideoCrop { .. }));
}

#[test]
fn test_auth_failure_is_terminal() {
    let (flow, _) = start_crop(storage_request(), true);
    let (flow, action) = step_crop(flow, CropEvent::Authenticated(Err(String::from("denied"))));
    assert_eq!(flow.stage, Stage::Failed);
    match action {
        CropAction::Respond { response } => {
            assert_eq!(
                response.message,
                Some(String::from("Failed to authenticate the request."))
            );
        }
        _ => panic!("a failed authentication must be answered"),
    }
}

#[test]
fn test_acquire_failure_names_the_kind() {
    let (flow, _) = start_crop(storage_request(), false);
    let (flow, _) = step_crop(flow, CropEvent::Authenticated(Ok(String::from("token"))));
    let (flow, action) = step_crop(flow, CropEvent::Acquired(Err(String::from("404"))));
    assert_eq!(flow.stage, Stage::Failed);
    match action {
        CropAction::Respond { response } => {
            assert_eq!(
                response.message,
                Some(String::from("There was an error with the video url."))
            );
        }
        _ => panic!("a failed acquisition must be answered"),
    }
}

#[test]
fn test_crop_failure_carries_message_and_skips_publish() {
    let (flow, _) = start_crop(storage_request(), true);
    let (flow, _) = step_crop(flow, CropEvent::Authenticated(Ok(String::from("token"))));
    let (flow, _) = step_crop(flow, CropEvent::Acquired(Ok(String::from("./tmp/pic.jpg"))));
    let (flow, action) = step_crop(
        flow,
        CropEvent::Cropped(Err(String::from("The top left point is out of bounds."))),
    );
    assert_eq!(flow.stage, Stage::Failed);
    match action {
        CropAction::Respond { response } => {
            assert!(!response.success);
            assert_eq!(
                response.message,
                Some(String::from("The top left point is out of bounds."))
            );
            assert_eq!(response.data, None);
        }
        _ => panic!("a failed crop must be answered, never published"),
    }
}

#[test]
fn test_publish_failure_is_terminal() {
    let (flow, _) = start_crop(storage_request(), true);
    let (flow, _) = step_crop(flow, CropEvent::Authenticated(Ok(String::from("token"))));
    let (flow, _) = step_crop(flow, CropEvent::Acquired(Ok(String::from("./tmp/pic.jpg"))));
    let (flow, _) = step_crop(flow, CropEvent::Cropped(Ok(String::from("./tmp/cropped-pic.jpg"))));
    let (flow, action) = step_crop(flow, CropEvent::Published(Err(String::from("503"))));
    assert_eq!(flow.stage, Stage::Failed);
    match action {
        CropAction::Respond { response } => {
            assert_eq!(
                response.message,
                Some(String::from(
                    "There was an error while getting the cropped image URL."
                ))
            );
        }
        _ => panic!("a failed publication must be answered"),
    }
}

#[test]
fn test_upload_flow_rejects_unsupported_url() {
    let (flow, action) = start_upload(UploadRequest { url: String::from("https://host/notes.txt") });
    assert!(matches!(action, CropAction::Authenticate));
    let (flow, action) = step_upload(flow, CropEvent::Authenticated(Ok(String::from("token"))));
    assert_eq!(flow.stage, Stage::Failed);
    match action {
        CropAction::Respond { response } => {
            assert_eq!(
                response.message,
                Some(String::from("The url contains an unsupported file type."))
            );
        }
        _ => panic!("an unsupported url must be answered"),
    }
}

#[test]
fn test_upload_flow_happy_path() {
    let (flow, _) = start_upload(UploadRequest { url: String::from("https://host/clip.mp4") });
    let (flow, action) = step_upload(flow, CropEvent::Authenticated(Ok(String::from("token"))));
    assert_eq!(flow.stage, Stage::Acquiring);
    assert!(!flow.is_image);
    match &action {
        CropAction::FetchFromUrl { url } => assert_eq!(url.as_str(), "https://host/clip.mp4"),
        _ => panic!("a supported url must be fetched"),
    }
    let (flow, action) = step_upload(flow, CropEvent::Acquired(Ok(String::from("./tmp/abc.mp4"))));
    assert_eq!(flow.stage, Stage::Publishing);
    match &action {
        CropAction::PublishArtifact { local_path, is_image } => {
            assert_eq!(local_path.as_str(), "./tmp/abc.mp4");
            assert!(!is_image);
        }
        _ => panic!("an acquired file must be published"),
    }
    let (flow, action) = step_upload(
        flow,
        CropEvent::Published(Ok(String::from("cropped/videos/abc.mp4"))),
    );
    assert_eq!(flow.stage, Stage::Done);
    match action {
        CropAction::Respond { response } => {
            assert!(response.success);
            assert_eq!(response.data, Some(String::from("cropped/videos/abc.mp4")));
        }
        _ => panic!("a finished upload must be answered"),
    }
}

#[test]
fn test_upload_publish_failure_message() {
    let (flow, _) = start_upload(UploadRequest { url: String::from("https://host/pic.jpg") });
    let (flow, _) = step_upload(flow, CropEvent::Authenticated(Ok(String::from("token"))));
    assert!(flow.is_image);
    let (flow, _) = step_upload(flow, CropEvent::Acquired(Ok(String::from("./tmp/abc.jpg"))));
    let (flow, action) = step_upload(flow, CropEvent::Published(Err(String::from("403"))));
    assert_eq!(flow.stage, Stage::Failed);
    match action {
        CropAction::Respond { response } => {
            assert_eq!(
                response.message,
                Some(String::from(
                    "There was an error while uploading the image to storage."
                ))
            );
        }
        _ => panic!("a failed upload must be answered"),
    }
}
