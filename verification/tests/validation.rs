use drag_and_crop::{crop_image, prepare_video_crop, CropDimensions, CropParameters, ImageSize, Point, MediaKind};
use drag_and_crop::crop::{open_error_message, save_error_message};
use drag_and_crop::validate::{decide_validation, validate_geometry, validate_options, GeometryError};

fn dims(x: u32, y: u32, width: u32, height: u32) -> CropDimensions {
    CropDimensions {
        top_left_point: Point { x, y },
        size: ImageSize { width, height },
    }
}

#[test]
fn test_geometry_valid_region_accepted() {
    assert_eq!(validate_geometry(1024, 720, &dims(50, 50, 400, 300)), Ok(()));
}

#[test]
fn test_geometry_full_frame_accepted() {
    assert_eq!(validate_geometry(1024, 720, &dims(0, 0, 1024, 720)), Ok(()));
}

#[test]
fn test_geometry_corner_pixel_accepted() {
    assert_eq!(validate_geometry(1024, 720, &dims(1023, 719, 1, 1)), Ok(()));
}

#[test]
fn test_geometry_origin_out_of_bounds() {
    assert_eq!(
        validate_geometry(1024, 720, &dims(2000, 0, 10, 10)),
        Err(GeometryError::OriginOutOfBounds)
    );
    assert_eq!(
        validate_geometry(1024, 720, &dims(1024, 0, 1, 1)),
        Err(GeometryError::OriginOutOfBounds)
    );
    assert_eq!(
        validate_geometry(1024, 720, &dims(0, 720, 1, 1)),
        Err(GeometryError::OriginOutOfBounds)
    );
}

#[test]
fn test_geometry_region_exceeds_bounds() {
    assert_eq!(
        validate_geometry(1024, 720, &dims(50, 50, 5000, 100)),
        Err(GeometryError::RegionExceedsBounds)
    );
    assert_eq!(
        validate_geometry(1024, 720, &dims(50, 50, 975, 100)),
        Err(GeometryError::RegionExceedsBounds)
    );
    assert_eq!(
        validate_geometry(1024, 720, &dims(50, 50, 100, 671)),
        Err(GeometryError::RegionExceedsBounds)
    );
}

#[test]
fn test_geometry_origin_reported_before_size() {
    assert_eq!(
        validate_geometry(100, 100, &dims(200, 200, 500, 500)),
        Err(GeometryError::OriginOutOfBounds)
    );
}

#[test]
fn test_decision_missing_input_checked_first() {
    // a missing input decides even when every later check would also fail
    let r = decide_validation(false, None, true, None, &dims(2000, 2000, 5000, 5000));
    assert_eq!(r, Err(String::from("The input file does not exist.")));
}

#[test]
fn test_decision_unsupported_type() {
    let r = decide_validation(true, None, false, None, &dims(0, 0, 1, 1));
    assert_eq!(
        r,
        Err(String::from("The input file is not an image nor a video."))
    );
}

#[test]
fn test_decision_output_already_exists() {
    let r = decide_validation(true, Some(MediaKind::Image), true, None, &dims(0, 0, 1, 1));
    assert_eq!(r, Err(String::from("The output file already exists.")));
}

#[test]
fn test_decision_decoder_error_surfaced() {
    let r = decide_validation(
        true,
        Some(MediaKind::Image),
        false,
        Some(Err(String::from("Format error decoding Jpeg"))),
        &dims(0, 0, 1, 1),
    );
    assert_eq!(r, Err(String::from("Format error decoding Jpeg")));
}

#[test]
fn test_decision_origin_message() {
    let r = decide_validation(
        true,
        Some(MediaKind::Image),
        false,
        Some(Ok((1024, 720))),
        &dims(2000, 0, 10, 10),
    );
    assert_eq!(r, Err(String::from("The top left point is out of bounds.")));
}

#[test]
fn test_decision_region_message() {
    let r = decide_validation(
        true,
        Some(MediaKind::Image),
        false,
        Some(Ok((1024, 720))),
        &dims(50, 50, 5000, 100),
    );
    assert_eq!(
        r,
        Err(String::from(
            "The output size is larger than the input image size."
        ))
    );
}

#[test]
fn test_decision_valid_image_accepted() {
    let r = decide_validation(
        true,
        Some(MediaKind::Image),
        false,
        Some(Ok((1024, 720))),
        &dims(50, 50, 400, 300),
    );
    assert_eq!(r, Ok(true));
}

#[test]
fn test_decision_video_skips_geometry() {
    // no geometry bound for video: the transcoder fails on its own terms
    let r = decide_validation(
        true,
        Some(MediaKind::Video),
        false,
        None,
        &dims(2000, 2000, 5000, 5000),
    );
    assert_eq!(r, Ok(true));
}

#[test]
fn test_crop_error_message_prefixes() {
    assert_eq!(
        open_error_message("bad header").as_str(),
        "There was an error while opening the image file: bad header"
    );
    assert_eq!(
        save_error_message("disk full").as_str(),
        "There was an error while saving the cropped image: disk full"
    );
}

fn missing_file_params() -> CropParameters {
    CropParameters {
        input_file_path: String::from("./no-such-input-file.jpg"),
        output_file_path: Some(String::from("./no-such-output-file.jpg")),
        dimensions: dims(50, 50, 100, 100),
    }
}

#[test]
fn test_validate_options_missing_input() {
    let result = validate_options(&missing_file_params());
    assert_eq!(result, Err(String::from("The input file does not exist.")));
}

#[test]
fn test_validate_options_unsupported_type() {
    // a path that always exists and is neither image nor video
    let params = CropParameters {
        input_file_path: String::from("/dev/null"),
        output_file_path: None,
        dimensions: dims(0, 0, 1, 1),
    };
    let result = validate_options(&params);
    assert_eq!(
        result,
        Err(String::from("The input file is not an image nor a video."))
    );
}

#[test]
fn test_crop_image_missing_input() {
    let result = crop_image(&missing_file_params());
    assert_eq!(result, Err(String::from("The input file does not exist.")));
}

#[test]
fn test_prepare_video_crop_missing_input() {
    let result = prepare_video_crop(&missing_file_params());
    assert!(result.is_err());
    assert_eq!(
        result.err().unwrap(),
        String::from("The input file does not exist.")
    );
}
