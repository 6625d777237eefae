//! Crop-orchestration library for remote images and videos.
//!
//! A client submits a rectangular crop region for a piece of media held in
//! cloud storage or behind a public URL.  The library derives collision-free
//! output names, classifies media by file extension, validates the crop
//! geometry against the decoded media dimensions, plans the crop operation,
//! and sequences the whole request as a state machine that maps every failure
//! into a uniform response envelope.  Fetching bytes, running the video
//! encoder and uploading results are external collaborators: the library
//! decides, collaborators act.

use vstd::prelude::*;

pub mod chars;
pub mod classify;
pub mod crop;
pub mod media_io;
pub mod naming;
pub mod orchestrate;
pub mod paths;
pub mod responses;
pub mod storage;
pub mod urlcheck;
pub mod validate;

pub use classify::{classify, is_image_file, is_video_file, MediaKind};
pub use crop::{crop_image, finish_video_crop, prepare_video_crop, ProcessOutcome, VideoCropPlan};
pub use naming::{first_free_output_path, get_output_path};
pub use paths::{append_to_file_name, change_file_name, format_file_name_for_storage, get_file_name};
pub use responses::{
    default_catcher, options_crop_image, options_crop_video, options_upload_media, post_crop_video,
    unprocessable_entity,
};

verus! {

/// Top-left corner of a crop region, in source-media pixel coordinates.
#[derive(Clone, Copy, PartialEq, Eq, Structural, Debug)]
pub struct Point {
    pub x: u32,
    pub y: u32,
}

/// Width and height of a crop region, in pixels.
#[derive(Clone, Copy, PartialEq, Eq, Structural, Debug)]
pub struct ImageSize {
    pub width: u32,
    pub height: u32,
}

/// A crop region: where it starts and how large it is.
#[derive(Clone, Copy, PartialEq, Eq, Structural, Debug)]
pub struct CropDimensions {
    pub top_left_point: Point,
    pub size: ImageSize,
}

/// Everything a single crop operation needs: the local input file, an
/// optional explicit output file, and the region to keep.
#[derive(Clone, PartialEq, Debug)]
pub struct CropParameters {
    pub input_file_path: String,
    pub output_file_path: Option<String>,
    pub dimensions: CropDimensions,
}

/// A client request: the media to crop, referenced either by a storage path
/// or by a public URL, and the region to keep.  Exactly one of the two
/// references must be present; anything else is a malformed request.
#[derive(Clone, PartialEq, Debug)]
pub struct CropRequest {
    pub storage_file_path: Option<String>,
    pub url: Option<String>,
    pub dimensions: CropDimensions,
}

/// A client request to mirror a remote file into storage without cropping.
#[derive(Clone, PartialEq, Debug)]
pub struct UploadRequest {
    pub url: String,
}

/// The uniform envelope returned to the client: on success `data` is filled,
/// on failure `message` is filled; never both.
#[derive(Clone, PartialEq, Debug)]
pub struct ApiResponse<T> {
    pub success: bool,
    pub message: Option<String>,
    pub data: Option<T>,
}

/// The body the storage service answers an upload with: the name it stored
/// the object under.
#[derive(Clone, PartialEq, Debug)]
pub struct UploadResponse {
    pub name: String,
}

} // verus!
