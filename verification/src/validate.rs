//! Validation of crop parameters: the input must exist and be a supported
//! media file, an explicit output must not already exist, and for images the
//! requested region must lie inside the decoded dimensions.  The geometry
//! rule itself is pure and exactly characterized; the existence probes and
//! the header read are the only contact with the outside.

use vstd::prelude::*;
use crate::CropParameters;
use crate::CropDimensions;
use crate::classify::{classify, classify_spec, MediaKind};
use crate::media_io::{image_dimensions, open_image, path_exists};

verus! {

/// The two ways a crop region can violate the media bounds.
#[derive(Clone, Copy, PartialEq, Eq, Structural, Debug)]
pub enum GeometryError {
    OriginOutOfBounds,
    RegionExceedsBounds,
}

/// A region is legal for a width-by-height medium when its origin lies
/// strictly inside and it does not reach past either edge.
pub open spec fn geometry_ok(width: u32, height: u32, d: CropDimensions) -> bool {
    &&& d.top_left_point.x < width
    &&& d.top_left_point.y < height
    &&& d.size.width <= width - d.top_left_point.x
    &&& d.size.height <= height - d.top_left_point.y
}

/// Whether the origin already lies outside the medium.
pub open spec fn origin_out_of_bounds(width: u32, height: u32, d: CropDimensions) -> bool {
    d.top_left_point.x >= width || d.top_left_point.y >= height
}

/// Checks a crop region against actual media dimensions.  The origin is
/// checked first: a region whose origin lies outside is reported as such
/// even if its size would also overrun.
pub fn validate_geometry(width: u32, height: u32, dimensions: &CropDimensions) -> (r: Result<
    (),
    GeometryError,
>)
    ensures
        r is Ok <==> geometry_ok(width, height, *dimensions),
        (r is Err && r->Err_0 == GeometryError::OriginOutOfBounds) <==> origin_out_of_bounds(
            width,
            height,
            *dimensions,
        ),
        (r is Err && r->Err_0 == GeometryError::RegionExceedsBounds) <==> (!origin_out_of_bounds(
            width,
            height,
            *dimensions,
        ) && (dimensions.size.width > width - dimensions.top_left_point.x
            || dimensions.size.height > height - dimensions.top_left_point.y)),
{
    if dimensions.top_left_point.x >= width || dimensions.top_left_point.y >= height {
        Err(GeometryError::OriginOutOfBounds)
    } else if dimensions.size.width > width - dimensions.top_left_point.x
        || dimensions.size.height > height - dimensions.top_left_point.y {
        Err(GeometryError::RegionExceedsBounds)
    } else {
        Ok(())
    }
}

/// The message a missing input is rejected with.
pub open spec fn msg_input_not_found() -> Seq<char> {
    "The input file does not exist."@
}

/// The message an unsupported file type is rejected with.
pub open spec fn msg_unsupported_type() -> Seq<char> {
    "The input file is not an image nor a video."@
}

/// The message an already-existing output is rejected with.
pub open spec fn msg_output_exists() -> Seq<char> {
    "The output file already exists."@
}

/// The message an out-of-bounds origin is rejected with.
pub open spec fn msg_origin_oob() -> Seq<char> {
    "The top left point is out of bounds."@
}

/// The message an oversized region is rejected with.
pub open spec fn msg_region_exceeds() -> Seq<char> {
    "The output size is larger than the input image size."@
}

/// What validation answers for given probe results, in check order: a
/// missing input, an unsupported extension, an already-taken output, a
/// failed header decode (whose own message is surfaced), an origin outside
/// the decoded dimensions, and a region reaching past them; a video gets
/// no geometry bound, the transcoder fails on its own terms.
pub open spec fn validation_decision(
    input_exists: bool,
    kind: Option<MediaKind>,
    output_taken: bool,
    header: Option<Result<(u32, u32), String>>,
    d: CropDimensions,
) -> Result<bool, Seq<char>> {
    if !input_exists {
        Err(msg_input_not_found())
    } else if kind is None {
        Err(msg_unsupported_type())
    } else if output_taken {
        Err(msg_output_exists())
    } else if kind == Some(MediaKind::Image) {
        match header {
            Some(decoded) => match decoded {
                Ok(wh) => if origin_out_of_bounds(wh.0, wh.1, d) {
                    Err(msg_origin_oob())
                } else if d.size.width > wh.0 - d.top_left_point.x || d.size.height > wh.1
                    - d.top_left_point.y {
                    Err(msg_region_exceeds())
                } else {
                    Ok(true)
                },
                Err(e) => Err(e@),
            },
            None => Ok(true),
        }
    } else {
        Ok(true)
    }
}

/// Decides validation from the probe results alone: whether the input
/// exists, what its extension classifies as, whether the requested output
/// is already taken, and what the image header decoded to (read only when
/// it will be consulted).  The outcome and its message are exactly
/// `validation_decision` of the arguments.
pub fn decide_validation(
    input_exists: bool,
    kind: Option<MediaKind>,
    output_taken: bool,
    header: Option<Result<(u32, u32), String>>,
    dimensions: &CropDimensions,
) -> (r: Result<bool, String>)
    ensures
        r is Ok <==> validation_decision(input_exists, kind, output_taken, header, *dimensions)
            is Ok,
        r is Ok ==> r->Ok_0 == true,
        r is Err ==> r->Err_0@ == validation_decision(
            input_exists,
            kind,
            output_taken,
            header,
            *dimensions,
        )->Err_0,
{
    if !input_exists {
        return Err(String::from_str("The input file does not exist."));
    }
    let kind_val = match kind {
        Some(k) => k,
        None => {
            return Err(String::from_str("The input file is not an image nor a video."));
        },
    };
    if output_taken {
        return Err(String::from_str("The output file already exists."));
    }
    match kind_val {
        MediaKind::Image => match header {
            Some(decoded) => match decoded {
                Ok((width, height)) => match validate_geometry(width, height, dimensions) {
                    Ok(()) => Ok(true),
                    Err(GeometryError::OriginOutOfBounds) => Err(
                        String::from_str("The top left point is out of bounds."),
                    ),
                    Err(GeometryError::RegionExceedsBounds) => Err(
                        String::from_str(
                            "The output size is larger than the input image size.",
                        ),
                    ),
                },
                Err(e) => Err(e),
            },
            None => Ok(true),
        },
        MediaKind::Video => Ok(true),
    }
}

/// Validates cropping parameters, in order: the input file must exist, its
/// extension must classify as image or video, an explicitly requested
/// output must not exist yet, and for an image the region must lie within
/// the decoded dimensions (a failed decode surfaces the decoder's message).
/// The probes and the header read touch the outside; everything decided
/// from their results is `decide_validation`, whose contract fixes the
/// outcome and message for every probe result.
pub fn validate_options(options: &CropParameters) -> (r: Result<bool, String>)
    ensures
        r is Ok ==> r->Ok_0 == true && classify_spec(options.input_file_path@) is Some,
{
    let input_exists = path_exists(options.input_file_path.as_str());
    let kind = classify(options.input_file_path.as_str());
    let kind_supported = kind.is_some();
    let is_image = match kind {
        Some(MediaKind::Image) => true,
        _ => false,
    };
    let output_taken = if input_exists && kind_supported {
        match &options.output_file_path {
            Some(output_path) => path_exists(output_path.as_str()),
            None => false,
        }
    } else {
        false
    };
    let header = if input_exists && kind_supported && is_image && !output_taken {
        match open_image(options.input_file_path.as_str()) {
            Ok(img) => Some(Ok(image_dimensions(&img))),
            Err(e) => Some(Err(e)),
        }
    } else {
        None
    };
    decide_validation(input_exists, kind, output_taken, header, &options.dimensions)
}

} // verus!
