//! The two crop operations behind one shape of contract.  Image cropping
//! runs in-process against the image decoder; video cropping is planned
//! here as an exact command line for the external transcoder, and the
//! process outcome is mapped back into the uniform result.

use vstd::prelude::*;
use crate::CropParameters;
use crate::CropDimensions;
use crate::chars::{dec_digits, u64_to_string};
use crate::classify::classify_spec;
use crate::media_io::{crop_image_region, open_image, save_image};
use crate::naming::{get_output_path, output_candidate};
use crate::paths::has_plain_file_name;
use crate::validate::validate_options;

verus! {

/// Where a crop operation writes its result: the explicitly requested
/// output path, or a numbered sibling of the input.
pub open spec fn output_path_ok(options: CropParameters, out: Seq<char>) -> bool {
    match options.output_file_path {
        Some(p) => out == p@,
        None => exists|k: nat| 1 <= k && out == output_candidate(options.input_file_path@, k),
    }
}

/// The output path a crop operation will write to.
fn resolve_output_path(options: &CropParameters) -> (r: String)
    requires
        options.output_file_path is None ==> has_plain_file_name(options.input_file_path@),
    ensures
        output_path_ok(*options, r@),
{
    match &options.output_file_path {
        Some(output_path) => output_path.clone(),
        None => get_output_path(&options.input_file_path),
    }
}

/// The message a failed image decode is reported with: the fixed prefix
/// followed by the decoder's own text.
pub fn open_error_message(detail: &str) -> (r: String)
    ensures
        r@ == "There was an error while opening the image file: "@ + detail@,
{
    let mut msg = String::from_str("There was an error while opening the image file: ");
    msg.append(detail);
    msg
}

/// The message a failed encode or write of the cropped image is reported
/// with: the fixed prefix followed by the encoder's own text.
pub fn save_error_message(detail: &str) -> (r: String)
    ensures
        r@ == "There was an error while saving the cropped image: "@ + detail@,
{
    let mut msg = String::from_str("There was an error while saving the cropped image: ");
    msg.append(detail);
    msg
}

/// Crops the image named by the options and writes the result, returning
/// the path of the new file.  The options are validated first; an input
/// that does not exist, is not a supported media file, or whose region
/// overruns the decoded dimensions is rejected with that rule's message,
/// and nothing is written.
pub fn crop_image(options: &CropParameters) -> (r: Result<String, String>)
    requires
        options.output_file_path is None ==> has_plain_file_name(options.input_file_path@),
    ensures
        classify_spec(options.input_file_path@) is None ==> r is Err,
        r is Ok ==> output_path_ok(*options, r->Ok_0@),
{
    match validate_options(options) {
        Ok(_) => {},
        Err(e) => {
            return Err(e);
        },
    }
    let mut img = match open_image(options.input_file_path.as_str()) {
        Ok(img) => img,
        Err(e) => {
            return Err(open_error_message(e.as_str()));
        },
    };
    let cropped = crop_image_region(
        &mut img,
        options.dimensions.top_left_point.x,
        options.dimensions.top_left_point.y,
        options.dimensions.size.width,
        options.dimensions.size.height,
    );
    let output_file_path = resolve_output_path(options);
    match save_image(&cropped, output_file_path.as_str()) {
        Ok(()) => Ok(output_file_path),
        Err(e) => Err(save_error_message(e.as_str())),
    }
}

/// The transcoder's crop filter for a region: `crop=width:height:x:y`.
pub open spec fn crop_filter_spec(d: CropDimensions) -> Seq<char> {
    "crop="@ + dec_digits(d.size.width as nat) + seq![':'] + dec_digits(d.size.height as nat)
        + seq![':'] + dec_digits(d.top_left_point.x as nat) + seq![':'] + dec_digits(
        d.top_left_point.y as nat,
    )
}

/// Renders the transcoder's crop filter for a region.
pub fn crop_filter(d: &CropDimensions) -> (r: String)
    ensures
        r@ == crop_filter_spec(*d),
{
    let mut s = String::from_str("crop=");
    proof {
        reveal_strlit(":");
    }
    let w = u64_to_string(d.size.width as u64);
    s.append(w.as_str());
    s.append(":");
    let h = u64_to_string(d.size.height as u64);
    s.append(h.as_str());
    s.append(":");
    let x = u64_to_string(d.top_left_point.x as u64);
    s.append(x.as_str());
    s.append(":");
    let y = u64_to_string(d.top_left_point.y as u64);
    s.append(y.as_str());
    proof {
        assert(s@ =~= crop_filter_spec(*d));
    }
    s
}

/// A planned video crop: the command line for the external transcoder and
/// the path its output will land on.
pub struct VideoCropPlan {
    pub program: String,
    pub args: Vec<String>,
    pub output_file_path: String,
}

/// The plan is exactly the original invocation: the transcoder binary, the
/// input, the crop filter for the region, the output, and a quiet log
/// level.
pub open spec fn plan_ok(options: CropParameters, plan: VideoCropPlan) -> bool {
    &&& plan.program@ == "./ffmpeg.exe"@
    &&& plan.args@.len() == 7
    &&& plan.args@[0]@ == "-i"@
    &&& plan.args@[1]@ == options.input_file_path@
    &&& plan.args@[2]@ == "-filter:v"@
    &&& plan.args@[3]@ == crop_filter_spec(options.dimensions)
    &&& plan.args@[4]@ == plan.output_file_path@
    &&& plan.args@[5]@ == "-loglevel"@
    &&& plan.args@[6]@ == "error"@
    &&& output_path_ok(options, plan.output_file_path@)
}

/// Validates the options and plans the transcoder invocation for a video
/// crop.  Rejected options carry the violated rule's message and no plan is
/// produced; video geometry is not checked against frame dimensions here,
/// the transcoder fails on its own terms.
pub fn prepare_video_crop(options: &CropParameters) -> (r: Result<VideoCropPlan, String>)
    requires
        options.output_file_path is None ==> has_plain_file_name(options.input_file_path@),
    ensures
        classify_spec(options.input_file_path@) is None ==> r is Err,
        r is Ok ==> plan_ok(*options, r->Ok_0),
{
    match validate_options(options) {
        Ok(_) => {},
        Err(e) => {
            return Err(e);
        },
    }
    let filter = crop_filter(&options.dimensions);
    let output_file_path = resolve_output_path(options);
    let mut args: Vec<String> = Vec::new();
    args.push(String::from_str("-i"));
    args.push(options.input_file_path.clone());
    args.push(String::from_str("-filter:v"));
    args.push(filter);
    args.push(output_file_path.clone());
    args.push(String::from_str("-loglevel"));
    args.push(String::from_str("error"));
    Ok(VideoCropPlan { program: String::from_str("./ffmpeg.exe"), args, output_file_path })
}

/// What became of the transcoder process: it ran and exited, or it could
/// not even be launched.
pub enum ProcessOutcome {
    Exited { success: bool, status_text: String, stderr_text: String },
    LaunchFailed { error_text: String },
}

/// Maps the transcoder's outcome to the crop result.  Only a successful
/// exit yields the output path; a non-zero exit carries the status line and
/// the captured standard-error text, and a failed launch carries the
/// launch error.
pub fn finish_video_crop(output_file_path: String, outcome: &ProcessOutcome) -> (r: Result<
    String,
    String,
>)
    ensures
        r is Ok <==> outcome matches ProcessOutcome::Exited { success: true, .. },
        r is Ok ==> r->Ok_0@ == output_file_path@,
        outcome matches ProcessOutcome::Exited { success: false, status_text, stderr_text } ==> r
            is Err && r->Err_0@ == status_text@ + "\n"@ + stderr_text@,
        outcome matches ProcessOutcome::LaunchFailed { error_text } ==> r is Err && r->Err_0@
            == "There was an error while processing the video: "@ + error_text@,
{
    match outcome {
        ProcessOutcome::Exited { success, status_text, stderr_text } => {
            if *success {
                Ok(output_file_path)
            } else {
                let mut msg = status_text.clone();
                msg.append("\n");
                msg.append(stderr_text.as_str());
                Err(msg)
            }
        },
        ProcessOutcome::LaunchFailed { error_text } => {
            let mut msg = String::from_str("There was an error while processing the video: ");
            msg.append(error_text.as_str());
            Err(msg)
        },
    }
}

} // verus!
