//! The uniform response envelope handed back to clients, and the fixed
//! responses of the transport layer: catch-all errors and preflight
//! answers.

use vstd::prelude::*;
use crate::ApiResponse;

verus! {

/// An envelope that reports success carrying exactly `data`.
pub open spec fn success_envelope(r: ApiResponse<String>, data: Seq<char>) -> bool {
    &&& r.success == true
    &&& r.message is None
    &&& r.data is Some
    &&& r.data->0@ == data
}

/// An envelope that reports failure carrying exactly `msg`.
pub open spec fn failure_envelope(r: ApiResponse<String>, msg: Seq<char>) -> bool {
    &&& r.success == false
    &&& r.message is Some
    &&& r.message->0@ == msg
    &&& r.data is None
}

/// The success envelope around a result value.
pub fn success_response(data: String) -> (r: ApiResponse<String>)
    ensures
        success_envelope(r, data@),
{
    ApiResponse { success: true, message: None, data: Some(data) }
}

/// The failure envelope around an error message.
pub fn failure_response(message: String) -> (r: ApiResponse<String>)
    ensures
        failure_envelope(r, message@),
{
    ApiResponse { success: false, message: Some(message), data: None }
}

/// The envelope for a finished crop operation: the output path on success,
/// the operation's message on failure.
pub fn post_crop_video(result: Result<String, String>) -> (r: ApiResponse<String>)
    ensures
        result matches Ok(p) ==> success_envelope(r, p@),
        result matches Err(e) ==> failure_envelope(r, e@),
{
    match result {
        Ok(result) => success_response(result),
        Err(error) => failure_response(error),
    }
}

/// The answer for a request whose body did not match the expected shape.
pub fn unprocessable_entity() -> (r: ApiResponse<String>)
    ensures
        failure_envelope(r, "Bad request - there was a type mismatch with the request data."@),
{
    failure_response(
        String::from_str("Bad request - there was a type mismatch with the request data."),
    )
}

/// The answer for any otherwise unhandled transport error.
pub fn default_catcher() -> (r: ApiResponse<String>)
    ensures
        failure_envelope(r, "There was an unknown error while processing the request."@),
{
    failure_response(String::from_str("There was an unknown error while processing the request."))
}

/// A preflight answer: a status code with an empty body.
pub struct PreflightResponse {
    pub status: u16,
    pub body: String,
}

/// Whether a preflight answer is the empty no-content answer.
pub open spec fn no_content(r: PreflightResponse) -> bool {
    r.status == 204 && r.body@ == Seq::<char>::empty()
}

/// The preflight answer for the image-crop endpoint.
pub fn options_crop_image() -> (r: PreflightResponse)
    ensures
        no_content(r),
{
    PreflightResponse { status: 204, body: String::new() }
}

/// The preflight answer for the video-crop endpoint.
pub fn options_crop_video() -> (r: PreflightResponse)
    ensures
        no_content(r),
{
    PreflightResponse { status: 204, body: String::new() }
}

/// The preflight answer for the media-upload endpoint.
pub fn options_upload_media() -> (r: PreflightResponse)
    ensures
        no_content(r),
{
    PreflightResponse { status: 204, body: String::new() }
}

} // verus!
