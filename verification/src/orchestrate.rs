//! The request orchestrator, as a state machine.  A crop request moves
//! strictly forward through authenticating, acquiring, cropping and
//! publishing; every external step reports back as an event, every error
//! moves straight to the terminal failed state, and the terminal states
//! answer with the uniform envelope.  The surrounding program performs the
//! actions; all decisions are made here.

use vstd::prelude::*;
use crate::ApiResponse;
use crate::CropDimensions;
use crate::CropParameters;
use crate::CropRequest;
use crate::UploadRequest;
use crate::classify::{image_exts, video_exts};
use crate::naming::{cropped_output_path, cropped_path_spec};
use crate::paths::{has_plain_file_name, raw_file_name};
use crate::responses::{failure_envelope, failure_response, success_envelope, success_response};
use crate::urlcheck::{has_media_link, is_image_url, is_video_url};

verus! {

/// Where a request currently stands.  `Done` and `Failed` are terminal.
#[derive(Clone, Copy, PartialEq, Eq, Structural, Debug)]
pub enum Stage {
    Authenticating,
    Acquiring,
    Cropping,
    Publishing,
    Done,
    Failed,
}

/// The state of one crop request: its stage, the kind it is handled as,
/// and the request it came from.
pub struct CropFlow {
    pub stage: Stage,
    pub is_image: bool,
    pub request: CropRequest,
}

/// What the surrounding program is asked to do next.  Exactly one action
/// comes out of every transition; `Respond` is the last one of a request.
pub enum CropAction {
    Authenticate,
    FetchFromStorage { storage_file_path: String },
    FetchFromUrl { url: String },
    RunImageCrop { parameters: CropParameters },
    RunVideoCrop { parameters: CropParameters },
    PublishArtifact { local_path: String, is_image: bool },
    Respond { response: ApiResponse<String> },
}

/// What an action came back with: each variant reports the outcome of the
/// like-named action, successful outcomes carrying the value produced.
pub enum CropEvent {
    Authenticated(Result<String, String>),
    Acquired(Result<String, String>),
    Cropped(Result<String, String>),
    Published(Result<String, String>),
}

/// The message a failed authentication is reported with.
pub open spec fn msg_auth_failed() -> Seq<char> {
    "Failed to authenticate the request."@
}

/// The message a failed acquisition is reported with.
pub open spec fn msg_media_url_error(is_image: bool) -> Seq<char> {
    if is_image {
        "There was an error with the image url."@
    } else {
        "There was an error with the video url."@
    }
}

/// The message a failed publication of a cropped artifact is reported with.
pub open spec fn msg_publish_error(is_image: bool) -> Seq<char> {
    if is_image {
        "There was an error while getting the cropped image URL."@
    } else {
        "There was an error while getting the cropped video URL."@
    }
}

/// The message a request without any media reference is rejected with.
pub open spec fn msg_both_empty() -> Seq<char> {
    "Bad request - both storage file path and URL fields are empty."@
}

/// The message a request with two media references is rejected with.
pub open spec fn msg_both_set() -> Seq<char> {
    "Bad request - both storage file path and URL fields are set."@
}

/// The message an upload of an unsupported URL is rejected with.
pub open spec fn msg_unsupported_url() -> Seq<char> {
    "The url contains an unsupported file type."@
}

/// The message a failed raw upload is reported with.
pub open spec fn msg_upload_error(is_image: bool) -> Seq<char> {
    if is_image {
        "There was an error while uploading the image to storage."@
    } else {
        "There was an error while uploading the video to storage."@
    }
}

/// A well-formed request names its media exactly once: by storage path or
/// by URL, never both, never neither.
pub open spec fn exactly_one_reference(r: CropRequest) -> bool {
    (r.storage_file_path is Some) <==> (r.url is None)
}

/// Which stage each event answers.
pub open spec fn event_fits(stage: Stage, event: CropEvent) -> bool {
    match event {
        CropEvent::Authenticated(_) => stage == Stage::Authenticating,
        CropEvent::Acquired(_) => stage == Stage::Acquiring,
        CropEvent::Cropped(_) => stage == Stage::Cropping,
        CropEvent::Published(_) => stage == Stage::Publishing,
    }
}

/// The crop parameters handed to a crop operation: the acquired file as
/// input, the marked scratch path as output, and the requested region.
pub open spec fn crop_params_for(p: CropParameters, local: Seq<char>, d: CropDimensions) -> bool {
    &&& p.input_file_path@ == local
    &&& p.output_file_path is Some
    &&& p.output_file_path->0@ == cropped_path_spec(raw_file_name(local))
    &&& p.dimensions == d
}

/// Starts a crop request.  A request that names its media exactly once
/// proceeds to authentication; one with both references or neither is
/// rejected as malformed before anything else is asked for.
pub fn start_crop(request: CropRequest, is_image: bool) -> (r: (CropFlow, CropAction))
    ensures
        r.0.is_image == is_image,
        r.0.request == request,
        exactly_one_reference(request) ==> r.0.stage == Stage::Authenticating && r.1
            is Authenticate,
        request.storage_file_path is Some && request.url is Some ==> r.0.stage == Stage::Failed
            && (r.1 matches CropAction::Respond { response } && failure_envelope(
            response,
            msg_both_set(),
        )),
        request.storage_file_path is None && request.url is None ==> r.0.stage == Stage::Failed
            && (r.1 matches CropAction::Respond { response } && failure_envelope(
            response,
            msg_both_empty(),
        )),
{
    if request.storage_file_path.is_some() && request.url.is_some() {
        let response = failure_response(
            String::from_str("Bad request - both storage file path and URL fields are set."),
        );
        (
            CropFlow { stage: Stage::Failed, is_image, request },
            CropAction::Respond { response },
        )
    } else if request.storage_file_path.is_none() && request.url.is_none() {
        let response = failure_response(
            String::from_str("Bad request - both storage file path and URL fields are empty."),
        );
        (
            CropFlow { stage: Stage::Failed, is_image, request },
            CropAction::Respond { response },
        )
    } else {
        (CropFlow { stage: Stage::Authenticating, is_image, request }, CropAction::Authenticate)
    }
}

/// One transition of a crop request: consumes the event answering the
/// current stage and yields the new state with the next action.  Every
/// error event is terminal with the corresponding message; the happy path
/// walks authentication, acquisition, cropping and publication in order
/// and ends answering with the published reference.
pub fn step_crop(flow: CropFlow, event: CropEvent) -> (r: (CropFlow, CropAction))
    requires
        event_fits(flow.stage, event),
        flow.stage == Stage::Authenticating || flow.stage == Stage::Acquiring
            ==> exactly_one_reference(flow.request),
        event matches CropEvent::Acquired(Ok(p)) ==> has_plain_file_name(p@),
    ensures
        r.0.is_image == flow.is_image,
        r.0.request == flow.request,
        (r.0.stage == Stage::Done || r.0.stage == Stage::Failed) <==> (r.1 matches CropAction::Respond { .. }),
        r.1 matches CropAction::Respond { response } ==> (response.success <==> r.0.stage
            == Stage::Done),
        event matches CropEvent::Authenticated(Err(_)) ==> r.0.stage == Stage::Failed
            && (r.1 matches CropAction::Respond { response } && failure_envelope(
            response,
            msg_auth_failed(),
        )),
        event matches CropEvent::Authenticated(Ok(_)) ==> r.0.stage == Stage::Acquiring && (
        flow.request.storage_file_path matches Some(sp)
            ==> (r.1 matches CropAction::FetchFromStorage { storage_file_path }
            && storage_file_path@ == sp@)) && (flow.request.storage_file_path is None ==> (
        flow.request.url matches Some(u) ==> (r.1 matches CropAction::FetchFromUrl { url }
            && url@ == u@))),
        event matches CropEvent::Acquired(Err(_)) ==> r.0.stage == Stage::Failed
            && (r.1 matches CropAction::Respond { response } && failure_envelope(
            response,
            msg_media_url_error(flow.is_image),
        )),
        event matches CropEvent::Acquired(Ok(p)) ==> r.0.stage == Stage::Cropping && (
        flow.is_image ==> (r.1 matches CropAction::RunImageCrop { parameters } && crop_params_for(
            parameters,
            p@,
            flow.request.dimensions,
        ))) && (!flow.is_image ==> (r.1 matches CropAction::RunVideoCrop { parameters }
            && crop_params_for(parameters, p@, flow.request.dimensions))),
        event matches CropEvent::Cropped(Err(e)) ==> r.0.stage == Stage::Failed
            && (r.1 matches CropAction::Respond { response } && failure_envelope(response, e@)),
        event matches CropEvent::Cropped(Ok(out)) ==> r.0.stage == Stage::Publishing
            && (r.1 matches CropAction::PublishArtifact { local_path, is_image } && local_path@
            == out@ && is_image == flow.is_image),
        event matches CropEvent::Published(Err(_)) ==> r.0.stage == Stage::Failed
            && (r.1 matches CropAction::Respond { response } && failure_envelope(
            response,
            msg_publish_error(flow.is_image),
        )),
        event matches CropEvent::Published(Ok(url)) ==> r.0.stage == Stage::Done
            && (r.1 matches CropAction::Respond { response } && success_envelope(response, url@)),
{
    let CropFlow { stage: _, is_image, request } = flow;
    match event {
        CropEvent::Authenticated(result) => match result {
            Err(_) => {
                let response = failure_response(
                    String::from_str("Failed to authenticate the request."),
                );
                (
                    CropFlow { stage: Stage::Failed, is_image, request },
                    CropAction::Respond { response },
                )
            },
            Ok(_) => {
                let action = match &request.storage_file_path {
                    Some(sp) => CropAction::FetchFromStorage { storage_file_path: sp.clone() },
                    None => match &request.url {
                        Some(u) => CropAction::FetchFromUrl { url: u.clone() },
                        None => unreached(),
                    },
                };
                (CropFlow { stage: Stage::Acquiring, is_image, request }, action)
            },
        },
        CropEvent::Acquired(result) => match result {
            Err(_) => {
                let response = failure_response(
                    if is_image {
                        String::from_str("There was an error with the image url.")
                    } else {
                        String::from_str("There was an error with the video url.")
                    },
                );
                (
                    CropFlow { stage: Stage::Failed, is_image, request },
                    CropAction::Respond { response },
                )
            },
            Ok(p) => {
                let output = cropped_output_path(p.as_str());
                let parameters = CropParameters {
                    input_file_path: p,
                    output_file_path: Some(output),
                    dimensions: request.dimensions,
                };
                let action = if is_image {
                    CropAction::RunImageCrop { parameters }
                } else {
                    CropAction::RunVideoCrop { parameters }
                };
                (CropFlow { stage: Stage::Cropping, is_image, request }, action)
            },
        },
        CropEvent::Cropped(result) => match result {
            Err(e) => {
                let response = failure_response(e);
                (
                    CropFlow { stage: Stage::Failed, is_image, request },
                    CropAction::Respond { response },
                )
            },
            Ok(out) => (
                CropFlow { stage: Stage::Publishing, is_image, request },
                CropAction::PublishArtifact { local_path: out, is_image },
            ),
        },
        CropEvent::Published(result) => match result {
            Err(_) => {
                let response = failure_response(
                    if is_image {
                        String::from_str("There was an error while getting the cropped image URL.")
                    } else {
                        String::from_str("There was an error while getting the cropped video URL.")
                    },
                );
                (
                    CropFlow { stage: Stage::Failed, is_image, request },
                    CropAction::Respond { response },
                )
            },
            Ok(url) => {
                let response = success_response(url);
                (
                    CropFlow { stage: Stage::Done, is_image, request },
                    CropAction::Respond { response },
                )
            },
        },
    }
}

/// The state of one raw-upload request: its stage, the kind its URL was
/// recognized as, and the URL itself.
pub struct UploadFlow {
    pub stage: Stage,
    pub is_image: bool,
    pub url: String,
}

/// Which stage each event answers in an upload; nothing is cropped.
pub open spec fn upload_event_fits(stage: Stage, event: CropEvent) -> bool {
    match event {
        CropEvent::Authenticated(_) => stage == Stage::Authenticating,
        CropEvent::Acquired(_) => stage == Stage::Acquiring,
        CropEvent::Cropped(_) => false,
        CropEvent::Published(_) => stage == Stage::Publishing,
    }
}

/// Starts a raw-upload request; the first step is always authentication,
/// the URL is judged afterwards.
pub fn start_upload(request: UploadRequest) -> (r: (UploadFlow, CropAction))
    ensures
        r.0.stage == Stage::Authenticating,
        r.0.url@ == request.url@,
        r.1 is Authenticate,
{
    (
        UploadFlow { stage: Stage::Authenticating, is_image: false, url: request.url },
        CropAction::Authenticate,
    )
}

/// One transition of a raw-upload request: after authentication the URL
/// must name a supported media file, which is then fetched and published
/// unchanged; every error is terminal with the corresponding message.
pub fn step_upload(flow: UploadFlow, event: CropEvent) -> (r: (UploadFlow, CropAction))
    requires
        upload_event_fits(flow.stage, event),
        event matches CropEvent::Acquired(Ok(p)) ==> has_plain_file_name(p@),
    ensures
        r.0.url@ == flow.url@,
        (r.0.stage == Stage::Done || r.0.stage == Stage::Failed) <==> (r.1 matches CropAction::Respond { .. }),
        r.1 matches CropAction::Respond { response } ==> (response.success <==> r.0.stage
            == Stage::Done),
        event matches CropEvent::Authenticated(Err(_)) ==> r.0.stage == Stage::Failed
            && (r.1 matches CropAction::Respond { response } && failure_envelope(
            response,
            msg_auth_failed(),
        )),
        event matches CropEvent::Authenticated(Ok(_)) && !has_media_link(flow.url@, image_exts())
            && !has_media_link(flow.url@, video_exts()) ==> r.0.stage == Stage::Failed
            && (r.1 matches CropAction::Respond { response } && failure_envelope(
            response,
            msg_unsupported_url(),
        )),
        event matches CropEvent::Authenticated(Ok(_)) && (has_media_link(flow.url@, image_exts())
            || has_media_link(flow.url@, video_exts())) ==> r.0.stage == Stage::Acquiring
            && (r.1 matches CropAction::FetchFromUrl { url } && url@ == flow.url@) && r.0.is_image
            == has_media_link(flow.url@, image_exts()),
        event matches CropEvent::Acquired(Err(_)) ==> r.0.stage == Stage::Failed
            && (r.1 matches CropAction::Respond { response } && failure_envelope(
            response,
            msg_media_url_error(flow.is_image),
        )),
        event matches CropEvent::Acquired(Ok(p)) ==> r.0.stage == Stage::Publishing
            && (r.1 matches CropAction::PublishArtifact { local_path, is_image } && local_path@
            == p@ && is_image == flow.is_image) && r.0.is_image == flow.is_image,
        event matches CropEvent::Published(Err(_)) ==> r.0.stage == Stage::Failed
            && (r.1 matches CropAction::Respond { response } && failure_envelope(
            response,
            msg_upload_error(flow.is_image),
        )),
        event matches CropEvent::Published(Ok(name)) ==> r.0.stage == Stage::Done
            && (r.1 matches CropAction::Respond { response } && success_envelope(response, name@)),
{
    let UploadFlow { stage: _, is_image, url } = flow;
    match event {
        CropEvent::Authenticated(result) => match result {
            Err(_) => {
                let response = failure_response(
                    String::from_str("Failed to authenticate the request."),
                );
                (
                    UploadFlow { stage: Stage::Failed, is_image, url },
                    CropAction::Respond { response },
                )
            },
            Ok(_) => {
                let img = is_image_url(url.as_str());
                let vid = is_video_url(url.as_str());
                if !img && !vid {
                    let response = failure_response(
                        String::from_str("The url contains an unsupported file type."),
                    );
                    (
                        UploadFlow { stage: Stage::Failed, is_image, url },
                        CropAction::Respond { response },
                    )
                } else {
                    let action = CropAction::FetchFromUrl { url: url.clone() };
                    (UploadFlow { stage: Stage::Acquiring, is_image: img, url }, action)
                }
            },
        },
        CropEvent::Acquired(result) => match result {
            Err(_) => {
                let response = failure_response(
                    if is_image {
                        String::from_str("There was an error with the image url.")
                    } else {
                        String::from_str("There was an error with the video url.")
                    },
                );
                (
                    UploadFlow { stage: Stage::Failed, is_image, url },
                    CropAction::Respond { response },
                )
            },
            Ok(p) => (
                UploadFlow { stage: Stage::Publishing, is_image, url },
                CropAction::PublishArtifact { local_path: p, is_image },
            ),
        },
        CropEvent::Cropped(_) => unreached(),
        CropEvent::Published(result) => match result {
            Err(_) => {
                let response = failure_response(
                    if is_image {
                        String::from_str(
                            "There was an error while uploading the image to storage.",
                        )
                    } else {
                        String::from_str(
                            "There was an error while uploading the video to storage.",
                        )
                    },
                );
                (
                    UploadFlow { stage: Stage::Failed, is_image, url },
                    CropAction::Respond { response },
                )
            },
            Ok(name) => {
                let response = success_response(name);
                (
                    UploadFlow { stage: Stage::Done, is_image, url },
                    CropAction::Respond { response },
                )
            },
        },
    }
}

} // verus!
