//! Names and URLs used against the storage service: where a storage object
//! is downloaded from, where an acquired file is kept locally, and what an
//! uploaded artifact is called.  The HTTP traffic itself happens outside the
//! library; these functions pin down every string that traffic carries.

use vstd::prelude::*;
use crate::media_io::{url_encode, url_encoded};
use crate::paths::{
    file_name_start, format_file_name_for_storage, has_plain_file_name, is_plain_component,
    lemma_raw_file_name_concat, raw_file_name, storage_name_spec,
};

verus! {

/// The URL a storage object is fetched from: the bucket's download endpoint
/// followed by the percent-encoded object path.
pub open spec fn download_request_url_spec(storage_file_path: Seq<char>) -> Seq<char> {
    "https://storage.googleapis.com/download/storage/v1/b/drag-n-crop.appspot.com/o/"@
        + url_encoded(storage_file_path)
}

/// The scratch path an acquired storage object is written to: its file name
/// under the scratch directory.
pub open spec fn local_download_path_spec(storage_file_path: Seq<char>) -> Seq<char> {
    "./tmp/"@ + raw_file_name(storage_file_path)
}

/// The object name a published artifact is stored under: a per-kind folder,
/// then the local file name with the scratch marker stripped.
pub open spec fn storage_object_name_spec(file_path: Seq<char>, is_image: bool) -> Seq<char> {
    (if is_image {
        "cropped/images/"@
    } else {
        "cropped/videos/"@
    }) + storage_name_spec(file_path)
}

/// The URL a storage object is fetched from.
pub fn download_request_url(storage_file_path: &str) -> (r: String)
    ensures
        r@ == download_request_url_spec(storage_file_path@),
{
    let mut r = String::from_str(
        "https://storage.googleapis.com/download/storage/v1/b/drag-n-crop.appspot.com/o/",
    );
    let encoded = url_encode(storage_file_path);
    r.append(encoded.as_str());
    r
}

/// The scratch path an acquired storage object is written to.
pub fn local_download_path(storage_file_path: &str) -> (r: String)
    requires
        has_plain_file_name(storage_file_path@),
    ensures
        r@ == local_download_path_spec(storage_file_path@),
        has_plain_file_name(r@),
{
    let n = storage_file_path.unicode_len();
    let start = file_name_start(storage_file_path);
    let mut r = String::from_str("./tmp/");
    r.append(storage_file_path.substring_char(start, n));
    proof {
        let name = raw_file_name(storage_file_path@);
        assert(storage_file_path@.subrange(start as int, n as int) =~= name);
        reveal_strlit("./tmp/");
        lemma_raw_file_name_concat("./tmp/"@, name);
    }
    r
}

/// The object name a published artifact is stored under.
pub fn storage_object_name(file_path: &str, is_image: bool) -> (r: String)
    requires
        has_plain_file_name(file_path@),
    ensures
        r@ == storage_object_name_spec(file_path@, is_image),
{
    let mut r = if is_image {
        String::from_str("cropped/images/")
    } else {
        String::from_str("cropped/videos/")
    };
    let name = format_file_name_for_storage(file_path);
    r.append(name.as_str());
    r
}

/// The URL uploads are posted to.
pub fn upload_request_url() -> (r: &'static str)
    ensures
        r@ == "https://storage.googleapis.com/upload/storage/v1/b/drag-n-crop.appspot.com/o"@,
{
    "https://storage.googleapis.com/upload/storage/v1/b/drag-n-crop.appspot.com/o"
}

/// The content type an upload declares for each media kind.
pub fn content_type_for(is_image: bool) -> (r: &'static str)
    ensures
        is_image ==> r@ == "image/jpeg"@,
        !is_image ==> r@ == "video/mp4"@,
{
    if is_image {
        "image/jpeg"
    } else {
        "video/mp4"
    }
}

/// The scratch path a file fetched from a URL is written to: an opaque
/// token (chosen by the caller, unique per request) plus the URL's media
/// extension, under the scratch directory.
pub fn url_download_path(token: &str, extension: &str) -> (r: String)
    ensures
        r@ == "./tmp/"@ + token@ + extension@,
{
    let mut r = String::from_str("./tmp/");
    r.append(token);
    r.append(extension);
    r
}

} // verus!
