//! Classification of media by file extension.  A fixed, case-insensitive
//! allow-list decides whether a path names an image or a video; everything
//! else is unsupported and rejected upstream.

use vstd::prelude::*;
use crate::chars::{lower_seq, chars_eq_ignore_case};
use crate::paths::{ext_of, raw_file_name, path_extension};

verus! {

/// The two kinds of media the pipeline can crop.
#[derive(Clone, Copy, PartialEq, Eq, Structural, Debug)]
pub enum MediaKind {
    Image,
    Video,
}

/// The image extensions the pipeline accepts, lower-cased.
pub open spec fn image_exts() -> Seq<Seq<char>> {
    seq![
        seq!['p', 'n', 'g'],
        seq!['j', 'p', 'g'],
        seq!['j', 'p', 'e', 'g'],
        seq!['g', 'i', 'f'],
        seq!['b', 'm', 'p'],
        seq!['w', 'e', 'b', 'p'],
        seq!['t', 'i', 'f', 'f'],
        seq!['s', 'v', 'g'],
    ]
}

/// The video extensions the pipeline accepts, lower-cased.
pub open spec fn video_exts() -> Seq<Seq<char>> {
    seq![
        seq!['m', 'p', '4'],
        seq!['m', 'k', 'v'],
        seq!['f', 'l', 'v'],
        seq!['a', 'v', 'i'],
        seq!['m', 'o', 'v'],
        seq!['w', 'm', 'v'],
        seq!['w', 'e', 'b', 'm'],
    ]
}

/// Whether `e` is an accepted image extension, up to ASCII case.
pub open spec fn is_image_ext(e: Seq<char>) -> bool {
    image_exts().contains(lower_seq(e))
}

/// Whether `e` is an accepted video extension, up to ASCII case.
pub open spec fn is_video_ext(e: Seq<char>) -> bool {
    video_exts().contains(lower_seq(e))
}

/// What the extension of `path`'s final component says the file is.
pub open spec fn classify_spec(path: Seq<char>) -> Option<MediaKind> {
    match ext_of(raw_file_name(path)) {
        None => None,
        Some(e) => if is_image_ext(e) {
            Some(MediaKind::Image)
        } else if is_video_ext(e) {
            Some(MediaKind::Video)
        } else {
            None
        },
    }
}

/// Whether two strings are equal up to ASCII case.
pub fn eq_ignore_ascii_case(a: &str, b: &str) -> (r: bool)
    ensures
        r == (lower_seq(a@) == lower_seq(b@)),
{
    let na = a.unicode_len();
    let nb = b.unicode_len();
    if na != nb {
        proof {
            assert(lower_seq(a@).len() == a@.len());
            assert(lower_seq(b@).len() == b@.len());
        }
        return false;
    }
    let mut i: usize = 0;
    while i < na
        invariant
            i <= na,
            na == a@.len(),
            na == b@.len(),
            forall|j: int|
                0 <= j < i ==> crate::chars::lower_char(a@[j]) == crate::chars::lower_char(b@[j]),
        decreases na - i,
    {
        if !chars_eq_ignore_case(a.get_char(i), b.get_char(i)) {
            proof {
                assert(lower_seq(a@)[i as int] != lower_seq(b@)[i as int]);
            }
            return false;
        }
        i = i + 1;
    }
    proof {
        assert(lower_seq(a@) =~= lower_seq(b@));
    }
    true
}

/// The classification of one extension string.
fn classify_ext(e: &str) -> (r: Option<MediaKind>)
    ensures
        r == Some(MediaKind::Image) <==> is_image_ext(e@),
        (r == Some(MediaKind::Video) <==> is_video_ext(e@) && !is_image_ext(e@)),
        (r is None <==> !is_image_ext(e@) && !is_video_ext(e@)),
{
    proof {
        reveal_strlit("png");
        reveal_strlit("jpg");
        reveal_strlit("jpeg");
        reveal_strlit("gif");
        reveal_strlit("bmp");
        reveal_strlit("webp");
        reveal_strlit("tiff");
        reveal_strlit("svg");
        reveal_strlit("mp4");
        reveal_strlit("mkv");
        reveal_strlit("flv");
        reveal_strlit("avi");
        reveal_strlit("mov");
        reveal_strlit("wmv");
        reveal_strlit("webm");
        assert(lower_seq("png"@) =~= image_exts()[0]);
        assert(lower_seq("jpg"@) =~= image_exts()[1]);
        assert(lower_seq("jpeg"@) =~= image_exts()[2]);
        assert(lower_seq("gif"@) =~= image_exts()[3]);
        assert(lower_seq("bmp"@) =~= image_exts()[4]);
        assert(lower_seq("webp"@) =~= image_exts()[5]);
        assert(lower_seq("tiff"@) =~= image_exts()[6]);
        assert(lower_seq("svg"@) =~= image_exts()[7]);
        assert(lower_seq("mp4"@) =~= video_exts()[0]);
        assert(lower_seq("mkv"@) =~= video_exts()[1]);
        assert(lower_seq("flv"@) =~= video_exts()[2]);
        assert(lower_seq("avi"@) =~= video_exts()[3]);
        assert(lower_seq("mov"@) =~= video_exts()[4]);
        assert(lower_seq("wmv"@) =~= video_exts()[5]);
        assert(lower_seq("webm"@) =~= video_exts()[6]);
    }
    if eq_ignore_ascii_case(e, "png") || eq_ignore_ascii_case(e, "jpg") || eq_ignore_ascii_case(
        e,
        "jpeg",
    ) || eq_ignore_ascii_case(e, "gif") || eq_ignore_ascii_case(e, "bmp") || eq_ignore_ascii_case(
        e,
        "webp",
    ) || eq_ignore_ascii_case(e, "tiff") || eq_ignore_ascii_case(e, "svg") {
        Some(MediaKind::Image)
    } else if eq_ignore_ascii_case(e, "mp4") || eq_ignore_ascii_case(e, "mkv")
        || eq_ignore_ascii_case(e, "flv") || eq_ignore_ascii_case(e, "avi")
        || eq_ignore_ascii_case(e, "mov") || eq_ignore_ascii_case(e, "wmv")
        || eq_ignore_ascii_case(e, "webm") {
        Some(MediaKind::Video)
    } else {
        None
    }
}

/// Classifies a path as image or video by the extension of its final
/// component; `None` when there is no extension or it is not on the
/// allow-list.  The comparison ignores ASCII case.
pub fn classify(path: &str) -> (r: Option<MediaKind>)
    ensures
        r == classify_spec(path@),
{
    match path_extension(path) {
        Some(e) => classify_ext(e.as_str()),
        None => None,
    }
}

/// Whether the path names an image file, by extension alone.
pub fn is_image_file(file_path: &str) -> (r: bool)
    ensures
        r == (classify_spec(file_path@) == Some(MediaKind::Image)),
{
    match classify(file_path) {
        Some(MediaKind::Image) => true,
        _ => false,
    }
}

/// Whether the path names a video file, by extension alone.
pub fn is_video_file(file_path: &str) -> (r: bool)
    ensures
        r == (classify_spec(file_path@) == Some(MediaKind::Video)),
{
    match classify(file_path) {
        Some(MediaKind::Video) => true,
        _ => false,
    }
}

} // verus!
