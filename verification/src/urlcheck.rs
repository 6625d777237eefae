//! Recognition of media URLs and content types.  A media link is an
//! `https://` host part followed somewhere by a dot and an allow-listed
//! extension; the extension of a URL is the first such dot in its final
//! path component.  The grammar is the library's own; the scanners here are
//! proved against it exactly.

use vstd::prelude::*;
use crate::classify::{image_exts, video_exts};
use crate::paths::{file_name_start, raw_file_name};

verus! {

/// All accepted media extensions, images first.
pub open spec fn all_exts() -> Seq<Seq<char>> {
    image_exts() + video_exts()
}

/// The extension lists selected by the two flags.
pub open spec fn selected_exts(include_image: bool, include_video: bool) -> Seq<Seq<char>> {
    if include_image && include_video {
        all_exts()
    } else if include_image {
        image_exts()
    } else if include_video {
        video_exts()
    } else {
        Seq::empty()
    }
}

/// Whether `https://` occurs at position `p` of `s`.
pub open spec fn https_at(s: Seq<char>, p: int) -> bool {
    0 <= p && p + 8 <= s.len() && s.subrange(p, p + 8) == "https://"@
}

/// Whether the word `w` occurs right after a dot at position `q` of `s`.
pub open spec fn ext_word_at(s: Seq<char>, q: int, w: Seq<char>) -> bool {
    0 <= q && q + 1 + w.len() <= s.len() && s[q] == '.' && s.subrange(q + 1, q + 1 + w.len()) == w
}

/// Whether some extension of the list occurs right after a dot at `q`.
pub open spec fn ext_at(s: Seq<char>, q: int, exts: Seq<Seq<char>>) -> bool {
    exists|i: int| 0 <= i < exts.len() && ext_word_at(s, q, #[trigger] exts[i])
}

/// A media link at `(p, q)`: an `https://` head at `p`, a dotted extension
/// at `q`, and a nonempty host part between them free of line breaks.
pub open spec fn media_link_at(s: Seq<char>, p: int, q: int, exts: Seq<Seq<char>>) -> bool {
    &&& https_at(s, p)
    &&& p + 9 <= q
    &&& ext_at(s, q, exts)
    &&& forall|k: int| p + 8 <= k < q ==> s[k] != '\n'
}

/// A media link starting at `p`, wherever its extension sits.
pub open spec fn link_from(s: Seq<char>, exts: Seq<Seq<char>>, p: int) -> bool {
    exists|q: int| media_link_at(s, p, q, exts)
}

/// Whether `s` holds a media link anywhere.
pub open spec fn has_media_link(s: Seq<char>, exts: Seq<Seq<char>>) -> bool {
    exists|p: int| #[trigger] link_from(s, exts, p)
}

/// Whether the word `w` occupies `s[at..at+|w|]`.
fn word_match_at(s: &str, at: usize, w: &str) -> (r: bool)
    requires
        at <= s@.len(),
    ensures
        r == (at + w@.len() <= s@.len() && s@.subrange(
            at as int,
            at as int + w@.len() as int,
        ) == w@),
{
    let n = s.unicode_len();
    let wn = w.unicode_len();
    if wn > n - at {
        return false;
    }
    let mut t: usize = 0;
    while t < wn
        invariant
            t <= wn,
            at + wn <= n,
            n == s@.len(),
            wn == w@.len(),
            forall|u: int| 0 <= u < t ==> s@[at + u] == w@[u],
        decreases wn - t,
    {
        if s.get_char(at + t) != w.get_char(t) {
            proof {
                assert(s@.subrange(at as int, at as int + wn as int)[t as int] == s@[at + t]);
            }
            return false;
        }
        t = t + 1;
    }
    proof {
        assert(s@.subrange(at as int, at as int + wn as int) =~= w@);
    }
    true
}

/// The dotted extension of the selected lists at position `q` of `s`, if
/// any.
fn media_ext_at(s: &str, q: usize, include_image: bool, include_video: bool) -> (r: Option<
    String,
>)
    requires
        q < s@.len(),
        s@.len() <= usize::MAX,
    ensures
        r matches Some(e) ==> ext_at(s@, q as int, selected_exts(include_image, include_video))
            && (exists|i: int|
            0 <= i < selected_exts(include_image, include_video).len() && ext_word_at(
                s@,
                q as int,
                #[trigger] selected_exts(include_image, include_video)[i],
            ) && e@ == seq!['.'] + selected_exts(include_image, include_video)[i]),
        r is None ==> !ext_at(s@, q as int, selected_exts(include_image, include_video)),
{
    let ghost sel = selected_exts(include_image, include_video);
    let ghost off: int = if include_image { 8 } else { 0 };
    proof {
        reveal_strlit("png");
        reveal_strlit("jpg");
        reveal_strlit("jpeg");
        reveal_strlit("gif");
        reveal_strlit("bmp");
        reveal_strlit("webp");
        reveal_strlit("tiff");
        reveal_strlit("svg");
        reveal_strlit("mp4");
        reveal_strlit("mkv");
        reveal_strlit("flv");
        reveal_strlit("avi");
        reveal_strlit("mov");
        reveal_strlit("wmv");
        reveal_strlit("webm");
        reveal_strlit(".png");
        reveal_strlit(".jpg");
        reveal_strlit(".jpeg");
        reveal_strlit(".gif");
        reveal_strlit(".bmp");
        reveal_strlit(".webp");
        reveal_strlit(".tiff");
        reveal_strlit(".svg");
        reveal_strlit(".mp4");
        reveal_strlit(".mkv");
        reveal_strlit(".flv");
        reveal_strlit(".avi");
        reveal_strlit(".mov");
        reveal_strlit(".wmv");
        reveal_strlit(".webm");
        assert("png"@ =~= image_exts()[0]);
        assert("jpg"@ =~= image_exts()[1]);
        assert("jpeg"@ =~= image_exts()[2]);
        assert("gif"@ =~= image_exts()[3]);
        assert("bmp"@ =~= image_exts()[4]);
        assert("webp"@ =~= image_exts()[5]);
        assert("tiff"@ =~= image_exts()[6]);
        assert("svg"@ =~= image_exts()[7]);
        assert("mp4"@ =~= video_exts()[0]);
        assert("mkv"@ =~= video_exts()[1]);
        assert("flv"@ =~= video_exts()[2]);
        assert("avi"@ =~= video_exts()[3]);
        assert("mov"@ =~= video_exts()[4]);
        assert("wmv"@ =~= video_exts()[5]);
        assert("webm"@ =~= video_exts()[6]);
        assert(".png"@ =~= seq!['.'] + image_exts()[0]);
        assert(".jpg"@ =~= seq!['.'] + image_exts()[1]);
        assert(".jpeg"@ =~= seq!['.'] + image_exts()[2]);
        assert(".gif"@ =~= seq!['.'] + image_exts()[3]);
        assert(".bmp"@ =~= seq!['.'] + image_exts()[4]);
        assert(".webp"@ =~= seq!['.'] + image_exts()[5]);
        assert(".tiff"@ =~= seq!['.'] + image_exts()[6]);
        assert(".svg"@ =~= seq!['.'] + image_exts()[7]);
        assert(".mp4"@ =~= seq!['.'] + video_exts()[0]);
        assert(".mkv"@ =~= seq!['.'] + video_exts()[1]);
        assert(".flv"@ =~= seq!['.'] + video_exts()[2]);
        assert(".avi"@ =~= seq!['.'] + video_exts()[3]);
        assert(".mov"@ =~= seq!['.'] + video_exts()[4]);
        assert(".wmv"@ =~= seq!['.'] + video_exts()[5]);
        assert(".webm"@ =~= seq!['.'] + video_exts()[6]);
        if include_image {
            assert forall|i: int| 0 <= i < 8 implies sel[i] == image_exts()[i] by {}
        }
        if include_video {
            let off: int = if include_image {
                8
            } else {
                0
            };
            assert forall|i: int| 0 <= i < 7 implies sel[off + i] == video_exts()[i] by {}
        }
    }
    if s.get_char(q) != '.' {
        return None;
    }
    if include_image {
        if word_match_at(s, q + 1, "png") {
            proof {
                assert(ext_word_at(s@, q as int, sel[0]));
            }
            return Some(String::from_str(".png"));
        }
        if word_match_at(s, q + 1, "jpg") {
            proof {
                assert(ext_word_at(s@, q as int, sel[1]));
            }
            return Some(String::from_str(".jpg"));
        }
        if word_match_at(s, q + 1, "jpeg") {
            proof {
                assert(ext_word_at(s@, q as int, sel[2]));
            }
            return Some(String::from_str(".jpeg"));
        }
        if word_match_at(s, q + 1, "gif") {
            proof {
                assert(ext_word_at(s@, q as int, sel[3]));
            }
            return Some(String::from_str(".gif"));
        }
        if word_match_at(s, q + 1, "bmp") {
            proof {
                assert(ext_word_at(s@, q as int, sel[4]));
            }
            return Some(String::from_str(".bmp"));
        }
        if word_match_at(s, q + 1, "webp") {
            proof {
                assert(ext_word_at(s@, q as int, sel[5]));
            }
            return Some(String::from_str(".webp"));
        }
        if word_match_at(s, q + 1, "tiff") {
            proof {
                assert(ext_word_at(s@, q as int, sel[6]));
            }
            return Some(String::from_str(".tiff"));
        }
        if word_match_at(s, q + 1, "svg") {
            proof {
                assert(ext_word_at(s@, q as int, sel[7]));
            }
            return Some(String::from_str(".svg"));
        }
    }
    if include_video {
        if word_match_at(s, q + 1, "mp4") {
            proof {
                assert(ext_word_at(s@, q as int, sel[off + 0]));
            }
            return Some(String::from_str(".mp4"));
        }
        if word_match_at(s, q + 1, "mkv") {
            proof {
                assert(ext_word_at(s@, q as int, sel[off + 1]));
            }
            return Some(String::from_str(".mkv"));
        }
        if word_match_at(s, q + 1, "flv") {
            proof {
                assert(ext_word_at(s@, q as int, sel[off + 2]));
            }
            return Some(String::from_str(".flv"));
        }
        if word_match_at(s, q + 1, "avi") {
            proof {
                assert(ext_word_at(s@, q as int, sel[off + 3]));
            }
            return Some(String::from_str(".avi"));
        }
        if word_match_at(s, q + 1, "mov") {
            proof {
                assert(ext_word_at(s@, q as int, sel[off + 4]));
            }
            return Some(String::from_str(".mov"));
        }
        if word_match_at(s, q + 1, "wmv") {
            proof {
                assert(ext_word_at(s@, q as int, sel[off + 5]));
            }
            return Some(String::from_str(".wmv"));
        }
        if word_match_at(s, q + 1, "webm") {
            proof {
                assert(ext_word_at(s@, q as int, sel[off + 6]));
            }
            return Some(String::from_str(".webm"));
        }
    }
    proof {
        assert forall|i: int| 0 <= i < sel.len() implies !ext_word_at(
            s@,
            q as int,
            #[trigger] sel[i],
        ) by {
            if include_image && i < 8 {
                assert(sel[i] == image_exts()[i]);
            } else if include_image && include_video {
                assert(sel[i] == video_exts()[i - 8]);
            } else if include_video {
                assert(sel[i] == video_exts()[i]);
            }
        }
    }
    None
}

/// Whether `s` holds an `https://` link to a file with one of the selected
/// extensions.
fn scan_media_link(url: &str, include_image: bool, include_video: bool) -> (r: bool)
    ensures
        r == has_media_link(url@, selected_exts(include_image, include_video)),
{
    let ghost exts = selected_exts(include_image, include_video);
    proof {
        reveal_strlit("https://");
    }
    let n = url.unicode_len();
    if n < 8 {
        proof {
            if has_media_link(url@, exts) {
                let p = choose|p: int| link_from(url@, exts, p);
                let q = choose|q: int| media_link_at(url@, p, q, exts);
            }
        }
        return false;
    }
    let mut p: usize = 0;
    while p <= n - 8
        invariant
            8 <= n,
            n == url@.len(),
            n <= usize::MAX,
            p <= n - 8 + 1,
            exts == selected_exts(include_image, include_video),
            forall|pp: int| 0 <= pp < p ==> !(#[trigger] link_from(url@, exts, pp)),
        decreases n - p,
    {
        proof {
            reveal_strlit("https://");
        }
        if word_match_at(url, p, "https://") {
            let ghost p0 = p as int;
            proof {
                assert(https_at(url@, p0));
            }
            let mut j = p + 8;
            while j < n
                invariant_except_break
                    p0 == p as int,
                    p + 8 <= j <= n,
                    n == url@.len(),
                    n <= usize::MAX,
                    https_at(url@, p0),
                    exts == selected_exts(include_image, include_video),
                    forall|k: int| p0 + 8 <= k < j ==> url@[k] != '\n',
                    forall|q: int| q < j ==> !media_link_at(url@, p0, q, exts),
                ensures
                    forall|q: int| !media_link_at(url@, p0, q, exts),
                decreases n - j,
            {
                let c = url.get_char(j);
                if c == '\n' {
                    proof {
                        assert forall|q: int| !media_link_at(url@, p0, q, exts) by {
                            if q >= j {
                                if media_link_at(url@, p0, q, exts) {
                                    if q == j {
                                        let i = choose|i: int|
                                            0 <= i < exts.len() && ext_word_at(
                                                url@,
                                                q,
                                                #[trigger] exts[i],
                                            );
                                        assert(url@[q] == '.');
                                    } else {
                                        assert(url@[j as int] == '\n');
                                    }
                                }
                            }
                        }
                    }
                    break;
                }
                if j >= p + 9 {
                    match media_ext_at(url, j, include_image, include_video) {
                        Some(_) => {
                            proof {
                                assert(media_link_at(url@, p0, j as int, exts));
                                assert(link_from(url@, exts, p0));
                            }
                            return true;
                        },
                        None => {
                            proof {
                                assert forall|q: int| q < j + 1 implies !media_link_at(
                                    url@,
                                    p0,
                                    q,
                                    exts,
                                ) by {
                                    if q == j {
                                        assert(!ext_at(url@, q, exts));
                                    }
                                }
                            }
                        },
                    }
                } else {
                    proof {
                        assert forall|q: int| q < j + 1 implies !media_link_at(
                            url@,
                            p0,
                            q,
                            exts,
                        ) by {
                            if q == j {
                                assert(q < p0 + 9);
                            }
                        }
                    }
                }
                j = j + 1;
            }
            proof {
                if link_from(url@, exts, p as int) {
                    let q = choose|q: int| media_link_at(url@, p as int, q, exts);
                }
            }
        } else {
            proof {
                if link_from(url@, exts, p as int) {
                    let q = choose|q: int| media_link_at(url@, p as int, q, exts);
                    assert(https_at(url@, p as int));
                }
            }
        }
        p = p + 1;
    }
    proof {
        if has_media_link(url@, exts) {
            let pp = choose|p: int| link_from(url@, exts, p);
            let qq = choose|q: int| media_link_at(url@, pp, q, exts);
            assert(pp + 8 <= n);
            assert(!link_from(url@, exts, pp));
        }
    }
    false
}

/// Whether the URL points to an image file with a supported extension.
pub fn is_image_url(url: &str) -> (r: bool)
    ensures
        r == has_media_link(url@, image_exts()),
{
    scan_media_link(url, true, false)
}

/// Whether the URL points to a video file with a supported extension.
pub fn is_video_url(url: &str) -> (r: bool)
    ensures
        r == has_media_link(url@, video_exts()),
{
    scan_media_link(url, false, true)
}

/// Whether a `Content-Type` header value names media: it starts with
/// `image` or `video`.
pub open spec fn media_content_type(s: Seq<char>) -> bool {
    s.len() >= 5 && (s.subrange(0, 5) == "image"@ || s.subrange(0, 5) == "video"@)
}

/// Whether a `Content-Type` header value names an image or a video.
pub fn has_valid_content_type(content_type: &str) -> (r: bool)
    ensures
        r == media_content_type(content_type@),
{
    proof {
        reveal_strlit("image");
        reveal_strlit("video");
    }
    word_match_at(content_type, 0, "image") || word_match_at(content_type, 0, "video")
}

/// The first dotted media extension inside the final component of the URL,
/// with its dot: `https://host/clip.mp4?a=b` yields `.mp4`.
pub fn get_extension(url: &str) -> (r: Option<String>)
    ensures
        (r is Some <==> exists|q: int| 1 <= q && ext_at(raw_file_name(url@), q, all_exts())),
        r matches Some(e) ==> exists|q: int|
            1 <= q && #[trigger] ext_at(raw_file_name(url@), q, all_exts()) && (forall|q2: int|
                1 <= q2 < q ==> !ext_at(raw_file_name(url@), q2, all_exts())) && (exists|i: int|
                0 <= i < all_exts().len() && ext_word_at(raw_file_name(url@), q, all_exts()[i])
                    && e@ == seq!['.'] + all_exts()[i]),
{
    let n = url.unicode_len();
    let start = file_name_start(url);
    let name = url.substring_char(start, n);
    proof {
        assert(url@.subrange(start as int, n as int) =~= raw_file_name(url@));
    }
    let m = name.unicode_len();
    let mut q: usize = 1;
    while q < m
        invariant
            1 <= q,
            m == name@.len(),
            m <= usize::MAX,
            name@ == raw_file_name(url@),
            forall|q2: int| 1 <= q2 < q ==> !ext_at(name@, q2, all_exts()),
        decreases m - q,
    {
        match media_ext_at(name, q, true, true) {
            Some(e) => {
                return Some(e);
            },
            None => {},
        }
        q = q + 1;
    }
    proof {
        assert forall|q2: int| 1 <= q2 implies !ext_at(name@, q2, all_exts()) by {
            if q2 >= m {
                if ext_at(name@, q2, all_exts()) {
                    let i = choose|i: int|
                        0 <= i < all_exts().len() && ext_word_at(name@, q2, #[trigger] all_exts()[i]);
                    assert(q2 + 1 + all_exts()[i].len() <= m);
                }
            }
        }
    }
    None
}

} // verus!
