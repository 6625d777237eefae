//! A character-level model of file paths: the final component of a path, its
//! stem and extension, and the renaming operations built from them.  Paths
//! are plain strings with `/` as separator; a path is only renamed when its
//! final component is an ordinary name (nonempty, not `.` or `..`), so the
//! model never has to reason about parent traversal.

use vstd::prelude::*;

verus! {

/// The characters of `s` that follow the last occurrence of `c`; all of `s`
/// if `c` does not occur.
pub open spec fn suffix_after_last(s: Seq<char>, c: char) -> Seq<char>
    decreases s.len(),
{
    if s.len() == 0 {
        Seq::empty()
    } else if s.last() == c {
        Seq::empty()
    } else {
        suffix_after_last(s.drop_last(), c).push(s.last())
    }
}

/// The final component of a path: everything after the last `/`.
pub open spec fn raw_file_name(s: Seq<char>) -> Seq<char> {
    suffix_after_last(s, '/')
}

/// The leading part of a path up to and including the last `/`.
pub open spec fn dir_prefix(s: Seq<char>) -> Seq<char> {
    s.take(s.len() - raw_file_name(s).len())
}

/// An ordinary file name: nonempty, no separator, and not one of the two
/// relative components.
pub open spec fn is_plain_component(n: Seq<char>) -> bool {
    &&& n.len() > 0
    &&& !n.contains('/')
    &&& n != seq!['.']
    &&& n != seq!['.', '.']
}

/// Whether the final component of `s` is an ordinary file name.
pub open spec fn has_plain_file_name(s: Seq<char>) -> bool {
    is_plain_component(raw_file_name(s))
}

/// The extension of a file name: the characters after the last dot, unless
/// there is no dot or the only dot starts a hidden-file name.
pub open spec fn ext_of(name: Seq<char>) -> Option<Seq<char>> {
    if !name.contains('.') {
        None
    } else if name.len() - suffix_after_last(name, '.').len() - 1 == 0 {
        None
    } else {
        Some(suffix_after_last(name, '.'))
    }
}

/// The stem of a file name: everything before the extension, or the whole
/// name when there is none.
pub open spec fn stem_of(name: Seq<char>) -> Seq<char> {
    match ext_of(name) {
        None => name,
        Some(e) => name.take(name.len() - e.len() - 1),
    }
}

/// Replacing the final component of `path` by `name` while keeping `path`'s
/// extension: the extension of `name` itself is overwritten by `path`'s, as
/// replacing an extension always does.
pub open spec fn change_file_name_spec(path: Seq<char>, name: Seq<char>) -> Seq<char> {
    match ext_of(raw_file_name(path)) {
        None => dir_prefix(path) + name,
        Some(e) => dir_prefix(path) + stem_of(name) + seq!['.'] + e,
    }
}

/// Appending `text` to the stem of the final component of `path`.
pub open spec fn append_to_file_name_spec(path: Seq<char>, text: Seq<char>) -> Seq<char> {
    change_file_name_spec(path, stem_of(raw_file_name(path)) + text)
}

/// The storage-side name of a local file: its final component, with the
/// local `cropped-` marker stripped when the name carries it; an unmarked
/// name passes through unchanged.
pub open spec fn storage_name_spec(path: Seq<char>) -> Seq<char> {
    let n = raw_file_name(path);
    if n.len() >= 8 && n.subrange(0, 8) == "cropped-"@ {
        n.skip(8)
    } else {
        n
    }
}

/// `suffix_after_last` is the suffix that starts right after the last
/// occurrence of `c`, characterized by a split position.
pub proof fn lemma_suffix_after_skip(s: Seq<char>, c: char, i: int)
    requires
        0 <= i <= s.len(),
        forall|j: int| i <= j < s.len() ==> s[j] != c,
        i > 0 ==> s[i - 1] == c,
    ensures
        suffix_after_last(s, c) == s.skip(i),
    decreases s.len(),
{
    if s.len() == i {
        if i == 0 {
            assert(suffix_after_last(s, c) =~= s.skip(i));
        } else {
            assert(s.last() == c);
            assert(suffix_after_last(s, c) =~= s.skip(i));
        }
    } else {
        assert(s.last() != c);
        lemma_suffix_after_skip(s.drop_last(), c, i);
        assert(suffix_after_last(s, c) =~= s.skip(i));
    }
}

/// The suffix after the last occurrence of `c` never contains `c`.
pub proof fn lemma_suffix_no_char(s: Seq<char>, c: char)
    ensures
        !suffix_after_last(s, c).contains(c),
    decreases s.len(),
{
    if s.len() == 0 {
    } else if s.last() == c {
    } else {
        lemma_suffix_no_char(s.drop_last(), c);
        let t = suffix_after_last(s.drop_last(), c);
        assert forall|j: int| 0 <= j < t.push(s.last()).len() implies t.push(s.last())[j]
            != c by {
            if j < t.len() {
                assert(t[j] != c);
            }
        }
    }
}

/// When `c` occurs in `s`, the suffix after its last occurrence is shorter
/// than `s` itself.
pub proof fn lemma_suffix_shorter(s: Seq<char>, c: char)
    requires
        s.contains(c),
    ensures
        suffix_after_last(s, c).len() < s.len(),
    decreases s.len(),
{
    if s.last() == c {
    } else {
        let i = choose|i: int| 0 <= i < s.len() && s[i] == c;
        assert(s.drop_last()[i] == c);
        assert(s.drop_last().contains(c));
        lemma_suffix_shorter(s.drop_last(), c);
    }
}

/// Gluing a name onto a directory prefix leaves the name as the final
/// component.
pub proof fn lemma_raw_file_name_concat(prefix: Seq<char>, name: Seq<char>)
    requires
        prefix.len() > 0,
        prefix.last() == '/',
        !name.contains('/'),
    ensures
        raw_file_name(prefix + name) == name,
{
    let s = prefix + name;
    assert forall|j: int| prefix.len() <= j < s.len() implies s[j] != '/' by {
        if s[j] == '/' {
            assert(name[j - prefix.len()] == '/');
            assert(name.contains('/'));
        }
    }
    assert(s[prefix.len() - 1] == '/');
    lemma_suffix_after_skip(s, '/', prefix.len() as int);
    assert(s.skip(prefix.len() as int) =~= name);
}

/// Index of the last occurrence of `c` in `s`, if any.
pub fn last_index_of_char(s: &str, c: char) -> (r: Option<usize>)
    ensures
        s@.len() <= usize::MAX,
        match r {
            Some(i) => {
                &&& i < s@.len()
                &&& s@[i as int] == c
                &&& forall|j: int| i < j < s@.len() ==> s@[j] != c
            },
            None => forall|j: int| 0 <= j < s@.len() ==> s@[j] != c,
        },
{
    let n = s.unicode_len();
    let mut k = n;
    while k > 0
        invariant
            k <= n,
            n == s@.len(),
            forall|j: int| k <= j < s@.len() ==> s@[j] != c,
        decreases k,
    {
        k = k - 1;
        if s.get_char(k) == c {
            return Some(k);
        }
    }
    None
}

/// Index at which the final component of `s` starts.
pub fn file_name_start(s: &str) -> (r: usize)
    ensures
        r <= s@.len(),
        raw_file_name(s@) == s@.skip(r as int),
        r > 0 ==> s@[r as int - 1] == '/',
        forall|j: int| r <= j < s@.len() ==> s@[j] != '/',
{
    match last_index_of_char(s, '/') {
        Some(i) => {
            proof {
                lemma_suffix_after_skip(s@, '/', i as int + 1);
            }
            i + 1
        },
        None => {
            proof {
                lemma_suffix_after_skip(s@, '/', 0);
            }
            0
        },
    }
}

/// Whether the final component of `s` is an ordinary file name.
pub fn check_plain_file_name(s: &str) -> (r: bool)
    ensures
        r == has_plain_file_name(s@),
{
    let n = s.unicode_len();
    let start = file_name_start(s);
    proof {
        lemma_suffix_no_char(s@, '/');
    }
    if start == n {
        return false;
    }
    let len = n - start;
    if len == 1 && s.get_char(start) == '.' {
        proof {
            assert(raw_file_name(s@) =~= seq!['.']);
        }
        return false;
    }
    if len == 2 && s.get_char(start) == '.' && s.get_char(start + 1) == '.' {
        proof {
            assert(raw_file_name(s@) =~= seq!['.', '.']);
        }
        return false;
    }
    proof {
        let raw = raw_file_name(s@);
        assert(raw.len() > 0);
        if raw == seq!['.'] {
            assert(s@[start as int] == raw[0]);
        }
        if raw == seq!['.', '.'] {
            assert(s@[start as int] == raw[0]);
        }
    }
    true
}

/// Start and length of the extension inside the final component of `s`,
/// where the component occupies `s[start..]`.
fn ext_split(s: &str, start: usize) -> (r: Option<usize>)
    requires
        start <= s@.len(),
        raw_file_name(s@) == s@.skip(start as int),
    ensures
        match r {
            Some(d) => {
                &&& start < d < s@.len()
                &&& s@[d as int] == '.'
                &&& ext_of(raw_file_name(s@)) == Some(s@.skip(d as int + 1))
                &&& stem_of(raw_file_name(s@)) == s@.subrange(start as int, d as int)
            },
            None => ext_of(raw_file_name(s@)) is None,
        },
{
    let ghost name = raw_file_name(s@);
    match last_index_of_char(s, '.') {
        Some(i) => {
            if i > start {
                proof {
                    lemma_suffix_after_skip(name, '.', i - start as int + 1);
                    assert(name[i - start as int] == '.');
                    assert(name.contains('.'));
                    assert(suffix_after_last(name, '.') =~= s@.skip(i as int + 1));
                    assert(name.len() - suffix_after_last(name, '.').len() - 1 == i - start);
                    assert(name.take(i - start as int) =~= s@.subrange(
                        start as int,
                        i as int,
                    ));
                }
                Some(i)
            } else {
                proof {
                    if i < start {
                        assert forall|j: int| 0 <= j < name.len() implies name[j] != '.' by {
                            assert(s@[start + j] != '.');
                        }
                        assert(!name.contains('.'));
                    } else {
                        lemma_suffix_after_skip(name, '.', 1);
                        assert forall|j: int| 1 <= j < name.len() implies name[j] != '.' by {
                            assert(s@[start + j] != '.');
                        }
                        assert(name.len() - suffix_after_last(name, '.').len() - 1 == 0);
                    }
                }
                None
            }
        },
        None => {
            proof {
                if name.contains('.') {
                    let j = name.index_of('.');
                    assert(s@[start + j] == '.');
                }
            }
            None
        },
    }
}

/// The extension of the final component of `path`, if it has one.
pub fn path_extension(path: &str) -> (r: Option<String>)
    ensures
        match r {
            Some(e) => ext_of(raw_file_name(path@)) == Some(e@),
            None => ext_of(raw_file_name(path@)) is None,
        },
{
    let n = path.unicode_len();
    let start = file_name_start(path);
    match ext_split(path, start) {
        Some(d) => {
            let e = String::from_str(path.substring_char(d + 1, n));
            proof {
                assert(path@.subrange(d as int + 1, n as int) =~= path@.skip(d as int + 1));
            }
            Some(e)
        },
        None => None,
    }
}

/// The final component of `path` without its extension.
///
/// Mirrors taking the file stem of a path whose final component is an
/// ordinary name; the stem of `a/b.c` is `b`, of `a/b` is `b`, and of a
/// hidden file `a/.b` is `.b`.
pub fn get_file_name(path: &str) -> (r: String)
    requires
        has_plain_file_name(path@),
    ensures
        r@ == stem_of(raw_file_name(path@)),
{
    let n = path.unicode_len();
    let start = file_name_start(path);
    match ext_split(path, start) {
        Some(d) => String::from_str(path.substring_char(start, d)),
        None => {
            proof {
                assert(path@.subrange(start as int, n as int) =~= raw_file_name(path@));
            }
            String::from_str(path.substring_char(start, n))
        },
    }
}

/// Replaces the final component of `path` by `name`, keeping `path`'s
/// extension: `a/old.rs` renamed to `new` is `a/new.rs`.  An extension that
/// `name` itself carries is overwritten by `path`'s, as replacing an
/// extension always does.
pub fn change_file_name(path: &str, name: &str) -> (r: String)
    requires
        has_plain_file_name(path@),
        is_plain_component(name@),
    ensures
        r@ == change_file_name_spec(path@, name@),
{
    let n = path.unicode_len();
    let start = file_name_start(path);
    let mut r = String::from_str(path.substring_char(0, start));
    proof {
        assert(path@.subrange(0, start as int) =~= dir_prefix(path@));
    }
    match ext_split(path, start) {
        Some(d) => {
            let name_len = name.unicode_len();
            let name_start = file_name_start(name);
            proof {
                lemma_suffix_no_char(name@, '/');
                if name@.contains('/') {
                    let j = name@.index_of('/');
                    assert(name@[j] == '/');
                    assert(raw_file_name(name@)[j - name_start] == '/');
                }
                assert(name_start == 0);
                assert(name@.skip(0) =~= name@);
            }
            match ext_split(name, 0) {
                Some(nd) => {
                    r.append(name.substring_char(0, nd));
                },
                None => {
                    r.append(name);
                },
            }
            r.append(".");
            proof {
                reveal_strlit(".");
            }
            let ext = path.substring_char(d + 1, n);
            r.append(ext);
            proof {
                assert(path@.subrange(d as int + 1, n as int) =~= path@.skip(d as int + 1));
                assert(r@ =~= change_file_name_spec(path@, name@));
            }
            r
        },
        None => {
            r.append(name);
            proof {
                assert(r@ =~= change_file_name_spec(path@, name@));
            }
            r
        },
    }
}

/// Appends `text` to the stem of the final component of `path`:
/// `my/path/test.rs` with `123` becomes `my/path/test123.rs`.
pub fn append_to_file_name(path: &str, text: &str) -> (r: String)
    requires
        has_plain_file_name(path@),
        is_plain_component(stem_of(raw_file_name(path@)) + text@),
    ensures
        r@ == append_to_file_name_spec(path@, text@),
{
    let old_file_name = get_file_name(path);
    let mut new_file_name = old_file_name;
    new_file_name.append(text);
    change_file_name(path, new_file_name.as_str())
}

/// Whether the marker `cropped-` occupies `s[start..start+8]`.
fn marker_at(s: &str, start: usize) -> (r: bool)
    requires
        start <= s@.len(),
    ensures
        r == (s@.len() - start >= 8 && s@.subrange(start as int, start as int + 8)
            == "cropped-"@),
{
    proof {
        reveal_strlit("cropped-");
    }
    let n = s.unicode_len();
    let marker = "cropped-";
    if n - start < 8 {
        return false;
    }
    let mut t: usize = 0;
    while t < 8
        invariant
            t <= 8,
            start + 8 <= n,
            n == s@.len(),
            marker@ == "cropped-"@,
            marker@.len() == 8,
            forall|u: int| 0 <= u < t ==> s@[start + u] == marker@[u],
        decreases 8 - t,
    {
        if s.get_char(start + t) != marker.get_char(t) {
            proof {
                assert(s@.subrange(start as int, start as int + 8)[t as int] == s@[start + t]);
            }
            return false;
        }
        t = t + 1;
    }
    proof {
        assert(s@.subrange(start as int, start as int + 8) =~= marker@);
    }
    true
}

/// The storage-side name of a local artifact: the final component of the
/// path, with the local `cropped-` marker stripped when the name carries
/// it; an unmarked name passes through unchanged.
pub fn format_file_name_for_storage(file_name: &str) -> (r: String)
    requires
        has_plain_file_name(file_name@),
    ensures
        r@ == storage_name_spec(file_name@),
{
    let n = file_name.unicode_len();
    let start = file_name_start(file_name);
    proof {
        let name = raw_file_name(file_name@);
        assert(name.len() == n - start);
        assert forall|u: int| 0 <= u < name.len() implies name[u] == file_name@[start + u] by {}
    }
    if marker_at(file_name, start) {
        let r = String::from_str(file_name.substring_char(start + 8, n));
        proof {
            let name = raw_file_name(file_name@);
            assert(name.subrange(0, 8) =~= file_name@.subrange(start as int, start as int + 8));
            assert(name.skip(8) =~= file_name@.subrange(start as int + 8, n as int));
        }
        r
    } else {
        let r = String::from_str(file_name.substring_char(start, n));
        proof {
            let name = raw_file_name(file_name@);
            if name.len() >= 8 && name.subrange(0, 8) == "cropped-"@ {
                assert(name.subrange(0, 8) =~= file_name@.subrange(
                    start as int,
                    start as int + 8,
                ));
            }
            assert(file_name@.subrange(start as int, n as int) =~= name);
        }
        r
    }
}

} // verus!
