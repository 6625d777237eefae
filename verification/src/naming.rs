//! Derivation of output and storage names: numbered output paths that avoid
//! existing files, the scratch-directory names used for acquired media and
//! cropped artifacts, and the object names and URLs used against the storage
//! service.

use vstd::prelude::*;
use crate::chars::{
    dec_digits, lemma_dec_digits_chars, lemma_dec_digits_injective, u64_to_string,
};
use crate::media_io::path_exists;
use crate::paths::{
    append_to_file_name, append_to_file_name_spec, dir_prefix, ext_of, file_name_start,
    has_plain_file_name, is_plain_component, lemma_raw_file_name_concat, lemma_suffix_shorter,
    raw_file_name, stem_of, storage_name_spec,
};

verus! {

/// The numbered suffix appended to a stem when deriving an output name.
pub open spec fn output_suffix(k: nat) -> Seq<char> {
    seq!['-'] + dec_digits(k)
}

/// The k-th candidate output path for an input path: the input with `-k`
/// appended to its stem.
pub open spec fn output_candidate(path: Seq<char>, k: nat) -> Seq<char> {
    append_to_file_name_spec(path, output_suffix(k))
}

/// Whether the stem of the final component is free of dots.  Renaming keeps
/// only the part before the first of several extensions, so numbered output
/// candidates are distinct exactly for such stems.
pub open spec fn stem_is_simple(path: Seq<char>) -> bool {
    !stem_of(raw_file_name(path)).contains('.')
}

/// The invariant part of every output candidate before the number.
pub open spec fn cand_prefix(path: Seq<char>) -> Seq<char> {
    dir_prefix(path) + stem_of(raw_file_name(path)) + seq!['-']
}

/// The invariant part of every output candidate after the number.
pub open spec fn cand_suffix(path: Seq<char>) -> Seq<char> {
    match ext_of(raw_file_name(path)) {
        None => Seq::empty(),
        Some(e) => seq!['.'] + e,
    }
}

/// The suffix `-k` holds only a dash and digits.
proof fn lemma_output_suffix_chars(k: nat)
    ensures
        output_suffix(k).len() >= 2,
        output_suffix(k)[0] == '-',
        forall|i: int|
            1 <= i < output_suffix(k).len() ==> '0' <= #[trigger] output_suffix(k)[i]
                && output_suffix(k)[i] <= '9',
{
    lemma_dec_digits_chars(k);
    assert forall|i: int|
        1 <= i < output_suffix(k).len() implies '0' <= #[trigger] output_suffix(k)[i]
        && output_suffix(k)[i] <= '9' by {
        assert(output_suffix(k)[i] == dec_digits(k)[i - 1]);
    }
}

/// For a plain final component the stem is nonempty and free of separators.
proof fn lemma_stem_plain(path: Seq<char>)
    requires
        has_plain_file_name(path),
    ensures
        stem_of(raw_file_name(path)).len() > 0,
        !stem_of(raw_file_name(path)).contains('/'),
{
    let name = raw_file_name(path);
    let stem = stem_of(name);
    match ext_of(name) {
        None => {},
        Some(e) => {
            lemma_suffix_shorter(name, '.');
        },
    }
    assert forall|i: int| 0 <= i < stem.len() implies stem[i] != '/' by {
        assert(stem[i] == name[i]);
        if name[i] == '/' {
            assert(name.contains('/'));
        }
    }
    if stem.contains('/') {
        let i = choose|i: int| 0 <= i < stem.len() && stem[i] == '/';
    }
}

/// The name a numbered candidate renames the component to is plain.
proof fn lemma_candidate_name_plain(path: Seq<char>, k: nat)
    requires
        has_plain_file_name(path),
    ensures
        is_plain_component(stem_of(raw_file_name(path)) + output_suffix(k)),
{
    let stem = stem_of(raw_file_name(path));
    let name = stem + output_suffix(k);
    lemma_stem_plain(path);
    lemma_output_suffix_chars(k);
    assert(name.len() >= 3);
    assert forall|i: int| 0 <= i < name.len() implies name[i] != '/' by {
        if i < stem.len() {
            if name[i] == '/' {
                assert(stem.contains('/'));
            }
        } else {
            assert(name[i] == output_suffix(k)[i - stem.len()]);
        }
    }
    if name.contains('/') {
        let i = choose|i: int| 0 <= i < name.len() && name[i] == '/';
    }
    assert(name != seq!['.']);
    assert(name != seq!['.', '.']);
}

/// Every numbered candidate splits into a fixed prefix, the digits of `k`,
/// and a fixed suffix.
proof fn lemma_candidate_decomposition(path: Seq<char>, k: nat)
    requires
        has_plain_file_name(path),
        stem_is_simple(path),
    ensures
        output_candidate(path, k) == cand_prefix(path) + dec_digits(k) + cand_suffix(path),
{
    let stem = stem_of(raw_file_name(path));
    let name = stem + output_suffix(k);
    lemma_stem_plain(path);
    lemma_output_suffix_chars(k);
    assert forall|i: int| 0 <= i < name.len() implies name[i] != '.' by {
        if i < stem.len() {
            if name[i] == '.' {
                assert(stem.contains('.'));
            }
        } else {
            assert(name[i] == output_suffix(k)[i - stem.len()]);
        }
    }
    if name.contains('.') {
        let i = choose|i: int| 0 <= i < name.len() && name[i] == '.';
    }
    assert(ext_of(name) is None);
    assert(stem_of(name) == name);
    match ext_of(raw_file_name(path)) {
        None => {
            assert(output_candidate(path, k) =~= cand_prefix(path) + dec_digits(k) + cand_suffix(
                path,
            ));
        },
        Some(e) => {
            assert(output_candidate(path, k) =~= cand_prefix(path) + dec_digits(k) + cand_suffix(
                path,
            ));
        },
    }
}

/// Distinct numbers give distinct candidates.
pub proof fn lemma_candidate_injective(path: Seq<char>, j: nat, k: nat)
    requires
        has_plain_file_name(path),
        stem_is_simple(path),
        output_candidate(path, j) == output_candidate(path, k),
    ensures
        j == k,
{
    lemma_candidate_decomposition(path, j);
    lemma_candidate_decomposition(path, k);
    let p = cand_prefix(path);
    let s = cand_suffix(path);
    let dj = dec_digits(j);
    let dk = dec_digits(k);
    assert((p + dj + s).len() == (p + dk + s).len());
    assert(dj.len() == dk.len());
    assert forall|i: int| 0 <= i < dj.len() implies dj[i] == dk[i] by {
        assert((p + dj + s)[p.len() + i] == dj[i]);
        assert((p + dk + s)[p.len() + i] == dk[i]);
    }
    assert(dj =~= dk);
    lemma_dec_digits_injective(j, k);
}

/// The string `-k`.
fn numbered_suffix(k: u64) -> (r: String)
    ensures
        r@ == output_suffix(k as nat),
{
    let mut s = String::from_str("-");
    proof {
        reveal_strlit("-");
    }
    let digits = u64_to_string(k);
    s.append(digits.as_str());
    proof {
        assert(s@ =~= output_suffix(k as nat));
    }
    s
}

/// The k-th candidate output path: the input path with `-k` appended to its
/// stem.
pub fn output_candidate_path(input_path: &str, k: u64) -> (r: String)
    requires
        has_plain_file_name(input_path@),
    ensures
        r@ == output_candidate(input_path@, k as nat),
{
    let sfx = numbered_suffix(k);
    proof {
        lemma_candidate_name_plain(input_path@, k as nat);
    }
    append_to_file_name(input_path, sfx.as_str())
}

/// Whether some entry of `v` reads as the string `x`.
pub open spec fn in_views(v: Seq<String>, x: Seq<char>) -> bool {
    exists|i: int| 0 <= i < v.len() && v[i]@ == x
}

/// Whether every candidate before the k-th is among the given paths.
pub open spec fn all_earlier_taken(path: Seq<char>, existing: Seq<String>, k: nat) -> bool {
    forall|j: nat| 1 <= j < k ==> in_views(existing, #[trigger] output_candidate(path, j))
}

/// Index of the first entry of `pool` that reads as `needle`, if any.
fn index_of_string(pool: &Vec<String>, needle: &String) -> (r: Option<usize>)
    ensures
        match r {
            Some(i) => i < pool@.len() && pool@[i as int]@ == needle@,
            None => forall|m: int| 0 <= m < pool@.len() ==> pool@[m]@ != needle@,
        },
{
    let n = pool.len();
    let mut i: usize = 0;
    while i < n
        invariant
            i <= n,
            n == pool@.len(),
            forall|m: int| 0 <= m < i ==> pool@[m]@ != needle@,
        decreases n - i,
    {
        if pool[i].eq(needle) {
            return Some(i);
        }
        i = i + 1;
    }
    None
}

/// The first numbered output path not yet taken: candidates `-1`, `-2`, …
/// are tried in order against the given set of already-used paths, and the
/// first free one is returned.  The result never collides with a used path,
/// and against an empty set it is always the `-1` candidate.
#[verifier::rlimit(80)]
pub fn first_free_output_path(input_path: &str, existing: &Vec<String>) -> (r: String)
    requires
        has_plain_file_name(input_path@),
        stem_is_simple(input_path@),
        existing@.len() < usize::MAX,
    ensures
        forall|m: int| 0 <= m < existing@.len() ==> existing@[m]@ != r@,
        exists|k: nat|
            1 <= k && r@ == output_candidate(input_path@, k) && all_earlier_taken(
                input_path@,
                existing@,
                k,
            ),
        existing@.len() == 0 ==> r@ == output_candidate(input_path@, 1),
{
    let mut pool: Vec<String> = Vec::new();
    let n = existing.len();
    let mut i: usize = 0;
    while i < n
        invariant
            i <= n,
            n == existing@.len(),
            pool@.len() == i,
            forall|m: int| 0 <= m < i ==> pool@[m]@ == existing@[m]@,
        decreases n - i,
    {
        pool.push(existing[i].clone());
        i = i + 1;
    }
    proof {
        assert forall|mp: int| 0 <= mp < pool@.len() implies in_views(
            existing@,
            #[trigger] pool@[mp]@,
        ) by {
            assert(existing@[mp]@ == pool@[mp]@);
        }
        assert forall|m: int| 0 <= m < existing@.len() implies in_views(
            pool@,
            #[trigger] existing@[m]@,
        ) by {
            assert(pool@[m]@ == existing@[m]@);
        }
    }
    let mut k: u64 = 1;
    loop
        invariant
            has_plain_file_name(input_path@),
            stem_is_simple(input_path@),
            existing@.len() < usize::MAX,
            1 <= k,
            k as int == existing@.len() - pool@.len() + 1,
            pool@.len() <= existing@.len(),
            // every pool entry still reads as some entry of `existing`
            forall|mp: int| 0 <= mp < pool@.len() ==> in_views(existing@, #[trigger] pool@[mp]@),
            // every entry of `existing` is still in the pool or was consumed
            // by an earlier candidate
            forall|m: int|
                0 <= m < existing@.len() ==> in_views(pool@, #[trigger] existing@[m]@) || (exists|
                    j: nat,
                |
                    1 <= j < k && existing@[m]@ == #[trigger] output_candidate(input_path@, j)),
            // every earlier candidate was found among the entries of `existing`
            all_earlier_taken(input_path@, existing@, k as nat),
        decreases pool@.len(),
    {
        let cand = output_candidate_path(input_path, k);
        match index_of_string(&pool, &cand) {
            None => {
                proof {
                    assert forall|m: int|
                        0 <= m < existing@.len() implies existing@[m]@ != cand@ by {
                        if in_views(pool@, existing@[m]@) {
                            let mp = choose|mp: int|
                                0 <= mp < pool@.len() && pool@[mp]@ == existing@[m]@;
                            assert(pool@[mp]@ != cand@);
                        } else {
                            let j = choose|j: nat|
                                1 <= j < k && existing@[m]@ == output_candidate(input_path@, j);
                            if existing@[m]@ == cand@ {
                                lemma_candidate_injective(input_path@, j, k as nat);
                            }
                        }
                    }
                    let kk = k as nat;
                    assert(1 <= kk && cand@ == output_candidate(input_path@, kk)
                        && all_earlier_taken(input_path@, existing@, kk));
                }
                return cand;
            },
            Some(idx) => {
                let ghost old_pool = pool@;
                pool.remove(idx);
                k = k + 1;
                proof {
                    assert(old_pool[idx as int]@ == output_candidate(input_path@, (k - 1) as nat));
                    assert forall|mp: int| 0 <= mp < pool@.len() implies in_views(
                        existing@,
                        #[trigger] pool@[mp]@,
                    ) by {
                        if mp < idx {
                            assert(pool@[mp] == old_pool[mp]);
                            assert(in_views(existing@, old_pool[mp]@));
                        } else {
                            assert(pool@[mp] == old_pool[mp + 1]);
                            assert(in_views(existing@, old_pool[mp + 1]@));
                        }
                    }
                    assert forall|m: int|
                        0 <= m < existing@.len() implies in_views(pool@, #[trigger] existing@[m]@)
                        || (exists|j: nat|
                        1 <= j < k && existing@[m]@ == #[trigger] output_candidate(
                            input_path@,
                            j,
                        )) by {
                        if in_views(old_pool, existing@[m]@) {
                            let mp = choose|mp: int|
                                0 <= mp < old_pool.len() && old_pool[mp]@ == existing@[m]@;
                            if mp == idx {
                                let jj = (k - 1) as nat;
                                assert(1 <= jj < k && existing@[m]@ == output_candidate(
                                    input_path@,
                                    jj,
                                ));
                            } else if mp < idx {
                                assert(pool@[mp]@ == existing@[m]@);
                            } else {
                                assert(pool@[mp - 1] == old_pool[mp]);
                                assert(pool@[mp - 1]@ == existing@[m]@);
                            }
                        } else {
                            let j = choose|j: nat|
                                1 <= j < (k - 1) && existing@[m]@ == output_candidate(
                                    input_path@,
                                    j,
                                );
                            assert(1 <= j < k && existing@[m]@ == output_candidate(input_path@, j));
                        }
                    }
                    assert forall|j: nat| 1 <= j < k as nat implies in_views(
                        existing@,
                        #[trigger] output_candidate(input_path@, j),
                    ) by {
                        if j < (k - 1) as nat {
                            assert(in_views(existing@, output_candidate(input_path@, j)));
                        } else {
                            assert(in_views(old_pool, output_candidate(input_path@, j)));
                            let mp = choose|mp: int|
                                0 <= mp < old_pool.len() && old_pool[mp]@ == output_candidate(
                                    input_path@,
                                    j,
                                );
                            assert(in_views(existing@, old_pool[mp]@));
                        }
                    }
                }
            },
        }
    }
}

/// The scratch path a cropped artifact is written to: the input's file name
/// under the scratch directory, marked with the `cropped-` prefix.
pub open spec fn cropped_path_spec(name: Seq<char>) -> Seq<char> {
    "./tmp/cropped-"@ + name
}

/// The pieces of the scratch prefix: the directory part and the marker.
proof fn lemma_cropped_prefix_split()
    ensures
        "./tmp/cropped-"@ =~= "./tmp/"@ + "cropped-"@,
        "./tmp/"@.len() == 6,
        "./tmp/"@.last() == '/',
        "cropped-"@.len() == 8,
        forall|i: int| 0 <= i < 8 ==> #[trigger] "cropped-"@[i] != '/',
{
    reveal_strlit("./tmp/cropped-");
    reveal_strlit("./tmp/");
    reveal_strlit("cropped-");
}

/// The final component of a scratch path built from a slash-free name is
/// the marked name itself.
proof fn lemma_cropped_raw_name(name: Seq<char>)
    requires
        !name.contains('/'),
    ensures
        raw_file_name(cropped_path_spec(name)) == "cropped-"@ + name,
        !("cropped-"@ + name).contains('/'),
{
    lemma_cropped_prefix_split();
    let marked = "cropped-"@ + name;
    assert forall|i: int| 0 <= i < marked.len() implies marked[i] != '/' by {
        if i >= 8 {
            if marked[i] == '/' {
                assert(name[i - 8] == '/');
                assert(name.contains('/'));
            }
        }
    }
    if marked.contains('/') {
        let i = choose|i: int| 0 <= i < marked.len() && marked[i] == '/';
    }
    lemma_raw_file_name_concat("./tmp/"@, marked);
    assert(cropped_path_spec(name) =~= "./tmp/"@ + marked);
}

/// Marking a name for the scratch directory and taking its storage name
/// again gives the name back: the marker is exactly what the storage name
/// strips.
pub proof fn lemma_storage_name_round_trip(name: Seq<char>)
    requires
        !name.contains('/'),
    ensures
        storage_name_spec(cropped_path_spec(name)) == name,
{
    lemma_cropped_raw_name(name);
    lemma_cropped_prefix_split();
    let marked = "cropped-"@ + name;
    assert(marked.subrange(0, 8) =~= "cropped-"@);
    assert(marked.skip(8) =~= name);
}

/// The scratch path a cropped artifact of `file_path` is written to.
pub fn cropped_output_path(file_path: &str) -> (r: String)
    requires
        has_plain_file_name(file_path@),
    ensures
        r@ == cropped_path_spec(raw_file_name(file_path@)),
        has_plain_file_name(r@),
{
    let n = file_path.unicode_len();
    let start = file_name_start(file_path);
    let mut r = String::from_str("./tmp/cropped-");
    r.append(file_path.substring_char(start, n));
    proof {
        let name = raw_file_name(file_path@);
        assert(file_path@.subrange(start as int, n as int) =~= name);
        lemma_cropped_raw_name(name);
        let marked = "cropped-"@ + name;
        lemma_cropped_prefix_split();
        assert(marked.len() >= 9);
        assert(marked != seq!['.']);
        assert(marked != seq!['.', '.']);
    }
    r
}

/// A numbered output path for the input whose name is not currently taken
/// on the filesystem: candidates `-1`, `-2`, … are probed in turn and the
/// first free one is returned.  A second caller racing on the same name can
/// observe the same free candidate; the probe does not serialize writers.
pub fn get_output_path(input_path: &String) -> (r: String)
    requires
        has_plain_file_name(input_path@),
    ensures
        exists|k: nat| 1 <= k && r@ == output_candidate(input_path@, k),
{
    let mut k: u64 = 1;
    loop
        invariant
            1 <= k,
            has_plain_file_name(input_path@),
        decreases u64::MAX - k,
    {
        let cand = output_candidate_path(input_path.as_str(), k);
        if !path_exists(cand.as_str()) {
            return cand;
        }
        if k == u64::MAX {
            // no filesystem can hold one file per counter value; stop probing
            return cand;
        }
        k = k + 1;
    }
}

} // verus!
