//! Derivation of the output path for an aligned frame: the file keeps its
//! directory and extension, and its name gains the `aligned_` prefix.

use vstd::prelude::*;
use vstd::string::StrSliceExecFns;
use vstd::string::StringExecFns;

verus! {

/// Index of the last occurrence of `c` in `s`, or -1 when `c` is absent.
pub open spec fn last_index_of(s: Seq<char>, c: char) -> int
    decreases s.len(),
{
    if s.len() == 0 {
        -1
    } else if s.last() == c {
        s.len() - 1
    } else {
        last_index_of(s.drop_last(), c)
    }
}

/// The last-occurrence index always lies in `[-1, len)`.
pub proof fn lemma_last_index_of_bounds(s: Seq<char>, c: char)
    ensures
        -1 <= last_index_of(s, c) < s.len(),
    decreases s.len(),
{
    if s.len() != 0 && s.last() != c {
        lemma_last_index_of_bounds(s.drop_last(), c);
    }
}

/// The directory part of a path: everything before the last slash, or empty
/// when there is none.
pub open spec fn parent_of(p: Seq<char>) -> Seq<char> {
    let ls = last_index_of(p, '/');
    if ls >= 0 {
        p.subrange(0, ls)
    } else {
        Seq::empty()
    }
}

/// The file-name part of a path: everything after the last slash.
pub open spec fn filename_of(p: Seq<char>) -> Seq<char> {
    p.subrange(last_index_of(p, '/') + 1, p.len() as int)
}

/// The file name without its extension. A dot in first position marks a
/// hidden file, not an extension.
pub open spec fn stem_of(p: Seq<char>) -> Seq<char> {
    let f = filename_of(p);
    let ld = last_index_of(f, '.');
    if ld > 0 {
        f.subrange(0, ld)
    } else {
        f
    }
}

/// The extension of the file name: everything after its last dot, empty
/// when there is no extension.
pub open spec fn ext_of(p: Seq<char>) -> Seq<char> {
    let f = filename_of(p);
    let ld = last_index_of(f, '.');
    if ld > 0 {
        f.subrange(ld + 1, f.len() as int)
    } else {
        Seq::empty()
    }
}

/// Where an aligned frame is written: the input's directory, the stem
/// prefixed with `aligned_`, and the input's extension.
pub open spec fn output_path_of(p: Seq<char>) -> Seq<char> {
    parent_of(p) + "/aligned_"@ + stem_of(p) + "."@ + ext_of(p)
}

/// Finds the last occurrence of `c` in `s`.
fn find_last(s: &str, c: char) -> (r: Option<usize>)
    ensures
        match r {
            Option::Some(i) => i == last_index_of(s@, c),
            Option::None => last_index_of(s@, c) == -1,
        },
{
    let n = s.unicode_len();
    let mut r: Option<usize> = Option::None;
    let mut i: usize = 0;
    while i < n
        invariant
            i <= n,
            n == s@.len(),
            match r {
                Option::Some(j) => j == last_index_of(s@.take(i as int), c),
                Option::None => last_index_of(s@.take(i as int), c) == -1,
            },
        decreases n - i,
    {
        let ch = s.get_char(i);
        if ch == c {
            r = Option::Some(i);
        }
        proof {
            let t = s@.take(i + 1);
            assert(t.drop_last() =~= s@.take(i as int));
            assert(t.last() == s@[i as int]);
        }
        i = i + 1;
    }
    proof {
        assert(s@.take(n as int) =~= s@);
    }
    r
}

/// Derives the destination path for the aligned copy of `path`.
pub fn derive_output_path(path: &String) -> (out: String)
    ensures
        out@ == output_path_of(path@),
{
    let s = path.as_str();
    let n = s.unicode_len();
    proof {
        lemma_last_index_of_bounds(s@, '/');
    }
    let slash = find_last(s, '/');
    let fname_start: usize = match slash {
        Option::Some(i) => i + 1,
        Option::None => 0,
    };
    let fname = s.substring_char(fname_start, n);
    proof {
        assert(fname@ =~= filename_of(path@));
        lemma_last_index_of_bounds(fname@, '.');
    }
    let fl = fname.unicode_len();
    let dot = find_last(fname, '.');
    let mut out = String::new();
    match slash {
        Option::Some(i) => {
            let parent = s.substring_char(0, i);
            out.append(parent);
            proof {
                assert(out@ =~= parent_of(path@));
            }
        },
        Option::None => {
            proof {
                assert(out@ =~= parent_of(path@));
            }
        },
    }
    out.append("/aligned_");
    match dot {
        Option::Some(q) => {
            if q > 0 {
                let stem = fname.substring_char(0, q);
                out.append(stem);
                out.append(".");
                let ext = fname.substring_char(q + 1, fl);
                out.append(ext);
            } else {
                out.append(fname);
                out.append(".");
            }
        },
        Option::None => {
            out.append(fname);
            out.append(".");
        },
    }
    proof {
        assert(out@ =~= output_path_of(path@));
    }
    out
}

} // verus!
