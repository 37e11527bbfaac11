//! Deriving a display name from a file path.
//!
//! The metadata command shows a file under the stem of its final path
//! component: the last `/`-separated segment, skipping empty and `.` segments
//! from the right, with the extension after the last `.` removed. A path with
//! no such segment, or whose last segment is `..`, yields no name at all and
//! the command falls back to the literal `"Unknown"`.

use vstd::prelude::*;

verus! {

/// Index of the last occurrence of `c` in `s`, or `-1` when `c` does not occur.
pub open spec fn last_index_of(s: Seq<char>, c: char) -> int
    decreases s.len(),
{
    if s.len() == 0 {
        -1
    } else if s[s.len() - 1] == c {
        s.len() - 1
    } else {
        last_index_of(s.drop_last(), c)
    }
}

/// Whether `seg` is the parent-directory segment `..`.
pub open spec fn is_dot_dot(seg: Seq<char>) -> bool {
    seg.len() == 2 && seg[0] == '.' && seg[1] == '.'
}

/// The final component of a path: trailing separators and `.` segments are
/// skipped; an empty remainder or a final `..` segment has no file name.
pub open spec fn file_name(s: Seq<char>) -> Option<Seq<char>>
    decreases s.len(),
{
    if s.len() == 0 {
        None
    } else if s[s.len() - 1] == '/' {
        file_name(s.drop_last())
    } else if s[s.len() - 1] == '.' && (s.len() == 1 || s[s.len() - 2] == '/') {
        file_name(s.drop_last())
    } else {
        let seg = s.subrange(last_index_of(s, '/') + 1, s.len() as int);
        if is_dot_dot(seg) {
            None
        } else {
            Some(seg)
        }
    }
}

/// A file name with its extension removed: everything before the last `.`,
/// unless that `.` is the first character or there is none.
pub open spec fn file_stem(name: Seq<char>) -> Seq<char> {
    let d = last_index_of(name, '.');
    if d > 0 {
        name.subrange(0, d)
    } else {
        name
    }
}

/// The display name derived from a path: the stem of its file name, or the
/// literal `"Unknown"` when the path has no file name.
pub open spec fn audio_name(s: Seq<char>) -> Seq<char> {
    match file_name(s) {
        Some(n) => file_stem(n),
        None => "Unknown"@,
    }
}

/// A right-to-left scan that stopped at `k` with no `c` at `k` or beyond, and
/// `c` just before `k` (or `k` at the start), has found the last occurrence.
proof fn lemma_last_index_from_scan(s: Seq<char>, c: char, k: int)
    requires
        0 <= k <= s.len(),
        forall|i: int| k <= i < s.len() ==> s[i] != c,
        k == 0 || s[k - 1] == c,
    ensures
        last_index_of(s, c) == k - 1,
    decreases s.len(),
{
    if s.len() == k {
        if k > 0 {
            assert(s[s.len() - 1] == c);
        }
    } else {
        assert(s[s.len() - 1] != c);
        lemma_last_index_from_scan(s.drop_last(), c, k);
    }
}

/// Derives the display name for `path`, as [`audio_name`] states it.
pub fn derive_name(path: &str) -> (r: String)
    ensures
        r@ == audio_name(path@),
{
    let n = path.unicode_len();
    // Skip trailing separators and `.` segments: afterwards the final
    // component of `path@.subrange(0, end)` is the final component of `path@`.
    let mut end: usize = n;
    proof {
        assert(path@.subrange(0, n as int) =~= path@);
    }
    loop
        invariant
            end <= n,
            n == path@.len(),
            file_name(path@.subrange(0, end as int)) == file_name(path@),
        ensures
            end <= n,
            n == path@.len(),
            file_name(path@.subrange(0, end as int)) == file_name(path@),
            end > 0 ==> path@[end - 1] != '/',
            end > 0 ==> !(path@[end - 1] == '.' && (end == 1 || path@[end - 2] == '/')),
        decreases end,
    {
        if end > 0 && path.get_char(end - 1) == '/' {
            proof {
                let p = path@.subrange(0, end as int);
                assert(p.drop_last() =~= path@.subrange(0, end as int - 1));
            }
            end = end - 1;
        } else if end > 0 && path.get_char(end - 1) == '.' && (end == 1 || path.get_char(
            end - 2,
        ) == '/') {
            proof {
                let p = path@.subrange(0, end as int);
                assert(p.drop_last() =~= path@.subrange(0, end as int - 1));
            }
            end = end - 1;
        } else {
            break;
        }
    }
    if end == 0 {
        proof {
            assert(path@.subrange(0, 0) =~= Seq::<char>::empty());
        }
        return String::from_str("Unknown");
    }
    // Find the start of the final segment: no separator in `[start, end)`.
    let mut start: usize = end;
    loop
        invariant
            start <= end <= n,
            n == path@.len(),
            forall|i: int| start <= i < end ==> path@[i] != '/',
        ensures
            start <= end <= n,
            n == path@.len(),
            forall|i: int| start <= i < end ==> path@[i] != '/',
            start == 0 || path@[start - 1] == '/',
        decreases start,
    {
        if start > 0 && path.get_char(start - 1) != '/' {
            start = start - 1;
        } else {
            break;
        }
    }
    proof {
        let p = path@.subrange(0, end as int);
        assert(forall|i: int| start <= i < end ==> p[i] == path@[i]);
        lemma_last_index_from_scan(p, '/', start as int);
        assert(p.subrange(start as int, end as int) =~= path@.subrange(
            start as int,
            end as int,
        ));
    }
    assert(start < end);
    let ghost seg = path@.subrange(start as int, end as int);
    assert(file_name(path@) == if is_dot_dot(seg) {
        None
    } else {
        Some(seg)
    });
    if end - start == 2 && path.get_char(start) == '.' && path.get_char(start + 1) == '.' {
        return String::from_str("Unknown");
    }
    assert(!is_dot_dot(seg));
    // Find the last `.` of the segment: no `.` in `[dot, end)`.
    let mut dot: usize = end;
    loop
        invariant
            start <= dot <= end <= n,
            n == path@.len(),
            forall|i: int| dot <= i < end ==> path@[i] != '.',
        ensures
            start <= dot <= end <= n,
            n == path@.len(),
            forall|i: int| dot <= i < end ==> path@[i] != '.',
            dot == start || path@[dot - 1] == '.',
        decreases dot,
    {
        if dot > start && path.get_char(dot - 1) != '.' {
            dot = dot - 1;
        } else {
            break;
        }
    }
    proof {
        assert(forall|i: int| 0 <= i < seg.len() ==> seg[i] == path@[start + i]);
        assert(forall|i: int| dot - start <= i < seg.len() ==> seg[i] != '.') by {
            assert(forall|i: int|
                dot - start <= i < seg.len() ==> seg[i] == path@[start + i] && path@[start + i]
                    != '.');
        }
        lemma_last_index_from_scan(seg, '.', dot - start);
    }
    let stem_end: usize = if dot > start + 1 {
        dot - 1
    } else {
        end
    };
    proof {
        assert(file_stem(seg) =~= path@.subrange(start as int, stem_end as int));
    }
    let stem = path.substring_char(start, stem_end);
    String::from_str(stem)
}

} // verus!
