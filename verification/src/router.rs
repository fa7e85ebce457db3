//! Route-pattern matching. A pattern is a '/'-delimited template; a segment
//! beginning with ':' binds the opposite path segment, and a segment of the
//! form ':name*' is a catch-all binding the rest of the path. Matching is
//! strict: an entry matches only when every segment pair satisfies literal
//! equality or parameter binding and the segment counts agree, except that a
//! catch-all ends the comparison and accepts any (possibly empty) remainder.

use vstd::prelude::*;
use vstd::string::*;

use crate::strutil::{
    join_range, kv_view, spec_join, spec_segments, split_segments, str_eq, strs_view,
};

verus! {

/// Whether a pattern segment binds a parameter: it begins with ':'.
pub open spec fn is_param_seg(p: Seq<char>) -> bool {
    p.len() > 0 && p[0] == ':'
}

/// Whether a pattern segment is a catch-all: a parameter segment ending
/// with '*'.
pub open spec fn is_catchall_seg(p: Seq<char>) -> bool {
    is_param_seg(p) && p.last() == '*'
}

/// Matches pattern segments against path segments. A catch-all segment
/// binds the remaining path segments joined with '/' (the empty string when
/// none remain) and stops the comparison; a parameter segment binds exactly
/// one path segment; a literal segment must equal the path segment; apart
/// from a catch-all, the segment counts must agree. Parameter keys keep the
/// literal pattern token, including the leading ':' and any trailing '*'.
pub open spec fn match_segments(pat: Seq<Seq<char>>, path: Seq<Seq<char>>) -> Option<
    Seq<(Seq<char>, Seq<char>)>,
>
    decreases pat.len(),
{
    if pat.len() == 0 {
        if path.len() == 0 {
            Some(Seq::empty())
        } else {
            None
        }
    } else if is_catchall_seg(pat[0]) {
        Some(seq![(pat[0], spec_join(path, seq!['/']))])
    } else if path.len() == 0 {
        None
    } else if is_param_seg(pat[0]) {
        match match_segments(pat.drop_first(), path.drop_first()) {
            Some(ps) => Some(seq![(pat[0], path[0])] + ps),
            None => None,
        }
    } else if pat[0] == path[0] {
        match_segments(pat.drop_first(), path.drop_first())
    } else {
        None
    }
}

fn seg_is_param(s: &str) -> (r: bool)
    ensures
        r == is_param_seg(s@),
{
    !s.is_empty() && s.get_char(0) == ':'
}

fn seg_is_catchall(s: &str) -> (r: bool)
    ensures
        r == is_catchall_seg(s@),
{
    if s.is_empty() {
        return false;
    }
    let n = s.unicode_len();
    s.get_char(0) == ':' && s.get_char(n - 1) == '*'
}

fn match_from(pat: &Vec<String>, path: &Vec<String>, i: usize, j: usize) -> (r: Option<
    Vec<(String, String)>,
>)
    requires
        i <= pat@.len(),
        j <= path@.len(),
    ensures
        match r {
            Some(ps) => match_segments(
                strs_view(pat@).subrange(i as int, pat@.len() as int),
                strs_view(path@).subrange(j as int, path@.len() as int),
            ) == Some(kv_view(ps@)),
            None => match_segments(
                strs_view(pat@).subrange(i as int, pat@.len() as int),
                strs_view(path@).subrange(j as int, path@.len() as int),
            ) is None,
        },
    decreases pat@.len() - i,
{
    let np = pat.len();
    let nq = path.len();
    let ghost pat_t = strs_view(pat@).subrange(i as int, np as int);
    let ghost path_t = strs_view(path@).subrange(j as int, nq as int);
    if i == np {
        if j == nq {
            let v: Vec<(String, String)> = Vec::new();
            proof {
                assert(kv_view(v@) =~= Seq::<(Seq<char>, Seq<char>)>::empty());
            }
            Some(v)
        } else {
            None
        }
    } else {
        proof {
            assert(pat_t[0] == pat@[i as int]@);
            assert(pat_t.drop_first() =~= strs_view(pat@).subrange(i + 1, np as int));
            if j < nq {
                assert(path_t[0] == path@[j as int]@);
                assert(path_t.drop_first() =~= strs_view(path@).subrange(j + 1, nq as int));
            }
        }
        let seg = &pat[i];
        if seg_is_catchall(seg.as_str()) {
            let bound = join_range(path, j, nq, "/");
            proof {
                reveal_strlit("/");
                assert("/"@ =~= seq!['/']);
            }
            let mut v: Vec<(String, String)> = Vec::new();
            v.push((seg.clone(), bound));
            proof {
                assert(kv_view(v@) =~= seq![(pat_t[0], spec_join(path_t, seq!['/']))]);
            }
            Some(v)
        } else if j == nq {
            None
        } else if seg_is_param(seg.as_str()) {
            match match_from(pat, path, i + 1, j + 1) {
                Some(rest) => {
                    let mut v = rest;
                    let ghost rest0 = v@;
                    v.insert(0, (seg.clone(), path[j].clone()));
                    proof {
                        assert(kv_view(v@) =~= seq![(pat_t[0], path_t[0])] + kv_view(rest0));
                    }
                    Some(v)
                },
                None => None,
            }
        } else if str_eq(seg.as_str(), path[j].as_str()) {
            match_from(pat, path, i + 1, j + 1)
        } else {
            None
        }
    }
}

/// Matches a route pattern against a request path. Both sides are split on
/// '/' with empty segments dropped, so leading, trailing, and doubled
/// slashes are ignored on both sides. Returns the bound route parameters in
/// pattern order, or `None` when the pattern does not match the path.
pub fn match_pattern(pattern: &str, path: &str) -> (r: Option<Vec<(String, String)>>)
    ensures
        match r {
            Some(ps) => match_segments(spec_segments(pattern@), spec_segments(path@)) == Some(
                kv_view(ps@),
            ),
            None => match_segments(spec_segments(pattern@), spec_segments(path@)) is None,
        },
{
    let pat = split_segments(pattern);
    let pth = split_segments(path);
    proof {
        assert(strs_view(pat@).subrange(0, pat@.len() as int) =~= spec_segments(pattern@));
        assert(strs_view(pth@).subrange(0, pth@.len() as int) =~= spec_segments(path@));
    }
    match_from(&pat, &pth, 0, 0)
}

} // verus!
