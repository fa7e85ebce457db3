//! String helpers shared by the wire codec and the router: character search,
//! splitting, joining, trimming, equality, and decimal formatting/parsing.
//! Each executable function is specified against a small recursive spec
//! function over `Seq<char>`.

use vstd::prelude::*;
use vstd::string::*;

verus! {

/// The view of a sequence of `String`s as a sequence of character sequences.
pub open spec fn strs_view(v: Seq<String>) -> Seq<Seq<char>> {
    Seq::new(v.len(), |i: int| v[i]@)
}

/// The view of a sequence of `(String, String)` pairs.
pub open spec fn kv_view(v: Seq<(String, String)>) -> Seq<(Seq<char>, Seq<char>)> {
    Seq::new(v.len(), |i: int| (v[i].0@, v[i].1@))
}

/// Index of the first occurrence of `sep` in `s`, or -1 when absent.
pub open spec fn find_char_spec(s: Seq<char>, sep: char) -> int
    decreases s.len(),
{
    if s.len() == 0 {
        -1
    } else if s[0] == sep {
        0
    } else {
        let r = find_char_spec(s.drop_first(), sep);
        if r < 0 {
            -1
        } else {
            r + 1
        }
    }
}

/// `find_char_spec` returns -1 exactly when `sep` is absent, and otherwise
/// the position of its first occurrence.
pub proof fn lemma_find_char_spec(s: Seq<char>, sep: char)
    ensures
        find_char_spec(s, sep) == -1 ==> (forall|j: int| 0 <= j < s.len() ==> s[j] != sep),
        find_char_spec(s, sep) != -1 ==> {
            let r = find_char_spec(s, sep);
            &&& 0 <= r < s.len()
            &&& s[r] == sep
            &&& (forall|j: int| 0 <= j < r ==> s[j] != sep)
        },
    decreases s.len(),
{
    if s.len() == 0 {
    } else if s[0] == sep {
    } else {
        lemma_find_char_spec(s.drop_first(), sep);
        assert forall|j: int| 1 <= j < s.len() implies s[j] == s.drop_first()[j - 1] by {}
    }
}

/// First occurrence of `sep` in `s`, if any.
pub fn find_char(s: &str, sep: char) -> (r: Option<usize>)
    ensures
        match r {
            Some(i) => find_char_spec(s@, sep) == i as int,
            None => find_char_spec(s@, sep) == -1,
        },
{
    let n = s.unicode_len();
    let mut i: usize = 0;
    while i < n
        invariant
            n == s@.len(),
            0 <= i <= n,
            forall|j: int| 0 <= j < i ==> s@[j] != sep,
        decreases n - i,
    {
        if s.get_char(i) == sep {
            proof {
                lemma_find_char_spec(s@, sep);
            }
            return Some(i);
        }
        i = i + 1;
    }
    proof {
        lemma_find_char_spec(s@, sep);
    }
    None
}

/// Pieces of `s` split on `sep`; empty pieces are kept, so the result always
/// has at least one piece.
pub open spec fn spec_split(s: Seq<char>, sep: char) -> Seq<Seq<char>>
    decreases s.len(),
{
    let i = find_char_spec(s, sep);
    if 0 <= i < s.len() {
        seq![s.subrange(0, i)] + spec_split(s.subrange(i + 1, s.len() as int), sep)
    } else {
        seq![s]
    }
}

/// Splits `s` on `sep`, keeping empty pieces.
pub fn split_char(s: &str, sep: char) -> (r: Vec<String>)
    ensures
        strs_view(r@) == spec_split(s@, sep),
        r@.len() >= 1,
    decreases s@.len(),
{
    let n = s.unicode_len();
    match find_char(s, sep) {
        None => {
            let mut v: Vec<String> = Vec::new();
            v.push(s.to_owned());
            proof {
                assert(strs_view(v@) =~= spec_split(s@, sep));
            }
            v
        },
        Some(i) => {
            proof {
                lemma_find_char_spec(s@, sep);
            }
            let head = s.substring_char(0, i).to_owned();
            let tail = s.substring_char(i + 1, n);
            let mut rest = split_char(tail, sep);
            let ghost rest0 = rest@;
            rest.insert(0, head);
            proof {
                assert(strs_view(rest@) =~= seq![head@] + strs_view(rest0));
                assert(strs_view(rest@) =~= spec_split(s@, sep));
            }
            rest
        },
    }
}

/// The non-empty pieces of a piece sequence, in order.
pub open spec fn nonempty_pieces(ps: Seq<Seq<char>>) -> Seq<Seq<char>>
    decreases ps.len(),
{
    if ps.len() == 0 {
        Seq::empty()
    } else if ps[0].len() > 0 {
        seq![ps[0]] + nonempty_pieces(ps.drop_first())
    } else {
        nonempty_pieces(ps.drop_first())
    }
}

/// The '/'-separated segments of a path, with empty segments (from leading,
/// trailing, or doubled slashes) dropped.
pub open spec fn spec_segments(s: Seq<char>) -> Seq<Seq<char>> {
    nonempty_pieces(spec_split(s, '/'))
}

/// Splits a path on '/' and drops empty segments.
pub fn split_segments(s: &str) -> (r: Vec<String>)
    ensures
        strs_view(r@) == spec_segments(s@),
{
    let pieces = split_char(s, '/');
    let n = pieces.len();
    let mut out: Vec<String> = Vec::new();
    let mut i: usize = 0;
    proof {
        assert(strs_view(pieces@).subrange(0, n as int) =~= strs_view(pieces@));
        assert(strs_view(out@) =~= Seq::<Seq<char>>::empty());
        assert(Seq::<Seq<char>>::empty() + nonempty_pieces(strs_view(pieces@)) =~= nonempty_pieces(
            strs_view(pieces@),
        ));
    }
    while i < n
        invariant
            n == pieces@.len(),
            0 <= i <= n,
            strs_view(pieces@) == spec_split(s@, '/'),
            strs_view(out@) + nonempty_pieces(strs_view(pieces@).subrange(i as int, n as int))
                == spec_segments(s@),
        decreases n - i,
    {
        let ghost pre = strs_view(pieces@).subrange(i as int, n as int);
        let ghost post = strs_view(pieces@).subrange(i + 1, n as int);
        proof {
            assert(pre.drop_first() =~= post);
            assert(pre[0] == pieces@[i as int]@);
        }
        let piece = &pieces[i];
        if !piece.as_str().is_empty() {
            let ghost out0 = out@;
            out.push(piece.clone());
            proof {
                assert(strs_view(out@) =~= strs_view(out0) + seq![pieces@[i as int]@]);
                assert(strs_view(out@) + nonempty_pieces(post) =~= strs_view(out0)
                    + nonempty_pieces(pre));
            }
        }
        i = i + 1;
    }
    proof {
        assert(strs_view(pieces@).subrange(n as int, n as int) =~= Seq::<Seq<char>>::empty());
        assert(strs_view(out@) + Seq::<Seq<char>>::empty() =~= strs_view(out@));
    }
    out
}

/// The pieces joined with separator `sep`.
pub open spec fn spec_join(ps: Seq<Seq<char>>, sep: Seq<char>) -> Seq<char>
    decreases ps.len(),
{
    if ps.len() == 0 {
        Seq::empty()
    } else if ps.len() == 1 {
        ps[0]
    } else {
        ps[0] + sep + spec_join(ps.drop_first(), sep)
    }
}

/// Joins `v[from..to]` with `sep`.
pub fn join_range(v: &Vec<String>, from: usize, to: usize, sep: &str) -> (r: String)
    requires
        from <= to <= v@.len(),
    ensures
        r@ == spec_join(strs_view(v@).subrange(from as int, to as int), sep@),
    decreases to - from,
{
    let ghost range = strs_view(v@).subrange(from as int, to as int);
    if from == to {
        String::new()
    } else if from + 1 == to {
        v[from].clone()
    } else {
        let mut s = v[from].clone();
        s.append(sep);
        let rest = join_range(v, from + 1, to, sep);
        s.append(rest.as_str());
        proof {
            assert(range.drop_first() =~= strs_view(v@).subrange(from + 1, to as int));
            assert(s@ =~= range[0] + sep@ + spec_join(range.drop_first(), sep@));
        }
        s
    }
}

/// The Unicode `White_Space` characters: the set trimmed from header names
/// and values.
pub open spec fn is_space(c: char) -> bool {
    let u = c as int;
    u == 0x20 || (0x9 <= u && u <= 0xd) || u == 0x85 || u == 0xa0 || u == 0x1680 || (0x2000 <= u
        && u <= 0x200a) || u == 0x2028 || u == 0x2029 || u == 0x202f || u == 0x205f || u == 0x3000
}

/// Whether `c` is Unicode whitespace.
pub fn is_space_char(c: char) -> (r: bool)
    ensures
        r == is_space(c),
{
    let u = c as u32;
    u == 0x20 || (0x9 <= u && u <= 0xd) || u == 0x85 || u == 0xa0 || u == 0x1680 || (0x2000 <= u
        && u <= 0x200a) || u == 0x2028 || u == 0x2029 || u == 0x202f || u == 0x205f || u == 0x3000
}

/// `s` with leading whitespace dropped.
pub open spec fn trim_start_spec(s: Seq<char>) -> Seq<char>
    decreases s.len(),
{
    if s.len() > 0 && is_space(s[0]) {
        trim_start_spec(s.drop_first())
    } else {
        s
    }
}

/// `s` with trailing whitespace dropped.
pub open spec fn trim_end_spec(s: Seq<char>) -> Seq<char>
    decreases s.len(),
{
    if s.len() > 0 && is_space(s.last()) {
        trim_end_spec(s.drop_last())
    } else {
        s
    }
}

/// `s` with surrounding whitespace dropped.
pub open spec fn trim_spec(s: Seq<char>) -> Seq<char> {
    trim_end_spec(trim_start_spec(s))
}

proof fn lemma_trim_start_at(s: Seq<char>, lo: int)
    requires
        0 <= lo <= s.len(),
        forall|j: int| 0 <= j < lo ==> is_space(s[j]),
        lo < s.len() ==> !is_space(s[lo]),
    ensures
        trim_start_spec(s) =~= s.subrange(lo, s.len() as int),
    decreases lo,
{
    if lo == 0 {
        if s.len() > 0 && is_space(s[0]) {
            assert(false);
        } else {
            assert(s =~= s.subrange(0, s.len() as int));
        }
    } else {
        let t = s.drop_first();
        assert(forall|j: int| 0 <= j < lo - 1 ==> t[j] == s[j + 1] && is_space(t[j]));
        lemma_trim_start_at(t, lo - 1);
        assert(t.subrange(lo - 1, t.len() as int) =~= s.subrange(lo, s.len() as int));
    }
}

proof fn lemma_trim_end_at(s: Seq<char>, hi: int)
    requires
        -1 <= hi < s.len(),
        forall|j: int| hi < j < s.len() ==> is_space(s[j]),
        hi >= 0 ==> !is_space(s[hi]),
    ensures
        trim_end_spec(s) =~= s.subrange(0, hi + 1),
    decreases s.len(),
{
    if hi + 1 == s.len() {
        if s.len() > 0 && is_space(s.last()) {
            assert(false);
        } else {
            assert(s =~= s.subrange(0, s.len() as int));
        }
    } else {
        let t = s.drop_last();
        assert(is_space(s.last()));
        lemma_trim_end_at(t, hi);
        assert(t.subrange(0, hi + 1) =~= s.subrange(0, hi + 1));
    }
}

/// `s` with surrounding ASCII whitespace removed.
pub fn trim_str(s: &str) -> (r: String)
    ensures
        r@ == trim_spec(s@),
{
    let n = s.unicode_len();
    let mut lo: usize = 0;
    while lo < n && is_space_char(s.get_char(lo))
        invariant
            n == s@.len(),
            0 <= lo <= n,
            forall|j: int| 0 <= j < lo ==> is_space(s@[j]),
        decreases n - lo,
    {
        lo = lo + 1;
    }
    if lo == n {
        proof {
            lemma_trim_start_at(s@, n as int);
            assert(s@.subrange(n as int, n as int) =~= Seq::<char>::empty());
        }
        return String::new();
    }
    let mut hi: usize = n;
    while hi > lo + 1 && is_space_char(s.get_char(hi - 1))
        invariant
            n == s@.len(),
            lo < n,
            !is_space(s@[lo as int]),
            lo + 1 <= hi <= n,
            forall|j: int| hi <= j < n ==> is_space(s@[j]),
        decreases hi,
    {
        hi = hi - 1;
    }
    // here either hi == lo + 1 (single char left) or s@[hi-1] is not whitespace;
    // in the first case s@[lo] is not whitespace, which is the same position
    let r = s.substring_char(lo, hi).to_owned();
    proof {
        lemma_trim_start_at(s@, lo as int);
        let t = s@.subrange(lo as int, n as int);
        assert(!is_space(t[(hi - 1 - lo) as int]));
        lemma_trim_end_at(t, hi - 1 - lo);
        assert(t.subrange(0, hi - lo) =~= s@.subrange(lo as int, hi as int));
    }
    r
}

/// Character-wise string equality.
pub fn str_eq(a: &str, b: &str) -> (r: bool)
    ensures
        r == (a@ == b@),
{
    let na = a.unicode_len();
    let nb = b.unicode_len();
    if na != nb {
        return false;
    }
    let mut i: usize = 0;
    while i < na
        invariant
            na == a@.len(),
            nb == b@.len(),
            na == nb,
            0 <= i <= na,
            forall|j: int| 0 <= j < i ==> a@[j] == b@[j],
        decreases na - i,
    {
        if a.get_char(i) != b.get_char(i) {
            return false;
        }
        i = i + 1;
    }
    proof {
        assert(a@ =~= b@);
    }
    true
}

/// The decimal digit character for `d` in 0..=9.
pub open spec fn spec_digit(d: int) -> char {
    if d == 0 {
        '0'
    } else if d == 1 {
        '1'
    } else if d == 2 {
        '2'
    } else if d == 3 {
        '3'
    } else if d == 4 {
        '4'
    } else if d == 5 {
        '5'
    } else if d == 6 {
        '6'
    } else if d == 7 {
        '7'
    } else if d == 8 {
        '8'
    } else {
        '9'
    }
}

/// The decimal representation of a non-negative integer, most significant
/// digit first, without leading zeros (except for 0 itself).
pub open spec fn spec_dec(n: int) -> Seq<char>
    decreases n,
{
    if n < 10 {
        seq![spec_digit(n)]
    } else {
        spec_dec(n / 10).push(spec_digit(n % 10))
    }
}

fn digit_str(d: usize) -> (r: &'static str)
    requires
        d < 10,
    ensures
        r@ == seq![spec_digit(d as int)],
{
    if d == 0 {
        proof {
            reveal_strlit("0");
            assert("0"@ =~= seq![spec_digit(0int)]);
        }
        "0"
    } else if d == 1 {
        proof {
            reveal_strlit("1");
            assert("1"@ =~= seq![spec_digit(1int)]);
        }
        "1"
    } else if d == 2 {
        proof {
            reveal_strlit("2");
            assert("2"@ =~= seq![spec_digit(2int)]);
        }
        "2"
    } else if d == 3 {
        proof {
            reveal_strlit("3");
            assert("3"@ =~= seq![spec_digit(3int)]);
        }
        "3"
    } else if d == 4 {
        proof {
            reveal_strlit("4");
            assert("4"@ =~= seq![spec_digit(4int)]);
        }
        "4"
    } else if d == 5 {
        proof {
            reveal_strlit("5");
            assert("5"@ =~= seq![spec_digit(5int)]);
        }
        "5"
    } else if d == 6 {
        proof {
            reveal_strlit("6");
            assert("6"@ =~= seq![spec_digit(6int)]);
        }
        "6"
    } else if d == 7 {
        proof {
            reveal_strlit("7");
            assert("7"@ =~= seq![spec_digit(7int)]);
        }
        "7"
    } else if d == 8 {
        proof {
            reveal_strlit("8");
            assert("8"@ =~= seq![spec_digit(8int)]);
        }
        "8"
    } else {
        proof {
            reveal_strlit("9");
            assert("9"@ =~= seq![spec_digit(9int)]);
        }
        "9"
    }
}

/// The decimal representation of `n`.
pub fn usize_to_string(n: usize) -> (r: String)
    ensures
        r@ == spec_dec(n as int),
    decreases n,
{
    if n < 10 {
        digit_str(n).to_owned()
    } else {
        let mut s = usize_to_string(n / 10);
        s.append(digit_str(n % 10));
        proof {
            assert(s@ =~= spec_dec(n as int / 10).push(spec_digit(n as int % 10)));
        }
        s
    }
}

/// Whether `c` is a decimal digit.
pub open spec fn is_digit(c: char) -> bool {
    48 <= c as int <= 57
}

/// Whether every character of `s` is a decimal digit.
pub open spec fn all_digits(s: Seq<char>) -> bool {
    forall|i: int| 0 <= i < s.len() ==> is_digit(s[i])
}

/// The value of a digit string read in base 10 (0 for the empty string).
pub open spec fn spec_digits_val(s: Seq<char>) -> int
    decreases s.len(),
{
    if s.len() == 0 {
        0
    } else {
        spec_digits_val(s.drop_last()) * 10 + (s.last() as int - 48)
    }
}

proof fn lemma_digits_val_nonneg(s: Seq<char>)
    requires
        all_digits(s),
    ensures
        spec_digits_val(s) >= 0,
    decreases s.len(),
{
    if s.len() > 0 {
        assert(all_digits(s.drop_last()));
        lemma_digits_val_nonneg(s.drop_last());
    }
}

proof fn lemma_digits_val_prefix_le(s: Seq<char>, i: int)
    requires
        all_digits(s),
        0 <= i <= s.len(),
    ensures
        spec_digits_val(s.subrange(0, i)) <= spec_digits_val(s),
    decreases s.len(),
{
    if i == s.len() {
        assert(s.subrange(0, i) =~= s);
    } else {
        let t = s.drop_last();
        assert(all_digits(t));
        assert(s.subrange(0, i) =~= t.subrange(0, i));
        lemma_digits_val_prefix_le(t, i);
        lemma_digits_val_nonneg(t);
    }
}

/// Parses a non-negative decimal integer. Returns `None` when `s` is empty,
/// holds a non-digit character, or denotes a value above `usize::MAX`.
pub fn parse_usize(s: &str) -> (r: Option<usize>)
    ensures
        match r {
            Some(v) => s@.len() > 0 && all_digits(s@) && spec_digits_val(s@) == v as int,
            None => s@.len() == 0 || !all_digits(s@) || spec_digits_val(s@) > usize::MAX as int,
        },
{
    let n = s.unicode_len();
    if n == 0 {
        return None;
    }
    let mut acc: usize = 0;
    let mut i: usize = 0;
    while i < n
        invariant
            n == s@.len(),
            0 <= i <= n,
            all_digits(s@.subrange(0, i as int)),
            acc as int == spec_digits_val(s@.subrange(0, i as int)),
        decreases n - i,
    {
        let c = s.get_char(i);
        let u = c as u32;
        if u < 48 || u > 57 {
            return None;
        }
        let d = (u - 48) as usize;
        let ghost pre = s@.subrange(0, i as int);
        let ghost pre1 = s@.subrange(0, i + 1);
        proof {
            assert(pre1.drop_last() =~= pre);
            assert(pre1.last() == s@[i as int]);
            vstd::arithmetic::div_mod::lemma_fundamental_div_mod(usize::MAX as int, 10);
            vstd::arithmetic::div_mod::lemma_mod_bound(usize::MAX as int, 10);
        }
        if acc > usize::MAX / 10 || (acc == usize::MAX / 10 && d > usize::MAX % 10) {
            proof {
                // the value of the scanned prefix already exceeds usize::MAX,
                // and appending further digits can only increase it
                assert(spec_digits_val(pre1) > usize::MAX as int);
                if all_digits(s@) {
                    assert(pre1 =~= s@.subrange(0, i + 1));
                    lemma_digits_val_prefix_le(s@, i + 1);
                }
            }
            return None;
        }
        acc = acc * 10 + d;
        i = i + 1;
    }
    proof {
        assert(s@.subrange(0, n as int) =~= s@);
    }
    Some(acc)
}

/// The value of the first pair whose key equals `name`, if any.
pub open spec fn spec_lookup(pairs: Seq<(Seq<char>, Seq<char>)>, name: Seq<char>) -> Option<
    Seq<char>,
>
    decreases pairs.len(),
{
    if pairs.len() == 0 {
        None
    } else if pairs[0].0 == name {
        Some(pairs[0].1)
    } else {
        spec_lookup(pairs.drop_first(), name)
    }
}

/// First-match lookup over an ordered pair list.
pub fn lookup_pair(pairs: &Vec<(String, String)>, name: &str) -> (r: Option<String>)
    ensures
        match r {
            Some(v) => spec_lookup(kv_view(pairs@), name@) == Some(v@),
            None => spec_lookup(kv_view(pairs@), name@) is None,
        },
{
    let n = pairs.len();
    let mut i: usize = 0;
    proof {
        assert(kv_view(pairs@).subrange(0, n as int) =~= kv_view(pairs@));
    }
    while i < n
        invariant
            n == pairs@.len(),
            0 <= i <= n,
            spec_lookup(kv_view(pairs@), name@) == spec_lookup(
                kv_view(pairs@).subrange(i as int, n as int),
                name@,
            ),
        decreases n - i,
    {
        let ghost pre = kv_view(pairs@).subrange(i as int, n as int);
        proof {
            assert(pre[0] == (pairs@[i as int].0@, pairs@[i as int].1@));
            assert(pre.drop_first() =~= kv_view(pairs@).subrange(i + 1, n as int));
        }
        let p = &pairs[i];
        if str_eq(p.0.as_str(), name) {
            return Some(p.1.clone());
        }
        i = i + 1;
    }
    None
}

} // verus!
