//! Character-sequence utilities the rest of the library builds on.
//!
//! All string logic in this crate runs over `Vec<char>` values whose view is
//! a `Seq<char>`, so that every operation (search, replace, split, trim) has
//! an exact mathematical description. Conversions to and from `String` stand
//! at the edges.

use vstd::prelude::*;

verus! {

/// Copies the characters of a string slice into a vector, preserving the view.
pub fn str_to_chars(s: &str) -> (r: Vec<char>)
    ensures
        r@ == s@,
{
    let n: usize = s.unicode_len();
    let mut r: Vec<char> = Vec::new();
    let mut i: usize = 0;
    while i < n
        invariant
            n == s@.len(),
            i <= n,
            r@ == s@.subrange(0, i as int),
        decreases n - i,
    {
        r.push(s.get_char(i));
        assert(r@ =~= s@.subrange(0, i + 1 as int));
        i = i + 1;
    }
    assert(r@ =~= s@);
    r
}

/// Relies on `core::iter::Iterator::collect` building a `String` from the
/// characters of the vector, in order.
#[verifier::external_body]
pub(crate) fn chars_to_string(v: &Vec<char>) -> (r: String)
    ensures
        r@ == v@,
{
    v.iter().collect()
}

/// Appends every character of `src` to `dst`.
pub fn append_chars(dst: &mut Vec<char>, src: &Vec<char>)
    ensures
        final(dst)@ == old(dst)@ + src@,
{
    let mut i: usize = 0;
    while i < src.len()
        invariant
            i <= src@.len(),
            dst@ == old(dst)@ + src@.subrange(0, i as int),
        decreases src@.len() - i,
    {
        dst.push(src[i]);
        assert(dst@ =~= old(dst)@ + src@.subrange(0, i + 1 as int));
        i = i + 1;
    }
    assert(dst@ =~= old(dst)@ + src@);
}

/// Appends every character of the string slice `src` to `dst`.
pub fn append_str(dst: &mut Vec<char>, src: &str)
    ensures
        final(dst)@ == old(dst)@ + src@,
{
    let v = str_to_chars(src);
    append_chars(dst, &v);
}

/// Compares two character vectors for equality of their contents.
pub fn chars_equal(a: &Vec<char>, b: &Vec<char>) -> (r: bool)
    ensures
        r == (a@ == b@),
{
    if a.len() != b.len() {
        assert(a@ != b@) by {
            assert(a@.len() != b@.len());
        }
        return false;
    }
    let mut i: usize = 0;
    while i < a.len()
        invariant
            a@.len() == b@.len(),
            i <= a@.len(),
            forall|j: int| 0 <= j < i ==> a@[j] == b@[j],
        decreases a@.len() - i,
    {
        if a[i] != b[i] {
            return false;
        }
        i = i + 1;
    }
    assert(a@ =~= b@);
    true
}

/// True when `pat` occurs in `s` starting at index `i`.
pub open spec fn match_at(s: Seq<char>, pat: Seq<char>, i: int) -> bool {
    0 <= i && i + pat.len() <= s.len() && s.subrange(i, i + pat.len()) == pat
}

/// True when `pat` occurs somewhere in `s`.
pub open spec fn contains_seq(s: Seq<char>, pat: Seq<char>) -> bool {
    exists|i: int| match_at(s, pat, i)
}

/// Checks whether `pat` occurs in `s` at index `i`.
pub fn matches_at(s: &Vec<char>, pat: &Vec<char>, i: usize) -> (r: bool)
    requires
        i <= s@.len(),
    ensures
        r == match_at(s@, pat@, i as int),
{
    if s.len() - i < pat.len() {
        return false;
    }
    let mut j: usize = 0;
    while j < pat.len()
        invariant
            i + pat@.len() <= s@.len() <= usize::MAX,
            j <= pat@.len(),
            forall|k: int| 0 <= k < j ==> s@[i + k] == pat@[k],
        decreases pat@.len() - j,
    {
        if s[i + j] != pat[j] {
            assert(s@.subrange(i as int, i + pat@.len()) != pat@) by {
                assert(s@.subrange(i as int, i + pat@.len())[j as int] != pat@[j as int]);
            }
            return false;
        }
        j = j + 1;
    }
    assert(s@.subrange(i as int, i + pat@.len()) =~= pat@);
    true
}

/// Finds the first index at which `pat` occurs in `s`.
pub fn find_first(s: &Vec<char>, pat: &Vec<char>) -> (r: Option<usize>)
    ensures
        match r {
            Some(i) => match_at(s@, pat@, i as int) && forall|j: int|
                0 <= j < i ==> !match_at(s@, pat@, j),
            None => !contains_seq(s@, pat@),
        },
{
    if pat.len() == 0 {
        assert(s@.subrange(0, 0) =~= pat@);
        return Some(0);
    }
    let mut i: usize = 0;
    while i < s.len()
        invariant
            i <= s@.len(),
            forall|j: int| 0 <= j < i ==> !match_at(s@, pat@, j),
        decreases s@.len() - i,
    {
        if matches_at(s, pat, i) {
            return Some(i);
        }
        i = i + 1;
    }
    assert(forall|j: int| match_at(s@, pat@, j) ==> 0 <= j < s@.len());
    None
}

/// Finds the last index at which `pat` occurs in `s`.
pub fn find_last(s: &Vec<char>, pat: &Vec<char>) -> (r: Option<usize>)
    ensures
        match r {
            Some(i) => match_at(s@, pat@, i as int) && forall|j: int|
                i < j <= s@.len() ==> !match_at(s@, pat@, j),
            None => !contains_seq(s@, pat@),
        },
{
    let mut i: usize = s.len();
    loop
        invariant
            i <= s@.len(),
            forall|j: int| i < j <= s@.len() ==> !match_at(s@, pat@, j),
        decreases i + 1,
    {
        if matches_at(s, pat, i) {
            return Some(i);
        }
        if i == 0 {
            assert(forall|j: int| match_at(s@, pat@, j) ==> 0 <= j <= s@.len());
            return None;
        }
        i = i - 1;
    }
}

/// A one-character pattern occurs at `i` exactly when that character
/// stands at `i`.
pub proof fn lemma_match_at_single(s: Seq<char>, c: char, i: int)
    requires
        0 <= i < s.len(),
    ensures
        match_at(s, seq![c], i) <==> s[i] == c,
{
    assert(seq![c].len() == 1);
    assert(seq![c][0] == c);
    assert(s.subrange(i, i + 1) =~= seq![s[i]]);
    if s[i] == c {
        assert(seq![s[i]] =~= seq![c]);
    }
}

/// Checks whether `pat` occurs anywhere in `s`.
pub fn contains_chars(s: &Vec<char>, pat: &Vec<char>) -> (r: bool)
    ensures
        r == contains_seq(s@, pat@),
{
    find_first(s, pat).is_some()
}

/// Checks whether `s` begins with `pat`.
pub fn starts_with_chars(s: &Vec<char>, pat: &Vec<char>) -> (r: bool)
    ensures
        r == match_at(s@, pat@, 0),
{
    matches_at(s, pat, 0)
}

/// Copies the characters of `s` from index `from` (inclusive) to `to`
/// (exclusive).
pub fn subrange_chars(s: &Vec<char>, from: usize, to: usize) -> (r: Vec<char>)
    requires
        from <= to <= s@.len(),
    ensures
        r@ == s@.subrange(from as int, to as int),
{
    let mut r: Vec<char> = Vec::new();
    let mut i: usize = from;
    while i < to
        invariant
            from <= i <= to <= s@.len(),
            r@ == s@.subrange(from as int, i as int),
        decreases to - i,
    {
        r.push(s[i]);
        assert(r@ =~= s@.subrange(from as int, i + 1 as int));
        i = i + 1;
    }
    r
}

/// The result of replacing every occurrence of `pat` in `s` by `rep`,
/// scanning left to right without overlap.
pub open spec fn spec_replace(s: Seq<char>, pat: Seq<char>, rep: Seq<char>) -> Seq<char>
    decreases s.len(),
{
    if pat.len() == 0 || s.len() < pat.len() {
        s
    } else if s.subrange(0, pat.len() as int) == pat {
        rep + spec_replace(s.skip(pat.len() as int), pat, rep)
    } else {
        seq![s[0]] + spec_replace(s.skip(1), pat, rep)
    }
}

/// Replaces every occurrence of `pat` in `s` by `rep`, left to right.
pub fn replace_chars(s: &Vec<char>, pat: &Vec<char>, rep: &Vec<char>) -> (r: Vec<char>)
    requires
        pat@.len() > 0,
    ensures
        r@ == spec_replace(s@, pat@, rep@),
{
    let mut out: Vec<char> = Vec::new();
    let mut i: usize = 0;
    proof {
        assert(s@.skip(0) =~= s@);
        assert(Seq::<char>::empty() + spec_replace(s@, pat@, rep@) =~= spec_replace(
            s@,
            pat@,
            rep@,
        ));
    }
    while i < s.len()
        invariant
            pat@.len() > 0,
            i <= s@.len(),
            spec_replace(s@, pat@, rep@) == out@ + spec_replace(
                s@.skip(i as int),
                pat@,
                rep@,
            ),
        decreases s@.len() - i,
    {
        let ghost pre = out@;
        if matches_at(s, pat, i) {
            append_chars(&mut out, rep);
            proof {
                assert(s@.skip(i as int).subrange(0, pat@.len() as int) =~= s@.subrange(
                    i as int,
                    i + pat@.len(),
                ));
                assert(s@.skip(i as int).skip(pat@.len() as int) =~= s@.skip(
                    i + pat@.len(),
                ));
                assert(spec_replace(s@.skip(i as int), pat@, rep@) == rep@ + spec_replace(
                    s@.skip(i + pat@.len()),
                    pat@,
                    rep@,
                ));
                assert(pre + (rep@ + spec_replace(s@.skip(i + pat@.len()), pat@, rep@)) =~= out@
                    + spec_replace(s@.skip(i + pat@.len()), pat@, rep@));
            }
            i = i + pat.len();
        } else {
            out.push(s[i]);
            proof {
                if s@.len() - i >= pat@.len() {
                    assert(s@.skip(i as int).subrange(0, pat@.len() as int) =~= s@.subrange(
                        i as int,
                        i + pat@.len(),
                    ));
                    assert(s@.skip(i as int)[0] == s@[i as int]);
                    assert(s@.skip(i as int).skip(1) =~= s@.skip(i + 1));
                    assert(spec_replace(s@.skip(i as int), pat@, rep@) == seq![s@[i as int]]
                        + spec_replace(s@.skip(i + 1), pat@, rep@));
                } else {
                    assert(spec_replace(s@.skip(i as int), pat@, rep@) == s@.skip(i as int));
                    assert(spec_replace(s@.skip(i + 1), pat@, rep@) == s@.skip(i + 1));
                    assert(s@.skip(i as int) =~= seq![s@[i as int]] + s@.skip(i + 1));
                }
                assert(pre + (seq![s@[i as int]] + spec_replace(s@.skip(i + 1), pat@, rep@))
                    =~= out@ + spec_replace(s@.skip(i + 1), pat@, rep@));
            }
            i = i + 1;
        }
    }
    proof {
        assert(s@.skip(i as int) =~= Seq::<char>::empty());
        assert(spec_replace(Seq::<char>::empty(), pat@, rep@) == Seq::<char>::empty());
        assert(out@ + Seq::<char>::empty() =~= out@);
    }
    out
}

/// The pieces of `s` cut at every occurrence of `sep`, with `cur` the piece
/// collected so far; splitting a whole string starts from an empty `cur`.
pub open spec fn spec_split(s: Seq<char>, sep: char, cur: Seq<char>) -> Seq<Seq<char>>
    decreases s.len(),
{
    if s.len() == 0 {
        seq![cur]
    } else if s[0] == sep {
        seq![cur] + spec_split(s.skip(1), sep, Seq::empty())
    } else {
        spec_split(s.skip(1), sep, cur.push(s[0]))
    }
}

/// Cuts `s` at every occurrence of `sep`; adjacent separators yield empty
/// pieces, as `str::split` does.
pub fn split_chars(s: &Vec<char>, sep: char) -> (r: Vec<Vec<char>>)
    ensures
        r@.map_values(|v: Vec<char>| v@) == spec_split(s@, sep, Seq::<char>::empty()),
{
    let mut out: Vec<Vec<char>> = Vec::new();
    let mut cur: Vec<char> = Vec::new();
    let mut i: usize = 0;
    proof {
        assert(s@.skip(0) =~= s@);
        assert(out@.map_values(|v: Vec<char>| v@) =~= Seq::<Seq<char>>::empty());
        assert(Seq::<Seq<char>>::empty() + spec_split(s@, sep, Seq::<char>::empty())
            =~= spec_split(s@, sep, Seq::<char>::empty()));
    }
    while i < s.len()
        invariant
            i <= s@.len(),
            spec_split(s@, sep, Seq::<char>::empty()) == out@.map_values(|v: Vec<char>| v@)
                + spec_split(s@.skip(i as int), sep, cur@),
        decreases s@.len() - i,
    {
        let ghost pre_out = out@.map_values(|v: Vec<char>| v@);
        let ghost pre_cur = cur@;
        if s[i] == sep {
            out.push(cur);
            cur = Vec::new();
            proof {
                assert(s@.skip(i as int)[0] == s@[i as int]);
                assert(s@.skip(i as int).skip(1) =~= s@.skip(i + 1));
                assert(out@.map_values(|v: Vec<char>| v@) =~= pre_out.push(pre_cur));
                assert(pre_out + (seq![pre_cur] + spec_split(s@.skip(i + 1), sep, Seq::<
                    char,
                >::empty())) =~= pre_out.push(pre_cur) + spec_split(
                    s@.skip(i + 1),
                    sep,
                    Seq::<char>::empty(),
                ));
            }
        } else {
            cur.push(s[i]);
            proof {
                assert(s@.skip(i as int)[0] == s@[i as int]);
                assert(s@.skip(i as int).skip(1) =~= s@.skip(i + 1));
            }
        }
        i = i + 1;
    }
    proof {
        assert(s@.skip(i as int) =~= Seq::<char>::empty());
    }
    let ghost pre_out = out@.map_values(|v: Vec<char>| v@);
    let ghost pre_cur = cur@;
    out.push(cur);
    proof {
        assert(out@.map_values(|v: Vec<char>| v@) =~= pre_out.push(pre_cur));
        assert(pre_out + seq![pre_cur] =~= pre_out.push(pre_cur));
    }
    out
}

/// Whitespace for the purposes of trimming command segments.
pub open spec fn is_space(c: char) -> bool {
    c == ' ' || c == '\t' || c == '\n' || c == '\r'
}

/// `s` with leading whitespace removed.
pub open spec fn spec_trim_start(s: Seq<char>) -> Seq<char>
    decreases s.len(),
{
    if s.len() > 0 && is_space(s[0]) {
        spec_trim_start(s.skip(1))
    } else {
        s
    }
}

/// `s` with trailing whitespace removed.
pub open spec fn spec_trim_end(s: Seq<char>) -> Seq<char>
    decreases s.len(),
{
    if s.len() > 0 && is_space(s[s.len() - 1]) {
        spec_trim_end(s.take(s.len() - 1))
    } else {
        s
    }
}

/// `s` with whitespace removed from both ends.
pub open spec fn spec_trim(s: Seq<char>) -> Seq<char> {
    spec_trim_end(spec_trim_start(s))
}

/// Checks a character for whitespace.
pub fn is_space_char(c: char) -> (r: bool)
    ensures
        r == is_space(c),
{
    c == ' ' || c == '\t' || c == '\n' || c == '\r'
}

/// Removes whitespace from both ends of `s`.
pub fn trim_chars(s: &Vec<char>) -> (r: Vec<char>)
    ensures
        r@ == spec_trim(s@),
{
    let mut a: usize = 0;
    proof {
        assert(s@.skip(0) =~= s@);
    }
    while a < s.len() && is_space_char(s[a])
        invariant
            a <= s@.len(),
            spec_trim_start(s@) == spec_trim_start(s@.skip(a as int)),
        decreases s@.len() - a,
    {
        proof {
            assert(s@.skip(a as int)[0] == s@[a as int]);
            assert(s@.skip(a as int).skip(1) =~= s@.skip(a + 1));
        }
        a = a + 1;
    }
    proof {
        if a == s@.len() {
            assert(s@.skip(a as int) =~= Seq::<char>::empty());
        } else {
            assert(s@.skip(a as int)[0] == s@[a as int]);
        }
        assert(spec_trim_start(s@) == s@.skip(a as int));
        assert(s@.skip(a as int) =~= s@.subrange(a as int, s@.len() as int));
    }
    let mut b: usize = s.len();
    while b > a && is_space_char(s[b - 1])
        invariant
            a <= b <= s@.len(),
            spec_trim_start(s@) == s@.skip(a as int),
            spec_trim_end(s@.skip(a as int)) == spec_trim_end(s@.subrange(a as int, b as int)),
        decreases b,
    {
        proof {
            let piece = s@.subrange(a as int, b as int);
            assert(piece[piece.len() - 1] == s@[b - 1]);
            assert(piece.take(piece.len() - 1) =~= s@.subrange(a as int, b - 1));
        }
        b = b - 1;
    }
    proof {
        let piece = s@.subrange(a as int, b as int);
        if b == a {
            assert(piece =~= Seq::<char>::empty());
        } else {
            assert(piece[piece.len() - 1] == s@[b - 1]);
        }
        assert(spec_trim_end(piece) == piece);
    }
    subrange_chars(s, a, b)
}

/// The character for one decimal digit.
pub open spec fn spec_digit_char(d: int) -> char {
    if d == 0 {
        '0'
    } else if d == 1 {
        '1'
    } else if d == 2 {
        '2'
    } else if d == 3 {
        '3'
    } else if d == 4 {
        '4'
    } else if d == 5 {
        '5'
    } else if d == 6 {
        '6'
    } else if d == 7 {
        '7'
    } else if d == 8 {
        '8'
    } else {
        '9'
    }
}

/// The decimal rendering of a non-negative integer, most significant digit
/// first, without leading zeroes (except for zero itself).
pub open spec fn spec_dec(n: int) -> Seq<char>
    decreases n,
{
    if n < 10 {
        seq![spec_digit_char(n)]
    } else {
        spec_dec(n / 10).push(spec_digit_char(n % 10))
    }
}

/// Picks the character for a digit.
pub fn digit_char(d: u32) -> (c: char)
    requires
        d < 10,
    ensures
        c == spec_digit_char(d as int),
{
    if d == 0 {
        '0'
    } else if d == 1 {
        '1'
    } else if d == 2 {
        '2'
    } else if d == 3 {
        '3'
    } else if d == 4 {
        '4'
    } else if d == 5 {
        '5'
    } else if d == 6 {
        '6'
    } else if d == 7 {
        '7'
    } else if d == 8 {
        '8'
    } else {
        '9'
    }
}

/// Renders `n` in decimal.
pub fn u32_to_chars(n: u32) -> (r: Vec<char>)
    ensures
        r@ == spec_dec(n as int),
    decreases n,
{
    if n < 10 {
        let mut r: Vec<char> = Vec::new();
        r.push(digit_char(n));
        assert(r@ =~= seq![spec_digit_char(n as int)]);
        r
    } else {
        assert(n / 10 < n) by (nonlinear_arith)
            requires
                n >= 10,
        ;
        let mut r = u32_to_chars(n / 10);
        r.push(digit_char(n % 10));
        r
    }
}

/// True when folding ASCII letters to lower case makes `a` equal to the
/// (already lower-case) character `b`.
pub open spec fn ci_match(a: char, b: char) -> bool {
    a == b || ('A' <= a <= 'Z' && b as int == a as int + 32)
}

/// Compares `a` against a lower-case character `b`, folding the case of
/// ASCII letters in `a`.
pub fn ci_match_char(a: char, b: char) -> (r: bool)
    ensures
        r == ci_match(a, b),
{
    if a == b {
        true
    } else if 'A' <= a && a <= 'Z' {
        (a as u32) + 32 == (b as u32)
    } else {
        false
    }
}

/// True when `s` ends with `pat` up to ASCII case of `s`.
pub open spec fn ends_with_ci(s: Seq<char>, pat: Seq<char>) -> bool {
    pat.len() <= s.len() && forall|k: int|
        0 <= k < pat.len() ==> ci_match(s[s.len() - pat.len() + k], pat[k])
}

/// Checks whether `s` ends with the lower-case pattern `pat`, folding the
/// case of ASCII letters in `s`.
pub fn ends_with_chars_ci(s: &Vec<char>, pat: &Vec<char>) -> (r: bool)
    ensures
        r == ends_with_ci(s@, pat@),
{
    if pat.len() > s.len() {
        return false;
    }
    let off: usize = s.len() - pat.len();
    let mut k: usize = 0;
    while k < pat.len()
        invariant
            off + pat@.len() == s@.len() <= usize::MAX,
            k <= pat@.len(),
            forall|j: int| 0 <= j < k ==> ci_match(s@[off + j], pat@[j]),
        decreases pat@.len() - k,
    {
        if !ci_match_char(s[off + k], pat[k]) {
            return false;
        }
        k = k + 1;
    }
    true
}

/// ASCII letters and digits.
pub open spec fn is_ascii_alnum(c: char) -> bool {
    ('0' <= c <= '9') || ('a' <= c <= 'z') || ('A' <= c <= 'Z')
}

/// Checks whether every character of `s` is an ASCII letter or digit.
pub fn all_ascii_alnum(s: &Vec<char>) -> (r: bool)
    ensures
        r == forall|j: int| 0 <= j < s@.len() ==> is_ascii_alnum(s@[j]),
{
    let mut i: usize = 0;
    while i < s.len()
        invariant
            i <= s@.len(),
            forall|j: int| 0 <= j < i ==> is_ascii_alnum(s@[j]),
        decreases s@.len() - i,
    {
        let c = s[i];
        if !(('0' <= c && c <= '9') || ('a' <= c && c <= 'z') || ('A' <= c && c <= 'Z')) {
            return false;
        }
        i = i + 1;
    }
    true
}

} // verus!
