//! Character-level string helpers shared by the rest of the library.
//!
//! Strings are reasoned about through their views, `Seq<char>`. The helpers
//! here give executable counterparts (searching, trimming, decimal spelling)
//! to the spec functions that the contracts of the other modules use.

use vstd::prelude::*;

verus! {

// ---------------------------------------------------------------------------
// Decimal numbers
// ---------------------------------------------------------------------------

/// Whether `c` is one of the ASCII digits `0`..`9`.
pub open spec fn is_ascii_digit(c: char) -> bool {
    '0' <= c && c <= '9'
}

/// The numeric value of an ASCII digit character.
pub open spec fn digit_value(c: char) -> nat {
    (c as int - 48) as nat
}

/// The decimal digit character for a value below ten.
pub open spec fn digit_char(d: nat) -> char
    recommends
        d < 10,
{
    ((d + 48) as u32) as char
}

/// The canonical decimal spelling of a natural number: no sign and no
/// leading zeros (zero itself is spelled `0`).
pub open spec fn decimal(n: nat) -> Seq<char>
    decreases n,
{
    if n < 10 {
        seq![digit_char(n)]
    } else {
        decimal(n / 10).push(digit_char(n % 10))
    }
}

/// The value of a run of ASCII digits read as a decimal number (leading
/// zeros allowed; the empty run has value zero).
pub open spec fn decimal_value(d: Seq<char>) -> nat
    decreases d.len(),
{
    if d.len() == 0 {
        0
    } else {
        decimal_value(d.drop_last()) * 10 + digit_value(d.last())
    }
}

/// Every character of the decimal spelling is a digit, and reading the
/// spelling back gives the number.
pub proof fn lemma_decimal_round_trip(n: nat)
    ensures
        decimal(n).len() > 0,
        forall|i: int| 0 <= i < decimal(n).len() ==> is_ascii_digit(#[trigger] decimal(n)[i]),
        decimal_value(decimal(n)) == n,
    decreases n,
{
    let d: nat = n % 10;
    assert(digit_value(digit_char(d)) == d);
    if n >= 10 {
        lemma_decimal_round_trip(n / 10);
        assert(decimal(n).drop_last() =~= decimal(n / 10));
        assert(decimal(n).last() == digit_char(d));
        assert(decimal_value(decimal(n)) == decimal_value(decimal(n / 10)) * 10 + d);
        assert((n / 10) * 10 + d == n);
    } else {
        assert(decimal(n).drop_last() =~= Seq::<char>::empty());
        assert(decimal(n).last() == digit_char(d));
        assert(decimal_value(Seq::<char>::empty()) == 0);
        assert(decimal_value(decimal(n)) == d);
    }
}

/// Appends one character to a `String` (`String::push`).
#[verifier::external_body]
pub(crate) fn string_push(s: &mut String, c: char)
    ensures
        final(s)@ == old(s)@.push(c),
{
    s.push(c);
}

/// Appends the decimal spelling of `n` to `s`.
pub fn push_decimal(s: &mut String, n: u64)
    ensures
        final(s)@ == old(s)@ + decimal(n as nat),
    decreases n,
{
    if n >= 10 {
        push_decimal(s, n / 10);
    }
    let d: u64 = n % 10;
    let c: char = ((d + 48) as u8) as char;
    assert(c == digit_char((n % 10) as nat));
    string_push(s, c);
}

// ---------------------------------------------------------------------------
// Characters of a string
// ---------------------------------------------------------------------------

/// The characters of `s`, in order.
pub fn chars_of(s: &str) -> (v: Vec<char>)
    ensures
        v@ == s@,
{
    broadcast use vstd::string::group_string_axioms;
    let mut v: Vec<char> = Vec::new();
    for c in it: s.chars()
        invariant
            v@ == it.seq().take(it.index() as int),
    {
        v.push(c);
    }
    assert(v@ =~= s@);
    v
}

/// A `String` holding the characters `v[from..to]`.
pub fn string_of_chars(v: &Vec<char>, from: usize, to: usize) -> (s: String)
    requires
        from <= to <= v@.len(),
    ensures
        s@ == v@.subrange(from as int, to as int),
{
    let mut s: String = String::new();
    let mut i: usize = from;
    while i < to
        invariant
            from <= i <= to,
            to <= v@.len(),
            s@ == v@.subrange(from as int, i as int),
        decreases to - i,
    {
        string_push(&mut s, v[i]);
        i += 1;
        assert(s@ =~= v@.subrange(from as int, i as int));
    }
    s
}

/// Appends the whole of `t` to `s`.
pub fn push_str(s: &mut String, t: &str)
    ensures
        final(s)@ == old(s)@ + t@,
{
    s.append(t);
}

// ---------------------------------------------------------------------------
// Searching
// ---------------------------------------------------------------------------

/// `p` occurs in `s` starting at index `i`.
pub open spec fn matches_at(s: Seq<char>, p: Seq<char>, i: int) -> bool {
    0 <= i && i + p.len() <= s.len() && s.subrange(i, i + p.len()) == p
}

/// The first index at or after `i` where `p` occurs in `s`.
pub open spec fn find_from(s: Seq<char>, p: Seq<char>, i: nat) -> Option<nat>
    decreases s.len() + 1 - i,
{
    if i + p.len() > s.len() {
        None
    } else if matches_at(s, p, i as int) {
        Some(i)
    } else {
        find_from(s, p, i + 1)
    }
}

/// The first index where `p` occurs in `s` (`str::find`, counted in
/// characters).
pub open spec fn find(s: Seq<char>, p: Seq<char>) -> Option<nat> {
    find_from(s, p, 0)
}

/// What `find_from` returns is a match, and no earlier index from `i` on is.
pub proof fn lemma_find_from_first(s: Seq<char>, p: Seq<char>, i: nat)
    ensures
        find_from(s, p, i) matches Some(k) ==> {
            &&& i <= k
            &&& matches_at(s, p, k as int)
            &&& forall|j: int| i <= j < k ==> !matches_at(s, p, j)
        },
        find_from(s, p, i) is None ==> forall|j: int| i <= j ==> !matches_at(s, p, j),
    decreases s.len() + 1 - i,
{
    if i + p.len() <= s.len() && !matches_at(s, p, i as int) {
        lemma_find_from_first(s, p, i + 1);
    }
}

/// Whether `p` occurs in `s` at index `i`.
pub fn chars_match_at(s: &Vec<char>, p: &Vec<char>, i: usize) -> (r: bool)
    ensures
        r == matches_at(s@, p@, i as int),
{
    if i > s.len() || p.len() > s.len() - i {
        return false;
    }
    let mut k: usize = 0;
    while k < p.len()
        invariant
            k <= p.len(),
            i + p.len() <= s.len(),
            forall|j: int| 0 <= j < k ==> s@[i + j] == p@[j],
        decreases p.len() - k,
    {
        if s[i + k] != p[k] {
            assert(s@.subrange(i as int, i + p.len())[k as int] != p@[k as int]);
            return false;
        }
        k += 1;
    }
    assert(s@.subrange(i as int, i + p.len()) =~= p@);
    true
}

/// The first index at or after `from` where `p` occurs in `s`.
pub fn find_chars_from(s: &Vec<char>, p: &Vec<char>, from: usize) -> (r: Option<usize>)
    ensures
        r matches Some(i) ==> find_from(s@, p@, from as nat) == Some(i as nat),
        r is None ==> find_from(s@, p@, from as nat) is None,
{
    if p.len() > s.len() || from > s.len() - p.len() {
        return None;
    }
    let limit: usize = s.len() - p.len();
    let mut i: usize = from;
    loop
        invariant
            limit == s@.len() - p@.len(),
            from <= i <= limit,
            find_from(s@, p@, from as nat) == find_from(s@, p@, i as nat),
        decreases limit - i,
    {
        if chars_match_at(s, p, i) {
            return Some(i);
        }
        if i == limit {
            assert(find_from(s@, p@, (i + 1) as nat) is None);
            return None;
        }
        i += 1;
    }
}

/// The first index where `p` occurs in `s`.
pub fn find_chars(s: &Vec<char>, p: &Vec<char>) -> (r: Option<usize>)
    ensures
        r matches Some(i) ==> find(s@, p@) == Some(i as nat),
        r is None ==> find(s@, p@) is None,
{
    find_chars_from(s, p, 0)
}

/// Whether two strings are equal.
pub fn str_equal(a: &str, b: &str) -> (r: bool)
    ensures
        r == (a@ == b@),
{
    let x: Vec<char> = chars_of(a);
    let y: Vec<char> = chars_of(b);
    if x.len() != y.len() {
        return false;
    }
    let mut i: usize = 0;
    while i < x.len()
        invariant
            x@ == a@,
            y@ == b@,
            x@.len() == y@.len(),
            i <= x@.len(),
            forall|j: int| 0 <= j < i ==> x@[j] == y@[j],
        decreases x.len() - i,
    {
        if x[i] != y[i] {
            return false;
        }
        i += 1;
    }
    assert(x@ =~= y@);
    true
}

/// `s` with every occurrence of `pat` from index `i` on replaced by `rep`,
/// left to right and without overlaps (the text before `i` is dropped).
pub open spec fn replace_from(s: Seq<char>, pat: Seq<char>, rep: Seq<char>, i: nat) -> Seq<char>
    decreases s.len() + 1 - i,
{
    if pat.len() == 0 || i > s.len() {
        Seq::empty()
    } else {
        match find_from(s, pat, i) {
            None => s.subrange(i as int, s.len() as int),
            Some(k) => {
                proof {
                    lemma_find_from_first(s, pat, i);
                }
                s.subrange(i as int, k as int) + rep + replace_from(s, pat, rep, k + pat.len())
            },
        }
    }
}

/// `s` with every occurrence of the non-empty pattern `pat` replaced by
/// `rep`, as `str::replace` does; it is not used with an empty pattern
/// (for which it gives the empty sequence).
pub open spec fn replace_all(s: Seq<char>, pat: Seq<char>, rep: Seq<char>) -> Seq<char> {
    replace_from(s, pat, rep, 0)
}

/// Replaces every occurrence of the non-empty pattern `pat` in `s` by `rep`.
pub fn replace_str(s: &str, pat: &str, rep: &str) -> (r: String)
    requires
        pat@.len() > 0,
    ensures
        r@ == replace_all(s@, pat@, rep@),
{
    let v: Vec<char> = chars_of(s);
    let p: Vec<char> = chars_of(pat);
    let mut r: String = String::new();
    let mut i: usize = 0;
    loop
        invariant
            v@ == s@,
            p@ == pat@,
            p@.len() > 0,
            i <= v@.len(),
            r@ + replace_from(v@, p@, rep@, i as nat) == replace_all(v@, p@, rep@),
        decreases v@.len() - i,
    {
        match find_chars_from(&v, &p, i) {
            None => {
                let rest: String = string_of_chars(&v, i, v.len());
                push_str(&mut r, rest.as_str());
                return r;
            },
            Some(k) => {
                proof {
                    lemma_find_from_first(v@, p@, i as nat);
                }
                let n: usize = v.len();
                assert(matches_at(v@, p@, k as int));
                let before: String = string_of_chars(&v, i, k);
                push_str(&mut r, before.as_str());
                push_str(&mut r, rep);
                assert(r@ + replace_from(v@, p@, rep@, (k + p@.len()) as nat) =~= replace_all(v@, p@, rep@));
                i = k + p.len();
            },
        }
    }
}

// ---------------------------------------------------------------------------
// Whitespace and lines
// ---------------------------------------------------------------------------

/// Unicode `White_Space` (what `char::is_whitespace` tests).
pub open spec fn is_whitespace(c: char) -> bool {
    ||| ('\u{9}' <= c && c <= '\u{d}')
    ||| c == ' '
    ||| c == '\u{85}'
    ||| c == '\u{a0}'
    ||| c == '\u{1680}'
    ||| ('\u{2000}' <= c && c <= '\u{200a}')
    ||| c == '\u{2028}'
    ||| c == '\u{2029}'
    ||| c == '\u{202f}'
    ||| c == '\u{205f}'
    ||| c == '\u{3000}'
}

/// `s` without its leading whitespace.
pub open spec fn trim_start(s: Seq<char>) -> Seq<char>
    decreases s.len(),
{
    if s.len() > 0 && is_whitespace(s[0]) {
        trim_start(s.drop_first())
    } else {
        s
    }
}

/// `s` without its trailing whitespace.
pub open spec fn trim_end(s: Seq<char>) -> Seq<char>
    decreases s.len(),
{
    if s.len() > 0 && is_whitespace(s.last()) {
        trim_end(s.drop_last())
    } else {
        s
    }
}

/// `s` without leading and trailing whitespace (`str::trim`).
pub open spec fn trim(s: Seq<char>) -> Seq<char> {
    trim_end(trim_start(s))
}

/// Whether `c` is Unicode whitespace.
pub fn char_is_whitespace(c: char) -> (r: bool)
    ensures
        r == is_whitespace(c),
{
    ('\u{9}' <= c && c <= '\u{d}') || c == ' ' || c == '\u{85}' || c == '\u{a0}' || c
        == '\u{1680}' || ('\u{2000}' <= c && c <= '\u{200a}') || c == '\u{2028}' || c
        == '\u{2029}' || c == '\u{202f}' || c == '\u{205f}' || c == '\u{3000}'
}

/// `s` with leading and trailing whitespace removed.
pub fn trim_string(s: &str) -> (r: String)
    ensures
        r@ == trim(s@),
{
    let v: Vec<char> = chars_of(s);
    let n: usize = v.len();
    let mut a: usize = 0;
    assert(v@.subrange(0, n as int) =~= v@);
    while a < n && char_is_whitespace(v[a])
        invariant
            n == v@.len(),
            a <= n,
            trim_start(v@) == trim_start(v@.subrange(a as int, n as int)),
        decreases n - a,
    {
        assert(v@.subrange(a as int, n as int).drop_first() =~= v@.subrange(a + 1, n as int));
        a += 1;
    }
    assert(trim_start(v@.subrange(a as int, n as int)) == v@.subrange(a as int, n as int));
    let mut b: usize = n;
    while b > a && char_is_whitespace(v[b - 1])
        invariant
            n == v@.len(),
            a <= b <= n,
            trim_start(v@) == v@.subrange(a as int, n as int),
            trim(v@) == trim_end(v@.subrange(a as int, b as int)),
        decreases b - a,
    {
        assert(v@.subrange(a as int, b as int).drop_last() =~= v@.subrange(a as int, b - 1));
        b -= 1;
    }
    string_of_chars(&v, a, b)
}

/// The index of the first `'\n'` at or after `i`, or the length of `s`.
pub open spec fn newline_from(s: Seq<char>, i: nat) -> nat
    decreases s.len() - i,
{
    if i < s.len() && s[i as int] != '\n' {
        newline_from(s, i + 1)
    } else {
        i
    }
}

/// The text of `s` before its first `'\n'` (all of `s` when it has none).
pub open spec fn first_line(s: Seq<char>) -> Seq<char> {
    s.subrange(0, newline_from(s, 0) as int)
}

/// The first line of `s`.
pub fn first_line_of(s: &str) -> (r: String)
    ensures
        r@ == first_line(s@),
{
    let v: Vec<char> = chars_of(s);
    let mut i: usize = 0;
    while i < v.len() && v[i] != '\n'
        invariant
            i <= v@.len(),
            newline_from(v@, 0) == newline_from(v@, i as nat),
        decreases v.len() - i,
    {
        i += 1;
    }
    string_of_chars(&v, 0, i)
}

} // verus!
