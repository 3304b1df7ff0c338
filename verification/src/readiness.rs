//! Recognising the readiness line of `dsh web`.
//!
//! `dsh web --host 127.0.0.1 --port 0` reports the address it listens on by
//! printing a loopback origin somewhere in a line of its output. The banner
//! format varies (`dsh web: http://127.0.0.1:5173`, vite-style
//! `Local: http://localhost:3000/`, JSON log records), so the whole line is
//! scanned for `http://127.0.0.1:<port>` or `http://localhost:<port>`.
//! The port must be a valid TCP port (1 to 65535); the recognised origin is
//! always normalised to `http://127.0.0.1:<port>`.

use vstd::prelude::*;

use crate::text::{
    chars_of, decimal, decimal_value, digit_value, find, find_chars, find_from, is_ascii_digit,
    lemma_decimal_round_trip, lemma_find_from_first, matches_at, push_decimal,
};

verus! {

/// `http://127.0.0.1:`, the canonical loopback host prefix.
pub open spec fn loopback_prefix() -> Seq<char> {
    seq!['h', 't', 't', 'p', ':', '/', '/', '1', '2', '7', '.', '0', '.', '0', '.', '1', ':']
}

/// `http://localhost:`, the alias that is normalised to the loopback address.
pub open spec fn localhost_prefix() -> Seq<char> {
    seq!['h', 't', 't', 'p', ':', '/', '/', 'l', 'o', 'c', 'a', 'l', 'h', 'o', 's', 't', ':']
}

/// The line without its trailing `'\r'` and `'\n'` characters.
pub open spec fn trim_line_end(s: Seq<char>) -> Seq<char>
    decreases s.len(),
{
    if s.len() > 0 && (s.last() == '\r' || s.last() == '\n') {
        trim_line_end(s.drop_last())
    } else {
        s
    }
}

/// The end of the run of ASCII digits that starts at index `i`.
pub open spec fn digits_end(s: Seq<char>, i: nat) -> nat
    decreases s.len() - i,
{
    if i < s.len() && is_ascii_digit(s[i as int]) {
        digits_end(s, i + 1)
    } else {
        i
    }
}

/// The port written right after the first occurrence of `host` in `l`: the
/// digit run that follows it, read as a `u16` (so non-empty and at most
/// 65535), and non-zero. `None` when `host` does not occur or the port is
/// not valid.
pub open spec fn port_after(l: Seq<char>, host: Seq<char>) -> Option<nat> {
    match find(l, host) {
        None => None,
        Some(pos) => {
            let start = pos + host.len();
            let digits = l.subrange(start as int, digits_end(l, start) as int);
            let v = decimal_value(digits);
            if digits.len() > 0 && v <= 65535 && v != 0 {
                Some(v)
            } else {
                None
            }
        },
    }
}

/// The normalised origin for a port: `http://127.0.0.1:<port>`.
pub open spec fn loopback_origin(port: nat) -> Seq<char> {
    loopback_prefix() + decimal(port)
}

/// What a readiness line announces: the loopback prefix is tried first, then
/// `localhost`; the first one with a valid port gives the origin.
pub open spec fn readiness_origin(line: Seq<char>) -> Option<Seq<char>> {
    let l = trim_line_end(line);
    match port_after(l, loopback_prefix()) {
        Some(p) => Some(loopback_origin(p)),
        None => match port_after(l, localhost_prefix()) {
            Some(p) => Some(loopback_origin(p)),
            None => None,
        },
    }
}

/// The digit run of a prefix of digits followed by a non-digit (or nothing).
proof fn lemma_digits_end_of_run(s: Seq<char>, i: nat, e: nat)
    requires
        i <= e <= s.len(),
        forall|j: int| i <= j < e ==> is_ascii_digit(#[trigger] s[j]),
        e < s.len() ==> !is_ascii_digit(s[e as int]),
    ensures
        digits_end(s, i) == e,
    decreases e - i,
{
    if i < e {
        lemma_digits_end_of_run(s, i + 1, e);
    }
}

/// A readiness line string for a port (the exact text that is returned).
fn origin_string(port: u16) -> (s: String)
    ensures
        s@ == loopback_origin(port as nat),
{
    let mut s: String = String::new();
    let prefix: Vec<char> = vec![
        'h', 't', 't', 'p', ':', '/', '/', '1', '2', '7', '.', '0', '.', '0', '.', '1', ':',
    ];
    let mut i: usize = 0;
    while i < prefix.len()
        invariant
            prefix@ == loopback_prefix(),
            i <= prefix.len(),
            s@ == prefix@.subrange(0, i as int),
        decreases prefix.len() - i,
    {
        crate::text::string_push(&mut s, prefix[i]);
        i += 1;
        assert(s@ =~= prefix@.subrange(0, i as int));
    }
    assert(prefix@.subrange(0, prefix.len() as int) =~= prefix@);
    push_decimal(&mut s, port as u64);
    s
}

/// The port after the first occurrence of `host` in `l` (see `port_after`).
fn port_after_chars(l: &Vec<char>, host: &Vec<char>) -> (r: Option<u16>)
    ensures
        r matches Some(p) ==> port_after(l@, host@) == Some(p as nat),
        r is None ==> port_after(l@, host@) is None,
{
    match find_chars(l, host) {
        None => None,
        Some(pos) => {
            proof {
                lemma_find_from_first(l@, host@, 0);
                assert(find_from(l@, host@, 0) == Some(pos as nat));
                assert(matches_at(l@, host@, pos as int));
            }
            let n: usize = l.len();
            let start: usize = pos + host.len();
            let mut j: usize = start;
            let mut acc: u32 = 0;
            while j < l.len() && '0' <= l[j] && l[j] <= '9'
                invariant
                    start <= j <= l@.len(),
                    digits_end(l@, start as nat) == digits_end(l@, j as nat),
                    acc <= 65536,
                    acc < 65536 ==> acc == decimal_value(l@.subrange(start as int, j as int)),
                    acc == 65536 ==> decimal_value(l@.subrange(start as int, j as int)) >= 65536,
                decreases l.len() - j,
            {
                let c: char = l[j];
                let d: u32 = (c as u32) - 48;
                assert(d == digit_value(c));
                let ghost before = l@.subrange(start as int, j as int);
                assert(l@.subrange(start as int, j + 1).drop_last() =~= before);
                if acc < 65536 {
                    let v: u32 = acc * 10 + d;
                    acc = if v > 65536 { 65536 } else { v };
                }
                j += 1;
            }
            if j > start && acc <= 65535 && acc != 0 {
                Some(acc as u16)
            } else {
                None
            }
        },
    }
}

/// Parse the readiness line and return a clean loopback origin URL.
///
/// The line's trailing CR/LF characters are ignored. The first occurrence of
/// `http://127.0.0.1:` is tried first, then that of `http://localhost:`;
/// the digits right after the prefix must read as a port between 1 and 65535
/// (leading zeros allowed). The result is always `http://127.0.0.1:<port>`
/// with the port written in canonical decimal.
pub fn parse_readiness_line(line: &str) -> (r: Option<String>)
    ensures
        r.deep_view() == readiness_origin(line@),
{
    let mut l: Vec<char> = chars_of(line);
    let mut end: usize = l.len();
    assert(line@.subrange(0, end as int) =~= line@);
    while end > 0 && (l[end - 1] == '\r' || l[end - 1] == '\n')
        invariant
            l@ == line@,
            end <= l@.len(),
            trim_line_end(line@) == trim_line_end(line@.subrange(0, end as int)),
        decreases end,
    {
        assert(line@.subrange(0, end as int).drop_last() =~= line@.subrange(0, end - 1));
        end -= 1;
    }
    assert(trim_line_end(line@.subrange(0, end as int)) == line@.subrange(0, end as int));
    l.truncate(end);
    assert(l@ =~= trim_line_end(line@));
    let loopback: Vec<char> = vec![
        'h', 't', 't', 'p', ':', '/', '/', '1', '2', '7', '.', '0', '.', '0', '.', '1', ':',
    ];
    assert(loopback@ =~= loopback_prefix());
    if let Some(port) = port_after_chars(&l, &loopback) {
        return Some(origin_string(port));
    }
    let localhost: Vec<char> = vec![
        'h', 't', 't', 'p', ':', '/', '/', 'l', 'o', 'c', 'a', 'l', 'h', 'o', 's', 't', ':',
    ];
    assert(localhost@ =~= localhost_prefix());
    match port_after_chars(&l, &localhost) {
        Some(port) => Some(origin_string(port)),
        None => None,
    }
}

} // verus!

verus! {

// ---------------------------------------------------------------------------
// Laws
// ---------------------------------------------------------------------------

/// Trailing line endings only: every character is `'\r'` or `'\n'`.
pub open spec fn only_line_endings(s: Seq<char>) -> bool {
    forall|i: int| 0 <= i < s.len() ==> (#[trigger] s[i] == '\r' || s[i] == '\n')
}

proof fn lemma_trim_line_end_suffix(line: Seq<char>, suffix: Seq<char>)
    requires
        only_line_endings(suffix),
    ensures
        trim_line_end(line + suffix) == trim_line_end(line),
    decreases suffix.len(),
{
    if suffix.len() == 0 {
        assert(line + suffix =~= line);
    } else {
        let shorter = suffix.drop_last();
        assert((line + suffix).drop_last() =~= line + shorter);
        assert((line + suffix).last() == suffix.last());
        lemma_trim_line_end_suffix(line, shorter);
    }
}

/// Line endings do not matter: a line announces the same origin whatever CR
/// and LF characters follow it.
pub proof fn lemma_readiness_ignores_line_endings(line: Seq<char>, suffix: Seq<char>)
    requires
        only_line_endings(suffix),
    ensures
        readiness_origin(line + suffix) == readiness_origin(line),
{
    lemma_trim_line_end_suffix(line, suffix);
}

/// Every recognised origin is `http://127.0.0.1:<port>` with a port between
/// 1 and 65535.
pub proof fn lemma_readiness_origin_is_loopback(line: Seq<char>)
    ensures
        readiness_origin(line) matches Some(u) ==> exists|p: nat|
            1 <= p <= 65535 && u == #[trigger] loopback_origin(p),
{
    let l = trim_line_end(line);
    match port_after(l, loopback_prefix()) {
        Some(p) => {
            assert(loopback_origin(p) == loopback_origin(p));
        },
        None => match port_after(l, localhost_prefix()) {
            Some(p) => {
                assert(loopback_origin(p) == loopback_origin(p));
            },
            None => {},
        },
    }
}

/// `find` gives `k` when `p` occurs at `k` and at no earlier index.
proof fn lemma_find_first_match(s: Seq<char>, p: Seq<char>, i: nat, k: nat)
    requires
        i <= k,
        matches_at(s, p, k as int),
        forall|j: int| i <= j < k ==> !matches_at(s, p, j),
    ensures
        find_from(s, p, i) == Some(k),
    decreases k - i,
{
    if i < k {
        lemma_find_first_match(s, p, i + 1, k);
    }
}

/// `find` gives nothing when `p` occurs nowhere from `i` on.
proof fn lemma_find_no_match(s: Seq<char>, p: Seq<char>, i: nat)
    requires
        forall|j: int| i <= j ==> !matches_at(s, p, j),
    ensures
        find_from(s, p, i) is None,
    decreases s.len() + 1 - i,
{
    if i + p.len() <= s.len() {
        lemma_find_no_match(s, p, i + 1);
    }
}

/// The port read back after a prefix `host` that occurs first at the start
/// of `host + decimal(p)`.
proof fn lemma_port_after_spelled(host: Seq<char>, p: nat)
    requires
        1 <= p <= 65535,
        find(host + decimal(p), host) == Some(0nat),
    ensures
        port_after(host + decimal(p), host) == Some(p),
{
    let s = host + decimal(p);
    lemma_decimal_round_trip(p);
    let start = host.len();
    assert forall|j: int| start <= j < s.len() implies is_ascii_digit(#[trigger] s[j]) by {
        assert(s[j] == decimal(p)[j - start]);
    }
    lemma_digits_end_of_run(s, start, s.len());
    assert(s.subrange(start as int, s.len() as int) =~= decimal(p));
}

/// The last character of a decimal spelling is a digit, so no line ending.
proof fn lemma_origin_has_no_line_end(prefix: Seq<char>, p: nat)
    ensures
        trim_line_end(prefix + decimal(p)) == prefix + decimal(p),
{
    lemma_decimal_round_trip(p);
    let s = prefix + decimal(p);
    assert(s.last() == decimal(p)[decimal(p).len() - 1]);
}

/// The recognised origin announces itself: reading `http://127.0.0.1:<port>`
/// as a readiness line gives back the same origin, for every valid port.
pub proof fn lemma_loopback_origin_round_trip(p: nat)
    requires
        1 <= p <= 65535,
    ensures
        readiness_origin(loopback_origin(p)) == Some(loopback_origin(p)),
{
    let s = loopback_origin(p);
    lemma_origin_has_no_line_end(loopback_prefix(), p);
    assert(s.subrange(0, 17) =~= loopback_prefix());
    lemma_find_first_match(s, loopback_prefix(), 0, 0);
    lemma_port_after_spelled(loopback_prefix(), p);
}

/// Parsing is idempotent: whatever origin a line announces is announced
/// again, unchanged, when that origin is itself read as a readiness line.
pub proof fn lemma_readiness_idempotent(line: Seq<char>)
    ensures
        readiness_origin(line) matches Some(u) ==> readiness_origin(u) == Some(u),
{
    lemma_readiness_origin_is_loopback(line);
    if let Some(u) = readiness_origin(line) {
        let p = choose|p: nat| 1 <= p <= 65535 && u == #[trigger] loopback_origin(p);
        lemma_loopback_origin_round_trip(p);
    }
}

/// `localhost` is normalised: `http://localhost:<port>` announces
/// `http://127.0.0.1:<port>` for every valid port.
pub proof fn lemma_localhost_normalised(p: nat)
    requires
        1 <= p <= 65535,
    ensures
        readiness_origin(localhost_prefix() + decimal(p)) == Some(loopback_origin(p)),
{
    let s = localhost_prefix() + decimal(p);
    lemma_decimal_round_trip(p);
    lemma_origin_has_no_line_end(localhost_prefix(), p);
    // `http://127.0.0.1:` occurs nowhere: it would need `1` after `http://`,
    // which only the digits could supply, and they are too close to the end
    // to hold the whole prefix after an `h`.
    assert forall|j: int| 0 <= j implies !matches_at(s, loopback_prefix(), j) by {
        if matches_at(s, loopback_prefix(), j) {
            let w = s.subrange(j, j + 17);
            assert(w[0] == 'h' && w[1] == 't' && w[7] == '1');
            assert(s[j] == 'h');
            if j < 17 {
                assert(s[j] == localhost_prefix()[j]);
                if j + 1 < 17 {
                    assert(s[j + 1] == localhost_prefix()[j + 1]);
                }
                assert(j == 0 || j == 12);
                assert(s[j + 7] == w[7]);
                if j + 7 < 17 {
                    assert(s[j + 7] == localhost_prefix()[j + 7]);
                } else {
                    assert(s[j + 1] == localhost_prefix()[j + 1]);
                }
            } else {
                assert(s[j] == decimal(p)[j - 17]);
                assert(is_ascii_digit(decimal(p)[j - 17]));
            }
        }
    }
    lemma_find_no_match(s, loopback_prefix(), 0);
    assert(s.subrange(0, 17) =~= localhost_prefix());
    lemma_find_first_match(s, localhost_prefix(), 0, 0);
    lemma_port_after_spelled(localhost_prefix(), p);
}

/// `dsh web: `, the banner in front of the canonical readiness line.
pub open spec fn banner_prefix() -> Seq<char> {
    seq!['d', 's', 'h', ' ', 'w', 'e', 'b', ':', ' ']
}

/// No occurrence of the loopback prefix starts inside the banner.
proof fn lemma_banner_has_no_match(s: Seq<char>)
    requires
        s.len() >= 26,
        s.subrange(0, 9) == banner_prefix(),
    ensures
        forall|j: int| 0 <= j < 9 ==> !matches_at(s, loopback_prefix(), j),
{
    assert forall|j: int| 0 <= j < 9 implies !matches_at(s, loopback_prefix(), j) by {
        if matches_at(s, loopback_prefix(), j) {
            let w = s.subrange(j, j + 17);
            assert(w[0] == s[j]);
            assert(w[1] == s[j + 1]);
            assert(s[j] == s.subrange(0, 9)[j]);
            if j + 1 < 9 {
                assert(s[j + 1] == s.subrange(0, 9)[j + 1]);
            }
        }
    }
}

/// The canonical readiness line `dsh web: http://127.0.0.1:<port>` announces
/// `http://127.0.0.1:<port>` for every valid port.
#[verifier::rlimit(30)]
pub proof fn lemma_canonical_banner(p: nat)
    requires
        1 <= p <= 65535,
    ensures
        readiness_origin(banner_prefix() + loopback_origin(p)) == Some(loopback_origin(p)),
{
    let d = decimal(p);
    let s = banner_prefix() + (loopback_prefix() + d);
    lemma_decimal_round_trip(p);
    lemma_origin_has_no_line_end(banner_prefix() + loopback_prefix(), p);
    assert(s =~= (banner_prefix() + loopback_prefix()) + d);
    assert(s.subrange(0, 9) =~= banner_prefix());
    lemma_banner_has_no_match(s);
    assert(s.subrange(9, 26) =~= loopback_prefix());
    lemma_find_first_match(s, loopback_prefix(), 0, 9);
    let start: nat = 26;
    assert forall|j: int| start <= j < s.len() implies is_ascii_digit(#[trigger] s[j]) by {
        assert(s[j] == d[j - 26]);
    }
    lemma_digits_end_of_run(s, start, s.len());
    assert(s.subrange(26, s.len() as int) =~= d);
}

} // verus!
