//! Pure text helpers: decimal rendering and parsing of ids, user-mention
//! syntax, permission-key scrubbing, and the surface shape of a move in
//! standard algebraic notation.

use vstd::prelude::*;
use vstd::string::StrSliceExecFns;
use vstd::string::StringExecFns;

verus! {

/// The decimal digit characters `0` to `9`.
pub open spec fn is_dec_digit(c: char) -> bool {
    48 <= c as u32 <= 57
}

pub open spec fn digit_char(d: int) -> char {
    if d == 0 {
        '0'
    } else if d == 1 {
        '1'
    } else if d == 2 {
        '2'
    } else if d == 3 {
        '3'
    } else if d == 4 {
        '4'
    } else if d == 5 {
        '5'
    } else if d == 6 {
        '6'
    } else if d == 7 {
        '7'
    } else if d == 8 {
        '8'
    } else {
        '9'
    }
}

pub open spec fn digit_val(c: char) -> int {
    c as u32 - 48
}

/// The decimal rendering of `n`, most significant digit first, no sign,
/// no leading zeroes (a lone zero for 0).
pub open spec fn dec_digits(n: int) -> Seq<char>
    decreases n,
{
    if n < 10 {
        seq![digit_char(n)]
    } else {
        dec_digits(n / 10).push(digit_char(n % 10))
    }
}

/// The number a digit string denotes.
pub open spec fn dec_val(s: Seq<char>) -> int
    decreases s.len(),
{
    if s.len() == 0 {
        0
    } else {
        dec_val(s.drop_last()) * 10 + digit_val(s.last())
    }
}

pub open spec fn all_dec_digits(s: Seq<char>) -> bool {
    forall|i: int| 0 <= i < s.len() ==> is_dec_digit(#[trigger] s[i])
}

fn push_digit(s: &mut String, d: u64)
    requires
        d < 10,
    ensures
        final(s)@ == old(s)@.push(digit_char(d as int)),
{
    let t: &str = if d == 0 {
        "0"
    } else if d == 1 {
        "1"
    } else if d == 2 {
        "2"
    } else if d == 3 {
        "3"
    } else if d == 4 {
        "4"
    } else if d == 5 {
        "5"
    } else if d == 6 {
        "6"
    } else if d == 7 {
        "7"
    } else if d == 8 {
        "8"
    } else {
        "9"
    };
    proof {
        reveal_strlit("0");
        reveal_strlit("1");
        reveal_strlit("2");
        reveal_strlit("3");
        reveal_strlit("4");
        reveal_strlit("5");
        reveal_strlit("6");
        reveal_strlit("7");
        reveal_strlit("8");
        reveal_strlit("9");
        assert(t@ =~= seq![digit_char(d as int)]);
    }
    s.append(t);
    proof {
        assert(final(s)@ =~= old(s)@.push(digit_char(d as int)));
    }
}

/// Render an id in decimal, as it appears inside permission keys.
pub fn u64_to_dec(n: u64) -> (r: String)
    ensures
        r@ == dec_digits(n as int),
    decreases n,
{
    if n < 10 {
        let mut s = String::new();
        push_digit(&mut s, n);
        proof {
            assert(s@ =~= dec_digits(n as int));
        }
        s
    } else {
        let mut s = u64_to_dec(n / 10);
        push_digit(&mut s, n % 10);
        s
    }
}

/// The id named by a user mention: `<@123>` or `<@!123>`, digits only,
/// in range for an id; anything else names nothing.
pub open spec fn mention_id(s: Seq<char>) -> Option<u64> {
    if s.len() >= 4 && s[0] == '<' && s[1] == '@' && s[s.len() - 1] == '>' {
        let inner = s.subrange(2, s.len() - 1);
        let digits = if inner[0] == '!' {
            inner.subrange(1, inner.len() as int)
        } else {
            inner
        };
        if digits.len() > 0 && all_dec_digits(digits) && dec_val(digits) <= u64::MAX {
            Some(dec_val(digits) as u64)
        } else {
            None
        }
    } else {
        None
    }
}

/// Parse a user mention.
#[verifier::loop_isolation(false)]
pub fn parse_mention(s: &str) -> (r: Option<u64>)
    ensures
        r == mention_id(s@),
{
    let n = s.unicode_len();
    if n < 4 || s.get_char(0) != '<' || s.get_char(1) != '@' || s.get_char(n - 1) != '>' {
        return None;
    }
    let start: usize = if s.get_char(2) == '!' {
        3
    } else {
        2
    };
    let ghost inner = s@.subrange(2, s@.len() - 1);
    let ghost digits = if inner[0] == '!' {
        inner.subrange(1, inner.len() as int)
    } else {
        inner
    };
    proof {
        assert(digits =~= s@.subrange(start as int, n - 1));
    }
    if start == n - 1 {
        return None;
    }
    let mut acc: u128 = 0;
    let mut i: usize = start;
    while i < n - 1
        invariant
            start <= i <= n - 1,
            n == s@.len(),
            4 <= n,
            start == 3 || start == 2,
            digits =~= s@.subrange(start as int, n - 1),
            all_dec_digits(s@.subrange(start as int, i as int)),
            dec_val(s@.subrange(start as int, i as int)) <= u64::MAX ==> acc == dec_val(
                s@.subrange(start as int, i as int),
            ),
            dec_val(s@.subrange(start as int, i as int)) > u64::MAX ==> acc == u64::MAX as u128
                + 1,
            acc <= u64::MAX as u128 + 1,
        decreases n - 1 - i,
    {
        let c = s.get_char(i);
        let code: u32 = c as u32;
        if code < 48 || code > 57 {
            proof {
                assert(digits[i - start] == s@[i as int]);
                assert(!all_dec_digits(digits));
            }
            return None;
        }
        let d: u128 = (code - 48) as u128;
        let ghost pre = s@.subrange(start as int, i as int);
        let ghost cur = s@.subrange(start as int, i + 1 as int);
        proof {
            assert(cur.drop_last() =~= pre);
            assert(cur.last() == c);
        }
        let mut next: u128 = acc * 10 + d;
        if next > u64::MAX as u128 {
            next = u64::MAX as u128 + 1;
        }
        proof {
            if dec_val(pre) > u64::MAX {
                assert(dec_val(cur) == dec_val(pre) * 10 + digit_val(c));
                assert(dec_val(pre) * 10 >= dec_val(pre));
                assert(dec_val(cur) > u64::MAX);
            }
        }
        acc = next;
        i = i + 1;
    }
    proof {
        assert(s@.subrange(start as int, i as int) =~= digits);
    }
    if acc > u64::MAX as u128 {
        None
    } else {
        Some(acc as u64)
    }
}

/// Characters scrubbed out of a permission key before it is used:
/// mention punctuation and spaces.
pub open spec fn is_key_noise(c: char) -> bool {
    c == '<' || c == '>' || c == '!' || c == ' '
}

/// The key with all noise characters removed; order otherwise kept.
pub open spec fn scrubbed(s: Seq<char>) -> Seq<char>
    decreases s.len(),
{
    if s.len() == 0 {
        Seq::empty()
    } else if is_key_noise(s.last()) {
        scrubbed(s.drop_last())
    } else {
        scrubbed(s.drop_last()).push(s.last())
    }
}

/// Remove mention punctuation and spaces from a key.
pub fn scrub_key(s: &str) -> (r: String)
    ensures
        r@ == scrubbed(s@),
{
    let n = s.unicode_len();
    let mut r = String::new();
    let mut i: usize = 0;
    while i < n
        invariant
            i <= n,
            n == s@.len(),
            r@ == scrubbed(s@.subrange(0, i as int)),
        decreases n - i,
    {
        let c = s.get_char(i);
        if !(c == '<' || c == '>' || c == '!' || c == ' ') {
            let piece = s.substring_char(i, i + 1);
            r.append(piece);
        }
        proof {
            let pre = s@.subrange(0, i as int);
            let cur = s@.subrange(0, i + 1 as int);
            assert(cur.drop_last() =~= pre);
            assert(cur.last() == s@[i as int]);
            if !is_key_noise(s@[i as int]) {
                assert(r@ =~= scrubbed(pre).push(s@[i as int]));
            }
        }
        i = i + 1;
    }
    proof {
        assert(s@.subrange(0, n as int) =~= s@);
    }
    r
}

/// A capture move is written with an `x`.
pub open spec fn has_capture_marker(s: Seq<char>) -> bool {
    exists|i: int| 0 <= i < s.len() && s[i] == 'x'
}

/// Whether the move text marks a capture.
pub fn marks_capture(s: &str) -> (r: bool)
    ensures
        r == has_capture_marker(s@),
{
    let n = s.unicode_len();
    let mut i: usize = 0;
    while i < n
        invariant
            i <= n,
            n == s@.len(),
            forall|j: int| 0 <= j < i ==> s@[j] != 'x',
        decreases n - i,
    {
        if s.get_char(i) == 'x' {
            return true;
        }
        i = i + 1;
    }
    false
}

pub open spec fn is_piece_char(c: char) -> bool {
    c == 'K' || c == 'Q' || c == 'B' || c == 'N' || c == 'R'
}

/// Board files `a` to `h`.
pub open spec fn is_file_char(c: char) -> bool {
    97 <= c as u32 <= 104
}

/// Board ranks `1` to `8`.
pub open spec fn is_rank_char(c: char) -> bool {
    49 <= c as u32 <= 56
}

pub open spec fn is_promo_piece(c: char) -> bool {
    c == 'Q' || c == 'B' || c == 'N' || c == 'R'
}

pub open spec fn ep_suffix() -> Seq<char> {
    seq![' ', 'e', '.', 'p', '.']
}

/// The text with a trailing ` e.p.` marker removed.
pub open spec fn strip_ep(s: Seq<char>) -> Seq<char> {
    if s.len() >= 5 && s.subrange(s.len() - 5, s.len() as int) == ep_suffix() {
        s.subrange(0, s.len() - 5)
    } else {
        s
    }
}

/// The text with a trailing check or checkmate marker removed.
pub open spec fn strip_check(s: Seq<char>) -> Seq<char> {
    if s.len() >= 1 && (s.last() == '+' || s.last() == '#') {
        s.drop_last()
    } else {
        s
    }
}

/// The text with a trailing promotion marker removed.
pub open spec fn strip_promo(s: Seq<char>) -> Seq<char> {
    if s.len() >= 2 && s[s.len() - 2] == '=' && is_promo_piece(s.last()) {
        s.subrange(0, s.len() - 2)
    } else {
        s
    }
}

/// An optional piece letter, an optional source file, an optional source
/// rank and an optional capture marker, in that order and nothing else.
/// The four classes share no characters, so reading left to right is
/// unambiguous.
pub open spec fn source_prefix_ok(p: Seq<char>) -> bool {
    let i1: int = if p.len() > 0 && is_piece_char(p[0]) {
        1
    } else {
        0
    };
    let i2: int = if p.len() > i1 && is_file_char(p[i1]) {
        i1 + 1
    } else {
        i1
    };
    let i3: int = if p.len() > i2 && is_rank_char(p[i2]) {
        i2 + 1
    } else {
        i2
    };
    let i4: int = if p.len() > i3 && p[i3] == 'x' {
        i3 + 1
    } else {
        i3
    };
    i4 == p.len()
}

pub open spec fn castle_shape(s: Seq<char>) -> bool {
    s == seq!['O', '-', 'O'] || s == seq!['O', '-', 'O', '-', 'O']
}

/// An ordinary move: optional source description, a full destination
/// square, then optional promotion, check and en-passant markers.
pub open spec fn san_move_shape(s: Seq<char>) -> bool {
    let t = strip_promo(strip_check(strip_ep(s)));
    &&& t.len() >= 2
    &&& is_file_char(t[t.len() - 2])
    &&& is_rank_char(t[t.len() - 1])
    &&& source_prefix_ok(t.subrange(0, t.len() - 2))
}

/// The surface shape of a move submission: what the session even tries
/// to hand to the engine's parser.  Text of any other shape is ill
/// formed.
pub open spec fn san_shaped(s: Seq<char>) -> bool {
    castle_shape(s) || san_move_shape(s)
}

/// Decide whether the text is a castle.
fn is_castle(s: &str) -> (r: bool)
    ensures
        r == castle_shape(s@),
{
    let n = s.unicode_len();
    if n == 3 && s.get_char(0) == 'O' && s.get_char(1) == '-' && s.get_char(2) == 'O' {
        proof {
            assert(s@ =~= seq!['O', '-', 'O']);
        }
        true
    } else if n == 5 && s.get_char(0) == 'O' && s.get_char(1) == '-' && s.get_char(2) == 'O'
        && s.get_char(3) == '-' && s.get_char(4) == 'O' {
        proof {
            assert(s@ =~= seq!['O', '-', 'O', '-', 'O']);
        }
        true
    } else {
        false
    }
}

/// Drop the optional en-passant, check and promotion markers from the
/// end, in that order, and say where the rest ends.
fn strip_marker_suffixes(s: &str) -> (e: usize)
    ensures
        e <= s@.len(),
        strip_promo(strip_check(strip_ep(s@))) == s@.subrange(0, e as int),
{
    let n = s.unicode_len();
    let mut e: usize = n;
    if e >= 5 && s.get_char(e - 5) == ' ' && s.get_char(e - 4) == 'e' && s.get_char(e - 3) == '.'
        && s.get_char(e - 2) == 'p' && s.get_char(e - 1) == '.' {
        proof {
            assert(s@.subrange(e - 5, e as int) =~= ep_suffix());
        }
        e = e - 5;
    }
    proof {
        assert(strip_ep(s@) =~= s@.subrange(0, e as int));
    }
    let ghost t1 = strip_ep(s@);
    if e >= 1 && (s.get_char(e - 1) == '+' || s.get_char(e - 1) == '#') {
        e = e - 1;
    }
    proof {
        assert(strip_check(t1) =~= s@.subrange(0, e as int));
    }
    let ghost t2 = strip_check(t1);
    if e >= 2 && s.get_char(e - 2) == '=' && {
        let c = s.get_char(e - 1);
        c == 'Q' || c == 'B' || c == 'N' || c == 'R'
    } {
        e = e - 2;
    }
    proof {
        assert(strip_promo(t2) =~= s@.subrange(0, e as int));
    }
    e
}

/// Scan an optional piece letter, source file, source rank and capture
/// marker covering exactly the first `plen` characters.
fn scan_source_prefix(s: &str, plen: usize) -> (r: bool)
    requires
        plen <= s@.len(),
    ensures
        r == source_prefix_ok(s@.subrange(0, plen as int)),
{
    let ghost p = s@.subrange(0, plen as int);
    let mut i: usize = 0;
    if i < plen && {
        let c = s.get_char(i);
        c == 'K' || c == 'Q' || c == 'B' || c == 'N' || c == 'R'
    } {
        i = i + 1;
    }
    if i < plen && {
        let c = s.get_char(i) as u32;
        97 <= c && c <= 104
    } {
        i = i + 1;
    }
    if i < plen && {
        let c = s.get_char(i) as u32;
        49 <= c && c <= 56
    } {
        i = i + 1;
    }
    if i < plen && s.get_char(i) == 'x' {
        i = i + 1;
    }
    i == plen
}

/// Decide whether the text is shaped like a move.
pub fn is_san_shaped(s: &str) -> (r: bool)
    ensures
        r == san_shaped(s@),
{
    if is_castle(s) {
        return true;
    }
    let e = strip_marker_suffixes(s);
    let ghost t = strip_promo(strip_check(strip_ep(s@)));
    if e < 2 {
        return false;
    }
    let df: u32 = s.get_char(e - 2) as u32;
    let dr: u32 = s.get_char(e - 1) as u32;
    if !(97 <= df && df <= 104 && 49 <= dr && dr <= 56) {
        return false;
    }
    proof {
        assert(t.subrange(0, t.len() - 2) =~= s@.subrange(0, (e - 2) as int));
    }
    scan_source_prefix(s, e - 2)
}

} // verus!
