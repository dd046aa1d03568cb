//! Small verified string helpers shared across the crate: character
//! classification, equality on string slices, and decimal formatting and
//! parsing of unsigned integers.

use vstd::prelude::*;

verus! {

/// Whether `c` is an ASCII decimal digit.
pub open spec fn spec_is_digit(c: char) -> bool {
    '0' <= c && c <= '9'
}

/// Numeric value of an ASCII decimal digit.
pub open spec fn spec_digit_value(c: char) -> nat
    recommends
        spec_is_digit(c),
{
    (c as nat - '0' as nat) as nat
}

/// Whether `c` is an ASCII decimal digit.
pub fn is_digit(c: char) -> (r: bool)
    ensures
        r == spec_is_digit(c),
{
    '0' <= c && c <= '9'
}

/// The ASCII digit character for a value below ten.
pub open spec fn spec_digit_char(d: nat) -> char
    recommends
        d < 10,
{
    if d == 0 {
        '0'
    } else if d == 1 {
        '1'
    } else if d == 2 {
        '2'
    } else if d == 3 {
        '3'
    } else if d == 4 {
        '4'
    } else if d == 5 {
        '5'
    } else if d == 6 {
        '6'
    } else if d == 7 {
        '7'
    } else if d == 8 {
        '8'
    } else {
        '9'
    }
}

/// The decimal representation of `n`, most significant digit first,
/// without leading zeros (a single `'0'` for zero).
pub open spec fn spec_decimal(n: nat) -> Seq<char>
    decreases n,
{
    if n < 10 {
        seq![spec_digit_char(n)]
    } else {
        spec_decimal(n / 10).push(spec_digit_char(n % 10))
    }
}

/// The single-character string for a digit value.
fn digit_str(d: u64) -> (r: &'static str)
    requires
        d < 10,
    ensures
        r@ == seq![spec_digit_char(d as nat)],
{
    proof {
        reveal_strlit("0");
        reveal_strlit("1");
        reveal_strlit("2");
        reveal_strlit("3");
        reveal_strlit("4");
        reveal_strlit("5");
        reveal_strlit("6");
        reveal_strlit("7");
        reveal_strlit("8");
        reveal_strlit("9");
    }
    let r = if d == 0 {
        "0"
    } else if d == 1 {
        "1"
    } else if d == 2 {
        "2"
    } else if d == 3 {
        "3"
    } else if d == 4 {
        "4"
    } else if d == 5 {
        "5"
    } else if d == 6 {
        "6"
    } else if d == 7 {
        "7"
    } else if d == 8 {
        "8"
    } else {
        "9"
    };
    proof {
        assert(r@ =~= seq![spec_digit_char(d as nat)]);
    }
    r
}

/// Format `n` in decimal.
pub fn u64_to_string(n: u64) -> (s: String)
    ensures
        s@ == spec_decimal(n as nat),
    decreases n,
{
    if n < 10 {
        digit_str(n).to_owned()
    } else {
        let mut s = u64_to_string(n / 10);
        s.append(digit_str(n % 10));
        proof {
            assert(s@ =~= spec_decimal(n as nat));
        }
        s
    }
}

/// Reading a decimal rendering back gives the value it renders: the
/// rendering is a non-empty digit string denoting exactly `n`. (So two
/// different values never share a rendering.)
pub proof fn lemma_decimal_value_round_trip(n: nat)
    ensures
        spec_decimal(n).len() > 0,
        spec_all_digits(spec_decimal(n)),
        spec_digits_value(spec_decimal(n)) == n,
    decreases n,
{
    if n < 10 {
        assert(spec_decimal(n) =~= seq![spec_digit_char(n)]);
        assert(spec_decimal(n).drop_last() =~= Seq::<char>::empty());
        assert(spec_digit_value(spec_digit_char(n)) == n);
        assert(spec_digits_value(spec_decimal(n)) == spec_digits_value(
            spec_decimal(n).drop_last(),
        ) * 10 + spec_digit_value(spec_decimal(n).last()));
    } else {
        lemma_decimal_value_round_trip(n / 10);
        let whole = spec_decimal(n);
        assert(whole.drop_last() =~= spec_decimal(n / 10));
        assert(whole.last() == spec_digit_char(n % 10));
        assert(spec_digit_value(spec_digit_char(n % 10)) == n % 10);
        assert(spec_digits_value(whole) == spec_digits_value(spec_decimal(n / 10)) * 10
            + spec_digit_value(spec_digit_char(n % 10)));
        assert(n == (n / 10) * 10 + n % 10) by (nonlinear_arith);
        assert(forall|i: int|
            0 <= i < whole.len() ==> spec_is_digit(#[trigger] whole[i]));
    }
}

/// Split at the first occurrence of `sep`: the part before it and the
/// part after it, or nothing when `sep` does not occur.
pub open spec fn spec_split_once(s: Seq<char>, sep: char) -> Option<(Seq<char>, Seq<char>)>
    decreases s.len(),
{
    if s.len() == 0 {
        None
    } else if s.first() == sep {
        Some((Seq::empty(), s.drop_first()))
    } else {
        match spec_split_once(s.drop_first(), sep) {
            None => None,
            Some(kv) => Some((seq![s.first()] + kv.0, kv.1)),
        }
    }
}

/// When `j` is the first index holding `sep`, the split is the text
/// before and after that index.
proof fn lemma_split_once_at(s: Seq<char>, sep: char, j: int)
    requires
        0 <= j < s.len(),
        s[j] == sep,
        forall|i: int| 0 <= i < j ==> s[i] != sep,
    ensures
        spec_split_once(s, sep) == Some((s.take(j), s.skip(j + 1))),
    decreases s.len(),
{
    if j == 0 {
        assert(s.take(0) =~= Seq::<char>::empty());
        assert(s.skip(1) =~= s.drop_first());
    } else {
        lemma_split_once_at(s.drop_first(), sep, j - 1);
        assert(seq![s.first()] + s.drop_first().take(j - 1) =~= s.take(j));
        assert(s.drop_first().skip(j) =~= s.skip(j + 1));
    }
}

/// Without an occurrence of `sep` there is no split.
proof fn lemma_split_once_none(s: Seq<char>, sep: char)
    requires
        forall|i: int| 0 <= i < s.len() ==> s[i] != sep,
    ensures
        spec_split_once(s, sep) is None,
    decreases s.len(),
{
    if s.len() > 0 {
        lemma_split_once_none(s.drop_first(), sep);
    }
}

/// Split a string at the first occurrence of `sep`.
pub fn split_once_char(s: &str, sep: char) -> (r: Option<(String, String)>)
    ensures
        r is Some <==> spec_split_once(s@, sep) is Some,
        r matches Some(kv) ==> spec_split_once(s@, sep) == Some((kv.0@, kv.1@)),
{
    let n = s.unicode_len();
    let mut i: usize = 0;
    while i < n
        invariant
            0 <= i <= n == s@.len(),
            forall|j: int| 0 <= j < i ==> s@[j] != sep,
        decreases n - i,
    {
        if s.get_char(i) == sep {
            let before = s.substring_char(0, i).to_owned();
            let after = s.substring_char(i + 1, n).to_owned();
            proof {
                lemma_split_once_at(s@, sep, i as int);
                assert(s@.subrange(0, i as int) =~= s@.take(i as int));
                assert(s@.subrange(i as int + 1, n as int) =~= s@.skip(i as int + 1));
            }
            return Some((before, after));
        }
        i = i + 1;
    }
    proof {
        lemma_split_once_none(s@, sep);
    }
    None
}

/// Whether a digit-sequence is a non-empty run of digits whose value
/// fits in a `u64`.
pub open spec fn spec_is_u64_digits(s: Seq<char>) -> bool {
    s.len() > 0 && spec_all_digits(s) && spec_digits_value(s) <= u64::MAX
}

/// The three numbers of a dotted version triple `X.Y.Z`, when the text
/// has exactly that shape.
pub open spec fn spec_parse_triple(v: Seq<char>) -> Option<(u64, u64, u64)> {
    let parts = spec_split_char(v, '.');
    if parts.len() == 3 && spec_is_u64_digits(parts[0]) && spec_is_u64_digits(parts[1])
        && spec_is_u64_digits(parts[2]) {
        Some(
            (
                spec_digits_value(parts[0]) as u64,
                spec_digits_value(parts[1]) as u64,
                spec_digits_value(parts[2]) as u64,
            ),
        )
    } else {
        None
    }
}

/// Parse a dotted version triple `X.Y.Z`.
pub fn parse_triple(v: &str) -> (r: Option<(u64, u64, u64)>)
    ensures
        r == spec_parse_triple(v@),
{
    let parts = split_char(v, '.');
    if parts.len() != 3 {
        return None;
    }
    proof {
        assert(parts.deep_view()[0] == parts@[0]@);
        assert(parts.deep_view()[1] == parts@[1]@);
        assert(parts.deep_view()[2] == parts@[2]@);
    }
    let a = parse_u64(parts[0].as_str());
    let b = parse_u64(parts[1].as_str());
    let c = parse_u64(parts[2].as_str());
    match (a, b, c) {
        (Some(x), Some(y), Some(z)) => Some((x, y, z)),
        _ => None,
    }
}

/// Equality of two string slices.
pub fn str_eq(a: &str, b: &str) -> (r: bool)
    ensures
        r == (a@ == b@),
{
    let sa = a.to_owned();
    let sb = b.to_owned();
    sa.eq(&sb)
}

/// Relies on `String`'s `FromIterator` impl: collecting a vector of
/// characters yields the string of exactly those characters, in order.
#[verifier::external_body]
pub(crate) fn chars_to_string(cs: &Vec<char>) -> (r: String)
    ensures
        r@ == cs@,
{
    cs.iter().collect()
}

/// Whether `c` is a white-space character (the Unicode White_Space set).
pub open spec fn spec_is_ws(c: char) -> bool {
    ||| ('\t' <= c && c <= '\r')
    ||| c == ' '
    ||| c == '\u{85}'
    ||| c == '\u{a0}'
    ||| c == '\u{1680}'
    ||| ('\u{2000}' <= c && c <= '\u{200a}')
    ||| c == '\u{2028}'
    ||| c == '\u{2029}'
    ||| c == '\u{202f}'
    ||| c == '\u{205f}'
    ||| c == '\u{3000}'
}

/// Whether `c` is a white-space character (the Unicode White_Space set).
pub fn is_ws(c: char) -> (r: bool)
    ensures
        r == spec_is_ws(c),
{
    ('\t' <= c && c <= '\r') || c == ' ' || c == '\u{85}' || c == '\u{a0}'
        || c == '\u{1680}' || ('\u{2000}' <= c && c <= '\u{200a}') || c == '\u{2028}'
        || c == '\u{2029}' || c == '\u{202f}' || c == '\u{205f}' || c == '\u{3000}'
}

/// `s` without leading and trailing ASCII whitespace.
pub open spec fn spec_trim(s: Seq<char>) -> Seq<char>
    decreases s.len(),
{
    if s.len() == 0 {
        s
    } else if spec_is_ws(s.first()) {
        spec_trim(s.drop_first())
    } else if spec_is_ws(s.last()) {
        spec_trim(s.drop_last())
    } else {
        s
    }
}

/// Strip leading and trailing ASCII whitespace.
pub fn trim_str(s: &str) -> (r: String)
    ensures
        r@ == spec_trim(s@),
{
    let n = s.unicode_len();
    proof {
        assert(s@.subrange(0, n as int) =~= s@);
    }
    let mut lo: usize = 0;
    while lo < n && is_ws(s.get_char(lo))
        invariant
            0 <= lo <= n == s@.len(),
            spec_trim(s@) == spec_trim(s@.subrange(lo as int, n as int)),
        decreases n - lo,
    {
        proof {
            assert(s@.subrange(lo as int, n as int).drop_first() =~= s@.subrange(
                lo as int + 1,
                n as int,
            ));
        }
        lo = lo + 1;
    }
    proof {
        assert(s@.subrange(0, n as int) =~= s@);
    }
    let mut hi: usize = n;
    while hi > lo && is_ws(s.get_char(hi - 1))
        invariant
            0 <= lo <= hi <= n == s@.len(),
            lo < n ==> !spec_is_ws(s@[lo as int]),
            spec_trim(s@) == spec_trim(s@.subrange(lo as int, hi as int)),
        decreases hi,
    {
        proof {
            assert(s@.subrange(lo as int, hi as int).drop_last() =~= s@.subrange(
                lo as int,
                hi as int - 1,
            ));
        }
        hi = hi - 1;
    }
    let region = s.substring_char(lo, hi);
    proof {
        if lo < hi {
            assert(!spec_is_ws(s@.subrange(lo as int, hi as int).first()));
            assert(!spec_is_ws(s@.subrange(lo as int, hi as int).last()));
        }
        assert(spec_trim(s@.subrange(lo as int, hi as int)) == s@.subrange(
            lo as int,
            hi as int,
        ));
    }
    region.to_owned()
}

/// `s` without leading and trailing copies of `c`.
pub open spec fn spec_trim_char(s: Seq<char>, c: char) -> Seq<char>
    decreases s.len(),
{
    if s.len() == 0 {
        s
    } else if s.first() == c {
        spec_trim_char(s.drop_first(), c)
    } else if s.last() == c {
        spec_trim_char(s.drop_last(), c)
    } else {
        s
    }
}

/// Strip leading and trailing copies of `c`.
pub fn trim_char(s: &str, c: char) -> (r: String)
    ensures
        r@ == spec_trim_char(s@, c),
{
    let n = s.unicode_len();
    proof {
        assert(s@.subrange(0, n as int) =~= s@);
    }
    let mut lo: usize = 0;
    while lo < n && s.get_char(lo) == c
        invariant
            0 <= lo <= n == s@.len(),
            spec_trim_char(s@, c) == spec_trim_char(s@.subrange(lo as int, n as int), c),
        decreases n - lo,
    {
        proof {
            assert(s@.subrange(lo as int, n as int).drop_first() =~= s@.subrange(
                lo as int + 1,
                n as int,
            ));
        }
        lo = lo + 1;
    }
    let mut hi: usize = n;
    while hi > lo && s.get_char(hi - 1) == c
        invariant
            0 <= lo <= hi <= n == s@.len(),
            lo < n ==> s@[lo as int] != c,
            spec_trim_char(s@, c) == spec_trim_char(s@.subrange(lo as int, hi as int), c),
        decreases hi,
    {
        proof {
            assert(s@.subrange(lo as int, hi as int).drop_last() =~= s@.subrange(
                lo as int,
                hi as int - 1,
            ));
        }
        hi = hi - 1;
    }
    let region = s.substring_char(lo, hi);
    proof {
        if lo < hi {
            assert(s@.subrange(lo as int, hi as int).first() != c);
            assert(s@.subrange(lo as int, hi as int).last() != c);
        }
        assert(spec_trim_char(s@.subrange(lo as int, hi as int), c) == s@.subrange(
            lo as int,
            hi as int,
        ));
    }
    region.to_owned()
}

/// ASCII lowering of one character.
pub open spec fn spec_lower_char(c: char) -> char {
    if 'A' <= c && c <= 'Z' {
        ((c as u8) + 32) as char
    } else {
        c
    }
}

/// ASCII lowering of a character sequence.
pub open spec fn spec_lower(s: Seq<char>) -> Seq<char> {
    s.map_values(|c: char| spec_lower_char(c))
}

/// ASCII lowering of one character.
pub fn lower_char(c: char) -> (r: char)
    ensures
        r == spec_lower_char(c),
{
    if 'A' <= c && c <= 'Z' {
        ((c as u8) + 32) as char
    } else {
        c
    }
}

/// ASCII lowering of a string.
pub fn lower_str(s: &str) -> (r: String)
    ensures
        r@ == spec_lower(s@),
{
    let n = s.unicode_len();
    let mut cs: Vec<char> = Vec::new();
    let mut i: usize = 0;
    while i < n
        invariant
            0 <= i <= n == s@.len(),
            cs@ == spec_lower(s@.take(i as int)),
        decreases n - i,
    {
        cs.push(lower_char(s.get_char(i)));
        proof {
            assert(cs@ =~= spec_lower(s@.take(i as int + 1)));
        }
        i = i + 1;
    }
    proof {
        assert(spec_lower(s@.take(n as int)) =~= spec_lower(s@));
    }
    chars_to_string(&cs)
}

/// Case-insensitive (ASCII) equality of two strings.
pub fn eq_ignore_ascii_case(a: &str, b: &str) -> (r: bool)
    ensures
        r == (spec_lower(a@) == spec_lower(b@)),
{
    let la = lower_str(a);
    let lb = lower_str(b);
    la.eq(&lb)
}

/// A string of `n` copies of `c`.
pub fn repeat_char(c: char, n: usize) -> (r: String)
    ensures
        r@ == Seq::new(n as nat, |i: int| c),
{
    let mut cs: Vec<char> = Vec::new();
    let mut i: usize = 0;
    while i < n
        invariant
            0 <= i <= n,
            cs@ == Seq::new(i as nat, |j: int| c),
        decreases n - i,
    {
        cs.push(c);
        proof {
            assert(cs@ =~= Seq::new(i as nat + 1, |j: int| c));
        }
        i = i + 1;
    }
    chars_to_string(&cs)
}

/// Split a character sequence at every occurrence of `sep`, keeping
/// empty segments: an empty input gives one empty segment, a trailing
/// separator a trailing empty segment.
pub open spec fn spec_split_char(s: Seq<char>, sep: char) -> Seq<Seq<char>>
    decreases s.len(),
{
    if s.len() == 0 {
        seq![s]
    } else {
        let rest = spec_split_char(s.drop_last(), sep);
        if s.last() == sep {
            rest.push(Seq::empty())
        } else {
            rest.update(rest.len() - 1, rest.last().push(s.last()))
        }
    }
}

/// Split a string at every occurrence of `sep`.
pub fn split_char(s: &str, sep: char) -> (r: Vec<String>)
    ensures
        r.deep_view() == spec_split_char(s@, sep),
        r@.len() >= 1,
{
    let n = s.unicode_len();
    let mut out: Vec<String> = Vec::new();
    let mut cur: String = String::new();
    let mut i: usize = 0;
    proof {
        assert(out.deep_view().push(cur@) =~~= spec_split_char(s@.take(0), sep));
    }
    while i < n
        invariant
            0 <= i <= n == s@.len(),
            out.deep_view().push(cur@) == spec_split_char(s@.take(i as int), sep),
        decreases n - i,
    {
        let c = s.get_char(i);
        proof {
            assert(s@.take(i as int + 1).drop_last() =~= s@.take(i as int));
            assert(s@.take(i as int + 1).last() == s@[i as int]);
        }
        if c == sep {
            let ghost prev = out.deep_view();
            let ghost curv = cur@;
            out.push(cur);
            cur = String::new();
            proof {
                assert(out.deep_view() =~~= prev.push(curv));
                assert(out.deep_view().push(cur@) =~~= spec_split_char(
                    s@.take(i as int + 1),
                    sep,
                ));
            }
        } else {
            let ghost prev = out.deep_view();
            let ghost curv = cur@;
            let mut one: Vec<char> = Vec::new();
            one.push(c);
            cur.append(chars_to_string(&one).as_str());
            proof {
                assert(cur@ =~= curv.push(c));
                let sp = spec_split_char(s@.take(i as int), sep);
                assert(prev.push(curv).last() == curv);
                assert(prev.push(curv).update(prev.push(curv).len() - 1, curv.push(c))
                    =~~= prev.push(curv.push(c)));
                assert(out.deep_view().push(cur@) =~~= spec_split_char(
                    s@.take(i as int + 1),
                    sep,
                ));
            }
        }
        i = i + 1;
    }
    proof {
        assert(s@.take(n as int) =~= s@);
    }
    let ghost prev = out.deep_view();
    let ghost curv = cur@;
    out.push(cur);
    proof {
        assert(out.deep_view() =~~= prev.push(curv));
    }
    out
}

/// Whether every character of `s` is an ASCII decimal digit.
pub open spec fn spec_all_digits(s: Seq<char>) -> bool {
    forall|i: int| 0 <= i < s.len() ==> spec_is_digit(s[i])
}

/// The numeric value of a sequence of decimal digits (empty reads as zero).
pub open spec fn spec_digits_value(s: Seq<char>) -> nat
    decreases s.len(),
{
    if s.len() == 0 {
        0
    } else {
        spec_digits_value(s.drop_last()) * 10 + spec_digit_value(s.last())
    }
}

/// A digit string's value never shrinks when more digits follow.
proof fn lemma_digits_value_prefix_mono(s: Seq<char>, i: int)
    requires
        0 <= i <= s.len(),
    ensures
        spec_digits_value(s.take(i)) <= spec_digits_value(s),
    decreases s.len() - i,
{
    if i == s.len() {
        assert(s.take(i) =~= s);
    } else {
        assert(s.take(i + 1).drop_last() =~= s.take(i));
        assert(spec_digits_value(s.take(i + 1)) == spec_digits_value(s.take(i)) * 10
            + spec_digit_value(s.take(i + 1).last()));
        lemma_digits_value_prefix_mono(s, i + 1);
    }
}

/// Parse a string of ASCII decimal digits. Returns the value when the
/// string is non-empty, consists of digits only, and the value fits in a
/// `u64`; returns `None` otherwise.
pub fn parse_u64(s: &str) -> (r: Option<u64>)
    ensures
        r is Some <==> (s@.len() > 0 && spec_all_digits(s@) && spec_digits_value(s@)
            <= u64::MAX),
        r matches Some(v) ==> v == spec_digits_value(s@),
{
    let n = s.unicode_len();
    if n == 0 {
        return None;
    }
    let mut acc: u64 = 0;
    let mut i: usize = 0;
    while i < n
        invariant
            0 < n == s@.len(),
            0 <= i <= n,
            spec_all_digits(s@.take(i as int)),
            acc == spec_digits_value(s@.take(i as int)),
        decreases n - i,
    {
        let c = s.get_char(i);
        if !is_digit(c) {
            return None;
        }
        let d: u64 = (c as u32 as u64) - 48;
        assert(d == spec_digit_value(c));
        if acc > (u64::MAX - d) / 10 {
            proof {
                assert(s@.take(i as int + 1).drop_last() =~= s@.take(i as int));
                assert(spec_digits_value(s@.take(i as int + 1)) == acc * 10 + d);
                assert(acc * 10 + d > u64::MAX) by (nonlinear_arith)
                    requires
                        acc > (u64::MAX - d) / 10,
                        d <= 9,
                ;
                lemma_digits_value_prefix_mono(s@, i as int + 1);
            }
            return None;
        }
        proof {
            assert(acc * 10 + d <= u64::MAX) by (nonlinear_arith)
                requires
                    acc <= (u64::MAX - d) / 10,
                    d <= 9,
            ;
            assert(s@.take(i as int + 1).drop_last() =~= s@.take(i as int));
        }
        acc = acc * 10 + d;
        i = i + 1;
    }
    proof {
        assert(s@.take(n as int) =~= s@);
    }
    Some(acc)
}

} // verus!
