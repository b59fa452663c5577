//! Character-level text handling: Unicode whitespace, trimming, unsigned
//! decimal parsing, whitespace-separated fields, and decimal and
//! hexadecimal rendering of numbers.
use vstd::prelude::*;

verus! {

/// The Unicode `White_Space` property (what `char::is_whitespace` tests).
pub open spec fn is_white_space(c: char) -> bool {
    ||| c == ' '
    ||| ('\t' <= c && c <= '\r')
    ||| c == '\u{85}'
    ||| c == '\u{a0}'
    ||| c == '\u{1680}'
    ||| ('\u{2000}' <= c && c <= '\u{200a}')
    ||| c == '\u{2028}'
    ||| c == '\u{2029}'
    ||| c == '\u{202f}'
    ||| c == '\u{205f}'
    ||| c == '\u{3000}'
}

/// Returns whether `c` is Unicode whitespace.
pub fn white_space(c: char) -> (b: bool)
    ensures
        b == is_white_space(c),
{
    c == ' ' || ('\t' <= c && c <= '\r') || c == '\u{85}' || c == '\u{a0}' || c == '\u{1680}' || (
    '\u{2000}' <= c && c <= '\u{200a}') || c == '\u{2028}' || c == '\u{2029}' || c == '\u{202f}'
        || c == '\u{205f}' || c == '\u{3000}'
}

/// The first index at or after `i` that does not hold whitespace.
pub open spec fn skip_ws(s: Seq<char>, i: int) -> int
    decreases s.len() - i,
{
    if 0 <= i < s.len() && is_white_space(s[i]) {
        skip_ws(s, i + 1)
    } else {
        i
    }
}

/// The first index at or after `i` that holds whitespace (or the end).
pub open spec fn skip_word(s: Seq<char>, i: int) -> int
    decreases s.len() - i,
{
    if 0 <= i < s.len() && !is_white_space(s[i]) {
        skip_word(s, i + 1)
    } else {
        i
    }
}

/// The end of `s[lo..j]` once trailing whitespace is dropped.
pub open spec fn trim_end_at(s: Seq<char>, j: int, lo: int) -> int
    decreases j - lo,
{
    if lo < j && is_white_space(s[j - 1]) {
        trim_end_at(s, j - 1, lo)
    } else {
        j
    }
}

/// `s` without leading and trailing whitespace (what `str::trim` gives).
pub open spec fn trim(s: Seq<char>) -> Seq<char> {
    let a = skip_ws(s, 0);
    s.subrange(a, trim_end_at(s, s.len() as int, a))
}

proof fn lemma_skip_ws_bounds(s: Seq<char>, i: int)
    requires
        0 <= i <= s.len(),
    ensures
        i <= skip_ws(s, i) <= s.len(),
    decreases s.len() - i,
{
    if i < s.len() && is_white_space(s[i]) {
        lemma_skip_ws_bounds(s, i + 1);
    }
}

proof fn lemma_skip_word_bounds(s: Seq<char>, i: int)
    requires
        0 <= i <= s.len(),
    ensures
        i <= skip_word(s, i) <= s.len(),
    decreases s.len() - i,
{
    if i < s.len() && !is_white_space(s[i]) {
        lemma_skip_word_bounds(s, i + 1);
    }
}

proof fn lemma_trim_end_bounds(s: Seq<char>, j: int, lo: int)
    requires
        0 <= lo <= j <= s.len(),
    ensures
        lo <= trim_end_at(s, j, lo) <= j,
    decreases j - lo,
{
    if lo < j && is_white_space(s[j - 1]) {
        lemma_trim_end_bounds(s, j - 1, lo);
    }
}

/// The characters of a string slice.
pub fn chars_of(s: &str) -> (v: Vec<char>)
    ensures
        v@ == s@,
{
    let mut v: Vec<char> = Vec::new();
    for c in it: s.chars()
        invariant
            v@ == it.seq().take(it.index()),
            it.seq() == s@,
    {
        v.push(c);
    }
    v
}

/// The index of the first non-whitespace character at or after `i`.
pub fn skip_white_space(s: &Vec<char>, i: usize) -> (r: usize)
    requires
        i <= s.len(),
    ensures
        r == skip_ws(s@, i as int),
        i <= r <= s.len(),
{
    let mut k = i;
    while k < s.len() && white_space(s[k])
        invariant
            i <= k <= s.len(),
            skip_ws(s@, k as int) == skip_ws(s@, i as int),
        decreases s.len() - k,
    {
        k = k + 1;
    }
    k
}

/// The index of the first whitespace character at or after `i`.
pub fn skip_non_white_space(s: &Vec<char>, i: usize) -> (r: usize)
    requires
        i <= s.len(),
    ensures
        r == skip_word(s@, i as int),
        i <= r <= s.len(),
{
    let mut k = i;
    while k < s.len() && !white_space(s[k])
        invariant
            i <= k <= s.len(),
            skip_word(s@, k as int) == skip_word(s@, i as int),
        decreases s.len() - k,
    {
        k = k + 1;
    }
    k
}

/// The characters of `s[lo..hi]`.
pub fn slice_chars(s: &Vec<char>, lo: usize, hi: usize) -> (r: Vec<char>)
    requires
        lo <= hi <= s.len(),
    ensures
        r@ == s@.subrange(lo as int, hi as int),
{
    let mut r: Vec<char> = Vec::new();
    let mut k = lo;
    while k < hi
        invariant
            lo <= k <= hi <= s.len(),
            r@ == s@.subrange(lo as int, k as int),
        decreases hi - k,
    {
        r.push(s[k]);
        k = k + 1;
        assert(r@ =~= s@.subrange(lo as int, k as int));
    }
    r
}

/// `s` without leading and trailing whitespace.
pub fn trim_chars(s: &Vec<char>) -> (r: Vec<char>)
    ensures
        r@ == trim(s@),
{
    let a = skip_white_space(s, 0);
    let mut b = s.len();
    while a < b && white_space(s[b - 1])
        invariant
            a <= b <= s.len(),
            a == skip_ws(s@, 0),
            trim_end_at(s@, b as int, a as int) == trim_end_at(s@, s.len() as int, a as int),
        decreases b,
    {
        b = b - 1;
    }
    slice_chars(s, a, b)
}

/// The end of the line that starts at `i`: the first `'\n'` at or after
/// `i`, or the end of the text.
pub open spec fn line_end(s: Seq<char>, i: int) -> int
    decreases s.len() - i,
{
    if 0 <= i < s.len() && s[i] != '\n' {
        line_end(s, i + 1)
    } else {
        i
    }
}

proof fn lemma_line_end_bounds(s: Seq<char>, i: int)
    requires
        0 <= i <= s.len(),
    ensures
        i <= line_end(s, i) <= s.len(),
        line_end(s, i) < s.len() ==> s[line_end(s, i)] == '\n',
    decreases s.len() - i,
{
    if i < s.len() && s[i] != '\n' {
        lemma_line_end_bounds(s, i + 1);
    }
}

/// The index of the end of the line starting at `i`.
pub fn find_line_end(s: &Vec<char>, i: usize) -> (r: usize)
    requires
        i <= s.len(),
    ensures
        r == line_end(s@, i as int),
        i <= r <= s.len(),
{
    proof {
        lemma_line_end_bounds(s@, i as int);
    }
    let mut k = i;
    while k < s.len() && s[k] != '\n'
        invariant
            i <= k <= s.len(),
            line_end(s@, k as int) == line_end(s@, i as int),
        decreases s.len() - k,
    {
        k = k + 1;
    }
    k
}

/// The second whitespace-separated field of `line` (what
/// `split_whitespace().nth(1)` gives), if there is one.
pub open spec fn second_field(line: Seq<char>) -> Option<Seq<char>> {
    let a = skip_ws(line, 0);
    let b = skip_word(line, a);
    let c = skip_ws(line, b);
    if c < line.len() {
        Some(line.subrange(c, skip_word(line, c)))
    } else {
        None
    }
}

/// The second whitespace-separated field of `line`, if there is one.
pub fn second_field_of(line: &Vec<char>) -> (r: Option<Vec<char>>)
    ensures
        match r {
            Some(v) => second_field(line@) == Some(v@),
            None => second_field(line@) is None,
        },
{
    let a = skip_white_space(line, 0);
    let b = skip_non_white_space(line, a);
    let c = skip_white_space(line, b);
    if c < line.len() {
        let d = skip_non_white_space(line, c);
        Some(slice_chars(line, c, d))
    } else {
        None
    }
}

/// `s` begins with `prefix`.
pub open spec fn has_prefix(s: Seq<char>, prefix: Seq<char>) -> bool {
    prefix.len() <= s.len() && s.take(prefix.len() as int) == prefix
}

/// Whether `s` begins with `prefix`.
pub fn starts_with_chars(s: &Vec<char>, prefix: &Vec<char>) -> (b: bool)
    ensures
        b == has_prefix(s@, prefix@),
{
    if prefix.len() > s.len() {
        return false;
    }
    let mut k: usize = 0;
    while k < prefix.len()
        invariant
            k <= prefix.len() <= s.len(),
            forall|i: int| 0 <= i < k ==> s@[i] == prefix@[i],
        decreases prefix.len() - k,
    {
        if s[k] != prefix[k] {
            assert(s@.take(prefix.len() as int)[k as int] != prefix@[k as int]);
            return false;
        }
        k = k + 1;
    }
    assert(s@.take(prefix.len() as int) =~= prefix@);
    true
}

/// The value of a string of decimal digits.
pub open spec fn digits_value(d: Seq<char>) -> int
    decreases d.len(),
{
    if d.len() == 0 {
        0
    } else {
        digits_value(d.drop_last()) * 10 + (d.last() as int - '0' as int)
    }
}

/// Every character is an ASCII decimal digit.
pub open spec fn all_digits(d: Seq<char>) -> bool {
    forall|i: int| 0 <= i < d.len() ==> '0' <= #[trigger] d[i] <= '9'
}

/// The digits of an unsigned decimal literal: `t` without one leading `+`.
pub open spec fn unsigned_digits(t: Seq<char>) -> Seq<char> {
    if t.len() > 0 && t[0] == '+' {
        t.subrange(1, t.len() as int)
    } else {
        t
    }
}

/// What `str::parse::<u64>` gives: an optional `+`, then one or more
/// decimal digits whose value fits in 64 bits.
pub open spec fn parse_u64_spec(t: Seq<char>) -> Option<u64> {
    let d = unsigned_digits(t);
    if d.len() > 0 && all_digits(d) && digits_value(d) <= u64::MAX {
        Some(digits_value(d) as u64)
    } else {
        None
    }
}

proof fn lemma_digits_value_nonneg(d: Seq<char>)
    requires
        all_digits(d),
    ensures
        digits_value(d) >= 0,
    decreases d.len(),
{
    if d.len() > 0 {
        assert(all_digits(d.drop_last())) by {
            assert forall|i: int| 0 <= i < d.drop_last().len() implies '0' <= #[trigger] d.drop_last()[i]
                <= '9' by {
                assert(d.drop_last()[i] == d[i]);
            }
        }
        lemma_digits_value_nonneg(d.drop_last());
        assert('0' <= d[d.len() - 1] <= '9');
    }
}

/// Once a digit prefix exceeds a bound, every longer prefix does too.
proof fn lemma_digits_value_grows(d: Seq<char>, i: int, j: int)
    requires
        all_digits(d),
        0 <= i <= j <= d.len(),
    ensures
        digits_value(d.take(i)) <= digits_value(d.take(j)),
    decreases j - i,
{
    if i < j {
        lemma_digits_value_grows(d, i, j - 1);
        let p = d.take(j);
        assert(p.drop_last() =~= d.take(j - 1));
        assert(all_digits(d.take(j - 1))) by {
            assert forall|k: int| 0 <= k < d.take(j - 1).len() implies '0' <= #[trigger] d.take(j - 1)[k]
                <= '9' by {
                assert(d.take(j - 1)[k] == d[k]);
            }
        }
        lemma_digits_value_nonneg(d.take(j - 1));
        assert(p.last() == d[j - 1]);
        assert('0' <= d[j - 1] <= '9');
    }
}

/// Parse an unsigned 64-bit decimal number (an optional `+` then digits).
pub fn parse_u64(t: &Vec<char>) -> (r: Option<u64>)
    ensures
        r == parse_u64_spec(t@),
{
    let start: usize = if t.len() > 0 && t[0] == '+' {
        1
    } else {
        0
    };
    let ghost d = unsigned_digits(t@);
    assert(d =~= t@.subrange(start as int, t.len() as int));
    if start >= t.len() {
        return None;
    }
    let mut value: u64 = 0;
    let mut k = start;
    while k < t.len()
        invariant
            start <= k <= t.len(),
            start < t.len(),
            d == t@.subrange(start as int, t.len() as int),
            d == unsigned_digits(t@),
            forall|i: int| 0 <= i < k - start ==> '0' <= #[trigger] d[i] <= '9',
            value == digits_value(d.take(k - start)),
        decreases t.len() - k,
    {
        let c = t[k];
        if c < '0' || c > '9' {
            assert(d[k - start] == c);
            assert(!all_digits(d));
            return None;
        }
        let digit = (c as u32 - '0' as u32) as u64;
        let ghost prefix = d.take(k - start + 1);
        assert(prefix.drop_last() =~= d.take(k - start));
        assert(prefix.last() == c);
        if value > (u64::MAX - digit) / 10 {
            proof {
                assert(all_digits(d.take(k - start + 1))) by {
                    assert forall|i: int| 0 <= i < d.take(k - start + 1).len() implies '0'
                        <= #[trigger] d.take(k - start + 1)[i] <= '9' by {
                        assert(d.take(k - start + 1)[i] == d[i]);
                    }
                }
                assert(digits_value(prefix) > u64::MAX) by (nonlinear_arith)
                    requires
                        digits_value(prefix) == value * 10 + digit,
                        value > (u64::MAX - digit) / 10,
                        digit <= 9,
                ;
                if all_digits(d) {
                    lemma_digits_value_grows(d, k - start + 1, d.len() as int);
                    assert(d.take(d.len() as int) =~= d);
                }
            }
            return None;
        }
        assert(value * 10 + digit <= u64::MAX) by (nonlinear_arith)
            requires
                value <= (u64::MAX - digit) / 10,
                digit <= 9,
        ;
        value = value * 10 + digit;
        k = k + 1;
    }
    assert(d.take(d.len() as int) =~= d);
    Some(value)
}


/// The character for digit value `d` (`0`-`9`, then lower-case `a`-`f`).
pub open spec fn digit_char(d: nat) -> char {
    if d < 10 {
        (48 + d) as char
    } else {
        (87 + d) as char
    }
}

/// The decimal digits of `n`, most significant first, without leading zeros.
pub open spec fn decimal_chars(n: nat) -> Seq<char>
    decreases n,
{
    if n < 10 {
        seq![digit_char(n)]
    } else {
        decimal_chars(n / 10).push(digit_char(n % 10))
    }
}

/// The lower-case hexadecimal digits of `n`, most significant first,
/// without leading zeros.
pub open spec fn hex_chars(n: nat) -> Seq<char>
    decreases n,
{
    if n < 16 {
        seq![digit_char(n)]
    } else {
        hex_chars(n / 16).push(digit_char(n % 16))
    }
}

/// `n` in the alternate hexadecimal form: `0x` and its lower-case digits.
pub open spec fn hex_prefixed(n: nat) -> Seq<char> {
    seq!['0', 'x'] + hex_chars(n)
}

fn digit_str(d: u64) -> (s: &'static str)
    requires
        d < 16,
    ensures
        s@ == seq![digit_char(d as nat)],
{
    if d == 0 {
        proof { reveal_strlit("0"); }
        "0"
    } else if d == 1 {
        proof { reveal_strlit("1"); }
        "1"
    } else if d == 2 {
        proof { reveal_strlit("2"); }
        "2"
    } else if d == 3 {
        proof { reveal_strlit("3"); }
        "3"
    } else if d == 4 {
        proof { reveal_strlit("4"); }
        "4"
    } else if d == 5 {
        proof { reveal_strlit("5"); }
        "5"
    } else if d == 6 {
        proof { reveal_strlit("6"); }
        "6"
    } else if d == 7 {
        proof { reveal_strlit("7"); }
        "7"
    } else if d == 8 {
        proof { reveal_strlit("8"); }
        "8"
    } else if d == 9 {
        proof { reveal_strlit("9"); }
        "9"
    } else if d == 10 {
        proof { reveal_strlit("a"); }
        "a"
    } else if d == 11 {
        proof { reveal_strlit("b"); }
        "b"
    } else if d == 12 {
        proof { reveal_strlit("c"); }
        "c"
    } else if d == 13 {
        proof { reveal_strlit("d"); }
        "d"
    } else if d == 14 {
        proof { reveal_strlit("e"); }
        "e"
    } else {
        proof { reveal_strlit("f"); }
        "f"
    }
}

/// Append the decimal digits of `n` to `out`.
pub fn push_decimal(out: &mut String, n: u64)
    ensures
        final(out)@ == old(out)@ + decimal_chars(n as nat),
    decreases n,
{
    if n >= 10 {
        push_decimal(out, n / 10);
    }
    out.append(digit_str(n % 10));
    proof {
        if n >= 10 {
            assert(decimal_chars(n as nat) == decimal_chars((n / 10) as nat).push(
                digit_char((n % 10) as nat),
            ));
        }
    }
}

/// Append `n` to `out` in the alternate hexadecimal form (`0x` and the
/// lower-case digits).
pub fn push_hex(out: &mut String, n: u64)
    ensures
        final(out)@ == old(out)@ + hex_prefixed(n as nat),
{
    proof { reveal_strlit("0x"); }
    out.append("0x");
    push_hex_digits(out, n);
    assert(out@ =~= old(out)@ + hex_prefixed(n as nat));
}

fn push_hex_digits(out: &mut String, n: u64)
    ensures
        final(out)@ == old(out)@ + hex_chars(n as nat),
    decreases n,
{
    if n >= 16 {
        push_hex_digits(out, n / 16);
    }
    out.append(digit_str(n % 16));
    proof {
        if n >= 16 {
            assert(hex_chars(n as nat) == hex_chars((n / 16) as nat).push(
                digit_char((n % 16) as nat),
            ));
        }
    }
}

/// The decimal form of a signed `n`: a minus sign before the digits of its
/// magnitude when it is negative.
pub open spec fn signed_decimal_chars(n: int) -> Seq<char> {
    if n < 0 {
        seq!['-'] + decimal_chars((-n) as nat)
    } else {
        decimal_chars(n as nat)
    }
}

/// Append the decimal form of the signed `n` to `out`.
pub fn push_signed_decimal(out: &mut String, n: i64)
    ensures
        final(out)@ == old(out)@ + signed_decimal_chars(n as int),
{
    if n < 0 {
        proof { reveal_strlit("-"); }
        out.append("-");
        let magnitude: u64 = (0i128 - n as i128) as u64;
        push_decimal(out, magnitude);
        assert(out@ =~= old(out)@ + signed_decimal_chars(n as int));
    } else {
        push_decimal(out, n as u64);
    }
}

} // verus!
