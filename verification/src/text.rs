//! Text utilities shared by the lexer, the diagnostics and the semantic tables:
//! byte-range slicing of source text, string comparison, decimal rendering.

use vstd::prelude::*;
use vstd::string::*;
use vstd::utf8::*;

verus! {

broadcast use vstd::seq::group_seq_axioms;

/// The bytes of any `str` form valid UTF-8.
pub proof fn lemma_str_valid_utf8(s: &str)
    ensures
        valid_utf8(s.spec_bytes()),
{
    encode_utf8_valid_utf8(s@);
}

/// In valid UTF-8, the position right after an ASCII byte is a character boundary.
pub proof fn lemma_ascii_next_boundary(bytes: Seq<u8>, i: int)
    requires
        valid_utf8(bytes),
        0 <= i < bytes.len(),
        bytes[i] < 0x80,
    ensures
        is_char_boundary(bytes, i + 1),
    decreases bytes.len(),
{
    reveal_with_fuel(is_char_boundary, 2);
    is_char_boundary_iff_not_is_continuation_byte(bytes, i);
    assert(valid_first_scalar(bytes));
    let l = length_of_first_scalar(bytes);
    let pop = pop_first_scalar(bytes);
    assert(pop.len() == bytes.len() - l);
    if i == 0 {
        assert(l == 1);
        assert(is_char_boundary(pop, 0));
    } else {
        if i - l < 0 {
            assert(!is_char_boundary(pop, i - l));
            assert(false);
        }
        assert(pop[i - l] == bytes[i]);
        assert(valid_utf8(pop));
        lemma_ascii_next_boundary(pop, i - l);
        assert(is_char_boundary(bytes, i + 1) == is_char_boundary(pop, i + 1 - l));
    }
}

/// A position holding an ASCII byte is a character boundary.
pub proof fn lemma_ascii_boundary(bytes: Seq<u8>, i: int)
    requires
        valid_utf8(bytes),
        0 <= i < bytes.len(),
        bytes[i] < 0x80,
    ensures
        is_char_boundary(bytes, i),
{
    is_char_boundary_iff_not_is_continuation_byte(bytes, i);
}

/// The sub-slice of `s` between two byte offsets that fall on character boundaries.
pub fn substr(s: &str, start: usize, end: usize) -> (r: &str)
    requires
        start <= end <= s.spec_bytes().len(),
        is_char_boundary(s.spec_bytes(), start as int),
        is_char_boundary(s.spec_bytes(), end as int),
    ensures
        r.spec_bytes() == s.spec_bytes().subrange(start as int, end as int),
{
    proof {
        lemma_str_valid_utf8(s);
    }
    let (head, _tail) = s.split_at(end);
    proof {
        let hb = head.spec_bytes();
        let b = s.spec_bytes();
        lemma_str_valid_utf8(head);
        assert(hb =~= b.subrange(0, end as int));
        if start < end {
            is_char_boundary_iff_not_is_continuation_byte(b, start as int);
            is_char_boundary_iff_not_is_continuation_byte(hb, start as int);
        } else {
            is_char_boundary_start_end_of_seq(hb);
        }
    }
    let (_pre, mid) = head.split_at(start);
    proof {
        assert(mid.spec_bytes() =~= s.spec_bytes().subrange(start as int, end as int));
    }
    mid
}

/// Whether two string slices hold the same characters.
pub fn str_eq(a: &str, b: &str) -> (r: bool)
    ensures
        r == (a@ == b@),
{
    let x = a.to_owned();
    let y = b.to_owned();
    x == y
}

/// An owned copy of a string slice.
pub fn to_string(s: &str) -> (r: String)
    ensures
        r@ == s@,
{
    s.to_owned()
}

/// Appends one character to a string.
#[verifier::external_body]
pub(crate) fn push_char(s: &mut String, c: char)
    ensures
        final(s)@ == old(s)@.push(c),
{
    s.push(c)
}

/// Appends a string slice to a string.
pub fn push_str(s: &mut String, t: &str)
    ensures
        final(s)@ == old(s)@ + t@,
{
    s.append(t)
}

/// The decimal digit character for a value below ten.
pub open spec fn digit_char(d: nat) -> char {
    if d == 0 { '0' }
    else if d == 1 { '1' }
    else if d == 2 { '2' }
    else if d == 3 { '3' }
    else if d == 4 { '4' }
    else if d == 5 { '5' }
    else if d == 6 { '6' }
    else if d == 7 { '7' }
    else if d == 8 { '8' }
    else { '9' }
}

/// The decimal rendering of a natural number, without leading zeros.
pub open spec fn decimal(n: nat) -> Seq<char>
    decreases n,
{
    if n < 10 {
        seq![digit_char(n)]
    } else {
        decimal(n / 10).push(digit_char(n % 10))
    }
}

fn digit_to_char(d: usize) -> (c: char)
    requires
        d < 10,
    ensures
        c == digit_char(d as nat),
{
    if d == 0 { '0' }
    else if d == 1 { '1' }
    else if d == 2 { '2' }
    else if d == 3 { '3' }
    else if d == 4 { '4' }
    else if d == 5 { '5' }
    else if d == 6 { '6' }
    else if d == 7 { '7' }
    else if d == 8 { '8' }
    else { '9' }
}

/// Appends the decimal rendering of `n` to `out`.
pub fn push_decimal(out: &mut String, n: usize)
    ensures
        final(out)@ == old(out)@ + decimal(n as nat),
    decreases n,
{
    if n < 10 {
        push_char(out, digit_to_char(n));
        proof {
            assert(decimal(n as nat) == seq![digit_char(n as nat)]);
        }
    } else {
        push_decimal(out, n / 10);
        push_char(out, digit_to_char(n % 10));
        proof {
            assert(decimal(n as nat) == decimal((n / 10) as nat).push(digit_char((n % 10) as nat)));
        }
    }
}

/// Appends the decimal rendering of a `u64` to `out`.
pub fn push_decimal_u64(out: &mut String, n: u64)
    ensures
        final(out)@ == old(out)@ + decimal(n as nat),
    decreases n,
{
    if n < 10 {
        push_char(out, digit_to_char(n as usize));
        proof {
            assert(decimal(n as nat) == seq![digit_char(n as nat)]);
        }
    } else {
        push_decimal_u64(out, n / 10);
        push_char(out, digit_to_char((n % 10) as usize));
        proof {
            assert(decimal(n as nat) == decimal((n / 10) as nat).push(digit_char((n % 10) as nat)));
        }
    }
}

/// The decimal rendering of `n`.
pub fn decimal_string(n: usize) -> (r: String)
    ensures
        r@ == decimal(n as nat),
{
    let mut s = String::new();
    push_decimal(&mut s, n);
    proof {
        assert(s@ =~= decimal(n as nat));
    }
    s
}

/// `count` copies of `c`.
pub open spec fn repeat_char(c: char, count: nat) -> Seq<char> {
    Seq::new(count, |_i: int| c)
}

/// Appends `count` copies of `c` to `out`.
pub fn push_repeat(out: &mut String, c: char, count: usize)
    ensures
        final(out)@ == old(out)@ + repeat_char(c, count as nat),
{
    let ghost start = out@;
    let mut i: usize = 0;
    while i < count
        invariant
            i <= count,
            out@ == start + repeat_char(c, i as nat),
        decreases count - i,
    {
        push_char(out, c);
        i = i + 1;
        proof {
            assert(start + repeat_char(c, i as nat) =~= (start + repeat_char(c, (i - 1) as nat)).push(c));
        }
    }
}

} // verus!

verus! {

/// The characters of a string slice, in order.
pub fn chars_of(s: &str) -> (r: Vec<char>)
    ensures
        r@ == s@,
{
    let mut out: Vec<char> = Vec::new();
    for c in it: s.chars()
        invariant
            it.seq() == s@,
            out@ == it.seq().take(it.index() as int),
    {
        out.push(c);
        proof {
            assert(it.seq().take(it.index() + 1) =~= it.seq().take(it.index() as int).push(c));
        }
    }
    out
}

/// `s` without its first `front` and its last `back` bytes, which are ASCII.
pub fn trim_ascii_ends(s: &str, front: usize, back: usize) -> (r: &str)
    requires
        front + back <= s.spec_bytes().len(),
        forall|i: int| 0 <= i < front ==> s.spec_bytes()[i] < 0x80,
        forall|i: int| s.spec_bytes().len() - back <= i < s.spec_bytes().len() ==> s.spec_bytes()[i] < 0x80,
    ensures
        r.spec_bytes() == s.spec_bytes().subrange(front as int, s.spec_bytes().len() - back),
{
    let n: usize = s.as_bytes().len();
    proof {
        let b = s.spec_bytes();
        assert(n == b.len());
        lemma_str_valid_utf8(s);
        is_char_boundary_start_end_of_seq(b);
        if front > 0 {
            lemma_ascii_next_boundary(b, front - 1);
        }
        if back > 0 {
            lemma_ascii_boundary(b, n - back);
        }
    }
    substr(s, front, n - back)
}

} // verus!

verus! {

/// The value of a digit character in bases up to 16 (letters either case);
/// 16 for any other character.
pub open spec fn digit_value(c: char) -> nat {
    if '0' <= c && c <= '9' {
        (c as u32 - '0' as u32) as nat
    } else if 'a' <= c && c <= 'f' {
        (c as u32 - 'a' as u32 + 10) as nat
    } else if 'A' <= c && c <= 'F' {
        (c as u32 - 'A' as u32 + 10) as nat
    } else {
        16
    }
}

/// Every character is a digit of the radix.
pub open spec fn all_digits(s: Seq<char>, radix: nat) -> bool {
    forall|i: int| 0 <= i < s.len() ==> #[trigger] digit_value(s[i]) < radix
}

/// The number the digits spell in the radix, most significant first.
pub open spec fn digits_value(s: Seq<char>, radix: nat) -> nat
    decreases s.len(),
{
    if s.len() == 0 {
        0
    } else {
        digits_value(s.drop_last(), radix) * radix + digit_value(s.last())
    }
}

/// What parsing an integer of the given radix and range yields: an optional
/// `+` or `-` sign, then at least one digit of the radix; `None` for anything
/// else and for values outside `min..=max`.
pub open spec fn parsed_integer(s: Seq<char>, radix: nat, min: int, max: int) -> Option<int> {
    let negative = s.len() > 0 && s[0] == '-';
    let digits = if s.len() > 0 && (s[0] == '-' || s[0] == '+') { s.drop_first() } else { s };
    if digits.len() == 0 || !all_digits(digits, radix) {
        None
    } else {
        let v = if negative { -(digits_value(digits, radix) as int) } else { digits_value(digits, radix) as int };
        if min <= v <= max { Some(v) } else { None }
    }
}

/// A longer run of digits is worth at least as much as its prefix.
proof fn lemma_digits_value_grows(s: Seq<char>, radix: nat, n: int)
    requires
        1 <= radix,
        0 <= n <= s.len(),
    ensures
        digits_value(s.subrange(0, n), radix) <= digits_value(s, radix),
    decreases s.len() - n,
{
    if n < s.len() {
        lemma_digits_value_grows(s, radix, n + 1);
        let p = s.subrange(0, n + 1);
        assert(p.drop_last() =~= s.subrange(0, n));
        assert(digits_value(p, radix) == digits_value(s.subrange(0, n), radix) * radix + digit_value(p.last()));
        assert(digits_value(s.subrange(0, n), radix) * radix >= digits_value(s.subrange(0, n), radix))
            by (nonlinear_arith)
            requires radix >= 1;
    } else {
        assert(s.subrange(0, n) =~= s);
    }
}

fn char_digit_value(c: char) -> (r: u32)
    ensures
        r == digit_value(c),
{
    if '0' <= c && c <= '9' {
        (c as u32) - ('0' as u32)
    } else if 'a' <= c && c <= 'f' {
        (c as u32) - ('a' as u32) + 10
    } else if 'A' <= c && c <= 'F' {
        (c as u32) - ('A' as u32) + 10
    } else {
        16
    }
}

/// Parses a signed integer of the given radix (2 to 16) whose value lies in `min..=max`,
/// where the range fits in `i64`.
pub fn parse_integer(s: &[char], radix: u32, min: i64, max: i64) -> (r: Option<i64>)
    requires
        2 <= radix <= 16,
        min <= 0 <= max,
    ensures
        r == match parsed_integer(s@, radix as nat, min as int, max as int) {
            Some(v) => Some(v as i64),
            None => None::<i64>,
        },
{
    let n = s.len();
    let negative = n > 0 && s[0] == '-';
    let start: usize = if n > 0 && (s[0] == '-' || s[0] == '+') { 1 } else { 0 };
    let ghost digits = if s@.len() > 0 && (s@[0] == '-' || s@[0] == '+') { s@.drop_first() } else { s@ };
    proof {
        assert(digits =~= s@.subrange(start as int, n as int));
    }
    if start == n {
        return None;
    }
    // The largest magnitude the range allows
    let limit: u64 = if negative { (0i128 - (min as i128)) as u64 } else { max as u64 };
    let mut value: u64 = 0;
    let mut i: usize = start;
    while i < n
        invariant
            start <= i <= n,
            n == s@.len(),
            2 <= radix <= 16,
            digits == s@.subrange(start as int, n as int),
            digits == (if s@.len() > 0 && (s@[0] == '-' || s@[0] == '+') { s@.drop_first() } else { s@ }),
            negative == (s@.len() > 0 && s@[0] == '-'),
            min <= 0 <= max,
            limit as int == (if negative { -(min as int) } else { max as int }),
            all_digits(s@.subrange(start as int, i as int), radix as nat),
            value == digits_value(s@.subrange(start as int, i as int), radix as nat),
            value <= limit,
            limit <= 0x8000_0000_0000_0000,
        decreases n - i,
    {
        let d = char_digit_value(s[i]);
        let ghost prefix = s@.subrange(start as int, i + 1);
        proof {
            assert(prefix.drop_last() =~= s@.subrange(start as int, i as int));
            assert(prefix.last() == s@[i as int]);
        }
        if d >= radix {
            proof {
                assert(digits[i - start] == s@[i as int]);
                assert(digit_value(digits[i - start]) >= radix);
                assert(!all_digits(digits, radix as nat));
            }
            return None;
        }
        // value * radix + d > limit means the whole run is out of range
        if (d as u64) > limit || value > (limit - (d as u64)) / (radix as u64) {
            proof {
                if d <= limit {
                    assert(value * radix + d > limit) by (nonlinear_arith)
                        requires
                            value > (limit - d) / (radix as int),
                            radix >= 2,
                            d <= limit;
                } else {
                    assert(value * radix >= 0) by (nonlinear_arith)
                        requires
                            radix >= 2;
                }
                lemma_digits_value_grows(digits, radix as nat, i + 1 - start);
                assert(digits.subrange(0, i + 1 - start) =~= prefix);
                assert(all_digits(digits, radix as nat) ==> digits_value(digits, radix as nat) > limit);
            }
            return None;
        }
        proof {
            assert(value * radix + d <= limit) by (nonlinear_arith)
                requires
                    value <= (limit - d) / (radix as int),
                    radix >= 2,
                    d <= limit;
        }
        value = value * (radix as u64) + (d as u64);
        i = i + 1;
        proof {
            assert forall|j: int| 0 <= j < prefix.len() implies #[trigger] digit_value(prefix[j]) < radix by {
                if j < prefix.len() - 1 {
                    assert(prefix[j] == s@.subrange(start as int, (i - 1) as int)[j]);
                }
            }
        }
    }
    proof {
        assert(s@.subrange(start as int, n as int) =~= digits);
    }
    if negative {
        Some((0i128 - (value as i128)) as i64)
    } else {
        Some(value as i64)
    }
}

} // verus!

verus! {

/// Whether a character has the Unicode `White_Space` property (what
/// `char::is_whitespace` tests).
pub open spec fn is_white_space(c: char) -> bool {
    ||| ('\u{9}' <= c && c <= '\u{d}')
    ||| c == ' '
    ||| c == '\u{85}'
    ||| c == '\u{a0}'
    ||| c == '\u{1680}'
    ||| ('\u{2000}' <= c && c <= '\u{200a}')
    ||| c == '\u{2028}'
    ||| c == '\u{2029}'
    ||| c == '\u{202f}'
    ||| c == '\u{205f}'
    ||| c == '\u{3000}'
}

/// Whether a character is whitespace.
pub fn white_space(c: char) -> (r: bool)
    ensures
        r == is_white_space(c),
{
    ('\u{9}' <= c && c <= '\u{d}') || c == ' ' || c == '\u{85}' || c == '\u{a0}' || c == '\u{1680}'
        || ('\u{2000}' <= c && c <= '\u{200a}') || c == '\u{2028}' || c == '\u{2029}'
        || c == '\u{202f}' || c == '\u{205f}' || c == '\u{3000}'
}

/// `s` without its leading whitespace.
pub open spec fn trim_front(s: Seq<char>) -> Seq<char>
    decreases s.len(),
{
    if s.len() > 0 && is_white_space(s[0]) {
        trim_front(s.drop_first())
    } else {
        s
    }
}

/// `s` without its trailing whitespace.
pub open spec fn trim_back(s: Seq<char>) -> Seq<char>
    decreases s.len(),
{
    if s.len() > 0 && is_white_space(s.last()) {
        trim_back(s.drop_last())
    } else {
        s
    }
}

/// `s` without leading and trailing whitespace (what `str::trim` gives).
pub open spec fn trimmed(s: Seq<char>) -> Seq<char> {
    trim_back(trim_front(s))
}

/// The bounds of `s[lo..hi]` once its leading and trailing whitespace is removed.
pub fn trim_bounds(s: &[char], lo: usize, hi: usize) -> (r: (usize, usize))
    requires
        lo <= hi <= s@.len(),
    ensures
        lo <= r.0 <= r.1 <= hi,
        s@.subrange(r.0 as int, r.1 as int) == trimmed(s@.subrange(lo as int, hi as int)),
{
    let mut a = lo;
    while a < hi && white_space(s[a])
        invariant
            lo <= a <= hi,
            hi <= s@.len(),
            trim_front(s@.subrange(lo as int, hi as int)) == trim_front(s@.subrange(a as int, hi as int)),
        decreases hi - a,
    {
        proof {
            let t = s@.subrange(a as int, hi as int);
            assert(t.drop_first() =~= s@.subrange(a + 1, hi as int));
        }
        a = a + 1;
    }
    proof {
        let t = s@.subrange(a as int, hi as int);
        assert(a < hi ==> t[0] == s@[a as int]);
        assert(trim_front(t) == t);
    }
    let mut b = hi;
    while b > a && white_space(s[b - 1])
        invariant
            lo <= a <= b <= hi,
            hi <= s@.len(),
            trim_back(s@.subrange(a as int, hi as int)) == trim_back(s@.subrange(a as int, b as int)),
        decreases b - a,
    {
        proof {
            let t = s@.subrange(a as int, b as int);
            assert(t.drop_last() =~= s@.subrange(a as int, b - 1));
        }
        b = b - 1;
    }
    proof {
        let t = s@.subrange(a as int, b as int);
        assert(a < b ==> t.last() == s@[b - 1]);
        assert(trim_back(t) == t);
    }
    (a, b)
}

/// A string made of `s[lo..hi]`.
pub fn string_of_chars(s: &[char], lo: usize, hi: usize) -> (r: String)
    requires
        lo <= hi <= s@.len(),
    ensures
        r@ == s@.subrange(lo as int, hi as int),
{
    let mut out = String::new();
    let mut i = lo;
    while i < hi
        invariant
            lo <= i <= hi,
            hi <= s@.len(),
            out@ == s@.subrange(lo as int, i as int),
        decreases hi - i,
    {
        push_char(&mut out, s[i]);
        proof {
            assert(s@.subrange(lo as int, i + 1) =~= s@.subrange(lo as int, i as int).push(s@[i as int]));
        }
        i = i + 1;
    }
    out
}

/// The length in bytes of the UTF-8 encoding of a character sequence.
pub open spec fn utf8_len(s: Seq<char>) -> nat {
    encode_utf8(s).len()
}

/// Encoding a concatenation concatenates the encodings.
pub proof fn lemma_encode_concat(a: Seq<char>, b: Seq<char>)
    ensures
        encode_utf8(a + b) == encode_utf8(a) + encode_utf8(b),
    decreases a.len(),
{
    if a.len() == 0 {
        assert(a + b =~= b);
        assert(encode_utf8(a) =~= Seq::<u8>::empty());
        assert(encode_utf8(a) + encode_utf8(b) =~= encode_utf8(b));
    } else {
        lemma_encode_concat(a.drop_first(), b);
        assert((a + b).drop_first() =~= a.drop_first() + b);
        assert((a + b)[0] == a[0]);
        let head = encode_scalar(a[0] as u32);
        assert(encode_utf8(a + b) == head + encode_utf8(a.drop_first() + b));
        assert(encode_utf8(a) == head + encode_utf8(a.drop_first()));
        assert(head + (encode_utf8(a.drop_first()) + encode_utf8(b))
            =~= (head + encode_utf8(a.drop_first())) + encode_utf8(b));
    }
}

/// A part of a character sequence takes no more bytes than the whole.
pub proof fn lemma_utf8_len_subrange(s: Seq<char>, lo: int, hi: int)
    requires
        0 <= lo <= hi <= s.len(),
    ensures
        utf8_len(s.subrange(lo, hi)) <= utf8_len(s),
{
    let a = s.subrange(0, lo);
    let m = s.subrange(lo, hi);
    let z = s.subrange(hi, s.len() as int);
    assert(s =~= a + m + z);
    lemma_encode_concat(a + m, z);
    lemma_encode_concat(a, m);
}

/// The number of bytes that one character takes in UTF-8.
pub fn char_utf8_len(c: char) -> (r: u32)
    ensures
        r == encode_scalar(c as u32).len(),
        1 <= r <= 4,
{
    proof {
        char_is_scalar(c);
    }
    let v = c as u32;
    if v <= 0x7f {
        1
    } else if v <= 0x7ff {
        2
    } else if v <= 0xffff {
        3
    } else {
        4
    }
}

/// The encoding of a single character.
pub proof fn lemma_utf8_len_one(c: char)
    ensures
        utf8_len(seq![c]) == encode_scalar(c as u32).len(),
{
    assert(seq![c].drop_first() =~= Seq::<char>::empty());
    assert(encode_utf8(Seq::<char>::empty()) =~= Seq::<u8>::empty());
    assert(encode_utf8(seq![c]) =~= encode_scalar(c as u32));
}

/// The number of bytes that `s[lo..hi]` takes in UTF-8, where that fits in a `u32`.
pub fn chars_utf8_len(s: &[char], lo: usize, hi: usize) -> (r: u32)
    requires
        lo <= hi <= s@.len(),
        utf8_len(s@.subrange(lo as int, hi as int)) <= u32::MAX,
    ensures
        r == utf8_len(s@.subrange(lo as int, hi as int)),
{
    let mut n: u32 = 0;
    let mut i = lo;
    while i < hi
        invariant
            lo <= i <= hi,
            hi <= s@.len(),
            n == utf8_len(s@.subrange(lo as int, i as int)),
            utf8_len(s@.subrange(lo as int, hi as int)) <= u32::MAX,
        decreases hi - i,
    {
        let w = char_utf8_len(s[i]);
        proof {
            let c = s@[i as int];
            assert(s@.subrange(lo as int, i + 1) =~= s@.subrange(lo as int, i as int) + seq![c]);
            lemma_encode_concat(s@.subrange(lo as int, i as int), seq![c]);
            lemma_utf8_len_one(c);
            lemma_utf8_len_subrange(s@.subrange(lo as int, hi as int), 0, i + 1 - lo);
            assert(s@.subrange(lo as int, hi as int).subrange(0, i + 1 - lo) =~= s@.subrange(lo as int, i + 1));
        }
        n = n + w;
        i = i + 1;
    }
    n
}

} // verus!
