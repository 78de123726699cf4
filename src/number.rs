use vstd::prelude::*;

verus! {

/// The failure of a parse; callers only tell success from failure.
#[derive(Debug, Clone, Copy, PartialEq, Eq, Structural)]
pub struct ParseError;

/// A hexadecimal digit: `0-9`, `a-f` or `A-F`.
pub open spec fn is_hex_char(c: char) -> bool {
    ('0' <= c && c <= '9') || ('a' <= c && c <= 'f') || ('A' <= c && c <= 'F')
}

/// The value of `c` as a digit in bases up to 36 (`0-9`, then `a-z` or `A-Z`);
/// 36 for any other character.
pub open spec fn char_digit(c: char) -> nat {
    if '0' <= c && c <= '9' {
        (c as int - '0' as int) as nat
    } else if 'a' <= c && c <= 'z' {
        (c as int - 'a' as int + 10) as nat
    } else if 'A' <= c && c <= 'Z' {
        (c as int - 'A' as int + 10) as nat
    } else {
        36
    }
}

pub open spec fn is_digit_of(c: char, radix: nat) -> bool {
    char_digit(c) < radix
}

/// The number that a run of digits denotes in the given base, most significant first.
pub open spec fn digits_value(s: Seq<char>, radix: nat) -> nat
    decreases s.len(),
{
    if s.len() == 0 {
        0
    } else {
        digits_value(s.drop_last(), radix) * radix + char_digit(s.last())
    }
}

/// The digits of an unsigned number written with an optional leading `+`.
pub open spec fn unsigned_digits(s: Seq<char>) -> Seq<char> {
    if s.len() > 0 && s[0] == '+' {
        s.drop_first()
    } else {
        s
    }
}

/// `s` is an optional `+` followed by at least one digit of the base.
pub open spec fn is_unsigned_text(s: Seq<char>, radix: nat) -> bool {
    let d = unsigned_digits(s);
    &&& d.len() > 0
    &&& forall|i: int| 0 <= i < d.len() ==> is_digit_of(#[trigger] d[i], radix)
}

/// `s` writes, in the given base, a number that fits in a `u8`.
pub open spec fn is_u8_text(s: Seq<char>, radix: nat) -> bool {
    is_unsigned_text(s, radix) && digits_value(unsigned_digits(s), radix) <= 255
}

pub open spec fn u8_value(s: Seq<char>, radix: nat) -> nat {
    digits_value(unsigned_digits(s), radix)
}

/// A prefix of a run of digits never denotes more than the whole run.
pub proof fn lemma_prefix_value_le(s: Seq<char>, radix: nat, k: int)
    requires
        radix >= 1,
        0 <= k <= s.len(),
    ensures
        digits_value(s.take(k), radix) <= digits_value(s, radix),
    decreases s.len(),
{
    if k < s.len() {
        let p = s.drop_last();
        lemma_prefix_value_le(p, radix, k);
        assert(p.take(k) =~= s.take(k));
        let v = digits_value(p, radix);
        assert(v * radix >= v) by (nonlinear_arith)
            requires
                radix >= 1,
        ;
    } else {
        assert(s.take(k) =~= s);
    }
}

fn char_digit_exec(c: char) -> (d: u32)
    ensures
        d == char_digit(c),
{
    if '0' <= c && c <= '9' {
        (c as u32) - ('0' as u32)
    } else if 'a' <= c && c <= 'z' {
        (c as u32) - ('a' as u32) + 10
    } else if 'A' <= c && c <= 'Z' {
        (c as u32) - ('A' as u32) + 10
    } else {
        36
    }
}

/// Parses an unsigned 8-bit number written in the given base, with an
/// optional leading `+`: succeeds exactly when the text is such a number.
pub fn parse_u8_radix(s: &str, radix: u32) -> (r: Result<u8, ParseError>)
    requires
        2 <= radix <= 36,
    ensures
        r is Ok <==> is_u8_text(s@, radix as nat),
        r is Ok ==> r->Ok_0 == u8_value(s@, radix as nat),
{
    let n = s.unicode_len();
    let ghost digits = unsigned_digits(s@);
    let mut start: usize = 0;
    if n > 0 && s.get_char(0) == '+' {
        start = 1;
    }
    assert(digits =~= s@.subrange(start as int, n as int));
    if start == n {
        return Err(ParseError);
    }
    let mut i: usize = start;
    let mut acc: u32 = 0;
    while i < n
        invariant
            start <= i <= n,
            n == s@.len(),
            2 <= radix <= 36,
            digits == unsigned_digits(s@),
            digits == s@.subrange(start as int, n as int),
            acc == digits_value(s@.subrange(start as int, i as int), radix as nat),
            acc <= 255,
            forall|k: int| start <= k < i ==> is_digit_of(#[trigger] s@[k], radix as nat),
        decreases n - i,
    {
        let c = s.get_char(i);
        let d = char_digit_exec(c);
        if d >= radix {
            assert(digits[i - start] == c);
            assert(!is_digit_of(digits[i - start], radix as nat));
            return Err(ParseError);
        }
        let ghost before = s@.subrange(start as int, i as int);
        let ghost after = s@.subrange(start as int, i + 1);
        assert(after.drop_last() =~= before);
        assert(after.last() == c);
        assert(acc * radix <= 255 * 36) by (nonlinear_arith)
            requires
                acc <= 255,
                radix <= 36,
        ;
        let next = acc * radix + d;
        if next > 255 {
            proof {
                assert(digits_value(after, radix as nat) == next);
                assert(digits.take(i + 1 - start) =~= after);
                lemma_prefix_value_le(digits, radix as nat, i + 1 - start);
            }
            return Err(ParseError);
        }
        acc = next;
        i = i + 1;
    }
    assert(s@.subrange(start as int, i as int) =~= digits);
    assert(forall|k: int| 0 <= k < digits.len() ==> #[trigger] digits[k] == s@[k + start]);
    Ok(acc as u8)
}

/// Parses a `u8` written in base 16.
pub fn from_hex(input: &str) -> (r: Result<u8, ParseError>)
    ensures
        r is Ok <==> is_u8_text(input@, 16),
        r is Ok ==> r->Ok_0 == u8_value(input@, 16),
{
    parse_u8_radix(input, 16)
}

/// Parses a `u8` written in base 10.
pub fn parse_u8(input: &str) -> (r: Result<u8, ParseError>)
    ensures
        r is Ok <==> is_u8_text(input@, 10),
        r is Ok ==> r->Ok_0 == u8_value(input@, 10),
{
    parse_u8_radix(input, 10)
}

/// Whether `c` is a hexadecimal digit.
pub fn is_hex_digit(c: char) -> (r: bool)
    ensures
        r == is_hex_char(c),
{
    match c {
        '0'..='9' | 'a'..='f' | 'A'..='F' => true,
        _ => false,
    }
}

} // verus!
