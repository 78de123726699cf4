use vstd::prelude::*;

use crate::color::Color;
use crate::number::{
    char_digit, digits_value, from_hex, is_hex_char, is_hex_digit, is_u8_text, u8_value,
    unsigned_digits, ParseError,
};

verus! {

/// The value of two hexadecimal digits, the first the more significant.
pub open spec fn hex_pair_value(hi: char, lo: char) -> nat {
    char_digit(hi) * 16 + char_digit(lo)
}

/// The text after an optional single leading `#`.
pub open spec fn hex_body(s: Seq<char>) -> Seq<char> {
    if s.len() > 0 && s[0] == '#' {
        s.drop_first()
    } else {
        s
    }
}

/// The text starts, after an optional `#`, with six hexadecimal digits.
/// Anything after those six digits is ignored.
pub open spec fn is_hex_color_text(s: Seq<char>) -> bool {
    let b = hex_body(s);
    &&& b.len() >= 6
    &&& forall|i: int| 0 <= i < 6 ==> is_hex_char(#[trigger] b[i])
}

/// The channel given by the digit pair that starts at `i` of the body.
pub open spec fn hex_channel(s: Seq<char>, i: int) -> u8 {
    let b = hex_body(s);
    hex_pair_value(b[i], b[i + 1]) as u8
}

/// The color that a hex color text denotes.
pub open spec fn hex_color_of(s: Seq<char>) -> Color {
    Color { red: hex_channel(s, 0), green: hex_channel(s, 2), blue: hex_channel(s, 4) }
}

/// Two hexadecimal digits always fit in a byte.
pub proof fn lemma_hex_pair_fits(hi: char, lo: char)
    requires
        is_hex_char(hi),
        is_hex_char(lo),
    ensures
        char_digit(hi) < 16,
        char_digit(lo) < 16,
        hex_pair_value(hi, lo) <= 255,
{
}

/// Six hexadecimal digits, with or without a leading `#`, always parse, and
/// each channel is the base-16 value of its two-digit group.
pub proof fn lemma_six_digits_parse(s: Seq<char>)
    requires
        hex_body(s).len() == 6,
        forall|i: int| 0 <= i < 6 ==> is_hex_char(#[trigger] hex_body(s)[i]),
    ensures
        is_hex_color_text(s),
        hex_color_of(s).red == hex_pair_value(hex_body(s)[0], hex_body(s)[1]),
        hex_color_of(s).green == hex_pair_value(hex_body(s)[2], hex_body(s)[3]),
        hex_color_of(s).blue == hex_pair_value(hex_body(s)[4], hex_body(s)[5]),
{
    let b = hex_body(s);
    lemma_hex_pair_fits(b[0], b[1]);
    lemma_hex_pair_fits(b[2], b[3]);
    lemma_hex_pair_fits(b[4], b[5]);
}

/// Text with fewer than six characters after an optional `#` never parses.
pub proof fn lemma_short_text_fails(s: Seq<char>)
    requires
        hex_body(s).len() < 6,
    ensures
        !is_hex_color_text(s),
{
}

/// Text with a non-hex character among the first six after an optional `#`
/// never parses.
pub proof fn lemma_non_hex_char_fails(s: Seq<char>, i: int)
    requires
        0 <= i < 6,
        i < hex_body(s).len(),
        !is_hex_char(hex_body(s)[i]),
    ensures
        !is_hex_color_text(s),
{
}

/// Reads two hexadecimal digits at character position `pos` of `s`.
pub fn hex2(s: &str, pos: usize) -> (r: Result<u8, ParseError>)
    requires
        pos <= s@.len(),
    ensures
        r is Ok <==> (pos + 2 <= s@.len() && is_hex_char(s@[pos as int]) && is_hex_char(
            s@[pos + 1],
        )),
        r is Ok ==> r->Ok_0 == hex_pair_value(s@[pos as int], s@[pos + 1]),
{
    let n = s.unicode_len();
    if n - pos < 2 {
        return Err(ParseError);
    }
    let hi = s.get_char(pos);
    let lo = s.get_char(pos + 1);
    if !is_hex_digit(hi) || !is_hex_digit(lo) {
        return Err(ParseError);
    }
    let pair = s.substring_char(pos, pos + 2);
    proof {
        let p = pair@;
        lemma_hex_pair_fits(hi, lo);
        assert(p[0] == hi && p[1] == lo);
        assert(unsigned_digits(p) == p);
        let q = p.drop_last();
        assert(q.drop_last() =~= Seq::<char>::empty());
        assert(digits_value(q.drop_last(), 16) == 0);
        assert(q.last() == hi);
        assert(digits_value(p.drop_last(), 16) == char_digit(hi));
        assert(digits_value(p, 16) == hex_pair_value(hi, lo));
        assert(is_u8_text(p, 16));
    }
    match from_hex(pair) {
        Ok(v) => Ok(v),
        Err(e) => Err(e),
    }
}

/// Parses a color written as `#RRGGBB` or `RRGGBB`; characters after the six
/// digits are ignored.
pub fn hex_color(input: &str) -> (r: Result<Color, ParseError>)
    ensures
        r is Ok <==> is_hex_color_text(input@),
        r is Ok ==> r->Ok_0 == hex_color_of(input@),
{
    let ghost b = hex_body(input@);
    let n = input.unicode_len();
    let mut start: usize = 0;
    if n > 0 && input.get_char(0) == '#' {
        start = 1;
    }
    assert(forall|i: int| 0 <= i < b.len() ==> b[i] == #[trigger] input@[i + start]);
    let red = match hex2(input, start) {
        Ok(v) => v,
        Err(e) => {
            assert(!is_hex_char(b[0]) || !is_hex_char(b[1]) || b.len() < 6);
            return Err(e);
        },
    };
    let green = match hex2(input, start + 2) {
        Ok(v) => v,
        Err(e) => {
            assert(!is_hex_char(b[2]) || !is_hex_char(b[3]) || b.len() < 6);
            return Err(e);
        },
    };
    let blue = match hex2(input, start + 4) {
        Ok(v) => v,
        Err(e) => {
            assert(!is_hex_char(b[4]) || !is_hex_char(b[5]) || b.len() < 6);
            return Err(e);
        },
    };
    proof {
        assert(is_hex_char(b[0]) && is_hex_char(b[1]) && is_hex_char(b[2]));
        assert(is_hex_char(b[3]) && is_hex_char(b[4]) && is_hex_char(b[5]));
    }
    Ok(Color { red, green, blue })
}

} // verus!
