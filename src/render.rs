use vstd::prelude::*;

use crate::color::Color;

verus! {

/// The character of a decimal digit.
pub open spec fn digit_char(d: nat) -> char {
    if d == 0 {
        '0'
    } else if d == 1 {
        '1'
    } else if d == 2 {
        '2'
    } else if d == 3 {
        '3'
    } else if d == 4 {
        '4'
    } else if d == 5 {
        '5'
    } else if d == 6 {
        '6'
    } else if d == 7 {
        '7'
    } else if d == 8 {
        '8'
    } else {
        '9'
    }
}

/// The decimal writing of `n`: no sign, no padding, no leading zeros.
pub open spec fn decimal(n: nat) -> Seq<char>
    decreases n,
{
    if n < 10 {
        seq![digit_char(n)]
    } else {
        decimal(n / 10) + seq![digit_char(n % 10)]
    }
}

/// A run of `w` spaces.
pub open spec fn spaces(w: nat) -> Seq<char> {
    Seq::new(w, |_i: int| ' ')
}

/// The escape sequence that selects `c` as a 24-bit background color.
pub open spec fn background_prefix(c: Color) -> Seq<char> {
    seq!['\x1b', '[', '4', '8', ';', '2', ';'] + decimal(c.red as nat) + seq![';'] + decimal(
        c.green as nat,
    ) + seq![';'] + decimal(c.blue as nat) + seq!['m']
}

/// The escape sequence that restores the default styling.
pub open spec fn reset_suffix() -> Seq<char> {
    seq!['\x1b', '[', '0', 'm']
}

/// One painted run: `w` spaces on the background `c`, then a reset.
pub open spec fn painted(c: Color, w: nat) -> Seq<char> {
    background_prefix(c) + spaces(w) + reset_suffix()
}

/// `h` copies of `line`, each ended by a newline.
pub open spec fn lines_of(line: Seq<char>, h: nat) -> Seq<char>
    decreases h,
{
    if h == 0 {
        Seq::empty()
    } else {
        lines_of(line, (h - 1) as nat) + line + seq!['\n']
    }
}

/// The whole preview block: `h` lines, each a painted run of width `w`.
pub open spec fn preview_text(c: Color, w: nat, h: nat) -> Seq<char> {
    lines_of(painted(c, w), h)
}

/// With width zero every line holds no space between the color escape and
/// the reset, and there are still `h` lines.
pub proof fn lemma_zero_width(c: Color, h: nat)
    ensures
        preview_text(c, 0, h) == lines_of(background_prefix(c) + reset_suffix(), h),
{
    assert(painted(c, 0) =~= background_prefix(c) + reset_suffix());
}

/// With height zero the preview is empty.
pub proof fn lemma_zero_height(c: Color, w: nat)
    ensures
        preview_text(c, w, 0) == Seq::<char>::empty(),
{
}

fn digit_text(d: u8) -> (r: &'static str)
    requires
        d < 10,
    ensures
        r@ == seq![digit_char(d as nat)],
{
    match d {
        0 => {
            proof {
                reveal_strlit("0");
            }
            "0"
        },
        1 => {
            proof {
                reveal_strlit("1");
            }
            "1"
        },
        2 => {
            proof {
                reveal_strlit("2");
            }
            "2"
        },
        3 => {
            proof {
                reveal_strlit("3");
            }
            "3"
        },
        4 => {
            proof {
                reveal_strlit("4");
            }
            "4"
        },
        5 => {
            proof {
                reveal_strlit("5");
            }
            "5"
        },
        6 => {
            proof {
                reveal_strlit("6");
            }
            "6"
        },
        7 => {
            proof {
                reveal_strlit("7");
            }
            "7"
        },
        8 => {
            proof {
                reveal_strlit("8");
            }
            "8"
        },
        _ => {
            proof {
                reveal_strlit("9");
            }
            "9"
        },
    }
}

/// Appends the decimal writing of `n` to `out`.
pub fn push_decimal(out: &mut String, n: u8)
    ensures
        final(out)@ == old(out)@ + decimal(n as nat),
{
    let ghost start = out@;
    if n >= 100 {
        out.append(digit_text(n / 100));
    }
    if n >= 10 {
        out.append(digit_text((n / 10) % 10));
    }
    out.append(digit_text(n % 10));
    proof {
        let m = n as nat;
        if m >= 100 {
            assert(decimal(m / 100) == seq![digit_char(m / 100)]);
            assert(decimal(m / 10) == decimal(m / 10 / 10) + seq![digit_char((m / 10) % 10)]);
            assert(m / 10 / 10 == m / 100);
        } else if m >= 10 {
            assert(decimal(m / 10) == seq![digit_char(m / 10)]);
        }
        assert(out@ =~= start + decimal(m));
    }
}

/// Appends `w` spaces to `out`.
pub fn push_spaces(out: &mut String, w: usize)
    ensures
        final(out)@ == old(out)@ + spaces(w as nat),
{
    let ghost start = out@;
    let mut i: usize = 0;
    proof {
        reveal_strlit(" ");
        assert(out@ =~= start + spaces(0));
    }
    while i < w
        invariant
            i <= w,
            out@ == start + spaces(i as nat),
            " "@ == seq![' '],
        decreases w - i,
    {
        out.append(" ");
        i = i + 1;
        assert(out@ =~= start + spaces(i as nat));
    }
}

/// Appends one painted run of `width` spaces on the background `c`.
pub fn push_painted(out: &mut String, c: &Color, width: usize)
    ensures
        final(out)@ == old(out)@ + painted(*c, width as nat),
{
    let ghost start = out@;
    proof {
        reveal_strlit("\x1b[48;2;");
        reveal_strlit(";");
        reveal_strlit("m");
        reveal_strlit("\x1b[0m");
    }
    out.append("\x1b[48;2;");
    push_decimal(out, c.red);
    out.append(";");
    push_decimal(out, c.green);
    out.append(";");
    push_decimal(out, c.blue);
    out.append("m");
    push_spaces(out, width);
    out.append("\x1b[0m");
    assert(out@ =~= start + painted(*c, width as nat));
}

impl Color {
    /// This color painted as a run of `width` background-colored spaces,
    /// followed by a reset.
    pub fn to_string_with_width(&self, width: usize) -> (r: String)
        ensures
            r@ == painted(*self, width as nat),
    {
        let mut out = String::new();
        push_painted(&mut out, self, width);
        assert(out@ =~= painted(*self, width as nat));
        out
    }

    /// This color painted as a single background-colored space.
    pub fn to_string(&self) -> (r: String)
        ensures
            r@ == painted(*self, 1),
    {
        self.to_string_with_width(1)
    }
}

/// The preview block of `color`: `height` lines, each `width` spaces on the
/// color's background followed by a reset and a newline.
pub fn preview_color(color: &Color, width: u8, height: u8) -> (r: String)
    ensures
        r@ == preview_text(*color, width as nat, height as nat),
{
    let mut out = String::new();
    let mut row: u8 = 0;
    proof {
        reveal_strlit("\n");
    }
    while row < height
        invariant
            row <= height,
            out@ == lines_of(painted(*color, width as nat), row as nat),
            "\n"@ == seq!['\n'],
        decreases height - row,
    {
        push_painted(&mut out, color, width as usize);
        out.append("\n");
        row = row + 1;
    }
    out
}

} // verus!
