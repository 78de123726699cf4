use vstd::prelude::*;

use crate::color::Color;
use crate::hex::{hex_color, hex_color_of, is_hex_color_text};
use crate::number::{is_u8_text, parse_u8, u8_value};
use crate::render::{preview_color, preview_text};

verus! {

/// Width of the preview block when none, or no valid one, is given.
pub const DEFAULT_WIDTH: u8 = 10;

/// Height of the preview block when none, or no valid one, is given.
pub const DEFAULT_HEIGHT: u8 = 5;

/// One of the three channels given separately on the command line.
#[derive(Debug, Clone, Copy, PartialEq, Eq, Structural)]
pub enum Channel {
    Red,
    Green,
    Blue,
}

/// What went wrong with the color options.
#[derive(Debug, Clone, Copy, PartialEq, Eq, Structural)]
pub enum Problem {
    /// The hex color could not be parsed.
    Hex,
    /// A channel value is not a `u8`.
    Channel(Channel),
    /// Neither a hex color nor all three channels were given.
    NoColor,
}

/// A fatal error: the problem and the offending text (empty for `NoColor`).
#[derive(Debug, Clone)]
pub struct CliError {
    pub problem: Problem,
    pub value: String,
}

/// What a run produces: warnings for the error stream, then either the
/// preview for the output stream or a fatal error message.
#[derive(Debug)]
pub struct Outcome {
    pub warnings: Vec<String>,
    pub result: Result<String, String>,
}

pub open spec fn opt_view(o: Option<&str>) -> Option<Seq<char>> {
    match o {
        Some(s) => Some(s@),
        None => None,
    }
}

/// A dimension option: its value when it is a valid `u8`, else the default.
pub open spec fn dimension_of(arg: Option<Seq<char>>, default: u8) -> u8 {
    match arg {
        Some(s) => if is_u8_text(s, 10) {
            u8_value(s, 10) as u8
        } else {
            default
        },
        None => default,
    }
}

/// A dimension option was given but is not a valid `u8`.
pub open spec fn is_bad_dimension(arg: Option<Seq<char>>) -> bool {
    arg is Some && !is_u8_text(arg->0, 10)
}

/// The color that the options select, or the problem and its offending text.
/// A hex color takes precedence; channels are checked red, green, then blue.
pub open spec fn color_choice(
    hex: Option<Seq<char>>,
    red: Option<Seq<char>>,
    green: Option<Seq<char>>,
    blue: Option<Seq<char>>,
) -> Result<Color, (Problem, Seq<char>)> {
    if hex is Some {
        let h = hex->0;
        if is_hex_color_text(h) {
            Ok(hex_color_of(h))
        } else {
            Err((Problem::Hex, h))
        }
    } else if red is Some && green is Some && blue is Some {
        let (r, g, b) = (red->0, green->0, blue->0);
        if !is_u8_text(r, 10) {
            Err((Problem::Channel(Channel::Red), r))
        } else if !is_u8_text(g, 10) {
            Err((Problem::Channel(Channel::Green), g))
        } else if !is_u8_text(b, 10) {
            Err((Problem::Channel(Channel::Blue), b))
        } else {
            Ok(
                Color {
                    red: u8_value(r, 10) as u8,
                    green: u8_value(g, 10) as u8,
                    blue: u8_value(b, 10) as u8,
                },
            )
        }
    } else {
        Err((Problem::NoColor, Seq::empty()))
    }
}

pub open spec fn channel_name(c: Channel) -> Seq<char> {
    match c {
        Channel::Red => "red"@,
        Channel::Green => "green"@,
        Channel::Blue => "blue"@,
    }
}

/// The message reported for a fatal error.
pub open spec fn error_text(p: Problem, value: Seq<char>) -> Seq<char> {
    match p {
        Problem::Hex => "Invalid value for hex: "@ + value,
        Problem::Channel(c) => "Invalid value for "@ + channel_name(c) + ": "@ + value,
        Problem::NoColor => "`farbe --help` to show usage"@,
    }
}

pub open spec fn width_warning(value: Seq<char>) -> Seq<char> {
    "Invalid value for width: "@ + value + "\nDefaulting to the default width"@
}

pub open spec fn height_warning(value: Seq<char>) -> Seq<char> {
    "invalid value for height: "@ + value + "\nDefaulting to the default height"@
}

/// The warnings for invalid dimensions, width first.
pub open spec fn warnings_of(width: Option<Seq<char>>, height: Option<Seq<char>>) -> Seq<
    Seq<char>,
> {
    (if is_bad_dimension(width) {
        seq![width_warning(width->0)]
    } else {
        Seq::empty()
    }) + (if is_bad_dimension(height) {
        seq![height_warning(height->0)]
    } else {
        Seq::empty()
    })
}

/// Reads a dimension option: its value, and whether it had to fall back to
/// the default because the text is not a valid `u8`.
pub fn dimension(arg: Option<&str>, default: u8) -> (r: (u8, bool))
    ensures
        r.0 == dimension_of(opt_view(arg), default),
        r.1 == is_bad_dimension(opt_view(arg)),
{
    match arg {
        Some(s) => match parse_u8(s) {
            Ok(v) => (v, false),
            Err(_) => (default, true),
        },
        None => (default, false),
    }
}

/// Selects the color from the options: a hex color if one is given, else the
/// three channels, each of which must be given.
pub fn choose_color(
    hex: Option<&str>,
    red: Option<&str>,
    green: Option<&str>,
    blue: Option<&str>,
) -> (r: Result<Color, CliError>)
    ensures
        match (r, color_choice(opt_view(hex), opt_view(red), opt_view(green), opt_view(blue))) {
            (Ok(c), Ok(d)) => c == d,
            (Err(e), Err(pv)) => e.problem == pv.0 && e.value@ == pv.1,
            _ => false,
        },
{
    if let Some(h) = hex {
        return match hex_color(h) {
            Ok(c) => Ok(c),
            Err(_) => Err(CliError { problem: Problem::Hex, value: h.to_string() }),
        };
    }
    match (red, green, blue) {
        (Some(r), Some(g), Some(b)) => {
            let rv = match parse_u8(r) {
                Ok(v) => v,
                Err(_) => {
                    return Err(
                        CliError { problem: Problem::Channel(Channel::Red), value: r.to_string() },
                    );
                },
            };
            let gv = match parse_u8(g) {
                Ok(v) => v,
                Err(_) => {
                    return Err(
                        CliError {
                            problem: Problem::Channel(Channel::Green),
                            value: g.to_string(),
                        },
                    );
                },
            };
            let bv = match parse_u8(b) {
                Ok(v) => v,
                Err(_) => {
                    return Err(
                        CliError { problem: Problem::Channel(Channel::Blue), value: b.to_string() },
                    );
                },
            };
            Ok(Color { red: rv, green: gv, blue: bv })
        },
        _ => Err(CliError { problem: Problem::NoColor, value: String::new() }),
    }
}

fn channel_text(c: Channel) -> (r: &'static str)
    ensures
        r@ == channel_name(c),
{
    match c {
        Channel::Red => "red",
        Channel::Green => "green",
        Channel::Blue => "blue",
    }
}

impl CliError {
    /// The message reported for this error.
    pub fn message(&self) -> (r: String)
        ensures
            r@ == error_text(self.problem, self.value@),
    {
        match self.problem {
            Problem::Hex => String::from_str("Invalid value for hex: ").concat(self.value.as_str()),
            Problem::Channel(c) => String::from_str("Invalid value for ").concat(
                channel_text(c),
            ).concat(": ").concat(self.value.as_str()),
            Problem::NoColor => String::from_str("`farbe --help` to show usage"),
        }
    }
}

impl Outcome {
    /// The process exit status: 0 when the preview was produced, 1 otherwise.
    pub fn exit_code(&self) -> (r: i32)
        ensures
            r == (if self.result is Ok {
                0i32
            } else {
                1i32
            }),
    {
        if self.result.is_ok() {
            0
        } else {
            1
        }
    }
}

/// Decides a whole run from the command-line options: the warnings for
/// invalid dimensions, then the preview of the selected color or the message
/// of the fatal error.
pub fn run(
    width: Option<&str>,
    height: Option<&str>,
    hex: Option<&str>,
    red: Option<&str>,
    green: Option<&str>,
    blue: Option<&str>,
) -> (r: Outcome)
    ensures
        r.warnings@.len() == warnings_of(opt_view(width), opt_view(height)).len(),
        forall|i: int|
            0 <= i < r.warnings@.len() ==> #[trigger] r.warnings@[i]@ == warnings_of(
                opt_view(width),
                opt_view(height),
            )[i],
        match color_choice(opt_view(hex), opt_view(red), opt_view(green), opt_view(blue)) {
            Ok(c) => r.result is Ok && r.result->Ok_0@ == preview_text(
                c,
                dimension_of(opt_view(width), DEFAULT_WIDTH) as nat,
                dimension_of(opt_view(height), DEFAULT_HEIGHT) as nat,
            ),
            Err(pv) => r.result is Err && r.result->Err_0@ == error_text(pv.0, pv.1),
        },
{
    let mut warnings: Vec<String> = Vec::new();
    let (w, w_bad) = dimension(width, DEFAULT_WIDTH);
    if w_bad {
        let text = String::from_str("Invalid value for width: ").concat(width.unwrap()).concat(
            "\nDefaulting to the default width",
        );
        warnings.push(text);
    }
    let (h, h_bad) = dimension(height, DEFAULT_HEIGHT);
    if h_bad {
        let text = String::from_str("invalid value for height: ").concat(height.unwrap()).concat(
            "\nDefaulting to the default height",
        );
        warnings.push(text);
    }
    let result = match choose_color(hex, red, green, blue) {
        Ok(c) => Ok(preview_color(&c, w, h)),
        Err(e) => Err(e.message()),
    };
    Outcome { warnings, result }
}

} // verus!
