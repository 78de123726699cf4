//! Terminal color preview: a hex color parser, decimal channel parsing, and a
//! renderer that paints blocks of background-colored spaces with 24-bit ANSI
//! escape sequences.

pub mod color;
pub mod number;
pub mod hex;
pub mod render;
pub mod cli;
