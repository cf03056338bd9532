//! Colored text for a terminal that understands escape sequences.
//!
//! The escape sequences come from the `crossterm` crate: each command is
//! asked for its ANSI representation, which is appended to a string.

use crate::formatting::{Color, Render};
use crossterm::cursor::Hide;
use crossterm::style::{Print, ResetColor, SetForegroundColor};
use crossterm::Command;
use vstd::prelude::*;

verus! {

/// The terminal colors the clock uses.
#[derive(Clone, Copy, Debug, PartialEq, Eq, Structural)]
pub enum TermColor {
    White,
    Green,
    DarkGrey,
}

impl TermColor {
    /// The color of the palette that a terminal color stands in for.
    pub open spec fn stands_for(self) -> Color {
        match self {
            TermColor::White => Color::LightGray,
            TermColor::Green => Color::Green,
            TermColor::DarkGrey => Color::Gray,
        }
    }
}

/// The escape sequence that selects `color` as the foreground color: the
/// color's index in the 256-color palette, in a "select graphic rendition"
/// sequence.
pub open spec fn foreground_code(color: TermColor) -> Seq<char> {
    match color {
        TermColor::White => "\x1B[38;5;15m"@,
        TermColor::Green => "\x1B[38;5;10m"@,
        TermColor::DarkGrey => "\x1B[38;5;8m"@,
    }
}

/// The escape sequence that puts the colors back to the terminal's defaults.
pub open spec fn reset_code() -> Seq<char> {
    "\x1B[0m"@
}

/// The escape sequence that hides the cursor.
pub open spec fn hide_code() -> Seq<char> {
    "\x1B[?25l"@
}

/// Appends what `crossterm::style::SetForegroundColor` writes for `color`.
///
/// Trusted: the command's `write_ansi` writes `ESC [`, then `38;` and the
/// palette entry of the color (`5;15` for white, `5;10` for green, `5;8` for
/// dark grey), then `m`, and nothing else.
#[verifier::external_body]
fn queue_foreground(out: &mut String, color: TermColor)
    ensures
        final(out)@ == old(out)@ + foreground_code(color),
{
    let color = match color {
        TermColor::White => crossterm::style::Color::White,
        TermColor::Green => crossterm::style::Color::Green,
        TermColor::DarkGrey => crossterm::style::Color::DarkGrey,
    };
    let _ = SetForegroundColor(color).write_ansi(out);
}

/// Appends what `crossterm::style::Print` writes for `text`.
///
/// Trusted: the command's `write_ansi` writes the text it holds as it is.
#[verifier::external_body]
fn queue_print(out: &mut String, text: &str)
    ensures
        final(out)@ == old(out)@ + text@,
{
    let _ = Print(text).write_ansi(out);
}

/// Appends what `crossterm::style::ResetColor` writes.
///
/// Trusted: the command's `write_ansi` writes `ESC [ 0 m`.
#[verifier::external_body]
fn queue_reset(out: &mut String)
    ensures
        final(out)@ == old(out)@ + reset_code(),
{
    let _ = ResetColor.write_ansi(out);
}

/// Appends what `crossterm::cursor::Hide` writes.
///
/// Trusted: the command's `write_ansi` writes `ESC [ ? 2 5 l`.
#[verifier::external_body]
fn queue_hide(out: &mut String)
    ensures
        final(out)@ == old(out)@ + hide_code(),
{
    let _ = Hide.write_ansi(out);
}

/// A value shown in a foreground color on a terminal.
pub struct Ansi<T>(pub TermColor, pub T);

/// The color is selected, the value and one space are printed, the colors
/// are reset and the cursor is hidden.
impl<T: Render> Render for Ansi<T> {
    open spec fn text(&self) -> Seq<char> {
        foreground_code(self.0) + self.1.text() + " "@ + reset_code() + hide_code()
    }

    fn render(&self) -> (out: String) {
        let mut out = String::new();
        queue_foreground(&mut out, self.0);
        queue_print(&mut out, self.1.render().as_str());
        queue_print(&mut out, " ");
        queue_reset(&mut out);
        queue_hide(&mut out);
        out
    }
}

} // verus!
