//! A clock that shows the Unix time as four colored hexadecimal bytes.
//!
//! The library turns a 32-bit count of seconds since the epoch into one line
//! of text for a status bar (inline color tags), for a plain terminal (bare
//! hexadecimal), or for a color terminal (escape sequences). It also holds
//! the source of the seconds, which yields each second once. Every function
//! carries a contract over plain sequences of bytes and characters.

pub mod bits;
pub mod cli;
pub mod clock;
pub mod formatting;
pub mod refresh;
pub mod seg;
pub mod term;

use crate::cli::Mode;
use crate::formatting::{Fc, Hex2, Render, TermFmt, XmobarFmt};
use crate::seg::{markup_color, term_color, Scheme, Segment};
use crate::term::{Ansi, TermColor};
use vstd::arithmetic::div_mod::lemma_fundamental_div_mod_converse;
use vstd::prelude::*;

verus! {

/// A time in whole seconds since the epoch, looked at byte by byte.
#[derive(Clone, Copy)]
pub struct HexTime(pub u32);

/// The number that four bytes spell when the first is the most significant.
pub open spec fn be_value(bytes: Seq<u8>) -> nat
    recommends
        bytes.len() == 4,
{
    (bytes[0] * 0x100_0000 + bytes[1] * 0x1_0000 + bytes[2] * 0x100 + bytes[3]) as nat
}

impl HexTime {
    /// The byte at `position`, where position 0 holds the highest eight bits
    /// and position 3 the lowest.
    pub open spec fn byte(self, position: nat) -> u8
        recommends
            position < 4,
    {
        if position == 0 {
            (self.0 / 0x100_0000) as u8
        } else if position == 1 {
            (self.0 / 0x1_0000 % 0x100) as u8
        } else if position == 2 {
            (self.0 / 0x100 % 0x100) as u8
        } else {
            (self.0 % 0x100) as u8
        }
    }

    /// The four bytes of the time, most significant first.
    pub open spec fn be_bytes(self) -> Seq<u8> {
        seq![self.byte(0), self.byte(1), self.byte(2), self.byte(3)]
    }

    /// The four bytes of a time spell that time again.
    pub proof fn lemma_bytes_spell_time(self)
        ensures
            self.be_bytes().len() == 4,
            be_value(self.be_bytes()) == self.0,
    {
        let x = self.0 as int;
        assert(x == 0x100 * (x / 0x100) + x % 0x100);
        assert(x / 0x100 == 0x100 * (x / 0x100 / 0x100) + x / 0x100 % 0x100);
        assert(x / 0x1_0000 == 0x100 * (x / 0x1_0000 / 0x100) + x / 0x1_0000 % 0x100);
        assert(x / 0x100 / 0x100 == x / 0x1_0000);
        assert(x / 0x1_0000 / 0x100 == x / 0x100_0000);
        assert(x / 0x100_0000 < 0x100);
    }

    /// No other four bytes spell the time.
    pub proof fn lemma_bytes_unique(self, bytes: Seq<u8>)
        requires
            bytes.len() == 4,
            be_value(bytes) == self.0,
        ensures
            bytes == self.be_bytes(),
    {
        let x = self.0 as int;
        let (b0, b1, b2, b3) = (bytes[0] as int, bytes[1] as int, bytes[2] as int, bytes[3] as int);
        lemma_fundamental_div_mod_converse(x, 0x100_0000, b0, b1 * 0x1_0000 + b2 * 0x100 + b3);
        lemma_fundamental_div_mod_converse(x, 0x1_0000, b0 * 0x100 + b1, b2 * 0x100 + b3);
        lemma_fundamental_div_mod_converse(x / 0x1_0000, 0x100, b0, b1);
        lemma_fundamental_div_mod_converse(x, 0x100, b0 * 0x1_0000 + b1 * 0x100 + b2, b3);
        lemma_fundamental_div_mod_converse(x / 0x100, 0x100, b0 * 0x100 + b1, b2);
        assert(bytes =~= self.be_bytes());
    }

    /// The four bytes of the time: the most significant byte comes first,
    /// the byte that counts the seconds comes last.
    pub fn bytes(self) -> (out: Vec<u8>)
        ensures
            out@ == self.be_bytes(),
            out@.len() == 4,
            be_value(out@) == self.0,
    {
        let x = self.0;
        assert(x >> 24 == x / 0x100_0000 && x >> 24 < 0x100) by (bit_vector);
        assert((x >> 16) & 0xff == x / 0x1_0000 % 0x100) by (bit_vector);
        assert((x >> 8) & 0xff == x / 0x100 % 0x100) by (bit_vector);
        assert(x & 0xff == x % 0x100) by (bit_vector);
        let out = vec![
            (x >> 24) as u8,
            ((x >> 16) & 0xff) as u8,
            ((x >> 8) & 0xff) as u8,
            (x & 0xff) as u8,
        ];
        assert(out@ =~= self.be_bytes());
        out
    }

    /// The four bytes of the time in the same order, each with its segment:
    /// the first byte is segment three, the last is segment zero.
    pub fn segmented(self) -> (out: Vec<(Segment, u8)>)
        ensures
            out@.len() == 4,
            forall|i: int|
                0 <= i < 4 ==> (#[trigger] out@[i]).0@ == 3 - i && out@[i].1 == self.byte(i as nat),
    {
        let bytes = self.bytes();
        let mut out: Vec<(Segment, u8)> = Vec::new();
        let mut idx: usize = 0;
        while idx < bytes.len()
            invariant
                idx <= 4,
                bytes@ == self.be_bytes(),
                out@.len() == idx,
                forall|i: int|
                    0 <= i < idx ==> (#[trigger] out@[i]).0@ == 3 - i && out@[i].1 == self.byte(
                        i as nat,
                    ),
            decreases 4 - idx,
        {
            out.push((Segment::new(bytes.len() - 1 - idx), bytes[idx]));
            idx += 1;
        }
        out
    }
}

/// What a line holds for the byte at `position` of the time `x`: the byte
/// in two hexadecimal digits, in the color of its segment where the mode has
/// colors, and a space.
pub open spec fn cell(mode: Mode, x: u32, position: nat) -> Seq<char>
    recommends
        position < 4,
{
    let byte = Hex2(HexTime(x).byte(position));
    let offset = (3 - position) as nat;
    match mode {
        Mode::Xmobar => Fc(markup_color(offset), byte).text() + " "@,
        Mode::Terminal => byte.text() + " "@,
        Mode::ColorTerm => Ansi(term_color(offset), byte).text(),
    }
}

/// The first `count` cells of a line, with the most significant byte first.
pub open spec fn cells(mode: Mode, x: u32, count: nat) -> Seq<char>
    decreases count,
{
    if count == 0 {
        Seq::empty()
    } else {
        cells(mode, x, (count - 1) as nat) + cell(mode, x, (count - 1) as nat)
    }
}

/// The line that shows the time `x` in `mode`: the cells of its four bytes.
pub open spec fn line(mode: Mode, x: u32) -> Seq<char> {
    cells(mode, x, 4)
}

/// The line that shows the time `x` on a color terminal. For each byte the
/// color of its segment is selected, the byte and a space are printed, the
/// colors are reset and the cursor is hidden.
pub fn term_color_line(x: u32) -> (out: String)
    ensures
        out@ == line(Mode::ColorTerm, x),
{
    let segments = HexTime(x).segmented();
    let mut out = String::new();
    let mut idx: usize = 0;
    while idx < segments.len()
        invariant
            idx <= segments@.len() == 4,
            forall|i: int|
                0 <= i < 4 ==> (#[trigger] segments@[i]).0@ == 3 - i && segments@[i].1 == HexTime(
                    x,
                ).byte(i as nat),
            out@ == cells(Mode::ColorTerm, x, idx as nat),
        decreases 4 - idx,
    {
        let (segment, byte) = segments[idx];
        let colored = Ansi(TermColor::from(segment), Hex2(byte));
        out.append(colored.render().as_str());
        idx += 1;
    }
    out
}

/// The line that shows the time `now` in the chosen mode.
pub fn render_line(mode: Mode, now: u32) -> (out: String)
    ensures
        out@ == line(mode, now),
{
    match mode {
        Mode::Xmobar => XmobarFmt(now).render(),
        Mode::Terminal => TermFmt(now).render(),
        Mode::ColorTerm => term_color_line(now),
    }
}

/// What a status bar line holds for the byte at `position` of the time `x`
/// under a color scheme: the tagged byte and a space, or nothing where the
/// scheme leaves the byte out.
pub open spec fn toned_cell(scheme: Scheme, x: u32, position: nat) -> Seq<char>
    recommends
        position < 4,
{
    match scheme.color_at(position) {
        Some(color) => Fc(color, Hex2(HexTime(x).byte(position))).text() + " "@,
        None => Seq::empty(),
    }
}

/// The first `count` cells of a status bar line under a color scheme.
pub open spec fn toned_cells(scheme: Scheme, x: u32, count: nat) -> Seq<char>
    decreases count,
{
    if count == 0 {
        Seq::empty()
    } else {
        toned_cells(scheme, x, (count - 1) as nat) + toned_cell(scheme, x, (count - 1) as nat)
    }
}

/// The status bar line that shows the time `x` under a color scheme.
pub open spec fn toned_line(scheme: Scheme, x: u32) -> Seq<char> {
    toned_cells(scheme, x, 4)
}

/// Under the four-tone scheme the line is the one that `XmobarFmt` renders.
pub proof fn lemma_four_tone_line(x: u32)
    ensures
        toned_line(Scheme::FourTone, x) == line(Mode::Xmobar, x),
{
    reveal_with_fuel(toned_cells, 5);
    reveal_with_fuel(cells, 5);
}

/// The status bar line that shows the time `x` under a color scheme: each
/// byte that the scheme shows, tagged with its color and followed by a space.
pub fn markup_line(scheme: Scheme, x: u32) -> (out: String)
    ensures
        out@ == toned_line(scheme, x),
{
    let bytes = HexTime(x).bytes();
    let mut out = String::new();
    let mut idx: usize = 0;
    while idx < bytes.len()
        invariant
            idx <= bytes@.len() == 4,
            bytes@ == HexTime(x).be_bytes(),
            out@ == toned_cells(scheme, x, idx as nat),
        decreases 4 - idx,
    {
        if let Some(color) = scheme.classify(idx) {
            out.append(Fc(color, Hex2(bytes[idx])).render().as_str());
            out.append(" ");
        }
        idx += 1;
        assert(out@ =~= toned_cells(scheme, x, idx as nat));
    }
    out
}

} // verus!
