//! The palette and the textual forms of colors and bytes.

use crate::bits::Bits;
use crate::cli::Mode;
use crate::{cells, line, HexTime};
use vstd::arithmetic::power::pow;
use vstd::prelude::*;
use vstd::std_specs::convert::FromSpecImpl;

verus! {

/// A value that has one textual form.
///
/// `text` says what the form is; `render` produces it.
pub trait Render {
    /// The characters of the rendered value.
    spec fn text(&self) -> Seq<char>;

    /// Renders the value as a string.
    fn render(&self) -> (out: String)
        ensures
            out@ == self.text(),
    ;
}

/// Rendering has no memory: whatever `render` returns for a value on one
/// call holds the same characters as what it returns on another.
pub proof fn lemma_render_repeats<T: Render>(value: &T, first: String, second: String)
    requires
        first@ == value.text(),
        second@ == value.text(),
    ensures
        first@ == second@,
{
}

/// The character of one hexadecimal digit: `0` to `9`, then `A` to `F` if
/// `upper` and `a` to `f` otherwise.
pub open spec fn hex_digit(n: nat, upper: bool) -> char
    recommends
        n < 16,
{
    if n < 10 {
        ('0' as u8 + n) as char
    } else if upper {
        ('A' as u8 + (n - 10)) as char
    } else {
        ('a' as u8 + (n - 10)) as char
    }
}

/// The last `width` hexadecimal digits of `value`, most significant first,
/// with leading zeros.
pub open spec fn hex(value: nat, width: nat, upper: bool) -> Seq<char>
    decreases width,
{
    if width == 0 {
        Seq::empty()
    } else {
        hex(value / 16, (width - 1) as nat, upper).push(hex_digit(value % 16, upper))
    }
}

/// The hexadecimal digits of `value`, most significant first, with leading
/// zeros up to `width` digits: as many digits as the number needs, at least
/// `width` of them and at least one.
pub open spec fn hex_wide(value: nat, width: nat, upper: bool) -> Seq<char>
    decreases value, width,
{
    if value < 16 && width <= 1 {
        seq![hex_digit(value, upper)]
    } else {
        hex_wide(
            value / 16,
            if width == 0 {
                0
            } else {
                (width - 1) as nat
            },
            upper,
        ).push(hex_digit(value % 16, upper))
    }
}

/// The number that a hexadecimal digit stands for, in either case.
pub open spec fn digit_value(digit: char) -> nat
    recommends
        '0' <= digit <= '9' || 'a' <= digit <= 'f' || 'A' <= digit <= 'F',
{
    if '0' <= digit <= '9' {
        (digit as u8 - '0' as u8) as nat
    } else if 'a' <= digit <= 'f' {
        (digit as u8 - 'a' as u8 + 10) as nat
    } else {
        (digit as u8 - 'A' as u8 + 10) as nat
    }
}

/// The number that hexadecimal digits spell, most significant first.
pub open spec fn hex_value(digits: Seq<char>) -> nat
    decreases digits.len(),
{
    if digits.len() == 0 {
        0
    } else {
        hex_value(digits.drop_last()) * 16 + digit_value(digits.last())
    }
}

/// A number that fits in `width` hexadecimal digits is written with exactly
/// `width` digits, and they spell the number again.
pub proof fn lemma_hex_spells_value(value: nat, width: nat, upper: bool)
    requires
        value < pow(16, width),
    ensures
        hex(value, width, upper).len() == width,
        hex_value(hex(value, width, upper)) == value,
    decreases width,
{
    reveal(pow);
    if width > 0 {
        let front = hex(value / 16, (width - 1) as nat, upper);
        let digit = hex_digit(value % 16, upper);
        assert(value / 16 < pow(16, (width - 1) as nat));
        lemma_hex_spells_value(value / 16, (width - 1) as nat, upper);
        assert(front.push(digit).drop_last() =~= front);
        assert(digit_value(digit) == value % 16);
    }
}

/// Every digit that is written is a decimal digit or one of the six letters,
/// in the case that was asked for.
pub proof fn lemma_hex_keeps_case(value: nat, width: nat, upper: bool)
    ensures
        forall|i: int|
            0 <= i < hex(value, width, upper).len() ==> {
                let digit = #[trigger] hex(value, width, upper)[i];
                '0' <= digit <= '9' || if upper {
                    'A' <= digit <= 'F'
                } else {
                    'a' <= digit <= 'f'
                }
            },
    decreases width,
{
    if width > 0 {
        let front = hex(value / 16, (width - 1) as nat, upper);
        let all = hex(value, width, upper);
        lemma_hex_keeps_case(value / 16, (width - 1) as nat, upper);
        assert forall|i: int| 0 <= i < all.len() implies {
            let digit = #[trigger] all[i];
            '0' <= digit <= '9' || if upper {
                'A' <= digit <= 'F'
            } else {
                'a' <= digit <= 'f'
            }
        } by {
            if i < front.len() {
                assert(all[i] == front[i]);
            } else {
                assert(all[i] == hex_digit(value % 16, upper));
            }
        }
    }
}

/// A number that fits in `width` digits is written with exactly those.
pub proof fn lemma_hex_wide_fits(value: nat, width: nat, upper: bool)
    requires
        1 <= width,
        value < pow(16, width),
    ensures
        hex_wide(value, width, upper) == hex(value, width, upper),
    decreases width,
{
    reveal(pow);
    reveal_with_fuel(hex, 2);
    if value < 16 && width <= 1 {
        assert(hex_wide(value, width, upper) =~= hex(value, width, upper));
    } else {
        assert(width >= 2) by {
            reveal_with_fuel(pow, 2);
        }
        assert(value / 16 < pow(16, (width - 1) as nat));
        lemma_hex_wide_fits(value / 16, (width - 1) as nat, upper);
    }
}

/// A number is written with at least `width` digits and at least one, and
/// the digits spell the number again, however wide it is.
pub proof fn lemma_hex_wide_spells_value(value: nat, width: nat, upper: bool)
    ensures
        hex_wide(value, width, upper).len() >= width,
        hex_wide(value, width, upper).len() >= 1,
        hex_value(hex_wide(value, width, upper)) == value,
    decreases value, width,
{
    if value < 16 && width <= 1 {
        let digits = hex_wide(value, width, upper);
        assert(digits.drop_last() =~= Seq::<char>::empty());
        assert(hex_value(digits.drop_last()) == 0);
        assert(digit_value(hex_digit(value, upper)) == value);
    } else {
        let less: nat = if width == 0 {
            0
        } else {
            (width - 1) as nat
        };
        let front = hex_wide(value / 16, less, upper);
        let digit = hex_digit(value % 16, upper);
        lemma_hex_wide_spells_value(value / 16, less, upper);
        assert(front.push(digit).drop_last() =~= front);
        assert(digit_value(digit) == value % 16);
    }
}

/// Every digit of a number, however wide, is a decimal digit or one of the
/// six letters, in the case that was asked for.
pub proof fn lemma_hex_wide_keeps_case(value: nat, width: nat, upper: bool)
    ensures
        forall|i: int|
            0 <= i < hex_wide(value, width, upper).len() ==> {
                let digit = #[trigger] hex_wide(value, width, upper)[i];
                '0' <= digit <= '9' || if upper {
                    'A' <= digit <= 'F'
                } else {
                    'a' <= digit <= 'f'
                }
            },
    decreases value, width,
{
    if !(value < 16 && width <= 1) {
        let less: nat = if width == 0 {
            0
        } else {
            (width - 1) as nat
        };
        let front = hex_wide(value / 16, less, upper);
        let all = hex_wide(value, width, upper);
        lemma_hex_wide_keeps_case(value / 16, less, upper);
        assert forall|i: int| 0 <= i < all.len() implies {
            let digit = #[trigger] all[i];
            '0' <= digit <= '9' || if upper {
                'A' <= digit <= 'F'
            } else {
                'a' <= digit <= 'f'
            }
        } by {
            if i < front.len() {
                assert(all[i] == front[i]);
            } else {
                assert(all[i] == hex_digit(value % 16, upper));
            }
        }
    }
}

/// One hexadecimal digit as a string of one character.
fn digit_str(n: u8, upper: bool) -> (s: &'static str)
    requires
        n < 16,
    ensures
        s@ == seq![hex_digit(n as nat, upper)],
{
    proof {
        reveal_strlit("0");
        reveal_strlit("1");
        reveal_strlit("2");
        reveal_strlit("3");
        reveal_strlit("4");
        reveal_strlit("5");
        reveal_strlit("6");
        reveal_strlit("7");
        reveal_strlit("8");
        reveal_strlit("9");
        reveal_strlit("A");
        reveal_strlit("B");
        reveal_strlit("C");
        reveal_strlit("D");
        reveal_strlit("E");
        reveal_strlit("F");
        reveal_strlit("a");
        reveal_strlit("b");
        reveal_strlit("c");
        reveal_strlit("d");
        reveal_strlit("e");
        reveal_strlit("f");
    }
    let s = match (n, upper) {
        (0, _) => "0",
        (1, _) => "1",
        (2, _) => "2",
        (3, _) => "3",
        (4, _) => "4",
        (5, _) => "5",
        (6, _) => "6",
        (7, _) => "7",
        (8, _) => "8",
        (9, _) => "9",
        (10, true) => "A",
        (11, true) => "B",
        (12, true) => "C",
        (13, true) => "D",
        (14, true) => "E",
        (15, true) => "F",
        (10, false) => "a",
        (11, false) => "b",
        (12, false) => "c",
        (13, false) => "d",
        (14, false) => "e",
        (_, _) => "f",
    };
    assert(s@ =~= seq![hex_digit(n as nat, upper)]);
    s
}

/// Appends the hexadecimal digits of `value` to `out`, with leading zeros
/// up to `width` digits.
fn push_hex(out: &mut String, value: u128, width: u8, upper: bool)
    ensures
        final(out)@ == old(out)@ + hex_wide(value as nat, width as nat, upper),
    decreases value, width,
{
    if value >= 16 || width > 1 {
        let less: u8 = if width == 0 {
            0
        } else {
            width - 1
        };
        push_hex(out, value / 16, less, upper);
    }
    out.append(digit_str((value % 16) as u8, upper));
    assert(final(out)@ =~= old(out)@ + hex_wide(value as nat, width as nat, upper));
}

/// The closed set of colors a byte of the clock can be shown in.
#[derive(Clone, Copy, Debug, PartialEq, Eq, Structural)]
pub enum Color {
    Gray,
    LightGray,
    Red,
    Yellow,
    Blue,
    Green,
    Cyan,
}

impl Color {
    /// The 24-bit RGB value of a color, red in the highest of the three bytes.
    pub open spec fn rgb(self) -> u32 {
        match self {
            Color::Gray => 0x99_99_99,
            Color::LightGray => 0xcc_cc_cc,
            Color::Red => 0xff_00_00,
            Color::Yellow => 0xff_ff_00,
            Color::Blue => 0x00_00_ff,
            Color::Green => 0x00_ff_00,
            Color::Cyan => 0x00_ff_ff,
        }
    }
}

impl From<Color> for u32 {
    fn from(other: Color) -> (rgb: u32) {
        match other {
            Color::Gray => 0x99_99_99,
            Color::LightGray => 0xcc_cc_cc,
            Color::Red => 0xff_00_00,
            Color::Yellow => 0xff_ff_00,
            Color::Blue => 0x00_00_ff,
            Color::Green => 0x00_ff_00,
            Color::Cyan => 0x00_ff_ff,
        }
    }
}

impl FromSpecImpl<Color> for u32 {
    open spec fn obeys_from_spec() -> bool {
        true
    }

    open spec fn from_spec(v: Color) -> u32 {
        v.rgb()
    }
}

/// A color renders as the six lowercase hexadecimal digits of its RGB value.
impl Render for Color {
    open spec fn text(&self) -> Seq<char> {
        hex(self.rgb() as nat, 6, false)
    }

    fn render(&self) -> (out: String) {
        let x: u32 = u32::from(*self);
        let mut out = String::new();
        proof {
            reveal_with_fuel(pow, 7);
            lemma_hex_wide_fits(x as nat, 6, false);
        }
        push_hex(&mut out, x as u128, 6, false);
        out
    }
}

impl Color {
    /// The text of a color has six digits, and they spell its RGB value.
    pub proof fn lemma_text_spells_rgb(self)
        ensures
            self.text().len() == 6,
            hex_value(self.text()) == self.rgb(),
    {
        reveal_with_fuel(pow, 7);
        lemma_hex_spells_value(self.rgb() as nat, 6, false);
    }
}

/// An integer shown in hexadecimal, in upper case and at least two digits
/// wide.
#[derive(Clone)]
pub struct Hex2<T>(pub T);

/// An integer renders as the uppercase hexadecimal digits that its bits
/// spell, with a leading zero where one digit would do. A byte has exactly
/// two digits; a wider integer has as many as it needs; a negative integer
/// is shown in two's complement.
impl<T: Bits> Render for Hex2<T> {
    open spec fn text(&self) -> Seq<char> {
        hex_wide(self.0.bits(), 2, true)
    }

    fn render(&self) -> (out: String) {
        let mut out = String::new();
        push_hex(&mut out, self.0.to_bits(), 2, true);
        out
    }
}

impl Hex2<u8> {
    /// The text of a byte is its two digits, and they spell the byte.
    pub proof fn lemma_text_spells_byte(self)
        ensures
            self.text() == hex(self.0 as nat, 2, true),
            self.text().len() == 2,
            hex_value(self.text()) == self.0,
    {
        reveal_with_fuel(pow, 3);
        lemma_hex_wide_fits(self.0 as nat, 2, true);
        lemma_hex_spells_value(self.0 as nat, 2, true);
    }
}

impl<T: Bits> Hex2<T> {
    /// The text of an integer has two digits or more, and they spell the
    /// number that its bits spell.
    pub proof fn lemma_text_spells_bits(self)
        ensures
            self.text().len() >= 2,
            hex_value(self.text()) == self.0.bits(),
    {
        lemma_hex_wide_spells_value(self.0.bits(), 2, true);
    }
}

/// A value wrapped in a tag that sets its foreground color.
pub struct Fc<T>(pub Color, pub T);

/// The tag opens with the color's six digits and closes after the value.
impl<T: Render> Render for Fc<T> {
    open spec fn text(&self) -> Seq<char> {
        "<fc=#"@ + self.0.text() + ">"@ + self.1.text() + "</fc>"@
    }

    fn render(&self) -> (out: String) {
        let mut out = String::from_str("<fc=#");
        out.append(self.0.render().as_str());
        out.append(">");
        out.append(self.1.render().as_str());
        out.append("</fc>");
        out
    }
}

/// A time as a line for a status bar.
pub struct XmobarFmt<T>(pub T);

/// Each byte stands in the tag of its segment's color, with a space behind.
impl Render for XmobarFmt<u32> {
    open spec fn text(&self) -> Seq<char> {
        line(Mode::Xmobar, self.0)
    }

    fn render(&self) -> (out: String) {
        let segments = HexTime(self.0).segmented();
        let mut out = String::new();
        let mut idx: usize = 0;
        while idx < segments.len()
            invariant
                idx <= segments@.len() == 4,
                forall|i: int|
                    0 <= i < 4 ==> (#[trigger] segments@[i]).0@ == 3 - i && segments@[i].1
                        == HexTime(self.0).byte(i as nat),
                out@ == cells(Mode::Xmobar, self.0, idx as nat),
            decreases 4 - idx,
        {
            let (segment, byte) = segments[idx];
            let tagged = Fc(Color::from(segment), Hex2(byte));
            out.append(tagged.render().as_str());
            out.append(" ");
            idx += 1;
            assert(out@ =~= cells(Mode::Xmobar, self.0, idx as nat));
        }
        out
    }
}

/// A time as a line for a terminal without colors.
pub struct TermFmt<T>(pub T);

/// Each byte stands as two digits, with a space behind.
impl Render for TermFmt<u32> {
    open spec fn text(&self) -> Seq<char> {
        line(Mode::Terminal, self.0)
    }

    fn render(&self) -> (out: String) {
        let bytes = HexTime(self.0).bytes();
        let mut out = String::new();
        let mut idx: usize = 0;
        while idx < bytes.len()
            invariant
                idx <= bytes@.len() == 4,
                bytes@ == HexTime(self.0).be_bytes(),
                out@ == cells(Mode::Terminal, self.0, idx as nat),
            decreases 4 - idx,
        {
            out.append(Hex2(bytes[idx]).render().as_str());
            out.append(" ");
            idx += 1;
            assert(out@ =~= cells(Mode::Terminal, self.0, idx as nat));
        }
        out
    }
}

} // verus!
