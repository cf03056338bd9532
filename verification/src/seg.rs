//! The segments of the clock and the color each one is shown in.

use crate::formatting::Color;
use crate::term::TermColor;
use vstd::prelude::*;
use vstd::std_specs::convert::FromSpecImpl;

verus! {

/// A segment of the clock: the distance of a byte from the least
/// significant one, which counts the seconds and is segment zero.
#[derive(Clone, Copy)]
pub struct Segment(usize);

/// A segment is seen as its offset.
impl View for Segment {
    type V = nat;

    closed spec fn view(&self) -> nat {
        self.0 as nat
    }
}

impl Segment {
    /// Every segment that exists has an offset below eight.
    #[verifier::type_invariant]
    spec fn in_range(self) -> bool {
        self.0 < 8
    }

    /// The segment at offset `x`, which must be smaller than 8.
    pub fn new(x: usize) -> (segment: Self)
        requires
            x < 8,
        ensures
            segment@ == x,
    {
        Self(x)
    }

    /// The offset the segment was made with.
    pub fn offset(self) -> (x: usize)
        ensures
            x == self@,
            x < 8,
    {
        proof {
            use_type_invariant(self);
        }
        self.0
    }
}

/// The color of the segment at `offset` in a status bar: the seconds stand
/// out in light gray, the byte above them is green, the rest is gray.
pub open spec fn markup_color(offset: nat) -> Color {
    if offset == 0 {
        Color::LightGray
    } else if offset == 1 {
        Color::Green
    } else {
        Color::Gray
    }
}

/// The color of the segment at `offset` in a color terminal, which is the
/// terminal color nearest to `markup_color(offset)`.
pub open spec fn term_color(offset: nat) -> TermColor {
    if offset == 0 {
        TermColor::White
    } else if offset == 1 {
        TermColor::Green
    } else {
        TermColor::DarkGrey
    }
}

/// On a terminal each segment has the color that stands in for its color in
/// a status bar.
pub proof fn lemma_term_color_stands_for_markup_color(offset: nat)
    ensures
        term_color(offset).stands_for() == markup_color(offset),
{
}

/// A way of giving colors to the four bytes of a time.
#[derive(Clone, Copy, Debug, PartialEq, Eq, Structural)]
pub enum Scheme {
    /// All four bytes are shown: gray, gray, green, light gray.
    FourTone,
    /// Only the two low bytes are shown: cyan, light gray.
    TwoTone,
}

impl Scheme {
    /// The color of the byte at `position`, where position 0 is the most
    /// significant byte, or `None` where the scheme does not show the byte.
    pub open spec fn color_at(self, position: nat) -> Option<Color> {
        match self {
            Scheme::FourTone => if position < 2 {
                Some(Color::Gray)
            } else if position == 2 {
                Some(Color::Green)
            } else if position == 3 {
                Some(Color::LightGray)
            } else {
                None
            },
            Scheme::TwoTone => if position == 2 {
                Some(Color::Cyan)
            } else if position == 3 {
                Some(Color::LightGray)
            } else {
                None
            },
        }
    }

    /// The four-tone scheme gives each byte the color of its segment.
    pub proof fn lemma_four_tone_by_segment(position: nat)
        requires
            position < 4,
        ensures
            Scheme::FourTone.color_at(position) == Some(markup_color((3 - position) as nat)),
    {
    }

    /// The color of the byte at `position`, or `None` where the scheme does
    /// not show the byte.
    pub fn classify(self, position: usize) -> (color: Option<Color>)
        ensures
            color == self.color_at(position as nat),
    {
        match (self, position) {
            (Scheme::FourTone, 0) => Some(Color::Gray),
            (Scheme::FourTone, 1) => Some(Color::Gray),
            (Scheme::FourTone, 2) => Some(Color::Green),
            (Scheme::TwoTone, 2) => Some(Color::Cyan),
            (_, 3) => Some(Color::LightGray),
            (_, _) => None,
        }
    }
}

impl From<Segment> for TermColor {
    fn from(seg: Segment) -> (color: Self) {
        match seg.0 {
            0 => TermColor::White,
            1 => TermColor::Green,
            _ => TermColor::DarkGrey,
        }
    }
}

impl FromSpecImpl<Segment> for TermColor {
    open spec fn obeys_from_spec() -> bool {
        true
    }

    open spec fn from_spec(v: Segment) -> Self {
        term_color(v@)
    }
}

impl From<Segment> for Color {
    fn from(seg: Segment) -> (color: Self) {
        match seg.0 {
            0 => Color::LightGray,
            1 => Color::Green,
            _ => Color::Gray,
        }
    }
}

impl FromSpecImpl<Segment> for Color {
    open spec fn obeys_from_spec() -> bool {
        true
    }

    open spec fn from_spec(v: Segment) -> Self {
        markup_color(v@)
    }
}

} // verus!
