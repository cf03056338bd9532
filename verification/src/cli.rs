//! The choice of an output mode by its name.

use vstd::prelude::*;
use vstd::string::StringSliceAdditionalSpecFns;
use vstd::utf8::encode_utf8_decode_utf8;

verus! {

/// Where the clock is shown, which decides how a line is written.
#[derive(Debug, Clone, Copy, PartialEq, Eq, Structural)]
pub enum Mode {
    /// A status bar that reads inline color tags.
    Xmobar,
    /// A terminal without colors.
    Terminal,
    /// A terminal that understands escape sequences.
    ColorTerm,
}

/// What the program was started with.
#[derive(Debug)]
pub struct Opt {
    /// Printing mode.
    pub mode: Mode,
}

/// Whether two strings hold the same characters.
fn same_text(a: &str, b: &str) -> (same: bool)
    ensures
        same == (a@ == b@),
{
    let x = a.as_bytes();
    let y = b.as_bytes();
    if x.len() != y.len() {
        return false;
    }
    let mut i: usize = 0;
    while i < x.len()
        invariant
            i <= x@.len(),
            x@.len() == y@.len(),
            x@ == a.spec_bytes(),
            y@ == b.spec_bytes(),
            forall|j: int| 0 <= j < i ==> x@[j] == y@[j],
        decreases x@.len() - i,
    {
        if x[i] != y[i] {
            return false;
        }
        i += 1;
    }
    proof {
        assert(x@ =~= y@);
        encode_utf8_decode_utf8(a@);
        encode_utf8_decode_utf8(b@);
    }
    true
}

impl Mode {
    /// The name by which a mode is chosen.
    pub open spec fn token(self) -> Seq<char> {
        match self {
            Mode::Xmobar => "xmobar"@,
            Mode::Terminal => "terminal"@,
            Mode::ColorTerm => "cterm"@,
        }
    }

    /// No two modes share a name.
    pub proof fn lemma_tokens_differ(a: Mode, b: Mode)
        requires
            a != b,
        ensures
            a.token() != b.token(),
    {
        reveal_strlit("xmobar");
        reveal_strlit("terminal");
        reveal_strlit("cterm");
        assert(Mode::Xmobar.token().len() == 6);
        assert(Mode::Terminal.token().len() == 8);
        assert(Mode::ColorTerm.token().len() == 5);
    }

    /// The name by which the mode is chosen.
    pub fn name(self) -> (name: &'static str)
        ensures
            name@ == self.token(),
    {
        match self {
            Mode::Xmobar => "xmobar",
            Mode::Terminal => "terminal",
            Mode::ColorTerm => "cterm",
        }
    }
}

impl std::str::FromStr for Mode {
    type Err = &'static str;

    /// Finds the mode that `input` names. An input that names no mode is
    /// refused with the message `no match`.
    fn from_str(input: &str) -> (found: Result<Self, Self::Err>)
        ensures
            found matches Ok(mode) ==> input@ == mode.token(),
            found matches Err(message) ==> message@ == "no match"@ && forall|mode: Mode|
                input@ != #[trigger] mode.token(),
    {
        if same_text(input, Mode::Xmobar.name()) {
            Ok(Mode::Xmobar)
        } else if same_text(input, Mode::Terminal.name()) {
            Ok(Mode::Terminal)
        } else if same_text(input, Mode::ColorTerm.name()) {
            Ok(Mode::ColorTerm)
        } else {
            Err("no match")
        }
    }
}

} // verus!
