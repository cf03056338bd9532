//! Integers as the numbers that their bits spell.

use vstd::prelude::*;

verus! {

/// An integer that can be written in hexadecimal.
///
/// `bits` is the number that the bits of the integer spell: the integer
/// itself where it is not negative, and its two's complement in the width of
/// its type where it is.
pub trait Bits {
    /// The number that the bits of the integer spell.
    spec fn bits(&self) -> nat;

    /// The number that the bits of the integer spell.
    fn to_bits(&self) -> (bits: u128)
        ensures
            bits == self.bits(),
    ;
}

impl Bits for u8 {
    open spec fn bits(&self) -> nat {
        *self as nat
    }

    fn to_bits(&self) -> (bits: u128) {
        *self as u128
    }
}

impl Bits for u16 {
    open spec fn bits(&self) -> nat {
        *self as nat
    }

    fn to_bits(&self) -> (bits: u128) {
        *self as u128
    }
}

impl Bits for u32 {
    open spec fn bits(&self) -> nat {
        *self as nat
    }

    fn to_bits(&self) -> (bits: u128) {
        *self as u128
    }
}

impl Bits for u64 {
    open spec fn bits(&self) -> nat {
        *self as nat
    }

    fn to_bits(&self) -> (bits: u128) {
        *self as u128
    }
}

impl Bits for u128 {
    open spec fn bits(&self) -> nat {
        *self as nat
    }

    fn to_bits(&self) -> (bits: u128) {
        *self
    }
}

impl Bits for usize {
    open spec fn bits(&self) -> nat {
        *self as nat
    }

    fn to_bits(&self) -> (bits: u128) {
        *self as u128
    }
}

impl Bits for i8 {
    open spec fn bits(&self) -> nat {
        if *self < 0 {
            (*self + 0x100) as nat
        } else {
            *self as nat
        }
    }

    fn to_bits(&self) -> (bits: u128) {
        let x = *self;
        assert((x as u8) as int == (if x < 0i8 {
            x + 0x100
        } else {
            x as int
        })) by (bit_vector);
        (x as u8) as u128
    }
}

impl Bits for i16 {
    open spec fn bits(&self) -> nat {
        if *self < 0 {
            (*self + 0x1_0000) as nat
        } else {
            *self as nat
        }
    }

    fn to_bits(&self) -> (bits: u128) {
        let x = *self;
        assert((x as u16) as int == (if x < 0i16 {
            x + 0x1_0000
        } else {
            x as int
        })) by (bit_vector);
        (x as u16) as u128
    }
}

impl Bits for i32 {
    open spec fn bits(&self) -> nat {
        if *self < 0 {
            (*self + 0x1_0000_0000) as nat
        } else {
            *self as nat
        }
    }

    fn to_bits(&self) -> (bits: u128) {
        let x = *self;
        assert((x as u32) as int == (if x < 0i32 {
            x + 0x1_0000_0000
        } else {
            x as int
        })) by (bit_vector);
        (x as u32) as u128
    }
}

impl Bits for i64 {
    open spec fn bits(&self) -> nat {
        if *self < 0 {
            (*self + 0x1_0000_0000_0000_0000) as nat
        } else {
            *self as nat
        }
    }

    fn to_bits(&self) -> (bits: u128) {
        let x = *self;
        assert((x as u64) as int == (if x < 0i64 {
            x + 0x1_0000_0000_0000_0000
        } else {
            x as int
        })) by (bit_vector);
        (x as u64) as u128
    }
}

impl Bits for i128 {
    open spec fn bits(&self) -> nat {
        if *self < 0 {
            (*self + 0x1_0000_0000_0000_0000_0000_0000_0000_0000) as nat
        } else {
            *self as nat
        }
    }

    fn to_bits(&self) -> (bits: u128) {
        let x = *self;
        assert((x as u128) as int == (if x < 0i128 {
            x + 0x1_0000_0000_0000_0000_0000_0000_0000_0000
        } else {
            x as int
        })) by (bit_vector);
        x as u128
    }
}

impl Bits for isize {
    open spec fn bits(&self) -> nat {
        if *self < 0 {
            (*self + usize::MAX + 1) as nat
        } else {
            *self as nat
        }
    }

    fn to_bits(&self) -> (bits: u128) {
        let x = *self;
        if x < 0 {
            (x as i128 + usize::MAX as i128 + 1) as u128
        } else {
            x as u128
        }
    }
}

} // verus!
