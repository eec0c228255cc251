//! Integers tagged with the base they want to be printed in.

use vstd::prelude::*;

verus! {

/// The base in which an integer asks to be rendered.
#[derive(Clone, Copy, Debug, PartialEq, Eq, Structural)]
pub enum Base {
    Bin,
    Oct,
    Dec,
    Hex,
}

impl Base {
    /// The radix as a number: 2, 8, 10 or 16.
    pub open spec fn radix_spec(self) -> int {
        match self {
            Base::Bin => 2,
            Base::Oct => 8,
            Base::Dec => 10,
            Base::Hex => 16,
        }
    }

    /// The radix as a number: 2, 8, 10 or 16.
    pub fn radix(self) -> (r: u32)
        ensures
            r == self.radix_spec(),
    {
        match self {
            Base::Bin => 2,
            Base::Oct => 8,
            Base::Dec => 10,
            Base::Hex => 16,
        }
    }
}

/// An integer of any width up to 128 bits, signed or unsigned, together with
/// its base. It is kept as sign and magnitude; zero is never negative.
#[derive(Clone, Copy, Debug, PartialEq, Eq, Structural)]
pub struct Int {
    negative: bool,
    magnitude: u128,
    base: Base,
}

impl Int {
    #[verifier::type_invariant]
    spec fn canonical(self) -> bool {
        self.negative ==> self.magnitude > 0
    }

    /// The mathematical value.
    pub closed spec fn value(self) -> int {
        if self.negative {
            -(self.magnitude as int)
        } else {
            self.magnitude as int
        }
    }

    /// The absolute value.
    pub closed spec fn magnitude_spec(self) -> nat {
        self.magnitude as nat
    }

    pub closed spec fn is_negative_spec(&self) -> bool {
        self.negative
    }

    pub closed spec fn base_spec(&self) -> Base {
        self.base
    }

    /// Tags a signed value with `base`.
    pub fn from_signed(v: i128, base: Base) -> (r: Int)
        ensures
            r.value() == v,
            r.base_spec() == base,
    {
        if v < 0 {
            let below: i128 = -(v + 1);
            let magnitude: u128 = below as u128 + 1;
            Int { negative: true, magnitude, base }
        } else {
            Int { negative: false, magnitude: v as u128, base }
        }
    }

    /// Tags an unsigned value with `base`.
    pub fn from_unsigned(v: u128, base: Base) -> (r: Int)
        ensures
            r.value() == v,
            r.base_spec() == base,
    {
        Int { negative: false, magnitude: v, base }
    }

    #[verifier::when_used_as_spec(base_spec)]
    pub fn base(&self) -> (r: Base)
        ensures
            r == self.base_spec(),
    {
        self.base
    }

    #[verifier::when_used_as_spec(is_negative_spec)]
    pub fn is_negative(&self) -> (r: bool)
        ensures
            r == self.is_negative_spec(),
            r == (self.value() < 0),
    {
        proof {
            use_type_invariant(self);
        }
        self.negative
    }

    /// The absolute value.
    pub fn magnitude(&self) -> (r: u128)
        ensures
            r == self.magnitude_spec(),
            r == if self.value() < 0 { -self.value() } else { self.value() },
    {
        self.magnitude
    }

    /// The same value asking for another base.
    pub fn with_base(&self, base: Base) -> (r: Int)
        ensures
            r.value() == self.value(),
            r.base_spec() == base,
    {
        proof {
            use_type_invariant(self);
        }
        Int { negative: self.negative, magnitude: self.magnitude, base }
    }

    /// Whether two tagged integers are the same: the same value asking for
    /// the same base.
    pub fn same(&self, other: &Int) -> (r: bool)
        ensures
            r == (self.value() == other.value() && self.base_spec() == other.base_spec()),
            r == (*self == *other),
    {
        proof {
            use_type_invariant(self);
            use_type_invariant(other);
        }
        *self == *other
    }

    /// The value as an `i128`, where it fits.
    pub fn to_i128(&self) -> (r: Option<i128>)
        ensures
            r == if i128::MIN <= self.value() <= i128::MAX {
                Some(self.value() as i128)
            } else {
                None
            },
    {
        proof {
            use_type_invariant(self);
        }
        if self.negative {
            if self.magnitude <= 0x8000_0000_0000_0000_0000_0000_0000_0000u128 {
                let below: u128 = self.magnitude - 1;
                let v: i128 = -(below as i128) - 1;
                Some(v)
            } else {
                None
            }
        } else if self.magnitude <= 0x7fff_ffff_ffff_ffff_ffff_ffff_ffff_ffffu128 {
            Some(self.magnitude as i128)
        } else {
            None
        }
    }

    /// The value as a `u128`, where it is not negative.
    pub fn to_u128(&self) -> (r: Option<u128>)
        ensures
            r == if self.value() >= 0 {
                Some(self.value() as u128)
            } else {
                None
            },
    {
        proof {
            use_type_invariant(self);
        }
        if self.negative {
            None
        } else {
            Some(self.magnitude)
        }
    }
}

} // verus!
