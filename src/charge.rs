//! A charge as a non-negative magnitude and a sign, and the interaction of
//! two charges.
use vstd::prelude::*;

use crate::float_bits::{
    abs_bits, abs_of, is_nan, is_zero, is_non_negative, non_negative, same_number, sign_set, SIGN_BIT,
};

verus! {

/// The algebraic sign of a charge. Zero counts as positive.
#[derive(Clone, Copy, Debug, PartialEq, Eq, Structural)]
pub enum Sign {
    Positive,
    Negative,
}

/// How two charges act on each other: unlike signs attract, like signs
/// push each other apart.
#[derive(Clone, Copy, Debug, PartialEq, Eq, Structural)]
pub enum Interaction {
    Attract,
    Dispel,
}

/// The sign of the number that a binary64 pattern denotes: positive exactly
/// when it compares `>= 0.0`.
pub open spec fn sign_of(bits: u64) -> Sign {
    if is_non_negative(bits) {
        Sign::Positive
    } else {
        Sign::Negative
    }
}

/// Like signs dispel, unlike signs attract.
pub open spec fn interaction_of(a: Sign, b: Sign) -> Interaction {
    if a == b {
        Interaction::Dispel
    } else {
        Interaction::Attract
    }
}

impl Sign {
    /// `1` for a positive sign, `-1` for a negative one.
    pub open spec fn factor(self) -> int {
        match self {
            Sign::Positive => 1,
            Sign::Negative => -1,
        }
    }

    /// The sign of the number whose binary64 pattern is `bits`.
    pub fn of_bits(bits: u64) -> (r: Sign)
        ensures
            r == sign_of(bits),
            is_zero(bits) ==> r == Sign::Positive,
    {
        if non_negative(bits) {
            Sign::Positive
        } else {
            Sign::Negative
        }
    }

    /// How a charge of this sign and one of `other`'s sign interact.
    pub fn interaction(&self, other: &Sign) -> (r: Interaction)
        ensures
            r == interaction_of(*self, *other),
    {
        if *self == *other {
            Interaction::Dispel
        } else {
            Interaction::Attract
        }
    }
}

/// A charge: its magnitude, kept as the binary64 pattern of a non-negative
/// number, and its sign.
#[derive(Clone, Copy, Debug)]
pub struct Charge {
    magnitude: u64,
    sign: Sign,
}

impl Charge {
    /// The magnitude's sign bit is clear.
    #[verifier::type_invariant]
    spec fn inv(self) -> bool {
        !sign_set(self.magnitude)
    }

    /// The binary64 pattern of the magnitude.
    pub closed spec fn magnitude_spec(self) -> u64 {
        self.magnitude
    }

    /// The sign.
    pub closed spec fn sign_spec(self) -> Sign {
        self.sign
    }

    /// The pattern of the signed value that the charge stands for: the
    /// magnitude, with the sign bit set for a negative charge.
    pub open spec fn signed_spec(self) -> u64 {
        match self.sign_spec() {
            Sign::Positive => self.magnitude_spec(),
            Sign::Negative => (self.magnitude_spec() + SIGN_BIT) as u64,
        }
    }

    /// Splits the signed value whose binary64 pattern is `bits` into its
    /// absolute value and its sign.
    pub fn from_bits(bits: u64) -> (r: Charge)
        ensures
            r.magnitude_spec() == abs_of(bits),
            r.sign_spec() == sign_of(bits),
    {
        Charge { magnitude: abs_bits(bits), sign: Sign::of_bits(bits) }
    }

    /// The binary64 pattern of the magnitude; its sign bit is clear.
    pub fn magnitude_bits(&self) -> (r: u64)
        ensures
            r == self.magnitude_spec(),
            !sign_set(r),
    {
        proof {
            use_type_invariant(self);
        }
        self.magnitude
    }

    /// The sign.
    pub fn sign(&self) -> (r: Sign)
        ensures
            r == self.sign_spec(),
    {
        self.sign
    }

    /// The binary64 pattern of the signed value: the magnitude times the
    /// sign's factor.
    pub fn signed_bits(&self) -> (r: u64)
        ensures
            r == self.signed_spec(),
    {
        proof {
            use_type_invariant(self);
        }
        match self.sign {
            Sign::Positive => self.magnitude,
            Sign::Negative => self.magnitude + SIGN_BIT,
        }
    }

    /// How this charge and `other` interact, by their signs.
    pub fn interaction(&self, other: &Charge) -> (r: Interaction)
        ensures
            r == interaction_of(self.sign_spec(), other.sign_spec()),
    {
        self.sign.interaction(&other.sign)
    }
}

/// A charge split from a signed value that is a number gives back that
/// number: only a negative zero comes back as a positive one.
pub proof fn lemma_signed_value_recovered(bits: u64, c: Charge)
    requires
        !is_nan(bits),
        c.magnitude_spec() == abs_of(bits),
        c.sign_spec() == sign_of(bits),
    ensures
        same_number(c.signed_spec(), bits),
{
}

/// Two charges dispel exactly when the product of their signed values is
/// positive, and attract exactly when it is negative.
pub proof fn lemma_interaction_follows_product(a: Sign, b: Sign)
    ensures
        interaction_of(a, b) == Interaction::Dispel <==> a.factor() * b.factor() == 1,
        interaction_of(a, b) == Interaction::Attract <==> a.factor() * b.factor() == -1,
        interaction_of(a, b) == interaction_of(b, a),
{
    match (a, b) {
        (Sign::Positive, Sign::Positive) => assert(a.factor() * b.factor() == 1),
        (Sign::Positive, Sign::Negative) => assert(a.factor() * b.factor() == -1),
        (Sign::Negative, Sign::Positive) => assert(a.factor() * b.factor() == -1),
        (Sign::Negative, Sign::Negative) => assert(a.factor() * b.factor() == 1),
    }
}

} // verus!
