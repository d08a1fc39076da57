//! A non-zero unsigned integer, shared by card numbers and binder geometry.

use vstd::prelude::*;

verus! {

/// An unsigned 32-bit integer that is never zero.
///
/// Executable code can only obtain one through [`Positive::new`], so every
/// value that exists at run time holds a number of at least one.
#[derive(Debug, Clone, Copy, PartialEq, Eq, PartialOrd, Ord, Structural)]
pub struct Positive {
    value: u32,
}

impl View for Positive {
    type V = nat;

    /// The number held, as a natural number.
    open spec fn view(&self) -> nat {
        self.get() as nat
    }
}

/// The product of `a` and `b`, clamped to the largest `u32`.
pub open spec fn saturating_product(a: nat, b: nat) -> nat {
    if a * b > u32::MAX {
        u32::MAX as nat
    } else {
        a * b
    }
}

impl Positive {
    /// The invariant of the type: the number held is at least one.
    #[verifier::type_invariant]
    pub open spec fn well_formed(self) -> bool {
        self.get() >= 1
    }

    /// The number held.
    pub closed spec fn spec_get(self) -> u32 {
        self.value
    }

    /// The value holding `n`, or nothing for zero.
    pub closed spec fn spec_new(n: u32) -> Option<Positive> {
        if n == 0 {
            None
        } else {
            Some(Positive { value: n })
        }
    }

    /// The value holding the clamped product of the two numbers.
    pub closed spec fn spec_saturating_mul(self, other: Positive) -> Positive {
        Positive { value: saturating_product(self@, other@) as u32 }
    }

    /// Makes a value from `n`, and refuses zero.
    #[verifier::when_used_as_spec(spec_new)]
    pub fn new(n: u32) -> (made: Option<Positive>)
        ensures
            made == Positive::spec_new(n),
            made is Some <==> n != 0,
            made matches Some(p) ==> p@ == n,
    {
        if n == 0 {
            None
        } else {
            Some(Positive { value: n })
        }
    }

    /// Returns the number held, which is at least one.
    #[verifier::when_used_as_spec(spec_get)]
    pub fn get(self) -> (n: u32)
        ensures
            n == self.spec_get(),
            n == self@,
            n >= 1,
    {
        proof {
            use_type_invariant(&self);
        }
        self.value
    }

    /// Multiplies two values; a product too large for `u32` becomes `u32::MAX`
    /// instead of wrapping around.
    #[verifier::when_used_as_spec(spec_saturating_mul)]
    pub fn saturating_mul(self, other: Positive) -> (product: Positive)
        ensures
            product == self.spec_saturating_mul(other),
            product@ == saturating_product(self@, other@),
    {
        proof {
            use_type_invariant(&self);
            use_type_invariant(&other);
            Self::lemma_saturating_mul(self, other);
        }
        let value: u32 = match self.value.checked_mul(other.value) {
            Some(exact) => exact,
            None => u32::MAX,
        };
        Positive { value }
    }

    /// `new` accepts exactly the non-zero numbers and keeps the number given.
    pub proof fn lemma_new(n: u32)
        ensures
            Positive::new(n) is Some <==> n != 0,
            Positive::new(n) matches Some(p) ==> p.get() == n && p.well_formed(),
    {
    }

    /// The clamped product of two non-zero numbers is again non-zero, and
    /// `saturating_mul` holds exactly that product.
    pub proof fn lemma_saturating_mul(a: Positive, b: Positive)
        requires
            a.well_formed(),
            b.well_formed(),
        ensures
            a.saturating_mul(b)@ == saturating_product(a@, b@),
            a.saturating_mul(b).well_formed(),
            1 <= saturating_product(a@, b@) <= u32::MAX,
    {
        assert(a@ * b@ >= 1) by (nonlinear_arith)
            requires
                a@ >= 1,
                b@ >= 1,
        ;
    }

    /// Two values that hold the same number are the same value.
    pub proof fn lemma_equal_by_number(a: Positive, b: Positive)
        requires
            a.get() == b.get(),
        ensures
            a == b,
    {
    }
}

} // verus!
