//! A generic two-component complex value with its arithmetic and equality
//! operators. Addition is fully generic: the two operands' component types
//! may differ, as long as the left components can be added to the right
//! components.

use vstd::prelude::*;
use core::ops::Neg;
use vstd::std_specs::cmp::PartialEqSpec;
use vstd::std_specs::ops::{AddSpec, NegSpec};

verus! {

/// A complex number over an arbitrary component type `T`: a real part and an
/// imaginary part.
#[derive(Clone, Copy, Debug)]
pub struct Complex<T> {
    pub re: T,
    pub im: T,
}

impl<L, R, O> core::ops::Add<Complex<R>> for Complex<L> where L: core::ops::Add<R, Output = O> {
    type Output = Complex<O>;

    /// Componentwise sum: both the real and the imaginary parts are added
    /// pairwise.
    fn add(self, rhs: Complex<R>) -> (r: Complex<O>) {
        Complex { re: self.re + rhs.re, im: self.im + rhs.im }
    }
}

impl<L, R, O> vstd::std_specs::ops::AddSpecImpl<Complex<R>> for Complex<L> where L: core::ops::Add<R, Output = O> {
    open spec fn obeys_add_spec() -> bool {
        L::obeys_add_spec()
    }

    open spec fn add_req(self, rhs: Complex<R>) -> bool {
        self.re.add_req(rhs.re) && self.im.add_req(rhs.im)
    }

    open spec fn add_spec(self, rhs: Complex<R>) -> Complex<O> {
        (Complex { re: self.re.add_spec(rhs.re), im: self.im.add_spec(rhs.im) })
    }
}

impl<T, O> core::ops::Neg for Complex<T> where T: core::ops::Neg<Output = O> {
    type Output = Complex<O>;

    /// Componentwise negation: both the real and the imaginary parts are
    /// negated.
    fn neg(self) -> (r: Complex<O>) {
        Complex { re: self.re.neg(), im: self.im.neg() }
    }
}

impl<T, O> vstd::std_specs::ops::NegSpecImpl for Complex<T> where T: core::ops::Neg<Output = O> {
    open spec fn obeys_neg_spec() -> bool {
        T::obeys_neg_spec()
    }

    open spec fn neg_req(self) -> bool {
        self.re.neg_req() && self.im.neg_req()
    }

    open spec fn neg_spec(self) -> Complex<O> {
        (Complex { re: self.re.neg_spec(), im: self.im.neg_spec() })
    }
}

impl<T: PartialEq> PartialEq for Complex<T> {
    /// Two complex values are equal exactly when both components are
    /// pairwise equal. Only a partial equivalence is promised: it is as
    /// reflexive, symmetric and transitive as the component type's own
    /// equality is.
    fn eq(&self, other: &Complex<T>) -> (r: bool) {
        self.re == other.re && self.im == other.im
    }
}

impl<T: PartialEq> vstd::std_specs::cmp::PartialEqSpecImpl for Complex<T> {
    open spec fn obeys_eq_spec() -> bool {
        T::obeys_eq_spec()
    }

    open spec fn eq_spec(&self, other: &Complex<T>) -> bool {
        self.re.eq_spec(&other.re) && self.im.eq_spec(&other.im)
    }
}

impl<T: core::ops::Add<Output = T> + Copy> Complex<T> {
    /// In-place accumulation of `rhs` into `self`, both components at once.
    /// The result is the very value that `self + rhs` returns: compound
    /// addition and reassignment of a plain addition cannot be told apart.
    pub fn add_assign(&mut self, rhs: Complex<T>)
        requires
            old(self).add_req(rhs),
        ensures
            T::obeys_add_spec() ==> *final(self) == old(self).add_spec(rhs),
    {
        self.re = self.re + rhs.re;
        self.im = self.im + rhs.im;
    }
}

/// Law: addition is componentwise. For any two operands, possibly of
/// different component types, the sum's real part is the sum of the real
/// parts and its imaginary part is the sum of the imaginary parts.
pub proof fn lemma_add_componentwise<L, R, O>(x: Complex<L>, y: Complex<R>) where
    L: core::ops::Add<R, Output = O>,

    ensures
        x.add_spec(y) == (Complex { re: x.re.add_spec(y.re), im: x.im.add_spec(y.im) }),
{
}

/// Law: negation is an involution. For component types whose double
/// negation returns the original value, negating a complex value twice
/// returns the original value.
pub proof fn lemma_neg_involution<T>(x: Complex<T>) where T: core::ops::Neg<Output = T>
    requires
        forall|t: T| #[trigger] t.neg_spec().neg_spec() == t,
    ensures
        x.neg_spec().neg_spec() == x,
{
}

/// Law: equality is symmetric whenever the component type's own equality
/// is symmetric, as it is for the ordinary numeric types.
pub proof fn lemma_eq_symmetric<T: PartialEq>(x: Complex<T>, y: Complex<T>)
    requires
        forall|a: T, b: T| #[trigger] a.eq_spec(&b) == b.eq_spec(&a),
    ensures
        x.eq_spec(&y) == y.eq_spec(&x),
{
}

} // verus!
