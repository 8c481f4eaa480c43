use vstd::prelude::*;

use vstd::arithmetic::div_mod::{
    lemma_div_is_ordered_by_denominator, lemma_div_pos_is_pos, lemma_mod_multiples_basic,
    lemma_mod_pos_bound, lemma_small_mod,
};

use crate::arith::{abs, round_half_even, trunc_div, trunc_rem};
use crate::repr::{native_range, Repr};

verus! {

/// An amount of money held as a whole number of mills, a thousandth of the
/// base unit: the stored integer is the amount times one thousand.
#[derive(Debug, Clone, Copy, PartialEq, Eq, PartialOrd, Ord)]
pub struct Mills<T: Repr>(T);

/// Why a division or a remainder produced no amount.
#[derive(Debug, Clone, Copy, PartialEq, Eq)]
pub enum MillsError {
    DivisionByZero,
}

impl<T: Repr> View for Mills<T> {
    /// The number of mills.
    type V = int;

    closed spec fn view(&self) -> int {
        self.0.val()
    }
}

impl<T: Repr> Mills<T> {
    /// Every amount lies in the range of the integer type that stores it.
    pub proof fn lemma_in_range(&self)
        ensures
            T::lo() <= self@ <= T::hi(),
    {
        self.0.lemma_range();
    }

    /// Wraps an integer that already counts mills; it is taken as it is.
    pub fn new(value: T) -> (r: Self)
        ensures
            r@ == value.val(),
    {
        Mills(value)
    }

    /// The stored number of mills.
    pub fn value(&self) -> (r: T)
        ensures
            r.val() == self@,
    {
        self.0
    }

    /// Rescales an integer counted in a coarser unit: `ratio` is how many
    /// mills make one such unit (ten for cents).
    pub fn from_lower_scale(value: T, ratio: T) -> (r: Self)
        requires
            T::lo() <= value.val() * ratio.val() <= T::hi(),
        ensures
            r@ == value.val() * ratio.val(),
    {
        Mills(value.times(ratio))
    }

    /// Converts a number of cents to mills.
    pub fn from_cents(cents: T) -> (r: Self)
        requires
            T::lo() <= cents.val() * 10 <= T::hi(),
        ensures
            r@ == cents.val() * 10,
    {
        Self::from_lower_scale(cents, T::of_u32(10))
    }

    /// The exact sum; the caller picks an integer type wide enough for it.
    pub fn add(self, rhs: Self) -> (r: Self)
        requires
            T::lo() <= self@ + rhs@ <= T::hi(),
        ensures
            r@ == self@ + rhs@,
    {
        Mills(self.0.plus(rhs.0))
    }

    /// The exact difference; the caller picks an integer type wide enough
    /// for it.
    pub fn sub(self, rhs: Self) -> (r: Self)
        requires
            T::lo() <= self@ - rhs@ <= T::hi(),
        ensures
            r@ == self@ - rhs@,
    {
        Mills(self.0.minus(rhs.0))
    }

    /// Divides a count of millionths by one thousand, rounding half to even.
    fn round_bankers(value: T) -> (r: T)
        ensures
            r.val() == round_half_even(value.val()),
    {
        let (q, rem) = value.split_thousands();
        proof {
            value.lemma_range();
            assert(value.val() / 1000 < T::hi());
        }
        if rem > 500 || (rem == 500 && q.is_odd()) {
            q.plus(T::of_u32(1))
        } else {
            q
        }
    }

    /// The product of two amounts: the product of the two counts of mills
    /// is a count of millionths, rounded back to mills half to even. That
    /// intermediate product must fit the integer type.
    pub fn mul(self, rhs: Self) -> (r: Self)
        requires
            T::lo() <= self@ * rhs@ <= T::hi(),
        ensures
            r@ == round_half_even(self@ * rhs@),
    {
        Mills(Self::round_bankers(self.0.times(rhs.0)))
    }

    /// The quotient of two amounts: the dividend is carried to millionths of
    /// a mill first, divided with truncation, then rounded back to mills half
    /// to even. Dividing by zero is an error.
    pub fn div(self, rhs: Self) -> (r: Result<Self, MillsError>)
        requires
            T::lo() <= self@ * 1_000_000 <= T::hi(),
        ensures
            r is Err <==> rhs@ == 0,
            r is Ok ==> r->Ok_0@ == round_half_even(trunc_div(self@ * 1_000_000, rhs@)),
    {
        let widened = self.0.times(T::of_u32(1_000_000));
        proof {
            self.0.lemma_range();
            rhs.0.lemma_range();
            if rhs@ != 0 {
                lemma_mod_multiples_basic(self@, 1_000_000);
                lemma_trunc_div_fits::<T>(self@ * 1_000_000, rhs@);
            }
        }
        match widened.quotient(rhs.0) {
            Some(q) => Ok(Mills(Self::round_bankers(q))),
            None => Err(MillsError::DivisionByZero),
        }
    }

    /// The remainder of two amounts, with the sign of the dividend, as the
    /// machine remainder gives it. Dividing by zero is an error.
    pub fn rem(self, rhs: Self) -> (r: Result<Self, MillsError>)
        requires
            !(self@ == T::lo() && rhs@ == -1),
        ensures
            r is Err <==> rhs@ == 0,
            r is Ok ==> r->Ok_0@ == trunc_rem(self@, rhs@),
    {
        match self.0.remainder(rhs.0) {
            Some(m) => Ok(Mills(m)),
            None => Err(MillsError::DivisionByZero),
        }
    }
}

/// Adding an amount and subtracting it again gives back the first amount,
/// and so does subtracting it and adding it again: the intermediate stays in
/// range whenever the sum (or the difference) does.
pub proof fn lemma_add_sub_round_trip<T: Repr>(a: Mills<T>, b: Mills<T>)
    ensures
        T::lo() <= a@ + b@ <= T::hi() ==> T::lo() <= (a@ + b@) - b@ <= T::hi() && (a@ + b@)
            - b@ == a@,
        T::lo() <= a@ - b@ <= T::hi() ==> T::lo() <= (a@ - b@) + b@ <= T::hi() && (a@ - b@)
            + b@ == a@,
{
    a.lemma_in_range();
}

/// The remainder of an amount by a larger one (in magnitude) is the amount
/// itself, and a remainder is always smaller in magnitude than the divisor.
pub proof fn lemma_rem_exact<T: Repr>(a: Mills<T>, b: Mills<T>)
    requires
        b@ != 0,
    ensures
        abs(trunc_rem(a@, b@)) < abs(b@),
        abs(a@) < abs(b@) ==> trunc_rem(a@, b@) == a@,
{
    lemma_mod_pos_bound(abs(a@), abs(b@));
    if abs(a@) < abs(b@) {
        lemma_small_mod(abs(a@) as nat, abs(b@) as nat);
    }
}

/// A truncating quotient of a multiple of a million by a non-zero value of
/// the same integer type fits that type.
proof fn lemma_trunc_div_fits<T: Repr>(n: int, d: int)
    requires
        T::lo() <= n <= T::hi(),
        T::lo() <= d <= T::hi(),
        native_range(T::lo(), T::hi()),
        n % 1_000_000 == 0,
        d != 0,
    ensures
        T::lo() <= trunc_div(n, d) <= T::hi(),
{
    let (x, m) = (abs(n), abs(d));
    let q = x / m;
    lemma_div_pos_is_pos(x, m);
    lemma_div_is_ordered_by_denominator(x, 1, m);
    assert(0 <= q <= x);
    assert((i64::MIN as int) % 1_000_000 != 0);
    assert((i128::MIN as int) % 1_000_000 != 0);
    assert(n != T::lo() || T::lo() == 0);
    if n < 0 && d < 0 {
        assert(trunc_div(n, d) == q);
        assert(x <= T::hi());
    } else if n < 0 || d < 0 {
        assert(trunc_div(n, d) == -q);
        assert(-x >= T::lo());
    } else {
        assert(trunc_div(n, d) == q);
    }
}

} // verus!
