use vstd::prelude::*;

use crate::arith::{abs, trunc_div, trunc_rem};
use vstd::arithmetic::div_mod::{lemma_mod_pos_bound, lemma_small_mod};

verus! {

/// `lo..=hi` is the range of one of the signed or unsigned 64-bit or 128-bit
/// integers.
pub open spec fn native_range(lo: int, hi: int) -> bool {
    ||| lo == i64::MIN && hi == i64::MAX
    ||| lo == 0 && hi == u64::MAX
    ||| lo == i128::MIN && hi == i128::MAX
    ||| lo == 0 && hi == u128::MAX
}

/// The closed set of integer operations that a scaled amount needs from the
/// integer type that stores it.
pub trait Repr: Copy + Sized {
    /// The mathematical value of the integer.
    spec fn val(&self) -> int;

    /// Smallest value the type can hold.
    spec fn lo() -> int;

    /// Largest value the type can hold.
    spec fn hi() -> int;

    /// Every value lies in the type's range, which is that of one of the
    /// signed or unsigned 64-bit or 128-bit integers.
    proof fn lemma_range(&self)
        ensures
            Self::lo() <= self.val() <= Self::hi(),
            native_range(Self::lo(), Self::hi()),
    ;

    fn of_u32(v: u32) -> (r: Self)
        ensures
            r.val() == v,
    ;

    fn plus(self, o: Self) -> (r: Self)
        requires
            Self::lo() <= self.val() + o.val() <= Self::hi(),
        ensures
            r.val() == self.val() + o.val(),
    ;

    fn minus(self, o: Self) -> (r: Self)
        requires
            Self::lo() <= self.val() - o.val() <= Self::hi(),
        ensures
            r.val() == self.val() - o.val(),
    ;

    fn times(self, o: Self) -> (r: Self)
        requires
            Self::lo() <= self.val() * o.val() <= Self::hi(),
        ensures
            r.val() == self.val() * o.val(),
    ;

    /// Floor quotient and non-negative remainder by one thousand.
    fn split_thousands(self) -> (r: (Self, u32))
        ensures
            r.0.val() == self.val() / 1000,
            r.1 == self.val() % 1000,
    ;

    fn is_odd(self) -> (r: bool)
        ensures
            r == (self.val() % 2 == 1),
    ;

    /// Truncating division; `None` where the divisor is zero or the quotient
    /// does not fit.
    fn quotient(self, d: Self) -> (r: Option<Self>)
        ensures
            r is None <==> (d.val() == 0 || !(Self::lo() <= trunc_div(self.val(), d.val())
                <= Self::hi())),
            r is Some ==> r->Some_0.val() == trunc_div(self.val(), d.val()),
    ;

    /// Truncating remainder; `None` where the divisor is zero or the matching
    /// quotient does not fit.
    fn remainder(self, d: Self) -> (r: Option<Self>)
        ensures
            r is None <==> (d.val() == 0 || (self.val() == Self::lo() && d.val() == -1)),
            r is Some ==> r->Some_0.val() == trunc_rem(self.val(), d.val()),
    ;

    fn is_negative(self) -> (r: bool)
        ensures
            r == (self.val() < 0),
    ;

    fn magnitude(self) -> (r: u128)
        ensures
            r == abs(self.val()),
    ;
}

impl Repr for i64 {
    open spec fn val(&self) -> int {
        *self as int
    }

    open spec fn lo() -> int {
        i64::MIN as int
    }

    open spec fn hi() -> int {
        i64::MAX as int
    }

    proof fn lemma_range(&self) {
    }

    fn of_u32(v: u32) -> (r: Self) {
        v as i64
    }

    fn plus(self, o: Self) -> (r: Self) {
        self + o
    }

    fn minus(self, o: Self) -> (r: Self) {
        self - o
    }

    fn times(self, o: Self) -> (r: Self) {
        self * o
    }

    fn split_thousands(self) -> (r: (Self, u32)) {
        let q = self.checked_div_euclid(1000).unwrap();
        let m = self.checked_rem_euclid(1000).unwrap();
        (q, m as u32)
    }

    fn is_odd(self) -> (r: bool) {
        self.checked_rem_euclid(2).unwrap() == 1
    }

    fn quotient(self, d: Self) -> (r: Option<Self>) {
        self.checked_div(d)
    }

    fn remainder(self, d: Self) -> (r: Option<Self>) {
        proof {
            if d != 0 {
                let (x, m) = (self as int, d as int);
                if x < 0 && m < 0 {
                    lemma_mod_pos_bound(-x, -m);
                } else if x < 0 {
                    lemma_mod_pos_bound(-x, m);
                } else if m < 0 {
                    lemma_mod_pos_bound(x, -m);
                }
                if x == 0 {
                    lemma_small_mod(0, abs(m) as nat);
                }
            }
        }
        self.checked_rem(d)
    }

    fn is_negative(self) -> (r: bool) {
        self < 0
    }

    fn magnitude(self) -> (r: u128) {
        if self < 0 {
            ((-(self + 1)) as u128) + 1
        } else {
            self as u128
        }
    }
}

impl Repr for u64 {
    open spec fn val(&self) -> int {
        *self as int
    }

    open spec fn lo() -> int {
        u64::MIN as int
    }

    open spec fn hi() -> int {
        u64::MAX as int
    }

    proof fn lemma_range(&self) {
    }

    fn of_u32(v: u32) -> (r: Self) {
        v as u64
    }

    fn plus(self, o: Self) -> (r: Self) {
        self + o
    }

    fn minus(self, o: Self) -> (r: Self) {
        self - o
    }

    fn times(self, o: Self) -> (r: Self) {
        self * o
    }

    fn split_thousands(self) -> (r: (Self, u32)) {
        let q = self.checked_div_euclid(1000).unwrap();
        let m = self.checked_rem_euclid(1000).unwrap();
        (q, m as u32)
    }

    fn is_odd(self) -> (r: bool) {
        self.checked_rem_euclid(2).unwrap() == 1
    }

    fn quotient(self, d: Self) -> (r: Option<Self>) {
        self.checked_div(d)
    }

    fn remainder(self, d: Self) -> (r: Option<Self>) {
        self.checked_rem(d)
    }

    fn is_negative(self) -> (r: bool) {
        false
    }

    fn magnitude(self) -> (r: u128) {
        self as u128
    }
}

impl Repr for i128 {
    open spec fn val(&self) -> int {
        *self as int
    }

    open spec fn lo() -> int {
        i128::MIN as int
    }

    open spec fn hi() -> int {
        i128::MAX as int
    }

    proof fn lemma_range(&self) {
    }

    fn of_u32(v: u32) -> (r: Self) {
        v as i128
    }

    fn plus(self, o: Self) -> (r: Self) {
        self + o
    }

    fn minus(self, o: Self) -> (r: Self) {
        self - o
    }

    fn times(self, o: Self) -> (r: Self) {
        self * o
    }

    fn split_thousands(self) -> (r: (Self, u32)) {
        let q = self.checked_div_euclid(1000).unwrap();
        let m = self.checked_rem_euclid(1000).unwrap();
        (q, m as u32)
    }

    fn is_odd(self) -> (r: bool) {
        self.checked_rem_euclid(2).unwrap() == 1
    }

    fn quotient(self, d: Self) -> (r: Option<Self>) {
        self.checked_div(d)
    }

    fn remainder(self, d: Self) -> (r: Option<Self>) {
        proof {
            if d != 0 {
                let (x, m) = (self as int, d as int);
                if x < 0 && m < 0 {
                    lemma_mod_pos_bound(-x, -m);
                } else if x < 0 {
                    lemma_mod_pos_bound(-x, m);
                } else if m < 0 {
                    lemma_mod_pos_bound(x, -m);
                }
                if x == 0 {
                    lemma_small_mod(0, abs(m) as nat);
                }
            }
        }
        self.checked_rem(d)
    }

    fn is_negative(self) -> (r: bool) {
        self < 0
    }

    fn magnitude(self) -> (r: u128) {
        if self < 0 {
            ((-(self + 1)) as u128) + 1
        } else {
            self as u128
        }
    }
}

impl Repr for u128 {
    open spec fn val(&self) -> int {
        *self as int
    }

    open spec fn lo() -> int {
        u128::MIN as int
    }

    open spec fn hi() -> int {
        u128::MAX as int
    }

    proof fn lemma_range(&self) {
    }

    fn of_u32(v: u32) -> (r: Self) {
        v as u128
    }

    fn plus(self, o: Self) -> (r: Self) {
        self + o
    }

    fn minus(self, o: Self) -> (r: Self) {
        self - o
    }

    fn times(self, o: Self) -> (r: Self) {
        self * o
    }

    fn split_thousands(self) -> (r: (Self, u32)) {
        let q = self.checked_div_euclid(1000).unwrap();
        let m = self.checked_rem_euclid(1000).unwrap();
        (q, m as u32)
    }

    fn is_odd(self) -> (r: bool) {
        self.checked_rem_euclid(2).unwrap() == 1
    }

    fn quotient(self, d: Self) -> (r: Option<Self>) {
        self.checked_div(d)
    }

    fn remainder(self, d: Self) -> (r: Option<Self>) {
        self.checked_rem(d)
    }

    fn is_negative(self) -> (r: bool) {
        false
    }

    fn magnitude(self) -> (r: u128) {
        self as u128
    }
}

} // verus!
