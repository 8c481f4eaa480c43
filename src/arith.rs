use vstd::prelude::*;

verus! {

pub open spec fn abs(x: int) -> int {
    if x < 0 {
        -x
    } else {
        x
    }
}

/// Integer division that truncates toward zero, as the machine `/` does.
pub open spec fn trunc_div(a: int, b: int) -> int {
    let q = abs(a) / abs(b);
    if (a < 0) != (b < 0) {
        -q
    } else {
        q
    }
}

/// Remainder that takes the sign of the dividend, as the machine `%` does.
pub open spec fn trunc_rem(a: int, b: int) -> int {
    let r = abs(a) % abs(b);
    if a < 0 {
        -r
    } else {
        r
    }
}

/// `v / 1000` rounded to the nearest integer, a tie going to the even
/// neighbour (banker's rounding).
pub open spec fn round_half_even(v: int) -> int {
    let q = v / 1000;
    let r = v % 1000;
    if r > 500 || (r == 500 && q % 2 == 1) {
        q + 1
    } else {
        q
    }
}

/// Banker's rounding picks a nearest multiple of one thousand, and of two
/// nearest multiples it picks the one whose quotient is even.
pub proof fn lemma_round_half_even_nearest(v: int)
    ensures
        abs(v - 1000 * round_half_even(v)) <= 500,
        forall|k: int| abs(v - 1000 * round_half_even(v)) <= #[trigger] abs(v - 1000 * k),
        abs(v - 1000 * round_half_even(v)) == 500 ==> round_half_even(v) % 2 == 0,
{
    let q = v / 1000;
    let r = v % 1000;
    assert(v == 1000 * q + r && 0 <= r < 1000);
    assert forall|k: int| abs(v - 1000 * round_half_even(v)) <= #[trigger] abs(v - 1000 * k) by {
        if k <= q - 1 {
            assert(v - 1000 * k >= 1000 + r);
        } else if k >= q + 2 {
            assert(v - 1000 * k <= r - 2000);
        }
    }
}

} // verus!
