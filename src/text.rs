use vstd::prelude::*;
use vstd::string::StringExecFns;

use crate::arith::abs;
use crate::mills::Mills;
use crate::repr::Repr;

verus! {

/// The character of a decimal digit.
pub open spec fn digit_char(d: int) -> char {
    seq!['0', '1', '2', '3', '4', '5', '6', '7', '8', '9'][d]
}

/// The decimal digits of `n`, without leading zeros.
pub open spec fn decimal(n: nat) -> Seq<char>
    decreases n,
{
    if n < 10 {
        seq![digit_char(n as int)]
    } else {
        decimal(n / 10).push(digit_char((n % 10) as int))
    }
}

/// A number below one thousand as exactly three digits, zeros in front.
pub open spec fn three_digits(n: nat) -> Seq<char> {
    seq![
        digit_char((n / 100 % 10) as int),
        digit_char((n / 10 % 10) as int),
        digit_char((n % 10) as int),
    ]
}

/// How an amount of `v` mills reads: a minus sign for a negative amount,
/// the dollar sign, the whole units, a point and three digits of mills.
pub open spec fn rendered(v: int) -> Seq<char> {
    let sign = if v < 0 {
        seq!['-']
    } else {
        Seq::empty()
    };
    sign + seq!['$'] + decimal((abs(v) / 1000) as nat) + seq!['.'] + three_digits(
        (abs(v) % 1000) as nat,
    )
}

/// The text starts with a minus sign exactly when the amount is negative; a
/// zero amount reads `$0.000`.
pub proof fn lemma_rendered_sign(v: int)
    ensures
        rendered(v)[0] == '-' <==> v < 0,
        rendered(0) == seq!['$', '0', '.', '0', '0', '0'],
{
    assert(decimal(0) == seq!['0']);
    assert(rendered(0) =~= seq!['$', '0', '.', '0', '0', '0']);
}

fn digit_str(d: u128) -> (r: &'static str)
    requires
        d < 10,
    ensures
        r@ == seq![digit_char(d as int)],
{
    proof {
        reveal_strlit("0");
        reveal_strlit("1");
        reveal_strlit("2");
        reveal_strlit("3");
        reveal_strlit("4");
        reveal_strlit("5");
        reveal_strlit("6");
        reveal_strlit("7");
        reveal_strlit("8");
        reveal_strlit("9");
    }
    match d {
        0 => "0",
        1 => "1",
        2 => "2",
        3 => "3",
        4 => "4",
        5 => "5",
        6 => "6",
        7 => "7",
        8 => "8",
        _ => "9",
    }
}

fn push_decimal(s: &mut String, n: u128)
    ensures
        final(s)@ == old(s)@ + decimal(n as nat),
    decreases n,
{
    if n >= 10 {
        push_decimal(s, n / 10);
    }
    s.append(digit_str(n % 10));
    assert(final(s)@ =~= old(s)@ + decimal(n as nat));
}

impl<T: Repr> Mills<T> {
    /// The amount as text: `$1.234`, `-$1.234`, `$0.000`.
    pub fn render(&self) -> (r: String)
        ensures
            r@ == rendered(self@),
    {
        let v = self.value();
        let m = v.magnitude();
        let mut s = String::new();
        if v.is_negative() {
            s.append("-");
        }
        s.append("$");
        push_decimal(&mut s, m / 1000);
        s.append(".");
        let f = m % 1000;
        s.append(digit_str(f / 100 % 10));
        s.append(digit_str(f / 10 % 10));
        s.append(digit_str(f % 10));
        proof {
            reveal_strlit("-");
            reveal_strlit("$");
            reveal_strlit(".");
        }
        assert(s@ =~= rendered(self@));
        s
    }
}

} // verus!
