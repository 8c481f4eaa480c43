use mills::{Milli128, Milli64, Millu128, Millu64, MillsError};
use num_traits::FromPrimitive;

/// Converts a float amount to mills, rounding to the nearest mill.
fn mills_of_f32(f: f32) -> Milli64 {
    let rounded = (f * 1_000.0).round();
    Milli64::new(i64::from_f32(rounded).expect("Failed to convert f32 to i64"))
}

#[test]
fn test_money() {
    let m1 = Milli64::new(1_234);
    let m2 = Milli64::new(4_567);
    assert_eq!(m1.add(m2), Milli64::new(5_801));
    assert_eq!(m1.sub(m2), Milli64::new(-3_333));
    assert_eq!(m1.mul(m2), Milli64::new(5_636));
    assert_eq!(m1.div(m2), Ok(Milli64::new(270)));
    assert_eq!(m1.rem(m2), Ok(Milli64::new(1_234)));
}

#[test]
fn test_int_interop() {
    let m1 = Milli64::new(0_123);
    let n1: f32 = 4.56;
    assert_eq!(m1.add(mills_of_f32(n1)), Milli64::new(4_683));
    assert_eq!(m1.sub(mills_of_f32(n1)), Milli64::new(-4_437));
    assert_eq!(m1.mul(mills_of_f32(n1)), Milli64::new(561));
    assert_eq!(m1.div(mills_of_f32(n1)), Ok(Milli64::new(27)));
    assert_eq!(m1.rem(mills_of_f32(n1)), Ok(Milli64::new(123)));
}

#[test]
fn test_from_cents() {
    let m1 = Milli64::from_cents(123);
    assert_eq!(m1, Milli64::new(1_230));
}

#[test]
fn test_display() {
    let m1 = Milli64::new(1_234);
    assert_eq!(m1.render(), "$1.234");
    let m2 = Milli64::new(-1_234);
    assert_eq!(m2.render(), "-$1.234");
}

#[test]
fn add_then_sub_gives_back_the_amount() {
    let a = Milli64::new(-98_765);
    let b = Milli64::new(12_345);
    assert_eq!(a.add(b).sub(b), a);
    assert_eq!(a.sub(b).add(b), a);
    let c = Millu128::new(7);
    let d = Millu128::new(u128::MAX - 7);
    assert_eq!(c.add(d).sub(d), c);
}

#[test]
fn mul_rounds_ties_to_even() {
    let one = Milli64::new(1);
    assert_eq!(Milli64::new(1_500).mul(one), Milli64::new(2));
    assert_eq!(Milli64::new(2_500).mul(one), Milli64::new(2));
    assert_eq!(Milli64::new(3_500).mul(one), Milli64::new(4));
    assert_eq!(Milli64::new(1_501).mul(one), Milli64::new(2));
    assert_eq!(Milli64::new(2_499).mul(one), Milli64::new(2));
    assert_eq!(Milli64::new(-1_500).mul(one), Milli64::new(-2));
    assert_eq!(Milli64::new(-2_500).mul(one), Milli64::new(-2));
    assert_eq!(Milli64::new(-2_501).mul(one), Milli64::new(-3));
}

#[test]
fn mul_without_tie() {
    let p = Milli64::new(1_234).mul(Milli64::new(4_567));
    assert_eq!(p.value(), 5_636);
    assert_eq!(p.render(), "$5.636");
}

#[test]
fn div_keeps_three_places() {
    let q = Milli64::new(1_234).div(Milli64::new(4_567)).unwrap();
    assert_eq!(q.value(), 270);
    assert_eq!(q.render(), "$0.270");
    assert_eq!(Milli64::new(-1_234).div(Milli64::new(4_567)), Ok(Milli64::new(-270)));
    assert_eq!(Milli64::new(1_000).div(Milli64::new(3_000)), Ok(Milli64::new(333)));
    assert_eq!(Millu64::new(2_000).div(Millu64::new(3_000)), Ok(Millu64::new(667)));
}

#[test]
fn rem_is_exact() {
    assert_eq!(Milli64::new(1_234).rem(Milli64::new(4_567)), Ok(Milli64::new(1_234)));
    assert_eq!(Milli64::new(10_500).rem(Milli64::new(4_000)), Ok(Milli64::new(2_500)));
    assert_eq!(Milli64::new(-10_500).rem(Milli64::new(4_000)), Ok(Milli64::new(-2_500)));
    assert_eq!(Milli64::new(10_500).rem(Milli64::new(-4_000)), Ok(Milli64::new(2_500)));
}

#[test]
fn division_by_zero_is_an_error() {
    let zero = Milli64::new(0);
    assert_eq!(Milli64::new(1_234).div(zero), Err(MillsError::DivisionByZero));
    assert_eq!(Milli64::new(1_234).rem(zero), Err(MillsError::DivisionByZero));
    assert_eq!(Millu128::new(5).div(Millu128::new(0)), Err(MillsError::DivisionByZero));
    assert_eq!(Millu64::new(5).rem(Millu64::new(0)), Err(MillsError::DivisionByZero));
}

#[test]
fn float_ingestion() {
    assert_eq!(mills_of_f32(4.56).value(), 4_560);
    assert_eq!(mills_of_f32(0.123).value(), 123);
}

#[test]
fn cents_to_mills() {
    let m = Milli64::from_lower_scale(123, 10);
    assert_eq!(m.value(), 1_230);
    assert_eq!(m.render(), "$1.230");
    assert_eq!(Millu64::from_cents(7), Millu64::new(70));
}

#[test]
fn render_signs_and_padding() {
    assert_eq!(Milli64::new(0).render(), "$0.000");
    assert_eq!(Milli64::new(-5).render(), "-$0.005");
    assert_eq!(Milli64::new(1_050).render(), "$1.050");
    assert_eq!(Milli64::new(-1_234).render(), "-$1.234");
    assert_eq!(Millu64::new(12_345_678).render(), "$12345.678");
    assert_eq!(
        Milli128::new(i128::MIN).render(),
        "-$170141183460469231731687303715884105.728"
    );
    assert_eq!(
        Millu128::new(u128::MAX).render(),
        "$340282366920938463463374607431768211.455"
    );
}

#[test]
fn wide_types_multiply() {
    let a = Milli128::new(-2_000_000_000_000_000);
    let b = Milli128::new(3_000);
    assert_eq!(a.mul(b), Milli128::new(-6_000_000_000_000_000));
    assert_eq!(Millu128::new(1_500).mul(Millu128::new(1)), Millu128::new(2));
}
