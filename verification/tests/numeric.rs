//! The numeric capabilities of the element types: identities, guarded
//! addition, negation and sign.
use ndsimd::Num;
use ndsimd::One;
use ndsimd::Zero;
use ndsimd::one;
use ndsimd::zero;

#[test]
fn sign_of_nan() {
    // Floating-point elements keep the standard library's sign conventions:
    // the sign of a quiet NaN is NaN again.
    assert!(f32::NAN.signum().is_nan());
    assert!(f64::NAN.signum().is_nan());
}

#[test]
fn sign_of_zero_float() {
    println!("sign of 0.0 is {}", 0.0_f32.signum());
}

#[test]
fn zero_and_one_identities() {
    assert_eq!(zero::<u8>(), 0);
    assert_eq!(zero::<i64>(), 0);
    assert_eq!(zero::<usize>(), 0);
    assert_eq!(one::<u8>(), 1);
    assert_eq!(one::<i64>(), 1);
    assert_eq!(one::<isize>(), 1);

    assert!(0u16.is_zero());
    assert!(!3u16.is_zero());
    assert!(1i32.is_one());
    assert!(!0i32.is_one());

    let mut x: u32 = 44;
    x.set_to_zero();
    assert_eq!(x, 0);
    x.set_to_one();
    assert_eq!(x, 1);
}

#[test]
fn sign_of_signed_numbers() {
    assert_eq!(<i8 as Num>::signum(0), 0);
    assert_eq!(<i8 as Num>::signum(123), 1);
    assert_eq!(<i8 as Num>::signum(-123), -1);
    assert_eq!(<i64 as Num>::signum(0), 0);
    assert_eq!(<i64 as Num>::signum(9_000_000_000), 1);
    assert_eq!(<i64 as Num>::signum(-2), -1);
    assert_eq!(<isize as Num>::signum(-77), -1);
}

#[test]
fn sign_of_unsigned_numbers() {
    assert_eq!(<u8 as Num>::signum(0), 0);
    assert_eq!(<u8 as Num>::signum(123), 1);
    assert_eq!(<u64 as Num>::signum(0), 0);
    assert_eq!(<u64 as Num>::signum(987_654_321), 1);
    assert_eq!(<usize as Num>::signum(3), 1);
}

#[test]
fn negate_signed_numbers() {
    assert_eq!(0i8, <i8 as Num>::negate(123) + <i8 as Num>::negate(-123));
    assert_eq!(0i16, <i16 as Num>::negate(123) + <i16 as Num>::negate(-123));
    assert_eq!(0i32, <i32 as Num>::negate(123) + <i32 as Num>::negate(-123));
    assert_eq!(0i64, <i64 as Num>::negate(123) + <i64 as Num>::negate(-123));
    assert_eq!(0isize, <isize as Num>::negate(123) + <isize as Num>::negate(-123));
    assert_eq!(<i32 as Num>::negate(5), -5);
}

#[test]
fn negate_unsigned_zero_is_zero() {
    // Negation of an unsigned value is defined only at the additive
    // identity, where it is the identity again.
    assert_eq!(<u8 as Num>::negate(0), 0);
    assert_eq!(<u64 as Num>::negate(0), 0);
}

#[test]
fn guarded_addition() {
    assert_eq!(<u32 as Num>::add(2_000_000_000, 1_000_000_000), 3_000_000_000);
    assert_eq!(<i8 as Num>::add(-100, 27), -73);
    assert_eq!(<u8 as Num>::add(250, 5), 255);
    assert_eq!(<i64 as Num>::add(i64::MAX - 1, 1), i64::MAX);
}
