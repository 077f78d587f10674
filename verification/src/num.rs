//! The numeric capabilities the array storages ask of their element types:
//! an additive identity, a multiplicative identity, and a guarded addition.
//!
//! Every contract about element-wise arithmetic in this crate is stated over
//! [`Num::add_spec`] and the sequence-level [`elemwise_sum`] built from it.
use vstd::prelude::*;

verus! {

/// Definition of the additive identity: `x + 0 == x` for all `x`.
pub trait Zero: Sized {
    /// The additive identity of the type, as a specification value.
    spec fn zero_spec() -> Self;

    /// Returns the additive identity of type `Self`.
    fn zero() -> (r: Self)
        ensures
            r == Self::zero_spec(),
    ;

    /// Returns `true` if `self` is equal to the additive identity.
    fn is_zero(&self) -> (r: bool)
        ensures
            r == (*self == Self::zero_spec()),
    ;

    /// Sets `self` to the additive identity of type `Self`.
    fn set_to_zero(&mut self)
        ensures
            *final(self) == Self::zero_spec(),
    {
        *self = Self::zero();
    }
}

/// Definition of the multiplicative identity: `x * 1 == x` for all `x`.
pub trait One: Sized {
    /// The multiplicative identity of the type, as a specification value.
    spec fn one_spec() -> Self;

    /// Returns the multiplicative identity of type `Self`.
    fn one() -> (r: Self)
        ensures
            r == Self::one_spec(),
    ;

    /// Returns `true` if `self` equals the multiplicative identity.
    fn is_one(&self) -> (r: bool)
        ensures
            r == (*self == Self::one_spec()),
    ;

    /// Sets `self` to the multiplicative identity of type `Self`.
    fn set_to_one(&mut self)
        ensures
            *final(self) == Self::one_spec(),
    {
        *self = Self::one();
    }
}

/// Returns the additive identity of type `T`.
pub fn zero<T: Zero>() -> (r: T)
    ensures
        r == T::zero_spec(),
{
    T::zero()
}

/// Returns the multiplicative identity of type `T`.
pub fn one<T: One>() -> (r: T)
    ensures
        r == T::one_spec(),
{
    T::one()
}

/// An element type the storages can do arithmetic on: it has both identities,
/// is freely copyable, and supports addition wherever [`Num::add_ok`] holds.
pub trait Num: Zero + One + Copy {
    /// The mathematical sum of `self` and `rhs`, meaningful when
    /// [`Num::add_ok`] holds.
    spec fn add_spec(self, rhs: Self) -> Self;

    /// Whether `self + rhs` stays inside the type's range.
    spec fn add_ok(self, rhs: Self) -> bool;

    /// Whether `self` may be negated without leaving the type's range.
    spec fn can_negate(self) -> bool;

    /// The negation of `self`, meaningful when [`Num::can_negate`] holds.
    spec fn negate_spec(self) -> Self;

    /// The sign of `self`: zero, the multiplicative identity, or its negation.
    spec fn signum_spec(self) -> Self;

    /// Adds two values; the caller owes that the sum is representable.
    fn add(self, rhs: Self) -> (r: Self)
        requires
            self.add_ok(rhs),
        ensures
            r == self.add_spec(rhs),
    ;

    /// Negates a value; the caller owes that the negation is representable.
    /// For unsigned types only the additive identity satisfies that, and it
    /// negates to itself.
    fn negate(self) -> (r: Self)
        requires
            self.can_negate(),
        ensures
            r == self.negate_spec(),
    ;

    /// Returns the sign of `self`.
    fn signum(self) -> (r: Self)
        ensures
            r == self.signum_spec(),
    ;

    /// The additive identity can always be added to itself: the padding lanes
    /// of a partially filled lane buffer never make an addition unrepresentable.
    proof fn zero_add_ok()
        ensures
            Self::zero_spec().add_ok(Self::zero_spec()),
            Self::zero_spec().add_spec(Self::zero_spec()) == Self::zero_spec(),
    ;
}

/// Element types that also have a multiplicative inverse.
pub trait Fractional: Num {
    /// Returns the reciprocal of `self`.
    fn recip(self) -> Self;
}

/// The element-wise sum of two sequences, truncated to the shorter length.
pub open spec fn elemwise_sum<T: Num>(a: Seq<T>, b: Seq<T>) -> Seq<T> {
    Seq::new(vstd::math::min(a.len() as int, b.len() as int) as nat, |i: int| a[i].add_spec(b[i]))
}

/// Whether every aligned pair of elements may be added without leaving the
/// element type's range.
pub open spec fn elemwise_ok<T: Num>(a: Seq<T>, b: Seq<T>) -> bool {
    forall|i: int|
        0 <= i < vstd::math::min(a.len() as int, b.len() as int) ==> #[trigger] a[i].add_ok(b[i])
}

} // verus!

verus! {

impl Zero for u8 {
    open spec fn zero_spec() -> u8 {
        0u8
    }

    fn zero() -> u8 {
        0
    }

    fn is_zero(&self) -> bool {
        *self == 0
    }
}

impl One for u8 {
    open spec fn one_spec() -> u8 {
        1u8
    }

    fn one() -> u8 {
        1
    }

    fn is_one(&self) -> bool {
        *self == 1
    }
}

impl Num for u8 {
    open spec fn add_spec(self, rhs: u8) -> u8 {
        (self + rhs) as u8
    }

    open spec fn add_ok(self, rhs: u8) -> bool {
        self + rhs <= u8::MAX
    }

    open spec fn can_negate(self) -> bool {
        self == 0
    }

    open spec fn negate_spec(self) -> u8 {
        self
    }

    open spec fn signum_spec(self) -> u8 {
        if self == 0 {
            0u8
        } else {
            1u8
        }
    }

    fn add(self, rhs: u8) -> u8 {
        self + rhs
    }

    fn negate(self) -> u8 {
        self
    }

    fn signum(self) -> u8 {
        if self == 0 {
            0
        } else {
            1
        }
    }

    proof fn zero_add_ok() {
    }
}

impl Zero for u16 {
    open spec fn zero_spec() -> u16 {
        0u16
    }

    fn zero() -> u16 {
        0
    }

    fn is_zero(&self) -> bool {
        *self == 0
    }
}

impl One for u16 {
    open spec fn one_spec() -> u16 {
        1u16
    }

    fn one() -> u16 {
        1
    }

    fn is_one(&self) -> bool {
        *self == 1
    }
}

impl Num for u16 {
    open spec fn add_spec(self, rhs: u16) -> u16 {
        (self + rhs) as u16
    }

    open spec fn add_ok(self, rhs: u16) -> bool {
        self + rhs <= u16::MAX
    }

    open spec fn can_negate(self) -> bool {
        self == 0
    }

    open spec fn negate_spec(self) -> u16 {
        self
    }

    open spec fn signum_spec(self) -> u16 {
        if self == 0 {
            0u16
        } else {
            1u16
        }
    }

    fn add(self, rhs: u16) -> u16 {
        self + rhs
    }

    fn negate(self) -> u16 {
        self
    }

    fn signum(self) -> u16 {
        if self == 0 {
            0
        } else {
            1
        }
    }

    proof fn zero_add_ok() {
    }
}

impl Zero for u32 {
    open spec fn zero_spec() -> u32 {
        0u32
    }

    fn zero() -> u32 {
        0
    }

    fn is_zero(&self) -> bool {
        *self == 0
    }
}

impl One for u32 {
    open spec fn one_spec() -> u32 {
        1u32
    }

    fn one() -> u32 {
        1
    }

    fn is_one(&self) -> bool {
        *self == 1
    }
}

impl Num for u32 {
    open spec fn add_spec(self, rhs: u32) -> u32 {
        (self + rhs) as u32
    }

    open spec fn add_ok(self, rhs: u32) -> bool {
        self + rhs <= u32::MAX
    }

    open spec fn can_negate(self) -> bool {
        self == 0
    }

    open spec fn negate_spec(self) -> u32 {
        self
    }

    open spec fn signum_spec(self) -> u32 {
        if self == 0 {
            0u32
        } else {
            1u32
        }
    }

    fn add(self, rhs: u32) -> u32 {
        self + rhs
    }

    fn negate(self) -> u32 {
        self
    }

    fn signum(self) -> u32 {
        if self == 0 {
            0
        } else {
            1
        }
    }

    proof fn zero_add_ok() {
    }
}

impl Zero for u64 {
    open spec fn zero_spec() -> u64 {
        0u64
    }

    fn zero() -> u64 {
        0
    }

    fn is_zero(&self) -> bool {
        *self == 0
    }
}

impl One for u64 {
    open spec fn one_spec() -> u64 {
        1u64
    }

    fn one() -> u64 {
        1
    }

    fn is_one(&self) -> bool {
        *self == 1
    }
}

impl Num for u64 {
    open spec fn add_spec(self, rhs: u64) -> u64 {
        (self + rhs) as u64
    }

    open spec fn add_ok(self, rhs: u64) -> bool {
        self + rhs <= u64::MAX
    }

    open spec fn can_negate(self) -> bool {
        self == 0
    }

    open spec fn negate_spec(self) -> u64 {
        self
    }

    open spec fn signum_spec(self) -> u64 {
        if self == 0 {
            0u64
        } else {
            1u64
        }
    }

    fn add(self, rhs: u64) -> u64 {
        self + rhs
    }

    fn negate(self) -> u64 {
        self
    }

    fn signum(self) -> u64 {
        if self == 0 {
            0
        } else {
            1
        }
    }

    proof fn zero_add_ok() {
    }
}

impl Zero for usize {
    open spec fn zero_spec() -> usize {
        0usize
    }

    fn zero() -> usize {
        0
    }

    fn is_zero(&self) -> bool {
        *self == 0
    }
}

impl One for usize {
    open spec fn one_spec() -> usize {
        1usize
    }

    fn one() -> usize {
        1
    }

    fn is_one(&self) -> bool {
        *self == 1
    }
}

impl Num for usize {
    open spec fn add_spec(self, rhs: usize) -> usize {
        (self + rhs) as usize
    }

    open spec fn add_ok(self, rhs: usize) -> bool {
        self + rhs <= usize::MAX
    }

    open spec fn can_negate(self) -> bool {
        self == 0
    }

    open spec fn negate_spec(self) -> usize {
        self
    }

    open spec fn signum_spec(self) -> usize {
        if self == 0 {
            0usize
        } else {
            1usize
        }
    }

    fn add(self, rhs: usize) -> usize {
        self + rhs
    }

    fn negate(self) -> usize {
        self
    }

    fn signum(self) -> usize {
        if self == 0 {
            0
        } else {
            1
        }
    }

    proof fn zero_add_ok() {
    }
}

impl Zero for i8 {
    open spec fn zero_spec() -> i8 {
        0i8
    }

    fn zero() -> i8 {
        0
    }

    fn is_zero(&self) -> bool {
        *self == 0
    }
}

impl One for i8 {
    open spec fn one_spec() -> i8 {
        1i8
    }

    fn one() -> i8 {
        1
    }

    fn is_one(&self) -> bool {
        *self == 1
    }
}

impl Num for i8 {
    open spec fn add_spec(self, rhs: i8) -> i8 {
        (self + rhs) as i8
    }

    open spec fn add_ok(self, rhs: i8) -> bool {
        i8::MIN <= self + rhs <= i8::MAX
    }

    open spec fn can_negate(self) -> bool {
        self != i8::MIN
    }

    open spec fn negate_spec(self) -> i8 {
        (-self) as i8
    }

    open spec fn signum_spec(self) -> i8 {
        if self == 0 {
            0i8
        } else if self > 0 {
            1i8
        } else {
            -1i8
        }
    }

    fn add(self, rhs: i8) -> i8 {
        self + rhs
    }

    fn negate(self) -> i8 {
        -self
    }

    fn signum(self) -> i8 {
        if self == 0 {
            0
        } else if self > 0 {
            1
        } else {
            -1
        }
    }

    proof fn zero_add_ok() {
    }
}

impl Zero for i16 {
    open spec fn zero_spec() -> i16 {
        0i16
    }

    fn zero() -> i16 {
        0
    }

    fn is_zero(&self) -> bool {
        *self == 0
    }
}

impl One for i16 {
    open spec fn one_spec() -> i16 {
        1i16
    }

    fn one() -> i16 {
        1
    }

    fn is_one(&self) -> bool {
        *self == 1
    }
}

impl Num for i16 {
    open spec fn add_spec(self, rhs: i16) -> i16 {
        (self + rhs) as i16
    }

    open spec fn add_ok(self, rhs: i16) -> bool {
        i16::MIN <= self + rhs <= i16::MAX
    }

    open spec fn can_negate(self) -> bool {
        self != i16::MIN
    }

    open spec fn negate_spec(self) -> i16 {
        (-self) as i16
    }

    open spec fn signum_spec(self) -> i16 {
        if self == 0 {
            0i16
        } else if self > 0 {
            1i16
        } else {
            -1i16
        }
    }

    fn add(self, rhs: i16) -> i16 {
        self + rhs
    }

    fn negate(self) -> i16 {
        -self
    }

    fn signum(self) -> i16 {
        if self == 0 {
            0
        } else if self > 0 {
            1
        } else {
            -1
        }
    }

    proof fn zero_add_ok() {
    }
}

impl Zero for i32 {
    open spec fn zero_spec() -> i32 {
        0i32
    }

    fn zero() -> i32 {
        0
    }

    fn is_zero(&self) -> bool {
        *self == 0
    }
}

impl One for i32 {
    open spec fn one_spec() -> i32 {
        1i32
    }

    fn one() -> i32 {
        1
    }

    fn is_one(&self) -> bool {
        *self == 1
    }
}

impl Num for i32 {
    open spec fn add_spec(self, rhs: i32) -> i32 {
        (self + rhs) as i32
    }

    open spec fn add_ok(self, rhs: i32) -> bool {
        i32::MIN <= self + rhs <= i32::MAX
    }

    open spec fn can_negate(self) -> bool {
        self != i32::MIN
    }

    open spec fn negate_spec(self) -> i32 {
        (-self) as i32
    }

    open spec fn signum_spec(self) -> i32 {
        if self == 0 {
            0i32
        } else if self > 0 {
            1i32
        } else {
            -1i32
        }
    }

    fn add(self, rhs: i32) -> i32 {
        self + rhs
    }

    fn negate(self) -> i32 {
        -self
    }

    fn signum(self) -> i32 {
        if self == 0 {
            0
        } else if self > 0 {
            1
        } else {
            -1
        }
    }

    proof fn zero_add_ok() {
    }
}

impl Zero for i64 {
    open spec fn zero_spec() -> i64 {
        0i64
    }

    fn zero() -> i64 {
        0
    }

    fn is_zero(&self) -> bool {
        *self == 0
    }
}

impl One for i64 {
    open spec fn one_spec() -> i64 {
        1i64
    }

    fn one() -> i64 {
        1
    }

    fn is_one(&self) -> bool {
        *self == 1
    }
}

impl Num for i64 {
    open spec fn add_spec(self, rhs: i64) -> i64 {
        (self + rhs) as i64
    }

    open spec fn add_ok(self, rhs: i64) -> bool {
        i64::MIN <= self + rhs <= i64::MAX
    }

    open spec fn can_negate(self) -> bool {
        self != i64::MIN
    }

    open spec fn negate_spec(self) -> i64 {
        (-self) as i64
    }

    open spec fn signum_spec(self) -> i64 {
        if self == 0 {
            0i64
        } else if self > 0 {
            1i64
        } else {
            -1i64
        }
    }

    fn add(self, rhs: i64) -> i64 {
        self + rhs
    }

    fn negate(self) -> i64 {
        -self
    }

    fn signum(self) -> i64 {
        if self == 0 {
            0
        } else if self > 0 {
            1
        } else {
            -1
        }
    }

    proof fn zero_add_ok() {
    }
}

impl Zero for isize {
    open spec fn zero_spec() -> isize {
        0isize
    }

    fn zero() -> isize {
        0
    }

    fn is_zero(&self) -> bool {
        *self == 0
    }
}

impl One for isize {
    open spec fn one_spec() -> isize {
        1isize
    }

    fn one() -> isize {
        1
    }

    fn is_one(&self) -> bool {
        *self == 1
    }
}

impl Num for isize {
    open spec fn add_spec(self, rhs: isize) -> isize {
        (self + rhs) as isize
    }

    open spec fn add_ok(self, rhs: isize) -> bool {
        isize::MIN <= self + rhs <= isize::MAX
    }

    open spec fn can_negate(self) -> bool {
        self != isize::MIN
    }

    open spec fn negate_spec(self) -> isize {
        (-self) as isize
    }

    open spec fn signum_spec(self) -> isize {
        if self == 0 {
            0isize
        } else if self > 0 {
            1isize
        } else {
            -1isize
        }
    }

    fn add(self, rhs: isize) -> isize {
        self + rhs
    }

    fn negate(self) -> isize {
        -self
    }

    fn signum(self) -> isize {
        if self == 0 {
            0
        } else if self > 0 {
            1
        } else {
            -1
        }
    }

    proof fn zero_add_ok() {
    }
}

} // verus!
