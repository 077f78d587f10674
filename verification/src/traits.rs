//! The array abstraction's trait surface: the storage contract every backing
//! representation implements, the addition capability, and the compile-time
//! queries for nesting depth and innermost scalar type.
use vstd::prelude::*;
use vstd::std_specs::iter::IteratorSpec;

verus! {

/// Maps an array shape to the concrete storage representation backing it.
///
/// The dispatch has one winner per shape: the dynamic shapes of
/// [`crate::ArrayBase`] map to [`crate::DynamicStorage`], the fixed ones to
/// [`crate::StaticStorage`]. The value-level form of the same table, covering
/// the lane-buffer variants as well, is [`crate::resolve_variant`].
pub trait ArrayStorage<T> {
    /// The storage representation selected for this shape.
    type StorageVariant;
}

/// Element-wise addition between two array-like values.
pub trait NdArrayAdd<Rhs = Self>: Sized {
    /// Value data type stored by the operands.
    type Value;

    /// The type of the sum; its view is the sequence of elements it holds.
    type Output: View<V = Seq<Self::Value>>;

    /// What the addition requires of the operands: every pair of elements that
    /// meets must have a representable sum.
    spec fn add_req(self, other: Rhs) -> bool;

    /// The elements of the element-wise sum, in index order.
    spec fn add_result(self, other: Rhs) -> Seq<Self::Value>;

    /// Adds the two operands element by element.
    fn add(self, other: Rhs) -> (r: Self::Output)
        requires
            self.add_req(other),
        ensures
            r@ == self.add_result(other),
    ;
}

/// Reserved surface for element-wise operations beyond addition (comparison
/// masks, subtraction, scaling): none of them is part of the storage contract
/// yet.
pub trait NdArrayBaseOps {
}

/// Common contract of every storage representation: construction, length,
/// element access and element replacement, all stated over the sequence of
/// elements currently held.
pub trait NdArrayBase: Sized {
    /// Value data type stored by the array.
    type Value;

    /// Scalar data type all the way at the lowest level.
    type Scalar;

    /// Mask vector type.
    type Mask;

    /// The elements currently held, in index order.
    spec fn elems(&self) -> Seq<Self::Value>;

    /// The elements a freshly constructed storage holds.
    spec fn init_elems() -> Seq<Self::Value>;

    /// Constructs the storage in its initial state: zero-filled at its
    /// declared length when that length is fixed, empty when it may grow.
    fn new() -> (r: Self)
        ensures
            r.elems() == Self::init_elems(),
    ;

    /// Current element count.
    fn len(&self) -> (r: usize)
        ensures
            r == self.elems().len(),
    ;

    /// Bounds-checked read access by position.
    fn index(&self, i: usize) -> (r: &Self::Value)
        requires
            i < self.elems().len(),
        ensures
            *r == self.elems()[i as int],
    ;

    /// Bounds-checked replacement of the element at a position.
    fn set(&mut self, i: usize, v: Self::Value)
        requires
            i < old(self).elems().len(),
        ensures
            final(self).elems() == old(self).elems().update(i as int, v),
    ;

    /// A lazy, finite, restartable walk over references to the elements in
    /// index order.
    fn iter<'a>(&'a self) -> (it: core::slice::Iter<'a, Self::Value>)
        ensures
            it.remaining() == self.elems().as_ref(),
    ;

    /// Consumes the storage, handing the owned elements out in index order.
    fn into_iter(self) -> (r: Vec<Self::Value>)
        ensures
            r@ == self.elems(),
    ;
}

/// An array facade: a value type with elements and an innermost scalar type.
pub trait NdArray {
    /// Value data type stored by the array.
    type Value;

    /// Scalar data type all the way at the lowest level.
    type Scalar;
}

/// The nesting depth of an array type: scalars have depth zero, and a wrapping
/// array type has the depth of its element type plus one.
pub trait NdArrayDepth {
    /// The nesting depth, as a mathematical value.
    spec fn depth_spec() -> nat;

    /// Returns the nesting depth of the type.
    fn array_depth() -> (r: usize)
        requires
            Self::depth_spec() <= usize::MAX as nat,
        ensures
            r as nat == Self::depth_spec(),
    ;
}

/// Get the underlying value type of a reference: references resolve to their
/// referent's resolution, every other type to itself.
pub trait Decay {
    /// The decayed type.
    type Type;
}

impl<'a, T: Decay> Decay for &'a T {
    type Type = <T as Decay>::Type;
}

impl<'a, T: Decay> Decay for &'a mut T {
    type Type = <T as Decay>::Type;
}

/// Get the scalar type all the way at the lowest level of a possibly nested
/// array type; references are transparent.
pub trait ScalarType {
    /// The innermost non-array element type.
    type Scalar;
}

impl<'a, T: ScalarType> ScalarType for &'a T {
    type Scalar = <T as ScalarType>::Scalar;
}

impl<'a, T: ScalarType> ScalarType for &'a mut T {
    type Scalar = <T as ScalarType>::Scalar;
}

/// Get the array type encapsulated inside of a tuple-struct facade; every
/// other type desugars to itself.
pub trait DesugaredArrayType {
    /// The encapsulated array type.
    type Desugared;
}

} // verus!

verus! {

impl NdArrayDepth for u8 {
    open spec fn depth_spec() -> nat {
        0
    }

    fn array_depth() -> usize {
        0
    }
}

impl Decay for u8 {
    type Type = u8;
}

impl ScalarType for u8 {
    type Scalar = u8;
}

impl DesugaredArrayType for u8 {
    type Desugared = u8;
}

impl NdArrayDepth for u16 {
    open spec fn depth_spec() -> nat {
        0
    }

    fn array_depth() -> usize {
        0
    }
}

impl Decay for u16 {
    type Type = u16;
}

impl ScalarType for u16 {
    type Scalar = u16;
}

impl DesugaredArrayType for u16 {
    type Desugared = u16;
}

impl NdArrayDepth for u32 {
    open spec fn depth_spec() -> nat {
        0
    }

    fn array_depth() -> usize {
        0
    }
}

impl Decay for u32 {
    type Type = u32;
}

impl ScalarType for u32 {
    type Scalar = u32;
}

impl DesugaredArrayType for u32 {
    type Desugared = u32;
}

impl NdArrayDepth for u64 {
    open spec fn depth_spec() -> nat {
        0
    }

    fn array_depth() -> usize {
        0
    }
}

impl Decay for u64 {
    type Type = u64;
}

impl ScalarType for u64 {
    type Scalar = u64;
}

impl DesugaredArrayType for u64 {
    type Desugared = u64;
}

impl NdArrayDepth for usize {
    open spec fn depth_spec() -> nat {
        0
    }

    fn array_depth() -> usize {
        0
    }
}

impl Decay for usize {
    type Type = usize;
}

impl ScalarType for usize {
    type Scalar = usize;
}

impl DesugaredArrayType for usize {
    type Desugared = usize;
}

impl NdArrayDepth for i8 {
    open spec fn depth_spec() -> nat {
        0
    }

    fn array_depth() -> usize {
        0
    }
}

impl Decay for i8 {
    type Type = i8;
}

impl ScalarType for i8 {
    type Scalar = i8;
}

impl DesugaredArrayType for i8 {
    type Desugared = i8;
}

impl NdArrayDepth for i16 {
    open spec fn depth_spec() -> nat {
        0
    }

    fn array_depth() -> usize {
        0
    }
}

impl Decay for i16 {
    type Type = i16;
}

impl ScalarType for i16 {
    type Scalar = i16;
}

impl DesugaredArrayType for i16 {
    type Desugared = i16;
}

impl NdArrayDepth for i32 {
    open spec fn depth_spec() -> nat {
        0
    }

    fn array_depth() -> usize {
        0
    }
}

impl Decay for i32 {
    type Type = i32;
}

impl ScalarType for i32 {
    type Scalar = i32;
}

impl DesugaredArrayType for i32 {
    type Desugared = i32;
}

impl NdArrayDepth for i64 {
    open spec fn depth_spec() -> nat {
        0
    }

    fn array_depth() -> usize {
        0
    }
}

impl Decay for i64 {
    type Type = i64;
}

impl ScalarType for i64 {
    type Scalar = i64;
}

impl DesugaredArrayType for i64 {
    type Desugared = i64;
}

impl NdArrayDepth for isize {
    open spec fn depth_spec() -> nat {
        0
    }

    fn array_depth() -> usize {
        0
    }
}

impl Decay for isize {
    type Type = isize;
}

impl ScalarType for isize {
    type Scalar = isize;
}

impl DesugaredArrayType for isize {
    type Desugared = isize;
}

} // verus!
