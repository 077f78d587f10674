//! The fixed-length array facade: `N` elements of `T` in an inline buffer,
//! with zero-initialized construction and element-wise addition.
use vstd::prelude::*;
use vstd::std_specs::iter::IteratorSpec;
use crate::num::Num;
use crate::num::Zero;
use crate::num::elemwise_ok;
use crate::num::elemwise_sum;
use crate::traits::Decay;
use crate::traits::DesugaredArrayType;
use crate::traits::NdArray;
use crate::traits::NdArrayAdd;
use crate::traits::NdArrayDepth;
use crate::traits::ScalarType;

verus! {

broadcast use vstd::array::group_array_axioms;

/// A fixed-length array of `N` elements of type `T`.
///
/// Construction zero-fills the elements; the length is part of the type and
/// never changes. Addition is element-wise over two arrays of the same
/// shape.
#[derive(Copy)]
pub struct Array<T, const N: usize> {
    data: [T; N],
}

/// A fixed-length array always holds exactly `N` elements.
pub broadcast proof fn lemma_array_view_len<T, const N: usize>(a: &Array<T, N>)
    ensures
        (#[trigger] a@.len()) == N,
{
}

impl<T: Copy, const N: usize> Clone for Array<T, N> {
    /// A clone of an array is the same value.
    fn clone(&self) -> (r: Self)
        ensures
            r == *self,
    {
        *self
    }
}

impl<T, const N: usize> View for Array<T, N> {
    type V = Seq<T>;

    closed spec fn view(&self) -> Seq<T> {
        self.data@
    }
}

impl<T, const N: usize> Array<T, N> {
    /// Current element count: always the declared length.
    pub fn len(&self) -> (r: usize)
        ensures
            r == self@.len(),
            r == N,
    {
        N
    }

    /// Bounds-checked read access by position.
    pub fn index(&self, i: usize) -> (r: &T)
        requires
            i < self@.len(),
        ensures
            *r == self@[i as int],
    {
        &self.data[i]
    }

    /// Bounds-checked replacement of the element at a position.
    pub fn set(&mut self, i: usize, v: T)
        requires
            i < old(self)@.len(),
        ensures
            final(self)@ == old(self)@.update(i as int, v),
    {
        self.data[i] = v;
    }

    /// The elements, read as a full array.
    pub fn as_array(&self) -> (r: &[T; N])
        ensures
            r@ == self@,
    {
        &self.data
    }

    /// A restartable walk over references to the elements in index order.
    pub fn iter<'a>(&'a self) -> (it: core::slice::Iter<'a, T>)
        ensures
            it.remaining() == self@.as_ref(),
    {
        let s: &[T] = self.data.as_slice();
        s.iter()
    }
}

impl<T: Zero + Copy, const N: usize> Array<T, N> {
    /// Constructs the array with every element set to the additive identity.
    pub fn new() -> (r: Self)
        ensures
            r@.len() == N,
            forall|i: int| 0 <= i < N ==> r@[i] == T::zero_spec(),
            r == Self::zero_spec(),
    {
        let data: [T; N] = vstd::array::array_fill_for_copy_types(T::zero());
        Array { data }
    }

    /// Wraps a full array of elements in the facade.
    pub fn from_array(data: [T; N]) -> (r: Self)
        ensures
            r@ == data@,
    {
        Array { data }
    }

    /// Consumes the array, handing the owned elements out in index order.
    pub fn into_iter(self) -> (r: Vec<T>)
        ensures
            r@ == self@,
    {
        let mut v: Vec<T> = Vec::new();
        let mut i: usize = 0;
        while i < N
            invariant
                i <= N,
                self@.len() == N,
                v@ == self@.take(i as int),
            decreases N - i,
        {
            v.push(self.data[i]);
            proof {
                assert(self@.take(i + 1 as int) =~= self@.take(i as int).push(self@[i as int]));
            }
            i += 1;
        }
        proof {
            assert(v@ =~= self@);
        }
        v
    }
}

impl<T: Zero + Copy, const N: usize> Zero for Array<T, N> {
    /// The additive identity of an array shape: every element the element
    /// type's additive identity.
    closed spec fn zero_spec() -> Array<T, N> {
        Array { data: vstd::array::spec_array_fill_for_copy_type::<T, N>(T::zero_spec()) }
    }

    fn zero() -> (r: Self) {
        Array::<T, N>::new()
    }

    fn is_zero(&self) -> (r: bool) {
        let ghost z: [T; N] = vstd::array::spec_array_fill_for_copy_type::<T, N>(T::zero_spec());
        let mut i: usize = 0;
        while i < N
            invariant
                i <= N,
                self@.len() == N,
                z == vstd::array::spec_array_fill_for_copy_type::<T, N>(T::zero_spec()),
                forall|j: int| 0 <= j < i ==> self@[j] == T::zero_spec(),
            decreases N - i,
        {
            if !self.data[i].is_zero() {
                proof {
                    assert(self.data@[i as int] != z@[i as int]);
                    assert(*self != Self::zero_spec());
                }
                return false;
            }
            i += 1;
        }
        proof {
            assert(self.data =~= z);
        }
        true
    }
}

/// What the additive identity of an array shape looks like from outside:
/// `N` elements, every one the element type's additive identity.
pub proof fn lemma_array_zero_spec<T: Zero + Copy, const N: usize>()
    ensures
        Array::<T, N>::zero_spec()@.len() == N,
        forall|i: int| 0 <= i < N ==> Array::<T, N>::zero_spec()@[i] == T::zero_spec(),
{
}

impl<T: NdArrayDepth, const N: usize> NdArrayDepth for Array<T, N> {
    open spec fn depth_spec() -> nat {
        T::depth_spec() + 1
    }

    fn array_depth() -> usize {
        let d = T::array_depth();
        d + 1
    }
}

impl<T: ScalarType, const N: usize> ScalarType for Array<T, N> {
    type Scalar = <T as ScalarType>::Scalar;
}

impl<T, const N: usize> Decay for Array<T, N> {
    type Type = Array<T, N>;
}

impl<T, const N: usize> DesugaredArrayType for Array<T, N> {
    type Desugared = Array<T, N>;
}

impl<T: ScalarType, const N: usize> NdArray for Array<T, N> {
    type Value = T;

    type Scalar = <T as ScalarType>::Scalar;
}

impl<T: Num, const N: usize> NdArrayAdd for Array<T, N> {
    type Value = T;

    type Output = Array<T, N>;

    open spec fn add_req(self, other: Self) -> bool {
        elemwise_ok(self@, other@)
    }

    open spec fn add_result(self, other: Self) -> Seq<T> {
        elemwise_sum(self@, other@)
    }

    /// The facade's addition: the element-by-element loop over the two
    /// operands. The lane-buffer paths of the `simd` modules produce exactly
    /// this sum for the shapes they serve.
    fn add(self, other: Self) -> (r: Self) {
        let mut data: [T; N] = vstd::array::array_fill_for_copy_types(T::zero());
        let mut i: usize = 0;
        while i < N
            invariant
                i <= N,
                self@.len() == N,
                other@.len() == N,
                data@.len() == N,
                elemwise_ok(self@, other@),
                forall|j: int| 0 <= j < i ==> data@[j] == self@[j].add_spec(other@[j]),
            decreases N - i,
        {
            assert(self@[i as int].add_ok(other@[i as int]));
            let s = self.data[i].add(other.data[i]);
            data[i] = s;
            i += 1;
        }
        let r = Array { data };
        proof {
            assert(r@ =~= elemwise_sum(self@, other@));
        }
        r
    }
}

} // verus!
