//! The variable-length array facade: a growable sequence of elements behind
//! the same storage contract as the fixed shapes.
use vstd::prelude::*;
use vstd::std_specs::iter::IteratorSpec;
use crate::base::ArrayBase;
use crate::base::Backing;
use crate::num::Num;
use crate::num::elemwise_ok;
use crate::num::elemwise_sum;
use crate::storage_dyn::DynamicStorage;
use crate::traits::Decay;
use crate::traits::DesugaredArrayType;
use crate::traits::NdArray;
use crate::traits::NdArrayAdd;
use crate::traits::NdArrayDepth;
use crate::traits::ScalarType;

verus! {

/// A variable-length array: it starts empty and grows through caller-driven
/// mutation.
pub struct DynArray<T>(pub(crate) ArrayBase<T, 0, true>);

impl<T> View for DynArray<T> {
    type V = Seq<T>;

    closed spec fn view(&self) -> Seq<T> {
        self.0@
    }
}

impl<T> DynArray<T> {
    /// Constructs the array empty.
    pub fn new() -> (r: Self)
        ensures
            r@ == Seq::<T>::empty(),
    {
        DynArray(ArrayBase::<T, 0, true>::new())
    }

    /// Current element count.
    pub fn len(&self) -> (r: usize)
        ensures
            r == self@.len(),
    {
        self.0.len()
    }

    /// Bounds-checked read access by position.
    pub fn index(&self, i: usize) -> (r: &T)
        requires
            i < self@.len(),
        ensures
            *r == self@[i as int],
    {
        self.0.index(i)
    }

    /// Bounds-checked replacement of the element at a position.
    pub fn set(&mut self, i: usize, v: T)
        requires
            i < old(self)@.len(),
        ensures
            final(self)@ == old(self)@.update(i as int, v),
    {
        self.0.set(i, v);
    }

    /// Appends an element, growing the array by one.
    pub fn push(&mut self, v: T)
        ensures
            final(self)@ == old(self)@.push(v),
    {
        self.0.push(v);
    }

    /// A restartable walk over references to the elements in index order.
    pub fn iter<'a>(&'a self) -> (it: core::slice::Iter<'a, T>)
        ensures
            it.remaining() == self@.as_ref(),
    {
        self.0.iter()
    }

    /// Consumes the array, handing the owned elements out in index order.
    pub fn into_iter(self) -> (r: Vec<T>)
        ensures
            r@ == self@,
    {
        self.0.into_iter()
    }
}

impl<T: NdArrayDepth> DynArray<T> {
    /// The nesting depth of this array type: one more than its element
    /// type's.
    pub fn depth(&self) -> (r: usize)
        requires
            T::depth_spec() + 1 <= usize::MAX as nat,
        ensures
            r as nat == <ArrayBase<T, 0, true> as NdArrayDepth>::depth_spec(),
    {
        <ArrayBase<T, 0, true> as NdArrayDepth>::array_depth()
    }
}

impl<T: ScalarType> ScalarType for DynArray<T> {
    type Scalar = <T as ScalarType>::Scalar;
}

impl<T> Decay for DynArray<T> {
    type Type = DynArray<T>;
}

impl<T> DesugaredArrayType for DynArray<T> {
    type Desugared = ArrayBase<T, 0, true>;
}

impl<T: ScalarType + DesugaredArrayType> NdArray for DynArray<T> where
    <T as DesugaredArrayType>::Desugared: ScalarType {
    type Value = T;

    type Scalar = <<T as DesugaredArrayType>::Desugared as ScalarType>::Scalar;
}

impl<T: Num> NdArrayAdd for DynArray<T> {
    type Value = T;

    type Output = DynArray<T>;

    open spec fn add_req(self, other: Self) -> bool {
        elemwise_ok(self@, other@)
    }

    open spec fn add_result(self, other: Self) -> Seq<T> {
        elemwise_sum(self@, other@)
    }

    /// Element-wise addition of two variable-length arrays.
    ///
    /// Length-mismatch policy: the result has the length of the shorter
    /// operand; the longer operand's tail is discarded.
    fn add(self, other: Self) -> (r: Self) {
        proof {
            use_type_invariant(&self.0);
            use_type_invariant(&other.0);
            crate::base::lemma_base_view(&self.0);
            crate::base::lemma_base_view(&other.0);
        }
        let a: DynamicStorage<T> = match self.0.inner {
            Backing::Growable(s) => s,
            Backing::Fixed(_) => {
                vstd::pervasive::unreached()
            },
        };
        let b: DynamicStorage<T> = match other.0.inner {
            Backing::Growable(s) => s,
            Backing::Fixed(_) => {
                vstd::pervasive::unreached()
            },
        };
        let sum = a.add(b);
        let r = DynArray(ArrayBase { inner: Backing::Growable(sum) });
        proof {
            crate::base::lemma_base_view(&r.0);
        }
        r
    }
}

} // verus!
