//! Inline fixed-length storage, and the unreachable sentinel that the
//! type-level dispatch falls back to for shapes no rule covers.
use vstd::prelude::*;
use vstd::std_specs::iter::IteratorSpec;
use crate::num::Num;
use crate::num::Zero;
use crate::num::elemwise_ok;
use crate::num::elemwise_sum;
use crate::traits::NdArrayAdd;
use crate::traits::NdArrayBase;
use crate::traits::NdArrayBaseOps;
use crate::traits::ScalarType;

verus! {

/// Storage owning an inline buffer of exactly `N` values of `T`.
///
/// Construction zero-fills the buffer; the length never changes afterwards.
#[derive(Copy)]
pub struct StaticStorage<T, const N: usize> {
    data: [T; N],
}

/// A fixed storage always holds exactly `N` elements.
pub broadcast proof fn lemma_static_view_len<T, const N: usize>(s: &StaticStorage<T, N>)
    ensures
        (#[trigger] s@.len()) == N,
{
}

impl<T: Copy, const N: usize> Clone for StaticStorage<T, N> {
    /// A clone of a fixed storage is the same value.
    fn clone(&self) -> (r: Self)
        ensures
            r == *self,
    {
        *self
    }
}

impl<T, const N: usize> View for StaticStorage<T, N> {
    type V = Seq<T>;

    closed spec fn view(&self) -> Seq<T> {
        self.data@
    }
}

impl<T: ScalarType, const N: usize> ScalarType for StaticStorage<T, N> {
    type Scalar = <T as ScalarType>::Scalar;
}

impl<T, const N: usize> NdArrayBaseOps for StaticStorage<T, N> {
}

impl<T, const N: usize> StaticStorage<T, N> {
    /// Current element count: always the declared length.
    pub fn len(&self) -> (r: usize)
        ensures
            r == self@.len(),
            r == N,
    {
        N
    }

    /// Bounds-checked read access by position.
    pub fn index(&self, i: usize) -> (r: &T)
        requires
            i < self@.len(),
        ensures
            *r == self@[i as int],
    {
        &self.data[i]
    }

    /// Bounds-checked replacement of the element at a position.
    pub fn set(&mut self, i: usize, v: T)
        requires
            i < old(self)@.len(),
        ensures
            final(self)@ == old(self)@.update(i as int, v),
        no_unwind
    {
        self.data[i] = v;
    }

    /// A restartable walk over references to the elements in index order.
    pub fn iter<'a>(&'a self) -> (it: core::slice::Iter<'a, T>)
        ensures
            it.remaining() == self@.as_ref(),
    {
        let s: &[T] = self.data.as_slice();
        s.iter()
    }
}

impl<T: Zero + Copy, const N: usize> StaticStorage<T, N> {
    /// Constructs the storage with every element set to the additive
    /// identity.
    pub fn new() -> (r: Self)
        ensures
            r@.len() == N,
            forall|i: int| 0 <= i < N ==> r@[i] == T::zero_spec(),
    {
        let data: [T; N] = vstd::array::array_fill_for_copy_types(T::zero());
        StaticStorage { data }
    }

    /// Consumes the storage, handing the owned elements out in index order.
    pub fn into_iter(self) -> (r: Vec<T>)
        ensures
            r@ == self@,
    {
        let mut v: Vec<T> = Vec::new();
        let mut i: usize = 0;
        while i < N
            invariant
                i <= N,
                self@.len() == N,
                v@ == self@.take(i as int),
            decreases N - i,
        {
            v.push(self.data[i]);
            proof {
                assert(self@.take(i + 1 as int) =~= self@.take(i as int).push(self@[i as int]));
            }
            i += 1;
        }
        proof {
            assert(v@ =~= self@);
        }
        v
    }
}

impl<T: Zero + Copy + ScalarType, const N: usize> NdArrayBase for StaticStorage<T, N> {
    type Value = T;

    type Scalar = <T as ScalarType>::Scalar;

    type Mask = ();

    open spec fn elems(&self) -> Seq<T> {
        self.view()
    }

    open spec fn init_elems() -> Seq<T> {
        Seq::new(N as nat, |i: int| T::zero_spec())
    }

    fn new() -> (r: Self) {
        let r = StaticStorage::<T, N>::new();
        proof {
            assert(r.elems() =~= Self::init_elems());
        }
        r
    }

    fn len(&self) -> usize {
        StaticStorage::<T, N>::len(self)
    }

    fn index(&self, i: usize) -> &T {
        StaticStorage::<T, N>::index(self, i)
    }

    fn set(&mut self, i: usize, v: T) {
        StaticStorage::<T, N>::set(self, i, v);
    }

    fn iter<'a>(&'a self) -> core::slice::Iter<'a, T> {
        StaticStorage::<T, N>::iter(self)
    }

    fn into_iter(self) -> Vec<T> {
        StaticStorage::<T, N>::into_iter(self)
    }
}

impl<T: Num, const N: usize> NdArrayAdd for StaticStorage<T, N> {
    type Value = T;

    type Output = StaticStorage<T, N>;

    open spec fn add_req(self, other: Self) -> bool {
        elemwise_ok(self@, other@)
    }

    open spec fn add_result(self, other: Self) -> Seq<T> {
        elemwise_sum(self@, other@)
    }

    /// Position-wise addition of two equally long fixed storages.
    fn add(self, other: Self) -> (r: Self) {
        let mut data: [T; N] = vstd::array::array_fill_for_copy_types(T::zero());
        let mut i: usize = 0;
        while i < N
            invariant
                i <= N,
                self@.len() == N,
                other@.len() == N,
                data@.len() == N,
                elemwise_ok(self@, other@),
                forall|j: int| 0 <= j < i ==> data@[j] == self@[j].add_spec(other@[j]),
            decreases N - i,
        {
            assert(self@[i as int].add_ok(other@[i as int]));
            let s = self.data[i].add(other.data[i]);
            data[i] = s;
            i += 1;
        }
        let r = StaticStorage { data };
        proof {
            assert(r@ =~= elemwise_sum(self@, other@));
        }
        r
    }
}

/// Default unreachable storage: the zero-sized sentinel that the type-level
/// dispatch assigns to a shape before a more specific rule overrides it.
///
/// No reachable shape resolves to it — `resolve_variant` proves that the
/// value-level table never yields its kind — so it carries no operations: a
/// correctly configured system never runs any code of its own on it.
pub struct UnreachableStorage<T> {
    _marker: core::marker::PhantomData<T>,
}

} // verus!
