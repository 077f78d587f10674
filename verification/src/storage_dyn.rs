//! Growable storage: length is a runtime property, driven by the caller.
use vstd::prelude::*;
use vstd::std_specs::iter::IteratorSpec;
use crate::num::Num;
use crate::num::elemwise_ok;
use crate::num::elemwise_sum;
use crate::traits::NdArrayAdd;
use crate::traits::NdArrayBase;
use crate::traits::NdArrayBaseOps;
use crate::traits::ScalarType;

verus! {

/// Storage owning a growable buffer: it starts empty and grows through
/// caller-driven mutation.
pub struct DynamicStorage<T> {
    data: Vec<T>,
}

impl<T> View for DynamicStorage<T> {
    type V = Seq<T>;

    closed spec fn view(&self) -> Seq<T> {
        self.data@
    }
}

impl<T: ScalarType> ScalarType for DynamicStorage<T> {
    type Scalar = <T as ScalarType>::Scalar;
}

impl<T> NdArrayBaseOps for DynamicStorage<T> {
}

impl<T> DynamicStorage<T> {
    /// Constructs the storage empty.
    pub fn new() -> (r: Self)
        ensures
            r@ == Seq::<T>::empty(),
    {
        let r = DynamicStorage { data: Vec::new() };
        proof {
            assert(r@ =~= Seq::<T>::empty());
        }
        r
    }

    /// Current element count.
    pub fn len(&self) -> (r: usize)
        ensures
            r == self@.len(),
    {
        self.data.len()
    }

    /// Bounds-checked read access by position.
    pub fn index(&self, i: usize) -> (r: &T)
        requires
            i < self@.len(),
        ensures
            *r == self@[i as int],
    {
        &self.data[i]
    }

    /// Bounds-checked replacement of the element at a position.
    pub fn set(&mut self, i: usize, v: T)
        requires
            i < old(self)@.len(),
        ensures
            final(self)@ == old(self)@.update(i as int, v),
        no_unwind
    {
        self.data[i] = v;
    }

    /// Appends an element, growing the storage by one.
    pub fn push(&mut self, v: T)
        ensures
            final(self)@ == old(self)@.push(v),
    {
        self.data.push(v);
    }

    /// A restartable walk over references to the elements in index order.
    pub fn iter<'a>(&'a self) -> (it: core::slice::Iter<'a, T>)
        ensures
            it.remaining() == self@.as_ref(),
    {
        let s: &[T] = self.data.as_slice();
        s.iter()
    }

    /// Consumes the storage, handing the owned elements out in index order.
    pub fn into_iter(self) -> (r: Vec<T>)
        ensures
            r@ == self@,
    {
        self.data
    }
}

impl<T: ScalarType> NdArrayBase for DynamicStorage<T> {
    type Value = T;

    type Scalar = <T as ScalarType>::Scalar;

    type Mask = ();

    open spec fn elems(&self) -> Seq<T> {
        self.view()
    }

    open spec fn init_elems() -> Seq<T> {
        Seq::empty()
    }

    fn new() -> (r: Self) {
        DynamicStorage::<T>::new()
    }

    fn len(&self) -> usize {
        DynamicStorage::<T>::len(self)
    }

    fn index(&self, i: usize) -> &T {
        DynamicStorage::<T>::index(self, i)
    }

    fn set(&mut self, i: usize, v: T) {
        DynamicStorage::<T>::set(self, i, v);
    }

    fn iter<'a>(&'a self) -> core::slice::Iter<'a, T> {
        DynamicStorage::<T>::iter(self)
    }

    fn into_iter(self) -> Vec<T> {
        DynamicStorage::<T>::into_iter(self)
    }
}

impl<T: Num> NdArrayAdd for DynamicStorage<T> {
    type Value = T;

    type Output = DynamicStorage<T>;

    open spec fn add_req(self, other: Self) -> bool {
        elemwise_ok(self@, other@)
    }

    open spec fn add_result(self, other: Self) -> Seq<T> {
        elemwise_sum(self@, other@)
    }

    /// Position-wise addition of two growable storages.
    ///
    /// Length-mismatch policy: the result has the length of the shorter
    /// operand; the longer operand's tail is discarded.
    fn add(self, other: Self) -> (r: Self) {
        let n = if self.data.len() < other.data.len() {
            self.data.len()
        } else {
            other.data.len()
        };
        let mut data: Vec<T> = Vec::new();
        let mut i: usize = 0;
        while i < n
            invariant
                i <= n,
                n == vstd::math::min(self@.len() as int, other@.len() as int),
                elemwise_ok(self@, other@),
                data@.len() == i,
                forall|j: int| 0 <= j < i ==> data@[j] == self@[j].add_spec(other@[j]),
            decreases n - i,
        {
            assert(self@[i as int].add_ok(other@[i as int]));
            let s = self.data[i].add(other.data[i]);
            data.push(s);
            i += 1;
        }
        let r = DynamicStorage { data };
        proof {
            assert(r@ =~= elemwise_sum(self@, other@));
        }
        r
    }
}

} // verus!
