//! The storage-variant dispatch: the table mapping an array shape to the one
//! concrete representation backing it, and the shared facade core that holds
//! the representation the table picks.
//!
//! The table takes three inputs — the element kind, the declared length, and
//! whether the shape is dynamic — together with the set of enabled
//! instruction-set extensions, and resolves them to exactly one winner, most
//! specific rule first: dynamic shapes always take the growable storage; a
//! supported float width whose length fits a full or partial register of an
//! enabled extension takes that register's wrapper; everything else falls
//! back to the inline fixed storage. The sentinel kind is never the winner.
use vstd::prelude::*;
use vstd::std_specs::iter::IteratorSpec;
use crate::num::Zero;
use crate::storage::StaticStorage;
use crate::storage_dyn::DynamicStorage;
use crate::traits::ArrayStorage;
use crate::traits::NdArrayDepth;
use crate::traits::ScalarType;

verus! {

/// The class an element type falls in, as far as the dispatch cares: one of
/// the two supported float widths, or anything else.
#[derive(Clone, Copy, Debug, PartialEq, Eq, Structural)]
pub enum ElemKind {
    /// A 32-bit floating-point element.
    Float32,
    /// A 64-bit floating-point element.
    Float64,
    /// Any element type the lane registers do not serve.
    Other,
}

/// The instruction-set extensions enabled in the current build. The flags
/// compose: enabling a wider extension does not imply a narrower one.
#[derive(Clone, Copy, Debug, PartialEq, Eq, Structural)]
pub struct ExtensionSet {
    /// The 128-bit extension.
    pub sse42: bool,
    /// The 256-bit extension.
    pub avx: bool,
    /// The 512-bit extension.
    pub avx512f: bool,
}

/// The register wrapper a vector-backed shape resolves to.
#[derive(Clone, Copy, Debug, PartialEq, Eq, Structural)]
pub enum VectorKind {
    /// Four 32-bit float lanes in a 128-bit register.
    F32x4,
    /// Eight 32-bit float lanes in a 256-bit register.
    F32x8,
    /// Sixteen 32-bit float lanes in a 512-bit register.
    F32x16,
    /// Two 64-bit float lanes in a 128-bit register.
    F64x2,
    /// Four 64-bit float lanes in a 256-bit register.
    F64x4,
    /// Eight 64-bit float lanes in a 512-bit register.
    F64x8,
}

/// The concrete storage representation a shape resolves to.
#[derive(Clone, Copy, Debug, PartialEq, Eq, Structural)]
pub enum StorageKind {
    /// Inline fixed-length storage.
    Static,
    /// Growable storage.
    Dynamic,
    /// A native register wrapper, padded when the length is partial.
    Vector(VectorKind),
    /// The sentinel for shapes no rule covers; never resolved to.
    Unreachable,
}

/// The dispatch table. Dynamic shapes take the growable storage irrespective
/// of length; a float element whose length falls in a register row of an
/// enabled extension takes that register's wrapper, partial lengths
/// included; every remaining shape takes the inline fixed storage.
pub open spec fn resolve_variant_spec(
    elem: ElemKind,
    len: usize,
    dynamic: bool,
    ext: ExtensionSet,
) -> StorageKind {
    if dynamic {
        StorageKind::Dynamic
    } else if elem == ElemKind::Float32 && ext.sse42 && 1 <= len <= 4 {
        StorageKind::Vector(VectorKind::F32x4)
    } else if elem == ElemKind::Float32 && ext.avx && 5 <= len <= 8 {
        StorageKind::Vector(VectorKind::F32x8)
    } else if elem == ElemKind::Float32 && ext.avx512f && 9 <= len <= 16 {
        StorageKind::Vector(VectorKind::F32x16)
    } else if elem == ElemKind::Float64 && ext.sse42 && len == 2 {
        StorageKind::Vector(VectorKind::F64x2)
    } else if elem == ElemKind::Float64 && ext.avx && 3 <= len <= 4 {
        StorageKind::Vector(VectorKind::F64x4)
    } else if elem == ElemKind::Float64 && ext.avx512f && 5 <= len <= 8 {
        StorageKind::Vector(VectorKind::F64x8)
    } else {
        StorageKind::Static
    }
}

/// Resolves a shape to the one storage representation backing it.
pub fn resolve_variant(elem: ElemKind, len: usize, dynamic: bool, ext: ExtensionSet) -> (r:
    StorageKind)
    ensures
        r == resolve_variant_spec(elem, len, dynamic, ext),
{
    if dynamic {
        return StorageKind::Dynamic;
    }
    match elem {
        ElemKind::Float32 => {
            if ext.sse42 && 1 <= len && len <= 4 {
                StorageKind::Vector(VectorKind::F32x4)
            } else if ext.avx && 5 <= len && len <= 8 {
                StorageKind::Vector(VectorKind::F32x8)
            } else if ext.avx512f && 9 <= len && len <= 16 {
                StorageKind::Vector(VectorKind::F32x16)
            } else {
                StorageKind::Static
            }
        },
        ElemKind::Float64 => {
            if ext.sse42 && len == 2 {
                StorageKind::Vector(VectorKind::F64x2)
            } else if ext.avx && 3 <= len && len <= 4 {
                StorageKind::Vector(VectorKind::F64x4)
            } else if ext.avx512f && 5 <= len && len <= 8 {
                StorageKind::Vector(VectorKind::F64x8)
            } else {
                StorageKind::Static
            }
        },
        ElemKind::Other => StorageKind::Static,
    }
}

/// Resolution is total and never lands on the sentinel: whatever the shape
/// and whatever extensions the build enables, a real storage representation
/// wins.
pub proof fn lemma_resolution_never_unreachable(
    elem: ElemKind,
    len: usize,
    dynamic: bool,
    ext: ExtensionSet,
)
    ensures
        resolve_variant_spec(elem, len, dynamic, ext) != StorageKind::Unreachable,
{
}

/// The dynamic flag wins over every other rule: a dynamic shape resolves to
/// the growable storage irrespective of element kind, length and extensions.
pub proof fn lemma_dynamic_wins(elem: ElemKind, len: usize, ext: ExtensionSet)
    ensures
        resolve_variant_spec(elem, len, true, ext) == StorageKind::Dynamic,
{
}

/// With no extension enabled, every fixed shape falls back to the inline
/// storage and the plain element-by-element addition path.
pub proof fn lemma_no_extension_falls_back(elem: ElemKind, len: usize)
    ensures
        resolve_variant_spec(
            elem,
            len,
            false,
            ExtensionSet { sse42: false, avx: false, avx512f: false },
        ) == StorageKind::Static,
{
}

/// The register rows of the table, each pinned exactly: a fixed shape
/// resolves to a register wrapper precisely when its element is the matching
/// float width, the matching extension is enabled, and its length lies in
/// the row's full-or-partial range.
pub proof fn lemma_vector_rows(elem: ElemKind, len: usize, ext: ExtensionSet)
    ensures
        (resolve_variant_spec(elem, len, false, ext) == StorageKind::Vector(VectorKind::F32x4))
            <==> (elem == ElemKind::Float32 && ext.sse42 && 1 <= len <= 4),
        (resolve_variant_spec(elem, len, false, ext) == StorageKind::Vector(VectorKind::F32x8))
            <==> (elem == ElemKind::Float32 && ext.avx && 5 <= len <= 8),
        (resolve_variant_spec(elem, len, false, ext) == StorageKind::Vector(VectorKind::F32x16))
            <==> (elem == ElemKind::Float32 && ext.avx512f && 9 <= len <= 16),
        (resolve_variant_spec(elem, len, false, ext) == StorageKind::Vector(VectorKind::F64x2))
            <==> (elem == ElemKind::Float64 && ext.sse42 && len == 2),
        (resolve_variant_spec(elem, len, false, ext) == StorageKind::Vector(VectorKind::F64x4))
            <==> (elem == ElemKind::Float64 && ext.avx && 3 <= len <= 4),
        (resolve_variant_spec(elem, len, false, ext) == StorageKind::Vector(VectorKind::F64x8))
            <==> (elem == ElemKind::Float64 && ext.avx512f && 5 <= len <= 8),
{
}

/// The storage an `ArrayBase` actually owns: the inline fixed representation
/// or the growable one. Which of the two a given shape holds is fixed by the
/// shape's dynamic flag and guarded by the facade's type invariant.
pub enum Backing<T, const N: usize> {
    /// An inline buffer of exactly `N` elements.
    Fixed(StaticStorage<T, N>),
    /// A growable buffer.
    Growable(DynamicStorage<T>),
}

impl<T, const N: usize> Backing<T, N> {
    /// The elements the owned storage currently holds, in index order.
    pub open spec fn contents(&self) -> Seq<T> {
        match *self {
            Backing::Fixed(s) => s@,
            Backing::Growable(s) => s@,
        }
    }

    /// Bounds-checked replacement of the element at a position; the
    /// representation itself is untouched.
    pub fn set(&mut self, i: usize, v: T)
        requires
            i < old(self).contents().len(),
        ensures
            final(self).contents() == old(self).contents().update(i as int, v),
            *final(self) is Fixed <==> *old(self) is Fixed,
        no_unwind
    {
        match self {
            Backing::Fixed(s) => s.set(i, v),
            Backing::Growable(s) => s.set(i, v),
        }
    }

}

/// What a facade core's elements are: the contents of the one storage it
/// owns.
pub(crate) proof fn lemma_base_view<T, const N: usize, const D: bool>(a: &ArrayBase<T, N, D>)
    ensures
        a@ == a.inner.contents(),
{
}

/// Shared core of the array facades: owns exactly one storage instance, the
/// one the dispatch selects for the shape `(T, N, D)`.
pub struct ArrayBase<T, const N: usize, const D: bool> {
    pub(crate) inner: Backing<T, N>,
}

impl<T, const N: usize, const D: bool> ArrayBase<T, N, D> {
    /// The shape's dynamic flag decides the representation, with no third
    /// possibility.
    #[verifier::type_invariant]
    pub(crate) open spec fn wf(&self) -> bool {
        if D {
            self.inner is Growable
        } else {
            self.inner is Fixed
        }
    }
}

impl<T, const N: usize, const D: bool> View for ArrayBase<T, N, D> {
    type V = Seq<T>;

    closed spec fn view(&self) -> Seq<T> {
        self.inner.contents()
    }
}

impl<T: NdArrayDepth, const N: usize, const D: bool> NdArrayDepth for ArrayBase<T, N, D> {
    open spec fn depth_spec() -> nat {
        T::depth_spec() + 1
    }

    fn array_depth() -> usize {
        let d = T::array_depth();
        d + 1
    }
}

impl<T: ScalarType, const N: usize, const D: bool> ScalarType for ArrayBase<T, N, D> {
    type Scalar = <T as ScalarType>::Scalar;
}

impl<T, const N: usize> ArrayStorage<T> for ArrayBase<T, N, true> {
    type StorageVariant = DynamicStorage<T>;
}

impl<T, const N: usize> ArrayStorage<T> for ArrayBase<T, N, false> {
    type StorageVariant = StaticStorage<T, N>;
}

impl<T, const N: usize, const D: bool> ArrayBase<T, N, D> {
    /// Current element count.
    pub fn len(&self) -> (r: usize)
        ensures
            r == self@.len(),
    {
        match &self.inner {
            Backing::Fixed(s) => s.len(),
            Backing::Growable(s) => s.len(),
        }
    }

    /// Bounds-checked read access by position.
    pub fn index(&self, i: usize) -> (r: &T)
        requires
            i < self@.len(),
        ensures
            *r == self@[i as int],
    {
        match &self.inner {
            Backing::Fixed(s) => s.index(i),
            Backing::Growable(s) => s.index(i),
        }
    }

    /// Bounds-checked replacement of the element at a position.
    pub fn set(&mut self, i: usize, v: T)
        requires
            i < old(self)@.len(),
        ensures
            final(self)@ == old(self)@.update(i as int, v),
    {
        proof {
            use_type_invariant(&*self);
        }
        self.inner.set(i, v);
    }

    /// A restartable walk over references to the elements in index order.
    pub fn iter<'a>(&'a self) -> (it: core::slice::Iter<'a, T>)
        ensures
            it.remaining() == self@.as_ref(),
    {
        match &self.inner {
            Backing::Fixed(s) => s.iter(),
            Backing::Growable(s) => s.iter(),
        }
    }
}

impl<T, const N: usize> ArrayBase<T, N, true> {
    /// Constructs the dynamic shape's storage: empty.
    pub fn new() -> (r: Self)
        ensures
            r@ == Seq::<T>::empty(),
    {
        ArrayBase { inner: Backing::Growable(DynamicStorage::new()) }
    }

    /// Appends an element, growing the array by one.
    pub fn push(&mut self, v: T)
        ensures
            final(self)@ == old(self)@.push(v),
    {
        proof {
            use_type_invariant(&*self);
        }
        let mut tmp = Self::new();
        core::mem::swap(self, &mut tmp);
        let mut s = match tmp.inner {
            Backing::Growable(s) => s,
            Backing::Fixed(_) => {
                vstd::pervasive::unreached()
            },
        };
        s.push(v);
        *self = ArrayBase { inner: Backing::Growable(s) };
    }

    /// Consumes the array, handing the owned elements out in index order.
    pub fn into_iter(self) -> (r: Vec<T>)
        ensures
            r@ == self@,
    {
        proof {
            use_type_invariant(&self);
        }
        match self.inner {
            Backing::Fixed(_) => {
                vstd::pervasive::unreached()
            },
            Backing::Growable(s) => s.into_iter(),
        }
    }
}

impl<T: Zero + Copy, const N: usize> ArrayBase<T, N, false> {
    /// Constructs the fixed shape's storage: `N` elements, all set to the
    /// additive identity.
    pub fn new() -> (r: Self)
        ensures
            r@.len() == N,
            forall|i: int| 0 <= i < N ==> r@[i] == T::zero_spec(),
    {
        ArrayBase { inner: Backing::Fixed(StaticStorage::new()) }
    }

    /// Consumes the array, handing the owned elements out in index order.
    pub fn into_iter(self) -> (r: Vec<T>)
        ensures
            r@ == self@,
    {
        proof {
            use_type_invariant(&self);
        }
        match self.inner {
            Backing::Fixed(s) => s.into_iter(),
            Backing::Growable(_) => {
                vstd::pervasive::unreached()
            },
        }
    }
}

} // verus!
