//! Fixed- and variable-length numeric arrays whose element-wise addition is
//! backed by a verified storage-variant dispatch table.
//!
//! An [`Array`] owns an inline buffer of `N` elements; a [`DynArray`] owns a
//! growable buffer. Which concrete storage representation backs a given
//! (element type, length, fixed-or-dynamic) shape — and when an addition may
//! run through a full-width aligned lane buffer instead of the plain
//! element-by-element loop — is decided by the resolution table in `base`,
//! with the padding laws of the lane engine proved in `simd`.

mod array;
mod array_dyn;
mod base;
mod num;
mod simd;
mod storage;
mod storage_dyn;
mod traits;

pub use array::Array;
pub use array::lemma_array_view_len;
pub use array::lemma_array_zero_spec;
pub use array_dyn::DynArray;
pub use base::ArrayBase;
pub use base::Backing;
pub use base::ElemKind;
pub use base::ExtensionSet;
pub use base::StorageKind;
pub use base::VectorKind;
pub use base::lemma_dynamic_wins;
pub use base::lemma_no_extension_falls_back;
pub use base::lemma_resolution_never_unreachable;
pub use base::lemma_vector_rows;
pub use base::resolve_variant;
pub use base::resolve_variant_spec;
pub use num::Fractional;
pub use num::Num;
pub use num::One;
pub use num::Zero;
pub use num::elemwise_ok;
pub use num::elemwise_sum;
pub use num::one;
pub use num::zero;
pub use simd::avx2;
pub use simd::avx512;
pub use simd::lemma_padded_sum;
pub use simd::lemma_zero_extend_ok;
pub use simd::lemma_zero_extend_roundtrip;
pub use simd::slice_to_array;
pub use simd::slice_to_array_unchecked;
pub use simd::sse42;
pub use simd::zero_extend;
pub use storage::StaticStorage;
pub use storage::UnreachableStorage;
pub use storage::lemma_static_view_len;
pub use storage_dyn::DynamicStorage;
pub use traits::ArrayStorage;
pub use traits::Decay;
pub use traits::DesugaredArrayType;
pub use traits::NdArray;
pub use traits::NdArrayAdd;
pub use traits::NdArrayBase;
pub use traits::NdArrayBaseOps;
pub use traits::NdArrayDepth;
pub use traits::ScalarType;
