//! The 256-bit extension's side of the lane-buffer engine: a 32-byte-aligned
//! buffer, the register wrapper types it feeds, and the padded addition that
//! serves logical lengths up to the 256-bit lane counts.
use vstd::prelude::*;
use crate::num::Num;
use crate::num::Zero;
use crate::num::elemwise_ok;
use crate::num::elemwise_sum;
use crate::simd::lemma_padded_sum;
use crate::simd::lemma_zero_extend_ok;
use crate::simd::slice_to_array;
use crate::simd::slice_to_array_unchecked;
use crate::simd::zero_extend;

verus! {

/// Declares the 256-bit float-lane register type; relied on for its
/// documented 32-byte alignment and for being `Copy`.
#[verifier::external_type_specification]
#[verifier::external_body]
pub struct ExM256(core::arch::x86_64::__m256);

/// Declares the 256-bit double-lane register type.
#[verifier::external_type_specification]
#[verifier::external_body]
pub struct ExM256d(core::arch::x86_64::__m256d);

/// Declares the 256-bit integer-lane register type.
#[verifier::external_type_specification]
#[verifier::external_body]
pub struct ExM256i(core::arch::x86_64::__m256i);

/// Relies on the 256-bit register type's documented 32-byte alignment: an
/// empty array of it occupies no space but over-aligns the struct holding it.
#[verifier::external_body]
fn align32_marker() -> [core::arch::x86_64::__m256; 0] {
    []
}

/// A fixed buffer of `N` values forced to 32-byte alignment, the alignment a
/// 256-bit register load asks for.
pub struct Align32<T: Copy, const N: usize> {
    data: [T; N],
    _align: [core::arch::x86_64::__m256; 0],
}

/// An aligned buffer always holds exactly `N` lanes.
pub broadcast proof fn lemma_align32_view_len<T: Copy, const N: usize>(b: &Align32<T, N>)
    ensures
        (#[trigger] b@.len()) == N,
{
}

impl<T: Copy, const N: usize> View for Align32<T, N> {
    type V = Seq<T>;

    closed spec fn view(&self) -> Seq<T> {
        self.data@
    }
}

impl<T: Copy, const N: usize> Align32<T, N> {
    /// Wraps a full array in the aligned buffer.
    pub fn from_array(array: [T; N]) -> (r: Self)
        ensures
            r@ == array@,
    {
        Align32 { data: array, _align: align32_marker() }
    }

    /// The buffer's contents, read back as a full array.
    pub fn as_array(&self) -> (r: &[T; N])
        ensures
            r@ == self@,
    {
        &self.data
    }
}

impl<T: Zero + Copy, const N: usize> Align32<T, N> {
    /// Fills the buffer from a slice holding at least `N` elements.
    pub fn from_slice(slice: &[T]) -> (r: Self)
        requires
            slice@.len() >= N,
        ensures
            r@ == slice@.take(N as int),
    {
        Align32 { data: slice_to_array(slice), _align: align32_marker() }
    }

    /// Fills the buffer from a slice of any length, truncating a longer one
    /// and zero-filling the lanes a shorter one leaves open.
    pub fn from_slice_unchecked(slice: &[T]) -> (r: Self)
        ensures
            r@ == zero_extend(slice@, N as nat),
    {
        Align32 { data: slice_to_array_unchecked(slice), _align: align32_marker() }
    }

    /// Truncates the buffer into an array of the first `M` lanes.
    pub fn into_array<const M: usize>(self) -> (r: [T; M])
        requires
            M < N,
        ensures
            r@ == self@.take(M as int),
    {
        slice_to_array(self.data.as_slice())
    }
}

impl<T: Num, const N: usize> Align32<T, N> {
    /// Lane-wise addition over the full buffer width.
    pub fn add(self, rhs: Self) -> (r: Self)
        requires
            elemwise_ok(self@, rhs@),
        ensures
            r@ == elemwise_sum(self@, rhs@),
    {
        let mut data: [T; N] = vstd::array::array_fill_for_copy_types(T::zero());
        let mut i: usize = 0;
        while i < N
            invariant
                i <= N,
                self@.len() == N,
                rhs@.len() == N,
                data@.len() == N,
                elemwise_ok(self@, rhs@),
                forall|j: int| 0 <= j < i ==> data@[j] == self@[j].add_spec(rhs@[j]),
            decreases N - i,
        {
            assert(self@[i as int].add_ok(rhs@[i as int]));
            let s = self.data[i].add(rhs.data[i]);
            data[i] = s;
            i += 1;
        }
        let r = Align32 { data, _align: align32_marker() };
        proof {
            assert(r@ =~= elemwise_sum(self@, rhs@));
        }
        r
    }
}

/// Element-wise addition of two logical operands of length `N` run through
/// full-width 32-byte-aligned buffers of `W` lanes: the operands are copied
/// in from lane zero, the open lanes are zero-filled, one full-width addition
/// runs, and the first `N` lanes of the result are copied back out. The
/// result is exactly the plain element-by-element sum.
pub fn padded_add<T: Num, const N: usize, const W: usize>(a: &[T; N], b: &[T; N]) -> (r: [T; N])
    requires
        N <= W,
        elemwise_ok(a@, b@),
    ensures
        r@ == elemwise_sum(a@, b@),
{
    let pa: Align32<T, W> = Align32::from_slice_unchecked(a.as_slice());
    let pb: Align32<T, W> = Align32::from_slice_unchecked(b.as_slice());
    proof {
        lemma_zero_extend_ok(a@, b@, W as nat);
    }
    let ps = pa.add(pb);
    let r: [T; N] = slice_to_array(ps.as_array().as_slice());
    proof {
        lemma_padded_sum(a@, b@, W as nat);
    }
    r
}

/// One 256-bit register of eight 32-bit float lanes.
#[derive(Clone, Copy)]
pub struct F32x8(core::arch::x86_64::__m256);

/// One 256-bit register of four 64-bit float lanes.
#[derive(Clone, Copy)]
pub struct F64x4(core::arch::x86_64::__m256d);

/// One 256-bit register of thirty-two 8-bit integer lanes.
#[derive(Clone, Copy)]
pub struct I8x32(core::arch::x86_64::__m256i);

/// One 256-bit register of sixteen 16-bit integer lanes.
#[derive(Clone, Copy)]
pub struct I16x16(core::arch::x86_64::__m256i);

/// One 256-bit register of eight 32-bit integer lanes.
#[derive(Clone, Copy)]
pub struct I32x8(core::arch::x86_64::__m256i);

/// One 256-bit register of four 64-bit integer lanes.
#[derive(Clone, Copy)]
pub struct I64x4(core::arch::x86_64::__m256i);

} // verus!
