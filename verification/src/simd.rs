//! Lane-buffer support: slice-to-buffer conversion with zero-padding, and the
//! laws showing that running an addition through a padded full-width buffer
//! leaves the logical elements exactly as the plain element-by-element loop
//! would.
use vstd::prelude::*;
use crate::num::Num;
use crate::num::Zero;
use crate::num::elemwise_ok;
use crate::num::elemwise_sum;

pub mod avx2;
pub mod avx512;
pub mod sse42;

verus! {

/// `s` brought to length `n`: truncated past `n`, extended with the additive
/// identity when it is shorter.
pub open spec fn zero_extend<T: Zero>(s: Seq<T>, n: nat) -> Seq<T> {
    Seq::new(
        n,
        |i: int|
            if i < s.len() {
                s[i]
            } else {
                T::zero_spec()
            },
    )
}

/// Copies the first `N` elements of a slice into a fixed array.
///
/// The slice must hold at least `N` elements.
pub fn slice_to_array<T: Zero + Copy, const N: usize>(slice: &[T]) -> (r: [T; N])
    requires
        slice@.len() >= N,
    ensures
        r@ == slice@.take(N as int),
{
    let mut array: [T; N] = vstd::array::array_fill_for_copy_types(T::zero());
    let mut i: usize = 0;
    while i < N
        invariant
            i <= N,
            slice@.len() >= N,
            array@.len() == N,
            forall|j: int| 0 <= j < i ==> array@[j] == slice@[j],
        decreases N - i,
    {
        array[i] = slice[i];
        i += 1;
    }
    proof {
        assert(array@ =~= slice@.take(N as int));
    }
    array
}

/// Copies a slice into a fixed array of length `N`, truncating a longer slice
/// and zero-filling the tail left by a shorter one.
pub fn slice_to_array_unchecked<T: Zero + Copy, const N: usize>(slice: &[T]) -> (r: [T; N])
    ensures
        r@ == zero_extend(slice@, N as nat),
{
    let mut array: [T; N] = vstd::array::array_fill_for_copy_types(T::zero());
    let n = if slice.len() < N {
        slice.len()
    } else {
        N
    };
    let mut i: usize = 0;
    while i < n
        invariant
            i <= n,
            n <= slice@.len(),
            n <= N,
            array@.len() == N,
            forall|j: int| 0 <= j < i ==> array@[j] == slice@[j],
            forall|j: int| i <= j < N ==> array@[j] == T::zero_spec(),
        decreases n - i,
    {
        array[i] = slice[i];
        i += 1;
    }
    proof {
        assert(array@ =~= zero_extend(slice@, N as nat));
    }
    array
}

/// Round-trip law: bringing a sequence to a capacity it fits in and reading
/// back its own length reproduces the sequence exactly.
pub proof fn lemma_zero_extend_roundtrip<T: Zero>(s: Seq<T>, n: nat)
    requires
        s.len() <= n,
    ensures
        zero_extend(s, n).take(s.len() as int) == s,
{
    assert(zero_extend(s, n).take(s.len() as int) =~= s);
}

/// Padding lanes stay addable: when every aligned pair of two equally long
/// sequences has a representable sum, so does every pair of their
/// zero-extensions, since the additive identity can always be added to
/// itself.
pub proof fn lemma_zero_extend_ok<T: Num>(a: Seq<T>, b: Seq<T>, w: nat)
    requires
        a.len() == b.len(),
        elemwise_ok(a, b),
    ensures
        elemwise_ok(zero_extend(a, w), zero_extend(b, w)),
{
    T::zero_add_ok();
    assert forall|i: int| 0 <= i < w implies #[trigger] zero_extend(a, w)[i].add_ok(
        zero_extend(b, w)[i],
    ) by {
        if i < a.len() {
            assert(a[i].add_ok(b[i]));
        }
    }
}

/// The padding law: adding two sequences inside zero-padded full-width
/// buffers and truncating back to the logical length gives exactly the
/// element-wise sum of the two operands themselves. The padding lanes only ever
/// hold additive identities and are dropped by the truncation.
pub proof fn lemma_padded_sum<T: Num>(a: Seq<T>, b: Seq<T>, w: nat)
    requires
        a.len() == b.len(),
        a.len() <= w,
    ensures
        elemwise_sum(zero_extend(a, w), zero_extend(b, w)).take(a.len() as int) == elemwise_sum(
            a,
            b,
        ),
{
    assert(elemwise_sum(zero_extend(a, w), zero_extend(b, w)).take(a.len() as int)
        =~= elemwise_sum(a, b));
}

} // verus!
