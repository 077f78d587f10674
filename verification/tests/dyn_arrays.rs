//! Variable-length arrays: empty construction, caller-driven growth, the
//! truncating length-mismatch policy of addition, and the compile-time
//! scalar and depth queries.
use ndsimd::Array;
use ndsimd::DynArray;
use ndsimd::DynamicStorage;
use ndsimd::NdArray;
use ndsimd::NdArrayAdd;
use ndsimd::NdArrayBase;
use ndsimd::NdArrayDepth;
use ndsimd::ScalarType;

#[test]
fn dyn_array_new() {
    let a: DynArray<u32> = DynArray::new();
    for e in a.iter() {
        assert_eq!(e, &0);
    }
    assert_eq!(a.len(), 0);
}

#[test]
fn dyn_array_for_iter() {
    let mut a = DynArray::<f32>::new();
    for i in 0..a.len() {
        a.set(i, 1.0);
    }

    for e in a.iter() {
        assert_eq!(e, &1.0);
    }
}

#[test]
fn dyn_array_scalar_type() {
    // A flat and a nested shape over the same element resolve to the same
    // scalar type: both ascriptions compile against the plain element type,
    // and the values agree.
    let flat: <DynArray<u32> as NdArray>::Scalar = 7u32;
    let nested: <DynArray<Array<u32, 4>> as NdArray>::Scalar = 7u32;
    assert_eq!(flat, nested);

    // A different innermost element resolves to a different scalar type.
    let other: <DynArray<Array<i64, 4>> as NdArray>::Scalar = -7i64;
    assert_eq!(other, -7i64);
}

#[test]
fn dynamic_storage_add() {
    let a: DynamicStorage<f32> = DynamicStorage::new();
    let b: DynamicStorage<f32> = DynamicStorage::new();
    assert_eq!(a.len(), 0);
    assert_eq!(b.len(), 0);
}

#[test]
fn dyn_array_push_and_read() {
    let mut a: DynArray<u32> = DynArray::new();
    a.push(4);
    a.push(9);
    a.push(16);
    assert_eq!(a.len(), 3);
    assert_eq!(*a.index(0), 4);
    assert_eq!(*a.index(1), 9);
    assert_eq!(*a.index(2), 16);
    a.set(1, 10);
    assert_eq!(*a.index(1), 10);
    assert_eq!(a.into_iter(), vec![4, 10, 16]);
}

#[test]
fn dyn_array_add_truncates_to_shorter() {
    // The documented length-mismatch policy: the sum of a length-3 and a
    // length-5 operand has length 3, and the longer operand's tail is
    // discarded.
    let mut a: DynArray<u32> = DynArray::new();
    for v in [1u32, 2, 3] {
        a.push(v);
    }
    let mut b: DynArray<u32> = DynArray::new();
    for v in [10u32, 20, 30, 40, 50] {
        b.push(v);
    }

    let c = a.add(b);
    assert_eq!(c.len(), 3);
    assert_eq!(c.into_iter(), vec![11, 22, 33]);

    // The same policy holds with the operands swapped.
    let mut a2: DynArray<u32> = DynArray::new();
    for v in [1u32, 2, 3] {
        a2.push(v);
    }
    let mut b2: DynArray<u32> = DynArray::new();
    for v in [10u32, 20, 30, 40, 50] {
        b2.push(v);
    }
    let c2 = b2.add(a2);
    assert_eq!(c2.len(), 3);
    assert_eq!(c2.into_iter(), vec![11, 22, 33]);
}

#[test]
fn dynamic_storage_grows_and_adds() {
    let mut a: DynamicStorage<i64> = DynamicStorage::new();
    let mut b: DynamicStorage<i64> = DynamicStorage::new();
    a.push(-5);
    a.push(7);
    b.push(5);
    b.push(-7);
    let c = a.add(b);
    assert_eq!(c.len(), 2);
    assert_eq!(*c.index(0), 0);
    assert_eq!(*c.index(1), 0);
}

#[test]
fn dyn_array_depth() {
    let a: DynArray<u32> = DynArray::new();
    assert_eq!(a.depth(), 1);
    let b: DynArray<Array<u32, 4>> = DynArray::new();
    assert_eq!(b.depth(), 2);
}

#[test]
fn nesting_depth_of_types() {
    assert_eq!(<u32 as NdArrayDepth>::array_depth(), 0);
    assert_eq!(<Array<u32, 4> as NdArrayDepth>::array_depth(), 1);
    assert_eq!(<Array<Array<u32, 4>, 2> as NdArrayDepth>::array_depth(), 2);
    assert_eq!(<Array<Array<Array<u32, 4>, 2>, 7> as NdArrayDepth>::array_depth(), 3);
}

#[test]
fn scalar_type_ignores_shape_and_references() {
    // The innermost scalar is the same whatever the nesting depth or shape:
    // each ascription compiles only because the resolved scalar is the
    // plain element type.
    let deep: <Array<Array<u32, 2>, 2> as ScalarType>::Scalar = 3u32;
    let shallow: <Array<u32, 9> as ScalarType>::Scalar = 3u32;
    assert_eq!(deep, shallow);

    // References are transparent: a reference to a nested array resolves to
    // the same scalar as the array itself.
    let through_ref: <&Array<u32, 4> as ScalarType>::Scalar = 3u32;
    let through_mut: <&mut Array<u32, 4> as ScalarType>::Scalar = 3u32;
    assert_eq!(through_ref, through_mut);

    // A different innermost element gives a different scalar type.
    let signed: <Array<i8, 4> as ScalarType>::Scalar = -3i8;
    assert_eq!(signed, -3i8);
}

#[test]
fn dyn_array_add_with_empty_operand() {
    // The truncating policy at its edge: adding an empty operand gives an
    // empty result, whichever side it stands on.
    let a: DynArray<u32> = DynArray::new();
    let mut b: DynArray<u32> = DynArray::new();
    b.push(1);
    b.push(2);
    let c = a.add(b);
    assert_eq!(c.len(), 0);
    assert_eq!(c.into_iter(), Vec::<u32>::new());

    let mut b2: DynArray<u32> = DynArray::new();
    b2.push(1);
    let a2: DynArray<u32> = DynArray::new();
    let c2 = b2.add(a2);
    assert_eq!(c2.len(), 0);
}
