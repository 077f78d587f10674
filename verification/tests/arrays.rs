//! Fixed-length arrays: zero-initialized construction, element-wise addition
//! through the plain loop and through the padded lane buffers, and the
//! storage the dispatch binds to each shape.
use ndsimd::Array;
use ndsimd::Zero;
use ndsimd::ArrayBase;
use ndsimd::ArrayStorage;
use ndsimd::DynamicStorage;
use ndsimd::ElemKind;
use ndsimd::ExtensionSet;
use ndsimd::NdArrayAdd;
use ndsimd::NdArrayBase;
use ndsimd::StaticStorage;
use ndsimd::StorageKind;
use ndsimd::VectorKind;
use ndsimd::avx2;
use ndsimd::avx512;
use ndsimd::resolve_variant;
use ndsimd::sse42;

#[test]
fn array_add_f32x4() {
    // The four-lane 128-bit row serves logical lengths 1 through 4 when the
    // 128-bit extension is enabled.
    let ext = ExtensionSet { sse42: true, avx: false, avx512f: false };
    assert_eq!(
        resolve_variant(ElemKind::Float32, 4, false, ext),
        StorageKind::Vector(VectorKind::F32x4)
    );
    assert_eq!(
        resolve_variant(ElemKind::Float32, 3, false, ext),
        StorageKind::Vector(VectorKind::F32x4)
    );

    {
        let mut a: Array<u32, 4> = Array::new();
        let mut b: Array<u32, 4> = Array::new();
        for i in 0..4 {
            a.set(i, i as u32);
            b.set(i, (4 - i) as u32);
        }

        // With the extension: through the full-width four-lane buffer.
        let c = sse42::padded_add::<u32, 4, 4>(a.as_array(), b.as_array());
        // Without it: the plain element-by-element loop.
        let d = a.add(b);
        for i in 0..4 {
            assert_eq!(c[i], 4);
            assert_eq!(*d.index(i), 4);
        }
    }

    {
        let mut a: Array<u32, 3> = Array::new();
        let mut b: Array<u32, 3> = Array::new();
        for i in 0..3 {
            a.set(i, i as u32);
            b.set(i, (4 - i) as u32);
        }

        // Partial width: three logical lanes inside the four-lane register.
        let c = sse42::padded_add::<u32, 3, 4>(a.as_array(), b.as_array());
        let d = a.add(b);
        for i in 0..3 {
            assert_eq!(c[i], 4);
            assert_eq!(*d.index(i), 4);
        }
    }
}

#[test]
fn array_add_f32x8() {
    let ext = ExtensionSet { sse42: false, avx: true, avx512f: false };
    assert_eq!(
        resolve_variant(ElemKind::Float32, 8, false, ext),
        StorageKind::Vector(VectorKind::F32x8)
    );

    let mut a: Array<u32, 8> = Array::new();
    let mut b: Array<u32, 8> = Array::new();
    for i in 0..8 {
        a.set(i, i as u32);
        b.set(i, (8 - i) as u32);
    }

    let c = avx2::padded_add::<u32, 8, 8>(a.as_array(), b.as_array());
    let d = a.add(b);
    for i in 0..8 {
        assert_eq!(c[i], 8);
        assert_eq!(*d.index(i), 8);
    }
}

#[test]
fn array_add_f32x7() {
    let ext = ExtensionSet { sse42: false, avx: true, avx512f: false };
    assert_eq!(
        resolve_variant(ElemKind::Float32, 7, false, ext),
        StorageKind::Vector(VectorKind::F32x8)
    );

    let mut a: Array<u32, 7> = Array::new();
    let mut b: Array<u32, 7> = Array::new();
    for i in 0..7 {
        a.set(i, i as u32);
        b.set(i, (8 - i) as u32);
    }

    // Partial width: seven logical lanes inside the eight-lane register.
    let c = avx2::padded_add::<u32, 7, 8>(a.as_array(), b.as_array());
    let d = a.add(b);
    for i in 0..7 {
        assert_eq!(c[i], 8);
        assert_eq!(*d.index(i), 8);
    }
}

#[test]
fn array_add_f32x16() {
    let ext = ExtensionSet { sse42: false, avx: false, avx512f: true };
    assert_eq!(
        resolve_variant(ElemKind::Float32, 16, false, ext),
        StorageKind::Vector(VectorKind::F32x16)
    );

    let mut a: Array<u32, 16> = Array::new();
    let mut b: Array<u32, 16> = Array::new();
    for i in 0..16 {
        a.set(i, i as u32);
        b.set(i, (16 - i) as u32);
    }

    let c = avx512::padded_add::<u32, 16, 16>(a.as_array(), b.as_array());
    let d = a.add(b);
    for i in 0..16 {
        assert_eq!(c[i], 16);
        assert_eq!(*d.index(i), 16);
    }
}

#[test]
fn array_base_new() {
    let a = ArrayBase::<u32, 4, false>::new();
    let b = ArrayBase::<f32, 10, true>::new();

    // The type-level dispatch binds the fixed shape to the inline storage
    // and the dynamic shape to the growable one: each ascription compiles
    // only because the selected variant is that exact storage type.
    let fixed: <ArrayBase<u32, 4, false> as ArrayStorage<u32>>::StorageVariant =
        <StaticStorage<u32, 4> as NdArrayBase>::new();
    let growable: <ArrayBase<f32, 10, true> as ArrayStorage<f32>>::StorageVariant =
        DynamicStorage::<f32>::new();

    assert_eq!(fixed.len(), 4);
    assert_eq!(growable.len(), 0);
    assert_eq!(a.len(), 4);
    assert_eq!(b.len(), 0);
}

#[test]
fn static_storage_add() {
    let mut a: StaticStorage<u32, 10> = NdArrayBase::new();
    let mut b: StaticStorage<u32, 10> = NdArrayBase::new();
    for i in 0..10 {
        a.set(i, (i * i + i % 3) as u32);
        b.set(i, (i * 2 + i % 5) as u32);
    }

    let c = a.add(b);
    for i in 0..10 {
        assert_eq!(*c.index(i), (i * i + i % 3 + i * 2 + i % 5) as u32);
    }
}

#[test]
fn array_new_is_all_zero() {
    let a: Array<u8, 5> = Array::new();
    for i in 0..5 {
        assert_eq!(*a.index(i), 0);
    }

    let b: Array<i64, 3> = Array::new();
    assert_eq!(b.into_iter(), vec![0i64, 0, 0]);

    let s: StaticStorage<i16, 4> = NdArrayBase::new();
    assert_eq!(s.into_iter(), vec![0i16, 0, 0, 0]);
}

#[test]
fn nested_array_new_is_all_zero() {
    let a: Array<Array<u32, 2>, 3> = Array::new();
    assert_eq!(a.len(), 3);
    for i in 0..3 {
        assert!(a.index(i).is_zero());
        for j in 0..2 {
            assert_eq!(*a.index(i).index(j), 0);
        }
    }
    assert!(a.is_zero());

    let mut b: Array<u32, 2> = Array::new();
    assert!(b.is_zero());
    b.set(1, 7);
    assert!(!b.is_zero());
}

#[test]
fn array_iteration() {
    let mut a: Array<u32, 4> = Array::new();
    for i in 0..4 {
        a.set(i, 10 + i as u32);
    }

    let collected: Vec<u32> = a.iter().copied().collect();
    assert_eq!(collected, vec![10, 11, 12, 13]);
    assert_eq!(a.into_iter(), vec![10, 11, 12, 13]);
}

#[test]
fn static_storage_clone_keeps_elements() {
    let mut a: StaticStorage<u32, 3> = NdArrayBase::new();
    a.set(0, 5);
    a.set(2, 9);
    let b = a.clone();
    for i in 0..3 {
        assert_eq!(a.index(i), b.index(i));
    }
}

#[test]
fn zero_length_array() {
    let a: Array<u32, 0> = Array::new();
    let b: Array<u32, 0> = Array::new();
    assert_eq!(a.len(), 0);
    assert!(a.is_zero());
    let c = a.add(b);
    assert_eq!(c.len(), 0);
    assert_eq!(c.into_iter(), Vec::<u32>::new());
}

#[test]
fn padded_add_at_full_saturation_values() {
    // Elements at the top of their range still add exactly when the sums
    // stay representable.
    let mut a: Array<u8, 3> = Array::new();
    let mut b: Array<u8, 3> = Array::new();
    a.set(0, 255);
    b.set(0, 0);
    a.set(1, 200);
    b.set(1, 55);
    a.set(2, 0);
    b.set(2, 255);
    let c = sse42::padded_add::<u8, 3, 4>(a.as_array(), b.as_array());
    assert_eq!(*c.as_slice(), [255u8, 255, 255]);
}
