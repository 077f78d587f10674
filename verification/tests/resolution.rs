//! The storage-variant dispatch table: one winner per shape, with the
//! documented precedence.
use ndsimd::ElemKind;
use ndsimd::ExtensionSet;
use ndsimd::StorageKind;
use ndsimd::VectorKind;
use ndsimd::resolve_variant;

fn all_ext() -> ExtensionSet {
    ExtensionSet { sse42: true, avx: true, avx512f: true }
}

fn no_ext() -> ExtensionSet {
    ExtensionSet { sse42: false, avx: false, avx512f: false }
}

#[test]
fn dynamic_shapes_always_take_growable_storage() {
    assert_eq!(resolve_variant(ElemKind::Float32, 4, true, all_ext()), StorageKind::Dynamic);
    assert_eq!(resolve_variant(ElemKind::Float64, 2, true, no_ext()), StorageKind::Dynamic);
    assert_eq!(resolve_variant(ElemKind::Other, 0, true, all_ext()), StorageKind::Dynamic);
}

#[test]
fn float32_rows_full_and_partial() {
    let e = all_ext();
    for len in 1..=4usize {
        assert_eq!(
            resolve_variant(ElemKind::Float32, len, false, e),
            StorageKind::Vector(VectorKind::F32x4)
        );
    }
    for len in 5..=8usize {
        assert_eq!(
            resolve_variant(ElemKind::Float32, len, false, e),
            StorageKind::Vector(VectorKind::F32x8)
        );
    }
    for len in 9..=16usize {
        assert_eq!(
            resolve_variant(ElemKind::Float32, len, false, e),
            StorageKind::Vector(VectorKind::F32x16)
        );
    }
    assert_eq!(resolve_variant(ElemKind::Float32, 0, false, e), StorageKind::Static);
    assert_eq!(resolve_variant(ElemKind::Float32, 17, false, e), StorageKind::Static);
}

#[test]
fn float64_rows_full_and_partial() {
    let e = all_ext();
    assert_eq!(resolve_variant(ElemKind::Float64, 1, false, e), StorageKind::Static);
    assert_eq!(
        resolve_variant(ElemKind::Float64, 2, false, e),
        StorageKind::Vector(VectorKind::F64x2)
    );
    for len in 3..=4usize {
        assert_eq!(
            resolve_variant(ElemKind::Float64, len, false, e),
            StorageKind::Vector(VectorKind::F64x4)
        );
    }
    for len in 5..=8usize {
        assert_eq!(
            resolve_variant(ElemKind::Float64, len, false, e),
            StorageKind::Vector(VectorKind::F64x8)
        );
    }
    assert_eq!(resolve_variant(ElemKind::Float64, 9, false, e), StorageKind::Static);
}

#[test]
fn disabled_extensions_force_the_fallback() {
    // Each row needs its own extension; a wider one does not stand in for a
    // narrower one.
    let only_avx = ExtensionSet { sse42: false, avx: true, avx512f: false };
    assert_eq!(resolve_variant(ElemKind::Float32, 4, false, only_avx), StorageKind::Static);
    assert_eq!(
        resolve_variant(ElemKind::Float32, 8, false, only_avx),
        StorageKind::Vector(VectorKind::F32x8)
    );
    assert_eq!(resolve_variant(ElemKind::Float64, 2, false, only_avx), StorageKind::Static);

    let only_sse = ExtensionSet { sse42: true, avx: false, avx512f: false };
    assert_eq!(resolve_variant(ElemKind::Float32, 8, false, only_sse), StorageKind::Static);

    for len in 0..=20usize {
        assert_eq!(resolve_variant(ElemKind::Float32, len, false, no_ext()), StorageKind::Static);
        assert_eq!(resolve_variant(ElemKind::Float64, len, false, no_ext()), StorageKind::Static);
    }
}

#[test]
fn other_elements_always_take_static_storage() {
    for len in 0..=20usize {
        assert_eq!(resolve_variant(ElemKind::Other, len, false, all_ext()), StorageKind::Static);
    }
}

#[test]
fn resolution_never_picks_the_sentinel() {
    let kinds = [ElemKind::Float32, ElemKind::Float64, ElemKind::Other];
    let exts = [
        no_ext(),
        all_ext(),
        ExtensionSet { sse42: true, avx: false, avx512f: true },
        ExtensionSet { sse42: false, avx: true, avx512f: false },
    ];
    for elem in kinds {
        for ext in exts {
            for len in 0..=18usize {
                for dynamic in [false, true] {
                    let got = resolve_variant(elem, len, dynamic, ext);
                    assert_ne!(got, StorageKind::Unreachable);
                }
            }
        }
    }
}
