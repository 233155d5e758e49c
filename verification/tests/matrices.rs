//! Matrix resolution checks: every primaries/whitepoint pair resolves to an
//! invertible matrix, whitepoint self-adaptation is the identity exactly, and
//! white maps to the whitepoint.

use colorcore::chroma::{adapt, rgb_to_xyz, whitepoint_xyz};
use colorcore::fixed::FX_ONE;
use colorcore::matrix::{mat_identity, mat_inverse, mat_mul, mat_vec, Mat3, Sample};
use colorcore::{Primaries, Whitepoint};

const ALL_PRIMARIES: [Primaries; 7] = [
    Primaries::Xyz,
    Primaries::Bt601_525,
    Primaries::Bt601_625,
    Primaries::Bt709,
    Primaries::Smpte240,
    Primaries::Bt2020,
    Primaries::Bt2100,
];

const ALL_WHITEPOINTS: [Whitepoint; 11] = [
    Whitepoint::A,
    Whitepoint::B,
    Whitepoint::C,
    Whitepoint::D50,
    Whitepoint::D55,
    Whitepoint::D65,
    Whitepoint::D75,
    Whitepoint::E,
    Whitepoint::F2,
    Whitepoint::F7,
    Whitepoint::F11,
];

fn fl(v: i64) -> f64 {
    v as f64 / FX_ONE as f64
}

fn assert_close(m: &Mat3, n: &Mat3, tol: f64) {
    let pairs = [
        (m.m00, n.m00),
        (m.m01, n.m01),
        (m.m02, n.m02),
        (m.m10, n.m10),
        (m.m11, n.m11),
        (m.m12, n.m12),
        (m.m20, n.m20),
        (m.m21, n.m21),
        (m.m22, n.m22),
    ];
    for (a, b) in pairs {
        assert!((fl(a) - fl(b)).abs() < tol, "{} vs {}", fl(a), fl(b));
    }
}

#[test]
fn every_primaries_whitepoint_pair_is_invertible() {
    for p in ALL_PRIMARIES {
        for w in ALL_WHITEPOINTS {
            let m = rgb_to_xyz(p, w).expect("matrix must resolve");
            let mi = mat_inverse(&m).expect("matrix must be invertible");
            let prod = mat_mul(&m, &mi);
            assert_close(&prod, &mat_identity(), 1e-6);
            let prod2 = mat_mul(&mi, &m);
            assert_close(&prod2, &mat_identity(), 1e-6);
        }
    }
}

#[test]
fn white_maps_to_the_whitepoint() {
    for p in ALL_PRIMARIES {
        for w in ALL_WHITEPOINTS {
            let m = rgb_to_xyz(p, w).expect("matrix must resolve");
            let white = Sample { c0: FX_ONE, c1: FX_ONE, c2: FX_ONE };
            let xyz = mat_vec(&m, &white);
            let wp = whitepoint_xyz(w);
            assert!((fl(xyz.c0) - fl(wp.c0)).abs() < 1e-6);
            assert!((fl(xyz.c1) - fl(wp.c1)).abs() < 1e-6);
            assert!((fl(xyz.c2) - fl(wp.c2)).abs() < 1e-6);
        }
    }
}

#[test]
fn whitepoint_self_adaptation_is_identity_exactly() {
    for w in ALL_WHITEPOINTS {
        let a = adapt(w, w).expect("self adaptation always resolves");
        assert_eq!(a, mat_identity());
    }
}

#[test]
fn adaptation_carries_white_to_white() {
    for src in ALL_WHITEPOINTS {
        for dst in ALL_WHITEPOINTS {
            let a = adapt(src, dst).expect("adaptation must resolve");
            let moved = mat_vec(&a, &whitepoint_xyz(src));
            let target = whitepoint_xyz(dst);
            assert!((fl(moved.c0) - fl(target.c0)).abs() < 1e-5);
            assert!((fl(moved.c1) - fl(target.c1)).abs() < 1e-5);
            assert!((fl(moved.c2) - fl(target.c2)).abs() < 1e-5);
        }
    }
}
