//! The numeric normalization policy on concrete values.

use iondrive::num::{normalize_real, HostNum, Real};

fn norm(v: f64) -> HostNum {
    normalize_real(Real { bits: v.to_bits() })
}

#[test]
fn whole_reals_become_integers() {
    assert_eq!(norm(2.0), HostNum::Int(2));
    assert_eq!(norm(10.0), HostNum::Int(10));
    assert_eq!(norm(-20.0), HostNum::Int(-20));
    assert_eq!(norm(0.0), HostNum::Int(0));
    assert_eq!(norm(-0.0), HostNum::Int(0));
    assert_eq!(norm(1.0), HostNum::Int(1));
    assert_eq!(norm(-1.0), HostNum::Int(-1));
    assert_eq!(norm(123456789.0), HostNum::Int(123456789));
}

#[test]
fn fractional_reals_stay_reals() {
    assert_eq!(norm(2.5), HostNum::Float(Real { bits: 2.5f64.to_bits() }));
    assert_eq!(norm(-0.75), HostNum::Float(Real { bits: (-0.75f64).to_bits() }));
    assert_eq!(norm(0.5), HostNum::Float(Real { bits: 0.5f64.to_bits() }));
    assert_eq!(norm(-12.5), HostNum::Float(Real { bits: (-12.5f64).to_bits() }));
}

#[test]
fn policy_matches_machine_epsilon() {
    // within epsilon of an integer: the distance of this value to 1 is
    // 2^-53, strictly below the machine epsilon 2^-52
    let just_below_one = 1.0f64 - (2.0f64).powi(-53);
    assert_eq!(norm(just_below_one), HostNum::Int(1));
    // exactly epsilon away from 1: not strictly below, stays a real
    let above_one = 1.0f64 + (2.0f64).powi(-52);
    assert_eq!(
        norm(above_one),
        HostNum::Float(Real { bits: above_one.to_bits() })
    );
    // just below one half: nowhere near an integer
    let below_half = 0.49999999999999994f64;
    assert_eq!(
        norm(below_half),
        HostNum::Float(Real { bits: below_half.to_bits() })
    );
}

#[test]
fn tiny_values_are_near_zero() {
    assert_eq!(norm(1e-300), HostNum::Int(0));
    assert_eq!(norm(-1e-300), HostNum::Int(0));
    assert_eq!(norm(f64::MIN_POSITIVE / 2.0), HostNum::Int(0));
}

#[test]
fn non_finite_values_pass_through() {
    let nan = f64::NAN;
    assert_eq!(norm(nan), HostNum::Float(Real { bits: nan.to_bits() }));
    let inf = f64::INFINITY;
    assert_eq!(norm(inf), HostNum::Float(Real { bits: inf.to_bits() }));
    let ninf = f64::NEG_INFINITY;
    assert_eq!(norm(ninf), HostNum::Float(Real { bits: ninf.to_bits() }));
}

#[test]
fn large_integers_round_trip_when_they_fit() {
    let big = (1u64 << 52) as f64 + 1.0;
    assert_eq!(norm(big), HostNum::Int((1i64 << 52) + 1));
    let min = i64::MIN as f64;
    assert_eq!(norm(min), HostNum::Int(i64::MIN));
    // 2^63 does not fit a host integer: it stays a real
    let too_big = 9223372036854775808.0f64;
    assert_eq!(
        norm(too_big),
        HostNum::Float(Real { bits: too_big.to_bits() })
    );
    let huge = 1e300f64;
    assert_eq!(norm(huge), HostNum::Float(Real { bits: huge.to_bits() }));
}

#[test]
fn oracle_against_native_arithmetic() {
    // the policy agrees with the machine's own arithmetic on a spread of
    // values
    let samples: [f64; 17] = [
        0.0, 1.0, -1.0, 0.1, -0.1, 2.0, 2.5, 3.75, 100.0, -100.0, 0.3333,
        65536.0, 123.000000001, 999999.5, -42.0, 7e10, 1.5e-10,
    ];
    for &v in samples.iter() {
        let expect_int = (v - v.round()).abs() < f64::EPSILON;
        match norm(v) {
            HostNum::Int(i) => {
                assert!(expect_int, "{v} should not have been an integer");
                assert_eq!(i as f64, v.round(), "{v} rounded wrong");
            }
            HostNum::Float(r) => {
                assert!(!expect_int, "{v} should have been an integer");
                assert_eq!(r.bits, v.to_bits());
            }
        }
    }
}
