//! Cross-checks of the library's field model and step circuit against the
//! BN254 scalar field and the constraint backend the folding engine uses.

use ark_bn254::Fr;
use ark_ff::BigInt;
use ark_ff::PrimeField;
use ark_r1cs_std::GR1CSVar;
use ark_r1cs_std::alloc::AllocVar;
use ark_r1cs_std::fields::fp::FpVar;
use ark_relations::gr1cs::ConstraintSystem;
use fibonacci_ivc::circuit::FibonacciCircuit;
use fibonacci_ivc::field::Fe;
use fibonacci_ivc::field::fe_add;

fn fe_to_fr(e: &Fe) -> Fr {
    Fr::from_bigint(BigInt::new([e.l0, e.l1, e.l2, e.l3])).unwrap()
}

fn fr_to_fe(x: &Fr) -> Fe {
    let limbs = x.into_bigint().0;
    Fe { l0: limbs[0], l1: limbs[1], l2: limbs[2], l3: limbs[3] }
}

#[test]
fn fe_add_matches_bn254_scalar_field() {
    let pairs: Vec<(Fe, Fe)> = vec![
        (Fe::from_u64(3), Fe::from_u64(5)),
        (Fe::from_u64(u64::MAX), Fe::from_u64(u64::MAX)),
        (
            Fe { l0: 0x0123456789abcdef, l1: 0xfedcba9876543210, l2: 0x0f1e2d3c4b5a6978, l3: 0 },
            Fe { l0: 0xdeadbeefdeadbeef, l1: 0xcafef00dcafef00d, l2: 0x0102030405060708, l3: 1 },
        ),
        (
            // the modulus less one, limb by limb, added to itself
            Fe {
                l0: 0x43e1f593f0000000,
                l1: 0x2833e84879b97091,
                l2: 0xb85045b68181585d,
                l3: 0x30644e72e131a029,
            },
            Fe {
                l0: 0x43e1f593f0000000,
                l1: 0x2833e84879b97091,
                l2: 0xb85045b68181585d,
                l3: 0x30644e72e131a029,
            },
        ),
    ];
    for (a, b) in &pairs {
        let expected = fr_to_fe(&(fe_to_fr(a) + fe_to_fr(b)));
        assert_eq!(fe_add(a, b), expected);
    }
}

#[test]
fn step_native_matches_constraint_backend() {
    // the constrained form of the step, written over the backend's field
    // variables exactly as a folding engine synthesizes it
    let cs = ConstraintSystem::<Fr>::new_ref();
    let z0 = FpVar::new_witness(cs.clone(), || Ok(Fr::from(3u64))).unwrap();
    let z1 = FpVar::new_witness(cs.clone(), || Ok(Fr::from(5u64))).unwrap();
    let new_fib = &z0 + &z1;
    let constrained = vec![z1.clone(), new_fib];

    let circuit = FibonacciCircuit::new();
    let native = circuit
        .step_native(0, vec![Fe::from_u64(3), Fe::from_u64(5)], vec![])
        .unwrap();

    assert_eq!(constrained.len(), native.len());
    for (var, expected) in constrained.iter().zip(native.iter()) {
        assert_eq!(fr_to_fe(&var.value().unwrap()), *expected);
    }
}
