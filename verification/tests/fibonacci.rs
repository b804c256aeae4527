use fibonacci_ivc::circuit::FibonacciCircuit;
use fibonacci_ivc::circuit::FieldExpr;
use fibonacci_ivc::circuit::eval_expr;
use fibonacci_ivc::error::Error;
use fibonacci_ivc::field::Fe;
use fibonacci_ivc::field::fe_add;
use fibonacci_ivc::run::Run;

fn fe(n: u64) -> Fe {
    Fe::from_u64(n)
}

#[test]
fn fe_add_small_values() {
    let r = fe_add(&fe(3), &fe(5));
    assert_eq!(r, fe(8));
}

#[test]
fn fe_add_wraps_at_modulus() {
    // the modulus less one, limb by limb
    let p_minus_1 = Fe {
        l0: 0x43e1f593f0000000,
        l1: 0x2833e84879b97091,
        l2: 0xb85045b68181585d,
        l3: 0x30644e72e131a029,
    };
    assert_eq!(fe_add(&p_minus_1, &fe(1)), fe(0));
    assert_eq!(fe_add(&p_minus_1, &fe(2)), fe(1));
    assert_eq!(fe_add(&p_minus_1, &p_minus_1), Fe {
        l0: 0x43e1f593efffffff,
        l1: 0x2833e84879b97091,
        l2: 0xb85045b68181585d,
        l3: 0x30644e72e131a029,
    });
}

#[test]
fn step_native_computes_fibonacci_step() {
    let circuit = FibonacciCircuit::new();
    assert_eq!(circuit.state_len(), 2);
    assert_eq!(circuit.external_inputs_len(), 0);
    let out = circuit.step_native(0, vec![fe(3), fe(5)], vec![]).unwrap();
    assert_eq!(out, vec![fe(5), fe(8)]);
}

#[test]
fn step_native_deterministic() {
    let circuit = FibonacciCircuit::new();
    let out1 = circuit.step_native(4, vec![fe(21), fe(34)], vec![]).unwrap();
    let out2 = circuit.step_native(4, vec![fe(21), fe(34)], vec![]).unwrap();
    assert_eq!(out1, out2);
}

#[test]
fn step_native_rejects_wrong_state_length() {
    let circuit = FibonacciCircuit::new();
    let r = circuit.step_native(0, vec![fe(1)], vec![]);
    assert_eq!(r, Err(Error::WrongStateLength));
}

#[test]
fn step_native_rejects_external_inputs() {
    let circuit = FibonacciCircuit::new();
    let r = circuit.step_native(0, vec![fe(1), fe(2)], vec![fe(9)]);
    assert_eq!(r, Err(Error::WrongExternalInputsLength));
}

#[test]
fn generate_step_constraints_matches_native() {
    let circuit = FibonacciCircuit::new();
    let exprs = circuit
        .generate_step_constraints(0, vec![FieldExpr::Var(0), FieldExpr::Var(1)], vec![])
        .unwrap();
    assert_eq!(exprs.len(), 2);
    let assignment = vec![fe(3), fe(5)];
    let evaluated: Vec<Fe> = exprs.iter().map(|e| eval_expr(e, &assignment).unwrap()).collect();
    let native = circuit.step_native(0, assignment, vec![]).unwrap();
    assert_eq!(evaluated, native);
}

#[test]
fn generate_step_constraints_rejects_wrong_arity() {
    let circuit = FibonacciCircuit::new();
    assert_eq!(
        circuit.generate_step_constraints(0, vec![FieldExpr::Var(0)], vec![]),
        Err(Error::WrongStateLength)
    );
    assert_eq!(
        circuit.generate_step_constraints(
            0,
            vec![FieldExpr::Var(0), FieldExpr::Var(1)],
            vec![FieldExpr::Var(0)]
        ),
        Err(Error::WrongExternalInputsLength)
    );
}

#[test]
fn eval_expr_rejects_unknown_variable() {
    let assignment = vec![fe(3), fe(5)];
    let r = eval_expr(&FieldExpr::Var(7), &assignment);
    assert_eq!(r, Err(Error::VariableOutOfRange));
}

#[test]
fn run_advances_fibonacci() {
    let circuit = FibonacciCircuit::new();
    let mut run = Run::init(circuit, vec![fe(0), fe(1)]).unwrap();
    assert_eq!(run.i, 0);
    for k in 0..10 {
        run.advance(vec![]).unwrap();
        assert_eq!(run.i, k + 1);
        if run.i == 9 {
            assert_eq!(run.z_i, vec![fe(34), fe(55)]);
        }
    }
    assert_eq!(run.i, 10);
    assert_eq!(run.z_0, vec![fe(0), fe(1)]);
    assert_eq!(run.z_i, vec![fe(55), fe(89)]);
}

#[test]
fn init_rejects_wrong_state_length() {
    let circuit = FibonacciCircuit::new();
    assert_eq!(Run::init(circuit, vec![fe(0)]).err(), Some(Error::WrongStateLength));
}

#[test]
fn advance_rejects_external_inputs_and_keeps_run() {
    let circuit = FibonacciCircuit::new();
    let mut run = Run::init(circuit, vec![fe(0), fe(1)]).unwrap();
    run.advance(vec![]).unwrap();
    let r = run.advance(vec![fe(7)]);
    assert_eq!(r, Err(Error::WrongExternalInputsLength));
    assert_eq!(run.i, 1);
    assert_eq!(run.z_i, vec![fe(1), fe(1)]);
}
