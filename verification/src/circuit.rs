//! The Fibonacci step circuit: one state transition in two equivalent forms.
//!
//! The direct form (`step_native`) computes the next state over field
//! elements. The constraint-level form (`generate_step_constraints`) builds
//! the same computation as expressions over the step's input variables, the
//! shape a folding engine lowers into its constraint system. The two forms
//! agree under every assignment; `lemma_constrained_matches_native` proves
//! it.

use crate::error::Error;
use crate::field::Fe;
use crate::field::fe_add;
use crate::field::fe_val;
use crate::field::fe_wf;
use crate::field::lemma_fe_val_injective;
use crate::field::p_int;
use vstd::prelude::*;

verus! {

/// The field values a vector of elements stands for.
pub open spec fn vals(z: Seq<Fe>) -> Seq<int> {
    z.map_values(|e: Fe| fe_val(e))
}

/// Every element of the vector is reduced.
pub open spec fn all_wf(z: Seq<Fe>) -> bool {
    forall|k: int| 0 <= k < z.len() ==> fe_wf(#[trigger] z[k])
}

/// The Fibonacci transition on field values: `[a, b]` steps to
/// `[b, a + b]`, the sum taken in the field.
pub open spec fn fib_step_vals(z: Seq<int>) -> Seq<int> {
    seq![z[1], (z[0] + z[1]) % p_int()]
}

/// An expression over the input variables of one step: the constraint-level
/// form of a per-step computation, to be lowered by a constraint backend and
/// evaluated here under a concrete assignment.
#[derive(Debug, PartialEq, Eq)]
pub enum FieldExpr {
    /// The input variable at the given position.
    Var(usize),
    /// The field sum of two subexpressions.
    Sum(Box<FieldExpr>, Box<FieldExpr>),
}

/// Every variable an expression names lies below the declared arity.
pub open spec fn expr_wf(e: FieldExpr, n: nat) -> bool
    decreases e,
{
    match e {
        FieldExpr::Var(k) => k < n,
        FieldExpr::Sum(l, r) => expr_wf(*l, n) && expr_wf(*r, n),
    }
}

/// The value of an expression under an assignment of the input variables.
pub open spec fn eval_expr_val(e: FieldExpr, assign: Seq<int>) -> int
    decreases e,
{
    match e {
        FieldExpr::Var(k) => assign[k as int],
        FieldExpr::Sum(l, r) => (eval_expr_val(*l, assign) + eval_expr_val(*r, assign)) % p_int(),
    }
}

impl Clone for FieldExpr {
    /// An equal expression, subexpressions included.
    fn clone(&self) -> (r: Self)
        ensures
            r == *self,
        decreases *self,
    {
        match self {
            FieldExpr::Var(k) => FieldExpr::Var(*k),
            FieldExpr::Sum(l, r) => FieldExpr::Sum(Box::new((**l).clone()), Box::new((**r).clone())),
        }
    }
}

/// Evaluates an expression over reduced field elements.
///
/// Fails exactly when the expression names a variable the assignment does
/// not cover; otherwise the result is the reduced element whose value is
/// the expression's value under the assignment.
pub fn eval_expr(e: &FieldExpr, assign: &Vec<Fe>) -> (r: Result<Fe, Error>)
    requires
        all_wf(assign@),
    ensures
        r is Ok <==> expr_wf(*e, assign@.len() as nat),
        r matches Ok(v) ==> fe_wf(v) && fe_val(v) == eval_expr_val(*e, vals(assign@)),
        r matches Err(err) ==> err == Error::VariableOutOfRange,
    decreases *e,
{
    match e {
        FieldExpr::Var(k) => {
            if *k < assign.len() {
                Ok(assign[*k])
            } else {
                Err(Error::VariableOutOfRange)
            }
        },
        FieldExpr::Sum(l, r) => {
            let lv = match eval_expr(l, assign) {
                Ok(v) => v,
                Err(err) => {
                    return Err(err);
                },
            };
            let rv = match eval_expr(r, assign) {
                Ok(v) => v,
                Err(err) => {
                    return Err(err);
                },
            };
            Ok(fe_add(&lv, &rv))
        },
    }
}

/// The step circuit of this run: state arity two, no external inputs, and
/// the Fibonacci transition as its step function.
#[derive(Clone, Copy, Debug)]
pub struct FibonacciCircuit;

impl FibonacciCircuit {
    /// A fresh circuit description.
    pub fn new() -> (r: Self)
        ensures
            r == (FibonacciCircuit {}),
    {
        FibonacciCircuit {}
    }

    /// The fixed arity of the state vector.
    pub fn state_len(&self) -> (n: usize)
        ensures
            n == 2,
    {
        2
    }

    /// The fixed arity of the per-step external input.
    pub fn external_inputs_len(&self) -> (n: usize)
        ensures
            n == 0,
    {
        0
    }

    /// The direct form of the transition: `[a, b]` becomes `[b, a + b]`.
    ///
    /// Succeeds exactly when both arguments have their declared arity; a
    /// wrong state length is reported before a wrong external-input length.
    /// The step index does not enter this transition.
    pub fn step_native(&self, _i: usize, z_i: Vec<Fe>, external_inputs: Vec<Fe>) -> (r: Result<
        Vec<Fe>,
        Error,
    >)
        requires
            all_wf(z_i@),
        ensures
            r is Ok <==> (z_i@.len() == 2 && external_inputs@.len() == 0),
            r matches Ok(out) ==> out@.len() == 2 && all_wf(out@) && out@[0] == z_i@[1] && vals(
                out@,
            ) == fib_step_vals(vals(z_i@)),
            r matches Err(err) ==> err == (if z_i@.len() != 2 {
                Error::WrongStateLength
            } else {
                Error::WrongExternalInputsLength
            }),
    {
        if z_i.len() != 2 {
            return Err(Error::WrongStateLength);
        }
        if external_inputs.len() != 0 {
            return Err(Error::WrongExternalInputsLength);
        }
        let new_fib = fe_add(&z_i[0], &z_i[1]);
        let mut out: Vec<Fe> = Vec::new();
        out.push(z_i[1]);
        out.push(new_fib);
        proof {
            assert(vals(out@) =~= fib_step_vals(vals(z_i@)));
        }
        Ok(out)
    }

    /// The constraint-level form of the transition: over input variables
    /// `[e0, e1]` it yields the expressions `[e1, e0 + e1]`.
    ///
    /// Succeeds exactly when both argument vectors have their declared
    /// arity, with the same error order as `step_native`. The step index
    /// does not enter this transition.
    pub fn generate_step_constraints(
        &self,
        _i: usize,
        z_i: Vec<FieldExpr>,
        external_inputs: Vec<FieldExpr>,
    ) -> (r: Result<Vec<FieldExpr>, Error>)
        ensures
            r is Ok <==> (z_i@.len() == 2 && external_inputs@.len() == 0),
            r matches Ok(out) ==> out@.len() == 2 && out@[0] == z_i@[1] && (out@[1] matches
                FieldExpr::Sum(l, s) && *l == z_i@[0] && *s == z_i@[1]),
            r matches Err(err) ==> err == (if z_i@.len() != 2 {
                Error::WrongStateLength
            } else {
                Error::WrongExternalInputsLength
            }),
    {
        if z_i.len() != 2 {
            return Err(Error::WrongStateLength);
        }
        if external_inputs.len() != 0 {
            return Err(Error::WrongExternalInputsLength);
        }
        let e0 = z_i[0].clone();
        let e1 = z_i[1].clone();
        let new_fib = FieldExpr::Sum(Box::new(e0), Box::new(e1.clone()));
        let mut out: Vec<FieldExpr> = Vec::new();
        out.push(e1);
        out.push(new_fib);
        Ok(out)
    }
}

/// Equivalence of the two forms: under every assignment of the step's input
/// variables, the constraint-level outputs evaluate to exactly the vector
/// the direct transition yields on the evaluated inputs.
pub proof fn lemma_constrained_matches_native(
    z: Seq<FieldExpr>,
    out: Seq<FieldExpr>,
    assign: Seq<int>,
)
    requires
        z.len() == 2,
        out.len() == 2,
        out[0] == z[1],
        out[1] matches FieldExpr::Sum(l, s) && *l == z[0] && *s == z[1],
    ensures
        out.map_values(|e: FieldExpr| eval_expr_val(e, assign)) == fib_step_vals(
            z.map_values(|e: FieldExpr| eval_expr_val(e, assign)),
        ),
{
    let oe = out.map_values(|e: FieldExpr| eval_expr_val(e, assign));
    let ze = z.map_values(|e: FieldExpr| eval_expr_val(e, assign));
    assert(oe =~= fib_step_vals(ze));
}

/// Determinism of the direct transition: any two result vectors that meet
/// `step_native`'s contract for one input vector are equal element for
/// element, since a reduced element is determined by its value.
pub proof fn lemma_step_native_deterministic(z: Seq<Fe>, r1: Seq<Fe>, r2: Seq<Fe>)
    requires
        all_wf(r1),
        all_wf(r2),
        r1.len() == 2,
        r2.len() == 2,
        vals(r1) == fib_step_vals(vals(z)),
        vals(r2) == fib_step_vals(vals(z)),
    ensures
        r1 == r2,
{
    assert forall|k: int| 0 <= k < 2 implies r1[k] == r2[k] by {
        assert(vals(r1)[k] == vals(r2)[k]);
        assert(fe_val(r1[k]) == fe_val(r2[k]));
        lemma_fe_val_injective(r1[k], r2[k]);
    };
    assert(r1 =~= r2);
}

} // verus!
