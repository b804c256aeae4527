//! The folding run as an explicit state machine.
//!
//! A run holds the step index, the initial state and the current state, and
//! advances them together, one transition per step. Its invariant ties the
//! three: the current state is always the image of the initial state under
//! the transition applied step-index many times, so after `k` successful
//! advances the index reads exactly `k`. The engine-owned folding
//! accumulator is threaded beside a run by the surrounding program, which
//! performs one fold per `advance`; a failed `advance` leaves the run
//! exactly as it was, so no state moves without its step being accounted
//! for.

use crate::circuit::FibonacciCircuit;
use crate::circuit::all_wf;
use crate::circuit::fib_step_vals;
use crate::circuit::vals;
use crate::error::Error;
use crate::field::Fe;
use crate::field::p_int;
use vstd::arithmetic::div_mod::lemma_small_mod;
use vstd::prelude::*;

verus! {

/// The step-index-fold image of a state under the transition.
pub open spec fn iterate_vals(k: nat, z: Seq<int>) -> Seq<int>
    decreases k,
{
    if k == 0 {
        z
    } else {
        fib_step_vals(iterate_vals((k - 1) as nat, z))
    }
}

/// One incremental run: a circuit bound to an initial state, advanced step
/// by step.
pub struct Run {
    /// How many steps have completed.
    pub i: usize,
    /// The state the run started from.
    pub z_0: Vec<Fe>,
    /// The state after `i` steps.
    pub z_i: Vec<Fe>,
    /// The step circuit the run applies.
    pub circuit: FibonacciCircuit,
}

/// The run invariant: both state vectors have the declared arity, hold
/// reduced elements, and the current state is the `i`-fold image of the
/// initial one.
pub open spec fn run_wf(r: Run) -> bool {
    &&& r.z_0@.len() == 2
    &&& all_wf(r.z_0@)
    &&& r.z_i@.len() == 2
    &&& all_wf(r.z_i@)
    &&& vals(r.z_i@) == iterate_vals(r.i as nat, vals(r.z_0@))
}

impl Run {
    /// Binds the circuit to an initial state: the zero-step run, whose
    /// current state is the initial state itself.
    ///
    /// Succeeds exactly when the initial state has the declared arity.
    pub fn init(circuit: FibonacciCircuit, z_0: Vec<Fe>) -> (r: Result<Run, Error>)
        requires
            all_wf(z_0@),
        ensures
            r is Ok <==> z_0@.len() == 2,
            r matches Ok(run) ==> run.i == 0 && run.z_0@ == z_0@ && run.z_i@ == z_0@ && run_wf(run),
            r matches Err(err) ==> err == Error::WrongStateLength,
    {
        if z_0.len() != 2 {
            return Err(Error::WrongStateLength);
        }
        let a = z_0[0];
        let b = z_0[1];
        let mut z_i: Vec<Fe> = Vec::new();
        z_i.push(a);
        z_i.push(b);
        let run = Run { i: 0, z_0, z_i, circuit };
        proof {
            assert(run.z_i@ =~= run.z_0@);
        }
        Ok(run)
    }

    /// One step: the current state advances by the native transition and
    /// the step index by exactly one, together; on failure the run is
    /// returned exactly as it was, so no partial step is ever retained.
    ///
    /// Succeeds exactly when the external inputs have the declared arity.
    pub fn advance(&mut self, external_inputs: Vec<Fe>) -> (r: Result<(), Error>)
        requires
            run_wf(*old(self)),
            old(self).i < usize::MAX,
        ensures
            r is Ok <==> external_inputs@.len() == 0,
            r is Ok ==> final(self).i == old(self).i + 1 && final(self).z_0@ == old(self).z_0@
                && vals(final(self).z_i@) == fib_step_vals(vals(old(self).z_i@)) && run_wf(
                *final(self),
            ),
            r matches Err(err) ==> *final(self) == *old(self) && err
                == Error::WrongExternalInputsLength,
    {
        let a = self.z_i[0];
        let b = self.z_i[1];
        let mut z_cur: Vec<Fe> = Vec::new();
        z_cur.push(a);
        z_cur.push(b);
        proof {
            assert(z_cur@ =~= self.z_i@);
        }
        match self.circuit.step_native(self.i, z_cur, external_inputs) {
            Ok(z_next) => {
                self.z_i = z_next;
                self.i = self.i + 1;
                proof {
                    assert(vals(self.z_i@) == iterate_vals(self.i as nat, vals(self.z_0@)));
                }
                Ok(())
            },
            Err(err) => Err(err),
        }
    }
}

/// The Fibonacci numbers, starting 0, 1.
pub open spec fn fib(n: nat) -> nat
    decreases n,
{
    if n == 0 {
        0
    } else if n == 1 {
        1
    } else {
        fib((n - 2) as nat) + fib((n - 1) as nat)
    }
}

/// The transition iterated from the state `[0, 1]` walks the standard
/// Fibonacci progression: while the numbers stay below the field modulus,
/// the state after `k` steps is exactly `[fib(k), fib(k + 1)]`.
pub proof fn lemma_iterate_fibonacci(k: nat)
    requires
        fib(k + 1) < p_int(),
    ensures
        iterate_vals(k, seq![0int, 1int]) == seq![fib(k) as int, fib((k + 1) as nat) as int],
    decreases k,
{
    if k == 0 {
        assert(iterate_vals(0, seq![0int, 1int]) =~= seq![fib(0) as int, fib(1) as int]);
    } else {
        assert(fib(k + 1) == fib((k - 1) as nat) + fib(k));
        lemma_iterate_fibonacci((k - 1) as nat);
        let prev = iterate_vals((k - 1) as nat, seq![0int, 1int]);
        assert(iterate_vals(k, seq![0int, 1int]) == fib_step_vals(prev));
        lemma_small_mod(fib(k + 1), p_int() as nat);
        assert(fib_step_vals(prev) =~= seq![fib(k) as int, fib((k + 1) as nat) as int]);
    }
}

/// A run that started from the state `[0, 1]` holds the Fibonacci numbers:
/// while they stay below the field modulus, its state after `i` completed
/// steps is exactly `[fib(i), fib(i + 1)]`.
pub proof fn lemma_run_holds_fibonacci(r: Run)
    requires
        run_wf(r),
        vals(r.z_0@) == seq![0int, 1int],
        fib((r.i + 1) as nat) < p_int(),
    ensures
        vals(r.z_i@) == seq![fib(r.i as nat) as int, fib((r.i + 1) as nat) as int],
{
    lemma_iterate_fibonacci(r.i as nat);
}

} // verus!
