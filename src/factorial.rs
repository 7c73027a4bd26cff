//! The factorial algorithm as a sequence of decisions over a native big integer.
//!
//! The caller owns two native values, a counter `k` (a copy of the input `n`)
//! and an accumulator `acc` (initially 1). At each step it compares `k` with
//! `phase.bound()`, hands the sign of that comparison to `factorial_step`, and
//! carries out the returned step: move to another phase, multiply `acc` by `k`
//! and then decrement `k` by one, or finish with `acc` as the result.
use vstd::prelude::*;

verus! {

/// Where the algorithm stands.
#[derive(Clone, Copy, Debug, PartialEq, Eq, Structural)]
pub enum FactorialPhase {
    /// Nothing checked yet: `k` is compared with 0.
    Start,
    /// In the loop: `k` is compared with 1.
    Looping,
}

/// What the caller does next.
#[derive(Clone, Copy, Debug, PartialEq, Eq, Structural)]
pub enum FactorialStep {
    /// Move to the given phase without touching the values.
    Continue(FactorialPhase),
    /// Set `acc` to `acc * k`, then `k` to `k - 1`; stay in the loop.
    MultiplyDecrement,
    /// Stop: `acc` is the factorial.
    Finish,
}

/// The small integer that `k` is compared with in `phase`.
pub open spec fn bound_of(phase: FactorialPhase) -> int {
    match phase {
        FactorialPhase::Start => 0,
        FactorialPhase::Looping => 1,
    }
}

/// The step taken in `phase` when comparing `k` with the phase's bound gave
/// a result of sign `sign`.
pub open spec fn step_of(phase: FactorialPhase, sign: int) -> FactorialStep {
    match phase {
        FactorialPhase::Start => if sign == 0 {
            FactorialStep::Finish
        } else {
            FactorialStep::Continue(FactorialPhase::Looping)
        },
        FactorialPhase::Looping => if sign > 0 {
            FactorialStep::MultiplyDecrement
        } else {
            FactorialStep::Finish
        },
    }
}

/// The sign of a comparison of `k` with `b`, as the native library reports it
/// (any negative, zero or any positive value).
pub open spec fn sign_matches(sign: int, k: int, b: int) -> bool {
    &&& (sign < 0 <==> k < b)
    &&& (sign == 0 <==> k == b)
    &&& (sign > 0 <==> k > b)
}

/// `n!` for a natural number `n`.
pub open spec fn factorial(n: nat) -> nat
    decreases n,
{
    if n == 0 {
        1
    } else {
        n * factorial((n - 1) as nat)
    }
}

pub open spec fn phase_rank(phase: FactorialPhase) -> nat {
    match phase {
        FactorialPhase::Start => 1,
        FactorialPhase::Looping => 0,
    }
}

/// The accumulator that the algorithm ends with when started in `phase` with
/// counter `k` and accumulator `acc`, each step chosen by `step_of` from the
/// true comparison.
pub open spec fn run_from(phase: FactorialPhase, k: nat, acc: int) -> int
    decreases k, phase_rank(phase),
{
    match phase {
        FactorialPhase::Start => if k == 0 {
            acc
        } else {
            run_from(FactorialPhase::Looping, k, acc)
        },
        FactorialPhase::Looping => if k > 1 {
            run_from(FactorialPhase::Looping, (k - 1) as nat, acc * k)
        } else {
            acc
        },
    }
}

/// The result of the algorithm on input `n`.
pub open spec fn factorial_result(n: nat) -> int {
    run_from(FactorialPhase::Start, n, 1)
}

impl FactorialPhase {
    /// The small integer that the counter is compared with in this phase.
    pub fn bound(&self) -> (r: u64)
        ensures
            r == bound_of(*self),
    {
        match self {
            FactorialPhase::Start => 0,
            FactorialPhase::Looping => 1,
        }
    }
}

/// Decides the next step from the current phase and the sign of the
/// comparison of the counter with `phase.bound()`.
pub fn factorial_step(phase: FactorialPhase, sign: i32) -> (r: FactorialStep)
    ensures
        r == step_of(phase, sign as int),
{
    match phase {
        FactorialPhase::Start => if sign == 0 {
            FactorialStep::Finish
        } else {
            FactorialStep::Continue(FactorialPhase::Looping)
        },
        FactorialPhase::Looping => if sign > 0 {
            FactorialStep::MultiplyDecrement
        } else {
            FactorialStep::Finish
        },
    }
}

/// Following the steps that `factorial_step` chooses from true comparisons
/// is what `run_from` describes: each step taken from a state leads to the
/// same final accumulator as the state itself.
pub proof fn lemma_step_follows_run(phase: FactorialPhase, k: nat, acc: int, sign: int)
    requires
        sign_matches(sign, k as int, bound_of(phase)),
    ensures
        step_of(phase, sign) == FactorialStep::Finish ==> run_from(phase, k, acc) == acc,
        step_of(phase, sign) matches FactorialStep::Continue(next) ==> run_from(phase, k, acc)
            == run_from(next, k, acc),
        step_of(phase, sign) == FactorialStep::MultiplyDecrement ==> k > 1 && run_from(
            phase,
            k,
            acc,
        ) == run_from(phase, (k - 1) as nat, acc * k),
{
}

proof fn lemma_loop_multiplies(k: nat, acc: int)
    requires
        k >= 1,
    ensures
        run_from(FactorialPhase::Looping, k, acc) == acc * factorial(k),
    decreases k,
{
    if k > 1 {
        lemma_loop_multiplies((k - 1) as nat, acc * k);
        assert(acc * k * factorial((k - 1) as nat) == acc * (k * factorial((k - 1) as nat)))
            by (nonlinear_arith);
    } else {
        assert(factorial(0) == 1);
        assert(factorial(1) == 1);
    }
}

/// The algorithm computes `n!` for every natural number `n`.
pub proof fn lemma_result_is_factorial(n: nat)
    ensures
        factorial_result(n) == factorial(n),
{
    if n >= 1 {
        lemma_loop_multiplies(n, 1);
    }
}

/// On 0 and on 1 the algorithm yields 1.
pub proof fn lemma_result_of_zero_and_one()
    ensures
        factorial_result(0) == 1,
        factorial_result(1) == 1,
{
    lemma_result_is_factorial(0);
    lemma_result_is_factorial(1);
}

/// From 2 on, the algorithm's result on `n` is `n` times its result on `n - 1`.
pub proof fn lemma_result_recurrence(n: nat)
    requires
        n >= 2,
    ensures
        factorial_result(n) == n * factorial_result((n - 1) as nat),
{
    lemma_result_is_factorial(n);
    lemma_result_is_factorial((n - 1) as nat);
}

} // verus!
