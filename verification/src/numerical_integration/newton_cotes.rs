use vstd::prelude::*;

use crate::numerical_integration::mode::IterativeMethod;

verus! {

/// The weight a composite rule gives to the two end nodes of the interval.
pub open spec fn endpoint_weight(method: IterativeMethod) -> int {
    match method {
        IterativeMethod::Booles => 7,
        IterativeMethod::Simpsons => 1,
        IterativeMethod::Trapezoidal => 1,
    }
}

/// The weight a composite rule gives to the interior node `k` (`0 < k < n`).
pub open spec fn interior_weight(method: IterativeMethod, k: int) -> int {
    match method {
        IterativeMethod::Booles => if k % 2 == 1 {
            32
        } else if k % 4 == 0 {
            14
        } else {
            12
        },
        IterativeMethod::Simpsons => if k % 3 == 0 {
            2
        } else {
            3
        },
        IterativeMethod::Trapezoidal => 2,
    }
}

/// The weight of node `k` (`0 <= k <= n`) when the interval is cut into `n` steps.
pub open spec fn node_weight(method: IterativeMethod, n: int, k: int) -> int {
    if k == 0 || k == n {
        endpoint_weight(method)
    } else {
        interior_weight(method, k)
    }
}

/// The rule's result is `numerator * step * (weighted sum) / denominator`.
pub open spec fn scale_numerator(method: IterativeMethod) -> int {
    match method {
        IterativeMethod::Booles => 2,
        IterativeMethod::Simpsons => 3,
        IterativeMethod::Trapezoidal => 1,
    }
}

/// See [`scale_numerator`].
pub open spec fn scale_denominator(method: IterativeMethod) -> int {
    match method {
        IterativeMethod::Booles => 45,
        IterativeMethod::Simpsons => 8,
        IterativeMethod::Trapezoidal => 2,
    }
}

/// The number of steps one panel of the rule spans; the composite rule is a chain of panels
/// when the step count is a multiple of it.
pub open spec fn panel_steps(method: IterativeMethod) -> nat {
    match method {
        IterativeMethod::Booles => 4,
        IterativeMethod::Simpsons => 3,
        IterativeMethod::Trapezoidal => 1,
    }
}

/// The highest polynomial degree the rule integrates exactly.
pub open spec fn exact_degree(method: IterativeMethod) -> nat {
    match method {
        IterativeMethod::Booles => 5,
        IterativeMethod::Simpsons => 3,
        IterativeMethod::Trapezoidal => 1,
    }
}

/// `sum_{0 <= k < m} node_weight(method, n, k) * y(k)`.
pub open spec fn weighted_sum(method: IterativeMethod, n: int, y: spec_fn(int) -> int, m: nat) -> int
    decreases m,
{
    if m == 0 {
        0
    } else {
        weighted_sum(method, n, y, (m - 1) as nat) + node_weight(method, n, m - 1) * y(m - 1)
    }
}

/// The weighted sum of the samples `y(0), ..., y(n)` that the composite rule forms on `n` steps.
pub open spec fn rule_sum(method: IterativeMethod, n: nat, y: spec_fn(int) -> int) -> int {
    weighted_sum(method, n as int, y, n + 1)
}

/// The factor `(numerator, denominator)` of the rule: the integral is
/// `numerator * step * (weighted sum of the samples) / denominator`.
pub fn rule_scale(method: IterativeMethod) -> (scale: (u64, u64))
    ensures
        scale.0 == scale_numerator(method),
        scale.1 == scale_denominator(method),
{
    match method {
        IterativeMethod::Booles => (2, 45),
        IterativeMethod::Simpsons => (3, 8),
        IterativeMethod::Trapezoidal => (1, 2),
    }
}

/// The node weights of Boole's composite rule on `iterations` steps: 7 at both ends, then
/// 32, 12, 32, 14, 32, 12, ... inside.
pub fn booles_weights(iterations: u64) -> (weights: Vec<u64>)
    requires
        1 <= iterations < usize::MAX,
    ensures
        weights@.len() == iterations + 1,
        forall|k: int| 0 <= k <= iterations ==> weights@[k] == node_weight(IterativeMethod::Booles, iterations as int, k),
{
    let mut weights: Vec<u64> = Vec::new();
    weights.push(7);
    let mut multiplier: u64 = 32;
    let mut iter: u64 = 0;
    while iter < iterations - 1
        invariant
            1 <= iterations < usize::MAX,
            iter <= iterations - 1,
            weights@.len() == iter + 1,
            multiplier == interior_weight(IterativeMethod::Booles, iter + 1),
            forall|k: int| 0 <= k <= iter ==> weights@[k] == node_weight(IterativeMethod::Booles, iterations as int, k),
        decreases iterations - 1 - iter,
    {
        weights.push(multiplier);
        if (iter + 2) % 2 != 0 {
            multiplier = 32;
        } else if (iter + 2) % 4 == 0 {
            multiplier = 14;
        } else {
            multiplier = 12;
        }
        iter += 1;
    }
    weights.push(7);
    weights
}

/// The node weights of Simpson's 3/8 composite rule on `iterations` steps: 1 at both ends,
/// then 3, 3, 2, 3, 3, 2, ... inside.
pub fn simpsons_weights(iterations: u64) -> (weights: Vec<u64>)
    requires
        1 <= iterations < usize::MAX,
    ensures
        weights@.len() == iterations + 1,
        forall|k: int| 0 <= k <= iterations ==> weights@[k] == node_weight(IterativeMethod::Simpsons, iterations as int, k),
{
    let mut weights: Vec<u64> = Vec::new();
    weights.push(1);
    let mut multiplier: u64 = 3;
    let mut iter: u64 = 0;
    while iter < iterations - 1
        invariant
            1 <= iterations < usize::MAX,
            iter <= iterations - 1,
            weights@.len() == iter + 1,
            multiplier == interior_weight(IterativeMethod::Simpsons, iter + 1),
            forall|k: int| 0 <= k <= iter ==> weights@[k] == node_weight(IterativeMethod::Simpsons, iterations as int, k),
        decreases iterations - 1 - iter,
    {
        weights.push(multiplier);
        if (iter + 2) % 3 == 0 {
            multiplier = 2;
        } else {
            multiplier = 3;
        }
        iter += 1;
    }
    weights.push(1);
    weights
}

/// The node weights of the trapezoidal composite rule on `iterations` steps: 1 at both ends
/// and 2 inside.
pub fn trapezoidal_weights(iterations: u64) -> (weights: Vec<u64>)
    requires
        1 <= iterations < usize::MAX,
    ensures
        weights@.len() == iterations + 1,
        forall|k: int| 0 <= k <= iterations ==> weights@[k] == node_weight(IterativeMethod::Trapezoidal, iterations as int, k),
{
    let mut weights: Vec<u64> = Vec::new();
    weights.push(1);
    let mut iter: u64 = 0;
    while iter < iterations - 1
        invariant
            1 <= iterations < usize::MAX,
            iter <= iterations - 1,
            weights@.len() == iter + 1,
            forall|k: int| 0 <= k <= iter ==> weights@[k] == node_weight(IterativeMethod::Trapezoidal, iterations as int, k),
        decreases iterations - 1 - iter,
    {
        weights.push(2);
        iter += 1;
    }
    weights.push(1);
    weights
}

/// The node weights of the chosen rule on `iterations` steps.
pub fn rule_weights(method: IterativeMethod, iterations: u64) -> (weights: Vec<u64>)
    requires
        1 <= iterations < usize::MAX,
    ensures
        weights@.len() == iterations + 1,
        forall|k: int| 0 <= k <= iterations ==> weights@[k] == node_weight(method, iterations as int, k),
{
    match method {
        IterativeMethod::Booles => booles_weights(iterations),
        IterativeMethod::Simpsons => simpsons_weights(iterations),
        IterativeMethod::Trapezoidal => trapezoidal_weights(iterations),
    }
}

} // verus!
