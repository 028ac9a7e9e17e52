use vstd::prelude::*;

use crate::numerical_integration::mode::IterativeMethod;
use crate::numerical_integration::newton_cotes::{
    endpoint_weight, exact_degree, interior_weight, node_weight, panel_steps, rule_sum, scale_denominator,
    scale_numerator, weighted_sum,
};

verus! {

/// `sum_{0 < k < m} interior_weight(method, k) * y(k)`.
spec fn interior_sum(method: IterativeMethod, y: spec_fn(int) -> int, m: nat) -> int
    decreases m,
{
    if m <= 1 {
        0
    } else {
        interior_sum(method, y, (m - 1) as nat) + interior_weight(method, m - 1) * y(m - 1)
    }
}

/// The simple (one-panel) rule applied to the panel that starts at node `a`.
spec fn panel_sum(method: IterativeMethod, y: spec_fn(int) -> int, a: int) -> int {
    match method {
        IterativeMethod::Booles => 7 * y(a) + 32 * y(a + 1) + 12 * y(a + 2) + 32 * y(a + 3) + 7 * y(a + 4),
        IterativeMethod::Simpsons => y(a) + 3 * y(a + 1) + 3 * y(a + 2) + y(a + 3),
        IterativeMethod::Trapezoidal => y(a) + y(a + 1),
    }
}

/// x raised to the power j.
pub open spec fn mono(x: int, j: nat) -> int
    decreases j,
{
    if j == 0 {
        1
    } else {
        x * mono(x, (j - 1) as nat)
    }
}

/// The binomial coefficient `C(j, k)`, zero for `k` outside `0..=j`.
spec fn binom(j: nat, k: int) -> int
    decreases j,
{
    if k < 0 || k > j {
        0
    } else if j == 0 {
        1
    } else {
        binom((j - 1) as nat, k - 1) + binom((j - 1) as nat, k)
    }
}

/// The term `C(j, k) * c^(j - k) * a^k` of the expansion of `(a + c)^j`, zero for `k > j`.
spec fn binom_term(a: int, c: int, j: nat, k: nat) -> int {
    if k > j {
        0
    } else {
        binom(j, k as int) * mono(c, (j - k) as nat) * mono(a, k)
    }
}

/// `sum_{0 <= k < i} binom_term(a, c, j, k)`.
spec fn binom_sum(a: int, c: int, j: nat, i: nat) -> int
    decreases i,
{
    if i == 0 {
        0
    } else {
        binom_sum(a, c, j, (i - 1) as nat) + binom_term(a, c, j, (i - 1) as nat)
    }
}

/// Pascal's rule, for every `k`.
proof fn lemma_pascal(j: nat, k: int)
    requires
        j >= 1,
    ensures
        binom(j, k) == binom((j - 1) as nat, k - 1) + binom((j - 1) as nat, k),
{
    if k < 0 || k > j {
        assert(binom((j - 1) as nat, k - 1) == 0);
        assert(binom((j - 1) as nat, k) == 0);
    }
}

/// One term of the expansion of `(a + c)^(j + 1)` from two terms of that of `(a + c)^j`.
proof fn lemma_binom_term_step(a: int, c: int, j: nat, k: nat)
    requires
        k >= 1,
    ensures
        binom_term(a, c, j + 1, k) == c * binom_term(a, c, j, k) + a * binom_term(a, c, j, (k - 1) as nat),
{
    let b0 = binom(j, k - 1);
    let b1 = binom(j, k as int);
    if k <= j + 1 {
        lemma_pascal(j + 1, k as int);
        let p = mono(c, (j + 1 - k) as nat);
        let q = mono(a, k);
        assert(q == a * mono(a, (k - 1) as nat));
        assert(binom_term(a, c, j + 1, k) == (b0 + b1) * p * q);
        assert(a * binom_term(a, c, j, (k - 1) as nat) == b0 * p * q) by (nonlinear_arith)
            requires
                binom_term(a, c, j, (k - 1) as nat) == b0 * p * mono(a, (k - 1) as nat),
                q == a * mono(a, (k - 1) as nat),
        {}
        if k <= j {
            assert(p == c * mono(c, (j - k) as nat));
            assert(c * binom_term(a, c, j, k) == b1 * p * q) by (nonlinear_arith)
                requires
                    binom_term(a, c, j, k) == b1 * mono(c, (j - k) as nat) * q,
                    p == c * mono(c, (j - k) as nat),
            {}
        } else {
            assert(b1 == 0);
        }
        assert((b0 + b1) * p * q == b0 * p * q + b1 * p * q) by (nonlinear_arith);
    }
}

/// The partial sums of the expansion of `(a + c)^(j + 1)` from those of `(a + c)^j`.
proof fn lemma_binom_sum_step(a: int, c: int, j: nat, i: nat)
    requires
        i >= 1,
    ensures
        binom_sum(a, c, j + 1, i) == c * binom_sum(a, c, j, i) + a * binom_sum(a, c, j, (i - 1) as nat),
    decreases i,
{
    if i == 1 {
        assert(binom_sum(a, c, j + 1, 0) == 0);
        assert(binom_sum(a, c, j, 0) == 0);
        assert(binom_sum(a, c, j + 1, 1) == binom_term(a, c, j + 1, 0));
        assert(binom_sum(a, c, j, 1) == binom_term(a, c, j, 0));
        assert(binom(j + 1, 0) == 1) by {
            lemma_pascal(j + 1, 0);
            lemma_binom_edge(j);
        }
        assert(binom(j, 0) == 1) by {
            lemma_binom_edge(j);
        }
        assert(mono(a, 0) == 1);
        assert(mono(c, j + 1) == c * mono(c, j));
        assert(binom_term(a, c, j + 1, 0) == mono(c, j + 1)) by (nonlinear_arith)
            requires
                binom_term(a, c, j + 1, 0) == binom(j + 1, 0) * mono(c, j + 1) * mono(a, 0),
                binom(j + 1, 0) == 1,
                mono(a, 0) == 1,
        {}
        assert(binom_term(a, c, j, 0) == mono(c, j)) by (nonlinear_arith)
            requires
                binom_term(a, c, j, 0) == binom(j, 0) * mono(c, j) * mono(a, 0),
                binom(j, 0) == 1,
                mono(a, 0) == 1,
        {}
    } else {
        let i0 = (i - 1) as nat;
        lemma_binom_sum_step(a, c, j, i0);
        lemma_binom_term_step(a, c, j, i0);
        let s1 = binom_sum(a, c, j, i0);
        let s0 = binom_sum(a, c, j, (i0 - 1) as nat);
        let t1 = binom_term(a, c, j, i0);
        let t0 = binom_term(a, c, j, (i0 - 1) as nat);
        assert(binom_sum(a, c, j, i) == s1 + t1);
        assert(binom_sum(a, c, j + 1, i) == binom_sum(a, c, j + 1, i0) + binom_term(a, c, j + 1, i0));
        assert(s1 == s0 + t0);
        assert(c * (s1 + t1) + a * s1 == (c * s1 + a * s0) + (c * t1 + a * t0)) by (nonlinear_arith)
            requires
                s1 == s0 + t0,
        {}
    }
}

/// `C(j, 0) == 1`.
proof fn lemma_binom_edge(j: nat)
    ensures
        binom(j, 0) == 1,
    decreases j,
{
    if j > 0 {
        lemma_binom_edge((j - 1) as nat);
        assert(binom((j - 1) as nat, -1) == 0);
    }
}

/// `C(j, j) == 1`.
proof fn lemma_binom_top(j: nat)
    ensures
        binom(j, j as int) == 1,
    decreases j,
{
    if j > 0 {
        lemma_binom_top((j - 1) as nat);
        assert(binom((j - 1) as nat, j as int) == 0);
    }
}

/// The two end terms of the expansion: `c^j` and `a^j`.
proof fn lemma_binom_term_ends(a: int, c: int, j: nat)
    ensures
        binom_term(a, c, j, 0) == mono(c, j),
        binom_term(a, c, j, j) == mono(a, j),
{
    lemma_binom_edge(j);
    lemma_binom_top(j);
    assert(mono(a, 0) == 1 && mono(c, 0) == 1);
    assert(binom(j, 0) * mono(c, j) * mono(a, 0) == mono(c, j)) by (nonlinear_arith)
        requires
            binom(j, 0) == 1,
            mono(a, 0) == 1,
    {}
    assert(binom(j, j as int) * mono(c, 0) * mono(a, j) == mono(a, j)) by (nonlinear_arith)
        requires
            binom(j, j as int) == 1,
            mono(c, 0) == 1,
    {}
}

/// The binomial theorem: `(a + c)^j == sum_{0 <= k <= j} C(j, k) * c^(j - k) * a^k`.
proof fn lemma_binomial(a: int, c: int, j: nat)
    ensures
        mono(a + c, j) == binom_sum(a, c, j, j + 1),
    decreases j,
{
    if j == 0 {
        assert(binom_sum(a, c, 0, 0) == 0);
        assert(binom_sum(a, c, 0, 1) == binom_term(a, c, 0, 0));
        assert(binom(0, 0) == 1);
        assert(mono(c, 0) == 1 && mono(a, 0) == 1);
        assert(binom_term(a, c, 0, 0) == 1);
    } else {
        let j0 = (j - 1) as nat;
        lemma_binomial(a, c, j0);
        lemma_binom_sum_step(a, c, j0, j + 1);
        let s = binom_sum(a, c, j0, j);
        assert(binom_sum(a, c, j0, j + 1) == s + binom_term(a, c, j0, j));
        assert(binom_term(a, c, j0, j) == 0);
        assert(mono(a + c, j) == (a + c) * mono(a + c, j0));
        assert((a + c) * s == c * s + a * s) by (nonlinear_arith);
    }
}

/// The binomial theorem written out for the powers up to six that the exactness proofs use,
/// with the powers of the shift `c` spelled out.
#[verifier::spinoff_prover]
proof fn lemma_shift_expansion(a: int, c: int)
    ensures
        mono(c, 1) == c,
        mono(c, 2) == c * c,
        mono(c, 3) == c * c * c,
        mono(c, 4) == c * c * c * c,
        mono(c, 5) == c * c * c * c * c,
        mono(c, 6) == c * c * c * c * c * c,
        mono(a + c, 1) == mono(a, 1) + mono(c, 1),
        mono(a + c, 2) == mono(a, 2) + 2 * mono(c, 1) * mono(a, 1) + mono(c, 2),
        mono(a + c, 3) == mono(a, 3) + 3 * mono(c, 1) * mono(a, 2) + 3 * mono(c, 2) * mono(a, 1) + mono(c, 3),
        mono(a + c, 4) == mono(a, 4) + 4 * mono(c, 1) * mono(a, 3) + 6 * mono(c, 2) * mono(a, 2) + 4 * mono(c, 3) * mono(a, 1) + mono(c, 4),
        mono(a + c, 5) == mono(a, 5) + 5 * mono(c, 1) * mono(a, 4) + 10 * mono(c, 2) * mono(a, 3) + 10 * mono(c, 3) * mono(a, 2) + 5 * mono(c, 4) * mono(a, 1) + mono(c, 5),
        mono(a + c, 6) == mono(a, 6) + 6 * mono(c, 1) * mono(a, 5) + 15 * mono(c, 2) * mono(a, 4) + 20 * mono(c, 3) * mono(a, 3) + 15 * mono(c, 4) * mono(a, 2) + 6 * mono(c, 5) * mono(a, 1) + mono(c, 6),
{
    reveal_with_fuel(binom, 7);
    reveal_with_fuel(binom_sum, 8);
    assert(mono(c, 0) == 1 && mono(a, 0) == 1);
    assert(mono(c, 1) == c);
    assert(mono(c, 2) == c * c) by (nonlinear_arith)
        requires
            mono(c, 2) == c * mono(c, 1),
            mono(c, 1) == c,
    {}
    assert(mono(c, 3) == c * c * c) by (nonlinear_arith)
        requires
            mono(c, 3) == c * mono(c, 2),
            mono(c, 2) == c * c,
    {}
    assert(mono(c, 4) == c * c * c * c) by (nonlinear_arith)
        requires
            mono(c, 4) == c * mono(c, 3),
            mono(c, 3) == c * c * c,
    {}
    assert(mono(c, 5) == c * c * c * c * c) by (nonlinear_arith)
        requires
            mono(c, 5) == c * mono(c, 4),
            mono(c, 4) == c * c * c * c,
    {}
    assert(mono(c, 6) == c * c * c * c * c * c) by (nonlinear_arith)
        requires
            mono(c, 6) == c * mono(c, 5),
            mono(c, 5) == c * c * c * c * c,
    {}
    lemma_binomial(a, c, 1);
    lemma_binom_term_ends(a, c, 1);
    lemma_binomial(a, c, 2);
    lemma_binom_term_ends(a, c, 2);
    lemma_binomial(a, c, 3);
    lemma_binom_term_ends(a, c, 3);
    lemma_binomial(a, c, 4);
    lemma_binom_term_ends(a, c, 4);
    lemma_binomial(a, c, 5);
    lemma_binom_term_ends(a, c, 5);
    lemma_binomial(a, c, 6);
    lemma_binom_term_ends(a, c, 6);
}

proof fn lemma_weighted_sum_interior(method: IterativeMethod, n: int, y: spec_fn(int) -> int, m: nat)
    requires
        1 <= m <= n,
    ensures
        weighted_sum(method, n, y, m) == endpoint_weight(method) * y(0) + interior_sum(method, y, m),
    decreases m,
{
    if m > 1 {
        lemma_weighted_sum_interior(method, n, y, (m - 1) as nat);
    } else {
        reveal_with_fuel(weighted_sum, 2);
    }
}

/// The rule's weighted sum is the two end samples with the end weight plus the interior sum.
proof fn lemma_rule_sum_split(method: IterativeMethod, n: nat, y: spec_fn(int) -> int)
    requires
        n >= 1,
    ensures
        rule_sum(method, n, y) == endpoint_weight(method) * y(0) + interior_sum(method, y, n)
            + endpoint_weight(method) * y(n as int),
{
    lemma_weighted_sum_interior(method, n as int, y, n);
}

/// On one panel the composite rule is the simple rule.
proof fn lemma_rule_sum_one_panel(method: IterativeMethod, y: spec_fn(int) -> int)
    ensures
        rule_sum(method, panel_steps(method), y) == panel_sum(method, y, 0),
{
    reveal_with_fuel(weighted_sum, 6);
}

proof fn lemma_interior_step(method: IterativeMethod, y: spec_fn(int) -> int, m: int)
    requires
        m >= 2,
    ensures
        interior_sum(method, y, m as nat) == interior_sum(method, y, (m - 1) as nat) + interior_weight(method, m - 1)
            * y(m - 1),
{
}

/// Adding one panel to a chain of `m` panels adds the simple rule on the new panel.
#[verifier::spinoff_prover]
proof fn lemma_rule_sum_add_panel(method: IterativeMethod, y: spec_fn(int) -> int, m: nat)
    requires
        m >= 1,
    ensures
        rule_sum(method, panel_steps(method) * (m + 1), y) == rule_sum(method, panel_steps(method) * m, y)
            + panel_sum(method, y, (panel_steps(method) * m) as int),
{
    let p = panel_steps(method);
    let a: int = (p * m) as int;
    assert(p * (m + 1) == a + p) by (nonlinear_arith)
        requires
            a == p * m,
    {}
    assert(a >= 1) by (nonlinear_arith)
        requires
            a == p * m,
            p >= 1,
            m >= 1,
    {}
    lemma_rule_sum_split(method, (a + p) as nat, y);
    lemma_rule_sum_split(method, a as nat, y);
    match method {
        IterativeMethod::Booles => {
            assert(a % 4 == 0) by (nonlinear_arith)
                requires
                    a == 4 * m,
            {}
            lemma_interior_step(method, y, a + 1);
            lemma_interior_step(method, y, a + 2);
            lemma_interior_step(method, y, a + 3);
            lemma_interior_step(method, y, a + 4);
            assert(interior_weight(method, a) == 14);
            assert(interior_weight(method, a + 1) == 32);
            assert(interior_weight(method, a + 2) == 12);
            assert(interior_weight(method, a + 3) == 32);
        },
        IterativeMethod::Simpsons => {
            assert(a % 3 == 0) by (nonlinear_arith)
                requires
                    a == 3 * m,
            {}
            lemma_interior_step(method, y, a + 1);
            lemma_interior_step(method, y, a + 2);
            lemma_interior_step(method, y, a + 3);
            assert(interior_weight(method, a) == 2);
            assert(interior_weight(method, a + 1) == 3);
            assert(interior_weight(method, a + 2) == 3);
        },
        IterativeMethod::Trapezoidal => {
            lemma_interior_step(method, y, a + 1);
        },
    }
}

proof fn lemma_factor(x: int, k: int, y: int)
    requires
        x == k,
    ensures
        x * y == k * y,
{
}

/// The simple rule on one panel integrates `x^j` exactly for `j` up to the rule's degree:
/// `numerator * (j + 1) * panel_sum == denominator * ((a + P)^(j + 1) - a^(j + 1))`.
#[verifier::spinoff_prover]
proof fn lemma_panel_exact_monomial(method: IterativeMethod, a: int, j: nat)
    requires
        j <= exact_degree(method),
    ensures
        scale_numerator(method) * (j + 1) * panel_sum(method, |k: int| mono(k, j), a) == scale_denominator(
            method,
        ) * (mono(a + panel_steps(method), j + 1) - mono(a, j + 1)),
{
    let s = panel_sum(method, |k: int| mono(k, j), a);
    let d = mono(a + panel_steps(method), j + 1) - mono(a, j + 1);
    match method {
        IterativeMethod::Booles => {
            lemma_factor(scale_numerator(method), 2, (j + 1) as int);
            lemma_factor(scale_denominator(method), 45, d);
            if j == 0 {
                reveal_with_fuel(mono, 1);
                lemma_shift_expansion(a, 4);
                assert(s == 7 * mono(a, 0) + 32 * mono(a + 1, 0) + 12 * mono(a + 2, 0) + 32 * mono(a + 3, 0) + 7 * mono(a + 4, 0));
                assert(2 * (7 * mono(a, 0) + 32 * mono(a + 1, 0) + 12 * mono(a + 2, 0) + 32 * mono(a + 3, 0) + 7 * mono(a + 4, 0)) == 180);
                assert(45 * d == 180);
                lemma_factor(scale_numerator(method) * (j + 1), 2, s);
            } else if j == 1 {
                lemma_shift_expansion(a, 1);
                lemma_shift_expansion(a, 2);
                lemma_shift_expansion(a, 3);
                lemma_shift_expansion(a, 4);
                assert(s == 7 * mono(a, 1) + 32 * mono(a + 1, 1) + 12 * mono(a + 2, 1) + 32 * mono(a + 3, 1) + 7 * mono(a + 4, 1));
                assert(4 * (7 * mono(a, 1) + 32 * mono(a + 1, 1) + 12 * mono(a + 2, 1) + 32 * mono(a + 3, 1) + 7 * mono(a + 4, 1)) == 360 * mono(a, 1) + 720);
                assert(45 * d == 360 * mono(a, 1) + 720);
                lemma_factor(scale_numerator(method) * (j + 1), 4, s);
            } else if j == 2 {
                lemma_shift_expansion(a, 1);
                lemma_shift_expansion(a, 2);
                lemma_shift_expansion(a, 3);
                lemma_shift_expansion(a, 4);
                assert(s == 7 * mono(a, 2) + 32 * mono(a + 1, 2) + 12 * mono(a + 2, 2) + 32 * mono(a + 3, 2) + 7 * mono(a + 4, 2));
                assert(6 * (7 * mono(a, 2) + 32 * mono(a + 1, 2) + 12 * mono(a + 2, 2) + 32 * mono(a + 3, 2) + 7 * mono(a + 4, 2)) == 540 * mono(a, 2) + 2160 * mono(a, 1) + 2880);
                assert(45 * d == 540 * mono(a, 2) + 2160 * mono(a, 1) + 2880);
                lemma_factor(scale_numerator(method) * (j + 1), 6, s);
            } else if j == 3 {
                lemma_shift_expansion(a, 1);
                assert(mono(a + 1, 3) == mono(a, 3) + 3 * mono(a, 2) + 3 * mono(a, 1) + 1);
                lemma_shift_expansion(a, 2);
                assert(mono(a + 2, 3) == mono(a, 3) + 6 * mono(a, 2) + 12 * mono(a, 1) + 8);
                lemma_shift_expansion(a, 3);
                assert(mono(a + 3, 3) == mono(a, 3) + 9 * mono(a, 2) + 27 * mono(a, 1) + 27);
                lemma_shift_expansion(a, 4);
                assert(mono(a + 4, 3) == mono(a, 3) + 12 * mono(a, 2) + 48 * mono(a, 1) + 64);
                assert(mono(a + 4, 4) == mono(a, 4) + 16 * mono(a, 3) + 96 * mono(a, 2) + 256 * mono(a, 1) + 256);
                assert(s == 7 * mono(a, 3) + 32 * mono(a + 1, 3) + 12 * mono(a + 2, 3) + 32 * mono(a + 3, 3) + 7 * mono(a + 4, 3));
                assert(8 * (7 * mono(a, 3) + 32 * mono(a + 1, 3) + 12 * mono(a + 2, 3) + 32 * mono(a + 3, 3) + 7 * mono(a + 4, 3)) == 720 * mono(a, 3) + 4320 * mono(a, 2) + 11520 * mono(a, 1) + 11520);
                assert(45 * d == 720 * mono(a, 3) + 4320 * mono(a, 2) + 11520 * mono(a, 1) + 11520);
                lemma_factor(scale_numerator(method) * (j + 1), 8, s);
            } else if j == 4 {
                lemma_shift_expansion(a, 1);
                assert(mono(a + 1, 4) == mono(a, 4) + 4 * mono(a, 3) + 6 * mono(a, 2) + 4 * mono(a, 1) + 1);
                lemma_shift_expansion(a, 2);
                assert(mono(a + 2, 4) == mono(a, 4) + 8 * mono(a, 3) + 24 * mono(a, 2) + 32 * mono(a, 1) + 16);
                lemma_shift_expansion(a, 3);
                assert(mono(a + 3, 4) == mono(a, 4) + 12 * mono(a, 3) + 54 * mono(a, 2) + 108 * mono(a, 1) + 81);
                lemma_shift_expansion(a, 4);
                assert(mono(a + 4, 4) == mono(a, 4) + 16 * mono(a, 3) + 96 * mono(a, 2) + 256 * mono(a, 1) + 256);
                assert(mono(a + 4, 5) == mono(a, 5) + 20 * mono(a, 4) + 160 * mono(a, 3) + 640 * mono(a, 2) + 1280 * mono(a, 1) + 1024);
                assert(s == 7 * mono(a, 4) + 32 * mono(a + 1, 4) + 12 * mono(a + 2, 4) + 32 * mono(a + 3, 4) + 7 * mono(a + 4, 4));
                assert(10 * (7 * mono(a, 4) + 32 * mono(a + 1, 4) + 12 * mono(a + 2, 4) + 32 * mono(a + 3, 4) + 7 * mono(a + 4, 4)) == 900 * mono(a, 4) + 7200 * mono(a, 3) + 28800 * mono(a, 2) + 57600 * mono(a, 1) + 46080);
                assert(45 * d == 900 * mono(a, 4) + 7200 * mono(a, 3) + 28800 * mono(a, 2) + 57600 * mono(a, 1) + 46080);
                lemma_factor(scale_numerator(method) * (j + 1), 10, s);
            } else {
                lemma_shift_expansion(a, 1);
                assert(mono(a + 1, 5) == mono(a, 5) + 5 * mono(a, 4) + 10 * mono(a, 3) + 10 * mono(a, 2) + 5 * mono(a, 1) + 1);
                lemma_shift_expansion(a, 2);
                assert(mono(a + 2, 5) == mono(a, 5) + 10 * mono(a, 4) + 40 * mono(a, 3) + 80 * mono(a, 2) + 80 * mono(a, 1) + 32);
                lemma_shift_expansion(a, 3);
                assert(mono(a + 3, 5) == mono(a, 5) + 15 * mono(a, 4) + 90 * mono(a, 3) + 270 * mono(a, 2) + 405 * mono(a, 1) + 243);
                lemma_shift_expansion(a, 4);
                assert(mono(a + 4, 5) == mono(a, 5) + 20 * mono(a, 4) + 160 * mono(a, 3) + 640 * mono(a, 2) + 1280 * mono(a, 1) + 1024);
                assert(mono(a + 4, 6) == mono(a, 6) + 24 * mono(a, 5) + 240 * mono(a, 4) + 1280 * mono(a, 3) + 3840 * mono(a, 2) + 6144 * mono(a, 1) + 4096);
                assert(s == 7 * mono(a, 5) + 32 * mono(a + 1, 5) + 12 * mono(a + 2, 5) + 32 * mono(a + 3, 5) + 7 * mono(a + 4, 5));
                assert(12 * (7 * mono(a, 5) + 32 * mono(a + 1, 5) + 12 * mono(a + 2, 5) + 32 * mono(a + 3, 5) + 7 * mono(a + 4, 5)) == 1080 * mono(a, 5) + 10800 * mono(a, 4) + 57600 * mono(a, 3) + 172800 * mono(a, 2) + 276480 * mono(a, 1) + 184320);
                assert(45 * d == 1080 * mono(a, 5) + 10800 * mono(a, 4) + 57600 * mono(a, 3) + 172800 * mono(a, 2) + 276480 * mono(a, 1) + 184320);
                lemma_factor(scale_numerator(method) * (j + 1), 12, s);
            }
        },
        IterativeMethod::Simpsons => {
            lemma_factor(scale_numerator(method), 3, (j + 1) as int);
            lemma_factor(scale_denominator(method), 8, d);
            if j == 0 {
                reveal_with_fuel(mono, 1);
                lemma_shift_expansion(a, 3);
                assert(s == mono(a, 0) + 3 * mono(a + 1, 0) + 3 * mono(a + 2, 0) + mono(a + 3, 0));
                assert(3 * (mono(a, 0) + 3 * mono(a + 1, 0) + 3 * mono(a + 2, 0) + mono(a + 3, 0)) == 24);
                assert(8 * d == 24);
                lemma_factor(scale_numerator(method) * (j + 1), 3, s);
            } else if j == 1 {
                lemma_shift_expansion(a, 1);
                lemma_shift_expansion(a, 2);
                lemma_shift_expansion(a, 3);
                assert(s == mono(a, 1) + 3 * mono(a + 1, 1) + 3 * mono(a + 2, 1) + mono(a + 3, 1));
                assert(6 * (mono(a, 1) + 3 * mono(a + 1, 1) + 3 * mono(a + 2, 1) + mono(a + 3, 1)) == 48 * mono(a, 1) + 72);
                assert(8 * d == 48 * mono(a, 1) + 72);
                lemma_factor(scale_numerator(method) * (j + 1), 6, s);
            } else if j == 2 {
                lemma_shift_expansion(a, 1);
                lemma_shift_expansion(a, 2);
                lemma_shift_expansion(a, 3);
                assert(s == mono(a, 2) + 3 * mono(a + 1, 2) + 3 * mono(a + 2, 2) + mono(a + 3, 2));
                assert(9 * (mono(a, 2) + 3 * mono(a + 1, 2) + 3 * mono(a + 2, 2) + mono(a + 3, 2)) == 72 * mono(a, 2) + 216 * mono(a, 1) + 216);
                assert(8 * d == 72 * mono(a, 2) + 216 * mono(a, 1) + 216);
                lemma_factor(scale_numerator(method) * (j + 1), 9, s);
            } else {
                lemma_shift_expansion(a, 1);
                lemma_shift_expansion(a, 2);
                lemma_shift_expansion(a, 3);
                assert(s == mono(a, 3) + 3 * mono(a + 1, 3) + 3 * mono(a + 2, 3) + mono(a + 3, 3));
                assert(12 * (mono(a, 3) + 3 * mono(a + 1, 3) + 3 * mono(a + 2, 3) + mono(a + 3, 3)) == 96 * mono(a, 3) + 432 * mono(a, 2) + 864 * mono(a, 1) + 648);
                assert(8 * d == 96 * mono(a, 3) + 432 * mono(a, 2) + 864 * mono(a, 1) + 648);
                lemma_factor(scale_numerator(method) * (j + 1), 12, s);
            }
        },
        IterativeMethod::Trapezoidal => {
            lemma_factor(scale_numerator(method), 1, (j + 1) as int);
            lemma_factor(scale_denominator(method), 2, d);
            if j == 0 {
                reveal_with_fuel(mono, 1);
                lemma_shift_expansion(a, 1);
                assert(s == mono(a, 0) + mono(a + 1, 0));
                assert(1 * (mono(a, 0) + mono(a + 1, 0)) == 2);
                assert(2 * d == 2);
                lemma_factor(scale_numerator(method) * (j + 1), 1, s);
            } else {
                lemma_shift_expansion(a, 1);
                assert(s == mono(a, 1) + mono(a + 1, 1));
                assert(2 * (mono(a, 1) + mono(a + 1, 1)) == 4 * mono(a, 1) + 2);
                assert(2 * d == 4 * mono(a, 1) + 2);
                lemma_factor(scale_numerator(method) * (j + 1), 2, s);
            }
        },
    }
}

/// A chain of `m` panels integrates `x^j` over `[0, P * m]` exactly.
proof fn lemma_chain_exact_monomial(method: IterativeMethod, m: nat, j: nat)
    requires
        m >= 1,
        j <= exact_degree(method),
    ensures
        scale_numerator(method) * (j + 1) * rule_sum(method, panel_steps(method) * m, |k: int| mono(k, j))
            == scale_denominator(method) * mono((panel_steps(method) * m) as int, j + 1),
    decreases m,
{
    let y = |k: int| mono(k, j);
    let p = panel_steps(method);
    let c = scale_numerator(method) * (j + 1);
    if m == 1 {
        lemma_rule_sum_one_panel(method, y);
        lemma_panel_exact_monomial(method, 0, j);
        assert(mono(0, j + 1) == 0 * mono(0, j));
        assert(p * m == p);
    } else {
        let m0 = (m - 1) as nat;
        lemma_chain_exact_monomial(method, m0, j);
        lemma_rule_sum_add_panel(method, y, m0);
        lemma_panel_exact_monomial(method, (p * m0) as int, j);
        assert(p * m0 + p == p * m) by (nonlinear_arith)
            requires
                m0 + 1 == m,
        {}
        assert(c * rule_sum(method, p * m, y) == c * rule_sum(method, p * m0, y) + c * panel_sum(method, y, (p * m0) as int)) by (nonlinear_arith)
            requires
                rule_sum(method, p * m, y) == rule_sum(method, p * m0, y) + panel_sum(method, y, (p * m0) as int),
        {}
    }
}

/// Exactness of the composite rules: on `n` steps, `n` a whole number of panels, each rule
/// integrates `x^j` over `[0, n]` exactly for every `j` up to its degree (5 for Boole's rule,
/// 3 for Simpson's 3/8 rule, 1 for the trapezoidal rule):
/// `numerator / denominator * sum_k w_k * k^j == n^(j + 1) / (j + 1)`.
/// With [`lemma_rule_linear`] this covers every polynomial of that degree in the node index `k`;
/// the integrators sample at `lo + k * step`, and a polynomial in that abscissa is a polynomial
/// of the same degree in `k`.
pub proof fn lemma_rule_exact_on_monomials(method: IterativeMethod, n: nat, j: nat)
    requires
        n > 0,
        n % panel_steps(method) == 0,
        j <= exact_degree(method),
    ensures
        scale_numerator(method) * (j + 1) * rule_sum(method, n, |k: int| mono(k, j)) == scale_denominator(method)
            * mono(n as int, j + 1),
{
    let p = panel_steps(method);
    let m = n / p;
    assert(n == p * m) by (nonlinear_arith)
        requires
            n % p == 0,
            m == n / p,
            p >= 1,
    {}
    assert(m >= 1) by (nonlinear_arith)
        requires
            n == p * m,
            n > 0,
    {}
    lemma_chain_exact_monomial(method, m, j);
}

/// The rule's weighted sum is linear in the samples.
pub proof fn lemma_rule_linear(
    method: IterativeMethod,
    n: nat,
    y1: spec_fn(int) -> int,
    y2: spec_fn(int) -> int,
    s1: int,
    s2: int,
)
    ensures
        rule_sum(method, n, |k: int| s1 * y1(k) + s2 * y2(k)) == s1 * rule_sum(method, n, y1) + s2 * rule_sum(
            method,
            n,
            y2,
        ),
{
    lemma_weighted_sum_linear(method, n as int, y1, y2, s1, s2, n + 1);
}

proof fn lemma_weighted_sum_linear(
    method: IterativeMethod,
    n: int,
    y1: spec_fn(int) -> int,
    y2: spec_fn(int) -> int,
    s1: int,
    s2: int,
    m: nat,
)
    ensures
        weighted_sum(method, n, |k: int| s1 * y1(k) + s2 * y2(k), m) == s1 * weighted_sum(method, n, y1, m) + s2
            * weighted_sum(method, n, y2, m),
    decreases m,
{
    if m > 0 {
        let k = m - 1;
        lemma_weighted_sum_linear(method, n, y1, y2, s1, s2, (m - 1) as nat);
        let w = node_weight(method, n, k);
        let a = weighted_sum(method, n, y1, (m - 1) as nat);
        let b = weighted_sum(method, n, y2, (m - 1) as nat);
        assert(s1 * (a + w * y1(k)) + s2 * (b + w * y2(k)) == s1 * a + s2 * b + w * (s1 * y1(k) + s2 * y2(k)))
            by (nonlinear_arith);
    }
}

} // verus!
