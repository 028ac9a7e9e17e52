use vstd::prelude::*;

use crate::numerical_derivative::mode::FiniteDifferenceMode;
use crate::utils::error_codes::CalcError;

verus! {

/// The low sample offset, high sample offset (in steps) and divisor factor of a mode.
pub open spec fn spec_offsets(method: FiniteDifferenceMode) -> (int, int, int) {
    match method {
        FiniteDifferenceMode::Forward => (0, 1, 1),
        FiniteDifferenceMode::Backward => (-1, 0, 1),
        FiniteDifferenceMode::Central => (-1, 1, 2),
    }
}

/// Low and high sample offsets (in units of the step size) and the divisor factor for each
/// finite-difference mode: the difference is `(f(x + hi * h) - f(x + lo * h)) / (divisor * h)`.
pub fn offsets(method: FiniteDifferenceMode) -> (r: (i64, i64, i64))
    ensures
        (r.0 as int, r.1 as int, r.2 as int) == spec_offsets(method),
{
    match method {
        FiniteDifferenceMode::Forward => (0, 1, 1),
        FiniteDifferenceMode::Backward => (-1, 0, 1),
        FiniteDifferenceMode::Central => (-1, 1, 2),
    }
}

/// The outcome of the checks a derivative request goes through, in their order: the order
/// must be non-zero, then the step size non-zero, then every index must name a variable.
pub open spec fn spec_check_request(order: nat, step_is_zero: bool, idx: Seq<usize>, num_vars: nat) -> Result<
    (),
    CalcError,
> {
    if order == 0 {
        Err(CalcError::DerivativeOrderZero)
    } else if step_is_zero {
        Err(CalcError::StepSizeZero)
    } else if exists|i: int| 0 <= i < idx.len() && idx[i] >= num_vars {
        Err(CalcError::IndexOutOfRange)
    } else {
        Ok(())
    }
}

/// Checks a request for a derivative of order `order` along the variables `idx` of a
/// function of `num_vars` variables, with a step size that is zero when `step_is_zero`.
pub fn check_request(order: usize, step_is_zero: bool, idx: &[usize], num_vars: usize) -> (r: Result<(), CalcError>)
    ensures
        r == spec_check_request(order as nat, step_is_zero, idx@, num_vars as nat),
        order == 0 ==> r == Err::<(), CalcError>(CalcError::DerivativeOrderZero),
        order != 0 && step_is_zero ==> r == Err::<(), CalcError>(CalcError::StepSizeZero),
        order != 0 && !step_is_zero ==> (r is Ok <==> forall|i: int| 0 <= i < idx@.len() ==> idx@[i] < num_vars),
        order != 0 && !step_is_zero ==> (r == Err::<(), CalcError>(CalcError::IndexOutOfRange) <==> exists|i: int|
            0 <= i < idx@.len() && idx@[i] >= num_vars),
{
    if order == 0 {
        return Err(CalcError::DerivativeOrderZero);
    }
    if step_is_zero {
        return Err(CalcError::StepSizeZero);
    }
    let mut i: usize = 0;
    while i < idx.len()
        invariant
            i <= idx@.len(),
            order != 0,
            !step_is_zero,
            forall|k: int| 0 <= k < i ==> idx@[k] < num_vars,
        decreases idx@.len() - i,
    {
        if idx[i] >= num_vars {
            assert(0 <= i < idx@.len() && idx@[i as int] >= num_vars);
            return Err(CalcError::IndexOutOfRange);
        }
        i += 1;
    }
    Ok(())
}

/// Once the order and the step size pass, a request is refused exactly when one of its indices
/// names no variable (is at least the number of variables), and then with
/// [`CalcError::IndexOutOfRange`]; every other request, repeated indices included, is accepted.
pub proof fn lemma_request_refused_exactly_on_unknown_variable(order: nat, idx: Seq<usize>, num_vars: nat)
    requires
        order != 0,
    ensures
        spec_check_request(order, false, idx, num_vars) is Ok <==> forall|i: int| 0 <= i < idx.len() ==> idx[i] < num_vars,
        spec_check_request(order, false, idx, num_vars) == Err::<(), CalcError>(CalcError::IndexOutOfRange) <==> exists|i: int|
            0 <= i < idx.len() && idx[i] >= num_vars,
        spec_check_request(order, false, idx, num_vars) is Ok || spec_check_request(order, false, idx, num_vars)
            == Err::<(), CalcError>(CalcError::IndexOutOfRange),
{
}

/// Past the order check, the order plays no part: two requests with the same step, indices and
/// number of variables get the same answer whatever their (non-zero) orders.
pub proof fn lemma_request_answer_independent_of_order(
    order1: nat,
    order2: nat,
    step_is_zero: bool,
    idx: Seq<usize>,
    num_vars: nat,
)
    requires
        order1 != 0,
        order2 != 0,
    ensures
        spec_check_request(order1, step_is_zero, idx, num_vars) == spec_check_request(order2, step_is_zero, idx, num_vars),
{
}

/// A request that names no variable (a derivative of a function of one variable) is accepted
/// whenever its order and step size are, whatever the number of variables.
pub proof fn lemma_request_without_indices_accepted(order: nat, num_vars: nat)
    requires
        order != 0,
    ensures
        spec_check_request(order, false, Seq::<usize>::empty(), num_vars) == Ok::<(), CalcError>(()),
{
}

/// Adding an index that names a variable never turns an accepted request into a refused one:
/// in particular the same variable may be asked for again (a pure second partial derivative).
pub proof fn lemma_request_accepts_known_index_added(order: nat, idx: Seq<usize>, extra: usize, num_vars: nat)
    requires
        order != 0,
        spec_check_request(order, false, idx, num_vars) is Ok,
        extra < num_vars,
    ensures
        spec_check_request(order, false, idx.push(extra), num_vars) is Ok,
{
    assert forall|i: int| 0 <= i < idx.push(extra).len() implies idx.push(extra)[i] < num_vars by {
        if i < idx.len() {
            assert(idx.push(extra)[i] == idx[i]);
        }
    }
}

} // verus!
