use vstd::prelude::*;

use crate::numerical_derivative::derivator::DerivatorMultiVariable;
use crate::utils::error_codes::CalcError;

verus! {

/// `derivator` may answer `answer` when asked (through its `get`, with the indices
/// `[first, second]`) for the second partial derivative of `func` along variables `first` and
/// `second` at `point`.
pub open spec fn double_partial_answers<D: DerivatorMultiVariable, F: Fn(&[D::Scalar; NUM_VARS]) -> D::Scalar, const NUM_VARS: usize>(
    derivator: D,
    func: F,
    first: usize,
    second: usize,
    point: [D::Scalar; NUM_VARS],
    answer: Result<D::Scalar, CalcError>,
) -> bool {
    call_ensures(D::get::<F, NUM_VARS, 2>, (&derivator, &func, &[first, second], &point), answer)
}

/// `derivator` may answer with a value (no error) when asked (through its `get`, with the
/// indices `[first, second]`) for the second partial derivative of `func` at `point`.
pub open spec fn double_partial_succeeds<D: DerivatorMultiVariable, F: Fn(&[D::Scalar; NUM_VARS]) -> D::Scalar, const NUM_VARS: usize>(
    derivator: D,
    func: F,
    first: usize,
    second: usize,
    point: [D::Scalar; NUM_VARS],
) -> bool {
    exists|v: D::Scalar| double_partial_answers(derivator, func, first, second, point, Ok(v))
}

/// The pair `(k, l)` of the upper triangle (`k <= l`) is asked for before the pair `(i, j)`
/// when the triangle is walked row by row, each row from left to right.
pub open spec fn pair_comes_before(k: int, l: int, i: int, j: int) -> bool {
    k <= l && (k < i || (k == i && l < j))
}

/// The derivator may answer every pair of the diagonal and upper triangle with a value.
pub open spec fn hessian_succeeds<D: DerivatorMultiVariable, F: Fn(&[D::Scalar; NUM_VARS]) -> D::Scalar, const NUM_VARS: usize>(
    derivator: D,
    function: F,
    point: [D::Scalar; NUM_VARS],
) -> bool {
    forall|k: int, l: int|
        0 <= k <= l < NUM_VARS ==> #[trigger] double_partial_succeeds(derivator, function, k as usize, l as usize, point)
}

/// `r` is what building the Hessian of `function` at `point` from `derivator` may give: on
/// `Ok`, a symmetric square matrix whose entry `[i][j]` (`i <= j`) is an answer of the
/// derivator's `get` with the indices `[i, j]`; on `Err`, the first error of the walk over the
/// diagonal and upper triangle, row by row: the derivator gave that error for one pair, and a
/// value for every pair before it.
pub open spec fn hessian_answers<D: DerivatorMultiVariable, F: Fn(&[D::Scalar; NUM_VARS]) -> D::Scalar, const NUM_VARS: usize>(
    derivator: D,
    function: F,
    point: [D::Scalar; NUM_VARS],
    r: Result<Vec<Vec<D::Scalar>>, CalcError>,
) -> bool {
    &&& r matches Ok(m) ==> {
        &&& m@.len() == NUM_VARS
        &&& forall|i: int| #![trigger m@[i]] 0 <= i < NUM_VARS ==> m@[i]@.len() == NUM_VARS
        &&& forall|i: int, j: int|
            0 <= i <= j < NUM_VARS ==> double_partial_answers(
                derivator,
                function,
                i as usize,
                j as usize,
                point,
                Ok(#[trigger] m@[i]@[j]),
            )
        &&& forall|i: int, j: int| 0 <= i < NUM_VARS && 0 <= j < NUM_VARS ==> #[trigger] m@[i]@[j] == m@[j]@[i]
    }
    &&& r matches Err(e) ==> exists|i: int, j: int|
        #![trigger double_partial_answers(derivator, function, i as usize, j as usize, point, Err(e))]
        {
            &&& 0 <= i <= j < NUM_VARS
            &&& double_partial_answers(derivator, function, i as usize, j as usize, point, Err(e))
            &&& forall|k: int, l: int|
                0 <= k && l < NUM_VARS && pair_comes_before(k, l, i, j) ==> #[trigger] double_partial_succeeds(
                    derivator,
                    function,
                    k as usize,
                    l as usize,
                    point,
                )
        }
}

/// Computes Hessian matrices with the derivator `D`.
pub struct Hessian<D> {
    derivator: D,
}

impl<D: DerivatorMultiVariable + Default> Default for Hessian<D> {
    fn default() -> (r: Self)
        ensures
            call_ensures(D::default, (), r.spec_derivator()),
    {
        Hessian { derivator: D::default() }
    }
}

impl<D: DerivatorMultiVariable> Hessian<D> {
    /// The derivator the Hessian is computed with.
    pub closed spec fn spec_derivator(self) -> D {
        self.derivator
    }

    /// Builds a Hessian computed with an explicit derivator.
    pub fn from_derivator(derivator: D) -> (r: Self)
        ensures
            r.spec_derivator() == derivator,
    {
        Hessian { derivator }
    }

    /// Returns the Hessian matrix of `function` at a point: entry `[i][j]` is
    /// `d²(function) / d(variable i) d(variable j)`. Only the diagonal and the upper triangle
    /// are computed, row by row; the lower triangle mirrors them, so the result is symmetric.
    ///
    /// # Errors
    /// The first error the derivator reports.
    pub fn get<F: Fn(&[D::Scalar; NUM_VARS]) -> D::Scalar, const NUM_VARS: usize>(
        &self,
        function: &F,
        vector_of_points: &[D::Scalar; NUM_VARS],
    ) -> (r: Result<Vec<Vec<D::Scalar>>, CalcError>)
        ensures
            hessian_answers(self.spec_derivator(), *function, *vector_of_points, r),
    {
        collect_hessian(&self.derivator, function, vector_of_points)
    }
}

/// Asks `derivator` for the second partial derivatives of `function` at `vector_of_points`,
/// row by row, for the diagonal and upper triangle only; the lower triangle mirrors them.
/// Stops at the first error.
pub(crate) fn collect_hessian<D: DerivatorMultiVariable, F: Fn(&[D::Scalar; NUM_VARS]) -> D::Scalar, const NUM_VARS: usize>(
    derivator: &D,
    function: &F,
    vector_of_points: &[D::Scalar; NUM_VARS],
) -> (r: Result<Vec<Vec<D::Scalar>>, CalcError>)
    ensures
        hessian_answers(*derivator, *function, *vector_of_points, r),
{
    let mut result: Vec<Vec<D::Scalar>> = Vec::new();
    let mut row: usize = 0;
    while row < NUM_VARS
        invariant
            row <= NUM_VARS,
            result@.len() == row,
            forall|i: int| #![trigger result@[i]] 0 <= i < row ==> result@[i]@.len() == NUM_VARS,
            forall|i: int, j: int|
                0 <= i < row && i <= j < NUM_VARS ==> double_partial_answers(
                    *derivator,
                    *function,
                    i as usize,
                    j as usize,
                    *vector_of_points,
                    Ok(#[trigger] result@[i]@[j]),
                ),
            forall|i: int, j: int|
                0 <= j < i < row ==> #[trigger] result@[i]@[j] == result@[j]@[i],
        decreases NUM_VARS - row,
    {
        let mut cur_row: Vec<D::Scalar> = Vec::new();
        let mut col: usize = 0;
        while col < NUM_VARS
            invariant
                row < NUM_VARS,
                col <= NUM_VARS,
                result@.len() == row,
                forall|i: int| #![trigger result@[i]] 0 <= i < row ==> result@[i]@.len() == NUM_VARS,
                forall|i: int, j: int|
                    0 <= i < row && i <= j < NUM_VARS ==> double_partial_answers(
                        *derivator,
                        *function,
                        i as usize,
                        j as usize,
                        *vector_of_points,
                        Ok(#[trigger] result@[i]@[j]),
                    ),
                cur_row@.len() == col,
                forall|j: int|
                    row <= j < col ==> double_partial_answers(
                        *derivator,
                        *function,
                        row,
                        j as usize,
                        *vector_of_points,
                        Ok(#[trigger] cur_row@[j]),
                    ),
                forall|j: int| 0 <= j < col && j < row ==> #[trigger] cur_row@[j] == result@[j]@[row as int],
            decreases NUM_VARS - col,
        {
            if col < row {
                let v = result[col][row];
                cur_row.push(v);
            } else {
                match derivator.get(function, &[row, col], vector_of_points) {
                    Ok(v) => cur_row.push(v),
                    Err(e) => {
                        assert forall|k: int, l: int| 0 <= k && l < NUM_VARS && pair_comes_before(k, l, row as int, col as int) implies
                            #[trigger] double_partial_succeeds(
                                *derivator,
                                *function,
                                k as usize,
                                l as usize,
                                *vector_of_points,
                            ) by {
                            if k < row {
                                let v = result@[k]@[l];
                                assert(double_partial_answers(*derivator, *function, k as usize, l as usize, *vector_of_points, Ok(v)));
                            } else {
                                let v = cur_row@[l];
                                assert(double_partial_answers(*derivator, *function, k as usize, l as usize, *vector_of_points, Ok(v)));
                            }
                        }
                        assert(double_partial_answers(
                            *derivator,
                            *function,
                            (row as int) as usize,
                            (col as int) as usize,
                            *vector_of_points,
                            Err(e),
                        ));
                        return Err(e);
                    },
                }
            }
            col += 1;
        }
        result.push(cur_row);
        row += 1;
    }
    Ok(result)
}

} // verus!
