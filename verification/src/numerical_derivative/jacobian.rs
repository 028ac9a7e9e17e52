use vstd::prelude::*;

use crate::numerical_derivative::derivator::DerivatorMultiVariable;
use crate::utils::error_codes::CalcError;

verus! {

/// `derivator` may answer `answer` when asked (through its `get`, with the single index `[idx]`)
/// for the first partial derivative of `func` along variable `idx` at `point`.
pub open spec fn single_partial_answers<D: DerivatorMultiVariable, F: Fn(&[D::Scalar; NUM_VARS]) -> D::Scalar, const NUM_VARS: usize>(
    derivator: D,
    func: F,
    idx: usize,
    point: [D::Scalar; NUM_VARS],
    answer: Result<D::Scalar, CalcError>,
) -> bool {
    call_ensures(D::get::<F, NUM_VARS, 1>, (&derivator, &func, &[idx], &point), answer)
}

/// `derivator` may answer with a value (no error) when asked (through its `get`, with the
/// single index `[idx]`) for the first partial derivative of `func` at `point`.
pub open spec fn single_partial_succeeds<D: DerivatorMultiVariable, F: Fn(&[D::Scalar; NUM_VARS]) -> D::Scalar, const NUM_VARS: usize>(
    derivator: D,
    func: F,
    idx: usize,
    point: [D::Scalar; NUM_VARS],
) -> bool {
    exists|v: D::Scalar| single_partial_answers(derivator, func, idx, point, Ok(v))
}

/// Computes Jacobian matrices with the derivator `D`.
pub struct Jacobian<D> {
    derivator: D,
}

impl<D: DerivatorMultiVariable + Default> Default for Jacobian<D> {
    fn default() -> (r: Self)
        ensures
            call_ensures(D::default, (), r.spec_derivator()),
    {
        Jacobian { derivator: D::default() }
    }
}

impl<D: DerivatorMultiVariable> Jacobian<D> {
    /// The derivator the Jacobian is computed with.
    pub closed spec fn spec_derivator(self) -> D {
        self.derivator
    }

    /// Builds a Jacobian computed with an explicit derivator.
    pub fn from_derivator(derivator: D) -> (r: Self)
        ensures
            r.spec_derivator() == derivator,
    {
        Jacobian { derivator }
    }

    /// Returns the Jacobian matrix of a set of functions at a point, on the heap: one row per
    /// function and one column per variable, so entry `[m][n]` is
    /// `d(function m) / d(variable n)`.
    ///
    /// # Errors
    /// [`CalcError::EmptyFunctionSet`] if `function_matrix` is empty; otherwise the first error
    /// the derivator reports, row by row and column by column.
    pub fn get_on_heap<F: Fn(&[D::Scalar; NUM_VARS]) -> D::Scalar, const NUM_VARS: usize>(
        &self,
        function_matrix: &[F],
        vector_of_points: &[D::Scalar; NUM_VARS],
    ) -> (r: Result<Vec<Vec<D::Scalar>>, CalcError>)
        ensures
            function_matrix@.len() == 0 ==> r == Err::<Vec<Vec<D::Scalar>>, CalcError>(CalcError::EmptyFunctionSet),
            r matches Ok(m) ==> {
                &&& m@.len() == function_matrix@.len()
                &&& forall|i: int| #![trigger m@[i]] 0 <= i < m@.len() ==> m@[i]@.len() == NUM_VARS
                &&& forall|i: int, j: int|
                    0 <= i < m@.len() && 0 <= j < NUM_VARS ==> single_partial_answers(
                        self.spec_derivator(),
                        function_matrix@[i],
                        j as usize,
                        *vector_of_points,
                        Ok(#[trigger] m@[i]@[j]),
                    )
            },
            r matches Err(e) ==> function_matrix@.len() == 0 || exists|i: int, j: int|
                #![trigger single_partial_answers(self.spec_derivator(), function_matrix@[i], j as usize, *vector_of_points, Err(e))]
                {
                    &&& 0 <= i < function_matrix@.len()
                    &&& 0 <= j < NUM_VARS
                    &&& single_partial_answers(
                        self.spec_derivator(),
                        function_matrix@[i],
                        j as usize,
                        *vector_of_points,
                        Err(e),
                    )
                    &&& forall|k: int, l: int|
                        0 <= k <= i && 0 <= l < NUM_VARS && (k < i || l < j) ==> #[trigger] single_partial_succeeds(
                            self.spec_derivator(),
                            function_matrix@[k],
                            l as usize,
                            *vector_of_points,
                        )
                },
    {
        if function_matrix.len() == 0 {
            return Err(CalcError::EmptyFunctionSet);
        }
        let mut result: Vec<Vec<D::Scalar>> = Vec::new();
        let mut row: usize = 0;
        while row < function_matrix.len()
            invariant
                row <= function_matrix@.len(),
                result@.len() == row,
                forall|i: int| #![trigger result@[i]] 0 <= i < row ==> result@[i]@.len() == NUM_VARS,
                forall|i: int, j: int|
                    0 <= i < row && 0 <= j < NUM_VARS ==> single_partial_answers(
                        self.spec_derivator(),
                        function_matrix@[i],
                        j as usize,
                        *vector_of_points,
                        Ok(#[trigger] result@[i]@[j]),
                    ),
            decreases function_matrix@.len() - row,
        {
            let mut cur_row: Vec<D::Scalar> = Vec::new();
            let mut col: usize = 0;
            while col < NUM_VARS
                invariant
                    row < function_matrix@.len(),
                    col <= NUM_VARS,
                    result@.len() == row,
                    forall|i: int| #![trigger result@[i]] 0 <= i < row ==> result@[i]@.len() == NUM_VARS,
                    forall|i: int, j: int|
                        0 <= i < row && 0 <= j < NUM_VARS ==> single_partial_answers(
                            self.spec_derivator(),
                            function_matrix@[i],
                            j as usize,
                            *vector_of_points,
                            Ok(#[trigger] result@[i]@[j]),
                        ),
                    cur_row@.len() == col,
                    forall|j: int|
                        0 <= j < col ==> single_partial_answers(
                            self.spec_derivator(),
                            function_matrix@[row as int],
                            j as usize,
                            *vector_of_points,
                            Ok(#[trigger] cur_row@[j]),
                        ),
                decreases NUM_VARS - col,
            {
                match self.derivator.get(&function_matrix[row], &[col], vector_of_points) {
                    Ok(v) => cur_row.push(v),
                    Err(e) => {
                        assert forall|k: int, l: int|
                            0 <= k <= row && 0 <= l < NUM_VARS && (k < row || l < col) implies #[trigger] single_partial_succeeds(
                                self.spec_derivator(),
                                function_matrix@[k],
                                l as usize,
                                *vector_of_points,
                            ) by {
                            if k < row {
                                let v = result@[k]@[l];
                                assert(single_partial_answers(self.spec_derivator(), function_matrix@[k], l as usize, *vector_of_points, Ok(v)));
                            } else {
                                let v = cur_row@[l];
                                assert(single_partial_answers(self.spec_derivator(), function_matrix@[k], l as usize, *vector_of_points, Ok(v)));
                            }
                        }
                        assert(single_partial_answers(
                            self.spec_derivator(),
                            function_matrix@[row as int],
                            (col as int) as usize,
                            *vector_of_points,
                            Err(e),
                        ));
                        return Err(e);
                    },
                }
                col += 1;
            }
            result.push(cur_row);
            row += 1;
        }
        Ok(result)
    }
}

} // verus!
