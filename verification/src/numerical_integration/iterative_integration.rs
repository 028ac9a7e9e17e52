use core::marker::PhantomData;
use vstd::prelude::*;

use crate::numerical_integration::mode::IterativeMethod;
use crate::numerical_integration::newton_cotes::panel_steps;
use crate::utils::error_codes::CalcError;

verus! {

/// Default number of steps. A multiple of 12, so that Boole's rule (panels of 4 steps) and
/// Simpson's 3/8 rule (panels of 3 steps) both cover the interval with whole panels.
pub const DEFAULT_TOTAL_ITERATIONS: u64 = 120;

/// `lower >= upper` may answer `answer` for this pair of limits.
pub open spec fn ge_answers<T: PartialOrd>(lower: T, upper: T, answer: bool) -> bool {
    call_ensures(T::ge, (&lower, &upper), answer)
}

/// Settings of the iterative (composite Newton-Cotes) integrators: how many steps each
/// integration takes and which rule it applies.
#[derive(Clone, Copy, Debug)]
pub struct SingleVariableSolver {
    total_iterations: u64,
    integration_method: IterativeMethod,
}

impl SingleVariableSolver {
    pub closed spec fn spec_total_iterations(self) -> u64 {
        self.total_iterations
    }

    pub closed spec fn spec_integration_method(self) -> IterativeMethod {
        self.integration_method
    }

    /// Returns the number of steps.
    pub fn get_total_iterations(&self) -> (r: u64)
        ensures
            r == self.spec_total_iterations(),
    {
        self.total_iterations
    }

    /// Sets the number of steps.
    pub fn set_total_iterations(&mut self, total_iterations: u64)
        ensures
            final(self).spec_total_iterations() == total_iterations,
            final(self).spec_integration_method() == old(self).spec_integration_method(),
    {
        self.total_iterations = total_iterations;
    }

    /// Returns the chosen rule: Booles, Simpsons or Trapezoidal.
    pub fn get_integration_method(&self) -> (r: IterativeMethod)
        ensures
            r == self.spec_integration_method(),
    {
        self.integration_method
    }

    /// Sets the rule.
    pub fn set_integration_method(&mut self, integration_method: IterativeMethod)
        ensures
            final(self).spec_integration_method() == integration_method,
            final(self).spec_total_iterations() == old(self).spec_total_iterations(),
    {
        self.integration_method = integration_method;
    }

    /// Builds settings with an explicit step count and rule.
    pub fn from_parameters(total_iterations: u64, integration_method: IterativeMethod) -> (r: Self)
        ensures
            r.spec_total_iterations() == total_iterations,
            r.spec_integration_method() == integration_method,
    {
        SingleVariableSolver { total_iterations, integration_method }
    }

    /// Checks that the step count is non-zero and that every limit has its lower bound
    /// strictly below its upper bound. The step count is checked first, so a zero count
    /// reports [`CalcError::IterationsZero`] whatever the limits are.
    pub fn check_for_errors<T: PartialOrd, const NUM_INTEGRATIONS: usize>(
        &self,
        integration_limit: &[[T; 2]; NUM_INTEGRATIONS],
    ) -> (r: Result<(), CalcError>)
        ensures
            self.spec_total_iterations() == 0 <==> r == Err::<(), CalcError>(CalcError::IterationsZero),
            r is Ok || r == Err::<(), CalcError>(CalcError::IterationsZero) || r == Err::<(), CalcError>(
                CalcError::IntegrationLimitsIllDefined,
            ),
            r is Ok ==> forall|i: int|
                0 <= i < NUM_INTEGRATIONS ==> ge_answers(
                    integration_limit[i][0],
                    integration_limit[i][1],
                    false,
                ),
            r == Err::<(), CalcError>(CalcError::IntegrationLimitsIllDefined) ==> exists|i: int|
                0 <= i < NUM_INTEGRATIONS && ge_answers(integration_limit[i][0], integration_limit[i][1], true),
    {
        if self.total_iterations == 0 {
            return Err(CalcError::IterationsZero);
        }
        let mut i: usize = 0;
        while i < NUM_INTEGRATIONS
            invariant
                i <= NUM_INTEGRATIONS,
                self.spec_total_iterations() != 0,
                forall|k: int| 0 <= k < i ==> ge_answers(integration_limit[k][0], integration_limit[k][1], false),
            decreases NUM_INTEGRATIONS - i,
        {
            let limit = &integration_limit[i];
            if limit[0] >= limit[1] {
                return Err(CalcError::IntegrationLimitsIllDefined);
            }
            i += 1;
        }
        Ok(())
    }
}

impl Default for SingleVariableSolver {
    /// Boole's rule on [`DEFAULT_TOTAL_ITERATIONS`] steps, suited to most integrands.
    fn default() -> (r: Self)
        ensures
            r.spec_total_iterations() == DEFAULT_TOTAL_ITERATIONS,
            r.spec_integration_method() == IterativeMethod::Booles,
    {
        SingleVariableSolver {
            total_iterations: DEFAULT_TOTAL_ITERATIONS,
            integration_method: IterativeMethod::Booles,
        }
    }
}

/// The default step count is a whole number of panels for every rule, so each rule is
/// exact on polynomials of its degree at the default setting.
pub proof fn lemma_default_iterations_fill_panels(method: IterativeMethod)
    ensures
        (DEFAULT_TOTAL_ITERATIONS as nat) % panel_steps(method) == 0,
{
}

/// Iterative integrator for functions of one variable; `T` is the scalar type.
#[derive(Debug)]
pub struct IterativeSingle<T> {
    pub config: SingleVariableSolver,
    _marker: PhantomData<T>,
}

impl<T> Clone for IterativeSingle<T> {
    fn clone(&self) -> (r: Self)
        ensures
            r == *self,
    {
        IterativeSingle { config: self.config, _marker: PhantomData }
    }
}

impl<T> Copy for IterativeSingle<T> {

}

impl<T> Default for IterativeSingle<T> {
    fn default() -> (r: Self)
        ensures
            r.spec_config().spec_total_iterations() == DEFAULT_TOTAL_ITERATIONS,
            r.spec_config().spec_integration_method() == IterativeMethod::Booles,
    {
        IterativeSingle { config: SingleVariableSolver::default(), _marker: PhantomData }
    }
}

impl<T> IterativeSingle<T> {
    /// The settings the integrator was built with.
    pub closed spec fn spec_config(self) -> SingleVariableSolver {
        self.config
    }

    /// The settings the integrator was built with.
    pub fn config(&self) -> (r: &SingleVariableSolver)
        ensures
            *r == self.spec_config(),
    {
        &self.config
    }

    /// Builds an integrator with an explicit step count and rule.
    pub fn from_parameters(total_iterations: u64, integration_method: IterativeMethod) -> (r: Self)
        ensures
            r.spec_config().spec_total_iterations() == total_iterations,
            r.spec_config().spec_integration_method() == integration_method,
    {
        IterativeSingle {
            config: SingleVariableSolver::from_parameters(total_iterations, integration_method),
            _marker: PhantomData,
        }
    }
}

/// Iterative integrator for partial integrals of functions of several variables; `T` is the
/// scalar type.
#[derive(Debug)]
pub struct IterativeMulti<T> {
    pub config: SingleVariableSolver,
    _marker: PhantomData<T>,
}

impl<T> Clone for IterativeMulti<T> {
    fn clone(&self) -> (r: Self)
        ensures
            r == *self,
    {
        IterativeMulti { config: self.config, _marker: PhantomData }
    }
}

impl<T> Copy for IterativeMulti<T> {

}

impl<T> Default for IterativeMulti<T> {
    fn default() -> (r: Self)
        ensures
            r.spec_config().spec_total_iterations() == DEFAULT_TOTAL_ITERATIONS,
            r.spec_config().spec_integration_method() == IterativeMethod::Booles,
    {
        IterativeMulti { config: SingleVariableSolver::default(), _marker: PhantomData }
    }
}

impl<T> IterativeMulti<T> {
    /// The settings the integrator was built with.
    pub closed spec fn spec_config(self) -> SingleVariableSolver {
        self.config
    }

    /// The settings the integrator was built with.
    pub fn config(&self) -> (r: &SingleVariableSolver)
        ensures
            *r == self.spec_config(),
    {
        &self.config
    }

    /// Builds an integrator with an explicit step count and rule.
    pub fn from_parameters(total_iterations: u64, integration_method: IterativeMethod) -> (r: Self)
        ensures
            r.spec_config().spec_total_iterations() == total_iterations,
            r.spec_config().spec_integration_method() == integration_method,
    {
        IterativeMulti {
            config: SingleVariableSolver::from_parameters(total_iterations, integration_method),
            _marker: PhantomData,
        }
    }
}

} // verus!
