# multicalc

Numerical calculus in Rust, with the parts that make decisions proved by Verus.

- `src/` is the verified library:
  - `numerical_integration`: the settings of the iterative and Gaussian integrators, their
    checks (step count and limits; the domain each Gaussian family requires),
    the node weights and scale of Boole's, Simpson's 3/8 and the trapezoidal composite
    rules, and (in `newton_cotes_laws`) the proofs that each rule is linear and integrates
    polynomials exactly up to its degree when the step count is a whole number of panels
    (built on the binomial theorem, proved by induction).
  - `numerical_derivative`: finite-difference offsets, the order of the checks a derivative
    request goes through, the derivator traits, and the assembly of Jacobian and (symmetric)
    Hessian matrices from a derivator's answers.
  - `approximation`: the gradient (and, for quadratic approximations, Hessian) collection
    behind linear and quadratic approximations; every entry is one answer of the
    derivator's `get`.
  - `vector_field`: curve positions and the checks of line-integral requests.
- `app/` holds what works on `f64`: finite-difference quotients, the weighted sums of the
  integrators, linear and quadratic approximations and their fit metrics, line integrals, and the
  `const_poly` polynomial front ends.
- `tests/` exercises the library.
