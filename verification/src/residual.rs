//! The residual evaluator: for a two-element parameter vector `(a, b)` it
//! returns, for every point of the fixed dataset, the signed difference
//! `a*x^3 + b*x^2 - y` between the model's prediction and the target.
//!
//! Parameters and residuals are exact integers here; widening the result to
//! `i128` makes every residual representable, whatever `i64` parameters come
//! in, so no input is rejected for its magnitude.

use vstd::prelude::*;

use crate::dataset::{x_at, y_at, DATA_LEN};

verus! {

/// The one error the evaluator reports: the parameter vector did not hold
/// exactly two elements.
#[derive(Clone, Copy, Debug, PartialEq, Eq, Structural)]
pub enum EvalError {
    InvalidArgument,
}

impl EvalError {
    /// The message carried by the error.
    pub fn message(&self) -> (m: &'static str)
        ensures
            m@ == "expected two-element array"@,
    {
        "expected two-element array"
    }
}

/// Residual of the model `a*x^3 + b*x^2` against point `i` of the dataset.
pub open spec fn residual_at(a: int, b: int, i: int) -> int {
    a * x_at(i) * x_at(i) * x_at(i) + b * x_at(i) * x_at(i) - y_at(i)
}

/// `r` is exactly the residual vector of the parameters `(a, b)`: one entry
/// per dataset point, in dataset order.
pub open spec fn is_residuals_for(a: int, b: int, r: Seq<i128>) -> bool {
    &&& r.len() == DATA_LEN
    &&& forall|i: int| 0 <= i < DATA_LEN ==> #[trigger] r[i] as int == residual_at(a, b, i)
}

/// A parameter vector is valid exactly when it holds two elements.
pub open spec fn is_valid_theta(theta: Seq<i64>) -> bool {
    theta.len() == 2
}

/// One entry of the residual vector, exact over the integers.
fn residual_term(a: i64, b: i64, i: usize) -> (t: i128)
    requires
        i < DATA_LEN,
    ensures
        t as int == residual_at(a as int, b as int, i as int),
{
    let aw: i128 = a as i128;
    let bw: i128 = b as i128;
    match i {
        0 => aw + bw - 3,
        1 => aw * 8 + bw * 4 - 7,
        2 => aw * 27 + bw * 9 - 9,
        3 => aw * 64 + bw * 16 - 21,
        _ => aw * 125 + bw * 25 - 8,
    }
}

/// Evaluate the residual vector of `theta` against the fixed dataset.
///
/// Succeeds exactly when `theta` holds two elements; otherwise nothing is
/// computed and the single `InvalidArgument` error comes back.
pub fn evaluate(theta: &Vec<i64>) -> (r: Result<Vec<i128>, EvalError>)
    ensures
        r is Ok <==> is_valid_theta(theta@),
        r matches Ok(v) ==> is_residuals_for(theta@[0] as int, theta@[1] as int, v@),
        r matches Err(e) ==> e == EvalError::InvalidArgument && !is_valid_theta(theta@),
{
    if theta.len() != 2 {
        return Err(EvalError::InvalidArgument);
    }
    let a: i64 = theta[0];
    let b: i64 = theta[1];
    let mut out: Vec<i128> = Vec::new();
    let mut i: usize = 0;
    while i < DATA_LEN
        invariant
            i <= DATA_LEN,
            out@.len() == i as int,
            forall|j: int| 0 <= j < i as int ==> #[trigger] out@[j] as int == residual_at(
                a as int,
                b as int,
                j,
            ),
        decreases DATA_LEN - i,
    {
        let t: i128 = residual_term(a, b, i);
        out.push(t);
        i = i + 1;
    }
    Ok(out)
}

/// The residual vector is a function of the parameters alone: any two
/// vectors that both satisfy `is_residuals_for` the same `(a, b)` are equal,
/// so repeated evaluations of one `theta` agree entry for entry.
pub proof fn lemma_evaluate_deterministic(a: int, b: int, r1: Seq<i128>, r2: Seq<i128>)
    requires
        is_residuals_for(a, b, r1),
        is_residuals_for(a, b, r2),
    ensures
        r1 == r2,
{
    assert forall|i: int| 0 <= i < r1.len() implies r1[i] == r2[i] by {
        assert(r1[i] as int == residual_at(a, b, i));
        assert(r2[i] as int == residual_at(a, b, i));
    }
    assert(r1 =~= r2);
}

/// The fixed initial guess that is handed to the external solver.
pub fn initial_guess() -> (g: Vec<i64>)
    ensures
        is_valid_theta(g@),
        g@[0] == 0,
        g@[1] == 0,
{
    let mut g: Vec<i64> = Vec::new();
    g.push(0i64);
    g.push(0i64);
    g
}

} // verus!
