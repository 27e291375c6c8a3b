//! Knot values of the STEP curves and surfaces whose knots are implied by
//! their form rather than listed.

use vstd::prelude::*;

verus! {

/// The knots of a `uniform_curve` / `uniform_surface` direction with
/// `num_ctrl` control points of degree `degree`: `degree + num_ctrl + 1`
/// unit-spaced values starting at `-degree`.
pub open spec fn uniform_knot_sequence(num_ctrl: nat, degree: nat) -> Seq<int> {
    Seq::new(degree + num_ctrl + 1, |i: int| i - degree)
}

/// The knot values of a uniform B-spline, as integers.
pub fn uniform_knot_values(num_ctrl: usize, degree: usize) -> (knots: Vec<i64>)
    requires
        degree + num_ctrl < i64::MAX,
        degree + num_ctrl < usize::MAX,
    ensures
        knots@.len() == uniform_knot_sequence(num_ctrl as nat, degree as nat).len(),
        forall|i: int| 0 <= i < knots@.len() ==> knots@[i] as int == #[trigger] uniform_knot_sequence(
            num_ctrl as nat,
            degree as nat,
        )[i],
{
    let count = degree + num_ctrl + 1;
    let mut knots: Vec<i64> = Vec::new();
    let mut i: usize = 0;
    while i < count
        invariant
            count == degree + num_ctrl + 1,
            count <= i64::MAX,
            i <= count,
            knots@.len() == i,
            forall|k: int| 0 <= k < i ==> knots@[k] as int == k - degree,
        decreases count - i,
    {
        knots.push(i as i64 - degree as i64);
        i = i + 1;
    }
    knots
}

/// Uniform knots are unit-spaced and start at `-degree`, so the span
/// `[0, num_ctrl - degree]` is covered by `num_ctrl - degree` unit intervals.
pub proof fn law_uniform_knots_are_unit_spaced(num_ctrl: nat, degree: nat)
    ensures
        uniform_knot_sequence(num_ctrl, degree)[0] == -(degree as int),
        forall|i: int|
            0 <= i < degree + num_ctrl ==> #[trigger] uniform_knot_sequence(num_ctrl, degree)[i + 1]
                == uniform_knot_sequence(num_ctrl, degree)[i] + 1,
        uniform_knot_sequence(num_ctrl, degree)[(degree + num_ctrl) as int] == num_ctrl as int,
{
}

/// The knots of a `quasi_uniform_curve` / `quasi_uniform_surface` direction
/// with `num_ctrl` control points of degree `degree`, over the spans
/// `0..n` where `n = num_ctrl - degree`: `degree + 1` zeros, then
/// `1, ..., n - 1`, then `degree + 1` copies of `n`.
pub open spec fn quasi_uniform_knot_sequence(num_ctrl: nat, degree: nat) -> Seq<int> {
    let n = num_ctrl - degree;
    Seq::new(degree + num_ctrl + 1, |i: int| if i <= degree { 0 } else if i < degree + n { i - degree } else { n })
}

/// The knot values of a quasi-uniform (clamped) B-spline, as integers. A
/// quasi-uniform curve needs more control points than its degree.
pub fn quasi_uniform_knot_values(num_ctrl: usize, degree: usize) -> (knots: Vec<i64>)
    requires
        degree < num_ctrl,
        degree + num_ctrl < i64::MAX,
        degree + num_ctrl < usize::MAX,
    ensures
        knots@.len() == quasi_uniform_knot_sequence(num_ctrl as nat, degree as nat).len(),
        forall|i: int| 0 <= i < knots@.len() ==> knots@[i] as int == #[trigger] quasi_uniform_knot_sequence(
            num_ctrl as nat,
            degree as nat,
        )[i],
{
    let n = num_ctrl - degree;
    let count = degree + num_ctrl + 1;
    let ghost spec = quasi_uniform_knot_sequence(num_ctrl as nat, degree as nat);
    assert(spec.len() == count);
    let mut knots: Vec<i64> = Vec::new();
    let mut i: usize = 0;
    while i < count
        invariant
            n == num_ctrl - degree,
            count == spec.len(),
            degree + num_ctrl < i64::MAX,
            spec == quasi_uniform_knot_sequence(num_ctrl as nat, degree as nat),
            i <= count,
            knots@.len() == i,
            forall|k: int| 0 <= k < i ==> knots@[k] as int == spec[k],
        decreases count - i,
    {
        let value: i64 = if i <= degree {
            0
        } else if i < degree + n {
            (i - degree) as i64
        } else {
            n as i64
        };
        knots.push(value);
        i = i + 1;
    }
    knots
}

/// Quasi-uniform knots are clamped: they open with `degree + 1` zeros and
/// close with `degree + 1` copies of the span count, and never decrease.
pub proof fn law_quasi_uniform_knots_are_clamped(num_ctrl: nat, degree: nat)
    requires
        degree < num_ctrl,
    ensures
        forall|i: int| 0 <= i <= degree ==> #[trigger] quasi_uniform_knot_sequence(num_ctrl, degree)[i] == 0,
        forall|i: int|
            0 <= i <= degree ==> #[trigger] quasi_uniform_knot_sequence(num_ctrl, degree)[
                quasi_uniform_knot_sequence(num_ctrl, degree).len() - 1 - i] == num_ctrl - degree,
        forall|i: int, j: int|
            0 <= i <= j < quasi_uniform_knot_sequence(num_ctrl, degree).len() ==> quasi_uniform_knot_sequence(
                num_ctrl,
                degree,
            )[i] <= quasi_uniform_knot_sequence(num_ctrl, degree)[j],
{
}

} // verus!
