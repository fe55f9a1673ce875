//! Shapes of the matrix operations that a predict or update step performs.
use vstd::prelude::*;

use crate::error::KalmanError;
use crate::shape::{Shape, conformant, is_column};

verus! {

/// Shape of `a·b`; defined only when `a.cols == b.rows`.
pub open spec fn mul_shape(a: Option<Shape>, b: Option<Shape>) -> Option<Shape> {
    match (a, b) {
        (Some(a), Some(b)) => if a.cols == b.rows {
            Some(Shape { rows: a.rows, cols: b.cols })
        } else {
            None
        },
        _ => None,
    }
}

/// Shape of `a + b` or `a − b`; defined only when both shapes agree.
pub open spec fn add_shape(a: Option<Shape>, b: Option<Shape>) -> Option<Shape> {
    match (a, b) {
        (Some(a), Some(b)) => if a == b {
            Some(a)
        } else {
            None
        },
        _ => None,
    }
}

/// Shape of `aᵗ`.
pub open spec fn transpose_shape(a: Shape) -> Shape {
    Shape { rows: a.cols, cols: a.rows }
}

/// Shape of `a⁻¹`; defined only for a square `a`.
pub open spec fn inverse_shape(a: Option<Shape>) -> Option<Shape> {
    match a {
        Some(a) => if a.rows == a.cols {
            Some(a)
        } else {
            None
        },
        None => None,
    }
}

/// Shape of `F·x`.
pub open spec fn predicted_state_shape(x: Shape, f: Shape) -> Option<Shape> {
    mul_shape(Some(f), Some(x))
}

/// Shape of `F·P·Fᵗ + Q`.
pub open spec fn predicted_covariance_shape(p: Shape, f: Shape, q: Shape) -> Option<Shape> {
    add_shape(mul_shape(mul_shape(Some(f), Some(p)), Some(transpose_shape(f))), Some(q))
}

/// Shape of the innovation `y = z − H·x`.
pub open spec fn innovation_shape(x: Shape, h: Shape, z: Shape) -> Option<Shape> {
    add_shape(Some(z), mul_shape(Some(h), Some(x)))
}

/// Shape of the innovation covariance `S = H·P·Hᵗ + R`.
pub open spec fn innovation_covariance_shape(p: Shape, h: Shape, r: Shape) -> Option<Shape> {
    add_shape(mul_shape(mul_shape(Some(h), Some(p)), Some(transpose_shape(h))), Some(r))
}

/// Shape of the gain `K = P·Hᵗ·S⁻¹`.
pub open spec fn gain_shape(p: Shape, h: Shape, r: Shape) -> Option<Shape> {
    mul_shape(
        mul_shape(Some(p), Some(transpose_shape(h))),
        inverse_shape(innovation_covariance_shape(p, h, r)),
    )
}

/// Shape of the updated state `x + K·y`.
pub open spec fn updated_state_shape(x: Shape, p: Shape, h: Shape, r: Shape, z: Shape) -> Option<
    Shape,
> {
    add_shape(Some(x), mul_shape(gain_shape(p, h, r), innovation_shape(x, h, z)))
}

/// Shape of the updated covariance `(I − K·H)·P`, with `I` the identity of
/// `P`'s row count.
pub open spec fn updated_covariance_shape(p: Shape, h: Shape, r: Shape) -> Option<Shape> {
    mul_shape(
        add_shape(
            Some(Shape { rows: p.rows, cols: p.rows }),
            mul_shape(gain_shape(p, h, r), Some(h)),
        ),
        Some(p),
    )
}

/// Shape of `a·b`, or `ShapeMismatch` when `a.cols != b.rows`.
pub fn product(a: Shape, b: Shape) -> (res: Result<Shape, KalmanError>)
    ensures
        match res {
            Ok(s) => mul_shape(Some(a), Some(b)) == Some(s),
            Err(e) => mul_shape(Some(a), Some(b)) is None && e == KalmanError::ShapeMismatch,
        },
{
    if a.cols == b.rows {
        Ok(Shape { rows: a.rows, cols: b.cols })
    } else {
        Err(KalmanError::ShapeMismatch)
    }
}

/// Shape of `a + b` or `a − b`, or `ShapeMismatch` when the shapes differ.
pub fn sum(a: Shape, b: Shape) -> (res: Result<Shape, KalmanError>)
    ensures
        match res {
            Ok(s) => add_shape(Some(a), Some(b)) == Some(s),
            Err(e) => add_shape(Some(a), Some(b)) is None && e == KalmanError::ShapeMismatch,
        },
{
    if a.rows == b.rows && a.cols == b.cols {
        Ok(a)
    } else {
        Err(KalmanError::ShapeMismatch)
    }
}

/// Shape of `aᵗ`.
pub fn transpose(a: Shape) -> (s: Shape)
    ensures
        s == transpose_shape(a),
{
    Shape { rows: a.cols, cols: a.rows }
}

/// Shape of `a⁻¹`, or `ShapeMismatch` when `a` is not square.
pub fn inverse(a: Shape) -> (res: Result<Shape, KalmanError>)
    ensures
        match res {
            Ok(s) => inverse_shape(Some(a)) == Some(s),
            Err(e) => inverse_shape(Some(a)) is None && e == KalmanError::ShapeMismatch,
        },
{
    if a.rows == a.cols {
        Ok(a)
    } else {
        Err(KalmanError::ShapeMismatch)
    }
}

/// Shapes of the state and covariance after `x ← F·x`, `P ← F·P·Fᵗ + Q`,
/// or `ShapeMismatch` at the first operation whose operands do not fit.
pub fn predict_shapes(x: Shape, p: Shape, f: Shape, q: Shape) -> (res: Result<
    (Shape, Shape),
    KalmanError,
>)
    ensures
        match res {
            Ok((nx, np)) => predicted_state_shape(x, f) == Some(nx)
                && predicted_covariance_shape(p, f, q) == Some(np),
            Err(e) => (predicted_state_shape(x, f) is None || predicted_covariance_shape(p, f, q) is None)
                && e == KalmanError::ShapeMismatch,
        },
{
    let nx = match product(f, x) {
        Ok(s) => s,
        Err(e) => return Err(e),
    };
    let fp = match product(f, p) {
        Ok(s) => s,
        Err(e) => return Err(e),
    };
    let fpf = match product(fp, transpose(f)) {
        Ok(s) => s,
        Err(e) => return Err(e),
    };
    match sum(fpf, q) {
        Ok(np) => Ok((nx, np)),
        Err(e) => Err(e),
    }
}

/// Shapes of the state and covariance after an update with an observation
/// of shape `z`, or `ShapeMismatch` at the first operation whose operands
/// do not fit. Only shapes are checked here: whether `S` is invertible is
/// decided by its values.
pub fn update_shapes(x: Shape, p: Shape, h: Shape, r: Shape, z: Shape) -> (res: Result<
    (Shape, Shape),
    KalmanError,
>)
    ensures
        match res {
            Ok((nx, np)) => updated_state_shape(x, p, h, r, z) == Some(nx)
                && updated_covariance_shape(p, h, r) == Some(np),
            Err(e) => (updated_state_shape(x, p, h, r, z) is None || updated_covariance_shape(p, h, r) is None)
                && e == KalmanError::ShapeMismatch,
        },
{
    let ht = transpose(h);
    let hx = match product(h, x) {
        Ok(s) => s,
        Err(e) => return Err(e),
    };
    let y = match sum(z, hx) {
        Ok(s) => s,
        Err(e) => return Err(e),
    };
    let hp = match product(h, p) {
        Ok(s) => s,
        Err(e) => return Err(e),
    };
    let hph = match product(hp, ht) {
        Ok(s) => s,
        Err(e) => return Err(e),
    };
    let s = match sum(hph, r) {
        Ok(s) => s,
        Err(e) => return Err(e),
    };
    let s_inv = match inverse(s) {
        Ok(s) => s,
        Err(e) => return Err(e),
    };
    let pht = match product(p, ht) {
        Ok(s) => s,
        Err(e) => return Err(e),
    };
    let k = match product(pht, s_inv) {
        Ok(s) => s,
        Err(e) => return Err(e),
    };
    let ky = match product(k, y) {
        Ok(s) => s,
        Err(e) => return Err(e),
    };
    let nx = match sum(x, ky) {
        Ok(s) => s,
        Err(e) => return Err(e),
    };
    let kh = match product(k, h) {
        Ok(s) => s,
        Err(e) => return Err(e),
    };
    let ikh = match sum(Shape { rows: p.rows, cols: p.rows }, kh) {
        Ok(s) => s,
        Err(e) => return Err(e),
    };
    match product(ikh, p) {
        Ok(np) => Ok((nx, np)),
        Err(e) => Err(e),
    }
}

/// On a conformant model a predict step is defined and keeps the shapes of
/// the state and the covariance.
pub proof fn lemma_predict_keeps_shapes(x: Shape, p: Shape, f: Shape, q: Shape, h: Shape, r: Shape)
    requires
        conformant(x, p, f, q, h, r),
    ensures
        predicted_state_shape(x, f) == Some(x),
        predicted_covariance_shape(p, f, q) == Some(p),
{
}

/// On a conformant model an update step is defined exactly when the
/// observation is an `m×1` column, and it then keeps the shapes of the
/// state and the covariance.
pub proof fn lemma_update_keeps_shapes(
    x: Shape,
    p: Shape,
    f: Shape,
    q: Shape,
    h: Shape,
    r: Shape,
    z: Shape,
)
    requires
        conformant(x, p, f, q, h, r),
    ensures
        updated_covariance_shape(p, h, r) == Some(p),
        updated_state_shape(x, p, h, r, z) is Some <==> is_column(z, h.rows as int),
        is_column(z, h.rows as int) ==> updated_state_shape(x, p, h, r, z) == Some(x),
{
}

} // verus!
