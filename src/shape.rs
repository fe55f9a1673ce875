use vstd::prelude::*;

use crate::error::KalmanError;

verus! {

/// The dimensions of a dense matrix: `rows × cols`.
#[derive(PartialEq, Eq, Structural, Clone, Copy, Debug)]
pub struct Shape {
    pub rows: usize,
    pub cols: usize,
}

/// The two dimensions of a filter: `n` for the state, `m` for an observation.
#[derive(PartialEq, Eq, Structural, Clone, Copy, Debug)]
pub struct Dims {
    pub n: usize,
    pub m: usize,
}

pub open spec fn is_square(s: Shape, k: int) -> bool {
    s.rows == k && s.cols == k
}

pub open spec fn is_column(s: Shape, k: int) -> bool {
    s.rows == k && s.cols == 1
}

/// `x: n×1`, `P, F, Q: n×n`, `H: m×n`, `R: m×m`, with `n, m ≥ 1`.
pub open spec fn conformant(x: Shape, p: Shape, f: Shape, q: Shape, h: Shape, r: Shape) -> bool {
    &&& x.rows >= 1
    &&& h.rows >= 1
    &&& is_column(x, x.rows as int)
    &&& is_square(p, x.rows as int)
    &&& is_square(f, x.rows as int)
    &&& is_square(q, x.rows as int)
    &&& h.cols == x.rows
    &&& is_square(r, h.rows as int)
}

impl Shape {
    pub fn new(rows: usize, cols: usize) -> (r: Shape)
        ensures
            r.rows == rows,
            r.cols == cols,
    {
        Shape { rows, cols }
    }
}

/// Checks the six initial matrices of a filter, so that a mismatch is
/// reported when the filter is built rather than inside a later step.
pub fn check_model(x: Shape, p: Shape, f: Shape, q: Shape, h: Shape, r: Shape) -> (res: Result<
    Dims,
    KalmanError,
>)
    ensures
        res is Ok <==> conformant(x, p, f, q, h, r),
        res is Ok ==> res->Ok_0 == (Dims { n: x.rows, m: h.rows }),
        res is Err ==> res->Err_0 == KalmanError::ShapeMismatch,
{
    let n = x.rows;
    let m = h.rows;
    if n >= 1 && m >= 1 && x.cols == 1 && p.rows == n && p.cols == n && f.rows == n && f.cols == n
        && q.rows == n && q.cols == n && h.cols == n && r.rows == m && r.cols == m {
        Ok(Dims { n, m })
    } else {
        Err(KalmanError::ShapeMismatch)
    }
}

} // verus!
