use vstd::prelude::*;

verus! {

/// Why a filter could not be built or a step could not be taken.
#[derive(PartialEq, Eq, Structural, Clone, Copy, Debug)]
pub enum KalmanError {
    /// Operand matrices have incompatible dimensions.
    ShapeMismatch,
    /// The innovation covariance `S = H·P·Hᵗ + R` has no inverse.
    SingularInnovationCovariance,
}

impl KalmanError {
    /// A short human-readable description of the error.
    pub fn describe(&self) -> (r: &'static str)
        ensures
            *self == KalmanError::ShapeMismatch ==> r@ == "matrix dimensions are not conformant"@,
            *self == KalmanError::SingularInnovationCovariance ==> r@
                == "innovation covariance is not invertible"@,
    {
        match self {
            KalmanError::ShapeMismatch => "matrix dimensions are not conformant",
            KalmanError::SingularInnovationCovariance => "innovation covariance is not invertible",
        }
    }
}

} // verus!
