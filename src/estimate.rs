//! The estimate that a filter carries from step to step, and the rule by
//! which an update is committed or rejected.
use vstd::prelude::*;

use crate::error::KalmanError;

verus! {

/// The state estimate `x` and its covariance `P`, of any matrix type `M`.
pub struct Estimate<M> {
    pub state: M,
    pub covariance: M,
}

impl<M> Estimate<M> {
    pub fn new(state: M, covariance: M) -> (r: Estimate<M>)
        ensures
            r.state == state,
            r.covariance == covariance,
    {
        Estimate { state, covariance }
    }
}

/// Commits the outcome of an update step.
///
/// `posterior` is the estimate computed from the observation, or `None`
/// when the innovation covariance could not be inverted. In that case the
/// observation is rejected: the error is `SingularInnovationCovariance`
/// and the estimate is left exactly as it was.
pub fn settle_update<M>(current: &mut Estimate<M>, posterior: Option<Estimate<M>>) -> (res: Result<
    (),
    KalmanError,
>)
    ensures
        posterior is Some ==> res is Ok && *final(current) == posterior->Some_0,
        posterior is None ==> res == Err::<(), KalmanError>(KalmanError::SingularInnovationCovariance)
            && *final(current) == *old(current),
{
    match posterior {
        Some(e) => {
            *current = e;
            Ok(())
        },
        None => Err(KalmanError::SingularInnovationCovariance),
    }
}

} // verus!
