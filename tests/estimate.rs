use ace::error::KalmanError;
use ace::estimate::{settle_update, Estimate};

#[test]
fn singular_update_leaves_estimate_unchanged() {
    let mut e = Estimate::new(vec![0.5, -1.0], vec![1.0, 0.0, 0.0, 1.0]);
    let r = settle_update(&mut e, None);
    assert_eq!(r, Err(KalmanError::SingularInnovationCovariance));
    assert_eq!(e.state, vec![0.5, -1.0]);
    assert_eq!(e.covariance, vec![1.0, 0.0, 0.0, 1.0]);
}

#[test]
fn successful_update_replaces_estimate() {
    let mut e = Estimate::new(vec![0.0, 0.0], vec![1.0, 0.0, 0.0, 1.0]);
    let posterior = Estimate::new(vec![0.990099, 0.0], vec![0.00990099, 0.0, 0.0, 1.0]);
    let r = settle_update(&mut e, Some(posterior));
    assert_eq!(r, Ok(()));
    assert_eq!(e.state, vec![0.990099, 0.0]);
    assert_eq!(e.covariance, vec![0.00990099, 0.0, 0.0, 1.0]);
}

#[test]
fn rejected_observation_then_accepted_one() {
    let mut e = Estimate::new(vec![1i64], vec![2i64]);
    assert!(settle_update(&mut e, None).is_err());
    assert_eq!(e.state, vec![1]);
    assert!(settle_update(&mut e, Some(Estimate::new(vec![3], vec![4]))).is_ok());
    assert_eq!(e.state, vec![3]);
    assert_eq!(e.covariance, vec![4]);
}
