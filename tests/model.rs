use sirrs::integrate::{Stages, Stride};
use sirrs::model::{Method, Model, ModelError, Phase};

fn increment(x: i64) -> i64 {
    x + 1
}

fn take_derivative(_x: i64, k: i64, _stride: Stride) -> i64 {
    k
}

fn last_stage(_x: i64, st: Stages<i64>) -> i64 {
    st.k4
}

#[test]
fn new_model_is_uninitialized_and_empty() {
    let m: Model<i64> = Model::new();
    assert_eq!(m.phase(), Phase::Uninitialized);
    assert!(m.states().is_empty());
}

#[test]
fn init_popf_allocates_and_writes_index_zero() {
    let mut m: Model<i64> = Model::new();
    assert_eq!(m.init_popf(4, 0, 9), Ok(()));
    assert_eq!(m.phase(), Phase::Initialized);
    assert_eq!(m.states(), &vec![9, 0, 0, 0]);
}

#[test]
fn init_popf_refuses_empty_horizon() {
    let mut m: Model<i64> = Model::new();
    assert_eq!(m.init_popf(0, 0, 9), Err(ModelError::EmptyHorizon));
    assert_eq!(m.phase(), Phase::Uninitialized);
    assert!(m.states().is_empty());
}

#[test]
fn run_before_init_is_refused() {
    let mut m: Model<i64> = Model::new();
    assert_eq!(m.run_euler(&increment, &take_derivative), Err(ModelError::NotInitialized));
    assert_eq!(
        m.run_rk4(&increment, &take_derivative, &last_stage),
        Err(ModelError::NotInitialized)
    );
    assert_eq!(m.phase(), Phase::Uninitialized);
}

#[test]
fn run_euler_fills_and_completes() {
    let mut m: Model<i64> = Model::new();
    m.init_popf(4, 0, 1).unwrap();
    assert_eq!(m.run_euler(&increment, &take_derivative), Ok(()));
    assert_eq!(m.phase(), Phase::RunComplete);
    assert_eq!(m.states(), &vec![1, 2, 3, 4]);
}

#[test]
fn second_run_is_refused_and_keeps_trajectory() {
    let mut m: Model<i64> = Model::new();
    m.init_popf(3, 0, 1).unwrap();
    m.run_euler(&increment, &take_derivative).unwrap();
    assert_eq!(m.run_euler(&increment, &take_derivative), Err(ModelError::AlreadyRun));
    assert_eq!(
        m.run_rk4(&increment, &take_derivative, &last_stage),
        Err(ModelError::AlreadyRun)
    );
    assert_eq!(m.states(), &vec![1, 2, 3]);
}

#[test]
fn reinitialize_after_run_resets() {
    let mut m: Model<i64> = Model::new();
    m.init_popf(3, 0, 1).unwrap();
    m.run_euler(&increment, &take_derivative).unwrap();
    m.init_popf(3, 0, 1).unwrap();
    assert_eq!(m.phase(), Phase::Initialized);
    assert_eq!(m.states(), &vec![1, 0, 0]);
    m.init_popf(3, 0, 1).unwrap();
    let mut fresh: Model<i64> = Model::new();
    fresh.init_popf(3, 0, 1).unwrap();
    assert_eq!(m.states(), fresh.states());
    assert_eq!(m.run_euler(&increment, &take_derivative), Ok(()));
    assert_eq!(m.states(), &vec![1, 2, 3]);
}

#[test]
fn run_rk4_fills_with_four_stages() {
    // with k = x + 1 at each stage point and the point being the previous
    // derivative, the last stage of a step from x is x + 4
    let mut m: Model<i64> = Model::new();
    m.init_popf(3, 0, 1).unwrap();
    assert_eq!(m.run_rk4(&increment, &take_derivative, &last_stage), Ok(()));
    assert_eq!(m.states(), &vec![1, 5, 9]);
}

#[test]
fn run_dispatches_on_method() {
    let mut euler: Model<i64> = Model::new();
    euler.init_popf(3, 0, 1).unwrap();
    assert_eq!(euler.run(Method::Euler, &increment, &take_derivative, &last_stage), Ok(()));
    assert_eq!(euler.states(), &vec![1, 2, 3]);
    let mut rk4: Model<i64> = Model::new();
    rk4.init_popf(3, 0, 1).unwrap();
    assert_eq!(rk4.run(Method::Rk4, &increment, &take_derivative, &last_stage), Ok(()));
    assert_eq!(rk4.states(), &vec![1, 5, 9]);
    assert_eq!(
        rk4.run(Method::Rk4, &increment, &take_derivative, &last_stage),
        Err(ModelError::AlreadyRun)
    );
}
