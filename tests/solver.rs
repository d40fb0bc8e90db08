use std::cell::Cell;

use black_scholes::{
    check_batch_shapes, implied_call_volatility, implied_put_volatility, implied_volatility, shape_to_vec,
    shapes_match, BatchInput, Expr, Payoff, ShapeMismatch,
};

#[test]
fn shapes_match_needs_equal_rank_and_extents() {
    assert!(shapes_match(&[2, 3], &[2, 3]));
    assert!(shapes_match(&[], &[]));
    assert!(!shapes_match(&[2, 3], &[2]));
    assert!(!shapes_match(&[2], &[2, 3]));
    assert!(!shapes_match(&[2, 3], &[3, 2]));
}

#[test]
fn batch_shape_check_names_the_first_mismatch() {
    let ok = [4usize, 2];
    let bad = [4usize];
    assert_eq!(check_batch_shapes(&ok, &ok, &ok, &ok), Ok(()));
    assert_eq!(check_batch_shapes(&ok, &bad, &bad, &bad), Err(ShapeMismatch { input: BatchInput::Spot }));
    assert_eq!(check_batch_shapes(&ok, &ok, &bad, &bad), Err(ShapeMismatch { input: BatchInput::TimeToMaturity }));
    assert_eq!(check_batch_shapes(&ok, &ok, &ok, &bad), Err(ShapeMismatch { input: BatchInput::Strike }));
    assert_eq!(check_batch_shapes(&bad, &ok, &ok, &ok), Err(ShapeMismatch { input: BatchInput::Spot }));
}

#[test]
fn shape_is_copied() {
    assert_eq!(shape_to_vec(&[5, 1, 7]), vec![5, 1, 7]);
    assert_eq!(shape_to_vec(&[]), Vec::<usize>::new());
}

#[test]
fn mismatch_fails_before_any_work() {
    let inits = Cell::new(0u32);
    let steps = Cell::new(0u32);
    let r = implied_call_volatility(
        &[3],
        &[3],
        &[3],
        &[2],
        10,
        |_: Vec<usize>| {
            inits.set(inits.get() + 1);
            0u64
        },
        |_: Expr, v: u64| {
            steps.set(steps.get() + 1);
            v
        },
    );
    assert_eq!(r, Err(ShapeMismatch { input: BatchInput::Strike }));
    assert_eq!(inits.get(), 0);
    assert_eq!(steps.get(), 0);
}

#[test]
fn zero_epochs_returns_the_initial_estimate() {
    let steps = Cell::new(0u32);
    let r = implied_put_volatility(
        &[2, 2],
        &[2, 2],
        &[2, 2],
        &[2, 2],
        0,
        |shape: Vec<usize>| {
            assert_eq!(shape, vec![2, 2]);
            vec![0.25, 0.5, 0.75, 0.125]
        },
        |_: Expr, v: Vec<f64>| {
            steps.set(steps.get() + 1);
            v.iter().map(|x| x * 2.0).collect()
        },
    );
    assert_eq!(r, Ok(vec![0.25, 0.5, 0.75, 0.125]));
    assert_eq!(steps.get(), 0);
}

#[test]
fn runs_exactly_epochs_steps_on_the_loss() {
    let seen = Cell::new(0u32);
    let r = implied_volatility(
        Payoff::Call,
        &[1],
        &[1],
        &[1],
        &[1],
        7,
        |_: Vec<usize>| 1u64,
        |e: Expr, v: u64| {
            assert!(matches!(e, Expr::Mean(_)));
            seen.set(seen.get() + 1);
            v * 3
        },
    );
    assert_eq!(r, Ok(2187));
    assert_eq!(seen.get(), 7);
}

#[test]
fn each_step_gets_the_payoff_loss() {
    let r = implied_volatility(
        Payoff::Put,
        &[],
        &[],
        &[],
        &[],
        2,
        |_: Vec<usize>| String::new(),
        |e: Expr, mut v: String| {
            if !v.is_empty() {
                v.push('|');
            }
            v.push_str(&format!("{:?}", e));
            v
        },
    );
    let loss = format!("{:?}", black_scholes::mean_squared_loss(Payoff::Put));
    assert_eq!(r, Ok(format!("{}|{}", loss, loss)));
}
