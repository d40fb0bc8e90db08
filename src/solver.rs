use vstd::prelude::*;

use crate::formula::{loss_model, mean_squared_loss, Expr, Payoff};
use crate::shape::{check_batch_shapes, first_mismatch, shape_to_vec, ShapeMismatch};

verus! {

/// `states` is a run of `steps` optimization steps: `states[0]` came from
/// `init` on a batch of shape `shape`, and each later state came from `step`
/// on the loss of `payoff` and the state before it.
pub open spec fn is_calibration_run<V, I: FnOnce(Vec<usize>) -> V, S: Fn(Expr, V) -> V>(
    init: I,
    step: S,
    payoff: Payoff,
    shape: Seq<usize>,
    steps: nat,
    states: Seq<V>,
) -> bool {
    &&& states.len() == steps + 1
    &&& exists|sh: Vec<usize>| sh@ == shape && #[trigger] init.ensures((sh,), states[0])
    &&& forall|i: int|
        0 <= i < steps ==> #[trigger] step.ensures((loss_model(payoff), states[i]), states[i + 1])
}

/// `v` is what `steps` optimization steps, started from `init`, end with.
pub open spec fn is_calibrated<V, I: FnOnce(Vec<usize>) -> V, S: Fn(Expr, V) -> V>(
    init: I,
    step: S,
    payoff: Payoff,
    shape: Seq<usize>,
    steps: nat,
    v: V,
) -> bool {
    exists|states: Seq<V>|
        #[trigger] is_calibration_run(init, step, payoff, shape, steps, states) && states.last() == v
}

/// Solves for the volatility that reproduces observed option prices.
///
/// The shapes of the four batch arrays are checked first; on a mismatch the
/// error is returned and neither `init` nor `step` is called. Otherwise the
/// estimate is drawn by `init` for the batch shape and then advanced by
/// exactly `epochs` calls of `step`, each handed a freshly built loss
/// expression for `payoff`, and the last estimate is returned.
pub fn implied_volatility<V, I: FnOnce(Vec<usize>) -> V, S: Fn(Expr, V) -> V>(
    payoff: Payoff,
    price_shape: &[usize],
    spot_shape: &[usize],
    time_to_maturity_shape: &[usize],
    strike_shape: &[usize],
    epochs: usize,
    init: I,
    step: S,
) -> (r: Result<V, ShapeMismatch>)
    requires
        forall|sh: Vec<usize>| #[trigger] init.requires((sh,)),
        forall|e: Expr, v: V| #[trigger] step.requires((e, v)),
    ensures
        match first_mismatch(price_shape@, spot_shape@, time_to_maturity_shape@, strike_shape@) {
            Some(input) => r is Err && r->Err_0.input == input,
            None => r is Ok && is_calibrated(init, step, payoff, price_shape@, epochs as nat, r->Ok_0),
        },
        r is Ok && epochs == 0 ==> exists|sh: Vec<usize>|
            sh@ == price_shape@ && #[trigger] init.ensures((sh,), r->Ok_0),
{
    match check_batch_shapes(price_shape, spot_shape, time_to_maturity_shape, strike_shape) {
        Err(e) => {
            return Err(e);
        },
        Ok(()) => {},
    }
    let shape = shape_to_vec(price_shape);
    let ghost sh = shape;
    let mut v = init(shape);
    let ghost mut states: Seq<V> = seq![v];
    let mut i: usize = 0;
    while i < epochs
        invariant
            i <= epochs,
            states.len() == i + 1,
            states.last() == v,
            sh@ == price_shape@,
            init.ensures((sh,), states[0]),
            forall|e: Expr, v: V| #[trigger] step.requires((e, v)),
            forall|j: int|
                0 <= j < i ==> #[trigger] step.ensures((loss_model(payoff), states[j]), states[j + 1]),
        decreases epochs - i,
    {
        let loss = mean_squared_loss(payoff);
        v = step(loss, v);
        proof {
            states = states.push(v);
        }
        i = i + 1;
    }
    assert(is_calibration_run(init, step, payoff, price_shape@, epochs as nat, states));
    Ok(v)
}

/// Implied volatility of European calls; see [`implied_volatility`].
pub fn implied_call_volatility<V, I: FnOnce(Vec<usize>) -> V, S: Fn(Expr, V) -> V>(
    call_price_shape: &[usize],
    spot_shape: &[usize],
    time_to_maturity_shape: &[usize],
    strike_shape: &[usize],
    epochs: usize,
    init: I,
    step: S,
) -> (r: Result<V, ShapeMismatch>)
    requires
        forall|sh: Vec<usize>| #[trigger] init.requires((sh,)),
        forall|e: Expr, v: V| #[trigger] step.requires((e, v)),
    ensures
        match first_mismatch(call_price_shape@, spot_shape@, time_to_maturity_shape@, strike_shape@) {
            Some(input) => r is Err && r->Err_0.input == input,
            None => r is Ok
                && is_calibrated(init, step, Payoff::Call, call_price_shape@, epochs as nat, r->Ok_0),
        },
        r is Ok && epochs == 0 ==> exists|sh: Vec<usize>|
            sh@ == call_price_shape@ && #[trigger] init.ensures((sh,), r->Ok_0),
{
    implied_volatility(
        Payoff::Call,
        call_price_shape,
        spot_shape,
        time_to_maturity_shape,
        strike_shape,
        epochs,
        init,
        step,
    )
}

/// Implied volatility of European puts; see [`implied_volatility`].
pub fn implied_put_volatility<V, I: FnOnce(Vec<usize>) -> V, S: Fn(Expr, V) -> V>(
    put_price_shape: &[usize],
    spot_shape: &[usize],
    time_to_maturity_shape: &[usize],
    strike_shape: &[usize],
    epochs: usize,
    init: I,
    step: S,
) -> (r: Result<V, ShapeMismatch>)
    requires
        forall|sh: Vec<usize>| #[trigger] init.requires((sh,)),
        forall|e: Expr, v: V| #[trigger] step.requires((e, v)),
    ensures
        match first_mismatch(put_price_shape@, spot_shape@, time_to_maturity_shape@, strike_shape@) {
            Some(input) => r is Err && r->Err_0.input == input,
            None => r is Ok
                && is_calibrated(init, step, Payoff::Put, put_price_shape@, epochs as nat, r->Ok_0),
        },
        r is Ok && epochs == 0 ==> exists|sh: Vec<usize>|
            sh@ == put_price_shape@ && #[trigger] init.ensures((sh,), r->Ok_0),
{
    implied_volatility(
        Payoff::Put,
        put_price_shape,
        spot_shape,
        time_to_maturity_shape,
        strike_shape,
        epochs,
        init,
        step,
    )
}

} // verus!
