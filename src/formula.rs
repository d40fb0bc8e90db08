use vstd::prelude::*;

verus! {

/// Kind of European option being priced.
#[derive(Debug, Clone, Copy, PartialEq, Eq, Structural)]
pub enum Payoff {
    Call,
    Put,
}

/// A differentiable expression over one market scenario, evaluated
/// elementwise over a batch by a computation-graph backend.
///
/// The leaves name the bound inputs of one optimization step; `RiskFreeRate`
/// is a scalar shared by every scenario; `Mean` is the one reduction, over
/// the whole batch.
#[derive(Debug)]
pub enum Expr {
    Spot,
    TimeToMaturity,
    Strike,
    Volatility,
    RiskFreeRate,
    ObservedPrice,
    Constant(u32),
    Neg(Box<Expr>),
    Ln(Box<Expr>),
    Sqrt(Box<Expr>),
    Exp(Box<Expr>),
    Square(Box<Expr>),
    StdNormalCdf(Box<Expr>),
    Add(Box<Expr>, Box<Expr>),
    Sub(Box<Expr>, Box<Expr>),
    Mul(Box<Expr>, Box<Expr>),
    Div(Box<Expr>, Box<Expr>),
    Mean(Box<Expr>),
}

/// `d1 = ln(S / K) + T * (sigma^2 / 2 + r)`
pub open spec fn d1_model() -> Expr {
    Expr::Add(
        Box::new(Expr::Ln(Box::new(Expr::Div(Box::new(Expr::Spot), Box::new(Expr::Strike))))),
        Box::new(
            Expr::Mul(
                Box::new(Expr::TimeToMaturity),
                Box::new(
                    Expr::Add(
                        Box::new(
                            Expr::Div(
                                Box::new(Expr::Square(Box::new(Expr::Volatility))),
                                Box::new(Expr::Constant(2)),
                            ),
                        ),
                        Box::new(Expr::RiskFreeRate),
                    ),
                ),
            ),
        ),
    )
}

/// `d2 = d1 - sigma * sqrt(T)`
pub open spec fn d2_model() -> Expr {
    Expr::Sub(
        Box::new(d1_model()),
        Box::new(
            Expr::Mul(Box::new(Expr::Volatility), Box::new(Expr::Sqrt(Box::new(Expr::TimeToMaturity)))),
        ),
    )
}

/// The discount factor `exp(-r * T)`.
pub open spec fn discount_model() -> Expr {
    Expr::Exp(
        Box::new(
            Expr::Neg(Box::new(Expr::Mul(Box::new(Expr::TimeToMaturity), Box::new(Expr::RiskFreeRate)))),
        ),
    )
}

/// Call price: `S * Phi(d1) - K * exp(-r * T) * Phi(d2)`.
pub open spec fn call_price_model() -> Expr {
    Expr::Sub(
        Box::new(Expr::Mul(Box::new(Expr::Spot), Box::new(Expr::StdNormalCdf(Box::new(d1_model()))))),
        Box::new(
            Expr::Mul(
                Box::new(Expr::Mul(Box::new(Expr::Strike), Box::new(discount_model()))),
                Box::new(Expr::StdNormalCdf(Box::new(d2_model()))),
            ),
        ),
    )
}

/// Put price: `K * exp(-r * T) * Phi(-d2) - S * Phi(-d1)`.
pub open spec fn put_price_model() -> Expr {
    Expr::Sub(
        Box::new(
            Expr::Mul(
                Box::new(Expr::Mul(Box::new(Expr::Strike), Box::new(discount_model()))),
                Box::new(Expr::StdNormalCdf(Box::new(Expr::Neg(Box::new(d2_model()))))),
            ),
        ),
        Box::new(
            Expr::Mul(
                Box::new(Expr::Spot),
                Box::new(Expr::StdNormalCdf(Box::new(Expr::Neg(Box::new(d1_model()))))),
            ),
        ),
    )
}

pub open spec fn price_model(payoff: Payoff) -> Expr {
    match payoff {
        Payoff::Call => call_price_model(),
        Payoff::Put => put_price_model(),
    }
}

/// Mean over the batch of the squared difference between the predicted and
/// the observed price.
pub open spec fn loss_model(payoff: Payoff) -> Expr {
    Expr::Mean(Box::new(Expr::Square(Box::new(Expr::Sub(Box::new(price_model(payoff)), Box::new(Expr::ObservedPrice))))))
}

/// `e` is computed from one scenario's inputs alone: it holds no reduction
/// over the batch.
pub open spec fn is_elementwise(e: Expr) -> bool
    decreases e,
{
    match e {
        Expr::Mean(_) => false,
        Expr::Neg(a) => is_elementwise(*a),
        Expr::Ln(a) => is_elementwise(*a),
        Expr::Sqrt(a) => is_elementwise(*a),
        Expr::Exp(a) => is_elementwise(*a),
        Expr::Square(a) => is_elementwise(*a),
        Expr::StdNormalCdf(a) => is_elementwise(*a),
        Expr::Add(a, b) => is_elementwise(*a) && is_elementwise(*b),
        Expr::Sub(a, b) => is_elementwise(*a) && is_elementwise(*b),
        Expr::Mul(a, b) => is_elementwise(*a) && is_elementwise(*b),
        Expr::Div(a, b) => is_elementwise(*a) && is_elementwise(*b),
        _ => true,
    }
}

/// The price of a scenario is computed from that scenario's spot, time to
/// maturity, strike and volatility and the shared rate, and from nothing else
/// in the batch; the calibration loss couples the scenarios only through its
/// final mean of per-scenario squared errors.
pub proof fn lemma_price_is_elementwise(payoff: Payoff)
    ensures
        is_elementwise(price_model(payoff)),
        loss_model(payoff) == Expr::Mean(
            Box::new(
                Expr::Square(Box::new(Expr::Sub(Box::new(price_model(payoff)), Box::new(Expr::ObservedPrice)))),
            ),
        ),
        is_elementwise(
            Expr::Square(Box::new(Expr::Sub(Box::new(price_model(payoff)), Box::new(Expr::ObservedPrice)))),
        ),
{
    reveal_with_fuel(is_elementwise, 8);
    assert(is_elementwise(d1_model()));
    assert(is_elementwise(d2_model()));
    assert(is_elementwise(discount_model()));
    assert(is_elementwise(price_model(payoff)));
    let err = Expr::Sub(Box::new(price_model(payoff)), Box::new(Expr::ObservedPrice));
    assert(is_elementwise(err));
}

/// Builds `d1` for the current step.
pub fn d1() -> (r: Expr)
    ensures
        r == d1_model(),
{
    let log_moneyness = Expr::Ln(Box::new(Expr::Div(Box::new(Expr::Spot), Box::new(Expr::Strike))));
    let half_variance = Expr::Div(
        Box::new(Expr::Square(Box::new(Expr::Volatility))),
        Box::new(Expr::Constant(2)),
    );
    let drift = Expr::Add(Box::new(half_variance), Box::new(Expr::RiskFreeRate));
    Expr::Add(
        Box::new(log_moneyness),
        Box::new(Expr::Mul(Box::new(Expr::TimeToMaturity), Box::new(drift))),
    )
}

/// Builds `d2` for the current step.
pub fn d2() -> (r: Expr)
    ensures
        r == d2_model(),
{
    let spread = Expr::Mul(
        Box::new(Expr::Volatility),
        Box::new(Expr::Sqrt(Box::new(Expr::TimeToMaturity))),
    );
    Expr::Sub(Box::new(d1()), Box::new(spread))
}

fn discount() -> (r: Expr)
    ensures
        r == discount_model(),
{
    let rate_time = Expr::Mul(Box::new(Expr::TimeToMaturity), Box::new(Expr::RiskFreeRate));
    Expr::Exp(Box::new(Expr::Neg(Box::new(rate_time))))
}

/// Builds the Black-Scholes price of a European call.
pub fn price_call_option() -> (r: Expr)
    ensures
        r == call_price_model(),
{
    let spot_leg = Expr::Mul(Box::new(Expr::Spot), Box::new(Expr::StdNormalCdf(Box::new(d1()))));
    let present_strike = Expr::Mul(Box::new(Expr::Strike), Box::new(discount()));
    let strike_leg = Expr::Mul(
        Box::new(present_strike),
        Box::new(Expr::StdNormalCdf(Box::new(d2()))),
    );
    Expr::Sub(Box::new(spot_leg), Box::new(strike_leg))
}

/// Builds the Black-Scholes price of a European put.
pub fn price_put_option() -> (r: Expr)
    ensures
        r == put_price_model(),
{
    let present_strike = Expr::Mul(Box::new(Expr::Strike), Box::new(discount()));
    let strike_leg = Expr::Mul(
        Box::new(present_strike),
        Box::new(Expr::StdNormalCdf(Box::new(Expr::Neg(Box::new(d2()))))),
    );
    let spot_leg = Expr::Mul(
        Box::new(Expr::Spot),
        Box::new(Expr::StdNormalCdf(Box::new(Expr::Neg(Box::new(d1()))))),
    );
    Expr::Sub(Box::new(strike_leg), Box::new(spot_leg))
}

/// Builds the price expression of the given payoff.
pub fn price(payoff: Payoff) -> (r: Expr)
    ensures
        r == price_model(payoff),
{
    match payoff {
        Payoff::Call => price_call_option(),
        Payoff::Put => price_put_option(),
    }
}

/// Builds the calibration loss: the batch mean of the squared pricing error.
pub fn mean_squared_loss(payoff: Payoff) -> (r: Expr)
    ensures
        r == loss_model(payoff),
{
    let error = Expr::Sub(Box::new(price(payoff)), Box::new(Expr::ObservedPrice));
    Expr::Mean(Box::new(Expr::Square(Box::new(error))))
}

} // verus!
