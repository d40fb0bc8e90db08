use vstd::prelude::*;

verus! {

/// One of the batch inputs whose shape is held against the observed prices.
#[derive(Debug, Clone, Copy, PartialEq, Eq, Structural)]
pub enum BatchInput {
    Spot,
    TimeToMaturity,
    Strike,
}

/// The batch inputs do not all share the shape of the observed prices;
/// `input` is the first one, in argument order, whose shape differs.
#[derive(Debug, Clone, Copy, PartialEq, Eq, Structural)]
pub struct ShapeMismatch {
    pub input: BatchInput,
}

/// The first batch input whose shape differs from `price`, if any.
pub open spec fn first_mismatch(
    price: Seq<usize>,
    spot: Seq<usize>,
    time_to_maturity: Seq<usize>,
    strike: Seq<usize>,
) -> Option<BatchInput> {
    if spot != price {
        Some(BatchInput::Spot)
    } else if time_to_maturity != price {
        Some(BatchInput::TimeToMaturity)
    } else if strike != price {
        Some(BatchInput::Strike)
    } else {
        None
    }
}

/// Outcome of checking a batch: an error naming the first mismatching input.
pub open spec fn batch_shape_check(
    price: Seq<usize>,
    spot: Seq<usize>,
    time_to_maturity: Seq<usize>,
    strike: Seq<usize>,
) -> Result<(), ShapeMismatch> {
    match first_mismatch(price, spot, time_to_maturity, strike) {
        Some(input) => Err(ShapeMismatch { input }),
        None => Ok(()),
    }
}

/// Whether two shapes are identical, rank included.
pub fn shapes_match(a: &[usize], b: &[usize]) -> (r: bool)
    ensures
        r == (a@ == b@),
{
    if a.len() != b.len() {
        return false;
    }
    let mut i: usize = 0;
    while i < a.len()
        invariant
            a@.len() == b@.len(),
            i <= a@.len(),
            forall|j: int| 0 <= j < i ==> a@[j] == b@[j],
        decreases a@.len() - i,
    {
        if a[i] != b[i] {
            return false;
        }
        i = i + 1;
    }
    assert(a@ =~= b@);
    true
}

/// Checks that the four arrays of a market input batch share one shape.
pub fn check_batch_shapes(
    price: &[usize],
    spot: &[usize],
    time_to_maturity: &[usize],
    strike: &[usize],
) -> (r: Result<(), ShapeMismatch>)
    ensures
        r == batch_shape_check(price@, spot@, time_to_maturity@, strike@),
{
    if !shapes_match(spot, price) {
        Err(ShapeMismatch { input: BatchInput::Spot })
    } else if !shapes_match(time_to_maturity, price) {
        Err(ShapeMismatch { input: BatchInput::TimeToMaturity })
    } else if !shapes_match(strike, price) {
        Err(ShapeMismatch { input: BatchInput::Strike })
    } else {
        Ok(())
    }
}

/// A copy of a shape, handed to the initializer of the volatility estimate.
pub fn shape_to_vec(shape: &[usize]) -> (r: Vec<usize>)
    ensures
        r@ == shape@,
{
    let mut r: Vec<usize> = Vec::new();
    let mut i: usize = 0;
    while i < shape.len()
        invariant
            i <= shape@.len(),
            r@ == shape@.subrange(0, i as int),
        decreases shape@.len() - i,
    {
        r.push(shape[i]);
        i = i + 1;
        assert(r@ =~= shape@.subrange(0, i as int));
    }
    assert(r@ =~= shape@);
    r
}

} // verus!
