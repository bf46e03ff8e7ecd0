use vstd::prelude::*;

verus! {

/// How many fixed-point parts make one whole profit unit.
pub const PROFIT_SCALE: i64 = 1000;

/// A profit amount, held in fixed point as a count of thousandths of a
/// whole unit.
#[derive(Clone, Copy, Debug, PartialEq, Eq, Structural)]
pub struct Profit {
    /// The amount as a count of thousandths of a unit.
    pub millis: i64,
}

impl Profit {
    /// The profit of a whole number of units.
    pub fn from_units(units: i32) -> (p: Profit)
        ensures
            p.millis == units * PROFIT_SCALE,
    {
        Profit { millis: (units as i64) * PROFIT_SCALE }
    }
}

/// A forecaster assigns a profit to every integer timestamp. What it
/// assigns is a function of its state and of the timestamp alone.
pub trait ProfitForecaster {
    /// The profit the forecaster assigns to the given timestamp.
    spec fn profit_at_spec(&self, timestamp: i32) -> Profit;

    /// Compute the profit at the given timestamp.
    fn profit_at(&self, timestamp: i32) -> (p: Profit)
        ensures
            p == self.profit_at_spec(timestamp),
    ;
}

/// Forecast the profit at each timestamp of the half-open range from
/// `start` to `end`, in timestamp order: one entry per timestamp in the
/// range, and an empty result when the range is empty or reversed.
pub fn forecast_profit_over_time<F: ProfitForecaster>(
    forecaster: &F,
    start: i32,
    end: i32,
) -> (profits: Vec<Profit>)
    ensures
        start <= end ==> profits@.len() == end - start,
        start > end ==> profits@.len() == 0,
        forall|i: int|
            0 <= i < profits@.len() ==> profits@[i] == forecaster.profit_at_spec(
                (start + i) as i32,
            ),
{
    let mut profits: Vec<Profit> = Vec::new();
    if end <= start {
        return profits;
    }
    let mut t: i32 = start;
    while t < end
        invariant
            start <= t <= end,
            profits@.len() == t - start,
            forall|i: int|
                0 <= i < profits@.len() ==> profits@[i] == forecaster.profit_at_spec(
                    (start + i) as i32,
                ),
        decreases end - t,
    {
        let p = forecaster.profit_at(t);
        profits.push(p);
        t = t + 1;
    }
    profits
}

/// A forecaster that assigns one fixed profit to every timestamp.
#[derive(Clone, Copy, Debug, PartialEq, Eq, Structural)]
pub struct ConstantForecaster {
    /// The profit assigned to every timestamp.
    pub value: Profit,
}

impl ConstantForecaster {
    /// The forecaster that assigns `value` to every timestamp.
    pub fn new(value: Profit) -> (f: ConstantForecaster)
        ensures
            f.value == value,
    {
        ConstantForecaster { value }
    }
}

impl Default for ConstantForecaster {
    /// The default forecast is a profit of zero at every timestamp.
    fn default() -> (f: ConstantForecaster)
        ensures
            f.value.millis == 0,
    {
        ConstantForecaster { value: Profit { millis: 0 } }
    }
}

impl ProfitForecaster for ConstantForecaster {
    open spec fn profit_at_spec(&self, timestamp: i32) -> Profit {
        self.value
    }

    fn profit_at(&self, timestamp: i32) -> (p: Profit) {
        self.value
    }
}

/// A forecaster whose profit is a linear function of the timestamp, with
/// slope and intercept given in thousandths of a unit.
#[derive(Clone, Copy, Debug, PartialEq, Eq, Structural)]
pub struct LinearForecaster {
    /// The per-timestep rise, in thousandths of a unit.
    pub slope_millis: i32,
    /// The profit at timestamp zero, in thousandths of a unit.
    pub intercept_millis: i32,
}

impl ProfitForecaster for LinearForecaster {
    open spec fn profit_at_spec(&self, timestamp: i32) -> Profit {
        Profit { millis: (self.slope_millis * timestamp + self.intercept_millis) as i64 }
    }

    fn profit_at(&self, timestamp: i32) -> (p: Profit) {
        proof {
            assert(-0x4000000000000000 <= (self.slope_millis as int) * (timestamp as int)
                <= 0x4000000000000000) by (nonlinear_arith)
                requires
                    -0x80000000 <= self.slope_millis as int <= 0x7fffffff,
                    -0x80000000 <= timestamp as int <= 0x7fffffff,
            ;
        }
        let product: i64 = (self.slope_millis as i64) * (timestamp as i64);
        Profit { millis: product + (self.intercept_millis as i64) }
    }
}

/// A forecaster that reads consecutive timestamps out of a table: the
/// entry for `start` comes first, the next timestamp takes the next entry,
/// and timestamps outside the table get a fixed fallback profit.
#[derive(Clone, Debug)]
pub struct TableForecaster {
    /// The timestamp the first table entry is for.
    pub start: i32,
    /// The profits for the consecutive timestamps from `start` on.
    pub values: Vec<Profit>,
    /// The profit for every timestamp the table does not cover.
    pub fallback: Profit,
}

impl ProfitForecaster for TableForecaster {
    open spec fn profit_at_spec(&self, timestamp: i32) -> Profit {
        if self.start <= timestamp && timestamp - self.start < self.values@.len() {
            self.values@[timestamp - self.start]
        } else {
            self.fallback
        }
    }

    fn profit_at(&self, timestamp: i32) -> (p: Profit) {
        if timestamp >= self.start {
            let offset: u64 = ((timestamp as i64) - (self.start as i64)) as u64;
            if offset < (self.values.len() as u64) {
                return self.values[offset as usize];
            }
        }
        self.fallback
    }
}

} // verus!
