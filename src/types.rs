//! Fixed-point quantities and prices.
use vstd::prelude::*;

verus! {

/// Raw units per whole unit of a `Quantity` or a `Price`.
pub const FIXED_SCALAR: u64 = 1_000_000_000;

/// A non-negative quantity in fixed point: `raw` counts billionths of a unit.
#[derive(Clone, Copy, Debug, PartialEq, Eq, Structural, Hash)]
pub struct Quantity {
    pub raw: u64,
    pub precision: u8,
}

/// A signed price in fixed point: `raw` counts billionths of a unit.
#[derive(Clone, Copy, Debug, PartialEq, Eq, Structural, Hash)]
pub struct Price {
    pub raw: i64,
    pub precision: u8,
}

impl Quantity {
    pub fn from_raw(raw: u64, precision: u8) -> (r: Quantity)
        ensures
            r.raw == raw,
            r.precision == precision,
    {
        Quantity { raw, precision }
    }

    /// The quantity of `units` whole units.
    pub fn from_units(units: u64, precision: u8) -> (r: Quantity)
        requires
            units * FIXED_SCALAR <= u64::MAX,
        ensures
            r.raw == units * FIXED_SCALAR,
            r.precision == precision,
    {
        Quantity { raw: units * FIXED_SCALAR, precision }
    }
}

impl Price {
    pub fn from_raw(raw: i64, precision: u8) -> (r: Price)
        ensures
            r.raw == raw,
            r.precision == precision,
    {
        Price { raw, precision }
    }
}

/// An average fill price held exactly: `notional / qty` in raw price units, where
/// `notional` is the sum of raw quantity times raw price over the fills and `qty`
/// the sum of their raw quantities.
#[derive(Clone, Copy, Debug, PartialEq, Eq, Structural, Hash)]
pub struct AvgPx {
    pub notional: i128,
    pub qty: u64,
}

/// A positive slippage held exactly: `numer / denom` in raw price units.
#[derive(Clone, Copy, Debug, PartialEq, Eq, Structural, Hash)]
pub struct Slippage {
    pub numer: u128,
    pub denom: u64,
}

} // verus!
