//! One dated observation of the consumer-price index, as served: the date
//! and the value are both strings, decoded by the embedding application.

use vstd::prelude::*;

verus! {

/// One observation: a date string and the index value for that date.
#[derive(Debug, Clone)]
#[allow(non_snake_case)]
pub struct Observation {
    pub d: String,
    pub STATIC_INFLATIONCALC: StaticInflationCalcValue,
}

/// The raw textual value of one observation.
#[derive(Debug, Clone)]
pub struct StaticInflationCalcValue {
    pub v: String,
}

} // verus!
