//! Consumer-price-index data in the shape served by the Bank of Canada.
//! Fetching the data and the floating-point rate arithmetic live with the
//! embedding application; the record shapes and the pick of the latest
//! observation are modeled here.

use vstd::prelude::*;

use self::observation::Observation;

/// One dated observation of the index.
pub mod observation;

verus! {

/// The full response: the terms link, the series description, and every
/// observation in chronological order.
#[derive(Debug, Clone)]
#[allow(non_snake_case)]
pub struct Data {
    pub terms: Terms,
    pub seriesDetail: SeriesDetail,
    pub observations: Vec<Observation>,
}

/// The terms-of-use link that accompanies the data.
#[derive(Debug, Clone)]
pub struct Terms {
    pub url: String,
}

/// The description of the inflation-calculator series.
#[derive(Debug, Clone)]
#[allow(non_snake_case)]
pub struct SeriesDetail {
    pub STATIC_INFLATIONCALC: StaticInflationCalc,
}

/// The label, description and dimension of the series.
#[derive(Debug, Clone)]
pub struct StaticInflationCalc {
    pub label: String,
    pub description: String,
    pub dimension: Dimension,
}

/// The key and name of the series dimension.
#[derive(Debug, Clone)]
pub struct Dimension {
    pub key: String,
    pub name: String,
}

impl Data {
    /// The most recent observation. The series is never served empty, and
    /// callers must check that before asking.
    pub fn latest_observation(&self) -> (r: &Observation)
        requires
            self.observations@.len() > 0,
        ensures
            *r == self.observations@[self.observations@.len() - 1],
    {
        &self.observations[self.observations.len() - 1]
    }
}

} // verus!
