//! The portfolio "pie": the fetched bundle's data model, the verdict on the
//! portfolio service's response, and the derivation of one market-data
//! lookup ticker per holding.

use vstd::prelude::*;
use crate::fixed::Fixed2;
use crate::market::is_success_status;
use crate::market::status_is_success;
use crate::symbols::{SymbolMap, spec_derive_ticker, derive_ticker};

verus! {

/// One equity position within a pie.  The shares are allocation fractions
/// carried at two-decimal precision; only the ticker drives the report.
pub struct Holding {
    pub ticker: String,
    pub current_share: Fixed2,
    pub expected_share: Fixed2,
}

/// The pie's read-only metadata; `creation_date` is whole epoch seconds.
pub struct PieSettings {
    pub name: String,
    pub creation_date: u64,
    pub id: u32,
}

/// A named, weighted bundle of equity holdings, as fetched per run.
pub struct Pie {
    pub settings: PieSettings,
    pub instruments: Vec<Holding>,
}

/// Why the one required portfolio fetch failed; either way the run is over.
#[derive(Clone, Copy, PartialEq, Eq, Structural, Debug)]
pub enum PieError {
    /// The service answered with this non-success HTTP status.
    Remote(u16),
    /// The success response's body did not decode to a pie.
    Decode,
}

/// Judges the portfolio service's response: the decoded pie on a decoded
/// success status, `Remote` carrying the status on a non-success status,
/// and `Decode` on a success status whose body did not decode.
pub fn evaluate_pie_response(status: u16, body: Option<Pie>) -> (r: Result<Pie, PieError>)
    ensures
        r is Ok <==> is_success_status(status as int) && body is Some,
        r is Ok ==> r->Ok_0 == body->0,
        !is_success_status(status as int) ==> r == Result::<Pie, PieError>::Err(
            PieError::Remote(status),
        ),
        is_success_status(status as int) && body is None ==> r == Result::<Pie, PieError>::Err(
            PieError::Decode,
        ),
{
    if !status_is_success(status) {
        Err(PieError::Remote(status))
    } else {
        match body {
            Some(pie) => Ok(pie),
            None => Err(PieError::Decode),
        }
    }
}

/// Derives the lookup ticker of every holding: one per holding, in the
/// pie's order.
pub fn derive_tickers(instruments: &Vec<Holding>, map: &SymbolMap) -> (r: Vec<String>)
    ensures
        r@.len() == instruments@.len(),
        forall|i: int|
            0 <= i < r@.len() ==> (#[trigger] r@[i])@ == spec_derive_ticker(
                instruments@[i].ticker@,
                map.entries(),
            ),
{
    let mut out: Vec<String> = Vec::new();
    let n: usize = instruments.len();
    let mut i: usize = 0;
    while i < n
        invariant
            0 <= i <= n,
            n == instruments.len(),
            out@.len() == i,
            forall|j: int|
                0 <= j < i ==> (#[trigger] out@[j])@ == spec_derive_ticker(
                    instruments@[j].ticker@,
                    map.entries(),
                ),
        decreases n - i,
    {
        out.push(derive_ticker(instruments[i].ticker.as_str(), map));
        i = i + 1;
    }
    out
}

} // verus!
