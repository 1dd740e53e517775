//! Market-data results: classifying the two per-ticker endpoint responses
//! and accumulating a batch of per-ticker outcomes into the success and
//! failure lists the report renders.

use vstd::prelude::*;
use crate::fixed::Fixed2;

verus! {

/// Why a single ticker's lookup failed.  A failure never aborts the batch;
/// it only records the ticker in the report's failure list.
#[derive(Clone, Copy, PartialEq, Eq, Structural, Debug)]
pub enum FetchError {
    /// An endpoint answered with this non-success HTTP status.
    Remote(u16),
    /// An endpoint's body did not decode to the expected array shape.
    Decode,
    /// An endpoint answered success with an empty array.
    Empty,
}

/// A minimal market snapshot: the current price.
#[derive(Clone, Copy, PartialEq, Eq, Structural, Debug)]
pub struct Quote {
    pub price: Fixed2,
}

/// The one-day percentage price movement.
#[derive(Clone, Copy, PartialEq, Eq, Structural, Debug)]
pub struct PriceChange {
    pub one_day_percent: Fixed2,
}

/// A successful per-ticker lookup: the symbol with its quote and change.
#[derive(PartialEq, Eq, Debug)]
pub struct StockInfo {
    pub symbol: String,
    pub quote: Quote,
    pub change: PriceChange,
}

impl Clone for StockInfo {
    /// Clones the record, keeping every field.
    fn clone(&self) -> (r: StockInfo)
        ensures
            r == *self,
    {
        StockInfo { symbol: self.symbol.clone(), quote: self.quote, change: self.change }
    }
}

/// What one endpoint call produced: the HTTP status, and the decoded array
/// of values when the body decoded (`None` records a decode failure).
pub struct EndpointResponse {
    pub status: u16,
    pub body: Option<Vec<Fixed2>>,
}

/// Success HTTP statuses: `200..=299`.
pub open spec fn is_success_status(status: int) -> bool {
    200 <= status < 300
}

/// Whether `status` is a success status (`200..=299`).
pub fn status_is_success(status: u16) -> (r: bool)
    ensures
        r == is_success_status(status as int),
{
    200 <= status && status < 300
}

/// The value an endpoint response yields: the first element of the decoded
/// array, or the error that rules the response out.  Per the market-data
/// service's convention, "first" is the first element of the array as the
/// service returned it.
pub open spec fn spec_first_value(r: &EndpointResponse) -> Result<Fixed2, FetchError> {
    if !is_success_status(r.status as int) {
        Err(FetchError::Remote(r.status))
    } else {
        match r.body {
            None => Err(FetchError::Decode),
            Some(items) => if items@.len() == 0 {
                Err(FetchError::Empty)
            } else {
                Ok(items@[0])
            },
        }
    }
}

/// Extracts the canonical value from one endpoint response: its array's
/// first element on a decoded success, otherwise the response's error.
pub fn first_value(r: &EndpointResponse) -> (res: Result<Fixed2, FetchError>)
    ensures
        res == spec_first_value(r),
{
    if !status_is_success(r.status) {
        Err(FetchError::Remote(r.status))
    } else {
        match &r.body {
            None => Err(FetchError::Decode),
            Some(items) => {
                if items.len() == 0 {
                    Err(FetchError::Empty)
                } else {
                    Ok(items[0])
                }
            },
        }
    }
}

/// The price and change a ticker's two responses yield: the quote
/// endpoint's error if any, else the change endpoint's error if any, else
/// both first values.
pub open spec fn spec_ticker_values(quote: &EndpointResponse, change: &EndpointResponse) -> Result<
    (Fixed2, Fixed2),
    FetchError,
> {
    match spec_first_value(quote) {
        Err(e) => Err(e),
        Ok(p) => match spec_first_value(change) {
            Err(e) => Err(e),
            Ok(c) => Ok((p, c)),
        },
    }
}

/// Combines a ticker's two endpoint responses into its lookup result:
/// `Ok` exactly when both responses are decoded success statuses with
/// non-empty arrays, taking each array's first element.
pub fn evaluate_ticker(symbol: &String, quote: &EndpointResponse, change: &EndpointResponse) -> (r:
    Result<StockInfo, FetchError>)
    ensures
        r is Ok <==> spec_ticker_values(quote, change) is Ok,
        r is Ok ==> {
            let (p, c) = spec_ticker_values(quote, change)->Ok_0;
            &&& r->Ok_0.symbol@ == symbol@
            &&& r->Ok_0.quote.price == p
            &&& r->Ok_0.change.one_day_percent == c
        },
        r is Err ==> r->Err_0 == spec_ticker_values(quote, change)->Err_0,
{
    match first_value(quote) {
        Err(e) => Err(e),
        Ok(p) => match first_value(change) {
            Err(e) => Err(e),
            Ok(c) => Ok(
                StockInfo {
                    symbol: symbol.clone(),
                    quote: Quote { price: p },
                    change: PriceChange { one_day_percent: c },
                },
            ),
        },
    }
}

/// One ticker's attempt: the derived lookup ticker and what its market-data
/// lookup produced.
pub struct TickerResult {
    pub ticker: String,
    pub outcome: Result<StockInfo, FetchError>,
}

/// The successful lookups of a batch, in input order.
pub open spec fn spec_successes(rs: Seq<TickerResult>) -> Seq<StockInfo>
    decreases rs.len(),
{
    if rs.len() == 0 {
        Seq::empty()
    } else {
        let rest = spec_successes(rs.drop_last());
        match rs.last().outcome {
            Ok(info) => rest.push(info),
            Err(_) => rest,
        }
    }
}

/// The failed tickers of a batch, in input order.
pub open spec fn spec_failures(rs: Seq<TickerResult>) -> Seq<String>
    decreases rs.len(),
{
    if rs.len() == 0 {
        Seq::empty()
    } else {
        let rest = spec_failures(rs.drop_last());
        match rs.last().outcome {
            Ok(_) => rest,
            Err(_) => rest.push(rs.last().ticker),
        }
    }
}

/// Splits a batch of per-ticker results into the report's two lists: the
/// successful lookups and the failed tickers, each in input order.
pub fn collect_results(results: Vec<TickerResult>) -> (r: (Vec<StockInfo>, Vec<String>))
    ensures
        r.0@ == spec_successes(results@),
        r.1@ == spec_failures(results@),
{
    let mut infos: Vec<StockInfo> = Vec::new();
    let mut fails: Vec<String> = Vec::new();
    proof {
        assert(results@.take(0) =~= Seq::<TickerResult>::empty());
    }
    let n: usize = results.len();
    let mut i: usize = 0;
    while i < n
        invariant
            0 <= i <= n,
            n == results.len(),
            infos@ == spec_successes(results@.take(i as int)),
            fails@ == spec_failures(results@.take(i as int)),
        decreases n - i,
    {
        proof {
            let pre = results@.take(i + 1);
            assert(pre.drop_last() =~= results@.take(i as int));
            assert(pre.last() == results@[i as int]);
        }
        match &results[i].outcome {
            Ok(info) => infos.push(info.clone()),
            Err(_) => fails.push(results[i].ticker.clone()),
        }
        i = i + 1;
    }
    proof {
        assert(results@.take(n as int) =~= results@);
    }
    (infos, fails)
}

/// Every ticker of a batch is accounted for exactly once: the successes and
/// the failed tickers are disjoint slots whose counts add up to the batch,
/// and — when each successful outcome carries its own ticker as its symbol —
/// the two lists' symbols together are exactly the batch's tickers.
pub proof fn lemma_results_partition(rs: Seq<TickerResult>)
    requires
        forall|i: int|
            0 <= i < rs.len() && (#[trigger] rs[i]).outcome is Ok ==> rs[i].outcome->Ok_0.symbol@
                == rs[i].ticker@,
    ensures
        spec_successes(rs).len() + spec_failures(rs).len() == rs.len(),
        spec_successes(rs).map_values(|s: StockInfo| s.symbol@).to_multiset().add(
            spec_failures(rs).map_values(|t: String| t@).to_multiset(),
        ) == rs.map_values(|r: TickerResult| r.ticker@).to_multiset(),
    decreases rs.len(),
{
    broadcast use vstd::seq_lib::group_to_multiset_ensures;

    let symbol_of = |s: StockInfo| s.symbol@;
    let view_of = |t: String| t@;
    let ticker_of = |r: TickerResult| r.ticker@;
    if rs.len() == 0 {
        assert(spec_successes(rs).map_values(symbol_of) =~= Seq::<Seq<char>>::empty());
        assert(spec_failures(rs).map_values(view_of) =~= Seq::<Seq<char>>::empty());
        assert(rs.map_values(ticker_of) =~= Seq::<Seq<char>>::empty());
        assert(spec_successes(rs).map_values(symbol_of).to_multiset().add(
            spec_failures(rs).map_values(view_of).to_multiset(),
        ) =~= rs.map_values(ticker_of).to_multiset());
    } else {
        let head = rs.drop_last();
        lemma_results_partition(head);
        let last = rs.last();
        assert(rs.map_values(ticker_of) =~= head.map_values(ticker_of).push(last.ticker@));
        match last.outcome {
            Ok(info) => {
                assert(spec_successes(rs).map_values(symbol_of) =~= spec_successes(
                    head,
                ).map_values(symbol_of).push(info.symbol@));
                assert(spec_failures(rs) == spec_failures(head));
                assert(info.symbol@ == last.ticker@);
                assert(spec_successes(rs).map_values(symbol_of).to_multiset().add(
                    spec_failures(rs).map_values(view_of).to_multiset(),
                ) =~= rs.map_values(ticker_of).to_multiset());
            },
            Err(_) => {
                assert(spec_failures(rs).map_values(view_of) =~= spec_failures(head).map_values(
                    view_of,
                ).push(last.ticker@));
                assert(spec_successes(rs) == spec_successes(head));
                assert(spec_successes(rs).map_values(symbol_of).to_multiset().add(
                    spec_failures(rs).map_values(view_of).to_multiset(),
                ) =~= rs.map_values(ticker_of).to_multiset());
            },
        }
    }
}

} // verus!
