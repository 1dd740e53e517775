//! The HTML report: a pure, deterministic rendering of the accumulated
//! successes and failures, specified character by character.

use vstd::prelude::*;
use vstd::string::*;
use crate::fixed::{Fixed2, spec_plain_fixed2, spec_signed_fixed2};
use crate::market::StockInfo;

verus! {

/// The styling colour of a change: non-negative changes (a zero change
/// included) are `green`, negative ones `red`.
pub open spec fn spec_color(change: Fixed2) -> Seq<char> {
    if change.negative {
        "red"@
    } else {
        "green"@
    }
}

/// One success list item: the symbol in bold, the price with two decimal
/// places, and the signed percentage change in its styling colour.
pub open spec fn spec_item(info: StockInfo) -> Seq<char> {
    "<li><strong>"@ + info.symbol@ + "</strong>: Price: $"@ + spec_plain_fixed2(info.quote.price)
        + " <span style=\"color:"@ + spec_color(info.change.one_day_percent) + "\">("@
        + spec_signed_fixed2(info.change.one_day_percent) + "%)</span></li>"@
}

/// The success list items, in input order.
pub open spec fn spec_items(infos: Seq<StockInfo>) -> Seq<char>
    decreases infos.len(),
{
    if infos.len() == 0 {
        Seq::empty()
    } else {
        spec_items(infos.drop_last()) + spec_item(infos.last())
    }
}

/// The success section: its heading and the list of items.
pub open spec fn spec_success_section(infos: Seq<StockInfo>) -> Seq<char> {
    "<h1>Stock Information</h1><ul>"@ + spec_items(infos) + "</ul>"@
}

/// The failure list items, one per failed ticker, in input order.
pub open spec fn spec_failure_items(fails: Seq<String>) -> Seq<char>
    decreases fails.len(),
{
    if fails.len() == 0 {
        Seq::empty()
    } else {
        spec_failure_items(fails.drop_last()) + "<li>"@ + fails.last()@ + "</li>"@
    }
}

/// The failure section: its heading and the list of failed tickers.
pub open spec fn spec_failure_section(fails: Seq<String>) -> Seq<char> {
    "<h3>Failed to Fetch Stock Information</h3><ul>"@ + spec_failure_items(fails) + "</ul>"@
}

/// The whole report: the success section, followed by the failure section
/// exactly when there is at least one failed ticker.  An empty failure list
/// contributes nothing at all.
pub open spec fn spec_report(infos: Seq<StockInfo>, fails: Seq<String>) -> Seq<char> {
    if fails.len() == 0 {
        spec_success_section(infos)
    } else {
        spec_success_section(infos) + spec_failure_section(fails)
    }
}

/// The report is a pure function of its two inputs: equal inputs render to
/// the identical character sequence.
pub proof fn lemma_report_deterministic(
    s1: Seq<StockInfo>,
    f1: Seq<String>,
    s2: Seq<StockInfo>,
    f2: Seq<String>,
)
    requires
        s1 == s2,
        f1 == f2,
    ensures
        spec_report(s1, f1) == spec_report(s2, f2),
{
}

/// A non-empty failure list appends exactly one failure section, its
/// tickers in input order; an empty failure list appends nothing, leaving
/// the success section alone.
pub proof fn lemma_failure_section(infos: Seq<StockInfo>, fails: Seq<String>)
    ensures
        fails.len() > 0 ==> spec_report(infos, fails) == spec_success_section(infos)
            + spec_failure_section(fails),
        fails.len() == 0 ==> spec_report(infos, fails) == spec_success_section(infos),
{
}

/// A change of exactly zero is classified as non-negative and styled with
/// the positive colour.
pub proof fn lemma_zero_change_positive()
    ensures
        spec_color(Fixed2 { negative: false, hundredths: 0 }) == "green"@,
{
}

/// Renders the report for the given successes and failed tickers, exactly
/// as `spec_report` states it.
pub fn build_report(successes: Vec<StockInfo>, failures: Vec<String>) -> (r: String)
    ensures
        r@ == spec_report(successes@, failures@),
{
    let mut body = String::new();
    body.append("<h1>Stock Information</h1><ul>");
    let n: usize = successes.len();
    proof {
        assert(successes@.take(0) =~= Seq::<StockInfo>::empty());
        assert(body@ =~= "<h1>Stock Information</h1><ul>"@ + spec_items(successes@.take(0)));
    }
    let mut i: usize = 0;
    while i < n
        invariant
            0 <= i <= n,
            n == successes.len(),
            body@ == "<h1>Stock Information</h1><ul>"@ + spec_items(successes@.take(i as int)),
        decreases n - i,
    {
        body.append("<li><strong>");
        body.append(successes[i].symbol.as_str());
        body.append("</strong>: Price: $");
        let price = successes[i].quote.price.render_plain();
        body.append(price.as_str());
        body.append(" <span style=\"color:");
        if successes[i].change.one_day_percent.negative {
            body.append("red");
        } else {
            body.append("green");
        }
        body.append("\">(");
        let change = successes[i].change.one_day_percent.render_signed();
        body.append(change.as_str());
        body.append("%)</span></li>");
        proof {
            let pre = successes@.take(i + 1);
            assert(pre.drop_last() =~= successes@.take(i as int));
            assert(pre.last() == successes@[i as int]);
            assert(body@ =~= "<h1>Stock Information</h1><ul>"@ + spec_items(pre));
        }
        i = i + 1;
    }
    proof {
        assert(successes@.take(n as int) =~= successes@);
    }
    body.append("</ul>");
    proof {
        assert(body@ =~= spec_success_section(successes@));
    }
    if failures.len() > 0 {
        body.append("<h3>Failed to Fetch Stock Information</h3><ul>");
        let m: usize = failures.len();
        proof {
            assert(failures@.take(0) =~= Seq::<String>::empty());
            assert(body@ =~= spec_success_section(successes@)
                + "<h3>Failed to Fetch Stock Information</h3><ul>"@ + spec_failure_items(
                failures@.take(0),
            ));
        }
        let mut j: usize = 0;
        while j < m
            invariant
                0 <= j <= m,
                m == failures.len(),
                body@ == spec_success_section(successes@)
                    + "<h3>Failed to Fetch Stock Information</h3><ul>"@ + spec_failure_items(
                    failures@.take(j as int),
                ),
            decreases m - j,
        {
            body.append("<li>");
            body.append(failures[j].as_str());
            body.append("</li>");
            proof {
                let pre = failures@.take(j + 1);
                assert(pre.drop_last() =~= failures@.take(j as int));
                assert(pre.last() == failures@[j as int]);
                assert(body@ =~= spec_success_section(successes@)
                    + "<h3>Failed to Fetch Stock Information</h3><ul>"@ + spec_failure_items(pre));
            }
            j = j + 1;
        }
        proof {
            assert(failures@.take(m as int) =~= failures@);
        }
        body.append("</ul>");
        proof {
            assert(body@ =~= spec_report(successes@, failures@));
        }
    }
    body
}

} // verus!
