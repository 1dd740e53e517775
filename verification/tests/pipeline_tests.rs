//! The whole pipeline on plain values: derive the lookup tickers of a pie,
//! judge each ticker's endpoint responses, accumulate, and render.

use pie_report::fixed::Fixed2;
use pie_report::mailer::daily_message;
use pie_report::market::{
    collect_results, evaluate_ticker, first_value, EndpointResponse, TickerResult,
};
use pie_report::pie::{derive_tickers, Holding};
use pie_report::report::build_report;
use pie_report::symbols::SymbolMap;

fn holding(ticker: &str) -> Holding {
    Holding {
        ticker: ticker.to_string(),
        current_share: Fixed2::new(false, 50),
        expected_share: Fixed2::new(false, 50),
    }
}

#[test]
fn pie_with_one_good_and_one_bad_ticker_renders_both_sections() {
    let instruments = vec![holding("MSFT_US_EQ"), holding("FAKE_US_EQ")];
    let map = SymbolMap::new();
    let tickers = derive_tickers(&instruments, &map);
    assert_eq!(tickers, vec!["MSFT".to_string(), "FAKE".to_string()]);

    let mut results: Vec<TickerResult> = Vec::new();
    for ticker in tickers {
        let outcome = if ticker == "MSFT" {
            let quote = EndpointResponse {
                status: 200,
                body: Some(vec![Fixed2::new(false, 12340)]),
            };
            let change = EndpointResponse {
                status: 200,
                body: Some(vec![Fixed2::new(false, 200)]),
            };
            evaluate_ticker(&ticker, &quote, &change)
        } else {
            let quote = EndpointResponse { status: 404, body: None };
            first_value(&quote).map(|_| unreachable!())
        };
        results.push(TickerResult { ticker, outcome });
    }

    let (infos, fails) = collect_results(results);
    assert_eq!(infos.len(), 1);
    assert_eq!(fails, vec!["FAKE".to_string()]);

    let report = build_report(infos, fails);
    assert_eq!(
        report,
        "<h1>Stock Information</h1><ul><li><strong>MSFT</strong>: Price: $123.40 \
         <span style=\"color:green\">(+2.00%)</span></li></ul>\
         <h3>Failed to Fetch Stock Information</h3><ul><li>FAKE</li></ul>"
    );
}

#[test]
fn daily_message_addresses_the_sender() {
    let m = daily_message(
        &"user@example.com".to_string(),
        &"SECRET-REDACTED".to_string(),
        "<h1>body</h1>".to_string(),
    );
    assert_eq!(m.from_email, "user@example.com");
    assert_eq!(m.to, "user@example.com");
    assert_eq!(m.from_password, "SECRET-REDACTED");
    assert_eq!(m.subject, "Daily Pie Email!");
    assert_eq!(m.html_body, "<h1>body</h1>");
}
