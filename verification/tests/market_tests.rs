use pie_report::fixed::Fixed2;
use pie_report::market::{
    collect_results, evaluate_ticker, first_value, status_is_success, EndpointResponse,
    FetchError, PriceChange, Quote, StockInfo, TickerResult,
};
use pie_report::pie::{evaluate_pie_response, Holding, Pie, PieError, PieSettings};

fn ok_response(values: Vec<Fixed2>) -> EndpointResponse {
    EndpointResponse { status: 200, body: Some(values) }
}

#[test]
fn success_statuses_are_the_two_hundreds() {
    assert!(status_is_success(200));
    assert!(status_is_success(299));
    assert!(!status_is_success(199));
    assert!(!status_is_success(300));
    assert!(!status_is_success(404));
}

#[test]
fn non_success_status_is_a_remote_error() {
    let r = EndpointResponse { status: 404, body: None };
    assert_eq!(first_value(&r), Err(FetchError::Remote(404)));
}

#[test]
fn undecoded_body_is_a_decode_error() {
    let r = EndpointResponse { status: 200, body: None };
    assert_eq!(first_value(&r), Err(FetchError::Decode));
}

#[test]
fn empty_array_on_success_status_is_recorded_as_failure() {
    let r = ok_response(Vec::new());
    assert_eq!(first_value(&r), Err(FetchError::Empty));
}

#[test]
fn first_element_of_the_array_is_taken() {
    let r = ok_response(vec![Fixed2::new(false, 12340), Fixed2::new(false, 1)]);
    assert_eq!(first_value(&r), Ok(Fixed2::new(false, 12340)));
}

#[test]
fn both_endpoints_good_yield_stock_info() {
    let quote = ok_response(vec![Fixed2::new(false, 12340)]);
    let change = ok_response(vec![Fixed2::new(true, 124)]);
    let r = evaluate_ticker(&"MSFT".to_string(), &quote, &change).unwrap();
    assert_eq!(r.symbol, "MSFT");
    assert_eq!(r.quote.price, Fixed2::new(false, 12340));
    assert_eq!(r.change.one_day_percent, Fixed2::new(true, 124));
}

#[test]
fn quote_error_wins_over_change() {
    let quote = EndpointResponse { status: 500, body: None };
    let change = ok_response(vec![Fixed2::new(false, 1)]);
    let r = evaluate_ticker(&"MSFT".to_string(), &quote, &change);
    assert_eq!(r.unwrap_err(), FetchError::Remote(500));
}

#[test]
fn change_error_fails_the_ticker() {
    let quote = ok_response(vec![Fixed2::new(false, 1)]);
    let change = ok_response(Vec::new());
    let r = evaluate_ticker(&"MSFT".to_string(), &quote, &change);
    assert_eq!(r.unwrap_err(), FetchError::Empty);
}

#[test]
fn collect_preserves_order_and_splits_outcomes() {
    let good = StockInfo {
        symbol: "MSFT".to_string(),
        quote: Quote { price: Fixed2::new(false, 12340) },
        change: PriceChange { one_day_percent: Fixed2::new(false, 200) },
    };
    let results = vec![
        TickerResult { ticker: "MSFT".to_string(), outcome: Ok(good.clone()) },
        TickerResult { ticker: "AAA".to_string(), outcome: Err(FetchError::Remote(404)) },
        TickerResult { ticker: "BBB".to_string(), outcome: Err(FetchError::Empty) },
    ];
    let (infos, fails) = collect_results(results);
    assert_eq!(infos.len(), 1);
    assert_eq!(infos[0], good);
    assert_eq!(fails, vec!["AAA".to_string(), "BBB".to_string()]);
}

#[test]
fn pie_non_success_status_is_remote_error() {
    assert_eq!(
        evaluate_pie_response(500, None).map(|_| ()),
        Err(PieError::Remote(500))
    );
}

#[test]
fn pie_success_without_decoded_body_is_decode_error() {
    assert_eq!(evaluate_pie_response(200, None).map(|_| ()), Err(PieError::Decode));
}

#[test]
fn pie_decoded_success_is_returned() {
    let pie = Pie {
        settings: PieSettings { name: "Dynamic Pie".to_string(), creation_date: 1750267596, id: 7 },
        instruments: vec![Holding {
            ticker: "MSFT_US_EQ".to_string(),
            current_share: Fixed2::new(false, 100),
            expected_share: Fixed2::new(false, 100),
        }],
    };
    let out = evaluate_pie_response(200, Some(pie)).unwrap();
    assert_eq!(out.settings.name, "Dynamic Pie");
    assert_eq!(out.instruments.len(), 1);
    assert_eq!(out.instruments[0].ticker, "MSFT_US_EQ");
}
