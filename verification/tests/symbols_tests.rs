use pie_report::symbols::{derive_ticker, parse_symbol_map, SymbolMap};

#[test]
fn parses_key_value_lines() {
    let map = parse_symbol_map("AAPL,AAPL.US\nVUAG,VUAA.DE\n");
    assert_eq!(map.lookup(&"AAPL".to_string()), Some("AAPL.US".to_string()));
    assert_eq!(map.lookup(&"VUAG".to_string()), Some("VUAA.DE".to_string()));
}

#[test]
fn missing_key_yields_none() {
    let map = parse_symbol_map("AAPL,AAPL.US\n");
    assert_eq!(map.lookup(&"MSFT".to_string()), None);
}

#[test]
fn malformed_lines_are_skipped_and_do_not_affect_other_entries() {
    let with_junk = parse_symbol_map("junk line\nAAPL,AAPL.US\nno separator here\n");
    let clean = parse_symbol_map("AAPL,AAPL.US\n");
    assert_eq!(with_junk.lookup(&"AAPL".to_string()), clean.lookup(&"AAPL".to_string()));
    assert_eq!(with_junk.lookup(&"junk line".to_string()), None);
}

#[test]
fn whitespace_around_key_and_value_is_trimmed() {
    let map = parse_symbol_map("  AAPL ,  AAPL.US  \n");
    assert_eq!(map.lookup(&"AAPL".to_string()), Some("AAPL.US".to_string()));
}

#[test]
fn last_occurrence_of_a_duplicate_key_wins() {
    let map = parse_symbol_map("A,first\nA,second\n");
    assert_eq!(map.lookup(&"A".to_string()), Some("second".to_string()));
}

#[test]
fn value_keeps_commas_after_the_first_separator() {
    let map = parse_symbol_map("A,b,c\n");
    assert_eq!(map.lookup(&"A".to_string()), Some("b,c".to_string()));
}

#[test]
fn derive_strips_suffix_with_empty_map() {
    let map = SymbolMap::new();
    assert_eq!(derive_ticker("MSFT_US_EQ", &map), "MSFT");
}

#[test]
fn derive_applies_mapping_to_base_ticker() {
    let mut map = SymbolMap::new();
    map.insert("AAPL".to_string(), "AAPL.US".to_string());
    assert_eq!(derive_ticker("AAPL_US_EQ", &map), "AAPL.US");
}

#[test]
fn derive_keeps_ticker_without_suffix() {
    let map = SymbolMap::new();
    assert_eq!(derive_ticker("MSFT", &map), "MSFT");
}

#[test]
fn derive_of_leading_underscore_is_empty() {
    let map = SymbolMap::new();
    assert_eq!(derive_ticker("_US_EQ", &map), "");
}
