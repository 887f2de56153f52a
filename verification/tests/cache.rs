use openlimits::decimal::Decimal;
use openlimits::errors::OpenLimitsError;
use openlimits::exchange::{Exchange, ExchangeWrapper};
use openlimits::info::{distinct_pairs, ExchangeInfo, MarketPair};
use openlimits::nash::adapter::Nash;
use openlimits::nash::markets::pairs_from_native;
use openlimits::nash::native;
use openlimits::nash::native::ResponseOrError;
use openlimits::shared::{clone_opt_text, timestamp_parts, to_unsigned};

fn pair(symbol: &str, precision: u32) -> MarketPair {
    MarketPair {
        base: "eth".to_string(),
        quote: "btc".to_string(),
        symbol: symbol.to_string(),
        base_increment: Decimal::new(1, precision).unwrap(),
        quote_increment: Decimal::new(1, 8).unwrap(),
        min_base_trade_size: Some(Decimal::parse("0.02").unwrap()),
        min_quote_trade_size: None,
    }
}

fn market(symbol: &str, precision_a: u32) -> native::Market {
    native::Market {
        symbol: symbol.to_string(),
        asset_a: "eth".to_string(),
        asset_b: "btc".to_string(),
        precision_a,
        precision_b: 8,
        min_trade_size_a: "0.02000".to_string(),
        min_trade_size_b: "0.0001".to_string(),
    }
}

#[test]
fn get_pair_before_refresh_is_unknown() {
    let info = ExchangeInfo::new();
    assert!(!info.ready());
    assert_eq!(info.get_pair("eth_btc"), Err(OpenLimitsError::SymbolNotFound));
    assert_eq!(info.list_pairs(), vec![]);
    assert_eq!(Nash::new().get_pair("eth_btc"), Err(OpenLimitsError::SymbolNotFound));
}

#[test]
fn get_pair_after_refresh_returns_cached_precision() {
    let mut info = ExchangeInfo::new();
    let listed = info.refresh(Ok(vec![pair("eth_btc", 4), pair("neo_eth", 2)])).unwrap();
    assert_eq!(listed, vec![pair("eth_btc", 4), pair("neo_eth", 2)]);
    assert!(info.ready());
    assert_eq!(info.get_pair("eth_btc"), Ok(pair("eth_btc", 4)));
    assert_eq!(info.get_pair("eth_btc").unwrap().base_increment.to_text(), "0.0001");
    assert_eq!(info.get_pair("neo_eth"), Ok(pair("neo_eth", 2)));
    assert_eq!(info.get_pair("eth_usdc"), Err(OpenLimitsError::SymbolNotFound));
    assert_eq!(info.get_pair("ETH_BTC"), Err(OpenLimitsError::SymbolNotFound));
}

#[test]
fn refresh_replaces_the_snapshot_wholesale() {
    let mut info = ExchangeInfo::new();
    info.refresh(Ok(vec![pair("eth_btc", 4), pair("neo_eth", 2)])).unwrap();
    let listed = info.refresh(Ok(vec![pair("eth_btc", 6), pair("eth_usdc", 3)])).unwrap();
    assert_eq!(listed, vec![pair("eth_btc", 6), pair("eth_usdc", 3)]);
    assert_eq!(info.get_pair("eth_btc"), Ok(pair("eth_btc", 6)));
    assert_eq!(info.get_pair("eth_usdc"), Ok(pair("eth_usdc", 3)));
    assert_eq!(info.get_pair("neo_eth"), Err(OpenLimitsError::SymbolNotFound));
}

#[test]
fn failed_refresh_leaves_the_snapshot() {
    let mut info = ExchangeInfo::new();
    let down = OpenLimitsError::NashProtocolError("timeout".to_string());
    assert_eq!(info.refresh(Err(down.clone())), Err(down.clone()));
    assert!(!info.ready());
    info.refresh(Ok(vec![pair("eth_btc", 4)])).unwrap();
    assert_eq!(info.refresh(Err(down.clone())), Err(down));
    assert!(info.ready());
    assert_eq!(info.get_pair("eth_btc"), Ok(pair("eth_btc", 4)));
    assert_eq!(info.list_pairs(), vec![pair("eth_btc", 4)]);
}

#[test]
fn refresh_with_no_pairs_is_ready_and_empty() {
    let mut info = ExchangeInfo::new();
    info.refresh(Ok(vec![pair("eth_btc", 4)])).unwrap();
    assert_eq!(info.refresh(Ok(vec![])), Ok(vec![]));
    assert!(info.ready());
    assert_eq!(info.get_pair("eth_btc"), Err(OpenLimitsError::SymbolNotFound));
}

#[test]
fn refresh_keeps_the_last_pair_of_a_symbol() {
    let mut info = ExchangeInfo::new();
    let listed = info
        .refresh(Ok(vec![pair("eth_btc", 4), pair("neo_eth", 2), pair("eth_btc", 5)]))
        .unwrap();
    assert_eq!(listed, vec![pair("eth_btc", 5), pair("neo_eth", 2)]);
    assert_eq!(info.get_pair("eth_btc"), Ok(pair("eth_btc", 5)));
    assert_eq!(
        distinct_pairs(&vec![pair("a", 1), pair("a", 2), pair("a", 3)]),
        vec![pair("a", 3)]
    );
}

#[test]
fn market_pair_of_native_market() {
    let p = MarketPair::from_native(&market("eth_btc", 4)).unwrap();
    assert_eq!(p.symbol, "eth_btc");
    assert_eq!(p.base, "eth");
    assert_eq!(p.quote, "btc");
    assert_eq!(p.base_increment.to_text(), "0.0001");
    assert_eq!(p.quote_increment.to_text(), "0.00000001");
    assert_eq!(p.min_base_trade_size.unwrap().to_text(), "0.02000");
    assert_eq!(p.min_quote_trade_size, Decimal::parse("0.0001"));
    assert_eq!(p.duplicate(), p);
}

#[test]
fn market_with_precision_out_of_range_fails() {
    assert_eq!(
        MarketPair::from_native(&market("eth_btc", 29)),
        Err(OpenLimitsError::NotParsableResponse("Market precision is out of range.".to_string()))
    );
    assert!(MarketPair::from_native(&market("eth_btc", 28)).is_ok());
    let mut bad = market("eth_btc", 4);
    bad.min_trade_size_b = "tiny".to_string();
    assert_eq!(
        MarketPair::from_native(&bad),
        Err(OpenLimitsError::NotParsableResponse("Couldn't parse Decimal from string.".to_string()))
    );
    assert!(pairs_from_native(&vec![market("a", 1), bad]).is_err());
}

#[test]
fn nash_refresh_fills_the_cache() {
    let mut nash = Nash::new();
    let resp = Ok(ResponseOrError::Response(native::ListMarketsResponse {
        markets: vec![market("eth_btc", 4), market("neo_eth", 2)],
    }));
    let retrieved = Nash::retrieve_pairs(resp);
    assert_eq!(retrieved.as_ref().unwrap().len(), 2);
    assert_eq!(nash.refresh_market_info(retrieved), Ok(()));
    assert_eq!(nash.get_pair("eth_btc").unwrap().base_increment.to_text(), "0.0001");
    // An error of the exchange leaves the cache as it was.
    let failed = Nash::retrieve_pairs(Ok(ResponseOrError::Error("maintenance".to_string())));
    assert_eq!(
        nash.refresh_market_info(failed),
        Err(OpenLimitsError::NashProtocolError("maintenance".to_string()))
    );
    assert_eq!(nash.get_pair("neo_eth").unwrap().base_increment.to_text(), "0.01");
    // So does a market that cannot be translated.
    let broken = Ok(ResponseOrError::Response(native::ListMarketsResponse {
        markets: vec![market("eth_usdc", 40)],
    }));
    assert!(nash.refresh_market_info(Nash::retrieve_pairs(broken)).is_err());
    assert!(nash.get_pair("eth_usdc").is_err());
    assert!(nash.get_pair("eth_btc").is_ok());
}

#[test]
fn timestamps_split_and_wrap() {
    assert_eq!(timestamp_parts(1_600_000_000_123), (1_600_000_000, 123_000_000));
    assert_eq!(timestamp_parts(0), (0, 0));
    assert_eq!(timestamp_parts(999), (0, 999_000_000));
    assert_eq!(timestamp_parts(u64::MAX), (18_446_744_073_709_551, 615_000_000));
    assert_eq!(to_unsigned(0), 0);
    assert_eq!(to_unsigned(i64::MAX), i64::MAX as u64);
    assert_eq!(to_unsigned(-1), u64::MAX);
    assert_eq!(to_unsigned(i64::MIN), 1u64 << 63);
    assert_eq!(clone_opt_text(&Some("a".to_string())), Some("a".to_string()));
}

struct Venue {
    refreshed: u32,
}

impl Exchange for Venue {
    fn refresh_market_info(
        &mut self,
        retrieved: Result<Vec<MarketPair>, OpenLimitsError>,
    ) -> Result<(), OpenLimitsError> {
        retrieved.map(|_| self.refreshed += 1)
    }
}

#[test]
fn wrapper_holds_the_exchange() {
    let wrapper = ExchangeWrapper::new(Venue { refreshed: 3 });
    assert_eq!(wrapper.inner().refreshed, 3);
    let mut venue = wrapper.into_inner();
    assert_eq!(venue.refresh_market_info(Ok(vec![])), Ok(()));
    assert_eq!(venue.refreshed, 4);
    assert_eq!(
        venue.refresh_market_info(Err(OpenLimitsError::SymbolNotFound)),
        Err(OpenLimitsError::SymbolNotFound)
    );
    assert_eq!(venue.refreshed, 4);
    let wrapped = ExchangeWrapper::new(Nash::new());
    assert_eq!(wrapped.inner().get_pair("eth_btc"), Err(OpenLimitsError::SymbolNotFound));
}

#[test]
fn instantiate_makes_an_exchange_with_an_empty_cache() {
    let wrapper = openlimits::exchange::OpenLimits::instantiate::<Nash>(());
    assert!(!wrapper.inner().exchange_info.ready());
    assert_eq!(wrapper.inner().get_pair("eth_btc"), Err(OpenLimitsError::SymbolNotFound));
}
