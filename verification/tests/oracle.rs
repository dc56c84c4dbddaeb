use sai_token::{SaiError, SuperAIToken, PRICE_USDC, PRICE_XLM};

const ADMIN: u64 = 1;
const FOUNDER: u64 = 2;
const YIELD_TOKEN: u64 = 3;
const CHAINLINK: u64 = 4;
const BAND: u64 = 5;

fn setup() -> SuperAIToken {
    let mut t = SuperAIToken::new();
    t.initialize(ADMIN, FOUNDER, YIELD_TOKEN, CHAINLINK, BAND)
        .unwrap();
    t
}

#[test]
fn test_chainlink_price_feed() {
    let mut t = setup();
    let xlm_price = t.get_price_from_chainlink("XLM", 100);
    assert!(xlm_price.is_ok());
    assert_eq!(xlm_price, Ok(PRICE_XLM));
}

#[test]
fn test_band_oracle_price() {
    let t = setup();
    let usdc_price = t.get_price_from_band("USDC");
    assert!(usdc_price.is_ok());
    assert_eq!(usdc_price, Ok(PRICE_USDC));
}

#[test]
fn test_price_fallback_mechanism() {
    let mut t = setup();
    let price = t.get_price_with_fallback("XLM", 100);
    assert!(price.is_ok());
    assert_eq!(price, Ok(PRICE_XLM));
}

#[test]
fn stale_primary_reading_is_rejected() {
    let mut t = setup();
    // A read at the edge of the validity window is still fresh, and a
    // successful read advances the freshness record.
    assert_eq!(t.get_price_from_chainlink("XLM", 300), Ok(PRICE_XLM));
    assert_eq!(t.get_price_from_chainlink("XLM", 500), Ok(PRICE_XLM));
    // One second past the window the reading is stale, and a failed read
    // does not advance the record.
    assert_eq!(
        t.get_price_from_chainlink("XLM", 801),
        Err(SaiError::StalePrice)
    );
    assert_eq!(
        t.get_price_from_chainlink("XLM", 801),
        Err(SaiError::StalePrice)
    );
}

#[test]
fn fallback_serves_secondary_when_primary_is_stale() {
    let mut t = setup();
    assert_eq!(
        t.get_price_from_chainlink("XLM", 1000),
        Err(SaiError::StalePrice)
    );
    assert_eq!(t.get_price_with_fallback("XLM", 1000), Ok(PRICE_XLM));
}

#[test]
fn fallback_reports_secondary_error_when_both_fail() {
    let mut t = setup();
    // An asset neither source covers: the primary fails, the fallback
    // retries the secondary and surfaces its error.
    assert_eq!(
        t.get_price_with_fallback("DOGE", 100),
        Err(SaiError::OracleError)
    );
}

#[test]
fn unknown_asset_is_an_oracle_error() {
    let mut t = setup();
    assert_eq!(
        t.get_price_from_chainlink("DOGE", 100),
        Err(SaiError::OracleError)
    );
    assert_eq!(t.get_price_from_band("DOGE"), Err(SaiError::OracleError));
}

#[test]
fn price_queries_need_a_configuration() {
    let mut t = SuperAIToken::new();
    assert_eq!(
        t.get_price_from_chainlink("XLM", 100),
        Err(SaiError::OracleError)
    );
    assert_eq!(t.get_price_from_band("XLM"), Err(SaiError::OracleError));
}

#[test]
fn price_queries_fail_while_paused() {
    let mut t = setup();
    t.pause(ADMIN).unwrap();
    assert_eq!(
        t.get_price_from_chainlink("XLM", 100),
        Err(SaiError::ContractPaused)
    );
    assert_eq!(t.get_price_from_band("XLM"), Err(SaiError::ContractPaused));
    assert_eq!(
        t.get_price_with_fallback("XLM", 100),
        Err(SaiError::ContractPaused)
    );
    t.unpause(ADMIN).unwrap();
    assert_eq!(t.get_price_with_fallback("XLM", 100), Ok(PRICE_XLM));
}
