//! The oracle price resolver: staleness policy and fallback policy.
//!
//! The resolver owns only the policy around a price reading — pause
//! gating, configuration presence, the staleness window on the primary
//! source, and the silent fallback to the secondary source. The reading
//! itself comes from the source's published table, here the fixed quotes
//! the sources serve for the assets they cover.

use vstd::prelude::*;

use crate::errors::SaiError;
use crate::model::TokenModel;

verus! {

/// Unit price served for the XLM asset, with seven decimal places.
pub const PRICE_XLM: i128 = 0_1200000;

/// Unit price served for the USDC asset, with seven decimal places.
pub const PRICE_USDC: i128 = 1_0000000;

/// The quote a price source serves for an asset: a fixed table covering
/// XLM and USDC; any other asset is answered with `OracleError`.
pub open spec fn spec_quote(asset: Seq<char>) -> Result<i128, SaiError> {
    if asset == "XLM"@ {
        Ok(PRICE_XLM)
    } else if asset == "USDC"@ {
        Ok(PRICE_USDC)
    } else {
        Err(SaiError::OracleError)
    }
}

/// The executable counterpart of [`spec_quote`].
pub fn quote(asset: &str) -> (r: Result<i128, SaiError>)
    ensures
        r == spec_quote(asset@),
{
    let xlm: &str = "XLM";
    let usdc: &str = "USDC";
    if asset.to_owned() == xlm.to_owned() {
        Ok(PRICE_XLM)
    } else if asset.to_owned() == usdc.to_owned() {
        Ok(PRICE_USDC)
    } else {
        Err(SaiError::OracleError)
    }
}

/// A price read from the primary source.
///
/// Gated by the pause flag; fails with `OracleError` while no source is
/// configured; fails with `StalePrice` once the last reading has outlived
/// the validity window. On a successful reading the freshness record is
/// advanced to `now`; every failure leaves the state unchanged.
pub open spec fn chainlink_price_tr(s: TokenModel, asset: Seq<char>, now: u64) -> (
    TokenModel,
    Result<i128, SaiError>,
) {
    if s.paused {
        (s, Err(SaiError::ContractPaused))
    } else if s.config is None {
        (s, Err(SaiError::OracleError))
    } else if now - s.last_price_update > s.validity_period {
        (s, Err(SaiError::StalePrice))
    } else {
        match spec_quote(asset) {
            Ok(p) => (TokenModel { last_price_update: now, ..s }, Ok(p)),
            Err(e) => (s, Err(e)),
        }
    }
}

/// A price read from the secondary source.
///
/// Gated by the pause flag; fails with `OracleError` while no source is
/// configured. The secondary source is the emergency fallback and carries
/// no freshness record, so no staleness check applies and the state never
/// changes.
pub open spec fn band_price_tr(s: TokenModel, asset: Seq<char>) -> Result<i128, SaiError> {
    if s.paused {
        Err(SaiError::ContractPaused)
    } else if s.config is None {
        Err(SaiError::OracleError)
    } else {
        spec_quote(asset)
    }
}

/// A price read with fallback: the primary source first, and on any
/// primary failure — staleness included — the secondary source's result,
/// success or error.
pub open spec fn fallback_price_tr(s: TokenModel, asset: Seq<char>, now: u64) -> (
    TokenModel,
    Result<i128, SaiError>,
) {
    let (s1, primary) = chainlink_price_tr(s, asset, now);
    match primary {
        Ok(p) => (s1, Ok(p)),
        Err(_) => (s1, band_price_tr(s1, asset)),
    }
}

} // verus!
