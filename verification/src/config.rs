//! Application configuration values.

use vstd::prelude::*;

verus! {

/// How the application runs.
#[derive(Debug, Clone, Copy, PartialEq, Eq)]
pub enum RunMode {
    Backtest,
    Paper,
    Live,
}

/// Exchange endpoints and credentials; every field is optional.
#[derive(Debug, Clone)]
pub struct ExchangeConfig {
    pub ws_url: Option<String>,
    pub rest_url: Option<String>,
    pub api_key: Option<String>,
    pub api_secret: Option<String>,
}

impl Default for ExchangeConfig {
    /// No endpoint and no credentials.
    fn default() -> (r: Self)
        ensures
            r.ws_url is None,
            r.rest_url is None,
            r.api_key is None,
            r.api_secret is None,
    {
        ExchangeConfig { ws_url: None, rest_url: None, api_key: None, api_secret: None }
    }
}

/// Where the market data lives and how precise it is.
#[derive(Debug, Clone)]
pub struct DataConfig {
    pub data_dir: String,
    pub symbol: String,
    pub start_date: Option<String>,
    pub end_date: Option<String>,
    pub price_precision: Option<u8>,
    pub size_precision: Option<u8>,
}

/// Where and how verbosely to log.
#[derive(Debug, Clone)]
pub struct LoggingConfig {
    pub log_dir: String,
    pub log_level: String,
    pub log_to_file: bool,
}

} // verus!
