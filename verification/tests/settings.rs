use glft_mm_rust::config::{ExchangeConfig, LoggingConfig, RunMode};
use glft_mm_rust::logging::{level_from_uppercase, logging_plan, parse_level, LevelKind};
use glft_mm_rust::runner::backtest::{
    data_file_stem, parse_account_type, parse_book_type, parse_oms_type, split_symbol, AccountKind, BookKind, OmsKind,
    VenueSettingError,
};

#[test]
fn level_names_in_any_case() {
    assert_eq!(parse_level("trace"), LevelKind::Trace);
    assert_eq!(parse_level("Debug"), LevelKind::Debug);
    assert_eq!(parse_level("INFO"), LevelKind::Info);
    assert_eq!(parse_level("warning"), LevelKind::Warn);
    assert_eq!(parse_level("warn"), LevelKind::Warn);
    assert_eq!(parse_level("error"), LevelKind::Error);
    assert_eq!(parse_level("verbose"), LevelKind::Info);
    assert_eq!(level_from_uppercase("debug"), LevelKind::Info);
}

#[test]
fn logging_plan_follows_the_config() {
    let to_file = LoggingConfig { log_dir: "logs".to_string(), log_level: "debug".to_string(), log_to_file: true };
    let plan = logging_plan(&to_file);
    assert_eq!(plan.stdout_level, LevelKind::Debug);
    assert_eq!(plan.fileout_level, LevelKind::Debug);
    assert_eq!(plan.file_dir, Some("logs".to_string()));
    let console = LoggingConfig { log_to_file: false, ..to_file };
    let plan = logging_plan(&console);
    assert_eq!(plan.fileout_level, LevelKind::Off);
    assert_eq!(plan.file_dir, None);
}

#[test]
fn config_values() {
    let e = ExchangeConfig::default();
    assert!(e.ws_url.is_none() && e.rest_url.is_none() && e.api_key.is_none() && e.api_secret.is_none());
    assert_ne!(RunMode::Backtest, RunMode::Live);
}

#[test]
fn venue_settings() {
    assert_eq!(parse_oms_type("Netting"), Ok(OmsKind::Netting));
    assert_eq!(parse_oms_type("Hedging"), Ok(OmsKind::Hedging));
    assert_eq!(parse_oms_type("netting"), Err(VenueSettingError::UnknownOmsType("netting".to_string())));
    assert_eq!(parse_account_type("Cash"), Ok(AccountKind::Cash));
    assert_eq!(parse_account_type("Margin"), Ok(AccountKind::Margin));
    assert_eq!(parse_account_type("Spot"), Err(VenueSettingError::UnknownAccountType("Spot".to_string())));
    assert_eq!(parse_book_type("L1_MBP"), Ok(BookKind::L1Mbp));
    assert_eq!(parse_book_type("L2_MBP"), Ok(BookKind::L2Mbp));
    assert_eq!(parse_book_type("L3_MBO"), Ok(BookKind::L3Mbo));
    assert_eq!(parse_book_type("L2"), Err(VenueSettingError::UnknownBookType("L2".to_string())));
}

#[test]
fn symbols_split_at_the_first_dash() {
    assert_eq!(split_symbol("ETH-USDT"), ("ETH", "USDT"));
    assert_eq!(split_symbol("ETHUSDT-PERP-X"), ("ETHUSDT", "PERP-X"));
    assert_eq!(split_symbol("BTC"), ("BTC", "USDT"));
    assert_eq!(split_symbol("ÄB-C"), ("ÄB", "C"));
    assert_eq!(split_symbol("-"), ("", ""));
}

#[test]
fn data_file_stems_are_lowercase_with_underscores() {
    assert_eq!(data_file_stem("ETH-USDT.SIM"), "eth_usdt_sim");
    assert_eq!(data_file_stem("ETHUSDT-PERP.OKX"), "ethusdt_perp_okx");
    assert_eq!(data_file_stem("btcusdt"), "btcusdt");
    assert_eq!(data_file_stem(""), "");
}
