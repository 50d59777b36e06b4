//! Rules of the historical OKX data converter: precision detection and the
//! layout of order-book delta batches.

pub mod orderbook;
pub mod trades;
