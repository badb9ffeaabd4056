pub mod bitget;
pub mod bybit;
pub mod feed;
