pub mod candle_builder;
pub mod realtime;
