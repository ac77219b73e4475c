//! Resumable ingestion of historical candles: page decoding, page naming,
//! the checkpoint set shared by all pairs, and the per-pair pagination
//! state machine.

pub mod candle;
pub mod checkpoint;
pub mod text;
pub mod worker;
