//! Verified decision logic for a market-data server and a small LED board:
//! the rainbow frames that the board writes to its LEDs, the protocol that
//! drives a stream of simulated candlesticks, and the cooperative tasks that
//! the board's executor runs.

pub mod leds;
pub mod feed;
pub mod tasks;
