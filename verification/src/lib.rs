//! Verified core of a WS2812 driver that speaks to the strip over an SPI bus.
//!
//! The strip's one-wire signal is imitated by the bus: each pair of bits of a
//! colour channel becomes one bus byte whose own bits, at the bus clock, have
//! the high and low times that the strip reads as those two bits.
//!
//! The library holds no bus. It fills the output buffer, and it decides which
//! bus operations a call consists of and when a call ends; the code that owns
//! the bus performs each operation and reports how it went.

pub mod color;
pub mod driver;
pub mod frame;
pub mod pattern;
pub mod transfer;

pub use color::Color;
pub use driver::Ws2812;
pub use frame::LED_BYTES;
pub use pattern::PATTERNS;
pub use transfer::{Action, BusOp, Payload, Transfer, BLANK_LEN, FILLER_LEN};
