//! A driver for the BNO080 sensor hub that speaks the Sensor Hub Transport
//! Protocol over a byte transport supplied by the caller.
//!
//! `codec` frames and parses packets, `sequencer` numbers the frames of each
//! channel, `dispatch` routes a received frame by channel and report id,
//! `state` holds what the driver remembers, `init` names the steps of the
//! start-up handshake, and `wrapper` is the driver itself.

pub mod codec;
pub mod dispatch;
pub mod init;
pub mod interface;
pub mod sequencer;
pub mod state;
pub mod wrapper;

pub use wrapper::{WrapperError, BNO080};
