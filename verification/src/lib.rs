//! A platform-agnostic driver core for the MCP3008 / MCP3004 family of
//! 10-bit SPI analog-to-digital converters.
//!
//! The protocol is a single fixed-length exchange: a 3-byte command frame
//! selects a channel, and the 3-byte reply carries a 10-bit sample. The
//! frame codec is shared by every driver variant; the drivers are generic
//! over a full-duplex bus transaction capability supplied by the platform.

mod bus;
mod channel;
mod codec;
mod driver;

pub use bus::SpiTransaction;
pub use channel::Channels4;
pub use channel::Channels8;
pub use driver::AsyncMcp3004;
pub use driver::AsyncMcp3008;
pub use driver::Mcp3004;
pub use driver::Mcp3008;
pub use codec::decode_reply;
pub use codec::encode_command;
pub use codec::lemma_decode_masks_high_bits;
pub use codec::lemma_decode_round_trip;
pub use codec::lemma_sample_in_range;
pub use codec::spec_command_frame;
pub use codec::spec_sample;
