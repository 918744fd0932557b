//! Allocators that hand out tagged primitive packets.
pub mod buffer;

pub use buffer::{DoubleBuffer, SingleBuffer, SinglePacket};
