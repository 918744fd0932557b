//! The GPU status register.
use vstd::prelude::*;
use crate::gpu::VideoMode;

verus! {

/// [GPUSTAT](http://problemkaputt.de/psx-spx.htm#gpuioportsdmachannelscommandsvram) register at `0x1F80_1814`.
/// Used to check GPU status.
pub struct GPUSTAT;

impl GPUSTAT {
    /// The register's address.
    pub fn address() -> (a: u32)
        ensures
            a == 0x1F80_1814,
    {
        0x1F80_1814
    }
}

/// The parity of a scanline.
#[derive(Clone, Copy, PartialEq, Eq, Debug, Structural)]
pub enum Parity {
    Even,
    Odd,
}

/// A value read from the GPU status register.
#[derive(Clone, Copy, PartialEq, Eq, Debug, Structural)]
pub struct Value {
    /// The register's bits.
    pub bits: u32,
}

/// Bit `n` of `bits` is set.
pub open spec fn bit_set(bits: u32, n: u32) -> bool {
    bits & (1u32 << n) != 0
}

impl Value {
    /// The status given by the bits read from the register.
    pub fn new(bits: u32) -> (v: Self)
        ensures
            v.bits == bits,
    {
        Value { bits }
    }

    /// Checks if video is interlaced: bit 22.
    pub fn interlaced(&self) -> (b: bool)
        ensures
            b == bit_set(self.bits, 22),
    {
        self.bits & (1u32 << 22u32) != 0
    }

    /// Checks if DMA is enabled for the GPU: either of bits 29 and 30.
    pub fn dma_enabled(&self) -> (b: bool)
        ensures
            b == (self.bits & (3u32 << 29u32) != 0),
            b == (bit_set(self.bits, 29) || bit_set(self.bits, 30)),
    {
        let bits = self.bits;
        assert((bits & (3u32 << 29u32) != 0) == (bits & (1u32 << 29u32) != 0 || bits & (1u32
            << 30u32) != 0)) by (bit_vector);
        self.bits & (3u32 << 29u32) != 0
    }

    /// Checks if the GPU is ready to receive a DMA block: bit 28.
    pub fn dma_ready(&self) -> (b: bool)
        ensures
            b == bit_set(self.bits, 28),
    {
        self.bits & (1u32 << 28u32) != 0
    }

    /// Checks if the GPU is ready to receive a command: bit 26.
    pub fn cmd_ready(&self) -> (b: bool)
        ensures
            b == bit_set(self.bits, 26),
    {
        self.bits & (1u32 << 26u32) != 0
    }

    /// Gets the current video mode: PAL when bit 20 is set.
    pub fn video_mode(&self) -> (m: VideoMode)
        ensures
            m == (if bit_set(self.bits, 20) {
                VideoMode::PAL
            } else {
                VideoMode::NTSC
            }),
    {
        if self.bits & (1u32 << 20u32) != 0 {
            VideoMode::PAL
        } else {
            VideoMode::NTSC
        }
    }

    /// Gets the parity of the line being drawn: odd when bit 31 is set.
    pub fn line(&self) -> (p: Parity)
        ensures
            p == (if bit_set(self.bits, 31) {
                Parity::Odd
            } else {
                Parity::Even
            }),
    {
        if self.bits & (1u32 << 31u32) != 0 {
            Parity::Odd
        } else {
            Parity::Even
        }
    }
}

/// A reading of the GPU status register, for the readiness check.
#[derive(Clone, Copy, PartialEq, Eq, Debug, Structural)]
pub struct GpuStat {
    /// The register's bits.
    pub bits: u32,
}

impl GpuStat {
    /// Whether the GPU is ready for a command: bit 26.
    pub fn ready(&self) -> (b: bool)
        ensures
            b == bit_set(self.bits, 26),
    {
        let bits = self.bits;
        assert(((bits >> 26u32) & 1 == 1) == (bits & (1u32 << 26u32) != 0)) by (bit_vector);
        (self.bits >> 26u32) & 1 == 1
    }
}

} // verus!
