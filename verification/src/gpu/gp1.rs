//! The GPU display control port.
use vstd::prelude::*;
use crate::gpu::disp_port::{dma_code, DmaSource};
use crate::gpu::PackedVertex;
use vstd::std_specs::convert::FromSpec;

verus! {

/// [GP1](http://problemkaputt.de/psx-spx.htm#gpuioportsdmachannelscommandsvram) register at `0x1F80_1814`.
/// Used to send commands for display and DMA control. Commands written to it
/// queue up in order; the caller hands them to the hardware register.
pub struct GP1 {
    sent: Vec<u32>,
}

/// The command word with `n` in the top byte.
pub open spec fn cmd(n: u32) -> u32 {
    n << 24u32
}

impl GP1 {
    /// The register's address.
    pub fn address() -> (a: u32)
        ensures
            a == 0x1F80_1814,
    {
        0x1F80_1814
    }

    /// The commands written so far, oldest first.
    pub closed spec fn sent(&self) -> Seq<u32> {
        self.sent@
    }

    /// A port with nothing written.
    pub fn new() -> (p: Self)
        ensures
            p.sent() == Seq::<u32>::empty(),
    {
        GP1 { sent: Vec::new() }
    }

    /// Hands over the commands written so far, oldest first, and forgets them.
    pub fn drain(&mut self) -> (w: Vec<u32>)
        ensures
            w@ == old(self).sent(),
            final(self).sent() == Seq::<u32>::empty(),
    {
        let mut w = Vec::new();
        core::mem::swap(&mut w, &mut self.sent);
        w
    }

    fn write(&mut self, w: u32) -> (r: &mut Self)
        ensures
            r.sent() == old(self).sent().push(w),
            *final(self) == *final(r),
    {
        self.sent.push(w);
        self
    }

    /// Resets the GPU with GP1 command 0x00.
    pub fn reset_gpu(&mut self) -> (r: &mut Self)
        ensures
            r.sent() == old(self).sent().push(cmd(0)),
            *final(self) == *final(r),
    {
        self.write(0u32 << 24u32)
    }

    /// Resets the GPU command buffer with GP1 command 0x01.
    pub fn reset_command_buffer(&mut self) -> (r: &mut Self)
        ensures
            r.sent() == old(self).sent().push(cmd(0x01)),
            *final(self) == *final(r),
    {
        self.write(0x01u32 << 24u32)
    }

    /// Sets the display mask with GP1 command 0x03: bit 0 set turns the
    /// display off.
    pub fn display_enable(&mut self, enable: bool) -> (r: &mut Self)
        ensures
            r.sent() == old(self).sent().push(cmd(0x03) | (if enable { 0u32 } else { 1u32 })),
            *final(self) == *final(r),
    {
        let off: u32 = if enable { 0 } else { 1 };
        self.write((0x03u32 << 24u32) | off)
    }

    /// Sets the DMA direction with GP1 command 0x04.
    pub fn dma_direction(&mut self, dir: DmaSource) -> (r: &mut Self)
        ensures
            r.sent() == old(self).sent().push(cmd(0x04) | dma_code(dir)),
            *final(self) == *final(r),
    {
        let code: u32 = match dir {
            DmaSource::Off => 0,
            DmaSource::FIFO => 1,
            DmaSource::CPU => 2,
            DmaSource::GPU => 3,
        };
        self.write((0x04u32 << 24u32) | code)
    }

    /// Sets the start of the display area with GP1 command 0x05.
    pub fn start_display_area(&mut self, start: PackedVertex<3, 10, 9>) -> (r: &mut Self)
        ensures
            r.sent() == old(self).sent().push(cmd(0x05) | u32::from_spec(start)),
            *final(self) == *final(r),
    {
        self.write((0x05u32 << 24u32) | u32::from(start))
    }

    /// Sets the horizontal display range with GP1 command 0x06.
    pub fn horizontal_range(&mut self, range: PackedVertex<3, 12, 12>) -> (r: &mut Self)
        ensures
            r.sent() == old(self).sent().push(cmd(0x06) | u32::from_spec(range)),
            *final(self) == *final(r),
    {
        self.write((0x06u32 << 24u32) | u32::from(range))
    }

    /// Sets the vertical display range with GP1 command 0x07.
    pub fn vertical_range(&mut self, range: PackedVertex<3, 10, 10>) -> (r: &mut Self)
        ensures
            r.sent() == old(self).sent().push(cmd(0x07) | u32::from_spec(range)),
            *final(self) == *final(r),
    {
        self.write((0x07u32 << 24u32) | u32::from(range))
    }
}

} // verus!
