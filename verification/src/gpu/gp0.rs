//! The GPU rendering port.
use vstd::prelude::*;

verus! {

/// [GP0](http://problemkaputt.de/psx-spx.htm#gpuioportsdmachannelscommandsvram) register at `0x1F80_1810`.
/// Used to send commands for rendering and VRAM access; see
/// [`DrawPort`](crate::gpu::draw_port::DrawPort) for the commands themselves.
pub struct GP0;

impl GP0 {
    /// The register's address.
    pub fn address() -> (a: u32)
        ensures
            a == 0x1F80_1810,
    {
        0x1F80_1810
    }
}

} // verus!
