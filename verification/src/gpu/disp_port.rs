use vstd::prelude::*;
use crate::gpu::Vertex;

verus! {

/// A coordinate in pixels.
pub type Pixel = i16;

/// Where the GPU takes DMA data from.
#[derive(Clone, Copy, PartialEq, Eq, Debug, Structural)]
pub enum DmaSource {
    Off,
    FIFO,
    CPU,
    GPU,
}

/// Video mode.
#[derive(Clone, Copy, PartialEq, Eq, Debug, Structural)]
pub enum Vmode {
    NTSC,
    PAL,
}

/// Display color depth.
#[derive(Clone, Copy, PartialEq, Eq, Debug, Structural)]
pub enum Depth {
    /// 15-bit color.
    Lo,
    /// 24-bit color.
    Hi,
}

/// The display control port (GP1). Commands written to it queue up in
/// order; the caller hands them to the hardware register.
pub struct DispPort {
    sent: Vec<u32>,
}

/// The code of a DMA source in a DMA direction command.
pub open spec fn dma_code(dir: DmaSource) -> u32 {
    match dir {
        DmaSource::Off => 0,
        DmaSource::FIFO => 1,
        DmaSource::CPU => 2,
        DmaSource::GPU => 3,
    }
}

/// A display command word: the command in the top byte, `x` masked to its
/// field, `y` masked to its field and shifted up by `shift`.
pub open spec fn display_word(cmd: u32, xmask: i16, ymask: i16, shift: u32, x: i16, y: i16) -> u32 {
    (cmd << 24u32) | ((x & xmask) as u32) | (((y & ymask) as u32) << shift)
}

/// The horizontal resolutions the display mode command accepts.
pub open spec fn valid_hres(hres: Pixel) -> bool {
    hres == 256 || hres == 320 || hres == 512 || hres == 640 || hres == 368
}

/// The vertical resolutions the display mode command accepts.
pub open spec fn valid_vres(vres: Pixel) -> bool {
    vres == 240 || vres == 480
}

/// The display mode command word.
pub open spec fn mode_word(hres: Pixel, vres: Pixel, vmode: Vmode, depth: Depth, interlace: bool) -> u32 {
    let h: u32 = if hres == 256 {
        0
    } else if hres == 320 {
        1
    } else if hres == 512 {
        2
    } else if hres == 640 {
        3
    } else {
        0x40
    };
    let v: u32 = if vres == 240 {
        0
    } else {
        0x4
    };
    let m: u32 = match vmode {
        Vmode::NTSC => 0,
        Vmode::PAL => 0x8,
    };
    let d: u32 = match depth {
        Depth::Lo => 0,
        Depth::Hi => 0x10,
    };
    let i: u32 = if interlace {
        0x20
    } else {
        0
    };
    0x0800_0000 | h | v | m | d | i
}

/// The horizontal resolution the GPU reads from a display mode word: 368
/// pixels when bit 6 is set, else 256, 320, 512 or 640 pixels by bits 0
/// and 1.
pub open spec fn mode_hres(w: u32) -> Pixel {
    if w & 0x40 != 0 {
        368
    } else if w & 3 == 0 {
        256
    } else if w & 3 == 1 {
        320
    } else if w & 3 == 2 {
        512
    } else {
        640
    }
}

/// The vertical resolution the GPU reads from a display mode word: 480
/// lines when bit 2 is set, else 240.
pub open spec fn mode_vres(w: u32) -> Pixel {
    if w & 4 != 0 {
        480
    } else {
        240
    }
}

/// The video standard the GPU reads from a display mode word: PAL when bit
/// 3 is set.
pub open spec fn mode_vmode(w: u32) -> Vmode {
    if w & 8 != 0 {
        Vmode::PAL
    } else {
        Vmode::NTSC
    }
}

/// The color depth the GPU reads from a display mode word: 24 bits when bit
/// 4 is set.
pub open spec fn mode_depth(w: u32) -> Depth {
    if w & 0x10 != 0 {
        Depth::Hi
    } else {
        Depth::Lo
    }
}

/// Whether the GPU reads interlacing from a display mode word: bit 5.
pub open spec fn mode_interlace(w: u32) -> bool {
    w & 0x20 != 0
}

/// The display mode word says what was asked of it: the GPU reads back the
/// command `0x08` and every setting from it, so different settings give
/// different words.
pub proof fn lemma_mode_word_reads_back(
    hres: Pixel,
    vres: Pixel,
    vmode: Vmode,
    depth: Depth,
    interlace: bool,
)
    requires
        valid_hres(hres),
        valid_vres(vres),
    ensures
        mode_word(hres, vres, vmode, depth, interlace) >> 24u32 == 0x08,
        mode_word(hres, vres, vmode, depth, interlace) & 0x00FF_FF80 == 0,
        hres == 368 ==> mode_word(hres, vres, vmode, depth, interlace) & 3 == 0,
        mode_hres(mode_word(hres, vres, vmode, depth, interlace)) == hres,
        mode_vres(mode_word(hres, vres, vmode, depth, interlace)) == vres,
        mode_vmode(mode_word(hres, vres, vmode, depth, interlace)) == vmode,
        mode_depth(mode_word(hres, vres, vmode, depth, interlace)) == depth,
        mode_interlace(mode_word(hres, vres, vmode, depth, interlace)) == interlace,
{
    let w = mode_word(hres, vres, vmode, depth, interlace);
    let (h0, v0, m0, d0, i0): (u32, u32, u32, u32, u32) = (
        if hres == 256 {
            0
        } else if hres == 320 {
            1
        } else if hres == 512 {
            2
        } else if hres == 640 {
            3
        } else {
            0x40
        },
        if vres == 240 {
            0
        } else {
            4
        },
        match vmode {
            Vmode::NTSC => 0,
            Vmode::PAL => 8,
        },
        match depth {
            Depth::Lo => 0,
            Depth::Hi => 0x10,
        },
        if interlace {
            0x20
        } else {
            0
        },
    );
    assert(w == 0x0800_0000 | h0 | v0 | m0 | d0 | i0);
    assert((h0 <= 3 || h0 == 0x40) && (v0 == 0 || v0 == 4) && (m0 == 0 || m0 == 8) && (d0 == 0
        || d0 == 0x10) && (i0 == 0 || i0 == 0x20) && w == 0x0800_0000 | h0 | v0 | m0 | d0 | i0
        ==> w >> 24u32 == 0x08 && w & 0x00FF_FF80 == 0 && w & 0x40 == h0 & 0x40 && w & 3 == h0 & 3 && (
        h0 <= 3 ==> h0 & 0x40 == 0 && h0 & 3 == h0) && (h0 == 0x40 ==> h0 & 0x40 != 0 && w & 3 == 0) && w & 4
        == v0 && w & 8 == m0 && w & 0x10 == d0 && w & 0x20 == i0) by (bit_vector);
}

/// The display area and range commands carry their coordinates in the
/// fields the GPU reads: the start of the display area (command `0x05`) x
/// in bits 0 to 9 and y in bits 10 to 18, the horizontal range (`0x06`) x1
/// in bits 0 to 11 and x2 in bits 12 to 23, the vertical range (`0x07`) y1
/// in bits 0 to 9 and y2 in bits 10 to 19, the bits between clear.
pub proof fn lemma_display_word_fields(x: i16, y: i16)
    ensures
        display_word(0x05, 0x3ff, 0x1ff, 10, x, y) >> 24u32 == 0x05,
        display_word(0x05, 0x3ff, 0x1ff, 10, x, y) & 0x3ff == (x as u16 as u32) & 0x3ff,
        (display_word(0x05, 0x3ff, 0x1ff, 10, x, y) >> 10u32) & 0x1ff == (y as u16 as u32) & 0x1ff,
        (display_word(0x05, 0x3ff, 0x1ff, 10, x, y) >> 19u32) & 0x1f == 0,
        display_word(0x06, 0xfff, 0xfff, 12, x, y) >> 24u32 == 0x06,
        display_word(0x06, 0xfff, 0xfff, 12, x, y) & 0xfff == (x as u16 as u32) & 0xfff,
        (display_word(0x06, 0xfff, 0xfff, 12, x, y) >> 12u32) & 0xfff == (y as u16 as u32) & 0xfff,
        display_word(0x07, 0x3ff, 0x3ff, 10, x, y) >> 24u32 == 0x07,
        display_word(0x07, 0x3ff, 0x3ff, 10, x, y) & 0x3ff == (x as u16 as u32) & 0x3ff,
        (display_word(0x07, 0x3ff, 0x3ff, 10, x, y) >> 10u32) & 0x3ff == (y as u16 as u32) & 0x3ff,
        (display_word(0x07, 0x3ff, 0x3ff, 10, x, y) >> 20u32) & 0xf == 0,
{
    let (a, b, c) = (
        display_word(0x05, 0x3ff, 0x1ff, 10, x, y),
        display_word(0x06, 0xfff, 0xfff, 12, x, y),
        display_word(0x07, 0x3ff, 0x3ff, 10, x, y),
    );
    assert(a == (0x05u32 << 24u32) | ((x & 0x3ff) as u32) | (((y & 0x1ff) as u32) << 10u32));
    assert(b == (0x06u32 << 24u32) | ((x & 0xfff) as u32) | (((y & 0xfff) as u32) << 12u32));
    assert(c == (0x07u32 << 24u32) | ((x & 0x3ff) as u32) | (((y & 0x3ff) as u32) << 10u32));
    assert({
        let a = (0x05u32 << 24u32) | ((x & 0x3ff) as u32) | (((y & 0x1ff) as u32) << 10u32);
        let b = (0x06u32 << 24u32) | ((x & 0xfff) as u32) | (((y & 0xfff) as u32) << 12u32);
        let c = (0x07u32 << 24u32) | ((x & 0x3ff) as u32) | (((y & 0x3ff) as u32) << 10u32);
        &&& a >> 24u32 == 0x05 && a & 0x3ff == (x as u16 as u32) & 0x3ff
        &&& (a >> 10u32) & 0x1ff == (y as u16 as u32) & 0x1ff && (a >> 19u32) & 0x1f == 0
        &&& b >> 24u32 == 0x06 && b & 0xfff == (x as u16 as u32) & 0xfff
        &&& (b >> 12u32) & 0xfff == (y as u16 as u32) & 0xfff
        &&& c >> 24u32 == 0x07 && c & 0x3ff == (x as u16 as u32) & 0x3ff
        &&& (c >> 10u32) & 0x3ff == (y as u16 as u32) & 0x3ff && (c >> 20u32) & 0xf == 0
    }) by (bit_vector);
}

/// The DMA source the GPU reads from the low two bits of a DMA direction
/// command.
pub open spec fn dma_source_in(w: u32) -> DmaSource {
    if w & 3 == 0 {
        DmaSource::Off
    } else if w & 3 == 1 {
        DmaSource::FIFO
    } else if w & 3 == 2 {
        DmaSource::CPU
    } else {
        DmaSource::GPU
    }
}

/// The DMA direction command says which source was asked for: the command
/// `0x04` in the high byte, and the source read back from its low bits.
pub proof fn lemma_dma_word_reads_back(dir: DmaSource)
    ensures
        (0x0400_0000u32 | dma_code(dir)) >> 24u32 == 0x04,
        dma_source_in(0x0400_0000u32 | dma_code(dir)) == dir,
{
    let c = dma_code(dir);
    assert(c <= 3 ==> (0x0400_0000u32 | c) >> 24u32 == 0x04 && (0x0400_0000u32 | c) & 3 == c)
        by (bit_vector);
}

impl DispPort {
    /// The commands written so far, oldest first.
    pub closed spec fn sent(&self) -> Seq<u32> {
        self.sent@
    }

    /// A port with nothing written.
    pub fn new() -> (p: Self)
        ensures
            p.sent() == Seq::<u32>::empty(),
    {
        DispPort { sent: Vec::new() }
    }

    /// Hands over the commands written so far, oldest first, and forgets them.
    pub fn drain(&mut self) -> (w: Vec<u32>)
        ensures
            w@ == old(self).sent(),
            final(self).sent() == Seq::<u32>::empty(),
    {
        let mut w = Vec::new();
        core::mem::swap(&mut w, &mut self.sent);
        w
    }

    fn write(&mut self, w: u32) -> (r: &mut Self)
        ensures
            r.sent() == old(self).sent().push(w),
            *final(self) == *final(r),
    {
        self.sent.push(w);
        self
    }

    /// Resets the GPU: command `0x00`.
    pub fn reset_gpu(&mut self) -> (r: &mut Self)
        ensures
            r.sent() == old(self).sent().push(0),
            *final(self) == *final(r),
    {
        self.write(0)
    }

    /// Resets the command buffer: command `0x01`.
    pub fn reset_buffer(&mut self) -> (r: &mut Self)
        ensures
            r.sent() == old(self).sent().push(0x0100_0000),
            *final(self) == *final(r),
    {
        assert(1u32 << 24u32 == 0x0100_0000) by (bit_vector);
        self.write(1u32 << 24u32)
    }

    /// Turns the display on: command `0x03` with bit 0 clear.
    pub fn on(&mut self) -> (r: &mut Self)
        ensures
            r.sent() == old(self).sent().push(0x0300_0000),
            *final(self) == *final(r),
    {
        self.write(0x0300_0000)
    }

    /// Turns the display off: command `0x03` with bit 0 set.
    pub fn off(&mut self) -> (r: &mut Self)
        ensures
            r.sent() == old(self).sent().push(0x0300_0001),
            *final(self) == *final(r),
    {
        self.write(0x0300_0001)
    }

    /// Sets the DMA direction: command `0x04`.
    pub fn dma(&mut self, dir: DmaSource) -> (r: &mut Self)
        ensures
            r.sent() == old(self).sent().push(0x0400_0000 | dma_code(dir)),
            *final(self) == *final(r),
    {
        let source: u32 = match dir {
            DmaSource::Off => 0,
            DmaSource::FIFO => 1,
            DmaSource::CPU => 2,
            DmaSource::GPU => 3,
        };
        assert(0x04u32 << 24u32 == 0x0400_0000) by (bit_vector);
        self.write((0x04u32 << 24u32) | source)
    }

    /// Sets the start of the display area in VRAM: command `0x05`, x in 10
    /// bits and y in 9 bits from bit 10.
    pub fn start(&mut self, v: Vertex) -> (r: &mut Self)
        ensures
            r.sent() == old(self).sent().push(display_word(0x05, 0x3ff, 0x1ff, 10, v.0, v.1)),
            *final(self) == *final(r),
    {
        self.generic_cmd(0x05, 0x3ff, 0x1ff, 10, v.x(), v.y())
    }

    /// Sets the horizontal display range: command `0x06`, 12 bits each.
    pub fn horizontal(&mut self, x1: Pixel, x2: Pixel) -> (r: &mut Self)
        ensures
            r.sent() == old(self).sent().push(display_word(0x06, 0xfff, 0xfff, 12, x1, x2)),
            *final(self) == *final(r),
    {
        self.generic_cmd(0x06, 0xfff, 0xfff, 12, x1, x2)
    }

    /// Sets the vertical display range: command `0x07`, 10 bits each.
    pub fn vertical(&mut self, y1: Pixel, y2: Pixel) -> (r: &mut Self)
        ensures
            r.sent() == old(self).sent().push(display_word(0x07, 0x3ff, 0x3ff, 10, y1, y2)),
            *final(self) == *final(r),
    {
        self.generic_cmd(0x07, 0x3ff, 0x3ff, 10, y1, y2)
    }

    /// Sets the display mode: command `0x08` with the resolution, video
    /// mode, color depth and interlacing.
    pub fn mode(&mut self, hres: Pixel, vres: Pixel, vmode: Vmode, depth: Depth, interlace: bool) -> (r:
        &mut Self)
        requires
            valid_hres(hres),
            valid_vres(vres),
        ensures
            r.sent() == old(self).sent().push(mode_word(hres, vres, vmode, depth, interlace)),
            *final(self) == *final(r),
    {
        assert(0x08u32 << 24u32 == 0x0800_0000) by (bit_vector);
        assert(1u32 << 6u32 == 0x40 && 1u32 << 2u32 == 4 && 1u32 << 3u32 == 8 && 1u32 << 4u32 == 0x10
            && 1u32 << 5u32 == 0x20) by (bit_vector);
        let cmd: u32 = 0x08u32 << 24u32;
        let hres: u32 = if hres == 256 {
            0
        } else if hres == 320 {
            1
        } else if hres == 512 {
            2
        } else if hres == 640 {
            3
        } else {
            1u32 << 6u32
        };
        // Should this only equal 1 << 2 when interlace is true or is that
        // restriction handled in hardware?
        let vres: u32 = if vres == 240 {
            0
        } else {
            1u32 << 2u32
        };
        let vmode: u32 = match vmode {
            Vmode::NTSC => 0,
            Vmode::PAL => 1u32 << 3u32,
        };
        let depth: u32 = match depth {
            Depth::Lo => 0,
            Depth::Hi => 1u32 << 4u32,
        };
        let interlace: u32 = if interlace {
            1u32 << 5u32
        } else {
            0
        };
        self.write(cmd | hres | vres | vmode | depth | interlace)
    }

    fn generic_cmd(&mut self, cmd: u32, xmask: Pixel, ymask: Pixel, shift: u32, x: Pixel, y: Pixel) -> (r:
        &mut Self)
        requires
            cmd < 0x100,
            shift < 32,
        ensures
            r.sent() == old(self).sent().push(display_word(cmd, xmask, ymask, shift, x, y)),
            *final(self) == *final(r),
    {
        let x = x & xmask;
        let y = y & ymask;
        let c = cmd << 24u32;
        let x = x as u32;
        let y = (y as u32) << shift;
        self.write(c | x | y)
    }
}

} // verus!
