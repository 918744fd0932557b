//! Commands that fill and copy rectangles of VRAM.
use vstd::prelude::*;
use crate::gpu::color::Color;
use crate::gpu::draw_port::GpuPacket;
use crate::gpu::shapes::command_word;
use crate::gpu::vertex::vertex_word;
use crate::gpu::Vertex;

verus! {

struct VramSection {
    offset: Vertex,
    size: Vertex,
}

/// Fills a rectangle of VRAM with a color: command `0x02`.
pub struct FillVram {
    src: VramSection,
    color: Color,
}

/// Copies a rectangle of VRAM to another place in VRAM: command `0x80`.
pub struct CopyVram {
    src: VramSection,
    dest: Vertex,
}

impl FillVram {
    /// Fills the rectangle at `offset`, `size` pixels large, with `color`.
    pub fn new(offset: Vertex, size: Vertex, color: Color) -> (f: Self)
        ensures
            f.words() == seq![command_word(0x02, color), vertex_word(offset), vertex_word(size)],
    {
        FillVram { src: VramSection { offset, size }, color }
    }

    /// The top-left corner of the rectangle.
    pub closed spec fn offset_spec(&self) -> Vertex {
        self.src.offset
    }

    /// The size of the rectangle.
    pub closed spec fn size_spec(&self) -> Vertex {
        self.src.size
    }

    /// The fill color.
    pub closed spec fn color_spec(&self) -> Color {
        self.color
    }
}

impl CopyVram {
    /// Copies the rectangle at `offset`, `size` pixels large, to `dest`.
    pub fn new(offset: Vertex, size: Vertex, dest: Vertex) -> (c: Self)
        ensures
            c.words() == seq![0x8000_0000u32, vertex_word(offset), vertex_word(dest), vertex_word(size)],
    {
        CopyVram { src: VramSection { offset, size }, dest }
    }

    /// The top-left corner of the rectangle copied.
    pub closed spec fn offset_spec(&self) -> Vertex {
        self.src.offset
    }

    /// The size of the rectangle copied.
    pub closed spec fn size_spec(&self) -> Vertex {
        self.src.size
    }

    /// Where the rectangle goes.
    pub closed spec fn dest_spec(&self) -> Vertex {
        self.dest
    }
}

impl GpuPacket for FillVram {
    open spec fn words(&self) -> Seq<u32> {
        seq![
            command_word(0x02, self.color_spec()),
            vertex_word(self.offset_spec()),
            vertex_word(self.size_spec()),
        ]
    }

    fn packet(&self) -> (w: Vec<u32>) {
        let w = vec![
            (0x02u32 << 24u32) | u32::from(self.color),
            u32::from(self.src.offset),
            u32::from(self.src.size),
        ];
        assert(w@ =~= self.words());
        w
    }
}

impl GpuPacket for CopyVram {
    open spec fn words(&self) -> Seq<u32> {
        seq![
            0x8000_0000u32,
            vertex_word(self.offset_spec()),
            vertex_word(self.dest_spec()),
            vertex_word(self.size_spec()),
        ]
    }

    fn packet(&self) -> (w: Vec<u32>) {
        assert(0x80u32 << 24u32 == 0x8000_0000u32) by (bit_vector);
        let w = vec![
            0x80u32 << 24u32,
            u32::from(self.src.offset),
            u32::from(self.dest),
            u32::from(self.src.size),
        ];
        assert(w@ =~= self.words());
        w
    }
}

} // verus!
