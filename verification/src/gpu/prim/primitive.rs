//! The drawing primitives, each laid out as the words the GPU reads.
use vstd::prelude::*;
use crate::gpu::draw_port::GpuPacket;
use crate::gpu::prim::{
    head, head_word, lemma_head_top, mem_word, mem_words, tex, tex_word, vertex_mem, with_top, zeros,
    Init, Primitive,
};
use crate::gpu::{Clut, Color, TexCoord, TexPage, Vertex};
use vstd::std_specs::convert::FromSpec;

verus! {

/// The opening word of an all-zero primitive, a zero vertex and a zero
/// texture word are all zero.
proof fn lemma_zero_words()
    ensures
        head_word(Color { red: 0, green: 0, blue: 0 }, 0) == 0,
        mem_word(Vertex(0, 0)) == 0,
        tex_word(TexCoord { x: 0, y: 0 }, 0) == 0,
{
    lemma_head_top(Color { red: 0, green: 0, blue: 0 }, 0, 0);
    assert(((0i16 as u16 as u32) | ((0i16 as u16 as u32) << 16u32)) == 0) by (bit_vector);
    assert(((0u8 as u32) | ((0u8 as u32) << 8u32) | (0u32 << 16u32)) == 0) by (bit_vector);
}

/// A flat-shaded triangle.
#[derive(Clone, Copy)]
pub struct PolyF3 {
    /// The color.
    pub color: Color,
    /// The command byte.
    pub cmd: u8,
    /// The first vertex.
    pub v0: Vertex,
    /// The second vertex.
    pub v1: Vertex,
    /// The third vertex.
    pub v2: Vertex,
}

impl PolyF3 {
    /// Sets the color.
    pub fn color(&mut self, color: Color) -> (r: &mut Self)
        ensures
            *r == (PolyF3 { color, ..*old(self) }),
            *final(self) == *final(r),
    {
        self.color = color;
        self
    }

    /// Sets the vertices.
    pub fn vertices(&mut self, vertices: [Vertex; 3]) -> (r: &mut Self)
        ensures
            *r == (PolyF3 { v0: vertices[0], v1: vertices[1], v2: vertices[2], ..*old(self) }),
            *final(self) == *final(r),
    {
        self.v0 = vertices[0];
        self.v1 = vertices[1];
        self.v2 = vertices[2];
        self
    }
}

impl Primitive for PolyF3 {
    open spec fn size() -> nat {
        4
    }

    open spec fn words(&self) -> Seq<u32> {
        seq![
            head_word(self.color, self.cmd),
            mem_word(self.v0),
            mem_word(self.v1),
            mem_word(self.v2),
        ]
    }

    proof fn lemma_size(&self) {
    }

    fn num_words() -> (n: usize) {
        4
    }

    fn as_slice(&self) -> (w: Vec<u32>) {
        let w = vec![
            head(self.color, self.cmd),
            vertex_mem(self.v0),
            vertex_mem(self.v1),
            vertex_mem(self.v2),
        ];
        assert(w@ =~= self.words());
        w
    }

    fn zeroed() -> (p: Self) {
        let p = PolyF3 { color: Color { red: 0, green: 0, blue: 0 }, cmd: 0, v0: Vertex(0, 0), v1: Vertex(0, 0), v2: Vertex(0, 0) };
        proof {
            lemma_zero_words();
        }
        assert(p.words() =~= zeros(<Self as Primitive>::size()));
        p
    }
}

impl Init for PolyF3 {
    open spec fn command() -> u8 {
        0x20
    }

    proof fn lemma_has_command_word() {
    }

    fn init(&mut self)
        ensures
            *final(self) == (PolyF3 { cmd: 0x20, ..*old(self) }),
    {
        proof {
            lemma_head_top(old(self).color, old(self).cmd, 0x20);
        }
        self.cmd = 0x20;
        assert(self.words() =~= old(self).words().update(0, with_top(old(self).words()[0], 0x20)));
    }
}

/// A flat-shaded quad.
#[derive(Clone, Copy)]
pub struct PolyF4 {
    /// The color.
    pub color: Color,
    /// The command byte.
    pub cmd: u8,
    /// The first vertex.
    pub v0: Vertex,
    /// The second vertex.
    pub v1: Vertex,
    /// The third vertex.
    pub v2: Vertex,
    /// The fourth vertex.
    pub v3: Vertex,
}

impl PolyF4 {
    /// Sets the color.
    pub fn color(&mut self, color: Color) -> (r: &mut Self)
        ensures
            *r == (PolyF4 { color, ..*old(self) }),
            *final(self) == *final(r),
    {
        self.color = color;
        self
    }

    /// Sets the vertices.
    pub fn vertices(&mut self, vertices: [Vertex; 4]) -> (r: &mut Self)
        ensures
            *r == (PolyF4 { v0: vertices[0], v1: vertices[1], v2: vertices[2], v3: vertices[3], ..*old(self) }),
            *final(self) == *final(r),
    {
        self.v0 = vertices[0];
        self.v1 = vertices[1];
        self.v2 = vertices[2];
        self.v3 = vertices[3];
        self
    }
}

impl Primitive for PolyF4 {
    open spec fn size() -> nat {
        5
    }

    open spec fn words(&self) -> Seq<u32> {
        seq![
            head_word(self.color, self.cmd),
            mem_word(self.v0),
            mem_word(self.v1),
            mem_word(self.v2),
            mem_word(self.v3),
        ]
    }

    proof fn lemma_size(&self) {
    }

    fn num_words() -> (n: usize) {
        5
    }

    fn as_slice(&self) -> (w: Vec<u32>) {
        let w = vec![
            head(self.color, self.cmd),
            vertex_mem(self.v0),
            vertex_mem(self.v1),
            vertex_mem(self.v2),
            vertex_mem(self.v3),
        ];
        assert(w@ =~= self.words());
        w
    }

    fn zeroed() -> (p: Self) {
        let p = PolyF4 { color: Color { red: 0, green: 0, blue: 0 }, cmd: 0, v0: Vertex(0, 0), v1: Vertex(0, 0), v2: Vertex(0, 0), v3: Vertex(0, 0) };
        proof {
            lemma_zero_words();
        }
        assert(p.words() =~= zeros(<Self as Primitive>::size()));
        p
    }
}

impl Init for PolyF4 {
    open spec fn command() -> u8 {
        0x28
    }

    proof fn lemma_has_command_word() {
    }

    fn init(&mut self)
        ensures
            *final(self) == (PolyF4 { cmd: 0x28, ..*old(self) }),
    {
        proof {
            lemma_head_top(old(self).color, old(self).cmd, 0x28);
        }
        self.cmd = 0x28;
        assert(self.words() =~= old(self).words().update(0, with_top(old(self).words()[0], 0x28)));
    }
}

/// A flat-shaded textured triangle.
#[derive(Clone, Copy)]
pub struct PolyFT3 {
    /// The color.
    pub color: Color,
    /// The command byte.
    pub cmd: u8,
    /// The first vertex.
    pub v0: Vertex,
    /// The texture coordinate of the first vertex.
    pub t0: TexCoord,
    /// The color lookup table.
    pub clut: Clut,
    /// The second vertex.
    pub v1: Vertex,
    /// The texture coordinate of the second vertex.
    pub t1: TexCoord,
    /// The texture page.
    pub tpage: TexPage,
    /// The third vertex.
    pub v2: Vertex,
    /// The texture coordinate of the third vertex.
    pub t2: TexCoord,
    /// Padding.
    pub _pad: u16,
}

impl PolyFT3 {
    /// Sets the color.
    pub fn color(&mut self, color: Color) -> (r: &mut Self)
        ensures
            *r == (PolyFT3 { color, ..*old(self) }),
            *final(self) == *final(r),
    {
        self.color = color;
        self
    }

    /// Sets the vertices.
    pub fn vertices(&mut self, vertices: [Vertex; 3]) -> (r: &mut Self)
        ensures
            *r == (PolyFT3 { v0: vertices[0], v1: vertices[1], v2: vertices[2], ..*old(self) }),
            *final(self) == *final(r),
    {
        self.v0 = vertices[0];
        self.v1 = vertices[1];
        self.v2 = vertices[2];
        self
    }
}

impl Primitive for PolyFT3 {
    open spec fn size() -> nat {
        7
    }

    open spec fn words(&self) -> Seq<u32> {
        seq![
            head_word(self.color, self.cmd),
            mem_word(self.v0),
            tex_word(self.t0, self.clut.word()),
            mem_word(self.v1),
            tex_word(self.t1, self.tpage.word()),
            mem_word(self.v2),
            tex_word(self.t2, self._pad as u32),
        ]
    }

    proof fn lemma_size(&self) {
    }

    fn num_words() -> (n: usize) {
        7
    }

    fn as_slice(&self) -> (w: Vec<u32>) {
        let w = vec![
            head(self.color, self.cmd),
            vertex_mem(self.v0),
            tex(self.t0, u32::from(self.clut)),
            vertex_mem(self.v1),
            tex(self.t1, u32::from(self.tpage)),
            vertex_mem(self.v2),
            tex(self.t2, self._pad as u32),
        ];
        assert(w@ =~= self.words());
        w
    }

    fn zeroed() -> (p: Self) {
        let p = PolyFT3 { color: Color { red: 0, green: 0, blue: 0 }, cmd: 0, v0: Vertex(0, 0), t0: TexCoord { x: 0, y: 0 }, clut: Clut::zeroed(), v1: Vertex(0, 0), t1: TexCoord { x: 0, y: 0 }, tpage: TexPage::zeroed(), v2: Vertex(0, 0), t2: TexCoord { x: 0, y: 0 }, _pad: 0 };
        proof {
            lemma_zero_words();
        }
        assert(p.words() =~= zeros(<Self as Primitive>::size()));
        p
    }
}

impl Init for PolyFT3 {
    open spec fn command() -> u8 {
        0x24
    }

    proof fn lemma_has_command_word() {
    }

    fn init(&mut self)
        ensures
            *final(self) == (PolyFT3 { cmd: 0x24, ..*old(self) }),
    {
        proof {
            lemma_head_top(old(self).color, old(self).cmd, 0x24);
        }
        self.cmd = 0x24;
        assert(self.words() =~= old(self).words().update(0, with_top(old(self).words()[0], 0x24)));
    }
}

/// A flat-shaded textured quad.
#[derive(Clone, Copy)]
pub struct PolyFT4 {
    /// The color.
    pub color: Color,
    /// The command byte.
    pub cmd: u8,
    /// The first vertex.
    pub v0: Vertex,
    /// The texture coordinate of the first vertex.
    pub t0: TexCoord,
    /// The color lookup table.
    pub clut: Clut,
    /// The second vertex.
    pub v1: Vertex,
    /// The texture coordinate of the second vertex.
    pub t1: TexCoord,
    /// The texture page.
    pub tpage: TexPage,
    /// The third vertex.
    pub v2: Vertex,
    /// The texture coordinate of the third vertex.
    pub t2: TexCoord,
    /// Padding.
    pub _pad0: u16,
    /// The fourth vertex.
    pub v3: Vertex,
    /// The texture coordinate of the fourth vertex.
    pub t3: TexCoord,
    /// Padding.
    pub _pad1: u16,
}

impl PolyFT4 {
    /// Sets the color.
    pub fn color(&mut self, color: Color) -> (r: &mut Self)
        ensures
            *r == (PolyFT4 { color, ..*old(self) }),
            *final(self) == *final(r),
    {
        self.color = color;
        self
    }

    /// Sets the vertices.
    pub fn vertices(&mut self, vertices: [Vertex; 4]) -> (r: &mut Self)
        ensures
            *r == (PolyFT4 { v0: vertices[0], v1: vertices[1], v2: vertices[2], v3: vertices[3], ..*old(self) }),
            *final(self) == *final(r),
    {
        self.v0 = vertices[0];
        self.v1 = vertices[1];
        self.v2 = vertices[2];
        self.v3 = vertices[3];
        self
    }
}

impl Primitive for PolyFT4 {
    open spec fn size() -> nat {
        9
    }

    open spec fn words(&self) -> Seq<u32> {
        seq![
            head_word(self.color, self.cmd),
            mem_word(self.v0),
            tex_word(self.t0, self.clut.word()),
            mem_word(self.v1),
            tex_word(self.t1, self.tpage.word()),
            mem_word(self.v2),
            tex_word(self.t2, self._pad0 as u32),
            mem_word(self.v3),
            tex_word(self.t3, self._pad1 as u32),
        ]
    }

    proof fn lemma_size(&self) {
    }

    fn num_words() -> (n: usize) {
        9
    }

    fn as_slice(&self) -> (w: Vec<u32>) {
        let w = vec![
            head(self.color, self.cmd),
            vertex_mem(self.v0),
            tex(self.t0, u32::from(self.clut)),
            vertex_mem(self.v1),
            tex(self.t1, u32::from(self.tpage)),
            vertex_mem(self.v2),
            tex(self.t2, self._pad0 as u32),
            vertex_mem(self.v3),
            tex(self.t3, self._pad1 as u32),
        ];
        assert(w@ =~= self.words());
        w
    }

    fn zeroed() -> (p: Self) {
        let p = PolyFT4 { color: Color { red: 0, green: 0, blue: 0 }, cmd: 0, v0: Vertex(0, 0), t0: TexCoord { x: 0, y: 0 }, clut: Clut::zeroed(), v1: Vertex(0, 0), t1: TexCoord { x: 0, y: 0 }, tpage: TexPage::zeroed(), v2: Vertex(0, 0), t2: TexCoord { x: 0, y: 0 }, _pad0: 0, v3: Vertex(0, 0), t3: TexCoord { x: 0, y: 0 }, _pad1: 0 };
        proof {
            lemma_zero_words();
        }
        assert(p.words() =~= zeros(<Self as Primitive>::size()));
        p
    }
}

impl Init for PolyFT4 {
    open spec fn command() -> u8 {
        0x2C
    }

    proof fn lemma_has_command_word() {
    }

    fn init(&mut self)
        ensures
            *final(self) == (PolyFT4 { cmd: 0x2C, ..*old(self) }),
    {
        proof {
            lemma_head_top(old(self).color, old(self).cmd, 0x2C);
        }
        self.cmd = 0x2C;
        assert(self.words() =~= old(self).words().update(0, with_top(old(self).words()[0], 0x2C)));
    }
}

/// A Gouraud-shaded triangle.
#[derive(Clone, Copy)]
pub struct PolyG3 {
    /// The color of the first vertex.
    pub color0: Color,
    /// The command byte.
    pub cmd: u8,
    /// The first vertex.
    pub v0: Vertex,
    /// The color of the second vertex.
    pub color1: Color,
    /// Padding.
    pub _pad0: u8,
    /// The second vertex.
    pub v1: Vertex,
    /// The color of the third vertex.
    pub color2: Color,
    /// Padding.
    pub _pad1: u8,
    /// The third vertex.
    pub v2: Vertex,
}

impl PolyG3 {
    /// Sets the colors of the vertices.
    pub fn color(&mut self, palette: [Color; 3]) -> (r: &mut Self)
        ensures
            *r == (PolyG3 { color0: palette[0], color1: palette[1], color2: palette[2], ..*old(self) }),
            *final(self) == *final(r),
    {
        self.color0 = palette[0];
        self.color1 = palette[1];
        self.color2 = palette[2];
        self
    }

    /// Sets the vertices.
    pub fn vertices(&mut self, vertices: [Vertex; 3]) -> (r: &mut Self)
        ensures
            *r == (PolyG3 { v0: vertices[0], v1: vertices[1], v2: vertices[2], ..*old(self) }),
            *final(self) == *final(r),
    {
        self.v0 = vertices[0];
        self.v1 = vertices[1];
        self.v2 = vertices[2];
        self
    }
}

impl Primitive for PolyG3 {
    open spec fn size() -> nat {
        6
    }

    open spec fn words(&self) -> Seq<u32> {
        seq![
            head_word(self.color0, self.cmd),
            mem_word(self.v0),
            head_word(self.color1, self._pad0),
            mem_word(self.v1),
            head_word(self.color2, self._pad1),
            mem_word(self.v2),
        ]
    }

    proof fn lemma_size(&self) {
    }

    fn num_words() -> (n: usize) {
        6
    }

    fn as_slice(&self) -> (w: Vec<u32>) {
        let w = vec![
            head(self.color0, self.cmd),
            vertex_mem(self.v0),
            head(self.color1, self._pad0),
            vertex_mem(self.v1),
            head(self.color2, self._pad1),
            vertex_mem(self.v2),
        ];
        assert(w@ =~= self.words());
        w
    }

    fn zeroed() -> (p: Self) {
        let p = PolyG3 { color0: Color { red: 0, green: 0, blue: 0 }, cmd: 0, v0: Vertex(0, 0), color1: Color { red: 0, green: 0, blue: 0 }, _pad0: 0, v1: Vertex(0, 0), color2: Color { red: 0, green: 0, blue: 0 }, _pad1: 0, v2: Vertex(0, 0) };
        proof {
            lemma_zero_words();
        }
        assert(p.words() =~= zeros(<Self as Primitive>::size()));
        p
    }
}

impl Init for PolyG3 {
    open spec fn command() -> u8 {
        0x30
    }

    proof fn lemma_has_command_word() {
    }

    fn init(&mut self)
        ensures
            *final(self) == (PolyG3 { cmd: 0x30, ..*old(self) }),
    {
        proof {
            lemma_head_top(old(self).color0, old(self).cmd, 0x30);
        }
        self.cmd = 0x30;
        assert(self.words() =~= old(self).words().update(0, with_top(old(self).words()[0], 0x30)));
    }
}

/// A Gouraud-shaded quad.
#[derive(Clone, Copy)]
pub struct PolyG4 {
    /// The color of the first vertex.
    pub color0: Color,
    /// The command byte.
    pub cmd: u8,
    /// The first vertex.
    pub v0: Vertex,
    /// The color of the second vertex.
    pub color1: Color,
    /// Padding.
    pub _pad0: u8,
    /// The second vertex.
    pub v1: Vertex,
    /// The color of the third vertex.
    pub color2: Color,
    /// Padding.
    pub _pad1: u8,
    /// The third vertex.
    pub v2: Vertex,
    /// The color of the fourth vertex.
    pub color3: Color,
    /// Padding.
    pub _pad2: u8,
    /// The fourth vertex.
    pub v3: Vertex,
}

impl PolyG4 {
    /// Sets the colors of the vertices.
    pub fn color(&mut self, palette: [Color; 4]) -> (r: &mut Self)
        ensures
            *r == (PolyG4 { color0: palette[0], color1: palette[1], color2: palette[2], color3: palette[3], ..*old(self) }),
            *final(self) == *final(r),
    {
        self.color0 = palette[0];
        self.color1 = palette[1];
        self.color2 = palette[2];
        self.color3 = palette[3];
        self
    }

    /// Sets the vertices.
    pub fn vertices(&mut self, vertices: [Vertex; 4]) -> (r: &mut Self)
        ensures
            *r == (PolyG4 { v0: vertices[0], v1: vertices[1], v2: vertices[2], v3: vertices[3], ..*old(self) }),
            *final(self) == *final(r),
    {
        self.v0 = vertices[0];
        self.v1 = vertices[1];
        self.v2 = vertices[2];
        self.v3 = vertices[3];
        self
    }
}

impl Primitive for PolyG4 {
    open spec fn size() -> nat {
        8
    }

    open spec fn words(&self) -> Seq<u32> {
        seq![
            head_word(self.color0, self.cmd),
            mem_word(self.v0),
            head_word(self.color1, self._pad0),
            mem_word(self.v1),
            head_word(self.color2, self._pad1),
            mem_word(self.v2),
            head_word(self.color3, self._pad2),
            mem_word(self.v3),
        ]
    }

    proof fn lemma_size(&self) {
    }

    fn num_words() -> (n: usize) {
        8
    }

    fn as_slice(&self) -> (w: Vec<u32>) {
        let w = vec![
            head(self.color0, self.cmd),
            vertex_mem(self.v0),
            head(self.color1, self._pad0),
            vertex_mem(self.v1),
            head(self.color2, self._pad1),
            vertex_mem(self.v2),
            head(self.color3, self._pad2),
            vertex_mem(self.v3),
        ];
        assert(w@ =~= self.words());
        w
    }

    fn zeroed() -> (p: Self) {
        let p = PolyG4 { color0: Color { red: 0, green: 0, blue: 0 }, cmd: 0, v0: Vertex(0, 0), color1: Color { red: 0, green: 0, blue: 0 }, _pad0: 0, v1: Vertex(0, 0), color2: Color { red: 0, green: 0, blue: 0 }, _pad1: 0, v2: Vertex(0, 0), color3: Color { red: 0, green: 0, blue: 0 }, _pad2: 0, v3: Vertex(0, 0) };
        proof {
            lemma_zero_words();
        }
        assert(p.words() =~= zeros(<Self as Primitive>::size()));
        p
    }
}

impl Init for PolyG4 {
    open spec fn command() -> u8 {
        0x38
    }

    proof fn lemma_has_command_word() {
    }

    fn init(&mut self)
        ensures
            *final(self) == (PolyG4 { cmd: 0x38, ..*old(self) }),
    {
        proof {
            lemma_head_top(old(self).color0, old(self).cmd, 0x38);
        }
        self.cmd = 0x38;
        assert(self.words() =~= old(self).words().update(0, with_top(old(self).words()[0], 0x38)));
    }
}

/// A Gouraud-shaded textured triangle.
#[derive(Clone, Copy)]
pub struct PolyGT3 {
    /// The color of the first vertex.
    pub color0: Color,
    /// The command byte.
    pub cmd: u8,
    /// The first vertex.
    pub v0: Vertex,
    /// The texture coordinate of the first vertex.
    pub t0: TexCoord,
    /// The color lookup table.
    pub clut: Clut,
    /// The color of the second vertex.
    pub color1: Color,
    /// Padding.
    pub _pad0: u8,
    /// The second vertex.
    pub v1: Vertex,
    /// The texture coordinate of the second vertex.
    pub t1: TexCoord,
    /// The texture page.
    pub tpage: TexPage,
    /// The color of the third vertex.
    pub color2: Color,
    /// Padding.
    pub _pad1: u8,
    /// The third vertex.
    pub v2: Vertex,
    /// The texture coordinate of the third vertex.
    pub t2: TexCoord,
    /// Padding.
    pub _pad2: u16,
}

impl PolyGT3 {
    /// Sets the colors of the vertices.
    pub fn color(&mut self, palette: [Color; 3]) -> (r: &mut Self)
        ensures
            *r == (PolyGT3 { color0: palette[0], color1: palette[1], color2: palette[2], ..*old(self) }),
            *final(self) == *final(r),
    {
        self.color0 = palette[0];
        self.color1 = palette[1];
        self.color2 = palette[2];
        self
    }

    /// Sets the vertices.
    pub fn vertices(&mut self, vertices: [Vertex; 3]) -> (r: &mut Self)
        ensures
            *r == (PolyGT3 { v0: vertices[0], v1: vertices[1], v2: vertices[2], ..*old(self) }),
            *final(self) == *final(r),
    {
        self.v0 = vertices[0];
        self.v1 = vertices[1];
        self.v2 = vertices[2];
        self
    }
}

impl Primitive for PolyGT3 {
    open spec fn size() -> nat {
        9
    }

    open spec fn words(&self) -> Seq<u32> {
        seq![
            head_word(self.color0, self.cmd),
            mem_word(self.v0),
            tex_word(self.t0, self.clut.word()),
            head_word(self.color1, self._pad0),
            mem_word(self.v1),
            tex_word(self.t1, self.tpage.word()),
            head_word(self.color2, self._pad1),
            mem_word(self.v2),
            tex_word(self.t2, self._pad2 as u32),
        ]
    }

    proof fn lemma_size(&self) {
    }

    fn num_words() -> (n: usize) {
        9
    }

    fn as_slice(&self) -> (w: Vec<u32>) {
        let w = vec![
            head(self.color0, self.cmd),
            vertex_mem(self.v0),
            tex(self.t0, u32::from(self.clut)),
            head(self.color1, self._pad0),
            vertex_mem(self.v1),
            tex(self.t1, u32::from(self.tpage)),
            head(self.color2, self._pad1),
            vertex_mem(self.v2),
            tex(self.t2, self._pad2 as u32),
        ];
        assert(w@ =~= self.words());
        w
    }

    fn zeroed() -> (p: Self) {
        let p = PolyGT3 { color0: Color { red: 0, green: 0, blue: 0 }, cmd: 0, v0: Vertex(0, 0), t0: TexCoord { x: 0, y: 0 }, clut: Clut::zeroed(), color1: Color { red: 0, green: 0, blue: 0 }, _pad0: 0, v1: Vertex(0, 0), t1: TexCoord { x: 0, y: 0 }, tpage: TexPage::zeroed(), color2: Color { red: 0, green: 0, blue: 0 }, _pad1: 0, v2: Vertex(0, 0), t2: TexCoord { x: 0, y: 0 }, _pad2: 0 };
        proof {
            lemma_zero_words();
        }
        assert(p.words() =~= zeros(<Self as Primitive>::size()));
        p
    }
}

impl Init for PolyGT3 {
    open spec fn command() -> u8 {
        0x34
    }

    proof fn lemma_has_command_word() {
    }

    fn init(&mut self)
        ensures
            *final(self) == (PolyGT3 { cmd: 0x34, ..*old(self) }),
    {
        proof {
            lemma_head_top(old(self).color0, old(self).cmd, 0x34);
        }
        self.cmd = 0x34;
        assert(self.words() =~= old(self).words().update(0, with_top(old(self).words()[0], 0x34)));
    }
}

/// A Gouraud-shaded textured quad.
#[derive(Clone, Copy)]
pub struct PolyGT4 {
    /// The color of the first vertex.
    pub color0: Color,
    /// The command byte.
    pub cmd: u8,
    /// The first vertex.
    pub v0: Vertex,
    /// The texture coordinate of the first vertex.
    pub t0: TexCoord,
    /// The color lookup table.
    pub clut: Clut,
    /// The color of the second vertex.
    pub color1: Color,
    /// Padding.
    pub _pad0: u8,
    /// The second vertex.
    pub v1: Vertex,
    /// The texture coordinate of the second vertex.
    pub t1: TexCoord,
    /// The texture page.
    pub tpage: TexPage,
    /// The color of the third vertex.
    pub color2: Color,
    /// Padding.
    pub _pad1: u8,
    /// The third vertex.
    pub v2: Vertex,
    /// The texture coordinate of the third vertex.
    pub t2: TexCoord,
    /// Padding.
    pub _pad2: u16,
    /// The color of the fourth vertex.
    pub color3: Color,
    /// Padding.
    pub _pad3: u8,
    /// The fourth vertex.
    pub v3: Vertex,
    /// The texture coordinate of the fourth vertex.
    pub t3: TexCoord,
    /// Padding.
    pub _pad4: u16,
}

impl PolyGT4 {
    /// Sets the colors of the vertices.
    pub fn color(&mut self, palette: [Color; 4]) -> (r: &mut Self)
        ensures
            *r == (PolyGT4 { color0: palette[0], color1: palette[1], color2: palette[2], color3: palette[3], ..*old(self) }),
            *final(self) == *final(r),
    {
        self.color0 = palette[0];
        self.color1 = palette[1];
        self.color2 = palette[2];
        self.color3 = palette[3];
        self
    }

    /// Sets the vertices.
    pub fn vertices(&mut self, vertices: [Vertex; 4]) -> (r: &mut Self)
        ensures
            *r == (PolyGT4 { v0: vertices[0], v1: vertices[1], v2: vertices[2], v3: vertices[3], ..*old(self) }),
            *final(self) == *final(r),
    {
        self.v0 = vertices[0];
        self.v1 = vertices[1];
        self.v2 = vertices[2];
        self.v3 = vertices[3];
        self
    }
}

impl Primitive for PolyGT4 {
    open spec fn size() -> nat {
        12
    }

    open spec fn words(&self) -> Seq<u32> {
        seq![
            head_word(self.color0, self.cmd),
            mem_word(self.v0),
            tex_word(self.t0, self.clut.word()),
            head_word(self.color1, self._pad0),
            mem_word(self.v1),
            tex_word(self.t1, self.tpage.word()),
            head_word(self.color2, self._pad1),
            mem_word(self.v2),
            tex_word(self.t2, self._pad2 as u32),
            head_word(self.color3, self._pad3),
            mem_word(self.v3),
            tex_word(self.t3, self._pad4 as u32),
        ]
    }

    proof fn lemma_size(&self) {
    }

    fn num_words() -> (n: usize) {
        12
    }

    fn as_slice(&self) -> (w: Vec<u32>) {
        let w = vec![
            head(self.color0, self.cmd),
            vertex_mem(self.v0),
            tex(self.t0, u32::from(self.clut)),
            head(self.color1, self._pad0),
            vertex_mem(self.v1),
            tex(self.t1, u32::from(self.tpage)),
            head(self.color2, self._pad1),
            vertex_mem(self.v2),
            tex(self.t2, self._pad2 as u32),
            head(self.color3, self._pad3),
            vertex_mem(self.v3),
            tex(self.t3, self._pad4 as u32),
        ];
        assert(w@ =~= self.words());
        w
    }

    fn zeroed() -> (p: Self) {
        let p = PolyGT4 { color0: Color { red: 0, green: 0, blue: 0 }, cmd: 0, v0: Vertex(0, 0), t0: TexCoord { x: 0, y: 0 }, clut: Clut::zeroed(), color1: Color { red: 0, green: 0, blue: 0 }, _pad0: 0, v1: Vertex(0, 0), t1: TexCoord { x: 0, y: 0 }, tpage: TexPage::zeroed(), color2: Color { red: 0, green: 0, blue: 0 }, _pad1: 0, v2: Vertex(0, 0), t2: TexCoord { x: 0, y: 0 }, _pad2: 0, color3: Color { red: 0, green: 0, blue: 0 }, _pad3: 0, v3: Vertex(0, 0), t3: TexCoord { x: 0, y: 0 }, _pad4: 0 };
        proof {
            lemma_zero_words();
        }
        assert(p.words() =~= zeros(<Self as Primitive>::size()));
        p
    }
}

impl Init for PolyGT4 {
    open spec fn command() -> u8 {
        0x3C
    }

    proof fn lemma_has_command_word() {
    }

    fn init(&mut self)
        ensures
            *final(self) == (PolyGT4 { cmd: 0x3C, ..*old(self) }),
    {
        proof {
            lemma_head_top(old(self).color0, old(self).cmd, 0x3C);
        }
        self.cmd = 0x3C;
        assert(self.words() =~= old(self).words().update(0, with_top(old(self).words()[0], 0x3C)));
    }
}

/// A flat-shaded line.
#[derive(Clone, Copy)]
pub struct LineF2 {
    /// The color.
    pub color: Color,
    /// The command byte.
    pub cmd: u8,
    /// The first vertex.
    pub v0: Vertex,
    /// The second vertex.
    pub v1: Vertex,
}

impl LineF2 {
    /// Sets the color.
    pub fn color(&mut self, color: Color) -> (r: &mut Self)
        ensures
            *r == (LineF2 { color, ..*old(self) }),
            *final(self) == *final(r),
    {
        self.color = color;
        self
    }

    /// Sets the vertices.
    pub fn vertices(&mut self, vertices: [Vertex; 2]) -> (r: &mut Self)
        ensures
            *r == (LineF2 { v0: vertices[0], v1: vertices[1], ..*old(self) }),
            *final(self) == *final(r),
    {
        self.v0 = vertices[0];
        self.v1 = vertices[1];
        self
    }
}

impl Primitive for LineF2 {
    open spec fn size() -> nat {
        3
    }

    open spec fn words(&self) -> Seq<u32> {
        seq![
            head_word(self.color, self.cmd),
            mem_word(self.v0),
            mem_word(self.v1),
        ]
    }

    proof fn lemma_size(&self) {
    }

    fn num_words() -> (n: usize) {
        3
    }

    fn as_slice(&self) -> (w: Vec<u32>) {
        let w = vec![
            head(self.color, self.cmd),
            vertex_mem(self.v0),
            vertex_mem(self.v1),
        ];
        assert(w@ =~= self.words());
        w
    }

    fn zeroed() -> (p: Self) {
        let p = LineF2 { color: Color { red: 0, green: 0, blue: 0 }, cmd: 0, v0: Vertex(0, 0), v1: Vertex(0, 0) };
        proof {
            lemma_zero_words();
        }
        assert(p.words() =~= zeros(<Self as Primitive>::size()));
        p
    }
}

impl Init for LineF2 {
    open spec fn command() -> u8 {
        0x40
    }

    proof fn lemma_has_command_word() {
    }

    fn init(&mut self)
        ensures
            *final(self) == (LineF2 { cmd: 0x40, ..*old(self) }),
    {
        proof {
            lemma_head_top(old(self).color, old(self).cmd, 0x40);
        }
        self.cmd = 0x40;
        assert(self.words() =~= old(self).words().update(0, with_top(old(self).words()[0], 0x40)));
    }
}

/// A Gouraud-shaded line.
#[derive(Clone, Copy)]
pub struct LineG2 {
    /// The color of the first vertex.
    pub color0: Color,
    /// The command byte.
    pub cmd: u8,
    /// The first vertex.
    pub v0: Vertex,
    /// The color of the second vertex.
    pub color1: Color,
    /// Padding.
    pub _pad: u8,
    /// The second vertex.
    pub v1: Vertex,
}

impl LineG2 {
    /// Sets the colors of the vertices.
    pub fn color(&mut self, palette: [Color; 2]) -> (r: &mut Self)
        ensures
            *r == (LineG2 { color0: palette[0], color1: palette[1], ..*old(self) }),
            *final(self) == *final(r),
    {
        self.color0 = palette[0];
        self.color1 = palette[1];
        self
    }

    /// Sets the vertices.
    pub fn vertices(&mut self, vertices: [Vertex; 2]) -> (r: &mut Self)
        ensures
            *r == (LineG2 { v0: vertices[0], v1: vertices[1], ..*old(self) }),
            *final(self) == *final(r),
    {
        self.v0 = vertices[0];
        self.v1 = vertices[1];
        self
    }
}

impl Primitive for LineG2 {
    open spec fn size() -> nat {
        4
    }

    open spec fn words(&self) -> Seq<u32> {
        seq![
            head_word(self.color0, self.cmd),
            mem_word(self.v0),
            head_word(self.color1, self._pad),
            mem_word(self.v1),
        ]
    }

    proof fn lemma_size(&self) {
    }

    fn num_words() -> (n: usize) {
        4
    }

    fn as_slice(&self) -> (w: Vec<u32>) {
        let w = vec![
            head(self.color0, self.cmd),
            vertex_mem(self.v0),
            head(self.color1, self._pad),
            vertex_mem(self.v1),
        ];
        assert(w@ =~= self.words());
        w
    }

    fn zeroed() -> (p: Self) {
        let p = LineG2 { color0: Color { red: 0, green: 0, blue: 0 }, cmd: 0, v0: Vertex(0, 0), color1: Color { red: 0, green: 0, blue: 0 }, _pad: 0, v1: Vertex(0, 0) };
        proof {
            lemma_zero_words();
        }
        assert(p.words() =~= zeros(<Self as Primitive>::size()));
        p
    }
}

impl Init for LineG2 {
    open spec fn command() -> u8 {
        0x50
    }

    proof fn lemma_has_command_word() {
    }

    fn init(&mut self)
        ensures
            *final(self) == (LineG2 { cmd: 0x50, ..*old(self) }),
    {
        proof {
            lemma_head_top(old(self).color0, old(self).cmd, 0x50);
        }
        self.cmd = 0x50;
        assert(self.words() =~= old(self).words().update(0, with_top(old(self).words()[0], 0x50)));
    }
}

/// A vertex of a Gouraud-shaded poly-line with its color.
#[derive(Clone, Copy)]
pub struct ColoredVertex {
    /// The color.
    pub c: Color,
    /// Padding.
    pub _pad: u8,
    /// The vertex.
    pub v: Vertex,
}

impl Primitive for ColoredVertex {
    open spec fn size() -> nat {
        2
    }

    open spec fn words(&self) -> Seq<u32> {
        seq![
            head_word(self.c, self._pad),
            mem_word(self.v),
        ]
    }

    proof fn lemma_size(&self) {
    }

    fn num_words() -> (n: usize) {
        2
    }

    fn as_slice(&self) -> (w: Vec<u32>) {
        let w = vec![
            head(self.c, self._pad),
            vertex_mem(self.v),
        ];
        assert(w@ =~= self.words());
        w
    }

    fn zeroed() -> (p: Self) {
        let p = ColoredVertex { c: Color { red: 0, green: 0, blue: 0 }, _pad: 0, v: Vertex(0, 0) };
        proof {
            lemma_zero_words();
        }
        assert(p.words() =~= zeros(<Self as Primitive>::size()));
        p
    }
}

/// A monochrome rectangle of any size.
#[derive(Clone, Copy)]
pub struct Tile {
    /// The color.
    pub color: Color,
    /// The command byte.
    pub cmd: u8,
    /// The top-left corner.
    pub offset: Vertex,
    /// The width and height.
    pub size: Vertex,
}

impl Tile {
    /// Sets the color.
    pub fn color(&mut self, color: Color) -> (r: &mut Self)
        ensures
            *r == (Tile { color, ..*old(self) }),
            *final(self) == *final(r),
    {
        self.color = color;
        self
    }

    /// Sets the top-left corner.
    pub fn offset(&mut self, offset: Vertex) -> (r: &mut Self)
        ensures
            *r == (Tile { offset, ..*old(self) }),
            *final(self) == *final(r),
    {
        self.offset = offset;
        self
    }
}

impl Primitive for Tile {
    open spec fn size() -> nat {
        3
    }

    open spec fn words(&self) -> Seq<u32> {
        seq![
            head_word(self.color, self.cmd),
            mem_word(self.offset),
            mem_word(self.size),
        ]
    }

    proof fn lemma_size(&self) {
    }

    fn num_words() -> (n: usize) {
        3
    }

    fn as_slice(&self) -> (w: Vec<u32>) {
        let w = vec![
            head(self.color, self.cmd),
            vertex_mem(self.offset),
            vertex_mem(self.size),
        ];
        assert(w@ =~= self.words());
        w
    }

    fn zeroed() -> (p: Self) {
        let p = Tile { color: Color { red: 0, green: 0, blue: 0 }, cmd: 0, offset: Vertex(0, 0), size: Vertex(0, 0) };
        proof {
            lemma_zero_words();
        }
        assert(p.words() =~= zeros(<Self as Primitive>::size()));
        p
    }
}

impl Init for Tile {
    open spec fn command() -> u8 {
        0x60
    }

    proof fn lemma_has_command_word() {
    }

    fn init(&mut self)
        ensures
            *final(self) == (Tile { cmd: 0x60, ..*old(self) }),
    {
        proof {
            lemma_head_top(old(self).color, old(self).cmd, 0x60);
        }
        self.cmd = 0x60;
        assert(self.words() =~= old(self).words().update(0, with_top(old(self).words()[0], 0x60)));
    }
}

/// A monochrome 1x1 rectangle.
#[derive(Clone, Copy)]
pub struct Tile1 {
    /// The color.
    pub color: Color,
    /// The command byte.
    pub cmd: u8,
    /// The top-left corner.
    pub offset: Vertex,
}

impl Tile1 {
    /// Sets the color.
    pub fn color(&mut self, color: Color) -> (r: &mut Self)
        ensures
            *r == (Tile1 { color, ..*old(self) }),
            *final(self) == *final(r),
    {
        self.color = color;
        self
    }

    /// Sets the top-left corner.
    pub fn offset(&mut self, offset: Vertex) -> (r: &mut Self)
        ensures
            *r == (Tile1 { offset, ..*old(self) }),
            *final(self) == *final(r),
    {
        self.offset = offset;
        self
    }
}

impl Primitive for Tile1 {
    open spec fn size() -> nat {
        2
    }

    open spec fn words(&self) -> Seq<u32> {
        seq![
            head_word(self.color, self.cmd),
            mem_word(self.offset),
        ]
    }

    proof fn lemma_size(&self) {
    }

    fn num_words() -> (n: usize) {
        2
    }

    fn as_slice(&self) -> (w: Vec<u32>) {
        let w = vec![
            head(self.color, self.cmd),
            vertex_mem(self.offset),
        ];
        assert(w@ =~= self.words());
        w
    }

    fn zeroed() -> (p: Self) {
        let p = Tile1 { color: Color { red: 0, green: 0, blue: 0 }, cmd: 0, offset: Vertex(0, 0) };
        proof {
            lemma_zero_words();
        }
        assert(p.words() =~= zeros(<Self as Primitive>::size()));
        p
    }
}

impl Init for Tile1 {
    open spec fn command() -> u8 {
        0x68
    }

    proof fn lemma_has_command_word() {
    }

    fn init(&mut self)
        ensures
            *final(self) == (Tile1 { cmd: 0x68, ..*old(self) }),
    {
        proof {
            lemma_head_top(old(self).color, old(self).cmd, 0x68);
        }
        self.cmd = 0x68;
        assert(self.words() =~= old(self).words().update(0, with_top(old(self).words()[0], 0x68)));
    }
}

/// A monochrome 8x8 rectangle.
#[derive(Clone, Copy)]
pub struct Tile8 {
    /// The color.
    pub color: Color,
    /// The command byte.
    pub cmd: u8,
    /// The top-left corner.
    pub offset: Vertex,
}

impl Tile8 {
    /// Sets the color.
    pub fn color(&mut self, color: Color) -> (r: &mut Self)
        ensures
            *r == (Tile8 { color, ..*old(self) }),
            *final(self) == *final(r),
    {
        self.color = color;
        self
    }

    /// Sets the top-left corner.
    pub fn offset(&mut self, offset: Vertex) -> (r: &mut Self)
        ensures
            *r == (Tile8 { offset, ..*old(self) }),
            *final(self) == *final(r),
    {
        self.offset = offset;
        self
    }
}

impl Primitive for Tile8 {
    open spec fn size() -> nat {
        2
    }

    open spec fn words(&self) -> Seq<u32> {
        seq![
            head_word(self.color, self.cmd),
            mem_word(self.offset),
        ]
    }

    proof fn lemma_size(&self) {
    }

    fn num_words() -> (n: usize) {
        2
    }

    fn as_slice(&self) -> (w: Vec<u32>) {
        let w = vec![
            head(self.color, self.cmd),
            vertex_mem(self.offset),
        ];
        assert(w@ =~= self.words());
        w
    }

    fn zeroed() -> (p: Self) {
        let p = Tile8 { color: Color { red: 0, green: 0, blue: 0 }, cmd: 0, offset: Vertex(0, 0) };
        proof {
            lemma_zero_words();
        }
        assert(p.words() =~= zeros(<Self as Primitive>::size()));
        p
    }
}

impl Init for Tile8 {
    open spec fn command() -> u8 {
        0x70
    }

    proof fn lemma_has_command_word() {
    }

    fn init(&mut self)
        ensures
            *final(self) == (Tile8 { cmd: 0x70, ..*old(self) }),
    {
        proof {
            lemma_head_top(old(self).color, old(self).cmd, 0x70);
        }
        self.cmd = 0x70;
        assert(self.words() =~= old(self).words().update(0, with_top(old(self).words()[0], 0x70)));
    }
}

/// A monochrome 16x16 rectangle.
#[derive(Clone, Copy)]
pub struct Tile16 {
    /// The color.
    pub color: Color,
    /// The command byte.
    pub cmd: u8,
    /// The top-left corner.
    pub offset: Vertex,
}

impl Tile16 {
    /// Sets the color.
    pub fn color(&mut self, color: Color) -> (r: &mut Self)
        ensures
            *r == (Tile16 { color, ..*old(self) }),
            *final(self) == *final(r),
    {
        self.color = color;
        self
    }

    /// Sets the top-left corner.
    pub fn offset(&mut self, offset: Vertex) -> (r: &mut Self)
        ensures
            *r == (Tile16 { offset, ..*old(self) }),
            *final(self) == *final(r),
    {
        self.offset = offset;
        self
    }
}

impl Primitive for Tile16 {
    open spec fn size() -> nat {
        2
    }

    open spec fn words(&self) -> Seq<u32> {
        seq![
            head_word(self.color, self.cmd),
            mem_word(self.offset),
        ]
    }

    proof fn lemma_size(&self) {
    }

    fn num_words() -> (n: usize) {
        2
    }

    fn as_slice(&self) -> (w: Vec<u32>) {
        let w = vec![
            head(self.color, self.cmd),
            vertex_mem(self.offset),
        ];
        assert(w@ =~= self.words());
        w
    }

    fn zeroed() -> (p: Self) {
        let p = Tile16 { color: Color { red: 0, green: 0, blue: 0 }, cmd: 0, offset: Vertex(0, 0) };
        proof {
            lemma_zero_words();
        }
        assert(p.words() =~= zeros(<Self as Primitive>::size()));
        p
    }
}

impl Init for Tile16 {
    open spec fn command() -> u8 {
        0x78
    }

    proof fn lemma_has_command_word() {
    }

    fn init(&mut self)
        ensures
            *final(self) == (Tile16 { cmd: 0x78, ..*old(self) }),
    {
        proof {
            lemma_head_top(old(self).color, old(self).cmd, 0x78);
        }
        self.cmd = 0x78;
        assert(self.words() =~= old(self).words().update(0, with_top(old(self).words()[0], 0x78)));
    }
}

/// A textured rectangle of any size.
#[derive(Clone, Copy)]
pub struct Sprt {
    /// The color.
    pub color: Color,
    /// The command byte.
    pub cmd: u8,
    /// The top-left corner.
    pub offset: Vertex,
    /// The texture coordinate of the first vertex.
    pub t0: TexCoord,
    /// The color lookup table.
    pub clut: Clut,
    /// The width and height.
    pub size: Vertex,
}

impl Sprt {
    /// Sets the color.
    pub fn color(&mut self, color: Color) -> (r: &mut Self)
        ensures
            *r == (Sprt { color, ..*old(self) }),
            *final(self) == *final(r),
    {
        self.color = color;
        self
    }

    /// Sets the top-left corner.
    pub fn offset(&mut self, offset: Vertex) -> (r: &mut Self)
        ensures
            *r == (Sprt { offset, ..*old(self) }),
            *final(self) == *final(r),
    {
        self.offset = offset;
        self
    }

    /// Sets the texture coordinate.
    pub fn t0(&mut self, t0: TexCoord) -> (r: &mut Self)
        ensures
            *r == (Sprt { t0, ..*old(self) }),
            *final(self) == *final(r),
    {
        self.t0 = t0;
        self
    }

    /// Sets the color lookup table.
    pub fn clut(&mut self, clut: Clut) -> (r: &mut Self)
        ensures
            *r == (Sprt { clut, ..*old(self) }),
            *final(self) == *final(r),
    {
        self.clut = clut;
        self
    }

    /// Sets the width and height.
    pub fn size(&mut self, size: Vertex) -> (r: &mut Self)
        ensures
            *r == (Sprt { size, ..*old(self) }),
            *final(self) == *final(r),
    {
        self.size = size;
        self
    }

    /// Sets the command byte.
    pub fn cmd(&mut self) -> (r: &mut Self)
        ensures
            *r == (Sprt { cmd: 0x64, ..*old(self) }),
            *final(self) == *final(r),
    {
        self.cmd = 0x64;
        self
    }
}

impl Primitive for Sprt {
    open spec fn size() -> nat {
        4
    }

    open spec fn words(&self) -> Seq<u32> {
        seq![
            head_word(self.color, self.cmd),
            mem_word(self.offset),
            tex_word(self.t0, self.clut.word()),
            mem_word(self.size),
        ]
    }

    proof fn lemma_size(&self) {
    }

    fn num_words() -> (n: usize) {
        4
    }

    fn as_slice(&self) -> (w: Vec<u32>) {
        let w = vec![
            head(self.color, self.cmd),
            vertex_mem(self.offset),
            tex(self.t0, u32::from(self.clut)),
            vertex_mem(self.size),
        ];
        assert(w@ =~= self.words());
        w
    }

    fn zeroed() -> (p: Self) {
        let p = Sprt { color: Color { red: 0, green: 0, blue: 0 }, cmd: 0, offset: Vertex(0, 0), t0: TexCoord { x: 0, y: 0 }, clut: Clut::zeroed(), size: Vertex(0, 0) };
        proof {
            lemma_zero_words();
        }
        assert(p.words() =~= zeros(<Self as Primitive>::size()));
        p
    }
}

impl Init for Sprt {
    open spec fn command() -> u8 {
        0x64
    }

    proof fn lemma_has_command_word() {
    }

    fn init(&mut self)
        ensures
            *final(self) == (Sprt { cmd: 0x64, ..*old(self) }),
    {
        proof {
            lemma_head_top(old(self).color, old(self).cmd, 0x64);
        }
        self.cmd = 0x64;
        assert(self.words() =~= old(self).words().update(0, with_top(old(self).words()[0], 0x64)));
    }
}

/// A textured 8x8 rectangle.
#[derive(Clone, Copy)]
pub struct Sprt8 {
    /// The color.
    pub color: Color,
    /// The command byte.
    pub cmd: u8,
    /// The top-left corner.
    pub offset: Vertex,
    /// The texture coordinate of the first vertex.
    pub t0: TexCoord,
    /// The color lookup table.
    pub clut: Clut,
}

impl Sprt8 {
    /// Sets the color.
    pub fn color(&mut self, color: Color) -> (r: &mut Self)
        ensures
            *r == (Sprt8 { color, ..*old(self) }),
            *final(self) == *final(r),
    {
        self.color = color;
        self
    }

    /// Sets the top-left corner.
    pub fn offset(&mut self, offset: Vertex) -> (r: &mut Self)
        ensures
            *r == (Sprt8 { offset, ..*old(self) }),
            *final(self) == *final(r),
    {
        self.offset = offset;
        self
    }
}

impl Primitive for Sprt8 {
    open spec fn size() -> nat {
        3
    }

    open spec fn words(&self) -> Seq<u32> {
        seq![
            head_word(self.color, self.cmd),
            mem_word(self.offset),
            tex_word(self.t0, self.clut.word()),
        ]
    }

    proof fn lemma_size(&self) {
    }

    fn num_words() -> (n: usize) {
        3
    }

    fn as_slice(&self) -> (w: Vec<u32>) {
        let w = vec![
            head(self.color, self.cmd),
            vertex_mem(self.offset),
            tex(self.t0, u32::from(self.clut)),
        ];
        assert(w@ =~= self.words());
        w
    }

    fn zeroed() -> (p: Self) {
        let p = Sprt8 { color: Color { red: 0, green: 0, blue: 0 }, cmd: 0, offset: Vertex(0, 0), t0: TexCoord { x: 0, y: 0 }, clut: Clut::zeroed() };
        proof {
            lemma_zero_words();
        }
        assert(p.words() =~= zeros(<Self as Primitive>::size()));
        p
    }
}

impl Init for Sprt8 {
    open spec fn command() -> u8 {
        0x74
    }

    proof fn lemma_has_command_word() {
    }

    fn init(&mut self)
        ensures
            *final(self) == (Sprt8 { cmd: 0x74, ..*old(self) }),
    {
        proof {
            lemma_head_top(old(self).color, old(self).cmd, 0x74);
        }
        self.cmd = 0x74;
        assert(self.words() =~= old(self).words().update(0, with_top(old(self).words()[0], 0x74)));
    }
}

/// A textured 16x16 rectangle.
#[derive(Clone, Copy)]
pub struct Sprt16 {
    /// The color.
    pub color: Color,
    /// The command byte.
    pub cmd: u8,
    /// The top-left corner.
    pub offset: Vertex,
    /// The texture coordinate of the first vertex.
    pub t0: TexCoord,
    /// The color lookup table.
    pub clut: Clut,
}

impl Sprt16 {
    /// Sets the color.
    pub fn color(&mut self, color: Color) -> (r: &mut Self)
        ensures
            *r == (Sprt16 { color, ..*old(self) }),
            *final(self) == *final(r),
    {
        self.color = color;
        self
    }

    /// Sets the top-left corner.
    pub fn offset(&mut self, offset: Vertex) -> (r: &mut Self)
        ensures
            *r == (Sprt16 { offset, ..*old(self) }),
            *final(self) == *final(r),
    {
        self.offset = offset;
        self
    }
}

impl Primitive for Sprt16 {
    open spec fn size() -> nat {
        3
    }

    open spec fn words(&self) -> Seq<u32> {
        seq![
            head_word(self.color, self.cmd),
            mem_word(self.offset),
            tex_word(self.t0, self.clut.word()),
        ]
    }

    proof fn lemma_size(&self) {
    }

    fn num_words() -> (n: usize) {
        3
    }

    fn as_slice(&self) -> (w: Vec<u32>) {
        let w = vec![
            head(self.color, self.cmd),
            vertex_mem(self.offset),
            tex(self.t0, u32::from(self.clut)),
        ];
        assert(w@ =~= self.words());
        w
    }

    fn zeroed() -> (p: Self) {
        let p = Sprt16 { color: Color { red: 0, green: 0, blue: 0 }, cmd: 0, offset: Vertex(0, 0), t0: TexCoord { x: 0, y: 0 }, clut: Clut::zeroed() };
        proof {
            lemma_zero_words();
        }
        assert(p.words() =~= zeros(<Self as Primitive>::size()));
        p
    }
}

impl Init for Sprt16 {
    open spec fn command() -> u8 {
        0x7C
    }

    proof fn lemma_has_command_word() {
    }

    fn init(&mut self)
        ensures
            *final(self) == (Sprt16 { cmd: 0x7C, ..*old(self) }),
    {
        proof {
            lemma_head_top(old(self).color, old(self).cmd, 0x7C);
        }
        self.cmd = 0x7C;
        assert(self.words() =~= old(self).words().update(0, with_top(old(self).words()[0], 0x7C)));
    }
}

/// A flat-shaded poly-line through `N` vertices.
#[derive(Clone, Copy)]
pub struct LineF<const N: usize> {
    /// The color.
    pub color: Color,
    /// The command byte.
    pub cmd: u8,
    /// The vertices, in drawing order.
    pub vertices: [Vertex; N],
    /// The word that ends the line.
    pub term: u32,
}

impl<const N: usize> LineF<N> {
    /// The line's words, in memory order.
    pub open spec fn words(&self) -> Seq<u32> {
        seq![head_word(self.color, self.cmd)] + mem_words(self.vertices@) + seq![self.term]
    }

    /// Sets the vertices.
    pub fn vertices(&mut self, vertices: [Vertex; N]) -> (r: &mut Self)
        ensures
            *r == (LineF::<N> { vertices, ..*old(self) }),
            *final(self) == *final(r),
    {
        self.vertices = vertices;
        self
    }

    /// Sets the color.
    pub fn color(&mut self, color: Color) -> (r: &mut Self)
        ensures
            *r == (LineF::<N> { color, ..*old(self) }),
            *final(self) == *final(r),
    {
        self.color = color;
        self
    }

    /// The line's words, in memory order.
    pub fn as_slice(&self) -> (w: Vec<u32>)
        ensures
            w@ == self.words(),
    {
        let mut w: Vec<u32> = Vec::new();
        w.push(head(self.color, self.cmd));
        let mut i: usize = 0;
        while i < N
            invariant
                i <= N,
                self.vertices@.len() == N,
                w@ =~= seq![head_word(self.color, self.cmd)] + mem_words(
                    self.vertices@.take(i as int),
                ),
            decreases N - i,
        {
            w.push(vertex_mem(self.vertices[i]));
            assert(self.vertices@.take(i + 1) =~= self.vertices@.take(i as int).push(
                self.vertices@[i as int],
            ));
            i += 1;
        }
        w.push(self.term);
        assert(self.vertices@.take(N as int) =~= self.vertices@);
        assert(w@ =~= self.words());
        w
    }
}

/// The words of the colored vertices of a poly-line, two each.
pub open spec fn colored_words(cv: Seq<ColoredVertex>) -> Seq<u32>
    decreases cv.len(),
{
    if cv.len() == 0 {
        Seq::empty()
    } else {
        colored_words(cv.drop_last()) + seq![head_word(cv.last().c, cv.last()._pad), mem_word(cv.last().v)]
    }
}

/// A Gouraud-shaded poly-line through `N` colored vertices.
#[derive(Clone, Copy)]
pub struct LineG<const N: usize> {
    /// The vertices with their colors, in drawing order.
    pub colored_vertices: [ColoredVertex; N],
    /// The word that ends the line.
    pub term: u32,
}

impl<const N: usize> LineG<N> {
    /// The line's words, in memory order.
    pub open spec fn words(&self) -> Seq<u32> {
        colored_words(self.colored_vertices@) + seq![self.term]
    }

    /// The line's words, in memory order.
    pub fn as_slice(&self) -> (w: Vec<u32>)
        ensures
            w@ == self.words(),
    {
        let mut w: Vec<u32> = Vec::new();
        let mut i: usize = 0;
        while i < N
            invariant
                i <= N,
                self.colored_vertices@.len() == N,
                w@ =~= colored_words(self.colored_vertices@.take(i as int)),
            decreases N - i,
        {
            let cv = self.colored_vertices[i];
            w.push(head(cv.c, cv._pad));
            w.push(vertex_mem(cv.v));
            let ghost t = self.colored_vertices@.take(i + 1);
            assert(t.drop_last() =~= self.colored_vertices@.take(i as int));
            assert(t.last() == cv);
            i += 1;
        }
        w.push(self.term);
        assert(self.colored_vertices@.take(N as int) =~= self.colored_vertices@);
        assert(w@ =~= self.words());
        w
    }
}

impl PolyF3 {
    /// The vertices, in drawing order.
    pub open spec fn vertex_list(&self) -> Seq<Vertex> {
        seq![self.v0, self.v1, self.v2]
    }
}

/// A flat-shaded triangle lies in memory as the GPU reads it: its color and
/// command first, then each vertex in order.
pub proof fn lemma_poly_f3_layout(p: PolyF3)
    ensures
        p.words().len() == 4,
        p.words()[0] == head_word(p.color, p.cmd),
        forall|k: int|
            #![trigger p.vertex_list()[k]]
            0 <= k < 3 ==> {
                &&& p.words()[1 + k] == mem_word(p.vertex_list()[k])
            },
{
    assert forall|k: int| 0 <= k < 3 implies {
        &&& p.words()[1 + k] == mem_word(p.vertex_list()[k])
    } by {
    }
}

impl PolyF4 {
    /// The vertices, in drawing order.
    pub open spec fn vertex_list(&self) -> Seq<Vertex> {
        seq![self.v0, self.v1, self.v2, self.v3]
    }
}

/// A flat-shaded quad lies in memory as the GPU reads it: its color and
/// command first, then each vertex in order.
pub proof fn lemma_poly_f4_layout(p: PolyF4)
    ensures
        p.words().len() == 5,
        p.words()[0] == head_word(p.color, p.cmd),
        forall|k: int|
            #![trigger p.vertex_list()[k]]
            0 <= k < 4 ==> {
                &&& p.words()[1 + k] == mem_word(p.vertex_list()[k])
            },
{
    assert forall|k: int| 0 <= k < 4 implies {
        &&& p.words()[1 + k] == mem_word(p.vertex_list()[k])
    } by {
    }
}

impl LineF2 {
    /// The vertices, in drawing order.
    pub open spec fn vertex_list(&self) -> Seq<Vertex> {
        seq![self.v0, self.v1]
    }
}

/// A flat-shaded line lies in memory as the GPU reads it: its color and
/// command first, then each vertex in order.
pub proof fn lemma_line_f2_layout(p: LineF2)
    ensures
        p.words().len() == 3,
        p.words()[0] == head_word(p.color, p.cmd),
        forall|k: int|
            #![trigger p.vertex_list()[k]]
            0 <= k < 2 ==> {
                &&& p.words()[1 + k] == mem_word(p.vertex_list()[k])
            },
{
    assert forall|k: int| 0 <= k < 2 implies {
        &&& p.words()[1 + k] == mem_word(p.vertex_list()[k])
    } by {
    }
}

impl PolyFT3 {
    /// The vertices, in drawing order.
    pub open spec fn vertex_list(&self) -> Seq<Vertex> {
        seq![self.v0, self.v1, self.v2]
    }

    /// The texture coordinates of the vertices, in drawing order.
    pub open spec fn tex_list(&self) -> Seq<TexCoord> {
        seq![self.t0, self.t1, self.t2]
    }

    /// The high halves of the words that hold the texture coordinates:
    /// the color lookup table, the texture page, then padding.
    pub open spec fn tex_highs(&self) -> Seq<u32> {
        seq![self.clut.word(), self.tpage.word(), self._pad as u32]
    }
}

/// A flat-shaded textured triangle lies in memory as the GPU reads it: its
/// color and command first, then each vertex in order followed by its texture
/// coordinate.
pub proof fn lemma_poly_f_t3_layout(p: PolyFT3)
    ensures
        p.words().len() == 7,
        p.words()[0] == head_word(p.color, p.cmd),
        forall|k: int|
            #![trigger p.vertex_list()[k]]
            0 <= k < 3 ==> {
                &&& p.words()[1 + 2 * k] == mem_word(p.vertex_list()[k])
                &&& p.words()[2 + 2 * k] == tex_word(p.tex_list()[k], p.tex_highs()[k])
            },
{
    assert forall|k: int| 0 <= k < 3 implies {
        &&& p.words()[1 + 2 * k] == mem_word(p.vertex_list()[k])
        &&& p.words()[2 + 2 * k] == tex_word(p.tex_list()[k], p.tex_highs()[k])
    } by {
    }
}

impl PolyFT4 {
    /// The vertices, in drawing order.
    pub open spec fn vertex_list(&self) -> Seq<Vertex> {
        seq![self.v0, self.v1, self.v2, self.v3]
    }

    /// The texture coordinates of the vertices, in drawing order.
    pub open spec fn tex_list(&self) -> Seq<TexCoord> {
        seq![self.t0, self.t1, self.t2, self.t3]
    }

    /// The high halves of the words that hold the texture coordinates:
    /// the color lookup table, the texture page, then padding.
    pub open spec fn tex_highs(&self) -> Seq<u32> {
        seq![self.clut.word(), self.tpage.word(), self._pad0 as u32, self._pad1 as u32]
    }
}

/// A flat-shaded textured quad lies in memory as the GPU reads it: its color
/// and command first, then each vertex in order followed by its texture
/// coordinate.
pub proof fn lemma_poly_f_t4_layout(p: PolyFT4)
    ensures
        p.words().len() == 9,
        p.words()[0] == head_word(p.color, p.cmd),
        forall|k: int|
            #![trigger p.vertex_list()[k]]
            0 <= k < 4 ==> {
                &&& p.words()[1 + 2 * k] == mem_word(p.vertex_list()[k])
                &&& p.words()[2 + 2 * k] == tex_word(p.tex_list()[k], p.tex_highs()[k])
            },
{
    assert forall|k: int| 0 <= k < 4 implies {
        &&& p.words()[1 + 2 * k] == mem_word(p.vertex_list()[k])
        &&& p.words()[2 + 2 * k] == tex_word(p.tex_list()[k], p.tex_highs()[k])
    } by {
    }
}

impl PolyG3 {
    /// The vertices, in drawing order.
    pub open spec fn vertex_list(&self) -> Seq<Vertex> {
        seq![self.v0, self.v1, self.v2]
    }

    /// The colors of the vertices, in drawing order.
    pub open spec fn color_list(&self) -> Seq<Color> {
        seq![self.color0, self.color1, self.color2]
    }

    /// The high bytes of the words that hold the colors: the command,
    /// then padding.
    pub open spec fn color_tops(&self) -> Seq<u8> {
        seq![self.cmd, self._pad0, self._pad1]
    }
}

/// A Gouraud-shaded triangle lies in memory as the GPU reads it: each vertex
/// in order preceded by its color, the first color carrying the command.
pub proof fn lemma_poly_g3_layout(p: PolyG3)
    ensures
        p.words().len() == 6,
        forall|k: int|
            #![trigger p.vertex_list()[k]]
            0 <= k < 3 ==> {
                &&& p.words()[2 * k] == head_word(p.color_list()[k], p.color_tops()[k])
                &&& p.words()[2 * k + 1] == mem_word(p.vertex_list()[k])
            },
{
    assert forall|k: int| 0 <= k < 3 implies {
        &&& p.words()[2 * k] == head_word(p.color_list()[k], p.color_tops()[k])
        &&& p.words()[2 * k + 1] == mem_word(p.vertex_list()[k])
    } by {
    }
}

impl PolyG4 {
    /// The vertices, in drawing order.
    pub open spec fn vertex_list(&self) -> Seq<Vertex> {
        seq![self.v0, self.v1, self.v2, self.v3]
    }

    /// The colors of the vertices, in drawing order.
    pub open spec fn color_list(&self) -> Seq<Color> {
        seq![self.color0, self.color1, self.color2, self.color3]
    }

    /// The high bytes of the words that hold the colors: the command,
    /// then padding.
    pub open spec fn color_tops(&self) -> Seq<u8> {
        seq![self.cmd, self._pad0, self._pad1, self._pad2]
    }
}

/// A Gouraud-shaded quad lies in memory as the GPU reads it: each vertex in
/// order preceded by its color, the first color carrying the command.
pub proof fn lemma_poly_g4_layout(p: PolyG4)
    ensures
        p.words().len() == 8,
        forall|k: int|
            #![trigger p.vertex_list()[k]]
            0 <= k < 4 ==> {
                &&& p.words()[2 * k] == head_word(p.color_list()[k], p.color_tops()[k])
                &&& p.words()[2 * k + 1] == mem_word(p.vertex_list()[k])
            },
{
    assert forall|k: int| 0 <= k < 4 implies {
        &&& p.words()[2 * k] == head_word(p.color_list()[k], p.color_tops()[k])
        &&& p.words()[2 * k + 1] == mem_word(p.vertex_list()[k])
    } by {
    }
}

impl LineG2 {
    /// The vertices, in drawing order.
    pub open spec fn vertex_list(&self) -> Seq<Vertex> {
        seq![self.v0, self.v1]
    }

    /// The colors of the vertices, in drawing order.
    pub open spec fn color_list(&self) -> Seq<Color> {
        seq![self.color0, self.color1]
    }

    /// The high bytes of the words that hold the colors: the command,
    /// then padding.
    pub open spec fn color_tops(&self) -> Seq<u8> {
        seq![self.cmd, self._pad]
    }
}

/// A Gouraud-shaded line lies in memory as the GPU reads it: each vertex in
/// order preceded by its color, the first color carrying the command.
pub proof fn lemma_line_g2_layout(p: LineG2)
    ensures
        p.words().len() == 4,
        forall|k: int|
            #![trigger p.vertex_list()[k]]
            0 <= k < 2 ==> {
                &&& p.words()[2 * k] == head_word(p.color_list()[k], p.color_tops()[k])
                &&& p.words()[2 * k + 1] == mem_word(p.vertex_list()[k])
            },
{
    assert forall|k: int| 0 <= k < 2 implies {
        &&& p.words()[2 * k] == head_word(p.color_list()[k], p.color_tops()[k])
        &&& p.words()[2 * k + 1] == mem_word(p.vertex_list()[k])
    } by {
    }
}

impl PolyGT3 {
    /// The vertices, in drawing order.
    pub open spec fn vertex_list(&self) -> Seq<Vertex> {
        seq![self.v0, self.v1, self.v2]
    }

    /// The colors of the vertices, in drawing order.
    pub open spec fn color_list(&self) -> Seq<Color> {
        seq![self.color0, self.color1, self.color2]
    }

    /// The high bytes of the words that hold the colors: the command,
    /// then padding.
    pub open spec fn color_tops(&self) -> Seq<u8> {
        seq![self.cmd, self._pad0, self._pad1]
    }

    /// The texture coordinates of the vertices, in drawing order.
    pub open spec fn tex_list(&self) -> Seq<TexCoord> {
        seq![self.t0, self.t1, self.t2]
    }

    /// The high halves of the words that hold the texture coordinates:
    /// the color lookup table, the texture page, then padding.
    pub open spec fn tex_highs(&self) -> Seq<u32> {
        seq![self.clut.word(), self.tpage.word(), self._pad2 as u32]
    }
}

/// A Gouraud-shaded textured triangle lies in memory as the GPU reads it:
/// each vertex in order preceded by its color and followed by its texture
/// coordinate, the first color carrying the command.
pub proof fn lemma_poly_g_t3_layout(p: PolyGT3)
    ensures
        p.words().len() == 9,
        forall|k: int|
            #![trigger p.vertex_list()[k]]
            0 <= k < 3 ==> {
                &&& p.words()[3 * k] == head_word(p.color_list()[k], p.color_tops()[k])
                &&& p.words()[3 * k + 1] == mem_word(p.vertex_list()[k])
                &&& p.words()[3 * k + 2] == tex_word(p.tex_list()[k], p.tex_highs()[k])
            },
{
    assert forall|k: int| 0 <= k < 3 implies {
        &&& p.words()[3 * k] == head_word(p.color_list()[k], p.color_tops()[k])
        &&& p.words()[3 * k + 1] == mem_word(p.vertex_list()[k])
        &&& p.words()[3 * k + 2] == tex_word(p.tex_list()[k], p.tex_highs()[k])
    } by {
    }
}

impl PolyGT4 {
    /// The vertices, in drawing order.
    pub open spec fn vertex_list(&self) -> Seq<Vertex> {
        seq![self.v0, self.v1, self.v2, self.v3]
    }

    /// The colors of the vertices, in drawing order.
    pub open spec fn color_list(&self) -> Seq<Color> {
        seq![self.color0, self.color1, self.color2, self.color3]
    }

    /// The high bytes of the words that hold the colors: the command,
    /// then padding.
    pub open spec fn color_tops(&self) -> Seq<u8> {
        seq![self.cmd, self._pad0, self._pad1, self._pad3]
    }

    /// The texture coordinates of the vertices, in drawing order.
    pub open spec fn tex_list(&self) -> Seq<TexCoord> {
        seq![self.t0, self.t1, self.t2, self.t3]
    }

    /// The high halves of the words that hold the texture coordinates:
    /// the color lookup table, the texture page, then padding.
    pub open spec fn tex_highs(&self) -> Seq<u32> {
        seq![self.clut.word(), self.tpage.word(), self._pad2 as u32, self._pad4 as u32]
    }
}

/// A Gouraud-shaded textured quad lies in memory as the GPU reads it: each
/// vertex in order preceded by its color and followed by its texture
/// coordinate, the first color carrying the command.
pub proof fn lemma_poly_g_t4_layout(p: PolyGT4)
    ensures
        p.words().len() == 12,
        forall|k: int|
            #![trigger p.vertex_list()[k]]
            0 <= k < 4 ==> {
                &&& p.words()[3 * k] == head_word(p.color_list()[k], p.color_tops()[k])
                &&& p.words()[3 * k + 1] == mem_word(p.vertex_list()[k])
                &&& p.words()[3 * k + 2] == tex_word(p.tex_list()[k], p.tex_highs()[k])
            },
{
    assert forall|k: int| 0 <= k < 4 implies {
        &&& p.words()[3 * k] == head_word(p.color_list()[k], p.color_tops()[k])
        &&& p.words()[3 * k + 1] == mem_word(p.vertex_list()[k])
        &&& p.words()[3 * k + 2] == tex_word(p.tex_list()[k], p.tex_highs()[k])
    } by {
    }
}


/// The rectangles lie in memory as the GPU reads them: their color and
/// command first, then the top left corner; a sprite's texture coordinate
/// and color lookup table follow the corner; a size, where the rectangle
/// has one of its own, comes last.
pub proof fn lemma_rectangle_layouts(t: Tile, t1: Tile1, t8: Tile8, t16: Tile16, s: Sprt, s8: Sprt8, s16: Sprt16)
    ensures
        t.words().len() == 3,
        t.words()[0] == head_word(t.color, t.cmd),
        t.words()[1] == mem_word(t.offset),
        t.words()[2] == mem_word(t.size),
        t1.words() == seq![head_word(t1.color, t1.cmd), mem_word(t1.offset)],
        t8.words() == seq![head_word(t8.color, t8.cmd), mem_word(t8.offset)],
        t16.words() == seq![head_word(t16.color, t16.cmd), mem_word(t16.offset)],
        s.words().len() == 4,
        s.words()[0] == head_word(s.color, s.cmd),
        s.words()[1] == mem_word(s.offset),
        s.words()[2] == tex_word(s.t0, s.clut.word()),
        s.words()[3] == mem_word(s.size),
        s8.words().len() == 3,
        s8.words()[1] == mem_word(s8.offset),
        s8.words()[2] == tex_word(s8.t0, s8.clut.word()),
        s16.words().len() == 3,
        s16.words()[1] == mem_word(s16.offset),
        s16.words()[2] == tex_word(s16.t0, s16.clut.word()),
{
    assert(t1.words() =~= seq![head_word(t1.color, t1.cmd), mem_word(t1.offset)]);
    assert(t8.words() =~= seq![head_word(t8.color, t8.cmd), mem_word(t8.offset)]);
    assert(t16.words() =~= seq![head_word(t16.color, t16.cmd), mem_word(t16.offset)]);
}


/// A flat-shaded poly-line lies in memory as the GPU reads it: its color and
/// command, each vertex in order, then the word that ends the line.
pub proof fn lemma_line_f_layout<const N: usize>(l: LineF<N>)
    ensures
        l.words().len() == N + 2,
        l.words()[0] == head_word(l.color, l.cmd),
        forall|k: int| 0 <= k < N ==> l.words()[1 + k] == mem_word(#[trigger] l.vertices@[k]),
        l.words()[N + 1] == l.term,
{
}

/// The words of colored vertices: each color word, then its vertex.
proof fn lemma_colored_words(cv: Seq<ColoredVertex>)
    ensures
        colored_words(cv).len() == 2 * cv.len(),
        forall|k: int|
            0 <= k < cv.len() ==> colored_words(cv)[2 * k] == head_word((#[trigger] cv[k]).c, cv[k]._pad)
                && colored_words(cv)[2 * k + 1] == mem_word(cv[k].v),
    decreases cv.len(),
{
    if cv.len() > 0 {
        lemma_colored_words(cv.drop_last());
        assert forall|k: int| 0 <= k < cv.len() implies colored_words(cv)[2 * k] == head_word(
            (#[trigger] cv[k]).c,
            cv[k]._pad,
        ) && colored_words(cv)[2 * k + 1] == mem_word(cv[k].v) by {
            if k < cv.len() - 1 {
                assert(cv.drop_last()[k] == cv[k]);
            }
        }
    }
}

/// A Gouraud-shaded poly-line lies in memory as the GPU reads it: each
/// vertex in order, preceded by its color, then the word that ends the line.
pub proof fn lemma_line_g_layout<const N: usize>(l: LineG<N>)
    ensures
        l.words().len() == 2 * N + 1,
        forall|k: int|
            0 <= k < N ==> l.words()[2 * k] == head_word(
                (#[trigger] l.colored_vertices@[k]).c,
                l.colored_vertices@[k]._pad,
            ) && l.words()[2 * k + 1] == mem_word(l.colored_vertices@[k].v),
        l.words()[2 * N] == l.term,
{
    lemma_colored_words(l.colored_vertices@);
}


/// The kind of primitive a drawing command draws, from its top three bits:
/// `1` for a polygon, `2` for a line, `3` for a rectangle.
pub open spec fn command_kind(c: u8) -> int {
    c as int / 32
}

/// Whether the bit of weight `weight` is set in a command: `16` marks
/// Gouraud shading, `8` a quad, `4` a texture.
pub open spec fn command_bit(c: u8, weight: int) -> bool {
    (c as int / weight) % 2 == 1
}

/// The size of a rectangle from bits 3 and 4 of its command: `0` for any
/// size, `1` for a dot, `2` for 8 by 8, `3` for 16 by 16.
pub open spec fn rect_size_code(c: u8) -> int {
    (c as int / 8) % 4
}

/// Each primitive is drawn by the command that says what it is: a polygon,
/// line or rectangle; shaded or flat; a quad or a triangle; textured or
/// not; and a rectangle's fixed size.
pub proof fn lemma_primitive_commands()
    ensures
        command_kind(PolyF3::command()) == 1 && !command_bit(PolyF3::command(), 16) && !command_bit(PolyF3::command(), 8) && !command_bit(PolyF3::command(), 4),
        command_kind(PolyF4::command()) == 1 && !command_bit(PolyF4::command(), 16) && command_bit(PolyF4::command(), 8) && !command_bit(PolyF4::command(), 4),
        command_kind(PolyFT3::command()) == 1 && !command_bit(PolyFT3::command(), 16) && !command_bit(PolyFT3::command(), 8) && command_bit(PolyFT3::command(), 4),
        command_kind(PolyFT4::command()) == 1 && !command_bit(PolyFT4::command(), 16) && command_bit(PolyFT4::command(), 8) && command_bit(PolyFT4::command(), 4),
        command_kind(PolyG3::command()) == 1 && command_bit(PolyG3::command(), 16) && !command_bit(PolyG3::command(), 8) && !command_bit(PolyG3::command(), 4),
        command_kind(PolyG4::command()) == 1 && command_bit(PolyG4::command(), 16) && command_bit(PolyG4::command(), 8) && !command_bit(PolyG4::command(), 4),
        command_kind(PolyGT3::command()) == 1 && command_bit(PolyGT3::command(), 16) && !command_bit(PolyGT3::command(), 8) && command_bit(PolyGT3::command(), 4),
        command_kind(PolyGT4::command()) == 1 && command_bit(PolyGT4::command(), 16) && command_bit(PolyGT4::command(), 8) && command_bit(PolyGT4::command(), 4),
        command_kind(LineF2::command()) == 2 && !command_bit(LineF2::command(), 16),
        command_kind(LineG2::command()) == 2 && command_bit(LineG2::command(), 16),
        command_kind(Tile::command()) == 3 && rect_size_code(Tile::command()) == 0 && !command_bit(Tile::command(), 4),
        command_kind(Tile1::command()) == 3 && rect_size_code(Tile1::command()) == 1 && !command_bit(Tile1::command(), 4),
        command_kind(Tile8::command()) == 3 && rect_size_code(Tile8::command()) == 2 && !command_bit(Tile8::command(), 4),
        command_kind(Tile16::command()) == 3 && rect_size_code(Tile16::command()) == 3 && !command_bit(Tile16::command(), 4),
        command_kind(Sprt::command()) == 3 && rect_size_code(Sprt::command()) == 0 && command_bit(Sprt::command(), 4),
        command_kind(Sprt8::command()) == 3 && rect_size_code(Sprt8::command()) == 2 && command_bit(Sprt8::command(), 4),
        command_kind(Sprt16::command()) == 3 && rect_size_code(Sprt16::command()) == 3 && command_bit(Sprt16::command(), 4),
{
}

} // verus!
