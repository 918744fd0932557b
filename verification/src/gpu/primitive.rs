//! A word buffer that primitives are carved out of from the front, and the
//! primitives laid out in it, each behind its tag word.
use vstd::prelude::*;
use crate::gpu::color::Color;
use crate::gpu::prim::buffer::{placed, write_at};
use crate::gpu::prim::{mem_word, mem_words, vertex_mem, with_top};
use crate::gpu::{Clut, TexCoord, TexPage, Vertex};

verus! {

/// `N` words, the first `nextpri` of them handed out.
pub struct Buffer<const N: usize> {
    /// The words.
    pub data: [u32; N],
    /// The number of words handed out.
    pub nextpri: usize,
}

impl<const N: usize> Buffer<N> {
    /// A buffer of zero words with nothing handed out.
    pub fn new() -> (b: Self)
        ensures
            b.data@ == Seq::new(N as nat, |i: int| 0u32),
            b.nextpri == 0,
    {
        let b = Buffer { data: [0u32; N], nextpri: 0 };
        assert(b.data@ =~= Seq::new(N as nat, |i: int| 0u32));
        b
    }

    /// Hands out `n` more words and returns every word handed out so far,
    /// to be written in place.
    pub fn get(&mut self, n: usize) -> (r: &mut [u32])
        requires
            old(self).nextpri + n <= N,
        ensures
            final(self).nextpri == old(self).nextpri + n,
            r@ == old(self).data@.subrange(0, old(self).nextpri + n),
            final(self).data@ == final(r)@ + old(self).data@.subrange(
                old(self).nextpri + n,
                N as int,
            ),
    {
        self.nextpri = self.nextpri + n;
        let end = self.nextpri;
        let (head, _tail) = self.data.split_at_mut(end);
        head
    }
}

/// The word that opens a flat polygon: its color in the low three bytes and
/// its command in the high byte.
pub open spec fn opening_word(c: Color, cmd: u8) -> u32 {
    ((c.red as u32) | ((c.green as u32) << 8u32) | ((c.blue as u32) << 16u32)) | ((cmd as u32)
        << 24u32)
}

/// The color in the low three bytes of a word.
pub open spec fn color_in(w: u32) -> Color {
    Color { red: w as u8, green: (w >> 8u32) as u8, blue: (w >> 16u32) as u8 }
}

/// The vertex in a word: x in the low half, y in the high half.
pub open spec fn vertex_in(w: u32) -> Vertex {
    Vertex(w as u16 as i16, (w >> 16u32) as u16 as i16)
}

/// A word read back as a color and a command gives the word again, and
/// so does a word read back as a vertex; writing a command into an opening
/// word replaces its high byte.
pub proof fn lemma_words_read_back(w: u32, c: Color, a: u8, b: u8)
    ensures
        opening_word(color_in(w), (w >> 24u32) as u8) == w,
        mem_word(vertex_in(w)) == w,
        opening_word(c, b) == with_top(opening_word(c, a), b),
{
    assert(((w as u8 as u32) | (((w >> 8u32) as u8 as u32) << 8u32) | (((w >> 16u32) as u8 as u32)
        << 16u32)) | (((w >> 24u32) as u8 as u32) << 24u32) == w) by (bit_vector);
    assert(((w as u16 as i16) as u16 as u32) | ((((w >> 16u32) as u16 as i16) as u16 as u32)
        << 16u32) == w) by (bit_vector);
    let (r, g, bl) = (c.red, c.green, c.blue);
    assert(((r as u32) | ((g as u32) << 8u32) | ((bl as u32) << 16u32)) | ((b as u32) << 24u32)
        == ((((r as u32) | ((g as u32) << 8u32) | ((bl as u32) << 16u32)) | ((a as u32) << 24u32))
        & 0x00FF_FFFFu32) | ((b as u32) << 24u32)) by (bit_vector);
}

/// The color in the low three bytes of a word.
fn read_color(w: u32) -> (c: Color)
    ensures
        c == color_in(w),
{
    Color { red: w as u8, green: (w >> 8u32) as u8, blue: (w >> 16u32) as u8 }
}

/// The vertex in a word.
fn read_vertex(w: u32) -> (v: Vertex)
    ensures
        v == vertex_in(w),
{
    Vertex(w as u16 as i16, (w >> 16u32) as u16 as i16)
}

/// The word that opens a flat polygon.
fn open_word(c: Color, cmd: u8) -> (w: u32)
    ensures
        w == opening_word(c, cmd),
{
    ((c.red as u32) | ((c.green as u32) << 8u32) | ((c.blue as u32) << 16u32)) | ((cmd as u32)
        << 24u32)
}

/// A place in a [`Buffer`] where a primitive is laid out, with the
/// primitive as it is to be written there.
pub struct Ptr<T> {
    at: usize,
    prim: T,
}

impl<T> Ptr<T> {
    /// The index of the primitive's first word in its buffer.
    pub closed spec fn at_spec(&self) -> nat {
        self.at as nat
    }

    /// The primitive.
    pub closed spec fn prim_spec(&self) -> T {
        self.prim
    }

    /// The index of the primitive's first word in its buffer.
    pub fn at(&self) -> (a: usize)
        ensures
            a == self.at_spec(),
    {
        self.at
    }

    /// The primitive.
    pub fn as_ref(&self) -> (p: &T)
        ensures
            *p == self.prim_spec(),
    {
        &self.prim
    }
}

/// A flat-shaded triangle behind its tag word.
pub struct PolyF3 {
    /// The tag word.
    pub tag: u32,
    /// The color.
    pub color: Color,
    /// The command byte.
    pub cmd: u8,
    /// The vertices.
    pub vertices: [Vertex; 3],
}

impl PolyF3 {
    /// The words of the triangle, in memory order.
    pub open spec fn words(&self) -> Seq<u32> {
        seq![self.tag, opening_word(self.color, self.cmd)] + mem_words(self.vertices@)
    }

    /// The words of the triangle, in memory order.
    pub fn as_slice(&self) -> (w: Vec<u32>)
        ensures
            w@ == self.words(),
    {
        let w = vec![
            self.tag,
            open_word(self.color, self.cmd),
            vertex_mem(self.vertices[0]),
            vertex_mem(self.vertices[1]),
            vertex_mem(self.vertices[2]),
        ];
        assert(w@ =~= self.words());
        w
    }

    /// Takes the triangle's five words from `buffer` and lays a triangle at
    /// the start of the words handed out so far: its tag cleared and its
    /// command written, the other words as the buffer held them.
    pub fn from<const N: usize>(buffer: &mut Buffer<N>) -> (p: Ptr<PolyF3>)
        requires
            old(buffer).nextpri + 5 <= N,
        ensures
            final(buffer).nextpri == old(buffer).nextpri + 5,
            p.at_spec() == 0,
            p.prim_spec().tag == 0,
            p.prim_spec().cmd == 0x20,
            p.prim_spec().words() == old(buffer).data@.subrange(0, 5).update(0, 0).update(
                1,
                with_top(old(buffer).data@[1], 0x20),
            ),
            final(buffer).data@ == placed(old(buffer).data@, 0, p.prim_spec().words()),
    {
        let ghost d = buffer.data@;
        buffer.nextpri = buffer.nextpri + 5;
        let head = buffer.data[1];
        let prim = PolyF3 {
            tag: 0,
            color: read_color(head),
            cmd: 0x20,
            vertices: [
                read_vertex(buffer.data[2]),
                read_vertex(buffer.data[3]),
                read_vertex(buffer.data[4]),
            ],
        };
        proof {
            lemma_words_read_back(head, color_in(head), (head >> 24u32) as u8, 0x20);
            lemma_words_read_back(d[2], color_in(head), 0, 0);
            lemma_words_read_back(d[3], color_in(head), 0, 0);
            lemma_words_read_back(d[4], color_in(head), 0, 0);
            assert(prim.words() =~= d.subrange(0, 5).update(0, 0).update(1, with_top(d[1], 0x20)));
        }
        let w = prim.as_slice();
        write_at(&mut buffer.data, 0, &w);
        Ptr { at: 0, prim }
    }

    /// [`PolyF3::from`], then the vertices and the color set, all written to
    /// the buffer.
    pub fn new<const N: usize>(buffer: &mut Buffer<N>, vertices: [Vertex; 3], color: Color) -> (p: Ptr<
        PolyF3,
    >)
        requires
            old(buffer).nextpri + 5 <= N,
        ensures
            final(buffer).nextpri == old(buffer).nextpri + 5,
            p.at_spec() == 0,
            p.prim_spec() == (PolyF3 { tag: 0, color, cmd: 0x20, vertices }),
            final(buffer).data@ == placed(old(buffer).data@, 0, p.prim_spec().words()),
    {
        let ghost d = buffer.data@;
        let mut p = PolyF3::from(buffer);
        p.vertices(vertices).color(color);
        p.store(buffer);
        proof {
            assert(placed(placed(d, 0, p.prim_spec().words()), 0, p.prim_spec().words()) =~= placed(
                d,
                0,
                p.prim_spec().words(),
            ));
        }
        p
    }
}

impl Ptr<PolyF3> {
    /// Sets the vertices.
    pub fn vertices(&mut self, vertices: [Vertex; 3]) -> (r: &mut Self)
        ensures
            r.prim_spec() == (PolyF3 { vertices, ..old(self).prim_spec() }),
            r.at_spec() == old(self).at_spec(),
            *final(self) == *final(r),
    {
        self.prim.vertices = vertices;
        self
    }

    /// Sets the color.
    pub fn color(&mut self, color: Color) -> (r: &mut Self)
        ensures
            r.prim_spec() == (PolyF3 { color, ..old(self).prim_spec() }),
            r.at_spec() == old(self).at_spec(),
            *final(self) == *final(r),
    {
        self.prim.color = color;
        self
    }

    /// Sets the tag word.
    pub fn tag(&mut self, tag: u32) -> (r: &mut Self)
        ensures
            r.prim_spec() == (PolyF3 { tag, ..old(self).prim_spec() }),
            r.at_spec() == old(self).at_spec(),
            *final(self) == *final(r),
    {
        self.prim.tag = tag;
        self
    }

    /// Sets the command byte.
    pub fn cmd(&mut self, cmd: u8) -> (r: &mut Self)
        ensures
            r.prim_spec() == (PolyF3 { cmd, ..old(self).prim_spec() }),
            r.at_spec() == old(self).at_spec(),
            *final(self) == *final(r),
    {
        self.prim.cmd = cmd;
        self
    }

    /// Writes the triangle's words to `buffer` at its place.
    pub fn store<const N: usize>(&self, buffer: &mut Buffer<N>)
        requires
            self.at_spec() + 5 <= N,
        ensures
            final(buffer).data@ == placed(old(buffer).data@, self.at_spec() as int, self.prim_spec().words()),
            final(buffer).nextpri == old(buffer).nextpri,
    {
        let w = self.prim.as_slice();
        write_at(&mut buffer.data, self.at, &w);
    }
}

/// A flat-shaded quad behind its tag word.
pub struct PolyF4 {
    /// The tag word.
    pub tag: u32,
    /// The color.
    pub color: Color,
    /// The command byte.
    pub cmd: u8,
    /// The vertices.
    pub vertices: [Vertex; 4],
}

impl PolyF4 {
    /// The words of the quad, in memory order.
    pub open spec fn words(&self) -> Seq<u32> {
        seq![self.tag, opening_word(self.color, self.cmd)] + mem_words(self.vertices@)
    }

    /// The words of the quad, in memory order.
    pub fn as_slice(&self) -> (w: Vec<u32>)
        ensures
            w@ == self.words(),
    {
        let w = vec![
            self.tag,
            open_word(self.color, self.cmd),
            vertex_mem(self.vertices[0]),
            vertex_mem(self.vertices[1]),
            vertex_mem(self.vertices[2]),
            vertex_mem(self.vertices[3]),
        ];
        assert(w@ =~= self.words());
        w
    }

    /// Takes the quad's five words from `buffer` and lays a quad at
    /// the start of the words handed out so far: its tag cleared and its
    /// command written, the other words as the buffer held them.
    pub fn from<const N: usize>(buffer: &mut Buffer<N>) -> (p: Ptr<PolyF4>)
        requires
            old(buffer).nextpri + 6 <= N,
        ensures
            final(buffer).nextpri == old(buffer).nextpri + 6,
            p.at_spec() == 0,
            p.prim_spec().tag == 0,
            p.prim_spec().cmd == 0x28,
            p.prim_spec().words() == old(buffer).data@.subrange(0, 6).update(0, 0).update(
                1,
                with_top(old(buffer).data@[1], 0x28),
            ),
            final(buffer).data@ == placed(old(buffer).data@, 0, p.prim_spec().words()),
    {
        let ghost d = buffer.data@;
        buffer.nextpri = buffer.nextpri + 6;
        let head = buffer.data[1];
        let prim = PolyF4 {
            tag: 0,
            color: read_color(head),
            cmd: 0x28,
            vertices: [
                read_vertex(buffer.data[2]),
                read_vertex(buffer.data[3]),
                read_vertex(buffer.data[4]),
                read_vertex(buffer.data[5]),
            ],
        };
        proof {
            lemma_words_read_back(head, color_in(head), (head >> 24u32) as u8, 0x28);
            lemma_words_read_back(d[2], color_in(head), 0, 0);
            lemma_words_read_back(d[3], color_in(head), 0, 0);
            lemma_words_read_back(d[4], color_in(head), 0, 0);
            lemma_words_read_back(d[5], color_in(head), 0, 0);
            assert(prim.words() =~= d.subrange(0, 6).update(0, 0).update(1, with_top(d[1], 0x28)));
        }
        let w = prim.as_slice();
        write_at(&mut buffer.data, 0, &w);
        Ptr { at: 0, prim }
    }

    /// [`PolyF4::from`], then the vertices and the color set, all written to
    /// the buffer.
    pub fn new<const N: usize>(buffer: &mut Buffer<N>, vertices: [Vertex; 4], color: Color) -> (p: Ptr<
        PolyF4,
    >)
        requires
            old(buffer).nextpri + 6 <= N,
        ensures
            final(buffer).nextpri == old(buffer).nextpri + 6,
            p.at_spec() == 0,
            p.prim_spec() == (PolyF4 { tag: 0, color, cmd: 0x28, vertices }),
            final(buffer).data@ == placed(old(buffer).data@, 0, p.prim_spec().words()),
    {
        let ghost d = buffer.data@;
        let mut p = PolyF4::from(buffer);
        p.vertices(vertices).color(color);
        p.store(buffer);
        proof {
            assert(placed(placed(d, 0, p.prim_spec().words()), 0, p.prim_spec().words()) =~= placed(
                d,
                0,
                p.prim_spec().words(),
            ));
        }
        p
    }
}

impl Ptr<PolyF4> {
    /// Sets the vertices.
    pub fn vertices(&mut self, vertices: [Vertex; 4]) -> (r: &mut Self)
        ensures
            r.prim_spec() == (PolyF4 { vertices, ..old(self).prim_spec() }),
            r.at_spec() == old(self).at_spec(),
            *final(self) == *final(r),
    {
        self.prim.vertices = vertices;
        self
    }

    /// Sets the color.
    pub fn color(&mut self, color: Color) -> (r: &mut Self)
        ensures
            r.prim_spec() == (PolyF4 { color, ..old(self).prim_spec() }),
            r.at_spec() == old(self).at_spec(),
            *final(self) == *final(r),
    {
        self.prim.color = color;
        self
    }

    /// Sets the tag word.
    pub fn tag(&mut self, tag: u32) -> (r: &mut Self)
        ensures
            r.prim_spec() == (PolyF4 { tag, ..old(self).prim_spec() }),
            r.at_spec() == old(self).at_spec(),
            *final(self) == *final(r),
    {
        self.prim.tag = tag;
        self
    }

    /// Sets the command byte.
    pub fn cmd(&mut self, cmd: u8) -> (r: &mut Self)
        ensures
            r.prim_spec() == (PolyF4 { cmd, ..old(self).prim_spec() }),
            r.at_spec() == old(self).at_spec(),
            *final(self) == *final(r),
    {
        self.prim.cmd = cmd;
        self
    }

    /// Writes the quad's words to `buffer` at its place.
    pub fn store<const N: usize>(&self, buffer: &mut Buffer<N>)
        requires
            self.at_spec() + 6 <= N,
        ensures
            final(buffer).data@ == placed(old(buffer).data@, self.at_spec() as int, self.prim_spec().words()),
            final(buffer).nextpri == old(buffer).nextpri,
    {
        let w = self.prim.as_slice();
        write_at(&mut buffer.data, self.at, &w);
    }
}

/// A flat-shaded textured triangle, behind its tag word.
pub struct PolyFT3 {
    /// The tag word.
    pub tag: u32,
    /// The color.
    pub color: Color,
    /// The command byte.
    pub cmd: u8,
    /// Vertex 0.
    pub v0: Vertex,
    /// The texture coordinate of vertex 0.
    pub t0: TexCoord,
    /// The color lookup table.
    pub clut: Clut,
    /// Vertex 1.
    pub v1: Vertex,
    /// The texture coordinate of vertex 1.
    pub t1: TexCoord,
    /// The texture page.
    pub tpage: TexPage,
    /// Vertex 2.
    pub v2: Vertex,
    /// The texture coordinate of vertex 2.
    pub t2: TexCoord,
    /// Padding.
    pub _pad: u16,
}

/// A flat-shaded textured quad, behind its tag word.
pub struct PolyFT4 {
    /// The tag word.
    pub tag: u32,
    /// The color.
    pub color: Color,
    /// The command byte.
    pub cmd: u8,
    /// Vertex 0.
    pub v0: Vertex,
    /// The texture coordinate of vertex 0.
    pub t0: TexCoord,
    /// The color lookup table.
    pub clut: Clut,
    /// Vertex 1.
    pub v1: Vertex,
    /// The texture coordinate of vertex 1.
    pub t1: TexCoord,
    /// The texture page.
    pub tpage: TexPage,
    /// Vertex 2.
    pub v2: Vertex,
    /// The texture coordinate of vertex 2.
    pub t2: TexCoord,
    /// Padding.
    pub _pad0: u16,
    /// Vertex 3.
    pub v3: Vertex,
    /// The texture coordinate of vertex 3.
    pub t3: TexCoord,
    /// Padding.
    pub _pad1: u16,
}

/// A Gouraud-shaded triangle, behind its tag word.
pub struct PolyG3 {
    /// The tag word.
    pub tag: u32,
    /// The color of vertex 0.
    pub color0: Color,
    /// The command byte.
    pub cmd: u8,
    /// Vertex 0.
    pub v0: Vertex,
    /// The color of vertex 1.
    pub color1: Color,
    /// Padding.
    pub _pad0: u8,
    /// Vertex 1.
    pub v1: Vertex,
    /// The color of vertex 2.
    pub color2: Color,
    /// Padding.
    pub _pad1: u8,
    /// Vertex 2.
    pub v2: Vertex,
}

/// A Gouraud-shaded quad, behind its tag word.
pub struct PolyG4 {
    /// The tag word.
    pub tag: u32,
    /// The color of vertex 0.
    pub color0: Color,
    /// The command byte.
    pub cmd: u8,
    /// Vertex 0.
    pub v0: Vertex,
    /// The color of vertex 1.
    pub color1: Color,
    /// Padding.
    pub _pad0: u8,
    /// Vertex 1.
    pub v1: Vertex,
    /// The color of vertex 2.
    pub color2: Color,
    /// Padding.
    pub _pad1: u8,
    /// Vertex 2.
    pub v2: Vertex,
    /// The color of vertex 3.
    pub color3: Color,
    /// Padding.
    pub _pad2: u8,
    /// Vertex 3.
    pub v3: Vertex,
}

/// A Gouraud-shaded textured triangle, behind its tag word.
pub struct PolyGT3 {
    /// The tag word.
    pub tag: u32,
    /// The color of vertex 0.
    pub color0: Color,
    /// The command byte.
    pub cmd: u8,
    /// Vertex 0.
    pub v0: Vertex,
    /// The texture coordinate of vertex 0.
    pub t0: TexCoord,
    /// The color lookup table.
    pub clut: Clut,
    /// The color of vertex 1.
    pub color1: Color,
    /// Padding.
    pub _pad0: u8,
    /// Vertex 1.
    pub v1: Vertex,
    /// The texture coordinate of vertex 1.
    pub t1: TexCoord,
    /// The texture page.
    pub tpage: TexPage,
    /// The color of vertex 2.
    pub color2: Color,
    /// Padding.
    pub _pad1: u8,
    /// Vertex 2.
    pub v2: Vertex,
    /// The texture coordinate of vertex 2.
    pub t2: TexCoord,
    /// Padding.
    pub _pad2: u16,
}

/// A Gouraud-shaded textured quad, behind its tag word.
pub struct PolyGT4 {
    /// The tag word.
    pub tag: u32,
    /// The color of vertex 0.
    pub color0: Color,
    /// The command byte.
    pub cmd: u8,
    /// Vertex 0.
    pub v0: Vertex,
    /// The texture coordinate of vertex 0.
    pub t0: TexCoord,
    /// The color lookup table.
    pub clut: Clut,
    /// The color of vertex 1.
    pub color1: Color,
    /// Padding.
    pub _pad0: u8,
    /// Vertex 1.
    pub v1: Vertex,
    /// The texture coordinate of vertex 1.
    pub t1: TexCoord,
    /// The texture page.
    pub tpage: TexPage,
    /// The color of vertex 2.
    pub color2: Color,
    /// Padding.
    pub _pad1: u8,
    /// Vertex 2.
    pub v2: Vertex,
    /// The texture coordinate of vertex 2.
    pub t2: TexCoord,
    /// Padding.
    pub _pad2: u16,
    /// The color of vertex 3.
    pub color3: Color,
    /// Padding.
    pub _pad3: u8,
    /// Vertex 3.
    pub v3: Vertex,
    /// The texture coordinate of vertex 3.
    pub t3: TexCoord,
    /// Padding.
    pub _pad4: u16,
}

/// A flat-shaded line, behind its tag word.
pub struct LineF2 {
    /// The tag word.
    pub tag: u32,
    /// The color.
    pub color: Color,
    /// The command byte.
    pub cmd: u8,
    /// Vertex 0.
    pub v0: Vertex,
    /// Vertex 1.
    pub v1: Vertex,
}

/// A Gouraud-shaded line, behind its tag word.
pub struct LineG2 {
    /// The tag word.
    pub tag: u32,
    /// The color of vertex 0.
    pub color0: Color,
    /// The command byte.
    pub cmd: u8,
    /// Vertex 0.
    pub v0: Vertex,
    /// The color of vertex 1.
    pub color1: Color,
    /// Padding.
    pub _pad: u8,
    /// Vertex 1.
    pub v1: Vertex,
}

/// A flat-shaded poly-line through `N` vertices, behind its tag word.
pub struct LineF<const N: usize> {
    /// The tag word.
    pub tag: u32,
    /// The color.
    pub color: Color,
    /// The command byte.
    pub cmd: u8,
    /// The vertices.
    pub vertices: [Vertex; N],
    /// The word that ends the line.
    pub term: u32,
}

/// A vertex with its color.
pub struct ColoredVertex {
    /// The color.
    pub c: Color,
    /// Padding.
    pub _pad: u8,
    /// The vertex.
    pub v: Vertex,
}

/// A Gouraud-shaded poly-line through `N` colored vertices, behind its tag word.
pub struct LineG<const N: usize> {
    /// The tag word.
    pub tag: u32,
    /// The vertices with their colors.
    pub colored_vertices: [ColoredVertex; N],
    /// The word that ends the line.
    pub term: u32,
}

/// A monochrome rectangle of any size, behind its tag word.
pub struct Tile {
    /// The tag word.
    pub tag: u32,
    /// The color.
    pub color: Color,
    /// The command byte.
    pub cmd: u8,
    /// The top left corner.
    pub offset: Vertex,
    /// The size.
    pub size: Vertex,
}

/// A monochrome dot, behind its tag word.
pub struct Tile1 {
    /// The tag word.
    pub tag: u32,
    /// The color.
    pub color: Color,
    /// The command byte.
    pub cmd: u8,
    /// The top left corner.
    pub offset: Vertex,
}

/// A monochrome 8 by 8 square, behind its tag word.
pub struct Tile8 {
    /// The tag word.
    pub tag: u32,
    /// The color.
    pub color: Color,
    /// The command byte.
    pub cmd: u8,
    /// The top left corner.
    pub offset: Vertex,
}

/// A monochrome 16 by 16 square, behind its tag word.
pub struct Tile16 {
    /// The tag word.
    pub tag: u32,
    /// The color.
    pub color: Color,
    /// The command byte.
    pub cmd: u8,
    /// The top left corner.
    pub offset: Vertex,
}

/// A textured rectangle of any size, behind its tag word.
pub struct Sprt {
    /// The tag word.
    pub tag: u32,
    /// The color.
    pub color: Color,
    /// The command byte.
    pub cmd: u8,
    /// The top left corner.
    pub offset: Vertex,
    /// The texture coordinate of vertex 0.
    pub t0: TexCoord,
    /// The color lookup table.
    pub clut: Clut,
    /// The size.
    pub size: Vertex,
}

/// An 8 by 8 sprite, behind its tag word.
pub struct Sprt8 {
    /// The tag word.
    pub tag: u32,
    /// The color.
    pub color: Color,
    /// The command byte.
    pub cmd: u8,
    /// The top left corner.
    pub offset: Vertex,
    /// The texture coordinate of vertex 0.
    pub t0: TexCoord,
    /// The color lookup table.
    pub clut: Clut,
}

/// A 16 by 16 sprite, behind its tag word.
pub struct Sprt16 {
    /// The tag word.
    pub tag: u32,
    /// The color.
    pub color: Color,
    /// The command byte.
    pub cmd: u8,
    /// The top left corner.
    pub offset: Vertex,
    /// The texture coordinate of vertex 0.
    pub t0: TexCoord,
    /// The color lookup table.
    pub clut: Clut,
}

} // verus!
