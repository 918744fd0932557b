//! Drawing primitives laid out word by word as the GPU reads them, the
//! packets that carry them, and the buffers and ordering tables that hold
//! them.
use vstd::prelude::*;
use crate::gpu::colors::{color_word, lemma_color_word};
use crate::gpu::{Color, TexCoord, Vertex};

pub mod buffer;
pub mod primitive;

pub use buffer::{Buffer, DoubleBuffer, DoubleOT, DoublePacket, OT};
pub use primitive::{
    ColoredVertex, LineF, LineF2, LineG, LineG2, PolyF3, PolyF4, PolyFT3, PolyFT4, PolyG3, PolyG4,
    PolyGT3, PolyGT4, Sprt, Sprt16, Sprt8, Tile, Tile1, Tile16, Tile8,
};



verus! {

/// The word that opens most primitives: a color in the low three bytes and
/// `top` (the command, or padding) in the high byte.
pub open spec fn head_word(c: Color, top: u8) -> u32 {
    color_word(c.red, c.green, c.blue) | ((top as u32) << 24u32)
}

/// A texture coordinate in the low half of a word (x, then y) and `hi` in
/// the high half.
pub open spec fn tex_word(t: TexCoord, hi: u32) -> u32 {
    (t.x as u32) | ((t.y as u32) << 8u32) | (hi << 16u32)
}

/// A vertex as it lies in memory: the 16 bits of x in the low half of the
/// word and those of y in the high half.
pub open spec fn mem_word(v: Vertex) -> u32 {
    (v.0 as u16 as u32) | ((v.1 as u16 as u32) << 16u32)
}

/// A vertex as it lies in memory.
pub fn vertex_mem(v: Vertex) -> (w: u32)
    ensures
        w == mem_word(v),
{
    (v.0 as u16 as u32) | ((v.1 as u16 as u32) << 16u32)
}

/// Vertices as they lie in memory, one word each.
pub open spec fn mem_words(v: Seq<Vertex>) -> Seq<u32> {
    v.map_values(|x: Vertex| mem_word(x))
}

/// `w` with its high byte replaced by `top`.
pub open spec fn with_top(w: u32, top: u8) -> u32 {
    (w & 0x00FF_FFFFu32) | ((top as u32) << 24u32)
}

/// `n` zero words.
pub open spec fn zeros(n: nat) -> Seq<u32> {
    Seq::new(n, |i: int| 0u32)
}

/// The word that opens most primitives.
pub fn head(c: Color, top: u8) -> (w: u32)
    ensures
        w == head_word(c, top),
{
    u32::from(c) | ((top as u32) << 24u32)
}

/// A texture coordinate in the low half of a word and `hi` in the high half.
pub fn tex(t: TexCoord, hi: u32) -> (w: u32)
    ensures
        w == tex_word(t, hi),
{
    (t.x as u32) | ((t.y as u32) << 8u32) | (hi << 16u32)
}

/// Replacing the high byte of an opening word changes only the command.
pub proof fn lemma_head_top(c: Color, a: u8, b: u8)
    ensures
        with_top(head_word(c, a), b) == head_word(c, b),
        head_word(Color { red: 0, green: 0, blue: 0 }, 0) == 0,
{
    let (r, g, bl) = (c.red, c.green, c.blue);
    lemma_color_word(r, g, bl);
    lemma_color_word(0, 0, 0);
    assert(((((r as u32) | ((g as u32) << 8u32) | ((bl as u32) << 16u32)) | ((a as u32) << 24u32))
        & 0x00FF_FFFFu32) | ((b as u32) << 24u32) == ((r as u32) | ((g as u32) << 8u32) | ((
    bl as u32) << 16u32)) | ((b as u32) << 24u32)) by (bit_vector);
    assert(((0u8 as u32) | ((0u8 as u32) << 8u32) | ((0u8 as u32) << 16u32)) | ((0u8 as u32)
        << 24u32) == 0) by (bit_vector);
}

/// A primitive as the GPU reads it: a fixed number of words.
pub trait Primitive: Sized {
    /// The number of words a primitive of this type takes.
    spec fn size() -> nat;

    /// The primitive's words, in memory order.
    spec fn words(&self) -> Seq<u32>;

    /// Every primitive of this type takes `size` words.
    proof fn lemma_size(&self)
        ensures
            self.words().len() == Self::size(),
    ;

    /// The number of words a primitive of this type takes.
    fn num_words() -> (n: usize)
        ensures
            n == Self::size(),
    ;

    /// The primitive's words, in memory order.
    fn as_slice(&self) -> (w: Vec<u32>)
        ensures
            w@ == self.words(),
    ;

    /// A primitive whose words are all zero, as fresh buffer memory holds it.
    fn zeroed() -> (p: Self)
        ensures
            p.words() == zeros(Self::size()),
    ;
}

/// A primitive with a command of its own, which `init` writes.
pub trait Init: Primitive {
    /// The command this primitive is drawn with.
    spec fn command() -> u8;

    /// A primitive with a command takes at least the word that holds it.
    proof fn lemma_has_command_word()
        ensures
            Self::size() > 0,
    ;

    /// Writes the command into the high byte of the first word.
    fn init(&mut self)
        ensures
            final(self).words() == old(self).words().update(
                0,
                with_top(old(self).words()[0], Self::command()),
            ),
    ;
}

} // verus!
