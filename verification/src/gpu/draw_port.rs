use vstd::prelude::*;
use crate::gpu::Vertex;
use crate::gpu::vertex::vertex_word;

verus! {

/// A GPU command made of whole words, ready to be written to the drawing
/// port.
pub trait GpuPacket {
    /// The command's words, in the order they are sent.
    spec fn words(&self) -> Seq<u32>;

    /// The command's words.
    fn packet(&self) -> (w: Vec<u32>)
        ensures
            w@ == self.words(),
    ;
}

/// The drawing port (GP0). Commands written to it queue up in order; the
/// caller hands them to the hardware register.
pub struct DrawPort {
    sent: Vec<u32>,
}

/// A drawing attribute word: the command in the top byte, x in the low bits
/// and y shifted up by `shift` (a negative x sign-extends over y).
pub open spec fn attribute_word(cmd: u32, v: Vertex, shift: u32) -> u32 {
    (cmd << 24u32) | (v.0 as u32) | ((v.1 as u32) << shift)
}

/// The words that copy `data` to VRAM at `offset`, `size` pixels large.
pub open spec fn to_vram_words(offset: Vertex, size: Vertex, data: Seq<u32>) -> Seq<u32> {
    seq![0xA000_0000u32, vertex_word(offset), vertex_word(size)] + data
}

/// The drawing area corners (commands `0xE3` and `0xE4`) carry x in bits 0
/// to 9 and y in bits 10 to 19, and the drawing offset (`0xE5`) x in bits 0
/// to 10 and y in bits 11 to 21, for coordinates that fit those fields.
pub proof fn lemma_attribute_word_fields(v: Vertex)
    ensures
        0 <= v.0 < 1024 && 0 <= v.1 < 1024 ==> {
            &&& attribute_word(0xE3, v, 10) >> 24u32 == 0xE3
            &&& attribute_word(0xE4, v, 10) >> 24u32 == 0xE4
            &&& attribute_word(0xE3, v, 10) & 0x3ff == v.0
            &&& (attribute_word(0xE3, v, 10) >> 10u32) & 0x3ff == v.1
            &&& (attribute_word(0xE3, v, 10) >> 20u32) & 0xf == 0
            &&& attribute_word(0xE4, v, 10) & 0xFF_FFFF == attribute_word(0xE3, v, 10) & 0xFF_FFFF
        },
        0 <= v.0 < 2048 && 0 <= v.1 < 2048 ==> {
            &&& attribute_word(0xE5, v, 11) >> 24u32 == 0xE5
            &&& attribute_word(0xE5, v, 11) & 0x7ff == v.0
            &&& (attribute_word(0xE5, v, 11) >> 11u32) & 0x7ff == v.1
            &&& (attribute_word(0xE5, v, 11) >> 22u32) & 0x3 == 0
        },
{
    let (x, y) = (v.0 as u16, v.1 as u16);
    if 0 <= v.0 < 2048 && 0 <= v.1 < 2048 {
        assert(v.0 as u32 == x as u32 && v.1 as u32 == y as u32);
        assert(x < 2048 && y < 2048 ==> {
            let e3 = (0xE3u32 << 24u32) | (x as u32) | ((y as u32) << 10u32);
            let e4 = (0xE4u32 << 24u32) | (x as u32) | ((y as u32) << 10u32);
            let e5 = (0xE5u32 << 24u32) | (x as u32) | ((y as u32) << 11u32);
            &&& e5 >> 24u32 == 0xE5 && e5 & 0x7ff == x as u32 && (e5 >> 11u32) & 0x7ff == y as u32
            &&& (e5 >> 22u32) & 0x3 == 0
            &&& (x < 1024 && y < 1024 ==> e3 >> 24u32 == 0xE3 && e4 >> 24u32 == 0xE4 && e3 & 0x3ff
                == x as u32 && (e3 >> 10u32) & 0x3ff == y as u32 && (e3 >> 20u32) & 0xf == 0 && e4
                & 0xFF_FFFF == e3 & 0xFF_FFFF)
        }) by (bit_vector);
    }
}

impl DrawPort {
    /// The commands written so far, oldest first.
    pub closed spec fn sent(&self) -> Seq<u32> {
        self.sent@
    }

    /// A port with nothing written.
    pub fn new() -> (p: Self)
        ensures
            p.sent() == Seq::<u32>::empty(),
    {
        DrawPort { sent: Vec::new() }
    }

    /// Hands over the commands written so far, oldest first, and forgets them.
    pub fn drain(&mut self) -> (w: Vec<u32>)
        ensures
            w@ == old(self).sent(),
            final(self).sent() == Seq::<u32>::empty(),
    {
        let mut w = Vec::new();
        core::mem::swap(&mut w, &mut self.sent);
        w
    }

    fn write(&mut self, w: u32)
        ensures
            final(self).sent() == old(self).sent().push(w),
    {
        self.sent.push(w);
    }

    /// Writes every word of `cmd`.
    pub fn send<T: GpuPacket>(&mut self, cmd: &T) -> (r: &mut Self)
        ensures
            r.sent() == old(self).sent() + cmd.words(),
            *final(self) == *final(r),
    {
        let words = cmd.packet();
        let mut i: usize = 0;
        while i < words.len()
            invariant
                words@ == cmd.words(),
                i <= words.len(),
                self.sent() == old(self).sent() + words@.take(i as int),
            decreases words.len() - i,
        {
            self.write(words[i]);
            assert(words@.take(i + 1) == words@.take(i as int).push(words@[i as int]));
            i += 1;
        }
        assert(words@.take(words.len() as int) == words@);
        self
    }

    /// Copies `data` to VRAM at `offset`, `size` pixels large: command `0xA0`.
    pub fn to_vram(&mut self, offset: Vertex, size: Vertex, data: &[u32]) -> (r: &mut Self)
        ensures
            r.sent() == old(self).sent() + to_vram_words(offset, size, data@),
            *final(self) == *final(r),
    {
        assert(0xA0u32 << 24u32 == 0xA000_0000u32) by (bit_vector);
        self.write(0xA0u32 << 24u32);
        self.write(u32::from(offset));
        self.write(u32::from(size));
        let ghost head = self.sent();
        let mut i: usize = 0;
        while i < data.len()
            invariant
                i <= data.len(),
                self.sent() == head + data@.take(i as int),
            decreases data.len() - i,
        {
            self.write(data[i]);
            assert(data@.take(i + 1) == data@.take(i as int).push(data@[i as int]));
            i += 1;
        }
        assert(data@.take(data.len() as int) == data@);
        assert(head =~= old(self).sent() + seq![0xA000_0000u32, vertex_word(offset), vertex_word(size)]);
        assert(self.sent() =~= old(self).sent() + to_vram_words(offset, size, data@));
        self
    }

    /// Sets the upper-left corner of the drawing area: command `0xE3`.
    pub fn start(&mut self, v: Vertex) -> (r: &mut Self)
        ensures
            r.sent() == old(self).sent().push(attribute_word(0xE3, v, 10)),
            *final(self) == *final(r),
    {
        self.write(0xE3 << 24u32 | v.x() as u32 | ((v.y() as u32) << 10u32));
        self
    }

    /// Sets the lower-right corner of the drawing area: command `0xE4`.
    pub fn end(&mut self, v: Vertex) -> (r: &mut Self)
        ensures
            r.sent() == old(self).sent().push(attribute_word(0xE4, v, 10)),
            *final(self) == *final(r),
    {
        self.write(0xE4 << 24u32 | v.x() as u32 | ((v.y() as u32) << 10u32));
        self
    }

    /// Sets the drawing offset: command `0xE5`.
    pub fn offset(&mut self, v: Vertex) -> (r: &mut Self)
        ensures
            r.sent() == old(self).sent().push(attribute_word(0xE5, v, 11)),
            *final(self) == *final(r),
    {
        self.write(0xE5 << 24u32 | v.x() as u32 | ((v.y() as u32) << 11u32));
        self
    }
}

} // verus!
