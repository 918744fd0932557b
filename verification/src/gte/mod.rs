//! The geometry transformation engine: its fixed-point numbers and vectors.
use vstd::prelude::*;

pub mod fixed;
pub mod trig;

verus! {

/// The coprocessor 0 status bit that makes coprocessor 2, the GTE, usable.
pub const STATUS_CU2: u32 = 0x4000_0000;

/// The geometry transformation engine.
pub struct GTE(());

impl GTE {
    /// The coprocessor 0 status word that enables the GTE: `status` with the
    /// coprocessor 2 usable bit set. Writing it back is left to the caller.
    pub fn enable(&mut self, status: u32) -> (s: u32)
        ensures
            s == status | STATUS_CU2,
    {
        status | STATUS_CU2
    }
}

/// A 3-component vector as the GTE's vector 0 registers hold it: x and y
/// packed in one word, z in the other.
pub struct V3 {
    vxy: u32,
    vz: i16,
}

/// The word holding x in the low half and y in the high half (a negative x
/// sign-extends over the high half).
pub open spec fn xy_word(x: i16, y: i16) -> u32 {
    (x as u32) | ((y as u32) << 16u32)
}

/// The packed word holds x in its low half, and y in its high half when x
/// is not negative.
pub proof fn lemma_xy_word_fields(x: i16, y: i16)
    ensures
        xy_word(x, y) & 0xFFFF == x as u16 as u32,
        x >= 0 ==> xy_word(x, y) >> 16u32 == y as u16 as u32,
{
    assert(xy_word(x, y) & 0xFFFF == x as u16 as u32 && (x >= 0 ==> xy_word(x, y) >> 16u32 == y as u16
        as u32)) by (bit_vector);
}

impl V3 {
    /// The packed x and y word.
    pub closed spec fn xy(&self) -> u32 {
        self.vxy
    }

    /// The z component.
    pub closed spec fn z(&self) -> i16 {
        self.vz
    }

    /// Packs a vector for the GTE's vector 0 registers.
    pub fn new(v: [i16; 3]) -> (r: Self)
        ensures
            r.xy() == xy_word(v[0], v[1]),
            r.z() == v[2],
    {
        let x = v[0] as u32;
        let y = v[1] as u32;
        V3 { vxy: x | (y << 16u32), vz: v[2] }
    }

    /// The words to store in the vector 0 registers: the packed x and y, then
    /// z.
    pub fn words(&self) -> (w: (u32, i16))
        ensures
            w == (self.xy(), self.z()),
    {
        (self.vxy, self.vz)
    }
}

} // verus!
