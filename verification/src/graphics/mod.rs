//! Fixed-point numbers and vectors for 3D graphics.
use vstd::prelude::*;
use crate::graphics::fixed_point::F16;

pub mod buffer;
pub mod fixed_point;
pub mod ot;
pub mod packet;
pub mod vector;

verus! {

/// The address that ends a display list, and the mask of a tag's address
/// bits: `0xFF_FFFF`.
pub open spec fn termination() -> u32 {
    0x00FF_FFFF
}

/// The number of 32-bit words a `T` takes.
pub fn num_words<T>() -> (n: usize)
    ensures
        n == vstd::layout::size_of::<T>() / 4,
{
    core::mem::size_of::<T>() / 4
}

/// A signed 16-bit fixed point number with a 12-bit fraction.
pub type Fixed12 = F16<12>;

/// Reinterprets an i16 as a signed 16-bit fixed point number with a 12-bit
/// fraction.
///
/// This is the default 16-bit fixed point format for the GTE. The argument can
/// be formatted as `+/-0xA_BCD` where `0xBCD` is the fractional part and `0xA <
/// 0x8` is the integral part. For example `fixed12(0x_800)` represents `1/2` while
/// `fixed12(-0x1_800)` represents `-1 1/2`.
pub fn fixed12(x: i16) -> (r: Fixed12)
    ensures
        r.0 == x,
{
    F16(x)
}

/// A vector of i16.
#[derive(Debug, Copy, Clone, PartialEq, Eq, Structural)]
pub struct Vi(pub i16, pub i16, pub i16);

/// A vector of Fixed12.
#[derive(Debug, Copy, Clone, PartialEq, Eq)]
pub struct Vf(pub Fixed12, pub Fixed12, pub Fixed12);

/// A cosine table covers every 16-bit angle.
pub open spec fn is_cosine_table(table: Seq<i16>) -> bool {
    table.len() == 0x10000
}

/// The cosine of `x` read from `table`: the entry at `x`'s bits.
pub open spec fn cos_spec(x: Fixed12, table: Seq<i16>) -> Fixed12 {
    F16(table[x.0 as u16 as int])
}

/// The sine of `x`: the cosine of `0x4000 - x`, a quarter turn back.
pub open spec fn sin_spec(x: Fixed12, table: Seq<i16>) -> Fixed12 {
    cos_spec(F16((0x4000 - x.0) as i16), table)
}

/// Sine and cosine are complementary: the sine of a quarter turn less an
/// angle is the angle's cosine, read from the same table.
pub proof fn lemma_sine_of_complement(a: i16, table: Seq<i16>)
    requires
        a >= 0x4000 - 0x7fff,
        a <= 0x4000 + 0x7fff,
    ensures
        sin_req(F16((0x4000 - a) as i16)),
        sin_spec(F16((0x4000 - a) as i16), table) == cos_spec(F16(a), table),
{
}

/// Whether the quarter turn `0x4000 - x` fits in an `i16`.
pub open spec fn sin_req(x: Fixed12) -> bool {
    x.0 >= 0x4000 - 0x7fff
}

/// Looks up the cosine of an angle in a table of `0x10000` entries indexed
/// by the angle's bits.
pub fn cos(x: Fixed12, table: &[i16]) -> (r: Fixed12)
    requires
        is_cosine_table(table@),
    ensures
        r == cos_spec(x, table@),
{
    let idx = x.to_bits() as usize;
    fixed12(table[idx])
}

/// The sine of an angle: the cosine of a quarter turn minus the angle.
pub fn sin(x: Fixed12, table: &[i16]) -> (r: Fixed12)
    requires
        is_cosine_table(table@),
        sin_req(x),
    ensures
        r == sin_spec(x, table@),
{
    cos(fixed12(0x4000) - x, table)
}

} // verus!
