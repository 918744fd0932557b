//! Vectors packed into a few bytes, as the GPU takes texture and display
//! attributes.
use vstd::prelude::*;
use vstd::std_specs::convert::{FromSpecImpl, TryFromSpecImpl};
use crate::gpu::vertex::{le_word, lemma_pack_round_trip, lemma_short_word};
use crate::gpu::{PackedVertex, Vertex, VertexError};
use crate::graphics::Vi;

verus! {

/// Error for conversions from [`Vi`] to [`PackedVector`].
#[derive(Debug, PartialEq, Eq, Clone, Copy, Structural)]
pub enum VectorError {
    /// The x component is too large for the [`PackedVector`].
    InvalidX,
    /// The y component is too large for the [`PackedVector`].
    InvalidY,
}

/// The x and y components of a vector packed into `N` bytes: x in bits
/// `0..X`, y in the `Y` bits above.
#[derive(Clone, Copy, PartialEq, Eq, Debug)]
pub struct PackedVector<const N: usize, const X: usize, const Y: usize> {
    data: [u8; N],
}

impl<const N: usize, const X: usize, const Y: usize> PackedVector<N, X, Y> {
    #[verifier::type_invariant]
    spec fn inv(self) -> bool {
        PackedVertex::<N, X, Y>::layout_fits()
    }

    /// The same bytes read as a packed vertex.
    pub closed spec fn as_vertex(self) -> PackedVertex<N, X, Y> {
        PackedVertex { data: self.data }
    }

    /// The packed vector holding the bytes of `p`.
    pub closed spec fn of_vertex(p: PackedVertex<N, X, Y>) -> Self {
        PackedVector { data: p.data }
    }

    /// The packed bits, read as a little-endian word.
    pub closed spec fn word(self) -> u32 {
        le_word(self.data@)
    }

    /// What converting `v` gives: its x and y components packed as a vertex
    /// would be, with the same errors; z is dropped.
    pub open spec fn pack_spec(v: Vi) -> Result<Self, VectorError> {
        match PackedVertex::<N, X, Y>::pack_spec(Vertex(v.0, v.1)) {
            Ok(p) => Ok(Self::of_vertex(p)),
            Err(VertexError::InvalidX) => Err(VectorError::InvalidX),
            Err(VertexError::InvalidY) => Err(VectorError::InvalidY),
        }
    }

    /// The vector read back: the unpacked x and y, and a zero z.
    pub open spec fn unpack_spec(self) -> Vi {
        let v = self.as_vertex().unpack_spec();
        Vi(v.0, v.1, 0)
    }

    /// Reads the x and y components back; z is zero.
    pub fn unpack(&self) -> (v: Vi)
        ensures
            v == self.unpack_spec(),
    {
        proof {
            use_type_invariant(self);
        }
        let p = PackedVertex::<N, X, Y> { data: self.data };
        let v = Vertex::from(p);
        Vi(v.0, v.1, 0)
    }
}

impl<const N: usize, const X: usize, const Y: usize> TryFrom<Vi> for PackedVector<N, X, Y> {
    type Error = VectorError;

    fn try_from(v: Vi) -> (r: Result<Self, VectorError>) {
        match <PackedVertex<N, X, Y> as TryFrom<Vertex>>::try_from(Vertex(v.0, v.1)) {
            Ok(p) => {
                proof {
                    use_type_invariant(&p);
                }
                Ok(PackedVector { data: p.data })
            },
            Err(VertexError::InvalidX) => Err(VectorError::InvalidX),
            Err(VertexError::InvalidY) => Err(VectorError::InvalidY),
        }
    }
}

impl<const N: usize, const X: usize, const Y: usize> TryFromSpecImpl<Vi> for PackedVector<N, X, Y> {
    open spec fn obeys_try_from_spec() -> bool {
        true
    }

    open spec fn try_from_spec(v: Vi) -> Result<Self, VectorError> {
        Self::pack_spec(v)
    }
}

impl<const X: usize, const Y: usize> From<PackedVector<2, X, Y>> for u32 {
    fn from(vector: PackedVector<2, X, Y>) -> (w: u32) {
        let w = vector.data[0] as u32 | (vector.data[1] as u32) << 8u32;
        proof {
            lemma_short_word(vector.data@[0] as u32, vector.data@[1] as u32, 0);
        }
        w
    }
}

impl<const X: usize, const Y: usize> FromSpecImpl<PackedVector<2, X, Y>> for u32 {
    open spec fn obeys_from_spec() -> bool {
        true
    }

    open spec fn from_spec(vector: PackedVector<2, X, Y>) -> u32 {
        vector.word()
    }
}

impl<const X: usize, const Y: usize> From<PackedVector<3, X, Y>> for u32 {
    fn from(vector: PackedVector<3, X, Y>) -> (w: u32) {
        let w = vector.data[0] as u32 | (vector.data[1] as u32) << 8u32 | (vector.data[2] as u32)
            << 16u32;
        proof {
            lemma_short_word(
                vector.data@[0] as u32,
                vector.data@[1] as u32,
                vector.data@[2] as u32,
            );
        }
        w
    }
}

impl<const X: usize, const Y: usize> FromSpecImpl<PackedVector<3, X, Y>> for u32 {
    open spec fn obeys_from_spec() -> bool {
        true
    }

    open spec fn from_spec(vector: PackedVector<3, X, Y>) -> u32 {
        vector.word()
    }
}

/// Packing a vector whose x and y fit their fields and unpacking it gives x
/// and y back (with a zero z); packing fails exactly when x or y is negative
/// or too wide, and reports x first.
pub proof fn lemma_vector_round_trip<const N: usize, const X: usize, const Y: usize>(v: Vi)
    requires
        PackedVertex::<N, X, Y>::layout_fits(),
    ensures
        PackedVector::<N, X, Y>::pack_spec(v) is Ok <==> (0 <= v.0 && (v.0 as u16) < (1u16 << X)
            && 0 <= v.1 && (v.1 as u16) < (1u16 << Y)),
        (v.0 < 0 || (v.0 as u16) >= (1u16 << X)) ==> PackedVector::<N, X, Y>::pack_spec(v)
            == Err::<PackedVector<N, X, Y>, VectorError>(VectorError::InvalidX),
        PackedVector::<N, X, Y>::pack_spec(v) matches Ok(p) ==> p.unpack_spec() == Vi(v.0, v.1, 0),
{
    lemma_pack_round_trip::<N, X, Y>(Vertex(v.0, v.1));
    let r = PackedVertex::<N, X, Y>::pack_spec(Vertex(v.0, v.1));
    if let Ok(p) = r {
        assert(PackedVector::<N, X, Y>::of_vertex(p).as_vertex() == p);
    }
}

} // verus!
