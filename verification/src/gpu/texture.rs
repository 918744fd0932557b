//! Texture attributes packed from vertices.
use vstd::prelude::*;
use crate::gpu::{Clut, PackedVertex, TexPage, Vertex, VertexError};

verus! {

impl PackedVertex<2, 4, 1> {
    /// Packs a texture page attribute: x in bits `0..4`, y in bit `4`.
    pub fn try_from(v: Vertex) -> (r: Result<TexPage, VertexError>)
        ensures
            r == TexPage::pack_spec(v),
    {
        <TexPage as TryFrom<Vertex>>::try_from(v)
    }
}

impl PackedVertex<2, 6, 9> {
    /// Packs a color lookup table attribute: x in bits `0..6`, y in bits
    /// `6..15`.
    pub fn try_from(v: Vertex) -> (r: Result<Clut, VertexError>)
        ensures
            r == Clut::pack_spec(v),
    {
        <Clut as TryFrom<Vertex>>::try_from(v)
    }
}

} // verus!
