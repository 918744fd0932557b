use psx::gpu::packed_vector::{PackedVector, VectorError};
use psx::gpu::{Clut, PackedVertex, TexPage, Vertex, VertexError};
use psx::graphics::Vi;

#[test]
fn vertex_accessors_and_word() {
    let v = Vertex::new((3, -4));
    assert_eq!(v, Vertex(3, -4));
    assert_eq!(v.x(), 3);
    assert_eq!(v.y(), -4);
    assert_eq!(Vertex::zero(), Vertex(0, 0));
    assert_eq!(u32::from(v), 0xFFFC_0003);
    assert_eq!(u32::from(Vertex(-1, 0)), 0xFFFF_FFFF);
}

#[test]
fn vertex_arithmetic_is_componentwise() {
    let a = Vertex(10, -20);
    let b = Vertex(5, 7);
    assert_eq!(a + b, Vertex(15, -13));
    assert_eq!(a - b, Vertex(5, -27));
    assert_eq!(a.shift(b), Vertex(15, -13));
    assert_eq!((a + b) - b, a);
}

#[test]
fn tex_page_packs_four_and_one_bits() {
    let p = TexPage::try_from(Vertex(3, 1)).unwrap();
    assert_eq!(u32::from(p), 0x13);
    assert_eq!(Vertex::from(p), Vertex(3, 1));
}

#[test]
fn tex_page_rejects_wide_fields() {
    assert_eq!(TexPage::try_from(Vertex(16, 0)), Err(VertexError::InvalidX));
    assert_eq!(TexPage::try_from(Vertex(0, 2)), Err(VertexError::InvalidY));
    assert_eq!(TexPage::try_from(Vertex(-1, 0)), Err(VertexError::InvalidX));
    assert_eq!(TexPage::try_from(Vertex(16, 2)), Err(VertexError::InvalidX));
}

#[test]
fn clut_packs_six_and_nine_bits() {
    let c = Clut::try_from(Vertex(63, 511)).unwrap();
    assert_eq!(u32::from(c), 0x7FFF);
    assert_eq!(Vertex::from(c), Vertex(63, 511));
    assert_eq!(Clut::try_from(Vertex(64, 0)), Err(VertexError::InvalidX));
    assert_eq!(Clut::try_from(Vertex(0, 512)), Err(VertexError::InvalidY));
}

#[test]
fn three_byte_packed_vertex_round_trips() {
    let p = PackedVertex::<3, 10, 9>::try_from(Vertex(1023, 511)).unwrap();
    assert_eq!(u32::from(p), 0x7_FFFF);
    assert_eq!(Vertex::from(p), Vertex(1023, 511));
    let q = PackedVertex::<3, 12, 12>::try_from(Vertex(0x260, 0xC60)).unwrap();
    assert_eq!(u32::from(q), 0xC6_0260);
    assert_eq!(Vertex::from(q), Vertex(0x260, 0xC60));
}

#[test]
fn packed_vertex_of_zero_is_zero() {
    let z = PackedVertex::<2, 6, 9>::zeroed();
    assert_eq!(u32::from(z), 0);
    assert_eq!(Vertex::from(z), Vertex(0, 0));
}

#[test]
fn packed_vector_round_trips_x_and_y() {
    let p = PackedVector::<2, 6, 9>::try_from(Vi(5, 300, 77)).unwrap();
    assert_eq!(u32::from(p), 5 | (300 << 6));
    assert_eq!(p.unpack(), Vi(5, 300, 0));
    let q = PackedVector::<3, 10, 10>::try_from(Vi(1000, 1, -3)).unwrap();
    assert_eq!(u32::from(q), 1000 | (1 << 10));
    assert_eq!(q.unpack(), Vi(1000, 1, 0));
}

#[test]
fn packed_vector_reports_the_first_bad_field() {
    assert_eq!(PackedVector::<2, 6, 9>::try_from(Vi(64, 0, 0)), Err(VectorError::InvalidX));
    assert_eq!(PackedVector::<2, 6, 9>::try_from(Vi(0, 512, 0)), Err(VectorError::InvalidY));
    assert_eq!(PackedVector::<2, 6, 9>::try_from(Vi(-1, -1, 0)), Err(VectorError::InvalidX));
}
