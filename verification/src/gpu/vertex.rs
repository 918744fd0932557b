use vstd::prelude::*;
use crate::gpu::{PackedVertex, Vertex, VertexError};
use vstd::std_specs::convert::{FromSpecImpl, TryFromSpecImpl};
use vstd::std_specs::ops::{AddSpecImpl, SubSpec, SubSpecImpl};

verus! {

/// The little-endian word whose low bytes are `b` (at most four of them are read).
pub open spec fn le_word(b: Seq<u8>) -> u32 {
    let b0: u32 = if b.len() > 0 { b[0] as u32 } else { 0 };
    let b1: u32 = if b.len() > 1 { b[1] as u32 } else { 0 };
    let b2: u32 = if b.len() > 2 { b[2] as u32 } else { 0 };
    let b3: u32 = if b.len() > 3 { b[3] as u32 } else { 0 };
    b0 | (b1 << 8u32) | (b2 << 16u32) | (b3 << 24u32)
}

/// Byte `i` (little-endian) of `w`.
pub open spec fn le_byte(w: u32, i: int) -> u8 {
    ((w >> (8 * i) as u32) & 0xff) as u8
}

/// `a + b` fits componentwise.
pub open spec fn vertex_add_fits(a: Vertex, b: Vertex) -> bool {
    i16::MIN <= a.0 + b.0 <= i16::MAX && i16::MIN <= a.1 + b.1 <= i16::MAX
}

/// `a + b` componentwise.
pub open spec fn vertex_add(a: Vertex, b: Vertex) -> Vertex {
    Vertex((a.0 + b.0) as i16, (a.1 + b.1) as i16)
}

impl core::ops::Add for Vertex {
    type Output = Self;

    fn add(self, other: Self) -> (r: Self) {
        Vertex(self.0 + other.0, self.1 + other.1)
    }
}

impl AddSpecImpl for Vertex {
    open spec fn obeys_add_spec() -> bool {
        true
    }

    open spec fn add_req(self, other: Self) -> bool {
        vertex_add_fits(self, other)
    }

    open spec fn add_spec(self, other: Self) -> Self {
        vertex_add(self, other)
    }
}

impl core::ops::Sub for Vertex {
    type Output = Self;

    fn sub(self, other: Self) -> (r: Self) {
        Vertex(self.0 - other.0, self.1 - other.1)
    }
}

impl SubSpecImpl for Vertex {
    open spec fn obeys_sub_spec() -> bool {
        true
    }

    open spec fn sub_req(self, other: Self) -> bool {
        i16::MIN <= self.0 - other.0 <= i16::MAX && i16::MIN <= self.1 - other.1 <= i16::MAX
    }

    open spec fn sub_spec(self, other: Self) -> Self {
        Vertex((self.0 - other.0) as i16, (self.1 - other.1) as i16)
    }
}

/// Moving a vertex by `b` and back again gives the vertex: when `a + b`
/// fits, subtracting `b` from it is defined and gives `a`.
pub proof fn lemma_add_sub_inverse(a: Vertex, b: Vertex)
    requires
        vertex_add_fits(a, b),
    ensures
        <Vertex as SubSpec>::sub_req(vertex_add(a, b), b),
        <Vertex as SubSpec>::sub_spec(vertex_add(a, b), b) == a,
{
}

/// The GPU word for a vertex: x in the low half, y shifted into the high
/// half (a negative x sign-extends over the high half).
pub open spec fn vertex_word(v: Vertex) -> u32 {
    (v.0 as u32) | ((v.1 as u32) << 16u32)
}

impl From<Vertex> for u32 {
    fn from(v: Vertex) -> (w: u32) {
        (v.0 as u32) | ((v.1 as u32) << 16u32)
    }
}

impl FromSpecImpl<Vertex> for u32 {
    open spec fn obeys_from_spec() -> bool {
        true
    }

    open spec fn from_spec(v: Vertex) -> u32 {
        vertex_word(v)
    }
}

impl Vertex {
    /// The x coordinate.
    pub fn x(&self) -> (x: i16)
        ensures
            x == self.0,
    {
        self.0
    }

    /// The y coordinate.
    pub fn y(&self) -> (y: i16)
        ensures
            y == self.1,
    {
        self.1
    }

    /// The origin.
    pub fn zero() -> (v: Self)
        ensures
            v == Vertex(0, 0),
    {
        Vertex(0, 0)
    }

    /// This vertex moved by `by`.
    pub fn shift(&self, by: Vertex) -> (v: Self)
        requires
            vertex_add_fits(*self, by),
        ensures
            v == vertex_add(*self, by),
    {
        *self + by
    }

    /// Creates a new `Vertex`.
    pub fn new(xy: (i16, i16)) -> (v: Self)
        ensures
            v == Vertex(xy.0, xy.1),
    {
        Vertex(xy.0, xy.1)
    }
}

impl<const N: usize, const X: usize, const Y: usize> PackedVertex<N, X, Y> {
    /// Every packed vertex has a layout that fits; conversion is the only way
    /// to make one.
    #[verifier::type_invariant]
    pub(crate) open spec fn inv(self) -> bool {
        Self::layout_fits()
    }

    /// The layout fits: `X + Y` bits within `N <= 4` bytes, each field
    /// narrower than 16 bits.
    pub open spec fn layout_fits() -> bool {
        &&& N <= 4
        &&& X < 16
        &&& Y < 16
        &&& X + Y <= 8 * N
    }

    /// The packed bits, read as a little-endian word.
    pub closed spec fn word(self) -> u32 {
        le_word(self.data@)
    }

    /// A packed vertex of all-zero bytes.
    pub fn zeroed() -> (p: Self)
        requires
            Self::layout_fits(),
        ensures
            p.word() == 0,
            p.unpack_spec() == Vertex(0, 0),
    {
        broadcast use vstd::array::group_array_axioms;

        let p = PackedVertex { data: [0u8; N] };
        proof {
            let b = p.data@;
            assert(forall|i: int| 0 <= i < b.len() ==> b[i] == 0u8);
            lemma_zero_fields(X as u32, Y as u32);
        }
        p
    }

    /// The word that packs `x` into bits `0..X` and `y` above them.
    pub open spec fn pack_word(x: u16, y: u16) -> u32 {
        (x as u32) | ((y as u32) << (X as u32))
    }

    /// The packed vertex whose `N` bytes are the low bytes of `w`.
    pub closed spec fn from_word(w: u32) -> Self {
        choose|p: Self| p.data@ =~= Seq::new(N as nat, |i: int| le_byte(w, i))
    }

    /// What converting `v` gives: an error for the first field that does not
    /// fit its width (a layout that does not fit reports `InvalidX`), else
    /// both fields packed into `N` bytes.
    pub open spec fn pack_spec(v: Vertex) -> Result<Self, VertexError> {
        let x = v.0 as u16;
        let y = v.1 as u16;
        if !Self::layout_fits() {
            Err(VertexError::InvalidX)
        } else if x >= (1u16 << X) {
            Err(VertexError::InvalidX)
        } else if y >= (1u16 << Y) {
            Err(VertexError::InvalidY)
        } else {
            Ok(Self::from_word(Self::pack_word(x, y)))
        }
    }

    /// The vertex read back from a packed vertex.
    pub open spec fn unpack_spec(self) -> Vertex {
        Vertex(Self::field_x(self.word()) as i16, Self::field_y(self.word()) as i16)
    }

    /// The x field of a packed word.
    pub open spec fn field_x(w: u32) -> u32 {
        w & !(0xffff_ffffu32 << (X as u32))
    }

    /// The y field of a packed word.
    pub open spec fn field_y(w: u32) -> u32 {
        (w >> (X as u32)) & !(0xffff_ffffu32 << (Y as u32))
    }
}

/// Both fields of a zero word are zero, and zero bytes make a zero word.
proof fn lemma_zero_fields(xs: u32, ys: u32)
    by (bit_vector)
    ensures
        0u32 & !(0xffff_ffffu32 << xs) == 0,
        (0u32 >> xs) & !(0xffff_ffffu32 << ys) == 0,
        0u32 | (0u32 << 8u32) | (0u32 << 16u32) | (0u32 << 24u32) == 0,
{
}

/// Bytes of `w` joined back, low byte first, give `w` when nothing lies
/// above them.
proof fn lemma_join_bytes(w: u32)
    by (bit_vector)
    ensures
        w >> 0u32 == 0 ==> w == 0,
        w >> 8u32 == 0 ==> byte_at(w, 0) | (0u32 << 8u32) | (0u32 << 16u32) | (0u32 << 24u32) == w,
        w >> 16u32 == 0 ==> byte_at(w, 0) | (byte_at(w, 8) << 8u32) | (0u32 << 16u32) | (0u32
            << 24u32) == w,
        w >> 24u32 == 0 ==> byte_at(w, 0) | (byte_at(w, 8) << 8u32) | (byte_at(w, 16) << 16u32) | (
        0u32 << 24u32) == w,
        byte_at(w, 0) | (byte_at(w, 8) << 8u32) | (byte_at(w, 16) << 16u32) | (byte_at(w, 24)
            << 24u32) == w,
{
}

/// Zero high bytes add nothing to a word.
pub proof fn lemma_short_word(b0: u32, b1: u32, b2: u32)
    by (bit_vector)
    ensures
        b0 | (b1 << 8u32) == b0 | (b1 << 8u32) | (0u32 << 16u32) | (0u32 << 24u32),
        b0 | (b1 << 8u32) | (b2 << 16u32) == b0 | (b1 << 8u32) | (b2 << 16u32) | (0u32 << 24u32),
{
}

/// Facts about a coordinate `a` against a field `xs` bits wide.
proof fn lemma_coordinate(a: i16, xs: u16)
    by (bit_vector)
    ensures
        xs < 16 ==> (1u16 << xs) <= 0x8000,
        a < 0 ==> (a as u16) >= 0x8000,
        a >= 0 && (a as u16) < 0x8000 ==> (a as u16) as u32 as i16 == a,
        xs < 16 && (a as u16) < (1u16 << xs) ==> ((a as u16) as u32) < (1u32 << (xs as u32)),
{
}

/// Byte `k` of `w` as it lands in a word: `(w >> 8k) & 0xff`.
pub open spec fn byte_at(w: u32, k: u32) -> u32 {
    ((w >> k) & 0xff) as u8 as u32
}

/// `k` bytes of `w` laid over an array of zeros.
spec fn filled<const N: usize>(w: u32, k: nat) -> [u8; N]
    decreases k,
{
    if k == 0 {
        vstd::array::spec_array_fill_for_copy_type::<u8, N>(0u8)
    } else {
        vstd::array::spec_array_update(filled::<N>(w, (k - 1) as nat), k - 1, le_byte(w, k - 1))
    }
}

proof fn lemma_filled<const N: usize>(w: u32, k: nat)
    requires
        k <= N,
    ensures
        forall|j: int| 0 <= j < k ==> #[trigger] filled::<N>(w, k)@[j] == le_byte(w, j),
    decreases k,
{
    broadcast use vstd::array::group_array_axioms;

    if k > 0 {
        lemma_filled::<N>(w, (k - 1) as nat);
        let prev = filled::<N>(w, (k - 1) as nat);
        assert(filled::<N>(w, k)@ == prev@.update(k - 1, le_byte(w, k - 1)));
    }
}

proof fn lemma_from_word<const N: usize, const X: usize, const Y: usize>(w: u32)
    ensures
        PackedVertex::<N, X, Y>::from_word(w).data@ =~= Seq::new(
            N as nat,
            |i: int| le_byte(w, i),
        ),
{
    broadcast use vstd::array::group_array_axioms;

    lemma_filled::<N>(w, N as nat);
    let witness = PackedVertex::<N, X, Y> { data: filled::<N>(w, N as nat) };
    assert(witness.data@ =~= Seq::new(N as nat, |i: int| le_byte(w, i)));
}

proof fn lemma_le_word_bytes(w: u32, b: Seq<u8>)
    requires
        b.len() <= 4,
        forall|i: int| 0 <= i < b.len() ==> b[i] == le_byte(w, i),
        b.len() < 4 ==> (w >> (8 * b.len()) as u32) == 0,
    ensures
        le_word(b) == w,
{
    lemma_join_bytes(w);
    lemma_zero_fields(0, 0);
    if b.len() == 1 {
        assert(b[0] as u32 == byte_at(w, 0));
    } else if b.len() == 2 {
        assert(b[0] as u32 == byte_at(w, 0));
        assert(b[1] as u32 == byte_at(w, 8));
    } else if b.len() == 3 {
        assert(b[0] as u32 == byte_at(w, 0));
        assert(b[1] as u32 == byte_at(w, 8));
        assert(b[2] as u32 == byte_at(w, 16));
    } else if b.len() == 4 {
        assert(b[0] as u32 == byte_at(w, 0));
        assert(b[1] as u32 == byte_at(w, 8));
        assert(b[2] as u32 == byte_at(w, 16));
        assert(b[3] as u32 == byte_at(w, 24));
    }
}

/// `x | y << xs` keeps both fields apart when each fits its width.
proof fn lemma_pack_fields(x: u32, y: u32, xs: u32, ys: u32, n: u32)
    by (bit_vector)
    requires
        xs < 16,
        ys < 16,
        xs + ys <= 8 * n,
        n <= 4,
        x < (1u32 << xs),
        y < (1u32 << ys),
    ensures
        n < 4 ==> ((x | (y << xs)) >> (8 * n)) == 0,
        (x | (y << xs)) & !(0xffff_ffffu32 << xs) == x,
        ((x | (y << xs)) >> xs) & !(0xffff_ffffu32 << ys) == y,
{
}

impl<const N: usize, const X: usize, const Y: usize> TryFrom<Vertex> for PackedVertex<N, X, Y> {
    type Error = VertexError;

    fn try_from(v: Vertex) -> (r: Result<Self, VertexError>) {
        let x = v.0 as u16;
        let y = v.1 as u16;
        if X >= 16 || Y >= 16 || N > 4 || X + Y > 8 * N {
            // A layout whose fields do not fit in `N` bytes packs nothing.
            return Err(VertexError::InvalidX);
        }
        if x >= (1u16 << X) {
            return Err(VertexError::InvalidX);
        }
        if y >= (1u16 << Y) {
            return Err(VertexError::InvalidY);
        }
        let value: u32 = (x as u32) | ((y as u32) << (X as u32));
        let mut data = [0u8; N];
        let mut i: usize = 0;
        while i < N
            invariant
                N <= 4,
                i <= N,
                value == Self::pack_word(x, y),
                forall|j: int| 0 <= j < i ==> data@[j] == le_byte(value, j),
            decreases N - i,
        {
            data[i] = ((value >> (8 * i as u32)) & 0xff) as u8;
            i += 1;
        }
        let p = PackedVertex { data };
        proof {
            let ghost target = Seq::new(N as nat, |k: int| le_byte(value, k));
            assert(p.data@ =~= target);
            let q = Self::from_word(value);
            assert(q.data@ =~= target);
            assert(q.data =~= p.data);
        }
        Ok(p)
    }
}

impl<const N: usize, const X: usize, const Y: usize> From<PackedVertex<N, X, Y>> for Vertex {
    fn from(packed: PackedVertex<N, X, Y>) -> (v: Vertex) {
        proof {
            use_type_invariant(&packed);
        }
        let b0: u32 = if N > 0 { packed.data[0] as u32 } else { 0 };
        let b1: u32 = if N > 1 { packed.data[1] as u32 } else { 0 };
        let b2: u32 = if N > 2 { packed.data[2] as u32 } else { 0 };
        let b3: u32 = if N > 3 { packed.data[3] as u32 } else { 0 };
        let data: u32 = b0 | (b1 << 8u32) | (b2 << 16u32) | (b3 << 24u32);
        let x_mask: u32 = !(0xffff_ffffu32 << (X as u32));
        let y_mask: u32 = !(0xffff_ffffu32 << (Y as u32));
        let y_shift = X as u32;
        let x = data & x_mask;
        let y = (data >> y_shift) & y_mask;
        proof {
            assert(data == packed.word());
        }
        Vertex(x as i16, y as i16)
    }
}

impl<const N: usize, const X: usize, const Y: usize> FromSpecImpl<PackedVertex<N, X, Y>> for Vertex {
    open spec fn obeys_from_spec() -> bool {
        true
    }

    open spec fn from_spec(packed: PackedVertex<N, X, Y>) -> Vertex {
        packed.unpack_spec()
    }
}

impl<const X: usize, const Y: usize> From<PackedVertex<2, X, Y>> for u32 {
    fn from(vertex: PackedVertex<2, X, Y>) -> (w: u32) {
        let w = vertex.data[0] as u32 | (vertex.data[1] as u32) << 8u32;
        proof {
            lemma_short_word(vertex.data@[0] as u32, vertex.data@[1] as u32, 0);
        }
        w
    }
}

impl<const X: usize, const Y: usize> FromSpecImpl<PackedVertex<2, X, Y>> for u32 {
    open spec fn obeys_from_spec() -> bool {
        true
    }

    open spec fn from_spec(vertex: PackedVertex<2, X, Y>) -> u32 {
        vertex.word()
    }
}

impl<const X: usize, const Y: usize> From<PackedVertex<3, X, Y>> for u32 {
    fn from(vertex: PackedVertex<3, X, Y>) -> (w: u32) {
        let w = vertex.data[0] as u32 | (vertex.data[1] as u32) << 8u32 | (vertex.data[2] as u32)
            << 16u32;
        proof {
            lemma_short_word(
                vertex.data@[0] as u32,
                vertex.data@[1] as u32,
                vertex.data@[2] as u32,
            );
        }
        w
    }
}

impl<const X: usize, const Y: usize> FromSpecImpl<PackedVertex<3, X, Y>> for u32 {
    open spec fn obeys_from_spec() -> bool {
        true
    }

    open spec fn from_spec(vertex: PackedVertex<3, X, Y>) -> u32 {
        vertex.word()
    }
}

/// Packing a vertex whose coordinates fit their fields and reading it back
/// gives the vertex again; packing fails exactly when a coordinate is
/// negative or too wide, and reports the x coordinate first.
pub proof fn lemma_pack_round_trip<const N: usize, const X: usize, const Y: usize>(v: Vertex)
    requires
        PackedVertex::<N, X, Y>::layout_fits(),
    ensures
        PackedVertex::<N, X, Y>::pack_spec(v) is Ok <==> (0 <= v.0 && (v.0 as u16) < (1u16 << X)
            && 0 <= v.1 && (v.1 as u16) < (1u16 << Y)),
        (v.0 < 0 || (v.0 as u16) >= (1u16 << X)) ==> PackedVertex::<N, X, Y>::pack_spec(v)
            == Err::<PackedVertex<N, X, Y>, VertexError>(VertexError::InvalidX),
        PackedVertex::<N, X, Y>::pack_spec(v) matches Ok(p) ==> p.unpack_spec() == v,
{
    let x = v.0 as u16;
    let y = v.1 as u16;
    lemma_coordinate(v.0, X as u16);
    lemma_coordinate(v.1, Y as u16);
    if x < (1u16 << X) && y < (1u16 << Y) {
        let w = PackedVertex::<N, X, Y>::pack_word(x, y);
        lemma_pack_fields(x as u32, y as u32, X as u32, Y as u32, N as u32);
        let p = PackedVertex::<N, X, Y>::from_word(w);
        lemma_from_word::<N, X, Y>(w);
        lemma_le_word_bytes(w, p.data@);
        assert(p.word() == w);
    }
}

impl<const N: usize, const X: usize, const Y: usize> TryFromSpecImpl<Vertex> for PackedVertex<N, X, Y> {
    open spec fn obeys_try_from_spec() -> bool {
        true
    }

    open spec fn try_from_spec(v: Vertex) -> Result<Self, VertexError> {
        Self::pack_spec(v)
    }
}

} // verus!
