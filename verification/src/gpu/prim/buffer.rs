//! Bump allocators for primitive packets, double-buffered packets, and
//! depth ordering tables that link packets into display lists.
use vstd::prelude::*;
use crate::gpu::prim::primitive::{
    LineF2, LineG2, PolyF3, PolyF4, PolyFT3, PolyFT4, PolyG3, PolyG4, PolyGT3, PolyGT4, Sprt,
    Sprt16, Sprt8, Tile, Tile1, Tile16, Tile8,
};
use crate::gpu::prim::{with_top, zeros, Init, Primitive};
use crate::gpu::{Clut, Color, TexCoord, Vertex};

verus! {

/// A primitive with its linked-list tag: the packet's size in words in the
/// high byte and the address of the next packet in the low three bytes.
pub struct Packet<T> {
    tag: u32,
    packet: T,
    at: usize,
}

/// The words of a packet's primitive as a fresh allocation holds them: zero
/// but for the command.
pub open spec fn fresh_words<T: Init>() -> Seq<u32> {
    zeros(T::size()).update(0, with_top(0, T::command()))
}

/// The tag of a fresh packet of `T`: its size in words, primitive and tag
/// together, in the high byte.
pub open spec fn fresh_tag<T: Primitive>() -> u32 {
    ((T::size() + 1) as u32) << 24u32
}

/// The words of a fresh packet of `T`: its tag, then its primitive.
pub open spec fn fresh_packet_words<T: Init>() -> Seq<u32> {
    seq![fresh_tag::<T>()] + fresh_words::<T>()
}

/// `data` with the words `w` laid over it from index `at`.
pub open spec fn placed(data: Seq<u32>, at: int, w: Seq<u32>) -> Seq<u32> {
    data.subrange(0, at) + w + data.subrange(at + w.len(), data.len() as int)
}

/// Each word of `placed(data, at, w)`: from `w` inside the placed range,
/// else from `data`.
pub proof fn lemma_placed_index(data: Seq<u32>, at: int, w: Seq<u32>, j: int)
    requires
        0 <= at,
        at + w.len() <= data.len(),
        0 <= j < data.len(),
    ensures
        placed(data, at, w).len() == data.len(),
        placed(data, at, w)[j] == if at <= j < at + w.len() {
            w[j - at]
        } else {
            data[j]
        },
{
}

/// `after` holds `m` copies of `w` laid one after another over `data` from
/// index `at`, and `data`'s words elsewhere.
pub open spec fn repeated(data: Seq<u32>, after: Seq<u32>, at: int, w: Seq<u32>, m: nat) -> bool {
    &&& after.len() == data.len()
    &&& forall|j: int|
        at <= j < at + m * w.len() ==> #[trigger] after[j] == w[(j - at) % (w.len() as int)]
    &&& forall|j: int|
        0 <= j < data.len() && !(at <= j < at + m * w.len()) ==> #[trigger] after[j] == data[j]
}

/// Laying one more copy of `w` right after `m` repeated copies gives `m + 1`
/// of them.
pub proof fn lemma_repeated_step(
    data: Seq<u32>,
    mid: Seq<u32>,
    at: int,
    w: Seq<u32>,
    m: nat,
)
    requires
        repeated(data, mid, at, w, m),
        w.len() > 0,
        0 <= at,
        at + (m + 1) * w.len() <= data.len(),
    ensures
        repeated(data, placed(mid, at + m * w.len(), w), at, w, m + 1),
{
    let n = w.len() as int;
    let from = at + m * n;
    let after = placed(mid, from, w);
    assert((m + 1) * n == m * n + n) by (nonlinear_arith);
    assert(m * n >= 0) by (nonlinear_arith)
        requires
            n > 0,
    ;
    assert forall|j: int| at <= j < at + (m + 1) * n implies #[trigger] after[j] == w[(j - at) % n] by {
        lemma_placed_index(mid, from, w, j);
        if j >= from {
            vstd::arithmetic::div_mod::lemma_fundamental_div_mod_converse(j - at, n, m as int, j - from);
        }
    }
    assert forall|j: int| 0 <= j < data.len() && !(at <= j < at + (m + 1) * n) implies #[trigger] after[j] == data[j] by {
        lemma_placed_index(mid, from, w, j);
    }
    lemma_placed_index(mid, from, w, 0);
}

/// Laying an empty run of words changes nothing, so `m` repeated copies of
/// it are also `m + 1`.
pub proof fn lemma_repeated_empty(data: Seq<u32>, mid: Seq<u32>, at: int, w: Seq<u32>, m: nat)
    requires
        repeated(data, mid, at, w, m),
        w.len() == 0,
        0 <= at <= data.len(),
    ensures
        repeated(data, placed(mid, at, w), at, w, m + 1),
{
    assert(placed(mid, at, w) =~= mid);
    assert(m * w.len() == 0 && (m + 1) * w.len() == 0) by (nonlinear_arith)
        requires
            w.len() == 0,
    ;
}

/// `m` blocks of `w` words fit in `room` words exactly when `m` is at most
/// `room / w`.
pub(crate) proof fn lemma_blocks_fit(room: int, w: int, m: int)
    requires
        room >= 0,
        w > 0,
        m >= 0,
    ensures
        m <= room / w <==> m * w <= room,
{
    let q = room / w;
    let r = room % w;
    vstd::arithmetic::div_mod::lemma_fundamental_div_mod(room, w);
    vstd::arithmetic::div_mod::lemma_mod_bound(room, w);
    if m <= q {
        assert(m * w <= room) by (nonlinear_arith)
            requires
                m <= q,
                w > 0,
                room == w * q + r,
                0 <= r < w,
        ;
    } else {
        assert(m * w > room) by (nonlinear_arith)
            requires
                m >= q + 1,
                w > 0,
                room == w * q + r,
                0 <= r < w,
        ;
    }
}

/// Lays the words `w` over `data` from index `at`.
pub(crate) fn write_at<const N: usize>(data: &mut [u32; N], at: usize, w: &Vec<u32>)
    requires
        at + w.len() <= N,
    ensures
        final(data)@ == placed(old(data)@, at as int, w@),
    no_unwind
{
    let mut i: usize = 0;
    while i < w.len()
        invariant
            at + w.len() <= N,
            i <= w.len(),
            data@.len() == N,
            data@ =~= old(data)@.subrange(0, at as int) + w@.take(i as int) + old(data)@.subrange(
                at + i,
                N as int,
            ),
        decreases w.len() - i,
    {
        data[at + i] = w[i];
        assert(w@.take(i + 1) =~= w@.take(i as int).push(w@[i as int]));
        i += 1;
    }
    assert(w@.take(w.len() as int) =~= w@);
}

impl<T> Packet<T> {
    /// The tag word.
    pub closed spec fn tag_spec(&self) -> u32 {
        self.tag
    }

    /// The primitive.
    pub closed spec fn packet_spec(&self) -> T {
        self.packet
    }

    /// The index of the packet's first word in the buffer it came from.
    pub closed spec fn at_spec(&self) -> nat {
        self.at as nat
    }

    /// The index of the packet's first word in the buffer it came from.
    pub fn at(&self) -> (a: usize)
        ensures
            a == self.at_spec(),
    {
        self.at
    }

    /// The tag word.
    pub fn tag(&self) -> (t: u32)
        ensures
            t == self.tag_spec(),
    {
        self.tag
    }

    /// The primitive.
    pub fn get(&self) -> (p: &T)
        ensures
            *p == self.packet_spec(),
    {
        &self.packet
    }

    /// The primitive, to change it in place.
    pub fn get_mut(&mut self) -> (p: &mut T)
        ensures
            *p == old(self).packet_spec(),
            final(self).packet_spec() == *final(p),
            final(self).tag_spec() == old(self).tag_spec(),
            final(self).at_spec() == old(self).at_spec(),
    {
        &mut self.packet
    }
}

impl<T> core::ops::Deref for Packet<T> {
    type Target = T;

    fn deref(&self) -> (p: &T)
        ensures
            *p == self.packet_spec(),
    {
        &self.packet
    }
}

impl<T: Init> Packet<T> {
    /// A packet for a `T` as a fresh allocation holds it: tagged with its
    /// size, zero but for the command.
    pub(crate) fn fresh(at: usize) -> (p: Self)
        ensures
            p.tag_spec() == fresh_tag::<T>(),
            p.packet_spec().words() == fresh_words::<T>(),
            p.at_spec() == at,
    {
        let words = T::num_words();
        let mut packet = T::zeroed();
        let ghost before = packet.words();
        packet.init();
        proof {
            T::lemma_has_command_word();
            assert(before[0] == 0u32);
            assert(packet.words() =~= fresh_words::<T>());
        }
        let size: u32 = (words as u32).wrapping_add(1);
        assert(size == ((words + 1) as u32)) by (bit_vector)
            requires
                size == (words as u32).wrapping_add(1),
        ;
        Packet { tag: size << 24u32, packet, at }
    }
}

impl<T: Primitive> Packet<T> {
    /// The packet's words: the tag, then the primitive.
    pub open spec fn words(&self) -> Seq<u32> {
        seq![self.tag_spec()] + self.packet_spec().words()
    }

    /// The packet's words: the tag, then the primitive.
    pub fn as_slice(&self) -> (w: Vec<u32>)
        ensures
            w@ == self.words(),
    {
        let mut w: Vec<u32> = Vec::new();
        w.push(self.tag);
        let mut p = self.packet.as_slice();
        w.append(&mut p);
        assert(w@ =~= self.words());
        w
    }
}

impl Packet<Sprt> {
    /// Sets the sprite's color.
    pub fn color(&mut self, color: Color) -> (r: &mut Self)
        ensures
            r.packet_spec() == (Sprt { color, ..old(self).packet_spec() }),
            r.tag_spec() == old(self).tag_spec(),
            r.at_spec() == old(self).at_spec(),
            *final(self) == *final(r),
    {
        self.packet.color(color);
        self
    }

    /// Sets the sprite's top-left corner.
    pub fn offset(&mut self, offset: Vertex) -> (r: &mut Self)
        ensures
            r.packet_spec() == (Sprt { offset, ..old(self).packet_spec() }),
            r.tag_spec() == old(self).tag_spec(),
            r.at_spec() == old(self).at_spec(),
            *final(self) == *final(r),
    {
        self.packet.offset(offset);
        self
    }

    /// Sets the sprite's texture coordinate.
    pub fn t0(&mut self, t0: TexCoord) -> (r: &mut Self)
        ensures
            r.packet_spec() == (Sprt { t0, ..old(self).packet_spec() }),
            r.tag_spec() == old(self).tag_spec(),
            r.at_spec() == old(self).at_spec(),
            *final(self) == *final(r),
    {
        self.packet.t0(t0);
        self
    }

    /// Sets the sprite's color lookup table.
    pub fn clut(&mut self, clut: Clut) -> (r: &mut Self)
        ensures
            r.packet_spec() == (Sprt { clut, ..old(self).packet_spec() }),
            r.tag_spec() == old(self).tag_spec(),
            r.at_spec() == old(self).at_spec(),
            *final(self) == *final(r),
    {
        self.packet.clut(clut);
        self
    }

    /// Sets the sprite's width and height.
    pub fn size(&mut self, size: Vertex) -> (r: &mut Self)
        ensures
            r.packet_spec() == (Sprt { size, ..old(self).packet_spec() }),
            r.tag_spec() == old(self).tag_spec(),
            r.at_spec() == old(self).at_spec(),
            *final(self) == *final(r),
    {
        self.packet.size(size);
        self
    }
}

/// A bump allocator over `N` words of packets.
///
/// An allocation must end strictly before the last word, so at most `N - 1`
/// words are ever handed out.
pub struct Buffer<const N: usize> {
    data: [u32; N],
    next: usize,
}

impl<const N: usize> Buffer<N> {
    #[verifier::type_invariant]
    spec fn inv(self) -> bool {
        self.next <= N
    }

    /// The number of words handed out so far.
    pub closed spec fn next_spec(&self) -> nat {
        self.next as nat
    }

    /// The buffer's words.
    pub closed spec fn data_spec(&self) -> Seq<u32> {
        self.data@
    }

    /// Both buffers have the same words and the same number handed out.
    pub open spec fn same(&self, other: &Self) -> bool {
        self.next_spec() == other.next_spec() && self.data_spec() == other.data_spec()
    }

    /// A packet for a `T` fits before the last word.
    pub open spec fn fits<T: Init>(&self) -> bool {
        self.next_spec() + T::size() + 1 < N
    }

    /// `after` is this buffer once a fresh packet for a `T` is laid at its
    /// next word.
    pub open spec fn allocated<T: Init>(&self, after: &Self) -> bool {
        &&& after.next_spec() == self.next_spec() + T::size() + 1
        &&& after.data_spec() == placed(
            self.data_spec(),
            self.next_spec() as int,
            fresh_packet_words::<T>(),
        )
    }

    /// What allocating a packet for a `T` does: when it fits, a fresh packet
    /// is laid over the buffer's next words and handed out; else nothing
    /// changes.
    pub open spec fn allocation<T: Init>(&self, after: &Self, r: Option<Packet<T>>) -> bool {
        &&& r is Some <==> self.fits::<T>()
        &&& r matches Some(p) ==> {
            &&& p.tag_spec() == fresh_tag::<T>()
            &&& p.packet_spec().words() == fresh_words::<T>()
            &&& p.at_spec() == self.next_spec()
            &&& self.allocated::<T>(after)
        }
        &&& r is None ==> after.next_spec() == self.next_spec() && after.data_spec()
            == self.data_spec()
    }

    /// An allocator of zero words with nothing handed out.
    pub fn new() -> (b: Self)
        ensures
            b.next_spec() == 0,
            b.data_spec() == zeros(N as nat),
    {
        let b = Buffer { data: [0u32; N], next: 0 };
        assert(b.data_spec() =~= zeros(N as nat));
        b
    }

    /// Hands out the next `T`'s packet: laid over the buffer's next words,
    /// tagged with its size and zero but for the primitive's command; or
    /// `None`, changing nothing, when it would not end before the last word.
    pub fn allocate<T: Init>(&mut self) -> (r: Option<Packet<T>>)
        ensures
            old(self).allocation::<T>(final(self), r),
    {
        proof {
            use_type_invariant(&*self);
        }
        let words = T::num_words();
        let room = N - self.next;
        if room > 0 && words < room - 1 {
            let at = self.next;
            let p = Packet::<T>::fresh(at);
            let w = p.as_slice();
            proof {
                assert(w@ =~= fresh_packet_words::<T>());
                T::lemma_has_command_word();
                assert(w@.len() == words + 1);
            }
            write_at(&mut self.data, at, &w);
            self.next = self.next + words + 1;
            Some(p)
        } else {
            None
        }
    }

    /// Lays `p`'s current words back over the buffer where it was handed
    /// out.
    pub fn store<T: Primitive>(&mut self, p: &Packet<T>)
        requires
            p.at_spec() + T::size() + 1 <= N,
        ensures
            final(self).data_spec() == placed(old(self).data_spec(), p.at_spec() as int, p.words()),
            final(self).next_spec() == old(self).next_spec(),
    {
        proof {
            use_type_invariant(&*self);
            p.packet_spec().lemma_size();
        }
        let w = p.as_slice();
        write_at(&mut self.data, p.at, &w);
    }

    /// The buffer's words.
    pub fn words(&self) -> (w: &[u32; N])
        ensures
            w@ == self.data_spec(),
    {
        &self.data
    }

    /// Forgets every packet handed out; the words stay as they are.
    pub fn empty(&mut self)
        ensures
            final(self).next_spec() == 0,
            final(self).data_spec() == old(self).data_spec(),
    {
        self.next = 0;
    }

    /// Hands out a `PolyF3` packet, as [`Buffer::allocate`] does.
    #[allow(non_snake_case)]
    pub fn PolyF3(&mut self) -> (r: Option<Packet<PolyF3>>)
        ensures
            old(self).allocation::<PolyF3>(final(self), r),
    {
        self.allocate::<PolyF3>()
    }

    /// Hands out a `PolyF4` packet, as [`Buffer::allocate`] does.
    #[allow(non_snake_case)]
    pub fn PolyF4(&mut self) -> (r: Option<Packet<PolyF4>>)
        ensures
            old(self).allocation::<PolyF4>(final(self), r),
    {
        self.allocate::<PolyF4>()
    }

    /// Hands out a `PolyFT3` packet, as [`Buffer::allocate`] does.
    #[allow(non_snake_case)]
    pub fn PolyFT3(&mut self) -> (r: Option<Packet<PolyFT3>>)
        ensures
            old(self).allocation::<PolyFT3>(final(self), r),
    {
        self.allocate::<PolyFT3>()
    }

    /// Hands out a `PolyFT4` packet, as [`Buffer::allocate`] does.
    #[allow(non_snake_case)]
    pub fn PolyFT4(&mut self) -> (r: Option<Packet<PolyFT4>>)
        ensures
            old(self).allocation::<PolyFT4>(final(self), r),
    {
        self.allocate::<PolyFT4>()
    }

    /// Hands out a `PolyG3` packet, as [`Buffer::allocate`] does.
    #[allow(non_snake_case)]
    pub fn PolyG3(&mut self) -> (r: Option<Packet<PolyG3>>)
        ensures
            old(self).allocation::<PolyG3>(final(self), r),
    {
        self.allocate::<PolyG3>()
    }

    /// Hands out a `PolyG4` packet, as [`Buffer::allocate`] does.
    #[allow(non_snake_case)]
    pub fn PolyG4(&mut self) -> (r: Option<Packet<PolyG4>>)
        ensures
            old(self).allocation::<PolyG4>(final(self), r),
    {
        self.allocate::<PolyG4>()
    }

    /// Hands out a `PolyGT3` packet, as [`Buffer::allocate`] does.
    #[allow(non_snake_case)]
    pub fn PolyGT3(&mut self) -> (r: Option<Packet<PolyGT3>>)
        ensures
            old(self).allocation::<PolyGT3>(final(self), r),
    {
        self.allocate::<PolyGT3>()
    }

    /// Hands out a `PolyGT4` packet, as [`Buffer::allocate`] does.
    #[allow(non_snake_case)]
    pub fn PolyGT4(&mut self) -> (r: Option<Packet<PolyGT4>>)
        ensures
            old(self).allocation::<PolyGT4>(final(self), r),
    {
        self.allocate::<PolyGT4>()
    }

    /// Hands out a `LineF2` packet, as [`Buffer::allocate`] does.
    #[allow(non_snake_case)]
    pub fn LineF2(&mut self) -> (r: Option<Packet<LineF2>>)
        ensures
            old(self).allocation::<LineF2>(final(self), r),
    {
        self.allocate::<LineF2>()
    }

    /// Hands out a `LineG2` packet, as [`Buffer::allocate`] does.
    #[allow(non_snake_case)]
    pub fn LineG2(&mut self) -> (r: Option<Packet<LineG2>>)
        ensures
            old(self).allocation::<LineG2>(final(self), r),
    {
        self.allocate::<LineG2>()
    }

    /// Hands out a `Tile` packet, as [`Buffer::allocate`] does.
    #[allow(non_snake_case)]
    pub fn Tile(&mut self) -> (r: Option<Packet<Tile>>)
        ensures
            old(self).allocation::<Tile>(final(self), r),
    {
        self.allocate::<Tile>()
    }

    /// Hands out a `Tile1` packet, as [`Buffer::allocate`] does.
    #[allow(non_snake_case)]
    pub fn Tile1(&mut self) -> (r: Option<Packet<Tile1>>)
        ensures
            old(self).allocation::<Tile1>(final(self), r),
    {
        self.allocate::<Tile1>()
    }

    /// Hands out a `Tile8` packet, as [`Buffer::allocate`] does.
    #[allow(non_snake_case)]
    pub fn Tile8(&mut self) -> (r: Option<Packet<Tile8>>)
        ensures
            old(self).allocation::<Tile8>(final(self), r),
    {
        self.allocate::<Tile8>()
    }

    /// Hands out a `Tile16` packet, as [`Buffer::allocate`] does.
    #[allow(non_snake_case)]
    pub fn Tile16(&mut self) -> (r: Option<Packet<Tile16>>)
        ensures
            old(self).allocation::<Tile16>(final(self), r),
    {
        self.allocate::<Tile16>()
    }

    /// Hands out a `Sprt` packet, as [`Buffer::allocate`] does.
    #[allow(non_snake_case)]
    pub fn Sprt(&mut self) -> (r: Option<Packet<Sprt>>)
        ensures
            old(self).allocation::<Sprt>(final(self), r),
    {
        self.allocate::<Sprt>()
    }

    /// Hands out a `Sprt8` packet, as [`Buffer::allocate`] does.
    #[allow(non_snake_case)]
    pub fn Sprt8(&mut self) -> (r: Option<Packet<Sprt8>>)
        ensures
            old(self).allocation::<Sprt8>(final(self), r),
    {
        self.allocate::<Sprt8>()
    }

    /// Hands out a `Sprt16` packet, as [`Buffer::allocate`] does.
    #[allow(non_snake_case)]
    pub fn Sprt16(&mut self) -> (r: Option<Packet<Sprt16>>)
        ensures
            old(self).allocation::<Sprt16>(final(self), r),
    {
        self.allocate::<Sprt16>()
    }
}

/// Packets handed out one after another from a buffer do not overlap: the
/// second starts where the first ends, and laying it leaves the first one's
/// words as they were.
pub proof fn lemma_allocations_disjoint<T: Init, U: Init, const N: usize>(
    b0: Buffer<N>,
    b1: Buffer<N>,
    b2: Buffer<N>,
    p: Packet<T>,
    q: Packet<U>,
)
    requires
        b0.allocation::<T>(&b1, Some(p)),
        b1.allocation::<U>(&b2, Some(q)),
    ensures
        q.at_spec() == p.at_spec() + T::size() + 1,
        b2.data_spec().subrange(p.at_spec() as int, q.at_spec() as int)
            == fresh_packet_words::<T>(),
{
    T::lemma_has_command_word();
    U::lemma_has_command_word();
    let (a, m) = (p.at_spec() as int, q.at_spec() as int);
    assert forall|j: int| a <= j < m implies #[trigger] b2.data_spec()[j]
        == fresh_packet_words::<T>()[j - a] by {
        lemma_placed_index(b1.data_spec(), m, fresh_packet_words::<U>(), j);
        lemma_placed_index(b0.data_spec(), a, fresh_packet_words::<T>(), j);
    }
    assert(b2.data_spec().subrange(a, m) =~= fresh_packet_words::<T>());
}

/// A pair of packets for the same primitive, one in each buffer of a
/// [`DoubleBuffer`].
pub struct DoublePacket<T> {
    packet_1: Packet<T>,
    packet_2: Packet<T>,
}

impl<T> DoublePacket<T> {
    /// The pair of `packet_1` and `packet_2`.
    pub(crate) fn pair(packet_1: Packet<T>, packet_2: Packet<T>) -> (d: Self)
        ensures
            d.first() == packet_1,
            d.second() == packet_2,
    {
        DoublePacket { packet_1, packet_2 }
    }

    /// The packet in the first buffer.
    pub closed spec fn first(&self) -> Packet<T> {
        self.packet_1
    }

    /// The packet in the second buffer.
    pub closed spec fn second(&self) -> Packet<T> {
        self.packet_2
    }

    /// The packet in the first buffer.
    pub fn get_first(&self) -> (p: &Packet<T>)
        ensures
            *p == self.first(),
    {
        &self.packet_1
    }

    /// The packet in the second buffer.
    pub fn get_second(&self) -> (p: &Packet<T>)
        ensures
            *p == self.second(),
    {
        &self.packet_2
    }

    /// The packet to change for the next frame: the first one when the
    /// buffers are swapped, else the second one.
    pub fn packet(&mut self, swapped: bool) -> (p: &mut Packet<T>)
        ensures
            swapped ==> *p == old(self).first() && final(self).first() == *final(p)
                && final(self).second() == old(self).second(),
            !swapped ==> *p == old(self).second() && final(self).second() == *final(p)
                && final(self).first() == old(self).first(),
    {
        if swapped {
            &mut self.packet_1
        } else {
            &mut self.packet_2
        }
    }
}

/// Two bump allocators, one drawn from while the other is displayed.
pub struct DoubleBuffer<const N: usize> {
    buffer_1: Buffer<N>,
    buffer_2: Buffer<N>,
    swapped: bool,
}

impl<const N: usize> DoubleBuffer<N> {
    /// The first buffer.
    pub closed spec fn first(&self) -> Buffer<N> {
        self.buffer_1
    }

    /// The second buffer.
    pub closed spec fn second(&self) -> Buffer<N> {
        self.buffer_2
    }

    /// The words handed out from the first buffer.
    pub open spec fn first_next(&self) -> nat {
        self.first().next_spec()
    }

    /// The words handed out from the second buffer.
    pub open spec fn second_next(&self) -> nat {
        self.second().next_spec()
    }

    /// Whether the buffers are swapped.
    pub closed spec fn swapped_spec(&self) -> bool {
        self.swapped
    }

    /// What allocating a pair of packets for a `T` does: a packet from the
    /// first buffer when it has room, then one from the second when that has
    /// room; a pair only when both had room. The first buffer's words stay
    /// taken when the second had none.
    pub open spec fn allocation<T: Init>(&self, after: &Self, r: Option<DoublePacket<T>>) -> bool {
        &&& after.swapped_spec() == self.swapped_spec()
        &&& r is Some <==> self.first().fits::<T>() && self.second().fits::<T>()
        &&& self.first().fits::<T>() ==> self.first().allocated::<T>(&after.first())
        &&& !self.first().fits::<T>() ==> after.first().same(&self.first()) && after.second().same(
            &self.second(),
        )
        &&& self.first().fits::<T>() && self.second().fits::<T>() ==> self.second().allocated::<T>(
            &after.second(),
        )
        &&& self.first().fits::<T>() && !self.second().fits::<T>() ==> after.second().same(
            &self.second(),
        )
        &&& r matches Some(d) ==> {
            &&& d.first().tag_spec() == fresh_tag::<T>()
            &&& d.first().packet_spec().words() == fresh_words::<T>()
            &&& d.first().at_spec() == self.first_next()
            &&& d.second().tag_spec() == fresh_tag::<T>()
            &&& d.second().packet_spec().words() == fresh_words::<T>()
            &&& d.second().at_spec() == self.second_next()
        }
    }

    /// Two buffers of zero words with nothing handed out, not swapped.
    pub fn new() -> (b: Self)
        ensures
            b.first_next() == 0,
            b.second_next() == 0,
            b.first().data_spec() == zeros(N as nat),
            b.second().data_spec() == zeros(N as nat),
            !b.swapped_spec(),
    {
        DoubleBuffer { buffer_1: Buffer::<N>::new(), buffer_2: Buffer::<N>::new(), swapped: false }
    }

    /// Whether the buffers are swapped.
    pub fn is_swapped(&self) -> (s: bool)
        ensures
            s == self.swapped_spec(),
    {
        self.swapped
    }

    /// Hands out a packet for `T` from each buffer. When the first buffer has
    /// room but the second has not, the first one's words stay taken and the
    /// result is `None`.
    pub fn allocate<T: Init>(&mut self) -> (r: Option<DoublePacket<T>>)
        ensures
            old(self).allocation::<T>(final(self), r),
    {
        match self.buffer_1.allocate::<T>() {
            Some(packet_1) => match self.buffer_2.allocate::<T>() {
                Some(packet_2) => Some(DoublePacket { packet_1, packet_2 }),
                None => None,
            },
            None => None,
        }
    }

    /// Lays each of `d`'s packets' current words back over its buffer where
    /// it was handed out.
    pub fn store<T: Primitive>(&mut self, d: &DoublePacket<T>)
        requires
            d.first().at_spec() + T::size() + 1 <= N,
            d.second().at_spec() + T::size() + 1 <= N,
        ensures
            final(self).first().data_spec() == placed(
                old(self).first().data_spec(),
                d.first().at_spec() as int,
                d.first().words(),
            ),
            final(self).second().data_spec() == placed(
                old(self).second().data_spec(),
                d.second().at_spec() as int,
                d.second().words(),
            ),
            final(self).first_next() == old(self).first_next(),
            final(self).second_next() == old(self).second_next(),
            final(self).swapped_spec() == old(self).swapped_spec(),
    {
        self.buffer_1.store(d.get_first());
        self.buffer_2.store(d.get_second());
    }

    /// The first buffer's words.
    pub fn first_words(&self) -> (w: &[u32; N])
        ensures
            w@ == self.first().data_spec(),
    {
        self.buffer_1.words()
    }

    /// The second buffer's words.
    pub fn second_words(&self) -> (w: &[u32; N])
        ensures
            w@ == self.second().data_spec(),
    {
        self.buffer_2.words()
    }

    /// Swaps the roles of the two buffers.
    pub fn swap(&mut self)
        ensures
            final(self).swapped_spec() == !old(self).swapped_spec(),
            final(self).first() == old(self).first(),
            final(self).second() == old(self).second(),
    {
        self.swapped = !self.swapped;
    }

    /// Hands out a pair of `Sprt` packets, as [`DoubleBuffer::allocate`] does.
    #[allow(non_snake_case)]
    pub fn Sprt(&mut self) -> (r: Option<DoublePacket<Sprt>>)
        ensures
            old(self).allocation::<Sprt>(final(self), r),
    {
        self.allocate::<Sprt>()
    }

    /// Hands out a pair of `PolyF4` packets, as [`DoubleBuffer::allocate`] does.
    #[allow(non_snake_case)]
    pub fn PolyF4(&mut self) -> (r: Option<DoublePacket<PolyF4>>)
        ensures
            old(self).allocation::<PolyF4>(final(self), r),
    {
        self.allocate::<PolyF4>()
    }
}

/// The mask of the address bits in a tag or an ordering table entry.
pub open spec fn addr_mask() -> u32 {
    0x00FF_FFFF
}

/// A depth [ordering table](http://problemkaputt.de/psx-spx.htm#gpudepthordering)
/// of `N` entries, each the address of the first packet at its depth.
pub struct OT<const N: usize> {
    entries: [u32; N],
}

impl<const N: usize> OT<N> {
    /// The entries.
    pub closed spec fn entries_spec(&self) -> Seq<u32> {
        self.entries@
    }

    /// A table of zero entries.
    pub fn new() -> (ot: Self)
        ensures
            ot.entries_spec() == Seq::new(N as nat, |i: int| 0u32),
    {
        let ot = OT { entries: [0u32; N] };
        assert(ot.entries_spec() =~= Seq::new(N as nat, |i: int| 0u32));
        ot
    }

    /// The number of depths that packets can be added at below the start.
    pub fn len(&self) -> (n: usize)
        requires
            N >= 1,
        ensures
            n == N - 1,
    {
        N - 1
    }

    /// The entry the GPU starts from: the last one.
    pub fn start(&self) -> (e: u32)
        requires
            N >= 1,
        ensures
            e == self.entries_spec()[N - 1],
    {
        self.entries[N - 1]
    }

    /// The `n`th entry.
    pub fn entry(&self, n: usize) -> (e: u32)
        requires
            n < N,
        ensures
            e == self.entries_spec()[n as int],
    {
        self.entries[n]
    }

    /// Adds `prim`, whose address is `prim_addr`, at depth `z`: the packet
    /// takes over the entry's link and the entry points to the packet.
    pub fn add_prim<T>(&mut self, z: usize, prim: &mut Packet<T>, prim_addr: u32) -> (r: &mut Self)
        requires
            z < N,
        ensures
            final(prim).tag_spec() == (old(prim).tag_spec() & !addr_mask()) | old(
                self,
            ).entries_spec()[z as int],
            final(prim).packet_spec() == old(prim).packet_spec(),
            final(prim).at_spec() == old(prim).at_spec(),
            r.entries_spec() == old(self).entries_spec().update(z as int, prim_addr & addr_mask()),
            *final(self) == *final(r),
    {
        prim.tag = (prim.tag & !0x00FF_FFFFu32) | self.entries[z];
        self.entries[z] = prim_addr & 0x00FF_FFFFu32;
        assert(self.entries_spec() =~= old(self).entries_spec().update(
            z as int,
            prim_addr & addr_mask(),
        ));
        self
    }
}

/// Two ordering tables, one filled while the other is displayed.
pub struct DoubleOT<const N: usize> {
    ot_1: OT<N>,
    ot_2: OT<N>,
    swapped: bool,
}

impl<const N: usize> DoubleOT<N> {
    /// The first table.
    pub closed spec fn first(&self) -> OT<N> {
        self.ot_1
    }

    /// The second table.
    pub closed spec fn second(&self) -> OT<N> {
        self.ot_2
    }

    /// Whether the tables are swapped.
    pub closed spec fn swapped_spec(&self) -> bool {
        self.swapped
    }

    /// The table in use: the first when swapped, else the second.
    pub open spec fn current(&self) -> OT<N> {
        if self.swapped_spec() {
            self.first()
        } else {
            self.second()
        }
    }

    /// Two tables of zero entries, not swapped.
    pub fn new() -> (d: Self)
        ensures
            d.first().entries_spec() == Seq::new(N as nat, |i: int| 0u32),
            d.second().entries_spec() == Seq::new(N as nat, |i: int| 0u32),
            !d.swapped_spec(),
    {
        DoubleOT { ot_1: OT::new(), ot_2: OT::new(), swapped: false }
    }

    /// Adds `prim`, whose address is `prim_addr`, at depth `z` of the table
    /// in use.
    pub fn add_prim<T>(&mut self, prim: &mut Packet<T>, prim_addr: u32, z: usize) -> (r: &mut Self)
        requires
            z < N,
        ensures
            final(prim).tag_spec() == (old(prim).tag_spec() & !addr_mask()) | old(
                self,
            ).current().entries_spec()[z as int],
            final(prim).packet_spec() == old(prim).packet_spec(),
            final(prim).at_spec() == old(prim).at_spec(),
            r.swapped_spec() == old(self).swapped_spec(),
            r.current().entries_spec() == old(self).current().entries_spec().update(
                z as int,
                prim_addr & addr_mask(),
            ),
            old(self).swapped_spec() ==> r.second() == old(self).second(),
            !old(self).swapped_spec() ==> r.first() == old(self).first(),
            *final(self) == *final(r),
    {
        if self.swapped {
            self.ot_1.add_prim(z, prim, prim_addr);
        } else {
            self.ot_2.add_prim(z, prim, prim_addr);
        }
        self
    }

    /// Swaps the roles of the two tables.
    pub fn swap(&mut self) -> (r: &Self)
        ensures
            r.swapped_spec() == !old(self).swapped_spec(),
            r.first() == old(self).first(),
            r.second() == old(self).second(),
            *final(self) == *r,
    {
        self.swapped = !self.swapped;
        self
    }

    /// The table in use.
    pub fn ot(&self) -> (o: &OT<N>)
        ensures
            *o == self.current(),
    {
        if self.swapped {
            &self.ot_1
        } else {
            &self.ot_2
        }
    }
}

} // verus!
