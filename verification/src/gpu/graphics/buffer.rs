//! Bump allocators for single- and double-buffered primitive packets.
use vstd::prelude::*;
use crate::gpu::prim::buffer::{
    fresh_packet_words, fresh_tag, fresh_words, lemma_blocks_fit, lemma_repeated_step, placed,
    repeated, write_at, DoublePacket, Packet,
};
use crate::gpu::prim::{zeros, Init, Primitive};

verus! {

/// A tagged primitive handed out by a [`SingleBuffer`].
pub type SinglePacket<T> = Packet<T>;

/// A bump allocator over `N` words of packets; an allocation may end at the
/// last word.
pub struct SingleBuffer<const N: usize> {
    data: [u32; N],
    next: usize,
}

impl<const N: usize> SingleBuffer<N> {
    #[verifier::type_invariant]
    spec fn inv(self) -> bool {
        self.next <= N
    }

    /// The number of words handed out so far.
    pub closed spec fn next_spec(&self) -> nat {
        self.next as nat
    }

    /// The buffer's words.
    pub closed spec fn data_spec(&self) -> Seq<u32> {
        self.data@
    }

    /// A packet for a `T` fits in the words left.
    pub open spec fn fits<T: Init>(&self) -> bool {
        self.next_spec() + T::size() + 1 <= N
    }

    /// `after` is this buffer once a fresh packet for a `T` is laid at its
    /// next word.
    pub open spec fn allocated<T: Init>(&self, after: &Self) -> bool {
        &&& after.next_spec() == self.next_spec() + T::size() + 1
        &&& after.data_spec() == placed(
            self.data_spec(),
            self.next_spec() as int,
            fresh_packet_words::<T>(),
        )
    }

    /// `m` packets for a `T` fit in the words left.
    pub open spec fn fits_many<T: Init>(&self, m: nat) -> bool {
        self.next_spec() + m * (T::size() + 1) <= N
    }

    /// `after` is this buffer once `m` fresh packets for a `T` are laid one
    /// after another from its next word.
    pub open spec fn allocated_many<T: Init>(&self, after: &Self, m: nat) -> bool {
        &&& after.next_spec() == self.next_spec() + m * (T::size() + 1)
        &&& repeated(
            self.data_spec(),
            after.data_spec(),
            self.next_spec() as int,
            fresh_packet_words::<T>(),
            m,
        )
    }

    /// An allocator of zero words with nothing handed out.
    pub fn new() -> (b: Self)
        ensures
            b.next_spec() == 0,
            b.data_spec() == zeros(N as nat),
    {
        let b = SingleBuffer { data: [0u32; N], next: 0 };
        assert(b.data_spec() =~= zeros(N as nat));
        b
    }

    /// Hands out the next `T`'s packet: laid over the buffer's next words,
    /// tagged with its size and zero but for the primitive's command; or
    /// `None`, changing nothing, when it does not fit in the words left.
    pub fn allocate<T: Init>(&mut self) -> (r: Option<SinglePacket<T>>)
        ensures
            r is Some <==> old(self).fits::<T>(),
            r matches Some(p) ==> {
                &&& p.tag_spec() == fresh_tag::<T>()
                &&& p.packet_spec().words() == fresh_words::<T>()
                &&& p.at_spec() == old(self).next_spec()
                &&& old(self).allocated::<T>(final(self))
            },
            r is None ==> final(self).next_spec() == old(self).next_spec() && final(self).data_spec()
                == old(self).data_spec(),
    {
        proof {
            use_type_invariant(&*self);
        }
        let words = T::num_words();
        let room = N - self.next;
        if words < room {
            let at = self.next;
            let p = Packet::<T>::fresh(at);
            let w = p.as_slice();
            proof {
                assert(w@ =~= fresh_packet_words::<T>());
                T::lemma_has_command_word();
                assert(w@.len() == words + 1);
            }
            write_at(&mut self.data, at, &w);
            self.next = self.next + words + 1;
            Some(p)
        } else {
            None
        }
    }

    /// Hands out `M` packets for a `T`, one after another, as
    /// [`SingleBuffer::allocate`] does; or `None`, changing nothing, when
    /// they do not all fit in the words left.
    pub fn array<T: Init, const M: usize>(&mut self) -> (r: Option<Vec<SinglePacket<T>>>)
        ensures
            r is Some <==> old(self).fits_many::<T>(M as nat),
            r matches Some(v) ==> {
                &&& v.len() == M
                &&& forall|i: int|
                    0 <= i < M ==> {
                        &&& (#[trigger] v[i]).tag_spec() == fresh_tag::<T>()
                        &&& v[i].packet_spec().words() == fresh_words::<T>()
                        &&& v[i].at_spec() == old(self).next_spec() + i * (T::size() + 1)
                    }
                &&& old(self).allocated_many::<T>(final(self), M as nat)
            },
            r is None ==> final(self).next_spec() == old(self).next_spec() && final(self).data_spec()
                == old(self).data_spec(),
    {
        proof {
            use_type_invariant(&*self);
            T::lemma_has_command_word();
        }
        let ghost start = *self;
        let words = T::num_words();
        if words >= N - self.next {
            if M == 0 {
                return Some(Vec::new());
            }
            proof {
                assert(M * (T::size() + 1) >= T::size() + 1) by (nonlinear_arith)
                    requires
                        M >= 1,
                ;
            }
            return None;
        }
        let w = words + 1;
        if M > (N - self.next) / w {
            proof {
                lemma_blocks_fit((N - start.next_spec()) as int, w as int, M as int);
            }
            return None;
        }
        proof {
            lemma_blocks_fit((N - start.next_spec()) as int, w as int, M as int);
        }
        let mut v: Vec<SinglePacket<T>> = Vec::new();
        let mut i: usize = 0;
        while i < M
            invariant
                i <= M,
                w == T::size() + 1,
                T::size() > 0,
                start.fits_many::<T>(M as nat),
                v.len() == i,
                forall|k: int|
                    0 <= k < i ==> {
                        &&& (#[trigger] v[k]).tag_spec() == fresh_tag::<T>()
                        &&& v[k].packet_spec().words() == fresh_words::<T>()
                        &&& v[k].at_spec() == start.next_spec() + k * (T::size() + 1)
                    },
                start.allocated_many::<T>(&*self, i as nat),
            decreases M - i,
        {
            proof {
                assert((i + 1) * w <= M * w) by (nonlinear_arith)
                    requires
                        i < M,
                ;
                assert((i + 1) * w == i * w + w) by (nonlinear_arith);
            }
            let ghost mid = *self;
            let p = self.allocate::<T>().unwrap();
            proof {
                T::lemma_has_command_word();
                lemma_repeated_step(
                    start.data_spec(),
                    mid.data_spec(),
                    start.next_spec() as int,
                    fresh_packet_words::<T>(),
                    i as nat,
                );
            }
            v.push(p);
            i = i + 1;
        }
        Some(v)
    }

    /// Lays `p`'s current words back over the buffer where it was handed
    /// out.
    pub fn store<T: Primitive>(&mut self, p: &SinglePacket<T>)
        requires
            p.at_spec() + T::size() + 1 <= N,
        ensures
            final(self).data_spec() == placed(old(self).data_spec(), p.at_spec() as int, p.words()),
            final(self).next_spec() == old(self).next_spec(),
    {
        proof {
            use_type_invariant(&*self);
            p.packet_spec().lemma_size();
        }
        let w = p.as_slice();
        write_at(&mut self.data, p.at(), &w);
    }

    /// The buffer's words.
    pub fn words(&self) -> (w: &[u32; N])
        ensures
            w@ == self.data_spec(),
    {
        &self.data
    }

    /// Forgets every packet handed out; the words stay as they are.
    pub fn empty(&mut self)
        ensures
            final(self).next_spec() == 0,
            final(self).data_spec() == old(self).data_spec(),
    {
        self.next = 0;
    }
}

/// Two single buffers, one drawn from while the other is displayed.
pub struct DoubleBuffer<const N: usize> {
    buffer_1: SingleBuffer<N>,
    buffer_2: SingleBuffer<N>,
    swapped: bool,
}

impl<const N: usize> DoubleBuffer<N> {
    /// The first buffer.
    pub closed spec fn first(&self) -> SingleBuffer<N> {
        self.buffer_1
    }

    /// The second buffer.
    pub closed spec fn second(&self) -> SingleBuffer<N> {
        self.buffer_2
    }

    /// The words handed out from the first buffer.
    pub open spec fn first_next(&self) -> nat {
        self.first().next_spec()
    }

    /// The words handed out from the second buffer.
    pub open spec fn second_next(&self) -> nat {
        self.second().next_spec()
    }

    /// Whether the buffers are swapped.
    pub closed spec fn swapped_spec(&self) -> bool {
        self.swapped
    }

    /// Two buffers of zero words with nothing handed out, not swapped.
    pub fn new() -> (b: Self)
        ensures
            b.first_next() == 0,
            b.second_next() == 0,
            b.first().data_spec() == zeros(N as nat),
            b.second().data_spec() == zeros(N as nat),
            !b.swapped_spec(),
    {
        DoubleBuffer {
            buffer_1: SingleBuffer::<N>::new(),
            buffer_2: SingleBuffer::<N>::new(),
            swapped: false,
        }
    }

    /// Whether the buffers are swapped.
    pub fn is_swapped(&self) -> (s: bool)
        ensures
            s == self.swapped_spec(),
    {
        self.swapped
    }

    /// Hands out a packet for `T` from each buffer, laid over each buffer's
    /// next words. Running out of room is a buffer overflow, so both buffers
    /// must have room for the packet.
    pub fn allocate<T: Init>(&mut self) -> (d: DoublePacket<T>)
        requires
            old(self).first().fits::<T>(),
            old(self).second().fits::<T>(),
        ensures
            d.first().tag_spec() == fresh_tag::<T>(),
            d.first().packet_spec().words() == fresh_words::<T>(),
            d.first().at_spec() == old(self).first_next(),
            d.second().tag_spec() == fresh_tag::<T>(),
            d.second().packet_spec().words() == fresh_words::<T>(),
            d.second().at_spec() == old(self).second_next(),
            old(self).first().allocated::<T>(&final(self).first()),
            old(self).second().allocated::<T>(&final(self).second()),
            final(self).swapped_spec() == old(self).swapped_spec(),
    {
        let packet_1 = self.buffer_1.allocate::<T>().unwrap();
        let packet_2 = self.buffer_2.allocate::<T>().unwrap();
        DoublePacket::pair(packet_1, packet_2)
    }

    /// Hands out `M` pairs of packets for a `T`, one after another, as
    /// [`DoubleBuffer::allocate`] does. Running out of room is a buffer
    /// overflow, so both buffers must have room for all of them.
    pub fn array<T: Init, const M: usize>(&mut self) -> (r: Option<Vec<DoublePacket<T>>>)
        requires
            old(self).first().fits_many::<T>(M as nat),
            old(self).second().fits_many::<T>(M as nat),
        ensures
            r matches Some(v) && v.len() == M,
            r matches Some(v) ==> forall|i: int|
                0 <= i < M ==> {
                    &&& (#[trigger] v[i]).first().tag_spec() == fresh_tag::<T>()
                    &&& v[i].first().packet_spec().words() == fresh_words::<T>()
                    &&& v[i].first().at_spec() == old(self).first_next() + i * (T::size() + 1)
                    &&& v[i].second().tag_spec() == fresh_tag::<T>()
                    &&& v[i].second().packet_spec().words() == fresh_words::<T>()
                    &&& v[i].second().at_spec() == old(self).second_next() + i * (T::size() + 1)
                },
            old(self).first().allocated_many::<T>(&final(self).first(), M as nat),
            old(self).second().allocated_many::<T>(&final(self).second(), M as nat),
            final(self).swapped_spec() == old(self).swapped_spec(),
    {
        proof {
            T::lemma_has_command_word();
        }
        let ghost start = *self;
        let mut v: Vec<DoublePacket<T>> = Vec::new();
        let mut i: usize = 0;
        while i < M
            invariant
                i <= M,
                T::size() > 0,
                start.first().fits_many::<T>(M as nat),
                start.second().fits_many::<T>(M as nat),
                self.swapped_spec() == start.swapped_spec(),
                v.len() == i,
                forall|k: int|
                    0 <= k < i ==> {
                        &&& (#[trigger] v[k]).first().tag_spec() == fresh_tag::<T>()
                        &&& v[k].first().packet_spec().words() == fresh_words::<T>()
                        &&& v[k].first().at_spec() == start.first_next() + k * (T::size() + 1)
                        &&& v[k].second().tag_spec() == fresh_tag::<T>()
                        &&& v[k].second().packet_spec().words() == fresh_words::<T>()
                        &&& v[k].second().at_spec() == start.second_next() + k * (T::size() + 1)
                    },
                start.first().allocated_many::<T>(&self.first(), i as nat),
                start.second().allocated_many::<T>(&self.second(), i as nat),
            decreases M - i,
        {
            proof {
                let w = T::size() + 1;
                assert((i + 1) * w <= M * w) by (nonlinear_arith)
                    requires
                        i < M,
                ;
                assert((i + 1) * w == i * w + w) by (nonlinear_arith);
            }
            let ghost mid = *self;
            let d = self.allocate::<T>();
            proof {
                lemma_repeated_step(
                    start.first().data_spec(),
                    mid.first().data_spec(),
                    start.first_next() as int,
                    fresh_packet_words::<T>(),
                    i as nat,
                );
                lemma_repeated_step(
                    start.second().data_spec(),
                    mid.second().data_spec(),
                    start.second_next() as int,
                    fresh_packet_words::<T>(),
                    i as nat,
                );
            }
            v.push(d);
            i = i + 1;
        }
        Some(v)
    }

    /// Lays each of `d`'s packets' current words back over its buffer where
    /// it was handed out.
    pub fn store<T: Primitive>(&mut self, d: &DoublePacket<T>)
        requires
            d.first().at_spec() + T::size() + 1 <= N,
            d.second().at_spec() + T::size() + 1 <= N,
        ensures
            final(self).first().data_spec() == placed(
                old(self).first().data_spec(),
                d.first().at_spec() as int,
                d.first().words(),
            ),
            final(self).second().data_spec() == placed(
                old(self).second().data_spec(),
                d.second().at_spec() as int,
                d.second().words(),
            ),
            final(self).first_next() == old(self).first_next(),
            final(self).second_next() == old(self).second_next(),
            final(self).swapped_spec() == old(self).swapped_spec(),
    {
        self.buffer_1.store(d.get_first());
        self.buffer_2.store(d.get_second());
    }

    /// The first buffer's words.
    pub fn first_words(&self) -> (w: &[u32; N])
        ensures
            w@ == self.first().data_spec(),
    {
        self.buffer_1.words()
    }

    /// The second buffer's words.
    pub fn second_words(&self) -> (w: &[u32; N])
        ensures
            w@ == self.second().data_spec(),
    {
        self.buffer_2.words()
    }

    /// Swaps the roles of the two buffers.
    pub fn swap(&mut self)
        ensures
            final(self).swapped_spec() == !old(self).swapped_spec(),
            final(self).first() == old(self).first(),
            final(self).second() == old(self).second(),
    {
        self.swapped = !self.swapped;
    }
}

} // verus!
