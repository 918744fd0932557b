//! Bump allocators that hand out display-list packets.
use vstd::prelude::*;
use crate::gpu::prim::buffer::{
    fresh_words, lemma_blocks_fit, lemma_repeated_empty, lemma_repeated_step, placed, repeated,
    write_at,
};
use crate::gpu::prim::{zeros, Init, Primitive};
use crate::graphics::num_words;
use crate::graphics::packet::{end_tag, words_of, DoubleRef, Packet, Ref};

verus! {

/// `s` cut, or padded with zeros, to `n` words.
pub open spec fn fit_words(s: Seq<u32>, n: nat) -> Seq<u32> {
    if s.len() >= n {
        s.take(n as int)
    } else {
        s + zeros((n - s.len()) as nat)
    }
}

/// `s` cut, or padded with zeros, to `n` words.
fn fit(s: &Vec<u32>, n: usize) -> (w: Vec<u32>)
    ensures
        w@ == fit_words(s@, n as nat),
{
    let mut w: Vec<u32> = Vec::new();
    let mut i: usize = 0;
    while i < n
        invariant
            i <= n,
            w.len() == i,
            forall|k: int| 0 <= k < i ==> #[trigger] w[k] == (if k < s.len() { s[k] } else { 0u32 }),
        decreases n - i,
    {
        if i < s.len() {
            w.push(s[i]);
        } else {
            w.push(0);
        }
        i += 1;
    }
    assert(w@ =~= fit_words(s@, n as nat));
    w
}

/// The words a packet lays over its buffer: its own words, over the words
/// that a packet of `T` takes in memory.
pub open spec fn laid<T: Primitive>(p: Packet<T>) -> Seq<u32> {
    fit_words(p.words(), words_of::<Packet<T>>())
}

/// The words a fresh packet for a `T` lays over its buffer: the tag that
/// ends the list, then the primitive, zero but for its command.
pub open spec fn fresh_laid<T: Init>() -> Seq<u32> {
    fit_words(seq![end_tag(words_of::<T>() as u32)] + fresh_words::<T>(), words_of::<Packet<T>>())
}

/// A bump allocator over `N` words.
pub struct Buffer<const N: usize> {
    data: [u32; N],
    next: usize,
}

impl<const N: usize> Buffer<N> {
    #[verifier::type_invariant]
    spec fn inv(self) -> bool {
        self.next <= N
    }

    /// The number of words handed out so far.
    pub closed spec fn next_spec(&self) -> nat {
        self.next as nat
    }

    /// The buffer's words.
    pub closed spec fn data_spec(&self) -> Seq<u32> {
        self.data@
    }

    /// Both buffers have the same words and the same number handed out.
    pub open spec fn same(&self, other: &Self) -> bool {
        self.next_spec() == other.next_spec() && self.data_spec() == other.data_spec()
    }

    /// A packet for a `T` fits in the words left.
    pub open spec fn fits<T: Init>(&self) -> bool {
        self.next_spec() + words_of::<Packet<T>>() <= N
    }

    /// `after` is this buffer once a fresh packet for a `T` is laid at its
    /// next word.
    pub open spec fn allocated<T: Init>(&self, after: &Self) -> bool {
        &&& after.next_spec() == self.next_spec() + words_of::<Packet<T>>()
        &&& after.data_spec() == placed(self.data_spec(), self.next_spec() as int, fresh_laid::<T>())
    }

    /// What handing out a packet for a `T` does: when it fits, a fresh packet
    /// is laid over the buffer's next words and handed out; else nothing
    /// changes.
    pub open spec fn allocation<T: Init>(&self, after: &Self, r: Option<Ref<T>>) -> bool {
        &&& r is Some <==> self.fits::<T>()
        &&& r matches Some(p) ==> {
            &&& p.packet_spec().tag_spec() == end_tag(words_of::<T>() as u32)
            &&& p.packet_spec().data_spec().words() == fresh_words::<T>()
            &&& p.at_spec() == self.next_spec()
            &&& self.allocated::<T>(after)
        }
        &&& r is None ==> after.same(self)
    }

    /// Creates an allocator of zero words with nothing handed out.
    pub fn new() -> (b: Self)
        ensures
            b.next_spec() == 0,
            b.data_spec() == zeros(N as nat),
    {
        let b = Buffer { data: [0u32; N], next: 0 };
        assert(b.data_spec() =~= zeros(N as nat));
        b
    }

    /// Forgets every packet handed out; the words stay as they are.
    pub fn empty(&mut self) -> (r: &mut Self)
        ensures
            r.next_spec() == 0,
            r.data_spec() == old(self).data_spec(),
            *final(self) == *final(r),
    {
        self.next = 0;
        self
    }

    /// The number of words not yet handed out.
    pub fn words_remaining(&self) -> (n: usize)
        ensures
            n == N - self.next_spec(),
    {
        proof {
            use_type_invariant(self);
        }
        N - self.next
    }

    /// The buffer's words.
    pub fn words(&self) -> (w: &[u32; N])
        ensures
            w@ == self.data_spec(),
    {
        &self.data
    }

    /// Hands out a packet for a `T` that ends the list, with the primitive's
    /// command written, laid over the buffer's next words; or `None`,
    /// changing nothing, when the packet does not fit in the words left.
    pub fn packet<T: Init>(&mut self) -> (r: Option<Ref<T>>)
        ensures
            old(self).allocation::<T>(final(self), r),
    {
        proof {
            use_type_invariant(&*self);
        }
        let words = num_words::<Packet<T>>();
        if words <= N - self.next {
            let at = self.next;
            let mut p = Packet::new(T::zeroed(), None);
            p.reset();
            let ghost before = p.data_spec().words();
            p.get_mut().init();
            proof {
                T::lemma_has_command_word();
                assert(before[0] == 0u32);
                assert(p.data_spec().words() =~= fresh_words::<T>());
                assert(p.words() =~= seq![end_tag(words_of::<T>() as u32)] + fresh_words::<T>());
            }
            let w = fit(&p.as_slice(), words);
            write_at(&mut self.data, at, &w);
            self.next = self.next + words;
            Some(Ref::placed_at(p, at))
        } else {
            None
        }
    }

    /// Hands out `M` packets for a `T`, one after another, as
    /// [`Buffer::packet`] does; or `None`, changing nothing, when they do not
    /// all fit in the words left.
    pub fn packet_array<T: Init, const M: usize>(&mut self) -> (r: Option<Vec<Ref<T>>>)
        ensures
            r is Some <==> old(self).next_spec() + M * words_of::<Packet<T>>() <= N,
            r matches Some(v) ==> {
                &&& v.len() == M
                &&& forall|i: int|
                    0 <= i < M ==> {
                        &&& (#[trigger] v[i]).packet_spec().tag_spec() == end_tag(
                            words_of::<T>() as u32,
                        )
                        &&& v[i].packet_spec().data_spec().words() == fresh_words::<T>()
                        &&& v[i].at_spec() == old(self).next_spec() + i * words_of::<Packet<T>>()
                    }
                &&& final(self).next_spec() == old(self).next_spec() + M * words_of::<Packet<T>>()
                &&& repeated(
                    old(self).data_spec(),
                    final(self).data_spec(),
                    old(self).next_spec() as int,
                    fresh_laid::<T>(),
                    M as nat,
                )
            },
            r is None ==> final(self).same(old(self)),
    {
        proof {
            use_type_invariant(&*self);
        }
        let ghost start = *self;
        let words = num_words::<Packet<T>>();
        if words > 0 && M > (N - self.next) / words {
            proof {
                lemma_blocks_fit((N - start.next_spec()) as int, words as int, M as int);
            }
            return None;
        }
        proof {
            if words > 0 {
                lemma_blocks_fit((N - start.next_spec()) as int, words as int, M as int);
            }
            assert(M * words >= 0) by (nonlinear_arith);
            assert(words == 0 ==> M * words == 0) by (nonlinear_arith);
        }
        let mut v: Vec<Ref<T>> = Vec::new();
        let mut i: usize = 0;
        while i < M
            invariant
                i <= M,
                words == words_of::<Packet<T>>(),
                fresh_laid::<T>().len() == words,
                start.next_spec() + M * words <= N,
                self.next_spec() == start.next_spec() + i * words,
                repeated(
                    start.data_spec(),
                    self.data_spec(),
                    start.next_spec() as int,
                    fresh_laid::<T>(),
                    i as nat,
                ),
                v.len() == i,
                forall|k: int|
                    0 <= k < i ==> {
                        &&& (#[trigger] v[k]).packet_spec().tag_spec() == end_tag(
                            words_of::<T>() as u32,
                        )
                        &&& v[k].packet_spec().data_spec().words() == fresh_words::<T>()
                        &&& v[k].at_spec() == start.next_spec() + k * words
                    },
            decreases M - i,
        {
            proof {
                assert((i + 1) * words <= M * words) by (nonlinear_arith)
                    requires
                        i < M,
                ;
                assert((i + 1) * words == i * words + words) by (nonlinear_arith);
                assert(i * words >= 0) by (nonlinear_arith);
            }
            let ghost mid = *self;
            let p = self.packet::<T>().unwrap();
            proof {
                if words > 0 {
                    lemma_repeated_step(
                        start.data_spec(),
                        mid.data_spec(),
                        start.next_spec() as int,
                        fresh_laid::<T>(),
                        i as nat,
                    );
                } else {
                    lemma_repeated_empty(
                        start.data_spec(),
                        mid.data_spec(),
                        start.next_spec() as int,
                        fresh_laid::<T>(),
                        i as nat,
                    );
                    assert(mid.next_spec() == start.next_spec());
                }
            }
            v.push(p);
            i = i + 1;
        }
        Some(v)
    }

    /// Lays the current words of `r`'s packet back over the buffer where it
    /// was handed out.
    pub fn store<T: Primitive>(&mut self, r: &Ref<T>)
        requires
            r.at_spec() + words_of::<Packet<T>>() <= N,
        ensures
            final(self).data_spec() == placed(
                old(self).data_spec(),
                r.at_spec() as int,
                laid(r.packet_spec()),
            ),
            final(self).next_spec() == old(self).next_spec(),
    {
        proof {
            use_type_invariant(&*self);
        }
        let words = num_words::<Packet<T>>();
        let w = fit(&r.get().as_slice(), words);
        write_at(&mut self.data, r.at(), &w);
    }
}

/// Two bump allocators, one drawn from while the other is displayed.
pub struct DoubleBuffer<const N: usize> {
    buffer_0: Buffer<N>,
    buffer_1: Buffer<N>,
    swapped: bool,
}

impl<const N: usize> DoubleBuffer<N> {
    /// The first buffer.
    pub closed spec fn first(&self) -> Buffer<N> {
        self.buffer_0
    }

    /// The second buffer.
    pub closed spec fn second(&self) -> Buffer<N> {
        self.buffer_1
    }

    /// The words handed out from the first buffer.
    pub open spec fn first_next(&self) -> nat {
        self.first().next_spec()
    }

    /// The words handed out from the second buffer.
    pub open spec fn second_next(&self) -> nat {
        self.second().next_spec()
    }

    /// Whether the buffers are swapped.
    pub closed spec fn swapped_spec(&self) -> bool {
        self.swapped
    }

    /// Creates two allocators of zero words with nothing handed out, not
    /// swapped.
    pub fn new() -> (b: Self)
        ensures
            b.first_next() == 0,
            b.second_next() == 0,
            b.first().data_spec() == zeros(N as nat),
            b.second().data_spec() == zeros(N as nat),
            !b.swapped_spec(),
    {
        DoubleBuffer { buffer_0: Buffer::new(), buffer_1: Buffer::new(), swapped: false }
    }

    /// Whether the buffers are swapped: pairs handed out use their first
    /// packet when they are.
    pub fn is_swapped(&self) -> (s: bool)
        ensures
            s == self.swapped_spec(),
    {
        self.swapped
    }

    /// Swaps the roles of the two buffers.
    pub fn swap(&mut self)
        ensures
            final(self).swapped_spec() == !old(self).swapped_spec(),
            final(self).first() == old(self).first(),
            final(self).second() == old(self).second(),
    {
        self.swapped = !self.swapped;
    }

    /// The first buffer's words.
    pub fn first_words(&self) -> (w: &[u32; N])
        ensures
            w@ == self.first().data_spec(),
    {
        self.buffer_0.words()
    }

    /// The second buffer's words.
    pub fn second_words(&self) -> (w: &[u32; N])
        ensures
            w@ == self.second().data_spec(),
    {
        self.buffer_1.words()
    }

    /// Hands out a packet for `T` from each buffer, laid over each buffer's
    /// next words. When the first buffer has room but the second has not,
    /// the first one's words stay taken and the result is `None`.
    pub fn packet<T: Init>(&mut self) -> (r: Option<DoubleRef<T>>)
        ensures
            final(self).swapped_spec() == old(self).swapped_spec(),
            r is Some <==> old(self).first().fits::<T>() && old(self).second().fits::<T>(),
            old(self).first().fits::<T>() ==> old(self).first().allocated::<T>(&final(self).first()),
            !old(self).first().fits::<T>() ==> final(self).first().same(&old(self).first())
                && final(self).second().same(&old(self).second()),
            old(self).first().fits::<T>() && old(self).second().fits::<T>() ==> old(self).second().allocated::<T>(&final(self).second()),
            old(self).first().fits::<T>() && !old(self).second().fits::<T>() ==> final(self).second().same(&old(self).second()),
            r matches Some(d) ==> {
                &&& d.first().packet_spec().tag_spec() == end_tag(words_of::<T>() as u32)
                &&& d.second().packet_spec().tag_spec() == end_tag(words_of::<T>() as u32)
                &&& d.first().packet_spec().data_spec().words() == fresh_words::<T>()
                &&& d.second().packet_spec().data_spec().words() == fresh_words::<T>()
                &&& d.first().at_spec() == old(self).first_next()
                &&& d.second().at_spec() == old(self).second_next()
            },
    {
        match self.buffer_0.packet::<T>() {
            Some(data_0) => match self.buffer_1.packet::<T>() {
                Some(data_1) => Some(DoubleRef::new(data_0, data_1)),
                None => None,
            },
            None => None,
        }
    }

    /// Hands out `M` pairs of packets for a `T`, one after another, as
    /// [`DoubleBuffer::packet`] does; or `None`, changing nothing, when they
    /// do not all fit in both buffers.
    pub fn packet_array<T: Init, const M: usize>(&mut self) -> (r: Option<Vec<DoubleRef<T>>>)
        ensures
            final(self).swapped_spec() == old(self).swapped_spec(),
            r is Some <==> old(self).first_next() + M * words_of::<Packet<T>>() <= N && old(self).second_next() + M * words_of::<Packet<T>>() <= N,
            r matches Some(v) ==> {
                &&& v.len() == M
                &&& forall|i: int|
                    0 <= i < M ==> {
                        &&& (#[trigger] v[i]).first().packet_spec().tag_spec() == end_tag(
                            words_of::<T>() as u32,
                        )
                        &&& v[i].second().packet_spec().tag_spec() == end_tag(
                            words_of::<T>() as u32,
                        )
                        &&& v[i].first().packet_spec().data_spec().words() == fresh_words::<T>()
                        &&& v[i].second().packet_spec().data_spec().words() == fresh_words::<T>()
                        &&& v[i].first().at_spec() == old(self).first_next() + i * words_of::<
                            Packet<T>,
                        >()
                        &&& v[i].second().at_spec() == old(self).second_next() + i * words_of::<
                            Packet<T>,
                        >()
                    }
                &&& final(self).first_next() == old(self).first_next() + M * words_of::<
                    Packet<T>,
                >()
                &&& final(self).second_next() == old(self).second_next() + M * words_of::<
                    Packet<T>,
                >()
                &&& repeated(
                    old(self).first().data_spec(),
                    final(self).first().data_spec(),
                    old(self).first_next() as int,
                    fresh_laid::<T>(),
                    M as nat,
                )
                &&& repeated(
                    old(self).second().data_spec(),
                    final(self).second().data_spec(),
                    old(self).second_next() as int,
                    fresh_laid::<T>(),
                    M as nat,
                )
            },
            r is None ==> final(self).first().same(&old(self).first()),
            r is None ==> final(self).second().same(&old(self).second()),
    {
        let ghost start = *self;
        let words = num_words::<Packet<T>>();
        let left_1 = self.buffer_0.words_remaining();
        let left_2 = self.buffer_1.words_remaining();
        if words > 0 && (M > left_1 / words || M > left_2 / words) {
            proof {
                lemma_blocks_fit(left_1 as int, words as int, M as int);
                lemma_blocks_fit(left_2 as int, words as int, M as int);
            }
            return None;
        }
        proof {
            if words > 0 {
                lemma_blocks_fit(left_1 as int, words as int, M as int);
                lemma_blocks_fit(left_2 as int, words as int, M as int);
            }
            assert(M * words >= 0) by (nonlinear_arith);
            assert(words == 0 ==> M * words == 0) by (nonlinear_arith);
        }
        let mut v: Vec<DoubleRef<T>> = Vec::new();
        let mut i: usize = 0;
        while i < M
            invariant
                i <= M,
                words == words_of::<Packet<T>>(),
                fresh_laid::<T>().len() == words,
                start.first_next() + M * words <= N,
                start.second_next() + M * words <= N,
                self.first_next() == start.first_next() + i * words,
                self.second_next() == start.second_next() + i * words,
                self.swapped_spec() == start.swapped_spec(),
                repeated(
                    start.first().data_spec(),
                    self.first().data_spec(),
                    start.first_next() as int,
                    fresh_laid::<T>(),
                    i as nat,
                ),
                repeated(
                    start.second().data_spec(),
                    self.second().data_spec(),
                    start.second_next() as int,
                    fresh_laid::<T>(),
                    i as nat,
                ),
                v.len() == i,
                forall|k: int|
                    0 <= k < i ==> {
                        &&& (#[trigger] v[k]).first().packet_spec().tag_spec() == end_tag(
                            words_of::<T>() as u32,
                        )
                        &&& v[k].second().packet_spec().tag_spec() == end_tag(
                            words_of::<T>() as u32,
                        )
                        &&& v[k].first().packet_spec().data_spec().words() == fresh_words::<T>()
                        &&& v[k].second().packet_spec().data_spec().words() == fresh_words::<T>()
                        &&& v[k].first().at_spec() == start.first_next() + k * words
                        &&& v[k].second().at_spec() == start.second_next() + k * words
                    },
            decreases M - i,
        {
            proof {
                assert((i + 1) * words <= M * words) by (nonlinear_arith)
                    requires
                        i < M,
                ;
                assert((i + 1) * words == i * words + words) by (nonlinear_arith);
                assert(i * words >= 0) by (nonlinear_arith);
            }
            let ghost mid = *self;
            let d = self.packet::<T>().unwrap();
            proof {
                if words > 0 {
                    lemma_repeated_step(
                        start.first().data_spec(),
                        mid.first().data_spec(),
                        start.first_next() as int,
                        fresh_laid::<T>(),
                        i as nat,
                    );
                    lemma_repeated_step(
                        start.second().data_spec(),
                        mid.second().data_spec(),
                        start.second_next() as int,
                        fresh_laid::<T>(),
                        i as nat,
                    );
                } else {
                    assert(i * words == 0) by (nonlinear_arith)
                        requires
                            words == 0,
                    ;
                    assert(mid.first_next() == start.first_next());
                    assert(mid.second_next() == start.second_next());
                    lemma_repeated_empty(
                        start.first().data_spec(),
                        mid.first().data_spec(),
                        start.first_next() as int,
                        fresh_laid::<T>(),
                        i as nat,
                    );
                    lemma_repeated_empty(
                        start.second().data_spec(),
                        mid.second().data_spec(),
                        start.second_next() as int,
                        fresh_laid::<T>(),
                        i as nat,
                    );
                }
            }
            v.push(d);
            i = i + 1;
        }
        Some(v)
    }

    /// Lays the current words of each of `d`'s packets back over its buffer
    /// where it was handed out.
    pub fn store<T: Primitive>(&mut self, d: &DoubleRef<T>)
        requires
            d.first().at_spec() + words_of::<Packet<T>>() <= N,
            d.second().at_spec() + words_of::<Packet<T>>() <= N,
        ensures
            final(self).first().data_spec() == placed(
                old(self).first().data_spec(),
                d.first().at_spec() as int,
                laid(d.first().packet_spec()),
            ),
            final(self).second().data_spec() == placed(
                old(self).second().data_spec(),
                d.second().at_spec() as int,
                laid(d.second().packet_spec()),
            ),
            final(self).first_next() == old(self).first_next(),
            final(self).second_next() == old(self).second_next(),
            final(self).swapped_spec() == old(self).swapped_spec(),
    {
        self.buffer_0.store(d.get(true));
        self.buffer_1.store(d.get(false));
    }
}

} // verus!
