use vstd::prelude::*;
use crate::gpu::{Packet, PhysAddr, GPU_BUFFER_SIZE};
use crate::gpu::vertex::le_word;

verus! {

/// The address that ends a linked list.
pub open spec fn termination_spec() -> PhysAddr {
    PhysAddr([0xFF, 0xFF, 0xFF])
}

/// The address that ends a linked list: `0xFF_FFFF`.
pub fn termination() -> (a: PhysAddr)
    ensures
        a == termination_spec(),
{
    PhysAddr([0xFF, 0xFF, 0xFF])
}

/// Whether `a` is the end-of-list address.
pub open spec fn is_termination(a: PhysAddr) -> bool {
    a.0[0] == 0xFF && a.0[1] == 0xFF && a.0[2] == 0xFF
}

/// `Some(a)` unless `a` ends the list.
pub open spec fn link_of(a: PhysAddr) -> Option<PhysAddr> {
    if is_termination(a) {
        None
    } else {
        Some(a)
    }
}

fn link(a: PhysAddr) -> (r: Option<PhysAddr>)
    ensures
        r == link_of(a),
{
    if a.0[0] == 0xFF && a.0[1] == 0xFF && a.0[2] == 0xFF {
        None
    } else {
        Some(a)
    }
}

impl PhysAddr {
    /// The physical address of a memory address: its three low bytes.
    pub fn from_address(address: usize) -> (a: PhysAddr)
        ensures
            a.0@ == seq![
                (address % 0x100) as u8,
                ((address / 0x100) % 0x100) as u8,
                ((address / 0x1_0000) % 0x100) as u8,
            ],
    {
        let b0 = (address % 0x100) as u8;
        let b1 = ((address / 0x100) % 0x100) as u8;
        let b2 = ((address / 0x1_0000) % 0x100) as u8;
        let a = PhysAddr([b0, b1, b2]);
        assert(a.0@ =~= seq![b0, b1, b2]);
        a
    }
}

impl Packet<()> {
    /// Creates an empty [`Packet`]
    pub fn empty() -> (p: Self)
        ensures
            p.next_addr() == termination_spec(),
            p.size_words() == 0,
    {
        Packet { next: termination(), size: 0, contents: () }
    }
}

impl<T> Packet<T> {
    /// The address of the next packet in the list.
    pub closed spec fn next_addr(&self) -> PhysAddr {
        self.next
    }

    /// The size of the contents in words, as the header states it.
    pub closed spec fn size_words(&self) -> u8 {
        self.size
    }

    /// The packet's contents.
    pub closed spec fn contents_spec(&self) -> T {
        self.contents
    }

    /// Creates a new packet guaranteed to fit in the GPU buffer.
    pub fn new(t: T) -> (p: Self)
        requires
            vstd::layout::size_of::<T>() <= GPU_BUFFER_SIZE,
        ensures
            p.next_addr() == termination_spec(),
            p.size_words() == vstd::layout::size_of::<T>() / 4,
            p.contents_spec() == t,
    {
        let size = core::mem::size_of::<T>() / core::mem::size_of::<u32>();
        Packet { next: termination(), size: size as u8, contents: t }
    }

    /// Creates a new packet when a `T` fits in the GPU buffer, or `None`:
    /// [`Packet::new`] with the size checked as the program runs.
    pub fn try_new(t: T) -> (r: Option<Self>)
        ensures
            r is Some <==> vstd::layout::size_of::<T>() <= GPU_BUFFER_SIZE,
            r matches Some(p) ==> {
                &&& p.next_addr() == termination_spec()
                &&& p.size_words() == vstd::layout::size_of::<T>() / 4
                &&& p.contents_spec() == t
            },
    {
        if core::mem::size_of::<T>() <= GPU_BUFFER_SIZE {
            Some(Self::new(t))
        } else {
            None
        }
    }

    /// Creates a new packet which may not fit into the GPU buffer.
    pub fn new_oversized(t: T) -> (p: Self)
        requires
            vstd::layout::size_of::<T>() <= u8::MAX,
        ensures
            p.next_addr() == termination_spec(),
            p.size_words() == vstd::layout::size_of::<T>() / 4,
            p.contents_spec() == t,
    {
        let size = core::mem::size_of::<T>() / core::mem::size_of::<u32>();
        Packet { next: termination(), size: size as u8, contents: t }
    }

    /// The header word: the next packet's address in the low three bytes and
    /// the size in words in the high byte.
    pub open spec fn header_spec(&self) -> u32 {
        le_word(seq![self.next_addr().0[0], self.next_addr().0[1], self.next_addr().0[2], self.size_words()])
    }

    /// Gets the [`Packet`] header.
    pub fn header(&self) -> (h: u32)
        ensures
            h == self.header_spec(),
    {
        let n0 = self.next.0[0] as u32;
        let n1 = self.next.0[1] as u32;
        let n2 = self.next.0[2] as u32;
        let s = self.size as u32;
        n0 | (n1 << 8u32) | (n2 << 16u32) | (s << 24u32)
    }

    /// Inserts `other`, whose address is `other_addr`, between `self` and the
    /// following packet. A packet does not know where it lies in memory, so
    /// the address is the caller's to give.
    ///
    /// before: `self` -> `next`
    /// after: `self` -> `other` -> `next`
    ///
    /// Note that `self` may be the last [`Packet`] in which case `next` does
    /// not exist. Returns the `PhysAddr` `other` previously pointed to, if any.
    pub fn insert_packet<U>(&mut self, other: &mut Packet<U>, other_addr: PhysAddr) -> (r: Option<
        PhysAddr,
    >)
        ensures
            final(other).next_addr() == old(self).next_addr(),
            final(self).next_addr() == other_addr,
            r == link_of(old(other).next_addr()),
            final(self).size_words() == old(self).size_words(),
            final(self).contents_spec() == old(self).contents_spec(),
            final(other).size_words() == old(other).size_words(),
            final(other).contents_spec() == old(other).contents_spec(),
    {
        let res = other.next;
        other.next = self.next;
        self.next = other_addr;
        link(res)
    }

    /// Inserts the list `other`, whose first packet has address `first_addr`,
    /// between `self` and the following packet. The address is the caller's
    /// to give.
    ///
    /// before: `self` -> `next`
    /// after: `self` -> `other.first` -> ... -> `other.last` -> `next`
    ///
    /// Note that `self` may be the last [`Packet`] in which case `next` does
    /// not exist. Returns the `PhysAddr` the last packet of `other` previously
    /// pointed to, if any; an empty `other` changes nothing and gives `None`.
    pub fn insert_list<U>(&mut self, other: &mut Vec<Packet<U>>, first_addr: PhysAddr) -> (r:
        Option<PhysAddr>)
        ensures
            old(other).len() == 0 ==> r is None && *final(self) == *old(self) && final(other)@
                == old(other)@,
            old(other).len() > 0 ==> {
                let n = old(other).len() - 1;
                &&& r == link_of(old(other)@[n].next_addr())
                &&& final(self).next_addr() == first_addr
                &&& final(self).size_words() == old(self).size_words()
                &&& final(self).contents_spec() == old(self).contents_spec()
                &&& final(other).len() == old(other).len()
                &&& final(other)@[n].next_addr() == old(self).next_addr()
                &&& final(other)@[n].size_words() == old(other)@[n].size_words()
                &&& final(other)@[n].contents_spec() == old(other)@[n].contents_spec()
                &&& forall|i: int| 0 <= i < n ==> final(other)@[i] == old(other)@[i]
            },
    {
        let n = other.len();
        if n == 0 {
            return None;
        }
        let res = other[n - 1].next;
        other[n - 1].next = self.next;
        self.next = first_addr;
        link(res)
    }
}

/// A packet's header holds the address of the next packet in its low three
/// bytes, little-endian, and the size in words in its high byte.
pub proof fn lemma_header_fields<T>(p: Packet<T>)
    ensures
        p.header_spec() & 0x00FF_FFFF == le_word(
            seq![p.next_addr().0[0], p.next_addr().0[1], p.next_addr().0[2]],
        ),
        p.header_spec() >> 24u32 == p.size_words() as u32,
{
    let (a, b, c, d) = (p.next_addr().0[0], p.next_addr().0[1], p.next_addr().0[2], p.size_words());
    lemma_header_bytes(a, b, c, d);
}

proof fn lemma_header_bytes(a: u8, b: u8, c: u8, d: u8)
    by (bit_vector)
    ensures
        ((a as u32) | ((b as u32) << 8u32) | ((c as u32) << 16u32) | ((d as u32) << 24u32))
            & 0x00FF_FFFF == (a as u32) | ((b as u32) << 8u32) | ((c as u32) << 16u32) | (0u32
            << 24u32),
        ((a as u32) | ((b as u32) << 8u32) | ((c as u32) << 16u32) | ((d as u32) << 24u32))
            >> 24u32 == d as u32,
{
}

/// Link an existing list of packets from first to last, where `addrs[i]` is
/// the address of `list[i]`.
///
/// list\[0\] -> list\[1\] -> list\[2\] -> ... -> list\[n\]
///
/// The last packet takes over the address the first one pointed to.
pub fn link_list<T>(list: &mut Vec<Packet<T>>, addrs: &Vec<PhysAddr>)
    requires
        addrs.len() == old(list).len(),
    ensures
        final(list).len() == old(list).len(),
        forall|i: int|
            0 <= i < final(list).len() - 1 ==> #[trigger] final(list)@[i].next_addr()
                == addrs@[i + 1],
        final(list).len() > 0 ==> final(list)@[final(list).len() - 1].next_addr() == old(
            list,
        )@[0].next_addr(),
        forall|i: int|
            0 <= i < final(list).len() ==> #[trigger] final(list)@[i].contents_spec() == old(
                list,
            )@[i].contents_spec() && final(list)@[i].size_words() == old(list)@[i].size_words(),
{
    let n = list.len();
    let mut i: usize = 1;
    while i < n
        invariant
            n == list.len(),
            n == old(list).len(),
            addrs.len() == n,
            1 <= i <= n || n == 0,
            forall|j: int| 0 <= j < i - 1 ==> #[trigger] list@[j].next_addr() == addrs@[j + 1],
            n > 0 ==> list@[i - 1].next_addr() == old(list)@[0].next_addr(),
            forall|j: int|
                0 <= j < n ==> #[trigger] list@[j].contents_spec() == old(list)@[j].contents_spec()
                    && list@[j].size_words() == old(list)@[j].size_words(),
        decreases n - i,
    {
        let ghost prev = list@;
        let first_next = list[i - 1].next;
        list[i].next = first_next;
        list[i - 1].next = addrs[i];
        assert forall|j: int| 0 <= j < n implies #[trigger] list@[j].contents_spec()
            == old(list)@[j].contents_spec() && list@[j].size_words() == old(list)@[j].size_words() by {
            assert(prev[j].contents_spec() == old(list)@[j].contents_spec());
        }
        i += 1;
    }
}

/// The address held in the low three bytes of a word.
pub open spec fn addr_of_word(w: u32) -> PhysAddr {
    PhysAddr([w as u8, (w >> 8u32) as u8, (w >> 16u32) as u8])
}

/// Initializes an ordering table in `list`, where `addrs[i]` is the address
/// of `list[i]`: each word becomes the header of an empty packet, linked from
/// first to last, the last taking over the address the first word held.
///
/// list\[0\] -> list\[1\] -> list\[2\] -> ... -> list\[n\]
///
/// The packets are handed back as well.
pub fn ordering_table(list: &mut Vec<u32>, addrs: &Vec<PhysAddr>) -> (packets: Vec<Packet<()>>)
    requires
        addrs.len() == old(list).len(),
    ensures
        packets.len() == old(list).len(),
        final(list).len() == old(list).len(),
        forall|i: int| 0 <= i < packets.len() ==> #[trigger] packets@[i].size_words() == 0,
        forall|i: int|
            0 <= i < packets.len() - 1 ==> #[trigger] packets@[i].next_addr() == addrs@[i + 1],
        packets.len() > 0 ==> packets@[packets.len() - 1].next_addr() == addr_of_word(
            old(list)@[0],
        ),
        forall|i: int|
            0 <= i < packets.len() ==> #[trigger] final(list)@[i] == packets@[i].header_spec(),
{
    let n = list.len();
    let mut packets: Vec<Packet<()>> = Vec::new();
    let mut i: usize = 0;
    while i < n
        invariant
            n == list.len(),
            list@ == old(list)@,
            i <= n,
            packets.len() == i,
            forall|j: int|
                0 <= j < i ==> #[trigger] packets@[j].size_words() == 0 && packets@[j].next_addr()
                    == addr_of_word(list@[j]),
        decreases n - i,
    {
        let w = list[i];
        let next = PhysAddr([w as u8, (w >> 8u32) as u8, (w >> 16u32) as u8]);
        proof {
            broadcast use vstd::array::group_array_axioms;

            assert(next.0 =~= addr_of_word(w).0);
        }
        packets.push(Packet { next, size: 0, contents: () });
        i += 1;
    }
    let ghost pre = packets@;
    link_list(&mut packets, addrs);
    let ghost linked = packets@;
    proof {
        assert forall|j: int| 0 <= j < n implies #[trigger] linked[j].size_words() == 0 by {
            assert(linked[j].contents_spec() == pre[j].contents_spec());
            assert(pre[j].size_words() == 0);
        }
        if n > 0 {
            assert(pre[0].size_words() == 0);
        }
    }
    let mut k: usize = 0;
    while k < n
        invariant
            n == list.len(),
            n == packets.len(),
            packets@ == linked,
            k <= n,
            forall|j: int| 0 <= j < k ==> #[trigger] list@[j] == packets@[j].header_spec(),
        decreases n - k,
    {
        let h = packets[k].header();
        list.set(k, h);
        k += 1;
    }
    packets
}

} // verus!
