//! Depth ordering tables: each entry links to the packets drawn at its depth.
use vstd::prelude::*;
use crate::graphics::packet::Packet;
use crate::graphics::termination;

verus! {

/// An `N`-word ordering table.
pub struct OT<const N: usize> {
    entries: [u32; N],
}

impl<const N: usize> OT<N> {
    /// The entries.
    pub closed spec fn entries_spec(&self) -> Seq<u32> {
        self.entries@
    }

    /// Creates a table whose entries are zero, not yet linked anywhere.
    pub fn new() -> (ot: Self)
        ensures
            ot.entries_spec() == Seq::new(N as nat, |i: int| 0u32),
    {
        let ot = OT { entries: [0u32; N] };
        assert(ot.entries_spec() =~= Seq::new(N as nat, |i: int| 0u32));
        ot
    }

    /// Gets the nth entry in an ordering table.
    pub fn entry(&self, n: usize) -> (e: u32)
        requires
            n < N,
        ensures
            e == self.entries_spec()[n as int],
    {
        self.entries[n]
    }

    /// Inserts `packet`, whose address is `packet_addr`, into the nth slot:
    /// the packet links to what the slot linked to, and the slot to the
    /// packet. The packet's size stays in its tag.
    pub fn insert<T>(&mut self, packet: &mut Packet<T>, packet_addr: u32, n: usize) -> (r: &mut Self)
        requires
            n < N,
        ensures
            final(packet).tag_spec() == (old(packet).tag_spec() & !termination()) | old(
                self,
            ).entries_spec()[n as int],
            final(packet).data_spec() == old(packet).data_spec(),
            r.entries_spec() == old(self).entries_spec().update(
                n as int,
                packet_addr & termination(),
            ),
            *final(self) == *final(r),
    {
        packet.link(self.entries[n]);
        self.entries[n] = packet_addr & 0x00FF_FFFFu32;
        assert(self.entries_spec() =~= old(self).entries_spec().update(
            n as int,
            packet_addr & termination(),
        ));
        self
    }

    /// The entry the GPU starts the list from: the last one.
    pub fn start_address(&self) -> (e: u32)
        requires
            N >= 1,
        ensures
            e == self.entries_spec()[N - 1],
    {
        self.entries[N - 1]
    }
}

impl Default for OT<1> {
    /// Creates an initialized 1-word ordering table.
    fn default() -> (ot: Self)
        ensures
            ot.entries_spec() == seq![termination()],
    {
        let ot = OT { entries: [0x00FF_FFFFu32; 1] };
        assert(ot.entries_spec() =~= seq![termination()]);
        ot
    }
}

impl OT<1> {
    /// Empties the ordering table by storing the termination code in the entry.
    pub fn empty(&mut self) -> (r: &mut Self)
        ensures
            r.entries_spec() == seq![termination()],
            *final(self) == *final(r),
    {
        self.entries[0] = 0x00FF_FFFF;
        assert(self.entries_spec() =~= seq![termination()]);
        self
    }
}

/// An `N`-entry double-buffered ordering table: one table is current, the
/// other is the alternative, and `swap` exchanges them.
pub struct DoubleOT<const N: usize> {
    ot_0: OT<N>,
    ot_1: OT<N>,
    swapped: bool,
}

impl<const N: usize> DoubleOT<N> {
    /// The first table.
    pub closed spec fn first(&self) -> OT<N> {
        self.ot_0
    }

    /// The second table.
    pub closed spec fn second(&self) -> OT<N> {
        self.ot_1
    }

    /// Whether the tables are swapped.
    pub closed spec fn swapped_spec(&self) -> bool {
        self.swapped
    }

    /// The current table: the first when swapped, else the second.
    pub open spec fn current(&self) -> OT<N> {
        if self.swapped_spec() {
            self.first()
        } else {
            self.second()
        }
    }

    /// The alternative table.
    pub open spec fn alternative(&self) -> OT<N> {
        if self.swapped_spec() {
            self.second()
        } else {
            self.first()
        }
    }

    /// Creates two tables whose entries are zero, not swapped.
    pub fn new() -> (d: Self)
        ensures
            d.first().entries_spec() == Seq::new(N as nat, |i: int| 0u32),
            d.second().entries_spec() == Seq::new(N as nat, |i: int| 0u32),
            !d.swapped_spec(),
    {
        DoubleOT { ot_0: OT::new(), ot_1: OT::new(), swapped: false }
    }

    /// Gets mutable references to the current and alternative ordering tables
    /// respectively.
    pub fn split(&mut self) -> (r: (&mut OT<N>, &mut OT<N>))
        ensures
            *r.0 == old(self).current(),
            *r.1 == old(self).alternative(),
            final(self).swapped_spec() == old(self).swapped_spec(),
            final(self).current() == *final(r.0),
            final(self).alternative() == *final(r.1),
    {
        if self.swapped {
            (&mut self.ot_0, &mut self.ot_1)
        } else {
            (&mut self.ot_1, &mut self.ot_0)
        }
    }

    /// Swaps the current and alternative ordering tables.
    pub fn swap(&mut self)
        ensures
            final(self).swapped_spec() == !old(self).swapped_spec(),
            final(self).first() == old(self).first(),
            final(self).second() == old(self).second(),
            final(self).current() == old(self).alternative(),
            final(self).alternative() == old(self).current(),
    {
        self.swapped = !self.swapped;
    }

    /// The current table.
    pub fn get(&self) -> (o: &OT<N>)
        ensures
            *o == self.current(),
    {
        if self.swapped {
            &self.ot_0
        } else {
            &self.ot_1
        }
    }

    /// The entry the GPU starts the current table's list from.
    pub fn start_address(&self) -> (e: u32)
        requires
            N >= 1,
        ensures
            e == self.current().entries_spec()[N - 1],
    {
        self.get().start_address()
    }
}

impl<const N: usize> core::ops::Deref for DoubleOT<N> {
    type Target = OT<N>;

    /// The current table.
    fn deref(&self) -> (o: &OT<N>)
        ensures
            *o == self.current(),
    {
        self.get()
    }
}

impl Default for DoubleOT<1> {
    /// Creates an initialized double-buffered ordering table.
    fn default() -> (d: Self)
        ensures
            d.first().entries_spec() == seq![termination()],
            d.second().entries_spec() == seq![termination()],
            !d.swapped_spec(),
    {
        DoubleOT { ot_0: OT::default(), ot_1: OT::default(), swapped: false }
    }
}

/// Swapping twice makes the same table current again.
pub proof fn lemma_swap_twice<const N: usize>(a: DoubleOT<N>, b: DoubleOT<N>, c: DoubleOT<N>)
    requires
        b.swapped_spec() == !a.swapped_spec(),
        b.first() == a.first(),
        b.second() == a.second(),
        c.swapped_spec() == !b.swapped_spec(),
        c.first() == b.first(),
        c.second() == b.second(),
    ensures
        c.current() == a.current(),
        c.alternative() == a.alternative(),
{
}

} // verus!
