//! Packets of a GPU display list: a primitive behind a tag that links it to
//! the next packet.
use vstd::prelude::*;
use crate::gpu::prim::Primitive;
use crate::graphics::{num_words, termination};

verus! {

/// A `T` behind its tag: the number of words of `T` in the high byte and the
/// address of the next packet in the low three bytes.
pub struct Packet<T> {
    pub(crate) tag: u32,
    pub(crate) data: T,
}

/// The tag of a packet of `size` words that ends the list.
pub open spec fn end_tag(size: u32) -> u32 {
    (size << 24u32) | termination()
}

/// The number of words of a `T`.
pub open spec fn words_of<T>() -> nat {
    vstd::layout::size_of::<T>() / 4
}

impl<T> Packet<T> {
    /// The tag word.
    pub closed spec fn tag_spec(&self) -> u32 {
        self.tag
    }

    /// The data behind the tag.
    pub closed spec fn data_spec(&self) -> T {
        self.data
    }

    /// A packet of `data` that ends the list, of `size` words, or of as many
    /// words as a `T` takes when `size` is `None`.
    pub fn new(data: T, size: Option<u8>) -> (p: Packet<T>)
        ensures
            p.data_spec() == data,
            p.tag_spec() == end_tag(
                match size {
                    Some(s) => s as u32,
                    None => words_of::<T>() as u32,
                },
            ),
    {
        let default_size = num_words::<T>();
        let size: u32 = match size {
            Some(size) => size as u32,
            None => default_size as u32,
        };
        Packet { tag: (size << 24u32) | 0x00FF_FFFFu32, data }
    }

    /// Makes the packet end the list again, sized to its data.
    pub fn reset(&mut self)
        ensures
            final(self).tag_spec() == end_tag(words_of::<T>() as u32),
            final(self).data_spec() == old(self).data_spec(),
    {
        let size = num_words::<T>() as u32;
        self.tag = (size << 24u32) | 0x00FF_FFFFu32;
    }

    /// Links the packet to `next`, keeping its size.
    pub(crate) fn link(&mut self, next: u32)
        ensures
            final(self).tag_spec() == (old(self).tag_spec() & !termination()) | next,
            final(self).data_spec() == old(self).data_spec(),
    {
        self.tag = (self.tag & !0x00FF_FFFFu32) | next;
    }

    /// The tag word.
    pub fn tag(&self) -> (t: u32)
        ensures
            t == self.tag_spec(),
    {
        self.tag
    }

    /// The data.
    pub fn get(&self) -> (d: &T)
        ensures
            *d == self.data_spec(),
    {
        &self.data
    }

    /// The data, to change it in place.
    pub fn get_mut(&mut self) -> (d: &mut T)
        ensures
            *d == old(self).data_spec(),
            final(self).data_spec() == *final(d),
            final(self).tag_spec() == old(self).tag_spec(),
    {
        &mut self.data
    }
}

impl<T> core::ops::Deref for Packet<T> {
    type Target = T;

    fn deref(&self) -> (d: &T)
        ensures
            *d == self.data_spec(),
    {
        &self.data
    }
}

impl<T: Primitive> Packet<T> {
    /// The packet's words: the tag, then the data.
    pub open spec fn words(&self) -> Seq<u32> {
        seq![self.tag_spec()] + self.data_spec().words()
    }

    /// The packet's words: the tag, then the data.
    pub fn as_slice(&self) -> (w: Vec<u32>)
        ensures
            w@ == self.words(),
    {
        let mut w: Vec<u32> = Vec::new();
        w.push(self.tag);
        let mut d = self.data.as_slice();
        w.append(&mut d);
        assert(w@ =~= self.words());
        w
    }
}

/// A packet handed out by a buffer, with the index of its first word in
/// that buffer.
pub struct Ref<T> {
    packet: Packet<T>,
    at: usize,
}

impl<T> Ref<T> {
    /// The packet.
    pub closed spec fn packet_spec(&self) -> Packet<T> {
        self.packet
    }

    /// The index of the packet's first word in its buffer.
    pub closed spec fn at_spec(&self) -> nat {
        self.at as nat
    }

    /// Wraps `packet`, taken to start a buffer.
    pub fn new(packet: Packet<T>) -> (r: Self)
        ensures
            r.packet_spec() == packet,
            r.at_spec() == 0,
    {
        Ref { packet, at: 0 }
    }

    /// Wraps `packet`, whose first word is at index `at` of its buffer.
    pub fn placed_at(packet: Packet<T>, at: usize) -> (r: Self)
        ensures
            r.packet_spec() == packet,
            r.at_spec() == at,
    {
        Ref { packet, at }
    }

    /// The index of the packet's first word in its buffer.
    pub fn at(&self) -> (a: usize)
        ensures
            a == self.at_spec(),
    {
        self.at
    }

    /// The packet.
    pub fn get(&self) -> (p: &Packet<T>)
        ensures
            *p == self.packet_spec(),
    {
        &self.packet
    }

    /// The packet, to change it in place.
    pub fn get_mut(&mut self) -> (p: &mut Packet<T>)
        ensures
            *p == old(self).packet_spec(),
            final(self).packet_spec() == *final(p),
            final(self).at_spec() == old(self).at_spec(),
    {
        &mut self.packet
    }
}

impl<T> core::ops::Deref for Ref<T> {
    type Target = Packet<T>;

    fn deref(&self) -> (p: &Packet<T>)
        ensures
            *p == self.packet_spec(),
    {
        &self.packet
    }
}

/// A packet in each of two buffers. Which one is in use follows the
/// buffers' swap state, read when the pair is used: the first when swapped,
/// else the second.
pub struct DoubleRef<T> {
    data_0: Ref<T>,
    data_1: Ref<T>,
}

impl<T> DoubleRef<T> {
    /// The packet in the first buffer.
    pub closed spec fn first(&self) -> Ref<T> {
        self.data_0
    }

    /// The packet in the second buffer.
    pub closed spec fn second(&self) -> Ref<T> {
        self.data_1
    }

    /// The packets of both buffers.
    pub fn new(data_0: Ref<T>, data_1: Ref<T>) -> (d: Self)
        ensures
            d.first() == data_0,
            d.second() == data_1,
    {
        DoubleRef { data_0, data_1 }
    }

    /// The packet in use while the buffers' swap state is `swapped`.
    pub fn get(&self, swapped: bool) -> (r: &Ref<T>)
        ensures
            *r == (if swapped {
                self.first()
            } else {
                self.second()
            }),
    {
        if swapped {
            &self.data_0
        } else {
            &self.data_1
        }
    }

    /// The packet in use while the buffers' swap state is `swapped`, and the
    /// other one, in that order.
    pub fn split(&mut self, swapped: bool) -> (r: (&mut Ref<T>, &mut Ref<T>))
        ensures
            swapped ==> *r.0 == old(self).first() && *r.1 == old(self).second()
                && final(self).first() == *final(r.0) && final(self).second() == *final(r.1),
            !swapped ==> *r.0 == old(self).second() && *r.1 == old(self).first()
                && final(self).second() == *final(r.0) && final(self).first() == *final(r.1),
    {
        if swapped {
            (&mut self.data_0, &mut self.data_1)
        } else {
            (&mut self.data_1, &mut self.data_0)
        }
    }
}

} // verus!
