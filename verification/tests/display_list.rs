use psx::gpu::prim::Sprt;
use psx::graphics::buffer::{Buffer, DoubleBuffer};
use psx::graphics::num_words;
use psx::graphics::ot::{DoubleOT, OT};
use psx::graphics::packet::{DoubleRef, Packet, Ref};

#[test]
fn packet_tags_carry_size_and_end_the_list() {
    let p = Packet::new(7u32, None);
    assert_eq!(p.tag(), 0x01FF_FFFF);
    let mut q = Packet::new([0u32; 3], Some(9));
    assert_eq!(q.tag(), 0x09FF_FFFF);
    q.reset();
    assert_eq!(q.tag(), 0x03FF_FFFF);
    assert_eq!(*q.get(), [0, 0, 0]);
    q.get_mut()[1] = 4;
    assert_eq!(q.get()[1], 4);
    assert_eq!(num_words::<[u32; 5]>(), 5);
}

#[test]
fn ordering_table_insertion_links_packets() {
    let mut ot = OT::<4>::new();
    let mut p = Packet::new(1u32, None);
    let mut q = Packet::new(2u32, None);
    ot.insert(&mut p, 0x8000_1000, 2);
    assert_eq!(p.tag(), 0x0100_0000);
    assert_eq!(ot.entry(2), 0x1000);
    ot.insert(&mut q, 0x8000_2000, 2);
    assert_eq!(q.tag(), 0x0100_1000);
    assert_eq!(ot.entry(2), 0x2000);
    assert_eq!(ot.start_address(), 0);
}

#[test]
fn one_entry_table_starts_empty() {
    let mut ot = OT::<1>::default();
    assert_eq!(ot.entry(0), 0xFF_FFFF);
    let mut p = Packet::new(1u32, None);
    ot.insert(&mut p, 0x30, 0);
    assert_eq!(p.tag(), 0x01FF_FFFF);
    assert_eq!(ot.start_address(), 0x30);
    ot.empty();
    assert_eq!(ot.entry(0), 0xFF_FFFF);
}

#[test]
fn double_table_splits_into_current_and_alternative() {
    let mut d = DoubleOT::<2>::new();
    let mut p = Packet::new(1u32, None);
    {
        let (current, _alternative) = d.split();
        current.insert(&mut p, 0x40, 1);
    }
    assert_eq!(d.get().entry(1), 0x40);
    assert_eq!(d.start_address(), 0x40);
    d.swap();
    assert_eq!(d.get().entry(1), 0);
    {
        let (_current, alternative) = d.split();
        assert_eq!(alternative.entry(1), 0x40);
    }
    d.swap();
    assert_eq!(d.get().entry(1), 0x40);
    let e = DoubleOT::<1>::default();
    assert_eq!(e.get().entry(0), 0xFF_FFFF);
}

#[test]
fn double_ref_follows_the_swap_state_it_is_given() {
    let mut d = DoubleRef::new(Ref::new(Packet::new(0u32, None)), Ref::new(Packet::new(1u32, None)));
    {
        let (current, other) = d.split(false);
        assert_eq!(*current.get().get(), 1);
        assert_eq!(*other.get().get(), 0);
        *current.get_mut().get_mut() = 5;
    }
    assert_eq!(**d.get(false).get(), 5);
    assert_eq!(**d.get(true).get(), 0);
    let (current, _) = d.split(true);
    assert_eq!(*current.get().get(), 0);
}

#[test]
fn buffer_hands_out_packets_until_full() {
    let words = num_words::<Packet<Sprt>>();
    let mut b = Buffer::<10>::new();
    let p = b.packet::<Sprt>().unwrap();
    assert_eq!(p.get().tag(), ((num_words::<Sprt>() as u32) << 24) | 0xFF_FFFF);
    assert_eq!(p.get().get().cmd, 0x64);
    assert_eq!(b.words_remaining(), 10 - words);
    while b.words_remaining() >= words {
        assert!(b.packet::<Sprt>().is_some());
    }
    assert!(b.packet::<Sprt>().is_none());
    b.empty();
    assert_eq!(b.words_remaining(), 10);
}

#[test]
fn double_buffer_hands_out_pairs() {
    let mut d = DoubleBuffer::<10>::new();
    let mut r = d.packet::<Sprt>().unwrap();
    {
        let (current, _) = r.split(d.is_swapped());
        current.get_mut().get_mut().offset(psx::gpu::Vertex(1, 1));
    }
    assert_eq!(r.get(d.is_swapped()).get().get().offset, psx::gpu::Vertex(1, 1));
    d.swap();
    assert_eq!(r.get(d.is_swapped()).get().get().offset, psx::gpu::Vertex(0, 0));
    assert!(d.packet::<Sprt>().is_some());
    assert!(d.packet::<Sprt>().is_none());
}

#[test]
fn packets_dereference_to_their_data() {
    let p = Packet::new(7u32, None);
    assert_eq!(*p, 7);
    let r = Ref::new(Packet::new(8u32, None));
    assert_eq!(**r, 8);
    let mut ot = DoubleOT::<2>::new();
    ot.swap();
    assert_eq!(ot.entry(0), 0);
}

#[test]
fn buffer_hands_out_packet_arrays_that_fit() {
    let words = num_words::<Packet<Sprt>>();
    let mut b = Buffer::<40>::new();
    let v = b.packet_array::<Sprt, 3>().unwrap();
    assert_eq!(v.len(), 3);
    for p in &v {
        assert_eq!(p.get().tag(), ((num_words::<Sprt>() as u32) << 24) | 0xFF_FFFF);
        assert_eq!(p.get().get().cmd, 0x64);
    }
    assert_eq!(b.words_remaining(), 40 - 3 * words);
    let left = b.words_remaining();
    assert!(b.packet_array::<Sprt, 100>().is_none());
    assert_eq!(b.words_remaining(), left);
    assert_eq!(b.packet_array::<Sprt, 0>().unwrap().len(), 0);
    let mut d = DoubleBuffer::<40>::new();
    let pairs = d.packet_array::<Sprt, 2>().unwrap();
    assert_eq!(pairs.len(), 2);
    assert_eq!(pairs[1].get(true).get().get().cmd, 0x64);
    assert!(d.packet_array::<Sprt, 100>().is_none());
    assert_eq!(d.packet_array::<Sprt, 1>().unwrap().len(), 1);
}

#[test]
fn display_buffer_lays_packets_in_its_words() {
    let words = num_words::<Packet<Sprt>>();
    let tag = ((num_words::<Sprt>() as u32) << 24) | 0xFF_FFFF;
    let mut b = Buffer::<12>::new();
    assert_eq!(b.words(), &[0u32; 12]);
    let mut p = b.packet::<Sprt>().unwrap();
    assert_eq!(p.at(), 0);
    assert_eq!(&b.words()[0..2], &[tag, 0x6400_0000]);
    let q = b.packet::<Sprt>().unwrap();
    assert_eq!(q.at(), words);
    assert_eq!(&b.words()[words..words + 2], &[tag, 0x6400_0000]);
    let before = *b.words();
    assert!(b.packet::<Sprt>().is_none());
    assert_eq!(b.words(), &before);
    p.get_mut().get_mut().color(psx::gpu::Color { red: 1, green: 2, blue: 3 });
    b.store(&p);
    assert_eq!(&b.words()[0..2], &[tag, 0x6403_0201]);
    assert_eq!(b.words()[words + 1], 0x6400_0000);
    b.empty();
    assert_eq!(b.words()[1], 0x6403_0201);
    assert_eq!(b.words_remaining(), 12);
}

#[test]
fn display_double_buffer_stores_both_packets() {
    let mut d = DoubleBuffer::<12>::new();
    let mut r = d.packet::<Sprt>().unwrap();
    r.split(false).0.get_mut().get_mut().color(psx::gpu::Color { red: 9, green: 0, blue: 0 });
    d.store(&r);
    assert_eq!(d.first_words()[1], 0x6400_0000);
    assert_eq!(d.second_words()[1], 0x6400_0009);
    let v = d.packet_array::<Sprt, 1>().unwrap();
    let words = num_words::<Packet<Sprt>>();
    assert_eq!(v[0].get(true).at(), words);
    assert_eq!(d.first_words()[words + 1], 0x6400_0000);
}
