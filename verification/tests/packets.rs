use psx::gpu::color::Color as Rgb;
use psx::gpu::primitive::{PolyF3 as FlatTriangle, PolyF4 as FlatQuad};
use psx::gpu::graphics::{DoubleBuffer as SingleDoubleBuffer, SingleBuffer};
use psx::gpu::prim::{
    ColoredVertex, DoubleBuffer, DoubleOT, Init, LineF, LineG, PolyF4, PolyFT3, PolyG3, Primitive,
    Sprt, Tile, OT,
};
use psx::gpu::packet::ordering_table;
use psx::gpu::{link_list, Clut, Color, Packet, PhysAddr, TexCoord, Vertex};

#[test]
fn linked_packet_headers() {
    let p = Packet::new(5u32);
    assert_eq!(p.header(), 0x01FF_FFFF);
    assert_eq!(p.contents, 5);
    assert_eq!(Packet::empty().header(), 0x00FF_FFFF);
    let big = Packet::new_oversized([0u32; 20]);
    assert_eq!(big.header(), 0x14FF_FFFF);
    assert_eq!(PhysAddr::from_address(0x8012_3456), PhysAddr([0x56, 0x34, 0x12]));
}

#[test]
fn insert_packet_links_between() {
    let mut a = Packet::new(1u32);
    let mut b = Packet::new(2u32);
    assert_eq!(a.insert_packet(&mut b, PhysAddr([1, 2, 3])), None);
    assert_eq!(a.header(), 0x0103_0201);
    assert_eq!(b.header(), 0x01FF_FFFF);
    let mut c = Packet::new(3u32);
    c.insert_packet(&mut Packet::new(9u32), PhysAddr([7, 7, 7]));
    assert_eq!(a.insert_packet(&mut c, PhysAddr([4, 5, 6])), Some(PhysAddr([7, 7, 7])));
    assert_eq!(a.header(), 0x0106_0504);
    assert_eq!(c.header(), 0x0103_0201);
}

#[test]
fn insert_list_links_the_whole_list() {
    let mut a = Packet::new(1u32);
    let mut list = vec![Packet::new(2u32), Packet::new(3u32)];
    assert_eq!(a.insert_list(&mut list, PhysAddr([1, 0, 0])), None);
    assert_eq!(a.header(), 0x0100_0001);
    assert_eq!(list[1].header(), 0x01FF_FFFF);
    let mut empty: Vec<Packet<u32>> = Vec::new();
    assert_eq!(a.insert_list(&mut empty, PhysAddr([9, 9, 9])), None);
    assert_eq!(a.header(), 0x0100_0001);
}

#[test]
fn link_list_chains_packets_in_order() {
    let mut list = vec![Packet::new(1u32), Packet::new(2u32), Packet::new(3u32)];
    let addrs = vec![PhysAddr([0, 1, 0]), PhysAddr([0, 2, 0]), PhysAddr([0, 3, 0])];
    link_list(&mut list, &addrs);
    assert_eq!(list[0].header(), 0x0100_0200);
    assert_eq!(list[1].header(), 0x0100_0300);
    assert_eq!(list[2].header(), 0x01FF_FFFF);
    assert_eq!(list[1].contents, 2);
}

#[test]
fn buffer_hands_out_tagged_packets() {
    let mut b = psx::gpu::prim::Buffer::<16>::new();
    let p = b.Sprt().unwrap();
    assert_eq!(p.tag(), 0x0500_0000);
    assert_eq!(p.get().cmd, 0x64);
    assert_eq!(p.as_slice(), vec![0x0500_0000, 0x6400_0000, 0, 0, 0]);
    let q = b.PolyF4().unwrap();
    assert_eq!(q.as_slice(), vec![0x0600_0000, 0x2800_0000, 0, 0, 0, 0]);
    assert!(b.PolyF4().is_none());
    b.empty();
    assert!(b.PolyF4().is_some());
}

#[test]
fn buffer_allocation_must_end_before_the_last_word() {
    let mut b = psx::gpu::prim::Buffer::<11>::new();
    assert!(b.allocate::<Sprt>().is_some());
    assert!(b.allocate::<PolyF4>().is_none());
    assert!(b.allocate::<Tile>().is_some());
    let mut s = SingleBuffer::<11>::new();
    assert!(s.allocate::<Sprt>().is_some());
    assert!(s.allocate::<PolyF4>().is_some());
    assert!(s.allocate::<Tile>().is_none());
}

#[test]
fn sprite_packet_setters_fill_the_words() {
    let mut b = psx::gpu::prim::Buffer::<16>::new();
    let mut p = b.Sprt().unwrap();
    let clut = Clut::try_from(Vertex(1, 2)).unwrap();
    p.color(Color { red: 1, green: 2, blue: 3 })
        .offset(Vertex(4, 5))
        .t0(TexCoord { x: 6, y: 7 })
        .clut(clut)
        .size(Vertex(8, 9));
    assert_eq!(p.as_slice(), vec![
        0x0500_0000,
        0x6403_0201,
        0x0005_0004,
        0x0081_0706,
        0x0009_0008
    ]);
}

#[test]
fn primitives_lay_out_their_words() {
    let mut t = PolyFT3::zeroed();
    t.init();
    t.color(Color { red: 9, green: 0, blue: 0 }).vertices([Vertex(1, 0), Vertex(2, 0), Vertex(3, 0)]);
    assert_eq!(t.as_slice(), vec![0x2400_0009, 1, 0, 2, 0, 3, 0]);
    assert_eq!(PolyFT3::num_words(), 7);
    let mut g = PolyG3::zeroed();
    g.init();
    g.color([
        Color { red: 1, green: 0, blue: 0 },
        Color { red: 2, green: 0, blue: 0 },
        Color { red: 3, green: 0, blue: 0 },
    ]);
    assert_eq!(g.as_slice(), vec![0x3000_0001, 0, 2, 0, 3, 0]);
    let mut s = Sprt::zeroed();
    s.cmd();
    assert_eq!(s.as_slice()[0], 0x6400_0000);
}

#[test]
fn poly_lines_end_with_their_terminator() {
    let mut l = LineF::<3> {
        color: Color { red: 1, green: 0, blue: 0 },
        cmd: 0x48,
        vertices: [Vertex(0, 0); 3],
        term: 0x5555_5555,
    };
    l.vertices([Vertex(1, 0), Vertex(2, 0), Vertex(3, 0)]).color(Color { red: 2, green: 0, blue: 0 });
    assert_eq!(l.as_slice(), vec![0x4800_0002, 1, 2, 3, 0x5555_5555]);
    let g = LineG::<2> {
        colored_vertices: [
            ColoredVertex { c: Color { red: 1, green: 0, blue: 0 }, _pad: 0x58, v: Vertex(1, 1) },
            ColoredVertex { c: Color { red: 2, green: 0, blue: 0 }, _pad: 0, v: Vertex(2, 2) },
        ],
        term: 0x5555_5555,
    };
    assert_eq!(g.as_slice(), vec![0x5800_0001, 0x0001_0001, 2, 0x0002_0002, 0x5555_5555]);
}

#[test]
fn ordering_table_links_packets_by_depth() {
    let mut b = psx::gpu::prim::Buffer::<32>::new();
    let mut p = b.Sprt().unwrap();
    let mut q = b.Sprt().unwrap();
    let mut ot = OT::<4>::new();
    assert_eq!(ot.len(), 3);
    ot.add_prim(2, &mut p, 0x8012_3456);
    assert_eq!(ot.entry(2), 0x12_3456);
    assert_eq!(p.tag(), 0x0500_0000);
    ot.add_prim(2, &mut q, 0x8020_0000);
    assert_eq!(q.tag(), 0x0512_3456);
    assert_eq!(ot.entry(2), 0x20_0000);
    assert_eq!(ot.start(), 0);
}

#[test]
fn double_ordering_table_uses_the_current_table() {
    let mut b = psx::gpu::prim::Buffer::<32>::new();
    let mut p = b.Sprt().unwrap();
    let mut d = DoubleOT::<4>::new();
    d.add_prim(&mut p, 0x100, 1);
    assert_eq!(d.ot().entry(1), 0x100);
    d.swap();
    assert_eq!(d.ot().entry(1), 0);
    d.swap();
    assert_eq!(d.ot().entry(1), 0x100);
}

#[test]
fn double_buffer_allocates_from_both() {
    let mut d = DoubleBuffer::<16>::new();
    let mut dp = d.Sprt().unwrap();
    assert!(!d.is_swapped());
    dp.packet(d.is_swapped()).get_mut().color(Color { red: 5, green: 0, blue: 0 });
    d.swap();
    assert!(d.is_swapped());
    assert_eq!(dp.packet(false).as_slice()[1], 0x6400_0005);
    assert_eq!(dp.packet(true).as_slice()[1], 0x6400_0000);
    assert!(d.PolyF4().is_some());
    assert!(d.PolyF4().is_none());
    let mut s = SingleDoubleBuffer::<12>::new();
    let mut sp = s.allocate::<Sprt>();
    assert_eq!(sp.packet(true).tag(), 0x0500_0000);
    s.swap();
}

#[test]
fn ordering_table_links_empty_packets_in_place() {
    let mut words = vec![0x12AA_BBCC, 0xFFFF_FFFF, 7];
    let addrs = vec![PhysAddr([0, 1, 0]), PhysAddr([0, 2, 0]), PhysAddr([0, 3, 0])];
    let packets = ordering_table(&mut words, &addrs);
    assert_eq!(words, vec![0x0000_0200, 0x0000_0300, 0x00AA_BBCC]);
    assert_eq!(packets[2].header(), 0x00AA_BBCC);
}

#[test]
fn word_buffer_hands_out_prefixes() {
    let mut b = psx::gpu::primitive::Buffer::<4>::new();
    {
        let s = b.get(2);
        assert_eq!(s.len(), 2);
        s[1] = 9;
    }
    assert_eq!(b.nextpri, 2);
    let s = b.get(1);
    assert_eq!(s, &mut [0, 9, 0][..]);
    assert_eq!(b.data, [0, 9, 0, 0]);
}

#[test]
fn tagged_packets_dereference_to_their_primitive() {
    let mut b = psx::gpu::prim::Buffer::<16>::new();
    let p = b.Sprt().unwrap();
    assert_eq!(p.cmd, 0x64);
}

#[test]
fn buffer_lays_packets_in_its_words() {
    let mut b = psx::gpu::prim::Buffer::<16>::new();
    assert_eq!(b.words(), &[0u32; 16]);
    let mut p = b.Sprt().unwrap();
    assert_eq!(p.at(), 0);
    assert_eq!(&b.words()[0..5], &[0x0500_0000, 0x6400_0000, 0, 0, 0]);
    let q = b.PolyF4().unwrap();
    assert_eq!(q.at(), 5);
    assert_eq!(&b.words()[5..11], &[0x0600_0000, 0x2800_0000, 0, 0, 0, 0]);
    let before = *b.words();
    assert!(b.PolyF4().is_none());
    assert_eq!(b.words(), &before);
    p.color(Color { red: 1, green: 2, blue: 3 });
    b.store(&p);
    assert_eq!(&b.words()[0..5], &[0x0500_0000, 0x6403_0201, 0, 0, 0]);
    assert_eq!(&b.words()[5..11], &[0x0600_0000, 0x2800_0000, 0, 0, 0, 0]);
    b.empty();
    assert_eq!(b.words()[1], 0x6403_0201);
    let r = b.Tile().unwrap();
    assert_eq!(r.at(), 0);
}

#[test]
fn single_buffer_lays_packets_in_its_words() {
    let mut s = SingleBuffer::<11>::new();
    let p = s.allocate::<Sprt>().unwrap();
    let q = s.allocate::<PolyF4>().unwrap();
    assert_eq!((p.at(), q.at()), (0, 5));
    assert_eq!(s.words(), &[
        0x0500_0000, 0x6400_0000, 0, 0, 0, 0x0600_0000, 0x2800_0000, 0, 0, 0, 0
    ]);
    let before = *s.words();
    assert!(s.allocate::<Tile>().is_none());
    assert_eq!(s.words(), &before);
    s.empty();
    assert_eq!(s.words(), &before);
}

#[test]
fn double_buffer_stores_both_packets() {
    let mut d = DoubleBuffer::<16>::new();
    let mut dp = d.Sprt().unwrap();
    dp.packet(false).get_mut().color(Color { red: 5, green: 0, blue: 0 });
    d.store(&dp);
    assert_eq!(&d.first_words()[0..2], &[0x0500_0000, 0x6400_0000]);
    assert_eq!(&d.second_words()[0..2], &[0x0500_0000, 0x6400_0005]);
    let mut s = SingleDoubleBuffer::<12>::new();
    let mut sp = s.allocate::<Sprt>();
    sp.packet(true).get_mut().color(Color { red: 0, green: 7, blue: 0 });
    s.store(&sp);
    assert_eq!(&s.first_words()[0..2], &[0x0500_0000, 0x6400_0700]);
    assert_eq!(&s.second_words()[0..2], &[0x0500_0000, 0x6400_0000]);
    assert!(!s.is_swapped());
}

#[test]
fn single_buffer_arrays_lay_packets_one_after_another() {
    let mut s = SingleBuffer::<12>::new();
    let v = s.array::<Sprt, 2>().unwrap();
    assert_eq!((v[0].at(), v[1].at()), (0, 5));
    assert_eq!(v[1].as_slice(), vec![0x0500_0000, 0x6400_0000, 0, 0, 0]);
    assert_eq!(&s.words()[0..10], &[
        0x0500_0000, 0x6400_0000, 0, 0, 0, 0x0500_0000, 0x6400_0000, 0, 0, 0
    ]);
    assert!(s.array::<Sprt, 1>().is_none());
    assert_eq!(s.array::<Sprt, 0>().unwrap().len(), 0);
    let mut d = SingleDoubleBuffer::<12>::new();
    let pairs = d.array::<Sprt, 2>().unwrap();
    assert_eq!(pairs.len(), 2);
    assert_eq!(pairs[1].get_first().at(), 5);
    assert_eq!(pairs[1].get_second().tag(), 0x0500_0000);
    assert_eq!(d.second_words()[6], 0x6400_0000);
}

#[test]
fn primitive_vertices_lie_in_memory_as_two_halves() {
    let mut t = PolyFT3::zeroed();
    t.vertices([Vertex(-1, 2), Vertex(3, -4), Vertex(-5, -6)]);
    assert_eq!(t.as_slice(), vec![0, 0x0002_FFFF, 0, 0xFFFC_0003, 0, 0xFFFA_FFFB, 0]);
    let mut b = psx::gpu::prim::Buffer::<16>::new();
    let mut p = b.Sprt().unwrap();
    p.offset(Vertex(-16, 8));
    assert_eq!(p.as_slice()[2], 0x0008_FFF0);
}

#[test]
fn packets_are_checked_against_the_gpu_buffer() {
    let p = Packet::try_new([7u32; 16]).unwrap();
    assert_eq!(p.header(), 0x10FF_FFFF);
    assert_eq!(p.contents, [7u32; 16]);
    assert!(Packet::try_new([0u32; 17]).is_none());
}

#[test]
fn primitives_are_laid_at_the_start_of_the_word_buffer() {
    let mut b = psx::gpu::primitive::Buffer::<8>::new();
    b.data[0] = 0x1234_5678;
    b.data[1] = 0x00AB_CDEF;
    b.data[2] = 0xFFFF_0001;
    let mut p = FlatTriangle::from(&mut b);
    assert_eq!(b.nextpri, 5);
    assert_eq!(p.at(), 0);
    assert_eq!(p.as_ref().cmd, 0x20);
    assert!(p.as_ref().color == Rgb { red: 0xEF, green: 0xCD, blue: 0xAB });
    assert_eq!(p.as_ref().vertices[0], Vertex(1, -1));
    assert_eq!(&b.data[0..5], &[0, 0x20AB_CDEF, 0xFFFF_0001, 0, 0]);
    p.color(Rgb { red: 1, green: 2, blue: 3 }).vertices([Vertex(-2, 3), Vertex(4, 5), Vertex(6, 7)]);
    assert_eq!(b.data[1], 0x20AB_CDEF);
    p.store(&mut b);
    assert_eq!(&b.data[0..5], &[0, 0x2003_0201, 0x0003_FFFE, 0x0005_0004, 0x0007_0006]);
    let mut c = psx::gpu::primitive::Buffer::<6>::new();
    let q = FlatQuad::new(
        &mut c,
        [Vertex(1, 0), Vertex(2, 0), Vertex(3, 0), Vertex(4, 0)],
        Rgb { red: 9, green: 0, blue: 0 },
    );
    assert_eq!(q.as_ref().as_slice(), vec![0, 0x2800_0009, 1, 2, 3, 4]);
    assert_eq!(c.data, [0, 0x2800_0009, 1, 2, 3, 4]);
    assert_eq!(c.nextpri, 6);
}
