use psx::gpu::color::Color;
use psx::gpu::draw_port::{DrawPort, GpuPacket};
use psx::gpu::shapes;
use psx::gpu::shapes::{
    curve, medium_square, point, quad, rectangle, shaded_curve, shaded_line, shaded_quad,
    shaded_triangle, small_square, textured_quad, textured_triangle, triangle,
};
use psx::gpu::{Clut, TexCoord, TexPage, Vertex};

fn c(r: u8, g: u8, b: u8) -> Color {
    Color::rgb(r, g, b)
}

#[test]
fn flat_polygons_start_with_their_command() {
    let v = [Vertex(0, 0), Vertex(1, 0), Vertex(0, 1)];
    assert_eq!(triangle(v, c(1, 2, 3)).packet(), vec![0x2003_0201, 0, 1, 0x0001_0000]);
    let q = [Vertex(0, 0), Vertex(1, 0), Vertex(0, 1), Vertex(1, 1)];
    assert_eq!(
        quad(q, c(1, 2, 3)).packet(),
        vec![0x2803_0201, 0, 1, 0x0001_0000, 0x0001_0001]
    );
    assert_eq!(shapes::line([Vertex(2, 3), Vertex(4, 5)], c(0, 0, 9)).packet(), vec![
        0x4009_0000,
        0x0003_0002,
        0x0005_0004
    ]);
}

#[test]
fn shaded_polygons_interleave_colors_and_vertices() {
    let v = [Vertex(0, 0), Vertex(1, 0), Vertex(0, 1)];
    let p = [c(1, 0, 0), c(0, 2, 0), c(0, 0, 3)];
    assert_eq!(shaded_triangle(v, p).packet(), vec![
        0x3000_0001,
        0,
        0x0000_0200,
        1,
        0x0003_0000,
        0x0001_0000
    ]);
    let q = [Vertex(0, 0), Vertex(1, 0), Vertex(0, 1), Vertex(1, 1)];
    let pq = [c(1, 0, 0), c(0, 2, 0), c(0, 0, 3), c(4, 0, 0)];
    assert_eq!(shaded_quad(q, pq).packet(), vec![
        0x3800_0001,
        0,
        0x0000_0200,
        1,
        0x0003_0000,
        0x0001_0000,
        4,
        0x0001_0001
    ]);
    let l = shaded_line([Vertex(1, 1), Vertex(2, 2)], [c(5, 0, 0), c(6, 0, 0)]);
    assert_eq!(l.packet(), vec![0x5000_0005, 0x0001_0001, 6, 0x0002_0002]);
}

#[test]
fn curve_ends_with_the_terminator() {
    let v = [Vertex(1, 0), Vertex(2, 0), Vertex(3, 0)];
    assert_eq!(curve(v, c(7, 0, 0)).packet(), vec![0x4800_0007, 1, 2, 3, 0x5555_5555]);
}

#[test]
fn shaded_curve_writes_the_terminator_after_the_first_pairs() {
    let v = [Vertex(1, 0), Vertex(2, 0), Vertex(3, 0)];
    let p = [c(1, 0, 0), c(2, 0, 0), c(3, 0, 0)];
    assert_eq!(shaded_curve(v, p).packet(), vec![0x5800_0001, 1, 2, 2, 0x5555_5555, 3, 0]);
    let one = shaded_curve([Vertex(1, 1)], [c(9, 0, 0)]);
    assert_eq!(one.packet(), vec![0x5800_0009, 0x0001_0001, 0x5555_5555]);
}

#[test]
fn rectangles_and_squares() {
    let r = rectangle(Vertex(1, 2), Vertex(3, 4), c(0x10, 0x20, 0x30));
    assert_eq!(r.packet(), vec![0x6030_2010, 0x0002_0001, 0x0004_0003]);
    assert_eq!(point(Vertex(1, 2), c(1, 1, 1)).packet(), vec![0x6801_0101, 0x0002_0001]);
    assert_eq!(small_square(Vertex(1, 2), c(1, 1, 1)).packet(), vec![0x7001_0101, 0x0002_0001]);
    assert_eq!(medium_square(Vertex(1, 2), c(1, 1, 1)).packet(), vec![0x7801_0101, 0x0002_0001]);
}

#[test]
fn textured_polygons_carry_clut_and_page_in_high_halves() {
    let clut = Clut::try_from(Vertex(1, 2)).unwrap();
    let page = TexPage::try_from(Vertex(3, 1)).unwrap();
    let t = [TexCoord { x: 1, y: 2 }, TexCoord { x: 3, y: 4 }, TexCoord { x: 5, y: 6 }];
    let v = [Vertex(0, 0), Vertex(1, 0), Vertex(0, 1)];
    let p = textured_triangle(v, c(1, 2, 3), t, clut, page);
    assert_eq!(p.packet(), vec![
        0x2403_0201,
        0,
        0x0081_0201,
        1,
        0x0013_0403,
        0x0001_0000,
        0x0000_0605
    ]);
    let t4 = [
        TexCoord { x: 1, y: 2 },
        TexCoord { x: 3, y: 4 },
        TexCoord { x: 5, y: 6 },
        TexCoord { x: 7, y: 8 },
    ];
    let v4 = [Vertex(0, 0), Vertex(1, 0), Vertex(0, 1), Vertex(1, 1)];
    let q = textured_quad(v4, c(1, 2, 3), t4, clut, page);
    assert_eq!(q.packet(), vec![
        0x2C03_0201,
        0,
        0x0081_0201,
        1,
        0x0013_0403,
        0x0001_0000,
        0x0000_0605,
        0x0001_0001,
        0x0000_0807
    ]);
}

#[test]
fn map_replaces_what_the_closure_returns() {
    let v = [Vertex(0, 0), Vertex(1, 0), Vertex(0, 1)];
    let mut s = shaded_triangle(v, [c(1, 0, 0), c(2, 0, 0), c(3, 0, 0)]);
    s.map(|vs, ps| ([vs[2], vs[1], vs[0]], ps));
    assert_eq!(s.packet()[1], 0x0001_0000);
    let clut = Clut::try_from(Vertex(0, 0)).unwrap();
    let page = TexPage::try_from(Vertex(0, 0)).unwrap();
    let t = [TexCoord { x: 0, y: 0 }; 3];
    let mut p = textured_triangle(v, c(1, 2, 3), t, clut, page);
    p.map(|vs, _, pg| (vs, c(9, 9, 9), pg));
    assert_eq!(p.packet()[0], 0x2409_0909);
}

#[test]
fn sending_a_shape_queues_its_words() {
    let mut port = DrawPort::new();
    port.send(&point(Vertex(1, 2), c(1, 1, 1)))
        .send(&rectangle(Vertex(0, 0), Vertex(2, 2), c(0, 0, 0)));
    assert_eq!(port.drain(), vec![0x6801_0101, 0x0002_0001, 0x6000_0000, 0, 0x0002_0002]);
    assert_eq!(port.drain(), Vec::<u32>::new());
}

#[test]
fn empty_shaded_curve_is_the_command_and_terminator() {
    let none: [Vertex; 0] = [];
    assert_eq!(shaded_curve(none, []).packet(), vec![0x5800_0000, 0x5555_5555]);
}
