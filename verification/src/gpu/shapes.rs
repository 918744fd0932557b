//! High-level primitives that turn into GP0 command words.
use vstd::prelude::*;
use crate::gpu::color::{Color, Palette};
use crate::gpu::colors::color_word;
use crate::gpu::draw_port::GpuPacket;
use crate::gpu::prim::{tex, tex_word};
use crate::gpu::vertex::vertex_word;
use crate::gpu::{Clut, TexCoord, TexPage, Vertex};

verus! {

/// The vertices of a polygon.
pub type Polygon<const N: usize> = [Vertex; N];

/// A flat-shaded polygon or line.
pub struct Primitive<const N: usize> {
    vertices: Polygon<N>,
    color: Color,
}

/// A flat-shaded poly-line.
pub struct Curve<const N: usize>(Primitive<N>);

/// A Gouraud-shaded polygon or line.
pub struct ShadedPrimitive<const N: usize> {
    vertices: Polygon<N>,
    palette: Palette<N>,
}

/// A Gouraud-shaded poly-line.
pub struct ShadedCurve<const N: usize>(ShadedPrimitive<N>);

/// A flat-shaded textured polygon.
pub struct TexturedPrimitive<const N: usize> {
    primitive: Primitive<N>,
    tex_coords: [TexCoord; N],
    clut: Clut,
    tex_page: TexPage,
}

/// A monochrome rectangle.
pub struct Rectangle {
    offset: Vertex,
    size: Vertex,
    color: Color,
}

/// A monochrome 1x1 rectangle.
pub struct Point {
    offset: Vertex,
    color: Color,
}

/// A monochrome 8x8 rectangle.
pub struct SmallSquare {
    offset: Vertex,
    color: Color,
}

/// A monochrome 16x16 rectangle.
pub struct MediumSquare {
    offset: Vertex,
    color: Color,
}

/// A command word: the command in the top byte, the color below it.
pub open spec fn command_word(cmd: u32, c: Color) -> u32 {
    (cmd << 24u32) | color_word(c.red, c.green, c.blue)
}

/// The words of a vertex list.
pub open spec fn vertex_words(v: Seq<Vertex>) -> Seq<u32> {
    v.map_values(|x: Vertex| vertex_word(x))
}

/// The word that ends a poly-line.
pub open spec fn terminator() -> u32 {
    0x5555_5555
}

fn cmd_word(cmd: u32, c: Color) -> (w: u32)
    requires
        cmd < 0x100,
    ensures
        w == command_word(cmd, c),
{
    (cmd << 24u32) | u32::from(c)
}

impl<const N: usize> Primitive<N> {
    /// The vertices.
    pub closed spec fn vertices_spec(&self) -> Seq<Vertex> {
        self.vertices@
    }

    /// The color.
    pub closed spec fn color_spec(&self) -> Color {
        self.color
    }
}

impl<const N: usize> ShadedPrimitive<N> {
    /// The vertices.
    pub closed spec fn vertices_spec(&self) -> Seq<Vertex> {
        self.vertices@
    }

    /// The colors of the vertices.
    pub closed spec fn palette_spec(&self) -> Seq<Color> {
        self.palette@
    }
}

impl<const N: usize> Curve<N> {
    /// The vertices, in drawing order.
    pub closed spec fn vertices_spec(&self) -> Seq<Vertex> {
        self.0.vertices@
    }

    /// The color.
    pub closed spec fn color_spec(&self) -> Color {
        self.0.color
    }
}

impl<const N: usize> ShadedCurve<N> {
    /// The vertices, in drawing order.
    pub closed spec fn vertices_spec(&self) -> Seq<Vertex> {
        self.0.vertices@
    }

    /// The colors of the vertices.
    pub closed spec fn palette_spec(&self) -> Seq<Color> {
        self.0.palette@
    }
}

impl<const N: usize> ShadedPrimitive<N> {
    /// Replaces the vertices and colors by what `f` makes of them.
    pub fn map<F>(&mut self, f: F)
        where
            F: Fn(Polygon<N>, Palette<N>) -> (Polygon<N>, Palette<N>),
        requires
            forall|v: Polygon<N>, p: Palette<N>| f.requires((v, p)),
        ensures
            f.ensures(
                (old(self).vertices_array(), old(self).palette_array()),
                (final(self).vertices_array(), final(self).palette_array()),
            ),
    {
        let (vertices, palette) = f(self.vertices, self.palette);
        self.vertices = vertices;
        self.palette = palette;
    }

    /// The vertices.
    pub closed spec fn vertices_array(&self) -> Polygon<N> {
        self.vertices
    }

    /// The colors of the vertices.
    pub closed spec fn palette_array(&self) -> Palette<N> {
        self.palette
    }
}

impl<const N: usize> TexturedPrimitive<N> {
    /// Replaces the vertices, the color and the texture page by what `f`
    /// makes of them.
    pub fn map<F>(&mut self, f: F)
        where
            F: Fn(Polygon<N>, Color, TexPage) -> (Polygon<N>, Color, TexPage),
        requires
            forall|v: Polygon<N>, c: Color, t: TexPage| f.requires((v, c, t)),
        ensures
            f.ensures(
                (old(self).vertices_array(), old(self).color_spec(), old(self).tex_page_spec()),
                (final(self).vertices_array(), final(self).color_spec(), final(self).tex_page_spec()),
            ),
            final(self).tex_coords_spec() == old(self).tex_coords_spec(),
            final(self).clut_spec() == old(self).clut_spec(),
    {
        let (vertices, color, tex_page) = f(self.primitive.vertices, self.primitive.color, self.tex_page);
        self.primitive.vertices = vertices;
        self.primitive.color = color;
        self.tex_page = tex_page;
    }

    /// The vertices.
    pub closed spec fn vertices_spec(&self) -> Seq<Vertex> {
        self.primitive.vertices@
    }

    /// The color.
    pub closed spec fn color_spec(&self) -> Color {
        self.primitive.color
    }

    /// The vertices, as an array.
    pub closed spec fn vertices_array(&self) -> Polygon<N> {
        self.primitive.vertices
    }

    /// The texture coordinates of the vertices.
    pub closed spec fn tex_coords_spec(&self) -> Seq<TexCoord> {
        self.tex_coords@
    }

    /// The color lookup table.
    pub closed spec fn clut_spec(&self) -> Clut {
        self.clut
    }

    /// The texture page.
    pub closed spec fn tex_page_spec(&self) -> TexPage {
        self.tex_page
    }
}

impl Rectangle {
    /// The top-left corner.
    pub closed spec fn offset_spec(&self) -> Vertex {
        self.offset
    }

    /// The width and height.
    pub closed spec fn size_spec(&self) -> Vertex {
        self.size
    }

    /// The color.
    pub closed spec fn color_spec(&self) -> Color {
        self.color
    }
}

impl Point {
    /// The top-left corner.
    pub closed spec fn offset_spec(&self) -> Vertex {
        self.offset
    }

    /// The color.
    pub closed spec fn color_spec(&self) -> Color {
        self.color
    }
}

impl SmallSquare {
    /// The top-left corner.
    pub closed spec fn offset_spec(&self) -> Vertex {
        self.offset
    }

    /// The color.
    pub closed spec fn color_spec(&self) -> Color {
        self.color
    }
}

impl MediumSquare {
    /// The top-left corner.
    pub closed spec fn offset_spec(&self) -> Vertex {
        self.offset
    }

    /// The color.
    pub closed spec fn color_spec(&self) -> Color {
        self.color
    }
}

/// A flat-shaded triangle.
pub fn triangle(vertices: [Vertex; 3], color: Color) -> (p: Primitive<3>)
    ensures
        p.vertices_spec() == vertices@,
        p.color_spec() == color,
{
    Primitive::<3> { vertices, color }
}

/// A flat-shaded quad.
pub fn quad(vertices: [Vertex; 4], color: Color) -> (p: Primitive<4>)
    ensures
        p.vertices_spec() == vertices@,
        p.color_spec() == color,
{
    Primitive::<4> { vertices, color }
}

/// A flat-shaded line.
pub fn line(vertices: [Vertex; 2], color: Color) -> (p: Primitive<2>)
    ensures
        p.vertices_spec() == vertices@,
        p.color_spec() == color,
{
    Primitive::<2> { vertices, color }
}

/// A Gouraud-shaded triangle.
pub fn shaded_triangle(vertices: [Vertex; 3], palette: Palette<3>) -> (p: ShadedPrimitive<3>)
    ensures
        p.vertices_spec() == vertices@,
        p.palette_spec() == palette@,
{
    ShadedPrimitive::<3> { vertices, palette }
}

/// A Gouraud-shaded quad.
pub fn shaded_quad(vertices: [Vertex; 4], palette: Palette<4>) -> (p: ShadedPrimitive<4>)
    ensures
        p.vertices_spec() == vertices@,
        p.palette_spec() == palette@,
{
    ShadedPrimitive::<4> { vertices, palette }
}

/// A Gouraud-shaded line.
pub fn shaded_line(vertices: [Vertex; 2], palette: Palette<2>) -> (p: ShadedPrimitive<2>)
    ensures
        p.vertices_spec() == vertices@,
        p.palette_spec() == palette@,
{
    ShadedPrimitive::<2> { vertices, palette }
}

/// A flat-shaded poly-line through `vertices`.
pub fn curve<const N: usize>(vertices: [Vertex; N], color: Color) -> (c: Curve<N>)
    ensures
        c.vertices_spec() == vertices@,
        c.color_spec() == color,
{
    Curve::<N>(Primitive::<N> { vertices, color })
}

/// A Gouraud-shaded poly-line through `vertices`.
pub fn shaded_curve<const N: usize>(vertices: [Vertex; N], palette: Palette<N>) -> (c: ShadedCurve<N>)
    ensures
        c.vertices_spec() == vertices@,
        c.palette_spec() == palette@,
{
    ShadedCurve::<N>(ShadedPrimitive::<N> { vertices, palette })
}

/// A monochrome rectangle at `offset`, `size` pixels large.
pub fn rectangle(offset: Vertex, size: Vertex, color: Color) -> (r: Rectangle)
    ensures
        r.words() == seq![command_word(0x60, color), vertex_word(offset), vertex_word(size)],
{
    Rectangle { offset, size, color }
}

/// A 1x1 point.
pub fn point(offset: Vertex, color: Color) -> (p: Point)
    ensures
        p.words() == seq![command_word(0x68, color), vertex_word(offset)],
{
    Point { offset, color }
}

/// An 8x8 square.
pub fn small_square(offset: Vertex, color: Color) -> (p: SmallSquare)
    ensures
        p.words() == seq![command_word(0x70, color), vertex_word(offset)],
{
    SmallSquare { offset, color }
}

/// A 16x16 square.
pub fn medium_square(offset: Vertex, color: Color) -> (p: MediumSquare)
    ensures
        p.words() == seq![command_word(0x78, color), vertex_word(offset)],
{
    MediumSquare { offset, color }
}

/// A flat-shaded textured triangle.
pub fn textured_triangle(
    vertices: [Vertex; 3],
    color: Color,
    tex_coords: [TexCoord; 3],
    clut: Clut,
    tex_page: TexPage,
) -> (p: TexturedPrimitive<3>)
    ensures
        p.vertices_spec() == vertices@,
        p.color_spec() == color,
        p.tex_coords_spec() == tex_coords@,
        p.clut_spec() == clut,
        p.tex_page_spec() == tex_page,
{
    TexturedPrimitive::<3> { primitive: Primitive::<3> { vertices, color }, tex_coords, clut, tex_page }
}

/// A flat-shaded textured quad.
pub fn textured_quad(
    vertices: [Vertex; 4],
    color: Color,
    tex_coords: [TexCoord; 4],
    clut: Clut,
    tex_page: TexPage,
) -> (p: TexturedPrimitive<4>)
    ensures
        p.vertices_spec() == vertices@,
        p.color_spec() == color,
        p.tex_coords_spec() == tex_coords@,
        p.clut_spec() == clut,
        p.tex_page_spec() == tex_page,
{
    TexturedPrimitive::<4> { primitive: Primitive::<4> { vertices, color }, tex_coords, clut, tex_page }
}

impl GpuPacket for Primitive<3> {
    open spec fn words(&self) -> Seq<u32> {
        seq![command_word(0x20, self.color_spec())] + vertex_words(self.vertices_spec())
    }

    fn packet(&self) -> (w: Vec<u32>) {
        let w = vec![
            cmd_word(0x20, self.color),
            u32::from(self.vertices[0]),
            u32::from(self.vertices[1]),
            u32::from(self.vertices[2]),
        ];
        assert(w@ =~= self.words());
        w
    }
}

impl GpuPacket for Primitive<4> {
    open spec fn words(&self) -> Seq<u32> {
        seq![command_word(0x28, self.color_spec())] + vertex_words(self.vertices_spec())
    }

    fn packet(&self) -> (w: Vec<u32>) {
        let w = vec![
            cmd_word(0x28, self.color),
            u32::from(self.vertices[0]),
            u32::from(self.vertices[1]),
            u32::from(self.vertices[2]),
            u32::from(self.vertices[3]),
        ];
        assert(w@ =~= self.words());
        w
    }
}

impl GpuPacket for Primitive<2> {
    open spec fn words(&self) -> Seq<u32> {
        seq![command_word(0x40, self.color_spec())] + vertex_words(self.vertices_spec())
    }

    fn packet(&self) -> (w: Vec<u32>) {
        let w = vec![
            cmd_word(0x40, self.color),
            u32::from(self.vertices[0]),
            u32::from(self.vertices[1]),
        ];
        assert(w@ =~= self.words());
        w
    }
}

/// The words of a Gouraud-shaded primitive: each vertex preceded by its
/// color, the first color carrying the command.
pub open spec fn shaded_words(cmd: u32, v: Seq<Vertex>, p: Seq<Color>) -> Seq<u32> {
    Seq::new(
        2 * v.len(),
        |i: int|
            if i % 2 == 1 {
                vertex_word(v[i / 2])
            } else if i == 0 {
                command_word(cmd, p[0])
            } else {
                color_word(p[i / 2].red, p[i / 2].green, p[i / 2].blue)
            },
    )
}

impl GpuPacket for ShadedPrimitive<3> {
    open spec fn words(&self) -> Seq<u32> {
        shaded_words(0x30, self.vertices_spec(), self.palette_spec())
    }

    fn packet(&self) -> (w: Vec<u32>) {
        let w = vec![
            cmd_word(0x30, self.palette[0]),
            u32::from(self.vertices[0]),
            u32::from(self.palette[1]),
            u32::from(self.vertices[1]),
            u32::from(self.palette[2]),
            u32::from(self.vertices[2]),
        ];
        assert(w@ =~= self.words());
        w
    }
}

impl GpuPacket for ShadedPrimitive<4> {
    open spec fn words(&self) -> Seq<u32> {
        shaded_words(0x38, self.vertices_spec(), self.palette_spec())
    }

    fn packet(&self) -> (w: Vec<u32>) {
        let w = vec![
            cmd_word(0x38, self.palette[0]),
            u32::from(self.vertices[0]),
            u32::from(self.palette[1]),
            u32::from(self.vertices[1]),
            u32::from(self.palette[2]),
            u32::from(self.vertices[2]),
            u32::from(self.palette[3]),
            u32::from(self.vertices[3]),
        ];
        assert(w@ =~= self.words());
        w
    }
}

impl GpuPacket for ShadedPrimitive<2> {
    open spec fn words(&self) -> Seq<u32> {
        shaded_words(0x50, self.vertices_spec(), self.palette_spec())
    }

    fn packet(&self) -> (w: Vec<u32>) {
        let w = vec![
            cmd_word(0x50, self.palette[0]),
            u32::from(self.vertices[0]),
            u32::from(self.palette[1]),
            u32::from(self.vertices[1]),
        ];
        assert(w@ =~= self.words());
        w
    }
}

impl<const N: usize> GpuPacket for Curve<N> {
    open spec fn words(&self) -> Seq<u32> {
        seq![command_word(0x48, self.color_spec())] + vertex_words(self.vertices_spec()).push(
            terminator(),
        )
    }

    fn packet(&self) -> (w: Vec<u32>) {
        let mut ar: Vec<u32> = Vec::new();
        ar.push(cmd_word(0x48, self.0.color));
        let mut i: usize = 0;
        while i < N
            invariant
                i <= N,
                self.0.vertices@.len() == N,
                ar@ =~= seq![command_word(0x48, self.color_spec())] + vertex_words(
                    self.vertices_spec().take(i as int),
                ),
            decreases N - i,
        {
            ar.push(u32::from(self.0.vertices[i]));
            assert(self.vertices_spec().take(i + 1) =~= self.vertices_spec().take(i as int).push(
                self.vertices_spec()[i as int],
            ));
            i += 1;
        }
        ar.push(0x5555_5555);
        assert(self.vertices_spec().take(N as int) =~= self.vertices_spec());
        assert(ar@ =~= self.words());
        ar
    }
}

/// The words of a Gouraud-shaded poly-line: each vertex preceded by its
/// color, the first color carrying the command, and the terminator written
/// over the word at index `N + 1`. A line without vertices is the command
/// alone, then the terminator.
pub open spec fn shaded_curve_words(v: Seq<Vertex>, p: Seq<Color>) -> Seq<u32> {
    if v.len() == 0 {
        seq![0x5800_0000u32, terminator()]
    } else {
        shaded_words(0x58, v, p).push(0).update(v.len() + 1int, terminator())
    }
}

impl<const N: usize> GpuPacket for ShadedCurve<N> {
    open spec fn words(&self) -> Seq<u32> {
        shaded_curve_words(self.vertices_spec(), self.palette_spec())
    }

    fn packet(&self) -> (w: Vec<u32>) {
        if N == 0 {
            let w = vec![0x5800_0000u32, 0x5555_5555u32];
            assert(w@ =~= self.words());
            return w;
        }
        let ghost v = self.vertices_spec();
        let ghost p = self.palette_spec();
        let mut ar: Vec<u32> = Vec::new();
        let mut i: usize = 0;
        while i < N
            invariant
                i <= N,
                v == self.vertices_spec(),
                p == self.palette_spec(),
                v.len() == N,
                p.len() == N,
                ar@.len() == 2 * i,
                forall|j: int| 0 <= j < 2 * i ==> ar@[j] == #[trigger] shaded_words(0x58, v, p)[j],
            decreases N - i,
        {
            let c = if i == 0 {
                cmd_word(0x58, self.0.palette[0])
            } else {
                u32::from(self.0.palette[i])
            };
            ar.push(c);
            ar.push(u32::from(self.0.vertices[i]));
            proof {
                let k = i as int;
                assert((2 * k) % 2 == 0 && (2 * k) / 2 == k) by (nonlinear_arith);
                assert((2 * k + 1) % 2 == 1 && (2 * k + 1) / 2 == k) by (nonlinear_arith);
                assert(ar@[2 * k] == shaded_words(0x58, v, p)[2 * k]);
                assert(ar@[2 * k + 1] == shaded_words(0x58, v, p)[2 * k + 1]);
            }
            i += 1;
        }
        ar.push(0);
        let len = ar.len();
        assert(N + 1 < len);
        ar.set(N + 1, 0x5555_5555);
        assert(ar@ =~= self.words());
        ar
    }
}

impl GpuPacket for TexturedPrimitive<3> {
    /// The command, then each vertex followed by its texture coordinate, the
    /// first carrying the color lookup table and the second the texture page
    /// in its high half.
    open spec fn words(&self) -> Seq<u32> {
        seq![
            command_word(0x24, self.color_spec()),
            vertex_word(self.vertices_spec()[0]),
            tex_word(self.tex_coords_spec()[0], self.clut_spec().word()),
            vertex_word(self.vertices_spec()[1]),
            tex_word(self.tex_coords_spec()[1], self.tex_page_spec().word()),
            vertex_word(self.vertices_spec()[2]),
            tex_word(self.tex_coords_spec()[2], 0),
        ]
    }

    fn packet(&self) -> (w: Vec<u32>) {
        let w = vec![
            cmd_word(0x24, self.primitive.color),
            u32::from(self.primitive.vertices[0]),
            tex(self.tex_coords[0], u32::from(self.clut)),
            u32::from(self.primitive.vertices[1]),
            tex(self.tex_coords[1], u32::from(self.tex_page)),
            u32::from(self.primitive.vertices[2]),
            tex(self.tex_coords[2], 0),
        ];
        assert(w@ =~= self.words());
        w
    }
}

impl GpuPacket for TexturedPrimitive<4> {
    /// The command, then each vertex followed by its texture coordinate, the
    /// first carrying the color lookup table and the second the texture page
    /// in its high half.
    open spec fn words(&self) -> Seq<u32> {
        seq![
            command_word(0x2C, self.color_spec()),
            vertex_word(self.vertices_spec()[0]),
            tex_word(self.tex_coords_spec()[0], self.clut_spec().word()),
            vertex_word(self.vertices_spec()[1]),
            tex_word(self.tex_coords_spec()[1], self.tex_page_spec().word()),
            vertex_word(self.vertices_spec()[2]),
            tex_word(self.tex_coords_spec()[2], 0),
            vertex_word(self.vertices_spec()[3]),
            tex_word(self.tex_coords_spec()[3], 0),
        ]
    }

    fn packet(&self) -> (w: Vec<u32>) {
        let w = vec![
            cmd_word(0x2C, self.primitive.color),
            u32::from(self.primitive.vertices[0]),
            tex(self.tex_coords[0], u32::from(self.clut)),
            u32::from(self.primitive.vertices[1]),
            tex(self.tex_coords[1], u32::from(self.tex_page)),
            u32::from(self.primitive.vertices[2]),
            tex(self.tex_coords[2], 0),
            u32::from(self.primitive.vertices[3]),
            tex(self.tex_coords[3], 0),
        ];
        assert(w@ =~= self.words());
        w
    }
}

impl GpuPacket for Rectangle {
    open spec fn words(&self) -> Seq<u32> {
        seq![command_word(0x60, self.color_spec()), vertex_word(self.offset_spec()), vertex_word(self.size_spec())]
    }

    fn packet(&self) -> (w: Vec<u32>) {
        let w = vec![cmd_word(0x60, self.color), u32::from(self.offset), u32::from(self.size)];
        assert(w@ =~= self.words());
        w
    }
}

impl GpuPacket for Point {
    open spec fn words(&self) -> Seq<u32> {
        seq![command_word(0x68, self.color_spec()), vertex_word(self.offset_spec())]
    }

    fn packet(&self) -> (w: Vec<u32>) {
        let w = vec![cmd_word(0x68, self.color), u32::from(self.offset)];
        assert(w@ =~= self.words());
        w
    }
}

impl GpuPacket for SmallSquare {
    open spec fn words(&self) -> Seq<u32> {
        seq![command_word(0x70, self.color_spec()), vertex_word(self.offset_spec())]
    }

    fn packet(&self) -> (w: Vec<u32>) {
        let w = vec![cmd_word(0x70, self.color), u32::from(self.offset)];
        assert(w@ =~= self.words());
        w
    }
}

impl GpuPacket for MediumSquare {
    open spec fn words(&self) -> Seq<u32> {
        seq![command_word(0x78, self.color_spec()), vertex_word(self.offset_spec())]
    }

    fn packet(&self) -> (w: Vec<u32>) {
        let w = vec![cmd_word(0x78, self.color), u32::from(self.offset)];
        assert(w@ =~= self.words());
        w
    }
}


/// A command word opens with its command in the high byte, the color in
/// the low three bytes.
pub proof fn lemma_command_word_fields(cmd: u32, c: Color)
    requires
        cmd < 0x100,
    ensures
        command_word(cmd, c) >> 24u32 == cmd,
        command_word(cmd, c) & 0x00FF_FFFF == color_word(c.red, c.green, c.blue),
{
    let (r, g, b) = (c.red, c.green, c.blue);
    crate::gpu::colors::lemma_color_word(r, g, b);
    assert(cmd < 0x100 ==> ((cmd << 24u32) | ((r as u32) | ((g as u32) << 8u32) | ((b as u32)
        << 16u32))) >> 24u32 == cmd && ((cmd << 24u32) | ((r as u32) | ((g as u32) << 8u32) | ((
    b as u32) << 16u32))) & 0x00FF_FFFF == (r as u32) | ((g as u32) << 8u32) | ((b as u32)
        << 16u32)) by (bit_vector);
}

/// The monochrome shapes are sent as the GPU reads them: the command
/// (`0x20` for a triangle, `0x28` for a quad, `0x40` for a line) with the
/// color, then each vertex in order.
pub proof fn lemma_flat_shape_layouts(t: Primitive<3>, q: Primitive<4>, l: Primitive<2>)
    ensures
        t.words().len() == 4 && t.words()[0] == command_word(0x20, t.color_spec()),
        q.words().len() == 5 && q.words()[0] == command_word(0x28, q.color_spec()),
        l.words().len() == 3 && l.words()[0] == command_word(0x40, l.color_spec()),
        forall|k: int| 0 <= k < 3 ==> t.words()[1 + k] == vertex_word(#[trigger] t.vertices_spec()[k]),
        forall|k: int| 0 <= k < 4 ==> q.words()[1 + k] == vertex_word(#[trigger] q.vertices_spec()[k]),
        forall|k: int| 0 <= k < 2 ==> l.words()[1 + k] == vertex_word(#[trigger] l.vertices_spec()[k]),
{
}

/// The Gouraud-shaded shapes are sent as the GPU reads them: each vertex in
/// order preceded by its color, the first color with the command (`0x30`
/// for a triangle, `0x38` for a quad, `0x50` for a line).
pub proof fn lemma_shaded_shape_layouts(
    t: ShadedPrimitive<3>,
    q: ShadedPrimitive<4>,
    l: ShadedPrimitive<2>,
)
    ensures
        t.words().len() == 6 && t.words()[0] == command_word(0x30, t.palette_spec()[0]),
        q.words().len() == 8 && q.words()[0] == command_word(0x38, q.palette_spec()[0]),
        l.words().len() == 4 && l.words()[0] == command_word(0x50, l.palette_spec()[0]),
        forall|k: int|
            0 <= k < 3 ==> t.words()[2 * k + 1] == vertex_word(#[trigger] t.vertices_spec()[k]) && (
            k > 0 ==> t.words()[2 * k] == color_word(
                t.palette_spec()[k].red,
                t.palette_spec()[k].green,
                t.palette_spec()[k].blue,
            )),
        forall|k: int|
            0 <= k < 4 ==> q.words()[2 * k + 1] == vertex_word(#[trigger] q.vertices_spec()[k]) && (
            k > 0 ==> q.words()[2 * k] == color_word(
                q.palette_spec()[k].red,
                q.palette_spec()[k].green,
                q.palette_spec()[k].blue,
            )),
        forall|k: int|
            0 <= k < 2 ==> l.words()[2 * k + 1] == vertex_word(#[trigger] l.vertices_spec()[k]) && (
            k > 0 ==> l.words()[2 * k] == color_word(
                l.palette_spec()[k].red,
                l.palette_spec()[k].green,
                l.palette_spec()[k].blue,
            )),
{
    assert forall|k: int| 0 <= k < 3 implies t.words()[2 * k + 1] == vertex_word(
        #[trigger] t.vertices_spec()[k],
    ) && (k > 0 ==> t.words()[2 * k] == color_word(
        t.palette_spec()[k].red,
        t.palette_spec()[k].green,
        t.palette_spec()[k].blue,
    )) by {
        assert((2 * k + 1) % 2 == 1 && (2 * k + 1) / 2 == k && (2 * k) % 2 == 0 && (2 * k) / 2 == k)
            by (nonlinear_arith)
            requires
                0 <= k,
        ;
    }
    assert forall|k: int| 0 <= k < 4 implies q.words()[2 * k + 1] == vertex_word(
        #[trigger] q.vertices_spec()[k],
    ) && (k > 0 ==> q.words()[2 * k] == color_word(
        q.palette_spec()[k].red,
        q.palette_spec()[k].green,
        q.palette_spec()[k].blue,
    )) by {
        assert((2 * k + 1) % 2 == 1 && (2 * k + 1) / 2 == k && (2 * k) % 2 == 0 && (2 * k) / 2 == k)
            by (nonlinear_arith)
            requires
                0 <= k,
        ;
    }
    assert forall|k: int| 0 <= k < 2 implies l.words()[2 * k + 1] == vertex_word(
        #[trigger] l.vertices_spec()[k],
    ) && (k > 0 ==> l.words()[2 * k] == color_word(
        l.palette_spec()[k].red,
        l.palette_spec()[k].green,
        l.palette_spec()[k].blue,
    )) by {
        assert((2 * k + 1) % 2 == 1 && (2 * k + 1) / 2 == k && (2 * k) % 2 == 0 && (2 * k) / 2 == k)
            by (nonlinear_arith)
            requires
                0 <= k,
        ;
    }
}

/// The textured shapes are sent as the GPU reads them: the command (`0x24`
/// for a triangle, `0x2C` for a quad) with the color, then each vertex in
/// order followed by its texture coordinate, the first coordinate carrying
/// the color lookup table and the second the texture page.
pub proof fn lemma_textured_shape_layouts(t: TexturedPrimitive<3>, q: TexturedPrimitive<4>)
    ensures
        t.words().len() == 7 && t.words()[0] == command_word(0x24, t.color_spec()),
        q.words().len() == 9 && q.words()[0] == command_word(0x2C, q.color_spec()),
        forall|k: int|
            0 <= k < 3 ==> t.words()[1 + 2 * k] == vertex_word(#[trigger] t.vertices_spec()[k])
                && t.words()[2 + 2 * k] == tex_word(
                t.tex_coords_spec()[k],
                seq![t.clut_spec().word(), t.tex_page_spec().word(), 0][k],
            ),
        forall|k: int|
            0 <= k < 4 ==> q.words()[1 + 2 * k] == vertex_word(#[trigger] q.vertices_spec()[k])
                && q.words()[2 + 2 * k] == tex_word(
                q.tex_coords_spec()[k],
                seq![q.clut_spec().word(), q.tex_page_spec().word(), 0, 0][k],
            ),
{
}

/// The rectangles are sent as the GPU reads them: the command (`0x60` for
/// any size, `0x68` for a dot, `0x70` for 8 by 8, `0x78` for 16 by 16) with
/// the color, then the top left corner, then the size where it has one.
pub proof fn lemma_rectangle_shape_layouts(r: Rectangle, p: Point, s: SmallSquare, m: MediumSquare)
    ensures
        r.words() == seq![
            command_word(0x60, r.color_spec()),
            vertex_word(r.offset_spec()),
            vertex_word(r.size_spec()),
        ],
        p.words() == seq![command_word(0x68, p.color_spec()), vertex_word(p.offset_spec())],
        s.words() == seq![command_word(0x70, s.color_spec()), vertex_word(s.offset_spec())],
        m.words() == seq![command_word(0x78, m.color_spec()), vertex_word(m.offset_spec())],
{
}

/// A flat-shaded poly-line is sent as the GPU reads it: the command `0x48`
/// with the color, each vertex in order, then the terminator.
pub proof fn lemma_curve_layout<const N: usize>(c: Curve<N>)
    ensures
        c.words().len() == N + 2,
        c.words()[0] == command_word(0x48, c.color_spec()),
        forall|k: int| 0 <= k < N ==> c.words()[1 + k] == vertex_word(#[trigger] c.vertices_spec()[k]),
        c.words()[N + 1] == terminator(),
{
}

} // verus!
