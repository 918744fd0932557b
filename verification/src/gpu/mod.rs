//! GPU types
use vstd::prelude::*;

pub mod color;
/// Predefined colors
pub mod colors;
pub mod disp_port;
pub mod draw_port;
pub mod framebuffer;
pub mod gp0;
pub mod gp1;
pub mod graphics;
pub mod packed_vector;
pub mod packet;
pub mod prim;
pub mod primitive;
pub mod shapes;
pub mod stat;
pub mod texture;
pub mod vertex;
pub mod vram;

pub use packet::link_list;

use crate::gpu::colors::color_word;
use crate::gpu::draw_port::{DrawPort, GpuPacket};
use crate::gpu::gp1::{cmd, GP1};
use crate::gpu::vertex::vertex_word;
use vstd::std_specs::convert::FromSpec;

verus! {

/// A GPU command byte.
pub type Command = u8;

/// The number of bytes in the GPU buffer.
pub const GPU_BUFFER_SIZE: usize = 64;

/// A color with components ranging from `0` to `0xFF`.
#[derive(Clone, Copy, PartialEq, Eq, Debug, Structural)]
pub struct Color {
    pub red: u8,
    pub green: u8,
    pub blue: u8,
}

/// A color with components ranging from `0` to `0x80`.
///
/// This is used for texture-blended polygons. Note that round-tripping between
/// [`TexColor`] and [`Color`] may not give exact results.
#[derive(Clone, Copy, PartialEq, Eq, Debug, Structural)]
pub struct TexColor {
    pub red: u8,
    pub green: u8,
    pub blue: u8,
}

/// Error for conversions from [`Vertex`] to [`PackedVertex`].
#[derive(Debug, PartialEq, Eq, Clone, Copy, Structural)]
pub enum VertexError {
    /// The x component is too large for the [`PackedVertex`].
    InvalidX,
    /// The y component is too large for the [`PackedVertex`].
    InvalidY,
}

/// An (x, y) tuple representing a vector in VRAM.
#[derive(Clone, Copy, PartialEq, Eq, Debug, Structural)]
pub struct Vertex(pub i16, pub i16);

/// A packed vertex
///
/// This represents two logical values encoded in an `N`-byte array with the
/// following layout.
///
/// bits `0` to `X`: X coordinate
///
/// bits `X+1` to `X+Y`: Y coordinate
#[derive(Clone, Copy, PartialEq, Eq, Debug)]
pub struct PackedVertex<const N: usize, const X: usize, const Y: usize> {
    pub(crate) data: [u8; N],
}

/// A color lookup table attribute
///
/// This is represented as a two-byte packed vertex with the following layout.
///
/// bits `0` to `5`: X coordinate
///
/// bits `6` to `14`: Y coordinate
pub type Clut = PackedVertex<2, 6, 9>;

/// A coordinate within a VRAM texture page.
#[derive(Clone, Copy, PartialEq, Eq, Debug, Structural)]
pub struct TexCoord {
    pub x: u8,
    pub y: u8,
}

/// A VRAM texture page attribute.
///
/// This is represented as a two-byte packed vertex with the following layout
///
/// bits `0` to `3`: texture page X base
///
/// bit `4`: texture page Y base
pub type TexPage = PackedVertex<2, 4, 1>;

/// The GPU DMA direction.
#[derive(Debug, Clone, Copy, PartialEq, Eq, Structural)]
pub enum DMAMode {
    /// Data is transferred from the CPU to GP0.
    GP0,
    /// Data is transferred from GPUREAD to the CPU.
    GPUREAD,
}

impl DMAMode {
    /// The direction's code in the GPU status register: `2` for GP0 and `3`
    /// for GPUREAD.
    pub fn code(self) -> (c: u32)
        ensures
            c == (match self {
                DMAMode::GP0 => 2u32,
                DMAMode::GPUREAD => 3u32,
            }),
    {
        match self {
            DMAMode::GP0 => 2,
            DMAMode::GPUREAD => 3,
        }
    }
}

/// Video display mode.
#[derive(Clone, Copy, PartialEq, Eq, Debug, Structural)]
pub enum VideoMode {
    NTSC,
    PAL,
}

/// Color depth.
#[derive(Clone, Copy, PartialEq, Eq, Structural)]
pub enum Depth {
    /// 15-bit high-color mode
    Bits15,
    /// 24-bit true-color mode
    Bits24,
}

/// Bits per pixel.
#[derive(Clone, Copy, PartialEq, Eq, Debug, Structural)]
pub enum Bpp {
    /// 4 bits per pixel.
    Bits4,
    /// 8 bits per pixel.
    Bits8,
    /// 15 bits per pixel.
    Bits15,
}

/// A physical address in memory: its three low bytes, little-endian.
#[derive(Debug, Clone, Copy, PartialEq, Eq)]
pub struct PhysAddr(pub [u8; 3]);

/// A GPU linked list packet containing a `T`.
///
/// This is essentially a `T` with the address of the next packet in the
/// linked list, if any. Newly created `Packet`s always point to the end of
/// the list. To link an array of `Packet`s together use [`link_list`]. Note
/// that linked `Packet`s don't have to be contiguous in memory and that
/// [`Packet::insert_packet`] may be used for more fine-grained control over
/// packet linking.
#[derive(Debug, Clone, PartialEq, Eq)]
pub struct Packet<T> {
    pub(crate) next: PhysAddr,
    pub(crate) size: u8,
    /// The `T` in the linked list packet.
    pub contents: T,
}

/// Display buffer parameters.
pub struct DispEnv {
    pub(crate) horizontal_range: PackedVertex<3, 12, 12>,
    pub(crate) vertical_range: PackedVertex<3, 10, 10>,
    pub(crate) offset: PackedVertex<3, 10, 9>,
}

/// The horizontal display range for a display `width` pixels wide.
pub open spec fn disp_horizontal_range(width: i16) -> Vertex {
    Vertex(0x260, (0x260 + width * 8) as i16)
}

/// The vertical display range for a video mode: `center - lines / 2` to
/// `center + lines / 2`, with 240 lines about scanline `0x88` for NTSC and 256
/// lines about `0xA3` for PAL.
pub open spec fn disp_vertical_range(video_mode: VideoMode) -> Vertex {
    let (center, range) = match video_mode {
        VideoMode::NTSC => (0x88int, 240int),
        VideoMode::PAL => (0xA3int, 256int),
    };
    Vertex((center - range / 2) as i16, (center + range / 2) as i16)
}

/// A display buffer inside VRAM, with a width the horizontal range can
/// hold, packs in every video mode: [`DispEnv::new`] gives `Ok` for it.
pub proof fn lemma_display_env_packs(offset: (i16, i16), width: i16, video_mode: VideoMode)
    requires
        0 <= offset.0 < 1024,
        0 <= offset.1 < 512,
        0 <= width < 436,
    ensures
        PackedVertex::<3, 10, 9>::pack_spec(Vertex(offset.0, offset.1)) is Ok,
        PackedVertex::<3, 12, 12>::pack_spec(disp_horizontal_range(width)) is Ok,
        PackedVertex::<3, 10, 10>::pack_spec(disp_vertical_range(video_mode)) is Ok,
{
    assert((1u16 << 9usize) == 512u16 && (1u16 << 10usize) == 1024u16 && (1u16 << 12usize)
        == 4096u16) by (bit_vector);
}

/// The display ranges are the screen's size: the vertical range spans 240
/// lines about scanline `0x88` for NTSC and 256 about `0xA3` for PAL, and
/// the horizontal range starts at `0x260` and spans eight clock ticks a
/// pixel.
pub proof fn lemma_display_ranges(width: i16, video_mode: VideoMode)
    requires
        -0x8000 <= 0x260 + width * 8 <= 0x7fff,
    ensures
        disp_horizontal_range(width).0 == 0x260,
        disp_horizontal_range(width).1 - disp_horizontal_range(width).0 == 8 * width,
        video_mode == VideoMode::NTSC ==> disp_vertical_range(video_mode).1 - disp_vertical_range(
            video_mode,
        ).0 == 240 && disp_vertical_range(video_mode).0 + disp_vertical_range(video_mode).1 == 2
            * 0x88,
        video_mode == VideoMode::PAL ==> disp_vertical_range(video_mode).1 - disp_vertical_range(
            video_mode,
        ).0 == 256 && disp_vertical_range(video_mode).0 + disp_vertical_range(video_mode).1 == 2
            * 0xA3,
{
}

impl DispEnv {
    /// The packed horizontal display range.
    pub closed spec fn horizontal(self) -> PackedVertex<3, 12, 12> {
        self.horizontal_range
    }

    /// The packed vertical display range.
    pub closed spec fn vertical(self) -> PackedVertex<3, 10, 10> {
        self.vertical_range
    }

    /// The packed start of the display area in VRAM.
    pub closed spec fn display_offset(self) -> PackedVertex<3, 10, 9> {
        self.offset
    }

    /// Creates a new display buffer at `offset` in VRAM with the specified
    /// `size`.
    ///
    /// The offset, the horizontal range and the vertical range are packed in
    /// that order and the first one that does not fit is reported.
    pub fn new(offset: (i16, i16), size: (i16, i16), video_mode: VideoMode) -> (r: Result<
        Self,
        VertexError,
    >)
        requires
            -0x8000 <= size.0 * 8 <= 0x7fff,
            -0x8000 <= 0x260 + size.0 * 8 <= 0x7fff,
        ensures
            ({
                let o = PackedVertex::<3, 10, 9>::pack_spec(Vertex(offset.0, offset.1));
                let h = PackedVertex::<3, 12, 12>::pack_spec(disp_horizontal_range(size.0));
                let v = PackedVertex::<3, 10, 10>::pack_spec(disp_vertical_range(video_mode));
                &&& o matches Err(e) ==> r == Err::<Self, VertexError>(e)
                &&& o is Ok ==> (h matches Err(e) ==> r == Err::<Self, VertexError>(e))
                &&& (o is Ok && h is Ok) ==> (v matches Err(e) ==> r == Err::<Self, VertexError>(
                    e,
                ))
                &&& (o is Ok && h is Ok && v is Ok) ==> (r matches Ok(env)
                    && env.display_offset() == o->Ok_0 && env.horizontal() == h->Ok_0
                    && env.vertical() == v->Ok_0)
            }),
    {
        let offset = Vertex::new(offset);
        let size = Vertex::new(size);
        let offset = match PackedVertex::<3, 10, 9>::try_from(offset) {
            Ok(p) => p,
            Err(e) => return Err(e),
        };
        let (center, range): (i16, i16) = if video_mode == VideoMode::NTSC {
            (0x88, 240)
        } else {
            (0xA3, 256)
        };
        let ntsc_vrange = Vertex(center - (range / 2), center + (range / 2));
        let hrange = Vertex(0x260, 0x260 + (size.0 * 8));
        let horizontal_range = match PackedVertex::<3, 12, 12>::try_from(hrange) {
            Ok(p) => p,
            Err(e) => return Err(e),
        };
        let vertical_range = match PackedVertex::<3, 10, 10>::try_from(ntsc_vrange) {
            Ok(p) => p,
            Err(e) => return Err(e),
        };
        Ok(DispEnv { horizontal_range, vertical_range, offset })
    }

    /// Sends the display area start, the horizontal range and the vertical
    /// range to `gp1`, in that order.
    pub fn set(&self, gp1: &mut GP1)
        ensures
            final(gp1).sent() == old(gp1).sent() + seq![
                cmd(0x05) | u32::from_spec(self.display_offset()),
                cmd(0x06) | u32::from_spec(self.horizontal()),
                cmd(0x07) | u32::from_spec(self.vertical()),
            ],
    {
        gp1.start_display_area(self.offset).horizontal_range(self.horizontal_range).vertical_range(
            self.vertical_range,
        );
        assert(gp1.sent() =~= old(gp1).sent() + seq![
            cmd(0x05) | u32::from_spec(self.display_offset()),
            cmd(0x06) | u32::from_spec(self.horizontal()),
            cmd(0x07) | u32::from_spec(self.vertical()),
        ]);
    }
}

/// Draw buffer parameters.
pub struct DrawEnv {
    texpage: u16,
    _pad: u8,
    texpage_cmd: Command,
    upper_left: PackedVertex<3, 10, 9>,
    upper_left_cmd: Command,
    lower_right: PackedVertex<3, 10, 9>,
    lower_right_cmd: Command,
    offset: PackedVertex<3, 11, 11>,
    offset_cmd: Command,
    /// The buffer's background color.
    pub bg_color: Color,
    bg_color_cmd: Command,
    bg_offset: Vertex,
    bg_size: Vertex,
}

impl DrawEnv {
    /// The draw-mode word: texture page settings and their command.
    pub closed spec fn texpage_spec(self) -> (u16, Command) {
        (self.texpage, self.texpage_cmd)
    }

    /// The packed upper-left corner of the drawing area and its command.
    pub closed spec fn upper_left_spec(self) -> (PackedVertex<3, 10, 9>, Command) {
        (self.upper_left, self.upper_left_cmd)
    }

    /// The packed lower-right corner of the drawing area and its command.
    pub closed spec fn lower_right_spec(self) -> (PackedVertex<3, 10, 9>, Command) {
        (self.lower_right, self.lower_right_cmd)
    }

    /// The packed drawing offset and its command.
    pub closed spec fn offset_spec(self) -> (PackedVertex<3, 11, 11>, Command) {
        (self.offset, self.offset_cmd)
    }

    /// The padding byte after the draw-mode settings.
    pub closed spec fn pad_byte(self) -> u8 {
        self._pad
    }

    /// The background color.
    pub closed spec fn background_color(self) -> Color {
        self.bg_color
    }

    /// The background fill: its command, offset and size.
    pub closed spec fn background_spec(self) -> (Command, Vertex, Vertex) {
        (self.bg_color_cmd, self.bg_offset, self.bg_size)
    }

    /// Creates a new draw buffer at `offset` in VRAM with the specified `size`.
    /// Background color defaults to black if `bg_color` is `None`.
    ///
    /// The upper-left corner `offset`, the lower-right corner `offset + size`
    /// and the drawing offset are packed in that order and the first one that
    /// does not fit is reported.
    pub fn new(offset: (i16, i16), size: (i16, i16), bg_color: Option<Color>) -> (r: Result<
        Self,
        VertexError,
    >)
        requires
            -0x8000 <= offset.0 + size.0 <= 0x7fff,
            -0x8000 <= offset.1 + size.1 <= 0x7fff,
        ensures
            ({
                let o = Vertex(offset.0, offset.1);
                let s = Vertex(size.0, size.1);
                let ul = PackedVertex::<3, 10, 9>::pack_spec(o);
                let lr = PackedVertex::<3, 10, 9>::pack_spec(Vertex(
                    (o.0 + s.0) as i16,
                    (o.1 + s.1) as i16,
                ));
                let off = PackedVertex::<3, 11, 11>::pack_spec(o);
                &&& ul matches Err(e) ==> r == Err::<Self, VertexError>(e)
                &&& ul is Ok ==> (lr matches Err(e) ==> r == Err::<Self, VertexError>(e))
                &&& (ul is Ok && lr is Ok) ==> (off matches Err(e) ==> r == Err::<
                    Self,
                    VertexError,
                >(e))
                &&& (ul is Ok && lr is Ok && off is Ok) ==> (r matches Ok(env) && env.texpage_spec()
                    == ((1u16 << 10u16) | 10u16, 0xE1u8) && env.upper_left_spec() == (
                    ul->Ok_0,
                    0xE3u8,
                ) && env.lower_right_spec() == (lr->Ok_0, 0xE4u8) && env.offset_spec() == (
                    off->Ok_0,
                    0xE5u8,
                ) && env.pad_byte() == 0 && env.background_color() == (match bg_color {
                    Some(c) => c,
                    None => Color { red: 0, green: 0, blue: 0 },
                }) && env.background_spec() == (0x02u8, o, s))
            }),
    {
        let offset = Vertex::new(offset);
        let size = Vertex::new(size);
        let bg_color = match bg_color {
            Some(c) => c,
            None => colors::black(),
        };
        let upper_left = match PackedVertex::<3, 10, 9>::try_from(offset) {
            Ok(p) => p,
            Err(e) => return Err(e),
        };
        let lower_right = match PackedVertex::<3, 10, 9>::try_from(offset + size) {
            Ok(p) => p,
            Err(e) => return Err(e),
        };
        let packed_offset = match PackedVertex::<3, 11, 11>::try_from(offset) {
            Ok(p) => p,
            Err(e) => return Err(e),
        };
        Ok(DrawEnv {
            texpage_cmd: 0xE1,
            upper_left_cmd: 0xE3,
            lower_right_cmd: 0xE4,
            offset_cmd: 0xE5,
            bg_color_cmd: 0x02,
            texpage: (1 << 10) | 10,
            upper_left,
            lower_right,
            offset: packed_offset,
            bg_color,
            bg_offset: offset,
            bg_size: size,
            _pad: 0,
        })
    }

    /// Sends the draw environment's words to the drawing port.
    pub fn set(&self, port: &mut DrawPort)
        ensures
            final(port).sent() == old(port).sent() + self.words(),
    {
        port.send(self);
    }
}

/// A command word: the command in the top byte, the 24-bit argument below it.
pub open spec fn with_command(arg: u32, cmd: Command) -> u32 {
    arg | ((cmd as u32) << 24u32)
}

/// A command word carries the command in its high byte and the argument
/// below it, unchanged.
pub proof fn lemma_with_command_fields(arg: u32, cmd: Command)
    requires
        arg < 0x100_0000,
    ensures
        with_command(arg, cmd) >> 24u32 == cmd as u32,
        with_command(arg, cmd) & 0xFF_FFFF == arg,
{
    assert(arg < 0x100_0000 ==> (arg | ((cmd as u32) << 24u32)) >> 24u32 == cmd as u32 && (arg | ((
    cmd as u32) << 24u32)) & 0xFF_FFFF == arg) by (bit_vector);
}

impl GpuPacket for DrawEnv {
    /// The environment as it lies in memory, word by word: the draw mode,
    /// the drawing area's corners, the drawing offset, and a fill of the
    /// background.
    open spec fn words(&self) -> Seq<u32> {
        seq![
            (self.texpage_spec().0 as u32) | ((self.pad_byte() as u32) << 16u32) | ((
            self.texpage_spec().1 as u32) << 24u32),
            with_command(u32::from_spec(self.upper_left_spec().0), self.upper_left_spec().1),
            with_command(u32::from_spec(self.lower_right_spec().0), self.lower_right_spec().1),
            with_command(u32::from_spec(self.offset_spec().0), self.offset_spec().1),
            with_command(
                color_word(
                    self.background_color().red,
                    self.background_color().green,
                    self.background_color().blue,
                ),
                self.background_spec().0,
            ),
            vertex_word(self.background_spec().1),
            vertex_word(self.background_spec().2),
        ]
    }

    fn packet(&self) -> (w: Vec<u32>) {
        let w = vec![
            (self.texpage as u32) | ((self._pad as u32) << 16u32) | ((self.texpage_cmd as u32)
                << 24u32),
            u32::from(self.upper_left) | ((self.upper_left_cmd as u32) << 24u32),
            u32::from(self.lower_right) | ((self.lower_right_cmd as u32) << 24u32),
            u32::from(self.offset) | ((self.offset_cmd as u32) << 24u32),
            u32::from(self.bg_color) | ((self.bg_color_cmd as u32) << 24u32),
            u32::from(self.bg_offset),
            u32::from(self.bg_size),
        ];
        assert(w@ =~= self.words());
        w
    }
}

} // verus!
