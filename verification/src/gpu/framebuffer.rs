//! A double-buffered framebuffer: one buffer is shown while the other is
//! drawn into, and `swap` exchanges their roles.
use vstd::prelude::*;
use crate::gpu::color::Color;
use crate::gpu::disp_port::{
    display_word, lemma_display_word_fields, lemma_mode_word_reads_back, mode_depth, mode_hres,
    mode_interlace, mode_vmode, mode_vres, mode_word, valid_hres, valid_vres, Depth, DispPort, Vmode,
};
use crate::gpu::draw_port::{attribute_word, DrawPort, GpuPacket};
use crate::gpu::shapes::{command_word, rectangle};
use crate::gpu::vertex::{vertex_add, vertex_add_fits, vertex_word};
use crate::gpu::Vertex;

verus! {

enum Buffer {
    One,
    Two,
}

/// How the display is driven.
pub struct Attributes {
    /// The video standard.
    pub mode: Vmode,
    /// The display color depth.
    pub color_depth: Depth,
    /// Whether the display is interlaced.
    pub interlacing: bool,
}

/// Two buffers in VRAM, one shown and one drawn into.
pub struct Framebuffer {
    display: Buffer,
    buffers: (Vertex, Vertex),
    res: Vertex,
}

/// The left edge of the display range on the screen, in GPU clock ticks.
pub open spec fn h_offset() -> i16 {
    0x248
}

/// The middle of the display range on the screen, in scanlines.
pub open spec fn v_middle() -> i16 {
    0x88
}

/// The drawing-port words that make `buffer` the drawing area for a screen
/// `res` pixels large.
pub open spec fn draw_area_words(buffer: Vertex, res: Vertex) -> Seq<u32> {
    seq![
        attribute_word(0xE3, buffer, 10),
        attribute_word(0xE4, vertex_add(buffer, res), 10),
        attribute_word(0xE5, buffer, 11),
    ]
}

/// The drawing-port words that clear a screen `res` pixels large to black.
pub open spec fn clear_words(res: Vertex) -> Seq<u32> {
    seq![
        command_word(0x60, Color { red: 0, green: 0, blue: 0 }),
        vertex_word(Vertex(0, 0)),
        vertex_word(res),
    ]
}

/// The display-port word that shows the buffer at `buffer`.
pub open spec fn show_word(buffer: Vertex) -> u32 {
    display_word(0x05, 0x3ff, 0x1ff, 10, buffer.0, buffer.1)
}

/// The display-port words that set up a screen `res` pixels large.
pub open spec fn screen_words(res: Vertex, mode: Vmode, depth: Depth, interlace: bool) -> Seq<u32> {
    seq![
        display_word(0x06, 0xfff, 0xfff, 12, h_offset(), (h_offset() + res.0 * 8) as i16),
        display_word(0x07, 0x3ff, 0x3ff, 10, (v_middle() - res.1 / 2) as i16, (v_middle() + res.1 / 2) as i16),
        mode_word(res.0, res.1, mode, depth, interlace),
    ]
}

/// `res` is a display resolution that the GPU supports.
pub open spec fn valid_res(res: Vertex) -> bool {
    valid_hres(res.0) && valid_vres(res.1)
}

impl Framebuffer {
    /// Whether the first buffer is the one shown.
    pub closed spec fn shows_first(&self) -> bool {
        self.display is One
    }

    /// The top-left corners of the two buffers in VRAM.
    pub closed spec fn buffers_spec(&self) -> (Vertex, Vertex) {
        self.buffers
    }

    /// The screen resolution.
    pub closed spec fn res_spec(&self) -> Vertex {
        self.res
    }

    /// The buffer shown.
    pub open spec fn shown(&self) -> Vertex {
        if self.shows_first() {
            self.buffers_spec().0
        } else {
            self.buffers_spec().1
        }
    }

    /// The buffer drawn into.
    pub open spec fn drawn(&self) -> Vertex {
        if self.shows_first() {
            self.buffers_spec().1
        } else {
            self.buffers_spec().0
        }
    }

    /// Both buffers, moved by the resolution, stay within `i16`.
    pub open spec fn fits(&self) -> bool {
        &&& vertex_add_fits(self.buffers_spec().0, self.res_spec())
        &&& vertex_add_fits(self.buffers_spec().1, self.res_spec())
    }

    /// Sets up the display for a screen `res` pixels large, with the buffers
    /// at `one` and `two`, and shows the first while drawing into the second.
    /// Without `attr` the display is NTSC, 15-bit and not interlaced.
    pub fn new(
        draw_port: &mut DrawPort,
        disp_port: &mut DispPort,
        one: Vertex,
        two: Vertex,
        res: Vertex,
        attr: Option<Attributes>,
    ) -> (fb: Self)
        requires
            valid_res(res),
            vertex_add_fits(one, res),
            vertex_add_fits(two, res),
        ensures
            fb.shows_first(),
            fb.buffers_spec() == (one, two),
            fb.res_spec() == res,
            fb.fits(),
            final(disp_port).sent() == old(disp_port).sent() + (match attr {
                Some(a) => screen_words(res, a.mode, a.color_depth, a.interlacing),
                None => screen_words(res, Vmode::NTSC, Depth::Lo, false),
            }) + seq![show_word(one), 0x0300_0000u32],
            final(draw_port).sent() == old(draw_port).sent() + draw_area_words(two, res)
                + clear_words(res),
    {
        let attr = match attr {
            Some(a) => a,
            None => Attributes { mode: Vmode::NTSC, color_depth: Depth::Lo, interlacing: false },
        };
        let mut fb = Framebuffer { display: Buffer::One, buffers: (one, two), res };
        let hoffset: i16 = 0x248;
        let vmid: i16 = 0x88;
        disp_port.horizontal(hoffset, hoffset + (fb.res.x() * 8)).vertical(
            vmid - (fb.res.y() / 2),
            vmid + (fb.res.y() / 2),
        ).mode(fb.res.x(), fb.res.y(), attr.mode, attr.color_depth, attr.interlacing);
        fb.draw(draw_port, Buffer::Two);
        fb.display(draw_port, disp_port, Buffer::One);
        disp_port.on();
        assert(disp_port.sent() =~= old(disp_port).sent() + screen_words(
            res,
            attr.mode,
            attr.color_depth,
            attr.interlacing,
        ) + seq![show_word(one), 0x0300_0000u32]);
        assert(draw_port.sent() =~= old(draw_port).sent() + draw_area_words(two, res)
            + clear_words(res));
        fb
    }

    /// Shows the buffer that was drawn into, and makes the one that was shown
    /// the drawing area, cleared to black.
    pub fn swap(&mut self, draw_port: &mut DrawPort, disp_port: &mut DispPort)
        requires
            old(self).fits(),
        ensures
            final(self).shows_first() == !old(self).shows_first(),
            final(self).buffers_spec() == old(self).buffers_spec(),
            final(self).res_spec() == old(self).res_spec(),
            final(self).fits(),
            final(self).shown() == old(self).drawn(),
            final(self).drawn() == old(self).shown(),
            final(draw_port).sent() == old(draw_port).sent() + draw_area_words(
                old(self).shown(),
                old(self).res_spec(),
            ) + clear_words(old(self).res_spec()),
            final(disp_port).sent() == old(disp_port).sent().push(show_word(old(self).drawn())),
    {
        match self.display {
            Buffer::One => {
                self.display = Buffer::Two;
                self.draw(draw_port, Buffer::One);
                self.display(draw_port, disp_port, Buffer::Two);
            },
            Buffer::Two => {
                self.display = Buffer::One;
                self.draw(draw_port, Buffer::Two);
                self.display(draw_port, disp_port, Buffer::One);
            },
        }
    }

    fn buffer_data(&self, buffer: Buffer) -> (v: Vertex)
        ensures
            v == (match buffer {
                Buffer::One => self.buffers.0,
                Buffer::Two => self.buffers.1,
            }),
    {
        match buffer {
            Buffer::One => self.buffers.0,
            Buffer::Two => self.buffers.1,
        }
    }

    fn draw(&mut self, draw_port: &mut DrawPort, buffer: Buffer)
        requires
            old(self).fits(),
        ensures
            *final(self) == *old(self),
            final(draw_port).sent() == old(draw_port).sent() + draw_area_words(
                match buffer {
                    Buffer::One => old(self).buffers.0,
                    Buffer::Two => old(self).buffers.1,
                },
                old(self).res,
            ),
    {
        let buffer = self.buffer_data(buffer);
        draw_port.start(buffer).end(buffer.shift(self.res)).offset(buffer);
        assert(draw_port.sent() =~= old(draw_port).sent() + draw_area_words(
            buffer,
            self.res,
        ));
    }

    fn display(&mut self, draw_port: &mut DrawPort, disp_port: &mut DispPort, buffer: Buffer)
        ensures
            *final(self) == *old(self),
            final(disp_port).sent() == old(disp_port).sent().push(
                show_word(
                    match buffer {
                        Buffer::One => old(self).buffers.0,
                        Buffer::Two => old(self).buffers.1,
                    },
                ),
            ),
            final(draw_port).sent() == old(draw_port).sent() + clear_words(old(self).res),
    {
        let buffer = self.buffer_data(buffer);
        disp_port.start(buffer);
        let clear_screen = rectangle(Vertex::zero(), self.res, Color::black());
        draw_port.send(&clear_screen);
        assert(clear_screen.words() =~= clear_words(self.res));
    }
}

/// With two distinct buffers, the one drawn into is never the one shown,
/// and a swap shows what was drawn while drawing where was shown.
pub proof fn lemma_drawn_is_hidden(fb: Framebuffer)
    requires
        fb.buffers_spec().0 != fb.buffers_spec().1,
    ensures
        fb.shown() != fb.drawn(),
        fb.shown() == fb.buffers_spec().0 || fb.shown() == fb.buffers_spec().1,
        fb.drawn() == fb.buffers_spec().0 || fb.drawn() == fb.buffers_spec().1,
{
}


/// The screen set-up tells the GPU the screen's size: the horizontal range
/// starts at `0x248` and spans eight clock ticks a pixel, the vertical
/// range spans the screen's lines about scanline `0x88`, each in its
/// field's bits, and the display mode reads back as the resolution, video
/// standard, depth and interlacing asked for.
pub proof fn lemma_screen_words(res: Vertex, mode: Vmode, depth: Depth, interlace: bool)
    requires
        valid_res(res),
    ensures
        ({
            let w = screen_words(res, mode, depth, interlace);
            &&& w.len() == 3
            &&& w[0] & 0xfff == 0x248
            &&& (w[0] >> 12u32) & 0xfff == ((0x248 + 8 * res.0) as u16 as u32) & 0xfff
            &&& w[1] & 0x3ff == ((0x88 - res.1 / 2) as u16 as u32) & 0x3ff
            &&& (w[1] >> 10u32) & 0x3ff == ((0x88 + res.1 / 2) as u16 as u32) & 0x3ff
            &&& mode_hres(w[2]) == res.0 && mode_vres(w[2]) == res.1
            &&& mode_vmode(w[2]) == mode && mode_depth(w[2]) == depth
            &&& mode_interlace(w[2]) == interlace
        }),
{
    let (x1, x2) = (h_offset(), (h_offset() + res.0 * 8) as i16);
    let (y1, y2) = ((v_middle() - res.1 / 2) as i16, (v_middle() + res.1 / 2) as i16);
    lemma_display_word_fields(x1, x2);
    lemma_display_word_fields(y1, y2);
    lemma_mode_word_reads_back(res.0, res.1, mode, depth, interlace);
    assert((0x248i16 as u16 as u32) & 0xfff == 0x248) by (bit_vector);
}

} // verus!
