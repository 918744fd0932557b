use psx::gpu::disp_port::{Depth, DispPort, DmaSource, Vmode};
use psx::gpu::draw_port::{DrawPort, GpuPacket};
use psx::gpu::framebuffer::{Attributes, Framebuffer};
use psx::gpu::gp0::GP0;
use psx::gpu::gp1::GP1;
use psx::gpu::stat::{GpuStat, Parity, Value, GPUSTAT};
use psx::gpu::vram::{CopyVram, FillVram};
use psx::gpu::color::Color;
use psx::gpu::{DMAMode, DispEnv, DrawEnv, PackedVertex, Vertex, VertexError, VideoMode};

#[test]
fn display_port_commands() {
    let mut p = DispPort::new();
    p.reset_gpu().reset_buffer().on().off().dma(DmaSource::FIFO).dma(DmaSource::GPU);
    assert_eq!(p.drain(), vec![0, 0x0100_0000, 0x0300_0000, 0x0300_0001, 0x0400_0001, 0x0400_0003]);
}

#[test]
fn display_port_ranges_mask_their_fields() {
    let mut p = DispPort::new();
    p.start(Vertex(0x10, 0x20)).horizontal(0x260, 0xC60).vertical(0x10, 0x100);
    p.start(Vertex(0x7FF, 0x3FF));
    assert_eq!(p.drain(), vec![0x0500_8010, 0x06C6_0260, 0x0704_0010, 0x0507_FFFF]);
}

#[test]
fn display_mode_bits() {
    let mut p = DispPort::new();
    p.mode(320, 240, Vmode::NTSC, Depth::Lo, false);
    p.mode(368, 480, Vmode::PAL, Depth::Hi, true);
    p.mode(640, 480, Vmode::NTSC, Depth::Lo, true);
    assert_eq!(p.drain(), vec![0x0800_0001, 0x0800_007C, 0x0800_0027]);
}

#[test]
fn drawing_port_area_and_vram_commands() {
    let mut p = DrawPort::new();
    p.start(Vertex(0x10, 0x20)).end(Vertex(0x140, 0xF0)).offset(Vertex(0x10, 0x20));
    p.to_vram(Vertex(0, 0), Vertex(2, 1), &[7, 8]);
    assert_eq!(p.drain(), vec![
        0xE300_8010,
        0xE403_C140,
        0xE501_0010,
        0xA000_0000,
        0,
        0x0001_0002,
        7,
        8
    ]);
}

#[test]
fn framebuffer_sets_up_and_swaps() {
    let mut draw = DrawPort::new();
    let mut disp = DispPort::new();
    let mut fb = Framebuffer::new(
        &mut draw,
        &mut disp,
        Vertex(0, 0),
        Vertex(0, 240),
        Vertex(320, 240),
        None,
    );
    assert_eq!(disp.drain(), vec![0x06C4_8248, 0x0704_0010, 0x0800_0001, 0x0500_0000, 0x0300_0000]);
    assert_eq!(draw.drain(), vec![
        0xE303_C000,
        0xE407_8140,
        0xE507_8000,
        0x6000_0000,
        0,
        0x00F0_0140
    ]);
    fb.swap(&mut draw, &mut disp);
    assert_eq!(disp.drain(), vec![0x0503_C000]);
    assert_eq!(draw.drain(), vec![
        0xE300_0000,
        0xE403_C140,
        0xE500_0000,
        0x6000_0000,
        0,
        0x00F0_0140
    ]);
    fb.swap(&mut draw, &mut disp);
    assert_eq!(disp.drain(), vec![0x0500_0000]);
    assert_eq!(draw.drain()[0], 0xE303_C000);
}

#[test]
fn framebuffer_takes_display_attributes() {
    let mut draw = DrawPort::new();
    let mut disp = DispPort::new();
    let attr = Attributes { mode: Vmode::PAL, color_depth: Depth::Hi, interlacing: true };
    let _fb = Framebuffer::new(
        &mut draw,
        &mut disp,
        Vertex(0, 0),
        Vertex(0, 256),
        Vertex(320, 240),
        Some(attr),
    );
    assert_eq!(disp.drain()[2], 0x0800_0039);
}

#[test]
fn gp1_commands() {
    let mut g = GP1::new();
    g.reset_gpu().reset_command_buffer().display_enable(true).display_enable(false);
    g.dma_direction(DmaSource::CPU);
    let start = PackedVertex::<3, 10, 9>::try_from(Vertex(1, 2)).unwrap();
    let h = PackedVertex::<3, 12, 12>::try_from(Vertex(0x260, 0xC60)).unwrap();
    let v = PackedVertex::<3, 10, 10>::try_from(Vertex(0x10, 0x100)).unwrap();
    g.start_display_area(start).horizontal_range(h).vertical_range(v);
    assert_eq!(g.drain(), vec![
        0,
        0x0100_0000,
        0x0300_0000,
        0x0300_0001,
        0x0400_0002,
        0x0500_0801,
        0x06C6_0260,
        0x0704_0010
    ]);
    assert_eq!(GP1::address(), 0x1F80_1814);
    assert_eq!(GP0::address(), 0x1F80_1810);
    assert_eq!(GPUSTAT::address(), 0x1F80_1814);
}

#[test]
fn status_bits() {
    let v = Value::new((1 << 22) | (1 << 28) | (1 << 20));
    assert!(v.interlaced());
    assert!(v.dma_ready());
    assert!(!v.cmd_ready());
    assert!(!v.dma_enabled());
    assert_eq!(v.video_mode(), VideoMode::PAL);
    assert_eq!(v.line(), Parity::Even);
    let w = Value::new((1 << 26) | (1 << 30) | (1 << 31));
    assert!(!w.interlaced());
    assert!(w.cmd_ready());
    assert!(w.dma_enabled());
    assert!(Value::new(1 << 29).dma_enabled());
    assert_eq!(w.video_mode(), VideoMode::NTSC);
    assert_eq!(w.line(), Parity::Odd);
    assert!(GpuStat { bits: 1 << 26 }.ready());
    assert!(!GpuStat { bits: !(1 << 26) }.ready());
}

#[test]
fn dma_mode_codes() {
    assert_eq!(DMAMode::GP0.code(), 2);
    assert_eq!(DMAMode::GPUREAD.code(), 3);
}

#[test]
fn vram_fill_and_copy() {
    let f = FillVram::new(Vertex(1, 2), Vertex(3, 4), Color::rgb(1, 2, 3));
    assert_eq!(f.packet(), vec![0x0203_0201, 0x0002_0001, 0x0004_0003]);
    let c = CopyVram::new(Vertex(1, 2), Vertex(3, 4), Vertex(5, 6));
    assert_eq!(c.packet(), vec![0x8000_0000, 0x0002_0001, 0x0006_0005, 0x0004_0003]);
}

#[test]
fn display_env_reports_the_first_field_that_does_not_fit() {
    assert!(matches!(
        DispEnv::new((1024, 0), (320, 240), VideoMode::NTSC),
        Err(VertexError::InvalidX)
    ));
    assert!(matches!(
        DispEnv::new((0, 0), (500, 240), VideoMode::PAL),
        Err(VertexError::InvalidY)
    ));
    assert!(matches!(
        DispEnv::new((0, 600), (320, 240), VideoMode::NTSC),
        Err(VertexError::InvalidY)
    ));
}

#[test]
fn display_env_sets_its_ranges() {
    let mut gp1 = GP1::new();
    let env = DispEnv::new((0, 0), (320, 240), VideoMode::NTSC).ok().unwrap();
    env.set(&mut gp1);
    assert_eq!(gp1.drain(), vec![0x0500_0000, 0x06C6_0260, 0x0704_0010]);
    let pal = DispEnv::new((1, 2), (256, 256), VideoMode::PAL).ok().unwrap();
    pal.set(&mut gp1);
    assert_eq!(gp1.drain(), vec![0x0500_0801, 0x06A6_0260, 0x0704_8C23]);
}

#[test]
fn draw_env_words() {
    let env = DrawEnv::new((0, 0), (320, 240), None).ok().unwrap();
    assert_eq!(env.packet(), vec![
        0xE100_040A,
        0xE300_0000,
        0xE403_C140,
        0xE500_0000,
        0x0200_0000,
        0,
        0x00F0_0140
    ]);
    let mut port = DrawPort::new();
    let blue = DrawEnv::new((16, 8), (8, 8), Some(psx::gpu::colors::blue())).ok().unwrap();
    blue.set(&mut port);
    let words = port.drain();
    assert_eq!(words[1], 0xE300_2010);
    assert_eq!(words[2], 0xE400_4018);
    assert_eq!(words[3], 0xE500_4010);
    assert_eq!(words[4], 0x02FF_0000);
}

#[test]
fn draw_env_errors() {
    assert!(matches!(DrawEnv::new((0, 0), (1024, 0), None), Err(VertexError::InvalidX)));
    assert!(matches!(DrawEnv::new((0, 0), (0, 512), None), Err(VertexError::InvalidY)));
    assert!(matches!(DrawEnv::new((-1, 0), (2, 2), None), Err(VertexError::InvalidX)));
}
