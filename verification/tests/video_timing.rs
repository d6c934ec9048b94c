use gba_core::ppu::Ppu;
use gba_core::timers::{Timers, TimerChannel};
use gba_core::interrupts::{IRQ_TIMER1, IRQ_VBLANK};
use gba_core::gamepack::GamePack;
use gba_core::gba::Gba;

fn blank_regions() -> (Vec<u8>, Vec<u8>, Vec<u8>) {
    (vec![0u8; 0x400], vec![0u8; 0x18000], vec![0u8; 0x400])
}

#[test]
fn mode0_tile_pixel_exact() {
    let mut ppu = Ppu::new();
    let (mut palette, mut vram, oam) = blank_regions();
    // Mode 0, background 0 enabled; char block 0, screen block 2.
    ppu.dispcnt = 0x0100;
    ppu.bg0cnt = 0x0200;
    // Map entry (0,0): tile 1, palette bank 1.
    vram[0x1000] = 0x01;
    vram[0x1001] = 0x10;
    // Tile 1, pixel (0,0): color index 2 (low nibble of its first byte).
    vram[32] = 0x02;
    // Palette bank 1, index 2 (entry 18): pure red, 0x001F.
    palette[36] = 0x1f;
    palette[37] = 0x00;
    ppu.render_scanline(&palette, &vram, &oam, 0);
    assert_eq!(ppu.frame_buffer[0], 0x00f8_0000);
    // The neighbouring pixel is transparent and shows the backdrop
    // (palette entry 0, black).
    assert_eq!(ppu.frame_buffer[1], 0x0000_0000);
}

#[test]
fn mid_frame_register_write_changes_only_later_lines() {
    let mut ppu = Ppu::new();
    let (mut palette, mut vram, oam) = blank_regions();
    ppu.dispcnt = 0x0100;
    ppu.bg0cnt = 0x0200;
    vram[0x1000] = 0x01;
    vram[0x1001] = 0x10;
    vram[32] = 0x02;
    palette[36] = 0x1f;
    ppu.render_scanline(&palette, &vram, &oam, 0);
    let line0_before = ppu.frame_buffer[0];
    // A raster effect: scroll changes after line 0 was drawn.
    ppu.bg0hofs = 8;
    ppu.render_scanline(&palette, &vram, &oam, 1);
    // Line 0 keeps the output produced with the old registers.
    assert_eq!(ppu.frame_buffer[0], line0_before);
    // Line 1 is drawn under the new scroll: tile column 1 is empty, so
    // its first pixel falls back to the backdrop.
    assert_eq!(ppu.frame_buffer[240], 0x0000_0000);
}

#[test]
fn mode4_bitmap_pixel_exact() {
    let mut ppu = Ppu::new();
    let (mut palette, mut vram, oam) = blank_regions();
    // Mode 4: background 2 is a paletted bitmap.
    ppu.dispcnt = 0x0404;
    vram[240 + 7] = 9;
    // Palette entry 9: pure green, 0x03E0.
    palette[18] = 0xe0;
    palette[19] = 0x03;
    ppu.render_scanline(&palette, &vram, &oam, 1);
    assert_eq!(ppu.frame_buffer[240 + 7], 0x0000_f800);
}

#[test]
fn forced_blank_paints_white() {
    let mut ppu = Ppu::new();
    let (palette, vram, oam) = blank_regions();
    ppu.dispcnt = 0x0080;
    ppu.render_scanline(&palette, &vram, &oam, 3);
    assert_eq!(ppu.frame_buffer[3 * 240 + 100], 0x00ff_ffff);
}

#[test]
fn dot_clock_crosses_blanking_boundaries() {
    let mut ppu = Ppu::new();
    let (palette, vram, oam) = blank_regions();
    // 960 cycles into the line: HBlank begins.
    let ev = ppu.advance(&palette, &vram, &oam, 960);
    assert!(ev.hblank);
    assert!(!ev.vblank);
    assert_eq!(ppu.vcount, 0);
    // The rest of the line: the next line begins, no new HBlank yet.
    let ev = ppu.advance(&palette, &vram, &oam, 272);
    assert!(!ev.hblank);
    assert_eq!(ppu.vcount, 1);
    assert_eq!(ppu.dot, 0);
    // Lines 1..159 pass; entering line 160 starts VBlank.
    let mut saw_vblank = false;
    for _ in 0..159 {
        let ev = ppu.advance(&palette, &vram, &oam, 1232);
        saw_vblank = saw_vblank || ev.vblank;
    }
    assert!(saw_vblank);
    assert_eq!(ppu.vcount, 160);
}

#[test]
fn timer_cascade_once_per_65536() {
    let mut t = Timers::new();
    t.t0 = TimerChannel {
        counter: 0xffff,
        reload: 0xffff,
        prescale_select: 0,
        cascade: false,
        irq_enable: false,
        enabled: true,
        phase: 0,
    };
    t.t1 = TimerChannel {
        counter: 0,
        reload: 0,
        prescale_select: 0,
        cascade: true,
        irq_enable: true,
        enabled: true,
        phase: 0,
    };
    // 65535 cycles: channel 0 overflowed every cycle, channel 1 counted
    // each overflow but has not yet wrapped.
    let irq = t.advance(65535);
    assert_eq!(irq & IRQ_TIMER1, 0);
    assert_eq!(t.t1.counter, 65535);
    // One more: channel 1 overflows exactly once per 65536 ticks.
    let irq = t.advance(1);
    assert_eq!(irq & IRQ_TIMER1, IRQ_TIMER1);
    assert_eq!(t.t1.counter, 0);
    // And not again until another 65536 have passed.
    let irq = t.advance(65535);
    assert_eq!(irq & IRQ_TIMER1, 0);
}

#[test]
fn timer_prescaler_divides() {
    let mut t = TimerChannel::new();
    t.enabled = true;
    t.prescale_select = 1; // one tick per 64 cycles
    let ovf = t.advance(63);
    assert_eq!(ovf, 0);
    assert_eq!(t.counter, 0);
    let ovf = t.advance(1);
    assert_eq!(ovf, 0);
    assert_eq!(t.counter, 1);
}

#[test]
fn vblank_dma_fires_once_and_moves_count_units() {
    let bios = vec![0u8; 0x4000];
    let rom = vec![0u8; 0x200];
    let pack = GamePack::new(bios, rom).unwrap();
    let mut gba = Gba::new(0x0800_0000, pack);
    // A source pattern in work RAM.
    let pattern: [u8; 8] = [0x10, 0x32, 0x54, 0x76, 0x98, 0xba, 0xdc, 0xfe];
    for (k, &v) in pattern.iter().enumerate() {
        gba.bus.write8(0x0200_0000 + k as u32, v);
    }
    // Channel 3: source 0x02000000, destination 0x02000100, four
    // half-word units, VBlank-triggered, enabled.
    gba.bus.write16(0x0400_00d4, 0x0000);
    gba.bus.write16(0x0400_00d6, 0x0200);
    gba.bus.write16(0x0400_00d8, 0x0100);
    gba.bus.write16(0x0400_00da, 0x0200);
    gba.bus.write16(0x0400_00dc, 4);
    gba.bus.write16(0x0400_00de, 0x9000);
    gba.frame();
    // Exactly N units were copied with incrementing addresses.
    for (k, &v) in pattern.iter().enumerate() {
        assert_eq!(gba.bus.read8(0x0200_0100 + k as u32), v, "byte {}", k);
    }
    // Without repeat the channel disabled itself after its one run.
    assert_eq!(gba.bus.io_read16(0x00de) & 0x8000, 0);
    // Nothing beyond the four units moved.
    assert_eq!(gba.bus.read8(0x0200_0108), 0);
}

#[test]
fn vblank_interrupt_raised_when_enabled() {
    let bios = vec![0u8; 0x4000];
    let rom = vec![0u8; 0x200];
    let pack = GamePack::new(bios, rom).unwrap();
    let mut gba = Gba::new(0x0800_0000, pack);
    // Enable the VBlank request in the display status register.
    gba.bus.write16(0x0400_0004, 0x0008);
    gba.frame();
    assert_eq!(gba.bus.irq.pending & IRQ_VBLANK, IRQ_VBLANK);
}
