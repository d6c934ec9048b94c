use gba_core::ppu::Ppu;
use gba_core::gamepack::GamePack;
use gba_core::gba::Gba;

fn blank_regions() -> (Vec<u8>, Vec<u8>, Vec<u8>) {
    (vec![0u8; 0x400], vec![0u8; 0x18000], vec![0u8; 0x400])
}

#[test]
fn affine_background_identity_transform() {
    let mut ppu = Ppu::new();
    let (mut palette, mut vram, oam) = blank_regions();
    // Mode 2, background 2 on; screen block 2, 128x128, identity matrix.
    ppu.dispcnt = 0x0402;
    ppu.bg2cnt = 0x0200;
    ppu.bg2pa = 0x0100;
    ppu.bg2pd = 0x0100;
    // Map cell (0,0) names tile 1; its top-left texel is palette entry 5.
    vram[0x1000] = 1;
    vram[64] = 5;
    // Palette entry 5: pure blue, 0x7C00.
    palette[10] = 0x00;
    palette[11] = 0x7c;
    ppu.render_scanline(&palette, &vram, &oam, 0);
    assert_eq!(ppu.frame_buffer[0], 0x0000_00f8);
    // The next texel is transparent: backdrop.
    assert_eq!(ppu.frame_buffer[1], 0x0000_0000);
}

#[test]
fn affine_background_scales() {
    let mut ppu = Ppu::new();
    let (mut palette, mut vram, oam) = blank_regions();
    // Doubling PA samples every second texel horizontally.
    ppu.dispcnt = 0x0402;
    ppu.bg2cnt = 0x0200;
    ppu.bg2pa = 0x0200;
    ppu.bg2pd = 0x0100;
    vram[0x1000] = 1;
    vram[64 + 2] = 5;
    palette[10] = 0x00;
    palette[11] = 0x7c;
    ppu.render_scanline(&palette, &vram, &oam, 0);
    // Screen x = 1 maps to texture x = 2.
    assert_eq!(ppu.frame_buffer[1], 0x0000_00f8);
    assert_eq!(ppu.frame_buffer[2], 0x0000_0000);
}

#[test]
fn background_mosaic_repeats_block_start() {
    let mut ppu = Ppu::new();
    let (mut palette, mut vram, oam) = blank_regions();
    // Mode 4 bitmap with the mosaic bit on background 2; 4-wide blocks.
    ppu.dispcnt = 0x0404;
    ppu.bg2cnt = 0x0040;
    ppu.mosaic = 0x0003;
    vram[0] = 9;
    palette[18] = 0x1f;
    ppu.render_scanline(&palette, &vram, &oam, 0);
    // The whole first block shows the block-start texel.
    for x in 0..4 {
        assert_eq!(ppu.frame_buffer[x], 0x00f8_0000, "x {}", x);
    }
    // The next block samples its own start, which is transparent.
    assert_eq!(ppu.frame_buffer[4], 0x0000_0000);
}

#[test]
fn window_masks_layers_outside() {
    let mut ppu = Ppu::new();
    let (mut palette, mut vram, oam) = blank_regions();
    // Mode 4 bitmap on background 2; window 0 covers x in [0, 8).
    ppu.dispcnt = 0x0404 | 0x2000;
    ppu.win0h = 0x0008;
    ppu.win0v = 0x00a0;
    ppu.winin = 0x0004;
    ppu.winout = 0x0000;
    vram[0] = 9;
    vram[8] = 9;
    palette[18] = 0x1f;
    ppu.render_scanline(&palette, &vram, &oam, 0);
    // Inside the window the layer shows; outside it is masked off.
    assert_eq!(ppu.frame_buffer[0], 0x00f8_0000);
    assert_eq!(ppu.frame_buffer[8], 0x0000_0000);
}

#[test]
fn brightness_blend_raises_first_target() {
    let mut ppu = Ppu::new();
    let (mut palette, mut vram, oam) = blank_regions();
    // Mode 4; background 2 is a first target of brightness-increase.
    ppu.dispcnt = 0x0404;
    ppu.bldcnt = 0x0084;
    ppu.bldy = 0x0008;
    vram[0] = 9;
    // Palette entry 9: half-bright red, 15 of 31.
    palette[18] = 0x0f;
    ppu.render_scanline(&palette, &vram, &oam, 0);
    // Every channel moves toward white: red 15 -> 23, green and blue
    // 0 -> 15; each expands by << 3.
    assert_eq!(ppu.frame_buffer[0], 0x00b8_7878);
}

#[test]
fn alpha_blend_mixes_with_backdrop() {
    let mut ppu = Ppu::new();
    let (mut palette, mut vram, oam) = blank_regions();
    // Mode 4; alpha mode, background 2 first target, backdrop second.
    ppu.dispcnt = 0x0404;
    ppu.bldcnt = 0x2044;
    ppu.bldalpha = 0x0808;
    vram[0] = 9;
    palette[18] = 0x1f;
    ppu.render_scanline(&palette, &vram, &oam, 0);
    // (31*8 + 0*8)/16 = 15 -> 15 << 3.
    assert_eq!(ppu.frame_buffer[0], 0x0078_0000);
}

#[test]
fn affine_sprite_identity_and_window_mode_hidden() {
    let mut ppu = Ppu::new();
    let (mut palette, mut vram, mut oam) = blank_regions();
    ppu.dispcnt = 0x1000;
    // Entry 0: rotation/scaling sprite at (0,0), 8x8, tile 1.
    oam[0] = 0x00;
    oam[1] = 0x01;
    oam[4] = 0x01;
    oam[5] = 0x00;
    // Parameter group 0: the identity matrix in 8.8 fixed point.
    oam[6] = 0x00;
    oam[7] = 0x01;
    oam[30] = 0x00;
    oam[31] = 0x01;
    // Tile 1, four-bit: the two leftmost texels use color index 2.
    vram[0x10020] = 0x22;
    // Sprite palette bank 0, index 2 (entry 258): pure green.
    palette[516] = 0xe0;
    palette[517] = 0x03;
    ppu.render_scanline(&palette, &vram, &oam, 0);
    assert_eq!(ppu.frame_buffer[0], 0x0000_f800);
    assert_eq!(ppu.frame_buffer[1], 0x0000_f800);
    assert_eq!(ppu.frame_buffer[2], 0x0000_0000);
    // The same entry in sprite-window mode does not display.
    oam[1] = 0x09;
    ppu.render_scanline(&palette, &vram, &oam, 0);
    assert_eq!(ppu.frame_buffer[0], 0x0000_0000);
}

#[test]
fn frame_advances_cycle_counter_exactly() {
    let pack = GamePack::new(vec![0u8; 0x4000], vec![0u8; 0x200]).unwrap();
    let mut gba = Gba::new(0x0800_0000, pack);
    assert_eq!(gba.total_cycles, 0);
    gba.frame();
    assert_eq!(gba.total_cycles, 280_896);
    gba.frame();
    assert_eq!(gba.total_cycles, 561_792);
}

#[test]
fn affine_registers_reach_the_ppu_over_the_bus() {
    let pack = GamePack::new(vec![0u8; 0x4000], vec![0u8; 0x200]).unwrap();
    let mut gba = Gba::new(0x0800_0000, pack);
    gba.bus.write16(0x0400_0020, 0x0123);
    gba.bus.write16(0x0400_0028, 0xbeef);
    gba.bus.write16(0x0400_002a, 0x0dea);
    gba.bus.write16(0x0400_0040, 0x1234);
    gba.bus.write16(0x0400_0048, 0x003f);
    gba.bus.write16(0x0400_0050, 0x2044);
    assert_eq!(gba.bus.ppu.bg2pa, 0x0123);
    assert_eq!(gba.bus.ppu.bg2x, 0x0dea_beef);
    assert_eq!(gba.bus.ppu.win0h, 0x1234);
    assert_eq!(gba.bus.io_read16(0x48), 0x003f);
    assert_eq!(gba.bus.io_read16(0x50), 0x2044);
}
