//! The picture processing unit: dot/scanline counters crossing HBlank and
//! VBlank at exact cycle positions, and a per-scanline renderer that
//! composites tile backgrounds, bitmap modes and sprites by priority into
//! the frame buffer, using the register state live at the moment of the
//! call.

use vstd::prelude::*;
use vstd::pervasive::VecAdditionalExecFns;
use crate::bits::{spec_half, half_from_bytes};
use crate::interrupts::{IRQ_VBLANK, IRQ_HBLANK, IRQ_VCOUNT};

verus! {

/// Pixels per visible row.
pub const SCREEN_W: u32 = 240;

/// Visible rows per frame.
pub const SCREEN_H: u32 = 160;

/// Bus cycles in the visible part of a scanline.
pub const VISIBLE_CYCLES: u32 = 960;

/// Bus cycles in one whole scanline.
pub const LINE_CYCLES: u32 = 1232;

/// Scanlines in one whole frame, VBlank lines included.
pub const FRAME_LINES: u32 = 228;

/// Bus cycles in one whole frame.
pub const FRAME_CYCLES: u32 = 280896;

/// The PPU: the frame buffer, the display registers, and the dot clock.
pub struct Ppu {
    /// One packed 0x00RRGGBB value per visible pixel, row-major.
    pub frame_buffer: Vec<u32>,
    /// Display control: mode, frame select, mapping, layer enables.
    pub dispcnt: u16,
    /// Display status: interrupt enables and the scanline match value
    /// (bits 3-5 and 8-15; the flag bits are derived from the counters).
    pub dispstat: u16,
    /// The current scanline.
    pub vcount: u16,
    /// The cycle within the current scanline.
    pub dot: u32,
    pub bg0cnt: u16,
    pub bg1cnt: u16,
    pub bg2cnt: u16,
    pub bg3cnt: u16,
    pub bg0hofs: u16,
    pub bg0vofs: u16,
    pub bg1hofs: u16,
    pub bg1vofs: u16,
    pub bg2hofs: u16,
    pub bg2vofs: u16,
    pub bg3hofs: u16,
    pub bg3vofs: u16,
    /// Affine parameters of backgrounds 2 and 3, signed 8.8 fixed point.
    pub bg2pa: u16,
    pub bg2pb: u16,
    pub bg2pc: u16,
    pub bg2pd: u16,
    pub bg3pa: u16,
    pub bg3pb: u16,
    pub bg3pc: u16,
    pub bg3pd: u16,
    /// Affine reference points, signed 19.8 fixed point in 28 bits.
    pub bg2x: u32,
    pub bg2y: u32,
    pub bg3x: u32,
    pub bg3y: u32,
    /// Window bounds: left edge in the high byte, right edge in the low.
    pub win0h: u16,
    pub win1h: u16,
    pub win0v: u16,
    pub win1v: u16,
    /// Layer gates inside window 0 (low byte) and window 1 (high byte).
    pub winin: u16,
    /// Layer gates outside every window (low byte).
    pub winout: u16,
    /// Mosaic sizes: background in the low byte, sprites in the high.
    pub mosaic: u16,
    /// Blend control: mode, first- and second-target masks.
    pub bldcnt: u16,
    /// Alpha coefficients EVA (low byte) and EVB (high byte).
    pub bldalpha: u16,
    /// Brightness coefficient EVY.
    pub bldy: u16,
}

/// A well-formed PPU: full-size frame buffer, counters inside the frame.
pub open spec fn ppu_wf(p: Ppu) -> bool {
    &&& p.frame_buffer@.len() == 38400
    &&& p.vcount < 228
    &&& p.dot < 1232
}

/// What one advance call observed: blanking edges and interrupt requests.
#[derive(Clone, Copy, PartialEq, Eq, Structural, Debug)]
pub struct PpuStep {
    /// The dot clock entered HBlank on some line.
    pub hblank: bool,
    /// The dot clock entered the VBlank region (line 160, dot 0).
    pub vblank: bool,
    /// Interrupt bits to raise, already gated by the status enables.
    pub irq: u16,
}

/// A 15-bit BGR color expanded to packed 0x00RRGGBB.
pub open spec fn spec_rgb(c: u16) -> u32 {
    ((((c & 0x1f) << 3) as u32) << 16) | (((((c >> 5) & 0x1f) << 3) as u32) << 8) | ((((c >> 10)
        & 0x1f) << 3) as u32)
}

/// The color at index `idx` of palette RAM (512 entries of two bytes,
/// little-endian).
pub open spec fn spec_pal_color(pal: Seq<u8>, idx: int) -> u16 {
    spec_half(pal[2 * idx], pal[2 * idx + 1])
}

/// The palette index of background `bg`'s pixel at `(x, y)`, zero meaning
/// transparent: the scrolled coordinate picks a map entry in the
/// character/screen blocks the control register names, the entry picks a
/// tile, the tile a 4- or 8-bit color index.
pub open spec fn spec_text_bg_index(
    cnt: u16,
    hofs: u16,
    vofs: u16,
    vram: Seq<u8>,
    x: int,
    y: int,
) -> int {
    let w: int = if (cnt >> 14) & 1 == 1 {
        512
    } else {
        256
    };
    let h: int = if (cnt >> 14) & 2 == 2 {
        512
    } else {
        256
    };
    let sx = (x + (hofs & 0x1ff)) % w;
    let sy = (y + (vofs & 0x1ff)) % h;
    let block: int = (if sx >= 256 {
        1int
    } else {
        0int
    }) + (if sy >= 256 {
        (if w == 512 {
            2int
        } else {
            1int
        })
    } else {
        0int
    });
    let screen_base = ((cnt >> 8) & 0x1f) * 0x800 + block * 0x800;
    let entry_addr = (screen_base + (((sy % 256) / 8) * 32 + ((sx % 256) / 8)) * 2) % 0x10000;
    let entry = spec_half(vram[entry_addr], vram[entry_addr + 1]);
    let tile: int = (entry & 0x3ff) as int;
    let px: int = if entry & 0x400 != 0 {
        7 - (sx % 8)
    } else {
        sx % 8
    };
    let py: int = if entry & 0x800 != 0 {
        7 - (sy % 8)
    } else {
        sy % 8
    };
    let char_base = ((cnt >> 2) & 3) * 0x4000;
    if cnt & 0x80 != 0 {
        let b = vram[(char_base + tile * 64 + py * 8 + px) % 0x10000];
        b as int
    } else {
        let b = vram[(char_base + tile * 32 + py * 4 + px / 2) % 0x10000];
        let nib: int = if px % 2 == 1 {
            (b >> 4) as int
        } else {
            (b & 0xf) as int
        };
        if nib == 0 {
            0
        } else {
            ((entry >> 12) & 0xf) * 16 + nib
        }
    }
}

/// A text or bitmap background's 15-bit color at `(x, y)`, or nothing
/// where the layer is transparent or absent: the scrolled tile layers of
/// modes 0-1 and the bitmap layers of modes 3-5 on background 2. The
/// affine layers live in `spec_bg_layer_color`.
pub open spec fn spec_bg_color(p: Ppu, pal: Seq<u8>, vram: Seq<u8>, bg: int, x: int, y: int) -> Option<
    u16,
> {
    let mode = p.dispcnt & 7;
    if mode == 0 || (mode == 1 && bg <= 1) {
        let cnt = if bg == 0 {
            p.bg0cnt
        } else if bg == 1 {
            p.bg1cnt
        } else if bg == 2 {
            p.bg2cnt
        } else {
            p.bg3cnt
        };
        let hofs = if bg == 0 {
            p.bg0hofs
        } else if bg == 1 {
            p.bg1hofs
        } else if bg == 2 {
            p.bg2hofs
        } else {
            p.bg3hofs
        };
        let vofs = if bg == 0 {
            p.bg0vofs
        } else if bg == 1 {
            p.bg1vofs
        } else if bg == 2 {
            p.bg2vofs
        } else {
            p.bg3vofs
        };
        let idx = spec_text_bg_index(cnt, hofs, vofs, vram, x, y);
        if idx == 0 {
            Option::None
        } else {
            Option::Some(spec_pal_color(pal, idx))
        }
    } else if mode == 3 && bg == 2 {
        Option::Some(spec_half(vram[(y * 240 + x) * 2], vram[(y * 240 + x) * 2 + 1]))
    } else if mode == 4 && bg == 2 {
        let base: int = if p.dispcnt & 0x10 != 0 {
            0xa000
        } else {
            0
        };
        let idx = vram[base + y * 240 + x] as int;
        if idx == 0 {
            Option::None
        } else {
            Option::Some(spec_pal_color(pal, idx))
        }
    } else if mode == 5 && bg == 2 {
        let base: int = if p.dispcnt & 0x10 != 0 {
            0xa000
        } else {
            0
        };
        if x < 160 && y < 128 {
            Option::Some(
                spec_half(vram[base + (y * 160 + x) * 2], vram[base + (y * 160 + x) * 2 + 1]),
            )
        } else {
            Option::None
        }
    } else {
        Option::None
    }
}

/// Whether background `bg` is switched on in the display control.
pub open spec fn spec_bg_enabled(dispcnt: u16, bg: int) -> bool {
    if bg == 0 {
        dispcnt & 0x100 != 0
    } else if bg == 1 {
        dispcnt & 0x200 != 0
    } else if bg == 2 {
        dispcnt & 0x400 != 0
    } else {
        dispcnt & 0x800 != 0
    }
}

/// The priority field of background `bg`'s control register.
pub open spec fn spec_bg_priority(p: Ppu, bg: int) -> u16 {
    (if bg == 0 {
        p.bg0cnt
    } else if bg == 1 {
        p.bg1cnt
    } else if bg == 2 {
        p.bg2cnt
    } else {
        p.bg3cnt
    }) & 3
}

/// The signed value of a 16-bit affine parameter (8.8 fixed point).
pub open spec fn spec_i16(v: u16) -> int {
    if v >= 0x8000 {
        v - 0x10000
    } else {
        v as int
    }
}

/// The signed value of a 28-bit affine reference point (19.8 fixed
/// point); the top four written bits are ignored, as the hardware does.
pub open spec fn spec_ref28(v: u32) -> int {
    if v & 0x0800_0000 != 0 {
        (v & 0x0fff_ffff) - 0x1000_0000
    } else {
        (v & 0x0fff_ffff) as int
    }
}

/// A texture coordinate of the affine transform, whole pixels: the 8.8
/// sum `ref + pa*x + pb*y`, floored to a pixel. Written over an offset by
/// a large multiple of every layer size so that the divisions stay
/// non-negative.
pub open spec fn spec_affine_tex(refv: int, pa: int, pb: int, x: int, y: int) -> int {
    (refv + pa * x + pb * y + 0x100_0000_0000) / 256 - 0x1_0000_0000
}

/// A screen coordinate quantized by a mosaic dimension: stepped down to
/// the start of its mosaic block.
pub open spec fn spec_mosaic_coord(c: int, size: u16) -> int {
    c - c % (size + 1)
}

/// The palette index of an affine background's pixel at `(x, y)`, zero
/// meaning transparent: the screen point runs through the layer's 8.8
/// matrix and reference point, wraps or clips per the control register's
/// overflow bit, and picks an eight-bit tile and pixel.
pub open spec fn spec_affine_bg_index(
    cnt: u16,
    refx: u32,
    refy: u32,
    pa: u16,
    pb: u16,
    pc: u16,
    pd: u16,
    vram: Seq<u8>,
    x: int,
    y: int,
) -> int {
    let size: int = (128u32 << (((cnt >> 14) & 3) as u32)) as int;
    let tx0 = spec_affine_tex(spec_ref28(refx), spec_i16(pa), spec_i16(pb), x, y);
    let ty0 = spec_affine_tex(spec_ref28(refy), spec_i16(pc), spec_i16(pd), x, y);
    let inside = (0 <= tx0 < size && 0 <= ty0 < size) || cnt & 0x2000 != 0;
    if !inside {
        0
    } else {
        let tx = ((tx0 + 0x1_0000_0000) % size) as int;
        let ty = ((ty0 + 0x1_0000_0000) % size) as int;
        let screen_base = ((cnt >> 8) & 0x1f) * 0x800;
        let char_base = ((cnt >> 2) & 3) * 0x4000;
        let entry = vram[(screen_base + (ty / 8) * (size / 8) + tx / 8) % 0x10000];
        vram[(char_base + entry * 64 + (ty % 8) * 8 + tx % 8) % 0x10000] as int
    }
}

/// Background `bg`'s 15-bit color at the (already mosaic-adjusted) point,
/// in the current mode: text layers, affine layers (mode 1's background
/// 2 and mode 2's backgrounds 2-3), and the bitmap layers of modes 3-5
/// on background 2 (drawn untransformed). Nothing where transparent.
pub open spec fn spec_bg_layer_color(
    p: Ppu,
    pal: Seq<u8>,
    vram: Seq<u8>,
    bg: int,
    x: int,
    y: int,
) -> Option<u16> {
    let mode = p.dispcnt & 7;
    if (mode == 0 || (mode == 1 && bg <= 1)) && bg <= 3 {
        spec_bg_color(p, pal, vram, bg, x, y)
    } else if (mode == 1 || mode == 2) && bg == 2 {
        let idx = spec_affine_bg_index(
            p.bg2cnt,
            p.bg2x,
            p.bg2y,
            p.bg2pa,
            p.bg2pb,
            p.bg2pc,
            p.bg2pd,
            vram,
            x,
            y,
        );
        if idx == 0 {
            Option::None
        } else {
            Option::Some(spec_pal_color(pal, idx))
        }
    } else if mode == 2 && bg == 3 {
        let idx = spec_affine_bg_index(
            p.bg3cnt,
            p.bg3x,
            p.bg3y,
            p.bg3pa,
            p.bg3pb,
            p.bg3pc,
            p.bg3pd,
            vram,
            x,
            y,
        );
        if idx == 0 {
            Option::None
        } else {
            Option::Some(spec_pal_color(pal, idx))
        }
    } else if mode >= 3 && bg == 2 {
        spec_bg_color(p, pal, vram, bg, x, y)
    } else {
        Option::None
    }
}

/// Background `bg`'s pixel with its mosaic applied: a layer with the
/// mosaic bit samples the start of its mosaic block.
pub open spec fn spec_bg_pixel(p: Ppu, pal: Seq<u8>, vram: Seq<u8>, bg: int, x: int, y: int) -> Option<
    u16,
> {
    let cnt = if bg == 0 {
        p.bg0cnt
    } else if bg == 1 {
        p.bg1cnt
    } else if bg == 2 {
        p.bg2cnt
    } else {
        p.bg3cnt
    };
    if cnt & 0x40 != 0 {
        spec_bg_layer_color(
            p,
            pal,
            vram,
            bg,
            spec_mosaic_coord(x, (p.mosaic & 0xf) as u16),
            spec_mosaic_coord(y, ((p.mosaic >> 4) & 0xf) as u16),
        )
    } else {
        spec_bg_layer_color(p, pal, vram, bg, x, y)
    }
}

/// Whether `(x, y)` lies inside a window whose horizontal bounds are
/// `h` (left edge in the high byte, right edge exclusive in the low) and
/// vertical bounds `v`; an edge pair with left above right wraps around,
/// as the hardware treats it.
pub open spec fn spec_in_window(x: int, y: int, h: u16, v: u16) -> bool {
    let x1 = (h >> 8) as int;
    let x2 = (h & 0xff) as int;
    let y1 = (v >> 8) as int;
    let y2 = (v & 0xff) as int;
    let hx = if x1 <= x2 {
        x1 <= x < x2
    } else {
        x >= x1 || x < x2
    };
    let hy = if y1 <= y2 {
        y1 <= y < y2
    } else {
        y >= y1 || y < y2
    };
    hx && hy
}

/// The six-bit layer gate at `(x, y)`: backgrounds 0-3, sprites, and
/// colour effects. With no window switched on everything passes; window
/// 0 beats window 1 beats the outside gate. The sprite window is not
/// modeled; switching only it on leaves every pixel outside.
pub open spec fn spec_win_gate(p: Ppu, x: int, y: int) -> u16 {
    if p.dispcnt & 0xe000 == 0 {
        0x3f
    } else if p.dispcnt & 0x2000 != 0 && spec_in_window(x, y, p.win0h, p.win0v) {
        (p.winin & 0x3f) as u16
    } else if p.dispcnt & 0x4000 != 0 && spec_in_window(x, y, p.win1h, p.win1v) {
        ((p.winin >> 8) & 0x3f) as u16
    } else {
        (p.winout & 0x3f) as u16
    }
}

/// A compositing candidate: a 15-bit color, its stacking key (priority
/// times eight plus the layer rank, sprites in front of backgrounds of
/// equal priority), the blend-target tag (0-3 backgrounds, 4 sprites, 5
/// backdrop), and whether it is a semi-transparent sprite.
pub open spec fn spec_take2(
    acc: (Option<(u16, u32, u32, bool)>, Option<(u16, u32, u32, bool)>),
    c: Option<(u16, u32, u32, bool)>,
) -> (Option<(u16, u32, u32, bool)>, Option<(u16, u32, u32, bool)>) {
    match c {
        Option::None => acc,
        Option::Some(cc) => match acc.0 {
            Option::None => (c, acc.1),
            Option::Some(t) => if cc.1 < t.1 {
                (c, acc.0)
            } else {
                match acc.1 {
                    Option::None => (acc.0, c),
                    Option::Some(s) => if cc.1 < s.1 {
                        (acc.0, c)
                    } else {
                        acc
                    },
                }
            },
        },
    }
}

/// One channel of a 15-bit color.
pub open spec fn spec_ch5(c: u16, shift: u32) -> int {
    ((c >> shift) & 0x1f) as int
}

/// A blend coefficient, capped at sixteen as the hardware caps it.
pub open spec fn spec_coeff(v: u16) -> int {
    if (v & 0x1f) >= 16 {
        16
    } else {
        (v & 0x1f) as int
    }
}

/// Builds a 15-bit color from its three channels.
pub open spec fn spec_color5(r: int, g: int, b: int) -> u16 {
    (r + 32 * g + 1024 * b) as u16
}

/// Alpha blending of two colors with coefficients EVA and EVB, each
/// channel capped at white.
pub open spec fn spec_alpha_blend(c1: u16, c2: u16, eva: int, evb: int) -> u16 {
    let r = (spec_ch5(c1, 0) * eva + spec_ch5(c2, 0) * evb) / 16;
    let g = (spec_ch5(c1, 5) * eva + spec_ch5(c2, 5) * evb) / 16;
    let b = (spec_ch5(c1, 10) * eva + spec_ch5(c2, 10) * evb) / 16;
    spec_color5(
        if r > 31 {
            31
        } else {
            r
        },
        if g > 31 {
            31
        } else {
            g
        },
        if b > 31 {
            31
        } else {
            b
        },
    )
}

/// Brightness increase toward white by EVY sixteenths.
pub open spec fn spec_brighten(c: u16, evy: int) -> u16 {
    spec_color5(
        spec_ch5(c, 0) + (31 - spec_ch5(c, 0)) * evy / 16,
        spec_ch5(c, 5) + (31 - spec_ch5(c, 5)) * evy / 16,
        spec_ch5(c, 10) + (31 - spec_ch5(c, 10)) * evy / 16,
    )
}

/// Brightness decrease toward black by EVY sixteenths.
pub open spec fn spec_darken(c: u16, evy: int) -> u16 {
    spec_color5(
        spec_ch5(c, 0) - spec_ch5(c, 0) * evy / 16,
        spec_ch5(c, 5) - spec_ch5(c, 5) * evy / 16,
        spec_ch5(c, 10) - spec_ch5(c, 10) * evy / 16,
    )
}

/// Whether a blend-target mask selects the layer tag.
pub open spec fn spec_target(mask: u16, tag: u32) -> bool {
    (mask >> tag) & 1 == 1
}

/// The colour leaving the blend unit: a semi-transparent sprite over a
/// second target always alpha-blends; otherwise the blend-control mode
/// applies between the first and second targets. The window's effect
/// gate switches the whole unit off.
pub open spec fn spec_apply_effects(
    top: (u16, u32, u32, bool),
    second: Option<(u16, u32, u32, bool)>,
    fx: bool,
    bldcnt: u16,
    bldalpha: u16,
    bldy: u16,
) -> u16 {
    let mode = (bldcnt >> 6) & 3;
    let second_hit = match second {
        Option::Some(s) => spec_target((bldcnt >> 8) as u16, s.2),
        Option::None => false,
    };
    if fx && top.3 && second_hit {
        spec_alpha_blend(
            top.0,
            second->Some_0.0,
            spec_coeff(bldalpha),
            spec_coeff((bldalpha >> 8) as u16),
        )
    } else if fx && mode == 1 && spec_target(bldcnt, top.2) && second_hit {
        spec_alpha_blend(
            top.0,
            second->Some_0.0,
            spec_coeff(bldalpha),
            spec_coeff((bldalpha >> 8) as u16),
        )
    } else if fx && mode == 2 && spec_target(bldcnt, top.2) {
        spec_brighten(top.0, spec_coeff(bldy))
    } else if fx && mode == 3 && spec_target(bldcnt, top.2) {
        spec_darken(top.0, spec_coeff(bldy))
    } else {
        top.0
    }
}

/// The width and height a sprite's shape and size fields select.
pub open spec fn spec_sprite_dims(shape: u16, size: u16) -> (int, int) {
    if shape == 0 {
        if size == 0 {
            (8int, 8int)
        } else if size == 1 {
            (16int, 16int)
        } else if size == 2 {
            (32int, 32int)
        } else {
            (64int, 64int)
        }
    } else if shape == 1 {
        if size == 0 {
            (16int, 8int)
        } else if size == 1 {
            (32int, 8int)
        } else if size == 2 {
            (32int, 16int)
        } else {
            (64int, 32int)
        }
    } else {
        if size == 0 {
            (8int, 16int)
        } else if size == 1 {
            (8int, 32int)
        } else if size == 2 {
            (16int, 32int)
        } else {
            (32int, 64int)
        }
    }
}

/// A sprite's sampled color from its tile data at texture point
/// `(dx, dy)`: four- or eight-bit pixels, one- or two-dimensional tile
/// mapping, zero meaning transparent.
pub open spec fn spec_sprite_sample(
    vram: Seq<u8>,
    pal: Seq<u8>,
    one_dim: bool,
    c8: bool,
    tile: int,
    palbank: int,
    w: int,
    dx: int,
    dy: int,
) -> Option<u16> {
    if c8 {
        let tindex = if one_dim {
            tile + (dy / 8) * (w / 8) * 2 + (dx / 8) * 2
        } else {
            tile + (dy / 8) * 32 + (dx / 8) * 2
        };
        let b = vram[0x10000 + (tindex * 32 + (dy % 8) * 8 + dx % 8) % 0x8000];
        if b == 0 {
            Option::None
        } else {
            Option::Some(spec_pal_color(pal, 256 + b))
        }
    } else {
        let tindex = if one_dim {
            tile + (dy / 8) * (w / 8) + dx / 8
        } else {
            tile + (dy / 8) * 32 + dx / 8
        };
        let b = vram[0x10000 + (tindex * 32 + (dy % 8) * 4 + (dx % 8) / 2) % 0x8000];
        let nib: int = if dx % 2 == 1 {
            (b >> 4) as int
        } else {
            (b & 0xf) as int
        };
        if nib == 0 {
            Option::None
        } else {
            Option::Some(spec_pal_color(pal, 256 + palbank * 16 + nib))
        }
    }
}

/// A texture coordinate of a sprite's affine transform: the 8.8 product
/// sum floored to a pixel, written over a non-negative offset.
pub open spec fn spec_sprite_tex(pa: int, pb: int, lx: int, ly: int) -> int {
    (pa * lx + pb * ly + 0x1000_0000) / 256 - 0x10_0000
}

/// Sprite `i`'s contribution at `(x, y)`: its color, priority and
/// semi-transparency, or nothing where the entry is disabled, is a
/// sprite-window entry (mode 2; the sprite window itself is not
/// modeled), misses the pixel, or is transparent there. A
/// rotation/scaling entry reads its parameter group and maps the screen
/// point back through the matrix about the (possibly doubled) aperture's
/// center; a mosaic entry samples the start of its mosaic block.
pub open spec fn spec_sprite_entry(
    oam: Seq<u8>,
    vram: Seq<u8>,
    pal: Seq<u8>,
    one_dim: bool,
    mosaic: u16,
    x: int,
    y: int,
    i: int,
) -> Option<(u16, u16, bool)> {
    let a0 = spec_half(oam[8 * i], oam[8 * i + 1]);
    let a1 = spec_half(oam[8 * i + 2], oam[8 * i + 3]);
    let a2 = spec_half(oam[8 * i + 4], oam[8 * i + 5]);
    let affine = a0 & 0x100 != 0;
    if (!affine && a0 & 0x200 != 0) || (a0 >> 10) & 3 >= 2 {
        Option::None
    } else {
        let mx = if a0 & 0x1000 != 0 {
            spec_mosaic_coord(x, ((mosaic >> 8) & 0xf) as u16)
        } else {
            x
        };
        let my = if a0 & 0x1000 != 0 {
            spec_mosaic_coord(y, ((mosaic >> 12) & 0xf) as u16)
        } else {
            y
        };
        let dims = spec_sprite_dims(a0 >> 14, a1 >> 14);
        let w = dims.0;
        let h = dims.1;
        let double = affine && a0 & 0x200 != 0;
        let bw = if double {
            2 * w
        } else {
            w
        };
        let bh = if double {
            2 * h
        } else {
            h
        };
        let sy: int = if (a0 & 0xff) >= 160 {
            (a0 & 0xff) - 256
        } else {
            (a0 & 0xff) as int
        };
        let sx: int = if (a1 & 0x1ff) >= 256 {
            (a1 & 0x1ff) - 512
        } else {
            (a1 & 0x1ff) as int
        };
        let dx0 = mx - sx;
        let dy0 = my - sy;
        if !(0 <= dx0 < bw && 0 <= dy0 < bh) {
            Option::None
        } else {
            let pri: u16 = (a2 >> 10) & 3;
            let semi = (a0 >> 10) & 3 == 1;
            match spec_sprite_pixel_at(oam, vram, pal, one_dim, a0, a1, a2, dx0, dy0, w, h, bw, bh) {
                Option::Some(c) => Option::Some((c, pri, semi)),
                Option::None => Option::None,
            }
        }
    }
}

/// A sprite's color at aperture point `(dx0, dy0)`: a rotation/scaling
/// entry maps the point back through its parameter group's matrix about
/// the aperture center; a plain entry applies its flips; both then sample
/// the tile data.
pub open spec fn spec_sprite_pixel_at(
    oam: Seq<u8>,
    vram: Seq<u8>,
    pal: Seq<u8>,
    one_dim: bool,
    a0: u16,
    a1: u16,
    a2: u16,
    dx0: int,
    dy0: int,
    w: int,
    h: int,
    bw: int,
    bh: int,
) -> Option<u16> {
    let tile: int = (a2 & 0x3ff) as int;
    let c8 = a0 & 0x2000 != 0;
    let palbank: int = (a2 >> 12) as int;
    if a0 & 0x100 != 0 {
        let g: int = ((a1 >> 9) & 0x1f) as int;
        let pa = spec_i16(spec_half(oam[32 * g + 6], oam[32 * g + 7]));
        let pb = spec_i16(spec_half(oam[32 * g + 14], oam[32 * g + 15]));
        let pc = spec_i16(spec_half(oam[32 * g + 22], oam[32 * g + 23]));
        let pd = spec_i16(spec_half(oam[32 * g + 30], oam[32 * g + 31]));
        let tx = spec_sprite_tex(pa, pb, dx0 - bw / 2, dy0 - bh / 2) + w / 2;
        let ty = spec_sprite_tex(pc, pd, dx0 - bw / 2, dy0 - bh / 2) + h / 2;
        if !(0 <= tx < w && 0 <= ty < h) {
            Option::None
        } else {
            spec_sprite_sample(vram, pal, one_dim, c8, tile, palbank, w, tx, ty)
        }
    } else {
        let dx = if a1 & 0x1000 != 0 {
            w - 1 - dx0
        } else {
            dx0
        };
        let dy = if a1 & 0x2000 != 0 {
            h - 1 - dy0
        } else {
            dy0
        };
        spec_sprite_sample(vram, pal, one_dim, c8, tile, palbank, w, dx, dy)
    }
}

/// The first opaque sprite at `(x, y)` searching the attribute table from
/// entry `i` up: the hardware takes the lowest-numbered entry.
pub open spec fn spec_sprite_from(
    oam: Seq<u8>,
    vram: Seq<u8>,
    pal: Seq<u8>,
    one_dim: bool,
    mosaic: u16,
    x: int,
    y: int,
    i: int,
) -> Option<(u16, u16, bool)>
    decreases 128 - i,
{
    if i >= 128 {
        Option::None
    } else {
        match spec_sprite_entry(oam, vram, pal, one_dim, mosaic, x, y, i) {
            Option::Some(c) => Option::Some(c),
            Option::None => spec_sprite_from(oam, vram, pal, one_dim, mosaic, x, y, i + 1),
        }
    }
}

/// One background's compositing candidate at `(x, y)`: the layer must be
/// switched on, pass the window mask, and hold a color at the point; the
/// result bundles that color with a depth value and a blend-target tag.
pub open spec fn spec_bg_cand(
    p: Ppu,
    pal: Seq<u8>,
    vram: Seq<u8>,
    gate: u16,
    bg: int,
    x: int,
    y: int,
) -> Option<(u16, u32, u32, bool)> {
    if spec_bg_enabled(p.dispcnt, bg) && (gate >> (bg as u32)) & 1 == 1 {
        match spec_bg_pixel(p, pal, vram, bg, x, y) {
            Option::Some(c) => Option::Some(
                (c, (spec_bg_priority(p, bg) * 8 + 1 + bg) as u32, bg as u32, false),
            ),
            Option::None => Option::None,
        }
    } else {
        Option::None
    }
}

/// The final color of pixel `(x, y)`: white under forced blank; otherwise
/// the window gate picks the layers in play, the opaque candidates stack
/// by priority (sprites in front of equal-priority backgrounds, the
/// backdrop underneath everything), and the blend unit finishes the top
/// of the stack against the layer beneath it.
#[verifier::opaque]
pub open spec fn spec_scanline_pixel(
    p: Ppu,
    pal: Seq<u8>,
    vram: Seq<u8>,
    oam: Seq<u8>,
    x: int,
    y: int,
) -> u32 {
    if p.dispcnt & 0x80 != 0 {
        0x00ffffff
    } else {
        let gate = spec_win_gate(p, x, y);
        let sp: Option<(u16, u32, u32, bool)> = if p.dispcnt & 0x1000 != 0 && gate & 0x10 != 0 {
            match spec_sprite_from(oam, vram, pal, p.dispcnt & 0x40 != 0, p.mosaic, x, y, 0) {
                Option::Some(s) => Option::Some((s.0, (s.1 * 8) as u32, 4u32, s.2)),
                Option::None => Option::None,
            }
        } else {
            Option::None
        };
        let backdrop: Option<(u16, u32, u32, bool)> = Option::Some(
            (spec_pal_color(pal, 0), 100u32, 5u32, false),
        );
        let acc = spec_take2(
            spec_take2(
                spec_take2(
                    spec_take2(
                        spec_take2(
                            spec_take2((Option::None, Option::None), sp),
                            spec_bg_cand(p, pal, vram, gate, 0, x, y),
                        ),
                        spec_bg_cand(p, pal, vram, gate, 1, x, y),
                    ),
                    spec_bg_cand(p, pal, vram, gate, 2, x, y),
                ),
                spec_bg_cand(p, pal, vram, gate, 3, x, y),
            ),
            backdrop,
        );
        spec_rgb(
            spec_apply_effects(
                acc.0->Some_0,
                acc.1,
                gate & 0x20 != 0,
                p.bldcnt,
                p.bldalpha,
                p.bldy,
            ),
        )
    }
}

/// Reads one palette color.
fn pal_color(pal: &Vec<u8>, idx: u32) -> (c: u16)
    requires
        pal@.len() == 0x400,
        idx < 512,
    ensures
        c == spec_pal_color(pal@, idx as int),
{
    half_from_bytes(pal[(2 * idx) as usize], pal[(2 * idx + 1) as usize])
}

/// Expands a 15-bit color to 0x00RRGGBB.
fn rgb(c: u16) -> (r: u32)
    ensures
        r == spec_rgb(c),
{
    ((((c & 0x1f) << 3) as u32) << 16) | (((((c >> 5) & 0x1f) << 3) as u32) << 8) | ((((c >> 10)
        & 0x1f) << 3) as u32)
}

/// The palette index of a text background's pixel.
fn text_bg_index(cnt: u16, hofs: u16, vofs: u16, vram: &Vec<u8>, x: u32, y: u32) -> (idx: u32)
    requires
        vram@.len() == 0x18000,
        x < 240,
        y < 160,
    ensures
        idx == spec_text_bg_index(cnt, hofs, vofs, vram@, x as int, y as int),
        idx < 256,
{
    let w: u32 = if (cnt >> 14) & 1 == 1 {
        512
    } else {
        256
    };
    let h: u32 = if (cnt >> 14) & 2 == 2 {
        512
    } else {
        256
    };
    let sx: u32 = (x + (hofs & 0x1ff) as u32) % w;
    let sy: u32 = (y + (vofs & 0x1ff) as u32) % h;
    let block: u32 = (if sx >= 256 {
        1u32
    } else {
        0u32
    }) + (if sy >= 256 {
        (if w == 512 {
            2u32
        } else {
            1u32
        })
    } else {
        0u32
    });
    let screen_base: u32 = ((cnt >> 8) & 0x1f) as u32 * 0x800 + block * 0x800;
    let entry_addr: u32 = (screen_base + (((sy % 256) / 8) * 32 + ((sx % 256) / 8)) * 2) % 0x10000;
    let entry: u16 = half_from_bytes(vram[entry_addr as usize], vram[(entry_addr + 1) as usize]);
    let tile: u32 = (entry & 0x3ff) as u32;
    let px: u32 = if entry & 0x400 != 0 {
        7 - (sx % 8)
    } else {
        sx % 8
    };
    let py: u32 = if entry & 0x800 != 0 {
        7 - (sy % 8)
    } else {
        sy % 8
    };
    let char_base: u32 = ((cnt >> 2) & 3) as u32 * 0x4000;
    if cnt & 0x80 != 0 {
        let b = vram[((char_base + tile * 64 + py * 8 + px) % 0x10000) as usize];
        b as u32
    } else {
        let b = vram[((char_base + tile * 32 + py * 4 + px / 2) % 0x10000) as usize];
        let nib: u32 = if px % 2 == 1 {
            (b >> 4) as u32
        } else {
            (b & 0xf) as u32
        };
        proof {
            assert((b >> 4) < 16 && (b & 0xf) < 16) by (bit_vector);
            assert((entry >> 12) & 0xf < 16) by (bit_vector);
        }
        if nib == 0 {
            0
        } else {
            ((entry >> 12) & 0xf) as u32 * 16 + nib
        }
    }
}

impl Ppu {
    /// One background layer's text or bitmap color at `(x, y)`.
    fn bg_color(&self, pal: &Vec<u8>, vram: &Vec<u8>, bg: u32, x: u32, y: u32) -> (c: Option<u16>)
        requires
            pal@.len() == 0x400,
            vram@.len() == 0x18000,
            bg < 4,
            x < 240,
            y < 160,
        ensures
            c == spec_bg_color(*self, pal@, vram@, bg as int, x as int, y as int),
    {
        let mode = self.dispcnt & 7;
        if mode == 0 || (mode == 1 && bg <= 1) {
            let cnt = if bg == 0 {
                self.bg0cnt
            } else if bg == 1 {
                self.bg1cnt
            } else if bg == 2 {
                self.bg2cnt
            } else {
                self.bg3cnt
            };
            let hofs = if bg == 0 {
                self.bg0hofs
            } else if bg == 1 {
                self.bg1hofs
            } else if bg == 2 {
                self.bg2hofs
            } else {
                self.bg3hofs
            };
            let vofs = if bg == 0 {
                self.bg0vofs
            } else if bg == 1 {
                self.bg1vofs
            } else if bg == 2 {
                self.bg2vofs
            } else {
                self.bg3vofs
            };
            let idx = text_bg_index(cnt, hofs, vofs, vram, x, y);
            if idx == 0 {
                Option::None
            } else {
                Option::Some(pal_color(pal, idx))
            }
        } else if mode == 3 && bg == 2 {
            let a: u32 = (y * 240 + x) * 2;
            Option::Some(half_from_bytes(vram[a as usize], vram[(a + 1) as usize]))
        } else if mode == 4 && bg == 2 {
            let base: u32 = if self.dispcnt & 0x10 != 0 {
                0xa000
            } else {
                0
            };
            let idx = vram[(base + y * 240 + x) as usize];
            if idx == 0 {
                Option::None
            } else {
                Option::Some(pal_color(pal, idx as u32))
            }
        } else if mode == 5 && bg == 2 {
            let base: u32 = if self.dispcnt & 0x10 != 0 {
                0xa000
            } else {
                0
            };
            if x < 160 && y < 128 {
                let a: u32 = base + (y * 160 + x) * 2;
                Option::Some(half_from_bytes(vram[a as usize], vram[(a + 1) as usize]))
            } else {
                Option::None
            }
        } else {
            Option::None
        }
    }
}

/// The signed value of a 16-bit affine parameter.
fn i16_of(h: u16) -> (v: i64)
    ensures
        v == spec_i16(h),
        -0x8000 <= v <= 0x7fff,
{
    if h >= 0x8000 {
        h as i64 - 0x10000
    } else {
        h as i64
    }
}

/// The signed value of a 28-bit affine reference point.
fn ref28_of(v: u32) -> (r: i64)
    ensures
        r == spec_ref28(v),
        -0x1000_0000 <= r < 0x1000_0000,
{
    if v & 0x0800_0000 != 0 {
        proof {
            assert(v & 0x0fff_ffff < 0x1000_0000) by (bit_vector);
        }
        (v & 0x0fff_ffff) as i64 - 0x1000_0000
    } else {
        proof {
            assert(v & 0x0fff_ffff < 0x1000_0000) by (bit_vector);
        }
        (v & 0x0fff_ffff) as i64
    }
}

/// A whole-pixel texture coordinate of the affine background transform.
fn affine_tex(refv: i64, pa: i64, pb: i64, x: u32, y: u32) -> (t: i64)
    requires
        -0x1000_0000 <= refv < 0x1000_0000,
        -0x8000 <= pa <= 0x7fff,
        -0x8000 <= pb <= 0x7fff,
        x < 240,
        y < 228,
    ensures
        t == spec_affine_tex(refv as int, pa as int, pb as int, x as int, y as int),
        -0x2000_0000 <= t <= 0x2000_0000,
{
    proof {
        assert(-0x800_0000 <= pa * x <= 0x800_0000 && -0x800_0000 <= pb * y
            <= 0x800_0000) by (nonlinear_arith)
            requires
                -0x8000 <= pa <= 0x7fff && -0x8000 <= pb <= 0x7fff && 0 <= x < 240 && 0 <= y
                    < 228,
        ;
    }
    let n: i64 = refv + pa * (x as i64) + pb * (y as i64) + 0x100_0000_0000;
    n / 256 - 0x1_0000_0000
}

/// The palette index of an affine background's pixel.
fn affine_bg_index(
    cnt: u16,
    refx: u32,
    refy: u32,
    pa: u16,
    pb: u16,
    pc: u16,
    pd: u16,
    vram: &Vec<u8>,
    x: u32,
    y: u32,
) -> (idx: u32)
    requires
        vram@.len() == 0x18000,
        x < 240,
        y < 228,
    ensures
        idx == spec_affine_bg_index(
            cnt,
            refx,
            refy,
            pa,
            pb,
            pc,
            pd,
            vram@,
            x as int,
            y as int,
        ),
        idx < 256,
{
    proof {
        assert((cnt >> 14) & 3 < 4) by (bit_vector);
        assert(128u32 << (((cnt >> 14) & 3) as u32) <= 1024 && 128u32 << (((cnt >> 14)
            & 3) as u32) >= 128) by (bit_vector);
    }
    let size: i64 = (128u32 << (((cnt >> 14) & 3) as u32)) as i64;
    let tx0 = affine_tex(ref28_of(refx), i16_of(pa), i16_of(pb), x, y);
    let ty0 = affine_tex(ref28_of(refy), i16_of(pc), i16_of(pd), x, y);
    let inside = (0 <= tx0 && tx0 < size && 0 <= ty0 && ty0 < size) || cnt & 0x2000 != 0;
    if !inside {
        0
    } else {
        let tx: i64 = (tx0 + 0x1_0000_0000) % size;
        let ty: i64 = (ty0 + 0x1_0000_0000) % size;
        let txu: u32 = tx as u32;
        let tyu: u32 = ty as u32;
        proof {
            assert((cnt >> 8) & 0x1f < 32 && (cnt >> 2) & 3 < 4) by (bit_vector);
            assert((tyu / 8) * (size as u32 / 8) <= 16256) by (nonlinear_arith)
                requires
                    tyu / 8 <= 127 && size as u32 / 8 <= 128,
            ;
        }
        let screen_base: u32 = ((cnt >> 8) & 0x1f) as u32 * 0x800;
        let char_base: u32 = ((cnt >> 2) & 3) as u32 * 0x4000;
        let entry = vram[((screen_base + (tyu / 8) * (size as u32 / 8) + txu / 8)
            % 0x10000) as usize];
        vram[((char_base + entry as u32 * 64 + (tyu % 8) * 8 + txu % 8) % 0x10000) as usize]
            as u32
    }
}

impl Ppu {
    /// One background layer's color in any mode, affine layers included.
    fn bg_layer_color(&self, pal: &Vec<u8>, vram: &Vec<u8>, bg: u32, x: u32, y: u32) -> (c: Option<
        u16,
    >)
        requires
            pal@.len() == 0x400,
            vram@.len() == 0x18000,
            bg < 4,
            x < 240,
            y < 160,
        ensures
            c == spec_bg_layer_color(*self, pal@, vram@, bg as int, x as int, y as int),
    {
        let mode = self.dispcnt & 7;
        if mode == 0 || (mode == 1 && bg <= 1) {
            self.bg_color(pal, vram, bg, x, y)
        } else if (mode == 1 || mode == 2) && bg == 2 {
            let idx = affine_bg_index(
                self.bg2cnt,
                self.bg2x,
                self.bg2y,
                self.bg2pa,
                self.bg2pb,
                self.bg2pc,
                self.bg2pd,
                vram,
                x,
                y,
            );
            if idx == 0 {
                Option::None
            } else {
                Option::Some(pal_color(pal, idx))
            }
        } else if mode == 2 && bg == 3 {
            let idx = affine_bg_index(
                self.bg3cnt,
                self.bg3x,
                self.bg3y,
                self.bg3pa,
                self.bg3pb,
                self.bg3pc,
                self.bg3pd,
                vram,
                x,
                y,
            );
            if idx == 0 {
                Option::None
            } else {
                Option::Some(pal_color(pal, idx))
            }
        } else if mode >= 3 && bg == 2 {
            self.bg_color(pal, vram, bg, x, y)
        } else {
            Option::None
        }
    }

    /// One background layer's pixel with its mosaic applied.
    fn bg_pixel(&self, pal: &Vec<u8>, vram: &Vec<u8>, bg: u32, x: u32, y: u32) -> (c: Option<u16>)
        requires
            pal@.len() == 0x400,
            vram@.len() == 0x18000,
            bg < 4,
            x < 240,
            y < 160,
        ensures
            c == spec_bg_pixel(*self, pal@, vram@, bg as int, x as int, y as int),
    {
        let cnt = if bg == 0 {
            self.bg0cnt
        } else if bg == 1 {
            self.bg1cnt
        } else if bg == 2 {
            self.bg2cnt
        } else {
            self.bg3cnt
        };
        if cnt & 0x40 != 0 {
            let mo: u16 = self.mosaic;
            proof {
                assert(mo & 0xf < 16 && (mo >> 4) & 0xf < 16) by (bit_vector);
            }
            let mh: u32 = (mo & 0xf) as u32 + 1;
            let mv: u32 = ((mo >> 4) & 0xf) as u32 + 1;
            proof {
                assert(x % mh <= x && y % mv <= y) by (nonlinear_arith)
                    requires
                        mh > 0 && mv > 0,
                ;
            }
            self.bg_layer_color(pal, vram, bg, x - x % mh, y - y % mv)
        } else {
            self.bg_layer_color(pal, vram, bg, x, y)
        }
    }

    /// The six-bit window gate at `(x, y)`.
    fn win_gate(&self, x: u32, y: u32) -> (g: u16)
        ensures
            g == spec_win_gate(*self, x as int, y as int),
            g <= 0x3f,
    {
        let wi: u16 = self.winin;
        let wo: u16 = self.winout;
        proof {
            assert(wi & 0x3f <= 0x3f && (wi >> 8) & 0x3f <= 0x3f && wo & 0x3f
                <= 0x3f) by (bit_vector);
        }
        if self.dispcnt & 0xe000 == 0 {
            0x3f
        } else if self.dispcnt & 0x2000 != 0 && in_window(x, y, self.win0h, self.win0v) {
            wi & 0x3f
        } else if self.dispcnt & 0x4000 != 0 && in_window(x, y, self.win1h, self.win1v) {
            (wi >> 8) & 0x3f
        } else {
            wo & 0x3f
        }
    }
}

/// Whether `(x, y)` lies inside a window's bounds.
fn in_window(x: u32, y: u32, h: u16, v: u16) -> (r: bool)
    ensures
        r == spec_in_window(x as int, y as int, h, v),
{
    let x1: u32 = (h >> 8) as u32;
    let x2: u32 = (h & 0xff) as u32;
    let y1: u32 = (v >> 8) as u32;
    let y2: u32 = (v & 0xff) as u32;
    let hx = if x1 <= x2 {
        x1 <= x && x < x2
    } else {
        x >= x1 || x < x2
    };
    let hy = if y1 <= y2 {
        y1 <= y && y < y2
    } else {
        y >= y1 || y < y2
    };
    hx && hy
}

/// Stacks a candidate into the running top-two.
fn take2(
    acc: (Option<(u16, u32, u32, bool)>, Option<(u16, u32, u32, bool)>),
    c: Option<(u16, u32, u32, bool)>,
) -> (r: (Option<(u16, u32, u32, bool)>, Option<(u16, u32, u32, bool)>))
    ensures
        r == spec_take2(acc, c),
{
    match c {
        Option::None => acc,
        Option::Some(cc) => match acc.0 {
            Option::None => (c, acc.1),
            Option::Some(t) => if cc.1 < t.1 {
                (c, acc.0)
            } else {
                match acc.1 {
                    Option::None => (acc.0, c),
                    Option::Some(s) => if cc.1 < s.1 {
                        (acc.0, c)
                    } else {
                        acc
                    },
                }
            },
        },
    }
}

/// One channel of a 15-bit color.
fn ch5(c: u16, shift: u32) -> (v: u32)
    requires
        shift < 16,
    ensures
        v == spec_ch5(c, shift),
        v <= 31,
{
    proof {
        assert((c >> shift) & 0x1f <= 31) by (bit_vector);
    }
    ((c >> shift) & 0x1f) as u32
}

/// A blend coefficient, capped at sixteen.
fn coeff(v: u16) -> (r: u32)
    ensures
        r == spec_coeff(v),
        r <= 16,
{
    proof {
        assert(v & 0x1f < 32) by (bit_vector);
    }
    let f = (v & 0x1f) as u32;
    if f >= 16 {
        16
    } else {
        f
    }
}

/// Builds a 15-bit color from bounded channels.
fn color5(r: u32, g: u32, b: u32) -> (c: u16)
    requires
        r <= 31,
        g <= 31,
        b <= 31,
    ensures
        c == spec_color5(r as int, g as int, b as int),
{
    (r + 32 * g + 1024 * b) as u16
}

/// Alpha blending of two colors.
fn alpha_blend(c1: u16, c2: u16, eva: u32, evb: u32) -> (c: u16)
    requires
        eva <= 16,
        evb <= 16,
    ensures
        c == spec_alpha_blend(c1, c2, eva as int, evb as int),
{
    let r1 = ch5(c1, 0);
    let g1 = ch5(c1, 5);
    let b1 = ch5(c1, 10);
    let r2 = ch5(c2, 0);
    let g2 = ch5(c2, 5);
    let b2 = ch5(c2, 10);
    proof {
        assert(r1 * eva <= 496 && g1 * eva <= 496 && b1 * eva <= 496 && r2 * evb <= 496 && g2
            * evb <= 496 && b2 * evb <= 496) by (nonlinear_arith)
            requires
                r1 <= 31 && g1 <= 31 && b1 <= 31 && r2 <= 31 && g2 <= 31 && b2 <= 31 && eva
                    <= 16 && evb <= 16,
        ;
    }
    let r = (r1 * eva + r2 * evb) / 16;
    let g = (g1 * eva + g2 * evb) / 16;
    let b = (b1 * eva + b2 * evb) / 16;
    color5(
        if r > 31 {
            31
        } else {
            r
        },
        if g > 31 {
            31
        } else {
            g
        },
        if b > 31 {
            31
        } else {
            b
        },
    )
}

/// Brightness increase toward white.
fn brighten(c: u16, evy: u32) -> (r: u16)
    requires
        evy <= 16,
    ensures
        r == spec_brighten(c, evy as int),
{
    let r0 = ch5(c, 0);
    let g0 = ch5(c, 5);
    let b0 = ch5(c, 10);
    proof {
        assert((31 - r0) * evy <= 496 && (31 - g0) * evy <= 496 && (31 - b0) * evy <= 496
            && (31 - r0) * evy / 16 <= 31 - r0 && (31 - g0) * evy / 16 <= 31 - g0 && (31 - b0)
            * evy / 16 <= 31 - b0) by (nonlinear_arith)
            requires
                r0 <= 31 && g0 <= 31 && b0 <= 31 && evy <= 16,
        ;
    }
    color5(
        r0 + (31 - r0) * evy / 16,
        g0 + (31 - g0) * evy / 16,
        b0 + (31 - b0) * evy / 16,
    )
}

/// Brightness decrease toward black.
fn darken(c: u16, evy: u32) -> (r: u16)
    requires
        evy <= 16,
    ensures
        r == spec_darken(c, evy as int),
{
    let r0 = ch5(c, 0);
    let g0 = ch5(c, 5);
    let b0 = ch5(c, 10);
    proof {
        assert(r0 * evy <= 496 && g0 * evy <= 496 && b0 * evy <= 496 && r0 * evy / 16 <= r0
            && g0 * evy / 16 <= g0 && b0 * evy / 16 <= b0) by (nonlinear_arith)
            requires
                r0 <= 31 && g0 <= 31 && b0 <= 31 && evy <= 16,
        ;
    }
    color5(r0 - r0 * evy / 16, g0 - g0 * evy / 16, b0 - b0 * evy / 16)
}

/// The colour leaving the blend unit.
fn apply_effects(
    top: (u16, u32, u32, bool),
    second: Option<(u16, u32, u32, bool)>,
    fx: bool,
    bldcnt: u16,
    bldalpha: u16,
    bldy: u16,
) -> (c: u16)
    requires
        top.2 <= 5,
        second is Some ==> second->Some_0.2 <= 5,
    ensures
        c == spec_apply_effects(top, second, fx, bldcnt, bldalpha, bldy),
{
    let mode = (bldcnt >> 6) & 3;
    let second_hit = match second {
        Option::Some(s) => (bldcnt >> 8) >> s.2 & 1 == 1,
        Option::None => false,
    };
    let first_hit = bldcnt >> top.2 & 1 == 1;
    if fx && top.3 && second_hit {
        alpha_blend(top.0, second.unwrap().0, coeff(bldalpha), coeff(bldalpha >> 8))
    } else if fx && mode == 1 && first_hit && second_hit {
        alpha_blend(top.0, second.unwrap().0, coeff(bldalpha), coeff(bldalpha >> 8))
    } else if fx && mode == 2 && first_hit {
        brighten(top.0, coeff(bldy))
    } else if fx && mode == 3 && first_hit {
        darken(top.0, coeff(bldy))
    } else {
        top.0
    }
}

/// The width and height of a sprite.
fn sprite_dims(shape: u16, size: u16) -> (d: (u32, u32))
    ensures
        (d.0 as int, d.1 as int) == spec_sprite_dims(shape, size),
        8 <= d.0 <= 64,
        8 <= d.1 <= 64,
{
    if shape == 0 {
        if size == 0 {
            (8, 8)
        } else if size == 1 {
            (16, 16)
        } else if size == 2 {
            (32, 32)
        } else {
            (64, 64)
        }
    } else if shape == 1 {
        if size == 0 {
            (16, 8)
        } else if size == 1 {
            (32, 8)
        } else if size == 2 {
            (32, 16)
        } else {
            (64, 32)
        }
    } else {
        if size == 0 {
            (8, 16)
        } else if size == 1 {
            (8, 32)
        } else if size == 2 {
            (16, 32)
        } else {
            (32, 64)
        }
    }
}

/// A sprite's sampled color from its tile data.
#[verifier::rlimit(100)]
#[verifier::spinoff_prover]
fn sprite_sample(
    vram: &Vec<u8>,
    pal: &Vec<u8>,
    one_dim: bool,
    c8: bool,
    tile: u32,
    palbank: u32,
    w: u32,
    dx: u32,
    dy: u32,
) -> (c: Option<u16>)
    requires
        vram@.len() == 0x18000,
        pal@.len() == 0x400,
        tile < 1024,
        palbank < 16,
        8 <= w <= 64,
        dx < w,
        dy < 64,
    ensures
        c == spec_sprite_sample(
            vram@,
            pal@,
            one_dim,
            c8,
            tile as int,
            palbank as int,
            w as int,
            dx as int,
            dy as int,
        ),
{
    proof {
        assert((dy / 8) * (w / 8) <= 56) by (nonlinear_arith)
            requires
                dy / 8 <= 7 && w / 8 <= 8,
        ;
    }
    if c8 {
        let tindex: u32 = if one_dim {
            tile + (dy / 8) * (w / 8) * 2 + (dx / 8) * 2
        } else {
            tile + (dy / 8) * 32 + (dx / 8) * 2
        };
        let b = vram[(0x10000 + (tindex * 32 + (dy % 8) * 8 + dx % 8) % 0x8000) as usize];
        if b == 0 {
            Option::None
        } else {
            Option::Some(pal_color(pal, 256 + b as u32))
        }
    } else {
        let tindex: u32 = if one_dim {
            tile + (dy / 8) * (w / 8) + dx / 8
        } else {
            tile + (dy / 8) * 32 + dx / 8
        };
        let b = vram[(0x10000 + (tindex * 32 + (dy % 8) * 4 + (dx % 8) / 2) % 0x8000) as usize];
        let nib: u32 = if dx % 2 == 1 {
            (b >> 4) as u32
        } else {
            (b & 0xf) as u32
        };
        proof {
            assert((b >> 4) < 16 && (b & 0xf) < 16) by (bit_vector);
        }
        if nib == 0 {
            Option::None
        } else {
            Option::Some(pal_color(pal, 256 + palbank * 16 + nib))
        }
    }
}

/// One sprite's contribution at `(x, y)`.
#[verifier::rlimit(100)]
#[verifier::spinoff_prover]
fn sprite_entry(
    oam: &Vec<u8>,
    vram: &Vec<u8>,
    pal: &Vec<u8>,
    one_dim: bool,
    mosaic: u16,
    x: u32,
    y: u32,
    i: u32,
) -> (r: Option<(u16, u16, bool)>)
    requires
        oam@.len() == 0x400,
        vram@.len() == 0x18000,
        pal@.len() == 0x400,
        x < 240,
        y < 160,
        i < 128,
    ensures
        r == spec_sprite_entry(oam@, vram@, pal@, one_dim, mosaic, x as int, y as int, i as int),
{
    let a0: u16 = half_from_bytes(oam[(8 * i) as usize], oam[(8 * i + 1) as usize]);
    let a1: u16 = half_from_bytes(oam[(8 * i + 2) as usize], oam[(8 * i + 3) as usize]);
    let a2: u16 = half_from_bytes(oam[(8 * i + 4) as usize], oam[(8 * i + 5) as usize]);
    let affine = a0 & 0x100 != 0;
    proof {
        assert((a0 >> 10) & 3 <= 3 && (a2 >> 10) & 3 <= 3 && (a2 >> 12) < 16 && a2 & 0x3ff
            < 1024 && (a1 >> 9) & 0x1f < 32 && (mosaic >> 8) & 0xf < 16 && (mosaic >> 12) & 0xf
            < 16) by (bit_vector);
    }
    if (!affine && a0 & 0x200 != 0) || (a0 >> 10) & 3 >= 2 {
        return Option::None;
    }
    let mh: u32 = ((mosaic >> 8) & 0xf) as u32 + 1;
    let mv: u32 = ((mosaic >> 12) & 0xf) as u32 + 1;
    proof {
        assert(x % mh <= x && y % mv <= y) by (nonlinear_arith)
            requires
                mh > 0 && mv > 0,
        ;
    }
    let mx: u32 = if a0 & 0x1000 != 0 {
        x - x % mh
    } else {
        x
    };
    let my: u32 = if a0 & 0x1000 != 0 {
        y - y % mv
    } else {
        y
    };
    let dims = sprite_dims(a0 >> 14, a1 >> 14);
    let w: u32 = dims.0;
    let h: u32 = dims.1;
    let double = affine && a0 & 0x200 != 0;
    let bw: i64 = if double {
        2 * w as i64
    } else {
        w as i64
    };
    let bh: i64 = if double {
        2 * h as i64
    } else {
        h as i64
    };
    let sy: i64 = if (a0 & 0xff) >= 160 {
        (a0 & 0xff) as i64 - 256
    } else {
        (a0 & 0xff) as i64
    };
    let sx: i64 = if (a1 & 0x1ff) >= 256 {
        (a1 & 0x1ff) as i64 - 512
    } else {
        (a1 & 0x1ff) as i64
    };
    let dx0: i64 = mx as i64 - sx;
    let dy0: i64 = my as i64 - sy;
    if !(0 <= dx0 && dx0 < bw && 0 <= dy0 && dy0 < bh) {
        return Option::None;
    }
    let pri: u16 = (a2 >> 10) & 3;
    let semi = (a0 >> 10) & 3 == 1;
    match sprite_pixel_at(oam, vram, pal, one_dim, a0, a1, a2, dx0, dy0, w, h, bw, bh) {
        Option::Some(c) => Option::Some((c, pri, semi)),
        Option::None => Option::None,
    }
}

/// A sprite's color at an aperture point.
#[verifier::rlimit(100)]
#[verifier::spinoff_prover]
fn sprite_pixel_at(
    oam: &Vec<u8>,
    vram: &Vec<u8>,
    pal: &Vec<u8>,
    one_dim: bool,
    a0: u16,
    a1: u16,
    a2: u16,
    dx0: i64,
    dy0: i64,
    w: u32,
    h: u32,
    bw: i64,
    bh: i64,
) -> (r: Option<u16>)
    requires
        oam@.len() == 0x400,
        vram@.len() == 0x18000,
        pal@.len() == 0x400,
        8 <= w <= 64,
        8 <= h <= 64,
        bw == w || bw == 2 * w,
        bh == h || bh == 2 * h,
        0 <= dx0 < bw,
        0 <= dy0 < bh,
        a0 & 0x100 == 0 ==> bw == w && bh == h,
    ensures
        r == spec_sprite_pixel_at(
            oam@,
            vram@,
            pal@,
            one_dim,
            a0,
            a1,
            a2,
            dx0 as int,
            dy0 as int,
            w as int,
            h as int,
            bw as int,
            bh as int,
        ),
{
    let tile: u32 = (a2 & 0x3ff) as u32;
    let c8 = a0 & 0x2000 != 0;
    let palbank: u32 = (a2 >> 12) as u32;
    proof {
        assert(a2 & 0x3ff < 1024 && (a2 >> 12) < 16 && (a1 >> 9) & 0x1f < 32) by (bit_vector);
    }
    if a0 & 0x100 != 0 {
        let g: u32 = ((a1 >> 9) & 0x1f) as u32;
        let pa = i16_of(half_from_bytes(oam[(32 * g + 6) as usize], oam[(32 * g + 7) as usize]));
        let pb = i16_of(
            half_from_bytes(oam[(32 * g + 14) as usize], oam[(32 * g + 15) as usize]),
        );
        let pc = i16_of(
            half_from_bytes(oam[(32 * g + 22) as usize], oam[(32 * g + 23) as usize]),
        );
        let pd = i16_of(
            half_from_bytes(oam[(32 * g + 30) as usize], oam[(32 * g + 31) as usize]),
        );
        let lx: i64 = dx0 - bw / 2;
        let ly: i64 = dy0 - bh / 2;
        let tx: i64 = sprite_tex(pa, pb, lx, ly) + (w / 2) as i64;
        let ty: i64 = sprite_tex(pc, pd, lx, ly) + (h / 2) as i64;
        if 0 <= tx && tx < w as i64 && 0 <= ty && ty < h as i64 {
            sprite_sample(vram, pal, one_dim, c8, tile, palbank, w, tx as u32, ty as u32)
        } else {
            Option::None
        }
    } else {
        let dx: u32 = if a1 & 0x1000 != 0 {
            (w as i64 - 1 - dx0) as u32
        } else {
            dx0 as u32
        };
        let dy: u32 = if a1 & 0x2000 != 0 {
            (h as i64 - 1 - dy0) as u32
        } else {
            dy0 as u32
        };
        sprite_sample(vram, pal, one_dim, c8, tile, palbank, w, dx, dy)
    }
}

/// A whole-pixel texture coordinate of a sprite's affine transform.
fn sprite_tex(pa: i64, pb: i64, lx: i64, ly: i64) -> (t: i64)
    requires
        -0x8000 <= pa <= 0x7fff,
        -0x8000 <= pb <= 0x7fff,
        -128 <= lx <= 127,
        -128 <= ly <= 127,
    ensures
        t == spec_sprite_tex(pa as int, pb as int, lx as int, ly as int),
        -0x1_0000 <= t <= 0x1_0000,
{
    proof {
        assert(-0x40_0000 <= pa * lx <= 0x40_0000 && -0x40_0000 <= pb * ly
            <= 0x40_0000) by (nonlinear_arith)
            requires
                -0x8000 <= pa <= 0x7fff && -0x8000 <= pb <= 0x7fff && -128 <= lx <= 127 && -128
                    <= ly <= 127,
        ;
    }
    (pa * lx + pb * ly + 0x1000_0000) / 256 - 0x10_0000
}

/// The first opaque sprite covering `(x, y)` in table order.
fn first_sprite(
    oam: &Vec<u8>,
    vram: &Vec<u8>,
    pal: &Vec<u8>,
    one_dim: bool,
    mosaic: u16,
    x: u32,
    y: u32,
) -> (r: Option<(u16, u16, bool)>)
    requires
        oam@.len() == 0x400,
        vram@.len() == 0x18000,
        pal@.len() == 0x400,
        x < 240,
        y < 160,
    ensures
        r == spec_sprite_from(oam@, vram@, pal@, one_dim, mosaic, x as int, y as int, 0),
{
    let mut i: u32 = 0;
    while i < 128
        invariant
            oam@.len() == 0x400,
            vram@.len() == 0x18000,
            pal@.len() == 0x400,
            x < 240,
            y < 160,
            i <= 128,
            spec_sprite_from(oam@, vram@, pal@, one_dim, mosaic, x as int, y as int, 0)
                == spec_sprite_from(oam@, vram@, pal@, one_dim, mosaic, x as int, y as int, i as int),
        decreases 128 - i,
    {
        let hit = sprite_entry(oam, vram, pal, one_dim, mosaic, x, y, i);
        if hit.is_some() {
            return hit;
        }
        i = i + 1;
    }
    Option::None
}

impl Ppu {
    /// One background's compositing candidate under the window gate.
    fn bg_cand(
        &self,
        pal: &Vec<u8>,
        vram: &Vec<u8>,
        gate: u16,
        bg: u32,
        x: u32,
        y: u32,
    ) -> (r: Option<(u16, u32, u32, bool)>)
        requires
            pal@.len() == 0x400,
            vram@.len() == 0x18000,
            bg < 4,
            x < 240,
            y < 160,
        ensures
            r == spec_bg_cand(*self, pal@, vram@, gate, bg as int, x as int, y as int),
            r is Some ==> r->Some_0.2 <= 5,
    {
        let enabled = if bg == 0 {
            self.dispcnt & 0x100 != 0
        } else if bg == 1 {
            self.dispcnt & 0x200 != 0
        } else if bg == 2 {
            self.dispcnt & 0x400 != 0
        } else {
            self.dispcnt & 0x800 != 0
        };
        if enabled && (gate >> bg) & 1 == 1 {
            let cnt = if bg == 0 {
                self.bg0cnt
            } else if bg == 1 {
                self.bg1cnt
            } else if bg == 2 {
                self.bg2cnt
            } else {
                self.bg3cnt
            };
            match self.bg_pixel(pal, vram, bg, x, y) {
                Option::Some(c) => Option::Some(
                    (c, (cnt & 3) as u32 * 8 + 1 + bg, bg, false),
                ),
                Option::None => Option::None,
            }
        } else {
            Option::None
        }
    }

    /// The final color of one pixel, the whole pipeline: windows, layer
    /// stacking, and the blend unit.
    #[verifier::rlimit(100)]
    #[verifier::spinoff_prover]
    fn scanline_pixel(&self, pal: &Vec<u8>, vram: &Vec<u8>, oam: &Vec<u8>, x: u32, y: u32) -> (px:
        u32)
        requires
            pal@.len() == 0x400,
            vram@.len() == 0x18000,
            oam@.len() == 0x400,
            x < 240,
            y < 160,
        ensures
            px == spec_scanline_pixel(*self, pal@, vram@, oam@, x as int, y as int),
    {
        proof {
            reveal(spec_scanline_pixel);
        }
        if self.dispcnt & 0x80 != 0 {
            return 0x00ff_ffff;
        }
        let gate = self.win_gate(x, y);
        let sp: Option<(u16, u32, u32, bool)> = if self.dispcnt & 0x1000 != 0 && gate & 0x10
            != 0 {
            match first_sprite(oam, vram, pal, self.dispcnt & 0x40 != 0, self.mosaic, x, y) {
                Option::Some(s) => Option::Some((s.0, s.1 as u32 * 8, 4u32, s.2)),
                Option::None => Option::None,
            }
        } else {
            Option::None
        };
        let backdrop: Option<(u16, u32, u32, bool)> = Option::Some(
            (pal_color(pal, 0), 100u32, 5u32, false),
        );
        let a1 = take2((Option::None, Option::None), sp);
        let a2 = take2(a1, self.bg_cand(pal, vram, gate, 0, x, y));
        let a3 = take2(a2, self.bg_cand(pal, vram, gate, 1, x, y));
        let a4 = take2(a3, self.bg_cand(pal, vram, gate, 2, x, y));
        let a5 = take2(a4, self.bg_cand(pal, vram, gate, 3, x, y));
        let acc = take2(a5, backdrop);
        let top = acc.0.unwrap();
        let c5 = apply_effects(
            top,
            acc.1,
            gate & 0x20 != 0,
            self.bldcnt,
            self.bldalpha,
            self.bldy,
        );
        rgb(c5)
    }
}


/// The pixel pipeline reads only the display registers, never the frame
/// buffer: two register-identical PPUs render the same pixel.
#[verifier::rlimit(100)]
#[verifier::spinoff_prover]
proof fn lemma_scanline_pixel_ignores_fb(
    p1: Ppu,
    p2: Ppu,
    pal: Seq<u8>,
    vram: Seq<u8>,
    oam: Seq<u8>,
    x: int,
    y: int,
)
    requires
        p1 == (Ppu { frame_buffer: p1.frame_buffer, ..p2 }),
    ensures
        spec_scanline_pixel(p1, pal, vram, oam, x, y) == spec_scanline_pixel(p2, pal, vram, oam, x, y),
{
    reveal(spec_scanline_pixel);
}

impl Ppu {
    /// A fresh PPU: black frame buffer, all registers zero.
    pub fn new() -> (p: Ppu)
        ensures
            ppu_wf(p),
            forall|j: int| 0 <= j < 38400 ==> p.frame_buffer@[j] == 0,
            p == (Ppu {
                frame_buffer: p.frame_buffer,
                dispcnt: 0,
                dispstat: 0,
                vcount: 0,
                dot: 0,
                bg0cnt: 0,
                bg1cnt: 0,
                bg2cnt: 0,
                bg3cnt: 0,
                bg0hofs: 0,
                bg0vofs: 0,
                bg1hofs: 0,
                bg1vofs: 0,
                bg2hofs: 0,
                bg2vofs: 0,
                bg3hofs: 0,
                bg3vofs: 0,
                bg2pa: 0,
                bg2pb: 0,
                bg2pc: 0,
                bg2pd: 0,
                bg3pa: 0,
                bg3pb: 0,
                bg3pc: 0,
                bg3pd: 0,
                bg2x: 0,
                bg2y: 0,
                bg3x: 0,
                bg3y: 0,
                win0h: 0,
                win1h: 0,
                win0v: 0,
                win1v: 0,
                winin: 0,
                winout: 0,
                mosaic: 0,
                bldcnt: 0,
                bldalpha: 0,
                bldy: 0,
            }),
    {
        let mut fb: Vec<u32> = Vec::new();
        let mut i: usize = 0;
        while i < 38400
            invariant
                fb@.len() == i,
                i <= 38400,
                forall|j: int| 0 <= j < i ==> fb@[j] == 0,
            decreases 38400 - i,
        {
            fb.push(0);
            i = i + 1;
        }
        Ppu {
            frame_buffer: fb,
            dispcnt: 0,
            dispstat: 0,
            vcount: 0,
            dot: 0,
            bg0cnt: 0,
            bg1cnt: 0,
            bg2cnt: 0,
            bg3cnt: 0,
            bg0hofs: 0,
            bg0vofs: 0,
            bg1hofs: 0,
            bg1vofs: 0,
            bg2hofs: 0,
            bg2vofs: 0,
            bg3hofs: 0,
            bg3vofs: 0,
            bg2pa: 0,
            bg2pb: 0,
            bg2pc: 0,
            bg2pd: 0,
            bg3pa: 0,
            bg3pb: 0,
            bg3pc: 0,
            bg3pd: 0,
            bg2x: 0,
            bg2y: 0,
            bg3x: 0,
            bg3y: 0,
            win0h: 0,
            win1h: 0,
            win0v: 0,
            win1v: 0,
            winin: 0,
            winout: 0,
            mosaic: 0,
            bldcnt: 0,
            bldalpha: 0,
            bldy: 0,
        }
    }

    /// Renders one row of the frame buffer from the register state live at
    /// the moment of the call: exactly row `line` changes, and each of its
    /// pixels is the composited color of the pipeline.
    pub fn render_scanline(&mut self, pal: &Vec<u8>, vram: &Vec<u8>, oam: &Vec<u8>, line: u16)
        requires
            ppu_wf(*old(self)),
            pal@.len() == 0x400,
            vram@.len() == 0x18000,
            oam@.len() == 0x400,
            line < 160,
        ensures
            ppu_wf(*final(self)),
            *final(self) == (Ppu { frame_buffer: final(self).frame_buffer, ..*old(self) }),
            final(self).frame_buffer@.len() == old(self).frame_buffer@.len(),
            forall|i: int|
                0 <= i < 38400 && (i < line * 240 || i >= line * 240 + 240) ==> final(self).frame_buffer@[i] == old(self).frame_buffer@[i],
            forall|x: int|
                0 <= x < 240 ==> final(self).frame_buffer@[line * 240 + x] == spec_scanline_pixel(
                    *old(self),
                    pal@,
                    vram@,
                    oam@,
                    x,
                    line as int,
                ),
    {
        let mut x: u32 = 0;
        while x < 240
            invariant
                ppu_wf(*old(self)),
                pal@.len() == 0x400,
                vram@.len() == 0x18000,
                oam@.len() == 0x400,
                line < 160,
                x <= 240,
                *self == (Ppu { frame_buffer: self.frame_buffer, ..*old(self) }),
                self.frame_buffer@.len() == 38400,
                forall|i: int|
                    0 <= i < 38400 && (i < line * 240 || i >= line * 240 + x) ==> self.frame_buffer@[i]
                        == old(self).frame_buffer@[i],
                forall|k: int|
                    0 <= k < x ==> self.frame_buffer@[line * 240 + k] == spec_scanline_pixel(
                        *old(self),
                        pal@,
                        vram@,
                        oam@,
                        k,
                        line as int,
                    ),
            decreases 240 - x,
        {
            let px: u32 = self.scanline_pixel(pal, vram, oam, x, line as u32);
            proof {
                lemma_scanline_pixel_ignores_fb(
                    *self,
                    *old(self),
                    pal@,
                    vram@,
                    oam@,
                    x as int,
                    line as int,
                );
            }
            self.frame_buffer.set((line as usize) * 240 + x as usize, px);
            x = x + 1;
        }
    }

    /// Advances the dot clock by at most one scanline's worth of cycles.
    /// HBlank is entered when the dot counter crosses the visible width;
    /// VBlank exactly when the line counter reaches the first blanked
    /// line. Each visible line is rendered as it enters HBlank, from the
    /// register state live now. Interrupt bits are gated by the status
    /// register's enables: VBlank bit 3, HBlank bit 4, the scanline match
    /// bit 5.
    #[verifier::rlimit(100)]
    #[verifier::spinoff_prover]
    pub fn advance(&mut self, pal: &Vec<u8>, vram: &Vec<u8>, oam: &Vec<u8>, cycles: u32) -> (ev:
        PpuStep)
        requires
            ppu_wf(*old(self)),
            pal@.len() == 0x400,
            vram@.len() == 0x18000,
            oam@.len() == 0x400,
            1 <= cycles <= 1232,
        ensures
            ppu_wf(*final(self)),
            *final(self) == (Ppu {
                frame_buffer: final(self).frame_buffer,
                vcount: final(self).vcount,
                dot: final(self).dot,
                ..*old(self)
            }),
            final(self).vcount * 1232 + final(self).dot == (old(self).vcount * 1232 + old(self).dot + cycles) % 280896,
            ev.hblank == (old(self).dot < 960 && old(self).dot + cycles >= 960) || (old(self).dot
                >= 960 && old(self).dot + cycles >= 2192),
            ev.vblank == (old(self).vcount * 1232 + old(self).dot < 197120 && old(self).vcount
                * 1232 + old(self).dot + cycles >= 197120),
            ev.irq == ((if ev.vblank && old(self).dispstat & 8 != 0 {
                IRQ_VBLANK
            } else {
                0u16
            }) | (if ev.hblank && old(self).dispstat & 0x10 != 0 {
                IRQ_HBLANK
            } else {
                0u16
            }) | (if final(self).vcount != old(self).vcount && final(self).vcount == old(self).dispstat >> 8 && old(self).dispstat & 0x20 != 0 {
                IRQ_VCOUNT
            } else {
                0u16
            })),
            ({
                let line: int = if old(self).dot < 960 {
                    old(self).vcount as int
                } else {
                    (old(self).vcount + 1) % 228
                };
                &&& (ev.hblank && line < 160 ==> (forall|i: int|
                    0 <= i < 38400 && (i < line * 240 || i >= line * 240 + 240) ==> final(self).frame_buffer@[i] == old(self).frame_buffer@[i]) && (forall|x: int|
                    0 <= x < 240 ==> final(self).frame_buffer@[line * 240 + x]
                        == spec_scanline_pixel(*old(self), pal@, vram@, oam@, x, line)))
                &&& (!(ev.hblank && line < 160) ==> final(self).frame_buffer@ == old(self).frame_buffer@)
            }),
    {
        let dot0 = self.dot;
        let vc0 = self.vcount;
        let d: u32 = dot0 + cycles;
        let mut hblank = false;
        let mut vblank = false;
        if dot0 < 960 && d >= 960 {
            hblank = true;
            if vc0 < 160 {
                self.render_scanline(pal, vram, oam, vc0);
            }
        } else if dot0 >= 960 && d >= 2192 {
            hblank = true;
            let line2: u16 = if vc0 + 1 == 228 {
                0
            } else {
                vc0 + 1
            };
            if line2 < 160 {
                self.render_scanline(pal, vram, oam, line2);
            }
        }
        if d >= 1232 {
            let vc1: u16 = if vc0 + 1 == 228 {
                0
            } else {
                vc0 + 1
            };
            self.vcount = vc1;
            self.dot = d - 1232;
            if vc1 == 160 {
                vblank = true;
            }
        } else {
            self.dot = d;
        }
        let irq: u16 = (if vblank && self.dispstat & 8 != 0 {
            IRQ_VBLANK
        } else {
            0u16
        }) | (if hblank && self.dispstat & 0x10 != 0 {
            IRQ_HBLANK
        } else {
            0u16
        }) | (if self.vcount != vc0 && self.vcount == self.dispstat >> 8 && self.dispstat & 0x20
            != 0 {
            IRQ_VCOUNT
        } else {
            0u16
        });
        PpuStep { hblank, vblank, irq }
    }

    /// The display status half-word read back: the VBlank flag over the
    /// blanked lines (save the last), the HBlank flag over each line's
    /// blanked tail, the match flag, and the written enable and match
    /// bits.
    pub fn read_dispstat(&self) -> (v: u16)
        ensures
            v == spec_dispstat(*self),
    {
        let vb: u16 = if 160 <= self.vcount && self.vcount <= 226 {
            1
        } else {
            0
        };
        let hb: u16 = if self.dot >= 960 {
            2
        } else {
            0
        };
        let vm: u16 = if self.vcount == self.dispstat >> 8 {
            4
        } else {
            0
        };
        let hi: u16 = (self.dispstat >> 3) << 3;
        let v = hi | vb | hb | vm;
        v
    }
}

/// The display status half-word: the derived flag bits beside the written
/// enable and match bits.
pub open spec fn spec_dispstat(p: Ppu) -> u16 {
    (((p.dispstat >> 3) << 3) | (if 160 <= p.vcount <= 226 {
        1u16
    } else {
        0u16
    }) | (if p.dot >= 960 {
        2u16
    } else {
        0u16
    }) | (if p.vcount == p.dispstat >> 8 {
        4u16
    } else {
        0u16
    })) as u16
}

} // verus!
