//! Frame composition: background tiles from the selected nametable with
//! scroll splitting, then sprites back-to-front with flip bits.

use vstd::prelude::*;

use crate::cartridge::Mirroring;
use crate::frame::Frame;
use crate::palette::spec_system_palette;
use crate::palette::system_palette;
use crate::ppu::NesPPU;
use crate::ppu::PpuView;
use crate::ppu_regs::CTRL_BG_PATTERN_ADDR;
use crate::ppu_regs::CTRL_SPRITE_PATTERN_ADDR;
use crate::ppu_regs::spec_nametable_addr;

verus! {

/// Palette index (0..=3) chosen by the attribute table for the tile at
/// `(col, row)`: each attribute byte carries four 2-bit entries, one per
/// 2x2 tile quadrant.
pub open spec fn spec_bg_palette_idx(attr: Seq<u8>, col: int, row: int) -> u8 {
    let b = attr[row / 4 * 8 + col / 4];
    if col % 4 / 2 == 0 && row % 4 / 2 == 0 {
        b & 0b11
    } else if col % 4 / 2 == 1 && row % 4 / 2 == 0 {
        (b >> 2u8) & 0b11
    } else if col % 4 / 2 == 0 && row % 4 / 2 == 1 {
        (b >> 4u8) & 0b11
    } else {
        (b >> 6u8) & 0b11
    }
}

/// The attribute table of the nametable starting at `nt_base`.
pub open spec fn spec_attr_table(vram: Seq<u8>, nt_base: int) -> Seq<u8> {
    vram.subrange(nt_base + 0x3c0, nt_base + 0x400)
}

/// One byte of frame pixel `(fx, fy)`: channel `ch` of its RGB triple.
pub open spec fn pixel_byte(d: Seq<u8>, fx: int, fy: int, ch: int) -> u8 {
    d[fy * 768 + fx * 3 + ch]
}

/// Channel `ch` of an RGB triple.
pub open spec fn rgb_channel(rgb: (u8, u8, u8), ch: int) -> u8 {
    if ch == 0 {
        rgb.0
    } else if ch == 1 {
        rgb.1
    } else {
        rgb.2
    }
}

/// Pattern-table base the CTRL register selects for the background.
pub open spec fn spec_bg_bank(ctrl: u8) -> int {
    if ctrl & CTRL_BG_PATTERN_ADDR == 0 {
        0int
    } else {
        0x1000int
    }
}

/// The 2-bit colour of background tile pixel `(x, y)`: for the background
/// the second plane carries the high bit.
pub open spec fn spec_bg_color(chr: Seq<u8>, tile_base: int, x: int, y: int) -> u8 {
    (((chr[tile_base + y + 8] >> ((7 - x) as u8)) & 1) << 1u8) | ((chr[tile_base + y] >> ((7 - x)
        as u8)) & 1)
}

/// The RGB colour of background pixel `(px, py)` of the nametable at
/// `nt_base`: tile index from the nametable, pattern bits from CHR, colour
/// slot from the attribute-selected palette, backdrop colour for 0.
pub open spec fn spec_bg_rgb(p: PpuView, nt_base: int, px: int, py: int) -> (u8, u8, u8) {
    let tile = p.vram[nt_base + (py / 8) * 32 + px / 8];
    let tile_base = spec_bg_bank(p.ctrl) + tile * 16;
    let c = spec_bg_color(p.chr_rom, tile_base, px % 8, py % 8);
    if c == 0 {
        spec_system_palette(p.palette_table[0])
    } else {
        let pi = spec_bg_palette_idx(spec_attr_table(p.vram, nt_base), px / 8, py / 8);
        spec_system_palette(p.palette_table[c + pi * 4])
    }
}

/// Nametable pixel `(px, py)` exists and lies inside the clip window.
pub open spec fn bg_covered(px: int, py: int, x1: int, y1: int, x2: int, y2: int) -> bool {
    x1 <= px < x2 && y1 <= py < y2 && 0 <= px < 256 && 0 <= py < 240
}

/// A pixel inside tile `(tx, ty)` has that tile's coordinates.
proof fn lemma_tile_coords(tx: int, ty: int, x: int, y: int)
    requires
        0 <= tx,
        0 <= ty,
        0 <= x < 8,
        0 <= y < 8,
    ensures
        (tx * 8 + x) / 8 == tx,
        (tx * 8 + x) % 8 == x,
        (ty * 8 + y) / 8 == ty,
        (ty * 8 + y) % 8 == y,
{
    assert((tx * 8 + x) / 8 == tx && (tx * 8 + x) % 8 == x) by (nonlinear_arith)
        requires
            0 <= tx,
            0 <= x < 8,
    ;
    assert((ty * 8 + y) / 8 == ty && (ty * 8 + y) % 8 == y) by (nonlinear_arith)
        requires
            0 <= ty,
            0 <= y < 8,
    ;
}

/// The four background colour slots for one tile: the backdrop colour and
/// the three colours of the palette the attribute table selects.
fn bg_pallette(ppu: &NesPPU, nt_base: usize, tile_column: usize, tile_row: usize) -> (r: (
    u8,
    u8,
    u8,
    u8,
))
    requires
        ppu@.wf(),
        nt_base == 0 || nt_base == 0x400,
        tile_column < 32,
        tile_row < 30,
    ensures
        ({
            let pi = spec_bg_palette_idx(
                spec_attr_table(ppu@.vram, nt_base as int),
                tile_column as int,
                tile_row as int,
            );
            &&& r.0 == ppu@.palette_table[0]
            &&& r.1 == ppu@.palette_table[1 + pi * 4]
            &&& r.2 == ppu@.palette_table[2 + pi * 4]
            &&& r.3 == ppu@.palette_table[3 + pi * 4]
        }),
{
    let attr_table_idx = tile_row / 4 * 8 + tile_column / 4;
    let attr_byte = ppu.vram[nt_base + 0x3c0 + attr_table_idx];

    let ghost b = attr_byte;
    let palette_idx: u8 = if tile_column % 4 / 2 == 0 && tile_row % 4 / 2 == 0 {
        attr_byte & 0b11
    } else if tile_column % 4 / 2 == 1 && tile_row % 4 / 2 == 0 {
        (attr_byte >> 2u8) & 0b11
    } else if tile_column % 4 / 2 == 0 && tile_row % 4 / 2 == 1 {
        (attr_byte >> 4u8) & 0b11
    } else {
        (attr_byte >> 6u8) & 0b11
    };
    proof {
        assert(b & 0b11 <= 3 && (b >> 2u8) & 0b11 <= 3 && (b >> 4u8) & 0b11 <= 3 && (b >> 6u8)
            & 0b11 <= 3) by (bit_vector);
        assert(spec_attr_table(ppu@.vram, nt_base as int)[(tile_row / 4 * 8 + tile_column
            / 4) as int] == ppu@.vram[nt_base + 0x3c0 + (tile_row / 4 * 8 + tile_column / 4)]);
    }
    let palette_start: usize = 1 + palette_idx as usize * 4;
    (
        ppu.palette_table[0],
        ppu.palette_table[palette_start],
        ppu.palette_table[palette_start + 1],
        ppu.palette_table[palette_start + 2],
    )
}

/// The four colour slots of one sprite palette; slot 0 is transparent.
fn sprite_pallette(ppu: &NesPPU, palette_idx: u8) -> (r: (u8, u8, u8, u8))
    requires
        ppu@.wf(),
        palette_idx <= 3,
    ensures
        r.0 == 0,
        r.1 == ppu@.palette_table[0x11 + palette_idx * 4],
        r.2 == ppu@.palette_table[0x12 + palette_idx * 4],
        r.3 == ppu@.palette_table[0x13 + palette_idx * 4],
{
    let start: usize = 0x11 + palette_idx as usize * 4;
    (0, ppu.palette_table[start], ppu.palette_table[start + 1], ppu.palette_table[start + 2])
}

/// A clipping window in nametable pixel coordinates.
struct Rect {
    x1: usize,
    y1: usize,
    x2: usize,
    y2: usize,
}

impl Rect {
    fn new(x1: usize, y1: usize, x2: usize, y2: usize) -> (r: Rect)
        ensures
            r.x1 == x1 && r.y1 == y1 && r.x2 == x2 && r.y2 == y2,
    {
        Rect { x1, y1, x2, y2 }
    }
}

/// Pixels of the clip window already drawn by the tile loop: all tiles
/// before `i`, the rows of tile `i` before `y`, and the first `k` pixels
/// (from the right) of row `y`.
pub open spec fn rnt_done(px: int, py: int, i: int, y: int, k: int) -> bool {
    let t = (py / 8) * 32 + px / 8;
    t < i || (t == i && ((py % 8) < y || ((py % 8) == y && (px % 8) >= 8 - k)))
}

/// Draw the part of one nametable that falls inside `view_port`, shifted
/// onto the frame by `(shift_x, shift_y)`: every framebuffer pixel whose
/// source pixel lies in the window takes the background colour of that
/// source pixel; every other framebuffer byte is untouched.
fn render_name_table(
    ppu: &NesPPU,
    frame: &mut Frame,
    nt_base: usize,
    view_port: Rect,
    shift_x: isize,
    shift_y: isize,
)
    requires
        ppu@.wf(),
        ppu@.chr_rom.len() == 8192,
        old(frame).data@.len() == 256 * 240 * 3,
        nt_base == 0 || nt_base == 0x400,
        view_port.x2 <= 256,
        view_port.y2 <= 256,
        -256 <= shift_x <= 256,
        -256 <= shift_y <= 256,
        shift_x + view_port.x2 <= 256,
        shift_y + view_port.y2 <= 240,
    ensures
        final(frame).data@.len() == old(frame).data@.len(),
        forall|fx: int, fy: int, ch: int|
            0 <= fx < 256 && 0 <= fy < 240 && 0 <= ch < 3 ==> #[trigger] pixel_byte(
                final(frame).data@,
                fx,
                fy,
                ch,
            ) == ({
                let px = fx - shift_x;
                let py = fy - shift_y;
                if bg_covered(
                    px,
                    py,
                    view_port.x1 as int,
                    view_port.y1 as int,
                    view_port.x2 as int,
                    view_port.y2 as int,
                ) {
                    rgb_channel(spec_bg_rgb(ppu@, nt_base as int, px, py), ch)
                } else {
                    pixel_byte(old(frame).data@, fx, fy, ch)
                }
            }),
{
    let ghost x1 = view_port.x1 as int;
    let ghost y1 = view_port.y1 as int;
    let ghost x2 = view_port.x2 as int;
    let ghost y2 = view_port.y2 as int;
    let bank = ppu.ctrl.bknd_pattern_addr();

    let mut i: usize = 0;
    while i < 0x3c0
        invariant
            ppu@.wf(),
            ppu@.chr_rom.len() == 8192,
            frame.data@.len() == 256 * 240 * 3,
            nt_base == 0 || nt_base == 0x400,
            x1 == view_port.x1 && y1 == view_port.y1 && x2 == view_port.x2 && y2 == view_port.y2,
            x2 <= 256,
            y2 <= 256,
            -256 <= shift_x <= 256,
            -256 <= shift_y <= 256,
            shift_x + x2 <= 256,
            shift_y + y2 <= 240,
            bank as int == spec_bg_bank(ppu@.ctrl),
            i <= 0x3c0,
            forall|fx: int, fy: int, ch: int|
                0 <= fx < 256 && 0 <= fy < 240 && 0 <= ch < 3 ==> #[trigger] pixel_byte(
                    frame.data@,
                    fx,
                    fy,
                    ch,
                ) == ({
                    let px = fx - shift_x;
                    let py = fy - shift_y;
                    if bg_covered(px, py, x1, y1, x2, y2) && rnt_done(px, py, i as int, 0, 0) {
                        rgb_channel(spec_bg_rgb(ppu@, nt_base as int, px, py), ch)
                    } else {
                        pixel_byte(old(frame).data@, fx, fy, ch)
                    }
                }),
        decreases 0x3c0 - i,
    {
        let tile_x = i % 32;
        let tile_y = i / 32;
        let tile_idx = ppu.vram[nt_base + i] as usize;
        let tile_base = bank as usize + tile_idx * 16;
        let palette = bg_pallette(ppu, nt_base, tile_x, tile_y);
        proof {
            assert(tile_y * 32 + tile_x == i);
            assert(tile_y < 30) by (nonlinear_arith)
                requires
                    tile_y == i / 32,
                    i < 0x3c0,
            ;
        }

        let mut y: usize = 0;
        while y < 8
            invariant
                ppu@.wf(),
                ppu@.chr_rom.len() == 8192,
                frame.data@.len() == 256 * 240 * 3,
                nt_base == 0 || nt_base == 0x400,
                x1 == view_port.x1 && y1 == view_port.y1 && x2 == view_port.x2 && y2
                    == view_port.y2,
                x2 <= 256,
                y2 <= 256,
                -256 <= shift_x <= 256,
                -256 <= shift_y <= 256,
                shift_x + x2 <= 256,
                shift_y + y2 <= 240,
                i < 0x3c0,
                tile_x == i % 32 && tile_y == i / 32 && tile_y < 30,
                tile_idx == ppu@.vram[nt_base + i],
                tile_base as int == spec_bg_bank(ppu@.ctrl) + tile_idx * 16,
                tile_base + 15 < 8192,
                palette.0 == ppu@.palette_table[0],
                palette.1 == ppu@.palette_table[1 + spec_bg_palette_idx(
                    spec_attr_table(ppu@.vram, nt_base as int),
                    tile_x as int,
                    tile_y as int,
                ) * 4],
                palette.2 == ppu@.palette_table[2 + spec_bg_palette_idx(
                    spec_attr_table(ppu@.vram, nt_base as int),
                    tile_x as int,
                    tile_y as int,
                ) * 4],
                palette.3 == ppu@.palette_table[3 + spec_bg_palette_idx(
                    spec_attr_table(ppu@.vram, nt_base as int),
                    tile_x as int,
                    tile_y as int,
                ) * 4],
                y <= 8,
                forall|fx: int, fy: int, ch: int|
                    0 <= fx < 256 && 0 <= fy < 240 && 0 <= ch < 3 ==> #[trigger] pixel_byte(
                        frame.data@,
                        fx,
                        fy,
                        ch,
                    ) == ({
                        let px = fx - shift_x;
                        let py = fy - shift_y;
                        if bg_covered(px, py, x1, y1, x2, y2) && rnt_done(
                            px,
                            py,
                            i as int,
                            y as int,
                            0,
                        ) {
                            rgb_channel(spec_bg_rgb(ppu@, nt_base as int, px, py), ch)
                        } else {
                            pixel_byte(old(frame).data@, fx, fy, ch)
                        }
                    }),
            decreases 8 - y,
        {
            let mut upper = ppu.chr_rom[tile_base + y];
            let mut lower = ppu.chr_rom[tile_base + y + 8];
            let ghost u0 = upper;
            let ghost l0 = lower;
            proof {
                assert(u0 >> 0u8 == u0 && l0 >> 0u8 == l0) by (bit_vector);
            }

            let mut k: usize = 0;
            while k < 8
                invariant
                    ppu@.wf(),
                    ppu@.chr_rom.len() == 8192,
                    frame.data@.len() == 256 * 240 * 3,
                    nt_base == 0 || nt_base == 0x400,
                    x1 == view_port.x1 && y1 == view_port.y1 && x2 == view_port.x2 && y2
                        == view_port.y2,
                    x2 <= 256,
                    y2 <= 256,
                    -256 <= shift_x <= 256,
                    -256 <= shift_y <= 256,
                    shift_x + x2 <= 256,
                    shift_y + y2 <= 240,
                    i < 0x3c0,
                    tile_x == i % 32 && tile_y == i / 32 && tile_y < 30,
                    tile_idx == ppu@.vram[nt_base + i],
                    tile_base as int == spec_bg_bank(ppu@.ctrl) + tile_idx * 16,
                    tile_base + 15 < 8192,
                    palette.0 == ppu@.palette_table[0],
                    palette.1 == ppu@.palette_table[1 + spec_bg_palette_idx(
                        spec_attr_table(ppu@.vram, nt_base as int),
                        tile_x as int,
                        tile_y as int,
                    ) * 4],
                    palette.2 == ppu@.palette_table[2 + spec_bg_palette_idx(
                        spec_attr_table(ppu@.vram, nt_base as int),
                        tile_x as int,
                        tile_y as int,
                    ) * 4],
                    palette.3 == ppu@.palette_table[3 + spec_bg_palette_idx(
                        spec_attr_table(ppu@.vram, nt_base as int),
                        tile_x as int,
                        tile_y as int,
                    ) * 4],
                    y < 8,
                    k <= 8,
                    u0 == ppu@.chr_rom[tile_base + y],
                    l0 == ppu@.chr_rom[tile_base + y + 8],
                    k < 8 ==> upper == u0 >> (k as u8),
                    k < 8 ==> lower == l0 >> (k as u8),
                    forall|fx: int, fy: int, ch: int|
                        0 <= fx < 256 && 0 <= fy < 240 && 0 <= ch < 3 ==> #[trigger] pixel_byte(
                            frame.data@,
                            fx,
                            fy,
                            ch,
                        ) == ({
                            let px = fx - shift_x;
                            let py = fy - shift_y;
                            if bg_covered(px, py, x1, y1, x2, y2) && rnt_done(
                                px,
                                py,
                                i as int,
                                y as int,
                                k as int,
                            ) {
                                rgb_channel(spec_bg_rgb(ppu@, nt_base as int, px, py), ch)
                            } else {
                                pixel_byte(old(frame).data@, fx, fy, ch)
                            }
                        }),
                decreases 8 - k,
            {
                let x = 7 - k;
                let color = ((1 & lower) << 1u8) | (1 & upper);
                upper = upper >> 1u8;
                lower = lower >> 1u8;

                let rgb = if color == 0 {
                    system_palette(ppu.palette_table[0])
                } else if color == 1 {
                    system_palette(palette.1)
                } else if color == 2 {
                    system_palette(palette.2)
                } else {
                    system_palette(palette.3)
                };
                let pixel_x = tile_x * 8 + x;
                let pixel_y = tile_y * 8 + y;
                let ghost dpre = frame.data@;
                let ghost spx = pixel_x as int;
                let ghost spy = pixel_y as int;
                let ghost sfx = shift_x + spx;
                let ghost sfy = shift_y + spy;
                let ghost wrote = x1 <= spx < x2 && y1 <= spy < y2 && sfx >= 0 && sfy >= 0;
                proof {
                    lemma_tile_coords(tile_x as int, tile_y as int, x as int, y as int);
                    let kk = k as u8;
                    assert(((u0 >> kk) >> 1u8 == u0 >> ((kk + 1) as u8)) && ((l0 >> kk) >> 1u8
                        == l0 >> ((kk + 1) as u8))) by (bit_vector)
                        requires
                            kk <= 7,
                    ;
                    assert((((1 & (l0 >> kk)) << 1u8) | (1 & (u0 >> kk))) == ((((l0 >> kk) & 1)
                        << 1u8) | ((u0 >> kk) & 1))) by (bit_vector);
                    assert((((1 & (l0 >> kk)) << 1u8) | (1 & (u0 >> kk))) <= 3) by (bit_vector);
                    assert(color == spec_bg_color(
                        ppu@.chr_rom,
                        tile_base as int,
                        x as int,
                        y as int,
                    ));
                    assert(rgb == ({
                        let c = spec_bg_color(
                            ppu@.chr_rom,
                            tile_base as int,
                            x as int,
                            y as int,
                        );
                        if c == 0 {
                            spec_system_palette(ppu@.palette_table[0])
                        } else {
                            let pi = spec_bg_palette_idx(
                                spec_attr_table(ppu@.vram, nt_base as int),
                                tile_x as int,
                                tile_y as int,
                            );
                            spec_system_palette(ppu@.palette_table[c + pi * 4])
                        }
                    }));
                }
                if pixel_x >= view_port.x1 && pixel_x < view_port.x2 && pixel_y >= view_port.y1
                    && pixel_y < view_port.y2 {
                    let sx = shift_x + pixel_x as isize;
                    let sy = shift_y + pixel_y as isize;
                    // A pixel shifted off the top or left edge is clipped,
                    // as the framebuffer's bounds check would drop it.
                    if sx >= 0 && sy >= 0 {
                        frame.set_pixel(sx as usize, sy as usize, rgb);
                        proof {
                            assert(sfy * 768 + sfx * 3 + 2 < 256 * 240 * 3);
                        }
                    }
                }
                proof {
                    let ki = k as int;
                    assert forall|fx: int, fy: int, ch: int|
                        0 <= fx < 256 && 0 <= fy < 240 && 0 <= ch < 3 implies #[trigger] pixel_byte(
                        frame.data@,
                        fx,
                        fy,
                        ch,
                    ) == ({
                        let px = fx - shift_x;
                        let py = fy - shift_y;
                        if bg_covered(px, py, x1, y1, x2, y2) && rnt_done(
                            px,
                            py,
                            i as int,
                            y as int,
                            ki + 1,
                        ) {
                            rgb_channel(spec_bg_rgb(ppu@, nt_base as int, px, py), ch)
                        } else {
                            pixel_byte(old(frame).data@, fx, fy, ch)
                        }
                    }) by {
                        let px = fx - shift_x;
                        let py = fy - shift_y;
                        assert(pixel_byte(dpre, fx, fy, ch) == ({
                            if bg_covered(px, py, x1, y1, x2, y2) && rnt_done(
                                px,
                                py,
                                i as int,
                                y as int,
                                ki,
                            ) {
                                rgb_channel(spec_bg_rgb(ppu@, nt_base as int, px, py), ch)
                            } else {
                                pixel_byte(old(frame).data@, fx, fy, ch)
                            }
                        }));
                        if wrote && fx == sfx && fy == sfy {
                            // This is the pixel just drawn.
                            assert(px == spx && py == spy);
                            assert((py / 8) * 32 + px / 8 == i as int);
                            assert(spec_bg_rgb(ppu@, nt_base as int, px, py) == rgb);
                            assert(pixel_byte(frame.data@, fx, fy, ch) == rgb_channel(rgb, ch));
                        } else {
                            // Untouched byte; show its classification did
                            // not change either.
                            if wrote {
                                assert(fy * 768 + fx * 3 + ch != sfy * 768 + sfx * 3 && fy * 768
                                    + fx * 3 + ch != sfy * 768 + sfx * 3 + 1 && fy * 768 + fx * 3
                                    + ch != sfy * 768 + sfx * 3 + 2);
                                assert(pixel_byte(frame.data@, fx, fy, ch) == pixel_byte(
                                    dpre,
                                    fx,
                                    fy,
                                    ch,
                                ));
                            }
                            if bg_covered(px, py, x1, y1, x2, y2) && rnt_done(
                                px,
                                py,
                                i as int,
                                y as int,
                                ki + 1,
                            ) && !rnt_done(px, py, i as int, y as int, ki) {
                                // The only freshly processed source pixel
                                // is the one just drawn.
                                assert((py / 8) * 32 + px / 8 == i as int && py % 8 == y as int
                                    && px % 8 == 7 - ki);
                                assert(px / 8 == tile_x as int && py / 8 == tile_y as int)
                                    by (nonlinear_arith)
                                    requires
                                        0 <= px < 256,
                                        0 <= py < 240,
                                        (py / 8) * 32 + px / 8 == i as int,
                                        i < 0x3c0,
                                        tile_x == i % 32,
                                        tile_y == i / 32,
                                ;
                                assert(px == 8 * (px / 8) + px % 8);
                                assert(py == 8 * (py / 8) + py % 8);
                                assert(px == spx && py == spy);
                                assert(fx == sfx && fy == sfy);
                                assert(wrote);
                                assert(false);
                            }
                        }
                    }
                }
                k = k + 1;
            }
            y = y + 1;
        }
        i = i + 1;
    }
}

/// Which physical nametable the CTRL selection and the mirroring put on
/// screen first; the other one is exposed by scrolling.
pub open spec fn spec_main_nt_base(p: PpuView) -> int {
    let nt = spec_nametable_addr(p.ctrl);
    let vertical = p.mirroring == Mirroring::VERTICAL;
    if (vertical && (nt == 0x2000 || nt == 0x2800)) || (!vertical && (nt == 0x2000 || nt
        == 0x2400)) {
        0int
    } else {
        0x400int
    }
}

pub open spec fn spec_second_nt_base(p: PpuView) -> int {
    0x400 - spec_main_nt_base(p)
}

/// The scroll-composed background colour of frame pixel `(fx, fy)`:
/// the main nametable shifted by the scroll, the second nametable in the
/// strip horizontal or vertical scrolling exposes, nothing elsewhere.
pub open spec fn spec_bg_composed(p: PpuView, fx: int, fy: int) -> Option<(u8, u8, u8)> {
    let sx = p.scroll.scroll_x as int;
    let sy = p.scroll.scroll_y as int;
    if fx < 256 - sx && fy < 240 - sy {
        Some(spec_bg_rgb(p, spec_main_nt_base(p), fx + sx, fy + sy))
    } else if sx > 0 {
        if fx >= 256 - sx {
            Some(spec_bg_rgb(p, spec_second_nt_base(p), fx - (256 - sx), fy))
        } else {
            None
        }
    } else if sy > 0 {
        if fy >= 240 - sy && fy - (240 - sy) < 240 {
            Some(spec_bg_rgb(p, spec_second_nt_base(p), fx, fy - (240 - sy)))
        } else {
            None
        }
    } else {
        None
    }
}

/// Byte `idx` of the framebuffer lies under the 8x8 box of sprite `s`,
/// at box offset `(x, y)`, inside the buffer.
pub open spec fn sprite_box_covers(p: PpuView, s: int, x: int, y: int, idx: int) -> bool {
    let tx = p.oam_data[4 * s + 3] as int;
    let ty = p.oam_data[4 * s] as int;
    let b = (ty + y) * 768 + (tx + x) * 3;
    b <= idx <= b + 2 && b + 2 < 256 * 240 * 3
}

/// Some sprite's 8x8 box reaches framebuffer byte `idx`.
pub open spec fn spec_sprite_box_byte(p: PpuView, idx: int) -> bool {
    exists|s: int, x: int, y: int|
        0 <= s < 64 && 0 <= x < 8 && 0 <= y < 8 && #[trigger] sprite_box_covers(p, s, x, y, idx)
}

/// Compose a full frame: the visible part of the selected nametable, the
/// second nametable where scrolling exposes it, then all 64 sprites in
/// reverse OAM order with their flip bits. Four-screen mirroring has no
/// second physical nametable to draw from and is not composed.
pub fn render(ppu: &NesPPU, frame: &mut Frame)
    requires
        ppu@.wf(),
        ppu@.chr_rom.len() == 8192,
        old(frame).data@.len() == 256 * 240 * 3,
        ppu@.mirroring != Mirroring::FOURSCREEN,
    ensures
        final(frame).data@.len() == old(frame).data@.len(),
        forall|fx: int, fy: int, ch: int|
            0 <= fx < 256 && 0 <= fy < 240 && 0 <= ch < 3 && !spec_sprite_box_byte(
                ppu@,
                fy * 768 + fx * 3 + ch,
            ) ==> #[trigger] pixel_byte(final(frame).data@, fx, fy, ch) == (
            match spec_bg_composed(ppu@, fx, fy) {
                Some(rgb) => rgb_channel(rgb, ch),
                None => pixel_byte(old(frame).data@, fx, fy, ch),
            }),
{
    let scroll_x = ppu.scroll.scroll_x as usize;
    let scroll_y = ppu.scroll.scroll_y as usize;

    let nt = ppu.ctrl.nametable_addr();
    let vertical = match ppu.mirroring {
        Mirroring::VERTICAL => true,
        _ => false,
    };
    let (main_base, second_base): (usize, usize) = if (vertical && (nt == 0x2000 || nt == 0x2800))
        || (!vertical && (nt == 0x2000 || nt == 0x2400)) {
        (0, 0x400)
    } else {
        (0x400, 0)
    };
    proof {
        assert(main_base as int == spec_main_nt_base(ppu@));
        assert(second_base as int == spec_second_nt_base(ppu@));
    }

    render_name_table(
        ppu,
        frame,
        main_base,
        Rect::new(scroll_x, scroll_y, 256, 240),
        -(scroll_x as isize),
        -(scroll_y as isize),
    );
    let ghost d1 = frame.data@;
    if scroll_x > 0 {
        render_name_table(
            ppu,
            frame,
            second_base,
            Rect::new(0, 0, scroll_x, 240),
            256 - (scroll_x as isize),
            0,
        );
    } else if scroll_y > 0 {
        render_name_table(
            ppu,
            frame,
            second_base,
            Rect::new(0, 0, 256, scroll_y),
            0,
            240 - (scroll_y as isize),
        );
    }
    proof {
        assert forall|fx: int, fy: int, ch: int|
            0 <= fx < 256 && 0 <= fy < 240 && 0 <= ch < 3 implies #[trigger] pixel_byte(
            frame.data@,
            fx,
            fy,
            ch,
        ) == (match spec_bg_composed(ppu@, fx, fy) {
            Some(rgb) => rgb_channel(rgb, ch),
            None => pixel_byte(old(frame).data@, fx, fy, ch),
        }) by {
            assert(pixel_byte(d1, fx, fy, ch) == ({
                let px = fx + scroll_x;
                let py = fy + scroll_y;
                if bg_covered(px, py, scroll_x as int, scroll_y as int, 256, 240) {
                    rgb_channel(spec_bg_rgb(ppu@, main_base as int, px, py), ch)
                } else {
                    pixel_byte(old(frame).data@, fx, fy, ch)
                }
            }));
            if scroll_x > 0 || scroll_y > 0 {
                assert(pixel_byte(frame.data@, fx, fy, ch) == ({
                    let px = fx - (if scroll_x > 0 {
                        256 - scroll_x as int
                    } else {
                        0int
                    });
                    let py = fy - (if scroll_x > 0 {
                        0int
                    } else {
                        240 - scroll_y as int
                    });
                    let w = if scroll_x > 0 {
                        (scroll_x as int, 240int)
                    } else {
                        (256int, scroll_y as int)
                    };
                    if bg_covered(px, py, 0, 0, w.0, w.1) {
                        rgb_channel(spec_bg_rgb(ppu@, second_base as int, px, py), ch)
                    } else {
                        pixel_byte(d1, fx, fy, ch)
                    }
                }));
            }
        }
    }

    // Sprites, drawn back to front so that earlier OAM entries win.
    let mut i: usize = 256;
    while i >= 4
        invariant
            ppu@.wf(),
            ppu@.chr_rom.len() == 8192,
            frame.data@.len() == 256 * 240 * 3,
            i <= 256,
            i % 4 == 0,
            forall|fx: int, fy: int, ch: int|
                0 <= fx < 256 && 0 <= fy < 240 && 0 <= ch < 3 && !spec_sprite_box_byte(
                    ppu@,
                    fy * 768 + fx * 3 + ch,
                ) ==> #[trigger] pixel_byte(frame.data@, fx, fy, ch) == (
                match spec_bg_composed(ppu@, fx, fy) {
                    Some(rgb) => rgb_channel(rgb, ch),
                    None => pixel_byte(old(frame).data@, fx, fy, ch),
                }),
        decreases i,
    {
        i = i - 4;
        let ghost s0 = i as int / 4;
        proof {
            assert(4 * s0 == i);
        }
        let tile_idx = ppu.oam_data[i + 1] as usize;
        let tile_x = ppu.oam_data[i + 3] as usize;
        let tile_y = ppu.oam_data[i] as usize;

        let flip_v = (ppu.oam_data[i + 2] >> 7u8) & 1 == 1;
        let flip_h = (ppu.oam_data[i + 2] >> 6u8) & 1 == 1;

        let palette_idx = ppu.oam_data[i + 2] & 0b11;
        proof {
            let pb = ppu@.oam_data[i + 2];
            assert(pb & 0b11 <= 3) by (bit_vector);
        }
        let sprite_palette = sprite_pallette(ppu, palette_idx);
        let bank = ppu.ctrl.sprite_pattern_addr() as usize;
        let tile_base = bank + tile_idx * 16;

        let mut y: usize = 0;
        while y < 8
            invariant
                ppu@.wf(),
                ppu@.chr_rom.len() == 8192,
                frame.data@.len() == 256 * 240 * 3,
                i <= 252,
                i % 4 == 0,
                4 * s0 == i,
                tile_base + 15 < 8192,
                tile_x == ppu@.oam_data[i + 3int],
                tile_y == ppu@.oam_data[i as int],
                y <= 8,
                forall|fx: int, fy: int, ch: int|
                    0 <= fx < 256 && 0 <= fy < 240 && 0 <= ch < 3 && !spec_sprite_box_byte(
                        ppu@,
                        fy * 768 + fx * 3 + ch,
                    ) ==> #[trigger] pixel_byte(frame.data@, fx, fy, ch) == (
                    match spec_bg_composed(ppu@, fx, fy) {
                        Some(rgb) => rgb_channel(rgb, ch),
                        None => pixel_byte(old(frame).data@, fx, fy, ch),
                    }),
            decreases 8 - y,
        {
            let mut upper = ppu.chr_rom[tile_base + y];
            let mut lower = ppu.chr_rom[tile_base + y + 8];
            let mut k: usize = 0;
            while k < 8
                invariant
                    frame.data@.len() == 256 * 240 * 3,
                    i <= 252,
                    i % 4 == 0,
                    4 * s0 == i,
                    tile_x == ppu@.oam_data[i + 3int],
                    tile_y == ppu@.oam_data[i as int],
                    tile_x <= 255,
                    tile_y <= 255,
                    y < 8,
                    k <= 8,
                    forall|fx: int, fy: int, ch: int|
                        0 <= fx < 256 && 0 <= fy < 240 && 0 <= ch < 3 && !spec_sprite_box_byte(
                            ppu@,
                            fy * 768 + fx * 3 + ch,
                        ) ==> #[trigger] pixel_byte(frame.data@, fx, fy, ch) == (
                        match spec_bg_composed(ppu@, fx, fy) {
                            Some(rgb) => rgb_channel(rgb, ch),
                            None => pixel_byte(old(frame).data@, fx, fy, ch),
                        }),
                decreases 8 - k,
            {
                let x = 7 - k;
                let value = ((lower & 1) << 1u8) | (upper & 1);
                upper = upper >> 1u8;
                lower = lower >> 1u8;
                if value != 0 {
                    let rgb = if value == 1 {
                        system_palette(sprite_palette.1)
                    } else if value == 2 {
                        system_palette(sprite_palette.2)
                    } else {
                        system_palette(sprite_palette.3)
                    };
                    let hpos = if flip_h {
                        tile_x + 7 - x
                    } else {
                        tile_x + x
                    };
                    let vpos = if flip_v {
                        tile_y + 7 - y
                    } else {
                        tile_y + y
                    };
                    let ghost dpre = frame.data@;
                    frame.set_pixel(hpos, vpos, rgb);
                    proof {
                        let xo = hpos as int - tile_x as int;
                        let yo = vpos as int - tile_y as int;
                        let b0 = (vpos as int) * 768 + (hpos as int) * 3;
                        assert forall|fx: int, fy: int, ch: int|
                            0 <= fx < 256 && 0 <= fy < 240 && 0 <= ch < 3 && !spec_sprite_box_byte(
                                ppu@,
                                fy * 768 + fx * 3 + ch,
                            ) implies #[trigger] pixel_byte(frame.data@, fx, fy, ch) == (
                        match spec_bg_composed(ppu@, fx, fy) {
                            Some(rgb2) => rgb_channel(rgb2, ch),
                            None => pixel_byte(old(frame).data@, fx, fy, ch),
                        }) by {
                            assert(pixel_byte(dpre, fx, fy, ch) == (match spec_bg_composed(
                                ppu@,
                                fx,
                                fy,
                            ) {
                                Some(rgb2) => rgb_channel(rgb2, ch),
                                None => pixel_byte(old(frame).data@, fx, fy, ch),
                            }));
                            let idx0 = fy * 768 + fx * 3 + ch;
                            if b0 + 2 < 256 * 240 * 3 && b0 <= idx0 <= b0 + 2 {
                                // The touched bytes lie under this
                                // sprite's box, so they are exempt.
                                assert(sprite_box_covers(ppu@, s0, xo, yo, idx0));
                                assert(spec_sprite_box_byte(ppu@, idx0));
                            }
                        }
                    }
                }
                k = k + 1;
            }
            y = y + 1;
        }
    }
}

} // verus!
