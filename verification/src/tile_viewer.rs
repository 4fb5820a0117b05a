//! Pattern-table inspection: draw a single CHR tile, or a whole bank laid
//! out on a grid, into a frame with a fixed preview palette.

use vstd::prelude::*;

use crate::frame::Frame;
use crate::palette::spec_system_palette;
use crate::palette::system_palette;

verus! {

/// The 2-bit colour of tile pixel `(x, y)` for a tile whose 16 bytes start
/// at `base`: the first plane carries the high bit, the second the low
/// bit, and pixel `x` sits `7 - x` bits up.
pub open spec fn spec_tile_color(chr: Seq<u8>, base: int, x: int, y: int) -> u8 {
    (((chr[base + y] >> ((7 - x) as u8)) & 1) << 1u8) | ((chr[base + y + 8] >> ((7 - x) as u8))
        & 1)
}

/// The preview palette of the tile viewer: four fixed system colours.
pub open spec fn spec_preview_rgb(color: u8) -> (u8, u8, u8) {
    if color == 0 {
        spec_system_palette(0x01)
    } else if color == 1 {
        spec_system_palette(0x23)
    } else if color == 2 {
        spec_system_palette(0x27)
    } else {
        spec_system_palette(0x30)
    }
}

/// The three framebuffer bytes of pixel `(x, y)` hold `rgb`.
pub open spec fn pixel_is(d: Seq<u8>, x: int, y: int, rgb: (u8, u8, u8)) -> bool {
    &&& d[y * 768 + x * 3] == rgb.0
    &&& d[y * 768 + x * 3 + 1] == rgb.1
    &&& d[y * 768 + x * 3 + 2] == rgb.2
}

/// Tile pixel `(x, y)` of the tile at `base` was drawn at frame position
/// `(ox + x, oy + y)` in the preview palette.
pub open spec fn tile_pixel_drawn(
    d: Seq<u8>,
    chr: Seq<u8>,
    base: int,
    ox: int,
    oy: int,
    x: int,
    y: int,
) -> bool {
    pixel_is(d, ox + x, oy + y, spec_preview_rgb(spec_tile_color(chr, base, x, y)))
}

/// Draw the 8x8 tile at `base` with its top-left corner at `(ox, oy)`.
/// Every pixel of the tile lands in the frame; nothing else changes.
fn draw_pattern_tile(frame: &mut Frame, chr_rom: &[u8], base: usize, ox: usize, oy: usize)
    requires
        old(frame).data@.len() == 256 * 240 * 3,
        base + 15 < chr_rom@.len(),
        chr_rom@.len() <= 0x2000,
        ox + 7 < 256,
        oy + 7 < 240,
    ensures
        final(frame).data@.len() == old(frame).data@.len(),
        forall|x: int, y: int|
            0 <= x < 8 && 0 <= y < 8 ==> #[trigger] tile_pixel_drawn(
                final(frame).data@,
                chr_rom@,
                base as int,
                ox as int,
                oy as int,
                x,
                y,
            ),
        forall|i: int|
            0 <= i < old(frame).data@.len() && !(oy <= i / 768 < oy + 8 && ox <= (i % 768) / 3 < ox
                + 8) ==> final(frame).data@[i] == old(frame).data@[i],
{
    let mut y: usize = 0;
    while y < 8
        invariant
            frame.data@.len() == 256 * 240 * 3,
            base + 15 < chr_rom@.len(),
            chr_rom@.len() <= 0x2000,
            ox + 7 < 256,
            oy + 7 < 240,
            y <= 8,
            forall|xx: int, yy: int|
                0 <= xx < 8 && 0 <= yy < y ==> #[trigger] tile_pixel_drawn(
                    frame.data@,
                    chr_rom@,
                    base as int,
                    ox as int,
                    oy as int,
                    xx,
                    yy,
                ),
            forall|i: int|
                0 <= i < frame.data@.len() && !(oy <= i / 768 < oy + y && ox <= (i % 768) / 3 < ox
                    + 8) ==> frame.data@[i] == old(frame).data@[i],
        decreases 8 - y,
    {
        let mut upper = chr_rom[base + y];
        let mut lower = chr_rom[base + y + 8];
        let ghost u0 = upper;
        let ghost l0 = lower;
        proof {
            assert(u0 >> 0u8 == u0 && l0 >> 0u8 == l0) by (bit_vector);
        }

        let mut k: usize = 0;
        while k < 8
            invariant
                frame.data@.len() == 256 * 240 * 3,
                base + 15 < chr_rom@.len(),
                chr_rom@.len() <= 0x2000,
                ox + 7 < 256,
                oy + 7 < 240,
                y < 8,
                k <= 8,
                u0 == chr_rom@[base + y],
                l0 == chr_rom@[base + y + 8],
                k < 8 ==> upper == u0 >> (k as u8),
                k < 8 ==> lower == l0 >> (k as u8),
                forall|xx: int, yy: int|
                    0 <= xx < 8 && 0 <= yy < y ==> #[trigger] tile_pixel_drawn(
                        frame.data@,
                        chr_rom@,
                        base as int,
                        ox as int,
                        oy as int,
                        xx,
                        yy,
                    ),
                forall|xx: int|
                    8 - k <= xx < 8 ==> #[trigger] tile_pixel_drawn(
                        frame.data@,
                        chr_rom@,
                        base as int,
                        ox as int,
                        oy as int,
                        xx,
                        y as int,
                    ),
                forall|i: int|
                    0 <= i < frame.data@.len() && !(oy <= i / 768 < oy + y + 1 && ox <= (i % 768)
                        / 3 < ox + 8) ==> frame.data@[i] == old(frame).data@[i],
            decreases 8 - k,
        {
            let x = 7 - k;
            let color = ((upper & 1) << 1u8) | (lower & 1);
            let rgb = if color == 0 {
                system_palette(0x01)
            } else if color == 1 {
                system_palette(0x23)
            } else if color == 2 {
                system_palette(0x27)
            } else {
                system_palette(0x30)
            };
            proof {
                assert(rgb == spec_preview_rgb(
                    spec_tile_color(chr_rom@, base as int, x as int, y as int),
                ));
            }
            let ghost dpre = frame.data@;
            frame.set_pixel(ox + x, oy + y, rgb);
            proof {
                let fx = (ox + x) as int;
                let fy = (oy + y) as int;
                let b0 = fy * 768 + fx * 3;
                assert(b0 + 2 < 256 * 240 * 3);
                assert(frame.data@ == dpre.update(b0, rgb.0).update(b0 + 1, rgb.1).update(
                    b0 + 2,
                    rgb.2,
                ));
                assert(tile_pixel_drawn(
                    frame.data@,
                    chr_rom@,
                    base as int,
                    ox as int,
                    oy as int,
                    x as int,
                    y as int,
                ));
                assert forall|xx: int, yy: int|
                    0 <= xx < 8 && 0 <= yy < y implies #[trigger] tile_pixel_drawn(
                    frame.data@,
                    chr_rom@,
                    base as int,
                    ox as int,
                    oy as int,
                    xx,
                    yy,
                ) by {
                    assert(tile_pixel_drawn(
                        dpre,
                        chr_rom@,
                        base as int,
                        ox as int,
                        oy as int,
                        xx,
                        yy,
                    ));
                    assert((oy + yy) * 768 + (ox + xx) * 3 + 2 < b0);
                }
                assert forall|xx: int|
                    8 - (k + 1) <= xx < 8 implies #[trigger] tile_pixel_drawn(
                    frame.data@,
                    chr_rom@,
                    base as int,
                    ox as int,
                    oy as int,
                    xx,
                    y as int,
                ) by {
                    if xx > x {
                        assert(tile_pixel_drawn(
                            dpre,
                            chr_rom@,
                            base as int,
                            ox as int,
                            oy as int,
                            xx,
                            y as int,
                        ));
                        assert(b0 + 2 < fy * 768 + (ox + xx) * 3);
                    }
                }
                assert forall|i: int|
                    0 <= i < frame.data@.len() && !(oy <= i / 768 < oy + y + 1 && ox <= (i % 768)
                        / 3 < ox + 8) implies frame.data@[i] == old(frame).data@[i] by {
                    if b0 <= i <= b0 + 2 {
                        lemma_pixel_index(fx, fy, i);
                    }
                }
                let kk = k as u8;
                assert((u0 >> kk) >> 1u8 == u0 >> ((kk + 1) as u8) && (l0 >> kk) >> 1u8 == l0
                    >> ((kk + 1) as u8)) by (bit_vector)
                    requires
                        kk <= 7,
                ;
            }
            upper = upper >> 1u8;
            lower = lower >> 1u8;
            k = k + 1;
        }
        y = y + 1;
    }
}

/// Draw tile `tile_n` of pattern bank `bank` into the top-left corner of a
/// fresh frame.
pub fn show_tile(chr_rom: &[u8], bank: usize, tile_n: usize) -> (r: Frame)
    requires
        bank <= 1,
        bank * 0x1000 + tile_n * 16 + 15 < chr_rom@.len(),
        chr_rom@.len() <= 0x2000,
    ensures
        r.data@.len() == 256 * 240 * 3,
        forall|x: int, y: int|
            0 <= x < 8 && 0 <= y < 8 ==> #[trigger] tile_pixel_drawn(
                r.data@,
                chr_rom@,
                (bank * 0x1000 + tile_n * 16) as int,
                0,
                0,
                x,
                y,
            ),
{
    let mut frame = Frame::new();
    let base = bank * 0x1000 + tile_n * 16;
    draw_pattern_tile(&mut frame, chr_rom, base, 0, 0);
    frame
}

/// Where tile `n` of a bank preview sits: twenty tiles per row, ten
/// pixels apart each way.
pub open spec fn spec_bank_tile_pos(n: int) -> (int, int) {
    ((n % 20) * 10, (n / 20) * 10)
}

/// Draw the first 255 tiles of pattern bank `bank` on a 20-wide grid.
pub fn show_tile_bank(chr_rom: &[u8], bank: usize) -> (r: Frame)
    requires
        bank <= 1,
        bank * 0x1000 + 255 * 16 + 15 < chr_rom@.len(),
        chr_rom@.len() <= 0x2000,
    ensures
        r.data@.len() == 256 * 240 * 3,
        forall|n: int, x: int, y: int|
            0 <= n < 255 && 0 <= x < 8 && 0 <= y < 8 ==> #[trigger] tile_pixel_drawn(
                r.data@,
                chr_rom@,
                (bank * 0x1000 + n * 16) as int,
                spec_bank_tile_pos(n).0,
                spec_bank_tile_pos(n).1,
                x,
                y,
            ),
{
    let mut frame = Frame::new();
    let bank_base = bank * 0x1000;

    let mut n: usize = 0;
    while n < 255
        invariant
            bank <= 1,
            bank_base == bank * 0x1000,
            bank * 0x1000 + 255 * 16 + 15 < chr_rom@.len(),
            chr_rom@.len() <= 0x2000,
            frame.data@.len() == 256 * 240 * 3,
            n <= 255,
            forall|t: int, x: int, y: int|
                0 <= t < n && 0 <= x < 8 && 0 <= y < 8 ==> #[trigger] tile_pixel_drawn(
                    frame.data@,
                    chr_rom@,
                    (bank * 0x1000 + t * 16) as int,
                    spec_bank_tile_pos(t).0,
                    spec_bank_tile_pos(t).1,
                    x,
                    y,
                ),
        decreases 255 - n,
    {
        let tile_x = (n % 20) * 10;
        let tile_y = (n / 20) * 10;
        let ghost dpre = frame.data@;
        draw_pattern_tile(&mut frame, chr_rom, bank_base + n * 16, tile_x, tile_y);
        proof {
            assert forall|t: int, x: int, y: int|
                0 <= t < n && 0 <= x < 8 && 0 <= y < 8 implies #[trigger] tile_pixel_drawn(
                frame.data@,
                chr_rom@,
                (bank * 0x1000 + t * 16) as int,
                spec_bank_tile_pos(t).0,
                spec_bank_tile_pos(t).1,
                x,
                y,
            ) by {
                assert(tile_pixel_drawn(
                    dpre,
                    chr_rom@,
                    (bank * 0x1000 + t * 16) as int,
                    spec_bank_tile_pos(t).0,
                    spec_bank_tile_pos(t).1,
                    x,
                    y,
                ));
                let tox = spec_bank_tile_pos(t).0;
                let toy = spec_bank_tile_pos(t).1;
                let fy = toy + y;
                let fx = tox + x;
                let i0 = fy * 768 + fx * 3;
                lemma_pixel_index(fx, fy, i0);
                lemma_pixel_index(fx, fy, i0 + 1);
                lemma_pixel_index(fx, fy, i0 + 2);
                lemma_bank_positions_disjoint(t, n as int);
            }
        }
        n = n + 1;
    }
    frame
}

/// A byte index inside pixel `(fx, fy)` names that pixel's row and column.
proof fn lemma_pixel_index(fx: int, fy: int, i: int)
    requires
        0 <= fx < 256,
        0 <= fy,
        fy * 768 + fx * 3 <= i <= fy * 768 + fx * 3 + 2,
    ensures
        i / 768 == fy,
        (i % 768) / 3 == fx,
{
    assert(i / 768 == fy) by (nonlinear_arith)
        requires
            fy * 768 <= i <= fy * 768 + 767,
    ;
    assert((i % 768) / 3 == fx) by (nonlinear_arith)
        requires
            0 <= fy,
            0 <= fx < 256,
            fy * 768 + fx * 3 <= i <= fy * 768 + fx * 3 + 2,
    ;
}

/// Two different grid slots are at least ten pixels apart in one axis, so
/// their 8x8 tiles never overlap.
proof fn lemma_bank_positions_disjoint(t: int, n: int)
    requires
        0 <= t < n < 255,
    ensures
        ({
            let (tx, ty) = spec_bank_tile_pos(t);
            let (nx, ny) = spec_bank_tile_pos(n);
            tx + 8 <= nx || nx + 8 <= tx || ty + 8 <= ny || ny + 8 <= ty
        }),
{
    let tr = t / 20;
    let nr = n / 20;
    if tr == nr {
        assert(t % 20 != n % 20);
    } else {
        assert(tr < nr);
    }
}

} // verus!
