//! The fixed 64-entry system palette: the RGB triple shown for each 6-bit
//! colour value the PPU can emit.

use vstd::prelude::*;

verus! {

/// RGB triple of a 6-bit system colour; the index is taken modulo 64.
pub open spec fn spec_system_palette(index: u8) -> (u8, u8, u8) {
    match index & 0x3f {
        0 => (0x80, 0x80, 0x80),
        1 => (0x00, 0x3d, 0xa6),
        2 => (0x00, 0x12, 0xb0),
        3 => (0x44, 0x00, 0x96),
        4 => (0xa1, 0x00, 0x5e),
        5 => (0xc7, 0x00, 0x28),
        6 => (0xba, 0x06, 0x00),
        7 => (0x8c, 0x17, 0x00),
        8 => (0x5c, 0x2f, 0x00),
        9 => (0x10, 0x45, 0x00),
        10 => (0x05, 0x4a, 0x00),
        11 => (0x00, 0x47, 0x2e),
        12 => (0x00, 0x41, 0x66),
        13 => (0x00, 0x00, 0x00),
        14 => (0x05, 0x05, 0x05),
        15 => (0x05, 0x05, 0x05),
        16 => (0xc7, 0xc7, 0xc7),
        17 => (0x00, 0x77, 0xff),
        18 => (0x21, 0x55, 0xff),
        19 => (0x82, 0x37, 0xfa),
        20 => (0xeb, 0x2f, 0xb5),
        21 => (0xff, 0x29, 0x50),
        22 => (0xff, 0x22, 0x00),
        23 => (0xd6, 0x32, 0x00),
        24 => (0xc4, 0x62, 0x00),
        25 => (0x35, 0x80, 0x00),
        26 => (0x05, 0x8f, 0x00),
        27 => (0x00, 0x8a, 0x55),
        28 => (0x00, 0x99, 0xcc),
        29 => (0x21, 0x21, 0x21),
        30 => (0x09, 0x09, 0x09),
        31 => (0x09, 0x09, 0x09),
        32 => (0xff, 0xff, 0xff),
        33 => (0x0f, 0xd7, 0xff),
        34 => (0x69, 0xa2, 0xff),
        35 => (0xd4, 0x80, 0xff),
        36 => (0xff, 0x45, 0xf3),
        37 => (0xff, 0x61, 0x8b),
        38 => (0xff, 0x88, 0x33),
        39 => (0xff, 0x9c, 0x12),
        40 => (0xfa, 0xbc, 0x20),
        41 => (0x9f, 0xe3, 0x0e),
        42 => (0x2b, 0xf0, 0x35),
        43 => (0x0c, 0xf0, 0xa4),
        44 => (0x05, 0xfb, 0xff),
        45 => (0x5e, 0x5e, 0x5e),
        46 => (0x0d, 0x0d, 0x0d),
        47 => (0x0d, 0x0d, 0x0d),
        48 => (0xff, 0xff, 0xff),
        49 => (0xa6, 0xfc, 0xff),
        50 => (0xb3, 0xec, 0xff),
        51 => (0xda, 0xab, 0xeb),
        52 => (0xff, 0xa8, 0xf9),
        53 => (0xff, 0xab, 0xb3),
        54 => (0xff, 0xd2, 0xb0),
        55 => (0xff, 0xef, 0xa6),
        56 => (0xff, 0xf7, 0x9c),
        57 => (0xd7, 0xe8, 0x95),
        58 => (0xa6, 0xed, 0xaf),
        59 => (0xa2, 0xf2, 0xda),
        60 => (0x99, 0xff, 0xfc),
        61 => (0xdd, 0xdd, 0xdd),
        62 => (0x11, 0x11, 0x11),
        _ => (0x11, 0x11, 0x11),
    }
}

/// RGB triple of a 6-bit system colour; the index is taken modulo 64, as
/// the hardware only drives six colour lines.
pub fn system_palette(index: u8) -> (r: (u8, u8, u8))
    ensures
        r == spec_system_palette(index),
{
    let ghost gi = index;
    let i = index & 0x3f;
    proof {
        assert(gi & 0x3f < 64) by (bit_vector);
    }
    match i {
        0 => (0x80, 0x80, 0x80),
        1 => (0x00, 0x3d, 0xa6),
        2 => (0x00, 0x12, 0xb0),
        3 => (0x44, 0x00, 0x96),
        4 => (0xa1, 0x00, 0x5e),
        5 => (0xc7, 0x00, 0x28),
        6 => (0xba, 0x06, 0x00),
        7 => (0x8c, 0x17, 0x00),
        8 => (0x5c, 0x2f, 0x00),
        9 => (0x10, 0x45, 0x00),
        10 => (0x05, 0x4a, 0x00),
        11 => (0x00, 0x47, 0x2e),
        12 => (0x00, 0x41, 0x66),
        13 => (0x00, 0x00, 0x00),
        14 => (0x05, 0x05, 0x05),
        15 => (0x05, 0x05, 0x05),
        16 => (0xc7, 0xc7, 0xc7),
        17 => (0x00, 0x77, 0xff),
        18 => (0x21, 0x55, 0xff),
        19 => (0x82, 0x37, 0xfa),
        20 => (0xeb, 0x2f, 0xb5),
        21 => (0xff, 0x29, 0x50),
        22 => (0xff, 0x22, 0x00),
        23 => (0xd6, 0x32, 0x00),
        24 => (0xc4, 0x62, 0x00),
        25 => (0x35, 0x80, 0x00),
        26 => (0x05, 0x8f, 0x00),
        27 => (0x00, 0x8a, 0x55),
        28 => (0x00, 0x99, 0xcc),
        29 => (0x21, 0x21, 0x21),
        30 => (0x09, 0x09, 0x09),
        31 => (0x09, 0x09, 0x09),
        32 => (0xff, 0xff, 0xff),
        33 => (0x0f, 0xd7, 0xff),
        34 => (0x69, 0xa2, 0xff),
        35 => (0xd4, 0x80, 0xff),
        36 => (0xff, 0x45, 0xf3),
        37 => (0xff, 0x61, 0x8b),
        38 => (0xff, 0x88, 0x33),
        39 => (0xff, 0x9c, 0x12),
        40 => (0xfa, 0xbc, 0x20),
        41 => (0x9f, 0xe3, 0x0e),
        42 => (0x2b, 0xf0, 0x35),
        43 => (0x0c, 0xf0, 0xa4),
        44 => (0x05, 0xfb, 0xff),
        45 => (0x5e, 0x5e, 0x5e),
        46 => (0x0d, 0x0d, 0x0d),
        47 => (0x0d, 0x0d, 0x0d),
        48 => (0xff, 0xff, 0xff),
        49 => (0xa6, 0xfc, 0xff),
        50 => (0xb3, 0xec, 0xff),
        51 => (0xda, 0xab, 0xeb),
        52 => (0xff, 0xa8, 0xf9),
        53 => (0xff, 0xab, 0xb3),
        54 => (0xff, 0xd2, 0xb0),
        55 => (0xff, 0xef, 0xa6),
        56 => (0xff, 0xf7, 0x9c),
        57 => (0xd7, 0xe8, 0x95),
        58 => (0xa6, 0xed, 0xaf),
        59 => (0xa2, 0xf2, 0xda),
        60 => (0x99, 0xff, 0xfc),
        61 => (0xdd, 0xdd, 0xdd),
        62 => (0x11, 0x11, 0x11),
        _ => (0x11, 0x11, 0x11),
    }
}

} // verus!
