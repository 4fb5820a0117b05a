//! iNES v1 cartridge container: parsing into PRG ROM, CHR ROM, mapper id and
//! mirroring mode.

use vstd::prelude::*;

verus! {

/// Size of one PRG ROM bank (16 KiB).
pub const PRG_ROM_PAGE_SIZE: usize = 16384;
/// Size of one CHR ROM bank (8 KiB).
pub const CHR_ROM_PAGE_SIZE: usize = 8192;

/// Nametable mirroring arrangement requested by the cartridge header.
#[derive(Debug, PartialEq, Eq, Structural, Clone, Copy)]
pub enum Mirroring {
    HORIZONTAL,
    VERTICAL,
    FOURSCREEN,
}

/// A parsed cartridge: immutable after construction.
pub struct Rom {
    pub prg_rom: Vec<u8>,
    pub chr_rom: Vec<u8>,
    pub mapper: u8,
    pub mirroring: Mirroring,
}

/// The four magic bytes `4E 45 53 1A` open every iNES file.
pub open spec fn tag_ok(raw: Seq<u8>) -> bool {
    &&& raw.len() >= 4
    &&& raw[0] == 0x4eu8
    &&& raw[1] == 0x45u8
    &&& raw[2] == 0x53u8
    &&& raw[3] == 0x1au8
}

/// iNES version field: bits 2..3 of header byte 7; only version 0 is accepted.
pub open spec fn spec_ines_version(raw: Seq<u8>) -> u8 {
    (raw[7] >> 2) & 0x3
}

/// Header byte 6 bit 2: a 512-byte trainer sits between header and PRG ROM.
pub open spec fn spec_has_trainer(raw: Seq<u8>) -> bool {
    raw[6] & 0x4 != 0
}

/// Offset of the first PRG ROM byte within the raw image.
pub open spec fn spec_prg_start(raw: Seq<u8>) -> int {
    16 + if spec_has_trainer(raw) { 512int } else { 0int }
}

pub open spec fn spec_prg_size(raw: Seq<u8>) -> int {
    raw[4] * 16384
}

pub open spec fn spec_chr_size(raw: Seq<u8>) -> int {
    raw[5] * 8192
}

/// Total number of bytes the header claims the image holds.
pub open spec fn spec_rom_total(raw: Seq<u8>) -> int {
    spec_prg_start(raw) + spec_prg_size(raw) + spec_chr_size(raw)
}

/// Mapper id: high nibble from byte 7, low nibble from byte 6.
pub open spec fn spec_mapper(raw: Seq<u8>) -> u8 {
    (raw[7] & 0xf0) | (raw[6] >> 4)
}

/// Four-screen bit wins; otherwise byte 6 bit 0 selects vertical mirroring.
pub open spec fn spec_mirroring(raw: Seq<u8>) -> Mirroring {
    if raw[6] & 0x8 != 0 {
        Mirroring::FOURSCREEN
    } else if raw[6] & 0x1 != 0 {
        Mirroring::VERTICAL
    } else {
        Mirroring::HORIZONTAL
    }
}

/// The image carries the magic tag and an iNES version this core supports.
pub open spec fn spec_parses(raw: Seq<u8>) -> bool {
    tag_ok(raw) && spec_ines_version(raw) == 0
}

impl Rom {
    /// Parse a raw iNES v1 image. Fails with `"Invalid NES file"` when the
    /// magic tag is absent and with `"Unsupported iNES version"` for iNES 2.0
    /// images; succeeds on every other input large enough to hold the sizes
    /// its header declares.
    pub fn new(raw: &[u8]) -> (r: Result<Rom, String>)
        requires
            raw@.len() >= 4,
            tag_ok(raw@) ==> raw@.len() >= 16,
            spec_parses(raw@) ==> spec_rom_total(raw@) <= raw@.len(),
        ensures
            !tag_ok(raw@) ==> (r matches Err(e) && e@ == "Invalid NES file"@),
            tag_ok(raw@) && spec_ines_version(raw@) != 0 ==> (r matches Err(e) && e@
                == "Unsupported iNES version"@),
            spec_parses(raw@) ==> (r matches Ok(rom) && {
                &&& rom.prg_rom@ == raw@.subrange(
                    spec_prg_start(raw@),
                    spec_prg_start(raw@) + spec_prg_size(raw@),
                )
                &&& rom.chr_rom@ == raw@.subrange(
                    spec_prg_start(raw@) + spec_prg_size(raw@),
                    spec_rom_total(raw@),
                )
                &&& rom.mapper == spec_mapper(raw@)
                &&& rom.mirroring == spec_mirroring(raw@)
            }),
    {
        if !(raw[0] == 0x4e && raw[1] == 0x45 && raw[2] == 0x53 && raw[3] == 0x1a) {
            return Err("Invalid NES file".to_owned());
        }

        let mapper = (raw[7] & 0xf0) | (raw[6] >> 4);
        let ines_version = (raw[7] >> 2) & 0x3;
        if ines_version != 0 {
            return Err("Unsupported iNES version".to_owned());
        }

        let four_screen = raw[6] & 0x8 != 0;
        let vertical_mirroring = raw[6] & 0x1 != 0;
        let mirroring = if four_screen {
            Mirroring::FOURSCREEN
        } else if vertical_mirroring {
            Mirroring::VERTICAL
        } else {
            Mirroring::HORIZONTAL
        };

        let prg_rom_size = raw[4] as usize * PRG_ROM_PAGE_SIZE;
        let chr_rom_size = raw[5] as usize * CHR_ROM_PAGE_SIZE;

        let skip_trainer = raw[6] & 0x4 != 0;

        let prg_rom_start: usize = if skip_trainer { 16 + 512 } else { 16 };
        let prg_rom_end = prg_rom_start + prg_rom_size;
        let chr_rom_end = prg_rom_end + chr_rom_size;

        let prg_rom = copy_range(raw, prg_rom_start, prg_rom_end);
        let chr_rom = copy_range(raw, prg_rom_end, chr_rom_end);

        Ok(Rom { prg_rom, chr_rom, mapper, mirroring })
    }
}

/// Copy `src[start..end]` into a fresh vector.
fn copy_range(src: &[u8], start: usize, end: usize) -> (r: Vec<u8>)
    requires
        start <= end <= src@.len(),
    ensures
        r@ == src@.subrange(start as int, end as int),
{
    let mut out: Vec<u8> = Vec::new();
    let mut i = start;
    while i < end
        invariant
            start <= i <= end <= src@.len(),
            out@ == src@.subrange(start as int, i as int),
        decreases end - i,
    {
        out.push(src[i]);
        i += 1;
        proof {
            assert(out@ =~= src@.subrange(start as int, i as int));
        }
    }
    out
}

/// Raw pieces from which a test image is assembled.
pub struct TestRom {
    pub header: Vec<u8>,
    pub trainer: Option<Vec<u8>>,
    pub pgp_rom: Vec<u8>,
    pub chr_rom: Vec<u8>,
}

/// The trainer bytes, or the empty sequence when no trainer is present.
pub open spec fn spec_trainer_bytes(rom: TestRom) -> Seq<u8> {
    match rom.trainer {
        Some(t) => t@,
        None => Seq::empty(),
    }
}

/// Concatenate header, optional trainer, PRG and CHR into one raw image.
pub fn create_rom(rom: TestRom) -> (r: Vec<u8>)
    ensures
        r@ == rom.header@ + spec_trainer_bytes(rom) + rom.pgp_rom@ + rom.chr_rom@,
{
    let ghost g = rom;
    let TestRom { header, trainer, pgp_rom, chr_rom } = rom;
    let mut result: Vec<u8> = Vec::new();
    push_all(&mut result, &header);
    match &trainer {
        Some(t) => push_all(&mut result, t),
        None => (),
    }
    push_all(&mut result, &pgp_rom);
    push_all(&mut result, &chr_rom);
    proof {
        assert(result@ =~= g.header@ + spec_trainer_bytes(g) + g.pgp_rom@ + g.chr_rom@);
    }
    result
}

/// Append every byte of `src` to `dst`.
fn push_all(dst: &mut Vec<u8>, src: &Vec<u8>)
    ensures
        final(dst)@ == old(dst)@ + src@,
{
    let mut i: usize = 0;
    while i < src.len()
        invariant
            i <= src@.len(),
            dst@ == old(dst)@ + src@.subrange(0, i as int),
        decreases src@.len() - i,
    {
        dst.push(src[i]);
        i += 1;
        proof {
            assert(dst@ =~= old(dst)@ + src@.subrange(0, i as int));
        }
    }
    proof {
        assert(dst@ =~= old(dst)@ + src@);
    }
}

/// A vector of `n` copies of `val`.
pub fn filled_vec(val: u8, n: usize) -> (r: Vec<u8>)
    ensures
        r@ == Seq::new(n as nat, |i: int| val),
{
    let mut out: Vec<u8> = Vec::new();
    let mut i: usize = 0;
    while i < n
        invariant
            i <= n,
            out@ == Seq::new(i as nat, |j: int| val),
        decreases n - i,
    {
        out.push(val);
        i += 1;
        proof {
            assert(out@ =~= Seq::new(i as nat, |j: int| val));
        }
    }
    out
}

/// The fixed cartridge used by the bus and PPU tests: 32 KiB of PRG filled
/// with `0x01`, 8 KiB of CHR filled with `0x02`, mapper 3, vertical mirroring.
pub fn test_rom() -> (r: Rom)
    ensures
        r.prg_rom@ == Seq::new((2 * PRG_ROM_PAGE_SIZE) as nat, |i: int| 1u8),
        r.chr_rom@ == Seq::new(CHR_ROM_PAGE_SIZE as nat, |i: int| 2u8),
        r.mapper == 3,
        r.mirroring == Mirroring::VERTICAL,
{
    let mut header: Vec<u8> = Vec::new();
    header.push(0x4e);
    header.push(0x45);
    header.push(0x53);
    header.push(0x1a);
    header.push(0x02);
    header.push(0x01);
    header.push(0x31);
    header.push(0x00);
    header.push(0x00);
    header.push(0x00);
    header.push(0x00);
    header.push(0x00);
    header.push(0x00);
    header.push(0x00);
    header.push(0x00);
    header.push(0x00);
    let pgp_rom = filled_vec(1, 2 * PRG_ROM_PAGE_SIZE);
    let chr_rom = filled_vec(2, CHR_ROM_PAGE_SIZE);
    let raw = create_rom(TestRom { header, trainer: None, pgp_rom, chr_rom });
    proof {
        assert(raw@.len() == 16 + 2 * PRG_ROM_PAGE_SIZE + CHR_ROM_PAGE_SIZE);
        assert(tag_ok(raw@));
        assert(raw@[7] == 0u8);
        assert(((0u8 >> 2) & 0x3) == 0u8) by (bit_vector);
        assert(spec_ines_version(raw@) == 0);
        assert((0x31u8 & 0x4) == 0u8) by (bit_vector);
        assert(raw@[6] == 0x31u8);
        assert(!spec_has_trainer(raw@));
        assert(spec_rom_total(raw@) == 16 + 2 * 16384 + 8192);
    }
    let rom = Rom::new(raw.as_slice());
    match rom {
        Ok(rom) => {
            proof {
                assert(((0u8 & 0xf0) | (0x31u8 >> 4)) == 3u8) by (bit_vector);
                assert((0x31u8 & 0x8) == 0u8) by (bit_vector);
                assert((0x31u8 & 0x1) == 1u8) by (bit_vector);
                assert(rom.prg_rom@ =~= Seq::new((2 * PRG_ROM_PAGE_SIZE) as nat, |i: int| 1u8));
                assert(rom.chr_rom@ =~= Seq::new(CHR_ROM_PAGE_SIZE as nat, |i: int| 2u8));
            }
            rom
        },
        Err(_) => {
            proof {
                assert(false);
            }
            Rom {
                prg_rom: Vec::new(),
                chr_rom: Vec::new(),
                mapper: 0,
                mirroring: Mirroring::HORIZONTAL,
            }
        },
    }
}

} // verus!
