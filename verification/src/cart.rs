//! iNES (v1) cartridge images: header parsing and the immutable ROM value.
//!
//! Header layout: bytes 0-3 are the magic `4E 45 53 1A`; byte 4 counts
//! 16 KiB PRG banks; byte 5 counts 8 KiB CHR banks; byte 6 carries the
//! mirroring bit, the trainer bit, the four-screen bit and the low mapper
//! nibble; byte 7 carries the iNES version bits and the high mapper nibble.

use vstd::prelude::*;

verus! {

use vstd::string::StringExecFns;

/// Nametable arrangement selected by the cartridge.
#[derive(Debug, PartialEq, Eq, Structural, Clone, Copy)]
#[allow(non_camel_case_types)]
pub enum Mirroring {
    VERTICAL,
    HORIZONTAL,
    FOUR_SCREEN,
}

/// A parsed cartridge: immutable after load.
pub struct Rom {
    pub prg_rom: Vec<u8>,
    pub chr_rom: Vec<u8>,
    pub mapper: u8,
    pub screen_mirroring: Mirroring,
}

/// The image starts with the iNES magic bytes.
pub open spec fn magic_ok(d: Seq<u8>) -> bool {
    d[0] == 0x4e && d[1] == 0x45 && d[2] == 0x53 && d[3] == 0x1a
}

/// Version bits of header byte 7; the value 2 announces NES 2.0.
pub open spec fn spec_ines_version(d: Seq<u8>) -> u8 {
    (d[7] >> 2) & 0b11
}

/// Mapper number assembled from the two header nibbles.
pub open spec fn spec_mapper(d: Seq<u8>) -> u8 {
    (d[7] & 0xf0) | (d[6] >> 4)
}

/// Mirroring selected by header byte 6.
pub open spec fn spec_mirroring(d: Seq<u8>) -> Mirroring {
    if d[6] & 0b1000 != 0 {
        Mirroring::FOUR_SCREEN
    } else if d[6] & 0b1 != 0 {
        Mirroring::VERTICAL
    } else {
        Mirroring::HORIZONTAL
    }
}

/// Byte 6 bit 2 announces a 512-byte trainer before the PRG data.
pub open spec fn spec_has_trainer(d: Seq<u8>) -> bool {
    d[6] & 0b100 != 0
}

pub open spec fn spec_prg_size(d: Seq<u8>) -> int {
    d[4] * 0x4000
}

pub open spec fn spec_chr_size(d: Seq<u8>) -> int {
    d[5] * 0x2000
}

pub open spec fn spec_prg_start(d: Seq<u8>) -> int {
    16 + if spec_has_trainer(d) { 512int } else { 0int }
}

/// The image holds the whole header, trainer, PRG and CHR data.
pub open spec fn image_complete(d: Seq<u8>) -> bool {
    d.len() >= spec_prg_start(d) + spec_prg_size(d) + spec_chr_size(d)
}

impl Rom {
    /// Parses an iNES image. Rejects a wrong magic, and an NES 2.0 header
    /// (version bits of byte 7 equal to 2); any other version value loads
    /// as iNES v1, yielding the PRG bytes, the CHR bytes, the mapper number
    /// and the mirroring mode exactly as the header lays them out.
    pub fn new(rom_data: &Vec<u8>) -> (r: Result<Rom, String>)
        requires
            rom_data@.len() >= 16,
            magic_ok(rom_data@) && spec_ines_version(rom_data@) != 2 ==> image_complete(
                rom_data@,
            ),
        ensures
            !magic_ok(rom_data@) ==> (r matches Err(m) && m@ == "Unsupported format"@),
            magic_ok(rom_data@) && spec_ines_version(rom_data@) == 2 ==> (r matches Err(m)
                && m@ == "NES2.0 is not supported"@),
            magic_ok(rom_data@) && spec_ines_version(rom_data@) != 2 ==> (r matches Ok(rom) && {
                let start = spec_prg_start(rom_data@);
                &&& rom.prg_rom@ == rom_data@.subrange(start, start + spec_prg_size(rom_data@))
                &&& rom.chr_rom@ == rom_data@.subrange(
                    start + spec_prg_size(rom_data@),
                    start + spec_prg_size(rom_data@) + spec_chr_size(rom_data@),
                )
                &&& rom.mapper == spec_mapper(rom_data@)
                &&& rom.screen_mirroring == spec_mirroring(rom_data@)
            }),
    {
        if !(rom_data[0] == 0x4e && rom_data[1] == 0x45 && rom_data[2] == 0x53 && rom_data[3]
            == 0x1a) {
            return Err(String::from_str("Unsupported format"));
        }
        let mapper = (rom_data[7] & 0xf0) | (rom_data[6] >> 4);

        let ines_ver = (rom_data[7] >> 2) & 0b11;
        if ines_ver == 2 {
            return Err(String::from_str("NES2.0 is not supported"));
        }
        let four_screen = rom_data[6] & 0b1000 != 0;
        let vertical_mirroring = rom_data[6] & 0b1 != 0;

        let screen_mirroring = if four_screen {
            Mirroring::FOUR_SCREEN
        } else if vertical_mirroring {
            Mirroring::VERTICAL
        } else {
            Mirroring::HORIZONTAL
        };

        let prg_rom_size = rom_data[4] as usize * 0x4000;
        let chr_rom_size = rom_data[5] as usize * 0x2000;

        let skip_trainer = rom_data[6] & 0b100 != 0;

        let prg_rom_start: usize = if skip_trainer { 16 + 512 } else { 16 };
        let chr_rom_start = prg_rom_start + prg_rom_size;

        Ok(
            Rom {
                prg_rom: copy_range(rom_data, prg_rom_start, prg_rom_size),
                chr_rom: copy_range(rom_data, chr_rom_start, chr_rom_size),
                mapper,
                screen_mirroring,
            },
        )
    }
}

/// Copies `count` bytes of `v` starting at `start` into a fresh vector.
pub fn copy_range(v: &Vec<u8>, start: usize, count: usize) -> (out: Vec<u8>)
    requires
        start + count <= v@.len(),
    ensures
        out@ == v@.subrange(start as int, start + count),
{
    let mut out: Vec<u8> = Vec::new();
    let n = v.len();
    let mut i: usize = 0;
    while i < count
        invariant
            i <= count,
            start + count <= n,
            n == v@.len(),
            out@ == v@.subrange(start as int, start + i),
        decreases count - i,
    {
        out.push(v[start + i]);
        assert(out@ =~= v@.subrange(start as int, start + i + 1));
        i = i + 1;
    }
    out
}

/// Builds a vector holding `count` copies of `value`.
pub fn filled(value: u8, count: usize) -> (out: Vec<u8>)
    ensures
        out@.len() == count,
        forall|i: int| 0 <= i < count ==> out@[i] == value,
{
    let mut out: Vec<u8> = Vec::new();
    let mut i: usize = 0;
    while i < count
        invariant
            i <= count,
            out@.len() == i,
            forall|j: int| 0 <= j < i ==> out@[j] == value,
        decreases count - i,
    {
        out.push(value);
        i = i + 1;
    }
    out
}

/// The pieces of a cartridge image, laid out in file order.
pub struct TestRom {
    pub header: Vec<u8>,
    pub trainer: Option<Vec<u8>>,
    pub pgp_rom: Vec<u8>,
    pub chr_rom: Vec<u8>,
}

/// Concatenates the pieces of a cartridge image into one byte vector.
pub fn create_rom(rom: TestRom) -> (out: Vec<u8>)
    ensures
        out@ == rom.header@ + (match rom.trainer {
            Some(t) => t@,
            None => Seq::<u8>::empty(),
        }) + rom.pgp_rom@ + rom.chr_rom@,
{
    let mut result: Vec<u8> = Vec::new();
    result.extend_from_slice(rom.header.as_slice());
    match &rom.trainer {
        Some(t) => {
            result.extend_from_slice(t.as_slice());
        },
        None => {},
    }
    result.extend_from_slice(rom.pgp_rom.as_slice());
    result.extend_from_slice(rom.chr_rom.as_slice());
    assert(result@ =~= rom.header@ + (match rom.trainer {
        Some(t) => t@,
        None => Seq::<u8>::empty(),
    }) + rom.pgp_rom@ + rom.chr_rom@);
    result
}

/// A ready-made NROM-shaped image: 32 KiB of PRG filled with 1, 8 KiB of
/// CHR filled with 2, mapper 3, vertical mirroring.
pub fn test_rom() -> (rom: Rom)
    ensures
        rom.prg_rom@.len() == 0x8000,
        forall|i: int| 0 <= i < 0x8000 ==> rom.prg_rom@[i] == 1,
        rom.chr_rom@.len() == 0x2000,
        forall|i: int| 0 <= i < 0x2000 ==> rom.chr_rom@[i] == 2,
        rom.mapper == 3,
        rom.screen_mirroring == Mirroring::VERTICAL,
{
    let mut header: Vec<u8> = Vec::new();
    header.push(0x4e);
    header.push(0x45);
    header.push(0x53);
    header.push(0x1a);
    header.push(0x02);
    header.push(0x01);
    header.push(0x31);
    let mut i: usize = 0;
    while i < 9
        invariant
            i <= 9,
            header@.len() == 7 + i,
            header@[0] == 0x4e && header@[1] == 0x45 && header@[2] == 0x53 && header@[3] == 0x1a,
            header@[4] == 0x02 && header@[5] == 0x01 && header@[6] == 0x31,
            forall|j: int| 7 <= j < 7 + i ==> header@[j] == 0,
        decreases 9 - i,
    {
        header.push(0);
        i = i + 1;
    }
    let image = create_rom(
        TestRom {
            header,
            trainer: None,
            pgp_rom: filled(1, 2 * 0x4000),
            chr_rom: filled(2, 0x2000),
        },
    );
    let ghost d = image@;
    proof {
        assert(d.len() == 16 + 0x8000 + 0x2000);
        assert(d[0] == 0x4e && d[1] == 0x45 && d[2] == 0x53 && d[3] == 0x1a);
        assert(d[4] == 0x02 && d[5] == 0x01 && d[6] == 0x31 && d[7] == 0x00);
        assert((0u8 >> 2) & 0b11 == 0) by (bit_vector);
        assert((0u8 & 0xf0) | (0x31u8 >> 4) == 3) by (bit_vector);
        assert(0x31u8 & 0b1000 == 0 && 0x31u8 & 0b1 == 1 && 0x31u8 & 0b100 == 0) by (bit_vector);
        assert(spec_ines_version(d) == 0);
        assert(spec_mapper(d) == 3);
        assert(!spec_has_trainer(d));
        assert(spec_mirroring(d) == Mirroring::VERTICAL);
        assert(spec_prg_size(d) == 0x8000);
        assert(spec_chr_size(d) == 0x2000);
    }
    let rom = Rom::new(&image);
    match rom {
        Ok(r) => {
            proof {
                assert forall|i: int| 0 <= i < 0x8000 implies r.prg_rom@[i] == 1 by {
                    assert(r.prg_rom@[i] == d[16 + i]);
                }
                assert forall|i: int| 0 <= i < 0x2000 implies r.chr_rom@[i] == 2 by {
                    assert(r.chr_rom@[i] == d[16 + 0x8000 + i]);
                }
            }
            r
        },
        Err(_) => {
            // the image built above always parses
            proof {
                assert(false);
            }
            Rom {
                prg_rom: Vec::new(),
                chr_rom: Vec::new(),
                mapper: 0,
                screen_mirroring: Mirroring::HORIZONTAL,
            }
        },
    }
}

} // verus!
