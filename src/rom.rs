//! The iNES cartridge image: a 16-byte header, an optional 512-byte
//! trainer, then PRG-ROM and CHR-ROM.
use vstd::prelude::*;

verus! {

/// Bytes in the header.
pub const HEADER_LEN: usize = 16;
/// Bytes in a trainer.
pub const TRAINER_LEN: usize = 512;
/// Bytes in one PRG-ROM unit.
pub const PRG_UNIT: usize = 0x4000;
/// Bytes in one CHR-ROM or PRG-RAM unit.
pub const CHR_UNIT: usize = 0x2000;

/// Nametable mirroring that the cartridge wires.
#[derive(Clone, Copy, Debug, PartialEq, Eq, Structural)]
pub enum Mirroring {
    Vertical,
    Horizontal,
}

/// Television system.
#[derive(Clone, Copy, Debug, PartialEq, Eq, Structural)]
pub enum TVFormat {
    Pal,
    Ntsc,
}

/// Why an image was refused.
#[derive(Clone, Copy, Debug, PartialEq, Eq, Structural)]
pub enum RomError {
    /// Shorter than its header says.
    Truncated,
    /// The first four bytes are not `"NES\x1A"`.
    BadMagic,
    /// Bits 2-3 of byte 7 are `0b10`: not an iNES 1 header.
    NotINes1,
    /// Bytes 10-15 are not all zero.
    NonZeroPadding,
    /// A mapper other than 0 (NROM).
    UnsupportedMapper,
    /// NROM needs 16 KiB or 32 KiB of PRG-ROM.
    BadPrgSize,
}

/// The low nibble of header byte 6.
#[derive(Clone, Copy, Debug, PartialEq, Eq, Structural)]
pub struct Flags6 {
    pub bits: u8,
}

/// Bit 0: vertical mirroring.
pub const V_MIRRORING: u8 = 0x01;
/// Bit 1: battery-backed PRG-RAM.
pub const BATTERY_BACKED_RAM: u8 = 0x02;
/// Bit 2: a 512-byte trainer precedes PRG-ROM.
pub const TRAINER_EXISTS: u8 = 0x04;
/// Bit 3: four-screen VRAM.
pub const FOUR_SCREEN: u8 = 0x08;

impl Flags6 {
    /// Whether any bit of `mask` is set.
    pub fn contains(&self, mask: u8) -> (r: bool)
        ensures
            r == (self.bits & mask != 0),
    {
        self.bits & mask != 0
    }

    /// Vertical when bit 0 is set, horizontal otherwise.
    pub fn mirroring(&self) -> (r: Mirroring)
        ensures
            r == (if self.bits & V_MIRRORING != 0 { Mirroring::Vertical } else { Mirroring::Horizontal }),
    {
        if self.contains(V_MIRRORING) {
            Mirroring::Vertical
        } else {
            Mirroring::Horizontal
        }
    }
}

/// A decoded header; sizes are in bytes.
#[derive(Clone, Copy, Debug, PartialEq, Eq, Structural)]
pub struct Hdr {
    pub prg_rom_size: usize,
    pub chr_rom_size: usize,
    pub prg_ram_size: usize,
    pub flags_6: Flags6,
    pub tv_format: TVFormat,
    pub mapper: u8,
}

/// The header that bytes `b` describe, or why they are refused.
pub open spec fn header_of(b: Seq<u8>) -> Result<Hdr, RomError> {
    if b.len() < HEADER_LEN {
        Err(RomError::Truncated)
    } else if !(b[0] == 0x4E && b[1] == 0x45 && b[2] == 0x53 && b[3] == 0x1A) {
        Err(RomError::BadMagic)
    } else if b[7] & 0x0C == 0x08 {
        Err(RomError::NotINes1)
    } else if !(b[10] == 0 && b[11] == 0 && b[12] == 0 && b[13] == 0 && b[14] == 0 && b[15] == 0) {
        Err(RomError::NonZeroPadding)
    } else {
        Ok(
            Hdr {
                prg_rom_size: (PRG_UNIT * b[4]) as usize,
                chr_rom_size: (CHR_UNIT * b[5]) as usize,
                prg_ram_size: (CHR_UNIT * b[8]) as usize,
                flags_6: Flags6 { bits: b[6] & 0x0F },
                tv_format: if b[9] & 1 == 1 { TVFormat::Pal } else { TVFormat::Ntsc },
                mapper: (b[7] & 0xF0) | (b[6] >> 4u8),
            },
        )
    }
}

/// Bytes of trainer that a header announces.
pub open spec fn trainer_len(h: Hdr) -> nat {
    if h.flags_6.bits & TRAINER_EXISTS != 0 {
        TRAINER_LEN as nat
    } else {
        0
    }
}

/// A cartridge image.
pub struct Rom {
    pub hdr: Hdr,
    pub trainer: Option<Vec<u8>>,
    pub prg_rom: Vec<u8>,
    pub chr_rom: Vec<u8>,
}

/// `b[start .. start + len]` as a new vector.
fn copy_range(b: &[u8], start: usize, len: usize) -> (r: Vec<u8>)
    requires
        start + len <= b@.len(),
    ensures
        r@ == b@.subrange(start as int, start + len),
{
    let n = b.len();
    let mut v: Vec<u8> = Vec::new();
    let mut i: usize = 0;
    while i < len
        invariant
            n == b@.len(),
            i <= len,
            start + len <= b@.len(),
            v@ == b@.subrange(start as int, start + i),
        decreases len - i,
    {
        v.push(b[start + i]);
        i = i + 1;
        assert(v@ =~= b@.subrange(start as int, start + i));
    }
    v
}

impl Rom {
    /// Decodes the 16-byte header at the start of `input`.
    pub fn load_hdr(input: &[u8]) -> (r: Result<Hdr, RomError>)
        ensures
            r == header_of(input@),
    {
        if input.len() < HEADER_LEN {
            return Err(RomError::Truncated);
        }
        if !(input[0] == 0x4E && input[1] == 0x45 && input[2] == 0x53 && input[3] == 0x1A) {
            return Err(RomError::BadMagic);
        }
        if input[7] & 0x0C == 0x08 {
            return Err(RomError::NotINes1);
        }
        if !(input[10] == 0 && input[11] == 0 && input[12] == 0 && input[13] == 0 && input[14] == 0
            && input[15] == 0) {
            return Err(RomError::NonZeroPadding);
        }
        Ok(
            Hdr {
                prg_rom_size: PRG_UNIT * input[4] as usize,
                chr_rom_size: CHR_UNIT * input[5] as usize,
                prg_ram_size: CHR_UNIT * input[8] as usize,
                flags_6: Flags6 { bits: input[6] & 0x0F },
                tv_format: if input[9] & 1 == 1 {
                    TVFormat::Pal
                } else {
                    TVFormat::Ntsc
                },
                mapper: (input[7] & 0xF0) | (input[6] >> 4u8),
            },
        )
    }

    /// Splits the bytes after the header into trainer, PRG-ROM and CHR-ROM.
    pub fn load_body(hdr: Hdr, input: &[u8]) -> (r: Result<Rom, RomError>)
        ensures
            trainer_len(hdr) + hdr.prg_rom_size + hdr.chr_rom_size > input@.len() ==> r == Err::<Rom, RomError>(RomError::Truncated),
            trainer_len(hdr) + hdr.prg_rom_size + hdr.chr_rom_size <= input@.len() ==> (r matches Ok(rom) && {
                let t = trainer_len(hdr) as int;
                &&& rom.hdr == hdr
                &&& (t == 0 <==> rom.trainer is None)
                &&& (rom.trainer matches Some(v) ==> v@ == input@.subrange(0, t))
                &&& rom.prg_rom@ == input@.subrange(t, t + hdr.prg_rom_size)
                &&& rom.chr_rom@ == input@.subrange(t + hdr.prg_rom_size, t + hdr.prg_rom_size + hdr.chr_rom_size)
            }),
    {
        let t: usize = if hdr.flags_6.contains(TRAINER_EXISTS) {
            TRAINER_LEN
        } else {
            0
        };
        if input.len() < t || input.len() - t < hdr.prg_rom_size || input.len() - t - hdr.prg_rom_size
            < hdr.chr_rom_size {
            return Err(RomError::Truncated);
        }
        let trainer = if t > 0 {
            Some(copy_range(input, 0, t))
        } else {
            None
        };
        let prg_rom = copy_range(input, t, hdr.prg_rom_size);
        let chr_rom = copy_range(input, t + hdr.prg_rom_size, hdr.chr_rom_size);
        Ok(Rom { hdr, trainer, prg_rom, chr_rom })
    }

    /// Decodes a whole image: the header, then the body after it.
    pub fn load_rom(input: &[u8]) -> (r: Result<Rom, RomError>)
        ensures
            header_of(input@) matches Err(e) ==> r == Err::<Rom, RomError>(e),
            header_of(input@) matches Ok(hdr) ==> {
                let body = input@.subrange(HEADER_LEN as int, input@.len() as int);
                let t = trainer_len(hdr) as int;
                &&& t + hdr.prg_rom_size + hdr.chr_rom_size > body.len() ==> r == Err::<Rom, RomError>(RomError::Truncated)
                &&& t + hdr.prg_rom_size + hdr.chr_rom_size <= body.len() ==> (r matches Ok(rom) && {
                    &&& rom.hdr == hdr
                    &&& (t == 0 <==> rom.trainer is None)
                    &&& (rom.trainer matches Some(v) ==> v@ == body.subrange(0, t))
                    &&& rom.prg_rom@ == body.subrange(t, t + hdr.prg_rom_size)
                    &&& rom.chr_rom@ == body.subrange(t + hdr.prg_rom_size, t + hdr.prg_rom_size + hdr.chr_rom_size)
                })
            },
    {
        let hdr = match Rom::load_hdr(input) {
            Ok(h) => h,
            Err(e) => {
                return Err(e);
            },
        };
        let body = copy_range(input, HEADER_LEN, input.len() - HEADER_LEN);
        Rom::load_body(hdr, body.as_slice())
    }
}

} // verus!
