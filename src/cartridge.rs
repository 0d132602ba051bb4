use vstd::prelude::*;

use crate::cartridge::mapper::Mapper;
use crate::errors::{ErrorKind, NesError};

pub mod mapper;

verus! {

pub const PRG_ROM_PAGE_SIZE: usize = 16384;

pub const CHR_ROM_PAGE_SIZE: usize = 8192;

/// How the PPU's name tables are mirrored.
#[derive(Clone, Copy, Debug, PartialEq, Eq, Structural)]
pub enum Mirroring {
    Vertical,
    Horizontal,
    FourScreen,
}

/// A loaded iNES cartridge: its ROM banks and how they are mapped.
pub struct Cartridge {
    pub prg_rom: Vec<u8>,
    pub chr_rom: Vec<u8>,
    pub mapper_type: u8,
    pub mapper: Mapper,
    pub mirroring_type: Mirroring,
}

/// The iNES header revision, from bits 2-3 of byte 7: 0 is iNES 1, 2 is NES 2.0.
pub open spec fn ines_version_supported(raw: Seq<u8>) -> bool {
    (raw[7] >> 2) & 3 == 0 || (raw[7] >> 2) & 3 == 2
}

/// Where PRG ROM starts: after the 16-byte header and the 512-byte trainer, if there is one.
pub open spec fn prg_start(raw: Seq<u8>) -> int {
    16 + if raw[6] & 4 != 0 {
        512int
    } else {
        0int
    }
}

pub open spec fn prg_size(raw: Seq<u8>) -> int {
    raw[4] * 16384
}

pub open spec fn chr_size(raw: Seq<u8>) -> int {
    raw[5] * 8192
}

/// The bytes form an image that this loader accepts: a whole header, a known revision, at least
/// one PRG bank, and every bank that the header announces.
pub open spec fn ines_loadable(raw: Seq<u8>) -> bool {
    &&& raw.len() >= 16
    &&& ines_version_supported(raw)
    &&& raw[4] > 0
    &&& prg_start(raw) + prg_size(raw) + chr_size(raw) <= raw.len()
}

pub open spec fn spec_mirroring(raw: Seq<u8>) -> Mirroring {
    if raw[6] & 8 != 0 {
        Mirroring::FourScreen
    } else if raw[6] & 1 != 0 {
        Mirroring::Vertical
    } else {
        Mirroring::Horizontal
    }
}

/// Copies `raw[start..start + len]`.
fn copy_range(raw: &Vec<u8>, start: usize, len: usize) -> (r: Vec<u8>)
    requires
        start + len <= raw@.len(),
    ensures
        r@ == raw@.subrange(start as int, start + len),
{
    let mut out: Vec<u8> = Vec::new();
    let n = raw.len();
    let mut i: usize = 0;
    while i < len
        invariant
            i <= len,
            n == raw@.len(),
            start + len <= raw@.len(),
            out@ == raw@.subrange(start as int, start + i),
        decreases len - i,
    {
        out.push(raw[start + i]);
        i = i + 1;
        proof {
            assert(out@ =~= raw@.subrange(start as int, start + i));
        }
    }
    out
}

impl Cartridge {
    pub open spec fn wf(&self) -> bool {
        self.prg_rom@.len() >= self.mapper.prg_span()
    }

    /// Loads an iNES image. Only NROM banking is modelled: whatever mapper number the header
    /// names is kept in `mapper_type`, and PRG ROM is addressed as NROM addresses it.
    pub fn new(raw: &Vec<u8>) -> (r: Result<Cartridge, NesError>)
        ensures
            r is Ok <==> ines_loadable(raw@),
            r is Err ==> r->Err_0.kind == ErrorKind::InvalidRom,
            r is Ok ==> ({
                let c = r->Ok_0;
                &&& c.wf()
                &&& c.prg_rom@ == raw@.subrange(prg_start(raw@), prg_start(raw@) + prg_size(raw@))
                &&& c.chr_rom@ == raw@.subrange(
                    prg_start(raw@) + prg_size(raw@),
                    prg_start(raw@) + prg_size(raw@) + chr_size(raw@),
                )
                &&& c.mapper_type == (raw@[7] & 0xf0) | (raw@[6] >> 4)
                &&& c.mapper == Mapper::Mapper000 { mirror_bank: raw@[4] == 1 }
                &&& c.mirroring_type == spec_mirroring(raw@)
            }),
    {
        if raw.len() < 16 {
            return Err(NesError::new(ErrorKind::InvalidRom, "iNES header is incomplete"));
        }
        let control_byte_6 = raw[6];
        let control_byte_7 = raw[7];
        let mapper_type = (control_byte_7 & 0xf0) | (control_byte_6 >> 4);
        let ines_byte = (control_byte_7 >> 2) & 3;
        if ines_byte != 0 && ines_byte != 2 {
            return Err(NesError::new(ErrorKind::InvalidRom, "unsupported iNES version"));
        }
        let screen_mirroring = if (control_byte_6 & 8) != 0 {
            Mirroring::FourScreen
        } else if (control_byte_6 & 1) != 0 {
            Mirroring::Vertical
        } else {
            Mirroring::Horizontal
        };
        let prg_rom_pages = raw[4] as usize;
        let chr_rom_pages = raw[5] as usize;
        if prg_rom_pages == 0 {
            return Err(NesError::new(ErrorKind::InvalidRom, "no PRG ROM bank"));
        }
        let prg_rom_size = prg_rom_pages * PRG_ROM_PAGE_SIZE;
        let chr_rom_size = chr_rom_pages * CHR_ROM_PAGE_SIZE;
        let prg_rom_start: usize = if (control_byte_6 & 4) != 0 { 16 + 512 } else { 16 };
        let chr_rom_start = prg_rom_start + prg_rom_size;
        if raw.len() < chr_rom_start + chr_rom_size {
            return Err(NesError::new(ErrorKind::InvalidRom, "image is shorter than its header says"));
        }
        let prg_rom = copy_range(raw, prg_rom_start, prg_rom_size);
        let chr_rom = copy_range(raw, chr_rom_start, chr_rom_size);
        Ok(Cartridge {
            prg_rom,
            chr_rom,
            mapper_type,
            mapper: Mapper::Mapper000 { mirror_bank: prg_rom_pages == 1 },
            mirroring_type: screen_mirroring,
        })
    }

    pub fn cpu_write(&mut self, address: u16, data: u8)
        requires
            old(self).wf(),
        ensures
            final(self).wf(),
            final(self).prg_rom@ == old(self).prg_rom@.update(
                old(self).mapper.spec_pgr_address(address) as int,
                data,
            ),
            final(self).chr_rom@ == old(self).chr_rom@,
            final(self).mapper == old(self).mapper,
            final(self).mapper_type == old(self).mapper_type,
            final(self).mirroring_type == old(self).mirroring_type,
    {
        let mapper_address = self.mapper.get_pgr_address(address);
        self.prg_rom.set(mapper_address as usize, data);
    }

    pub fn cpu_read(&self, address: u16) -> (r: u8)
        requires
            self.wf(),
        ensures
            r == self.prg_rom@[self.mapper.spec_pgr_address(address) as int],
    {
        let mapper_address = self.mapper.get_pgr_address(address);
        self.prg_rom[mapper_address as usize]
    }

    pub fn ppu_write(&mut self, address: u16, data: u8)
        requires
            (address as int) < old(self).chr_rom@.len(),
        ensures
            final(self).chr_rom@ == old(self).chr_rom@.update(address as int, data),
            final(self).prg_rom@ == old(self).prg_rom@,
            final(self).mapper == old(self).mapper,
            final(self).mapper_type == old(self).mapper_type,
            final(self).mirroring_type == old(self).mirroring_type,
    {
        let mapper_address = self.mapper.get_chr_address(address);
        self.chr_rom.set(mapper_address as usize, data);
    }

    pub fn ppu_read(&self, address: u16) -> (r: u8)
        requires
            (address as int) < self.chr_rom@.len(),
        ensures
            r == self.chr_rom@[address as int],
    {
        let mapper_address = self.mapper.get_chr_address(address);
        self.chr_rom[mapper_address as usize]
    }
}

} // verus!
