use vstd::prelude::*;

verus! {

/// How a cartridge maps CPU and PPU addresses onto its ROM banks.
#[derive(Clone, Copy, Debug, PartialEq, Eq, Structural)]
pub enum Mapper {
    /// NROM: 16 KiB of PRG ROM mirrored across the window, or 32 KiB unmirrored.
    Mapper000 { mirror_bank: bool },
}

impl Mapper {
    /// The index into PRG ROM that a CPU address selects.
    pub open spec fn spec_pgr_address(self, address: u16) -> u16 {
        match self {
            Mapper::Mapper000 { mirror_bank } => {
                if mirror_bank {
                    address & 0x3fff
                } else {
                    address & 0x7fff
                }
            },
        }
    }

    /// The least PRG ROM size that every CPU address stays inside.
    pub open spec fn prg_span(self) -> nat {
        match self {
            Mapper::Mapper000 { mirror_bank } => if mirror_bank {
                0x4000
            } else {
                0x8000
            },
        }
    }

    pub fn get_pgr_address(&self, address: u16) -> (r: u16)
        ensures
            r == self.spec_pgr_address(address),
            (r as nat) < self.prg_span(),
    {
        match self {
            Mapper::Mapper000 { mirror_bank } => {
                if *mirror_bank {
                    proof {
                        assert(address & 0x3fff < 0x4000) by (bit_vector);
                    }
                    address & 0x3fff
                } else {
                    proof {
                        assert(address & 0x7fff < 0x8000) by (bit_vector);
                    }
                    address & 0x7fff
                }
            },
        }
    }

    /// The index into CHR ROM that a PPU address selects.
    pub fn get_chr_address(&self, address: u16) -> (r: u16)
        ensures
            r == address,
    {
        match self {
            Mapper::Mapper000 { .. } => address,
        }
    }
}

} // verus!
