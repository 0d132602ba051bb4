use vstd::prelude::*;

use crate::cartridge::Cartridge;
use crate::errors::{access_error, ErrorKind, NesError};
use crate::memory::{Mem, RAM};

verus! {

/// Size of the CPU's internal RAM.
pub const CPU_RAM_SIZE: usize = 0x0800;

/// The mathematical state of the bus: internal RAM, PRG ROM, and how the cartridge maps it.
pub struct BusView {
    pub ram: Seq<u8>,
    pub prg: Seq<u8>,
    pub mirror_bank: bool,
}

/// The 16-bit value with low byte `lo` and high byte `hi`.
pub open spec fn word(lo: u8, hi: u8) -> u16 {
    (lo as u16) | ((hi as u16) << 8u16)
}

/// The address that a page-wrapping 16-bit read takes its high byte from: the next address,
/// with the carry out of the low byte dropped.
pub open spec fn page_wrap_next(address: u16) -> u16 {
    (address & 0xff00) | (address.wrapping_add(1) & 0x00ff)
}

impl BusView {
    pub open spec fn wf(self) -> bool {
        &&& self.ram.len() == 0x0800
        &&& self.prg.len() >= if self.mirror_bank {
            0x4000int
        } else {
            0x8000int
        }
    }

    /// The PPU and APU / IO register windows. The bus accepts writes there and leaves its own
    /// state as it is; reads there are refused, as those devices are not part of this core.
    pub open spec fn refused(address: u16) -> bool {
        0x2000 <= address <= 0x401f
    }

    pub open spec fn prg_index(self, address: u16) -> int {
        if self.mirror_bank {
            (address & 0x3fff) as int
        } else {
            (address & 0x7fff) as int
        }
    }

    /// What a read at `address` returns, or `None` where the bus refuses it.
    pub open spec fn read(self, address: u16) -> Option<u8> {
        if address <= 0x1fff {
            Some(self.ram[(address & 0x07ff) as int])
        } else if BusView::refused(address) {
            None
        } else {
            Some(self.prg[self.prg_index(address)])
        }
    }

    /// The state after writing `data` at `address`: RAM through its mirror, the cartridge through
    /// its mapper, and no change for the register windows.
    pub open spec fn write(self, address: u16, data: u8) -> BusView {
        if address <= 0x1fff {
            BusView { ram: self.ram.update((address & 0x07ff) as int, data), ..self }
        } else if BusView::refused(address) {
            self
        } else {
            BusView { prg: self.prg.update(self.prg_index(address), data), ..self }
        }
    }

    /// Little-endian 16-bit read: low byte at `address`, high byte at `address + 1` (wrapping).
    pub open spec fn read_u16(self, address: u16) -> Option<u16> {
        match (self.read(address), self.read(address.wrapping_add(1))) {
            (Some(lo), Some(hi)) => Some(word(lo, hi)),
            _ => None,
        }
    }

    /// Little-endian 16-bit read whose high byte never leaves the page of `address`.
    pub open spec fn read_u16_page_wrap(self, address: u16) -> Option<u16> {
        match (self.read(address), self.read(page_wrap_next(address))) {
            (Some(lo), Some(hi)) => Some(word(lo, hi)),
            _ => None,
        }
    }

    /// The state after writing `data` little-endian at `address` and `address + 1` (wrapping).
    pub open spec fn write_u16(self, address: u16, data: u16) -> BusView {
        self.write(address, (data & 0xff) as u8).write(address.wrapping_add(1), (data >> 8u16) as u8)
    }
}

/// The CPU's address space: 2 KiB of RAM mirrored over `0x0000..=0x1FFF`, the PPU and APU
/// register windows, and the cartridge from `0x4020` up.
pub struct CpuBus {
    cpu_ram: RAM,
    cartridge: Cartridge,
}

impl View for CpuBus {
    type V = BusView;

    closed spec fn view(&self) -> BusView {
        BusView {
            ram: self.cpu_ram@,
            prg: self.cartridge.prg_rom@,
            mirror_bank: match self.cartridge.mapper {
                crate::cartridge::mapper::Mapper::Mapper000 { mirror_bank } => mirror_bank,
            },
        }
    }
}

impl CpuBus {
    pub closed spec fn inv(&self) -> bool {
        self.cartridge.wf()
    }

    pub open spec fn wf(&self) -> bool {
        self.inv() && self@.wf()
    }

    pub fn new(cartridge: Cartridge) -> (r: CpuBus)
        requires
            cartridge.wf(),
        ensures
            r.wf(),
            r@.ram == Seq::new(0x0800, |i: int| 0u8),
            r@.prg == cartridge.prg_rom@,
            r@.mirror_bank == (cartridge.mapper == (
            crate::cartridge::mapper::Mapper::Mapper000 { mirror_bank: true })),
    {
        CpuBus { cpu_ram: RAM::new(CPU_RAM_SIZE), cartridge }
    }

    pub fn mem_read_u16(&self, address: u16) -> (r: Result<u16, NesError>)
        requires
            self.wf(),
        ensures
            match self@.read_u16(address) {
                Some(v) => r is Ok && r->Ok_0 == v,
                None => r is Err && access_error(r->Err_0.kind),
            },
    {
        let lo = self.mem_read(address)?;
        let hi = self.mem_read(address.wrapping_add(1))?;
        Ok((lo as u16) | ((hi as u16) << 8u16))
    }

    /// The 6502's indirect 16-bit read: the high byte comes from the same page as the low byte.
    pub fn mem_read_u16_wrapping_boundary(&self, address: u16) -> (r: Result<u16, NesError>)
        requires
            self.wf(),
        ensures
            match self@.read_u16_page_wrap(address) {
                Some(v) => r is Ok && r->Ok_0 == v,
                None => r is Err && access_error(r->Err_0.kind),
            },
    {
        let lo = self.mem_read(address)?;
        let hi_address = (address & 0xff00) | (address.wrapping_add(1) & 0x00ff);
        let hi = self.mem_read(hi_address)?;
        Ok((lo as u16) | ((hi as u16) << 8u16))
    }

    pub fn mem_write_u16(&mut self, address: u16, data: u16) -> (r: Result<(), NesError>)
        requires
            old(self).wf(),
        ensures
            final(self).wf(),
            (r is Ok),
            final(self)@ == old(self)@.write_u16(address, data),
    {
        let _ = self.mem_write(address, (data & 0xff) as u8);
        let _ = self.mem_write(address.wrapping_add(1), (data >> 8u16) as u8);
        Ok(())
    }
}

impl Mem for CpuBus {
    open spec fn mem_inv(&self) -> bool {
        self.wf()
    }

    open spec fn spec_read(v: BusView, address: u16) -> Option<u8> {
        v.read(address)
    }

    open spec fn spec_write(v: BusView, address: u16, data: u8) -> Option<BusView> {
        Some(v.write(address, data))
    }

    fn mem_write(&mut self, address: u16, data: u8) -> (r: Result<(), NesError>) {
        if address <= 0x1fff {
            proof {
                assert(address & 0x07ff < 0x0800) by (bit_vector);
            }
            let _ = self.cpu_ram.mem_write(address & 0x07ff, data);
            Ok(())
        } else if address <= 0x401f {
            Ok(())
        } else {
            self.cartridge.cpu_write(address, data);
            Ok(())
        }
    }

    fn mem_read(&self, address: u16) -> (r: Result<u8, NesError>) {
        if address <= 0x1fff {
            proof {
                assert(address & 0x07ff < 0x0800) by (bit_vector);
            }
            self.cpu_ram.mem_read(address & 0x07ff)
        } else if address <= 0x401f {
            Err(NesError::new(ErrorKind::BusError(address), "the bus does not serve this address"))
        } else {
            Ok(self.cartridge.cpu_read(address))
        }
    }
}

/// Every address of `0x0000..=0x1FFF` reads the same byte as its image in the first 2 KiB.
pub proof fn lemma_ram_mirroring(b: BusView, a: u16)
    requires
        a <= 0x1fff,
    ensures
        b.read(a) == b.read(a & 0x07ff),
{
    assert(a <= 0x1fff ==> (a & 0x07ff) <= 0x1fff && ((a & 0x07ff) & 0x07ff) == (a & 0x07ff))
        by (bit_vector);
}

/// Where the low byte of `a` is `0xFF`, the page-wrapping read takes its high byte from the start
/// of the same page, not from `a + 1`.
pub proof fn lemma_page_wrap_high_byte(b: BusView, a: u16)
    requires
        a & 0x00ff == 0x00ff,
    ensures
        page_wrap_next(a) == a & 0xff00,
        b.read_u16_page_wrap(a) == match (b.read(a), b.read(a & 0xff00)) {
            (Some(lo), Some(hi)) => Some(word(lo, hi)),
            _ => None,
        },
{
    assert(a & 0x00ff == 0x00ff ==> (a & 0xff00) | ((a.wrapping_add(1)) & 0x00ff) == a & 0xff00)
        by (bit_vector);
}

} // verus!
