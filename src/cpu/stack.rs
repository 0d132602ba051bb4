use vstd::prelude::*;

use crate::bus::{word, BusView};
use crate::cpu::semantics::{stack_slot, CpuState};
use crate::cpu::CPU;
use crate::memory::Mem;

verus! {

/// A stack slot lies in page one, inside RAM, and is its own RAM mirror image.
pub proof fn lemma_stack_slot(b: BusView, sp: u8, v: u8)
    ensures
        0x0100 <= stack_slot(sp) <= 0x01ff,
        b.read(stack_slot(sp)) == Some(b.ram[stack_slot(sp) as int]),
        b.write(stack_slot(sp), v) == b.stack_write(sp, v),
{
    let a = stack_slot(sp);
    assert(0x0100 <= a <= 0x01ff ==> a & 0x07ff == a) by (bit_vector);
}

impl CPU {
    /// The address of the next free stack slot, `0x0100 | SP`.
    pub fn get_stack_address(&self) -> (r: u16)
        ensures
            r == stack_slot(self.stack_pointer),
            0x0100 <= r <= 0x01ff,
    {
        let sp = self.stack_pointer;
        assert(0x0100u16 | (sp as u16) == (0x0100 + sp) as u16) by (bit_vector);
        0x0100u16 | (sp as u16)
    }

    /// Stores `data` in the free slot and moves the stack pointer down, wrapping in page one.
    pub fn push_to_stack(&mut self, data: u8)
        requires
            old(self).wf(),
        ensures
            final(self).wf(),
            final(self)@ == old(self)@.push(data),
    {
        let address = self.get_stack_address();
        proof {
            lemma_stack_slot(self.bus@, self.stack_pointer, data);
        }
        let _ = self.bus.mem_write(address, data);
        self.stack_pointer = self.stack_pointer.wrapping_sub(1);
    }

    /// Pushes the high byte, then the low byte.
    pub fn push_to_stack_u16(&mut self, data: u16)
        requires
            old(self).wf(),
        ensures
            final(self).wf(),
            final(self)@ == old(self)@.push_u16(data),
    {
        self.push_to_stack((data >> 8u16) as u8);
        self.push_to_stack((data & 0xff) as u8);
    }

    /// Moves the stack pointer up, wrapping in page one, and returns the byte in that slot.
    pub fn pull_from_stack(&mut self) -> (r: u8)
        requires
            old(self).wf(),
        ensures
            final(self).wf(),
            r == old(self)@.top(),
            final(self)@ == old(self)@.pop(),
    {
        self.stack_pointer = self.stack_pointer.wrapping_add(1);
        let address = self.get_stack_address();
        proof {
            lemma_stack_slot(self.bus@, self.stack_pointer, 0);
        }
        match self.bus.mem_read(address) {
            Ok(v) => v,
            Err(_) => 0,
        }
    }

    /// Pulls the low byte, then the high byte.
    pub fn pull_from_stack_u16(&mut self) -> (r: u16)
        requires
            old(self).wf(),
        ensures
            final(self).wf(),
            r == old(self)@.top_u16(),
            final(self)@ == old(self)@.pop_u16(),
    {
        let lo = self.pull_from_stack();
        let hi = self.pull_from_stack();
        (lo as u16) | ((hi as u16) << 8u16)
    }
}

/// A pull returns the byte just pushed and restores the stack pointer.
pub proof fn lemma_push_pull(s: CpuState, v: u8)
    requires
        s.wf(),
    ensures
        s.push(v).top() == v,
        s.push(v).pop().sp == s.sp,
        s.push(v).pop().bus.ram.len() == s.bus.ram.len(),
{
    lemma_stack_slot(s.bus, s.sp, v);
    assert(s.sp.wrapping_sub(1).wrapping_add(1) == s.sp);
}

/// A 16-bit pull returns the 16-bit value just pushed and restores the stack pointer.
pub proof fn lemma_push_pull_u16(s: CpuState, v: u16)
    requires
        s.wf(),
    ensures
        s.push_u16(v).top_u16() == v,
        s.push_u16(v).pop_u16().sp == s.sp,
{
    let hi = (v >> 8u16) as u8;
    let lo = (v & 0xff) as u16 as u8;
    let t = s.push(hi);
    lemma_stack_slot(s.bus, s.sp, hi);
    lemma_stack_slot(t.bus, t.sp, lo);
    let u = t.push(lo);
    assert(u.sp.wrapping_add(1) == t.sp);
    assert(u.sp.wrapping_add(1).wrapping_add(1) == s.sp);
    assert(u.top() == lo);
    assert(stack_slot(t.sp) != stack_slot(s.sp)) by {
        assert(t.sp != s.sp);
    }
    assert(u.pop().top() == hi);
    assert(word(lo, hi) == v) by (bit_vector)
        requires
            lo == (v & 0xff) as u16 as u8,
            hi == (v >> 8u16) as u8,
    ;
}

} // verus!
