use vstd::prelude::*;

verus! {

/// One bit of the processor status register.
#[derive(Clone, Copy, Debug, PartialEq, Eq, Structural)]
pub enum Flag {
    Negative,
    Overflow,
    Ignored,
    Break,
    Decimal,
    Interrupt,
    Zero,
    Carry,
}

/// The processor status register `P`, one boolean per flag.
/// Packed as `NVUBDIZC`, most significant bit first.
#[derive(Clone, Copy, Debug, PartialEq, Eq, Structural)]
pub struct Status {
    pub negative: bool,
    pub overflow: bool,
    pub ignored: bool,
    pub break_flag: bool,
    pub decimal: bool,
    pub interrupt: bool,
    pub zero: bool,
    pub carry: bool,
}

/// `mask` when `b` holds, else 0.
pub open spec fn bit(b: bool, mask: u8) -> u8 {
    if b {
        mask
    } else {
        0
    }
}

impl Status {
    /// The power-on and reset state: `I` and `U` set, every other flag clear.
    pub open spec fn initial() -> Status {
        Status {
            negative: false,
            overflow: false,
            ignored: true,
            break_flag: false,
            decimal: false,
            interrupt: true,
            zero: false,
            carry: false,
        }
    }

    pub open spec fn flag(self, f: Flag) -> bool {
        match f {
            Flag::Negative => self.negative,
            Flag::Overflow => self.overflow,
            Flag::Ignored => self.ignored,
            Flag::Break => self.break_flag,
            Flag::Decimal => self.decimal,
            Flag::Interrupt => self.interrupt,
            Flag::Zero => self.zero,
            Flag::Carry => self.carry,
        }
    }

    pub open spec fn with_flag(self, f: Flag, v: bool) -> Status {
        match f {
            Flag::Negative => Status { negative: v, ..self },
            Flag::Overflow => Status { overflow: v, ..self },
            Flag::Ignored => Status { ignored: v, ..self },
            Flag::Break => Status { break_flag: v, ..self },
            Flag::Decimal => Status { decimal: v, ..self },
            Flag::Interrupt => Status { interrupt: v, ..self },
            Flag::Zero => Status { zero: v, ..self },
            Flag::Carry => Status { carry: v, ..self },
        }
    }

    /// `Z` and `N` derived from a result byte.
    pub open spec fn with_zn(self, v: u8) -> Status {
        Status { zero: v == 0, negative: v & 0x80 != 0, ..self }
    }

    /// The packed byte `NVUBDIZC`.
    pub open spec fn to_byte(self) -> u8 {
        bit(self.negative, 0x80) | bit(self.overflow, 0x40) | bit(self.ignored, 0x20) | bit(
            self.break_flag,
            0x10,
        ) | bit(self.decimal, 0x08) | bit(self.interrupt, 0x04) | bit(self.zero, 0x02) | bit(
            self.carry,
            0x01,
        )
    }

    /// The flags that a packed byte holds.
    pub open spec fn from_byte(b: u8) -> Status {
        Status {
            negative: b & 0x80 != 0,
            overflow: b & 0x40 != 0,
            ignored: b & 0x20 != 0,
            break_flag: b & 0x10 != 0,
            decimal: b & 0x08 != 0,
            interrupt: b & 0x04 != 0,
            zero: b & 0x02 != 0,
            carry: b & 0x01 != 0,
        }
    }

    pub fn new() -> (r: Status)
        ensures
            r == Status::initial(),
    {
        Status {
            negative: false,
            overflow: false,
            ignored: true,
            break_flag: false,
            decimal: false,
            interrupt: true,
            zero: false,
            carry: false,
        }
    }

    pub fn reset(&mut self)
        ensures
            *final(self) == Status::initial(),
    {
        self.negative = false;
        self.overflow = false;
        self.ignored = true;
        self.break_flag = false;
        self.decimal = false;
        self.interrupt = true;
        self.zero = false;
        self.carry = false;
    }

    pub fn set_flag(&mut self, flag: Flag, value: bool)
        ensures
            *final(self) == old(self).with_flag(flag, value),
    {
        match flag {
            Flag::Negative => {
                self.negative = value;
            },
            Flag::Overflow => {
                self.overflow = value;
            },
            Flag::Ignored => {
                self.ignored = value;
            },
            Flag::Break => {
                self.break_flag = value;
            },
            Flag::Decimal => {
                self.decimal = value;
            },
            Flag::Interrupt => {
                self.interrupt = value;
            },
            Flag::Zero => {
                self.zero = value;
            },
            Flag::Carry => {
                self.carry = value;
            },
        };
    }

    /// Sets `N` from bit 7 of `value`.
    pub fn set_negative_flag(&mut self, value: u8)
        ensures
            *final(self) == (Status { negative: value & 0x80 != 0, ..*old(self) }),
    {
        self.set_flag(Flag::Negative, (value & 0x80) != 0);
    }

    /// Sets `Z` when `value` is zero, clears it otherwise.
    pub fn set_zero_flag(&mut self, value: u8)
        ensures
            *final(self) == (Status { zero: value == 0, ..*old(self) }),
    {
        self.set_flag(Flag::Zero, value == 0);
    }

    /// Sets `Z` and `N` from `value`.
    pub fn set_zn_flags(&mut self, value: u8)
        ensures
            *final(self) == old(self).with_zn(value),
    {
        self.set_zero_flag(value);
        self.set_negative_flag(value);
    }

    /// `value - 1` (wrapping), with `Z` and `N` set from the result.
    pub fn set_decrement_flags(&mut self, value: u8) -> (r: u8)
        ensures
            r == (value as int - 1) % 256,
            *final(self) == old(self).with_zn(r),
    {
        let result = value.wrapping_sub(1);
        self.set_zn_flags(result);
        result
    }

    /// `value + 1` (wrapping), with `Z` and `N` set from the result.
    pub fn set_increment_flags(&mut self, value: u8) -> (r: u8)
        ensures
            r == (value as int + 1) % 256,
            *final(self) == old(self).with_zn(r),
    {
        let result = value.wrapping_add(1);
        self.set_zn_flags(result);
        result
    }

    pub fn read_flag(&self, flag: Flag) -> (r: bool)
        ensures
            r == self.flag(flag),
    {
        match flag {
            Flag::Negative => self.negative,
            Flag::Overflow => self.overflow,
            Flag::Ignored => self.ignored,
            Flag::Break => self.break_flag,
            Flag::Decimal => self.decimal,
            Flag::Interrupt => self.interrupt,
            Flag::Zero => self.zero,
            Flag::Carry => self.carry,
        }
    }

    /// Packs the flags into one byte, `NVUBDIZC` from bit 7 down to bit 0.
    pub fn get_status_byte(&self) -> (r: u8)
        ensures
            r == self.to_byte(),
    {
        let negative: u8 = if self.negative { 0x80 } else { 0 };
        let overflow: u8 = if self.overflow { 0x40 } else { 0 };
        let ignored: u8 = if self.ignored { 0x20 } else { 0 };
        let break_flag: u8 = if self.break_flag { 0x10 } else { 0 };
        let decimal: u8 = if self.decimal { 0x08 } else { 0 };
        let interrupt: u8 = if self.interrupt { 0x04 } else { 0 };
        let zero: u8 = if self.zero { 0x02 } else { 0 };
        let carry: u8 = if self.carry { 0x01 } else { 0 };
        negative | overflow | ignored | break_flag | decimal | interrupt | zero | carry
    }

    /// Sets every flag from the matching bit of `value`, `U` and `B` included.
    pub fn set_from_byte(&mut self, value: u8)
        ensures
            *final(self) == Status::from_byte(value),
    {
        self.negative = (value & 0x80) != 0;
        self.overflow = (value & 0x40) != 0;
        self.ignored = (value & 0x20) != 0;
        self.break_flag = (value & 0x10) != 0;
        self.decimal = (value & 0x08) != 0;
        self.interrupt = (value & 0x04) != 0;
        self.zero = (value & 0x02) != 0;
        self.carry = (value & 0x01) != 0;
    }
}

/// Unpacking a packed status gives back the same flags, for every combination of flags.
pub proof fn lemma_unpack_pack(s: Status)
    ensures
        Status::from_byte(s.to_byte()) == s,
{
    let (n, v, u, b, d, i, z, c) = (
        bit(s.negative, 0x80),
        bit(s.overflow, 0x40),
        bit(s.ignored, 0x20),
        bit(s.break_flag, 0x10),
        bit(s.decimal, 0x08),
        bit(s.interrupt, 0x04),
        bit(s.zero, 0x02),
        bit(s.carry, 0x01),
    );
    let p = s.to_byte();
    assert(p == n | v | u | b | d | i | z | c);
    assert((n == 0 || n == 0x80) && (v == 0 || v == 0x40) && (u == 0 || u == 0x20) && (b == 0
        || b == 0x10) && (d == 0 || d == 8) && (i == 0 || i == 4) && (z == 0 || z == 2) && (c == 0
        || c == 1) ==> ((p & 0x80 != 0) == (n != 0) && (p & 0x40 != 0) == (v != 0) && (p & 0x20
        != 0) == (u != 0) && (p & 0x10 != 0) == (b != 0) && (p & 0x08 != 0) == (d != 0) && (p
        & 0x04 != 0) == (i != 0) && (p & 0x02 != 0) == (z != 0) && (p & 0x01 != 0) == (c != 0)))
        by (bit_vector)
        requires
            p == n | v | u | b | d | i | z | c,
    ;
}

/// Packing the flags that a byte holds gives back that byte.
pub proof fn lemma_pack_unpack(b: u8)
    ensures
        Status::from_byte(b).to_byte() == b,
{
    let (n, v, u, r, d, i, z, c) = (
        b & 0x80 != 0,
        b & 0x40 != 0,
        b & 0x20 != 0,
        b & 0x10 != 0,
        b & 0x08 != 0,
        b & 0x04 != 0,
        b & 0x02 != 0,
        b & 0x01 != 0,
    );
    let p = bit(n, 0x80) | bit(v, 0x40) | bit(u, 0x20) | bit(r, 0x10) | bit(d, 0x08) | bit(i, 0x04)
        | bit(z, 0x02) | bit(c, 0x01);
    assert(p == b) by (bit_vector)
        requires
            n == (b & 0x80 != 0),
            v == (b & 0x40 != 0),
            u == (b & 0x20 != 0),
            r == (b & 0x10 != 0),
            d == (b & 0x08 != 0),
            i == (b & 0x04 != 0),
            z == (b & 0x02 != 0),
            c == (b & 0x01 != 0),
            p == (if n { 0x80u8 } else { 0u8 }) | (if v { 0x40u8 } else { 0u8 }) | (if u {
                0x20u8
            } else {
                0u8
            }) | (if r { 0x10u8 } else { 0u8 }) | (if d { 0x08u8 } else { 0u8 }) | (if i {
                0x04u8
            } else {
                0u8
            }) | (if z { 0x02u8 } else { 0u8 }) | (if c { 0x01u8 } else { 0u8 }),
    ;
}

/// After a result byte is recorded, `Z` says whether it is zero and `N` equals its bit 7.
pub proof fn lemma_zero_negative_law(s: Status, v: u8)
    ensures
        s.with_zn(v).zero == (v == 0),
        s.with_zn(v).negative == (v >> 7 == 1),
{
    assert((v & 0x80 != 0) == (v >> 7 == 1)) by (bit_vector);
}

} // verus!
