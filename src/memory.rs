use vstd::prelude::*;

use crate::errors::{ErrorKind, NesError};

verus! {

/// Byte-addressed memory. Each implementation says, over its view, what a read returns and what
/// a write leaves; an access that it refuses is a `BusError` at that address.
pub trait Mem: View + Sized {
    /// The memory is in a usable state.
    spec fn mem_inv(&self) -> bool;

    /// What a read at `address` returns from the state `v`, or `None` where it is refused.
    spec fn spec_read(v: Self::V, address: u16) -> Option<u8>;

    /// The state after writing `data` at `address` in the state `v`, or `None` where the write
    /// is refused.
    spec fn spec_write(v: Self::V, address: u16, data: u8) -> Option<Self::V>;

    fn mem_write(&mut self, address: u16, data: u8) -> (r: Result<(), NesError>)
        requires
            old(self).mem_inv(),
        ensures
            final(self).mem_inv(),
            match Self::spec_write(old(self)@, address, data) {
                Some(v) => r is Ok && final(self)@ == v,
                None => r is Err && r->Err_0.kind == ErrorKind::BusError(address) && final(self)@
                    == old(self)@,
            },
    ;

    fn mem_read(&self, address: u16) -> (r: Result<u8, NesError>)
        requires
            self.mem_inv(),
        ensures
            match Self::spec_read(self@, address) {
                Some(v) => r is Ok && r->Ok_0 == v,
                None => r is Err && r->Err_0.kind == ErrorKind::BusError(address),
            },
    ;
}

/// A block of byte-addressed memory of fixed size.
pub struct RAM {
    storage: Vec<u8>,
}

impl View for RAM {
    type V = Seq<u8>;

    closed spec fn view(&self) -> Seq<u8> {
        self.storage@
    }
}

impl RAM {
    /// `size` bytes, all zero.
    pub fn new(size: usize) -> (r: RAM)
        ensures
            r@ == Seq::new(size as nat, |i: int| 0u8),
    {
        let storage = vec![0u8; size];
        proof {
            assert(storage@ =~= Seq::new(size as nat, |i: int| 0u8));
        }
        RAM { storage }
    }

    pub fn len(&self) -> (r: usize)
        ensures
            r == self@.len(),
    {
        self.storage.len()
    }
}

impl Mem for RAM {
    open spec fn mem_inv(&self) -> bool {
        true
    }

    open spec fn spec_read(v: Seq<u8>, address: u16) -> Option<u8> {
        if (address as int) < v.len() {
            Some(v[address as int])
        } else {
            None
        }
    }

    open spec fn spec_write(v: Seq<u8>, address: u16, data: u8) -> Option<Seq<u8>> {
        if (address as int) < v.len() {
            Some(v.update(address as int, data))
        } else {
            None
        }
    }

    fn mem_write(&mut self, address: u16, data: u8) -> (r: Result<(), NesError>) {
        if (address as usize) < self.storage.len() {
            self.storage.set(address as usize, data);
            Ok(())
        } else {
            Err(NesError::new(ErrorKind::BusError(address), "address outside this memory"))
        }
    }

    fn mem_read(&self, address: u16) -> (r: Result<u8, NesError>) {
        if (address as usize) < self.storage.len() {
            Ok(self.storage[address as usize])
        } else {
            Err(NesError::new(ErrorKind::BusError(address), "address outside this memory"))
        }
    }
}

} // verus!
