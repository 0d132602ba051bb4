use vstd::prelude::*;

use crate::opcodes::AddressingMode;

verus! {

/// What went wrong.
#[derive(Clone, Copy, Debug, PartialEq, Eq, Structural)]
pub enum ErrorKind {
    /// The fetched byte is not one of the official opcodes.
    UnknownOpcode(u8),
    /// Implied or accumulator addressing was asked for a memory address.
    AddressingModeHasNoAddress(AddressingMode),
    /// The bus refused a read or a write at this address.
    BusError(u16),
    /// The bytes handed to the cartridge loader are not a supported iNES image.
    InvalidRom,
    /// The driver executed as many instructions as its counter can hold without meeting `BRK`.
    StepLimitReached,
}

/// An error of a memory access: the bus refused it, or the mode has no address.
pub open spec fn access_error(kind: ErrorKind) -> bool {
    kind is BusError || kind is AddressingModeHasNoAddress
}

/// The error of every fallible operation of the emulator.
#[derive(Debug)]
pub struct NesError {
    pub kind: ErrorKind,
    pub message: String,
}

impl NesError {
    pub fn new(kind: ErrorKind, message: &str) -> (r: NesError)
        ensures
            r.kind == kind,
            r.message@ == message@,
    {
        NesError { kind, message: message.to_string() }
    }
}

} // verus!
