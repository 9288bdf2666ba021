//! What can go wrong when a program is loaded or runs.
use vstd::prelude::*;

verus! {

/// Why a program could not be loaded.
#[derive(Debug, PartialEq, Eq)]
pub enum LoadProgramError {
    /// The program has no first word, which would give its origin.
    ProgramMissingOrigHeader,
    /// The program has an origin and nothing behind it.
    ProgramEmpty,
    /// The program's length in bytes, given here, is odd: it is not made of
    /// 16-bit words.
    ProgramNotEvenSize(u64),
    /// The program's length in bytes, given here, is more than this machine
    /// can address.
    ProgramDoesNotFitIntoMemory(u64),
    /// The program has more words than the program section holds.
    ProgramTooLong { actual_instructions: usize, maximum_instructions: u16 },
    /// The program's origin is not the start of the program section.
    ProgramLoadedAtWrongAddress { actual_address: u16, expected_address: u16 },
    /// The program could not be read from where it is kept.
    ProgramNotLoadable { file: String, message: String },
}

/// Why a program stopped without halting.
#[derive(Debug, PartialEq, Eq)]
pub enum ExecutionError {
    /// The reserved opcode, given here, was met.
    ReservedInstructionFound(u8),
    /// The console could not be read or written.
    IOInputOutputError(String),
    /// A trap asked for a routine, given here, that does not exist.
    UnknownTrapRoutine(u16),
}

} // verus!
