//! The memory map, the loaded program and the keyboard's two registers.
use crate::errors::LoadProgramError;
use std::collections::VecDeque;
use vstd::prelude::*;

verus! {

/// The first address of the program section.
pub const PROGRAM_SECTION_START: u16 = 0x3000;

/// The last address of the program section.
pub const PROGRAM_SECTION_END: u16 = 0xFDFF;

/// The number of words that the program section holds.
pub const PROGRAM_SECTION_MAX_INSTRUCTION_COUNT: u16 = PROGRAM_SECTION_END - PROGRAM_SECTION_START
    + 1;

/// The number of words that are kept: one for each address up to the end of
/// the program section.
pub const MEMORY_SIZE: u16 = PROGRAM_SECTION_START + PROGRAM_SECTION_MAX_INSTRUCTION_COUNT;

/// What the keyboard status register reads while a key waits to be read.
pub const KEYBOARD_STATUS_REGISTER_SET: u16 = 0x8000;

/// What the keyboard status register reads while no key waits.
pub const KEYBOARD_STATUS_REGISTER_UNSET: u16 = 0;

/// The address of the keyboard status register.
pub const KEYBOARD_STATUS_REGISTER: u16 = 0xFE00;

/// The address of the keyboard data register.
pub const KEYBOARD_DATA_REGISTER: u16 = 0xFE02;

/// The addresses at which a read reaches a device in place of a memory cell.
#[derive(Debug, Clone, Copy, PartialEq, Eq)]
pub enum MemoryMappedIOLocations {
    /// The keyboard status register: its top bit says whether a key waits.
    Kbsr,
    /// The keyboard data register: its low byte is the key that waits.
    Kbdr,
}

impl MemoryMappedIOLocations {
    /// The device register at `address`, if there is one.
    pub open spec fn at(address: u16) -> Option<Self> {
        if address == KEYBOARD_STATUS_REGISTER {
            Some(MemoryMappedIOLocations::Kbsr)
        } else if address == KEYBOARD_DATA_REGISTER {
            Some(MemoryMappedIOLocations::Kbdr)
        } else {
            None
        }
    }

    /// The device register at `address`, if there is one.
    pub fn n(address: u16) -> (location: Option<Self>)
        ensures
            location == Self::at(address),
    {
        if address == KEYBOARD_STATUS_REGISTER {
            Some(MemoryMappedIOLocations::Kbsr)
        } else if address == KEYBOARD_DATA_REGISTER {
            Some(MemoryMappedIOLocations::Kbdr)
        } else {
            None
        }
    }

    /// The address of this device register.
    pub fn address(self) -> (address: u16)
        ensures
            Self::at(address) == Some(self),
    {
        match self {
            MemoryMappedIOLocations::Kbsr => KEYBOARD_STATUS_REGISTER,
            MemoryMappedIOLocations::Kbdr => KEYBOARD_DATA_REGISTER,
        }
    }
}

/// What a memory holds.
pub struct MemoryView {
    /// The memory cells by address, from address 0 to the end of the program
    /// section.
    pub cells: Seq<u16>,
    /// The number of words of the program that was loaded.
    pub instruction_count: u16,
    /// The key in the keyboard data register, while it has not been read.
    pub buffered: Option<u8>,
    /// The keys that have arrived and have not reached the data register,
    /// oldest first.
    pub incoming: Seq<u8>,
}

impl MemoryView {
    /// Every address up to the end of the program section has a cell, and the
    /// program fits into the program section.
    pub open spec fn wf(self) -> bool {
        &&& self.cells.len() == MEMORY_SIZE
        &&& self.instruction_count <= PROGRAM_SECTION_MAX_INSTRUCTION_COUNT
    }

    /// The first address behind the program.
    pub open spec fn program_end(self) -> u16 {
        (PROGRAM_SECTION_START + self.instruction_count) as u16
    }

    /// Whether `index` is the address of a word of the program.
    pub open spec fn in_program(self, index: u16) -> bool {
        PROGRAM_SECTION_START <= index < self.program_end()
    }

    /// The words of the program.
    pub open spec fn program(self) -> Seq<u16> {
        self.cells.subrange(PROGRAM_SECTION_START as int, self.program_end() as int)
    }

    /// The same memory with `program` at the start of the program section.
    /// What the section held behind it stays.
    pub open spec fn with_program(self, program: Seq<u16>) -> Self {
        MemoryView {
            cells: Seq::new(
                self.cells.len(),
                |a: int|
                    if PROGRAM_SECTION_START <= a < PROGRAM_SECTION_START + program.len() {
                        program[a - PROGRAM_SECTION_START]
                    } else {
                        self.cells[a]
                    },
            ),
            instruction_count: program.len() as u16,
            ..self
        }
    }

    /// Whether a key waits in the data register or can be taken from the keys
    /// that arrived.
    pub open spec fn key_available(self) -> bool {
        self.buffered is Some || self.incoming.len() > 0
    }

    /// The keys that wait to be read, in the order in which they will be
    /// read: the one in the data register, then those that have arrived.
    pub open spec fn waiting_keys(self) -> Seq<u8> {
        match self.buffered {
            Some(key) => seq![key] + self.incoming,
            None => self.incoming,
        }
    }

    /// The keyboard after the status register was read: where the data
    /// register was empty, the oldest key that arrived has moved into it.
    pub open spec fn polled(self) -> Self {
        if self.buffered is None && self.incoming.len() > 0 {
            MemoryView {
                buffered: Some(self.incoming[0]),
                incoming: self.incoming.subrange(1, self.incoming.len() as int),
                ..self
            }
        } else {
            self
        }
    }

    /// Whether `index` can be read: it is the address of a word of the
    /// program, the keyboard status register, or the keyboard data register
    /// while it holds a key.
    pub open spec fn can_read(self, index: u16) -> bool {
        match MemoryMappedIOLocations::at(index) {
            Some(MemoryMappedIOLocations::Kbsr) => true,
            Some(MemoryMappedIOLocations::Kbdr) => self.buffered is Some,
            None => self.in_program(index),
        }
    }

    /// Whether `index` can be written: it is the address of a word of the
    /// program. The keyboard's registers cannot be written.
    pub open spec fn can_write(self, index: u16) -> bool {
        self.in_program(index)
    }

    /// What a read of `index` returns.
    pub open spec fn read_value(self, index: u16) -> u16 {
        match MemoryMappedIOLocations::at(index) {
            Some(MemoryMappedIOLocations::Kbsr) => if self.key_available() {
                KEYBOARD_STATUS_REGISTER_SET
            } else {
                KEYBOARD_STATUS_REGISTER_UNSET
            },
            Some(MemoryMappedIOLocations::Kbdr) => self.buffered->0 as u16,
            None => self.cells[index as int],
        }
    }

    /// The memory after `index` was read: a read of the status register polls
    /// the keyboard, a read of the data register empties it, and a read of a
    /// cell changes nothing.
    pub open spec fn after_read(self, index: u16) -> Self {
        match MemoryMappedIOLocations::at(index) {
            Some(MemoryMappedIOLocations::Kbsr) => self.polled(),
            Some(MemoryMappedIOLocations::Kbdr) => MemoryView { buffered: None, ..self },
            None => self,
        }
    }

    /// The same memory with `value` in the cell at `index`.
    pub open spec fn with_cell(self, index: u16, value: u16) -> Self {
        MemoryView { cells: self.cells.update(index as int, value), ..self }
    }

    /// The same memory after `key` has arrived.
    pub open spec fn with_key(self, key: u8) -> Self {
        MemoryView { incoming: self.incoming.push(key), ..self }
    }
}

/// The machine's memory: the program section, and the keyboard behind its two
/// registers.
pub struct Memory {
    /// Index equals memory address.
    data: Vec<u16>,
    instruction_count: u16,
    buffered: Option<u8>,
    incoming: VecDeque<u8>,
}

impl View for Memory {
    type V = MemoryView;

    closed spec fn view(&self) -> MemoryView {
        MemoryView {
            cells: self.data@,
            instruction_count: self.instruction_count,
            buffered: self.buffered,
            incoming: self.incoming@,
        }
    }
}

impl Memory {
    /// A memory of zeros, without a program and without keys.
    pub fn new() -> (memory: Self)
        ensures
            memory@.wf(),
            memory@.cells == Seq::new(MEMORY_SIZE as nat, |a: int| 0u16),
            memory@.instruction_count == 0,
            memory@.buffered is None,
            memory@.incoming == Seq::<u8>::empty(),
    {
        let data = vec![0x0u16; MEMORY_SIZE as usize];
        let memory = Self { data, instruction_count: 0, buffered: None, incoming: VecDeque::new() };
        assert(memory@.cells =~= Seq::new(MEMORY_SIZE as nat, |a: int| 0u16));
        memory
    }

    /// Puts `data` at the start of the program section, as the program.
    /// A program that is longer than the program section is refused, and the
    /// memory stays as it was.
    pub fn load_program(&mut self, data: &[u16]) -> (loaded: Result<(), LoadProgramError>)
        requires
            old(self)@.wf(),
        ensures
            final(self)@.wf(),
            data@.len() <= PROGRAM_SECTION_MAX_INSTRUCTION_COUNT ==> loaded is Ok && final(self)@
                == old(self)@.with_program(data@),
            data@.len() > PROGRAM_SECTION_MAX_INSTRUCTION_COUNT ==> final(self)@ == old(self)@
                && loaded == Err::<(), LoadProgramError>(
                LoadProgramError::ProgramTooLong {
                    actual_instructions: data.len(),
                    maximum_instructions: PROGRAM_SECTION_MAX_INSTRUCTION_COUNT,
                },
            ),
    {
        if data.len() > PROGRAM_SECTION_MAX_INSTRUCTION_COUNT as usize {
            return Err(
                LoadProgramError::ProgramTooLong {
                    actual_instructions: data.len(),
                    maximum_instructions: PROGRAM_SECTION_MAX_INSTRUCTION_COUNT,
                },
            );
        }
        let count: usize = data.len();
        let start: usize = PROGRAM_SECTION_START as usize;
        let mut i: usize = 0;
        while i < count
            invariant
                i <= count,
                count == data@.len(),
                count <= PROGRAM_SECTION_MAX_INSTRUCTION_COUNT,
                start == PROGRAM_SECTION_START,
                self.data@.len() == MEMORY_SIZE,
                self.instruction_count == old(self).instruction_count,
                self.buffered == old(self).buffered,
                self.incoming == old(self).incoming,
                forall|a: int|
                    0 <= a < MEMORY_SIZE ==> self.data@[a] == if start <= a < start + i {
                        data@[a - start]
                    } else {
                        old(self).data@[a]
                    },
            decreases count - i,
        {
            self.data.set(start + i, data[i]);
            i += 1;
        }
        self.instruction_count = count as u16;
        assert(self@.cells =~= old(self)@.with_program(data@).cells);
        Ok(())
    }

    /// The first address behind the program.
    pub fn program_end(&self) -> (end: u16)
        requires
            self@.wf(),
        ensures
            end == self@.program_end(),
            end == PROGRAM_SECTION_START + self@.instruction_count,
    {
        PROGRAM_SECTION_START + self.instruction_count
    }

    /// The words of the program.
    pub fn program_slice(&self) -> (program: &[u16])
        requires
            self@.wf(),
        ensures
            program@ == self@.program(),
    {
        let start: usize = PROGRAM_SECTION_START as usize;
        let end: usize = start + self.instruction_count as usize;
        vstd::slice::slice_subrange(self.data.as_slice(), start, end)
    }

    /// Whether `index` is the address of a word of the program.
    pub fn is_in_program(&self, index: u16) -> (inside: bool)
        requires
            self@.wf(),
        ensures
            inside == self@.in_program(index),
    {
        PROGRAM_SECTION_START <= index && index < self.program_end()
    }

    /// Whether `index` can be read now.
    pub fn is_readable(&self, index: u16) -> (readable: bool)
        requires
            self@.wf(),
        ensures
            readable == self@.can_read(index),
    {
        match MemoryMappedIOLocations::n(index) {
            Some(MemoryMappedIOLocations::Kbsr) => true,
            Some(MemoryMappedIOLocations::Kbdr) => self.buffered.is_some(),
            None => self.is_in_program(index),
        }
    }

    /// Whether `index` can be written.
    pub fn is_writable(&self, index: u16) -> (writable: bool)
        requires
            self@.wf(),
        ensures
            writable == self@.can_write(index),
    {
        self.is_in_program(index)
    }

    /// Whether `second` can be read once `first` has been read.
    pub fn is_readable_after(&self, first: u16, second: u16) -> (readable: bool)
        requires
            self@.wf(),
            self@.can_read(first),
        ensures
            readable == self@.after_read(first).can_read(second),
    {
        match MemoryMappedIOLocations::n(second) {
            Some(MemoryMappedIOLocations::Kbsr) => true,
            Some(MemoryMappedIOLocations::Kbdr) => match MemoryMappedIOLocations::n(first) {
                Some(MemoryMappedIOLocations::Kbsr) => self.buffered.is_some()
                    || self.incoming.len() > 0,
                Some(MemoryMappedIOLocations::Kbdr) => false,
                None => self.buffered.is_some(),
            },
            None => self.is_in_program(second),
        }
    }

    /// What a read of `index` would return, without reading: the keyboard
    /// stays as it is.
    pub fn peek(&self, index: u16) -> (value: u16)
        requires
            self@.wf(),
            self@.can_read(index),
        ensures
            value == self@.read_value(index),
    {
        match MemoryMappedIOLocations::n(index) {
            Some(MemoryMappedIOLocations::Kbsr) => {
                if self.buffered.is_some() || self.incoming.len() > 0 {
                    KEYBOARD_STATUS_REGISTER_SET
                } else {
                    KEYBOARD_STATUS_REGISTER_UNSET
                }
            },
            Some(MemoryMappedIOLocations::Kbdr) => {
                match self.buffered {
                    Some(key) => key as u16,
                    None => 0,
                }
            },
            None => self.data[index as usize],
        }
    }

    /// Reads the word at `index`.
    ///
    /// A cell gives what it holds. The keyboard status register gives
    /// [`KEYBOARD_STATUS_REGISTER_SET`] if a key waits in the data register or
    /// one that arrived could be moved there, and
    /// [`KEYBOARD_STATUS_REGISTER_UNSET`] otherwise. The keyboard data register
    /// gives the key that waits in it, as the low byte of the word, and is
    /// empty afterwards.
    pub fn read(&mut self, index: u16) -> (value: u16)
        requires
            old(self)@.wf(),
            old(self)@.can_read(index),
        ensures
            value == old(self)@.read_value(index),
            final(self)@ == old(self)@.after_read(index),
            final(self)@.wf(),
    {
        match MemoryMappedIOLocations::n(index) {
            Some(MemoryMappedIOLocations::Kbsr) => {
                if self.buffered.is_none() {
                    self.buffered = self.incoming.pop_front();
                    assert(self@.incoming =~= old(self)@.polled().incoming);
                }
                if self.buffered.is_some() {
                    KEYBOARD_STATUS_REGISTER_SET
                } else {
                    KEYBOARD_STATUS_REGISTER_UNSET
                }
            },
            Some(MemoryMappedIOLocations::Kbdr) => {
                match self.buffered.take() {
                    Some(key) => key as u16,
                    None => 0,
                }
            },
            None => self.data[index as usize],
        }
    }

    /// Writes `value` to the word of the program at `index`.
    pub fn write(&mut self, index: u16, value: u16)
        requires
            old(self)@.wf(),
            old(self)@.can_write(index),
        ensures
            final(self)@ == old(self)@.with_cell(index, value),
            final(self)@.wf(),
    {
        self.data.set(index as usize, value);
    }

    /// Takes a key that has arrived from the keyboard. Keys reach the
    /// keyboard's registers in the order in which they arrive here.
    pub fn key_received(&mut self, key: u8)
        ensures
            final(self)@ == old(self)@.with_key(key),
    {
        self.incoming.push_back(key);
    }
}

} // verus!
