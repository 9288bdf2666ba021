//! The register file: eight general registers, the program counter and the
//! condition flag.
use crate::hardware::memory;
use crate::numbers;
use crate::numbers::{bits_of, decimal_of};
use vstd::prelude::*;

verus! {

/// A 16-bit register, read as a bit pattern or as a two's complement number.
#[derive(Copy, Clone, Debug, PartialEq, Eq, PartialOrd, Ord)]
pub struct Register(u16);

impl View for Register {
    type V = u16;

    /// The register's bit pattern.
    closed spec fn view(&self) -> u16 {
        self.0
    }
}

/// The register that holds the bit pattern `val`.
pub fn from_binary(val: u16) -> (register: Register)
    ensures
        register@ == val,
{
    Register::from_binary(val)
}

/// The register that holds the number `val` in two's complement.
pub fn from_decimal(val: i16) -> (register: Register)
    ensures
        register@ == bits_of(val),
{
    Register::from_decimal(val)
}

impl Register {
    /// The register that holds the bit pattern `val`.
    pub fn from_binary(val: u16) -> (register: Self)
        ensures
            register@ == val,
    {
        Self(val)
    }

    /// The register that holds the number `val` in two's complement.
    pub fn from_decimal(val: i16) -> (register: Self)
        ensures
            register@ == bits_of(val),
    {
        Self::from_binary(numbers::decimal_to_twos_complement(val))
    }

    /// The register's bit pattern.
    pub fn as_binary(self) -> (val: u16)
        ensures
            val == self@,
    {
        self.0
    }

    /// The register's bit pattern, widened.
    pub fn as_binary_u32(self) -> (val: u32)
        ensures
            val == self@,
    {
        self.0 as u32
    }

    /// The number that the register holds in two's complement.
    pub fn as_decimal(self) -> (val: i16)
        ensures
            val == decimal_of(self@),
    {
        numbers::twos_complement_to_decimal(self.0)
    }
}

/// The sign of the value that was last written to a general register by an
/// instruction that sets the flag.
#[derive(Debug, Clone, Copy, PartialEq, Eq)]
pub enum ConditionFlag {
    /// The value was greater than zero.
    Pos,
    /// The value was zero.
    Zero,
    /// The value was negative: its top bit was set.
    Neg,
}

/// The flag that a value sets.
pub open spec fn flag_of(value: u16) -> ConditionFlag {
    if value == 0 {
        ConditionFlag::Zero
    } else if value >= 0x8000 {
        ConditionFlag::Neg
    } else {
        ConditionFlag::Pos
    }
}

impl From<Register> for ConditionFlag {
    fn from(value: Register) -> (flag: Self) {
        if value.0 == 0 {
            Self::Zero
        } else if value.0 >= 0x8000 {
            Self::Neg
        } else {
            Self::Pos
        }
    }
}

impl vstd::std_specs::convert::FromSpecImpl<Register> for ConditionFlag {
    open spec fn obeys_from_spec() -> bool {
        true
    }

    open spec fn from_spec(value: Register) -> Self {
        flag_of(value@)
    }
}

/// What a register file holds.
pub struct RegistersView {
    /// The bit patterns of the general registers, by number.
    pub general_purpose: Seq<u16>,
    /// The program counter.
    pub pc: u16,
    /// The condition flag.
    pub cond: ConditionFlag,
}

/// Whether the program counter may hold `val`: an address of the program
/// section, or the one behind its end, where the counter stands after the last
/// word of a full section.
pub open spec fn is_valid_pc(val: u16) -> bool {
    memory::PROGRAM_SECTION_START <= val <= memory::PROGRAM_SECTION_END + 1
}

impl RegistersView {
    /// There are eight general registers, and the program counter is valid.
    pub open spec fn wf(self) -> bool {
        &&& self.general_purpose.len() == 8
        &&& is_valid_pc(self.pc)
    }

    /// The same registers with `value` in general register `r`.
    pub open spec fn with_register(self, r: u8, value: u16) -> Self {
        RegistersView { general_purpose: self.general_purpose.update(r as int, value), ..self }
    }

    /// The same registers with the program counter at `pc`.
    pub open spec fn with_pc(self, pc: u16) -> Self {
        RegistersView { pc, ..self }
    }

    /// The same registers with the flag that the value in general register
    /// `r` sets.
    pub open spec fn with_flag_of(self, r: u8) -> Self {
        RegistersView { cond: flag_of(self.general_purpose[r as int]), ..self }
    }

    /// The same registers after an instruction has written `value` to general
    /// register `r`: the register holds it and the flag shows its sign.
    pub open spec fn with_result(self, r: u8, value: u16) -> Self {
        self.with_register(r, value).with_flag_of(r)
    }
}

/// The register file.
#[derive(Clone, Copy, Debug)]
pub struct Registers {
    general_purpose: [Register; 8],
    pc: Register,
    cond: ConditionFlag,
}

impl View for Registers {
    type V = RegistersView;

    closed spec fn view(&self) -> RegistersView {
        RegistersView {
            general_purpose: Seq::new(8, |i: int| self.general_purpose[i]@),
            pc: self.pc@,
            cond: self.cond,
        }
    }
}

impl Registers {
    /// Registers as they are before a program runs: the general registers
    /// hold zero, the flag is `Zero`, and the program counter is at the start
    /// of the program section.
    pub fn new() -> (registers: Self)
        ensures
            registers@.wf(),
            registers@.general_purpose == Seq::new(8, |i: int| 0u16),
            registers@.pc == memory::PROGRAM_SECTION_START,
            registers@.cond == ConditionFlag::Zero,
    {
        let registers = Self {
            general_purpose: [Register(0); 8],
            pc: Register(memory::PROGRAM_SECTION_START),
            cond: ConditionFlag::Zero,
        };
        assert(registers@.general_purpose =~= Seq::new(8, |i: int| 0u16));
        registers
    }

    /// The program counter.
    pub fn pc(&self) -> (pc: Register)
        ensures
            pc@ == self@.pc,
    {
        self.pc
    }

    /// Moves the program counter to the next word.
    pub fn inc_pc(&mut self)
        requires
            old(self)@.wf(),
            old(self)@.pc <= memory::PROGRAM_SECTION_END,
        ensures
            final(self)@ == old(self)@.with_pc((old(self)@.pc + 1) as u16),
            final(self)@.wf(),
    {
        self.set_pc(self.pc.0 + 1);
    }

    /// Moves the program counter to `val`.
    pub fn set_pc(&mut self, val: u16)
        requires
            old(self)@.wf(),
            is_valid_pc(val),
        ensures
            final(self)@ == old(self)@.with_pc(val),
            final(self)@.wf(),
    {
        self.pc = Register::from_binary(val);
    }

    /// Whether the program counter may hold `val`.
    pub fn accepts_pc(val: u16) -> (accepted: bool)
        ensures
            accepted == is_valid_pc(val),
    {
        memory::PROGRAM_SECTION_START <= val && val <= memory::PROGRAM_SECTION_END + 1
    }

    /// What general register `r` holds.
    pub fn get(&self, r: u8) -> (value: Register)
        requires
            r <= 7,
        ensures
            value@ == self@.general_purpose[r as int],
    {
        self.general_purpose[r as usize]
    }

    /// Writes `value` to general register `r`. The flag stays as it is.
    pub fn set(&mut self, r: u8, value: Register)
        requires
            r <= 7,
        ensures
            final(self)@ == old(self)@.with_register(r, value@),
    {
        self.general_purpose[r as usize] = value;
        assert(self@.general_purpose =~= old(self)@.with_register(r, value@).general_purpose);
    }

    /// The condition flag.
    pub fn get_conditional_register(&self) -> (flag: ConditionFlag)
        ensures
            flag == self@.cond,
    {
        self.cond
    }

    /// Sets the flag from what general register `r` holds now.
    pub fn update_conditional_register(&mut self, r: u8)
        requires
            r <= 7,
        ensures
            final(self)@ == old(self)@.with_flag_of(r),
    {
        let val = self.get(r);
        self.cond = ConditionFlag::from(val);
    }
}

impl Default for Registers {
    fn default() -> (registers: Self)
        ensures
            registers@.wf(),
            registers@.general_purpose == Seq::new(8, |i: int| 0u16),
            registers@.pc == memory::PROGRAM_SECTION_START,
            registers@.cond == ConditionFlag::Zero,
    {
        Self::new()
    }
}

} // verus!
