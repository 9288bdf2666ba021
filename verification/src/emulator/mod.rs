//! The fetch-decode-execute engine.
//!
//! An [`Emulator`] is made from a program with [`from_program`] or
//! [`from_program_bytes`]. Its driver calls [`Emulator::try_step`] until
//! [`Emulator::is_finished`] holds or an [`Outcome`] ends the run, writes each
//! outcome's text to the console, and hands the keys that arrive to
//! [`Emulator::key_received`].
pub mod instruction;
pub mod opcodes;
pub mod trap_routines;

use crate::emulator::instruction::{bit_range, dr_of, op_code_of, sr1_of, Instruction};
use crate::emulator::opcodes::{
    address_by_baser_offset,
    address_by_pc_offset,
    address_of_subroutine,
    base_offset_address,
    branch_taken,
    indirect_address,
    is_branch_taken,
    pc_offset_address,
    second_operand,
    subroutine_address,
    word_sum,
};
use crate::emulator::trap_routines::{
    after_text,
    lemma_after_text_keeps_cells,
    is_text_readable,
    key_echo,
    key_flow,
    memory_after_key,
    one_char_per_u16,
    registers_after_key,
    text_at,
    text_readable,
    Flow,
    Outcome,
};
use crate::errors::{ExecutionError, LoadProgramError};
use crate::hardware::memory::{
    Memory,
    MemoryView,
    MEMORY_SIZE,
    PROGRAM_SECTION_MAX_INSTRUCTION_COUNT,
    PROGRAM_SECTION_START,
};
use crate::hardware::registers::{
    is_valid_pc,
    ConditionFlag,
    Registers,
    RegistersView,
};
use crate::terminal::EchoOptions;
use vstd::prelude::*;

verus! {

/// The origin that a program has to have: the first word of an object file.
pub const ORIG_HEADER: u16 = PROGRAM_SECTION_START;

/// The sixteen operations, in the order of their opcodes from `0000` to `1111`.
#[derive(Debug, Clone, Copy, PartialEq, Eq)]
pub enum Operation {
    Br,
    Add,
    Ld,
    St,
    Jsr,
    And,
    Ldr,
    Str,
    Rti,
    Not,
    Ldi,
    Sti,
    JmpOrRet,
    /// Opcode `1101`, which stands for no operation.
    Reserved,
    Lea,
    Trap,
}

/// The operation that an instruction word asks for.
pub open spec fn operation_of(word: u16) -> Operation {
    let code = op_code_of(word);
    if code == 0 {
        Operation::Br
    } else if code == 1 {
        Operation::Add
    } else if code == 2 {
        Operation::Ld
    } else if code == 3 {
        Operation::St
    } else if code == 4 {
        Operation::Jsr
    } else if code == 5 {
        Operation::And
    } else if code == 6 {
        Operation::Ldr
    } else if code == 7 {
        Operation::Str
    } else if code == 8 {
        Operation::Rti
    } else if code == 9 {
        Operation::Not
    } else if code == 10 {
        Operation::Ldi
    } else if code == 11 {
        Operation::Sti
    } else if code == 12 {
        Operation::JmpOrRet
    } else if code == 13 {
        Operation::Reserved
    } else if code == 14 {
        Operation::Lea
    } else {
        Operation::Trap
    }
}

/// The operation that an instruction asks for.
pub fn operation(instruction: Instruction) -> (operation: Operation)
    ensures
        operation == operation_of(instruction@),
{
    let code: u8 = instruction.op_code();
    if code == 0 {
        Operation::Br
    } else if code == 1 {
        Operation::Add
    } else if code == 2 {
        Operation::Ld
    } else if code == 3 {
        Operation::St
    } else if code == 4 {
        Operation::Jsr
    } else if code == 5 {
        Operation::And
    } else if code == 6 {
        Operation::Ldr
    } else if code == 7 {
        Operation::Str
    } else if code == 8 {
        Operation::Rti
    } else if code == 9 {
        Operation::Not
    } else if code == 10 {
        Operation::Ldi
    } else if code == 11 {
        Operation::Sti
    } else if code == 12 {
        Operation::JmpOrRet
    } else if code == 13 {
        Operation::Reserved
    } else if code == 14 {
        Operation::Lea
    } else {
        Operation::Trap
    }
}

/// The routine that a TRAP instruction word asks for: its low eight bits.
pub open spec fn trap_vector(word: u16) -> u16 {
    bit_range(word, 0, 7)
}

/// What an emulator holds.
pub struct EmulatorView {
    pub memory: MemoryView,
    pub registers: RegistersView,
}

impl EmulatorView {
    /// Memory and registers are well-formed.
    pub open spec fn wf(self) -> bool {
        self.memory.wf() && self.registers.wf()
    }

    /// Whether the program counter has reached the end of the program.
    pub open spec fn is_finished(self) -> bool {
        self.registers.pc >= self.memory.program_end()
    }

    /// Whether the TRAP instruction `word` can be executed: PUTS and PUTSP
    /// need a string at the address in register 0.
    pub open spec fn can_trap(self, word: u16) -> bool {
        let vector = trap_vector(word);
        vector == 0x22 || vector == 0x24 ==> text_readable(
            self.memory,
            self.registers.general_purpose[0],
        )
    }

    /// The state after the TRAP instruction `word`.
    pub open spec fn trapped(self, word: u16) -> Self {
        let vector = trap_vector(word);
        if vector == 0x20 || vector == 0x23 {
            EmulatorView {
                memory: memory_after_key(self.memory),
                registers: registers_after_key(self.registers, self.memory),
            }
        } else if vector == 0x22 || vector == 0x24 {
            EmulatorView {
                memory: after_text(self.memory, self.registers.general_purpose[0]),
                ..self
            }
        } else {
            self
        }
    }

    /// The text that the TRAP instruction `word` writes.
    pub open spec fn trap_output(self, word: u16) -> Seq<char> {
        let vector = trap_vector(word);
        if vector == 0x20 {
            key_echo(self.memory, EchoOptions::EchoOff)
        } else if vector == 0x21 {
            one_char_per_u16(self.registers.general_purpose[0])
        } else if vector == 0x22 {
            text_at(self.memory, self.registers.general_purpose[0], false)
        } else if vector == 0x23 {
            "Input: "@ + key_echo(self.memory, EchoOptions::EchoOn)
        } else if vector == 0x24 {
            text_at(self.memory, self.registers.general_purpose[0], true)
        } else if vector == 0x25 {
            "\nProgram halted\n"@
        } else {
            Seq::empty()
        }
    }

    /// How the run goes on after the TRAP instruction `word`.
    pub open spec fn trap_flow(self, word: u16) -> Flow {
        let vector = trap_vector(word);
        if vector == 0x20 {
            key_flow(self.memory, EchoOptions::EchoOff)
        } else if vector == 0x23 {
            key_flow(self.memory, EchoOptions::EchoOn)
        } else if vector == 0x21 || vector == 0x22 || vector == 0x24 {
            Flow::Continue
        } else if vector == 0x25 {
            Flow::Halt
        } else {
            Flow::Fault(ExecutionError::UnknownTrapRoutine(vector))
        }
    }

    /// Whether the instruction `word` can be executed in this state: every
    /// address that it reads can be read, every address that it writes can
    /// be written, and where it moves the program counter,
    /// the target is an address that the counter may hold. RTI cannot be
    /// executed at all.
    pub open spec fn can_execute(self, word: u16) -> bool {
        let r = self.registers;
        let m = self.memory;
        match operation_of(word) {
            Operation::Add | Operation::And | Operation::Not | Operation::Lea => true,
            Operation::Br => branch_taken(word, r) ==> is_valid_pc(pc_offset_address(word, r)),
            Operation::Jsr => is_valid_pc(subroutine_address(word, r)),
            Operation::JmpOrRet => is_valid_pc(r.general_purpose[sr1_of(word) as int]),
            Operation::Ld => m.can_read(pc_offset_address(word, r)),
            Operation::Ldi => m.can_read(pc_offset_address(word, r)) && m.after_read(
                pc_offset_address(word, r),
            ).can_read(indirect_address(word, r, m)),
            Operation::Ldr => m.can_read(base_offset_address(word, r)),
            Operation::St => m.can_write(pc_offset_address(word, r)),
            Operation::Sti => m.can_read(pc_offset_address(word, r)) && m.can_write(
                indirect_address(word, r, m),
            ),
            Operation::Str => m.can_write(base_offset_address(word, r)),
            Operation::Trap => self.can_trap(word),
            Operation::Rti => false,
            Operation::Reserved => true,
        }
    }

    /// The state after the instruction `word`, which is one that can be
    /// executed. The program counter has been moved past it before.
    pub open spec fn executed(self, word: u16) -> Self {
        let r = self.registers;
        let m = self.memory;
        let dr = dr_of(word);
        match operation_of(word) {
            Operation::Add => EmulatorView {
                registers: r.with_result(
                    dr,
                    word_sum(r.general_purpose[sr1_of(word) as int], second_operand(word, r)),
                ),
                ..self
            },
            Operation::And => EmulatorView {
                registers: r.with_result(
                    dr,
                    r.general_purpose[sr1_of(word) as int] & second_operand(word, r),
                ),
                ..self
            },
            Operation::Not => EmulatorView {
                registers: r.with_result(
                    dr,
                    (0xFFFF - r.general_purpose[sr1_of(word) as int]) as u16,
                ),
                ..self
            },
            Operation::Br => if branch_taken(word, r) {
                EmulatorView { registers: r.with_pc(pc_offset_address(word, r)), ..self }
            } else {
                self
            },
            Operation::Jsr => EmulatorView {
                registers: r.with_pc(subroutine_address(word, r)).with_register(7, r.pc),
                ..self
            },
            Operation::JmpOrRet => EmulatorView {
                registers: r.with_pc(r.general_purpose[sr1_of(word) as int]),
                ..self
            },
            Operation::Ld => EmulatorView {
                registers: r.with_result(dr, m.read_value(pc_offset_address(word, r))),
                memory: m.after_read(pc_offset_address(word, r)),
            },
            Operation::Ldi => EmulatorView {
                registers: r.with_result(
                    dr,
                    m.after_read(pc_offset_address(word, r)).read_value(
                        indirect_address(word, r, m),
                    ),
                ),
                memory: m.after_read(pc_offset_address(word, r)).after_read(
                    indirect_address(word, r, m),
                ),
            },
            Operation::Ldr => EmulatorView {
                registers: r.with_result(dr, m.read_value(base_offset_address(word, r))),
                memory: m.after_read(base_offset_address(word, r)),
            },
            Operation::Lea => EmulatorView {
                registers: r.with_result(dr, pc_offset_address(word, r)),
                ..self
            },
            Operation::St => EmulatorView {
                memory: m.with_cell(pc_offset_address(word, r), r.general_purpose[dr as int]),
                ..self
            },
            Operation::Sti => EmulatorView {
                memory: m.after_read(pc_offset_address(word, r)).with_cell(
                    indirect_address(word, r, m),
                    r.general_purpose[dr as int],
                ),
                ..self
            },
            Operation::Str => EmulatorView {
                memory: m.with_cell(base_offset_address(word, r), r.general_purpose[dr as int]),
                ..self
            },
            Operation::Trap => self.trapped(word),
            Operation::Rti | Operation::Reserved => self,
        }
    }

    /// The text that the instruction `word` writes: only a TRAP writes any.
    pub open spec fn output_of(self, word: u16) -> Seq<char> {
        if operation_of(word) == Operation::Trap {
            self.trap_output(word)
        } else {
            Seq::empty()
        }
    }

    /// How the run goes on after the instruction `word`: a TRAP decides by
    /// its routine, the reserved opcode is a fault, and after every other
    /// instruction the run continues.
    pub open spec fn flow_of(self, word: u16) -> Flow {
        match operation_of(word) {
            Operation::Trap => self.trap_flow(word),
            Operation::Reserved => Flow::Fault(
                ExecutionError::ReservedInstructionFound(op_code_of(word)),
            ),
            _ => Flow::Continue,
        }
    }

    /// The word at the program counter: the next instruction.
    pub open spec fn next_word(self) -> u16 {
        self.memory.cells[self.registers.pc as int]
    }

    /// The state after the next instruction was fetched: the program counter
    /// stands behind it.
    pub open spec fn fetched(self) -> Self {
        EmulatorView { registers: self.registers.with_pc((self.registers.pc + 1) as u16), ..self }
    }

    /// Whether a step can be made: the program has not finished, and its next
    /// instruction can be executed once it is fetched.
    pub open spec fn can_step(self) -> bool {
        !self.is_finished() && self.fetched().can_execute(self.next_word())
    }
}

/// A step leads from a well-formed machine to a well-formed machine: there
/// are still eight registers and a cell for every address, the program is the
/// same in length, and the program counter holds an address that it may hold.
pub proof fn lemma_step_keeps_machine_well_formed(machine: EmulatorView)
    requires
        machine.wf(),
        machine.can_step(),
    ensures
        machine.fetched().executed(machine.next_word()).wf(),
        machine.fetched().executed(machine.next_word()).memory.instruction_count
            == machine.memory.instruction_count,
{
    let word = machine.next_word();
    let fetched = machine.fetched();
    assert(fetched.wf());
    if operation_of(word) == Operation::Trap {
        lemma_after_text_keeps_cells(fetched.memory, fetched.registers.general_purpose[0]);
    }
}

/// Why the words of an object file, origin first, are no program that can be
/// loaded, if they are none.
pub open spec fn load_error(data: Seq<u16>) -> Option<LoadProgramError> {
    if data.len() == 0 {
        Some(LoadProgramError::ProgramMissingOrigHeader)
    } else if data[0] != ORIG_HEADER {
        Some(
            LoadProgramError::ProgramLoadedAtWrongAddress {
                actual_address: data[0],
                expected_address: PROGRAM_SECTION_START,
            },
        )
    } else if data.len() == 1 {
        Some(LoadProgramError::ProgramEmpty)
    } else if data.len() - 1 > PROGRAM_SECTION_MAX_INSTRUCTION_COUNT {
        Some(
            LoadProgramError::ProgramTooLong {
                actual_instructions: (data.len() - 1) as usize,
                maximum_instructions: PROGRAM_SECTION_MAX_INSTRUCTION_COUNT,
            },
        )
    } else {
        None
    }
}

/// The emulator in which `program` has just been loaded: the program stands
/// at the start of the program section of a memory that is zero elsewhere,
/// no key has arrived, the registers hold zero, and the program counter
/// points to the program's first word.
pub open spec fn initial_machine(program: Seq<u16>) -> EmulatorView {
    EmulatorView {
        memory: MemoryView {
            cells: Seq::new(MEMORY_SIZE as nat, |a: int| 0u16),
            instruction_count: 0,
            buffered: None,
            incoming: Seq::empty(),
        }.with_program(program),
        registers: RegistersView {
            general_purpose: Seq::new(8, |i: int| 0u16),
            pc: PROGRAM_SECTION_START,
            cond: ConditionFlag::Zero,
        },
    }
}

/// The words of an object file: each pair of bytes is one word, the high
/// byte first.
pub open spec fn words_of(bytes: Seq<u8>) -> Seq<u16> {
    Seq::new(bytes.len() / 2, |k: int| (bytes[2 * k] * 256 + bytes[2 * k + 1]) as u16)
}

/// The emulator of the LC-3: its memory and its registers.
pub struct Emulator {
    memory: Memory,
    registers: Registers,
}

impl View for Emulator {
    type V = EmulatorView;

    closed spec fn view(&self) -> EmulatorView {
        EmulatorView { memory: self.memory@, registers: self.registers@ }
    }
}

impl Emulator {
    /// The registers.
    pub fn registers(&self) -> (registers: &Registers)
        ensures
            registers@ == self@.registers,
    {
        &self.registers
    }

    /// The memory.
    pub fn memory(&self) -> (memory: &Memory)
        ensures
            memory@ == self@.memory,
    {
        &self.memory
    }

    /// The instructions of the program, as it stands in memory now.
    pub fn instructions(&self) -> (instructions: Vec<Instruction>)
        requires
            self@.wf(),
        ensures
            instructions@.len() == self@.memory.instruction_count,
            forall|k: int|
                0 <= k < instructions@.len() ==> (#[trigger] instructions@[k])@
                    == self@.memory.program()[k],
    {
        let program: &[u16] = self.memory.program_slice();
        let mut instructions: Vec<Instruction> = Vec::with_capacity(program.len());
        let mut k: usize = 0;
        while k < program.len()
            invariant
                k <= program@.len(),
                instructions@.len() == k,
                forall|j: int| 0 <= j < k ==> (#[trigger] instructions@[j])@ == program@[j],
            decreases program@.len() - k,
        {
            instructions.push(Instruction::from_bits(program[k]));
            k += 1;
        }
        instructions
    }

    /// Takes a key that has arrived from the keyboard.
    pub fn key_received(&mut self, key: u8)
        ensures
            final(self)@ == (EmulatorView {
                memory: old(self)@.memory.with_key(key),
                ..old(self)@
            }),
    {
        self.memory.key_received(key);
    }

    /// Whether the program counter has reached the end of the program, so
    /// that the run is over.
    pub fn is_finished(&self) -> (finished: bool)
        requires
            self@.wf(),
        ensures
            finished == self@.is_finished(),
    {
        self.registers.pc().as_binary() >= self.memory.program_end()
    }

    /// Whether the TRAP instruction `i` can be executed now.
    pub fn is_trap_executable(&self, i: Instruction) -> (executable: bool)
        requires
            self@.wf(),
        ensures
            executable == self@.can_trap(i@),
    {
        trap_executable_in(&self.registers, &self.memory, i)
    }

    /// Whether `instruction` can be executed now.
    pub fn is_executable(&self, instruction: Instruction) -> (executable: bool)
        requires
            self@.wf(),
        ensures
            executable == self@.can_execute(instruction@),
    {
        executable_in(&self.registers, &self.memory, instruction)
    }

    /// Executes the TRAP instruction `i`: the routine that its low eight bits
    /// name. A vector that names no routine is a fault.
    pub fn trap(&mut self, i: Instruction) -> (outcome: Outcome)
        requires
            old(self)@.wf(),
            old(self)@.can_trap(i@),
        ensures
            final(self)@ == old(self)@.trapped(i@),
            outcome.output@ == old(self)@.trap_output(i@),
            outcome.flow == old(self)@.trap_flow(i@),
            final(self)@.wf(),
    {
        let trap_routine: u16 = i.get_bit_range(0, 7);
        if trap_routine == 0x20 {
            trap_routines::get_c(&mut self.registers, &mut self.memory)
        } else if trap_routine == 0x21 {
            trap_routines::out(&self.registers)
        } else if trap_routine == 0x22 {
            trap_routines::put_s(&self.registers, &mut self.memory)
        } else if trap_routine == 0x23 {
            trap_routines::in_trap(&mut self.registers, &mut self.memory)
        } else if trap_routine == 0x24 {
            trap_routines::put_sp(&self.registers, &mut self.memory)
        } else if trap_routine == 0x25 {
            trap_routines::halt()
        } else {
            Outcome {
                output: String::new(),
                flow: Flow::Fault(ExecutionError::UnknownTrapRoutine(trap_routine)),
            }
        }
    }

    /// Executes `instruction`, behind which the program counter stands
    /// already.
    pub fn execute_instruction(&mut self, instruction: Instruction) -> (outcome: Outcome)
        requires
            old(self)@.wf(),
            old(self)@.can_execute(instruction@),
        ensures
            final(self)@ == old(self)@.executed(instruction@),
            outcome.output@ == old(self)@.output_of(instruction@),
            outcome.flow == old(self)@.flow_of(instruction@),
            final(self)@.wf(),
    {
        match operation(instruction) {
            Operation::Add => crate::emulator::opcodes::add(instruction, &mut self.registers),
            Operation::And => opcodes::and(instruction, &mut self.registers),
            Operation::Not => opcodes::not(instruction, &mut self.registers),
            Operation::Br => opcodes::br(instruction, &mut self.registers),
            Operation::JmpOrRet => opcodes::jmp_or_ret(instruction, &mut self.registers),
            Operation::Jsr => opcodes::jsr(instruction, &mut self.registers),
            Operation::Ld => opcodes::ld(instruction, &mut self.registers, &mut self.memory),
            Operation::Ldi => opcodes::ldi(instruction, &mut self.registers, &mut self.memory),
            Operation::Ldr => opcodes::ldr(instruction, &mut self.registers, &mut self.memory),
            Operation::Lea => opcodes::lea(instruction, &mut self.registers),
            Operation::St => opcodes::st(instruction, &self.registers, &mut self.memory),
            Operation::Sti => opcodes::sti(instruction, &self.registers, &mut self.memory),
            Operation::Str => opcodes::str(instruction, &self.registers, &mut self.memory),
            Operation::Trap => {
                return self.trap(instruction);
            },
            Operation::Rti => opcodes::rti(instruction, &self.registers),
            Operation::Reserved => {
                return Outcome {
                    output: String::new(),
                    flow: Flow::Fault(
                        ExecutionError::ReservedInstructionFound(instruction.op_code()),
                    ),
                };
            },
        }
        Outcome { output: String::new(), flow: Flow::Continue }
    }

    /// Whether a step can be made now.
    pub fn is_steppable(&self) -> (steppable: bool)
        requires
            self@.wf(),
        ensures
            steppable == self@.can_step(),
    {
        if self.is_finished() {
            return false;
        }
        let instruction = Instruction::from_bits(self.memory.peek(self.registers.pc().as_binary()));
        let mut fetched: Registers = self.registers;
        fetched.inc_pc();
        executable_in(&fetched, &self.memory, instruction)
    }

    /// One step of the run, if one can be made: `None`, with nothing
    /// changed, where the program has finished or its next instruction cannot
    /// be executed, and else what [`Emulator::step`] does.
    pub fn try_step(&mut self) -> (outcome: Option<Outcome>)
        requires
            old(self)@.wf(),
        ensures
            final(self)@.wf(),
            !old(self)@.can_step() ==> outcome is None && final(self)@ == old(self)@,
            old(self)@.can_step() ==> {
                &&& outcome is Some
                &&& final(self)@ == old(self)@.fetched().executed(old(self)@.next_word())
                &&& outcome->0.output@ == old(self)@.fetched().output_of(old(self)@.next_word())
                &&& outcome->0.flow == old(self)@.fetched().flow_of(old(self)@.next_word())
            },
    {
        if self.is_steppable() {
            Some(self.step())
        } else {
            None
        }
    }

    /// One step of the run: fetches the instruction at the program counter,
    /// moves the counter behind it and executes it.
    pub fn step(&mut self) -> (outcome: Outcome)
        requires
            old(self)@.wf(),
            old(self)@.can_step(),
        ensures
            final(self)@ == old(self)@.fetched().executed(old(self)@.next_word()),
            outcome.output@ == old(self)@.fetched().output_of(old(self)@.next_word()),
            outcome.flow == old(self)@.fetched().flow_of(old(self)@.next_word()),
            final(self)@.wf(),
    {
        let data: u16 = self.memory.peek(self.registers.pc().as_binary());
        let i = Instruction::from_bits(data);
        self.registers.inc_pc();
        self.execute_instruction(i)
    }

    /// One try to read the key that GETC or IN waits for, after a step has
    /// ended in [`Flow::AwaitKey`].
    pub fn read_key(&mut self, eo: EchoOptions) -> (outcome: Outcome)
        requires
            old(self)@.wf(),
        ensures
            final(self)@ == (EmulatorView {
                memory: memory_after_key(old(self)@.memory),
                registers: registers_after_key(old(self)@.registers, old(self)@.memory),
            }),
            outcome.flow == key_flow(old(self)@.memory, eo),
            outcome.output@ == key_echo(old(self)@.memory, eo),
            final(self)@.wf(),
    {
        trap_routines::read_character_from_console(&mut self.registers, eo, &mut self.memory)
    }
}

fn trap_executable_in(r: &Registers, m: &Memory, i: Instruction) -> (executable: bool)
    requires
        r@.wf(),
        m@.wf(),
    ensures
        executable == (EmulatorView { memory: m@, registers: r@ }).can_trap(i@),
{
    let trap_routine: u16 = i.get_bit_range(0, 7);
    if trap_routine == 0x22 || trap_routine == 0x24 {
        is_text_readable(m, r.get(0).as_binary())
    } else {
        true
    }
}

fn executable_in(r: &Registers, m: &Memory, instruction: Instruction) -> (executable: bool)
    requires
        r@.wf(),
        m@.wf(),
    ensures
        executable == (EmulatorView { memory: m@, registers: r@ }).can_execute(instruction@),
{
    match operation(instruction) {
        Operation::Add | Operation::And | Operation::Not | Operation::Lea => true,
        Operation::Br => !is_branch_taken(instruction, r) || Registers::accepts_pc(
            address_by_pc_offset(instruction, r),
        ),
        Operation::Jsr => Registers::accepts_pc(address_of_subroutine(instruction, r)),
        Operation::JmpOrRet => Registers::accepts_pc(r.get(instruction.sr1_number()).as_binary()),
        Operation::Ld => m.is_readable(address_by_pc_offset(instruction, r)),
        Operation::Ldi => {
            let address: u16 = address_by_pc_offset(instruction, r);
            m.is_readable(address) && m.is_readable_after(address, m.peek(address))
        },
        Operation::Ldr => m.is_readable(address_by_baser_offset(instruction, r)),
        Operation::St => m.is_writable(address_by_pc_offset(instruction, r)),
        Operation::Sti => {
            let address: u16 = address_by_pc_offset(instruction, r);
            m.is_readable(address) && m.is_writable(m.peek(address))
        },
        Operation::Str => m.is_writable(address_by_baser_offset(instruction, r)),
        Operation::Trap => trap_executable_in(r, m, instruction),
        Operation::Rti => false,
        Operation::Reserved => true,
    }
}

/// Makes an emulator from the words of an object file. The first word is the
/// origin, which has to be [`ORIG_HEADER`]; the words behind it are the
/// program, of which there has to be one at least and no more than the
/// program section holds.
pub fn from_program_bytes(data: &[u16]) -> (loaded: Result<Emulator, LoadProgramError>)
    ensures
        match loaded {
            Ok(emulator) => load_error(data@) is None && emulator@.wf() && emulator@
                == initial_machine(data@.subrange(1, data@.len() as int)),
            Err(error) => load_error(data@) == Some(error),
        },
{
    if data.len() == 0 {
        return Err(LoadProgramError::ProgramMissingOrigHeader);
    }
    let header: u16 = data[0];
    if header != ORIG_HEADER {
        return Err(
            LoadProgramError::ProgramLoadedAtWrongAddress {
                actual_address: header,
                expected_address: PROGRAM_SECTION_START,
            },
        );
    }
    let program: &[u16] = vstd::slice::slice_subrange(data, 1, data.len());
    if program.len() == 0 {
        return Err(LoadProgramError::ProgramEmpty);
    }
    let mut memory = Memory::new();
    match memory.load_program(program) {
        Ok(()) => Ok(Emulator { memory, registers: Registers::new() }),
        Err(error) => Err(error),
    }
}

/// Makes an emulator from the bytes of an object file: big-endian 16-bit
/// words, the origin first. A file of an odd number of bytes is refused;
/// what then holds of its words is what [`from_program_bytes`] asks.
pub fn from_program(bytes: &[u8]) -> (loaded: Result<Emulator, LoadProgramError>)
    ensures
        match loaded {
            Ok(emulator) => {
                &&& bytes@.len() % 2 == 0
                &&& load_error(words_of(bytes@)) is None
                &&& emulator@.wf()
                &&& emulator@ == initial_machine(
                    words_of(bytes@).subrange(1, words_of(bytes@).len() as int),
                )
            },
            Err(error) => if bytes@.len() % 2 == 1 {
                error == LoadProgramError::ProgramNotEvenSize(bytes@.len() as u64)
            } else {
                load_error(words_of(bytes@)) == Some(error)
            },
        },
{
    let file_size: usize = bytes.len();
    if file_size % 2 == 1 {
        return Err(LoadProgramError::ProgramNotEvenSize(file_size as u64));
    }
    let count: usize = file_size / 2;
    let mut file_data: Vec<u16> = Vec::with_capacity(count);
    let mut k: usize = 0;
    while k < count
        invariant
            k <= count,
            2 * count == bytes@.len(),
            bytes@.len() <= usize::MAX,
            file_data@.len() == k,
            forall|j: int| 0 <= j < k ==> file_data@[j] == words_of(bytes@)[j],
        decreases count - k,
    {
        let word: u16 = bytes[2 * k] as u16 * 256 + bytes[2 * k + 1] as u16;
        file_data.push(word);
        k += 1;
    }
    assert(file_data@ =~= words_of(bytes@));
    from_program_bytes(file_data.as_slice())
}

/// The number of words in an object file of `file_size` bytes. A file of an
/// odd number of bytes is refused, and so is one with more words than this
/// machine can count.
pub fn word_count_of_file(file_size: u64) -> (count: Result<usize, LoadProgramError>)
    ensures
        file_size % 2 == 1 ==> count == Err::<usize, LoadProgramError>(
            LoadProgramError::ProgramNotEvenSize(file_size),
        ),
        file_size % 2 == 0 && file_size / 2 > usize::MAX ==> count == Err::<
            usize,
            LoadProgramError,
        >(LoadProgramError::ProgramDoesNotFitIntoMemory(file_size)),
        file_size % 2 == 0 && file_size / 2 <= usize::MAX ==> count == Ok::<
            usize,
            LoadProgramError,
        >((file_size / 2) as usize),
{
    if file_size % 2 == 1 {
        return Err(LoadProgramError::ProgramNotEvenSize(file_size));
    }
    let words: u64 = file_size / 2;
    if words > usize::MAX as u64 {
        return Err(LoadProgramError::ProgramDoesNotFitIntoMemory(file_size));
    }
    Ok(words as usize)
}

/// The error for a program that could not be read from `path`, with the
/// reason in `message`.
pub fn map_err_program_not_loadable(path: &str, message: String) -> (error: LoadProgramError)
    ensures
        error matches LoadProgramError::ProgramNotLoadable { file, message: reason }
            && file@ == path@ && reason == message,
{
    LoadProgramError::ProgramNotLoadable { file: path.to_owned(), message }
}

} // verus!
