//! The operations of the LC-3, one function for each.
use crate::emulator::instruction::{
    bit_range,
    dr_of,
    immediate_of,
    is_immediate_word,
    offset_of,
    sr1_of,
    sr2_of,
    Instruction,
};
use crate::hardware::memory::{Memory, MemoryView};
use crate::hardware::registers::{
    from_binary,
    is_valid_pc,
    ConditionFlag,
    Register,
    Registers,
    RegistersView,
};
use crate::numbers::bit_is_set;
use vstd::prelude::*;

verus! {

/// The sum of two words: word arithmetic, which wraps around.
pub open spec fn word_sum(a: u16, b: u16) -> u16 {
    ((a + b) % 0x1_0000) as u16
}

/// The address `offset` words from `base`. Addresses wrap around at both ends
/// of the 16-bit address space.
pub open spec fn offset_address(base: u16, offset: i16) -> u16 {
    ((base + offset) % 0x1_0000) as u16
}

/// The address that the 9-bit offset of an instruction word gives from the
/// program counter.
pub open spec fn pc_offset_address(word: u16, r: RegistersView) -> u16 {
    offset_address(r.pc, offset_of(word, 9))
}

/// The address that the 6-bit offset of an instruction word gives from the
/// value of its base register.
pub open spec fn base_offset_address(word: u16, r: RegistersView) -> u16 {
    offset_address(r.general_purpose[sr1_of(word) as int], offset_of(word, 6))
}

/// The second operand of ADD and AND: the immediate where bit 5 is set, the
/// value of the second source register where it is not.
pub open spec fn second_operand(word: u16, r: RegistersView) -> u16 {
    if is_immediate_word(word) {
        immediate_of(word)
    } else {
        r.general_purpose[sr2_of(word) as int]
    }
}

/// Whether BR jumps: none of its three condition bits is set, or the one for
/// the current flag is (bit 11 for `Neg`, bit 10 for `Zero`, bit 9 for `Pos`).
pub open spec fn branch_taken(word: u16, r: RegistersView) -> bool {
    bit_range(word, 9, 11) == 0 || match r.cond {
        ConditionFlag::Pos => bit_is_set(word, 9),
        ConditionFlag::Zero => bit_is_set(word, 10),
        ConditionFlag::Neg => bit_is_set(word, 11),
    }
}

/// Where JSR and JSRR jump to: with bit 11 set, the address that the 11-bit
/// offset gives from the program counter; otherwise the value of the base
/// register.
pub open spec fn subroutine_address(word: u16, r: RegistersView) -> u16 {
    if bit_is_set(word, 11) {
        offset_address(r.pc, offset_of(word, 11))
    } else {
        r.general_purpose[sr1_of(word) as int]
    }
}

/// The address that LDI and STI find at the address that the 9-bit offset
/// gives from the program counter.
pub open spec fn indirect_address(word: u16, r: RegistersView, m: MemoryView) -> u16 {
    m.read_value(pc_offset_address(word, r))
}

/// RTI needs the supervisor mode, which this machine does not have: in no
/// state can it be executed.
pub open spec fn rti_enabled(word: u16, r: RegistersView) -> bool {
    false
}

fn wrapped_address(base: u16, offset: i16) -> (address: u16)
    ensures
        address == offset_address(base, offset),
{
    base.wrapping_add_signed(offset)
}

/// ADD: the destination register gets the sum of the first source register
/// and the second operand, and the flag shows the sum's sign. The sum wraps.
/// ```text
///  15__12__11_9__8_6___5___4_3__2_0_      15__12__11_9__8_6___5___4___0_
/// | 0001 |  DR | SR1 | 0 | 00 | SR2 |    | 0001 |  DR | SR1 | 1 |  IMM5 |
/// ```
pub fn add(i: Instruction, r: &mut Registers)
    requires
        old(r)@.wf(),
    ensures
        final(r)@ == old(r)@.with_result(
            dr_of(i@),
            word_sum(
                old(r)@.general_purpose[sr1_of(i@) as int],
                second_operand(i@, old(r)@),
            ),
        ),
        final(r)@.wf(),
{
    let operand: u16 = if i.is_immediate() {
        i.get_immediate()
    } else {
        r.get(i.sr2_number()).as_binary()
    };
    let sum: u16 = r.get(i.sr1_number()).as_binary().wrapping_add(operand);
    r.set(i.dr_number(), from_binary(sum));
    r.update_conditional_register(i.dr_number());
}

/// AND: the destination register gets the bitwise AND of the first source
/// register and the second operand, and the flag shows the result's sign.
/// ```text
///  15__12__11_9__8_6___5___4_3__2_0_      15__12__11_9__8_6___5___4___0_
/// | 0101 |  DR | SR1 | 0 | 00 | SR2 |    | 0101 |  DR | SR1 | 1 |  IMM5 |
/// ```
pub fn and(i: Instruction, r: &mut Registers)
    requires
        old(r)@.wf(),
    ensures
        final(r)@ == old(r)@.with_result(
            dr_of(i@),
            old(r)@.general_purpose[sr1_of(i@) as int] & second_operand(i@, old(r)@),
        ),
        final(r)@.wf(),
{
    let operand: u16 = if i.is_immediate() {
        i.get_immediate()
    } else {
        r.get(i.sr2_number()).as_binary()
    };
    let conjunction: u16 = r.get(i.sr1_number()).as_binary() & operand;
    r.set(i.dr_number(), from_binary(conjunction));
    r.update_conditional_register(i.dr_number());
}

/// NOT: the destination register gets the bitwise complement of the source
/// register, and the flag shows the result's sign.
/// ```text
///  15__12__11_9__8_6___5___0_
/// | 1001 |  DR | SR1 | 11111 |
/// ```
pub fn not(i: Instruction, r: &mut Registers)
    requires
        old(r)@.wf(),
    ensures
        final(r)@ == old(r)@.with_result(
            dr_of(i@),
            (0xFFFF - old(r)@.general_purpose[sr1_of(i@) as int]) as u16,
        ),
        final(r)@.wf(),
{
    let source: u16 = r.get(i.sr1_number()).as_binary();
    assert(!source == 0xFFFF - source) by (bit_vector);
    r.set(i.dr_number(), from_binary(!source));
    r.update_conditional_register(i.dr_number());
}

/// Whether BR jumps in this state.
pub fn is_branch_taken(i: Instruction, r: &Registers) -> (taken: bool)
    ensures
        taken == branch_taken(i@, r@),
{
    let none_set = i.get_bit_range(9, 11) == 0;
    none_set || match r.get_conditional_register() {
        ConditionFlag::Pos => i.get_bit(9),
        ConditionFlag::Zero => i.get_bit(10),
        ConditionFlag::Neg => i.get_bit(11),
    }
}

/// BR: where the branch is taken, the program counter moves by the 9-bit
/// offset. The target has to be an address that the program counter may hold.
/// ```text
///  15__12__11_9___8_______0_
/// | 0000 |  nzp | PCoffset9 |
/// ```
pub fn br(i: Instruction, r: &mut Registers)
    requires
        old(r)@.wf(),
        branch_taken(i@, old(r)@) ==> is_valid_pc(pc_offset_address(i@, old(r)@)),
    ensures
        final(r)@ == if branch_taken(i@, old(r)@) {
            old(r)@.with_pc(pc_offset_address(i@, old(r)@))
        } else {
            old(r)@
        },
        final(r)@.wf(),
{
    if is_branch_taken(i, r) {
        let target: u16 = address_by_pc_offset(i, r);
        r.set_pc(target);
    }
}

/// Where JSR and JSRR jump to in this state.
pub fn address_of_subroutine(i: Instruction, r: &Registers) -> (address: u16)
    ensures
        address == subroutine_address(i@, r@),
{
    if i.get_bit_range(11, 11) == 1 {
        wrapped_address(r.pc().as_binary(), i.pc_offset(11))
    } else {
        r.get(i.get_bit_range_u8(6, 8, "Error in JSR")).as_binary()
    }
}

/// JSR and JSRR: the program counter moves to the subroutine, and register 7
/// gets the address to return to, which is the program counter from before.
/// The target has to be an address that the program counter may hold.
/// ```text
///  15__12__11_10_________0       15__12__11_9__8___6___5____0_
/// | 0100 | 1 | PCOffset11 |     | 0100 | 000 | BaseR | 000000 |
/// ```
pub fn jsr(i: Instruction, r: &mut Registers)
    requires
        old(r)@.wf(),
        is_valid_pc(subroutine_address(i@, old(r)@)),
    ensures
        final(r)@ == old(r)@.with_pc(subroutine_address(i@, old(r)@)).with_register(
            7,
            old(r)@.pc,
        ),
        final(r)@.wf(),
{
    let temp_pc: Register = r.pc();
    let target: u16 = address_of_subroutine(i, r);
    r.set_pc(target);
    r.set(7, temp_pc);
}

/// JMP and RET: the program counter moves to the address in the base
/// register, which for RET is register 7. The address has to be one that the
/// program counter may hold.
/// ```text
///  15__12__11_9___8_6____5____0_
/// | 1100 | 000 | BaseR | 000000 |
/// ```
pub fn jmp_or_ret(i: Instruction, r: &mut Registers)
    requires
        old(r)@.wf(),
        is_valid_pc(old(r)@.general_purpose[sr1_of(i@) as int]),
    ensures
        final(r)@ == old(r)@.with_pc(old(r)@.general_purpose[sr1_of(i@) as int]),
        final(r)@.wf(),
{
    let target: u16 = r.get(i.get_bit_range_u8(6, 8, "Error in jmp_or_ret")).as_binary();
    r.set_pc(target);
}

/// LD: the destination register gets what is read at the address that the
/// 9-bit offset gives from the program counter, and the flag shows its sign.
/// ```text
///  15__12__11_9___8_______0_
/// | 0010 |  DR  | PCoffset9 |
/// ```
pub fn ld(i: Instruction, r: &mut Registers, memory: &mut Memory)
    requires
        old(r)@.wf(),
        old(memory)@.wf(),
        old(memory)@.can_read(pc_offset_address(i@, old(r)@)),
    ensures
        final(r)@ == old(r)@.with_result(
            dr_of(i@),
            old(memory)@.read_value(pc_offset_address(i@, old(r)@)),
        ),
        final(memory)@ == old(memory)@.after_read(pc_offset_address(i@, old(r)@)),
        final(r)@.wf(),
        final(memory)@.wf(),
{
    let value: u16 = memory.read(address_by_pc_offset(i, r));
    r.set(i.dr_number(), from_binary(value));
    r.update_conditional_register(i.dr_number());
}

/// LDI: the destination register gets what is read at the address that is
/// read at the address that the 9-bit offset gives from the program counter,
/// and the flag shows its sign.
/// ```text
///  15__12__11_9___8_______0_
/// | 1010 |  DR  | PCoffset9 |
/// ```
pub fn ldi(i: Instruction, r: &mut Registers, memory: &mut Memory)
    requires
        old(r)@.wf(),
        old(memory)@.wf(),
        old(memory)@.can_read(pc_offset_address(i@, old(r)@)),
        old(memory)@.after_read(pc_offset_address(i@, old(r)@)).can_read(
            indirect_address(i@, old(r)@, old(memory)@),
        ),
    ensures
        final(r)@ == old(r)@.with_result(
            dr_of(i@),
            old(memory)@.after_read(pc_offset_address(i@, old(r)@)).read_value(
                indirect_address(i@, old(r)@, old(memory)@),
            ),
        ),
        final(memory)@ == old(memory)@.after_read(pc_offset_address(i@, old(r)@)).after_read(
            indirect_address(i@, old(r)@, old(memory)@),
        ),
        final(r)@.wf(),
        final(memory)@.wf(),
{
    let address_address: u16 = address_by_pc_offset(i, r);
    let value_address: u16 = memory.read(address_address);
    let value: u16 = memory.read(value_address);
    r.set(i.dr_number(), from_binary(value));
    r.update_conditional_register(i.dr_number());
}

/// LDR: the destination register gets what is read at the address that the
/// 6-bit offset gives from the base register, and the flag shows its sign.
/// ```text
///  15__12__11_9__8___6____5____0_
/// | 0110 |  DR | BaseR | offset6 |
/// ```
pub fn ldr(i: Instruction, r: &mut Registers, memory: &mut Memory)
    requires
        old(r)@.wf(),
        old(memory)@.wf(),
        old(memory)@.can_read(base_offset_address(i@, old(r)@)),
    ensures
        final(r)@ == old(r)@.with_result(
            dr_of(i@),
            old(memory)@.read_value(base_offset_address(i@, old(r)@)),
        ),
        final(memory)@ == old(memory)@.after_read(base_offset_address(i@, old(r)@)),
        final(r)@.wf(),
        final(memory)@.wf(),
{
    let value_address: u16 = address_by_baser_offset(i, r);
    let value: u16 = memory.read(value_address);
    r.set(i.dr_number(), from_binary(value));
    r.update_conditional_register(i.dr_number());
}

/// The address that the 9-bit offset of `i` gives from the program counter.
pub fn address_by_pc_offset(i: Instruction, r: &Registers) -> (address: u16)
    ensures
        address == pc_offset_address(i@, r@),
{
    wrapped_address(r.pc().as_binary(), i.pc_offset(9))
}

/// The address that the 6-bit offset of `i` gives from the value of its base
/// register.
pub fn address_by_baser_offset(i: Instruction, r: &Registers) -> (address: u16)
    ensures
        address == base_offset_address(i@, r@),
{
    let base_r: u8 = i.get_bit_range_u8(6, 8, "Error in address_by_baser_offset");
    wrapped_address(r.get(base_r).as_binary(), i.pc_offset(6))
}

/// LEA: the destination register gets the address that the 9-bit offset
/// gives from the program counter, not what is kept there, and the flag shows
/// the address's sign.
/// ```text
///  15__12__11_9___8_______0_
/// | 1110 |  DR  | PCoffset9 |
/// ```
pub fn lea(i: Instruction, r: &mut Registers)
    requires
        old(r)@.wf(),
    ensures
        final(r)@ == old(r)@.with_result(dr_of(i@), pc_offset_address(i@, old(r)@)),
        final(r)@.wf(),
{
    let address: u16 = address_by_pc_offset(i, r);
    r.set(i.dr_number(), Register::from_binary(address));
    r.update_conditional_register(i.dr_number());
}

/// ST: the value of the source register is written to the address that the
/// 9-bit offset gives from the program counter.
/// ```text
///  15__12__11_9___8_______0_
/// | 0011 |  SR  | PCoffset9 |
/// ```
pub fn st(i: Instruction, r: &Registers, memory: &mut Memory)
    requires
        old(memory)@.wf(),
        old(memory)@.can_write(pc_offset_address(i@, r@)),
    ensures
        final(memory)@ == old(memory)@.with_cell(
            pc_offset_address(i@, r@),
            r@.general_purpose[dr_of(i@) as int],
        ),
        final(memory)@.wf(),
{
    let store_address: u16 = address_by_pc_offset(i, r);
    memory.write(store_address, r.get(i.dr_number()).as_binary());
}

/// STI: the value of the source register is written to the address that is
/// read at the address that the 9-bit offset gives from the program counter.
/// ```text
///  15__12__11_9___8_______0_
/// | 1011 |  SR  | PCoffset9 |
/// ```
pub fn sti(i: Instruction, r: &Registers, memory: &mut Memory)
    requires
        old(memory)@.wf(),
        old(memory)@.can_read(pc_offset_address(i@, r@)),
        old(memory)@.can_write(indirect_address(i@, r@, old(memory)@)),
    ensures
        final(memory)@ == old(memory)@.after_read(pc_offset_address(i@, r@)).with_cell(
            indirect_address(i@, r@, old(memory)@),
            r@.general_purpose[dr_of(i@) as int],
        ),
        final(memory)@.wf(),
{
    let address_of_store_address: u16 = address_by_pc_offset(i, r);
    let store_address: u16 = memory.read(address_of_store_address);
    memory.write(store_address, r.get(i.dr_number()).as_binary());
}

/// STR: the value of the source register is written to the address that the
/// 6-bit offset gives from the base register.
/// ```text
///  15__12__11_9__8___6____5____0_
/// | 0111 |  SR | BaseR | offset6 |
/// ```
pub fn str(i: Instruction, r: &Registers, memory: &mut Memory)
    requires
        old(memory)@.wf(),
        old(memory)@.can_write(base_offset_address(i@, r@)),
    ensures
        final(memory)@ == old(memory)@.with_cell(
            base_offset_address(i@, r@),
            r@.general_purpose[dr_of(i@) as int],
        ),
        final(memory)@.wf(),
{
    let store_address: u16 = address_by_baser_offset(i, r);
    memory.write(store_address, r.get(i.dr_number()).as_binary());
}

/// RTI: return from an interrupt. It needs the supervisor mode, which this
/// machine does not have, so there is no state in which it may be called.
/// ```text
///  15__12__11_____________0_
/// | 1000 | 0000000000000000 |
/// ```
pub fn rti(i: Instruction, r: &Registers)
    requires
        rti_enabled(i@, r@),
{
}

} // verus!
