use lc3_emulator::emulator::opcodes;
use lc3_emulator::hardware::memory::Memory;
use lc3_emulator::hardware::registers::{from_binary, from_decimal, ConditionFlag, Registers};

fn create_memory(data: &[u16]) -> Memory {
    let mut mem = Memory::new();
    mem.load_program(data).expect("Error loading program");
    mem
}

#[test]
fn test_opcode_add() {
    let mut regs = Registers::new();
    regs.set(0, from_binary(22));
    regs.set(1, from_binary(128));
    // Add: DR: 2, SR1: 0: 22, Immediate: false, SR2: 1: 128 => R2: 150
    opcodes::add(0b0001_010_000_0_00_001.into(), &mut regs);
    assert_eq!(regs.get(2), from_binary(150));
    assert_eq!(regs.get_conditional_register(), ConditionFlag::Pos);
    // Add: DR: 3, SR1: 2: 150, Immediate: true, imm5: 14 => R3: 164
    opcodes::add(0b0001_011_010_1_01110.into(), &mut regs);
    assert_eq!(regs.get(0), from_binary(22));
    assert_eq!(regs.get(1), from_binary(128));
    assert_eq!(regs.get(2), from_binary(150));
    assert_eq!(regs.get(3), from_binary(164));
    assert_eq!(regs.get_conditional_register(), ConditionFlag::Pos);
}

#[test]
fn test_opcode_add_negative() {
    let mut regs = Registers::new();
    regs.set(0, from_binary(22));
    regs.set(1, from_decimal(-128));
    // Add: DR: 2, SR1: 0: 22, Immediate: false, SR2: 1: -128 => R2: -106
    opcodes::add(0b0001_010_000_0_00_001.into(), &mut regs);
    // Add: DR: 3, SR1: 2: -106, Immediate: true, imm5: -2 => R3: -108
    opcodes::add(0b0001_011_010_1_11110.into(), &mut regs);
    assert_eq!(regs.get(0), from_binary(22));
    assert_eq!(regs.get(1), from_binary(0b1111_1111_1000_0000));
    assert_eq!(regs.get(1), from_decimal(-128));
    assert_eq!(regs.get(2).as_decimal(), -106);
    assert_eq!(regs.get(3).as_decimal(), -108);
    assert_eq!(regs.get_conditional_register(), ConditionFlag::Neg);
}

#[test]
fn test_opcode_add_underflow() {
    let mut regs = Registers::new();
    regs.set(0, from_binary(0x7FFF)); // largest positive number in 2's complement
    regs.set(1, from_binary(1));
    // Add: DR: 2, SR1: 0, Immediate: false, SR2: 1 => R2: 32768
    opcodes::add(0b0001_010_000_0_00_001.into(), &mut regs);
    assert_eq!(regs.get(0), from_binary(0x7FFF));
    assert_eq!(regs.get(1), from_binary(1));
    assert_eq!(regs.get(2), from_binary(32768));
    assert_eq!(regs.get(2), from_binary(0x8000));
    assert_eq!(regs.get_conditional_register(), ConditionFlag::Neg);
}

#[test]
fn test_opcode_add_result_0() {
    let mut regs = Registers::new();
    regs.set(0, from_binary(0x7FFF)); // largest positive number in 2's complement
    regs.set(1, from_binary(!0x7FFF + 1));
    regs.set(2, from_binary(1)); // to be sure opcode was executed
    // Add: DR: 2, SR1: 0, Immediate: false, SR2: 1 => R2: 0
    opcodes::add(0b0001_010_000_0_00_001.into(), &mut regs);
    assert_eq!(regs.get(0), from_binary(0x7FFF));
    assert_eq!(regs.get(1), from_binary(!0x7FFF + 1));
    assert_eq!(regs.get(2), from_binary(0));
    assert_eq!(regs.get_conditional_register(), ConditionFlag::Zero);
}

#[test]
fn add_wraps_around_the_word() {
    let mut regs = Registers::new();
    regs.set(0, from_binary(0xFFFF));
    regs.set(1, from_binary(0xFFFF));
    opcodes::add(0b0001_010_000_0_00_001.into(), &mut regs);
    assert_eq!(regs.get(2), from_binary(0xFFFE));
    assert_eq!(regs.get_conditional_register(), ConditionFlag::Neg);
}

#[test]
fn test_opcode_and() {
    let mut regs = Registers::new();
    regs.set(0, from_binary(0b1101_1001_0111_0101));
    regs.set(1, from_binary(0b0100_1010_0010_1001));
    opcodes::and(0b0101_010_000_0_00_001.into(), &mut regs);
    assert_eq!(regs.get(0), from_binary(0b1101_1001_0111_0101));
    assert_eq!(regs.get(1), from_binary(0b0100_1010_0010_1001));
    assert_eq!(regs.get(2), from_binary(0b0100_1000_0010_0001));
    assert_eq!(regs.get_conditional_register(), ConditionFlag::Pos);
}

#[test]
fn test_opcode_and_immediate() {
    let mut regs = Registers::new();
    regs.set(0, from_binary(0b1101_1001_0111_0101));
    assert_eq!(regs.get(0), from_binary(0b1101_1001_0111_0101));
    // Immediate sign extended:           0b1111_1111_1111_0101
    opcodes::and(0b0101_010_000_1_10101.into(), &mut regs);
    assert_eq!(regs.get(2), from_binary(0b1101_1001_0111_0101));
    assert_eq!(regs.get_conditional_register(), ConditionFlag::Neg);
}

#[test]
fn test_opcode_not() {
    let mut regs = Registers::new();
    regs.set(0, from_binary(0x7FFF)); // largest positive number in 2's complement
    opcodes::not(0b1001_001_000_111111.into(), &mut regs);
    assert_eq!(regs.get(0), from_binary(0x7FFF));
    assert_eq!(regs.get(1), from_binary(0x8000));
    assert_eq!(regs.get_conditional_register(), ConditionFlag::Neg);
}

#[test]
fn test_opcode_lea() {
    let mut regs = Registers::new();
    regs.set_pc(0x3045);
    opcodes::lea(0b1110_011_0_0101_0101.into(), &mut regs);
    assert_eq!(regs.get(3), from_binary(0x3045 + 0b0_0101_0101));
    assert_eq!(regs.get_conditional_register(), ConditionFlag::Pos);
}

#[test]
fn test_opcode_ld() {
    let mut regs = Registers::new();
    regs.set_pc(0x3045);
    let raw = vec![4711u16, 815];
    let mut memory = create_memory(&raw);
    // LD - DR: 4, PC_OFFSET9: -0x44
    opcodes::ld(0b0010_100_1_1011_1100.into(), &mut regs, &mut memory);
    assert_eq!(regs.get(4), from_decimal(815));
    assert_eq!(regs.get_conditional_register(), ConditionFlag::Pos);

    // LD - DR: 4, PC_OFFSET9: -0x45
    opcodes::ld(0b0010_100_1_1011_1011.into(), &mut regs, &mut memory);
    assert_eq!(regs.get(4), from_decimal(4711));
    assert_eq!(regs.get_conditional_register(), ConditionFlag::Pos);
}

#[test]
fn test_opcode_ldr() {
    let mut regs = Registers::new();
    let mut raw = vec![0; 6];
    let mem_val = 0b1111_1111_1111_0110; // -10
    raw[5] = mem_val;
    let mut memory = create_memory(&raw);
    regs.set(6, from_binary(0x3025));
    // LDR - DR: 2, - BaseR: 6, OFFSET6: -32 = -0x20
    opcodes::ldr(0b0110_010_110_100000.into(), &mut regs, &mut memory);
    assert_eq!(regs.get(2), from_binary(mem_val));
    assert_eq!(regs.get_conditional_register(), ConditionFlag::Neg);
}

#[test]
fn test_opcode_ldi() {
    let mut regs = Registers::new();
    let mut raw = vec![0; 10];
    let val_to_load_in_register = 0b1111_1111_1111_0110; // -10
    raw[3] = val_to_load_in_register;
    raw[5] = 0x3003; // absolute address of value above
    let mut memory = create_memory(&raw);
    regs.set_pc(0x3065);
    // LDI - DR: 1, - PC_OFFSET9: -96 = -0x60
    opcodes::ldi(0b1010_001_110100000.into(), &mut regs, &mut memory);
    assert_eq!(regs.get(1), from_binary(val_to_load_in_register));
    assert_eq!(regs.get_conditional_register(), ConditionFlag::Neg);
}

#[test]
fn test_opcode_st() {
    let mut regs = Registers::new();
    let raw = vec![0; 0xC4];
    let mut memory = create_memory(&raw);
    regs.set(5, from_decimal(4760));
    regs.set_pc(0x3065);
    // ST - SR: 5, - PC_OFFSET9: -95 = -0x5F
    opcodes::st(0b0011_101_110100001.into(), &regs, &mut memory);
    assert_eq!(memory.peek(0x3006), 4760);
}

#[test]
fn test_opcode_sti() {
    let mut regs = Registers::new();
    let raw = vec![0; 0xC4];
    let mut memory = create_memory(&raw);
    memory.write(0x300A, 0x3006);
    regs.set(7, from_decimal(1234));
    regs.set_pc(0x3067);
    // STI - SR: 7, - PC_OFFSET9: -0x5D
    opcodes::sti(0b1011_111_110100011.into(), &regs, &mut memory);
    assert_eq!(memory.peek(0x3006), 1234);
}

#[test]
fn test_opcode_str() {
    let mut regs = Registers::new();
    let raw = vec![0; 0xC4];
    let mut memory = create_memory(&raw);
    regs.set(2, from_decimal(2345));
    regs.set(6, from_binary(0x3005));
    // STR - SR: 2, - BaseR: 6, offset6: 0x1
    opcodes::str(0b0111_010_110_000001.into(), &regs, &mut memory);
    assert_eq!(memory.peek(0x3006), 2345);
}

#[test]
fn test_opcode_jsr() {
    let mut regs = Registers::new();
    regs.set_pc(0x3099);
    // JSR - PC_OFFSET11: 0x1A1
    opcodes::jsr(0b0100_1_00110100001.into(), &mut regs);
    assert_eq!(regs.pc(), from_decimal(0x323A));
    assert_eq!(regs.get(7), from_decimal(0x3099));

    let mut regs = Registers::new();
    regs.set_pc(0x3100);
    regs.set(6, from_decimal(0x3456));
    // JSRR - BaseR: 6
    opcodes::jsr(0b0100_000_110_000000.into(), &mut regs);
    assert_eq!(regs.pc(), from_decimal(0x3456));
    assert_eq!(regs.get(7), from_decimal(0x3100));
}

#[test]
fn jsrr_through_register_7_uses_its_old_value() {
    let mut regs = Registers::new();
    regs.set_pc(0x3100);
    regs.set(7, from_binary(0x3456));
    opcodes::jsr(0b0100_000_111_000000.into(), &mut regs);
    assert_eq!(regs.pc(), from_binary(0x3456));
    assert_eq!(regs.get(7), from_binary(0x3100));
}

#[test]
fn test_opcode_ret() {
    let mut regs = Registers::new();
    regs.set_pc(0x3020);
    regs.set(1, from_decimal(0x3022));
    // JMP - BaseR: 1
    opcodes::jmp_or_ret(0b1100_000_001_000000.into(), &mut regs);
    assert_eq!(regs.pc(), from_decimal(0x3022));
}

#[test]
fn br_jumps_on_a_matching_flag_or_without_condition_bits() {
    // flag is Zero at the start
    let mut regs = Registers::new();
    regs.set_pc(0x3010);
    // BRz +5
    opcodes::br(0b0000_010_000000101.into(), &mut regs);
    assert_eq!(regs.pc().as_binary(), 0x3015);
    // BRnp +5: not taken
    opcodes::br(0b0000_101_000000101.into(), &mut regs);
    assert_eq!(regs.pc().as_binary(), 0x3015);
    // no condition bit: taken, -3
    opcodes::br(0b0000_000_111111101.into(), &mut regs);
    assert_eq!(regs.pc().as_binary(), 0x3012);

    regs.set(0, from_decimal(-7));
    regs.update_conditional_register(0);
    // BRn +1
    assert!(opcodes::is_branch_taken(0b0000_100_000000001.into(), &regs));
    opcodes::br(0b0000_100_000000001.into(), &mut regs);
    assert_eq!(regs.pc().as_binary(), 0x3013);
    // BRzp +1: not taken
    assert!(!opcodes::is_branch_taken(0b0000_011_000000001.into(), &regs));
    opcodes::br(0b0000_011_000000001.into(), &mut regs);
    assert_eq!(regs.pc().as_binary(), 0x3013);

    regs.set(0, from_decimal(7));
    regs.update_conditional_register(0);
    // BRp -1
    opcodes::br(0b0000_001_111111111.into(), &mut regs);
    assert_eq!(regs.pc().as_binary(), 0x3012);
    // BRnz: not taken
    opcodes::br(0b0000_110_000000001.into(), &mut regs);
    assert_eq!(regs.pc().as_binary(), 0x3012);
}

#[test]
fn addresses_wrap_around_the_address_space() {
    let mut regs = Registers::new();
    regs.set_pc(0x7FF0);
    // offset +100 crosses 0x8000
    assert_eq!(opcodes::address_by_pc_offset(0b1110_000_001100100.into(), &regs), 0x8054);
    regs.set_pc(0x8000);
    // offset -1 crosses 0x8000 downwards
    assert_eq!(opcodes::address_by_pc_offset(0b1110_000_111111111.into(), &regs), 0x7FFF);
    regs.set(6, from_binary(0xFFFF));
    // base 0xFFFF + 1 wraps to 0
    assert_eq!(opcodes::address_by_baser_offset(0b0110_010_110_000001.into(), &regs), 0);
    regs.set(6, from_binary(0));
    // base 0 - 1 wraps to 0xFFFF
    assert_eq!(opcodes::address_by_baser_offset(0b0110_010_110_111111.into(), &regs), 0xFFFF);
    assert_eq!(opcodes::address_of_subroutine(0b0100_1_00000000010.into(), &regs), 0x8002);
    assert_eq!(opcodes::address_of_subroutine(0b0100_0_00_110_000000.into(), &regs), 0);
}

#[test]
fn ld_from_the_keyboard_registers() {
    let mut regs = Registers::new();
    let mut memory = create_memory(&[0]);
    memory.key_received(b'x');
    // KBSR is at 0xFE00: from PC 0xFDFF with offset +1
    regs.set_pc(0xFDFF);
    opcodes::ld(0b0010_001_000000001.into(), &mut regs, &mut memory);
    assert_eq!(regs.get(1), from_binary(0x8000));
    assert_eq!(regs.get_conditional_register(), ConditionFlag::Neg);
    // KBDR is at 0xFE02
    opcodes::ld(0b0010_010_000000011.into(), &mut regs, &mut memory);
    assert_eq!(regs.get(2), from_binary(u16::from(b'x')));
    assert_eq!(regs.get_conditional_register(), ConditionFlag::Pos);
    // the key is gone
    opcodes::ld(0b0010_001_000000001.into(), &mut regs, &mut memory);
    assert_eq!(regs.get(1), from_binary(0));
    assert_eq!(regs.get_conditional_register(), ConditionFlag::Zero);
}
