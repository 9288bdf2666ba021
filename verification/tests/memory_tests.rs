use lc3_emulator::errors::LoadProgramError;
use lc3_emulator::hardware::keyboard::{key_code, TerminalInputProvider};
use lc3_emulator::hardware::memory::{
    Memory, MemoryMappedIOLocations, KEYBOARD_DATA_REGISTER, KEYBOARD_STATUS_REGISTER,
    KEYBOARD_STATUS_REGISTER_SET, KEYBOARD_STATUS_REGISTER_UNSET, MEMORY_SIZE,
    PROGRAM_SECTION_END, PROGRAM_SECTION_MAX_INSTRUCTION_COUNT, PROGRAM_SECTION_START,
};

#[test]
fn memory_map_constants() {
    assert_eq!(PROGRAM_SECTION_START, 0x3000);
    assert_eq!(PROGRAM_SECTION_END, 0xFDFF);
    assert_eq!(PROGRAM_SECTION_MAX_INSTRUCTION_COUNT, 52736);
    assert_eq!(MEMORY_SIZE, 0xFE00);
    assert_eq!(KEYBOARD_STATUS_REGISTER, 0xFE00);
    assert_eq!(KEYBOARD_DATA_REGISTER, 0xFE02);
    assert_eq!(KEYBOARD_STATUS_REGISTER_SET, 1 << 15);
    assert_eq!(KEYBOARD_STATUS_REGISTER_UNSET, 0);
}

#[test]
fn device_registers_by_address() {
    assert_eq!(MemoryMappedIOLocations::n(0xFE00), Some(MemoryMappedIOLocations::Kbsr));
    assert_eq!(MemoryMappedIOLocations::n(0xFE02), Some(MemoryMappedIOLocations::Kbdr));
    assert_eq!(MemoryMappedIOLocations::n(0xFE01), None);
    assert_eq!(MemoryMappedIOLocations::n(0x3000), None);
    assert_eq!(MemoryMappedIOLocations::Kbsr.address(), 0xFE00);
    assert_eq!(MemoryMappedIOLocations::Kbdr.address(), 0xFE02);
}

#[test]
fn new_memory_is_empty() {
    let mut memory = Memory::new();
    assert_eq!(memory.program_end(), 0x3000);
    assert_eq!(memory.program_slice().len(), 0);
    assert!(!memory.is_in_program(0x3000));
    assert!(!memory.is_readable(0x3000));
    assert!(!memory.is_writable(0x3000));
    assert_eq!(memory.read(KEYBOARD_STATUS_REGISTER), KEYBOARD_STATUS_REGISTER_UNSET);
}

#[test]
fn load_program_copies_the_words() {
    let mut memory = Memory::new();
    assert_eq!(memory.load_program(&[7, 8, 9]), Ok(()));
    assert_eq!(memory.program_end(), 0x3003);
    assert_eq!(memory.program_slice(), &[7, 8, 9]);
    assert_eq!(memory.read(0x3000), 7);
    assert_eq!(memory.read(0x3002), 9);
    assert!(!memory.is_readable(0x3003));
    // a shorter program takes its place
    assert_eq!(memory.load_program(&[1]), Ok(()));
    assert_eq!(memory.program_slice(), &[1]);
    assert_eq!(memory.program_end(), 0x3001);
    assert!(!memory.is_readable(0x3001));
}

#[test]
fn load_program_of_full_size() {
    let mut memory = Memory::new();
    let program = vec![0xABCDu16; usize::from(PROGRAM_SECTION_MAX_INSTRUCTION_COUNT)];
    assert_eq!(memory.load_program(&program), Ok(()));
    assert_eq!(memory.program_end(), 0xFE00);
    assert_eq!(memory.program_slice().len(), 52736);
    assert_eq!(memory.read(0xFDFF), 0xABCD);
}

#[test]
fn load_program_too_long_is_refused() {
    let mut memory = Memory::new();
    memory.load_program(&[5, 6]).unwrap();
    let program = vec![1u16; usize::from(PROGRAM_SECTION_MAX_INSTRUCTION_COUNT) + 1];
    assert_eq!(
        memory.load_program(&program),
        Err(LoadProgramError::ProgramTooLong {
            actual_instructions: 52737,
            maximum_instructions: 52736
        })
    );
    // nothing has changed
    assert_eq!(memory.program_slice(), &[5, 6]);
}

#[test]
fn write_changes_one_cell() {
    let mut memory = Memory::new();
    memory.load_program(&[1, 2, 3]).unwrap();
    memory.write(0x3001, 0xBEEF);
    assert_eq!(memory.program_slice(), &[1, 0xBEEF, 3]);
    memory.write(0x3002, 4);
    assert_eq!(memory.peek(0x3002), 4);
    assert_eq!(memory.peek(0x3000), 1);
}

#[test]
fn access_is_limited_to_the_program_and_the_keyboard() {
    let mut memory = Memory::new();
    memory.load_program(&[1, 2]).unwrap();
    assert!(memory.is_readable(0x3000));
    assert!(memory.is_readable(0x3001));
    assert!(!memory.is_readable(0x3002));
    assert!(!memory.is_readable(0xFDFF));
    assert!(!memory.is_readable(0x2FFF));
    assert!(!memory.is_readable(0));
    assert!(!memory.is_readable(0xFE01));
    assert!(!memory.is_readable(0xFFFF));
    assert!(memory.is_readable(KEYBOARD_STATUS_REGISTER));
    assert!(!memory.is_readable(KEYBOARD_DATA_REGISTER));
    assert!(memory.is_writable(0x3000));
    assert!(memory.is_writable(0x3001));
    assert!(!memory.is_writable(0x3002));
    assert!(!memory.is_writable(0xFDFF));
    assert!(!memory.is_writable(0x2FFF));
    assert!(!memory.is_writable(KEYBOARD_STATUS_REGISTER));
    assert!(!memory.is_writable(KEYBOARD_DATA_REGISTER));
    memory.key_received(b'a');
    // the key reaches the data register with a read of the status register
    assert!(!memory.is_readable(KEYBOARD_DATA_REGISTER));
    assert!(memory.is_readable_after(KEYBOARD_STATUS_REGISTER, KEYBOARD_DATA_REGISTER));
    assert_eq!(memory.read(KEYBOARD_STATUS_REGISTER), KEYBOARD_STATUS_REGISTER_SET);
    assert!(memory.is_readable(KEYBOARD_DATA_REGISTER));
    assert!(!memory.is_readable_after(KEYBOARD_DATA_REGISTER, KEYBOARD_DATA_REGISTER));
    assert!(memory.is_readable_after(0x3000, KEYBOARD_DATA_REGISTER));
    assert!(memory.is_readable_after(0x3000, 0x3001));
    assert!(!memory.is_readable_after(0x3000, 0x3002));
    assert!(!memory.is_readable_after(0x3000, 0x2000));
}

#[test]
fn keyboard_registers_deliver_keys_in_order() {
    let mut memory = Memory::new();
    assert_eq!(memory.peek(KEYBOARD_STATUS_REGISTER), 0);
    memory.key_received(b'a');
    memory.key_received(b'b');
    memory.key_received(0xE9);
    assert_eq!(memory.peek(KEYBOARD_STATUS_REGISTER), 0x8000);
    assert_eq!(memory.read(KEYBOARD_STATUS_REGISTER), 0x8000);
    // reading the status again does not drop the key
    assert_eq!(memory.read(KEYBOARD_STATUS_REGISTER), 0x8000);
    assert_eq!(memory.peek(KEYBOARD_DATA_REGISTER), u16::from(b'a'));
    assert_eq!(memory.read(KEYBOARD_DATA_REGISTER), u16::from(b'a'));
    assert_eq!(memory.read(KEYBOARD_STATUS_REGISTER), 0x8000);
    assert_eq!(memory.read(KEYBOARD_DATA_REGISTER), u16::from(b'b'));
    assert_eq!(memory.read(KEYBOARD_STATUS_REGISTER), 0x8000);
    assert_eq!(memory.read(KEYBOARD_DATA_REGISTER), 0x00E9);
    assert_eq!(memory.read(KEYBOARD_STATUS_REGISTER), 0);
    assert_eq!(memory.read(KEYBOARD_STATUS_REGISTER), 0);
}

#[test]
fn terminal_input_provider_takes_key_presses() {
    let mut provider = TerminalInputProvider::new();
    assert!(!provider.is_char_available());
    assert!(!provider.is_interrupted());
    assert!(provider.key_pressed('a', false));
    assert!(provider.is_char_available());
    assert_eq!(provider.get_input_character(), 'a');
    // a plain c, and a controlled other key, are input
    assert!(provider.key_pressed('c', false));
    assert_eq!(provider.get_input_character(), 'c');
    assert!(provider.key_pressed('d', true));
    assert_eq!(provider.get_input_character(), 'd');
    assert!(!provider.is_interrupted());
    // Ctrl-C interrupts and gives no input
    assert!(!provider.key_pressed('c', true));
    assert!(provider.is_interrupted());
    assert_eq!(provider.get_input_character(), 'd');
}

#[test]
fn key_codes_are_single_bytes() {
    assert_eq!(key_code('a'), Some(b'a'));
    assert_eq!(key_code('\0'), Some(0));
    assert_eq!(key_code('\u{FF}'), Some(0xFF));
    assert_eq!(key_code('\u{100}'), None);
    assert_eq!(key_code('\u{20AC}'), None);
}
