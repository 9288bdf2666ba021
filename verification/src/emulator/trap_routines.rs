//! The system routines behind TRAP, done by the emulator itself and not by
//! LC-3 code at the targets of a trap vector table.
//!
//! A routine does not touch the console. It returns an [`Outcome`]: the text
//! that is to be written, and how the run goes on.
use crate::errors::ExecutionError;
use crate::hardware::memory::{
    Memory,
    MemoryMappedIOLocations,
    MemoryView,
    KEYBOARD_DATA_REGISTER,
    KEYBOARD_STATUS_REGISTER,
};
use crate::hardware::registers::{from_binary, Registers, RegistersView};
use crate::terminal::EchoOptions;
use vstd::prelude::*;

verus! {

/// How a run goes on after an instruction.
#[derive(Debug, PartialEq, Eq)]
pub enum Flow {
    /// With the next instruction.
    Continue,
    /// No key was there to read. Once more keys may have arrived, the read is
    /// tried again with [`read_character_from_console`], until it gives
    /// another flow than this.
    AwaitKey(EchoOptions),
    /// The program has halted: the run is over.
    Halt,
    /// The program cannot go on: the run is over, with this error.
    Fault(ExecutionError),
}

/// What an instruction asks of the console, and how the run goes on.
#[derive(Debug, PartialEq, Eq)]
pub struct Outcome {
    /// The text that is to be written to the console and flushed, before
    /// anything else happens. Empty where there is nothing to write.
    pub output: String,
    /// How the run goes on.
    pub flow: Flow,
}

/// The character that a byte is written as: the one with that code.
pub open spec fn char_of(byte: u8) -> char {
    byte as char
}

/// The character that a key is echoed as: itself where it is ASCII, the
/// replacement character where it is not.
pub open spec fn echo_of(key: u8) -> char {
    if key < 0x80 {
        key as char
    } else {
        '\u{FFFD}'
    }
}

/// The low byte of a word.
pub open spec fn low_byte(word: u16) -> u8 {
    (word % 256) as u8
}

/// The high byte of a word.
pub open spec fn high_byte(word: u16) -> u8 {
    (word / 256) as u8
}

/// The text of a word that holds one character: the one in its low byte.
pub open spec fn one_char_per_u16(word: u16) -> Seq<char> {
    seq![char_of(low_byte(word))]
}

/// The text of a word that holds two characters: the one in its low byte,
/// then the one in its high byte unless that byte is zero.
pub open spec fn two_chars_per_u16(word: u16) -> Seq<char> {
    if high_byte(word) == 0 {
        seq![char_of(low_byte(word))]
    } else {
        seq![char_of(low_byte(word)), char_of(high_byte(word))]
    }
}

/// The text of one word of a string, packed or not.
pub open spec fn chars_per_u16(word: u16, packed: bool) -> Seq<char> {
    if packed {
        two_chars_per_u16(word)
    } else {
        one_char_per_u16(word)
    }
}

/// Whether a string starts at `address`: whether the words from there on can
/// be read one after the other up to a word that is zero.
pub open spec fn text_readable(m: MemoryView, address: u16) -> bool
    decreases 0x1_0000 - address,
{
    m.can_read(address) && (m.read_value(address) == 0 || (address < 0xFFFF && text_readable(
        m.after_read(address),
        (address + 1) as u16,
    )))
}

/// The text of the string that starts at `address`: that of its words, up to
/// the first word that is zero.
pub open spec fn text_at(m: MemoryView, address: u16, packed: bool) -> Seq<char>
    decreases 0x1_0000 - address,
{
    if m.read_value(address) == 0 || address >= 0xFFFF {
        Seq::empty()
    } else {
        chars_per_u16(m.read_value(address), packed) + text_at(
            m.after_read(address),
            (address + 1) as u16,
            packed,
        )
    }
}

/// The memory after the string that starts at `address` was read, its
/// closing zero included.
pub open spec fn after_text(m: MemoryView, address: u16) -> MemoryView
    decreases 0x1_0000 - address,
{
    if m.read_value(address) == 0 || address >= 0xFFFF {
        m.after_read(address)
    } else {
        after_text(m.after_read(address), (address + 1) as u16)
    }
}

/// The key that a read of the console takes, where one is available: the one
/// in the keyboard's data register, or else the oldest that has arrived.
pub open spec fn next_key(m: MemoryView) -> u8 {
    m.polled().buffered->0
}

/// The memory after one try to read a key: the key that was taken, if there
/// was one, is gone from the keyboard.
pub open spec fn memory_after_key(m: MemoryView) -> MemoryView {
    if m.key_available() {
        MemoryView { buffered: None, ..m.polled() }
    } else {
        m
    }
}

/// The registers after one try to read a key: register 0 holds the key that
/// was taken, if there was one, with its high byte clear.
pub open spec fn registers_after_key(r: RegistersView, m: MemoryView) -> RegistersView {
    if m.key_available() {
        r.with_register(0, next_key(m) as u16)
    } else {
        r
    }
}

/// How the run goes on after one try to read a key.
pub open spec fn key_flow(m: MemoryView, eo: EchoOptions) -> Flow {
    if m.key_available() {
        Flow::Continue
    } else {
        Flow::AwaitKey(eo)
    }
}

/// The echo of one try to read a key: that of the key that was taken, where
/// there was one and an echo is asked for.
pub open spec fn key_echo(m: MemoryView, eo: EchoOptions) -> Seq<char> {
    if m.key_available() && eo == EchoOptions::EchoOn {
        seq![echo_of(next_key(m))]
    } else {
        Seq::empty()
    }
}

/// Keys are read in the order in which they arrive, each once: a key that
/// arrives waits behind those that wait already, a look at the status
/// register changes nothing of that, and a read of the console takes the key
/// that has waited longest.
pub proof fn lemma_keys_are_read_in_order_of_arrival(m: MemoryView, key: u8)
    ensures
        m.with_key(key).waiting_keys() == m.waiting_keys().push(key),
        m.polled().waiting_keys() == m.waiting_keys(),
        m.key_available() <==> m.waiting_keys().len() > 0,
        m.key_available() ==> next_key(m) == m.waiting_keys()[0],
        m.key_available() ==> memory_after_key(m).waiting_keys() == m.waiting_keys().subrange(
            1,
            m.waiting_keys().len() as int,
        ),
        !m.key_available() ==> memory_after_key(m) == m,
{
    assert(m.with_key(key).waiting_keys() =~= m.waiting_keys().push(key));
    assert(m.polled().waiting_keys() =~= m.waiting_keys());
    if m.key_available() {
        assert(memory_after_key(m).waiting_keys() =~= m.waiting_keys().subrange(
            1,
            m.waiting_keys().len() as int,
        ));
    }
}

/// Reading a string changes neither the cells nor the program: only the
/// keyboard can have changed, and the memory stays well-formed.
pub proof fn lemma_after_text_keeps_cells(m: MemoryView, address: u16)
    requires
        m.wf(),
    ensures
        after_text(m, address).wf(),
        after_text(m, address).cells == m.cells,
        after_text(m, address).instruction_count == m.instruction_count,
    decreases 0x1_0000 - address,
{
    if m.read_value(address) == 0 || address >= 0xFFFF {
    } else {
        lemma_after_text_keeps_cells(m.after_read(address), (address + 1) as u16);
    }
}

/// `String::push` of std: the text gets one more character at its end.
#[verifier::external_body]
fn push_char(text: &mut String, c: char)
    ensures
        final(text)@ == old(text)@.push(c),
{
    text.push(c);
}

fn byte_char(byte: u8) -> (c: char)
    ensures
        c == char_of(byte),
{
    byte as char
}

fn continue_with(output: String) -> (outcome: Outcome)
    ensures
        outcome.output == output,
        outcome.flow == Flow::Continue,
{
    Outcome { output, flow: Flow::Continue }
}

/// One try to read a key from the console into register 0.
///
/// Where a key waits in the keyboard's registers or has arrived, it is taken:
/// register 0 holds it, with its high byte clear, the text is the key's echo
/// if `eo` asks for one, and the run continues. Where there is none, nothing
/// changes and the flow is [`Flow::AwaitKey`].
pub fn read_character_from_console(
    regs: &mut Registers,
    eo: EchoOptions,
    memory: &mut Memory,
) -> (outcome: Outcome)
    requires
        old(memory)@.wf(),
        old(regs)@.wf(),
    ensures
        final(memory)@.wf(),
        final(regs)@.wf(),
        final(memory)@ == memory_after_key(old(memory)@),
        final(regs)@ == registers_after_key(old(regs)@, old(memory)@),
        outcome.flow == key_flow(old(memory)@, eo),
        outcome.output@ == key_echo(old(memory)@, eo),
{
    let mut output = String::new();
    if memory.read(KEYBOARD_STATUS_REGISTER) != 0 {
        let c: u16 = memory.read(KEYBOARD_DATA_REGISTER);
        regs.set(0, from_binary(c));
        match eo {
            EchoOptions::EchoOn => {
                let echo: char = if c < 0x80 {
                    byte_char(c as u8)
                } else {
                    '\u{FFFD}'
                };
                push_char(&mut output, echo);
            },
            EchoOptions::EchoOff => {},
        }
        continue_with(output)
    } else {
        Outcome { output, flow: Flow::AwaitKey(eo) }
    }
}

/// GETC: reads one key from the keyboard into register 0, high byte clear,
/// without an echo. See [`read_character_from_console`].
pub fn get_c(regs: &mut Registers, memory: &mut Memory) -> (outcome: Outcome)
    requires
        old(memory)@.wf(),
        old(regs)@.wf(),
    ensures
        final(memory)@.wf(),
        final(regs)@.wf(),
        final(memory)@ == memory_after_key(old(memory)@),
        final(regs)@ == registers_after_key(old(regs)@, old(memory)@),
        outcome.flow == key_flow(old(memory)@, EchoOptions::EchoOff),
        outcome.output@ == key_echo(old(memory)@, EchoOptions::EchoOff),
{
    read_character_from_console(regs, EchoOptions::EchoOff, memory)
}

/// IN: writes the prompt `Input: `, then reads one key into register 0 as
/// GETC does, with an echo. See [`read_character_from_console`].
pub fn in_trap(regs: &mut Registers, memory: &mut Memory) -> (outcome: Outcome)
    requires
        old(memory)@.wf(),
        old(regs)@.wf(),
    ensures
        final(memory)@.wf(),
        final(regs)@.wf(),
        final(memory)@ == memory_after_key(old(memory)@),
        final(regs)@ == registers_after_key(old(regs)@, old(memory)@),
        outcome.flow == key_flow(old(memory)@, EchoOptions::EchoOn),
        outcome.output@ == "Input: "@ + key_echo(old(memory)@, EchoOptions::EchoOn),
{
    let read: Outcome = read_character_from_console(regs, EchoOptions::EchoOn, memory);
    let mut output: String = "Input: ".to_owned();
    output.append(read.output.as_str());
    Outcome { output, flow: read.flow }
}

/// OUT: the text is the character in the low byte of register 0.
pub fn out(regs: &Registers) -> (outcome: Outcome)
    ensures
        outcome.output@ == one_char_per_u16(regs@.general_purpose[0]),
        outcome.flow == Flow::Continue,
{
    let mut output = String::new();
    put_one_char_per_u16(regs.get(0).as_binary(), &mut output);
    continue_with(output)
}

/// Appends the character in the low byte of `input`.
pub fn put_one_char_per_u16(input: u16, append_to: &mut String)
    ensures
        final(append_to)@ == old(append_to)@ + one_char_per_u16(input),
{
    let c: char = byte_char((input % 256) as u8);
    push_char(append_to, c);
    assert(append_to@ =~= old(append_to)@ + one_char_per_u16(input));
}

/// Appends the character in the low byte of `input`, then the one in its
/// high byte unless that byte is zero.
pub fn put_two_chars_per_u16(input: u16, append_to: &mut String)
    ensures
        final(append_to)@ == old(append_to)@ + two_chars_per_u16(input),
{
    let c: char = byte_char((input % 256) as u8);
    push_char(append_to, c);
    let high: u8 = (input / 256) as u8;
    if high != 0 {
        push_char(append_to, byte_char(high));
    }
    assert(append_to@ =~= old(append_to)@ + two_chars_per_u16(input));
}

/// Whether a string starts at `address`, so that PUTS and PUTSP can write it.
pub fn is_text_readable(memory: &Memory, address: u16) -> (readable: bool)
    requires
        memory@.wf(),
    ensures
        readable == text_readable(memory@, address),
{
    let mut end: u16 = address;
    while memory.is_in_program(end)
        invariant
            memory@.wf(),
            text_readable(memory@, address) == text_readable(memory@, end),
        decreases 0x1_0000 - end,
    {
        if memory.peek(end) == 0 {
            return true;
        }
        assert(memory@.after_read(end) == memory@);
        end += 1;
    }
    match MemoryMappedIOLocations::n(end) {
        Some(_) => {
            assert(!memory@.after_read(end).can_read((end + 1) as u16));
            assert(!text_readable(memory@.after_read(end), (end + 1) as u16));
            memory.is_readable(end) && memory.peek(end) == 0
        },
        None => false,
    }
}

fn put(regs: &Registers, mem: &mut Memory, packed: bool) -> (outcome: Outcome)
    requires
        old(mem)@.wf(),
        text_readable(old(mem)@, regs@.general_purpose[0]),
    ensures
        outcome.output@ == text_at(old(mem)@, regs@.general_purpose[0], packed),
        outcome.flow == Flow::Continue,
        final(mem)@ == after_text(old(mem)@, regs@.general_purpose[0]),
        final(mem)@.wf(),
{
    let address: u16 = regs.get(0).as_binary();
    let mut end: u16 = address;
    let mut s = String::new();
    assert(s@ + text_at(mem@, end, packed) =~= text_at(mem@, end, packed));
    loop
        invariant_except_break
            text_readable(mem@, end),
            text_at(old(mem)@, address, packed) == s@ + text_at(mem@, end, packed),
            after_text(old(mem)@, address) == after_text(mem@, end),
        invariant
            mem@.wf(),
        ensures
            text_at(old(mem)@, address, packed) == s@,
            after_text(old(mem)@, address) == mem@,
        decreases 0x1_0000 - end,
    {
        let ghost before = mem@;
        let ghost written = s@;
        let word: u16 = mem.read(end);
        if word == 0 {
            assert(written + text_at(before, end, packed) =~= written);
            break ;
        }
        if packed {
            put_two_chars_per_u16(word, &mut s);
        } else {
            put_one_char_per_u16(word, &mut s);
        }
        assert(text_at(before, end, packed) == chars_per_u16(word, packed) + text_at(
            mem@,
            (end + 1) as u16,
            packed,
        ));
        assert(written + (chars_per_u16(word, packed) + text_at(mem@, (end + 1) as u16, packed))
            =~= (written + chars_per_u16(word, packed)) + text_at(
            mem@,
            (end + 1) as u16,
            packed,
        ));
        end += 1;
    }
    continue_with(s)
}

/// PUTS: the text is the string that starts at the address in register 0,
/// one character for each word, up to the first word that is zero.
pub fn put_s(regs: &Registers, mem: &mut Memory) -> (outcome: Outcome)
    requires
        old(mem)@.wf(),
        text_readable(old(mem)@, regs@.general_purpose[0]),
    ensures
        outcome.output@ == text_at(old(mem)@, regs@.general_purpose[0], false),
        outcome.flow == Flow::Continue,
        final(mem)@ == after_text(old(mem)@, regs@.general_purpose[0]),
        final(mem)@.wf(),
{
    put(regs, mem, false)
}

/// PUTSP: the text is the string that starts at the address in register 0,
/// two characters for each word, the low byte first, up to the first word
/// that is zero. A high byte that is zero gives no character.
pub fn put_sp(regs: &Registers, mem: &mut Memory) -> (outcome: Outcome)
    requires
        old(mem)@.wf(),
        text_readable(old(mem)@, regs@.general_purpose[0]),
    ensures
        outcome.output@ == text_at(old(mem)@, regs@.general_purpose[0], true),
        outcome.flow == Flow::Continue,
        final(mem)@ == after_text(old(mem)@, regs@.general_purpose[0]),
        final(mem)@.wf(),
{
    put(regs, mem, true)
}

/// HALT: the text is the halt banner, and the run is over.
pub fn halt() -> (outcome: Outcome)
    ensures
        outcome.output@ == "\nProgram halted\n"@,
        outcome.flow == Flow::Halt,
{
    Outcome { output: "\nProgram halted\n".to_owned(), flow: Flow::Halt }
}

/// The end of a run at which the console failed, with the failure's text.
pub fn wrap_io_error_in_cf(error: String) -> (flow: Flow)
    ensures
        flow == Flow::Fault(ExecutionError::IOInputOutputError(error)),
{
    Flow::Fault(ExecutionError::IOInputOutputError(error))
}

} // verus!
