//! The keyboard behind the terminal: what a key press means to the machine.
use vstd::prelude::*;

verus! {

/// What a terminal input provider holds.
pub struct TerminalInputView {
    /// The character of the last key press that was taken, if any was.
    pub available_char: Option<char>,
    /// Whether Ctrl-C was pressed.
    pub is_interrupted: bool,
}

/// The state of the keyboard of a terminal. The terminal itself is read
/// elsewhere; each key press that carries a character is handed to
/// [`TerminalInputProvider::key_pressed`].
pub struct TerminalInputProvider {
    is_char_available: bool,
    available_char: Option<char>,
    is_interrupted: bool,
}

impl View for TerminalInputProvider {
    type V = TerminalInputView;

    closed spec fn view(&self) -> TerminalInputView {
        TerminalInputView {
            available_char: if self.is_char_available {
                self.available_char
            } else {
                None
            },
            is_interrupted: self.is_interrupted,
        }
    }
}

/// The code of a key for the keyboard data register: the character's code,
/// where one byte holds it.
pub open spec fn key_code_of(c: char) -> Option<u8> {
    if (c as u32) < 256 {
        Some(c as u8)
    } else {
        None
    }
}

/// The code of a key for the keyboard data register, if the character has
/// one: the data register holds one byte.
pub fn key_code(c: char) -> (code: Option<u8>)
    ensures
        code == key_code_of(c),
{
    let scalar: u32 = c as u32;
    if scalar < 256 {
        Some(scalar as u8)
    } else {
        None
    }
}

impl TerminalInputProvider {
    /// A keyboard on which nothing has been pressed.
    pub fn new() -> (provider: Self)
        ensures
            provider@.available_char is None,
            !provider@.is_interrupted,
    {
        Self { is_char_available: false, available_char: None, is_interrupted: false }
    }

    /// Takes a key press that carries the character `c`, with the control
    /// key held where `control` says so, and says whether it gave input.
    /// Ctrl-C gives none: it interrupts. Every other press gives its
    /// character, which takes the place of the one before.
    pub fn key_pressed(&mut self, c: char, control: bool) -> (available: bool)
        ensures
            available == !(c == 'c' && control),
            final(self)@ == if c == 'c' && control {
                TerminalInputView { is_interrupted: true, ..old(self)@ }
            } else {
                TerminalInputView { available_char: Some(c), ..old(self)@ }
            },
    {
        if c == 'c' && control {
            self.is_interrupted = true;
            false
        } else {
            self.is_char_available = true;
            self.available_char = Some(c);
            true
        }
    }

    /// Whether a key press has given a character.
    pub fn is_char_available(&self) -> (available: bool)
        ensures
            available == self@.available_char is Some,
    {
        self.is_char_available && self.available_char.is_some()
    }

    /// The character of the last key press that gave one.
    pub fn get_input_character(&self) -> (c: char)
        requires
            self@.available_char is Some,
        ensures
            Some(c) == self@.available_char,
    {
        match self.available_char {
            Some(c) => c,
            None => '\0',
        }
    }

    /// Whether Ctrl-C was pressed.
    pub fn is_interrupted(&self) -> (interrupted: bool)
        ensures
            interrupted == self@.is_interrupted,
    {
        self.is_interrupted
    }
}

} // verus!
