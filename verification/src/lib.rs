//! An emulator of the LC-3, a 16-bit word-addressed teaching computer.
//!
//! The machine is a state machine over plain values: [`emulator::Emulator::step`]
//! executes one instruction and says what the driver has to do with the console
//! before the next one. Keys that were read elsewhere are handed to
//! [`hardware::memory::Memory::key_received`].
pub mod emulator;
pub mod errors;
pub mod hardware;
pub mod numbers;
pub mod terminal;
