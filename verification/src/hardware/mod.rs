//! The machine's state: registers, memory and the keyboard's registers.
pub mod keyboard;
pub mod memory;
pub mod registers;
