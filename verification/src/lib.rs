//! Core of a cycle-stepped emulator for an 8-bit handheld console: the
//! processor, the memory map, the pixel unit, the timer, the joypad and the
//! cartridge bank controllers, advanced together one instruction at a time.
//!
//! Every type that holds a buffer has a view that shows the buffer as a
//! sequence, and every function states over the views what it returns and
//! what it changes. A function that the guest program can bring to a fault
//! (an opcode without instruction, a read or a write that the cartridge
//! does not serve) names the fault in its precondition and stands beside a
//! function that tests the precondition.

pub mod alu;
pub mod cartridge;
pub mod console;
pub mod cpu;
pub mod gpu;
pub mod input;
pub mod memory;
pub mod opcodes;
pub mod register;
pub mod timer;
pub mod trace;
