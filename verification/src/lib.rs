//! A verified core for a CHIP-8 virtual machine: instruction decoding and the
//! state transition that each instruction applies to memory, registers, call
//! stack, program counter, timers and display.

pub mod display;
pub mod instruction;
pub mod machine;
pub mod register;
pub mod stack;
pub mod state;
pub mod types;
