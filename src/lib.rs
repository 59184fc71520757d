//! A CHIP-8 interpreter whose fetch/decode/execute engine is verified
//! against a mathematical model of the machine.

/// Decoded view of a 16-bit instruction word
pub mod opcode;
/// Display settings and screen geometry
pub mod api;
/// The display memory
pub mod vram;
/// The program counter
pub mod pc;
/// Host input events and the hexadecimal keymap
pub mod event;
/// An interval timer over the monotonic clock
pub mod clock;
/// The mathematical model of the machine and of one cycle
pub mod machine;
/// The interpreter: fetch, decode and execute
pub mod interpreter;
/// Laws that every cycle obeys
pub mod laws;
/// Colors
pub mod color;
/// Rectangles on the host window
pub mod rectangle;
/// Errors
pub mod error;
/// Interpreter types
pub mod types;
/// The emulator: an interpreter with its window settings
pub mod emulator;
