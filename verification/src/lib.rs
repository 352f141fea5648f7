//! Cycle-stepped model of the DMG main board: CPU, bus, cartridge banking,
//! timer, joypad, interrupt controller, picture and audio units.
//!
//! Every device is an ordinary Rust value with a mathematical twin (a spec
//! function or a view) that says what each operation does; the executable
//! code is proved to agree with that twin.

pub mod alu;
pub mod apu;
pub mod audio;
pub mod board;
pub mod cpu;
pub mod decode;
pub mod display;
pub mod execution;
pub mod input;
pub mod interrupts;
pub mod machine;
pub mod memory;
pub mod ppu;
pub mod readwrite;
pub mod registers;
pub mod timer;
pub mod timing;

pub use apu::AudioFrame;
pub use audio::AudioBufferConsumer;
pub use cpu::CPU;
pub use display::{DisplayBuffer, DISPLAY_BUFFER_SIZE};
pub use execution::ExecutionError;
pub use input::InputFlag;
pub use memory::{CartridgeInfo, MemoryInitializationError, MemoryInitializationErrorType};
