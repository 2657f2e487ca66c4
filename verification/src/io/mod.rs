//! The machine's window on the outside world: the display and keypad
//! capability, and an implementation of it that lives in memory.

pub mod chip8_io;
pub mod graphics;
pub mod headless_io;
pub mod input;
