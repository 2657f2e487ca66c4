//! An interpreter core for the CHIP-8 virtual machine.
//!
//! The crate holds the instruction codec, the memory and register model, the
//! two timer policies and the execution engine. Everything that touches a
//! window, a keyboard, a file or the pacing of the run loop stays with the
//! caller and reaches the engine through the capability traits in [`io`],
//! [`random`] and [`timer`].

pub mod instruction;
pub mod io;
pub mod machine;
pub mod memory;
pub mod register;
pub mod settings;
pub mod random;
pub mod timer;
pub mod test_programs;
