//! Per-run configuration of the machine: the quirks that programs depend on,
//! the policy for words that match no opcode, and the pacing of the run loop.

use std::time::Duration;
use vstd::prelude::*;

verus! {

/// Which register `ShrXY` and `ShlXY` take their operand from.
#[derive(Copy, Clone)]
pub enum BitShiftMode {
    /// Shift the source register and store the result in the target.
    TwoRegister,
    /// Shift the target register in place; the source register is ignored.
    OneRegister,
}

/// How fast a run is allowed to go. The machine itself never waits: the
/// pause is for whoever drives its steps to take.
#[derive(Copy, Clone)]
pub enum ClockSpeed {
    /// Run as fast as the host allows.
    Unlimited,
    /// Pause for `instruction_time` on every step.
    Limited { instruction_time: Duration },
}

/// Whether bulk transfers between registers and memory move `I`.
#[derive(Copy, Clone)]
pub enum MemoryMode {
    /// `I` ends one past the last byte transferred.
    Advance,
    /// `I` is left where it was.
    NoAdvance,
}

/// What a step does with a word that matches no opcode.
#[derive(Copy, Clone)]
pub enum OnUnrecognizedInstruction {
    /// Step over the word and go on.
    Skip,
    /// Stop the run with an error that names the word.
    Halt,
}

#[derive(Copy, Clone)]
pub struct Settings {
    pub bit_shift_mode: BitShiftMode,
    pub clock_speed: ClockSpeed,
    pub memory_mode: MemoryMode,
    pub on_unrecognized_instruction: OnUnrecognizedInstruction,
}

impl Settings {
    pub fn with_bit_shift_mode(self, bit_shift_mode: BitShiftMode) -> (settings: Self)
        ensures
            settings == (Settings { bit_shift_mode, ..self }),
    {
        Settings { bit_shift_mode, ..self }
    }

    pub fn with_clock_speed(self, clock_speed: ClockSpeed) -> (settings: Self)
        ensures
            settings == (Settings { clock_speed, ..self }),
    {
        Settings { clock_speed, ..self }
    }

    pub fn with_memory_mode(self, memory_mode: MemoryMode) -> (settings: Self)
        ensures
            settings == (Settings { memory_mode, ..self }),
    {
        Settings { memory_mode, ..self }
    }

    pub fn with_on_unrecognized_instruction(
        self,
        on_unrecognized_instruction: OnUnrecognizedInstruction,
    ) -> (settings: Self)
        ensures
            settings == (Settings { on_unrecognized_instruction, ..self }),
    {
        Settings { on_unrecognized_instruction, ..self }
    }
}

impl Default for Settings {
    /// One-register shifts, no pacing, `I` left alone by bulk transfers, and a
    /// halt on the first unrecognized word.
    ///
    /// Programs differ in the quirks they were written for, and no choice
    /// suits them all: these are a starting point, and each can be changed
    /// with the builder for it.
    fn default() -> (settings: Self)
        ensures
            settings.bit_shift_mode is OneRegister,
            settings.clock_speed is Unlimited,
            settings.memory_mode is NoAdvance,
            settings.on_unrecognized_instruction is Halt,
    {
        Settings {
            bit_shift_mode: BitShiftMode::OneRegister,
            clock_speed: ClockSpeed::Unlimited,
            memory_mode: MemoryMode::NoAdvance,
            on_unrecognized_instruction: OnUnrecognizedInstruction::Halt,
        }
    }
}

} // verus!
