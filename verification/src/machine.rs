//! The execution engine: it fetches the word at the program counter, decodes
//! it, asks the outside world what the instruction needs to know, and applies
//! the instruction to the registers and to memory.

use crate::instruction::{word_of_bytes, Instruction};
use crate::io::chip8_io::{Chip8IO, Chip8IOError, Chip8IOResult};
use crate::io::input::{Key, MapKey};
use crate::memory::{
    sprite_address_of, Address, ProgramLoader, MEMORY_SIZE, PROGRAM_MEMORY_SIZE, RAM,
};
use crate::random::RandomSource;
use crate::register::{Registers, RegistersView, FLAG_REGISTER};
use crate::settings::{BitShiftMode, MemoryMode, OnUnrecognizedInstruction, Settings};
use crate::timer::Timer;
use vstd::prelude::*;

verus! {

pub struct Machine<G: Chip8IO, R: RandomSource, T: Timer> {
    pub ram: RAM,
    pub registers: Registers,
    pub settings: Settings,
    pub io: G,
    pub random: R,
    pub timer: T,
}

/// Why a run stopped.
#[derive(Copy, Clone, Debug, PartialEq, Eq, Structural)]
pub enum RunError {
    /// The word at `address` matches no opcode, and the settings say to halt
    /// on such a word.
    UnsupportedInstruction { word: u16, address: Address },
    /// The display or the keypad failed while the instruction `word` at
    /// `address` was carried out.
    Io { error: Chip8IOError, word: u16, address: Address },
    /// The machine at `address` cannot take another step: the program counter
    /// has left memory, or the instruction there asks for a register, a digit,
    /// a key or a piece of memory that does not exist.
    Fault { address: Address },
}

pub type RunResult = Result<(), RunError>;

/// What an arithmetic instruction does to the flag register.
#[allow(non_camel_case_types)]
#[derive(Copy, Clone, Debug, PartialEq, Eq, Structural)]
pub enum FlagSideEffect {
    /// The flag register is left alone.
    NONE,
    /// The flag register becomes 1 for `true` and 0 for `false`.
    SET(bool),
}

/// The state that instructions act on: the register file and memory.
pub struct State {
    pub registers: RegistersView,
    pub memory: Seq<u8>,
}

/// The hundreds, tens and ones of a byte.
pub open spec fn decimal_digits(value: u8) -> (u8, u8, u8) {
    ((value / 100) as u8, ((value / 10) % 10) as u8, (value % 10) as u8)
}

/// What a register-to-register instruction computes from the target's value
/// `tv` and the source's value `sv`: the target's new value and what becomes
/// of the flag. Arithmetic wraps at eight bits. An addition flags a carry; a
/// subtraction flags that it did not borrow; a shift flags the bit that fell
/// off. Instructions of other kinds leave the target as it is.
pub open spec fn alu(instruction: Instruction, mode: BitShiftMode, tv: u8, sv: u8) -> (
    u8,
    FlagSideEffect,
) {
    let shifted = if mode is OneRegister {
        tv
    } else {
        sv
    };
    match instruction {
        Instruction::OrXY { .. } => (tv | sv, FlagSideEffect::NONE),
        Instruction::AndXY { .. } => (tv & sv, FlagSideEffect::NONE),
        Instruction::XorXY { .. } => (tv ^ sv, FlagSideEffect::NONE),
        Instruction::AddXY { .. } => (tv.wrapping_add(sv), FlagSideEffect::SET(tv + sv > u8::MAX)),
        Instruction::SubXY { .. } => (tv.wrapping_sub(sv), FlagSideEffect::SET(tv >= sv)),
        Instruction::SUBXYReverse { .. } => (
            sv.wrapping_sub(tv),
            FlagSideEffect::SET(sv >= tv),
        ),
        Instruction::ShrXY { .. } => ((shifted / 2) as u8, FlagSideEffect::SET(shifted % 2 == 1)),
        Instruction::ShlXY { .. } => (
            ((2 * shifted) % 256) as u8,
            FlagSideEffect::SET(shifted >= 0x80),
        ),
        _ => (tv, FlagSideEffect::NONE),
    }
}

impl RegistersView {
    /// The program counter moved past the next instruction, and past the one
    /// behind it too if `condition` holds.
    pub open spec fn skip_if(self, condition: bool) -> RegistersView {
        if condition {
            self.advance_pc().advance_pc()
        } else {
            self.advance_pc()
        }
    }

    /// The target register set to `value`, then the flag register set as
    /// `effect` says, then the program counter moved on. Where the target is
    /// the flag register itself, the flag wins.
    pub open spec fn flagging_op(
        self,
        target: u8,
        value: u8,
        effect: FlagSideEffect,
    ) -> RegistersView {
        let stored = self.set(target, value);
        match effect {
            FlagSideEffect::NONE => stored.advance_pc(),
            FlagSideEffect::SET(flag) => stored.set_flag(
                if flag {
                    1
                } else {
                    0
                },
            ).advance_pc(),
        }
    }

    /// The index register after a bulk transfer of the registers up to
    /// `max_register`.
    pub open spec fn transferred_i(self, mode: MemoryMode, max_register: u8) -> u16 {
        if mode is Advance {
            (self.i + max_register + 1) as u16
        } else {
            self.i
        }
    }
}

impl State {
    pub open spec fn with_registers(self, registers: RegistersView) -> State {
        State { registers, ..self }
    }

    /// The word that the program counter points at.
    pub open spec fn word_at_pc(self) -> u16 {
        word_of_bytes(self.memory[self.registers.pc as int], self.memory[self.registers.pc + 1])
    }

    /// There is all of memory, the register file is sound, and the program
    /// counter points at a word inside memory.
    pub open spec fn wf(self) -> bool {
        &&& self.memory.len() == MEMORY_SIZE
        &&& self.registers.wf()
        &&& self.registers.pc + 2 <= MEMORY_SIZE
    }

    /// Whether `instruction` can be carried out here: its operands name
    /// registers that exist, and what it reads or writes besides exists too.
    /// A return needs an address on the stack that the program counter can
    /// move on from; a digit sprite needs a digit; a key skip needs a key's
    /// number; and an instruction that goes to memory through `I` needs all
    /// the bytes it touches to lie inside memory.
    pub open spec fn admits(self, instruction: Instruction) -> bool {
        let registers = self.registers;
        &&& self.wf()
        &&& instruction.well_formed()
        &&& match instruction {
            Instruction::Return => registers.stack[registers.popped_sp() as int] + 2 <= u16::MAX,
            Instruction::DrawXYN { bytes, .. } => registers.i + bytes <= MEMORY_SIZE,
            Instruction::SkipPressedX { register }
            | Instruction::SkipNotPressedX { register }
            | Instruction::StoreSpriteX { register } => registers.get(register) <= 0xF,
            Instruction::StoreDecimal { .. } => registers.i + 3 <= MEMORY_SIZE,
            Instruction::WriteToMemory { max_register }
            | Instruction::ReadFromMemory { max_register } => registers.i + max_register + 1
                <= MEMORY_SIZE,
            _ => true,
        }
    }

    /// Whether the next step can be taken: the program counter points into
    /// memory, and if the word there is an instruction, it can be carried
    /// out.
    pub open spec fn ready(self) -> bool {
        &&& self.wf()
        &&& match Instruction::decode(self.word_at_pc()) {
            Some(instruction) => self.admits(instruction),
            None => true,
        }
    }

    /// The state after a decay tick, or the same state if none was due.
    pub open spec fn ticked(self, tick: bool) -> State {
        if tick {
            self.with_registers(self.registers.tick_timers())
        } else {
            self
        }
    }

    /// The state after `instruction` was carried out.
    ///
    /// `answer` is what the outside world had to say: for `Rand` the random
    /// byte, for `DrawXYN` whether a lit pixel went dark, for the two key
    /// skips whether the key is down, the last two as 1 or 0. No other
    /// instruction looks at it.
    pub open spec fn executed(
        self,
        settings: Settings,
        instruction: Instruction,
        answer: u8,
    ) -> State {
        let registers = self.registers;
        match instruction {
            Instruction::ClearScreen => self.with_registers(registers.advance_pc()),
            Instruction::Return => self.with_registers(registers.stack_return()),
            Instruction::JumpNNN { address } => self.with_registers(
                RegistersView { pc: address, ..registers },
            ),
            Instruction::CallNNN { address } => self.with_registers(registers.stack_call(address)),
            Instruction::SkipEqXNN { register, value } => self.with_registers(
                registers.skip_if(registers.get(register) == value),
            ),
            Instruction::SkipNeXNN { register, value } => self.with_registers(
                registers.skip_if(registers.get(register) != value),
            ),
            Instruction::SkipEqXY { register_x, register_y } => self.with_registers(
                registers.skip_if(registers.get(register_x) == registers.get(register_y)),
            ),
            Instruction::StoreXNN { register, value } => self.with_registers(
                registers.set(register, value).advance_pc(),
            ),
            Instruction::AddXNN { register, value } => self.with_registers(
                registers.set(register, registers.get(register).wrapping_add(value)).advance_pc(),
            ),
            Instruction::StoreXY { target, source } => self.with_registers(
                registers.set(target, registers.get(source)).advance_pc(),
            ),
            Instruction::OrXY { target, source }
            | Instruction::AndXY { target, source }
            | Instruction::XorXY { target, source }
            | Instruction::AddXY { target, source }
            | Instruction::SubXY { target, source }
            | Instruction::ShrXY { target, source }
            | Instruction::SUBXYReverse { target, source }
            | Instruction::ShlXY { target, source } => {
                let (value, effect) = alu(
                    instruction,
                    settings.bit_shift_mode,
                    registers.get(target),
                    registers.get(source),
                );
                self.with_registers(registers.flagging_op(target, value, effect))
            },
            Instruction::SkipNeXY { register_x, register_y } => self.with_registers(
                registers.skip_if(registers.get(register_x) != registers.get(register_y)),
            ),
            Instruction::StoreNNN { value } => self.with_registers(
                RegistersView { i: value, ..registers }.advance_pc(),
            ),
            Instruction::JumpV0 { address } => self.with_registers(
                RegistersView { pc: (address + registers.get(0)) as u16, ..registers },
            ),
            Instruction::Rand { register, mask } => self.with_registers(
                registers.set(register, answer & mask).advance_pc(),
            ),
            Instruction::DrawXYN { .. } => self.with_registers(
                registers.set_flag(
                    if answer != 0 {
                        1
                    } else {
                        0
                    },
                ).advance_pc(),
            ),
            Instruction::SkipPressedX { .. } => self.with_registers(registers.skip_if(answer != 0)),
            Instruction::SkipNotPressedX { .. } => self.with_registers(
                registers.skip_if(answer == 0),
            ),
            Instruction::StoreDelayInX { register } => self.with_registers(
                registers.set(register, registers.dt).advance_pc(),
            ),
            Instruction::SetDelayToX { register } => self.with_registers(
                RegistersView { dt: registers.get(register), ..registers }.advance_pc(),
            ),
            Instruction::SetSoundToX { register } => self.with_registers(
                RegistersView { st: registers.get(register), ..registers }.advance_pc(),
            ),
            Instruction::AddIX { register } => self.with_registers(
                RegistersView {
                    i: registers.i.wrapping_add(registers.get(register) as u16),
                    ..registers
                }.advance_pc(),
            ),
            Instruction::StoreSpriteX { register } => self.with_registers(
                RegistersView {
                    i: sprite_address_of(registers.get(register)) as u16,
                    ..registers
                }.advance_pc(),
            ),
            Instruction::StoreDecimal { register } => {
                let (high, mid, low) = decimal_digits(registers.get(register));
                let i = registers.i as int;
                State {
                    registers: registers.advance_pc(),
                    memory: self.memory.update(i, high).update(i + 1, mid).update(i + 2, low),
                }
            },
            Instruction::WriteToMemory { max_register } => {
                let i = registers.i as int;
                State {
                    registers: RegistersView {
                        i: registers.transferred_i(settings.memory_mode, max_register),
                        ..registers
                    }.advance_pc(),
                    memory: Seq::new(
                        self.memory.len(),
                        |address: int|
                            if i <= address <= i + max_register {
                                registers.v[address - i]
                            } else {
                                self.memory[address]
                            },
                    ),
                }
            },
            Instruction::ReadFromMemory { max_register } => {
                let i = registers.i as int;
                self.with_registers(
                    RegistersView {
                        i: registers.transferred_i(settings.memory_mode, max_register),
                        v: Seq::new(
                            registers.v.len(),
                            |index: int|
                                if index <= max_register {
                                    self.memory[i + index]
                                } else {
                                    registers.v[index]
                                },
                        ),
                        ..registers
                    }.advance_pc(),
                )
            },
        }
    }

    /// Whether one step may lead from this state to `after` with `result`,
    /// given that the timer policy said `tick` and the outside world answered
    /// the instruction with `answer`.
    ///
    /// The timers decay if a tick is due. Then the word at the program
    /// counter is decoded. An instruction is carried out, or, if it needs the
    /// display or keypad and they fail, stopped before it has changed
    /// anything. A word that is no instruction is stepped over where the
    /// settings say to skip, and ends the step with an error where they say
    /// to halt. Every error names the word and where it was.
    pub open spec fn steps_to(
        self,
        settings: Settings,
        tick: bool,
        answer: u8,
        result: RunResult,
        after: State,
    ) -> bool {
        let word = self.word_at_pc();
        let address = self.registers.pc;
        let ticked = self.ticked(tick);
        match Instruction::decode(word) {
            Some(instruction) => match result {
                Ok(()) => after == ticked.executed(settings, instruction, answer),
                Err(RunError::Io { word: w, address: a, .. }) => {
                    &&& asks_io(instruction)
                    &&& after == ticked
                    &&& w == word
                    &&& a == address
                },
                Err(_) => false,
            },
            None => match settings.on_unrecognized_instruction {
                OnUnrecognizedInstruction::Skip => {
                    &&& result is Ok
                    &&& after == ticked.with_registers(ticked.registers.advance_pc())
                },
                OnUnrecognizedInstruction::Halt => {
                    &&& result == Err::<(), RunError>(
                        RunError::UnsupportedInstruction { word, address },
                    )
                    &&& after == ticked
                },
            },
        }
    }
}

impl State {
    /// Whether `steps` successful steps may lead from this state to `after`.
    /// Every step starts from a state that is ready for it.
    pub open spec fn runs_to(self, settings: Settings, steps: nat, after: State) -> bool
        decreases steps,
    {
        if steps == 0 {
            after == self
        } else {
            exists|middle: State, tick: bool, answer: u8|
                {
                    &&& self.runs_to(settings, (steps - 1) as nat, middle)
                    &&& middle.ready()
                    &&& #[trigger] middle.steps_to(settings, tick, answer, Ok(()), after)
                }
        }
    }

    /// Whether a run of at most `gas` steps may lead from this state to
    /// `after` with `result`, the last of `steps` successful steps having
    /// led to `last`.
    ///
    /// A run that succeeds has taken all its steps. One that reports a fault
    /// has stopped in a state that is not ready for a step. Any other error
    /// is that of one more step, begun in a state that was ready for it.
    pub open spec fn run_ends(
        self,
        settings: Settings,
        gas: u64,
        steps: nat,
        last: State,
        result: RunResult,
        after: State,
    ) -> bool {
        &&& self.runs_to(settings, steps, last)
        &&& match result {
            Ok(()) => steps == gas && after == last,
            Err(RunError::Fault { address }) => {
                &&& steps < gas
                &&& after == last
                &&& !last.ready()
                &&& address == last.registers.pc
            },
            Err(_) => {
                &&& steps < gas
                &&& last.ready()
                &&& exists|tick: bool, answer: u8| #[trigger]
                    last.steps_to(settings, tick, answer, result, after)
            },
        }
    }
}

/// Whether what `instruction` does depends on an answer from the outside
/// world: a random byte, a collision or the state of a key.
pub open spec fn asks_outside(instruction: Instruction) -> bool {
    instruction is Rand || instruction is DrawXYN || instruction is SkipPressedX
        || instruction is SkipNotPressedX
}

/// An instruction that asks nothing of the outside world does the same
/// whatever the answer is taken to be.
pub proof fn lemma_answer_matters_to_askers_only(
    state: State,
    settings: Settings,
    instruction: Instruction,
    answer: u8,
    other: u8,
)
    requires
        !asks_outside(instruction),
    ensures
        state.executed(settings, instruction, answer) == state.executed(
            settings,
            instruction,
            other,
        ),
{
}

/// Addition and subtraction wrap at eight bits, and their flags tell whether
/// they did: an addition flags a carry, and a subtraction flags that it did
/// not have to borrow.
pub proof fn lemma_arithmetic_flags(
    target: u8,
    source: u8,
    mode: BitShiftMode,
    tv: u8,
    sv: u8,
)
    ensures
        alu(Instruction::AddXY { target, source }, mode, tv, sv) == ((
            ((tv + sv) % 256) as u8,
            FlagSideEffect::SET(tv + sv >= 256),
        )),
        alu(Instruction::SubXY { target, source }, mode, tv, sv) == ((
            ((tv - sv) % 256) as u8,
            FlagSideEffect::SET(tv - sv >= 0),
        )),
        alu(Instruction::SUBXYReverse { target, source }, mode, tv, sv) == ((
            ((sv - tv) % 256) as u8,
            FlagSideEffect::SET(sv - tv >= 0),
        )),
{
}

/// In one-register mode a shift does not look at the source register: it
/// computes the same from any value of it.
pub proof fn lemma_one_register_shift_ignores_source(
    instruction: Instruction,
    tv: u8,
    sv: u8,
    other: u8,
)
    requires
        instruction is ShrXY || instruction is ShlXY,
    ensures
        alu(instruction, BitShiftMode::OneRegister, tv, sv) == alu(
            instruction,
            BitShiftMode::OneRegister,
            tv,
            other,
        ),
{
}

/// In two-register mode a shift puts the shifted value of the source
/// register into the target and the bit that fell off into the flag
/// register, and leaves the source register as it was, unless the source is
/// the target or the flag register itself.
pub proof fn lemma_two_register_shift_reads_source(
    state: State,
    settings: Settings,
    target: u8,
    source: u8,
    answer: u8,
)
    requires
        settings.bit_shift_mode is TwoRegister,
        state.registers.wf(),
        target < 16,
        source < 16,
    ensures
        ({
            let sv = state.registers.get(source);
            let right = state.executed(settings, Instruction::ShrXY { target, source }, answer);
            let left = state.executed(settings, Instruction::ShlXY { target, source }, answer);
            &&& right.registers.flag() == sv % 2
            &&& left.registers.flag() == sv / 128
            &&& target != FLAG_REGISTER ==> right.registers.get(target) == sv / 2
            &&& target != FLAG_REGISTER ==> left.registers.get(target) == (2 * sv) % 256
            &&& source != target && source != FLAG_REGISTER ==> right.registers.get(source) == sv
            &&& source != target && source != FLAG_REGISTER ==> left.registers.get(source) == sv
        }),
{
}

/// An answer of 1 or 0 read back as what the display or keypad said: `true`
/// or `false`. An error is the capability's own.
pub open spec fn answer_as_flag(result: Chip8IOResult<u8>) -> Chip8IOResult<bool> {
    match result {
        Ok(answer) => Ok(answer != 0),
        Err(error) => Err(error),
    }
}

/// An answer to an instruction that only has the display do something, read
/// back as what the display said: that it is done, or its error.
pub open spec fn answer_as_done(result: Chip8IOResult<u8>) -> Chip8IOResult<()> {
    match result {
        Ok(_) => Ok(()),
        Err(error) => Err(error),
    }
}

/// Whether carrying out `instruction` takes a call to the display or the
/// keypad, which may fail.
pub open spec fn asks_io(instruction: Instruction) -> bool {
    instruction is ClearScreen || instruction is DrawXYN || instruction is SkipPressedX
        || instruction is SkipNotPressedX
}

/// What a draw instruction hands to the display: where the sprite goes, which
/// the two registers say, and the sprite's rows, which are the `bytes` bytes
/// of memory at `I`.
pub fn sprite_to_draw<'a>(
    registers: &Registers,
    ram: &'a RAM,
    x_register: u8,
    y_register: u8,
    bytes: u8,
) -> (request: (u8, u8, &'a [u8]))
    requires
        x_register < 16,
        y_register < 16,
        registers.i + bytes <= MEMORY_SIZE,
    ensures
        request.0 == registers@.get(x_register),
        request.1 == registers@.get(y_register),
        request.2@ == ram@.subrange(registers.i as int, registers.i + bytes),
{
    let x = registers.get_register(x_register);
    let y = registers.get_register(y_register);
    let sprite = ram.get_sprite_at_address(registers.i, bytes);
    (x, y, sprite)
}

/// The key that a key skip asks the keypad about: the one whose digit is in
/// the register.
pub fn key_to_ask(registers: &Registers, register: u8) -> (key: Key)
    requires
        register < 16,
        registers@.get(register) <= 0xF,
    ensures
        key.digit() == registers@.get(register),
{
    match registers.get_register(register).map_key() {
        Some(key) => key,
        None => Key::D0,
    }
}

/// The hundreds, tens and ones of a byte.
pub fn to_decimal_digits(value: u8) -> (digits: (u8, u8, u8))
    ensures
        digits == decimal_digits(value),
        value == 100 * digits.0 + 10 * digits.1 + digits.2,
        digits.0 <= 2,
        digits.1 <= 9,
        digits.2 <= 9,
{
    let high = (value / 100) % 10;
    let mid = (value / 10) % 10;
    let low = value % 10;
    (high, mid, low)
}

/// What a register-to-register instruction computes from the target's value
/// and the source's.
pub fn compute(instruction: &Instruction, mode: BitShiftMode, tv: u8, sv: u8) -> (result: (
    u8,
    FlagSideEffect,
))
    ensures
        result == alu(*instruction, mode, tv, sv),
{
    let shifted = match mode {
        BitShiftMode::OneRegister => tv,
        BitShiftMode::TwoRegister => sv,
    };
    match instruction {
        Instruction::OrXY { .. } => (tv | sv, FlagSideEffect::NONE),
        Instruction::AndXY { .. } => (tv & sv, FlagSideEffect::NONE),
        Instruction::XorXY { .. } => (tv ^ sv, FlagSideEffect::NONE),
        Instruction::AddXY { .. } => (
            tv.wrapping_add(sv),
            FlagSideEffect::SET(tv as u16 + sv as u16 > 0xFF),
        ),
        Instruction::SubXY { .. } => (tv.wrapping_sub(sv), FlagSideEffect::SET(tv >= sv)),
        Instruction::SUBXYReverse { .. } => (sv.wrapping_sub(tv), FlagSideEffect::SET(sv >= tv)),
        Instruction::ShrXY { .. } => (shifted / 2, FlagSideEffect::SET(shifted % 2 == 1)),
        Instruction::ShlXY { .. } => (
            ((2 * (shifted as u16)) % 256) as u8,
            FlagSideEffect::SET(shifted >= 0x80),
        ),
        _ => (tv, FlagSideEffect::NONE),
    }
}

impl<G, R, Tmr> Machine<G, R, Tmr> where G: Chip8IO, R: RandomSource, Tmr: Timer {
    /// The registers and memory as one value.
    pub open spec fn state(&self) -> State {
        State { registers: self.registers@, memory: self.ram@ }
    }

    /// Whether `other` has the same settings and the same three capabilities.
    pub open spec fn same_surroundings(&self, other: &Self) -> bool {
        &&& self.settings == other.settings
        &&& self.io == other.io
        &&& self.random == other.random
        &&& self.timer == other.timer
    }

    /// A machine with fresh memory and registers around the given
    /// capabilities.
    pub fn new(io: G, random: R, timer: Tmr, settings: Settings) -> (machine: Machine<G, R, Tmr>)
        ensures
            machine.ram@ == crate::memory::initial_memory(),
            machine.registers@ == RegistersView::initial(),
            machine.settings == settings,
            machine.io == io,
            machine.random == random,
            machine.timer == timer,
    {
        Machine { ram: RAM::new(), registers: Registers::new(), settings, io, random, timer }
    }

    /// Hands the program region of memory to `loader`.
    pub fn load_program<T, U>(&mut self, loader: T) -> (output: U) where
        T: ProgramLoader<Output = U>,

        requires
            loader.fits(PROGRAM_MEMORY_SIZE as nat),
        ensures
            loader.loads(old(self).ram.program(), final(self).ram.program(), output),
            final(self).ram.interpreter() == old(self).ram.interpreter(),
            final(self).registers == old(self).registers,
            final(self).same_surroundings(old(self)),
    {
        self.ram.load_program(loader)
    }

    /// Whether `instruction` can be carried out on the machine as it is.
    pub fn can_execute(&self, instruction: &Instruction) -> (admitted: bool)
        ensures
            admitted == self.state().admits(*instruction),
    {
        if self.registers.sp >= 16 || self.registers.pc as usize + 2 > MEMORY_SIZE
            || !instruction.is_well_formed() {
            return false;
        }
        let i = self.registers.i as usize;
        match *instruction {
            Instruction::Return => {
                let sp = if self.registers.sp == 0 {
                    15
                } else {
                    self.registers.sp - 1
                };
                self.registers.stack[sp as usize] <= u16::MAX - 2
            },
            Instruction::DrawXYN { bytes, .. } => i + bytes as usize <= MEMORY_SIZE,
            Instruction::SkipPressedX { register }
            | Instruction::SkipNotPressedX { register }
            | Instruction::StoreSpriteX { register } => self.registers.get_register(register)
                <= 0xF,
            Instruction::StoreDecimal { .. } => i + 3 <= MEMORY_SIZE,
            Instruction::WriteToMemory { max_register }
            | Instruction::ReadFromMemory { max_register } => i + max_register as usize + 1
                <= MEMORY_SIZE,
            _ => true,
        }
    }

    /// Whether the next step can be taken.
    pub fn can_step(&self) -> (ready: bool)
        ensures
            ready == self.state().ready(),
    {
        if self.registers.sp >= 16 || self.registers.pc as usize + 2 > MEMORY_SIZE {
            return false;
        }
        match Instruction::from_bytes(self.ram.get_instruction(self.registers.pc)) {
            Ok(instruction) => self.can_execute(&instruction),
            Err(_) => true,
        }
    }

    /// Takes steps until one fails. A machine that cannot take its next step
    /// is left as it is and reported as a fault. The machine never pauses
    /// between steps.
    ///
    /// A program is not expected to end, so neither is the run to return
    /// without an error. It does give up after `u64::MAX` steps, which at
    /// five hundred steps a second is a billion years away.
    pub fn run_program(&mut self) -> (result: RunResult)
        ensures
            final(self).settings == old(self).settings,
            exists|steps: nat, last: State| #[trigger]
                old(self).state().run_ends(
                    old(self).settings,
                    u64::MAX,
                    steps,
                    last,
                    result,
                    final(self).state(),
                ),
    {
        self.run_with_gas(u64::MAX)
    }

    /// Takes steps until one fails, `gas` steps at most. A machine that
    /// cannot take its next step is left as it is and reported as a fault.
    /// The machine never pauses between steps.
    ///
    /// What the capabilities answer on the way is not known here: the run is
    /// one that `State::run_ends` allows for some answers of theirs.
    pub fn run_with_gas(&mut self, gas: u64) -> (result: RunResult)
        ensures
            final(self).settings == old(self).settings,
            exists|steps: nat, last: State| #[trigger]
                old(self).state().run_ends(
                    old(self).settings,
                    gas,
                    steps,
                    last,
                    result,
                    final(self).state(),
                ),
    {
        let mut steps: u64 = 0;
        while steps < gas
            invariant
                steps <= gas,
                self.settings == old(self).settings,
                old(self).state().runs_to(self.settings, steps as nat, self.state()),
            decreases gas - steps,
        {
            let ghost last = self.state();
            if !self.can_step() {
                let result = Err(RunError::Fault { address: self.registers.pc });
                assert(old(self).state().run_ends(
                    self.settings,
                    gas,
                    steps as nat,
                    last,
                    result,
                    self.state(),
                ));
                return result;
            }
            let outcome = self.step_program();
            if outcome.is_err() {
                assert(old(self).state().run_ends(
                    self.settings,
                    gas,
                    steps as nat,
                    last,
                    outcome,
                    self.state(),
                ));
                return outcome;
            }
            proof {
                let (tick, answer) = choose|tick: bool, answer: u8| #[trigger]
                    last.steps_to(self.settings, tick, answer, outcome, self.state());
                assert(last.steps_to(self.settings, tick, answer, Ok(()), self.state()));
            }
            steps += 1;
        }
        assert(old(self).state().run_ends(
            self.settings,
            gas,
            steps as nat,
            self.state(),
            Ok(()),
            self.state(),
        ));
        Ok(())
    }

    /// One step: fetch the word at the program counter, let the timers decay
    /// if the timer policy says so, decode the word and carry it out. The
    /// pacing that the settings may ask for is left to whoever calls.
    ///
    /// What the timer policy, the random source, the display and the keypad
    /// answer is not known here: the step is what `State::steps_to` allows for
    /// some answer of theirs.
    pub fn step_program(&mut self) -> (result: RunResult)
        requires
            old(self).state().ready(),
        ensures
            final(self).settings == old(self).settings,
            exists|tick: bool, answer: u8| #[trigger]
                old(self).state().steps_to(
                    old(self).settings,
                    tick,
                    answer,
                    result,
                    final(self).state(),
                ),
    {
        let address = self.registers.pc;
        let instruction_bytes = self.ram.get_instruction(address);
        let word = (instruction_bytes[0] as u16) * 256 + instruction_bytes[1] as u16;
        let instruction = Instruction::from_bytes(instruction_bytes);
        let tick = self.timer.should_tick();
        if tick {
            self.registers.tick_timers();
        }
        let ghost before = old(self).state();
        let ghost ticked = before.ticked(tick);
        match instruction {
            Ok(instruction) => {
                match self.step(&instruction) {
                    Ok(()) => {
                        proof {
                            let answer = choose|answer: u8|
                                self.state() == #[trigger] ticked.executed(
                                    self.settings,
                                    instruction,
                                    answer,
                                );
                            assert(before.steps_to(
                                self.settings,
                                tick,
                                answer,
                                Ok(()),
                                self.state(),
                            ));
                        }
                        Ok(())
                    },
                    Err(error) => {
                        let result = Err(RunError::Io { error, word, address });
                        assert(before.steps_to(self.settings, tick, 0, result, self.state()));
                        result
                    },
                }
            },
            Err(_) => {
                match self.settings.on_unrecognized_instruction {
                    OnUnrecognizedInstruction::Skip => {
                        self.registers.advance_pc();
                        assert(before.steps_to(self.settings, tick, 0, Ok(()), self.state()));
                        Ok(())
                    },
                    OnUnrecognizedInstruction::Halt => {
                        let result = Err(RunError::UnsupportedInstruction { word, address });
                        assert(before.steps_to(self.settings, tick, 0, result, self.state()));
                        result
                    },
                }
            },
        }
    }

    /// Carries out one instruction: asks the outside world what the
    /// instruction needs to know, then applies the instruction with the
    /// answer.
    ///
    /// An instruction that asks nothing of the display or keypad always
    /// succeeds. When the display or keypad fails, the machine's registers
    /// and memory are as they were.
    pub fn step(&mut self, instruction: &Instruction) -> (result: Chip8IOResult<()>)
        requires
            old(self).state().admits(*instruction),
        ensures
            final(self).settings == old(self).settings,
            final(self).timer == old(self).timer,
            !asks_io(*instruction) ==> final(self).io == old(self).io,
            !(*instruction is Rand) ==> final(self).random == old(self).random,
            match result {
                Ok(()) => exists|answer: u8|
                    final(self).state() == #[trigger] old(self).state().executed(
                        old(self).settings,
                        *instruction,
                        answer,
                    ),
                Err(_) => final(self).state() == old(self).state() && asks_io(*instruction),
            },
    {
        match self.ask_outside(instruction) {
            Ok(answer) => {
                self.execute(instruction, answer);
                Ok(())
            },
            Err(error) => Err(error),
        }
    }

    /// Gets from the outside world what `instruction` needs to know.
    ///
    /// `Rand` draws one byte from the random source. `ClearScreen` clears
    /// the display. `DrawXYN` has the display draw the `bytes` rows that lie
    /// in memory at `I` from (`Vx`, `Vy`), and learns whether a lit pixel
    /// went dark. The key skips ask the keypad whether the key whose digit is
    /// in `Vx` is down. Each of these is one call of the capability with just
    /// these arguments, and the answer is what the call gave: the byte, or 1
    /// for `true` and 0 for `false`, or the call's error. Every other
    /// instruction gets 0 without anything being asked.
    ///
    /// The registers and memory are not touched, and neither is a capability
    /// that was not called.
    pub fn ask_outside(&mut self, instruction: &Instruction) -> (result: Chip8IOResult<u8>)
        requires
            old(self).state().admits(*instruction),
        ensures
            final(self).state() == old(self).state(),
            final(self).settings == old(self).settings,
            final(self).timer == old(self).timer,
            match *instruction {
                Instruction::Rand { .. } => {
                    &&& result matches Ok(byte) && old(self).random.gives(
                        byte,
                        &final(self).random,
                    )
                    &&& final(self).io == old(self).io
                },
                Instruction::ClearScreen => {
                    &&& old(self).io.clears(answer_as_done(result), &final(self).io)
                    &&& result matches Ok(answer) ==> answer == 0
                    &&& final(self).random == old(self).random
                },
                Instruction::DrawXYN { x_register, y_register, bytes } => {
                    &&& old(self).io.draws(
                        old(self).registers@.get(x_register),
                        old(self).registers@.get(y_register),
                        old(self).ram@.subrange(
                            old(self).registers.i as int,
                            old(self).registers.i + bytes,
                        ),
                        answer_as_flag(result),
                        &final(self).io,
                    )
                    &&& result matches Ok(answer) ==> answer <= 1
                    &&& final(self).random == old(self).random
                },
                Instruction::SkipPressedX { register }
                | Instruction::SkipNotPressedX { register } => {
                    &&& exists|key: Key|
                        {
                            &&& key.digit() == old(self).registers@.get(register)
                            &&& #[trigger] old(self).io.answers_for_key(
                                key,
                                answer_as_flag(result),
                                &final(self).io,
                            )
                        }
                    &&& result matches Ok(answer) ==> answer <= 1
                    &&& final(self).random == old(self).random
                },
                _ => {
                    &&& result == Ok::<u8, Chip8IOError>(0)
                    &&& final(self).io == old(self).io
                    &&& final(self).random == old(self).random
                },
            },
    {
        match *instruction {
            Instruction::ClearScreen => {
                let outcome = self.io.clear();
                let result = match outcome {
                    Ok(done) => {
                        assert(done == ());
                        Ok(0)
                    },
                    Err(error) => Err(error),
                };
                assert(answer_as_done(result) == outcome);
                result
            },
            Instruction::Rand { .. } => Ok(self.random.gen()),
            Instruction::DrawXYN { x_register, y_register, bytes } => {
                let (x, y, sprite) = sprite_to_draw(
                    &self.registers,
                    &self.ram,
                    x_register,
                    y_register,
                    bytes,
                );
                let outcome = self.io.draw(x, y, sprite);
                let result = match outcome {
                    Ok(flipped) => Ok(
                        if flipped {
                            1
                        } else {
                            0
                        },
                    ),
                    Err(error) => Err(error),
                };
                assert(answer_as_flag(result) == outcome);
                result
            },
            Instruction::SkipPressedX { register } | Instruction::SkipNotPressedX { register } => {
                let key = key_to_ask(&self.registers, register);
                let outcome = self.io.key_pressed(key);
                let result = match outcome {
                    Ok(pressed) => Ok(
                        if pressed {
                            1
                        } else {
                            0
                        },
                    ),
                    Err(error) => Err(error),
                };
                assert(answer_as_flag(result) == outcome);
                assert(old(self).io.answers_for_key(key, answer_as_flag(result), &self.io));
                result
            },
            _ => Ok(0),
        }
    }

    /// Applies `instruction` to the registers and to memory, with `answer`
    /// for what the outside world had to say.
    pub fn execute(&mut self, instruction: &Instruction, answer: u8)
        requires
            old(self).state().admits(*instruction),
        ensures
            final(self).state() == old(self).state().executed(
                old(self).settings,
                *instruction,
                answer,
            ),
            final(self).same_surroundings(old(self)),
    {
        match *instruction {
            Instruction::ClearScreen => {
                self.registers.advance_pc();
            },
            Instruction::Return => {
                self.registers.stack_return();
            },
            Instruction::JumpNNN { address } => {
                self.registers.pc = address;
            },
            Instruction::CallNNN { address } => {
                self.registers.stack_call(address);
            },
            Instruction::SkipEqXNN { register, value } => {
                let register_value = self.registers.get_register(register);
                self.skip_if(register_value == value);
            },
            Instruction::SkipNeXNN { register, value } => {
                let register_value = self.registers.get_register(register);
                self.skip_if(register_value != value);
            },
            Instruction::SkipEqXY { register_x, register_y } => {
                let value_x = self.registers.get_register(register_x);
                let value_y = self.registers.get_register(register_y);
                self.skip_if(value_x == value_y);
            },
            Instruction::StoreXNN { register, value } => {
                self.registers.set_register(register, value);
                self.registers.advance_pc();
            },
            Instruction::AddXNN { register, value } => {
                let value = self.registers.get_register(register).wrapping_add(value);
                self.registers.set_register(register, value);
                self.registers.advance_pc();
            },
            Instruction::StoreXY { target, source } => {
                let source_value = self.registers.get_register(source);
                self.registers.set_register(target, source_value);
                self.registers.advance_pc();
            },
            Instruction::OrXY { target, source }
            | Instruction::AndXY { target, source }
            | Instruction::XorXY { target, source }
            | Instruction::AddXY { target, source }
            | Instruction::SubXY { target, source }
            | Instruction::ShrXY { target, source }
            | Instruction::SUBXYReverse { target, source }
            | Instruction::ShlXY { target, source } => {
                self.op(instruction, target, source);
            },
            Instruction::SkipNeXY { register_x, register_y } => {
                let value_x = self.registers.get_register(register_x);
                let value_y = self.registers.get_register(register_y);
                self.skip_if(value_x != value_y);
            },
            Instruction::StoreNNN { value } => {
                self.registers.i = value;
                self.registers.advance_pc();
            },
            Instruction::JumpV0 { address } => {
                let offset = self.registers.get_register(0);
                self.registers.pc = address + offset as u16;
            },
            Instruction::Rand { register, mask } => {
                self.registers.set_register(register, answer & mask);
                self.registers.advance_pc();
            },
            Instruction::DrawXYN { .. } => {
                self.registers.set_flag(
                    if answer != 0 {
                        1
                    } else {
                        0
                    },
                );
                self.registers.advance_pc();
            },
            Instruction::SkipPressedX { .. } => {
                self.skip_if(answer != 0);
            },
            Instruction::SkipNotPressedX { .. } => {
                self.skip_if(answer == 0);
            },
            Instruction::StoreDelayInX { register } => {
                let value = self.registers.dt;
                self.registers.set_register(register, value);
                self.registers.advance_pc();
            },
            Instruction::SetDelayToX { register } => {
                let value = self.registers.get_register(register);
                self.registers.dt = value;
                self.registers.advance_pc();
            },
            Instruction::SetSoundToX { register } => {
                let value = self.registers.get_register(register);
                self.registers.st = value;
                self.registers.advance_pc();
            },
            Instruction::AddIX { register } => {
                let value = self.registers.get_register(register);
                self.registers.i = self.registers.i.wrapping_add(value as u16);
                self.registers.advance_pc();
            },
            Instruction::StoreSpriteX { register } => {
                let value = self.registers.get_register(register);
                let address = self.ram.get_address_of_sprite(value);
                self.registers.i = address;
                self.registers.advance_pc();
            },
            Instruction::StoreDecimal { register } => {
                let value = self.registers.get_register(register);
                let address = self.registers.i;
                let (high, mid, low) = to_decimal_digits(value);
                let memory = self.ram.address_mut(address);
                memory[0] = high;
                memory[1] = mid;
                memory[2] = low;
                self.registers.advance_pc();
                assert(self.ram@ =~= old(self).state().executed(
                    old(self).settings,
                    *instruction,
                    answer,
                ).memory);
            },
            Instruction::WriteToMemory { max_register } => {
                self.write_to_memory(max_register);
            },
            Instruction::ReadFromMemory { max_register } => {
                self.read_from_memory(max_register);
            },
        }
    }

    /// Moves the program counter past the next instruction, and past the one
    /// behind it too if `condition` holds.
    fn skip_if(&mut self, condition: bool)
        requires
            old(self).registers.pc + 4 <= u16::MAX,
        ensures
            final(self).registers@ == old(self).registers@.skip_if(condition),
            final(self).ram == old(self).ram,
            final(self).same_surroundings(old(self)),
    {
        self.registers.advance_pc();
        if condition {
            self.registers.advance_pc();
        }
    }

    /// Carries out a register-to-register instruction: computes the target's
    /// new value, stores it, sets the flag if the instruction has one, and
    /// moves the program counter on.
    fn op(&mut self, instruction: &Instruction, target: u8, source: u8)
        requires
            target < 16,
            source < 16,
            old(self).registers.pc + 2 <= u16::MAX,
        ensures
            final(self).registers@ == ({
                let registers = old(self).registers@;
                let (value, effect) = alu(
                    *instruction,
                    old(self).settings.bit_shift_mode,
                    registers.get(target),
                    registers.get(source),
                );
                registers.flagging_op(target, value, effect)
            }),
            final(self).ram == old(self).ram,
            final(self).same_surroundings(old(self)),
    {
        let source_value = self.registers.get_register(source);
        let target_value = self.registers.get_register(target);
        let (value, flag_effect) = compute(
            instruction,
            self.settings.bit_shift_mode,
            target_value,
            source_value,
        );
        self.flagging_op(target, value, flag_effect);
    }

    /// Stores `value` in the target register, sets the flag register as
    /// `flag_effect` says, and moves the program counter on.
    fn flagging_op(&mut self, target: u8, value: u8, flag_effect: FlagSideEffect)
        requires
            target < 16,
            old(self).registers.pc + 2 <= u16::MAX,
        ensures
            final(self).registers@ == old(self).registers@.flagging_op(target, value, flag_effect),
            final(self).ram == old(self).ram,
            final(self).same_surroundings(old(self)),
    {
        self.registers.set_register(target, value);
        if let FlagSideEffect::SET(flag) = flag_effect {
            self.registers.set_flag(
                if flag {
                    1
                } else {
                    0
                },
            );
        }
        self.registers.advance_pc();
    }

    /// Copies the registers `V0` to `Vmax` to memory at `I`.
    fn write_to_memory(&mut self, max_register: u8)
        requires
            old(self).state().admits(Instruction::WriteToMemory { max_register }),
        ensures
            final(self).state() == old(self).state().executed(
                old(self).settings,
                Instruction::WriteToMemory { max_register },
                0,
            ),
            final(self).same_surroundings(old(self)),
    {
        let start = self.registers.i as usize;
        let mut index: usize = 0;
        while index <= max_register as usize
            invariant
                index <= max_register + 1,
                max_register < 16,
                start == old(self).registers.i,
                start + max_register + 1 <= MEMORY_SIZE,
                self.registers == old(self).registers,
                self.same_surroundings(old(self)),
                self.ram@.len() == MEMORY_SIZE,
                forall|address: int|
                    0 <= address < MEMORY_SIZE ==> self.ram@[address] == if start <= address < start
                        + index {
                        old(self).registers@.v[address - start]
                    } else {
                        old(self).ram@[address]
                    },
            decreases max_register + 1 - index,
        {
            self.ram.value[start + index] = self.registers.v[index];
            index += 1;
        }
        if let MemoryMode::Advance = self.settings.memory_mode {
            self.registers.i += max_register as u16 + 1;
        }
        self.registers.advance_pc();
        assert(self.ram@ =~= old(self).state().executed(
            old(self).settings,
            Instruction::WriteToMemory { max_register },
            0,
        ).memory);
    }

    /// Copies memory at `I` to the registers `V0` to `Vmax`.
    fn read_from_memory(&mut self, max_register: u8)
        requires
            old(self).state().admits(Instruction::ReadFromMemory { max_register }),
        ensures
            final(self).state() == old(self).state().executed(
                old(self).settings,
                Instruction::ReadFromMemory { max_register },
                0,
            ),
            final(self).same_surroundings(old(self)),
    {
        let start = self.registers.i as usize;
        let mut index: usize = 0;
        while index <= max_register as usize
            invariant
                index <= max_register + 1,
                max_register < 16,
                start == old(self).registers.i,
                start + max_register + 1 <= MEMORY_SIZE,
                self.ram == old(self).ram,
                self.same_surroundings(old(self)),
                self.registers@ == (RegistersView {
                    v: self.registers@.v,
                    ..old(self).registers@
                }),
                forall|register: int|
                    0 <= register < 16 ==> self.registers@.v[register] == if register < index {
                        old(self).ram@[start + register]
                    } else {
                        old(self).registers@.v[register]
                    },
            decreases max_register + 1 - index,
        {
            self.registers.v[index] = self.ram.value[start + index];
            index += 1;
        }
        if let MemoryMode::Advance = self.settings.memory_mode {
            self.registers.i += max_register as u16 + 1;
        }
        self.registers.advance_pc();
        assert(self.registers@.v =~= old(self).state().executed(
            old(self).settings,
            Instruction::ReadFromMemory { max_register },
            0,
        ).registers.v);
    }
}

} // verus!
