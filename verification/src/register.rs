//! The register file: the sixteen general registers, the index register, the
//! program counter, the call stack with its pointer, and the two timers.

use crate::memory;
use vstd::prelude::*;

verus! {

/// The register that instructions use for carry, borrow and collision.
pub const FLAG_REGISTER: u8 = 0xF;

pub const STACK_SIZE: u8 = 16;

pub struct Registers {
    pub v: [u8; 16],
    pub i: memory::Address,
    pub pc: memory::Address,
    pub sp: u8,
    pub dt: u8,
    pub st: u8,
    pub stack: [memory::Address; 16],
}

/// The register file as a mathematical value.
pub struct RegistersView {
    pub v: Seq<u8>,
    pub i: memory::Address,
    pub pc: memory::Address,
    pub sp: u8,
    pub dt: u8,
    pub st: u8,
    pub stack: Seq<memory::Address>,
}

impl View for Registers {
    type V = RegistersView;

    open spec fn view(&self) -> RegistersView {
        RegistersView {
            v: self.v@,
            i: self.i,
            pc: self.pc,
            sp: self.sp,
            dt: self.dt,
            st: self.st,
            stack: self.stack@,
        }
    }
}

/// A timer after one tick: one less, but never below zero.
pub open spec fn decayed(timer: u8) -> u8 {
    if timer >= 1 {
        (timer - 1) as u8
    } else {
        0
    }
}

impl RegistersView {
    /// There are sixteen registers and sixteen stack slots, and the stack
    /// pointer names one of the slots.
    pub open spec fn wf(self) -> bool {
        &&& self.v.len() == 16
        &&& self.stack.len() == STACK_SIZE
        &&& self.sp < STACK_SIZE
    }

    /// The registers as `Registers::new` makes them.
    pub open spec fn initial() -> RegistersView {
        RegistersView {
            v: Seq::new(16, |index: int| 0u8),
            i: 0,
            pc: 0x200,
            sp: 0,
            dt: 0,
            st: 0,
            stack: Seq::new(16, |slot: int| 0u16),
        }
    }

    pub open spec fn get(self, index: u8) -> u8 {
        self.v[index as int]
    }

    pub open spec fn set(self, index: u8, value: u8) -> RegistersView {
        RegistersView { v: self.v.update(index as int, value), ..self }
    }

    pub open spec fn flag(self) -> u8 {
        self.get(FLAG_REGISTER)
    }

    pub open spec fn set_flag(self, value: u8) -> RegistersView {
        self.set(FLAG_REGISTER, value)
    }

    /// The program counter moved on by one instruction.
    pub open spec fn advance_pc(self) -> RegistersView {
        RegistersView { pc: (self.pc + 2) as u16, ..self }
    }

    /// Both timers after one decay tick.
    pub open spec fn tick_timers(self) -> RegistersView {
        RegistersView { dt: decayed(self.dt), st: decayed(self.st), ..self }
    }

    /// The stack pointer after a push. It wraps: a seventeenth call writes
    /// over the oldest return address.
    pub open spec fn pushed_sp(self) -> u8 {
        ((self.sp + 1) % (STACK_SIZE as int)) as u8
    }

    /// The stack pointer after a pop. It wraps the other way.
    pub open spec fn popped_sp(self) -> u8 {
        if self.sp == 0 {
            (STACK_SIZE - 1) as u8
        } else {
            (self.sp - 1) as u8
        }
    }

    /// A call: the program counter goes onto the stack and then to the low
    /// twelve bits of `address`.
    pub open spec fn stack_call(self, address: memory::Address) -> RegistersView {
        RegistersView {
            stack: self.stack.update(self.sp as int, self.pc),
            sp: self.pushed_sp(),
            pc: (address % 0x1000) as u16,
            ..self
        }
    }

    /// A return: the program counter comes off the stack and moves on past
    /// the call that put it there.
    pub open spec fn stack_return(self) -> RegistersView {
        RegistersView {
            sp: self.popped_sp(),
            pc: self.stack[self.popped_sp() as int],
            ..self
        }.advance_pc()
    }
}

impl Registers {
    pub fn new() -> (registers: Registers)
        ensures
            registers@ == RegistersView::initial(),
    {
        let registers = Registers {
            v: [0;16],
            i: 0,
            pc: 0x200,
            sp: 0,
            dt: 0,
            st: 0,
            stack: [0;16],
        };
        assert(registers@.v =~= RegistersView::initial().v);
        assert(registers@.stack =~= RegistersView::initial().stack);
        registers
    }

    pub fn set_register(&mut self, index: u8, value: u8)
        requires
            index < 16,
        ensures
            final(self)@ == old(self)@.set(index, value),
    {
        self.v[index as usize] = value;
    }

    pub fn get_register(&self, index: u8) -> (value: u8)
        requires
            index < 16,
        ensures
            value == self@.get(index),
    {
        self.v[index as usize]
    }

    pub fn set_flag(&mut self, value: u8)
        ensures
            final(self)@ == old(self)@.set_flag(value),
    {
        self.set_register(FLAG_REGISTER, value);
    }

    pub fn get_flag(&self) -> (value: u8)
        ensures
            value == self@.flag(),
    {
        self.get_register(FLAG_REGISTER)
    }

    /// Moves the program counter on by one instruction, which is two bytes.
    pub fn advance_pc(&mut self)
        requires
            old(self).pc + 2 <= u16::MAX,
        ensures
            final(self)@ == old(self)@.advance_pc(),
    {
        self.pc += 2;
    }

    /// One decay tick: each timer that is not yet zero goes down by one.
    pub fn tick_timers(&mut self)
        ensures
            final(self)@ == old(self)@.tick_timers(),
    {
        self.dt = if self.dt >= 1 {
            self.dt - 1
        } else {
            self.dt
        };
        self.st = if self.st >= 1 {
            self.st - 1
        } else {
            self.st
        };
    }

    /// Pushes the program counter and jumps to `address`. The program counter
    /// is not advanced: the routine's first instruction is at `address`.
    pub fn stack_call(&mut self, address: memory::Address)
        requires
            old(self)@.wf(),
        ensures
            final(self)@ == old(self)@.stack_call(address),
            final(self)@.wf(),
    {
        self.stack[self.sp as usize] = self.pc;
        self.sp = (self.sp + 1) % STACK_SIZE;
        assert(address & 0xFFF == address % 0x1000) by (bit_vector);
        self.pc = address & 0xFFF;
    }

    /// Pops the program counter and advances it: the address on the stack is
    /// that of the call, and the run goes on behind it.
    pub fn stack_return(&mut self)
        requires
            old(self)@.wf(),
            old(self)@.stack[old(self)@.popped_sp() as int] + 2 <= u16::MAX,
        ensures
            final(self)@ == old(self)@.stack_return(),
            final(self)@.wf(),
    {
        self.sp = if self.sp == 0 {
            STACK_SIZE - 1
        } else {
            self.sp - 1
        };
        self.pc = self.stack[self.sp as usize];
        self.advance_pc();
    }
}

/// A call followed by a return leaves the program counter one instruction
/// behind where it was and the stack pointer where it was. The registers,
/// the index register and the timers are not touched; of the stack, only the
/// slot that held the return address may differ.
pub proof fn lemma_call_then_return(registers: RegistersView, address: memory::Address)
    requires
        registers.wf(),
        registers.pc + 2 <= u16::MAX,
    ensures
        registers.stack_call(address).stack_return() == (RegistersView {
            stack: registers.stack.update(registers.sp as int, registers.pc),
            ..registers.advance_pc()
        }),
{
}

} // verus!
