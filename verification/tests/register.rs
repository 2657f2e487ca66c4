use crust_8::register::Registers;

#[test]
fn advance_pc() {
    let mut registers = Registers::new();

    assert_eq!(0x200, registers.pc);
    registers.advance_pc();
    assert_eq!(0x202, registers.pc);

    registers.pc = 0x544;
    registers.advance_pc();
    assert_eq!(0x546, registers.pc);
    registers.advance_pc();
    assert_eq!(0x548, registers.pc);
}

#[test]
fn tick_timers() {
    let mut registers = Registers::new();

    registers.dt = 4;
    registers.st = 3;

    registers.tick_timers();
    assert_eq!(3, registers.dt);
    assert_eq!(2, registers.st);

    registers.tick_timers();
    assert_eq!(2, registers.dt);
    assert_eq!(1, registers.st);

    registers.tick_timers();
    assert_eq!(1, registers.dt);
    assert_eq!(0, registers.st);

    registers.tick_timers();
    assert_eq!(0, registers.dt);
    assert_eq!(0, registers.st);

    registers.tick_timers();
    assert_eq!(0, registers.dt);
    assert_eq!(0, registers.st);
}

#[test]
fn test_call_return() {
    let mut registers = Registers::new();

    let start_pc = registers.pc;

    registers.stack_call(0x500);
    assert_eq!(start_pc, registers.stack[0]);
    assert_eq!(1, registers.sp);
    assert_eq!(0x500, registers.pc);

    registers.stack_return();
    assert_eq!(start_pc, registers.stack[0]);
    assert_eq!(0, registers.sp);
    assert_eq!(start_pc + 2, registers.pc);
}

#[test]
fn new_registers_are_zero_and_start_at_0x200() {
    let registers = Registers::new();

    assert_eq!([0; 16], registers.v);
    assert_eq!([0; 16], registers.stack);
    assert_eq!(0, registers.i);
    assert_eq!(0x200, registers.pc);
    assert_eq!(0, registers.sp);
    assert_eq!(0, registers.dt);
    assert_eq!(0, registers.st);
}

#[test]
fn the_flag_is_register_fifteen() {
    let mut registers = Registers::new();

    registers.set_flag(0x42);
    assert_eq!(0x42, registers.get_register(0xF));
    assert_eq!(0x42, registers.v[15]);

    registers.set_register(0xF, 7);
    assert_eq!(7, registers.get_flag());

    registers.set_register(3, 9);
    assert_eq!(9, registers.get_register(3));
    assert_eq!(7, registers.get_flag());
}

#[test]
fn a_call_keeps_the_low_twelve_bits_of_its_target() {
    let mut registers = Registers::new();

    registers.stack_call(0xF123);
    assert_eq!(0x123, registers.pc);
}

#[test]
fn calls_nest_and_return_in_reverse() {
    for depth in 1..=16u16 {
        let mut registers = Registers::new();
        registers.pc = 0x300;

        for call in 0..depth {
            registers.stack_call(0x400 + 2 * call);
        }
        assert_eq!((depth % 16) as u8, registers.sp);

        for call in (1..depth).rev() {
            registers.stack_return();
            assert_eq!(0x400 + 2 * (call - 1) + 2, registers.pc);
        }
        registers.stack_return();
        assert_eq!(0x302, registers.pc);
        assert_eq!(0, registers.sp);
    }
}

#[test]
fn the_stack_wraps_after_sixteen_calls() {
    let mut registers = Registers::new();
    registers.pc = 0x300;

    for call in 0..17u16 {
        registers.stack_call(0x400 + 2 * call);
    }

    // The seventeenth call wrote over the first return address.
    assert_eq!(1, registers.sp);
    assert_eq!(0x400 + 2 * 15, registers.stack[0]);
    assert_eq!(0x400, registers.stack[1]);
}

#[test]
fn a_return_on_an_empty_stack_wraps_to_the_last_slot() {
    let mut registers = Registers::new();
    registers.stack[15] = 0x246;

    registers.stack_return();
    assert_eq!(15, registers.sp);
    assert_eq!(0x248, registers.pc);
}
