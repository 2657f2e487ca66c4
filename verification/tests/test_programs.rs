use crust_8::instruction::Instruction;
use crust_8::io::graphics::GraphicsBuffer;
use crust_8::io::headless_io::HeadlessIO;
use crust_8::machine::Machine;
use crust_8::memory::HEX_SPRITES;
use crust_8::random::FixedRandomSource;
use crust_8::settings::Settings;
use crust_8::test_programs::default_sprites;
use crust_8::timer::InstructionTimer;

#[test]
fn the_default_sprites_program_draws_all_sixteen_digits() {
    let program = default_sprites::get();
    assert_eq!(54, program.len());
    assert!(program.iter().all(Instruction::is_well_formed));

    let mut machine = Machine::new(
        HeadlessIO::new(),
        FixedRandomSource::new(vec![0]),
        InstructionTimer::new(),
        Settings::default(),
    );
    machine.load_program(&program);
    for _ in 0..program.len() {
        machine.step_program().unwrap();
    }
    assert_eq!(0x200 + 2 * 54, machine.registers.pc);
    assert_eq!(5 * 16, machine.registers.i);

    // Ten digits from (1, 1) on and six more from (1, 7) on, five columns
    // apart.
    let mut expected = GraphicsBuffer::new();
    for digit in 0..16u8 {
        let (x, y) = if digit < 10 {
            (1 + 5 * digit, 1)
        } else {
            (1 + 5 * (digit - 10), 7)
        };
        expected.draw(x, y, &HEX_SPRITES[digit as usize]);
    }
    assert_eq!(expected.buffer, machine.io.graphics_buffer.buffer);
    assert_eq!(Some(true), machine.io.graphics_buffer.get_pixel(1, 1));
    assert_eq!(Some(false), machine.io.graphics_buffer.get_pixel(0, 0));
}
