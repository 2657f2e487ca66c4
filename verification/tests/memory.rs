use crust_8::memory::{HEX_SPRITES, MEMORY_SIZE, PROGRAM_MEMORY_SIZE, RAM};

#[test]
fn program_memory() {
    let memory = RAM::new();

    assert_eq!(PROGRAM_MEMORY_SIZE, memory.program_memory().len())
}

#[test]
fn load_into_memory() {
    let mut memory = RAM::new();

    // Loading a blank program should not affect anything
    let original_memory = memory.value.clone();
    memory.load_program(&[] as &[u8]);
    assert_eq!(&original_memory, &memory.value,);

    // Load a few instructions
    let program: [u8; 2] = [0x60, 0x50];
    memory.load_program(&program[..]);
    assert_eq!(program, memory.program_memory()[0..2]);
}

#[test]
fn sprite_addressing() {
    let memory = RAM::new();

    for i in 0..0xF {
        let address = memory.get_address_of_sprite(i);
        let sprite = memory.get_sprite_at_address(address, 5);
        assert_eq!(HEX_SPRITES[i as usize], sprite);
    }
}

#[test]
fn every_digit_has_its_sprite_at_five_times_the_digit() {
    let memory = RAM::new();

    for digit in 0..=0xFu8 {
        let address = RAM::sprite_address(digit);
        assert_eq!(5 * digit as u16, address);
        assert_eq!(address, memory.get_address_of_sprite(digit));
        assert_eq!(
            HEX_SPRITES[digit as usize],
            memory.get_sprite_at_address(address, 5)
        );
    }
    assert_eq!(
        [0xF0, 0x90, 0x90, 0x90, 0xF0],
        memory.get_sprite_at_address(0, 5)
    );
    assert_eq!(
        [0xF0, 0x80, 0xF0, 0x80, 0x80],
        memory.get_sprite_at_address(75, 5)
    );
}

#[test]
fn fresh_memory_is_zero_behind_the_sprites() {
    let memory = RAM::new();

    assert_eq!(MEMORY_SIZE, memory.address(0).len());
    assert!(memory.address(80).iter().all(|byte| *byte == 0));
    assert_eq!(0x80, memory.address(0)[79]);
}

#[test]
fn a_program_lies_at_0x200_and_leaves_the_rest_alone() {
    let mut memory = RAM::new();
    let program = [0x12, 0x34, 0x56];
    memory.load_program(&program[..]);

    assert_eq!(program, memory.address(0x200)[0..3]);
    assert_eq!([0x12, 0x34], memory.get_instruction(0x200));
    assert_eq!([0x34, 0x56], memory.get_instruction(0x201));
    assert!(memory.address(0x203).iter().all(|byte| *byte == 0));
    assert_eq!(RAM::new().value[..0x200], memory.value[..0x200]);

    // A shorter program writes over the start of the longer one only.
    memory.load_program(&[0xAB][..]);
    assert_eq!([0xAB, 0x34, 0x56, 0x00], memory.program_memory()[0..4]);
}

#[test]
fn a_program_may_fill_the_whole_region() {
    let mut memory = RAM::new();
    let program = vec![0xEE; PROGRAM_MEMORY_SIZE];
    memory.load_program(&program[..]);

    assert_eq!(program, memory.program_memory());
    assert_eq!(0xEE, memory.address(0xFFF)[0]);
    assert_eq!([0xEE, 0xEE], memory.get_instruction(0xFFE));
}

#[test]
fn writes_through_a_view_land_in_memory() {
    let mut memory = RAM::new();

    memory.address_mut(0x300)[0..2].copy_from_slice(&[7, 8]);
    memory.program_memory_mut()[0] = 9;

    assert_eq!([7, 8], memory.address(0x300)[0..2]);
    assert_eq!(9, memory.address(0x200)[0]);
    assert_eq!(0, memory.address(0x1000).len());
    assert_eq!(0, memory.get_sprite_at_address(0xFFF, 0).len());
}
