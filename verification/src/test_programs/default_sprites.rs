//! A program that shows the sixteen digit sprites: `0` to `9` in one row and
//! `A` to `F` in a second row below it.

use crate::instruction::Instruction;
use vstd::prelude::*;

verus! {

/// The register that holds the column to draw at.
pub const X: u8 = 0;

/// The register that holds the row to draw at.
pub const Y: u8 = 1;

/// The register that holds the constant 5: the distance from one sprite to
/// the next, on the screen and in memory alike.
pub const STEP: u8 = 2;

/// Sets up the registers: the first sprite goes to (1, 1) and lies at
/// address 0.
pub open spec fn set_up() -> Seq<Instruction> {
    seq![
        Instruction::StoreXNN { register: X, value: 1 },
        Instruction::StoreXY { target: Y, source: X },
        Instruction::StoreXNN { register: STEP, value: 5 },
        Instruction::StoreNNN { value: 0 },
    ]
}

/// Draws the sprite at `I`, then moves on to the next place on the screen
/// and to the next sprite in memory.
pub open spec fn draw_and_move_on() -> Seq<Instruction> {
    seq![
        Instruction::DrawXYN { x_register: X, y_register: Y, bytes: 5 },
        Instruction::AddXY { target: X, source: STEP },
        Instruction::AddIX { register: STEP },
    ]
}

/// Draws `sprites` sprites side by side.
pub open spec fn draw_row(sprites: nat) -> Seq<Instruction>
    decreases sprites,
{
    if sprites == 0 {
        Seq::empty()
    } else {
        draw_row((sprites - 1) as nat) + draw_and_move_on()
    }
}

/// Goes back to the left edge, six rows further down.
pub open spec fn next_row() -> Seq<Instruction> {
    seq![
        Instruction::StoreXNN { register: X, value: 1 },
        Instruction::AddXNN { register: Y, value: 6 },
    ]
}

/// The whole program.
pub open spec fn default_sprites() -> Seq<Instruction> {
    set_up() + draw_row(10) + next_row() + draw_row(6)
}

/// Appends the instructions that draw `sprites` sprites side by side.
fn push_row(program: &mut Vec<Instruction>, sprites: usize)
    ensures
        final(program)@ == old(program)@ + draw_row(sprites as nat),
{
    let mut drawn: usize = 0;
    while drawn < sprites
        invariant
            drawn <= sprites,
            program@ == old(program)@ + draw_row(drawn as nat),
        decreases sprites - drawn,
    {
        program.push(Instruction::DrawXYN { x_register: X, y_register: Y, bytes: 5 });
        program.push(Instruction::AddXY { target: X, source: STEP });
        program.push(Instruction::AddIX { register: STEP });
        drawn += 1;
    }
}

/// The program as a list of instructions, ready to be loaded.
pub fn get() -> (program: Vec<Instruction>)
    ensures
        program@ == default_sprites(),
{
    let mut program = Vec::new();
    program.push(Instruction::StoreXNN { register: X, value: 1 });
    program.push(Instruction::StoreXY { target: Y, source: X });
    program.push(Instruction::StoreXNN { register: STEP, value: 5 });
    program.push(Instruction::StoreNNN { value: 0 });
    push_row(&mut program, 10);
    program.push(Instruction::StoreXNN { register: X, value: 1 });
    program.push(Instruction::AddXNN { register: Y, value: 6 });
    push_row(&mut program, 6);
    program
}

/// The program has 54 instructions, and all of them are well formed.
pub proof fn lemma_default_sprites_is_sound()
    ensures
        default_sprites().len() == 54,
        forall|index: int|
            0 <= index < 54 ==> (#[trigger] default_sprites()[index]).well_formed(),
{
    lemma_draw_row(10);
    lemma_draw_row(6);
}

/// A row of sprites takes three instructions for each sprite, all of them
/// well formed.
proof fn lemma_draw_row(sprites: nat)
    ensures
        draw_row(sprites).len() == 3 * sprites,
        forall|index: int|
            0 <= index < 3 * sprites ==> (#[trigger] draw_row(sprites)[index]).well_formed(),
    decreases sprites,
{
    if sprites > 0 {
        lemma_draw_row((sprites - 1) as nat);
    }
}

} // verus!
