//! The instruction codec: every opcode as a tagged value, and the mapping
//! between such a value and its two-byte big-endian word.

use crate::memory;
use vstd::prelude::*;

verus! {

#[allow(inconsistent_fields)]
#[derive(Copy, Clone, Debug, PartialEq, Eq, Structural)]
pub enum Instruction {
    /// `00E0`
    ClearScreen,
    /// `00EE`
    Return,
    /// `1NNN`
    JumpNNN { address: memory::Address },
    /// `2NNN`
    CallNNN { address: memory::Address },
    /// `3XNN`
    SkipEqXNN { register: u8, value: u8 },
    /// `4XNN`
    SkipNeXNN { register: u8, value: u8 },
    /// `5XY0`
    SkipEqXY { register_x: u8, register_y: u8 },
    /// `6XNN`
    StoreXNN { register: u8, value: u8 },
    /// `7XNN`
    AddXNN { register: u8, value: u8 },
    /// `8XY0`
    StoreXY { target: u8, source: u8 },
    /// `8XY1`
    OrXY { target: u8, source: u8 },
    /// `8XY2`
    AndXY { target: u8, source: u8 },
    /// `8XY3`
    XorXY { target: u8, source: u8 },
    /// `8XY4`
    AddXY { target: u8, source: u8 },
    /// `8XY5`
    SubXY { target: u8, source: u8 },
    /// `8XY6`
    ShrXY { target: u8, source: u8 },
    /// `8XY7`
    SUBXYReverse { target: u8, source: u8 },
    /// `8XYE`
    ShlXY { target: u8, source: u8 },
    /// `9XY0`
    SkipNeXY { register_x: u8, register_y: u8 },
    /// `ANNN`
    StoreNNN { value: memory::Address },
    /// `BNNN`
    JumpV0 { address: memory::Address },
    /// `CXNN`
    Rand { register: u8, mask: u8 },
    /// `DXYN`
    DrawXYN { x_register: u8, y_register: u8, bytes: u8 },
    /// `EX9E`
    SkipPressedX { register: u8 },
    /// `EXA1`
    SkipNotPressedX { register: u8 },
    /// `FX07`
    StoreDelayInX { register: u8 },
    /// `FX15`
    SetDelayToX { register: u8 },
    /// `FX18`
    SetSoundToX { register: u8 },
    /// `FX1E`
    AddIX { register: u8 },
    /// `FX29`
    StoreSpriteX { register: u8 },
    /// `FX33`
    StoreDecimal { register: u8 },
    /// `FX55`
    WriteToMemory { max_register: u8 },
    /// `FX65`
    ReadFromMemory { max_register: u8 },
}

/// The two bytes of an encoded instruction, most significant first.
pub type InstructionBytes = [u8; 2];

/// A word that matches no opcode.
#[derive(Copy, Clone, Debug, PartialEq, Eq, Structural)]
pub struct UnsupportedInstruction {
    /// The word as it was read, first byte in the high half.
    pub word: u16,
}

/// The byte whose high half is the low four bits of `most_significant` and
/// whose low half is the low four bits of `least_significant`.
pub open spec fn pack_u4s(most_significant: int, least_significant: int) -> int {
    16 * (most_significant % 16) + least_significant % 16
}

/// The word made of four nibbles, each cut to its low four bits.
///
/// This and the two functions below are opaque, which keeps reasoning about
/// all the instructions at once cheap: `reveal` them to compute a word.
#[verifier::opaque]
pub open spec fn word_of_u4s(a: int, b: int, c: int, d: int) -> int {
    256 * pack_u4s(a, b) + pack_u4s(c, d)
}

/// The word made of two nibbles, each cut to its low four bits, and a byte.
#[verifier::opaque]
pub open spec fn word_of_u4s_u8(a: int, b: int, low: u8) -> int {
    256 * pack_u4s(a, b) + low
}

/// The word made of a leading nibble and the low twelve bits of `value`.
#[verifier::opaque]
pub open spec fn word_of_u12(leading_nibble: int, value: int) -> int {
    4096 * (leading_nibble % 16) + value % 4096
}

/// The word that two bytes spell, first byte in the high half.
pub open spec fn word_of_bytes(left: u8, right: u8) -> u16 {
    (256 * left + right) as u16
}

/// The two bytes of a word, high half first.
pub open spec fn bytes_of_word(word: int) -> Seq<u8> {
    seq![(word / 256) as u8, (word % 256) as u8]
}

impl Instruction {
    /// Every operand fits the field that its opcode encodes: register
    /// numbers and the sprite height in four bits, addresses in twelve.
    pub open spec fn well_formed(self) -> bool {
        match self {
            Instruction::ClearScreen | Instruction::Return => true,
            Instruction::JumpNNN { address }
            | Instruction::CallNNN { address }
            | Instruction::JumpV0 { address } => address < 0x1000,
            Instruction::StoreNNN { value } => value < 0x1000,
            Instruction::SkipEqXNN { register, .. }
            | Instruction::SkipNeXNN { register, .. }
            | Instruction::StoreXNN { register, .. }
            | Instruction::AddXNN { register, .. }
            | Instruction::Rand { register, .. } => register < 16,
            Instruction::SkipEqXY { register_x, register_y }
            | Instruction::SkipNeXY { register_x, register_y } => register_x < 16 && register_y
                < 16,
            Instruction::StoreXY { target, source }
            | Instruction::OrXY { target, source }
            | Instruction::AndXY { target, source }
            | Instruction::XorXY { target, source }
            | Instruction::AddXY { target, source }
            | Instruction::SubXY { target, source }
            | Instruction::ShrXY { target, source }
            | Instruction::SUBXYReverse { target, source }
            | Instruction::ShlXY { target, source } => target < 16 && source < 16,
            Instruction::DrawXYN { x_register, y_register, bytes } => x_register < 16
                && y_register < 16 && bytes < 16,
            Instruction::SkipPressedX { register }
            | Instruction::SkipNotPressedX { register }
            | Instruction::StoreDelayInX { register }
            | Instruction::SetDelayToX { register }
            | Instruction::SetSoundToX { register }
            | Instruction::AddIX { register }
            | Instruction::StoreSpriteX { register }
            | Instruction::StoreDecimal { register } => register < 16,
            Instruction::WriteToMemory { max_register }
            | Instruction::ReadFromMemory { max_register } => max_register < 16,
        }
    }

    /// The sixteen-bit word that encodes the instruction. Operands wider than
    /// their field lose their high bits.
    pub open spec fn word(self) -> int {
        match self {
            Instruction::ClearScreen => 0x00E0,
            Instruction::Return => 0x00EE,
            Instruction::JumpNNN { address } => word_of_u12(0x1, address as int),
            Instruction::CallNNN { address } => word_of_u12(0x2, address as int),
            Instruction::SkipEqXNN { register, value } => word_of_u4s_u8(
                0x3,
                register as int,
                value,
            ),
            Instruction::SkipNeXNN { register, value } => word_of_u4s_u8(
                0x4,
                register as int,
                value,
            ),
            Instruction::SkipEqXY { register_x, register_y } => word_of_u4s(
                0x5,
                register_x as int,
                register_y as int,
                0x0,
            ),
            Instruction::StoreXNN { register, value } => word_of_u4s_u8(
                0x6,
                register as int,
                value,
            ),
            Instruction::AddXNN { register, value } => word_of_u4s_u8(0x7, register as int, value),
            Instruction::StoreXY { target, source } => word_of_u4s(
                0x8,
                target as int,
                source as int,
                0x0,
            ),
            Instruction::OrXY { target, source } => word_of_u4s(
                0x8,
                target as int,
                source as int,
                0x1,
            ),
            Instruction::AndXY { target, source } => word_of_u4s(
                0x8,
                target as int,
                source as int,
                0x2,
            ),
            Instruction::XorXY { target, source } => word_of_u4s(
                0x8,
                target as int,
                source as int,
                0x3,
            ),
            Instruction::AddXY { target, source } => word_of_u4s(
                0x8,
                target as int,
                source as int,
                0x4,
            ),
            Instruction::SubXY { target, source } => word_of_u4s(
                0x8,
                target as int,
                source as int,
                0x5,
            ),
            Instruction::ShrXY { target, source } => word_of_u4s(
                0x8,
                target as int,
                source as int,
                0x6,
            ),
            Instruction::SUBXYReverse { target, source } => word_of_u4s(
                0x8,
                target as int,
                source as int,
                0x7,
            ),
            Instruction::ShlXY { target, source } => word_of_u4s(
                0x8,
                target as int,
                source as int,
                0xE,
            ),
            Instruction::SkipNeXY { register_x, register_y } => word_of_u4s(
                0x9,
                register_x as int,
                register_y as int,
                0x0,
            ),
            Instruction::StoreNNN { value } => word_of_u12(0xA, value as int),
            Instruction::JumpV0 { address } => word_of_u12(0xB, address as int),
            Instruction::Rand { register, mask } => word_of_u4s_u8(0xC, register as int, mask),
            Instruction::DrawXYN { x_register, y_register, bytes } => word_of_u4s(
                0xD,
                x_register as int,
                y_register as int,
                bytes as int,
            ),
            Instruction::SkipPressedX { register } => word_of_u4s_u8(0xE, register as int, 0x9E),
            Instruction::SkipNotPressedX { register } => word_of_u4s_u8(0xE, register as int, 0xA1),
            Instruction::StoreDelayInX { register } => word_of_u4s_u8(0xF, register as int, 0x07),
            Instruction::SetDelayToX { register } => word_of_u4s_u8(0xF, register as int, 0x15),
            Instruction::SetSoundToX { register } => word_of_u4s_u8(0xF, register as int, 0x18),
            Instruction::AddIX { register } => word_of_u4s(0xF, register as int, 0x1, 0xE),
            Instruction::StoreSpriteX { register } => word_of_u4s(0xF, register as int, 0x2, 0x9),
            Instruction::StoreDecimal { register } => word_of_u4s(0xF, register as int, 0x3, 0x3),
            Instruction::WriteToMemory { max_register } => word_of_u4s(
                0xF,
                max_register as int,
                0x5,
                0x5,
            ),
            Instruction::ReadFromMemory { max_register } => word_of_u4s(
                0xF,
                max_register as int,
                0x6,
                0x5,
            ),
        }
    }

    /// The two bytes that encode the instruction, most significant first.
    pub open spec fn encoding(self) -> Seq<u8> {
        bytes_of_word(self.word())
    }

    /// Whether `self` is a well-formed instruction that `word` encodes.
    pub open spec fn encodes_to(self, word: u16) -> bool {
        self.well_formed() && self.word() == word
    }

    /// The well-formed instruction that `word` encodes, if there is one.
    pub open spec fn decode(word: u16) -> Option<Instruction> {
        if exists|instruction: Instruction| instruction.encodes_to(word) {
            Some(choose|instruction: Instruction| instruction.encodes_to(word))
        } else {
            None
        }
    }

    /// What decoding `word` returns: the instruction it encodes, or the word
    /// itself as the error.
    pub open spec fn decoded(word: u16) -> Result<Instruction, UnsupportedInstruction> {
        match Instruction::decode(word) {
            Some(instruction) => Ok(instruction),
            None => Err(UnsupportedInstruction { word }),
        }
    }

    /// The four nibbles of the instruction's word, most significant first.
    closed spec fn nibbles(self) -> (int, int, int, int) {
        match self {
            Instruction::ClearScreen => (0x0, 0x0, 0xE, 0x0),
            Instruction::Return => (0x0, 0x0, 0xE, 0xE),
            Instruction::JumpNNN { address } => nibbles_of_u12(0x1, address),
            Instruction::CallNNN { address } => nibbles_of_u12(0x2, address),
            Instruction::SkipEqXNN { register, value } => nibbles_of_u8(0x3, register, value),
            Instruction::SkipNeXNN { register, value } => nibbles_of_u8(0x4, register, value),
            Instruction::SkipEqXY { register_x, register_y } => (
                0x5,
                register_x as int,
                register_y as int,
                0x0,
            ),
            Instruction::StoreXNN { register, value } => nibbles_of_u8(0x6, register, value),
            Instruction::AddXNN { register, value } => nibbles_of_u8(0x7, register, value),
            Instruction::StoreXY { target, source } => (0x8, target as int, source as int, 0x0),
            Instruction::OrXY { target, source } => (0x8, target as int, source as int, 0x1),
            Instruction::AndXY { target, source } => (0x8, target as int, source as int, 0x2),
            Instruction::XorXY { target, source } => (0x8, target as int, source as int, 0x3),
            Instruction::AddXY { target, source } => (0x8, target as int, source as int, 0x4),
            Instruction::SubXY { target, source } => (0x8, target as int, source as int, 0x5),
            Instruction::ShrXY { target, source } => (0x8, target as int, source as int, 0x6),
            Instruction::SUBXYReverse { target, source } => (
                0x8,
                target as int,
                source as int,
                0x7,
            ),
            Instruction::ShlXY { target, source } => (0x8, target as int, source as int, 0xE),
            Instruction::SkipNeXY { register_x, register_y } => (
                0x9,
                register_x as int,
                register_y as int,
                0x0,
            ),
            Instruction::StoreNNN { value } => nibbles_of_u12(0xA, value),
            Instruction::JumpV0 { address } => nibbles_of_u12(0xB, address),
            Instruction::Rand { register, mask } => nibbles_of_u8(0xC, register, mask),
            Instruction::DrawXYN { x_register, y_register, bytes } => (
                0xD,
                x_register as int,
                y_register as int,
                bytes as int,
            ),
            Instruction::SkipPressedX { register } => (0xE, register as int, 0x9, 0xE),
            Instruction::SkipNotPressedX { register } => (0xE, register as int, 0xA, 0x1),
            Instruction::StoreDelayInX { register } => (0xF, register as int, 0x0, 0x7),
            Instruction::SetDelayToX { register } => (0xF, register as int, 0x1, 0x5),
            Instruction::SetSoundToX { register } => (0xF, register as int, 0x1, 0x8),
            Instruction::AddIX { register } => (0xF, register as int, 0x1, 0xE),
            Instruction::StoreSpriteX { register } => (0xF, register as int, 0x2, 0x9),
            Instruction::StoreDecimal { register } => (0xF, register as int, 0x3, 0x3),
            Instruction::WriteToMemory { max_register } => (0xF, max_register as int, 0x5, 0x5),
            Instruction::ReadFromMemory { max_register } => (0xF, max_register as int, 0x6, 0x5),
        }
    }
}

/// The nibbles of a word made of a family and a twelve-bit value.
closed spec fn nibbles_of_u12(family: int, value: u16) -> (int, int, int, int) {
    (family, value as int / 256, (value as int / 16) % 16, value as int % 16)
}

/// The nibbles of a word made of a family, a register and a byte.
closed spec fn nibbles_of_u8(family: int, register: u8, value: u8) -> (int, int, int, int) {
    (family, register as int, value as int / 16, value as int % 16)
}

/// The instruction that the decoder's dispatch finds for the four nibbles of
/// a word: first by the leading one, which names the family, then, in the
/// families with more than one opcode, by what is left.
pub open spec fn dispatch_nibbles(family: u8, x: u8, y: u8, n: u8) -> Option<Instruction> {
    let low = (16 * y + n) as u8;
    let nnn = (256 * x + 16 * y + n) as u16;
    match family {
        0x0 => if x == 0 && low == 0xE0 {
            Some(Instruction::ClearScreen)
        } else if x == 0 && low == 0xEE {
            Some(Instruction::Return)
        } else {
            None
        },
        0x1 => Some(Instruction::JumpNNN { address: nnn }),
        0x2 => Some(Instruction::CallNNN { address: nnn }),
        0x3 => Some(Instruction::SkipEqXNN { register: x, value: low }),
        0x4 => Some(Instruction::SkipNeXNN { register: x, value: low }),
        0x5 => if n == 0 {
            Some(Instruction::SkipEqXY { register_x: x, register_y: y })
        } else {
            None
        },
        0x6 => Some(Instruction::StoreXNN { register: x, value: low }),
        0x7 => Some(Instruction::AddXNN { register: x, value: low }),
        0x8 => match n {
            0x0 => Some(Instruction::StoreXY { target: x, source: y }),
            0x1 => Some(Instruction::OrXY { target: x, source: y }),
            0x2 => Some(Instruction::AndXY { target: x, source: y }),
            0x3 => Some(Instruction::XorXY { target: x, source: y }),
            0x4 => Some(Instruction::AddXY { target: x, source: y }),
            0x5 => Some(Instruction::SubXY { target: x, source: y }),
            0x6 => Some(Instruction::ShrXY { target: x, source: y }),
            0x7 => Some(Instruction::SUBXYReverse { target: x, source: y }),
            0xE => Some(Instruction::ShlXY { target: x, source: y }),
            _ => None,
        },
        0x9 => if n == 0 {
            Some(Instruction::SkipNeXY { register_x: x, register_y: y })
        } else {
            None
        },
        0xA => Some(Instruction::StoreNNN { value: nnn }),
        0xB => Some(Instruction::JumpV0 { address: nnn }),
        0xC => Some(Instruction::Rand { register: x, mask: low }),
        0xD => Some(Instruction::DrawXYN { x_register: x, y_register: y, bytes: n }),
        0xE => match low {
            0x9E => Some(Instruction::SkipPressedX { register: x }),
            0xA1 => Some(Instruction::SkipNotPressedX { register: x }),
            _ => None,
        },
        _ => match low {
            0x07 => Some(Instruction::StoreDelayInX { register: x }),
            0x15 => Some(Instruction::SetDelayToX { register: x }),
            0x18 => Some(Instruction::SetSoundToX { register: x }),
            0x1E => Some(Instruction::AddIX { register: x }),
            0x29 => Some(Instruction::StoreSpriteX { register: x }),
            0x33 => Some(Instruction::StoreDecimal { register: x }),
            0x55 => Some(Instruction::WriteToMemory { max_register: x }),
            0x65 => Some(Instruction::ReadFromMemory { max_register: x }),
            _ => None,
        },
    }
}

/// The instruction that the decoder's dispatch finds for a word. It is the
/// same as `Instruction::decode`, spelled out opcode by opcode.
pub open spec fn dispatch(word: u16) -> Option<Instruction> {
    dispatch_nibbles(
        (word / 4096) as u8,
        ((word / 256) % 16) as u8,
        ((word / 16) % 16) as u8,
        (word % 16) as u8,
    )
}

/// A word is the sum of its four nibbles, each weighted by its place.
proof fn lemma_split_word(word: u16)
    ensures
        word == 4096 * (word / 4096) + 256 * ((word / 256) % 16) + 16 * ((word / 16) % 16) + word
            % 16,
        word / 4096 < 16,
{
    assert(word == 4096 * (word / 4096) + 256 * ((word / 256) % 16) + 16 * ((word / 16) % 16)
        + word % 16 && word / 4096 < 16) by (bit_vector);
}

/// Four nibbles weighted by their places can be read back from the sum.
proof fn lemma_join_word(a: int, x: int, y: int, n: int)
    requires
        0 <= a < 16,
        0 <= x < 16,
        0 <= y < 16,
        0 <= n < 16,
    ensures
        ({
            let word = 4096 * a + 256 * x + 16 * y + n;
            &&& 0 <= word < 0x1_0000
            &&& word / 4096 == a
            &&& (word / 256) % 16 == x
            &&& (word / 16) % 16 == y
            &&& word % 16 == n
        }),
{
    let (a, x, y, n) = (a as u16, x as u16, y as u16, n as u16);
    assert({
        let word = (4096 * a + 256 * x + 16 * y + n) as u16;
        &&& word == 4096 * a + 256 * x + 16 * y + n
        &&& word / 4096 == a
        &&& (word / 256) % 16 == x
        &&& (word / 16) % 16 == y
        &&& word % 16 == n
    }) by (bit_vector)
        requires
            a < 16,
            x < 16,
            y < 16,
            n < 16,
    ;
}

/// Each way of putting a word together from operands that fit their fields
/// gives the sum of the word's four nibbles.
proof fn lemma_word_shapes(a: u8, x: u8, y: u8, n: u8)
    requires
        a < 16,
        x < 16,
        y < 16,
        n < 16,
    ensures
        word_of_u4s(a as int, x as int, y as int, n as int) == 4096 * a + 256 * x + 16 * y + n,
        word_of_u4s_u8(a as int, x as int, (16 * y + n) as u8) == 4096 * a + 256 * x + 16 * y
            + n,
        word_of_u12(a as int, 256 * x + 16 * y + n) == 4096 * a + 256 * x + 16 * y + n,
{
    reveal(word_of_u4s);
    reveal(word_of_u4s_u8);
    reveal(word_of_u12);
}

/// A byte and a twelve-bit value are the sums of their nibbles.
proof fn lemma_split_operands(value: u8, address: u16)
    ensures
        value == 16 * (value / 16) + value % 16,
        value / 16 < 16,
        address < 0x1000 ==> address == 256 * (address / 256) + 16 * ((address / 16) % 16)
            + address % 16 && address / 256 < 16,
{
}

/// The word of a well-formed instruction is the sum of its nibbles, and the
/// dispatch finds the instruction from them.
proof fn lemma_word_of_nibbles(instruction: Instruction)
    requires
        instruction.well_formed(),
    ensures
        ({
            let (a, x, y, n) = instruction.nibbles();
            &&& 0 <= a < 16
            &&& 0 <= x < 16
            &&& 0 <= y < 16
            &&& 0 <= n < 16
            &&& instruction.word() == 4096 * a + 256 * x + 16 * y + n
            &&& dispatch_nibbles(a as u8, x as u8, y as u8, n as u8) == Some(instruction)
        }),
{
    let (a, x, y, n) = instruction.nibbles();
    match instruction {
        Instruction::JumpNNN { address }
        | Instruction::CallNNN { address }
        | Instruction::JumpV0 { address } => lemma_split_operands(0, address),
        Instruction::StoreNNN { value } => lemma_split_operands(0, value),
        Instruction::SkipEqXNN { value, .. }
        | Instruction::SkipNeXNN { value, .. }
        | Instruction::StoreXNN { value, .. }
        | Instruction::AddXNN { value, .. } => lemma_split_operands(value, 0),
        Instruction::Rand { mask, .. } => lemma_split_operands(mask, 0),
        _ => {},
    }
    lemma_word_shapes(a as u8, x as u8, y as u8, n as u8);
}

/// What the dispatch finds is well formed and encodes back to the word.
proof fn lemma_dispatch_sound(word: u16)
    ensures
        dispatch(word) matches Some(instruction) ==> instruction.encodes_to(word),
{
    lemma_split_word(word);
    lemma_word_shapes(
        (word / 4096) as u8,
        ((word / 256) % 16) as u8,
        ((word / 16) % 16) as u8,
        (word % 16) as u8,
    );
}

/// The dispatch finds every well-formed instruction from its word.
proof fn lemma_dispatch_complete(instruction: Instruction)
    requires
        instruction.well_formed(),
    ensures
        0 <= instruction.word() < 0x1_0000,
        dispatch(instruction.word() as u16) == Some(instruction),
{
    let (a, x, y, n) = instruction.nibbles();
    lemma_word_of_nibbles(instruction);
    lemma_join_word(a, x, y, n);
}

/// The dispatch finds exactly the instruction that a word encodes: it
/// computes `Instruction::decode`.
pub proof fn lemma_dispatch_decodes(word: u16)
    ensures
        dispatch(word) == Instruction::decode(word),
{
    match dispatch(word) {
        Some(_) => {
            lemma_dispatch_sound(word);
            let chosen = choose|instruction: Instruction| instruction.encodes_to(word);
            lemma_dispatch_complete(chosen);
        },
        None => {
            assert forall|instruction: Instruction| !instruction.encodes_to(word) by {
                if instruction.encodes_to(word) {
                    lemma_dispatch_complete(instruction);
                }
            }
        },
    }
}

/// Decoding inverts encoding: the word of a well-formed instruction fits in
/// sixteen bits and decodes to that instruction.
pub proof fn lemma_decode_inverts_encode(instruction: Instruction)
    requires
        instruction.well_formed(),
    ensures
        0 <= instruction.word() < 0x1_0000,
        Instruction::decode(instruction.word() as u16) == Some(instruction),
{
    lemma_dispatch_complete(instruction);
    lemma_dispatch_decodes(instruction.word() as u16);
}

/// Encoding inverts decoding: whatever a word decodes to is well formed and
/// has that word.
pub proof fn lemma_encode_inverts_decode(word: u16)
    ensures
        Instruction::decode(word) matches Some(instruction) ==> instruction.well_formed()
            && instruction.word() == word,
{
}

/// Two well-formed instructions with the same word are the same instruction.
pub proof fn lemma_word_is_injective(a: Instruction, b: Instruction)
    requires
        a.well_formed(),
        b.well_formed(),
        a.word() == b.word(),
    ensures
        a == b,
{
    lemma_dispatch_complete(a);
    lemma_dispatch_complete(b);
}

impl Instruction {
    /// Decodes the two bytes of one instruction. The first byte's high nibble
    /// picks the family; the families with more than one opcode are told
    /// apart by what is left.
    pub fn from_bytes(bytes: &[u8]) -> (result: Result<Instruction, UnsupportedInstruction>)
        requires
            bytes@.len() == 2,
        ensures
            result == Instruction::decoded(word_of_bytes(bytes@[0], bytes@[1])),
            result matches Ok(instruction) ==> instruction.well_formed() && instruction.encoding()
                == bytes@,
    {
        let left = bytes[0];
        let right = bytes[1];
        let family = left / 16;
        let x = left % 16;
        let y = right / 16;
        let n = right % 16;
        let nnn = (x as u16) * 256 + right as u16;
        proof {
            let word = word_of_bytes(left, right);
            lemma_join_word(family as int, x as int, y as int, n as int);
            lemma_dispatch_decodes(word);
        }
        match family {
            0x0 => {
                if left == 0 && right == 0xE0 {
                    Ok(Instruction::ClearScreen)
                } else if left == 0 && right == 0xEE {
                    Ok(Instruction::Return)
                } else {
                    err_unsupported_instruction(left, right)
                }
            },
            0x1 => Ok(Instruction::JumpNNN { address: nnn }),
            0x2 => Ok(Instruction::CallNNN { address: nnn }),
            0x3 => Ok(Instruction::SkipEqXNN { register: x, value: right }),
            0x4 => Ok(Instruction::SkipNeXNN { register: x, value: right }),
            0x5 => {
                if n == 0 {
                    Ok(Instruction::SkipEqXY { register_x: x, register_y: y })
                } else {
                    err_unsupported_instruction(left, right)
                }
            },
            0x6 => Ok(Instruction::StoreXNN { register: x, value: right }),
            0x7 => Ok(Instruction::AddXNN { register: x, value: right }),
            0x8 => match n {
                0x0 => Ok(Instruction::StoreXY { target: x, source: y }),
                0x1 => Ok(Instruction::OrXY { target: x, source: y }),
                0x2 => Ok(Instruction::AndXY { target: x, source: y }),
                0x3 => Ok(Instruction::XorXY { target: x, source: y }),
                0x4 => Ok(Instruction::AddXY { target: x, source: y }),
                0x5 => Ok(Instruction::SubXY { target: x, source: y }),
                0x6 => Ok(Instruction::ShrXY { target: x, source: y }),
                0x7 => Ok(Instruction::SUBXYReverse { target: x, source: y }),
                0xE => Ok(Instruction::ShlXY { target: x, source: y }),
                _ => err_unsupported_instruction(left, right),
            },
            0x9 => {
                if n == 0 {
                    Ok(Instruction::SkipNeXY { register_x: x, register_y: y })
                } else {
                    err_unsupported_instruction(left, right)
                }
            },
            0xA => Ok(Instruction::StoreNNN { value: nnn }),
            0xB => Ok(Instruction::JumpV0 { address: nnn }),
            0xC => Ok(Instruction::Rand { register: x, mask: right }),
            0xD => Ok(Instruction::DrawXYN { x_register: x, y_register: y, bytes: n }),
            0xE => match right {
                0x9E => Ok(Instruction::SkipPressedX { register: x }),
                0xA1 => Ok(Instruction::SkipNotPressedX { register: x }),
                _ => err_unsupported_instruction(left, right),
            },
            _ => match right {
                0x07 => Ok(Instruction::StoreDelayInX { register: x }),
                0x15 => Ok(Instruction::SetDelayToX { register: x }),
                0x18 => Ok(Instruction::SetSoundToX { register: x }),
                0x1E => Ok(Instruction::AddIX { register: x }),
                0x29 => Ok(Instruction::StoreSpriteX { register: x }),
                0x33 => Ok(Instruction::StoreDecimal { register: x }),
                0x55 => Ok(Instruction::WriteToMemory { max_register: x }),
                0x65 => Ok(Instruction::ReadFromMemory { max_register: x }),
                _ => err_unsupported_instruction(left, right),
            },
        }
    }

    /// Encodes the instruction. Operands wider than their field lose their
    /// high bits.
    pub fn to_bytes(&self) -> (bytes: InstructionBytes)
        ensures
            bytes@ == self.encoding(),
            self.well_formed() ==> Instruction::decoded(word_of_bytes(bytes[0], bytes[1])) == Ok::<
                Instruction,
                UnsupportedInstruction,
            >(*self),
    {
        proof {
            self.lemma_word_fits();
            if self.well_formed() {
                lemma_decode_inverts_encode(*self);
            }
        }
        match *self {
            Instruction::ClearScreen => [0x00, 0xE0],
            Instruction::Return => [0x00, 0xEE],
            Instruction::JumpNNN { address } => from_u12(0x1, address),
            Instruction::CallNNN { address } => from_u12(0x2, address),
            Instruction::SkipEqXNN { register, value } => from_u4s_u8(0x3, register, value),
            Instruction::SkipNeXNN { register, value } => from_u4s_u8(0x4, register, value),
            Instruction::SkipEqXY { register_x, register_y } => from_u4s(
                0x5,
                register_x,
                register_y,
                0x0,
            ),
            Instruction::StoreXNN { register, value } => from_u4s_u8(0x6, register, value),
            Instruction::AddXNN { register, value } => from_u4s_u8(0x7, register, value),
            Instruction::StoreXY { target, source } => from_u4s(0x8, target, source, 0x0),
            Instruction::OrXY { target, source } => from_u4s(0x8, target, source, 0x1),
            Instruction::AndXY { target, source } => from_u4s(0x8, target, source, 0x2),
            Instruction::XorXY { target, source } => from_u4s(0x8, target, source, 0x3),
            Instruction::AddXY { target, source } => from_u4s(0x8, target, source, 0x4),
            Instruction::SubXY { target, source } => from_u4s(0x8, target, source, 0x5),
            Instruction::ShrXY { target, source } => from_u4s(0x8, target, source, 0x6),
            Instruction::SUBXYReverse { target, source } => from_u4s(0x8, target, source, 0x7),
            Instruction::ShlXY { target, source } => from_u4s(0x8, target, source, 0xE),
            Instruction::SkipNeXY { register_x, register_y } => from_u4s(
                0x9,
                register_x,
                register_y,
                0x0,
            ),
            Instruction::StoreNNN { value } => from_u12(0xA, value),
            Instruction::JumpV0 { address } => from_u12(0xB, address),
            Instruction::Rand { register, mask } => from_u4s_u8(0xC, register, mask),
            Instruction::DrawXYN { x_register, y_register, bytes } => from_u4s(
                0xD,
                x_register,
                y_register,
                bytes,
            ),
            Instruction::SkipPressedX { register } => from_u4s_u8(0xE, register, 0x9E),
            Instruction::SkipNotPressedX { register } => from_u4s_u8(0xE, register, 0xA1),
            Instruction::StoreDelayInX { register } => from_u4s_u8(0xF, register, 0x07),
            Instruction::SetDelayToX { register } => from_u4s_u8(0xF, register, 0x15),
            Instruction::SetSoundToX { register } => from_u4s_u8(0xF, register, 0x18),
            Instruction::AddIX { register } => from_u4s(0xF, register, 0x1, 0xE),
            Instruction::StoreSpriteX { register } => from_u4s(0xF, register, 0x2, 0x9),
            Instruction::StoreDecimal { register } => from_u4s(0xF, register, 0x3, 0x3),
            Instruction::WriteToMemory { max_register } => from_u4s(0xF, max_register, 0x5, 0x5),
            Instruction::ReadFromMemory { max_register } => from_u4s(0xF, max_register, 0x6, 0x5),
        }
    }

    /// Whether every operand fits the field that its opcode encodes.
    pub fn is_well_formed(&self) -> (well_formed: bool)
        ensures
            well_formed == self.well_formed(),
    {
        match *self {
            Instruction::ClearScreen | Instruction::Return => true,
            Instruction::JumpNNN { address }
            | Instruction::CallNNN { address }
            | Instruction::JumpV0 { address } => address < 0x1000,
            Instruction::StoreNNN { value } => value < 0x1000,
            Instruction::SkipEqXNN { register, .. }
            | Instruction::SkipNeXNN { register, .. }
            | Instruction::StoreXNN { register, .. }
            | Instruction::AddXNN { register, .. }
            | Instruction::Rand { register, .. } => register < 16,
            Instruction::SkipEqXY { register_x, register_y }
            | Instruction::SkipNeXY { register_x, register_y } => register_x < 16 && register_y
                < 16,
            Instruction::StoreXY { target, source }
            | Instruction::OrXY { target, source }
            | Instruction::AndXY { target, source }
            | Instruction::XorXY { target, source }
            | Instruction::AddXY { target, source }
            | Instruction::SubXY { target, source }
            | Instruction::ShrXY { target, source }
            | Instruction::SUBXYReverse { target, source }
            | Instruction::ShlXY { target, source } => target < 16 && source < 16,
            Instruction::DrawXYN { x_register, y_register, bytes } => x_register < 16
                && y_register < 16 && bytes < 16,
            Instruction::SkipPressedX { register }
            | Instruction::SkipNotPressedX { register }
            | Instruction::StoreDelayInX { register }
            | Instruction::SetDelayToX { register }
            | Instruction::SetSoundToX { register }
            | Instruction::AddIX { register }
            | Instruction::StoreSpriteX { register }
            | Instruction::StoreDecimal { register } => register < 16,
            Instruction::WriteToMemory { max_register }
            | Instruction::ReadFromMemory { max_register } => max_register < 16,
        }
    }

    /// The instruction's word as one number.
    pub fn to_u16(&self) -> (word: u16)
        ensures
            word == self.word(),
    {
        let bytes = self.to_bytes();
        proof {
            self.lemma_word_fits();
        }
        (bytes[0] as u16) * 256 + bytes[1] as u16
    }

    /// Every instruction's word fits in sixteen bits, well formed or not.
    pub proof fn lemma_word_fits(self)
        ensures
            0 <= self.word() < 0x1_0000,
    {
        reveal(word_of_u4s);
        reveal(word_of_u4s_u8);
        reveal(word_of_u12);
    }
}

/// The bytes of a program: the encodings of its instructions, one after the
/// other.
pub open spec fn program_bytes(program: Seq<Instruction>) -> Seq<u8> {
    Seq::new(2 * program.len(), |index: int| program[index / 2].encoding()[index % 2])
}

/// A list of instructions is encoded and copied to the start of the region,
/// two bytes for each. What lies behind the copy is left alone.
impl<'a> memory::ProgramLoader for &'a Vec<Instruction> {
    type Output = ();

    open spec fn fits(self, room: nat) -> bool {
        2 * self@.len() <= room
    }

    open spec fn loads(self, before: Seq<u8>, after: Seq<u8>, output: ()) -> bool {
        after == memory::overwritten(before, program_bytes(self@))
    }

    fn load_into_ram(self, ram: &mut [u8]) {
        let room = ram.len();
        let mut loaded: usize = 0;
        while loaded < self.len()
            invariant
                loaded <= self@.len(),
                2 * self@.len() <= room,
                ram@.len() == room,
                ram@.len() == old(ram)@.len(),
                ram@ == memory::overwritten(
                    old(ram)@,
                    program_bytes(self@.subrange(0, loaded as int)),
                ),
            decreases self@.len() - loaded,
        {
            let bytes = self[loaded].to_bytes();
            ram[2 * loaded] = bytes[0];
            ram[2 * loaded + 1] = bytes[1];
            loaded += 1;
        }
        assert(self@.subrange(0, loaded as int) == self@);
    }
}

/// A program that was loaded can be read back: where a list of instructions
/// was copied to the start of a region, the two bytes at twice an
/// instruction's place in the list decode to that instruction, provided it is
/// well formed.
pub proof fn lemma_loaded_program_decodes(before: Seq<u8>, program: Seq<Instruction>, place: int)
    requires
        2 * program.len() <= before.len(),
        0 <= place < program.len(),
        program[place].well_formed(),
    ensures
        ({
            let region = memory::overwritten(before, program_bytes(program));
            Instruction::decode(word_of_bytes(region[2 * place], region[2 * place + 1])) == Some(
                program[place],
            )
        }),
{
    program[place].lemma_word_fits();
    lemma_decode_inverts_encode(program[place]);
}

/// The error for the word that `left` and `right` spell.
fn err_unsupported_instruction<T>(left: u8, right: u8) -> (result: Result<
    T,
    UnsupportedInstruction,
>)
    ensures
        result == Err::<T, UnsupportedInstruction>(
            UnsupportedInstruction { word: word_of_bytes(left, right) },
        ),
{
    Err(UnsupportedInstruction { word: (left as u16) * 256 + right as u16 })
}

/// Packs four nibbles into two bytes, keeping the low four bits of each.
pub fn from_u4s(a: u8, b: u8, c: u8, d: u8) -> (bytes: InstructionBytes)
    ensures
        bytes@ == bytes_of_word(word_of_u4s(a as int, b as int, c as int, d as int)),
{
    reveal(word_of_u4s);
    [u4_to_u8(a, b), u4_to_u8(c, d)]
}

/// Packs two nibbles and a byte into two bytes, keeping the low four bits of
/// each nibble.
fn from_u4s_u8(a: u8, b: u8, low: u8) -> (bytes: InstructionBytes)
    ensures
        bytes@ == bytes_of_word(word_of_u4s_u8(a as int, b as int, low)),
{
    reveal(word_of_u4s_u8);
    [u4_to_u8(a, b), low]
}

/// Packs a leading nibble and a twelve-bit value into two bytes, keeping the
/// low four bits of the nibble and the low twelve of the value.
pub fn from_u12(leading_nibble: u8, value: u16) -> (bytes: InstructionBytes)
    ensures
        bytes@ == bytes_of_word(word_of_u12(leading_nibble as int, value as int)),
{
    reveal(word_of_u12);
    let low = value % 0x1000;
    [(leading_nibble % 16) * 16 + (low / 256) as u8, (low % 256) as u8]
}

/// Packs two nibbles into one byte, keeping the low four bits of each.
pub fn u4_to_u8(most_significant: u8, least_significant: u8) -> (byte: u8)
    ensures
        byte == pack_u4s(most_significant as int, least_significant as int),
{
    (most_significant % 16) * 16 + least_significant % 16
}

} // verus!
