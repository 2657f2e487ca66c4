//! The machine's 4 KiB of memory: the interpreter's region, which holds the
//! hexadecimal digit sprites, and above it the region that programs load into.

use vstd::prelude::*;

verus! {

pub const ADDRESS_INTERPRETER_START: usize = 0x000;

pub const ADDRESS_PROGRAM_START: usize = 0x200;

pub const ADDRESS_MAX: usize = 0xFFF;

pub const INTERPRETER_MEMORY_SIZE: usize = 0x200;

pub const PROGRAM_MEMORY_SIZE: usize = 0xE00;

pub const MEMORY_SIZE: usize = 0x1000;

/// The number of rows, and so of bytes, in one digit sprite.
pub const SPRITE_SIZE: u8 = 5;

pub type HexSprite = [u8; 5];

/// The sprites of the digits `0` to `F`, each eight pixels wide and five
/// rows tall, in the order in which they lie in memory.
pub const HEX_SPRITES: [HexSprite; 16] = [
    [0xF0, 0x90, 0x90, 0x90, 0xF0],
    [0x20, 0x60, 0x20, 0x20, 0x70],
    [0xF0, 0x10, 0xF0, 0x80, 0xF0],
    [0xF0, 0x10, 0xF0, 0x10, 0xF0],
    [0x90, 0x90, 0xF0, 0x10, 0x10],
    [0xF0, 0x10, 0xF0, 0x10, 0xF0],
    [0xF0, 0x80, 0xF0, 0x90, 0xF0],
    [0xF0, 0x10, 0x20, 0x40, 0x40],
    [0xF0, 0x90, 0xF0, 0x90, 0xF0],
    [0xF0, 0x90, 0xF0, 0x10, 0xF0],
    [0xF0, 0x90, 0xF0, 0x90, 0x90],
    [0xE0, 0x90, 0xE0, 0x90, 0xE0],
    [0xF0, 0x80, 0x80, 0x80, 0xF0],
    [0xE0, 0x90, 0x90, 0x90, 0xE0],
    [0xF0, 0x80, 0xF0, 0x80, 0xF0],
    [0xF0, 0x80, 0xF0, 0x80, 0x80],
];

/// A location in memory. Only the low twelve bits are ever meaningful.
pub type Address = u16;

/// The byte that fresh memory holds at `address`: a row of a digit sprite in
/// the first eighty bytes, zero everywhere else.
pub open spec fn initial_byte(address: int) -> u8 {
    if 0 <= address < 80 {
        HEX_SPRITES[address / 5][address % 5]
    } else {
        0
    }
}

/// Memory as `RAM::new` makes it.
pub open spec fn initial_memory() -> Seq<u8> {
    Seq::new(MEMORY_SIZE as nat, |address: int| initial_byte(address))
}

/// Where the sprite of a digit starts.
pub open spec fn sprite_address_of(digit: u8) -> int {
    SPRITE_SIZE * digit
}

pub struct RAM {
    pub value: [u8; MEMORY_SIZE],
}

impl View for RAM {
    type V = Seq<u8>;

    open spec fn view(&self) -> Seq<u8> {
        self.value@
    }
}

/// Something that a program can be loaded from.
///
/// An implementation says with `fits` how much room it needs and with `loads`
/// what a load may do to the region it is given; `load_into_ram` then owes
/// exactly that. Nothing is promised beyond what the implementation states
/// of itself.
pub trait ProgramLoader: Sized {
    /// What a load reports back.
    type Output;

    /// Whether a region of `room` bytes is large enough.
    spec fn fits(self, room: nat) -> bool;

    /// Whether a load may turn the region `before` into `after` and report
    /// `output`.
    spec fn loads(self, before: Seq<u8>, after: Seq<u8>, output: Self::Output) -> bool;

    fn load_into_ram(self, ram: &mut [u8]) -> (output: Self::Output)
        requires
            self.fits(old(ram)@.len()),
        ensures
            final(ram)@.len() == old(ram)@.len(),
            self.loads(old(ram)@, final(ram)@, output),
    ;
}

/// What copying `bytes` to the start of the region `before` leaves there.
pub open spec fn overwritten(before: Seq<u8>, bytes: Seq<u8>) -> Seq<u8> {
    bytes + before.subrange(bytes.len() as int, before.len() as int)
}

/// A buffer of bytes is copied as it is to the start of the region. What
/// lies behind the copy is left alone.
impl<'a> ProgramLoader for &'a [u8] {
    type Output = ();

    open spec fn fits(self, room: nat) -> bool {
        self@.len() <= room
    }

    open spec fn loads(self, before: Seq<u8>, after: Seq<u8>, output: ()) -> bool {
        after == overwritten(before, self@)
    }

    fn load_into_ram(self, ram: &mut [u8]) {
        let mut copied: usize = 0;
        while copied < self.len()
            invariant
                copied <= self@.len() <= ram@.len(),
                ram@.len() == old(ram)@.len(),
                ram@ == overwritten(old(ram)@, self@.subrange(0, copied as int)),
            decreases self@.len() - copied,
        {
            ram[copied] = self[copied];
            copied += 1;
        }
        assert(self@.subrange(0, copied as int) == self@);
    }
}

impl RAM {
    /// The region that programs load into.
    pub open spec fn program(&self) -> Seq<u8> {
        self@.subrange(ADDRESS_PROGRAM_START as int, MEMORY_SIZE as int)
    }

    /// The region that belongs to the interpreter.
    pub open spec fn interpreter(&self) -> Seq<u8> {
        self@.subrange(0, ADDRESS_PROGRAM_START as int)
    }

    /// Whether the digit sprites are where `RAM::new` put them.
    pub open spec fn has_font(&self) -> bool {
        forall|address: int| 0 <= address < 80 ==> self@[address] == initial_byte(address)
    }

    /// Zeroed memory with the digit sprites written to its start, the sprite
    /// of digit `d` at `5 * d`.
    pub fn new() -> (ram: RAM)
        ensures
            ram@ == initial_memory(),
            ram.has_font(),
    {
        let mut ram = RAM { value: [0;MEMORY_SIZE] };
        let mut digit: usize = 0;
        while digit < 16
            invariant
                digit <= 16,
                ram@.len() == MEMORY_SIZE,
                forall|address: int|
                    0 <= address < 5 * digit ==> ram@[address] == initial_byte(address),
                forall|address: int| 5 * digit <= address < MEMORY_SIZE ==> ram@[address] == 0,
            decreases 16 - digit,
        {
            let sprite = HEX_SPRITES[digit];
            let mut row: usize = 0;
            while row < 5
                invariant
                    digit < 16,
                    row <= 5,
                    sprite == HEX_SPRITES[digit as int],
                    ram@.len() == MEMORY_SIZE,
                    forall|address: int|
                        0 <= address < 5 * digit + row ==> ram@[address] == initial_byte(address),
                    forall|address: int|
                        5 * digit + row <= address < MEMORY_SIZE ==> ram@[address] == 0,
                decreases 5 - row,
            {
                ram.value[5 * digit + row] = sprite[row];
                row += 1;
            }
            digit += 1;
        }
        ram
    }

    pub fn program_memory(&self) -> (memory: &[u8])
        ensures
            memory@ == self.program(),
    {
        &self.value[ADDRESS_PROGRAM_START..MEMORY_SIZE]
    }

    /// The program region for writing: what is written through the result
    /// ends up in memory, and the interpreter's region stays as it is.
    pub fn program_memory_mut(&mut self) -> (memory: &mut [u8])
        ensures
            memory@ == old(self).program(),
            final(self)@ == old(self).interpreter() + final(memory)@,
    {
        let (_, memory) = self.value.split_at_mut(ADDRESS_PROGRAM_START);
        memory
    }

    /// Memory from `address` to its end.
    pub fn address(&self, address: Address) -> (memory: &[u8])
        requires
            address <= MEMORY_SIZE,
        ensures
            memory@ == self@.subrange(address as int, MEMORY_SIZE as int),
    {
        let address = address as usize;
        &self.value[address..MEMORY_SIZE]
    }

    /// Memory from `address` to its end, for writing: what is written through
    /// the result ends up in memory, and what lies below `address` stays as
    /// it is.
    pub fn address_mut(&mut self, address: Address) -> (memory: &mut [u8])
        requires
            address <= MEMORY_SIZE,
        ensures
            memory@ == old(self)@.subrange(address as int, MEMORY_SIZE as int),
            final(self)@ == old(self)@.subrange(0, address as int) + final(memory)@,
    {
        let address = address as usize;
        let (_, memory) = self.value.split_at_mut(address);
        memory
    }

    /// The two bytes of the instruction at `address`.
    pub fn get_instruction(&self, address: Address) -> (bytes: &[u8])
        requires
            address + 2 <= MEMORY_SIZE,
        ensures
            bytes@ == self@.subrange(address as int, address + 2),
    {
        let address = address as usize;
        &self.value[address..address + 2]
    }

    /// Where the sprite of the digit `value` starts.
    pub fn get_address_of_sprite(&self, value: u8) -> (address: Address)
        requires
            value <= 0xF,
        ensures
            address == sprite_address_of(value),
    {
        5 * value as u16
    }

    /// The `bytes` rows of the sprite that starts at `address`.
    pub fn get_sprite_at_address(&self, address: Address, bytes: u8) -> (sprite: &[u8])
        requires
            address + bytes <= MEMORY_SIZE,
        ensures
            sprite@ == self@.subrange(address as int, address + bytes),
    {
        let address = address as usize;
        let bytes = bytes as usize;
        &self.value[address..address + bytes]
    }

    /// Hands the program region to `loader`. The interpreter's region is not
    /// touched, whatever the loader does.
    pub fn load_program<T, U>(&mut self, loader: T) -> (output: U) where
        T: ProgramLoader<Output = U>,

        requires
            loader.fits(PROGRAM_MEMORY_SIZE as nat),
        ensures
            loader.loads(old(self).program(), final(self).program(), output),
            final(self).interpreter() == old(self).interpreter(),
    {
        let memory = self.program_memory_mut();
        let output = loader.load_into_ram(memory);
        proof {
            let after = old(self).interpreter() + memory@;
            assert(after.subrange(ADDRESS_PROGRAM_START as int, MEMORY_SIZE as int) == memory@);
        }
        output
    }

    /// Where the sprite of the digit `sprite_number` starts.
    pub fn sprite_address(sprite_number: u8) -> (address: Address)
        requires
            sprite_number <= 0xF,
        ensures
            address == sprite_address_of(sprite_number),
    {
        sprite_number as Address * SPRITE_SIZE as Address
    }
}

/// While the digit sprites are in place, the five bytes at a digit's sprite
/// address are that digit's sprite.
pub proof fn lemma_sprite_addressing(ram: RAM, digit: u8)
    requires
        ram.has_font(),
        digit <= 0xF,
    ensures
        ram@.subrange(sprite_address_of(digit), sprite_address_of(digit) + SPRITE_SIZE)
            == HEX_SPRITES[digit as int]@,
{
    let start = sprite_address_of(digit);
    let read = ram@.subrange(start, start + SPRITE_SIZE);
    assert forall|row: int| 0 <= row < 5 implies read[row] == HEX_SPRITES[digit as int]@[row] by {
        assert(ram@[start + row] == initial_byte(start + row));
    }
    assert(read =~= HEX_SPRITES[digit as int]@);
}

} // verus!
