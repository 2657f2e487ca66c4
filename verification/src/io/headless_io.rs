//! A display and keypad without a window: the pixels are a buffer in memory
//! and the keys are down when the owner says so.

use crate::io::chip8_io::{Chip8IO, Chip8IOError, Chip8IOResult};
use crate::io::graphics::{collides, drawn, GraphicsBuffer, SpriteData, BUFFER_SIZE};
use crate::io::input::{Key, Keypad};
use vstd::prelude::*;

verus! {

pub struct HeadlessIO {
    pub graphics_buffer: GraphicsBuffer,
    pub keypad: Keypad,
    /// The key that a wait for a key is answered with, if there is one.
    pub interrupt_key: Option<Key>,
}

impl HeadlessIO {
    /// A dark screen, no key down and no key set aside for a wait.
    pub fn new() -> (io: Self)
        ensures
            io.graphics_buffer@ == Seq::new(BUFFER_SIZE as nat, |index: int| false),
            io.keypad@ == Set::<Key>::empty(),
            io.interrupt_key is None,
    {
        HeadlessIO {
            graphics_buffer: GraphicsBuffer::new(),
            keypad: Keypad::new(),
            interrupt_key: None,
        }
    }
}

impl Chip8IO for HeadlessIO {
    /// Clearing always succeeds and leaves a dark screen. The keys are not
    /// touched.
    open spec fn clears(&self, result: Chip8IOResult<()>, after: &Self) -> bool {
        &&& result is Ok
        &&& after.graphics_buffer@ == Seq::new(BUFFER_SIZE as nat, |index: int| false)
        &&& after.keypad == self.keypad
        &&& after.interrupt_key == self.interrupt_key
    }

    /// Drawing always succeeds: the sprite is drawn onto the buffer, and the
    /// answer is whether that turned a lit pixel off. The keys are not
    /// touched.
    open spec fn draws(
        &self,
        x: u8,
        y: u8,
        sprite: Seq<u8>,
        result: Chip8IOResult<bool>,
        after: &Self,
    ) -> bool {
        &&& result == Ok::<bool, Chip8IOError>(
            collides(self.graphics_buffer@, x, y, sprite, sprite.len() as int),
        )
        &&& after.graphics_buffer@ == drawn(
            self.graphics_buffer@,
            x,
            y,
            sprite,
            sprite.len() as int,
        )
        &&& after.keypad == self.keypad
        &&& after.interrupt_key == self.interrupt_key
    }

    /// Asking for a key always succeeds: the answer is whether the keypad
    /// has the key down. Nothing changes.
    open spec fn answers_for_key(
        &self,
        key: Key,
        result: Chip8IOResult<bool>,
        after: &Self,
    ) -> bool {
        &&& result == Ok::<bool, Chip8IOError>(self.keypad@.contains(key))
        &&& *after == *self
    }

    fn clear(&mut self) -> (result: Chip8IOResult<()>) {
        self.graphics_buffer.clear();
        Ok(())
    }

    fn draw(&mut self, x: u8, y: u8, sprite: &SpriteData) -> (result: Chip8IOResult<bool>) {
        let result = self.graphics_buffer.draw(x, y, sprite);
        Ok(result)
    }

    fn key_pressed(&mut self, key: Key) -> (result: Chip8IOResult<bool>) {
        Ok(self.keypad.is_pressed(&key))
    }

    /// Nobody can press a key here, so nothing is waited for: the answer is
    /// the key that was set aside, and without one the wait fails as a closed
    /// channel does.
    fn block_for_key(&mut self) -> (result: Chip8IOResult<Key>)
        ensures
            result == match old(self).interrupt_key {
                Some(key) => Ok::<Key, Chip8IOError>(key),
                None => Err::<Key, Chip8IOError>(Chip8IOError::Channel),
            },
            *final(self) == *old(self),
    {
        match self.interrupt_key {
            Some(key) => Ok(key),
            None => Err(Chip8IOError::Channel),
        }
    }
}

} // verus!
