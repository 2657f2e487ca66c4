//! The capability through which the machine reaches its display and keypad.

use crate::io::graphics::SpriteData;
use crate::io::input::Key;
use vstd::prelude::*;

verus! {

/// Why the display or the keypad could not do what it was asked.
#[derive(Copy, Clone, Debug, PartialEq, Eq, Structural)]
pub enum Chip8IOError {
    /// The lock around the shared display and keypad state could not be
    /// taken.
    Lock,
    /// The channel that hands a key press over is closed: no key will come.
    Channel,
}

pub type Chip8IOResult<T> = Result<T, Chip8IOError>;

/// A display and a keypad.
///
/// The machine is written against this trait alone. Of each call that the
/// machine makes, an implementation may say with a spec function what the
/// call can do; the call then owes exactly that. An implementation that says
/// nothing allows everything, and the machine is proved for whatever comes
/// back.
pub trait Chip8IO: Sized {
    /// Whether a call of `clear` may end with `result` and leave `after`.
    open spec fn clears(&self, result: Chip8IOResult<()>, after: &Self) -> bool {
        true
    }

    /// Whether a call of `draw` with these arguments may end with `result`
    /// and leave `after`.
    open spec fn draws(
        &self,
        x: u8,
        y: u8,
        sprite: Seq<u8>,
        result: Chip8IOResult<bool>,
        after: &Self,
    ) -> bool {
        true
    }

    /// Whether a call of `key_pressed` for `key` may end with `result` and
    /// leave `after`.
    open spec fn answers_for_key(
        &self,
        key: Key,
        result: Chip8IOResult<bool>,
        after: &Self,
    ) -> bool {
        true
    }

    /// Turns every pixel off.
    fn clear(&mut self) -> (result: Chip8IOResult<()>)
        ensures
            old(self).clears(result, final(self)),
    ;

    /// Draws a sprite from (`x`, `y`) and says whether a lit pixel went dark.
    fn draw(&mut self, x: u8, y: u8, sprite: &SpriteData) -> (result: Chip8IOResult<bool>)
        ensures
            old(self).draws(x, y, sprite@, result, final(self)),
    ;

    /// Whether `key` is down.
    fn key_pressed(&mut self, key: Key) -> (result: Chip8IOResult<bool>)
        ensures
            old(self).answers_for_key(key, result, final(self)),
    ;

    /// Waits until a key goes down and returns it.
    fn block_for_key(&mut self) -> Chip8IOResult<Key>;
}

} // verus!
