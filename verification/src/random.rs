//! Where the machine gets its random bytes from.

use rand::Rng;
use vstd::prelude::*;

verus! {

/// A source of random bytes.
///
/// An implementation may say with `gives` which byte a call can hand out;
/// the call then owes exactly that. One that says nothing allows every byte.
pub trait RandomSource {
    /// Whether a call of `gen` may hand out `byte` and leave `after`.
    open spec fn gives(&self, byte: u8, after: &Self) -> bool {
        true
    }

    fn gen(&mut self) -> (byte: u8)
        ensures
            old(self).gives(byte, final(self)),
    ;
}

/// A source that hands out a fixed sequence of bytes over and over.
pub struct FixedRandomSource {
    numbers: Vec<u8>,
    index: usize,
}

impl FixedRandomSource {
    #[verifier::type_invariant]
    spec fn well_formed(self) -> bool {
        self.index < self.numbers@.len()
    }

    /// The bytes that the source cycles through.
    pub closed spec fn numbers(&self) -> Seq<u8> {
        self.numbers@
    }

    /// Where in `numbers` the next byte comes from.
    pub closed spec fn position(&self) -> int {
        self.index as int
    }

    /// A source that starts at the first of `numbers`, of which there has to
    /// be at least one.
    pub fn new(numbers: Vec<u8>) -> (source: FixedRandomSource)
        requires
            numbers@.len() > 0,
        ensures
            source.numbers() == numbers@,
            source.position() == 0,
    {
        FixedRandomSource { numbers, index: 0 }
    }
}

impl RandomSource for FixedRandomSource {
    /// The byte at the position is handed out. The position moves on by one
    /// and goes back to the start behind the last byte.
    open spec fn gives(&self, byte: u8, after: &Self) -> bool {
        let numbers = self.numbers();
        let position = self.position();
        &&& 0 <= position < numbers.len()
        &&& byte == numbers[position]
        &&& after.numbers() == numbers
        &&& after.position() == (position + 1) % (numbers.len() as int)
    }

    fn gen(&mut self) -> (number: u8) {
        proof {
            use_type_invariant(&*self);
        }
        let length = self.numbers.len();
        let number = self.numbers[self.index];
        proof {
            if self.index + 1 == length {
                vstd::arithmetic::div_mod::lemma_mod_self_0(length as int);
            } else {
                vstd::arithmetic::div_mod::lemma_small_mod((self.index + 1) as nat, length as nat);
            }
        }
        self.index = if self.index + 1 == length {
            0
        } else {
            self.index + 1
        };
        number
    }
}

/// A source that draws from the calling thread's generator. Its bytes are
/// random, so it says nothing of them: it keeps the `gives` that allows
/// every byte.
pub struct ThreadRandomSource;

impl RandomSource for ThreadRandomSource {
    fn gen(&mut self) -> u8 {
        thread_random_byte()
    }
}

/// Calls `rand::thread_rng()` and draws one `u8` from it with `Rng::gen`.
/// The byte is random, so the contract says nothing of it. The generator is
/// seeded from the operating system on a thread's first call, and `rand`
/// panics if that fails.
#[verifier::external_body]
fn thread_random_byte() -> u8 {
    rand::thread_rng().gen()
}

} // verus!
