use vstd::prelude::*;

use crate::memory::MemoryError;

verus! {

/// Console address of the four button bitfields, read as one big-endian word.
/// Its top byte flags the buttons held down, bit 7 of it (bit 31 of the word)
/// being the d-pad left arrow.
pub const INPUT_RANGE: usize = 0x803A4E20;

/// Bit of the input word that flags the d-pad left arrow.
pub const DPAD_LEFT_BIT: usize = 31;

/// Bit `bit` of `v`, counting from the least significant.
pub open spec fn bit_of(v: u32, bit: usize) -> bool {
    v & (1u32 << bit) != 0
}

/// Relies on `bit_field::BitField::get_bit` for `u32`: it asserts
/// `bit < 32` and returns `(v & (1 << bit)) != 0`.
#[verifier::external_body]
fn get_bit(v: u32, bit: usize) -> (r: bool)
    requires
        bit < 32,
    ensures
        r == bit_of(v, bit),
{
    bit_field::BitField::get_bit(&v, bit)
}

/// The controller state this library decodes.
#[derive(Debug, Clone, Copy, Default, PartialEq, Eq, Structural)]
pub struct Inputs {
    pub dpad_left_just_pressed: bool,
}

impl Inputs {
    /// Takes in what a read of the input word gave: on success the flags are
    /// decoded from it and the new state handed back; a failure is handed back
    /// with the state untouched.
    pub fn read(&mut self, raw: Result<u32, MemoryError>) -> (r: Result<Inputs, MemoryError>)
        ensures
            raw is Ok ==> final(self).dpad_left_just_pressed == bit_of(raw->Ok_0, DPAD_LEFT_BIT)
                && r == Ok::<Inputs, MemoryError>(*final(self)),
            raw is Err ==> *final(self) == *old(self) && r == Err::<Inputs, MemoryError>(
                raw->Err_0,
            ),
    {
        match raw {
            Ok(word) => {
                self.dpad_left_just_pressed = get_bit(word, DPAD_LEFT_BIT);
                Ok(*self)
            },
            Err(e) => Err(e),
        }
    }
}

} // verus!
