use vstd::prelude::*;

verus! {

/// The operand of an instruction: one byte or one little-endian word.
#[derive(Debug, Copy, Clone, PartialEq, Eq, Structural)]
pub enum Operand {
    Byte(u8),
    Word(u16),
}

impl Operand {
    /// The byte of a one-byte operand.
    pub fn get_byte(&self) -> (r: Option<u8>)
        ensures
            r == (match *self {
                Operand::Byte(b) => Some(b),
                Operand::Word(_) => None,
            }),
    {
        match self {
            Operand::Byte(b) => Some(*b),
            Operand::Word(_) => None,
        }
    }

    /// The word of a two-byte operand.
    pub fn get_word(&self) -> (r: Option<u16>)
        ensures
            r == (match *self {
                Operand::Byte(_) => None,
                Operand::Word(w) => Some(w),
            }),
    {
        match self {
            Operand::Byte(_) => None,
            Operand::Word(w) => Some(*w),
        }
    }

    /// The byte of a one-byte operand, widened to a word.
    pub fn get_byte_as_u16(&self) -> (r: Option<u16>)
        ensures
            r == (match *self {
                Operand::Byte(b) => Some(b as u16),
                Operand::Word(_) => None,
            }),
    {
        match self {
            Operand::Byte(b) => Some(*b as u16),
            Operand::Word(_) => None,
        }
    }
}

} // verus!
