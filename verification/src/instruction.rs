//! The instruction decoder: a pure map from a 16-bit word to its fields.

use vstd::prelude::*;

verus! {

/// The decoded view of one 16-bit instruction word.
///
/// Every word decodes; whether the engine implements it is decided at
/// dispatch.
#[derive(Debug, Clone, Copy, PartialEq, Eq, Structural)]
pub struct Instruction {
    /// The raw word, high byte first.
    pub opcode: u16,
    /// Opcode class: bits 12 to 15.
    pub class: u8,
    /// Address field: bits 0 to 11.
    pub nnn: u16,
    /// Immediate byte: bits 0 to 7.
    pub nn: u8,
    /// Immediate nibble: bits 0 to 3.
    pub n: u8,
    /// First register operand: bits 8 to 11.
    pub x: u8,
    /// Second register operand: bits 4 to 7.
    pub y: u8,
}

/// The big-endian word made of two consecutive bytes.
pub open spec fn word_spec(hi: u8, lo: u8) -> u16 {
    (hi as int * 256 + lo as int) as u16
}

impl Instruction {
    /// The fields of `opcode`, stated by division and remainder.
    pub open spec fn of_word(opcode: u16) -> Instruction {
        Instruction {
            opcode,
            class: (opcode as int / 0x1000) as u8,
            nnn: (opcode as int % 0x1000) as u16,
            nn: (opcode as int % 0x100) as u8,
            n: (opcode as int % 0x10) as u8,
            x: ((opcode as int / 0x100) % 0x10) as u8,
            y: ((opcode as int / 0x10) % 0x10) as u8,
        }
    }

    /// The instruction held in the bytes `hi`, `lo`.
    pub open spec fn decode_spec(hi: u8, lo: u8) -> Instruction {
        Instruction::of_word(word_spec(hi, lo))
    }

    /// Decodes the word whose high byte is `hi` and whose low byte is `lo`.
    pub fn decode(hi: u8, lo: u8) -> (ins: Instruction)
        ensures
            ins == Instruction::decode_spec(hi, lo),
    {
        let opcode: u16 = ((hi as u16) << 8) | (lo as u16);
        let class: u8 = (opcode >> 12) as u8;
        let nnn: u16 = opcode & 0x0FFF;
        let nn: u8 = (opcode & 0x00FF) as u8;
        let n: u8 = (opcode & 0x000F) as u8;
        let x: u8 = ((opcode & 0x0F00) >> 8) as u8;
        let y: u8 = ((opcode & 0x00F0) >> 4) as u8;
        proof {
            assert(opcode == hi as u16 * 256 + lo as u16) by (bit_vector)
                requires
                    opcode == ((hi as u16) << 8) | (lo as u16),
            ;
            assert(opcode >> 12 == opcode / 0x1000 && opcode >> 12 < 16) by (bit_vector);
            assert(opcode & 0x0FFF == opcode % 0x1000) by (bit_vector);
            assert(opcode & 0x00FF == opcode % 0x100) by (bit_vector);
            assert(opcode & 0x000F == opcode % 0x10) by (bit_vector);
            assert((opcode & 0x0F00) >> 8 == (opcode / 0x100) % 0x10) by (bit_vector);
            assert((opcode & 0x00F0) >> 4 == (opcode / 0x10) % 0x10) by (bit_vector);
        }
        Instruction { opcode, class, nnn, nn, n, x, y }
    }
}

/// The fields of a decoded word are in range and recompose to the word:
/// class, `x`, `y` and `n` are its four nibbles from the top down, `nn` its
/// low byte and `nnn` its low twelve bits.
pub proof fn lemma_fields_recompose(opcode: u16)
    ensures
        ({
            let ins = Instruction::of_word(opcode);
            &&& ins.opcode == opcode
            &&& ins.class < 16 && ins.x < 16 && ins.y < 16 && ins.n < 16
            &&& ins.nnn < 0x1000
            &&& opcode == ins.class * 0x1000 + ins.x * 0x100 + ins.y * 0x10 + ins.n
            &&& ins.nnn == ins.x * 0x100 + ins.y * 0x10 + ins.n
            &&& ins.nn == ins.y * 0x10 + ins.n
        }),
{
    assert(opcode / 0x1000 < 16 && opcode % 0x1000 < 0x1000 && opcode % 0x100 < 0x100
        && opcode % 0x10 < 0x10 && (opcode / 0x100) % 0x10 < 0x10 && (opcode / 0x10) % 0x10
        < 0x10) by (bit_vector);
    assert(opcode == (opcode / 0x1000) * 0x1000 + ((opcode / 0x100) % 0x10) * 0x100 + ((opcode
        / 0x10) % 0x10) * 0x10 + opcode % 0x10) by (bit_vector);
    assert(opcode % 0x1000 == ((opcode / 0x100) % 0x10) * 0x100 + ((opcode / 0x10) % 0x10) * 0x10
        + opcode % 0x10) by (bit_vector);
    assert(opcode % 0x100 == ((opcode / 0x10) % 0x10) * 0x10 + opcode % 0x10) by (bit_vector);
}

/// Decoding two bytes keeps them: the word's high byte is `hi`, its low
/// byte, the immediate `nn`, is `lo`.
pub proof fn lemma_decode_bytes(hi: u8, lo: u8)
    ensures
        ({
            let ins = Instruction::decode_spec(hi, lo);
            &&& ins.opcode == hi * 256 + lo
            &&& ins.nn == lo
            &&& ins.class == hi / 16
            &&& ins.x == hi % 16
        }),
{
}

} // verus!
