//! Decoding: splitting a 16-bit opcode into its four nibbles and its
//! immediate forms.

use vstd::prelude::*;

verus! {

/// Highest nibble: the main dispatch digit.
pub open spec fn d1(op: u16) -> u16 {
    op / 0x1000
}

/// Second nibble: register index x.
pub open spec fn d2(op: u16) -> u16 {
    (op / 0x100) % 0x10
}

/// Third nibble: register index y.
pub open spec fn d3(op: u16) -> u16 {
    (op / 0x10) % 0x10
}

/// Lowest nibble: sub-dispatch digit or sprite height n.
pub open spec fn d4(op: u16) -> u16 {
    op % 0x10
}

/// Low byte: the immediate nn.
pub open spec fn imm_nn(op: u16) -> u8 {
    (op % 0x100) as u8
}

/// Low 12 bits: the address nnn.
pub open spec fn addr_nnn(op: u16) -> u16 {
    op % 0x1000
}

} // verus!
