//! The mathematical model of the machine: one ghost record holding every
//! piece of interpreter state, the well-formedness predicate on it, the
//! initial state, and the effect of loading a program image.

use vstd::prelude::*;
use crate::font::font_seq;

verus! {

/// Everything the interpreter can fail with.
#[derive(Clone, Copy, Debug, PartialEq, Eq, Structural)]
pub enum Chip8Error {
    /// The fetched opcode matches no known instruction pattern.
    UnimplementedOpcode,
    /// A machine-level contract was violated: stack overflow on call,
    /// stack underflow on return, a memory access past the 4096 bytes of
    /// RAM, or a key index outside 0-15.
    MachineFault,
}

/// The whole machine state as plain mathematical values.
#[verifier::ext_equal]
pub ghost struct MachineState {
    /// Program counter: address of the next opcode to fetch.
    pub pc: u16,
    /// 4096 bytes of memory; the first 80 hold the font.
    pub ram: Seq<u8>,
    /// 64x32 monochrome framebuffer, row-major, `true` = lit.
    pub display: Seq<bool>,
    /// The 16 general-purpose data registers; register 0xF is the flag register.
    pub v_reg: Seq<u8>,
    /// Index register: memory pointer for draw/store/load instructions.
    pub i_reg: u16,
    /// Stack pointer: index of the next free stack slot.
    pub sp: u16,
    /// 16 call-return addresses.
    pub stack: Seq<u16>,
    /// Pressed state of the 16 keys.
    pub keys: Seq<bool>,
    /// Delay timer, decremented at the external timer cadence.
    pub dt: u8,
    /// Sound timer, decremented at the external timer cadence.
    pub st: u8,
}

impl MachineState {
    /// Every fixed-size component has its size and the stack pointer stays
    /// within the stack.
    pub open spec fn wf(self) -> bool {
        &&& self.ram.len() == 4096
        &&& self.display.len() == 2048
        &&& self.v_reg.len() == 16
        &&& self.stack.len() == 16
        &&& self.keys.len() == 16
        &&& self.sp <= 16
    }
}

/// The sole initial state, established by construction and by reset:
/// the font in the first 80 bytes of memory, everything else zeroed,
/// and the program counter at the load base address.
pub open spec fn init_state() -> MachineState {
    MachineState {
        pc: 0x200,
        ram: Seq::new(4096, |j: int| if j < 80 { font_seq()[j] } else { 0u8 }),
        display: Seq::new(2048, |j: int| false),
        v_reg: Seq::new(16, |j: int| 0u8),
        i_reg: 0,
        sp: 0,
        stack: Seq::new(16, |j: int| 0u16),
        keys: Seq::new(16, |j: int| false),
        dt: 0,
        st: 0,
    }
}

/// Loading a program image copies the bytes verbatim into memory starting
/// at the base load address and changes nothing else.
pub open spec fn spec_load(s: MachineState, data: Seq<u8>) -> MachineState {
    MachineState {
        ram: Seq::new(
            4096,
            |j: int| if 0x200 <= j < 0x200 + data.len() {
                data[j - 0x200]
            } else {
                s.ram[j]
            },
        ),
        ..s
    }
}

} // verus!
