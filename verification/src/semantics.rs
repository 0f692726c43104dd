//! The instruction semantics: for every opcode, what the machine state
//! becomes, and on which states an instruction faults. These spec
//! functions are the contract that the executable interpreter is proved
//! against.

use vstd::prelude::*;
use crate::state::{Chip8Error, MachineState};
use crate::decode::{d1, d2, d3, d4, imm_nn, addr_nnn};

verus! {

/// 8-bit addition, wrapping on overflow.
pub open spec fn wadd8(a: u8, b: u8) -> u8 {
    if a + b < 256 {
        (a + b) as u8
    } else {
        (a + b - 256) as u8
    }
}

/// 8-bit subtraction, wrapping on underflow.
pub open spec fn wsub8(a: u8, b: u8) -> u8 {
    if a >= b {
        (a - b) as u8
    } else {
        (a + 256 - b) as u8
    }
}

/// 16-bit addition, wrapping on overflow.
pub open spec fn wadd16(a: u16, b: u16) -> u16 {
    if a + b < 0x10000 {
        (a + b) as u16
    } else {
        (a + b - 0x10000) as u16
    }
}

/// 16-bit subtraction, wrapping on underflow.
pub open spec fn wsub16(a: u16, b: u16) -> u16 {
    if a >= b {
        (a - b) as u16
    } else {
        (a + 0x10000 - b) as u16
    }
}

/// Index of the lowest-numbered pressed key, scanning 0-15 from `i` up.
pub open spec fn first_key(keys: Seq<bool>, i: int) -> Option<int>
    decreases 16 - i,
{
    if i < 0 || i >= 16 {
        None
    } else if keys[i] {
        Some(i)
    } else {
        first_key(keys, i + 1)
    }
}

/// If `k` is pressed and nothing below it is, the scan from `i` finds `k`.
pub proof fn lemma_first_key_found(keys: Seq<bool>, i: int, k: int)
    requires
        0 <= i <= k < 16,
        keys[k],
        forall|j: int| i <= j < k ==> !keys[j],
    ensures
        first_key(keys, i) == Some(k),
    decreases k - i,
{
    if i < k {
        lemma_first_key_found(keys, i + 1, k);
    }
}

/// If nothing from `i` up is pressed, the scan from `i` finds nothing.
pub proof fn lemma_first_key_none(keys: Seq<bool>, i: int)
    requires
        0 <= i,
        forall|j: int| i <= j < 16 ==> !keys[j],
    ensures
        first_key(keys, i) is None,
    decreases 16 - i,
{
    if i < 16 {
        lemma_first_key_none(keys, i + 1);
    }
}

/// One sprite row XOR-drawn onto the display, bit by bit from `bit` up
/// (most significant bit first). `xc` is the sprite's x coordinate, `yr`
/// the already-wrapped target row. Returns the display and the collision
/// flag, which becomes true as soon as a lit pixel is toggled dark.
pub open spec fn spec_draw_bits(
    disp: Seq<bool>,
    byte: u8,
    xc: int,
    yr: int,
    bit: u8,
    flipped: bool,
) -> (Seq<bool>, bool)
    decreases 8 - bit,
{
    if bit >= 8 {
        (disp, flipped)
    } else {
        let idx = (xc + bit) % 64 + 64 * yr;
        if byte & (0x80u8 >> bit) != 0 {
            spec_draw_bits(
                disp.update(idx, !disp[idx]),
                byte,
                xc,
                yr,
                (bit + 1) as u8,
                flipped || disp[idx],
            )
        } else {
            spec_draw_bits(disp, byte, xc, yr, (bit + 1) as u8, flipped)
        }
    }
}

/// A sprite of `n` rows XOR-drawn onto the display, row by row from
/// `row` up; the sprite bytes are read from `ram` starting at `i`.
/// Target coordinates wrap modulo the screen size.
pub open spec fn spec_draw_rows(
    disp: Seq<bool>,
    ram: Seq<u8>,
    i: int,
    xc: int,
    yc: int,
    row: u8,
    n: u8,
    flipped: bool,
) -> (Seq<bool>, bool)
    decreases n - row,
{
    if row >= n {
        (disp, flipped)
    } else {
        let r = spec_draw_bits(disp, ram[i + row], xc, (yc + row) % 32, 0, flipped);
        spec_draw_rows(r.0, ram, i, xc, yc, (row + 1) as u8, n, r.1)
    }
}

/// On which states an instruction faults, and with which error.
/// `None` means the instruction executes.
pub open spec fn spec_execute_fault(s: MachineState, op: u16) -> Option<Chip8Error> {
    let x = d2(op) as int;
    if d1(op) == 0 && d2(op) == 0 && d3(op) == 0 && d4(op) == 0 {
        None
    } else if d1(op) == 0 && d2(op) == 0 && d3(op) == 0xE && d4(op) == 0 {
        None
    } else if d1(op) == 0 && d2(op) == 0 && d3(op) == 0xE && d4(op) == 0xE {
        if s.sp == 0 {
            Some(Chip8Error::MachineFault)
        } else {
            None
        }
    } else if d1(op) == 1 {
        None
    } else if d1(op) == 2 {
        if s.sp >= 16 {
            Some(Chip8Error::MachineFault)
        } else {
            None
        }
    } else if d1(op) == 3 || d1(op) == 4 {
        None
    } else if d1(op) == 5 && d4(op) == 0 {
        None
    } else if d1(op) == 6 || d1(op) == 7 || d1(op) == 8 {
        None
    } else if d1(op) == 9 && d4(op) == 0 {
        None
    } else if d1(op) == 0xA || d1(op) == 0xB || d1(op) == 0xC {
        None
    } else if d1(op) == 0xD {
        if d4(op) > 0 && s.i_reg + d4(op) > 4096 {
            Some(Chip8Error::MachineFault)
        } else {
            None
        }
    } else if d1(op) == 0xE && d3(op) == 9 && d4(op) == 0xE {
        if s.v_reg[x] >= 16 {
            Some(Chip8Error::MachineFault)
        } else {
            None
        }
    } else if d1(op) == 0xE && d3(op) == 0xA && d4(op) == 1 {
        if s.v_reg[x] >= 16 {
            Some(Chip8Error::MachineFault)
        } else {
            None
        }
    } else if d1(op) == 0xF && d3(op) == 0 && d4(op) == 7 {
        None
    } else if d1(op) == 0xF && d3(op) == 0 && d4(op) == 0xA {
        None
    } else if d1(op) == 0xF && d3(op) == 1 && (d4(op) == 5 || d4(op) == 8 || d4(op) == 0xE) {
        None
    } else if d1(op) == 0xF && d3(op) == 2 && d4(op) == 9 {
        None
    } else if d1(op) == 0xF && d3(op) == 3 && d4(op) == 3 {
        if s.i_reg + 3 > 4096 {
            Some(Chip8Error::MachineFault)
        } else {
            None
        }
    } else if d1(op) == 0xF && (d3(op) == 5 || d3(op) == 6) && d4(op) == 5 {
        if s.i_reg + x + 1 > 4096 {
            Some(Chip8Error::MachineFault)
        } else {
            None
        }
    } else {
        Some(Chip8Error::UnimplementedOpcode)
    }
}

/// The register-register ALU group 0x8xyN. A sub-dispatch digit outside
/// the defined operations leaves the state unchanged.
pub open spec fn spec_alu(s: MachineState, op: u16) -> MachineState {
    let x = d2(op) as int;
    let y = d3(op) as int;
    let a = s.v_reg[x];
    let b = s.v_reg[y];
    if d4(op) == 0 {
        MachineState { v_reg: s.v_reg.update(x, b), ..s }
    } else if d4(op) == 1 {
        MachineState { v_reg: s.v_reg.update(x, a | b), ..s }
    } else if d4(op) == 2 {
        MachineState { v_reg: s.v_reg.update(x, a & b), ..s }
    } else if d4(op) == 3 {
        MachineState { v_reg: s.v_reg.update(x, a ^ b), ..s }
    } else if d4(op) == 4 {
        let flag: u8 = if a + b > 255 { 1 } else { 0 };
        MachineState { v_reg: s.v_reg.update(x, wadd8(a, b)).update(15, flag), ..s }
    } else if d4(op) == 5 {
        let flag: u8 = if a >= b { 1 } else { 0 };
        MachineState { v_reg: s.v_reg.update(x, wsub8(a, b)).update(15, flag), ..s }
    } else if d4(op) == 6 {
        MachineState { v_reg: s.v_reg.update(x, a >> 1).update(15, a & 1), ..s }
    } else if d4(op) == 7 {
        let flag: u8 = if b >= a { 1 } else { 0 };
        MachineState { v_reg: s.v_reg.update(x, wsub8(b, a)).update(15, flag), ..s }
    } else if d4(op) == 0xE {
        MachineState { v_reg: s.v_reg.update(x, a << 1).update(15, (a >> 7) & 1), ..s }
    } else {
        s
    }
}

/// The state an instruction leaves behind, given the state it starts
/// from and, for the random-register instruction alone, the byte `rnd`
/// that the randomness source produced. Meaningful only on states where
/// `spec_execute_fault` is `None`; dispatch order mirrors the decode
/// order exactly.
pub open spec fn spec_execute_ok(s: MachineState, op: u16, rnd: u8) -> MachineState {
    let x = d2(op) as int;
    let y = d3(op) as int;
    let nn = imm_nn(op);
    let nnn = addr_nnn(op);
    if d1(op) == 0 && d2(op) == 0 && d3(op) == 0 && d4(op) == 0 {
        // explicit no-op
        s
    } else if d1(op) == 0 && d2(op) == 0 && d3(op) == 0xE && d4(op) == 0 {
        // clear the framebuffer
        MachineState { display: Seq::new(2048, |j: int| false), ..s }
    } else if d1(op) == 0 && d2(op) == 0 && d3(op) == 0xE && d4(op) == 0xE {
        // return: pop into the program counter
        MachineState { pc: s.stack[s.sp - 1], sp: (s.sp - 1) as u16, ..s }
    } else if d1(op) == 1 {
        // unconditional jump
        MachineState { pc: nnn, ..s }
    } else if d1(op) == 2 {
        // call: push the program counter, then jump
        MachineState {
            stack: s.stack.update(s.sp as int, s.pc),
            sp: (s.sp + 1) as u16,
            pc: nnn,
            ..s
        }
    } else if d1(op) == 3 {
        // skip if reg[x] == nn
        if s.v_reg[x] == nn {
            MachineState { pc: wadd16(s.pc, 2), ..s }
        } else {
            s
        }
    } else if d1(op) == 4 {
        // skip if reg[x] != nn
        if s.v_reg[x] != nn {
            MachineState { pc: wadd16(s.pc, 2), ..s }
        } else {
            s
        }
    } else if d1(op) == 5 && d4(op) == 0 {
        // skip if reg[x] == reg[y]
        if s.v_reg[x] == s.v_reg[y] {
            MachineState { pc: wadd16(s.pc, 2), ..s }
        } else {
            s
        }
    } else if d1(op) == 6 {
        // reg[x] = nn
        MachineState { v_reg: s.v_reg.update(x, nn), ..s }
    } else if d1(op) == 7 {
        // reg[x] += nn, wrapping, no flag
        MachineState { v_reg: s.v_reg.update(x, wadd8(s.v_reg[x], nn)), ..s }
    } else if d1(op) == 8 {
        spec_alu(s, op)
    } else if d1(op) == 9 && d4(op) == 0 {
        // skip if reg[x] != reg[y]
        if s.v_reg[x] != s.v_reg[y] {
            MachineState { pc: wadd16(s.pc, 2), ..s }
        } else {
            s
        }
    } else if d1(op) == 0xA {
        // index register = nnn
        MachineState { i_reg: nnn, ..s }
    } else if d1(op) == 0xB {
        // jump to reg[0] + nnn
        MachineState { pc: (s.v_reg[0] + nnn) as u16, ..s }
    } else if d1(op) == 0xC {
        // reg[x] = random byte masked with nn
        MachineState { v_reg: s.v_reg.update(x, rnd & nn), ..s }
    } else if d1(op) == 0xD {
        // draw an n-row sprite at (reg[x], reg[y]) with collision flag
        let r = spec_draw_rows(
            s.display,
            s.ram,
            s.i_reg as int,
            s.v_reg[x] as int,
            s.v_reg[y] as int,
            0,
            d4(op) as u8,
            false,
        );
        MachineState {
            display: r.0,
            v_reg: s.v_reg.update(15, if r.1 { 1u8 } else { 0u8 }),
            ..s
        }
    } else if d1(op) == 0xE && d3(op) == 9 && d4(op) == 0xE {
        // skip if key[reg[x]] is pressed
        if s.keys[s.v_reg[x] as int] {
            MachineState { pc: wadd16(s.pc, 2), ..s }
        } else {
            s
        }
    } else if d1(op) == 0xE && d3(op) == 0xA && d4(op) == 1 {
        // skip if key[reg[x]] is not pressed
        if !s.keys[s.v_reg[x] as int] {
            MachineState { pc: wadd16(s.pc, 2), ..s }
        } else {
            s
        }
    } else if d1(op) == 0xF && d3(op) == 0 && d4(op) == 7 {
        // reg[x] = delay timer
        MachineState { v_reg: s.v_reg.update(x, s.dt), ..s }
    } else if d1(op) == 0xF && d3(op) == 0 && d4(op) == 0xA {
        // blocking key wait: record the lowest pressed key, or rewind
        // the program counter so the same opcode is fetched again
        match first_key(s.keys, 0) {
            Some(k) => MachineState { v_reg: s.v_reg.update(x, k as u8), ..s },
            None => MachineState { pc: wsub16(s.pc, 2), ..s },
        }
    } else if d1(op) == 0xF && d3(op) == 1 && d4(op) == 5 {
        // delay timer = reg[x]
        MachineState { dt: s.v_reg[x], ..s }
    } else if d1(op) == 0xF && d3(op) == 1 && d4(op) == 8 {
        // sound timer = reg[x]
        MachineState { st: s.v_reg[x], ..s }
    } else if d1(op) == 0xF && d3(op) == 1 && d4(op) == 0xE {
        // index register += reg[x], wrapping
        MachineState { i_reg: wadd16(s.i_reg, s.v_reg[x] as u16), ..s }
    } else if d1(op) == 0xF && d3(op) == 2 && d4(op) == 9 {
        // index register = font glyph base address of digit reg[x]
        MachineState { i_reg: (s.v_reg[x] * 5) as u16, ..s }
    } else if d1(op) == 0xF && d3(op) == 3 && d4(op) == 3 {
        // store reg[x] as three decimal digits at the index register
        let v = s.v_reg[x];
        let i = s.i_reg as int;
        MachineState {
            ram: s.ram.update(i, v / 100).update(i + 1, (v / 10) % 10).update(i + 2, v % 10),
            ..s
        }
    } else if d1(op) == 0xF && d3(op) == 5 && d4(op) == 5 {
        // store reg[0..=x] to memory at the index register
        let i = s.i_reg as int;
        MachineState {
            ram: Seq::new(
                4096,
                |j: int| if i <= j <= i + x {
                    s.v_reg[j - i]
                } else {
                    s.ram[j]
                },
            ),
            ..s
        }
    } else if d1(op) == 0xF && d3(op) == 6 && d4(op) == 5 {
        // load reg[0..=x] from memory at the index register
        let i = s.i_reg as int;
        MachineState {
            v_reg: Seq::new(
                16,
                |j: int| if j <= x {
                    s.ram[i + j]
                } else {
                    s.v_reg[j]
                },
            ),
            ..s
        }
    } else {
        s
    }
}

/// The opcode stored big-endian at `pc`.
pub open spec fn spec_opcode_at(ram: Seq<u8>, pc: u16) -> u16 {
    (ram[pc as int] * 256 + ram[pc as int + 1]) as u16
}

/// Fetch advances the program counter by two, unconditionally, before
/// the instruction executes.
pub open spec fn spec_fetch_ok(s: MachineState) -> MachineState {
    MachineState { pc: (s.pc + 2) as u16, ..s }
}

/// Whether a fetch faults: the program counter must reference two
/// consecutive valid memory bytes.
pub open spec fn spec_fetch_fault(s: MachineState) -> bool {
    s.pc + 1 >= 4096
}

/// On which states one whole fetch-decode-execute cycle faults.
pub open spec fn spec_tick_fault(s: MachineState) -> Option<Chip8Error> {
    if spec_fetch_fault(s) {
        Some(Chip8Error::MachineFault)
    } else {
        spec_execute_fault(spec_fetch_ok(s), spec_opcode_at(s.ram, s.pc))
    }
}

/// The state after one whole fetch-decode-execute cycle, given the byte
/// the randomness source produced. Meaningful only on states where
/// `spec_tick_fault` is `None`.
pub open spec fn spec_tick_ok(s: MachineState, rnd: u8) -> MachineState {
    spec_execute_ok(spec_fetch_ok(s), spec_opcode_at(s.ram, s.pc), rnd)
}

} // verus!
