//! The executable interpreter: the machine state as runtime data and the
//! narrow API the host drives it by, each operation proved against the
//! instruction semantics.

use vstd::prelude::*;
use crate::font::{font_seq, font_table};
use crate::state::{Chip8Error, MachineState, init_state, spec_load};
use crate::decode::{d1, d2, d3, d4};
use crate::semantics::{
    wadd8, wsub8, wadd16, wsub16, first_key, spec_draw_bits, spec_draw_rows,
    spec_execute_fault, spec_alu, spec_execute_ok, spec_opcode_at, spec_fetch_ok,
    spec_fetch_fault, spec_tick_fault, spec_tick_ok,
    lemma_first_key_found, lemma_first_key_none,
};
use crate::rng::random_byte;
use crate::{RAM_SIZE, SCREEN_HEIGHT, SCREEN_WIDTH, START_ADDRESS};

verus! {

/// The interpreter. It owns all machine state; the host drives it by
/// loading a program, advancing cycles and timer ticks, and feeding key
/// state in.
pub struct Emulator {
    pub pc: u16,
    pub ram: Vec<u8>,
    pub display: Vec<bool>,
    pub v_reg: Vec<u8>,
    pub i_reg: u16,
    pub sp: u16,
    pub stack: Vec<u16>,
    pub keys: Vec<bool>,
    pub dt: u8,
    pub st: u8,
}

impl View for Emulator {
    type V = MachineState;

    open spec fn view(&self) -> MachineState {
        MachineState {
            pc: self.pc,
            ram: self.ram@,
            display: self.display@,
            v_reg: self.v_reg@,
            i_reg: self.i_reg,
            sp: self.sp,
            stack: self.stack@,
            keys: self.keys@,
            dt: self.dt,
            st: self.st,
        }
    }
}

/// A vector of `n` copies of `val`.
fn filled<T: Copy>(n: usize, val: T) -> (r: Vec<T>)
    ensures
        r@.len() == n,
        forall|j: int| 0 <= j < n ==> r@[j] == val,
{
    let mut r: Vec<T> = Vec::new();
    let mut i: usize = 0;
    while i < n
        invariant
            i <= n,
            r@.len() == i,
            forall|j: int| 0 <= j < i ==> r@[j] == val,
        decreases n - i,
    {
        r.push(val);
        i = i + 1;
    }
    r
}

/// 16-bit wrapping addition.
fn add16(a: u16, b: u16) -> (r: u16)
    ensures
        r == wadd16(a, b),
{
    let s: u32 = a as u32 + b as u32;
    if s >= 0x10000 {
        (s - 0x10000) as u16
    } else {
        s as u16
    }
}

/// 16-bit wrapping subtraction.
fn sub16(a: u16, b: u16) -> (r: u16)
    ensures
        r == wsub16(a, b),
{
    if a >= b {
        a - b
    } else {
        (a as u32 + 0x10000 - b as u32) as u16
    }
}

/// 8-bit wrapping addition.
fn add8(a: u8, b: u8) -> (r: u8)
    ensures
        r == wadd8(a, b),
{
    let s: u16 = a as u16 + b as u16;
    if s >= 256 {
        (s - 256) as u8
    } else {
        s as u8
    }
}

/// 8-bit wrapping subtraction.
fn sub8(a: u8, b: u8) -> (r: u8)
    ensures
        r == wsub8(a, b),
{
    if a >= b {
        a - b
    } else {
        (a as u16 + 256 - b as u16) as u8
    }
}

impl Emulator {
    /// All runtime components have their fixed sizes and the stack
    /// pointer stays within the stack.
    pub open spec fn wf(&self) -> bool {
        self@.wf()
    }

    /// Construct the machine in its sole initial state: font loaded,
    /// everything else zeroed, program counter at the load base.
    pub fn new() -> (r: Self)
        ensures
            r.wf(),
            r@ == init_state(),
    {
        let mut ram = font_table();
        while ram.len() < RAM_SIZE
            invariant
                80 <= ram@.len() <= 4096,
                forall|j: int| 0 <= j < 80 ==> ram@[j] == font_seq()[j],
                forall|j: int| 80 <= j < ram@.len() ==> ram@[j] == 0u8,
            decreases 4096 - ram@.len(),
        {
            ram.push(0u8);
        }
        let r = Emulator {
            pc: START_ADDRESS,
            ram,
            display: filled(SCREEN_WIDTH * SCREEN_HEIGHT, false),
            v_reg: filled(16, 0u8),
            i_reg: 0,
            sp: 0,
            stack: filled(16, 0u16),
            keys: filled(16, false),
            dt: 0,
            st: 0,
        };
        proof {
            assert(r@.ram =~= init_state().ram);
            assert(r@.display =~= init_state().display);
            assert(r@.v_reg =~= init_state().v_reg);
            assert(r@.stack =~= init_state().stack);
            assert(r@.keys =~= init_state().keys);
            assert(r@ =~= init_state());
        }
        r
    }

    /// Return the machine to the initial state, exactly as construction
    /// leaves it.
    pub fn reset(&mut self)
        ensures
            final(self).wf(),
            final(self)@ == init_state(),
    {
        *self = Emulator::new();
    }

    /// The 64x32 framebuffer, row-major, `true` = lit.
    pub fn get_display(&self) -> (r: &[bool])
        ensures
            r@ == self@.display,
    {
        self.display.as_slice()
    }

    /// Record the pressed state of key `idx`. The caller guarantees the
    /// index is one of the 16 keys.
    pub fn key_pressed(&mut self, idx: usize, pressed: bool)
        requires
            old(self).wf(),
            idx < 16,
        ensures
            final(self).wf(),
            final(self)@ == (MachineState { keys: old(self)@.keys.update(idx as int, pressed), ..old(self)@ }),
    {
        self.keys[idx] = pressed;
    }

    /// Copy a program image verbatim into memory at the base load
    /// address. The caller guarantees the image fits below the end of
    /// memory; the font region below the base address is untouched.
    pub fn load(&mut self, data: &[u8])
        requires
            old(self).wf(),
            data@.len() <= 4096 - 0x200,
        ensures
            final(self).wf(),
            final(self)@ == spec_load(old(self)@, data@),
    {
        let mut i: usize = 0;
        while i < data.len()
            invariant
                old(self).wf(),
                i <= data@.len(),
                data@.len() <= 4096 - 0x200,
                self.wf(),
                self@ == (MachineState { ram: self@.ram, ..old(self)@ }),
                forall|j: int| 0x200 <= j < 0x200 + i ==> self@.ram[j] == data@[j - 0x200],
                forall|j: int| 0 <= j < 4096 && !(0x200 <= j < 0x200 + i) ==> self@.ram[j]
                    == old(self)@.ram[j],
            decreases data@.len() - i,
        {
            self.ram[0x200 + i] = data[i];
            i = i + 1;
        }
        proof {
            assert(self@.ram =~= spec_load(old(self)@, data@).ram);
            assert(self@ =~= spec_load(old(self)@, data@));
        }
    }

    /// Push a return address. The caller guarantees a free stack slot.
    pub fn push(&mut self, val: u16)
        requires
            old(self).wf(),
            old(self).sp < 16,
        ensures
            final(self).wf(),
            final(self)@ == (MachineState {
                stack: old(self)@.stack.update(old(self)@.sp as int, val),
                sp: (old(self)@.sp + 1) as u16,
                ..old(self)@
            }),
    {
        let sp = self.sp as usize;
        self.stack[sp] = val;
        self.sp = self.sp + 1;
    }

    /// Pop the most recently pushed return address. The caller
    /// guarantees the stack is not empty.
    pub fn pop(&mut self) -> (r: u16)
        requires
            old(self).wf(),
            old(self).sp > 0,
        ensures
            final(self).wf(),
            r == old(self)@.stack[old(self)@.sp - 1],
            final(self)@ == (MachineState { sp: (old(self)@.sp - 1) as u16, ..old(self)@ }),
    {
        self.sp = self.sp - 1;
        self.stack[self.sp as usize]
    }

    /// Decrement each timer if it is nonzero. Returns true exactly when
    /// the sound timer went from 1 to 0 on this tick: the signal for the
    /// audio collaborator to stop its tone.
    pub fn tick_timers(&mut self) -> (stopped: bool)
        ensures
            final(self)@ == (MachineState {
                dt: if old(self)@.dt > 0 { (old(self)@.dt - 1) as u8 } else { 0u8 },
                st: if old(self)@.st > 0 { (old(self)@.st - 1) as u8 } else { 0u8 },
                ..old(self)@
            }),
            stopped == (old(self)@.st == 1),
    {
        if self.dt > 0 {
            self.dt = self.dt - 1;
        }
        let mut stopped = false;
        if self.st > 0 {
            self.st = self.st - 1;
            if self.st == 0 {
                stopped = true;
            }
        }
        stopped
    }

    /// Read the big-endian opcode at the program counter and advance the
    /// program counter by two, unconditionally, before execution. Faults
    /// when the program counter does not reference two valid memory
    /// bytes; the state is then unchanged.
    pub fn fetch(&mut self) -> (r: Result<u16, Chip8Error>)
        requires
            old(self).wf(),
        ensures
            final(self).wf(),
            match r {
                Ok(op) => !spec_fetch_fault(old(self)@) && op == spec_opcode_at(
                    old(self)@.ram,
                    old(self)@.pc,
                ) && final(self)@ == spec_fetch_ok(old(self)@),
                Err(e) => spec_fetch_fault(old(self)@) && e == Chip8Error::MachineFault && final(self)@
                    == old(self)@,
            },
    {
        if self.pc >= 4095 {
            return Err(Chip8Error::MachineFault);
        }
        let hi = self.ram[self.pc as usize];
        let lo = self.ram[self.pc as usize + 1];
        let op = (hi as u16) * 256 + (lo as u16);
        self.pc = self.pc + 2;
        Ok(op)
    }

    /// The register-register ALU group 0x8xyN.
    fn op_alu(&mut self, op: u16)
        requires
            old(self).wf(),
            d1(op) == 8,
        ensures
            final(self).wf(),
            final(self)@ == spec_alu(old(self)@, op),
    {
        let x = ((op / 0x100) % 0x10) as usize;
        let y = ((op / 0x10) % 0x10) as usize;
        let digit4 = op % 0x10;
        let a = self.v_reg[x];
        let b = self.v_reg[y];
        if digit4 == 0 {
            self.v_reg[x] = b;
        } else if digit4 == 1 {
            self.v_reg[x] = a | b;
        } else if digit4 == 2 {
            self.v_reg[x] = a & b;
        } else if digit4 == 3 {
            self.v_reg[x] = a ^ b;
        } else if digit4 == 4 {
            let sum: u16 = a as u16 + b as u16;
            let flag: u8 = if sum > 255 {
                1
            } else {
                0
            };
            self.v_reg[x] = add8(a, b);
            self.v_reg[0xF] = flag;
        } else if digit4 == 5 {
            let flag: u8 = if a >= b {
                1
            } else {
                0
            };
            self.v_reg[x] = sub8(a, b);
            self.v_reg[0xF] = flag;
        } else if digit4 == 6 {
            self.v_reg[x] = a >> 1;
            self.v_reg[0xF] = a & 1;
        } else if digit4 == 7 {
            let flag: u8 = if b >= a {
                1
            } else {
                0
            };
            self.v_reg[x] = sub8(b, a);
            self.v_reg[0xF] = flag;
        } else if digit4 == 0xE {
            self.v_reg[x] = a << 1;
            self.v_reg[0xF] = (a >> 7) & 1;
        }
        proof {
            assert(self@ =~= spec_alu(old(self)@, op));
        }
    }

    /// Draw an `n`-row sprite at (reg[x], reg[y]) by XOR, wrapping
    /// coordinates toroidally, and set the flag register on collision.
    /// Faults when the sprite bytes would be read past the end of
    /// memory; the state is then unchanged.
    #[verifier::loop_isolation(false)]
    fn op_draw(&mut self, op: u16) -> (r: Result<(), Chip8Error>)
        requires
            old(self).wf(),
        ensures
            final(self).wf(),
            match r {
                Ok(_) => !(d4(op) > 0 && old(self)@.i_reg + d4(op) > 4096) && final(self)@ == ({
                    let dr = spec_draw_rows(
                        old(self)@.display,
                        old(self)@.ram,
                        old(self)@.i_reg as int,
                        old(self)@.v_reg[d2(op) as int] as int,
                        old(self)@.v_reg[d3(op) as int] as int,
                        0,
                        d4(op) as u8,
                        false,
                    );
                    MachineState {
                        display: dr.0,
                        v_reg: old(self)@.v_reg.update(15, if dr.1 { 1u8 } else { 0u8 }),
                        ..old(self)@
                    }
                }),
                Err(e) => d4(op) > 0 && old(self)@.i_reg + d4(op) > 4096 && e
                    == Chip8Error::MachineFault && final(self)@ == old(self)@,
            },
    {
        let n = (op % 0x10) as usize;
        if n > 0 && self.i_reg as usize + n > 4096 {
            return Err(Chip8Error::MachineFault);
        }
        let x = ((op / 0x100) % 0x10) as usize;
        let y = ((op / 0x10) % 0x10) as usize;
        let xc = self.v_reg[x] as usize;
        let yc = self.v_reg[y] as usize;
        let i0 = self.i_reg as usize;
        let ghost s0 = self@;
        let mut flipped = false;
        let mut row: usize = 0;
        while row < n
            invariant
                row <= n,
                self.wf(),
                self@ == (MachineState { display: self@.display, ..s0 }),
                n > 0 ==> i0 + n <= 4096,
                spec_draw_rows(s0.display, s0.ram, i0 as int, xc as int, yc as int, 0, n as u8, false)
                    == spec_draw_rows(
                    self@.display,
                    s0.ram,
                    i0 as int,
                    xc as int,
                    yc as int,
                    row as u8,
                    n as u8,
                    flipped,
                ),
            decreases n - row,
        {
            let byte = self.ram[i0 + row];
            let yr = (yc + row) % 32;
            let ghost dr = self@.display;
            let ghost fr = flipped;
            let mut bit: u8 = 0;
            while bit < 8
                invariant
                    bit <= 8,
                    row < n,
                    self.wf(),
                    self@ == (MachineState { display: self@.display, ..s0 }),
                    yr == (yc + row) % 32,
                    byte == s0.ram[i0 + row as int],
                    spec_draw_bits(dr, byte, xc as int, yr as int, 0, fr) == spec_draw_bits(
                        self@.display,
                        byte,
                        xc as int,
                        yr as int,
                        bit,
                        flipped,
                    ),
                decreases 8 - bit,
            {
                let mask: u8 = 0x80u8 >> bit;
                if byte & mask != 0 {
                    let xi = (xc + bit as usize) % 64;
                    let idx = xi + SCREEN_WIDTH * yr;
                    let prev = self.display[idx];
                    flipped = flipped || prev;
                    self.display[idx] = !prev;
                }
                bit = bit + 1;
            }
            proof {
                assert(spec_draw_bits(dr, byte, xc as int, yr as int, 0, fr) == (
                    self@.display,
                    flipped,
                ));
            }
            row = row + 1;
        }
        let flag: u8 = if flipped {
            1
        } else {
            0
        };
        self.v_reg[0xF] = flag;
        Ok(())
    }

    /// Blocking key wait: record the lowest pressed key into reg[x], or
    /// rewind the program counter so the same opcode is fetched again on
    /// the next cycle.
    #[verifier::loop_isolation(false)]
    fn op_wait_key(&mut self, op: u16)
        requires
            old(self).wf(),
        ensures
            final(self).wf(),
            final(self)@ == (match first_key(old(self)@.keys, 0) {
                Some(k) => MachineState {
                    v_reg: old(self)@.v_reg.update(d2(op) as int, k as u8),
                    ..old(self)@
                },
                None => MachineState { pc: wsub16(old(self)@.pc, 2), ..old(self)@ },
            }),
    {
        let x = ((op / 0x100) % 0x10) as usize;
        let mut i: usize = 0;
        while i < 16 && !self.keys[i]
            invariant
                i <= 16,
                self.wf(),
                forall|j: int| 0 <= j < i ==> !self@.keys[j],
            decreases 16 - i,
        {
            i = i + 1;
        }
        if i < 16 {
            proof {
                lemma_first_key_found(self@.keys, 0, i as int);
            }
            self.v_reg[x] = i as u8;
        } else {
            proof {
                lemma_first_key_none(self@.keys, 0);
            }
            self.pc = sub16(self.pc, 2);
        }
    }

    /// Store reg[0..=x] to memory starting at the index register.
    /// Faults when the writes would run past the end of memory; the
    /// state is then unchanged.
    #[verifier::loop_isolation(false)]
    fn op_store_regs(&mut self, op: u16) -> (r: Result<(), Chip8Error>)
        requires
            old(self).wf(),
        ensures
            final(self).wf(),
            match r {
                Ok(_) => old(self)@.i_reg + d2(op) + 1 <= 4096 && final(self)@ == (MachineState {
                    ram: Seq::new(
                        4096,
                        |j: int| if old(self)@.i_reg <= j <= old(self)@.i_reg + d2(op) {
                            old(self)@.v_reg[j - old(self)@.i_reg]
                        } else {
                            old(self)@.ram[j]
                        },
                    ),
                    ..old(self)@
                }),
                Err(e) => old(self)@.i_reg + d2(op) + 1 > 4096 && e == Chip8Error::MachineFault
                    && final(self)@ == old(self)@,
            },
    {
        let x = ((op / 0x100) % 0x10) as usize;
        let i0 = self.i_reg as usize;
        if i0 + x + 1 > 4096 {
            return Err(Chip8Error::MachineFault);
        }
        let ghost s0 = self@;
        let mut k: usize = 0;
        while k < x + 1
            invariant
                k <= x + 1,
                self.wf(),
                self@ == (MachineState { ram: self@.ram, ..s0 }),
                forall|j: int| i0 <= j < i0 + k ==> self@.ram[j] == s0.v_reg[j - i0],
                forall|j: int| 0 <= j < 4096 && !(i0 <= j < i0 + k) ==> self@.ram[j] == s0.ram[j],
            decreases x + 1 - k,
        {
            let val = self.v_reg[k];
            self.ram[i0 + k] = val;
            k = k + 1;
        }
        Ok(())
    }

    /// Load reg[0..=x] from memory starting at the index register.
    /// Faults when the reads would run past the end of memory; the
    /// state is then unchanged.
    #[verifier::loop_isolation(false)]
    fn op_load_regs(&mut self, op: u16) -> (r: Result<(), Chip8Error>)
        requires
            old(self).wf(),
        ensures
            final(self).wf(),
            match r {
                Ok(_) => old(self)@.i_reg + d2(op) + 1 <= 4096 && final(self)@ == (MachineState {
                    v_reg: Seq::new(
                        16,
                        |j: int| if j <= d2(op) {
                            old(self)@.ram[old(self)@.i_reg + j]
                        } else {
                            old(self)@.v_reg[j]
                        },
                    ),
                    ..old(self)@
                }),
                Err(e) => old(self)@.i_reg + d2(op) + 1 > 4096 && e == Chip8Error::MachineFault
                    && final(self)@ == old(self)@,
            },
    {
        let x = ((op / 0x100) % 0x10) as usize;
        let i0 = self.i_reg as usize;
        if i0 + x + 1 > 4096 {
            return Err(Chip8Error::MachineFault);
        }
        let ghost s0 = self@;
        let mut k: usize = 0;
        while k < x + 1
            invariant
                k <= x + 1,
                x < 16,
                i0 + x + 1 <= 4096,
                self.wf(),
                self@ == (MachineState { v_reg: self@.v_reg, ..s0 }),
                forall|j: int| 0 <= j < k ==> self@.v_reg[j] == s0.ram[i0 + j],
                forall|j: int| k <= j < 16 ==> self@.v_reg[j] == s0.v_reg[j],
            decreases x + 1 - k,
        {
            let val = self.ram[i0 + k];
            self.v_reg[k] = val;
            k = k + 1;
        }
        Ok(())
    }

    /// Decode and execute one already-fetched opcode. On success the new
    /// state is exactly the one the semantics give, for some byte drawn
    /// from the randomness source; on a fault or an unknown opcode the
    /// state is unchanged and the error says which.
    pub fn execute(&mut self, op: u16) -> (r: Result<(), Chip8Error>)
        requires
            old(self).wf(),
        ensures
            final(self).wf(),
            match r {
                Ok(_) => spec_execute_fault(old(self)@, op) is None && (exists|rnd: u8|
                    final(self)@ == #[trigger] spec_execute_ok(old(self)@, op, rnd)),
                Err(e) => spec_execute_fault(old(self)@, op) == Some(e) && final(self)@ == old(
                    self,
                )@,
            },
    {
        let digit1 = op / 0x1000;
        let digit2 = (op / 0x100) % 0x10;
        let digit3 = (op / 0x10) % 0x10;
        let digit4 = op % 0x10;
        let x = digit2 as usize;
        let y = digit3 as usize;
        let nn = (op % 0x100) as u8;
        let nnn = op % 0x1000;
        if digit1 == 0 && digit2 == 0 && digit3 == 0 && digit4 == 0 {
            // 0x0000: explicit no-op
        } else if digit1 == 0 && digit2 == 0 && digit3 == 0xE && digit4 == 0 {
            // 0x00E0: clear the framebuffer
            self.display = filled(SCREEN_WIDTH * SCREEN_HEIGHT, false);
            proof {
                assert(self@.display =~= Seq::new(2048, |j: int| false));
            }
        } else if digit1 == 0 && digit2 == 0 && digit3 == 0xE && digit4 == 0xE {
            // 0x00EE: return
            if self.sp == 0 {
                return Err(Chip8Error::MachineFault);
            }
            let addr = self.pop();
            self.pc = addr;
        } else if digit1 == 1 {
            // 0x1nnn: unconditional jump
            self.pc = nnn;
        } else if digit1 == 2 {
            // 0x2nnn: call
            if self.sp >= 16 {
                return Err(Chip8Error::MachineFault);
            }
            let ret = self.pc;
            self.push(ret);
            self.pc = nnn;
        } else if digit1 == 3 {
            // 0x3xnn: skip if reg[x] == nn
            if self.v_reg[x] == nn {
                self.pc = add16(self.pc, 2);
            }
        } else if digit1 == 4 {
            // 0x4xnn: skip if reg[x] != nn
            if self.v_reg[x] != nn {
                self.pc = add16(self.pc, 2);
            }
        } else if digit1 == 5 && digit4 == 0 {
            // 0x5xy0: skip if reg[x] == reg[y]
            if self.v_reg[x] == self.v_reg[y] {
                self.pc = add16(self.pc, 2);
            }
        } else if digit1 == 6 {
            // 0x6xnn: reg[x] = nn
            self.v_reg[x] = nn;
        } else if digit1 == 7 {
            // 0x7xnn: reg[x] += nn, wrapping, no flag
            let v = add8(self.v_reg[x], nn);
            self.v_reg[x] = v;
        } else if digit1 == 8 {
            // 0x8xyN: register-register ALU group
            self.op_alu(op);
        } else if digit1 == 9 && digit4 == 0 {
            // 0x9xy0: skip if reg[x] != reg[y]
            if self.v_reg[x] != self.v_reg[y] {
                self.pc = add16(self.pc, 2);
            }
        } else if digit1 == 0xA {
            // 0xAnnn: index register = nnn
            self.i_reg = nnn;
        } else if digit1 == 0xB {
            // 0xBnnn: jump to reg[0] + nnn
            let base = self.v_reg[0] as u16;
            self.pc = base + nnn;
        } else if digit1 == 0xC {
            // 0xCxnn: reg[x] = random byte masked with nn
            let rnd = random_byte();
            self.v_reg[x] = rnd & nn;
            proof {
                assert(self@ =~= spec_execute_ok(old(self)@, op, rnd));
                assert(exists|r2: u8| self@ == #[trigger] spec_execute_ok(old(self)@, op, r2));
            }
        } else if digit1 == 0xD {
            // 0xDxyn: draw sprite with collision flag
            match self.op_draw(op) {
                Ok(_) => {},
                Err(e) => {
                    return Err(e);
                },
            }
        } else if digit1 == 0xE && digit3 == 9 && digit4 == 0xE {
            // 0xEx9E: skip if key[reg[x]] is pressed
            let key = self.v_reg[x];
            if key >= 16 {
                return Err(Chip8Error::MachineFault);
            }
            if self.keys[key as usize] {
                self.pc = add16(self.pc, 2);
            }
        } else if digit1 == 0xE && digit3 == 0xA && digit4 == 1 {
            // 0xExA1: skip if key[reg[x]] is not pressed
            let key = self.v_reg[x];
            if key >= 16 {
                return Err(Chip8Error::MachineFault);
            }
            if !self.keys[key as usize] {
                self.pc = add16(self.pc, 2);
            }
        } else if digit1 == 0xF && digit3 == 0 && digit4 == 7 {
            // 0xFx07: reg[x] = delay timer
            let d = self.dt;
            self.v_reg[x] = d;
        } else if digit1 == 0xF && digit3 == 0 && digit4 == 0xA {
            // 0xFx0A: blocking key wait
            self.op_wait_key(op);
        } else if digit1 == 0xF && digit3 == 1 && digit4 == 5 {
            // 0xFx15: delay timer = reg[x]
            self.dt = self.v_reg[x];
        } else if digit1 == 0xF && digit3 == 1 && digit4 == 8 {
            // 0xFx18: sound timer = reg[x]
            self.st = self.v_reg[x];
        } else if digit1 == 0xF && digit3 == 1 && digit4 == 0xE {
            // 0xFx1E: index register += reg[x], wrapping
            let step = self.v_reg[x] as u16;
            self.i_reg = add16(self.i_reg, step);
        } else if digit1 == 0xF && digit3 == 2 && digit4 == 9 {
            // 0xFx29: index register = font glyph base address
            let glyph = self.v_reg[x] as u16;
            self.i_reg = glyph * 5;
        } else if digit1 == 0xF && digit3 == 3 && digit4 == 3 {
            // 0xFx33: store reg[x] as three decimal digits
            if self.i_reg as usize + 3 > 4096 {
                return Err(Chip8Error::MachineFault);
            }
            let v = self.v_reg[x];
            let addr = self.i_reg as usize;
            self.ram[addr] = v / 100;
            self.ram[addr + 1] = (v / 10) % 10;
            self.ram[addr + 2] = v % 10;
        } else if digit1 == 0xF && digit3 == 5 && digit4 == 5 {
            // 0xFx55: store reg[0..=x] to memory
            match self.op_store_regs(op) {
                Ok(_) => {},
                Err(e) => {
                    return Err(e);
                },
            }
        } else if digit1 == 0xF && digit3 == 6 && digit4 == 5 {
            // 0xFx65: load reg[0..=x] from memory
            match self.op_load_regs(op) {
                Ok(_) => {},
                Err(e) => {
                    return Err(e);
                },
            }
        } else {
            return Err(Chip8Error::UnimplementedOpcode);
        }
        proof {
            assert(spec_execute_fault(old(self)@, op) is None);
            if !(exists|r2: u8| self@ == #[trigger] spec_execute_ok(old(self)@, op, r2)) {
                // every branch but the random-register one is deterministic
                assert(self@ =~= spec_execute_ok(old(self)@, op, 0u8));
            }
            assert(exists|r2: u8| self@ == #[trigger] spec_execute_ok(old(self)@, op, r2));
        }
        Ok(())
    }

    /// One full fetch-decode-execute cycle. On a fault the state is
    /// unchanged, so the program counter still addresses the faulting
    /// opcode.
    pub fn tick(&mut self) -> (r: Result<(), Chip8Error>)
        requires
            old(self).wf(),
        ensures
            final(self).wf(),
            match r {
                Ok(_) => spec_tick_fault(old(self)@) is None && (exists|rnd: u8|
                    final(self)@ == #[trigger] spec_tick_ok(old(self)@, rnd)),
                Err(e) => spec_tick_fault(old(self)@) == Some(e) && final(self)@ == old(self)@,
            },
    {
        let op = match self.fetch() {
            Ok(op) => op,
            Err(e) => {
                return Err(e);
            },
        };
        let ghost mid = self@;
        match self.execute(op) {
            Ok(_) => {
                proof {
                    let rnd = choose|rnd: u8| self@ == #[trigger] spec_execute_ok(mid, op, rnd);
                    assert(self@ == spec_tick_ok(old(self)@, rnd));
                    assert(exists|r2: u8| self@ == #[trigger] spec_tick_ok(old(self)@, r2));
                }
                Ok(())
            },
            Err(e) => {
                self.pc = sub16(self.pc, 2);
                proof {
                    assert(self@ =~= old(self)@);
                }
                Err(e)
            },
        }
    }
}

} // verus!
