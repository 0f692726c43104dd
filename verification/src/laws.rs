//! Machine-wide laws: properties that relate several operations, proved
//! once and for all over the instruction semantics.

use vstd::prelude::*;
use crate::state::{MachineState, init_state, spec_load};
use crate::decode::{d1, d2, d3, d4, imm_nn, addr_nnn};
use crate::semantics::{
    first_key, lemma_first_key_found, lemma_first_key_none, spec_execute_fault, spec_execute_ok,
    spec_fetch_fault, spec_fetch_ok, spec_opcode_at, spec_tick_fault, spec_tick_ok,
};

verus! {

/// The opcode is one of the conditional-skip instructions.
pub open spec fn is_skip(op: u16) -> bool {
    ||| d1(op) == 3
    ||| d1(op) == 4
    ||| (d1(op) == 5 && d4(op) == 0)
    ||| (d1(op) == 9 && d4(op) == 0)
    ||| (d1(op) == 0xE && d3(op) == 9 && d4(op) == 0xE)
    ||| (d1(op) == 0xE && d3(op) == 0xA && d4(op) == 1)
}

/// Whether a skip instruction's condition holds in state `s`.
pub open spec fn skip_taken(s: MachineState, op: u16) -> bool {
    let x = d2(op) as int;
    let y = d3(op) as int;
    if d1(op) == 3 {
        s.v_reg[x] == imm_nn(op)
    } else if d1(op) == 4 {
        s.v_reg[x] != imm_nn(op)
    } else if d1(op) == 5 {
        s.v_reg[x] == s.v_reg[y]
    } else if d1(op) == 9 {
        s.v_reg[x] != s.v_reg[y]
    } else if d1(op) == 0xE && d3(op) == 9 {
        s.keys[s.v_reg[x] as int]
    } else {
        !s.keys[s.v_reg[x] as int]
    }
}

/// The opcode is the blocking key wait.
pub open spec fn is_key_wait(op: u16) -> bool {
    d1(op) == 0xF && d3(op) == 0 && d4(op) == 0xA
}

/// The fixed-effect instructions perform exactly their one documented
/// mutation and nothing else: a jump only moves the program counter, a
/// register load only writes that register, an index load only writes
/// the index register.
pub proof fn lemma_fixed_effect_updates(s: MachineState, op: u16, rnd: u8)
    requires
        s.wf(),
    ensures
        d1(op) == 1 ==> spec_execute_ok(s, op, rnd) == (MachineState { pc: addr_nnn(op), ..s }),
        d1(op) == 6 ==> spec_execute_ok(s, op, rnd) == (MachineState {
            v_reg: s.v_reg.update(d2(op) as int, imm_nn(op)),
            ..s
        }),
        d1(op) == 0xA ==> spec_execute_ok(s, op, rnd) == (MachineState {
            i_reg: addr_nnn(op),
            ..s
        }),
        d1(op) == 1 || d1(op) == 6 || d1(op) == 0xA ==> spec_execute_fault(s, op) is None,
{
}

/// A skip instruction advances the program counter by four in total
/// (two from the fetch, two from the skip) when its condition holds,
/// else by two.
pub proof fn lemma_skip_advance(s: MachineState, rnd: u8)
    requires
        s.wf(),
        !spec_fetch_fault(s),
        spec_tick_fault(s) is None,
        is_skip(spec_opcode_at(s.ram, s.pc)),
    ensures
        spec_tick_ok(s, rnd).pc == if skip_taken(s, spec_opcode_at(s.ram, s.pc)) {
            (s.pc + 4) as u16
        } else {
            (s.pc + 2) as u16
        },
{
    let op = spec_opcode_at(s.ram, s.pc);
    let m = spec_fetch_ok(s);
    assert(m.pc == s.pc + 2);
    assert(spec_execute_fault(m, op) is None);
}

/// A call followed by a return restores the program counter to its
/// pre-call value and the stack pointer to its old depth.
pub proof fn lemma_call_return_round_trip(s: MachineState, op: u16, rnd1: u8, rnd2: u8)
    requires
        s.wf(),
        d1(op) == 2,
        s.sp < 16,
    ensures
        ({
            let called = spec_execute_ok(s, op, rnd1);
            &&& spec_execute_fault(called, 0x00EE) is None
            &&& spec_execute_ok(called, 0x00EE, rnd2).pc == s.pc
            &&& spec_execute_ok(called, 0x00EE, rnd2).sp == s.sp
        }),
{
    let called = spec_execute_ok(s, op, rnd1);
    assert(called.sp == s.sp + 1);
    assert(called.stack[s.sp as int] == s.pc);
}

/// With no key pressed, a whole cycle on the key-wait instruction
/// leaves the machine exactly as it was: the program counter is rewound
/// past the fetch and no register changes.
pub proof fn lemma_key_wait_blocks(s: MachineState, rnd: u8)
    requires
        s.wf(),
        !spec_fetch_fault(s),
        is_key_wait(spec_opcode_at(s.ram, s.pc)),
        forall|j: int| 0 <= j < 16 ==> !s.keys[j],
    ensures
        spec_tick_fault(s) is None,
        spec_tick_ok(s, rnd) == s,
{
    lemma_first_key_none(s.keys, 0);
    assert(spec_tick_ok(s, rnd) =~= s);
}

/// Once a key is pressed, the next cycle on the key-wait instruction
/// records the lowest pressed key into reg[x] and moves on past the
/// instruction.
pub proof fn lemma_key_wait_release(s: MachineState, rnd: u8, k: int)
    requires
        s.wf(),
        !spec_fetch_fault(s),
        is_key_wait(spec_opcode_at(s.ram, s.pc)),
        0 <= k < 16,
        s.keys[k],
        forall|j: int| 0 <= j < k ==> !s.keys[j],
    ensures
        spec_tick_fault(s) is None,
        spec_tick_ok(s, rnd) == (MachineState {
            pc: (s.pc + 2) as u16,
            v_reg: s.v_reg.update(d2(spec_opcode_at(s.ram, s.pc)) as int, k as u8),
            ..s
        }),
{
    lemma_first_key_found(s.keys, 0, k);
    assert(spec_tick_ok(s, rnd) =~= (MachineState {
        pc: (s.pc + 2) as u16,
        v_reg: s.v_reg.update(d2(spec_opcode_at(s.ram, s.pc)) as int, k as u8),
        ..s
    }));
}

/// Reset followed by load reaches exactly the state that construction
/// followed by load reaches: both paths start from the one initial
/// state, so loading the same image gives the same machine.
pub proof fn lemma_reset_load_matches_new_load(
    after_reset: MachineState,
    after_new: MachineState,
    data: Seq<u8>,
)
    requires
        after_reset == init_state(),
        after_new == init_state(),
    ensures
        spec_load(after_reset, data) == spec_load(after_new, data),
{
}

} // verus!
