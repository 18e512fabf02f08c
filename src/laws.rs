//! Properties of the instruction cycle that hold for every machine state.

use vstd::prelude::*;
use crate::isa::{
    alu_code, condition_code, AluOp, CycleState, OpCode, SimError, Status, NUM_REGS, RSP,
};
use crate::machine::{
    cycle_spec, errored, fetch_spec, model_wf, run_spec, step_spec, MachineModel,
};
use crate::memory::{lemma_word_round_trip, word_in_bounds};

verus! {

/// The instruction that the machine would decode next.
pub open spec fn current(m: MachineModel) -> CycleState {
    fetch_spec(m.mem, m.pc as int)->Ok_0
}

/// Whether the machine decodes an instruction of class `op` with `rA == r`.
pub open spec fn decodes_to(m: MachineModel, op: OpCode, r: usize) -> bool {
    &&& fetch_spec(m.mem, m.pc as int) is Ok
    &&& current(m).op == op
    &&& current(m).r_a == r
}

/// An arithmetic/logic instruction sets sign and zero from its own result,
/// computed as `rB op rA` in two's complement and written to `rB`; overflow
/// is set exactly when an addition or subtraction leaves the word range, and
/// never by `and` or `xor`.
pub proof fn lemma_alu_flags(m: MachineModel)
    requires
        model_wf(m),
        fetch_spec(m.mem, m.pc as int) is Ok,
        current(m).op is Opx,
        current(m).r_a < NUM_REGS,
        current(m).r_b < NUM_REGS,
    ensures
        cycle_spec(m) is Ok,
        ({
            let s = current(m);
            let m2 = cycle_spec(m)->Ok_0;
            let a = m.regs[s.r_a as int];
            let b = m.regs[s.r_b as int];
            let r = m2.regs[s.r_b as int];
            &&& m2.flags.sign == (r < 0)
            &&& m2.flags.zero == (r == 0)
            &&& match s.op {
                OpCode::Opx(AluOp::Add) => {
                    &&& m2.flags.overflow == !(i64::MIN <= b + a <= i64::MAX)
                    &&& r == vstd::wrapping::i64_specs::wrapping_add(b, a)
                },
                OpCode::Opx(AluOp::Sub) => {
                    &&& m2.flags.overflow == !(i64::MIN <= b - a <= i64::MAX)
                    &&& r == vstd::wrapping::i64_specs::wrapping_sub(b, a)
                },
                OpCode::Opx(AluOp::And) => !m2.flags.overflow && r == b & a,
                _ => !m2.flags.overflow && r == b ^ a,
            }
        }),
{
}

/// `push r` immediately followed by `pop r` gives back every register,
/// the stack pointer and `r` included, and the flags; the machine goes on
/// running at the instruction after the pop, two cycles later.
pub proof fn lemma_push_pop_round_trip(m: MachineModel, r: usize)
    requires
        model_wf(m),
        m.status == Status::Running,
        decodes_to(m, OpCode::Push, r),
        cycle_spec(m) is Ok,
        decodes_to(cycle_spec(m)->Ok_0, OpCode::Pop, r),
    ensures
        cycle_spec(cycle_spec(m)->Ok_0) is Ok,
        cycle_spec(cycle_spec(m)->Ok_0)->Ok_0.regs == m.regs,
        cycle_spec(cycle_spec(m)->Ok_0)->Ok_0.flags == m.flags,
        cycle_spec(cycle_spec(m)->Ok_0)->Ok_0.pc == m.pc + 4,
        cycle_spec(cycle_spec(m)->Ok_0)->Ok_0.status == Status::Running,
        m.cycle + 2 <= usize::MAX ==> cycle_spec(cycle_spec(m)->Ok_0)->Ok_0.cycle == m.cycle + 2,
{
    let m1 = cycle_spec(m)->Ok_0;
    let sp = m.regs[RSP as int];
    let a = vstd::wrapping::i64_specs::wrapping_sub(sp, 8);
    assert(word_in_bounds(m.mem.len() as int, a as int));
    lemma_word_round_trip(m.mem, a as int, m.regs[r as int]);
    assert(vstd::wrapping::i64_specs::wrapping_add(a, 8) == sp);
    assert(m1.regs[RSP as int] == a);
    let m2 = cycle_spec(m1)->Ok_0;
    assert(m2.regs =~= m.regs);
}

/// `call` immediately followed by `ret` returns to the instruction after the
/// call, with every register, the stack pointer included, and the flags as
/// before, two cycles later.
pub proof fn lemma_call_return_round_trip(m: MachineModel)
    requires
        model_wf(m),
        m.status == Status::Running,
        fetch_spec(m.mem, m.pc as int) is Ok,
        current(m).op == OpCode::Call,
        cycle_spec(m) is Ok,
        fetch_spec(cycle_spec(m)->Ok_0.mem, cycle_spec(m)->Ok_0.pc as int) is Ok,
        current(cycle_spec(m)->Ok_0).op == OpCode::Ret,
    ensures
        cycle_spec(cycle_spec(m)->Ok_0) is Ok,
        cycle_spec(cycle_spec(m)->Ok_0)->Ok_0.pc == m.pc + 9,
        cycle_spec(cycle_spec(m)->Ok_0)->Ok_0.regs == m.regs,
        cycle_spec(cycle_spec(m)->Ok_0)->Ok_0.flags == m.flags,
        cycle_spec(cycle_spec(m)->Ok_0)->Ok_0.status == Status::Running,
        m.cycle + 2 <= usize::MAX ==> cycle_spec(cycle_spec(m)->Ok_0)->Ok_0.cycle == m.cycle + 2,
{
    let m1 = cycle_spec(m)->Ok_0;
    let sp = m.regs[RSP as int];
    let a = vstd::wrapping::i64_specs::wrapping_sub(sp, 8);
    assert(word_in_bounds(m.mem.len() as int, a as int));
    lemma_word_round_trip(m.mem, a as int, current(m).val_p);
    assert(vstd::wrapping::i64_specs::wrapping_add(a, 8) == sp);
    let m2 = cycle_spec(m1)->Ok_0;
    assert(m2.regs =~= m.regs);
}

/// Run to completion, `push r; pop r; halt` leaves every register and the
/// flags as they were, and stops halted just past the `halt`, three cycles
/// later.
pub proof fn lemma_push_pop_then_halt(m: MachineModel, r: usize, n: nat)
    requires
        model_wf(m),
        m.status == Status::Running,
        decodes_to(m, OpCode::Push, r),
        cycle_spec(m) is Ok,
        decodes_to(cycle_spec(m)->Ok_0, OpCode::Pop, r),
        fetch_spec(cycle_spec(cycle_spec(m)->Ok_0)->Ok_0.mem, m.pc + 4) is Ok,
        current(cycle_spec(cycle_spec(m)->Ok_0)->Ok_0).op == OpCode::Halt,
        n >= 3,
    ensures
        run_spec(m, n).1 is Ok,
        run_spec(m, n).0.regs == m.regs,
        run_spec(m, n).0.flags == m.flags,
        run_spec(m, n).0.status == Status::Halted,
        run_spec(m, n).0.pc == m.pc + 5,
        m.cycle + 3 <= usize::MAX ==> run_spec(m, n).0.cycle == m.cycle + 3,
{
    lemma_push_pop_round_trip(m, r);
    let m1 = cycle_spec(m)->Ok_0;
    let m2 = cycle_spec(m1)->Ok_0;
    assert(run_spec(m, n) == run_spec(m1, (n - 1) as nat));
    assert(run_spec(m1, (n - 1) as nat) == run_spec(m2, (n - 2) as nat));
    lemma_halt_stops(m2, (n - 3) as nat);
    assert(run_spec(m2, (n - 2) as nat) == run_spec(cycle_spec(m2)->Ok_0, (n - 3) as nat));
}

/// Run to completion, `call a; halt` with `ret` at `a` returns to the `halt`
/// and stops just past it, three cycles later, with every register and the
/// flags as they were.
pub proof fn lemma_call_return_then_halt(m: MachineModel, n: nat)
    requires
        model_wf(m),
        m.status == Status::Running,
        fetch_spec(m.mem, m.pc as int) is Ok,
        current(m).op == OpCode::Call,
        cycle_spec(m) is Ok,
        fetch_spec(cycle_spec(m)->Ok_0.mem, cycle_spec(m)->Ok_0.pc as int) is Ok,
        current(cycle_spec(m)->Ok_0).op == OpCode::Ret,
        fetch_spec(cycle_spec(cycle_spec(m)->Ok_0)->Ok_0.mem, m.pc + 9) is Ok,
        current(cycle_spec(cycle_spec(m)->Ok_0)->Ok_0).op == OpCode::Halt,
        n >= 3,
    ensures
        run_spec(m, n).1 is Ok,
        run_spec(m, n).0.regs == m.regs,
        run_spec(m, n).0.flags == m.flags,
        run_spec(m, n).0.status == Status::Halted,
        run_spec(m, n).0.pc == m.pc + 10,
        m.cycle + 3 <= usize::MAX ==> run_spec(m, n).0.cycle == m.cycle + 3,
{
    lemma_call_return_round_trip(m);
    let m1 = cycle_spec(m)->Ok_0;
    let m2 = cycle_spec(m1)->Ok_0;
    assert(run_spec(m, n) == run_spec(m1, (n - 1) as nat));
    assert(run_spec(m1, (n - 1) as nat) == run_spec(m2, (n - 2) as nat));
    lemma_halt_stops(m2, (n - 3) as nat);
    assert(run_spec(m2, (n - 2) as nat) == run_spec(cycle_spec(m2)->Ok_0, (n - 3) as nat));
}

/// A halted machine stays as it is, however many further steps are issued.
pub proof fn lemma_halted_is_fixed(m: MachineModel, n: nat)
    requires
        m.status == Status::Halted,
    ensures
        step_spec(m) == Ok::<MachineModel, SimError>(m),
        run_spec(m, n) == (m, Ok::<(), SimError>(())),
{
}

/// A `halt` instruction stops the machine for good.
pub proof fn lemma_halt_stops(m: MachineModel, n: nat)
    requires
        model_wf(m),
        m.status == Status::Running,
        fetch_spec(m.mem, m.pc as int) is Ok,
        current(m).op == OpCode::Halt,
    ensures
        cycle_spec(m) is Ok,
        cycle_spec(m)->Ok_0.status == Status::Halted,
        run_spec(cycle_spec(m)->Ok_0, n) == (cycle_spec(m)->Ok_0, Ok::<(), SimError>(())),
{
}

/// The number of bytes of an instruction, by its first byte.
pub open spec fn instr_len(b: u8) -> int {
    let code = b / 16;
    if code == 3 || code == 4 || code == 5 {
        10
    } else if code == 7 || code == 8 {
        9
    } else if code == 2 || code == 6 || code == 10 || code == 11 {
        2
    } else {
        1
    }
}

/// Whether the first byte of an instruction has a meaning.
pub open spec fn valid_first_byte(b: u8) -> bool {
    let code = b / 16;
    let fun = b % 16;
    &&& code <= 11
    &&& (code == 2 || code == 7) ==> condition_code(fun) is Some
    &&& code == 6 ==> alu_code(fun) is Some
}

/// Decoding succeeds exactly when the program counter is inside memory, the
/// first byte has a meaning and the whole instruction fits; it fails with
/// `AddressOutOfBounds` when a meaningful instruction runs past memory.
pub proof fn lemma_fetch_bounds(mem: Seq<u8>, pc: int)
    ensures
        !(0 <= pc < mem.len()) ==> fetch_spec(mem, pc) == Err::<CycleState, SimError>(
            SimError::AddressOutOfBounds,
        ),
        0 <= pc < mem.len() && valid_first_byte(mem[pc]) && pc + instr_len(mem[pc]) > mem.len()
            ==> fetch_spec(mem, pc) == Err::<CycleState, SimError>(SimError::AddressOutOfBounds),
        0 <= pc < mem.len() && valid_first_byte(mem[pc]) && pc + instr_len(mem[pc]) <= mem.len()
            ==> fetch_spec(mem, pc) is Ok,
        0 <= pc < mem.len() && !valid_first_byte(mem[pc]) ==> fetch_spec(mem, pc)
            == Err::<CycleState, SimError>(SimError::InvalidEncoding),
{
}

/// Whether the instruction names a register past the register file in a
/// place where it reads or writes it.
pub open spec fn register_out_of_range(s: CycleState) -> bool {
    let a_used = match s.op {
        OpCode::Rmmov | OpCode::Mrmov | OpCode::Opx(_) | OpCode::Cmov(_) | OpCode::Push
        | OpCode::Pop => true,
        _ => false,
    };
    let b_used = match s.op {
        OpCode::Irmov | OpCode::Rmmov | OpCode::Mrmov | OpCode::Opx(_) | OpCode::Cmov(_) => true,
        _ => false,
    };
    (a_used && s.r_a >= NUM_REGS) || (b_used && s.r_b >= NUM_REGS)
}

/// The address of the word that the instruction stores or loads, if any:
/// base plus displacement for `rmmov` and `mrmov`, with no wrap-around.
pub open spec fn data_address(regs: Seq<i64>, s: CycleState) -> Option<int> {
    match s.op {
        OpCode::Rmmov | OpCode::Mrmov => Some(regs[s.r_b as int] + s.val_c),
        OpCode::Call | OpCode::Push => Some(
            vstd::wrapping::i64_specs::wrapping_sub(regs[RSP as int], 8) as int,
        ),
        OpCode::Ret | OpCode::Pop => Some(regs[RSP as int] as int),
        _ => None,
    }
}

/// Whether the next instruction reaches past memory or the register file:
/// its bytes run past the end of memory, it names register 15, or the word
/// it stores or loads lies partly or wholly outside memory.
pub open spec fn reaches_out_of_bounds(m: MachineModel) -> bool {
    ||| !(0 <= m.pc < m.mem.len())
    ||| (valid_first_byte(m.mem[m.pc as int]) && m.pc + instr_len(m.mem[m.pc as int])
        > m.mem.len())
    ||| (fetch_spec(m.mem, m.pc as int) is Ok && register_out_of_range(current(m)))
    ||| (fetch_spec(m.mem, m.pc as int) is Ok && data_address(m.regs, current(m)) is Some
        && !word_in_bounds(m.mem.len() as int, data_address(m.regs, current(m))->0))
}

/// An instruction that reaches out of bounds faults with
/// `AddressOutOfBounds`, and the run stops with memory, registers, flags
/// and program counter untouched.
pub proof fn lemma_out_of_bounds_faults(m: MachineModel, n: nat)
    requires
        model_wf(m),
        m.status == Status::Running,
        reaches_out_of_bounds(m),
        n > 0,
    ensures
        cycle_spec(m) == Err::<MachineModel, SimError>(SimError::AddressOutOfBounds),
        run_spec(m, n) == (errored(m), Err::<(), SimError>(SimError::AddressOutOfBounds)),
{
}

} // verus!
