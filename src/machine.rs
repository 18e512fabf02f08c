//! The machine state and the instruction cycle: fetch, operand read,
//! execute, memory access, writeback and program-counter update.

use vstd::prelude::*;
use crate::isa::{
    alu, alu_code, alu_flags, alu_result, condition_code, condition_holds, decode_alu, decode_condition,
    decoded, flags_text, out_of_word_range, status_text, AluOp, Condition, CycleState, Flags, OpCode, SimError, Stage, Status, StepMode, NUM_REGS, RSP,
};
use crate::loader::{load_listing, load_text};
use crate::text::{dec_text, hex_text, push_dec, push_hex};
use crate::memory::{word_at, word_in_bounds, write_word, WORD_BYTES};

verus! {

/// What the machine holds, as mathematical values.
pub struct MachineModel {
    pub mem: Seq<u8>,
    pub regs: Seq<i64>,
    pub flags: Flags,
    pub status: Status,
    pub pc: i64,
    pub cycle: usize,
    pub step_mode: StepMode,
}

/// Fifteen registers and a memory that every non-negative word can index.
pub open spec fn model_wf(m: MachineModel) -> bool {
    &&& m.regs.len() == NUM_REGS
    &&& m.mem.len() <= i64::MAX
}

/// `rA`, the high nibble of an instruction's register byte.
pub open spec fn reg_hi(b: u8) -> int {
    b as int / 16
}

/// `rB`, the low nibble of an instruction's register byte.
pub open spec fn reg_lo(b: u8) -> int {
    b as int % 16
}

/// Decodes the instruction at `pc`: its opcode, registers, constant and the
/// address of the instruction that follows it.
pub open spec fn fetch_spec(mem: Seq<u8>, pc: int) -> Result<CycleState, SimError> {
    if !(0 <= pc < mem.len()) {
        Err(SimError::AddressOutOfBounds)
    } else {
        let code = mem[pc] / 16;
        let fun = mem[pc] % 16;
        let avail = mem.len() - pc;
        let regs = mem[pc + 1];
        if code == 0 {
            Ok(decoded(OpCode::Halt, 0, 0, 0, pc + 1))
        } else if code == 1 {
            Ok(decoded(OpCode::Nop, 0, 0, 0, pc + 1))
        } else if code == 2 {
            match condition_code(fun) {
                None => Err(SimError::InvalidEncoding),
                Some(c) => if avail < 2 {
                    Err(SimError::AddressOutOfBounds)
                } else {
                    Ok(decoded(OpCode::Cmov(c), reg_hi(regs), reg_lo(regs), 0, pc + 2))
                },
            }
        } else if code == 3 || code == 4 || code == 5 {
            let op = if code == 3 {
                OpCode::Irmov
            } else if code == 4 {
                OpCode::Rmmov
            } else {
                OpCode::Mrmov
            };
            if avail < 10 {
                Err(SimError::AddressOutOfBounds)
            } else {
                Ok(decoded(op, reg_hi(regs), reg_lo(regs), word_at(mem, pc + 2), pc + 10))
            }
        } else if code == 6 {
            match alu_code(fun) {
                None => Err(SimError::InvalidEncoding),
                Some(f) => if avail < 2 {
                    Err(SimError::AddressOutOfBounds)
                } else {
                    Ok(decoded(OpCode::Opx(f), reg_hi(regs), reg_lo(regs), 0, pc + 2))
                },
            }
        } else if code == 7 {
            match condition_code(fun) {
                None => Err(SimError::InvalidEncoding),
                Some(c) => if avail < 9 {
                    Err(SimError::AddressOutOfBounds)
                } else {
                    Ok(decoded(OpCode::Jxx(c), 0, 0, word_at(mem, pc + 1), pc + 9))
                },
            }
        } else if code == 8 {
            if avail < 9 {
                Err(SimError::AddressOutOfBounds)
            } else {
                Ok(decoded(OpCode::Call, 0, 0, word_at(mem, pc + 1), pc + 9))
            }
        } else if code == 9 {
            Ok(decoded(OpCode::Ret, 0, 0, 0, pc + 1))
        } else if code == 10 || code == 11 {
            let op = if code == 10 {
                OpCode::Push
            } else {
                OpCode::Pop
            };
            if avail < 2 {
                Err(SimError::AddressOutOfBounds)
            } else {
                Ok(decoded(op, reg_hi(regs), reg_lo(regs), 0, pc + 2))
            }
        } else {
            Err(SimError::InvalidEncoding)
        }
    }
}

/// Reads the operand registers into `val_a` and `val_b`.
pub open spec fn read_spec(regs: Seq<i64>, s: CycleState) -> Result<CycleState, SimError> {
    match s.op {
        OpCode::Rmmov | OpCode::Opx(_) | OpCode::Cmov(_) => if s.r_a < NUM_REGS && s.r_b < NUM_REGS {
            Ok(CycleState { val_a: regs[s.r_a as int], val_b: regs[s.r_b as int], ..s })
        } else {
            Err(SimError::AddressOutOfBounds)
        },
        OpCode::Mrmov => if s.r_b < NUM_REGS {
            Ok(CycleState { val_b: regs[s.r_b as int], ..s })
        } else {
            Err(SimError::AddressOutOfBounds)
        },
        OpCode::Call => Ok(CycleState { val_b: regs[RSP as int], ..s }),
        OpCode::Ret | OpCode::Pop => Ok(
            CycleState { val_a: regs[RSP as int], val_b: regs[RSP as int], ..s },
        ),
        OpCode::Push => if s.r_a < NUM_REGS {
            Ok(CycleState { val_a: regs[s.r_a as int], val_b: regs[RSP as int], ..s })
        } else {
            Err(SimError::AddressOutOfBounds)
        },
        _ => Ok(s),
    }
}

/// The execute stage: `val_e` (and `cnd`), and the flags after the
/// instruction. The address `val_b + val_c` of `rmmov` and `mrmov` is never
/// wrapped: a sum that leaves the word range faults.
pub open spec fn execute_spec(flags: Flags, s: CycleState) -> Result<(CycleState, Flags), SimError> {
    match s.op {
        OpCode::Irmov => Ok((CycleState { val_e: s.val_c, ..s }, flags)),
        OpCode::Cmov(c) => {
            let cnd = condition_holds(flags, c);
            Ok((CycleState { cnd, val_e: if cnd { s.val_a } else { s.val_b }, ..s }, flags))
        },
        OpCode::Rmmov | OpCode::Mrmov => if out_of_word_range(s.val_b + s.val_c) {
            Err(SimError::AddressOutOfBounds)
        } else {
            Ok((CycleState { val_e: (s.val_b + s.val_c) as i64, ..s }, flags))
        },
        OpCode::Opx(op) => Ok(
            (
                CycleState { val_e: alu_result(op, s.val_b, s.val_a), ..s },
                alu_flags(op, s.val_b, s.val_a),
            ),
        ),
        OpCode::Jxx(c) => {
            let cnd = condition_holds(flags, c);
            Ok((CycleState { cnd, val_e: if cnd { s.val_c } else { s.val_p }, ..s }, flags))
        },
        OpCode::Call | OpCode::Push => Ok(
            (CycleState { val_e: vstd::wrapping::i64_specs::wrapping_sub(s.val_b, 8), ..s }, flags),
        ),
        OpCode::Ret | OpCode::Pop => Ok(
            (CycleState { val_e: vstd::wrapping::i64_specs::wrapping_add(s.val_b, 8), ..s }, flags),
        ),
        _ => Ok((CycleState { val_e: 0, ..s }, flags)),
    }
}

/// A word store at `a`, or the bounds fault.
pub open spec fn store_spec(mem: Seq<u8>, a: int, w: i64) -> Result<Seq<u8>, SimError> {
    if word_in_bounds(mem.len() as int, a) {
        Ok(write_word(mem, a, w))
    } else {
        Err(SimError::AddressOutOfBounds)
    }
}

/// A word load from `a`, or the bounds fault.
pub open spec fn load_spec(mem: Seq<u8>, a: int) -> Result<i64, SimError> {
    if word_in_bounds(mem.len() as int, a) {
        Ok(word_at(mem, a))
    } else {
        Err(SimError::AddressOutOfBounds)
    }
}

/// The memory stage: the memory after it, and `val_m` for loads.
pub open spec fn memory_spec(mem: Seq<u8>, s: CycleState) -> Result<(Seq<u8>, CycleState), SimError> {
    match s.op {
        OpCode::Rmmov | OpCode::Push => match store_spec(mem, s.val_e as int, s.val_a) {
            Ok(m2) => Ok((m2, s)),
            Err(e) => Err(e),
        },
        OpCode::Call => match store_spec(mem, s.val_e as int, s.val_p) {
            Ok(m2) => Ok((m2, s)),
            Err(e) => Err(e),
        },
        OpCode::Mrmov => match load_spec(mem, s.val_e as int) {
            Ok(v) => Ok((mem, CycleState { val_m: v, ..s })),
            Err(e) => Err(e),
        },
        OpCode::Ret | OpCode::Pop => match load_spec(mem, s.val_a as int) {
            Ok(v) => Ok((mem, CycleState { val_m: v, ..s })),
            Err(e) => Err(e),
        },
        _ => Ok((mem, s)),
    }
}

/// The register file after the writeback stage.
pub open spec fn writeback_spec(regs: Seq<i64>, s: CycleState) -> Result<Seq<i64>, SimError> {
    match s.op {
        OpCode::Irmov | OpCode::Cmov(_) | OpCode::Opx(_) => if s.r_b < NUM_REGS {
            Ok(regs.update(s.r_b as int, s.val_e))
        } else {
            Err(SimError::AddressOutOfBounds)
        },
        OpCode::Mrmov => if s.r_a < NUM_REGS {
            Ok(regs.update(s.r_a as int, s.val_m))
        } else {
            Err(SimError::AddressOutOfBounds)
        },
        OpCode::Call | OpCode::Ret | OpCode::Push => Ok(regs.update(RSP as int, s.val_e)),
        OpCode::Pop => if s.r_a < NUM_REGS {
            Ok(regs.update(s.r_a as int, s.val_m).update(RSP as int, s.val_e))
        } else {
            Err(SimError::AddressOutOfBounds)
        },
        _ => Ok(regs),
    }
}

/// The program counter after the instruction.
pub open spec fn next_pc(s: CycleState) -> i64 {
    match s.op {
        OpCode::Jxx(_) => s.val_e,
        OpCode::Ret => s.val_m,
        OpCode::Call => s.val_c,
        _ => s.val_p,
    }
}

/// One full instruction cycle of a running machine.
pub open spec fn cycle_spec(m: MachineModel) -> Result<MachineModel, SimError> {
    match fetch_spec(m.mem, m.pc as int) {
        Err(e) => Err(e),
        Ok(s1) => match read_spec(m.regs, s1) {
            Err(e) => Err(e),
            Ok(s2) => match execute_spec(m.flags, s2) {
                Err(e) => Err(e),
                Ok((s3, flags)) => match memory_spec(m.mem, s3) {
                    Err(e) => Err(e),
                    Ok((mem, s4)) => match writeback_spec(m.regs, s4) {
                        Err(e) => Err(e),
                        Ok(regs) => Ok(
                            MachineModel {
                                mem,
                                regs,
                                flags,
                                status: if s4.op == OpCode::Halt {
                                    Status::Halted
                                } else {
                                    m.status
                                },
                                pc: next_pc(s4),
                                cycle: if m.cycle < usize::MAX {
                                    (m.cycle + 1) as usize
                                } else {
                                    m.cycle
                                },
                                step_mode: m.step_mode,
                            },
                        ),
                    },
                }
            },
        },
    }
}

/// The scratch record after each stage of one cycle that completed, in
/// order; a stage that faults adds nothing, and ends the list.
pub open spec fn cycle_trace(m: MachineModel) -> Seq<(Stage, CycleState)> {
    match fetch_spec(m.mem, m.pc as int) {
        Err(_) => Seq::empty(),
        Ok(s1) => {
            let t1 = seq![(Stage::Fetch, s1)];
            match read_spec(m.regs, s1) {
                Err(_) => t1,
                Ok(s2) => {
                    let t2 = t1.push((Stage::Decode, s2));
                    match execute_spec(m.flags, s2) {
                        Err(_) => t2,
                        Ok((s3, _)) => {
                            let t3 = t2.push((Stage::Execute, s3));
                            match memory_spec(m.mem, s3) {
                                Err(_) => t3,
                                Ok((_, s4)) => {
                                    let t4 = t3.push((Stage::Memory, s4));
                                    match writeback_spec(m.regs, s4) {
                                        Err(_) => t4,
                                        Ok(_) => t4.push((Stage::Writeback, s4)).push(
                                            (Stage::PcUpdate, s4),
                                        ),
                                    }
                                },
                            }
                        },
                    }
                },
            }
        },
    }
}

/// The machine after a fault: only the status changes.
pub open spec fn errored(m: MachineModel) -> MachineModel {
    MachineModel { status: Status::Errored, ..m }
}

/// A step of the cycle driver: a no-op once the machine has stopped.
pub open spec fn step_spec(m: MachineModel) -> Result<MachineModel, SimError> {
    if m.status != Status::Running {
        Ok(m)
    } else {
        cycle_spec(m)
    }
}

/// Up to `n` steps of the cycle driver: the machine after them, and the
/// fault that ended the run, if one did.
pub open spec fn run_spec(m: MachineModel, n: nat) -> (MachineModel, Result<(), SimError>)
    decreases n,
{
    if n == 0 || m.status != Status::Running {
        (m, Ok(()))
    } else {
        match cycle_spec(m) {
            Ok(m2) => run_spec(m2, (n - 1) as nat),
            Err(e) => (errored(m), Err(e)),
        }
    }
}

/// The names of the registers, by index.
pub open spec fn reg_name(i: int) -> Seq<char> {
    if i == 0 {
        "%rax"@
    } else if i == 1 {
        "%rcx"@
    } else if i == 2 {
        "%rdx"@
    } else if i == 3 {
        "%rbx"@
    } else if i == 4 {
        "%rsp"@
    } else if i == 5 {
        "%rbp"@
    } else if i == 6 {
        "%rsi"@
    } else if i == 7 {
        "%rdi"@
    } else if i == 8 {
        "%r08"@
    } else if i == 9 {
        "%r09"@
    } else if i == 10 {
        "%r10"@
    } else if i == 11 {
        "%r11"@
    } else if i == 12 {
        "%r12"@
    } else if i == 13 {
        "%r13"@
    } else {
        "%r14"@
    }
}

/// The first `k` bytes from `i` on, two hexadecimal digits each.
pub open spec fn byte_texts(mem: Seq<u8>, i: int, k: nat) -> Seq<char>
    decreases k,
{
    if k == 0 {
        Seq::empty()
    } else {
        byte_texts(mem, i, (k - 1) as nat) + hex_text(mem[i + k - 1] as nat, 2)
    }
}

/// Whether the word at `i` is all zero bytes.
pub open spec fn word_is_zero(mem: Seq<u8>, i: int) -> bool {
    forall|k: int| 0 <= k < 8 ==> #[trigger] mem[i + k] == 0
}

/// The dump line of the word at `i`.
pub open spec fn mem_line(mem: Seq<u8>, i: int) -> Seq<char> {
    "0x"@ + hex_text(i as nat, 4) + ": "@ + byte_texts(mem, i, 8) + "\n"@
}

/// The dump of the non-zero words from `i` on.
pub open spec fn mem_dump_from(mem: Seq<u8>, i: int) -> Seq<char>
    decreases mem.len() - i,
{
    if i < 0 || i + 8 > mem.len() {
        Seq::empty()
    } else {
        (if word_is_zero(mem, i) {
            Seq::empty()
        } else {
            mem_line(mem, i)
        }) + mem_dump_from(mem, i + 8)
    }
}

/// The dump line of register `i`; empty when it holds zero.
pub open spec fn reg_line(regs: Seq<i64>, i: int) -> Seq<char> {
    if regs[i] != 0 {
        reg_name(i) + ": 0x"@ + hex_text((regs[i] as u64) as nat, 16) + "\n"@
    } else {
        Seq::empty()
    }
}

/// The dump of the non-zero registers among the first `n`.
pub open spec fn regs_dump(regs: Seq<i64>, n: nat) -> Seq<char>
    decreases n,
{
    if n == 0 {
        Seq::empty()
    } else {
        regs_dump(regs, (n - 1) as nat) + reg_line(regs, n - 1)
    }
}

/// The full state dump: cycle count, non-zero memory words, non-zero
/// registers, flags, status and program counter.
pub open spec fn machine_text(m: MachineModel) -> Seq<char> {
    "\nCycle Count: "@ + dec_text(m.cycle as nat) + "\n\n"@ + mem_dump_from(m.mem, 0) + "\n"@
        + regs_dump(m.regs, NUM_REGS as nat) + "\n"@ + flags_text(m.flags) + "\n"@ + status_text(
        m.status,
    ) + "\nPC: 0x"@ + hex_text((m.pc as u64) as nat, 4) + "\n"@
}

fn reg_name_str(i: usize) -> (r: &'static str)
    requires
        i < NUM_REGS,
    ensures
        r@ == reg_name(i as int),
{
    match i {
        0 => "%rax",
        1 => "%rcx",
        2 => "%rdx",
        3 => "%rbx",
        4 => "%rsp",
        5 => "%rbp",
        6 => "%rsi",
        7 => "%rdi",
        8 => "%r08",
        9 => "%r09",
        10 => "%r10",
        11 => "%r11",
        12 => "%r12",
        13 => "%r13",
        _ => "%r14",
    }
}

/// The simulated machine.
pub struct Machine {
    mem: Vec<u8>,
    step_mode: StepMode,
    regs: Vec<i64>,
    flags: Flags,
    status: Status,
    cycle: usize,
    pc: i64,
}

impl View for Machine {
    type V = MachineModel;

    closed spec fn view(&self) -> MachineModel {
        MachineModel {
            mem: self.mem@,
            regs: self.regs@,
            flags: self.flags,
            status: self.status,
            pc: self.pc,
            cycle: self.cycle,
            step_mode: self.step_mode,
        }
    }
}

impl Machine {
    /// The machine's invariant.
    pub open spec fn wf(&self) -> bool {
        model_wf(self@)
    }

    /// A running machine with `mem_size` bytes of zeroed memory, zeroed
    /// registers and flags, and the program counter at 0.
    pub fn new(mem_size: usize, step_mode: StepMode) -> (r: Machine)
        requires
            mem_size as int <= i64::MAX,
        ensures
            r.wf(),
            r@.mem == Seq::new(mem_size as nat, |i: int| 0u8),
            r@.regs == Seq::new(NUM_REGS as nat, |i: int| 0i64),
            r@.flags == (Flags { sign: false, zero: false, overflow: false }),
            r@.status == Status::Running,
            r@.pc == 0,
            r@.cycle == 0,
            r@.step_mode == step_mode,
    {
        let mut mem: Vec<u8> = Vec::new();
        for i in 0..mem_size
            invariant
                mem@ == Seq::new(i as nat, |j: int| 0u8),
        {
            mem.push(0);
            assert(mem@ =~= Seq::new((i + 1) as nat, |j: int| 0u8));
        }
        let mut regs: Vec<i64> = Vec::new();
        for i in 0..NUM_REGS
            invariant
                regs@ == Seq::new(i as nat, |j: int| 0i64),
        {
            regs.push(0);
            assert(regs@ =~= Seq::new((i + 1) as nat, |j: int| 0i64));
        }
        Machine {
            mem,
            step_mode,
            regs,
            flags: Flags { sign: false, zero: false, overflow: false },
            status: Status::Running,
            cycle: 0,
            pc: 0,
        }
    }

    /// Loads a program listing into memory (see the `loader` module for its
    /// format). A malformed line fails the load and leaves the machine as it
    /// was.
    pub fn load(&mut self, file: String) -> (r: Result<(), SimError>)
        requires
            old(self).wf(),
        ensures
            final(self).wf(),
            match load_text(old(self)@.mem, file@) {
                Some(mem) => r is Ok && final(self)@ == (MachineModel { mem, ..old(self)@ }),
                None => r == Err::<(), SimError>(SimError::MalformedInput) && final(self)@
                    == old(self)@,
            },
    {
        let image = load_listing(&self.mem, &file)?;
        self.mem = image;
        Ok(())
    }

    /// The index of a word access at `a`, when it stays inside memory.
    fn word_index(&self, a: i64) -> (r: Option<usize>)
        ensures
            r is Some <==> word_in_bounds(self@.mem.len() as int, a as int),
            r is Some ==> r->0 as int == a as int && r->0 + WORD_BYTES <= self.mem.len(),
    {
        if a < 0 {
            return None;
        }
        let len = self.mem.len();
        if len < WORD_BYTES {
            return None;
        }
        let ua = a as u64;
        if ua > (len - WORD_BYTES) as u64 {
            None
        } else {
            Some(ua as usize)
        }
    }

    /// Reads the word stored at `a`.
    pub fn get_mem_word(&self, a: i64) -> (r: Result<i64, SimError>)
        ensures
            r == load_spec(self@.mem, a as int),
    {
        match self.word_index(a) {
            None => Err(SimError::AddressOutOfBounds),
            Some(i) => {
                let mem = &self.mem;
                let u = (mem[i] as u64) | ((mem[i + 1] as u64) << 8u64) | ((mem[i + 2] as u64)
                    << 16u64) | ((mem[i + 3] as u64) << 24u64) | ((mem[i + 4] as u64) << 32u64)
                    | ((mem[i + 5] as u64) << 40u64) | ((mem[i + 6] as u64) << 48u64) | ((mem[i
                    + 7] as u64) << 56u64);
                Ok(#[verifier::truncate] (u as i64))
            },
        }
    }

    /// Stores `w` at `a`; memory is unchanged when the access is out of bounds.
    pub fn set_mem_word(&mut self, a: i64, w: i64) -> (r: Result<(), SimError>)
        requires
            old(self).wf(),
        ensures
            final(self).wf(),
            match store_spec(old(self)@.mem, a as int, w) {
                Ok(mem) => r is Ok && final(self)@ == (MachineModel { mem, ..old(self)@ }),
                Err(e) => r == Err::<(), SimError>(e) && final(self)@ == old(self)@,
            },
    {
        match self.word_index(a) {
            None => Err(SimError::AddressOutOfBounds),
            Some(i) => {
                let u = #[verifier::truncate] (w as u64);
                self.mem.set(i, #[verifier::truncate] (u as u8));
                self.mem.set(i + 1, #[verifier::truncate] ((u >> 8u64) as u8));
                self.mem.set(i + 2, #[verifier::truncate] ((u >> 16u64) as u8));
                self.mem.set(i + 3, #[verifier::truncate] ((u >> 24u64) as u8));
                self.mem.set(i + 4, #[verifier::truncate] ((u >> 32u64) as u8));
                self.mem.set(i + 5, #[verifier::truncate] ((u >> 40u64) as u8));
                self.mem.set(i + 6, #[verifier::truncate] ((u >> 48u64) as u8));
                self.mem.set(i + 7, #[verifier::truncate] ((u >> 56u64) as u8));
                assert forall|j: int| 0 <= j < self@.mem.len() implies #[trigger] self@.mem[j]
                    == write_word(old(self)@.mem, a as int, w)[j] by {
                    if a <= j < a + 8 {
                        let k = j - a;
                        assert(k == 0 || k == 1 || k == 2 || k == 3 || k == 4 || k == 5 || k == 6
                            || k == 7);
                        if k == 0 {
                            assert(u >> 0u64 == u) by (bit_vector);
                        }
                    }
                }
                assert(self@.mem =~= write_word(old(self)@.mem, a as int, w));
                Ok(())
            },
        }
    }

    /// The machine's status.
    pub fn status(&self) -> (r: Status)
        ensures
            r == self@.status,
    {
        self.status
    }

    /// The program counter.
    pub fn pc(&self) -> (r: i64)
        ensures
            r == self@.pc,
    {
        self.pc
    }

    /// The condition flags.
    pub fn flags(&self) -> (r: Flags)
        ensures
            r == self@.flags,
    {
        self.flags
    }

    /// The number of completed instruction cycles (it stops counting at
    /// `usize::MAX`).
    pub fn cycle(&self) -> (r: usize)
        ensures
            r == self@.cycle,
    {
        self.cycle
    }

    /// How a run pauses for an observer.
    pub fn step_mode(&self) -> (r: StepMode)
        ensures
            r == self@.step_mode,
    {
        self.step_mode
    }

    /// The value of register `i`, or `None` past the register file.
    pub fn register(&self, i: usize) -> (r: Option<i64>)
        requires
            self.wf(),
        ensures
            i < NUM_REGS ==> r == Some(self@.regs[i as int]),
            i >= NUM_REGS ==> r is None,
    {
        if i < self.regs.len() {
            Some(self.regs[i])
        } else {
            None
        }
    }

    /// The size of memory in bytes.
    pub fn mem_size(&self) -> (r: usize)
        ensures
            r == self@.mem.len(),
    {
        self.mem.len()
    }

    /// The byte at address `i`, or `None` past the end of memory.
    pub fn mem_byte(&self, i: usize) -> (r: Option<u8>)
        ensures
            i < self@.mem.len() ==> r == Some(self@.mem[i as int]),
            i >= self@.mem.len() ==> r is None,
    {
        if i < self.mem.len() {
            Some(self.mem[i])
        } else {
            None
        }
    }

    /// Decodes the instruction at the program counter.
    pub fn fetch(&self) -> (r: Result<CycleState, SimError>)
        requires
            self.wf(),
        ensures
            r == fetch_spec(self@.mem, self@.pc as int),
    {
        let pc = self.pc;
        if pc < 0 {
            return Err(SimError::AddressOutOfBounds);
        }
        let len = self.mem.len();
        if pc as u64 >= len as u64 {
            return Err(SimError::AddressOutOfBounds);
        }
        let i = pc as usize;
        let byte = self.mem[i];
        let code = byte / 16;
        let fun = byte % 16;
        let avail = len - i;
        match code {
            0 => Ok(CycleState::decoded(OpCode::Halt, 0, 0, 0, pc + 1)),
            1 => Ok(CycleState::decoded(OpCode::Nop, 0, 0, 0, pc + 1)),
            2 => match decode_condition(fun) {
                None => Err(SimError::InvalidEncoding),
                Some(c) => {
                    if avail < 2 {
                        return Err(SimError::AddressOutOfBounds);
                    }
                    let regs = self.mem[i + 1];
                    Ok(CycleState::decoded(OpCode::Cmov(c), (regs / 16) as usize, (regs % 16) as usize, 0, pc + 2))
                },
            },
            3 | 4 | 5 => {
                let op = if code == 3 {
                    OpCode::Irmov
                } else if code == 4 {
                    OpCode::Rmmov
                } else {
                    OpCode::Mrmov
                };
                if avail < 10 {
                    return Err(SimError::AddressOutOfBounds);
                }
                let regs = self.mem[i + 1];
                let val_c = self.get_mem_word(pc + 2)?;
                Ok(CycleState::decoded(op, (regs / 16) as usize, (regs % 16) as usize, val_c, pc + 10))
            },
            6 => match decode_alu(fun) {
                None => Err(SimError::InvalidEncoding),
                Some(f) => {
                    if avail < 2 {
                        return Err(SimError::AddressOutOfBounds);
                    }
                    let regs = self.mem[i + 1];
                    Ok(CycleState::decoded(OpCode::Opx(f), (regs / 16) as usize, (regs % 16) as usize, 0, pc + 2))
                },
            },
            7 => match decode_condition(fun) {
                None => Err(SimError::InvalidEncoding),
                Some(c) => {
                    if avail < 9 {
                        return Err(SimError::AddressOutOfBounds);
                    }
                    let val_c = self.get_mem_word(pc + 1)?;
                    Ok(CycleState::decoded(OpCode::Jxx(c), 0, 0, val_c, pc + 9))
                },
            },
            8 => {
                if avail < 9 {
                    return Err(SimError::AddressOutOfBounds);
                }
                let val_c = self.get_mem_word(pc + 1)?;
                Ok(CycleState::decoded(OpCode::Call, 0, 0, val_c, pc + 9))
            },
            9 => Ok(CycleState::decoded(OpCode::Ret, 0, 0, 0, pc + 1)),
            10 | 11 => {
                let op = if code == 10 {
                    OpCode::Push
                } else {
                    OpCode::Pop
                };
                if avail < 2 {
                    return Err(SimError::AddressOutOfBounds);
                }
                let regs = self.mem[i + 1];
                Ok(CycleState::decoded(op, (regs / 16) as usize, (regs % 16) as usize, 0, pc + 2))
            },
            _ => Err(SimError::InvalidEncoding),
        }
    }

    /// The value of register `i`, or the fault for an index past the file.
    fn reg(&self, i: usize) -> (r: Result<i64, SimError>)
        requires
            self.wf(),
        ensures
            i < NUM_REGS ==> r == Ok::<i64, SimError>(self@.regs[i as int]),
            i >= NUM_REGS ==> r == Err::<i64, SimError>(SimError::AddressOutOfBounds),
    {
        if i < self.regs.len() {
            Ok(self.regs[i])
        } else {
            Err(SimError::AddressOutOfBounds)
        }
    }

    /// The operand-read stage: fills `val_a` and `val_b` from the registers.
    pub fn decode(&self, s: &mut CycleState) -> (r: Result<(), SimError>)
        requires
            self.wf(),
        ensures
            match read_spec(self@.regs, *old(s)) {
                Ok(s2) => r is Ok && *final(s) == s2,
                Err(e) => r == Err::<(), SimError>(e) && *final(s) == *old(s),
            },
    {
        match s.op {
            OpCode::Rmmov | OpCode::Opx(_) | OpCode::Cmov(_) => {
                let a = self.reg(s.r_a)?;
                let b = self.reg(s.r_b)?;
                s.val_a = a;
                s.val_b = b;
            },
            OpCode::Mrmov => {
                let b = self.reg(s.r_b)?;
                s.val_b = b;
            },
            OpCode::Call => {
                s.val_b = self.regs[RSP];
            },
            OpCode::Ret | OpCode::Pop => {
                let sp = self.regs[RSP];
                s.val_a = sp;
                s.val_b = sp;
            },
            OpCode::Push => {
                let a = self.reg(s.r_a)?;
                s.val_a = a;
                s.val_b = self.regs[RSP];
            },
            _ => {},
        }
        Ok(())
    }

    /// Evaluates a condition predicate against the current flags.
    pub fn cond(&self, c: Condition) -> (r: bool)
        ensures
            r == condition_holds(self@.flags, c),
    {
        self.flags.satisfies(c)
    }

    /// The execute stage: computes `val_e` and `cnd`; arithmetic/logic
    /// instructions set the flags. The address of `rmmov` and `mrmov` faults
    /// when `val_b + val_c` leaves the word range, leaving the scratch record
    /// and the machine as they were.
    pub fn execute(&mut self, s: &mut CycleState) -> (r: Result<(), SimError>)
        requires
            old(self).wf(),
        ensures
            final(self).wf(),
            match execute_spec(old(self)@.flags, *old(s)) {
                Ok((s2, flags)) => r is Ok && *final(s) == s2 && final(self)@ == (MachineModel {
                    flags,
                    ..old(self)@
                }),
                Err(e) => r == Err::<(), SimError>(e) && *final(s) == *old(s) && final(self)@
                    == old(self)@,
            },
    {
        match s.op {
            OpCode::Irmov => {
                s.val_e = s.val_c;
            },
            OpCode::Cmov(c) => {
                s.cnd = self.cond(c);
                s.val_e = if s.cnd { s.val_a } else { s.val_b };
            },
            OpCode::Rmmov | OpCode::Mrmov => match s.val_b.checked_add(s.val_c) {
                Some(a) => {
                    s.val_e = a;
                },
                None => return Err(SimError::AddressOutOfBounds),
            },
            OpCode::Opx(op) => {
                let (res, flags) = alu(op, s.val_b, s.val_a);
                self.flags = flags;
                s.val_e = res;
            },
            OpCode::Jxx(c) => {
                s.cnd = self.cond(c);
                s.val_e = if s.cnd { s.val_c } else { s.val_p };
            },
            OpCode::Call | OpCode::Push => {
                s.val_e = s.val_b.wrapping_sub(8);
            },
            OpCode::Ret | OpCode::Pop => {
                s.val_e = s.val_b.wrapping_add(8);
            },
            _ => {
                s.val_e = 0;
            },
        }
        Ok(())
    }

    /// The memory stage: stores for `rmmov`, `call` and `push`, loads into
    /// `val_m` for `mrmov`, `ret` and `pop`, at `val_e` (`val_a`, the stack
    /// pointer before it moves, for `ret` and `pop`). An access outside
    /// memory faults and changes nothing.
    pub fn memory(&mut self, s: &mut CycleState) -> (r: Result<(), SimError>)
        requires
            old(self).wf(),
        ensures
            final(self).wf(),
            match memory_spec(old(self)@.mem, *old(s)) {
                Ok((mem, s2)) => r is Ok && *final(s) == s2 && final(self)@ == (MachineModel {
                    mem,
                    ..old(self)@
                }),
                Err(e) => r == Err::<(), SimError>(e) && *final(s) == *old(s) && final(self)@
                    == old(self)@,
            },
    {
        match s.op {
            OpCode::Rmmov | OpCode::Push => self.set_mem_word(s.val_e, s.val_a),
            OpCode::Call => self.set_mem_word(s.val_e, s.val_p),
            OpCode::Mrmov => {
                s.val_m = self.get_mem_word(s.val_e)?;
                Ok(())
            },
            OpCode::Ret | OpCode::Pop => {
                s.val_m = self.get_mem_word(s.val_a)?;
                Ok(())
            },
            _ => Ok(()),
        }
    }

    /// The writeback stage: commits `val_e` and `val_m` to the registers.
    pub fn writeback(&mut self, s: &CycleState) -> (r: Result<(), SimError>)
        requires
            old(self).wf(),
        ensures
            final(self).wf(),
            match writeback_spec(old(self)@.regs, *s) {
                Ok(regs) => r is Ok && final(self)@ == (MachineModel { regs, ..old(self)@ }),
                Err(e) => r == Err::<(), SimError>(e) && final(self)@ == old(self)@,
            },
    {
        match s.op {
            OpCode::Irmov | OpCode::Cmov(_) | OpCode::Opx(_) => {
                if s.r_b >= NUM_REGS {
                    return Err(SimError::AddressOutOfBounds);
                }
                self.regs.set(s.r_b, s.val_e);
            },
            OpCode::Mrmov => {
                if s.r_a >= NUM_REGS {
                    return Err(SimError::AddressOutOfBounds);
                }
                self.regs.set(s.r_a, s.val_m);
            },
            OpCode::Call | OpCode::Ret | OpCode::Push => {
                self.regs.set(RSP, s.val_e);
            },
            OpCode::Pop => {
                if s.r_a >= NUM_REGS {
                    return Err(SimError::AddressOutOfBounds);
                }
                self.regs.set(s.r_a, s.val_m);
                self.regs.set(RSP, s.val_e);
            },
            _ => {},
        }
        Ok(())
    }

    /// The program-counter update: jump target, return address, call target
    /// or the next sequential address; `halt` stops the machine.
    pub fn pc_update(&mut self, s: &CycleState)
        requires
            old(self).wf(),
        ensures
            final(self).wf(),
            final(self)@ == (MachineModel {
                status: if s.op == OpCode::Halt {
                    Status::Halted
                } else {
                    old(self)@.status
                },
                pc: next_pc(*s),
                ..old(self)@
            }),
    {
        if s.op == OpCode::Halt {
            self.status = Status::Halted;
        }
        self.pc = match s.op {
            OpCode::Jxx(_) => s.val_e,
            OpCode::Ret => s.val_m,
            OpCode::Call => s.val_c,
            _ => s.val_p,
        };
    }

    /// Marks the machine as stopped by a fault and hands the fault back.
    fn fail(&mut self, e: SimError) -> (r: Result<(), SimError>)
        requires
            old(self).wf(),
        ensures
            final(self).wf(),
            final(self)@ == errored(old(self)@),
            r == Err::<(), SimError>(e),
    {
        self.status = Status::Errored;
        Err(e)
    }

    /// One step of the cycle driver: a full instruction cycle while the
    /// machine runs, nothing once it has halted or faulted. A fault leaves
    /// memory, registers, flags, program counter and cycle count as they
    /// were and marks the machine as errored.
    pub fn step(&mut self) -> (r: Result<(), SimError>)
        requires
            old(self).wf(),
        ensures
            final(self).wf(),
            match step_spec(old(self)@) {
                Ok(m) => r is Ok && final(self)@ == m,
                Err(e) => r == Err::<(), SimError>(e) && final(self)@ == errored(old(self)@),
            },
    {
        if self.status != Status::Running {
            return Ok(());
        }
        let mut s = match self.fetch() {
            Ok(s) => s,
            Err(e) => return self.fail(e),
        };
        if let Err(e) = self.decode(&mut s) {
            return self.fail(e);
        }
        if let Err(e) = self.execute(&mut s) {
            return self.fail(e);
        }
        if let Err(e) = self.memory(&mut s) {
            return self.fail(e);
        }
        if let Err(e) = self.writeback(&s) {
            return self.fail(e);
        }
        self.pc_update(&s);
        self.cycle = self.cycle.saturating_add(1);
        Ok(())
    }

    /// `step`, also handing back the scratch record as it stood after each
    /// stage that completed, so that an observer can follow the cycle stage
    /// by stage.
    pub fn step_traced(&mut self) -> (r: (Result<(), SimError>, Vec<(Stage, CycleState)>))
        requires
            old(self).wf(),
        ensures
            final(self).wf(),
            match step_spec(old(self)@) {
                Ok(m) => r.0 is Ok && final(self)@ == m,
                Err(e) => r.0 == Err::<(), SimError>(e) && final(self)@ == errored(old(self)@),
            },
            r.1@ == if old(self)@.status == Status::Running {
                cycle_trace(old(self)@)
            } else {
                Seq::empty()
            },
    {
        let mut trace: Vec<(Stage, CycleState)> = Vec::new();
        if self.status != Status::Running {
            return (Ok(()), trace);
        }
        let mut s = match self.fetch() {
            Ok(s) => s,
            Err(e) => return (self.fail(e), trace),
        };
        trace.push((Stage::Fetch, s));
        if let Err(e) = self.decode(&mut s) {
            return (self.fail(e), trace);
        }
        trace.push((Stage::Decode, s));
        if let Err(e) = self.execute(&mut s) {
            return (self.fail(e), trace);
        }
        trace.push((Stage::Execute, s));
        if let Err(e) = self.memory(&mut s) {
            return (self.fail(e), trace);
        }
        trace.push((Stage::Memory, s));
        if let Err(e) = self.writeback(&s) {
            return (self.fail(e), trace);
        }
        trace.push((Stage::Writeback, s));
        self.pc_update(&s);
        trace.push((Stage::PcUpdate, s));
        self.cycle = self.cycle.saturating_add(1);
        (Ok(()), trace)
    }

    /// Runs the cycle driver for at most `max_cycles` steps, stopping early
    /// when the machine halts or faults. A program may loop for ever, so the
    /// caller bounds the run and calls again while the machine is running.
    pub fn run(&mut self, max_cycles: u64) -> (r: Result<(), SimError>)
        requires
            old(self).wf(),
        ensures
            final(self).wf(),
            (final(self)@, r) == run_spec(old(self)@, max_cycles as nat),
    {
        let mut n: u64 = 0;
        while n < max_cycles
            invariant
                self.wf(),
                n <= max_cycles,
                run_spec(old(self)@, max_cycles as nat) == run_spec(self@, (max_cycles - n) as nat),
            decreases max_cycles - n,
        {
            if self.status != Status::Running {
                return Ok(());
            }
            if let Err(e) = self.step() {
                return Err(e);
            }
            n = n + 1;
        }
        Ok(())
    }

    /// The non-zero words of memory, one line each.
    pub fn format_mem(&self) -> (r: String)
        requires
            self@.mem.len() % 8 == 0,
        ensures
            r@ == mem_dump_from(self@.mem, 0),
    {
        let ghost mem = self@.mem;
        let mut out = String::new();
        let len = self.mem.len();
        let mut i: usize = 0;
        while i < len
            invariant
                i <= len == mem.len(),
                mem == self@.mem,
                (len - i) % 8 == 0,
                mem_dump_from(mem, 0) == out@ + mem_dump_from(mem, i as int),
            decreases len - i,
        {
            let ghost before = out@;
            let mut zero = true;
            for k in 0..8usize
                invariant
                    i + 8 <= len == mem.len(),
                    mem == self@.mem,
                    zero <==> (forall|j: int| 0 <= j < k ==> #[trigger] mem[i + j] == 0),
            {
                if self.mem[i + k] != 0 {
                    zero = false;
                }
            }
            if !zero {
                out.append("0x");
                push_hex(&mut out, i as u64, 4);
                out.append(": ");
                let ghost head = out@;
                for k in 0..8usize
                    invariant
                        i + 8 <= len == mem.len(),
                        mem == self@.mem,
                        out@ == head + byte_texts(mem, i as int, k as nat),
                {
                    push_hex(&mut out, self.mem[i + k] as u64, 2);
                }
                out.append("\n");
                assert(out@ =~= before + mem_line(mem, i as int));
            } else {
                assert(word_is_zero(mem, i as int));
            }
            assert(mem_dump_from(mem, i as int) == (if word_is_zero(mem, i as int) {
                Seq::empty()
            } else {
                mem_line(mem, i as int)
            }) + mem_dump_from(mem, i + 8));
            i = i + 8;
            assert(mem_dump_from(mem, 0) =~= out@ + mem_dump_from(mem, i as int));
        }
        assert(mem_dump_from(mem, i as int) == Seq::<char>::empty());
        assert(out@ =~= mem_dump_from(mem, 0));
        out
    }

    /// The non-zero registers, one line each.
    pub fn format_regs(&self) -> (r: String)
        requires
            self.wf(),
        ensures
            r@ == regs_dump(self@.regs, NUM_REGS as nat),
    {
        let mut out = String::new();
        for i in 0..NUM_REGS
            invariant
                self.wf(),
                out@ == regs_dump(self@.regs, i as nat),
        {
            let v = self.regs[i];
            if v != 0 {
                out.append(reg_name_str(i));
                out.append(": 0x");
                push_hex(&mut out, #[verifier::truncate] (v as u64), 16);
                out.append("\n");
            }
            assert(out@ =~= regs_dump(self@.regs, (i + 1) as nat));
        }
        out
    }

    /// The full state dump.
    pub fn to_text(&self) -> (r: String)
        requires
            self.wf(),
            self@.mem.len() % 8 == 0,
        ensures
            r@ == machine_text(self@),
    {
        let mut out = String::from_str("\nCycle Count: ");
        push_dec(&mut out, self.cycle as u64);
        out.append("\n\n");
        out.append(self.format_mem().as_str());
        out.append("\n");
        out.append(self.format_regs().as_str());
        out.append("\n");
        out.append(self.flags.to_text().as_str());
        out.append("\n");
        out.append(self.status.to_text().as_str());
        out.append("\nPC: 0x");
        push_hex(&mut out, #[verifier::truncate] (self.pc as u64), 4);
        out.append("\n");
        out
    }
}

} // verus!
