//! The instruction set: opcodes, condition predicates, ALU operations and the
//! per-cycle scratch record.

use vstd::prelude::*;
use crate::text::{bool_text, hex_text, push_bool, push_hex};

verus! {

/// How a run pauses so that an observer can inspect the machine.
#[derive(Debug, PartialEq, Eq, Structural, Clone, Copy)]
pub enum StepMode {
    NoStep,
    Stage,
    Cycle,
    Debug,
}

/// The stages of one instruction cycle, in the order in which they run.
#[derive(Debug, PartialEq, Eq, Structural, Clone, Copy)]
pub enum Stage {
    Fetch,
    Decode,
    Execute,
    Memory,
    Writeback,
    PcUpdate,
}

/// The machine's status: `Running` until a halt or a fault, both terminal.
#[derive(Debug, PartialEq, Eq, Structural, Clone, Copy)]
pub enum Status {
    Running,
    Halted,
    Errored,
}

/// The condition flags set by arithmetic/logic instructions.
#[derive(Debug, PartialEq, Eq, Structural, Clone, Copy)]
pub struct Flags {
    pub sign: bool,
    pub zero: bool,
    pub overflow: bool,
}

/// Why an instruction cycle (or a program load) failed.
#[derive(Debug, PartialEq, Eq, Structural, Clone, Copy)]
pub enum SimError {
    /// A memory address or register index outside its fixed range.
    AddressOutOfBounds,
    /// An opcode or function nibble without a meaning.
    InvalidEncoding,
    /// A program listing that cannot be read.
    MalformedInput,
}

/// The predicate that a conditional move or jump tests.
#[derive(Debug, PartialEq, Eq, Structural, Clone, Copy)]
pub enum Condition {
    Always,
    Le,
    Lt,
    Eq,
    Ne,
    Ge,
    Gt,
}

/// The operation of an arithmetic/logic instruction.
#[derive(Debug, PartialEq, Eq, Structural, Clone, Copy)]
pub enum AluOp {
    Add,
    Sub,
    And,
    Xor,
}

/// A decoded opcode; the conditional and arithmetic classes carry their
/// function code.
#[derive(Debug, PartialEq, Eq, Structural, Clone, Copy)]
pub enum OpCode {
    Halt,
    Nop,
    Cmov(Condition),
    Irmov,
    Rmmov,
    Mrmov,
    Opx(AluOp),
    Jxx(Condition),
    Call,
    Ret,
    Push,
    Pop,
}

/// The number of general-purpose registers.
pub const NUM_REGS: usize = 15;

/// The index of the stack-pointer register (`%rsp`).
pub const RSP: usize = 4;

/// The per-cycle scratch record: the decoded instruction and the values that
/// the stages compute from it.
#[derive(Debug, PartialEq, Eq, Structural, Clone, Copy)]
pub struct CycleState {
    pub op: OpCode,
    pub r_a: usize,
    pub r_b: usize,
    /// The immediate constant or displacement.
    pub val_c: i64,
    /// The address of the next sequential instruction.
    pub val_p: i64,
    pub val_a: i64,
    pub val_b: i64,
    /// The ALU or address result.
    pub val_e: i64,
    /// The value loaded from memory.
    pub val_m: i64,
    /// The resolved condition of a conditional move or jump.
    pub cnd: bool,
}

/// The scratch record that decoding produces: operand values not yet read.
pub open spec fn decoded(op: OpCode, r_a: int, r_b: int, val_c: i64, val_p: int) -> CycleState {
    CycleState {
        op,
        r_a: r_a as usize,
        r_b: r_b as usize,
        val_c,
        val_p: val_p as i64,
        val_a: 0,
        val_b: 0,
        val_e: 0,
        val_m: 0,
        cnd: false,
    }
}

impl CycleState {
    /// A decoded instruction with every computed value still zero.
    pub fn decoded(op: OpCode, r_a: usize, r_b: usize, val_c: i64, val_p: i64) -> (r: CycleState)
        ensures
            r == decoded(op, r_a as int, r_b as int, val_c, val_p as int),
    {
        CycleState { op, r_a, r_b, val_c, val_p, val_a: 0, val_b: 0, val_e: 0, val_m: 0, cnd: false }
    }
}

/// The condition predicate that a function nibble selects.
pub open spec fn condition_code(fun: u8) -> Option<Condition> {
    if fun == 0 {
        Some(Condition::Always)
    } else if fun == 1 {
        Some(Condition::Le)
    } else if fun == 2 {
        Some(Condition::Lt)
    } else if fun == 3 {
        Some(Condition::Eq)
    } else if fun == 4 {
        Some(Condition::Ne)
    } else if fun == 5 {
        Some(Condition::Ge)
    } else if fun == 6 {
        Some(Condition::Gt)
    } else {
        None
    }
}

/// The ALU operation that a function nibble selects.
pub open spec fn alu_code(fun: u8) -> Option<AluOp> {
    if fun == 0 {
        Some(AluOp::Add)
    } else if fun == 1 {
        Some(AluOp::Sub)
    } else if fun == 2 {
        Some(AluOp::And)
    } else if fun == 3 {
        Some(AluOp::Xor)
    } else {
        None
    }
}

/// Maps a function nibble to its condition predicate.
pub fn decode_condition(fun: u8) -> (r: Option<Condition>)
    ensures
        r == condition_code(fun),
{
    match fun {
        0 => Some(Condition::Always),
        1 => Some(Condition::Le),
        2 => Some(Condition::Lt),
        3 => Some(Condition::Eq),
        4 => Some(Condition::Ne),
        5 => Some(Condition::Ge),
        6 => Some(Condition::Gt),
        _ => None,
    }
}

/// Maps a function nibble to its ALU operation.
pub fn decode_alu(fun: u8) -> (r: Option<AluOp>)
    ensures
        r == alu_code(fun),
{
    match fun {
        0 => Some(AluOp::Add),
        1 => Some(AluOp::Sub),
        2 => Some(AluOp::And),
        3 => Some(AluOp::Xor),
        _ => None,
    }
}

/// Whether a mathematical result lies outside the range of a machine word.
pub open spec fn out_of_word_range(v: int) -> bool {
    !(i64::MIN <= v <= i64::MAX)
}

/// The two's-complement result of `b op a`.
pub open spec fn alu_result(op: AluOp, b: i64, a: i64) -> i64 {
    match op {
        AluOp::Add => vstd::wrapping::i64_specs::wrapping_add(b, a),
        AluOp::Sub => vstd::wrapping::i64_specs::wrapping_sub(b, a),
        AluOp::And => b & a,
        AluOp::Xor => b ^ a,
    }
}

/// The flags that `b op a` leaves: sign and zero of the result, overflow when
/// an addition or subtraction leaves the word range.
pub open spec fn alu_flags(op: AluOp, b: i64, a: i64) -> Flags {
    let r = alu_result(op, b, a);
    Flags {
        sign: r < 0,
        zero: r == 0,
        overflow: match op {
            AluOp::Add => out_of_word_range(b + a),
            AluOp::Sub => out_of_word_range(b - a),
            _ => false,
        },
    }
}

/// Computes `b op a` and the flags it leaves.
pub fn alu(op: AluOp, b: i64, a: i64) -> (r: (i64, Flags))
    ensures
        r.0 == alu_result(op, b, a),
        r.1 == alu_flags(op, b, a),
{
    let (res, of) = match op {
        AluOp::Add => (b.wrapping_add(a), b.checked_add(a).is_none()),
        AluOp::Sub => (b.wrapping_sub(a), b.checked_sub(a).is_none()),
        AluOp::And => (b & a, false),
        AluOp::Xor => (b ^ a, false),
    };
    (res, Flags { sign: res < 0, zero: res == 0, overflow: of })
}

/// The truth table of the condition predicates over the flags.
pub open spec fn condition_holds(f: Flags, c: Condition) -> bool {
    match c {
        Condition::Always => true,
        Condition::Le => (f.sign != f.overflow) || f.zero,
        Condition::Lt => f.sign != f.overflow,
        Condition::Eq => f.zero,
        Condition::Ne => !f.zero,
        Condition::Ge => !(f.sign != f.overflow) && !f.zero,
        Condition::Gt => !(f.sign != f.overflow),
    }
}

impl Flags {
    /// Whether the flags satisfy the condition predicate `c`.
    pub fn satisfies(&self, c: Condition) -> (r: bool)
        ensures
            r == condition_holds(*self, c),
    {
        let sf_xor_of = self.sign != self.overflow;
        match c {
            Condition::Always => true,
            Condition::Le => sf_xor_of || self.zero,
            Condition::Lt => sf_xor_of,
            Condition::Eq => self.zero,
            Condition::Ne => !self.zero,
            Condition::Ge => !sf_xor_of && !self.zero,
            Condition::Gt => !sf_xor_of,
        }
    }
}

/// The name of a stage.
pub open spec fn stage_text(s: Stage) -> Seq<char> {
    match s {
        Stage::Fetch => "Fetch"@,
        Stage::Decode => "Decode"@,
        Stage::Execute => "Execute"@,
        Stage::Memory => "Memory"@,
        Stage::Writeback => "Writeback"@,
        Stage::PcUpdate => "PC Update"@,
    }
}

impl Stage {
    /// The stage's name.
    pub fn to_text(&self) -> (r: String)
        ensures
            r@ == stage_text(*self),
    {
        let name = match self {
            Stage::Fetch => "Fetch",
            Stage::Decode => "Decode",
            Stage::Execute => "Execute",
            Stage::Memory => "Memory",
            Stage::Writeback => "Writeback",
            Stage::PcUpdate => "PC Update",
        };
        String::from_str(name)
    }
}

/// The status line of a state dump.
pub open spec fn status_text(s: Status) -> Seq<char> {
    match s {
        Status::Running => "STAT: AOK"@,
        Status::Halted => "STAT: HLT"@,
        Status::Errored => "STAT: ERR"@,
    }
}

impl Status {
    /// The status line of a state dump.
    pub fn to_text(&self) -> (r: String)
        ensures
            r@ == status_text(*self),
    {
        let line = match self {
            Status::Running => "STAT: AOK",
            Status::Halted => "STAT: HLT",
            Status::Errored => "STAT: ERR",
        };
        String::from_str(line)
    }
}

/// `"1"` for a set flag, `"0"` for a clear one.
pub open spec fn flag_text(b: bool) -> Seq<char> {
    if b {
        "1"@
    } else {
        "0"@
    }
}

/// The flags line of a state dump.
pub open spec fn flags_text(f: Flags) -> Seq<char> {
    "SF: "@ + flag_text(f.sign) + "\tZF: "@ + flag_text(f.zero) + "\tOF: "@ + flag_text(f.overflow)
}

fn flag_str(b: bool) -> (r: &'static str)
    ensures
        r@ == flag_text(b),
{
    if b {
        "1"
    } else {
        "0"
    }
}

impl Flags {
    /// The flags line of a state dump.
    pub fn to_text(&self) -> (r: String)
        ensures
            r@ == flags_text(*self),
    {
        let mut out = String::from_str("SF: ");
        out.append(flag_str(self.sign));
        out.append("\tZF: ");
        out.append(flag_str(self.zero));
        out.append("\tOF: ");
        out.append(flag_str(self.overflow));
        out
    }
}

/// The mnemonic of an opcode class.
pub open spec fn op_text(op: OpCode) -> Seq<char> {
    match op {
        OpCode::Halt => "halt"@,
        OpCode::Nop => "nop"@,
        OpCode::Cmov(_) => "cmov"@,
        OpCode::Irmov => "irmov"@,
        OpCode::Rmmov => "rmmov"@,
        OpCode::Mrmov => "mrmov"@,
        OpCode::Opx(_) => "op"@,
        OpCode::Jxx(_) => "jmp"@,
        OpCode::Call => "call"@,
        OpCode::Ret => "ret"@,
        OpCode::Push => "push"@,
        OpCode::Pop => "pop"@,
    }
}

/// The name of an instruction's function code; `"none"` for classes without one.
pub open spec fn fun_text(op: OpCode) -> Seq<char> {
    match op {
        OpCode::Opx(AluOp::Add) => "add"@,
        OpCode::Opx(AluOp::Sub) => "sub"@,
        OpCode::Opx(AluOp::And) => "and"@,
        OpCode::Opx(AluOp::Xor) => "xor"@,
        OpCode::Cmov(c) | OpCode::Jxx(c) => match c {
            Condition::Always => "ucnd"@,
            Condition::Le => "lte"@,
            Condition::Lt => "lt"@,
            Condition::Eq => "eq"@,
            Condition::Ne => "neq"@,
            Condition::Ge => "gte"@,
            Condition::Gt => "gt"@,
        },
        _ => "none"@,
    }
}

impl OpCode {
    /// The mnemonic of the opcode class.
    pub fn to_text(&self) -> (r: String)
        ensures
            r@ == op_text(*self),
    {
        let name = match self {
            OpCode::Halt => "halt",
            OpCode::Nop => "nop",
            OpCode::Cmov(_) => "cmov",
            OpCode::Irmov => "irmov",
            OpCode::Rmmov => "rmmov",
            OpCode::Mrmov => "mrmov",
            OpCode::Opx(_) => "op",
            OpCode::Jxx(_) => "jmp",
            OpCode::Call => "call",
            OpCode::Ret => "ret",
            OpCode::Push => "push",
            OpCode::Pop => "pop",
        };
        String::from_str(name)
    }

    /// The name of the function code; `"none"` for classes without one.
    pub fn fun_to_text(&self) -> (r: String)
        ensures
            r@ == fun_text(*self),
    {
        let name = match self {
            OpCode::Opx(AluOp::Add) => "add",
            OpCode::Opx(AluOp::Sub) => "sub",
            OpCode::Opx(AluOp::And) => "and",
            OpCode::Opx(AluOp::Xor) => "xor",
            OpCode::Cmov(c) | OpCode::Jxx(c) => match c {
                Condition::Always => "ucnd",
                Condition::Le => "lte",
                Condition::Lt => "lt",
                Condition::Eq => "eq",
                Condition::Ne => "neq",
                Condition::Ge => "gte",
                Condition::Gt => "gt",
            },
            _ => "none",
        };
        String::from_str(name)
    }
}

/// The dump of a scratch record after `stage`.
pub open spec fn cycle_state_text(s: CycleState, stage: Stage) -> Seq<char> {
    stage_text(stage) + ":\nicode:ifun = "@ + op_text(s.op) + ":"@ + fun_text(s.op)
        + " rA:rB = "@ + hex_text(s.r_a as nat, 0) + ":"@ + hex_text(s.r_b as nat, 0)
        + "\nvalC = 0x"@ + hex_text((s.val_c as u64) as nat, 16) + " valP = 0x"@ + hex_text(
        (s.val_p as u64) as nat,
        16,
    ) + "\nvalA = 0x"@ + hex_text((s.val_a as u64) as nat, 16) + " valB = 0x"@ + hex_text(
        (s.val_b as u64) as nat,
        16,
    ) + "\nvalE = 0x"@ + hex_text((s.val_e as u64) as nat, 16) + " valM = 0x"@ + hex_text(
        (s.val_m as u64) as nat,
        16,
    ) + "\nCnd = "@ + bool_text(s.cnd)
}

impl CycleState {
    /// The dump of the scratch record after `stage`, for stage-by-stage
    /// observation.
    pub fn to_text(&self, stage: Stage) -> (r: String)
        ensures
            r@ == cycle_state_text(*self, stage),
    {
        let mut out = stage.to_text();
        out.append(":\nicode:ifun = ");
        out.append(self.op.to_text().as_str());
        out.append(":");
        out.append(self.op.fun_to_text().as_str());
        out.append(" rA:rB = ");
        push_hex(&mut out, self.r_a as u64, 0);
        out.append(":");
        push_hex(&mut out, self.r_b as u64, 0);
        out.append("\nvalC = 0x");
        push_hex(&mut out, #[verifier::truncate] (self.val_c as u64), 16);
        out.append(" valP = 0x");
        push_hex(&mut out, #[verifier::truncate] (self.val_p as u64), 16);
        out.append("\nvalA = 0x");
        push_hex(&mut out, #[verifier::truncate] (self.val_a as u64), 16);
        out.append(" valB = 0x");
        push_hex(&mut out, #[verifier::truncate] (self.val_b as u64), 16);
        out.append("\nvalE = 0x");
        push_hex(&mut out, #[verifier::truncate] (self.val_e as u64), 16);
        out.append(" valM = 0x");
        push_hex(&mut out, #[verifier::truncate] (self.val_m as u64), 16);
        out.append("\nCnd = ");
        push_bool(&mut out, self.cnd);
        out
    }
}

} // verus!
