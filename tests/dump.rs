use y86_rs::{AluOp, Condition, CycleState, Flags, Machine, OpCode, Stage, Status, StepMode};

#[test]
fn memory_dump_lists_nonzero_words() {
    let mut m = Machine::new(32, StepMode::NoStep);
    assert_eq!(m.load("0x008: 0102030405060708 |\n0x01f: ff |\n".to_string()), Ok(()));
    assert_eq!(m.format_mem(), "0x0008: 0102030405060708\n0x0018: 00000000000000ff\n");
    assert_eq!(Machine::new(16, StepMode::NoStep).format_mem(), "");
}

#[test]
fn memory_dump_pads_wide_addresses() {
    let mut m = Machine::new(0x10010, StepMode::NoStep);
    assert_eq!(m.load("0x10008: 0a |\n".to_string()), Ok(()));
    assert_eq!(m.format_mem(), "0x10008: 0a00000000000000\n");
}

#[test]
fn register_dump_lists_nonzero_registers() {
    // irmovq $10, %rax; irmovq $-1, %rsp; halt
    let mut m = Machine::new(64, StepMode::NoStep);
    let text = "0x000: 30f00a00000000000000 |\n0x00a: 30f4ffffffffffffffff |\n0x014: 00 |\n";
    assert_eq!(m.load(text.to_string()), Ok(()));
    assert_eq!(m.format_regs(), "");
    assert_eq!(m.run(10), Ok(()));
    assert_eq!(m.format_regs(), "%rax: 0x000000000000000a\n%rsp: 0xffffffffffffffff\n");
}

#[test]
fn state_dump() {
    let mut m = Machine::new(16, StepMode::NoStep);
    assert_eq!(m.load("0x000: 6300 |\n".to_string()), Ok(()));
    assert_eq!(m.step(), Ok(()));
    assert_eq!(m.step(), Ok(()));
    assert_eq!(m.status(), Status::Halted);
    assert_eq!(
        m.to_text(),
        "\nCycle Count: 2\n\n0x0000: 6300000000000000\n\n\nSF: 0\tZF: 1\tOF: 0\nSTAT: HLT\nPC: 0x0003\n"
    );
}

#[test]
fn names_of_stages_statuses_and_opcodes() {
    assert_eq!(Stage::Fetch.to_text(), "Fetch");
    assert_eq!(Stage::PcUpdate.to_text(), "PC Update");
    assert_eq!(Status::Running.to_text(), "STAT: AOK");
    assert_eq!(Status::Errored.to_text(), "STAT: ERR");
    assert_eq!(Flags { sign: true, zero: false, overflow: true }.to_text(), "SF: 1\tZF: 0\tOF: 1");
    assert_eq!(OpCode::Jxx(Condition::Ge).to_text(), "jmp");
    assert_eq!(OpCode::Jxx(Condition::Ge).fun_to_text(), "gte");
    assert_eq!(OpCode::Opx(AluOp::Xor).fun_to_text(), "xor");
    assert_eq!(OpCode::Push.fun_to_text(), "none");
}

#[test]
fn scratch_record_dump() {
    let s = CycleState {
        op: OpCode::Opx(AluOp::Sub),
        r_a: 10,
        r_b: 3,
        val_c: 0,
        val_p: 0x1c,
        val_a: -1,
        val_b: 2,
        val_e: 3,
        val_m: 0,
        cnd: false,
    };
    assert_eq!(
        s.to_text(Stage::Execute),
        "Execute:\nicode:ifun = op:sub rA:rB = a:3\nvalC = 0x0000000000000000 valP = 0x000000000000001c\nvalA = 0xffffffffffffffff valB = 0x0000000000000002\nvalE = 0x0000000000000003 valM = 0x0000000000000000\nCnd = false"
    );
}

#[test]
fn stages_one_by_one() {
    // irmovq $0x20, %rsp; pushq %rsp
    let mut m = Machine::new(64, StepMode::Stage);
    assert_eq!(m.load("0x000: 30f42000000000000000 |\n0x00a: a04f |\n".to_string()), Ok(()));
    assert_eq!(m.step(), Ok(()));
    let mut s = m.fetch().unwrap();
    assert_eq!(s.op, OpCode::Push);
    assert_eq!((s.r_a, s.r_b, s.val_p), (4, 15, 12));
    assert_eq!(m.decode(&mut s), Ok(()));
    assert_eq!((s.val_a, s.val_b), (0x20, 0x20));
    assert_eq!(m.execute(&mut s), Ok(()));
    assert_eq!(s.val_e, 0x18);
    assert_eq!(m.memory(&mut s), Ok(()));
    assert_eq!(m.get_mem_word(0x18), Ok(0x20));
    assert_eq!(m.writeback(&s), Ok(()));
    assert_eq!(m.register(4), Some(0x18));
    m.pc_update(&s);
    assert_eq!(m.pc(), 12);
    assert!(m.cond(Condition::Always));
}

#[test]
fn traced_step_reports_each_completed_stage() {
    let mut m = Machine::new(64, StepMode::Stage);
    assert_eq!(m.load("0x000: 30f30700000000000000 |\n0x00a: 60f3 |\n".to_string()), Ok(()));
    let (r, trace) = m.step_traced();
    assert_eq!(r, Ok(()));
    let stages: Vec<Stage> = trace.iter().map(|t| t.0).collect();
    assert_eq!(
        stages,
        vec![Stage::Fetch, Stage::Decode, Stage::Execute, Stage::Memory, Stage::Writeback, Stage::PcUpdate]
    );
    assert_eq!(trace[0].1.val_c, 7);
    assert_eq!(trace[0].1.val_e, 0);
    assert_eq!(trace[2].1.val_e, 7);
    assert_eq!(m.register(3), Some(7));
    assert_eq!(m.cycle(), 1);
    // addq with rA = f: fetch completes, the operand read faults
    let (r, trace) = m.step_traced();
    assert_eq!(r, Err(y86_rs::SimError::AddressOutOfBounds));
    assert_eq!(trace.len(), 1);
    assert_eq!(trace[0].0, Stage::Fetch);
    assert_eq!(m.status(), Status::Errored);
    let (r, trace) = m.step_traced();
    assert_eq!(r, Ok(()));
    assert!(trace.is_empty());
}

fn scratch(op: OpCode, val_a: i64, val_b: i64, val_c: i64, val_e: i64) -> CycleState {
    CycleState { op, r_a: 0, r_b: 1, val_c, val_p: 0, val_a, val_b, val_e, val_m: 0, cnd: false }
}

#[test]
fn memory_stage_addresses_val_e() {
    let mut m = Machine::new(16, StepMode::NoStep);
    // store at val_e = 0 although val_b + val_c is far away
    let mut s = scratch(OpCode::Rmmov, 0x1122, 100, 0, 0);
    assert_eq!(m.memory(&mut s), Ok(()));
    assert_eq!(m.get_mem_word(0), Ok(0x1122));
    // load from val_e = 0
    let mut s = scratch(OpCode::Mrmov, 0, 100, 0, 0);
    assert_eq!(m.memory(&mut s), Ok(()));
    assert_eq!(s.val_m, 0x1122);
    // val_e out of bounds faults although val_b + val_c = 0 is inside
    let mut s = scratch(OpCode::Rmmov, 7, 0, 0, -1);
    let before = s;
    assert_eq!(m.memory(&mut s), Err(y86_rs::SimError::AddressOutOfBounds));
    assert_eq!(s, before);
    assert_eq!(m.get_mem_word(0), Ok(0x1122));
    // ret and pop read at val_a
    let mut s = scratch(OpCode::Pop, 0, 0, 0, 8);
    assert_eq!(m.memory(&mut s), Ok(()));
    assert_eq!(s.val_m, 0x1122);
}

#[test]
fn execute_faults_on_overflowing_address() {
    let mut m = Machine::new(16, StepMode::NoStep);
    let mut s = scratch(OpCode::Rmmov, 0, i64::MIN, i64::MIN, 0);
    let before = s;
    assert_eq!(m.execute(&mut s), Err(y86_rs::SimError::AddressOutOfBounds));
    assert_eq!(s, before);
    let mut s = scratch(OpCode::Mrmov, 0, 5, 3, 0);
    assert_eq!(m.execute(&mut s), Ok(()));
    assert_eq!(s.val_e, 8);
}
