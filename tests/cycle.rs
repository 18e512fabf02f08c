use y86_rs::{Flags, Machine, SimError, Stage, Status, StepMode};

const RAX: usize = 0;
const RBX: usize = 3;
const RSP: usize = 4;

fn le(v: i64) -> String {
    let mut s = String::new();
    for b in v.to_le_bytes().iter() {
        s.push_str(&format!("{:02x}", b));
    }
    s
}

fn irmov(v: i64, rb: usize) -> String {
    format!("30f{:x}{}", rb, le(v))
}

/// Loads `code` (hex bytes) at address 0 of a machine with `size` bytes.
fn machine_with(size: usize, code: &str) -> Machine {
    let mut m = Machine::new(size, StepMode::NoStep);
    let listing = format!("0x000: {} | program\n", code);
    assert_eq!(m.load(listing), Ok(()));
    m
}

fn reg(m: &Machine, i: usize) -> i64 {
    m.register(i).unwrap()
}

#[test]
fn new_machine_is_zeroed_and_running() {
    let m = Machine::new(64, StepMode::Cycle);
    assert_eq!(m.status(), Status::Running);
    assert_eq!(m.pc(), 0);
    assert_eq!(m.cycle(), 0);
    assert_eq!(m.step_mode(), StepMode::Cycle);
    assert_eq!(m.mem_size(), 64);
    assert_eq!(m.flags(), Flags { sign: false, zero: false, overflow: false });
    for i in 0..15 {
        assert_eq!(m.register(i), Some(0));
    }
    assert_eq!(m.register(15), None);
    assert_eq!(m.mem_byte(63), Some(0));
    assert_eq!(m.mem_byte(64), None);
}

#[test]
fn immediate_load_then_halt() {
    let code = format!("{}00", irmov(10, RAX));
    let mut m = machine_with(256, &code);
    assert_eq!(m.run(1000), Ok(()));
    assert_eq!(reg(&m, RAX), 10);
    assert_eq!(m.status(), Status::Halted);
    assert_eq!(m.pc(), 11);
    assert_eq!(m.cycle(), 2);
}

#[test]
fn add_overflows_to_minimum_word() {
    // irmovq $MAX, %rax; irmovq $1, %rbx; addq %rbx, %rax; halt
    let code = format!("{}{}603000", irmov(i64::MAX, RAX), irmov(1, RBX));
    let mut m = machine_with(256, &code);
    assert_eq!(m.run(1000), Ok(()));
    assert_eq!(reg(&m, RAX), i64::MIN);
    assert_eq!(m.flags(), Flags { sign: true, zero: false, overflow: true });
    assert_eq!(m.status(), Status::Halted);
}

#[test]
fn sub_sets_zero_and_clears_overflow() {
    // irmovq $7, %rax; irmovq $7, %rbx; subq %rax, %rbx; halt
    let code = format!("{}{}610300", irmov(7, RAX), irmov(7, RBX));
    let mut m = machine_with(256, &code);
    assert_eq!(m.run(1000), Ok(()));
    assert_eq!(reg(&m, RBX), 0);
    assert_eq!(m.flags(), Flags { sign: false, zero: true, overflow: false });
}

#[test]
fn sub_uses_rb_minus_ra() {
    // irmovq $2, %rax; irmovq $5, %rbx; subq %rbx, %rax  => rax = 2 - 5
    let code = format!("{}{}613000", irmov(2, RAX), irmov(5, RBX));
    let mut m = machine_with(256, &code);
    assert_eq!(m.run(1000), Ok(()));
    assert_eq!(reg(&m, RAX), -3);
    assert_eq!(m.flags(), Flags { sign: true, zero: false, overflow: false });
}

#[test]
fn sub_overflow_from_minimum() {
    // irmovq $MIN, %rax; irmovq $1, %rbx; subq %rbx, %rax
    let code = format!("{}{}613000", irmov(i64::MIN, RAX), irmov(1, RBX));
    let mut m = machine_with(256, &code);
    assert_eq!(m.run(1000), Ok(()));
    assert_eq!(reg(&m, RAX), i64::MAX);
    assert_eq!(m.flags(), Flags { sign: false, zero: false, overflow: true });
}

#[test]
fn and_and_xor_clear_overflow() {
    // overflow first, then andq %rbx, %rax (rax = MIN & 1 = 0)
    let code = format!("{}{}6030623000", irmov(i64::MAX, RAX), irmov(1, RBX));
    let mut m = machine_with(256, &code);
    assert_eq!(m.run(1000), Ok(()));
    assert_eq!(reg(&m, RAX), 0);
    assert_eq!(m.flags(), Flags { sign: false, zero: true, overflow: false });

    // xorq %rbx, %rax with rax = -1, rbx = 1: -2
    let code = format!("{}{}633000", irmov(-1, RAX), irmov(1, RBX));
    let mut m = machine_with(256, &code);
    assert_eq!(m.run(1000), Ok(()));
    assert_eq!(reg(&m, RAX), -2);
    assert_eq!(m.flags(), Flags { sign: true, zero: false, overflow: false });
}

#[test]
fn push_then_pop_restores_register_and_stack_pointer() {
    // irmovq $0x100, %rsp; irmovq $V, %rbx; pushq %rbx; popq %rbx; halt
    let v: i64 = -1234567890123;
    let code = format!("{}{}a03fb03f00", irmov(0x100, RSP), irmov(v, RBX));
    let mut m = machine_with(512, &code);
    assert_eq!(m.step(), Ok(()));
    assert_eq!(m.step(), Ok(()));
    assert_eq!(m.step(), Ok(()));
    assert_eq!(reg(&m, RSP), 0xf8);
    assert_eq!(m.get_mem_word(0xf8), Ok(v));
    assert_eq!(m.step(), Ok(()));
    assert_eq!(reg(&m, RBX), v);
    assert_eq!(reg(&m, RSP), 0x100);
    assert_eq!(m.run(10), Ok(()));
    assert_eq!(m.status(), Status::Halted);
}

#[test]
fn pop_writes_the_loaded_word() {
    // push %rbx (7), set rbx to 9, pop %rbx: rbx == 7
    let code = format!("{}{}a03f{}b03f00", irmov(0x100, RSP), irmov(7, RBX), irmov(9, RBX));
    let mut m = machine_with(512, &code);
    assert_eq!(m.run(100), Ok(()));
    assert_eq!(reg(&m, RBX), 7);
    assert_eq!(reg(&m, RSP), 0x100);
}

#[test]
fn call_then_return() {
    // 0x00: irmovq $0x100, %rsp; 0x0a: call 0x20; 0x13: halt; 0x20: ret
    let mut m = Machine::new(512, StepMode::NoStep);
    let listing = format!(
        "0x000: {} | irmovq\n0x00a: 802000000000000000 | call\n0x013: 00 | halt\n0x020: 90 | ret\n",
        irmov(0x100, RSP)
    );
    assert_eq!(m.load(listing), Ok(()));
    assert_eq!(m.step(), Ok(()));
    assert_eq!(m.step(), Ok(()));
    assert_eq!(m.pc(), 0x20);
    assert_eq!(reg(&m, RSP), 0xf8);
    assert_eq!(m.get_mem_word(0xf8), Ok(0x13));
    assert_eq!(m.step(), Ok(()));
    assert_eq!(m.pc(), 0x13);
    assert_eq!(reg(&m, RSP), 0x100);
    assert_eq!(m.run(10), Ok(()));
    assert_eq!(m.status(), Status::Halted);
    assert_eq!(m.pc(), 0x14);
}

#[test]
fn halted_machine_ignores_further_steps() {
    let code = format!("{}00", irmov(10, RAX));
    let mut m = machine_with(64, &code);
    assert_eq!(m.run(100), Ok(()));
    assert_eq!(m.status(), Status::Halted);
    let pc = m.pc();
    let cycle = m.cycle();
    for _ in 0..3 {
        assert_eq!(m.step(), Ok(()));
    }
    assert_eq!(m.run(100), Ok(()));
    assert_eq!(m.status(), Status::Halted);
    assert_eq!(m.pc(), pc);
    assert_eq!(m.cycle(), cycle);
    assert_eq!(reg(&m, RAX), 10);
}

#[test]
fn pc_past_memory_faults() {
    // nop fills memory; the next fetch lies past the end
    let mut m = machine_with(2, "1010");
    assert_eq!(m.step(), Ok(()));
    assert_eq!(m.step(), Ok(()));
    assert_eq!(m.pc(), 2);
    assert_eq!(m.step(), Err(SimError::AddressOutOfBounds));
    assert_eq!(m.status(), Status::Errored);
    assert_eq!(m.pc(), 2);
    assert_eq!(m.cycle(), 2);
    // an errored machine stays put
    assert_eq!(m.step(), Ok(()));
    assert_eq!(m.status(), Status::Errored);
}

#[test]
fn truncated_instruction_faults() {
    // irmovq needs ten bytes; memory holds eight
    let mut m = machine_with(8, "30f0");
    assert_eq!(m.run(5), Err(SimError::AddressOutOfBounds));
    assert_eq!(m.status(), Status::Errored);
    assert_eq!(m.pc(), 0);
}

#[test]
fn store_past_memory_faults_without_change() {
    // irmovq $5, %rax; rmmovq %rax, 0x40(%rax): address 0x45 + 8 > 0x48
    let code = format!("{}4000{}", irmov(5, RAX), le(0x40));
    let mut m = machine_with(0x48, &code);
    assert_eq!(m.step(), Ok(()));
    assert_eq!(m.step(), Err(SimError::AddressOutOfBounds));
    assert_eq!(m.pc(), 10);
    assert_eq!(reg(&m, RAX), 5);
    for i in 0x20..0x48 {
        assert_eq!(m.mem_byte(i), Some(0));
    }
}

#[test]
fn negative_address_faults() {
    // irmovq $-8, %rax; mrmovq 0(%rax), %rbx
    let code = format!("{}5030{}", irmov(-8, RAX), le(0));
    let mut m = machine_with(64, &code);
    assert_eq!(m.run(5), Err(SimError::AddressOutOfBounds));
    assert_eq!(reg(&m, RBX), 0);
    assert_eq!(m.pc(), 10);
}

#[test]
fn register_fifteen_faults() {
    // addq %r15?, %rax: rA nibble f
    let mut m = machine_with(64, "60f0");
    assert_eq!(m.step(), Err(SimError::AddressOutOfBounds));
    assert_eq!(m.flags(), Flags { sign: false, zero: false, overflow: false });
    // irmovq with rB = f faults at writeback: fetch to memory complete
    let code = format!("30ff{}", le(3));
    let mut m = machine_with(64, &code);
    let (r, trace) = m.step_traced();
    assert_eq!(r, Err(SimError::AddressOutOfBounds));
    let stages: Vec<Stage> = trace.iter().map(|t| t.0).collect();
    assert_eq!(stages, vec![Stage::Fetch, Stage::Decode, Stage::Execute, Stage::Memory]);
    assert_eq!(m.pc(), 0);
    // popq with rA = f faults and leaves the stack pointer alone
    let code = format!("{}b0ff", irmov(0x20, RSP));
    let mut m = machine_with(64, &code);
    assert_eq!(m.step(), Ok(()));
    assert_eq!(m.step(), Err(SimError::AddressOutOfBounds));
    assert_eq!(reg(&m, RSP), 0x20);
}

#[test]
fn unknown_opcode_is_invalid_encoding() {
    let mut m = machine_with(64, "c0");
    assert_eq!(m.step(), Err(SimError::InvalidEncoding));
    assert_eq!(m.status(), Status::Errored);
    let mut m = machine_with(64, "6403");
    assert_eq!(m.step(), Err(SimError::InvalidEncoding));
    let mut m = machine_with(64, "2703");
    assert_eq!(m.step(), Err(SimError::InvalidEncoding));
    let mut m = machine_with(64, "77");
    assert_eq!(m.step(), Err(SimError::InvalidEncoding));
}

#[test]
fn halt_ignores_function_nibble() {
    let mut m = machine_with(64, "05");
    assert_eq!(m.step(), Ok(()));
    assert_eq!(m.status(), Status::Halted);
    assert_eq!(m.pc(), 1);
}

#[test]
fn conditional_move_and_jump_follow_flags() {
    // irmovq $1, %rax; irmovq $2, %rbx; subq %rax, %rbx (1 > 0)
    // cmovle %rax, %rcx (not taken); cmovg %rax, %rdx (taken: `g` tests !(sf^of))
    // jne 0x40 (taken); halt; 0x40: irmovq $9, %rsi; halt
    let code = format!("{}{}6103210126027440{}00", irmov(1, RAX), irmov(2, RBX), "00000000000000");
    let mut m = Machine::new(128, StepMode::NoStep);
    let listing = format!("0x000: {} | main\n0x040: {}00 | target\n", code, irmov(9, 6));
    assert_eq!(m.load(listing), Ok(()));
    assert_eq!(m.run(100), Ok(()));
    assert_eq!(reg(&m, 1), 0);
    assert_eq!(reg(&m, 2), 1);
    assert_eq!(reg(&m, 6), 9);
    assert_eq!(m.pc(), 0x4b);
}

#[test]
fn jump_not_taken_falls_through() {
    // xorq %rax, %rax sets zero; jne 0x30 not taken; irmovq $4, %rbx; halt
    let code = format!("6300743000000000000000{}00", irmov(4, RBX));
    let mut m = machine_with(128, &code);
    assert_eq!(m.run(100), Ok(()));
    assert_eq!(reg(&m, RBX), 4);
}

#[test]
fn memory_round_trip_through_registers() {
    // irmovq $-2, %rax; rmmovq %rax, 0x30(%rcx=0); mrmovq 0x30(%rcx), %rbx
    let code = format!("{}4001{}5031{}00", irmov(-2, RAX), le(0x30), le(0x30));
    let mut m = machine_with(128, &code);
    assert_eq!(m.run(100), Ok(()));
    assert_eq!(reg(&m, RBX), -2);
    assert_eq!(m.get_mem_word(0x30), Ok(-2));
    assert_eq!(m.mem_byte(0x30), Some(0xfe));
    assert_eq!(m.mem_byte(0x37), Some(0xff));
}

#[test]
fn word_access_bounds() {
    let mut m = Machine::new(16, StepMode::NoStep);
    assert_eq!(m.set_mem_word(8, 0x0102030405060708), Ok(()));
    assert_eq!(m.mem_byte(8), Some(0x08));
    assert_eq!(m.mem_byte(15), Some(0x01));
    assert_eq!(m.get_mem_word(8), Ok(0x0102030405060708));
    assert_eq!(m.set_mem_word(9, 1), Err(SimError::AddressOutOfBounds));
    assert_eq!(m.get_mem_word(9), Err(SimError::AddressOutOfBounds));
    assert_eq!(m.get_mem_word(-1), Err(SimError::AddressOutOfBounds));
    assert_eq!(m.get_mem_word(i64::MAX), Err(SimError::AddressOutOfBounds));
}

#[test]
fn run_stops_after_max_cycles() {
    // jmp 0: loops forever
    let mut m = machine_with(64, "700000000000000000");
    assert_eq!(m.run(7), Ok(()));
    assert_eq!(m.status(), Status::Running);
    assert_eq!(m.cycle(), 7);
    assert_eq!(m.pc(), 0);
}

#[test]
fn overflowing_effective_address_faults() {
    // irmovq $MIN, %rax; rmmovq %rax, MIN(%rax): the sum leaves the word
    // range and must not wrap to address 0; the execute stage faults
    let code = format!("{}4000{}", irmov(i64::MIN, RAX), le(i64::MIN));
    let mut m = machine_with(64, &code);
    assert_eq!(m.step(), Ok(()));
    let before: Vec<Option<u8>> = (0..64).map(|i| m.mem_byte(i)).collect();
    assert_eq!(m.step(), Err(SimError::AddressOutOfBounds));
    let after: Vec<Option<u8>> = (0..64).map(|i| m.mem_byte(i)).collect();
    assert_eq!(before, after);
    assert_eq!(m.status(), Status::Errored);
    assert_eq!(m.pc(), 10);

    // irmovq $MAX, %rax; mrmovq 9(%rax), %rbx: wraps to MIN + 8 without the check
    let code = format!("{}5030{}", irmov(i64::MAX, RAX), le(9));
    let mut m = machine_with(64, &code);
    assert_eq!(m.run(5), Err(SimError::AddressOutOfBounds));
    assert_eq!(reg(&m, RBX), 0);
}

#[test]
fn push_pop_halt_runs_three_cycles() {
    let code = format!("{}{}a03fb03f00", irmov(0x100, RSP), irmov(42, RBX));
    let mut m = machine_with(512, &code);
    assert_eq!(m.run(2), Ok(()));
    assert_eq!(m.run(u64::MAX), Ok(()));
    assert_eq!(m.cycle(), 5);
    assert_eq!(m.pc(), 25);
    assert_eq!(reg(&m, RBX), 42);
    assert_eq!(reg(&m, RSP), 0x100);
    assert_eq!(m.status(), Status::Halted);
}
