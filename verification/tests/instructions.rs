use stackvm::errors::Fault;
use stackvm::machine::{Machine, MachineOptions};

const TERM: u32 = 0xffff_0000;

fn load(code: &[u32]) -> Machine {
    let mut machine =
        Machine::new(MachineOptions { memory_cells: 256, memory_stack_size: 16 }).unwrap();
    machine.load_data(0, code).unwrap();
    machine.set_start(0);
    machine
}

fn run(code: &[u32]) -> Machine {
    let mut machine = load(code);
    machine.execute().unwrap();
    machine
}

fn fails(code: &[u32]) -> (Machine, Fault) {
    let mut machine = load(code);
    let fault = machine.execute().unwrap_err().kind();
    (machine, fault)
}

fn flags(machine: &Machine) -> (bool, bool, bool, bool) {
    (machine.flag.zero, machine.flag.negative, machine.flag.overflow, machine.flag.carry)
}

/// Pushes `second`, then `top`, and runs the operation with header `op`.
fn binary(op: u32, top: u32, second: u32) -> Machine {
    run(&[0xf001_a001, second, 0xf001_a001, top, op, 0xf002_a004, 0, TERM])
}

#[test]
fn add_results_and_flags() {
    let m = run(&[0xf001_a001, 2, 0xf001_a001, 3, 0xf003_0000, TERM]);
    assert_eq!(m.memory.read(255).unwrap(), 5);
    assert_eq!(m.memory.stack_pointer(), 1);
    assert_eq!(flags(&m), (false, false, false, false));
    let m = run(&[0xf001_a001, 1, 0xf001_a001, 0xffff_ffff, 0xf003_0000, TERM]);
    assert_eq!(m.memory.read(255).unwrap(), 0);
    assert_eq!(flags(&m), (true, false, false, true));
    let m = run(&[0xf001_a001, 1, 0xf001_a001, 0x7fff_ffff, 0xf003_0000, TERM]);
    assert_eq!(m.memory.read(255).unwrap(), 0x8000_0000);
    assert_eq!(flags(&m), (false, true, true, false));
    let m = run(&[0xf001_a001, 0x8000_0000, 0xf001_a001, 0x8000_0000, 0xf003_0000, TERM]);
    assert_eq!(m.memory.read(255).unwrap(), 0);
    assert_eq!(flags(&m), (true, false, true, true));
}

#[test]
fn sub_takes_the_second_word_from_the_top_word() {
    let m = binary(0xf004_0000, 20, 10);
    assert_eq!(m.read_register(0).unwrap(), 10);
    let m = run(&[0xf001_a001, 10, 0xf001_a001, 20, 0xf004_0000, TERM]);
    assert_eq!(flags(&m), (false, false, false, true));
    let m = run(&[0xf001_a001, 20, 0xf001_a001, 10, 0xf004_0000, TERM]);
    assert_eq!(m.memory.read(255).unwrap(), 0xffff_fff6);
    assert_eq!(flags(&m), (false, true, false, false));
    let m = run(&[0xf001_a001, 7, 0xf001_a001, 7, 0xf004_0000, TERM]);
    assert_eq!(flags(&m), (true, false, false, true));
    // 0 - (-2^31) does not fit a signed word
    let m = run(&[0xf001_a001, 0x8000_0000, 0xf001_a001, 0, 0xf004_0000, TERM]);
    assert_eq!(m.memory.read(255).unwrap(), 0x8000_0000);
    assert_eq!(flags(&m), (false, true, true, false));
    // -2^31 - 1 does not fit either
    let m = run(&[0xf001_a001, 1, 0xf001_a001, 0x8000_0000, 0xf004_0000, TERM]);
    assert_eq!(m.memory.read(255).unwrap(), 0x7fff_ffff);
    assert_eq!(flags(&m), (false, false, true, true));
}

#[test]
fn mul_results_and_flags() {
    let m = run(&[0xf001_a001, 10, 0xf001_a001, 3, 0xf014_0000, TERM]);
    assert_eq!(m.memory.read(255).unwrap(), 30);
    assert_eq!(flags(&m), (false, false, false, false));
    let m = run(&[0xf001_a001, 0xffff_ffff, 0xf001_a001, 5, 0xf014_0000, TERM]);
    assert_eq!(m.memory.read(255).unwrap(), 0xffff_fffb);
    assert_eq!(flags(&m), (false, true, false, false));
    let m = run(&[0xf001_a001, 0x1_0000, 0xf001_a001, 0x1_0000, 0xf014_0000, TERM]);
    assert_eq!(m.memory.read(255).unwrap(), 0);
    assert_eq!(flags(&m), (true, false, true, false));
    // -2^31 * -1 wraps to -2^31
    let m = run(&[0xf001_a001, 0xffff_ffff, 0xf001_a001, 0x8000_0000, 0xf014_0000, TERM]);
    assert_eq!(m.memory.read(255).unwrap(), 0x8000_0000);
    assert_eq!(flags(&m), (false, true, true, false));
    let m = run(&[0xf001_a001, 0, 0xf001_a001, 0x8000_0000, 0xf014_0000, TERM]);
    assert_eq!(flags(&m), (true, false, false, false));
}

#[test]
fn div_divides_the_top_word_by_the_second() {
    let m = binary(0xf015_0000, 10, 3);
    assert_eq!(m.read_register(0).unwrap(), 3);
    assert_eq!(m.read_register(3).unwrap(), 1);
    let m = run(&[0xf001_a001, 0xffff_ffff, 0xf001_a001, 7, 0xf015_0000, TERM]);
    assert_eq!(m.memory.read(255).unwrap(), 0);
    assert_eq!(m.read_register(3).unwrap(), 7);
    assert_eq!(flags(&m), (true, false, false, false));
    let m = run(&[0xf001_a001, 2, 0xf001_a001, 0xffff_fffe, 0xf015_0000, TERM]);
    assert_eq!(m.memory.read(255).unwrap(), 0x7fff_ffff);
    assert_eq!(flags(&m), (false, false, false, false));
    let (m, fault) = fails(&[0xf001_a001, 0, 0xf001_a001, 7, 0xf015_0000, TERM]);
    assert_eq!(fault, Fault::DivisionByZero);
    assert_eq!(m.memory.stack_pointer(), 0);
    assert_eq!(m.register.pc, 4);
}

#[test]
fn swap_and_bitwise_operations() {
    let m = run(&[0xf001_a001, 1, 0xf001_a001, 2, 0xf005_0000, TERM]);
    assert_eq!(m.memory.read(255).unwrap(), 2);
    assert_eq!(m.memory.read(254).unwrap(), 1);
    assert_eq!(binary(0xf009_0000, 0b1100, 0b1010).read_register(0).unwrap(), 0b1000);
    assert_eq!(binary(0xf00a_0000, 0b1100, 0b1010).read_register(0).unwrap(), 0b1110);
    assert_eq!(binary(0xf00b_0000, 0b1100, 0b1010).read_register(0).unwrap(), 0b0110);
    let m = run(&[0xf001_a001, 0x0f0f_0f0f, 0xf00c_0000, TERM]);
    assert_eq!(m.memory.read(255).unwrap(), 0xf0f0_f0f0);
    // none of them touches the flags
    let m = run(&[
        0xf001_a001, 0, 0xf013_0000, // zero set by DROP
        0xf001_a001, 5, 0xf001_a001, 6, 0xf009_0000, 0xf00c_0000, TERM,
    ]);
    assert_eq!(flags(&m), (true, false, false, false));
}

#[test]
fn shifts() {
    let m = run(&[0xf001_a001, 0x8000_0001, 0xf00d_a011, 4, TERM]);
    assert_eq!(m.memory.read(255).unwrap(), 0x0800_0000);
    let m = run(&[0xf001_a001, 0x8000_0001, 0xf00e_a013, 4, TERM]);
    assert_eq!(m.memory.read(255).unwrap(), 0x10);
    let m = run(&[0xf006_a006, 2, 31, 0xf001_a001, 0x8000_0001, 0xf00d_a012, 2, TERM]);
    assert_eq!(m.memory.read(255).unwrap(), 1);
    let m = run(&[0xf006_a006, 2, 31, 0xf001_a001, 0x8000_0001, 0xf00e_a014, 2, TERM]);
    assert_eq!(m.memory.read(255).unwrap(), 0x8000_0000);
    let m = run(&[0xf001_a001, 0xffff_ffff, 0xf00d_a011, 32, TERM]);
    assert_eq!(m.memory.read(255).unwrap(), 0);
    let m = run(&[0xf001_a001, 0xffff_ffff, 0xf00e_a013, 0xffff_ffff, TERM]);
    assert_eq!(m.memory.read(255).unwrap(), 0);
    let m = run(&[0xf001_a001, 0xffff_ffff, 0xf00d_a011, 0, TERM]);
    assert_eq!(m.memory.read(255).unwrap(), 0xffff_ffff);
    assert_eq!(fails(&[0xf00d_a011, 1, TERM]).1, Fault::EmptyContainer);
    assert_eq!(fails(&[0xf001_a001, 1, 0xf00d_a012, 8, TERM]).1, Fault::InvalidRegister);
}

#[test]
fn push_variants() {
    let m = run(&[0xf006_a006, 5, 77, 0xf001_a002, 5, TERM]);
    assert_eq!(m.memory.read(255).unwrap(), 77);
    let m = run(&[0xf001_a003, 4, TERM, 0, 1234]);
    assert_eq!(m.memory.read(255).unwrap(), 1234);
    let m = run(&[0xf001_a01d, 3, 2, TERM, 0, 4321]);
    assert_eq!(m.memory.read(255).unwrap(), 4321);
    let m = run(&[0xf006_a006, 1, 3, 0xf001_a01e, 4, 1, TERM, 99]);
    assert_eq!(m.memory.read(255).unwrap(), 99);
    // the program counter is read where it stands: at the operand
    let m = run(&[0xf001_a002, 100, TERM]);
    assert_eq!(m.memory.read(255).unwrap(), 1);
    assert_eq!(fails(&[0xf001_a002, 8, TERM]).1, Fault::InvalidRegister);
    assert_eq!(fails(&[0xf001_a003, 256, TERM]).1, Fault::InvalidAddress);
    assert_eq!(fails(&[0xf001_a01d, 0xffff_ffff, 2, TERM]).1, Fault::InvalidAddress);
    assert_eq!(fails(&[0xf001_a01e, 0, 9, TERM]).1, Fault::InvalidRegister);
}

#[test]
fn pop_and_drop_set_zero_and_negative() {
    let m = run(&[0xf001_a001, 0x8000_0000, 0xf002_a004, 6, TERM]);
    assert_eq!(m.read_register(6).unwrap(), 0x8000_0000);
    assert_eq!(flags(&m), (false, true, false, false));
    let m = run(&[0xf001_a001, 0, 0xf002_a005, 100, TERM]);
    assert_eq!(m.memory.read(100).unwrap(), 0);
    assert_eq!(flags(&m), (true, false, false, false));
    let m = run(&[0xf001_a001, 9, 0xf013_0000, TERM]);
    assert_eq!(m.memory.stack_pointer(), 0);
    assert_eq!(flags(&m), (false, false, false, false));
    // the word is gone and the flags are set when the target is refused
    let (m, fault) = fails(&[0xf001_a001, 0, 0xf002_a004, 50, TERM]);
    assert_eq!(fault, Fault::InvalidRegister);
    assert_eq!(m.memory.stack_pointer(), 0);
    assert!(m.flag.zero);
    let (m, fault) = fails(&[0xf001_a001, 0, 0xf002_a005, 240, TERM]);
    assert_eq!(fault, Fault::InvalidAddress);
    assert_eq!(m.memory.stack_pointer(), 0);
    assert_eq!(fails(&[0xf013_0000, TERM]).1, Fault::EmptyContainer);
    assert_eq!(fails(&[0xf002_a004, 0, TERM]).1, Fault::EmptyContainer);
}

#[test]
fn dup_variants() {
    let m = run(&[0xf001_a001, 0, 0xf011_0000, TERM]);
    assert_eq!(m.memory.stack_pointer(), 2);
    assert_eq!(m.memory.read(254).unwrap(), 0);
    assert!(m.flag.zero);
    let m = run(&[0xf001_a001, 8, 0xf011_a018, 3, TERM]);
    assert_eq!(m.memory.stack_pointer(), 4);
    for a in 252..256 {
        assert_eq!(m.memory.read(a).unwrap(), 8);
    }
    let m = run(&[0xf001_a001, 8, 0xf011_a018, 0, TERM]);
    assert_eq!(m.memory.stack_pointer(), 1);
    let m = run(&[0xf011_a018, 0, TERM]);
    assert_eq!(m.memory.stack_pointer(), 0);
    let m = run(&[0xf006_a006, 4, 2, 0xf001_a001, 8, 0xf011_a019, 4, TERM]);
    assert_eq!(m.memory.stack_pointer(), 3);
    assert_eq!(fails(&[0xf011_0000, TERM]).1, Fault::EmptyContainer);
    let (m, fault) = fails(&[0xf001_a001, 8, 0xf011_a018, 16, TERM]);
    assert_eq!(fault, Fault::StackOverflow);
    assert_eq!(m.memory.stack_pointer(), 16);
    assert_eq!(fails(&[0xf001_a001, 8, 0xf011_a019, 9, TERM]).1, Fault::InvalidRegister);
}

#[test]
fn move_and_store_variants() {
    let m = run(&[0xf006_a006, 1, 5, 0xf006_a007, 2, 1, TERM]);
    assert_eq!(m.read_register(2).unwrap(), 5);
    let m = run(&[0xf006_a008, 3, 4, TERM, 66]);
    assert_eq!(m.read_register(3).unwrap(), 66);
    let m = run(&[0xf006_a006, 1, 7, 0xf006_a01a, 3, 1, TERM, 67]);
    assert_eq!(m.read_register(3).unwrap(), 67);
    let m = run(&[0xf006_a01b, 3, 2, 3, TERM, 68]);
    assert_eq!(m.read_register(3).unwrap(), 68);
    let m = run(&[0xf006_a006, 1, 4, 0xf006_a01c, 3, 4, 1, TERM, 69]);
    assert_eq!(m.read_register(3).unwrap(), 69);
    let m = run(&[0xf007_a009, 50, 9, 0xf006_a006, 1, 10, 0xf007_a00a, 51, 1, TERM]);
    assert_eq!(m.memory.read(50).unwrap(), 9);
    assert_eq!(m.memory.read(51).unwrap(), 10);
    assert_eq!(fails(&[0xf006_a006, 8, 5, TERM]).1, Fault::InvalidRegister);
    assert_eq!(fails(&[0xf006_a007, 1, 8, TERM]).1, Fault::InvalidRegister);
    assert_eq!(fails(&[0xf006_a008, 1, 256, TERM]).1, Fault::InvalidAddress);
    assert_eq!(fails(&[0xf006_a01b, 1, 0xffff_ffff, 1, TERM]).1, Fault::InvalidAddress);
    assert_eq!(fails(&[0xf007_a009, 240, 1, TERM]).1, Fault::InvalidAddress);
    assert_eq!(fails(&[0xf007_a00a, 1, 8, TERM]).1, Fault::InvalidRegister);
    // a move to the program counter is followed by the usual step past the instruction
    let m = run(&[0xf006_a006, 100, 5, 0, 0, 0, TERM]);
    assert_eq!(m.register.pc, 6);
}

/// Runs a jump of the given variant to a word that sets r0 to 1 under
/// flags left by comparing `top` with `second` (SUB then DROP).
fn jumps(variant: u32, top: u32, second: u32) -> bool {
    let m = run(&[
        0xf001_a001, second, 0xf001_a001, top, 0xf004_0000, 0xf013_0000,
        0xf008_0000 | variant, 9, TERM,
        0xf006_a006, 0, 1, TERM,
    ]);
    m.read_register(0).unwrap() == 1
}

#[test]
fn conditional_jumps() {
    let (jnz, jz, jg, jge, jl, jle) = (0xa00b, 0xa00c, 0xa00d, 0xa00e, 0xa00f, 0xa010);
    assert!(jumps(0, 1, 2));
    // top > second
    assert!(jumps(jnz, 20, 10) && !jumps(jz, 20, 10));
    assert!(jumps(jg, 20, 10) && jumps(jge, 20, 10));
    assert!(!jumps(jl, 20, 10) && !jumps(jle, 20, 10));
    // top == second
    assert!(!jumps(jnz, 7, 7) && jumps(jz, 7, 7));
    assert!(!jumps(jg, 7, 7) && jumps(jge, 7, 7));
    assert!(!jumps(jl, 7, 7) && jumps(jle, 7, 7));
    // top < second
    assert!(jumps(jnz, 10, 20) && !jumps(jz, 10, 20));
    assert!(!jumps(jg, 10, 20) && !jumps(jge, 10, 20));
    assert!(jumps(jl, 10, 20) && jumps(jle, 10, 20));
}

#[test]
fn a_jump_not_taken_moves_past_its_operand() {
    let mut m = load(&[0xf001_a001, 1, 0xf013_0000, 0xf008_a00c, 50, TERM]);
    assert!(!m.execute_next().unwrap());
    assert!(!m.execute_next().unwrap());
    assert!(!m.execute_next().unwrap());
    assert_eq!(m.register.pc, 5);
    assert!(m.execute_next().unwrap());
    assert_eq!(m.register.pc, 5);
}

#[test]
fn inc_and_dec() {
    let m = run(&[0xf006_a006, 1, 41, 0xf016_0000, 1, TERM]);
    assert_eq!(m.read_register(1).unwrap(), 42);
    assert_eq!(flags(&m), (false, false, false, false));
    let m = run(&[0xf006_a006, 1, 0xffff_ffff, 0xf016_0000, 1, TERM]);
    assert_eq!(m.read_register(1).unwrap(), 0);
    assert_eq!(flags(&m), (true, false, false, true));
    let m = run(&[0xf006_a006, 1, 0x7fff_ffff, 0xf016_0000, 1, TERM]);
    assert_eq!(m.read_register(1).unwrap(), 0x8000_0000);
    assert_eq!(flags(&m), (false, true, true, false));
    let m = run(&[0xf017_0000, 1, TERM]);
    assert_eq!(m.read_register(1).unwrap(), 0xffff_ffff);
    assert_eq!(flags(&m), (false, true, false, false));
    let m = run(&[0xf006_a006, 1, 1, 0xf017_0000, 1, TERM]);
    assert_eq!(m.read_register(1).unwrap(), 0);
    assert_eq!(flags(&m), (true, false, false, true));
    let m = run(&[0xf006_a006, 1, 0x8000_0000, 0xf017_0000, 1, TERM]);
    assert_eq!(m.read_register(1).unwrap(), 0x7fff_ffff);
    assert_eq!(flags(&m), (false, false, true, true));
    assert_eq!(fails(&[0xf016_0000, 8, TERM]).1, Fault::InvalidRegister);
    assert_eq!(fails(&[0xf017_0000, 99, TERM]).1, Fault::InvalidRegister);
}

#[test]
fn call_and_ret() {
    // CALL 4 / TERM at 2 / procedure at 4
    let mut m = load(&[0xf00f_a015, 4, TERM, 0, 0xf006_a006, 0, 9, 0xf010_0000]);
    assert!(!m.execute_next().unwrap());
    assert_eq!(m.register.pc, 4);
    assert_eq!(m.call_depth(), 1);
    assert!(!m.execute_next().unwrap());
    assert!(!m.execute_next().unwrap());
    assert_eq!(m.call_depth(), 0);
    assert_eq!(m.register.pc, 2);
    assert!(m.execute_next().unwrap());
    let m = run(&[0xf006_a006, 1, 6, 0xf00f_a016, 1, TERM, 0xf006_a006, 0, 9, 0xf010_0000]);
    assert_eq!(m.read_register(0).unwrap(), 9);
    // CALL &9: cell 9 holds 10, cell 10 holds the target 4
    let m = run(&[0xf00f_a017, 9, TERM, 0, 0xf006_a006, 0, 9, 0xf010_0000, 0, 10, 4]);
    assert_eq!(m.read_register(0).unwrap(), 9);
    assert_eq!(fails(&[0xf010_0000]).1, Fault::InvalidReturn);
    assert_eq!(fails(&[0xf00f_a016, 8]).1, Fault::InvalidRegister);
    assert_eq!(fails(&[0xf00f_a017, 256]).1, Fault::InvalidAddress);
    assert_eq!(fails(&[0xf00f_a017, 2, 256]).1, Fault::InvalidAddress);
}

#[test]
fn safecall_saves_and_ret_restores() {
    let code = [
        0xf006_a006, 0, 1, 0xf006_a006, 7, 8, // r0 = 1, r7 = 8
        0xf001_a001, 0, 0xf013_0000, // zero flag set
        0xf018_a01f, 14, // SAFECALL 14
        TERM, 0, 0,
        0xf006_a006, 0, 50, 0xf006_a006, 7, 57, // at 14: clobber
        0xf001_a001, 0x8000_0000, 0xf013_0000, // negative set, zero clear
        0xf010_0000, // RET
    ];
    let mut m = load(&code);
    for _ in 0..5 {
        assert!(!m.execute_next().unwrap());
    }
    assert_eq!(m.register.pc, 14);
    assert_eq!(m.call_depth(), 14);
    for _ in 0..4 {
        assert!(!m.execute_next().unwrap());
    }
    assert_eq!(m.read_register(0).unwrap(), 50);
    assert_eq!(flags(&m), (false, true, false, false));
    assert!(!m.execute_next().unwrap());
    assert_eq!(m.call_depth(), 0);
    assert_eq!(m.register.pc, 11);
    assert_eq!(m.read_register(0).unwrap(), 1);
    assert_eq!(m.read_register(7).unwrap(), 8);
    assert_eq!(flags(&m), (true, false, false, false));
    assert!(m.execute_next().unwrap());
    let m = run(&[0xf006_a006, 1, 6, 0xf018_a020, 1, TERM, 0xf016_0000, 1, 0xf010_0000]);
    assert_eq!(m.read_register(1).unwrap(), 6);
    let m = run(&[0xf018_a021, 9, TERM, 0, 0xf016_0000, 1, 0xf010_0000, 0, 0, 10, 4]);
    assert_eq!(m.read_register(1).unwrap(), 0);
}

#[test]
fn decoding_errors() {
    assert_eq!(fails(&[0x1234_0000]).1, Fault::InvalidOpcode);
    assert_eq!(fails(&[0xf001_0001]).1, Fault::InvalidOpcode);
    // both halves are known but do not fit together
    assert_eq!(fails(&[0xf003_a001]).1, Fault::InvalidOpcode);
    assert_eq!(fails(&[0xffff_a001]).1, Fault::InvalidOpcode);
    assert_eq!(fails(&[0xf018_a015, 0]).1, Fault::InvalidOpcode);
    let mut m = load(&[TERM]);
    m.set_start(256);
    assert_eq!(m.execute().unwrap_err().kind(), Fault::InvalidAddress);
    // an operand word past the end of memory
    let mut m = Machine::new(MachineOptions { memory_cells: 4, memory_stack_size: 1 }).unwrap();
    m.load_data(2, &[0xf006_a006]).unwrap();
    m.set_start(2);
    assert_eq!(m.execute_next().unwrap_err().kind(), Fault::InvalidAddress);
    assert_eq!(m.register.pc, 4);
}

#[test]
fn terminate_leaves_the_machine_as_it_is() {
    let mut m = load(&[TERM]);
    m.register.r5 = 5;
    assert!(m.execute_next().unwrap());
    assert_eq!(m.register.pc, 0);
    assert_eq!(m.register.r5, 5);
    assert!(m.execute().is_ok());
}

#[test]
fn stack_overflow_from_push() {
    let mut code = Vec::new();
    for v in 0..17 {
        code.push(0xf001_a001);
        code.push(v);
    }
    code.push(TERM);
    let (m, fault) = fails(&code);
    assert_eq!(fault, Fault::StackOverflow);
    assert_eq!(m.memory.stack_pointer(), 16);
    assert_eq!(m.register.pc, 33);
}

#[test]
fn interrupts() {
    let m = run(&[0xf001_a001, 65, 0xf012_0000, 0, 0, TERM]);
    assert_eq!(m.output, "A");
    let m = run(&[0xf001_a001, 0xd800, 0xf012_0000, 0, 0, 0xf001_a001, 0x11_0000, 0xf012_0000, 0, 0, TERM]);
    assert_eq!(m.output, "\u{2610}\u{2610}");
    let m = run(&[0xf001_a001, 99, 0xf001_a001, 98, 0xf001_a001, 97, 0xf001_a001, 2, 0xf012_0000, 0, 1, TERM]);
    assert_eq!(m.output, "ab");
    assert_eq!(m.memory.stack_pointer(), 1);
    let m = run(&[0xf001_a001, 0, 0xf012_0000, 0, 1, TERM]);
    assert_eq!(m.output, "");
    let m = run(&[0xf001_a001, 33, 0xf001_a001, 98, 0xf001_a001, 97, 0xf001_a001, 33, 0xf012_0000, 0, 2, TERM]);
    assert_eq!(m.output, "ab!");
    let m = run(&[0xf001_a001, 7, 0xf012_0000, 0, 3, TERM, 0, 72, 105, 0, 33]);
    assert_eq!(m.output, "Hi");
    for (value, text) in [(0u32, "0"), (7, "7"), (10, "10"), (1998, "1998"), (4294967295, "4294967295")] {
        let m = run(&[0xf001_a001, value, 0xf012_0000, 0, 4, TERM]);
        assert_eq!(m.output, text);
    }
    assert_eq!(fails(&[0xf012_0000, 1, 0, TERM]).1, Fault::InvalidModule);
    assert_eq!(fails(&[0xf012_0000, 0, 5, TERM]).1, Fault::InvalidFunction);
    assert_eq!(fails(&[0xf012_0000, 0, 0, TERM]).1, Fault::EmptyContainer);
    let (m, fault) = fails(&[0xf001_a001, 97, 0xf001_a001, 3, 0xf012_0000, 0, 1, TERM]);
    assert_eq!(fault, Fault::EmptyContainer);
    assert_eq!(m.output, "a");
    let (m, fault) = fails(&[0xf001_a001, 97, 0xf001_a001, 33, 0xf012_0000, 0, 2, TERM]);
    assert_eq!(fault, Fault::EmptyContainer);
    assert_eq!(m.output, "a");
    // a string that runs into the end of memory
    let mut m = Machine::new(MachineOptions { memory_cells: 8, memory_stack_size: 1 }).unwrap();
    m.load_data(0, &[0xf001_a001, 5, 0xf012_0000, 0, 3, 1, 1]).unwrap();
    assert_eq!(m.execute().unwrap_err().kind(), Fault::InvalidAddress);
}

#[test]
fn reading_registers_through_the_machine() {
    let m = run(&[0xf006_a006, 3, 12, TERM]);
    assert_eq!(m.read_register(3).unwrap(), 12);
    assert_eq!(m.read_register(100).unwrap(), 3);
    assert_eq!(m.read_register(8).unwrap_err().kind(), Fault::InvalidRegister);
}

#[test]
fn new_machine_and_loading() {
    let m = Machine::new(MachineOptions { memory_cells: 10, memory_stack_size: 5 }).unwrap();
    assert_eq!(m.register.pc, 0);
    assert_eq!(flags(&m), (false, false, false, false));
    assert_eq!(m.call_depth(), 0);
    assert_eq!(m.output, "");
    assert_eq!(
        Machine::new(MachineOptions { memory_cells: 5, memory_stack_size: 5 }).unwrap_err().kind(),
        Fault::InvalidSize
    );
    let mut m = Machine::new(MachineOptions { memory_cells: 10, memory_stack_size: 5 }).unwrap();
    assert_eq!(m.load_data(2, &[1, 2, 3, 4]).unwrap_err().kind(), Fault::InvalidAddress);
    m.load_data(1, &[1, 2, 3, 4]).unwrap();
    assert_eq!(m.memory.read(4).unwrap(), 4);
}

#[test]
fn a_run_stops_at_its_step_limit() {
    // JMP 0 goes round for ever
    let mut m = load(&[0xf008_0000, 0]);
    assert_eq!(m.execute_within(1000).unwrap_err().kind(), Fault::StepLimit);
    assert_eq!(m.register.pc, 0);
    // three pushes and the halt take four steps
    let code = [0xf001_a001, 1, 0xf001_a001, 2, 0xf001_a001, 3, TERM];
    let mut m = load(&code);
    assert_eq!(m.execute_within(3).unwrap_err().kind(), Fault::StepLimit);
    assert_eq!(m.memory.stack_pointer(), 3);
    assert_eq!(m.register.pc, 6);
    let mut m = load(&code);
    assert!(m.execute_within(4).is_ok());
    let mut m = load(&code);
    assert_eq!(m.execute_within(0).unwrap_err().kind(), Fault::StepLimit);
    assert_eq!(m.register.pc, 0);
}
