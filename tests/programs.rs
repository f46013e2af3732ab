use bobs8085::assemble;
use bobs8085::assembler::AssemblerError;
use bobs8085::cpu::Flag;
use bobs8085::Simulator;

fn load(source: &str) -> Simulator {
    let code = assemble(source).expect("program assembles");
    Simulator::from_program(&code).expect("program fits")
}

fn run(sim: &mut Simulator) {
    let mut steps = 0;
    while sim.execute().expect("known opcode") {
        steps += 1;
        assert!(steps < 100_000, "program does not halt");
    }
}

#[test]
fn mvi_adi_hlt_adds() {
    let mut sim = load("MVI A, 0x05\nADI 0x03\nHLT\n");
    run(&mut sim);
    assert_eq!(sim.cpu_get_reg(7), 0x08);
    assert!(!sim.cpu_get_flag(Flag::Zero));
    assert!(!sim.cpu_get_flag(Flag::Carry));
}

#[test]
fn forward_label_is_patched() {
    let code = assemble("JMP target\nNOP\ntarget: HLT\n").unwrap();
    assert_eq!(code, vec![0xC3, 0x04, 0xC0, 0x00, 0x76]);
}

#[test]
fn backward_label_is_patched() {
    let code = assemble("start: NOP\nJMP start\n").unwrap();
    assert_eq!(code, vec![0x00, 0xC3, 0x00, 0xC0]);
}

#[test]
fn undefined_label_fails() {
    match assemble("JMP nowhere\n") {
        Err(AssemblerError::LabelNotDefined(name)) => assert_eq!(name, "nowhere"),
        other => panic!("unexpected result {:?}", other),
    }
}

#[test]
fn forward_jump_runs() {
    let mut sim = load("JMP skip\nMVI A, 0x01\nskip: MVI B, 0x02\nHLT\n");
    run(&mut sim);
    assert_eq!(sim.cpu_get_reg(7), 0x00);
    assert_eq!(sim.cpu_get_reg(0), 0x02);
}

#[test]
fn push_pop_bc_restores() {
    let mut sim = load("LXI SP, 0xC800\nMVI B, 0x12\nMVI C, 0x34\nPUSH B\nMVI B, 0x00\nMVI C, 0x00\nPOP B\nHLT\n");
    run(&mut sim);
    assert_eq!(sim.cpu_get_reg(0), 0x12);
    assert_eq!(sim.cpu_get_reg(1), 0x34);
    assert_eq!(sim.get_sp(), 0xC800);
    assert_eq!(sim.mem_get8(0xC7FF), 0x12);
    assert_eq!(sim.mem_get8(0xC7FE), 0x34);
}

#[test]
fn inr_a_wraps_and_keeps_carry() {
    let mut sim = load("STC\nMVI A, 0xFF\nINR A\nHLT\n");
    run(&mut sim);
    assert_eq!(sim.cpu_get_reg(7), 0x00);
    assert!(sim.cpu_get_flag(Flag::Zero));
    assert!(sim.cpu_get_flag(Flag::Carry));
    assert!(sim.cpu_get_flag(Flag::AuxCarry));
}

#[test]
fn runs_off_the_program_segment() {
    let mut sim = Simulator::new();
    assert_eq!(sim.get_pc(), 0xC000);
    let mut steps = 0;
    while sim.execute().unwrap() {
        steps += 1;
    }
    assert_eq!(steps, 0x1000);
    assert_eq!(sim.get_pc(), 0xD000);
    assert_eq!(sim.execute(), Ok(false));
}

#[test]
fn two_steps_undone() {
    let mut sim = load("MVI A, 0x42\nSTA 0x2000\nOUT 0x10\nHLT\n");
    let (cpu0, mem0, io0) = sim.clone_cpu_bus();
    let before = sim.cpu_regs();
    assert_eq!(sim.execute(), Ok(true));
    let first = sim.get_changes(cpu0, mem0, io0);
    let (cpu1, mem1, io1) = sim.clone_cpu_bus();
    assert_eq!(sim.execute(), Ok(true));
    let second = sim.get_changes(cpu1, mem1, io1);
    assert_eq!(sim.mem_get8(0x2000), 0x42);
    assert_eq!(second.memory, vec![(0x2000, 0x00)]);
    sim.restore(&second);
    sim.restore(&first);
    assert_eq!(sim.cpu_regs(), before);
    assert_eq!(sim.mem_get8(0x2000), 0x00);
}
