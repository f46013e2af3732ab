use bobs8085::assemble;
use bobs8085::cpu::semantics::ExecError;
use bobs8085::cpu::Flag;
use bobs8085::Simulator;

fn run_source(source: &str) -> Simulator {
    let code = assemble(source).expect("program assembles");
    let mut sim = Simulator::from_program(&code).expect("program fits");
    let mut steps = 0;
    while sim.execute().expect("known opcode") {
        steps += 1;
        assert!(steps < 10_000, "program does not halt");
    }
    sim
}

fn flags(sim: &Simulator) -> (bool, bool, bool, bool, bool) {
    (
        sim.cpu_get_flag(Flag::Sign),
        sim.cpu_get_flag(Flag::Zero),
        sim.cpu_get_flag(Flag::AuxCarry),
        sim.cpu_get_flag(Flag::Parity),
        sim.cpu_get_flag(Flag::Carry),
    )
}

#[test]
fn subtraction_borrows() {
    let sim = run_source("MVI A, 03h\nSUI 05h\nHLT\n");
    assert_eq!(sim.cpu_get_reg(7), 0xFE);
    assert_eq!(flags(&sim), (true, false, true, false, true));
}

#[test]
fn subtraction_with_borrow_in() {
    let sim = run_source("STC\nMVI A, 05h\nMVI B, 0FFh\nSBB B\nHLT\n");
    assert_eq!(sim.cpu_get_reg(7), 0x05);
    assert!(sim.cpu_get_flag(Flag::Carry));
}

#[test]
fn compare_keeps_accumulator() {
    let sim = run_source("MVI A, 05h\nMVI B, 05h\nCMP B\nHLT\n");
    assert_eq!(sim.cpu_get_reg(7), 0x05);
    assert!(sim.cpu_get_flag(Flag::Zero));
    assert!(!sim.cpu_get_flag(Flag::Carry));
    let sim = run_source("MVI A, 03h\nCPI 05h\nHLT\n");
    assert_eq!(sim.cpu_get_reg(7), 0x03);
    assert!(!sim.cpu_get_flag(Flag::Zero));
    assert!(sim.cpu_get_flag(Flag::Carry));
}

#[test]
fn logical_operations() {
    let sim = run_source("MVI A, 0F0h\nMVI B, 3Ch\nANA B\nHLT\n");
    assert_eq!(sim.cpu_get_reg(7), 0x30);
    assert_eq!(flags(&sim), (false, false, true, true, false));
    let sim = run_source("STC\nMVI A, 5Ah\nXRA A\nHLT\n");
    assert_eq!(sim.cpu_get_reg(7), 0x00);
    assert_eq!(flags(&sim), (false, true, false, true, false));
    let sim = run_source("MVI A, 80h\nORI 01h\nHLT\n");
    assert_eq!(sim.cpu_get_reg(7), 0x81);
    assert_eq!(flags(&sim), (true, false, false, true, false));
    let sim = run_source("MVI A, 0Fh\nANI 0F8h\nCMA\nHLT\n");
    assert_eq!(sim.cpu_get_reg(7), 0xF7);
}

#[test]
fn add_with_carry_wraps() {
    let sim = run_source("STC\nMVI A, 0FFh\nACI 00h\nHLT\n");
    assert_eq!(sim.cpu_get_reg(7), 0x00);
    assert_eq!(flags(&sim), (false, true, true, true, true));
    let sim = run_source("MVI A, 0FFh\nMVI C, 0FFh\nADC C\nHLT\n");
    assert_eq!(sim.cpu_get_reg(7), 0xFE);
    assert!(sim.cpu_get_flag(Flag::Carry));
}

#[test]
fn decimal_adjust() {
    let sim = run_source("MVI A, 09h\nADI 08h\nDAA\nHLT\n");
    assert_eq!(sim.cpu_get_reg(7), 0x17);
    assert!(!sim.cpu_get_flag(Flag::Carry));
    let sim = run_source("MVI A, 99h\nADI 01h\nDAA\nHLT\n");
    assert_eq!(sim.cpu_get_reg(7), 0x00);
    assert!(sim.cpu_get_flag(Flag::Carry));
    assert!(sim.cpu_get_flag(Flag::Zero));
}

#[test]
fn rotations() {
    let sim = run_source("MVI A, 81h\nRLC\nHLT\n");
    assert_eq!(sim.cpu_get_reg(7), 0x03);
    assert!(sim.cpu_get_flag(Flag::Carry));
    let sim = run_source("MVI A, 81h\nRRC\nHLT\n");
    assert_eq!(sim.cpu_get_reg(7), 0xC0);
    assert!(sim.cpu_get_flag(Flag::Carry));
    let sim = run_source("MVI A, 81h\nRAL\nHLT\n");
    assert_eq!(sim.cpu_get_reg(7), 0x02);
    assert!(sim.cpu_get_flag(Flag::Carry));
    let sim = run_source("STC\nMVI A, 02h\nRAR\nHLT\n");
    assert_eq!(sim.cpu_get_reg(7), 0x81);
    assert!(!sim.cpu_get_flag(Flag::Carry));
    let sim = run_source("STC\nMVI A, 02h\nRLC\nHLT\n");
    assert!(!sim.cpu_get_flag(Flag::Carry));
}

#[test]
fn call_and_return() {
    let sim = run_source("LXI SP, 0xC800\nCALL routine\nHLT\nroutine: MVI A, 07h\nRET\n");
    assert_eq!(sim.cpu_get_reg(7), 0x07);
    assert_eq!(sim.get_sp(), 0xC800);
    assert_eq!(sim.mem_get8(0xC7FE), 0x06);
    assert_eq!(sim.mem_get8(0xC7FF), 0xC0);
    assert_eq!(sim.get_pc(), 0xC007);
}

#[test]
fn conditional_branches_fall_through() {
    let sim = run_source("MVI A, 01h\nORA A\nJZ skip\nMVI B, 22h\nskip: HLT\n");
    assert_eq!(sim.cpu_get_reg(0), 0x22);
    let sim = run_source("MVI A, 01h\nORA A\nJNZ skip\nMVI B, 22h\nskip: HLT\n");
    assert_eq!(sim.cpu_get_reg(0), 0x00);
    let sim = run_source("LXI SP, 0xC800\nXRA A\nCNZ routine\nMVI C, 33h\nHLT\nroutine: MVI D, 44h\nRET\n");
    assert_eq!(sim.cpu_get_reg(1), 0x33);
    assert_eq!(sim.cpu_get_reg(2), 0x00);
    assert_eq!(sim.get_sp(), 0xC800);
}

#[test]
fn conditional_return() {
    let sim = run_source("LXI SP, 0xC800\nCALL routine\nHLT\nroutine: STC\nRNC\nMVI E, 55h\nRC\nMVI E, 66h\n");
    assert_eq!(sim.cpu_get_reg(3), 0x55);
    assert_eq!(sim.get_sp(), 0xC800);
}

#[test]
fn exchanges() {
    let sim = run_source("MVI H, 01h\nMVI L, 02h\nMVI D, 03h\nMVI E, 04h\nXCHG\nHLT\n");
    assert_eq!(sim.cpu_get_reg_pair(2), 0x0304);
    assert_eq!(sim.cpu_get_reg_pair(1), 0x0102);
    let sim = run_source("LXI SP, 0x3000\nLXI H, 1122h\nLXI B, 3344h\nPUSH B\nXTHL\nHLT\n");
    assert_eq!(sim.cpu_get_reg_pair(2), 0x3344);
    assert_eq!(sim.mem_get8(0x2FFE), 0x22);
    assert_eq!(sim.mem_get8(0x2FFF), 0x11);
    let sim = run_source("LXI H, 2345h\nSPHL\nHLT\n");
    assert_eq!(sim.get_sp(), 0x2345);
}

#[test]
fn pchl_jumps_to_hl() {
    let code = assemble("LXI H, 0xC005\nPCHL\n").unwrap();
    let mut sim = Simulator::from_program(&code).unwrap();
    assert_eq!(sim.execute(), Ok(true));
    assert_eq!(sim.execute(), Ok(true));
    assert_eq!(sim.get_pc(), 0xC005);
}

#[test]
fn sixteen_bit_arithmetic() {
    let sim = run_source("LXI H, 0xFFFF\nLXI B, 0x0002\nDAD B\nHLT\n");
    assert_eq!(sim.cpu_get_reg_pair(2), 0x0001);
    assert!(sim.cpu_get_flag(Flag::Carry));
    let sim = run_source("LXI D, 0x00FF\nINX D\nLXI B, 0h\nDCX B\nHLT\n");
    assert_eq!(sim.cpu_get_reg_pair(1), 0x0100);
    assert_eq!(sim.cpu_get_reg_pair(0), 0xFFFF);
    assert!(!sim.cpu_get_flag(Flag::Zero));
}

#[test]
fn memory_transfers() {
    let sim = run_source("LXI D, 2000h\nMVI A, 5Ah\nSTAX D\nMVI A, 00h\nLDAX D\nHLT\n");
    assert_eq!(sim.cpu_get_reg(7), 0x5A);
    assert_eq!(sim.mem_get8(0x2000), 0x5A);
    let sim = run_source("LXI H, 1234h\nSHLD 3000h\nLXI H, 0h\nLHLD 3000h\nHLT\n");
    assert_eq!(sim.mem_get8(0x3000), 0x34);
    assert_eq!(sim.mem_get8(0x3001), 0x12);
    assert_eq!(sim.cpu_get_reg_pair(2), 0x1234);
    let sim = run_source("MVI A, 77h\nSTA 2500h\nMVI A, 0h\nLDA 2500h\nHLT\n");
    assert_eq!(sim.cpu_get_reg(7), 0x77);
}

#[test]
fn memory_operand_through_hl() {
    let sim = run_source("LXI H, 2000h\nMVI M, 0Fh\nINR M\nMOV B, M\nHLT\n");
    assert_eq!(sim.mem_get8(0x2000), 0x10);
    assert_eq!(sim.cpu_get_reg(0), 0x10);
    assert_eq!(sim.cpu_get_reg(6), 0x10);
    assert!(sim.cpu_get_flag(Flag::AuxCarry));
}

#[test]
fn decrement_wraps_and_keeps_carry() {
    let sim = run_source("MVI B, 00h\nDCR B\nHLT\n");
    assert_eq!(sim.cpu_get_reg(0), 0xFF);
    assert_eq!(flags(&sim), (true, false, true, true, false));
}

#[test]
fn ports() {
    let sim = run_source("MVI A, 99h\nOUT 10h\nMVI A, 0h\nIN 10h\nHLT\n");
    assert_eq!(sim.io_get8(0x10), 0x99);
    assert_eq!(sim.cpu_get_reg(7), 0x99);
}

#[test]
fn flags_survive_push_pop_psw() {
    let sim = run_source(
        "LXI SP, 0xC800\nMVI A, 0FFh\nADI 01h\nPUSH SP\nMVI A, 01h\nORA A\nPOP SP\nHLT\n",
    );
    assert_eq!(sim.cpu_get_reg(7), 0x00);
    assert_eq!(flags(&sim), (false, true, true, true, true));
    assert_eq!(sim.mem_get8(0xC7FE), 0x55);
    assert_eq!(sim.get_sp(), 0xC800);
}

#[test]
fn restart_pushes_return_address() {
    let mut sim = Simulator::from_program(&vec![0x31, 0x00, 0xC8, 0xCF]).unwrap();
    assert_eq!(sim.execute(), Ok(true));
    assert_eq!(sim.execute(), Ok(true));
    assert_eq!(sim.get_pc(), 0x0008);
    assert_eq!(sim.get_sp(), 0xC7FE);
    assert_eq!(sim.mem_get8(0xC7FE), 0x04);
    assert_eq!(sim.mem_get8(0xC7FF), 0xC0);
}

#[test]
fn unknown_opcode_is_reported() {
    let mut sim = Simulator::from_program(&vec![0x00, 0x08]).unwrap();
    assert_eq!(sim.execute(), Ok(true));
    assert_eq!(
        sim.execute(),
        Err(ExecError::UnknownOpcode { address: 0xC001, opcode: 0x08 })
    );
    assert_eq!(sim.get_pc(), 0xC001);
}

#[test]
fn reserved_instructions_are_inert() {
    let sim = run_source("MVI A, 12h\nEI\nDI\nRIM\nSIM\nHLT\n");
    assert_eq!(sim.cpu_get_reg(7), 0x12);
    assert_eq!(sim.get_pc(), 0xC007);
}

#[test]
fn halt_boundary_stops_execution() {
    let mut sim = Simulator::new();
    sim.set_pc(0xCFFE);
    assert_eq!(sim.execute(), Ok(true));
    assert_eq!(sim.execute(), Ok(true));
    assert_eq!(sim.get_pc(), 0xD000);
    assert_eq!(sim.execute(), Ok(false));
    assert_eq!(sim.get_pc(), 0xD000);
    sim.set_pc(0xFFFF);
    assert_eq!(sim.execute(), Ok(false));
}

#[test]
fn jump_past_boundary_halts() {
    let mut sim = run_source_until_halt("JMP 0xE000\n");
    assert_eq!(sim.get_pc(), 0xE000);
    assert_eq!(sim.execute(), Ok(false));
}

fn run_source_until_halt(source: &str) -> Simulator {
    run_source(source)
}
