use vstd::prelude::*;
use crate::changes::Regs;
use crate::cpu::semantics::{
    Instruction, Machine, HALT_BOUNDARY, instruction_wf, pop_spec, push_spec, adv, decode_spec, exec_spec, flags_byte, imm8_spec,
    machine_wf, reg_spec, set_reg_spec, step_spec, with_flags_byte, with_pc,
};

verus! {

/// Packing the flags into a byte and unpacking it again gives the same flags.
proof fn lemma_flags_byte_round_trip(r: crate::changes::Regs)
    ensures
        with_flags_byte(r, flags_byte(r)) == r,
{
    let f = flags_byte(r);
    assert(f % 2 == 1 <==> r.cy);
    assert(f / 4 % 2 == 1 <==> r.p);
    assert(f / 16 % 2 == 1 <==> r.ac);
    assert(f / 64 % 2 == 1 <==> r.z);
    assert(f / 128 % 2 == 1 <==> r.s);
}

/// Pushing a register pair (or A with the flags) and popping it straight back
/// restores every register and flag, the stack pointer as well.
pub proof fn law_push_pop_restores(m: Machine, rp: u8)
    requires
        machine_wf(m),
        rp < 4,
    ensures
        exec_spec(exec_spec(m, Instruction::Push { rp }), Instruction::Pop { rp }).regs == m.regs,
{
    let m1 = exec_spec(m, Instruction::Push { rp });
    assert(m1 == push_spec(m, rp)) by {
        reveal(exec_spec);
    }
    assert(exec_spec(m1, Instruction::Pop { rp }) == pop_spec(m1, rp)) by {
        reveal(exec_spec);
    }
    if rp == 3 {
        lemma_flags_byte_round_trip(m.regs);
    }
}

/// INR and DCR leave the carry flag alone, whatever the register.
pub proof fn law_inr_dcr_keep_carry(m: Machine, r: u8)
    requires
        r < 8,
    ensures
        exec_spec(m, Instruction::Inr { r }).regs.cy == m.regs.cy,
        exec_spec(m, Instruction::Dcr { r }).regs.cy == m.regs.cy,
{
    reveal(exec_spec);
}

/// INR A adds one with wrap-around: from 0xFF it gives 0x00 with the zero
/// flag set; AC is the carry out of the low nibble; CY stays as it was.
pub proof fn law_inr_a(m: Machine)
    ensures
        ({
            let n = exec_spec(m, Instruction::Inr { r: 7 }).regs;
            &&& n.a == (m.regs.a + 1) % 256
            &&& n.z == (n.a == 0)
            &&& n.ac == (m.regs.a % 16 == 15)
            &&& n.cy == m.regs.cy
            &&& (m.regs.a == 0xFF ==> n.a == 0 && n.z && n.ac)
        }),
{
    reveal(exec_spec);
}

/// Writing a register keeps memory and ports well formed.
proof fn lemma_set_reg_wf(m: Machine, code: u8, v: u8)
    requires
        machine_wf(m),
    ensures
        machine_wf(set_reg_spec(m, code, v)),
{
}

/// An instruction keeps memory and ports at their full size with zero guard
/// bytes.
proof fn lemma_exec_wf(m: Machine, i: Instruction)
    requires
        machine_wf(m),
    ensures
        machine_wf(exec_spec(m, i)),
{
    match i {
        Instruction::Hlt => {
            assert(machine_wf(exec_spec(m, i))) by {
                reveal(exec_spec);
            }
        },
        Instruction::Nop => {
            assert(machine_wf(exec_spec(m, i))) by {
                reveal(exec_spec);
            }
        },
        Instruction::Mov { dst, src } => {
            assert(machine_wf(exec_spec(m, i))) by {
                reveal(exec_spec);
                lemma_set_reg_wf(m, dst, reg_spec(m, src));
            }
        },
        Instruction::Mvi { dst } => {
            assert(machine_wf(exec_spec(m, i))) by {
                reveal(exec_spec);
                lemma_set_reg_wf(with_pc(m, adv(m.regs.pc, 1)), dst, imm8_spec(m));
            }
        },
        Instruction::Lxi { rp } => {
            assert(machine_wf(exec_spec(m, i))) by {
                reveal(exec_spec);
            }
        },
        Instruction::Stax { rp } => {
            assert(machine_wf(exec_spec(m, i))) by {
                reveal(exec_spec);
            }
        },
        Instruction::Ldax { rp } => {
            assert(machine_wf(exec_spec(m, i))) by {
                reveal(exec_spec);
            }
        },
        Instruction::Sta => {
            assert(machine_wf(exec_spec(m, i))) by {
                reveal(exec_spec);
            }
        },
        Instruction::Lda => {
            assert(machine_wf(exec_spec(m, i))) by {
                reveal(exec_spec);
            }
        },
        Instruction::Shld => {
            assert(machine_wf(exec_spec(m, i))) by {
                reveal(exec_spec);
            }
        },
        Instruction::Lhld => {
            assert(machine_wf(exec_spec(m, i))) by {
                reveal(exec_spec);
            }
        },
        Instruction::Xchg => {
            assert(machine_wf(exec_spec(m, i))) by {
                reveal(exec_spec);
            }
        },
        Instruction::Push { rp } => {
            assert(machine_wf(exec_spec(m, i))) by {
                reveal(exec_spec);
            }
        },
        Instruction::Pop { rp } => {
            assert(machine_wf(exec_spec(m, i))) by {
                reveal(exec_spec);
            }
        },
        Instruction::Xthl => {
            assert(machine_wf(exec_spec(m, i))) by {
                reveal(exec_spec);
            }
        },
        Instruction::Sphl => {
            assert(machine_wf(exec_spec(m, i))) by {
                reveal(exec_spec);
            }
        },
        Instruction::Pchl => {
            assert(machine_wf(exec_spec(m, i))) by {
                reveal(exec_spec);
            }
        },
        Instruction::Inx { rp } => {
            assert(machine_wf(exec_spec(m, i))) by {
                reveal(exec_spec);
            }
        },
        Instruction::Dcx { rp } => {
            assert(machine_wf(exec_spec(m, i))) by {
                reveal(exec_spec);
            }
        },
        Instruction::Dad { rp } => {
            assert(machine_wf(exec_spec(m, i))) by {
                reveal(exec_spec);
            }
        },
        Instruction::Inr { r } => {
            assert(machine_wf(exec_spec(m, i))) by {
                reveal(exec_spec);
                lemma_set_reg_wf(m, r, ((reg_spec(m, r) + 1) % 256) as u8);
            }
        },
        Instruction::Dcr { r } => {
            assert(machine_wf(exec_spec(m, i))) by {
                reveal(exec_spec);
                lemma_set_reg_wf(m, r, ((reg_spec(m, r) + 255) % 256) as u8);
            }
        },
        Instruction::Jmp { cond } => {
            assert(machine_wf(exec_spec(m, i))) by {
                reveal(exec_spec);
            }
        },
        Instruction::Call { cond } => {
            assert(machine_wf(exec_spec(m, i))) by {
                reveal(exec_spec);
            }
        },
        Instruction::Ret { cond } => {
            assert(machine_wf(exec_spec(m, i))) by {
                reveal(exec_spec);
            }
        },
        Instruction::Rst { n } => {
            assert(machine_wf(exec_spec(m, i))) by {
                reveal(exec_spec);
            }
        },
        Instruction::In => {
            assert(machine_wf(exec_spec(m, i))) by {
                reveal(exec_spec);
            }
        },
        Instruction::Out => {
            assert(machine_wf(exec_spec(m, i))) by {
                reveal(exec_spec);
            }
        },
        Instruction::Alu { op, src } => {
            assert(machine_wf(exec_spec(m, i))) by {
                reveal(exec_spec);
            }
        },
        Instruction::AluImm { op } => {
            assert(machine_wf(exec_spec(m, i))) by {
                reveal(exec_spec);
            }
        },
        Instruction::Rlc => {
            assert(machine_wf(exec_spec(m, i))) by {
                reveal(exec_spec);
            }
        },
        Instruction::Rrc => {
            assert(machine_wf(exec_spec(m, i))) by {
                reveal(exec_spec);
            }
        },
        Instruction::Ral => {
            assert(machine_wf(exec_spec(m, i))) by {
                reveal(exec_spec);
            }
        },
        Instruction::Rar => {
            assert(machine_wf(exec_spec(m, i))) by {
                reveal(exec_spec);
            }
        },
        Instruction::Cma => {
            assert(machine_wf(exec_spec(m, i))) by {
                reveal(exec_spec);
            }
        },
        Instruction::Stc => {
            assert(machine_wf(exec_spec(m, i))) by {
                reveal(exec_spec);
            }
        },
        Instruction::Cmc => {
            assert(machine_wf(exec_spec(m, i))) by {
                reveal(exec_spec);
            }
        },
        Instruction::Daa => {
            assert(machine_wf(exec_spec(m, i))) by {
                reveal(exec_spec);
            }
        },
    }
}

/// A step keeps memory and ports at their full size with zero guard bytes.
pub proof fn lemma_step_wf(m: Machine)
    requires
        machine_wf(m),
    ensures
        machine_wf(step_spec(m).0),
{
    let pc = m.regs.pc;
    if pc < HALT_BOUNDARY {
        let m1 = with_pc(m, adv(pc, 1));
        if let Some(i) = decode_spec(m.mem[pc as int]) {
            lemma_exec_wf(m1, i);
        }
    }
}

/// At or past the halt boundary a step changes nothing and reports that the
/// machine has halted.
pub proof fn law_halt_boundary(m: Machine)
    requires
        m.regs.pc >= HALT_BOUNDARY,
    ensures
        step_spec(m) == (m, Ok::<bool, crate::cpu::semantics::ExecError>(false)),
{
}

} // verus!

verus! {

/// The instructions documented to change flags: arithmetic and logic on the
/// accumulator, increments and decrements of single registers, DAD (carry
/// only), the rotations (carry only), STC, CMC, DAA, and POP PSW.
pub open spec fn may_change_flags(i: Instruction) -> bool {
    match i {
        Instruction::Alu { .. } | Instruction::AluImm { .. } | Instruction::Inr { .. }
        | Instruction::Dcr { .. } | Instruction::Dad { .. } | Instruction::Rlc | Instruction::Rrc
        | Instruction::Ral | Instruction::Rar | Instruction::Stc | Instruction::Cmc
        | Instruction::Daa => true,
        Instruction::Pop { rp } => rp == 3,
        _ => false,
    }
}

pub open spec fn same_flags(a: Regs, b: Regs) -> bool {
    a.s == b.s && a.z == b.z && a.ac == b.ac && a.p == b.p && a.cy == b.cy
}

/// Every other instruction leaves all five flags as they were.
pub proof fn law_flags_only_where_documented(m: Machine, i: Instruction)
    requires
        instruction_wf(i),
        !may_change_flags(i),
    ensures
        same_flags(exec_spec(m, i).regs, m.regs),
{
    match i {
        Instruction::Mov { dst, src } => {
            assert(exec_spec(m, i) == set_reg_spec(m, dst, reg_spec(m, src))) by {
                reveal(exec_spec);
            }
            lemma_set_reg_keeps_flags(m, dst, reg_spec(m, src));
        },
        Instruction::Mvi { dst } => {
            let m1 = with_pc(m, adv(m.regs.pc, 1));
            assert(exec_spec(m, i) == set_reg_spec(m1, dst, imm8_spec(m))) by {
                reveal(exec_spec);
            }
            lemma_set_reg_keeps_flags(m1, dst, imm8_spec(m));
        },
        _ => {
            reveal(exec_spec);
        },
    }
}

/// Writing a register leaves the flags alone.
proof fn lemma_set_reg_keeps_flags(m: Machine, code: u8, v: u8)
    ensures
        same_flags(set_reg_spec(m, code, v).regs, m.regs),
{
}

} // verus!
