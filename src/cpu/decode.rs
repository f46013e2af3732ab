use vstd::prelude::*;
use crate::cpu::semantics;
use crate::cpu::semantics::{AluOp, Cond, Instruction, HLT_OPCODE, decode_spec, instruction_wf};

verus! {

/// The branch condition with 3-bit code `y`.
pub fn cond_of(y: u8) -> (r: Cond)
    requires
        y < 8,
    ensures
        r == semantics::cond_of(y),
{
    if y == 0 {
        Cond::NotZero
    } else if y == 1 {
        Cond::Zero
    } else if y == 2 {
        Cond::NoCarry
    } else if y == 3 {
        Cond::Carry
    } else if y == 4 {
        Cond::ParityOdd
    } else if y == 5 {
        Cond::ParityEven
    } else if y == 6 {
        Cond::Plus
    } else {
        Cond::Minus
    }
}

/// The accumulator operation with 3-bit code `y`.
pub fn alu_op_of(y: u8) -> (r: AluOp)
    requires
        y < 8,
    ensures
        r == semantics::alu_op_of(y),
{
    if y == 0 {
        AluOp::Add
    } else if y == 1 {
        AluOp::Adc
    } else if y == 2 {
        AluOp::Sub
    } else if y == 3 {
        AluOp::Sbb
    } else if y == 4 {
        AluOp::Ana
    } else if y == 5 {
        AluOp::Xra
    } else if y == 6 {
        AluOp::Ora
    } else {
        AluOp::Cmp
    }
}

/// The instruction an opcode stands for, or `None` for a byte that is no opcode.
pub fn decode(op: u8) -> (r: Option<Instruction>)
    ensures
        r == decode_spec(op),
        r matches Some(i) ==> instruction_wf(i),
{
    proof {
        reveal(decode_spec);
    }
    let y: u8 = op / 8 % 8;
    let z: u8 = op % 8;
    let rp: u8 = op / 16 % 4;
    match op {
        HLT_OPCODE => Some(Instruction::Hlt),
        0x40..=0x7F => Some(Instruction::Mov { dst: y, src: z }),
        0x80..=0xBF => Some(Instruction::Alu { op: alu_op_of(y), src: z }),
        0x00 | 0x20 | 0x30 | 0xF3 | 0xFB => Some(Instruction::Nop),
        0x01 | 0x11 | 0x21 | 0x31 => Some(Instruction::Lxi { rp }),
        0x09 | 0x19 | 0x29 | 0x39 => Some(Instruction::Dad { rp }),
        0x02 | 0x12 => Some(Instruction::Stax { rp }),
        0x0A | 0x1A => Some(Instruction::Ldax { rp }),
        0x22 => Some(Instruction::Shld),
        0x2A => Some(Instruction::Lhld),
        0x32 => Some(Instruction::Sta),
        0x3A => Some(Instruction::Lda),
        0x03 | 0x13 | 0x23 | 0x33 => Some(Instruction::Inx { rp }),
        0x0B | 0x1B | 0x2B | 0x3B => Some(Instruction::Dcx { rp }),
        0x04 | 0x0C | 0x14 | 0x1C | 0x24 | 0x2C | 0x34 | 0x3C => Some(Instruction::Inr { r: y }),
        0x05 | 0x0D | 0x15 | 0x1D | 0x25 | 0x2D | 0x35 | 0x3D => Some(Instruction::Dcr { r: y }),
        0x06 | 0x0E | 0x16 | 0x1E | 0x26 | 0x2E | 0x36 | 0x3E => Some(Instruction::Mvi { dst: y }),
        0x07 => Some(Instruction::Rlc),
        0x0F => Some(Instruction::Rrc),
        0x17 => Some(Instruction::Ral),
        0x1F => Some(Instruction::Rar),
        0x27 => Some(Instruction::Daa),
        0x2F => Some(Instruction::Cma),
        0x37 => Some(Instruction::Stc),
        0x3F => Some(Instruction::Cmc),
        0xC0 | 0xC8 | 0xD0 | 0xD8 | 0xE0 | 0xE8 | 0xF0 | 0xF8 => Some(
            Instruction::Ret { cond: Some(cond_of(y)) },
        ),
        0xC9 => Some(Instruction::Ret { cond: None }),
        0xC1 | 0xD1 | 0xE1 | 0xF1 => Some(Instruction::Pop { rp }),
        0xC5 | 0xD5 | 0xE5 | 0xF5 => Some(Instruction::Push { rp }),
        0xE9 => Some(Instruction::Pchl),
        0xF9 => Some(Instruction::Sphl),
        0xC2 | 0xCA | 0xD2 | 0xDA | 0xE2 | 0xEA | 0xF2 | 0xFA => Some(
            Instruction::Jmp { cond: Some(cond_of(y)) },
        ),
        0xC3 => Some(Instruction::Jmp { cond: None }),
        0xD3 => Some(Instruction::Out),
        0xDB => Some(Instruction::In),
        0xE3 => Some(Instruction::Xthl),
        0xEB => Some(Instruction::Xchg),
        0xC4 | 0xCC | 0xD4 | 0xDC | 0xE4 | 0xEC | 0xF4 | 0xFC => Some(
            Instruction::Call { cond: Some(cond_of(y)) },
        ),
        0xCD => Some(Instruction::Call { cond: None }),
        0xC6 | 0xCE | 0xD6 | 0xDE | 0xE6 | 0xEE | 0xF6 | 0xFE => Some(
            Instruction::AluImm { op: alu_op_of(y) },
        ),
        0xC7 | 0xCF | 0xD7 | 0xDF | 0xE7 | 0xEF | 0xF7 | 0xFF => Some(Instruction::Rst { n: y }),
        _ => None,
    }
}

} // verus!
