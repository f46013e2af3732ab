use vstd::prelude::*;
use crate::bus::io::{PORT_LEN, PORT_SPACE};
use crate::bus::mem::{MEM_LEN, MEM_SPACE, le16, lo8, hi8, be16};
use crate::changes::Regs;

verus! {

/// Execution stops once the program counter reaches this address.
pub const HALT_BOUNDARY: u16 = 0xD000;

/// Opcode of the halt instruction.
pub const HLT_OPCODE: u8 = 0x76;

/// The whole observable state: registers and flags, memory and IO ports (each
/// with its guard byte).
pub struct Machine {
    pub regs: Regs,
    pub mem: Seq<u8>,
    pub io: Seq<u8>,
}

/// Memory and ports have their full size and zero guard bytes.
pub open spec fn machine_wf(m: Machine) -> bool {
    &&& m.mem.len() == MEM_LEN
    &&& m.mem[MEM_SPACE as int] == 0
    &&& m.io.len() == PORT_LEN
    &&& m.io[PORT_SPACE as int] == 0
}

/// Branch conditions, in the order of their 3-bit code.
#[derive(Debug, Clone, Copy, PartialEq, Eq, Structural)]
pub enum Cond {
    NotZero,
    Zero,
    NoCarry,
    Carry,
    ParityOdd,
    ParityEven,
    Plus,
    Minus,
}

/// Accumulator operations, in the order of their 3-bit code.
#[derive(Debug, Clone, Copy, PartialEq, Eq, Structural)]
pub enum AluOp {
    Add,
    Adc,
    Sub,
    Sbb,
    Ana,
    Xra,
    Ora,
    Cmp,
}

/// A decoded opcode. Register codes are 3-bit (B, C, D, E, H, L, M, A); pair
/// codes are 2-bit (BC, DE, HL, and SP, or PSW for push and pop).
#[derive(Debug, Clone, Copy, PartialEq, Eq, Structural)]
pub enum Instruction {
    Hlt,
    Nop,
    Mov { dst: u8, src: u8 },
    Mvi { dst: u8 },
    Lxi { rp: u8 },
    Stax { rp: u8 },
    Ldax { rp: u8 },
    Sta,
    Lda,
    Shld,
    Lhld,
    Xchg,
    Push { rp: u8 },
    Pop { rp: u8 },
    Xthl,
    Sphl,
    Pchl,
    Inx { rp: u8 },
    Dcx { rp: u8 },
    Dad { rp: u8 },
    Inr { r: u8 },
    Dcr { r: u8 },
    Jmp { cond: Option<Cond> },
    Call { cond: Option<Cond> },
    Ret { cond: Option<Cond> },
    Rst { n: u8 },
    In,
    Out,
    Alu { op: AluOp, src: u8 },
    AluImm { op: AluOp },
    Rlc,
    Rrc,
    Ral,
    Rar,
    Cma,
    Stc,
    Cmc,
    Daa,
}

/// Why a step could not be executed.
#[derive(Debug, Clone, Copy, PartialEq, Eq, Structural)]
pub enum ExecError {
    /// The byte at `address` is no opcode of the instruction set.
    UnknownOpcode { address: u16, opcode: u8 },
}

pub open spec fn cond_of(y: u8) -> Cond {
    if y == 0 {
        Cond::NotZero
    } else if y == 1 {
        Cond::Zero
    } else if y == 2 {
        Cond::NoCarry
    } else if y == 3 {
        Cond::Carry
    } else if y == 4 {
        Cond::ParityOdd
    } else if y == 5 {
        Cond::ParityEven
    } else if y == 6 {
        Cond::Plus
    } else {
        Cond::Minus
    }
}

pub open spec fn alu_op_of(y: u8) -> AluOp {
    if y == 0 {
        AluOp::Add
    } else if y == 1 {
        AluOp::Adc
    } else if y == 2 {
        AluOp::Sub
    } else if y == 3 {
        AluOp::Sbb
    } else if y == 4 {
        AluOp::Ana
    } else if y == 5 {
        AluOp::Xra
    } else if y == 6 {
        AluOp::Ora
    } else {
        AluOp::Cmp
    }
}

/// The instruction an opcode stands for, or `None` for the ten bytes that are
/// no opcode. The byte splits as `xx yyy zzz`, and `yyy` as `pp q`.
/// RIM, SIM, EI and DI decode as no-ops.
#[verifier::opaque]
pub open spec fn decode_spec(op: u8) -> Option<Instruction> {
    let x = op / 64;
    let y = (op / 8 % 8) as u8;
    let z = op % 8;
    let p = y / 2;
    let q = y % 2;
    if op == HLT_OPCODE {
        Some(Instruction::Hlt)
    } else if x == 1 {
        Some(Instruction::Mov { dst: y, src: z })
    } else if x == 2 {
        Some(Instruction::Alu { op: alu_op_of(y), src: z })
    } else if x == 0 {
        if z == 0 {
            if y == 0 || y == 4 || y == 6 {
                Some(Instruction::Nop)
            } else {
                None
            }
        } else if z == 1 {
            if q == 0 {
                Some(Instruction::Lxi { rp: p })
            } else {
                Some(Instruction::Dad { rp: p })
            }
        } else if z == 2 {
            if y == 0 || y == 2 {
                Some(Instruction::Stax { rp: p })
            } else if y == 1 || y == 3 {
                Some(Instruction::Ldax { rp: p })
            } else if y == 4 {
                Some(Instruction::Shld)
            } else if y == 5 {
                Some(Instruction::Lhld)
            } else if y == 6 {
                Some(Instruction::Sta)
            } else {
                Some(Instruction::Lda)
            }
        } else if z == 3 {
            if q == 0 {
                Some(Instruction::Inx { rp: p })
            } else {
                Some(Instruction::Dcx { rp: p })
            }
        } else if z == 4 {
            Some(Instruction::Inr { r: y })
        } else if z == 5 {
            Some(Instruction::Dcr { r: y })
        } else if z == 6 {
            Some(Instruction::Mvi { dst: y })
        } else {
            if y == 0 {
                Some(Instruction::Rlc)
            } else if y == 1 {
                Some(Instruction::Rrc)
            } else if y == 2 {
                Some(Instruction::Ral)
            } else if y == 3 {
                Some(Instruction::Rar)
            } else if y == 4 {
                Some(Instruction::Daa)
            } else if y == 5 {
                Some(Instruction::Cma)
            } else if y == 6 {
                Some(Instruction::Stc)
            } else {
                Some(Instruction::Cmc)
            }
        }
    } else {
        if z == 0 {
            Some(Instruction::Ret { cond: Some(cond_of(y)) })
        } else if z == 1 {
            if q == 0 {
                Some(Instruction::Pop { rp: p })
            } else if p == 0 {
                Some(Instruction::Ret { cond: None })
            } else if p == 2 {
                Some(Instruction::Pchl)
            } else if p == 3 {
                Some(Instruction::Sphl)
            } else {
                None
            }
        } else if z == 2 {
            Some(Instruction::Jmp { cond: Some(cond_of(y)) })
        } else if z == 3 {
            if y == 0 {
                Some(Instruction::Jmp { cond: None })
            } else if y == 2 {
                Some(Instruction::Out)
            } else if y == 3 {
                Some(Instruction::In)
            } else if y == 4 {
                Some(Instruction::Xthl)
            } else if y == 5 {
                Some(Instruction::Xchg)
            } else if y == 6 || y == 7 {
                Some(Instruction::Nop)
            } else {
                None
            }
        } else if z == 4 {
            Some(Instruction::Call { cond: Some(cond_of(y)) })
        } else if z == 5 {
            if q == 0 {
                Some(Instruction::Push { rp: p })
            } else if p == 0 {
                Some(Instruction::Call { cond: None })
            } else {
                None
            }
        } else if z == 6 {
            Some(Instruction::AluImm { op: alu_op_of(y) })
        } else {
            Some(Instruction::Rst { n: y })
        }
    }
}

/// Register codes below 8, pair codes below 4 (below 2 for STAX and LDAX),
/// restart numbers below 8: what the decoder produces.
pub open spec fn instruction_wf(i: Instruction) -> bool {
    match i {
        Instruction::Mov { dst, src } => dst < 8 && src < 8,
        Instruction::Mvi { dst } => dst < 8,
        Instruction::Lxi { rp } => rp < 4,
        Instruction::Stax { rp } => rp < 2,
        Instruction::Ldax { rp } => rp < 2,
        Instruction::Push { rp } => rp < 4,
        Instruction::Pop { rp } => rp < 4,
        Instruction::Inx { rp } => rp < 4,
        Instruction::Dcx { rp } => rp < 4,
        Instruction::Dad { rp } => rp < 4,
        Instruction::Inr { r } => r < 8,
        Instruction::Dcr { r } => r < 8,
        Instruction::Rst { n } => n < 8,
        Instruction::Alu { op, src } => src < 8,
        _ => true,
    }
}

/// `pc + k`, wrapping at 16 bits.
pub open spec fn adv(pc: u16, k: int) -> u16 {
    ((pc + k) % 0x10000) as u16
}

/// `x - 1`, wrapping at 16 bits.
pub open spec fn dec16(x: u16) -> u16 {
    ((x + 0xFFFF) % 0x10000) as u16
}

pub open spec fn hl_of(r: Regs) -> u16 {
    be16(r.h, r.l)
}

/// The register with 3-bit code `code`; code 6 is the byte at HL.
pub open spec fn reg_spec(m: Machine, code: u8) -> u8 {
    let r = m.regs;
    if code == 0 {
        r.b
    } else if code == 1 {
        r.c
    } else if code == 2 {
        r.d
    } else if code == 3 {
        r.e
    } else if code == 4 {
        r.h
    } else if code == 5 {
        r.l
    } else if code == 6 {
        m.mem[hl_of(r) as int]
    } else {
        r.a
    }
}

/// Stores `v` in the register with 3-bit code `code`.
pub open spec fn set_reg_spec(m: Machine, code: u8, v: u8) -> Machine {
    let r = m.regs;
    if code == 0 {
        Machine { regs: Regs { b: v, ..r }, ..m }
    } else if code == 1 {
        Machine { regs: Regs { c: v, ..r }, ..m }
    } else if code == 2 {
        Machine { regs: Regs { d: v, ..r }, ..m }
    } else if code == 3 {
        Machine { regs: Regs { e: v, ..r }, ..m }
    } else if code == 4 {
        Machine { regs: Regs { h: v, ..r }, ..m }
    } else if code == 5 {
        Machine { regs: Regs { l: v, ..r }, ..m }
    } else if code == 6 {
        Machine { mem: m.mem.update(hl_of(r) as int, v), ..m }
    } else {
        Machine { regs: Regs { a: v, ..r }, ..m }
    }
}

/// The register pair with 2-bit code `code` (BC, DE, HL, SP).
pub open spec fn pair_spec(r: Regs, code: u8) -> u16 {
    if code == 0 {
        be16(r.b, r.c)
    } else if code == 1 {
        be16(r.d, r.e)
    } else if code == 2 {
        be16(r.h, r.l)
    } else {
        r.sp
    }
}

/// Stores `v` in the register pair with 2-bit code `code`.
pub open spec fn set_pair_spec(r: Regs, code: u8, v: u16) -> Regs {
    if code == 0 {
        Regs { b: hi8(v), c: lo8(v), ..r }
    } else if code == 1 {
        Regs { d: hi8(v), e: lo8(v), ..r }
    } else if code == 2 {
        Regs { h: hi8(v), l: lo8(v), ..r }
    } else {
        Regs { sp: v, ..r }
    }
}

/// Number of set bits.
pub open spec fn ones(v: nat) -> nat
    decreases v,
{
    if v == 0 {
        0
    } else {
        v % 2 + ones(v / 2)
    }
}

/// Even parity: an even number of set bits.
pub open spec fn even_parity(v: u8) -> bool {
    ones(v as nat) % 2 == 0
}

/// Sign, zero and parity of a result.
pub open spec fn szp(r: Regs, v: u8) -> Regs {
    Regs { s: v >= 0x80, z: v == 0, p: even_parity(v), ..r }
}

/// Flags packed as in the PSW: CY bit 0, P bit 2, AC bit 4, Z bit 6, S bit 7.
pub open spec fn flags_byte(r: Regs) -> u8 {
    ((if r.cy { 1int } else { 0 }) + (if r.p { 4int } else { 0 }) + (if r.ac { 16int } else { 0 })
        + (if r.z { 64int } else { 0 }) + (if r.s { 128int } else { 0 })) as u8
}

/// Flags unpacked from a PSW byte.
pub open spec fn with_flags_byte(r: Regs, f: u8) -> Regs {
    Regs {
        cy: f % 2 == 1,
        p: f / 4 % 2 == 1,
        ac: f / 16 % 2 == 1,
        z: f / 64 % 2 == 1,
        s: f / 128 % 2 == 1,
        ..r
    }
}

pub open spec fn b2i(b: bool) -> int {
    if b {
        1
    } else {
        0
    }
}

/// `A + v + carry_in`: carry out of bit 7 into CY, out of bit 3 into AC.
pub open spec fn add_spec(r: Regs, v: u8, carry_in: bool) -> Regs {
    let sum = r.a + v + b2i(carry_in);
    let res = (sum % 256) as u8;
    Regs { a: res, cy: sum > 255, ac: r.a % 16 + v % 16 + b2i(carry_in) > 15, ..szp(r, res) }
}

/// Flags of `A - v - borrow_in`: CY is the borrow (A smaller than what is
/// taken away), AC the borrow out of the low nibble.
pub open spec fn sub_flags(r: Regs, v: u8, borrow_in: bool) -> Regs {
    let diff = r.a - v - b2i(borrow_in);
    let res = ((diff + 256) % 256) as u8;
    Regs { cy: diff < 0, ac: (r.a % 16) < (v % 16) + b2i(borrow_in), ..szp(r, res) }
}

/// `A - v - borrow_in`.
pub open spec fn sub_spec(r: Regs, v: u8, borrow_in: bool) -> Regs {
    let diff = r.a - v - b2i(borrow_in);
    Regs { a: ((diff + 256) % 256) as u8, ..sub_flags(r, v, borrow_in) }
}

/// An accumulator operation with operand `v`.
pub open spec fn alu_spec(r: Regs, op: AluOp, v: u8) -> Regs {
    match op {
        AluOp::Add => add_spec(r, v, false),
        AluOp::Adc => add_spec(r, v, r.cy),
        AluOp::Sub => sub_spec(r, v, false),
        AluOp::Sbb => sub_spec(r, v, r.cy),
        AluOp::Ana => Regs { a: r.a & v, cy: false, ac: true, ..szp(r, r.a & v) },
        AluOp::Xra => Regs { a: r.a ^ v, cy: false, ac: false, ..szp(r, r.a ^ v) },
        AluOp::Ora => Regs { a: r.a | v, cy: false, ac: false, ..szp(r, r.a | v) },
        AluOp::Cmp => sub_flags(r, v, false),
    }
}

pub open spec fn cond_holds(r: Regs, c: Cond) -> bool {
    match c {
        Cond::NotZero => !r.z,
        Cond::Zero => r.z,
        Cond::NoCarry => !r.cy,
        Cond::Carry => r.cy,
        Cond::ParityOdd => !r.p,
        Cond::ParityEven => r.p,
        Cond::Plus => !r.s,
        Cond::Minus => r.s,
    }
}

pub open spec fn taken(r: Regs, cond: Option<Cond>) -> bool {
    match cond {
        None => true,
        Some(c) => cond_holds(r, c),
    }
}

/// The byte at the program counter.
pub open spec fn imm8_spec(m: Machine) -> u8 {
    m.mem[m.regs.pc as int]
}

/// The 16-bit operand at the program counter, low byte first.
pub open spec fn imm16_spec(m: Machine) -> u16 {
    le16(m.mem[m.regs.pc as int], m.mem[m.regs.pc + 1])
}

/// Memory after storing `v` low byte first at `pos` (through the guard byte).
pub open spec fn write16_le(mem: Seq<u8>, pos: u16, v: u16) -> Seq<u8> {
    mem.update(pos as int, lo8(v)).update(pos + 1, hi8(v)).update(MEM_SPACE as int, 0)
}

/// The 16-bit value at `pos`, low byte first.
pub open spec fn read16_le(mem: Seq<u8>, pos: u16) -> u16 {
    le16(mem[pos as int], mem[pos + 1])
}

pub open spec fn with_regs(m: Machine, r: Regs) -> Machine {
    Machine { regs: r, ..m }
}

pub open spec fn with_pc(m: Machine, pc: u16) -> Machine {
    Machine { regs: Regs { pc, ..m.regs }, ..m }
}

/// Pushes a register pair (`rp` 3 is A with the flags byte): the high byte
/// goes to `SP - 1`, the low byte to `SP - 2`.
pub open spec fn push_spec(m: Machine, rp: u8) -> Machine {
    let r = m.regs;
    let (hi, lo) = if rp == 0 {
        (r.b, r.c)
    } else if rp == 1 {
        (r.d, r.e)
    } else if rp == 2 {
        (r.h, r.l)
    } else {
        (r.a, flags_byte(r))
    };
    let s1 = dec16(r.sp);
    let s2 = dec16(s1);
    Machine {
        regs: Regs { sp: s2, ..r },
        mem: m.mem.update(s1 as int, hi).update(s2 as int, lo),
        ..m
    }
}

/// Pops a register pair (`rp` 3 is the flags byte and A): the low byte from
/// `SP`, the high byte from `SP + 1`.
pub open spec fn pop_spec(m: Machine, rp: u8) -> Machine {
    let r = m.regs;
    let lo = m.mem[r.sp as int];
    let hi = m.mem[adv(r.sp, 1) as int];
    let sp = adv(r.sp, 2);
    let nr = if rp == 0 {
        Regs { b: hi, c: lo, sp, ..r }
    } else if rp == 1 {
        Regs { d: hi, e: lo, sp, ..r }
    } else if rp == 2 {
        Regs { h: hi, l: lo, sp, ..r }
    } else {
        Regs { a: hi, sp, ..with_flags_byte(r, lo) }
    };
    with_regs(m, nr)
}

/// Pushes `ret` as a return address and jumps to `target`.
pub open spec fn call_to(m: Machine, ret: u16, target: u16) -> Machine {
    let sp = adv(m.regs.sp, -2);
    Machine {
        regs: Regs { sp, pc: target, ..m.regs },
        mem: write16_le(m.mem, sp, ret),
        ..m
    }
}

/// The four accumulator rotations. RLC and RRC rotate the accumulator and
/// copy the bit that wraps around into CY; RAL and RAR rotate through CY.
pub open spec fn rotate_spec(r: Regs, i: Instruction) -> Regs {
    let top = r.a / 128;
    let bottom = r.a % 2;
    match i {
        Instruction::Rlc => Regs { a: ((r.a % 128) * 2 + top) as u8, cy: top == 1, ..r },
        Instruction::Rrc => Regs { a: (r.a / 2 + bottom * 128) as u8, cy: bottom == 1, ..r },
        Instruction::Ral => Regs { a: ((r.a % 128) * 2 + b2i(r.cy)) as u8, cy: top == 1, ..r },
        _ => Regs { a: (r.a / 2 + b2i(r.cy) * 128) as u8, cy: bottom == 1, ..r },
    }
}

/// Decimal adjust of the accumulator.
pub open spec fn daa_spec(r: Regs) -> Regs {
    let lo = r.a % 16;
    let low_fix = lo > 9 || r.ac;
    let a1: int = if low_fix { (r.a + 6) % 256 } else { r.a as int };
    let ac = low_fix && lo + 6 > 15;
    let cy1 = r.cy || (low_fix && r.a + 6 > 255);
    let high_fix = a1 / 16 > 9 || cy1;
    let a2 = (if high_fix { (a1 + 0x60) % 256 } else { a1 }) as u8;
    Regs { a: a2, ac, cy: cy1 || high_fix, ..szp(r, a2) }
}

/// The effect of an instruction whose opcode has been fetched (the program
/// counter already points past the opcode byte).
#[verifier::opaque]
pub open spec fn exec_spec(m: Machine, i: Instruction) -> Machine {
    let r = m.regs;
    let pc1 = adv(r.pc, 1);
    let pc2 = adv(r.pc, 2);
    match i {
        Instruction::Hlt => m,
        Instruction::Nop => m,
        Instruction::Mov { dst, src } => set_reg_spec(m, dst, reg_spec(m, src)),
        Instruction::Mvi { dst } => set_reg_spec(with_pc(m, pc1), dst, imm8_spec(m)),
        Instruction::Lxi { rp } => with_regs(m, set_pair_spec(Regs { pc: pc2, ..r }, rp, imm16_spec(m))),
        Instruction::Stax { rp } => Machine { mem: m.mem.update(pair_spec(r, rp) as int, r.a), ..m },
        Instruction::Ldax { rp } => with_regs(m, Regs { a: m.mem[pair_spec(r, rp) as int], ..r }),
        Instruction::Sta => Machine {
            regs: Regs { pc: pc2, ..r },
            mem: m.mem.update(imm16_spec(m) as int, r.a),
            ..m
        },
        Instruction::Lda => with_regs(m, Regs { pc: pc2, a: m.mem[imm16_spec(m) as int], ..r }),
        Instruction::Shld => Machine {
            regs: Regs { pc: pc2, ..r },
            mem: write16_le(m.mem, imm16_spec(m), hl_of(r)),
            ..m
        },
        Instruction::Lhld => {
            let v = read16_le(m.mem, imm16_spec(m));
            with_regs(m, Regs { pc: pc2, h: hi8(v), l: lo8(v), ..r })
        },
        Instruction::Xchg => with_regs(m, Regs { d: r.h, e: r.l, h: r.d, l: r.e, ..r }),
        Instruction::Push { rp } => push_spec(m, rp),
        Instruction::Pop { rp } => pop_spec(m, rp),
        Instruction::Xthl => {
            let s1 = adv(r.sp, 1);
            Machine {
                regs: Regs { l: m.mem[r.sp as int], h: m.mem[s1 as int], ..r },
                mem: m.mem.update(r.sp as int, r.l).update(s1 as int, r.h),
                ..m
            }
        },
        Instruction::Sphl => with_regs(m, Regs { sp: hl_of(r), ..r }),
        Instruction::Pchl => with_pc(m, hl_of(r)),
        Instruction::Inx { rp } => with_regs(m, set_pair_spec(r, rp, adv(pair_spec(r, rp), 1))),
        Instruction::Dcx { rp } => with_regs(m, set_pair_spec(r, rp, dec16(pair_spec(r, rp)))),
        Instruction::Dad { rp } => {
            let sum = hl_of(r) + pair_spec(r, rp);
            with_regs(m, Regs { cy: sum > 0xFFFF, ..set_pair_spec(r, 2, (sum % 0x10000) as u16) })
        },
        Instruction::Inr { r: code } => {
            let old = reg_spec(m, code);
            let new = ((old + 1) % 256) as u8;
            let m1 = set_reg_spec(m, code, new);
            with_regs(m1, Regs { ac: old % 16 == 15, ..szp(m1.regs, new) })
        },
        Instruction::Dcr { r: code } => {
            // AC is the borrow out of the low nibble, as for subtraction.
            let old = reg_spec(m, code);
            let new = ((old + 255) % 256) as u8;
            let m1 = set_reg_spec(m, code, new);
            with_regs(m1, Regs { ac: old % 16 == 0, ..szp(m1.regs, new) })
        },
        Instruction::Jmp { cond } => if taken(r, cond) {
            with_pc(m, imm16_spec(m))
        } else {
            with_pc(m, pc2)
        },
        Instruction::Call { cond } => if taken(r, cond) {
            call_to(m, pc2, imm16_spec(m))
        } else {
            with_pc(m, pc2)
        },
        Instruction::Ret { cond } => if taken(r, cond) {
            with_regs(m, Regs { pc: read16_le(m.mem, r.sp), sp: adv(r.sp, 2), ..r })
        } else {
            m
        },
        Instruction::Rst { n } => call_to(m, r.pc, (n * 8) as u16),
        Instruction::In => with_regs(m, Regs { pc: pc1, a: m.io[imm8_spec(m) as int], ..r }),
        Instruction::Out => Machine {
            regs: Regs { pc: pc1, ..r },
            io: m.io.update(imm8_spec(m) as int, r.a),
            ..m
        },
        Instruction::Alu { op, src } => with_regs(m, alu_spec(r, op, reg_spec(m, src))),
        Instruction::AluImm { op } => with_regs(m, alu_spec(Regs { pc: pc1, ..r }, op, imm8_spec(m))),
        Instruction::Rlc => with_regs(m, rotate_spec(r, i)),
        Instruction::Rrc => with_regs(m, rotate_spec(r, i)),
        Instruction::Ral => with_regs(m, rotate_spec(r, i)),
        Instruction::Rar => with_regs(m, rotate_spec(r, i)),
        Instruction::Cma => with_regs(m, Regs { a: (255 - r.a) as u8, ..r }),
        Instruction::Stc => with_regs(m, Regs { cy: true, ..r }),
        Instruction::Cmc => with_regs(m, Regs { cy: !r.cy, ..r }),
        Instruction::Daa => with_regs(m, daa_spec(r)),
    }
}

/// One fetch-decode-execute step. At or past the halt boundary nothing changes
/// and the result is `Ok(false)`; the halt instruction moves the program
/// counter past itself and gives `Ok(false)`; a byte that is no opcode changes
/// nothing and gives the error; any other instruction runs and gives `Ok(true)`.
pub open spec fn step_spec(m: Machine) -> (Machine, Result<bool, ExecError>) {
    let pc = m.regs.pc;
    if pc >= HALT_BOUNDARY {
        (m, Ok(false))
    } else {
        let op = m.mem[pc as int];
        let m1 = with_pc(m, adv(pc, 1));
        match decode_spec(op) {
            None => (m, Err(ExecError::UnknownOpcode { address: pc, opcode: op })),
            Some(Instruction::Hlt) => (m1, Ok(false)),
            Some(i) => (exec_spec(m1, i), Ok(true)),
        }
    }
}

} // verus!
