use vstd::prelude::*;
use crate::bus::Bus;
use crate::changes::Regs;
use crate::cpu::{CPU, machine};
use crate::cpu::semantics::{
    AluOp, Cond, Instruction, add_spec, alu_spec, b2i, daa_spec, dec16, exec_spec, flags_byte, hl_of,
    instruction_wf, pair_spec, rotate_spec, set_pair_spec, sub_flags, sub_spec, taken, adv,
};

verus! {

impl CPU {
    /// Executes a decoded instruction whose opcode byte has been fetched.
    pub(super) fn run(&mut self, bus: &mut Bus, inst: Instruction)
        requires
            old(bus).wf(),
            instruction_wf(inst),
        ensures
            final(bus).wf(),
            machine(*final(self), *final(bus)) == exec_spec(machine(*old(self), *old(bus)), inst),
    {
        match inst {
            Instruction::Hlt => {
                self.nop();
                assert(machine(*self, *bus) == exec_spec(machine(*old(self), *old(bus)), inst)) by {
                    reveal(exec_spec);
                }
            },
            Instruction::Nop => {
                self.nop();
                assert(machine(*self, *bus) == exec_spec(machine(*old(self), *old(bus)), inst)) by {
                    reveal(exec_spec);
                }
            },
            Instruction::Mov { dst, src } => self.mov(bus, dst, src),
            Instruction::Mvi { dst } => self.mvi(bus, dst),
            Instruction::Lxi { rp } => self.lxi(bus, rp),
            Instruction::Stax { rp } => self.stax(bus, rp),
            Instruction::Ldax { rp } => self.ldax(bus, rp),
            Instruction::Sta => self.sta(bus),
            Instruction::Lda => self.lda(bus),
            Instruction::Shld => self.shld(bus),
            Instruction::Lhld => self.lhld(bus),
            Instruction::Xchg => {
                self.xchg();
                assert(machine(*self, *bus) == exec_spec(machine(*old(self), *old(bus)), inst)) by {
                    reveal(exec_spec);
                }
            },
            Instruction::Push { rp } => self.push(bus, rp),
            Instruction::Pop { rp } => self.pop(bus, rp),
            Instruction::Xthl => self.xthl(bus),
            Instruction::Sphl => {
                self.sphl();
                assert(machine(*self, *bus) == exec_spec(machine(*old(self), *old(bus)), inst)) by {
                    reveal(exec_spec);
                }
            },
            Instruction::Pchl => {
                self.pchl();
                assert(machine(*self, *bus) == exec_spec(machine(*old(self), *old(bus)), inst)) by {
                    reveal(exec_spec);
                }
            },
            Instruction::Inx { rp } => {
                self.inx(rp);
                assert(machine(*self, *bus) == exec_spec(machine(*old(self), *old(bus)), inst)) by {
                    reveal(exec_spec);
                }
            },
            Instruction::Dcx { rp } => {
                self.dcx(rp);
                assert(machine(*self, *bus) == exec_spec(machine(*old(self), *old(bus)), inst)) by {
                    reveal(exec_spec);
                }
            },
            Instruction::Dad { rp } => {
                self.dad(rp);
                assert(machine(*self, *bus) == exec_spec(machine(*old(self), *old(bus)), inst)) by {
                    reveal(exec_spec);
                }
            },
            Instruction::Inr { r } => self.inr(bus, r),
            Instruction::Dcr { r } => self.dcr(bus, r),
            Instruction::Jmp { cond } => self.jump(bus, cond),
            Instruction::Call { cond } => self.call(bus, cond),
            Instruction::Ret { cond } => self.ret(bus, cond),
            Instruction::Rst { n } => self.rst(bus, n),
            Instruction::In => self.io_in(bus),
            Instruction::Out => self.io_out(bus),
            Instruction::Alu { op, src } => {
                let v = self.get_reg(bus, src);
                self.alu(op, v);
                assert(machine(*self, *bus) == exec_spec(machine(*old(self), *old(bus)), inst)) by {
                    reveal(exec_spec);
                }
            },
            Instruction::AluImm { op } => {
                let v = self.fetch8(bus);
                self.alu(op, v);
                assert(machine(*self, *bus) == exec_spec(machine(*old(self), *old(bus)), inst)) by {
                    reveal(exec_spec);
                }
            },
            Instruction::Rlc => {
                self.rotate(inst);
                assert(machine(*self, *bus) == exec_spec(machine(*old(self), *old(bus)), inst)) by {
                    reveal(exec_spec);
                }
            },
            Instruction::Rrc => {
                self.rotate(inst);
                assert(machine(*self, *bus) == exec_spec(machine(*old(self), *old(bus)), inst)) by {
                    reveal(exec_spec);
                }
            },
            Instruction::Ral => {
                self.rotate(inst);
                assert(machine(*self, *bus) == exec_spec(machine(*old(self), *old(bus)), inst)) by {
                    reveal(exec_spec);
                }
            },
            Instruction::Rar => {
                self.rotate(inst);
                assert(machine(*self, *bus) == exec_spec(machine(*old(self), *old(bus)), inst)) by {
                    reveal(exec_spec);
                }
            },
            Instruction::Cma => {
                self.cma();
                assert(machine(*self, *bus) == exec_spec(machine(*old(self), *old(bus)), inst)) by {
                    reveal(exec_spec);
                }
            },
            Instruction::Stc => {
                self.stc();
                assert(machine(*self, *bus) == exec_spec(machine(*old(self), *old(bus)), inst)) by {
                    reveal(exec_spec);
                }
            },
            Instruction::Cmc => {
                self.cmc();
                assert(machine(*self, *bus) == exec_spec(machine(*old(self), *old(bus)), inst)) by {
                    reveal(exec_spec);
                }
            },
            Instruction::Daa => {
                self.daa();
                assert(machine(*self, *bus) == exec_spec(machine(*old(self), *old(bus)), inst)) by {
                    reveal(exec_spec);
                }
            },
        }
    }

    fn nop(&self) {
    }

    fn mov(&mut self, bus: &mut Bus, dst: u8, src: u8)
        requires
            old(bus).wf(),
            dst < 8,
            src < 8,
        ensures
            final(bus).wf(),
            machine(*final(self), *final(bus)) == exec_spec(
                machine(*old(self), *old(bus)),
                Instruction::Mov { dst, src },
            ),
    {
        proof {
            reveal(exec_spec);
        }
        let value = self.get_reg(bus, src);
        self.set_reg(bus, dst, value);
    }

    fn mvi(&mut self, bus: &mut Bus, dst: u8)
        requires
            old(bus).wf(),
            dst < 8,
        ensures
            final(bus).wf(),
            machine(*final(self), *final(bus)) == exec_spec(
                machine(*old(self), *old(bus)),
                Instruction::Mvi { dst },
            ),
    {
        proof {
            reveal(exec_spec);
        }
        let value = self.fetch8(bus);
        self.set_reg(bus, dst, value);
    }

    fn lxi(&mut self, bus: &mut Bus, rp: u8)
        requires
            old(bus).wf(),
            rp < 4,
        ensures
            *final(bus) == *old(bus),
            machine(*final(self), *final(bus)) == exec_spec(
                machine(*old(self), *old(bus)),
                Instruction::Lxi { rp },
            ),
    {
        proof {
            reveal(exec_spec);
        }
        let value = self.fetch16(bus);
        self.set_reg_pair(rp, value);
    }

    fn stax(&mut self, bus: &mut Bus, rp: u8)
        requires
            old(bus).wf(),
            rp < 2,
        ensures
            final(bus).wf(),
            machine(*final(self), *final(bus)) == exec_spec(
                machine(*old(self), *old(bus)),
                Instruction::Stax { rp },
            ),
    {
        proof {
            reveal(exec_spec);
        }
        let addr = self.get_reg_pair(rp);
        bus.mem_set8(addr, self.a);
    }

    fn ldax(&mut self, bus: &mut Bus, rp: u8)
        requires
            old(bus).wf(),
            rp < 2,
        ensures
            *final(bus) == *old(bus),
            machine(*final(self), *final(bus)) == exec_spec(
                machine(*old(self), *old(bus)),
                Instruction::Ldax { rp },
            ),
    {
        proof {
            reveal(exec_spec);
        }
        let addr = self.get_reg_pair(rp);
        self.a = bus.mem_get8(addr);
    }

    fn sta(&mut self, bus: &mut Bus)
        requires
            old(bus).wf(),
        ensures
            final(bus).wf(),
            machine(*final(self), *final(bus)) == exec_spec(
                machine(*old(self), *old(bus)),
                Instruction::Sta,
            ),
    {
        proof {
            reveal(exec_spec);
        }
        let addr = self.fetch16(bus);
        bus.mem_set8(addr, self.a);
    }

    fn lda(&mut self, bus: &mut Bus)
        requires
            old(bus).wf(),
        ensures
            *final(bus) == *old(bus),
            machine(*final(self), *final(bus)) == exec_spec(
                machine(*old(self), *old(bus)),
                Instruction::Lda,
            ),
    {
        proof {
            reveal(exec_spec);
        }
        let addr = self.fetch16(bus);
        self.a = bus.mem_get8(addr);
    }

    fn shld(&mut self, bus: &mut Bus)
        requires
            old(bus).wf(),
        ensures
            final(bus).wf(),
            machine(*final(self), *final(bus)) == exec_spec(
                machine(*old(self), *old(bus)),
                Instruction::Shld,
            ),
    {
        proof {
            reveal(exec_spec);
        }
        let addr = self.fetch16(bus);
        let value = self.get_reg_pair(2);
        bus.mem_set16_reverse(addr, value);
    }

    fn lhld(&mut self, bus: &mut Bus)
        requires
            old(bus).wf(),
        ensures
            *final(bus) == *old(bus),
            machine(*final(self), *final(bus)) == exec_spec(
                machine(*old(self), *old(bus)),
                Instruction::Lhld,
            ),
    {
        proof {
            reveal(exec_spec);
        }
        let addr = self.fetch16(bus);
        let value = bus.mem_get16_reverse(addr);
        self.set_reg_pair(2, value);
    }

    fn xchg(&mut self)
        ensures
            final(self)@ == (Regs { d: old(self)@.h, e: old(self)@.l, h: old(self)@.d, l: old(self)@.e, ..old(self)@ }),
    {
        let h = self.h;
        let l = self.l;
        self.h = self.d;
        self.l = self.e;
        self.d = h;
        self.e = l;
    }

    /// The flags packed into a byte: CY bit 0, P bit 2, AC bit 4, Z bit 6, S bit 7.
    fn flags_byte(&self) -> (r: u8)
        ensures
            r == flags_byte(self@),
    {
        let mut flags: u8 = 0;
        if self.cy {
            flags = flags + 1;
        }
        if self.p {
            flags = flags + 4;
        }
        if self.ac {
            flags = flags + 16;
        }
        if self.z {
            flags = flags + 64;
        }
        if self.s {
            flags = flags + 128;
        }
        flags
    }

    fn push(&mut self, bus: &mut Bus, rp: u8)
        requires
            old(bus).wf(),
            rp < 4,
        ensures
            final(bus).wf(),
            machine(*final(self), *final(bus)) == exec_spec(
                machine(*old(self), *old(bus)),
                Instruction::Push { rp },
            ),
    {
        proof {
            reveal(exec_spec);
        }
        let (hi, lo) = match rp {
            0 => (self.b, self.c),
            1 => (self.d, self.e),
            2 => (self.h, self.l),
            _ => (self.a, self.flags_byte()),
        };
        self.sp = self.sp.wrapping_sub(1);
        bus.mem_set8(self.sp, hi);
        self.sp = self.sp.wrapping_sub(1);
        bus.mem_set8(self.sp, lo);
    }

    fn pop(&mut self, bus: &mut Bus, rp: u8)
        requires
            old(bus).wf(),
            rp < 4,
        ensures
            *final(bus) == *old(bus),
            machine(*final(self), *final(bus)) == exec_spec(
                machine(*old(self), *old(bus)),
                Instruction::Pop { rp },
            ),
    {
        proof {
            reveal(exec_spec);
        }
        let lo = bus.mem_get8(self.sp);
        let hi = bus.mem_get8(self.sp.wrapping_add(1));
        self.sp = self.sp.wrapping_add(2);
        match rp {
            0 => {
                self.b = hi;
                self.c = lo;
            },
            1 => {
                self.d = hi;
                self.e = lo;
            },
            2 => {
                self.h = hi;
                self.l = lo;
            },
            _ => {
                self.cy = lo % 2 == 1;
                self.p = lo / 4 % 2 == 1;
                self.ac = lo / 16 % 2 == 1;
                self.z = lo / 64 % 2 == 1;
                self.s = lo / 128 % 2 == 1;
                self.a = hi;
            },
        }
    }

    fn xthl(&mut self, bus: &mut Bus)
        requires
            old(bus).wf(),
        ensures
            final(bus).wf(),
            machine(*final(self), *final(bus)) == exec_spec(
                machine(*old(self), *old(bus)),
                Instruction::Xthl,
            ),
    {
        proof {
            reveal(exec_spec);
        }
        let top = self.sp.wrapping_add(1);
        let tmp_l = bus.mem_get8(self.sp);
        let tmp_h = bus.mem_get8(top);
        bus.mem_set8(self.sp, self.l);
        bus.mem_set8(top, self.h);
        self.l = tmp_l;
        self.h = tmp_h;
    }

    fn sphl(&mut self)
        ensures
            final(self)@ == (Regs { sp: hl_of(old(self)@), ..old(self)@ }),
    {
        self.sp = self.get_reg_pair(2);
    }

    fn pchl(&mut self)
        ensures
            final(self)@ == (Regs { pc: hl_of(old(self)@), ..old(self)@ }),
    {
        self.pc = self.get_reg_pair(2);
    }

    fn inx(&mut self, rp: u8)
        requires
            rp < 4,
        ensures
            final(self)@ == set_pair_spec(old(self)@, rp, adv(pair_spec(old(self)@, rp), 1)),
    {
        let value = self.get_reg_pair(rp);
        self.set_reg_pair(rp, value.wrapping_add(1));
    }

    fn dcx(&mut self, rp: u8)
        requires
            rp < 4,
        ensures
            final(self)@ == set_pair_spec(old(self)@, rp, dec16(pair_spec(old(self)@, rp))),
    {
        let value = self.get_reg_pair(rp);
        self.set_reg_pair(rp, value.wrapping_sub(1));
    }

    fn dad(&mut self, rp: u8)
        requires
            rp < 4,
        ensures
            ({
                let r = old(self)@;
                let sum = hl_of(r) + pair_spec(r, rp);
                final(self)@ == (Regs { cy: sum > 0xFFFF, ..set_pair_spec(r, 2, (sum % 0x10000) as u16) })
            }),
    {
        let value = self.get_reg_pair(rp) as u32;
        let hl = self.get_reg_pair(2) as u32;
        let sum = hl + value;
        self.set_reg_pair(2, (sum % 0x10000) as u16);
        self.cy = sum > 0xFFFF;
    }

    fn inr(&mut self, bus: &mut Bus, r: u8)
        requires
            old(bus).wf(),
            r < 8,
        ensures
            final(bus).wf(),
            machine(*final(self), *final(bus)) == exec_spec(
                machine(*old(self), *old(bus)),
                Instruction::Inr { r },
            ),
    {
        proof {
            reveal(exec_spec);
        }
        let old = self.get_reg(bus, r);
        let new = old.wrapping_add(1);
        self.set_reg(bus, r, new);
        self.update_szp(new);
        self.ac = old % 16 == 15;
    }

    fn dcr(&mut self, bus: &mut Bus, r: u8)
        requires
            old(bus).wf(),
            r < 8,
        ensures
            final(bus).wf(),
            machine(*final(self), *final(bus)) == exec_spec(
                machine(*old(self), *old(bus)),
                Instruction::Dcr { r },
            ),
    {
        proof {
            reveal(exec_spec);
        }
        let old = self.get_reg(bus, r);
        let new = old.wrapping_sub(1);
        self.set_reg(bus, r, new);
        self.update_szp(new);
        self.ac = old % 16 == 0;
    }

    /// Whether a branch with this condition is taken.
    fn condition(&self, cond: Option<Cond>) -> (r: bool)
        ensures
            r == taken(self@, cond),
    {
        match cond {
            None => true,
            Some(Cond::NotZero) => !self.z,
            Some(Cond::Zero) => self.z,
            Some(Cond::NoCarry) => !self.cy,
            Some(Cond::Carry) => self.cy,
            Some(Cond::ParityOdd) => !self.p,
            Some(Cond::ParityEven) => self.p,
            Some(Cond::Plus) => !self.s,
            Some(Cond::Minus) => self.s,
        }
    }

    fn jump(&mut self, bus: &mut Bus, cond: Option<Cond>)
        requires
            old(bus).wf(),
        ensures
            *final(bus) == *old(bus),
            machine(*final(self), *final(bus)) == exec_spec(
                machine(*old(self), *old(bus)),
                Instruction::Jmp { cond },
            ),
    {
        proof {
            reveal(exec_spec);
        }
        let target = self.fetch16(bus);
        if self.condition(cond) {
            self.pc = target;
        }
    }

    fn call(&mut self, bus: &mut Bus, cond: Option<Cond>)
        requires
            old(bus).wf(),
        ensures
            final(bus).wf(),
            machine(*final(self), *final(bus)) == exec_spec(
                machine(*old(self), *old(bus)),
                Instruction::Call { cond },
            ),
    {
        proof {
            reveal(exec_spec);
        }
        let target = self.fetch16(bus);
        if self.condition(cond) {
            let ret = self.pc;
            self.sp = self.sp.wrapping_sub(2);
            bus.mem_set16_reverse(self.sp, ret);
            self.pc = target;
        }
    }

    fn ret(&mut self, bus: &mut Bus, cond: Option<Cond>)
        requires
            old(bus).wf(),
        ensures
            *final(bus) == *old(bus),
            machine(*final(self), *final(bus)) == exec_spec(
                machine(*old(self), *old(bus)),
                Instruction::Ret { cond },
            ),
    {
        proof {
            reveal(exec_spec);
        }
        if self.condition(cond) {
            self.pc = bus.mem_get16_reverse(self.sp);
            self.sp = self.sp.wrapping_add(2);
        }
    }

    fn rst(&mut self, bus: &mut Bus, n: u8)
        requires
            old(bus).wf(),
            n < 8,
        ensures
            final(bus).wf(),
            machine(*final(self), *final(bus)) == exec_spec(
                machine(*old(self), *old(bus)),
                Instruction::Rst { n },
            ),
    {
        proof {
            reveal(exec_spec);
        }
        let ret = self.pc;
        self.sp = self.sp.wrapping_sub(2);
        bus.mem_set16_reverse(self.sp, ret);
        self.pc = n as u16 * 8;
    }

    fn io_in(&mut self, bus: &mut Bus)
        requires
            old(bus).wf(),
        ensures
            *final(bus) == *old(bus),
            machine(*final(self), *final(bus)) == exec_spec(
                machine(*old(self), *old(bus)),
                Instruction::In,
            ),
    {
        proof {
            reveal(exec_spec);
        }
        let port = self.fetch8(bus);
        self.a = bus.io_get8(port);
    }

    fn io_out(&mut self, bus: &mut Bus)
        requires
            old(bus).wf(),
        ensures
            final(bus).wf(),
            machine(*final(self), *final(bus)) == exec_spec(
                machine(*old(self), *old(bus)),
                Instruction::Out,
            ),
    {
        proof {
            reveal(exec_spec);
        }
        let port = self.fetch8(bus);
        bus.io_set8(port, self.a);
    }

    /// An accumulator operation with operand `value`.
    fn alu(&mut self, op: AluOp, value: u8)
        ensures
            final(self)@ == alu_spec(old(self)@, op, value),
    {
        match op {
            AluOp::Add => self.add(value, false),
            AluOp::Adc => {
                let carry = self.cy;
                self.add(value, carry);
            },
            AluOp::Sub => self.sub(value, false),
            AluOp::Sbb => {
                let borrow = self.cy;
                self.sub(value, borrow);
            },
            AluOp::Ana => self.ana(value),
            AluOp::Xra => self.xra(value),
            AluOp::Ora => self.ora(value),
            AluOp::Cmp => self.cmp(value),
        }
    }

    /// `A + value + carry_in`, with all five flags.
    fn add(&mut self, value: u8, carry_in: bool)
        ensures
            final(self)@ == add_spec(old(self)@, value, carry_in),
    {
        let cin: u16 = if carry_in { 1 } else { 0 };
        let prev = self.a;
        let sum: u16 = prev as u16 + value as u16 + cin;
        let res = (sum % 256) as u8;
        self.update_szp(res);
        self.a = res;
        self.cy = sum > 255;
        self.ac = (prev % 16) as u16 + (value % 16) as u16 + cin > 15;
    }

    /// Flags of `A - value - borrow_in`; the accumulator is left alone.
    fn cmp_with(&mut self, value: u8, borrow_in: bool) -> (r: u8)
        ensures
            final(self)@ == sub_flags(old(self)@, value, borrow_in),
            r as int == (old(self)@.a - value - b2i(borrow_in) + 256) % 256,
    {
        let bin: u16 = if borrow_in { 1 } else { 0 };
        let a = self.a as u16;
        let taken = value as u16 + bin;
        let res = ((a + 256 - taken) % 256) as u8;
        self.update_szp(res);
        self.cy = a < taken;
        self.ac = a % 16 < value as u16 % 16 + bin;
        res
    }

    /// `A - value - borrow_in`, with all five flags.
    fn sub(&mut self, value: u8, borrow_in: bool)
        ensures
            final(self)@ == sub_spec(old(self)@, value, borrow_in),
    {
        self.a = self.cmp_with(value, borrow_in);
    }

    /// Flags of `A - value`.
    fn cmp(&mut self, value: u8)
        ensures
            final(self)@ == sub_flags(old(self)@, value, false),
    {
        self.cmp_with(value, false);
    }

    fn ana(&mut self, value: u8)
        ensures
            final(self)@ == alu_spec(old(self)@, AluOp::Ana, value),
    {
        self.a = self.a & value;
        self.update_szp(self.a);
        self.cy = false;
        self.ac = true;
    }

    fn xra(&mut self, value: u8)
        ensures
            final(self)@ == alu_spec(old(self)@, AluOp::Xra, value),
    {
        self.a = self.a ^ value;
        self.update_szp(self.a);
        self.cy = false;
        self.ac = false;
    }

    fn ora(&mut self, value: u8)
        ensures
            final(self)@ == alu_spec(old(self)@, AluOp::Ora, value),
    {
        self.a = self.a | value;
        self.update_szp(self.a);
        self.cy = false;
        self.ac = false;
    }

    /// RLC, RRC, RAL or RAR.
    fn rotate(&mut self, inst: Instruction)
        requires
            inst is Rlc || inst is Rrc || inst is Ral || inst is Rar,
        ensures
            final(self)@ == rotate_spec(old(self)@, inst),
    {
        let a = self.a;
        match inst {
            Instruction::Rlc => {
                self.a = (a % 128) * 2 + a / 128;
                self.cy = a / 128 == 1;
            },
            Instruction::Rrc => {
                self.a = a / 2 + (a % 2) * 128;
                self.cy = a % 2 == 1;
            },
            Instruction::Ral => {
                self.a = (a % 128) * 2 + if self.cy { 1 } else { 0 };
                self.cy = a / 128 == 1;
            },
            _ => {
                self.a = a / 2 + if self.cy { 128 } else { 0 };
                self.cy = a % 2 == 1;
            },
        }
    }

    fn cma(&mut self)
        ensures
            final(self)@ == (Regs { a: (255 - old(self)@.a) as u8, ..old(self)@ }),
    {
        self.a = 255 - self.a;
    }

    fn stc(&mut self)
        ensures
            final(self)@ == (Regs { cy: true, ..old(self)@ }),
    {
        self.cy = true;
    }

    fn cmc(&mut self)
        ensures
            final(self)@ == (Regs { cy: !old(self)@.cy, ..old(self)@ }),
    {
        self.cy = !self.cy;
    }

    fn daa(&mut self)
        ensures
            final(self)@ == daa_spec(old(self)@),
    {
        let prev = self.a as u16;
        let lo = prev % 16;
        let low_fix = lo > 9 || self.ac;
        let a1: u16 = if low_fix { (prev + 6) % 256 } else { prev };
        let ac = low_fix && lo + 6 > 15;
        let cy1 = self.cy || (low_fix && prev + 6 > 255);
        let high_fix = a1 / 16 > 9 || cy1;
        let a2 = (if high_fix { (a1 + 0x60) % 256 } else { a1 }) as u8;
        self.update_szp(a2);
        self.a = a2;
        self.ac = ac;
        self.cy = cy1 || high_fix;
    }
}

} // verus!
