pub mod decode;
pub mod laws;
mod instructions;
pub mod semantics;

use vstd::prelude::*;
use crate::bus::{Bus, ORIGIN};
use crate::changes::{Changes, Regs};
use crate::cpu::decode::decode;
use crate::cpu::semantics::{
    ExecError, Instruction, Machine, HALT_BOUNDARY, adv, even_parity, imm16_spec, imm8_spec, ones,
    pair_spec, reg_spec, set_pair_spec, set_reg_spec, step_spec, szp,
};

verus! {

/// The processor's registers and flags.
#[derive(Debug, Clone)]
pub struct CPU {
    a: u8,
    b: u8,
    c: u8,
    d: u8,
    e: u8,
    h: u8,
    l: u8,
    sp: u16,
    pc: u16,
    s: bool,
    z: bool,
    ac: bool,
    p: bool,
    cy: bool,
}

impl View for CPU {
    type V = Regs;

    closed spec fn view(&self) -> Regs {
        Regs {
            a: self.a,
            b: self.b,
            c: self.c,
            d: self.d,
            e: self.e,
            h: self.h,
            l: self.l,
            pc: self.pc,
            sp: self.sp,
            z: self.z,
            s: self.s,
            ac: self.ac,
            cy: self.cy,
            p: self.p,
        }
    }
}

/// The processor and bus seen together as one machine state.
pub open spec fn machine(cpu: CPU, bus: Bus) -> Machine {
    Machine { regs: cpu@, mem: bus.mem_view(), io: bus.io_view() }
}

/// The five flags.
#[derive(Debug, Clone, Copy, PartialEq, Eq, Structural)]
pub enum Flag {
    Sign,
    Zero,
    AuxCarry,
    Parity,
    Carry,
}

pub open spec fn flag_spec(r: Regs, f: Flag) -> bool {
    match f {
        Flag::Sign => r.s,
        Flag::Zero => r.z,
        Flag::AuxCarry => r.ac,
        Flag::Parity => r.p,
        Flag::Carry => r.cy,
    }
}

/// The registers at power-on: the program counter at the code origin, every
/// other register zero and every flag clear.
pub open spec fn initial_regs() -> Regs {
    Regs {
        a: 0,
        b: 0,
        c: 0,
        d: 0,
        e: 0,
        h: 0,
        l: 0,
        pc: ORIGIN,
        sp: 0,
        z: false,
        s: false,
        ac: false,
        cy: false,
        p: false,
    }
}

impl CPU {
    /// A processor at power-on: the program counter at the code origin,
    /// everything else zero or clear.
    pub fn new() -> (r: CPU)
        ensures
            r@ == initial_regs(),
    {
        CPU {
            a: 0,
            b: 0,
            c: 0,
            d: 0,
            e: 0,
            h: 0,
            l: 0,
            sp: 0,
            pc: ORIGIN,
            s: false,
            z: false,
            ac: false,
            p: false,
            cy: false,
        }
    }

    /// A processor holding the given registers and flags.
    pub fn from_regs(r: Regs) -> (cpu: CPU)
        ensures
            cpu@ == r,
    {
        CPU {
            a: r.a,
            b: r.b,
            c: r.c,
            d: r.d,
            e: r.e,
            h: r.h,
            l: r.l,
            sp: r.sp,
            pc: r.pc,
            s: r.s,
            z: r.z,
            ac: r.ac,
            p: r.p,
            cy: r.cy,
        }
    }

    /// An independent copy.
    pub fn clone_regs(&self) -> (r: CPU)
        ensures
            r@ == self@,
    {
        CPU::from_regs(self.regs())
    }

    /// A copy of all registers and flags.
    pub fn regs(&self) -> (r: Regs)
        ensures
            r == self@,
    {
        Regs {
            a: self.a,
            b: self.b,
            c: self.c,
            d: self.d,
            e: self.e,
            h: self.h,
            l: self.l,
            pc: self.pc,
            sp: self.sp,
            z: self.z,
            s: self.s,
            ac: self.ac,
            cy: self.cy,
            p: self.p,
        }
    }

    pub fn set_pc(&mut self, val: u16)
        ensures
            final(self)@ == (Regs { pc: val, ..old(self)@ }),
    {
        self.pc = val;
    }

    pub fn get_pc(&self) -> (r: u16)
        ensures
            r == self@.pc,
    {
        self.pc
    }

    pub fn set_sp(&mut self, val: u16)
        ensures
            final(self)@ == (Regs { sp: val, ..old(self)@ }),
    {
        self.sp = val;
    }

    pub fn get_sp(&self) -> (r: u16)
        ensures
            r == self@.sp,
    {
        self.sp
    }

    pub fn get_flag(&self, flag: Flag) -> (r: bool)
        ensures
            r == flag_spec(self@, flag),
    {
        match flag {
            Flag::Sign => self.s,
            Flag::Zero => self.z,
            Flag::AuxCarry => self.ac,
            Flag::Parity => self.p,
            Flag::Carry => self.cy,
        }
    }

    /// The byte at the program counter; the program counter moves past it.
    fn fetch8(&mut self, bus: &Bus) -> (r: u8)
        requires
            bus.wf(),
        ensures
            r == imm8_spec(machine(*old(self), *bus)),
            final(self)@ == (Regs { pc: adv(old(self)@.pc, 1), ..old(self)@ }),
    {
        let v = bus.mem_get8(self.pc);
        self.pc = self.pc.wrapping_add(1);
        v
    }

    /// The 16-bit operand at the program counter, low byte first; the program
    /// counter moves past it.
    fn fetch16(&mut self, bus: &Bus) -> (r: u16)
        requires
            bus.wf(),
        ensures
            r == imm16_spec(machine(*old(self), *bus)),
            final(self)@ == (Regs { pc: adv(old(self)@.pc, 2), ..old(self)@ }),
    {
        let v = bus.mem_get16_reverse(self.pc);
        self.pc = self.pc.wrapping_add(2);
        v
    }

    /// The register with 3-bit code `target` (6 is the byte at HL).
    pub fn get_reg(&self, bus: &Bus, target: u8) -> (r: u8)
        requires
            bus.wf(),
            target < 8,
        ensures
            r == reg_spec(machine(*self, *bus), target),
    {
        match target {
            0 => self.b,
            1 => self.c,
            2 => self.d,
            3 => self.e,
            4 => self.h,
            5 => self.l,
            6 => bus.mem_get8(self.get_reg_pair(2)),
            _ => self.a,
        }
    }

    /// Stores `value` in the register with 3-bit code `target` (6 is the byte
    /// at HL).
    pub fn set_reg(&mut self, bus: &mut Bus, target: u8, value: u8)
        requires
            old(bus).wf(),
            target < 8,
        ensures
            final(bus).wf(),
            machine(*final(self), *final(bus)) == set_reg_spec(
                machine(*old(self), *old(bus)),
                target,
                value,
            ),
    {
        match target {
            0 => self.b = value,
            1 => self.c = value,
            2 => self.d = value,
            3 => self.e = value,
            4 => self.h = value,
            5 => self.l = value,
            6 => {
                let addr = self.get_reg_pair(2);
                bus.mem_set8(addr, value);
            },
            _ => self.a = value,
        }
    }

    /// Stores `value` in the register pair with 2-bit code `target` (BC, DE,
    /// HL, SP).
    pub fn set_reg_pair(&mut self, target: u8, value: u16)
        requires
            target < 4,
        ensures
            final(self)@ == set_pair_spec(old(self)@, target, value),
    {
        let hi = (value / 256) as u8;
        let lo = (value % 256) as u8;
        match target {
            0 => {
                self.b = hi;
                self.c = lo;
            },
            1 => {
                self.d = hi;
                self.e = lo;
            },
            2 => {
                self.h = hi;
                self.l = lo;
            },
            _ => self.sp = value,
        }
    }

    /// The register pair with 2-bit code `target` (BC, DE, HL, SP).
    pub fn get_reg_pair(&self, target: u8) -> (r: u16)
        requires
            target < 4,
        ensures
            r == pair_spec(self@, target),
    {
        match target {
            0 => self.b as u16 * 256 + self.c as u16,
            1 => self.d as u16 * 256 + self.e as u16,
            2 => self.h as u16 * 256 + self.l as u16,
            _ => self.sp,
        }
    }

    fn update_s(&mut self, value: u8)
        ensures
            final(self)@ == (Regs { s: value >= 0x80, ..old(self)@ }),
    {
        self.s = value > 0x7F;
    }

    fn update_z(&mut self, value: u8)
        ensures
            final(self)@ == (Regs { z: value == 0, ..old(self)@ }),
    {
        self.z = value == 0;
    }

    fn update_p(&mut self, value: u8)
        ensures
            final(self)@ == (Regs { p: even_parity(value), ..old(self)@ }),
    {
        let mut rest: u8 = value;
        let mut odd = false;
        while rest > 0
            invariant
                (ones(value as nat) % 2 == 1) == (odd != (ones(rest as nat) % 2 == 1)),
            decreases rest,
        {
            if rest % 2 == 1 {
                odd = !odd;
            }
            rest = rest / 2;
        }
        self.p = !odd;
    }

    /// Sets sign, zero and parity from `value`.
    fn update_szp(&mut self, value: u8)
        ensures
            final(self)@ == szp(old(self)@, value),
    {
        self.update_s(value);
        self.update_z(value);
        self.update_p(value);
    }

    /// The registers of `other`, which is what restores this processor to it.
    pub fn diff(&self, other: CPU) -> (r: Regs)
        ensures
            r == other@,
    {
        other.regs()
    }

    /// Undoes a step: registers from the record, memory and ports written
    /// back entry by entry.
    pub fn restore(&mut self, bus: &mut Bus, changes: &Changes)
        requires
            old(bus).wf(),
        ensures
            final(bus).wf(),
            final(self)@ == changes.cpu,
            final(bus).mem_view() == crate::bus::mem::apply_entries(
                old(bus).mem_view(),
                changes.memory@,
            ),
            final(bus).io_view() == crate::bus::io::apply_port_entries(
                old(bus).io_view(),
                changes.io@,
            ),
    {
        *self = CPU::from_regs(changes.cpu);
        bus.mem_apply(&changes.memory);
        bus.io_apply(&changes.io);
    }

    /// Runs one fetch-decode-execute step: `Ok(true)` to go on, `Ok(false)`
    /// once halted (by the halt instruction, or with the program counter at or
    /// past the halt boundary), and an error for a byte that is no opcode.
    pub fn execute(&mut self, bus: &mut Bus) -> (r: Result<bool, ExecError>)
        requires
            old(bus).wf(),
        ensures
            final(bus).wf(),
            (machine(*final(self), *final(bus)), r) == step_spec(machine(*old(self), *old(bus))),
    {
        if self.pc >= HALT_BOUNDARY {
            return Ok(false);
        }
        let address = self.pc;
        let opcode = bus.mem_get8(address);
        match decode(opcode) {
            None => Err(ExecError::UnknownOpcode { address, opcode }),
            Some(Instruction::Hlt) => {
                self.pc = address + 1;
                Ok(false)
            },
            Some(inst) => {
                self.pc = address + 1;
                self.run(bus, inst);
                Ok(true)
            },
        }
    }
}

} // verus!
