pub mod assembler;
pub mod bus;
pub mod changes;
pub mod cpu;
pub mod utils;

use vstd::prelude::*;
use crate::bus::io::{Io, PORT_SPACE, apply_port_entries, port_diff_entries, lemma_apply_port_diff};
use crate::bus::mem::{Memory, MEM_SPACE, apply_entries, diff_entries, lemma_apply_diff};
use crate::assembler::{AssemblerError, ErrorKind, result_view};
use crate::assembler::lexer::{tokenize, tokenize_spec};
use crate::assembler::parser::{parse, parse_spec};
use crate::bus::{Bus, ORIGIN};
use crate::changes::{Changes, Regs};
use crate::cpu::semantics::{ExecError, Machine, machine_wf, step_spec};
use crate::cpu::{CPU, Flag, flag_spec, initial_regs, machine};
use crate::cpu::laws::lemma_step_wf;

verus! {

/// A processor together with the bus it drives.
pub struct Simulator {
    cpu: CPU,
    bus: Bus,
}

impl View for Simulator {
    type V = Machine;

    closed spec fn view(&self) -> Machine {
        machine(self.cpu, self.bus)
    }
}

/// The machine after writing back the registers and entries of an undo record.
pub open spec fn restore_spec(
    m: Machine,
    regs: Regs,
    memory: Seq<(u16, u8)>,
    io: Seq<(u8, u8)>,
) -> Machine {
    Machine { regs, mem: apply_entries(m.mem, memory), io: apply_port_entries(m.io, io) }
}

impl Simulator {
    pub open spec fn wf(&self) -> bool {
        machine_wf(self@)
    }

    /// Power-on state: PC at the code origin, all else zero.
    pub fn new() -> (r: Simulator)
        ensures
            r.wf(),
            r@.regs == initial_regs(),
            forall|a: int| 0 <= a < r@.mem.len() ==> r@.mem[a] == 0,
            forall|a: int| 0 <= a < r@.io.len() ==> r@.io[a] == 0,
    {
        Simulator { cpu: CPU::new(), bus: Bus::new() }
    }

    /// Power-on state with `code` loaded at the code origin; `None` when the
    /// code does not fit between the origin and the end of memory.
    pub fn from_program(code: &Vec<u8>) -> (r: Option<Simulator>)
        ensures
            r is Some <==> code@.len() <= MEM_SPACE - ORIGIN,
            r matches Some(sim) ==> {
                &&& sim.wf()
                &&& sim@.regs == initial_regs()
                &&& forall|a: int|
                    0 <= a < sim@.mem.len() ==> sim@.mem[a] == if ORIGIN <= a < ORIGIN + code@.len() {
                        code@[a - ORIGIN]
                    } else {
                        0
                    }
                &&& forall|a: int| 0 <= a < sim@.io.len() ==> sim@.io[a] == 0
            },
    {
        let mut bus = Bus::new();
        if bus.load_program(code) {
            Some(Simulator { cpu: CPU::new(), bus })
        } else {
            None
        }
    }

    /// Power-on registers with memory taken from a raw image of the address
    /// space; `None` when the image is shorter than the address space.
    pub fn from_memory_image(image: &Vec<u8>) -> (r: Option<Simulator>)
        ensures
            r is Some <==> image@.len() >= MEM_SPACE,
            r matches Some(sim) ==> {
                &&& sim.wf()
                &&& sim@.regs == initial_regs()
                &&& sim@.mem == image@.subrange(0, MEM_SPACE as int).push(0)
                &&& forall|a: int| 0 <= a < sim@.io.len() ==> sim@.io[a] == 0
            },
    {
        let mut bus = Bus::new();
        if bus.mem_read_dump(image) {
            Some(Simulator { cpu: CPU::new(), bus })
        } else {
            None
        }
    }

    /// Runs one step: `Ok(true)` to go on, `Ok(false)` once halted, or the
    /// error for a byte that is no opcode.
    pub fn execute(&mut self) -> (r: Result<bool, ExecError>)
        requires
            old(self).wf(),
        ensures
            final(self).wf(),
            (final(self)@, r) == step_spec(old(self)@),
    {
        self.cpu.execute(&mut self.bus)
    }

    pub fn get_pc(&self) -> (r: u16)
        ensures
            r == self@.regs.pc,
    {
        self.cpu.get_pc()
    }

    pub fn set_pc(&mut self, val: u16)
        ensures
            final(self)@ == (Machine { regs: Regs { pc: val, ..old(self)@.regs }, ..old(self)@ }),
    {
        self.cpu.set_pc(val);
    }

    pub fn get_sp(&self) -> (r: u16)
        ensures
            r == self@.regs.sp,
    {
        self.cpu.get_sp()
    }

    pub fn set_sp(&mut self, val: u16)
        ensures
            final(self)@ == (Machine { regs: Regs { sp: val, ..old(self)@.regs }, ..old(self)@ }),
    {
        self.cpu.set_sp(val);
    }

    /// The register with 3-bit code `target` (B, C, D, E, H, L, the byte at
    /// HL, A).
    pub fn cpu_get_reg(&self, target: u8) -> (r: u8)
        requires
            self.wf(),
            target < 8,
        ensures
            r == crate::cpu::semantics::reg_spec(self@, target),
    {
        self.cpu.get_reg(&self.bus, target)
    }

    /// The register pair with 2-bit code `target` (BC, DE, HL, SP).
    pub fn cpu_get_reg_pair(&self, target: u8) -> (r: u16)
        requires
            target < 4,
        ensures
            r == crate::cpu::semantics::pair_spec(self@.regs, target),
    {
        self.cpu.get_reg_pair(target)
    }

    pub fn cpu_get_flag(&self, flag: Flag) -> (r: bool)
        ensures
            r == flag_spec(self@.regs, flag),
    {
        self.cpu.get_flag(flag)
    }

    /// All registers and flags.
    pub fn cpu_regs(&self) -> (r: Regs)
        ensures
            r == self@.regs,
    {
        self.cpu.regs()
    }

    /// Copies of the processor, memory and ports, to diff against later.
    pub fn clone_cpu_bus(&self) -> (r: (CPU, Memory, Io))
        ensures
            r.0@ == self@.regs,
            r.1@ == self@.mem,
            r.2@ == self@.io,
    {
        (self.cpu.clone_regs(), self.bus.mem_clone(), self.bus.io_clone())
    }

    /// The record that undoes everything since `cpu_old`, `mem_old` and
    /// `io_old` were taken: their registers, and the memory and port bytes
    /// that differ now, each with its earlier value.
    pub fn get_changes(&self, cpu_old: CPU, mem_old: Memory, io_old: Io) -> (r: Changes)
        requires
            self.wf(),
            mem_old.wf(),
            io_old.wf(),
        ensures
            r.cpu == cpu_old@,
            r.memory@ == diff_entries(self@.mem, mem_old@, MEM_SPACE as nat),
            r.io@ == port_diff_entries(self@.io, io_old@, PORT_SPACE as nat),
    {
        Changes {
            cpu: self.cpu.diff(cpu_old),
            memory: self.bus.mem_diff(mem_old),
            io: self.bus.io_diff(io_old),
        }
    }

    pub fn mem_get8(&self, pos: u16) -> (r: u8)
        requires
            self.wf(),
        ensures
            r == self@.mem[pos as int],
    {
        self.bus.mem_get8(pos)
    }

    pub fn io_get8(&self, port: u8) -> (r: u8)
        requires
            self.wf(),
        ensures
            r == self@.io[port as int],
    {
        self.bus.io_get8(port)
    }

    /// Writes back an undo record.
    pub fn restore(&mut self, changes: &Changes)
        requires
            old(self).wf(),
        ensures
            final(self).wf(),
            final(self)@ == restore_spec(old(self)@, changes.cpu, changes.memory@, changes.io@),
    {
        self.cpu.restore(&mut self.bus, changes);
    }
}

/// The machine code of a source text: its tokens assembled, or the first
/// error of either step.
pub open spec fn assemble_spec(source: Seq<char>) -> Result<Seq<u8>, ErrorKind> {
    match tokenize_spec(source) {
        Ok(toks) => parse_spec(toks),
        Err(e) => Err(e),
    }
}

/// Assembles a source text into machine code to be loaded at the code origin.
pub fn assemble(source: &str) -> (r: Result<Vec<u8>, AssemblerError>)
    requires
        source@.len() < usize::MAX,
    ensures
        result_view(r, |v: Vec<u8>| v@) == assemble_spec(source@),
{
    match tokenize(source) {
        Ok(tokens) => parse(&tokens),
        Err(e) => Err(e),
    }
}

/// Taking the undo record between an earlier and a later state and writing it
/// back into the later state gives the earlier state, byte for byte.
pub proof fn law_changes_restore(before: Machine, after: Machine)
    requires
        machine_wf(before),
        machine_wf(after),
    ensures
        restore_spec(
            after,
            before.regs,
            diff_entries(after.mem, before.mem, MEM_SPACE as nat),
            port_diff_entries(after.io, before.io, PORT_SPACE as nat),
        ) == before,
{
    lemma_apply_diff(after.mem, before.mem, MEM_SPACE as nat);
    lemma_apply_port_diff(after.io, before.io, PORT_SPACE as nat);
    let r = restore_spec(
        after,
        before.regs,
        diff_entries(after.mem, before.mem, MEM_SPACE as nat),
        port_diff_entries(after.io, before.io, PORT_SPACE as nat),
    );
    assert(r.mem =~= before.mem);
    assert(r.io =~= before.io);
}


/// The undo record of one step, from the state before it to the state after.
pub open spec fn undo_record(before: Machine, after: Machine) -> (Regs, Seq<(u16, u8)>, Seq<(u8, u8)>) {
    (
        before.regs,
        diff_entries(after.mem, before.mem, MEM_SPACE as nat),
        port_diff_entries(after.io, before.io, PORT_SPACE as nat),
    )
}

pub open spec fn restore_record(m: Machine, rec: (Regs, Seq<(u16, u8)>, Seq<(u8, u8)>)) -> Machine {
    restore_spec(m, rec.0, rec.1, rec.2)
}

/// Two steps, each with its undo record taken: writing back the second record
/// and then the first gives the state before both steps, byte for byte.
pub proof fn law_two_steps_undone(m0: Machine)
    requires
        machine_wf(m0),
    ensures
        ({
            let m1 = step_spec(m0).0;
            let m2 = step_spec(m1).0;
            restore_record(restore_record(m2, undo_record(m1, m2)), undo_record(m0, m1)) == m0
        }),
{
    let m1 = step_spec(m0).0;
    let m2 = step_spec(m1).0;
    lemma_step_wf(m0);
    lemma_step_wf(m1);
    law_changes_restore(m1, m2);
    law_changes_restore(m0, m1);
}

} // verus!
