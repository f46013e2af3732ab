pub mod io;
pub mod mem;

use vstd::prelude::*;
use crate::bus::io::{Io, PORT_LEN, PORT_SPACE, port_diff_entries, apply_port_entries};
use crate::bus::mem::{
    Memory, MEM_LEN, MEM_SPACE, diff_entries, apply_entries, be16, le16, hi8, lo8,
};

verus! {

/// First address of the program segment, where assembled code is loaded.
pub const ORIGIN: u16 = 0xC000;

/// Memory and IO ports, as the processor sees them.
pub struct Bus {
    mem: Memory,
    io: Io,
}

impl Bus {
    /// The memory bytes, with the guard byte.
    pub closed spec fn mem_view(&self) -> Seq<u8> {
        self.mem@
    }

    /// The port bytes, with the guard byte.
    pub closed spec fn io_view(&self) -> Seq<u8> {
        self.io@
    }

    /// Both arrays have their full size and zero guard bytes.
    pub open spec fn wf(&self) -> bool {
        &&& self.mem_view().len() == MEM_LEN
        &&& self.mem_view()[MEM_SPACE as int] == 0
        &&& self.io_view().len() == PORT_LEN
        &&& self.io_view()[PORT_SPACE as int] == 0
    }

    /// A bus with all memory and all ports zero.
    pub fn new() -> (r: Bus)
        ensures
            r.wf(),
            forall|a: int| 0 <= a < MEM_LEN ==> r.mem_view()[a] == 0,
            forall|a: int| 0 <= a < PORT_LEN ==> r.io_view()[a] == 0,
    {
        Bus { mem: Memory::new(), io: Io::new() }
    }

    /// Copies `code` into memory from `ORIGIN` on. Returns false, changing
    /// nothing, when the code does not fit below the end of the address space.
    pub fn load_program(&mut self, code: &Vec<u8>) -> (r: bool)
        requires
            old(self).wf(),
        ensures
            final(self).wf(),
            r == (code@.len() <= MEM_SPACE - ORIGIN),
            r ==> final(self).io_view() == old(self).io_view(),
            r ==> final(self).mem_view() == old(self).mem_view().subrange(0, ORIGIN as int) + code@
                + old(self).mem_view().subrange(ORIGIN + code@.len(), MEM_LEN as int),
            !r ==> *final(self) == *old(self),
    {
        if code.len() > MEM_SPACE - ORIGIN as usize {
            return false;
        }
        let ghost before = self.mem@;
        let mut i: usize = 0;
        while i < code.len()
            invariant
                i <= code@.len() <= MEM_SPACE - ORIGIN,
                self.mem.wf(),
                self.io@ == old(self).io@,
                self.mem@.len() == before.len(),
                forall|a: int| 0 <= a < ORIGIN ==> self.mem@[a] == before[a],
                forall|a: int| 0 <= a < i ==> self.mem@[ORIGIN + a] == code@[a],
                forall|a: int| ORIGIN + i <= a < MEM_LEN ==> self.mem@[a] == before[a],
            decreases code@.len() - i,
        {
            self.mem.set8(ORIGIN + i as u16, code[i]);
            i = i + 1;
        }
        assert(self.mem@ == before.subrange(0, ORIGIN as int) + code@ + before.subrange(
            ORIGIN + code@.len(),
            MEM_LEN as int,
        ));
        true
    }

    pub fn mem_get8(&self, pos: u16) -> (r: u8)
        requires
            self.wf(),
        ensures
            r == self.mem_view()[pos as int],
    {
        self.mem.get8(pos)
    }

    pub fn mem_get16(&self, pos: u16) -> (r: u16)
        requires
            self.wf(),
        ensures
            r == be16(self.mem_view()[pos as int], self.mem_view()[pos + 1]),
    {
        self.mem.get16(pos)
    }

    pub fn mem_get16_reverse(&self, pos: u16) -> (r: u16)
        requires
            self.wf(),
        ensures
            r == le16(self.mem_view()[pos as int], self.mem_view()[pos + 1]),
    {
        self.mem.get16_reverse(pos)
    }

    pub fn mem_set8(&mut self, pos: u16, value: u8)
        requires
            old(self).wf(),
        ensures
            final(self).wf(),
            final(self).mem_view() == old(self).mem_view().update(pos as int, value),
            final(self).io_view() == old(self).io_view(),
    {
        self.mem.set8(pos, value);
    }

    pub fn mem_set16(&mut self, pos: u16, value: u16)
        requires
            old(self).wf(),
        ensures
            final(self).wf(),
            final(self).mem_view() == old(self).mem_view().update(pos as int, hi8(value)).update(
                pos + 1,
                lo8(value),
            ).update(MEM_SPACE as int, 0),
            final(self).io_view() == old(self).io_view(),
    {
        self.mem.set16(pos, value);
    }

    pub fn mem_set16_reverse(&mut self, pos: u16, value: u16)
        requires
            old(self).wf(),
        ensures
            final(self).wf(),
            final(self).mem_view() == old(self).mem_view().update(pos as int, lo8(value)).update(
                pos + 1,
                hi8(value),
            ).update(MEM_SPACE as int, 0),
            final(self).io_view() == old(self).io_view(),
    {
        self.mem.set16_reverse(pos, value);
    }

    /// The raw memory image, one byte per address.
    pub fn mem_dump(&self) -> (r: Vec<u8>)
        requires
            self.wf(),
        ensures
            r@ == self.mem_view().subrange(0, MEM_SPACE as int),
    {
        self.mem.dump()
    }

    /// Replaces memory with a raw image; false, changing nothing, when the image
    /// is shorter than the address space.
    pub fn mem_read_dump(&mut self, image: &Vec<u8>) -> (r: bool)
        requires
            old(self).wf(),
        ensures
            final(self).wf(),
            r == (image@.len() >= MEM_SPACE),
            r ==> final(self).mem_view() == image@.subrange(0, MEM_SPACE as int).push(0),
            !r ==> final(self).mem_view() == old(self).mem_view(),
            final(self).io_view() == old(self).io_view(),
    {
        self.mem.read_dump(image)
    }

    /// A copy of memory.
    pub fn mem_clone(&self) -> (r: Memory)
        ensures
            r@ == self.mem_view(),
    {
        self.mem.clone()
    }

    /// A copy of the ports.
    pub fn io_clone(&self) -> (r: Io)
        ensures
            r@ == self.io_view(),
    {
        self.io.clone()
    }

    /// The entries that turn memory back into `old`.
    pub fn mem_diff(&self, old: Memory) -> (r: Vec<(u16, u8)>)
        requires
            self.wf(),
            old.wf(),
        ensures
            r@ == diff_entries(self.mem_view(), old@, MEM_SPACE as nat),
    {
        self.mem.diff(old)
    }

    /// The entries that turn the ports back into `old`.
    pub fn io_diff(&self, old: Io) -> (r: Vec<(u8, u8)>)
        requires
            self.wf(),
            old.wf(),
        ensures
            r@ == port_diff_entries(self.io_view(), old@, PORT_SPACE as nat),
    {
        self.io.diff(old)
    }

    /// Writes memory entries in order.
    pub fn mem_apply(&mut self, changes: &Vec<(u16, u8)>)
        requires
            old(self).wf(),
        ensures
            final(self).wf(),
            final(self).mem_view() == apply_entries(old(self).mem_view(), changes@),
            final(self).io_view() == old(self).io_view(),
    {
        self.mem.apply(changes);
    }

    /// Writes port entries in order.
    pub fn io_apply(&mut self, changes: &Vec<(u8, u8)>)
        requires
            old(self).wf(),
        ensures
            final(self).wf(),
            final(self).io_view() == apply_port_entries(old(self).io_view(), changes@),
            final(self).mem_view() == old(self).mem_view(),
    {
        self.io.apply(changes);
    }

    pub fn io_get8(&self, pos: u8) -> (r: u8)
        requires
            self.wf(),
        ensures
            r == self.io_view()[pos as int],
    {
        self.io.get8(pos)
    }

    pub fn io_get16(&self, pos: u8) -> (r: u16)
        requires
            self.wf(),
        ensures
            r == be16(self.io_view()[pos as int], self.io_view()[pos + 1]),
    {
        self.io.get16(pos)
    }

    pub fn io_get16_reverse(&self, pos: u8) -> (r: u16)
        requires
            self.wf(),
        ensures
            r == le16(self.io_view()[pos as int], self.io_view()[pos + 1]),
    {
        self.io.get16_reverse(pos)
    }

    pub fn io_set8(&mut self, pos: u8, value: u8)
        requires
            old(self).wf(),
        ensures
            final(self).wf(),
            final(self).io_view() == old(self).io_view().update(pos as int, value),
            final(self).mem_view() == old(self).mem_view(),
    {
        self.io.set8(pos, value);
    }

    pub fn io_set16(&mut self, pos: u8, value: u16)
        requires
            old(self).wf(),
        ensures
            final(self).wf(),
            final(self).io_view() == old(self).io_view().update(pos as int, hi8(value)).update(
                pos + 1,
                lo8(value),
            ).update(PORT_SPACE as int, 0),
            final(self).mem_view() == old(self).mem_view(),
    {
        self.io.set16(pos, value);
    }

    pub fn io_set16_reverse(&mut self, pos: u8, value: u16)
        requires
            old(self).wf(),
        ensures
            final(self).wf(),
            final(self).io_view() == old(self).io_view().update(pos as int, lo8(value)).update(
                pos + 1,
                hi8(value),
            ).update(PORT_SPACE as int, 0),
            final(self).mem_view() == old(self).mem_view(),
    {
        self.io.set16_reverse(pos, value);
    }
}

} // verus!
