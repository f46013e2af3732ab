use vstd::prelude::*;
use crate::bus::mem::{hi8, lo8, be16, le16};

verus! {

/// Number of IO ports.
pub const PORT_SPACE: usize = 0x100;

/// Length of the backing array: the ports plus one guard byte.
pub const PORT_LEN: usize = 0x101;

/// The entries `(port, value of old)` for every port below `n` at which `cur`
/// and `old` differ, in increasing port order.
pub open spec fn port_diff_entries(cur: Seq<u8>, old: Seq<u8>, n: nat) -> Seq<(u8, u8)>
    decreases n,
{
    if n == 0 {
        Seq::empty()
    } else {
        let prev = port_diff_entries(cur, old, (n - 1) as nat);
        let a = n - 1;
        if cur[a] != old[a] {
            prev.push((a as u8, old[a]))
        } else {
            prev
        }
    }
}

/// Writes the entries of `changes` one after the other into `arr`.
pub open spec fn apply_port_entries(arr: Seq<u8>, changes: Seq<(u8, u8)>) -> Seq<u8>
    decreases changes.len(),
{
    if changes.len() == 0 {
        arr
    } else {
        let last = changes.last();
        apply_port_entries(arr, changes.drop_last()).update(last.0 as int, last.1)
    }
}

/// Writing the difference entries for the first `n` ports into `cur` gives
/// `old` on those ports and leaves the others as they were.
pub proof fn lemma_apply_port_diff(cur: Seq<u8>, old: Seq<u8>, n: nat)
    requires
        n <= 0x100,
        n <= cur.len(),
        cur.len() == old.len(),
    ensures
        apply_port_entries(cur, port_diff_entries(cur, old, n)).len() == cur.len(),
        forall|a: int|
            0 <= a < cur.len() ==> #[trigger] apply_port_entries(cur, port_diff_entries(cur, old, n))[a]
                == if a < n {
                old[a]
            } else {
                cur[a]
            },
    decreases n,
{
    if n > 0 {
        lemma_apply_port_diff(cur, old, (n - 1) as nat);
        let a = n - 1;
        let prev = port_diff_entries(cur, old, (n - 1) as nat);
        if cur[a] != old[a] {
            let d = prev.push((a as u8, old[a]));
            assert(d.drop_last() == prev);
        }
    }
}

/// The 256 IO ports.
pub struct Io {
    arr: Vec<u8>,
}

impl View for Io {
    type V = Seq<u8>;

    closed spec fn view(&self) -> Seq<u8> {
        self.arr@
    }
}

impl Io {
    /// The array covers the ports plus the guard byte, which stays zero.
    pub open spec fn wf(&self) -> bool {
        &&& self@.len() == PORT_LEN
        &&& self@[PORT_SPACE as int] == 0
    }

    /// Ports all holding zero.
    pub fn new() -> (r: Io)
        ensures
            r.wf(),
            forall|a: int| 0 <= a < PORT_LEN ==> r@[a] == 0,
    {
        let mut arr: Vec<u8> = Vec::new();
        let mut i: usize = 0;
        while i < PORT_LEN
            invariant
                i <= PORT_LEN,
                arr@.len() == i,
                forall|a: int| 0 <= a < i ==> arr@[a] == 0,
            decreases PORT_LEN - i,
        {
            arr.push(0);
            i = i + 1;
        }
        Io { arr }
    }

    /// An independent copy with the same bytes.
    pub fn clone(&self) -> (r: Io)
        ensures
            r@ == self@,
    {
        let mut arr: Vec<u8> = Vec::new();
        let mut i: usize = 0;
        while i < self.arr.len()
            invariant
                i <= self.arr@.len(),
                arr@ == self.arr@.subrange(0, i as int),
            decreases self.arr@.len() - i,
        {
            arr.push(self.arr[i]);
            i = i + 1;
        }
        assert(arr@ == self.arr@);
        Io { arr }
    }

    /// The `(port, value in other)` pairs at which `other` differs from these
    /// ports, in increasing port order.
    pub fn diff(&self, other: Io) -> (r: Vec<(u8, u8)>)
        requires
            self.wf(),
            other.wf(),
        ensures
            r@ == port_diff_entries(self@, other@, PORT_SPACE as nat),
    {
        let mut changes: Vec<(u8, u8)> = Vec::new();
        let mut i: usize = 0;
        while i < PORT_SPACE
            invariant
                i <= PORT_SPACE,
                self.wf(),
                other.wf(),
                changes@ == port_diff_entries(self@, other@, i as nat),
            decreases PORT_SPACE - i,
        {
            if self.arr[i] != other.arr[i] {
                changes.push((i as u8, other.arr[i]));
            }
            i = i + 1;
        }
        changes
    }

    /// Writes each `(port, value)` entry in order.
    pub fn apply(&mut self, changes: &Vec<(u8, u8)>)
        requires
            old(self).wf(),
        ensures
            final(self).wf(),
            final(self)@ == apply_port_entries(old(self)@, changes@),
    {
        let mut i: usize = 0;
        while i < changes.len()
            invariant
                i <= changes@.len(),
                self.wf(),
                self@ == apply_port_entries(old(self)@, changes@.subrange(0, i as int)),
            decreases changes@.len() - i,
        {
            let (pos, value) = changes[i];
            self.arr.set(pos as usize, value);
            assert(changes@.subrange(0, i + 1).drop_last() == changes@.subrange(0, i as int));
            i = i + 1;
        }
        assert(changes@.subrange(0, changes@.len() as int) == changes@);
    }

    /// The byte at port `pos`.
    pub fn get8(&self, pos: u8) -> (r: u8)
        requires
            self.wf(),
        ensures
            r == self@[pos as int],
    {
        self.arr[pos as usize]
    }

    /// The 16-bit value at port `pos`, high byte first.
    pub fn get16(&self, pos: u8) -> (r: u16)
        requires
            self.wf(),
        ensures
            r == be16(self@[pos as int], self@[pos + 1]),
    {
        let hi = self.arr[pos as usize] as u16;
        let lo = self.arr[pos as usize + 1] as u16;
        hi * 256 + lo
    }

    /// The 16-bit value at port `pos`, low byte first.
    pub fn get16_reverse(&self, pos: u8) -> (r: u16)
        requires
            self.wf(),
        ensures
            r == le16(self@[pos as int], self@[pos + 1]),
    {
        let lo = self.arr[pos as usize] as u16;
        let hi = self.arr[pos as usize + 1] as u16;
        hi * 256 + lo
    }

    /// Stores `value` at port `pos`.
    pub fn set8(&mut self, pos: u8, value: u8)
        requires
            old(self).wf(),
        ensures
            final(self).wf(),
            final(self)@ == old(self)@.update(pos as int, value),
    {
        self.arr.set(pos as usize, value);
    }

    /// Stores `value` high byte first at ports `pos` and `pos + 1`; at the last
    /// port the low byte falls on the guard byte and is dropped.
    pub fn set16(&mut self, pos: u8, value: u16)
        requires
            old(self).wf(),
        ensures
            final(self).wf(),
            final(self)@ == old(self)@.update(pos as int, hi8(value)).update(pos + 1, lo8(value)).update(
                PORT_SPACE as int,
                0,
            ),
    {
        self.arr.set(pos as usize, (value / 256) as u8);
        self.arr.set(pos as usize + 1, (value % 256) as u8);
        self.arr.set(PORT_SPACE, 0);
    }

    /// Stores `value` low byte first at ports `pos` and `pos + 1`; at the last
    /// port the high byte falls on the guard byte and is dropped.
    pub fn set16_reverse(&mut self, pos: u8, value: u16)
        requires
            old(self).wf(),
        ensures
            final(self).wf(),
            final(self)@ == old(self)@.update(pos as int, lo8(value)).update(pos + 1, hi8(value)).update(
                PORT_SPACE as int,
                0,
            ),
    {
        self.arr.set(pos as usize, (value % 256) as u8);
        self.arr.set(pos as usize + 1, (value / 256) as u8);
        self.arr.set(PORT_SPACE, 0);
    }
}

} // verus!
