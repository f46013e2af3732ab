use vstd::prelude::*;

verus! {

/// Number of addressable bytes: the full 16-bit address space.
pub const MEM_SPACE: usize = 0x10000;

/// Length of the backing array: the address space plus one guard byte, so that a
/// 16-bit access at the last address stays inside the array.
pub const MEM_LEN: usize = 0x10001;

/// A 16-bit value read high byte first.
pub open spec fn be16(hi: u8, lo: u8) -> u16 {
    (hi as int * 256 + lo as int) as u16
}

/// A 16-bit value read low byte first.
pub open spec fn le16(lo: u8, hi: u8) -> u16 {
    (hi as int * 256 + lo as int) as u16
}

/// High byte of a 16-bit value.
pub open spec fn hi8(v: u16) -> u8 {
    (v / 256) as u8
}

/// Low byte of a 16-bit value.
pub open spec fn lo8(v: u16) -> u8 {
    (v % 256) as u8
}

/// The entries `(address, value of old)` for every address below `n` at which
/// `cur` and `old` differ, in increasing address order. Writing them into `cur`
/// turns it back into `old`.
pub open spec fn diff_entries(cur: Seq<u8>, old: Seq<u8>, n: nat) -> Seq<(u16, u8)>
    decreases n,
{
    if n == 0 {
        Seq::empty()
    } else {
        let prev = diff_entries(cur, old, (n - 1) as nat);
        let a = n - 1;
        if cur[a] != old[a] {
            prev.push((a as u16, old[a]))
        } else {
            prev
        }
    }
}

/// Writes the entries of `changes` one after the other into `arr`.
pub open spec fn apply_entries(arr: Seq<u8>, changes: Seq<(u16, u8)>) -> Seq<u8>
    decreases changes.len(),
{
    if changes.len() == 0 {
        arr
    } else {
        let last = changes.last();
        apply_entries(arr, changes.drop_last()).update(last.0 as int, last.1)
    }
}

/// Writing the difference entries for the first `n` addresses into `cur` gives
/// `old` on those addresses and leaves the others as they were.
pub proof fn lemma_apply_diff(cur: Seq<u8>, old: Seq<u8>, n: nat)
    requires
        n <= 0x10000,
        n <= cur.len(),
        cur.len() == old.len(),
    ensures
        apply_entries(cur, diff_entries(cur, old, n)).len() == cur.len(),
        forall|a: int|
            0 <= a < cur.len() ==> #[trigger] apply_entries(cur, diff_entries(cur, old, n))[a] == if a
                < n {
                old[a]
            } else {
                cur[a]
            },
    decreases n,
{
    if n > 0 {
        lemma_apply_diff(cur, old, (n - 1) as nat);
        let a = n - 1;
        let prev = diff_entries(cur, old, (n - 1) as nat);
        if cur[a] != old[a] {
            let d = prev.push((a as u16, old[a]));
            assert(d.drop_last() == prev);
        }
    }
}

/// Byte-addressable memory covering the 16-bit address space.
pub struct Memory {
    arr: Vec<u8>,
}

impl View for Memory {
    type V = Seq<u8>;

    closed spec fn view(&self) -> Seq<u8> {
        self.arr@
    }
}

impl Memory {
    /// The array covers the address space plus the guard byte, which stays zero.
    pub open spec fn wf(&self) -> bool {
        &&& self@.len() == MEM_LEN
        &&& self@[MEM_SPACE as int] == 0
    }

    /// Memory with every byte zero.
    pub fn new() -> (r: Memory)
        ensures
            r.wf(),
            forall|a: int| 0 <= a < MEM_LEN ==> r@[a] == 0,
    {
        let mut arr: Vec<u8> = Vec::new();
        let mut i: usize = 0;
        while i < MEM_LEN
            invariant
                i <= MEM_LEN,
                arr@.len() == i,
                forall|a: int| 0 <= a < i ==> arr@[a] == 0,
            decreases MEM_LEN - i,
        {
            arr.push(0);
            i = i + 1;
        }
        Memory { arr }
    }

    /// An independent copy with the same bytes.
    pub fn clone(&self) -> (r: Memory)
        ensures
            r@ == self@,
    {
        let mut arr: Vec<u8> = Vec::new();
        let mut i: usize = 0;
        while i < self.arr.len()
            invariant
                i <= self.arr@.len(),
                arr@ == self.arr@.subrange(0, i as int),
            decreases self.arr@.len() - i,
        {
            arr.push(self.arr[i]);
            i = i + 1;
        }
        assert(arr@ == self.arr@);
        Memory { arr }
    }

    /// The `(address, value in other)` pairs at which `other` differs from this
    /// memory, in increasing address order.
    pub fn diff(&self, other: Memory) -> (r: Vec<(u16, u8)>)
        requires
            self.wf(),
            other.wf(),
        ensures
            r@ == diff_entries(self@, other@, MEM_SPACE as nat),
    {
        let mut changes: Vec<(u16, u8)> = Vec::new();
        let mut i: usize = 0;
        while i < MEM_SPACE
            invariant
                i <= MEM_SPACE,
                self.wf(),
                other.wf(),
                changes@ == diff_entries(self@, other@, i as nat),
            decreases MEM_SPACE - i,
        {
            if self.arr[i] != other.arr[i] {
                changes.push((i as u16, other.arr[i]));
            }
            i = i + 1;
        }
        changes
    }

    /// Writes each `(address, value)` entry in order.
    pub fn apply(&mut self, changes: &Vec<(u16, u8)>)
        requires
            old(self).wf(),
        ensures
            final(self).wf(),
            final(self)@ == apply_entries(old(self)@, changes@),
    {
        let mut i: usize = 0;
        while i < changes.len()
            invariant
                i <= changes@.len(),
                self.wf(),
                self@ == apply_entries(old(self)@, changes@.subrange(0, i as int)),
            decreases changes@.len() - i,
        {
            let (pos, value) = changes[i];
            self.arr.set(pos as usize, value);
            assert(changes@.subrange(0, i + 1).drop_last() == changes@.subrange(0, i as int));
            i = i + 1;
        }
        assert(changes@.subrange(0, changes@.len() as int) == changes@);
    }

    /// The byte at `pos`.
    pub fn get8(&self, pos: u16) -> (r: u8)
        requires
            self.wf(),
        ensures
            r == self@[pos as int],
    {
        self.arr[pos as usize]
    }

    /// The 16-bit value at `pos`, high byte first (`pos` holds the high byte).
    pub fn get16(&self, pos: u16) -> (r: u16)
        requires
            self.wf(),
        ensures
            r == be16(self@[pos as int], self@[pos + 1]),
    {
        let hi = self.arr[pos as usize] as u16;
        let lo = self.arr[pos as usize + 1] as u16;
        hi * 256 + lo
    }

    /// The 16-bit value at `pos`, low byte first (`pos` holds the low byte).
    pub fn get16_reverse(&self, pos: u16) -> (r: u16)
        requires
            self.wf(),
        ensures
            r == le16(self@[pos as int], self@[pos + 1]),
    {
        let lo = self.arr[pos as usize] as u16;
        let hi = self.arr[pos as usize + 1] as u16;
        hi * 256 + lo
    }

    /// Stores `value` at `pos`.
    pub fn set8(&mut self, pos: u16, value: u8)
        requires
            old(self).wf(),
        ensures
            final(self).wf(),
            final(self)@ == old(self)@.update(pos as int, value),
    {
        self.arr.set(pos as usize, value);
    }

    /// Stores `value` high byte first at `pos` and `pos + 1`. At the last address
    /// the low byte falls on the guard byte and is dropped.
    pub fn set16(&mut self, pos: u16, value: u16)
        requires
            old(self).wf(),
        ensures
            final(self).wf(),
            final(self)@ == old(self)@.update(pos as int, hi8(value)).update(pos + 1, lo8(value)).update(
                MEM_SPACE as int,
                0,
            ),
    {
        self.arr.set(pos as usize, (value / 256) as u8);
        self.arr.set(pos as usize + 1, (value % 256) as u8);
        self.arr.set(MEM_SPACE, 0);
    }

    /// Stores `value` low byte first at `pos` and `pos + 1`. At the last address
    /// the high byte falls on the guard byte and is dropped.
    pub fn set16_reverse(&mut self, pos: u16, value: u16)
        requires
            old(self).wf(),
        ensures
            final(self).wf(),
            final(self)@ == old(self)@.update(pos as int, lo8(value)).update(pos + 1, hi8(value)).update(
                MEM_SPACE as int,
                0,
            ),
    {
        self.arr.set(pos as usize, (value % 256) as u8);
        self.arr.set(pos as usize + 1, (value / 256) as u8);
        self.arr.set(MEM_SPACE, 0);
    }

    /// The raw image of the address space (the guard byte is not part of it).
    pub fn dump(&self) -> (r: Vec<u8>)
        requires
            self.wf(),
        ensures
            r@ == self@.subrange(0, MEM_SPACE as int),
    {
        let mut out: Vec<u8> = Vec::new();
        let mut i: usize = 0;
        while i < MEM_SPACE
            invariant
                i <= MEM_SPACE,
                self.wf(),
                out@ == self@.subrange(0, i as int),
            decreases MEM_SPACE - i,
        {
            out.push(self.arr[i]);
            i = i + 1;
        }
        out
    }

    /// Replaces the address space with the first `MEM_SPACE` bytes of `image`.
    /// Returns false, changing nothing, when `image` is shorter than that.
    pub fn read_dump(&mut self, image: &Vec<u8>) -> (r: bool)
        requires
            old(self).wf(),
        ensures
            final(self).wf(),
            r == (image@.len() >= MEM_SPACE),
            r ==> final(self)@ == image@.subrange(0, MEM_SPACE as int).push(0),
            !r ==> final(self)@ == old(self)@,
    {
        if image.len() < MEM_SPACE {
            return false;
        }
        let mut i: usize = 0;
        while i < MEM_SPACE
            invariant
                i <= MEM_SPACE,
                MEM_SPACE <= image@.len(),
                self.wf(),
                forall|a: int| 0 <= a < i ==> self@[a] == image@[a],
            decreases MEM_SPACE - i,
        {
            self.arr.set(i, image[i]);
            i = i + 1;
        }
        assert(self@ == image@.subrange(0, MEM_SPACE as int).push(0));
        true
    }
}

} // verus!
