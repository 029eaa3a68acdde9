//! Byte-addressable storage with bounds-checked access.
//!
//! `read` and `write` are the only primitive operations; the 16-bit
//! little-endian helpers and the bulk operations are derived from them and
//! verified once, here in the trait, for every implementation.

use vstd::prelude::*;

verus! {

/// Whether a 16-bit access at `addr` lies in bounds of a store of `len`
/// bytes: both `addr` and `addr + 1` must be valid, representable addresses.
pub open spec fn word_addr_ok(len: int, addr: u16) -> bool {
    addr + 1 < len && addr < 0xFFFF
}

/// The 16-bit value stored little-endian at `addr`: the low byte at `addr`,
/// the high byte at `addr + 1`.
pub open spec fn spec_read2(mem: Seq<u8>, addr: u16) -> u16 {
    (mem[addr as int] + 256 * mem[addr as int + 1]) as u16
}

/// The store after a little-endian 16-bit write at `addr`. The low byte is
/// written first, so a write whose second half is out of bounds still lands
/// its low byte; a write that is out of bounds from the start changes nothing.
pub open spec fn spec_write2(mem: Seq<u8>, addr: u16, value: u16) -> Seq<u8> {
    let lo = (value % 256) as u8;
    let hi = (value / 256) as u8;
    if word_addr_ok(mem.len() as int, addr) {
        mem.update(addr as int, lo).update(addr as int + 1, hi)
    } else if (addr as int) < mem.len() {
        mem.update(addr as int, lo)
    } else {
        mem
    }
}

/// The store after `n` single-byte copy steps from `from` to `to`, together
/// with whether all `n` steps stayed in bounds. Steps run in address order
/// and stop at the first failure, leaving earlier steps in place.
pub open spec fn spec_copy(mem: Seq<u8>, from: u16, to: u16, n: nat) -> (Seq<u8>, bool)
    decreases n,
{
    if n == 0 {
        (mem, true)
    } else {
        let (m1, ok) = spec_copy(mem, from, to, (n - 1) as nat);
        if !ok {
            (m1, false)
        } else {
            let src = from + n - 1;
            let dst = to + n - 1;
            if src < m1.len() && dst < m1.len() {
                (m1.update(dst, m1[src]), true)
            } else {
                (m1, false)
            }
        }
    }
}

/// The store after the first `n` bytes of `data` are written one by one
/// starting at `addr`, together with whether every write stayed in bounds.
/// Writes stop at the first failure, leaving earlier writes in place.
pub open spec fn spec_load(mem: Seq<u8>, data: Seq<u8>, addr: u16, n: nat) -> (Seq<u8>, bool)
    decreases n,
{
    if n == 0 {
        (mem, true)
    } else {
        let (m1, ok) = spec_load(mem, data, addr, (n - 1) as nat);
        if !ok {
            (m1, false)
        } else {
            let dst = addr + n - 1;
            if dst <= 0xFFFF && dst < m1.len() {
                (m1.update(dst, data[n - 1]), true)
            } else {
                (m1, false)
            }
        }
    }
}

/// Once a copy step has failed, later steps change nothing.
proof fn lemma_copy_failure_sticks(mem: Seq<u8>, from: u16, to: u16, k: nat, n: nat)
    requires
        k <= n,
        !spec_copy(mem, from, to, k).1,
    ensures
        spec_copy(mem, from, to, n) == spec_copy(mem, from, to, k),
    decreases n,
{
    if n > k {
        lemma_copy_failure_sticks(mem, from, to, k, (n - 1) as nat);
    }
}

/// Once a bulk-load write has failed, later writes change nothing.
proof fn lemma_load_failure_sticks(mem: Seq<u8>, data: Seq<u8>, addr: u16, k: nat, n: nat)
    requires
        k <= n,
        !spec_load(mem, data, addr, k).1,
    ensures
        spec_load(mem, data, addr, n) == spec_load(mem, data, addr, k),
    decreases n,
{
    if n > k {
        lemma_load_failure_sticks(mem, data, addr, k, (n - 1) as nat);
    }
}

/// A bounds-checked byte store. `mem()` is its contents; the length of
/// `mem()` is its fixed capacity, and an address is valid exactly when it
/// is below that capacity.
pub trait Addressable: Sized {
    /// The bytes this store holds.
    spec fn mem(&self) -> Seq<u8>;

    /// Reads the byte at `addr`; an out-of-bounds address yields `None`.
    fn read(&self, addr: u16) -> (r: Option<u8>)
        ensures
            r == (if (addr as int) < self.mem().len() {
                Some(self.mem()[addr as int])
            } else {
                None::<u8>
            }),
    ;

    /// Writes the byte at `addr`; an out-of-bounds address changes nothing
    /// and yields `false`.
    fn write(&mut self, addr: u16, value: u8) -> (r: bool)
        ensures
            r == ((addr as int) < old(self).mem().len()),
            final(self).mem() == (if (addr as int) < old(self).mem().len() {
                old(self).mem().update(addr as int, value)
            } else {
                old(self).mem()
            }),
    ;

    /// Reads the 16-bit little-endian word at `addr`: low byte at `addr`,
    /// high byte at `addr + 1`. Fails if either byte is out of bounds.
    fn read2(&self, addr: u16) -> (r: Option<u16>)
        ensures
            r == (if word_addr_ok(self.mem().len() as int, addr) {
                Some(spec_read2(self.mem(), addr))
            } else {
                None::<u16>
            }),
    {
        if addr == 0xFFFF {
            return None;
        }
        match self.read(addr) {
            Some(lo) => match self.read(addr + 1) {
                Some(hi) => Some(lo as u16 + 256 * (hi as u16)),
                None => None,
            },
            None => None,
        }
    }

    /// Writes the 16-bit word `value` little-endian at `addr`: low byte at
    /// `addr`, then high byte at `addr + 1`. Succeeds exactly when both
    /// addresses are in bounds; a failing write may still have landed the
    /// low byte.
    fn write2(&mut self, addr: u16, value: u16) -> (r: bool)
        ensures
            r == word_addr_ok(old(self).mem().len() as int, addr),
            final(self).mem() == spec_write2(old(self).mem(), addr, value),
    {
        let lo = (value % 256) as u8;
        let hi = (value / 256) as u8;
        if !self.write(addr, lo) {
            return false;
        }
        if addr == 0xFFFF {
            return false;
        }
        self.write(addr + 1, hi)
    }

    /// Copies `n` bytes from `from` to `to`, one read/write pair at a time
    /// in address order, stopping at the first out-of-bounds access.
    fn copy(&mut self, from: u16, to: u16, n: usize) -> (r: bool)
        requires
            from + n <= 0x10000,
            to + n <= 0x10000,
        ensures
            ({
                let (m2, ok) = spec_copy(old(self).mem(), from, to, n as nat);
                final(self).mem() == m2 && r == ok
            }),
    {
        let ghost mem0 = self.mem();
        let mut i: usize = 0;
        while i < n
            invariant
                i <= n,
                from + n <= 0x10000,
                to + n <= 0x10000,
                mem0 == old(self).mem(),
                spec_copy(mem0, from, to, i as nat) == (self.mem(), true),
            decreases n - i,
        {
            let src = from + (i as u16);
            let dst = to + (i as u16);
            match self.read(src) {
                None => {
                    proof {
                        assert(spec_copy(mem0, from, to, (i + 1) as nat) == (
                        self.mem(),
                        false,
                        ));
                        lemma_copy_failure_sticks(mem0, from, to, (i + 1) as nat, n as nat);
                    }
                    return false;
                },
                Some(x) => {
                    if !self.write(dst, x) {
                        proof {
                            assert(spec_copy(mem0, from, to, (i + 1) as nat) == (
                            self.mem(),
                            false,
                            ));
                            lemma_copy_failure_sticks(mem0, from, to, (i + 1) as nat, n as nat);
                        }
                        return false;
                    }
                },
            }
            i = i + 1;
        }
        true
    }

    /// Loads the bytes of `from` into memory starting at `addr`. On full
    /// success returns the number of bytes written and the number of
    /// two-byte instructions they form; the first out-of-bounds write
    /// yields `None`, with the writes before it in place.
    fn load_from_vec(&mut self, from: &Vec<u8>, addr: u16) -> (r: Option<(usize, usize)>)
        ensures
            ({
                let (m2, ok) = spec_load(old(self).mem(), from@, addr, from@.len());
                final(self).mem() == m2 && r == (if ok {
                    Some((from@.len() as usize, (from@.len() as usize) / 2))
                } else {
                    None::<(usize, usize)>
                })
            }),
    {
        let ghost mem0 = self.mem();
        let n = from.len();
        let mut i: usize = 0;
        while i < n
            invariant
                i <= n,
                n == from@.len(),
                mem0 == old(self).mem(),
                spec_load(mem0, from@, addr, i as nat) == (self.mem(), true),
            decreases n - i,
        {
            if i > 0xFFFF || addr as usize > 0xFFFF - i {
                proof {
                    assert(spec_load(mem0, from@, addr, (i + 1) as nat) == (self.mem(), false));
                    lemma_load_failure_sticks(mem0, from@, addr, (i + 1) as nat, n as nat);
                }
                return None;
            }
            let dst = addr + (i as u16);
            let b = from[i];
            if !self.write(dst, b) {
                proof {
                    assert(spec_load(mem0, from@, addr, (i + 1) as nat) == (self.mem(), false));
                    lemma_load_failure_sticks(mem0, from@, addr, (i + 1) as nat, n as nat);
                }
                return None;
            }
            i = i + 1;
        }
        Some((n, n / 2))
    }
}

/// Flat linear memory: a zero-initialized buffer of fixed capacity with
/// bounds-checked access. The canonical store behind the machine.
pub struct LinearMemory {
    bytes: Vec<u8>,
}

impl LinearMemory {
    /// Creates a zero-filled memory of `n` bytes.
    pub fn new(n: usize) -> (m: LinearMemory)
        ensures
            m.mem() == Seq::new(n as nat, |i: int| 0u8),
    {
        let mut bytes: Vec<u8> = Vec::new();
        let mut i: usize = 0;
        while i < n
            invariant
                i <= n,
                bytes@ =~= Seq::new(i as nat, |j: int| 0u8),
            decreases n - i,
        {
            bytes.push(0);
            i = i + 1;
        }
        proof {
            assert(bytes@ =~= Seq::new(n as nat, |i: int| 0u8));
        }
        LinearMemory { bytes }
    }

    /// The capacity of this memory in bytes.
    pub fn size(&self) -> (n: usize)
        ensures
            n == self.mem().len(),
    {
        self.bytes.len()
    }
}

impl Addressable for LinearMemory {
    closed spec fn mem(&self) -> Seq<u8> {
        self.bytes@
    }

    fn read(&self, addr: u16) -> (r: Option<u8>) {
        if (addr as usize) < self.bytes.len() {
            Some(self.bytes[addr as usize])
        } else {
            None
        }
    }

    fn write(&mut self, addr: u16, value: u8) -> (r: bool) {
        if (addr as usize) < self.bytes.len() {
            self.bytes.set(addr as usize, value);
            true
        } else {
            false
        }
    }
}

/// Writing a word and reading it back at the same in-bounds address yields
/// the word unchanged.
pub proof fn lemma_write2_read2(mem: Seq<u8>, addr: u16, v: u16)
    requires
        word_addr_ok(mem.len() as int, addr),
    ensures
        spec_read2(spec_write2(mem, addr, v), addr) == v,
{
    assert(v == 256 * (v / 256) + v % 256) by (nonlinear_arith);
}

} // verus!
