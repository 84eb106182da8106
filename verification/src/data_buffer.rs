//! The scratch store of a frame: an append-only arena for the payloads of
//! commands, emptied once per frame.
//!
//! Writing returns a pointer that holds an offset and a length, not an
//! address, so it stays meaningful wherever the arena is moved. A pointer is
//! good until the arena is cleared.

use vstd::prelude::*;
use crate::assets::UniformEntry;

verus! {

/// Points at a run of bytes in a [`DataBuffer`].
#[derive(Debug, Clone, Copy, PartialEq, Eq, Hash, Structural)]
pub struct BytesPtr {
    pub offset: usize,
    pub len: usize,
}

/// Points at a run of uniform variables in a [`DataBuffer`].
#[derive(Debug, Clone, Copy, PartialEq, Eq, Hash, Structural)]
pub struct VarsPtr {
    pub offset: usize,
    pub len: usize,
}

/// Whether the run of `len` items at `offset` lies within the first `total`.
pub open spec fn within(offset: usize, len: usize, total: nat) -> bool {
    offset + len <= total
}

/// Whether the runs `(o1, l1)` and `(o2, l2)` have no item in common.
pub open spec fn apart(o1: usize, l1: usize, o2: usize, l2: usize) -> bool {
    o1 + l1 <= o2 || o2 + l2 <= o1
}

/// The run of `len` items of `s` that starts at `offset`.
pub open spec fn run_of<T>(s: Seq<T>, offset: usize, len: usize) -> Seq<T>
    recommends
        within(offset, len, s.len()),
{
    s.subrange(offset as int, offset + len)
}

/// The arena. Its model is the sequence of bytes and the sequence of uniform
/// variables written since it was last cleared.
#[derive(Debug, Clone)]
pub struct DataBuffer {
    bytes: Vec<u8>,
    vars: Vec<UniformEntry>,
}

impl DataBuffer {
    /// The bytes written since the arena was last cleared.
    pub closed spec fn bytes(&self) -> Seq<u8> {
        self.bytes@
    }

    /// The uniform variables written since the arena was last cleared.
    pub closed spec fn vars(&self) -> Seq<UniformEntry> {
        self.vars@
    }

    /// Whether `ptr` points into this arena.
    pub open spec fn holds(&self, ptr: BytesPtr) -> bool {
        within(ptr.offset, ptr.len, self.bytes().len())
    }

    /// Whether `ptr` points into this arena.
    pub open spec fn holds_vars(&self, ptr: VarsPtr) -> bool {
        within(ptr.offset, ptr.len, self.vars().len())
    }

    /// The bytes that `ptr` points at.
    pub open spec fn resolve(&self, ptr: BytesPtr) -> Seq<u8>
        recommends
            self.holds(ptr),
    {
        run_of(self.bytes(), ptr.offset, ptr.len)
    }

    /// The uniform variables that `ptr` points at.
    pub open spec fn resolve_vars(&self, ptr: VarsPtr) -> Seq<UniformEntry>
        recommends
            self.holds_vars(ptr),
    {
        run_of(self.vars(), ptr.offset, ptr.len)
    }

    /// Creates an empty arena with room for `capacity` bytes. The number
    /// sizes the first allocation and nothing else: what the arena holds, and
    /// every pointer it hands out, is the same whatever room was asked for.
    pub fn with_capacity(capacity: usize) -> (b: Self)
        ensures
            b.bytes() == Seq::<u8>::empty(),
            b.vars() == Seq::<UniformEntry>::empty(),
    {
        DataBuffer { bytes: Vec::with_capacity(capacity), vars: Vec::new() }
    }

    /// Returns how many bytes the arena holds.
    pub fn len(&self) -> (n: usize)
        ensures
            n == self.bytes().len(),
    {
        self.bytes.len()
    }

    /// Returns how many uniform variables the arena holds.
    pub fn vars_len(&self) -> (n: usize)
        ensures
            n == self.vars().len(),
    {
        self.vars.len()
    }

    /// Tells whether `ptr` points into this arena.
    pub fn contains(&self, ptr: BytesPtr) -> (r: bool)
        ensures
            r == self.holds(ptr),
    {
        ptr.offset <= self.bytes.len() && ptr.len <= self.bytes.len() - ptr.offset
    }

    /// Tells whether `ptr` points into this arena.
    pub fn contains_vars(&self, ptr: VarsPtr) -> (r: bool)
        ensures
            r == self.holds_vars(ptr),
    {
        ptr.offset <= self.vars.len() && ptr.len <= self.vars.len() - ptr.offset
    }

    /// Appends `values` and returns a pointer to the copy. What was written
    /// before stays where it is.
    pub fn write(&mut self, values: &[u8]) -> (ptr: BytesPtr)
        ensures
            final(self).bytes() == old(self).bytes() + values@,
            final(self).vars() == old(self).vars(),
            ptr.offset == old(self).bytes().len(),
            ptr.len == values@.len(),
            final(self).holds(ptr),
            final(self).resolve(ptr) == values@,
    {
        let offset = self.bytes.len();
        let mut i: usize = 0;
        while i < values.len()
            invariant
                i <= values@.len(),
                self.vars@ == old(self).vars@,
                self.bytes@ == old(self).bytes@ + values@.take(i as int),
            decreases values@.len() - i,
        {
            self.bytes.push(values[i]);
            proof {
                assert(values@.take(i + 1) =~= values@.take(i as int).push(values@[i as int]));
                assert(self.bytes@ =~= old(self).bytes@ + values@.take(i + 1));
            }
            i += 1;
        }
        proof {
            assert(values@.take(i as int) =~= values@);
            assert(run_of(self.bytes@, offset, values.len()) =~= values@);
        }
        BytesPtr { offset, len: values.len() }
    }

    /// Appends `values` and returns a pointer to the copy. What was written
    /// before stays where it is.
    pub fn write_vars(&mut self, values: &[UniformEntry]) -> (ptr: VarsPtr)
        ensures
            final(self).vars() == old(self).vars() + values@,
            final(self).bytes() == old(self).bytes(),
            ptr.offset == old(self).vars().len(),
            ptr.len == values@.len(),
            final(self).holds_vars(ptr),
            final(self).resolve_vars(ptr) == values@,
    {
        let offset = self.vars.len();
        let mut i: usize = 0;
        while i < values.len()
            invariant
                i <= values@.len(),
                self.bytes@ == old(self).bytes@,
                self.vars@ == old(self).vars@ + values@.take(i as int),
            decreases values@.len() - i,
        {
            self.vars.push(values[i]);
            proof {
                assert(values@.take(i + 1) =~= values@.take(i as int).push(values@[i as int]));
                assert(self.vars@ =~= old(self).vars@ + values@.take(i + 1));
            }
            i += 1;
        }
        proof {
            assert(values@.take(i as int) =~= values@);
            assert(run_of(self.vars@, offset, values.len()) =~= values@);
        }
        VarsPtr { offset, len: values.len() }
    }

    /// Borrows the bytes that `ptr` points at.
    pub fn as_slice(&self, ptr: BytesPtr) -> (s: &[u8])
        requires
            self.holds(ptr),
        ensures
            s@ == self.resolve(ptr),
    {
        let total = self.bytes.len();
        assert(ptr.offset + ptr.len <= total);
        vstd::slice::slice_subrange(self.bytes.as_slice(), ptr.offset, ptr.offset + ptr.len)
    }

    /// Borrows the uniform variables that `ptr` points at.
    pub fn vars_as_slice(&self, ptr: VarsPtr) -> (s: &[UniformEntry])
        requires
            self.holds_vars(ptr),
        ensures
            s@ == self.resolve_vars(ptr),
    {
        let total = self.vars.len();
        assert(ptr.offset + ptr.len <= total);
        vstd::slice::slice_subrange(self.vars.as_slice(), ptr.offset, ptr.offset + ptr.len)
    }

    /// Empties the arena and keeps its storage. Every pointer handed out
    /// before is void from here on.
    pub fn clear(&mut self)
        ensures
            final(self).bytes() == Seq::<u8>::empty(),
            final(self).vars() == Seq::<UniformEntry>::empty(),
    {
        self.bytes.clear();
        self.vars.clear();
    }
}

impl Default for DataBuffer {
    /// The default arena is empty.
    fn default() -> (b: Self)
        ensures
            b.bytes() == Seq::<u8>::empty(),
            b.vars() == Seq::<UniformEntry>::empty(),
    {
        DataBuffer { bytes: Vec::new(), vars: Vec::new() }
    }
}

/// Two writes, one after the other, return pointers to runs that have no item
/// in common, and each run holds exactly what its write was given, also after
/// the later write.
pub proof fn lemma_writes_do_not_alias<T>(before: Seq<T>, first: Seq<T>, second: Seq<T>)
    requires
        before.len() + first.len() + second.len() <= usize::MAX,
    ensures
        ({
            let o1 = before.len() as usize;
            let l1 = first.len() as usize;
            let o2 = (before + first).len() as usize;
            let l2 = second.len() as usize;
            let after = before + first + second;
            &&& apart(o1, l1, o2, l2)
            &&& within(o1, l1, after.len())
            &&& within(o2, l2, after.len())
            &&& run_of(before + first, o1, l1) == first
            &&& run_of(after, o1, l1) == first
            &&& run_of(after, o2, l2) == second
        }),
{
    let o1 = before.len() as usize;
    let l1 = first.len() as usize;
    let o2 = (before + first).len() as usize;
    let l2 = second.len() as usize;
    let after = before + first + second;
    assert(run_of(before + first, o1, l1) =~= first);
    assert(run_of(after, o1, l1) =~= first);
    assert(run_of(after, o2, l2) =~= second);
}

/// A write leaves every run that was in the arena before it as it was.
pub proof fn lemma_write_keeps_runs<T>(before: Seq<T>, written: Seq<T>, offset: usize, len: usize)
    requires
        within(offset, len, before.len()),
    ensures
        within(offset, len, (before + written).len()),
        run_of(before + written, offset, len) == run_of(before, offset, len),
{
    assert(run_of(before + written, offset, len) =~= run_of(before, offset, len));
}

} // verus!
