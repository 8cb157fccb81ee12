//! Slot declaration and key resolution.
//!
//! A module's thread-local data section is a statically initialized image:
//! a sequence of values that the loader copies into every thread's private
//! block. Declaring a slot reserves the next position of that image,
//! pre-filled with the slot's initial value; the position is the slot's key,
//! a 32-bit section-relative offset that never changes for the remaining
//! lifetime of the process. The static image itself is never read or written
//! after load: every access goes through a per-thread copy.

use vstd::prelude::*;

verus! {

/// A declared thread-local slot.
///
/// A slot is identified by its key: the offset at which its value lives
/// within the declaring module's thread-local block. The key is computed at
/// declaration and is invariant thereafter. Pairing a key with the block of
/// a module other than the declaring one reads that other block's data at
/// the same offset; the pairing is the caller's responsibility.
#[derive(Clone, Copy, Debug, PartialEq, Eq, Structural)]
pub struct Slot {
    /// The section-relative offset of this slot within its module's
    /// thread-local block.
    pub key: u32,
}

/// The statically initialized thread-local image of one module: the template
/// from which every thread's private block for that module is copied.
pub struct ModuleImage {
    inits: Vec<u32>,
}

impl View for ModuleImage {
    type V = Seq<u32>;

    closed spec fn view(&self) -> Seq<u32> {
        self.inits@
    }
}

impl ModuleImage {
    /// A fresh image with no slots declared.
    pub fn new() -> (m: ModuleImage)
        ensures
            m@ == Seq::<u32>::empty(),
    {
        ModuleImage { inits: Vec::new() }
    }

    /// Declares a slot with the given initial value: reserves the next
    /// region of the module's thread-local image, pre-filled with `value`,
    /// and returns the slot, whose key locates that region.
    ///
    /// Slots are only trivially copyable values; nothing ever runs teardown
    /// code on a slot, so a value with teardown semantics cannot be declared
    /// (a destructor is registered explicitly instead, per thread).
    pub fn init_static(&mut self, value: u32) -> (s: Slot)
        requires
            old(self)@.len() < u32::MAX,
        ensures
            final(self)@ == old(self)@.push(value),
            s.key == old(self)@.len(),
            final(self)@[s.key as int] == value,
    {
        let key: u32 = self.inits.len() as u32;
        self.inits.push(value);
        Slot { key }
    }

    /// The number of slots declared so far.
    pub fn len(&self) -> (n: usize)
        ensures
            n == self@.len(),
    {
        self.inits.len()
    }

    /// Copies the static image's values, in declaration order: the contents
    /// a fresh thread-local block for this module starts with.
    pub fn clone_inits(&self) -> (v: Vec<u32>)
        ensures
            v@ == self@,
    {
        let mut v: Vec<u32> = Vec::new();
        let mut i: usize = 0;
        while i < self.inits.len()
            invariant
                i <= self.inits.len(),
                v@ == self@.subrange(0, i as int),
            decreases self.inits.len() - i,
        {
            v.push(self.inits[i]);
            i = i + 1;
        }
        assert(v@ == self@.subrange(0, self@.len() as int));
        assert(self@.subrange(0, self@.len() as int) =~= self@);
        v
    }

    /// Reads the static image itself at offset `key`: the initial value that
    /// every new thread's block starts from.
    pub fn initial_value(&self, key: u32) -> (v: u32)
        requires
            key < self@.len(),
        ensures
            v == self@[key as int],
    {
        self.inits[key as usize]
    }
}

/// Returns the key that identifies a declared slot: its offset relative to
/// the start of the declaring module's thread-local block.
///
/// This computation reads no memory and cannot fail; the result is stable
/// for the lifetime of the process. It is meaningful only against the block
/// of the module the slot was declared in: applying it to another module's
/// block is a key/module mispairing, which resolves that other block's data.
pub fn static_key(s: &Slot) -> (k: u32)
    ensures
        k == s.key,
{
    s.key
}

} // verus!
