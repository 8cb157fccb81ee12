//! The loader's and the thread's view of thread-local storage.
//!
//! The operating system keeps, for every thread, a TLS array: one entry per
//! loaded module, each entry holding the address of that thread's private
//! copy of the module's thread-local block. [`ProcessTls`] models what the
//! loader knows — which modules are loaded and each module's static image —
//! and [`ThreadTls`] models one thread's private state: the array's address,
//! its entries, and the blocks they lead to.
//!
//! When a module with thread-local data is loaded after a thread already
//! exists, that thread's array is reallocated: a new array is built, the old
//! contents are copied across, and the old memory is left behind, so that
//! any previously resolved pointer falls permanently out of sync with new
//! slot contents. The model captures this with an epoch that grows at every
//! reallocation: a resolved pointer carries the epoch it was made under, and
//! dereferencing demands that no reallocation has intervened.

use vstd::prelude::*;

use crate::arch::spec_index_multiplier;
use crate::arch::Arch;
use crate::slots::ModuleImage;

verus! {

/// One thread's private copy of one module's thread-local block.
pub struct TlsBlock {
    /// The slot values, indexed by slot key.
    pub cells: Vec<u32>,
}

impl View for TlsBlock {
    type V = Seq<u32>;

    open spec fn view(&self) -> Seq<u32> {
        self.cells@
    }
}

/// The loader's view of the process: which modules are loaded, in load
/// order, and each module's static thread-local image. A module's position
/// in this list is its index into every thread's TLS array.
pub struct ProcessTls {
    /// The one processor architecture this process runs on.
    pub arch: Arch,
    /// The loaded modules' static images, in load order.
    pub modules: Vec<ModuleImage>,
}

/// The mathematical view of a [`ProcessTls`].
pub struct ProcessView {
    pub arch: Arch,
    /// Module index to that module's static image.
    pub modules: Seq<Seq<u32>>,
}

impl View for ProcessTls {
    type V = ProcessView;

    open spec fn view(&self) -> ProcessView {
        ProcessView {
            arch: self.arch,
            modules: Seq::new(self.modules@.len(), |i: int| self.modules@[i]@),
        }
    }
}

/// One thread's private thread-local state.
pub struct ThreadTls {
    /// The architecture the thread executes on.
    pub arch: Arch,
    /// Grows by one each time the thread's TLS array is reallocated; a
    /// resolved pointer is valid only while the epoch it was made under is
    /// still current.
    pub epoch: u64,
    /// The address of the thread's TLS array, as published in the thread's
    /// control block.
    pub array_base: usize,
    /// The array's entries: entry `i` is the base address of this thread's
    /// block for module `i`.
    pub block_bases: Vec<usize>,
    /// The blocks those entries lead to: `blocks[i]` is this thread's
    /// private copy of module `i`'s thread-local data.
    pub blocks: Vec<TlsBlock>,
}

/// The mathematical view of a [`ThreadTls`].
#[verifier::ext_equal]
pub struct ThreadView {
    pub arch: Arch,
    pub epoch: u64,
    pub array_base: usize,
    pub block_bases: Seq<usize>,
    pub blocks: Seq<Seq<u32>>,
}

impl View for ThreadTls {
    type V = ThreadView;

    open spec fn view(&self) -> ThreadView {
        ThreadView {
            arch: self.arch,
            epoch: self.epoch,
            array_base: self.array_base,
            block_bases: self.block_bases@,
            blocks: Seq::new(self.blocks@.len(), |i: int| self.blocks@[i]@),
        }
    }
}

impl ThreadView {
    /// Well-formedness: the array and the blocks line up, and every address
    /// computation the resolution algorithm performs stays within the
    /// machine's address space.
    pub open spec fn wf(self) -> bool {
        &&& self.block_bases.len() == self.blocks.len()
        &&& self.array_base + self.blocks.len() * spec_index_multiplier(self.arch)
            <= usize::MAX
        &&& forall|i: int|
            0 <= i < self.blocks.len()
                ==> #[trigger] self.block_bases[i] + self.blocks[i].len() <= usize::MAX
    }

    /// Whether module index `m` and key `k` name a slot of this thread.
    pub open spec fn in_range(self, m: int, k: int) -> bool {
        &&& 0 <= m < self.blocks.len()
        &&& 0 <= k < self.blocks[m].len()
    }

    /// The value of the slot at key `k` of module `m`, on this thread.
    pub open spec fn value_at(self, m: int, k: int) -> u32 {
        self.blocks[m][k]
    }

    /// A thread as the operating system first hands it out for a process:
    /// one block per loaded module, each a copy of that module's static
    /// image, under an epoch no reallocation has touched.
    pub open spec fn fresh_for(self, p: ProcessView) -> bool {
        &&& self.arch == p.arch
        &&& self.epoch == 0
        &&& self.blocks == p.modules
    }
}

/// The blocks a thread holds after it catches up with the process's module
/// list: its present blocks, kept as they are, followed by a fresh copy of
/// each newly loaded module's static image.
pub open spec fn extended_blocks(t: ThreadView, p: ProcessView) -> Seq<Seq<u32>> {
    t.blocks + p.modules.subrange(t.blocks.len() as int, p.modules.len() as int)
}

impl ProcessTls {
    /// A process with no modules loaded yet.
    pub fn new(arch: Arch) -> (p: ProcessTls)
        ensures
            p@.arch == arch,
            p@.modules == Seq::<Seq<u32>>::empty(),
    {
        let p = ProcessTls { arch, modules: Vec::new() };
        proof {
            assert(p@.modules =~= Seq::<Seq<u32>>::empty());
        }
        p
    }

    /// Loads a module: the loader appends its static image to the process
    /// and assigns it the next index of every thread's TLS array. The index
    /// is published as a module-global value and never changes thereafter.
    ///
    /// A thread that already exists keeps running with its old, shorter
    /// array until it is brought up to date (see [`refresh_thread`]).
    pub fn load_module(&mut self, m: ModuleImage) -> (idx: usize)
        requires
            old(self)@.modules.len() < usize::MAX,
        ensures
            final(self)@.arch == old(self)@.arch,
            final(self)@.modules == old(self)@.modules.push(m@),
            idx == old(self)@.modules.len(),
    {
        let idx: usize = self.modules.len();
        let ghost mv = m@;
        self.modules.push(m);
        proof {
            assert(self@.modules =~= old(self)@.modules.push(mv));
        }
        idx
    }
}

/// Creates a thread's private thread-local state, as the operating system
/// does when the thread starts: the loader-chosen addresses are taken as
/// given, and each loaded module's static image is copied into a private
/// block of its own.
///
/// `array_base` is where the thread's TLS array is placed and `block_bases`
/// are its entries, one base address per loaded module; the caller stands in
/// for the operating system in choosing them, under the one constraint the
/// machine itself imposes — the resolution arithmetic must not leave the
/// address space.
pub fn spawn_thread(p: &ProcessTls, array_base: usize, block_bases: Vec<usize>) -> (t: ThreadTls)
    requires
        block_bases@.len() == p@.modules.len(),
        array_base + p@.modules.len() * spec_index_multiplier(p@.arch) <= usize::MAX,
        forall|i: int|
            0 <= i < p@.modules.len()
                ==> #[trigger] block_bases@[i] + p@.modules[i].len() <= usize::MAX,
    ensures
        t@.wf(),
        t@.fresh_for(p@),
        t@.array_base == array_base,
        t@.block_bases == block_bases@,
{
    let mut blocks: Vec<TlsBlock> = Vec::new();
    let mut i: usize = 0;
    while i < p.modules.len()
        invariant
            i <= p.modules.len(),
            blocks@.len() == i,
            forall|j: int| 0 <= j < i ==> #[trigger] blocks@[j]@ == p@.modules[j],
        decreases p.modules.len() - i,
    {
        blocks.push(TlsBlock { cells: p.modules[i].clone_inits() });
        i = i + 1;
    }
    let t = ThreadTls { arch: p.arch, epoch: 0, array_base, block_bases, blocks };
    proof {
        assert(t@.blocks =~= p@.modules);
    }
    t
}

/// Brings a thread's state up to date after modules were loaded behind its
/// back: models the reallocation the operating system performs. A new array
/// is placed at `array_base` with entries `block_bases`; the thread's
/// existing blocks keep their contents, a fresh copy of each newly loaded
/// module's static image is added behind them, and the epoch grows — every
/// pointer resolved before this call is stale from here on.
pub fn refresh_thread(
    p: &ProcessTls,
    t: &mut ThreadTls,
    array_base: usize,
    block_bases: Vec<usize>,
)
    requires
        old(t)@.arch == p@.arch,
        old(t)@.blocks.len() <= p@.modules.len(),
        old(t)@.epoch < u64::MAX,
        block_bases@.len() == p@.modules.len(),
        array_base + p@.modules.len() * spec_index_multiplier(p@.arch) <= usize::MAX,
        forall|i: int|
            0 <= i < p@.modules.len()
                ==> #[trigger] block_bases@[i] + extended_blocks(old(t)@, p@)[i].len()
                    <= usize::MAX,
    ensures
        final(t)@.wf(),
        final(t)@.arch == old(t)@.arch,
        final(t)@.epoch == old(t)@.epoch + 1,
        final(t)@.array_base == array_base,
        final(t)@.block_bases == block_bases@,
        final(t)@.blocks == extended_blocks(old(t)@, p@),
{
    let ghost bases = block_bases@;
    t.epoch = t.epoch + 1;
    t.array_base = array_base;
    t.block_bases = block_bases;
    let mut i: usize = t.blocks.len();
    while i < p.modules.len()
        invariant
            i <= p.modules.len(),
            t.blocks@.len() == i,
            old(t)@.blocks.len() <= i,
            t.arch == old(t)@.arch,
            t.epoch == old(t)@.epoch + 1,
            t.array_base == array_base,
            t.block_bases@ == bases,
            forall|j: int|
                0 <= j < old(t)@.blocks.len() ==> #[trigger] t.blocks@[j]@ == old(t)@.blocks[j],
            forall|j: int|
                old(t)@.blocks.len() <= j < i ==> #[trigger] t.blocks@[j]@ == p@.modules[j],
        decreases p.modules.len() - i,
    {
        t.blocks.push(TlsBlock { cells: p.modules[i].clone_inits() });
        i = i + 1;
    }
    proof {
        assert(t@.blocks =~= extended_blocks(old(t)@, p@));
        assert(t@.block_bases == bases);
    }
}

} // verus!
