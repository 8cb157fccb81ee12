//! Low-level resolution of thread-local slots: from a thread's state and a
//! slot's key to the address of, and the value in, that thread's private
//! copy.
//!
//! The resolution algorithm is the one the machine performs. The thread's
//! control block publishes the address of the TLS array ([`tls_array`]); the
//! module's loader-assigned index, scaled by the architecture's pointer
//! width, selects the array entry holding the base address of this module's
//! block for the current thread ([`array_entry_address`]); the slot's key,
//! added to that base, is the address of the thread's private copy of the
//! slot ([`static_ptr`]). Reads and writes then go through the resolved
//! pointer ([`read_ptr`], [`write_ptr`]), or in one step through
//! [`get_static`] and [`set_static`].
//!
//! A resolved pointer is short-lived by design: it carries the epoch of the
//! TLS array it was resolved against, and is only accepted back while that
//! epoch is current — once a later module load has reallocated the array,
//! the pointer is stale and must be resolved afresh.

use vstd::prelude::*;

use crate::arch::index_multiplier;
use crate::arch::spec_index_multiplier;
use crate::thread::ProcessView;
use crate::thread::ThreadTls;
use crate::thread::ThreadView;

verus! {

/// A resolved pointer to one thread's private copy of a slot.
///
/// It records the address the resolution arithmetic produced, together with
/// the coordinates it was resolved from and the epoch of the TLS array it
/// was resolved against. It is accepted by [`read_ptr`] and [`write_ptr`]
/// only while that epoch is still the thread's current one: a module load
/// that reallocates the array leaves every earlier pointer permanently
/// stale.
#[derive(Clone, Copy, Debug, PartialEq, Eq, Structural)]
pub struct SlotPointer {
    /// The resolved address: the module's block base plus the slot's key.
    pub addr: usize,
    /// The TLS array epoch the resolution happened under.
    pub epoch: u64,
    /// The module index the resolution used.
    pub module: usize,
    /// The slot key the resolution used.
    pub key: u32,
}

impl SlotPointer {
    /// Whether this pointer may still be dereferenced against thread state
    /// `t`: it names a slot `t` holds, its address is the one the current
    /// array resolves to, and no reallocation has happened since it was
    /// made.
    pub open spec fn valid_for(self, t: ThreadView) -> bool {
        &&& self.epoch == t.epoch
        &&& t.in_range(self.module as int, self.key as int)
        &&& self.addr == t.block_bases[self.module as int] + self.key
    }
}

/// The pointer [`static_ptr`] resolves for module `m` and key `k` against
/// thread state `t`.
pub open spec fn spec_static_ptr(t: ThreadView, m: int, k: int) -> SlotPointer {
    SlotPointer {
        addr: (t.block_bases[m] + k) as usize,
        epoch: t.epoch,
        module: m as usize,
        key: k as u32,
    }
}

/// The value a dereference of pointer `p` yields against thread state `t`.
pub open spec fn spec_read_ptr(t: ThreadView, p: SlotPointer) -> u32 {
    t.value_at(p.module as int, p.key as int)
}

/// Thread state `t` after the slot at key `k` of module `m` is overwritten
/// with `v` on this thread: that one cell changes and nothing else does.
pub open spec fn spec_set(t: ThreadView, m: int, k: int, v: u32) -> ThreadView {
    ThreadView { blocks: t.blocks.update(m, t.blocks[m].update(k, v)), ..t }
}

/// Returns the base address of the calling thread's TLS array.
///
/// On the machine this is a single segment-relative load: the operating
/// system publishes a per-thread control block through a segment register,
/// and the array's address sits at a fixed architecture-specific offset
/// inside it (see [`crate::tls_array_offset`]). The value is inherently
/// thread-private, so no synchronization is involved; but it is superseded
/// whenever a later module load makes the system reallocate the array, so
/// it must not be retained across such an event.
pub fn tls_array(t: &ThreadTls) -> (base: usize)
    ensures
        base == t@.array_base,
{
    tls_array_(t)
}

/// The architecture-specific half of [`tls_array`]: reads the array address
/// out of the thread's control block. Each supported architecture keeps the
/// field at a different fixed offset behind a different segment register;
/// both publish the same thing — the current address of this thread's TLS
/// array.
pub fn tls_array_(t: &ThreadTls) -> (base: usize)
    ensures
        base == t@.array_base,
{
    t.array_base
}

/// Returns the address of the TLS array entry for the module with
/// loader-assigned index `tls_index`: the array base plus the index scaled
/// by the architecture's pointer width. The machine loads the module's
/// block base from this address.
pub fn array_entry_address(t: &ThreadTls, tls_index: usize) -> (a: usize)
    requires
        t@.wf(),
        tls_index < t@.blocks.len(),
    ensures
        a == t@.array_base + tls_index * spec_index_multiplier(t@.arch),
{
    let base: usize = tls_array(t);
    let mult: usize = index_multiplier(t.arch);
    proof {
        assert(tls_index * mult <= t@.blocks.len() * mult) by (nonlinear_arith)
            requires
                tls_index < t@.blocks.len(),
                mult >= 0,
        ;
    }
    base + tls_index * mult
}

/// Resolves a pointer to the calling thread's private copy of the slot at
/// `key` within the block of the module at `tls_index`.
///
/// This is the whole resolution algorithm: the thread's array base, indexed
/// by the module's loader-assigned slot, yields the module's per-thread
/// block base; the key offsets into that block. The result is valid for
/// reads and writes only until the thread's TLS array is next reallocated —
/// re-resolve rather than retain it.
///
/// The key must belong to the module whose index is given: a key of one
/// module paired with the index of another resolves into the other module's
/// block, and what it finds there is whatever that block holds at the same
/// offset.
pub fn static_ptr(t: &ThreadTls, tls_index: usize, key: u32) -> (p: SlotPointer)
    requires
        t@.wf(),
        t@.in_range(tls_index as int, key as int),
    ensures
        p == spec_static_ptr(t@, tls_index as int, key as int),
        p.valid_for(t@),
{
    // The machine loads the module's block base from the array entry at
    // `array_entry_address(t, tls_index)`; the model holds the entries as
    // `block_bases` directly.
    let block_base: usize = t.block_bases[tls_index];
    let addr: usize = block_base + key as usize;
    SlotPointer { addr, epoch: t.epoch, module: tls_index, key }
}

/// Reads the value a resolved pointer leads to, on the thread whose state
/// is `t`. The pointer must still be current: a pointer resolved before the
/// last TLS array reallocation is stale and is not accepted.
pub fn read_ptr(t: &ThreadTls, p: &SlotPointer) -> (v: u32)
    requires
        p.valid_for(t@),
    ensures
        v == spec_read_ptr(t@, *p),
{
    t.blocks[p.module].cells[p.key as usize]
}

/// Writes `value` through a resolved pointer, on the thread whose state is
/// `t`: exactly the addressed cell changes. The pointer must still be
/// current, as for [`read_ptr`].
pub fn write_ptr(t: &mut ThreadTls, p: &SlotPointer, value: u32)
    requires
        old(t)@.wf(),
        p.valid_for(old(t)@),
    ensures
        final(t)@ == spec_set(old(t)@, p.module as int, p.key as int, value),
        final(t)@.wf(),
{
    let m: usize = p.module;
    let k: usize = p.key as usize;
    t.blocks[m].cells[k] = value;
    proof {
        assert(t@.blocks =~= spec_set(old(t)@, m as int, k as int, value).blocks);
        assert(t@ == spec_set(old(t)@, m as int, k as int, value));
    }
}

/// Returns the calling thread's value of the slot at `key` within the block
/// of the module at `tls_index`: resolves a pointer and reads through it at
/// once, so no pointer survives the call.
pub fn get_static(t: &ThreadTls, tls_index: usize, key: u32) -> (v: u32)
    requires
        t@.wf(),
        t@.in_range(tls_index as int, key as int),
    ensures
        v == t@.value_at(tls_index as int, key as int),
{
    let p = static_ptr(t, tls_index, key);
    read_ptr(t, &p)
}

/// Overwrites the calling thread's value of the slot at `key` within the
/// block of the module at `tls_index`. Only this thread's copy changes; the
/// slot's static image and every other thread's copy are untouched, and no
/// teardown runs on the overwritten value.
pub fn set_static(t: &mut ThreadTls, tls_index: usize, key: u32, value: u32)
    requires
        old(t)@.wf(),
        old(t)@.in_range(tls_index as int, key as int),
    ensures
        final(t)@ == spec_set(old(t)@, tls_index as int, key as int, value),
        final(t)@.wf(),
        final(t)@.value_at(tls_index as int, key as int) == value,
{
    let p = static_ptr(t, tls_index, key);
    write_ptr(t, &p, value);
}

/// A write changes exactly the addressed cell: every other slot of the
/// writing thread keeps its value. Together with the fact that a write is
/// a function of the writing thread's state alone, this is why no thread
/// ever observes another thread's writes.
pub proof fn lemma_set_frame(t: ThreadView, m: int, k: int, v: u32, m2: int, k2: int)
    requires
        t.in_range(m, k),
        t.in_range(m2, k2),
        m2 != m || k2 != k,
    ensures
        spec_set(t, m, k, v).value_at(m2, k2) == t.value_at(m2, k2),
{
}

/// Thread isolation: two threads freshly created for the same process each
/// observe a slot's initial value; after one of them overwrites its own
/// copy, that thread observes the written value for as long as it makes no
/// further write — reads change nothing — while the other thread's state,
/// which the write never touched, still holds the initial value.
pub proof fn lemma_thread_isolation(
    p: ProcessView,
    ta: ThreadView,
    tb: ThreadView,
    m: int,
    k: int,
    w: u32,
)
    requires
        ta.fresh_for(p),
        tb.fresh_for(p),
        0 <= m < p.modules.len(),
        0 <= k < p.modules[m].len(),
    ensures
        ta.value_at(m, k) == p.modules[m][k],
        tb.value_at(m, k) == p.modules[m][k],
        spec_set(ta, m, k, w).value_at(m, k) == w,
{
}

/// Persistence across nested threads: a value written on one thread
/// survives the creation and completion of any other thread; a thread
/// created fresh afterwards reads the slot's original initial value, never
/// the writing thread's value.
pub proof fn lemma_persistence_across_spawn(
    p: ProcessView,
    ta: ThreadView,
    tb: ThreadView,
    m: int,
    k: int,
    w: u32,
)
    requires
        ta.in_range(m, k),
        tb.fresh_for(p),
        0 <= m < p.modules.len(),
        0 <= k < p.modules[m].len(),
    ensures
        spec_set(ta, m, k, w).value_at(m, k) == w,
        tb.value_at(m, k) == p.modules[m][k],
{
}

/// Pointer/value equivalence: while no module load has intervened, reading
/// through a freshly resolved pointer yields exactly the value `get`
/// returns for the same slot.
pub proof fn lemma_pointer_value_equivalence(t: ThreadView, m: int, k: int)
    requires
        t.wf(),
        t.in_range(m, k),
        k <= u32::MAX,
    ensures
        spec_read_ptr(t, spec_static_ptr(t, m, k)) == t.value_at(m, k),
{
    assert(t.blocks.len() * spec_index_multiplier(t.arch) >= t.blocks.len()) by (nonlinear_arith)
        requires
            spec_index_multiplier(t.arch) >= 1,
    ;
}

} // verus!
