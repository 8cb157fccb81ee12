//! Manually managed thread-local storage for a Windows-style process ABI,
//! modelled as explicit, verifiable state.
//!
//! The real mechanism lives in processor registers and loader-owned memory: a
//! per-thread control block holds, at a fixed architecture-specific offset,
//! the address of that thread's TLS array; the array holds one pointer per
//! loaded module; each pointer leads to the thread's private copy of that
//! module's thread-local data; a section-relative key locates one slot within
//! such a block. This crate models every one of those moving parts as plain
//! data, so that the resolution arithmetic, the get/set accessors and the
//! destructor protocol can be specified and proved. Nothing here is ambient:
//! each operation takes the thread's state explicitly, which is also what
//! makes the isolation guarantees (no thread ever reads another thread's
//! copy) structural.

use vstd::prelude::*;

mod arch;
mod dtor;
mod dylib;
mod raw_internal;
mod slots;
mod thread;

pub use arch::index_multiplier;
pub use arch::tls_array_offset;
pub use arch::tls_directive;
pub use arch::Arch;
pub use dtor::begin_drain;
pub use dtor::can_register;
pub use dtor::discard_list;
pub use dtor::drain_next;
pub use dtor::drain_order;
pub use dtor::drop_locals;
pub use dtor::end_drain;
pub use dtor::register_dtor;
pub use dtor::spec_drain_next;
pub use dtor::spec_drop_locals;
pub use dtor::spec_register;
pub use dtor::spec_tls_callback;
pub use dtor::state;
pub use dtor::tls_callback;
pub use dtor::DtorRegistry;
pub use dtor::DtorState;
pub use dtor::DtorView;
pub use dtor::lemma_drain_lifo;
pub use dtor::lemma_drain_order_contains;
pub use dtor::lemma_drain_order_is_reverse;
pub use dtor::lemma_dtor_isolation;
pub use dtor::lemma_reentrant_registration;
pub use dtor::lemma_terminal_after_detach;
pub use dtor::DLL_PROCESS_DETACH;
pub use dtor::DLL_THREAD_DETACH;
pub use dylib::get_module_value;
pub use dylib::get_the_value;
pub use dylib::inline_the_value;
pub use raw_internal::array_entry_address;
pub use raw_internal::get_static;
pub use raw_internal::lemma_persistence_across_spawn;
pub use raw_internal::lemma_pointer_value_equivalence;
pub use raw_internal::lemma_set_frame;
pub use raw_internal::lemma_thread_isolation;
pub use raw_internal::read_ptr;
pub use raw_internal::set_static;
pub use raw_internal::spec_read_ptr;
pub use raw_internal::spec_set;
pub use raw_internal::spec_static_ptr;
pub use raw_internal::static_ptr;
pub use raw_internal::tls_array;
pub use raw_internal::tls_array_;
pub use raw_internal::write_ptr;
pub use raw_internal::SlotPointer;
pub use slots::static_key;
pub use slots::ModuleImage;
pub use slots::Slot;
pub use thread::extended_blocks;
pub use thread::refresh_thread;
pub use thread::spawn_thread;
pub use thread::ProcessTls;
pub use thread::ProcessView;
pub use thread::ThreadTls;
pub use thread::ThreadView;
pub use thread::TlsBlock;

verus! {

/// Enables setting or getting a static thread-local value.
///
/// The pair of a declared slot's key and its module's loader-assigned index
/// — everything an access needs — captured at declaration, so that every
/// later call is already correctly paired. One value lives per thread; it
/// is materialized from the static image when the thread's block is
/// created, and no teardown ever runs on it (register a destructor through
/// [`register_dtor`] where cleanup is wanted).
#[derive(Clone, Copy, Debug, PartialEq, Eq, Structural)]
pub struct StaticThreadLocal {
    /// The loader-assigned TLS array index of the declaring module.
    pub tls_index: usize,
    /// The declared slot's section-relative key.
    pub key: u32,
}

impl StaticThreadLocal {
    /// Bundles a declared slot with its module's loader-assigned index:
    /// the accessor is paired once, here, rather than at each call.
    pub fn new(tls_index: usize, slot: &Slot) -> (l: StaticThreadLocal)
        ensures
            l.tls_index == tls_index,
            l.key == slot.key,
    {
        StaticThreadLocal { tls_index, key: static_key(slot) }
    }

    /// Returns the calling thread's value of the thread local.
    pub fn get(&self, t: &ThreadTls) -> (v: u32)
        requires
            t@.wf(),
            t@.in_range(self.tls_index as int, self.key as int),
        ensures
            v == t@.value_at(self.tls_index as int, self.key as int),
    {
        get_static(t, self.tls_index, self.key)
    }

    /// Sets the calling thread's value of the thread local. No other
    /// thread's copy, and no other slot of this thread, changes.
    pub fn set(&self, t: &mut ThreadTls, value: u32)
        requires
            old(t)@.wf(),
            old(t)@.in_range(self.tls_index as int, self.key as int),
        ensures
            final(t)@ == spec_set(old(t)@, self.tls_index as int, self.key as int, value),
            final(t)@.wf(),
    {
        set_static(t, self.tls_index, self.key, value)
    }
}

/// Grants raw access to a thread local through a resolved pointer.
///
/// A resolved pointer is as short-lived as the TLS array it was resolved
/// against: if a later module load makes the system reallocate a thread's
/// array, the old array is superseded but not freed, and every pointer
/// resolved before that moment keeps leading to the stale copy. The model
/// enforces the only safe discipline — resolve, use, discard — by stamping
/// each pointer with the array's epoch and accepting it back only while
/// that epoch is current.
#[derive(Clone, Copy, Debug, PartialEq, Eq, Structural)]
pub struct UnsafeLocal {
    /// The loader-assigned TLS array index of the declaring module.
    pub tls_index: usize,
    /// The declared slot's section-relative key.
    pub key: u32,
}

impl UnsafeLocal {
    /// Bundles a declared slot with its module's loader-assigned index.
    pub fn new(tls_index: usize, slot: &Slot) -> (l: UnsafeLocal)
        ensures
            l.tls_index == tls_index,
            l.key == slot.key,
    {
        UnsafeLocal { tls_index, key: static_key(slot) }
    }

    /// Resolves a pointer to the calling thread's copy of the value. The
    /// result should be used and discarded at once: it goes stale at the
    /// next TLS array reallocation.
    pub fn as_ptr(&self, t: &ThreadTls) -> (p: SlotPointer)
        requires
            t@.wf(),
            t@.in_range(self.tls_index as int, self.key as int),
        ensures
            p == spec_static_ptr(t@, self.tls_index as int, self.key as int),
            p.valid_for(t@),
    {
        static_ptr(t, self.tls_index, self.key)
    }

    /// Borrows the calling thread's copy of the value. The borrow should be
    /// as short-lived as a resolved pointer: no mutation, and no module
    /// load, may happen while it is held — which the borrow itself now
    /// enforces.
    pub fn as_ref<'a>(&self, t: &'a ThreadTls) -> (r: &'a u32)
        requires
            t@.wf(),
            t@.in_range(self.tls_index as int, self.key as int),
        ensures
            *r == t@.value_at(self.tls_index as int, self.key as int),
    {
        &t.blocks[self.tls_index].cells[self.key as usize]
    }

    /// Borrows the calling thread's copy of the value mutably: all mutation
    /// goes through this one borrow while it lives, and the thread's state
    /// afterwards records exactly the value the borrower left behind.
    pub fn as_ref_mut<'a>(&self, t: &'a mut ThreadTls) -> (r: &'a mut u32)
        requires
            old(t)@.wf(),
            old(t)@.in_range(self.tls_index as int, self.key as int),
        ensures
            *r == old(t)@.value_at(self.tls_index as int, self.key as int),
            final(t)@ == spec_set(
                old(t)@,
                self.tls_index as int,
                self.key as int,
                *final(r),
            ),
            final(t)@.wf(),
    {
        let m: usize = self.tls_index;
        let k: usize = self.key as usize;
        &mut t.blocks[m].cells[k]
    }
}

} // verus!
