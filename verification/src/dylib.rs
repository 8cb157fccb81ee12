//! Reading a dynamically loaded module's thread local from the right block.
//!
//! Every loaded module occupies its own slot of a thread's TLS array, so a
//! thread-local access compiles down to "this module's index, this key".
//! Code that is inlined across a module boundary carries the key along but
//! picks up the *calling* module's index, and so resolves into the caller's
//! block — the same offset, different data. The three entry points here
//! spell the difference out: one resolves with whatever index the executing
//! module has, one is never inlined and so always uses the declaring
//! module's own index, and one carries the declaring module's index with
//! the data, which stays correct no matter where the code lands.

use vstd::prelude::*;

use crate::raw_internal::get_static;
use crate::thread::ThreadTls;

verus! {

/// Reads the slot at `key` through the index of the module the code
/// executes in. When this code is inlined into another module,
/// `executing_index` is that other module's index: the read lands at the
/// same offset of the caller's block and yields whatever that block holds
/// there — not the declaring module's value.
pub fn inline_the_value(t: &ThreadTls, executing_index: usize, key: u32) -> (v: u32)
    requires
        t@.wf(),
        t@.in_range(executing_index as int, key as int),
    ensures
        v == t@.value_at(executing_index as int, key as int),
{
    get_static(t, executing_index, key)
}

/// Reads the slot at `key` through the declaring module's own index.
/// Because this entry point is never inlined away from its module,
/// `lib_index` is always the declaring module's index and the read always
/// lands in the declaring module's block.
pub fn get_the_value(t: &ThreadTls, lib_index: usize, key: u32) -> (v: u32)
    requires
        t@.wf(),
        t@.in_range(lib_index as int, key as int),
    ensures
        v == t@.value_at(lib_index as int, key as int),
{
    get_static(t, lib_index, key)
}

/// Reads the slot at `key` of the module at `module`: the index travels
/// with the data rather than with the code, so the read resolves into the
/// declaring module's block no matter which module the call was inlined
/// into.
pub fn get_module_value(t: &ThreadTls, module: usize, key: u32) -> (v: u32)
    requires
        t@.wf(),
        t@.in_range(module as int, key as int),
    ensures
        v == t@.value_at(module as int, key as int),
{
    get_static(t, module, key)
}

} // verus!
