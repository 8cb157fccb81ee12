//! The narrow platform-resolution interface: the two processor architectures
//! supported, and the two fixed constants that differ between them.
//!
//! Everything above this module is architecture-agnostic; the only facts the
//! rest of the crate takes from the platform are the width of one TLS array
//! entry and the offset, within the per-thread control block, of the field
//! that holds the TLS array's address.

use vstd::prelude::*;

verus! {

/// A supported processor architecture.
///
/// Only the two architectures of the Windows family addressed here appear;
/// an unsupported architecture is rejected at build configuration time, not
/// represented at run time.
#[derive(Clone, Copy, Debug, PartialEq, Eq, Structural)]
pub enum Arch {
    /// 64-bit: TLS array entries are 8 bytes wide; the per-thread control
    /// block publishes the array address at offset 0x58, reached through the
    /// `gs` segment register.
    X64,
    /// 32-bit: TLS array entries are 4 bytes wide; the per-thread control
    /// block publishes the array address at offset 0x2c, reached through the
    /// `fs` segment register.
    X86,
}

/// The width, in bytes, of one entry of the TLS array: the stride by which a
/// module index is turned into a byte offset into the array.
pub open spec fn spec_index_multiplier(arch: Arch) -> usize {
    match arch {
        Arch::X64 => 8,
        Arch::X86 => 4,
    }
}

/// The byte offset, within the per-thread control block, of the field that
/// holds the address of the thread's TLS array.
pub open spec fn spec_tls_array_offset(arch: Arch) -> usize {
    match arch {
        Arch::X64 => 0x58,
        Arch::X86 => 0x2c,
    }
}

/// Returns the width, in bytes, of one TLS array entry on `arch`.
pub fn index_multiplier(arch: Arch) -> (m: usize)
    ensures
        m == spec_index_multiplier(arch),
        m == 4 || m == 8,
{
    match arch {
        Arch::X64 => 8,
        Arch::X86 => 4,
    }
}

/// Returns the byte offset, within the per-thread control block, at which
/// the operating system publishes the thread's TLS array address on `arch`.
pub fn tls_array_offset(arch: Arch) -> (off: usize)
    ensures
        off == spec_tls_array_offset(arch),
{
    match arch {
        Arch::X64 => 0x58,
        Arch::X86 => 0x2c,
    }
}

/// Returns the directive a binary embeds, in its directive-carrying
/// section, to force the linker to keep the thread-local-data directory —
/// without it the loader would create no per-thread copies of the static
/// images. The directory's symbol is spelled with one more leading
/// underscore on the 32-bit architecture.
pub fn tls_directive(arch: Arch) -> (d: &'static str)
    ensures
        arch == Arch::X64 ==> d@ == "/INCLUDE:_tls_used "@,
        arch == Arch::X86 ==> d@ == "/INCLUDE:__tls_used "@,
{
    match arch {
        Arch::X64 => "/INCLUDE:_tls_used ",
        Arch::X86 => "/INCLUDE:__tls_used ",
    }
}

} // verus!
