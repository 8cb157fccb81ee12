//! The thread-state model: thread creation, module loading and the TLS
//! array reallocation it forces, the typed accessors, the platform
//! constants, and reading across module boundaries.

use wintls::array_entry_address;
use wintls::get_module_value;
use wintls::get_static;
use wintls::get_the_value;
use wintls::index_multiplier;
use wintls::inline_the_value;
use wintls::refresh_thread;
use wintls::set_static;
use wintls::spawn_thread;
use wintls::static_key;
use wintls::static_ptr;
use wintls::tls_array;
use wintls::tls_array_offset;
use wintls::Arch;
use wintls::ModuleImage;
use wintls::ProcessTls;
use wintls::StaticThreadLocal;
use wintls::UnsafeLocal;

#[test]
fn platform_constants() {
    assert_eq!(index_multiplier(Arch::X64), 8);
    assert_eq!(index_multiplier(Arch::X86), 4);
    assert_eq!(tls_array_offset(Arch::X64), 0x58);
    assert_eq!(tls_array_offset(Arch::X86), 0x2c);
}

#[test]
fn linker_directives_name_the_tls_directory() {
    assert_eq!(wintls::tls_directive(Arch::X64), "/INCLUDE:_tls_used ");
    assert_eq!(wintls::tls_directive(Arch::X86), "/INCLUDE:__tls_used ");
    assert_eq!(wintls::tls_directive(Arch::X64).len(), 19);
    assert_eq!(wintls::tls_directive(Arch::X86).len(), 20);
}

#[test]
fn resolution_at_the_top_of_the_address_space() {
    // The loader may place blocks anywhere the arithmetic still fits: a
    // one-slot block whose last cell ends exactly at the address space's
    // top edge resolves without overflow.
    let mut image = ModuleImage::new();
    let slot = image.init_static(42);
    let mut process = ProcessTls::new(Arch::X64);
    let index = process.load_module(image);
    let array_base = usize::MAX - 8;
    let block_base = usize::MAX - 1;
    let thread = spawn_thread(&process, array_base, vec![block_base]);
    assert_eq!(array_entry_address(&thread, index), array_base);
    let pointer = static_ptr(&thread, index, static_key(&slot));
    assert_eq!(pointer.addr, block_base);
    assert_eq!(wintls::read_ptr(&thread, &pointer), 42);
}

#[test]
fn array_entry_addresses_step_by_pointer_width() {
    let mut process = ProcessTls::new(Arch::X64);
    let mut first = ModuleImage::new();
    first.init_static(0);
    let mut second = ModuleImage::new();
    second.init_static(0);
    let index_a = process.load_module(first);
    let index_b = process.load_module(second);
    let thread = spawn_thread(&process, 0x1000, vec![0x2000, 0x3000]);
    assert_eq!(tls_array(&thread), 0x1000);
    assert_eq!(array_entry_address(&thread, index_a), 0x1000);
    assert_eq!(array_entry_address(&thread, index_b), 0x1000 + 8);
}

#[test]
fn isolation_between_two_threads() {
    let mut image = ModuleImage::new();
    let slot = image.init_static(0xfeedface);
    let key = static_key(&slot);
    let mut process = ProcessTls::new(Arch::X64);
    let index = process.load_module(image);

    // Two threads that never called set each observe the initial value.
    let mut thread_a = spawn_thread(&process, 0x10, vec![0x20]);
    let thread_b = spawn_thread(&process, 0x30, vec![0x40]);
    assert_eq!(get_static(&thread_a, index, key), 0xfeedface);
    assert_eq!(get_static(&thread_b, index, key), 0xfeedface);

    // A thread that set a value keeps observing it across any number of
    // reads, while the other thread still observes the initial value.
    set_static(&mut thread_a, index, key, 0xbeef);
    assert_eq!(get_static(&thread_a, index, key), 0xbeef);
    assert_eq!(get_static(&thread_a, index, key), 0xbeef);
    assert_eq!(get_static(&thread_b, index, key), 0xfeedface);
}

#[test]
fn fresh_thread_after_set_reads_initial_value() {
    let mut image = ModuleImage::new();
    let slot = image.init_static(0xfeedface);
    let key = static_key(&slot);
    let mut process = ProcessTls::new(Arch::X64);
    let index = process.load_module(image);

    let mut thread_a = spawn_thread(&process, 0x10, vec![0x20]);
    set_static(&mut thread_a, index, key, 5);

    // A thread created afterwards reads the original initial value, not 5;
    // and the first thread still observes 5 once the second is gone.
    let thread_b = spawn_thread(&process, 0x30, vec![0x40]);
    assert_eq!(get_static(&thread_b, index, key), 0xfeedface);
    drop(thread_b);
    assert_eq!(get_static(&thread_a, index, key), 5);
}

#[test]
fn module_load_reallocates_and_preserves_contents() {
    let mut image = ModuleImage::new();
    let slot = image.init_static(1);
    let key = static_key(&slot);
    let mut process = ProcessTls::new(Arch::X64);
    let index = process.load_module(image);
    let mut thread = spawn_thread(&process, 0x100, vec![0x200]);
    set_static(&mut thread, index, key, 77);

    // A pointer resolved now carries the current epoch.
    let pointer = static_ptr(&thread, index, key);
    assert_eq!(pointer.epoch, 0);

    // A later module load reallocates the thread's array: the old contents
    // are copied across, the new module's block starts from its image, and
    // the epoch moves on — the old pointer is stale.
    let mut late = ModuleImage::new();
    let late_slot = late.init_static(9);
    let late_index = process.load_module(late);
    refresh_thread(&process, &mut thread, 0x1000, vec![0x2000, 0x3000]);
    assert_eq!(thread.epoch, 1);
    assert_eq!(get_static(&thread, index, key), 77);
    assert_eq!(get_static(&thread, late_index, static_key(&late_slot)), 9);
    let fresh = static_ptr(&thread, index, key);
    assert_eq!(fresh.epoch, 1);
    assert_ne!(pointer.epoch, thread.epoch);
}

#[test]
fn typed_accessors_forward_to_the_raw_layer() {
    let mut image = ModuleImage::new();
    let slot = image.init_static(0xfeedface);
    let mut process = ProcessTls::new(Arch::X86);
    let index = process.load_module(image);
    let mut thread = spawn_thread(&process, 0x10, vec![0x20]);

    let local = StaticThreadLocal::new(index, &slot);
    assert_eq!(local.get(&thread), 0xfeedface);
    local.set(&mut thread, 5);
    assert_eq!(local.get(&thread), 5);

    let unsafe_local = UnsafeLocal::new(index, &slot);
    let pointer = unsafe_local.as_ptr(&thread);
    assert_eq!(wintls::read_ptr(&thread, &pointer), 5);
    *unsafe_local.as_ref_mut(&mut thread) = 7;
    assert_eq!(*unsafe_local.as_ref(&thread), 7);
    assert_eq!(local.get(&thread), 7);
}

#[test]
fn initial_values_come_from_the_static_image() {
    let mut image = ModuleImage::new();
    let first = image.init_static(0xaaaa);
    let second = image.init_static(0xbbbb);
    assert_eq!(image.len(), 2);
    assert_eq!(image.initial_value(static_key(&first)), 0xaaaa);
    assert_eq!(image.initial_value(static_key(&second)), 0xbbbb);
}

#[test]
fn inlined_reads_resolve_into_the_executing_module() {
    // Module 0 (the executable) and module 1 (the library) each hold one
    // slot at offset 0; the library's is initialized to 0xfeedface.
    let mut exe = ModuleImage::new();
    exe.init_static(0x11111111);
    let mut lib = ModuleImage::new();
    let lib_slot = lib.init_static(0xfeedface);
    let key = static_key(&lib_slot);
    let mut process = ProcessTls::new(Arch::X64);
    let exe_index = process.load_module(exe);
    let lib_index = process.load_module(lib);
    let thread = spawn_thread(&process, 0x100, vec![0x200, 0x300]);

    // The un-inlined entry point reads the library's block.
    assert_eq!(get_the_value(&thread, lib_index, key), 0xfeedface);
    // Inlined into the executable, the same code resolves with the
    // executable's index: same offset, the other module's data.
    assert_eq!(inline_the_value(&thread, exe_index, key), 0x11111111);
    // Carrying the module index with the data stays correct either way.
    assert_eq!(get_module_value(&thread, lib_index, key), 0xfeedface);
}
