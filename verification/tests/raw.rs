//! The raw accessor surface, exercised end to end: declare a slot, load the
//! module, create per-thread state, and read and write through keys and
//! resolved pointers.

use wintls::get_static;
use wintls::read_ptr;
use wintls::set_static;
use wintls::spawn_thread;
use wintls::static_key;
use wintls::static_ptr;
use wintls::write_ptr;
use wintls::Arch;
use wintls::ModuleImage;
use wintls::ProcessTls;
use wintls::ThreadTls;

/// One process with one module holding one slot initialized to 0xfeedface;
/// returns the process, the module's index and the slot's key.
fn one_slot_process() -> (ProcessTls, usize, u32) {
    let mut image = ModuleImage::new();
    let slot = image.init_static(0xfeedface);
    let key: u32 = static_key(&slot);
    let mut process = ProcessTls::new(Arch::X64);
    let index = process.load_module(image);
    (process, index, key)
}

fn spawn(process: &ProcessTls, array_base: usize, block_base: usize) -> ThreadTls {
    spawn_thread(process, array_base, vec![block_base])
}

#[test]
fn raw_get_set() {
    let (process, index, key) = one_slot_process();
    let mut thread_a = spawn(&process, 0x1000, 0x2000);

    // Get the value.
    let value: u32 = get_static(&thread_a, index, key);
    assert_eq!(value, 0xfeedface);

    // Set the value.
    set_static(&mut thread_a, index, key, 5);

    // Get the value again.
    let value: u32 = get_static(&thread_a, index, key);
    assert_eq!(value, 5);

    // A fresh thread starts from the default...
    let thread_b = spawn(&process, 0x3000, 0x4000);
    let value: u32 = get_static(&thread_b, index, key);
    assert_eq!(value, 0xfeedface);

    // ...but the first thread's value is the same.
    let value: u32 = get_static(&thread_a, index, key);
    assert_eq!(value, 5);
}

#[test]
fn raw_ptr() {
    let (process, index, key) = one_slot_process();
    let mut thread_a = spawn(&process, 0x1000, 0x2000);

    // Get a pointer to the value.
    let value = static_ptr(&thread_a, index, key);
    assert_eq!(read_ptr(&thread_a, &value), 0xfeedface);

    // Set the value through the pointer.
    write_ptr(&mut thread_a, &value, 5);

    // Get the value again.
    let value = static_ptr(&thread_a, index, key);
    assert_eq!(read_ptr(&thread_a, &value), 5);

    // A fresh thread starts from the default...
    let thread_b = spawn(&process, 0x3000, 0x4000);
    let value = static_ptr(&thread_b, index, key);
    assert_eq!(read_ptr(&thread_b, &value), 0xfeedface);

    // ...but the first thread's value is the same.
    let value = static_ptr(&thread_a, index, key);
    assert_eq!(read_ptr(&thread_a, &value), 5);
}

#[test]
fn pointer_and_get_agree() {
    let (process, index, key) = one_slot_process();
    let mut thread = spawn(&process, 0, 0x100);
    set_static(&mut thread, index, key, 0xabcd);
    let pointer = static_ptr(&thread, index, key);
    assert_eq!(read_ptr(&thread, &pointer), get_static(&thread, index, key));
}

#[test]
fn resolved_address_is_block_base_plus_key() {
    let mut image = ModuleImage::new();
    let _first = image.init_static(1);
    let second = image.init_static(2);
    let mut process = ProcessTls::new(Arch::X64);
    let index = process.load_module(image);
    let thread = spawn_thread(&process, 0x1000, vec![0x2000]);
    let key = static_key(&second);
    assert_eq!(key, 1);
    let pointer = static_ptr(&thread, index, key);
    assert_eq!(pointer.addr, 0x2000 + 1);
    assert_eq!(pointer.module, index);
    assert_eq!(pointer.key, 1);
    assert_eq!(pointer.epoch, 0);
    assert_eq!(read_ptr(&thread, &pointer), 2);
}

#[test]
fn writes_leave_other_slots_alone() {
    let mut image = ModuleImage::new();
    let first = image.init_static(10);
    let second = image.init_static(20);
    let mut process = ProcessTls::new(Arch::X86);
    let index = process.load_module(image);
    let mut thread = spawn_thread(&process, 0x40, vec![0x80]);
    set_static(&mut thread, index, static_key(&first), 11);
    assert_eq!(get_static(&thread, index, static_key(&first)), 11);
    assert_eq!(get_static(&thread, index, static_key(&second)), 20);
}
