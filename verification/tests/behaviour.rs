use atomic_pingpong::flags::{
    can_lock_read, can_lock_write, is_flipped, try_lock_read, try_lock_write, with_read_lock, with_read_released,
    with_read_relocked, with_write_lock, with_write_released, with_write_relocked,
};
use atomic_pingpong::{Buffer, Slot};
use atomic_pingpong::buffer::designated_slot;
use core::mem::MaybeUninit;

#[test]
fn new_sets_both_elements() {
    let mut b: Buffer<u64> = Buffer::new(7);
    let r = b.read().unwrap();
    let w = b.write().unwrap();
    assert_eq!(*b.get(&r), 7);
    assert_eq!(*b.get_written(&w), 7);
    b.end_write(w);
    b.end_read(r);
}

#[test]
fn default_elements_are_default() {
    let mut b: Buffer<u8> = Buffer::default();
    assert_eq!(*b.read_unchecked(), 0);
    assert_eq!(*b.write_unchecked(), 0);
}

#[test]
fn uninit_buffer_can_be_written_and_read() {
    let mut b: Buffer<MaybeUninit<i32>> = Buffer::uninit();
    assert!(b.read_once().is_none());
    let w = b.write().unwrap();
    b.get_mut(&w).write(5);
    b.end_write(w);
    assert!(b.read_once().is_some());
}

#[test]
fn reader_and_writer_hold_different_elements() {
    let mut b: Buffer<i32> = Buffer::default();
    let r = b.read().unwrap();
    let w = b.write().unwrap();
    *b.get_mut(&w) = 9;
    assert_eq!(*b.get_written(&w), 9);
    assert_eq!(*b.get(&r), 0);
    b.end_read(r);
    assert_eq!(*b.get_written(&w), 9);
    b.end_write(w);
}

#[test]
fn finished_write_is_read_next() {
    let mut b: Buffer<i32> = Buffer::new(0);
    let w = b.write().unwrap();
    *b.get_mut(&w) = 3;
    b.end_write(w);
    let r = b.read().unwrap();
    assert_eq!(*b.get(&r), 3);
    b.end_read(r);
    // the element that was read is the one written next
    let w = b.write().unwrap();
    assert_eq!(*b.get_written(&w), 0);
    b.end_write(w);
}

#[test]
fn swap_waits_for_the_read_in_progress() {
    let mut b: Buffer<i32> = Buffer::new(0);
    let r = b.read().unwrap();
    let w = b.write().unwrap();
    *b.get_mut(&w) = 4;
    b.end_write(w);
    assert_eq!(*b.get(&r), 0);
    assert!(b.read().is_none());
    b.end_read(r);
    let r = b.read_once().unwrap();
    assert_eq!(*b.get(&r), 4);
    b.end_read(r);
}

#[test]
fn no_swap_while_a_write_is_in_progress() {
    let mut b: Buffer<i32> = Buffer::new(0);
    let w = b.write().unwrap();
    *b.get_mut(&w) = 5;
    let r = b.read().unwrap();
    b.end_read(r);
    let r = b.read().unwrap();
    assert_eq!(*b.get(&r), 0);
    b.end_read(r);
    b.end_write(w);
    let r = b.read().unwrap();
    assert_eq!(*b.get(&r), 5);
    b.end_read(r);
}

#[test]
fn read_once_hands_out_data_once() {
    let mut b: Buffer<i32> = Buffer::new(0);
    let w = b.write().unwrap();
    *b.get_mut(&w) = 6;
    b.end_write(w);
    let r = b.read().unwrap();
    assert_eq!(*b.get(&r), 6);
    b.end_read(r);
    assert!(b.read_once().is_none());
    assert!(b.read().is_some());
}

#[test]
fn write_no_discard_allowed_again_after_read() {
    let mut b: Buffer<i32> = Buffer::new(0);
    let w = b.write_no_discard().unwrap();
    b.end_write(w);
    assert!(b.write_no_discard().is_none());
    let r = b.read().unwrap();
    let w = b.write_no_discard().unwrap();
    b.end_write(w);
    b.end_read(r);
}

#[test]
fn write_unchecked_without_write_only_locks() {
    let mut b: Buffer<i32> = Buffer::new(0);
    *b.write_unchecked() = 8;
    assert!(b.write().is_none());
    assert!(b.read_once().is_none());
    assert_eq!(*b.read_unchecked(), 0);
    b.release_read();
    b.release_write();
    let r = b.read_once().unwrap();
    assert_eq!(*b.get(&r), 8);
    b.end_read(r);
}

#[test]
fn read_unchecked_matches_release_then_read() {
    let mut a: Buffer<i32> = Buffer::new(0);
    let mut c: Buffer<i32> = Buffer::new(0);
    for b in [&mut a, &mut c] {
        let r = b.read().unwrap();
        let w = b.write().unwrap();
        *b.get_mut(&w) = 2;
        b.end_write(w);
        core::mem::forget(r);
    }
    let x = *a.read_unchecked();
    c.release_read();
    let r = c.read().unwrap();
    let y = *c.get(&r);
    assert_eq!(x, 2);
    assert_eq!(y, 2);
    assert!(a.read().is_none());
    assert!(c.read().is_none());
}

#[test]
fn designated_slots() {
    assert_eq!(designated_slot(false, true), Slot::Ping);
    assert_eq!(designated_slot(false, false), Slot::Pong);
    assert_eq!(designated_slot(true, true), Slot::Pong);
    assert_eq!(designated_slot(true, false), Slot::Ping);
}

#[test]
fn flag_byte_transitions() {
    assert!(can_lock_read(0, true));
    assert!(!can_lock_read(0, false));
    assert!(can_lock_read(16, false));
    assert!(!can_lock_read(17, true));
    assert!(can_lock_write(0, false));
    assert!(!can_lock_write(16, false));
    assert!(can_lock_write(16, true));
    assert!(!can_lock_write(2, true));
    assert_eq!(with_read_lock(16), 1);
    assert_eq!(with_write_lock(1), 3);
    assert_eq!(with_write_released(2), 20);
    assert_eq!(with_write_released(3), 25);
    assert_eq!(with_read_released(25), 20);
    assert_eq!(with_read_released(27), 26);
    assert_eq!(with_read_relocked(24), 5);
    assert_eq!(with_write_relocked(0), 2);
    assert_eq!(with_write_relocked(2), 22);
    assert!(!can_lock_read(24, false));
    assert!(can_lock_read(24, true));
    assert_eq!(try_lock_read(16, false), Some(1));
    assert_eq!(try_lock_read(24, false), None);
    assert_eq!(try_lock_read(1, true), None);
    assert_eq!(try_lock_write(16, false), None);
    assert_eq!(try_lock_write(16, true), Some(18));
    assert_eq!(try_lock_write(0, true), Some(2));
    assert_eq!(with_read_lock(0x90), 0x81);
    assert_eq!(with_write_released(0xe2), 0xf4);
    assert_eq!(try_lock_write(0x40, true), Some(0x42));
    assert!(is_flipped(4));
    assert!(!is_flipped(27));
}

#[test]
fn read_once_refused_while_swap_owed() {
    let mut b: Buffer<i32> = Buffer::default();
    let r = b.read().unwrap();
    let w = b.write().unwrap();
    *b.get_mut(&w) = 1;
    b.end_write(w);
    let w = b.write().unwrap();
    b.end_read(r);
    assert!(b.read_once().is_none());
    *b.get_mut(&w) = 2;
    b.end_write(w);
    let r = b.read_once().unwrap();
    assert_eq!(*b.get(&r), 2);
    b.end_read(r);
    assert!(b.read_once().is_none());
}

#[test]
fn last_of_several_writes_during_a_read_is_read_next() {
    let mut b: Buffer<i32> = Buffer::default();
    let r = b.read().unwrap();
    for v in 1..4 {
        let w = b.write().unwrap();
        *b.get_mut(&w) = v;
        b.end_write(w);
    }
    assert_eq!(*b.get(&r), 0);
    b.end_read(r);
    let r = b.read_once().unwrap();
    assert_eq!(*b.get(&r), 3);
    b.end_read(r);
}
