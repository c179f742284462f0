use atomic_pingpong::Buffer;

/// Writes `v` through a write that ends at once.
fn write_value(b: &mut Buffer<i32>, v: i32) {
    let w = b.write().unwrap();
    *b.get_mut(&w) = v;
    b.end_write(w);
}

/// Writes `v` through a `write_no_discard` that ends at once.
fn write_no_discard_value(b: &mut Buffer<i32>, v: i32) {
    let w = b.write_no_discard().unwrap();
    *b.get_mut(&w) = v;
    b.end_write(w);
}

/// Reads through a read that ends at once.
fn read_value(b: &mut Buffer<i32>) -> i32 {
    let r = b.read().unwrap();
    let v = *b.get(&r);
    b.end_read(r);
    v
}

/// Reads through a `read_once` that ends at once.
fn read_once_value(b: &mut Buffer<i32>) -> i32 {
    let r = b.read_once().unwrap();
    let v = *b.get(&r);
    b.end_read(r);
    v
}

/// Whether a read can begin; a read that began is ended at once.
fn read_succeeds(b: &mut Buffer<i32>) -> bool {
    match b.read() {
        Some(r) => {
            b.end_read(r);
            true
        }
        None => false,
    }
}

/// Whether a write can begin; a write that began is ended at once.
fn write_succeeds(b: &mut Buffer<i32>) -> bool {
    match b.write() {
        Some(w) => {
            b.end_write(w);
            true
        }
        None => false,
    }
}

/// Whether a `write_no_discard` can begin; a write that began is ended at once.
fn write_no_discard_succeeds(b: &mut Buffer<i32>) -> bool {
    match b.write_no_discard() {
        Some(w) => {
            b.end_write(w);
            true
        }
        None => false,
    }
}

#[test]
fn swap_after_read() {
    let mut b: Buffer<i32> = Buffer::default();
    write_value(&mut b, 1);
    let r = b.read().unwrap();
    write_value(&mut b, 2);
    assert_eq!(*b.get(&r), 1);
    b.end_read(r);
    assert_eq!(read_value(&mut b), 2);
    assert_eq!(read_value(&mut b), 2);
}

#[test]
fn swap_after_write() {
    let mut b: Buffer<i32> = Buffer::default();
    write_value(&mut b, 1);
    let w = b.write().unwrap();
    *b.get_mut(&w) = 2;
    assert_eq!(read_value(&mut b), 1);
    b.end_write(w);
    assert_eq!(read_value(&mut b), 2);
    assert_eq!(read_value(&mut b), 2);
}

#[test]
fn no_swap_after_interleaved() {
    let mut b: Buffer<i32> = Buffer::default();
    let w = b.write().unwrap();
    *b.get_mut(&w) = 1;
    let r = b.read().unwrap();
    b.end_write(w);
    assert_eq!(*b.get(&r), 0);
    b.end_read(r);
    assert_eq!(read_value(&mut b), 1);
    assert_eq!(read_value(&mut b), 1);
}

#[test]
fn no_double_read() {
    let mut b: Buffer<i32> = Buffer::default();
    let r = b.read().unwrap();
    assert!(b.read().is_none());
    b.end_read(r);
    assert_eq!(read_value(&mut b), 0);
}

#[test]
fn no_double_write() {
    let mut b: Buffer<i32> = Buffer::default();
    let w = b.write().unwrap();
    assert!(b.write().is_none());
    b.end_write(w);
    assert!(write_succeeds(&mut b));
}

#[test]
fn read_once() {
    let mut b: Buffer<i32> = Buffer::default();
    assert!(b.read_once().is_none());
    write_value(&mut b, 1);
    assert_eq!(read_once_value(&mut b), 1);
    assert!(b.read_once().is_none());
}

#[test]
fn read_once_after_read() {
    let mut b: Buffer<i32> = Buffer::default();
    let r = b.read().unwrap();
    write_value(&mut b, 1);
    assert!(b.read_once().is_none());
    b.end_read(r);
    assert_eq!(read_once_value(&mut b), 1);
}

#[test]
fn write_no_discard() {
    let mut b: Buffer<i32> = Buffer::default();
    write_no_discard_value(&mut b, 1);
    assert!(b.write_no_discard().is_none());
    assert!(read_succeeds(&mut b));
    assert!(write_no_discard_succeeds(&mut b));
}

#[test]
fn write_no_discard_while_reading() {
    let mut b: Buffer<i32> = Buffer::default();
    let r = b.read().unwrap();
    write_no_discard_value(&mut b, 1);
    assert!(b.write_no_discard().is_none());
    b.end_read(r);
    assert!(b.write_no_discard().is_none());
    assert_eq!(read_once_value(&mut b), 1);
    assert!(write_no_discard_succeeds(&mut b));
}

#[test]
fn release_read() {
    let mut b: Buffer<i32> = Buffer::default();
    let r = b.read().unwrap();
    core::mem::forget(r);
    assert!(b.read().is_none());
    b.release_read();
    assert!(read_succeeds(&mut b));
}

#[test]
fn release_write() {
    let mut b: Buffer<i32> = Buffer::default();
    let w = b.write().unwrap();
    core::mem::forget(w);
    assert!(b.write().is_none());
    b.release_write();
    assert!(write_succeeds(&mut b));
}

#[test]
fn read_unchecked() {
    let mut b: Buffer<i32> = Buffer::default();
    assert_eq!(*b.read_unchecked(), 0);
    write_value(&mut b, 1);
    assert_eq!(*b.read_unchecked(), 1);
    write_value(&mut b, 2);
    b.release_read();
    assert_eq!(read_value(&mut b), 2);
}

#[test]
fn write_unchecked_and_read_once() {
    let mut b: Buffer<i32> = Buffer::default();
    assert!(b.read_once().is_none());
    *b.write_unchecked() = 1;
    assert!(b.read_once().is_none());
    *b.write_unchecked() = 2;
    assert_eq!(read_once_value(&mut b), 1);
    b.release_write();
    assert_eq!(read_once_value(&mut b), 2);
}
