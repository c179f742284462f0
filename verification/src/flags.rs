//! The flag byte that synchronizes producer and consumer, and the operations on it.
//!
//! The flags live in one byte so that a single update can change several of them at
//! once.  Every operation is stated over the abstract model of `crate::model`.

use vstd::prelude::*;

use crate::model::{
    StateBits, initial_state, state_inv, after_lock_read, after_lock_write, after_release_read,
    after_release_write, after_release_and_lock_read, after_release_and_lock_write,
    settle_after_read, publish_write,
};

verus! {

/// A read lock is held.
pub const LOCK_READ: u8 = 0b0000_0001;

/// A write lock is held.
pub const LOCK_WRITE: u8 = 0b0000_0010;

/// The roles of the two elements are swapped.
pub const MODE_IS_FLIPPED: u8 = 0b0000_0100;

/// A swap is owed and will happen as soon as no read is in progress.
pub const WANT_MODE_CHANGE: u8 = 0b0000_1000;

/// The element designated for reading holds data that has not been read yet.
pub const NEW_DATA_READY: u8 = 0b0001_0000;

/// Reads the five flags out of a byte.
pub open spec fn decode(b: u8) -> StateBits {
    StateBits {
        reading: b & LOCK_READ != 0,
        writing: b & LOCK_WRITE != 0,
        flipped: b & MODE_IS_FLIPPED != 0,
        swap_pending: b & WANT_MODE_CHANGE != 0,
        fresh: b & NEW_DATA_READY != 0,
    }
}

/// A byte that the buffer can be in: no bit beyond the five flags, and a reachable
/// combination of flags.
pub open spec fn valid_byte(b: u8) -> bool {
    b < 32 && state_inv(decode(b))
}

/// One of the five flag masks.
spec fn is_flag(m: u8) -> bool {
    m == LOCK_READ || m == LOCK_WRITE || m == MODE_IS_FLIPPED || m == WANT_MODE_CHANGE
        || m == NEW_DATA_READY
}

/// The state `s` with the flag of mask `m` set to `v`.
spec fn with_flag(s: StateBits, m: u8, v: bool) -> StateBits {
    StateBits {
        reading: if m == LOCK_READ { v } else { s.reading },
        writing: if m == LOCK_WRITE { v } else { s.writing },
        flipped: if m == MODE_IS_FLIPPED { v } else { s.flipped },
        swap_pending: if m == WANT_MODE_CHANGE { v } else { s.swap_pending },
        fresh: if m == NEW_DATA_READY { v } else { s.fresh },
    }
}

proof fn bits_after_set(f: u8, m: u8)
    by (bit_vector)
    requires
        m == 1 || m == 2 || m == 4 || m == 8 || m == 16,
    ensures
        ((f | m) & 1 != 0) == (m == 1 || f & 1 != 0),
        ((f | m) & 2 != 0) == (m == 2 || f & 2 != 0),
        ((f | m) & 4 != 0) == (m == 4 || f & 4 != 0),
        ((f | m) & 8 != 0) == (m == 8 || f & 8 != 0),
        ((f | m) & 16 != 0) == (m == 16 || f & 16 != 0),
        f < 32 ==> (f | m) < 32,
        (f | m) & 0xe0 == f & 0xe0,
{
}

proof fn bits_after_clear(f: u8, m: u8)
    by (bit_vector)
    requires
        m == 1 || m == 2 || m == 4 || m == 8 || m == 16,
    ensures
        ((f & !m) & 1 != 0) == (m != 1 && f & 1 != 0),
        ((f & !m) & 2 != 0) == (m != 2 && f & 2 != 0),
        ((f & !m) & 4 != 0) == (m != 4 && f & 4 != 0),
        ((f & !m) & 8 != 0) == (m != 8 && f & 8 != 0),
        ((f & !m) & 16 != 0) == (m != 16 && f & 16 != 0),
        f < 32 ==> (f & !m) < 32,
        (f & !m) & 0xe0 == f & 0xe0,
{
}

proof fn bits_after_toggle(f: u8, m: u8)
    by (bit_vector)
    requires
        m == 1 || m == 2 || m == 4 || m == 8 || m == 16,
    ensures
        ((f ^ m) & 1 != 0) == (if m == 1 { f & 1 == 0 } else { f & 1 != 0 }),
        ((f ^ m) & 2 != 0) == (if m == 2 { f & 2 == 0 } else { f & 2 != 0 }),
        ((f ^ m) & 4 != 0) == (if m == 4 { f & 4 == 0 } else { f & 4 != 0 }),
        ((f ^ m) & 8 != 0) == (if m == 8 { f & 8 == 0 } else { f & 8 != 0 }),
        ((f ^ m) & 16 != 0) == (if m == 16 { f & 16 == 0 } else { f & 16 != 0 }),
        f < 32 ==> (f ^ m) < 32,
        (f ^ m) & 0xe0 == f & 0xe0,
{
}

proof fn bits_of_pair(f: u8, a: u8, b: u8)
    by (bit_vector)
    requires
        a == 1 || a == 2 || a == 4 || a == 8 || a == 16,
        b == 1 || b == 2 || b == 4 || b == 8 || b == 16,
        a != b,
    ensures
        (f & (a | b) == b) == (f & a == 0 && f & b != 0),
        (f & (a | b) == 0) == (f & a == 0 && f & b == 0),
{
}

proof fn bits_of_triple(f: u8, a: u8, b: u8, c: u8)
    by (bit_vector)
    requires
        a == 1 || a == 2 || a == 4 || a == 8 || a == 16,
        b == 1 || b == 2 || b == 4 || b == 8 || b == 16,
        c == 1 || c == 2 || c == 4 || c == 8 || c == 16,
        a != b,
        a != c,
        b != c,
    ensures
        (f & (a | b | c) == c) == (f & a == 0 && f & b == 0 && f & c != 0),
{
}

proof fn lemma_decode_set(f: u8, m: u8)
    requires
        is_flag(m),
    ensures
        decode(f | m) == with_flag(decode(f), m, true),
        f < 32 ==> (f | m) < 32,
        (f | m) & 0xe0 == f & 0xe0,
{
    bits_after_set(f, m);
}

proof fn lemma_decode_clear(f: u8, m: u8)
    requires
        is_flag(m),
    ensures
        decode(f & !m) == with_flag(decode(f), m, false),
        f < 32 ==> (f & !m) < 32,
        (f & !m) & 0xe0 == f & 0xe0,
{
    bits_after_clear(f, m);
}

proof fn lemma_decode_toggle(f: u8, m: u8)
    requires
        is_flag(m),
    ensures
        decode(f ^ m) == with_flag(decode(f), m, f & m == 0),
        f < 32 ==> (f ^ m) < 32,
        (f ^ m) & 0xe0 == f & 0xe0,
{
    bits_after_toggle(f, m);
}

/// Whether the read lock can be taken from `flags`: with `allow_repeated` unless a
/// read is in progress, without it only where the element reserved for reading holds
/// unread data as well.
pub fn can_lock_read(flags: u8, allow_repeated: bool) -> (ok: bool)
    ensures
        ok == after_lock_read(decode(flags), allow_repeated) is Some,
{
    if allow_repeated {
        // allow reading the same data multiple times
        flags & LOCK_READ == 0
    } else {
        // only lock for reading if there is new unread data in the element reserved
        // for reading: a write has ended since the last read, and no swap is owed
        proof {
            bits_of_triple(flags, LOCK_READ, WANT_MODE_CHANGE, NEW_DATA_READY);
        }
        flags & (LOCK_READ | WANT_MODE_CHANGE | NEW_DATA_READY) == NEW_DATA_READY
    }
}

/// The byte with the read lock taken and the data marked as read.
pub fn with_read_lock(flags: u8) -> (n: u8)
    ensures
        decode(n) == (StateBits { reading: true, fresh: false, ..decode(flags) }),
        flags < 32 ==> n < 32,
        n & 0xe0 == flags & 0xe0,
{
    proof {
        lemma_decode_set(flags, LOCK_READ);
        lemma_decode_clear(flags | LOCK_READ, NEW_DATA_READY);
    }
    (flags | LOCK_READ) & !NEW_DATA_READY
}

/// Whether the write lock can be taken from `flags`: with `allow_repeated` unless a
/// write is in progress, without it only where there is no unread data as well.
pub fn can_lock_write(flags: u8, allow_repeated: bool) -> (ok: bool)
    ensures
        ok == after_lock_write(decode(flags), allow_repeated) is Some,
{
    if allow_repeated {
        // allow overwriting data which has not yet been read
        flags & LOCK_WRITE == 0
    } else {
        // only lock for writing if there is not any unread data
        proof {
            bits_of_pair(flags, LOCK_WRITE, NEW_DATA_READY);
        }
        flags & (LOCK_WRITE | NEW_DATA_READY) == 0
    }
}

/// The byte with the write lock taken.
pub fn with_write_lock(flags: u8) -> (n: u8)
    ensures
        decode(n) == (StateBits { writing: true, ..decode(flags) }),
        flags < 32 ==> n < 32,
        n & 0xe0 == flags & 0xe0,
{
    proof {
        lemma_decode_set(flags, LOCK_WRITE);
    }
    flags | LOCK_WRITE
}

/// The byte with the read lock released, as `after_release_read` says.
pub fn with_read_released(flags: u8) -> (n: u8)
    ensures
        decode(n) == after_release_read(decode(flags)),
        flags < 32 ==> n < 32,
        n & 0xe0 == flags & 0xe0,
{
    proof {
        lemma_decode_clear(flags, LOCK_READ);
    }
    settle_after_read_bits(flags & !LOCK_READ)
}

/// One attempt at taking the read lock: the new byte, or `None` where the lock cannot
/// be taken, as `after_lock_read` says.
pub fn try_lock_read(flags: u8, allow_repeated: bool) -> (r: Option<u8>)
    ensures
        r is Some <==> after_lock_read(decode(flags), allow_repeated) is Some,
        r matches Some(n) ==> Some(decode(n)) == after_lock_read(decode(flags), allow_repeated)
            && (flags < 32 ==> n < 32) && n & 0xe0 == flags & 0xe0,
{
    if can_lock_read(flags, allow_repeated) {
        Some(with_read_lock(flags))
    } else {
        None
    }
}

/// One attempt at taking the write lock: the new byte, or `None` where the lock
/// cannot be taken, as `after_lock_write` says.
pub fn try_lock_write(flags: u8, allow_repeated: bool) -> (r: Option<u8>)
    ensures
        r is Some <==> after_lock_write(decode(flags), allow_repeated) is Some,
        r matches Some(n) ==> Some(decode(n)) == after_lock_write(decode(flags), allow_repeated)
            && (flags < 32 ==> n < 32) && n & 0xe0 == flags & 0xe0,
{
    if can_lock_write(flags, allow_repeated) {
        Some(with_write_lock(flags))
    } else {
        None
    }
}

/// The byte with the write lock released, as `after_release_write` says.
pub fn with_write_released(flags: u8) -> (n: u8)
    ensures
        decode(n) == after_release_write(decode(flags)),
        flags < 32 ==> n < 32,
        n & 0xe0 == flags & 0xe0,
{
    proof {
        lemma_decode_clear(flags, LOCK_WRITE);
    }
    publish_write_bits(flags & !LOCK_WRITE)
}

/// The byte with the read lock released and taken again, as
/// `after_release_and_lock_read` says.
pub fn with_read_relocked(flags: u8) -> (n: u8)
    ensures
        decode(n) == after_release_and_lock_read(decode(flags)),
        flags < 32 ==> n < 32,
        n & 0xe0 == flags & 0xe0,
{
    proof {
        lemma_decode_set(flags, LOCK_READ);
        lemma_decode_clear(flags | LOCK_READ, NEW_DATA_READY);
    }
    settle_after_read_bits((flags | LOCK_READ) & !NEW_DATA_READY)
}

/// The byte with the write in progress published and the write lock kept, or taken
/// where none was held, as `after_release_and_lock_write` says.
pub fn with_write_relocked(flags: u8) -> (n: u8)
    ensures
        decode(n) == after_release_and_lock_write(decode(flags)),
        flags < 32 ==> n < 32,
        n & 0xe0 == flags & 0xe0,
{
    if flags & LOCK_WRITE != 0 {
        publish_write_bits(flags)
    } else {
        with_write_lock(flags)
    }
}

/// Whether the roles of the elements are swapped in `flags`.
pub fn is_flipped(flags: u8) -> (m: bool)
    ensures
        m == decode(flags).flipped,
{
    flags & MODE_IS_FLIPPED != 0
}

/// Swaps the roles of the elements where a swap is owed and no write is in progress.
fn settle_after_read_bits(flags: u8) -> (n: u8)
    ensures
        decode(n) == settle_after_read(decode(flags)),
        flags < 32 ==> n < 32,
        n & 0xe0 == flags & 0xe0,
{
    proof {
        bits_of_pair(flags, LOCK_WRITE, WANT_MODE_CHANGE);
    }
    if flags & (LOCK_WRITE | WANT_MODE_CHANGE) == WANT_MODE_CHANGE {
        let cleared = flags & !WANT_MODE_CHANGE;
        proof {
            lemma_decode_clear(flags, WANT_MODE_CHANGE);
            lemma_decode_toggle(cleared, MODE_IS_FLIPPED);
        }
        cleared ^ MODE_IS_FLIPPED
    } else {
        flags
    }
}

/// Marks the data as new and swaps the roles of the elements now, or marks the swap
/// as owed where a read is in progress.
fn publish_write_bits(flags: u8) -> (n: u8)
    ensures
        decode(n) == publish_write(decode(flags)),
        flags < 32 ==> n < 32,
        n & 0xe0 == flags & 0xe0,
{
    let marked = flags | NEW_DATA_READY;
    proof {
        lemma_decode_set(flags, NEW_DATA_READY);
    }
    if marked & LOCK_READ == 0 {
        let cleared = marked & !WANT_MODE_CHANGE;
        proof {
            lemma_decode_clear(marked, WANT_MODE_CHANGE);
            lemma_decode_toggle(cleared, MODE_IS_FLIPPED);
        }
        cleared ^ MODE_IS_FLIPPED
    } else {
        proof {
            lemma_decode_set(marked, WANT_MODE_CHANGE);
        }
        marked | WANT_MODE_CHANGE
    }
}

/// The flag byte of a buffer.
pub(crate) struct BufferState {
    bits: u8,
}

impl BufferState {
    /// The abstract state that the byte holds.
    pub(crate) closed spec fn view(&self) -> StateBits {
        decode(self.bits)
    }

    pub(crate) closed spec fn wf(&self) -> bool {
        valid_byte(self.bits)
    }

    pub(crate) proof fn lemma_wf(&self)
        requires
            self.wf(),
        ensures
            state_inv(self.view()),
    {
    }

    /// A state with no lock held, no swap owed and no new data.
    pub(crate) fn new() -> (s: Self)
        ensures
            s.wf(),
            s.view() == initial_state(),
    {
        assert(0u8 & 1 == 0 && 0u8 & 2 == 0 && 0u8 & 4 == 0 && 0u8 & 8 == 0 && 0u8 & 16 == 0)
            by (bit_vector);
        BufferState { bits: 0 }
    }

    /// If `condition` holds of the byte, replaces it by what `action` makes of it and
    /// returns the mode of the new byte; otherwise leaves it as it is and returns `None`.
    fn lock<C: Fn(u8) -> bool, A: Fn(u8) -> u8>(&mut self, condition: C, action: A) -> (mode:
        Option<bool>)
        requires
            call_requires(condition, (old(self).bits,)),
            call_requires(action, (old(self).bits,)),
        ensures
            match mode {
                Some(m) => {
                    &&& call_ensures(condition, (old(self).bits,), true)
                    &&& call_ensures(action, (old(self).bits,), final(self).bits)
                    &&& m == decode(final(self).bits).flipped
                },
                None => {
                    &&& call_ensures(condition, (old(self).bits,), false)
                    &&& final(self).bits == old(self).bits
                },
            },
    {
        let flags = self.bits;
        if condition(flags) {
            let new_flags = action(flags);
            self.bits = new_flags;
            Some(is_flipped(new_flags))
        } else {
            None
        }
    }

    /// Takes the read lock, as `after_lock_read` says, and returns the mode it was
    /// taken in.
    pub(crate) fn lock_read(&mut self, allow_repeated: bool) -> (mode: Option<bool>)
        requires
            old(self).wf(),
        ensures
            final(self).wf(),
            match after_lock_read(old(self).view(), allow_repeated) {
                Some(n) => final(self).view() == n && mode == Some(n.flipped),
                None => *final(self) == *old(self) && mode is None,
            },
    {
        let condition = |flags: u8| -> (ok: bool)
            ensures
                ok == after_lock_read(decode(flags), allow_repeated) is Some,
            { can_lock_read(flags, allow_repeated) };
        let action = |flags: u8| -> (n: u8)
            ensures
                decode(n) == (StateBits { reading: true, fresh: false, ..decode(flags) }),
                flags < 32 ==> n < 32,
            { with_read_lock(flags) };
        self.lock(condition, action)
    }

    /// Takes the write lock, as `after_lock_write` says, and returns the mode it was
    /// taken in.
    pub(crate) fn lock_write(&mut self, allow_repeated: bool) -> (mode: Option<bool>)
        requires
            old(self).wf(),
        ensures
            final(self).wf(),
            match after_lock_write(old(self).view(), allow_repeated) {
                Some(n) => final(self).view() == n && mode == Some(n.flipped),
                None => *final(self) == *old(self) && mode is None,
            },
    {
        let condition = |flags: u8| -> (ok: bool)
            ensures
                ok == after_lock_write(decode(flags), allow_repeated) is Some,
            { can_lock_write(flags, allow_repeated) };
        let action = |flags: u8| -> (n: u8)
            ensures
                decode(n) == (StateBits { writing: true, ..decode(flags) }),
                flags < 32 ==> n < 32,
            { with_write_lock(flags) };
        self.lock(condition, action)
    }

    /// Replaces the byte by what `action` makes of it.
    fn release<A: Fn(u8) -> u8>(&mut self, action: A)
        requires
            call_requires(action, (old(self).bits,)),
        ensures
            call_ensures(action, (old(self).bits,), final(self).bits),
    {
        let flags = self.bits;
        self.bits = action(flags);
    }

    /// Releases the read lock, as `after_release_read` says.
    pub(crate) fn release_read(&mut self)
        requires
            old(self).wf(),
        ensures
            final(self).wf(),
            final(self).view() == after_release_read(old(self).view()),
    {
        let action = |flags: u8| -> (n: u8)
            ensures
                decode(n) == after_release_read(decode(flags)),
                flags < 32 ==> n < 32,
            { with_read_released(flags) };
        self.release(action);
    }

    /// Releases the write lock, as `after_release_write` says.
    pub(crate) fn release_write(&mut self)
        requires
            old(self).wf(),
        ensures
            final(self).wf(),
            final(self).view() == after_release_write(old(self).view()),
    {
        let action = |flags: u8| -> (n: u8)
            ensures
                decode(n) == after_release_write(decode(flags)),
                flags < 32 ==> n < 32,
            { with_write_released(flags) };
        self.release(action);
    }

    /// Replaces the byte by what `action` makes of it and returns the mode of the new
    /// byte.
    fn release_and_lock<A: Fn(u8) -> u8>(&mut self, action: A) -> (mode: bool)
        requires
            call_requires(action, (old(self).bits,)),
        ensures
            call_ensures(action, (old(self).bits,), final(self).bits),
            mode == decode(final(self).bits).flipped,
    {
        let new_flags = action(self.bits);
        self.bits = new_flags;
        is_flipped(new_flags)
    }

    /// Releases the read lock and takes it again in one step, as
    /// `after_release_and_lock_read` says, and returns the mode it was taken in.
    pub(crate) fn release_and_lock_read(&mut self) -> (mode: bool)
        requires
            old(self).wf(),
        ensures
            final(self).wf(),
            final(self).view() == after_release_and_lock_read(old(self).view()),
            mode == final(self).view().flipped,
    {
        let action = |flags: u8| -> (n: u8)
            ensures
                decode(n) == after_release_and_lock_read(decode(flags)),
                flags < 32 ==> n < 32,
            { with_read_relocked(flags) };
        self.release_and_lock(action)
    }

    /// Publishes the write in progress and keeps the write lock, or takes the write
    /// lock where none was held, as `after_release_and_lock_write` says, and returns
    /// the mode it is held in.
    pub(crate) fn release_and_lock_write(&mut self) -> (mode: bool)
        requires
            old(self).wf(),
        ensures
            final(self).wf(),
            final(self).view() == after_release_and_lock_write(old(self).view()),
            mode == final(self).view().flipped,
    {
        let action = |flags: u8| -> (n: u8)
            ensures
                decode(n) == after_release_and_lock_write(decode(flags)),
                flags < 32 ==> n < 32,
            { with_write_relocked(flags) };
        self.release_and_lock(action)
    }
}

} // verus!
