//! The abstract state of a ping-pong buffer and how each operation changes it.
//!
//! Beside the five flags, the model follows one piece of history that the flags
//! alone do not hold: which element, if any, holds data whose write has ended and
//! that no read has been handed yet (`unread`).

use vstd::prelude::*;

verus! {

/// The abstract state of a ping-pong buffer: one boolean per flag.
pub struct StateBits {
    /// A read lock is held.
    pub reading: bool,
    /// A write lock is held.
    pub writing: bool,
    /// The roles of the two elements are swapped.
    pub flipped: bool,
    /// A write ended during the read in progress, and the roles swap as soon as no
    /// lock is in the way.
    pub swap_pending: bool,
    /// A write has ended since the last read began.  Where no swap is owed, the
    /// element reserved for reading holds that write's data; where one is owed, the
    /// data is in the element reserved for writing, or was discarded by a later write.
    pub fresh: bool,
}

/// One of the two elements of a buffer.
#[derive(PartialEq, Eq, Structural, Clone, Copy, Debug)]
pub enum Slot {
    Ping,
    Pong,
}

/// The element that a lock taken in `mode` designates: with the mode not flipped,
/// reads go to `Ping` and writes to `Pong`, and the other way round when flipped.
pub open spec fn designated(mode: bool, read: bool) -> Slot {
    if mode != read {
        Slot::Ping
    } else {
        Slot::Pong
    }
}

/// The element reserved for reading in state `s`.
pub open spec fn read_slot(s: StateBits) -> Slot {
    designated(s.flipped, true)
}

/// The element reserved for writing in state `s`.
pub open spec fn write_slot(s: StateBits) -> Slot {
    designated(s.flipped, false)
}

/// The element that is not `s`.
pub open spec fn other_slot(s: Slot) -> Slot {
    match s {
        Slot::Ping => Slot::Pong,
        Slot::Pong => Slot::Ping,
    }
}

/// The state of a freshly made buffer: nothing held, nothing swapped, nothing new.
pub open spec fn initial_state() -> StateBits {
    StateBits { reading: false, writing: false, flipped: false, swap_pending: false, fresh: false }
}

/// What every reachable state satisfies: a swap is only ever owed while a lock is held.
pub open spec fn state_inv(s: StateBits) -> bool {
    s.swap_pending ==> s.reading || s.writing
}

/// How the element holding unread written data, `unread`, stands to the flags in
/// every reachable state:
/// - there is such data only where a write has ended since the last read began;
/// - it is in the element reserved for reading where no swap is owed, and in the one
///   reserved for writing, with no write in progress, where one is owed;
/// - where a write ended since the last read began and no swap is owed, the element
///   reserved for reading holds it;
/// - where a swap is owed and no write is in progress, the element reserved for
///   writing holds it.
pub open spec fn unread_consistent(s: StateBits, unread: Option<Slot>) -> bool {
    &&& unread is Some ==> s.fresh
    &&& unread matches Some(x) ==> (x == read_slot(s) && !s.swap_pending) || (x == write_slot(s)
        && s.swap_pending && !s.writing)
    &&& s.fresh && !s.swap_pending ==> unread == Some(read_slot(s))
    &&& s.swap_pending && !s.writing ==> unread == Some(write_slot(s))
}

/// What becomes of the unread data when a lock is taken on element `slot`: a read
/// lock hands it out, a write lock discards it; data in the other element stays.
pub open spec fn unread_after_taking(unread: Option<Slot>, slot: Slot) -> Option<Slot> {
    if unread == Some(slot) {
        None
    } else {
        unread
    }
}

/// Swaps the roles of the two elements when a swap is owed and no write is in progress.
pub open spec fn settle_after_read(s: StateBits) -> StateBits {
    if !s.writing && s.swap_pending {
        StateBits { swap_pending: false, flipped: !s.flipped, ..s }
    } else {
        s
    }
}

/// Publishes a finished write: a write has ended, and the roles swap now if no read
/// is in progress, or as soon as the read in progress ends.
pub open spec fn publish_write(s: StateBits) -> StateBits {
    if !s.reading {
        StateBits { fresh: true, swap_pending: false, flipped: !s.flipped, ..s }
    } else {
        StateBits { fresh: true, swap_pending: true, ..s }
    }
}

/// Taking a read lock.  With `allow_repeated` it succeeds unless a read is in progress;
/// without it, it also needs that the element reserved for reading holds data written
/// and not read yet: a write has ended since the last read began, and no swap is
/// owed.  Afterwards no write has ended since the last read began.
pub open spec fn after_lock_read(s: StateBits, allow_repeated: bool) -> Option<StateBits> {
    if !s.reading && (allow_repeated || (s.fresh && !s.swap_pending)) {
        Some(StateBits { reading: true, fresh: false, ..s })
    } else {
        None
    }
}

/// Taking a write lock.  With `allow_repeated` it succeeds unless a write is in progress;
/// without it, it also needs that no write has ended since the last read began.
pub open spec fn after_lock_write(s: StateBits, allow_repeated: bool) -> Option<StateBits> {
    if !s.writing && (allow_repeated || !s.fresh) {
        Some(StateBits { writing: true, ..s })
    } else {
        None
    }
}

/// Releasing the read lock.
pub open spec fn after_release_read(s: StateBits) -> StateBits {
    settle_after_read(StateBits { reading: false, ..s })
}

/// Releasing the write lock.
pub open spec fn after_release_write(s: StateBits) -> StateBits {
    publish_write(StateBits { writing: false, ..s })
}

/// Releasing the read lock and taking it again in one step.
pub open spec fn after_release_and_lock_read(s: StateBits) -> StateBits {
    settle_after_read(StateBits { reading: true, fresh: false, ..s })
}

/// Releasing the write lock and taking it again in one step; where no write was in
/// progress, only taking it.
pub open spec fn after_release_and_lock_write(s: StateBits) -> StateBits {
    if s.writing {
        publish_write(s)
    } else {
        StateBits { writing: true, ..s }
    }
}

/// The unread data after releasing and retaking the write lock: where a write was in
/// progress, the element the writer held counts as holding unread data, and then the
/// lock is taken again on the element reserved for writing, which discards it if the
/// roles did not swap; where none was, the lock is only taken.
pub open spec fn unread_after_release_and_lock_write(s: StateBits, unread: Option<Slot>) -> Option<
    Slot,
> {
    let released = if s.writing {
        Some(write_slot(s))
    } else {
        unread
    };
    unread_after_taking(released, write_slot(after_release_and_lock_write(s)))
}

} // verus!
