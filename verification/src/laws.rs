//! What holds of the ping-pong buffer across its operations.

use vstd::prelude::*;

use crate::buffer::Buffer;
use crate::model::{
    Slot, StateBits, designated, initial_state, read_slot, write_slot, state_inv, unread_consistent, unread_after_taking,
    unread_after_release_and_lock_write, after_lock_read, after_lock_write, after_release_read,
    after_release_write, after_release_and_lock_read, after_release_and_lock_write,
};

verus! {

/// Every operation keeps the invariant: a swap is owed only while a lock is held.
pub proof fn law_invariant_kept(s: StateBits, allow_repeated: bool)
    requires
        state_inv(s),
    ensures
        after_lock_read(s, allow_repeated) matches Some(n) ==> state_inv(n),
        after_lock_write(s, allow_repeated) matches Some(n) ==> state_inv(n),
        state_inv(after_release_read(s)),
        state_inv(after_release_write(s)),
        state_inv(after_release_and_lock_read(s)),
        state_inv(after_release_and_lock_write(s)),
{
}

/// The element reserved for reading and the one reserved for writing are never the
/// same.
pub proof fn law_roles_differ(s: StateBits)
    ensures
        read_slot(s) != write_slot(s),
{
}

/// While a read is in progress, a second read is refused, and nothing but ending the
/// read changes the element reserved for reading.
pub proof fn law_read_lock_pins_its_element(s: StateBits, allow_repeated: bool)
    requires
        s.reading,
    ensures
        after_lock_read(s, allow_repeated) is None,
        after_lock_write(s, allow_repeated) matches Some(n) ==> read_slot(n) == read_slot(s),
        read_slot(after_release_write(s)) == read_slot(s),
        read_slot(after_release_and_lock_write(s)) == read_slot(s),
{
}

/// While a write is in progress, a second write is refused, and nothing but ending
/// the write changes the element reserved for writing.
pub proof fn law_write_lock_pins_its_element(s: StateBits, allow_repeated: bool)
    requires
        s.writing,
    ensures
        after_lock_write(s, allow_repeated) is None,
        after_lock_read(s, allow_repeated) matches Some(n) ==> write_slot(n) == write_slot(s),
        write_slot(after_release_read(s)) == write_slot(s),
        write_slot(after_release_and_lock_read(s)) == write_slot(s),
{
}

/// The roles of the elements swap only at a moment when neither a read nor a write is
/// in progress: taking a lock never swaps them, and ending one swaps them only where
/// the other is not held.
pub proof fn law_swap_only_when_idle(s: StateBits, allow_repeated: bool)
    ensures
        after_lock_read(s, allow_repeated) matches Some(n) ==> n.flipped == s.flipped,
        after_lock_write(s, allow_repeated) matches Some(n) ==> n.flipped == s.flipped,
        after_release_read(s).flipped != s.flipped ==> !after_release_read(s).reading
            && !after_release_read(s).writing,
        after_release_write(s).flipped != s.flipped ==> !after_release_write(s).reading
            && !after_release_write(s).writing,
{
}

/// Ending a write while no read is in progress swaps the roles at once: the element
/// that was written is the one read next, the one that was read is the one written
/// next, and the data is new.
pub proof fn law_write_then_swap(s: StateBits)
    requires
        !s.reading,
    ensures
        read_slot(after_release_write(s)) == write_slot(s),
        write_slot(after_release_write(s)) == read_slot(s),
        after_release_write(s).fresh,
        !after_release_write(s).swap_pending,
{
}

/// Ending a write while a read is in progress leaves the reader on its element and
/// owes the swap; ending the read then makes the element that was written the one
/// read next.
pub proof fn law_swap_deferred_until_read_ends(s: StateBits)
    requires
        s.reading,
    ensures
        read_slot(after_release_write(s)) == read_slot(s),
        after_release_write(s).swap_pending,
        after_release_write(s).fresh,
        read_slot(after_release_read(after_release_write(s))) == write_slot(s),
{
}

/// What a read gives back of a write: once a write has ended while no read was in
/// progress, the element reserved for reading holds what the writer left in its
/// element.
pub proof fn law_read_gives_back_write<T>(before: Buffer<T>, after: Buffer<T>)
    requires
        !before.flags().reading,
        after.flags() == after_release_write(before.flags()),
        after.same_elements(&before),
    ensures
        after.element(read_slot(after.flags())) == before.element(write_slot(before.flags())),
{
}

/// The same for a write that ended during a read: once that read has ended too, the
/// element reserved for reading holds what the writer left in its element.
pub proof fn law_read_gives_back_deferred_write<T>(
    before: Buffer<T>,
    middle: Buffer<T>,
    after: Buffer<T>,
)
    requires
        before.flags().reading,
        middle.flags() == after_release_write(before.flags()),
        middle.same_elements(&before),
        after.flags() == after_release_read(middle.flags()),
        after.same_elements(&middle),
    ensures
        after.element(read_slot(after.flags())) == before.element(write_slot(before.flags())),
{
}

/// Every operation keeps the unread data consistent with the flags: taking a read
/// lock hands out unread data in the element it names, taking a write lock discards
/// unread data in the element it names, ending a write leaves unread data in the
/// element the writer held, and ending a read changes nothing of it.
pub proof fn law_unread_kept_consistent(s: StateBits, unread: Option<Slot>, allow_repeated: bool)
    requires
        state_inv(s),
        unread_consistent(s, unread),
    ensures
        after_lock_read(s, allow_repeated) matches Some(n) ==> unread_consistent(
            n,
            unread_after_taking(unread, read_slot(n)),
        ),
        after_lock_write(s, allow_repeated) matches Some(n) ==> unread_consistent(
            n,
            unread_after_taking(unread, write_slot(n)),
        ),
        unread_consistent(after_release_read(s), unread),
        unread_consistent(after_release_write(s), Some(write_slot(s))),
        unread_consistent(
            after_release_and_lock_read(s),
            unread_after_taking(unread, read_slot(after_release_and_lock_read(s))),
        ),
        unread_consistent(
            after_release_and_lock_write(s),
            unread_after_release_and_lock_write(s, unread),
        ),
{
}

/// `read_once` hands out exactly unread data: it succeeds where, and only where, no
/// read is in progress and the element reserved for reading holds data written and
/// not read yet.
pub proof fn law_read_once_only_unread(s: StateBits, unread: Option<Slot>)
    requires
        unread_consistent(s, unread),
    ensures
        after_lock_read(s, false) is Some <==> !s.reading && unread == Some(read_slot(s)),
{
}

/// Data is handed out by `read_once` at most once: every read marks the data in its
/// element as read, and after a read has ended `read_once` is refused until a write
/// ends.
pub proof fn law_read_once_at_most_once(s: StateBits, unread: Option<Slot>, allow_repeated: bool)
    requires
        unread_consistent(s, unread),
    ensures
        after_lock_read(s, allow_repeated) matches Some(n) ==> unread_after_taking(
            unread,
            read_slot(n),
        ) != Some(read_slot(n)),
        after_lock_read(s, allow_repeated) matches Some(n) ==> after_lock_read(
            after_release_read(n),
            false,
        ) is None,
        after_lock_write(s, allow_repeated) matches Some(n) ==> n.fresh == s.fresh,
        after_release_read(s).fresh == s.fresh,
        !after_release_and_lock_read(s).fresh,
        after_release_write(s).fresh,
{
}

/// `write_no_discard` never overwrites unread data: it succeeds exactly where no write
/// is in progress and no write has ended since the last read began, and then no
/// element holds unread data; after a write has ended it is refused until a read
/// begins.
pub proof fn law_write_no_discard_keeps_unread(s: StateBits, unread: Option<Slot>)
    requires
        unread_consistent(s, unread),
    ensures
        after_lock_write(s, false) is Some <==> !s.writing && !s.fresh,
        after_lock_write(s, false) is Some ==> unread is None,
        after_lock_write(after_release_write(s), false) is None,
        after_lock_read(s, true) matches Some(n) ==> !n.writing ==> after_lock_write(
            n,
            false,
        ) is Some,
{
}

/// However many writes end during one read, once the read has ended with no write in
/// progress, the element reserved for reading is the one the last of those writes
/// left its data in, and that data counts as unread.
pub proof fn law_last_write_during_read_is_read_next(s: StateBits, unread: Option<Slot>)
    requires
        unread_consistent(s, unread),
        s.reading,
        s.swap_pending,
        !s.writing,
    ensures
        unread == Some(write_slot(s)),
        read_slot(after_release_read(s)) == write_slot(s),
        unread_consistent(after_release_read(s), unread),
        after_lock_read(after_release_read(s), false) is Some,
{
}

/// A read during which no write ended leaves the roles as they were, so the next read
/// is handed the same element.
pub proof fn law_read_keeps_roles(s: StateBits, allow_repeated: bool)
    requires
        state_inv(s),
    ensures
        after_lock_read(s, allow_repeated) matches Some(n) ==> read_slot(after_release_read(n))
            == read_slot(n),
        after_lock_read(s, allow_repeated) matches Some(n) ==> (after_lock_write(n, true) matches Some(
            m,
        ) ==> read_slot(after_release_read(m)) == read_slot(n)),
{
}

/// The same data may be read any number of times: a read begun, ended, and begun
/// again with no write ended in between is handed the same data.
pub proof fn law_read_again_same_data<T>(
    b0: Buffer<T>,
    b1: Buffer<T>,
    b2: Buffer<T>,
    b3: Buffer<T>,
)
    requires
        b0.wf(),
        after_lock_read(b0.flags(), true) == Some(b1.flags()),
        b1.same_elements(&b0),
        b2.flags() == after_release_read(b1.flags()),
        b2.same_elements(&b1),
        after_lock_read(b2.flags(), true) == Some(b3.flags()),
        b3.same_elements(&b2),
    ensures
        b3.element(read_slot(b3.flags())) == b1.element(read_slot(b1.flags())),
{
    b0.lemma_wf();
}

/// Releasing and retaking the read lock in one step is the same as releasing it and
/// then taking it with `read`, which then always succeeds.
pub proof fn law_read_unchecked_is_release_then_read(s: StateBits)
    ensures
        after_lock_read(after_release_read(s), true) == Some(after_release_and_lock_read(s)),
{
}

/// Where a write is in progress, releasing and retaking the write lock in one step is
/// the same as releasing it and then taking it with `write`, which then always
/// succeeds.
pub proof fn law_write_unchecked_is_release_then_write(s: StateBits)
    requires
        s.writing,
    ensures
        after_lock_write(after_release_write(s), true) == Some(after_release_and_lock_write(s)),
{
}

/// A new buffer holds no lock, owes no swap, has no new data, and reads `Ping` while
/// writing `Pong`.
pub proof fn law_initial_state()
    ensures
        !initial_state().reading,
        !initial_state().writing,
        !initial_state().swap_pending,
        !initial_state().fresh,
        read_slot(initial_state()) == Slot::Ping,
        write_slot(initial_state()) == Slot::Pong,
{
}

/// With the roles not swapped, reads go to `Ping` and writes to `Pong`; swapped, the
/// other way round.
pub proof fn law_designated_elements()
    ensures
        designated(false, true) == Slot::Ping,
        designated(false, false) == Slot::Pong,
        designated(true, true) == Slot::Pong,
        designated(true, false) == Slot::Ping,
{
}

/// Taking the read lock succeeds exactly where no read is in progress and, for
/// `read_once`, the element reserved for reading holds new data with no swap owed.
/// On success a read is in progress, the data counts as read, and the write lock,
/// the roles and any owed swap are as they were.
pub proof fn law_lock_read_effect(s: StateBits, allow_repeated: bool)
    ensures
        after_lock_read(s, allow_repeated) is Some <==> !s.reading && (allow_repeated || (s.fresh
            && !s.swap_pending)),
        after_lock_read(s, allow_repeated) matches Some(n) ==> {
            &&& n.reading
            &&& !n.fresh
            &&& n.writing == s.writing
            &&& n.flipped == s.flipped
            &&& n.swap_pending == s.swap_pending
        },
{
}

/// Taking the write lock succeeds exactly where no write is in progress and, for
/// `write_no_discard`, no write has ended since the last read began.  On success a
/// write is in progress and everything else is as it was.
pub proof fn law_lock_write_effect(s: StateBits, allow_repeated: bool)
    ensures
        after_lock_write(s, allow_repeated) is Some <==> !s.writing && (allow_repeated || !s.fresh),
        after_lock_write(s, allow_repeated) matches Some(n) ==> {
            &&& n.writing
            &&& n.reading == s.reading
            &&& n.fresh == s.fresh
            &&& n.flipped == s.flipped
            &&& n.swap_pending == s.swap_pending
        },
{
}

/// Ending a read leaves no read in progress and the write lock and the new-data flag
/// as they were; the roles swap exactly where a swap was owed and no write is in
/// progress, and then the swap is no longer owed.
pub proof fn law_release_read_effect(s: StateBits)
    ensures
        !after_release_read(s).reading,
        after_release_read(s).writing == s.writing,
        after_release_read(s).fresh == s.fresh,
        after_release_read(s).flipped != s.flipped <==> s.swap_pending && !s.writing,
        after_release_read(s).swap_pending == (s.swap_pending && s.writing),
{
}

/// Ending a write leaves no write in progress, the read lock as it was, and new data
/// flagged; the roles swap exactly where no read is in progress, and otherwise the
/// swap is owed.
pub proof fn law_release_write_effect(s: StateBits)
    ensures
        !after_release_write(s).writing,
        after_release_write(s).reading == s.reading,
        after_release_write(s).fresh,
        after_release_write(s).flipped != s.flipped <==> !s.reading,
        after_release_write(s).swap_pending == s.reading,
{
}

/// Releasing and retaking the read lock leaves a read in progress with the data
/// counted as read and the write lock as it was; the roles swap exactly where a swap
/// was owed and no write is in progress.
pub proof fn law_release_and_lock_read_effect(s: StateBits)
    ensures
        after_release_and_lock_read(s).reading,
        !after_release_and_lock_read(s).fresh,
        after_release_and_lock_read(s).writing == s.writing,
        after_release_and_lock_read(s).flipped != s.flipped <==> s.swap_pending && !s.writing,
        after_release_and_lock_read(s).swap_pending == (s.swap_pending && s.writing),
{
}

/// Releasing and retaking the write lock leaves a write in progress and the read lock
/// as it was.  Where a write was in progress it publishes it as ending a write does;
/// where none was, it only takes the write lock, exactly as `write` would, so it
/// changes neither the roles nor the new-data flag.
pub proof fn law_release_and_lock_write_effect(s: StateBits)
    ensures
        after_release_and_lock_write(s).writing,
        after_release_and_lock_write(s).reading == s.reading,
        s.writing ==> {
            &&& after_release_and_lock_write(s).fresh
            &&& after_release_and_lock_write(s).flipped != s.flipped <==> !s.reading
            &&& after_release_and_lock_write(s).swap_pending == s.reading
        },
        !s.writing ==> after_release_and_lock_write(s) == (StateBits { writing: true, ..s }),
        !s.writing ==> Some(after_release_and_lock_write(s)) == after_lock_write(s, true),
        !s.writing ==> read_slot(after_release_and_lock_write(s)) == read_slot(s),
{
}

/// A held lock is kept by every operation but the one ending it: taking or ending the
/// other lock, or retaking the same lock, never ends it.
pub proof fn law_locks_kept(s: StateBits, allow_repeated: bool)
    ensures
        s.writing ==> after_release_read(s).writing && after_release_and_lock_read(s).writing,
        s.writing ==> (after_lock_read(s, allow_repeated) matches Some(n) ==> n.writing),
        s.reading ==> after_release_write(s).reading && after_release_and_lock_write(s).reading,
        s.reading ==> (after_lock_write(s, allow_repeated) matches Some(n) ==> n.reading),
{
}

} // verus!
