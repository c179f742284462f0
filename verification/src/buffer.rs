//! The ping-pong buffer: two elements and the flag byte that assigns them their roles.
//!
//! A read or a write is begun by taking a lock, which hands out a token naming the
//! element reserved for it, and ended by giving the token back.  The element a token
//! names is reached through the buffer with that token, and only while the lock it
//! stands for is held and the token names the element of that role.

use vstd::prelude::*;

use core::mem::MaybeUninit;
use vstd::std_specs::maybe_uninit::MaybeUninitAdditionalSpecFns;

use crate::flags::BufferState;
use crate::model::{
    Slot, StateBits, designated, read_slot, write_slot, other_slot, state_inv, initial_state,
    unread_consistent, unread_after_taking, unread_after_release_and_lock_write, after_lock_read,
    after_lock_write, after_release_read, after_release_write, after_release_and_lock_read,
    after_release_and_lock_write,
};

verus! {

/// Which element a lock taken in `mode` designates, for reading or for writing.
pub fn designated_slot(mode: bool, read: bool) -> (s: Slot)
    ensures
        s == designated(mode, read),
{
    // mode = false => read ping and write pong
    // mode = true  => read pong and write ping
    if mode ^ read {
        Slot::Ping
    } else {
        Slot::Pong
    }
}

/// A ping-pong buffer: two copies of `T` plus one byte of state.
pub struct Buffer<T> {
    ping: T,
    pong: T,
    state: BufferState,
    /// The element holding data whose write has ended and that no read has been
    /// handed yet, if any.
    unread: Ghost<Option<Slot>>,
}

/// The right to read one element of a buffer, handed out by `Buffer::read` or
/// `Buffer::read_once` and given back with `Buffer::end_read`.
pub struct Ref {
    slot: Slot,
}

/// The right to write one element of a buffer, handed out by `Buffer::write` or
/// `Buffer::write_no_discard` and given back with `Buffer::end_write`.
pub struct RefMut {
    slot: Slot,
}

impl Ref {
    /// The element this token names.
    pub closed spec fn slot(&self) -> Slot {
        self.slot
    }

    /// Takes the read lock of `buf` and names the element reserved for reading.
    fn new<T>(buf: &mut Buffer<T>, allow_repeated: bool) -> (r: Option<Self>)
        requires
            old(buf).wf(),
        ensures
            final(buf).wf(),
            final(buf).same_elements(old(buf)),
            match after_lock_read(old(buf).flags(), allow_repeated) {
                Some(n) => {
                    &&& final(buf).flags() == n
                    &&& r matches Some(t) && t.slot() == read_slot(n)
                    &&& final(buf).unread() == unread_after_taking(old(buf).unread(), read_slot(n))
                },
                None => {
                    &&& final(buf).flags() == old(buf).flags()
                    &&& final(buf).unread() == old(buf).unread()
                    &&& r is None
                },
            },
    {
        proof {
            buf.state.lemma_wf();
        }
        let ghost old_unread = buf.unread@;
        let mode = match buf.state.lock_read(allow_repeated) {
            Some(m) => m,
            None => return None,
        };
        let slot = designated_slot(mode, true);
        buf.unread = Ghost(unread_after_taking(old_unread, slot));
        // The lock is held, so the element designated for reading is ours.
        Some(Ref { slot })
    }
}

impl RefMut {
    /// The element this token names.
    pub closed spec fn slot(&self) -> Slot {
        self.slot
    }

    /// Takes the write lock of `buf` and names the element reserved for writing.
    fn new<T>(buf: &mut Buffer<T>, allow_repeated: bool) -> (w: Option<Self>)
        requires
            old(buf).wf(),
        ensures
            final(buf).wf(),
            final(buf).same_elements(old(buf)),
            match after_lock_write(old(buf).flags(), allow_repeated) {
                Some(n) => {
                    &&& final(buf).flags() == n
                    &&& w matches Some(t) && t.slot() == write_slot(n)
                    &&& final(buf).unread() == unread_after_taking(old(buf).unread(), write_slot(n))
                },
                None => {
                    &&& final(buf).flags() == old(buf).flags()
                    &&& final(buf).unread() == old(buf).unread()
                    &&& w is None
                },
            },
    {
        proof {
            buf.state.lemma_wf();
        }
        let ghost old_unread = buf.unread@;
        let mode = match buf.state.lock_write(allow_repeated) {
            Some(m) => m,
            None => return None,
        };
        let slot = designated_slot(mode, false);
        buf.unread = Ghost(unread_after_taking(old_unread, slot));
        // The lock is held, so the element designated for writing is ours.
        Some(RefMut { slot })
    }
}

impl<T> Buffer<T> {
    /// The abstract state of the flag byte.
    pub closed spec fn flags(&self) -> StateBits {
        self.state.view()
    }

    /// The element holding data whose write has ended and that no read has been handed
    /// yet, if any.
    pub closed spec fn unread(&self) -> Option<Slot> {
        self.unread@
    }

    /// The value held by element `s`.
    pub closed spec fn element(&self, s: Slot) -> T {
        match s {
            Slot::Ping => self.ping,
            Slot::Pong => self.pong,
        }
    }

    /// The flag byte holds a reachable state, and the unread data stands to it as
    /// `unread_consistent` says.
    pub closed spec fn wf(&self) -> bool {
        &&& self.state.wf()
        &&& unread_consistent(self.flags(), self.unread())
    }

    /// What a well-formed buffer satisfies.
    pub proof fn lemma_wf(&self)
        requires
            self.wf(),
        ensures
            state_inv(self.flags()),
            unread_consistent(self.flags(), self.unread()),
    {
        self.state.lemma_wf();
    }

    /// Both elements hold what they hold in `other`.
    pub open spec fn same_elements(&self, other: &Self) -> bool {
        &&& self.element(Slot::Ping) == other.element(Slot::Ping)
        &&& self.element(Slot::Pong) == other.element(Slot::Pong)
    }

    /// `r` is the token of the read in progress.
    pub open spec fn holds_read(&self, r: &Ref) -> bool {
        self.flags().reading && r.slot() == read_slot(self.flags())
    }

    /// `w` is the token of the write in progress.
    pub open spec fn holds_write(&self, w: &RefMut) -> bool {
        self.flags().writing && w.slot() == write_slot(self.flags())
    }
}

impl<T: Copy> Buffer<T> {
    /// Returns a new ping-pong buffer with both elements set to `value`.
    pub fn new(value: T) -> (b: Self)
        ensures
            b.wf(),
            b.flags() == initial_state(),
            b.unread() is None,
            b.element(Slot::Ping) == value,
            b.element(Slot::Pong) == value,
    {
        Buffer { ping: value, pong: value, state: BufferState::new(), unread: Ghost(None) }
    }
}

impl<T: Default> Buffer<T> {
    /// Returns a new ping-pong buffer with the elements set to their default value.
    pub fn default() -> (b: Self)
        ensures
            b.wf(),
            b.flags() == initial_state(),
            b.unread() is None,
            call_ensures(T::default, (), b.element(Slot::Ping)),
            call_ensures(T::default, (), b.element(Slot::Pong)),
    {
        Buffer {
            ping: T::default(),
            pong: T::default(),
            state: BufferState::new(),
            unread: Ghost(None),
        }
    }
}

impl<T> Buffer<MaybeUninit<T>> {
    /// Returns a new ping-pong buffer with uninitialized elements.
    pub fn uninit() -> (b: Self)
        ensures
            b.wf(),
            b.flags() == initial_state(),
            b.unread() is None,
            b.element(Slot::Ping).as_option() is None,
            b.element(Slot::Pong).as_option() is None,
    {
        Buffer {
            ping: MaybeUninit::uninit(),
            pong: MaybeUninit::uninit(),
            state: BufferState::new(),
            unread: Ghost(None),
        }
    }
}

impl<T> Buffer<T> {
    /// Begins a read: returns a token for the element reserved for reading, or `None`
    /// if a read is already in progress.  Unread data in that element counts as read.
    pub fn read(&mut self) -> (r: Option<Ref>)
        requires
            old(self).wf(),
        ensures
            final(self).wf(),
            final(self).same_elements(old(self)),
            match after_lock_read(old(self).flags(), true) {
                Some(n) => {
                    &&& final(self).flags() == n
                    &&& r matches Some(t) && t.slot() == read_slot(n)
                    &&& final(self).unread() == unread_after_taking(old(self).unread(), read_slot(n))
                },
                None => {
                    &&& final(self).flags() == old(self).flags()
                    &&& final(self).unread() == old(self).unread()
                    &&& r is None
                },
            },
    {
        Ref::new(self, true)
    }

    /// Begins a read only of data that has been written and not read yet: returns a
    /// token exactly where no read is in progress and the element reserved for reading
    /// holds such data, which then counts as read.
    pub fn read_once(&mut self) -> (r: Option<Ref>)
        requires
            old(self).wf(),
        ensures
            final(self).wf(),
            final(self).same_elements(old(self)),
            r is Some <==> !old(self).flags().reading && old(self).unread() == Some(
                read_slot(old(self).flags()),
            ),
            r matches Some(t) ==> old(self).unread() == Some(t.slot()) && final(self).unread() is None,
            match after_lock_read(old(self).flags(), false) {
                Some(n) => {
                    &&& final(self).flags() == n
                    &&& r matches Some(t) && t.slot() == read_slot(n)
                },
                None => {
                    &&& final(self).flags() == old(self).flags()
                    &&& final(self).unread() == old(self).unread()
                    &&& r is None
                },
            },
    {
        proof {
            self.lemma_wf();
        }
        Ref::new(self, false)
    }

    /// Begins a write: returns a token for the element reserved for writing, or `None`
    /// if a write is already in progress.  The element may hold any earlier value;
    /// unread data in it is discarded.
    pub fn write(&mut self) -> (w: Option<RefMut>)
        requires
            old(self).wf(),
        ensures
            final(self).wf(),
            final(self).same_elements(old(self)),
            match after_lock_write(old(self).flags(), true) {
                Some(n) => {
                    &&& final(self).flags() == n
                    &&& w matches Some(t) && t.slot() == write_slot(n)
                    &&& final(self).unread() == unread_after_taking(old(self).unread(), write_slot(n))
                },
                None => {
                    &&& final(self).flags() == old(self).flags()
                    &&& final(self).unread() == old(self).unread()
                    &&& w is None
                },
            },
    {
        RefMut::new(self, true)
    }

    /// Begins a write only if no write has ended since the last read began: returns
    /// `None` if one has, or if a write is already in progress.  A write so begun
    /// discards no unread data: there is none anywhere in the buffer.
    pub fn write_no_discard(&mut self) -> (w: Option<RefMut>)
        requires
            old(self).wf(),
        ensures
            final(self).wf(),
            final(self).same_elements(old(self)),
            w is Some ==> old(self).unread() is None && final(self).unread() is None,
            match after_lock_write(old(self).flags(), false) {
                Some(n) => {
                    &&& final(self).flags() == n
                    &&& w matches Some(t) && t.slot() == write_slot(n)
                },
                None => {
                    &&& final(self).flags() == old(self).flags()
                    &&& final(self).unread() == old(self).unread()
                    &&& w is None
                },
            },
    {
        proof {
            self.lemma_wf();
        }
        RefMut::new(self, false)
    }

    /// The element that `r`, the token of the read in progress, names.
    pub fn get(&self, r: &Ref) -> (v: &T)
        requires
            self.holds_read(r),
        ensures
            *v == self.element(r.slot()),
    {
        match r.slot {
            Slot::Ping => &self.ping,
            Slot::Pong => &self.pong,
        }
    }

    /// The element that `w`, the token of the write in progress, names, to be read.
    pub fn get_written(&self, w: &RefMut) -> (v: &T)
        requires
            self.holds_write(w),
        ensures
            *v == self.element(w.slot()),
    {
        match w.slot {
            Slot::Ping => &self.ping,
            Slot::Pong => &self.pong,
        }
    }

    /// The element that `w`, the token of the write in progress, names, to be written.
    /// It never holds unread data, and it is never the element reserved for reading.
    pub fn get_mut(&mut self, w: &RefMut) -> (v: &mut T)
        requires
            old(self).wf(),
            old(self).holds_write(w),
        ensures
            *v == old(self).element(w.slot()),
            final(self).element(w.slot()) == *final(v),
            final(self).element(other_slot(w.slot())) == old(self).element(other_slot(w.slot())),
            final(self).flags() == old(self).flags(),
            final(self).unread() == old(self).unread(),
            final(self).wf(),
            old(self).unread() != Some(w.slot()),
            w.slot() != read_slot(old(self).flags()),
    {
        proof {
            self.lemma_wf();
        }
        match w.slot {
            Slot::Ping => &mut self.ping,
            Slot::Pong => &mut self.pong,
        }
    }

    /// Ends the read that `r` stands for, as `after_release_read` says: the roles
    /// swap now if a write ended during the read and no write is in progress.
    pub fn end_read(&mut self, r: Ref)
        requires
            old(self).wf(),
            old(self).holds_read(&r),
        ensures
            final(self).wf(),
            final(self).same_elements(old(self)),
            final(self).flags() == after_release_read(old(self).flags()),
            final(self).unread() == old(self).unread(),
    {
        let Ref { slot: _ } = r;
        self.state.release_read();
    }

    /// Ends the write that `w` stands for, as `after_release_write` says: its element
    /// holds unread data, and the roles swap now, or when the read in progress ends.
    pub fn end_write(&mut self, w: RefMut)
        requires
            old(self).wf(),
            old(self).holds_write(&w),
        ensures
            final(self).wf(),
            final(self).same_elements(old(self)),
            final(self).flags() == after_release_write(old(self).flags()),
            final(self).unread() == Some(w.slot()),
    {
        let RefMut { slot } = w;
        self.state.release_write();
        self.unread = Ghost(Some(slot));
    }

    /// Marks reading as finished without a token, for a read whose token was lost.
    /// Any token from an earlier read must not be used afterwards.
    pub fn release_read(&mut self)
        requires
            old(self).wf(),
        ensures
            final(self).wf(),
            final(self).same_elements(old(self)),
            final(self).flags() == after_release_read(old(self).flags()),
            final(self).unread() == old(self).unread(),
    {
        self.state.release_read();
    }

    /// Marks writing as finished without a token, for a write whose token was lost:
    /// the element reserved for writing counts as holding unread data.  Any token
    /// from an earlier write must not be used afterwards.
    pub fn release_write(&mut self)
        requires
            old(self).wf(),
        ensures
            final(self).wf(),
            final(self).same_elements(old(self)),
            final(self).flags() == after_release_write(old(self).flags()),
            final(self).unread() == Some(write_slot(old(self).flags())),
    {
        let ghost written = write_slot(self.flags());
        self.state.release_write();
        self.unread = Ghost(Some(written));
    }

    /// Ends any read in progress and begins a new one in a single step, which always
    /// succeeds, and returns the element now reserved for reading.  Any token from an
    /// earlier read must not be used afterwards.
    pub fn read_unchecked(&mut self) -> (v: &T)
        requires
            old(self).wf(),
        ensures
            final(self).wf(),
            final(self).same_elements(old(self)),
            final(self).flags() == after_release_and_lock_read(old(self).flags()),
            final(self).unread() == unread_after_taking(
                old(self).unread(),
                read_slot(final(self).flags()),
            ),
            *v == old(self).element(read_slot(final(self).flags())),
    {
        proof {
            self.lemma_wf();
        }
        let ghost old_unread = self.unread@;
        let mode = self.state.release_and_lock_read();
        let slot = designated_slot(mode, true);
        self.unread = Ghost(unread_after_taking(old_unread, slot));
        match slot {
            Slot::Ping => &self.ping,
            Slot::Pong => &self.pong,
        }
    }

    /// Ends any write in progress and begins a new one in a single step, which always
    /// succeeds, and returns the element now reserved for writing.  Any token from an
    /// earlier write must not be used afterwards.
    pub fn write_unchecked(&mut self) -> (v: &mut T)
        requires
            old(self).wf(),
        ensures
            final(self).wf(),
            final(self).flags() == after_release_and_lock_write(old(self).flags()),
            final(self).unread() == unread_after_release_and_lock_write(
                old(self).flags(),
                old(self).unread(),
            ),
            *v == old(self).element(write_slot(final(self).flags())),
            final(self).element(write_slot(final(self).flags())) == *final(v),
            final(self).element(read_slot(final(self).flags())) == old(self).element(
                read_slot(final(self).flags()),
            ),
    {
        proof {
            self.lemma_wf();
        }
        let ghost old_flags = self.flags();
        let ghost old_unread = self.unread@;
        let mode = self.state.release_and_lock_write();
        let slot = designated_slot(mode, false);
        self.unread = Ghost(unread_after_release_and_lock_write(old_flags, old_unread));
        match slot {
            Slot::Ping => &mut self.ping,
            Slot::Pong => &mut self.pong,
        }
    }
}

} // verus!
