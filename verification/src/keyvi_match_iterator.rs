//! The single-pass cursor protocol.
//!
//! The engine exposes a result cursor through three raw primitives: test
//! whether the cursor is exhausted, dereference the current result, advance
//! the cursor.  Their order is mandatory — advancing before capturing would
//! skip an element, capturing after exhaustion would dereference an invalid
//! cursor.  [`KeyviMatchIterator`] collapses the three into one safe "pull
//! next" cycle: it says which primitive must run next ([`Self::next_command`])
//! and absorbs that primitive's reply ([`Self::absorb`]), handing a captured
//! match out only once the cursor has advanced past it.  Once the cursor
//! reports empty the iterator is exhausted for good: no further command is
//! ever issued, and nothing more is yielded.

use vstd::prelude::*;

use crate::handle::NativeHandle;
use crate::keyvi_match::KeyviMatch;
use crate::keyvi_match::MatchView;

verus! {

/// The raw cursor primitive that must run next.
#[derive(Clone, Copy, Debug, PartialEq, Eq, Structural)]
pub enum CursorCommand {
    /// Ask the engine whether the cursor is exhausted.
    TestEmpty,
    /// Capture the result the cursor currently rests on.
    Dereference,
    /// Move the cursor one result forward.
    Increment,
}

/// What the engine answered to the primitive that just ran.
pub enum CursorReply {
    /// The answer to `TestEmpty`.
    Emptiness(bool),
    /// The marshaled result captured by `Dereference`.
    Item(KeyviMatch),
    /// `Increment` completed.
    Advanced,
}

/// Where the protocol stands between primitives.
#[derive(Clone, Copy, Debug, PartialEq, Eq, Structural)]
pub enum CursorState {
    /// The cursor must be tested for exhaustion before anything else.
    Testing,
    /// The cursor was seen non-empty: the current result must be captured.
    Fetching,
    /// A result is captured: the cursor must advance before the result is
    /// handed out.
    Advancing,
    /// The cursor reported empty.  Terminal: nothing more is yielded.
    Exhausted,
}

/// Owns one native cursor and drives the pull protocol over it.
pub struct KeyviMatchIterator {
    state: CursorState,
    pending: Option<KeyviMatch>,
    handle: NativeHandle,
    yielded: Ghost<Seq<MatchView>>,
}

impl KeyviMatchIterator {
    pub closed spec fn spec_state(&self) -> CursorState {
        self.state
    }

    /// The result captured by a dereference and not yet handed out.
    pub closed spec fn spec_pending(&self) -> Option<KeyviMatch> {
        self.pending
    }

    /// Whether the native cursor is still owed a release.
    pub closed spec fn spec_live(&self) -> bool {
        self.handle.spec_live()
    }

    pub closed spec fn spec_token(&self) -> u64 {
        self.handle.spec_token()
    }

    /// The results handed out so far, in pull order: the iterator is a
    /// single pass over this ever-growing sequence.
    pub closed spec fn spec_yielded(&self) -> Seq<MatchView> {
        self.yielded@
    }

    /// A result is held back exactly while the cursor has yet to advance
    /// past it.
    pub closed spec fn wf(&self) -> bool {
        self.pending is Some <==> self.state is Advancing
    }

    /// Adopts a freshly created native cursor; the protocol starts by
    /// testing for exhaustion.
    pub fn new(token: u64) -> (it: KeyviMatchIterator)
        ensures
            it.wf(),
            it.spec_state() is Testing,
            it.spec_live(),
            it.spec_token() == token,
            it.spec_yielded() == Seq::<MatchView>::empty(),
    {
        KeyviMatchIterator {
            state: CursorState::Testing,
            pending: None,
            handle: NativeHandle::acquire(token),
            yielded: Ghost(Seq::empty()),
        }
    }

    /// The raw primitive that must run next, or nothing once the cursor is
    /// exhausted.
    pub fn next_command(&self) -> (r: Option<CursorCommand>)
        ensures
            self.spec_state() is Testing ==> r == Some(CursorCommand::TestEmpty),
            self.spec_state() is Fetching ==> r == Some(CursorCommand::Dereference),
            self.spec_state() is Advancing ==> r == Some(CursorCommand::Increment),
            self.spec_state() is Exhausted ==> r is None,
    {
        match self.state {
            CursorState::Testing => Some(CursorCommand::TestEmpty),
            CursorState::Fetching => Some(CursorCommand::Dereference),
            CursorState::Advancing => Some(CursorCommand::Increment),
            CursorState::Exhausted => None,
        }
    }

    pub fn token(&self) -> (t: u64)
        ensures
            t == self.spec_token(),
    {
        self.handle.token()
    }

    pub fn is_exhausted(&self) -> (r: bool)
        ensures
            r == (self.spec_state() is Exhausted),
    {
        match self.state {
            CursorState::Exhausted => true,
            _ => false,
        }
    }

    /// Absorbs the reply of the primitive that just ran.  A captured result
    /// is yielded only here, and only once the cursor has advanced past it;
    /// an exhausted cursor absorbs nothing, so it can never yield again.
    pub fn absorb(&mut self, reply: CursorReply) -> (yielded: Option<KeyviMatch>)
        requires
            old(self).wf(),
            old(self).spec_live(),
            !(old(self).spec_state() is Exhausted),
            old(self).spec_state() is Testing ==> reply is Emptiness,
            old(self).spec_state() is Fetching ==> reply is Item,
            old(self).spec_state() is Advancing ==> reply is Advanced,
        ensures
            final(self).wf(),
            final(self).spec_live(),
            final(self).spec_token() == old(self).spec_token(),
            old(self).spec_state() is Testing && reply == CursorReply::Emptiness(true) ==> {
                &&& final(self).spec_state() is Exhausted
                &&& yielded is None
            },
            old(self).spec_state() is Testing && reply == CursorReply::Emptiness(false) ==> {
                &&& final(self).spec_state() is Fetching
                &&& yielded is None
            },
            old(self).spec_state() is Fetching ==> {
                &&& final(self).spec_state() is Advancing
                &&& yielded is None
                &&& (reply matches CursorReply::Item(m) ==> final(self).spec_pending() == Some(m))
            },
            old(self).spec_state() is Advancing ==> {
                &&& final(self).spec_state() is Testing
                &&& yielded == old(self).spec_pending()
                &&& yielded is Some
            },
            yielded matches Some(m) ==> final(self).spec_yielded() == old(self).spec_yielded().push(
                m@,
            ),
            yielded is None ==> final(self).spec_yielded() == old(self).spec_yielded(),
    {
        match reply {
            CursorReply::Emptiness(empty) => {
                if empty {
                    self.state = CursorState::Exhausted;
                } else {
                    self.state = CursorState::Fetching;
                }
                None
            },
            CursorReply::Item(m) => {
                self.state = CursorState::Advancing;
                self.pending = Some(m);
                None
            },
            CursorReply::Advanced => {
                self.state = CursorState::Testing;
                let ghost handed_out = self.yielded@;
                let taken = self.pending.take();
                self.yielded = Ghost(
                    match &taken {
                        Some(m) => handed_out.push(m@),
                        None => handed_out,
                    },
                );
                taken
            },
        }
    }

    /// Gives up ownership of the native cursor, handing the token back so
    /// the caller can destroy it — exactly once, at any point of the
    /// iteration.  Results already yielded are owned values and stay valid.
    pub fn release(&mut self) -> (t: u64)
        requires
            old(self).spec_live(),
        ensures
            !final(self).spec_live(),
            t == old(self).spec_token(),
            final(self).spec_state() == old(self).spec_state(),
            final(self).spec_yielded() == old(self).spec_yielded(),
    {
        self.handle.release()
    }
}

/// What commands the iterator can still issue: none once exhausted, exactly
/// the one owed primitive otherwise.
pub open spec fn spec_commands_of(it: KeyviMatchIterator) -> Set<CursorCommand> {
    match it.spec_state() {
        CursorState::Testing => Set::empty().insert(CursorCommand::TestEmpty),
        CursorState::Fetching => Set::empty().insert(CursorCommand::Dereference),
        CursorState::Advancing => Set::empty().insert(CursorCommand::Increment),
        CursorState::Exhausted => Set::empty(),
    }
}

/// Exhaustion is terminal: an exhausted iterator issues no further command,
/// so no primitive ever runs on the spent cursor and nothing more is
/// yielded, however often the caller asks.
pub proof fn lemma_exhausted_is_terminal(it: KeyviMatchIterator)
    requires
        it.spec_state() is Exhausted,
    ensures
        forall|c: CursorCommand| !(#[trigger] spec_commands_of(it).contains(c)),
{
}

/// The cursor is advanced only while a captured result is in hand: an
/// increment can never run before a successful dereference.
pub proof fn lemma_increment_only_after_capture(it: KeyviMatchIterator)
    requires
        it.wf(),
        it.spec_state() is Advancing,
    ensures
        it.spec_pending() is Some,
{
}

} // verus!
