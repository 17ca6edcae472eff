//! Ownership of one native resource.
//!
//! Every resource handed out by the engine (a dictionary, a match cursor) is
//! owned on the safe side by exactly one [`NativeHandle`].  The handle starts
//! live and can be released exactly once: `release` demands a live handle and
//! leaves it dead, so a second release of the same handle cannot be verified,
//! and no operation that demands a live handle can follow a release.

use vstd::prelude::*;

verus! {

/// The safe-side owner of one native resource, identified by an opaque token
/// chosen by the shim that performs the native calls.
pub struct NativeHandle {
    token: u64,
    live: bool,
}

impl NativeHandle {
    /// Whether the native resource behind this handle is still owed a release.
    pub closed spec fn spec_live(&self) -> bool {
        self.live
    }

    /// The opaque token that identifies the native resource.
    pub closed spec fn spec_token(&self) -> u64 {
        self.token
    }

    /// Adopts a freshly created native resource.
    pub fn acquire(token: u64) -> (h: NativeHandle)
        ensures
            h.spec_live(),
            h.spec_token() == token,
    {
        NativeHandle { token, live: true }
    }

    pub fn is_live(&self) -> (r: bool)
        ensures
            r == self.spec_live(),
    {
        self.live
    }

    pub fn token(&self) -> (t: u64)
        ensures
            t == self.spec_token(),
    {
        self.token
    }

    /// Gives up ownership, handing the token back so the caller can destroy
    /// the native resource.  A handle can be released only while it is live,
    /// so the destruction it triggers happens exactly once.
    pub fn release(&mut self) -> (t: u64)
        requires
            old(self).spec_live(),
        ensures
            !final(self).spec_live(),
            final(self).spec_token() == old(self).spec_token(),
            t == old(self).spec_token(),
    {
        self.live = false;
        self.token
    }
}

} // verus!
