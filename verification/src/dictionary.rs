//! The safe-side owner of one open dictionary.
//!
//! Opening is decided here: the engine either hands back a handle token or
//! nothing, and only the latter is an error.  Queries on an open dictionary
//! are built here as [`EngineQuery`] values that carry the query key
//! byte-exactly, together with its length — never as NUL-terminated text.
//! [`spec_nul_truncated`] pins down what a NUL-terminated transfer would
//! deliver instead, and the lemmas below prove that such a transfer drops
//! every byte from the first embedded NUL on, while a query built here
//! carries every key byte; so keys that differ only past an embedded NUL
//! still resolve independently.  The shim that owns the native entry points
//! performs each query and feeds the replies back as a match or a cursor
//! token.

use vstd::prelude::*;
use vstd::slice::slice_to_vec;

use crate::error::OpenError;
use crate::handle::NativeHandle;

verus! {

/// One query, ready to cross the boundary.  The key travels as an owned,
/// length-aware byte sequence.
pub enum EngineQuery {
    /// Exact lookup of one key.
    Lookup { key: Vec<u8> },
    /// Every stored entry, in the engine's traversal order.
    AllItems,
    /// The stored keys that the prefix begins, capped at `cutoff` results.
    PrefixCompletions { key: Vec<u8>, cutoff: u64 },
    /// The stored keys within the given edit distance of the key.
    FuzzyMatches { key: Vec<u8>, max_edit_distance: u64 },
    /// Completions of the final word of a multi-word query, capped at
    /// `cutoff` results.
    MultiWordCompletions { key: Vec<u8>, cutoff: u64 },
}

/// The safe-side owner of one native dictionary, immutable after opening and
/// released exactly once.
pub struct Dictionary {
    handle: NativeHandle,
}

impl Dictionary {
    /// Whether the native dictionary is still owed a release.
    pub closed spec fn spec_live(&self) -> bool {
        self.handle.spec_live()
    }

    pub closed spec fn spec_token(&self) -> u64 {
        self.handle.spec_token()
    }

    /// Decides an open attempt from the engine's reply: a handle token makes
    /// a live dictionary, no token is an open failure with the fixed
    /// diagnostic message.
    pub fn new(reply: Option<u64>) -> (r: Result<Dictionary, OpenError>)
        ensures
            match r {
                Ok(d) => {
                    &&& reply matches Some(t) && d.spec_token() == t
                    &&& d.spec_live()
                },
                Err(e) => reply is None,
            },
    {
        match reply {
            Some(token) => Ok(Dictionary { handle: NativeHandle::acquire(token) }),
            None => Err(OpenError {}),
        }
    }

    pub fn is_live(&self) -> (r: bool)
        ensures
            r == self.spec_live(),
    {
        self.handle.is_live()
    }

    pub fn token(&self) -> (t: u64)
        ensures
            t == self.spec_token(),
    {
        self.handle.token()
    }

    /// The exact lookup of `key`: the query carries every byte of the key.
    /// A missing key is not an error; the engine answers with an empty
    /// match.
    pub fn get(&self, key: &[u8]) -> (q: EngineQuery)
        requires
            self.spec_live(),
        ensures
            q matches EngineQuery::Lookup { key: k } && k@ == key@,
    {
        EngineQuery::Lookup { key: slice_to_vec(key) }
    }

    /// The enumeration of every stored entry.
    pub fn get_all_items(&self) -> (q: EngineQuery)
        requires
            self.spec_live(),
        ensures
            q is AllItems,
    {
        EngineQuery::AllItems
    }

    /// The completions of `key` as a byte-prefix, capped at `cutoff`
    /// results.
    pub fn get_prefix_completions(&self, key: &[u8], cutoff: u64) -> (q: EngineQuery)
        requires
            self.spec_live(),
        ensures
            q matches EngineQuery::PrefixCompletions { key: k, cutoff: c } && k@ == key@ && c
                == cutoff,
    {
        EngineQuery::PrefixCompletions { key: slice_to_vec(key), cutoff }
    }

    /// The stored keys within `max_edit_distance` of `key`, each annotated
    /// by the engine with a score.
    pub fn get_fuzzy(&self, key: &[u8], max_edit_distance: u64) -> (q: EngineQuery)
        requires
            self.spec_live(),
        ensures
            q matches EngineQuery::FuzzyMatches { key: k, max_edit_distance: d } && k@ == key@
                && d == max_edit_distance,
    {
        EngineQuery::FuzzyMatches { key: slice_to_vec(key), max_edit_distance }
    }

    /// The completions of the final word of `key` bound to its preceding
    /// words, capped at `cutoff` results.
    pub fn get_multi_word_completions(&self, key: &[u8], cutoff: u64) -> (q: EngineQuery)
        requires
            self.spec_live(),
        ensures
            q matches EngineQuery::MultiWordCompletions { key: k, cutoff: c } && k@ == key@ && c
                == cutoff,
    {
        EngineQuery::MultiWordCompletions { key: slice_to_vec(key), cutoff }
    }

    /// Gives up ownership, handing the token back so the caller can destroy
    /// the native dictionary — exactly once, and only after all planned
    /// queries are built, since building one demands a live dictionary.
    pub fn release(&mut self) -> (t: u64)
        requires
            old(self).spec_live(),
        ensures
            !final(self).spec_live(),
            t == old(self).spec_token(),
    {
        self.handle.release()
    }
}

/// What a NUL-terminated transfer would deliver of a key: every byte up to,
/// and none from, the first embedded NUL.
pub open spec fn spec_nul_truncated(k: Seq<u8>) -> Seq<u8>
    decreases k.len(),
{
    if k.len() == 0 {
        k
    } else if k.first() == 0 {
        Seq::<u8>::empty()
    } else {
        seq![k.first()] + spec_nul_truncated(k.drop_first())
    }
}

/// A NUL-terminated transfer loses data on every key with an embedded NUL:
/// what it delivers is strictly shorter than the key.  The queries built
/// above carry the key whole instead, so no key is ever cut short.
pub proof fn lemma_nul_truncation_drops_tail(k: Seq<u8>)
    requires
        exists|i: int| 0 <= i < k.len() && k[i] == 0,
    ensures
        spec_nul_truncated(k).len() < k.len(),
    decreases k.len(),
{
    let i = choose|i: int| 0 <= i < k.len() && k[i] == 0;
    if k.first() == 0 {
    } else {
        assert(k.drop_first()[i - 1] == 0);
        lemma_nul_truncation_drops_tail(k.drop_first());
    }
}

/// On keys without an embedded NUL the two transfers agree: truncation is
/// harmless exactly when there is nothing to truncate.
pub proof fn lemma_nul_truncation_keeps_clean_keys(k: Seq<u8>)
    requires
        forall|i: int| 0 <= i < k.len() ==> k[i] != 0,
    ensures
        spec_nul_truncated(k) == k,
    decreases k.len(),
{
    if k.len() == 0 {
    } else {
        assert(k.first() != 0);
        lemma_nul_truncation_keeps_clean_keys(k.drop_first());
        assert(seq![k.first()] + k.drop_first() =~= k);
    }
}

/// A NUL-terminated transfer conflates keys: whatever follows a key's NUL
/// byte is invisible to it, so keys that differ only there would resolve to
/// the same stored entry.  The queries built above differ whenever the keys
/// differ, because they carry every byte.
pub proof fn lemma_nul_truncation_conflates(k: Seq<u8>, tail: Seq<u8>)
    ensures
        spec_nul_truncated(k.push(0) + tail) == spec_nul_truncated(k.push(0)),
    decreases k.len(),
{
    if k.len() == 0 {
        assert((k.push(0) + tail).first() == 0);
        assert(k.push(0).first() == 0);
    } else {
        assert((k.push(0) + tail).first() == k.first());
        assert(k.push(0).first() == k.first());
        assert((k.push(0) + tail).drop_first() =~= k.drop_first().push(0) + tail);
        assert(k.push(0).drop_first() =~= k.drop_first().push(0));
        lemma_nul_truncation_conflates(k.drop_first(), tail);
    }
}

} // verus!
