//! The active-session registry: a single mutable table from token to
//! identity, consulted on every protected request.
//!
//! The registry is a revocation list, not a source of validity: an entry
//! authorizes a request only after the token has independently passed
//! cryptographic validation. Entries are created by login, read by the
//! authentication gate and deleted by logout; an entry for an expired token
//! stays until explicit logout. The callers that share one registry across
//! concurrent requests must serialize these operations under one exclusive
//! lock; each operation here is a single short table access.

use vstd::hash_map::StringHashMap;
use vstd::prelude::*;

verus! {

/// The table of live sessions, viewed as a map from token to identity.
pub struct SessionRegistry {
    table: StringHashMap<String>,
}

impl View for SessionRegistry {
    type V = Map<Seq<char>, Seq<char>>;

    closed spec fn view(&self) -> Map<Seq<char>, Seq<char>> {
        self.table@.map_values(|identity: String| identity@)
    }
}

impl SessionRegistry {
    /// A registry built from `new` holds finitely many sessions, and every
    /// operation keeps it so.
    pub open spec fn wf(self) -> bool {
        self@.dom().finite()
    }

    /// Creates an empty registry.
    pub fn new() -> (r: Self)
        ensures
            r@ == Map::<Seq<char>, Seq<char>>::empty(),
            r.wf(),
    {
        let r = SessionRegistry { table: StringHashMap::new() };
        proof {
            assert(r@.dom() =~= Set::<Seq<char>>::empty());
        }
        r
    }

    /// How many sessions are live.
    pub fn len(&self) -> (n: usize)
        ensures
            n == self@.len(),
    {
        proof {
            assert(self.table@.dom() =~= self@.dom());
        }
        self.table.len()
    }

    /// Binds `token` to `identity`, replacing any previous binding
    /// (an unconditional upsert). A fresh token grows the registry by
    /// exactly one entry; a rebound token leaves its size unchanged.
    pub fn insert(&mut self, token: String, identity: String)
        ensures
            final(self)@ == old(self)@.insert(token@, identity@),
            old(self).wf() ==> final(self).wf(),
            old(self).wf() ==> final(self)@.len() == old(self)@.len() + if old(
                self,
            )@.contains_key(token@) {
                0int
            } else {
                1int
            },
    {
        proof {
            assert(old(self)@.insert(token@, identity@).dom() =~= old(self)@.dom().insert(token@));
        }
        self.table.insert(token, identity);
        proof {
            assert(self@ =~= old(self)@.insert(token@, identity@));
        }
    }

    /// The identity bound to `token`, if the session is live.
    pub fn lookup(&self, token: &str) -> (r: Option<&String>)
        ensures
            match r {
                Some(identity) => self@.contains_key(token@) && identity@ == self@[token@],
                None => !self@.contains_key(token@),
            },
    {
        self.table.get(token)
    }

    /// Whether `token` has a live session.
    pub fn contains(&self, token: &str) -> (r: bool)
        ensures
            r == self@.contains_key(token@),
    {
        self.table.contains_key(token)
    }

    /// Deletes the session of `token` if one is live; reports whether one
    /// was. A present token shrinks the registry by exactly one entry.
    pub fn remove(&mut self, token: &str) -> (was_present: bool)
        ensures
            was_present == old(self)@.contains_key(token@),
            final(self)@ == old(self)@.remove(token@),
            old(self).wf() ==> final(self).wf(),
            old(self).wf() ==> final(self)@.len() == old(self)@.len() - if old(
                self,
            )@.contains_key(token@) {
                1int
            } else {
                0int
            },
    {
        proof {
            assert(old(self)@.remove(token@).dom() =~= old(self)@.dom().remove(token@));
            if old(self)@.contains_key(token@) {
                if old(self).wf() {
                    old(self)@.lemma_remove_key_len(token@);
                }
            } else {
                assert(old(self)@.remove(token@) =~= old(self)@);
            }
        }
        let was_present = self.table.contains_key(token);
        self.table.remove(token);
        proof {
            assert(self@ =~= old(self)@.remove(token@));
        }
        was_present
    }
}

} // verus!
