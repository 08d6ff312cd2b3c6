//! In-memory models of the two cross-request stores: the challenge store
//! (short-lived, single-use entries keyed by state token) and the link store
//! (persistent, last-write-wins entries keyed by requester).
//!
//! A deployment keeps this state in a key-value backend instead; these
//! models carry the contracts the backend-facing plumbing must honour —
//! above all that consumption deletes, so a state token can never be
//! replayed.

use std::collections::HashMap;

use vstd::prelude::*;

use crate::challenge::Challenge;
use crate::error::Error;

verus! {

broadcast use vstd::std_specs::hash::group_hash_axioms;

/// Short-lived linking challenges, keyed by their opaque state token.
pub struct ChallengeStore {
    m: HashMap<u64, Challenge>,
}

impl View for ChallengeStore {
    type V = Map<u64, Challenge>;

    closed spec fn view(&self) -> Map<u64, Challenge> {
        self.m@
    }
}

impl ChallengeStore {
    /// Every entry sits under its own state token.
    pub open spec fn wf(self) -> bool {
        forall|k: u64| self@.contains_key(k) ==> (#[trigger] self@[k]).state == k
    }

    pub fn new() -> (s: ChallengeStore)
        ensures
            s@ == Map::<u64, Challenge>::empty(),
            s.wf(),
    {
        ChallengeStore { m: HashMap::new() }
    }

    /// Files a freshly created challenge under its state token. A colliding
    /// token overwrites; callers draw tokens from enough entropy that this
    /// does not happen in practice.
    pub fn create_challenge(&mut self, c: Challenge)
        requires
            old(self).wf(),
        ensures
            final(self)@ == old(self)@.insert(c.state, c),
            final(self).wf(),
    {
        let state = c.state;
        self.m.insert(state, c);
        proof {
            assert forall|k: u64| self@.contains_key(k) implies (#[trigger] self@[k]).state
                == k by {
                if k != state {
                    assert(old(self)@.contains_key(k));
                }
            }
        }
    }

    /// Looks up and deletes the challenge filed under `state`, in one step.
    /// An absent token — expired, already consumed, or forged — uniformly
    /// yields `ChallengeNotFound`, leaking nothing about which it was.
    pub fn consume_challenge(&mut self, state: u64) -> (r: Result<Challenge, Error>)
        requires
            old(self).wf(),
        ensures
            final(self)@ == old(self)@.remove(state),
            final(self).wf(),
            !old(self)@.contains_key(state) ==> final(self)@ == old(self)@,
            match r {
                Ok(c) => {
                    &&& old(self)@.contains_key(state)
                    &&& c == old(self)@[state]
                    &&& c.state == state
                },
                Err(e) => {
                    &&& e == Error::ChallengeNotFound
                    &&& !old(self)@.contains_key(state)
                },
            },
    {
        let r = self.m.remove(&state);
        proof {
            assert forall|k: u64| self@.contains_key(k) implies (#[trigger] self@[k]).state
                == k by {
                assert(old(self)@.contains_key(k));
            }
            if !old(self)@.contains_key(state) {
                assert(old(self)@.remove(state) =~= old(self)@);
            }
        }
        match r {
            Some(c) => Ok(c),
            None => Err(Error::ChallengeNotFound),
        }
    }
}

/// Law: challenge consumption is single-use. Whatever one consume call
/// leaves behind — whether or not it found the token — the token is absent
/// afterwards, so a second consume of the same `state` returns
/// `ChallengeNotFound`.
pub proof fn lemma_consume_single_use(m: Map<u64, Challenge>, state: u64)
    ensures
        !m.remove(state).contains_key(state),
{
}

/// Persisted links from a requester to the external username, overwritten
/// on re-link (last-write-wins).
pub struct LinkStore {
    m: HashMap<u64, String>,
}

impl View for LinkStore {
    type V = Map<u64, String>;

    closed spec fn view(&self) -> Map<u64, String> {
        self.m@
    }
}

impl LinkStore {
    pub fn new() -> (s: LinkStore)
        ensures
            s@ == Map::<u64, String>::empty(),
    {
        LinkStore { m: HashMap::new() }
    }

    /// Persists the link for `requester_id`, overwriting any prior record.
    pub fn upsert(&mut self, requester_id: u64, username: String)
        ensures
            final(self)@ == old(self)@.insert(requester_id, username),
    {
        self.m.insert(requester_id, username);
    }

    pub fn username_of(&self, requester_id: u64) -> (r: Option<&String>)
        ensures
            match r {
                Some(u) => self@.contains_key(requester_id) && *u == self@[requester_id],
                None => !self@.contains_key(requester_id),
            },
    {
        self.m.get(&requester_id)
    }
}

} // verus!
