//! The revocation set: the hex session identifiers revoked on this node.
//! Insertion is the only mutation; entries live for the process lifetime.
//! The pub/sub subscription that feeds it is the caller's business; every
//! received payload is handed to `mark_revoked`.

use vstd::prelude::*;
use crate::strutil::string_eq;

verus! {

/// The set of revoked hex session identifiers.
pub struct RevocationSet {
    items: Vec<String>,
}

impl RevocationSet {
    /// The revoked identifiers.
    pub closed spec fn contents(&self) -> Set<Seq<char>> {
        Set::new(
            |s: Seq<char>|
                exists|i: int| 0 <= i < self.items@.len() && self.items@[i]@ == s,
        )
    }

    /// An empty revocation set.
    pub fn new() -> (r: RevocationSet)
        ensures
            r.contents() == Set::<Seq<char>>::empty(),
    {
        let r = RevocationSet { items: Vec::new() };
        proof {
            assert(r.contents() =~= Set::<Seq<char>>::empty());
        }
        r
    }

    /// Whether the session is known to be revoked on this node. (While
    /// the feeding subscription is disconnected the set can lag, so a
    /// negative answer means "not known to be revoked".)
    pub fn is_revoked(&self, session_id_hex: &String) -> (r: bool)
        ensures
            r == self.contents().contains(session_id_hex@),
    {
        let n = self.items.len();
        let mut i: usize = 0;
        while i < n
            invariant
                i <= n,
                n == self.items@.len(),
                forall|j: int| 0 <= j < i ==> self.items@[j]@ != session_id_hex@,
            decreases n - i,
        {
            if string_eq(&self.items[i], session_id_hex) {
                proof {
                    assert(0 <= i < self.items@.len() && self.items@[i as int]@
                        == session_id_hex@);
                }
                return true;
            }
            i += 1;
        }
        false
    }

    /// Insert the session into the set. Idempotent: inserting an already
    /// revoked identifier leaves the set as it is.
    pub fn mark_revoked(&mut self, session_id_hex: String)
        ensures
            final (self).contents() == old(self).contents().insert(session_id_hex@),
    {
        let ghost sid: Seq<char> = session_id_hex@;
        if self.is_revoked(&session_id_hex) {
            proof {
                assert(self.contents() =~= old(self).contents().insert(sid));
            }
        } else {
            self.items.push(session_id_hex);
            proof {
                assert forall|s: Seq<char>|
                    #[trigger] self.contents().contains(s) <==> (old(self).contents().contains(s)
                        || s == sid) by {
                    if self.contents().contains(s) {
                        let i = choose|i: int|
                            0 <= i < self.items@.len() && self.items@[i]@ == s;
                        if i < old(self).items@.len() {
                            assert(old(self).items@[i]@ == s);
                        }
                    }
                    if old(self).contents().contains(s) {
                        let i = choose|i: int|
                            0 <= i < old(self).items@.len() && old(self).items@[i]@ == s;
                        assert(self.items@[i]@ == s);
                    }
                    if s == sid {
                        assert(self.items@[self.items@.len() - 1]@ == s);
                    }
                }
                assert(self.contents() =~= old(self).contents().insert(sid));
            }
        }
    }
}

} // verus!
