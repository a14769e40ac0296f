use vstd::prelude::*;
use crate::spot::Identity;

verus! {

/// The external capability that proves a caller controls a claimed identity.
/// `authorizes` is meant to report whether `bidder` actively authorized the
/// current call. The trait itself promises nothing to the verifier, so the
/// bidding contracts hold whatever an authenticator answers.
pub trait Authenticator {
    /// Did `bidder` authorize the current call?
    fn authorizes(&self, bidder: &Identity) -> bool;
}

/// An authenticator backed by a fixed list: exactly the identities on the
/// list count as authenticated callers.
pub struct AllowListAuthenticator {
    allowed: Vec<Identity>,
}

impl AllowListAuthenticator {
    /// The identities this authenticator accepts.
    pub closed spec fn allowed_ids(&self) -> Seq<Identity> {
        self.allowed@
    }

    /// An authenticator that accepts nobody yet.
    pub fn new() -> (auth: AllowListAuthenticator)
        ensures
            auth.allowed_ids() == Seq::<Identity>::empty(),
    {
        AllowListAuthenticator { allowed: Vec::new() }
    }

    /// Accept `id` from now on.
    pub fn allow(&mut self, id: Identity)
        ensures
            final(self).allowed_ids() == old(self).allowed_ids().push(id),
    {
        self.allowed.push(id);
    }
}

impl Authenticator for AllowListAuthenticator {
    /// Answers exactly whether `bidder` stands on the list.
    fn authorizes(&self, bidder: &Identity) -> (r: bool)
        ensures
            r == self.allowed_ids().contains(*bidder),
    {
        let n: usize = self.allowed.len();
        let mut i: usize = 0;
        while i < n
            invariant
                n == self.allowed@.len(),
                0 <= i <= n,
                forall|j: int| 0 <= j < i ==> self.allowed@[j] != *bidder,
            decreases n - i,
        {
            if self.allowed[i] == *bidder {
                return true;
            }
            i = i + 1;
        }
        false
    }
}

} // verus!
