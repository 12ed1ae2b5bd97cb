//! Principals, and what the host established about an invocation.

use vstd::prelude::*;

verus! {

/// A principal, named by the bytes under which the host knows it.
///
/// Two identities are the same principal exactly when their bytes agree.
#[derive(Debug, PartialEq, Eq, Hash)]
pub struct Identity {
    pub bytes: Vec<u8>,
}

impl View for Identity {
    type V = Seq<u8>;

    open spec fn view(&self) -> Seq<u8> {
        self.bytes@
    }
}

impl Clone for Identity {
    fn clone(&self) -> (copy: Self)
        ensures
            copy@ == self@,
    {
        Identity { bytes: self.bytes.clone() }
    }
}

impl Identity {
    /// The principal that the host knows under `bytes`.
    pub fn new(bytes: Vec<u8>) -> (identity: Identity)
        ensures
            identity@ == bytes@,
    {
        Identity { bytes }
    }

    /// Whether `self` and `other` name the same principal.
    pub fn same_as(&self, other: &Identity) -> (same: bool)
        ensures
            same == (self@ == other@),
    {
        if self.bytes.len() != other.bytes.len() {
            return false;
        }
        let mut i: usize = 0;
        while i < self.bytes.len()
            invariant
                self.bytes.len() == other.bytes.len(),
                i <= self.bytes.len(),
                forall|j: int| 0 <= j < i ==> self.bytes@[j] == other.bytes@[j],
            decreases self.bytes.len() - i,
        {
            if self.bytes[i] != other.bytes[i] {
                return false;
            }
            i += 1;
        }
        assert(self.bytes@ =~= other.bytes@);
        true
    }
}

/// What the host established about the invocation that is being served.
#[derive(Debug, PartialEq, Eq)]
pub struct Invocation {
    /// The principal whose authorization the host confirmed for this invocation.
    pub caller: Identity,
    /// The host's clock when the invocation began, in seconds.
    pub timestamp: u64,
}

impl Invocation {
    /// An invocation that `caller` authorized, served at `timestamp`.
    pub fn new(caller: Identity, timestamp: u64) -> (invocation: Invocation)
        ensures
            invocation.caller@ == caller@,
            invocation.timestamp == timestamp,
    {
        Invocation { caller, timestamp }
    }

    /// Whether the invocation may act for `user`.
    pub open spec fn authorizes(&self, user: Seq<u8>) -> bool {
        self.caller@ == user
    }

    /// Tests whether the invocation may act for `user`.
    pub fn is_authorized_for(&self, user: &Identity) -> (authorized: bool)
        ensures
            authorized == self.authorizes(user@),
    {
        self.caller.same_as(user)
    }
}

} // verus!
