//! What the host supplies to an operation: the ledger time, and the set of
//! principals that authorized the call.

use vstd::prelude::*;
use crate::storage_types::{Address, TokenError};

verus! {

/// The context of one operation.
pub struct Env {
    /// Sequence number of the current ledger: the clock of all expirations.
    pub sequence: u32,
    /// The principals that authorized the current call.
    pub authorized: Vec<Address>,
}

impl Env {
    /// `a` authorized the current call.
    pub open spec fn is_authorized(&self, a: Address) -> bool {
        self.authorized@.contains(a)
    }

    /// A context at ledger `sequence` that nobody has authorized yet.
    pub fn new(sequence: u32) -> (r: Env)
        ensures
            r.sequence == sequence,
            r.authorized@ == Seq::<Address>::empty(),
    {
        Env { sequence, authorized: Vec::new() }
    }

    /// Records that `a` authorized the current call.
    pub fn authorize(&mut self, a: Address)
        ensures
            final(self).sequence == old(self).sequence,
            final(self).authorized@ == old(self).authorized@.push(a),
    {
        self.authorized.push(a);
    }

    /// Moves the ledger clock to `sequence`.
    pub fn set_sequence(&mut self, sequence: u32)
        ensures
            final(self).sequence == sequence,
            final(self).authorized@ == old(self).authorized@,
    {
        self.sequence = sequence;
    }

    /// Succeeds exactly when `a` authorized the current call.
    pub fn require_auth(&self, a: Address) -> (r: Result<(), TokenError>)
        ensures
            r == (if self.is_authorized(a) { Ok(()) } else { Err(TokenError::Unauthorized) }),
    {
        let n = self.authorized.len();
        let mut i: usize = 0;
        while i < n
            invariant
                n == self.authorized@.len(),
                0 <= i <= n,
                forall|j: int| 0 <= j < i ==> self.authorized@[j] != a,
            decreases n - i,
        {
            if self.authorized[i] == a {
                return Ok(());
            }
            i = i + 1;
        }
        Err(TokenError::Unauthorized)
    }
}

} // verus!
