//! Account identities: 32-byte values that can be compared.

use vstd::prelude::*;
use vstd::std_specs::cmp::PartialEqSpecImpl;
use vstd::std_specs::convert::FromSpecImpl;

verus! {

/// The bytes of the identity that stands for "no account": all zero.
pub open spec fn unset_bytes() -> Seq<u8> {
    Seq::new(32, |i: int| 0u8)
}

/// A 32-byte account identity.
///
/// Its view is the sequence of its bytes. Two identities are equal exactly
/// when their bytes are equal.
#[derive(Clone, Copy, Debug, Eq)]
pub struct AccountId(pub [u8; 32]);

impl View for AccountId {
    type V = Seq<u8>;

    open spec fn view(&self) -> Seq<u8> {
        self.0@
    }
}

impl AccountId {
    /// Returns the bytes of the identity.
    pub fn as_bytes(&self) -> (bytes: &[u8; 32])
        ensures
            bytes@ == self@,
    {
        &self.0
    }
}

impl Default for AccountId {
    /// The all-zero identity.
    fn default() -> (id: AccountId)
        ensures
            id@ == unset_bytes(),
    {
        let id = AccountId([0u8; 32]);
        assert(id.0@ =~= unset_bytes());
        id
    }
}

impl PartialEq for AccountId {
    /// Compares the two identities byte by byte.
    fn eq(&self, other: &AccountId) -> (r: bool) {
        let mut i: usize = 0;
        while i < 32
            invariant
                i <= 32,
                forall|j: int| 0 <= j < i ==> self.0@[j] == other.0@[j],
            decreases 32 - i,
        {
            if self.0[i] != other.0[i] {
                return false;
            }
            i += 1;
        }
        assert(self.0@ =~= other.0@);
        true
    }
}

impl PartialEqSpecImpl for AccountId {
    open spec fn obeys_eq_spec() -> bool {
        true
    }

    open spec fn eq_spec(&self, other: &AccountId) -> bool {
        self@ == other@
    }
}

impl From<[u8; 32]> for AccountId {
    /// The identity with the given bytes.
    fn from(bytes: [u8; 32]) -> (id: AccountId) {
        AccountId(bytes)
    }
}

impl FromSpecImpl<[u8; 32]> for AccountId {
    open spec fn obeys_from_spec() -> bool {
        true
    }

    open spec fn from_spec(bytes: [u8; 32]) -> AccountId {
        AccountId(bytes)
    }
}

} // verus!
