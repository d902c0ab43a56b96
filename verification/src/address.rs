//! Account and contract identities.

use vstd::prelude::*;

verus! {

/// What an identity belongs to.
#[derive(Clone, Copy, Debug, PartialEq, Eq, Structural)]
pub enum AddressKind {
    /// An account, named by its Ed25519 public key.
    Account,
    /// A contract, named by its hash.
    Contract,
}

/// The identity of an account or a contract: its kind and 32 bytes. For an
/// oracle the bytes are the Ed25519 public key that its signatures are
/// checked under.
#[derive(Clone, Copy, Debug, PartialEq, Eq)]
pub struct Address {
    pub kind: AddressKind,
    pub key: [u8; 32],
}

impl Address {
    /// The contract with the given hash.
    pub fn from_bytes(key: [u8; 32]) -> (res: Address)
        ensures
            res.kind == AddressKind::Contract,
            res.key == key,
    {
        Address { kind: AddressKind::Contract, key }
    }

    /// The account with the given public key.
    pub fn account(key: [u8; 32]) -> (res: Address)
        ensures
            res.kind == AddressKind::Account,
            res.key == key,
    {
        Address { kind: AddressKind::Account, key }
    }

    /// The contract with the all-zero hash, which stands for "no admin" in a
    /// registry that was never initialised.
    pub fn zero() -> (res: Address)
        ensures
            res.is_zero(),
    {
        Address { kind: AddressKind::Contract, key: [0u8; 32] }
    }

    /// The identity is the contract with the all-zero hash.
    pub open spec fn is_zero(self) -> bool {
        self.kind == AddressKind::Contract && forall|i: int| 0 <= i < 32 ==> self.key[i] == 0
    }

    /// There is only one zero identity.
    pub proof fn zero_is_unique(a: Address, b: Address)
        requires
            a.is_zero(),
            b.is_zero(),
        ensures
            a == b,
    {
        assert(a.key =~= b.key);
    }

    /// Whether two identities are the same.
    pub fn same(&self, other: &Address) -> (res: bool)
        ensures
            res == (*self == *other),
    {
        if self.kind != other.kind {
            return false;
        }
        let mut i: usize = 0;
        while i < 32
            invariant
                i <= 32,
                self.kind == other.kind,
                forall|j: int| 0 <= j < i ==> self.key[j] == other.key[j],
            decreases 32 - i,
        {
            if self.key[i] != other.key[i] {
                return false;
            }
            i += 1;
        }
        proof {
            assert(self.key =~= other.key);
        }
        true
    }

    /// The key bytes as a vector.
    pub fn to_vec(&self) -> (res: Vec<u8>)
        ensures
            res@ == self.key@,
    {
        let mut out: Vec<u8> = Vec::new();
        let mut i: usize = 0;
        while i < 32
            invariant
                i <= 32,
                out@.len() == i,
                forall|j: int| 0 <= j < i ==> out@[j] == self.key[j],
            decreases 32 - i,
        {
            out.push(self.key[i]);
            i += 1;
        }
        proof {
            assert(out@ =~= self.key@);
        }
        out
    }
}

} // verus!
