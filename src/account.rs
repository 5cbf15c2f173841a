//! Account identifiers and the metadata of the accounts an operation is given.
use vstd::prelude::*;

verus! {

/// A 32-byte public identifier.
#[derive(Debug, Clone, Copy)]
pub struct AccountKey {
    pub bytes: [u8; 32],
}

impl AccountKey {
    pub fn new(bytes: [u8; 32]) -> (r: AccountKey)
        ensures
            r.bytes@ == bytes@,
    {
        AccountKey { bytes }
    }

    /// The identifier whose bytes are all zero.
    pub open spec fn is_zero_spec(&self) -> bool {
        forall|i: int| 0 <= i < 32 ==> self.bytes@[i] == 0u8
    }

    /// Whether every byte of the identifier is zero.
    pub fn is_zero(&self) -> (r: bool)
        ensures
            r == self.is_zero_spec(),
    {
        let mut i: usize = 0;
        while i < 32
            invariant
                0 <= i <= 32,
                forall|j: int| 0 <= j < i ==> self.bytes@[j] == 0u8,
            decreases 32 - i,
        {
            if self.bytes[i] != 0 {
                return false;
            }
            i = i + 1;
        }
        true
    }

    /// Byte-wise equality of two identifiers.
    pub fn same_as(&self, other: &AccountKey) -> (r: bool)
        ensures
            r == (self.bytes@ == other.bytes@),
    {
        let mut i: usize = 0;
        while i < 32
            invariant
                0 <= i <= 32,
                forall|j: int| 0 <= j < i ==> self.bytes@[j] == other.bytes@[j],
            decreases 32 - i,
        {
            if self.bytes[i] != other.bytes[i] {
                return false;
            }
            i = i + 1;
        }
        assert(self.bytes@ =~= other.bytes@);
        true
    }
}

impl PartialEq for AccountKey {
    fn eq(&self, other: &AccountKey) -> (r: bool)
        ensures
            r == (self.bytes@ == other.bytes@),
    {
        self.same_as(other)
    }
}

impl vstd::std_specs::cmp::PartialEqSpecImpl for AccountKey {
    open spec fn obeys_eq_spec() -> bool {
        true
    }

    open spec fn eq_spec(&self, other: &AccountKey) -> bool {
        self.bytes@ == other.bytes@
    }
}

impl Eq for AccountKey {
}

/// What the program reads of an account it is given: its identifier, its
/// owning program, whether it signed, and the length of its stored data.
#[derive(Debug, Clone, Copy)]
pub struct AccountView {
    pub key: AccountKey,
    pub owner: AccountKey,
    pub is_signer: bool,
    pub data_len: usize,
}

} // verus!
