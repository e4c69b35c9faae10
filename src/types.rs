//! Plain value types for the identities, times and quantities the auction
//! logic reads.

use vstd::prelude::*;

verus! {

/// A 32-byte account identity.
#[derive(Clone, Copy, Debug, PartialEq, Eq)]
pub struct AccountAddress(pub [u8; 32]);

impl AccountAddress {
    /// Byte-wise comparison of two account identities.
    pub fn same_as(&self, other: &AccountAddress) -> (r: bool)
        ensures
            r == (*self == *other),
    {
        let mut i: usize = 0;
        while i < 32
            invariant
                0 <= i <= 32,
                forall|j: int| 0 <= j < i ==> self.0[j] == other.0[j],
            decreases 32 - i,
        {
            if self.0[i] != other.0[i] {
                return false;
            }
            i = i + 1;
        }
        proof {
            assert(self.0 =~= other.0);
        }
        true
    }
}

/// The address of a contract instance.
#[derive(Clone, Copy, Debug, PartialEq, Eq, Structural)]
pub struct ContractAddress {
    pub index: u64,
    pub subindex: u64,
}

/// The sender of a call: a plain account or another contract.
#[derive(Clone, Copy, Debug, PartialEq, Eq)]
pub enum Address {
    Account(AccountAddress),
    Contract(ContractAddress),
}

/// An amount of the native currency, in its smallest unit.
#[derive(Clone, Copy, Debug, PartialEq, Eq, Structural)]
pub struct Amount {
    pub micro_ccd: u64,
}

impl Amount {
    pub fn from_micro_ccd(micro_ccd: u64) -> (r: Amount)
        ensures
            r.micro_ccd == micro_ccd,
    {
        Amount { micro_ccd }
    }

    pub fn zero() -> (r: Amount)
        ensures
            r.micro_ccd == 0,
    {
        Amount { micro_ccd: 0 }
    }
}

/// A point in time, in milliseconds.
#[derive(Clone, Copy, Debug, PartialEq, Eq, Structural)]
pub struct Timestamp {
    pub millis: u64,
}

/// The identifier of a token within its token contract.
#[derive(Clone, Copy, Debug, PartialEq, Eq, Structural)]
pub struct TokenIdU8(pub u8);

/// A quantity of tokens.
#[derive(Clone, Copy, Debug, PartialEq, Eq, Structural)]
pub struct TokenAmountU64(pub u64);

} // verus!
