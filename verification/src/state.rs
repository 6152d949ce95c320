use vstd::prelude::*;
use crate::pubkey::Pubkey;

verus! {

/// What an instruction sees of an account that holds no data of this
/// program: a signer, who also pays for the accounts that are created.
#[derive(Clone, Copy, Debug, PartialEq, Eq)]
pub struct AccountInfo {
    pub key: Pubkey,
    /// Whether the transaction carries this account's signature.
    pub is_signer: bool,
    pub lamports: u64,
}

/// An account of this program: its address, its balance and its data.
///
/// The ledger reclaims an account that holds no lamports, so an account
/// exists exactly while its balance is positive.
#[derive(Debug, PartialEq, Eq)]
pub struct Account<T> {
    pub key: Pubkey,
    pub lamports: u64,
    pub data: T,
}

impl<T: Copy> Clone for Account<T> {
    fn clone(&self) -> (r: Self)
        ensures
            r == *self,
    {
        *self
    }
}

impl<T: Copy> Copy for Account<T> {

}

impl<T> Account<T> {
    /// Whether the account holds lamports.
    pub open spec fn spec_is_active(&self) -> bool {
        self.lamports > 0
    }

    /// Whether the account exists.
    #[verifier::when_used_as_spec(spec_is_active)]
    pub fn is_active(&self) -> (r: bool)
        ensures
            r == self.spec_is_active(),
    {
        self.lamports > 0
    }
}

/// A whitelist: who may change it, and how many wallets are on it.
#[derive(Clone, Copy, Debug, PartialEq, Eq)]
pub struct Whitelist {
    pub authority: Pubkey,
    pub counter: u64,
}

impl Whitelist {
    /// The size of a whitelist's data in bytes: the authority and the counter.
    pub const LEN: usize = 32 + 8;

    /// Whether `signer` has signed and holds the authority's key.
    pub open spec fn spec_is_authority(&self, signer: &AccountInfo) -> bool {
        signer.is_signer && signer.key == self.authority
    }

    /// Whether `signer` signed the transaction and is this whitelist's authority.
    #[verifier::when_used_as_spec(spec_is_authority)]
    pub fn is_authority(&self, signer: &AccountInfo) -> (r: bool)
        ensures
            r == self.spec_is_authority(signer),
    {
        signer.is_signer && signer.key == self.authority
    }
}

/// The record of a whitelisted wallet. It holds nothing: the wallet is on the
/// whitelist exactly while the record's account exists.
#[derive(Clone, Copy, Debug, PartialEq, Eq)]
pub struct Wallet {}

} // verus!
