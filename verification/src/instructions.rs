use vstd::prelude::*;
use crate::error::WhitelistError;
use crate::pubkey::{
    derived_matches, derived_view, find_wallet_address, find_whitelist_address, is_derived,
    wallet_pda, whitelist_pda, Pubkey,
};
use crate::state::{Account, AccountInfo, Wallet, Whitelist};

verus! {

/// The accounts of `create_whitelist`.
#[derive(Clone, Copy, Debug, PartialEq, Eq)]
pub struct CreateWhitelist {
    /// Who creates the whitelist, pays for its account and becomes its
    /// authority.
    pub authority: AccountInfo,
    /// The account that is to hold the whitelist.
    pub whitelist: Account<Whitelist>,
    /// The balance that keeps the new account on the ledger.
    pub min_balance: u64,
}

impl CreateWhitelist {
    /// Whether the whitelist may be created, where `found` is the address
    /// derived for the authority's whitelist.
    pub open spec fn decide(self, found: Option<(Seq<u8>, u8)>) -> Result<(), WhitelistError> {
        if !self.authority.is_signer {
            Err(WhitelistError::Unauthorized)
        } else if !is_derived(found, self.whitelist.key) {
            Err(WhitelistError::MismatchedDerivation)
        } else if self.whitelist.is_active() || self.min_balance == 0
            || self.authority.lamports < self.min_balance {
            Err(WhitelistError::InfrastructureError)
        } else {
            Ok(())
        }
    }

    /// Whether the whitelist may be created.
    pub open spec fn outcome(self) -> Result<(), WhitelistError> {
        self.decide(whitelist_pda(self.authority.key))
    }

    /// The accounts once the whitelist is created: the authority has paid
    /// for the account, which holds an empty whitelist of that authority.
    pub open spec fn effect(self) -> CreateWhitelist {
        CreateWhitelist {
            authority: AccountInfo {
                lamports: (self.authority.lamports - self.min_balance) as u64,
                ..self.authority
            },
            whitelist: Account {
                key: self.whitelist.key,
                lamports: self.min_balance,
                data: Whitelist { authority: self.authority.key, counter: 0 },
            },
            min_balance: self.min_balance,
        }
    }

    /// Creates the whitelist, given the address that was derived for it.
    pub fn process(&mut self, derived: Option<(Pubkey, u8)>) -> (r: Result<(), WhitelistError>)
        ensures
            r == old(self).decide(derived_view(derived)),
            r is Ok ==> *final(self) == old(self).effect(),
            r is Err ==> *final(self) == *old(self),
    {
        if !self.authority.is_signer {
            return Err(WhitelistError::Unauthorized);
        }
        if !derived_matches(&derived, &self.whitelist.key) {
            return Err(WhitelistError::MismatchedDerivation);
        }
        if self.whitelist.is_active() || self.min_balance == 0
            || self.authority.lamports < self.min_balance {
            return Err(WhitelistError::InfrastructureError);
        }
        self.authority.lamports = self.authority.lamports - self.min_balance;
        self.whitelist.lamports = self.min_balance;
        self.whitelist.data = Whitelist { authority: self.authority.key, counter: 0 };
        Ok(())
    }
}

/// Creates the whitelist of the authority that signed: an account at the
/// address derived from the authority, paid for by the authority, that holds
/// the authority and a counter of zero.
///
/// Refused, with the first that applies:
/// - `Unauthorized`: the authority has not signed;
/// - `MismatchedDerivation`: the account is not at the address derived from
///   the authority;
/// - `InfrastructureError`: the account exists already, the balance that is
///   to keep it is zero, or the authority holds less than that balance.
pub fn create_whitelist(ctx: &mut CreateWhitelist) -> (r: Result<(), WhitelistError>)
    ensures
        r == old(ctx).outcome(),
        r is Ok ==> *final(ctx) == old(ctx).effect(),
        r is Err ==> *final(ctx) == *old(ctx),
{
    let derived = find_whitelist_address(&ctx.authority.key);
    ctx.process(derived)
}

/// The accounts of `add_wallet`.
#[derive(Clone, Copy, Debug, PartialEq, Eq)]
pub struct AddWallet {
    /// Who asks for the change and pays for the record's account.
    pub authority: AccountInfo,
    pub whitelist: Account<Whitelist>,
    /// The account that is to hold the wallet's record.
    pub wallet_pda: Account<Wallet>,
    /// The balance that keeps the new account on the ledger.
    pub min_balance: u64,
}

impl AddWallet {
    /// Whether the wallet may be added, where `found` is the address derived
    /// for its record.
    pub open spec fn decide(self, found: Option<(Seq<u8>, u8)>) -> Result<(), WhitelistError> {
        if !self.whitelist.data.is_authority(&self.authority) {
            Err(WhitelistError::Unauthorized)
        } else if !is_derived(found, self.wallet_pda.key) {
            Err(WhitelistError::MismatchedDerivation)
        } else if self.wallet_pda.is_active() {
            Err(WhitelistError::AlreadyWhitelisted)
        } else if self.min_balance == 0 || self.authority.lamports < self.min_balance {
            Err(WhitelistError::InfrastructureError)
        } else if self.whitelist.data.counter == u64::MAX {
            Err(WhitelistError::ArithmeticOverflow)
        } else {
            Ok(())
        }
    }

    /// Whether `wallet_address` may be added.
    pub open spec fn outcome(self, wallet_address: Pubkey) -> Result<(), WhitelistError> {
        self.decide(wallet_pda(self.whitelist.key, wallet_address))
    }

    /// The accounts once the wallet is added: the authority has paid for the
    /// record's account, and the whitelist counts one wallet more.
    pub open spec fn effect(self) -> AddWallet {
        AddWallet {
            authority: AccountInfo {
                lamports: (self.authority.lamports - self.min_balance) as u64,
                ..self.authority
            },
            whitelist: Account {
                data: Whitelist {
                    counter: (self.whitelist.data.counter + 1) as u64,
                    ..self.whitelist.data
                },
                ..self.whitelist
            },
            wallet_pda: Account { lamports: self.min_balance, ..self.wallet_pda },
            min_balance: self.min_balance,
        }
    }

    /// Adds the wallet, given the address that was derived for its record.
    pub fn process(&mut self, derived: Option<(Pubkey, u8)>) -> (r: Result<(), WhitelistError>)
        ensures
            r == old(self).decide(derived_view(derived)),
            r is Ok ==> *final(self) == old(self).effect(),
            r is Err ==> *final(self) == *old(self),
    {
        if !self.whitelist.data.is_authority(&self.authority) {
            return Err(WhitelistError::Unauthorized);
        }
        if !derived_matches(&derived, &self.wallet_pda.key) {
            return Err(WhitelistError::MismatchedDerivation);
        }
        if self.wallet_pda.is_active() {
            return Err(WhitelistError::AlreadyWhitelisted);
        }
        if self.min_balance == 0 || self.authority.lamports < self.min_balance {
            return Err(WhitelistError::InfrastructureError);
        }
        match self.whitelist.data.counter.checked_add(1) {
            Some(counter) => {
                self.authority.lamports = self.authority.lamports - self.min_balance;
                self.wallet_pda.lamports = self.min_balance;
                self.whitelist.data.counter = counter;
                Ok(())
            },
            None => Err(WhitelistError::ArithmeticOverflow),
        }
    }
}

/// Puts `wallet_address` on the whitelist: creates its record at the address
/// derived from the whitelist and the wallet, paid for by the authority, and
/// counts it.
///
/// Refused, with the first that applies:
/// - `Unauthorized`: the caller has not signed, or is not the authority;
/// - `MismatchedDerivation`: the record account is not at the derived address;
/// - `AlreadyWhitelisted`: the record exists;
/// - `InfrastructureError`: the balance that is to keep the record is zero,
///   or the authority holds less than that balance;
/// - `ArithmeticOverflow`: the counter is at its limit.
pub fn add_wallet(ctx: &mut AddWallet, wallet_address: Pubkey) -> (r: Result<(), WhitelistError>)
    ensures
        r == old(ctx).outcome(wallet_address),
        r is Ok ==> *final(ctx) == old(ctx).effect(),
        r is Err ==> *final(ctx) == *old(ctx),
{
    let derived = find_wallet_address(&ctx.whitelist.key, &wallet_address);
    ctx.process(derived)
}

/// The accounts of `check_wallet`.
#[derive(Clone, Copy, Debug, PartialEq, Eq)]
pub struct CheckWallet {
    pub whitelist: Account<Whitelist>,
    /// The account that the caller says holds the wallet's record.
    pub wallet_pda: Account<Wallet>,
}

impl CheckWallet {
    /// Whether the wallet is on the whitelist, where `found` is the address
    /// derived for its record.
    pub open spec fn decide(self, found: Option<(Seq<u8>, u8)>) -> Result<(), WhitelistError> {
        if !is_derived(found, self.wallet_pda.key) {
            Err(WhitelistError::MismatchedDerivation)
        } else if !self.wallet_pda.is_active() {
            Err(WhitelistError::NotWhitelisted)
        } else {
            Ok(())
        }
    }

    /// Whether `wallet_address` is on the whitelist.
    pub open spec fn outcome(self, wallet_address: Pubkey) -> Result<(), WhitelistError> {
        self.decide(wallet_pda(self.whitelist.key, wallet_address))
    }

    /// Checks the wallet, given the address that was derived for its record.
    pub fn process(&self, derived: Option<(Pubkey, u8)>) -> (r: Result<(), WhitelistError>)
        ensures
            r == self.decide(derived_view(derived)),
    {
        if !derived_matches(&derived, &self.wallet_pda.key) {
            return Err(WhitelistError::MismatchedDerivation);
        }
        if !self.wallet_pda.is_active() {
            return Err(WhitelistError::NotWhitelisted);
        }
        Ok(())
    }
}

/// Tells whether `wallet_address` is on the whitelist: `Ok` where the account
/// handed in is at the address derived from the whitelist and the wallet, and
/// exists.
///
/// Refused, with the first that applies:
/// - `MismatchedDerivation`: the account is not at the derived address,
///   whatever it holds;
/// - `NotWhitelisted`: the record does not exist.
pub fn check_wallet(ctx: &CheckWallet, wallet_address: Pubkey) -> (r: Result<(), WhitelistError>)
    ensures
        r == ctx.outcome(wallet_address),
{
    let derived = find_wallet_address(&ctx.whitelist.key, &wallet_address);
    ctx.process(derived)
}

/// Tells whether `wallet_address` is on the whitelist, for a caller who has
/// no account to hand in: derives the address of the wallet's record, and asks
/// `balance_of` what the ledger holds there. Refused with `NotWhitelisted`
/// where nothing is held there, or no address can be derived.
pub fn lookup_wallet<F: FnOnce(Pubkey) -> u64>(
    whitelist: &Account<Whitelist>,
    wallet_address: Pubkey,
    balance_of: F,
) -> (r: Result<(), WhitelistError>)
    requires
        forall|address: Pubkey| balance_of.requires((address,)),
    ensures
        r is Ok || r == Err::<(), WhitelistError>(WhitelistError::NotWhitelisted),
        match wallet_pda(whitelist.key, wallet_address) {
            Some((derived, _)) => exists|address: Pubkey, lamports: u64|
                address@ == derived && balance_of.ensures((address,), lamports) && (r is Ok
                    <==> lamports > 0),
            None => r is Err,
        },
{
    match find_wallet_address(&whitelist.key, &wallet_address) {
        Some((address, bump)) => {
            let lamports = balance_of(address);
            let ctx = CheckWallet {
                whitelist: *whitelist,
                wallet_pda: Account { key: address, lamports, data: Wallet {  } },
            };
            ctx.process(Some((address, bump)))
        },
        None => Err(WhitelistError::NotWhitelisted),
    }
}

/// The accounts of `remove_wallet`.
#[derive(Clone, Copy, Debug, PartialEq, Eq)]
pub struct RemoveWallet {
    /// Who asks for the change and receives the record's balance.
    pub authority: AccountInfo,
    pub whitelist: Account<Whitelist>,
    /// The account that holds the wallet's record.
    pub wallet_pda: Account<Wallet>,
}

impl RemoveWallet {
    /// Whether the wallet may be removed, where `found` is the address
    /// derived for its record.
    pub open spec fn decide(self, found: Option<(Seq<u8>, u8)>) -> Result<(), WhitelistError> {
        if !self.whitelist.data.is_authority(&self.authority) {
            Err(WhitelistError::Unauthorized)
        } else if !is_derived(found, self.wallet_pda.key) {
            Err(WhitelistError::MismatchedDerivation)
        } else if !self.wallet_pda.is_active() {
            Err(WhitelistError::NotWhitelisted)
        } else if self.whitelist.data.counter == 0
            || self.authority.lamports + self.wallet_pda.lamports > u64::MAX {
            Err(WhitelistError::ArithmeticOverflow)
        } else {
            Ok(())
        }
    }

    /// Whether `wallet_address` may be removed.
    pub open spec fn outcome(self, wallet_address: Pubkey) -> Result<(), WhitelistError> {
        self.decide(wallet_pda(self.whitelist.key, wallet_address))
    }

    /// The accounts once the wallet is removed: the record's account is gone,
    /// its balance is the authority's, and the whitelist counts one wallet
    /// less.
    pub open spec fn effect(self) -> RemoveWallet {
        RemoveWallet {
            authority: AccountInfo {
                lamports: (self.authority.lamports + self.wallet_pda.lamports) as u64,
                ..self.authority
            },
            whitelist: Account {
                data: Whitelist {
                    counter: (self.whitelist.data.counter - 1) as u64,
                    ..self.whitelist.data
                },
                ..self.whitelist
            },
            wallet_pda: Account { lamports: 0, ..self.wallet_pda },
        }
    }

    /// Removes the wallet, given the address that was derived for its record.
    pub fn process(&mut self, derived: Option<(Pubkey, u8)>) -> (r: Result<(), WhitelistError>)
        ensures
            r == old(self).decide(derived_view(derived)),
            r is Ok ==> *final(self) == old(self).effect(),
            r is Err ==> *final(self) == *old(self),
    {
        if !self.whitelist.data.is_authority(&self.authority) {
            return Err(WhitelistError::Unauthorized);
        }
        if !derived_matches(&derived, &self.wallet_pda.key) {
            return Err(WhitelistError::MismatchedDerivation);
        }
        if !self.wallet_pda.is_active() {
            return Err(WhitelistError::NotWhitelisted);
        }
        let counter = self.whitelist.data.counter.checked_sub(1);
        let refunded = self.authority.lamports.checked_add(self.wallet_pda.lamports);
        match (counter, refunded) {
            (Some(counter), Some(refunded)) => {
                self.authority.lamports = refunded;
                self.wallet_pda.lamports = 0;
                self.whitelist.data.counter = counter;
                Ok(())
            },
            _ => Err(WhitelistError::ArithmeticOverflow),
        }
    }
}

/// Takes `wallet_address` off the whitelist: closes its record, hands the
/// record's balance to the authority, and counts one wallet less.
///
/// Refused, with the first that applies:
/// - `Unauthorized`: the caller has not signed, or is not the authority;
/// - `MismatchedDerivation`: the record account is not at the derived address;
/// - `NotWhitelisted`: the record does not exist;
/// - `ArithmeticOverflow`: the counter is zero, or the authority's balance
///   would leave the range of `u64`.
pub fn remove_wallet(ctx: &mut RemoveWallet, wallet_address: Pubkey) -> (r: Result<(), WhitelistError>)
    ensures
        r == old(ctx).outcome(wallet_address),
        r is Ok ==> *final(ctx) == old(ctx).effect(),
        r is Err ==> *final(ctx) == *old(ctx),
{
    let derived = find_wallet_address(&ctx.whitelist.key, &wallet_address);
    ctx.process(derived)
}

/// The accounts of `set_authority`.
#[derive(Clone, Copy, Debug, PartialEq, Eq)]
pub struct SetAuthority {
    /// Who asks for the change.
    pub authority: AccountInfo,
    pub whitelist: Account<Whitelist>,
}

impl SetAuthority {
    /// Whether the authority may be replaced.
    pub open spec fn outcome(self) -> Result<(), WhitelistError> {
        if !self.whitelist.data.is_authority(&self.authority) {
            Err(WhitelistError::Unauthorized)
        } else {
            Ok(())
        }
    }

    /// The accounts once `new_authority` is the whitelist's authority.
    pub open spec fn effect(self, new_authority: Pubkey) -> SetAuthority {
        SetAuthority {
            whitelist: Account {
                data: Whitelist { authority: new_authority, ..self.whitelist.data },
                ..self.whitelist
            },
            ..self
        }
    }
}

/// Hands the whitelist over to `new_authority`. The records stay as they are.
///
/// Refused with `Unauthorized` where the caller has not signed, or is not the
/// authority.
pub fn set_authority(ctx: &mut SetAuthority, new_authority: Pubkey) -> (r: Result<(), WhitelistError>)
    ensures
        r == old(ctx).outcome(),
        r is Ok ==> *final(ctx) == old(ctx).effect(new_authority),
        r is Err ==> *final(ctx) == *old(ctx),
{
    if !ctx.whitelist.data.is_authority(&ctx.authority) {
        return Err(WhitelistError::Unauthorized);
    }
    ctx.whitelist.data.authority = new_authority;
    Ok(())
}

} // verus!
