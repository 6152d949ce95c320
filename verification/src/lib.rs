//! A whitelist of wallets that is kept without a list.
//!
//! An authority creates a whitelist, puts wallets on it and takes them off
//! again. A wallet is on the whitelist exactly while an account exists at the
//! address that is derived from the whitelist and the wallet, so anyone can
//! check a wallet by looking at one address. The whitelist counts its wallets.
//!
//! The instructions work on the accounts as plain values: whoever runs them
//! reads the accounts from the ledger, and writes them back where an
//! instruction succeeds. A refused instruction changes nothing.
//!
//! - [`pubkey`]: addresses, and how the address of an account is derived.
//! - [`state`]: the accounts and what they hold.
//! - [`instructions`]: the five instructions, each with its accounts.
//! - [`ledger`]: what the ledger holds of a whitelist between instructions.
//! - [`laws`]: what holds of every run of instructions.

pub mod error;
pub mod instructions;
pub mod laws;
pub mod ledger;
pub mod pubkey;
pub mod state;

pub use crate::error::WhitelistError;
pub use crate::instructions::{
    add_wallet, check_wallet, create_whitelist, lookup_wallet, remove_wallet, set_authority,
    AddWallet, CheckWallet, CreateWhitelist, RemoveWallet, SetAuthority,
};
pub use crate::pubkey::{derive_address, find_wallet_address, find_whitelist_address, id, Pubkey};
pub use crate::state::{Account, AccountInfo, Wallet, Whitelist};
