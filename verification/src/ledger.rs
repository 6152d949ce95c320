use vstd::prelude::*;
use crate::instructions::{AddWallet, CheckWallet, CreateWhitelist, RemoveWallet, SetAuthority};
use crate::error::WhitelistError;
use crate::pubkey::Pubkey;
use crate::state::{Account, AccountInfo, Wallet, Whitelist};

verus! {

/// What the ledger holds of one whitelist from one instruction to the next:
/// the whitelist's account, and the record accounts under it.
///
/// The ledger keeps what an instruction has left and hands it unchanged to
/// the next one. It reclaims an account without lamports, so `records` holds
/// the record accounts that exist, each with its balance.
pub struct Ledger {
    pub whitelist: Account<Whitelist>,
    pub records: Map<Pubkey, u64>,
}

/// An instruction that is sent to the whitelist. The signer's account is no
/// account of the whitelist: it comes with the instruction.
pub enum Instruction {
    AddWallet { authority: AccountInfo, wallet_address: Pubkey, wallet_pda: Pubkey, min_balance: u64 },
    CheckWallet { wallet_address: Pubkey, wallet_pda: Pubkey },
    RemoveWallet { authority: AccountInfo, wallet_address: Pubkey, wallet_pda: Pubkey },
    SetAuthority { authority: AccountInfo, new_authority: Pubkey },
}

impl Ledger {
    /// Every record is a finite map's entry and holds lamports.
    pub open spec fn wf(self) -> bool {
        &&& self.records.dom().finite()
        &&& forall|key: Pubkey| self.records.dom().contains(key) ==> #[trigger] self.records[key] > 0
    }

    /// The counter is the number of records.
    pub open spec fn counted(self) -> bool {
        self.whitelist.data.counter == self.records.dom().len()
    }

    /// The ledger that `create_whitelist` leaves: the new whitelist, and no
    /// record.
    pub open spec fn created(ctx: CreateWhitelist) -> Ledger {
        Ledger { whitelist: ctx.effect().whitelist, records: Map::empty() }
    }

    /// The account that the ledger hands out for the address `key`.
    pub open spec fn record(self, key: Pubkey) -> Account<Wallet> {
        Account {
            key,
            lamports: if self.records.dom().contains(key) { self.records[key] } else { 0 },
            data: Wallet {},
        }
    }

    /// The ledger once it has taken back the whitelist's account and one
    /// record account.
    pub open spec fn commit(self, whitelist: Account<Whitelist>, record: Account<Wallet>) -> Ledger {
        Ledger {
            whitelist,
            records: if record.lamports > 0 {
                self.records.insert(record.key, record.lamports)
            } else {
                self.records.remove(record.key)
            },
        }
    }

    /// The accounts that `check_wallet` is given for the record at `wallet_pda`.
    pub open spec fn check_accounts(self, wallet_pda: Pubkey) -> CheckWallet {
        CheckWallet { whitelist: self.whitelist, wallet_pda: self.record(wallet_pda) }
    }

    /// What the instruction answers.
    pub open spec fn answer(self, instruction: Instruction) -> Result<(), WhitelistError> {
        match instruction {
            Instruction::AddWallet { authority, wallet_address, wallet_pda, min_balance } => AddWallet {
                authority,
                whitelist: self.whitelist,
                wallet_pda: self.record(wallet_pda),
                min_balance,
            }.outcome(wallet_address),
            Instruction::CheckWallet { wallet_address, wallet_pda } => self.check_accounts(
                wallet_pda,
            ).outcome(wallet_address),
            Instruction::RemoveWallet { authority, wallet_address, wallet_pda } => RemoveWallet {
                authority,
                whitelist: self.whitelist,
                wallet_pda: self.record(wallet_pda),
            }.outcome(wallet_address),
            Instruction::SetAuthority { authority, new_authority } => SetAuthority {
                authority,
                whitelist: self.whitelist,
            }.outcome(),
        }
    }

    /// Whether the instruction takes the record at `wallet_pda` away.
    pub open spec fn removes(self, instruction: Instruction, wallet_pda: Pubkey) -> bool {
        &&& instruction matches Instruction::RemoveWallet { wallet_pda: removed, .. }
        &&& removed == wallet_pda
        &&& self.answer(instruction) is Ok
    }

    /// The ledger after the instruction: what the instruction leaves where
    /// it succeeds, and the ledger as it was where it fails.
    pub open spec fn step(self, instruction: Instruction) -> Ledger {
        if self.answer(instruction) is Err {
            self
        } else {
            match instruction {
                Instruction::AddWallet { authority, wallet_address, wallet_pda, min_balance } => {
                    let after = AddWallet {
                        authority,
                        whitelist: self.whitelist,
                        wallet_pda: self.record(wallet_pda),
                        min_balance,
                    }.effect();
                    self.commit(after.whitelist, after.wallet_pda)
                },
                Instruction::CheckWallet { wallet_address, wallet_pda } => self,
                Instruction::RemoveWallet { authority, wallet_address, wallet_pda } => {
                    let after = RemoveWallet {
                        authority,
                        whitelist: self.whitelist,
                        wallet_pda: self.record(wallet_pda),
                    }.effect();
                    self.commit(after.whitelist, after.wallet_pda)
                },
                Instruction::SetAuthority { authority, new_authority } => {
                    let after = SetAuthority { authority, whitelist: self.whitelist }.effect(
                        new_authority,
                    );
                    Ledger { whitelist: after.whitelist, ..self }
                },
            }
        }
    }

    /// The ledger after the instructions, one after the other.
    pub open spec fn run(self, instructions: Seq<Instruction>) -> Ledger
        decreases instructions.len(),
    {
        if instructions.len() == 0 {
            self
        } else {
            self.run(instructions.drop_last()).step(instructions.last())
        }
    }
}

} // verus!
