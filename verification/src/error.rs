use vstd::prelude::*;

verus! {

/// Why an instruction was refused. A refused instruction changes nothing.
#[derive(Clone, Copy, Debug, PartialEq, Eq, Structural)]
pub enum WhitelistError {
    /// The caller did not sign, or is not the whitelist's authority.
    Unauthorized,
    /// The wallet's record is already active.
    AlreadyWhitelisted,
    /// The wallet has no active record.
    NotWhitelisted,
    /// The record account handed in is not at the address derived for the
    /// whitelist and the wallet.
    MismatchedDerivation,
    /// The counter, or a balance, would leave the range of `u64`.
    ArithmeticOverflow,
    /// The ledger cannot carry the instruction out: the whitelist to create
    /// exists already, or the payer cannot fund the new account.
    InfrastructureError,
}

} // verus!
