use vstd::prelude::*;
use crate::error::WhitelistError;
use crate::instructions::{AddWallet, CheckWallet, CreateWhitelist, RemoveWallet, SetAuthority};
use crate::ledger::{Instruction, Ledger};
use crate::pubkey::{derived_address, is_derived, on_curve, wallet_pda, Pubkey};

verus! {

/// A derived address is off the curve: no key pair exists for it, so nobody
/// can present a key of their own as the address of a whitelist or a record.
pub proof fn lemma_derived_address_is_off_curve(seeds: Seq<Pubkey>)
    ensures
        derived_address(seeds) matches Some((address, _)) ==> !on_curve(address),
{
}

/// One account at most is the derived one: two accounts that both pass for
/// the address of the same seeds are the same account.
pub proof fn lemma_derived_address_is_unique(seeds: Seq<Pubkey>, a: Pubkey, b: Pubkey)
    requires
        is_derived(derived_address(seeds), a),
        is_derived(derived_address(seeds), b),
    ensures
        a == b,
{
    Pubkey::lemma_view_injective(a, b);
}

/// Only the whitelist's authority adds a wallet: whoever else asks, or asks
/// without a signature, is told `Unauthorized`, whatever else holds.
pub proof fn lemma_add_wallet_needs_authority(ctx: AddWallet, wallet_address: Pubkey)
    requires
        !ctx.whitelist.data.is_authority(&ctx.authority),
    ensures
        ctx.outcome(wallet_address) == Err::<(), WhitelistError>(WhitelistError::Unauthorized),
{
}

/// Only the whitelist's authority removes a wallet.
pub proof fn lemma_remove_wallet_needs_authority(ctx: RemoveWallet, wallet_address: Pubkey)
    requires
        !ctx.whitelist.data.is_authority(&ctx.authority),
    ensures
        ctx.outcome(wallet_address) == Err::<(), WhitelistError>(WhitelistError::Unauthorized),
{
}

/// Only the whitelist's authority hands the whitelist over.
pub proof fn lemma_set_authority_needs_authority(ctx: SetAuthority)
    requires
        !ctx.whitelist.data.is_authority(&ctx.authority),
    ensures
        ctx.outcome() == Err::<(), WhitelistError>(WhitelistError::Unauthorized),
{
}

/// A check with an account that is not at the derived address answers
/// `MismatchedDerivation`, whether that account exists or not.
pub proof fn lemma_check_wallet_rejects_other_address(ctx: CheckWallet, wallet_address: Pubkey)
    requires
        !is_derived(wallet_pda(ctx.whitelist.key, wallet_address), ctx.wallet_pda.key),
    ensures
        ctx.outcome(wallet_address) == Err::<(), WhitelistError>(
            WhitelistError::MismatchedDerivation,
        ),
{
}

/// A check with the account at the derived address depends on nothing but
/// that account's existence.
pub proof fn lemma_check_wallet_at_derived_address(ctx: CheckWallet, wallet_address: Pubkey)
    requires
        is_derived(wallet_pda(ctx.whitelist.key, wallet_address), ctx.wallet_pda.key),
    ensures
        ctx.outcome(wallet_address) == if ctx.wallet_pda.is_active() {
            Ok::<(), WhitelistError>(())
        } else {
            Err::<(), WhitelistError>(WhitelistError::NotWhitelisted)
        },
{
}

/// A wallet without a record is never removed, and the authority that asks
/// for it with the wallet's own record account is told `NotWhitelisted`.
pub proof fn lemma_remove_wallet_needs_record(ctx: RemoveWallet, wallet_address: Pubkey)
    requires
        !ctx.wallet_pda.is_active(),
    ensures
        ctx.outcome(wallet_address) is Err,
        ctx.whitelist.data.is_authority(&ctx.authority) && is_derived(
            wallet_pda(ctx.whitelist.key, wallet_address),
            ctx.wallet_pda.key,
        ) ==> ctx.outcome(wallet_address) == Err::<(), WhitelistError>(
            WhitelistError::NotWhitelisted,
        ),
{
}

/// No instruction makes or loses lamports: what the authority pays is what
/// the new account holds, and what a closed record held is what the authority
/// receives.
pub proof fn lemma_lamports_are_kept(
    create: CreateWhitelist,
    add: AddWallet,
    remove: RemoveWallet,
    wallet_address: Pubkey,
)
    ensures
        create.outcome() is Ok ==> create.effect().authority.lamports
            + create.effect().whitelist.lamports == create.authority.lamports
            + create.whitelist.lamports,
        add.outcome(wallet_address) is Ok ==> add.effect().authority.lamports
            + add.effect().wallet_pda.lamports == add.authority.lamports + add.wallet_pda.lamports,
        remove.outcome(wallet_address) is Ok ==> remove.effect().authority.lamports
            + remove.effect().wallet_pda.lamports == remove.authority.lamports
            + remove.wallet_pda.lamports,
{
}

/// A whitelist that was just created counts its records: it has none.
pub proof fn lemma_created_whitelist_is_counted(ctx: CreateWhitelist)
    ensures
        Ledger::created(ctx).wf(),
        Ledger::created(ctx).counted(),
        Ledger::created(ctx).whitelist.data.counter == 0,
{
}

/// One instruction keeps the counter equal to the number of records, and
/// leaves the whitelist where it is.
pub proof fn lemma_step_keeps_counted(ledger: Ledger, instruction: Instruction)
    requires
        ledger.wf(),
        ledger.counted(),
    ensures
        ledger.step(instruction).wf(),
        ledger.step(instruction).counted(),
        ledger.step(instruction).whitelist.key == ledger.whitelist.key,
{
}

/// Whatever instructions are sent, and whichever of them succeed, the counter
/// stays the number of records that exist under the whitelist.
pub proof fn lemma_counter_counts_records(ledger: Ledger, instructions: Seq<Instruction>)
    requires
        ledger.wf(),
        ledger.counted(),
    ensures
        ledger.run(instructions).wf(),
        ledger.run(instructions).counted(),
        ledger.run(instructions).whitelist.key == ledger.whitelist.key,
    decreases instructions.len(),
{
    if instructions.len() > 0 {
        lemma_counter_counts_records(ledger, instructions.drop_last());
        lemma_step_keeps_counted(ledger.run(instructions.drop_last()), instructions.last());
    }
}

/// From its creation on, a whitelist counts the records that exist under it,
/// whatever instructions it is sent.
pub proof fn lemma_counter_counts_records_since_creation(
    ctx: CreateWhitelist,
    instructions: Seq<Instruction>,
)
    ensures
        Ledger::created(ctx).run(instructions).counted(),
{
    lemma_created_whitelist_is_counted(ctx);
    lemma_counter_counts_records(Ledger::created(ctx), instructions);
}

/// Handing the whitelist over changes who may change it, and nothing else:
/// the records and the counter stay as they are.
pub proof fn lemma_set_authority_keeps_records(ledger: Ledger, instruction: Instruction)
    requires
        instruction is SetAuthority,
    ensures
        ledger.step(instruction).records == ledger.records,
        ledger.step(instruction).whitelist.data.counter == ledger.whitelist.data.counter,
        ledger.answer(instruction) is Ok ==> ledger.step(instruction).whitelist.data.authority
            == instruction->new_authority,
{
}

/// A record comes into being by the instruction that adds it, and goes by the
/// instruction that removes it. Nothing else changes whether it exists.
pub proof fn lemma_record_changes_by_add_and_remove(
    ledger: Ledger,
    instruction: Instruction,
    wallet_pda: Pubkey,
)
    ensures
        !ledger.record(wallet_pda).is_active() && ledger.step(instruction).record(
            wallet_pda,
        ).is_active() ==> instruction is AddWallet && instruction->AddWallet_wallet_pda
            == wallet_pda && ledger.answer(instruction) is Ok,
        ledger.record(wallet_pda).is_active() && !ledger.step(instruction).record(
            wallet_pda,
        ).is_active() ==> ledger.removes(instruction, wallet_pda),
        instruction is AddWallet && instruction->AddWallet_wallet_pda == wallet_pda
            && ledger.record(wallet_pda).is_active() ==> ledger.answer(instruction) is Err,
        instruction is RemoveWallet && instruction->RemoveWallet_wallet_pda == wallet_pda
            && !ledger.record(wallet_pda).is_active() ==> ledger.answer(instruction) is Err,
{
}

/// Removing a wallet that has no record is refused, and leaves the counter
/// and everything else as it was.
pub proof fn lemma_remove_of_absent_wallet_changes_nothing(ledger: Ledger, remove: Instruction)
    requires
        remove is RemoveWallet,
        !ledger.record(remove->RemoveWallet_wallet_pda).is_active(),
    ensures
        ledger.answer(remove) is Err,
        ledger.step(remove) == ledger,
{
}

/// Adding a wallet twice in a row: the second instruction is refused with
/// `AlreadyWhitelisted`, and the counter has gone up by one.
pub proof fn lemma_second_add_is_refused(ledger: Ledger, add: Instruction, again: Instruction)
    requires
        add is AddWallet,
        again is AddWallet,
        ledger.answer(add) is Ok,
        again->AddWallet_wallet_address == add->AddWallet_wallet_address,
        again->AddWallet_wallet_pda == add->AddWallet_wallet_pda,
        again->AddWallet_authority.key == add->AddWallet_authority.key,
        again->AddWallet_authority.is_signer,
    ensures
        ledger.step(add).answer(again) == Err::<(), WhitelistError>(
            WhitelistError::AlreadyWhitelisted,
        ),
        ledger.step(add).step(again).whitelist.data.counter == ledger.whitelist.data.counter + 1,
{
}

/// A wallet that is on the whitelist stays on it under every instruction but
/// its own removal.
pub proof fn lemma_step_keeps_whitelisted(
    ledger: Ledger,
    instruction: Instruction,
    wallet_address: Pubkey,
    wallet_pda: Pubkey,
)
    requires
        ledger.answer(Instruction::CheckWallet { wallet_address, wallet_pda }) is Ok,
        !ledger.removes(instruction, wallet_pda),
    ensures
        ledger.step(instruction).answer(Instruction::CheckWallet { wallet_address, wallet_pda })
            is Ok,
{
}

/// A wallet that is on the whitelist is still on it after a run of
/// instructions none of which removed it.
pub proof fn lemma_run_keeps_whitelisted(
    ledger: Ledger,
    instructions: Seq<Instruction>,
    wallet_address: Pubkey,
    wallet_pda: Pubkey,
)
    requires
        ledger.answer(Instruction::CheckWallet { wallet_address, wallet_pda }) is Ok,
        forall|i: int|
            0 <= i < instructions.len() ==> !(#[trigger] ledger.run(instructions.take(i))).removes(
                instructions[i],
                wallet_pda,
            ),
    ensures
        ledger.run(instructions).answer(Instruction::CheckWallet { wallet_address, wallet_pda })
            is Ok,
    decreases instructions.len(),
{
    if instructions.len() > 0 {
        let before = instructions.drop_last();
        assert forall|i: int| 0 <= i < before.len() implies !(#[trigger] ledger.run(
            before.take(i),
        )).removes(before[i], wallet_pda) by {
            assert(before.take(i) =~= instructions.take(i));
        }
        lemma_run_keeps_whitelisted(ledger, before, wallet_address, wallet_pda);
        assert(instructions.take(instructions.len() - 1) =~= before);
        lemma_step_keeps_whitelisted(
            ledger.run(before),
            instructions.last(),
            wallet_address,
            wallet_pda,
        );
    }
}

/// Once a wallet is added, a check of it answers `Ok` until an instruction
/// removes it, and `NotWhitelisted` once one has.
pub proof fn lemma_whitelisted_from_add_to_remove(
    ledger: Ledger,
    add: Instruction,
    instructions: Seq<Instruction>,
    remove: Instruction,
)
    requires
        add is AddWallet,
        ledger.answer(add) is Ok,
        forall|i: int|
            0 <= i < instructions.len() ==> !(#[trigger] ledger.step(add).run(
                instructions.take(i),
            )).removes(instructions[i], add->AddWallet_wallet_pda),
        remove is RemoveWallet,
        remove->RemoveWallet_wallet_address == add->AddWallet_wallet_address,
        remove->RemoveWallet_wallet_pda == add->AddWallet_wallet_pda,
        ledger.step(add).run(instructions).answer(remove) is Ok,
    ensures
        ({
            let check = Instruction::CheckWallet {
                wallet_address: add->AddWallet_wallet_address,
                wallet_pda: add->AddWallet_wallet_pda,
            };
            let added = ledger.step(add);
            &&& added.answer(check) is Ok
            &&& added.run(instructions).answer(check) is Ok
            &&& added.run(instructions).step(remove).answer(check) == Err::<(), WhitelistError>(
                WhitelistError::NotWhitelisted,
            )
        }),
{
    lemma_run_keeps_whitelisted(
        ledger.step(add),
        instructions,
        add->AddWallet_wallet_address,
        add->AddWallet_wallet_pda,
    );
}

} // verus!
