//! The relay: from a request to post a message to the plan that pays the
//! hub's fee and hands the message over.

use crate::address::{confirms, emitter_seeds_spec, find_emitter_authority, signer_seeds_spec};
use crate::address::{found_program_address, null_address_spec, program_address, signer_seeds};
use crate::bytes::{le_bytes, le_value, lemma_le_bytes_reverse};
use crate::error::ZkError;
use crate::fee::{fee_reading, read_bridge_fee, ConfigAccount};
use anchor_lang::solana_program::pubkey::Pubkey;
use anchor_lang::solana_program::system_instruction;
use vstd::prelude::*;

verus! {

/// How settled the ledger must be before the hub's guardians attest a
/// message.
#[derive(Clone, Copy, Debug, PartialEq, Eq)]
pub enum Finality {
    Confirmed,
    Finalized,
}

/// The finality level that a flag selects: 0 selects `Confirmed`, 1 selects
/// `Finalized`, and no other flag selects any.
pub open spec fn finality_of(flag: u8) -> Option<Finality> {
    if flag == 0 {
        Some(Finality::Confirmed)
    } else if flag == 1 {
        Some(Finality::Finalized)
    } else {
        None
    }
}

/// The finality level that a flag selects.
pub fn finality_from_flag(flag: u8) -> (finality: Option<Finality>)
    ensures
        finality == finality_of(flag),
{
    if flag == 0 {
        Some(Finality::Confirmed)
    } else if flag == 1 {
        Some(Finality::Finalized)
    } else {
        None
    }
}

/// An account as an instruction names it.
#[derive(Clone, Copy, Debug, PartialEq, Eq)]
pub struct AccountMeta {
    pub pubkey: [u8; 32],
    pub is_signer: bool,
    pub is_writable: bool,
}

/// An instruction for another program: the program, the accounts it may
/// touch, and its data.
#[derive(Clone, Debug, PartialEq, Eq)]
pub struct CpiInstruction {
    pub program_id: [u8; 32],
    pub accounts: Vec<AccountMeta>,
    pub data: Vec<u8>,
}

/// Whether `ix` is the native transfer of exactly `lamports` from `from` to
/// `to`: an instruction of the system program, whose address is the zero
/// address, on the funding account (signer, writable) and the recipient
/// (writable), with the transfer's tag and the amount as data.
pub open spec fn is_system_transfer(
    ix: CpiInstruction,
    from: Seq<u8>,
    to: Seq<u8>,
    lamports: u64,
) -> bool {
    &&& ix.program_id == null_address_spec()
    &&& ix.accounts@.len() == 2
    &&& ix.accounts@[0].pubkey@ == from
    &&& ix.accounts@[0].is_signer
    &&& ix.accounts@[0].is_writable
    &&& ix.accounts@[1].pubkey@ == to
    &&& !ix.accounts@[1].is_signer
    &&& ix.accounts@[1].is_writable
    &&& ix.data@ == seq![2u8, 0u8, 0u8, 0u8] + le_bytes(lamports)
}

/// Calls `system_instruction::transfer`. Trusted: that the instruction
/// returned is the system program's transfer of `lamports` from `from` to
/// `to`, as `is_system_transfer` spells it out.
#[verifier::external_body]
fn system_transfer(from: &[u8; 32], to: &[u8; 32], lamports: u64) -> (ix: CpiInstruction)
    ensures
        is_system_transfer(ix, from@, to@, lamports),
{
    let sender = Pubkey::new_from_array(*from);
    let ix = system_instruction::transfer(&sender, &Pubkey::new_from_array(*to), lamports);
    let named = |meta: &anchor_lang::solana_program::instruction::AccountMeta| AccountMeta {
        pubkey: meta.pubkey.to_bytes(),
        is_signer: meta.is_signer,
        is_writable: meta.is_writable,
    };
    let accounts = ix.accounts.iter().map(named).collect();
    CpiInstruction { program_id: ix.program_id.to_bytes(), accounts, data: ix.data }
}

/// Whether `payment` moves exactly `fee` from `payer` to `fee_collector`:
/// no instruction at all where the fee is zero, the native transfer of the
/// fee otherwise.
pub open spec fn pays_exactly(
    payment: Option<CpiInstruction>,
    payer: Seq<u8>,
    fee_collector: Seq<u8>,
    fee: u64,
) -> bool {
    match payment {
        None => fee == 0,
        Some(ix) => fee > 0 && is_system_transfer(ix, payer, fee_collector, fee),
    }
}

/// The payment of the hub's fee. A fee of zero is paid by doing nothing: no
/// transfer of nothing is ever attempted.
pub fn fee_payment(payer: &[u8; 32], fee_collector: &[u8; 32], fee: u64) -> (payment: Option<
    CpiInstruction,
>)
    ensures
        pays_exactly(payment, payer@, fee_collector@, fee),
{
    if fee > 0 {
        Some(system_transfer(payer, fee_collector, fee))
    } else {
        None
    }
}

/// The accounts of a request to post a message, as plain values. The
/// emitter and its bump are taken as they come: that the one is derived with
/// the other is for the caller to have settled, with `emitter_is_derived` or
/// otherwise, before the request is planned.
#[derive(Clone, Debug, PartialEq, Eq)]
pub struct PostWormholeMessage {
    /// The hub's fee account.
    pub config: ConfigAccount,
    /// The account that will store the message. It signs for itself.
    pub message: [u8; 32],
    /// The program's signing identity.
    pub emitter: [u8; 32],
    /// The hub's sequence tracker for this emitter.
    pub sequence: [u8; 32],
    /// Who pays the fee.
    pub payer: [u8; 32],
    /// Where the hub collects its fees.
    pub fee_collector: [u8; 32],
    pub clock: [u8; 32],
    pub rent: [u8; 32],
    pub system_program: [u8; 32],
    /// The hub program.
    pub wormhole_program: [u8; 32],
    /// The bump with which `emitter` was derived.
    pub emitter_bump: u8,
}

/// The accounts that the hub's message-posting entry point takes.
#[derive(Clone, Copy, Debug, PartialEq, Eq)]
pub struct PostMessageAccounts {
    pub config: [u8; 32],
    pub message: [u8; 32],
    pub emitter: [u8; 32],
    pub sequence: [u8; 32],
    pub payer: [u8; 32],
    pub fee_collector: [u8; 32],
    pub clock: [u8; 32],
    pub rent: [u8; 32],
    pub system_program: [u8; 32],
}

/// A call of the hub's message-posting entry point.
#[derive(Clone, Debug, PartialEq, Eq)]
pub struct PostMessageCall {
    /// The hub program.
    pub program: [u8; 32],
    pub accounts: PostMessageAccounts,
    /// The seeds with which the program signs for the emitter.
    pub signer_seeds: Vec<Vec<u8>>,
    pub batch_id: u32,
    pub payload: Vec<u8>,
    pub finality: Finality,
}

/// What a relay does, in this order: it pays `payment`, if there is one, and
/// then makes the call `message`.
pub struct RelaySteps {
    /// The fee that the hub charged when the plan was made.
    pub fee: u64,
    pub payment: Option<CpiInstruction>,
    pub message: PostMessageCall,
}

/// The plan of a relay. It shows the payment, and gives the call to the hub
/// out only through `release`, once the payment is over.
#[derive(Debug)]
pub struct RelayPlan {
    fee: u64,
    payment: Option<CpiInstruction>,
    message: PostMessageCall,
}

impl View for RelayPlan {
    type V = RelaySteps;

    closed spec fn view(&self) -> RelaySteps {
        RelaySteps { fee: self.fee, payment: self.payment, message: self.message }
    }
}

impl PostWormholeMessage {
    /// The accounts that the request hands to the hub.
    pub open spec fn hub_accounts(self) -> PostMessageAccounts {
        PostMessageAccounts {
            config: self.config.key,
            message: self.message,
            emitter: self.emitter,
            sequence: self.sequence,
            payer: self.payer,
            fee_collector: self.fee_collector,
            clock: self.clock,
            rent: self.rent,
            system_program: self.system_program,
        }
    }

    /// Whether the emitter and its bump are what a search for the signing
    /// authority of `program_id` finds.
    pub fn emitter_is_derived(&self, program_id: &[u8; 32]) -> (yes: bool)
        ensures
            yes == (found_program_address(emitter_seeds_spec(), program_id@) == Some(
                (self.emitter@, self.emitter_bump),
            )),
            yes ==> program_address(signer_seeds_spec(self.emitter_bump), program_id@) == Some(
                self.emitter@,
            ),
    {
        let found = find_emitter_authority(program_id);
        confirms(&found, &self.emitter, self.emitter_bump)
    }
}

/// What a request comes to before anything is paid: the finality level and
/// the fee, or the reason for refusing it. The flag is judged first, then
/// the fee account's owner, then its bytes.
pub open spec fn relay_decision(ctx: PostWormholeMessage, finality_flag: u8) -> Result<
    (Finality, u64),
    ZkError,
> {
    match finality_of(finality_flag) {
        None => Err(ZkError::UnsupportedFinality),
        Some(finality) => match fee_reading(
            ctx.config.owner@,
            ctx.wormhole_program@,
            ctx.config.data@,
        ) {
            Err(refusal) => Err(refusal),
            Ok(fee) => Ok((finality, fee)),
        },
    }
}

/// Whether `plan` is the plan of the request: it pays exactly `fee` from the
/// payer to the fee collector, and hands the hub the request's accounts, the
/// emitter's signer seeds, the batch identifier, the payload as it came, and
/// the finality level.
pub open spec fn carries_out(
    plan: RelaySteps,
    ctx: PostWormholeMessage,
    batch_id: u32,
    payload: Seq<u8>,
    finality: Finality,
    fee: u64,
) -> bool {
    &&& plan.fee == fee
    &&& pays_exactly(plan.payment, ctx.payer@, ctx.fee_collector@, fee)
    &&& plan.message.program == ctx.wormhole_program
    &&& plan.message.accounts == ctx.hub_accounts()
    &&& plan.message.signer_seeds.deep_view() == signer_seeds_spec(ctx.emitter_bump)
    &&& plan.message.batch_id == batch_id
    &&& plan.message.payload@ == payload
    &&& plan.message.finality == finality
}

/// Plans the posting of `payload` to the hub. The request is refused, and
/// nothing is planned or paid, where the finality flag selects no level,
/// where the fee account is not the hub's, or where it holds no fee record.
/// Otherwise the plan pays the fee that the account shows and then posts.
pub fn post_wormhole_message(
    ctx: &PostWormholeMessage,
    batch_id: u32,
    payload: Vec<u8>,
    finality_flag: u8,
) -> (outcome: Result<RelayPlan, ZkError>)
    ensures
        match relay_decision(*ctx, finality_flag) {
            Ok((finality, fee)) => outcome matches Ok(plan) && carries_out(
                plan@,
                *ctx,
                batch_id,
                payload@,
                finality,
                fee,
            ),
            Err(refusal) => outcome matches Err(given) && given == refusal,
        },
{
    let finality = match finality_from_flag(finality_flag) {
        Some(finality) => finality,
        None => {
            return Err(ZkError::UnsupportedFinality);
        },
    };
    let fee = match read_bridge_fee(&ctx.config, &ctx.wormhole_program) {
        Ok(fee) => fee,
        Err(refusal) => {
            return Err(refusal);
        },
    };
    let payment = fee_payment(&ctx.payer, &ctx.fee_collector, fee);
    let message = PostMessageCall {
        program: ctx.wormhole_program,
        accounts: PostMessageAccounts {
            config: ctx.config.key,
            message: ctx.message,
            emitter: ctx.emitter,
            sequence: ctx.sequence,
            payer: ctx.payer,
            fee_collector: ctx.fee_collector,
            clock: ctx.clock,
            rent: ctx.rent,
            system_program: ctx.system_program,
        },
        signer_seeds: signer_seeds(ctx.emitter_bump),
        batch_id,
        payload,
        finality,
    };
    Ok(RelayPlan { fee, payment, message })
}

impl RelayPlan {
    /// The fee that the hub charged when the plan was made.
    pub fn fee(&self) -> (fee: u64)
        ensures
            fee == self@.fee,
    {
        self.fee
    }

    /// The payment to make first, if any is due.
    pub fn payment(&self) -> (payment: Option<&CpiInstruction>)
        ensures
            payment matches Some(ix) ==> self@.payment == Some(*ix),
            payment is None ==> self@.payment is None,
    {
        self.payment.as_ref()
    }

    /// Releases the call to the hub once the payment is over. `settled` says
    /// whether the ledger carried the payment out; it is not looked at where
    /// the plan holds no payment. A payment that was refused ends the relay:
    /// the hub is not called.
    pub fn release(self, settled: bool) -> (next: Result<PostMessageCall, ZkError>)
        ensures
            self@.payment is None || settled ==> next == Ok::<PostMessageCall, ZkError>(
                self@.message,
            ),
            self@.payment is Some && !settled ==> next == Err::<PostMessageCall, ZkError>(
                ZkError::PaymentFailed,
            ),
    {
        if self.payment.is_some() && !settled {
            Err(ZkError::PaymentFailed)
        } else {
            Ok(self.message)
        }
    }
}

/// A request whose finality flag selects no level is refused for that, and
/// before the fee account is looked at: whatever the account holds, nothing
/// is planned and nothing is paid.
pub proof fn law_unsupported_finality_pays_nothing(ctx: PostWormholeMessage, finality_flag: u8)
    requires
        finality_flag != 0,
        finality_flag != 1,
    ensures
        relay_decision(ctx, finality_flag) == Err::<(Finality, u64), ZkError>(
            ZkError::UnsupportedFinality,
        ),
{
}

/// The plan of a request signs for the request's emitter: where the emitter
/// is the address that its bump derives for the program, the signer seeds
/// that the plan hands to the hub derive the emitter that it names.
pub proof fn law_plan_signs_for_its_emitter(
    plan: RelaySteps,
    ctx: PostWormholeMessage,
    batch_id: u32,
    payload: Seq<u8>,
    finality: Finality,
    fee: u64,
    program_id: Seq<u8>,
)
    requires
        carries_out(plan, ctx, batch_id, payload, finality, fee),
    ensures
        program_address(signer_seeds_spec(ctx.emitter_bump), program_id) == Some(ctx.emitter@)
            ==> program_address(plan.message.signer_seeds.deep_view(), program_id) == Some(
            plan.message.accounts.emitter@,
        ),
{
}

/// The plan of a request pays exactly the fee: nothing at all where the fee
/// is zero, and otherwise one transfer, from the payer to the fee collector,
/// whose amount reads as the fee.
pub proof fn law_plan_pays_exactly_the_fee(
    plan: RelaySteps,
    ctx: PostWormholeMessage,
    batch_id: u32,
    payload: Seq<u8>,
    finality: Finality,
    fee: u64,
)
    requires
        carries_out(plan, ctx, batch_id, payload, finality, fee),
    ensures
        fee == 0 <==> plan.payment is None,
        plan.payment matches Some(ix) ==> {
            &&& ix.accounts@.len() == 2
            &&& ix.accounts@[0].pubkey == ctx.payer
            &&& ix.accounts@[1].pubkey == ctx.fee_collector
            &&& ix.data@.len() == 12
            &&& le_value(ix.data@.subrange(4, 12)) == fee
        },
{
    if let Some(ix) = plan.payment {
        lemma_le_bytes_reverse(fee);
        assert(ix.data@.subrange(4, 12) =~= le_bytes(fee));
        assert(ix.accounts@[0].pubkey =~= ctx.payer);
        assert(ix.accounts@[1].pubkey =~= ctx.fee_collector);
    }
}

} // verus!
