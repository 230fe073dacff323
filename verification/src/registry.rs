//! The receipt registry: one configuration, set once, and one receipt for
//! each (emitter, sequence) pair whose confirmation was accepted.

use crate::address::{null_address, null_address_spec, same_address};
use crate::error::ZkError;
use crate::posted_vaa::{proof_emitter, proof_names, PostedVaaAccount};
use vstd::prelude::*;

verus! {

/// The registry's configuration. It is set once and never changed.
#[derive(Clone, Copy, Debug, PartialEq, Eq)]
pub struct ReceiptConfig {
    /// Who may record receipts on their own word.
    pub admin: [u8; 32],
    /// The chain whose confirmations are accepted.
    pub evm_chain: u16,
    /// The only emitter whose proofs are accepted.
    pub emitter: [u8; 32],
    /// The bump of the configuration's own address.
    pub bump: u8,
}

impl ReceiptConfig {
    /// The bytes that the fields take when stored.
    pub const SIZE: usize = 32 + 2 + 32 + 1;
}

/// The record that a confirmation was accepted. It is never changed or
/// removed.
#[derive(Clone, Copy, Debug, PartialEq, Eq)]
pub struct Receipt {
    pub emitter: [u8; 32],
    pub sequence: u64,
    /// The proof account that justified the receipt, or the null address
    /// where the administrator vouched for it.
    pub vaa_account: [u8; 32],
    /// When the receipt was accepted.
    pub posted_timestamp: i64,
    /// The bump of the receipt's own address.
    pub bump: u8,
}

impl Receipt {
    /// The bytes that the fields take when stored.
    pub const SIZE: usize = 32 + 8 + 32 + 8 + 1;
}

/// The event that tells observers of a new receipt.
#[derive(Clone, Copy, Debug, PartialEq, Eq)]
pub struct ReceiptRecorded {
    pub emitter: [u8; 32],
    pub sequence: u64,
    pub vaa: [u8; 32],
}

/// The accounts of a request to set the configuration.
#[derive(Clone, Copy, Debug, PartialEq, Eq)]
pub struct InitReceiptConfig {
    /// The caller, who becomes the administrator.
    pub admin: [u8; 32],
    /// The bump with which the configuration's address was derived.
    pub cfg_bump: u8,
}

/// The accounts of a request to record a receipt on the strength of a proof.
#[derive(Clone, Debug, PartialEq, Eq)]
pub struct RecordReceiptFromVaa {
    pub posted_vaa: PostedVaaAccount,
    /// The hub program.
    pub wormhole_program: [u8; 32],
    /// Who pays for the receipt's storage.
    pub payer: [u8; 32],
    /// The bump with which the receipt's address was derived.
    pub receipt_bump: u8,
}

/// The accounts of a request to record a receipt on the administrator's
/// word.
#[derive(Clone, Copy, Debug, PartialEq, Eq)]
pub struct RecordReceiptDirect {
    /// The caller.
    pub admin: [u8; 32],
    /// The bump with which the receipt's address was derived.
    pub receipt_bump: u8,
}

/// The pair that identifies a receipt.
pub open spec fn key_of(receipt: Receipt) -> (Seq<u8>, u64) {
    (receipt.emitter@, receipt.sequence)
}

/// The receipt that a proof-backed request records.
pub open spec fn proof_backed_receipt(
    ctx: RecordReceiptFromVaa,
    emitter: [u8; 32],
    sequence: u64,
    now: i64,
) -> Receipt {
    Receipt {
        emitter,
        sequence,
        vaa_account: ctx.posted_vaa.key,
        posted_timestamp: now,
        bump: ctx.receipt_bump,
    }
}

/// The receipt that an administrator's request records: it names no proof.
pub open spec fn asserted_receipt(
    ctx: RecordReceiptDirect,
    emitter: [u8; 32],
    sequence: u64,
    now: i64,
) -> Receipt {
    Receipt {
        emitter,
        sequence,
        vaa_account: null_address_spec(),
        posted_timestamp: now,
        bump: ctx.receipt_bump,
    }
}

/// The event that goes with a receipt.
pub open spec fn event_of(receipt: Receipt) -> ReceiptRecorded {
    ReceiptRecorded {
        emitter: receipt.emitter,
        sequence: receipt.sequence,
        vaa: receipt.vaa_account,
    }
}

/// What a registry holds: the configuration, if it has been set, and the
/// receipts by their pairs.
pub struct RegistryState {
    pub config: Option<ReceiptConfig>,
    pub receipts: Map<(Seq<u8>, u64), Receipt>,
}

impl RegistryState {
    /// The registry before anything has happened.
    pub open spec fn empty() -> RegistryState {
        RegistryState { config: None, receipts: Map::empty() }
    }

    /// Each receipt is filed under its own pair, and there are finitely many.
    pub open spec fn consistent(self) -> bool {
        &&& self.receipts.dom().finite()
        &&& forall|key: (Seq<u8>, u64)| #[trigger]
            self.receipts.contains_key(key) ==> key_of(self.receipts[key]) == key
    }

    /// Whether a receipt for the pair has been recorded.
    pub open spec fn has(self, emitter: Seq<u8>, sequence: u64) -> bool {
        self.receipts.contains_key((emitter, sequence))
    }

    /// The registry with one more receipt.
    pub open spec fn with_receipt(self, receipt: Receipt) -> RegistryState {
        RegistryState {
            config: self.config,
            receipts: self.receipts.insert(key_of(receipt), receipt),
        }
    }

    /// Why the configuration cannot be set, if it cannot: it has been set.
    pub open spec fn init_refusal(self) -> Option<ZkError> {
        if self.config is Some {
            Some(ZkError::ConfigAlreadyInitialized)
        } else {
            None
        }
    }

    /// The registry after a request to set the configuration.
    pub open spec fn after_init(
        self,
        ctx: InitReceiptConfig,
        evm_chain: u16,
        emitter: [u8; 32],
    ) -> RegistryState {
        if self.init_refusal() is Some {
            self
        } else {
            RegistryState {
                config: Some(
                    ReceiptConfig { admin: ctx.admin, evm_chain, emitter, bump: ctx.cfg_bump },
                ),
                receipts: self.receipts,
            }
        }
    }

    /// Why a proof-backed request is refused, if it is. In this order: the
    /// configuration has not been set; the proof account is not the hub's;
    /// the emitter that the proof names, or the emitter of the request, is
    /// not the expected one; the pair has a receipt already. A hub's account
    /// that holds no posted proof names no emitter, and so not the expected
    /// one. The sequence number is the request's: what the proof holds
    /// besides the emitter is not looked at.
    pub open spec fn proof_backed_refusal(
        self,
        ctx: RecordReceiptFromVaa,
        emitter: [u8; 32],
        sequence: u64,
    ) -> Option<ZkError> {
        match self.config {
            None => Some(ZkError::ConfigNotInitialized),
            Some(config) => if ctx.posted_vaa.owner@ != ctx.wormhole_program@ {
                Some(ZkError::InvalidPostedVaaOwner)
            } else if proof_emitter(ctx.posted_vaa.data@) != Some(config.emitter@) || emitter@
                != config.emitter@ {
                Some(ZkError::EmitterAddressMismatch)
            } else if self.has(emitter@, sequence) {
                Some(ZkError::ReceiptAlreadyRecorded)
            } else {
                None
            },
        }
    }

    /// The registry after a proof-backed request.
    pub open spec fn after_proof_backed(
        self,
        ctx: RecordReceiptFromVaa,
        emitter: [u8; 32],
        sequence: u64,
        now: i64,
    ) -> RegistryState {
        if self.proof_backed_refusal(ctx, emitter, sequence) is Some {
            self
        } else {
            self.with_receipt(proof_backed_receipt(ctx, emitter, sequence, now))
        }
    }

    /// Why an administrator's request is refused, if it is. In this order:
    /// the configuration has not been set; the caller is not the
    /// administrator; the pair has a receipt already. The emitter is not
    /// held against the expected one.
    pub open spec fn asserted_refusal(
        self,
        ctx: RecordReceiptDirect,
        emitter: [u8; 32],
        sequence: u64,
    ) -> Option<ZkError> {
        match self.config {
            None => Some(ZkError::ConfigNotInitialized),
            Some(config) => if config.admin@ != ctx.admin@ {
                Some(ZkError::NotAdmin)
            } else if self.has(emitter@, sequence) {
                Some(ZkError::ReceiptAlreadyRecorded)
            } else {
                None
            },
        }
    }

    /// The registry after an administrator's request.
    pub open spec fn after_asserted(
        self,
        ctx: RecordReceiptDirect,
        emitter: [u8; 32],
        sequence: u64,
        now: i64,
    ) -> RegistryState {
        if self.asserted_refusal(ctx, emitter, sequence) is Some {
            self
        } else {
            self.with_receipt(asserted_receipt(ctx, emitter, sequence, now))
        }
    }
}

/// The receipts of a list by their pairs. Where a pair occurs twice, the
/// later receipt is the one filed.
spec fn filed(receipts: Seq<Receipt>) -> Map<(Seq<u8>, u64), Receipt>
    decreases receipts.len(),
{
    if receipts.len() == 0 {
        Map::empty()
    } else {
        filed(receipts.drop_last()).insert(key_of(receipts.last()), receipts.last())
    }
}

/// No pair occurs twice in the list.
spec fn distinct_pairs(receipts: Seq<Receipt>) -> bool {
    forall|i: int, j: int|
        0 <= i < j < receipts.len() ==> key_of(#[trigger] receipts[i]) != key_of(
            #[trigger] receipts[j],
        )
}

/// A pair is filed exactly where the list holds a receipt for it, and what
/// is filed under a pair is a receipt for that pair.
proof fn lemma_filed_pairs(receipts: Seq<Receipt>, key: (Seq<u8>, u64))
    ensures
        filed(receipts).dom().finite(),
        filed(receipts).contains_key(key) <==> exists|i: int|
            0 <= i < receipts.len() && key_of(#[trigger] receipts[i]) == key,
        filed(receipts).contains_key(key) ==> key_of(filed(receipts)[key]) == key,
    decreases receipts.len(),
{
    if receipts.len() > 0 {
        let rest = receipts.drop_last();
        lemma_filed_pairs(rest, key);
        if key_of(receipts.last()) == key {
            assert(key_of(receipts[receipts.len() - 1]) == key);
        } else if filed(rest).contains_key(key) {
            let i = choose|i: int| 0 <= i < rest.len() && key_of(#[trigger] rest[i]) == key;
            assert(key_of(receipts[i]) == key);
        } else {
            assert forall|i: int| 0 <= i < receipts.len() implies key_of(
                #[trigger] receipts[i],
            ) != key by {
                if i < rest.len() {
                    assert(rest[i] == receipts[i]);
                }
            }
        }
    }
}

/// A list without repeated pairs stays one when its last receipt is taken
/// away.
proof fn lemma_distinct_without_last(receipts: Seq<Receipt>)
    requires
        distinct_pairs(receipts),
        receipts.len() > 0,
    ensures
        distinct_pairs(receipts.drop_last()),
{
    let rest = receipts.drop_last();
    assert forall|i: int, j: int| 0 <= i < j < rest.len() implies key_of(#[trigger] rest[i])
        != key_of(#[trigger] rest[j]) by {
        assert(rest[i] == receipts[i] && rest[j] == receipts[j]);
    }
}

/// In a list without repeated pairs, each receipt is the one filed under
/// its pair.
proof fn lemma_filed_at(receipts: Seq<Receipt>, at: int)
    requires
        distinct_pairs(receipts),
        0 <= at < receipts.len(),
    ensures
        filed(receipts).contains_key(key_of(receipts[at])),
        filed(receipts)[key_of(receipts[at])] == receipts[at],
    decreases receipts.len(),
{
    let rest = receipts.drop_last();
    if at < receipts.len() - 1 {
        lemma_distinct_without_last(receipts);
        assert(rest[at] == receipts[at]);
        lemma_filed_at(rest, at);
        assert(key_of(receipts[at]) != key_of(receipts[receipts.len() - 1]));
    }
}

/// The registry: the configuration, once it is set, and the receipts in the
/// order in which they were recorded.
pub struct ReceiptRegistry {
    config: Option<ReceiptConfig>,
    receipts: Vec<Receipt>,
}

impl View for ReceiptRegistry {
    type V = RegistryState;

    closed spec fn view(&self) -> RegistryState {
        RegistryState { config: self.config, receipts: filed(self.receipts@) }
    }
}

impl ReceiptRegistry {
    /// No pair has two receipts.
    #[verifier::type_invariant]
    closed spec fn well_formed(&self) -> bool {
        distinct_pairs(self.receipts@)
    }

    /// A registry with no configuration and no receipts.
    pub fn new() -> (registry: ReceiptRegistry)
        ensures
            registry@ == RegistryState::empty(),
    {
        ReceiptRegistry { config: None, receipts: Vec::new() }
    }

    /// The configuration, if it has been set.
    pub fn config(&self) -> (config: Option<ReceiptConfig>)
        ensures
            config == self@.config,
    {
        self.config
    }

    /// Where in the list the pair's receipt stands, if it has one.
    fn position(&self, emitter: &[u8; 32], sequence: u64) -> (at: Option<usize>)
        ensures
            match at {
                Some(i) => i < self.receipts@.len() && key_of(self.receipts@[i as int]) == (
                    emitter@,
                    sequence,
                ),
                None => forall|i: int|
                    0 <= i < self.receipts@.len() ==> key_of(#[trigger] self.receipts@[i]) != (
                        emitter@,
                        sequence,
                    ),
            },
    {
        let mut i: usize = 0;
        while i < self.receipts.len()
            invariant
                i <= self.receipts@.len(),
                forall|j: int|
                    0 <= j < i ==> key_of(#[trigger] self.receipts@[j]) != (emitter@, sequence),
            decreases self.receipts@.len() - i,
        {
            if self.receipts[i].sequence == sequence && same_address(
                &self.receipts[i].emitter,
                emitter,
            ) {
                return Some(i);
            }
            i += 1;
        }
        None
    }

    /// The receipt of a pair, if it has one.
    pub fn get(&self, emitter: &[u8; 32], sequence: u64) -> (receipt: Option<Receipt>)
        ensures
            receipt == if self@.has(emitter@, sequence) {
                Some(self@.receipts[(emitter@, sequence)])
            } else {
                None
            },
    {
        proof {
            use_type_invariant(self);
            lemma_filed_pairs(self.receipts@, (emitter@, sequence));
        }
        match self.position(emitter, sequence) {
            Some(i) => {
                proof {
                    lemma_filed_at(self.receipts@, i as int);
                }
                Some(self.receipts[i])
            },
            None => None,
        }
    }

    /// Whether the pair has a receipt.
    pub fn contains(&self, emitter: &[u8; 32], sequence: u64) -> (yes: bool)
        ensures
            yes == self@.has(emitter@, sequence),
    {
        self.get(emitter, sequence).is_some()
    }

    /// How many receipts there are.
    pub fn len(&self) -> (count: usize)
        ensures
            count == self@.receipts.len(),
    {
        proof {
            use_type_invariant(self);
            lemma_filed_len(self.receipts@);
        }
        self.receipts.len()
    }

    /// What a registry holds is consistent, whatever was done to it: each
    /// receipt is filed under its own pair.
    pub proof fn law_registry_is_consistent(&self)
        ensures
            self@.consistent(),
    {
        assert forall|key: (Seq<u8>, u64)| #[trigger]
            self@.receipts.contains_key(key) implies key_of(self@.receipts[key]) == key by {
            lemma_filed_pairs(self.receipts@, key);
        }
        lemma_filed_pairs(self.receipts@, (Seq::empty(), 0));
    }

    /// Files `receipt` unless its pair has a receipt already, and says
    /// whether it did.
    fn insert_if_absent(&mut self, receipt: Receipt) -> (filed_now: bool)
        ensures
            filed_now == !old(self)@.has(receipt.emitter@, receipt.sequence),
            final(self)@ == if filed_now {
                old(self)@.with_receipt(receipt)
            } else {
                old(self)@
            },
    {
        proof {
            use_type_invariant(&*self);
            lemma_filed_pairs(self.receipts@, key_of(receipt));
        }
        match self.position(&receipt.emitter, receipt.sequence) {
            Some(_) => false,
            None => {
                let ghost before = self.receipts@;
                let mut receipts: Vec<Receipt> = Vec::new();
                std::mem::swap(&mut self.receipts, &mut receipts);
                receipts.push(receipt);
                proof {
                    assert(receipts@.drop_last() =~= before);
                    assert(receipts@.last() == receipt);
                    assert(distinct_pairs(receipts@)) by {
                        assert forall|i: int, j: int| 0 <= i < j < receipts@.len() implies key_of(
                            #[trigger] receipts@[i],
                        ) != key_of(#[trigger] receipts@[j]) by {
                            assert(receipts@[i] == before[i]);
                            if j < before.len() {
                                assert(receipts@[j] == before[j]);
                            }
                        }
                    }
                }
                std::mem::swap(&mut self.receipts, &mut receipts);
                true
            },
        }
    }
}

/// A list without repeated pairs files as many receipts as it holds.
proof fn lemma_filed_len(receipts: Seq<Receipt>)
    requires
        distinct_pairs(receipts),
    ensures
        filed(receipts).len() == receipts.len(),
    decreases receipts.len(),
{
    lemma_filed_pairs(receipts, (Seq::empty(), 0));
    if receipts.len() > 0 {
        let rest = receipts.drop_last();
        lemma_distinct_without_last(receipts);
        lemma_filed_len(rest);
        lemma_filed_pairs(rest, key_of(receipts.last()));
        if filed(rest).contains_key(key_of(receipts.last())) {
            let i = choose|i: int|
                0 <= i < rest.len() && key_of(#[trigger] rest[i]) == key_of(receipts.last());
            assert(rest[i] == receipts[i]);
            assert(key_of(receipts[i]) != key_of(receipts[receipts.len() - 1]));
        }
    }
}

/// Sets the registry's configuration: the caller becomes the administrator,
/// and `evm_chain` and `emitter` name the counterpart. This can be done once;
/// a second request is refused and changes nothing.
pub fn init_receipt_config(
    registry: &mut ReceiptRegistry,
    ctx: &InitReceiptConfig,
    evm_chain: u16,
    emitter: [u8; 32],
) -> (outcome: Result<(), ZkError>)
    ensures
        final(registry)@ == old(registry)@.after_init(*ctx, evm_chain, emitter),
        outcome == match old(registry)@.init_refusal() {
            Some(refusal) => Err::<(), ZkError>(refusal),
            None => Ok::<(), ZkError>(()),
        },
{
    proof {
        use_type_invariant(&*registry);
    }
    if registry.config.is_some() {
        return Err(ZkError::ConfigAlreadyInitialized);
    }
    registry.config = Some(
        ReceiptConfig { admin: ctx.admin, evm_chain, emitter, bump: ctx.cfg_bump },
    );
    Ok(())
}

/// Records the receipt for `emitter` and `sequence` on the strength of a
/// proof that the hub holds, and returns the event to publish. The proof is
/// read: it must be a posted proof that names the expected emitter, and the
/// request must name the same. `now` is the ledger's time. A refused request
/// changes nothing.
pub fn record_receipt_from_vaa(
    registry: &mut ReceiptRegistry,
    ctx: &RecordReceiptFromVaa,
    emitter: [u8; 32],
    sequence: u64,
    now: i64,
) -> (outcome: Result<ReceiptRecorded, ZkError>)
    ensures
        final(registry)@ == old(registry)@.after_proof_backed(*ctx, emitter, sequence, now),
        outcome == match old(registry)@.proof_backed_refusal(*ctx, emitter, sequence) {
            Some(refusal) => Err::<ReceiptRecorded, ZkError>(refusal),
            None => Ok::<ReceiptRecorded, ZkError>(
                event_of(proof_backed_receipt(*ctx, emitter, sequence, now)),
            ),
        },
{
    let config = match registry.config {
        Some(config) => config,
        None => {
            return Err(ZkError::ConfigNotInitialized);
        },
    };
    if !same_address(&ctx.posted_vaa.owner, &ctx.wormhole_program) {
        return Err(ZkError::InvalidPostedVaaOwner);
    }
    if !proof_names(&ctx.posted_vaa, &config.emitter) || !same_address(&emitter, &config.emitter) {
        return Err(ZkError::EmitterAddressMismatch);
    }
    let receipt = Receipt {
        emitter,
        sequence,
        vaa_account: ctx.posted_vaa.key,
        posted_timestamp: now,
        bump: ctx.receipt_bump,
    };
    if !registry.insert_if_absent(receipt) {
        return Err(ZkError::ReceiptAlreadyRecorded);
    }
    Ok(ReceiptRecorded { emitter, sequence, vaa: receipt.vaa_account })
}

/// Records the receipt for `emitter` and `sequence` on the administrator's
/// word alone, and returns the event to publish. The receipt names no proof.
/// `now` is the ledger's time. A refused request changes nothing.
pub fn record_receipt_direct(
    registry: &mut ReceiptRegistry,
    ctx: &RecordReceiptDirect,
    emitter: [u8; 32],
    sequence: u64,
    now: i64,
) -> (outcome: Result<ReceiptRecorded, ZkError>)
    ensures
        final(registry)@ == old(registry)@.after_asserted(*ctx, emitter, sequence, now),
        outcome == match old(registry)@.asserted_refusal(*ctx, emitter, sequence) {
            Some(refusal) => Err::<ReceiptRecorded, ZkError>(refusal),
            None => Ok::<ReceiptRecorded, ZkError>(
                event_of(asserted_receipt(*ctx, emitter, sequence, now)),
            ),
        },
{
    let config = match registry.config {
        Some(config) => config,
        None => {
            return Err(ZkError::ConfigNotInitialized);
        },
    };
    if !same_address(&config.admin, &ctx.admin) {
        return Err(ZkError::NotAdmin);
    }
    let receipt = Receipt {
        emitter,
        sequence,
        vaa_account: null_address(),
        posted_timestamp: now,
        bump: ctx.receipt_bump,
    };
    if !registry.insert_if_absent(receipt) {
        return Err(ZkError::ReceiptAlreadyRecorded);
    }
    Ok(ReceiptRecorded { emitter, sequence, vaa: receipt.vaa_account })
}

/// A pair is recorded on proofs at most once. Of two proof-backed requests
/// for one pair, at most one is accepted. Where the first is accepted, its
/// receipt is stored, the second is refused, and the second leaves the
/// registry, the first receipt with it, as the first request left it; where
/// the second request's proof is as good as the first, the hub's and naming
/// the emitter, the refusal says that the pair has been recorded.
pub proof fn law_proof_backed_at_most_once(
    state: RegistryState,
    first: RecordReceiptFromVaa,
    second: RecordReceiptFromVaa,
    emitter: [u8; 32],
    sequence: u64,
    first_time: i64,
    second_time: i64,
)
    ensures
        ({
            let accepted = state.proof_backed_refusal(first, emitter, sequence) is None;
            let recorded = state.after_proof_backed(first, emitter, sequence, first_time);
            let again = recorded.proof_backed_refusal(second, emitter, sequence);
            &&& !(accepted && again is None)
            &&& accepted ==> recorded.has(emitter@, sequence)
            &&& accepted ==> recorded.receipts[(emitter@, sequence)] == proof_backed_receipt(
                first,
                emitter,
                sequence,
                first_time,
            )
            &&& accepted && second.posted_vaa.owner@ == second.wormhole_program@
                && proof_emitter(second.posted_vaa.data@) == Some(emitter@) ==> again == Some(
                ZkError::ReceiptAlreadyRecorded,
            )
            &&& accepted ==> recorded.after_proof_backed(second, emitter, sequence, second_time)
                == recorded
        }),
{
}

/// A pair that has a receipt, however it came by it, gets no other: every
/// later request for the pair, on a proof or on the administrator's word, is
/// refused and leaves the registry as it was.
pub proof fn law_recorded_pair_is_closed(
    state: RegistryState,
    by_proof: RecordReceiptFromVaa,
    by_word: RecordReceiptDirect,
    emitter: [u8; 32],
    sequence: u64,
    now: i64,
)
    requires
        state.has(emitter@, sequence),
    ensures
        state.proof_backed_refusal(by_proof, emitter, sequence) is Some,
        state.after_proof_backed(by_proof, emitter, sequence, now) == state,
        state.asserted_refusal(by_word, emitter, sequence) is Some,
        state.after_asserted(by_word, emitter, sequence, now) == state,
{
}

/// A proof-backed request records nothing unless both its proof and the
/// request itself name the expected emitter: where the proof names another
/// emitter or none, or the request names another, the request is refused and
/// the registry stays as it was; where the proof account is the hub's, the
/// refusal says that the emitter does not match.
pub proof fn law_emitter_mismatch_is_refused(
    state: RegistryState,
    ctx: RecordReceiptFromVaa,
    emitter: [u8; 32],
    sequence: u64,
    now: i64,
)
    requires
        state.config matches Some(config) && (proof_emitter(ctx.posted_vaa.data@) != Some(
            config.emitter@,
        ) || emitter@ != config.emitter@),
    ensures
        state.proof_backed_refusal(ctx, emitter, sequence) is Some,
        ctx.posted_vaa.owner@ == ctx.wormhole_program@ ==> state.proof_backed_refusal(
            ctx,
            emitter,
            sequence,
        ) == Some(ZkError::EmitterAddressMismatch),
        state.after_proof_backed(ctx, emitter, sequence, now) == state,
{
}

/// A receipt that was recorded on a proof is vouched for: the proof account
/// was the hub's, it held a posted proof, and the emitter that the proof
/// names, the emitter of the receipt and the expected emitter are one.
pub proof fn law_proof_backed_receipt_is_vouched_for(
    state: RegistryState,
    ctx: RecordReceiptFromVaa,
    emitter: [u8; 32],
    sequence: u64,
)
    requires
        state.proof_backed_refusal(ctx, emitter, sequence) is None,
    ensures
        ctx.posted_vaa.owner@ == ctx.wormhole_program@,
        ctx.posted_vaa.data@.len() >= 95,
        state.config matches Some(config) && proof_emitter(ctx.posted_vaa.data@) == Some(
            emitter@,
        ) && emitter@ == config.emitter@,
{
}

/// A request on the administrator's word from anyone else is refused as
/// such and records nothing.
pub proof fn law_only_admin_asserts(
    state: RegistryState,
    ctx: RecordReceiptDirect,
    emitter: [u8; 32],
    sequence: u64,
    now: i64,
)
    requires
        state.config matches Some(config) && ctx.admin@ != config.admin@,
    ensures
        state.asserted_refusal(ctx, emitter, sequence) == Some(ZkError::NotAdmin),
        state.after_asserted(ctx, emitter, sequence, now) == state,
{
}

/// Nothing that was recorded is ever changed or removed, and a configuration
/// that was set stays as it is: each of the three requests keeps every
/// receipt and the configuration that the registry held before it, and a
/// request to record touches no pair but its own.
pub proof fn law_records_are_permanent(
    state: RegistryState,
    init: InitReceiptConfig,
    evm_chain: u16,
    expected: [u8; 32],
    by_proof: RecordReceiptFromVaa,
    by_word: RecordReceiptDirect,
    emitter: [u8; 32],
    sequence: u64,
    now: i64,
    key: (Seq<u8>, u64),
)
    ensures
        ({
            let after = state.after_init(init, evm_chain, expected);
            &&& after.receipts == state.receipts
            &&& state.config is Some ==> after.config == state.config
        }),
        ({
            let after = state.after_proof_backed(by_proof, emitter, sequence, now);
            &&& after.config == state.config
            &&& state.receipts.contains_key(key) ==> after.receipts.contains_key(key)
                && after.receipts[key] == state.receipts[key]
            &&& key != (emitter@, sequence) ==> after.receipts.contains_key(key)
                == state.receipts.contains_key(key)
        }),
        ({
            let after = state.after_asserted(by_word, emitter, sequence, now);
            &&& after.config == state.config
            &&& state.receipts.contains_key(key) ==> after.receipts.contains_key(key)
                && after.receipts[key] == state.receipts[key]
            &&& key != (emitter@, sequence) ==> after.receipts.contains_key(key)
                == state.receipts.contains_key(key)
        }),
{
}

/// Each of the three requests keeps a consistent registry consistent.
pub proof fn law_requests_keep_consistency(
    state: RegistryState,
    init: InitReceiptConfig,
    evm_chain: u16,
    expected: [u8; 32],
    by_proof: RecordReceiptFromVaa,
    by_word: RecordReceiptDirect,
    emitter: [u8; 32],
    sequence: u64,
    now: i64,
)
    requires
        state.consistent(),
    ensures
        state.after_init(init, evm_chain, expected).consistent(),
        state.after_proof_backed(by_proof, emitter, sequence, now).consistent(),
        state.after_asserted(by_word, emitter, sequence, now).consistent(),
{
}

} // verus!
