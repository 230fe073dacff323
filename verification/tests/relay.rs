use anchor_lang::solana_program::pubkey::Pubkey;
use anchor_lang::solana_program::system_instruction;
use anchor_lang::AccountDeserialize;
use wormhole_anchor_sdk::wormhole::BridgeData;
use zk_coprocessor_program::error::ZkError;
use zk_coprocessor_program::fee::{read_bridge_fee, ConfigAccount};
use zk_coprocessor_program::relay::{
    fee_payment, finality_from_flag, post_wormhole_message, AccountMeta, CpiInstruction, Finality,
    PostMessageAccounts, PostWormholeMessage,
};

const HUB: [u8; 32] = [9u8; 32];
const PAYER: [u8; 32] = [1u8; 32];
const COLLECTOR: [u8; 32] = [2u8; 32];

fn bridge_bytes(guardian_set: u32, last_lamports: u64, lifetime: u32, fee: u64) -> Vec<u8> {
    let mut bytes = Vec::new();
    bytes.extend_from_slice(&guardian_set.to_le_bytes());
    bytes.extend_from_slice(&last_lamports.to_le_bytes());
    bytes.extend_from_slice(&lifetime.to_le_bytes());
    bytes.extend_from_slice(&fee.to_le_bytes());
    bytes
}

fn request(owner: [u8; 32], data: Vec<u8>) -> PostWormholeMessage {
    PostWormholeMessage {
        config: ConfigAccount { key: [3u8; 32], owner, data },
        message: [4u8; 32],
        emitter: [5u8; 32],
        sequence: [6u8; 32],
        payer: PAYER,
        fee_collector: COLLECTOR,
        clock: [7u8; 32],
        rent: [8u8; 32],
        system_program: [0u8; 32],
        wormhole_program: HUB,
        emitter_bump: 253,
    }
}

#[test]
fn fee_is_read_from_the_last_eight_bytes_of_the_record() {
    let account = ConfigAccount {
        key: [3u8; 32],
        owner: HUB,
        data: bridge_bytes(3, 1_000_000, 86_400, 2500),
    };
    assert_eq!(read_bridge_fee(&account, &HUB), Ok(2500));
}

#[test]
fn fee_reading_agrees_with_the_hub_record_decoder() {
    let data = bridge_bytes(0xAABBCCDD, 0x0102030405060708, 0x11223344, 0xF1E2D3C4B5A69788);
    let mut rest: &[u8] = &data;
    let decoded = BridgeData::try_deserialize(&mut rest).unwrap();
    assert_eq!(decoded.guardian_set_index, 0xAABBCCDD);
    let account = ConfigAccount { key: [3u8; 32], owner: HUB, data };
    assert_eq!(read_bridge_fee(&account, &HUB), Ok(decoded.fee()));
    assert_eq!(read_bridge_fee(&account, &HUB), Ok(0xF1E2D3C4B5A69788));
}

#[test]
fn fee_of_the_largest_amount_is_read_whole() {
    let account =
        ConfigAccount { key: [3u8; 32], owner: HUB, data: bridge_bytes(0, 0, 0, u64::MAX) };
    assert_eq!(read_bridge_fee(&account, &HUB), Ok(u64::MAX));
}

#[test]
fn bytes_after_the_record_are_ignored() {
    let mut data = bridge_bytes(1, 2, 3, 77);
    data.extend_from_slice(&[0xFF; 40]);
    let account = ConfigAccount { key: [3u8; 32], owner: HUB, data };
    assert_eq!(read_bridge_fee(&account, &HUB), Ok(77));
}

#[test]
fn a_record_one_byte_short_is_refused() {
    let mut data = bridge_bytes(1, 2, 3, 77);
    data.pop();
    assert_eq!(data.len(), 23);
    let account = ConfigAccount { key: [3u8; 32], owner: HUB, data };
    assert_eq!(read_bridge_fee(&account, &HUB), Err(ZkError::BridgeDeserialize));
}

#[test]
fn an_empty_fee_account_is_refused() {
    let account = ConfigAccount { key: [3u8; 32], owner: HUB, data: Vec::new() };
    assert_eq!(read_bridge_fee(&account, &HUB), Err(ZkError::BridgeDeserialize));
}

#[test]
fn a_fee_account_of_another_owner_is_refused() {
    let account =
        ConfigAccount { key: [3u8; 32], owner: [10u8; 32], data: bridge_bytes(1, 2, 3, 77) };
    assert_eq!(read_bridge_fee(&account, &HUB), Err(ZkError::ConfigOwnerMismatch));
}

#[test]
fn the_owner_is_judged_before_the_bytes() {
    let account = ConfigAccount { key: [3u8; 32], owner: [10u8; 32], data: vec![1, 2, 3] };
    assert_eq!(read_bridge_fee(&account, &HUB), Err(ZkError::ConfigOwnerMismatch));
}

#[test]
fn owners_that_differ_in_the_last_byte_differ() {
    let mut owner = HUB;
    owner[31] = 8;
    let account = ConfigAccount { key: [3u8; 32], owner, data: bridge_bytes(1, 2, 3, 77) };
    assert_eq!(read_bridge_fee(&account, &HUB), Err(ZkError::ConfigOwnerMismatch));
}

#[test]
fn flags_select_the_two_finality_levels_only() {
    assert_eq!(finality_from_flag(0), Some(Finality::Confirmed));
    assert_eq!(finality_from_flag(1), Some(Finality::Finalized));
    assert_eq!(finality_from_flag(2), None);
    assert_eq!(finality_from_flag(200), None);
    assert_eq!(finality_from_flag(255), None);
}

#[test]
fn a_zero_fee_is_paid_by_doing_nothing() {
    assert_eq!(fee_payment(&PAYER, &COLLECTOR, 0), None);
}

#[test]
fn a_fee_is_paid_by_one_native_transfer() {
    let payment = fee_payment(&PAYER, &COLLECTOR, 2500).unwrap();
    let expected = CpiInstruction {
        program_id: [0u8; 32],
        accounts: vec![
            AccountMeta { pubkey: PAYER, is_signer: true, is_writable: true },
            AccountMeta { pubkey: COLLECTOR, is_signer: false, is_writable: true },
        ],
        data: vec![2, 0, 0, 0, 0xC4, 0x09, 0, 0, 0, 0, 0, 0],
    };
    assert_eq!(payment, expected);
}

#[test]
fn the_payment_is_the_system_program_transfer() {
    let fee = 0x0102030405060708u64;
    let payment = fee_payment(&PAYER, &COLLECTOR, fee).unwrap();
    let native = system_instruction::transfer(
        &Pubkey::new_from_array(PAYER),
        &Pubkey::new_from_array(COLLECTOR),
        fee,
    );
    assert_eq!(payment.program_id, native.program_id.to_bytes());
    assert_eq!(payment.data, native.data);
    assert_eq!(payment.data, vec![2, 0, 0, 0, 8, 7, 6, 5, 4, 3, 2, 1]);
    assert_eq!(payment.accounts.len(), native.accounts.len());
    for (ours, theirs) in payment.accounts.iter().zip(native.accounts.iter()) {
        assert_eq!(ours.pubkey, theirs.pubkey.to_bytes());
        assert_eq!(ours.is_signer, theirs.is_signer);
        assert_eq!(ours.is_writable, theirs.is_writable);
    }
}

#[test]
fn posting_pays_exactly_the_fee_for_several_fees() {
    for fee in [1u64, 2, 255, 256, 2500, 1 << 32, u64::MAX] {
        let ctx = request(HUB, bridge_bytes(0, 0, 0, fee));
        let plan = post_wormhole_message(&ctx, 1, vec![1], 0).unwrap();
        assert_eq!(plan.fee(), fee);
        let payment = plan.payment().unwrap();
        assert_eq!(payment.accounts[0].pubkey, PAYER);
        assert_eq!(payment.accounts[1].pubkey, COLLECTOR);
        assert_eq!(payment.data[..4], [2, 0, 0, 0]);
        assert_eq!(payment.data[4..], fee.to_le_bytes());
    }
}

#[test]
fn posting_with_a_zero_fee_plans_no_payment() {
    let ctx = request(HUB, bridge_bytes(0, 0, 0, 0));
    let plan = post_wormhole_message(&ctx, 1, vec![1, 2, 3], 0).unwrap();
    assert_eq!(plan.fee(), 0);
    assert_eq!(plan.payment(), None);
    let call = plan.release(false).unwrap();
    assert_eq!(call.payload, vec![1, 2, 3]);
}

#[test]
fn scenario_fee_of_2500_is_paid_and_the_payload_arrives_unmodified() {
    let payload: Vec<u8> = (0u8..=255).collect();
    let ctx = request(HUB, bridge_bytes(3, 1_000_000, 86_400, 2500));
    let plan = post_wormhole_message(&ctx, 42, payload.clone(), 1).unwrap();
    assert_eq!(plan.fee(), 2500);
    let payment = plan.payment().unwrap().clone();
    assert_eq!(payment.program_id, [0u8; 32]);
    assert_eq!(
        payment.accounts,
        vec![
            AccountMeta { pubkey: PAYER, is_signer: true, is_writable: true },
            AccountMeta { pubkey: COLLECTOR, is_signer: false, is_writable: true },
        ]
    );
    assert_eq!(payment.data, vec![2, 0, 0, 0, 0xC4, 0x09, 0, 0, 0, 0, 0, 0]);
    let call = plan.release(true).unwrap();
    assert_eq!(call.program, HUB);
    assert_eq!(call.batch_id, 42);
    assert_eq!(call.payload, payload);
    assert_eq!(call.finality, Finality::Finalized);
    assert_eq!(
        call.accounts,
        PostMessageAccounts {
            config: [3u8; 32],
            message: [4u8; 32],
            emitter: [5u8; 32],
            sequence: [6u8; 32],
            payer: PAYER,
            fee_collector: COLLECTOR,
            clock: [7u8; 32],
            rent: [8u8; 32],
            system_program: [0u8; 32],
        }
    );
    assert_eq!(call.signer_seeds, vec![b"emitter".to_vec(), vec![253u8]]);
}

#[test]
fn flag_zero_posts_at_confirmed_finality() {
    let ctx = request(HUB, bridge_bytes(0, 0, 0, 5));
    let plan = post_wormhole_message(&ctx, 0, Vec::new(), 0).unwrap();
    let call = plan.release(true).unwrap();
    assert_eq!(call.finality, Finality::Confirmed);
    assert_eq!(call.payload, Vec::<u8>::new());
}

#[test]
fn an_unsupported_flag_is_refused_before_anything_else() {
    for flag in [2u8, 3, 128, 255] {
        let good = request(HUB, bridge_bytes(0, 0, 0, 2500));
        assert_eq!(
            post_wormhole_message(&good, 1, vec![1], flag).err(),
            Some(ZkError::UnsupportedFinality)
        );
        let wrong_owner = request([10u8; 32], bridge_bytes(0, 0, 0, 2500));
        assert_eq!(
            post_wormhole_message(&wrong_owner, 1, vec![1], flag).err(),
            Some(ZkError::UnsupportedFinality)
        );
        let no_record = request(HUB, vec![0; 5]);
        assert_eq!(
            post_wormhole_message(&no_record, 1, vec![1], flag).err(),
            Some(ZkError::UnsupportedFinality)
        );
    }
}

#[test]
fn posting_is_refused_for_a_fee_account_of_another_owner() {
    let ctx = request([10u8; 32], bridge_bytes(0, 0, 0, 2500));
    assert_eq!(
        post_wormhole_message(&ctx, 1, vec![1], 1).err(),
        Some(ZkError::ConfigOwnerMismatch)
    );
}

#[test]
fn posting_is_refused_for_a_fee_account_without_a_record() {
    let ctx = request(HUB, vec![0; 23]);
    assert_eq!(
        post_wormhole_message(&ctx, 1, vec![1], 1).err(),
        Some(ZkError::BridgeDeserialize)
    );
}

#[test]
fn a_refused_payment_ends_the_relay() {
    let ctx = request(HUB, bridge_bytes(0, 0, 0, 2500));
    let plan = post_wormhole_message(&ctx, 1, vec![1], 1).unwrap();
    assert_eq!(plan.release(false), Err(ZkError::PaymentFailed));
}

#[test]
fn a_settled_payment_releases_the_call() {
    let ctx = request(HUB, bridge_bytes(0, 0, 0, 2500));
    let plan = post_wormhole_message(&ctx, 7, vec![9, 9], 1).unwrap();
    let call = plan.release(true).unwrap();
    assert_eq!(call.batch_id, 7);
    assert_eq!(call.payload, vec![9, 9]);
}
