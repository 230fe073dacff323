//! Reading the fee that the hub currently charges.

use crate::bytes::le_value;
use crate::error::ZkError;
use anchor_lang::AccountDeserialize;
use vstd::prelude::*;
use wormhole_anchor_sdk::wormhole::BridgeData;

verus! {

/// The hub's fee account as the ledger shows it: its address, its owner and
/// its bytes.
#[derive(Clone, Debug, PartialEq, Eq)]
pub struct ConfigAccount {
    pub key: [u8; 32],
    pub owner: [u8; 32],
    pub data: Vec<u8>,
}

/// The fee in the hub's fee record. The record is 24 bytes long: the guardian
/// set index (4), the collector's last balance (8), the guardian set's
/// lifetime (4) and the fee (8), each least significant byte first. Bytes
/// after the record are ignored; fewer bytes hold no record.
pub open spec fn bridge_fee(data: Seq<u8>) -> Option<u64> {
    if data.len() >= 24 {
        Some(le_value(data.subrange(16, 24)) as u64)
    } else {
        None
    }
}

/// Why the hub's decoder refuses bytes: the error of `anchor_lang`, carried
/// as it comes.
#[verifier::external_type_specification]
#[verifier::external_body]
pub struct ExDecodeError(anchor_lang::error::Error);

/// Calls `BridgeData::try_deserialize` and takes the record's `fee()`.
/// Trusted: that the record is decoded from the first 24 bytes, the fee from
/// the last eight of them, and that fewer than 24 bytes are refused.
#[verifier::external_body]
fn decode_bridge_fee(data: &[u8]) -> (fee: Result<u64, anchor_lang::error::Error>)
    ensures
        match fee {
            Ok(amount) => bridge_fee(data@) == Some(amount),
            Err(_) => bridge_fee(data@) is None,
        },
{
    let mut rest: &[u8] = data;
    match BridgeData::try_deserialize(&mut rest) {
        Ok(bridge) => Ok(bridge.fee()),
        Err(refusal) => Err(refusal),
    }
}

/// What a reading of the fee account gives: the fee, or the reason why the
/// account is no fee source.
pub open spec fn fee_reading(owner: Seq<u8>, hub_program: Seq<u8>, data: Seq<u8>) -> Result<
    u64,
    ZkError,
> {
    if owner != hub_program {
        Err(ZkError::ConfigOwnerMismatch)
    } else {
        match bridge_fee(data) {
            Some(fee) => Ok(fee),
            None => Err(ZkError::BridgeDeserialize),
        }
    }
}

/// Reads the current fee from the hub's fee account. The account must be
/// owned by the hub program, and its bytes must hold the hub's fee record.
pub fn read_bridge_fee(config: &ConfigAccount, hub_program: &[u8; 32]) -> (reading: Result<
    u64,
    ZkError,
>)
    ensures
        reading == fee_reading(config.owner@, hub_program@, config.data@),
{
    if !crate::address::same_address(&config.owner, hub_program) {
        return Err(ZkError::ConfigOwnerMismatch);
    }
    match decode_bridge_fee(config.data.as_slice()) {
        Ok(fee) => Ok(fee),
        Err(_) => Err(ZkError::BridgeDeserialize),
    }
}

} // verus!
