//! Reading what a proof account holds.

use crate::address::same_address;
use anchor_lang::AccountDeserialize;
use vstd::prelude::*;
use wormhole_anchor_sdk::wormhole::PostedVaa;

verus! {

/// A proof account as the ledger shows it: its address, its owner and its
/// bytes.
#[derive(Clone, Debug, PartialEq, Eq)]
pub struct PostedVaaAccount {
    pub key: [u8; 32],
    pub owner: [u8; 32],
    pub data: Vec<u8>,
}

/// The bytes with which every posted proof begins: those of "vaa".
pub open spec fn proof_tag() -> Seq<u8> {
    seq![118u8, 97u8, 97u8]
}

/// The emitter that a posted proof names. A posted proof begins with its tag
/// (3 bytes) and goes on with the version (1), the finality (1), the time of
/// the message (4), the signature set (32), the time of posting (4), the
/// batch identifier (4), the sequence number (8), the emitter's chain (2),
/// the emitter's address (32) and the payload's length (4): 95 bytes before
/// the payload. Bytes that do not begin with the tag, or fewer than 95 of
/// them, are no posted proof and name no emitter.
pub open spec fn proof_emitter(data: Seq<u8>) -> Option<Seq<u8>> {
    if data.len() >= 95 && data.subrange(0, 3) == proof_tag() {
        Some(data.subrange(59, 91))
    } else {
        None
    }
}

/// Calls `PostedVaa::try_deserialize`, with nothing decoded of the payload
/// but its length, and takes the proof's `emitter_address()`. Trusted: that
/// bytes are decoded exactly where they begin with the tag and reach to the
/// end of the payload's length, 95 bytes in all, and that the emitter's
/// address is read from bytes 59 to 90.
#[verifier::external_body]
fn decode_proof_emitter(data: &[u8]) -> (emitter: Result<[u8; 32], anchor_lang::error::Error>)
    ensures
        match emitter {
            Ok(address) => proof_emitter(data@) == Some(address@),
            Err(_) => proof_emitter(data@) is None,
        },
{
    let mut rest: &[u8] = data;
    match PostedVaa::<()>::try_deserialize(&mut rest) {
        Ok(proof) => Ok(*proof.emitter_address()),
        Err(refusal) => Err(refusal),
    }
}

/// Whether the account holds a posted proof that names `emitter`.
pub fn proof_names(account: &PostedVaaAccount, emitter: &[u8; 32]) -> (yes: bool)
    ensures
        yes == (proof_emitter(account.data@) == Some(emitter@)),
{
    match decode_proof_emitter(account.data.as_slice()) {
        Ok(named) => same_address(&named, emitter),
        Err(_) => false,
    }
}

} // verus!
