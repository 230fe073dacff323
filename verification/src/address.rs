//! Ledger addresses, the seeds they are derived from, and the derivation.

use crate::bytes::{be_bytes, lemma_be_bytes_round_trip, to_be_bytes};
use anchor_lang::solana_program::pubkey::{Pubkey, PubkeyError};
use vstd::prelude::*;

verus! {

/// The address made of zero bytes, which stands for "no account".
pub open spec fn null_address_spec() -> [u8; 32] {
    vstd::array::spec_array_fill_for_copy_type::<u8, 32>(0u8)
}

/// The address made of zero bytes, which stands for "no account".
pub fn null_address() -> (zero: [u8; 32])
    ensures
        zero == null_address_spec(),
        forall|i: int| 0 <= i < 32 ==> zero@[i] == 0,
{
    [0u8; 32]
}

/// Whether two addresses hold the same bytes.
pub fn same_address(a: &[u8; 32], b: &[u8; 32]) -> (same: bool)
    ensures
        same == (a@ == b@),
        same == (*a == *b),
{
    let mut i: usize = 0;
    while i < 32
        invariant
            i <= 32,
            forall|j: int| 0 <= j < i ==> a@[j] == b@[j],
        decreases 32 - i,
    {
        if a[i] != b[i] {
            return false;
        }
        i += 1;
    }
    assert(a@ =~= b@);
    assert(*a =~= *b);
    true
}

/// The label of the signing authority's seeds: the bytes of "emitter".
pub open spec fn emitter_label() -> Seq<u8> {
    seq![101u8, 109u8, 105u8, 116u8, 116u8, 101u8, 114u8]
}

/// The label of the configuration's seeds: the bytes of "cfg".
pub open spec fn config_label() -> Seq<u8> {
    seq![99u8, 102u8, 103u8]
}

/// The label of a receipt's seeds: the bytes of "receipt".
pub open spec fn receipt_label() -> Seq<u8> {
    seq![114u8, 101u8, 99u8, 101u8, 105u8, 112u8, 116u8]
}

/// The seeds from which the signing authority's address is searched.
pub open spec fn emitter_seeds_spec() -> Seq<Seq<u8>> {
    seq![emitter_label()]
}

/// The seeds that prove authority over the signing identity: the label, then
/// the bump alone.
pub open spec fn signer_seeds_spec(bump: u8) -> Seq<Seq<u8>> {
    seq![emitter_label(), seq![bump]]
}

/// The seeds from which the configuration's address is searched.
pub open spec fn config_seeds_spec() -> Seq<Seq<u8>> {
    seq![config_label()]
}

/// The seeds from which a receipt's address is searched: the label, the
/// emitter, and the sequence number, most significant byte first.
pub open spec fn receipt_seeds_spec(emitter: Seq<u8>, sequence: u64) -> Seq<Seq<u8>> {
    seq![receipt_label(), emitter, be_bytes(sequence)]
}

/// The seeds from which the signing authority's address is searched.
pub fn emitter_seeds() -> (seeds: Vec<Vec<u8>>)
    ensures
        seeds.deep_view() == emitter_seeds_spec(),
{
    let label: Vec<u8> = vec![101u8, 109u8, 105u8, 116u8, 116u8, 101u8, 114u8];
    assert(label.deep_view() =~= emitter_label());
    let seeds = vec![label];
    assert(seeds.deep_view() =~= emitter_seeds_spec());
    seeds
}

/// The seeds that prove authority over the signing identity for one call.
pub fn signer_seeds(bump: u8) -> (seeds: Vec<Vec<u8>>)
    ensures
        seeds.deep_view() == signer_seeds_spec(bump),
{
    let label: Vec<u8> = vec![101u8, 109u8, 105u8, 116u8, 116u8, 101u8, 114u8];
    let tail: Vec<u8> = vec![bump];
    assert(label.deep_view() =~= emitter_label());
    assert(tail.deep_view() =~= seq![bump]);
    let seeds = vec![label, tail];
    assert(seeds.deep_view() =~= signer_seeds_spec(bump));
    seeds
}

/// The seeds from which the configuration's address is searched.
pub fn config_seeds() -> (seeds: Vec<Vec<u8>>)
    ensures
        seeds.deep_view() == config_seeds_spec(),
{
    let label: Vec<u8> = vec![99u8, 102u8, 103u8];
    assert(label.deep_view() =~= config_label());
    let seeds = vec![label];
    assert(seeds.deep_view() =~= config_seeds_spec());
    seeds
}

/// The bytes of an address, in a vector.
fn address_bytes(address: &[u8; 32]) -> (bytes: Vec<u8>)
    ensures
        bytes@ == address@,
{
    let mut bytes: Vec<u8> = Vec::new();
    let mut i: usize = 0;
    while i < 32
        invariant
            i <= 32,
            bytes@ == address@.subrange(0, i as int),
        decreases 32 - i,
    {
        bytes.push(address[i]);
        i += 1;
        assert(bytes@ =~= address@.subrange(0, i as int));
    }
    assert(bytes@ =~= address@);
    bytes
}

/// The seeds from which a receipt's address is searched.
pub fn receipt_seeds(emitter: &[u8; 32], sequence: u64) -> (seeds: Vec<Vec<u8>>)
    ensures
        seeds.deep_view() == receipt_seeds_spec(emitter@, sequence),
{
    let label: Vec<u8> = vec![114u8, 101u8, 99u8, 101u8, 105u8, 112u8, 116u8];
    let who = address_bytes(emitter);
    let which = to_be_bytes(sequence);
    assert(label.deep_view() =~= receipt_label());
    assert(who.deep_view() =~= emitter@);
    assert(which.deep_view() =~= be_bytes(sequence));
    let seeds = vec![label, who, which];
    assert(seeds.deep_view() =~= receipt_seeds_spec(emitter@, sequence));
    seeds
}

/// Receipt seeds tell the pairs apart: two receipts have the same seeds only
/// if they have the same emitter and the same sequence number.
pub proof fn lemma_receipt_seeds_injective(e1: Seq<u8>, s1: u64, e2: Seq<u8>, s2: u64)
    requires
        receipt_seeds_spec(e1, s1) == receipt_seeds_spec(e2, s2),
    ensures
        e1 == e2,
        s1 == s2,
{
    assert(receipt_seeds_spec(e1, s1)[1] == e1);
    assert(receipt_seeds_spec(e2, s2)[1] == e2);
    assert(receipt_seeds_spec(e1, s1)[2] == be_bytes(s1));
    assert(receipt_seeds_spec(e2, s2)[2] == be_bytes(s2));
    lemma_be_bytes_round_trip(s1);
    lemma_be_bytes_round_trip(s2);
}

/// The address that the ledger derives for a program from a full list of
/// seeds, the bump among them, or `None` where the seeds derive none.
pub uninterp spec fn program_address(seeds: Seq<Seq<u8>>, program_id: Seq<u8>) -> Option<Seq<u8>>;

/// The address and the bump that the ledger's search finds for a program from
/// seeds without a bump, or `None` where no bump derives an address.
pub uninterp spec fn found_program_address(seeds: Seq<Seq<u8>>, program_id: Seq<u8>) -> Option<
    (Seq<u8>, u8),
>;

/// Why the ledger derives no address: `PubkeyError`, carried as it comes.
#[verifier::external_type_specification]
#[verifier::external_body]
pub struct ExPubkeyError(anchor_lang::solana_program::pubkey::PubkeyError);

/// Calls `Pubkey::create_program_address`. Trusted: that the address returned
/// is the one the ledger derives from these seeds for this program, and that
/// an error is returned exactly where the ledger derives none.
#[verifier::external_body]
fn create_program_address(seeds: &Vec<Vec<u8>>, program_id: &[u8; 32]) -> (derived: Result<
    [u8; 32],
    PubkeyError,
>)
    ensures
        match derived {
            Ok(address) => program_address(seeds.deep_view(), program_id@) == Some(address@),
            Err(_) => program_address(seeds.deep_view(), program_id@) is None,
        },
{
    let parts: Vec<&[u8]> = seeds.iter().map(|seed| seed.as_slice()).collect();
    match Pubkey::create_program_address(&parts, &Pubkey::new_from_array(*program_id)) {
        Ok(key) => Ok(key.to_bytes()),
        Err(refusal) => Err(refusal),
    }
}

/// Calls `Pubkey::try_find_program_address`. Trusted: that the pair returned
/// is the one the ledger's search finds from these seeds for this program,
/// that the address found is the one derived from the seeds followed by the
/// bump found, and that `None` is returned exactly where the search fails.
#[verifier::external_body]
fn try_find_program_address(seeds: &Vec<Vec<u8>>, program_id: &[u8; 32]) -> (found: Option<
    ([u8; 32], u8),
>)
    ensures
        match found {
            Some((address, bump)) => {
                &&& found_program_address(seeds.deep_view(), program_id@) == Some((address@, bump))
                &&& program_address(seeds.deep_view().push(seq![bump]), program_id@) == Some(
                    address@,
                )
            },
            None => found_program_address(seeds.deep_view(), program_id@) is None,
        },
{
    let parts: Vec<&[u8]> = seeds.iter().map(|seed| seed.as_slice()).collect();
    match Pubkey::try_find_program_address(&parts, &Pubkey::new_from_array(*program_id)) {
        Some((key, bump)) => Some((key.to_bytes(), bump)),
        None => None,
    }
}

/// An address derived for a program, with the bump that derives it.
#[derive(Clone, Copy, Debug, PartialEq, Eq)]
pub struct DerivedAddress {
    pub address: [u8; 32],
    pub bump: u8,
}

/// Whether `found` is what the ledger's search gives from `seeds`: the
/// address and the bump that it finds, the address being the one that the
/// seeds followed by that bump derive; or nothing, where the search fails.
pub open spec fn search_gives(
    seeds: Seq<Seq<u8>>,
    program_id: Seq<u8>,
    found: Option<DerivedAddress>,
) -> bool {
    match found {
        Some(derived) => {
            &&& found_program_address(seeds, program_id) == Some((derived.address@, derived.bump))
            &&& program_address(seeds.push(seq![derived.bump]), program_id) == Some(
                derived.address@,
            )
        },
        None => found_program_address(seeds, program_id) is None,
    }
}

/// Searches the address that `seeds` derive for a program, and the bump that
/// derives it. `None` where no bump derives an address from these seeds, as
/// with more seeds or longer ones than the ledger takes.
pub fn derive_address(seeds: &Vec<Vec<u8>>, program_id: &[u8; 32]) -> (found: Option<
    DerivedAddress,
>)
    ensures
        search_gives(seeds.deep_view(), program_id@, found),
{
    match try_find_program_address(seeds, program_id) {
        Some((address, bump)) => Some(DerivedAddress { address, bump }),
        None => None,
    }
}

/// Searches the address of the program's signing authority and its bump.
pub fn find_emitter_authority(program_id: &[u8; 32]) -> (found: Option<DerivedAddress>)
    ensures
        search_gives(emitter_seeds_spec(), program_id@, found),
        found matches Some(derived) ==> program_address(
            signer_seeds_spec(derived.bump),
            program_id@,
        ) == Some(derived.address@),
{
    let found = derive_address(&emitter_seeds(), program_id);
    proof {
        if let Some(derived) = found {
            assert(emitter_seeds_spec().push(seq![derived.bump]) =~= signer_seeds_spec(
                derived.bump,
            ));
        }
    }
    found
}

/// Searches the address of the registry's configuration and its bump.
pub fn find_config_address(program_id: &[u8; 32]) -> (found: Option<DerivedAddress>)
    ensures
        search_gives(config_seeds_spec(), program_id@, found),
{
    derive_address(&config_seeds(), program_id)
}

/// Searches the address of the receipt for `emitter` and `sequence`, and its
/// bump.
pub fn find_receipt_address(program_id: &[u8; 32], emitter: &[u8; 32], sequence: u64) -> (found:
    Option<DerivedAddress>)
    ensures
        search_gives(receipt_seeds_spec(emitter@, sequence), program_id@, found),
{
    derive_address(&receipt_seeds(emitter, sequence), program_id)
}

/// Whether a search has found exactly the address and the bump that a caller
/// claims.
pub fn confirms(found: &Option<DerivedAddress>, address: &[u8; 32], bump: u8) -> (yes: bool)
    ensures
        yes == (found matches Some(derived) && derived.address@ == address@ && derived.bump
            == bump),
{
    match found {
        Some(derived) => same_address(&derived.address, address) && derived.bump == bump,
        None => false,
    }
}

/// The program's signing identity for one nested call: its address, and the
/// seeds that prove authority over it.
#[derive(Clone, Debug, PartialEq, Eq)]
pub struct EmitterAuthority {
    pub address: [u8; 32],
    pub signer_seeds: Vec<Vec<u8>>,
}

/// Derives the signing identity from the bump that the caller supplies,
/// without searching for another. `None` where this bump derives no address.
pub fn emitter_authority(program_id: &[u8; 32], bump: u8) -> (authority: Option<EmitterAuthority>)
    ensures
        match authority {
            Some(identity) => {
                &&& program_address(signer_seeds_spec(bump), program_id@) == Some(
                    identity.address@,
                )
                &&& identity.signer_seeds.deep_view() == signer_seeds_spec(bump)
            },
            None => program_address(signer_seeds_spec(bump), program_id@) is None,
        },
{
    let seeds = signer_seeds(bump);
    match create_program_address(&seeds, program_id) {
        Ok(address) => Some(EmitterAuthority { address, signer_seeds: seeds }),
        Err(_) => None,
    }
}

} // verus!
