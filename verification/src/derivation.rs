//! Deterministic derivation of a record's storage address.
//!
//! The address of a record is computed from its logical identity alone: a
//! fixed domain-separation tag, the auditor's raw bytes, and the SHA-256
//! digest of the program name's UTF-8 bytes form the seed list handed to the
//! substrate's canonical address derivation, which also yields a salt byte
//! (`bump`).  Identical inputs always yield the identical address, so any
//! party can locate a record from `(auditor, program_name)` without an index.

use vstd::prelude::*;
use vstd::utf8::encode_utf8;

verus! {

/// The SHA-256 digest of a byte sequence.
pub uninterp spec fn sha256_of(bytes: Seq<u8>) -> Seq<u8>;

/// The address and salt byte that the substrate's canonical derivation yields
/// for a seed list under a program id, or `None` when no salt byte lands the
/// result in the valid address space.
pub uninterp spec fn pda_of(seeds: Seq<Seq<u8>>, program_id: Seq<u8>) -> Option<(Seq<u8>, u8)>;

/// Relies on `anchor_lang::solana_program::hash::hash`: the SHA-256 digest
/// of the input bytes, 32 bytes long and a function of the input alone.
#[verifier::external_body]
fn sha256(bytes: &[u8]) -> (r: [u8; 32])
    ensures
        r@ == sha256_of(bytes@),
{
    anchor_lang::solana_program::hash::hash(bytes).to_bytes()
}

/// Relies on `Pubkey::try_find_program_address` (solana-pubkey): the derived
/// address and salt depend on the seeds and the program id alone, and `None`
/// comes back only when no salt byte yields a valid address.
#[verifier::external_body]
fn find_address(tag: &[u8; 5], auditor: &[u8; 32], digest: &[u8; 32], program_id: &[u8; 32]) -> (r:
    Option<([u8; 32], u8)>)
    ensures
        (match r {
            Some(p) => Some((p.0@, p.1)),
            None => None::<(Seq<u8>, u8)>,
        }) == pda_of(seq![tag@, auditor@, digest@], program_id@),
{
    let pk = anchor_lang::solana_program::pubkey::Pubkey::new_from_array(*program_id);
    anchor_lang::solana_program::pubkey::Pubkey::try_find_program_address(
        &[tag, auditor, digest],
        &pk,
    ).map(|p| (p.0.to_bytes(), p.1))
}

/// Domain-separation tag that begins every record's seed list: the bytes of
/// `"audit"`.
pub open spec fn spec_audit_tag() -> Seq<u8> {
    seq![97u8, 117u8, 100u8, 105u8, 116u8]
}

/// Seed list of a record: the tag, the auditor's raw bytes, and the SHA-256
/// digest of the program name's UTF-8 bytes.  Hashing the name keeps every
/// seed at a fixed size whatever the name's length.
pub open spec fn audit_seeds(auditor: Seq<u8>, program_name: Seq<char>) -> Seq<Seq<u8>> {
    seq![spec_audit_tag(), auditor, sha256_of(encode_utf8(program_name))]
}

/// The storage address and salt derived for the pair `(auditor,
/// program_name)` under `program_id`.
pub open spec fn spec_record_address(
    auditor: Seq<u8>,
    program_name: Seq<char>,
    program_id: Seq<u8>,
) -> Option<(Seq<u8>, u8)> {
    pda_of(audit_seeds(auditor, program_name), program_id)
}

/// A record's storage address, with the salt byte that made it valid.
#[derive(Clone, Copy)]
pub struct RecordAddress {
    pub id: [u8; 32],
    pub bump: u8,
}

impl View for RecordAddress {
    type V = (Seq<u8>, u8);

    open spec fn view(&self) -> (Seq<u8>, u8) {
        (self.id@, self.bump)
    }
}

/// Compute the storage address of the record for `(auditor, program_name)`
/// under `program_id`.  The result is a function of the three inputs alone.
pub fn derive_record_address(
    auditor: &[u8; 32],
    program_name: &str,
    program_id: &[u8; 32],
) -> (r: Option<RecordAddress>)
    ensures
        (match r {
            Some(a) => Some(a@),
            None => None::<(Seq<u8>, u8)>,
        }) == spec_record_address(auditor@, program_name@, program_id@),
{
    let digest = sha256(program_name.as_bytes());
    let tag: [u8; 5] = [97u8, 117u8, 100u8, 105u8, 116u8];
    proof {
        assert(tag@ =~= spec_audit_tag());
    }
    match find_address(&tag, auditor, &digest, program_id) {
        Some(p) => Some(RecordAddress { id: p.0, bump: p.1 }),
        None => None,
    }
}

/// Deriving the address for one pair twice yields identical results: the
/// derived address is a function of `(auditor, program_name, program_id)`
/// alone, so two derivations on equal inputs agree.
pub proof fn lemma_derivation_deterministic(
    first: Option<(Seq<u8>, u8)>,
    second: Option<(Seq<u8>, u8)>,
    auditor: Seq<u8>,
    program_name: Seq<char>,
    program_id: Seq<u8>,
)
    requires
        first == spec_record_address(auditor, program_name, program_id),
        second == spec_record_address(auditor, program_name, program_id),
    ensures
        first == second,
{
}

} // verus!
