//! Commitment primitives: the two-to-one merge and the sequential hash of field elements,
//! and the recipient derivations built from them.

use vstd::prelude::*;

use miden_objects::{Digest, Felt, Hasher};

verus! {

/// A word: four field elements.
pub type Word = [u64; 4];

/// The order of the field in which all elements live.
pub const FIELD_MODULUS: u64 = 0xffff_ffff_0000_0001;

/// What the RPO merge of two words yields.
pub uninterp spec fn rpo_merge(a: Seq<u64>, b: Seq<u64>) -> Seq<u64>;

/// What the RPO sequential hash of a sequence of field elements yields.
pub uninterp spec fn rpo_hash(elements: Seq<u64>) -> Seq<u64>;

pub open spec fn zero_word() -> Seq<u64> {
    seq![0u64, 0u64, 0u64, 0u64]
}

/// `merge(merge(serial, 0), script)`: the part of a recipient that does not depend on the
/// note's inputs.
pub open spec fn partial_recipient_of(script_commitment: Seq<u64>, serial_num: Seq<u64>) -> Seq<
    u64,
> {
    rpo_merge(rpo_merge(serial_num, zero_word()), script_commitment)
}

/// `merge(partial, hash(inputs))`: the full recipient of a note.
pub open spec fn recipient_of(partial_recipient: Seq<u64>, inputs: Seq<u64>) -> Seq<u64> {
    rpo_merge(partial_recipient, rpo_hash(inputs))
}

/// Relies on `Rpo256::merge` of miden-crypto (re-exported as `miden_objects::Hasher`): a
/// deterministic function of the two words, whose result is again a word.
#[verifier::external_body]
pub(crate) fn merge(a: &Word, b: &Word) -> (r: Word)
    ensures
        r@ == rpo_merge(a@, b@),
{
    let a = Digest::new(a.map(Felt::new));
    let b = Digest::new(b.map(Felt::new));
    let d: [Felt; 4] = Hasher::merge(&[a, b]).into();
    d.map(|e| e.as_int())
}

/// Relies on `Rpo256::hash_elements` of miden-crypto: a deterministic function of the
/// sequence of elements, whose result is a word.
#[verifier::external_body]
pub(crate) fn hash_elements(elements: &[u64]) -> (r: Word)
    ensures
        r@ == rpo_hash(elements@),
{
    let felts: Vec<Felt> = elements.iter().map(|e| Felt::new(*e)).collect();
    let d: [Felt; 4] = Hasher::hash_elements(&felts).into();
    d.map(|e| e.as_int())
}

/// The partial recipient of a note with the given script and serial number:
/// `merge(merge(serial_num, zero_word), script_commitment)`. It stays the same for every
/// remainder of an order, since they all reuse the order's serial number and script.
pub fn build_partial_recipient(script_commitment: &Word, serial_num: &Word) -> (r: Word)
    ensures
        r@ == partial_recipient_of(script_commitment@, serial_num@),
{
    let zero: Word = [0, 0, 0, 0];
    assert(zero@ =~= zero_word());
    let serial_hash = merge(serial_num, &zero);
    merge(&serial_hash, script_commitment)
}

/// The full recipient `merge(partial_recipient, hash(inputs))`.
pub fn build_recipient(partial_recipient: &Word, inputs: &[u64]) -> (r: Word)
    ensures
        r@ == recipient_of(partial_recipient@, inputs@),
{
    let inputs_hash = hash_elements(inputs);
    merge(partial_recipient, &inputs_hash)
}

} // verus!
