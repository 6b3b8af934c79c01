//! Account identifiers and fungible assets as plain values, checked and encoded by
//! `miden_objects`.

use vstd::prelude::*;

use miden_objects::accounts::AccountId;
use miden_objects::notes::{NoteExecutionMode, NoteTag};
use miden_objects::Felt;

use crate::commitment::{Word, FIELD_MODULUS};

verus! {

/// The largest amount a fungible asset may carry: `2^63 - 1`.
pub const MAX_AMOUNT: u64 = 0x7fff_ffff_ffff_ffff;

/// Number of one bits in `v`.
pub open spec fn ones(v: u64) -> nat
    decreases v,
{
    if v == 0 {
        0
    } else {
        (v % 2) as nat + ones(v / 2)
    }
}

/// An account id is a canonical field element with at least five one bits whose two
/// storage bits (63..62) say on-chain (`0b00`) or off-chain (`0b10`).
pub open spec fn is_account_id(v: u64) -> bool {
    &&& v < FIELD_MODULUS
    &&& ones(v) >= 5
    &&& (v >> 62u64) == 0 || (v >> 62u64) == 2
}

/// A fungible faucet id is an account id whose type bits (61..60) are `0b10`.
pub open spec fn is_fungible_faucet_id(v: u64) -> bool {
    is_account_id(v) && (v >> 60u64) & 3 == 2
}

/// What a fungible asset must satisfy to be built.
pub open spec fn fungible_asset_valid(faucet_id: u64, amount: u64) -> bool {
    is_fungible_faucet_id(faucet_id) && amount <= MAX_AMOUNT
}

/// The word that describes a fungible asset: `[amount, 0, 0, faucet_id]`.
pub open spec fn asset_word(faucet_id: u64, amount: u64) -> Seq<u64> {
    seq![amount, 0u64, 0u64, faucet_id]
}

/// The tag of a note meant for local execution by `account_id`: its 16 high bits moved to
/// bits 29..14 of the tag.
pub open spec fn local_tag_of(account_id: u64) -> u32 {
    ((account_id & 0xffff_0000_0000_0000u64) >> 34u64) as u32
}

/// An amount of the fungible asset issued by the faucet `faucet_id`.
#[derive(Clone, Copy, Debug, PartialEq, Eq, Structural)]
pub struct FungibleAsset {
    pub faucet_id: u64,
    pub amount: u64,
}

impl FungibleAsset {
    pub open spec fn is_valid(&self) -> bool {
        fungible_asset_valid(self.faucet_id, self.amount)
    }

    pub fn new(faucet_id: u64, amount: u64) -> (r: FungibleAsset)
        ensures
            r.faucet_id == faucet_id,
            r.amount == amount,
    {
        FungibleAsset { faucet_id, amount }
    }

    /// The asset's descriptor word, or `None` where the asset is not valid.
    pub fn to_word(&self) -> (r: Option<Word>)
        ensures
            r is Some <==> self.is_valid(),
            r matches Some(w) ==> w@ == asset_word(self.faucet_id, self.amount),
    {
        fungible_asset_word(self.faucet_id, self.amount)
    }
}

/// Relies on `AccountId::try_from(u64)`, which accepts exactly the values of
/// `is_account_id`, on `FungibleAsset::new`, which then asks for a fungible faucet type and
/// an amount of at most `MAX_AMOUNT`, and on `Word::from(FungibleAsset)`, which lays the asset
/// out as `[amount, 0, 0, faucet_id]` (all of miden-objects).
#[verifier::external_body]
pub(crate) fn fungible_asset_word(faucet_id: u64, amount: u64) -> (r: Option<Word>)
    ensures
        r is Some <==> fungible_asset_valid(faucet_id, amount),
        r matches Some(w) ==> w@ == asset_word(faucet_id, amount),
{
    let id = AccountId::try_from(faucet_id).ok()?;
    let asset = miden_objects::assets::FungibleAsset::new(id, amount).ok()?;
    let w: miden_objects::Word = asset.into();
    Some(w.map(|e| e.as_int()))
}

/// Relies on `AccountId::try_from(u64)` of miden-objects: it accepts a value exactly when it
/// is canonical, has at least five one bits and valid storage bits.
#[verifier::external_body]
pub(crate) fn is_valid_account_id(v: u64) -> (r: bool)
    ensures
        r == is_account_id(v),
{
    AccountId::try_from(v).is_ok()
}

/// Relies on `NoteTag::from_account_id` of miden-objects in local execution mode, which
/// returns `Ok` with the tag `((id & 0xffff000000000000) >> 34) as u32` for every account id.
#[verifier::external_body]
pub(crate) fn local_note_tag(account_id: u64) -> (r: Option<u32>)
    requires
        account_id < FIELD_MODULUS,
    ensures
        r == Some(local_tag_of(account_id)),
{
    let id = AccountId::new_unchecked(Felt::new(account_id));
    NoteTag::from_account_id(id, NoteExecutionMode::Local).ok().map(|t| t.inner())
}

} // verus!
