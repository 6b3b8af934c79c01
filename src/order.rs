//! The order note: its fixed input layout and the factory that places an order.

use vstd::prelude::*;

use crate::asset::{
    asset_word, fungible_asset_valid, is_account_id, is_valid_account_id, local_note_tag,
    local_tag_of, FungibleAsset,
};
use crate::commitment::{
    build_partial_recipient, build_recipient, partial_recipient_of, recipient_of, Word,
};

verus! {

/// Number of field elements in an order's inputs.
pub const ORDER_INPUTS_LEN: usize = 16;

/// The order inputs: `[payback recipient (4) | requested asset (4) | maker, 0, 0, 0 |
/// partial recipient (4)]`.
pub open spec fn order_inputs_of(
    payback_recipient: Seq<u64>,
    requested: Seq<u64>,
    maker: u64,
    partial_recipient: Seq<u64>,
) -> Seq<u64> {
    payback_recipient + requested + seq![maker, 0u64, 0u64, 0u64] + partial_recipient
}

/// The payback recipient held by order inputs.
pub open spec fn payback_of(inputs: Seq<u64>) -> Seq<u64> {
    inputs.subrange(0, 4)
}

/// The amount of the requested asset still to be paid.
pub open spec fn requested_amount_of(inputs: Seq<u64>) -> u64 {
    inputs[4]
}

/// The faucet that issues the requested asset.
pub open spec fn requested_faucet_of(inputs: Seq<u64>) -> u64 {
    inputs[7]
}

/// The maker's account id.
pub open spec fn maker_of(inputs: Seq<u64>) -> u64 {
    inputs[8]
}

/// The partial recipient held by order inputs.
pub open spec fn partial_of(inputs: Seq<u64>) -> Seq<u64> {
    inputs.subrange(12, 16)
}

/// Public metadata of a note: who sent it, how it is routed, and a free field.
#[derive(Clone, Copy, Debug, PartialEq, Eq, Structural)]
pub struct NoteMeta {
    pub sender: u64,
    pub tag: u32,
    pub aux: u64,
}

/// A limit order note: the offered asset it holds, its metadata, its inputs and the
/// recipient that commits to them.
#[derive(Clone, Debug)]
pub struct OrderNote {
    pub offered: FungibleAsset,
    pub metadata: NoteMeta,
    pub inputs: Vec<u64>,
    pub recipient: Word,
}

impl OrderNote {
    /// The amount of the offered asset the order still holds.
    pub fn offered_amount_remaining(&self) -> (r: u64)
        ensures
            r == self.offered.amount,
    {
        self.offered.amount
    }

    /// The amount of the requested asset the order still asks for, or `None` where the
    /// inputs do not have the order layout.
    pub fn requested_amount_remaining(&self) -> (r: Option<u64>)
        ensures
            r == (if self.inputs@.len() == ORDER_INPUTS_LEN {
                Some(requested_amount_of(self.inputs@))
            } else {
                None::<u64>
            }),
    {
        if self.inputs.len() == ORDER_INPUTS_LEN {
            Some(self.inputs[4])
        } else {
            None
        }
    }
}

pub struct OrderNoteView {
    pub offered: FungibleAsset,
    pub metadata: NoteMeta,
    pub inputs: Seq<u64>,
    pub recipient: Seq<u64>,
}

impl View for OrderNote {
    type V = OrderNoteView;

    open spec fn view(&self) -> OrderNoteView {
        OrderNoteView {
            offered: self.offered,
            metadata: self.metadata,
            inputs: self.inputs@,
            recipient: self.recipient@,
        }
    }
}

impl OrderNoteView {
    /// The inputs have the order layout, the assets are valid, and the recipient commits to
    /// the inputs under the partial recipient they hold.
    pub open spec fn wf(self) -> bool {
        &&& self.inputs.len() == ORDER_INPUTS_LEN
        &&& self.inputs.subrange(4, 8) == asset_word(
            requested_faucet_of(self.inputs),
            requested_amount_of(self.inputs),
        )
        &&& fungible_asset_valid(requested_faucet_of(self.inputs), requested_amount_of(self.inputs))
        &&& self.inputs[9] == 0 && self.inputs[10] == 0 && self.inputs[11] == 0
        &&& self.offered.is_valid()
        &&& self.recipient == recipient_of(partial_of(self.inputs), self.inputs)
    }
}

/// Why an order could not be placed.
#[derive(Clone, Copy, Debug, PartialEq, Eq, Structural)]
pub enum OrderError {
    /// The maker is not a valid account id.
    MalformedMaker,
    /// An asset is not a valid fungible asset with a nonzero amount.
    MalformedAsset,
}

/// An asset an order may offer or request.
pub open spec fn order_asset_ok(a: FungibleAsset) -> bool {
    a.is_valid() && a.amount > 0
}

/// Lays out order inputs.
pub fn encode_order_inputs(
    payback_recipient: &Word,
    requested: &Word,
    maker: u64,
    partial_recipient: &Word,
) -> (r: Vec<u64>)
    ensures
        r@ == order_inputs_of(payback_recipient@, requested@, maker, partial_recipient@),
{
    let mut v: Vec<u64> = Vec::new();
    v.push(payback_recipient[0]);
    v.push(payback_recipient[1]);
    v.push(payback_recipient[2]);
    v.push(payback_recipient[3]);
    v.push(requested[0]);
    v.push(requested[1]);
    v.push(requested[2]);
    v.push(requested[3]);
    v.push(maker);
    v.push(0);
    v.push(0);
    v.push(0);
    v.push(partial_recipient[0]);
    v.push(partial_recipient[1]);
    v.push(partial_recipient[2]);
    v.push(partial_recipient[3]);
    assert(v@ =~= order_inputs_of(payback_recipient@, requested@, maker, partial_recipient@));
    v
}

/// Places an order of `maker` offering `offered_asset` for `requested_asset`.
///
/// `script_commitment` identifies the order script, `order_serial` is the order's fresh
/// serial number, `payback_recipient` the recipient of the notes that pay the maker, and
/// `aux` the free metadata field. The inputs follow the order layout and the recipient is
/// `merge(partial, hash(inputs))` with `partial = build_partial_recipient(script_commitment,
/// order_serial)`.
pub fn create_limit_swap_note(
    maker: u64,
    offered_asset: FungibleAsset,
    requested_asset: FungibleAsset,
    script_commitment: &Word,
    order_serial: &Word,
    payback_recipient: &Word,
    aux: u64,
) -> (r: Result<OrderNote, OrderError>)
    ensures
        r matches Err(OrderError::MalformedMaker) <==> !is_account_id(maker),
        r matches Err(OrderError::MalformedAsset) <==> is_account_id(maker) && !(order_asset_ok(
            offered_asset,
        ) && order_asset_ok(requested_asset)),
        r matches Ok(note) ==> {
            let partial = partial_recipient_of(script_commitment@, order_serial@);
            &&& note.offered == offered_asset
            &&& note.metadata == (NoteMeta { sender: maker, tag: local_tag_of(maker), aux })
            &&& note.inputs@ == order_inputs_of(
                payback_recipient@,
                asset_word(requested_asset.faucet_id, requested_asset.amount),
                maker,
                partial,
            )
            &&& note.recipient@ == recipient_of(partial, note.inputs@)
            &&& note@.wf()
        },
{
    if !is_valid_account_id(maker) {
        return Err(OrderError::MalformedMaker);
    }
    if offered_asset.amount == 0 || requested_asset.amount == 0 {
        return Err(OrderError::MalformedAsset);
    }
    if offered_asset.to_word().is_none() {
        return Err(OrderError::MalformedAsset);
    }
    let requested_word = match requested_asset.to_word() {
        Some(w) => w,
        None => {
            return Err(OrderError::MalformedAsset);
        },
    };
    let tag = match local_note_tag(maker) {
        Some(t) => t,
        None => {
            return Err(OrderError::MalformedMaker);
        },
    };
    let partial = build_partial_recipient(script_commitment, order_serial);
    let inputs = encode_order_inputs(payback_recipient, &requested_word, maker, &partial);
    let recipient = build_recipient(&partial, inputs.as_slice());
    let note = OrderNote {
        offered: offered_asset,
        metadata: NoteMeta { sender: maker, tag, aux },
        inputs,
        recipient,
    };
    assert(partial_of(note.inputs@) =~= partial@);
    assert(note.inputs@.subrange(4, 8) =~= requested_word@);
    Ok(note)
}

} // verus!
