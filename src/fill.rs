//! The fill resolver: what a fill of an order note produces.

use vstd::prelude::*;

use crate::asset::{asset_word, fungible_asset_valid, fungible_asset_word, FungibleAsset};
use crate::commitment::{build_recipient, recipient_of, Word};
use crate::order::{
    encode_order_inputs, maker_of, order_inputs_of, partial_of, payback_of, requested_amount_of,
    requested_faucet_of, OrderNote, OrderNoteView, ORDER_INPUTS_LEN,
};

verus! {

/// A note that pays `asset` to `recipient`.
#[derive(Clone, Copy, Debug)]
pub struct PaymentNote {
    pub recipient: Word,
    pub asset: FungibleAsset,
}

pub struct PaymentNoteView {
    pub recipient: Seq<u64>,
    pub asset: FungibleAsset,
}

impl View for PaymentNote {
    type V = PaymentNoteView;

    open spec fn view(&self) -> PaymentNoteView {
        PaymentNoteView { recipient: self.recipient@, asset: self.asset }
    }
}

/// Why a fill was refused.
#[derive(Clone, Copy, Debug, PartialEq, Eq, Structural)]
pub enum FillRejection {
    /// The note's inputs do not have the order layout, or its requested asset is not valid.
    MalformedOrder,
    /// The fill takes more of the offered asset than the order still holds.
    OverConsumption,
    /// The fill pays more of the requested asset than the order still asks for.
    OverPayment,
}

/// What a fill produces.
#[derive(Clone, Debug)]
pub enum FillOutcome {
    /// The order stays open: a payment to the maker and a remainder order note.
    PartialFill { payment: PaymentNote, remainder: OrderNote },
    /// The order is used up: a payment to the maker and no remainder.
    FullFill { payment: PaymentNote },
    /// The fill is refused and no note is produced.
    Rejected { reason: FillRejection },
}

pub enum FillOutcomeView {
    PartialFill { payment: PaymentNoteView, remainder: OrderNoteView },
    FullFill { payment: PaymentNoteView },
    Rejected { reason: FillRejection },
}

impl View for FillOutcome {
    type V = FillOutcomeView;

    open spec fn view(&self) -> FillOutcomeView {
        match self {
            FillOutcome::PartialFill { payment, remainder } => FillOutcomeView::PartialFill {
                payment: payment@,
                remainder: remainder@,
            },
            FillOutcome::FullFill { payment } => FillOutcomeView::FullFill { payment: payment@ },
            FillOutcome::Rejected { reason } => FillOutcomeView::Rejected { reason: *reason },
        }
    }
}

/// The order note is one the resolver can read.
pub open spec fn readable_order(inputs: Seq<u64>) -> bool {
    inputs.len() == ORDER_INPUTS_LEN && fungible_asset_valid(
        requested_faucet_of(inputs),
        requested_amount_of(inputs),
    )
}

/// The inputs of the remainder: the requested amount lowered by `pay_amount`, the rest kept.
pub open spec fn remainder_inputs_of(inputs: Seq<u64>, pay_amount: u64) -> Seq<u64> {
    order_inputs_of(
        payback_of(inputs),
        asset_word(requested_faucet_of(inputs), (requested_amount_of(inputs) - pay_amount) as u64),
        maker_of(inputs),
        partial_of(inputs),
    )
}

/// The remainder of `order` after a partial fill.
pub open spec fn remainder_of(order: OrderNoteView, pay_amount: u64, consume_amount: u64) -> OrderNoteView {
    let inputs = remainder_inputs_of(order.inputs, pay_amount);
    OrderNoteView {
        offered: FungibleAsset {
            faucet_id: order.offered.faucet_id,
            amount: (order.offered.amount - consume_amount) as u64,
        },
        metadata: order.metadata,
        inputs,
        recipient: recipient_of(partial_of(order.inputs), inputs),
    }
}

/// The note that pays the maker `pay_amount` of the requested asset.
pub open spec fn payment_of(order: OrderNoteView, pay_amount: u64) -> PaymentNoteView {
    PaymentNoteView {
        recipient: payback_of(order.inputs),
        asset: FungibleAsset { faucet_id: requested_faucet_of(order.inputs), amount: pay_amount },
    }
}

/// The outcome of filling `order` by paying `pay_amount` and taking `consume_amount`.
pub open spec fn fill_outcome_of(order: OrderNoteView, pay_amount: u64, consume_amount: u64) -> FillOutcomeView {
    if !readable_order(order.inputs) {
        FillOutcomeView::Rejected { reason: FillRejection::MalformedOrder }
    } else if consume_amount > order.offered.amount {
        FillOutcomeView::Rejected { reason: FillRejection::OverConsumption }
    } else if pay_amount > requested_amount_of(order.inputs) {
        FillOutcomeView::Rejected { reason: FillRejection::OverPayment }
    } else if consume_amount == order.offered.amount {
        FillOutcomeView::FullFill { payment: payment_of(order, pay_amount) }
    } else {
        FillOutcomeView::PartialFill {
            payment: payment_of(order, pay_amount),
            remainder: remainder_of(order, pay_amount, consume_amount),
        }
    }
}

/// Resolves a fill of `order` in which the filler pays `pay_amount` of the requested asset
/// and takes `consume_amount` of the offered asset.
///
/// A fill that takes more than the order holds, or pays more than it asks for, is rejected.
/// A fill that takes all that is offered closes the order. Any other fill leaves a remainder
/// note with both amounts lowered, the same partial recipient, and a recipient recomputed
/// from the new inputs.
pub fn resolve_fill(order: &OrderNote, pay_amount: u64, consume_amount: u64) -> (r: FillOutcome)
    ensures
        r@ == fill_outcome_of(order@, pay_amount, consume_amount),
{
    if order.inputs.len() != ORDER_INPUTS_LEN {
        return FillOutcome::Rejected { reason: FillRejection::MalformedOrder };
    }
    let requested_amount = order.inputs[4];
    let requested_faucet = order.inputs[7];
    if fungible_asset_word(requested_faucet, requested_amount).is_none() {
        return FillOutcome::Rejected { reason: FillRejection::MalformedOrder };
    }
    if consume_amount > order.offered.amount {
        return FillOutcome::Rejected { reason: FillRejection::OverConsumption };
    }
    if pay_amount > requested_amount {
        return FillOutcome::Rejected { reason: FillRejection::OverPayment };
    }
    let payback: Word = [order.inputs[0], order.inputs[1], order.inputs[2], order.inputs[3]];
    assert(payback@ =~= payback_of(order.inputs@));
    let payment = PaymentNote {
        recipient: payback,
        asset: FungibleAsset { faucet_id: requested_faucet, amount: pay_amount },
    };
    if consume_amount == order.offered.amount {
        return FillOutcome::FullFill { payment };
    }
    let requested_word = match fungible_asset_word(requested_faucet, requested_amount - pay_amount) {
        Some(w) => w,
        None => {
            return FillOutcome::Rejected { reason: FillRejection::MalformedOrder };
        },
    };
    let partial: Word = [order.inputs[12], order.inputs[13], order.inputs[14], order.inputs[15]];
    assert(partial@ =~= partial_of(order.inputs@));
    let inputs = encode_order_inputs(&payback, &requested_word, order.inputs[8], &partial);
    let recipient = build_recipient(&partial, inputs.as_slice());
    let remainder = OrderNote {
        offered: FungibleAsset {
            faucet_id: order.offered.faucet_id,
            amount: order.offered.amount - consume_amount,
        },
        metadata: order.metadata,
        inputs,
        recipient,
    };
    FillOutcome::PartialFill { payment, remainder }
}

/// The arguments handed with an order note to the order script for a fill:
/// `[0, 0, pay_amount, consume_amount]`.
pub fn fill_note_args(pay_amount: u64, consume_amount: u64) -> (r: Word)
    ensures
        r@ == seq![0u64, 0u64, pay_amount, consume_amount],
{
    let r: Word = [0, 0, pay_amount, consume_amount];
    assert(r@ =~= seq![0u64, 0u64, pay_amount, consume_amount]);
    r
}

} // verus!
