//! Laws that tie the order factory and the fill resolver together.

use vstd::prelude::*;

use crate::asset::asset_word;
use crate::commitment::{partial_recipient_of, recipient_of};
use crate::fill::{fill_outcome_of, remainder_inputs_of, FillOutcomeView};
use crate::order::{partial_of, requested_amount_of, requested_faucet_of, OrderNoteView};

verus! {

/// The order that remains after a sequence of partial fills, each given as
/// `(pay_amount, consume_amount)`; `None` once a fill does not leave a remainder.
pub open spec fn fills_applied(order: OrderNoteView, fills: Seq<(u64, u64)>) -> Option<
    OrderNoteView,
>
    decreases fills.len(),
{
    if fills.len() == 0 {
        Some(order)
    } else {
        match fill_outcome_of(order, fills[0].0, fills[0].1) {
            FillOutcomeView::PartialFill { remainder, .. } => fills_applied(
                remainder,
                fills.drop_first(),
            ),
            _ => None,
        }
    }
}

/// The fill resolver is a function of its inputs: equal order notes filled with equal
/// amounts give equal outcomes.
pub proof fn lemma_fill_deterministic(
    first: OrderNoteView,
    second: OrderNoteView,
    pay_amount: u64,
    consume_amount: u64,
)
    requires
        first == second,
    ensures
        fill_outcome_of(first, pay_amount, consume_amount) == fill_outcome_of(
            second,
            pay_amount,
            consume_amount,
        ),
{
}

/// The partial recipient is a function of the script commitment and the serial number.
pub proof fn lemma_partial_recipient_deterministic(
    script_commitment: Seq<u64>,
    serial_num: Seq<u64>,
    other_script_commitment: Seq<u64>,
    other_serial_num: Seq<u64>,
)
    requires
        script_commitment == other_script_commitment,
        serial_num == other_serial_num,
    ensures
        partial_recipient_of(script_commitment, serial_num) == partial_recipient_of(
            other_script_commitment,
            other_serial_num,
        ),
{
}

proof fn lemma_remainder_inputs(inputs: Seq<u64>, pay_amount: u64)
    requires
        inputs.len() == 16,
    ensures
        ({
            let r = remainder_inputs_of(inputs, pay_amount);
            &&& r.len() == 16
            &&& partial_of(r) == partial_of(inputs)
            &&& r.subrange(0, 4) == inputs.subrange(0, 4)
            &&& r.subrange(4, 8) == asset_word(
                requested_faucet_of(inputs),
                (requested_amount_of(inputs) - pay_amount) as u64,
            )
            &&& requested_faucet_of(r) == requested_faucet_of(inputs)
            &&& requested_amount_of(r) == (requested_amount_of(inputs) - pay_amount) as u64
            &&& r[8] == inputs[8] && r[9] == 0 && r[10] == 0 && r[11] == 0
        }),
{
    let r = remainder_inputs_of(inputs, pay_amount);
    assert(partial_of(r) =~= partial_of(inputs));
    assert(r.subrange(0, 4) =~= inputs.subrange(0, 4));
    assert(r.subrange(4, 8) =~= asset_word(
        requested_faucet_of(inputs),
        (requested_amount_of(inputs) - pay_amount) as u64,
    ));
}

/// Every remainder of an order created with `(script_commitment, serial_num)` carries, after
/// any sequence of partial fills, the partial recipient
/// `build_partial_recipient(script_commitment, serial_num)`.
pub proof fn lemma_partial_recipient_fill_invariant(
    order: OrderNoteView,
    script_commitment: Seq<u64>,
    serial_num: Seq<u64>,
    fills: Seq<(u64, u64)>,
)
    requires
        partial_of(order.inputs) == partial_recipient_of(script_commitment, serial_num),
    ensures
        fills_applied(order, fills) matches Some(last) ==> partial_of(last.inputs)
            == partial_recipient_of(script_commitment, serial_num),
    decreases fills.len(),
{
    if fills.len() > 0 {
        let outcome = fill_outcome_of(order, fills[0].0, fills[0].1);
        if let FillOutcomeView::PartialFill { remainder, .. } = outcome {
            lemma_remainder_inputs(order.inputs, fills[0].0);
            lemma_partial_recipient_fill_invariant(
                remainder,
                script_commitment,
                serial_num,
                fills.drop_first(),
            );
        }
    }
}

/// A partial fill lowers the offered amount by `consume_amount` and the requested amount by
/// `pay_amount`, and both stay non-negative; a fill that takes or pays more than the order
/// holds is rejected and produces no note.
pub proof fn lemma_conservation(order: OrderNoteView, pay_amount: u64, consume_amount: u64)
    requires
        order.wf(),
    ensures
        fill_outcome_of(order, pay_amount, consume_amount) matches FillOutcomeView::PartialFill {
            remainder,
            ..
        } ==> {
            &&& remainder.offered.amount == order.offered.amount - consume_amount
            &&& requested_amount_of(remainder.inputs) == requested_amount_of(order.inputs)
                - pay_amount
            &&& order.offered.amount - consume_amount > 0
            &&& requested_amount_of(order.inputs) - pay_amount >= 0
        },
        consume_amount > order.offered.amount || pay_amount > requested_amount_of(order.inputs)
            ==> fill_outcome_of(order, pay_amount, consume_amount) is Rejected,
{
    lemma_remainder_inputs(order.inputs, pay_amount);
}

/// A fill that takes all that is offered and pays all that is asked for produces exactly
/// one payment note, of `pay_amount`, and no remainder.
pub proof fn lemma_full_fill(order: OrderNoteView, pay_amount: u64, consume_amount: u64)
    requires
        order.wf(),
        consume_amount == order.offered.amount,
        pay_amount == requested_amount_of(order.inputs),
    ensures
        fill_outcome_of(order, pay_amount, consume_amount) matches FillOutcomeView::FullFill {
            payment,
        } && payment.asset.amount == pay_amount && payment.recipient == order.inputs.subrange(
            0,
            4,
        ),
{
}

/// The remainder of a well-formed order is well formed.
pub proof fn lemma_remainder_wf(order: OrderNoteView, pay_amount: u64, consume_amount: u64)
    requires
        order.wf(),
    ensures
        fill_outcome_of(order, pay_amount, consume_amount) matches FillOutcomeView::PartialFill {
            remainder,
            ..
        } ==> remainder.wf(),
{
    lemma_remainder_inputs(order.inputs, pay_amount);
}

/// Round trip: for an order and each remainder that fills leave of it, recomputing the
/// recipient from the note's own inputs and the partial recipient they hold gives the
/// note's recipient.
pub proof fn lemma_recipient_round_trip(order: OrderNoteView, fills: Seq<(u64, u64)>)
    requires
        order.wf(),
    ensures
        fills_applied(order, fills) matches Some(last) ==> last.wf() && last.recipient
            == recipient_of(partial_of(last.inputs), last.inputs),
    decreases fills.len(),
{
    if fills.len() > 0 {
        let outcome = fill_outcome_of(order, fills[0].0, fills[0].1);
        lemma_remainder_wf(order, fills[0].0, fills[0].1);
        if let FillOutcomeView::PartialFill { remainder, .. } = outcome {
            lemma_recipient_round_trip(remainder, fills.drop_first());
        }
    }
}

} // verus!
