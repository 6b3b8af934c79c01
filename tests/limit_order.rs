use keom_clob::asset::FungibleAsset;
use keom_clob::commitment::{build_partial_recipient, build_recipient, Word};
use keom_clob::fill::{fill_note_args, resolve_fill, FillOutcome, FillRejection};
use keom_clob::order::{create_limit_swap_note, OrderError, OrderNote};
use keom_clob::settlement::{contains_transaction, poll_decision, PollDecision};

use miden_objects::assembly::{Assembler, ProgramAst};
use miden_objects::notes::{NoteInputs, NoteRecipient, NoteScript};
use miden_objects::{Digest, Felt, Hasher};

const MAKER: u64 = 0x0C00_0000_0000_00FF;
const FAUCET_A: u64 = 0x2000_0000_0000_00FF;
const FAUCET_B: u64 = 0x2000_0000_0000_0F0F;
const SCRIPT: Word = [101, 102, 103, 104];
const SERIAL: Word = [1, 2, 3, 4];
const PAYBACK: Word = [11, 12, 13, 14];

fn felts(w: &Word) -> [Felt; 4] {
    w.map(Felt::new)
}

fn ints(d: Digest) -> Word {
    let f: [Felt; 4] = d.into();
    f.map(|e| e.as_int())
}

fn place_order(offered: u64, requested: u64) -> OrderNote {
    create_limit_swap_note(
        MAKER,
        FungibleAsset::new(FAUCET_A, offered),
        FungibleAsset::new(FAUCET_B, requested),
        &SCRIPT,
        &SERIAL,
        &PAYBACK,
        7,
    )
    .unwrap()
}

fn rpo_merge(a: &Word, b: &Word) -> Word {
    ints(Hasher::merge(&[Digest::new(felts(a)), Digest::new(felts(b))]))
}

#[test]
fn recipient_is_merge_of_partial_and_inputs_hash() {
    let partial: Word = [1, 2, 3, 4];
    let inputs: Vec<u64> = vec![110, 120];
    let r = build_recipient(&partial, &inputs);
    let f: Vec<Felt> = inputs.iter().map(|e| Felt::new(*e)).collect();
    let inputs_hash = ints(Hasher::hash_elements(&f));
    assert_ne!(inputs_hash, [110, 120, 0, 0]);
    assert_eq!(r, rpo_merge(&partial, &inputs_hash));
    assert_ne!(r, partial);
    assert_ne!(r, inputs_hash);
}

#[test]
fn partial_recipient_is_two_merges() {
    let p = build_partial_recipient(&SCRIPT, &SERIAL);
    let expected = rpo_merge(&rpo_merge(&SERIAL, &[0, 0, 0, 0]), &SCRIPT);
    assert_eq!(p, expected);
    assert_ne!(p, SCRIPT);
    assert_ne!(p, SERIAL);
    assert_eq!(p, build_partial_recipient(&SCRIPT, &SERIAL));
    assert_ne!(p, build_partial_recipient(&SCRIPT, &[1, 2, 3, 5]));
    assert_ne!(p, build_partial_recipient(&[101, 102, 103, 105], &SERIAL));
}

#[test]
fn order_inputs_follow_the_layout() {
    let note = place_order(100, 50);
    let partial = build_partial_recipient(&SCRIPT, &SERIAL);
    let expected: Vec<u64> = vec![
        11, 12, 13, 14, 50, 0, 0, FAUCET_B, MAKER, 0, 0, 0, partial[0], partial[1], partial[2],
        partial[3],
    ];
    assert_eq!(note.inputs, expected);
    assert_eq!(note.recipient, build_recipient(&partial, &expected));
    assert_eq!(note.offered, FungibleAsset::new(FAUCET_A, 100));
    assert_eq!(note.metadata.sender, MAKER);
    assert_eq!(note.metadata.tag, 0x0300_0000);
    assert_eq!(note.metadata.aux, 7);
}

#[test]
fn recipient_matches_the_note_recipient_of_miden() {
    let ast = ProgramAst::parse("begin push.1 drop end").unwrap();
    let (script, _) = NoteScript::new(ast, &Assembler::default()).unwrap();
    let commitment = ints(script.hash());
    let note = create_limit_swap_note(
        MAKER,
        FungibleAsset::new(FAUCET_A, 100),
        FungibleAsset::new(FAUCET_B, 50),
        &commitment,
        &SERIAL,
        &PAYBACK,
        0,
    )
    .unwrap();
    let inputs: Vec<Felt> = note.inputs.iter().map(|e| Felt::new(*e)).collect();
    let recipient = NoteRecipient::new(felts(&SERIAL), script.clone(), NoteInputs::new(inputs).unwrap());
    assert_eq!(note.recipient, ints(recipient.digest()));

    // the remainder, too, is addressed as miden addresses a note with its inputs
    let remainder = match resolve_fill(&note, 25, 50) {
        FillOutcome::PartialFill { remainder, .. } => remainder,
        other => panic!("expected a partial fill, got {:?}", other),
    };
    let inputs: Vec<Felt> = remainder.inputs.iter().map(|e| Felt::new(*e)).collect();
    let recipient = NoteRecipient::new(felts(&SERIAL), script, NoteInputs::new(inputs).unwrap());
    assert_eq!(remainder.recipient, ints(recipient.digest()));
}

#[test]
fn partial_then_full_fill() {
    let order = place_order(100, 50);
    let partial = build_partial_recipient(&SCRIPT, &SERIAL);
    let (payment, remainder) = match resolve_fill(&order, 25, 50) {
        FillOutcome::PartialFill { payment, remainder } => (payment, remainder),
        other => panic!("expected a partial fill, got {:?}", other),
    };
    assert_eq!(payment.recipient, PAYBACK);
    assert_eq!(payment.asset, FungibleAsset::new(FAUCET_B, 25));
    assert_eq!(remainder.offered, FungibleAsset::new(FAUCET_A, 50));
    assert_eq!(remainder.inputs[4], 25);
    assert_eq!(remainder.inputs[7], FAUCET_B);
    assert_eq!(&remainder.inputs[12..16], &partial[..]);
    assert_eq!(remainder.recipient, build_recipient(&partial, &remainder.inputs));
    assert_ne!(remainder.recipient, order.recipient);
    assert_eq!(remainder.metadata, order.metadata);

    match resolve_fill(&remainder, 25, 50) {
        FillOutcome::FullFill { payment } => {
            assert_eq!(payment.recipient, PAYBACK);
            assert_eq!(payment.asset, FungibleAsset::new(FAUCET_B, 25));
        },
        other => panic!("expected a full fill, got {:?}", other),
    }
}

#[test]
fn fill_is_deterministic() {
    let order = place_order(100, 50);
    let first = resolve_fill(&order, 10, 30);
    let second = resolve_fill(&order, 10, 30);
    match (first, second) {
        (
            FillOutcome::PartialFill { payment: p1, remainder: r1 },
            FillOutcome::PartialFill { payment: p2, remainder: r2 },
        ) => {
            assert_eq!(p1.recipient, p2.recipient);
            assert_eq!(p1.asset, p2.asset);
            assert_eq!(r1.inputs, r2.inputs);
            assert_eq!(r1.recipient, r2.recipient);
            assert_eq!(r1.offered, FungibleAsset::new(FAUCET_A, 70));
            assert_eq!(r1.inputs[4], 40);
        },
        other => panic!("expected two partial fills, got {:?}", other),
    }
}

#[test]
fn partial_recipient_survives_many_fills() {
    let partial = build_partial_recipient(&SCRIPT, &SERIAL);
    let mut order = place_order(100, 50);
    for _ in 0..4 {
        order = match resolve_fill(&order, 5, 20) {
            FillOutcome::PartialFill { remainder, .. } => remainder,
            other => panic!("expected a partial fill, got {:?}", other),
        };
        assert_eq!(&order.inputs[12..16], &partial[..]);
        assert_eq!(order.recipient, build_recipient(&partial, &order.inputs));
    }
    assert_eq!(order.offered_amount_remaining(), 20);
    assert_eq!(order.requested_amount_remaining(), Some(30));
}

#[test]
fn over_consumption_is_rejected() {
    let order = place_order(100, 50);
    let before = order.clone();
    match resolve_fill(&order, 25, 150) {
        FillOutcome::Rejected { reason } => assert_eq!(reason, FillRejection::OverConsumption),
        other => panic!("expected a rejection, got {:?}", other),
    }
    assert_eq!(order.inputs, before.inputs);
    assert_eq!(order.recipient, before.recipient);
    assert!(matches!(resolve_fill(&order, 25, 50), FillOutcome::PartialFill { .. }));
}

#[test]
fn over_payment_is_rejected() {
    let order = place_order(100, 50);
    match resolve_fill(&order, 51, 10) {
        FillOutcome::Rejected { reason } => assert_eq!(reason, FillRejection::OverPayment),
        other => panic!("expected a rejection, got {:?}", other),
    }
}

#[test]
fn full_fill_when_both_amounts_are_used_up() {
    let order = place_order(100, 50);
    match resolve_fill(&order, 50, 100) {
        FillOutcome::FullFill { payment } => {
            assert_eq!(payment.asset, FungibleAsset::new(FAUCET_B, 50));
        },
        other => panic!("expected a full fill, got {:?}", other),
    }
}

#[test]
fn malformed_order_is_rejected() {
    let mut order = place_order(100, 50);
    order.inputs.pop();
    assert_eq!(order.requested_amount_remaining(), None);
    match resolve_fill(&order, 1, 1) {
        FillOutcome::Rejected { reason } => assert_eq!(reason, FillRejection::MalformedOrder),
        other => panic!("expected a rejection, got {:?}", other),
    }
    let mut order = place_order(100, 50);
    order.inputs[7] = MAKER;
    match resolve_fill(&order, 1, 1) {
        FillOutcome::Rejected { reason } => assert_eq!(reason, FillRejection::MalformedOrder),
        other => panic!("expected a rejection, got {:?}", other),
    }
}

#[test]
fn order_errors() {
    let bad_maker = create_limit_swap_note(
        3,
        FungibleAsset::new(FAUCET_A, 100),
        FungibleAsset::new(FAUCET_B, 50),
        &SCRIPT,
        &SERIAL,
        &PAYBACK,
        0,
    );
    assert_eq!(bad_maker.unwrap_err(), OrderError::MalformedMaker);
    for maker in [u64::MAX, 0x4000_0000_0000_00FF] {
        let r = create_limit_swap_note(
            maker,
            FungibleAsset::new(FAUCET_A, 100),
            FungibleAsset::new(FAUCET_B, 50),
            &SCRIPT,
            &SERIAL,
            &PAYBACK,
            0,
        );
        assert_eq!(r.unwrap_err(), OrderError::MalformedMaker);
    }
    let zero_amount = create_limit_swap_note(
        MAKER,
        FungibleAsset::new(FAUCET_A, 0),
        FungibleAsset::new(FAUCET_B, 50),
        &SCRIPT,
        &SERIAL,
        &PAYBACK,
        0,
    );
    assert_eq!(zero_amount.unwrap_err(), OrderError::MalformedAsset);
    let not_a_faucet = create_limit_swap_note(
        MAKER,
        FungibleAsset::new(FAUCET_A, 100),
        FungibleAsset::new(MAKER, 50),
        &SCRIPT,
        &SERIAL,
        &PAYBACK,
        0,
    );
    assert_eq!(not_a_faucet.unwrap_err(), OrderError::MalformedAsset);
    let too_much = create_limit_swap_note(
        MAKER,
        FungibleAsset::new(FAUCET_A, 1 << 63),
        FungibleAsset::new(FAUCET_B, 50),
        &SCRIPT,
        &SERIAL,
        &PAYBACK,
        0,
    );
    assert_eq!(too_much.unwrap_err(), OrderError::MalformedAsset);
}

#[test]
fn asset_words_and_account_ids() {
    assert_eq!(FungibleAsset::new(FAUCET_A, 100).to_word(), Some([100, 0, 0, FAUCET_A]));
    assert_eq!(FungibleAsset::new(MAKER, 100).to_word(), None);
}

#[test]
fn fill_args_layout() {
    assert_eq!(fill_note_args(25, 50), [0, 0, 25, 50]);
}

#[test]
fn polling_decisions() {
    let tx: Word = [9, 8, 7, 6];
    let pending: Vec<Word> = vec![[1, 2, 3, 4], tx];
    assert!(contains_transaction(&pending, &tx));
    assert!(!contains_transaction(&vec![[1, 2, 3, 4]], &tx));
    assert_eq!(poll_decision(&tx, &pending, 1, None), PollDecision::Retry);
    assert_eq!(poll_decision(&tx, &pending, 3, Some(3)), PollDecision::TimedOut);
    assert_eq!(poll_decision(&tx, &pending, 2, Some(3)), PollDecision::Retry);
    assert_eq!(poll_decision(&tx, &vec![], 5, Some(3)), PollDecision::Committed);
}
