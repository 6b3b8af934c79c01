//! The decisions of the settlement driver, which waits for a submitted transaction to be
//! committed. The caller performs each poll and hands the pending transactions back.

use vstd::prelude::*;

use crate::commitment::Word;

verus! {

/// What the driver does after a poll.
#[derive(Clone, Copy, Debug, PartialEq, Eq, Structural)]
pub enum PollDecision {
    /// The transaction is no longer pending.
    Committed,
    /// The transaction is still pending: poll again.
    Retry,
    /// The transaction is still pending and no poll is left.
    TimedOut,
}

/// `tx_id` is among the pending transaction ids.
pub open spec fn is_pending(pending: Seq<Word>, tx_id: Word) -> bool {
    exists|i: int| 0 <= i < pending.len() && pending[i]@ == tx_id@
}

/// Whether `tx_id` is among `pending`.
pub fn contains_transaction(pending: &Vec<Word>, tx_id: &Word) -> (r: bool)
    ensures
        r == is_pending(pending@, *tx_id),
{
    let mut i: usize = 0;
    while i < pending.len()
        invariant
            i <= pending@.len(),
            forall|j: int| 0 <= j < i ==> pending@[j]@ != tx_id@,
        decreases pending@.len() - i,
    {
        let p = &pending[i];
        if p[0] == tx_id[0] && p[1] == tx_id[1] && p[2] == tx_id[2] && p[3] == tx_id[3] {
            assert(pending@[i as int]@ =~= tx_id@);
            return true;
        }
        proof {
            if pending@[i as int]@ == tx_id@ {
                assert(pending@[i as int]@[0] == tx_id@[0]);
            }
        }
        i += 1;
    }
    false
}

/// The decision after poll number `attempts` (counted from 1), given the transactions still
/// pending. With `max_attempts` of `None` the driver waits without end.
pub fn poll_decision(
    tx_id: &Word,
    pending: &Vec<Word>,
    attempts: u64,
    max_attempts: Option<u64>,
) -> (r: PollDecision)
    ensures
        r == (if !is_pending(pending@, *tx_id) {
            PollDecision::Committed
        } else if max_attempts matches Some(m) && attempts >= m {
            PollDecision::TimedOut
        } else {
            PollDecision::Retry
        }),
{
    if !contains_transaction(pending, tx_id) {
        PollDecision::Committed
    } else {
        match max_attempts {
            Some(m) => {
                if attempts >= m {
                    PollDecision::TimedOut
                } else {
                    PollDecision::Retry
                }
            },
            None => PollDecision::Retry,
        }
    }
}

} // verus!
