use vstd::prelude::*;
use crate::bid::{BidView, CustomError, acceptable, bid_outcome, committed};
use crate::spot::SpotView;

verus! {

/// One attempt of a bidding history: the bid and whether the ledger
/// completed its transfer.
pub ghost struct BidAttempt {
    pub req: BidView,
    pub transfer_completed: bool,
}

/// The spot state after the attempts in `attempts` are applied in order,
/// starting from `spot`.
pub open spec fn run(spot: SpotView, attempts: Seq<BidAttempt>) -> SpotView
    decreases attempts.len(),
{
    if attempts.len() == 0 {
        spot
    } else {
        run(
            bid_outcome(spot, attempts[0].req, attempts[0].transfer_completed).0,
            attempts.drop_first(),
        )
    }
}

/// The spot state the attempt at position `i` sees: everything before it
/// already applied.
pub open spec fn state_before(spot: SpotView, attempts: Seq<BidAttempt>, i: int) -> SpotView {
    run(spot, attempts.take(i))
}

/// The outcome handed to the bidder of the attempt at position `i`.
pub open spec fn outcome_at(spot: SpotView, attempts: Seq<BidAttempt>, i: int) -> Result<
    (),
    CustomError,
> {
    bid_outcome(state_before(spot, attempts, i), attempts[i].req, attempts[i].transfer_completed).1
}

/// Running one attempt further applies exactly that attempt to the state
/// before it.
proof fn lemma_run_step(spot: SpotView, attempts: Seq<BidAttempt>, i: int)
    requires
        0 <= i < attempts.len(),
    ensures
        state_before(spot, attempts, i + 1) == bid_outcome(
            state_before(spot, attempts, i),
            attempts[i].req,
            attempts[i].transfer_completed,
        ).0,
    decreases i,
{
    let first = bid_outcome(spot, attempts[0].req, attempts[0].transfer_completed).0;
    if i == 0 {
        assert(attempts.take(0) =~= Seq::<BidAttempt>::empty());
        assert(attempts.take(1).drop_first() =~= Seq::<BidAttempt>::empty());
        assert(attempts.take(1)[0] == attempts[0]);
    } else {
        let rest = attempts.drop_first();
        assert(attempts.take(i)[0] == attempts[0]);
        assert(attempts.take(i + 1)[0] == attempts[0]);
        assert(attempts.take(i).drop_first() =~= rest.take(i - 1));
        assert(attempts.take(i + 1).drop_first() =~= rest.take(i));
        assert(rest[i - 1] == attempts[i]);
        lemma_run_step(first, rest, i - 1);
    }
}

/// After any accepted attempt, the spot records exactly that bid: the
/// current bid is its amount, the current bidder is its bidder, and the
/// metadata is its metadata. Rejected attempts leave the state the previous
/// accepted bid built.
pub proof fn lemma_accepted_bid_recorded(spot: SpotView, attempts: Seq<BidAttempt>, i: int)
    requires
        0 <= i < attempts.len(),
        outcome_at(spot, attempts, i) is Ok,
    ensures
        state_before(spot, attempts, i + 1) == committed(attempts[i].req),
        state_before(spot, attempts, i + 1).current_bid == attempts[i].req.amount,
        state_before(spot, attempts, i + 1).current_bidder == Some(attempts[i].req.bidder),
{
    lemma_run_step(spot, attempts, i);
}

/// Strict monotonic increase: every accepted attempt leaves the current bid
/// strictly above the state it was validated against.
pub proof fn lemma_strict_increase(spot: SpotView, attempts: Seq<BidAttempt>, i: int)
    requires
        0 <= i < attempts.len(),
        outcome_at(spot, attempts, i) is Ok,
    ensures
        state_before(spot, attempts, i + 1).current_bid > state_before(
            spot,
            attempts,
            i,
        ).current_bid,
{
    lemma_run_step(spot, attempts, i);
}

/// The current bid never falls: across any bidding history, accepted or
/// rejected, the recorded amount is monotonically non-decreasing.
pub proof fn lemma_monotone(spot: SpotView, attempts: Seq<BidAttempt>)
    ensures
        run(spot, attempts).current_bid >= spot.current_bid,
    decreases attempts.len(),
{
    if attempts.len() > 0 {
        lemma_monotone(
            bid_outcome(spot, attempts[0].req, attempts[0].transfer_completed).0,
            attempts.drop_first(),
        );
    }
}

/// Running a history in two parts is running it in one.
proof fn lemma_run_concat(spot: SpotView, front: Seq<BidAttempt>, back: Seq<BidAttempt>)
    ensures
        run(spot, front + back) == run(run(spot, front), back),
    decreases front.len(),
{
    if front.len() == 0 {
        assert(front + back =~= back);
    } else {
        assert((front + back)[0] == front[0]);
        assert((front + back).drop_first() =~= front.drop_first() + back);
        lemma_run_concat(
            bid_outcome(spot, front[0].req, front[0].transfer_completed).0,
            front.drop_first(),
            back,
        );
    }
}

/// The current bid never falls between any two points of a history.
proof fn lemma_monotone_segment(spot: SpotView, attempts: Seq<BidAttempt>, i: int, j: int)
    requires
        0 <= i <= j <= attempts.len(),
    ensures
        state_before(spot, attempts, j).current_bid >= state_before(
            spot,
            attempts,
            i,
        ).current_bid,
{
    assert(attempts.take(j) =~= attempts.take(i) + attempts.subrange(i, j));
    lemma_run_concat(spot, attempts.take(i), attempts.subrange(i, j));
    lemma_monotone(state_before(spot, attempts, i), attempts.subrange(i, j));
}

/// A stretch of rejected attempts moves the spot not at all.
proof fn lemma_rejected_segment(spot: SpotView, attempts: Seq<BidAttempt>, i: int, j: int)
    requires
        0 <= i <= j <= attempts.len(),
        forall|k: int| i <= k < j ==> !(#[trigger] outcome_at(spot, attempts, k) is Ok),
    ensures
        state_before(spot, attempts, j) == state_before(spot, attempts, i),
    decreases j - i,
{
    if j > i {
        lemma_rejected_segment(spot, attempts, i, j - 1);
        lemma_run_step(spot, attempts, j - 1);
        assert(!(outcome_at(spot, attempts, j - 1) is Ok));
    }
}

/// Amounts of accepted bids strictly increase along any history: each
/// acceptance outbids every earlier one, so the latest accepted amount is
/// the highest ever accepted.
pub proof fn lemma_accepted_amounts_increase(
    spot: SpotView,
    attempts: Seq<BidAttempt>,
    i: int,
    j: int,
)
    requires
        0 <= i < j < attempts.len(),
        outcome_at(spot, attempts, i) is Ok,
        outcome_at(spot, attempts, j) is Ok,
    ensures
        attempts[i].req.amount < attempts[j].req.amount,
{
    lemma_accepted_bid_recorded(spot, attempts, i);
    lemma_monotone_segment(spot, attempts, i + 1, j);
}

/// At any point, the spot shows the highest bid ever accepted: after the
/// last accepted attempt of a history, the spot holds exactly that bid's
/// record, and its amount exceeds the amount of every other accepted
/// attempt.
pub proof fn lemma_shows_highest_accepted(spot: SpotView, attempts: Seq<BidAttempt>, i: int)
    requires
        0 <= i < attempts.len(),
        outcome_at(spot, attempts, i) is Ok,
        forall|k: int| i < k < attempts.len() ==> !(#[trigger] outcome_at(spot, attempts, k) is Ok),
    ensures
        run(spot, attempts) == committed(attempts[i].req),
        forall|k: int|
            0 <= k < attempts.len() && k != i && #[trigger] outcome_at(spot, attempts, k) is Ok
                ==> attempts[k].req.amount < attempts[i].req.amount,
{
    lemma_accepted_bid_recorded(spot, attempts, i);
    lemma_rejected_segment(spot, attempts, i + 1, attempts.len() as int);
    assert(attempts.take(attempts.len() as int) =~= attempts);
    assert forall|k: int|
        0 <= k < attempts.len() && k != i && #[trigger] outcome_at(spot, attempts, k) is Ok
            implies attempts[k].req.amount < attempts[i].req.amount by {
        lemma_accepted_amounts_increase(spot, attempts, k, i);
    }
}

/// A bid that does not strictly exceed the current one changes nothing and
/// is answered `BidTooLow`, whatever the ledger would have said.
pub proof fn lemma_too_low_rejected(spot: SpotView, req: BidView, transfer_completed: bool)
    requires
        req.amount <= spot.current_bid,
    ensures
        bid_outcome(spot, req, transfer_completed) == (
            spot,
            Err::<(), CustomError>(CustomError::BidTooLow),
        ),
{
}

/// A valid bid whose transfer the ledger could not complete changes nothing
/// and is answered `TransferFailed`.
pub proof fn lemma_failed_transfer_rejected(spot: SpotView, req: BidView)
    requires
        acceptable(spot, req.amount),
    ensures
        bid_outcome(spot, req, false) == (spot, Err::<(), CustomError>(CustomError::TransferFailed)),
{
}

/// Atomicity: an attempt either leaves the spot exactly as it was or moves
/// it to the record of that bid, all five fields together; and whenever the
/// spot moved at all, the attempt was the accepted one.
pub proof fn lemma_atomic_update(spot: SpotView, req: BidView, transfer_completed: bool)
    ensures
        bid_outcome(spot, req, transfer_completed).0 == spot || bid_outcome(
            spot,
            req,
            transfer_completed,
        ).0 == committed(req),
        bid_outcome(spot, req, transfer_completed).1 is Ok ==> bid_outcome(
            spot,
            req,
            transfer_completed,
        ).0 == committed(req),
        bid_outcome(spot, req, transfer_completed).0 != spot ==> bid_outcome(
            spot,
            req,
            transfer_completed,
        ).1 is Ok,
{
}

/// No lost update: two competing bids above the current one end, in either
/// serialization order, with the higher bid's record durable. Serialized one
/// way both are accepted in turn; the other way the lower one is rejected as
/// too low; the final state is the higher bid's record either way.
pub proof fn lemma_no_lost_update(spot: SpotView, lower: BidView, higher: BidView)
    requires
        spot.current_bid < lower.amount,
        lower.amount < higher.amount,
    ensures
        run(
            spot,
            seq![
                BidAttempt { req: lower, transfer_completed: true },
                BidAttempt { req: higher, transfer_completed: true },
            ],
        ) == committed(higher),
        run(
            spot,
            seq![
                BidAttempt { req: higher, transfer_completed: true },
                BidAttempt { req: lower, transfer_completed: true },
            ],
        ) == committed(higher),
{
    let lower_first = seq![
        BidAttempt { req: lower, transfer_completed: true },
        BidAttempt { req: higher, transfer_completed: true },
    ];
    let higher_first = seq![
        BidAttempt { req: higher, transfer_completed: true },
        BidAttempt { req: lower, transfer_completed: true },
    ];
    let empty = Seq::<BidAttempt>::empty();
    assert(lower_first.drop_first() =~= seq![
        BidAttempt { req: higher, transfer_completed: true },
    ]);
    assert(higher_first.drop_first() =~= seq![
        BidAttempt { req: lower, transfer_completed: true },
    ]);
    assert(lower_first.drop_first().drop_first() =~= empty);
    assert(higher_first.drop_first().drop_first() =~= empty);
    assert(run(spot, lower_first) == run(committed(lower), lower_first.drop_first()));
    assert(run(committed(lower), lower_first.drop_first()) == run(committed(higher), empty));
    assert(run(spot, higher_first) == run(committed(higher), higher_first.drop_first()));
    assert(run(committed(higher), higher_first.drop_first()) == run(committed(higher), empty));
}

} // verus!
