use vstd::prelude::*;
use crate::auth::Authenticator;
use crate::ledger::Ledger;
use crate::spot::{Identity, Spot, SpotView};

verus! {

/// Why a bid attempt failed. Every failure leaves the spot exactly as it
/// was before the attempt.
#[derive(Clone, Copy, PartialEq, Eq, Structural, Debug)]
pub enum CustomError {
    /// The bid amount was not strictly above the spot's current bid.
    BidTooLow,
    /// The ledger could not move the bid amount from the bidder to escrow.
    TransferFailed,
    /// The caller did not prove control of the claimed bidder identity.
    AuthenticationFailed,
}

impl CustomError {
    /// A short description of the failure, for callers that report it.
    pub fn message(&self) -> (r: &'static str)
        ensures
            *self is BidTooLow ==> r@ == "Bid amount must be higher than current bid"@,
            *self is TransferFailed ==> r@ == "Transfer of the bid amount failed"@,
            *self is AuthenticationFailed ==> r@ == "Bidder identity was not authenticated"@,
    {
        match self {
            CustomError::BidTooLow => "Bid amount must be higher than current bid",
            CustomError::TransferFailed => "Transfer of the bid amount failed",
            CustomError::AuthenticationFailed => "Bidder identity was not authenticated",
        }
    }
}

/// One bid attempt: who bids, how much, and the project metadata that an
/// acceptance records on the spot. Built per attempt and consumed by it.
pub struct BidRequest {
    pub bidder: Identity,
    pub amount: u64,
    pub project_name: String,
    pub project_link: String,
    pub project_logo: String,
}

/// The mathematical value of a `BidRequest`.
pub ghost struct BidView {
    pub bidder: Identity,
    pub amount: u64,
    pub project_name: Seq<char>,
    pub project_link: Seq<char>,
    pub project_logo: Seq<char>,
}

impl View for BidRequest {
    type V = BidView;

    open spec fn view(&self) -> BidView {
        BidView {
            bidder: self.bidder,
            amount: self.amount,
            project_name: self.project_name@,
            project_link: self.project_link@,
            project_logo: self.project_logo@,
        }
    }
}

/// The one fund movement an accepted bid requires: exactly the bid amount,
/// from the bidder to the spot's escrow holder.
#[derive(Clone, Copy, PartialEq, Eq, Structural, Debug)]
pub struct TransferAction {
    pub from: Identity,
    pub to: Identity,
    pub amount: u64,
}

/// The validation rule: a bid may displace the current one only by strictly
/// exceeding it.
pub open spec fn acceptable(spot: SpotView, amount: u64) -> bool {
    amount > spot.current_bid
}

/// The spot record an accepted bid leaves behind: all five fields come from
/// that bid, in one piece.
pub open spec fn committed(req: BidView) -> SpotView {
    SpotView {
        current_bid: req.amount,
        current_bidder: Some(req.bidder),
        project_name: req.project_name,
        project_link: req.project_link,
        project_logo: req.project_logo,
    }
}

/// One whole bid attempt at the specification level: the state the spot ends
/// in and the outcome handed to the caller, given whether the ledger
/// completed the transfer. Every executable path is proved to land on this
/// function, so the laws about bidding are laws about it.
pub open spec fn bid_outcome(spot: SpotView, req: BidView, transfer_completed: bool) -> (
    SpotView,
    Result<(), CustomError>,
) {
    if !acceptable(spot, req.amount) {
        (spot, Err(CustomError::BidTooLow))
    } else if !transfer_completed {
        (spot, Err(CustomError::TransferFailed))
    } else {
        (committed(req), Ok(()))
    }
}

/// The decide step of a bid: validate `req` against `spot` and stage the one
/// transfer an acceptance requires. Reads only; the spot cannot change here.
pub fn stage_bid(spot: &Spot, escrow: Identity, req: &BidRequest) -> (r: Result<
    TransferAction,
    CustomError,
>)
    ensures
        acceptable(spot@, req.amount) ==> r == Ok::<TransferAction, CustomError>(
            (TransferAction { from: req.bidder, to: escrow, amount: req.amount }),
        ),
        !acceptable(spot@, req.amount) ==> r == Err::<TransferAction, CustomError>(
            CustomError::BidTooLow,
        ),
{
    if req.amount > spot.current_bid {
        Ok(TransferAction { from: req.bidder, to: escrow, amount: req.amount })
    } else {
        Err(CustomError::BidTooLow)
    }
}

/// The apply step of a bid: record what the staged transfer came to. On a
/// completed transfer the spot takes all five fields of `req` in one write;
/// otherwise it stays exactly as it was and the caller gets `TransferFailed`.
/// Callers must have validated `req` against this very spot state
/// (`stage_bid`) and left the spot untouched in between.
pub fn commit_bid(spot: &mut Spot, req: BidRequest, transfer_completed: bool) -> (r: Result<
    (),
    CustomError,
>)
    requires
        acceptable(old(spot)@, req@.amount),
    ensures
        (final(spot)@, r) == bid_outcome(old(spot)@, req@, transfer_completed),
{
    if transfer_completed {
        spot.current_bid = req.amount;
        spot.current_bidder = Some(req.bidder);
        spot.project_name = req.project_name;
        spot.project_link = req.project_link;
        spot.project_logo = req.project_logo;
        Ok(())
    } else {
        Err(CustomError::TransferFailed)
    }
}

/// The whole bid-placement operation against an authenticated bidder:
/// validate, move the funds through `ledger`, then commit. The outcome is
/// `bid_outcome` of the starting state for some answer of the ledger; in
/// particular a too-low bid is rejected as `BidTooLow` before any transfer
/// is attempted, every failure leaves the spot unchanged, and an acceptance
/// records exactly this bid.
pub fn place_bid<L: Ledger>(
    spot: &mut Spot,
    ledger: &mut L,
    escrow: Identity,
    req: BidRequest,
) -> (r: Result<(), CustomError>)
    ensures
        (final(spot)@, r) == bid_outcome(old(spot)@, req@, true)
            || (final(spot)@, r) == bid_outcome(old(spot)@, req@, false),
        r == Err::<(), CustomError>(CustomError::BidTooLow) ==> *final(ledger) == *old(ledger),
{
    let action = match stage_bid(spot, escrow, &req) {
        Ok(action) => action,
        Err(e) => {
            return Err(e);
        },
    };
    let transfer_completed = ledger.transfer(&action.from, &action.to, action.amount);
    commit_bid(spot, req, transfer_completed)
}

/// The full entry point: prove the bidder's identity, then place the bid.
/// An unauthenticated caller is rejected with `AuthenticationFailed` before
/// any other logic runs, with the spot and the ledger untouched; past that
/// check the operation is exactly `place_bid`.
pub fn process_bid<A: Authenticator, L: Ledger>(
    auth: &A,
    spot: &mut Spot,
    ledger: &mut L,
    escrow: Identity,
    req: BidRequest,
) -> (r: Result<(), CustomError>)
    ensures
        r == Err::<(), CustomError>(CustomError::AuthenticationFailed)
            ==> final(spot)@ == old(spot)@ && *final(ledger) == *old(ledger),
        r != Err::<(), CustomError>(CustomError::AuthenticationFailed)
            ==> (final(spot)@, r) == bid_outcome(old(spot)@, req@, true)
                || (final(spot)@, r) == bid_outcome(old(spot)@, req@, false),
        r == Err::<(), CustomError>(CustomError::BidTooLow) ==> *final(ledger) == *old(ledger),
{
    if !auth.authorizes(&req.bidder) {
        return Err(CustomError::AuthenticationFailed);
    }
    place_bid(spot, ledger, escrow, req)
}

} // verus!
