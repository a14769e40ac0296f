use crypto_squares::auth::{AllowListAuthenticator, Authenticator};
use crypto_squares::bid::{place_bid, process_bid, stage_bid, commit_bid};
use crypto_squares::bid::{BidRequest, CustomError, TransferAction};
use crypto_squares::ledger::InMemoryLedger;
use crypto_squares::spot::{Identity, Spot};

fn request(bidder: Identity, amount: u64, name: &str, link: &str, logo: &str) -> BidRequest {
    BidRequest {
        bidder,
        amount,
        project_name: String::from(name),
        project_link: String::from(link),
        project_logo: String::from(logo),
    }
}

#[test]
fn new_spot_starts_at_floor_with_no_bidder() {
    let spot = Spot::new(0);
    assert_eq!(spot.current_bid, 0);
    assert_eq!(spot.current_bidder, None);
    assert_eq!(spot.project_name, "");
    assert_eq!(spot.project_link, "");
    assert_eq!(spot.project_logo, "");

    let raised = Spot::new(500);
    assert_eq!(raised.current_bid, 500);
    assert_eq!(raised.current_bidder, None);
}

#[test]
fn accepted_bid_records_amount_bidder_and_metadata() {
    let mut spot = Spot::new(0);
    let mut ledger = InMemoryLedger::new();
    let escrow = Identity { key: 900 };
    let alice = Identity { key: 1 };
    ledger.deposit(&alice, 5_000);

    let r = place_bid(
        &mut spot,
        &mut ledger,
        escrow,
        request(alice, 1_000, "Acme", "https://acme.example", "acme.png"),
    );
    assert_eq!(r, Ok(()));
    assert_eq!(spot.current_bid, 1_000);
    assert_eq!(spot.current_bidder, Some(alice));
    assert_eq!(spot.project_name, "Acme");
    assert_eq!(spot.project_link, "https://acme.example");
    assert_eq!(spot.project_logo, "acme.png");
    assert_eq!(ledger.balance(&alice), 4_000);
    assert_eq!(ledger.balance(&escrow), 1_000);
}

#[test]
fn equal_bid_is_too_low_and_changes_nothing() {
    let mut spot = Spot::new(0);
    let mut ledger = InMemoryLedger::new();
    let escrow = Identity { key: 900 };
    let alice = Identity { key: 1 };
    let bob = Identity { key: 2 };
    ledger.deposit(&alice, 5_000);
    ledger.deposit(&bob, 5_000);

    let r = place_bid(&mut spot, &mut ledger, escrow, request(alice, 100, "Acme", "a", "a"));
    assert_eq!(r, Ok(()));

    let r = place_bid(&mut spot, &mut ledger, escrow, request(bob, 100, "Bravo", "b", "b"));
    assert_eq!(r, Err(CustomError::BidTooLow));
    assert_eq!(spot.current_bid, 100);
    assert_eq!(spot.current_bidder, Some(alice));
    assert_eq!(spot.project_name, "Acme");
    assert_eq!(spot.project_link, "a");
    assert_eq!(spot.project_logo, "a");
    assert_eq!(ledger.balance(&bob), 5_000);
    assert_eq!(ledger.balance(&escrow), 100);
}

#[test]
fn lower_bid_is_too_low_and_moves_no_funds() {
    let mut spot = Spot::new(1_000);
    let mut ledger = InMemoryLedger::new();
    let escrow = Identity { key: 900 };
    let bob = Identity { key: 2 };
    ledger.deposit(&bob, 5_000);

    let r = place_bid(&mut spot, &mut ledger, escrow, request(bob, 999, "Bravo", "b", "b"));
    assert_eq!(r, Err(CustomError::BidTooLow));
    assert_eq!(spot.current_bid, 1_000);
    assert_eq!(spot.current_bidder, None);
    assert_eq!(spot.project_name, "");
    assert_eq!(ledger.balance(&bob), 5_000);
    assert_eq!(ledger.balance(&escrow), 0);
}

#[test]
fn failed_transfer_yields_transfer_failed_and_changes_nothing() {
    let mut spot = Spot::new(0);
    let mut ledger = InMemoryLedger::new();
    let escrow = Identity { key: 900 };
    let alice = Identity { key: 1 };
    let poor = Identity { key: 3 };
    ledger.deposit(&alice, 5_000);
    ledger.deposit(&poor, 10);

    let r = place_bid(&mut spot, &mut ledger, escrow, request(alice, 100, "Acme", "a", "a"));
    assert_eq!(r, Ok(()));

    let r = place_bid(&mut spot, &mut ledger, escrow, request(poor, 500, "Poor", "p", "p"));
    assert_eq!(r, Err(CustomError::TransferFailed));
    assert_eq!(spot.current_bid, 100);
    assert_eq!(spot.current_bidder, Some(alice));
    assert_eq!(spot.project_name, "Acme");
    assert_eq!(ledger.balance(&poor), 10);
    assert_eq!(ledger.balance(&escrow), 100);
}

#[test]
fn ascending_sequence_records_each_accepted_bid() {
    let mut spot = Spot::new(0);
    let mut ledger = InMemoryLedger::new();
    let escrow = Identity { key: 900 };
    let bidders = [Identity { key: 10 }, Identity { key: 11 }, Identity { key: 12 }];
    for b in &bidders {
        ledger.deposit(b, 100_000);
    }

    let amounts = [5u64, 17, 40_000];
    for (i, &amount) in amounts.iter().enumerate() {
        let who = bidders[i % bidders.len()];
        let r = place_bid(&mut spot, &mut ledger, escrow, request(who, amount, "p", "l", "g"));
        assert_eq!(r, Ok(()));
        assert_eq!(spot.current_bid, amount);
        assert_eq!(spot.current_bidder, Some(who));
    }
    assert_eq!(ledger.balance(&escrow), 5 + 17 + 40_000);
}

#[test]
fn competing_bids_end_with_higher_record_in_either_order() {
    let escrow = Identity { key: 900 };
    let low_bidder = Identity { key: 21 };
    let high_bidder = Identity { key: 22 };

    // Order one: 150 accepted, then 200 accepted.
    let mut spot = Spot::new(100);
    let mut ledger = InMemoryLedger::new();
    ledger.deposit(&low_bidder, 1_000);
    ledger.deposit(&high_bidder, 1_000);
    let r1 = place_bid(&mut spot, &mut ledger, escrow, request(low_bidder, 150, "Low", "l", "l"));
    let r2 = place_bid(&mut spot, &mut ledger, escrow, request(high_bidder, 200, "High", "h", "h"));
    assert_eq!(r1, Ok(()));
    assert_eq!(r2, Ok(()));
    assert_eq!(spot.current_bid, 200);
    assert_eq!(spot.current_bidder, Some(high_bidder));
    assert_eq!(spot.project_name, "High");

    // Order two: 200 accepted, then 150 rejected as too low.
    let mut spot = Spot::new(100);
    let mut ledger = InMemoryLedger::new();
    ledger.deposit(&low_bidder, 1_000);
    ledger.deposit(&high_bidder, 1_000);
    let r1 = place_bid(&mut spot, &mut ledger, escrow, request(high_bidder, 200, "High", "h", "h"));
    let r2 = place_bid(&mut spot, &mut ledger, escrow, request(low_bidder, 150, "Low", "l", "l"));
    assert_eq!(r1, Ok(()));
    assert_eq!(r2, Err(CustomError::BidTooLow));
    assert_eq!(spot.current_bid, 200);
    assert_eq!(spot.current_bidder, Some(high_bidder));
    assert_eq!(spot.project_name, "High");
    assert_eq!(ledger.balance(&low_bidder), 1_000);
}

#[test]
fn outbid_funds_stay_in_escrow() {
    let mut spot = Spot::new(0);
    let mut ledger = InMemoryLedger::new();
    let escrow = Identity { key: 900 };
    let a = Identity { key: 1 };
    let b = Identity { key: 2 };
    ledger.deposit(&a, 10_000);
    ledger.deposit(&b, 10_000);

    let r = place_bid(&mut spot, &mut ledger, escrow, request(a, 1_000, "Acme", "al", "ag"));
    assert_eq!(r, Ok(()));
    assert_eq!(spot.current_bid, 1_000);
    assert_eq!(spot.current_bidder, Some(a));

    let r = place_bid(&mut spot, &mut ledger, escrow, request(b, 1_000, "Bravo", "bl", "bg"));
    assert_eq!(r, Err(CustomError::BidTooLow));
    assert_eq!(spot.current_bid, 1_000);
    assert_eq!(spot.current_bidder, Some(a));
    assert_eq!(spot.project_name, "Acme");

    let r = place_bid(&mut spot, &mut ledger, escrow, request(b, 1_500, "Bravo", "bl", "bg"));
    assert_eq!(r, Ok(()));
    assert_eq!(spot.current_bid, 1_500);
    assert_eq!(spot.current_bidder, Some(b));
    assert_eq!(spot.project_name, "Bravo");

    // The displaced bidder is not refunded: escrow keeps both transfers.
    assert_eq!(ledger.balance(&escrow), 2_500);
    assert_eq!(ledger.balance(&a), 9_000);
    assert_eq!(ledger.balance(&b), 8_500);
}

#[test]
fn unauthenticated_bidder_is_rejected_before_any_state_change() {
    let mut spot = Spot::new(0);
    let mut ledger = InMemoryLedger::new();
    let mut auth = AllowListAuthenticator::new();
    let escrow = Identity { key: 900 };
    let alice = Identity { key: 1 };
    let mallory = Identity { key: 66 };
    ledger.deposit(&alice, 5_000);
    ledger.deposit(&mallory, 5_000);
    auth.allow(alice);

    let r = process_bid(&auth, &mut spot, &mut ledger, escrow, request(mallory, 100, "M", "m", "m"));
    assert_eq!(r, Err(CustomError::AuthenticationFailed));
    assert_eq!(spot.current_bid, 0);
    assert_eq!(spot.current_bidder, None);
    assert_eq!(ledger.balance(&mallory), 5_000);
    assert_eq!(ledger.balance(&escrow), 0);

    let r = process_bid(&auth, &mut spot, &mut ledger, escrow, request(alice, 100, "Acme", "a", "a"));
    assert_eq!(r, Ok(()));
    assert_eq!(spot.current_bid, 100);
    assert_eq!(spot.current_bidder, Some(alice));
}

#[test]
fn authorizes_answers_membership_of_the_list() {
    let mut auth = AllowListAuthenticator::new();
    let a = Identity { key: 1 };
    let b = Identity { key: 2 };
    assert!(!auth.authorizes(&a));
    auth.allow(a);
    assert!(auth.authorizes(&a));
    assert!(!auth.authorizes(&b));
}

#[test]
fn stage_bid_names_the_exact_transfer() {
    let spot = Spot::new(40);
    let escrow = Identity { key: 900 };
    let alice = Identity { key: 1 };

    let staged = stage_bid(&spot, escrow, &request(alice, 41, "p", "l", "g"));
    assert_eq!(staged, Ok(TransferAction { from: alice, to: escrow, amount: 41 }));

    let staged = stage_bid(&spot, escrow, &request(alice, 40, "p", "l", "g"));
    assert_eq!(staged, Err(CustomError::BidTooLow));
}

#[test]
fn commit_bid_rolls_back_on_failed_transfer() {
    let mut spot = Spot::new(0);
    let alice = Identity { key: 1 };

    let r = commit_bid(&mut spot, request(alice, 10, "p", "l", "g"), false);
    assert_eq!(r, Err(CustomError::TransferFailed));
    assert_eq!(spot.current_bid, 0);
    assert_eq!(spot.current_bidder, None);
    assert_eq!(spot.project_name, "");

    let r = commit_bid(&mut spot, request(alice, 10, "p", "l", "g"), true);
    assert_eq!(r, Ok(()));
    assert_eq!(spot.current_bid, 10);
    assert_eq!(spot.current_bidder, Some(alice));
    assert_eq!(spot.project_name, "p");
}

#[test]
fn error_messages_name_each_failure() {
    assert_eq!(
        CustomError::BidTooLow.message(),
        "Bid amount must be higher than current bid"
    );
    assert_eq!(CustomError::TransferFailed.message(), "Transfer of the bid amount failed");
    assert_eq!(
        CustomError::AuthenticationFailed.message(),
        "Bidder identity was not authenticated"
    );
}

#[test]
fn largest_possible_raise_is_accepted() {
    let mut spot = Spot::new(u64::MAX - 1);
    let mut ledger = InMemoryLedger::new();
    let escrow = Identity { key: 900 };
    let whale = Identity { key: 7 };
    ledger.deposit(&whale, u64::MAX);

    let r = place_bid(&mut spot, &mut ledger, escrow, request(whale, u64::MAX, "W", "w", "w"));
    assert_eq!(r, Ok(()));
    assert_eq!(spot.current_bid, u64::MAX);
    assert_eq!(ledger.balance(&escrow), u64::MAX);
    assert_eq!(ledger.balance(&whale), 0);

    // Nothing can outbid the maximum amount.
    let r = place_bid(&mut spot, &mut ledger, escrow, request(whale, u64::MAX, "W", "w", "w"));
    assert_eq!(r, Err(CustomError::BidTooLow));
}
