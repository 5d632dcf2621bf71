//! The rules of publishing, selling, opening and paying out, one by one.

use signal_vault::text::decimal_text;
use signal_vault::{
    commitment_of, Access, Amount, Bucket, Caller, Earnings, Hash32, PublishError, PurchaseError,
    ResourceAddress, RevealError, SignalVault, WithdrawError,
};

fn gold() -> ResourceAddress {
    ResourceAddress::from_array([1u8; 32])
}

fn silver() -> ResourceAddress {
    ResourceAddress::from_array([2u8; 32])
}

fn pay(amount: u128) -> Bucket {
    Bucket { resource: gold(), amount: Amount(amount), promised: Amount(0) }
}

fn sealed(payload: &str, nonce: &[u8]) -> SignalVault {
    SignalVault::publish(commitment_of(payload, nonce), 10, Amount(7), gold(), 3).unwrap().vault
}

/// A vault that has sold `sold` badges and holds `balance`.
fn worn(sold: u64, balance: u128) -> SignalVault {
    SignalVault::restore(
        commitment_of("p", b"n"),
        10,
        Amount(7),
        Earnings { resource: gold(), balance: Amount(balance) },
        None,
        None,
        None,
        sold,
    )
}

#[test]
fn publishing_fixes_the_terms() {
    let commitment = commitment_of("p", b"n");
    let publication = SignalVault::publish(commitment, 10, Amount(7), gold(), 9).unwrap();
    let vault = &publication.vault;
    assert_eq!(vault.commitment(), commitment);
    assert_eq!(vault.reveal_at_epoch(), 10);
    assert_eq!(vault.price(), Amount(7));
    assert_eq!(vault.sold(), 0);
    assert_eq!(vault.payload(), None);
    assert_eq!(vault.nonce(), None);
    assert_eq!(vault.revealed_at_epoch(), None);
    assert_eq!(vault.earnings_balance(), Amount(0));
}

#[test]
fn publishing_sets_up_badges_and_access() {
    let publication =
        SignalVault::publish(commitment_of("p", b"n"), 10, Amount(7), gold(), 9).unwrap();
    assert_eq!(publication.badges.token_symbol, "SIGV");
    assert_eq!(publication.badges.name, "Signal Vault access badge");
    assert_eq!(publication.badges.minting, Access::Anyone);
    assert_eq!(publication.badges.burning, Access::Anyone);
    assert_eq!(publication.badges.rule_updates, Access::Owner);
    assert_eq!(publication.owner_only, vec!["withdraw", "withdraw_confidential"]);
}

#[test]
fn the_reveal_epoch_must_lie_in_the_future() {
    let error =
        SignalVault::publish(commitment_of("p", b"n"), 10, Amount(7), gold(), 10).unwrap_err();
    assert_eq!(error, PublishError::NotInFuture { reveal_at_epoch: 10, now: 10 });
    assert_eq!(
        error.message(),
        "reveal_at_epoch 10 must be in the future (current epoch 10)"
    );
    let error =
        SignalVault::publish(commitment_of("p", b"n"), 10, Amount(0), gold(), 1234).unwrap_err();
    assert_eq!(
        error.message(),
        "reveal_at_epoch 10 must be in the future (current epoch 1234)"
    );
}

#[test]
fn the_price_must_be_positive() {
    let error =
        SignalVault::publish(commitment_of("p", b"n"), 10, Amount(0), gold(), 9).unwrap_err();
    assert_eq!(error, PublishError::PriceNotPositive);
    assert_eq!(error.message(), "price must be positive");
}

#[test]
fn a_published_signal_is_for_sale_at_once() {
    let mut vault = sealed("p", b"n");
    assert!(vault.purchase(pay(7), 3).is_ok());
}

#[test]
fn a_purchase_returns_the_change() {
    let mut vault = sealed("p", b"n");
    let (badge, change) = vault.purchase(pay(100), 4).unwrap();
    assert_eq!(badge.commitment, commitment_of("p", b"n").into_array());
    assert_eq!(badge.bought_at_epoch, 4);
    assert_eq!(change.amount, Amount(93));
    assert_eq!(change.resource, gold());
    assert_eq!(vault.earnings_balance(), Amount(7));
    assert_eq!(vault.sold(), 1);
}

#[test]
fn an_exact_payment_leaves_no_change() {
    let mut vault = sealed("p", b"n");
    let (_, change) = vault.purchase(pay(7), 9).unwrap();
    assert_eq!(change.amount, Amount(0));
    assert_eq!(vault.earnings_balance(), Amount(7));
}

#[test]
fn a_payment_below_the_price_is_refused() {
    let mut vault = sealed("p", b"n");
    let error = vault.purchase(pay(6), 4).unwrap_err();
    assert_eq!(error, PurchaseError::PaidTooLittle { paid: Amount(6), price: Amount(7) });
    assert_eq!(error.message(), "paid 6 but the price is 7");
    assert_eq!(vault.sold(), 0);
    assert_eq!(vault.earnings_balance(), Amount(0));
}

#[test]
fn a_payment_in_another_resource_is_refused() {
    let mut vault = sealed("p", b"n");
    let error =
        vault.purchase(Bucket { resource: silver(), amount: Amount(7), promised: Amount(0) }, 4).unwrap_err();
    assert_eq!(error, PurchaseError::WrongResource);
    assert_eq!(error.message(), "wrong payment resource");
    assert_eq!(vault.sold(), 0);
}

#[test]
fn the_sale_closes_at_the_reveal_epoch() {
    let mut vault = sealed("p", b"n");
    let error = vault.purchase(pay(7), 10).unwrap_err();
    assert_eq!(error, PurchaseError::SaleClosed);
    assert_eq!(error.message(), "sale closed: the reveal epoch has been reached");
    assert!(vault.purchase(pay(7), 9).is_ok());
}

#[test]
fn nothing_is_sold_once_the_payload_is_public() {
    let mut vault = sealed("p", b"n");
    vault.reveal_signal("p".to_string(), b"n".to_vec(), 10).unwrap();
    let error = vault.purchase(pay(7), 3).unwrap_err();
    assert_eq!(error, PurchaseError::AlreadyRevealed);
    assert_eq!(error.message(), "signal already revealed; nothing left to sell");
}

#[test]
fn a_hidden_payment_is_accepted_and_not_shown() {
    let mut vault = sealed("p", b"n");
    let payment = Bucket { resource: gold(), amount: Amount(0), promised: Amount(7) };
    let (badge, change) = vault.purchase(payment, 4).unwrap();
    assert_eq!(badge.commitment, commitment_of("p", b"n").into_array());
    assert_eq!(change.amount, Amount(0));
    assert_eq!(change.promised, Amount(0));
    assert_eq!(vault.earnings_balance(), Amount(0));
    assert_eq!(vault.sold(), 1);
}

#[test]
fn hidden_payments_look_alike() {
    let mut one = sealed("p", b"n");
    let mut other = sealed("p", b"n");
    let small = Bucket { resource: gold(), amount: Amount(3), promised: Amount(7) };
    let large = Bucket { resource: gold(), amount: Amount(3), promised: Amount(7_000_000) };
    let (_, small_change) = one.purchase(small, 4).unwrap();
    let (_, large_change) = other.purchase(large, 4).unwrap();
    assert_eq!(small_change.amount, Amount(3));
    assert_eq!(large_change.amount, Amount(3));
    assert_eq!(one.earnings_balance(), other.earnings_balance());
    assert_eq!(one.sold(), other.sold());
    assert_eq!(format!("{:?}", one), format!("{:?}", other));
}

#[test]
fn revealed_tokens_make_up_for_a_short_promise() {
    let mut vault = sealed("p", b"n");
    let short = Bucket { resource: gold(), amount: Amount(1), promised: Amount(5) };
    assert_eq!(
        vault.purchase(short, 4).unwrap_err(),
        PurchaseError::PaidTooLittle { paid: Amount(1), price: Amount(7) }
    );
    let enough = Bucket { resource: gold(), amount: Amount(3), promised: Amount(5) };
    let (_, change) = vault.purchase(enough, 4).unwrap();
    assert_eq!(change.amount, Amount(1));
    assert_eq!(vault.earnings_balance(), Amount(2));
}

#[test]
fn hidden_revenue_is_not_shown() {
    let mut vault = sealed("p", b"n");
    for epoch in 3..10 {
        let payment =
            Bucket { resource: gold(), amount: Amount(0), promised: Amount(7 + epoch as u128) };
        vault.purchase(payment, epoch).unwrap();
    }
    assert!(vault.withdraw_confidential(Caller::Owner, Amount(0)).is_ok());
    assert_eq!(vault.sold(), 7);
    assert_eq!(vault.earnings_balance(), Amount(0));
}

#[test]
fn a_full_balance_takes_hidden_payments_only() {
    let mut vault = worn(0, u128::MAX);
    assert_eq!(vault.purchase(pay(7), 4).unwrap_err(), PurchaseError::EarningsOverflow);
    let payment = Bucket { resource: gold(), amount: Amount(0), promised: Amount(7) };
    assert!(vault.purchase(payment, 4).is_ok());
    assert_eq!(vault.earnings_balance(), Amount(u128::MAX));
}

#[test]
fn counters_do_not_wrap() {
    let mut full = worn(0, u128::MAX - 6);
    let error = full.purchase(pay(7), 4).unwrap_err();
    assert_eq!(error, PurchaseError::EarningsOverflow);
    assert_eq!(error.message(), "attempt to add with overflow");
    assert_eq!(full.earnings_balance(), Amount(u128::MAX - 6));

    let mut fits = worn(0, u128::MAX - 7);
    assert!(fits.purchase(pay(7), 4).is_ok());
    assert_eq!(fits.earnings_balance(), Amount(u128::MAX));

    let mut counted = worn(u64::MAX, 0);
    let error = counted.purchase(pay(7), 4).unwrap_err();
    assert_eq!(error, PurchaseError::SoldOverflow);
    assert_eq!(error.message(), "attempt to add with overflow");
    assert_eq!(counted.sold(), u64::MAX);
    assert_eq!(counted.earnings_balance(), Amount(0));
}

#[test]
fn a_reveal_publishes_payload_nonce_and_epoch() {
    let mut vault = sealed("sell at 10", b"salt");
    vault.purchase(pay(7), 4).unwrap();
    vault.purchase(pay(9), 5).unwrap();
    let event = vault.reveal_signal("sell at 10".to_string(), b"salt".to_vec(), 12).unwrap();
    assert_eq!(vault.payload(), Some("sell at 10".to_string()));
    assert_eq!(vault.nonce(), Some(b"salt".to_vec()));
    assert_eq!(vault.revealed_at_epoch(), Some(12));
    assert_eq!(vault.sold(), 2);
    assert_eq!(event.topic, "signal_revealed");
    assert_eq!(
        event.details,
        vec![
            ("commitment".to_string(), commitment_of("sell at 10", b"salt").to_hex()),
            ("epoch".to_string(), "12".to_string()),
            ("sold".to_string(), "2".to_string()),
        ]
    );
}

#[test]
fn a_reveal_before_its_epoch_is_refused() {
    let mut vault = sealed("p", b"n");
    let error = vault.reveal_signal("p".to_string(), b"n".to_vec(), 9).unwrap_err();
    assert_eq!(error, RevealError::TooEarly { reveal_at_epoch: 10, now: 9 });
    assert_eq!(error.message(), "too early: reveal opens at epoch 10 (current 9)");
    assert_eq!(vault.payload(), None);
}

#[test]
fn a_payload_is_shown_in_a_later_epoch_than_it_was_sealed() {
    let commitment = commitment_of("p", b"n");
    let sealed_at = 9;
    let mut vault =
        SignalVault::publish(commitment, 10, Amount(7), gold(), sealed_at).unwrap().vault;
    assert!(vault.reveal_signal("p".to_string(), b"n".to_vec(), sealed_at).is_err());
    vault.reveal_signal("p".to_string(), b"n".to_vec(), 10).unwrap();
    assert!(vault.reveal_signal("q".to_string(), b"n".to_vec(), 11).is_err());
    assert!(vault.purchase(pay(7), 11).is_err());
    assert!(vault.withdraw(Caller::Owner, Amount(0)).is_ok());
    assert_eq!(vault.commitment(), commitment);
    assert_eq!(vault.payload(), Some("p".to_string()));
    assert_eq!(vault.nonce(), Some(b"n".to_vec()));
    assert_eq!(vault.revealed_at_epoch(), Some(10));
    assert!(vault.revealed_at_epoch().unwrap() > sealed_at);
}

#[test]
fn a_second_reveal_is_refused() {
    let mut vault = sealed("p", b"n");
    vault.reveal_signal("p".to_string(), b"n".to_vec(), 10).unwrap();
    let error = vault.reveal_signal("p".to_string(), b"n".to_vec(), 11).unwrap_err();
    assert_eq!(error, RevealError::AlreadyRevealed);
    assert_eq!(error.message(), "already revealed");
    assert_eq!(vault.revealed_at_epoch(), Some(10));
    assert_eq!(vault.payload(), Some("p".to_string()));
}

#[test]
fn a_reveal_of_something_else_is_refused() {
    let mut vault = sealed("ab", b"c");
    let error = vault.reveal_signal("a".to_string(), b"bc".to_vec(), 10).unwrap_err();
    assert_eq!(error, RevealError::DoesNotOpen);
    assert_eq!(error.message(), "payload and nonce do not open this commitment");
    assert_eq!(vault.payload(), None);
    assert_eq!(vault.nonce(), None);
    assert_eq!(vault.revealed_at_epoch(), None);
}

#[test]
fn a_commitment_to_nothing_stays_sealed() {
    let mut vault =
        SignalVault::publish(Hash32::from_array([0u8; 32]), 10, Amount(7), gold(), 3).unwrap().vault;
    assert_eq!(
        vault.reveal_signal(String::new(), Vec::new(), 10).unwrap_err(),
        RevealError::DoesNotOpen
    );
    assert_eq!(vault.payload(), None);
}

#[test]
fn an_opening_is_judged_by_its_digest() {
    let digest = Hash32::from_array([5u8; 32]);
    let mut vault = SignalVault::publish(digest, 10, Amount(7), gold(), 3).unwrap().vault;
    assert_eq!(
        vault
            .open_with(Hash32::from_array([6u8; 32]), "p".to_string(), b"n".to_vec(), 10)
            .unwrap_err(),
        RevealError::DoesNotOpen
    );
    let event = vault.open_with(digest, "p".to_string(), b"n".to_vec(), 10).unwrap();
    assert_eq!(event.details[0].1, "05".repeat(32));
    assert_eq!(vault.payload(), Some("p".to_string()));
}

#[test]
fn the_owner_withdraws_proceeds() {
    let mut vault = sealed("p", b"n");
    vault.purchase(pay(7), 4).unwrap();
    vault.purchase(pay(8), 4).unwrap();
    let proceeds = vault.withdraw(Caller::Owner, Amount(10)).unwrap();
    assert_eq!(proceeds.amount, Amount(10));
    assert_eq!(proceeds.resource, gold());
    assert_eq!(vault.earnings_balance(), Amount(4));
    assert_eq!(vault.sold(), 2);
}

#[test]
fn nobody_else_withdraws_proceeds() {
    let mut vault = worn(1, 7);
    let error = vault.withdraw(Caller::Other, Amount(1)).unwrap_err();
    assert_eq!(error, WithdrawError::NotOwner);
    assert_eq!(error.message(), "only the owner may withdraw");
    assert_eq!(
        vault.withdraw_confidential(Caller::Other, Amount(0)).unwrap_err(),
        WithdrawError::NotOwner
    );
    assert_eq!(vault.earnings_balance(), Amount(7));
}

#[test]
fn no_more_is_withdrawn_than_was_earned() {
    let mut vault = worn(1, 7);
    let error = vault.withdraw(Caller::Owner, Amount(8)).unwrap_err();
    assert_eq!(
        error,
        WithdrawError::InsufficientEarnings { amount: Amount(8), balance: Amount(7) }
    );
    assert_eq!(error.message(), "cannot withdraw 8 from a balance of 7");
    assert_eq!(vault.earnings_balance(), Amount(7));
    assert!(vault.withdraw(Caller::Owner, Amount(7)).is_ok());
    assert_eq!(vault.earnings_balance(), Amount(0));
}

#[test]
fn a_confidential_withdrawal_leaves_what_the_ledger_reports() {
    let mut vault = worn(3, 21);
    assert!(vault.withdraw_confidential(Caller::Owner, Amount(5)).is_ok());
    assert_eq!(vault.earnings_balance(), Amount(5));
    assert_eq!(vault.sold(), 3);
}

#[test]
fn earnings_add_up_over_a_life() {
    let mut vault = sealed("p", b"n");
    let mut taken: u128 = 0;
    for epoch in 3..10 {
        vault.purchase(pay(7 + epoch as u128), epoch).unwrap();
        if epoch % 3 == 0 {
            taken += vault.withdraw(Caller::Owner, Amount(5)).unwrap().amount.0;
        }
        assert!(vault.purchase(pay(1), epoch).is_err());
    }
    assert_eq!(vault.sold(), 7);
    assert_eq!(vault.earnings_balance().0 + taken, 7 * 7);
    assert_eq!(vault.price(), Amount(7));
    assert_eq!(vault.commitment(), commitment_of("p", b"n"));
}

#[test]
fn numbers_are_written_in_decimal() {
    assert_eq!(decimal_text(0), "0");
    assert_eq!(decimal_text(9), "9");
    assert_eq!(decimal_text(10), "10");
    assert_eq!(decimal_text(1_203_456_789), "1203456789");
    assert_eq!(decimal_text(u128::MAX), u128::MAX.to_string());
}

#[test]
fn a_resource_address_keeps_its_bytes() {
    assert_eq!(gold().into_array(), [1u8; 32]);
    assert!(gold() == ResourceAddress::from_array([1u8; 32]));
    assert!(gold() != silver());
}

#[test]
fn a_stored_vault_is_as_it_was() {
    let vault = SignalVault::restore(
        commitment_of("p", b"n"),
        10,
        Amount(7),
        Earnings { resource: gold(), balance: Amount(14) },
        Some("p".to_string()),
        Some(b"n".to_vec()),
        Some(11),
        2,
    );
    assert_eq!(vault.commitment(), commitment_of("p", b"n"));
    assert_eq!(vault.reveal_at_epoch(), 10);
    assert_eq!(vault.price(), Amount(7));
    assert_eq!(vault.earnings_balance(), Amount(14));
    assert_eq!(vault.payload(), Some("p".to_string()));
    assert_eq!(vault.nonce(), Some(b"n".to_vec()));
    assert_eq!(vault.revealed_at_epoch(), Some(11));
    assert_eq!(vault.sold(), 2);
}
