//! The full life of one signal.
//!
//! The tests of the commitment cover the hash in isolation. They cannot cover the part that actually
//! carries the product claim: that a buyer pays for something sealed, that the provider cannot open
//! it early or open it as something else, and that the sale closes on its own at expiry.

use signal_vault::{
    Amount, Bucket, PurchaseError, ResourceAddress, RevealError, SignalVault,
};
use tari_template_lib::types::constants::TARI_TOKEN;

const PAYLOAD: &str = "BTCUSDT long 62000 sl 60500 tp 67000";
const NONCE: &[u8] = b"demo-nonce-01";
const PRICE: u128 = 1_000;
const REVEAL_AT_EPOCH: u64 = 5;

fn tari_token() -> ResourceAddress {
    ResourceAddress::from_array(TARI_TOKEN.as_object_key().into_array())
}

/// publish -> purchase -> (early reveal rejected) -> (wrong payload rejected) -> reveal -> readable
#[test]
fn a_sealed_signal_is_sold_then_opened_only_at_expiry_and_only_as_committed() {
    let mut epoch: u64 = 1;

    let commitment = SignalVault::digest_of(PAYLOAD.to_string(), NONCE.to_vec());
    let mut vault =
        SignalVault::publish(commitment, REVEAL_AT_EPOCH, Amount(PRICE), tari_token(), epoch)
            .unwrap()
            .vault;

    // Sealed: the payload is not on-chain before expiry.
    let sealed: Option<String> = vault.payload();
    assert!(sealed.is_none(), "the payload must not be readable before the reveal epoch");
    assert_eq!(vault.sold(), 0);

    // --- a buyer pays and receives an access badge -------------------------------------------
    let payment = Bucket { resource: tari_token(), amount: Amount(PRICE), promised: Amount(0) };
    let (badge, change) = vault.purchase(payment, epoch).unwrap();
    assert_eq!(badge.commitment, commitment.into_array());
    assert_eq!(badge.bought_at_epoch, 1);
    assert_eq!(change.amount, Amount(0));
    assert_eq!(vault.sold(), 1, "the purchase must be recorded");
    assert_eq!(
        vault.earnings_balance(),
        Amount(PRICE),
        "the payment must land in the vault"
    );

    // --- the provider cannot open it early ----------------------------------------------------
    assert_eq!(
        vault.reveal_signal(PAYLOAD.to_string(), NONCE.to_vec(), epoch).unwrap_err(),
        RevealError::TooEarly { reveal_at_epoch: REVEAL_AT_EPOCH, now: 1 }
    );

    epoch = REVEAL_AT_EPOCH;

    // --- and cannot open it as something else -------------------------------------------------
    // The whole track-record claim rests on this failing.
    assert_eq!(
        vault
            .reveal_signal("BTCUSDT short 62000 sl 63500".to_string(), NONCE.to_vec(), epoch)
            .unwrap_err(),
        RevealError::DoesNotOpen
    );

    // Nothing was written by the failed attempts.
    let still_sealed: Option<String> = vault.payload();
    assert!(still_sealed.is_none(), "a rejected reveal must not mutate state");

    // --- the real reveal, callable by anyone --------------------------------------------------
    vault.reveal_signal(PAYLOAD.to_string(), NONCE.to_vec(), epoch).unwrap();

    let opened: Option<String> = vault.payload();
    assert_eq!(opened.as_deref(), Some(PAYLOAD), "the committed payload must be readable");
    assert_eq!(vault.revealed_at_epoch(), Some(REVEAL_AT_EPOCH));

    // --- and the sale is closed, because the payload is public now -----------------------------
    let late_payment = Bucket { resource: tari_token(), amount: Amount(PRICE), promised: Amount(0) };
    assert_eq!(
        vault.purchase(late_payment, epoch).unwrap_err(),
        PurchaseError::AlreadyRevealed
    );
    assert_eq!(vault.sold(), 1, "selling must stop once the signal is public");
}
