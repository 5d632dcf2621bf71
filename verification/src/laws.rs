//! What each call means: when it is granted, why it is refused, and what becomes of every part of
//! the vault.

use vstd::prelude::*;

use crate::error::{PublishError, PurchaseError, RevealError, WithdrawError};
use crate::ledger::{Access, Amount, Caller};
use crate::state::{Call, State};

verus! {

/// A signal is published exactly when its reveal epoch lies ahead and its price is positive.
pub proof fn publishing_needs_a_future_and_a_price(reveal_at_epoch: u64, price: Amount, now: u64)
    ensures
        ({
            let refusal = crate::state::publish_refusal(reveal_at_epoch, price, now);
            &&& refusal is None <==> now < reveal_at_epoch && price.0 > 0
            &&& refusal == Some(PublishError::NotInFuture { reveal_at_epoch, now })
                <==> reveal_at_epoch <= now
            &&& refusal == Some(PublishError::PriceNotPositive) <==> now < reveal_at_epoch
                && price.0 == 0
        }),
{
}

/// A published vault carries the terms it was published with, has earned and sold nothing, shows
/// nothing, and sells to nobody who offers less than its price.
pub proof fn publishing_keeps_the_terms(
    commitment: Seq<u8>,
    reveal_at_epoch: u64,
    price: Amount,
    resource: Seq<u8>,
)
    ensures
        ({
            let vault = State::published(commitment, reveal_at_epoch, price, resource);
            &&& vault.commitment == commitment
            &&& vault.reveal_at_epoch == reveal_at_epoch
            &&& vault.price == price
            &&& vault.resource == resource
            &&& vault.balance == Amount(0)
            &&& vault.sold == 0
            &&& vault.payload is None
            &&& vault.nonce is None
            &&& vault.revealed_at_epoch is None
            &&& forall|offered: Seq<u8>, paid: Amount, promised: Amount, now: u64|
                paid.0 + promised.0 < price.0 ==> !#[trigger] crate::state::granted(
                    vault,
                    Call::Purchase { resource: offered, paid, promised, now },
                )
        }),
{
}

/// A payment buys a badge exactly when the signal is sealed and its reveal epoch lies ahead, the
/// payment is in the right resource, its revealed tokens and what is promised of the others reach
/// the price, and the vault can still count tokens and badges.
pub proof fn a_payment_must_cover_the_price(
    state: State,
    resource: Seq<u8>,
    paid: Amount,
    promised: Amount,
    now: u64,
)
    ensures
        crate::state::granted(state, Call::Purchase { resource, paid, promised, now }) <==> {
            &&& state.payload is None
            &&& now < state.reveal_at_epoch
            &&& resource == state.resource
            &&& paid.0 + promised.0 >= state.price.0
            &&& promised.0 >= state.price.0 || state.balance.0 + state.price.0 - promised.0
                <= u128::MAX
            &&& state.sold < u64::MAX
        },
{
}

/// A refused payment is told the first thing that is wrong with it.
pub proof fn a_refused_payment_is_told_why(
    state: State,
    resource: Seq<u8>,
    paid: Amount,
    promised: Amount,
    now: u64,
)
    ensures
        ({
            let refusal = crate::state::purchase_refusal(state, resource, paid, promised, now);
            let open = state.payload is None && now < state.reveal_at_epoch;
            let right = open && resource == state.resource;
            let enough = right && paid.0 + promised.0 >= state.price.0;
            let held = promised.0 >= state.price.0 || state.balance.0 + state.price.0 - promised.0
                <= u128::MAX;
            &&& refusal == Some(PurchaseError::AlreadyRevealed) <==> state.payload is Some
            &&& refusal == Some(PurchaseError::SaleClosed) <==> state.payload is None
                && state.reveal_at_epoch <= now
            &&& refusal == Some(PurchaseError::WrongResource) <==> open && resource
                != state.resource
            &&& refusal == Some(PurchaseError::PaidTooLittle { paid, price: state.price })
                <==> right && paid.0 + promised.0 < state.price.0
            &&& refusal == Some(PurchaseError::EarningsOverflow) <==> enough && !held
            &&& refusal == Some(PurchaseError::SoldOverflow) <==> enough && held && state.sold
                == u64::MAX
            &&& refusal is None <==> enough && held && state.sold < u64::MAX
        }),
{
}

/// A sale counts one badge and leaves in the vault the revealed tokens that the promise leaves open
/// of the price: with the promise, as far as it counts, exactly the price. Nothing else changes.
pub proof fn a_sale_earns_the_price(
    state: State,
    resource: Seq<u8>,
    paid: Amount,
    promised: Amount,
    now: u64,
)
    requires
        crate::state::granted(state, Call::Purchase { resource, paid, promised, now }),
    ensures
        ({
            let after = crate::state::step(
                state,
                Call::Purchase { resource, paid, promised, now },
            );
            &&& after.sold == state.sold + 1
            &&& promised.0 <= state.price.0 ==> after.balance.0 + promised.0 == state.balance.0
                + state.price.0
            &&& promised.0 >= state.price.0 ==> after.balance == state.balance
            &&& after.balance.0 - state.balance.0 <= paid.0
            &&& after.commitment == state.commitment
            &&& after.reveal_at_epoch == state.reveal_at_epoch
            &&& after.price == state.price
            &&& after.resource == state.resource
            &&& after.payload == state.payload
            &&& after.nonce == state.nonce
            &&& after.revealed_at_epoch == state.revealed_at_epoch
        }),
{
}

/// What is kept of a payment and what is promised of it never fall short of the price, and no more
/// is kept than that takes.
pub proof fn what_is_kept_makes_up_the_price(price: Amount, promised: Amount)
    ensures
        crate::state::kept(price, promised).0 + promised.0 >= price.0,
        crate::state::kept(price, promised).0 > 0 ==> crate::state::kept(price, promised).0
            + promised.0 == price.0,
{
}

/// No badge is ever sold for tokens of another resource: whatever was called before, such a payment
/// is refused, and neither the badges sold nor the balance move.
pub proof fn another_resource_never_buys(
    state: State,
    calls: Seq<Call>,
    resource: Seq<u8>,
    paid: Amount,
    promised: Amount,
    now: u64,
)
    requires
        resource != state.resource,
    ensures
        ({
            let vault = crate::history::run(state, calls);
            let payment = Call::Purchase { resource, paid, promised, now };
            &&& !crate::state::granted(vault, payment)
            &&& crate::state::step(vault, payment).sold == vault.sold
            &&& crate::state::step(vault, payment).balance == vault.balance
        }),
{
    crate::history::terms_never_change(state, calls);
}

/// An opening is accepted exactly when the reveal epoch has come, nothing is shown yet, and payload
/// and nonce hash to the commitment.
pub proof fn an_opening_must_match(state: State, payload: Seq<char>, nonce: Seq<u8>, now: u64)
    ensures
        crate::state::granted(state, Call::Reveal { payload, nonce, now }) <==> {
            &&& state.reveal_at_epoch <= now
            &&& state.payload is None
            &&& crate::commitment::blake2b_256(crate::commitment::message(payload, nonce))
                == state.commitment
        },
{
}

/// A refused opening is told the first thing that is wrong with it.
pub proof fn a_refused_opening_is_told_why(state: State, digest: Seq<u8>, now: u64)
    ensures
        ({
            let refusal = crate::state::reveal_refusal(state, digest, now);
            let due = state.reveal_at_epoch <= now;
            &&& refusal == Some(
                RevealError::TooEarly { reveal_at_epoch: state.reveal_at_epoch, now },
            ) <==> now < state.reveal_at_epoch
            &&& refusal == Some(RevealError::AlreadyRevealed) <==> due && state.payload is Some
            &&& refusal == Some(RevealError::DoesNotOpen) <==> due && state.payload is None
                && digest != state.commitment
            &&& refusal is None <==> due && state.payload is None && digest == state.commitment
        }),
{
}

/// An accepted opening shows the payload and the nonce that were offered, and records the epoch in
/// which that happened. Nothing else changes.
pub proof fn an_opening_shows_what_was_offered(
    state: State,
    payload: Seq<char>,
    nonce: Seq<u8>,
    now: u64,
)
    requires
        crate::state::granted(state, Call::Reveal { payload, nonce, now }),
    ensures
        ({
            let after = crate::state::step(state, Call::Reveal { payload, nonce, now });
            &&& after.payload == Some(payload)
            &&& after.nonce == Some(nonce)
            &&& after.revealed_at_epoch == Some(now)
            &&& after.commitment == state.commitment
            &&& after.reveal_at_epoch == state.reveal_at_epoch
            &&& after.price == state.price
            &&& after.resource == state.resource
            &&& after.balance == state.balance
            &&& after.sold == state.sold
        }),
{
}

/// The owner can always take out what the vault holds, whatever has been sold or shown; nobody can
/// take out more, and nobody else can take out anything.
pub proof fn the_owner_can_always_withdraw(state: State, caller: Caller, amount: Amount)
    ensures
        crate::state::granted(state, Call::Withdraw { caller, amount }) <==> caller == Caller::Owner
            && amount.0 <= state.balance.0,
        crate::state::withdraw_refusal(state, caller, amount) == Some(WithdrawError::NotOwner)
            <==> caller == Caller::Other,
        crate::state::withdraw_refusal(state, caller, amount) == Some(
            WithdrawError::InsufficientEarnings { amount, balance: state.balance },
        ) <==> caller == Caller::Owner && amount.0 > state.balance.0,
{
}

/// A withdrawal takes out of the vault what was asked for. Nothing else changes.
pub proof fn a_withdrawal_takes_what_was_asked_for(state: State, caller: Caller, amount: Amount)
    requires
        crate::state::granted(state, Call::Withdraw { caller, amount }),
    ensures
        ({
            let after = crate::state::step(state, Call::Withdraw { caller, amount });
            &&& after.balance.0 + amount.0 == state.balance.0
            &&& after.commitment == state.commitment
            &&& after.reveal_at_epoch == state.reveal_at_epoch
            &&& after.price == state.price
            &&& after.resource == state.resource
            &&& after.payload == state.payload
            &&& after.nonce == state.nonce
            &&& after.revealed_at_epoch == state.revealed_at_epoch
            &&& after.sold == state.sold
        }),
{
}

/// A confidential withdrawal is for the owner, always, and leaves the balance that the ledger
/// reports. Nothing else changes.
pub proof fn a_confidential_withdrawal_leaves_what_is_reported(
    state: State,
    caller: Caller,
    balance: Amount,
)
    ensures
        ({
            let withdrawal = Call::WithdrawConfidential { caller, balance };
            let after = crate::state::step(state, withdrawal);
            &&& crate::state::granted(state, withdrawal) <==> caller == Caller::Owner
            &&& crate::state::withdraw_confidential_refusal(caller) == Some(
                WithdrawError::NotOwner,
            ) <==> caller == Caller::Other
            &&& after.balance == (if caller == Caller::Owner {
                balance
            } else {
                state.balance
            })
            &&& after.commitment == state.commitment
            &&& after.reveal_at_epoch == state.reveal_at_epoch
            &&& after.price == state.price
            &&& after.resource == state.resource
            &&& after.payload == state.payload
            &&& after.nonce == state.nonce
            &&& after.revealed_at_epoch == state.revealed_at_epoch
            &&& after.sold == state.sold
        }),
{
}

/// A refused call leaves the vault as it was.
pub proof fn a_refused_call_changes_nothing(state: State, call: Call)
    requires
        !crate::state::granted(state, call),
    ensures
        crate::state::step(state, call) == state,
{
}

/// Only withdrawals are kept for the owner, and the owner may call everything.
pub proof fn only_withdrawals_are_restricted(method: Seq<char>, caller: Caller)
    ensures
        crate::state::access_of(method) == Access::Owner <==> method == "withdraw"@ || method
            == "withdraw_confidential"@,
        crate::state::access_of(method).admits(caller) <==> caller == Caller::Owner || (method
            != "withdraw"@ && method != "withdraw_confidential"@),
{
}

/// A vault is well formed exactly when its commitment is a digest, its price is positive, and what
/// it shows, if anything, is a payload and a nonce that open the commitment, shown when that was
/// allowed.
pub proof fn well_formed_vaults_show_openings_only(state: State)
    ensures
        state.wf() <==> {
            &&& state.commitment.len() == 32
            &&& state.price.0 > 0
            &&& match (state.payload, state.nonce, state.revealed_at_epoch) {
                (None, None, None) => true,
                (Some(payload), Some(nonce), Some(shown_at)) => state.reveal_at_epoch <= shown_at
                    && crate::commitment::blake2b_256(crate::commitment::message(payload, nonce))
                    == state.commitment,
                _ => false,
            }
        },
{
}

/// What the ledger is told when a signal is not published.
pub proof fn publish_messages(reveal_at_epoch: u64, now: u64)
    ensures
        (PublishError::NotInFuture { reveal_at_epoch, now }).message_view() == "reveal_at_epoch "@
            + crate::text::decimal(reveal_at_epoch as nat)
            + " must be in the future (current epoch "@ + crate::text::decimal(now as nat) + ")"@,
        PublishError::PriceNotPositive.message_view() == "price must be positive"@,
{
}

/// What the ledger is told when a badge is not sold.
pub proof fn purchase_messages(paid: Amount, price: Amount)
    ensures
        PurchaseError::AlreadyRevealed.message_view()
            == "signal already revealed; nothing left to sell"@,
        PurchaseError::SaleClosed.message_view()
            == "sale closed: the reveal epoch has been reached"@,
        PurchaseError::WrongResource.message_view() == "wrong payment resource"@,
        (PurchaseError::PaidTooLittle { paid, price }).message_view() =~= "paid "@
            + crate::text::decimal(paid.0 as nat) + " but the price is "@ + crate::text::decimal(
            price.0 as nat,
        ),
        PurchaseError::EarningsOverflow.message_view() == "attempt to add with overflow"@,
        PurchaseError::SoldOverflow.message_view() == "attempt to add with overflow"@,
{
    reveal_strlit("");
}

/// What the ledger is told when a commitment is not opened.
pub proof fn reveal_messages(reveal_at_epoch: u64, now: u64)
    ensures
        (RevealError::TooEarly { reveal_at_epoch, now }).message_view()
            == "too early: reveal opens at epoch "@ + crate::text::decimal(reveal_at_epoch as nat)
            + " (current "@ + crate::text::decimal(now as nat) + ")"@,
        RevealError::AlreadyRevealed.message_view() == "already revealed"@,
        RevealError::DoesNotOpen.message_view() == "payload and nonce do not open this commitment"@,
{
}

/// What the ledger is told when proceeds are not paid out.
pub proof fn withdraw_messages(amount: Amount, balance: Amount)
    ensures
        WithdrawError::NotOwner.message_view() == "only the owner may withdraw"@,
        (WithdrawError::InsufficientEarnings { amount, balance }).message_view()
            =~= "cannot withdraw "@ + crate::text::decimal(amount.0 as nat)
            + " from a balance of "@ + crate::text::decimal(balance.0 as nat),
{
    reveal_strlit("");
}

}
