//! What holds over the whole life of a vault, whatever calls are made and in whatever order. An
//! opening is one whose digest was computed from its payload and nonce.

use vstd::prelude::*;

use crate::ledger::{Amount, Caller};
use crate::state::{Call, State};

verus! {

/// The vault after a sequence of calls.
pub open spec fn run(state: State, calls: Seq<Call>) -> State
    decreases calls.len(),
{
    if calls.len() == 0 {
        state
    } else {
        crate::state::step(run(state, calls.drop_last()), calls.last())
    }
}

/// The number of badges sold by a sequence of calls.
pub open spec fn sales(state: State, calls: Seq<Call>) -> nat
    decreases calls.len(),
{
    if calls.len() == 0 {
        0
    } else {
        let before = run(state, calls.drop_last());
        let sale: nat = if calls.last() is Purchase && crate::state::granted(before, calls.last()) {
            1
        } else {
            0
        };
        sales(state, calls.drop_last()) + sale
    }
}

/// The revealed tokens that a sequence of calls left in the vault as the price of badges.
pub open spec fn collected(state: State, calls: Seq<Call>) -> nat
    decreases calls.len(),
{
    if calls.len() == 0 {
        0
    } else {
        let before = run(state, calls.drop_last());
        let kept: nat = match calls.last() {
            Call::Purchase { promised, .. } if crate::state::granted(before, calls.last()) => {
                crate::state::kept(before.price, promised).0 as nat
            },
            _ => 0,
        };
        collected(state, calls.drop_last()) + kept
    }
}

/// The revealed tokens that left the vault over a sequence of calls: those withdrawn, and those by which the
/// ledger reports less after a confidential withdrawal.
pub open spec fn taken_out(state: State, calls: Seq<Call>) -> int
    decreases calls.len(),
{
    if calls.len() == 0 {
        0
    } else {
        let before = run(state, calls.drop_last());
        let taken: int = if !crate::state::granted(before, calls.last()) {
            0
        } else {
            match calls.last() {
                Call::Withdraw { amount, .. } => amount.0 as int,
                Call::WithdrawConfidential { balance, .. } => before.balance.0 - balance.0,
                _ => 0,
            }
        };
        taken_out(state, calls.drop_last()) + taken
    }
}

/// A vault stays well formed: at every moment of its life, whatever payload it shows opens its
/// commitment and was opened no earlier than allowed.
pub proof fn always_well_formed(state: State, calls: Seq<Call>)
    requires
        state.wf(),
    ensures
        run(state, calls).wf(),
    decreases calls.len(),
{
    if calls.len() > 0 {
        always_well_formed(state, calls.drop_last());
    }
}

/// The terms are fixed when the signal is published: no call changes the commitment, the reveal
/// epoch, the price or the payment resource.
pub proof fn terms_never_change(state: State, calls: Seq<Call>)
    ensures
        run(state, calls).commitment == state.commitment,
        run(state, calls).reveal_at_epoch == state.reveal_at_epoch,
        run(state, calls).price == state.price,
        run(state, calls).resource == state.resource,
    decreases calls.len(),
{
    if calls.len() > 0 {
        terms_never_change(state, calls.drop_last());
    }
}

/// A reveal is for good: once the payload is public, payload, nonce and epoch of the reveal stay
/// as they are, and no further badge is sold.
pub proof fn a_reveal_is_permanent(state: State, calls: Seq<Call>)
    requires
        state.payload is Some,
    ensures
        run(state, calls).payload == state.payload,
        run(state, calls).nonce == state.nonce,
        run(state, calls).revealed_at_epoch == state.revealed_at_epoch,
        run(state, calls).sold == state.sold,
    decreases calls.len(),
{
    if calls.len() > 0 {
        a_reveal_is_permanent(state, calls.drop_last());
    }
}

/// A payload is permanently bound to the epoch at which it was sealed: whatever a vault shows opens
/// the commitment that was published then, was shown in a later epoch only, and stays as it is
/// through all later calls.
pub proof fn bound_to_the_epoch_of_sealing(
    commitment: Seq<u8>,
    reveal_at_epoch: u64,
    price: Amount,
    resource: Seq<u8>,
    sealed_at: u64,
    calls: Seq<Call>,
    later: Seq<Call>,
)
    requires
        commitment.len() == 32,
        crate::state::publish_refusal(reveal_at_epoch, price, sealed_at) is None,
    ensures
        ({
            let vault = run(State::published(commitment, reveal_at_epoch, price, resource), calls);
            &&& vault.commitment == commitment
            &&& vault.revealed_at_epoch matches Some(shown_at) ==> sealed_at < shown_at
            &&& vault.payload is Some ==> {
                &&& vault.nonce is Some
                &&& vault.revealed_at_epoch is Some
                &&& commitment == crate::commitment::commitment(vault.payload->0, vault.nonce->0)
                &&& run(vault, later).commitment == commitment
                &&& run(vault, later).payload == vault.payload
                &&& run(vault, later).nonce == vault.nonce
                &&& run(vault, later).revealed_at_epoch == vault.revealed_at_epoch
            }
        }),
{
    let published = State::published(commitment, reveal_at_epoch, price, resource);
    let vault = run(published, calls);
    always_well_formed(published, calls);
    terms_never_change(published, calls);
    terms_never_change(vault, later);
    if vault.payload is Some {
        a_reveal_is_permanent(vault, later);
    }
}

/// A signal is sealed while it is for sale: as long as nobody tries to open it at the reveal epoch
/// or later, nothing of the payload is readable, whatever else is called.
pub proof fn sealed_before_the_reveal_epoch(state: State, calls: Seq<Call>)
    requires
        state.wf(),
        state.payload is None,
        forall|i: int|
            0 <= i < calls.len() ==> (#[trigger] calls[i] matches Call::Reveal { now, .. } ==> now
                < state.reveal_at_epoch),
    ensures
        run(state, calls).payload is None,
        run(state, calls).nonce is None,
        run(state, calls).revealed_at_epoch is None,
    decreases calls.len(),
{
    if calls.len() > 0 {
        let before = calls.drop_last();
        sealed_before_the_reveal_epoch(state, before);
        terms_never_change(state, before);
    }
    always_well_formed(state, calls);
}

/// Whoever holds the sealed payload and nonce can open the commitment from the reveal epoch on,
/// after any calls, unless it is open already.
pub proof fn anyone_can_open_from_the_reveal_epoch(
    state: State,
    calls: Seq<Call>,
    payload: Seq<char>,
    nonce: Seq<u8>,
    now: u64,
)
    requires
        state.commitment == crate::commitment::commitment(payload, nonce),
        state.reveal_at_epoch <= now,
        run(state, calls).payload is None,
    ensures
        crate::state::granted(run(state, calls), Call::Reveal { payload, nonce, now }),
        run(state, calls.push(Call::Reveal { payload, nonce, now })) == run(
            state,
            calls,
        ).after_reveal(payload, nonce, now),
{
    terms_never_change(state, calls);
    let reveal = Call::Reveal { payload, nonce, now };
    assert(calls.push(reveal).drop_last() =~= calls);
}

/// Nothing but an opening is ever shown: a vault whose commitment is the digest of no payload and
/// nonce can never be revealed.
pub proof fn a_commitment_to_nothing_is_never_revealed(state: State, calls: Seq<Call>)
    requires
        state.wf(),
        forall|payload: Seq<char>, nonce: Seq<u8>|
            state.commitment != #[trigger] crate::commitment::commitment(payload, nonce),
    ensures
        run(state, calls).payload is None,
{
    always_well_formed(state, calls);
    terms_never_change(state, calls);
}

/// A track record cannot be faked: if a vault that was sealed over one payload and nonce ever
/// shows another, then two different messages with the same BLAKE2b digest have been found.
pub proof fn only_the_sealed_payload_is_shown(
    state: State,
    calls: Seq<Call>,
    payload: Seq<char>,
    nonce: Seq<u8>,
)
    requires
        state.wf(),
        state.commitment == crate::commitment::commitment(payload, nonce),
        crate::commitment::fits(payload, nonce),
        run(state, calls).payload is Some,
        crate::commitment::fits(run(state, calls).payload->0, run(state, calls).nonce->0),
    ensures
        ({
            let shown = run(state, calls);
            let sealed = crate::commitment::message(payload, nonce);
            let opened = crate::commitment::message(shown.payload->0, shown.nonce->0);
            ||| shown.payload == Some(payload) && shown.nonce == Some(nonce)
            ||| sealed != opened && crate::commitment::blake2b_256(sealed)
                == crate::commitment::blake2b_256(opened)
        }),
{
    always_well_formed(state, calls);
    terms_never_change(state, calls);
    let shown = run(state, calls);
    if shown.payload->0 != payload || shown.nonce->0 != nonce {
        crate::commitment::two_openings_are_a_collision(
            payload,
            nonce,
            shown.payload->0,
            shown.nonce->0,
        );
    }
}

/// A signal that has just been published is for sale: in the epoch of its publication, whoever
/// offers at least the price in the right resource, revealed or promised, gets a badge.
pub proof fn a_published_signal_is_for_sale(
    commitment: Seq<u8>,
    reveal_at_epoch: u64,
    price: Amount,
    resource: Seq<u8>,
    paid: Amount,
    promised: Amount,
    now: u64,
)
    requires
        crate::state::publish_refusal(reveal_at_epoch, price, now) is None,
        paid.0 + promised.0 >= price.0,
    ensures
        crate::state::granted(
            State::published(commitment, reveal_at_epoch, price, resource),
            Call::Purchase { resource, paid, promised, now },
        ),
{
}

/// Selling stops at the reveal epoch: from then on every payment is refused, after any calls.
pub proof fn no_sale_from_the_reveal_epoch(
    state: State,
    calls: Seq<Call>,
    resource: Seq<u8>,
    paid: Amount,
    promised: Amount,
    now: u64,
)
    requires
        state.reveal_at_epoch <= now,
    ensures
        !crate::state::granted(
            run(state, calls),
            Call::Purchase { resource, paid, promised, now },
        ),
{
    terms_never_change(state, calls);
}

/// The counter of badges sold counts exactly the payments that were accepted.
pub proof fn sold_counts_the_sales(state: State, calls: Seq<Call>)
    ensures
        run(state, calls).sold == state.sold + sales(state, calls),
    decreases calls.len(),
{
    if calls.len() > 0 {
        sold_counts_the_sales(state, calls.drop_last());
    }
}

/// Every payment lands in the vault: what it holds and what was taken out add up to what it held
/// at first and what was kept for every badge sold since.
pub proof fn earnings_add_up(state: State, calls: Seq<Call>)
    ensures
        run(state, calls).balance.0 + taken_out(state, calls) == state.balance.0 + collected(
            state,
            calls,
        ),
    decreases calls.len(),
{
    if calls.len() > 0 {
        earnings_add_up(state, calls.drop_last());
    }
}

/// When every payment is made in revealed tokens, the price is kept for every badge sold.
pub proof fn revealed_payments_leave_the_price(state: State, calls: Seq<Call>)
    requires
        forall|i: int|
            0 <= i < calls.len() ==> (#[trigger] calls[i] matches Call::Purchase { promised, .. }
                ==> promised == Amount(0)),
    ensures
        collected(state, calls) == state.price.0 * sales(state, calls),
    decreases calls.len(),
{
    if calls.len() > 0 {
        let before = calls.drop_last();
        revealed_payments_leave_the_price(state, before);
        terms_never_change(state, before);
        let price = state.price.0 as int;
        let count = sales(state, before) as int;
        assert(price * (count + 1) == price * count + price) by (nonlinear_arith);
    }
}

/// While a signal is for sale, a payment in blinded tokens that promise the price buys a badge, with
/// or without revealed tokens beside them, and the vault holds no revealed token more than before.
pub proof fn a_hidden_payment_buys_a_badge(state: State, paid: Amount, promised: Amount, now: u64)
    requires
        state.payload is None,
        now < state.reveal_at_epoch,
        state.sold < u64::MAX,
        promised.0 >= state.price.0,
    ensures
        ({
            let payment = Call::Purchase { resource: state.resource, paid, promised, now };
            &&& crate::state::granted(state, payment)
            &&& crate::state::step(state, payment).sold == state.sold + 1
            &&& crate::state::step(state, payment).balance == state.balance
        }),
{
}

/// Whether two calls look alike: they are the same, but for how much is promised of a payment that
/// promises at least the price.
pub open spec fn look_alike(price: Amount, call: Call, other: Call) -> bool {
    ||| call == other
    ||| {
        &&& call is Purchase
        &&& other is Purchase
        &&& call->Purchase_resource == other->Purchase_resource
        &&& call->Purchase_paid == other->Purchase_paid
        &&& call->Purchase_now == other->Purchase_now
        &&& call->Purchase_promised.0 >= price.0
        &&& other->Purchase_promised.0 >= price.0
    }
}

/// What is paid in blinded tokens stays hidden: two payments of the same resource, with as many
/// revealed tokens and both with a promise of at least the price, meet with the same answer, leave
/// the same vault, and do not touch its balance.
pub proof fn hidden_payments_look_alike(
    state: State,
    resource: Seq<u8>,
    paid: Amount,
    promised: Amount,
    other_promised: Amount,
    now: u64,
)
    requires
        promised.0 >= state.price.0,
        other_promised.0 >= state.price.0,
    ensures
        crate::state::purchase_refusal(state, resource, paid, promised, now)
            == crate::state::purchase_refusal(state, resource, paid, other_promised, now),
        crate::state::kept(state.price, promised) == Amount(0),
        crate::state::kept(state.price, other_promised) == Amount(0),
        crate::state::step(state, Call::Purchase { resource, paid, promised, now })
            == crate::state::step(
            state,
            Call::Purchase { resource, paid, promised: other_promised, now },
        ),
        crate::state::step(state, Call::Purchase { resource, paid, promised, now }).balance
            == state.balance,
{
}

/// Nothing in the whole life of a vault tells how much was paid in blinded tokens: histories that
/// look alike, call by call, lead to the same vault.
pub proof fn hidden_payments_stay_hidden(state: State, calls: Seq<Call>, others: Seq<Call>)
    requires
        calls.len() == others.len(),
        forall|i: int|
            0 <= i < calls.len() ==> #[trigger] look_alike(state.price, calls[i], others[i]),
    ensures
        run(state, calls) == run(state, others),
    decreases calls.len(),
{
    if calls.len() > 0 {
        let before = calls.drop_last();
        let others_before = others.drop_last();
        assert forall|i: int| 0 <= i < before.len() implies #[trigger] look_alike(
            state.price,
            before[i],
            others_before[i],
        ) by {
            assert(look_alike(state.price, calls[i], others[i]));
        }
        hidden_payments_stay_hidden(state, before, others_before);
        terms_never_change(state, before);
        let last = calls.len() - 1;
        assert(look_alike(state.price, calls[last], others[last]));
    }
}

/// Revenue stays hidden: as long as every payment promises at least the price and the ledger reports
/// no revealed tokens after a confidential withdrawal, a balance of zero stays zero, however many
/// badges are sold.
pub proof fn hidden_revenue_is_not_shown(state: State, calls: Seq<Call>)
    requires
        state.balance == Amount(0),
        forall|i: int|
            0 <= i < calls.len() ==> match #[trigger] calls[i] {
                Call::Purchase { promised, .. } => promised.0 >= state.price.0,
                Call::WithdrawConfidential { balance, .. } => balance == Amount(0),
                _ => true,
            },
    ensures
        run(state, calls).balance == Amount(0),
    decreases calls.len(),
{
    if calls.len() > 0 {
        hidden_revenue_is_not_shown(state, calls.drop_last());
        terms_never_change(state, calls.drop_last());
    }
}

/// Proceeds are for the owner: calls by anybody else never make the vault hold less.
pub proof fn only_the_owner_takes_proceeds(state: State, calls: Seq<Call>)
    requires
        forall|i: int|
            0 <= i < calls.len() ==> match #[trigger] calls[i] {
                Call::Withdraw { caller, .. } => caller == Caller::Other,
                Call::WithdrawConfidential { caller, .. } => caller == Caller::Other,
                _ => true,
            },
    ensures
        run(state, calls).balance.0 >= state.balance.0,
        taken_out(state, calls) == 0,
    decreases calls.len(),
{
    if calls.len() > 0 {
        let before = calls.drop_last();
        only_the_owner_takes_proceeds(state, before);
    }
}

/// Everybody may buy a badge and open the commitment; proceeds are paid out to the owner alone.
pub proof fn buying_and_opening_are_for_anyone(caller: Caller)
    ensures
        crate::state::access_of("purchase"@).admits(caller),
        crate::state::access_of("purchase_confidential"@).admits(caller),
        crate::state::access_of("reveal"@).admits(caller),
        crate::state::access_of("withdraw"@).admits(caller) <==> caller == Caller::Owner,
        crate::state::access_of("withdraw_confidential"@).admits(caller) <==> caller
            == Caller::Owner,
{
    reveal_strlit("purchase");
    reveal_strlit("purchase_confidential");
    reveal_strlit("reveal");
    reveal_strlit("withdraw");
    reveal_strlit("withdraw_confidential");
    assert("purchase"@[0] != "withdraw"@[0] && "purchase"@[0] != "withdraw_confidential"@[0]);
    assert("purchase_confidential"@[0] != "withdraw"@[0]);
    assert("purchase_confidential"@[0] != "withdraw_confidential"@[0]);
    assert("reveal"@[0] != "withdraw"@[0] && "reveal"@[0] != "withdraw_confidential"@[0]);
}

}
