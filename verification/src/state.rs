//! The mathematical model of a vault: its state, what each call makes of it, and what each call
//! refuses.

use vstd::prelude::*;

use crate::error::{PublishError, PurchaseError, RevealError, WithdrawError};
use crate::ledger::{Access, Amount, Caller};

verus! {

/// What a vault is, whatever it is stored in.
#[verifier::ext_equal]
pub struct State {
    /// The sealed commitment.
    pub commitment: Seq<u8>,
    /// First epoch at which a reveal is allowed.
    pub reveal_at_epoch: u64,
    /// Price of one badge.
    pub price: Amount,
    /// The resource in which the price is paid.
    pub resource: Seq<u8>,
    /// The revealed proceeds held.
    pub balance: Amount,
    /// The opened payload.
    pub payload: Option<Seq<char>>,
    /// The nonce that opened the commitment.
    pub nonce: Option<Seq<u8>>,
    /// Epoch of the reveal.
    pub revealed_at_epoch: Option<u64>,
    /// Number of badges sold.
    pub sold: u64,
}

impl State {
    /// What holds of every vault: the price is positive; payload, nonce and epoch of the reveal
    /// are all there or all absent; and once they are there, they open the commitment, at an
    /// epoch at which that was allowed.
    pub open spec fn wf(self) -> bool {
        &&& self.commitment.len() == 32
        &&& self.price.0 > 0
        &&& self.payload is Some <==> self.nonce is Some
        &&& self.payload is Some <==> self.revealed_at_epoch is Some
        &&& self.payload is Some ==> {
            &&& self.commitment == crate::commitment::commitment(self.payload->0, self.nonce->0)
            &&& self.reveal_at_epoch <= self.revealed_at_epoch->0
        }
    }

    /// A freshly published vault.
    pub open spec fn published(
        commitment: Seq<u8>,
        reveal_at_epoch: u64,
        price: Amount,
        resource: Seq<u8>,
    ) -> State {
        State {
            commitment,
            reveal_at_epoch,
            price,
            resource,
            balance: Amount(0),
            payload: None,
            nonce: None,
            revealed_at_epoch: None,
            sold: 0,
        }
    }

    /// The vault after the sale of one badge, for which it keeps some revealed tokens.
    pub open spec fn after_sale(self, kept: Amount) -> State {
        State {
            balance: Amount((self.balance.0 + kept.0) as u128),
            sold: (self.sold + 1) as u64,
            ..self
        }
    }

    /// The vault after its commitment was opened.
    pub open spec fn after_reveal(self, payload: Seq<char>, nonce: Seq<u8>, now: u64) -> State {
        State {
            payload: Some(payload),
            nonce: Some(nonce),
            revealed_at_epoch: Some(now),
            ..self
        }
    }

    /// The vault with another balance.
    pub open spec fn with_balance(self, balance: Amount) -> State {
        State { balance, ..self }
    }
}

/// Who may call a method of the component: proceeds are for the owner, the rest is for anyone.
pub open spec fn access_of(method: Seq<char>) -> Access {
    if method == "withdraw"@ || method == "withdraw_confidential"@ {
        Access::Owner
    } else {
        Access::Anyone
    }
}

/// Why a signal with these terms is not published, or `None` if it is.
pub open spec fn publish_refusal(reveal_at_epoch: u64, price: Amount, now: u64) -> Option<
    PublishError,
> {
    if reveal_at_epoch <= now {
        Some(PublishError::NotInFuture { reveal_at_epoch, now })
    } else if price.0 == 0 {
        Some(PublishError::PriceNotPositive)
    } else {
        None
    }
}

/// The revealed tokens that are kept of a payment: what the promise of its blinded tokens leaves
/// open of the price.
pub open spec fn kept(price: Amount, promised: Amount) -> Amount {
    if promised.0 >= price.0 {
        Amount(0)
    } else {
        Amount((price.0 - promised.0) as u128)
    }
}

/// Why a payment buys no badge, or `None` if it does.
pub open spec fn purchase_refusal(
    state: State,
    resource: Seq<u8>,
    paid: Amount,
    promised: Amount,
    now: u64,
) -> Option<PurchaseError> {
    if state.payload is Some {
        Some(PurchaseError::AlreadyRevealed)
    } else if state.reveal_at_epoch <= now {
        Some(PurchaseError::SaleClosed)
    } else if resource != state.resource {
        Some(PurchaseError::WrongResource)
    } else if paid.0 < kept(state.price, promised).0 {
        Some(PurchaseError::PaidTooLittle { paid, price: state.price })
    } else if state.balance.0 + kept(state.price, promised).0 > u128::MAX {
        Some(PurchaseError::EarningsOverflow)
    } else if state.sold == u64::MAX {
        Some(PurchaseError::SoldOverflow)
    } else {
        None
    }
}

/// Why an opening with this digest is refused, or `None` if it is accepted.
pub open spec fn reveal_refusal(state: State, digest: Seq<u8>, now: u64) -> Option<RevealError> {
    if now < state.reveal_at_epoch {
        Some(RevealError::TooEarly { reveal_at_epoch: state.reveal_at_epoch, now })
    } else if state.payload is Some {
        Some(RevealError::AlreadyRevealed)
    } else if digest != state.commitment {
        Some(RevealError::DoesNotOpen)
    } else {
        None
    }
}

/// Why a withdrawal is refused, or `None` if it is granted.
pub open spec fn withdraw_refusal(state: State, caller: Caller, amount: Amount) -> Option<
    WithdrawError,
> {
    if !access_of("withdraw"@).admits(caller) {
        Some(WithdrawError::NotOwner)
    } else if amount.0 > state.balance.0 {
        Some(WithdrawError::InsufficientEarnings { amount, balance: state.balance })
    } else {
        None
    }
}

/// Why a confidential withdrawal is refused, or `None` if it is granted.
pub open spec fn withdraw_confidential_refusal(caller: Caller) -> Option<WithdrawError> {
    if !access_of("withdraw_confidential"@).admits(caller) {
        Some(WithdrawError::NotOwner)
    } else {
        None
    }
}

/// A call that may change a vault. Calls that only read are left out.
pub enum Call {
    /// A payment for one badge.
    Purchase {
        /// The resource of the payment.
        resource: Seq<u8>,
        /// The revealed tokens offered.
        paid: Amount,
        /// The least value proved of the blinded tokens offered.
        promised: Amount,
        /// The epoch of the call.
        now: u64,
    },
    /// An attempt to open the commitment.
    Reveal {
        /// The payload offered.
        payload: Seq<char>,
        /// The nonce offered.
        nonce: Seq<u8>,
        /// The epoch of the call.
        now: u64,
    },
    /// A withdrawal of proceeds.
    Withdraw {
        /// Who asks.
        caller: Caller,
        /// The tokens asked for.
        amount: Amount,
    },
    /// A confidential withdrawal of proceeds.
    WithdrawConfidential {
        /// Who asks.
        caller: Caller,
        /// The balance that the ledger reports afterwards.
        balance: Amount,
    },
}

/// Whether a call is granted.
pub open spec fn granted(state: State, call: Call) -> bool {
    match call {
        Call::Purchase { resource, paid, promised, now } => purchase_refusal(
            state,
            resource,
            paid,
            promised,
            now,
        ) is None,
        Call::Reveal { payload, nonce, now } => reveal_refusal(
            state,
            crate::commitment::commitment(payload, nonce),
            now,
        ) is None,
        Call::Withdraw { caller, amount } => withdraw_refusal(
            state,
            caller,
            amount,
        ) is None,
        Call::WithdrawConfidential { caller, balance } =>
            withdraw_confidential_refusal(caller) is None,
    }
}

/// The vault after a call. A refused call changes nothing.
pub open spec fn step(state: State, call: Call) -> State {
    if !granted(state, call) {
        state
    } else {
        match call {
            Call::Purchase { promised, .. } => state.after_sale(kept(state.price, promised)),
            Call::Reveal { payload, nonce, now } => state.after_reveal(payload, nonce, now),
            Call::Withdraw { amount, .. } => state.with_balance(
                Amount((state.balance.0 - amount.0) as u128),
            ),
            Call::WithdrawConfidential { balance, .. } => state.with_balance(balance),
        }
    }
}

}
