//! Why a call is refused, and what the ledger is told of it.

use vstd::prelude::*;

use crate::ledger::Amount;
use crate::text::with_numbers;

verus! {

/// Why a signal is not published.
#[derive(Debug, Clone, Copy, PartialEq, Eq)]
pub enum PublishError {
    /// The reveal epoch is the current one or has passed.
    NotInFuture {
        /// The reveal epoch asked for.
        reveal_at_epoch: u64,
        /// The current epoch.
        now: u64,
    },
    /// The price is zero.
    PriceNotPositive,
}

impl PublishError {
    /// The reason in words.
    pub open spec fn message_view(self) -> Seq<char> {
        match self {
            PublishError::NotInFuture { reveal_at_epoch, now } => "reveal_at_epoch "@ + crate::text::decimal(reveal_at_epoch as nat)
                + " must be in the future (current epoch "@ + crate::text::decimal(now as nat) + ")"@,
            PublishError::PriceNotPositive => "price must be positive"@,
        }
    }

    /// Says the reason in words.
    pub fn message(&self) -> (text: String)
        ensures
            text@ == self.message_view(),
    {
        match *self {
            PublishError::NotInFuture { reveal_at_epoch, now } => with_numbers(
                "reveal_at_epoch ",
                reveal_at_epoch as u128,
                " must be in the future (current epoch ",
                now as u128,
                ")",
            ),
            PublishError::PriceNotPositive => "price must be positive".to_owned(),
        }
    }
}

/// Why a badge is not sold.
#[derive(Debug, Clone, Copy, PartialEq, Eq)]
pub enum PurchaseError {
    /// The payload is public already.
    AlreadyRevealed,
    /// The reveal epoch has come.
    SaleClosed,
    /// The payment is in another resource than the price.
    WrongResource,
    /// The payment is below the price, even with what is promised of its blinded tokens.
    PaidTooLittle {
        /// The revealed tokens offered.
        paid: Amount,
        /// The price of one badge.
        price: Amount,
    },
    /// The earnings would no longer fit into an amount.
    EarningsOverflow,
    /// The number of badges sold would no longer fit into its counter.
    SoldOverflow,
}

impl PurchaseError {
    /// The reason in words.
    pub open spec fn message_view(self) -> Seq<char> {
        match self {
            PurchaseError::AlreadyRevealed => "signal already revealed; nothing left to sell"@,
            PurchaseError::SaleClosed => "sale closed: the reveal epoch has been reached"@,
            PurchaseError::WrongResource => "wrong payment resource"@,
            PurchaseError::PaidTooLittle { paid, price } => "paid "@ + crate::text::decimal(paid.0 as nat)
                + " but the price is "@ + crate::text::decimal(price.0 as nat) + ""@,
            PurchaseError::EarningsOverflow => "attempt to add with overflow"@,
            PurchaseError::SoldOverflow => "attempt to add with overflow"@,
        }
    }

    /// Says the reason in words.
    pub fn message(&self) -> (text: String)
        ensures
            text@ == self.message_view(),
    {
        match *self {
            PurchaseError::AlreadyRevealed => "signal already revealed; nothing left to sell".to_owned(),
            PurchaseError::SaleClosed => "sale closed: the reveal epoch has been reached".to_owned(),
            PurchaseError::WrongResource => "wrong payment resource".to_owned(),
            PurchaseError::PaidTooLittle { paid, price } => with_numbers(
                "paid ",
                paid.0,
                " but the price is ",
                price.0,
                "",
            ),
            PurchaseError::EarningsOverflow => "attempt to add with overflow".to_owned(),
            PurchaseError::SoldOverflow => "attempt to add with overflow".to_owned(),
        }
    }
}

/// Why a commitment is not opened.
#[derive(Debug, Clone, Copy, PartialEq, Eq)]
pub enum RevealError {
    /// The reveal epoch has not come yet.
    TooEarly {
        /// The first epoch at which a reveal is allowed.
        reveal_at_epoch: u64,
        /// The current epoch.
        now: u64,
    },
    /// The payload is public already.
    AlreadyRevealed,
    /// Payload and nonce do not hash to the commitment.
    DoesNotOpen,
}

impl RevealError {
    /// The reason in words.
    pub open spec fn message_view(self) -> Seq<char> {
        match self {
            RevealError::TooEarly { reveal_at_epoch, now } => "too early: reveal opens at epoch "@ + crate::text::decimal(reveal_at_epoch as nat)
                + " (current "@ + crate::text::decimal(now as nat) + ")"@,
            RevealError::AlreadyRevealed => "already revealed"@,
            RevealError::DoesNotOpen => "payload and nonce do not open this commitment"@,
        }
    }

    /// Says the reason in words.
    pub fn message(&self) -> (text: String)
        ensures
            text@ == self.message_view(),
    {
        match *self {
            RevealError::TooEarly { reveal_at_epoch, now } => with_numbers(
                "too early: reveal opens at epoch ",
                reveal_at_epoch as u128,
                " (current ",
                now as u128,
                ")",
            ),
            RevealError::AlreadyRevealed => "already revealed".to_owned(),
            RevealError::DoesNotOpen => "payload and nonce do not open this commitment".to_owned(),
        }
    }
}

/// Why proceeds are not paid out.
#[derive(Debug, Clone, Copy, PartialEq, Eq)]
pub enum WithdrawError {
    /// The caller does not own the component.
    NotOwner,
    /// More is asked for than the vault holds.
    InsufficientEarnings {
        /// The tokens asked for.
        amount: Amount,
        /// The tokens held.
        balance: Amount,
    },
}

impl WithdrawError {
    /// The reason in words.
    pub open spec fn message_view(self) -> Seq<char> {
        match self {
            WithdrawError::NotOwner => "only the owner may withdraw"@,
            WithdrawError::InsufficientEarnings { amount, balance } => "cannot withdraw "@ + crate::text::decimal(amount.0 as nat)
                + " from a balance of "@ + crate::text::decimal(balance.0 as nat) + ""@,
        }
    }

    /// Says the reason in words.
    pub fn message(&self) -> (text: String)
        ensures
            text@ == self.message_view(),
    {
        match *self {
            WithdrawError::NotOwner => "only the owner may withdraw".to_owned(),
            WithdrawError::InsufficientEarnings { amount, balance } => with_numbers(
                "cannot withdraw ",
                amount.0,
                " from a balance of ",
                balance.0,
                "",
            ),
        }
    }
}

}
