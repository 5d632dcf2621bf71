//! The sealed signal itself: published, sold, and opened when its time has come.

use vstd::prelude::*;

use crate::commitment::commitment_of;
use crate::error::{PublishError, PurchaseError, RevealError, WithdrawError};
use crate::hash::Hash32;
use crate::ledger::{Access, Amount, Bucket, Caller, Earnings, ResourceAddress};
use crate::state::{Call, State};
use crate::text::decimal_text;

verus! {

/// Data carried by an access badge. Kept deliberately small: everything a buyer needs to prove
/// which sealed signal their badge unlocks.
#[derive(Debug, Clone)]
pub struct BadgeData {
    /// The commitment this badge grants access to.
    pub commitment: [u8; 32],
    /// Epoch in which the badge was bought. Lets a provider prove delivery order.
    pub bought_at_epoch: u64,
}

/// Something that the ledger announces: a topic, and texts under their keys.
#[derive(Debug)]
pub struct Event {
    /// What happened.
    pub topic: String,
    /// The details, each a key and its text.
    pub details: Vec<(String, String)>,
}

impl Event {
    /// The details as mathematical texts.
    pub open spec fn details_view(self) -> Seq<(Seq<char>, Seq<char>)> {
        Seq::new(self.details@.len(), |i: int| (self.details@[i].0@, self.details@[i].1@))
    }

    /// Whether this tells that a vault was opened: its commitment, the epoch, and the number of
    /// badges sold.
    pub open spec fn announces_reveal(self, state: State, now: u64) -> bool {
        &&& self.topic@ == "signal_revealed"@
        &&& self.details_view() == seq![
            ("commitment"@, crate::hash::hex(state.commitment)),
            ("epoch"@, crate::text::decimal(now as nat)),
            ("sold"@, crate::text::decimal(state.sold as nat)),
        ]
    }

    /// The announcement of a reveal.
    fn signal_revealed(commitment: &Hash32, now: u64, sold: u64) -> (event: Self)
        ensures
            forall|state: State|
                state.commitment == commitment@ && state.sold == sold
                    ==> #[trigger] event.announces_reveal(state, now),
            event.topic@ == "signal_revealed"@,
            event.details@.len() == 3,
            event.details@[0].0@ == "commitment"@,
            event.details@[0].1@ == crate::hash::hex(commitment@),
            event.details@[1].0@ == "epoch"@,
            event.details@[1].1@ == crate::text::decimal(now as nat),
            event.details@[2].0@ == "sold"@,
            event.details@[2].1@ == crate::text::decimal(sold as nat),
    {
        let mut details: Vec<(String, String)> = Vec::new();
        details.push(("commitment".to_owned(), commitment.to_hex()));
        details.push(("epoch".to_owned(), decimal_text(now as u128)));
        details.push(("sold".to_owned(), decimal_text(sold as u128)));
        let event = Event { topic: "signal_revealed".to_owned(), details };
        assert(event.details_view() =~= seq![
            ("commitment"@, crate::hash::hex(commitment@)),
            ("epoch"@, crate::text::decimal(now as nat)),
            ("sold"@, crate::text::decimal(sold as nat)),
        ]);
        event
    }
}

/// A sealed signal: what was committed to, what it costs, what it earned, and, once opened, what
/// it says.
#[derive(Debug)]
pub struct SignalVault {
    /// The digest of payload and nonce. Fixed at publish time and never mutated.
    commitment: Hash32,
    /// First epoch at which `reveal_signal` is allowed.
    reveal_at_epoch: u64,
    /// Price of one access badge, in the payment resource.
    price: Amount,
    /// Proceeds. Confidential when the payment resource is.
    earnings: Earnings,
    /// The opened payload. `None` until `reveal_signal` succeeds.
    payload: Option<String>,
    /// The nonce that opens the commitment. Published with the payload so anyone can re-hash.
    nonce: Option<Vec<u8>>,
    /// Epoch at which the reveal actually happened.
    revealed_at_epoch: Option<u64>,
    /// Number of badges sold. Public on purpose: demand is the provider's reputation.
    sold: u64,
}

impl View for SignalVault {
    type V = State;

    closed spec fn view(&self) -> State {
        State {
            commitment: self.commitment@,
            reveal_at_epoch: self.reveal_at_epoch,
            price: self.price,
            resource: self.earnings.resource@,
            balance: self.earnings.balance,
            payload: match self.payload {
                Some(payload) => Some(payload@),
                None => None,
            },
            nonce: match self.nonce {
                Some(nonce) => Some(nonce@),
                None => None,
            },
            revealed_at_epoch: self.revealed_at_epoch,
            sold: self.sold,
        }
    }
}

/// How the badges are set up as a resource of the ledger.
#[derive(Debug)]
pub struct BadgeResource {
    /// Symbol of the badges.
    pub token_symbol: String,
    /// Name of the badges.
    pub name: String,
    /// Who may mint them.
    pub minting: Access,
    /// Who may burn them.
    pub burning: Access,
    /// Who may change the rules for minting and burning.
    pub rule_updates: Access,
}

/// Everything that the ledger needs to create the component.
#[derive(Debug)]
pub struct Publication {
    /// The state of the component.
    pub vault: SignalVault,
    /// The badges that it hands out.
    pub badges: BadgeResource,
    /// The methods that only the owner may call. All others are open to anyone.
    pub owner_only: Vec<String>,
}

impl Publication {
    /// Who may call a method of the published component.
    pub open spec fn access(self, method: Seq<char>) -> Access {
        if exists|i: int| 0 <= i < self.owner_only@.len() && #[trigger] self.owner_only@[i]@ == method {
            Access::Owner
        } else {
            Access::Anyone
        }
    }
}

impl SignalVault {
    /// Seals a signal.
    ///
    /// `commitment` is the digest of payload and nonce. It is checked on reveal, so a provider who
    /// commits to nothing simply can never reveal.
    ///
    /// `payment_resource` chooses the privacy model: with a confidential resource the amounts paid
    /// stay hidden; with a public one they do not.
    pub fn publish(
        commitment: Hash32,
        reveal_at_epoch: u64,
        price: Amount,
        payment_resource: ResourceAddress,
        now: u64,
    ) -> (publication: Result<Publication, PublishError>)
        ensures
            publication is Ok <==> now < reveal_at_epoch && price.0 > 0,
            match crate::state::publish_refusal(reveal_at_epoch, price, now) {
                Some(refusal) => publication == Err::<Publication, PublishError>(refusal),
                None => {
                    &&& publication matches Ok(published)
                    &&& published.vault@ == State::published(
                        commitment@,
                        reveal_at_epoch,
                        price,
                        payment_resource@,
                    )
                    &&& published.vault@.commitment == commitment@
                    &&& published.vault@.reveal_at_epoch == reveal_at_epoch
                    &&& published.vault@.price == price
                    &&& published.vault@.resource == payment_resource@
                    &&& published.vault@.balance == Amount(0)
                    &&& published.vault@.sold == 0
                    &&& published.vault@.payload is None
                    &&& published.vault@.nonce is None
                    &&& published.vault@.revealed_at_epoch is None
                    &&& published.vault@.wf()
                    &&& published.badges.token_symbol@ == "SIGV"@
                    &&& published.badges.name@ == "Signal Vault access badge"@
                    &&& published.badges.minting == Access::Anyone
                    &&& published.badges.burning == Access::Anyone
                    &&& published.badges.rule_updates == Access::Owner
                    &&& published.owner_only@.len() == 2
                    &&& published.owner_only@[0]@ == "withdraw"@
                    &&& published.owner_only@[1]@ == "withdraw_confidential"@
                    &&& forall|method: Seq<char>| #[trigger]
                        published.access(method) == crate::state::access_of(method)
                },
            },
    {
        if reveal_at_epoch <= now {
            return Err(PublishError::NotInFuture { reveal_at_epoch, now });
        }
        if !price.is_positive() {
            return Err(PublishError::PriceNotPositive);
        }
        let vault = SignalVault {
            commitment,
            reveal_at_epoch,
            price,
            earnings: Earnings { resource: payment_resource, balance: Amount::zero() },
            payload: None,
            nonce: None,
            revealed_at_epoch: None,
            sold: 0,
        };
        let badges = BadgeResource {
            token_symbol: "SIGV".to_owned(),
            name: "Signal Vault access badge".to_owned(),
            minting: Access::Anyone,
            burning: Access::Anyone,
            rule_updates: Access::Owner,
        };
        let mut owner_only: Vec<String> = Vec::new();
        owner_only.push("withdraw".to_owned());
        owner_only.push("withdraw_confidential".to_owned());
        let published = Publication { vault, badges, owner_only };
        proof {
            crate::hash::hash_is_32_bytes(commitment);
            assert forall|method: Seq<char>| #[trigger]
                published.access(method) == crate::state::access_of(method) by {
                assert(published.owner_only@[0]@ == "withdraw"@);
                assert(published.owner_only@[1]@ == "withdraw_confidential"@);
            }
        }
        Ok(published)
    }

    /// Buys one access badge.
    ///
    /// Returns what the badge carries, plus any change. Selling stops at the reveal epoch: past
    /// that point the payload is public, so charging for it would be selling nothing.
    ///
    /// Blinded tokens count with the value that is promised of them, and are kept whole; those of
    /// which nothing is promised are no part of the payment. Revealed tokens make up for what the
    /// promise leaves open, and what is over is the change. So a payment that promises the price
    /// needs no revealed token, and shows nowhere in the balance.
    pub fn purchase(&mut self, payment: Bucket, now: u64) -> (sale: Result<
        (BadgeData, Bucket),
        PurchaseError,
    >)
        ensures
            old(self)@.wf() ==> final(self)@.wf(),
            final(self)@ == crate::state::step(
                old(self)@,
                Call::Purchase {
                    resource: payment.resource@,
                    paid: payment.amount,
                    promised: payment.promised,
                    now,
                },
            ),
            sale is Ok ==> {
                &&& payment.resource@ == old(self)@.resource
                &&& now < old(self)@.reveal_at_epoch
                &&& payment.amount.0 + payment.promised.0 >= old(self)@.price.0
                &&& final(self)@.sold == old(self)@.sold + 1
                &&& final(self)@.balance.0 + sale->Ok_0.1.amount.0 == old(self)@.balance.0
                    + payment.amount.0
            },
            match crate::state::purchase_refusal(
                old(self)@,
                payment.resource@,
                payment.amount,
                payment.promised,
                now,
            ) {
                Some(refusal) => sale == Err::<(BadgeData, Bucket), PurchaseError>(refusal)
                    && final(self)@ == old(self)@,
                None => {
                    &&& final(self)@ == old(self)@.after_sale(
                        crate::state::kept(old(self)@.price, payment.promised),
                    )
                    &&& sale matches Ok((badge, change))
                    &&& badge.commitment@ == old(self)@.commitment
                    &&& badge.bought_at_epoch == now
                    &&& change.resource@ == payment.resource@
                    &&& change.amount.0 == payment.amount.0 - crate::state::kept(
                        old(self)@.price,
                        payment.promised,
                    ).0
                    &&& change.promised == Amount(0)
                },
            },
    {
        if self.payload.is_some() {
            return Err(PurchaseError::AlreadyRevealed);
        }
        if now >= self.reveal_at_epoch {
            return Err(PurchaseError::SaleClosed);
        }
        if payment.resource != self.earnings.resource {
            return Err(PurchaseError::WrongResource);
        }
        let paid = payment.amount;
        let kept: u128 = if payment.promised.0 >= self.price.0 {
            0
        } else {
            self.price.0 - payment.promised.0
        };
        if paid.0 < kept {
            return Err(PurchaseError::PaidTooLittle { paid, price: self.price });
        }
        if kept > u128::MAX - self.earnings.balance.0 {
            return Err(PurchaseError::EarningsOverflow);
        }
        if self.sold == u64::MAX {
            return Err(PurchaseError::SoldOverflow);
        }
        let change = Bucket {
            resource: payment.resource,
            amount: Amount(paid.0 - kept),
            promised: Amount::zero(),
        };
        self.earnings.balance = Amount(self.earnings.balance.0 + kept);
        let badge = BadgeData {
            commitment: self.commitment.into_array(),
            bought_at_epoch: now,
        };
        self.sold = self.sold + 1;
        Ok((badge, change))
    }

    /// Opens the commitment. Callable by anyone once the reveal epoch is reached: a provider who
    /// goes quiet cannot bury a losing call, as long as one buyer holds the preimage.
    pub fn reveal_signal(&mut self, payload: String, nonce: Vec<u8>, now: u64) -> (announcement: Result<
        Event,
        RevealError,
    >)
        ensures
            old(self)@.wf() ==> final(self)@.wf(),
            final(self)@ == crate::state::step(
                old(self)@,
                Call::Reveal { payload: payload@, nonce: nonce@, now },
            ),
            match crate::state::reveal_refusal(
                old(self)@,
                crate::commitment::commitment(payload@, nonce@),
                now,
            ) {
                Some(refusal) => announcement == Err::<Event, RevealError>(refusal) && final(self)@
                    == old(self)@,
                None => {
                    &&& final(self)@ == old(self)@.after_reveal(payload@, nonce@, now)
                    &&& announcement matches Ok(event)
                    &&& event.announces_reveal(old(self)@, now)
                    &&& event.topic@ == "signal_revealed"@
                    &&& event.details@.len() == 3
                    &&& event.details@[0].0@ == "commitment"@
                    &&& event.details@[0].1@ == crate::hash::hex(old(self)@.commitment)
                    &&& event.details@[1].0@ == "epoch"@
                    &&& event.details@[1].1@ == crate::text::decimal(now as nat)
                    &&& event.details@[2].0@ == "sold"@
                    &&& event.details@[2].1@ == crate::text::decimal(old(self)@.sold as nat)
                    &&& final(self)@.payload == Some(payload@)
                    &&& final(self)@.nonce == Some(nonce@)
                    &&& final(self)@.revealed_at_epoch == Some(now)
                },
            },
    {
        let digest = commitment_of(payload.as_str(), nonce.as_slice());
        self.open_with(digest, payload, nonce, now)
    }

    /// Opens the commitment with a payload and a nonce whose digest has been computed already. What
    /// holds over the life of a vault is said of openings whose digest was computed from their
    /// payload and nonce, as `reveal_signal` does.
    pub fn open_with(
        &mut self,
        digest: Hash32,
        payload: String,
        nonce: Vec<u8>,
        now: u64,
    ) -> (announcement: Result<Event, RevealError>)
        ensures
            old(self)@.wf() && digest@ == crate::commitment::commitment(payload@, nonce@)
                ==> final(self)@.wf(),
            digest@ == crate::commitment::commitment(payload@, nonce@) ==> final(self)@
                == crate::state::step(
                old(self)@,
                Call::Reveal { payload: payload@, nonce: nonce@, now },
            ),
            match crate::state::reveal_refusal(old(self)@, digest@, now) {
                Some(refusal) => announcement == Err::<Event, RevealError>(refusal) && final(self)@
                    == old(self)@,
                None => {
                    &&& final(self)@ == old(self)@.after_reveal(payload@, nonce@, now)
                    &&& announcement matches Ok(event)
                    &&& event.announces_reveal(old(self)@, now)
                    &&& event.topic@ == "signal_revealed"@
                    &&& event.details@.len() == 3
                    &&& event.details@[0].0@ == "commitment"@
                    &&& event.details@[0].1@ == crate::hash::hex(old(self)@.commitment)
                    &&& event.details@[1].0@ == "epoch"@
                    &&& event.details@[1].1@ == crate::text::decimal(now as nat)
                    &&& event.details@[2].0@ == "sold"@
                    &&& event.details@[2].1@ == crate::text::decimal(old(self)@.sold as nat)
                    &&& final(self)@.payload == Some(payload@)
                    &&& final(self)@.nonce == Some(nonce@)
                    &&& final(self)@.revealed_at_epoch == Some(now)
                },
            },
    {
        if now < self.reveal_at_epoch {
            return Err(RevealError::TooEarly { reveal_at_epoch: self.reveal_at_epoch, now });
        }
        if self.payload.is_some() {
            return Err(RevealError::AlreadyRevealed);
        }
        if digest != self.commitment {
            return Err(RevealError::DoesNotOpen);
        }
        let event = Event::signal_revealed(&self.commitment, now, self.sold);
        self.payload = Some(payload);
        self.nonce = Some(nonce);
        self.revealed_at_epoch = Some(now);
        Ok(event)
    }

    /// Withdraws proceeds. Restricted to the component owner by the access rules set at publish
    /// time. The ledger moves the tokens, and may refuse to for reasons of its own; then the call
    /// has not happened.
    pub fn withdraw(&mut self, caller: Caller, amount: Amount) -> (proceeds: Result<
        Bucket,
        WithdrawError,
    >)
        ensures
            old(self)@.wf() ==> final(self)@.wf(),
            final(self)@ == crate::state::step(
                old(self)@,
                Call::Withdraw { caller, amount },
            ),
            match crate::state::withdraw_refusal(old(self)@, caller, amount) {
                Some(refusal) => proceeds == Err::<Bucket, WithdrawError>(refusal) && final(self)@
                    == old(self)@,
                None => {
                    &&& final(self)@ == old(self)@.with_balance(
                        Amount((old(self)@.balance.0 - amount.0) as u128),
                    )
                    &&& proceeds matches Ok(bucket)
                    &&& bucket.resource@ == old(self)@.resource
                    &&& bucket.amount == amount
                    &&& bucket.promised == Amount(0)
                },
            },
    {
        if caller != Caller::Owner {
            return Err(WithdrawError::NotOwner);
        }
        let balance = self.earnings.balance;
        if amount.0 > balance.0 {
            return Err(WithdrawError::InsufficientEarnings { amount, balance });
        }
        self.earnings.balance = Amount(balance.0 - amount.0);
        Ok(Bucket { resource: self.earnings.resource, amount, promised: Amount::zero() })
    }

    /// Withdraws confidential proceeds without disclosing the amount. Restricted to the component
    /// owner like `withdraw`. What leaves the vault is between the ledger and the owner's proof;
    /// `balance` is what the ledger reports afterwards.
    pub fn withdraw_confidential(&mut self, caller: Caller, balance: Amount) -> (outcome: Result<
        (),
        WithdrawError,
    >)
        ensures
            old(self)@.wf() ==> final(self)@.wf(),
            final(self)@ == crate::state::step(
                old(self)@,
                Call::WithdrawConfidential { caller, balance },
            ),
            match crate::state::withdraw_confidential_refusal(caller) {
                Some(refusal) => outcome == Err::<(), WithdrawError>(refusal) && final(self)@ == old(
                    self,
                )@,
                None => outcome is Ok && final(self)@ == old(self)@.with_balance(balance),
            },
    {
        if caller != Caller::Owner {
            return Err(WithdrawError::NotOwner);
        }
        self.earnings.balance = balance;
        Ok(())
    }

    /// The sealed commitment.
    pub fn commitment(&self) -> (commitment: Hash32)
        ensures
            commitment@ == self@.commitment,
    {
        self.commitment
    }

    /// The epoch from which `reveal_signal` is allowed.
    pub fn reveal_at_epoch(&self) -> (epoch: u64)
        ensures
            epoch == self@.reveal_at_epoch,
    {
        self.reveal_at_epoch
    }

    /// Price of one badge.
    pub fn price(&self) -> (price: Amount)
        ensures
            price == self@.price,
    {
        self.price
    }

    /// Badges sold so far.
    pub fn sold(&self) -> (sold: u64)
        ensures
            sold == self@.sold,
    {
        self.sold
    }

    /// The opened payload, or `None` while the signal is still sealed.
    pub fn payload(&self) -> (payload: Option<String>)
        ensures
            match payload {
                Some(text) => self@.payload == Some(text@),
                None => self@.payload is None,
            },
    {
        self.payload.clone()
    }

    /// The nonce that opens the commitment, published alongside the payload.
    pub fn nonce(&self) -> (nonce: Option<Vec<u8>>)
        ensures
            match nonce {
                Some(bytes) => self@.nonce == Some(bytes@),
                None => self@.nonce is None,
            },
    {
        match &self.nonce {
            Some(bytes) => Some(bytes.clone()),
            None => None,
        }
    }

    /// Epoch at which the reveal happened.
    pub fn revealed_at_epoch(&self) -> (epoch: Option<u64>)
        ensures
            epoch == self@.revealed_at_epoch,
    {
        self.revealed_at_epoch
    }

    /// Revealed balance of the earnings vault. Zero for a confidential resource whose value has
    /// not been revealed: that is the point.
    pub fn earnings_balance(&self) -> (balance: Amount)
        ensures
            balance == self@.balance,
    {
        self.earnings.balance
    }

    /// Re-derives the commitment. Exposed so a buyer can check, off-chain and before paying, that
    /// the payload they were promised is the one that was sealed.
    pub fn digest_of(payload: String, nonce: Vec<u8>) -> (digest: Hash32)
        ensures
            digest@ == crate::commitment::commitment(payload@, nonce@),
    {
        commitment_of(payload.as_str(), nonce.as_slice())
    }

    /// The vault that the ledger has kept since the last call, with what it reports of the
    /// earnings. It is as well formed as the last call left it.
    pub fn restore(
        commitment: Hash32,
        reveal_at_epoch: u64,
        price: Amount,
        earnings: Earnings,
        payload: Option<String>,
        nonce: Option<Vec<u8>>,
        revealed_at_epoch: Option<u64>,
        sold: u64,
    ) -> (vault: Self)
        ensures
            vault@ == (State {
                commitment: commitment@,
                reveal_at_epoch,
                price,
                resource: earnings.resource@,
                balance: earnings.balance,
                payload: match payload {
                    Some(text) => Some(text@),
                    None => None,
                },
                nonce: match nonce {
                    Some(bytes) => Some(bytes@),
                    None => None,
                },
                revealed_at_epoch,
                sold,
            }),
    {
        SignalVault {
            commitment,
            reveal_at_epoch,
            price,
            earnings,
            payload,
            nonce,
            revealed_at_epoch,
            sold,
        }
    }
}

}
