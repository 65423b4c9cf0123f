//! The mathematical model of the contract: records as plain values and every
//! entry point as a transition from one contract state to the next.

use vstd::prelude::*;

use crate::error::Error;
use crate::types::{TicketStatus, LedgerInfo, MAX_BATCH_SIZE, PAYMENT_TOKEN_CHANGE_DELAY_LEDGERS};

verus! {

/// An address as text (its strkey).
pub type AddressView = Seq<char>;

/// An event record.
pub struct EventView {
    pub organizer: AddressView,
    pub name: Seq<char>,
    pub category: Seq<char>,
    pub max_resale_multiplier_bps: u32,
    pub min_resale_multiplier_bps: Option<u32>,
    pub max_transfers_per_ticket: Option<u32>,
    pub royalty_bps: u32,
    pub tickets_issued: u64,
    pub starts_at: u64,
    pub transfer_freeze_seconds: u64,
    pub resale_cutoff_seconds: u64,
    pub escrow_enabled: bool,
    pub escrow_release_ledger: u32,
    pub escrow_balance: i128,
    pub payment_token: Option<AddressView>,
}

/// A ticket record.
pub struct TicketView {
    pub event_id: u64,
    pub owner: AddressView,
    pub tier: Seq<char>,
    pub seat: Seq<char>,
    pub status: TicketStatus,
    pub original_price: i128,
    pub resale_price: i128,
    pub transfers: u32,
}

/// A pending gift claim.
pub struct GiftClaimView {
    pub from: AddressView,
    pub secret_hash: Seq<u8>,
    pub expires_at: u64,
}

/// A proposed payment token change.
pub struct PendingTokenView {
    pub token: AddressView,
    pub apply_after_ledger: u32,
}

/// The contract-wide settings.
pub struct ConfigView {
    pub admin: Option<AddressView>,
    pub payment_token: Option<AddressView>,
    pub token_decimals: Option<u32>,
    pub pending_payment_token: Option<PendingTokenView>,
    pub next_ticket_id: u64,
    pub min_purchase_spacing: u32,
}

/// A token transfer settled by the contract.
pub struct PaymentView {
    pub token: AddressView,
    pub from: AddressView,
    pub to: AddressView,
    pub amount: i128,
}

/// A published contract event.
pub enum ContractEventView {
    ContractInitialized { admin: AddressView, payment_token: AddressView },
    PaymentTokenProposed { admin: AddressView, new_token: AddressView, apply_after_ledger: u32 },
    PaymentTokenChanged { admin: AddressView, old_token: AddressView, new_token: AddressView },
    PurchaseThrottleUpdated { admin: AddressView, min_ledger_spacing: u32 },
    TicketCheckedIn { ticket_id: u64, organizer: AddressView },
    TicketIssued { ticket_id: u64, event_id: u64 },
}

/// The whole contract: its storage, the ledger it runs on, and what it has
/// settled and published so far.
#[verifier::ext_equal]
pub struct ContractState {
    /// The contract's own address (holder of escrowed proceeds).
    pub contract_address: AddressView,
    /// The current ledger.
    pub ledger: LedgerInfo,
    /// The addresses that have authorized the current invocation; `None`
    /// when every address has (as under the host's mocked authorization).
    pub authorizations: Option<Seq<AddressView>>,
    /// Contract-wide settings.
    pub config: ConfigView,
    /// Events by id.
    pub events: Map<u64, EventView>,
    /// Tickets by id.
    pub tickets: Map<u64, TicketView>,
    /// Pending gift claims by ticket id.
    pub claims: Map<u64, GiftClaimView>,
    /// Primary purchases: buyer and ledger sequence, latest last.
    pub purchases: Seq<(AddressView, u32)>,
    /// Every token transfer settled so far, in order.
    pub payments: Seq<PaymentView>,
    /// Every contract event published so far, in order.
    pub published: Seq<ContractEventView>,
}

/// What an entry point does to a contract state.
pub enum Transition<T> {
    /// It succeeds, leaving this state and returning this value.
    Done(ContractState, T),
    /// It returns this error and changes nothing.
    Fail(Error),
    /// It aborts the invocation on an arithmetic overflow.
    Trap,
}

/// `r` and `post` are what a call returns and leaves when the model says `t`.
pub open spec fn outcome<T>(t: Transition<T>, pre: ContractState, post: ContractState, r: Result<T, Error>) -> bool {
    match t {
        Transition::Done(s, v) => post == s && r == Ok::<T, Error>(v),
        Transition::Fail(e) => post == pre && r == Err::<T, Error>(e),
        Transition::Trap => false,
    }
}

/// `outcome` for entry points that return a list of ticket ids.
pub open spec fn outcome_ids(t: Transition<Seq<u64>>, pre: ContractState, post: ContractState, r: Result<Vec<u64>, Error>) -> bool {
    match t {
        Transition::Done(s, v) => post == s && (r matches Ok(ids) && ids@ == v),
        Transition::Fail(e) => post == pre && r == Err::<Vec<u64>, Error>(e),
        Transition::Trap => false,
    }
}

/// The error a ticket's status forbids transfer, resale or admission with.
pub open spec fn status_error(status: TicketStatus) -> Option<Error> {
    match status {
        TicketStatus::Used => Some(Error::AlreadyUsed),
        TicketStatus::Revoked => Some(Error::Revoked),
        _ => None,
    }
}

/// Direct transfers are frozen from `transfer_freeze_seconds` before the start on.
pub open spec fn transfer_frozen(e: EventView, now: u64) -> bool {
    now >= e.starts_at.saturating_sub(e.transfer_freeze_seconds)
}

/// Resale is closed from `resale_cutoff_seconds` before the start on.
pub open spec fn resale_closed(e: EventView, now: u64) -> bool {
    now >= e.starts_at.saturating_sub(e.resale_cutoff_seconds)
}

/// The ticket has used up the event's allowance of ownership transfers.
pub open spec fn transfer_limit_reached(t: TicketView, e: EventView) -> bool {
    match e.max_transfers_per_ticket {
        Some(max) => t.transfers >= max,
        None => false,
    }
}

/// A value lies in the range of `i128`.
pub open spec fn fits_i128(x: int) -> bool {
    i128::MIN <= x <= i128::MAX
}

/// `amount * bps / 10 000`, the quotient rounded toward zero.
pub open spec fn bps_portion(amount: int, bps: int) -> int {
    let p = amount * bps;
    if p >= 0 {
        p / 10_000
    } else {
        -((-p) / 10_000)
    }
}

/// `amount * per_mille / 1 000`, the quotient rounded toward zero: the
/// resale floor of a ticket bought at `amount`.
pub open spec fn floor_portion(amount: int, per_mille: int) -> int {
    let p = amount * per_mille;
    if p >= 0 {
        p / 1_000
    } else {
        -((-p) / 1_000)
    }
}

/// A freshly minted ticket.
pub open spec fn new_ticket(event_id: u64, owner: AddressView, tier: Seq<char>, seat: Seq<char>, price: i128) -> TicketView {
    TicketView {
        event_id,
        owner,
        tier,
        seat,
        status: TicketStatus::Valid,
        original_price: price,
        resale_price: 0,
        transfers: 0,
    }
}

/// The ticket after a change of owner: one more transfer, valid, not listed.
pub open spec fn handed_over(t: TicketView, to: AddressView) -> TicketView {
    TicketView {
        owner: to,
        transfers: (t.transfers + 1) as u32,
        status: TicketStatus::Valid,
        resale_price: 0,
        ..t
    }
}

/// A freshly registered event.
pub open spec fn new_event(
    organizer: AddressView,
    name: Seq<char>,
    category: Seq<char>,
    max_resale_multiplier_bps: u32,
    royalty_bps: u32,
    starts_at: u64,
    transfer_freeze_seconds: u64,
    resale_cutoff_seconds: u64,
    min_resale_multiplier_bps: Option<u32>,
    max_transfers_per_ticket: Option<u32>,
) -> EventView {
    EventView {
        organizer,
        name,
        category,
        max_resale_multiplier_bps,
        min_resale_multiplier_bps,
        max_transfers_per_ticket,
        royalty_bps,
        tickets_issued: 0,
        starts_at,
        transfer_freeze_seconds,
        resale_cutoff_seconds,
        escrow_enabled: false,
        escrow_release_ledger: 0,
        escrow_balance: 0,
        payment_token: None,
    }
}

/// The ledger of a buyer's latest primary purchase, if any.
pub open spec fn last_purchase(purchases: Seq<(AddressView, u32)>, buyer: AddressView) -> Option<u32>
    decreases purchases.len(),
{
    if purchases.len() == 0 {
        None
    } else if purchases.last().0 == buyer {
        Some(purchases.last().1)
    } else {
        last_purchase(purchases.drop_last(), buyer)
    }
}

/// The purchase throttle refuses a primary purchase at ledger `current`.
pub open spec fn throttled(spacing: u32, last: Option<u32>, current: u32) -> bool {
    spacing != 0 && match last {
        Some(l) => current.saturating_sub(l) < spacing,
        None => false,
    }
}

/// Some address occurs twice in the list.
pub open spec fn has_duplicate(s: Seq<AddressView>) -> bool {
    exists|i: int, j: int| 0 <= i < j < s.len() && s[i] == s[j]
}

/// `order` lists each of `0..n` exactly once.
pub open spec fn is_permutation_of_range(order: Seq<u32>, n: nat) -> bool {
    &&& order.len() == n
    &&& forall|i: int| 0 <= i < order.len() ==> order[i] < n
    &&& order.no_duplicates()
}

/// A batch size the batch entry points accept, or the error they give.
pub open spec fn batch_error(len: nat) -> Option<Error> {
    if len == 0 {
        Some(Error::EmptyBatch)
    } else if len > MAX_BATCH_SIZE {
        Some(Error::BatchTooLarge)
    } else {
        None
    }
}

impl ContractState {
    /// The state of a freshly deployed contract with empty storage.
    pub open spec fn fresh(contract_address: AddressView, ledger: LedgerInfo) -> ContractState {
        ContractState {
            contract_address,
            ledger,
            authorizations: Some(Seq::empty()),
            config: ConfigView {
                admin: None,
                payment_token: None,
                token_decimals: None,
                pending_payment_token: None,
                next_ticket_id: 0,
                min_purchase_spacing: 0,
            },
            events: Map::empty(),
            tickets: Map::empty(),
            claims: Map::empty(),
            purchases: Seq::empty(),
            payments: Seq::empty(),
            published: Seq::empty(),
        }
    }

    /// Whether `who` has authorized the current invocation.
    pub open spec fn authorizes(self, who: AddressView) -> bool {
        match self.authorizations {
            None => true,
            Some(signers) => signers.contains(who),
        }
    }

    /// Why `admin` may not act as the contract admin, if it may not: the
    /// stored admin is checked first, then the admin's authorization.
    pub open spec fn admin_error(self, admin: AddressView) -> Option<Error> {
        match self.config.admin {
            None => Some(Error::NotInitialized),
            Some(a) => if a != admin {
                Some(Error::NotAdmin)
            } else if !self.authorizes(admin) {
                Some(Error::NotAuthorized)
            } else {
                None
            },
        }
    }

    /// The token an event settles in: its own, else the contract-wide one.
    pub open spec fn event_token(self, e: EventView) -> Option<AddressView> {
        match e.payment_token {
            Some(t) => Some(t),
            None => self.config.payment_token,
        }
    }

    /// Appends a published contract event.
    pub open spec fn publish(self, n: ContractEventView) -> ContractState {
        ContractState { published: self.published.push(n), ..self }
    }

    /// Stores a ticket.
    pub open spec fn put_ticket(self, id: u64, t: TicketView) -> ContractState {
        ContractState { tickets: self.tickets.insert(id, t), ..self }
    }

    /// Stores an event.
    pub open spec fn put_event(self, id: u64, e: EventView) -> ContractState {
        ContractState { events: self.events.insert(id, e), ..self }
    }

    /// Deletes a ticket's gift claim.
    pub open spec fn drop_claim(self, id: u64) -> ContractState {
        ContractState { claims: self.claims.remove(id), ..self }
    }

    /// Records a token transfer.
    pub open spec fn pay(self, p: PaymentView) -> ContractState {
        ContractState { payments: self.payments.push(p), ..self }
    }

    /// `initialize`: one-time setup with the admin and the contract-wide
    /// payment token; `decimals` is what the token answers to `decimals()`
    /// (`None` when it is not a token contract).
    pub open spec fn initialize(self, admin: AddressView, payment_token: AddressView, decimals: Option<u32>) -> Transition<()> {
        if self.config.admin is Some {
            Transition::Fail(Error::AlreadyInitialized)
        } else if !self.authorizes(admin) {
            Transition::Fail(Error::NotAuthorized)
        } else {
            match decimals {
                None => Transition::Fail(Error::InvalidPaymentToken),
                Some(d) => Transition::Done(
                    ContractState {
                        config: ConfigView {
                            admin: Some(admin),
                            payment_token: Some(payment_token),
                            token_decimals: Some(d),
                            next_ticket_id: 0,
                            ..self.config
                        },
                        ..self
                    }.publish(ContractEventView::ContractInitialized { admin, payment_token }),
                    (),
                ),
            }
        }
    }

    /// `propose_payment_token`: the admin schedules a token change; `decimals`
    /// is the new token's answer to `decimals()`.
    pub open spec fn propose_payment_token(self, admin: AddressView, new_token: AddressView, decimals: Option<u32>) -> Transition<()> {
        match self.admin_error(admin) {
            Some(e) => Transition::Fail(e),
            None => match decimals {
                None => Transition::Fail(Error::InvalidPaymentToken),
                Some(_) => {
                    let after = self.ledger.sequence.saturating_add(PAYMENT_TOKEN_CHANGE_DELAY_LEDGERS);
                    Transition::Done(
                        ContractState {
                            config: ConfigView {
                                pending_payment_token: Some(PendingTokenView { token: new_token, apply_after_ledger: after }),
                                ..self.config
                            },
                            ..self
                        }.publish(ContractEventView::PaymentTokenProposed { admin, new_token, apply_after_ledger: after }),
                        (),
                    )
                },
            },
        }
    }

    /// `apply_payment_token`: the admin applies the pending token once the
    /// delay has passed; `decimals` is the pending token's answer to `decimals()`.
    pub open spec fn apply_payment_token(self, admin: AddressView, decimals: Option<u32>) -> Transition<()> {
        match self.admin_error(admin) {
            Some(e) => Transition::Fail(e),
            None => match self.config.pending_payment_token {
                None => Transition::Fail(Error::NoPendingPaymentToken),
                Some(p) => if self.ledger.sequence < p.apply_after_ledger {
                    Transition::Fail(Error::TimelockNotElapsed)
                } else {
                    match self.config.payment_token {
                        None => Transition::Fail(Error::NotInitialized),
                        Some(old) => match decimals {
                            None => Transition::Fail(Error::InvalidPaymentToken),
                            Some(d) => Transition::Done(
                                ContractState {
                                    config: ConfigView {
                                        payment_token: Some(p.token),
                                        token_decimals: Some(d),
                                        pending_payment_token: None,
                                        ..self.config
                                    },
                                    ..self
                                }.publish(ContractEventView::PaymentTokenChanged { admin, old_token: old, new_token: p.token }),
                                (),
                            ),
                        },
                    }
                },
            },
        }
    }

    /// `create_event_with_options` (and `create_event`, with no floor and no
    /// transfer limit): registers a new event.
    pub open spec fn create_event_with_options(
        self,
        organizer: AddressView,
        event_id: u64,
        name: Seq<char>,
        category: Seq<char>,
        max_resale_multiplier_bps: u32,
        royalty_bps: u32,
        starts_at: u64,
        transfer_freeze_seconds: u64,
        resale_cutoff_seconds: u64,
        min_resale_multiplier_bps: Option<u32>,
        max_transfers_per_ticket: Option<u32>,
    ) -> Transition<()> {
        if !self.authorizes(organizer) {
            Transition::Fail(Error::NotAuthorized)
        } else {
        if royalty_bps > 10_000 {
            Transition::Fail(Error::InvalidRoyalty)
        } else if starts_at <= self.ledger.timestamp {
            Transition::Fail(Error::InvalidEventTime)
        } else if self.events.contains_key(event_id) {
            Transition::Fail(Error::EventAlreadyExists)
        } else {
            Transition::Done(
                self.put_event(
                    event_id,
                    new_event(
                        organizer,
                        name,
                        category,
                        max_resale_multiplier_bps,
                        royalty_bps,
                        starts_at,
                        transfer_freeze_seconds,
                        resale_cutoff_seconds,
                        min_resale_multiplier_bps,
                        max_transfers_per_ticket,
                    ),
                ),
                (),
            )
        }
        }
    }

    /// Mints a ticket under the next ticket id and publishes `TicketIssued`.
    pub open spec fn mint(self, event_id: u64, owner: AddressView, tier: Seq<char>, seat: Seq<char>, price: i128) -> Transition<u64> {
        let id = self.config.next_ticket_id;
        if id == u64::MAX {
            Transition::Trap
        } else {
            Transition::Done(
                ContractState {
                    config: ConfigView { next_ticket_id: (id + 1) as u64, ..self.config },
                    ..self.put_ticket(id, new_ticket(event_id, owner, tier, seat, price))
                }.publish(ContractEventView::TicketIssued { ticket_id: id, event_id }),
                id,
            )
        }
    }

    /// Mints one ticket per winner, in order, with the "unassigned" seat.
    pub open spec fn mint_all(self, event_id: u64, winners: Seq<AddressView>, tier: Seq<char>, price: i128) -> Transition<Seq<u64>>
        decreases winners.len(),
    {
        if winners.len() == 0 {
            Transition::Done(self, Seq::empty())
        } else {
            match self.mint(event_id, winners[0], tier, "unassigned"@, price) {
                Transition::Done(s, id) => match s.mint_all(event_id, winners.drop_first(), tier, price) {
                    Transition::Done(s2, ids) => Transition::Done(s2, seq![id] + ids),
                    Transition::Fail(e) => Transition::Fail(e),
                    Transition::Trap => Transition::Trap,
                },
                Transition::Fail(e) => Transition::Fail(e),
                Transition::Trap => Transition::Trap,
            }
        }
    }

    /// `allocate_lottery` once the entrants have been shuffled: the winners are
    /// the entrants at the first `winner_count` positions of `order`.
    pub open spec fn allocate_lottery(
        self,
        organizer: AddressView,
        event_id: u64,
        entrants: Seq<AddressView>,
        winner_count: u32,
        tier: Seq<char>,
        price: i128,
        order: Seq<u32>,
    ) -> Transition<Seq<u64>> {
        if !self.authorizes(organizer) {
            Transition::Fail(Error::NotAuthorized)
        } else {
        if price < 0 || winner_count == 0 || winner_count > entrants.len() {
            Transition::Fail(Error::InvalidLottery)
        } else if has_duplicate(entrants) {
            Transition::Fail(Error::InvalidLottery)
        } else {
            match self.events.get(event_id) {
                None => Transition::Fail(Error::EventNotFound),
                Some(e) => if e.organizer != organizer {
                    Transition::Fail(Error::NotOrganizer)
                } else {
                    let winners = Seq::new(winner_count as nat, |i: int| entrants[order[i] as int]);
                    match self.mint_all(event_id, winners, tier, price) {
                        Transition::Done(s, ids) => if e.tickets_issued + winner_count > u64::MAX {
                            Transition::Trap
                        } else {
                            Transition::Done(
                                s.put_event(event_id, EventView { tickets_issued: (e.tickets_issued + winner_count) as u64, ..e }),
                                ids,
                            )
                        },
                        Transition::Fail(x) => Transition::Fail(x),
                        Transition::Trap => Transition::Trap,
                    }
                },
            }
        }
        }
    }

    /// `enable_escrow`: primary proceeds of the event are held by the contract
    /// until `release_ledger`; only before any ticket is issued.
    pub open spec fn enable_escrow(self, organizer: AddressView, event_id: u64, release_ledger: u32) -> Transition<()> {
        if !self.authorizes(organizer) {
            Transition::Fail(Error::NotAuthorized)
        } else {
        match self.events.get(event_id) {
            None => Transition::Fail(Error::EventNotFound),
            Some(e) => if e.organizer != organizer {
                Transition::Fail(Error::NotOrganizer)
            } else if e.tickets_issued > 0 {
                Transition::Fail(Error::EventAlreadyStarted)
            } else {
                Transition::Done(
                    self.put_event(event_id, EventView { escrow_enabled: true, escrow_release_ledger: release_ledger, ..e }),
                    (),
                )
            },
        }
        }
    }

    /// `set_event_payment_token`: the event's own settlement token (or none);
    /// `decimals` is the token's answer to `decimals()`, asked only of `Some`.
    pub open spec fn set_event_payment_token(
        self,
        organizer: AddressView,
        event_id: u64,
        token: Option<AddressView>,
        decimals: Option<u32>,
    ) -> Transition<()> {
        if !self.authorizes(organizer) {
            Transition::Fail(Error::NotAuthorized)
        } else {
        match self.events.get(event_id) {
            None => Transition::Fail(Error::EventNotFound),
            Some(e) => if e.organizer != organizer {
                Transition::Fail(Error::NotOrganizer)
            } else if e.tickets_issued > 0 {
                Transition::Fail(Error::TicketsAlreadyIssued)
            } else if token is Some && decimals is None {
                Transition::Fail(Error::InvalidPaymentToken)
            } else {
                Transition::Done(self.put_event(event_id, EventView { payment_token: token, ..e }), ())
            },
        }
        }
    }

    /// `event_payment_token`: the token an event settles in.
    pub open spec fn event_payment_token(self, event_id: u64) -> Result<AddressView, Error> {
        match self.events.get(event_id) {
            None => Err(Error::EventNotFound),
            Some(e) => match self.event_token(e) {
                Some(t) => Ok(t),
                None => Err(Error::NotInitialized),
            },
        }
    }

    /// `issue_ticket`: organizer-authorized mint for a sale settled off-chain.
    pub open spec fn issue_ticket(
        self,
        organizer: AddressView,
        event_id: u64,
        to: AddressView,
        tier: Seq<char>,
        seat: Seq<char>,
        price: i128,
    ) -> Transition<u64> {
        if !self.authorizes(organizer) {
            Transition::Fail(Error::NotAuthorized)
        } else {
        if price < 0 {
            Transition::Fail(Error::InvalidPrice)
        } else {
            match self.events.get(event_id) {
                None => Transition::Fail(Error::EventNotFound),
                Some(e) => if e.organizer != organizer {
                    Transition::Fail(Error::NotOrganizer)
                } else {
                    match self.mint(event_id, to, tier, seat, price) {
                        Transition::Done(s, id) => if e.tickets_issued == u64::MAX {
                            Transition::Trap
                        } else {
                            Transition::Done(
                                s.put_event(event_id, EventView { tickets_issued: (e.tickets_issued + 1) as u64, ..e }),
                                id,
                            )
                        },
                        Transition::Fail(x) => Transition::Fail(x),
                        Transition::Trap => Transition::Trap,
                    }
                },
            }
        }
        }
    }

    /// `purchase_primary`: the buyer pays for a new ticket on-chain, to the
    /// organizer or into escrow.
    pub open spec fn purchase_primary(
        self,
        buyer: AddressView,
        event_id: u64,
        tier: Seq<char>,
        seat: Seq<char>,
        price: i128,
    ) -> Transition<u64> {
        if !self.authorizes(buyer) {
            Transition::Fail(Error::NotAuthorized)
        } else {
        if price < 0 {
            Transition::Fail(Error::InvalidPrice)
        } else if throttled(
            self.config.min_purchase_spacing,
            last_purchase(self.purchases, buyer),
            self.ledger.sequence,
        ) {
            Transition::Fail(Error::PurchaseTooSoon)
        } else {
            match self.events.get(event_id) {
                None => Transition::Fail(Error::EventNotFound),
                Some(e) => match self.event_token(e) {
                    None => Transition::Fail(Error::NotInitialized),
                    Some(token) => {
                        let escrowed = price > 0 && e.escrow_enabled;
                        if escrowed && !fits_i128(e.escrow_balance + price) {
                            Transition::Trap
                        } else {
                            let paid = if price > 0 {
                                if e.escrow_enabled {
                                    self.pay(PaymentView { token, from: buyer, to: self.contract_address, amount: price })
                                } else {
                                    self.pay(PaymentView { token, from: buyer, to: e.organizer, amount: price })
                                }
                            } else {
                                self
                            };
                            let e2 = if escrowed {
                                EventView { escrow_balance: (e.escrow_balance + price) as i128, ..e }
                            } else {
                                e
                            };
                            match paid.mint(event_id, buyer, tier, seat, price) {
                                Transition::Done(s, id) => if e.tickets_issued == u64::MAX {
                                    Transition::Trap
                                } else {
                                    Transition::Done(
                                        ContractState {
                                            purchases: s.purchases.push((buyer, self.ledger.sequence)),
                                            ..s.put_event(event_id, EventView { tickets_issued: (e.tickets_issued + 1) as u64, ..e2 })
                                        },
                                        id,
                                    )
                                },
                                Transition::Fail(x) => Transition::Fail(x),
                                Transition::Trap => Transition::Trap,
                            }
                        }
                    },
                },
            }
        }
        }
    }

    /// `release_escrow`: once the release ledger is reached the organizer
    /// receives the event's escrowed proceeds.
    pub open spec fn release_escrow(self, organizer: AddressView, event_id: u64) -> Transition<()> {
        if !self.authorizes(organizer) {
            Transition::Fail(Error::NotAuthorized)
        } else {
        match self.events.get(event_id) {
            None => Transition::Fail(Error::EventNotFound),
            Some(e) => if e.organizer != organizer {
                Transition::Fail(Error::NotOrganizer)
            } else if !e.escrow_enabled {
                Transition::Fail(Error::EscrowNotEnabled)
            } else if self.ledger.sequence < e.escrow_release_ledger {
                Transition::Fail(Error::EventNotEnded)
            } else {
                let emptied = self.put_event(event_id, EventView { escrow_balance: 0, ..e });
                if e.escrow_balance > 0 {
                    match self.event_token(e) {
                        None => Transition::Fail(Error::NotInitialized),
                        Some(token) => Transition::Done(
                            emptied.pay(PaymentView { token, from: self.contract_address, to: organizer, amount: e.escrow_balance }),
                            (),
                        ),
                    }
                } else {
                    Transition::Done(emptied, ())
                }
            },
        }
        }
    }

    /// `set_purchase_throttle`: the admin sets the minimum ledger spacing
    /// between a buyer's primary purchases.
    pub open spec fn set_purchase_throttle(self, admin: AddressView, min_ledger_spacing: u32) -> Transition<()> {
        match self.admin_error(admin) {
            Some(e) => Transition::Fail(e),
            None => Transition::Done(
                ContractState { config: ConfigView { min_purchase_spacing: min_ledger_spacing, ..self.config }, ..self }
                    .publish(ContractEventView::PurchaseThrottleUpdated { admin, min_ledger_spacing }),
                (),
            ),
        }
    }

    /// `transfer_ticket`: the owner hands a usable ticket to someone else.
    pub open spec fn transfer_ticket(self, from: AddressView, ticket_id: u64, to: AddressView) -> Transition<()> {
        if !self.authorizes(from) {
            Transition::Fail(Error::NotAuthorized)
        } else {
        match self.tickets.get(ticket_id) {
            None => Transition::Fail(Error::TicketNotFound),
            Some(t) => if t.owner != from {
                Transition::Fail(Error::NotOwner)
            } else if status_error(t.status) is Some {
                Transition::Fail(status_error(t.status).unwrap())
            } else {
                match self.events.get(t.event_id) {
                    None => Transition::Fail(Error::EventNotFound),
                    Some(e) => if transfer_limit_reached(t, e) {
                        Transition::Fail(Error::TransferLimitExceeded)
                    } else if transfer_frozen(e, self.ledger.timestamp) {
                        Transition::Fail(Error::TransfersFrozen)
                    } else if t.transfers == u32::MAX {
                        Transition::Trap
                    } else {
                        Transition::Done(self.put_ticket(ticket_id, handed_over(t, to)).drop_claim(ticket_id), ())
                    },
                }
            },
        }
        }
    }

    /// One ticket of `transfer_batch` (the freeze is checked before the limit).
    pub open spec fn transfer_one_of_batch(self, from: AddressView, ticket_id: u64, to: AddressView) -> Transition<()> {
        match self.tickets.get(ticket_id) {
            None => Transition::Fail(Error::TicketNotFound),
            Some(t) => if t.owner != from {
                Transition::Fail(Error::NotOwner)
            } else if status_error(t.status) is Some {
                Transition::Fail(status_error(t.status).unwrap())
            } else {
                match self.events.get(t.event_id) {
                    None => Transition::Fail(Error::EventNotFound),
                    Some(e) => if transfer_frozen(e, self.ledger.timestamp) {
                        Transition::Fail(Error::TransfersFrozen)
                    } else if transfer_limit_reached(t, e) {
                        Transition::Fail(Error::TransferLimitExceeded)
                    } else if t.transfers == u32::MAX {
                        Transition::Trap
                    } else {
                        Transition::Done(self.put_ticket(ticket_id, handed_over(t, to)).drop_claim(ticket_id), ())
                    },
                }
            },
        }
    }

    /// The tickets of a batch transfer, one after the other.
    pub open spec fn transfer_each(self, from: AddressView, ids: Seq<u64>, to: AddressView) -> Transition<()>
        decreases ids.len(),
    {
        if ids.len() == 0 {
            Transition::Done(self, ())
        } else {
            match self.transfer_one_of_batch(from, ids[0], to) {
                Transition::Done(s, _) => s.transfer_each(from, ids.drop_first(), to),
                Transition::Fail(e) => Transition::Fail(e),
                Transition::Trap => Transition::Trap,
            }
        }
    }

    /// `transfer_batch`: all tickets to one recipient, or none at all.
    pub open spec fn transfer_batch(self, from: AddressView, ids: Seq<u64>, to: AddressView) -> Transition<()> {
        if !self.authorizes(from) {
            Transition::Fail(Error::NotAuthorized)
        } else {
        match batch_error(ids.len()) {
            Some(e) => Transition::Fail(e),
            None => self.transfer_each(from, ids, to),
        }
        }
    }

    /// `create_gift_claim`: the owner leaves a claim link, redeemable with the
    /// preimage of `secret_hash` until `expires_at`; a resale listing is withdrawn.
    pub open spec fn create_gift_claim(self, owner: AddressView, ticket_id: u64, secret_hash: Seq<u8>, expires_at: u64) -> Transition<()> {
        if !self.authorizes(owner) {
            Transition::Fail(Error::NotAuthorized)
        } else {
        if expires_at <= self.ledger.timestamp {
            Transition::Fail(Error::InvalidExpiry)
        } else {
            match self.tickets.get(ticket_id) {
                None => Transition::Fail(Error::TicketNotFound),
                Some(t) => if t.owner != owner {
                    Transition::Fail(Error::NotOwner)
                } else if status_error(t.status) is Some {
                    Transition::Fail(status_error(t.status).unwrap())
                } else {
                    let s = if t.status == TicketStatus::Resale {
                        self.put_ticket(ticket_id, TicketView { status: TicketStatus::Valid, resale_price: 0, ..t })
                    } else {
                        self
                    };
                    Transition::Done(
                        ContractState {
                            claims: s.claims.insert(ticket_id, GiftClaimView { from: owner, secret_hash, expires_at }),
                            ..s
                        },
                        (),
                    )
                },
            }
        }
        }
    }

    /// `claim_gift` for a presented secret whose SHA-256 digest is `digest`.
    pub open spec fn claim_gift(self, recipient: AddressView, ticket_id: u64, digest: Seq<u8>) -> Transition<()> {
        if !self.authorizes(recipient) {
            Transition::Fail(Error::NotAuthorized)
        } else {
        match self.claims.get(ticket_id) {
            None => Transition::Fail(Error::GiftClaimNotFound),
            Some(c) => if self.ledger.timestamp >= c.expires_at {
                Transition::Fail(Error::GiftClaimExpired)
            } else if digest != c.secret_hash {
                Transition::Fail(Error::InvalidSecret)
            } else {
                match self.tickets.get(ticket_id) {
                    None => Transition::Fail(Error::TicketNotFound),
                    Some(t) => if t.owner != c.from {
                        Transition::Fail(Error::NotOwner)
                    } else if status_error(t.status) is Some {
                        Transition::Fail(status_error(t.status).unwrap())
                    } else {
                        match self.events.get(t.event_id) {
                            None => Transition::Fail(Error::EventNotFound),
                            Some(e) => if transfer_frozen(e, self.ledger.timestamp) {
                                Transition::Fail(Error::TransfersFrozen)
                            } else if transfer_limit_reached(t, e) {
                                Transition::Fail(Error::TransferLimitExceeded)
                            } else if t.transfers == u32::MAX {
                                Transition::Trap
                            } else {
                                Transition::Done(self.put_ticket(ticket_id, handed_over(t, recipient)).drop_claim(ticket_id), ())
                            },
                        }
                    },
                }
            },
        }
        }
    }

    /// `verify_ticket` / `get_ticket`: the stored ticket.
    pub open spec fn get_ticket(self, ticket_id: u64) -> Result<TicketView, Error> {
        match self.tickets.get(ticket_id) {
            None => Err(Error::TicketNotFound),
            Some(t) => Ok(t),
        }
    }

    /// `get_event`: the stored event.
    pub open spec fn get_event(self, event_id: u64) -> Result<EventView, Error> {
        match self.events.get(event_id) {
            None => Err(Error::EventNotFound),
            Some(e) => Ok(e),
        }
    }

    /// `verify_tickets`: the stored tickets, in the order asked for.
    pub open spec fn verify_tickets(self, ids: Seq<u64>) -> Result<Seq<TicketView>, Error> {
        match batch_error(ids.len()) {
            Some(e) => Err(e),
            None => if forall|i: int| 0 <= i < ids.len() ==> #[trigger] self.tickets.contains_key(ids[i]) {
                Ok(Seq::new(ids.len(), |i: int| self.tickets[ids[i]]))
            } else {
                Err(Error::TicketNotFound)
            },
        }
    }

    /// `check_in`: the organizer admits a usable ticket, once; a listing ends
    /// with it.
    pub open spec fn check_in(self, organizer: AddressView, ticket_id: u64) -> Transition<()> {
        if !self.authorizes(organizer) {
            Transition::Fail(Error::NotAuthorized)
        } else {
        match self.tickets.get(ticket_id) {
            None => Transition::Fail(Error::TicketNotFound),
            Some(t) => match self.events.get(t.event_id) {
                None => Transition::Fail(Error::EventNotFound),
                Some(e) => if e.organizer != organizer {
                    Transition::Fail(Error::NotOrganizer)
                } else if status_error(t.status) is Some {
                    Transition::Fail(status_error(t.status).unwrap())
                } else {
                    Transition::Done(
                        self.put_ticket(ticket_id, TicketView { status: TicketStatus::Used, resale_price: 0, ..t })
                            .drop_claim(ticket_id)
                            .publish(ContractEventView::TicketCheckedIn { ticket_id, organizer }),
                        (),
                    )
                },
            },
        }
        }
    }

    /// The tickets of a batch admission, one after the other.
    pub open spec fn check_in_each(self, organizer: AddressView, ids: Seq<u64>) -> Transition<()>
        decreases ids.len(),
    {
        if ids.len() == 0 {
            Transition::Done(self, ())
        } else {
            match self.check_in(organizer, ids[0]) {
                Transition::Done(s, _) => s.check_in_each(organizer, ids.drop_first()),
                Transition::Fail(e) => Transition::Fail(e),
                Transition::Trap => Transition::Trap,
            }
        }
    }

    /// `check_in_batch`: group admission, all or nothing.
    pub open spec fn check_in_batch(self, organizer: AddressView, ids: Seq<u64>) -> Transition<()> {
        if !self.authorizes(organizer) {
            Transition::Fail(Error::NotAuthorized)
        } else {
        match batch_error(ids.len()) {
            Some(e) => Transition::Fail(e),
            None => self.check_in_each(organizer, ids),
        }
        }
    }

    /// `revoke_ticket`: the organizer voids a ticket, whatever its status; a
    /// listing ends with it.
    pub open spec fn revoke_ticket(self, organizer: AddressView, ticket_id: u64) -> Transition<()> {
        if !self.authorizes(organizer) {
            Transition::Fail(Error::NotAuthorized)
        } else {
        match self.tickets.get(ticket_id) {
            None => Transition::Fail(Error::TicketNotFound),
            Some(t) => match self.events.get(t.event_id) {
                None => Transition::Fail(Error::EventNotFound),
                Some(e) => if e.organizer != organizer {
                    Transition::Fail(Error::NotOrganizer)
                } else {
                    Transition::Done(
                        self.put_ticket(ticket_id, TicketView { status: TicketStatus::Revoked, resale_price: 0, ..t }).drop_claim(ticket_id),
                        (),
                    )
                },
            },
        }
        }
    }

    /// The tickets of a batch revocation, one after the other.
    pub open spec fn revoke_each(self, organizer: AddressView, ids: Seq<u64>) -> Transition<()>
        decreases ids.len(),
    {
        if ids.len() == 0 {
            Transition::Done(self, ())
        } else {
            match self.revoke_ticket(organizer, ids[0]) {
                Transition::Done(s, _) => s.revoke_each(organizer, ids.drop_first()),
                Transition::Fail(e) => Transition::Fail(e),
                Transition::Trap => Transition::Trap,
            }
        }
    }

    /// `revoke_batch`: mass revocation, all or nothing.
    pub open spec fn revoke_batch(self, organizer: AddressView, ids: Seq<u64>) -> Transition<()> {
        if !self.authorizes(organizer) {
            Transition::Fail(Error::NotAuthorized)
        } else {
        match batch_error(ids.len()) {
            Some(e) => Transition::Fail(e),
            None => self.revoke_each(organizer, ids),
        }
        }
    }

    /// `set_seat`: the organizer reassigns the seat of a ticket not revoked.
    pub open spec fn set_seat(self, organizer: AddressView, ticket_id: u64, seat: Seq<char>) -> Transition<()> {
        if !self.authorizes(organizer) {
            Transition::Fail(Error::NotAuthorized)
        } else {
        match self.tickets.get(ticket_id) {
            None => Transition::Fail(Error::TicketNotFound),
            Some(t) => match self.events.get(t.event_id) {
                None => Transition::Fail(Error::EventNotFound),
                Some(e) => if e.organizer != organizer {
                    Transition::Fail(Error::NotOrganizer)
                } else if t.status == TicketStatus::Revoked {
                    Transition::Fail(Error::Revoked)
                } else {
                    Transition::Done(self.put_ticket(ticket_id, TicketView { seat, ..t }), ())
                },
            },
        }
        }
    }

    /// `revoke_with_refund`: revocation of a ticket not yet used, optionally
    /// paying its original price back to its owner.
    pub open spec fn revoke_with_refund(self, organizer: AddressView, ticket_id: u64, refund: bool) -> Transition<()> {
        if !self.authorizes(organizer) {
            Transition::Fail(Error::NotAuthorized)
        } else {
        match self.tickets.get(ticket_id) {
            None => Transition::Fail(Error::TicketNotFound),
            Some(t) => match self.events.get(t.event_id) {
                None => Transition::Fail(Error::EventNotFound),
                Some(e) => if e.organizer != organizer {
                    Transition::Fail(Error::NotOrganizer)
                } else if t.status == TicketStatus::Used {
                    Transition::Fail(Error::AlreadyUsed)
                } else {
                    let revoked = self.put_ticket(ticket_id, TicketView { status: TicketStatus::Revoked, resale_price: 0, ..t }).drop_claim(ticket_id);
                    if refund && t.original_price > 0 {
                        match self.event_token(e) {
                            None => Transition::Fail(Error::NotInitialized),
                            Some(token) => Transition::Done(
                                revoked.pay(PaymentView { token, from: organizer, to: t.owner, amount: t.original_price }),
                                (),
                            ),
                        }
                    } else {
                        Transition::Done(revoked, ())
                    }
                },
            },
        }
        }
    }

    /// `list_for_resale`: the owner lists a usable ticket at a price within the
    /// event's cap (and floor).
    pub open spec fn list_for_resale(self, owner: AddressView, ticket_id: u64, price: i128) -> Transition<()> {
        if !self.authorizes(owner) {
            Transition::Fail(Error::NotAuthorized)
        } else {
        if price <= 0 {
            Transition::Fail(Error::InvalidPrice)
        } else {
            match self.tickets.get(ticket_id) {
                None => Transition::Fail(Error::TicketNotFound),
                Some(t) => if t.owner != owner {
                    Transition::Fail(Error::NotOwner)
                } else if status_error(t.status) is Some {
                    Transition::Fail(status_error(t.status).unwrap())
                } else {
                    match self.events.get(t.event_id) {
                        None => Transition::Fail(Error::EventNotFound),
                        Some(e) => if resale_closed(e, self.ledger.timestamp) {
                            Transition::Fail(Error::ResaleClosed)
                        } else if !fits_i128(t.original_price * e.max_resale_multiplier_bps) {
                            Transition::Trap
                        } else if price > bps_portion(t.original_price as int, e.max_resale_multiplier_bps as int) {
                            Transition::Fail(Error::ResalePriceExceedsCap)
                        } else if e.min_resale_multiplier_bps is Some && !fits_i128(
                            t.original_price * e.min_resale_multiplier_bps.unwrap(),
                        ) {
                            Transition::Trap
                        } else if e.min_resale_multiplier_bps is Some && price < floor_portion(
                            t.original_price as int,
                            e.min_resale_multiplier_bps.unwrap() as int,
                        ) {
                            Transition::Fail(Error::ResalePriceBelowFloor)
                        } else {
                            Transition::Done(
                                self.put_ticket(ticket_id, TicketView { status: TicketStatus::Resale, resale_price: price, ..t })
                                    .drop_claim(ticket_id),
                                (),
                            )
                        },
                    }
                },
            }
        }
        }
    }

    /// `cancel_resale`: the owner withdraws a listing.
    pub open spec fn cancel_resale(self, owner: AddressView, ticket_id: u64) -> Transition<()> {
        if !self.authorizes(owner) {
            Transition::Fail(Error::NotAuthorized)
        } else {
        match self.tickets.get(ticket_id) {
            None => Transition::Fail(Error::TicketNotFound),
            Some(t) => if t.owner != owner {
                Transition::Fail(Error::NotOwner)
            } else if t.status != TicketStatus::Resale {
                Transition::Fail(Error::NotForResale)
            } else {
                Transition::Done(self.put_ticket(ticket_id, TicketView { status: TicketStatus::Valid, resale_price: 0, ..t }), ())
            },
        }
        }
    }

    /// The organizer's royalty on a resale at `price`.
    pub open spec fn royalty(price: i128, royalty_bps: u32) -> int {
        bps_portion(price as int, royalty_bps as int)
    }

    /// `buy_resale`: the buyer pays the asking price, royalty to the
    /// organizer and the rest to the seller, and becomes the owner.
    pub open spec fn buy_resale(self, buyer: AddressView, ticket_id: u64) -> Transition<()> {
        if !self.authorizes(buyer) {
            Transition::Fail(Error::NotAuthorized)
        } else {
        match self.tickets.get(ticket_id) {
            None => Transition::Fail(Error::TicketNotFound),
            Some(t) => if t.status != TicketStatus::Resale {
                Transition::Fail(Error::NotForResale)
            } else {
                match self.events.get(t.event_id) {
                    None => Transition::Fail(Error::EventNotFound),
                    Some(e) => if resale_closed(e, self.ledger.timestamp) {
                        Transition::Fail(Error::ResaleClosed)
                    } else if transfer_limit_reached(t, e) {
                        Transition::Fail(Error::TransferLimitExceeded)
                    } else {
                        match self.event_token(e) {
                            None => Transition::Fail(Error::NotInitialized),
                            Some(token) => {
                                let royalty = Self::royalty(t.resale_price, e.royalty_bps);
                                let seller_amount = t.resale_price - royalty;
                                if !fits_i128(t.resale_price * e.royalty_bps) || !fits_i128(seller_amount) {
                                    Transition::Trap
                                } else if t.transfers == u32::MAX {
                                    Transition::Trap
                                } else {
                                    let s1 = if royalty > 0 {
                                        self.pay(PaymentView { token, from: buyer, to: e.organizer, amount: royalty as i128 })
                                    } else {
                                        self
                                    };
                                    let s2 = if seller_amount > 0 {
                                        s1.pay(PaymentView { token, from: buyer, to: t.owner, amount: seller_amount as i128 })
                                    } else {
                                        s1
                                    };
                                    Transition::Done(s2.put_ticket(ticket_id, handed_over(t, buyer)).drop_claim(ticket_id), ())
                                }
                            },
                        }
                    },
                }
            },
        }
        }
    }

    /// `token_decimals`: the cached decimals of the active payment token.
    pub open spec fn token_decimals(self) -> Result<u32, Error> {
        match self.config.token_decimals {
            None => Err(Error::NotInitialized),
            Some(d) => Ok(d),
        }
    }
}

} // verus!
