//! The ticketing contract over an in-memory copy of its storage. Every entry
//! point is proved to do exactly what the matching transition of
//! `ContractState` says.

use std::collections::HashMap;
use vstd::prelude::*;

use crate::error::Error;
use crate::host::{sha256, sha256_digest};
use crate::model::{
    batch_error, handed_over, has_duplicate, is_permutation_of_range, last_purchase, outcome, outcome_ids, status_error,
    throttled, transfer_frozen, transfer_limit_reached, resale_closed, fits_i128, bps_portion, floor_portion, AddressView,
    ContractEventView, ContractState, EventView, GiftClaimView, PaymentView, TicketView, Transition,
};
use crate::views::{
    claims_view, events_view, group_view_lemmas, lemma_published_prefix, payments_view, published_view,
    purchases_view, tickets_view,
};
use crate::types::{
    addresses_view, clone_opt_address, opt_view, Address, Config, ContractEvent, Event, GiftClaim, LedgerInfo,
    Payment, PendingPaymentToken, Ticket, TicketStatus, BPS_DENOMINATOR, FLOOR_DENOMINATOR, MAX_BATCH_SIZE,
    PAYMENT_TOKEN_CHANGE_DELAY_LEDGERS,
};

verus! {

broadcast use {vstd::std_specs::hash::group_hash_axioms, group_view_lemmas};

/// The error a ticket's status forbids transfer, resale or admission with.
fn status_check(status: TicketStatus) -> (r: Option<Error>)
    ensures
        r == status_error(status),
{
    match status {
        TicketStatus::Used => Some(Error::AlreadyUsed),
        TicketStatus::Revoked => Some(Error::Revoked),
        _ => None,
    }
}

/// Whether direct transfers of the event's tickets are frozen at `now`.
fn is_transfer_frozen(event: &Event, now: u64) -> (r: bool)
    ensures
        r == transfer_frozen(event@, now),
{
    now >= event.starts_at.saturating_sub(event.transfer_freeze_seconds)
}

/// Whether the event's resale market is closed at `now`.
fn is_resale_closed(event: &Event, now: u64) -> (r: bool)
    ensures
        r == resale_closed(event@, now),
{
    now >= event.starts_at.saturating_sub(event.resale_cutoff_seconds)
}

/// Whether the ticket has used up the event's transfer allowance.
fn is_transfer_limit_reached(ticket: &Ticket, event: &Event) -> (r: bool)
    ensures
        r == transfer_limit_reached(ticket@, event@),
{
    match event.max_transfers_per_ticket {
        Some(max_transfers) => ticket.transfers >= max_transfers,
        None => false,
    }
}

/// `amount * bps / 10 000` rounded toward zero, or `None` when the product
/// leaves the range of `i128`.
fn bps_of(amount: i128, bps: u32) -> (r: Option<i128>)
    ensures
        r is Some <==> fits_i128(amount * bps),
        r matches Some(v) ==> v == bps_portion(amount as int, bps as int),
{
    match amount.checked_mul(bps as i128) {
        Some(p) => Some(p / BPS_DENOMINATOR),
        None => None,
    }
}

/// `amount * per_mille / 1 000` rounded toward zero, or `None` when the
/// product leaves the range of `i128`.
fn floor_of(amount: i128, per_mille: u32) -> (r: Option<i128>)
    ensures
        r is Some <==> fits_i128(amount * per_mille),
        r matches Some(v) ==> v == floor_portion(amount as int, per_mille as int),
{
    match amount.checked_mul(per_mille as i128) {
        Some(p) => Some(p / FLOOR_DENOMINATOR),
        None => None,
    }
}

/// The ticket after a change of owner.
fn hand_over(ticket: Ticket, to: Address) -> (r: Ticket)
    requires
        ticket.transfers < u32::MAX,
    ensures
        r@ == handed_over(ticket@, to@),
{
    Ticket { owner: to, transfers: ticket.transfers + 1, status: TicketStatus::Valid, resale_price: 0, ..ticket }
}

/// The ledger of the buyer's latest recorded primary purchase.
fn last_purchase_of(purchases: &Vec<(Address, u32)>, buyer: &Address) -> (r: Option<u32>)
    ensures
        r == last_purchase(purchases_view(purchases@), buyer@),
{
    let ghost all = purchases_view(purchases@);
    let mut i = purchases.len();
    assert(all.take(i as int) =~= all);
    while i > 0
        invariant
            i <= purchases.len(),
            all == purchases_view(purchases@),
            last_purchase(all, buyer@) == last_purchase(all.take(i as int), buyer@),
        decreases i,
    {
        i = i - 1;
        assert(all.take(i + 1).drop_last() =~= all.take(i as int));
        if purchases[i].0.same_as(buyer) {
            return Some(purchases[i].1);
        }
    }
    None
}

/// Whether some address occurs twice in the list.
fn has_duplicate_address(list: &Vec<Address>) -> (r: bool)
    ensures
        r == has_duplicate(addresses_view(list@)),
{
    let ghost v = addresses_view(list@);
    let n = list.len();
    let mut i: usize = 0;
    while i < n
        invariant
            n == list.len(),
            v == addresses_view(list@),
            i <= n,
            forall|a: int, b: int| 0 <= a < b < n && a < i ==> v[a] != v[b],
        decreases n - i,
    {
        let mut j = i + 1;
        while j < n
            invariant
                n == list.len(),
                v == addresses_view(list@),
                i < n,
                i + 1 <= j <= n,
                forall|a: int, b: int| 0 <= a < b < n && a < i ==> v[a] != v[b],
                forall|b: int| i < b < j ==> v[i as int] != v[b],
            decreases n - j,
        {
            if list[i].same_as(&list[j]) {
                assert(v[i as int] == v[j as int]);
                return true;
            }
            j = j + 1;
        }
        i = i + 1;
    }
    false
}

/// Whether two digests are byte-for-byte equal.
fn same_digest(a: &[u8; 32], b: &[u8; 32]) -> (r: bool)
    ensures
        r == (a@ == b@),
{
    let mut i: usize = 0;
    while i < 32
        invariant
            i <= 32,
            a@.len() == 32,
            b@.len() == 32,
            forall|k: int| 0 <= k < i ==> a@[k] == b@[k],
        decreases 32 - i,
    {
        if a[i] != b[i] {
            return false;
        }
        i = i + 1;
    }
    assert(a@ =~= b@);
    true
}

/// Whether `order` lists each of the positions `0..len` exactly once, as a
/// draw order for `allocate_lottery` must.
pub fn is_draw_order(order: &Vec<u32>, len: usize) -> (r: bool)
    ensures
        r == is_permutation_of_range(order@, len as nat),
{
    if order.len() != len {
        return false;
    }
    let mut seen: Vec<bool> = Vec::new();
    let mut k: usize = 0;
    while k < len
        invariant
            k <= len,
            seen@.len() == k,
            forall|p: int| 0 <= p < k ==> !#[trigger] seen@[p],
        decreases len - k,
    {
        seen.push(false);
        k = k + 1;
    }
    let mut i: usize = 0;
    while i < len
        invariant
            order@.len() == len,
            seen@.len() == len,
            i <= len,
            forall|j: int| 0 <= j < i ==> #[trigger] order@[j] < len,
            forall|j1: int, j2: int| 0 <= j1 < j2 < i ==> #[trigger] order@[j1] != #[trigger] order@[j2],
            forall|p: int| 0 <= p < len ==> (#[trigger] seen@[p] <==> exists|j: int| 0 <= j < i && order@[j] == p),
        decreases len - i,
    {
        let p = order[i];
        if p as usize >= len {
            assert(!(forall|j: int| 0 <= j < order@.len() ==> order@[j] < len));
            return false;
        }
        if seen[p as usize] {
            proof {
                let j = choose|j: int| 0 <= j < i && order@[j] == p;
                assert(order@[j] == order@[i as int]);
                assert(!order@.no_duplicates());
            }
            return false;
        }
        seen.set(p as usize, true);
        i = i + 1;
    }
    assert forall|a: int, b: int| 0 <= a < order@.len() && 0 <= b < order@.len() && a != b implies order@[a]
        != order@[b] by {
        if a < b {
            assert(order@[a] != order@[b]);
        } else {
            assert(order@[b] != order@[a]);
        }
    }
    true
}

/// Whether a batch transfer aborts depends only on the tickets, events,
/// gift claims and ledger it runs on.
proof fn lemma_transfer_each_traps_alike(x: ContractState, y: ContractState, from: AddressView, ids: Seq<u64>, to: AddressView)
    requires
        x.tickets == y.tickets,
        x.events == y.events,
        x.claims == y.claims,
        x.ledger == y.ledger,
    ensures
        (x.transfer_each(from, ids, to) is Trap) == (y.transfer_each(from, ids, to) is Trap),
    decreases ids.len(),
{
    if ids.len() > 0 {
        match (x.transfer_one_of_batch(from, ids[0], to), y.transfer_one_of_batch(from, ids[0], to)) {
            (Transition::Done(x1, _), Transition::Done(y1, _)) => {
                lemma_transfer_each_traps_alike(x1, y1, from, ids.drop_first(), to);
            },
            _ => {},
        }
    }
}

/// A run of mints aborts exactly when the ticket ids it needs run past
/// `u64::MAX`; otherwise it succeeds.
proof fn lemma_mint_all_overflow(s: ContractState, event_id: u64, winners: Seq<AddressView>, tier: Seq<char>, price: i128)
    ensures
        (s.mint_all(event_id, winners, tier, price) is Trap) <==> s.config.next_ticket_id + winners.len() > u64::MAX,
        !(s.mint_all(event_id, winners, tier, price) is Fail),
    decreases winners.len(),
{
    if winners.len() > 0 {
        if let Transition::Done(s1, _) = s.mint(event_id, winners[0], tier, "unassigned"@, price) {
            lemma_mint_all_overflow(s1, event_id, winners.drop_first(), tier, price);
        }
    }
}

/// The texts of an optional list of addresses.
pub open spec fn opt_addresses_view(a: Option<Vec<Address>>) -> Option<Seq<AddressView>> {
    match a {
        Some(v) => Some(addresses_view(v@)),
        None => None,
    }
}

/// The ticketing contract: its storage, the ledger it runs on, and the token
/// transfers and contract events it has produced.
pub struct TicketingContract {
    contract_address: Address,
    ledger: LedgerInfo,
    authorizations: Option<Vec<Address>>,
    config: Config,
    events: HashMap<u64, Event>,
    tickets: HashMap<u64, Ticket>,
    gift_claims: HashMap<u64, GiftClaim>,
    purchases: Vec<(Address, u32)>,
    payments: Vec<Payment>,
    published: Vec<ContractEvent>,
}

impl View for TicketingContract {
    type V = ContractState;

    closed spec fn view(&self) -> ContractState {
        ContractState {
            contract_address: self.contract_address@,
            ledger: self.ledger,
            authorizations: opt_addresses_view(self.authorizations),
            config: self.config@,
            events: events_view(self.events@),
            tickets: tickets_view(self.tickets@),
            claims: claims_view(self.gift_claims@),
            purchases: purchases_view(self.purchases@),
            payments: payments_view(self.payments@),
            published: published_view(self.published@),
        }
    }
}

impl TicketingContract {
    /// A freshly deployed contract at `contract_address`, with empty storage,
    /// on the ledger with timestamp 0 and sequence 0.
    pub fn new(contract_address: Address) -> (r: Self)
        ensures
            r@ == ContractState::fresh(contract_address@, LedgerInfo { timestamp: 0, sequence: 0 }),
    {
        let r = TicketingContract {
            contract_address,
            ledger: LedgerInfo { timestamp: 0, sequence: 0 },
            authorizations: Some(Vec::new()),
            config: Config::new(),
            events: HashMap::new(),
            tickets: HashMap::new(),
            gift_claims: HashMap::new(),
            purchases: Vec::new(),
            payments: Vec::new(),
            published: Vec::new(),
        };
        assert(r@ =~= ContractState::fresh(r.contract_address@, LedgerInfo { timestamp: 0, sequence: 0 }));
        r
    }

    /// Moves to another ledger (close time and sequence).
    pub fn set_ledger(&mut self, ledger: LedgerInfo)
        ensures
            final(self)@ == (ContractState { ledger, ..old(self)@ }),
    {
        self.ledger = ledger;
    }

    /// Records which addresses have authorized the current invocation:
    /// `Some` of the signers, or `None` when every address has (as under the
    /// host's mocked authorization).
    pub fn set_authorizations(&mut self, signers: Option<Vec<Address>>)
        ensures
            final(self)@ == (ContractState { authorizations: opt_addresses_view(signers), ..old(self)@ }),
    {
        self.authorizations = signers;
    }

    /// Whether `who` has authorized the current invocation.
    fn has_authorized(&self, who: &Address) -> (r: bool)
        ensures
            r == self@.authorizes(who@),
    {
        let signers = match &self.authorizations {
            None => return true,
            Some(v) => v,
        };
        let ghost sv = addresses_view(signers@);
        let mut i: usize = 0;
        while i < signers.len()
            invariant
                i <= signers.len(),
                sv == addresses_view(signers@),
                sv.len() == signers@.len(),
                self@.authorizations == Some(sv),
                forall|k: int| 0 <= k < i ==> sv[k] != who@,
            decreases signers.len() - i,
        {
            if signers[i].same_as(who) {
                assert(sv[i as int] == who@);
                assert(sv.contains(who@));
                return true;
            }
            i = i + 1;
        }
        assert(!sv.contains(who@)) by {
            if sv.contains(who@) {
                let k = choose|k: int| 0 <= k < sv.len() && sv[k] == who@;
                assert(sv[k] != who@);
            }
        }
        false
    }

    /// The current ledger.
    pub fn ledger(&self) -> (r: LedgerInfo)
        ensures
            r == self@.ledger,
    {
        self.ledger
    }

    /// The contract's own address.
    pub fn contract_address(&self) -> (r: &Address)
        ensures
            r@ == self@.contract_address,
    {
        &self.contract_address
    }

    /// The contract-wide settings.
    pub fn config(&self) -> (r: &Config)
        ensures
            r@ == self@.config,
    {
        &self.config
    }

    /// Replaces the contract-wide settings (loading stored state).
    pub fn load_config(&mut self, config: Config)
        ensures
            final(self)@ == (ContractState { config: config@, ..old(self)@ }),
    {
        self.config = config;
    }

    /// Stores an event record under its id (loading stored state).
    pub fn load_event(&mut self, event_id: u64, event: Event)
        ensures
            final(self)@ == old(self)@.put_event(event_id, event@),
    {
        self.events.insert(event_id, event);
    }

    /// Stores a ticket record under its id (loading stored state).
    pub fn load_ticket(&mut self, ticket_id: u64, ticket: Ticket)
        ensures
            final(self)@ == old(self)@.put_ticket(ticket_id, ticket@),
    {
        self.tickets.insert(ticket_id, ticket);
    }

    /// Stores a gift claim under its ticket id (loading stored state).
    pub fn load_gift_claim(&mut self, ticket_id: u64, claim: GiftClaim)
        ensures
            final(self)@ == (ContractState {
                claims: old(self)@.claims.insert(ticket_id, claim@),
                ..old(self)@
            }),
    {
        self.gift_claims.insert(ticket_id, claim);
    }

    /// Records a buyer's latest primary purchase ledger (loading stored state).
    pub fn load_purchase(&mut self, buyer: Address, ledger_sequence: u32)
        ensures
            final(self)@ == (ContractState {
                purchases: old(self)@.purchases.push((buyer@, ledger_sequence)),
                ..old(self)@
            }),
    {
        self.purchases.push((buyer, ledger_sequence));
    }

    /// The stored events.
    pub fn events(&self) -> (r: &HashMap<u64, Event>)
        ensures
            events_view(r@) == self@.events,
    {
        &self.events
    }

    /// The stored tickets.
    pub fn tickets(&self) -> (r: &HashMap<u64, Ticket>)
        ensures
            tickets_view(r@) == self@.tickets,
    {
        &self.tickets
    }

    /// The stored gift claims.
    pub fn gift_claims(&self) -> (r: &HashMap<u64, GiftClaim>)
        ensures
            claims_view(r@) == self@.claims,
    {
        &self.gift_claims
    }

    /// The recorded primary purchases, latest last.
    pub fn purchases(&self) -> (r: &Vec<(Address, u32)>)
        ensures
            purchases_view(r@) == self@.purchases,
    {
        &self.purchases
    }

    /// The token transfers settled so far, in order.
    pub fn payments(&self) -> (r: &Vec<Payment>)
        ensures
            payments_view(r@) == self@.payments,
    {
        &self.payments
    }

    /// The contract events published so far, in order.
    pub fn published(&self) -> (r: &Vec<ContractEvent>)
        ensures
            published_view(r@) == self@.published,
    {
        &self.published
    }

    /// Why `admin` may not act as the contract admin, if it may not.
    fn require_admin(&self, admin: &Address) -> (r: Option<Error>)
        ensures
            r == self@.admin_error(admin@),
    {
        match &self.config.admin {
            None => Some(Error::NotInitialized),
            Some(stored) => if !stored.same_as(admin) {
                Some(Error::NotAdmin)
            } else if !self.has_authorized(admin) {
                Some(Error::NotAuthorized)
            } else {
                None
            },
        }
    }

    /// The token an event settles in, if one is set.
    fn payment_token_for_event(&self, event: &Event) -> (r: Option<Address>)
        ensures
            opt_view(r) == self@.event_token(event@),
    {
        match &event.payment_token {
            Some(token) => Some(token.clone()),
            None => clone_opt_address(&self.config.payment_token),
        }
    }

    /// One-time setup: the admin and the contract-wide payment token.
    /// `payment_token_decimals` is the token's answer to `decimals()`, `None`
    /// when it is not a token contract.
    pub fn initialize(&mut self, admin: Address, payment_token: Address, payment_token_decimals: Option<u32>) -> (r: Result<(), Error>)
        ensures
            outcome(old(self)@.initialize(admin@, payment_token@, payment_token_decimals), old(self)@, final(self)@, r),
    {
        if self.config.admin.is_some() {
            return Err(Error::AlreadyInitialized);
        }
        if !self.has_authorized(&admin) {
            return Err(Error::NotAuthorized);
        }
        let decimals = match payment_token_decimals {
            Some(d) => d,
            None => return Err(Error::InvalidPaymentToken),
        };
        self.config.admin = Some(admin.clone());
        self.config.payment_token = Some(payment_token.clone());
        self.config.token_decimals = Some(decimals);
        self.config.next_ticket_id = 0;
        self.published.push(ContractEvent::ContractInitialized { admin, payment_token });
        Ok(())
    }

    /// Step one of a payment token change: the admin proposes `new_token`,
    /// applicable after `PAYMENT_TOKEN_CHANGE_DELAY_LEDGERS`; a new proposal
    /// replaces a pending one. `new_token_decimals` is the token's answer to
    /// `decimals()`.
    pub fn propose_payment_token(&mut self, admin: Address, new_token: Address, new_token_decimals: Option<u32>) -> (r: Result<(), Error>)
        ensures
            outcome(old(self)@.propose_payment_token(admin@, new_token@, new_token_decimals), old(self)@, final(self)@, r),
    {
        if let Some(e) = self.require_admin(&admin) {
            return Err(e);
        }
        if new_token_decimals.is_none() {
            return Err(Error::InvalidPaymentToken);
        }
        let apply_after_ledger = self.ledger.sequence.saturating_add(PAYMENT_TOKEN_CHANGE_DELAY_LEDGERS);
        self.config.pending_payment_token = Some(PendingPaymentToken { token: new_token.clone(), apply_after_ledger });
        self.published.push(ContractEvent::PaymentTokenProposed { admin, new_token, apply_after_ledger });
        Ok(())
    }

    /// Step two: once the delay has elapsed the admin applies the pending
    /// token. `pending_token_decimals` is the pending token's answer to
    /// `decimals()`.
    pub fn apply_payment_token(&mut self, admin: Address, pending_token_decimals: Option<u32>) -> (r: Result<(), Error>)
        ensures
            outcome(old(self)@.apply_payment_token(admin@, pending_token_decimals), old(self)@, final(self)@, r),
    {
        if let Some(e) = self.require_admin(&admin) {
            return Err(e);
        }
        let pending = match &self.config.pending_payment_token {
            Some(p) => p.clone(),
            None => return Err(Error::NoPendingPaymentToken),
        };
        if self.ledger.sequence < pending.apply_after_ledger {
            return Err(Error::TimelockNotElapsed);
        }
        let old_token = match &self.config.payment_token {
            Some(t) => t.clone(),
            None => return Err(Error::NotInitialized),
        };
        let decimals = match pending_token_decimals {
            Some(d) => d,
            None => return Err(Error::InvalidPaymentToken),
        };
        self.config.payment_token = Some(pending.token.clone());
        self.config.token_decimals = Some(decimals);
        self.config.pending_payment_token = None;
        self.published.push(ContractEvent::PaymentTokenChanged { admin, old_token, new_token: pending.token });
        Ok(())
    }

    /// Admin-configurable minimum number of ledgers a buyer must wait between
    /// primary purchases; 0 disables the throttle.
    pub fn set_purchase_throttle(&mut self, admin: Address, min_ledger_spacing: u32) -> (r: Result<(), Error>)
        ensures
            outcome(old(self)@.set_purchase_throttle(admin@, min_ledger_spacing), old(self)@, final(self)@, r),
    {
        if let Some(e) = self.require_admin(&admin) {
            return Err(e);
        }
        self.config.min_purchase_spacing = min_ledger_spacing;
        self.published.push(ContractEvent::PurchaseThrottleUpdated { admin, min_ledger_spacing });
        Ok(())
    }

    /// Registers a new event/route/showing under an organizer, with no resale
    /// floor and no transfer limit.
    pub fn create_event(
        &mut self,
        organizer: Address,
        event_id: u64,
        name: String,
        category: String,
        max_resale_multiplier_bps: u32,
        royalty_bps: u32,
        starts_at: u64,
        transfer_freeze_seconds: u64,
        resale_cutoff_seconds: u64,
    ) -> (r: Result<(), Error>)
        ensures
            outcome(
                old(self)@.create_event_with_options(
                    organizer@,
                    event_id,
                    name@,
                    category@,
                    max_resale_multiplier_bps,
                    royalty_bps,
                    starts_at,
                    transfer_freeze_seconds,
                    resale_cutoff_seconds,
                    None,
                    None,
                ),
                old(self)@,
                final(self)@,
                r,
            ),
    {
        self.create_event_with_options(
            organizer,
            event_id,
            name,
            category,
            max_resale_multiplier_bps,
            royalty_bps,
            starts_at,
            transfer_freeze_seconds,
            resale_cutoff_seconds,
            None,
            None,
        )
    }

    /// Registers an event with an optional resale floor and transfer limit.
    pub fn create_event_with_options(
        &mut self,
        organizer: Address,
        event_id: u64,
        name: String,
        category: String,
        max_resale_multiplier_bps: u32,
        royalty_bps: u32,
        starts_at: u64,
        transfer_freeze_seconds: u64,
        resale_cutoff_seconds: u64,
        min_resale_multiplier_bps: Option<u32>,
        max_transfers_per_ticket: Option<u32>,
    ) -> (r: Result<(), Error>)
        ensures
            outcome(
                old(self)@.create_event_with_options(
                    organizer@,
                    event_id,
                    name@,
                    category@,
                    max_resale_multiplier_bps,
                    royalty_bps,
                    starts_at,
                    transfer_freeze_seconds,
                    resale_cutoff_seconds,
                    min_resale_multiplier_bps,
                    max_transfers_per_ticket,
                ),
                old(self)@,
                final(self)@,
                r,
            ),
    {
        if !self.has_authorized(&organizer) {
            return Err(Error::NotAuthorized);
        }
        if royalty_bps > 10_000 {
            return Err(Error::InvalidRoyalty);
        }
        if starts_at <= self.ledger.timestamp {
            return Err(Error::InvalidEventTime);
        }
        if self.events.contains_key(&event_id) {
            return Err(Error::EventAlreadyExists);
        }
        let event = Event {
            organizer,
            name,
            category,
            max_resale_multiplier_bps,
            min_resale_multiplier_bps,
            max_transfers_per_ticket,
            royalty_bps,
            tickets_issued: 0,
            starts_at,
            transfer_freeze_seconds,
            resale_cutoff_seconds,
            escrow_enabled: false,
            escrow_release_ledger: 0,
            escrow_balance: 0,
            payment_token: None,
        };
        self.events.insert(event_id, event);
        Ok(())
    }

    /// Opts an event into escrow before any ticket is issued: primary
    /// proceeds are then held by the contract until `escrow_release_ledger`.
    pub fn enable_escrow(&mut self, organizer: Address, event_id: u64, escrow_release_ledger: u32) -> (r: Result<(), Error>)
        ensures
            outcome(old(self)@.enable_escrow(organizer@, event_id, escrow_release_ledger), old(self)@, final(self)@, r),
    {
        if !self.has_authorized(&organizer) {
            return Err(Error::NotAuthorized);
        }
        let mut event = match self.events.get(&event_id) {
            Some(e) => e.clone(),
            None => return Err(Error::EventNotFound),
        };
        if !event.organizer.same_as(&organizer) {
            return Err(Error::NotOrganizer);
        }
        if event.tickets_issued > 0 {
            return Err(Error::EventAlreadyStarted);
        }
        event.escrow_enabled = true;
        event.escrow_release_ledger = escrow_release_ledger;
        self.events.insert(event_id, event);
        Ok(())
    }

    /// Sets the event's own payment token (`None` falls back to the
    /// contract-wide token), only while no ticket has been issued.
    /// `token_decimals` is the token's answer to `decimals()`; it is consulted
    /// only when a token is given.
    pub fn set_event_payment_token(
        &mut self,
        organizer: Address,
        event_id: u64,
        token: Option<Address>,
        token_decimals: Option<u32>,
    ) -> (r: Result<(), Error>)
        ensures
            outcome(
                old(self)@.set_event_payment_token(organizer@, event_id, opt_view(token), token_decimals),
                old(self)@,
                final(self)@,
                r,
            ),
    {
        if !self.has_authorized(&organizer) {
            return Err(Error::NotAuthorized);
        }
        let mut event = match self.events.get(&event_id) {
            Some(e) => e.clone(),
            None => return Err(Error::EventNotFound),
        };
        if !event.organizer.same_as(&organizer) {
            return Err(Error::NotOrganizer);
        }
        if event.tickets_issued > 0 {
            return Err(Error::TicketsAlreadyIssued);
        }
        if token.is_some() && token_decimals.is_none() {
            return Err(Error::InvalidPaymentToken);
        }
        event.payment_token = token;
        self.events.insert(event_id, event);
        Ok(())
    }

    /// The event's accepted payment token: its own when set, otherwise the
    /// contract-wide one.
    pub fn event_payment_token(&self, event_id: u64) -> (r: Result<Address, Error>)
        ensures
            match r {
                Ok(a) => self@.event_payment_token(event_id) == Ok::<AddressView, Error>(a@),
                Err(e) => self@.event_payment_token(event_id) == Err::<AddressView, Error>(e),
            },
    {
        let event = match self.events.get(&event_id) {
            Some(e) => e,
            None => return Err(Error::EventNotFound),
        };
        match self.payment_token_for_event(event) {
            Some(t) => Ok(t),
            None => Err(Error::NotInitialized),
        }
    }

    /// The stored event.
    pub fn get_event(&self, event_id: u64) -> (r: Result<Event, Error>)
        ensures
            match r {
                Ok(e) => self@.get_event(event_id) == Ok::<EventView, Error>(e@),
                Err(x) => self@.get_event(event_id) == Err::<EventView, Error>(x),
            },
    {
        match self.events.get(&event_id) {
            Some(e) => Ok(e.clone()),
            None => Err(Error::EventNotFound),
        }
    }

    /// The stored ticket.
    pub fn get_ticket(&self, ticket_id: u64) -> (r: Result<Ticket, Error>)
        ensures
            match r {
                Ok(t) => self@.get_ticket(ticket_id) == Ok::<TicketView, Error>(t@),
                Err(x) => self@.get_ticket(ticket_id) == Err::<TicketView, Error>(x),
            },
    {
        match self.tickets.get(&ticket_id) {
            Some(t) => Ok(t.clone()),
            None => Err(Error::TicketNotFound),
        }
    }

    /// Read-only verification, the fraud-prevention primitive any scanner
    /// calls: the ticket's current owner and status.
    pub fn verify_ticket(&self, ticket_id: u64) -> (r: Result<Ticket, Error>)
        ensures
            match r {
                Ok(t) => self@.get_ticket(ticket_id) == Ok::<TicketView, Error>(t@),
                Err(x) => self@.get_ticket(ticket_id) == Err::<TicketView, Error>(x),
            },
    {
        self.get_ticket(ticket_id)
    }

    /// Read-only verification of up to `MAX_BATCH_SIZE` tickets at once.
    pub fn verify_tickets(&self, ticket_ids: Vec<u64>) -> (r: Result<Vec<Ticket>, Error>)
        ensures
            match r {
                Ok(v) => self@.verify_tickets(ticket_ids@) == Ok::<Seq<TicketView>, Error>(
                    v@.map_values(|t: Ticket| t@),
                ),
                Err(x) => self@.verify_tickets(ticket_ids@) == Err::<Seq<TicketView>, Error>(x),
            },
    {
        if ticket_ids.len() == 0 {
            return Err(Error::EmptyBatch);
        }
        if ticket_ids.len() > MAX_BATCH_SIZE as usize {
            return Err(Error::BatchTooLarge);
        }
        let ghost st = self@;
        let mut found: Vec<Ticket> = Vec::new();
        let mut i: usize = 0;
        while i < ticket_ids.len()
            invariant
                st == self@,
                0 < ticket_ids.len() <= MAX_BATCH_SIZE,
                i <= ticket_ids.len(),
                found@.len() == i,
                forall|k: int| 0 <= k < i ==> #[trigger] st.tickets.contains_key(ticket_ids@[k]),
                forall|k: int| 0 <= k < i ==> #[trigger] found@[k]@ == st.tickets[ticket_ids@[k]],
            decreases ticket_ids.len() - i,
        {
            let id = ticket_ids[i];
            match self.tickets.get(&id) {
                Some(t) => found.push(t.clone()),
                None => {
                    assert(!st.tickets.contains_key(ticket_ids@[i as int]));
                    assert(!(forall|k: int| 0 <= k < ticket_ids@.len() ==> #[trigger] st.tickets.contains_key(ticket_ids@[k])));
                    assert(batch_error(ticket_ids@.len()) is None);
                    return Err(Error::TicketNotFound);
                },
            }
            i = i + 1;
        }
        assert(found@.map_values(|t: Ticket| t@) =~= Seq::new(
            ticket_ids@.len(),
            |k: int| st.tickets[ticket_ids@[k]],
        ));
        Ok(found)
    }

    /// Mints a ticket under the next ticket id and publishes `TicketIssued`.
    fn mint(&mut self, event_id: u64, to: Address, tier: String, seat: String, price: i128) -> (r: u64)
        requires
            old(self)@.config.next_ticket_id < u64::MAX,
        ensures
            old(self)@.mint(event_id, to@, tier@, seat@, price) == Transition::Done(final(self)@, r),
    {
        let ticket_id = self.config.next_ticket_id;
        let ticket = Ticket {
            event_id,
            owner: to,
            tier,
            seat,
            status: TicketStatus::Valid,
            original_price: price,
            resale_price: 0,
            transfers: 0,
        };
        self.tickets.insert(ticket_id, ticket);
        self.config.next_ticket_id = ticket_id + 1;
        self.published.push(ContractEvent::TicketIssued { ticket_id, event_id });
        ticket_id
    }

    /// Organizer-authorized issuance for a ticket already paid for off-chain
    /// (card payment, comp, or fiat settled by the platform).
    pub fn issue_ticket(
        &mut self,
        organizer: Address,
        event_id: u64,
        to: Address,
        tier: String,
        seat: String,
        price: i128,
    ) -> (r: Result<u64, Error>)
        requires
            !(old(self)@.issue_ticket(organizer@, event_id, to@, tier@, seat@, price) is Trap),
        ensures
            outcome(old(self)@.issue_ticket(organizer@, event_id, to@, tier@, seat@, price), old(self)@, final(self)@, r),
    {
        if !self.has_authorized(&organizer) {
            return Err(Error::NotAuthorized);
        }
        if price < 0 {
            return Err(Error::InvalidPrice);
        }
        let mut event = match self.events.get(&event_id) {
            Some(e) => e.clone(),
            None => return Err(Error::EventNotFound),
        };
        if !event.organizer.same_as(&organizer) {
            return Err(Error::NotOrganizer);
        }
        let ticket_id = self.mint(event_id, to, tier, seat, price);
        event.tickets_issued = event.tickets_issued + 1;
        self.events.insert(event_id, event);
        Ok(ticket_id)
    }

    /// Fully on-chain primary sale: the buyer pays the organizer (or the
    /// escrow) in the event's token, then the ticket is minted to the buyer.
    pub fn purchase_primary(
        &mut self,
        buyer: Address,
        event_id: u64,
        tier: String,
        seat: String,
        price: i128,
    ) -> (r: Result<u64, Error>)
        requires
            !(old(self)@.purchase_primary(buyer@, event_id, tier@, seat@, price) is Trap),
        ensures
            outcome(old(self)@.purchase_primary(buyer@, event_id, tier@, seat@, price), old(self)@, final(self)@, r),
    {
        if !self.has_authorized(&buyer) {
            return Err(Error::NotAuthorized);
        }
        if price < 0 {
            return Err(Error::InvalidPrice);
        }
        let last = last_purchase_of(&self.purchases, &buyer);
        let spacing = self.config.min_purchase_spacing;
        if spacing != 0 {
            if let Some(last_ledger) = last {
                if self.ledger.sequence.saturating_sub(last_ledger) < spacing {
                    return Err(Error::PurchaseTooSoon);
                }
            }
        }
        let mut event = match self.events.get(&event_id) {
            Some(e) => e.clone(),
            None => return Err(Error::EventNotFound),
        };
        let token = match self.payment_token_for_event(&event) {
            Some(t) => t,
            None => return Err(Error::NotInitialized),
        };
        if price > 0 {
            if event.escrow_enabled {
                let holder = self.contract_address.clone();
                self.payments.push(Payment { token, from: buyer.clone(), to: holder, amount: price });
                event.escrow_balance = event.escrow_balance + price;
            } else {
                let organizer = event.organizer.clone();
                self.payments.push(Payment { token, from: buyer.clone(), to: organizer, amount: price });
            }
        }
        let ticket_id = self.mint(event_id, buyer.clone(), tier, seat, price);
        event.tickets_issued = event.tickets_issued + 1;
        self.events.insert(event_id, event);
        let sequence = self.ledger.sequence;
        self.purchases.push((buyer, sequence));
        Ok(ticket_id)
    }

    /// Releases an event's escrowed primary proceeds to the organizer once the
    /// ledger sequence has reached the event's release ledger.
    pub fn release_escrow(&mut self, organizer: Address, event_id: u64) -> (r: Result<(), Error>)
        ensures
            outcome(old(self)@.release_escrow(organizer@, event_id), old(self)@, final(self)@, r),
    {
        if !self.has_authorized(&organizer) {
            return Err(Error::NotAuthorized);
        }
        let mut event = match self.events.get(&event_id) {
            Some(e) => e.clone(),
            None => return Err(Error::EventNotFound),
        };
        if !event.organizer.same_as(&organizer) {
            return Err(Error::NotOrganizer);
        }
        if !event.escrow_enabled {
            return Err(Error::EscrowNotEnabled);
        }
        if self.ledger.sequence < event.escrow_release_ledger {
            return Err(Error::EventNotEnded);
        }
        let amount = event.escrow_balance;
        if amount > 0 {
            let token = match self.payment_token_for_event(&event) {
                Some(t) => t,
                None => return Err(Error::NotInitialized),
            };
            event.escrow_balance = 0;
            self.events.insert(event_id, event);
            let holder = self.contract_address.clone();
            self.payments.push(Payment { token, from: holder, to: organizer, amount });
        } else {
            event.escrow_balance = 0;
            self.events.insert(event_id, event);
        }
        Ok(())
    }

    /// Direct, non-marketplace transfer (gift, family member, etc).
    pub fn transfer_ticket(&mut self, from: Address, ticket_id: u64, to: Address) -> (r: Result<(), Error>)
        requires
            !(old(self)@.transfer_ticket(from@, ticket_id, to@) is Trap),
        ensures
            outcome(old(self)@.transfer_ticket(from@, ticket_id, to@), old(self)@, final(self)@, r),
    {
        if !self.has_authorized(&from) {
            return Err(Error::NotAuthorized);
        }
        let ticket = match self.tickets.get(&ticket_id) {
            Some(t) => t.clone(),
            None => return Err(Error::TicketNotFound),
        };
        if !ticket.owner.same_as(&from) {
            return Err(Error::NotOwner);
        }
        if let Some(e) = status_check(ticket.status) {
            return Err(e);
        }
        let event = match self.events.get(&ticket.event_id) {
            Some(e) => e.clone(),
            None => return Err(Error::EventNotFound),
        };
        if is_transfer_limit_reached(&ticket, &event) {
            return Err(Error::TransferLimitExceeded);
        }
        if is_transfer_frozen(&event, self.ledger.timestamp) {
            return Err(Error::TransfersFrozen);
        }
        self.tickets.insert(ticket_id, hand_over(ticket, to));
        self.gift_claims.remove(&ticket_id);
        Ok(())
    }

    /// One ticket of a batch transfer.
    fn transfer_one_of_batch(&mut self, from: &Address, ticket_id: u64, to: &Address) -> (r: Result<(), Error>)
        requires
            !(old(self)@.transfer_one_of_batch(from@, ticket_id, to@) is Trap),
        ensures
            outcome(old(self)@.transfer_one_of_batch(from@, ticket_id, to@), old(self)@, final(self)@, r),
    {
        let ticket = match self.tickets.get(&ticket_id) {
            Some(t) => t.clone(),
            None => return Err(Error::TicketNotFound),
        };
        if !ticket.owner.same_as(from) {
            return Err(Error::NotOwner);
        }
        if let Some(e) = status_check(ticket.status) {
            return Err(e);
        }
        let event = match self.events.get(&ticket.event_id) {
            Some(e) => e.clone(),
            None => return Err(Error::EventNotFound),
        };
        if is_transfer_frozen(&event, self.ledger.timestamp) {
            return Err(Error::TransfersFrozen);
        }
        if is_transfer_limit_reached(&ticket, &event) {
            return Err(Error::TransferLimitExceeded);
        }
        self.tickets.insert(ticket_id, hand_over(ticket, to.clone()));
        self.gift_claims.remove(&ticket_id);
        Ok(())
    }

    /// Direct batch transfer of up to `MAX_BATCH_SIZE` tickets to one
    /// recipient; all of them or none.
    pub fn transfer_batch(&mut self, from: Address, ticket_ids: Vec<u64>, to: Address) -> (r: Result<(), Error>)
        requires
            !(old(self)@.transfer_batch(from@, ticket_ids@, to@) is Trap),
        ensures
            outcome(old(self)@.transfer_batch(from@, ticket_ids@, to@), old(self)@, final(self)@, r),
    {
        if !self.has_authorized(&from) {
            return Err(Error::NotAuthorized);
        }
        if ticket_ids.len() == 0 {
            return Err(Error::EmptyBatch);
        }
        if ticket_ids.len() > MAX_BATCH_SIZE as usize {
            return Err(Error::BatchTooLarge);
        }
        let ghost pre = self@;
        let saved_tickets = self.tickets.clone();
        let saved_claims = self.gift_claims.clone();
        assert(ticket_ids@.skip(0) =~= ticket_ids@);
        let mut i: usize = 0;
        while i < ticket_ids.len()
            invariant
                i <= ticket_ids.len(),
                pre == old(self)@,
                pre.authorizes(from@),
                0 < ticket_ids.len() <= MAX_BATCH_SIZE,
                !(pre.transfer_each(from@, ticket_ids@, to@) is Trap),
                pre.transfer_each(from@, ticket_ids@, to@) == self@.transfer_each(
                    from@,
                    ticket_ids@.skip(i as int),
                    to@,
                ),
                tickets_view(saved_tickets@) == pre.tickets,
                claims_view(saved_claims@) == pre.claims,
                self@ == (ContractState { tickets: self@.tickets, claims: self@.claims, ..pre }),
            decreases ticket_ids.len() - i,
        {
            let id = ticket_ids[i];
            assert(ticket_ids@.skip(i as int).drop_first() =~= ticket_ids@.skip(i + 1));
            assert(ticket_ids@.skip(i as int)[0] == id);
            match self.transfer_one_of_batch(&from, id, &to) {
                Ok(()) => {},
                Err(e) => {
                    self.tickets = saved_tickets;
                    self.gift_claims = saved_claims;
                    assert(self@ =~= pre);
                    return Err(e);
                },
            }
            i = i + 1;
        }
        assert(ticket_ids@.skip(i as int) =~= Seq::<u64>::empty());
        Ok(())
    }

    /// Creates a claim link without the recipient's address: the owner shares
    /// the secret off-chain and only its SHA-256 digest is stored. A resale
    /// listing of the ticket is withdrawn.
    pub fn create_gift_claim(&mut self, owner: Address, ticket_id: u64, secret_hash: [u8; 32], expires_at: u64) -> (r: Result<(), Error>)
        ensures
            outcome(old(self)@.create_gift_claim(owner@, ticket_id, secret_hash@, expires_at), old(self)@, final(self)@, r),
    {
        if !self.has_authorized(&owner) {
            return Err(Error::NotAuthorized);
        }
        if expires_at <= self.ledger.timestamp {
            return Err(Error::InvalidExpiry);
        }
        let mut ticket = match self.tickets.get(&ticket_id) {
            Some(t) => t.clone(),
            None => return Err(Error::TicketNotFound),
        };
        if !ticket.owner.same_as(&owner) {
            return Err(Error::NotOwner);
        }
        if let Some(e) = status_check(ticket.status) {
            return Err(e);
        }
        if ticket.status == TicketStatus::Resale {
            ticket.status = TicketStatus::Valid;
            ticket.resale_price = 0;
            self.tickets.insert(ticket_id, ticket);
        }
        self.gift_claims.insert(ticket_id, GiftClaim { from: owner, secret_hash, expires_at });
        Ok(())
    }

    /// Claims a gifted ticket with a secret whose SHA-256 digest is `digest`,
    /// before the claim expires.
    pub fn claim_gift_with_digest(&mut self, recipient: Address, ticket_id: u64, digest: [u8; 32]) -> (r: Result<(), Error>)
        requires
            !(old(self)@.claim_gift(recipient@, ticket_id, digest@) is Trap),
        ensures
            outcome(old(self)@.claim_gift(recipient@, ticket_id, digest@), old(self)@, final(self)@, r),
    {
        if !self.has_authorized(&recipient) {
            return Err(Error::NotAuthorized);
        }
        let claim = match self.gift_claims.get(&ticket_id) {
            Some(c) => c.clone(),
            None => return Err(Error::GiftClaimNotFound),
        };
        if self.ledger.timestamp >= claim.expires_at {
            return Err(Error::GiftClaimExpired);
        }
        if !same_digest(&digest, &claim.secret_hash) {
            return Err(Error::InvalidSecret);
        }
        let ticket = match self.tickets.get(&ticket_id) {
            Some(t) => t.clone(),
            None => return Err(Error::TicketNotFound),
        };
        if !ticket.owner.same_as(&claim.from) {
            return Err(Error::NotOwner);
        }
        if let Some(e) = status_check(ticket.status) {
            return Err(e);
        }
        let event = match self.events.get(&ticket.event_id) {
            Some(e) => e.clone(),
            None => return Err(Error::EventNotFound),
        };
        if is_transfer_frozen(&event, self.ledger.timestamp) {
            return Err(Error::TransfersFrozen);
        }
        if is_transfer_limit_reached(&ticket, &event) {
            return Err(Error::TransferLimitExceeded);
        }
        self.gift_claims.remove(&ticket_id);
        self.tickets.insert(ticket_id, hand_over(ticket, recipient));
        Ok(())
    }

    /// Claims a gifted ticket by presenting the secret preimage before expiry;
    /// the secret is hashed with the host's SHA-256. A claim that this secret
    /// completes must leave room in the ticket's transfer counter.
    pub fn claim_gift(&mut self, env: &soroban_sdk::Env, recipient: Address, ticket_id: u64, secret: &Vec<u8>) -> (r: Result<(), Error>)
        requires
            !(old(self)@.claim_gift(recipient@, ticket_id, sha256_digest(secret@)) is Trap),
        ensures
            outcome(old(self)@.claim_gift(recipient@, ticket_id, sha256_digest(secret@)), old(self)@, final(self)@, r),
    {
        let digest = sha256(env, secret);
        self.claim_gift_with_digest(recipient, ticket_id, digest)
    }

    /// `claim_gift`, or `None` with nothing changed where the claim would
    /// overflow the ticket's transfer counter, on which the host aborts.
    pub fn try_claim_gift(
        &mut self,
        env: &soroban_sdk::Env,
        recipient: Address,
        ticket_id: u64,
        secret: &Vec<u8>,
    ) -> (r: Option<Result<(), Error>>)
        ensures
            match r {
                None => old(self)@.claim_gift(recipient@, ticket_id, sha256_digest(secret@)) is Trap && final(self)@
                    == old(self)@,
                Some(res) => outcome(
                    old(self)@.claim_gift(recipient@, ticket_id, sha256_digest(secret@)),
                    old(self)@,
                    final(self)@,
                    res,
                ),
            },
    {
        let digest = sha256(env, secret);
        if self.claim_gift_overflows(&recipient, ticket_id, &digest) {
            return None;
        }
        Some(self.claim_gift(env, recipient, ticket_id, secret))
    }

    /// Marks a ticket as used at the point of entry. Only the event's
    /// organizer may admit a ticket, and only once; an admitted ticket asks
    /// no resale price.
    pub fn check_in(&mut self, organizer: Address, ticket_id: u64) -> (r: Result<(), Error>)
        ensures
            outcome(old(self)@.check_in(organizer@, ticket_id), old(self)@, final(self)@, r),
    {
        if !self.has_authorized(&organizer) {
            return Err(Error::NotAuthorized);
        }
        let mut ticket = match self.tickets.get(&ticket_id) {
            Some(t) => t.clone(),
            None => return Err(Error::TicketNotFound),
        };
        let event = match self.events.get(&ticket.event_id) {
            Some(e) => e.clone(),
            None => return Err(Error::EventNotFound),
        };
        if !event.organizer.same_as(&organizer) {
            return Err(Error::NotOrganizer);
        }
        if let Some(e) = status_check(ticket.status) {
            return Err(e);
        }
        ticket.status = TicketStatus::Used;
        ticket.resale_price = 0;
        self.tickets.insert(ticket_id, ticket);
        self.gift_claims.remove(&ticket_id);
        self.published.push(ContractEvent::TicketCheckedIn { ticket_id, organizer });
        Ok(())
    }

    /// Marks up to `MAX_BATCH_SIZE` tickets as used for a group admission;
    /// all of them or none.
    pub fn check_in_batch(&mut self, organizer: Address, ticket_ids: Vec<u64>) -> (r: Result<(), Error>)
        ensures
            outcome(old(self)@.check_in_batch(organizer@, ticket_ids@), old(self)@, final(self)@, r),
    {
        if !self.has_authorized(&organizer) {
            return Err(Error::NotAuthorized);
        }
        if ticket_ids.len() == 0 {
            return Err(Error::EmptyBatch);
        }
        if ticket_ids.len() > MAX_BATCH_SIZE as usize {
            return Err(Error::BatchTooLarge);
        }
        let ghost pre = self@;
        let saved_tickets = self.tickets.clone();
        let saved_claims = self.gift_claims.clone();
        let saved_published = self.published.len();
        assert(ticket_ids@.skip(0) =~= ticket_ids@);
        assert(pre.published.subrange(0, saved_published as int) =~= pre.published);
        let mut i: usize = 0;
        while i < ticket_ids.len()
            invariant
                i <= ticket_ids.len(),
                pre == old(self)@,
                0 < ticket_ids.len() <= MAX_BATCH_SIZE,
                pre.check_in_each(organizer@, ticket_ids@) == self@.check_in_each(organizer@, ticket_ids@.skip(i as int)),
                tickets_view(saved_tickets@) == pre.tickets,
                claims_view(saved_claims@) == pre.claims,
                saved_published == pre.published.len(),
                saved_published <= self@.published.len(),
                self@.published.subrange(0, saved_published as int) == pre.published,
                self@ == (ContractState {
                    tickets: self@.tickets,
                    claims: self@.claims,
                    published: self@.published,
                    ..pre
                }),
            decreases ticket_ids.len() - i,
        {
            let id = ticket_ids[i];
            assert(ticket_ids@.skip(i as int).drop_first() =~= ticket_ids@.skip(i + 1));
            assert(ticket_ids@.skip(i as int)[0] == id);
            let ghost before = self@;
            let organizer_copy = organizer.clone();
            match self.check_in(organizer_copy, id) {
                Ok(()) => {
                    assert(self@.published.subrange(0, saved_published as int) =~= before.published.subrange(
                        0,
                        saved_published as int,
                    ));
                },
                Err(e) => {
                    proof {
                        lemma_published_prefix(self.published@, saved_published as int);
                    }
                    self.tickets = saved_tickets;
                    self.gift_claims = saved_claims;
                    self.published.truncate(saved_published);
                    assert(self@ =~= pre);
                    return Err(e);
                },
            }
            i = i + 1;
        }
        assert(ticket_ids@.skip(i as int) =~= Seq::<u64>::empty());
        Ok(())
    }

    /// Voids a ticket (chargeback, counterfeit report, policy violation).
    /// A revoked ticket can never be transferred, resold, or admitted, and
    /// asks no resale price.
    pub fn revoke_ticket(&mut self, organizer: Address, ticket_id: u64) -> (r: Result<(), Error>)
        ensures
            outcome(old(self)@.revoke_ticket(organizer@, ticket_id), old(self)@, final(self)@, r),
    {
        if !self.has_authorized(&organizer) {
            return Err(Error::NotAuthorized);
        }
        let mut ticket = match self.tickets.get(&ticket_id) {
            Some(t) => t.clone(),
            None => return Err(Error::TicketNotFound),
        };
        let event = match self.events.get(&ticket.event_id) {
            Some(e) => e.clone(),
            None => return Err(Error::EventNotFound),
        };
        if !event.organizer.same_as(&organizer) {
            return Err(Error::NotOrganizer);
        }
        ticket.status = TicketStatus::Revoked;
        ticket.resale_price = 0;
        self.tickets.insert(ticket_id, ticket);
        self.gift_claims.remove(&ticket_id);
        Ok(())
    }

    /// Revokes up to `MAX_BATCH_SIZE` tickets; all of them or none.
    pub fn revoke_batch(&mut self, organizer: Address, ticket_ids: Vec<u64>) -> (r: Result<(), Error>)
        ensures
            outcome(old(self)@.revoke_batch(organizer@, ticket_ids@), old(self)@, final(self)@, r),
    {
        if !self.has_authorized(&organizer) {
            return Err(Error::NotAuthorized);
        }
        if ticket_ids.len() == 0 {
            return Err(Error::EmptyBatch);
        }
        if ticket_ids.len() > MAX_BATCH_SIZE as usize {
            return Err(Error::BatchTooLarge);
        }
        let ghost pre = self@;
        let saved_tickets = self.tickets.clone();
        let saved_claims = self.gift_claims.clone();
        assert(ticket_ids@.skip(0) =~= ticket_ids@);
        let mut i: usize = 0;
        while i < ticket_ids.len()
            invariant
                i <= ticket_ids.len(),
                pre == old(self)@,
                0 < ticket_ids.len() <= MAX_BATCH_SIZE,
                pre.revoke_each(organizer@, ticket_ids@) == self@.revoke_each(organizer@, ticket_ids@.skip(i as int)),
                tickets_view(saved_tickets@) == pre.tickets,
                claims_view(saved_claims@) == pre.claims,
                self@ == (ContractState { tickets: self@.tickets, claims: self@.claims, ..pre }),
            decreases ticket_ids.len() - i,
        {
            let id = ticket_ids[i];
            assert(ticket_ids@.skip(i as int).drop_first() =~= ticket_ids@.skip(i + 1));
            assert(ticket_ids@.skip(i as int)[0] == id);
            let organizer_copy = organizer.clone();
            match self.revoke_ticket(organizer_copy, id) {
                Ok(()) => {},
                Err(e) => {
                    self.tickets = saved_tickets;
                    self.gift_claims = saved_claims;
                    assert(self@ =~= pre);
                    return Err(e);
                },
            }
            i = i + 1;
        }
        assert(ticket_ids@.skip(i as int) =~= Seq::<u64>::empty());
        Ok(())
    }

    /// Reassigns a ticket's seat; only the event's organizer may, and the
    /// ticket keeps its status.
    pub fn set_seat(&mut self, organizer: Address, ticket_id: u64, seat: String) -> (r: Result<(), Error>)
        ensures
            outcome(old(self)@.set_seat(organizer@, ticket_id, seat@), old(self)@, final(self)@, r),
    {
        if !self.has_authorized(&organizer) {
            return Err(Error::NotAuthorized);
        }
        let mut ticket = match self.tickets.get(&ticket_id) {
            Some(t) => t.clone(),
            None => return Err(Error::TicketNotFound),
        };
        let event = match self.events.get(&ticket.event_id) {
            Some(e) => e.clone(),
            None => return Err(Error::EventNotFound),
        };
        if !event.organizer.same_as(&organizer) {
            return Err(Error::NotOrganizer);
        }
        if ticket.status == TicketStatus::Revoked {
            return Err(Error::Revoked);
        }
        ticket.seat = seat;
        self.tickets.insert(ticket_id, ticket);
        Ok(())
    }

    /// Revokes a ticket not yet used, optionally refunding its original price
    /// from the organizer to the current owner in the event's token.
    pub fn revoke_with_refund(&mut self, organizer: Address, ticket_id: u64, refund: bool) -> (r: Result<(), Error>)
        ensures
            outcome(old(self)@.revoke_with_refund(organizer@, ticket_id, refund), old(self)@, final(self)@, r),
    {
        if !self.has_authorized(&organizer) {
            return Err(Error::NotAuthorized);
        }
        let mut ticket = match self.tickets.get(&ticket_id) {
            Some(t) => t.clone(),
            None => return Err(Error::TicketNotFound),
        };
        let event = match self.events.get(&ticket.event_id) {
            Some(e) => e.clone(),
            None => return Err(Error::EventNotFound),
        };
        if !event.organizer.same_as(&organizer) {
            return Err(Error::NotOrganizer);
        }
        if ticket.status == TicketStatus::Used {
            return Err(Error::AlreadyUsed);
        }
        if refund && ticket.original_price > 0 {
            let token = match self.payment_token_for_event(&event) {
                Some(t) => t,
                None => return Err(Error::NotInitialized),
            };
            let owner = ticket.owner.clone();
            self.payments.push(Payment { token, from: organizer, to: owner, amount: ticket.original_price });
        }
        ticket.status = TicketStatus::Revoked;
        ticket.resale_price = 0;
        self.tickets.insert(ticket_id, ticket);
        self.gift_claims.remove(&ticket_id);
        Ok(())
    }

    /// Lists an owned, usable ticket for resale at a price within the event's
    /// cap of `max_resale_multiplier_bps` of the original price (and above its
    /// floor, when one is set). A pending gift claim is cancelled.
    pub fn list_for_resale(&mut self, owner: Address, ticket_id: u64, price: i128) -> (r: Result<(), Error>)
        requires
            !(old(self)@.list_for_resale(owner@, ticket_id, price) is Trap),
        ensures
            outcome(old(self)@.list_for_resale(owner@, ticket_id, price), old(self)@, final(self)@, r),
    {
        if !self.has_authorized(&owner) {
            return Err(Error::NotAuthorized);
        }
        if price <= 0 {
            return Err(Error::InvalidPrice);
        }
        let mut ticket = match self.tickets.get(&ticket_id) {
            Some(t) => t.clone(),
            None => return Err(Error::TicketNotFound),
        };
        if !ticket.owner.same_as(&owner) {
            return Err(Error::NotOwner);
        }
        if let Some(e) = status_check(ticket.status) {
            return Err(e);
        }
        let event = match self.events.get(&ticket.event_id) {
            Some(e) => e.clone(),
            None => return Err(Error::EventNotFound),
        };
        if is_resale_closed(&event, self.ledger.timestamp) {
            return Err(Error::ResaleClosed);
        }
        let cap = match bps_of(ticket.original_price, event.max_resale_multiplier_bps) {
            Some(c) => c,
            None => return Err(Error::ResalePriceExceedsCap),  // overflow: excluded by `requires`
        };
        if price > cap {
            return Err(Error::ResalePriceExceedsCap);
        }
        if let Some(floor_per_mille) = event.min_resale_multiplier_bps {
            let floor = match floor_of(ticket.original_price, floor_per_mille) {
                Some(f) => f,
                None => return Err(Error::ResalePriceBelowFloor),  // overflow: excluded by `requires`
            };
            if price < floor {
                return Err(Error::ResalePriceBelowFloor);
            }
        }
        ticket.status = TicketStatus::Resale;
        ticket.resale_price = price;
        self.tickets.insert(ticket_id, ticket);
        self.gift_claims.remove(&ticket_id);
        Ok(())
    }

    /// Withdraws the owner's resale listing.
    pub fn cancel_resale(&mut self, owner: Address, ticket_id: u64) -> (r: Result<(), Error>)
        ensures
            outcome(old(self)@.cancel_resale(owner@, ticket_id), old(self)@, final(self)@, r),
    {
        if !self.has_authorized(&owner) {
            return Err(Error::NotAuthorized);
        }
        let mut ticket = match self.tickets.get(&ticket_id) {
            Some(t) => t.clone(),
            None => return Err(Error::TicketNotFound),
        };
        if !ticket.owner.same_as(&owner) {
            return Err(Error::NotOwner);
        }
        if ticket.status != TicketStatus::Resale {
            return Err(Error::NotForResale);
        }
        ticket.status = TicketStatus::Valid;
        ticket.resale_price = 0;
        self.tickets.insert(ticket_id, ticket);
        Ok(())
    }

    /// Buys a listed ticket: the organizer's royalty is paid first, the rest
    /// to the seller, then the ticket passes to the buyer.
    pub fn buy_resale(&mut self, buyer: Address, ticket_id: u64) -> (r: Result<(), Error>)
        requires
            !(old(self)@.buy_resale(buyer@, ticket_id) is Trap),
        ensures
            outcome(old(self)@.buy_resale(buyer@, ticket_id), old(self)@, final(self)@, r),
    {
        if !self.has_authorized(&buyer) {
            return Err(Error::NotAuthorized);
        }
        let ticket = match self.tickets.get(&ticket_id) {
            Some(t) => t.clone(),
            None => return Err(Error::TicketNotFound),
        };
        if ticket.status != TicketStatus::Resale {
            return Err(Error::NotForResale);
        }
        let event = match self.events.get(&ticket.event_id) {
            Some(e) => e.clone(),
            None => return Err(Error::EventNotFound),
        };
        if is_resale_closed(&event, self.ledger.timestamp) {
            return Err(Error::ResaleClosed);
        }
        if is_transfer_limit_reached(&ticket, &event) {
            return Err(Error::TransferLimitExceeded);
        }
        let token = match self.payment_token_for_event(&event) {
            Some(t) => t,
            None => return Err(Error::NotInitialized),
        };
        let royalty = match bps_of(ticket.resale_price, event.royalty_bps) {
            Some(v) => v,
            None => return Err(Error::NotForResale),  // overflow: excluded by `requires`
        };
        let seller_amount = match ticket.resale_price.checked_sub(royalty) {
            Some(v) => v,
            None => return Err(Error::NotForResale),  // overflow: excluded by `requires`
        };
        if royalty > 0 {
            self.payments.push(
                Payment { token: token.clone(), from: buyer.clone(), to: event.organizer.clone(), amount: royalty },
            );
        }
        if seller_amount > 0 {
            self.payments.push(
                Payment { token, from: buyer.clone(), to: ticket.owner.clone(), amount: seller_amount },
            );
        }
        self.tickets.insert(ticket_id, hand_over(ticket, buyer));
        self.gift_claims.remove(&ticket_id);
        Ok(())
    }

    /// The checks `allocate_lottery` makes before minting: winner count,
    /// price, distinct entrants, event and organizer.
    fn lottery_precheck(&self, organizer: &Address, event_id: u64, entrants: &Vec<Address>, winner_count: u32, price: i128) -> (r: Option<Error>)
        requires
            self@.authorizes(organizer@),
        ensures
            forall|order: Seq<u32>, tier: Seq<char>|
                #![trigger self@.allocate_lottery(organizer@, event_id, addresses_view(entrants@), winner_count, tier, price, order)]
                match r {
                    Some(e) => self@.allocate_lottery(organizer@, event_id, addresses_view(entrants@), winner_count, tier, price, order)
                        == Transition::<Seq<u64>>::Fail(e),
                    None => {
                        &&& price >= 0
                        &&& 0 < winner_count <= entrants@.len()
                        &&& !has_duplicate(addresses_view(entrants@))
                        &&& self@.events.contains_key(event_id)
                        &&& self@.events[event_id].organizer == organizer@
                    },
                },
    {
        if price < 0 || winner_count == 0 || winner_count as usize > entrants.len() {
            return Some(Error::InvalidLottery);
        }
        if has_duplicate_address(entrants) {
            return Some(Error::InvalidLottery);
        }
        match self.events.get(&event_id) {
            Some(e) => if !e.organizer.same_as(organizer) {
                Some(Error::NotOrganizer)
            } else {
                None
            },
            None => Some(Error::EventNotFound),
        }
    }

    /// Allocates complimentary or reserved tickets to `winner_count` distinct
    /// entrants drawn at random: `order` is the host PRNG's shuffle of the
    /// entrants' positions, drawn by the running contract, and the entrants at
    /// its first `winner_count` positions each receive a ticket.
    pub fn allocate_lottery(
        &mut self,
        organizer: Address,
        event_id: u64,
        entrants: Vec<Address>,
        winner_count: u32,
        tier: String,
        price: i128,
        order: &Vec<u32>,
    ) -> (r: Result<Vec<u64>, Error>)
        requires
            is_permutation_of_range(order@, entrants@.len()),
            !(old(self)@.allocate_lottery(
                organizer@,
                event_id,
                addresses_view(entrants@),
                winner_count,
                tier@,
                price,
                order@,
            ) is Trap),
        ensures
            outcome_ids(
                old(self)@.allocate_lottery(organizer@, event_id, addresses_view(entrants@), winner_count, tier@, price, order@),
                old(self)@,
                final(self)@,
                r,
            ),
    {
        if !self.has_authorized(&organizer) {
            return Err(Error::NotAuthorized);
        }
        if let Some(e) = self.lottery_precheck(&organizer, event_id, &entrants, winner_count, price) {
            return Err(e);
        }
        let mut event = match self.events.get(&event_id) {
            Some(e) => e.clone(),
            None => return Err(Error::EventNotFound),
        };
        let ghost pre = self@;
        let ghost av = addresses_view(entrants@);
        let ghost winners = Seq::new(winner_count as nat, |i: int| av[order@[i] as int]);
        let mut ids: Vec<u64> = Vec::new();
        let mut i: u32 = 0;
        assert(winners.skip(0) =~= winners);
        assert(ids@ + Seq::<u64>::empty() =~= ids@);
        while i < winner_count
            invariant
                i <= winner_count,
                winner_count <= entrants@.len(),
                is_permutation_of_range(order@, entrants@.len()),
                av == addresses_view(entrants@),
                winners == Seq::new(winner_count as nat, |k: int| av[order@[k] as int]),
                !(pre.mint_all(event_id, winners, tier@, price) is Trap),
                match self@.mint_all(event_id, winners.skip(i as int), tier@, price) {
                    Transition::Done(s, rest) => pre.mint_all(event_id, winners, tier@, price) == Transition::Done(s, ids@ + rest),
                    Transition::Fail(e) => pre.mint_all(event_id, winners, tier@, price) == Transition::<Seq<u64>>::Fail(e),
                    Transition::Trap => pre.mint_all(event_id, winners, tier@, price) is Trap,
                },
            decreases winner_count - i,
        {
            let position = order[i as usize];
            let winner = entrants[position as usize].clone();
            assert(winners.skip(i as int)[0] == winner@);
            assert(winners.skip(i as int).drop_first() =~= winners.skip(i + 1));
            let ghost mid = self@;
            let seat = "unassigned".to_owned();
            let ticket_id = self.mint(event_id, winner, tier.clone(), seat, price);
            proof {
                match self@.mint_all(event_id, winners.skip(i + 1), tier@, price) {
                    Transition::Done(s, rest) => {
                        assert(ids@.push(ticket_id) + rest =~= ids@ + (seq![ticket_id] + rest));
                    },
                    _ => {},
                }
            }
            ids.push(ticket_id);
            i = i + 1;
        }
        assert(winners.skip(i as int) =~= Seq::<u32>::empty().map_values(|k: u32| av[k as int]));
        assert(ids@ + Seq::<u64>::empty() =~= ids@);
        event.tickets_issued = event.tickets_issued + winner_count as u64;
        self.events.insert(event_id, event);
        Ok(ids)
    }

    /// Whether `transfer_ticket` would overflow the ticket's transfer counter,
    /// where the host aborts the invocation; the calls with this answer are
    /// the ones `transfer_ticket` leaves out.
    pub fn transfer_ticket_overflows(&self, from: &Address, ticket_id: u64, to: &Address) -> (r: bool)
        ensures
            r == (self@.transfer_ticket(from@, ticket_id, to@) is Trap),
    {
        if !self.has_authorized(from) {
            return false;
        }
        let ticket = match self.tickets.get(&ticket_id) {
            Some(t) => t,
            None => return false,
        };
        if !ticket.owner.same_as(from) || status_check(ticket.status).is_some() {
            return false;
        }
        let event = match self.events.get(&ticket.event_id) {
            Some(e) => e,
            None => return false,
        };
        !is_transfer_limit_reached(ticket, event) && !is_transfer_frozen(event, self.ledger.timestamp)
            && ticket.transfers == u32::MAX
    }

    /// Whether `transfer_batch` would overflow the transfer counter of one of
    /// its tickets, reached after the tickets before it were handed over; the
    /// calls with this answer are the ones `transfer_batch` leaves out.
    pub fn transfer_batch_overflows(&self, from: &Address, ticket_ids: &Vec<u64>, to: &Address) -> (r: bool)
        ensures
            r == (self@.transfer_batch(from@, ticket_ids@, to@) is Trap),
    {
        if !self.has_authorized(from) {
            return false;
        }
        if ticket_ids.len() == 0 || ticket_ids.len() > MAX_BATCH_SIZE as usize {
            return false;
        }
        let mut sim = TicketingContract {
            contract_address: self.contract_address.clone(),
            ledger: self.ledger,
            authorizations: None,
            config: self.config.clone(),
            events: self.events.clone(),
            tickets: self.tickets.clone(),
            gift_claims: self.gift_claims.clone(),
            purchases: Vec::new(),
            payments: Vec::new(),
            published: Vec::new(),
        };
        let ghost traps = self@.transfer_each(from@, ticket_ids@, to@) is Trap;
        proof {
            lemma_transfer_each_traps_alike(self@, sim@, from@, ticket_ids@, to@);
            assert(ticket_ids@.skip(0) =~= ticket_ids@);
        }
        let mut i: usize = 0;
        while i < ticket_ids.len()
            invariant
                i <= ticket_ids.len(),
                0 < ticket_ids.len() <= MAX_BATCH_SIZE,
                sim@.authorizations is None,
                self@.authorizes(from@),
                traps == (self@.transfer_each(from@, ticket_ids@, to@) is Trap),
                traps == (sim@.transfer_each(from@, ticket_ids@.skip(i as int), to@) is Trap),
            decreases ticket_ids.len() - i,
        {
            let id = ticket_ids[i];
            assert(ticket_ids@.skip(i as int).drop_first() =~= ticket_ids@.skip(i + 1));
            assert(ticket_ids@.skip(i as int)[0] == id);
            let overflows = sim.transfer_ticket_overflows(from, id, to);
            assert(overflows == (sim@.transfer_one_of_batch(from@, id, to@) is Trap));
            if overflows {
                return true;
            }
            match sim.transfer_one_of_batch(from, id, to) {
                Ok(()) => {},
                Err(_) => return false,
            }
            i = i + 1;
        }
        assert(ticket_ids@.skip(i as int) =~= Seq::<u64>::empty());
        false
    }

    /// Whether claiming with a secret of SHA-256 digest `digest` would
    /// overflow the ticket's transfer counter; the calls with this answer are
    /// the ones `claim_gift_with_digest` leaves out.
    pub fn claim_gift_overflows(&self, recipient: &Address, ticket_id: u64, digest: &[u8; 32]) -> (r: bool)
        ensures
            r == (self@.claim_gift(recipient@, ticket_id, digest@) is Trap),
    {
        if !self.has_authorized(recipient) {
            return false;
        }
        let claim = match self.gift_claims.get(&ticket_id) {
            Some(c) => c,
            None => return false,
        };
        if self.ledger.timestamp >= claim.expires_at || !same_digest(digest, &claim.secret_hash) {
            return false;
        }
        let ticket = match self.tickets.get(&ticket_id) {
            Some(t) => t,
            None => return false,
        };
        if !ticket.owner.same_as(&claim.from) || status_check(ticket.status).is_some() {
            return false;
        }
        let event = match self.events.get(&ticket.event_id) {
            Some(e) => e,
            None => return false,
        };
        !is_transfer_frozen(event, self.ledger.timestamp) && !is_transfer_limit_reached(ticket, event)
            && ticket.transfers == u32::MAX
    }

    /// Whether `list_for_resale` would overflow computing the resale cap or
    /// floor; the calls with this answer are the ones it leaves out.
    pub fn list_for_resale_overflows(&self, owner: &Address, ticket_id: u64, price: i128) -> (r: bool)
        ensures
            r == (self@.list_for_resale(owner@, ticket_id, price) is Trap),
    {
        if !self.has_authorized(owner) {
            return false;
        }
        if price <= 0 {
            return false;
        }
        let ticket = match self.tickets.get(&ticket_id) {
            Some(t) => t,
            None => return false,
        };
        if !ticket.owner.same_as(owner) || status_check(ticket.status).is_some() {
            return false;
        }
        let event = match self.events.get(&ticket.event_id) {
            Some(e) => e,
            None => return false,
        };
        if is_resale_closed(event, self.ledger.timestamp) {
            return false;
        }
        let cap = match bps_of(ticket.original_price, event.max_resale_multiplier_bps) {
            Some(c) => c,
            None => return true,
        };
        if price > cap {
            return false;
        }
        match event.min_resale_multiplier_bps {
            Some(floor_per_mille) => floor_of(ticket.original_price, floor_per_mille).is_none(),
            None => false,
        }
    }

    /// Whether `buy_resale` would overflow splitting the price or the
    /// ticket's transfer counter; the calls with this answer are the ones it
    /// leaves out.
    pub fn buy_resale_overflows(&self, buyer: &Address, ticket_id: u64) -> (r: bool)
        ensures
            r == (self@.buy_resale(buyer@, ticket_id) is Trap),
    {
        if !self.has_authorized(buyer) {
            return false;
        }
        let ticket = match self.tickets.get(&ticket_id) {
            Some(t) => t,
            None => return false,
        };
        if ticket.status != TicketStatus::Resale {
            return false;
        }
        let event = match self.events.get(&ticket.event_id) {
            Some(e) => e,
            None => return false,
        };
        if is_resale_closed(event, self.ledger.timestamp) || is_transfer_limit_reached(ticket, event) {
            return false;
        }
        if self.payment_token_for_event(event).is_none() {
            return false;
        }
        let royalty = match bps_of(ticket.resale_price, event.royalty_bps) {
            Some(v) => v,
            None => return true,
        };
        match ticket.resale_price.checked_sub(royalty) {
            Some(_) => ticket.transfers == u32::MAX,
            None => true,
        }
    }

    /// Whether `issue_ticket` would overflow the next ticket id or the
    /// event's issued count; the calls with this answer are the ones it
    /// leaves out.
    pub fn issue_ticket_overflows(
        &self,
        organizer: &Address,
        event_id: u64,
        to: &Address,
        tier: &String,
        seat: &String,
        price: i128,
    ) -> (r: bool)
        ensures
            r == (self@.issue_ticket(organizer@, event_id, to@, tier@, seat@, price) is Trap),
    {
        if !self.has_authorized(organizer) {
            return false;
        }
        if price < 0 {
            return false;
        }
        let event = match self.events.get(&event_id) {
            Some(e) => e,
            None => return false,
        };
        if !event.organizer.same_as(organizer) {
            return false;
        }
        self.config.next_ticket_id == u64::MAX || event.tickets_issued == u64::MAX
    }

    /// Whether `purchase_primary` would overflow the event's escrow balance,
    /// the next ticket id or the event's issued count; the calls with this
    /// answer are the ones it leaves out.
    pub fn purchase_primary_overflows(
        &self,
        buyer: &Address,
        event_id: u64,
        tier: &String,
        seat: &String,
        price: i128,
    ) -> (r: bool)
        ensures
            r == (self@.purchase_primary(buyer@, event_id, tier@, seat@, price) is Trap),
    {
        if !self.has_authorized(buyer) {
            return false;
        }
        if price < 0 {
            return false;
        }
        let last = last_purchase_of(&self.purchases, buyer);
        let spacing = self.config.min_purchase_spacing;
        if spacing != 0 {
            if let Some(last_ledger) = last {
                if self.ledger.sequence.saturating_sub(last_ledger) < spacing {
                    return false;
                }
            }
        }
        let event = match self.events.get(&event_id) {
            Some(e) => e,
            None => return false,
        };
        if self.payment_token_for_event(event).is_none() {
            return false;
        }
        if price > 0 && event.escrow_enabled && event.escrow_balance.checked_add(price).is_none() {
            return true;
        }
        self.config.next_ticket_id == u64::MAX || event.tickets_issued == u64::MAX
    }

    /// Whether `allocate_lottery` would overflow the next ticket id or the
    /// event's issued count, whatever the draw order; the calls with this
    /// answer are the ones it leaves out.
    pub fn allocate_lottery_overflows(
        &self,
        organizer: &Address,
        event_id: u64,
        entrants: &Vec<Address>,
        winner_count: u32,
        tier: &String,
        price: i128,
    ) -> (r: bool)
        ensures
            forall|order: Seq<u32>|
                r == #[trigger] self@.allocate_lottery(
                    organizer@,
                    event_id,
                    addresses_view(entrants@),
                    winner_count,
                    tier@,
                    price,
                    order,
                ) is Trap,
    {
        if !self.has_authorized(organizer) {
            return false;
        }
        if self.lottery_precheck(organizer, event_id, entrants, winner_count, price).is_some() {
            return false;
        }
        let event = match self.events.get(&event_id) {
            Some(e) => e,
            None => return false,
        };
        let r = u64::MAX - self.config.next_ticket_id < winner_count as u64 || u64::MAX - event.tickets_issued
            < winner_count as u64;
        proof {
            assert forall|order: Seq<u32>|
                r == #[trigger] self@.allocate_lottery(
                    organizer@,
                    event_id,
                    addresses_view(entrants@),
                    winner_count,
                    tier@,
                    price,
                    order,
                ) is Trap by {
                let av = addresses_view(entrants@);
                let winners = Seq::new(winner_count as nat, |i: int| av[order[i] as int]);
                lemma_mint_all_overflow(self@, event_id, winners, tier@, price);
            }
        }
        r
    }

    /// Decimals of the active payment token, cached at initialization and
    /// refreshed whenever the payment token changes.
    pub fn token_decimals(&self) -> (r: Result<u32, Error>)
        ensures
            r == self@.token_decimals(),
    {
        match self.config.token_decimals {
            Some(d) => Ok(d),
            None => Err(Error::NotInitialized),
        }
    }
}

} // verus!
