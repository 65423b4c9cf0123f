//! Properties of the contract as a whole: what every entry point keeps, what
//! sequences of calls can and cannot do, and how money moves.

use vstd::prelude::*;

use crate::error::{error_code, Error};
use crate::model::{
    bps_portion, handed_over, status_error, AddressView, ContractState, EventView, PaymentView, TicketView,
    Transition,
};
use crate::types::{LedgerInfo, TicketStatus};

verus! {

/// A state-changing call of the contract, with its arguments (and, where the
/// contract consults a token or the PRNG, what they answered).
pub enum Call {
    Initialize { admin: AddressView, payment_token: AddressView, decimals: Option<u32> },
    ProposePaymentToken { admin: AddressView, new_token: AddressView, decimals: Option<u32> },
    ApplyPaymentToken { admin: AddressView, decimals: Option<u32> },
    CreateEvent {
        organizer: AddressView,
        event_id: u64,
        name: Seq<char>,
        category: Seq<char>,
        max_resale_multiplier_bps: u32,
        royalty_bps: u32,
        starts_at: u64,
        transfer_freeze_seconds: u64,
        resale_cutoff_seconds: u64,
        min_resale_multiplier_bps: Option<u32>,
        max_transfers_per_ticket: Option<u32>,
    },
    AllocateLottery {
        organizer: AddressView,
        event_id: u64,
        entrants: Seq<AddressView>,
        winner_count: u32,
        tier: Seq<char>,
        price: i128,
        order: Seq<u32>,
    },
    EnableEscrow { organizer: AddressView, event_id: u64, release_ledger: u32 },
    SetEventPaymentToken { organizer: AddressView, event_id: u64, token: Option<AddressView>, decimals: Option<u32> },
    IssueTicket { organizer: AddressView, event_id: u64, to: AddressView, tier: Seq<char>, seat: Seq<char>, price: i128 },
    PurchasePrimary { buyer: AddressView, event_id: u64, tier: Seq<char>, seat: Seq<char>, price: i128 },
    ReleaseEscrow { organizer: AddressView, event_id: u64 },
    SetPurchaseThrottle { admin: AddressView, min_ledger_spacing: u32 },
    TransferTicket { from: AddressView, ticket_id: u64, to: AddressView },
    TransferBatch { from: AddressView, ticket_ids: Seq<u64>, to: AddressView },
    CreateGiftClaim { owner: AddressView, ticket_id: u64, secret_hash: Seq<u8>, expires_at: u64 },
    ClaimGift { recipient: AddressView, ticket_id: u64, digest: Seq<u8> },
    CheckIn { organizer: AddressView, ticket_id: u64 },
    CheckInBatch { organizer: AddressView, ticket_ids: Seq<u64> },
    RevokeTicket { organizer: AddressView, ticket_id: u64 },
    SetSeat { organizer: AddressView, ticket_id: u64, seat: Seq<char> },
    RevokeWithRefund { organizer: AddressView, ticket_id: u64, refund: bool },
    RevokeBatch { organizer: AddressView, ticket_ids: Seq<u64> },
    ListForResale { owner: AddressView, ticket_id: u64, price: i128 },
    CancelResale { owner: AddressView, ticket_id: u64 },
    BuyResale { buyer: AddressView, ticket_id: u64 },
}

/// The state a transition leaves when it succeeds.
pub open spec fn done_state<T>(t: Transition<T>) -> Option<ContractState> {
    match t {
        Transition::Done(s, _) => Some(s),
        _ => None,
    }
}

/// The state a call leaves when it succeeds (`None` when it fails or aborts).
pub open spec fn after(s: ContractState, c: Call) -> Option<ContractState> {
    match c {
        Call::Initialize { admin, payment_token, decimals } => done_state(s.initialize(admin, payment_token, decimals)),
        Call::ProposePaymentToken { admin, new_token, decimals } => done_state(
            s.propose_payment_token(admin, new_token, decimals),
        ),
        Call::ApplyPaymentToken { admin, decimals } => done_state(s.apply_payment_token(admin, decimals)),
        Call::CreateEvent {
            organizer,
            event_id,
            name,
            category,
            max_resale_multiplier_bps,
            royalty_bps,
            starts_at,
            transfer_freeze_seconds,
            resale_cutoff_seconds,
            min_resale_multiplier_bps,
            max_transfers_per_ticket,
        } => done_state(
            s.create_event_with_options(
                organizer,
                event_id,
                name,
                category,
                max_resale_multiplier_bps,
                royalty_bps,
                starts_at,
                transfer_freeze_seconds,
                resale_cutoff_seconds,
                min_resale_multiplier_bps,
                max_transfers_per_ticket,
            ),
        ),
        Call::AllocateLottery { organizer, event_id, entrants, winner_count, tier, price, order } => done_state(
            s.allocate_lottery(organizer, event_id, entrants, winner_count, tier, price, order),
        ),
        Call::EnableEscrow { organizer, event_id, release_ledger } => done_state(
            s.enable_escrow(organizer, event_id, release_ledger),
        ),
        Call::SetEventPaymentToken { organizer, event_id, token, decimals } => done_state(
            s.set_event_payment_token(organizer, event_id, token, decimals),
        ),
        Call::IssueTicket { organizer, event_id, to, tier, seat, price } => done_state(
            s.issue_ticket(organizer, event_id, to, tier, seat, price),
        ),
        Call::PurchasePrimary { buyer, event_id, tier, seat, price } => done_state(
            s.purchase_primary(buyer, event_id, tier, seat, price),
        ),
        Call::ReleaseEscrow { organizer, event_id } => done_state(s.release_escrow(organizer, event_id)),
        Call::SetPurchaseThrottle { admin, min_ledger_spacing } => done_state(
            s.set_purchase_throttle(admin, min_ledger_spacing),
        ),
        Call::TransferTicket { from, ticket_id, to } => done_state(s.transfer_ticket(from, ticket_id, to)),
        Call::TransferBatch { from, ticket_ids, to } => done_state(s.transfer_batch(from, ticket_ids, to)),
        Call::CreateGiftClaim { owner, ticket_id, secret_hash, expires_at } => done_state(
            s.create_gift_claim(owner, ticket_id, secret_hash, expires_at),
        ),
        Call::ClaimGift { recipient, ticket_id, digest } => done_state(s.claim_gift(recipient, ticket_id, digest)),
        Call::CheckIn { organizer, ticket_id } => done_state(s.check_in(organizer, ticket_id)),
        Call::CheckInBatch { organizer, ticket_ids } => done_state(s.check_in_batch(organizer, ticket_ids)),
        Call::RevokeTicket { organizer, ticket_id } => done_state(s.revoke_ticket(organizer, ticket_id)),
        Call::SetSeat { organizer, ticket_id, seat } => done_state(s.set_seat(organizer, ticket_id, seat)),
        Call::RevokeWithRefund { organizer, ticket_id, refund } => done_state(
            s.revoke_with_refund(organizer, ticket_id, refund),
        ),
        Call::RevokeBatch { organizer, ticket_ids } => done_state(s.revoke_batch(organizer, ticket_ids)),
        Call::ListForResale { owner, ticket_id, price } => done_state(s.list_for_resale(owner, ticket_id, price)),
        Call::CancelResale { owner, ticket_id } => done_state(s.cancel_resale(owner, ticket_id)),
        Call::BuyResale { buyer, ticket_id } => done_state(s.buy_resale(buyer, ticket_id)),
    }
}

/// The error a transition answers with, if it fails.
pub open spec fn failure<T>(t: Transition<T>) -> Option<Error> {
    match t {
        Transition::Fail(e) => Some(e),
        _ => None,
    }
}

/// The error a call answers with (`None` when it succeeds or aborts).
pub open spec fn answer(s: ContractState, c: Call) -> Option<Error> {
    match c {
        Call::Initialize { admin, payment_token, decimals } => failure(s.initialize(admin, payment_token, decimals)),
        Call::ProposePaymentToken { admin, new_token, decimals } => failure(
            s.propose_payment_token(admin, new_token, decimals),
        ),
        Call::ApplyPaymentToken { admin, decimals } => failure(s.apply_payment_token(admin, decimals)),
        Call::CreateEvent {
            organizer,
            event_id,
            name,
            category,
            max_resale_multiplier_bps,
            royalty_bps,
            starts_at,
            transfer_freeze_seconds,
            resale_cutoff_seconds,
            min_resale_multiplier_bps,
            max_transfers_per_ticket,
        } => failure(
            s.create_event_with_options(
                organizer,
                event_id,
                name,
                category,
                max_resale_multiplier_bps,
                royalty_bps,
                starts_at,
                transfer_freeze_seconds,
                resale_cutoff_seconds,
                min_resale_multiplier_bps,
                max_transfers_per_ticket,
            ),
        ),
        Call::AllocateLottery { organizer, event_id, entrants, winner_count, tier, price, order } => failure(
            s.allocate_lottery(organizer, event_id, entrants, winner_count, tier, price, order),
        ),
        Call::EnableEscrow { organizer, event_id, release_ledger } => failure(
            s.enable_escrow(organizer, event_id, release_ledger),
        ),
        Call::SetEventPaymentToken { organizer, event_id, token, decimals } => failure(
            s.set_event_payment_token(organizer, event_id, token, decimals),
        ),
        Call::IssueTicket { organizer, event_id, to, tier, seat, price } => failure(
            s.issue_ticket(organizer, event_id, to, tier, seat, price),
        ),
        Call::PurchasePrimary { buyer, event_id, tier, seat, price } => failure(
            s.purchase_primary(buyer, event_id, tier, seat, price),
        ),
        Call::ReleaseEscrow { organizer, event_id } => failure(s.release_escrow(organizer, event_id)),
        Call::SetPurchaseThrottle { admin, min_ledger_spacing } => failure(
            s.set_purchase_throttle(admin, min_ledger_spacing),
        ),
        Call::TransferTicket { from, ticket_id, to } => failure(s.transfer_ticket(from, ticket_id, to)),
        Call::TransferBatch { from, ticket_ids, to } => failure(s.transfer_batch(from, ticket_ids, to)),
        Call::CreateGiftClaim { owner, ticket_id, secret_hash, expires_at } => failure(
            s.create_gift_claim(owner, ticket_id, secret_hash, expires_at),
        ),
        Call::ClaimGift { recipient, ticket_id, digest } => failure(s.claim_gift(recipient, ticket_id, digest)),
        Call::CheckIn { organizer, ticket_id } => failure(s.check_in(organizer, ticket_id)),
        Call::CheckInBatch { organizer, ticket_ids } => failure(s.check_in_batch(organizer, ticket_ids)),
        Call::RevokeTicket { organizer, ticket_id } => failure(s.revoke_ticket(organizer, ticket_id)),
        Call::SetSeat { organizer, ticket_id, seat } => failure(s.set_seat(organizer, ticket_id, seat)),
        Call::RevokeWithRefund { organizer, ticket_id, refund } => failure(
            s.revoke_with_refund(organizer, ticket_id, refund),
        ),
        Call::RevokeBatch { organizer, ticket_ids } => failure(s.revoke_batch(organizer, ticket_ids)),
        Call::ListForResale { owner, ticket_id, price } => failure(s.list_for_resale(owner, ticket_id, price)),
        Call::CancelResale { owner, ticket_id } => failure(s.cancel_resale(owner, ticket_id)),
        Call::BuyResale { buyer, ticket_id } => failure(s.buy_resale(buyer, ticket_id)),
    }
}

/// The address whose authorization a call demands.
pub open spec fn actor(c: Call) -> AddressView {
    match c {
        Call::Initialize { admin, .. } => admin,
        Call::ProposePaymentToken { admin, .. } => admin,
        Call::ApplyPaymentToken { admin, .. } => admin,
        Call::SetPurchaseThrottle { admin, .. } => admin,
        Call::CreateEvent { organizer, .. } => organizer,
        Call::AllocateLottery { organizer, .. } => organizer,
        Call::EnableEscrow { organizer, .. } => organizer,
        Call::SetEventPaymentToken { organizer, .. } => organizer,
        Call::IssueTicket { organizer, .. } => organizer,
        Call::PurchasePrimary { buyer, .. } => buyer,
        Call::ReleaseEscrow { organizer, .. } => organizer,
        Call::TransferTicket { from, .. } => from,
        Call::TransferBatch { from, .. } => from,
        Call::CreateGiftClaim { owner, .. } => owner,
        Call::ClaimGift { recipient, .. } => recipient,
        Call::CheckIn { organizer, .. } => organizer,
        Call::CheckInBatch { organizer, .. } => organizer,
        Call::RevokeTicket { organizer, .. } => organizer,
        Call::SetSeat { organizer, .. } => organizer,
        Call::RevokeWithRefund { organizer, .. } => organizer,
        Call::RevokeBatch { organizer, .. } => organizer,
        Call::ListForResale { owner, .. } => owner,
        Call::CancelResale { owner, .. } => owner,
        Call::BuyResale { buyer, .. } => buyer,
    }
}

/// The admin's calls, which check the stored admin before the admin's
/// authorization.
pub open spec fn is_admin_call(c: Call) -> bool {
    c is ProposePaymentToken || c is ApplyPaymentToken || c is SetPurchaseThrottle
}

/// `p` holds of the state a transition leaves, if it succeeds.
pub open spec fn keeps<T>(p: spec_fn(ContractState) -> bool, t: Transition<T>) -> bool {
    match t {
        Transition::Done(s, _) => p(s),
        _ => true,
    }
}

/// A predicate that every ticket transfer of a batch keeps keeps for the
/// whole batch.
proof fn lemma_transfer_each_keeps(
    p: spec_fn(ContractState) -> bool,
    s: ContractState,
    from: AddressView,
    ids: Seq<u64>,
    to: AddressView,
)
    requires
        p(s),
        forall|x: ContractState, id: u64| p(x) ==> keeps(p, #[trigger] x.transfer_one_of_batch(from, id, to)),
    ensures
        keeps(p, s.transfer_each(from, ids, to)),
    decreases ids.len(),
{
    if ids.len() > 0 {
        assert(keeps(p, s.transfer_one_of_batch(from, ids[0], to)));
        match s.transfer_one_of_batch(from, ids[0], to) {
            Transition::Done(s1, _) => lemma_transfer_each_keeps(p, s1, from, ids.drop_first(), to),
            _ => {},
        }
    }
}

/// A predicate that every admission of a batch keeps keeps for the whole batch.
proof fn lemma_check_in_each_keeps(p: spec_fn(ContractState) -> bool, s: ContractState, organizer: AddressView, ids: Seq<u64>)
    requires
        p(s),
        forall|x: ContractState, id: u64| p(x) ==> keeps(p, #[trigger] x.check_in(organizer, id)),
    ensures
        keeps(p, s.check_in_each(organizer, ids)),
    decreases ids.len(),
{
    if ids.len() > 0 {
        assert(keeps(p, s.check_in(organizer, ids[0])));
        match s.check_in(organizer, ids[0]) {
            Transition::Done(s1, _) => lemma_check_in_each_keeps(p, s1, organizer, ids.drop_first()),
            _ => {},
        }
    }
}

/// A predicate that every revocation of a batch keeps keeps for the whole batch.
proof fn lemma_revoke_each_keeps(p: spec_fn(ContractState) -> bool, s: ContractState, organizer: AddressView, ids: Seq<u64>)
    requires
        p(s),
        forall|x: ContractState, id: u64| p(x) ==> keeps(p, #[trigger] x.revoke_ticket(organizer, id)),
    ensures
        keeps(p, s.revoke_each(organizer, ids)),
    decreases ids.len(),
{
    if ids.len() > 0 {
        assert(keeps(p, s.revoke_ticket(organizer, ids[0])));
        match s.revoke_ticket(organizer, ids[0]) {
            Transition::Done(s1, _) => lemma_revoke_each_keeps(p, s1, organizer, ids.drop_first()),
            _ => {},
        }
    }
}

/// A predicate that every mint keeps keeps for a run of mints.
proof fn lemma_mint_all_keeps(
    p: spec_fn(ContractState) -> bool,
    s: ContractState,
    event_id: u64,
    winners: Seq<AddressView>,
    tier: Seq<char>,
    price: i128,
)
    requires
        p(s),
        forall|x: ContractState, w: AddressView| p(x) ==> keeps(p, #[trigger] x.mint(event_id, w, tier, "unassigned"@, price)),
    ensures
        keeps(p, s.mint_all(event_id, winners, tier, price)),
    decreases winners.len(),
{
    if winners.len() > 0 {
        assert(keeps(p, s.mint(event_id, winners[0], tier, "unassigned"@, price)));
        match s.mint(event_id, winners[0], tier, "unassigned"@, price) {
            Transition::Done(s1, _) => lemma_mint_all_keeps(p, s1, event_id, winners.drop_first(), tier, price),
            _ => {},
        }
    }
}

/// Two records of the same event carry the same terms: organizer, names,
/// resale policy, royalty and schedule.
pub open spec fn same_terms(a: EventView, b: EventView) -> bool {
    &&& a.organizer == b.organizer
    &&& a.name == b.name
    &&& a.category == b.category
    &&& a.max_resale_multiplier_bps == b.max_resale_multiplier_bps
    &&& a.min_resale_multiplier_bps == b.min_resale_multiplier_bps
    &&& a.max_transfers_per_ticket == b.max_transfers_per_ticket
    &&& a.royalty_bps == b.royalty_bps
    &&& a.starts_at == b.starts_at
    &&& a.transfer_freeze_seconds == b.transfer_freeze_seconds
    &&& a.resale_cutoff_seconds == b.resale_cutoff_seconds
}

/// The ticket has not been transferred more often than its event allows.
pub open spec fn within_transfer_limit(t: TicketView, e: EventView) -> bool {
    e.max_transfers_per_ticket matches Some(max) ==> t.transfers <= max
}

/// The ticket's asking price is positive and lies within the event's resale
/// cap (and floor, when one is set).
pub open spec fn listed_within_bounds(t: TicketView, e: EventView) -> bool {
    &&& 0 < t.resale_price
    &&& t.resale_price <= bps_portion(t.original_price as int, e.max_resale_multiplier_bps as int)
    &&& e.min_resale_multiplier_bps matches Some(floor) ==> t.resale_price >= crate::model::floor_portion(
        t.original_price as int,
        floor as int,
    )
}

/// How a stored ticket may change: it keeps its event and original price; a
/// revoked ticket stays revoked and a used one stays used or is revoked; its
/// transfer count only grows, and only within the event's limit; a listing
/// is either the one it had or one within the event's bounds; and a ticket
/// that is not listed asks 0, or what it asked while it was not listed.
pub open spec fn ticket_step(old: TicketView, new: TicketView, events: Map<u64, EventView>) -> bool {
    &&& new.event_id == old.event_id
    &&& new.original_price == old.original_price
    &&& old.status == TicketStatus::Revoked ==> new.status == TicketStatus::Revoked
    &&& old.status == TicketStatus::Used ==> new.status == TicketStatus::Used || new.status == TicketStatus::Revoked
    &&& new.transfers >= old.transfers
    &&& new.transfers != old.transfers ==> events.contains_key(old.event_id) && within_transfer_limit(
        new,
        events[old.event_id],
    )
    &&& new.status == TicketStatus::Resale ==> (old.status == TicketStatus::Resale && new.resale_price
        == old.resale_price) || (events.contains_key(old.event_id) && listed_within_bounds(
        new,
        events[old.event_id],
    ))
    &&& new.status != TicketStatus::Resale ==> new.resale_price == 0 || (old.status != TicketStatus::Resale
        && new.resale_price == old.resale_price)
}

/// A freshly minted ticket of `s2` that `s` did not have.
pub open spec fn freshly_minted(s: ContractState, s2: ContractState, id: u64, t: TicketView) -> bool {
    &&& s.config.next_ticket_id <= id < s2.config.next_ticket_id
    &&& t.status == TicketStatus::Valid
    &&& t.transfers == 0
    &&& t.resale_price == 0
    &&& s.events.contains_key(t.event_id)
}

/// What any successful call may do to the contract's records: events and
/// tickets are never deleted, an event's terms never change, a new event's
/// royalty is at most 100%, every stored
/// ticket changes only by `ticket_step`, and every new ticket is freshly
/// minted.
pub open spec fn footprint(s: ContractState, s2: ContractState) -> bool {
    &&& forall|eid: u64| #[trigger] s.events.contains_key(eid) ==> s2.events.contains_key(eid) && same_terms(
        s.events[eid],
        s2.events[eid],
    )
    &&& forall|eid: u64| #[trigger] s2.events.contains_key(eid) && !s.events.contains_key(eid) ==> s2.events[eid].royalty_bps
        <= 10_000
    &&& forall|id: u64| #[trigger] s.tickets.contains_key(id) ==> s2.tickets.contains_key(id) && ticket_step(
        s.tickets[id],
        s2.tickets[id],
        s.events,
    )
    &&& forall|id: u64| #[trigger] s2.tickets.contains_key(id) && !s.tickets.contains_key(id) ==> freshly_minted(
        s,
        s2,
        id,
        s2.tickets[id],
    )
}

/// Every stored ticket id lies below the id the next mint receives.
pub open spec fn ids_below_next(s: ContractState) -> bool {
    forall|id: u64| #[trigger] s.tickets.contains_key(id) ==> id < s.config.next_ticket_id
}

proof fn lemma_ticket_step_refl(t: TicketView, events: Map<u64, EventView>)
    ensures
        ticket_step(t, t, events),
{
}

proof fn lemma_ticket_step_trans(a: TicketView, b: TicketView, c: TicketView, events: Map<u64, EventView>)
    requires
        ticket_step(a, b, events),
        ticket_step(b, c, events),
    ensures
        ticket_step(a, c, events),
{
}

/// A call that only touches the settings, payments and published events
/// leaves the records as they are.
proof fn lemma_footprint_records_unchanged(s: ContractState, s2: ContractState)
    requires
        s2.events == s.events,
        s2.tickets == s.tickets,
    ensures
        footprint(s, s2),
{
    assert forall|id: u64| #[trigger] s.tickets.contains_key(id) implies s2.tickets.contains_key(id) && ticket_step(
        s.tickets[id],
        s2.tickets[id],
        s.events,
    ) by {
        lemma_ticket_step_refl(s.tickets[id], s.events);
    }
}

/// A call that rewrites one event record with the same terms (or adds a new
/// event) and leaves the tickets as they are.
proof fn lemma_footprint_event_put(s: ContractState, s2: ContractState, eid: u64, e: EventView)
    requires
        s2.events == s.events.insert(eid, e),
        s.events.contains_key(eid) ==> same_terms(s.events[eid], e),
        !s.events.contains_key(eid) ==> e.royalty_bps <= 10_000,
        s2.tickets == s.tickets,
    ensures
        footprint(s, s2),
{
    assert forall|id: u64| #[trigger] s.tickets.contains_key(id) implies s2.tickets.contains_key(id) && ticket_step(
        s.tickets[id],
        s2.tickets[id],
        s.events,
    ) by {
        lemma_ticket_step_refl(s.tickets[id], s.events);
    }
}

/// A call that rewrites one stored ticket by a `ticket_step` and leaves the
/// events and the next ticket id as they are.
proof fn lemma_footprint_ticket_put(s: ContractState, s2: ContractState, id: u64, t: TicketView)
    requires
        s.tickets.contains_key(id),
        ticket_step(s.tickets[id], t, s.events),
        s2.tickets == s.tickets.insert(id, t),
        s2.events == s.events,
    ensures
        footprint(s, s2),
{
    assert forall|k: u64| #[trigger] s.tickets.contains_key(k) implies s2.tickets.contains_key(k) && ticket_step(
        s.tickets[k],
        s2.tickets[k],
        s.events,
    ) by {
        if k != id {
            lemma_ticket_step_refl(s.tickets[k], s.events);
        }
    }
}

/// A footprint followed by a rewrite of one existing event with the same terms.
proof fn lemma_footprint_then_event_put(s: ContractState, m: ContractState, s2: ContractState, eid: u64, e: EventView)
    requires
        footprint(s, m),
        m.events.contains_key(eid),
        same_terms(m.events[eid], e),
        s2.events == m.events.insert(eid, e),
        s2.tickets == m.tickets,
        s2.config.next_ticket_id == m.config.next_ticket_id,
    ensures
        footprint(s, s2),
{
    assert forall|id: u64| #[trigger] s2.tickets.contains_key(id) && !s.tickets.contains_key(id) implies freshly_minted(
        s,
        s2,
        id,
        s2.tickets[id],
    ) by {
        assert(freshly_minted(s, m, id, m.tickets[id]));
    }
}

/// What a run of mints keeps: the footprint from the start, the events, the
/// id invariant, and a next id no smaller than at the start.
pub open spec fn minting_from(s: ContractState, x: ContractState) -> bool {
    &&& footprint(s, x)
    &&& x.events == s.events
    &&& ids_below_next(x)
    &&& x.config.next_ticket_id >= s.config.next_ticket_id
}

proof fn lemma_mint_keeps(s: ContractState, x: ContractState, event_id: u64, owner: AddressView, tier: Seq<char>, seat: Seq<char>, price: i128)
    requires
        minting_from(s, x),
        s.events.contains_key(event_id),
    ensures
        keeps(|y: ContractState| minting_from(s, y), x.mint(event_id, owner, tier, seat, price)),
{
    match x.mint(event_id, owner, tier, seat, price) {
        Transition::Done(x2, id) => {
            assert(!x.tickets.contains_key(id));
            assert forall|k: u64| #[trigger] s.tickets.contains_key(k) implies x2.tickets.contains_key(k) && ticket_step(
                s.tickets[k],
                x2.tickets[k],
                s.events,
            ) by {
                assert(x.tickets.contains_key(k));
            }
            assert forall|k: u64| #[trigger] x2.tickets.contains_key(k) && !s.tickets.contains_key(k) implies freshly_minted(
                s,
                x2,
                k,
                x2.tickets[k],
            ) by {
                if k != id {
                    assert(freshly_minted(s, x, k, x.tickets[k]));
                }
            }
        },
        _ => {},
    }
}

/// What a batch of ticket updates keeps: the footprint from the start, the
/// events, the set of ticket ids and the next id.
pub open spec fn updating_from(s: ContractState, x: ContractState) -> bool {
    &&& footprint(s, x)
    &&& x.events == s.events
    &&& x.tickets.dom() == s.tickets.dom()
    &&& x.config.next_ticket_id == s.config.next_ticket_id
}

/// One more ticket update by a `ticket_step` during a batch.
proof fn lemma_update_keeps(s: ContractState, x: ContractState, x2: ContractState, id: u64, t: TicketView)
    requires
        updating_from(s, x),
        x.tickets.contains_key(id),
        ticket_step(x.tickets[id], t, x.events),
        x2.tickets == x.tickets.insert(id, t),
        x2.events == x.events,
        x2.config.next_ticket_id == x.config.next_ticket_id,
    ensures
        updating_from(s, x2),
{
    assert forall|k: u64| #[trigger] s.tickets.contains_key(k) implies x2.tickets.contains_key(k) && ticket_step(
        s.tickets[k],
        x2.tickets[k],
        s.events,
    ) by {
        if k == id {
            lemma_ticket_step_trans(s.tickets[k], x.tickets[k], t, s.events);
        }
    }
    assert(x2.tickets.dom() =~= s.tickets.dom());
}

proof fn footprint_transfer_one(s: ContractState, x: ContractState, from: AddressView, id: u64, to: AddressView)
    requires
        updating_from(s, x),
    ensures
        keeps(|y: ContractState| updating_from(s, y), x.transfer_one_of_batch(from, id, to)),
{
    match x.transfer_one_of_batch(from, id, to) {
        Transition::Done(x2, _) => lemma_update_keeps(s, x, x2, id, handed_over(x.tickets[id], to)),
        _ => {},
    }
}

proof fn footprint_check_in_one(s: ContractState, x: ContractState, organizer: AddressView, id: u64)
    requires
        updating_from(s, x),
    ensures
        keeps(|y: ContractState| updating_from(s, y), x.check_in(organizer, id)),
{
    match x.check_in(organizer, id) {
        Transition::Done(x2, _) => lemma_update_keeps(
            s,
            x,
            x2,
            id,
            TicketView { status: TicketStatus::Used, resale_price: 0, ..x.tickets[id] },
        ),
        _ => {},
    }
}

proof fn footprint_revoke_one(s: ContractState, x: ContractState, organizer: AddressView, id: u64)
    requires
        updating_from(s, x),
    ensures
        keeps(|y: ContractState| updating_from(s, y), x.revoke_ticket(organizer, id)),
{
    match x.revoke_ticket(organizer, id) {
        Transition::Done(x2, _) => lemma_update_keeps(
            s,
            x,
            x2,
            id,
            TicketView { status: TicketStatus::Revoked, resale_price: 0, ..x.tickets[id] },
        ),
        _ => {},
    }
}

proof fn lemma_updating_from_start(s: ContractState)
    ensures
        updating_from(s, s),
{
    lemma_footprint_records_unchanged(s, s);
}

proof fn lemma_minting_from_start(s: ContractState)
    requires
        ids_below_next(s),
    ensures
        minting_from(s, s),
{
    lemma_footprint_records_unchanged(s, s);
}

/// The footprint of the calls that change only the settings.
#[verifier::rlimit(30)]
proof fn lemma_footprint_of_settings(s: ContractState, c: Call)
    requires
        ids_below_next(s),
        c is Initialize || c is ProposePaymentToken || c is ApplyPaymentToken || c is SetPurchaseThrottle,
    ensures
        after(s, c) matches Some(s2) ==> footprint(s, s2) && (c is Initialize || s2.config.next_ticket_id
            >= s.config.next_ticket_id),
{
    match c {
        Call::Initialize { admin, payment_token, decimals } => {
            if let Some(s2) = after(s, c) {
                lemma_footprint_records_unchanged(s, s2);
            }
        },
        Call::ProposePaymentToken { admin, new_token, decimals } => {
            if let Some(s2) = after(s, c) {
                lemma_footprint_records_unchanged(s, s2);
            }
        },
        Call::ApplyPaymentToken { admin, decimals } => {
            if let Some(s2) = after(s, c) {
                lemma_footprint_records_unchanged(s, s2);
            }
        },
        Call::SetPurchaseThrottle { admin, min_ledger_spacing } => {
            if let Some(s2) = after(s, c) {
                lemma_footprint_records_unchanged(s, s2);
            }
        },
        _ => {},
    }
}

/// The footprint of the calls that add or rewrite an event.
#[verifier::rlimit(30)]
proof fn lemma_footprint_of_events(s: ContractState, c: Call)
    requires
        ids_below_next(s),
        c is CreateEvent || c is EnableEscrow || c is SetEventPaymentToken || c is ReleaseEscrow,
    ensures
        after(s, c) matches Some(s2) ==> footprint(s, s2) && (c is Initialize || s2.config.next_ticket_id
            >= s.config.next_ticket_id),
{
    match c {
        Call::CreateEvent {
            organizer,
            event_id,
            name,
            category,
            max_resale_multiplier_bps,
            royalty_bps,
            starts_at,
            transfer_freeze_seconds,
            resale_cutoff_seconds,
            min_resale_multiplier_bps,
            max_transfers_per_ticket,
        } => {
            if let Some(s2) = after(s, c) {
                lemma_footprint_event_put(s, s2, event_id, s2.events[event_id]);
            }
        },
        Call::EnableEscrow { organizer, event_id, release_ledger } => {
            if let Some(s2) = after(s, c) {
                lemma_footprint_event_put(s, s2, event_id, s2.events[event_id]);
            }
        },
        Call::SetEventPaymentToken { organizer, event_id, token, decimals } => {
            if let Some(s2) = after(s, c) {
                lemma_footprint_event_put(s, s2, event_id, s2.events[event_id]);
            }
        },
        Call::ReleaseEscrow { organizer, event_id } => {
            if let Some(s2) = after(s, c) {
                lemma_footprint_event_put(s, s2, event_id, s2.events[event_id]);
            }
        },
        _ => {},
    }
}

/// The footprint of the calls that mint tickets.
#[verifier::rlimit(30)]
proof fn lemma_footprint_of_mints(s: ContractState, c: Call)
    requires
        ids_below_next(s),
        c is IssueTicket || c is PurchasePrimary || c is AllocateLottery,
    ensures
        after(s, c) matches Some(s2) ==> footprint(s, s2) && (c is Initialize || s2.config.next_ticket_id
            >= s.config.next_ticket_id),
{
    match c {
        Call::IssueTicket { organizer, event_id, to, tier, seat, price } => {
            if let Some(s2) = after(s, c) {
                lemma_minting_from_start(s);
                lemma_mint_keeps(s, s, event_id, to, tier, seat, price);
                let m = done_state(s.mint(event_id, to, tier, seat, price)).unwrap();
                lemma_footprint_then_event_put(s, m, s2, event_id, s2.events[event_id]);
            }
        },
        Call::PurchasePrimary { buyer, event_id, tier, seat, price } => {
            if let Some(s2) = after(s, c) {
                let e = s.events[event_id];
                let token = s.event_token(e).unwrap();
                let paid = if price > 0 {
                    if e.escrow_enabled {
                        s.pay(PaymentView { token, from: buyer, to: s.contract_address, amount: price })
                    } else {
                        s.pay(PaymentView { token, from: buyer, to: e.organizer, amount: price })
                    }
                } else {
                    s
                };
                lemma_minting_from_start(s);
                assert(minting_from(s, paid));
                lemma_mint_keeps(s, paid, event_id, buyer, tier, seat, price);
                let m = done_state(paid.mint(event_id, buyer, tier, seat, price)).unwrap();
                lemma_footprint_then_event_put(s, m, s2, event_id, s2.events[event_id]);
            }
        },
        Call::AllocateLottery { organizer, event_id, entrants, winner_count, tier, price, order } => {
            if let Some(s2) = after(s, c) {
                let p = |y: ContractState| minting_from(s, y);
                assert forall|x: ContractState, w: AddressView| p(x) implies keeps(
                    p,
                    #[trigger] x.mint(event_id, w, tier, "unassigned"@, price),
                ) by {
                    lemma_mint_keeps(s, x, event_id, w, tier, "unassigned"@, price);
                }
                lemma_minting_from_start(s);
                let winners = Seq::new(winner_count as nat, |i: int| entrants[order[i] as int]);
                lemma_mint_all_keeps(p, s, event_id, winners, tier, price);
                let m = done_state(s.mint_all(event_id, winners, tier, price)).unwrap();
                lemma_footprint_then_event_put(s, m, s2, event_id, s2.events[event_id]);
            }
        },
        _ => {},
    }
}

/// The footprint of the calls that hand a ticket over or withdraw its listing for a gift.
#[verifier::rlimit(30)]
proof fn lemma_footprint_of_transfers(s: ContractState, c: Call)
    requires
        ids_below_next(s),
        c is TransferTicket || c is ClaimGift || c is BuyResale || c is CreateGiftClaim,
    ensures
        after(s, c) matches Some(s2) ==> footprint(s, s2) && (c is Initialize || s2.config.next_ticket_id
            >= s.config.next_ticket_id),
{
    match c {
        Call::TransferTicket { from, ticket_id, to } => {
            if let Some(s2) = after(s, c) {
                lemma_footprint_ticket_put(s, s2, ticket_id, handed_over(s.tickets[ticket_id], to));
            }
        },
        Call::ClaimGift { recipient, ticket_id, digest } => {
            if let Some(s2) = after(s, c) {
                lemma_footprint_ticket_put(s, s2, ticket_id, handed_over(s.tickets[ticket_id], recipient));
            }
        },
        Call::BuyResale { buyer, ticket_id } => {
            if let Some(s2) = after(s, c) {
                lemma_footprint_ticket_put(s, s2, ticket_id, handed_over(s.tickets[ticket_id], buyer));
            }
        },
        Call::CreateGiftClaim { owner, ticket_id, secret_hash, expires_at } => {
            if let Some(s2) = after(s, c) {
                if s.tickets[ticket_id].status == TicketStatus::Resale {
                    lemma_footprint_ticket_put(
                        s,
                        s2,
                        ticket_id,
                        TicketView { status: TicketStatus::Valid, resale_price: 0, ..s.tickets[ticket_id] },
                    );
                } else {
                    lemma_footprint_records_unchanged(s, s2);
                }
            }
        },
        _ => {},
    }
}

/// The footprint of the calls that change one ticket's status, seat or listing.
#[verifier::rlimit(30)]
proof fn lemma_footprint_of_statuses(s: ContractState, c: Call)
    requires
        ids_below_next(s),
        c is CheckIn || c is RevokeTicket || c is RevokeWithRefund || c is SetSeat || c is ListForResale || c is CancelResale,
    ensures
        after(s, c) matches Some(s2) ==> footprint(s, s2) && (c is Initialize || s2.config.next_ticket_id
            >= s.config.next_ticket_id),
{
    match c {
        Call::CheckIn { organizer, ticket_id } => {
            if let Some(s2) = after(s, c) {
                lemma_footprint_ticket_put(s, s2, ticket_id, TicketView { status: TicketStatus::Used, resale_price: 0, ..s.tickets[ticket_id] });
            }
        },
        Call::RevokeTicket { organizer, ticket_id } => {
            if let Some(s2) = after(s, c) {
                lemma_footprint_ticket_put(s, s2, ticket_id, TicketView { status: TicketStatus::Revoked, resale_price: 0, ..s.tickets[ticket_id] });
            }
        },
        Call::RevokeWithRefund { organizer, ticket_id, refund } => {
            if let Some(s2) = after(s, c) {
                lemma_footprint_ticket_put(s, s2, ticket_id, TicketView { status: TicketStatus::Revoked, resale_price: 0, ..s.tickets[ticket_id] });
            }
        },
        Call::SetSeat { organizer, ticket_id, seat } => {
            if let Some(s2) = after(s, c) {
                lemma_footprint_ticket_put(s, s2, ticket_id, TicketView { seat, ..s.tickets[ticket_id] });
            }
        },
        Call::ListForResale { owner, ticket_id, price } => {
            if let Some(s2) = after(s, c) {
                lemma_footprint_ticket_put(
                    s,
                    s2,
                    ticket_id,
                    TicketView { status: TicketStatus::Resale, resale_price: price, ..s.tickets[ticket_id] },
                );
            }
        },
        Call::CancelResale { owner, ticket_id } => {
            if let Some(s2) = after(s, c) {
                lemma_footprint_ticket_put(
                    s,
                    s2,
                    ticket_id,
                    TicketView { status: TicketStatus::Valid, resale_price: 0, ..s.tickets[ticket_id] },
                );
            }
        },
        _ => {},
    }
}

/// The footprint of the batch calls.
#[verifier::rlimit(30)]
proof fn lemma_footprint_of_batches(s: ContractState, c: Call)
    requires
        ids_below_next(s),
        c is TransferBatch || c is CheckInBatch || c is RevokeBatch,
    ensures
        after(s, c) matches Some(s2) ==> footprint(s, s2) && (c is Initialize || s2.config.next_ticket_id
            >= s.config.next_ticket_id),
{
    match c {
        Call::TransferBatch { from, ticket_ids, to } => {
            let p = |y: ContractState| updating_from(s, y);
            assert forall|x: ContractState, id: u64| p(x) implies keeps(p, #[trigger] x.transfer_one_of_batch(from, id, to)) by {
                footprint_transfer_one(s, x, from, id, to);
            }
            lemma_updating_from_start(s);
            lemma_transfer_each_keeps(p, s, from, ticket_ids, to);
        },
        Call::CheckInBatch { organizer, ticket_ids } => {
            let p = |y: ContractState| updating_from(s, y);
            assert forall|x: ContractState, id: u64| p(x) implies keeps(p, #[trigger] x.check_in(organizer, id)) by {
                footprint_check_in_one(s, x, organizer, id);
            }
            lemma_updating_from_start(s);
            lemma_check_in_each_keeps(p, s, organizer, ticket_ids);
        },
        Call::RevokeBatch { organizer, ticket_ids } => {
            let p = |y: ContractState| updating_from(s, y);
            assert forall|x: ContractState, id: u64| p(x) implies keeps(p, #[trigger] x.revoke_ticket(organizer, id)) by {
                footprint_revoke_one(s, x, organizer, id);
            }
            lemma_updating_from_start(s);
            lemma_revoke_each_keeps(p, s, organizer, ticket_ids);
        },
        _ => {},
    }
}

/// Every successful call stays within the footprint; every call but
/// `initialize` also never moves the next ticket id back.
pub proof fn lemma_call_footprint(s: ContractState, c: Call)
    requires
        ids_below_next(s),
    ensures
        after(s, c) matches Some(s2) ==> footprint(s, s2) && (c is Initialize || s2.config.next_ticket_id
            >= s.config.next_ticket_id),
{
    if c is Initialize || c is ProposePaymentToken || c is ApplyPaymentToken || c is SetPurchaseThrottle {
        lemma_footprint_of_settings(s, c);
    }     else if c is CreateEvent || c is EnableEscrow || c is SetEventPaymentToken || c is ReleaseEscrow {
        lemma_footprint_of_events(s, c);
    }     else if c is IssueTicket || c is PurchasePrimary || c is AllocateLottery {
        lemma_footprint_of_mints(s, c);
    }     else if c is TransferTicket || c is ClaimGift || c is BuyResale || c is CreateGiftClaim {
        lemma_footprint_of_transfers(s, c);
    }     else if c is CheckIn || c is RevokeTicket || c is RevokeWithRefund || c is SetSeat || c is ListForResale || c is CancelResale {
        lemma_footprint_of_statuses(s, c);
    }     else if c is TransferBatch || c is CheckInBatch || c is RevokeBatch {
        lemma_footprint_of_batches(s, c);
    }
}

/// Every ticket belongs to a stored event.
pub open spec fn tickets_have_events(s: ContractState) -> bool {
    forall|id: u64| #[trigger] s.tickets.contains_key(id) ==> s.events.contains_key(s.tickets[id].event_id)
}

/// Every listed ticket is listed at a positive price within its event's cap
/// and floor.
pub open spec fn listings_within_bounds(s: ContractState) -> bool {
    forall|id: u64|
        #[trigger] s.tickets.contains_key(id) && s.tickets[id].status == TicketStatus::Resale ==> s.events.contains_key(
            s.tickets[id].event_id,
        ) && listed_within_bounds(s.tickets[id], s.events[s.tickets[id].event_id])
}

/// No ticket has been transferred more often than its event allows.
pub open spec fn transfers_within_limits(s: ContractState) -> bool {
    forall|id: u64|
        #[trigger] s.tickets.contains_key(id) && s.events.contains_key(s.tickets[id].event_id) ==> within_transfer_limit(
            s.tickets[id],
            s.events[s.tickets[id].event_id],
        )
}

/// No event's royalty exceeds 100%.
pub open spec fn royalties_at_most_whole(s: ContractState) -> bool {
    forall|eid: u64| #[trigger] s.events.contains_key(eid) ==> s.events[eid].royalty_bps <= 10_000
}

/// A ticket has an asking price only while it is listed for resale.
pub open spec fn unlisted_tickets_ask_nothing(s: ContractState) -> bool {
    forall|id: u64|
        #[trigger] s.tickets.contains_key(id) && s.tickets[id].status != TicketStatus::Resale ==> s.tickets[id].resale_price
            == 0
}

/// The invariant of every state the contract can reach from a fresh deployment.
pub open spec fn well_formed(s: ContractState) -> bool {
    &&& ids_below_next(s)
    &&& tickets_have_events(s)
    &&& listings_within_bounds(s)
    &&& unlisted_tickets_ask_nothing(s)
    &&& transfers_within_limits(s)
    &&& royalties_at_most_whole(s)
}

proof fn lemma_footprint_keeps_record_invariants(s: ContractState, s2: ContractState)
    requires
        footprint(s, s2),
        tickets_have_events(s),
        listings_within_bounds(s),
        unlisted_tickets_ask_nothing(s),
        transfers_within_limits(s),
    ensures
        tickets_have_events(s2),
        listings_within_bounds(s2),
        unlisted_tickets_ask_nothing(s2),
        transfers_within_limits(s2),
{
    assert forall|id: u64| #[trigger] s2.tickets.contains_key(id) implies s2.events.contains_key(s2.tickets[id].event_id)
        && (s2.tickets[id].status == TicketStatus::Resale ==> listed_within_bounds(
        s2.tickets[id],
        s2.events[s2.tickets[id].event_id],
    )) && (s2.tickets[id].status != TicketStatus::Resale ==> s2.tickets[id].resale_price == 0)
        && within_transfer_limit(s2.tickets[id], s2.events[s2.tickets[id].event_id]) by {
        if s.tickets.contains_key(id) {
            let t = s.tickets[id];
            let eid = t.event_id;
            assert(s.events.contains_key(eid));
            assert(s2.events.contains_key(eid) && same_terms(s.events[eid], s2.events[eid]));
        } else {
            assert(freshly_minted(s, s2, id, s2.tickets[id]));
        }
    }
}

/// The fresh contract is well formed.
pub proof fn law_fresh_contract_is_well_formed(contract_address: AddressView, ledger: crate::types::LedgerInfo)
    ensures
        well_formed(ContractState::fresh(contract_address, ledger)),
{
}

/// Every call keeps the contract well formed: ticket ids stay below the next
/// id (so no mint ever overwrites a ticket), every ticket belongs to a stored
/// event, every listing is within its event's cap and floor, a ticket asks a
/// price only while it is listed, no ticket exceeds
/// its event's transfer limit, and no royalty exceeds 100%. The one exception
/// is `initialize` on a contract that already holds tickets (minted before
/// initialization): it restarts ticket ids at 0.
pub proof fn law_every_call_keeps_the_contract_well_formed(s: ContractState, c: Call)
    requires
        well_formed(s),
        c is Initialize ==> s.tickets.is_empty(),
    ensures
        after(s, c) matches Some(s2) ==> well_formed(s2),
{
    lemma_call_footprint(s, c);
    if let Some(s2) = after(s, c) {
        lemma_footprint_keeps_record_invariants(s, s2);
        assert forall|eid: u64| #[trigger] s2.events.contains_key(eid) implies s2.events[eid].royalty_bps <= 10_000 by {
            if s.events.contains_key(eid) {
                assert(same_terms(s.events[eid], s2.events[eid]));
            }
        }
        if !(c is Initialize) {
            assert forall|id: u64| #[trigger] s2.tickets.contains_key(id) implies id < s2.config.next_ticket_id by {
                if !s.tickets.contains_key(id) {
                    assert(freshly_minted(s, s2, id, s2.tickets[id]));
                }
            }
        }
    }
}

/// Revocation is terminal: once revoked, a ticket stays revoked whatever is
/// called afterwards.
pub proof fn law_revoked_ticket_stays_revoked(s: ContractState, c: Call, id: u64)
    requires
        ids_below_next(s),
        s.tickets.contains_key(id),
        s.tickets[id].status == TicketStatus::Revoked,
    ensures
        after(s, c) matches Some(s2) ==> s2.tickets.contains_key(id) && s2.tickets[id].status == TicketStatus::Revoked,
{
    lemma_call_footprint(s, c);
}

/// Admission is one-way: a used ticket never becomes usable again; it stays
/// used, or is revoked.
pub proof fn law_used_ticket_never_becomes_usable(s: ContractState, c: Call, id: u64)
    requires
        ids_below_next(s),
        s.tickets.contains_key(id),
        s.tickets[id].status == TicketStatus::Used,
    ensures
        after(s, c) matches Some(s2) ==> s2.tickets.contains_key(id) && (s2.tickets[id].status == TicketStatus::Used
            || s2.tickets[id].status == TicketStatus::Revoked),
{
    lemma_call_footprint(s, c);
}

/// An event's terms are set once: no call changes the organizer, names,
/// resale cap and floor, transfer limit, royalty or schedule of an existing
/// event, and no call deletes it.
pub proof fn law_event_terms_never_change(s: ContractState, c: Call, event_id: u64)
    requires
        ids_below_next(s),
        s.events.contains_key(event_id),
    ensures
        after(s, c) matches Some(s2) ==> s2.events.contains_key(event_id) && same_terms(
            s.events[event_id],
            s2.events[event_id],
        ),
{
    lemma_call_footprint(s, c);
}

/// A ticket keeps its event and its original price for its whole life, and
/// is never deleted.
pub proof fn law_ticket_keeps_event_and_price(s: ContractState, c: Call, id: u64)
    requires
        ids_below_next(s),
        s.tickets.contains_key(id),
    ensures
        after(s, c) matches Some(s2) ==> s2.tickets.contains_key(id) && s2.tickets[id].event_id
            == s.tickets[id].event_id && s2.tickets[id].original_price == s.tickets[id].original_price,
{
    lemma_call_footprint(s, c);
}

/// Admission cannot be replayed: right after a ticket is admitted, admitting
/// it again fails with `AlreadyUsed`.
pub proof fn law_admission_cannot_be_replayed(s: ContractState, organizer: AddressView, ticket_id: u64)
    ensures
        s.check_in(organizer, ticket_id) matches Transition::Done(s2, _) ==> s2.tickets[ticket_id].status
            == TicketStatus::Used && s2.check_in(organizer, ticket_id) == Transition::<()>::Fail(Error::AlreadyUsed),
{
}

/// A revoked ticket can no longer be transferred, gifted, claimed, listed,
/// bought, withdrawn from resale, admitted, or reseated.
pub proof fn law_revoked_ticket_refuses_every_use(
    s: ContractState,
    ticket_id: u64,
    who: AddressView,
    other: AddressView,
    price: i128,
    digest: Seq<u8>,
    expires_at: u64,
    seat: Seq<char>,
)
    requires
        s.tickets.contains_key(ticket_id),
        s.tickets[ticket_id].status == TicketStatus::Revoked,
    ensures
        !(s.transfer_ticket(who, ticket_id, other) is Done),
        !(s.transfer_one_of_batch(who, ticket_id, other) is Done),
        !(s.create_gift_claim(who, ticket_id, digest, expires_at) is Done),
        !(s.claim_gift(who, ticket_id, digest) is Done),
        !(s.list_for_resale(who, ticket_id, price) is Done),
        !(s.buy_resale(who, ticket_id) is Done),
        !(s.cancel_resale(who, ticket_id) is Done),
        !(s.check_in(who, ticket_id) is Done),
        !(s.set_seat(who, ticket_id, seat) is Done),
{
}

/// A change of owner (direct transfer, gift claim or resale purchase) gives
/// the ticket to its new owner as valid, unlisted, with one more transfer,
/// and deletes any pending gift claim; nothing else about it changes.
pub proof fn law_change_of_owner_clears_listing_and_claim(
    s: ContractState,
    who: AddressView,
    ticket_id: u64,
    to: AddressView,
    digest: Seq<u8>,
)
    ensures
        s.transfer_ticket(who, ticket_id, to) matches Transition::Done(s2, _) ==> s2.tickets[ticket_id] == handed_over(
            s.tickets[ticket_id],
            to,
        ) && !s2.claims.contains_key(ticket_id),
        s.claim_gift(to, ticket_id, digest) matches Transition::Done(s2, _) ==> s2.tickets[ticket_id] == handed_over(
            s.tickets[ticket_id],
            to,
        ) && !s2.claims.contains_key(ticket_id),
        s.buy_resale(to, ticket_id) matches Transition::Done(s2, _) ==> s2.tickets[ticket_id] == handed_over(
            s.tickets[ticket_id],
            to,
        ) && !s2.claims.contains_key(ticket_id),
        handed_over(s.tickets[ticket_id], to).owner == to,
        handed_over(s.tickets[ticket_id], to).status == TicketStatus::Valid,
        handed_over(s.tickets[ticket_id], to).resale_price == 0,
{
}

/// A pending gift claim dies with any admission, revocation or new resale
/// listing of its ticket.
pub proof fn law_gift_claim_dies_with_admission_revocation_or_listing(
    s: ContractState,
    who: AddressView,
    ticket_id: u64,
    price: i128,
    refund: bool,
)
    ensures
        s.check_in(who, ticket_id) matches Transition::Done(s2, _) ==> !s2.claims.contains_key(ticket_id),
        s.revoke_ticket(who, ticket_id) matches Transition::Done(s2, _) ==> !s2.claims.contains_key(ticket_id),
        s.revoke_with_refund(who, ticket_id, refund) matches Transition::Done(s2, _) ==> !s2.claims.contains_key(
            ticket_id,
        ),
        s.list_for_resale(who, ticket_id, price) matches Transition::Done(s2, _) ==> !s2.claims.contains_key(ticket_id),
{
}

/// The sum of a run of payments.
pub open spec fn total_paid(ps: Seq<PaymentView>) -> int
    decreases ps.len(),
{
    if ps.len() == 0 {
        0
    } else {
        total_paid(ps.drop_last()) + ps.last().amount
    }
}

proof fn lemma_portion_within(p: int, r: int)
    requires
        p > 0,
        0 <= r <= 10_000,
    ensures
        0 <= bps_portion(p, r) <= p,
{
    assert(0 <= p * r <= p * 10_000) by (nonlinear_arith)
        requires
            p > 0,
            0 <= r <= 10_000,
    ;
    assert(0 <= (p * r) / 10_000 <= p) by (nonlinear_arith)
        requires
            0 <= p * r <= p * 10_000,
            p > 0,
    ;
}

/// Resale settlement pays exactly the asking price, all of it by the buyer:
/// the organizer's royalty (a share of at most 100%) and the rest to the seller.
/// The split can never sum to more than the price.
pub proof fn law_resale_pays_exactly_the_asking_price(s: ContractState, buyer: AddressView, ticket_id: u64)
    requires
        well_formed(s),
        s.buy_resale(buyer, ticket_id) is Done,
    ensures
        ({
            let t = s.tickets[ticket_id];
            let e = s.events[t.event_id];
            let royalty = bps_portion(t.resale_price as int, e.royalty_bps as int);
            let s2 = done_state(s.buy_resale(buyer, ticket_id)).unwrap();
            let paid = s2.payments.skip(s.payments.len() as int);
            &&& 0 <= royalty <= t.resale_price
            &&& s2.payments.len() >= s.payments.len()
            &&& s2.payments.take(s.payments.len() as int) == s.payments
            &&& total_paid(paid) == t.resale_price
            &&& forall|k: int| 0 <= k < paid.len() ==> (#[trigger] paid[k]).from == buyer
            &&& royalty > 0 ==> paid[0] == PaymentView {
                token: s.event_token(e).unwrap(),
                from: buyer,
                to: e.organizer,
                amount: royalty as i128,
            }
            &&& s2.tickets[ticket_id].owner == buyer
        }),
{
    let t = s.tickets[ticket_id];
    let e = s.events[t.event_id];
    assert(listed_within_bounds(t, e));
    lemma_portion_within(t.resale_price as int, e.royalty_bps as int);
    let royalty = bps_portion(t.resale_price as int, e.royalty_bps as int);
    let seller_amount = t.resale_price - royalty;
    let s2 = done_state(s.buy_resale(buyer, ticket_id)).unwrap();
    let paid = s2.payments.skip(s.payments.len() as int);
    let token = s.event_token(e).unwrap();
    let rp = PaymentView { token, from: buyer, to: e.organizer, amount: royalty as i128 };
    reveal_with_fuel(total_paid, 3);
    let sp = PaymentView { token, from: buyer, to: t.owner, amount: seller_amount as i128 };
    if royalty > 0 && seller_amount > 0 {
        assert(paid =~= seq![rp, sp]);
        assert(seq![rp, sp].drop_last() =~= seq![rp]);
        assert(seq![rp].drop_last() =~= Seq::<PaymentView>::empty());
    } else if royalty > 0 {
        assert(paid =~= seq![rp]);
        assert(seq![rp].drop_last() =~= Seq::<PaymentView>::empty());
    } else if seller_amount > 0 {
        assert(paid =~= seq![sp]);
        assert(seq![sp].drop_last() =~= Seq::<PaymentView>::empty());
    } else {
        assert(paid =~= Seq::<PaymentView>::empty());
    }
    assert(s2.payments.take(s.payments.len() as int) =~= s.payments);
}

/// Organizer issuance mints one fresh ticket to the recipient at the given
/// price, under the next ticket id, and counts it as issued; it moves no funds.
pub proof fn law_issue_mints_one_fresh_ticket(
    s: ContractState,
    organizer: AddressView,
    event_id: u64,
    to: AddressView,
    tier: Seq<char>,
    seat: Seq<char>,
    price: i128,
)
    requires
        ids_below_next(s),
    ensures
        s.issue_ticket(organizer, event_id, to, tier, seat, price) matches Transition::Done(s2, id) ==> {
            &&& id == s.config.next_ticket_id
            &&& !s.tickets.contains_key(id)
            &&& s2.tickets == s.tickets.insert(id, crate::model::new_ticket(event_id, to, tier, seat, price))
            &&& s2.events[event_id].tickets_issued == s.events[event_id].tickets_issued + 1
            &&& s2.config.next_ticket_id == id + 1
            &&& s2.payments == s.payments
        },
{
}

/// A primary purchase mints the ticket to the buyer at the price paid, counts
/// it as issued, and collects exactly that price from the buyer: into the
/// contract when the event escrows (which its escrow balance records), to the
/// organizer otherwise, and nothing when the ticket is free.
pub proof fn law_primary_purchase_pays_the_price_and_mints(
    s: ContractState,
    buyer: AddressView,
    event_id: u64,
    tier: Seq<char>,
    seat: Seq<char>,
    price: i128,
)
    requires
        s.purchase_primary(buyer, event_id, tier, seat, price) is Done,
    ensures
        s.purchase_primary(buyer, event_id, tier, seat, price) matches Transition::Done(s2, id) ==> {
            let e = s.events[event_id];
            &&& id == s.config.next_ticket_id
            &&& s2.tickets[id] == crate::model::new_ticket(event_id, buyer, tier, seat, price)
            &&& s2.events[event_id].tickets_issued == e.tickets_issued + 1
            &&& price > 0 ==> s2.payments == s.payments.push(
                PaymentView {
                    token: s.event_token(e).unwrap(),
                    from: buyer,
                    to: if e.escrow_enabled {
                        s.contract_address
                    } else {
                        e.organizer
                    },
                    amount: price,
                },
            )
            &&& price == 0 ==> s2.payments == s.payments
            &&& s2.events[event_id].escrow_balance == if price > 0 && e.escrow_enabled {
                e.escrow_balance + price
            } else {
                e.escrow_balance as int
            }
        },
{
}

/// Escrowed proceeds are released only to the organizer, only once the
/// release ledger is reached, and all at once: the balance drops to zero and
/// exactly that amount leaves the contract.
pub proof fn law_escrow_is_released_only_when_due(s: ContractState, organizer: AddressView, event_id: u64)
    requires
        s.events.contains_key(event_id),
        s.events[event_id].organizer == organizer,
        s.events[event_id].escrow_enabled,
        s.authorizes(organizer),
    ensures
        s.ledger.sequence < s.events[event_id].escrow_release_ledger ==> s.release_escrow(organizer, event_id)
            == Transition::<()>::Fail(Error::EventNotEnded),
        s.release_escrow(organizer, event_id) matches Transition::Done(s2, _) ==> {
            let e = s.events[event_id];
            &&& s2.events[event_id].escrow_balance == 0
            &&& e.escrow_balance > 0 ==> s2.payments == s.payments.push(
                PaymentView {
                    token: s.event_token(e).unwrap(),
                    from: s.contract_address,
                    to: organizer,
                    amount: e.escrow_balance,
                },
            )
            &&& e.escrow_balance <= 0 ==> s2.payments == s.payments
        },
{
}

/// A payment token change waits for its timelock: applying at the ledger it
/// was proposed on fails, and applying once `PAYMENT_TOKEN_CHANGE_DELAY_LEDGERS`
/// have passed succeeds with the proposed token.
pub proof fn law_payment_token_change_waits_for_the_timelock(
    s: ContractState,
    admin: AddressView,
    new_token: AddressView,
    decimals: u32,
    later: crate::types::LedgerInfo,
)
    requires
        s.propose_payment_token(admin, new_token, Some(decimals)) is Done,
        s.ledger.sequence + crate::types::PAYMENT_TOKEN_CHANGE_DELAY_LEDGERS <= u32::MAX,
        s.config.payment_token is Some,
        later.sequence >= s.ledger.sequence + crate::types::PAYMENT_TOKEN_CHANGE_DELAY_LEDGERS,
    ensures
        s.propose_payment_token(admin, new_token, Some(decimals)) matches Transition::Done(s2, _) ==> {
            &&& s2.apply_payment_token(admin, Some(decimals)) == Transition::<()>::Fail(Error::TimelockNotElapsed)
            &&& (ContractState { ledger: later, ..s2 }).apply_payment_token(admin, Some(decimals)) matches Transition::Done(
                s3,
                _,
            ) && s3.config.payment_token == Some(new_token) && s3.config.token_decimals == Some(decimals)
        },
{
}

/// The admin has no power over tickets, events, gift claims or funds: its
/// calls change only the settings and the published events.
pub proof fn law_admin_calls_touch_no_ticket_or_funds(
    s: ContractState,
    admin: AddressView,
    token: AddressView,
    decimals: Option<u32>,
    spacing: u32,
)
    ensures
        s.propose_payment_token(admin, token, decimals) matches Transition::Done(s2, _) ==> s2.tickets == s.tickets
            && s2.events == s.events && s2.claims == s.claims && s2.payments == s.payments,
        s.apply_payment_token(admin, decimals) matches Transition::Done(s2, _) ==> s2.tickets == s.tickets && s2.events
            == s.events && s2.claims == s.claims && s2.payments == s.payments,
        s.set_purchase_throttle(admin, spacing) matches Transition::Done(s2, _) ==> s2.tickets == s.tickets
            && s2.events == s.events && s2.claims == s.claims && s2.payments == s.payments,
{
}

/// With the throttle on, a buyer's second primary purchase in the same ledger
/// is refused with `PurchaseTooSoon`.
pub proof fn law_throttle_refuses_a_quick_second_purchase(
    s: ContractState,
    buyer: AddressView,
    event_id: u64,
    tier: Seq<char>,
    seat: Seq<char>,
    price: i128,
    event_id2: u64,
    tier2: Seq<char>,
    seat2: Seq<char>,
    price2: i128,
)
    requires
        s.config.min_purchase_spacing > 0,
        s.purchase_primary(buyer, event_id, tier, seat, price) is Done,
        price2 >= 0,
    ensures
        s.purchase_primary(buyer, event_id, tier, seat, price) matches Transition::Done(s2, _) ==> s2.purchase_primary(
            buyer,
            event_id2,
            tier2,
            seat2,
            price2,
        ) == Transition::<u64>::Fail(Error::PurchaseTooSoon),
{
    if let Transition::Done(s2, _) = s.purchase_primary(buyer, event_id, tier, seat, price) {
        assert(s2.purchases.last() == (buyer, s.ledger.sequence));
        assert(crate::model::last_purchase(s2.purchases, buyer) == Some(s.ledger.sequence));
    }
}

/// The throttle refuses a primary purchase exactly when it is on, the buyer
/// has bought before, and fewer ledgers than the spacing have passed since; it
/// refuses with `PurchaseTooSoon` and changes nothing. Every successful
/// purchase, free ones included, records the current ledger as the buyer's
/// latest purchase.
pub proof fn law_throttle_decides_by_the_buyers_last_purchase(
    s: ContractState,
    buyer: AddressView,
    event_id: u64,
    tier: Seq<char>,
    seat: Seq<char>,
    price: i128,
)
    requires
        price >= 0,
        s.authorizes(buyer),
    ensures
        crate::model::throttled(
            s.config.min_purchase_spacing,
            crate::model::last_purchase(s.purchases, buyer),
            s.ledger.sequence,
        ) <==> s.purchase_primary(buyer, event_id, tier, seat, price) == Transition::<u64>::Fail(Error::PurchaseTooSoon),
        s.config.min_purchase_spacing == 0 || crate::model::last_purchase(s.purchases, buyer) is None ==> s.purchase_primary(
            buyer,
            event_id,
            tier,
            seat,
            price,
        ) != Transition::<u64>::Fail(Error::PurchaseTooSoon),
        s.purchase_primary(buyer, event_id, tier, seat, price) matches Transition::Done(s2, _) ==> crate::model::last_purchase(
            s2.purchases,
            buyer,
        ) == Some(s.ledger.sequence),
{
    if let Transition::Done(s2, _) = s.purchase_primary(buyer, event_id, tier, seat, price) {
        assert(s2.purchases.last() == (buyer, s.ledger.sequence));
    }
}

/// An optional refund goes from the organizer to the ticket's owner, for
/// exactly the ticket's original price, in the event's token.
pub proof fn law_refund_pays_the_owner_the_original_price(s: ContractState, organizer: AddressView, ticket_id: u64)
    requires
        s.revoke_with_refund(organizer, ticket_id, true) is Done,
        s.tickets[ticket_id].original_price > 0,
    ensures
        s.revoke_with_refund(organizer, ticket_id, true) matches Transition::Done(s2, _) ==> {
            let t = s.tickets[ticket_id];
            &&& s2.payments == s.payments.push(
                PaymentView {
                    token: s.event_token(s.events[t.event_id]).unwrap(),
                    from: organizer,
                    to: t.owner,
                    amount: t.original_price,
                },
            )
            &&& s2.tickets[ticket_id].status == TicketStatus::Revoked
        },
{
}

/// An event id is never reused: registering an id already taken fails and
/// changes nothing.
pub proof fn law_event_ids_are_never_overwritten(
    s: ContractState,
    organizer: AddressView,
    event_id: u64,
    name: Seq<char>,
    category: Seq<char>,
    max_resale_multiplier_bps: u32,
    royalty_bps: u32,
    starts_at: u64,
    transfer_freeze_seconds: u64,
    resale_cutoff_seconds: u64,
    min_resale_multiplier_bps: Option<u32>,
    max_transfers_per_ticket: Option<u32>,
)
    requires
        s.events.contains_key(event_id),
    ensures
        !(s.create_event_with_options(
            organizer,
            event_id,
            name,
            category,
            max_resale_multiplier_bps,
            royalty_bps,
            starts_at,
            transfer_freeze_seconds,
            resale_cutoff_seconds,
            min_resale_multiplier_bps,
            max_transfers_per_ticket,
        ) is Done),
{
}

/// Resale and direct transfers do not count as issuance: they leave every
/// event record, and the next ticket id, as they were.
pub proof fn law_changes_of_owner_issue_nothing(s: ContractState, who: AddressView, ticket_id: u64, to: AddressView)
    ensures
        s.buy_resale(to, ticket_id) matches Transition::Done(s2, _) ==> s2.events == s.events
            && s2.config.next_ticket_id == s.config.next_ticket_id,
        s.transfer_ticket(who, ticket_id, to) matches Transition::Done(s2, _) ==> s2.events == s.events
            && s2.config.next_ticket_id == s.config.next_ticket_id,
{
}

/// Every error has its own code: the contract's errors 1 to 34, and 0 for
/// the host's refusal of an unauthorized call.
pub proof fn law_error_codes_are_distinct(a: Error, b: Error)
    ensures
        error_code(a) <= 34,
        error_code(a) == 0 <==> a == Error::NotAuthorized,
        error_code(a) == error_code(b) ==> a == b,
{
}

/// What a run of mints produces: consecutive fresh ids, one ticket per winner
/// in order, and no other ticket touched.
proof fn lemma_mint_all_result(s: ContractState, event_id: u64, winners: Seq<AddressView>, tier: Seq<char>, price: i128)
    ensures
        s.mint_all(event_id, winners, tier, price) matches Transition::Done(s2, ids) ==> {
            &&& ids.len() == winners.len()
            &&& s2.config.next_ticket_id == s.config.next_ticket_id + winners.len()
            &&& s2.events == s.events
            &&& forall|k: int| 0 <= k < ids.len() ==> #[trigger] ids[k] == s.config.next_ticket_id + k
            &&& forall|k: int|
                0 <= k < ids.len() ==> #[trigger] s2.tickets.get(ids[k]) == Some(
                    crate::model::new_ticket(event_id, winners[k], tier, "unassigned"@, price),
                )
            &&& forall|id: u64| id < s.config.next_ticket_id ==> #[trigger] s2.tickets.get(id) == s.tickets.get(id)
        },
    decreases winners.len(),
{
    if winners.len() > 0 {
        match s.mint(event_id, winners[0], tier, "unassigned"@, price) {
            Transition::Done(s1, id0) => {
                lemma_mint_all_result(s1, event_id, winners.drop_first(), tier, price);
                match s1.mint_all(event_id, winners.drop_first(), tier, price) {
                    Transition::Done(s2, rest) => {
                        let ids = seq![id0] + rest;
                        assert forall|k: int| 0 <= k < ids.len() implies #[trigger] s2.tickets.get(ids[k]) == Some(
                            crate::model::new_ticket(event_id, winners[k], tier, "unassigned"@, price),
                        ) by {
                            if k > 0 {
                                assert(ids[k] == rest[k - 1]);
                                assert(winners.drop_first()[k - 1] == winners[k]);
                            } else {
                                assert(s2.tickets.get(id0) == s1.tickets.get(id0));
                            }
                        }
                        assert forall|k: int| 0 <= k < ids.len() implies #[trigger] ids[k] == s.config.next_ticket_id + k by {
                            if k > 0 {
                                assert(ids[k] == rest[k - 1]);
                            }
                        }
                        assert forall|id: u64| id < s.config.next_ticket_id implies #[trigger] s2.tickets.get(id)
                            == s.tickets.get(id) by {
                            assert(s2.tickets.get(id) == s1.tickets.get(id));
                        }
                    },
                    _ => {},
                }
            },
            _ => {},
        }
    }
}

/// A lottery gives exactly `winner_count` tickets, under fresh distinct ids,
/// to distinct entrants (those the draw order puts first), each a valid ticket of
/// the drawn tier at the given price, and counts them as issued.
pub proof fn law_lottery_gives_tickets_to_distinct_entrants(
    s: ContractState,
    organizer: AddressView,
    event_id: u64,
    entrants: Seq<AddressView>,
    winner_count: u32,
    tier: Seq<char>,
    price: i128,
    order: Seq<u32>,
)
    requires
        ids_below_next(s),
        crate::model::is_permutation_of_range(order, entrants.len()),
    ensures
        s.allocate_lottery(organizer, event_id, entrants, winner_count, tier, price, order) matches Transition::Done(
            s2,
            ids,
        ) ==> {
            &&& ids.len() == winner_count
            &&& ids.no_duplicates()
            &&& forall|k: int| 0 <= k < ids.len() ==> !s.tickets.contains_key(#[trigger] ids[k])
            &&& forall|k: int|
                0 <= k < ids.len() ==> s2.tickets.contains_key(#[trigger] ids[k]) && s2.tickets[ids[k]].owner
                    == entrants[order[k] as int] && s2.tickets[ids[k]].status == TicketStatus::Valid
                    && s2.tickets[ids[k]].original_price == price && s2.tickets[ids[k]].tier == tier
            &&& forall|j: int, k: int|
                0 <= j < k < ids.len() ==> s2.tickets[#[trigger] ids[j]].owner != s2.tickets[#[trigger] ids[k]].owner
            &&& s2.events[event_id].tickets_issued == s.events[event_id].tickets_issued + winner_count
        },
{
    if let Transition::Done(s2, ids) = s.allocate_lottery(organizer, event_id, entrants, winner_count, tier, price, order) {
        let winners = Seq::new(winner_count as nat, |i: int| entrants[order[i] as int]);
        lemma_mint_all_result(s, event_id, winners, tier, price);
        let m = done_state(s.mint_all(event_id, winners, tier, price)).unwrap();
        assert forall|k: int| 0 <= k < ids.len() implies !s.tickets.contains_key(#[trigger] ids[k]) by {
            if s.tickets.contains_key(ids[k]) {
                assert(ids[k] < s.config.next_ticket_id);
            }
        }
        assert forall|k: int|
            0 <= k < ids.len() implies s2.tickets.contains_key(#[trigger] ids[k]) && s2.tickets[ids[k]].owner
                == entrants[order[k] as int] && s2.tickets[ids[k]].status == TicketStatus::Valid
                && s2.tickets[ids[k]].original_price == price && s2.tickets[ids[k]].tier == tier by {
            assert(m.tickets.get(ids[k]) == Some(crate::model::new_ticket(event_id, winners[k], tier, "unassigned"@, price)));
        }
        assert forall|j: int, k: int| 0 <= j < k < ids.len() implies s2.tickets[#[trigger] ids[j]].owner
            != s2.tickets[#[trigger] ids[k]].owner by {
            assert(m.tickets.get(ids[j]) == Some(crate::model::new_ticket(event_id, winners[j], tier, "unassigned"@, price)));
            assert(m.tickets.get(ids[k]) == Some(crate::model::new_ticket(event_id, winners[k], tier, "unassigned"@, price)));
            assert(order[j] != order[k]);
            if entrants[order[j] as int] == entrants[order[k] as int] {
                if order[j] < order[k] {
                    assert(crate::model::has_duplicate(entrants));
                } else {
                    assert(crate::model::has_duplicate(entrants));
                }
            }
        }
        assert forall|j: int, k: int| 0 <= j < ids.len() && 0 <= k < ids.len() && j != k implies ids[j] != ids[k] by {}
    }
}


/// `x` keeps the admin, the contract-wide payment token and its cached
/// decimals of `s`, and holds no gift claim that `s` did not hold as it is.
pub open spec fn settled_from(s: ContractState, x: ContractState) -> bool {
    &&& x.config.admin == s.config.admin
    &&& x.config.payment_token == s.config.payment_token
    &&& x.config.token_decimals == s.config.token_decimals
    &&& forall|id: u64| #[trigger] x.claims.contains_key(id) ==> s.claims.contains_key(id) && x.claims[id] == s.claims[id]
}

proof fn lemma_settled_from_start(s: ContractState)
    ensures
        settled_from(s, s),
{
}

/// The calls that rewrite the settings, add events or mint keep `settled_from`.
#[verifier::rlimit(40)]
proof fn lemma_settled_by_settings_events_and_mints(s: ContractState, c: Call)
    requires
        c is ProposePaymentToken || c is SetPurchaseThrottle || c is CreateEvent || c is EnableEscrow
            || c is SetEventPaymentToken || c is ReleaseEscrow || c is IssueTicket || c is PurchasePrimary
            || c is AllocateLottery,
    ensures
        after(s, c) matches Some(s2) ==> settled_from(s, s2),
{
    match c {
        Call::IssueTicket { organizer, event_id, to, tier, seat, price } => {},
        Call::PurchasePrimary { buyer, event_id, tier, seat, price } => {},
        Call::AllocateLottery { organizer, event_id, entrants, winner_count, tier, price, order } => {
            let p = |y: ContractState| settled_from(s, y);
            assert forall|x: ContractState, w: AddressView| p(x) implies keeps(
                p,
                #[trigger] x.mint(event_id, w, tier, "unassigned"@, price),
            ) by {}
            lemma_settled_from_start(s);
            let winners = Seq::new(winner_count as nat, |i: int| entrants[order[i] as int]);
            lemma_mint_all_keeps(p, s, event_id, winners, tier, price);
        },
        _ => {},
    }
}

/// The calls that change tickets, one or a batch, keep `settled_from`.
#[verifier::rlimit(40)]
proof fn lemma_settled_by_ticket_calls(s: ContractState, c: Call)
    requires
        c is TransferTicket || c is ClaimGift || c is BuyResale || c is CheckIn || c is RevokeTicket
            || c is RevokeWithRefund || c is SetSeat || c is ListForResale || c is CancelResale
            || c is TransferBatch || c is CheckInBatch || c is RevokeBatch,
    ensures
        after(s, c) matches Some(s2) ==> settled_from(s, s2),
{
    let p = |y: ContractState| settled_from(s, y);
    lemma_settled_from_start(s);
    match c {
        Call::TransferBatch { from, ticket_ids, to } => {
            assert forall|x: ContractState, id: u64| p(x) implies keeps(p, #[trigger] x.transfer_one_of_batch(from, id, to)) by {}
            lemma_transfer_each_keeps(p, s, from, ticket_ids, to);
        },
        Call::CheckInBatch { organizer, ticket_ids } => {
            assert forall|x: ContractState, id: u64| p(x) implies keeps(p, #[trigger] x.check_in(organizer, id)) by {}
            lemma_check_in_each_keeps(p, s, organizer, ticket_ids);
        },
        Call::RevokeBatch { organizer, ticket_ids } => {
            assert forall|x: ContractState, id: u64| p(x) implies keeps(p, #[trigger] x.revoke_ticket(organizer, id)) by {}
            lemma_revoke_each_keeps(p, s, organizer, ticket_ids);
        },
        _ => {},
    }
}

/// Only `initialize` sets the admin, and only on a contract that has none, so
/// the admin never changes once set; only `initialize` and
/// `apply_payment_token` set the contract-wide payment token, and each stores
/// with it the decimals that token answered, so the cached decimals are
/// always those of the active payment token. Every other call leaves all three
/// as they were.
pub proof fn law_settings_change_only_by_their_calls(s: ContractState, c: Call)
    ensures
        after(s, c) matches Some(s2) ==> match c {
            Call::Initialize { admin, payment_token, decimals } => {
                &&& s.config.admin is None
                &&& s2.config.admin == Some(admin)
                &&& s2.config.payment_token == Some(payment_token)
                &&& decimals is Some && s2.config.token_decimals == decimals
            },
            Call::ApplyPaymentToken { admin, decimals } => {
                &&& s2.config.admin == s.config.admin
                &&& s.config.pending_payment_token is Some
                &&& s2.config.payment_token == Some(s.config.pending_payment_token.unwrap().token)
                &&& decimals is Some && s2.config.token_decimals == decimals
            },
            _ => {
                &&& s2.config.admin == s.config.admin
                &&& s2.config.payment_token == s.config.payment_token
                &&& s2.config.token_decimals == s.config.token_decimals
            },
        },
{
    if c is Initialize || c is ApplyPaymentToken {
    } else if c is CreateGiftClaim {
    } else if c is TransferTicket || c is ClaimGift || c is BuyResale || c is CheckIn || c is RevokeTicket
        || c is RevokeWithRefund || c is SetSeat || c is ListForResale || c is CancelResale || c is TransferBatch
        || c is CheckInBatch || c is RevokeBatch {
        lemma_settled_by_ticket_calls(s, c);
    } else {
        lemma_settled_by_settings_events_and_mints(s, c);
    }
}

/// Once the contract has an admin, `initialize` fails with
/// `AlreadyInitialized` and changes nothing, whoever calls it with whatever
/// token.
pub proof fn law_second_initialize_is_refused(
    s: ContractState,
    admin: AddressView,
    payment_token: AddressView,
    decimals: Option<u32>,
)
    requires
        s.config.admin is Some,
    ensures
        s.initialize(admin, payment_token, decimals) == Transition::<()>::Fail(Error::AlreadyInitialized),
{
}

/// Only `create_gift_claim` adds a gift claim, and only for its own ticket:
/// after any other successful call every claim was already there, unchanged.
/// So once a claim is gone (claimed, or deleted by a transfer, a sale, an
/// admission, a revocation or a listing), no call but a new
/// `create_gift_claim` brings it back.
pub proof fn law_only_gift_claim_creation_adds_claims(s: ContractState, c: Call, id: u64)
    ensures
        after(s, c) matches Some(s2) ==> s2.claims.contains_key(id) && !(c matches Call::CreateGiftClaim {
            ticket_id,
            ..
        } && ticket_id == id) ==> s.claims.contains_key(id) && s2.claims[id] == s.claims[id],
{
    if c is Initialize || c is ApplyPaymentToken || c is CreateGiftClaim {
    } else if c is TransferTicket || c is ClaimGift || c is BuyResale || c is CheckIn || c is RevokeTicket
        || c is RevokeWithRefund || c is SetSeat || c is ListForResale || c is CancelResale || c is TransferBatch
        || c is CheckInBatch || c is RevokeBatch {
        lemma_settled_by_ticket_calls(s, c);
    } else {
        lemma_settled_by_settings_events_and_mints(s, c);
    }
}

/// A ticket without a pending gift claim cannot be claimed: `claim_gift`
/// fails with `GiftClaimNotFound` and changes nothing, whatever the secret.
pub proof fn law_missing_claim_cannot_be_claimed(s: ContractState, recipient: AddressView, ticket_id: u64, digest: Seq<u8>)
    requires
        !s.claims.contains_key(ticket_id),
        s.authorizes(recipient),
    ensures
        s.claim_gift(recipient, ticket_id, digest) == Transition::<()>::Fail(Error::GiftClaimNotFound),
{
}

/// How each call moves the next ticket id.
#[verifier::rlimit(40)]
proof fn lemma_ticket_count(s: ContractState, c: Call)
    ensures
        after(s, c) matches Some(s2) ==> match c {
            Call::Initialize { .. } => s2.config.next_ticket_id == 0,
            Call::IssueTicket { .. } => s2.config.next_ticket_id == s.config.next_ticket_id + 1,
            Call::PurchasePrimary { .. } => s2.config.next_ticket_id == s.config.next_ticket_id + 1,
            Call::AllocateLottery { winner_count, .. } => s2.config.next_ticket_id == s.config.next_ticket_id
                + winner_count,
            _ => s2.config.next_ticket_id == s.config.next_ticket_id,
        },
{
    let p = |y: ContractState| y.config.next_ticket_id == s.config.next_ticket_id;
    match c {
        Call::AllocateLottery { organizer, event_id, entrants, winner_count, tier, price, order } => {
            let winners = Seq::new(winner_count as nat, |i: int| entrants[order[i] as int]);
            lemma_mint_all_result(s, event_id, winners, tier, price);
        },
        Call::TransferBatch { from, ticket_ids, to } => {
            assert forall|x: ContractState, id: u64| p(x) implies keeps(p, #[trigger] x.transfer_one_of_batch(from, id, to)) by {}
            lemma_transfer_each_keeps(p, s, from, ticket_ids, to);
        },
        Call::CheckInBatch { organizer, ticket_ids } => {
            assert forall|x: ContractState, id: u64| p(x) implies keeps(p, #[trigger] x.check_in(organizer, id)) by {}
            lemma_check_in_each_keeps(p, s, organizer, ticket_ids);
        },
        Call::RevokeBatch { organizer, ticket_ids } => {
            assert forall|x: ContractState, id: u64| p(x) implies keeps(p, #[trigger] x.revoke_ticket(organizer, id)) by {}
            lemma_revoke_each_keeps(p, s, organizer, ticket_ids);
        },
        _ => {},
    }
}

/// Ticket ids are handed out as 0, 1, 2, ... in mint order, across events and
/// minting calls: `initialize` starts the count at 0; `issue_ticket` and
/// `purchase_primary` return the next id and advance the count by one; a
/// lottery returns the next `winner_count` ids in order and advances the count
/// by that many; no other call moves the count.
pub proof fn law_ticket_ids_count_up(
    s: ContractState,
    c: Call,
    organizer: AddressView,
    event_id: u64,
    to: AddressView,
    tier: Seq<char>,
    seat: Seq<char>,
    price: i128,
    entrants: Seq<AddressView>,
    winner_count: u32,
    order: Seq<u32>,
)
    ensures
        after(s, c) matches Some(s2) ==> match c {
            Call::Initialize { .. } => s2.config.next_ticket_id == 0,
            Call::IssueTicket { .. } => s2.config.next_ticket_id == s.config.next_ticket_id + 1,
            Call::PurchasePrimary { .. } => s2.config.next_ticket_id == s.config.next_ticket_id + 1,
            Call::AllocateLottery { winner_count, .. } => s2.config.next_ticket_id == s.config.next_ticket_id
                + winner_count,
            _ => s2.config.next_ticket_id == s.config.next_ticket_id,
        },
        s.issue_ticket(organizer, event_id, to, tier, seat, price) matches Transition::Done(_, id) ==> id
            == s.config.next_ticket_id,
        s.purchase_primary(to, event_id, tier, seat, price) matches Transition::Done(_, id) ==> id
            == s.config.next_ticket_id,
        s.allocate_lottery(organizer, event_id, entrants, winner_count, tier, price, order) matches Transition::Done(
            _,
            ids,
        ) ==> ids.len() == winner_count && forall|k: int| 0 <= k < ids.len() ==> #[trigger] ids[k]
            == s.config.next_ticket_id + k,
{
    lemma_ticket_count(s, c);
    if let Transition::Done(_, ids) = s.allocate_lottery(organizer, event_id, entrants, winner_count, tier, price, order) {
        let winners = Seq::new(winner_count as nat, |i: int| entrants[order[i] as int]);
        lemma_mint_all_result(s, event_id, winners, tier, price);
    }
}


/// Authorization comes first. A call whose acting address has not authorized
/// it is refused with `NotAuthorized` and changes nothing; an organizer's,
/// owner's or buyer's call is refused before any lookup, so its answer is the
/// same in every state and reveals nothing of tickets or events. The admin's
/// calls check only the stored admin first (answering `NotInitialized` or
/// `NotAdmin`), and `initialize` only whether an admin is set.
pub proof fn law_authorization_comes_first(s: ContractState, c: Call)
    requires
        !s.authorizes(actor(c)),
    ensures
        after(s, c) is None,
        !(c is Initialize) && !is_admin_call(c) ==> answer(s, c) == Some(Error::NotAuthorized),
        is_admin_call(c) ==> answer(s, c) == Some(
            match s.config.admin {
                None => Error::NotInitialized,
                Some(a) => if a != actor(c) {
                    Error::NotAdmin
                } else {
                    Error::NotAuthorized
                },
            },
        ),
        c is Initialize ==> answer(s, c) == Some(
            if s.config.admin is Some {
                Error::AlreadyInitialized
            } else {
                Error::NotAuthorized
            },
        ),
{
}

/// An unauthorized call cannot tell two states apart: whatever the tickets,
/// events, claims and funds of two states, an organizer's, owner's or buyer's
/// call that its actor did not authorize gets the same answer from both and
/// changes neither.
pub proof fn law_unauthorized_calls_reveal_nothing(s1: ContractState, s2: ContractState, c: Call)
    requires
        !s1.authorizes(actor(c)),
        !s2.authorizes(actor(c)),
        !(c is Initialize),
        !is_admin_call(c),
    ensures
        answer(s1, c) == answer(s2, c),
        after(s1, c) is None && after(s2, c) is None,
{
    law_authorization_comes_first(s1, c);
    law_authorization_comes_first(s2, c);
}


/// One invocation of the contract: the ledger it runs on, who authorized it,
/// and the call.
pub struct Invocation {
    pub ledger: LedgerInfo,
    pub authorizations: Option<Seq<AddressView>>,
    pub call: Call,
}

/// The state an invocation runs on: the stored state, on the invocation's
/// ledger and with its authorizations.
pub open spec fn enter(s: ContractState, inv: Invocation) -> ContractState {
    ContractState { ledger: inv.ledger, authorizations: inv.authorizations, ..s }
}

/// The state an invocation leaves: what its call leaves when it succeeds,
/// the state it ran on otherwise (a failed or aborted invocation is rolled
/// back).
pub open spec fn step(s: ContractState, inv: Invocation) -> ContractState {
    match after(enter(s, inv), inv.call) {
        Some(s2) => s2,
        None => enter(s, inv),
    }
}

/// The state a sequence of invocations leaves, each run on what the ones
/// before it left.
pub open spec fn run(s: ContractState, invs: Seq<Invocation>) -> ContractState
    decreases invs.len(),
{
    if invs.len() == 0 {
        s
    } else {
        run(step(s, invs[0]), invs.drop_first())
    }
}

/// The cached decimals are those that `decimals` says the active payment
/// token has (none while there is no payment token).
pub open spec fn decimals_follow_token(s: ContractState, decimals: spec_fn(AddressView) -> Option<u32>) -> bool {
    match s.config.payment_token {
        Some(t) => s.config.token_decimals == decimals(t),
        None => s.config.token_decimals is None,
    }
}

/// The call hands in, for each token it probes, that token's answer as
/// `decimals` gives it.
pub open spec fn probes_answered(s: ContractState, c: Call, decimals: spec_fn(AddressView) -> Option<u32>) -> bool {
    match c {
        Call::Initialize { payment_token, decimals: d, .. } => d == decimals(payment_token),
        Call::ApplyPaymentToken { decimals: d, .. } => s.config.pending_payment_token matches Some(p) ==> d
            == decimals(p.token),
        _ => true,
    }
}

/// Every invocation of the sequence hands in the tokens' answers as
/// `decimals` gives them.
pub open spec fn all_probes_answered(
    s: ContractState,
    invs: Seq<Invocation>,
    decimals: spec_fn(AddressView) -> Option<u32>,
) -> bool
    decreases invs.len(),
{
    invs.len() == 0 || (probes_answered(enter(s, invs[0]), invs[0].call, decimals) && all_probes_answered(
        step(s, invs[0]),
        invs.drop_first(),
        decimals,
    ))
}

/// The cached decimals always belong to the active payment token: if every
/// token answers `decimals()` as `decimals` says and the contract starts with
/// its cache right (a fresh contract has neither token nor cache), then after
/// any sequence of invocations `token_decimals()` answers the active token's
/// decimals.
pub proof fn law_cached_decimals_follow_the_active_token(
    s: ContractState,
    invs: Seq<Invocation>,
    decimals: spec_fn(AddressView) -> Option<u32>,
)
    requires
        decimals_follow_token(s, decimals),
        all_probes_answered(s, invs, decimals),
    ensures
        decimals_follow_token(run(s, invs), decimals),
        run(s, invs).config.payment_token matches Some(t) ==> run(s, invs).token_decimals() == match decimals(t) {
            Some(d) => Ok::<u32, Error>(d),
            None => Err::<u32, Error>(Error::NotInitialized),
        },
    decreases invs.len(),
{
    if invs.len() > 0 {
        let x = enter(s, invs[0]);
        law_settings_change_only_by_their_calls(x, invs[0].call);
        law_cached_decimals_follow_the_active_token(step(s, invs[0]), invs.drop_first(), decimals);
    }
}

/// Once a ticket has no gift claim, it gets none back unless its owner
/// creates a new one: after any sequence of invocations without a
/// `create_gift_claim` for it, it still has none, and `claim_gift` on it
/// answers `GiftClaimNotFound` whatever the secret.
pub proof fn law_dead_claim_stays_dead(s: ContractState, invs: Seq<Invocation>, ticket_id: u64)
    requires
        !s.claims.contains_key(ticket_id),
        forall|i: int| 0 <= i < invs.len() ==> !(#[trigger] invs[i].call matches Call::CreateGiftClaim { ticket_id: t, .. }
            && t == ticket_id),
    ensures
        !run(s, invs).claims.contains_key(ticket_id),
        forall|recipient: AddressView, digest: Seq<u8>|
            run(s, invs).authorizes(recipient) ==> #[trigger] run(s, invs).claim_gift(recipient, ticket_id, digest)
                == Transition::<()>::Fail(Error::GiftClaimNotFound),
    decreases invs.len(),
{
    if invs.len() > 0 {
        law_only_gift_claim_creation_adds_claims(enter(s, invs[0]), invs[0].call, ticket_id);
        assert forall|i: int| 0 <= i < invs.drop_first().len() implies !(#[trigger] invs.drop_first()[i].call matches Call::CreateGiftClaim {
            ticket_id: t,
            ..
        } && t == ticket_id) by {
            assert(invs.drop_first()[i] == invs[i + 1]);
        }
        assert(!(invs[0].call matches Call::CreateGiftClaim { ticket_id: t, .. } && t == ticket_id));
        law_dead_claim_stays_dead(step(s, invs[0]), invs.drop_first(), ticket_id);
    }
}

/// One invocation on a well-formed, initialized contract leaves it well
/// formed and initialized.
proof fn lemma_step_keeps_initialized_well_formed(s: ContractState, inv: Invocation)
    requires
        well_formed(s),
        s.config.admin is Some,
    ensures
        well_formed(step(s, inv)),
        step(s, inv).config.admin is Some,
        step(s, inv).config.next_ticket_id >= s.config.next_ticket_id,
        footprint(s, step(s, inv)),
{
    let x = enter(s, inv);
    let c = inv.call;
    assert(well_formed(x));
    law_settings_change_only_by_their_calls(x, c);
    lemma_call_footprint(x, c);
    if c is Initialize {
        assert(after(x, c) is None);
        lemma_footprint_records_unchanged(s, x);
    } else {
        law_every_call_keeps_the_contract_well_formed(x, c);
        if let Some(x2) = after(x, c) {
            assert(footprint(s, x2)) by {
                assert(x.tickets == s.tickets && x.events == s.events && x.config == s.config);
            }
        } else {
            lemma_footprint_records_unchanged(s, x);
        }
    }
}

/// Ticket ids run in mint order without gaps: on an initialized contract,
/// after any sequence of invocations the tickets minted are exactly those
/// with ids from the next id before to the next id after, one for each id,
/// and none before was lost or replaced by a mint.
pub proof fn law_minted_ids_run_in_order(s: ContractState, invs: Seq<Invocation>)
    requires
        well_formed(s),
        s.config.admin is Some,
    ensures
        well_formed(run(s, invs)),
        run(s, invs).config.next_ticket_id >= s.config.next_ticket_id,
        forall|id: u64|
            s.config.next_ticket_id <= id < run(s, invs).config.next_ticket_id ==> #[trigger] run(
                s,
                invs,
            ).tickets.contains_key(id),
        forall|id: u64|
            #[trigger] run(s, invs).tickets.contains_key(id) ==> (s.tickets.contains_key(id) || s.config.next_ticket_id
                <= id),
        forall|id: u64| #[trigger] s.tickets.contains_key(id) ==> run(s, invs).tickets.contains_key(id),
    decreases invs.len(),
{
    if invs.len() > 0 {
        let s1 = step(s, invs[0]);
        lemma_step_keeps_initialized_well_formed(s, invs[0]);
        lemma_step_mints_without_gaps(s, invs[0]);
        law_minted_ids_run_in_order(s1, invs.drop_first());
        let s2 = run(s1, invs.drop_first());
        assert forall|id: u64| s.config.next_ticket_id <= id < s2.config.next_ticket_id implies #[trigger] s2.tickets.contains_key(id) by {
            if id < s1.config.next_ticket_id {
                assert(s1.tickets.contains_key(id));
            }
        }
        assert forall|id: u64| #[trigger] s2.tickets.contains_key(id) implies (s.tickets.contains_key(id)
            || s.config.next_ticket_id <= id) by {
            if s1.tickets.contains_key(id) && !s.tickets.contains_key(id) {
                assert(freshly_minted(s, s1, id, s1.tickets[id]));
            }
        }
        assert forall|id: u64| #[trigger] s.tickets.contains_key(id) implies s2.tickets.contains_key(id) by {
            assert(s1.tickets.contains_key(id));
        }
    }
}

/// One invocation mints exactly the ids from the next id before it to the
/// next id after it.
proof fn lemma_step_mints_without_gaps(s: ContractState, inv: Invocation)
    requires
        well_formed(s),
        s.config.admin is Some,
    ensures
        forall|id: u64|
            s.config.next_ticket_id <= id < step(s, inv).config.next_ticket_id ==> #[trigger] step(
                s,
                inv,
            ).tickets.contains_key(id),
{
    let x = enter(s, inv);
    lemma_ticket_count(x, inv.call);
    match inv.call {
        Call::AllocateLottery { organizer, event_id, entrants, winner_count, tier, price, order } => {
            let winners = Seq::new(winner_count as nat, |i: int| entrants[order[i] as int]);
            lemma_mint_all_result(x, event_id, winners, tier, price);
            if let Some(x2) = after(x, inv.call) {
                let m = done_state(x.mint_all(event_id, winners, tier, price)).unwrap();
                let ids = x.mint_all(event_id, winners, tier, price)->Done_1;
                assert forall|id: u64| x.config.next_ticket_id <= id < x2.config.next_ticket_id implies #[trigger] x2.tickets.contains_key(id) by {
                    let k = id - x.config.next_ticket_id;
                    assert(ids[k] == id);
                    assert(m.tickets.get(ids[k]) is Some);
                }
            }
        },
        _ => {},
    }
}

/// Revocation is final over any sequence of invocations: on an initialized,
/// well-formed contract a revoked ticket is still there and still revoked
/// after anything that follows, so `law_revoked_ticket_refuses_every_use`
/// holds of it at every later point.
pub proof fn law_revocation_is_final(s: ContractState, invs: Seq<Invocation>, ticket_id: u64)
    requires
        well_formed(s),
        s.config.admin is Some,
        s.tickets.contains_key(ticket_id),
        s.tickets[ticket_id].status == TicketStatus::Revoked,
    ensures
        run(s, invs).tickets.contains_key(ticket_id),
        run(s, invs).tickets[ticket_id].status == TicketStatus::Revoked,
    decreases invs.len(),
{
    if invs.len() > 0 {
        lemma_step_keeps_initialized_well_formed(s, invs[0]);
        law_revoked_ticket_stays_revoked(enter(s, invs[0]), invs[0].call, ticket_id);
        law_revocation_is_final(step(s, invs[0]), invs.drop_first(), ticket_id);
    }
}


/// The moment from which an event's window of `window` seconds before its
/// start is open (the start itself when it is shorter than the window).
pub open spec fn window_opens(starts_at: u64, window: u64) -> int {
    if starts_at >= window {
        starts_at - window
    } else {
        0
    }
}

/// A resale settles wholly in the event's own token: every payment a
/// successful `buy_resale` records (royalty and seller's share alike) is in
/// the event's payment token when it has one, in the contract-wide token
/// otherwise, and is paid by the buyer; the payments before it stay as they
/// were.
pub proof fn law_resale_settles_in_the_events_token(s: ContractState, buyer: AddressView, ticket_id: u64)
    ensures
        s.buy_resale(buyer, ticket_id) matches Transition::Done(s2, _) ==> {
            let e = s.events[s.tickets[ticket_id].event_id];
            let token = match e.payment_token {
                Some(t) => t,
                None => s.config.payment_token.unwrap(),
            };
            &&& s.tickets.contains_key(ticket_id) && s.events.contains_key(s.tickets[ticket_id].event_id)
            &&& e.payment_token is None ==> s.config.payment_token is Some
            &&& s2.payments.len() >= s.payments.len()
            &&& forall|k: int| 0 <= k < s.payments.len() ==> #[trigger] s2.payments[k] == s.payments[k]
            &&& forall|k: int|
                s.payments.len() <= k < s2.payments.len() ==> (#[trigger] s2.payments[k]).token == token
                    && s2.payments[k].from == buyer
        },
{
}

/// No listing after the resale cutoff: once the ledger has reached
/// `resale_cutoff_seconds` before the event's start, listing a ticket of
/// that event fails and buying a listed one fails.
pub proof fn law_no_resale_after_the_cutoff(
    s: ContractState,
    who: AddressView,
    ticket_id: u64,
    price: i128,
)
    requires
        s.tickets.contains_key(ticket_id),
        s.events.contains_key(s.tickets[ticket_id].event_id),
        s.ledger.timestamp >= window_opens(
            s.events[s.tickets[ticket_id].event_id].starts_at,
            s.events[s.tickets[ticket_id].event_id].resale_cutoff_seconds,
        ),
    ensures
        !(s.list_for_resale(who, ticket_id, price) is Done),
        !(s.buy_resale(who, ticket_id) is Done),
{
}

/// `x` still holds the frozen ticket of `s` with its owner, transfer count
/// and event, on the same ledger and event terms, below the next ticket id.
pub open spec fn holds_frozen_ticket(s: ContractState, ticket_id: u64, x: ContractState) -> bool {
    let t = s.tickets[ticket_id];
    &&& x.tickets.contains_key(ticket_id)
    &&& x.tickets[ticket_id].owner == t.owner
    &&& x.tickets[ticket_id].transfers == t.transfers
    &&& x.tickets[ticket_id].event_id == t.event_id
    &&& x.events.contains_key(t.event_id)
    &&& same_terms(x.events[t.event_id], s.events[t.event_id])
    &&& x.ledger == s.ledger
    &&& ticket_id < x.config.next_ticket_id
}

/// The ticket is in its event's transfer-freeze window.
pub open spec fn in_freeze_window(s: ContractState, ticket_id: u64) -> bool {
    &&& s.tickets.contains_key(ticket_id)
    &&& s.events.contains_key(s.tickets[ticket_id].event_id)
    &&& s.ledger.timestamp >= window_opens(
        s.events[s.tickets[ticket_id].event_id].starts_at,
        s.events[s.tickets[ticket_id].event_id].transfer_freeze_seconds,
    )
}

#[verifier::rlimit(40)]
proof fn lemma_frozen_by_single_calls(s: ContractState, c: Call, ticket_id: u64)
    requires
        ids_below_next(s),
        in_freeze_window(s, ticket_id),
        c is TransferTicket || c is ClaimGift || c is CreateGiftClaim || c is CheckIn || c is RevokeTicket
            || c is RevokeWithRefund || c is SetSeat || c is ListForResale || c is CancelResale,
    ensures
        after(s, c) matches Some(s2) ==> holds_frozen_ticket(s, ticket_id, s2),
{
}

#[verifier::rlimit(40)]
proof fn lemma_frozen_by_batches(s: ContractState, c: Call, ticket_id: u64)
    requires
        ids_below_next(s),
        in_freeze_window(s, ticket_id),
        c is TransferBatch || c is CheckInBatch || c is RevokeBatch,
    ensures
        after(s, c) matches Some(s2) ==> holds_frozen_ticket(s, ticket_id, s2),
{
    let p = |x: ContractState| holds_frozen_ticket(s, ticket_id, x);
    assert(p(s));
    match c {
        Call::TransferBatch { from, ticket_ids, to } => {
            assert forall|x: ContractState, id: u64| p(x) implies keeps(p, #[trigger] x.transfer_one_of_batch(from, id, to)) by {}
            lemma_transfer_each_keeps(p, s, from, ticket_ids, to);
        },
        Call::CheckInBatch { organizer, ticket_ids } => {
            assert forall|x: ContractState, id: u64| p(x) implies keeps(p, #[trigger] x.check_in(organizer, id)) by {}
            lemma_check_in_each_keeps(p, s, organizer, ticket_ids);
        },
        Call::RevokeBatch { organizer, ticket_ids } => {
            assert forall|x: ContractState, id: u64| p(x) implies keeps(p, #[trigger] x.revoke_ticket(organizer, id)) by {}
            lemma_revoke_each_keeps(p, s, organizer, ticket_ids);
        },
        _ => {},
    }
}

#[verifier::rlimit(40)]
proof fn lemma_frozen_by_mints(s: ContractState, c: Call, ticket_id: u64)
    requires
        ids_below_next(s),
        in_freeze_window(s, ticket_id),
        c is IssueTicket || c is PurchasePrimary || c is AllocateLottery,
    ensures
        after(s, c) matches Some(s2) ==> holds_frozen_ticket(s, ticket_id, s2),
{
    let p = |x: ContractState| holds_frozen_ticket(s, ticket_id, x);
    assert(p(s));
    match c {
        Call::AllocateLottery { organizer, event_id, entrants, winner_count, tier, price, order } => {
            assert forall|x: ContractState, w: AddressView| p(x) implies keeps(
                p,
                #[trigger] x.mint(event_id, w, tier, "unassigned"@, price),
            ) by {}
            let winners = Seq::new(winner_count as nat, |i: int| entrants[order[i] as int]);
            lemma_mint_all_keeps(p, s, event_id, winners, tier, price);
        },
        _ => {},
    }
}

#[verifier::rlimit(40)]
proof fn lemma_frozen_by_settings_and_events(s: ContractState, c: Call, ticket_id: u64)
    requires
        ids_below_next(s),
        in_freeze_window(s, ticket_id),
        c is Initialize || c is ProposePaymentToken || c is ApplyPaymentToken || c is SetPurchaseThrottle
            || c is CreateEvent || c is EnableEscrow || c is SetEventPaymentToken || c is ReleaseEscrow,
    ensures
        after(s, c) matches Some(s2) ==> s2.tickets == s.tickets,
{
}

/// A ticket in its event's transfer-freeze window keeps its owner and its
/// transfer count under every call but a resale purchase: no direct
/// transfer, batch transfer, gift claim or mint moves it while transfers are
/// frozen.
pub proof fn law_frozen_tickets_stay_with_their_owner(s: ContractState, c: Call, ticket_id: u64)
    requires
        ids_below_next(s),
        s.tickets.contains_key(ticket_id),
        s.events.contains_key(s.tickets[ticket_id].event_id),
        s.ledger.timestamp >= window_opens(
            s.events[s.tickets[ticket_id].event_id].starts_at,
            s.events[s.tickets[ticket_id].event_id].transfer_freeze_seconds,
        ),
        !(c is BuyResale),
    ensures
        after(s, c) matches Some(s2) ==> s2.tickets.contains_key(ticket_id) && s2.tickets[ticket_id].owner
            == s.tickets[ticket_id].owner && s2.tickets[ticket_id].transfers == s.tickets[ticket_id].transfers,
{
    if c is TransferTicket || c is ClaimGift || c is CreateGiftClaim || c is CheckIn || c is RevokeTicket
        || c is RevokeWithRefund || c is SetSeat || c is ListForResale || c is CancelResale {
        lemma_frozen_by_single_calls(s, c, ticket_id);
    } else if c is TransferBatch || c is CheckInBatch || c is RevokeBatch {
        lemma_frozen_by_batches(s, c, ticket_id);
    } else if c is IssueTicket || c is PurchasePrimary || c is AllocateLottery {
        lemma_frozen_by_mints(s, c, ticket_id);
    } else {
        lemma_frozen_by_settings_and_events(s, c, ticket_id);
    }
}

/// The throttle's record of a buyer is that buyer's own latest purchase:
/// there is none exactly when the buyer never bought, and otherwise it is the
/// ledger of a purchase by that buyer after which the buyer bought nothing.
/// Other buyers' purchases do not count.
pub proof fn law_last_purchase_is_the_buyers_own_latest(ps: Seq<(AddressView, u32)>, buyer: AddressView)
    ensures
        crate::model::last_purchase(ps, buyer) is None <==> forall|i: int| 0 <= i < ps.len() ==> (#[trigger] ps[i]).0
            != buyer,
        crate::model::last_purchase(ps, buyer) matches Some(l) ==> exists|i: int|
            0 <= i < ps.len() && #[trigger] ps[i] == (buyer, l) && forall|j: int| i < j < ps.len() ==> (#[trigger] ps[j]).0
                != buyer,
    decreases ps.len(),
{
    if ps.len() > 0 {
        let rest = ps.drop_last();
        law_last_purchase_is_the_buyers_own_latest(rest, buyer);
        let n = ps.len() - 1;
        if ps.last().0 == buyer {
            assert(ps[n] == (buyer, ps.last().1));
        } else {
            assert forall|i: int| 0 <= i < rest.len() implies rest[i] == ps[i] by {}
            if crate::model::last_purchase(rest, buyer) is None {
                assert forall|i: int| 0 <= i < ps.len() implies (#[trigger] ps[i]).0 != buyer by {
                    if i < n {
                        assert(rest[i] == ps[i]);
                    }
                }
            } else {
                let l = crate::model::last_purchase(rest, buyer).unwrap();
                let i = choose|i: int|
                    0 <= i < rest.len() && #[trigger] rest[i] == (buyer, l) && forall|j: int| i < j < rest.len() ==> (#[trigger] rest[j]).0
                        != buyer;
                assert(ps[i] == (buyer, l));
                assert forall|j: int| i < j < ps.len() implies (#[trigger] ps[j]).0 != buyer by {
                    if j < n {
                        assert(rest[j] == ps[j]);
                    }
                }
                assert(exists|k: int| 0 <= k < rest.len() && rest[k].0 == buyer) by {
                    assert(rest[i].0 == buyer);
                }
            }
        }
    }
}

/// A buyer who never bought before is never refused by the throttle, and
/// another buyer's purchase never makes a buyer wait.
pub proof fn law_throttle_waits_only_on_the_buyers_own_purchase(
    s: ContractState,
    buyer: AddressView,
    other: AddressView,
    ledger: u32,
    event_id: u64,
    tier: Seq<char>,
    seat: Seq<char>,
    price: i128,
)
    requires
        buyer != other,
    ensures
        (forall|i: int| 0 <= i < s.purchases.len() ==> (#[trigger] s.purchases[i]).0 != buyer) ==> s.purchase_primary(
            buyer,
            event_id,
            tier,
            seat,
            price,
        ) != Transition::<u64>::Fail(Error::PurchaseTooSoon),
        crate::model::last_purchase(s.purchases.push((other, ledger)), buyer) == crate::model::last_purchase(
            s.purchases,
            buyer,
        ),
{
    law_last_purchase_is_the_buyers_own_latest(s.purchases, buyer);
    assert(s.purchases.push((other, ledger)).drop_last() =~= s.purchases);
}

} // verus!
