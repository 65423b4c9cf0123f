//! The text views of the stored collections, and how they follow updates.

use vstd::prelude::*;

use crate::model::{AddressView, ContractEventView, EventView, GiftClaimView, PaymentView, TicketView};
use crate::types::{Address, ContractEvent, Event, GiftClaim, Payment, Ticket};

verus! {

pub open spec fn events_view(m: Map<u64, Event>) -> Map<u64, EventView> {
    m.map_values(|e: Event| e@)
}

pub open spec fn tickets_view(m: Map<u64, Ticket>) -> Map<u64, TicketView> {
    m.map_values(|t: Ticket| t@)
}

pub open spec fn claims_view(m: Map<u64, GiftClaim>) -> Map<u64, GiftClaimView> {
    m.map_values(|c: GiftClaim| c@)
}

pub open spec fn purchases_view(s: Seq<(Address, u32)>) -> Seq<(AddressView, u32)> {
    s.map_values(|p: (Address, u32)| (p.0@, p.1))
}

pub open spec fn payments_view(s: Seq<Payment>) -> Seq<PaymentView> {
    s.map_values(|p: Payment| p@)
}

pub open spec fn published_view(s: Seq<ContractEvent>) -> Seq<ContractEventView> {
    s.map_values(|e: ContractEvent| e@)
}

pub broadcast proof fn lemma_events_insert(m: Map<u64, Event>, k: u64, v: Event)
    ensures
        #[trigger] events_view(m.insert(k, v)) == events_view(m).insert(k, v@),
{
    assert(events_view(m.insert(k, v)) =~= events_view(m).insert(k, v@));
}

pub broadcast proof fn lemma_tickets_insert(m: Map<u64, Ticket>, k: u64, v: Ticket)
    ensures
        #[trigger] tickets_view(m.insert(k, v)) == tickets_view(m).insert(k, v@),
{
    assert(tickets_view(m.insert(k, v)) =~= tickets_view(m).insert(k, v@));
}

pub broadcast proof fn lemma_claims_insert(m: Map<u64, GiftClaim>, k: u64, v: GiftClaim)
    ensures
        #[trigger] claims_view(m.insert(k, v)) == claims_view(m).insert(k, v@),
{
    assert(claims_view(m.insert(k, v)) =~= claims_view(m).insert(k, v@));
}

pub broadcast proof fn lemma_claims_remove(m: Map<u64, GiftClaim>, k: u64)
    ensures
        #[trigger] claims_view(m.remove(k)) == claims_view(m).remove(k),
{
    assert(claims_view(m.remove(k)) =~= claims_view(m).remove(k));
}

pub broadcast proof fn lemma_purchases_push(s: Seq<(Address, u32)>, p: (Address, u32))
    ensures
        #[trigger] purchases_view(s.push(p)) == purchases_view(s).push((p.0@, p.1)),
{
    assert(purchases_view(s.push(p)) =~= purchases_view(s).push((p.0@, p.1)));
}

pub broadcast proof fn lemma_payments_push(s: Seq<Payment>, p: Payment)
    ensures
        #[trigger] payments_view(s.push(p)) == payments_view(s).push(p@),
{
    assert(payments_view(s.push(p)) =~= payments_view(s).push(p@));
}

pub broadcast proof fn lemma_published_push(s: Seq<ContractEvent>, e: ContractEvent)
    ensures
        #[trigger] published_view(s.push(e)) == published_view(s).push(e@),
{
    assert(published_view(s.push(e)) =~= published_view(s).push(e@));
}

pub proof fn lemma_published_prefix(s: Seq<ContractEvent>, n: int)
    requires
        0 <= n <= s.len(),
    ensures
        published_view(s.subrange(0, n)) == published_view(s).subrange(0, n),
{
    assert(published_view(s.subrange(0, n)) =~= published_view(s).subrange(0, n));
}

pub broadcast group group_view_lemmas {
    lemma_events_insert,
    lemma_tickets_insert,
    lemma_claims_insert,
    lemma_claims_remove,
    lemma_purchases_push,
    lemma_payments_push,
    lemma_published_push,
}

} // verus!
