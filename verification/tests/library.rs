use stellar_tickets_ticketing::{is_draw_order, Address, ContractEvent, Error, LedgerInfo, TicketStatus, TicketingContract};

fn addr(key: &str) -> Address {
    Address::new(key.to_string())
}

fn text(s: &str) -> String {
    s.to_string()
}

/// A deployed, initialized contract plus the token balances minted to
/// accounts outside of it.
struct World {
    c: TicketingContract,
    token: Address,
    organizer: Address,
    minted: Vec<(Address, Address, i128)>,
}

fn setup() -> World {
    let mut c = TicketingContract::new(addr("CTICKETING"));
    // Every address authorizes its calls, as under the host's mocked authorization.
    c.set_authorizations(None);
    let token = addr("CTOKEN");
    assert_eq!(c.initialize(addr("GADMIN"), token.clone(), Some(7)), Ok(()));
    World { c, token, organizer: addr("GORGANIZER"), minted: Vec::new() }
}

#[allow(dead_code)]
impl World {
    fn mint(&mut self, token: &Address, to: &Address, amount: i128) {
        self.minted.push((token.clone(), to.clone(), amount));
    }

    /// What `who` holds of `token`: what was minted to it, plus what the
    /// contract's settlements paid it, minus what they took from it.
    fn balance(&self, token: &Address, who: &Address) -> i128 {
        let mut total: i128 = 0;
        for (t, to, amount) in &self.minted {
            if t == token && to == who {
                total += amount;
            }
        }
        for p in self.c.payments() {
            if &p.token == token {
                if &p.to == who {
                    total += p.amount;
                }
                if &p.from == who {
                    total -= p.amount;
                }
            }
        }
        total
    }

    fn make_event(&mut self, event_id: u64) {
        self.make_custom_event(event_id, "Radiohead Live", "concert", 12_000, 500, 10_000);
    }

    fn make_custom_event(&mut self, event_id: u64, name: &str, category: &str, max_bps: u32, royalty_bps: u32, starts_at: u64) {
        let organizer = self.organizer.clone();
        assert_eq!(
            self.c.create_event(organizer, event_id, text(name), text(category), max_bps, royalty_bps, starts_at, 100, 200),
            Ok(())
        );
    }

    fn issue(&mut self, event_id: u64, owner: &Address, tier: &str, seat: &str, price: i128) -> u64 {
        let organizer = self.organizer.clone();
        self.c.issue_ticket(organizer, event_id, owner.clone(), text(tier), text(seat), price).unwrap()
    }

    fn issue_sample_ticket(&mut self, event_id: u64, owner: &Address, price: i128) -> u64 {
        self.issue(event_id, owner, "GA", "1", price)
    }

    fn set_timestamp(&mut self, timestamp: u64) {
        let sequence = self.c.ledger().sequence;
        self.c.set_ledger(LedgerInfo { timestamp, sequence });
    }

    fn set_sequence(&mut self, sequence: u32) {
        let timestamp = self.c.ledger().timestamp;
        self.c.set_ledger(LedgerInfo { timestamp, sequence });
    }

    fn status(&self, ticket_id: u64) -> TicketStatus {
        self.c.verify_ticket(ticket_id).unwrap().status
    }
}

/// A host environment for the calls that need one; it writes no snapshot
/// file when dropped.
#[allow(dead_code)]
fn test_env() -> soroban_sdk::Env {
    soroban_sdk::Env::new_with_config(soroban_sdk::testutils::EnvTestConfig { capture_snapshot_at_drop: false })
}

/// A draw order for `len` entrants from the host PRNG, drawn inside a
/// running contract as the deployed contract draws it.
#[allow(dead_code)]
fn host_draw(len: u32) -> Vec<u32> {
    let env = test_env();
    let holder = <soroban_sdk::Address as soroban_sdk::testutils::Address>::generate(&env);
    let running = env.register_stellar_asset_contract_v2(holder).address();
    env.as_contract(&running, || {
        let mut positions = soroban_sdk::Vec::<u32>::new(&env);
        for i in 0..len {
            positions.push_back(i);
        }
        env.prng().shuffle(&mut positions);
        positions.iter().collect()
    })
}

#[allow(dead_code)]
fn sha256_of(env: &soroban_sdk::Env, bytes: &[u8; 32]) -> [u8; 32] {
    env.crypto().sha256(&soroban_sdk::Bytes::from_array(env, bytes)).to_array()
}

// ---- one input for each error the contract returns ----

#[test]
fn initialize_twice_is_refused() {
    let mut w = setup();
    assert_eq!(w.c.initialize(addr("GOTHER"), addr("CTOKEN2"), Some(7)), Err(Error::AlreadyInitialized));
    assert_eq!(w.c.token_decimals(), Ok(7));
}

#[test]
fn initialize_rejects_a_token_without_decimals() {
    let mut c = TicketingContract::new(addr("CTICKETING"));
    c.set_authorizations(None);
    assert_eq!(c.initialize(addr("GADMIN"), addr("CNOTATOKEN"), None), Err(Error::InvalidPaymentToken));
    assert_eq!(c.token_decimals(), Err(Error::NotInitialized));
}

#[test]
fn an_uninitialized_contract_cannot_settle_a_sale() {
    let mut c = TicketingContract::new(addr("CTICKETING"));
    c.set_authorizations(None);
    let org = addr("GORGANIZER");
    assert_eq!(c.create_event(org, 1, text("E"), text("concert"), 12_000, 500, 10_000, 100, 200), Ok(()));
    assert_eq!(c.purchase_primary(addr("GBUYER"), 1, text("GA"), text("1"), 100), Err(Error::NotInitialized));
    assert_eq!(c.event_payment_token(1), Err(Error::NotInitialized));
    assert!(c.tickets().is_empty());
}

#[test]
fn admin_calls_reject_another_caller() {
    let mut w = setup();
    assert_eq!(w.c.set_purchase_throttle(addr("GMALLORY"), 10), Err(Error::NotAdmin));
    assert_eq!(w.c.propose_payment_token(addr("GMALLORY"), addr("CTOKEN2"), Some(6)), Err(Error::NotAdmin));
    assert_eq!(w.c.config().min_purchase_spacing, 0);
}

#[test]
fn payment_token_change_waits_for_the_timelock() {
    let mut w = setup();
    let admin = addr("GADMIN");
    assert_eq!(w.c.apply_payment_token(admin.clone(), Some(6)), Err(Error::NoPendingPaymentToken));
    assert_eq!(w.c.propose_payment_token(admin.clone(), addr("CNOTATOKEN"), None), Err(Error::InvalidPaymentToken));

    w.set_sequence(100);
    assert_eq!(w.c.propose_payment_token(admin.clone(), addr("CTOKEN2"), Some(6)), Ok(()));
    let pending = w.c.config().pending_payment_token.clone().unwrap();
    assert_eq!(pending.apply_after_ledger, 17_380);

    w.set_sequence(17_379);
    assert_eq!(w.c.apply_payment_token(admin.clone(), Some(6)), Err(Error::TimelockNotElapsed));
    assert_eq!(w.c.config().payment_token, Some(addr("CTOKEN")));

    w.set_sequence(17_380);
    assert_eq!(w.c.apply_payment_token(admin, Some(6)), Ok(()));
    assert_eq!(w.c.config().payment_token, Some(addr("CTOKEN2")));
    assert_eq!(w.c.token_decimals(), Ok(6));
    assert!(w.c.config().pending_payment_token.is_none());
}

#[test]
fn purchase_throttle_refuses_a_quick_second_purchase() {
    let mut w = setup();
    w.make_event(1);
    assert_eq!(w.c.set_purchase_throttle(addr("GADMIN"), 10), Ok(()));
    let buyer = addr("GBUYER");
    w.set_sequence(100);
    assert!(w.c.purchase_primary(buyer.clone(), 1, text("GA"), text("1"), 10).is_ok());
    w.set_sequence(109);
    assert_eq!(w.c.purchase_primary(buyer.clone(), 1, text("GA"), text("2"), 10), Err(Error::PurchaseTooSoon));
    w.set_sequence(110);
    assert!(w.c.purchase_primary(buyer, 1, text("GA"), text("2"), 10).is_ok());
    assert_eq!(w.c.get_event(1).unwrap().tickets_issued, 2);
}

#[test]
fn gift_claim_needs_a_future_expiry() {
    let mut w = setup();
    w.make_event(1);
    let owner = addr("GOWNER");
    let ticket_id = w.issue(1, &owner, "GA", "1", 100);
    w.set_timestamp(50);
    assert_eq!(w.c.create_gift_claim(owner, ticket_id, [0u8; 32], 50), Err(Error::InvalidExpiry));
}

#[test]
fn batches_above_the_limit_are_refused_whole() {
    let mut w = setup();
    w.make_event(1);
    let owner = addr("GOWNER");
    let mut ids = Vec::new();
    for i in 0..51u64 {
        let id = w.issue(1, &owner, "GA", "1", 100);
        assert_eq!(id, i);
        ids.push(id);
    }
    assert_eq!(w.c.transfer_batch(owner.clone(), ids.clone(), addr("GFRIEND")), Err(Error::BatchTooLarge));
    assert_eq!(w.c.check_in_batch(w.organizer.clone(), ids.clone()), Err(Error::BatchTooLarge));
    assert_eq!(w.c.revoke_batch(w.organizer.clone(), ids.clone()), Err(Error::BatchTooLarge));
    assert_eq!(w.c.verify_tickets(ids.clone()), Err(Error::BatchTooLarge));
    ids.pop();
    assert_eq!(w.c.verify_tickets(ids).unwrap().len(), 50);
}

#[test]
fn a_failing_batch_changes_nothing() {
    let mut w = setup();
    w.make_event(1);
    let owner = addr("GOWNER");
    let t1 = w.issue(1, &owner, "GA", "1", 100);
    let t2 = w.issue(1, &owner, "GA", "2", 100);
    assert_eq!(w.c.check_in(w.organizer.clone(), t2), Ok(()));
    let published = w.c.published().len();

    assert_eq!(w.c.transfer_batch(owner.clone(), vec![t1, t2], addr("GFRIEND")), Err(Error::AlreadyUsed));
    assert_eq!(w.c.verify_ticket(t1).unwrap().owner, owner);
    assert_eq!(w.c.verify_ticket(t1).unwrap().transfers, 0);

    assert_eq!(w.c.check_in_batch(w.organizer.clone(), vec![t1, t2]), Err(Error::AlreadyUsed));
    assert_eq!(w.status(t1), TicketStatus::Valid);
    assert_eq!(w.c.published().len(), published);

    assert_eq!(w.c.revoke_batch(w.organizer.clone(), vec![t1, 99]), Err(Error::TicketNotFound));
    assert_eq!(w.status(t1), TicketStatus::Valid);
    assert_eq!(w.c.verify_tickets(vec![t1, 99]), Err(Error::TicketNotFound));
}

#[test]
fn error_codes_follow_the_declaration_order() {
    assert_eq!(Error::AlreadyInitialized.code(), 1);
    assert_eq!(Error::TicketNotFound.code(), 5);
    assert_eq!(Error::InvalidLottery.code(), 22);
    assert_eq!(Error::ResalePriceBelowFloor.code(), 34);
}

// ---- laws, on concrete values ----

#[test]
fn revoked_ticket_refuses_every_use() {
    let mut w = setup();
    w.make_event(1);
    let owner = addr("GOWNER");
    let ticket_id = w.issue(1, &owner, "GA", "1", 100);
    assert_eq!(w.c.revoke_ticket(w.organizer.clone(), ticket_id), Ok(()));

    assert_eq!(w.c.transfer_ticket(owner.clone(), ticket_id, addr("GFRIEND")), Err(Error::Revoked));
    assert_eq!(w.c.list_for_resale(owner.clone(), ticket_id, 100), Err(Error::Revoked));
    assert_eq!(w.c.create_gift_claim(owner.clone(), ticket_id, [1u8; 32], 500), Err(Error::Revoked));
    assert_eq!(w.c.check_in(w.organizer.clone(), ticket_id), Err(Error::Revoked));
    assert_eq!(w.c.set_seat(w.organizer.clone(), ticket_id, text("B2")), Err(Error::Revoked));
    assert_eq!(w.c.cancel_resale(owner, ticket_id), Err(Error::NotForResale));
    assert_eq!(w.status(ticket_id), TicketStatus::Revoked);
}

#[test]
fn used_ticket_can_still_be_revoked_but_not_refunded() {
    let mut w = setup();
    w.make_event(1);
    let owner = addr("GOWNER");
    let ticket_id = w.issue(1, &owner, "GA", "1", 100);
    assert_eq!(w.c.check_in(w.organizer.clone(), ticket_id), Ok(()));
    assert_eq!(w.c.revoke_with_refund(w.organizer.clone(), ticket_id, true), Err(Error::AlreadyUsed));
    assert!(w.c.payments().is_empty());
    assert_eq!(w.c.revoke_ticket(w.organizer.clone(), ticket_id), Ok(()));
    assert_eq!(w.status(ticket_id), TicketStatus::Revoked);
}

#[test]
fn a_change_of_owner_clears_listing_and_claim() {
    let mut w = setup();
    w.make_event(1);
    let owner = addr("GOWNER");
    let friend = addr("GFRIEND");
    let ticket_id = w.issue(1, &owner, "GA", "1", 100);
    assert_eq!(w.c.create_gift_claim(owner.clone(), ticket_id, [3u8; 32], 500), Ok(()));
    assert!(w.c.gift_claims().contains_key(&ticket_id));
    assert_eq!(w.c.transfer_ticket(owner, ticket_id, friend.clone()), Ok(()));
    assert!(!w.c.gift_claims().contains_key(&ticket_id));
    let ticket = w.c.verify_ticket(ticket_id).unwrap();
    assert_eq!(ticket.owner, friend);
    assert_eq!(ticket.status, TicketStatus::Valid);
    assert_eq!(ticket.resale_price, 0);
    assert_eq!(ticket.transfers, 1);
}

#[test]
fn resale_payments_add_up_to_the_asking_price() {
    let mut w = setup();
    // 3.33% royalty on 1000: 33 to the organizer (truncated), 967 to the seller
    assert_eq!(w.c.create_event(w.organizer.clone(), 1, text("E"), text("concert"), 12_000, 333, 10_000, 100, 200), Ok(()));
    let seller = addr("GSELLER");
    let buyer = addr("GBUYER");
    let token = w.token.clone();
    let ticket_id = w.issue(1, &seller, "GA", "1", 1_000);
    assert_eq!(w.c.list_for_resale(seller.clone(), ticket_id, 1_000), Ok(()));
    assert_eq!(w.c.buy_resale(buyer.clone(), ticket_id), Ok(()));
    assert_eq!(w.balance(&token, &w.organizer), 33);
    assert_eq!(w.balance(&token, &seller), 967);
    assert_eq!(w.balance(&token, &buyer), -1_000);
}

#[test]
fn full_royalty_pays_the_organizer_everything() {
    let mut w = setup();
    assert_eq!(w.c.create_event(w.organizer.clone(), 1, text("E"), text("concert"), 12_000, 10_000, 10_000, 100, 200), Ok(()));
    let seller = addr("GSELLER");
    let buyer = addr("GBUYER");
    let token = w.token.clone();
    let ticket_id = w.issue(1, &seller, "GA", "1", 1_000);
    assert_eq!(w.c.list_for_resale(seller.clone(), ticket_id, 1_200), Ok(()));
    assert_eq!(w.c.buy_resale(buyer, ticket_id), Ok(()));
    assert_eq!(w.balance(&token, &w.organizer), 1_200);
    assert_eq!(w.balance(&token, &seller), 0);
    assert_eq!(w.c.payments().len(), 1);
}

#[test]
fn issue_mints_consecutive_ids_and_publishes_them() {
    let mut w = setup();
    w.make_event(1);
    let owner = addr("GOWNER");
    let a = w.issue(1, &owner, "GA", "1", 100);
    let b = w.issue(1, &owner, "GA", "2", 100);
    assert_eq!((a, b), (0, 1));
    assert_eq!(w.c.config().next_ticket_id, 2);
    assert_eq!(w.c.published().len(), 3);
    assert_eq!(w.c.published()[2], ContractEvent::TicketIssued { ticket_id: 1, event_id: 1 });
}

#[test]
fn event_ids_are_never_overwritten() {
    let mut w = setup();
    w.make_event(7);
    let before = w.c.get_event(7).unwrap();
    let again = w.c.create_event(addr("GSOMEONE"), 7, text("Other"), text("sports"), 1, 2, 50_000, 0, 0);
    assert_eq!(again, Err(Error::EventAlreadyExists));
    assert_eq!(w.c.get_event(7).unwrap(), before);
}

#[test]
fn escrow_is_released_once_and_only_when_due() {
    let mut w = setup();
    w.make_event(1);
    let org = w.organizer.clone();
    let token = w.token.clone();
    assert_eq!(w.c.enable_escrow(org.clone(), 1, 300), Ok(()));
    w.c.purchase_primary(addr("GBUYER"), 1, text("GA"), text("1"), 700).unwrap();
    w.set_sequence(299);
    assert_eq!(w.c.release_escrow(org.clone(), 1), Err(Error::EventNotEnded));
    w.set_sequence(300);
    assert_eq!(w.c.release_escrow(org.clone(), 1), Ok(()));
    assert_eq!(w.c.release_escrow(org.clone(), 1), Ok(()));
    assert_eq!(w.balance(&token, &org), 700);
    assert_eq!(w.c.payments().len(), 2);
}

#[test]
fn refund_pays_the_owner_the_original_price() {
    let mut w = setup();
    w.make_event(1);
    let org = w.organizer.clone();
    let token = w.token.clone();
    let owner = addr("GOWNER");
    let ticket_id = w.issue(1, &owner, "GA", "1", 450);
    assert_eq!(w.c.revoke_with_refund(org.clone(), ticket_id, true), Ok(()));
    assert_eq!(w.balance(&token, &owner), 450);
    assert_eq!(w.balance(&token, &org), -450);

    let other = w.issue(1, &owner, "GA", "2", 450);
    assert_eq!(w.c.revoke_with_refund(org, other, false), Ok(()));
    assert_eq!(w.c.payments().len(), 1);
}

// ---- the host services, through the public functions that use them ----

#[test]
fn claim_gift_hashes_the_secret_with_the_host() {
    let mut w = setup();
    w.make_event(1);
    let owner = addr("GOWNER");
    let ticket_id = w.issue(1, &owner, "GA", "1", 100);
    let env = test_env();
    let secret = [7u8; 32];
    // Storing the secret itself as the digest must not let the secret through.
    assert_eq!(w.c.create_gift_claim(owner.clone(), ticket_id, secret, 500), Ok(()));
    assert_eq!(w.c.claim_gift(&env, addr("GRECIPIENT"), ticket_id, &secret.to_vec()), Err(Error::InvalidSecret));

    let digest = sha256_of(&env, &secret);
    assert_eq!(w.c.create_gift_claim(owner, ticket_id, digest, 500), Ok(()));
    assert_eq!(w.c.claim_gift_with_digest(addr("GRECIPIENT"), ticket_id, digest), Ok(()));
    assert_eq!(w.c.verify_ticket(ticket_id).unwrap().owner, addr("GRECIPIENT"));
}

#[test]
fn lottery_winners_are_distinct_entrants_in_draw_order() {
    let mut w = setup();
    w.make_event(1);
    let entrants = vec![addr("GA0"), addr("GA1"), addr("GA2"), addr("GA3")];
    let ids = w
        .c
        .allocate_lottery(w.organizer.clone(), 1, entrants.clone(), 2, text("VIP"), 0, &vec![2, 0, 3, 1])
        .unwrap();
    assert_eq!(ids, vec![0, 1]);
    assert_eq!(w.c.get_ticket(0).unwrap().owner, addr("GA2"));
    assert_eq!(w.c.get_ticket(1).unwrap().owner, addr("GA0"));
    assert_eq!(w.c.get_ticket(1).unwrap().seat, "unassigned");

    let order = host_draw(4);
    assert!(is_draw_order(&order, 4));
    let drawn = w.c.allocate_lottery(w.organizer.clone(), 1, entrants.clone(), 4, text("GA"), 5, &order).unwrap();
    assert_eq!(drawn, vec![2, 3, 4, 5]);
    let mut owners: Vec<String> = drawn.iter().map(|id| w.c.get_ticket(*id).unwrap().owner.as_str().to_string()).collect();
    owners.sort();
    assert_eq!(owners, vec!["GA0", "GA1", "GA2", "GA3"]);
    assert_eq!(w.c.get_event(1).unwrap().tickets_issued, 6);
}

#[test]
fn a_ticket_asks_nothing_once_admitted_or_revoked() {
    let mut w = setup();
    w.make_event(1);
    let org = w.organizer.clone();
    let owner = addr("GOWNER");
    let a = w.issue(1, &owner, "GA", "1", 1_000);
    let b = w.issue(1, &owner, "GA", "2", 1_000);
    let c = w.issue(1, &owner, "GA", "3", 1_000);
    for id in [a, b, c] {
        assert_eq!(w.c.list_for_resale(owner.clone(), id, 1_100), Ok(()));
    }
    assert_eq!(w.c.check_in(org.clone(), a), Ok(()));
    assert_eq!(w.c.revoke_ticket(org.clone(), b), Ok(()));
    assert_eq!(w.c.revoke_with_refund(org, c, false), Ok(()));
    let admitted = w.c.verify_ticket(a).unwrap();
    assert_eq!((admitted.status, admitted.resale_price), (TicketStatus::Used, 0));
    for id in [b, c] {
        let revoked = w.c.verify_ticket(id).unwrap();
        assert_eq!((revoked.status, revoked.resale_price), (TicketStatus::Revoked, 0));
    }
}

#[test]
fn draw_orders_list_each_position_once() {
    assert!(is_draw_order(&vec![2, 0, 1], 3));
    assert!(is_draw_order(&vec![], 0));
    assert!(!is_draw_order(&vec![0, 1], 3));
    assert!(!is_draw_order(&vec![0, 0, 1], 3));
    assert!(!is_draw_order(&vec![0, 1, 3], 3));
}

#[test]
fn a_full_transfer_counter_is_reported_only_where_the_host_would_abort() {
    let mut w = setup();
    w.make_event(1);
    let owner = addr("GOWNER");
    let id = w.issue(1, &owner, "GA", "1", 1_000);
    let mut worn = w.c.get_ticket(id).unwrap();
    worn.transfers = u32::MAX;
    w.c.load_ticket(id, worn);
    let friend = addr("GFRIEND");
    assert!(w.c.transfer_ticket_overflows(&owner, id, &friend));
    assert!(w.c.transfer_batch_overflows(&owner, &vec![id], &friend));
    // Someone else's transfer is refused as before, without any overflow.
    assert!(!w.c.transfer_ticket_overflows(&friend, id, &owner));
    assert_eq!(w.c.transfer_ticket(friend.clone(), id, owner.clone()), Err(Error::NotOwner));
    assert!(!w.c.transfer_batch_overflows(&owner, &vec![99, id], &friend));
    assert_eq!(w.c.transfer_batch(owner.clone(), vec![99, id], friend.clone()), Err(Error::TicketNotFound));
    // A gift claim, a listing and a sale of it overflow only where they would succeed.
    assert_eq!(w.c.create_gift_claim(owner.clone(), id, [5u8; 32], 500), Ok(()));
    assert!(w.c.claim_gift_overflows(&friend, id, &[5u8; 32]));
    assert!(!w.c.claim_gift_overflows(&friend, id, &[6u8; 32]));
    assert_eq!(w.c.claim_gift_with_digest(friend.clone(), id, [6u8; 32]), Err(Error::InvalidSecret));
    w.set_timestamp(500);
    assert!(!w.c.claim_gift_overflows(&friend, id, &[5u8; 32]));
    assert!(!w.c.buy_resale_overflows(&friend, id));
    assert!(!w.c.issue_ticket_overflows(&w.organizer, 1, &friend, &text("GA"), &text("2"), 10));
    assert!(!w.c.purchase_primary_overflows(&friend, 1, &text("GA"), &text("2"), 10));
    assert!(!w.c.allocate_lottery_overflows(&w.organizer, 1, &vec![friend.clone()], 1, &text("GA"), 0));
}

#[test]
fn a_second_initialize_changes_nothing() {
    let mut w = setup();
    assert_eq!(w.c.initialize(addr("GMALLORY"), addr("CEVIL"), Some(2)), Err(Error::AlreadyInitialized));
    assert_eq!(w.c.config().admin, Some(addr("GADMIN")));
    assert_eq!(w.c.config().payment_token, Some(addr("CTOKEN")));
    assert_eq!(w.c.token_decimals(), Ok(7));
}

#[test]
fn a_used_up_gift_claim_cannot_be_claimed_again() {
    let mut w = setup();
    w.make_event(1);
    let owner = addr("GOWNER");
    let id = w.issue(1, &owner, "GA", "1", 1_000);
    let env = test_env();
    let secret = [9u8; 32];
    assert_eq!(w.c.create_gift_claim(owner, id, sha256_of(&env, &secret), 500), Ok(()));
    assert_eq!(w.c.claim_gift(&env, addr("GFIRST"), id, &secret.to_vec()), Ok(()));
    assert_eq!(w.c.claim_gift(&env, addr("GSECOND"), id, &secret.to_vec()), Err(Error::GiftClaimNotFound));
    assert_eq!(w.c.verify_ticket(id).unwrap().owner, addr("GFIRST"));
}

#[test]
fn ticket_ids_count_up_across_minting_calls() {
    let mut w = setup();
    w.make_event(1);
    w.make_event(2);
    let buyer = addr("GBUYER");
    assert_eq!(w.issue(1, &buyer, "GA", "1", 10), 0);
    assert_eq!(w.c.purchase_primary(buyer.clone(), 2, text("GA"), text("1"), 0), Ok(1));
    let ids = w.c.allocate_lottery(w.organizer.clone(), 1, vec![addr("GX"), addr("GY")], 2, text("VIP"), 0, &vec![1, 0]);
    assert_eq!(ids, Ok(vec![2, 3]));
    assert_eq!(w.issue(2, &buyer, "GA", "2", 10), 4);
    assert_eq!(w.c.config().next_ticket_id, 5);
}

#[test]
fn an_unauthorized_call_is_refused_before_any_lookup() {
    let mut w = setup();
    w.make_event(1);
    let owner = addr("GOWNER");
    let id = w.issue(1, &owner, "GA", "1", 1_000);
    w.c.set_authorizations(Some(vec![addr("GSOMEONE")]));
    // The same answer for an existing ticket and for one that does not exist.
    assert_eq!(w.c.transfer_ticket(owner.clone(), id, addr("GFRIEND")), Err(Error::NotAuthorized));
    assert_eq!(w.c.transfer_ticket(owner.clone(), 99, addr("GFRIEND")), Err(Error::NotAuthorized));
    assert_eq!(w.c.check_in(w.organizer.clone(), 99), Err(Error::NotAuthorized));
    assert_eq!(w.c.buy_resale(owner.clone(), id), Err(Error::NotAuthorized));
    assert_eq!(w.c.verify_ticket(id).unwrap().owner, owner);
    assert_eq!(Error::NotAuthorized.code(), 0);

    w.c.set_authorizations(Some(vec![owner.clone()]));
    assert_eq!(w.c.transfer_ticket(owner.clone(), 99, addr("GFRIEND")), Err(Error::TicketNotFound));
    assert_eq!(w.c.transfer_ticket(owner, id, addr("GFRIEND")), Ok(()));
}

#[test]
fn admin_calls_check_the_stored_admin_before_authorization() {
    let mut w = setup();
    w.c.set_authorizations(Some(Vec::new()));
    assert_eq!(w.c.set_purchase_throttle(addr("GMALLORY"), 5), Err(Error::NotAdmin));
    assert_eq!(w.c.set_purchase_throttle(addr("GADMIN"), 5), Err(Error::NotAuthorized));
    assert_eq!(w.c.initialize(addr("GADMIN"), addr("CTOKEN"), Some(7)), Err(Error::AlreadyInitialized));
    w.c.set_authorizations(Some(vec![addr("GADMIN")]));
    assert_eq!(w.c.set_purchase_throttle(addr("GADMIN"), 5), Ok(()));

    let mut fresh = TicketingContract::new(addr("CTICKETING"));
    assert_eq!(fresh.initialize(addr("GADMIN"), addr("CTOKEN"), Some(7)), Err(Error::NotAuthorized));
    fresh.set_authorizations(Some(vec![addr("GADMIN")]));
    assert_eq!(fresh.initialize(addr("GADMIN"), addr("CTOKEN"), Some(7)), Ok(()));
}

#[test]
fn try_claim_gift_reports_an_overflowing_claim() {
    let mut w = setup();
    w.make_event(1);
    let owner = addr("GOWNER");
    let id = w.issue(1, &owner, "GA", "1", 1_000);
    let env = test_env();
    let secret = [3u8; 32];
    assert_eq!(w.c.create_gift_claim(owner.clone(), id, sha256_of(&env, &secret), 500), Ok(()));
    let mut worn = w.c.get_ticket(id).unwrap();
    worn.transfers = u32::MAX;
    w.c.load_ticket(id, worn);
    assert_eq!(w.c.try_claim_gift(&env, addr("GFRIEND"), id, &[4u8; 32].to_vec()), Some(Err(Error::InvalidSecret)));
    assert_eq!(w.c.try_claim_gift(&env, addr("GFRIEND"), id, &secret.to_vec()), None);
    assert_eq!(w.c.verify_ticket(id).unwrap().owner, owner);
}
