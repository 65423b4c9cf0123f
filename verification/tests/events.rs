use stellar_tickets_ticketing::{Address, Error, LedgerInfo, TicketStatus, TicketingContract};

fn addr(key: &str) -> Address {
    Address::new(key.to_string())
}

fn text(s: &str) -> String {
    s.to_string()
}

/// A deployed, initialized contract plus the token balances minted to
/// accounts outside of it.
struct World {
    c: TicketingContract,
    token: Address,
    organizer: Address,
    minted: Vec<(Address, Address, i128)>,
}

fn setup() -> World {
    let mut c = TicketingContract::new(addr("CTICKETING"));
    // Every address authorizes its calls, as under the host's mocked authorization.
    c.set_authorizations(None);
    let token = addr("CTOKEN");
    assert_eq!(c.initialize(addr("GADMIN"), token.clone(), Some(7)), Ok(()));
    World { c, token, organizer: addr("GORGANIZER"), minted: Vec::new() }
}

#[allow(dead_code)]
impl World {
    fn mint(&mut self, token: &Address, to: &Address, amount: i128) {
        self.minted.push((token.clone(), to.clone(), amount));
    }

    /// What `who` holds of `token`: what was minted to it, plus what the
    /// contract's settlements paid it, minus what they took from it.
    fn balance(&self, token: &Address, who: &Address) -> i128 {
        let mut total: i128 = 0;
        for (t, to, amount) in &self.minted {
            if t == token && to == who {
                total += amount;
            }
        }
        for p in self.c.payments() {
            if &p.token == token {
                if &p.to == who {
                    total += p.amount;
                }
                if &p.from == who {
                    total -= p.amount;
                }
            }
        }
        total
    }

    fn make_event(&mut self, event_id: u64) {
        self.make_custom_event(event_id, "Radiohead Live", "concert", 12_000, 500, 10_000);
    }

    fn make_custom_event(&mut self, event_id: u64, name: &str, category: &str, max_bps: u32, royalty_bps: u32, starts_at: u64) {
        let organizer = self.organizer.clone();
        assert_eq!(
            self.c.create_event(organizer, event_id, text(name), text(category), max_bps, royalty_bps, starts_at, 100, 200),
            Ok(())
        );
    }

    fn issue(&mut self, event_id: u64, owner: &Address, tier: &str, seat: &str, price: i128) -> u64 {
        let organizer = self.organizer.clone();
        self.c.issue_ticket(organizer, event_id, owner.clone(), text(tier), text(seat), price).unwrap()
    }

    fn issue_sample_ticket(&mut self, event_id: u64, owner: &Address, price: i128) -> u64 {
        self.issue(event_id, owner, "GA", "1", price)
    }

    fn set_timestamp(&mut self, timestamp: u64) {
        let sequence = self.c.ledger().sequence;
        self.c.set_ledger(LedgerInfo { timestamp, sequence });
    }

    fn set_sequence(&mut self, sequence: u32) {
        let timestamp = self.c.ledger().timestamp;
        self.c.set_ledger(LedgerInfo { timestamp, sequence });
    }

    fn status(&self, ticket_id: u64) -> TicketStatus {
        self.c.verify_ticket(ticket_id).unwrap().status
    }
}

/// A host environment for the calls that need one; it writes no snapshot
/// file when dropped.
#[allow(dead_code)]
fn test_env() -> soroban_sdk::Env {
    soroban_sdk::Env::new_with_config(soroban_sdk::testutils::EnvTestConfig { capture_snapshot_at_drop: false })
}

/// A draw order for `len` entrants from the host PRNG, drawn inside a
/// running contract as the deployed contract draws it.
#[allow(dead_code)]
fn host_draw(len: u32) -> Vec<u32> {
    let env = test_env();
    let holder = <soroban_sdk::Address as soroban_sdk::testutils::Address>::generate(&env);
    let running = env.register_stellar_asset_contract_v2(holder).address();
    env.as_contract(&running, || {
        let mut positions = soroban_sdk::Vec::<u32>::new(&env);
        for i in 0..len {
            positions.push_back(i);
        }
        env.prng().shuffle(&mut positions);
        positions.iter().collect()
    })
}

#[allow(dead_code)]
fn sha256_of(env: &soroban_sdk::Env, bytes: &[u8; 32]) -> [u8; 32] {
    env.crypto().sha256(&soroban_sdk::Bytes::from_array(env, bytes)).to_array()
}

#[test]
fn get_event_reports_not_found_for_an_unknown_id() {
    let w = setup();
    assert_eq!(w.c.get_event(999), Err(Error::EventNotFound));
}

#[test]
fn create_event_rejects_a_duplicate_event_id() {
    let mut w = setup();
    w.make_event(1);
    let duplicate = w.c.create_event(w.organizer.clone(), 1, text("Other Event"), text("concert"), 10_000, 0, 10_000, 0, 0);
    assert_eq!(duplicate, Err(Error::EventAlreadyExists));
}

#[test]
fn create_event_rejects_a_royalty_above_10_000_bps() {
    let mut w = setup();
    let bad_royalty = w.c.create_event(w.organizer.clone(), 1, text("Event"), text("concert"), 12_000, 10_001, 10_000, 0, 0);
    assert_eq!(bad_royalty, Err(Error::InvalidRoyalty));
}

#[test]
fn create_event_rejects_past_or_current_timestamp() {
    let mut w = setup();
    w.set_timestamp(1_000);

    let in_the_past = w.c.create_event(w.organizer.clone(), 1, text("Past Event"), text("concert"), 10_000, 0, 999, 0, 0);
    assert_eq!(in_the_past, Err(Error::InvalidEventTime));

    let right_now = w.c.create_event(w.organizer.clone(), 2, text("Now Event"), text("concert"), 10_000, 0, 1_000, 0, 0);
    assert_eq!(right_now, Err(Error::InvalidEventTime));
}

#[test]
fn organizer_can_run_multiple_independent_events() {
    let mut w = setup();
    w.make_event(1);
    w.make_event(2);
    let buyer = addr("GBUYER");
    w.issue(1, &buyer, "GA", "A1", 1_000);

    assert_eq!(w.c.get_event(1).unwrap().tickets_issued, 1);
    assert_eq!(w.c.get_event(2).unwrap().tickets_issued, 0);
}

#[test]
fn events_with_identical_names_have_independent_state() {
    let mut w = setup();
    let org = w.organizer.clone();
    let event_name = "Summer Music Festival 2026";
    let category = "concert";

    assert_eq!(w.c.create_event(org.clone(), 101, text(event_name), text(category), 12_000, 500, 10_000, 100, 200), Ok(()));
    assert_eq!(w.c.create_event(org.clone(), 102, text(event_name), text(category), 15_000, 1_000, 20_000, 150, 300), Ok(()));

    let event1 = w.c.get_event(101).unwrap();
    let event2 = w.c.get_event(102).unwrap();
    assert_eq!(event1.name, event2.name);
    assert_eq!(event1.category, event2.category);
    assert_ne!(event1.starts_at, event2.starts_at);
    assert_ne!(event1.max_resale_multiplier_bps, event2.max_resale_multiplier_bps);
    assert_ne!(event1.royalty_bps, event2.royalty_bps);

    let buyer1 = addr("GBUYER1");
    let buyer2 = addr("GBUYER2");
    let ticket1 = w.issue(101, &buyer1, "VIP", "Row 1", 10_000);
    let ticket2 = w.issue(102, &buyer2, "GA", "Standing", 5_000);

    assert_eq!(w.c.get_event(101).unwrap().tickets_issued, 1);
    assert_eq!(w.c.get_event(102).unwrap().tickets_issued, 1);

    assert_eq!(w.c.check_in(org, ticket1), Ok(()));
    assert_eq!(w.status(ticket1), TicketStatus::Used);
    assert_eq!(w.status(ticket2), TicketStatus::Valid);
}

#[test]
fn events_and_tickets_with_unicode_names_and_categories() {
    let mut w = setup();
    let unicode_name = "東京ライブ 2026 🎵 (Tokyo Live)";
    let unicode_category = "音楽・コンサート / Festival ✨";
    assert_eq!(
        w.c.create_event(w.organizer.clone(), 200, text(unicode_name), text(unicode_category), 12_000, 500, 10_000, 100, 200),
        Ok(())
    );

    let event = w.c.get_event(200).unwrap();
    assert_eq!(event.name, unicode_name);
    assert_eq!(event.category, unicode_category);

    let buyer = addr("GBUYER");
    let unicode_tier = "特別席 🌟 VIP";
    let unicode_seat = "中央列-12番 🎟️";
    let ticket_id = w.issue(200, &buyer, unicode_tier, unicode_seat, 8_888);

    let ticket = w.c.verify_ticket(ticket_id).unwrap();
    assert_eq!(ticket.tier, unicode_tier);
    assert_eq!(ticket.seat, unicode_seat);
    assert_eq!(ticket.owner, buyer);
    assert_eq!(ticket.status, TicketStatus::Valid);
}

#[test]
fn lottery_allocates_requested_number_of_tickets() {
    let mut w = setup();
    w.make_event(1);
    let entrants = vec![addr("GENTRANT1"), addr("GENTRANT2"), addr("GENTRANT3")];
    let order = host_draw(3);
    let winners = w.c.allocate_lottery(w.organizer.clone(), 1, entrants.clone(), 2, text("VIP"), 0, &order).unwrap();
    assert_eq!(winners.len(), 2);
    assert_eq!(w.c.get_event(1).unwrap().tickets_issued, 2);

    let first = w.c.get_ticket(winners[0]).unwrap().owner;
    let second = w.c.get_ticket(winners[1]).unwrap().owner;
    assert_ne!(first, second);
    assert!(entrants.contains(&first) && entrants.contains(&second));
}

#[test]
fn lottery_rejects_more_winners_than_entrants() {
    let mut w = setup();
    w.make_event(1);
    let result = w.c.allocate_lottery(w.organizer.clone(), 1, vec![addr("GENTRANT")], 2, text("VIP"), 0, &vec![0]);
    assert_eq!(result, Err(Error::InvalidLottery));
}

#[test]
fn lottery_rejects_duplicate_entrants() {
    let mut w = setup();
    w.make_event(1);
    let dup = addr("GDUP");
    let result = w.c.allocate_lottery(w.organizer.clone(), 1, vec![dup.clone(), dup], 1, text("VIP"), 0, &vec![1, 0]);
    assert_eq!(result, Err(Error::InvalidLottery));
}

#[test]
fn escrowed_primary_sale_holds_funds_in_the_contract() {
    let mut w = setup();
    w.make_event(1);
    assert_eq!(w.c.enable_escrow(w.organizer.clone(), 1, 500), Ok(()));

    let buyer = addr("GBUYER");
    let token = w.token.clone();
    w.mint(&token, &buyer, 10_000);
    w.c.purchase_primary(buyer, 1, text("GA"), text("1"), 2_000).unwrap();

    assert_eq!(w.c.get_event(1).unwrap().escrow_balance, 2_000);
    assert_eq!(w.balance(&token, &w.organizer), 0);
    assert_eq!(w.balance(&token, w.c.contract_address()), 2_000);
}

#[test]
fn release_escrow_rejects_before_the_event_ends() {
    let mut w = setup();
    w.make_event(1);
    assert_eq!(w.c.enable_escrow(w.organizer.clone(), 1, 500), Ok(()));
    let buyer = addr("GBUYER");
    let token = w.token.clone();
    w.mint(&token, &buyer, 10_000);
    w.c.purchase_primary(buyer, 1, text("GA"), text("1"), 2_000).unwrap();

    w.set_sequence(499);
    assert_eq!(w.c.release_escrow(w.organizer.clone(), 1), Err(Error::EventNotEnded));
}

#[test]
fn release_escrow_pays_the_organizer_after_the_event_ends() {
    let mut w = setup();
    w.make_event(1);
    assert_eq!(w.c.enable_escrow(w.organizer.clone(), 1, 500), Ok(()));
    let buyer = addr("GBUYER");
    let token = w.token.clone();
    w.mint(&token, &buyer, 10_000);
    w.c.purchase_primary(buyer, 1, text("GA"), text("1"), 2_000).unwrap();

    w.set_sequence(500);
    assert_eq!(w.c.release_escrow(w.organizer.clone(), 1), Ok(()));

    assert_eq!(w.balance(&token, &w.organizer), 2_000);
    assert_eq!(w.balance(&token, w.c.contract_address()), 0);
    assert_eq!(w.c.get_event(1).unwrap().escrow_balance, 0);
}

#[test]
fn release_escrow_rejects_a_non_escrow_event() {
    let mut w = setup();
    w.make_event(1);
    assert_eq!(w.c.release_escrow(w.organizer.clone(), 1), Err(Error::EscrowNotEnabled));
}

#[test]
fn enable_escrow_rejects_once_tickets_have_been_sold() {
    let mut w = setup();
    w.make_event(1);
    let buyer = addr("GBUYER");
    w.issue(1, &buyer, "GA", "1", 1_000);
    assert_eq!(w.c.enable_escrow(w.organizer.clone(), 1, 500), Err(Error::EventAlreadyStarted));
}

#[test]
fn per_event_payment_token_routes_settlement() {
    let mut w = setup();
    w.make_event(1);
    let token2 = addr("CTOKEN2");
    assert_eq!(w.c.set_event_payment_token(w.organizer.clone(), 1, Some(token2.clone()), Some(7)), Ok(()));
    assert_eq!(w.c.event_payment_token(1), Ok(token2.clone()));

    let buyer = addr("GBUYER");
    w.mint(&token2, &buyer, 5_000);
    w.c.purchase_primary(buyer.clone(), 1, text("GA"), text("1"), 2_000).unwrap();

    assert_eq!(w.balance(&token2, &w.organizer), 2_000);
    assert_eq!(w.balance(&token2, &buyer), 3_000);
}

#[test]
fn per_event_payment_token_rejects_change_after_tickets_issued() {
    let mut w = setup();
    w.make_event(1);
    let buyer = addr("GBUYER");
    w.issue(1, &buyer, "GA", "1", 1_000);

    let token2 = addr("CTOKEN2");
    let err = w.c.set_event_payment_token(w.organizer.clone(), 1, Some(token2), Some(7));
    assert_eq!(err, Err(Error::TicketsAlreadyIssued));
}

#[test]
fn create_event_accepts_a_royalty_of_exactly_10_000_bps() {
    let mut w = setup();
    assert_eq!(w.c.create_event(w.organizer.clone(), 1, text("Event"), text("concert"), 12_000, 10_000, 10_000, 0, 0), Ok(()));
    assert_eq!(w.c.get_event(1).unwrap().royalty_bps, 10_000);
}

#[test]
fn zero_max_resale_multiplier_event_is_created_but_blocks_all_resale() {
    let mut w = setup();
    w.make_custom_event(1, "Event", "concert", 0, 500, 10_000);
    assert_eq!(w.c.get_event(1).unwrap().max_resale_multiplier_bps, 0);

    let buyer = addr("GBUYER");
    let ticket_id = w.issue(1, &buyer, "GA", "1", 1_000);
    assert_eq!(w.c.list_for_resale(buyer, ticket_id, 1), Err(Error::ResalePriceExceedsCap));
    assert_eq!(w.status(ticket_id), TicketStatus::Valid);
}
