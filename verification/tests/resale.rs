use stellar_tickets_ticketing::{Address, Error, LedgerInfo, TicketStatus, TicketingContract};

fn addr(key: &str) -> Address {
    Address::new(key.to_string())
}

fn text(s: &str) -> String {
    s.to_string()
}

/// A deployed, initialized contract plus the token balances minted to
/// accounts outside of it.
struct World {
    c: TicketingContract,
    token: Address,
    organizer: Address,
    minted: Vec<(Address, Address, i128)>,
}

fn setup() -> World {
    let mut c = TicketingContract::new(addr("CTICKETING"));
    // Every address authorizes its calls, as under the host's mocked authorization.
    c.set_authorizations(None);
    let token = addr("CTOKEN");
    assert_eq!(c.initialize(addr("GADMIN"), token.clone(), Some(7)), Ok(()));
    World { c, token, organizer: addr("GORGANIZER"), minted: Vec::new() }
}

#[allow(dead_code)]
impl World {
    fn mint(&mut self, token: &Address, to: &Address, amount: i128) {
        self.minted.push((token.clone(), to.clone(), amount));
    }

    /// What `who` holds of `token`: what was minted to it, plus what the
    /// contract's settlements paid it, minus what they took from it.
    fn balance(&self, token: &Address, who: &Address) -> i128 {
        let mut total: i128 = 0;
        for (t, to, amount) in &self.minted {
            if t == token && to == who {
                total += amount;
            }
        }
        for p in self.c.payments() {
            if &p.token == token {
                if &p.to == who {
                    total += p.amount;
                }
                if &p.from == who {
                    total -= p.amount;
                }
            }
        }
        total
    }

    fn make_event(&mut self, event_id: u64) {
        self.make_custom_event(event_id, "Radiohead Live", "concert", 12_000, 500, 10_000);
    }

    fn make_custom_event(&mut self, event_id: u64, name: &str, category: &str, max_bps: u32, royalty_bps: u32, starts_at: u64) {
        let organizer = self.organizer.clone();
        assert_eq!(
            self.c.create_event(organizer, event_id, text(name), text(category), max_bps, royalty_bps, starts_at, 100, 200),
            Ok(())
        );
    }

    fn issue(&mut self, event_id: u64, owner: &Address, tier: &str, seat: &str, price: i128) -> u64 {
        let organizer = self.organizer.clone();
        self.c.issue_ticket(organizer, event_id, owner.clone(), text(tier), text(seat), price).unwrap()
    }

    fn issue_sample_ticket(&mut self, event_id: u64, owner: &Address, price: i128) -> u64 {
        self.issue(event_id, owner, "GA", "1", price)
    }

    fn set_timestamp(&mut self, timestamp: u64) {
        let sequence = self.c.ledger().sequence;
        self.c.set_ledger(LedgerInfo { timestamp, sequence });
    }

    fn set_sequence(&mut self, sequence: u32) {
        let timestamp = self.c.ledger().timestamp;
        self.c.set_ledger(LedgerInfo { timestamp, sequence });
    }

    fn status(&self, ticket_id: u64) -> TicketStatus {
        self.c.verify_ticket(ticket_id).unwrap().status
    }
}

/// A host environment for the calls that need one; it writes no snapshot
/// file when dropped.
#[allow(dead_code)]
fn test_env() -> soroban_sdk::Env {
    soroban_sdk::Env::new_with_config(soroban_sdk::testutils::EnvTestConfig { capture_snapshot_at_drop: false })
}

/// A draw order for `len` entrants from the host PRNG, drawn inside a
/// running contract as the deployed contract draws it.
#[allow(dead_code)]
fn host_draw(len: u32) -> Vec<u32> {
    let env = test_env();
    let holder = <soroban_sdk::Address as soroban_sdk::testutils::Address>::generate(&env);
    let running = env.register_stellar_asset_contract_v2(holder).address();
    env.as_contract(&running, || {
        let mut positions = soroban_sdk::Vec::<u32>::new(&env);
        for i in 0..len {
            positions.push_back(i);
        }
        env.prng().shuffle(&mut positions);
        positions.iter().collect()
    })
}

#[allow(dead_code)]
fn sha256_of(env: &soroban_sdk::Env, bytes: &[u8; 32]) -> [u8; 32] {
    env.crypto().sha256(&soroban_sdk::Bytes::from_array(env, bytes)).to_array()
}

#[test]
fn resale_resale_listing_rejects_prices_above_cap() {
    let mut w = setup();
    w.make_event(1); // cap is 120% of face value
    let buyer = addr("GBUYER");
    let ticket_id = w.issue(1, &buyer, "GA", "unassigned", 1_000);

    assert_eq!(w.c.list_for_resale(buyer.clone(), ticket_id, 1_201), Err(Error::ResalePriceExceedsCap));

    assert_eq!(w.c.list_for_resale(buyer, ticket_id, 1_200), Ok(()));
    let ticket = w.c.verify_ticket(ticket_id).unwrap();
    assert_eq!(ticket.status, TicketStatus::Resale);
    assert_eq!(ticket.resale_price, 1_200);
}

#[test]
fn resale_price_exactly_at_the_face_value_cap_is_allowed() {
    let mut w = setup();
    w.make_event(1);
    let buyer = addr("GBUYER");
    let ticket_id = w.issue(1, &buyer, "GA", "1", 1_000);
    assert_eq!(w.c.list_for_resale(buyer, ticket_id, 1_200), Ok(()));
    assert_eq!(w.status(ticket_id), TicketStatus::Resale);
}

#[test]
fn list_for_resale_rejects_a_zero_price() {
    let mut w = setup();
    w.make_event(1);
    let buyer = addr("GBUYER");
    let ticket_id = w.issue(1, &buyer, "GA", "1", 1_000);
    assert_eq!(w.c.list_for_resale(buyer, ticket_id, 0), Err(Error::InvalidPrice));
}

#[test]
fn resale_list_for_resale_rejects_a_non_owner() {
    let mut w = setup();
    w.make_event(1);
    let owner = addr("GOWNER");
    let not_owner = addr("GNOTOWNER");
    let ticket_id = w.issue(1, &owner, "GA", "1", 1_000);
    assert_eq!(w.c.list_for_resale(not_owner, ticket_id, 1_100), Err(Error::NotOwner));
}

#[test]
fn cancel_resale_returns_a_ticket_to_valid() {
    let mut w = setup();
    w.make_event(1);
    let seller = addr("GSELLER");
    let ticket_id = w.issue(1, &seller, "GA", "1", 1_000);
    assert_eq!(w.c.list_for_resale(seller.clone(), ticket_id, 1_100), Ok(()));
    assert_eq!(w.c.cancel_resale(seller, ticket_id), Ok(()));

    let ticket = w.c.verify_ticket(ticket_id).unwrap();
    assert_eq!(ticket.status, TicketStatus::Valid);
    assert_eq!(ticket.resale_price, 0);
}

#[test]
fn resale_cancel_resale_rejects_a_ticket_that_is_not_listed() {
    let mut w = setup();
    w.make_event(1);
    let owner = addr("GOWNER");
    let ticket_id = w.issue(1, &owner, "GA", "1", 1_000);
    assert_eq!(w.c.cancel_resale(owner, ticket_id), Err(Error::NotForResale));
}

#[test]
fn resale_buy_resale_splits_royalty_and_transfers_ownership() {
    let mut w = setup();
    w.make_event(1); // 5% royalty
    let seller = addr("GSELLER");
    let buyer = addr("GBUYER");
    let token = w.token.clone();
    let ticket_id = w.issue(1, &seller, "GA", "unassigned", 1_000);
    assert_eq!(w.c.list_for_resale(seller.clone(), ticket_id, 1_100), Ok(()));

    w.mint(&token, &buyer, 10_000);
    assert_eq!(w.c.buy_resale(buyer.clone(), ticket_id), Ok(()));

    // 5% of 1100 = 55 to the organizer, 1045 to the seller.
    assert_eq!(w.balance(&token, &w.organizer), 55);
    assert_eq!(w.balance(&token, &seller), 1_045);
    assert_eq!(w.balance(&token, &buyer), 10_000 - 1_100);

    let ticket = w.c.verify_ticket(ticket_id).unwrap();
    assert_eq!(ticket.owner, buyer);
    assert_eq!(ticket.status, TicketStatus::Valid);
    assert_eq!(ticket.resale_price, 0);
}

#[test]
fn buy_resale_does_not_increment_tickets_issued() {
    let mut w = setup();
    w.make_event(1);
    let seller = addr("GSELLER");
    let buyer = addr("GBUYER");
    let token = w.token.clone();
    let ticket_id = w.issue_sample_ticket(1, &seller, 1_000);
    let tickets_issued_before_resale = w.c.get_event(1).unwrap().tickets_issued;

    assert_eq!(w.c.list_for_resale(seller, ticket_id, 1_100), Ok(()));
    w.mint(&token, &buyer, 1_100);
    assert_eq!(w.c.buy_resale(buyer, ticket_id), Ok(()));

    assert_eq!(tickets_issued_before_resale, 1);
    assert_eq!(w.c.get_event(1).unwrap().tickets_issued, tickets_issued_before_resale);
}

#[test]
fn buy_resale_with_zero_royalty_pays_the_seller_in_full() {
    let mut w = setup();
    assert_eq!(
        w.c.create_event(w.organizer.clone(), 1, text("No Royalty Event"), text("concert"), 12_000, 0, 10_000, 100, 200),
        Ok(())
    );
    let seller = addr("GSELLER");
    let buyer = addr("GBUYER");
    let token = w.token.clone();
    let ticket_id = w.issue(1, &seller, "GA", "1", 1_000);
    assert_eq!(w.c.list_for_resale(seller.clone(), ticket_id, 1_100), Ok(()));

    w.mint(&token, &buyer, 10_000);
    assert_eq!(w.c.buy_resale(buyer.clone(), ticket_id), Ok(()));

    assert_eq!(w.balance(&token, &w.organizer), 0);
    assert_eq!(w.balance(&token, &seller), 1_100);
    assert_eq!(w.balance(&token, &buyer), 10_000 - 1_100);
}

#[test]
fn resale_buy_resale_rejects_a_ticket_that_is_not_listed() {
    let mut w = setup();
    w.make_event(1);
    let owner = addr("GOWNER");
    let buyer = addr("GBUYER");
    let token = w.token.clone();
    let ticket_id = w.issue(1, &owner, "GA", "1", 1_000);
    w.mint(&token, &buyer, 10_000);
    assert_eq!(w.c.buy_resale(buyer, ticket_id), Err(Error::NotForResale));
}

#[test]
fn transferring_a_resale_listed_ticket_clears_the_listing_state() {
    let mut w = setup();
    w.make_event(1);
    let seller = addr("GSELLER");
    let friend = addr("GFRIEND");
    let ticket_id = w.issue(1, &seller, "GA", "1", 1_000);
    assert_eq!(w.c.list_for_resale(seller.clone(), ticket_id, 1_100), Ok(()));
    assert_eq!(w.c.transfer_ticket(seller, ticket_id, friend.clone()), Ok(()));

    let ticket = w.c.verify_ticket(ticket_id).unwrap();
    assert_eq!(ticket.status, TicketStatus::Valid);
    assert_eq!(ticket.resale_price, 0);
    assert_eq!(ticket.owner, friend);
}

#[test]
fn resale_listing_invalidates_an_existing_gift_claim() {
    let mut w = setup();
    w.make_event(1);
    let owner = addr("GOWNER");
    let recipient = addr("GRECIPIENT");
    let ticket_id = w.issue(1, &owner, "GA", "1", 1_000);

    let env = test_env();
    let secret = [42u8; 32];
    let secret_hash = sha256_of(&env, &secret);

    assert_eq!(w.c.create_gift_claim(owner.clone(), ticket_id, secret_hash, 5_000), Ok(()));
    assert_eq!(w.c.list_for_resale(owner, ticket_id, 1_100), Ok(()));

    let claim_err = w.c.claim_gift(&env, recipient, ticket_id, &secret.to_vec());
    assert_eq!(claim_err, Err(Error::GiftClaimNotFound));
}

#[test]
fn gift_claim_creation_cancels_an_existing_resale_listing() {
    let mut w = setup();
    w.make_event(1);
    let owner = addr("GOWNER");
    let ticket_id = w.issue(1, &owner, "GA", "1", 1_000);
    assert_eq!(w.c.list_for_resale(owner.clone(), ticket_id, 1_100), Ok(()));

    let env = test_env();
    let secret_hash = sha256_of(&env, &[42u8; 32]);
    assert_eq!(w.c.create_gift_claim(owner, ticket_id, secret_hash, 5_000), Ok(()));

    let ticket = w.c.verify_ticket(ticket_id).unwrap();
    assert_eq!(ticket.status, TicketStatus::Valid);
    assert_eq!(ticket.resale_price, 0);
}

#[test]
fn resale_listing_and_purchase_close_at_cutoff() {
    let mut w = setup();
    // starts_at = 10_000, resale_cutoff_seconds = 200: closed from timestamp 9_800
    w.make_event(1);
    let seller = addr("GSELLER");
    let buyer = addr("GBUYER");
    let token = w.token.clone();
    let ticket_id = w.issue(1, &seller, "GA", "1", 1_000);

    w.set_timestamp(9_799);
    assert_eq!(w.c.list_for_resale(seller, ticket_id, 1_100), Ok(()));

    w.set_timestamp(9_800);
    w.mint(&token, &buyer, 10_000);
    assert_eq!(w.c.buy_resale(buyer, ticket_id), Err(Error::ResaleClosed));
}

#[test]
fn list_for_resale_after_cancel_succeeds_and_allows_purchase() {
    let mut w = setup();
    w.make_event(1);
    let seller = addr("GSELLER");
    let buyer = addr("GBUYER");
    let token = w.token.clone();
    let ticket_id = w.issue(1, &seller, "GA", "unassigned", 1_000);

    assert_eq!(w.c.list_for_resale(seller.clone(), ticket_id, 1_100), Ok(()));
    let ticket_listed = w.c.verify_ticket(ticket_id).unwrap();
    assert_eq!(ticket_listed.status, TicketStatus::Resale);
    assert_eq!(ticket_listed.resale_price, 1_100);

    assert_eq!(w.c.cancel_resale(seller.clone(), ticket_id), Ok(()));
    let ticket_cancelled = w.c.verify_ticket(ticket_id).unwrap();
    assert_eq!(ticket_cancelled.status, TicketStatus::Valid);
    assert_eq!(ticket_cancelled.resale_price, 0);

    assert_eq!(w.c.list_for_resale(seller.clone(), ticket_id, 1_150), Ok(()));
    let ticket_relisted = w.c.verify_ticket(ticket_id).unwrap();
    assert_eq!(ticket_relisted.status, TicketStatus::Resale);
    assert_eq!(ticket_relisted.resale_price, 1_150);

    w.mint(&token, &buyer, 10_000);
    assert_eq!(w.c.buy_resale(buyer.clone(), ticket_id), Ok(()));
    let ticket_bought = w.c.verify_ticket(ticket_id).unwrap();
    assert_eq!(ticket_bought.owner, buyer);
    assert_eq!(ticket_bought.status, TicketStatus::Valid);
    assert_eq!(ticket_bought.resale_price, 0);

    // 5% of 1150 = 57 (truncated) to the organizer, 1093 to the seller
    assert_eq!(w.balance(&token, &w.organizer), 57);
    assert_eq!(w.balance(&token, &seller), 1093);
    assert_eq!(w.balance(&token, &buyer), 10_000 - 1150);
}

#[test]
fn very_large_prices_near_i128_limits() {
    let mut w = setup();
    w.make_event(1);
    let owner = addr("GOWNER");
    let ticket_id = w.issue(1, &owner, "GA", "1", i128::MAX / 2);
    assert_eq!(w.c.verify_ticket(ticket_id).unwrap().original_price, i128::MAX / 2);
    // The cap of this ticket, 120% of `i128::MAX / 2`, does not fit in an
    // i128: the host aborts such a listing, and the library reports it
    // instead of taking the call.
    let price = i128::MAX / 10;
    assert!(w.c.list_for_resale_overflows(&owner, ticket_id, price));

    // A large ticket whose cap fits lists normally.
    let big = w.issue(1, &owner, "GA", "2", i128::MAX / 12_000);
    assert!(!w.c.list_for_resale_overflows(&owner, big, i128::MAX / 12_000));
    assert_eq!(w.c.list_for_resale(owner, big, i128::MAX / 12_000), Ok(()));
}

#[test]
fn buy_resale_where_seller_is_organizer() {
    let mut w = setup();
    w.make_event(1);
    let buyer = addr("GBUYER");
    let org = w.organizer.clone();
    let token = w.token.clone();
    let ticket_id = w.issue(1, &org, "GA", "1", 1000);

    assert_eq!(w.c.list_for_resale(org.clone(), ticket_id, 1100), Ok(()));
    w.mint(&token, &buyer, 10000);
    assert_eq!(w.c.buy_resale(buyer, ticket_id), Ok(()));

    // 55 of royalty plus 1045 as the seller: 1100 in all.
    assert_eq!(w.balance(&token, &org), 1100);
}

#[test]
fn consecutive_resales_of_same_ticket() {
    let mut w = setup();
    w.make_event(1);
    let seller1 = addr("GSELLER1");
    let buyer1 = addr("GBUYER1");
    let buyer2 = addr("GBUYER2");
    let token = w.token.clone();
    let ticket_id = w.issue(1, &seller1, "GA", "1", 1000);

    assert_eq!(w.c.list_for_resale(seller1, ticket_id, 1100), Ok(()));
    w.mint(&token, &buyer1, 10000);
    assert_eq!(w.c.buy_resale(buyer1.clone(), ticket_id), Ok(()));
    let ticket1 = w.c.verify_ticket(ticket_id).unwrap();
    assert_eq!(ticket1.owner, buyer1);
    assert_eq!(ticket1.resale_price, 0);

    assert_eq!(w.c.list_for_resale(buyer1, ticket_id, 1200), Ok(()));
    w.mint(&token, &buyer2, 10000);
    assert_eq!(w.c.buy_resale(buyer2.clone(), ticket_id), Ok(()));
    let ticket2 = w.c.verify_ticket(ticket_id).unwrap();
    assert_eq!(ticket2.owner, buyer2);
    assert_eq!(ticket2.resale_price, 0);
}

#[test]
fn cancel_resale_by_non_owner() {
    let mut w = setup();
    w.make_event(1);
    let owner = addr("GOWNER");
    let non_owner = addr("GNONOWNER");
    let ticket_id = w.issue(1, &owner, "GA", "1", 1000);

    assert_eq!(w.c.list_for_resale(owner, ticket_id, 1100), Ok(()));
    assert_eq!(w.c.cancel_resale(non_owner, ticket_id), Err(Error::NotOwner));
}
