use stellar_tickets_ticketing::{Address, Error, LedgerInfo, TicketStatus, TicketingContract};

fn addr(key: &str) -> Address {
    Address::new(key.to_string())
}

fn text(s: &str) -> String {
    s.to_string()
}

/// A deployed, initialized contract plus the token balances minted to
/// accounts outside of it.
struct World {
    c: TicketingContract,
    token: Address,
    organizer: Address,
    minted: Vec<(Address, Address, i128)>,
}

fn setup() -> World {
    let mut c = TicketingContract::new(addr("CTICKETING"));
    // Every address authorizes its calls, as under the host's mocked authorization.
    c.set_authorizations(None);
    let token = addr("CTOKEN");
    assert_eq!(c.initialize(addr("GADMIN"), token.clone(), Some(7)), Ok(()));
    World { c, token, organizer: addr("GORGANIZER"), minted: Vec::new() }
}

#[allow(dead_code)]
impl World {
    fn mint(&mut self, token: &Address, to: &Address, amount: i128) {
        self.minted.push((token.clone(), to.clone(), amount));
    }

    /// What `who` holds of `token`: what was minted to it, plus what the
    /// contract's settlements paid it, minus what they took from it.
    fn balance(&self, token: &Address, who: &Address) -> i128 {
        let mut total: i128 = 0;
        for (t, to, amount) in &self.minted {
            if t == token && to == who {
                total += amount;
            }
        }
        for p in self.c.payments() {
            if &p.token == token {
                if &p.to == who {
                    total += p.amount;
                }
                if &p.from == who {
                    total -= p.amount;
                }
            }
        }
        total
    }

    fn make_event(&mut self, event_id: u64) {
        self.make_custom_event(event_id, "Radiohead Live", "concert", 12_000, 500, 10_000);
    }

    fn make_custom_event(&mut self, event_id: u64, name: &str, category: &str, max_bps: u32, royalty_bps: u32, starts_at: u64) {
        let organizer = self.organizer.clone();
        assert_eq!(
            self.c.create_event(organizer, event_id, text(name), text(category), max_bps, royalty_bps, starts_at, 100, 200),
            Ok(())
        );
    }

    fn issue(&mut self, event_id: u64, owner: &Address, tier: &str, seat: &str, price: i128) -> u64 {
        let organizer = self.organizer.clone();
        self.c.issue_ticket(organizer, event_id, owner.clone(), text(tier), text(seat), price).unwrap()
    }

    fn issue_sample_ticket(&mut self, event_id: u64, owner: &Address, price: i128) -> u64 {
        self.issue(event_id, owner, "GA", "1", price)
    }

    fn set_timestamp(&mut self, timestamp: u64) {
        let sequence = self.c.ledger().sequence;
        self.c.set_ledger(LedgerInfo { timestamp, sequence });
    }

    fn set_sequence(&mut self, sequence: u32) {
        let timestamp = self.c.ledger().timestamp;
        self.c.set_ledger(LedgerInfo { timestamp, sequence });
    }

    fn status(&self, ticket_id: u64) -> TicketStatus {
        self.c.verify_ticket(ticket_id).unwrap().status
    }
}

/// A host environment for the calls that need one; it writes no snapshot
/// file when dropped.
#[allow(dead_code)]
fn test_env() -> soroban_sdk::Env {
    soroban_sdk::Env::new_with_config(soroban_sdk::testutils::EnvTestConfig { capture_snapshot_at_drop: false })
}

/// A draw order for `len` entrants from the host PRNG, drawn inside a
/// running contract as the deployed contract draws it.
#[allow(dead_code)]
fn host_draw(len: u32) -> Vec<u32> {
    let env = test_env();
    let holder = <soroban_sdk::Address as soroban_sdk::testutils::Address>::generate(&env);
    let running = env.register_stellar_asset_contract_v2(holder).address();
    env.as_contract(&running, || {
        let mut positions = soroban_sdk::Vec::<u32>::new(&env);
        for i in 0..len {
            positions.push_back(i);
        }
        env.prng().shuffle(&mut positions);
        positions.iter().collect()
    })
}

#[allow(dead_code)]
fn sha256_of(env: &soroban_sdk::Env, bytes: &[u8; 32]) -> [u8; 32] {
    env.crypto().sha256(&soroban_sdk::Bytes::from_array(env, bytes)).to_array()
}

fn make_event_with_options(w: &mut World, event_id: u64, min_resale_multiplier_bps: Option<u32>, max_transfers_per_ticket: Option<u32>) {
    let organizer = w.organizer.clone();
    assert_eq!(
        w.c.create_event_with_options(
            organizer,
            event_id,
            text("Controlled Event"),
            text("concert"),
            12_000,
            500,
            10_000,
            100,
            200,
            min_resale_multiplier_bps,
            max_transfers_per_ticket,
        ),
        Ok(())
    );
}

#[test]
fn resale_price_floor_is_enforced_when_configured() {
    let mut w = setup();
    make_event_with_options(&mut w, 1, Some(1_100), None);
    let owner = addr("GOWNER");
    let ticket_id = w.issue(1, &owner, "GA", "A1", 1_000);

    assert_eq!(w.c.list_for_resale(owner.clone(), ticket_id, 1_099), Err(Error::ResalePriceBelowFloor));
    assert_eq!(w.c.list_for_resale(owner, ticket_id, 1_100), Ok(()));
}

#[test]
fn transfer_limit_counts_direct_transfers() {
    let mut w = setup();
    make_event_with_options(&mut w, 1, None, Some(1));
    let owner = addr("GOWNER");
    let friend = addr("GFRIEND");
    let ticket_id = w.issue(1, &owner, "GA", "A1", 1_000);

    assert_eq!(w.c.transfer_ticket(owner, ticket_id, friend.clone()), Ok(()));
    assert_eq!(w.c.verify_ticket(ticket_id).unwrap().transfers, 1);
    assert_eq!(w.c.transfer_ticket(friend, ticket_id, w.organizer.clone()), Err(Error::TransferLimitExceeded));
}

#[test]
fn organizer_can_reassign_a_ticket_seat() {
    let mut w = setup();
    w.make_event(1);
    let owner = addr("GOWNER");
    let ticket_id = w.issue(1, &owner, "VIP", "A1", 1_000);

    assert_eq!(w.c.set_seat(w.organizer.clone(), ticket_id, text("B4")), Ok(()));
    assert_eq!(w.c.verify_ticket(ticket_id).unwrap().seat, "B4");
}
