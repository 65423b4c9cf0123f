use vstd::prelude::*;

use crate::model::{
    ConfigView, ContractEventView, EventView, GiftClaimView, PaymentView, PendingTokenView, TicketView,
};

verus! {

/// Denominator of every basis-point ratio (10 000 bps is 100%).
pub const BPS_DENOMINATOR: i128 = 10_000;

/// Denominator of the resale floor ratio: the floor is counted in tenths of a
/// percent of the original price (1 000 is 100%).
pub const FLOOR_DENOMINATOR: i128 = 1_000;

/// Upper bound on the number of ids handled by one batch call.
pub const MAX_BATCH_SIZE: u32 = 50;

/// Ledgers that must pass between proposing and applying a payment token change.
pub const PAYMENT_TOKEN_CHANGE_DELAY_LEDGERS: u32 = 17_280;

/// Lifecycle status of a ticket.
#[derive(Copy, Clone, Debug, PartialEq, Eq, Structural)]
pub enum TicketStatus {
    /// Usable for entry and transfer.
    Valid,
    /// Admitted at the venue entrance; no longer usable.
    Used,
    /// Voided by the organizer; permanently unusable.
    Revoked,
    /// Listed on the resale marketplace.
    Resale,
}

/// A Stellar account or contract address, held as its strkey text.
#[derive(Debug, PartialEq, Eq)]
pub struct Address {
    key: String,
}

impl View for Address {
    type V = Seq<char>;

    closed spec fn view(&self) -> Seq<char> {
        self.key@
    }
}

impl Clone for Address {
    fn clone(&self) -> (r: Self)
        ensures
            r == *self,
    {
        Address { key: self.key.clone() }
    }
}

impl Address {
    /// Wraps a strkey (`G...` for accounts, `C...` for contracts).
    pub fn new(key: String) -> (r: Self)
        ensures
            r@ == key@,
    {
        Address { key }
    }

    /// The strkey text of this address.
    pub fn as_str(&self) -> (r: &str)
        ensures
            r@ == self@,
    {
        self.key.as_str()
    }

    /// Whether both values name the same address.
    pub fn same_as(&self, other: &Address) -> (r: bool)
        ensures
            r == (self@ == other@),
    {
        self.key == other.key
    }
}

/// Copies an optional address, keeping it equal to the original.
pub fn clone_opt_address(a: &Option<Address>) -> (r: Option<Address>)
    ensures
        r == *a,
{
    match a {
        Some(x) => Some(x.clone()),
        None => None,
    }
}

/// An event, route, or showing registered by an organizer.
#[derive(Debug, PartialEq, Eq)]
pub struct Event {
    /// Address of the event organizer, the only account allowed to issue
    /// tickets, admit them, revoke them, and enable escrow.
    pub organizer: Address,
    /// Display name of the event.
    pub name: String,
    /// Category such as "concert", "flight", "sports", "conference", etc.
    pub category: String,
    /// Basis points cap on resale price relative to original sale price
    /// (e.g. 12000 = 120%).
    pub max_resale_multiplier_bps: u32,
    /// Optional floor on resale price relative to original price, in tenths
    /// of a percent: the floor is `original_price * floor / 1 000` (e.g. 1100
    /// asks at least 110% of the original price).
    pub min_resale_multiplier_bps: Option<u32>,
    /// Optional maximum number of ownership transfers for tickets in this event.
    pub max_transfers_per_ticket: Option<u32>,
    /// Basis points of every resale price paid to the organizer as royalty.
    pub royalty_bps: u32,
    /// Number of tickets issued for the event so far.
    pub tickets_issued: u64,
    /// Ledger timestamp at which the event starts.
    pub starts_at: u64,
    /// Seconds before `starts_at` after which direct transfers are frozen.
    pub transfer_freeze_seconds: u64,
    /// Seconds before `starts_at` after which resale listings are closed.
    pub resale_cutoff_seconds: u64,
    /// When true, primary sale proceeds are held by the contract until
    /// `escrow_release_ledger`.
    pub escrow_enabled: bool,
    /// Ledger sequence after which escrowed proceeds may be released.
    pub escrow_release_ledger: u32,
    /// Primary sale proceeds currently held in escrow for this event.
    pub escrow_balance: i128,
    /// Per-event accepted payment token; `None` means the contract-wide token.
    pub payment_token: Option<Address>,
}

impl Clone for Event {
    fn clone(&self) -> (r: Self)
        ensures
            r == *self,
    {
        Event {
            organizer: self.organizer.clone(),
            name: self.name.clone(),
            category: self.category.clone(),
            max_resale_multiplier_bps: self.max_resale_multiplier_bps,
            min_resale_multiplier_bps: self.min_resale_multiplier_bps,
            max_transfers_per_ticket: self.max_transfers_per_ticket,
            royalty_bps: self.royalty_bps,
            tickets_issued: self.tickets_issued,
            starts_at: self.starts_at,
            transfer_freeze_seconds: self.transfer_freeze_seconds,
            resale_cutoff_seconds: self.resale_cutoff_seconds,
            escrow_enabled: self.escrow_enabled,
            escrow_release_ledger: self.escrow_release_ledger,
            escrow_balance: self.escrow_balance,
            payment_token: clone_opt_address(&self.payment_token),
        }
    }
}

/// A ticket minted for an event.
#[derive(Debug, PartialEq, Eq)]
pub struct Ticket {
    /// Id of the event this ticket admits entry to.
    pub event_id: u64,
    /// Current owner of the ticket.
    pub owner: Address,
    /// Ticket tier name, e.g. "VIP" or "GA".
    pub tier: String,
    /// Assigned seat, or "unassigned" for general admission.
    pub seat: String,
    /// Current lifecycle status of the ticket.
    pub status: TicketStatus,
    /// Price paid at primary sale; used for resale caps and refunds.
    pub original_price: i128,
    /// Asking price while the ticket is listed for resale; 0 otherwise.
    pub resale_price: i128,
    /// Number of ownership transfers completed for this ticket.
    pub transfers: u32,
}

impl Clone for Ticket {
    fn clone(&self) -> (r: Self)
        ensures
            r == *self,
    {
        Ticket {
            event_id: self.event_id,
            owner: self.owner.clone(),
            tier: self.tier.clone(),
            seat: self.seat.clone(),
            status: self.status,
            original_price: self.original_price,
            resale_price: self.resale_price,
            transfers: self.transfers,
        }
    }
}

/// A pending gift-claim link for a ticket.
#[derive(Debug, PartialEq, Eq)]
pub struct GiftClaim {
    /// Owner the ticket must still belong to when the claim is accepted.
    pub from: Address,
    /// SHA-256 digest of the claim secret; the preimage is shared off-chain.
    pub secret_hash: [u8; 32],
    /// Ledger timestamp after which the claim can no longer be accepted.
    pub expires_at: u64,
}

impl Clone for GiftClaim {
    fn clone(&self) -> (r: Self)
        ensures
            r == *self,
    {
        GiftClaim { from: self.from.clone(), secret_hash: self.secret_hash, expires_at: self.expires_at }
    }
}

/// A payment token change that has been proposed but not yet applied.
#[derive(Debug, PartialEq, Eq)]
pub struct PendingPaymentToken {
    /// Token contract address proposed as the new payment token.
    pub token: Address,
    /// Ledger sequence after which the change may be applied.
    pub apply_after_ledger: u32,
}

impl Clone for PendingPaymentToken {
    fn clone(&self) -> (r: Self)
        ensures
            r == *self,
    {
        PendingPaymentToken { token: self.token.clone(), apply_after_ledger: self.apply_after_ledger }
    }
}

/// The ledger values the contract reads: close time and sequence number.
#[derive(Copy, Clone, Debug, PartialEq, Eq, Structural)]
pub struct LedgerInfo {
    /// Ledger close timestamp, in seconds.
    pub timestamp: u64,
    /// Ledger sequence number.
    pub sequence: u32,
}

/// Contract-wide settings (the contract's instance storage).
#[derive(Debug, PartialEq, Eq)]
pub struct Config {
    /// Contract admin address; `None` until initialization.
    pub admin: Option<Address>,
    /// Contract-wide payment token.
    pub payment_token: Option<Address>,
    /// Decimals of the active payment token, cached for client display.
    pub token_decimals: Option<u32>,
    /// Timelocked payment token change awaiting application.
    pub pending_payment_token: Option<PendingPaymentToken>,
    /// Id the next minted ticket receives.
    pub next_ticket_id: u64,
    /// Minimum ledger spacing enforced between a buyer's primary purchases
    /// (0 disables the throttle).
    pub min_purchase_spacing: u32,
}

impl Config {
    /// The settings of a contract that has never been configured.
    pub fn new() -> (r: Self)
        ensures
            r == Config::empty(),
    {
        Config {
            admin: None,
            payment_token: None,
            token_decimals: None,
            pending_payment_token: None,
            next_ticket_id: 0,
            min_purchase_spacing: 0,
        }
    }

    /// The settings of a contract that has never been configured.
    pub open spec fn empty() -> Config {
        Config {
            admin: None,
            payment_token: None,
            token_decimals: None,
            pending_payment_token: None,
            next_ticket_id: 0,
            min_purchase_spacing: 0,
        }
    }
}

impl Clone for Config {
    fn clone(&self) -> (r: Self)
        ensures
            r == *self,
    {
        Config {
            admin: clone_opt_address(&self.admin),
            payment_token: clone_opt_address(&self.payment_token),
            token_decimals: self.token_decimals,
            pending_payment_token: match &self.pending_payment_token {
                Some(p) => Some(p.clone()),
                None => None,
            },
            next_ticket_id: self.next_ticket_id,
            min_purchase_spacing: self.min_purchase_spacing,
        }
    }
}

/// A token transfer the contract settles: `amount` of `token` from `from` to `to`.
#[derive(Debug, PartialEq, Eq)]
pub struct Payment {
    /// Token contract the amount is denominated in.
    pub token: Address,
    /// Payer.
    pub from: Address,
    /// Payee.
    pub to: Address,
    /// Amount in the token's smallest unit.
    pub amount: i128,
}

impl Clone for Payment {
    fn clone(&self) -> (r: Self)
        ensures
            r == *self,
    {
        Payment { token: self.token.clone(), from: self.from.clone(), to: self.to.clone(), amount: self.amount }
    }
}

/// A contract event published for off-chain listeners.
#[derive(Debug, PartialEq, Eq)]
pub enum ContractEvent {
    /// The contract was initialized.
    ContractInitialized { admin: Address, payment_token: Address },
    /// A payment token change was proposed.
    PaymentTokenProposed { admin: Address, new_token: Address, apply_after_ledger: u32 },
    /// A proposed payment token change was applied.
    PaymentTokenChanged { admin: Address, old_token: Address, new_token: Address },
    /// The primary purchase throttle was changed.
    PurchaseThrottleUpdated { admin: Address, min_ledger_spacing: u32 },
    /// A ticket was admitted at the venue entrance.
    TicketCheckedIn { ticket_id: u64, organizer: Address },
    /// A ticket was minted.
    TicketIssued { ticket_id: u64, event_id: u64 },
}

impl Clone for ContractEvent {
    fn clone(&self) -> (r: Self)
        ensures
            r == *self,
    {
        match self {
            ContractEvent::ContractInitialized { admin, payment_token } =>
                ContractEvent::ContractInitialized { admin: admin.clone(), payment_token: payment_token.clone() },
            ContractEvent::PaymentTokenProposed { admin, new_token, apply_after_ledger } =>
                ContractEvent::PaymentTokenProposed {
                    admin: admin.clone(),
                    new_token: new_token.clone(),
                    apply_after_ledger: *apply_after_ledger,
                },
            ContractEvent::PaymentTokenChanged { admin, old_token, new_token } =>
                ContractEvent::PaymentTokenChanged {
                    admin: admin.clone(),
                    old_token: old_token.clone(),
                    new_token: new_token.clone(),
                },
            ContractEvent::PurchaseThrottleUpdated { admin, min_ledger_spacing } =>
                ContractEvent::PurchaseThrottleUpdated { admin: admin.clone(), min_ledger_spacing: *min_ledger_spacing },
            ContractEvent::TicketCheckedIn { ticket_id, organizer } =>
                ContractEvent::TicketCheckedIn { ticket_id: *ticket_id, organizer: organizer.clone() },
            ContractEvent::TicketIssued { ticket_id, event_id } =>
                ContractEvent::TicketIssued { ticket_id: *ticket_id, event_id: *event_id },
        }
    }
}

/// The texts of a list of addresses.
pub open spec fn addresses_view(s: Seq<Address>) -> Seq<Seq<char>> {
    s.map_values(|a: Address| a@)
}

/// The text of an optional address.
pub open spec fn opt_view(a: Option<Address>) -> Option<Seq<char>> {
    match a {
        Some(x) => Some(x@),
        None => None,
    }
}

impl View for Event {
    type V = EventView;

    open spec fn view(&self) -> EventView {
        EventView {
            organizer: self.organizer@,
            name: self.name@,
            category: self.category@,
            max_resale_multiplier_bps: self.max_resale_multiplier_bps,
            min_resale_multiplier_bps: self.min_resale_multiplier_bps,
            max_transfers_per_ticket: self.max_transfers_per_ticket,
            royalty_bps: self.royalty_bps,
            tickets_issued: self.tickets_issued,
            starts_at: self.starts_at,
            transfer_freeze_seconds: self.transfer_freeze_seconds,
            resale_cutoff_seconds: self.resale_cutoff_seconds,
            escrow_enabled: self.escrow_enabled,
            escrow_release_ledger: self.escrow_release_ledger,
            escrow_balance: self.escrow_balance,
            payment_token: opt_view(self.payment_token),
        }
    }
}

impl View for Ticket {
    type V = TicketView;

    open spec fn view(&self) -> TicketView {
        TicketView {
            event_id: self.event_id,
            owner: self.owner@,
            tier: self.tier@,
            seat: self.seat@,
            status: self.status,
            original_price: self.original_price,
            resale_price: self.resale_price,
            transfers: self.transfers,
        }
    }
}

impl View for GiftClaim {
    type V = GiftClaimView;

    open spec fn view(&self) -> GiftClaimView {
        GiftClaimView { from: self.from@, secret_hash: self.secret_hash@, expires_at: self.expires_at }
    }
}

impl View for PendingPaymentToken {
    type V = PendingTokenView;

    open spec fn view(&self) -> PendingTokenView {
        PendingTokenView { token: self.token@, apply_after_ledger: self.apply_after_ledger }
    }
}

impl View for Config {
    type V = ConfigView;

    open spec fn view(&self) -> ConfigView {
        ConfigView {
            admin: opt_view(self.admin),
            payment_token: opt_view(self.payment_token),
            token_decimals: self.token_decimals,
            pending_payment_token: match self.pending_payment_token {
                Some(p) => Some(p@),
                None => None,
            },
            next_ticket_id: self.next_ticket_id,
            min_purchase_spacing: self.min_purchase_spacing,
        }
    }
}

impl View for Payment {
    type V = PaymentView;

    open spec fn view(&self) -> PaymentView {
        PaymentView { token: self.token@, from: self.from@, to: self.to@, amount: self.amount }
    }
}

impl View for ContractEvent {
    type V = ContractEventView;

    open spec fn view(&self) -> ContractEventView {
        match self {
            ContractEvent::ContractInitialized { admin, payment_token } =>
                ContractEventView::ContractInitialized { admin: admin@, payment_token: payment_token@ },
            ContractEvent::PaymentTokenProposed { admin, new_token, apply_after_ledger } =>
                ContractEventView::PaymentTokenProposed {
                    admin: admin@,
                    new_token: new_token@,
                    apply_after_ledger: *apply_after_ledger,
                },
            ContractEvent::PaymentTokenChanged { admin, old_token, new_token } =>
                ContractEventView::PaymentTokenChanged { admin: admin@, old_token: old_token@, new_token: new_token@ },
            ContractEvent::PurchaseThrottleUpdated { admin, min_ledger_spacing } =>
                ContractEventView::PurchaseThrottleUpdated { admin: admin@, min_ledger_spacing: *min_ledger_spacing },
            ContractEvent::TicketCheckedIn { ticket_id, organizer } =>
                ContractEventView::TicketCheckedIn { ticket_id: *ticket_id, organizer: organizer@ },
            ContractEvent::TicketIssued { ticket_id, event_id } =>
                ContractEventView::TicketIssued { ticket_id: *ticket_id, event_id: *event_id },
        }
    }
}

} // verus!
