//! Verified core of the StellarTickets ticketing contract: ticket issuance,
//! ownership transfer, admission, revocation and an anti-scalping resale
//! marketplace, over a model of the contract's storage.

mod contract;
mod error;
mod host;
pub mod laws;
mod model;
mod types;
mod views;

pub use contract::{is_draw_order, TicketingContract};
pub use error::Error;
pub use model::{
    AddressView, ConfigView, ContractEventView, ContractState, EventView, GiftClaimView, PaymentView,
    PendingTokenView, TicketView, Transition,
};
pub use types::{
    Address, Config, ContractEvent, Event, GiftClaim, LedgerInfo, Payment, PendingPaymentToken, Ticket,
    TicketStatus, BPS_DENOMINATOR, FLOOR_DENOMINATOR, MAX_BATCH_SIZE, PAYMENT_TOKEN_CHANGE_DELAY_LEDGERS,
};
