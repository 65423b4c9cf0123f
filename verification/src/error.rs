use vstd::prelude::*;

verus! {

/// Error codes returned by the ticketing contract entry points.
#[derive(Copy, Clone, Debug, PartialEq, Eq, Structural, PartialOrd, Ord)]
pub enum Error {
    /// The contract has already been initialized.
    AlreadyInitialized,
    /// The contract has not been initialized yet.
    NotInitialized,
    /// No event exists with the given id.
    EventNotFound,
    /// An event already exists with the given id.
    EventAlreadyExists,
    /// No ticket exists with the given id.
    TicketNotFound,
    /// The caller is not the event's organizer.
    NotOrganizer,
    /// The caller is not the ticket's owner.
    NotOwner,
    /// The ticket has already been used for entry.
    AlreadyUsed,
    /// The ticket has been revoked by the organizer.
    Revoked,
    /// The ticket is not listed for resale.
    NotForResale,
    /// The resale price exceeds the event's resale cap.
    ResalePriceExceedsCap,
    /// The supplied price is negative or otherwise invalid.
    InvalidPrice,
    /// The supplied royalty exceeds 100%.
    InvalidRoyalty,
    /// Escrow is not enabled for the event.
    EscrowNotEnabled,
    /// The event has not reached its escrow release ledger yet.
    EventNotEnded,
    /// The buyer purchased too recently under the purchase throttle.
    PurchaseTooSoon,
    /// The caller is not the contract admin.
    NotAdmin,
    /// The operation requires an event that has not started yet.
    EventAlreadyStarted,
    /// The event start time is not in the future.
    InvalidEventTime,
    /// Transfers are frozen for the event.
    TransfersFrozen,
    /// Resale listings are closed for the event.
    ResaleClosed,
    /// The lottery entrant list or winner count is invalid.
    InvalidLottery,
    /// No gift claim exists for the ticket.
    GiftClaimNotFound,
    /// The gift claim has expired.
    GiftClaimExpired,
    /// The supplied gift secret does not match the stored hash.
    InvalidSecret,
    /// The gift claim expiry is not in the future.
    InvalidExpiry,
    /// The batch is empty.
    EmptyBatch,
    /// The batch exceeds the maximum batch size.
    BatchTooLarge,
    /// The proposed token is not a valid token contract.
    InvalidPaymentToken,
    /// There is no pending payment token change to apply.
    NoPendingPaymentToken,
    /// The payment token change timelock has not elapsed.
    TimelockNotElapsed,
    /// Tickets have already been issued for the event.
    TicketsAlreadyIssued,
    /// The ticket has reached its event's ownership transfer limit.
    TransferLimitExceeded,
    /// The resale price is below the event's configured resale floor,
    /// `original_price * min_resale_multiplier_bps / 1 000`.
    ResalePriceBelowFloor,
    /// The acting address has not authorized the invocation. On the host the
    /// authorization demand aborts the invocation itself, so this has no
    /// contract error code.
    NotAuthorized,
}

impl Error {
    /// The numeric code under which this error is reported to contract callers.
    pub fn code(&self) -> (r: u32)
        ensures
            r == error_code(*self),
    {
        match self {
            Error::AlreadyInitialized => 1,
            Error::NotInitialized => 2,
            Error::EventNotFound => 3,
            Error::EventAlreadyExists => 4,
            Error::TicketNotFound => 5,
            Error::NotOrganizer => 6,
            Error::NotOwner => 7,
            Error::AlreadyUsed => 8,
            Error::Revoked => 9,
            Error::NotForResale => 10,
            Error::ResalePriceExceedsCap => 11,
            Error::InvalidPrice => 12,
            Error::InvalidRoyalty => 13,
            Error::EscrowNotEnabled => 14,
            Error::EventNotEnded => 15,
            Error::PurchaseTooSoon => 16,
            Error::NotAdmin => 17,
            Error::EventAlreadyStarted => 18,
            Error::InvalidEventTime => 19,
            Error::TransfersFrozen => 20,
            Error::ResaleClosed => 21,
            Error::InvalidLottery => 22,
            Error::GiftClaimNotFound => 23,
            Error::GiftClaimExpired => 24,
            Error::InvalidSecret => 25,
            Error::InvalidExpiry => 26,
            Error::EmptyBatch => 27,
            Error::BatchTooLarge => 28,
            Error::InvalidPaymentToken => 29,
            Error::NoPendingPaymentToken => 30,
            Error::TimelockNotElapsed => 31,
            Error::TicketsAlreadyIssued => 32,
            Error::TransferLimitExceeded => 33,
            Error::ResalePriceBelowFloor => 34,
            Error::NotAuthorized => 0,
        }
    }
}

/// The numeric code of each error, numbered from one in declaration order;
/// the host's own authorization failure has 0, no contract code.
pub open spec fn error_code(e: Error) -> u32 {
    match e {
        Error::AlreadyInitialized => 1,
        Error::NotInitialized => 2,
        Error::EventNotFound => 3,
        Error::EventAlreadyExists => 4,
        Error::TicketNotFound => 5,
        Error::NotOrganizer => 6,
        Error::NotOwner => 7,
        Error::AlreadyUsed => 8,
        Error::Revoked => 9,
        Error::NotForResale => 10,
        Error::ResalePriceExceedsCap => 11,
        Error::InvalidPrice => 12,
        Error::InvalidRoyalty => 13,
        Error::EscrowNotEnabled => 14,
        Error::EventNotEnded => 15,
        Error::PurchaseTooSoon => 16,
        Error::NotAdmin => 17,
        Error::EventAlreadyStarted => 18,
        Error::InvalidEventTime => 19,
        Error::TransfersFrozen => 20,
        Error::ResaleClosed => 21,
        Error::InvalidLottery => 22,
        Error::GiftClaimNotFound => 23,
        Error::GiftClaimExpired => 24,
        Error::InvalidSecret => 25,
        Error::InvalidExpiry => 26,
        Error::EmptyBatch => 27,
        Error::BatchTooLarge => 28,
        Error::InvalidPaymentToken => 29,
        Error::NoPendingPaymentToken => 30,
        Error::TimelockNotElapsed => 31,
        Error::TicketsAlreadyIssued => 32,
        Error::TransferLimitExceeded => 33,
        Error::ResalePriceBelowFloor => 34,
        Error::NotAuthorized => 0,
    }
}

} // verus!
