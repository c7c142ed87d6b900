use vstd::prelude::*;

verus! {

/// Why an operation was refused. A refused operation changes nothing.
#[derive(Clone, Copy, Debug, PartialEq, Eq, Structural)]
pub enum ErrorCode {
    /// The caller is not the authority, scanner, owner or seller that the operation needs.
    Unauthorized,
    /// An input is malformed or out of range.
    InvalidInput,
    /// The event's record already exists.
    EventAlreadyInitialized,
    /// The ticket already has an open listing.
    TicketAlreadyListed,
    /// The ticket has no open listing.
    TicketNotListed,
    /// The buyer cannot pay the price.
    InsufficientPayment,
    /// The listing's expiry has passed.
    ListingExpired,
    /// Only tickets in the Qr or Collectible stage can be listed.
    CannotListInCurrentStage,
    /// The stage transition is not one that the lifecycle allows.
    InvalidTicketStage,
    /// The event has not ended yet.
    EventNotOver,
    /// The ticket was never scanned at the door.
    TicketNotScanned,
    /// The event's sale window has opened.
    EventAlreadyStarted,
    /// Tickets of the event have been sold.
    TicketsAlreadySold,
    /// Every ticket of the event has been sold.
    SoldOut,
    /// A counter or an amount would overflow.
    ArithmeticOverflow,
    /// A record's address is not the one derived for it.
    AddressMismatch,
    /// The ticket belongs to another event.
    WrongEvent,
    /// The record does not exist.
    RecordNotFound,
    /// The ticket's record already exists.
    TicketAlreadyExists,
}

/// The kinds of refusal.
#[derive(Clone, Copy, Debug, PartialEq, Eq, Structural)]
pub enum ErrorClass {
    /// The caller lacks the role the operation needs.
    Authorization,
    /// The input is malformed, or does not fit the records it names.
    Validation,
    /// The operation does not fit the ticket's stage or listing status.
    State,
    /// The operation comes too early or too late.
    Temporal,
    /// A balance, a capacity or a counter does not suffice.
    Resource,
}

impl ErrorCode {
    pub open spec fn spec_class(self) -> ErrorClass {
        match self {
            ErrorCode::Unauthorized => ErrorClass::Authorization,
            ErrorCode::InvalidInput => ErrorClass::Validation,
            ErrorCode::AddressMismatch => ErrorClass::Validation,
            ErrorCode::WrongEvent => ErrorClass::Validation,
            ErrorCode::RecordNotFound => ErrorClass::Validation,
            ErrorCode::EventAlreadyInitialized => ErrorClass::State,
            ErrorCode::TicketAlreadyExists => ErrorClass::State,
            ErrorCode::TicketAlreadyListed => ErrorClass::State,
            ErrorCode::TicketNotListed => ErrorClass::State,
            ErrorCode::CannotListInCurrentStage => ErrorClass::State,
            ErrorCode::InvalidTicketStage => ErrorClass::State,
            ErrorCode::TicketNotScanned => ErrorClass::State,
            ErrorCode::TicketsAlreadySold => ErrorClass::State,
            ErrorCode::ListingExpired => ErrorClass::Temporal,
            ErrorCode::EventNotOver => ErrorClass::Temporal,
            ErrorCode::EventAlreadyStarted => ErrorClass::Temporal,
            ErrorCode::InsufficientPayment => ErrorClass::Resource,
            ErrorCode::SoldOut => ErrorClass::Resource,
            ErrorCode::ArithmeticOverflow => ErrorClass::Resource,
        }
    }

    /// The kind of refusal this is.
    pub fn class(&self) -> (r: ErrorClass)
        ensures
            r == self.spec_class(),
    {
        match self {
            ErrorCode::Unauthorized => ErrorClass::Authorization,
            ErrorCode::InvalidInput => ErrorClass::Validation,
            ErrorCode::AddressMismatch => ErrorClass::Validation,
            ErrorCode::WrongEvent => ErrorClass::Validation,
            ErrorCode::RecordNotFound => ErrorClass::Validation,
            ErrorCode::EventAlreadyInitialized => ErrorClass::State,
            ErrorCode::TicketAlreadyExists => ErrorClass::State,
            ErrorCode::TicketAlreadyListed => ErrorClass::State,
            ErrorCode::TicketNotListed => ErrorClass::State,
            ErrorCode::CannotListInCurrentStage => ErrorClass::State,
            ErrorCode::InvalidTicketStage => ErrorClass::State,
            ErrorCode::TicketNotScanned => ErrorClass::State,
            ErrorCode::TicketsAlreadySold => ErrorClass::State,
            ErrorCode::ListingExpired => ErrorClass::Temporal,
            ErrorCode::EventNotOver => ErrorClass::Temporal,
            ErrorCode::EventAlreadyStarted => ErrorClass::Temporal,
            ErrorCode::InsufficientPayment => ErrorClass::Resource,
            ErrorCode::SoldOut => ErrorClass::Resource,
            ErrorCode::ArithmeticOverflow => ErrorClass::Resource,
        }
    }
}

} // verus!
