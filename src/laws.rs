use vstd::prelude::*;

use crate::address::{listing_seeds, program_address, Address};
use crate::error::{ErrorClass, ErrorCode};
use crate::issue::sale_error;
use crate::lifecycle::{stage_change_error, stage_transition_allowed, staged, upgrade_error};
use crate::market::{
    buy_error, cancel_error, custody_move, is_listing_address, list_error, platform_fee,
    seller_share, settlement, sold_to, with_listed, FEE_BASIS_POINTS,
};
use crate::state::{EventAccount, ListingAccount, TicketAccount, TicketStage};

verus! {

/// A sale of an event whose tickets are all sold is refused, with a resource
/// error, before anything else is looked at; a refused sale changes no record.
pub proof fn law_sold_out_sale_refused(
    program_id: Seq<u8>,
    event_key: Seq<u8>,
    event: EventAccount,
    buyer: Seq<u8>,
    organizer: Seq<u8>,
    seat: Option<Seq<u8>>,
    ticket_id: u64,
    ticket_key: Seq<u8>,
    slot: Option<TicketAccount>,
    mint_key: Seq<u8>,
)
    requires
        event.tickets_sold == event.ticket_supply,
    ensures
        sale_error(program_id, event_key, event, buyer, organizer, seat, ticket_id, ticket_key, slot, mint_key)
            == Some(ErrorCode::SoldOut),
        ErrorCode::SoldOut.spec_class() == ErrorClass::Resource,
{
}

/// Stage changes follow the lifecycle table: Prestige or Qr to Qr, Qr to
/// Scanned, Scanned to Collectible (by the upgrade alone). Any other pair of
/// stages is refused with a state error.
pub proof fn law_stage_transitions(
    event_key: Seq<u8>,
    event: EventAccount,
    ticket: TicketAccount,
    signer: Seq<u8>,
    to: TicketStage,
    now: i64,
)
    requires
        ticket.event@ == event_key,
    ensures
        stage_transition_allowed(ticket.stage, to) <==> (
            (ticket.stage == TicketStage::Prestige && to == TicketStage::Qr)
            || (ticket.stage == TicketStage::Qr && to == TicketStage::Qr)
            || (ticket.stage == TicketStage::Qr && to == TicketStage::Scanned)
            || (ticket.stage == TicketStage::Scanned && to == TicketStage::Collectible)),
        !stage_transition_allowed(ticket.stage, to) ==> stage_change_error(event_key, event, ticket, signer, to)
            == Some(ErrorCode::InvalidTicketStage),
        stage_change_error(event_key, event, ticket, signer, to) is None ==> stage_transition_allowed(
            ticket.stage,
            to,
        ) && to != TicketStage::Collectible,
        upgrade_error(event_key, event, ticket, now) is None ==> stage_transition_allowed(
            ticket.stage,
            TicketStage::Collectible,
        ),
        !stage_transition_allowed(ticket.stage, TicketStage::Collectible) ==> (upgrade_error(
            event_key,
            event,
            ticket,
            now,
        ) matches Some(e) && (e.spec_class() == ErrorClass::State || e.spec_class()
            == ErrorClass::Temporal)),
        ErrorCode::InvalidTicketStage.spec_class() == ErrorClass::State,
{
}

/// Once a ticket is scanned it stays scanned: no change that an operation makes
/// to a ticket (a stage change, listing or unlisting, a sale) clears the mark.
pub proof fn law_scan_is_sticky(ticket: TicketAccount, stage: TicketStage, listed: bool, buyer: Address)
    requires
        ticket.was_scanned,
    ensures
        staged(ticket, stage).was_scanned,
        with_listed(ticket, listed).was_scanned,
        sold_to(ticket, buyer).was_scanned,
{
}

/// A ticket has one listing address, and a ticket that is listed, or whose
/// listing address holds a listing, cannot be listed again.
pub proof fn law_single_listing(
    program_id: Seq<u8>,
    ticket_key: Seq<u8>,
    ticket: TicketAccount,
    listing_key: Seq<u8>,
    other_key: Seq<u8>,
    listing: Option<ListingAccount>,
    seller: Seq<u8>,
    expires_at: Option<i64>,
    now: i64,
)
    ensures
        is_listing_address(program_id, ticket_key, listing_key) && is_listing_address(
            program_id,
            ticket_key,
            other_key,
        ) ==> listing_key == other_key,
        ticket.is_listed || listing is Some ==> list_error(
            program_id,
            ticket_key,
            ticket,
            listing_key,
            listing,
            seller,
            expires_at,
            now,
        ) is Some,
{
}

/// Listing a ticket and then cancelling the listing gives the ticket back as it
/// was: the cancel is accepted (and so closes the listing), the ticket is not
/// listed and has the same owner, and the unit that the listing took into
/// custody goes back to the seller.
pub proof fn law_list_then_cancel(
    program_id: Seq<u8>,
    ticket_key: Address,
    ticket: TicketAccount,
    listing_key: Address,
    listing: Option<ListingAccount>,
    seller: Address,
    expires_at: Option<i64>,
    now: i64,
    opened: ListingAccount,
)
    requires
        list_error(program_id, ticket_key@, ticket, listing_key@, listing, seller@, expires_at, now) is None,
        opened.ticket == ticket_key,
        opened.seller == seller,
    ensures
        cancel_error(program_id, ticket_key@, with_listed(ticket, true), listing_key@, Some(opened), seller@)
            is None,
        with_listed(with_listed(ticket, true), false) == ticket,
        custody_move(with_listed(ticket, true), listing_key, seller).mint == custody_move(
            ticket,
            seller,
            listing_key,
        ).mint,
        custody_move(with_listed(ticket, true), listing_key, seller).from == custody_move(
            ticket,
            seller,
            listing_key,
        ).to,
        custody_move(with_listed(ticket, true), listing_key, seller).to == custody_move(
            ticket,
            seller,
            listing_key,
        ).from,
{
}

/// A buyer who can pay buys a listed, unexpired ticket: the buyer becomes its
/// owner, it is no longer listed, the seller is paid their share and the
/// event's authority the fee, which together make the price, and the unit
/// leaves custody for the buyer. A buyer short of the price is refused for want
/// of payment.
pub proof fn law_list_then_buy(
    program_id: Seq<u8>,
    event_key: Seq<u8>,
    event_authority: Address,
    ticket_key: Address,
    ticket: TicketAccount,
    listing_key: Address,
    listing: Option<ListingAccount>,
    seller: Address,
    price: u64,
    expires_at: Option<i64>,
    now: i64,
    opened: ListingAccount,
    buyer: Address,
    balance: u64,
    later: i64,
)
    requires
        list_error(program_id, ticket_key@, ticket, listing_key@, listing, seller@, expires_at, now) is None,
        opened.ticket == ticket_key,
        opened.seller == seller,
        opened.price_lamports == price,
        opened.expires_at == expires_at,
        ticket.event@ == event_key,
        expires_at matches Some(e) ==> later <= e,
        price as int * FEE_BASIS_POINTS as int <= u64::MAX,
    ensures
        balance >= price ==> buy_error(
            program_id,
            event_key,
            ticket_key@,
            with_listed(ticket, true),
            listing_key@,
            Some(opened),
            balance,
            later,
        ) is None,
        balance < price ==> buy_error(
            program_id,
            event_key,
            ticket_key@,
            with_listed(ticket, true),
            listing_key@,
            Some(opened),
            balance,
            later,
        ) == Some(ErrorCode::InsufficientPayment),
        sold_to(with_listed(ticket, true), buyer).owner == buyer,
        !sold_to(with_listed(ticket, true), buyer).is_listed,
        ({
            let s = settlement(with_listed(ticket, true), listing_key, buyer, seller, event_authority, price);
            &&& s.seller_payment.from == buyer && s.seller_payment.to == seller
            &&& s.fee_payment.from == buyer && s.fee_payment.to == event_authority
            &&& s.seller_payment.amount + s.fee_payment.amount == price
            &&& s.seller_payment.amount == seller_share(price)
            &&& 0 <= platform_fee(price) <= seller_share(price)
            &&& s.asset.mint == ticket.nft_mint && s.asset.from == listing_key && s.asset.to == buyer
        }),
{
}

/// After a listing's expiry it can no longer be bought, whatever the buyer's
/// balance, with a temporal error; its seller can still cancel it.
pub proof fn law_expired_listing(
    program_id: Seq<u8>,
    event_key: Seq<u8>,
    ticket_key: Address,
    ticket: TicketAccount,
    listing_key: Seq<u8>,
    listing: Option<ListingAccount>,
    seller: Address,
    expiry: i64,
    now: i64,
    opened: ListingAccount,
    balance: u64,
    later: i64,
)
    requires
        list_error(program_id, ticket_key@, ticket, listing_key, listing, seller@, Some(expiry), now) is None,
        opened.ticket == ticket_key,
        opened.seller == seller,
        opened.expires_at == Some(expiry),
        ticket.event@ == event_key,
        later > expiry,
    ensures
        buy_error(program_id, event_key, ticket_key@, with_listed(ticket, true), listing_key, Some(opened), balance, later)
            == Some(ErrorCode::ListingExpired),
        ErrorCode::ListingExpired.spec_class() == ErrorClass::Temporal,
        cancel_error(program_id, ticket_key@, with_listed(ticket, true), listing_key, Some(opened), seller@)
            is None,
{
}

/// The upgrade to Collectible succeeds exactly when the event is over and the
/// ticket was scanned and is in Scanned; otherwise it is refused with a state or
/// a temporal error.
pub proof fn law_collectible_upgrade(event_key: Seq<u8>, event: EventAccount, ticket: TicketAccount, now: i64)
    requires
        ticket.event@ == event_key,
    ensures
        upgrade_error(event_key, event, ticket, now) is None <==> (now > event.end_ts && ticket.was_scanned
            && ticket.stage == TicketStage::Scanned),
        upgrade_error(event_key, event, ticket, now) matches Some(e) ==> (e.spec_class() == ErrorClass::State
            || e.spec_class() == ErrorClass::Temporal),
{
}

} // verus!
