use vstd::prelude::*;
use vstd::utf8::encode_utf8;

use crate::address::{derives, mint_address, mint_seeds, program_address, ticket_address, ticket_seeds, Address};
use crate::error::ErrorCode;
use crate::lifecycle::{initial_stage, spec_initial_stage};
use crate::market::Payment;
use crate::state::{
    seat_ref_view, seat_view, ticket_name, ticket_uri, EventAccount, TicketAccount, TicketStage,
    MAX_NAME_LEN, MAX_SEAT_LEN,
};
use crate::text::{clamp_bytes, clamped, utf8_of};

verus! {

/// The budget of a content locator, in bytes.
pub const MAX_URI_LEN: usize = 200;

/// The royalty rate declared on tickets that an authority mints.
pub const MINT_ROYALTY_BASIS_POINTS: u16 = 500;

/// The descriptive content attached to a new ticket's asset unit. The event's
/// record may rewrite it later, for any ticket of the event.
pub struct TicketMetadata {
    pub name: Vec<u8>,
    pub symbol: Vec<u8>,
    pub uri: Vec<u8>,
    pub seller_fee_basis_points: u16,
    pub creator: Address,
    pub creator_verified: bool,
    pub update_authority: Address,
}

/// What issuing a ticket asks of the asset registry and, for a sale, of the
/// payment subsystem: one unit of `mint`, signed for by the ticket record, to
/// `recipient`, described by `metadata`.
pub struct Issuance {
    pub mint: Address,
    pub mint_authority: Address,
    pub recipient: Address,
    pub metadata: TicketMetadata,
    pub payment: Option<Payment>,
}

pub open spec fn ticket_symbol() -> Seq<u8> {
    encode_utf8("TIX"@)
}

/// A seat label cut to its budget.
pub open spec fn clamped_seat(seat: Option<Seq<u8>>) -> Option<Seq<u8>> {
    match seat {
        Some(s) => Some(clamped(s, MAX_SEAT_LEN as int)),
        None => None,
    }
}

/// Whether `t` is a new ticket record with these fields.
pub open spec fn fresh_ticket(
    t: TicketAccount,
    event_key: Address,
    owner: Address,
    mint: Address,
    seat: Option<Seq<u8>>,
    stage: TicketStage,
) -> bool {
    &&& t.event == event_key
    &&& t.owner == owner
    &&& t.nft_mint == mint
    &&& seat_view(t.seat) == seat
    &&& t.stage == stage
    &&& !t.is_listed
    &&& !t.was_scanned
    &&& t.listing_price is None
    &&& t.listing_expires_at is None
}

/// Whether `ticket_key` and `mint_key` are the addresses derived for the ticket
/// of `owner` in the event at `event_key`.
pub open spec fn issue_addresses(
    program_id: Seq<u8>,
    event_key: Seq<u8>,
    owner: Seq<u8>,
    index: Option<u64>,
    ticket_key: Seq<u8>,
    mint_key: Seq<u8>,
) -> bool {
    &&& derives(program_address(ticket_seeds(event_key, owner, index), program_id), ticket_key)
    &&& derives(program_address(mint_seeds(event_key, owner, index), program_id), mint_key)
}

fn address_matches(found: Option<(Address, u8)>, key: &Address) -> (r: Option<u8>)
    ensures
        r is Some <==> (found matches Some((a, _)) && a@ == key@),
        r matches Some(b) ==> found matches Some((_, x)) && x == b,
{
    match found {
        Some((a, bump)) => {
            if a.same(key) {
                Some(bump)
            } else {
                None
            }
        },
        None => None,
    }
}

fn seat_ref(seat: &Option<Vec<u8>>) -> (r: Option<&Vec<u8>>)
    ensures
        seat_ref_view(r) == seat_view(*seat),
{
    match seat {
        Some(s) => Some(s),
        None => None,
    }
}

/// Why an authority's mint of a ticket is refused, if it is.
pub open spec fn mint_error(
    program_id: Seq<u8>,
    event_key: Seq<u8>,
    event: EventAccount,
    authority: Seq<u8>,
    owner: Seq<u8>,
    ticket_key: Seq<u8>,
    slot: Option<TicketAccount>,
    mint_key: Seq<u8>,
) -> Option<ErrorCode> {
    if event.authority@ != authority {
        Some(ErrorCode::Unauthorized)
    } else if !issue_addresses(program_id, event_key, owner, None, ticket_key, mint_key) {
        Some(ErrorCode::AddressMismatch)
    } else if slot is Some {
        Some(ErrorCode::TicketAlreadyExists)
    } else {
        None
    }
}

/// The event's authority issues a ticket to `owner`, in the stage that the time
/// gives, with its seat label cut to budget; its display name and content locator
/// (or `metadata_uri_override`) are cut to theirs.
pub fn mint_ticket(
    program_id: &Address,
    event_key: &Address,
    event: &EventAccount,
    authority: &Address,
    owner: &Address,
    ticket_key: &Address,
    slot: &mut Option<TicketAccount>,
    mint_key: &Address,
    seat: Option<Vec<u8>>,
    metadata_uri_override: Option<Vec<u8>>,
    now: i64,
) -> (r: Result<Issuance, ErrorCode>)
    ensures
        match mint_error(program_id@, event_key@, *event, authority@, owner@, ticket_key@, *old(slot), mint_key@) {
            Some(e) => r matches Err(x) && x == e && *final(slot) == *old(slot),
            None => r matches Ok(i) && *final(slot) matches Some(t) && {
                let stage = spec_initial_stage(now, event.start_ts);
                let s = clamped_seat(seat_view(seat));
                &&& fresh_ticket(t, *event_key, *owner, *mint_key, s, stage)
                &&& program_address(ticket_seeds(event_key@, owner@, None), program_id@) == Some((ticket_key@, t.bump))
                &&& i.mint == *mint_key && i.mint_authority == *ticket_key && i.recipient == *owner
                &&& i.payment is None
                &&& i.metadata.name@ == clamped(ticket_name(event.name@, s), MAX_NAME_LEN as int)
                &&& i.metadata.symbol@ == ticket_symbol()
                &&& i.metadata.uri@ == clamped(
                    match metadata_uri_override {
                        Some(u) => u@,
                        None => ticket_uri(stage, event.name@, s),
                    },
                    MAX_URI_LEN as int,
                )
                &&& i.metadata.seller_fee_basis_points == MINT_ROYALTY_BASIS_POINTS
                &&& i.metadata.creator == *authority && i.metadata.creator_verified
                &&& i.metadata.update_authority == *event_key
            },
        },
        *final(slot) matches Some(t) ==> r is Ok ==> t.wf(),
{
    if !event.authority.same(authority) {
        return Err(ErrorCode::Unauthorized);
    }
    let bump = match address_matches(ticket_address(program_id, event_key, owner, None), ticket_key) {
        Some(b) => b,
        None => return Err(ErrorCode::AddressMismatch),
    };
    if address_matches(mint_address(program_id, event_key, owner, None), mint_key).is_none() {
        return Err(ErrorCode::AddressMismatch);
    }
    if slot.is_some() {
        return Err(ErrorCode::TicketAlreadyExists);
    }
    let stage = initial_stage(now, event.start_ts);
    let seat = match seat {
        Some(s) => Some(clamp_bytes(s, MAX_SEAT_LEN)),
        None => None,
    };
    let uri = match metadata_uri_override {
        Some(u) => u,
        None => stage.get_http_metadata_uri(&event.name, seat_ref(&seat)),
    };
    let metadata = TicketMetadata {
        name: clamp_bytes(stage.get_name(&event.name, seat_ref(&seat)), MAX_NAME_LEN),
        symbol: utf8_of("TIX"),
        uri: clamp_bytes(uri, MAX_URI_LEN),
        seller_fee_basis_points: MINT_ROYALTY_BASIS_POINTS,
        creator: *authority,
        creator_verified: true,
        update_authority: *event_key,
    };
    *slot = Some(
        TicketAccount {
            event: *event_key,
            owner: *owner,
            nft_mint: *mint_key,
            seat,
            stage,
            is_listed: false,
            was_scanned: false,
            listing_price: None,
            listing_expires_at: None,
            bump,
        },
    );
    Ok(
        Issuance {
            mint: *mint_key,
            mint_authority: *ticket_key,
            recipient: *owner,
            metadata,
            payment: None,
        },
    )
}

/// Why a primary sale is refused, if it is. A sold-out event refuses first.
pub open spec fn sale_error(
    program_id: Seq<u8>,
    event_key: Seq<u8>,
    event: EventAccount,
    buyer: Seq<u8>,
    organizer: Seq<u8>,
    seat: Option<Seq<u8>>,
    ticket_id: u64,
    ticket_key: Seq<u8>,
    slot: Option<TicketAccount>,
    mint_key: Seq<u8>,
) -> Option<ErrorCode> {
    if event.tickets_sold >= event.ticket_supply {
        Some(ErrorCode::SoldOut)
    } else if organizer != event.authority@ {
        Some(ErrorCode::Unauthorized)
    } else if !issue_addresses(program_id, event_key, buyer, Some(ticket_id), ticket_key, mint_key) {
        Some(ErrorCode::AddressMismatch)
    } else if slot is Some {
        Some(ErrorCode::TicketAlreadyExists)
    } else if seat matches Some(s) && s.len() > MAX_SEAT_LEN {
        Some(ErrorCode::InvalidInput)
    } else {
        None
    }
}

/// Sells the buyer ticket `ticket_id` of the event at `ticket_price_lamports`,
/// paid to the organizer: one more ticket counts as sold, and the ticket starts
/// in the stage that the time gives.
pub fn buy_event_ticket(
    program_id: &Address,
    event_key: &Address,
    event: &mut EventAccount,
    buyer: &Address,
    organizer: &Address,
    ticket_price_lamports: u64,
    seat: Option<Vec<u8>>,
    ticket_id: u64,
    ticket_key: &Address,
    slot: &mut Option<TicketAccount>,
    mint_key: &Address,
    now: i64,
) -> (r: Result<Issuance, ErrorCode>)
    ensures
        match sale_error(program_id@, event_key@, *old(event), buyer@, organizer@, seat_view(seat), ticket_id, ticket_key@, *old(slot), mint_key@) {
            Some(e) => r matches Err(x) && x == e && *final(slot) == *old(slot) && *final(event) == *old(event),
            None => r matches Ok(i) && *final(slot) matches Some(t) && {
                let stage = spec_initial_stage(now, old(event).start_ts);
                let s = seat_view(seat);
                &&& *final(event) == (EventAccount { tickets_sold: (old(event).tickets_sold + 1) as u32, ..*old(event) })
                &&& fresh_ticket(t, *event_key, *buyer, *mint_key, s, stage)
                &&& program_address(ticket_seeds(event_key@, buyer@, Some(ticket_id)), program_id@) == Some((ticket_key@, t.bump))
                &&& i.mint == *mint_key && i.mint_authority == *ticket_key && i.recipient == *buyer
                &&& i.payment matches Some(p) && p.from == *buyer && p.to == *organizer && p.amount == ticket_price_lamports
                &&& i.metadata.name@ == clamped(ticket_name(old(event).name@, s), MAX_NAME_LEN as int)
                &&& i.metadata.symbol@ == ticket_symbol()
                &&& i.metadata.uri@ == clamped(ticket_uri(stage, old(event).name@, s), MAX_URI_LEN as int)
                &&& i.metadata.seller_fee_basis_points == 0
                &&& i.metadata.creator == old(event).authority && !i.metadata.creator_verified
                &&& i.metadata.update_authority == *event_key
            },
        },
        final(event).tickets_sold > old(event).tickets_sold ==> final(event).tickets_sold
            <= final(event).ticket_supply,
        old(event).wf() ==> final(event).wf(),
        *final(slot) matches Some(t) ==> r is Ok ==> t.wf(),
{
    if event.tickets_sold >= event.ticket_supply {
        return Err(ErrorCode::SoldOut);
    }
    if !organizer.same(&event.authority) {
        return Err(ErrorCode::Unauthorized);
    }
    let bump = match address_matches(ticket_address(program_id, event_key, buyer, Some(ticket_id)), ticket_key) {
        Some(b) => b,
        None => return Err(ErrorCode::AddressMismatch),
    };
    if address_matches(mint_address(program_id, event_key, buyer, Some(ticket_id)), mint_key).is_none() {
        return Err(ErrorCode::AddressMismatch);
    }
    if slot.is_some() {
        return Err(ErrorCode::TicketAlreadyExists);
    }
    if let Some(s) = &seat {
        if s.len() > MAX_SEAT_LEN {
            return Err(ErrorCode::InvalidInput);
        }
    }
    let sold = match event.tickets_sold.checked_add(1) {
        Some(n) => n,
        None => return Err(ErrorCode::ArithmeticOverflow),
    };
    let stage = initial_stage(now, event.start_ts);
    let metadata = TicketMetadata {
        name: clamp_bytes(stage.get_name(&event.name, seat_ref(&seat)), MAX_NAME_LEN),
        symbol: utf8_of("TIX"),
        uri: clamp_bytes(stage.get_http_metadata_uri(&event.name, seat_ref(&seat)), MAX_URI_LEN),
        seller_fee_basis_points: 0,
        creator: event.authority,
        creator_verified: false,
        update_authority: *event_key,
    };
    event.tickets_sold = sold;
    *slot = Some(
        TicketAccount {
            event: *event_key,
            owner: *buyer,
            nft_mint: *mint_key,
            seat,
            stage,
            is_listed: false,
            was_scanned: false,
            listing_price: None,
            listing_expires_at: None,
            bump,
        },
    );
    Ok(
        Issuance {
            mint: *mint_key,
            mint_authority: *ticket_key,
            recipient: *buyer,
            metadata,
            payment: Some(Payment { from: *buyer, to: *organizer, amount: ticket_price_lamports }),
        },
    )
}

} // verus!
