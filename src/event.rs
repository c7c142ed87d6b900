use vstd::prelude::*;

use crate::address::{derives, event_address, event_seeds, program_address, Address};
use crate::error::ErrorCode;
use crate::state::{EventAccount, EVENT_VERSION, MAX_COVER_IMAGE_URL_LEN, MAX_EVENT_NAME_LEN};
use crate::text::copy_bytes;

verus! {

/// Notice for indexers that an event was created.
pub struct EventCreated {
    pub event_id: u64,
    pub organizer: Address,
    pub event_account: Address,
    pub name: Vec<u8>,
    pub start_ts: i64,
    pub end_ts: i64,
}

/// Notice for indexers that an event was edited.
pub struct EventUpdated {
    pub event_id: u64,
    pub authority: Address,
    pub event_account: Address,
    pub name: Vec<u8>,
    pub start_ts: i64,
    pub end_ts: i64,
    pub ticket_supply: u32,
}

/// Notice for indexers that an event was deleted.
pub struct EventDeleted {
    pub event_id: u64,
    pub authority: Address,
    pub event_account: Address,
}

/// The constraints on an event's editable fields.
pub open spec fn event_fields_valid(
    name: Seq<u8>,
    start_ts: i64,
    end_ts: i64,
    ticket_supply: u32,
    cover_image_url: Seq<u8>,
) -> bool {
    &&& name.len() <= MAX_EVENT_NAME_LEN
    &&& end_ts > start_ts
    &&& ticket_supply > 0
    &&& cover_image_url.len() <= MAX_COVER_IMAGE_URL_LEN
}

fn fields_valid(
    name: &Vec<u8>,
    start_ts: i64,
    end_ts: i64,
    ticket_supply: u32,
    cover_image_url: &Vec<u8>,
) -> (r: bool)
    ensures
        r == event_fields_valid(name@, start_ts, end_ts, ticket_supply, cover_image_url@),
{
    name.len() <= MAX_EVENT_NAME_LEN && end_ts > start_ts && ticket_supply > 0
        && cover_image_url.len() <= MAX_COVER_IMAGE_URL_LEN
}

/// Why creating an event is refused, if it is.
pub open spec fn create_event_error(
    program_id: Seq<u8>,
    event_key: Seq<u8>,
    slot: Option<EventAccount>,
    organizer: Seq<u8>,
    event_id: u64,
    name: Seq<u8>,
    start_ts: i64,
    end_ts: i64,
    ticket_supply: u32,
    cover_image_url: Seq<u8>,
) -> Option<ErrorCode> {
    if !derives(program_address(event_seeds(organizer, event_id), program_id), event_key) {
        Some(ErrorCode::AddressMismatch)
    } else if slot is Some {
        Some(ErrorCode::EventAlreadyInitialized)
    } else if !event_fields_valid(name, start_ts, end_ts, ticket_supply, cover_image_url) {
        Some(ErrorCode::InvalidInput)
    } else {
        None
    }
}

/// Creates `organizer`'s event `event_id` in the empty slot at its derived
/// address. The organizer is its authority and, until replaced, its scanner;
/// nothing is sold yet.
pub fn create_event(
    program_id: &Address,
    event_key: &Address,
    slot: &mut Option<EventAccount>,
    organizer: &Address,
    event_id: u64,
    name: Vec<u8>,
    start_ts: i64,
    end_ts: i64,
    ticket_supply: u32,
    cover_image_url: Vec<u8>,
) -> (r: Result<EventCreated, ErrorCode>)
    ensures
        match create_event_error(program_id@, event_key@, *old(slot), organizer@, event_id, name@, start_ts, end_ts, ticket_supply, cover_image_url@) {
            Some(e) => r matches Err(x) && x == e && *final(slot) == *old(slot),
            None => r matches Ok(n) && *final(slot) matches Some(ev) && {
                &&& ev.authority == *organizer
                &&& ev.scanner == *organizer
                &&& ev.event_id == event_id
                &&& ev.name@ == name@
                &&& ev.start_ts == start_ts
                &&& ev.end_ts == end_ts
                &&& ev.tickets_sold == 0
                &&& ev.ticket_supply == ticket_supply
                &&& ev.version == EVENT_VERSION
                &&& ev.cover_image_url@ == cover_image_url@
                &&& program_address(event_seeds(organizer@, event_id), program_id@) == Some((event_key@, ev.bump))
                &&& n.event_id == event_id && n.organizer == *organizer && n.event_account == *event_key
                &&& n.name@ == name@ && n.start_ts == start_ts && n.end_ts == end_ts
            },
        },
        *final(slot) matches Some(ev) ==> r is Ok ==> ev.wf(),
{
    let bump = match event_address(program_id, organizer, event_id) {
        Some((a, b)) => {
            if !a.same(event_key) {
                return Err(ErrorCode::AddressMismatch);
            }
            b
        },
        None => return Err(ErrorCode::AddressMismatch),
    };
    if slot.is_some() {
        return Err(ErrorCode::EventAlreadyInitialized);
    }
    if !fields_valid(&name, start_ts, end_ts, ticket_supply, &cover_image_url) {
        return Err(ErrorCode::InvalidInput);
    }
    let notice = EventCreated {
        event_id,
        organizer: *organizer,
        event_account: *event_key,
        name: copy_bytes(&name),
        start_ts,
        end_ts,
    };
    *slot = Some(
        EventAccount {
            authority: *organizer,
            scanner: *organizer,
            event_id,
            name,
            start_ts,
            end_ts,
            tickets_sold: 0,
            ticket_supply,
            version: EVENT_VERSION,
            cover_image_url,
            bump,
        },
    );
    Ok(notice)
}

/// Why editing an event is refused, if it is.
pub open spec fn update_event_error(
    event: EventAccount,
    authority: Seq<u8>,
    name: Seq<u8>,
    start_ts: i64,
    end_ts: i64,
    ticket_supply: u32,
    cover_image_url: Seq<u8>,
    now: i64,
) -> Option<ErrorCode> {
    if event.authority@ != authority {
        Some(ErrorCode::Unauthorized)
    } else if !event_fields_valid(name, start_ts, end_ts, ticket_supply, cover_image_url) {
        Some(ErrorCode::InvalidInput)
    } else if now >= event.start_ts {
        Some(ErrorCode::EventAlreadyStarted)
    } else if event.tickets_sold != 0 {
        Some(ErrorCode::TicketsAlreadySold)
    } else {
        None
    }
}

/// Edits an event's name, window, supply and cover image; only its authority
/// may, only before it starts and before any ticket is sold.
pub fn update_event(
    event_key: &Address,
    event: &mut EventAccount,
    authority: &Address,
    name: Vec<u8>,
    start_ts: i64,
    end_ts: i64,
    ticket_supply: u32,
    cover_image_url: Vec<u8>,
    now: i64,
) -> (r: Result<EventUpdated, ErrorCode>)
    ensures
        match update_event_error(*old(event), authority@, name@, start_ts, end_ts, ticket_supply, cover_image_url@, now) {
            Some(e) => r matches Err(x) && x == e && *final(event) == *old(event),
            None => r matches Ok(n) && {
                &&& final(event).authority == old(event).authority
                &&& final(event).scanner == old(event).scanner
                &&& final(event).event_id == old(event).event_id
                &&& final(event).name@ == name@
                &&& final(event).start_ts == start_ts
                &&& final(event).end_ts == end_ts
                &&& final(event).tickets_sold == old(event).tickets_sold
                &&& final(event).ticket_supply == ticket_supply
                &&& final(event).version == old(event).version
                &&& final(event).cover_image_url@ == cover_image_url@
                &&& final(event).bump == old(event).bump
                &&& n.event_id == old(event).event_id && n.authority == *authority
                &&& n.event_account == *event_key && n.name@ == name@ && n.start_ts == start_ts
                &&& n.end_ts == end_ts && n.ticket_supply == ticket_supply
            },
        },
        old(event).wf() ==> final(event).wf(),
{
    if !event.authority.same(authority) {
        return Err(ErrorCode::Unauthorized);
    }
    if !fields_valid(&name, start_ts, end_ts, ticket_supply, &cover_image_url) {
        return Err(ErrorCode::InvalidInput);
    }
    if now >= event.start_ts {
        return Err(ErrorCode::EventAlreadyStarted);
    }
    if event.tickets_sold != 0 {
        return Err(ErrorCode::TicketsAlreadySold);
    }
    let notice = EventUpdated {
        event_id: event.event_id,
        authority: *authority,
        event_account: *event_key,
        name: copy_bytes(&name),
        start_ts,
        end_ts,
        ticket_supply,
    };
    event.name = name;
    event.start_ts = start_ts;
    event.end_ts = end_ts;
    event.ticket_supply = ticket_supply;
    event.cover_image_url = cover_image_url;
    Ok(notice)
}

/// Names the identity allowed to scan the event's tickets at the door; only the
/// event's authority may.
pub fn set_scanner(event: &mut EventAccount, authority: &Address, scanner: &Address) -> (r: Result<(), ErrorCode>)
    ensures
        old(event).authority@ == authority@ ==> r is Ok && *final(event) == (EventAccount { scanner: *scanner, ..*old(event) }),
        old(event).authority@ != authority@ ==> r == Err::<(), ErrorCode>(ErrorCode::Unauthorized) && *final(event) == *old(event),
        old(event).wf() ==> final(event).wf(),
{
    if !event.authority.same(authority) {
        return Err(ErrorCode::Unauthorized);
    }
    event.scanner = *scanner;
    Ok(())
}

/// Removes an event's record; only its authority may, at any time. Its tickets
/// and listings stay: operations that need the event then refuse for want of
/// its record, while a seller can still withdraw a listing.
pub fn delete_event(event_key: &Address, slot: &mut Option<EventAccount>, authority: &Address) -> (r: Result<EventDeleted, ErrorCode>)
    ensures
        match *old(slot) {
            None => r matches Err(x) && x == ErrorCode::RecordNotFound && *final(slot) == *old(slot),
            Some(ev) => if ev.authority@ != authority@ {
                r matches Err(x) && x == ErrorCode::Unauthorized && *final(slot) == *old(slot)
            } else {
                r matches Ok(n) && *final(slot) is None && n.event_id == ev.event_id
                    && n.authority == *authority && n.event_account == *event_key
            },
        },
{
    let event_id = match slot {
        None => return Err(ErrorCode::RecordNotFound),
        Some(ev) => {
            if !ev.authority.same(authority) {
                return Err(ErrorCode::Unauthorized);
            }
            ev.event_id
        },
    };
    *slot = None;
    Ok(EventDeleted { event_id, authority: *authority, event_account: *event_key })
}

} // verus!
