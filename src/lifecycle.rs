use vstd::prelude::*;
use vstd::utf8::encode_utf8;

use crate::address::Address;
use crate::error::ErrorCode;
use crate::state::{EventAccount, TicketAccount, TicketStage};
use crate::text::{copy_bytes, utf8_of};

verus! {

/// The stage a new ticket starts in: Prestige before the event starts, Qr from then on.
pub open spec fn spec_initial_stage(now: i64, start_ts: i64) -> TicketStage {
    if now < start_ts {
        TicketStage::Prestige
    } else {
        TicketStage::Qr
    }
}

/// The stage a new ticket starts in at time `now`, for an event starting at `start_ts`.
pub fn initial_stage(now: i64, start_ts: i64) -> (r: TicketStage)
    ensures
        r == spec_initial_stage(now, start_ts),
{
    if now < start_ts {
        TicketStage::Prestige
    } else {
        TicketStage::Qr
    }
}

/// The moves of the lifecycle between existing stages; every other pair is refused.
pub open spec fn stage_transition_allowed(from: TicketStage, to: TicketStage) -> bool {
    ||| from == TicketStage::Prestige && to == TicketStage::Qr
    ||| from == TicketStage::Qr && to == TicketStage::Qr
    ||| from == TicketStage::Qr && to == TicketStage::Scanned
    ||| from == TicketStage::Scanned && to == TicketStage::Collectible
}

/// The ticket after it moves to `stage`; reaching Scanned marks it scanned for good.
pub open spec fn staged(t: TicketAccount, stage: TicketStage) -> TicketAccount {
    TicketAccount { stage, was_scanned: t.was_scanned || stage == TicketStage::Scanned, ..t }
}

/// Why an explicit stage change is refused, if it is: the ticket must belong to
/// the event; the move must be allowed and not the upgrade to Collectible, which
/// has an operation of its own; the event authority moves tickets to Qr and the
/// scanner moves them to Scanned.
pub open spec fn stage_change_error(
    event_key: Seq<u8>,
    event: EventAccount,
    ticket: TicketAccount,
    signer: Seq<u8>,
    new_stage: TicketStage,
) -> Option<ErrorCode> {
    if ticket.event@ != event_key {
        Some(ErrorCode::WrongEvent)
    } else if !stage_transition_allowed(ticket.stage, new_stage) || new_stage
        == TicketStage::Collectible {
        Some(ErrorCode::InvalidTicketStage)
    } else if new_stage == TicketStage::Qr && signer != event.authority@ {
        Some(ErrorCode::Unauthorized)
    } else if new_stage == TicketStage::Scanned && signer != event.scanner@ {
        Some(ErrorCode::Unauthorized)
    } else {
        None
    }
}

/// Whether a ticket record changed only as the lifecycle lets it: same event, and
/// a scanned ticket stays scanned.
pub open spec fn ticket_step(before: TicketAccount, after: TicketAccount) -> bool {
    &&& after.event == before.event
    &&& before.was_scanned ==> after.was_scanned
}

fn check_stage_change(
    event_key: &Address,
    event: &EventAccount,
    ticket: &TicketAccount,
    signer: &Address,
    new_stage: TicketStage,
) -> (r: Result<(), ErrorCode>)
    ensures
        match stage_change_error(event_key@, *event, *ticket, signer@, new_stage) {
            Some(e) => r == Err::<(), ErrorCode>(e),
            None => r is Ok,
        },
{
    if !ticket.event.same(event_key) {
        return Err(ErrorCode::WrongEvent);
    }
    let allowed = match (ticket.stage, new_stage) {
        (TicketStage::Prestige, TicketStage::Qr) => true,
        (TicketStage::Qr, TicketStage::Qr) => true,
        (TicketStage::Qr, TicketStage::Scanned) => true,
        _ => false,
    };
    if !allowed {
        return Err(ErrorCode::InvalidTicketStage);
    }
    match new_stage {
        TicketStage::Qr => {
            if !signer.same(&event.authority) {
                return Err(ErrorCode::Unauthorized);
            }
        },
        _ => {
            if !signer.same(&event.scanner) {
                return Err(ErrorCode::Unauthorized);
            }
        },
    }
    Ok(())
}

/// Moves a ticket to Qr (by the event authority) or to Scanned (by the event's
/// scanner, from Qr only, marking the ticket scanned).
pub fn update_ticket(
    event_key: &Address,
    event: &EventAccount,
    ticket: &mut TicketAccount,
    signer: &Address,
    new_stage: TicketStage,
) -> (r: Result<(), ErrorCode>)
    ensures
        match stage_change_error(event_key@, *event, *old(ticket), signer@, new_stage) {
            Some(e) => r == Err::<(), ErrorCode>(e) && *final(ticket) == *old(ticket),
            None => r is Ok && *final(ticket) == staged(*old(ticket), new_stage),
        },
        r is Ok ==> stage_transition_allowed(old(ticket).stage, final(ticket).stage),
        ticket_step(*old(ticket), *final(ticket)),
        old(ticket).wf() ==> final(ticket).wf(),
{
    check_stage_change(event_key, event, ticket, signer, new_stage)?;
    ticket.stage = new_stage;
    if new_stage == TicketStage::Scanned {
        ticket.was_scanned = true;
    }
    Ok(())
}

/// A request to the asset registry to rewrite a ticket's descriptive content.
pub struct MetadataUpdate {
    /// The asset unit whose content changes.
    pub mint: Address,
    /// The record that signs the change: the ticket's event.
    pub update_authority: Address,
    pub name: Vec<u8>,
    pub symbol: Vec<u8>,
    pub uri: Vec<u8>,
}

/// The symbol under which a rewritten ticket is described.
pub open spec fn update_symbol() -> Seq<u8> {
    encode_utf8("EVOT"@)
}

/// Moves a ticket as `update_ticket` does and, when that succeeds, asks for its
/// content locator to become `new_uri`, under the event's name.
pub fn update_ticket_metadata(
    event_key: &Address,
    event: &EventAccount,
    ticket: &mut TicketAccount,
    signer: &Address,
    new_stage: TicketStage,
    new_uri: Vec<u8>,
) -> (r: Result<MetadataUpdate, ErrorCode>)
    ensures
        match stage_change_error(event_key@, *event, *old(ticket), signer@, new_stage) {
            Some(e) => r matches Err(x) && x == e && *final(ticket) == *old(ticket),
            None => r matches Ok(u) && *final(ticket) == staged(*old(ticket), new_stage) && u.mint
                == old(ticket).nft_mint && u.update_authority == *event_key && u.name@
                == event.name@ && u.symbol@ == update_symbol() && u.uri@ == new_uri@,
        },
        ticket_step(*old(ticket), *final(ticket)),
        old(ticket).wf() ==> final(ticket).wf(),
{
    update_ticket(event_key, event, ticket, signer, new_stage)?;
    Ok(
        MetadataUpdate {
            mint: ticket.nft_mint,
            update_authority: *event_key,
            name: copy_bytes(&event.name),
            symbol: utf8_of("EVOT"),
            uri: new_uri,
        },
    )
}

/// Why the upgrade to Collectible is refused, if it is: the ticket must belong to
/// the event, the event must be over, and the ticket scanned and in Scanned.
pub open spec fn upgrade_error(
    event_key: Seq<u8>,
    event: EventAccount,
    ticket: TicketAccount,
    now: i64,
) -> Option<ErrorCode> {
    if ticket.event@ != event_key {
        Some(ErrorCode::WrongEvent)
    } else if !(now > event.end_ts) {
        Some(ErrorCode::EventNotOver)
    } else if !ticket.was_scanned {
        Some(ErrorCode::TicketNotScanned)
    } else if ticket.stage != TicketStage::Scanned {
        Some(ErrorCode::InvalidTicketStage)
    } else {
        None
    }
}

/// Turns a scanned ticket of an event that has ended into a keepsake. Anyone may ask.
pub fn upgrade_to_collectible(
    event_key: &Address,
    event: &EventAccount,
    ticket: &mut TicketAccount,
    now: i64,
) -> (r: Result<(), ErrorCode>)
    ensures
        match upgrade_error(event_key@, *event, *old(ticket), now) {
            Some(e) => r == Err::<(), ErrorCode>(e) && *final(ticket) == *old(ticket),
            None => r is Ok && *final(ticket) == staged(*old(ticket), TicketStage::Collectible),
        },
        r is Ok <==> (old(ticket).event@ == event_key@ && now > event.end_ts
            && old(ticket).was_scanned && old(ticket).stage == TicketStage::Scanned),
        r is Ok ==> stage_transition_allowed(old(ticket).stage, final(ticket).stage),
        ticket_step(*old(ticket), *final(ticket)),
        old(ticket).wf() ==> final(ticket).wf(),
{
    if !ticket.event.same(event_key) {
        return Err(ErrorCode::WrongEvent);
    }
    if !(now > event.end_ts) {
        return Err(ErrorCode::EventNotOver);
    }
    if !ticket.was_scanned {
        return Err(ErrorCode::TicketNotScanned);
    }
    if ticket.stage != TicketStage::Scanned {
        return Err(ErrorCode::InvalidTicketStage);
    }
    ticket.stage = TicketStage::Collectible;
    Ok(())
}

} // verus!
