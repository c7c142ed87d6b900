use vstd::prelude::*;
use vstd::utf8::encode_utf8;

use crate::address::Address;
use crate::text::{clamped, dashed, push_all, utf8_of, copy_bytes, clamp_bytes, dash_spaces};

verus! {

/// An organizer's event: who runs it, who scans at the door, when it runs, and
/// how many of its tickets may be sold. Text fields hold UTF-8 bytes.
pub struct EventAccount {
    pub authority: Address,
    pub scanner: Address,
    pub event_id: u64,
    pub name: Vec<u8>,
    pub start_ts: i64,
    pub end_ts: i64,
    pub tickets_sold: u32,
    pub ticket_supply: u32,
    /// Format of the record; events made by `create_event` carry `EVENT_VERSION`.
    pub version: u8,
    pub cover_image_url: Vec<u8>,
    pub bump: u8,
}

pub const EVENT_VERSION: u8 = 2;

pub const MAX_EVENT_NAME_LEN: usize = 64;

pub const MAX_COVER_IMAGE_URL_LEN: usize = 200;

pub const MAX_SEAT_LEN: usize = 32;

impl EventAccount {
    /// What every event record satisfies.
    pub open spec fn wf(&self) -> bool {
        &&& self.name@.len() <= MAX_EVENT_NAME_LEN
        &&& self.end_ts > self.start_ts
        &&& self.ticket_supply > 0
        &&& self.tickets_sold <= self.ticket_supply
        &&& self.cover_image_url@.len() <= MAX_COVER_IMAGE_URL_LEN
    }
}

/// Where a ticket stands in its lifecycle.
#[derive(Clone, Copy, Debug, PartialEq, Eq, Structural)]
pub enum TicketStage {
    /// Held before the event starts.
    Prestige,
    /// Ready to be shown at the door.
    Qr,
    /// Scanned at the door.
    Scanned,
    /// Kept as a keepsake after an attended event.
    Collectible,
}

/// A ticket: its event, its holder and its asset unit, its stage and flags.
pub struct TicketAccount {
    pub event: Address,
    pub owner: Address,
    pub nft_mint: Address,
    pub seat: Option<Vec<u8>>,
    pub stage: TicketStage,
    pub is_listed: bool,
    /// Set when the ticket is scanned at the door, and never cleared.
    pub was_scanned: bool,
    /// Kept for older readers of the record; listings are held by `ListingAccount`.
    pub listing_price: Option<u64>,
    pub listing_expires_at: Option<i64>,
    pub bump: u8,
}

pub open spec fn seat_view(seat: Option<Vec<u8>>) -> Option<Seq<u8>> {
    match seat {
        Some(s) => Some(s@),
        None => None,
    }
}

impl TicketAccount {
    /// What every ticket record satisfies: a scanned or collectible ticket was
    /// scanned, and its seat label fits its budget.
    pub open spec fn wf(&self) -> bool {
        &&& (self.stage == TicketStage::Scanned || self.stage == TicketStage::Collectible)
            ==> self.was_scanned
        &&& self.seat matches Some(s) ==> s@.len() <= MAX_SEAT_LEN
    }
}

/// An open resale offer for one ticket.
pub struct ListingAccount {
    pub ticket: Address,
    pub seller: Address,
    pub price_lamports: u64,
    pub created_at: i64,
    pub expires_at: Option<i64>,
    pub bump: u8,
}

impl ListingAccount {
    pub open spec fn wf(&self) -> bool {
        self.expires_at matches Some(e) ==> e > self.created_at
    }
}

/// The budget of a ticket's display name, in bytes.
pub const MAX_NAME_LEN: usize = 32;

pub open spec fn name_prefix() -> Seq<u8> {
    encode_utf8("TIX • "@)
}

pub open spec fn seat_separator() -> Seq<u8> {
    encode_utf8(" • "@)
}

pub open spec fn seat_text(seat: Option<Seq<u8>>) -> Seq<u8> {
    match seat {
        Some(s) => s,
        None => Seq::empty(),
    }
}

/// The separator between event name and seat: none without a seat.
pub open spec fn separator_for(seat: Seq<u8>) -> Seq<u8> {
    if seat.len() > 0 {
        seat_separator()
    } else {
        Seq::empty()
    }
}

/// The bytes left for the event name once prefix, separator and seat are placed.
pub open spec fn event_name_budget(seat: Seq<u8>) -> int {
    let left = MAX_NAME_LEN - name_prefix().len() - separator_for(seat).len() - seat.len();
    if left > 0 {
        left
    } else {
        0
    }
}

/// A ticket's display name: the prefix, the event name cut to what the budget
/// leaves (never inside a character), and the seat after a separator.
pub open spec fn ticket_name(event_name: Seq<u8>, seat: Option<Seq<u8>>) -> Seq<u8> {
    let s = seat_text(seat);
    name_prefix() + clamped(event_name, event_name_budget(s)) + separator_for(s) + s
}

/// The path segment of a stage in content locators.
pub open spec fn stage_dir(stage: TicketStage) -> Seq<u8> {
    match stage {
        TicketStage::Prestige => encode_utf8("prestige"@),
        TicketStage::Qr => encode_utf8("qr"@),
        TicketStage::Scanned => encode_utf8("scanned"@),
        TicketStage::Collectible => encode_utf8("collectible"@),
    }
}

/// A ticket's content locator at a stage.
pub open spec fn ticket_uri(stage: TicketStage, event_name: Seq<u8>, seat: Option<Seq<u8>>) -> Seq<u8> {
    encode_utf8("https://example.com/tickets/"@) + stage_dir(stage) + encode_utf8("/"@) + dashed(
        event_name,
    ) + encode_utf8("/"@) + seat_text(seat) + encode_utf8("/metadata.json"@)
}

pub open spec fn seat_ref_view(seat: Option<&Vec<u8>>) -> Option<Seq<u8>> {
    match seat {
        Some(s) => Some(s@),
        None => None,
    }
}

impl TicketStage {
    fn dir(&self) -> (r: Vec<u8>)
        ensures
            r@ == stage_dir(*self),
    {
        match self {
            TicketStage::Prestige => utf8_of("prestige"),
            TicketStage::Qr => utf8_of("qr"),
            TicketStage::Scanned => utf8_of("scanned"),
            TicketStage::Collectible => utf8_of("collectible"),
        }
    }

    /// The content locator of a ticket at this stage.
    pub fn get_http_metadata_uri(&self, event_name: &Vec<u8>, seat: Option<&Vec<u8>>) -> (r: Vec<u8>)
        ensures
            r@ == ticket_uri(*self, event_name@, seat_ref_view(seat)),
    {
        let mut r = utf8_of("https://example.com/tickets/");
        push_all(&mut r, &self.dir());
        push_all(&mut r, &utf8_of("/"));
        push_all(&mut r, &dash_spaces(event_name));
        push_all(&mut r, &utf8_of("/"));
        if let Some(s) = seat {
            push_all(&mut r, s);
        }
        push_all(&mut r, &utf8_of("/metadata.json"));
        r
    }

    /// The display name of a ticket; it is the same at every stage.
    pub fn get_name(&self, event_name: &Vec<u8>, seat: Option<&Vec<u8>>) -> (r: Vec<u8>)
        ensures
            r@ == ticket_name(event_name@, seat_ref_view(seat)),
    {
        let seat_str = match seat {
            Some(s) => copy_bytes(s),
            None => Vec::new(),
        };
        let prefix = utf8_of("TIX • ");
        let separator = if seat_str.len() > 0 {
            utf8_of(" • ")
        } else {
            Vec::new()
        };
        let available = MAX_NAME_LEN.saturating_sub(prefix.len()).saturating_sub(
            separator.len(),
        ).saturating_sub(seat_str.len());
        assert(available as int == event_name_budget(seat_str@));
        let mut r = prefix;
        push_all(&mut r, &clamp_bytes(copy_bytes(event_name), available));
        push_all(&mut r, &separator);
        push_all(&mut r, &seat_str);
        r
    }
}

} // verus!
