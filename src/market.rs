use vstd::prelude::*;

use crate::address::{derives, listing_address, listing_seeds, program_address, Address};
use crate::error::ErrorCode;
use crate::lifecycle::ticket_step;
use crate::state::{EventAccount, ListingAccount, TicketAccount, TicketStage};

verus! {

/// A move of a ticket's asset unit between two holders. While a ticket is
/// listed its unit is held by the listing's address.
#[derive(Clone, Copy, Debug)]
pub struct AssetMove {
    pub mint: Address,
    pub from: Address,
    pub to: Address,
}

/// A payment in the ledger's native currency.
#[derive(Clone, Copy, Debug)]
pub struct Payment {
    pub from: Address,
    pub to: Address,
    pub amount: u64,
}

/// What a purchase from a listing asks of the payment and asset subsystems, all
/// or nothing: the seller's share, the platform fee, and the unit for the buyer.
#[derive(Clone, Copy, Debug)]
pub struct Settlement {
    pub seller_payment: Payment,
    pub fee_payment: Payment,
    pub asset: AssetMove,
}

/// The platform fee, in basis points of the price.
pub const FEE_BASIS_POINTS: u64 = 500;

pub const BASIS_POINTS: u64 = 10000;

/// The platform fee on a price; it is paid to the event's authority.
pub open spec fn platform_fee(price: u64) -> int {
    (price as int) * (FEE_BASIS_POINTS as int) / (BASIS_POINTS as int)
}

/// The share of a price that reaches the seller.
pub open spec fn seller_share(price: u64) -> int {
    price as int - platform_fee(price)
}

/// The move of `ticket`'s asset unit from one holder to another.
pub open spec fn custody_move(ticket: TicketAccount, from: Address, to: Address) -> AssetMove {
    AssetMove { mint: ticket.nft_mint, from, to }
}

/// What a purchase at `price` asks for: the seller's share to the seller, the fee
/// to the event's authority, both from the buyer, and the unit out of custody to
/// the buyer.
pub open spec fn settlement(
    ticket: TicketAccount,
    listing_key: Address,
    buyer: Address,
    seller: Address,
    fee_recipient: Address,
    price: u64,
) -> Settlement {
    Settlement {
        seller_payment: Payment { from: buyer, to: seller, amount: seller_share(price) as u64 },
        fee_payment: Payment { from: buyer, to: fee_recipient, amount: platform_fee(price) as u64 },
        asset: custody_move(ticket, listing_key, buyer),
    }
}

/// Whether `listing_key` is the address derived for the listing of `ticket_key`.
pub open spec fn is_listing_address(program_id: Seq<u8>, ticket_key: Seq<u8>, listing_key: Seq<u8>) -> bool {
    derives(program_address(listing_seeds(ticket_key), program_id), listing_key)
}

/// Whether a ticket and the slot at its listing address agree: the ticket is
/// marked listed exactly when a listing is open, and an open listing covers this
/// ticket, was made by its owner, and expires after it was made.
pub open spec fn listing_consistent(ticket_key: Seq<u8>, ticket: TicketAccount, listing: Option<ListingAccount>) -> bool {
    &&& ticket.is_listed <==> listing is Some
    &&& listing matches Some(l) ==> {
        &&& l.ticket@ == ticket_key
        &&& l.seller@ == ticket.owner@
        &&& l.wf()
    }
}

pub open spec fn with_listed(t: TicketAccount, listed: bool) -> TicketAccount {
    TicketAccount { is_listed: listed, ..t }
}

pub open spec fn sold_to(t: TicketAccount, buyer: Address) -> TicketAccount {
    TicketAccount { owner: buyer, is_listed: false, ..t }
}

/// Why listing a ticket is refused, if it is.
pub open spec fn list_error(
    program_id: Seq<u8>,
    ticket_key: Seq<u8>,
    ticket: TicketAccount,
    listing_key: Seq<u8>,
    listing: Option<ListingAccount>,
    seller: Seq<u8>,
    expires_at: Option<i64>,
    now: i64,
) -> Option<ErrorCode> {
    if ticket.owner@ != seller {
        Some(ErrorCode::Unauthorized)
    } else if ticket.is_listed {
        Some(ErrorCode::TicketAlreadyListed)
    } else if !(ticket.stage == TicketStage::Qr || ticket.stage == TicketStage::Collectible) {
        Some(ErrorCode::CannotListInCurrentStage)
    } else if !is_listing_address(program_id, ticket_key, listing_key) {
        Some(ErrorCode::AddressMismatch)
    } else if listing is Some {
        Some(ErrorCode::TicketAlreadyListed)
    } else if expires_at matches Some(e) && e <= now {
        Some(ErrorCode::InvalidInput)
    } else {
        None
    }
}

fn listing_key_matches(program_id: &Address, ticket_key: &Address, listing_key: &Address) -> (r: Option<u8>)
    ensures
        r is Some <==> is_listing_address(program_id@, ticket_key@, listing_key@),
        r matches Some(b) ==> program_address(listing_seeds(ticket_key@), program_id@) == Some(
            (listing_key@, b),
        ),
{
    match listing_address(program_id, ticket_key) {
        Some((a, bump)) => {
            if a.same(listing_key) {
                Some(bump)
            } else {
                None
            }
        },
        None => None,
    }
}

/// Offers a ticket for resale at `price_lamports`: its asset unit moves from the
/// seller into the custody of the new listing, and the ticket is marked listed.
pub fn list_ticket(
    program_id: &Address,
    ticket_key: &Address,
    ticket: &mut TicketAccount,
    listing_key: &Address,
    listing: &mut Option<ListingAccount>,
    seller: &Address,
    price_lamports: u64,
    expires_at: Option<i64>,
    now: i64,
) -> (r: Result<AssetMove, ErrorCode>)
    ensures
        match list_error(program_id@, ticket_key@, *old(ticket), listing_key@, *old(listing), seller@, expires_at, now) {
            Some(e) => r matches Err(x) && x == e && *final(ticket) == *old(ticket) && *final(listing) == *old(listing),
            None => r matches Ok(m) && {
                &&& m == custody_move(*old(ticket), *seller, *listing_key)
                &&& *final(ticket) == with_listed(*old(ticket), true)
                &&& *final(listing) matches Some(l) && {
                    &&& l.ticket == *ticket_key
                    &&& l.seller == *seller
                    &&& l.price_lamports == price_lamports
                    &&& l.created_at == now
                    &&& l.expires_at == expires_at
                    &&& program_address(listing_seeds(ticket_key@), program_id@) == Some((listing_key@, l.bump))
                }
            },
        },
        listing_consistent(ticket_key@, *old(ticket), *old(listing)) ==> listing_consistent(
            ticket_key@,
            *final(ticket),
            *final(listing),
        ),
        ticket_step(*old(ticket), *final(ticket)),
        old(ticket).wf() ==> final(ticket).wf(),
{
    if !ticket.owner.same(seller) {
        return Err(ErrorCode::Unauthorized);
    }
    if ticket.is_listed {
        return Err(ErrorCode::TicketAlreadyListed);
    }
    if !(ticket.stage == TicketStage::Qr || ticket.stage == TicketStage::Collectible) {
        return Err(ErrorCode::CannotListInCurrentStage);
    }
    let bump = match listing_key_matches(program_id, ticket_key, listing_key) {
        Some(b) => b,
        None => return Err(ErrorCode::AddressMismatch),
    };
    if listing.is_some() {
        return Err(ErrorCode::TicketAlreadyListed);
    }
    if let Some(e) = expires_at {
        if e <= now {
            return Err(ErrorCode::InvalidInput);
        }
    }
    *listing = Some(
        ListingAccount {
            ticket: *ticket_key,
            seller: *seller,
            price_lamports,
            created_at: now,
            expires_at,
            bump,
        },
    );
    ticket.is_listed = true;
    Ok(AssetMove { mint: ticket.nft_mint, from: *seller, to: *listing_key })
}

/// Why buying a listed ticket is refused, if it is. Expiry is checked before
/// the buyer's balance.
pub open spec fn buy_error(
    program_id: Seq<u8>,
    event_key: Seq<u8>,
    ticket_key: Seq<u8>,
    ticket: TicketAccount,
    listing_key: Seq<u8>,
    listing: Option<ListingAccount>,
    buyer_balance: u64,
    now: i64,
) -> Option<ErrorCode> {
    if !ticket.is_listed {
        Some(ErrorCode::TicketNotListed)
    } else if !is_listing_address(program_id, ticket_key, listing_key) {
        Some(ErrorCode::AddressMismatch)
    } else {
        match listing {
            None => Some(ErrorCode::TicketNotListed),
            Some(l) => if l.ticket@ != ticket_key {
                Some(ErrorCode::AddressMismatch)
            } else if ticket.event@ != event_key {
                Some(ErrorCode::WrongEvent)
            } else if l.expires_at matches Some(e) && now > e {
                Some(ErrorCode::ListingExpired)
            } else if buyer_balance < l.price_lamports {
                Some(ErrorCode::InsufficientPayment)
            } else if (l.price_lamports as int) * (FEE_BASIS_POINTS as int) > u64::MAX {
                Some(ErrorCode::ArithmeticOverflow)
            } else {
                None
            },
        }
    }
}

/// Buys a listed ticket: the buyer pays the seller their share and the event's
/// authority the platform fee, the asset unit leaves custody for the buyer, the
/// buyer becomes the owner, and the listing closes.
pub fn buy_marketplace_ticket(
    program_id: &Address,
    event_key: &Address,
    event: &EventAccount,
    ticket_key: &Address,
    ticket: &mut TicketAccount,
    listing_key: &Address,
    listing: &mut Option<ListingAccount>,
    buyer: &Address,
    buyer_balance: u64,
    now: i64,
) -> (r: Result<Settlement, ErrorCode>)
    ensures
        match buy_error(program_id@, event_key@, ticket_key@, *old(ticket), listing_key@, *old(listing), buyer_balance, now) {
            Some(e) => r matches Err(x) && x == e && *final(ticket) == *old(ticket) && *final(listing) == *old(listing),
            None => r matches Ok(s) && *old(listing) matches Some(l) && {
                &&& s == settlement(*old(ticket), *listing_key, *buyer, l.seller, event.authority, l.price_lamports)
                &&& *final(ticket) == sold_to(*old(ticket), *buyer)
                &&& *final(listing) is None
            },
        },
        listing_consistent(ticket_key@, *old(ticket), *old(listing)) ==> listing_consistent(
            ticket_key@,
            *final(ticket),
            *final(listing),
        ),
        ticket_step(*old(ticket), *final(ticket)),
        old(ticket).wf() ==> final(ticket).wf(),
{
    if !ticket.is_listed {
        return Err(ErrorCode::TicketNotListed);
    }
    if listing_key_matches(program_id, ticket_key, listing_key).is_none() {
        return Err(ErrorCode::AddressMismatch);
    }
    let (seller, price, expires_at) = match listing {
        None => return Err(ErrorCode::TicketNotListed),
        Some(l) => {
            if !l.ticket.same(ticket_key) {
                return Err(ErrorCode::AddressMismatch);
            }
            (l.seller, l.price_lamports, l.expires_at)
        },
    };
    if !ticket.event.same(event_key) {
        return Err(ErrorCode::WrongEvent);
    }
    if let Some(e) = expires_at {
        if now > e {
            return Err(ErrorCode::ListingExpired);
        }
    }
    if buyer_balance < price {
        return Err(ErrorCode::InsufficientPayment);
    }
    let scaled = match price.checked_mul(FEE_BASIS_POINTS) {
        Some(v) => v,
        None => return Err(ErrorCode::ArithmeticOverflow),
    };
    let fee = scaled / BASIS_POINTS;
    let seller_amount = price - fee;
    let asset = AssetMove { mint: ticket.nft_mint, from: *listing_key, to: *buyer };
    ticket.owner = *buyer;
    ticket.is_listed = false;
    *listing = None;
    Ok(
        Settlement {
            seller_payment: Payment { from: *buyer, to: seller, amount: seller_amount },
            fee_payment: Payment { from: *buyer, to: event.authority, amount: fee },
            asset,
        },
    )
}

/// Why cancelling a listing is refused, if it is. Expiry plays no part.
pub open spec fn cancel_error(
    program_id: Seq<u8>,
    ticket_key: Seq<u8>,
    ticket: TicketAccount,
    listing_key: Seq<u8>,
    listing: Option<ListingAccount>,
    seller: Seq<u8>,
) -> Option<ErrorCode> {
    if ticket.owner@ != seller {
        Some(ErrorCode::Unauthorized)
    } else if !ticket.is_listed {
        Some(ErrorCode::TicketNotListed)
    } else if !is_listing_address(program_id, ticket_key, listing_key) {
        Some(ErrorCode::AddressMismatch)
    } else {
        match listing {
            None => Some(ErrorCode::TicketNotListed),
            Some(l) => if l.seller@ != seller {
                Some(ErrorCode::Unauthorized)
            } else if l.ticket@ != ticket_key {
                Some(ErrorCode::AddressMismatch)
            } else {
                None
            },
        }
    }
}

/// Withdraws a listing: the asset unit returns from custody to the seller, the
/// ticket is no longer listed, and the listing closes.
pub fn cancel_listing(
    program_id: &Address,
    ticket_key: &Address,
    ticket: &mut TicketAccount,
    listing_key: &Address,
    listing: &mut Option<ListingAccount>,
    seller: &Address,
) -> (r: Result<AssetMove, ErrorCode>)
    ensures
        match cancel_error(program_id@, ticket_key@, *old(ticket), listing_key@, *old(listing), seller@) {
            Some(e) => r matches Err(x) && x == e && *final(ticket) == *old(ticket) && *final(listing) == *old(listing),
            None => r matches Ok(m) && {
                &&& m == custody_move(*old(ticket), *listing_key, *seller)
                &&& *final(ticket) == with_listed(*old(ticket), false)
                &&& *final(listing) is None
            },
        },
        listing_consistent(ticket_key@, *old(ticket), *old(listing)) ==> listing_consistent(
            ticket_key@,
            *final(ticket),
            *final(listing),
        ),
        ticket_step(*old(ticket), *final(ticket)),
        old(ticket).wf() ==> final(ticket).wf(),
{
    if !ticket.owner.same(seller) {
        return Err(ErrorCode::Unauthorized);
    }
    if !ticket.is_listed {
        return Err(ErrorCode::TicketNotListed);
    }
    if listing_key_matches(program_id, ticket_key, listing_key).is_none() {
        return Err(ErrorCode::AddressMismatch);
    }
    match listing {
        None => return Err(ErrorCode::TicketNotListed),
        Some(l) => {
            if !l.seller.same(seller) {
                return Err(ErrorCode::Unauthorized);
            }
            if !l.ticket.same(ticket_key) {
                return Err(ErrorCode::AddressMismatch);
            }
        },
    }
    *listing = None;
    ticket.is_listed = false;
    Ok(AssetMove { mint: ticket.nft_mint, from: *listing_key, to: *seller })
}

} // verus!
