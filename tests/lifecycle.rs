use nft_evo_tickets::address::{event_address, mint_address, ticket_address, Address};
use nft_evo_tickets::error::{ErrorClass, ErrorCode};
use nft_evo_tickets::event::create_event;
use nft_evo_tickets::issue::{buy_event_ticket, mint_ticket};
use nft_evo_tickets::lifecycle::{initial_stage, update_ticket, update_ticket_metadata, upgrade_to_collectible};
use nft_evo_tickets::state::{EventAccount, TicketAccount, TicketStage};

fn program() -> Address {
    Address::new([7u8; 32])
}

fn organizer() -> Address {
    Address::new([1u8; 32])
}

fn scanner() -> Address {
    Address::new([2u8; 32])
}

fn holder() -> Address {
    Address::new([3u8; 32])
}

fn new_event(supply: u32) -> (Address, EventAccount) {
    let (key, _) = event_address(&program(), &organizer(), 42).unwrap();
    let mut slot = None;
    create_event(&program(), &key, &mut slot, &organizer(), 42, b"Summer Fest".to_vec(), 1000, 2000, supply, Vec::new()).unwrap();
    (key, slot.unwrap())
}

fn ticket_at(event_key: Address, stage: TicketStage, was_scanned: bool) -> TicketAccount {
    TicketAccount {
        event: event_key,
        owner: holder(),
        nft_mint: Address::new([9u8; 32]),
        seat: None,
        stage,
        is_listed: false,
        was_scanned,
        listing_price: None,
        listing_expires_at: None,
        bump: 0,
    }
}

fn all_stages() -> Vec<TicketStage> {
    vec![TicketStage::Prestige, TicketStage::Qr, TicketStage::Scanned, TicketStage::Collectible]
}

#[test]
fn initial_stage_follows_start_time() {
    assert_eq!(initial_stage(500, 1000), TicketStage::Prestige);
    assert_eq!(initial_stage(1500, 1000), TicketStage::Qr);
    assert_eq!(initial_stage(1000, 1000), TicketStage::Qr);
    assert_eq!(initial_stage(999, 1000), TicketStage::Prestige);
}

#[test]
fn minted_ticket_stage_depends_on_time() {
    let (event_key, event) = new_event(10);
    for (now, expected) in [(500i64, TicketStage::Prestige), (1500i64, TicketStage::Qr)] {
        let (ticket_key, _) = ticket_address(&program(), &event_key, &holder(), None).unwrap();
        let (mint_key, _) = mint_address(&program(), &event_key, &holder(), None).unwrap();
        let mut slot = None;
        let issued = mint_ticket(&program(), &event_key, &event, &organizer(), &holder(), &ticket_key, &mut slot, &mint_key, None, None, now).unwrap();
        let ticket = slot.unwrap();
        assert_eq!(ticket.stage, expected);
        assert!(!ticket.was_scanned);
        assert!(!ticket.is_listed);
        assert_eq!(ticket.owner, holder());
        assert_eq!(ticket.nft_mint, mint_key);
        assert_eq!(issued.recipient, holder());
        assert_eq!(issued.mint_authority, ticket_key);
        assert!(issued.payment.is_none());
    }
}

#[test]
fn purchased_ticket_stage_depends_on_time() {
    for (now, expected) in [(500i64, TicketStage::Prestige), (1500i64, TicketStage::Qr)] {
        let (event_key, mut event) = new_event(10);
        let (ticket_key, _) = ticket_address(&program(), &event_key, &holder(), Some(0)).unwrap();
        let (mint_key, _) = mint_address(&program(), &event_key, &holder(), Some(0)).unwrap();
        let mut slot = None;
        buy_event_ticket(&program(), &event_key, &mut event, &holder(), &organizer(), 10, None, 0, &ticket_key, &mut slot, &mint_key, now).unwrap();
        assert_eq!(slot.unwrap().stage, expected);
    }
}

#[test]
fn mint_by_stranger_is_refused() {
    let (event_key, event) = new_event(10);
    let (ticket_key, _) = ticket_address(&program(), &event_key, &holder(), None).unwrap();
    let (mint_key, _) = mint_address(&program(), &event_key, &holder(), None).unwrap();
    let mut slot = None;
    let r = mint_ticket(&program(), &event_key, &event, &holder(), &holder(), &ticket_key, &mut slot, &mint_key, None, None, 0);
    assert_eq!(r.err(), Some(ErrorCode::Unauthorized));
    assert!(slot.is_none());
}

#[test]
fn mint_at_wrong_address_is_refused() {
    let (event_key, event) = new_event(10);
    let (mint_key, _) = mint_address(&program(), &event_key, &holder(), None).unwrap();
    let mut slot = None;
    let r = mint_ticket(&program(), &event_key, &event, &organizer(), &holder(), &Address::new([5u8; 32]), &mut slot, &mint_key, None, None, 0);
    assert_eq!(r.err(), Some(ErrorCode::AddressMismatch));
    assert!(slot.is_none());
}

#[test]
fn second_mint_for_same_owner_is_refused() {
    let (event_key, event) = new_event(10);
    let (ticket_key, _) = ticket_address(&program(), &event_key, &holder(), None).unwrap();
    let (mint_key, _) = mint_address(&program(), &event_key, &holder(), None).unwrap();
    let mut slot = Some(ticket_at(event_key, TicketStage::Qr, false));
    let r = mint_ticket(&program(), &event_key, &event, &organizer(), &holder(), &ticket_key, &mut slot, &mint_key, None, None, 0);
    assert_eq!(r.err(), Some(ErrorCode::TicketAlreadyExists));
}

#[test]
fn stage_table_holds_for_every_pair() {
    let (event_key, mut event) = new_event(10);
    event.scanner = scanner();
    for from in all_stages() {
        for to in all_stages() {
            let signer = if to == TicketStage::Scanned { scanner() } else { organizer() };
            let scanned = from == TicketStage::Scanned || from == TicketStage::Collectible;
            let mut ticket = ticket_at(event_key, from, scanned);
            let r = update_ticket(&event_key, &event, &mut ticket, &signer, to);
            let legal = matches!(
                (from, to),
                (TicketStage::Prestige, TicketStage::Qr) | (TicketStage::Qr, TicketStage::Qr) | (TicketStage::Qr, TicketStage::Scanned)
            );
            if legal {
                assert!(r.is_ok(), "{:?} -> {:?}", from, to);
                assert_eq!(ticket.stage, to);
            } else {
                assert_eq!(r, Err(ErrorCode::InvalidTicketStage), "{:?} -> {:?}", from, to);
                assert_eq!(r.unwrap_err().class(), ErrorClass::State);
                assert_eq!(ticket.stage, from);
            }
            let mut ticket = ticket_at(event_key, from, scanned);
            let r = upgrade_to_collectible(&event_key, &event, &mut ticket, 3000);
            if to == TicketStage::Collectible && from == TicketStage::Scanned {
                assert!(r.is_ok());
                assert_eq!(ticket.stage, TicketStage::Collectible);
            } else if from != TicketStage::Scanned {
                assert!(r.is_err());
                assert_eq!(ticket.stage, from);
            }
        }
    }
}

#[test]
fn only_authority_moves_to_qr() {
    let (event_key, mut event) = new_event(10);
    event.scanner = scanner();
    let mut ticket = ticket_at(event_key, TicketStage::Prestige, false);
    assert_eq!(update_ticket(&event_key, &event, &mut ticket, &scanner(), TicketStage::Qr), Err(ErrorCode::Unauthorized));
    assert_eq!(ticket.stage, TicketStage::Prestige);
    assert_eq!(update_ticket(&event_key, &event, &mut ticket, &organizer(), TicketStage::Qr), Ok(()));
    assert_eq!(ticket.stage, TicketStage::Qr);
}

#[test]
fn only_scanner_scans() {
    let (event_key, mut event) = new_event(10);
    event.scanner = scanner();
    let mut ticket = ticket_at(event_key, TicketStage::Qr, false);
    assert_eq!(update_ticket(&event_key, &event, &mut ticket, &organizer(), TicketStage::Scanned), Err(ErrorCode::Unauthorized));
    assert!(!ticket.was_scanned);
    assert_eq!(update_ticket(&event_key, &event, &mut ticket, &scanner(), TicketStage::Scanned), Ok(()));
    assert_eq!(ticket.stage, TicketStage::Scanned);
    assert!(ticket.was_scanned);
}

#[test]
fn ticket_of_other_event_is_refused() {
    let (event_key, event) = new_event(10);
    let mut ticket = ticket_at(Address::new([8u8; 32]), TicketStage::Prestige, false);
    assert_eq!(update_ticket(&event_key, &event, &mut ticket, &organizer(), TicketStage::Qr), Err(ErrorCode::WrongEvent));
    assert_eq!(upgrade_to_collectible(&event_key, &event, &mut ticket, 3000), Err(ErrorCode::WrongEvent));
}

#[test]
fn scanned_mark_is_never_cleared() {
    let (event_key, mut event) = new_event(10);
    event.scanner = scanner();
    let mut ticket = ticket_at(event_key, TicketStage::Qr, false);
    update_ticket(&event_key, &event, &mut ticket, &scanner(), TicketStage::Scanned).unwrap();
    assert!(ticket.was_scanned);
    assert!(update_ticket(&event_key, &event, &mut ticket, &organizer(), TicketStage::Qr).is_err());
    assert!(ticket.was_scanned);
    upgrade_to_collectible(&event_key, &event, &mut ticket, 2001).unwrap();
    assert!(ticket.was_scanned);
    assert_eq!(ticket.stage, TicketStage::Collectible);
}

#[test]
fn upgrade_needs_end_scan_and_stage() {
    let (event_key, event) = new_event(10);
    let mut ticket = ticket_at(event_key, TicketStage::Scanned, true);
    let r = upgrade_to_collectible(&event_key, &event, &mut ticket, 2000);
    assert_eq!(r, Err(ErrorCode::EventNotOver));
    assert_eq!(r.unwrap_err().class(), ErrorClass::Temporal);
    assert_eq!(ticket.stage, TicketStage::Scanned);

    let mut ticket = ticket_at(event_key, TicketStage::Qr, false);
    let r = upgrade_to_collectible(&event_key, &event, &mut ticket, 2001);
    assert_eq!(r, Err(ErrorCode::TicketNotScanned));
    assert_eq!(r.unwrap_err().class(), ErrorClass::State);

    let mut ticket = ticket_at(event_key, TicketStage::Collectible, true);
    let r = upgrade_to_collectible(&event_key, &event, &mut ticket, 2001);
    assert_eq!(r, Err(ErrorCode::InvalidTicketStage));

    let mut ticket = ticket_at(event_key, TicketStage::Scanned, true);
    assert_eq!(upgrade_to_collectible(&event_key, &event, &mut ticket, 2001), Ok(()));
    assert_eq!(ticket.stage, TicketStage::Collectible);
}

#[test]
fn metadata_update_carries_new_uri() {
    let (event_key, event) = new_event(10);
    let mut ticket = ticket_at(event_key, TicketStage::Prestige, false);
    let u = update_ticket_metadata(&event_key, &event, &mut ticket, &organizer(), TicketStage::Qr, b"https://x/y.json".to_vec()).unwrap();
    assert_eq!(ticket.stage, TicketStage::Qr);
    assert_eq!(u.uri, b"https://x/y.json".to_vec());
    assert_eq!(u.name, b"Summer Fest".to_vec());
    assert_eq!(u.symbol, b"EVOT".to_vec());
    assert_eq!(u.update_authority, event_key);
    assert_eq!(u.mint, Address::new([9u8; 32]));

    let mut ticket = ticket_at(event_key, TicketStage::Prestige, false);
    let r = update_ticket_metadata(&event_key, &event, &mut ticket, &organizer(), TicketStage::Collectible, Vec::new());
    assert_eq!(r.err(), Some(ErrorCode::InvalidTicketStage));
    assert_eq!(ticket.stage, TicketStage::Prestige);
}

#[test]
fn sale_at_capacity_is_refused() {
    let (event_key, mut event) = new_event(1);
    let (ticket_key, _) = ticket_address(&program(), &event_key, &holder(), Some(1)).unwrap();
    let (mint_key, _) = mint_address(&program(), &event_key, &holder(), Some(1)).unwrap();
    let mut slot = None;
    buy_event_ticket(&program(), &event_key, &mut event, &holder(), &organizer(), 10, None, 1, &ticket_key, &mut slot, &mint_key, 0).unwrap();
    assert_eq!(event.tickets_sold, 1);

    let other = Address::new([4u8; 32]);
    let (ticket_key, _) = ticket_address(&program(), &event_key, &other, Some(1)).unwrap();
    let (mint_key, _) = mint_address(&program(), &event_key, &other, Some(1)).unwrap();
    let mut slot = None;
    let r = buy_event_ticket(&program(), &event_key, &mut event, &other, &organizer(), 10, None, 1, &ticket_key, &mut slot, &mint_key, 0);
    assert_eq!(r.as_ref().err(), Some(&ErrorCode::SoldOut));
    assert_eq!(r.err().unwrap().class(), ErrorClass::Resource);
    assert_eq!(event.tickets_sold, 1);
    assert_eq!(event.ticket_supply, 1);
    assert!(slot.is_none());
}

#[test]
fn sale_pays_organizer_and_counts() {
    let (event_key, mut event) = new_event(5);
    let (ticket_key, bump) = ticket_address(&program(), &event_key, &holder(), Some(3)).unwrap();
    let (mint_key, _) = mint_address(&program(), &event_key, &holder(), Some(3)).unwrap();
    let mut slot = None;
    let issued = buy_event_ticket(&program(), &event_key, &mut event, &holder(), &organizer(), 250, Some(b"A1".to_vec()), 3, &ticket_key, &mut slot, &mint_key, 0).unwrap();
    assert_eq!(event.tickets_sold, 1);
    let p = issued.payment.unwrap();
    assert_eq!((p.from, p.to, p.amount), (holder(), organizer(), 250));
    let ticket = slot.unwrap();
    assert_eq!(ticket.bump, bump);
    assert_eq!(ticket.seat, Some(b"A1".to_vec()));
    assert_eq!(issued.metadata.name, "TIX • Summer Fest • A1".as_bytes().to_vec());
    assert_eq!(issued.metadata.uri, b"https://example.com/tickets/prestige/Summer-Fest/A1/metadata.json".to_vec());
    assert_eq!(issued.metadata.symbol, b"TIX".to_vec());
    assert_eq!(issued.metadata.seller_fee_basis_points, 0);
    assert_eq!(issued.metadata.creator, organizer());
    assert!(!issued.metadata.creator_verified);
    assert_eq!(issued.metadata.update_authority, event_key);
}

#[test]
fn sale_by_wrong_organizer_is_refused() {
    let (event_key, mut event) = new_event(5);
    let (ticket_key, _) = ticket_address(&program(), &event_key, &holder(), Some(0)).unwrap();
    let (mint_key, _) = mint_address(&program(), &event_key, &holder(), Some(0)).unwrap();
    let mut slot = None;
    let r = buy_event_ticket(&program(), &event_key, &mut event, &holder(), &holder(), 10, None, 0, &ticket_key, &mut slot, &mint_key, 0);
    assert_eq!(r.err().map(|e| e), Some(ErrorCode::Unauthorized));
    assert_eq!(event.tickets_sold, 0);
}

#[test]
fn sale_with_long_seat_is_refused() {
    let (event_key, mut event) = new_event(5);
    let (ticket_key, _) = ticket_address(&program(), &event_key, &holder(), Some(0)).unwrap();
    let (mint_key, _) = mint_address(&program(), &event_key, &holder(), Some(0)).unwrap();
    let mut slot = None;
    let r = buy_event_ticket(&program(), &event_key, &mut event, &holder(), &organizer(), 10, Some(vec![b'x'; 33]), 0, &ticket_key, &mut slot, &mint_key, 0);
    assert_eq!(r.err(), Some(ErrorCode::InvalidInput));
    assert_eq!(event.tickets_sold, 0);
}

#[test]
fn minted_seat_and_uri_are_clamped() {
    let (event_key, event) = new_event(10);
    let (ticket_key, _) = ticket_address(&program(), &event_key, &holder(), None).unwrap();
    let (mint_key, _) = mint_address(&program(), &event_key, &holder(), None).unwrap();
    let mut slot = None;
    let issued = mint_ticket(&program(), &event_key, &event, &organizer(), &holder(), &ticket_key, &mut slot, &mint_key, Some(vec![b's'; 40]), Some(vec![b'u'; 250]), 0).unwrap();
    assert_eq!(slot.unwrap().seat, Some(vec![b's'; 32]));
    assert_eq!(issued.metadata.uri, vec![b'u'; 200]);
    assert!(issued.metadata.name.len() <= 32);
    assert_eq!(issued.metadata.seller_fee_basis_points, 500);
    assert!(issued.metadata.creator_verified);
    assert_eq!(issued.metadata.update_authority, event_key);
}
