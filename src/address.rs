use vstd::bytes::spec_u64_to_le_bytes;
use vstd::bytes::u64_to_le_bytes;
use vstd::prelude::*;
use vstd::utf8::encode_utf8;

use crate::text::utf8_of;

verus! {

/// A 32-byte identity on the ledger: a signer, a record, a custody holder.
#[derive(Clone, Copy, Debug)]
pub struct Address {
    pub bytes: [u8; 32],
}

impl Address {
    pub open spec fn view(&self) -> Seq<u8> {
        self.bytes@
    }

    pub fn new(bytes: [u8; 32]) -> (r: Address)
        ensures
            r.bytes == bytes,
    {
        Address { bytes }
    }

    /// The identity's bytes, as a seed.
    pub fn to_vec(&self) -> (r: Vec<u8>)
        ensures
            r@ == self@,
    {
        let mut r: Vec<u8> = Vec::new();
        let mut i: usize = 0;
        while i < 32
            invariant
                0 <= i <= 32,
                self@.len() == 32,
                r@ == self@.subrange(0, i as int),
            decreases 32 - i,
        {
            r.push(self.bytes[i]);
            i = i + 1;
        }
        assert(r@ =~= self@);
        r
    }

    /// Whether the two identities are the same, byte for byte.
    pub fn same(&self, other: &Address) -> (r: bool)
        ensures
            r == (self@ == other@),
    {
        let mut i: usize = 0;
        while i < 32
            invariant
                0 <= i <= 32,
                self@.len() == 32,
                other@.len() == 32,
                forall|j: int| 0 <= j < i ==> self@[j] == other@[j],
            decreases 32 - i,
        {
            if self.bytes[i] != other.bytes[i] {
                return false;
            }
            i = i + 1;
        }
        assert(self@ =~= other@);
        true
    }
}

impl PartialEq for Address {
    fn eq(&self, other: &Address) -> (r: bool) {
        self.same(other)
    }
}

impl Eq for Address {
}

impl vstd::std_specs::cmp::PartialEqSpecImpl for Address {
    open spec fn obeys_eq_spec() -> bool {
        true
    }

    open spec fn eq_spec(&self, other: &Address) -> bool {
        self@ == other@
    }
}

/// The address and bump seed that the ledger derives for a program from a list
/// of seeds: a hash of the seeds and the program id, pushed off the signing curve.
pub uninterp spec fn program_address(seeds: Seq<Seq<u8>>, program: Seq<u8>) -> Option<(Seq<u8>, u8)>;

pub open spec fn seeds_view(seeds: Seq<Vec<u8>>) -> Seq<Seq<u8>> {
    seeds.map_values(|s: Vec<u8>| s@)
}

/// Whether a list of seeds leaves room for the bump seed: at most fifteen seeds,
/// none longer than 32 bytes.
pub open spec fn seeds_fit(seeds: Seq<Seq<u8>>) -> bool {
    &&& seeds.len() <= 15
    &&& forall|i: int| 0 <= i < seeds.len() ==> #[trigger] seeds[i].len() <= 32
}

pub open spec fn found_view(r: Option<(Address, u8)>) -> Option<(Seq<u8>, u8)> {
    match r {
        Some((a, bump)) => Some((a@, bump)),
        None => None,
    }
}

/// Whether a derivation gave exactly `key`.
pub open spec fn derives(pda: Option<(Seq<u8>, u8)>, key: Seq<u8>) -> bool {
    pda matches Some((a, _)) && a == key
}

/// Relies on solana_program's `Pubkey::try_find_program_address`: the address
/// and bump seed it finds are a function of the seeds and the program id, and it
/// finds none when the seeds leave no room for the bump seed.
#[verifier::external_body]
fn find_program_address(seeds: &Vec<Vec<u8>>, program_id: &Address) -> (r: Option<(Address, u8)>)
    ensures
        found_view(r) == program_address(seeds_view(seeds@), program_id@),
        !seeds_fit(seeds_view(seeds@)) ==> r is None,
{
    let parts: Vec<&[u8]> = seeds.iter().map(|s| s.as_slice()).collect();
    let program = solana_program::pubkey::Pubkey::new_from_array(program_id.bytes);
    solana_program::pubkey::Pubkey::try_find_program_address(&parts, &program).map(
        |(a, bump)| (Address { bytes: a.to_bytes() }, bump),
    )
}

pub open spec fn program_tag() -> Seq<u8> {
    encode_utf8("nft-evo-tickets"@)
}

pub open spec fn event_tag() -> Seq<u8> {
    encode_utf8("event"@)
}

pub open spec fn ticket_tag() -> Seq<u8> {
    encode_utf8("ticket"@)
}

pub open spec fn mint_tag() -> Seq<u8> {
    encode_utf8("nft-mint"@)
}

pub open spec fn listing_tag() -> Seq<u8> {
    encode_utf8("listing"@)
}

/// An event record is placed by its organizer and the organizer's event id.
pub open spec fn event_seeds(organizer: Seq<u8>, event_id: u64) -> Seq<Seq<u8>> {
    seq![program_tag(), event_tag(), organizer, spec_u64_to_le_bytes(event_id)]
}

/// A ticket record is placed by its event, its first owner and, for a
/// purchase, the buyer's ticket index.
pub open spec fn ticket_seeds(event: Seq<u8>, owner: Seq<u8>, index: Option<u64>) -> Seq<Seq<u8>> {
    match index {
        Some(i) => seq![program_tag(), ticket_tag(), event, owner, spec_u64_to_le_bytes(i)],
        None => seq![program_tag(), ticket_tag(), event, owner],
    }
}

/// The ticket's asset unit is placed like the ticket, under its own tag.
pub open spec fn mint_seeds(event: Seq<u8>, owner: Seq<u8>, index: Option<u64>) -> Seq<Seq<u8>> {
    match index {
        Some(i) => seq![program_tag(), mint_tag(), event, owner, spec_u64_to_le_bytes(i)],
        None => seq![program_tag(), mint_tag(), event, owner],
    }
}

/// A listing is placed by its ticket alone: one ticket, one listing address.
pub open spec fn listing_seeds(ticket: Seq<u8>) -> Seq<Seq<u8>> {
    seq![program_tag(), listing_tag(), ticket]
}

fn derive(seeds: Vec<Vec<u8>>, program_id: &Address) -> (r: Option<(Address, u8)>)
    ensures
        found_view(r) == program_address(seeds_view(seeds@), program_id@),
{
    find_program_address(&seeds, program_id)
}

/// Where the event record of `organizer`'s event `event_id` lives.
pub fn event_address(program_id: &Address, organizer: &Address, event_id: u64) -> (r: Option<(Address, u8)>)
    ensures
        found_view(r) == program_address(event_seeds(organizer@, event_id), program_id@),
{
    let seeds = vec![utf8_of("nft-evo-tickets"), utf8_of("event"), organizer.to_vec(), u64_to_le_bytes(event_id)];
    assert(seeds_view(seeds@) =~= event_seeds(organizer@, event_id));
    derive(seeds, program_id)
}

fn indexed(mut seeds: Vec<Vec<u8>>, index: Option<u64>) -> (r: Vec<Vec<u8>>)
    ensures
        seeds_view(r@) == match index {
            Some(i) => seeds_view(seeds@).push(spec_u64_to_le_bytes(i)),
            None => seeds_view(seeds@),
        },
{
    let ghost before = seeds@;
    if let Some(i) = index {
        seeds.push(u64_to_le_bytes(i));
        assert(seeds_view(seeds@) =~= seeds_view(before).push(spec_u64_to_le_bytes(i)));
    }
    seeds
}

/// Where the ticket record of `owner` for `event` lives.
pub fn ticket_address(program_id: &Address, event: &Address, owner: &Address, index: Option<u64>) -> (r: Option<(Address, u8)>)
    ensures
        found_view(r) == program_address(ticket_seeds(event@, owner@, index), program_id@),
{
    let seeds = indexed(vec![utf8_of("nft-evo-tickets"), utf8_of("ticket"), event.to_vec(), owner.to_vec()], index);
    assert(seeds_view(seeds@) =~= ticket_seeds(event@, owner@, index));
    derive(seeds, program_id)
}

/// Where the asset unit of `owner`'s ticket for `event` is minted.
pub fn mint_address(program_id: &Address, event: &Address, owner: &Address, index: Option<u64>) -> (r: Option<(Address, u8)>)
    ensures
        found_view(r) == program_address(mint_seeds(event@, owner@, index), program_id@),
{
    let seeds = indexed(vec![utf8_of("nft-evo-tickets"), utf8_of("nft-mint"), event.to_vec(), owner.to_vec()], index);
    assert(seeds_view(seeds@) =~= mint_seeds(event@, owner@, index));
    derive(seeds, program_id)
}

/// Where the listing of `ticket` lives; it is also the custody holder of the
/// ticket's asset unit while the ticket is listed.
pub fn listing_address(program_id: &Address, ticket: &Address) -> (r: Option<(Address, u8)>)
    ensures
        found_view(r) == program_address(listing_seeds(ticket@), program_id@),
{
    let seeds = vec![utf8_of("nft-evo-tickets"), utf8_of("listing"), ticket.to_vec()];
    assert(seeds_view(seeds@) =~= listing_seeds(ticket@));
    derive(seeds, program_id)
}

} // verus!
