use vstd::prelude::*;
use vstd::utf8::encode_utf8;

use crate::error::VerfiError;

verus! {

/// The largest number of bytes one seed component may hold.
pub const MAX_SEED_LEN: usize = 32;

/// The largest number of seed components an address is made of, the bump
/// included.
pub const MAX_SEEDS: usize = 16;

/// The largest number of bytes an event's name may hold. A name longer than
/// one seed component is spread over two.
pub const MAX_NAME_LEN: usize = 50;

/// A 32-byte account address.
#[derive(Clone, Copy, Debug, PartialEq, Eq, Hash)]
pub struct Address {
    pub bytes: [u8; 32],
}

impl View for Address {
    type V = Seq<u8>;

    open spec fn view(&self) -> Seq<u8> {
        self.bytes@
    }
}

/// The address and bump that the program-address search settles on for the
/// seeds under the program; `None` when the search fails.
pub uninterp spec fn found_program_address(seeds: Seq<Seq<u8>>, program_id: Seq<u8>) -> Option<(Seq<u8>, u8)>;

/// The program address that exactly these seeds (bump included) give under the
/// program; `None` when they give none.
pub uninterp spec fn created_program_address(seeds: Seq<Seq<u8>>, program_id: Seq<u8>) -> Option<Seq<u8>>;

/// The seed views of an executable seed list.
pub open spec fn seeds_view(seeds: Seq<Vec<u8>>) -> Seq<Seq<u8>> {
    seeds.map_values(|s: Vec<u8>| s@)
}

/// The UTF-8 bytes of a name, as it enters a seed.
pub open spec fn name_bytes(name: Seq<char>) -> Seq<u8> {
    encode_utf8(name)
}

/// `"event"`
pub open spec fn event_tag() -> Seq<u8> {
    seq![101u8, 118u8, 101u8, 110u8, 116u8]
}

/// `"badge"`
pub open spec fn badge_tag() -> Seq<u8> {
    seq![98u8, 97u8, 100u8, 103u8, 101u8]
}

/// `"mint"`
pub open spec fn mint_tag() -> Seq<u8> {
    seq![109u8, 105u8, 110u8, 116u8]
}

/// A name's bytes as seed components: one while they fit a component,
/// else the first `MAX_SEED_LEN` bytes and the rest.
pub open spec fn name_seeds(bytes: Seq<u8>) -> Seq<Seq<u8>> {
    if bytes.len() <= MAX_SEED_LEN {
        seq![bytes]
    } else {
        seq![bytes.take(MAX_SEED_LEN as int), bytes.skip(MAX_SEED_LEN as int)]
    }
}

/// Seeds of an event's address: the tag, the organizer, the name.
pub open spec fn event_seeds(organizer: Seq<u8>, name: Seq<char>) -> Seq<Seq<u8>> {
    seq![event_tag(), organizer] + name_seeds(name_bytes(name))
}

/// What deriving an event's address gives: an error for a name over
/// `MAX_NAME_LEN` bytes, else the derivation from its seeds.
pub open spec fn event_derivation(organizer: Seq<u8>, name: Seq<char>, program_id: Seq<u8>) -> Result<(Seq<u8>, u8), VerfiError> {
    if name_bytes(name).len() > MAX_NAME_LEN {
        Err(VerfiError::InvalidSeedLength)
    } else {
        derivation(event_seeds(organizer, name), program_id)
    }
}

/// Seeds of a credential's address: the tag, the event's address, the holder.
pub open spec fn credential_seeds(event: Seq<u8>, holder: Seq<u8>) -> Seq<Seq<u8>> {
    seq![badge_tag(), event, holder]
}

/// Seeds of the token mint of a credential: the tag, the event's address, the holder.
pub open spec fn mint_seeds(event: Seq<u8>, holder: Seq<u8>) -> Seq<Seq<u8>> {
    seq![mint_tag(), event, holder]
}

/// The seeds with the bump appended, as the event signs with them.
pub open spec fn with_bump(seeds: Seq<Seq<u8>>, bump: u8) -> Seq<Seq<u8>> {
    seeds.push(seq![bump])
}

/// Whether every seed component fits the bound.
pub open spec fn seeds_in_bounds(seeds: Seq<Seq<u8>>) -> bool {
    forall|i: int| 0 <= i < seeds.len() ==> #[trigger] seeds[i].len() <= MAX_SEED_LEN
}

/// What deriving an address from the seeds gives: an error for an oversized
/// seed or for too many seeds to leave room for the bump, else the search's
/// address and bump.
pub open spec fn derivation(seeds: Seq<Seq<u8>>, program_id: Seq<u8>) -> Result<(Seq<u8>, u8), VerfiError> {
    if !seeds_in_bounds(seeds) || seeds.len() >= MAX_SEEDS {
        Err(VerfiError::InvalidSeedLength)
    } else {
        match found_program_address(seeds, program_id) {
            Some(found) => Ok(found),
            None => Err(VerfiError::DerivationExhausted),
        }
    }
}

/// The view of an executable derivation result.
pub open spec fn derived_view(r: Result<(Address, u8), VerfiError>) -> Result<(Seq<u8>, u8), VerfiError> {
    match r {
        Ok((a, b)) => Ok((a@, b)),
        Err(e) => Err(e),
    }
}

/// Relies on `Pubkey::try_find_program_address`: a function of the seeds and
/// the program alone. It tries the bumps from 255 down to 1 with
/// `Pubkey::create_program_address` and takes the first, so the largest, that
/// gives an address; it gives `None` when none does, and when a seed is over
/// `MAX_SEED_LEN` bytes or the seeds with the bump are over `MAX_SEEDS`.
#[verifier::external_body]
fn try_find_program_address(seeds: &Vec<Vec<u8>>, program_id: &Address) -> (r: Option<(Address, u8)>)
    ensures
        match r {
            Some((a, b)) => found_program_address(seeds_view(seeds@), program_id@) == Some((a@, b)),
            None => found_program_address(seeds_view(seeds@), program_id@) is None,
        },
        match r {
            Some((a, b)) => {
                &&& b >= 1
                &&& created_program_address(with_bump(seeds_view(seeds@), b), program_id@) == Some(a@)
                &&& forall|c: u8| c > b ==> (#[trigger] created_program_address(
                    with_bump(seeds_view(seeds@), c),
                    program_id@,
                )) is None
            },
            None => forall|c: u8| c >= 1 ==> (#[trigger] created_program_address(
                with_bump(seeds_view(seeds@), c),
                program_id@,
            )) is None,
        },
        !seeds_in_bounds(seeds_view(seeds@)) || seeds@.len() >= MAX_SEEDS ==> r is None,
{
    let slices: Vec<&[u8]> = seeds.iter().map(|s| s.as_slice()).collect();
    let program = anchor_lang::prelude::Pubkey::new_from_array(program_id.bytes);
    anchor_lang::prelude::Pubkey::try_find_program_address(&slices, &program)
        .map(|(key, bump)| (Address { bytes: key.to_bytes() }, bump))
}

/// Relies on `Pubkey::create_program_address`: a function of the seeds and the
/// program alone; every error it reports becomes `None`.
#[verifier::external_body]
pub(crate) fn create_program_address(seeds: &Vec<Vec<u8>>, program_id: &Address) -> (r: Option<Address>)
    ensures
        match r {
            Some(a) => created_program_address(seeds_view(seeds@), program_id@) == Some(a@),
            None => created_program_address(seeds_view(seeds@), program_id@) is None,
        },
{
    let slices: Vec<&[u8]> = seeds.iter().map(|s| s.as_slice()).collect();
    let program = anchor_lang::prelude::Pubkey::new_from_array(program_id.bytes);
    anchor_lang::prelude::Pubkey::create_program_address(&slices, &program)
        .ok()
        .map(|key| Address { bytes: key.to_bytes() })
}

impl Address {
    /// The address's bytes as a vector.
    pub fn to_vec(&self) -> (r: Vec<u8>)
        ensures
            r@ == self@,
    {
        let mut r: Vec<u8> = Vec::new();
        let mut i: usize = 0;
        while i < 32
            invariant
                i <= 32,
                r@ == self@.subrange(0, i as int),
            decreases 32 - i,
        {
            r.push(self.bytes[i]);
            i = i + 1;
            assert(r@ =~= self@.subrange(0, i as int));
        }
        assert(self@.subrange(0, 32) =~= self@);
        r
    }

    /// Whether two addresses hold the same bytes.
    pub fn same_as(&self, other: &Address) -> (r: bool)
        ensures
            r == (self@ == other@),
    {
        let mut i: usize = 0;
        while i < 32
            invariant
                i <= 32,
                forall|j: int| 0 <= j < i ==> self@[j] == other@[j],
            decreases 32 - i,
        {
            if self.bytes[i] != other.bytes[i] {
                return false;
            }
            i = i + 1;
        }
        assert(self@ =~= other@);
        true
    }
}

fn tag_bytes_event() -> (r: Vec<u8>)
    ensures
        r@ == event_tag(),
{
    let r: Vec<u8> = vec![101u8, 118u8, 101u8, 110u8, 116u8];
    assert(r@ =~= event_tag());
    r
}

fn tag_bytes_badge() -> (r: Vec<u8>)
    ensures
        r@ == badge_tag(),
{
    let r: Vec<u8> = vec![98u8, 97u8, 100u8, 103u8, 101u8];
    assert(r@ =~= badge_tag());
    r
}

fn tag_bytes_mint() -> (r: Vec<u8>)
    ensures
        r@ == mint_tag(),
{
    let r: Vec<u8> = vec![109u8, 105u8, 110u8, 116u8];
    assert(r@ =~= mint_tag());
    r
}

/// Derives an address from the seeds: refuses an oversized seed, then searches
/// for the bump.
pub fn derive_address(seeds: &Vec<Vec<u8>>, program_id: &Address) -> (r: Result<(Address, u8), VerfiError>)
    ensures
        derived_view(r) == derivation(seeds_view(seeds@), program_id@),
        match r {
            Ok((a, b)) => created_program_address(with_bump(seeds_view(seeds@), b), program_id@) == Some(a@),
            Err(_) => true,
        },
{
    let mut i: usize = 0;
    while i < seeds.len()
        invariant
            i <= seeds@.len(),
            forall|j: int| 0 <= j < i ==> #[trigger] seeds@[j]@.len() <= MAX_SEED_LEN,
        decreases seeds@.len() - i,
    {
        if seeds[i].len() > MAX_SEED_LEN {
            assert(seeds_view(seeds@)[i as int].len() > MAX_SEED_LEN);
            return Err(VerfiError::InvalidSeedLength);
        }
        i = i + 1;
    }
    assert(seeds_in_bounds(seeds_view(seeds@)));
    if seeds.len() >= MAX_SEEDS {
        return Err(VerfiError::InvalidSeedLength);
    }
    match try_find_program_address(seeds, program_id) {
        Some(found) => Ok(found),
        None => Err(VerfiError::DerivationExhausted),
    }
}

/// The seeds of an event's address.
pub fn event_seed_list(organizer: &Address, name: &String) -> (r: Vec<Vec<u8>>)
    ensures
        seeds_view(r@) == event_seeds(organizer@, name@),
{
    let bytes = name.as_str().as_bytes_vec();
    let mut r: Vec<Vec<u8>> = vec![tag_bytes_event(), organizer.to_vec()];
    let ghost head = r@;
    if bytes.len() <= MAX_SEED_LEN {
        r.push(bytes);
        assert(seeds_view(r@) =~= seeds_view(head) + name_seeds(name_bytes(name@)));
    } else {
        let first = byte_range(&bytes, 0, MAX_SEED_LEN);
        let rest = byte_range(&bytes, MAX_SEED_LEN, bytes.len());
        assert(first@ =~= bytes@.take(MAX_SEED_LEN as int));
        assert(rest@ =~= bytes@.skip(MAX_SEED_LEN as int));
        r.push(first);
        r.push(rest);
        assert(seeds_view(r@) =~= seeds_view(head) + name_seeds(name_bytes(name@)));
    }
    assert(seeds_view(head) =~= seq![event_tag(), organizer@]);
    r
}

/// The bytes of `v` from `from` up to `to`.
fn byte_range(v: &Vec<u8>, from: usize, to: usize) -> (r: Vec<u8>)
    requires
        from <= to <= v@.len(),
    ensures
        r@ == v@.subrange(from as int, to as int),
{
    let mut r: Vec<u8> = Vec::new();
    let mut i: usize = from;
    while i < to
        invariant
            from <= i <= to <= v@.len(),
            r@ == v@.subrange(from as int, i as int),
        decreases to - i,
    {
        r.push(v[i]);
        i = i + 1;
        assert(r@ =~= v@.subrange(from as int, i as int));
    }
    r
}

/// The seeds of a credential's address.
pub fn credential_seed_list(event: &Address, holder: &Address) -> (r: Vec<Vec<u8>>)
    ensures
        seeds_view(r@) == credential_seeds(event@, holder@),
{
    let r: Vec<Vec<u8>> = vec![tag_bytes_badge(), event.to_vec(), holder.to_vec()];
    assert(seeds_view(r@) =~= credential_seeds(event@, holder@));
    r
}

/// The seeds of a credential's token mint.
pub fn mint_seed_list(event: &Address, holder: &Address) -> (r: Vec<Vec<u8>>)
    ensures
        seeds_view(r@) == mint_seeds(event@, holder@),
{
    let r: Vec<Vec<u8>> = vec![tag_bytes_mint(), event.to_vec(), holder.to_vec()];
    assert(seeds_view(r@) =~= mint_seeds(event@, holder@));
    r
}

/// The address of the event that the organizer names so, with its bump.
pub fn derive_event_address(program_id: &Address, organizer: &Address, name: &String) -> (r: Result<(Address, u8), VerfiError>)
    ensures
        derived_view(r) == event_derivation(organizer@, name@, program_id@),
        match r {
            Ok((a, b)) => created_program_address(with_bump(event_seeds(organizer@, name@), b), program_id@) == Some(a@),
            Err(_) => true,
        },
{
    if name.as_str().as_bytes().len() > MAX_NAME_LEN {
        return Err(VerfiError::InvalidSeedLength);
    }
    derive_address(&event_seed_list(organizer, name), program_id)
}

/// The address of the holder's credential for the event, with its bump.
pub fn derive_credential_address(program_id: &Address, event: &Address, holder: &Address) -> (r: Result<(Address, u8), VerfiError>)
    ensures
        derived_view(r) == derivation(credential_seeds(event@, holder@), program_id@),
        match r {
            Ok((a, b)) => created_program_address(with_bump(credential_seeds(event@, holder@), b), program_id@) == Some(a@),
            Err(_) => true,
        },
{
    derive_address(&credential_seed_list(event, holder), program_id)
}

/// The address of the token mint of the holder's credential for the event.
pub fn derive_mint_address(program_id: &Address, event: &Address, holder: &Address) -> (r: Result<(Address, u8), VerfiError>)
    ensures
        derived_view(r) == derivation(mint_seeds(event@, holder@), program_id@),
        match r {
            Ok((a, b)) => created_program_address(with_bump(mint_seeds(event@, holder@), b), program_id@) == Some(a@),
            Err(_) => true,
        },
{
    derive_address(&mint_seed_list(event, holder), program_id)
}

} // verus!
