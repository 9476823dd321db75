use vstd::prelude::*;

use crate::address::{
    created_program_address, credential_seeds, derivation, derive_credential_address,
    derive_event_address, event_derivation, event_seed_list, event_seeds, name_bytes, seeds_view, with_bump, Address,
};
use crate::error::VerfiError;
use crate::register::Registration;

verus! {

/// An event, stored at the address derived from its organizer and name.
#[derive(Debug)]
pub struct Event {
    /// The organizer who created it.
    pub authority: Address,
    pub name: String,
    /// Where the event's descriptive data lives.
    pub uri: String,
    /// The bump that completes the derivation of the event's address.
    pub bump: u8,
    /// How many credentials have been issued for it.
    pub total_minted: u64,
}

/// Bytes an event account takes: the account discriminator, the authority,
/// the name and uri each with a 4-byte length, the bump and the counter.
pub open spec fn event_space_of(name_len: nat, uri_len: nat) -> nat {
    8 + 32 + 4 + name_len + 4 + uri_len + 1 + 8
}

/// Bytes a credential account takes: the account discriminator, the event,
/// the holder and the bump.
pub const ATTENDEE_SPACE: usize = 8 + 32 + 32 + 1;

impl Event {
    /// Bytes the account of an event with this name and uri takes; `None` when
    /// that does not fit in `usize`.
    pub fn space(name: &String, uri: &String) -> (r: Option<usize>)
        ensures
            r == if event_space_of(name_bytes(name@).len(), name_bytes(uri@).len()) <= usize::MAX {
                Some(event_space_of(name_bytes(name@).len(), name_bytes(uri@).len()) as usize)
            } else {
                None::<usize>
            },
    {
        let name_len = name.as_str().as_bytes().len();
        let uri_len = uri.as_str().as_bytes().len();
        let fixed: usize = 8 + 32 + 4 + 4 + 1 + 8;
        if name_len > usize::MAX - fixed {
            return None;
        }
        if uri_len > usize::MAX - fixed - name_len {
            return None;
        }
        Some(fixed + name_len + uri_len)
    }
}

/// A holder's credential for an event, stored at the address derived from the
/// two.
#[derive(Debug)]
pub struct Attendee {
    /// The event's address.
    pub event: Address,
    /// The holder.
    pub attendee: Address,
    /// The bump that completes the derivation of the credential's address.
    pub bump: u8,
}

impl Event {
    /// A field-for-field copy.
    pub fn copy(&self) -> (r: Event)
        ensures
            r == *self,
    {
        Event {
            authority: self.authority,
            name: self.name.clone(),
            uri: self.uri.clone(),
            bump: self.bump,
            total_minted: self.total_minted,
        }
    }
}

impl Attendee {
    /// A field-for-field copy.
    pub fn copy(&self) -> (r: Attendee)
        ensures
            r == *self,
    {
        Attendee { event: self.event, attendee: self.attendee, bump: self.bump }
    }
}

/// The map that a list of (address, record) entries describes; a later entry
/// for an address shadows an earlier one.
pub open spec fn entries_map<V>(s: Seq<(Address, V)>) -> Map<Seq<u8>, V>
    decreases s.len(),
{
    if s.len() == 0 {
        Map::empty()
    } else {
        entries_map(s.drop_last()).insert(s.last().0@, s.last().1)
    }
}

/// Overwriting the last entry for an address overwrites the map's value there.
proof fn lemma_entries_map_update<V>(s: Seq<(Address, V)>, i: int, v: V)
    requires
        0 <= i < s.len(),
        forall|j: int| i < j < s.len() ==> #[trigger] s[j].0@ != s[i].0@,
    ensures
        entries_map(s.update(i, (s[i].0, v))) == entries_map(s).insert(s[i].0@, v),
    decreases s.len(),
{
    let t = s.update(i, (s[i].0, v));
    if i == s.len() - 1 {
        assert(t.drop_last() =~= s.drop_last());
        assert(entries_map(t) =~= entries_map(s).insert(s[i].0@, v));
    } else {
        assert(t.drop_last() =~= s.drop_last().update(i, (s[i].0, v)));
        lemma_entries_map_update(s.drop_last(), i, v);
        assert(s.last().0@ != s[i].0@);
        assert(entries_map(t) =~= entries_map(s).insert(s[i].0@, v));
    }
}

/// The index of the last entry for the key, if any.
fn find_entry<V>(s: &Vec<(Address, V)>, key: &Address) -> (r: Option<usize>)
    ensures
        match r {
            Some(i) => {
                &&& i < s@.len()
                &&& s@[i as int].0@ == key@
                &&& forall|j: int| i < j < s@.len() ==> #[trigger] s@[j].0@ != key@
                &&& entries_map(s@).contains_key(key@)
                &&& entries_map(s@)[key@] == s@[i as int].1
            },
            None => !entries_map(s@).contains_key(key@),
        },
{
    let mut i: usize = s.len();
    assert(s@.take(i as int) =~= s@);
    while i > 0
        invariant
            i <= s@.len(),
            forall|j: int| i <= j < s@.len() ==> #[trigger] s@[j].0@ != key@,
            entries_map(s@).contains_key(key@) == entries_map(s@.take(i as int)).contains_key(key@),
            entries_map(s@).contains_key(key@) ==> entries_map(s@)[key@] == entries_map(s@.take(i as int))[key@],
        decreases i,
    {
        let k = i - 1;
        assert(s@.take(i as int).drop_last() =~= s@.take(k as int));
        if s[k].0.same_as(key) {
            return Some(k);
        }
        i = k;
    }
    assert(s@.take(0) =~= Seq::<(Address, V)>::empty());
    None
}

/// Whether the event, with its stored bump, re-derives the address it is
/// stored at.
pub open spec fn rederives(ev: Event, key: Seq<u8>, program_id: Seq<u8>) -> bool {
    created_program_address(with_bump(event_seeds(ev.authority@, ev.name@), ev.bump), program_id)
        == Some(key)
}

/// The accounts of the event-creation instruction.
pub struct CreateEvent {
    /// The organizer, who signs and becomes the event's authority.
    pub signer: Address,
}

/// What creating an event does to the store: the event goes to the address
/// derived from the organizer and the name, unless that derivation fails or an
/// event is already there; on failure the store is unchanged.
pub open spec fn create_event_post(
    before: Registry,
    signer: Address,
    name: String,
    uri: String,
    after: Registry,
    r: Result<Address, VerfiError>,
) -> bool {
    match event_derivation(signer@, name@, before.program()) {
        Err(e) => r == Err::<Address, VerfiError>(e) && after == before,
        Ok((key, bump)) => if before.events().contains_key(key) {
            r == Err::<Address, VerfiError>(VerfiError::DuplicateEvent) && after == before
        } else {
            &&& r is Ok
            &&& r->Ok_0@ == key
            &&& after.program() == before.program()
            &&& after.events() == before.events().insert(
                key,
                Event { authority: signer, name, uri, bump, total_minted: 0 },
            )
            &&& after.attendees() == before.attendees()
            &&& rederives(after.events()[key], key, after.program())
        },
    }
}

/// What committing a registration does to the store: at the credential
/// address derived from the event and the holder a credential appears and the
/// event's counter goes up by one, unless the event is not found, the
/// derivation fails, a credential is already there or the counter is full; on
/// failure the store is unchanged.
pub open spec fn commit_post(before: Registry, reg: Registration, after: Registry, r: Result<Address, VerfiError>) -> bool {
    match before.event_at(reg.spec_event()@) {
        None => r == Err::<Address, VerfiError>(VerfiError::EventNotFound) && after == before,
        Some(ev) => match derivation(credential_seeds(reg.spec_event()@, reg.spec_holder()@), before.program()) {
            Err(e) => r == Err::<Address, VerfiError>(e) && after == before,
            Ok((key, bump)) => if before.attendees().contains_key(key) {
                r == Err::<Address, VerfiError>(VerfiError::AlreadyRegistered) && after == before
            } else if ev.total_minted == u64::MAX {
                r == Err::<Address, VerfiError>(VerfiError::CounterOverflow) && after == before
            } else {
                &&& r is Ok
                &&& r->Ok_0@ == key
                &&& after.program() == before.program()
                &&& after.attendees() == before.attendees().insert(
                    key,
                    Attendee { event: reg.spec_event(), attendee: reg.spec_holder(), bump },
                )
                &&& created_program_address(with_bump(credential_seeds(reg.spec_event()@, reg.spec_holder()@), bump), before.program())
                    == Some(key)
                &&& after.events() == before.events().insert(
                    reg.spec_event()@,
                    Event {
                        authority: ev.authority,
                        name: ev.name,
                        uri: ev.uri,
                        bump: ev.bump,
                        total_minted: (ev.total_minted + 1) as u64,
                    },
                )
            },
        },
    }
}

/// Creates the organizer's event under the name, at the address derived from
/// the two; returns that address.
pub fn create_event(registry: &mut Registry, ctx: &CreateEvent, name: String, uri: String) -> (r: Result<Address, VerfiError>)
    ensures
        create_event_post(*old(registry), ctx.signer, name, uri, *final(registry), r),
{
    let (key, bump) = match derive_event_address(&registry.program_id, &ctx.signer, &name) {
        Ok(found) => found,
        Err(e) => return Err(e),
    };
    registry.store_event(key, bump, ctx.signer, name, uri)
}

/// The store of events and credentials owned by one program.
pub struct Registry {
    program_id: Address,
    events: Vec<(Address, Event)>,
    attendees: Vec<(Address, Attendee)>,
}

impl Registry {
    /// The program under which every address is derived.
    pub closed spec fn program(&self) -> Seq<u8> {
        self.program_id@
    }

    /// The stored events, by address.
    pub closed spec fn events(&self) -> Map<Seq<u8>, Event> {
        entries_map(self.events@)
    }

    /// The stored credentials, by address.
    pub closed spec fn attendees(&self) -> Map<Seq<u8>, Attendee> {
        entries_map(self.attendees@)
    }

    /// The event that a lookup at the address finds: one stored there whose
    /// organizer, name and bump re-derive the address.
    pub open spec fn event_at(&self, key: Seq<u8>) -> Option<Event> {
        if self.events().contains_key(key) && rederives(self.events()[key], key, self.program()) {
            Some(self.events()[key])
        } else {
            None
        }
    }

    /// The credential that a lookup for the event and holder finds: the one
    /// stored at their derived address, naming both.
    pub open spec fn credential_of(&self, event: Seq<u8>, holder: Seq<u8>) -> Option<Attendee> {
        match derivation(credential_seeds(event, holder), self.program()) {
            Ok((key, _)) => if self.attendees().contains_key(key) && self.attendees()[key].event@ == event
                && self.attendees()[key].attendee@ == holder {
                Some(self.attendees()[key])
            } else {
                None
            },
            Err(_) => None,
        }
    }

    /// An empty store for the program.
    pub fn new(program_id: Address) -> (r: Registry)
        ensures
            r.program() == program_id@,
            r.events() == Map::<Seq<u8>, Event>::empty(),
            r.attendees() == Map::<Seq<u8>, Attendee>::empty(),
    {
        Registry { program_id, events: Vec::new(), attendees: Vec::new() }
    }

    /// The program under which every address is derived.
    pub fn program_id(&self) -> (r: Address)
        ensures
            r@ == self.program(),
    {
        self.program_id
    }

    /// Stores a new event, with no credential issued, at the address; refuses
    /// an address that already holds one. Whether the address is the event's
    /// own is left to lookups, which re-derive it.
    pub fn store_event(&mut self, address: Address, bump: u8, authority: Address, name: String, uri: String) -> (r: Result<Address, VerfiError>)
        ensures
            final(self).program() == old(self).program(),
            final(self).attendees() == old(self).attendees(),
            old(self).events().contains_key(address@) ==> {
                &&& r == Err::<Address, VerfiError>(VerfiError::DuplicateEvent)
                &&& *final(self) == *old(self)
            },
            !old(self).events().contains_key(address@) ==> {
                &&& r == Ok::<Address, VerfiError>(address)
                &&& final(self).events() == old(self).events().insert(
                    address@,
                    Event { authority, name, uri, bump, total_minted: 0 },
                )
            },
    {
        if find_entry(&self.events, &address).is_some() {
            return Err(VerfiError::DuplicateEvent);
        }
        let ghost before = self.events@;
        self.events.push((address, Event { authority, name, uri, bump, total_minted: 0 }));
        assert(self.events@.drop_last() =~= before);
        Ok(address)
    }

    /// The event at the address, checked to re-derive it.
    pub fn get_event(&self, address: &Address) -> (r: Result<Event, VerfiError>)
        ensures
            r == match self.event_at(address@) {
                Some(ev) => Ok(ev),
                None => Err(VerfiError::EventNotFound),
            },
    {
        match find_entry(&self.events, address) {
            None => Err(VerfiError::EventNotFound),
            Some(i) => {
                let ev = &self.events[i].1;
                let mut seeds = event_seed_list(&ev.authority, &ev.name);
                let ghost unbumped = seeds@;
                let bump_seed: Vec<u8> = vec![ev.bump];
                assert(bump_seed@ =~= seq![ev.bump]);
                seeds.push(bump_seed);
                assert(seeds_view(seeds@) =~= seeds_view(unbumped).push(seq![ev.bump]));
                match crate::address::create_program_address(&seeds, &self.program_id) {
                    Some(derived) => if derived.same_as(address) {
                        Ok(ev.copy())
                    } else {
                        Err(VerfiError::EventNotFound)
                    },
                    None => Err(VerfiError::EventNotFound),
                }
            },
        }
    }

    /// Whether a credential is stored at the address.
    pub fn holds_credential_at(&self, address: &Address) -> (r: bool)
        ensures
            r == self.attendees().contains_key(address@),
    {
        find_entry(&self.attendees, address).is_some()
    }

    /// Applies a registration whose token was minted and described: records
    /// the holder's credential and counts it on the event, both or neither.
    /// Returns the credential's address.
    pub fn commit(&mut self, reg: &Registration) -> (r: Result<Address, VerfiError>)
        requires
            reg.spec_stage() == crate::register::Stage::MetadataAttached,
        ensures
            commit_post(*old(self), *reg, *final(self), r),
    {
        let ev = match self.get_event(&reg.event()) {
            Ok(ev) => ev,
            Err(e) => return Err(e),
        };
        let (key, bump) = match derive_credential_address(&self.program_id, &reg.event(), &reg.holder()) {
            Ok(found) => found,
            Err(e) => return Err(e),
        };
        if find_entry(&self.attendees, &key).is_some() {
            return Err(VerfiError::AlreadyRegistered);
        }
        if ev.total_minted == u64::MAX {
            return Err(VerfiError::CounterOverflow);
        }
        let i = match find_entry(&self.events, &reg.event()) {
            Some(i) => i,
            None => return Err(VerfiError::EventNotFound),
        };
        let ghost events_before = self.events@;
        let ghost attendees_before = self.attendees@;
        self.events[i].1.total_minted = ev.total_minted + 1;
        proof {
            assert(self.events@ =~= events_before.update(
                i as int,
                (events_before[i as int].0, self.events@[i as int].1),
            ));
            lemma_entries_map_update(events_before, i as int, self.events@[i as int].1);
        }
        self.attendees.push((key, Attendee { event: reg.event(), attendee: reg.holder(), bump }));
        assert(self.attendees@.drop_last() =~= attendees_before);
        Ok(key)
    }

    /// The event that the organizer created under the name: found at the
    /// address derived from the two, re-deriving it, and naming both.
    pub fn find_event(&self, organizer: &Address, name: &String) -> (r: Result<Event, VerfiError>)
        ensures
            r == match event_derivation(organizer@, name@, self.program()) {
                Err(e) => Err(e),
                Ok((key, _)) => match self.event_at(key) {
                    Some(ev) => if ev.authority@ == organizer@ && ev.name@ == name@ {
                        Ok(ev)
                    } else {
                        Err(VerfiError::EventNotFound)
                    },
                    None => Err(VerfiError::EventNotFound),
                },
            },
    {
        let (key, _) = match derive_event_address(&self.program_id, organizer, name) {
            Ok(found) => found,
            Err(e) => return Err(e),
        };
        let ev = match self.get_event(&key) {
            Ok(ev) => ev,
            Err(e) => return Err(e),
        };
        if ev.authority.same_as(organizer) && ev.name == *name {
            Ok(ev)
        } else {
            Err(VerfiError::EventNotFound)
        }
    }

    /// The holder's credential for the event, if one was issued.
    pub fn get_credential(&self, event: &Address, holder: &Address) -> (r: Option<Attendee>)
        ensures
            r == self.credential_of(event@, holder@),
    {
        match derive_credential_address(&self.program_id, event, holder) {
            Err(_) => None,
            Ok((key, _)) => match find_entry(&self.attendees, &key) {
                None => None,
                Some(i) => {
                    let a = &self.attendees[i].1;
                    if a.event.same_as(event) && a.attendee.same_as(holder) {
                        Some(a.copy())
                    } else {
                        None
                    }
                },
            },
        }
    }
}

} // verus!
