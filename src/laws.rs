use vstd::prelude::*;

use crate::address::{credential_seeds, derivation, event_derivation, Address};
use crate::error::VerfiError;
use crate::register::{advance_post, register_post, Registration, RegisterAttendee};
use crate::registry::{commit_post, create_event_post, Event, Registry};

verus! {

/// Deriving an event's address is deterministic: the same program, organizer
/// and name give the same address and bump, or the same error.
pub proof fn lemma_event_derivation_deterministic(
    program_id: Seq<u8>,
    organizer: Seq<u8>,
    name: Seq<char>,
    organizer2: Seq<u8>,
    name2: Seq<char>,
)
    requires
        organizer == organizer2,
        name == name2,
    ensures
        event_derivation(organizer, name, program_id) == event_derivation(organizer2, name2, program_id),
{
}

/// Once a registration for an event and a holder has been committed, a second
/// committed registration for the same pair is refused as already registered
/// and leaves the store as it was.
pub proof fn lemma_second_commit_refused(
    s0: Registry,
    reg1: Registration,
    s1: Registry,
    r1: Result<Address, VerfiError>,
    reg2: Registration,
    s2: Registry,
    r2: Result<Address, VerfiError>,
)
    requires
        commit_post(s0, reg1, s1, r1),
        r1 is Ok,
        reg2.spec_event()@ == reg1.spec_event()@,
        reg2.spec_holder()@ == reg1.spec_holder()@,
        commit_post(s1, reg2, s2, r2),
    ensures
        r2 == Err::<Address, VerfiError>(VerfiError::AlreadyRegistered),
        s2 == s1,
{
    let key = derivation(credential_seeds(reg1.spec_event()@, reg1.spec_holder()@), s0.program())->Ok_0.0;
    assert(s1.attendees().contains_key(key));
    assert(s1.event_at(reg1.spec_event()@) is Some);
}

/// Once a registration for an event and a holder has been committed, starting
/// another one for the same pair is refused as already registered.
pub proof fn lemma_registered_holder_refused(
    s0: Registry,
    reg: Registration,
    s1: Registry,
    r1: Result<Address, VerfiError>,
    ctx: RegisterAttendee,
    r2: Result<Registration, VerfiError>,
)
    requires
        commit_post(s0, reg, s1, r1),
        r1 is Ok,
        ctx.event@ == reg.spec_event()@,
        ctx.signer@ == reg.spec_holder()@,
        register_post(s1, ctx, r2),
    ensures
        r2 == Err::<Registration, VerfiError>(VerfiError::AlreadyRegistered),
{
    let key = derivation(credential_seeds(reg.spec_event()@, reg.spec_holder()@), s0.program())->Ok_0.0;
    assert(s1.attendees().contains_key(key));
    assert(s1.event_at(reg.spec_event()@) is Some);
}

/// An event just created is found at the address derived from its organizer
/// and name, with the given uri and no credential issued.
pub proof fn lemma_created_event_found(
    s0: Registry,
    signer: Address,
    name: String,
    uri: String,
    s1: Registry,
    r: Result<Address, VerfiError>,
)
    requires
        create_event_post(s0, signer, name, uri, s1, r),
        r is Ok,
    ensures
        event_derivation(signer@, name@, s0.program()) is Ok,
        r->Ok_0@ == event_derivation(signer@, name@, s0.program())->Ok_0.0,
        s1.event_at(r->Ok_0@) == Some(
            Event {
                authority: signer,
                name,
                uri,
                bump: event_derivation(signer@, name@, s0.program())->Ok_0.1,
                total_minted: 0,
            },
        ),
{
}

/// Creating the same event twice succeeds once: the second attempt is refused
/// as a duplicate and leaves the store as it was.
pub proof fn lemma_second_creation_refused(
    s0: Registry,
    signer: Address,
    name: String,
    uri: String,
    s1: Registry,
    r1: Result<Address, VerfiError>,
    s2: Registry,
    r2: Result<Address, VerfiError>,
)
    requires
        create_event_post(s0, signer, name, uri, s1, r1),
        r1 is Ok,
        create_event_post(s1, signer, name, uri, s2, r2),
    ensures
        r2 == Err::<Address, VerfiError>(VerfiError::DuplicateEvent),
        s2 == s1,
{
}

/// When minting fails after a registration has found its credential address
/// free, the registration is abandoned and the store holds no credential for
/// the pair; the store itself was never changed.
pub proof fn lemma_failed_mint_rolls_back(
    s: Registry,
    ctx: RegisterAttendee,
    r: Result<Registration, VerfiError>,
    r2: Result<Registration, VerfiError>,
)
    requires
        register_post(s, ctx, r),
        r is Ok,
        advance_post(r->Ok_0, false, r2),
    ensures
        r2 == Err::<Registration, VerfiError>(VerfiError::IssuanceFailed),
        s.credential_of(ctx.event@, ctx.signer@) is None,
{
}

/// Committing a registration deletes nothing: every credential stays as it
/// was, every event stays, and no event's counter goes down.
pub proof fn lemma_commit_keeps_records(
    s0: Registry,
    reg: Registration,
    s1: Registry,
    r: Result<Address, VerfiError>,
)
    requires
        commit_post(s0, reg, s1, r),
    ensures
        forall|k: Seq<u8>| #[trigger] s0.attendees().contains_key(k) ==> s1.attendees().contains_key(k)
            && s1.attendees()[k] == s0.attendees()[k],
        forall|k: Seq<u8>| #[trigger] s0.events().contains_key(k) ==> s1.events().contains_key(k)
            && s1.events()[k].total_minted >= s0.events()[k].total_minted,
{
}

/// Whether the commits run one after another: each registration names the
/// event and the holder, and each commit starts from the store the previous
/// one left.
pub open spec fn commit_run(
    states: Seq<Registry>,
    regs: Seq<Registration>,
    results: Seq<Result<Address, VerfiError>>,
    event: Address,
    holder: Address,
) -> bool {
    &&& states.len() == regs.len() + 1
    &&& results.len() == regs.len()
    &&& forall|i: int| 0 <= i < regs.len() ==> (#[trigger] regs[i]).spec_event()@ == event@
        && regs[i].spec_holder()@ == holder@
    &&& forall|i: int|
        #![trigger results[i]]
        0 <= i < regs.len() ==> commit_post(states[i], regs[i], states[i + 1], results[i])
}

/// Of any number of registrations for one event and one holder committed one
/// after another, where the event is found, the credential address derives
/// and is free and the counter is not full, exactly the first succeeds: every
/// later one is refused as already registered, and the event's counter ends
/// exactly one higher.
pub proof fn lemma_one_of_many_commits(
    states: Seq<Registry>,
    regs: Seq<Registration>,
    results: Seq<Result<Address, VerfiError>>,
    event: Address,
    holder: Address,
)
    requires
        regs.len() >= 1,
        commit_run(states, regs, results, event, holder),
        states[0].event_at(event@) is Some,
        derivation(credential_seeds(event@, holder@), states[0].program()) is Ok,
        !states[0].attendees().contains_key(derivation(credential_seeds(event@, holder@), states[0].program())->Ok_0.0),
        states[0].events()[event@].total_minted < u64::MAX,
    ensures
        results[0] is Ok,
        forall|i: int| 1 <= i < results.len() ==> results[i] == Err::<Address, VerfiError>(VerfiError::AlreadyRegistered),
        states.last().attendees().contains_key(derivation(credential_seeds(event@, holder@), states[0].program())->Ok_0.0),
        states.last().events()[event@].total_minted == states[0].events()[event@].total_minted + 1,
{
    assert(commit_post(states[0], regs[0], states[1], results[0]));
    lemma_later_commits_refused(states, regs, results, event, holder, regs.len() as int);
}

proof fn lemma_later_commits_refused(
    states: Seq<Registry>,
    regs: Seq<Registration>,
    results: Seq<Result<Address, VerfiError>>,
    event: Address,
    holder: Address,
    n: int,
)
    requires
        1 <= n <= regs.len(),
        commit_run(states, regs, results, event, holder),
        results[0] is Ok,
    ensures
        states[n] == states[1],
        forall|i: int| 1 <= i < n ==> results[i] == Err::<Address, VerfiError>(VerfiError::AlreadyRegistered),
    decreases n,
{
    if n > 1 {
        lemma_later_commits_refused(states, regs, results, event, holder, n - 1);
        assert(regs[0].spec_event()@ == event@);
        assert(regs[n - 1].spec_event()@ == event@);
        assert(commit_post(states[0], regs[0], states[1], results[0]));
        assert(commit_post(states[n - 1], regs[n - 1], states[n], results[n - 1]));
        lemma_second_commit_refused(states[0], regs[0], states[1], results[0], regs[n - 1], states[n], results[n - 1]);
    }
}

} // verus!
