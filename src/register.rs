use vstd::prelude::*;

use crate::address::{
    credential_seeds, derivation, derive_credential_address, derive_mint_address, event_seed_list,
    event_seeds, mint_seeds, seeds_view, with_bump, Address,
};
use crate::error::VerfiError;
use crate::registry::Registry;

verus! {

/// How far a registration has come. It starts with the credential's address
/// found free; the store changes only when the registration is committed.
#[derive(Clone, Copy, Debug, PartialEq, Eq, Structural)]
pub enum Stage {
    CredentialReserved,
    TokenMinted,
    MetadataAttached,
}

/// The accounts of the registration instruction.
pub struct RegisterAttendee {
    /// The participant, who signs and becomes the holder.
    pub signer: Address,
    /// The event's address.
    pub event: Address,
}

/// A registration in progress: everything its remaining steps need. Only
/// `register_attendee` starts one and only `advance` moves it on, so one that
/// stands at `MetadataAttached` has had its token minted and described.
#[derive(Debug)]
pub struct Registration {
    event: Address,
    holder: Address,
    credential: Address,
    credential_bump: u8,
    mint: Address,
    organizer: Address,
    name: String,
    uri: String,
    event_bump: u8,
    stage: Stage,
}

/// What the token service is asked to do next.
#[derive(Debug)]
pub enum IssuerAction {
    /// Mint `amount` tokens of the mint to the holder, signed by the event.
    MintToken { mint: Address, recipient: Address, amount: u64 },
    /// Describe the mint's token, signed by the event, which stays its
    /// update authority.
    AttachMetadata {
        mint: Address,
        name: String,
        symbol: String,
        uri: String,
        seller_fee_basis_points: u16,
        is_mutable: bool,
        update_authority_is_signer: bool,
    },
    /// Nothing is left to the token service: commit the registration.
    Commit,
}

/// The symbol every credential token carries: `"POAP"`.
pub open spec fn token_symbol() -> Seq<char> {
    seq!['P', 'O', 'A', 'P']
}

/// What starting a registration gives: the event must be found, the
/// credential and mint addresses must derive, and no credential may be stored
/// at the credential's address yet.
pub open spec fn register_post(registry: Registry, ctx: RegisterAttendee, r: Result<Registration, VerfiError>) -> bool {
    match registry.event_at(ctx.event@) {
        None => r == Err::<Registration, VerfiError>(VerfiError::EventNotFound),
        Some(ev) => match derivation(credential_seeds(ctx.event@, ctx.signer@), registry.program()) {
            Err(e) => r == Err::<Registration, VerfiError>(e),
            Ok((key, bump)) => if registry.attendees().contains_key(key) {
                r == Err::<Registration, VerfiError>(VerfiError::AlreadyRegistered)
            } else {
                match derivation(mint_seeds(ctx.event@, ctx.signer@), registry.program()) {
                    Err(e) => r == Err::<Registration, VerfiError>(e),
                    Ok((mint, _)) => {
                        &&& r is Ok
                        &&& r->Ok_0.spec_event() == ctx.event
                        &&& r->Ok_0.spec_holder() == ctx.signer
                        &&& r->Ok_0.spec_credential()@ == key
                        &&& r->Ok_0.spec_credential_bump() == bump
                        &&& r->Ok_0.spec_mint()@ == mint
                        &&& r->Ok_0.spec_organizer() == ev.authority
                        &&& r->Ok_0.spec_name() == ev.name
                        &&& r->Ok_0.spec_uri() == ev.uri
                        &&& r->Ok_0.spec_event_bump() == ev.bump
                        &&& r->Ok_0.spec_stage() == Stage::CredentialReserved
                    },
                }
            },
        },
    }
}

/// What the outcome of the pending step does to a registration: success moves
/// it one stage on, failure abandons it with the step's error.
pub open spec fn advance_post(reg: Registration, succeeded: bool, r: Result<Registration, VerfiError>) -> bool {
    match reg.spec_stage() {
        Stage::CredentialReserved => if succeeded {
            r is Ok && r->Ok_0.same_except_stage(reg) && r->Ok_0.spec_stage() == Stage::TokenMinted
        } else {
            r == Err::<Registration, VerfiError>(VerfiError::IssuanceFailed)
        },
        Stage::TokenMinted => if succeeded {
            r is Ok && r->Ok_0.same_except_stage(reg) && r->Ok_0.spec_stage() == Stage::MetadataAttached
        } else {
            r == Err::<Registration, VerfiError>(VerfiError::MetadataAttachFailed)
        },
        Stage::MetadataAttached => r == Ok::<Registration, VerfiError>(reg),
    }
}

/// Starts the holder's registration for the event: resolves the event and
/// finds the credential's address free. The store is not changed; the
/// registration is applied by `Registry::commit` once its token is issued.
pub fn register_attendee(registry: &Registry, ctx: &RegisterAttendee) -> (r: Result<Registration, VerfiError>)
    ensures
        register_post(*registry, *ctx, r),
{
    let ev = match registry.get_event(&ctx.event) {
        Ok(ev) => ev,
        Err(e) => return Err(e),
    };
    let program_id = registry.program_id();
    let (credential, credential_bump) = match derive_credential_address(&program_id, &ctx.event, &ctx.signer) {
        Ok(found) => found,
        Err(e) => return Err(e),
    };
    if registry.holds_credential_at(&credential) {
        return Err(VerfiError::AlreadyRegistered);
    }
    let (mint, _) = match derive_mint_address(&program_id, &ctx.event, &ctx.signer) {
        Ok(found) => found,
        Err(e) => return Err(e),
    };
    Ok(Registration {
        event: ctx.event,
        holder: ctx.signer,
        credential,
        credential_bump,
        mint,
        organizer: ev.authority,
        name: ev.name,
        uri: ev.uri,
        event_bump: ev.bump,
        stage: Stage::CredentialReserved,
    })
}

impl Registration {
    pub closed spec fn spec_event(&self) -> Address {
        self.event
    }

    pub closed spec fn spec_holder(&self) -> Address {
        self.holder
    }

    pub closed spec fn spec_credential(&self) -> Address {
        self.credential
    }

    pub closed spec fn spec_credential_bump(&self) -> u8 {
        self.credential_bump
    }

    pub closed spec fn spec_mint(&self) -> Address {
        self.mint
    }

    pub closed spec fn spec_organizer(&self) -> Address {
        self.organizer
    }

    pub closed spec fn spec_name(&self) -> String {
        self.name
    }

    pub closed spec fn spec_uri(&self) -> String {
        self.uri
    }

    pub closed spec fn spec_event_bump(&self) -> u8 {
        self.event_bump
    }

    pub closed spec fn spec_stage(&self) -> Stage {
        self.stage
    }

    /// Whether the two registrations agree in everything but their stage.
    pub open spec fn same_except_stage(&self, other: Registration) -> bool {
        &&& self.spec_event() == other.spec_event()
        &&& self.spec_holder() == other.spec_holder()
        &&& self.spec_credential() == other.spec_credential()
        &&& self.spec_credential_bump() == other.spec_credential_bump()
        &&& self.spec_mint() == other.spec_mint()
        &&& self.spec_organizer() == other.spec_organizer()
        &&& self.spec_name() == other.spec_name()
        &&& self.spec_uri() == other.spec_uri()
        &&& self.spec_event_bump() == other.spec_event_bump()
    }

    /// The event's address.
    pub fn event(&self) -> (r: Address)
        ensures
            r == self.spec_event(),
    {
        self.event
    }

    /// The holder.
    pub fn holder(&self) -> (r: Address)
        ensures
            r == self.spec_holder(),
    {
        self.holder
    }

    /// Where the holder's credential will be stored.
    pub fn credential(&self) -> (r: Address)
        ensures
            r == self.spec_credential(),
    {
        self.credential
    }

    /// The bump that completes the derivation of the credential's address.
    pub fn credential_bump(&self) -> (r: u8)
        ensures
            r == self.spec_credential_bump(),
    {
        self.credential_bump
    }

    /// The mint of the token that stands for the credential.
    pub fn mint(&self) -> (r: Address)
        ensures
            r == self.spec_mint(),
    {
        self.mint
    }

    /// How far the registration has come.
    pub fn stage(&self) -> (r: Stage)
        ensures
            r == self.spec_stage(),
    {
        self.stage
    }

    /// Moves the registration on by the outcome of its pending step.
    pub fn advance(self, succeeded: bool) -> (r: Result<Registration, VerfiError>)
        ensures
            advance_post(self, succeeded, r),
    {
        match self.stage {
            Stage::CredentialReserved => if succeeded {
                Ok(Registration { stage: Stage::TokenMinted, ..self })
            } else {
                Err(VerfiError::IssuanceFailed)
            },
            Stage::TokenMinted => if succeeded {
                Ok(Registration { stage: Stage::MetadataAttached, ..self })
            } else {
                Err(VerfiError::MetadataAttachFailed)
            },
            Stage::MetadataAttached => Ok(self),
        }
    }

    /// The step the token service is asked for now.
    pub fn next_action(&self) -> (r: IssuerAction)
        ensures
            match self.spec_stage() {
                Stage::CredentialReserved => r == IssuerAction::MintToken {
                    mint: self.spec_mint(),
                    recipient: self.spec_holder(),
                    amount: 1,
                },
                Stage::TokenMinted => match r {
                    IssuerAction::AttachMetadata {
                        mint,
                        name,
                        symbol,
                        uri,
                        seller_fee_basis_points,
                        is_mutable,
                        update_authority_is_signer,
                    } => {
                        &&& mint == self.spec_mint()
                        &&& name == self.spec_name()
                        &&& symbol@ == token_symbol()
                        &&& uri == self.spec_uri()
                        &&& seller_fee_basis_points == 0
                        &&& !is_mutable
                        &&& update_authority_is_signer
                    },
                    _ => false,
                },
                Stage::MetadataAttached => r == IssuerAction::Commit,
            },
    {
        match self.stage {
            Stage::CredentialReserved => IssuerAction::MintToken { mint: self.mint, recipient: self.holder, amount: 1 },
            Stage::TokenMinted => {
                let symbol = String::from_str("POAP");
                proof {
                    reveal_strlit("POAP");
                    assert(symbol@ =~= token_symbol());
                }
                IssuerAction::AttachMetadata {
                    mint: self.mint,
                    name: self.name.clone(),
                    symbol,
                    uri: self.uri.clone(),
                    seller_fee_basis_points: 0,
                    is_mutable: false,
                    update_authority_is_signer: true,
                }
            },
            Stage::MetadataAttached => IssuerAction::Commit,
        }
    }

    /// The seeds, bump included, with which the event signs for the mint and
    /// its metadata.
    pub fn signer_seeds(&self) -> (r: Vec<Vec<u8>>)
        ensures
            seeds_view(r@) == with_bump(
                event_seeds(self.spec_organizer()@, self.spec_name()@),
                self.spec_event_bump(),
            ),
    {
        let mut seeds = event_seed_list(&self.organizer, &self.name);
        let ghost unbumped = seeds@;
        let bump_seed: Vec<u8> = vec![self.event_bump];
        assert(bump_seed@ =~= seq![self.event_bump]);
        seeds.push(bump_seed);
        assert(seeds_view(seeds@) =~= seeds_view(unbumped).push(seq![self.event_bump]));
        seeds
    }
}

} // verus!
