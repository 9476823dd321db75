use vstd::prelude::*;

verus! {

/// Every failure the library reports.
#[derive(Clone, Copy, Debug, PartialEq, Eq, Structural)]
pub enum VerfiError {
    /// A seed component is longer than an address derivation accepts.
    InvalidSeedLength,
    /// No bump value yields a valid program address for the seeds.
    DerivationExhausted,
    /// An event already lives at the derived address.
    DuplicateEvent,
    /// No event at the address, or the stored record does not re-derive it.
    EventNotFound,
    /// The event's issued counter is at its maximum.
    CounterOverflow,
    /// The holder already has a credential for the event.
    AlreadyRegistered,
    /// The token program refused to mint the credential's token.
    IssuanceFailed,
    /// The metadata program refused to describe the credential's token.
    MetadataAttachFailed,
}

} // verus!
