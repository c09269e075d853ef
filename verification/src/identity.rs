//! Opaque participant identities and the ownership tag of a stake record.

use vstd::prelude::*;

verus! {

/// An opaque, fixed-size (32-byte) public identifier for an account or
/// participant, held as two 128-bit halves so that equality is plain
/// field equality.
#[derive(Clone, Copy, Debug, PartialEq, Eq, Structural)]
pub struct Identity {
    pub hi: u128,
    pub lo: u128,
}

/// Ownership tag of a participant stake record. A freshly allocated record
/// is `Unclaimed`; the first successful deposit binds it to its owner, and
/// the owner is immutable from then on.
#[derive(Clone, Copy, Debug, PartialEq, Eq, Structural)]
pub enum StakeOwner {
    Unclaimed,
    ClaimedBy(Identity),
}

/// Whether `caller` may mutate a record whose ownership tag is `owner`:
/// an unclaimed record may be claimed by anyone, a claimed record only by
/// the identity it is bound to.
pub open spec fn owner_allows(owner: StakeOwner, caller: Identity) -> bool {
    match owner {
        StakeOwner::Unclaimed => true,
        StakeOwner::ClaimedBy(o) => o == caller,
    }
}

} // verus!
