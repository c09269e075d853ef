//! Deterministic record addressing.
//!
//! Every record lives at an address computed from a namespace tag and, for
//! stake records, the owner's identity. Here an address is modeled as that
//! pair itself, which makes the three guarantees of the scheme immediate:
//! derivation is deterministic, addresses of different owners are distinct,
//! and a derived address is a separate type from an identity, so no caller
//! can present one as an ordinary signing key.

use crate::identity::Identity;
use vstd::prelude::*;

verus! {

/// The address of a record, derived from a namespace tag and the bytes the
/// tag calls for.
#[derive(Clone, Copy, Debug, PartialEq, Eq, Structural)]
pub enum RecordAddress {
    /// The singleton address of the global configuration record.
    GlobalConfig,
    /// The address of the stake record bound to one owner.
    StakeFor(Identity),
}

/// Derives the singleton address of the global configuration record.
pub fn derive_global_config_address() -> (a: RecordAddress)
    ensures
        a == RecordAddress::GlobalConfig,
{
    RecordAddress::GlobalConfig
}

/// Derives the address of the stake record owned by `owner`. The same owner
/// always gets the same address, so a later deposit or withdrawal finds the
/// record the first deposit created.
pub fn derive_stake_address(owner: Identity) -> (a: RecordAddress)
    ensures
        a == RecordAddress::StakeFor(owner),
{
    RecordAddress::StakeFor(owner)
}

/// Law: the addressing scheme is collision-free. Stake records of different
/// owners live at different addresses, and no stake record shares the
/// global configuration record's address.
pub proof fn lemma_derived_addresses_distinct(o1: Identity, o2: Identity)
    ensures
        o1 != o2 ==> RecordAddress::StakeFor(o1) != RecordAddress::StakeFor(o2),
        RecordAddress::StakeFor(o1) != RecordAddress::GlobalConfig,
{
}

} // verus!
