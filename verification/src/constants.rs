//! The hard-coded administrator identity and the global stake cap.

use crate::identity::Identity;
use vstd::prelude::*;

verus! {

/// The hard-coded administrator identity: the only caller allowed to
/// initialize the global configuration record.
pub open spec fn spec_owner() -> Identity {
    Identity {
        hi: 0xfe148f57_925b161f_4f34db7e_fa649b2d,
        lo: 0x468a7bb6_c60c6823_7d1669cf_c693375c,
    }
}

/// Exec-mode copy of the administrator identity.
#[verifier::when_used_as_spec(spec_owner)]
pub fn owner() -> (r: Identity)
    ensures
        r == spec_owner(),
{
    Identity {
        hi: 0xfe148f57_925b161f_4f34db7e_fa649b2d,
        lo: 0x468a7bb6_c60c6823_7d1669cf_c693375c,
    }
}

/// Upper bound on the balance of any single stake record, in the smallest
/// native-currency unit.
pub const MAX_STAKE: u64 = 1_000_000_000;

} // verus!
