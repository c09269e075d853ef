use token_vesting_app::address::{
    derive_global_config_address, derive_stake_address, RecordAddress,
};
use token_vesting_app::identity::Identity;

#[test]
fn derivation_is_deterministic() {
    let o = Identity { hi: 3, lo: 4 };
    assert_eq!(derive_stake_address(o), derive_stake_address(o));
    assert_eq!(derive_global_config_address(), derive_global_config_address());
}

#[test]
fn derived_addresses_are_distinct() {
    let o1 = Identity { hi: 3, lo: 4 };
    let o2 = Identity { hi: 3, lo: 5 };
    assert_ne!(derive_stake_address(o1), derive_stake_address(o2));
    assert_ne!(derive_stake_address(o1), derive_global_config_address());
    assert_eq!(derive_stake_address(o1), RecordAddress::StakeFor(o1));
}
