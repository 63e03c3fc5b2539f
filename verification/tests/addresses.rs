use bpf_iwr_ace::address::Address;
use bpf_iwr_ace::{
    get_mint_address, get_mint_address_with_seed, get_native_pool_address,
    get_native_pool_address_with_seed, get_state_address, get_state_address_with_seed,
    get_token_pool_address, get_token_pool_address_with_seed, id,
};
use solana_program::pubkey::Pubkey;
use std::str::FromStr;

fn program() -> Pubkey {
    Pubkey::from_str("EjhMW84ENMdycHT2vtY8GdvvkcJrbZW6ohmvB72fLGqo").unwrap()
}

fn authority(fill: u8) -> Address {
    let mut bytes = [fill; 32];
    bytes[0] = 1;
    bytes[31] = fill.wrapping_mul(3);
    Address { bytes }
}

fn expected(owner: &Address, tag: &[u8]) -> (Address, u8) {
    let (key, salt) = Pubkey::find_program_address(&[&owner.bytes, tag], &program());
    (Address { bytes: key.to_bytes() }, salt)
}

#[test]
fn the_program_id_is_the_declared_one() {
    assert_eq!(id().bytes, program().to_bytes());
}

#[test]
fn state_address_is_derived_under_its_tag() {
    for fill in [0u8, 7, 200] {
        let owner = authority(fill);
        assert_eq!(get_state_address_with_seed(&owner), Some(expected(&owner, b"state")));
        assert_eq!(get_state_address(&owner), Some(expected(&owner, b"state").0));
    }
}

#[test]
fn mint_address_is_derived_under_its_tag() {
    for fill in [0u8, 7, 200] {
        let owner = authority(fill);
        assert_eq!(get_mint_address_with_seed(&owner), Some(expected(&owner, b"mint")));
        assert_eq!(get_mint_address(&owner), Some(expected(&owner, b"mint").0));
    }
}

#[test]
fn token_pool_address_is_derived_under_its_tag() {
    for fill in [0u8, 7, 200] {
        let owner = authority(fill);
        assert_eq!(
            get_token_pool_address_with_seed(&owner),
            Some(expected(&owner, b"token-pool"))
        );
        assert_eq!(get_token_pool_address(&owner), Some(expected(&owner, b"token-pool").0));
    }
}

#[test]
fn native_pool_address_is_derived_under_its_tag() {
    for fill in [0u8, 7, 200] {
        let owner = authority(fill);
        assert_eq!(
            get_native_pool_address_with_seed(&owner),
            Some(expected(&owner, b"native-pool"))
        );
        assert_eq!(get_native_pool_address(&owner), Some(expected(&owner, b"native-pool").0));
    }
}

#[test]
fn derivation_is_deterministic_and_tells_tags_and_owners_apart() {
    let owner = authority(9);
    let other = authority(10);
    assert_eq!(get_state_address(&owner), get_state_address(&owner));
    assert_ne!(get_state_address(&owner), get_mint_address(&owner));
    assert_ne!(get_token_pool_address(&owner), get_native_pool_address(&owner));
    assert_ne!(get_state_address(&owner), get_state_address(&other));
    assert_ne!(get_state_address(&owner), Some(owner));
}

#[test]
fn derived_addresses_are_off_the_curve() {
    let owner = authority(33);
    let derived = get_native_pool_address(&owner).unwrap();
    assert!(!Pubkey::new_from_array(derived.bytes).is_on_curve());
}

#[test]
fn addresses_compare_by_their_bytes() {
    let a = Address { bytes: [5; 32] };
    let mut bytes = [5u8; 32];
    assert_eq!(a, Address { bytes });
    bytes[31] = 6;
    assert_ne!(a, Address { bytes });
    bytes[31] = 5;
    bytes[0] = 4;
    assert_ne!(a, Address { bytes });
}

#[test]
fn addresses_are_read_and_written_in_place() {
    let mut data = vec![0u8; 40];
    for (i, byte) in data.iter_mut().enumerate() {
        *byte = i as u8;
    }
    let address = Address::read(&data, 3);
    let mut expected = [0u8; 32];
    for (i, byte) in expected.iter_mut().enumerate() {
        *byte = (i + 3) as u8;
    }
    assert_eq!(address.bytes, expected);
    let mut out = vec![255u8];
    address.write(&mut out);
    assert_eq!(out.len(), 33);
    assert_eq!(out[0], 255);
    assert_eq!(&out[1..], &expected[..]);
}
