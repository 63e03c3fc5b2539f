//! A single-pool constant-product exchange: the reserve arithmetic, the
//! instruction and record layouts, and the processor that turns one
//! instruction into an ordered list of ledger effects.

pub mod address;
pub mod balance;
pub mod codec;
pub mod error;
pub mod instruction;
pub mod processor;
pub mod state;

use crate::address::{address_views, derived_address, find_program_address, Address};
use vstd::prelude::*;

verus! {

/// Scale factor of the issued asset: one whole unit in reserve units.
pub const BASE_UNIT: u128 = 1000000000000000000;

/// Scale factor of the settlement asset: one whole unit in reserve units.
pub const QUOTE_UNIT: u128 = 1000000000;

/// The bytes of the address under which the pool program is deployed.
pub open spec fn program_id_bytes() -> Seq<u8> {
    seq![
        204u8, 23, 243, 172, 181, 2, 123, 140, 216, 37, 251, 216, 250, 235, 17, 25, 69, 198, 113,
        253, 115, 208, 73, 196, 30, 175, 3, 83, 216, 59, 98, 162,
    ]
}

/// The address under which the pool program is deployed.
pub fn id() -> (program: Address)
    ensures
        program@ == program_id_bytes(),
{
    let program = Address {
        bytes: [
            204, 23, 243, 172, 181, 2, 123, 140, 216, 37, 251, 216, 250, 235, 17, 25, 69, 198,
            113, 253, 115, 208, 73, 196, 30, 175, 3, 83, 216, 59, 98, 162,
        ],
    };
    assert(program@ =~= program_id_bytes());
    program
}

/// The address that the pool program derives for `owner` under `tag`, with
/// its salt.
pub open spec fn pool_address(owner: Address, tag: Seq<char>) -> Option<(Seq<u8>, u8)> {
    derived_address(owner@, tag, program_id_bytes())
}

/// The address of the pool record of `payer_address`, if one can be derived.
pub fn get_state_address(payer_address: &Address) -> (address: Option<Address>)
    ensures
        match address {
            Some(address) => pool_address(*payer_address, "state"@) is Some && pool_address(
                *payer_address,
                "state"@,
            )->Some_0.0 == address@,
            None => pool_address(*payer_address, "state"@) is None,
        },
{
    match get_state_address_with_seed(payer_address) {
        Some((address, _)) => Some(address),
        None => None,
    }
}

/// The address of the pool record of `payer_address` with its salt, if one can be
/// derived.
pub fn get_state_address_with_seed(payer_address: &Address) -> (found: Option<(Address, u8)>)
    ensures
        address_views(found) == pool_address(*payer_address, "state"@),
{
    find_program_address(payer_address, "state", &id())
}

/// The address of the issuance ledger of `payer_address`, if one can be derived.
pub fn get_mint_address(payer_address: &Address) -> (address: Option<Address>)
    ensures
        match address {
            Some(address) => pool_address(*payer_address, "mint"@) is Some && pool_address(
                *payer_address,
                "mint"@,
            )->Some_0.0 == address@,
            None => pool_address(*payer_address, "mint"@) is None,
        },
{
    match get_mint_address_with_seed(payer_address) {
        Some((address, _)) => Some(address),
        None => None,
    }
}

/// The address of the issuance ledger of `payer_address` with its salt, if one can be
/// derived.
pub fn get_mint_address_with_seed(payer_address: &Address) -> (found: Option<(Address, u8)>)
    ensures
        address_views(found) == pool_address(*payer_address, "mint"@),
{
    find_program_address(payer_address, "mint", &id())
}

/// The address of the base custody of `payer_address`, if one can be derived.
pub fn get_token_pool_address(payer_address: &Address) -> (address: Option<Address>)
    ensures
        match address {
            Some(address) => pool_address(*payer_address, "token-pool"@) is Some && pool_address(
                *payer_address,
                "token-pool"@,
            )->Some_0.0 == address@,
            None => pool_address(*payer_address, "token-pool"@) is None,
        },
{
    match get_token_pool_address_with_seed(payer_address) {
        Some((address, _)) => Some(address),
        None => None,
    }
}

/// The address of the base custody of `payer_address` with its salt, if one can be
/// derived.
pub fn get_token_pool_address_with_seed(payer_address: &Address) -> (found: Option<(Address, u8)>)
    ensures
        address_views(found) == pool_address(*payer_address, "token-pool"@),
{
    find_program_address(payer_address, "token-pool", &id())
}

/// The address of the quote custody of `payer_address`, if one can be derived.
pub fn get_native_pool_address(payer_address: &Address) -> (address: Option<Address>)
    ensures
        match address {
            Some(address) => pool_address(*payer_address, "native-pool"@) is Some && pool_address(
                *payer_address,
                "native-pool"@,
            )->Some_0.0 == address@,
            None => pool_address(*payer_address, "native-pool"@) is None,
        },
{
    match get_native_pool_address_with_seed(payer_address) {
        Some((address, _)) => Some(address),
        None => None,
    }
}

/// The address of the quote custody of `payer_address` with its salt, if one can be
/// derived.
pub fn get_native_pool_address_with_seed(payer_address: &Address) -> (found: Option<(Address, u8)>)
    ensures
        address_views(found) == pool_address(*payer_address, "native-pool"@),
{
    find_program_address(payer_address, "native-pool", &id())
}

} // verus!
