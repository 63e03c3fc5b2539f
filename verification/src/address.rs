//! Addresses of ledger accounts, and the deterministic derivation of the
//! four addresses of a pool from its authority.

use solana_program::pubkey::Pubkey;
use vstd::prelude::*;

verus! {

/// The address of a ledger account: 32 bytes.
#[derive(Clone, Copy, Debug, Hash)]
pub struct Address {
    pub bytes: [u8; 32],
}

impl View for Address {
    type V = Seq<u8>;

    open spec fn view(&self) -> Seq<u8> {
        self.bytes@
    }
}

impl PartialEq for Address {
    fn eq(&self, other: &Address) -> (equal: bool) {
        let mut i: usize = 0;
        while i < 32
            invariant
                i <= 32,
                forall|j: int| 0 <= j < i ==> self.bytes[j] == other.bytes[j],
            decreases 32 - i,
        {
            if self.bytes[i] != other.bytes[i] {
                return false;
            }
            i += 1;
        }
        assert(self.bytes@ =~= other.bytes@);
        true
    }
}

impl Eq for Address {

}

impl vstd::std_specs::cmp::PartialEqSpecImpl for Address {
    open spec fn obeys_eq_spec() -> bool {
        true
    }

    open spec fn eq_spec(&self, other: &Address) -> bool {
        self@ == other@
    }
}

impl Address {
    /// Reads the address laid out at `data[at..at + 32]`.
    pub fn read(data: &[u8], at: usize) -> (address: Address)
        requires
            at + 32 <= data.len(),
        ensures
            address@ == data@.subrange(at as int, at + 32),
    {
        let mut bytes = [0u8; 32];
        let mut i: usize = 0;
        while i < 32
            invariant
                i <= 32,
                at + 32 <= data.len(),
                forall|j: int| 0 <= j < i ==> bytes[j] == data@[at + j],
            decreases 32 - i,
        {
            bytes[i] = data[at + i];
            i += 1;
        }
        assert(bytes@ =~= data@.subrange(at as int, at + 32));
        Address { bytes }
    }

    /// Appends the 32 bytes of the address to `out`.
    pub fn write(&self, out: &mut Vec<u8>)
        ensures
            final(out)@ == old(out)@ + self@,
    {
        let mut i: usize = 0;
        while i < 32
            invariant
                i <= 32,
                out@ == old(out)@ + self@.subrange(0, i as int),
            decreases 32 - i,
        {
            out.push(self.bytes[i]);
            i += 1;
            assert(out@ =~= old(out)@ + self@.subrange(0, i as int));
        }
        assert(self@.subrange(0, 32) =~= self@);
    }

    /// Two addresses with the same bytes are the same address.
    pub proof fn lemma_same_bytes(a: Address, b: Address)
        requires
            a@ == b@,
        ensures
            a == b,
    {
        assert(a.bytes =~= b.bytes);
    }
}

/// The address that the ledger derives for `owner` under `tag` on behalf
/// of `program`, with the salt that makes it one no private key controls;
/// `None` where no salt does.
pub uninterp spec fn derived_address(owner: Seq<u8>, tag: Seq<char>, program: Seq<u8>) -> Option<
    (Seq<u8>, u8),
>;

/// Calls `Pubkey::try_find_program_address` of `solana_program` with the
/// two seeds `owner` and the bytes of `tag`, for the program `program`.
/// The call searches the salts downwards from 255 and returns `None`
/// where it finds none; it does not panic. Nothing is proved of it: its
/// result is taken to be a function of the three arguments alone, known
/// here only by the name `derived_address`.
#[verifier::external_body]
pub(crate) fn find_program_address(owner: &Address, tag: &str, program: &Address) -> (found:
    Option<(Address, u8)>)
    ensures
        match found {
            Some((address, salt)) => derived_address(owner@, tag@, program@) == Some(
                (address@, salt),
            ),
            None => derived_address(owner@, tag@, program@) is None,
        },
{
    let key = Pubkey::new_from_array(program.bytes);
    match Pubkey::try_find_program_address(&[&owner.bytes, tag.as_bytes()], &key) {
        Some((address, salt)) => Some((Address { bytes: address.to_bytes() }, salt)),
        None => None,
    }
}

/// A derivation result with its address taken by its bytes.
pub open spec fn address_views(found: Option<(Address, u8)>) -> Option<(Seq<u8>, u8)> {
    match found {
        Some((address, salt)) => Some((address@, salt)),
        None => None,
    }
}

/// The bytes of the system program's address: all zero.
pub open spec fn system_program_bytes() -> Seq<u8> {
    Seq::new(32, |i: int| 0u8)
}

/// The bytes of the token program's address.
pub open spec fn token_program_bytes() -> Seq<u8> {
    seq![
        6u8, 221, 246, 225, 215, 101, 161, 147, 217, 203, 225, 70, 206, 235, 121, 172, 28, 180,
        133, 237, 95, 91, 55, 145, 58, 140, 245, 133, 126, 255, 0, 169,
    ]
}

/// The bytes of the rent sysvar's address.
pub open spec fn rent_sysvar_bytes() -> Seq<u8> {
    seq![
        6u8, 167, 213, 23, 25, 44, 92, 81, 33, 140, 201, 76, 61, 74, 241, 127, 88, 218, 238, 8,
        155, 161, 253, 68, 227, 219, 217, 138, 0, 0, 0, 0,
    ]
}

/// Calls `solana_program::system_program::id`, whose address is the one
/// that base58 writes as thirty-two ones: every byte zero.
#[verifier::external_body]
pub(crate) fn system_program_id() -> (program: Address)
    ensures
        program@ == system_program_bytes(),
{
    Address { bytes: solana_program::system_program::id().to_bytes() }
}

/// Calls `spl_token::id`, the declared address of the token program, given
/// here by its bytes.
#[verifier::external_body]
pub(crate) fn token_program_id() -> (program: Address)
    ensures
        program@ == token_program_bytes(),
{
    Address { bytes: spl_token::id().to_bytes() }
}

/// Calls `solana_program::sysvar::rent::id`, the declared address of the
/// rent sysvar, given here by its bytes.
#[verifier::external_body]
pub(crate) fn rent_sysvar_id() -> (sysvar: Address)
    ensures
        sysvar@ == rent_sysvar_bytes(),
{
    Address { bytes: solana_program::sysvar::rent::id().to_bytes() }
}

} // verus!
