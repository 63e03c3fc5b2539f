//! The persisted record of a pool and its fixed layout.

use crate::address::Address;
use crate::balance::Balance;
use crate::codec::{
    le_bytes, lemma_le_bytes_len, lemma_le_bytes_of_value, lemma_le_value_of_bytes,
    lemma_pow256_sixteen, push_u128, read_u128,
};
use vstd::prelude::*;

verus! {

/// Width of the record: four addresses and two 128-bit reserves.
pub const STATE_LEN: usize = 160;

/// The record of one pool: who takes part in it, and its reserves.
#[derive(Clone, Copy, Debug)]
pub struct State {
    /// The authority that the pool belongs to.
    pub authority: Address,
    /// The issuance ledger of the pool's asset.
    pub mint_authority: Address,
    /// The custody of the issued asset.
    pub base_pool_authority: Address,
    /// The custody of the settlement asset.
    pub quote_pool_authority: Address,
    /// The current reserves.
    pub balance: Balance,
}

impl PartialEq for State {
    fn eq(&self, other: &State) -> (equal: bool) {
        self.authority == other.authority && self.mint_authority == other.mint_authority
            && self.base_pool_authority == other.base_pool_authority
            && self.quote_pool_authority == other.quote_pool_authority && self.balance.base
            == other.balance.base && self.balance.quote == other.balance.quote
    }
}

impl Eq for State {

}

impl vstd::std_specs::cmp::PartialEqSpecImpl for State {
    open spec fn obeys_eq_spec() -> bool {
        true
    }

    open spec fn eq_spec(&self, other: &State) -> bool {
        self.authority@ == other.authority@ && self.mint_authority@ == other.mint_authority@
            && self.base_pool_authority@ == other.base_pool_authority@
            && self.quote_pool_authority@ == other.quote_pool_authority@ && self.balance.base
            == other.balance.base && self.balance.quote == other.balance.quote
    }
}

impl State {
    /// The layout of the record: the four addresses in declaration order,
    /// then the base and the quote reserve, each in sixteen little-endian
    /// bytes, with no padding.
    pub open spec fn spec_bytes(self) -> Seq<u8> {
        self.authority@ + self.mint_authority@ + self.base_pool_authority@
            + self.quote_pool_authority@ + le_bytes(self.balance.base as nat, 16) + le_bytes(
            self.balance.quote as nat,
            16,
        )
    }

    /// Lays the record out in its `STATE_LEN` bytes.
    pub fn try_to_vec(&self) -> (bytes: Vec<u8>)
        ensures
            bytes@ == self.spec_bytes(),
            bytes@.len() == STATE_LEN,
    {
        let mut bytes: Vec<u8> = Vec::new();
        self.authority.write(&mut bytes);
        self.mint_authority.write(&mut bytes);
        self.base_pool_authority.write(&mut bytes);
        self.quote_pool_authority.write(&mut bytes);
        push_u128(&mut bytes, self.balance.base);
        push_u128(&mut bytes, self.balance.quote);
        proof {
            lemma_le_bytes_len(self.balance.base as nat, 16);
            lemma_le_bytes_len(self.balance.quote as nat, 16);
            assert(bytes@ =~= self.spec_bytes());
        }
        bytes
    }

    /// Reads a record from its layout: `Some` exactly for `STATE_LEN`
    /// bytes, and then the one record that these bytes lay out.
    pub fn try_from_slice(data: &[u8]) -> (record: Option<State>)
        ensures
            record is Some <==> data@.len() == STATE_LEN,
            record is Some ==> record->Some_0.spec_bytes() == data@,
    {
        if data.len() != STATE_LEN {
            return None;
        }
        let record = State {
            authority: Address::read(data, 0),
            mint_authority: Address::read(data, 32),
            base_pool_authority: Address::read(data, 64),
            quote_pool_authority: Address::read(data, 96),
            balance: Balance { base: read_u128(data, 128), quote: read_u128(data, 144) },
        };
        proof {
            lemma_le_bytes_of_value(data@.subrange(128, 144));
            lemma_le_bytes_of_value(data@.subrange(144, 160));
            assert(record.spec_bytes() =~= data@);
        }
        Some(record)
    }

    /// The layout is unambiguous: two records with the same bytes are the
    /// same record.
    pub proof fn lemma_layout_injective(a: State, b: State)
        requires
            a.spec_bytes() == b.spec_bytes(),
        ensures
            a == b,
    {
        let bytes = a.spec_bytes();
        lemma_le_bytes_len(a.balance.base as nat, 16);
        lemma_le_bytes_len(a.balance.quote as nat, 16);
        lemma_le_bytes_len(b.balance.base as nat, 16);
        lemma_le_bytes_len(b.balance.quote as nat, 16);
        assert(a.authority@ =~= bytes.subrange(0, 32));
        assert(b.authority@ =~= bytes.subrange(0, 32));
        assert(a.mint_authority@ =~= bytes.subrange(32, 64));
        assert(b.mint_authority@ =~= bytes.subrange(32, 64));
        assert(a.base_pool_authority@ =~= bytes.subrange(64, 96));
        assert(b.base_pool_authority@ =~= bytes.subrange(64, 96));
        assert(a.quote_pool_authority@ =~= bytes.subrange(96, 128));
        assert(b.quote_pool_authority@ =~= bytes.subrange(96, 128));
        assert(le_bytes(a.balance.base as nat, 16) =~= bytes.subrange(128, 144));
        assert(le_bytes(b.balance.base as nat, 16) =~= bytes.subrange(128, 144));
        assert(le_bytes(a.balance.quote as nat, 16) =~= bytes.subrange(144, 160));
        assert(le_bytes(b.balance.quote as nat, 16) =~= bytes.subrange(144, 160));
        lemma_pow256_sixteen();
        lemma_le_value_of_bytes(a.balance.base as nat, 16);
        lemma_le_value_of_bytes(b.balance.base as nat, 16);
        lemma_le_value_of_bytes(a.balance.quote as nat, 16);
        lemma_le_value_of_bytes(b.balance.quote as nat, 16);
        Address::lemma_same_bytes(a.authority, b.authority);
        Address::lemma_same_bytes(a.mint_authority, b.mint_authority);
        Address::lemma_same_bytes(a.base_pool_authority, b.base_pool_authority);
        Address::lemma_same_bytes(a.quote_pool_authority, b.quote_pool_authority);
    }
}

} // verus!
