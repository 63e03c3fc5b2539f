//! The three instructions of the pool, their wire layout, and the requests
//! that carry them to the ledger.

use crate::address::{
    rent_sysvar_bytes, rent_sysvar_id, system_program_bytes, system_program_id,
    token_program_bytes, token_program_id, Address,
};
use crate::codec::{
    le_bytes, le_value, lemma_le_bytes_len, lemma_le_bytes_of_value, lemma_le_value_bound,
    lemma_le_value_of_bytes, lemma_pow256_sixteen, push_u128, read_u128,
};
use crate::error::ProcessError;
use crate::{id, program_id_bytes};
use vstd::prelude::*;

verus! {

/// One operation on a pool.
#[derive(Clone, Copy, Debug, PartialEq, Eq, Structural)]
pub enum PoolInstruction {
    /// Create the pool of the signing authority.
    Initialize {
        /// Whole units of the asset to issue into the pool.
        total_token_supply: u128,
        /// Decimal places of the issued asset.
        decimals: u8,
        /// Settlement asset that the authority pays in as the first reserve.
        initial_quote_amount: u128,
    },
    /// Buy issued asset for this much settlement asset.
    Buy(u128),
    /// Sell this much issued asset.
    Sell(u128),
}

impl PoolInstruction {
    /// The wire layout: one tag byte, then the fields in declaration order,
    /// integers little-endian at their full width, with no padding.
    pub open spec fn spec_bytes(self) -> Seq<u8> {
        match self {
            PoolInstruction::Initialize { total_token_supply, decimals, initial_quote_amount } => {
                seq![0u8] + le_bytes(total_token_supply as nat, 16) + seq![decimals] + le_bytes(
                    initial_quote_amount as nat,
                    16,
                )
            },
            PoolInstruction::Buy(quote_amount) => seq![1u8] + le_bytes(quote_amount as nat, 16),
            PoolInstruction::Sell(base_amount) => seq![2u8] + le_bytes(base_amount as nat, 16),
        }
    }

    /// The instruction that a payload lays out, if it lays one out: the
    /// tag must be known and the length exactly that of the variant.
    pub open spec fn spec_from_bytes(data: Seq<u8>) -> Option<PoolInstruction> {
        if data.len() == 34 && data[0] == 0 {
            Some(
                PoolInstruction::Initialize {
                    total_token_supply: le_value(data.subrange(1, 17)) as u128,
                    decimals: data[17],
                    initial_quote_amount: le_value(data.subrange(18, 34)) as u128,
                },
            )
        } else if data.len() == 17 && data[0] == 1 {
            Some(PoolInstruction::Buy(le_value(data.subrange(1, 17)) as u128))
        } else if data.len() == 17 && data[0] == 2 {
            Some(PoolInstruction::Sell(le_value(data.subrange(1, 17)) as u128))
        } else {
            None
        }
    }

    /// Lays the instruction out in its wire format.
    pub fn try_to_vec(&self) -> (bytes: Vec<u8>)
        ensures
            bytes@ == self.spec_bytes(),
    {
        let mut bytes: Vec<u8> = Vec::new();
        match self {
            PoolInstruction::Initialize { total_token_supply, decimals, initial_quote_amount } => {
                bytes.push(0);
                push_u128(&mut bytes, *total_token_supply);
                bytes.push(*decimals);
                push_u128(&mut bytes, *initial_quote_amount);
            },
            PoolInstruction::Buy(quote_amount) => {
                bytes.push(1);
                push_u128(&mut bytes, *quote_amount);
            },
            PoolInstruction::Sell(base_amount) => {
                bytes.push(2);
                push_u128(&mut bytes, *base_amount);
            },
        }
        assert(bytes@ =~= self.spec_bytes());
        bytes
    }

    /// Reads an instruction from its wire format. A payload that lays out
    /// no instruction is refused as malformed.
    pub fn try_from_slice(data: &[u8]) -> (instruction: Result<PoolInstruction, ProcessError>)
        ensures
            instruction == match Self::spec_from_bytes(data@) {
                Some(read) => Ok::<PoolInstruction, ProcessError>(read),
                None => Err::<PoolInstruction, ProcessError>(ProcessError::MalformedInstruction),
            },
    {
        if data.len() == 34 && data[0] == 0 {
            Ok(
                PoolInstruction::Initialize {
                    total_token_supply: read_u128(data, 1),
                    decimals: data[17],
                    initial_quote_amount: read_u128(data, 18),
                },
            )
        } else if data.len() == 17 && data[0] == 1 {
            Ok(PoolInstruction::Buy(read_u128(data, 1)))
        } else if data.len() == 17 && data[0] == 2 {
            Ok(PoolInstruction::Sell(read_u128(data, 1)))
        } else {
            Err(ProcessError::MalformedInstruction)
        }
    }

    /// Every instruction is read back from its own layout.
    pub proof fn lemma_read_back(instruction: PoolInstruction)
        ensures
            Self::spec_from_bytes(instruction.spec_bytes()) == Some(instruction),
    {
        lemma_pow256_sixteen();
        let bytes = instruction.spec_bytes();
        match instruction {
            PoolInstruction::Initialize { total_token_supply, decimals, initial_quote_amount } => {
                lemma_le_bytes_len(total_token_supply as nat, 16);
                lemma_le_bytes_len(initial_quote_amount as nat, 16);
                lemma_le_value_of_bytes(total_token_supply as nat, 16);
                lemma_le_value_of_bytes(initial_quote_amount as nat, 16);
                assert(bytes.subrange(1, 17) =~= le_bytes(total_token_supply as nat, 16));
                assert(bytes.subrange(18, 34) =~= le_bytes(initial_quote_amount as nat, 16));
            },
            PoolInstruction::Buy(amount) => {
                lemma_le_bytes_len(amount as nat, 16);
                lemma_le_value_of_bytes(amount as nat, 16);
                assert(bytes.subrange(1, 17) =~= le_bytes(amount as nat, 16));
            },
            PoolInstruction::Sell(amount) => {
                lemma_le_bytes_len(amount as nat, 16);
                lemma_le_value_of_bytes(amount as nat, 16);
                assert(bytes.subrange(1, 17) =~= le_bytes(amount as nat, 16));
            },
        }
    }

    /// A payload that lays out an instruction is the layout of that
    /// instruction: no two payloads are read as the same instruction.
    pub proof fn lemma_layout_unambiguous(data: Seq<u8>)
        requires
            Self::spec_from_bytes(data) is Some,
        ensures
            Self::spec_from_bytes(data)->Some_0.spec_bytes() == data,
    {
        lemma_pow256_sixteen();
        if data.len() == 34 {
            lemma_le_value_bound(data.subrange(1, 17));
            lemma_le_value_bound(data.subrange(18, 34));
            lemma_le_bytes_of_value(data.subrange(1, 17));
            lemma_le_bytes_of_value(data.subrange(18, 34));
        } else {
            lemma_le_value_bound(data.subrange(1, 17));
            lemma_le_bytes_of_value(data.subrange(1, 17));
        }
        assert(Self::spec_from_bytes(data)->Some_0.spec_bytes() =~= data);
    }
}

/// One account that a request names, with what the request may do to it.
#[derive(Clone, Copy, Debug)]
pub struct AccountMeta {
    /// The address of the account.
    pub pubkey: Address,
    /// Whether the account has to sign the request.
    pub is_signer: bool,
    /// Whether the request may change the account.
    pub is_writable: bool,
}

impl View for AccountMeta {
    type V = (Seq<u8>, bool, bool);

    open spec fn view(&self) -> (Seq<u8>, bool, bool) {
        (self.pubkey@, self.is_signer, self.is_writable)
    }
}

impl AccountMeta {
    /// An account that the request may change.
    pub fn new(pubkey: Address, is_signer: bool) -> (meta: AccountMeta)
        ensures
            meta@ == (pubkey@, is_signer, true),
    {
        AccountMeta { pubkey, is_signer, is_writable: true }
    }

    /// An account that the request only reads.
    pub fn new_readonly(pubkey: Address, is_signer: bool) -> (meta: AccountMeta)
        ensures
            meta@ == (pubkey@, is_signer, false),
    {
        AccountMeta { pubkey, is_signer, is_writable: false }
    }
}

/// A request to the ledger: the program to run, the accounts it is given,
/// in order, and the payload.
#[derive(Clone, Debug)]
pub struct Instruction {
    /// The program that executes the request.
    pub program_id: Address,
    /// The accounts handed to the program.
    pub accounts: Vec<AccountMeta>,
    /// The payload.
    pub data: Vec<u8>,
}

impl Instruction {
    /// The accounts of the request, each by its bytes and its two flags.
    pub open spec fn metas(self) -> Seq<(Seq<u8>, bool, bool)> {
        self.accounts@.map_values(|meta: AccountMeta| meta@)
    }
}

/// The accounts that every request ends with.
pub open spec fn program_metas() -> Seq<(Seq<u8>, bool, bool)> {
    seq![
        (system_program_bytes(), false, false),
        (token_program_bytes(), false, false),
        (rent_sysvar_bytes(), false, false),
    ]
}

/// The accounts of the pool that every request starts with: the authority,
/// which signs where `authority_signs`, then the record, the issuance
/// ledger and the two custodies.
pub open spec fn pool_metas(
    authority: Address,
    authority_signs: bool,
    state: Address,
    mint: Address,
    token_pool: Address,
    native_pool: Address,
) -> Seq<(Seq<u8>, bool, bool)> {
    seq![
        (authority@, authority_signs, true),
        (state@, false, true),
        (mint@, false, true),
        (token_pool@, false, true),
        (native_pool@, false, true),
    ]
}

/// The accounts of a trade after those of the pool: the beneficiary, the
/// customer, who signs where `customer_signs`, and the customer's account
/// of the issued asset.
pub open spec fn trade_metas(
    beneficiary: Address,
    customer: Address,
    customer_signs: bool,
    customer_token: Address,
) -> Seq<(Seq<u8>, bool, bool)> {
    seq![
        (beneficiary@, false, true),
        (customer@, customer_signs, true),
        (customer_token@, false, true),
    ]
}

fn push_pool_metas(
    accounts: &mut Vec<AccountMeta>,
    authority: &Address,
    authority_signs: bool,
    state: &Address,
    mint: &Address,
    token_pool: &Address,
    native_pool: &Address,
)
    ensures
        final(accounts)@.map_values(|meta: AccountMeta| meta@) == old(accounts)@.map_values(
            |meta: AccountMeta| meta@,
        ) + pool_metas(*authority, authority_signs, *state, *mint, *token_pool, *native_pool),
{
    accounts.push(AccountMeta::new(*authority, authority_signs));
    accounts.push(AccountMeta::new(*state, false));
    accounts.push(AccountMeta::new(*mint, false));
    accounts.push(AccountMeta::new(*token_pool, false));
    accounts.push(AccountMeta::new(*native_pool, false));
    assert(accounts@.map_values(|meta: AccountMeta| meta@) =~= old(accounts)@.map_values(
        |meta: AccountMeta| meta@,
    ) + pool_metas(*authority, authority_signs, *state, *mint, *token_pool, *native_pool));
}

fn push_trade_metas(
    accounts: &mut Vec<AccountMeta>,
    beneficiary: &Address,
    customer: &Address,
    customer_signs: bool,
    customer_token: &Address,
)
    ensures
        final(accounts)@.map_values(|meta: AccountMeta| meta@) == old(accounts)@.map_values(
            |meta: AccountMeta| meta@,
        ) + trade_metas(*beneficiary, *customer, customer_signs, *customer_token),
{
    accounts.push(AccountMeta::new(*beneficiary, false));
    accounts.push(AccountMeta::new(*customer, customer_signs));
    accounts.push(AccountMeta::new(*customer_token, false));
    assert(accounts@.map_values(|meta: AccountMeta| meta@) =~= old(accounts)@.map_values(
        |meta: AccountMeta| meta@,
    ) + trade_metas(*beneficiary, *customer, customer_signs, *customer_token));
}

fn push_program_metas(accounts: &mut Vec<AccountMeta>)
    ensures
        final(accounts)@.map_values(|meta: AccountMeta| meta@) == old(accounts)@.map_values(
            |meta: AccountMeta| meta@,
        ) + program_metas(),
{
    accounts.push(AccountMeta::new_readonly(system_program_id(), false));
    accounts.push(AccountMeta::new_readonly(token_program_id(), false));
    accounts.push(AccountMeta::new_readonly(rent_sysvar_id(), false));
    assert(accounts@.map_values(|meta: AccountMeta| meta@) =~= old(accounts)@.map_values(
        |meta: AccountMeta| meta@,
    ) + program_metas());
}

/// The request that creates the pool of `authority_address`, which signs.
pub fn initialize_pool(
    authority_address: &Address,
    state_address: &Address,
    mint_address: &Address,
    token_pool_address: &Address,
    native_pool_address: &Address,
    total_token_supply: u128,
    decimals: u8,
    initial_quote_amount: u128,
) -> (request: Instruction)
    ensures
        request.program_id@ == program_id_bytes(),
        request.data@ == (PoolInstruction::Initialize {
            total_token_supply,
            decimals,
            initial_quote_amount,
        }).spec_bytes(),
        request.metas() == pool_metas(
            *authority_address,
            true,
            *state_address,
            *mint_address,
            *token_pool_address,
            *native_pool_address,
        ) + program_metas(),
{
    let instruction = PoolInstruction::Initialize {
        total_token_supply,
        decimals,
        initial_quote_amount,
    };
    let mut accounts: Vec<AccountMeta> = Vec::new();
    push_pool_metas(
        &mut accounts,
        authority_address,
        true,
        state_address,
        mint_address,
        token_pool_address,
        native_pool_address,
    );
    push_program_metas(&mut accounts);
    let request = Instruction { program_id: id(), accounts, data: instruction.try_to_vec() };
    assert(request.metas() =~= pool_metas(
        *authority_address,
        true,
        *state_address,
        *mint_address,
        *token_pool_address,
        *native_pool_address,
    ) + program_metas());
    request
}

/// The request by which the customer, who signs beside the authority,
/// buys issued asset for `quote_amount`.
pub fn buy(
    authority_address: &Address,
    state_address: &Address,
    mint_address: &Address,
    token_pool_address: &Address,
    native_pool_address: &Address,
    beneficiary_address: &Address,
    customer_address: &Address,
    customer_token_associated_address: &Address,
    quote_amount: u128,
) -> (request: Instruction)
    ensures
        request.program_id@ == program_id_bytes(),
        request.data@ == PoolInstruction::Buy(quote_amount).spec_bytes(),
        request.metas() == pool_metas(
            *authority_address,
            true,
            *state_address,
            *mint_address,
            *token_pool_address,
            *native_pool_address,
        ) + trade_metas(
            *beneficiary_address,
            *customer_address,
            true,
            *customer_token_associated_address,
        ) + program_metas(),
{
    let mut accounts: Vec<AccountMeta> = Vec::new();
    push_pool_metas(
        &mut accounts,
        authority_address,
        true,
        state_address,
        mint_address,
        token_pool_address,
        native_pool_address,
    );
    push_trade_metas(
        &mut accounts,
        beneficiary_address,
        customer_address,
        true,
        customer_token_associated_address,
    );
    push_program_metas(&mut accounts);
    let data = PoolInstruction::Buy(quote_amount).try_to_vec();
    let request = Instruction { program_id: id(), accounts, data };
    assert(request.metas() =~= pool_metas(
        *authority_address,
        true,
        *state_address,
        *mint_address,
        *token_pool_address,
        *native_pool_address,
    ) + trade_metas(
        *beneficiary_address,
        *customer_address,
        true,
        *customer_token_associated_address,
    ) + program_metas());
    request
}

/// The request by which the customer sells `base_amount` of issued asset.
/// Only the authority signs.
pub fn sell(
    authority_address: &Address,
    state_address: &Address,
    mint_address: &Address,
    token_pool_address: &Address,
    native_pool_address: &Address,
    beneficiary_address: &Address,
    customer_address: &Address,
    customer_token_associated_address: &Address,
    base_amount: u128,
) -> (request: Instruction)
    ensures
        request.program_id@ == program_id_bytes(),
        request.data@ == PoolInstruction::Sell(base_amount).spec_bytes(),
        request.metas() == pool_metas(
            *authority_address,
            true,
            *state_address,
            *mint_address,
            *token_pool_address,
            *native_pool_address,
        ) + trade_metas(
            *beneficiary_address,
            *customer_address,
            false,
            *customer_token_associated_address,
        ) + program_metas(),
{
    let mut accounts: Vec<AccountMeta> = Vec::new();
    push_pool_metas(
        &mut accounts,
        authority_address,
        true,
        state_address,
        mint_address,
        token_pool_address,
        native_pool_address,
    );
    push_trade_metas(
        &mut accounts,
        beneficiary_address,
        customer_address,
        false,
        customer_token_associated_address,
    );
    push_program_metas(&mut accounts);
    let data = PoolInstruction::Sell(base_amount).try_to_vec();
    let request = Instruction { program_id: id(), accounts, data };
    assert(request.metas() =~= pool_metas(
        *authority_address,
        true,
        *state_address,
        *mint_address,
        *token_pool_address,
        *native_pool_address,
    ) + trade_metas(
        *beneficiary_address,
        *customer_address,
        false,
        *customer_token_associated_address,
    ) + program_metas());
    request
}

} // verus!
