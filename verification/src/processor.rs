//! The processor: one instruction and a snapshot of the accounts it names
//! go in, and either an error or the ordered list of ledger effects comes
//! out. Nothing is changed here; the host carries the effects out as one
//! unit, so an error leaves the ledger and the record as they were.

use crate::address::{address_views, Address};
use crate::balance::{fee_of, Balance};
use crate::error::{IWRError, ProcessError};
use crate::instruction::PoolInstruction;
use crate::state::{State, STATE_LEN};
use crate::{
    get_mint_address_with_seed, get_native_pool_address_with_seed, get_state_address_with_seed,
    get_token_pool_address_with_seed, pool_address, BASE_UNIT,
};
use vstd::prelude::*;

verus! {

/// What the processor reads of one supplied account.
#[derive(Clone, Debug)]
pub struct Account {
    /// The address of the account.
    pub key: Address,
    /// Its balance of settlement asset.
    pub lamports: u64,
    /// Its contents.
    pub data: Vec<u8>,
    /// The balance that the host requires the account to retain.
    pub rent_reserve: u64,
}

/// The salts of the four derived addresses of a pool.
#[derive(Clone, Copy, Debug, PartialEq, Eq, Structural)]
pub struct PoolSeeds {
    pub state: u8,
    pub mint: u8,
    pub token_pool: u8,
    pub native_pool: u8,
}

/// The four derivations of a pool as the ledger returned them.
#[derive(Clone, Copy, Debug)]
pub struct PoolAddresses {
    pub state: Option<(Address, u8)>,
    pub mint: Option<(Address, u8)>,
    pub token_pool: Option<(Address, u8)>,
    pub native_pool: Option<(Address, u8)>,
}

/// The four derivations of a pool, each address by its bytes.
pub struct Derived {
    pub state: Option<(Seq<u8>, u8)>,
    pub mint: Option<(Seq<u8>, u8)>,
    pub token_pool: Option<(Seq<u8>, u8)>,
    pub native_pool: Option<(Seq<u8>, u8)>,
}

impl View for PoolAddresses {
    type V = Derived;

    open spec fn view(&self) -> Derived {
        Derived {
            state: address_views(self.state),
            mint: address_views(self.mint),
            token_pool: address_views(self.token_pool),
            native_pool: address_views(self.native_pool),
        }
    }
}

/// One change that the host ledger is asked to make.
#[derive(Clone, Copy, Debug, PartialEq, Eq)]
pub enum Effect {
    /// Create the account of the pool record, `space` bytes wide, owned by
    /// `owner` and funded by `payer`.
    CreateRecordAccount { payer: Address, account: Address, owner: Address, space: u64 },
    /// Create the issuance ledger of the new asset and initialise it with
    /// `authority` as the only identity that may issue.
    CreateMint { payer: Address, mint: Address, authority: Address, decimals: u8 },
    /// Create the custody of the issued asset, an account of `mint` that
    /// is its own owner.
    CreateBaseCustody { payer: Address, custody: Address, mint: Address },
    /// Issue `amount` whole units of `mint` into `custody`.
    Issue { mint: Address, custody: Address, amount: u64 },
    /// Create the custody of the settlement asset, owned by `owner`.
    CreateQuoteCustody { payer: Address, custody: Address, owner: Address },
    /// Move `amount` of settlement asset from `from`, who signs, to `to`.
    TransferQuote { from: Address, to: Address, amount: u64 },
    /// Move `amount` whole units of issued asset from `from` to `to` on the
    /// word of `authority`.
    TransferBase { from: Address, to: Address, authority: Address, amount: u64 },
    /// Take `amount` of settlement asset out of `account`, which the
    /// program owns.
    DebitQuote { account: Address, amount: u64 },
    /// Add `amount` of settlement asset to `account`.
    CreditQuote { account: Address, amount: u64 },
    /// Overwrite the pool record in `account` with `record`.
    WriteRecord { account: Address, record: State },
}

/// What a successful instruction asks of the host: the effects in the
/// order in which they are to be made, and the salts to sign them with.
#[derive(Clone, Debug)]
pub struct Outcome {
    pub seeds: PoolSeeds,
    pub effects: Vec<Effect>,
}

/// An `Outcome` with its effects as a sequence.
pub struct Plan {
    pub seeds: PoolSeeds,
    pub effects: Seq<Effect>,
}

impl View for Outcome {
    type V = Plan;

    open spec fn view(&self) -> Plan {
        Plan { seeds: self.seeds, effects: self.effects@ }
    }
}

/// A processing result with its outcome taken by its view.
pub open spec fn result_view(result: Result<Outcome, ProcessError>) -> Result<Plan, ProcessError> {
    match result {
        Ok(outcome) => Ok(outcome@),
        Err(error) => Err(error),
    }
}

/// The record that `data` lays out.
pub open spec fn record_of(data: Seq<u8>) -> State {
    choose|record: State| record.spec_bytes() == data
}

/// The four derivations for the pool of `authority`.
pub open spec fn derived_for(authority: Address) -> Derived {
    Derived {
        state: pool_address(authority, "state"@),
        mint: pool_address(authority, "mint"@),
        token_pool: pool_address(authority, "token-pool"@),
        native_pool: pool_address(authority, "native-pool"@),
    }
}

/// The derivations that an instruction is checked against: those for the
/// first account supplied, which is the authority.
pub open spec fn derived_for_accounts(accounts: Seq<Account>) -> Derived {
    if accounts.len() > 0 {
        derived_for(accounts[0].key)
    } else {
        Derived { state: None, mint: None, token_pool: None, native_pool: None }
    }
}

/// Whether the accounts supplied for the record, the issuance ledger and
/// the two custodies, in this order after the authority, are the derived
/// ones. An address that cannot be derived matches nothing.
pub open spec fn addresses_match(accounts: Seq<Account>, derived: Derived) -> bool {
    &&& derived.state is Some && derived.state->Some_0.0 == accounts[1].key@
    &&& derived.mint is Some && derived.mint->Some_0.0 == accounts[2].key@
    &&& derived.token_pool is Some && derived.token_pool->Some_0.0 == accounts[3].key@
    &&& derived.native_pool is Some && derived.native_pool->Some_0.0 == accounts[4].key@
}

/// The salts of four derivations that all succeeded.
pub open spec fn seeds_of(derived: Derived) -> PoolSeeds {
    PoolSeeds {
        state: derived.state->Some_0.1,
        mint: derived.mint->Some_0.1,
        token_pool: derived.token_pool->Some_0.1,
        native_pool: derived.native_pool->Some_0.1,
    }
}

/// What `Initialize` does. The accounts are, in order: the authority, the
/// record, the issuance ledger, the base custody, the quote custody, and
/// three programs of the host. The supply and the first reserve must fit
/// the ledger's 64-bit amounts.
pub open spec fn initialize_spec(
    program_id: Address,
    accounts: Seq<Account>,
    derived: Derived,
    total_token_supply: u128,
    decimals: u8,
    initial_quote_amount: u128,
) -> Result<Plan, ProcessError> {
    if accounts.len() < 8 {
        Err(ProcessError::NotEnoughAccountKeys)
    } else if !addresses_match(accounts, derived) {
        Err(ProcessError::AddressMismatch)
    } else if total_token_supply > u64::MAX || initial_quote_amount > u64::MAX {
        Err(ProcessError::Pool(IWRError::Overflow))
    } else {
        let payer = accounts[0].key;
        let state = accounts[1].key;
        let mint = accounts[2].key;
        let token_pool = accounts[3].key;
        let native_pool = accounts[4].key;
        Ok(
            Plan {
                seeds: seeds_of(derived),
                effects: seq![
                    Effect::CreateRecordAccount {
                        payer,
                        account: state,
                        owner: program_id,
                        space: STATE_LEN as u64,
                    },
                    Effect::CreateMint { payer, mint, authority: token_pool, decimals },
                    Effect::CreateBaseCustody { payer, custody: token_pool, mint },
                    Effect::Issue { mint, custody: token_pool, amount: total_token_supply as u64 },
                    Effect::CreateQuoteCustody { payer, custody: native_pool, owner: program_id },
                    Effect::TransferQuote {
                        from: payer,
                        to: native_pool,
                        amount: initial_quote_amount as u64,
                    },
                    Effect::WriteRecord {
                        account: state,
                        record: State {
                            authority: payer,
                            mint_authority: mint,
                            base_pool_authority: token_pool,
                            quote_pool_authority: native_pool,
                            balance: Balance {
                                base: (total_token_supply * BASE_UNIT) as u128,
                                quote: initial_quote_amount,
                            },
                        },
                    },
                ],
            },
        )
    }
}

/// What `Buy` does. The accounts are, in order: the authority, the record,
/// the issuance ledger, the base custody, the quote custody, the
/// beneficiary, the customer, the customer's account of the issued asset,
/// and two programs of the host. The customer pays the amount into the
/// quote custody and the fee on top of it to the beneficiary, and
/// receives the whole units of what the amount buys.
pub open spec fn buy_spec(accounts: Seq<Account>, derived: Derived, quote_amount: u128) -> Result<
    Plan,
    ProcessError,
> {
    if accounts.len() < 10 {
        Err(ProcessError::NotEnoughAccountKeys)
    } else if !addresses_match(accounts, derived) {
        Err(ProcessError::AddressMismatch)
    } else if accounts[1].data@.len() != STATE_LEN {
        Err(ProcessError::MalformedRecord)
    } else if accounts[6].lamports < quote_amount + accounts[6].rent_reserve {
        Err(ProcessError::Pool(IWRError::NotEnoughLamports))
    } else {
        let record = record_of(accounts[1].data@);
        match record.balance.after_buy_for_quote(quote_amount) {
            Err(error) => Err(ProcessError::Pool(error)),
            Ok(after) => {
                let base_return = record.balance.base_for_quote(quote_amount)->Ok_0;
                if base_return / BASE_UNIT > u64::MAX {
                    Err(ProcessError::Pool(IWRError::Overflow))
                } else {
                    Ok(
                        Plan {
                            seeds: seeds_of(derived),
                            effects: seq![
                                Effect::TransferQuote {
                                    from: accounts[6].key,
                                    to: accounts[4].key,
                                    amount: quote_amount as u64,
                                },
                                Effect::TransferQuote {
                                    from: accounts[6].key,
                                    to: accounts[5].key,
                                    amount: fee_of(quote_amount as int) as u64,
                                },
                                Effect::TransferBase {
                                    from: accounts[3].key,
                                    to: accounts[7].key,
                                    authority: accounts[3].key,
                                    amount: (base_return / BASE_UNIT) as u64,
                                },
                                Effect::WriteRecord {
                                    account: accounts[1].key,
                                    record: State {
                                        authority: record.authority,
                                        mint_authority: record.mint_authority,
                                        base_pool_authority: record.base_pool_authority,
                                        quote_pool_authority: record.quote_pool_authority,
                                        balance: after,
                                    },
                                },
                            ],
                        },
                    )
                }
            },
        }
    }
}

/// What `Sell` does, on the accounts of `Buy`. The customer hands in the
/// whole units of the amount; the quote custody gives up what the amount
/// sells for, of which the fee goes to the beneficiary and the rest to
/// the customer. The custody must hold what it gives up.
pub open spec fn sell_spec(accounts: Seq<Account>, derived: Derived, base_amount: u128) -> Result<
    Plan,
    ProcessError,
> {
    if accounts.len() < 10 {
        Err(ProcessError::NotEnoughAccountKeys)
    } else if !addresses_match(accounts, derived) {
        Err(ProcessError::AddressMismatch)
    } else if accounts[1].data@.len() != STATE_LEN {
        Err(ProcessError::MalformedRecord)
    } else {
        let record = record_of(accounts[1].data@);
        match record.balance.quote_for_base(base_amount) {
            Err(error) => Err(ProcessError::Pool(error)),
            Ok(quote_return) => if accounts[4].lamports < quote_return {
                Err(ProcessError::Pool(IWRError::NotEnoughLamports))
            } else {
                match record.balance.after_sell_base(base_amount) {
                    Err(error) => Err(ProcessError::Pool(error)),
                    Ok(after) => if base_amount / BASE_UNIT > u64::MAX {
                        Err(ProcessError::Pool(IWRError::Overflow))
                    } else {
                        let fee = fee_of(quote_return as int);
                        Ok(
                            Plan {
                                seeds: seeds_of(derived),
                                effects: seq![
                                    Effect::TransferBase {
                                        from: accounts[7].key,
                                        to: accounts[3].key,
                                        authority: accounts[6].key,
                                        amount: (base_amount / BASE_UNIT) as u64,
                                    },
                                    Effect::DebitQuote {
                                        account: accounts[4].key,
                                        amount: quote_return as u64,
                                    },
                                    Effect::CreditQuote {
                                        account: accounts[6].key,
                                        amount: (quote_return - fee) as u64,
                                    },
                                    Effect::CreditQuote {
                                        account: accounts[5].key,
                                        amount: fee as u64,
                                    },
                                    Effect::WriteRecord {
                                        account: accounts[1].key,
                                        record: State {
                                            authority: record.authority,
                                            mint_authority: record.mint_authority,
                                            base_pool_authority: record.base_pool_authority,
                                            quote_pool_authority: record.quote_pool_authority,
                                            balance: after,
                                        },
                                    },
                                ],
                            },
                        )
                    },
                }
            },
        }
    }
}

/// What an instruction does, given the payload, the accounts and the four
/// derivations for the authority: a payload that is no instruction is
/// refused before anything else is looked at.
pub open spec fn process_spec(
    program_id: Address,
    accounts: Seq<Account>,
    instruction_data: Seq<u8>,
    derived: Derived,
) -> Result<Plan, ProcessError> {
    match PoolInstruction::spec_from_bytes(instruction_data) {
        None => Err(ProcessError::MalformedInstruction),
        Some(PoolInstruction::Initialize { total_token_supply, decimals, initial_quote_amount }) => {
            initialize_spec(
                program_id,
                accounts,
                derived,
                total_token_supply,
                decimals,
                initial_quote_amount,
            )
        },
        Some(PoolInstruction::Buy(quote_amount)) => buy_spec(accounts, derived, quote_amount),
        Some(PoolInstruction::Sell(base_amount)) => sell_spec(accounts, derived, base_amount),
    }
}

/// Derives the four addresses of the pool of `authority`.
pub fn derive_pool_addresses(authority: &Address) -> (derived: PoolAddresses)
    ensures
        derived@ == derived_for(*authority),
{
    PoolAddresses {
        state: get_state_address_with_seed(authority),
        mint: get_mint_address_with_seed(authority),
        token_pool: get_token_pool_address_with_seed(authority),
        native_pool: get_native_pool_address_with_seed(authority),
    }
}

/// The salt of a derivation that gave the supplied address.
fn matching_seed(found: &Option<(Address, u8)>, supplied: &Address) -> (seed: Option<u8>)
    ensures
        seed is Some <==> found is Some && found->Some_0.0@ == supplied@,
        seed is Some ==> seed->Some_0 == found->Some_0.1,
{
    match found {
        Some((address, salt)) => if *address == *supplied {
            Some(*salt)
        } else {
            None
        },
        None => None,
    }
}

/// Holds the four supplied addresses against the derived ones and gives
/// the salts where all four agree.
pub fn check_addresses(accounts: &[Account], derived: &PoolAddresses) -> (seeds: Result<
    PoolSeeds,
    ProcessError,
>)
    requires
        accounts@.len() >= 5,
    ensures
        addresses_match(accounts@, derived@) ==> seeds == Ok::<PoolSeeds, ProcessError>(
            seeds_of(derived@),
        ),
        !addresses_match(accounts@, derived@) ==> seeds == Err::<PoolSeeds, ProcessError>(
            ProcessError::AddressMismatch,
        ),
{
    let state = matching_seed(&derived.state, &accounts[1].key);
    let mint = matching_seed(&derived.mint, &accounts[2].key);
    let token_pool = matching_seed(&derived.token_pool, &accounts[3].key);
    let native_pool = matching_seed(&derived.native_pool, &accounts[4].key);
    match (state, mint, token_pool, native_pool) {
        (Some(state), Some(mint), Some(token_pool), Some(native_pool)) => Ok(
            PoolSeeds { state, mint, token_pool, native_pool },
        ),
        _ => Err(ProcessError::AddressMismatch),
    }
}

/// Reads the pool record out of the account that holds it.
fn read_record(account: &Account) -> (record: Option<State>)
    ensures
        record is Some <==> account.data@.len() == STATE_LEN,
        record is Some ==> record->Some_0 == record_of(account.data@),
{
    let record = State::try_from_slice(account.data.as_slice());
    proof {
        if record is Some {
            State::lemma_layout_injective(record_of(account.data@), record->Some_0);
        }
    }
    record
}

/// Plans `Initialize` against derivations that are handed in.
pub fn process_initialize(
    program_id: &Address,
    accounts: &[Account],
    derived: &PoolAddresses,
    total_token_supply: u128,
    decimals: u8,
    initial_quote_amount: u128,
) -> (result: Result<Outcome, ProcessError>)
    ensures
        result_view(result) == initialize_spec(
            *program_id,
            accounts@,
            derived@,
            total_token_supply,
            decimals,
            initial_quote_amount,
        ),
{
    if accounts.len() < 8 {
        return Err(ProcessError::NotEnoughAccountKeys);
    }
    let seeds = match check_addresses(accounts, derived) {
        Ok(seeds) => seeds,
        Err(error) => {
            return Err(error);
        },
    };
    if total_token_supply > u64::MAX as u128 || initial_quote_amount > u64::MAX as u128 {
        return Err(ProcessError::Pool(IWRError::Overflow));
    }
    let payer = accounts[0].key;
    let state = accounts[1].key;
    let mint = accounts[2].key;
    let token_pool = accounts[3].key;
    let native_pool = accounts[4].key;
    let record = State {
        authority: payer,
        mint_authority: mint,
        base_pool_authority: token_pool,
        quote_pool_authority: native_pool,
        balance: Balance { base: total_token_supply * BASE_UNIT, quote: initial_quote_amount },
    };
    let mut effects: Vec<Effect> = Vec::new();
    effects.push(
        Effect::CreateRecordAccount {
            payer,
            account: state,
            owner: *program_id,
            space: STATE_LEN as u64,
        },
    );
    effects.push(Effect::CreateMint { payer, mint, authority: token_pool, decimals });
    effects.push(Effect::CreateBaseCustody { payer, custody: token_pool, mint });
    effects.push(Effect::Issue { mint, custody: token_pool, amount: total_token_supply as u64 });
    effects.push(Effect::CreateQuoteCustody { payer, custody: native_pool, owner: *program_id });
    effects.push(
        Effect::TransferQuote { from: payer, to: native_pool, amount: initial_quote_amount as u64 },
    );
    effects.push(Effect::WriteRecord { account: state, record });
    let outcome = Outcome { seeds, effects };
    assert(outcome@.effects =~= initialize_spec(
        *program_id,
        accounts@,
        derived@,
        total_token_supply,
        decimals,
        initial_quote_amount,
    )->Ok_0.effects);
    Ok(outcome)
}

/// Plans `Buy` against derivations that are handed in.
pub fn process_buy(accounts: &[Account], derived: &PoolAddresses, quote_amount: u128) -> (result:
    Result<Outcome, ProcessError>)
    ensures
        result_view(result) == buy_spec(accounts@, derived@, quote_amount),
{
    if accounts.len() < 10 {
        return Err(ProcessError::NotEnoughAccountKeys);
    }
    let seeds = match check_addresses(accounts, derived) {
        Ok(seeds) => seeds,
        Err(error) => {
            return Err(error);
        },
    };
    let record = match read_record(&accounts[1]) {
        Some(record) => record,
        None => {
            return Err(ProcessError::MalformedRecord);
        },
    };
    let customer = &accounts[6];
    if quote_amount > u64::MAX as u128 || (customer.lamports as u128) < quote_amount
        + customer.rent_reserve as u128 {
        return Err(ProcessError::Pool(IWRError::NotEnoughLamports));
    }
    let base_return = match record.balance.calculate_base_for_quote_amount(quote_amount) {
        Ok(amount) => amount,
        Err(error) => {
            return Err(ProcessError::Pool(error));
        },
    };
    let fee = record.balance.calculate_fee_of(quote_amount);
    let mut balance = record.balance;
    match balance.apply_buy_base_for_quote(quote_amount) {
        Ok(()) => {},
        Err(error) => {
            return Err(ProcessError::Pool(error));
        },
    }
    let units = base_return / BASE_UNIT;
    if units > u64::MAX as u128 {
        return Err(ProcessError::Pool(IWRError::Overflow));
    }
    let mut effects: Vec<Effect> = Vec::new();
    effects.push(
        Effect::TransferQuote {
            from: customer.key,
            to: accounts[4].key,
            amount: quote_amount as u64,
        },
    );
    effects.push(
        Effect::TransferQuote { from: customer.key, to: accounts[5].key, amount: fee as u64 },
    );
    effects.push(
        Effect::TransferBase {
            from: accounts[3].key,
            to: accounts[7].key,
            authority: accounts[3].key,
            amount: units as u64,
        },
    );
    effects.push(
        Effect::WriteRecord {
            account: accounts[1].key,
            record: State {
                authority: record.authority,
                mint_authority: record.mint_authority,
                base_pool_authority: record.base_pool_authority,
                quote_pool_authority: record.quote_pool_authority,
                balance,
            },
        },
    );
    let outcome = Outcome { seeds, effects };
    assert(outcome@.effects =~= buy_spec(accounts@, derived@, quote_amount)->Ok_0.effects);
    Ok(outcome)
}

/// Plans `Sell` against derivations that are handed in.
pub fn process_sell(accounts: &[Account], derived: &PoolAddresses, base_amount: u128) -> (result:
    Result<Outcome, ProcessError>)
    ensures
        result_view(result) == sell_spec(accounts@, derived@, base_amount),
{
    if accounts.len() < 10 {
        return Err(ProcessError::NotEnoughAccountKeys);
    }
    let seeds = match check_addresses(accounts, derived) {
        Ok(seeds) => seeds,
        Err(error) => {
            return Err(error);
        },
    };
    let record = match read_record(&accounts[1]) {
        Some(record) => record,
        None => {
            return Err(ProcessError::MalformedRecord);
        },
    };
    let quote_return = match record.balance.calculate_quote_for_base_amount(base_amount) {
        Ok(amount) => amount,
        Err(error) => {
            return Err(ProcessError::Pool(error));
        },
    };
    if (accounts[4].lamports as u128) < quote_return {
        return Err(ProcessError::Pool(IWRError::NotEnoughLamports));
    }
    let fee = record.balance.calculate_fee_of(quote_return);
    let net_quote_return = quote_return - fee;
    let mut balance = record.balance;
    match balance.apply_sell_base(base_amount) {
        Ok(()) => {},
        Err(error) => {
            return Err(ProcessError::Pool(error));
        },
    }
    let units = base_amount / BASE_UNIT;
    if units > u64::MAX as u128 {
        return Err(ProcessError::Pool(IWRError::Overflow));
    }
    let mut effects: Vec<Effect> = Vec::new();
    effects.push(
        Effect::TransferBase {
            from: accounts[7].key,
            to: accounts[3].key,
            authority: accounts[6].key,
            amount: units as u64,
        },
    );
    effects.push(Effect::DebitQuote { account: accounts[4].key, amount: quote_return as u64 });
    effects.push(
        Effect::CreditQuote { account: accounts[6].key, amount: net_quote_return as u64 },
    );
    effects.push(Effect::CreditQuote { account: accounts[5].key, amount: fee as u64 });
    effects.push(
        Effect::WriteRecord {
            account: accounts[1].key,
            record: State {
                authority: record.authority,
                mint_authority: record.mint_authority,
                base_pool_authority: record.base_pool_authority,
                quote_pool_authority: record.quote_pool_authority,
                balance,
            },
        },
    );
    let outcome = Outcome { seeds, effects };
    assert(outcome@.effects =~= sell_spec(accounts@, derived@, base_amount)->Ok_0.effects);
    Ok(outcome)
}

/// Processes one instruction against derivations that are handed in.
pub fn process_with(
    program_id: &Address,
    accounts: &[Account],
    instruction_data: &[u8],
    derived: &PoolAddresses,
) -> (result: Result<Outcome, ProcessError>)
    ensures
        result_view(result) == process_spec(*program_id, accounts@, instruction_data@, derived@),
{
    match PoolInstruction::try_from_slice(instruction_data) {
        Err(error) => Err(error),
        Ok(PoolInstruction::Initialize { total_token_supply, decimals, initial_quote_amount }) => {
            process_initialize(
                program_id,
                accounts,
                derived,
                total_token_supply,
                decimals,
                initial_quote_amount,
            )
        },
        Ok(PoolInstruction::Buy(quote_amount)) => process_buy(accounts, derived, quote_amount),
        Ok(PoolInstruction::Sell(base_amount)) => process_sell(accounts, derived, base_amount),
    }
}

/// Processes one instruction: derives the four addresses of the pool of
/// the first account and plans the instruction against them.
pub fn process_instruction(program_id: &Address, accounts: &[Account], instruction_data: &[u8]) -> (
    result: Result<Outcome, ProcessError>)
    ensures
        result_view(result) == process_spec(
            *program_id,
            accounts@,
            instruction_data@,
            derived_for_accounts(accounts@),
        ),
{
    let derived = if accounts.len() > 0 {
        derive_pool_addresses(&accounts[0].key)
    } else {
        PoolAddresses { state: None, mint: None, token_pool: None, native_pool: None }
    };
    process_with(program_id, accounts, instruction_data, &derived)
}

/// The number of accounts that an instruction reads.
pub open spec fn accounts_read(instruction: PoolInstruction) -> nat {
    match instruction {
        PoolInstruction::Initialize { .. } => 8,
        PoolInstruction::Buy(_) => 10,
        PoolInstruction::Sell(_) => 10,
    }
}

/// An instruction that supplies, for the record, the issuance ledger or
/// one of the custodies, an address other than the derived one is refused
/// as a mismatch, whatever else it holds; being refused, it asks for no
/// effect, so the record stays as it is.
pub proof fn lemma_mismatch_refused(
    program_id: Address,
    accounts: Seq<Account>,
    instruction_data: Seq<u8>,
    derived: Derived,
)
    requires
        PoolInstruction::spec_from_bytes(instruction_data) is Some,
        accounts.len() >= accounts_read(PoolInstruction::spec_from_bytes(instruction_data)->Some_0),
        !addresses_match(accounts, derived),
    ensures
        process_spec(program_id, accounts, instruction_data, derived) == Err::<
            Plan,
            ProcessError,
        >(ProcessError::AddressMismatch),
{
}

/// A sale priced above what the quote custody holds is refused for want
/// of funds, and asks for no transfer.
pub proof fn lemma_sell_beyond_custody_refused(
    accounts: Seq<Account>,
    derived: Derived,
    base_amount: u128,
)
    requires
        accounts.len() >= 10,
        addresses_match(accounts, derived),
        accounts[1].data@.len() == STATE_LEN,
        record_of(accounts[1].data@).balance.quote_for_base(base_amount) is Ok,
        record_of(accounts[1].data@).balance.quote_for_base(base_amount)->Ok_0
            > accounts[4].lamports,
    ensures
        sell_spec(accounts, derived, base_amount) == Err::<Plan, ProcessError>(
            ProcessError::Pool(IWRError::NotEnoughLamports),
        ),
{
}

/// Where an instruction succeeds, the record is written exactly once, as
/// the last effect, into the account supplied for it.
pub proof fn lemma_record_written_last(
    program_id: Address,
    accounts: Seq<Account>,
    instruction_data: Seq<u8>,
    derived: Derived,
)
    requires
        process_spec(program_id, accounts, instruction_data, derived) is Ok,
    ensures
        ({
            let effects = process_spec(program_id, accounts, instruction_data, derived)->Ok_0.effects;
            &&& effects.len() > 0
            &&& effects.last() is WriteRecord
            &&& effects.last()->WriteRecord_account == accounts[1].key
            &&& forall|i: int| 0 <= i < effects.len() - 1 ==> !(#[trigger] effects[i] is WriteRecord)
        }),
{
}

/// A trade leaves the four identities of the record as they were and
/// changes its reserves as the balance engine says.
pub proof fn lemma_trade_rewrites_reserves_only(
    accounts: Seq<Account>,
    derived: Derived,
    amount: u128,
)
    ensures
        buy_spec(accounts, derived, amount) is Ok ==> buy_spec(
            accounts,
            derived,
            amount,
        )->Ok_0.effects.last()->WriteRecord_record == (State {
            balance: record_of(accounts[1].data@).balance.after_buy_for_quote(amount)->Ok_0,
            ..record_of(accounts[1].data@)
        }),
        sell_spec(accounts, derived, amount) is Ok ==> sell_spec(
            accounts,
            derived,
            amount,
        )->Ok_0.effects.last()->WriteRecord_record == (State {
            balance: record_of(accounts[1].data@).balance.after_sell_base(amount)->Ok_0,
            ..record_of(accounts[1].data@)
        }),
{
}

} // verus!
