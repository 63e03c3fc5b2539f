//! The reserve pair of the pool and the constant-product arithmetic on it.

use crate::error::IWRError;
use vstd::prelude::*;

verus! {

/// Numerator of the trade fee.
pub const FEE_NUM: u128 = 30;

/// Denominator of the trade fee.
pub const FEE_DEN: u128 = 10000;

/// The fee on `amount`: thirty parts in ten thousand, rounded down.
pub open spec fn fee_of(amount: int) -> int {
    amount * 30 / 10000
}

/// What `amount_in`, added to a reserve of `reserve_in`, takes out of the
/// opposite reserve `reserve_out` under the constant-product rule, rounded
/// down. Nothing comes out for nothing.
pub open spec fn swap_out(reserve_out: int, reserve_in: int, amount_in: int) -> int {
    if amount_in == 0 {
        0
    } else {
        reserve_out * amount_in / (reserve_in + amount_in)
    }
}

/// Whether the product and the sum that `swap_out` divides fit in 128 bits.
pub open spec fn swap_fits(reserve_out: int, reserve_in: int, amount_in: int) -> bool {
    amount_in == 0 || (reserve_out * amount_in <= u128::MAX && reserve_in + amount_in
        <= u128::MAX)
}

/// The two reserves of the pool.
#[derive(Clone, Copy, Debug, PartialEq, Eq, Structural)]
pub struct Balance {
    /// Reserve of the issued asset.
    pub base: u128,
    /// Reserve of the settlement asset.
    pub quote: u128,
}

impl Default for Balance {
    fn default() -> (balance: Balance)
        ensures
            balance == (Balance { base: 0, quote: 0 }),
    {
        Balance { base: 0, quote: 0 }
    }
}

/// The checked constant-product quote shared by both trade directions.
fn swap_amount(reserve_out: u128, reserve_in: u128, amount_in: u128) -> (out: Result<
    u128,
    IWRError,
>)
    ensures
        swap_fits(reserve_out as int, reserve_in as int, amount_in as int) ==> out == Ok::<
            u128,
            IWRError,
        >(swap_out(reserve_out as int, reserve_in as int, amount_in as int) as u128),
        !swap_fits(reserve_out as int, reserve_in as int, amount_in as int) ==> out == Err::<
            u128,
            IWRError,
        >(IWRError::Overflow),
        out is Ok ==> out->Ok_0 == swap_out(reserve_out as int, reserve_in as int, amount_in as int),
        out is Ok ==> out->Ok_0 <= reserve_out,
{
    if amount_in == 0 {
        return Ok(0);
    }
    match reserve_out.checked_mul(amount_in) {
        None => Err(IWRError::Overflow),
        Some(product) => match reserve_in.checked_add(amount_in) {
            None => Err(IWRError::Overflow),
            Some(total) => {
                proof {
                    lemma_swap_out_bounded(reserve_out as int, reserve_in as int, amount_in as int);
                }
                Ok(product / total)
            },
        },
    }
}

/// A swap never takes out more than the reserve holds, and what it takes
/// out, times the enlarged reserve, is at most the product it divided.
pub proof fn lemma_swap_out_bounded(reserve_out: int, reserve_in: int, amount_in: int)
    requires
        0 <= reserve_out,
        0 <= reserve_in,
        0 <= amount_in,
    ensures
        0 <= swap_out(reserve_out, reserve_in, amount_in) <= reserve_out,
        swap_out(reserve_out, reserve_in, amount_in) * (reserve_in + amount_in) <= reserve_out
            * amount_in,
{
    if amount_in != 0 {
        let product = reserve_out * amount_in;
        let total = reserve_in + amount_in;
        let out = product / total;
        assert(0 <= product) by (nonlinear_arith)
            requires
                product == reserve_out * amount_in,
                0 <= reserve_out,
                0 <= amount_in,
        ;
        assert(0 <= out && out * total <= product) by (nonlinear_arith)
            requires
                out == product / total,
                0 <= product,
                0 < total,
        ;
        assert(out <= reserve_out) by (nonlinear_arith)
            requires
                out * total <= reserve_out * amount_in,
                total >= amount_in,
                amount_in > 0,
                0 <= out,
                0 <= reserve_out,
        ;
    } else {
        assert(0 * (reserve_in + amount_in) == 0);
        assert(reserve_out * 0 == 0);
    }
}

impl Balance {
    /// The issued-asset amount that `quote_amount` buys at these reserves, or
    /// the overflow of the checked arithmetic that computes it.
    pub open spec fn base_for_quote(self, quote_amount: u128) -> Result<u128, IWRError> {
        if swap_fits(self.base as int, self.quote as int, quote_amount as int) {
            Ok(swap_out(self.base as int, self.quote as int, quote_amount as int) as u128)
        } else {
            Err(IWRError::Overflow)
        }
    }

    /// The settlement-asset amount that `base_amount` sells for at these
    /// reserves, or the overflow of the checked arithmetic that computes it.
    pub open spec fn quote_for_base(self, base_amount: u128) -> Result<u128, IWRError> {
        if swap_fits(self.quote as int, self.base as int, base_amount as int) {
            Ok(swap_out(self.quote as int, self.base as int, base_amount as int) as u128)
        } else {
            Err(IWRError::Overflow)
        }
    }

    /// The reserves after `quote_amount` has bought issued asset: the quote
    /// priced at the reserves before the trade, both sides moved together.
    /// The trade is refused where it would take the whole base reserve.
    pub open spec fn after_buy_for_quote(self, quote_amount: u128) -> Result<Balance, IWRError> {
        match self.base_for_quote(quote_amount) {
            Err(e) => Err(e),
            Ok(base_out) => if base_out >= self.base {
                Err(IWRError::NotEnoughTokens)
            } else {
                Ok(
                    Balance {
                        base: (self.base - base_out) as u128,
                        quote: (self.quote + quote_amount) as u128,
                    },
                )
            },
        }
    }

    /// The reserves after `base_amount` has been sold back: the quote priced
    /// at the reserves before the trade, both sides moved together. The
    /// trade is refused where it would take the whole quote reserve.
    pub open spec fn after_sell_base(self, base_amount: u128) -> Result<Balance, IWRError> {
        match self.quote_for_base(base_amount) {
            Err(e) => Err(e),
            Ok(quote_out) => if quote_out >= self.quote {
                Err(IWRError::NotEnoughLamports)
            } else {
                Ok(
                    Balance {
                        base: (self.base + base_amount) as u128,
                        quote: (self.quote - quote_out) as u128,
                    },
                )
            },
        }
    }

    /// The reserves after a buy whose size is given in issued asset: the
    /// amount is first priced in settlement asset, then bought for.
    pub open spec fn after_buy_base(self, base_amount: u128) -> Result<Balance, IWRError> {
        match self.quote_for_base(base_amount) {
            Err(e) => Err(e),
            Ok(quote_amount) => self.after_buy_for_quote(quote_amount),
        }
    }

    /// The reserves after a sale whose size is given in settlement asset:
    /// the amount is first priced in issued asset, then sold.
    pub open spec fn after_sell_base_for_quote(self, quote_amount: u128) -> Result<
        Balance,
        IWRError,
    > {
        match self.base_for_quote(quote_amount) {
            Err(e) => Err(e),
            Ok(base_amount) => self.after_sell_base(base_amount),
        }
    }

    /// The fee on `quote_amount`, exact for every 128-bit amount.
    pub fn calculate_fee_of(&self, quote_amount: u128) -> (fee: u128)
        ensures
            fee == fee_of(quote_amount as int),
            fee <= quote_amount,
            quote_amount == 0 ==> fee == 0,
    {
        let whole: u128 = quote_amount / FEE_DEN;
        let rest: u128 = quote_amount % FEE_DEN;
        assert((whole * 10000 + rest) * 30 / 10000 == whole * 30 + rest * 30 / 10000);
        whole * FEE_NUM + rest * FEE_NUM / FEE_DEN
    }

    /// Prices `quote_amount` of settlement asset in issued asset.
    pub fn calculate_base_for_quote_amount(&self, quote_amount: u128) -> (base_amount: Result<
        u128,
        IWRError,
    >)
        ensures
            base_amount == self.base_for_quote(quote_amount),
            quote_amount == 0 ==> base_amount == Ok::<u128, IWRError>(0),
            base_amount is Ok ==> base_amount->Ok_0 <= self.base,
    {
        swap_amount(self.base, self.quote, quote_amount)
    }

    /// Prices `base_amount` of issued asset in settlement asset.
    pub fn calculate_quote_for_base_amount(&self, base_amount: u128) -> (quote_amount: Result<
        u128,
        IWRError,
    >)
        ensures
            quote_amount == self.quote_for_base(base_amount),
            base_amount == 0 ==> quote_amount == Ok::<u128, IWRError>(0),
            quote_amount is Ok ==> quote_amount->Ok_0 <= self.quote,
    {
        swap_amount(self.quote, self.base, base_amount)
    }

    /// Buys issued asset for `quote_amount`. On an error the reserves are
    /// left as they were.
    pub fn apply_buy_base_for_quote(&mut self, quote_amount: u128) -> (done: Result<(), IWRError>)
        ensures
            match old(self).after_buy_for_quote(quote_amount) {
                Ok(after) => done is Ok && *final(self) == after,
                Err(e) => done == Err::<(), IWRError>(e) && *final(self) == *old(self),
            },
            done is Ok ==> final(self).base * final(self).quote >= old(self).base * old(
                self,
            ).quote,
            done is Ok ==> final(self).base > 0,
    {
        let base_amount = match self.calculate_base_for_quote_amount(quote_amount) {
            Ok(amount) => amount,
            Err(e) => {
                return Err(e);
            },
        };
        if base_amount >= self.base {
            return Err(IWRError::NotEnoughTokens);
        }
        proof {
            lemma_product_kept(self.base as int, self.quote as int, quote_amount as int);
        }
        self.quote = self.quote + quote_amount;
        self.base = self.base - base_amount;
        Ok(())
    }

    /// Sells `base_amount` of issued asset. On an error the reserves are
    /// left as they were.
    pub fn apply_sell_base(&mut self, base_amount: u128) -> (done: Result<(), IWRError>)
        ensures
            match old(self).after_sell_base(base_amount) {
                Ok(after) => done is Ok && *final(self) == after,
                Err(e) => done == Err::<(), IWRError>(e) && *final(self) == *old(self),
            },
            done is Ok ==> final(self).base * final(self).quote >= old(self).base * old(
                self,
            ).quote,
            done is Ok ==> final(self).quote > 0,
    {
        let quote_amount = match self.calculate_quote_for_base_amount(base_amount) {
            Ok(amount) => amount,
            Err(e) => {
                return Err(e);
            },
        };
        if quote_amount >= self.quote {
            return Err(IWRError::NotEnoughLamports);
        }
        proof {
            lemma_product_kept(self.quote as int, self.base as int, base_amount as int);
            assert(self.quote * self.base == self.base * self.quote) by (nonlinear_arith);
            assert((self.quote - quote_amount) * (self.base + base_amount) == (self.base
                + base_amount) * (self.quote - quote_amount)) by (nonlinear_arith);
        }
        self.base = self.base + base_amount;
        self.quote = self.quote - quote_amount;
        Ok(())
    }

    /// Buys `base_amount` worth of issued asset: prices it in settlement
    /// asset at the current reserves and buys for that much.
    pub fn apply_buy_base(&mut self, base_amount: u128) -> (done: Result<(), IWRError>)
        ensures
            match old(self).after_buy_base(base_amount) {
                Ok(after) => done is Ok && *final(self) == after,
                Err(e) => done == Err::<(), IWRError>(e) && *final(self) == *old(self),
            },
    {
        match self.calculate_quote_for_base_amount(base_amount) {
            Ok(quote_amount) => self.apply_buy_base_for_quote(quote_amount),
            Err(e) => Err(e),
        }
    }

    /// Sells `quote_amount` worth of issued asset: prices it in issued
    /// asset at the current reserves and sells that much.
    pub fn apply_sell_base_for_quote(&mut self, quote_amount: u128) -> (done: Result<
        (),
        IWRError,
    >)
        ensures
            match old(self).after_sell_base_for_quote(quote_amount) {
                Ok(after) => done is Ok && *final(self) == after,
                Err(e) => done == Err::<(), IWRError>(e) && *final(self) == *old(self),
            },
    {
        match self.calculate_base_for_quote_amount(quote_amount) {
            Ok(base_amount) => self.apply_sell_base(base_amount),
            Err(e) => Err(e),
        }
    }

    /// Whether the quote reserve covers `quote`.
    pub fn has_enough_quote(&self, quote: u128) -> (enough: bool)
        ensures
            enough == (self.quote >= quote),
    {
        self.quote >= quote
    }

    /// Whether the base reserve covers `base`.
    pub fn has_enough_base(&self, base: u128) -> (enough: bool)
        ensures
            enough == (self.base >= base),
    {
        self.base >= base
    }
}

/// Moving `amount_in` into one reserve and the swapped amount out of the
/// other never lowers the product of the two.
pub proof fn lemma_product_kept(reserve_out: int, reserve_in: int, amount_in: int)
    requires
        0 <= reserve_out,
        0 <= reserve_in,
        0 <= amount_in,
    ensures
        (reserve_out - swap_out(reserve_out, reserve_in, amount_in)) * (reserve_in + amount_in)
            >= reserve_out * reserve_in,
{
    lemma_swap_out_bounded(reserve_out, reserve_in, amount_in);
    let out = swap_out(reserve_out, reserve_in, amount_in);
    assert((reserve_out - out) * (reserve_in + amount_in) >= reserve_out * reserve_in)
        by (nonlinear_arith)
        requires
            out * (reserve_in + amount_in) <= reserve_out * amount_in,
    ;
}

/// Either trade direction, where it succeeds, leaves the product of the
/// reserves at least as large as it was.
pub proof fn lemma_trade_keeps_product(balance: Balance, amount: u128)
    ensures
        balance.after_buy_for_quote(amount) is Ok ==> balance.after_buy_for_quote(
            amount,
        )->Ok_0.base * balance.after_buy_for_quote(amount)->Ok_0.quote >= balance.base
            * balance.quote,
        balance.after_sell_base(amount) is Ok ==> balance.after_sell_base(amount)->Ok_0.base
            * balance.after_sell_base(amount)->Ok_0.quote >= balance.base * balance.quote,
{
    if balance.after_buy_for_quote(amount) is Ok {
        lemma_swap_out_bounded(balance.base as int, balance.quote as int, amount as int);
        lemma_product_kept(balance.base as int, balance.quote as int, amount as int);
    }
    if balance.after_sell_base(amount) is Ok {
        let after = balance.after_sell_base(amount)->Ok_0;
        lemma_swap_out_bounded(balance.quote as int, balance.base as int, amount as int);
        lemma_product_kept(balance.quote as int, balance.base as int, amount as int);
        assert(balance.quote * balance.base == balance.base * balance.quote)
            by (nonlinear_arith);
        assert(after.quote * after.base == after.base * after.quote) by (nonlinear_arith);
    }
}

/// A trade whose quotient has no remainder leaves the product of the
/// reserves exactly as it was.
pub proof fn lemma_exact_trade_preserves_product(balance: Balance, quote_amount: u128)
    requires
        balance.after_buy_for_quote(quote_amount) is Ok,
        quote_amount > 0,
        (balance.base * quote_amount) % (balance.quote + quote_amount) == 0,
    ensures
        balance.after_buy_for_quote(quote_amount)->Ok_0.base * balance.after_buy_for_quote(
            quote_amount,
        )->Ok_0.quote == balance.base * balance.quote,
{
    let product = balance.base * quote_amount;
    let total = balance.quote + quote_amount;
    let out = product / total;
    lemma_swap_out_bounded(balance.base as int, balance.quote as int, quote_amount as int);
    assert(out * total == product) by (nonlinear_arith)
        requires
            out == product / total,
            product % total == 0,
            total > 0,
    ;
    assert((balance.base - out) * total == balance.base * balance.quote) by (nonlinear_arith)
        requires
            out * total == balance.base * quote_amount,
            total == balance.quote + quote_amount,
    ;
}

/// Buying for `quote_in` and at once selling back what was bought is priced
/// without overflow and returns no more than `quote_in`.
pub proof fn lemma_round_trip(balance: Balance, quote_in: u128)
    requires
        balance.after_buy_for_quote(quote_in) is Ok,
    ensures
        balance.after_buy_for_quote(quote_in)->Ok_0.quote_for_base(
            balance.base_for_quote(quote_in)->Ok_0,
        ) is Ok,
        balance.after_buy_for_quote(quote_in)->Ok_0.quote_for_base(
            balance.base_for_quote(quote_in)->Ok_0,
        )->Ok_0 <= quote_in,
{
    let base_out = balance.base_for_quote(quote_in)->Ok_0;
    let after = balance.after_buy_for_quote(quote_in)->Ok_0;
    lemma_swap_out_bounded(balance.base as int, balance.quote as int, quote_in as int);
    if base_out > 0 {
        let total = balance.quote + quote_in;
        assert(after.base + base_out == balance.base);
        assert(after.quote == total);
        assert(base_out * total <= balance.base * quote_in);
        assert(after.quote * base_out == base_out * total) by (nonlinear_arith)
            requires
                after.quote == total,
        ;
        assert(balance.base * quote_in <= u128::MAX);
        let back = (after.quote * base_out) / (after.base + base_out);
        assert(back <= quote_in) by (nonlinear_arith)
            requires
                back == (after.quote * base_out) / (after.base + base_out),
                after.quote * base_out <= balance.base * quote_in,
                after.base + base_out == balance.base,
                balance.base > 0,
                0 <= after.quote * base_out,
        ;
        lemma_swap_out_bounded(after.quote as int, after.base as int, base_out as int);
    }
}

/// Reserves that are both nonzero stay so across every trade that
/// succeeds.
pub proof fn lemma_trade_keeps_reserves_nonzero(balance: Balance, amount: u128)
    requires
        balance.base > 0,
        balance.quote > 0,
    ensures
        balance.after_buy_for_quote(amount) is Ok ==> balance.after_buy_for_quote(
            amount,
        )->Ok_0.base > 0 && balance.after_buy_for_quote(amount)->Ok_0.quote > 0,
        balance.after_sell_base(amount) is Ok ==> balance.after_sell_base(amount)->Ok_0.base > 0
            && balance.after_sell_base(amount)->Ok_0.quote > 0,
{
    lemma_swap_out_bounded(balance.base as int, balance.quote as int, amount as int);
    lemma_swap_out_bounded(balance.quote as int, balance.base as int, amount as int);
}

} // verus!
