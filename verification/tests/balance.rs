use bpf_iwr_ace::balance::Balance;
use bpf_iwr_ace::error::IWRError;
use bpf_iwr_ace::{BASE_UNIT, QUOTE_UNIT};

fn million_pool() -> Balance {
    Balance { base: 1000000_000000000000000000u128, quote: 1_000000000u128 }
}

#[test]
fn test_calculations() {
    let mut balance = Balance { base: 1000000_000000000000000000u128, quote: 1_000000000u128 };

    let one_whole_quote = 1000000000u128;
    let one_whole_base = 1000000000000000000u128;

    println!("\n=============================================================================\n");

    println!(
        "initial balance: base={} ({}) quote={} ({})\n",
        balance.base,
        balance.base / one_whole_base,
        balance.quote,
        balance.quote / one_whole_quote,
    );

    let mut purchases: Vec<u128> = vec![];
    for _ in 0..25 {
        let purchased_base = balance.calculate_base_for_quote_amount(one_whole_quote).unwrap();
        purchases.push(purchased_base);

        println!(
            "base={} ({}) quote={} ({})   |   buying {} for {} (fee: {})",
            balance.base,
            balance.base / one_whole_base,
            balance.quote,
            balance.quote / one_whole_quote,
            purchased_base,
            one_whole_quote,
            balance.calculate_fee_of(one_whole_quote)
        );

        balance.apply_buy_base_for_quote(one_whole_quote).unwrap();
    }

    println!(
        "\nbalance after sell-out: base={} ({}) quote={} ({})\n",
        balance.base,
        balance.base / one_whole_base,
        balance.quote,
        balance.quote / one_whole_quote,
    );
    assert_eq!(balance.base, 38461538461538461538469);
    assert_eq!(balance.quote, 26000000000);

    println!("\n=============================================================================\n");

    for p in purchases.iter().rev() {
        println!(
            "base={} ({}) quote={} ({})   |   selling {} for {}",
            balance.base,
            balance.base / one_whole_base,
            balance.quote,
            balance.quote / one_whole_quote,
            *p,
            balance.calculate_quote_for_base_amount(*p).unwrap(),
        );

        balance.apply_sell_base(*p).unwrap();
    }

    println!(
        "\nbalance after buy-back: base={} ({}) quote={} ({})\n",
        balance.base,
        balance.base / one_whole_base,
        balance.quote,
        balance.quote / one_whole_quote,
    );
    assert_eq!(balance.base, 1000000000000000000000000);
    assert_eq!(balance.quote, 1000000001);
}

#[test]
fn units_are_powers_of_ten() {
    assert_eq!(BASE_UNIT, 10u128.pow(18));
    assert_eq!(QUOTE_UNIT, 10u128.pow(9));
}

#[test]
fn fee_is_thirty_in_ten_thousand() {
    let balance = million_pool();
    assert_eq!(balance.calculate_fee_of(0), 0);
    assert_eq!(balance.calculate_fee_of(1), 0);
    assert_eq!(balance.calculate_fee_of(333), 0);
    assert_eq!(balance.calculate_fee_of(334), 1);
    assert_eq!(balance.calculate_fee_of(10000), 30);
    assert_eq!(balance.calculate_fee_of(1_000_000_000), 3_000_000);
    assert_eq!(balance.calculate_fee_of(123_456_789), 370_370);
}

#[test]
fn fee_of_the_largest_amount_does_not_overflow() {
    let balance = Balance::default();
    assert_eq!(balance.calculate_fee_of(u128::MAX), 1020847100762815390390123822295304634);
}

#[test]
fn nothing_is_quoted_for_nothing() {
    let balance = million_pool();
    assert_eq!(balance.calculate_base_for_quote_amount(0), Ok(0));
    assert_eq!(balance.calculate_quote_for_base_amount(0), Ok(0));
    let empty = Balance { base: 0, quote: 0 };
    assert_eq!(empty.calculate_base_for_quote_amount(0), Ok(0));
    assert_eq!(empty.calculate_quote_for_base_amount(0), Ok(0));
}

#[test]
fn buying_for_the_whole_quote_reserve_halves_the_base() {
    let mut balance = Balance { base: 1_000_000 * 10u128.pow(18), quote: 1_000_000_000 };
    assert_eq!(
        balance.calculate_base_for_quote_amount(1_000_000_000),
        Ok(500_000 * 10u128.pow(18))
    );
    assert_eq!(balance.apply_buy_base_for_quote(1_000_000_000), Ok(()));
    assert_eq!(balance.quote, 2_000_000_000);
    assert_eq!(balance.base, 500_000 * 10u128.pow(18));
}

#[test]
fn quotes_round_down() {
    let balance = million_pool();
    assert_eq!(balance.calculate_base_for_quote_amount(142857142), Ok(124999999343749999507812));
    let small = Balance { base: 10, quote: 3 };
    assert_eq!(small.calculate_base_for_quote_amount(1), Ok(2));
    assert_eq!(small.calculate_quote_for_base_amount(1), Ok(0));
    assert_eq!(small.calculate_quote_for_base_amount(5), Ok(1));
}

#[test]
fn selling_moves_both_reserves() {
    let mut balance = Balance { base: 500_000 * BASE_UNIT, quote: 2 * QUOTE_UNIT };
    assert_eq!(balance.calculate_quote_for_base_amount(500_000 * BASE_UNIT), Ok(QUOTE_UNIT));
    assert_eq!(balance.apply_sell_base(500_000 * BASE_UNIT), Ok(()));
    assert_eq!(balance, Balance { base: 1_000_000 * BASE_UNIT, quote: QUOTE_UNIT });
}

#[test]
fn product_overflow_is_reported() {
    let balance = Balance { base: u128::MAX, quote: 5 };
    assert_eq!(balance.calculate_base_for_quote_amount(2), Err(IWRError::Overflow));
    assert_eq!(balance.calculate_base_for_quote_amount(1), Ok(u128::MAX / 6));
    let balance = Balance { base: 5, quote: u128::MAX };
    assert_eq!(balance.calculate_quote_for_base_amount(2), Err(IWRError::Overflow));
}

#[test]
fn sum_overflow_is_reported() {
    let balance = Balance { base: 1, quote: u128::MAX };
    assert_eq!(balance.calculate_base_for_quote_amount(1), Err(IWRError::Overflow));
    let balance = Balance { base: u128::MAX, quote: 1 };
    assert_eq!(balance.calculate_quote_for_base_amount(1), Err(IWRError::Overflow));
}

#[test]
fn a_failed_buy_leaves_the_reserves() {
    let mut balance = Balance { base: u128::MAX, quote: 5 };
    assert_eq!(balance.apply_buy_base_for_quote(2), Err(IWRError::Overflow));
    assert_eq!(balance, Balance { base: u128::MAX, quote: 5 });
}

#[test]
fn a_buy_may_not_drain_the_base_reserve() {
    let mut balance = Balance { base: 0, quote: 7 };
    assert_eq!(balance.apply_buy_base_for_quote(3), Err(IWRError::NotEnoughTokens));
    assert_eq!(balance, Balance { base: 0, quote: 7 });
    let mut balance = Balance { base: 9, quote: 0 };
    assert_eq!(balance.apply_buy_base_for_quote(4), Err(IWRError::NotEnoughTokens));
    assert_eq!(balance, Balance { base: 9, quote: 0 });
}

#[test]
fn a_sale_may_not_drain_the_quote_reserve() {
    let mut balance = Balance { base: 0, quote: 7 };
    assert_eq!(balance.apply_sell_base(3), Err(IWRError::NotEnoughLamports));
    assert_eq!(balance, Balance { base: 0, quote: 7 });
    let mut balance = Balance { base: 7, quote: 0 };
    assert_eq!(balance.apply_sell_base(3), Err(IWRError::NotEnoughLamports));
    assert_eq!(balance, Balance { base: 7, quote: 0 });
}

#[test]
fn a_sale_that_overflows_the_base_reserve_is_refused() {
    let mut balance = Balance { base: u128::MAX, quote: 10 };
    assert_eq!(balance.apply_sell_base(1), Err(IWRError::Overflow));
    assert_eq!(balance, Balance { base: u128::MAX, quote: 10 });
}

#[test]
fn buying_by_base_amount_prices_it_first() {
    let mut balance = Balance { base: 1000, quote: 1000 };
    // 1000 * 250 / 1250 = 200 quote, which then buys 1000 * 200 / 1200 = 166 base
    assert_eq!(balance.apply_buy_base(250), Ok(()));
    assert_eq!(balance, Balance { base: 834, quote: 1200 });
}

#[test]
fn selling_by_quote_amount_prices_it_first() {
    let mut balance = Balance { base: 1000, quote: 1000 };
    // 1000 * 250 / 1250 = 200 base, which then sells for 1000 * 200 / 1200 = 166 quote
    assert_eq!(balance.apply_sell_base_for_quote(250), Ok(()));
    assert_eq!(balance, Balance { base: 1200, quote: 834 });
}

#[test]
fn composed_trades_report_the_pricing_error() {
    let mut balance = Balance { base: 5, quote: u128::MAX };
    assert_eq!(balance.apply_buy_base(2), Err(IWRError::Overflow));
    assert_eq!(balance, Balance { base: 5, quote: u128::MAX });
    let mut balance = Balance { base: u128::MAX, quote: 5 };
    assert_eq!(balance.apply_sell_base_for_quote(2), Err(IWRError::Overflow));
    assert_eq!(balance, Balance { base: u128::MAX, quote: 5 });
}

#[test]
fn sufficiency_guards_compare_with_the_reserve() {
    let balance = Balance { base: 10, quote: 20 };
    assert!(balance.has_enough_base(10));
    assert!(!balance.has_enough_base(11));
    assert!(balance.has_enough_quote(20));
    assert!(!balance.has_enough_quote(21));
    assert!(balance.has_enough_quote(0));
}

#[test]
fn the_product_of_the_reserves_never_falls() {
    let mut balance = Balance { base: 1_000_003, quote: 977 };
    let mut product = balance.base * balance.quote;
    for amount in [1u128, 7, 100, 12345, 3] {
        balance.apply_buy_base_for_quote(amount).unwrap();
        assert!(balance.base * balance.quote >= product);
        product = balance.base * balance.quote;
        balance.apply_sell_base(amount * 11).unwrap();
        assert!(balance.base * balance.quote >= product);
        product = balance.base * balance.quote;
    }
}

#[test]
fn an_exact_trade_keeps_the_product() {
    let mut balance = Balance { base: 1000, quote: 100 };
    balance.apply_buy_base_for_quote(100).unwrap();
    assert_eq!(balance, Balance { base: 500, quote: 200 });
    assert_eq!(balance.base * balance.quote, 100_000);
}

#[test]
fn a_round_trip_returns_no_more_than_was_paid() {
    for quote_in in [1u128, 2, 142857142, 1_000_000_000, 999_999_999_999] {
        let mut balance = million_pool();
        let base_out = balance.calculate_base_for_quote_amount(quote_in).unwrap();
        balance.apply_buy_base_for_quote(quote_in).unwrap();
        let quote_back = balance.calculate_quote_for_base_amount(base_out).unwrap();
        assert!(quote_back <= quote_in);
    }
    let mut balance = million_pool();
    balance.apply_buy_base_for_quote(142857142).unwrap();
    assert_eq!(balance.calculate_quote_for_base_amount(124999999343749999507812), Ok(142857141));
}

#[test]
fn the_default_balance_is_empty() {
    assert_eq!(Balance::default(), Balance { base: 0, quote: 0 });
}
