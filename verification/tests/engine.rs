use swap_engine::engine::ReservePool;
use swap_engine::engine::SwapError;
use swap_engine::engine::default_fee_rate;
use swap_engine::engine::quote_swap;
use swap_engine::rational::Rat;

#[test]
fn default_fee_is_three_per_mille() {
    let fee = default_fee_rate();
    assert_eq!(fee.n, 3);
    assert_eq!(fee.d, 1000);
}

#[test]
fn concrete_scenario_matches_formula() {
    // reserves 1000 and 1000, fee 0.3 percent, sell 100 of the first
    // token; the expected value is the formula's own reference
    // computation, kept as an exact fraction
    let fee = default_fee_rate();
    let out = quote_swap(&Rat::new(1000, 1), &Rat::new(1000, 1), &Rat::new(100, 1), &fee).unwrap();
    // reserveOut * amountIn * (1000 - 3) over reserveIn * 1000 + amountIn * (1000 - 3)
    let expected_num: i128 = 1000 * 100 * 997 * 1;
    let expected_den: i128 = 1 * (1000 * 1 * 1000 + 100 * 997 * 1);
    assert_eq!(out.n, expected_num);
    assert_eq!(out.d, expected_den);
    // the same value in lowest terms: 997000 / 10997, a little over 90.66
    assert_eq!(out.n * 10997, 997000 * out.d);
}

#[test]
fn output_is_nonnegative_and_below_bought_reserve() {
    let fee = default_fee_rate();
    let out = quote_swap(&Rat::new(1000, 1), &Rat::new(1000, 1), &Rat::new(100, 1), &fee).unwrap();
    assert!(out.n >= 0);
    assert!(out.d > 0);
    // out < 1000 / 1, by cross-multiplication
    assert!(out.n * 1 < 1000 * out.d);
}

#[test]
fn huge_input_still_cannot_drain_pool() {
    let fee = default_fee_rate();
    let huge = Rat::new(1_073_741_824, 1);
    let out = quote_swap(&Rat::new(7, 2), &Rat::new(1000, 3), &huge, &fee).unwrap();
    assert!(out.n >= 0);
    // out < 1000 / 3, by cross-multiplication
    assert!(out.n * 3 < 1000 * out.d);
}

#[test]
fn larger_input_buys_strictly_more() {
    let fee = default_fee_rate();
    let small = quote_swap(&Rat::new(1000, 1), &Rat::new(1000, 1), &Rat::new(100, 1), &fee)
        .unwrap();
    let large = quote_swap(&Rat::new(1000, 1), &Rat::new(1000, 1), &Rat::new(200, 1), &fee)
        .unwrap();
    // small < large as rationals, by cross-multiplication
    assert!(small.n * large.d < large.n * small.d);
}

#[test]
fn zero_input_yields_zero_output() {
    let fee = default_fee_rate();
    let out = quote_swap(&Rat::new(1000, 1), &Rat::new(500, 1), &Rat::new(0, 1), &fee).unwrap();
    assert_eq!(out.n, 0);
}

#[test]
fn zero_reserve_is_no_liquidity() {
    let fee = default_fee_rate();
    let r = quote_swap(&Rat::new(0, 1), &Rat::new(1000, 1), &Rat::new(100, 1), &fee);
    assert_eq!(r, Err(SwapError::NoLiquidity));
    let r = quote_swap(&Rat::new(1000, 1), &Rat::new(0, 1), &Rat::new(100, 1), &fee);
    assert_eq!(r, Err(SwapError::NoLiquidity));
}

#[test]
fn negative_reserve_is_no_liquidity() {
    let fee = default_fee_rate();
    let r = quote_swap(&Rat::new(-5, 1), &Rat::new(1000, 1), &Rat::new(100, 1), &fee);
    assert_eq!(r, Err(SwapError::NoLiquidity));
}

#[test]
fn negative_amount_is_invalid() {
    let fee = default_fee_rate();
    let r = quote_swap(&Rat::new(1000, 1), &Rat::new(1000, 1), &Rat::new(-1, 1), &fee);
    assert_eq!(r, Err(SwapError::InvalidAmount));
}

#[test]
fn liquidity_is_checked_before_the_amount() {
    let fee = default_fee_rate();
    let r = quote_swap(&Rat::new(0, 1), &Rat::new(1000, 1), &Rat::new(-1, 1), &fee);
    assert_eq!(r, Err(SwapError::NoLiquidity));
}

#[test]
fn apply_swap_settles_both_reserves() {
    let pool = ReservePool::new(
        String::from("A"),
        Rat::new(1000, 1),
        String::from("B"),
        Rat::new(1000, 1),
        default_fee_rate(),
    );
    let (out, after) = pool.apply_swap(&String::from("A"), &Rat::new(100, 1)).unwrap();
    assert_eq!(out.n, 1000 * 100 * 997);
    assert_eq!(out.d, 1000 * 1000 + 100 * 997);
    // the sold side gains the full nominal input: 1100
    assert_eq!(after.reserve_a.n * 1, 1100 * after.reserve_a.d);
    // the bought side loses exactly the output: newB == 1000 - out
    assert_eq!(
        after.reserve_b.n * (1 * out.d),
        (1000 * out.d - out.n * 1) * after.reserve_b.d
    );
    assert_eq!(after.token_a, "A");
    assert_eq!(after.token_b, "B");
}

#[test]
fn apply_swap_on_the_second_token_mirrors_the_first() {
    let pool = ReservePool::new(
        String::from("A"),
        Rat::new(500, 1),
        String::from("B"),
        Rat::new(2000, 1),
        default_fee_rate(),
    );
    let (out, after) = pool.apply_swap(&String::from("B"), &Rat::new(100, 1)).unwrap();
    let direct = quote_swap(&Rat::new(2000, 1), &Rat::new(500, 1), &Rat::new(100, 1), &default_fee_rate())
        .unwrap();
    assert_eq!(out.n, direct.n);
    assert_eq!(out.d, direct.d);
    // the sold side here is B: it gains the full nominal input
    assert_eq!(after.reserve_b.n * 1, 2100 * after.reserve_b.d);
    // A shrinks by the output
    assert_eq!(
        after.reserve_a.n * (1 * out.d),
        (500 * out.d - out.n * 1) * after.reserve_a.d
    );
}

#[test]
fn unknown_token_is_rejected() {
    let pool = ReservePool::new(
        String::from("A"),
        Rat::new(1000, 1),
        String::from("B"),
        Rat::new(1000, 1),
        default_fee_rate(),
    );
    let r = pool.apply_swap(&String::from("C"), &Rat::new(100, 1));
    assert!(matches!(r, Err(SwapError::UnknownToken)));
}

#[test]
fn zero_input_leaves_reserves_unchanged() {
    let pool = ReservePool::new(
        String::from("A"),
        Rat::new(750, 1),
        String::from("B"),
        Rat::new(250, 1),
        default_fee_rate(),
    );
    let (out, after) = pool.apply_swap(&String::from("A"), &Rat::new(0, 1)).unwrap();
    assert_eq!(out.n, 0);
    // both balances denote the same rationals as before
    assert_eq!(after.reserve_a.n * 1, 750 * after.reserve_a.d);
    assert_eq!(after.reserve_b.n * 1, 250 * after.reserve_b.d);
}

#[test]
fn nominal_product_grows_under_the_fee() {
    let pool = ReservePool::new(
        String::from("A"),
        Rat::new(1000, 1),
        String::from("B"),
        Rat::new(1000, 1),
        default_fee_rate(),
    );
    let (_, after) = pool.apply_swap(&String::from("A"), &Rat::new(100, 1)).unwrap();
    // newA * newB > 1000 * 1000, by cross-multiplication
    let pn = after.reserve_a.n * after.reserve_b.n;
    let pd = after.reserve_a.d * after.reserve_b.d;
    assert!(pn * 1 > 1000 * 1000 * pd);
}

#[test]
fn round_trip_loses_value() {
    let pool = ReservePool::new(
        String::from("A"),
        Rat::new(1000, 1),
        String::from("B"),
        Rat::new(1000, 1),
        default_fee_rate(),
    );
    let (out1, after) = pool.apply_swap(&String::from("A"), &Rat::new(100, 1)).unwrap();
    let (back, _) = after.apply_swap(&String::from("B"), &out1).unwrap();
    // back < 100 / 1, by cross-multiplication
    assert!(back.n * 1 < 100 * back.d);
    assert!(back.n > 0);
}

#[test]
fn reserve_of_reports_each_side_and_nothing_else() {
    let pool = ReservePool::new(
        String::from("A"),
        Rat::new(10, 1),
        String::from("B"),
        Rat::new(20, 1),
        default_fee_rate(),
    );
    let a = pool.reserve_of(&String::from("A")).unwrap();
    assert_eq!(a.n, 10);
    let b = pool.reserve_of(&String::from("B")).unwrap();
    assert_eq!(b.n, 20);
    assert!(pool.reserve_of(&String::from("C")).is_none());
}

#[test]
fn fractional_inputs_are_exact() {
    // reserves 3/2 and 5/4, sell 1/8 with fee 3/1000
    let fee = default_fee_rate();
    let out = quote_swap(&Rat::new(3, 2), &Rat::new(5, 4), &Rat::new(1, 8), &fee).unwrap();
    // numerator: 5 * 1 * 997 * 2; denominator: 4 * (3 * 8 * 1000 + 1 * 997 * 2)
    assert_eq!(out.n, 5 * 1 * 997 * 2);
    assert_eq!(out.d, 4 * (3 * 8 * 1000 + 1 * 997 * 2));
}
