use sol_tx_dispacher::binary64::F64;
use sol_tx_dispacher::fee::cu_price_for;
use sol_tx_dispacher::strategy::{CEILING_SHARE, DISCOUNT, PRICED_TIP};
use sol_tx_dispacher::tip::{max_amount, opt_tip, tip_or_default, FLOOR_RATIO};
use sol_tx_dispacher::TipStrategy;

fn ratio(r: f64) -> TipStrategy {
    TipStrategy::Ratio(num(r))
}

fn num(r: f64) -> F64 {
    F64::from_bits(r.to_bits())
}

/// A few thousand bit patterns, spread over the whole range.
fn patterns(seed: u64, n: usize) -> Vec<u64> {
    let mut state = seed;
    let mut out = Vec::new();
    for _ in 0..n {
        state ^= state << 13;
        state ^= state >> 7;
        state ^= state << 17;
        out.push(state);
    }
    out
}

fn edge_numbers() -> Vec<f64> {
    vec![
        0.0,
        -0.0,
        1.0,
        -1.0,
        0.9,
        0.8,
        1.02,
        1.05,
        1.1,
        0.5,
        2.0,
        1e-300,
        1e300,
        5e-324,
        -5e-324,
        f64::MIN_POSITIVE,
        f64::MAX,
        f64::MIN,
        f64::INFINITY,
        f64::NEG_INFINITY,
        f64::NAN,
        f64::EPSILON,
        9007199254740993.0,
        18446744073709551615.0,
        1.0 / 3.0,
        f64::from_bits(1),
        f64::from_bits(0x000F_FFFF_FFFF_FFFF),
        f64::from_bits(0x0010_0000_0000_0000),
        f64::from_bits(0x7FEF_FFFF_FFFF_FFFF),
    ]
}

fn edge_amounts() -> Vec<u64> {
    vec![
        0,
        1,
        2,
        3,
        999,
        1_000,
        1_000_000,
        (1 << 53) - 1,
        1 << 53,
        (1 << 53) + 1,
        (1 << 53) + 3,
        (1 << 54) + 2,
        (1 << 54) + 6,
        u64::MAX / 2,
        u64::MAX - 1025,
        u64::MAX - 1024,
        u64::MAX - 1,
        u64::MAX,
    ]
}

#[test]
fn tip_strategy_ratio() {
    let min = 1_000_000u64;
    assert_eq!(ratio(0.9).compute(min), 900_000);
    assert_eq!(ratio(1.0).compute(min), 1_000_000);
    assert_eq!(ratio(1.1).compute(min), 1_100_000);
}

#[test]
fn tip_strategy_absolute() {
    assert_eq!(TipStrategy::Absolute(500_000).compute(1_000_000), 500_000);
    assert_eq!(TipStrategy::Absolute(0).compute(1_000_000), 0);
}

#[test]
fn conversion_from_integers_is_that_of_the_machine() {
    for n in edge_amounts().into_iter().chain(patterns(7, 4000)) {
        for shift in [0, 3, 11, 20, 40] {
            let m = n >> shift;
            assert_eq!(F64::from_u64(m).bits, (m as f64).to_bits(), "{m}");
        }
    }
}

#[test]
fn truncation_to_integers_is_that_of_the_machine() {
    for x in edge_numbers() {
        assert_eq!(num(x).truncate(), x as u64, "{x:e}");
    }
    for bits in patterns(11, 4000) {
        let x = f64::from_bits(bits);
        assert_eq!(num(x).truncate(), x as u64, "{x:e}");
        let y = (bits >> 11) as f64 / 1024.0;
        assert_eq!(num(y).truncate(), y as u64, "{y:e}");
    }
}

#[test]
fn multiplication_is_that_of_the_machine() {
    let mut all = edge_numbers();
    all.extend(patterns(13, 40).into_iter().map(f64::from_bits));
    for &x in &all {
        for &y in &all {
            let expected = x * y;
            let got = f64::from_bits(num(x).times(num(y)).bits);
            if expected.is_nan() {
                assert!(got.is_nan(), "{x:e} * {y:e}");
            } else {
                assert_eq!(got.to_bits(), expected.to_bits(), "{x:e} * {y:e}");
            }
        }
    }
    for pair in patterns(17, 6000).chunks(2) {
        // Exponents near each other, so that the product is a normal number.
        let x = f64::from_bits((pair[0] & 0x000F_FFFF_FFFF_FFFF) | (1023 << 52));
        let y = f64::from_bits((pair[1] & 0x000F_FFFF_FFFF_FFFF) | (1020 << 52));
        assert_eq!(num(x).times(num(y)).bits, (x * y).to_bits());
        // Exponents so small that the product is subnormal.
        let a = f64::from_bits((pair[0] & 0x000F_FFFF_FFFF_FFFF) | (500 << 52));
        let b = f64::from_bits((pair[1] & 0x000F_FFFF_FFFF_FFFF) | (510 << 52));
        assert_eq!(num(a).times(num(b)).bits, (a * b).to_bits());
    }
}

#[test]
fn a_portion_is_what_the_machine_computes() {
    for x in edge_numbers() {
        for n in edge_amounts() {
            assert_eq!(num(x).portion(n), (n as f64 * x) as u64, "{n} * {x:e}");
        }
    }
    for pair in patterns(19, 6000).chunks(2) {
        let x = f64::from_bits((pair[0] & 0x000F_FFFF_FFFF_FFFF) | (1023 << 52));
        let n = pair[1] >> (pair[0] % 64);
        assert_eq!(num(x).portion(n), (n as f64 * x) as u64, "{n} * {x:e}");
    }
}

#[test]
fn the_named_ratios_are_the_decimal_ones() {
    assert_eq!(FLOOR_RATIO, 1.02f64.to_bits());
    assert_eq!(PRICED_TIP, 1.05f64.to_bits());
    assert_eq!(DISCOUNT, 0.9f64.to_bits());
    assert_eq!(CEILING_SHARE, 0.8f64.to_bits());
}

#[test]
fn scaling_an_amount_scales_the_amount() {
    match TipStrategy::Absolute(1_000_001).scaled(num(0.9)) {
        TipStrategy::Absolute(n) => assert_eq!(n, 900_000),
        TipStrategy::Ratio(_) => panic!("an amount stays an amount"),
    }
}

#[test]
fn scaling_a_ratio_scales_the_ratio() {
    match ratio(1.2).scaled(num(0.9)) {
        TipStrategy::Ratio(r) => assert_eq!(r.bits, (1.2f64 * 0.9).to_bits()),
        TipStrategy::Absolute(_) => panic!("a ratio stays a ratio"),
    }
    assert_eq!(ratio(1.2).scaled(num(0.9)).compute(1_000_000), 1_080_000);
}

#[test]
fn no_strategy_leaves_the_tip_to_the_platform() {
    assert_eq!(opt_tip(None, 1_000_000), None);
}

#[test]
fn a_strategy_is_raised_to_two_percent_above_the_minimum() {
    assert_eq!(opt_tip(Some(TipStrategy::Absolute(0)), 1_000_000), Some(1_020_000));
    assert_eq!(opt_tip(Some(ratio(0.9)), 1_000_000), Some(1_020_000));
    assert_eq!(opt_tip(Some(ratio(1.05)), 1_000_000), Some(1_050_000));
    assert_eq!(
        opt_tip(Some(TipStrategy::Absolute(2_000_000)), 1_000_000),
        Some(2_000_000)
    );
    assert_eq!(opt_tip(Some(TipStrategy::Absolute(0)), 0), Some(0));
}

#[test]
fn the_floor_is_two_percent_above_the_minimum() {
    let mut minimums = vec![0u64, 1, 49, 50, 1_000, 10_001, 1_000_000, 123_456_789, 1 << 52];
    minimums.extend([8_830_587_504_648_912, 8_830_587_504_648_913, (1 << 53) - 1]);
    minimums.extend(patterns(31, 4000).into_iter().map(|n| n >> 11));
    for min in minimums {
        let floor = opt_tip(Some(TipStrategy::Absolute(0)), min).unwrap();
        assert!(floor as u128 >= 102 * min as u128 / 100, "{min}");
    }
}

#[test]
fn the_floor_covers_the_minimum_everywhere() {
    for min in edge_amounts().into_iter().chain(patterns(23, 4000)) {
        let floor = opt_tip(Some(TipStrategy::Absolute(0)), min).unwrap();
        assert!(floor >= min, "{min}");
    }
}

#[test]
fn a_default_ratio_stands_in_for_a_missing_strategy() {
    assert_eq!(tip_or_default(None, 1_000_000, num(0.9)), Some(1_020_000));
    assert_eq!(tip_or_default(None, 1_000_000, num(1.5)), Some(1_500_000));
    assert_eq!(
        tip_or_default(Some(TipStrategy::Absolute(3_000_000)), 1_000_000, num(1.5)),
        Some(3_000_000)
    );
    assert_eq!(
        tip_or_default(Some(TipStrategy::Absolute(7)), 1_000_000, num(1.5)),
        Some(1_020_000)
    );
}

#[test]
fn odd_ratios_do_not_get_below_the_floor() {
    for r in [f64::NAN, -1.0, f64::NEG_INFINITY, 0.0, -0.0] {
        assert_eq!(ratio(r).compute(1_000_000), 0);
        assert_eq!(opt_tip(Some(ratio(r)), 1_000_000), Some(1_020_000));
    }
    assert_eq!(ratio(f64::INFINITY).compute(1), u64::MAX);
    assert_eq!(ratio(f64::INFINITY).compute(0), 0);
}

#[test]
fn a_ratio_of_nothing_is_nothing() {
    for r in [0.0, 0.9, 1.5, 1e300, f64::INFINITY, f64::NAN, -2.0] {
        assert_eq!(ratio(r).compute(0), 0);
    }
}

#[test]
fn a_whole_product_is_the_bid() {
    assert_eq!(ratio(0.5).compute(1_000_002), 500_001);
    assert_eq!(ratio(1.25).compute(4_000_004), 5_000_005);
    assert_eq!(ratio(1.0).compute((1 << 53) - 1), (1 << 53) - 1);
    assert_eq!(ratio(3.0).compute(1_000_000_007), 3_000_000_021);
}

#[test]
fn the_larger_amount_is_found_either_way_round() {
    assert_eq!(max_amount(1, 2), 2);
    assert_eq!(max_amount(2, 1), 2);
    assert_eq!(max_amount(2, 2), 2);
}

#[test]
fn a_price_spreads_an_amount_over_the_limit() {
    assert_eq!(cu_price_for(100_000, 200_000), 500_000);
    assert_eq!(cu_price_for(1, 3), 333_333);
    assert_eq!(cu_price_for(0, 200_000), 0);
    assert_eq!(cu_price_for(100_000, 0), 0);
    assert_eq!(cu_price_for(u64::MAX, 1), u64::MAX);
    assert_eq!(cu_price_for(u64::MAX, 1_000), u64::MAX / 1_000);
    assert_eq!(cu_price_for(18_446_744_073_709, 1), 18_446_744_073_709_000_000);
    assert_eq!(cu_price_for(18_446_744_073_710, 1), u64::MAX);
}

#[test]
fn a_price_never_costs_more_than_the_amount() {
    for (i, n) in patterns(29, 2000).into_iter().enumerate() {
        let lamports = n >> (i % 64);
        let limit = (n as u32) >> (i % 32);
        let spent = cu_price_for(lamports, limit) as u128 * limit as u128;
        assert!(spent <= lamports as u128 * 1_000_000);
        if limit > 0 && lamports < 18_446_744_073_709 {
            assert!(lamports as u128 * 1_000_000 - spent < limit as u128);
        }
    }
}
