use fixed::types::I80F48;
use marginfi::fixed_point::WrappedI80F48;
use marginfi::interest::{
    calc_accrued_interest_payment_per_period, calc_fee_rate, calc_interest_payment_for_period,
    calc_interest_rate_accrual_state_changes, InterestRateConfig, SECONDS_PER_YEAR,
};

const UNIT: i128 = 1 << 48;

fn dec(text: &str) -> I80F48 {
    text.parse::<I80F48>().unwrap()
}

fn wrap(number: I80F48) -> WrappedI80F48 {
    WrappedI80F48 { value: number.to_bits() }
}

fn num(scalar: WrappedI80F48) -> I80F48 {
    I80F48::from_bits(scalar.value)
}

fn bits(value: i128) -> WrappedI80F48 {
    WrappedI80F48 { value }
}

fn assert_eq_with_tolerance(test_val: I80F48, val: I80F48, tolerance: I80F48) {
    assert!(
        (test_val - val).abs() <= tolerance,
        "assertion failed: `({} - {}) <= {}`",
        test_val,
        val,
        tolerance
    );
}

/// Tests that the interest payment for a 1 year period with 100% APR is 1.
#[test]
fn interest_payment_100apr_1year() {
    let apr = I80F48::ONE;
    let time_delta = 31_536_000; // 1 year
    let value = I80F48::ONE;

    assert_eq_with_tolerance(
        num(calc_interest_payment_for_period(wrap(apr), time_delta, wrap(value)).unwrap()),
        I80F48::ONE,
        dec("0.001"),
    );
}

/// Tests that the interest payment for a 1 year period with 50% APR is 0.5.
#[test]
fn interest_payment_50apr_1year() {
    let apr = I80F48::from_num(0.5);
    let time_delta = 31_536_000; // 1 year
    let value = I80F48::ONE;

    assert_eq_with_tolerance(
        num(calc_interest_payment_for_period(wrap(apr), time_delta, wrap(value)).unwrap()),
        I80F48::from_num(0.5),
        dec("0.001"),
    );
}

/// P: 1_000_000
/// Apr: 12%
/// Time: 1 second
#[test]
fn interest_payment_12apr_1second() {
    let apr = dec("0.12");
    let time_delta = 1;
    let value = dec("1000000");

    assert_eq_with_tolerance(
        num(calc_interest_payment_for_period(wrap(apr), time_delta, wrap(value)).unwrap()),
        dec("0.0038"),
        dec("0.001"),
    );
}

/// apr: 100%
/// time: 1 year
/// principal: 2
/// expected: 4
#[test]
fn accrued_interest_apr100_year1() {
    assert_eq_with_tolerance(
        num(
            calc_accrued_interest_payment_per_period(wrap(dec("1")), 31_536_000, wrap(dec("2")))
                .unwrap(),
        ),
        dec("4"),
        dec("0.001"),
    );
}

/// apr: 50%
/// time: 1 year
/// principal: 2
/// expected: 3
#[test]
fn accrued_interest_apr50_year1() {
    assert_eq_with_tolerance(
        num(
            calc_accrued_interest_payment_per_period(wrap(dec("0.5")), 31_536_000, wrap(dec("2")))
                .unwrap(),
        ),
        dec("3"),
        dec("0.001"),
    );
}

/// apr: 12%
/// time: 1 second
/// principal: 1_000_000
/// expected: 1_038
#[test]
fn accrued_interest_apr12_year1() {
    assert_eq_with_tolerance(
        num(
            calc_accrued_interest_payment_per_period(wrap(dec("0.12")), 1, wrap(dec("1000000")))
                .unwrap(),
        ),
        dec("1000000.0038"),
        dec("0.001"),
    );
}

/// ur: 0
/// protocol_fixed_fee: 0.01
#[test]
fn ir_config_calc_interest_rate_pff_01() {
    let config = InterestRateConfig {
        optimal_utilization_rate: wrap(dec("0.6")),
        plateau_interest_rate: wrap(dec("0.40")),
        protocol_fixed_fee_apr: wrap(dec("0.01")),
        ..Default::default()
    };

    let (lending_apr, borrow_apr, group_fees_apr, insurance_apr) =
        config.calc_interest_rate(wrap(dec("0"))).unwrap();

    assert_eq_with_tolerance(num(lending_apr), dec("0"), dec("0.001"));
    assert_eq_with_tolerance(num(borrow_apr), dec("0.01"), dec("0.001"));
    assert_eq_with_tolerance(num(group_fees_apr), dec("0.01"), dec("0.001"));
    assert_eq_with_tolerance(num(insurance_apr), dec("0"), dec("0.001"));
}

/// ur: 0.5
/// protocol_fixed_fee: 0.01
/// optimal_utilization_rate: 0.5
/// plateau_interest_rate: 0.4
#[test]
fn ir_config_calc_interest_rate_pff_01_ur_05() {
    let config = InterestRateConfig {
        optimal_utilization_rate: wrap(dec("0.5")),
        plateau_interest_rate: wrap(dec("0.4")),
        protocol_fixed_fee_apr: wrap(dec("0.01")),
        insurance_ir_fee: wrap(dec("0.1")),
        ..Default::default()
    };

    let (lending_apr, borrow_apr, group_fees_apr, insurance_apr) =
        config.calc_interest_rate(wrap(dec("0.5"))).unwrap();

    assert_eq_with_tolerance(num(lending_apr), dec("0.2"), dec("0.001"));
    assert_eq_with_tolerance(num(borrow_apr), dec("0.45"), dec("0.001"));
    assert_eq_with_tolerance(num(group_fees_apr), dec("0.01"), dec("0.001"));
    assert_eq_with_tolerance(num(insurance_apr), dec("0.04"), dec("0.001"));
}

/// ur: 0.8
/// protocol_fixed_fee: 0.01
/// optimal_utilization_rate: 0.5
/// plateau_interest_rate: 0.4
/// max_interest_rate: 3
/// insurance_ir_fee: 0.1
#[test]
fn ir_config_calc_interest_rate_pff_01_ur_08() {
    let config = InterestRateConfig {
        optimal_utilization_rate: wrap(dec("0.4")),
        plateau_interest_rate: wrap(dec("0.4")),
        protocol_fixed_fee_apr: wrap(dec("0.01")),
        max_interest_rate: wrap(dec("3")),
        insurance_ir_fee: wrap(dec("0.1")),
        ..Default::default()
    };

    let (lending_apr, borrow_apr, group_fees_apr, insurance_apr) =
        config.calc_interest_rate(wrap(dec("0.7"))).unwrap();

    assert_eq_with_tolerance(num(lending_apr), dec("1.19"), dec("0.001"));
    assert_eq_with_tolerance(num(borrow_apr), dec("1.88"), dec("0.001"));
    assert_eq_with_tolerance(num(group_fees_apr), dec("0.01"), dec("0.001"));
    assert_eq_with_tolerance(num(insurance_apr), dec("0.17"), dec("0.001"));
}

#[test]
fn seconds_per_year_is_365_days() {
    assert_eq!(SECONDS_PER_YEAR, 365 * 24 * 60 * 60);
}

#[test]
fn default_rate_config_is_all_zero() {
    let config = InterestRateConfig::default();
    assert_eq!(config.optimal_utilization_rate.value, 0);
    assert_eq!(config.plateau_interest_rate.value, 0);
    assert_eq!(config.max_interest_rate.value, 0);
    assert_eq!(config.insurance_fee_fixed_apr.value, 0);
    assert_eq!(config.insurance_ir_fee.value, 0);
    assert_eq!(config.protocol_fixed_fee_apr.value, 0);
    assert_eq!(config.protocol_ir_fee.value, 0);
}

#[test]
fn curve_reaches_plateau_at_optimal_utilization() {
    let config = InterestRateConfig {
        optimal_utilization_rate: wrap(dec("0.5")),
        plateau_interest_rate: wrap(dec("0.25")),
        max_interest_rate: wrap(dec("3")),
        ..Default::default()
    };
    assert_eq!(config.interest_rate_curve(wrap(dec("0.5"))), Some(wrap(dec("0.25"))));
    assert_eq!(config.interest_rate_curve(wrap(dec("0.25"))), Some(wrap(dec("0.125"))));
    assert_eq!(config.interest_rate_curve(wrap(dec("0"))), Some(wrap(dec("0"))));
}

#[test]
fn curve_rises_to_max_rate_above_optimal_utilization() {
    let config = InterestRateConfig {
        optimal_utilization_rate: wrap(dec("0.5")),
        plateau_interest_rate: wrap(dec("0.25")),
        max_interest_rate: wrap(dec("3")),
        ..Default::default()
    };
    // (0.75 - 0.5) / (1 - 0.5) * (3 - 0.25) + 0.25
    assert_eq!(config.interest_rate_curve(wrap(dec("0.75"))), Some(wrap(dec("1.625"))));
    assert_eq!(config.interest_rate_curve(wrap(dec("1"))), Some(wrap(dec("3"))));
}

#[test]
fn curve_has_no_result_when_optimal_utilization_is_zero() {
    let config = InterestRateConfig {
        plateau_interest_rate: wrap(dec("0.25")),
        max_interest_rate: wrap(dec("3")),
        ..Default::default()
    };
    assert_eq!(config.interest_rate_curve(wrap(dec("0"))), None);
    assert_eq!(config.calc_interest_rate(wrap(dec("0"))), None);
}

#[test]
fn curve_has_no_result_above_an_optimal_utilization_of_one() {
    let config = InterestRateConfig {
        optimal_utilization_rate: wrap(dec("1")),
        plateau_interest_rate: wrap(dec("0.25")),
        max_interest_rate: wrap(dec("3")),
        ..Default::default()
    };
    assert_eq!(config.interest_rate_curve(wrap(dec("1.5"))), None);
    assert_eq!(config.interest_rate_curve(wrap(dec("1"))), Some(wrap(dec("0.25"))));
}

#[test]
fn curve_has_no_result_on_overflow() {
    let config = InterestRateConfig {
        optimal_utilization_rate: wrap(dec("0.5")),
        plateau_interest_rate: bits(i128::MAX),
        max_interest_rate: bits(i128::MAX),
        ..Default::default()
    };
    assert_eq!(config.interest_rate_curve(wrap(dec("0.5"))), Some(bits(i128::MAX)));
    assert_eq!(config.interest_rate_curve(wrap(dec("0.75"))), Some(bits(i128::MAX)));
    let steep = InterestRateConfig {
        optimal_utilization_rate: bits(1),
        plateau_interest_rate: bits(i128::MAX),
        max_interest_rate: bits(i128::MAX),
        ..Default::default()
    };
    assert_eq!(steep.interest_rate_curve(bits(1)), Some(bits(i128::MAX)));
    let tiny = InterestRateConfig {
        optimal_utilization_rate: bits(1),
        plateau_interest_rate: wrap(dec("1")),
        max_interest_rate: wrap(dec("1")),
        ..Default::default()
    };
    assert_eq!(tiny.interest_rate_curve(bits(i128::MIN)), None);
}

#[test]
fn calc_interest_rate_exact_encodings() {
    let config = InterestRateConfig {
        optimal_utilization_rate: wrap(dec("0.5")),
        plateau_interest_rate: wrap(dec("0.4")),
        max_interest_rate: wrap(dec("3")),
        protocol_fixed_fee_apr: wrap(dec("0.01")),
        insurance_ir_fee: wrap(dec("0.1")),
        ..Default::default()
    };
    let rates = config.calc_interest_rate(wrap(dec("0.5"))).unwrap();
    assert_eq!(rates.0.value, 56294995342131);
    assert_eq!(rates.1.value, 126663739519795);
    assert_eq!(rates.2.value, 2814749767107);
    assert_eq!(rates.3.value, 11258999068426);
}

#[test]
fn calc_interest_rate_has_no_result_when_fees_overflow() {
    let config = InterestRateConfig {
        optimal_utilization_rate: wrap(dec("0.5")),
        plateau_interest_rate: wrap(dec("0.4")),
        max_interest_rate: wrap(dec("3")),
        protocol_ir_fee: bits(i128::MAX),
        insurance_ir_fee: bits(1),
        ..Default::default()
    };
    assert_eq!(config.calc_interest_rate(wrap(dec("0.5"))), None);
}

#[test]
fn fee_rate_is_proportional_fee_plus_fixed_fee() {
    assert_eq!(
        calc_fee_rate(wrap(dec("0.5")), wrap(dec("0.25")), wrap(dec("0.0625"))),
        Some(wrap(dec("0.1875")))
    );
    assert_eq!(calc_fee_rate(bits(i128::MAX), wrap(dec("2")), wrap(dec("0"))), None);
    assert_eq!(calc_fee_rate(wrap(dec("1")), wrap(dec("1")), bits(i128::MAX)), None);
}

#[test]
fn interest_payment_exact_encoding() {
    let payment =
        calc_interest_payment_for_period(wrap(dec("0.12")), 1, wrap(dec("1000000"))).unwrap();
    assert_eq!(payment.value, 1071061000000);
}

#[test]
fn accrued_value_exact_encoding() {
    let accrued =
        calc_accrued_interest_payment_per_period(wrap(dec("0.12")), 1, wrap(dec("1000000")))
            .unwrap();
    assert_eq!(accrued.value, 281474977781717000000);
    let doubled =
        calc_accrued_interest_payment_per_period(wrap(dec("1")), 31_536_000, wrap(dec("2")))
            .unwrap();
    assert_eq!(doubled.value, 1125899846285312);
}

#[test]
fn accrued_value_over_no_time_is_the_principal() {
    let value = wrap(dec("123.456"));
    assert_eq!(calc_accrued_interest_payment_per_period(wrap(dec("0.9")), 0, value), Some(value));
    assert_eq!(
        calc_interest_payment_for_period(wrap(dec("0.9")), 0, value),
        Some(wrap(dec("0")))
    );
}

#[test]
fn accrued_value_stays_within_the_bound_on_exact_simple_interest() {
    let apr = dec("0.12").to_bits();
    let principal = 1_000_000i128;
    let year = 31_536_000i128;
    for time_delta in [1u64, 60, 3600, 86_400, 31_536_000] {
        let y = calc_accrued_interest_payment_per_period(
            bits(apr),
            time_delta,
            bits(principal * UNIT),
        )
        .unwrap()
        .value;
        let dt = i128::from(time_delta);
        // principal * (1 + apr / year * dt) against the computed encoding, both
        // scaled by the seconds of a year
        let exact = principal * (UNIT * year + apr * dt);
        assert!(y * year <= exact);
        assert!(exact < (y + 1) * year + principal * dt * year);
    }
}

#[test]
fn accrued_value_is_simple_interest_within_tolerance() {
    for time_delta in [1u64, 60, 3600, 86_400] {
        let accrued = calc_accrued_interest_payment_per_period(
            wrap(dec("0.12")),
            time_delta,
            wrap(dec("1000000")),
        )
        .unwrap();
        let expected = dec("1000000")
            + dec("1000000") * dec("0.12") * I80F48::from(time_delta)
                / I80F48::from(31_536_000u64);
        assert_eq_with_tolerance(num(accrued), expected, dec("0.001"));
    }
}

#[test]
fn interest_of_two_periods_adds_up_exactly() {
    let apr = wrap(dec("0.12"));
    let value = wrap(dec("1000000"));
    let first = calc_interest_payment_for_period(apr, 1, value).unwrap();
    let second = calc_interest_payment_for_period(apr, 2, value).unwrap();
    let both = calc_interest_payment_for_period(apr, 3, value).unwrap();
    assert_eq!(first.value, 1071061000000);
    assert_eq!(second.value, 2142122000000);
    assert_eq!(both.value, first.value + second.value);
}

#[test]
fn accrual_of_two_periods_from_one_base_matches_one_accrual() {
    let apr = wrap(dec("0.12"));
    let value = wrap(dec("1000000"));
    let first = calc_accrued_interest_payment_per_period(apr, 1, value).unwrap();
    let second = calc_accrued_interest_payment_per_period(apr, 2, value).unwrap();
    let both = calc_accrued_interest_payment_per_period(apr, 3, value).unwrap();
    let gains = (first.value - value.value) + (second.value - value.value);
    let gain = both.value - value.value;
    assert!(gains <= gain && gain <= gains + 1);
    assert_eq!(both.value, 281474979923839000000);
}

#[test]
fn accrual_compounds_when_the_base_is_the_accrued_value() {
    let apr = wrap(dec("1"));
    let after_one_year =
        calc_accrued_interest_payment_per_period(apr, 31_536_000, wrap(dec("2"))).unwrap();
    let after_two_years =
        calc_accrued_interest_payment_per_period(apr, 31_536_000, after_one_year).unwrap();
    let two_years_at_once =
        calc_accrued_interest_payment_per_period(apr, 63_072_000, wrap(dec("2"))).unwrap();
    assert_eq_with_tolerance(num(after_two_years), dec("8"), dec("0.001"));
    assert_eq_with_tolerance(num(two_years_at_once), dec("6"), dec("0.001"));
}

#[test]
fn two_steps_differ_from_one_by_the_interest_on_the_first_gain() {
    let year = 31_536_000i128;
    for (apr, first, second, value) in [
        (dec("1"), 31_536_000u64, 31_536_000u64, dec("2")),
        (dec("0.12"), 1_000, 2_000, dec("1000000")),
        (dec("0.45"), 86_400, 1, dec("123.456")),
        (dec("3"), 0, 500, dec("7")),
    ] {
        let midway =
            calc_accrued_interest_payment_per_period(wrap(apr), first, wrap(value)).unwrap();
        let two_steps =
            calc_accrued_interest_payment_per_period(wrap(apr), second, midway).unwrap();
        let one_step =
            calc_accrued_interest_payment_per_period(wrap(apr), first + second, wrap(value))
                .unwrap();
        let per_second = apr.to_bits() / year;
        let gain = midway.value - value.to_bits();
        let on_gain = (gain * (per_second * i128::from(second))).div_euclid(UNIT);
        let difference = two_steps.value - one_step.value;
        assert!(on_gain - 1 <= difference && difference <= on_gain + 1);
    }
}

#[test]
fn rate_parameters_are_checked_against_the_curve() {
    let config = InterestRateConfig {
        optimal_utilization_rate: wrap(dec("0.5")),
        plateau_interest_rate: wrap(dec("0.4")),
        max_interest_rate: wrap(dec("3")),
        protocol_fixed_fee_apr: wrap(dec("0.01")),
        insurance_ir_fee: wrap(dec("0.1")),
        ..Default::default()
    };
    assert!(config.is_valid());
    assert!(config.has_non_negative_fees());
    assert!(config.admits_utilization(wrap(dec("0"))));
    assert!(config.admits_utilization(wrap(dec("0.9"))));
    assert!(config.admits_utilization(wrap(dec("1.5"))));
    assert!(!config.admits_utilization(bits(-1)));
    assert!(InterestRateConfig::default().is_valid());

    let flat = InterestRateConfig { max_interest_rate: wrap(dec("0.3")), ..config };
    assert!(!flat.is_valid());
    assert!(flat.admits_utilization(wrap(dec("0.5"))));
    assert!(!flat.admits_utilization(wrap(dec("0.6"))));

    let beyond = InterestRateConfig { optimal_utilization_rate: wrap(dec("1.5")), ..config };
    assert!(!beyond.is_valid());
    assert!(beyond.admits_utilization(wrap(dec("1.5"))));
    assert!(!beyond.admits_utilization(wrap(dec("1.6"))));

    let below = InterestRateConfig { optimal_utilization_rate: bits(-1), ..config };
    assert!(!below.is_valid());

    let sinking = InterestRateConfig { plateau_interest_rate: bits(-1), ..config };
    assert!(!sinking.is_valid());
    assert!(!sinking.admits_utilization(wrap(dec("0.1"))));

    for at in 0..4 {
        let mut paying = config;
        match at {
            0 => paying.insurance_fee_fixed_apr = bits(-1),
            1 => paying.insurance_ir_fee = bits(-1),
            2 => paying.protocol_fixed_fee_apr = bits(-1),
            _ => paying.protocol_ir_fee = bits(-1),
        }
        assert!(!paying.has_non_negative_fees());
        assert!(!paying.is_valid());
        assert!(!paying.admits_utilization(wrap(dec("0.1"))));
    }
}

#[test]
fn accrued_value_has_no_result_on_overflow() {
    assert_eq!(
        calc_accrued_interest_payment_per_period(wrap(dec("1")), 1, bits(i128::MAX)),
        None
    );
    assert_eq!(
        calc_accrued_interest_payment_per_period(bits(i128::MAX), u64::MAX, wrap(dec("1"))),
        None
    );
    assert_eq!(calc_interest_payment_for_period(bits(i128::MAX), u64::MAX, wrap(dec("1"))), None);
}

#[test]
fn accrual_state_changes_exact_encodings() {
    let config = InterestRateConfig {
        optimal_utilization_rate: wrap(dec("0.5")),
        plateau_interest_rate: wrap(dec("0.4")),
        max_interest_rate: wrap(dec("3")),
        protocol_fixed_fee_apr: wrap(dec("0.01")),
        insurance_ir_fee: wrap(dec("0.1")),
        ..Default::default()
    };
    let changes = calc_interest_rate_accrual_state_changes(
        31_536_000,
        wrap(dec("1000")),
        wrap(dec("500")),
        &config,
        wrap(dec("1")),
        wrap(dec("1")),
    )
    .unwrap();
    assert_eq!(changes.0.value, 337769953382656);
    assert_eq!(changes.1.value, 408138689990656);
    assert_eq!(changes.2.value, 1407372840000000);
    assert_eq!(changes.3.value, 5629491360000000);
    assert_eq_with_tolerance(num(changes.0), dec("1.2"), dec("0.001"));
    assert_eq_with_tolerance(num(changes.1), dec("1.45"), dec("0.001"));
    assert_eq_with_tolerance(num(changes.2), dec("5"), dec("0.001"));
    assert_eq_with_tolerance(num(changes.3), dec("20"), dec("0.001"));
}

#[test]
fn accrual_state_changes_have_no_result_for_an_empty_pool() {
    let config = InterestRateConfig {
        optimal_utilization_rate: wrap(dec("0.5")),
        plateau_interest_rate: wrap(dec("0.4")),
        max_interest_rate: wrap(dec("3")),
        ..Default::default()
    };
    assert_eq!(
        calc_interest_rate_accrual_state_changes(
            10,
            wrap(dec("0")),
            wrap(dec("0")),
            &config,
            wrap(dec("1")),
            wrap(dec("1")),
        ),
        None
    );
}
