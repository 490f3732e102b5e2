//! The interest-rate curve and simple-interest accrual.
//!
//! Rates are annual (APR). The base rate is piecewise linear in the pool's
//! utilization; the lending, borrowing and fee rates derive from it. Interest
//! over a period is simple: the annual rate is divided by the seconds of a
//! year and multiplied by the elapsed seconds.

use crate::fixed_point::{
    checked, encoding, fixed_add, fixed_div, fixed_from_u64, fixed_mul, fixed_sub,
    lemma_over_non_negative, lemma_times_non_negative, lemma_times_whole, minus, over, plus,
    times, unit, WrappedI80F48,
};
use vstd::prelude::*;

verus! {

/// Seconds in a year of 365 days.
pub const SECONDS_PER_YEAR: u64 = 31_536_000;

/// Curve and fee parameters of a pool.
#[derive(Clone, Copy, Debug, PartialEq, Eq, Structural)]
pub struct InterestRateConfig {
    /// Utilization at which the base rate reaches the plateau.
    pub optimal_utilization_rate: WrappedI80F48,
    /// Base rate at the optimal utilization.
    pub plateau_interest_rate: WrappedI80F48,
    /// Base rate at full utilization.
    pub max_interest_rate: WrappedI80F48,
    /// Insurance fee added to the borrowing rate.
    pub insurance_fee_fixed_apr: WrappedI80F48,
    /// Insurance fee as a fraction of the base rate.
    pub insurance_ir_fee: WrappedI80F48,
    /// Protocol fee added to the borrowing rate.
    pub protocol_fixed_fee_apr: WrappedI80F48,
    /// Protocol fee as a fraction of the base rate.
    pub protocol_ir_fee: WrappedI80F48,
}

/// The four annual rates of a pool, as encodings: lending, borrowing, protocol
/// fee and insurance fee.
pub struct Rates {
    pub lending: int,
    pub borrowing: int,
    pub group_fee: int,
    pub insurance_fee: int,
}

/// The encodings held by an optional quadruple of scalars.
pub open spec fn rates_encoding(
    r: Option<(WrappedI80F48, WrappedI80F48, WrappedI80F48, WrappedI80F48)>,
) -> Option<Rates> {
    match r {
        Some(q) => Some(
            Rates { lending: q.0@, borrowing: q.1@, group_fee: q.2@, insurance_fee: q.3@ },
        ),
        None => None,
    }
}

/// A fee rate: the proportional fee applied to the base rate, plus the fixed
/// fee.
pub open spec fn fee_rate(base_rate: Option<int>, rate_fees: int, fixed_fees: int) -> Option<int> {
    plus(times(base_rate, Some(rate_fees)), Some(fixed_fees))
}

/// The rate per second of an annual rate.
pub open spec fn rate_per_second(apr: int) -> Option<int> {
    over(Some(apr), Some(SECONDS_PER_YEAR * unit()))
}

/// A principal after `time_delta` seconds of simple interest:
/// `value * (1 + apr / SECONDS_PER_YEAR * time_delta)`.
pub open spec fn accrued_value(apr: int, time_delta: int, value: int) -> Option<int> {
    times(
        Some(value),
        plus(Some(unit()), times(rate_per_second(apr), Some(time_delta * unit()))),
    )
}

/// The simple interest due on a principal after `time_delta` seconds:
/// `value * (apr / SECONDS_PER_YEAR) * time_delta`.
pub open spec fn interest_payment(apr: int, time_delta: int, value: int) -> Option<int> {
    times(times(Some(value), rate_per_second(apr)), Some(time_delta * unit()))
}

impl Default for InterestRateConfig {
    fn default() -> (r: Self)
        ensures
            r == InterestRateConfig::zeroed(),
    {
        InterestRateConfig {
            optimal_utilization_rate: WrappedI80F48::zero(),
            plateau_interest_rate: WrappedI80F48::zero(),
            max_interest_rate: WrappedI80F48::zero(),
            insurance_fee_fixed_apr: WrappedI80F48::zero(),
            insurance_ir_fee: WrappedI80F48::zero(),
            protocol_fixed_fee_apr: WrappedI80F48::zero(),
            protocol_ir_fee: WrappedI80F48::zero(),
        }
    }
}

impl InterestRateConfig {
    /// The parameters that are all zero.
    pub open spec fn zeroed() -> InterestRateConfig {
        InterestRateConfig {
            optimal_utilization_rate: WrappedI80F48 { value: 0 },
            plateau_interest_rate: WrappedI80F48 { value: 0 },
            max_interest_rate: WrappedI80F48 { value: 0 },
            insurance_fee_fixed_apr: WrappedI80F48 { value: 0 },
            insurance_ir_fee: WrappedI80F48 { value: 0 },
            protocol_fixed_fee_apr: WrappedI80F48 { value: 0 },
            protocol_ir_fee: WrappedI80F48 { value: 0 },
        }
    }

    /// Whether no fee parameter is negative.
    pub open spec fn fees_non_negative(&self) -> bool {
        &&& self.insurance_fee_fixed_apr@ >= 0
        &&& self.insurance_ir_fee@ >= 0
        &&& self.protocol_fixed_fee_apr@ >= 0
        &&& self.protocol_ir_fee@ >= 0
    }

    /// The parameters describe a curve: the optimal utilization lies in
    /// [0, 1], the plateau rate is not negative, the maximum rate is not below
    /// the plateau, and no fee is negative.
    pub open spec fn valid(&self) -> bool {
        &&& 0 <= self.optimal_utilization_rate@ <= unit()
        &&& 0 <= self.plateau_interest_rate@ <= self.max_interest_rate@
        &&& self.fees_non_negative()
    }

    /// The parameters give rates at `utilization`. The leg of the curve above
    /// the optimal utilization is read only there, so only there must the
    /// optimum be at most 1 and the maximum rate reach the plateau.
    pub open spec fn admits(&self, utilization: int) -> bool {
        &&& utilization >= 0
        &&& self.plateau_interest_rate@ >= 0
        &&& self.fees_non_negative()
        &&& utilization > self.optimal_utilization_rate@ ==> {
            &&& self.optimal_utilization_rate@ <= unit()
            &&& self.plateau_interest_rate@ <= self.max_interest_rate@
        }
    }

    /// The base rate at a utilization. Up to the optimal utilization it rises
    /// linearly from zero to the plateau rate; above it, linearly from the
    /// plateau rate to the maximum rate at full utilization.
    pub open spec fn base_rate(&self, utilization: int) -> Option<int> {
        let optimal = self.optimal_utilization_rate@;
        let plateau = self.plateau_interest_rate@;
        if utilization <= optimal {
            times(over(Some(utilization), Some(optimal)), Some(plateau))
        } else {
            plus(
                times(
                    over(
                        minus(Some(utilization), Some(optimal)),
                        minus(Some(unit()), Some(optimal)),
                    ),
                    minus(Some(self.max_interest_rate@), Some(plateau)),
                ),
                Some(plateau),
            )
        }
    }

    /// What depositors earn: the base rate scaled by the utilization, since
    /// only the lent fraction of the pool pays interest.
    pub open spec fn lending_rate(&self, utilization: int) -> Option<int> {
        times(self.base_rate(utilization), Some(utilization))
    }

    /// What borrowers pay: the base rate raised by both proportional fees, plus
    /// both fixed fees.
    pub open spec fn borrowing_rate(&self, utilization: int) -> Option<int> {
        plus(
            times(
                self.base_rate(utilization),
                plus(
                    Some(unit()),
                    plus(Some(self.protocol_ir_fee@), Some(self.insurance_ir_fee@)),
                ),
            ),
            plus(Some(self.protocol_fixed_fee_apr@), Some(self.insurance_fee_fixed_apr@)),
        )
    }

    /// The protocol's share of the borrowing rate.
    pub open spec fn group_fee_rate(&self, utilization: int) -> Option<int> {
        fee_rate(self.base_rate(utilization), self.protocol_ir_fee@, self.protocol_fixed_fee_apr@)
    }

    /// The insurance fund's share of the borrowing rate.
    pub open spec fn insurance_fee_rate(&self, utilization: int) -> Option<int> {
        fee_rate(
            self.base_rate(utilization),
            self.insurance_ir_fee@,
            self.insurance_fee_fixed_apr@,
        )
    }

    /// The four rates at a utilization, or nothing if one of them has no
    /// result.
    pub open spec fn rates(&self, utilization: int) -> Option<Rates> {
        match (
            self.lending_rate(utilization),
            self.borrowing_rate(utilization),
            self.group_fee_rate(utilization),
            self.insurance_fee_rate(utilization),
        ) {
            (Some(l), Some(b), Some(g), Some(i)) => Some(
                Rates { lending: l, borrowing: b, group_fee: g, insurance_fee: i },
            ),
            _ => None,
        }
    }

    /// Whether the parameters describe a curve, as [`Self::valid`] says.
    pub fn is_valid(&self) -> (r: bool)
        ensures
            r == self.valid(),
    {
        0 <= self.optimal_utilization_rate.value
            && self.optimal_utilization_rate.value <= WrappedI80F48::one().value
            && 0 <= self.plateau_interest_rate.value
            && self.plateau_interest_rate.value <= self.max_interest_rate.value
            && self.has_non_negative_fees()
    }

    /// Whether no fee parameter is negative.
    pub fn has_non_negative_fees(&self) -> (r: bool)
        ensures
            r == self.fees_non_negative(),
    {
        self.insurance_fee_fixed_apr.value >= 0
            && self.insurance_ir_fee.value >= 0
            && self.protocol_fixed_fee_apr.value >= 0
            && self.protocol_ir_fee.value >= 0
    }

    /// Whether the parameters give rates at `utilization`, as
    /// [`Self::admits`] says.
    pub fn admits_utilization(&self, utilization: WrappedI80F48) -> (r: bool)
        ensures
            r == self.admits(utilization@),
    {
        let below_optimum = utilization.value <= self.optimal_utilization_rate.value;
        let upper_leg_rises = self.optimal_utilization_rate.value <= WrappedI80F48::one().value
            && self.plateau_interest_rate.value <= self.max_interest_rate.value;
        utilization.value >= 0 && self.plateau_interest_rate.value >= 0
            && self.has_non_negative_fees() && (below_optimum || upper_leg_rises)
    }

    /// Piecewise linear base rate at utilization `ur`. No result on a zero
    /// divisor (an optimal utilization of 0 on the lower leg, of 1 on the
    /// upper) or on overflow.
    pub fn interest_rate_curve(&self, ur: WrappedI80F48) -> (r: Option<WrappedI80F48>)
        ensures
            encoding(r) == self.base_rate(ur@),
    {
        let optimal_ur = self.optimal_utilization_rate;
        let plateau_ir = self.plateau_interest_rate;
        let max_ir = self.max_interest_rate;
        if ur.value <= optimal_ur.value {
            fixed_mul(fixed_div(ur, optimal_ur)?, plateau_ir)
        } else {
            let excess = fixed_sub(ur, optimal_ur)?;
            let span = fixed_sub(WrappedI80F48::one(), optimal_ur)?;
            let rise = fixed_sub(max_ir, plateau_ir)?;
            fixed_add(fixed_mul(fixed_div(excess, span)?, rise)?, plateau_ir)
        }
    }

    /// The annual rates at a utilization, as (`lending_rate`, `borrowing_rate`,
    /// `group_fees_apr`, `insurance_fees_apr`). No result when any step
    /// overflows or divides by zero. No rate that is returned is negative.
    pub fn calc_interest_rate(&self, utilization_ratio: WrappedI80F48) -> (res: Option<
        (WrappedI80F48, WrappedI80F48, WrappedI80F48, WrappedI80F48),
    >)
        requires
            self.admits(utilization_ratio@),
        ensures
            rates_encoding(res) == self.rates(utilization_ratio@),
            res matches Some(r) ==> r.0@ >= 0 && r.1@ >= 0 && r.2@ >= 0 && r.3@ >= 0,
    {
        let rate_fee = fixed_add(self.protocol_ir_fee, self.insurance_ir_fee)?;
        let total_fixed_fee_apr = fixed_add(
            self.protocol_fixed_fee_apr,
            self.insurance_fee_fixed_apr,
        )?;
        let base_rate = self.interest_rate_curve(utilization_ratio)?;
        let lending_rate = fixed_mul(base_rate, utilization_ratio)?;
        let markup = fixed_add(WrappedI80F48::one(), rate_fee)?;
        let borrowing_rate = fixed_add(fixed_mul(base_rate, markup)?, total_fixed_fee_apr)?;
        let group_fees_apr = calc_fee_rate(
            base_rate,
            self.protocol_ir_fee,
            self.protocol_fixed_fee_apr,
        )?;
        let insurance_fees_apr = calc_fee_rate(
            base_rate,
            self.insurance_ir_fee,
            self.insurance_fee_fixed_apr,
        )?;
        proof {
            self.lemma_base_rate_non_negative(utilization_ratio@);
            lemma_times_non_negative(base_rate@, utilization_ratio@);
            lemma_times_non_negative(base_rate@, markup@);
            lemma_times_non_negative(base_rate@, self.protocol_ir_fee@);
            lemma_times_non_negative(base_rate@, self.insurance_ir_fee@);
        }
        Some((lending_rate, borrowing_rate, group_fees_apr, insurance_fees_apr))
    }

    /// Where the parameters give rates at a utilization, the base rate there is
    /// not negative.
    pub proof fn lemma_base_rate_non_negative(&self, utilization: int)
        requires
            self.admits(utilization),
        ensures
            self.base_rate(utilization) matches Some(b) ==> b >= 0,
    {
        let optimal = self.optimal_utilization_rate@;
        let plateau = self.plateau_interest_rate@;
        if utilization <= optimal {
            if optimal != 0 {
                lemma_over_non_negative(utilization, optimal);
                let q = over(Some(utilization), Some(optimal));
                if q is Some {
                    lemma_times_non_negative(q->0, plateau);
                }
            }
        } else {
            let excess = utilization - optimal;
            let span = unit() - optimal;
            let rise = self.max_interest_rate@ - plateau;
            if span != 0 {
                lemma_over_non_negative(excess, span);
                let q = over(minus(Some(utilization), Some(optimal)), minus(Some(unit()), Some(optimal)));
                if q is Some {
                    lemma_times_non_negative(q->0, rise);
                }
            }
        }
    }
}

/// The fee rate for a base rate: `base_rate * rate_fees + fixed_fees`, without
/// the base rate itself.
pub fn calc_fee_rate(
    base_rate: WrappedI80F48,
    rate_fees: WrappedI80F48,
    fixed_fees: WrappedI80F48,
) -> (r: Option<WrappedI80F48>)
    ensures
        encoding(r) == fee_rate(Some(base_rate@), rate_fees@, fixed_fees@),
{
    fixed_add(fixed_mul(base_rate, rate_fees)?, fixed_fees)
}

/// The annual rate `apr` as a rate per second.
fn per_second(apr: WrappedI80F48) -> (r: Option<WrappedI80F48>)
    ensures
        encoding(r) == rate_per_second(apr@),
{
    fixed_div(apr, fixed_from_u64(SECONDS_PER_YEAR))
}

/// The new value of a principal `value` after `time_delta` seconds at the
/// annual rate `apr`, by simple interest.
pub fn calc_accrued_interest_payment_per_period(
    apr: WrappedI80F48,
    time_delta: u64,
    value: WrappedI80F48,
) -> (r: Option<WrappedI80F48>)
    ensures
        encoding(r) == accrued_value(apr@, time_delta as int, value@),
{
    let ir_per_second = per_second(apr)?;
    let growth = fixed_add(
        WrappedI80F48::one(),
        fixed_mul(ir_per_second, fixed_from_u64(time_delta))?,
    )?;
    fixed_mul(value, growth)
}

/// The interest due on a principal `value` after `time_delta` seconds at the
/// annual rate `apr`, by simple interest.
pub fn calc_interest_payment_for_period(
    apr: WrappedI80F48,
    time_delta: u64,
    value: WrappedI80F48,
) -> (r: Option<WrappedI80F48>)
    ensures
        encoding(r) == interest_payment(apr@, time_delta as int, value@),
{
    let ir_per_second = per_second(apr)?;
    fixed_mul(fixed_mul(value, ir_per_second)?, fixed_from_u64(time_delta))
}

/// What one accrual changes, as encodings: the two new share values and the
/// two fees collected.
pub struct Accrual {
    pub deposit_share_value: int,
    pub liability_share_value: int,
    pub group_fees: int,
    pub insurance_fees: int,
}

/// The encodings held by an optional accrual result.
pub open spec fn accrual_encoding(
    r: Option<(WrappedI80F48, WrappedI80F48, WrappedI80F48, WrappedI80F48)>,
) -> Option<Accrual> {
    match r {
        Some(q) => Some(
            Accrual {
                deposit_share_value: q.0@,
                liability_share_value: q.1@,
                group_fees: q.2@,
                insurance_fees: q.3@,
            },
        ),
        None => None,
    }
}

/// The utilization of a pool: its total liabilities over its total deposits.
/// An empty pool has none.
pub open spec fn utilization(total_deposits: int, total_liabilities: int) -> Option<int> {
    over(Some(total_liabilities), Some(total_deposits))
}

/// The accrual of a pool at given rates: each share value grows by simple
/// interest at its own rate, and each fee is the simple interest on the total
/// liabilities at the fee's rate.
pub open spec fn accrual_at(
    rates: Rates,
    time_delta: int,
    total_liabilities: int,
    deposit_share_value: int,
    liability_share_value: int,
) -> Option<Accrual> {
    match (
        accrued_value(rates.lending, time_delta, deposit_share_value),
        accrued_value(rates.borrowing, time_delta, liability_share_value),
        interest_payment(rates.group_fee, time_delta, total_liabilities),
        interest_payment(rates.insurance_fee, time_delta, total_liabilities),
    ) {
        (Some(d), Some(l), Some(g), Some(i)) => Some(
            Accrual {
                deposit_share_value: d,
                liability_share_value: l,
                group_fees: g,
                insurance_fees: i,
            },
        ),
        _ => None,
    }
}

/// The accrual of a pool over `time_delta` seconds: the rates are taken at the
/// pool's utilization and applied as in [`accrual_at`].
pub open spec fn accrual(
    config: InterestRateConfig,
    time_delta: int,
    total_deposits: int,
    total_liabilities: int,
    deposit_share_value: int,
    liability_share_value: int,
) -> Option<Accrual> {
    match utilization(total_deposits, total_liabilities) {
        Some(u) => match config.rates(u) {
            Some(rates) => accrual_at(
                rates,
                time_delta,
                total_liabilities,
                deposit_share_value,
                liability_share_value,
            ),
            None => None,
        },
        None => None,
    }
}

/// A non-negative annual rate gives a non-negative rate per second.
pub proof fn lemma_rate_per_second_non_negative(apr: int)
    requires
        apr >= 0,
    ensures
        rate_per_second(apr) matches Some(r) ==> r >= 0,
{
    lemma_over_non_negative(apr, SECONDS_PER_YEAR * unit());
}

/// Simple interest at a non-negative rate never shrinks a non-negative
/// principal.
pub proof fn lemma_accrued_value_grows(apr: int, time_delta: int, value: int)
    requires
        apr >= 0,
        time_delta >= 0,
        value >= 0,
    ensures
        accrued_value(apr, time_delta, value) matches Some(v) ==> v >= value,
{
    lemma_rate_per_second_non_negative(apr);
    if rate_per_second(apr) is Some {
        let r = rate_per_second(apr)->0;
        let t = time_delta * unit();
        lemma_times_non_negative(r, t);
        let interest = times(Some(r), Some(t));
        if interest is Some {
            let growth = unit() + interest->0;
            assert(value * growth >= value * unit()) by (nonlinear_arith)
                requires
                    value >= 0,
                    growth >= unit(),
            ;
            assert((value * unit()) / unit() == value) by (nonlinear_arith);
            assert((value * growth) / unit() >= (value * unit()) / unit());
        }
    }
}

/// Simple interest at a non-negative rate on a non-negative principal is not
/// negative.
pub proof fn lemma_interest_payment_non_negative(apr: int, time_delta: int, value: int)
    requires
        apr >= 0,
        time_delta >= 0,
        value >= 0,
    ensures
        interest_payment(apr, time_delta, value) matches Some(p) ==> p >= 0,
{
    lemma_rate_per_second_non_negative(apr);
    if rate_per_second(apr) is Some {
        let r = rate_per_second(apr)->0;
        lemma_times_non_negative(value, r);
        let per_second = times(Some(value), Some(r));
        if per_second is Some {
            lemma_times_non_negative(per_second->0, time_delta * unit());
        }
    }
}

/// The state changes of one accrual, as (`deposit_share_value`,
/// `liability_share_value`, `group_fees_collected`,
/// `insurance_fees_collected`). No result for a pool without deposits, nor when
/// any step overflows. On a pool whose totals and share values are not
/// negative, no share value shrinks and no fee is negative.
pub fn calc_interest_rate_accrual_state_changes(
    time_delta: u64,
    total_deposits: WrappedI80F48,
    total_liabilities: WrappedI80F48,
    interest_rate_config: &InterestRateConfig,
    deposit_share_value: WrappedI80F48,
    liability_share_value: WrappedI80F48,
) -> (res: Option<(WrappedI80F48, WrappedI80F48, WrappedI80F48, WrappedI80F48)>)
    requires
        interest_rate_config.valid(),
        total_deposits@ >= 0,
        total_liabilities@ >= 0,
    ensures
        accrual_encoding(res) == accrual(
            *interest_rate_config,
            time_delta as int,
            total_deposits@,
            total_liabilities@,
            deposit_share_value@,
            liability_share_value@,
        ),
        res matches Some(r) ==> {
            &&& deposit_share_value@ >= 0 ==> r.0@ >= deposit_share_value@
            &&& liability_share_value@ >= 0 ==> r.1@ >= liability_share_value@
            &&& r.2@ >= 0
            &&& r.3@ >= 0
        },
{
    let utilization_rate = fixed_div(total_liabilities, total_deposits)?;
    proof {
        lemma_over_non_negative(total_liabilities@, total_deposits@);
    }
    let (lending_apr, borrowing_apr, group_fee_apr, insurance_fee_apr) =
        interest_rate_config.calc_interest_rate(utilization_rate)?;
    let new_deposit_share_value = calc_accrued_interest_payment_per_period(
        lending_apr,
        time_delta,
        deposit_share_value,
    )?;
    let new_liability_share_value = calc_accrued_interest_payment_per_period(
        borrowing_apr,
        time_delta,
        liability_share_value,
    )?;
    let group_fees = calc_interest_payment_for_period(
        group_fee_apr,
        time_delta,
        total_liabilities,
    )?;
    let insurance_fees = calc_interest_payment_for_period(
        insurance_fee_apr,
        time_delta,
        total_liabilities,
    )?;
    proof {
        if deposit_share_value@ >= 0 {
            lemma_accrued_value_grows(lending_apr@, time_delta as int, deposit_share_value@);
        }
        if liability_share_value@ >= 0 {
            lemma_accrued_value_grows(borrowing_apr@, time_delta as int, liability_share_value@);
        }
        lemma_interest_payment_non_negative(
            group_fee_apr@,
            time_delta as int,
            total_liabilities@,
        );
        lemma_interest_payment_non_negative(
            insurance_fee_apr@,
            time_delta as int,
            total_liabilities@,
        );
    }
    Some((new_deposit_share_value, new_liability_share_value, group_fees, insurance_fees))
}

/// Simple interest on a fixed principal is additive in time: the interest of
/// two periods together is the sum of the interests of each, exactly.
pub proof fn lemma_interest_payment_additive(apr: int, first: int, second: int, value: int)
    ensures
        interest_payment(apr, first, value) is Some && interest_payment(apr, second, value)
            is Some ==> interest_payment(apr, first + second, value) == checked(
            interest_payment(apr, first, value)->0 + interest_payment(apr, second, value)->0,
        ),
{
    let per_second = times(Some(value), rate_per_second(apr));
    if per_second is Some {
        let p = per_second->0;
        lemma_times_whole(p, first);
        lemma_times_whole(p, second);
        lemma_times_whole(p, first + second);
        assert(p * (first + second) == p * first + p * second) by (nonlinear_arith);
    }
}

/// A principal grown over two periods together gains what it gains over each
/// period from the same base, up to one unit in the last place: simple
/// interest does not compound.
pub proof fn lemma_accrued_value_additive(apr: int, first: int, second: int, value: int)
    ensures
        accrued_value(apr, first, value) is Some && accrued_value(apr, second, value) is Some
            && accrued_value(apr, first + second, value) is Some ==> {
            let gain_first = accrued_value(apr, first, value)->0 - value;
            let gain_second = accrued_value(apr, second, value)->0 - value;
            let gain_both = accrued_value(apr, first + second, value)->0 - value;
            gain_first + gain_second <= gain_both <= gain_first + gain_second + 1
        },
{
    if rate_per_second(apr) is Some {
        let r = rate_per_second(apr)->0;
        lemma_times_whole(r, first);
        lemma_times_whole(r, second);
        lemma_times_whole(r, first + second);
        let k1 = value * (r * first);
        let k2 = value * (r * second);
        let k = value * (r * (first + second));
        assert(k == k1 + k2) by (nonlinear_arith)
            requires
                k1 == value * (r * first),
                k2 == value * (r * second),
                k == value * (r * (first + second)),
        ;
        assert(value * (unit() + r * first) == value * unit() + k1) by (nonlinear_arith)
            requires
                k1 == value * (r * first),
        ;
        assert(value * (unit() + r * second) == value * unit() + k2) by (nonlinear_arith)
            requires
                k2 == value * (r * second),
        ;
        assert(value * (unit() + r * (first + second)) == value * unit() + k)
            by (nonlinear_arith)
            requires
                k == value * (r * (first + second)),
        ;
        assert((value * unit() + k1) / unit() == value + k1 / unit());
        assert((value * unit() + k2) / unit() == value + k2 / unit());
        assert((value * unit() + k) / unit() == value + k / unit());
    }
}

/// What compounding adds. Accruing over a first period and then, from the
/// value so reached, over a second one differs from accruing once over both
/// periods by the interest that the gain of the first period earns in the
/// second, up to one unit in the last place. Where that interest on interest
/// is under one such unit, the two ways agree up to a unit in the last place.
pub proof fn lemma_accrued_value_in_two_steps(apr: int, first: int, second: int, value: int)
    ensures
        ({
            let one_step = accrued_value(apr, first + second, value);
            let midway = accrued_value(apr, first, value);
            midway is Some && one_step is Some && accrued_value(apr, second, midway->0)
                is Some ==> {
                let two_steps = accrued_value(apr, second, midway->0)->0;
                let gain = midway->0 - value;
                let on_gain = (gain * (rate_per_second(apr)->0 * second)) / unit();
                on_gain - 1 <= two_steps - one_step->0 <= on_gain + 1
            }
        }),
{
    if rate_per_second(apr) is Some {
        let r = rate_per_second(apr)->0;
        lemma_times_whole(r, first);
        lemma_times_whole(r, second);
        lemma_times_whole(r, first + second);
        let g1 = r * first;
        let g2 = r * second;
        let midway = accrued_value(apr, first, value);
        if midway is Some {
            let y1 = midway->0;
            let gain = y1 - value;
            let a = value * g1;
            let b = value * g2;
            let c = gain * g2;
            assert(r * (first + second) == g1 + g2) by (nonlinear_arith)
                requires
                    g1 == r * first,
                    g2 == r * second,
            ;
            assert(value * (unit() + g1) == value * unit() + a) by (nonlinear_arith)
                requires
                    a == value * g1,
            ;
            assert(value * (unit() + (g1 + g2)) == value * unit() + (a + b))
                by (nonlinear_arith)
                requires
                    a == value * g1,
                    b == value * g2,
            ;
            assert(y1 * (unit() + g2) == y1 * unit() + (b + c)) by (nonlinear_arith)
                requires
                    b == value * g2,
                    c == gain * g2,
                    gain == y1 - value,
            ;
            assert((value * unit() + a) / unit() == value + a / unit());
            assert((value * unit() + (a + b)) / unit() == value + (a + b) / unit());
            assert((y1 * unit() + (b + c)) / unit() == y1 + (b + c) / unit());
        }
    }
}

/// How far fixed-point simple interest is from the exact amount
/// `value * (1 + apr / SECONDS_PER_YEAR * time_delta)`. With all three inputs
/// non-negative, the computed value `y` never exceeds the exact one, and the
/// exact one is less than `y + 1 + value * time_delta / 2^48`, counted in
/// units of the last place: one unit for rounding the product, the rest for
/// rounding the rate per second. Both sides are scaled by
/// `2^48 * SECONDS_PER_YEAR` to stay in whole numbers.
pub proof fn lemma_accrued_value_close_to_exact(apr: int, time_delta: int, value: int)
    requires
        apr >= 0,
        time_delta >= 0,
        value >= 0,
    ensures
        accrued_value(apr, time_delta, value) matches Some(y) ==> {
            let exact = value * (unit() * SECONDS_PER_YEAR + apr * time_delta);
            &&& y * (unit() * SECONDS_PER_YEAR) <= exact
            &&& exact < (y + 1) * (unit() * SECONDS_PER_YEAR) + value * time_delta
                * SECONDS_PER_YEAR
        },
{
    let year = SECONDS_PER_YEAR as int;
    vstd::arithmetic::div_mod::lemma_div_multiples_vanish_quotient(unit(), apr, year);
    assert(unit() * apr == apr * unit());
    assert(unit() * year == SECONDS_PER_YEAR * unit());
    if rate_per_second(apr) is Some {
        let r = rate_per_second(apr)->0;
        assert(r == apr / year);
        lemma_times_whole(r, time_delta);
        let weight = value * time_delta;
        let b = weight * r;
        let c = weight * apr;
        assert(weight >= 0) by (nonlinear_arith)
            requires
                weight == value * time_delta,
                value >= 0,
                time_delta >= 0,
        ;
        assert(value * (unit() + r * time_delta) == value * unit() + b) by (nonlinear_arith)
            requires
                weight == value * time_delta,
                b == weight * r,
        ;
        assert(value * (unit() * year + apr * time_delta) == value * unit() * year + c)
            by (nonlinear_arith)
            requires
                weight == value * time_delta,
                c == weight * apr,
        ;
        assert(b * year <= c && c <= b * year + weight * year) by (nonlinear_arith)
            requires
                b == weight * r,
                c == weight * apr,
                weight >= 0,
                r * year <= apr,
                apr <= r * year + year,
        ;
    }
}

/// Accruals from one starting state add up: what an accrual over two periods
/// together adds to each share value is what the accruals over each period
/// add, up to one unit in the last place, and the fees of the two periods
/// together are exactly the sum of the fees of each.
pub proof fn lemma_accrual_additive(
    config: InterestRateConfig,
    first: int,
    second: int,
    total_deposits: int,
    total_liabilities: int,
    deposit_share_value: int,
    liability_share_value: int,
)
    ensures
        ({
            let a = accrual(
                config,
                first,
                total_deposits,
                total_liabilities,
                deposit_share_value,
                liability_share_value,
            );
            let b = accrual(
                config,
                second,
                total_deposits,
                total_liabilities,
                deposit_share_value,
                liability_share_value,
            );
            let c = accrual(
                config,
                first + second,
                total_deposits,
                total_liabilities,
                deposit_share_value,
                liability_share_value,
            );
            a is Some && b is Some && c is Some ==> {
                let (a, b, c) = (a->0, b->0, c->0);
                let deposit_gains = (a.deposit_share_value - deposit_share_value) + (
                b.deposit_share_value - deposit_share_value);
                let liability_gains = (a.liability_share_value - liability_share_value) + (
                b.liability_share_value - liability_share_value);
                &&& deposit_gains <= c.deposit_share_value - deposit_share_value
                    <= deposit_gains + 1
                &&& liability_gains <= c.liability_share_value - liability_share_value
                    <= liability_gains + 1
                &&& c.group_fees == a.group_fees + b.group_fees
                &&& c.insurance_fees == a.insurance_fees + b.insurance_fees
            }
        }),
{
    let u = utilization(total_deposits, total_liabilities);
    if u is Some && config.rates(u->0) is Some {
        let rates = config.rates(u->0)->0;
        lemma_accrued_value_additive(rates.lending, first, second, deposit_share_value);
        lemma_accrued_value_additive(rates.borrowing, first, second, liability_share_value);
        lemma_interest_payment_additive(rates.group_fee, first, second, total_liabilities);
        lemma_interest_payment_additive(rates.insurance_fee, first, second, total_liabilities);
    }
}

} // verus!
