//! The per-asset pool.
//!
//! A [`Bank`] holds the totals of deposit and liability shares and the current
//! value of one share of each kind. Balances of participants are kept
//! elsewhere, in shares; the bank converts between shares and value, enforces
//! the deposit capacity, accrues interest and spreads uncovered losses.

use crate::errors::{MarginfiError, MarginfiResult};
use crate::fixed_point::{
    fixed_add, fixed_div, fixed_from_u64, fixed_mul, fixed_sub, fixed_to_u64, minus,
    over, plus, times, unit, whole_units, WrappedI80F48,
};
use crate::group::Pubkey;
use crate::interest::{
    accrual, calc_interest_rate_accrual_state_changes, Accrual, InterestRateConfig,
};
use vstd::prelude::*;
use vstd::string::StringSliceAdditionalSpecFns;

verus! {

/// Which of the two sets of risk weights is asked for.
#[derive(Clone, Copy, Debug, PartialEq, Eq, Structural)]
pub enum WeightType {
    Initial,
    Maintenance,
}

/// The settings of a bank. The weights are risk parameters that the bank
/// carries for the risk engine and does not interpret.
#[derive(Clone, Copy, Debug, PartialEq, Eq)]
pub struct BankConfig {
    pub deposit_weight_init: WrappedI80F48,
    pub deposit_weight_maint: WrappedI80F48,
    pub liability_weight_init: WrappedI80F48,
    pub liability_weight_maint: WrappedI80F48,
    /// Ceiling on the total deposits, counted in shares.
    pub max_capacity: u64,
    /// The price account of the asset.
    pub pyth_oracle: Pubkey,
    pub interest_rate_config: InterestRateConfig,
}

/// A change to a bank's settings: each field that is present replaces the
/// bank's.
#[derive(Clone, Copy, Debug, PartialEq, Eq)]
pub struct BankConfigOpt {
    pub deposit_weight_init: Option<WrappedI80F48>,
    pub deposit_weight_maint: Option<WrappedI80F48>,
    pub liability_weight_init: Option<WrappedI80F48>,
    pub liability_weight_maint: Option<WrappedI80F48>,
    pub max_capacity: Option<u64>,
    pub pyth_oracle: Option<Pubkey>,
}

/// The state of one asset's pool.
#[derive(Clone, Copy, Debug, PartialEq, Eq)]
pub struct Bank {
    /// The asset.
    pub mint_pk: Pubkey,
    /// The group that owns the bank.
    pub group: Pubkey,
    /// Value of one deposit share.
    pub deposit_share_value: WrappedI80F48,
    /// Value of one liability share.
    pub liability_share_value: WrappedI80F48,
    pub liquidity_vault: Pubkey,
    pub insurance_vault: Pubkey,
    pub fee_vault: Pubkey,
    pub config: BankConfig,
    /// Liability shares outstanding over all participants.
    pub total_borrow_shares: WrappedI80F48,
    /// Deposit shares outstanding over all participants.
    pub total_deposit_shares: WrappedI80F48,
    /// Time of the last accrual, in seconds.
    pub last_update: i64,
}

/// A scalar with a given encoding.
pub open spec fn scalar(bits: int) -> WrappedI80F48 {
    WrappedI80F48 { value: bits as i128 }
}

/// A computed scalar, or the arithmetic failure when the computation has no
/// result.
pub open spec fn or_math_error(bits: Option<int>) -> MarginfiResult<WrappedI80F48> {
    match bits {
        Some(b) => Ok(scalar(b)),
        None => Err(MarginfiError::MathError),
    }
}

impl Default for BankConfig {
    fn default() -> (r: Self)
        ensures
            r.deposit_weight_init@ == 0,
            r.deposit_weight_maint@ == 0,
            r.liability_weight_init@ == unit(),
            r.liability_weight_maint@ == unit(),
            r.max_capacity == 0,
            r.pyth_oracle@ == crate::group::zero_key(),
            r.interest_rate_config == InterestRateConfig::zeroed(),
    {
        BankConfig {
            deposit_weight_init: WrappedI80F48::zero(),
            deposit_weight_maint: WrappedI80F48::zero(),
            liability_weight_init: WrappedI80F48::one(),
            liability_weight_maint: WrappedI80F48::one(),
            max_capacity: 0,
            pyth_oracle: Pubkey::default(),
            interest_rate_config: InterestRateConfig::default(),
        }
    }
}

impl BankConfig {
    /// The deposit weight and the liability weight of the given kind.
    pub fn get_weights(&self, weight_type: WeightType) -> (r: (WrappedI80F48, WrappedI80F48))
        ensures
            r == match weight_type {
                WeightType::Initial => (self.deposit_weight_init, self.liability_weight_init),
                WeightType::Maintenance => (
                    self.deposit_weight_maint,
                    self.liability_weight_maint,
                ),
            },
    {
        match weight_type {
            WeightType::Initial => (self.deposit_weight_init, self.liability_weight_init),
            WeightType::Maintenance => (self.deposit_weight_maint, self.liability_weight_maint),
        }
    }

    /// The settings after a change: each field that the change names is
    /// replaced, every other field is kept.
    pub open spec fn updated(self, change: BankConfigOpt) -> BankConfig {
        BankConfig {
            deposit_weight_init: change.deposit_weight_init.unwrap_or(self.deposit_weight_init),
            deposit_weight_maint: change.deposit_weight_maint.unwrap_or(
                self.deposit_weight_maint,
            ),
            liability_weight_init: change.liability_weight_init.unwrap_or(
                self.liability_weight_init,
            ),
            liability_weight_maint: change.liability_weight_maint.unwrap_or(
                self.liability_weight_maint,
            ),
            max_capacity: change.max_capacity.unwrap_or(self.max_capacity),
            pyth_oracle: change.pyth_oracle.unwrap_or(self.pyth_oracle),
            interest_rate_config: self.interest_rate_config,
        }
    }
}

impl Bank {
    /// The bank's numbers make sense: its rate parameters describe a curve,
    /// and neither a share total nor a share value is negative.
    pub open spec fn valid(&self) -> bool {
        &&& self.config.interest_rate_config.valid()
        &&& self.deposit_share_value@ >= 0
        &&& self.liability_share_value@ >= 0
        &&& self.total_deposit_shares@ >= 0
        &&& self.total_borrow_shares@ >= 0
    }

    /// Whether the bank's numbers make sense, as [`Self::valid`] says.
    pub fn is_valid(&self) -> (r: bool)
        ensures
            r == self.valid(),
    {
        self.config.interest_rate_config.is_valid()
            && self.deposit_share_value.value >= 0
            && self.liability_share_value.value >= 0
            && self.total_deposit_shares.value >= 0
            && self.total_borrow_shares.value >= 0
    }

    /// The value of all deposit shares.
    pub open spec fn total_deposits(&self) -> Option<int> {
        times(Some(self.total_deposit_shares@), Some(self.deposit_share_value@))
    }

    /// The value of all liability shares.
    pub open spec fn total_liabilities(&self) -> Option<int> {
        times(Some(self.total_borrow_shares@), Some(self.liability_share_value@))
    }

    /// The value of as many deposit shares as the capacity allows.
    pub open spec fn capacity_value(&self) -> Option<int> {
        times(Some(self.config.max_capacity * unit()), Some(self.deposit_share_value@))
    }

    /// A new bank: both share values are exactly 1, no share is outstanding,
    /// and the last accrual is now.
    pub fn new(
        group_pk: Pubkey,
        config: BankConfig,
        mint_pk: Pubkey,
        liquidity_vault: Pubkey,
        insurance_vault: Pubkey,
        fee_vault: Pubkey,
        current_timestamp: i64,
    ) -> (bank: Bank)
        ensures
            bank == (Bank {
                mint_pk,
                group: group_pk,
                deposit_share_value: scalar(unit()),
                liability_share_value: scalar(unit()),
                liquidity_vault,
                insurance_vault,
                fee_vault,
                config,
                total_borrow_shares: scalar(0),
                total_deposit_shares: scalar(0),
                last_update: current_timestamp,
            }),
            config.interest_rate_config.valid() ==> bank.valid(),
    {
        Bank {
            mint_pk,
            deposit_share_value: WrappedI80F48::one(),
            liability_share_value: WrappedI80F48::one(),
            liquidity_vault,
            insurance_vault,
            fee_vault,
            config,
            total_borrow_shares: WrappedI80F48::zero(),
            total_deposit_shares: WrappedI80F48::zero(),
            last_update: current_timestamp,
            group: group_pk,
        }
    }

    /// The value of a number of liability shares:
    /// `shares * liability_share_value`.
    pub fn get_liability_amount(&self, shares: WrappedI80F48) -> (res: MarginfiResult<
        WrappedI80F48,
    >)
        ensures
            res == or_math_error(times(Some(shares@), Some(self.liability_share_value@))),
    {
        match fixed_mul(shares, self.liability_share_value) {
            Some(amount) => Ok(amount),
            None => Err(MarginfiError::MathError),
        }
    }

    /// The value of a number of deposit shares: `shares * deposit_share_value`.
    pub fn get_deposit_amount(&self, shares: WrappedI80F48) -> (res: MarginfiResult<
        WrappedI80F48,
    >)
        ensures
            res == or_math_error(times(Some(shares@), Some(self.deposit_share_value@))),
    {
        match fixed_mul(shares, self.deposit_share_value) {
            Some(amount) => Ok(amount),
            None => Err(MarginfiError::MathError),
        }
    }

    /// The liability shares that a value buys: `value / liability_share_value`.
    pub fn get_liability_shares(&self, value: WrappedI80F48) -> (res: MarginfiResult<
        WrappedI80F48,
    >)
        ensures
            res == or_math_error(over(Some(value@), Some(self.liability_share_value@))),
    {
        match fixed_div(value, self.liability_share_value) {
            Some(shares) => Ok(shares),
            None => Err(MarginfiError::MathError),
        }
    }

    /// The deposit shares that a value buys: `value / deposit_share_value`.
    pub fn get_deposit_shares(&self, value: WrappedI80F48) -> (res: MarginfiResult<
        WrappedI80F48,
    >)
        ensures
            res == or_math_error(over(Some(value@), Some(self.deposit_share_value@))),
    {
        match fixed_div(value, self.deposit_share_value) {
            Some(shares) => Ok(shares),
            None => Err(MarginfiError::MathError),
        }
    }

    /// What a change of the deposit share total by `shares` comes to: the new
    /// total, or why the change is refused. A change that adds shares is
    /// refused unless the value of the new total stays strictly below the
    /// value of the capacity.
    pub open spec fn deposit_change(&self, shares: int) -> MarginfiResult<WrappedI80F48> {
        match plus(Some(self.total_deposit_shares@), Some(shares)) {
            None => Err(MarginfiError::MathError),
            Some(total) => if shares > 0 {
                match (
                    times(Some(total), Some(self.deposit_share_value@)),
                    self.capacity_value(),
                ) {
                    (Some(value), Some(capacity)) => if value < capacity {
                        Ok(scalar(total))
                    } else {
                        Err(MarginfiError::BankDepositCapacityExceeded)
                    },
                    _ => Err(MarginfiError::MathError),
                }
            } else {
                Ok(scalar(total))
            },
        }
    }

    /// Adds `shares`, which may be negative, to the total of deposit shares.
    /// A refused change leaves the bank as it was.
    pub fn change_deposit_shares(&mut self, shares: WrappedI80F48) -> (res: MarginfiResult<()>)
        ensures
            match old(self).deposit_change(shares@) {
                Ok(total) => res is Ok && *final(self) == (Bank {
                    total_deposit_shares: total,
                    ..*old(self)
                }),
                Err(e) => res == Err::<(), MarginfiError>(e) && *final(self) == *old(self),
            },
            res is Ok && old(self).valid() && final(self).total_deposit_shares@ >= 0
                ==> final(self).valid(),
    {
        let total = match fixed_add(self.total_deposit_shares, shares) {
            Some(total) => total,
            None => return Err(MarginfiError::MathError),
        };
        if shares.is_positive() {
            let total_shares_value = self.get_deposit_amount(total)?;
            let max_deposit_capacity = self.get_deposit_amount(
                fixed_from_u64(self.config.max_capacity),
            )?;
            if !(total_shares_value.value < max_deposit_capacity.value) {
                return Err(MarginfiError::BankDepositCapacityExceeded);
            }
        }
        self.total_deposit_shares = total;
        Ok(())
    }

    /// Adds `shares`, which may be negative, to the total of liability shares.
    /// Refused only when the sum overflows, and then the bank is left as it
    /// was.
    pub fn change_liability_shares(&mut self, shares: WrappedI80F48) -> (res: MarginfiResult<()>)
        ensures
            match plus(Some(old(self).total_borrow_shares@), Some(shares@)) {
                Some(total) => res is Ok && *final(self) == (Bank {
                    total_borrow_shares: scalar(total),
                    ..*old(self)
                }),
                None => res == Err::<(), MarginfiError>(MarginfiError::MathError) && *final(self)
                    == *old(self),
            },
            res is Ok && old(self).valid() && final(self).total_borrow_shares@ >= 0
                ==> final(self).valid(),
    {
        match fixed_add(self.total_borrow_shares, shares) {
            Some(total) => {
                self.total_borrow_shares = total;
                Ok(())
            },
            None => Err(MarginfiError::MathError),
        }
    }

    /// Applies a change to the bank's settings. Never refused; the rate
    /// parameters and the pool's state are not touched.
    pub fn configure(&mut self, config: BankConfigOpt) -> (res: MarginfiResult<()>)
        ensures
            res is Ok,
            *final(self) == (Bank { config: old(self).config.updated(config), ..*old(self) }),
            old(self).valid() ==> final(self).valid(),
    {
        if let Some(weight) = config.deposit_weight_init {
            self.config.deposit_weight_init = weight;
        }
        if let Some(weight) = config.deposit_weight_maint {
            self.config.deposit_weight_maint = weight;
        }
        if let Some(weight) = config.liability_weight_init {
            self.config.liability_weight_init = weight;
        }
        if let Some(weight) = config.liability_weight_maint {
            self.config.liability_weight_maint = weight;
        }
        if let Some(capacity) = config.max_capacity {
            self.config.max_capacity = capacity;
        }
        if let Some(oracle) = config.pyth_oracle {
            self.config.pyth_oracle = oracle;
        }
        Ok(())
    }

    /// What an accrual at time `now` changes, or nothing if a step of it has
    /// no result.
    pub open spec fn accrual(&self, now: i64) -> Option<Accrual> {
        match (self.total_deposits(), self.total_liabilities()) {
            (Some(deposits), Some(liabilities)) => accrual(
                self.config.interest_rate_config,
                now - self.last_update,
                deposits,
                liabilities,
                self.deposit_share_value@,
                self.liability_share_value@,
            ),
            _ => None,
        }
    }

    /// The bank after an accrual at time `now` and the two fees it collects,
    /// in whole token units; nothing if a step of the accrual has no result or
    /// a fee is not a 64-bit amount.
    pub open spec fn accrued(&self, now: i64) -> Option<(Bank, u64, u64)> {
        match self.accrual(now) {
            Some(a) => match (whole_units(a.group_fees), whole_units(a.insurance_fees)) {
                (Some(group_fees), Some(insurance_fees)) => Some(
                    (
                        Bank {
                            deposit_share_value: scalar(a.deposit_share_value),
                            liability_share_value: scalar(a.liability_share_value),
                            last_update: now,
                            ..*self
                        },
                        group_fees,
                        insurance_fees,
                    ),
                ),
                _ => None,
            },
            None => None,
        }
    }

    /// Accrues simple interest for the time since the last accrual: both
    /// share values grow at their rates and the time of the last accrual
    /// becomes `current_timestamp`. Returns the protocol fee and the insurance
    /// fee collected, in whole token units, rounded down. An accrual that
    /// fails at any step changes nothing.
    pub fn accrue_interest(&mut self, current_timestamp: i64) -> (res: MarginfiResult<(u64, u64)>)
        requires
            old(self).valid(),
            current_timestamp >= old(self).last_update,
        ensures
            match old(self).accrued(current_timestamp) {
                Some((bank, group_fees, insurance_fees)) => {
                    &&& res == Ok::<(u64, u64), MarginfiError>((group_fees, insurance_fees))
                    &&& *final(self) == bank
                },
                None => {
                    &&& res == Err::<(u64, u64), MarginfiError>(MarginfiError::MathError)
                    &&& *final(self) == *old(self)
                },
            },
            final(self).valid(),
            final(self).deposit_share_value@ >= old(self).deposit_share_value@,
            final(self).liability_share_value@ >= old(self).liability_share_value@,
    {
        let time_delta: u64 = ((current_timestamp as i128) - (self.last_update as i128)) as u64;
        proof {
            crate::fixed_point::lemma_times_non_negative(
                self.total_deposit_shares@,
                self.deposit_share_value@,
            );
            crate::fixed_point::lemma_times_non_negative(
                self.total_borrow_shares@,
                self.liability_share_value@,
            );
        }
        let total_deposits = self.get_deposit_amount(self.total_deposit_shares)?;
        let total_liabilities = self.get_liability_amount(self.total_borrow_shares)?;
        let changes = calc_interest_rate_accrual_state_changes(
            time_delta,
            total_deposits,
            total_liabilities,
            &self.config.interest_rate_config,
            self.deposit_share_value,
            self.liability_share_value,
        );
        let (
            deposit_share_value,
            liability_share_value,
            group_fees_collected,
            insurance_fees_collected,
        ) = match changes {
            Some(changes) => changes,
            None => return Err(MarginfiError::MathError),
        };
        let group_fees = match fixed_to_u64(group_fees_collected) {
            Some(fees) => fees,
            None => return Err(MarginfiError::MathError),
        };
        let insurance_fees = match fixed_to_u64(insurance_fees_collected) {
            Some(fees) => fees,
            None => return Err(MarginfiError::MathError),
        };
        self.deposit_share_value = deposit_share_value;
        self.liability_share_value = liability_share_value;
        self.last_update = current_timestamp;
        Ok((group_fees, insurance_fees))
    }

    /// Whether tokens that are deposited may go to `destination`: only the
    /// bank's liquidity vault receives deposits.
    pub fn check_deposit_destination(&self, destination: &Pubkey) -> (res: MarginfiResult<()>)
        ensures
            res == if destination@ == self.liquidity_vault@ {
                Ok::<(), MarginfiError>(())
            } else {
                Err::<(), MarginfiError>(MarginfiError::InvalidTransfer)
            },
    {
        if destination.same(&self.liquidity_vault) {
            Ok(())
        } else {
            Err(MarginfiError::InvalidTransfer)
        }
    }

    /// Whether the price account `key` is the bank's oracle.
    pub fn check_oracle_key(&self, key: &Pubkey) -> (res: MarginfiResult<()>)
        ensures
            res == if key@ == self.config.pyth_oracle@ {
                Ok::<(), MarginfiError>(())
            } else {
                Err::<(), MarginfiError>(MarginfiError::InvalidPythAccount)
            },
    {
        if self.config.pyth_oracle.same(key) {
            Ok(())
        } else {
            Err(MarginfiError::InvalidPythAccount)
        }
    }

    /// The position of the bank's oracle among the price accounts `keys`: the
    /// first position that holds it, or the refusal when none does.
    pub fn find_price_account(&self, keys: &Vec<Pubkey>) -> (res: MarginfiResult<usize>)
        ensures
            match res {
                Ok(at) => {
                    &&& at < keys.len()
                    &&& keys[at as int]@ == self.config.pyth_oracle@
                    &&& forall|j: int| 0 <= j < at ==> keys[j]@ != self.config.pyth_oracle@
                },
                Err(e) => {
                    &&& e == MarginfiError::MissingPythAccount
                    &&& forall|j: int| 0 <= j < keys.len() ==> keys[j]@ != self.config.pyth_oracle@
                },
            },
    {
        let mut i: usize = 0;
        while i < keys.len()
            invariant
                i <= keys.len(),
                forall|j: int| 0 <= j < i ==> keys[j]@ != self.config.pyth_oracle@,
            decreases keys.len() - i,
        {
            if keys[i].same(&self.config.pyth_oracle) {
                return Ok(i);
            }
            i += 1;
        }
        Err(MarginfiError::MissingPythAccount)
    }

    /// The value of one deposit share after a loss of `loss` is spread over
    /// all deposit shares: what the deposits are worth less the loss, divided
    /// by the number of shares. Nothing when no share is outstanding or a step
    /// overflows.
    pub open spec fn share_value_after_loss(&self, loss: int) -> Option<int> {
        over(minus(self.total_deposits(), Some(loss)), Some(self.total_deposit_shares@))
    }

    /// Whether the deposits are worth at least `loss`.
    pub open spec fn covers(&self, loss: int) -> bool {
        match self.total_deposits() {
            Some(deposits) => loss <= deposits,
            None => false,
        }
    }

    /// Spreads a loss of `loss_amount` over the depositors by lowering the
    /// value of every deposit share alike; no share count changes. With no
    /// deposit share outstanding the call fails. A failed call changes
    /// nothing.
    pub fn socialize_loss(&mut self, loss_amount: WrappedI80F48) -> (res: MarginfiResult<()>)
        ensures
            match old(self).share_value_after_loss(loss_amount@) {
                Some(value) => res is Ok && *final(self) == (Bank {
                    deposit_share_value: scalar(value),
                    ..*old(self)
                }),
                None => res == Err::<(), MarginfiError>(MarginfiError::MathError) && *final(self)
                    == *old(self),
            },
            old(self).total_deposit_shares@ == 0 ==> res is Err,
            res is Ok && old(self).total_deposit_shares@ > 0 && old(self).covers(loss_amount@)
                ==> final(self).deposit_share_value@ >= 0,
            res is Ok && old(self).valid() && old(self).covers(loss_amount@)
                ==> final(self).valid(),
    {
        let n_shares = self.total_deposit_shares;
        let old_share_value = self.deposit_share_value;
        let deposits = match fixed_mul(n_shares, old_share_value) {
            Some(deposits) => deposits,
            None => return Err(MarginfiError::MathError),
        };
        let remaining = match fixed_sub(deposits, loss_amount) {
            Some(remaining) => remaining,
            None => return Err(MarginfiError::MathError),
        };
        let new_share_value = match fixed_div(remaining, n_shares) {
            Some(value) => value,
            None => return Err(MarginfiError::MathError),
        };
        proof {
            if n_shares@ > 0 && remaining@ >= 0 {
                crate::fixed_point::lemma_over_non_negative(remaining@, n_shares@);
            }
        }
        self.deposit_share_value = new_share_value;
        Ok(())
    }
}

/// Accruals of one bank add up in time. Taken from the same state of the
/// bank, the accrual up to a time that lies as far after the last accrual as
/// two other times together adds to each share value what the accruals up to
/// those two times add, up to one unit in the last place, and collects
/// exactly the sum of their fees.
pub proof fn lemma_accruals_from_one_state_add_up(bank: Bank, first: i64, second: i64, both: i64)
    requires
        both - bank.last_update == (first - bank.last_update) + (second - bank.last_update),
    ensures
        bank.accrual(first) is Some && bank.accrual(second) is Some && bank.accrual(both) is Some
            ==> {
            let a = bank.accrual(first)->0;
            let b = bank.accrual(second)->0;
            let c = bank.accrual(both)->0;
            let deposits = bank.deposit_share_value@;
            let liabilities = bank.liability_share_value@;
            let deposit_gains = (a.deposit_share_value - deposits) + (b.deposit_share_value
                - deposits);
            let liability_gains = (a.liability_share_value - liabilities) + (
            b.liability_share_value - liabilities);
            &&& deposit_gains <= c.deposit_share_value - deposits <= deposit_gains + 1
            &&& liability_gains <= c.liability_share_value - liabilities <= liability_gains + 1
            &&& c.group_fees == a.group_fees + b.group_fees
            &&& c.insurance_fees == a.insurance_fees + b.insurance_fees
        },
{
    if bank.total_deposits() is Some && bank.total_liabilities() is Some {
        crate::interest::lemma_accrual_additive(
            bank.config.interest_rate_config,
            first - bank.last_update,
            second - bank.last_update,
            bank.total_deposits()->0,
            bank.total_liabilities()->0,
            bank.deposit_share_value@,
            bank.liability_share_value@,
        );
    }
}

/// Shares turned into value and back do not drift beyond rounding: at a
/// positive share value, the shares that the value of `shares` buys are never
/// more than `shares`, and fall short of them by less than one unit in the
/// last place plus what one such unit of value is worth in shares.
pub proof fn lemma_shares_round_trip(share_value: int, shares: int)
    requires
        share_value > 0,
        shares >= 0,
    ensures
        over(times(Some(shares), Some(share_value)), Some(share_value)) matches Some(back) ==> {
            &&& 0 <= back <= shares
            &&& (shares - back) * share_value < unit() + share_value
        },
{
    let product = shares * share_value;
    let amount = product / unit();
    let scaled = amount * unit();
    let back = scaled / share_value;
    assert(product >= 0) by (nonlinear_arith)
        requires
            product == shares * share_value,
            shares >= 0,
            share_value > 0,
    ;
    assert(0 <= scaled <= product && product - scaled < unit());
    assert(0 <= back <= shares && (shares - back) * share_value < unit() + share_value)
        by (nonlinear_arith)
        requires
            back == scaled / share_value,
            product == shares * share_value,
            0 <= scaled <= product,
            product - scaled < unit(),
            share_value > 0,
            shares >= 0,
    ;
}

/// The values of two holdings of deposit shares stand in the ratio of the
/// holdings, whatever one share is worth: with `a` and `b` the values of
/// `shares_a` and `shares_b`, the cross products `a * shares_b` and
/// `b * shares_a` differ by no more than the rounding of each value to the
/// last place allows.
pub proof fn lemma_value_proportional_to_shares(share_value: int, shares_a: int, shares_b: int)
    requires
        shares_a >= 0,
        shares_b >= 0,
    ensures
        ({
            let a = (shares_a * share_value) / unit();
            let b = (shares_b * share_value) / unit();
            -shares_b <= a * shares_b - b * shares_a <= shares_a
        }),
{
    let pa = shares_a * share_value;
    let pb = shares_b * share_value;
    let a = pa / unit();
    let b = pb / unit();
    let ra = pa - a * unit();
    let rb = pb - b * unit();
    assert(0 <= ra < unit() && 0 <= rb < unit());
    assert(pa * shares_b == pb * shares_a) by (nonlinear_arith)
        requires
            pa == shares_a * share_value,
            pb == shares_b * share_value,
    ;
    assert(unit() * (a * shares_b - b * shares_a) == rb * shares_a - ra * shares_b)
        by (nonlinear_arith)
        requires
            pa * shares_b == pb * shares_a,
            ra == pa - a * unit(),
            rb == pb - b * unit(),
    ;
    assert(-(unit() * shares_b) <= rb * shares_a - ra * shares_b <= unit() * shares_a)
        by (nonlinear_arith)
        requires
            0 <= ra < unit(),
            0 <= rb < unit(),
            shares_a >= 0,
            shares_b >= 0,
    ;
}

/// Spreading a loss that the deposits cover, over a positive number of
/// shares, leaves a share value that is not negative, and leaves every two
/// holdings worth amounts in the ratio of the holdings, as
/// [`lemma_value_proportional_to_shares`] states it. Share counts are not
/// part of the bank and so cannot change.
pub proof fn lemma_socialize_loss_pro_rata(bank: Bank, loss: int, shares_a: int, shares_b: int)
    requires
        bank.total_deposit_shares@ > 0,
        bank.covers(loss),
        shares_a >= 0,
        shares_b >= 0,
    ensures
        bank.share_value_after_loss(loss) matches Some(value) ==> {
            let a = (shares_a * value) / unit();
            let b = (shares_b * value) / unit();
            &&& value >= 0
            &&& -shares_b <= a * shares_b - b * shares_a <= shares_a
        },
{
    let remaining = bank.total_deposits()->0 - loss;
    crate::fixed_point::lemma_over_non_negative(remaining, bank.total_deposit_shares@);
    if bank.share_value_after_loss(loss) is Some {
        lemma_value_proportional_to_shares(
            bank.share_value_after_loss(loss)->0,
            shares_a,
            shares_b,
        );
    }
}

/// The three token vaults of a bank.
#[derive(Clone, Copy, Debug, PartialEq, Eq, Structural)]
pub enum BankVaultType {
    Liquidity,
    Insurance,
    Fee,
}

impl BankVaultType {
    /// The bytes of the seed from which the vault's address is derived.
    pub open spec fn seed(self) -> Seq<u8> {
        match self {
            BankVaultType::Liquidity => "liquidity_vault".spec_bytes(),
            BankVaultType::Insurance => "insurance_vault".spec_bytes(),
            BankVaultType::Fee => "fee_vault".spec_bytes(),
        }
    }

    /// The bytes of the seed from which the address of the vault's authority
    /// is derived.
    pub open spec fn authority_seed(self) -> Seq<u8> {
        match self {
            BankVaultType::Liquidity => "liquidity_vault_auth".spec_bytes(),
            BankVaultType::Insurance => "insurance_vault_auth".spec_bytes(),
            BankVaultType::Fee => "fee_vault_auth".spec_bytes(),
        }
    }

    /// The seed from which the vault's address is derived.
    pub fn get_seed(self) -> (seed: &'static [u8])
        ensures
            seed@ == self.seed(),
    {
        match self {
            BankVaultType::Liquidity => "liquidity_vault".as_bytes(),
            BankVaultType::Insurance => "insurance_vault".as_bytes(),
            BankVaultType::Fee => "fee_vault".as_bytes(),
        }
    }

    /// The seed from which the address of the vault's authority is derived.
    pub fn get_authority_seed(self) -> (seed: &'static [u8])
        ensures
            seed@ == self.authority_seed(),
    {
        match self {
            BankVaultType::Liquidity => "liquidity_vault_auth".as_bytes(),
            BankVaultType::Insurance => "insurance_vault_auth".as_bytes(),
            BankVaultType::Fee => "fee_vault_auth".as_bytes(),
        }
    }
}

} // verus!
