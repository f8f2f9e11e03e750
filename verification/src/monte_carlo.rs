//! The Monte Carlo pricer: the discounted sample mean of simulated payoffs.
//!
//! The caller draws the terminal underlying prices (one per independent
//! path, under the risk-neutral model) and hands them over as plain
//! fixed-point values; the payoff of each path, the reduction to a sample
//! mean and the discounting are exact integer arithmetic and are verified
//! here.  The payoff sum is proved invariant under how the paths are split
//! into chunks, so a caller may fan the paths out across workers in any
//! partition and order and reduce the partial sums.

use vstd::prelude::*;
use crate::contract::DomainError;
use crate::contract::EuropeanOption;
use crate::contract::MAX_AMOUNT;
use crate::contract::MAX_FACTOR;
use crate::contract::OptionType;
use crate::contract::SCALE;

verus! {

/// The undiscounted payoff of one path: `max(terminal - strike, 0)` for a
/// call, `max(strike - terminal, 0)` for a put.
pub open spec fn spec_payoff(kind: OptionType, strike: int, terminal: int) -> int {
    match kind {
        OptionType::Call => if terminal > strike {
            terminal - strike
        } else {
            0
        },
        OptionType::Put => if strike > terminal {
            strike - terminal
        } else {
            0
        },
    }
}

/// The sum of the payoffs of a sequence of terminal prices.
pub open spec fn sum_payoffs(kind: OptionType, strike: int, prices: Seq<i64>) -> int
    decreases prices.len(),
{
    if prices.len() == 0 {
        0
    } else {
        sum_payoffs(kind, strike, prices.drop_last()) + spec_payoff(
            kind,
            strike,
            prices.last() as int,
        )
    }
}

/// The Monte Carlo price of a non-empty batch of paths: the discounted
/// sample mean `discount * (sum / count) / SCALE`, every quotient rounded
/// down (all quantities are non-negative).
pub open spec fn monte_carlo_price(
    kind: OptionType,
    strike: int,
    prices: Seq<i64>,
    discount: int,
) -> int {
    (discount * (sum_payoffs(kind, strike, prices) / prices.len() as int)) / (SCALE as int)
}

/// The payoff of one path, exactly [`spec_payoff`].
pub fn payoff(kind: OptionType, strike: i64, terminal: i64) -> (r: i64)
    requires
        0 < strike <= MAX_AMOUNT,
        0 <= terminal <= MAX_AMOUNT,
    ensures
        r == spec_payoff(kind, strike as int, terminal as int),
        0 <= r <= MAX_AMOUNT,
{
    match kind {
        OptionType::Call => if terminal > strike {
            terminal - strike
        } else {
            0
        },
        OptionType::Put => if strike > terminal {
            strike - terminal
        } else {
            0
        },
    }
}

/// Law: the payoff sum is invariant under partitioning.  Summing two chunks
/// of paths separately and adding the partial sums equals summing the
/// concatenation, so the reduction gives one value whatever the worker
/// count, split or order of the chunks.
pub proof fn lemma_sum_payoffs_split(kind: OptionType, strike: int, a: Seq<i64>, b: Seq<i64>)
    ensures
        sum_payoffs(kind, strike, a + b) == sum_payoffs(kind, strike, a) + sum_payoffs(
            kind,
            strike,
            b,
        ),
    decreases b.len(),
{
    if b.len() == 0 {
        assert(a + b =~= a);
    } else {
        lemma_sum_payoffs_split(kind, strike, a, b.drop_last());
        assert((a + b).drop_last() =~= a + b.drop_last());
    }
}

impl EuropeanOption {
    /// Price the contract from a batch of simulated terminal prices.
    ///
    /// Each element of `terminal_prices` is the fixed-point terminal
    /// underlying price of one independent path; `discount` is the
    /// fixed-point value of `exp(-risk_free * maturity)`.  An empty batch is
    /// zero paths, whose mean is undefined: the call fails with
    /// [`DomainError::InvalidPathCount`].  For a non-empty batch the result
    /// is exactly [`monte_carlo_price`]: the discounted sample mean of the
    /// per-path payoffs.  No other input fails.
    pub fn price_mc(&self, terminal_prices: &Vec<i64>, discount: i64) -> (r: Result<
        i64,
        DomainError,
    >)
        requires
            self.valid(),
            0 < discount <= MAX_FACTOR,
            forall|i: int|
                0 <= i < terminal_prices@.len() ==> 0 <= #[trigger] terminal_prices@[i]
                    <= MAX_AMOUNT,
        ensures
            terminal_prices@.len() == 0 ==> r == Err::<i64, DomainError>(
                DomainError::InvalidPathCount,
            ),
            terminal_prices@.len() > 0 ==> (r matches Ok(p) && p as int == monte_carlo_price(
                self.option_type,
                self.strike_price as int,
                terminal_prices@,
                discount as int,
            )),
    {
        let n: usize = terminal_prices.len();
        if n == 0 {
            return Err(DomainError::InvalidPathCount);
        }
        let mut sum: i128 = 0;
        let mut i: usize = 0;
        while i < n
            invariant
                0 < n == terminal_prices@.len(),
                0 <= i <= n,
                self.valid(),
                forall|j: int|
                    0 <= j < terminal_prices@.len() ==> 0 <= #[trigger] terminal_prices@[j]
                        <= MAX_AMOUNT,
                sum == sum_payoffs(
                    self.option_type,
                    self.strike_price as int,
                    terminal_prices@.take(i as int),
                ),
                0 <= sum <= i as int * (MAX_AMOUNT as int),
            decreases n - i,
        {
            let p: i64 = payoff(self.option_type, self.strike_price, terminal_prices[i]);
            proof {
                assert(terminal_prices@.take(i as int + 1).drop_last() =~= terminal_prices@.take(
                    i as int,
                ));
                assert((i as int + 1) * (MAX_AMOUNT as int) == i as int * (MAX_AMOUNT as int) + (
                MAX_AMOUNT as int)) by (nonlinear_arith);
                assert((i as int + 1) * (MAX_AMOUNT as int)
                    <= 100_000_000_000_000_000_000_000_000_000_000int) by (nonlinear_arith)
                    requires
                        0 <= i as int + 1 <= 18_446_744_073_709_551_616int,
                ;
            }
            sum = sum + p as i128;
            i = i + 1;
        }
        proof {
            assert(terminal_prices@.take(n as int) =~= terminal_prices@);
        }
        let count: i128 = n as i128;
        let mean: i128 = sum / count;
        assert(0 <= mean <= MAX_AMOUNT as int) by {
            vstd::arithmetic::div_mod::lemma_div_pos_is_pos(sum as int, count as int);
            vstd::arithmetic::div_mod::lemma_div_is_ordered(
                sum as int,
                count as int * (MAX_AMOUNT as int),
                count as int,
            );
            vstd::arithmetic::div_mod::lemma_div_multiples_vanish(MAX_AMOUNT as int, count as int);
        }
        let disc: i128 = discount as i128;
        assert(0 <= disc * mean <= 100_000_000_000_000_000_000i128) by (nonlinear_arith)
            requires
                0 < disc <= 100_000_000i128,
                0 <= mean <= 1_000_000_000_000i128,
        ;
        let price: i128 = (disc * mean) / (SCALE as i128);
        assert(0 <= price <= 100_000_000_000_000i128) by {
            vstd::arithmetic::div_mod::lemma_div_pos_is_pos(disc * mean, SCALE as int);
            vstd::arithmetic::div_mod::lemma_div_is_ordered(
                disc * mean,
                100_000_000_000_000_000_000int,
                SCALE as int,
            );
        }
        Ok(price as i64)
    }
}

} // verus!
