//! The closed-form Black-Scholes pricer.
//!
//! The transcendental pieces of the formula — the standard normal CDF values
//! `N(d+)` and `N(d-)` and the discount factor `exp(-r*T)` — are plain
//! fixed-point inputs supplied by the caller.  The combination
//! `spot * N(d+) - strike * discount * N(d-)` (and its put counterpart) is
//! exact integer arithmetic and is verified here.

use vstd::prelude::*;
use crate::contract::DomainError;
use crate::contract::EuropeanOption;
use crate::contract::MAX_FACTOR;
use crate::contract::OptionType;
use crate::contract::SCALE;

verus! {

/// A fixed-point probability: a CDF value lies in `[0, 1]`, so its
/// fixed-point image lies in `[0, SCALE]`.
pub open spec fn cdf_value(n: int) -> bool {
    0 <= n <= SCALE
}

/// The strike discounted to present value, at fixed-point scale:
/// `strike * discount / SCALE` (both factors positive, so the Euclidean
/// quotient is the rounded-down product).
pub open spec fn discounted_strike(strike: int, discount: int) -> int {
    (strike * discount) / (SCALE as int)
}

/// The Black-Scholes combination at numerator scale, i.e. the price times
/// `SCALE`.  `kd` is the discounted strike, `n_plus` and `n_minus` the
/// fixed-point images of `N(d+)` and `N(d-)`; `SCALE - n` stands for the
/// complement `N(-d) = 1 - N(d)`.
pub open spec fn closed_form_numer(
    kind: OptionType,
    spot: int,
    kd: int,
    n_plus: int,
    n_minus: int,
) -> int {
    match kind {
        OptionType::Call => spot * n_plus - kd * n_minus,
        OptionType::Put => kd * (SCALE - n_minus) - spot * (SCALE - n_plus),
    }
}

/// Division by `SCALE` rounded toward zero (the direction the executable
/// code rounds a possibly-negative numerator).
pub open spec fn div_scale(n: int) -> int {
    if n >= 0 {
        n / (SCALE as int)
    } else {
        -((-n) / (SCALE as int))
    }
}

/// The closed-form price of a contract, as a function of the contract
/// fields and the supplied CDF values and discount factor.
pub open spec fn closed_form_price(
    kind: OptionType,
    spot: int,
    strike: int,
    discount: int,
    n_plus: int,
    n_minus: int,
) -> int {
    div_scale(closed_form_numer(kind, spot, discounted_strike(strike, discount), n_plus, n_minus))
}

impl EuropeanOption {
    /// Price the contract with the closed-form Black-Scholes formula.
    ///
    /// `n_d_plus` and `n_d_minus` are the fixed-point values of `N(d+)` and
    /// `N(d-)` for this contract, and `discount` the fixed-point value of
    /// `exp(-risk_free * maturity)`; the caller computes them.  The result
    /// is deterministic: it is pinned to [`closed_form_price`], a pure
    /// function of the arguments.  A zero-volatility contract has no defined
    /// closed-form price (the formula divides by `volatility * sqrt(maturity)`)
    /// and fails with [`DomainError::DegenerateVolatility`]; the CDF inputs
    /// are ignored in that case.  No other input fails.
    pub fn price_bs(&self, n_d_plus: i64, n_d_minus: i64, discount: i64) -> (r: Result<
        i64,
        DomainError,
    >)
        requires
            self.valid(),
            cdf_value(n_d_plus as int),
            cdf_value(n_d_minus as int),
            0 < discount <= MAX_FACTOR,
        ensures
            self.volatility == 0 ==> r == Err::<i64, DomainError>(
                DomainError::DegenerateVolatility,
            ),
            self.volatility != 0 ==> (r matches Ok(p) && p as int == closed_form_price(
                self.option_type,
                self.spot_price as int,
                self.strike_price as int,
                discount as int,
                n_d_plus as int,
                n_d_minus as int,
            )),
    {
        if self.volatility == 0 {
            return Err(DomainError::DegenerateVolatility);
        }
        let spot: i128 = self.spot_price as i128;
        let strike: i128 = self.strike_price as i128;
        let disc: i128 = discount as i128;
        let np: i128 = n_d_plus as i128;
        let nm: i128 = n_d_minus as i128;
        let s: i128 = SCALE as i128;

        assert(0 < strike * disc <= 100_000_000_000_000_000_000i128) by (nonlinear_arith)
            requires
                0 < strike <= 1_000_000_000_000i128,
                0 < disc <= 100_000_000i128,
        ;
        let kd: i128 = (strike * disc) / s;
        assert(0 <= kd <= 100_000_000_000_000i128) by {
            vstd::arithmetic::div_mod::lemma_div_is_ordered(
                strike * disc,
                100_000_000_000_000_000_000int,
                SCALE as int,
            );
            vstd::arithmetic::div_mod::lemma_div_pos_is_pos(strike * disc, SCALE as int);
        }

        assert(0 <= spot * np <= 1_000_000_000_000_000_000i128) by (nonlinear_arith)
            requires
                0 < spot <= 1_000_000_000_000i128,
                0 <= np <= 1_000_000i128,
        ;
        assert(0 <= spot * (s - np) <= 1_000_000_000_000_000_000i128) by (nonlinear_arith)
            requires
                0 < spot <= 1_000_000_000_000i128,
                0 <= np <= s,
                s == 1_000_000i128,
        ;
        assert(0 <= kd * nm <= 100_000_000_000_000_000_000i128) by (nonlinear_arith)
            requires
                0 <= kd <= 100_000_000_000_000i128,
                0 <= nm <= 1_000_000i128,
        ;
        assert(0 <= kd * (s - nm) <= 100_000_000_000_000_000_000i128) by (nonlinear_arith)
            requires
                0 <= kd <= 100_000_000_000_000i128,
                0 <= nm <= s,
                s == 1_000_000i128,
        ;

        let numer: i128 = match self.option_type {
            OptionType::Call => spot * np - kd * nm,
            OptionType::Put => kd * (s - nm) - spot * (s - np),
        };

        let magnitude: i128 = if numer >= 0 {
            numer
        } else {
            -numer
        };
        let quotient: i128 = magnitude / s;
        assert(0 <= quotient <= 200_000_000_000_000i128) by {
            vstd::arithmetic::div_mod::lemma_div_is_ordered(
                magnitude as int,
                200_000_000_000_000_000_000int,
                SCALE as int,
            );
            vstd::arithmetic::div_mod::lemma_div_pos_is_pos(magnitude as int, SCALE as int);
        }
        let price: i128 = if numer >= 0 {
            quotient
        } else {
            -quotient
        };
        Ok(price as i64)
    }
}

/// Law: the closed-form price is deterministic.  Two contracts holding
/// identical parameters, evaluated with identical CDF values and discount
/// factor, price identically: the price is a pure function of those inputs,
/// which [`EuropeanOption::price_bs`] pins its result to.
pub proof fn lemma_price_bs_deterministic(
    a: EuropeanOption,
    b: EuropeanOption,
    n_plus: int,
    n_minus: int,
    discount: int,
)
    requires
        a == b,
    ensures
        closed_form_price(
            a.option_type,
            a.spot_price as int,
            a.strike_price as int,
            discount,
            n_plus,
            n_minus,
        ) == closed_form_price(
            b.option_type,
            b.spot_price as int,
            b.strike_price as int,
            discount,
            n_plus,
            n_minus,
        ),
{
}

/// Rounding the numerator to price scale moves it by less than one
/// fixed-point unit: `SCALE * div_scale(n)` lies within `SCALE` of `n`.
proof fn lemma_div_scale_close(n: int)
    ensures
        n - SCALE < (SCALE as int) * div_scale(n) < n + SCALE,
{
    if n >= 0 {
        vstd::arithmetic::div_mod::lemma_fundamental_div_mod(n, SCALE as int);
        vstd::arithmetic::div_mod::lemma_mod_division_less_than_divisor(n, SCALE as int);
    } else {
        vstd::arithmetic::div_mod::lemma_fundamental_div_mod(-n, SCALE as int);
        vstd::arithmetic::div_mod::lemma_mod_division_less_than_divisor(-n, SCALE as int);
    }
}

/// Law: put-call parity at numerator scale, exactly.  With the discounted
/// strike `kd`, the call and put numerators built from the same inputs
/// differ by `(spot - kd) * SCALE`: the fixed-point image of
/// `Call - Put == spot - strike * exp(-risk_free * maturity)`.
pub proof fn lemma_put_call_parity_numer(spot: int, kd: int, n_plus: int, n_minus: int)
    ensures
        closed_form_numer(OptionType::Call, spot, kd, n_plus, n_minus) - closed_form_numer(
            OptionType::Put,
            spot,
            kd,
            n_plus,
            n_minus,
        ) == (spot - kd) * SCALE,
{
    assert(spot * n_plus - kd * n_minus - (kd * ((SCALE as int) - n_minus) - spot * ((
    SCALE as int) - n_plus)) == (spot - kd) * (SCALE as int)) by (nonlinear_arith);
}

/// Law: put-call parity at price scale.  For any inputs, the call price and
/// the put price built from the same spot, strike, discount factor and CDF
/// values satisfy `Call - Put == spot - discounted_strike` up to one
/// fixed-point rounding unit on each side.
pub proof fn lemma_put_call_parity(
    spot: int,
    strike: int,
    discount: int,
    n_plus: int,
    n_minus: int,
)
    ensures
        crate::convergence::abs_int(
            closed_form_price(OptionType::Call, spot, strike, discount, n_plus, n_minus)
                - closed_form_price(OptionType::Put, spot, strike, discount, n_plus, n_minus) - (
            spot - discounted_strike(strike, discount)),
        ) <= 1,
{
    let s = SCALE as int;
    let kd = discounted_strike(strike, discount);
    let cn = closed_form_numer(OptionType::Call, spot, kd, n_plus, n_minus);
    let pn = closed_form_numer(OptionType::Put, spot, kd, n_plus, n_minus);
    lemma_put_call_parity_numer(spot, kd, n_plus, n_minus);
    lemma_div_scale_close(cn);
    lemma_div_scale_close(pn);
    assert(s * (div_scale(cn) - div_scale(pn)) == s * div_scale(cn) - s * div_scale(pn))
        by (nonlinear_arith);
    assert((spot - kd) * s == s * (spot - kd)) by (nonlinear_arith);
    assert(s * (div_scale(cn) - div_scale(pn) - (spot - kd)) == s * (div_scale(cn) - div_scale(pn))
        - s * (spot - kd)) by (nonlinear_arith);
    let gap = div_scale(cn) - div_scale(pn) - (spot - kd);
    assert(-2 * s < s * gap < 2 * s);
    assert(-2 < gap < 2) by (nonlinear_arith)
        requires
            -2 * s < s * gap < 2 * s,
            s == 1_000_000int,
    ;
}

} // verus!
