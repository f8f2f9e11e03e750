//! The option contract data model: an immutable value object holding the
//! instrument and market inputs, validated once at construction.

use vstd::prelude::*;

verus! {

/// Every real-valued quantity in this crate (prices, rates, volatilities,
/// times, discount factors) is a fixed-point `i64` counting millionths:
/// `1_000_000` stands for `1.0`.
pub const SCALE: i64 = 1_000_000;

/// Largest admissible spot or strike price: one million currency units.
/// A representational limit of the fixed-point encoding, so that every
/// product taken by the pricers stays well inside `i128`.
pub const MAX_AMOUNT: i64 = 1_000_000 * SCALE;

/// Largest admissible magnitude of the risk-free rate: 10.0, i.e. 1000% a year.
pub const MAX_RATE: i64 = 10 * SCALE;

/// Largest admissible volatility: 10.0, i.e. 1000% a year.
pub const MAX_VOLATILITY: i64 = 10 * SCALE;

/// Largest admissible maturity: one thousand years.
pub const MAX_MATURITY: i64 = 1_000 * SCALE;

/// Largest admissible discount factor handed to a pricer: 100.0.
pub const MAX_FACTOR: i64 = 100 * SCALE;

/// Payoff variant of a European option.
#[derive(Clone, Copy, Debug, PartialEq, Eq, Structural)]
pub enum OptionType {
    Call,
    Put,
}

/// A typed domain failure.  Every error is detected at the boundary of the
/// failing operation and surfaced immediately; none is coerced to a number.
#[derive(Clone, Copy, Debug, PartialEq, Eq, Structural)]
pub enum DomainError {
    /// A contract invariant was violated at construction time.
    InvalidContract,
    /// The closed form was asked to price a contract with zero volatility.
    DegenerateVolatility,
    /// The Monte Carlo pricer was given zero paths.
    InvalidPathCount,
}

/// The construction-time invariants of a contract: positive spot, strike and
/// maturity, non-negative volatility, and every field within the range the
/// fixed-point encoding can carry safely.
pub open spec fn params_valid(
    spot_price: int,
    strike_price: int,
    risk_free: int,
    volatility: int,
    maturity: int,
) -> bool {
    &&& 0 < spot_price <= MAX_AMOUNT
    &&& 0 < strike_price <= MAX_AMOUNT
    &&& -MAX_RATE <= risk_free <= MAX_RATE
    &&& 0 <= volatility <= MAX_VOLATILITY
    &&& 0 < maturity <= MAX_MATURITY
}

/// An immutable European option contract.  No partially-valid value is ever
/// produced by [`EuropeanOption::new`]; the pricers require [`Self::valid`].
#[derive(Clone, Copy, Debug, PartialEq, Eq, Structural)]
pub struct EuropeanOption {
    /// Current underlying price, in millionths of a currency unit; positive.
    pub spot_price: i64,
    /// Exercise price, in millionths of a currency unit; positive.
    pub strike_price: i64,
    /// Continuously-compounded annual rate, in millionths; may be negative.
    pub risk_free: i64,
    /// Annualized standard deviation of log-returns, in millionths; non-negative.
    pub volatility: i64,
    /// Time to expiry in years, in millionths; positive.
    pub maturity: i64,
    /// Payoff variant.
    pub option_type: OptionType,
}

impl EuropeanOption {
    /// The invariant of a well-formed contract.
    pub open spec fn valid(self) -> bool {
        params_valid(
            self.spot_price as int,
            self.strike_price as int,
            self.risk_free as int,
            self.volatility as int,
            self.maturity as int,
        )
    }

    /// Build a contract, all-or-nothing: the result is `Ok` exactly when the
    /// parameters satisfy every invariant of [`params_valid`], and the built
    /// value holds the parameters unchanged.
    pub fn new(
        spot_price: i64,
        strike_price: i64,
        risk_free: i64,
        volatility: i64,
        maturity: i64,
        option_type: OptionType,
    ) -> (r: Result<EuropeanOption, DomainError>)
        ensures
            params_valid(
                spot_price as int,
                strike_price as int,
                risk_free as int,
                volatility as int,
                maturity as int,
            ) ==> r == Ok::<EuropeanOption, DomainError>((EuropeanOption {
                spot_price,
                strike_price,
                risk_free,
                volatility,
                maturity,
                option_type,
            })),
            !params_valid(
                spot_price as int,
                strike_price as int,
                risk_free as int,
                volatility as int,
                maturity as int,
            ) ==> r == Err::<EuropeanOption, DomainError>(DomainError::InvalidContract),
    {
        if spot_price <= 0 || spot_price > MAX_AMOUNT {
            Err(DomainError::InvalidContract)
        } else if strike_price <= 0 || strike_price > MAX_AMOUNT {
            Err(DomainError::InvalidContract)
        } else if risk_free < -MAX_RATE || risk_free > MAX_RATE {
            Err(DomainError::InvalidContract)
        } else if volatility < 0 || volatility > MAX_VOLATILITY {
            Err(DomainError::InvalidContract)
        } else if maturity <= 0 || maturity > MAX_MATURITY {
            Err(DomainError::InvalidContract)
        } else {
            Ok(EuropeanOption {
                spot_price,
                strike_price,
                risk_free,
                volatility,
                maturity,
                option_type,
            })
        }
    }
}

} // verus!
