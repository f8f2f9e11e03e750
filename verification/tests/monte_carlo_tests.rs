use option_pricing::contract::DomainError;
use option_pricing::contract::EuropeanOption;
use option_pricing::contract::OptionType;
use option_pricing::contract::SCALE;
use option_pricing::monte_carlo::payoff;
use rand::rngs::StdRng;
use rand::RngExt;
use rand::SeedableRng;
use rand_distr::StandardNormal;
use statrs::distribution::ContinuousCDF;
use statrs::distribution::Normal;

fn to_fp(x: f64) -> i64 {
    (x * 1_000_000.0).round() as i64
}

/// Draw `n` terminal underlying prices under the risk-neutral model from a
/// seeded generator, as fixed-point values.
fn draw_terminals(
    spot: f64,
    risk_free: f64,
    volatility: f64,
    maturity: f64,
    n: usize,
    seed: u64,
) -> Vec<i64> {
    let drift = (risk_free - 0.5 * volatility * volatility) * maturity;
    let diffusion = volatility * maturity.sqrt();
    let mut rng = StdRng::seed_from_u64(seed);
    (0..n)
        .map(|_| {
            let z: f64 = rng.sample(StandardNormal);
            to_fp(spot * (drift + diffusion * z).exp())
        })
        .collect()
}

fn reference_contract(kind: OptionType) -> EuropeanOption {
    EuropeanOption::new(100 * SCALE, 100 * SCALE, 50_000, 200_000, SCALE, kind).unwrap()
}

fn closed_form_reference() -> i64 {
    let n = Normal::new(0.0, 1.0).unwrap();
    let d_plus = (0.05 + 0.02) / 0.2;
    let d_minus = d_plus - 0.2;
    let c = reference_contract(OptionType::Call);
    c.price_bs(
        to_fp(n.cdf(d_plus)),
        to_fp(n.cdf(d_minus)),
        to_fp((-0.05f64).exp()),
    )
    .unwrap()
}

#[test]
fn empty_batch_is_invalid_path_count() {
    let c = reference_contract(OptionType::Call);
    let none: Vec<i64> = Vec::new();
    assert_eq!(
        c.price_mc(&none, to_fp((-0.05f64).exp())),
        Err(DomainError::InvalidPathCount)
    );
}

#[test]
fn exact_mean_of_a_small_batch() {
    // Put, strike 100: terminals 90 and 110 pay 10 and 0; the discounted
    // mean at discount 1.0 is exactly 5.
    let c = EuropeanOption::new(100 * SCALE, 100 * SCALE, 0, 200_000, SCALE, OptionType::Put)
        .unwrap();
    let terminals = vec![90 * SCALE, 110 * SCALE];
    assert_eq!(c.price_mc(&terminals, SCALE), Ok(5 * SCALE));
}

#[test]
fn payoff_values() {
    assert_eq!(payoff(OptionType::Call, 100 * SCALE, 110 * SCALE), 10 * SCALE);
    assert_eq!(payoff(OptionType::Call, 100 * SCALE, 90 * SCALE), 0);
    assert_eq!(payoff(OptionType::Put, 100 * SCALE, 90 * SCALE), 10 * SCALE);
    assert_eq!(payoff(OptionType::Put, 100 * SCALE, 110 * SCALE), 0);
}

#[test]
fn estimate_converges_to_closed_form() {
    // The estimate is expected to tighten as the path count grows; at a
    // million paths it should land within 0.05 of the analytic price.
    let c = reference_contract(OptionType::Call);
    let discount = to_fp((-0.05f64).exp());
    let analytic = closed_form_reference();

    let small = draw_terminals(100.0, 0.05, 0.2, 1.0, 1_000, 42);
    let rough = c.price_mc(&small, discount).unwrap();
    assert!((rough - analytic).abs() < 2_000_000, "rough estimate {rough}");

    let large = draw_terminals(100.0, 0.05, 0.2, 1.0, 1_000_000, 42);
    let fine = c.price_mc(&large, discount).unwrap();
    assert!((fine - analytic).abs() < 50_000, "fine estimate {fine}");
}

#[test]
fn reduction_is_invariant_under_worker_split() {
    // The same seeded draws, reduced in one batch or split among eight
    // chunks whose partial sums are then combined, give the same price.
    let c = reference_contract(OptionType::Call);
    let discount = to_fp((-0.05f64).exp());
    let terminals = draw_terminals(100.0, 0.05, 0.2, 1.0, 80_000, 7);

    let whole = c.price_mc(&terminals, discount).unwrap();

    let mut total: i128 = 0;
    for chunk in terminals.chunks(terminals.len() / 8) {
        let mut partial: i128 = 0;
        for &t in chunk {
            partial += payoff(OptionType::Call, 100 * SCALE, t) as i128;
        }
        total += partial;
    }
    let mean = total / terminals.len() as i128;
    let split_price = ((discount as i128 * mean) / SCALE as i128) as i64;
    assert_eq!(whole, split_price);
}
