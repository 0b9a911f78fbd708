use rand::Rng;
use rand_distr::LogNormal;
use thus_saith::error::{Error, ValueError};
use thus_saith::number::Number;
use thus_saith::pacing::{variance_ratio, Mean, Stddev};

#[test]
fn invalid_means_are_refused() {
    assert_eq!(
        Mean::try_from(Number::Finite(0)).err(),
        Some(Error::InvalidParameter(ValueError::IsZero))
    );
    assert_eq!(
        Mean::try_from(Number::Finite(-1000)).err(),
        Some(Error::InvalidParameter(ValueError::IsNegative))
    );
    assert_eq!(
        Mean::try_from(Number::NaN).err(),
        Some(Error::InvalidParameter(ValueError::IsNaN))
    );
    assert_eq!(
        Mean::try_from(Number::PosInfinity).err(),
        Some(Error::InvalidParameter(ValueError::IsInfinite))
    );
}

#[test]
fn invalid_spreads_are_refused() {
    assert_eq!(
        Stddev::try_from(Number::Finite(-1000)).err(),
        Some(Error::InvalidParameter(ValueError::IsNegative))
    );
    assert_eq!(
        Stddev::try_from(Number::NaN).err(),
        Some(Error::InvalidParameter(ValueError::IsNaN))
    );
    assert_eq!(
        Stddev::try_from(Number::NegInfinity).err(),
        Some(Error::InvalidParameter(ValueError::IsInfinite))
    );
}

#[test]
fn valid_parameters_are_kept() {
    assert_eq!(Mean::try_from(Number::Finite(100_000)).unwrap().value(), 100_000);
    assert_eq!(Stddev::try_from(Number::Finite(0)).unwrap().value(), 0);
    assert_eq!(Stddev::try_from(Number::Finite(30_000)).unwrap().value(), 30_000);
}

#[test]
fn zero_spread_gives_ratio_one() {
    let mean = Mean::try_from(Number::Finite(100_000)).unwrap();
    let spread = Stddev::try_from(Number::Finite(0)).unwrap();
    let (num, den) = variance_ratio(mean, spread);
    assert_eq!(num, den);
    assert_eq!(den, 10_000_000_000);
}

#[test]
fn ratio_is_spread_squared_over_mean_squared_plus_one() {
    let mean = Mean::try_from(Number::Finite(100_000)).unwrap();
    let spread = Stddev::try_from(Number::Finite(30_000)).unwrap();
    let (num, den) = variance_ratio(mean, spread);
    assert_eq!(num, 30_000u128 * 30_000 + 100_000u128 * 100_000);
    assert_eq!(den, 100_000u128 * 100_000);
    // 0.3² + 1 = 1.09
    assert_eq!(num * 100, den * 109);
}

#[test]
fn largest_parameters_do_not_overflow() {
    let mean = Mean::try_from(Number::Finite(i64::MAX)).unwrap();
    let spread = Stddev::try_from(Number::Finite(i64::MAX)).unwrap();
    let (num, den) = variance_ratio(mean, spread);
    assert_eq!(num, 2 * den);
}

#[test]
fn zero_spread_samples_equal_the_mean() {
    let mean = Mean::try_from(Number::Finite(100_000)).unwrap();
    let spread = Stddev::try_from(Number::Finite(0)).unwrap();
    let (num, den) = variance_ratio(mean, spread);
    let sigma_sq = (num as f64 / den as f64).ln();
    assert_eq!(sigma_sq, 0.0);
    let mu = (mean.value() as f64 / 1000.0).ln() - 0.5 * sigma_sq;
    let distr = LogNormal::new(mu, sigma_sq.sqrt()).unwrap();
    let mut rng = rand::rng();
    for _ in 0..1000 {
        let sample: f64 = rng.sample(distr);
        assert!((sample - 100.0).abs() < 1e-9, "sample {sample}");
    }
}
