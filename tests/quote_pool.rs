use thus_saith::config::RawQuote;
use thus_saith::error::Error;
use thus_saith::number::Number;
use thus_saith::quote_pool::QuotePool;

fn quote(weight: Option<Number>, content: &str) -> RawQuote {
    RawQuote { weight, content: content.to_string() }
}

fn weighted(thousandths: i64, content: &str) -> RawQuote {
    quote(Some(Number::Finite(thousandths)), content)
}

fn contents(pool: &QuotePool) -> Vec<String> {
    (0..pool.len()).map(|i| pool.content(i).to_string()).collect()
}

fn weights(pool: &QuotePool) -> Vec<u64> {
    (0..pool.len()).map(|i| pool.weight(i)).collect()
}

#[test]
fn unweighted_quote_gets_the_average_weight() {
    let pool = QuotePool::try_from(vec![
        weighted(2000, "a"),
        weighted(6000, "b"),
        quote(None, "c"),
    ])
    .unwrap();
    // Effective weights are numerator / denominator thousandths: 2, 6 and 4.
    assert_eq!(pool.denominator(), 2);
    assert_eq!(weights(&pool), vec![4000, 12000, 8000]);
    assert_eq!(contents(&pool), vec!["a", "b", "c"]);
    assert_eq!(pool.total_weight(), 24000);
    // Draw probabilities 1/6, 1/2 and 1/3.
    assert_eq!(pool.weight(0) * 6, pool.total_weight());
    assert_eq!(pool.weight(1) * 2, pool.total_weight());
    assert_eq!(pool.weight(2) * 3, pool.total_weight());
}

#[test]
fn single_unweighted_quote_gets_weight_one() {
    let pool = QuotePool::try_from(vec![quote(None, "only")]).unwrap();
    assert_eq!(pool.len(), 1);
    assert_eq!(pool.denominator(), 1);
    assert_eq!(pool.weight(0), 1000);
    assert_eq!(pool.draw(), "only");
}

#[test]
fn unweighted_quotes_share_weight_one_when_no_weight_is_kept() {
    let pool = QuotePool::try_from(vec![
        weighted(0, "zero"),
        quote(None, "x"),
        quote(None, "y"),
    ])
    .unwrap();
    assert_eq!(weights(&pool), vec![1000, 1000]);
    assert_eq!(contents(&pool), vec!["x", "y"]);
    assert_eq!(pool.total_weight(), 2000);
}

#[test]
fn only_invalid_weights_give_no_valid_items() {
    let items = vec![
        weighted(0, "zero"),
        weighted(-1500, "negative"),
        quote(Some(Number::NaN), "nan"),
        quote(Some(Number::PosInfinity), "inf"),
        quote(Some(Number::NegInfinity), "-inf"),
    ];
    assert_eq!(QuotePool::try_from(items).err(), Some(Error::NoValidItems));
}

#[test]
fn empty_input_gives_no_valid_items() {
    assert_eq!(QuotePool::try_from(Vec::new()).err(), Some(Error::NoValidItems));
}

#[test]
fn invalid_weights_are_dropped_silently() {
    let pool = QuotePool::try_from(vec![
        weighted(-1000, "negative"),
        weighted(3000, "kept"),
        quote(Some(Number::NaN), "nan"),
        weighted(1000, "also kept"),
        quote(Some(Number::PosInfinity), "inf"),
    ])
    .unwrap();
    assert_eq!(contents(&pool), vec!["kept", "also kept"]);
    assert_eq!(pool.denominator(), 2);
    assert_eq!(weights(&pool), vec![6000, 2000]);
    assert_eq!(pool.total_weight(), 8000);
}

#[test]
fn total_is_the_sum_of_effective_weights() {
    let pool = QuotePool::try_from(vec![
        quote(None, "u1"),
        weighted(1000, "w1"),
        quote(None, "u2"),
        weighted(2500, "w2"),
        weighted(500, "w3"),
    ])
    .unwrap();
    // Kept weights first, then the unweighted ones, each in input order.
    assert_eq!(contents(&pool), vec!["w1", "w2", "w3", "u1", "u2"]);
    // Average of the kept weights is 4000 / 3 thousandths.
    assert_eq!(pool.denominator(), 3);
    assert_eq!(weights(&pool), vec![3000, 7500, 1500, 4000, 4000]);
    let sum: u64 = weights(&pool).iter().sum();
    assert_eq!(pool.total_weight(), sum);
}

#[test]
fn total_over_the_limit_is_weight_overflow() {
    let items = vec![weighted(i64::MAX, "a"), weighted(i64::MAX, "b")];
    assert_eq!(QuotePool::try_from(items).err(), Some(Error::WeightOverflow));
    let items = vec![
        weighted(i64::MAX, "a"),
        weighted(i64::MAX, "b"),
        weighted(i64::MAX, "c"),
    ];
    assert_eq!(QuotePool::try_from(items).err(), Some(Error::WeightOverflow));
}

#[test]
fn largest_total_that_fits_is_accepted() {
    let pool = QuotePool::try_from(vec![weighted(i64::MAX, "a")]).unwrap();
    assert_eq!(pool.weight(0), i64::MAX as u64);
    assert_eq!(pool.draw(), "a");
}

#[test]
fn building_twice_gives_identical_pools() {
    let make = || {
        vec![
            weighted(2000, "a"),
            quote(None, "b"),
            weighted(-3, "c"),
            weighted(7000, "d"),
        ]
    };
    let first = QuotePool::try_from(make()).unwrap();
    let second = QuotePool::try_from(make()).unwrap();
    assert_eq!(weights(&first), weights(&second));
    assert_eq!(contents(&first), contents(&second));
    assert_eq!(first.denominator(), second.denominator());
}

#[test]
fn draws_converge_to_the_weights() {
    let pool = QuotePool::try_from(vec![
        weighted(2000, "a"),
        weighted(6000, "b"),
        quote(None, "c"),
    ])
    .unwrap();
    let draws = 120_000;
    let mut counts = [0u32; 3];
    for _ in 0..draws {
        match pool.draw() {
            "a" => counts[0] += 1,
            "b" => counts[1] += 1,
            "c" => counts[2] += 1,
            other => panic!("unexpected draw {other}"),
        }
    }
    let expected = [1.0 / 6.0, 1.0 / 2.0, 1.0 / 3.0];
    for k in 0..3 {
        let freq = counts[k] as f64 / draws as f64;
        assert!((freq - expected[k]).abs() < 0.01, "item {k}: {freq}");
    }
}

#[test]
fn draw_never_returns_a_dropped_quote() {
    let pool = QuotePool::try_from(vec![
        weighted(0, "zero"),
        weighted(1000, "one"),
        weighted(-1000, "negative"),
    ])
    .unwrap();
    for _ in 0..1000 {
        assert_eq!(pool.draw(), "one");
    }
}
