use crate::config::RawQuote;
use crate::error::Error;
use crate::number::Number;
use crate::random::{draw_weights, sample_index, thread_rng, weight_total, weighted_draw};
use vstd::prelude::*;

verus! {

/// A weight of one, in thousandths: what each unweighted quote gets when no
/// weighted quote survives.
pub const UNIT_WEIGHT: u64 = 1000;

/// A weight that the pool keeps: present, finite and above zero.
pub open spec fn is_usable(q: RawQuote) -> bool {
    q.weight matches Some(Number::Finite(v)) && v > 0
}

/// The value of a present, finite weight; zero otherwise.
pub open spec fn weight_of(q: RawQuote) -> int {
    match q.weight {
        Some(Number::Finite(v)) => v as int,
        _ => 0,
    }
}

/// The quotes whose own weight is kept, in order.
pub open spec fn survivors(items: Seq<RawQuote>) -> Seq<RawQuote>
    decreases items.len(),
{
    if items.len() == 0 {
        Seq::empty()
    } else if is_usable(items.last()) {
        survivors(items.drop_last()).push(items.last())
    } else {
        survivors(items.drop_last())
    }
}

/// The quotes without a weight, in order.
pub open spec fn unweighted(items: Seq<RawQuote>) -> Seq<RawQuote>
    decreases items.len(),
{
    if items.len() == 0 {
        Seq::empty()
    } else if items.last().weight is None {
        unweighted(items.drop_last()).push(items.last())
    } else {
        unweighted(items.drop_last())
    }
}

/// The sum of the kept weights, in thousandths.
pub open spec fn usable_sum(items: Seq<RawQuote>) -> int
    decreases items.len(),
{
    if items.len() == 0 {
        0
    } else if is_usable(items.last()) {
        usable_sum(items.drop_last()) + weight_of(items.last())
    } else {
        usable_sum(items.drop_last())
    }
}

/// The common denominator of the effective weights: the number of kept
/// weights, so that their average is a whole number of units.
pub open spec fn denominator(items: Seq<RawQuote>) -> int {
    if survivors(items).len() > 0 {
        survivors(items).len() as int
    } else {
        1
    }
}

/// The numerator given to each unweighted quote: the average of the kept
/// weights, or one when none is kept.
pub open spec fn synthetic_numerator(items: Seq<RawQuote>) -> int {
    if survivors(items).len() > 0 {
        usable_sum(items)
    } else {
        UNIT_WEIGHT as int
    }
}

/// The numerators of the effective weights: kept weights first, in order,
/// then one synthetic weight per unweighted quote.
pub open spec fn expected_weights(items: Seq<RawQuote>) -> Seq<int> {
    survivors(items).map_values(|q: RawQuote| weight_of(q) * denominator(items)) + Seq::new(
        unweighted(items).len(),
        |k: int| synthetic_numerator(items),
    )
}

/// The contents of the pool, in the order of `expected_weights`.
pub open spec fn expected_contents(items: Seq<RawQuote>) -> Seq<Seq<char>> {
    survivors(items).map_values(|q: RawQuote| q.content@) + unweighted(items).map_values(
        |q: RawQuote| q.content@,
    )
}

/// The sum of the numerators of the effective weights.
pub open spec fn expected_total(items: Seq<RawQuote>) -> int {
    usable_sum(items) * denominator(items) + unweighted(items).len() * synthetic_numerator(items)
}

/// Why building a pool from `items` fails, if it does.
pub open spec fn build_error(items: Seq<RawQuote>) -> Option<Error> {
    if survivors(items).len() == 0 && unweighted(items).len() == 0 {
        Some(Error::NoValidItems)
    } else if expected_total(items) > u64::MAX {
        Some(Error::WeightOverflow)
    } else {
        None
    }
}

proof fn lemma_usable_sum_prefix(items: Seq<RawQuote>, i: int)
    requires
        0 <= i <= items.len(),
    ensures
        0 <= usable_sum(items.take(i)) <= usable_sum(items),
    decreases items.len(),
{
    if i == items.len() {
        assert(items.take(i) =~= items);
        lemma_usable_sum_nonneg(items);
    } else {
        lemma_usable_sum_prefix(items.drop_last(), i);
        assert(items.drop_last().take(i) =~= items.take(i));
    }
}

proof fn lemma_usable_sum_nonneg(items: Seq<RawQuote>)
    ensures
        usable_sum(items) >= survivors(items).len(),
    decreases items.len(),
{
    if items.len() > 0 {
        lemma_usable_sum_nonneg(items.drop_last());
    }
}

proof fn lemma_take_step(items: Seq<RawQuote>, i: int)
    requires
        0 <= i < items.len(),
    ensures
        items.take(i + 1).drop_last() =~= items.take(i),
        items.take(i + 1).last() == items[i],
{
}

proof fn lemma_unweighted_prefix(items: Seq<RawQuote>, i: int)
    requires
        0 <= i <= items.len(),
    ensures
        unweighted(items.take(i)).len() <= unweighted(items).len(),
    decreases items.len(),
{
    if i == items.len() {
        assert(items.take(i) =~= items);
    } else {
        lemma_unweighted_prefix(items.drop_last(), i);
        assert(items.drop_last().take(i) =~= items.take(i));
    }
}

/// The sum of a sequence of integers.
pub open spec fn int_sum(s: Seq<int>) -> int
    decreases s.len(),
{
    if s.len() == 0 {
        0
    } else {
        int_sum(s.drop_last()) + s.last()
    }
}

proof fn lemma_int_sum_of_u64(w: Seq<u64>)
    ensures
        int_sum(w.map_values(|x: u64| x as int)) == weight_total(w),
    decreases w.len(),
{
    if w.len() > 0 {
        lemma_int_sum_of_u64(w.drop_last());
        assert(w.map_values(|x: u64| x as int).drop_last() =~= w.drop_last().map_values(
            |x: u64| x as int,
        ));
    }
}

proof fn lemma_total_at_least_len(w: Seq<u64>)
    requires
        forall|k: int| 0 <= k < w.len() ==> w[k] > 0,
    ensures
        weight_total(w) >= w.len(),
    decreases w.len(),
{
    if w.len() > 0 {
        lemma_total_at_least_len(w.drop_last());
    }
}

/// A non-empty pool of quotes with positive weights whose sum fits a `u64`.
///
/// Effective weight `i` is `weights[i] / denominator` thousandths; the
/// probability of drawing quote `i` is `weights[i] / total`.
pub struct QuotePool {
    weights: Vec<u64>,
    contents: Vec<String>,
    denominator: u64,
    total: u64,
}

impl QuotePool {
    #[verifier::type_invariant]
    spec fn inv(self) -> bool {
        &&& self.weights@.len() > 0
        &&& self.contents@.len() == self.weights@.len()
        &&& forall|k: int| 0 <= k < self.weights@.len() ==> self.weights@[k] > 0
        &&& weight_total(self.weights@) == self.total
        &&& self.denominator > 0
    }

    /// The numerators of the effective weights.
    pub closed spec fn weight_seq(&self) -> Seq<int> {
        self.weights@.map_values(|w: u64| w as int)
    }

    pub closed spec fn content_seq(&self) -> Seq<Seq<char>> {
        self.contents@.map_values(|s: String| s@)
    }

    pub closed spec fn denominator_spec(&self) -> int {
        self.denominator as int
    }

    pub closed spec fn total_spec(&self) -> int {
        self.total as int
    }

    /// Builds a pool from raw quotes.
    ///
    /// A present weight that is zero, negative, infinite or NaN drops its
    /// quote. Each quote without a weight gets the average of the kept
    /// weights, or one when none is kept.
    pub fn try_from(value: Vec<RawQuote>) -> (r: Result<QuotePool, Error>)
        ensures
            build_error(value@) is Some <==> r is Err,
            r matches Err(e) ==> build_error(value@) == Some(e),
            r matches Ok(p) ==> {
                &&& p.weight_seq() == expected_weights(value@)
                &&& p.content_seq() == expected_contents(value@)
                &&& p.denominator_spec() == denominator(value@)
                &&& p.total_spec() == expected_total(value@)
            },
    {
        let items = &value;
        let len = items.len();
        let mut kept: usize = 0;
        let mut without: usize = 0;
        let mut sum: u128 = 0;
        let mut i: usize = 0;
        while i < len
            invariant
                len == items@.len(),
                0 <= i <= len,
                kept == survivors(items@.take(i as int)).len(),
                without == unweighted(items@.take(i as int)).len(),
                sum == usable_sum(items@.take(i as int)),
                sum <= i * (i64::MAX as int),
                kept + without <= i,
                kept == 0 ==> sum == 0,
            decreases len - i,
        {
            proof {
                lemma_take_step(items@, i as int);
            }
            match items[i].weight {
                Some(Number::Finite(v)) => {
                    if v > 0 {
                        sum = sum + v as u128;
                        kept = kept + 1;
                    }
                },
                None => {
                    without = without + 1;
                },
                _ => {},
            }
            i = i + 1;
        }
        proof {
            assert(items@.take(len as int) =~= items@);
            lemma_usable_sum_nonneg(items@);
        }
        if kept == 0 && without == 0 {
            return Err(Error::NoValidItems);
        }
        let denom: u64;
        let synthetic: u64;
        let total: u64;
        if kept > 0 {
            if sum > u64::MAX as u128 {
                proof {
                    assert(sum * kept + without * sum >= sum) by (nonlinear_arith)
                        requires kept >= 1, without >= 0, sum >= 0;
                }
                return Err(Error::WeightOverflow);
            }
            let count = (kept + without) as u64;
            match (sum as u64).checked_mul(count) {
                Some(t) => {
                    proof {
                        assert(sum * kept + without * sum == sum * (kept + without))
                            by (nonlinear_arith);
                        assert(t == usable_sum(items@) * denominator(items@) + unweighted(
                            items@,
                        ).len() * synthetic_numerator(items@));
                    }
                    total = t;
                },
                None => {
                    proof {
                        assert(sum * kept + without * sum == sum * (kept + without))
                            by (nonlinear_arith);
                    }
                    return Err(Error::WeightOverflow);
                },
            }
            denom = kept as u64;
            synthetic = sum as u64;
        } else {
            match (without as u64).checked_mul(UNIT_WEIGHT) {
                Some(t) => {
                    proof {
                        assert(t == usable_sum(items@) * denominator(items@) + unweighted(
                            items@,
                        ).len() * synthetic_numerator(items@));
                    }
                    total = t;
                },
                None => {
                    return Err(Error::WeightOverflow);
                },
            }
            denom = 1;
            synthetic = UNIT_WEIGHT;
        }
        assert(build_error(value@) is None);
        let ghost s_all = usable_sum(items@);
        let ghost d = denominator(items@);
        assert(denom == d);
        assert(synthetic == synthetic_numerator(items@));
        assert(total == expected_total(items@));

        let mut weights: Vec<u64> = Vec::new();
        let mut contents: Vec<String> = Vec::new();
        let mut running: u64 = 0;
        i = 0;
        while i < len
            invariant
                len == items@.len(),
                0 <= i <= len,
                s_all == usable_sum(items@),
                d == denom,
                denom > 0,
                total == expected_total(items@),
                total == s_all * d + without * synthetic,
                total <= u64::MAX,
                without == unweighted(items@).len(),
                synthetic > 0,
                weights@.map_values(|w: u64| w as int) =~= survivors(
                    items@.take(i as int),
                ).map_values(|q: RawQuote| weight_of(q) * d),
                contents@.map_values(|c: String| c@) =~= survivors(
                    items@.take(i as int),
                ).map_values(|q: RawQuote| q.content@),
                forall|k: int| 0 <= k < weights@.len() ==> weights@[k] > 0,
                running == weight_total(weights@),
                running == usable_sum(items@.take(i as int)) * d,
            decreases len - i,
        {
            proof {
                lemma_take_step(items@, i as int);
            }
            match items[i].weight {
                Some(Number::Finite(v)) => {
                    if v > 0 {
                        proof {
                            lemma_usable_sum_prefix(items@, i as int + 1);
                            lemma_usable_sum_prefix(items@, i as int);
                            let p = usable_sum(items@.take(i as int));
                            assert(usable_sum(items@.take(i as int + 1)) == p + v);
                            assert(p + v <= s_all);
                            assert((p + v) * d <= s_all * d) by (nonlinear_arith)
                                requires p + v <= s_all, d > 0;
                            assert((p + v) * d == p * d + v * d) by (nonlinear_arith);
                            assert(without * synthetic >= 0) by (nonlinear_arith)
                                requires without >= 0, synthetic > 0;
                            assert(v * d > 0) by (nonlinear_arith)
                                requires v > 0, d > 0;
                            assert(p * d >= 0) by (nonlinear_arith)
                                requires p >= 0, d > 0;
                            assert(p * d + v * d <= total);
                            assert(total <= u64::MAX);
                            assert(v * d <= total);
                            assert(v as u64 * denom == v * d);
                        }
                        let w = (v as u64) * denom;
                        let ghost before = weights@;
                        let ghost cbefore = contents@;
                        weights.push(w);
                        contents.push(items[i].content.clone());
                        running = running + w;
                        proof {
                            assert(weights@.drop_last() =~= before);
                            let q = items@[i as int];
                            assert(survivors(items@.take(i as int + 1)) == survivors(
                                items@.take(i as int),
                            ).push(q));
                            assert(weights@.map_values(|w: u64| w as int) =~= before.map_values(
                                |w: u64| w as int,
                            ).push(weight_of(q) * d));
                            assert(contents@.map_values(|x: String| x@) =~= cbefore.map_values(
                                |x: String| x@,
                            ).push(q.content@));
                        }
                    }
                },
                _ => {},
            }
            i = i + 1;
        }
        proof {
            assert(items@.take(len as int) =~= items@);
        }
        let ghost survivor_count = weights@.len();
        i = 0;
        while i < len
            invariant
                len == items@.len(),
                0 <= i <= len,
                total == s_all * d + without * synthetic,
                total <= u64::MAX,
                without == unweighted(items@).len(),
                synthetic > 0,
                survivor_count == survivors(items@).len(),
                s_all >= 0,
                d > 0,
                weights@.map_values(|w: u64| w as int) =~= survivors(items@).map_values(
                    |q: RawQuote| weight_of(q) * d,
                ) + Seq::new(unweighted(items@.take(i as int)).len(), |k: int| synthetic as int),
                contents@.map_values(|c: String| c@) =~= survivors(items@).map_values(
                    |q: RawQuote| q.content@,
                ) + unweighted(items@.take(i as int)).map_values(|q: RawQuote| q.content@),
                forall|k: int| 0 <= k < weights@.len() ==> weights@[k] > 0,
                running == weight_total(weights@),
                running == s_all * d + unweighted(items@.take(i as int)).len() * synthetic,
                unweighted(items@.take(i as int)).len() <= without,
            decreases len - i,
        {
            proof {
                lemma_take_step(items@, i as int);
                lemma_unweighted_prefix(items@, i as int + 1);
            }
            if items[i].weight.is_none() {
                proof {
                    let c = unweighted(items@.take(i as int)).len();
                    assert((c + 1) * synthetic <= without * synthetic) by (nonlinear_arith)
                        requires c + 1 <= without, synthetic > 0;
                    assert((c + 1) * synthetic == c * synthetic + synthetic) by (nonlinear_arith);
                    assert(s_all * d >= 0) by (nonlinear_arith)
                        requires s_all >= 0, d > 0;
                    assert(running + synthetic <= total);
                }
                let ghost before = weights@;
                let ghost cbefore = contents@;
                weights.push(synthetic);
                contents.push(items[i].content.clone());
                running = running + synthetic;
                proof {
                    assert(weights@.drop_last() =~= before);
                    let c = unweighted(items@.take(i as int)).len();
                    assert(unweighted(items@.take(i as int + 1)) == unweighted(
                        items@.take(i as int),
                    ).push(items@[i as int]));
                    assert(weights@.map_values(|w: u64| w as int) =~= before.map_values(
                        |w: u64| w as int,
                    ).push(synthetic as int));
                    assert(Seq::new(c + 1, |k: int| synthetic as int) =~= Seq::new(
                        c,
                        |k: int| synthetic as int,
                    ).push(synthetic as int));
                    assert(contents@.map_values(|x: String| x@) =~= cbefore.map_values(
                        |x: String| x@,
                    ).push(items@[i as int].content@));
                }
            }
            i = i + 1;
        }
        proof {
            assert(items@.take(len as int) =~= items@);
            assert(weights@.len() > 0);
        }
        Ok(QuotePool { weights, contents, denominator: denom, total: running })
    }

    /// Draws one quote; quote `i` comes with probability `weights[i] / total`.
    pub fn draw(&self) -> (r: &str)
        ensures
            exists|i: int| 0 <= i < self.content_seq().len() && r@ == self.content_seq()[i],
    {
        proof {
            use_type_invariant(self);
            lemma_total_at_least_len(self.weights@);
        }
        let mut rng = thread_rng();
        match weighted_draw(&self.weights) {
            Ok(draw) => {
                let i = sample_index(&draw, &mut rng);
                let r = self.contents[i].as_str();
                assert(r@ == self.content_seq()[i as int]);
                r
            },
            Err(_) => {
                // The weights are non-empty, positive and sum within `u64`.
                assert(false);
                self.contents[0].as_str()
            },
        }
    }

    /// The number of quotes in the pool.
    pub fn len(&self) -> (r: usize)
        ensures
            r == self.weight_seq().len(),
            r == self.content_seq().len(),
            r > 0,
    {
        proof {
            use_type_invariant(self);
        }
        self.weights.len()
    }

    /// The numerator of quote `i`'s effective weight.
    pub fn weight(&self, i: usize) -> (r: u64)
        requires
            i < self.weight_seq().len(),
        ensures
            r == self.weight_seq()[i as int],
            r > 0,
    {
        proof {
            use_type_invariant(self);
        }
        self.weights[i]
    }

    /// The text of quote `i`.
    pub fn content(&self, i: usize) -> (r: &str)
        requires
            i < self.content_seq().len(),
        ensures
            r@ == self.content_seq()[i as int],
    {
        self.contents[i].as_str()
    }

    /// The denominator shared by all effective weights.
    pub fn denominator(&self) -> (r: u64)
        ensures
            r == self.denominator_spec(),
            r > 0,
    {
        proof {
            use_type_invariant(self);
        }
        self.denominator
    }

    /// The sum of the numerators of all effective weights.
    pub fn total_weight(&self) -> (r: u64)
        ensures
            r == self.total_spec(),
            r == int_sum(self.weight_seq()),
    {
        proof {
            use_type_invariant(self);
            lemma_int_sum_of_u64(self.weights@);
        }
        self.total
    }
}

proof fn lemma_usable_survives(items: Seq<RawQuote>, k: int)
    requires
        0 <= k < items.len(),
        is_usable(items[k]),
    ensures
        survivors(items).len() > 0,
    decreases items.len(),
{
    if k < items.len() - 1 {
        lemma_usable_survives(items.drop_last(), k);
    }
}

proof fn lemma_int_sum_append(a: Seq<int>, b: Seq<int>)
    ensures
        int_sum(a + b) == int_sum(a) + int_sum(b),
    decreases b.len(),
{
    if b.len() > 0 {
        lemma_int_sum_append(a, b.drop_last());
        assert((a + b).drop_last() =~= a + b.drop_last());
    } else {
        assert(a + b =~= a);
    }
}

proof fn lemma_int_sum_constant(n: nat, c: int)
    ensures
        int_sum(Seq::new(n, |k: int| c)) == n * c,
    decreases n,
{
    if n > 0 {
        lemma_int_sum_constant((n - 1) as nat, c);
        assert(Seq::new(n, |k: int| c).drop_last() =~= Seq::new((n - 1) as nat, |k: int| c));
        let s = Seq::new(n, |k: int| c);
        assert(s.last() == c);
        assert(n * c == (n - 1) * c + c) by (nonlinear_arith);
    } else {
        assert(n * c == 0) by (nonlinear_arith)
            requires n == 0;
    }
}

proof fn lemma_int_sum_survivors(items: Seq<RawQuote>, d: int)
    ensures
        int_sum(survivors(items).map_values(|q: RawQuote| weight_of(q) * d)) == usable_sum(items)
            * d,
    decreases items.len(),
{
    if items.len() > 0 {
        lemma_int_sum_survivors(items.drop_last(), d);
        let rest = survivors(items.drop_last());
        if is_usable(items.last()) {
            let v = weight_of(items.last());
            assert(rest.push(items.last()).map_values(|q: RawQuote| weight_of(q) * d).drop_last()
                =~= rest.map_values(|q: RawQuote| weight_of(q) * d));
            let u = usable_sum(items.drop_last());
            assert((u + v) * d == u * d + v * d) by (nonlinear_arith);
        }
    }
}

/// When at least one quote keeps its own weight and the total fits, building
/// succeeds, and the pool's total is the sum of all effective weights, the
/// synthetic ones included.
pub proof fn lemma_kept_weight_builds(items: Seq<RawQuote>)
    requires
        exists|k: int| 0 <= k < items.len() && is_usable(items[k]),
        expected_total(items) <= u64::MAX,
    ensures
        build_error(items) is None,
        int_sum(expected_weights(items)) == expected_total(items),
{
    let k = choose|k: int| 0 <= k < items.len() && is_usable(items[k]);
    lemma_usable_survives(items, k);
    let d = denominator(items);
    let a = survivors(items).map_values(|q: RawQuote| weight_of(q) * d);
    let b = Seq::new(unweighted(items).len(), |j: int| synthetic_numerator(items));
    lemma_int_sum_append(a, b);
    lemma_int_sum_survivors(items, d);
    lemma_int_sum_constant(unweighted(items).len(), synthetic_numerator(items));
}

proof fn lemma_nothing_usable(items: Seq<RawQuote>)
    requires
        forall|k: int| 0 <= k < items.len() ==> items[k].weight is Some && !is_usable(items[k]),
    ensures
        survivors(items).len() == 0,
        unweighted(items).len() == 0,
    decreases items.len(),
{
    if items.len() > 0 {
        lemma_nothing_usable(items.drop_last());
    }
}

/// When every quote has a weight and none of them is kept (each is zero,
/// negative, infinite or NaN), building fails with `NoValidItems`.
pub proof fn lemma_no_usable_weight_fails(items: Seq<RawQuote>)
    requires
        forall|k: int| 0 <= k < items.len() ==> items[k].weight is Some && !is_usable(items[k]),
    ensures
        build_error(items) == Some(Error::NoValidItems),
{
    lemma_nothing_usable(items);
}

/// Two pools built from the same quotes have the same effective weights, in
/// the same order, and the same contents.
pub proof fn lemma_build_deterministic(items: Seq<RawQuote>, a: QuotePool, b: QuotePool)
    requires
        a.weight_seq() == expected_weights(items),
        a.content_seq() == expected_contents(items),
        a.denominator_spec() == denominator(items),
        b.weight_seq() == expected_weights(items),
        b.content_seq() == expected_contents(items),
        b.denominator_spec() == denominator(items),
    ensures
        a.weight_seq() == b.weight_seq(),
        a.content_seq() == b.content_seq(),
        a.denominator_spec() == b.denominator_spec(),
{
}

} // verus!
