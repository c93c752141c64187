use crate::config::ConfigError;
use std::collections::VecDeque;
use vstd::arithmetic::div_mod::{
    lemma_div_is_ordered, lemma_div_multiples_vanish, lemma_fundamental_div_mod,
    lemma_fundamental_div_mod_converse,
};
use vstd::prelude::*;

verus! {

/// `m` is the largest value of `s`: it occurs in `s` and none exceeds it.
/// Of an empty sequence the largest value is taken to be zero.
pub open spec fn is_max_of(s: Seq<i64>, m: i64) -> bool {
    if s.len() == 0 {
        m == 0
    } else {
        &&& exists|i: int| 0 <= i < s.len() && s[i] == m
        &&& forall|i: int| 0 <= i < s.len() ==> s[i] <= m
    }
}

/// `m` is the smallest value of `s`: it occurs in `s` and none is below it.
/// Of an empty sequence the smallest value is taken to be zero.
pub open spec fn is_min_of(s: Seq<i64>, m: i64) -> bool {
    if s.len() == 0 {
        m == 0
    } else {
        &&& exists|i: int| 0 <= i < s.len() && s[i] == m
        &&& forall|i: int| 0 <= i < s.len() ==> m <= s[i]
    }
}

/// The largest value of `s`; zero where `s` is empty.
pub open spec fn max_of(s: Seq<i64>) -> i64 {
    choose|m: i64| is_max_of(s, m)
}

/// The smallest value of `s`; zero where `s` is empty.
pub open spec fn min_of(s: Seq<i64>) -> i64 {
    choose|m: i64| is_min_of(s, m)
}

/// What a history holding `s`, with room for `capacity` values, holds once
/// `value` has arrived: `value` at the tail, and the oldest one gone if there
/// was no room left.
pub open spec fn pushed(s: Seq<i64>, capacity: nat, value: i64) -> Seq<i64> {
    if s.len() < capacity {
        s.push(value)
    } else {
        s.subrange(1, s.len() as int).push(value)
    }
}

/// What a history holds once every value of `values` has arrived, first to
/// last.
pub open spec fn pushed_all(s: Seq<i64>, capacity: nat, values: Seq<i64>) -> Seq<i64>
    decreases values.len(),
{
    if values.len() == 0 {
        s
    } else {
        pushed(pushed_all(s, capacity, values.drop_last()), capacity, values.last())
    }
}

/// The last `n` values of `s`, or all of `s` where it has no more than `n`.
pub open spec fn latest(s: Seq<i64>, n: nat) -> Seq<i64> {
    if s.len() <= n {
        s
    } else {
        s.subrange(s.len() - n, s.len() as int)
    }
}

/// The points of the chart for a history holding `s` with room for
/// `capacity`, newest value first: the newest value stands at
/// `capacity - 1`, each older one a step further to the left.
pub open spec fn grid_of(s: Seq<i64>, capacity: nat) -> Seq<(usize, i64)> {
    Seq::new(s.len(), |k: int| ((capacity - 1 - k) as usize, s[s.len() - 1 - k]))
}

/// The sum of the values of `s`.
pub open spec fn sum_of(s: Seq<i64>) -> int
    decreases s.len(),
{
    if s.len() == 0 {
        0
    } else {
        sum_of(s.drop_last()) + s.last()
    }
}

/// The mean of the values of `s`, rounded down to a whole number.
pub open spec fn mean_of(s: Seq<i64>) -> int
    recommends
        s.len() > 0,
{
    sum_of(s) / (s.len() as int)
}

/// A fixed-capacity history of signed values, oldest first, together with its
/// largest and smallest value. It always has room for at least one value,
/// never holds more values than it has room for, and its stored extrema are
/// always those of the values it holds.
#[derive(Debug)]
pub struct HistoryBuffer {
    samples: VecDeque<i64>,
    capacity: usize,
    max_value: i64,
    min_value: i64,
}

impl View for HistoryBuffer {
    type V = Seq<i64>;

    /// The values held, oldest first.
    closed spec fn view(&self) -> Seq<i64> {
        self.samples@
    }
}

impl HistoryBuffer {
    #[verifier::type_invariant]
    spec fn valid(self) -> bool {
        &&& 1 <= self.capacity
        &&& self.samples@.len() <= self.capacity
        &&& is_max_of(self.samples@, self.max_value)
        &&& is_min_of(self.samples@, self.min_value)
    }

    /// The number of values the history has room for.
    pub closed spec fn spec_capacity(&self) -> usize {
        self.capacity
    }

    /// An empty history with room for `capacity` values. A history with room
    /// for none is turned down.
    pub fn new(capacity: usize) -> (r: Result<HistoryBuffer, ConfigError>)
        ensures
            capacity == 0 ==> r == Err::<HistoryBuffer, ConfigError>(ConfigError::ZeroCapacity),
            capacity != 0 ==> r is Ok,
            r matches Ok(h) ==> h@ == Seq::<i64>::empty() && h.spec_capacity() == capacity,
    {
        if capacity == 0 {
            Err(ConfigError::ZeroCapacity)
        } else {
            Ok(HistoryBuffer { samples: VecDeque::new(), capacity, max_value: 0, min_value: 0 })
        }
    }

    /// Takes in one value: appended at the tail while there is room, else the
    /// oldest value leaves first. The extrema are then found anew by a scan of
    /// the values held.
    pub fn push(&mut self, value: i64)
        ensures
            final(self)@ == pushed(old(self)@, old(self).spec_capacity() as nat, value),
            final(self).spec_capacity() == old(self).spec_capacity(),
    {
        proof {
            use_type_invariant(&*self);
        }
        let mut taken = HistoryBuffer {
            samples: VecDeque::new(),
            capacity: self.capacity,
            max_value: 0,
            min_value: 0,
        };
        core::mem::swap(self, &mut taken);
        let HistoryBuffer { samples, capacity, max_value: _, min_value: _ } = taken;
        let mut samples = samples;
        if samples.len() < capacity {
            samples.push_back(value);
        } else {
            samples.pop_front();
            samples.push_back(value);
        }
        let (max_value, min_value) = recompute_aggregates(&samples);
        *self = HistoryBuffer { samples, capacity, max_value, min_value };
    }

    /// The number of values the history has room for.
    #[verifier::when_used_as_spec(spec_capacity)]
    pub fn capacity(&self) -> (r: usize)
        ensures
            r == self.spec_capacity(),
            r >= 1,
    {
        proof {
            use_type_invariant(self);
        }
        self.capacity
    }

    /// The number of values held; never more than there is room for.
    pub fn len(&self) -> (r: usize)
        ensures
            r == self@.len(),
            r <= self.spec_capacity(),
    {
        proof {
            use_type_invariant(self);
        }
        self.samples.len()
    }

    /// Whether no value is held.
    pub fn is_empty(&self) -> (r: bool)
        ensures
            r == (self@.len() == 0),
    {
        self.samples.len() == 0
    }

    /// The largest value held; zero while the history is empty.
    pub fn max_value(&self) -> (r: i64)
        ensures
            r == max_of(self@),
            is_max_of(self@, r),
    {
        proof {
            use_type_invariant(self);
            lemma_extrema(self@);
            lemma_extrema_are_unique(
                self@,
                self.max_value,
                max_of(self@),
                min_of(self@),
                min_of(self@),
            );
        }
        self.max_value
    }

    /// The smallest value held; zero while the history is empty.
    pub fn min_value(&self) -> (r: i64)
        ensures
            r == min_of(self@),
            is_min_of(self@, r),
    {
        proof {
            use_type_invariant(self);
            lemma_extrema(self@);
            lemma_extrema_are_unique(
                self@,
                max_of(self@),
                max_of(self@),
                self.min_value,
                min_of(self@),
            );
        }
        self.min_value
    }

    /// The value that arrived first among those held.
    pub fn oldest(&self) -> (r: Option<i64>)
        ensures
            r == if self@.len() == 0 {
                None
            } else {
                Some(self@[0])
            },
    {
        if self.samples.len() == 0 {
            None
        } else {
            Some(self.samples[0])
        }
    }

    /// The value that arrived last.
    pub fn newest(&self) -> (r: Option<i64>)
        ensures
            r == if self@.len() == 0 {
                None
            } else {
                Some(self@[self@.len() - 1])
            },
    {
        let n = self.samples.len();
        if n == 0 {
            None
        } else {
            Some(self.samples[n - 1])
        }
    }

    /// The values held, oldest first.
    pub fn to_vec(&self) -> (values: Vec<i64>)
        ensures
            values@ == self@,
    {
        let n = self.samples.len();
        let mut values: Vec<i64> = Vec::new();
        let mut i: usize = 0;
        while i < n
            invariant
                i <= n,
                n == self.samples@.len(),
                values@ == self.samples@.subrange(0, i as int),
            decreases n - i,
        {
            values.push(self.samples[i]);
            i += 1;
        }
        values
    }

    /// The points of the chart, newest value first. The newest value stands at
    /// the right edge, `capacity - 1`, and each older one a step further to the
    /// left, so that the curve moves left as values arrive.
    pub fn project_to_grid(&self) -> (grid: Vec<(usize, i64)>)
        ensures
            grid@ == grid_of(self@, self.spec_capacity() as nat),
    {
        proof {
            use_type_invariant(self);
        }
        let n = self.samples.len();
        let mut grid: Vec<(usize, i64)> = Vec::new();
        let mut k: usize = 0;
        while k < n
            invariant
                k <= n,
                n == self.samples@.len(),
                n <= self.capacity,
                grid@.len() == k,
                forall|j: int|
                    0 <= j < k ==> #[trigger] grid@[j] == (
                        (self.capacity - 1 - j) as usize,
                        self.samples@[n - 1 - j],
                    ),
            decreases n - k,
        {
            grid.push((self.capacity - 1 - k, self.samples[n - 1 - k]));
            k += 1;
        }
        grid
    }

    /// The sum of the values held.
    pub fn total(&self) -> (t: i128)
        ensures
            t == sum_of(self@),
    {
        let n = self.samples.len();
        let mut t: i128 = 0;
        let mut i: usize = 0;
        while i < n
            invariant
                i <= n,
                n == self.samples@.len(),
                t == sum_of(self.samples@.subrange(0, i as int)),
                i * i64::MIN <= t <= i * i64::MAX,
            decreases n - i,
        {
            proof {
                let upto = self.samples@.subrange(0, i + 1);
                assert(upto.drop_last() =~= self.samples@.subrange(0, i as int));
            }
            t = t + self.samples[i] as i128;
            i += 1;
        }
        assert(self.samples@.subrange(0, n as int) =~= self.samples@);
        t
    }

    /// The mean of the values held, rounded down to a whole number; none
    /// while the history is empty.
    pub fn mean(&self) -> (m: Option<i64>)
        ensures
            m == if self@.len() == 0 {
                None
            } else {
                Some(mean_of(self@) as i64)
            },
            self@.len() > 0 ==> i64::MIN <= mean_of(self@) <= i64::MAX,
    {
        let n = self.samples.len();
        if n == 0 {
            None
        } else {
            let t = self.total();
            proof {
                lemma_sum_bounds(self@, i64::MIN as int, i64::MAX as int);
                lemma_mean_bounds(self@, i64::MIN as int, i64::MAX as int);
            }
            let q = floor_div(t, n as i128);
            Some(q as i64)
        }
    }
}

/// Scans `samples` once and gives their largest and their smallest value, in
/// this order; both are zero where there is no value.
pub fn recompute_aggregates(samples: &VecDeque<i64>) -> (r: (i64, i64))
    ensures
        r.0 == max_of(samples@),
        r.1 == min_of(samples@),
        is_max_of(samples@, r.0),
        is_min_of(samples@, r.1),
{
    let n = samples.len();
    if n == 0 {
        proof {
            lemma_extrema(samples@);
        }
        (0, 0)
    } else {
        let mut hi: i64 = samples[0];
        let mut lo: i64 = samples[0];
        let ghost mut hi_at: int = 0;
        let ghost mut lo_at: int = 0;
        let mut i: usize = 1;
        while i < n
            invariant
                1 <= i <= n,
                n == samples@.len(),
                0 <= hi_at < i && samples@[hi_at] == hi,
                0 <= lo_at < i && samples@[lo_at] == lo,
                forall|j: int| 0 <= j < i ==> lo <= #[trigger] samples@[j] <= hi,
            decreases n - i,
        {
            let v = samples[i];
            if v >= hi {
                hi = v;
                proof {
                    hi_at = i as int;
                }
            }
            if v < lo {
                lo = v;
                proof {
                    lo_at = i as int;
                }
            }
            i += 1;
        }
        proof {
            assert(samples@[hi_at] == hi && samples@[lo_at] == lo);
            lemma_extrema(samples@);
            lemma_extrema_are_unique(samples@, hi, max_of(samples@), lo, min_of(samples@));
        }
        (hi, lo)
    }
}

/// One value more never takes a history beyond its capacity: below it the
/// length grows by one, at it the length stays and the oldest value is the
/// one that left.
pub proof fn lemma_pushed_length(s: Seq<i64>, capacity: nat, value: i64)
    requires
        capacity >= 1,
        s.len() <= capacity,
    ensures
        pushed(s, capacity, value).len() == if s.len() < capacity {
            s.len() + 1
        } else {
            capacity
        },
        pushed(s, capacity, value).last() == value,
        s.len() == capacity ==> pushed(s, capacity, value).drop_last() == s.drop_first(),
{
    if s.len() == capacity {
        assert(pushed(s, capacity, value).drop_last() =~= s.drop_first());
    }
}

/// Whatever arrives, a history holds the latest values in the order of their
/// arrival: after the values of `values` have been pushed one by one into a
/// history holding `s`, it holds the last `capacity` values of `s` followed
/// by `values`, or all of them if there are no more than `capacity`.
pub proof fn lemma_pushes_keep_latest(s: Seq<i64>, capacity: nat, values: Seq<i64>)
    requires
        capacity >= 1,
        s.len() <= capacity,
    ensures
        pushed_all(s, capacity, values) == latest(s + values, capacity),
    decreases values.len(),
{
    if values.len() == 0 {
        assert(s + values =~= s);
    } else {
        let earlier = values.drop_last();
        let before = pushed_all(s, capacity, earlier);
        lemma_pushes_keep_latest(s, capacity, earlier);
        assert((s + earlier).push(values.last()) =~= s + values);
        assert(pushed(before, capacity, values.last()) =~= latest(s + values, capacity));
    }
}

/// Starting from an empty history, `n` pushes leave `min(n, capacity)`
/// values: all of them while `n` is at most the capacity, and from then on
/// exactly the last `capacity` of them, in the order of their arrival.
pub proof fn lemma_pushes_from_empty(capacity: nat, values: Seq<i64>)
    requires
        capacity >= 1,
    ensures
        pushed_all(Seq::empty(), capacity, values).len() == if values.len() <= capacity {
            values.len()
        } else {
            capacity
        },
        values.len() <= capacity ==> pushed_all(Seq::empty(), capacity, values) == values,
        values.len() >= capacity ==> pushed_all(Seq::empty(), capacity, values)
            == values.subrange(values.len() - capacity, values.len() as int),
{
    lemma_pushes_keep_latest(Seq::empty(), capacity, values);
    assert(Seq::<i64>::empty() + values =~= values);
    if values.len() == capacity {
        assert(values.subrange(0, values.len() as int) =~= values);
    }
}

/// Every sequence has a largest and a smallest value: for one that is not
/// empty, `max_of` and `min_of` are values of the sequence, no value is above
/// the first or below the second; for an empty one both are zero.
pub proof fn lemma_extrema(s: Seq<i64>)
    ensures
        is_max_of(s, max_of(s)),
        is_min_of(s, min_of(s)),
        min_of(s) <= max_of(s),
        s.len() == 0 ==> max_of(s) == 0 && min_of(s) == 0,
    decreases s.len(),
{
    if s.len() == 0 {
        assert(is_max_of(s, 0));
        assert(is_min_of(s, 0));
    } else if s.len() == 1 {
        assert(is_max_of(s, s[0]));
        assert(is_min_of(s, s[0]));
    } else {
        let rest = s.drop_last();
        lemma_extrema(rest);
        let hi = if s.last() >= max_of(rest) {
            s.last()
        } else {
            max_of(rest)
        };
        let lo = if s.last() <= min_of(rest) {
            s.last()
        } else {
            min_of(rest)
        };
        let hi_at = choose|i: int| 0 <= i < rest.len() && rest[i] == max_of(rest);
        let lo_at = choose|i: int| 0 <= i < rest.len() && rest[i] == min_of(rest);
        assert(s[hi_at] == rest[hi_at] && s[lo_at] == rest[lo_at]);
        assert(s[s.len() - 1] == s.last());
        assert forall|i: int| 0 <= i < s.len() implies lo <= #[trigger] s[i] <= hi by {
            if i < rest.len() {
                assert(s[i] == rest[i]);
            }
        }
        assert(is_max_of(s, hi));
        assert(is_min_of(s, lo));
    }
}

/// A sequence has one largest and one smallest value, and the smallest is not
/// above the largest.
pub proof fn lemma_extrema_are_unique(s: Seq<i64>, max1: i64, max2: i64, min1: i64, min2: i64)
    requires
        is_max_of(s, max1),
        is_max_of(s, max2),
        is_min_of(s, min1),
        is_min_of(s, min2),
    ensures
        max1 == max2,
        min1 == min2,
        min1 <= max1,
{
}

/// On the chart the newest value stands at the right edge and the oldest at
/// `capacity` less the number of values held; no point lies outside the
/// chart.
pub proof fn lemma_grid_edges(s: Seq<i64>, capacity: nat)
    requires
        1 <= s.len() <= capacity <= usize::MAX,
    ensures
        grid_of(s, capacity).len() == s.len(),
        grid_of(s, capacity)[0] == ((capacity - 1) as usize, s.last()),
        grid_of(s, capacity).last() == ((capacity - s.len()) as usize, s[0]),
        forall|k: int|
            0 <= k < s.len() ==> (#[trigger] grid_of(s, capacity)[k]).0 == capacity - 1 - k,
{
}

/// The chart moves left as values arrive: when one more value enters a
/// history, every value that stays is drawn one step further to the left
/// than before, and the new value takes the right edge.
pub proof fn lemma_grid_scrolls_left(s: Seq<i64>, capacity: nat, value: i64)
    requires
        1 <= capacity <= usize::MAX,
        s.len() <= capacity,
    ensures
        grid_of(pushed(s, capacity, value), capacity)[0] == ((capacity - 1) as usize, value),
        forall|k: int|
            1 <= k < pushed(s, capacity, value).len() ==> {
                &&& (#[trigger] grid_of(pushed(s, capacity, value), capacity)[k]).0 == grid_of(
                    s,
                    capacity,
                )[k - 1].0 - 1
                &&& grid_of(pushed(s, capacity, value), capacity)[k].1 == grid_of(s, capacity)[k
                    - 1].1
            },
{
}

/// The sum of values that all lie between `lo` and `hi` lies between as many
/// times `lo` and as many times `hi`.
pub proof fn lemma_sum_bounds(s: Seq<i64>, lo: int, hi: int)
    requires
        forall|i: int| 0 <= i < s.len() ==> lo <= #[trigger] s[i] <= hi,
    ensures
        s.len() * lo <= sum_of(s) <= s.len() * hi,
    decreases s.len(),
{
    if s.len() > 0 {
        let rest = s.drop_last();
        lemma_sum_bounds(rest, lo, hi);
        assert(s.len() * lo == rest.len() * lo + lo) by (nonlinear_arith)
            requires
                s.len() == rest.len() + 1,
        ;
        assert(s.len() * hi == rest.len() * hi + hi) by (nonlinear_arith)
            requires
                s.len() == rest.len() + 1,
        ;
    }
}

/// The mean of values that all lie between `lo` and `hi` lies between `lo`
/// and `hi`.
pub proof fn lemma_mean_bounds(s: Seq<i64>, lo: int, hi: int)
    requires
        s.len() > 0,
        forall|i: int| 0 <= i < s.len() ==> lo <= #[trigger] s[i] <= hi,
    ensures
        lo <= mean_of(s) <= hi,
{
    let n = s.len() as int;
    lemma_sum_bounds(s, lo, hi);
    lemma_div_is_ordered(n * lo, sum_of(s), n);
    lemma_div_is_ordered(sum_of(s), n * hi, n);
    lemma_div_multiples_vanish(lo, n);
    lemma_div_multiples_vanish(hi, n);
}

/// `a` divided by `b`, rounded down.
fn floor_div(a: i128, b: i128) -> (q: i128)
    requires
        b > 0,
        a > i128::MIN,
    ensures
        q == (a as int) / (b as int),
{
    let t = a / b;
    let r = a % b;
    proof {
        let x = a as int;
        let d = b as int;
        if a >= 0 {
            lemma_fundamental_div_mod(x, d);
        } else {
            lemma_fundamental_div_mod(-x, d);
            assert(-x == d * ((-x) / d) + (-x) % d);
            assert(d * ((-x) / d) == -(d * t)) by (nonlinear_arith)
                requires
                    t == -((-x) / d),
            ;
            if r < 0 {
                assert(x == (t - 1) * d + (d + r)) by (nonlinear_arith)
                    requires
                        x == d * t + r,
                ;
                lemma_fundamental_div_mod_converse(x, d, t - 1, d + r);
            } else {
                assert(x == t * d + 0) by (nonlinear_arith)
                    requires
                        x == d * t + r,
                        r == 0,
                ;
                lemma_fundamental_div_mod_converse(x, d, t as int, 0);
            }
        }
    }
    if r < 0 {
        t - 1
    } else {
        t
    }
}

} // verus!
