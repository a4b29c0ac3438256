//! The count-bounded window shared by the windowed indicators, and the
//! sequence statistics their contracts are stated over.

use vstd::prelude::*;
use std::collections::VecDeque;
use crate::arith::{INPUT_LIMIT, PERIOD_LIMIT};

verus! {

/// Sum of the sequence.
pub open spec fn sum_of(s: Seq<i128>) -> int
    decreases s.len(),
{
    if s.len() == 0 {
        0
    } else {
        sum_of(s.drop_last()) + s.last()
    }
}

/// Sum of the squares of the sequence.
pub open spec fn sum_sq_of(s: Seq<i128>) -> int
    decreases s.len(),
{
    if s.len() == 0 {
        0
    } else {
        sum_sq_of(s.drop_last()) + s.last() * s.last()
    }
}

pub open spec fn abs_of(x: int) -> int {
    if x >= 0 {
        x
    } else {
        -x
    }
}

/// Sum of the absolute deviations of the sequence from `m`.
pub open spec fn abs_dev_sum_of(s: Seq<i128>, m: int) -> int
    decreases s.len(),
{
    if s.len() == 0 {
        0
    } else {
        abs_dev_sum_of(s.drop_last(), m) + abs_of(s.last() - m)
    }
}

/// Least element of a non-empty sequence.
pub open spec fn min_of(s: Seq<i128>) -> int
    recommends
        s.len() > 0,
    decreases s.len(),
{
    if s.len() <= 1 {
        s[0] as int
    } else if s.last() < min_of(s.drop_last()) {
        s.last() as int
    } else {
        min_of(s.drop_last())
    }
}

/// Greatest element of a non-empty sequence.
pub open spec fn max_of(s: Seq<i128>) -> int
    recommends
        s.len() > 0,
    decreases s.len(),
{
    if s.len() <= 1 {
        s[0] as int
    } else if s.last() > max_of(s.drop_last()) {
        s.last() as int
    } else {
        max_of(s.drop_last())
    }
}

/// Every element lies within `[-limit, limit]`.
pub open spec fn all_in_limit(s: Seq<i128>, limit: int) -> bool {
    forall|i: int| 0 <= i < s.len() ==> -limit <= #[trigger] s[i] <= limit
}

/// The window contents after one insertion: append `v`, dropping the
/// oldest element first when the window is already at capacity.
pub open spec fn slide(s: Seq<i128>, period: int, v: i128) -> Seq<i128> {
    if s.len() < period {
        s.push(v)
    } else {
        s.subrange(1, s.len() as int).push(v)
    }
}

/// The rounded mean of a non-empty sequence.
pub open spec fn mean_of(s: Seq<i128>) -> int
    recommends
        s.len() > 0,
{
    crate::arith::rdiv(sum_of(s), s.len() as int)
}

/// Dropping the first element subtracts it from the sum.
pub proof fn lemma_sum_drop_first(s: Seq<i128>)
    requires
        s.len() >= 1,
    ensures
        sum_of(s) == s[0] + sum_of(s.subrange(1, s.len() as int)),
    decreases s.len(),
{
    if s.len() == 1 {
        assert(s.subrange(1, s.len() as int) =~= Seq::<i128>::empty());
        assert(s.drop_last() =~= Seq::<i128>::empty());
        assert(sum_of(s) == sum_of(s.drop_last()) + s.last());
        assert(s.last() == s[0]);
    } else {
        let t = s.drop_last();
        let sub = s.subrange(1, s.len() as int);
        lemma_sum_drop_first(t);
        assert(sub.drop_last() =~= t.subrange(1, t.len() as int));
        assert(sub.last() == s.last());
        assert(sum_of(sub) == sum_of(sub.drop_last()) + sub.last());
        assert(sum_of(s) == sum_of(t) + s.last());
    }
}

/// Dropping the first element subtracts its square from the sum of squares.
pub proof fn lemma_sum_sq_drop_first(s: Seq<i128>)
    requires
        s.len() >= 1,
    ensures
        sum_sq_of(s) == s[0] * s[0] + sum_sq_of(s.subrange(1, s.len() as int)),
    decreases s.len(),
{
    if s.len() == 1 {
        assert(s.subrange(1, s.len() as int) =~= Seq::<i128>::empty());
        assert(s.drop_last() =~= Seq::<i128>::empty());
        assert(sum_sq_of(s) == sum_sq_of(s.drop_last()) + s.last() * s.last());
        assert(s.last() == s[0]);
    } else {
        let t = s.drop_last();
        let sub = s.subrange(1, s.len() as int);
        lemma_sum_sq_drop_first(t);
        assert(sub.drop_last() =~= t.subrange(1, t.len() as int));
        assert(sub.last() == s.last());
        assert(sum_sq_of(sub) == sum_sq_of(sub.drop_last()) + sub.last() * sub.last());
        assert(sum_sq_of(s) == sum_sq_of(t) + s.last() * s.last());
    }
}

/// A bound on the elements bounds the sum by `len * limit`.
pub proof fn lemma_sum_bound(s: Seq<i128>, limit: int)
    requires
        limit >= 0,
        all_in_limit(s, limit),
    ensures
        -(s.len() * limit) <= sum_of(s) <= s.len() * limit,
    decreases s.len(),
{
    if s.len() == 0 {
    } else {
        let t = s.drop_last();
        assert(all_in_limit(t, limit));
        lemma_sum_bound(t, limit);
        assert(s.len() * limit == t.len() * limit + limit) by (nonlinear_arith)
            requires
                s.len() == t.len() + 1,
        {
        }
    }
}

/// A bound on the elements bounds the sum of squares by `len * limit^2`.
pub proof fn lemma_sum_sq_bound(s: Seq<i128>, limit: int)
    requires
        limit >= 0,
        all_in_limit(s, limit),
    ensures
        0 <= sum_sq_of(s) <= s.len() * (limit * limit),
    decreases s.len(),
{
    if s.len() == 0 {
    } else {
        let t = s.drop_last();
        assert(all_in_limit(t, limit));
        lemma_sum_sq_bound(t, limit);
        assert(0 <= s.last() * s.last() <= limit * limit) by (nonlinear_arith)
            requires
                -limit <= s.last() <= limit,
        {
        }
        assert(s.len() * (limit * limit) == t.len() * (limit * limit) + limit * limit)
            by (nonlinear_arith)
            requires
                s.len() == t.len() + 1,
        {
        }
    }
}

/// The minimum of a non-empty sequence is an element no other goes below.
pub proof fn lemma_min_is_extreme(s: Seq<i128>)
    requires
        s.len() >= 1,
    ensures
        forall|i: int| 0 <= i < s.len() ==> min_of(s) <= #[trigger] s[i],
        exists|i: int| 0 <= i < s.len() && min_of(s) == #[trigger] s[i],
    decreases s.len(),
{
    if s.len() > 1 {
        let t = s.drop_last();
        lemma_min_is_extreme(t);
        assert forall|i: int| 0 <= i < s.len() implies min_of(s) <= #[trigger] s[i] by {
            if i < s.len() - 1 {
                assert(s[i] == t[i]);
                assert(min_of(t) <= t[i]);
            }
        }
        if min_of(s) == s.last() {
            assert(min_of(s) == s[s.len() - 1]);
        } else {
            let j = choose|j: int| 0 <= j < t.len() && min_of(t) == #[trigger] t[j];
            assert(min_of(s) == s[j]);
        }
    } else {
        assert(min_of(s) == s[0]);
    }
}

/// The maximum of a non-empty sequence is an element no other exceeds.
pub proof fn lemma_max_is_extreme(s: Seq<i128>)
    requires
        s.len() >= 1,
    ensures
        forall|i: int| 0 <= i < s.len() ==> #[trigger] s[i] <= max_of(s),
        exists|i: int| 0 <= i < s.len() && max_of(s) == #[trigger] s[i],
    decreases s.len(),
{
    if s.len() > 1 {
        let t = s.drop_last();
        lemma_max_is_extreme(t);
        assert forall|i: int| 0 <= i < s.len() implies #[trigger] s[i] <= max_of(s) by {
            if i < s.len() - 1 {
                assert(s[i] == t[i]);
                assert(t[i] <= max_of(t));
            }
        }
        if max_of(s) == s.last() {
            assert(max_of(s) == s[s.len() - 1]);
        } else {
            let j = choose|j: int| 0 <= j < t.len() && max_of(t) == #[trigger] t[j];
            assert(max_of(s) == s[j]);
        }
    } else {
        assert(max_of(s) == s[0]);
    }
}

/// The most recent `period` scalar observations, oldest first, held in a
/// double-ended queue so that eviction and insertion are amortized
/// constant time. Whatever sequence of insertions is applied, the window
/// never holds more than `period` elements.
pub struct CountWindow {
    period: usize,
    values: VecDeque<i128>,
}

impl CountWindow {
    /// The fixed capacity chosen at construction.
    pub closed spec fn spec_period(self) -> int {
        self.period as int
    }

    /// The held observations, oldest first.
    pub closed spec fn contents(self) -> Seq<i128> {
        self.values@
    }

    /// Capacity in range, occupancy bounded by it, elements in range.
    pub open spec fn wf(self) -> bool {
        &&& 1 <= self.spec_period() <= PERIOD_LIMIT
        &&& self.contents().len() <= self.spec_period()
        &&& all_in_limit(self.contents(), INPUT_LIMIT as int)
    }

    pub fn new(period: usize) -> (r: CountWindow)
        requires
            1 <= period <= PERIOD_LIMIT,
        ensures
            r.wf(),
            r.spec_period() == period,
            r.contents() =~= Seq::<i128>::empty(),
    {
        CountWindow { period, values: VecDeque::new() }
    }

    /// The fixed capacity chosen at construction.
    pub fn period(&self) -> (r: usize)
        ensures
            r == self.spec_period(),
    {
        self.period
    }

    /// Drop every held observation, keeping the capacity.
    pub fn clear(&mut self)
        ensures
            final(self).spec_period() == old(self).spec_period(),
            final(self).contents() =~= Seq::<i128>::empty(),
    {
        self.values.clear();
    }

    pub fn len(&self) -> (r: usize)
        ensures
            r == self.contents().len(),
    {
        self.values.len()
    }

    pub fn get(&self, i: usize) -> (r: i128)
        requires
            i < self.contents().len(),
        ensures
            r == self.contents()[i as int],
    {
        self.values[i]
    }

    /// Append `v`, first evicting the oldest element if the window is at
    /// capacity; afterwards the window holds between one and `period`
    /// elements.
    pub fn insert(&mut self, v: i128) -> (evicted: Option<i128>)
        requires
            old(self).wf(),
            -INPUT_LIMIT <= v <= INPUT_LIMIT,
        ensures
            final(self).wf(),
            final(self).spec_period() == old(self).spec_period(),
            1 <= final(self).contents().len() <= final(self).spec_period(),
            final(self).contents() =~= slide(old(self).contents(), old(self).spec_period(), v),
            if old(self).contents().len() == old(self).spec_period() {
                evicted == Some(old(self).contents()[0])
            } else {
                evicted == None::<i128>
            },
    {
        let evicted: Option<i128> = if self.values.len() == self.period {
            self.values.pop_front()
        } else {
            None
        };
        self.values.push_back(v);
        evicted
    }
}

} // verus!
