//! Set-like operations on vectors: uniqueness, intersection and union,
//! each preserving the order of first occurrences.

use vstd::prelude::*;

verus! {

/// The distinct elements of `s`, each at its first occurrence, in order.
pub open spec fn spec_unique(s: Seq<u64>) -> Seq<u64>
    decreases s.len(),
{
    if s.len() == 0 {
        Seq::empty()
    } else if s.drop_last().contains(s.last()) {
        spec_unique(s.drop_last())
    } else {
        spec_unique(s.drop_last()).push(s.last())
    }
}

/// `spec_unique` keeps exactly the membership of its input.
pub proof fn lemma_spec_unique_membership(s: Seq<u64>, x: u64)
    ensures
        spec_unique(s).contains(x) <==> s.contains(x),
    decreases s.len(),
{
    if s.len() > 0 {
        lemma_spec_unique_membership(s.drop_last(), x);
        if s.contains(x) && !s.drop_last().contains(x) {
            let i = choose|i: int| 0 <= i < s.len() && s[i] == x;
            if i < s.len() - 1 {
                assert(s.drop_last()[i] == x);
            }
            assert(x == s.last());
        }
        if spec_unique(s).contains(x) && !s.drop_last().contains(s.last()) {
            let u = spec_unique(s.drop_last());
            if u.push(s.last()).contains(x) {
                let i = choose|i: int| 0 <= i < u.push(s.last()).len() && u.push(s.last())[i] == x;
                if i < u.len() {
                    assert(u[i] == x);
                }
            }
        }
        if s.contains(x) {
            if s.drop_last().contains(x) {
                assert(spec_unique(s.drop_last()).contains(x));
                if !s.drop_last().contains(s.last()) {
                    let u = spec_unique(s.drop_last());
                    let i = choose|i: int| 0 <= i < u.len() && u[i] == x;
                    assert(u.push(s.last())[i] == x);
                }
            } else {
                let u = spec_unique(s.drop_last());
                assert(u.push(s.last())[u.len() as int] == x);
            }
        }
    }
}

/// `spec_unique` never repeats an element.
pub proof fn lemma_spec_unique_no_duplicates(s: Seq<u64>)
    ensures
        spec_unique(s).no_duplicates(),
    decreases s.len(),
{
    if s.len() > 0 {
        lemma_spec_unique_no_duplicates(s.drop_last());
        if !s.drop_last().contains(s.last()) {
            lemma_spec_unique_membership(s.drop_last(), s.last());
            let u = spec_unique(s.drop_last());
            assert forall|i: int, j: int|
                0 <= i < j < u.push(s.last()).len() implies u.push(s.last())[i] != u.push(
                s.last(),
            )[j] by {
                if j < u.len() {
                    assert(u[i] != u[j]);
                } else {
                    assert(u.push(s.last())[j] == s.last());
                    assert(u.contains(u[i])) by {
                        assert(u[i] == u[i]);
                    }
                }
            }
        }
    }
}

/// `spec_unique` never grows its input.
pub proof fn lemma_spec_unique_len(s: Seq<u64>)
    ensures
        spec_unique(s).len() <= s.len(),
    decreases s.len(),
{
    if s.len() > 0 {
        lemma_spec_unique_len(s.drop_last());
    }
}

/// The elements of `s` selected by a per-position verdict mask, in order.
pub open spec fn mask_filter(s: Seq<u64>, keep: Seq<bool>) -> Seq<u64>
    decreases s.len(),
{
    if s.len() == 0 || keep.len() != s.len() {
        Seq::empty()
    } else if keep.last() {
        mask_filter(s.drop_last(), keep.drop_last()).push(s.last())
    } else {
        mask_filter(s.drop_last(), keep.drop_last())
    }
}

/// The comparator answered false for `s[i]` against every earlier element.
pub open spec fn cleared_by_predecessors<F: Fn(&u64, &u64) -> bool>(
    f: F,
    s: Seq<u64>,
    i: int,
) -> bool {
    forall|p: int| 0 <= p < i ==> call_ensures(f, (&s[p], &s[i]), false)
}

/// The comparator answered true for `s[i]` against some earlier element.
pub open spec fn condemned_by_predecessor<F: Fn(&u64, &u64) -> bool>(
    f: F,
    s: Seq<u64>,
    i: int,
) -> bool {
    exists|p: int| 0 <= p < i && call_ensures(f, (&s[p], &s[i]), true)
}

/// Some element of `pool`, passed first, made the comparator answer true
/// for `x`.
pub open spec fn pool_matched<F: Fn(&u64, &u64) -> bool>(f: F, pool: Seq<u64>, x: u64) -> bool {
    exists|j: int| 0 <= j < pool.len() && call_ensures(f, (&pool[j], &x), true)
}

/// Every element of `pool`, passed first, made the comparator answer false
/// for `x`.
pub open spec fn pool_cleared<F: Fn(&u64, &u64) -> bool>(f: F, pool: Seq<u64>, x: u64) -> bool {
    forall|j: int| 0 <= j < pool.len() ==> call_ensures(f, (&pool[j], &x), false)
}

/// The comparator answered true for `x`, passed first, against some element
/// of `pool`.
pub open spec fn matched_in<F: Fn(&u64, &u64) -> bool>(v: F, x: u64, pool: Seq<u64>) -> bool {
    exists|j: int| 0 <= j < pool.len() && call_ensures(v, (&x, &pool[j]), true)
}

/// The comparator answered false for `x`, passed first, against every
/// element of `pool`.
pub open spec fn unmatched_in<F: Fn(&u64, &u64) -> bool>(v: F, x: u64, pool: Seq<u64>) -> bool {
    forall|j: int| 0 <= j < pool.len() ==> call_ensures(v, (&x, &pool[j]), false)
}

/// Whether `v` holds `x`.
pub fn contains_u64(v: &Vec<u64>, x: u64) -> (r: bool)
    ensures
        r == v@.contains(x),
{
    let n = v.len();
    for i in 0..n
        invariant
            n == v@.len(),
            forall|j: int| 0 <= j < i ==> v@[j] != x,
    {
        if v[i] == x {
            return true;
        }
    }
    false
}

/// Several different methods for getting, or evaluating, uniqueness.
pub trait Uniq<T>: Sized {
    /// The unique values of `self` that do not occur in `other`.
    fn uniq(&self, other: Self) -> Self;

    /// `self` with duplicates removed, keeping first occurrences in order.
    fn unique(&self) -> Self;

    /// Whether all values within `self` are unique.
    fn is_unique(&self) -> bool;

    /// Like `uniq`, under a caller-provided comparator.
    fn uniq_via<F: Fn(&T, &T) -> bool>(&self, other: Self, f: F) -> Self
        requires
            forall|x: &T, y: &T| call_requires(f, (x, y)),
    ;

    /// Like `unique`, under a caller-provided comparator.
    fn unique_via<F: Fn(&T, &T) -> bool>(&self, f: F) -> Self
        requires
            forall|x: &T, y: &T| call_requires(f, (x, y)),
    ;

    /// Like `is_unique`, under a caller-provided comparator.
    fn is_unique_via<F: Fn(&T, &T) -> bool>(&self, f: F) -> bool
        requires
            forall|x: &T, y: &T| call_requires(f, (x, y)),
    ;
}

/// Set intersection: the elements common to the two vectors, without
/// duplicates, in the order of the original vector.
pub trait Intersect<T>: Sized {
    /// The deduplicated elements of `self` that also occur in `other`.
    fn intersect(&self, other: Self) -> Self;

    /// Like `intersect`, under a caller-provided comparator.
    fn intersect_if<F: Fn(&T, &T) -> bool>(&self, other: Self, validator: F) -> Self
        requires
            forall|x: &T, y: &T| call_requires(validator, (x, y)),
    ;
}

/// Set union: `self` joined with `other`, without duplicates, preserving
/// the order of first occurrences.
pub trait Union: Sized {
    /// The deduplicated concatenation of `self` and `other`.
    fn union(&self, other: Self) -> Self;
}

impl Uniq<u64> for Vec<u64> {
    fn uniq(&self, other: Vec<u64>) -> (r: Vec<u64>)
        ensures
            r@ == spec_unique(self@).filter(|x: u64| !other@.contains(x)),
    {
        let u = self.unique();
        let ghost su = spec_unique(self@);
        let mut out: Vec<u64> = Vec::new();
        let n = u.len();
        for i in 0..n
            invariant
                n == u@.len(),
                u@ == su,
                out@ == su.take(i as int).filter(|x: u64| !other@.contains(x)),
        {
            proof {
                reveal(Seq::filter);
                assert(su.take(i + 1).drop_last() =~= su.take(i as int));
            }
            if !contains_u64(&other, u[i]) {
                out.push(u[i]);
            }
        }
        proof {
            assert(su.take(n as int) =~= su);
        }
        out
    }

    fn unique(&self) -> (r: Vec<u64>)
        ensures
            r@ == spec_unique(self@),
    {
        let mut out: Vec<u64> = Vec::new();
        let n = self.len();
        for i in 0..n
            invariant
                n == self@.len(),
                out@ == spec_unique(self@.take(i as int)),
        {
            proof {
                assert(self@.take(i + 1).drop_last() =~= self@.take(i as int));
                lemma_spec_unique_membership(self@.take(i as int), self@[i as int]);
            }
            if !contains_u64(&out, self[i]) {
                out.push(self[i]);
            }
        }
        proof {
            assert(self@.take(n as int) =~= self@);
        }
        out
    }

    fn is_unique(&self) -> (r: bool)
        ensures
            r == self@.no_duplicates(),
    {
        let n = self.len();
        for i in 0..n
            invariant
                n == self@.len(),
                forall|p: int, q: int| 0 <= p < q < i ==> self@[p] != self@[q],
                forall|p: int, q: int| 0 <= p < i && p < q < n ==> self@[p] != self@[q],
        {
            for j in i + 1..n
                invariant
                    i < n == self@.len(),
                    forall|q: int| i < q < j ==> self@[i as int] != self@[q],
            {
                if self[i] == self[j] {
                    return false;
                }
            }
        }
        true
    }

    /// From the deduplicated `self`, keeps exactly the elements for which
    /// the comparator, asked with each deduplicated element of `other`
    /// first, never answered true.
    fn uniq_via<F: Fn(&u64, &u64) -> bool>(&self, other: Vec<u64>, f: F) -> (r: Vec<u64>)
        ensures
            r@.len() <= self@.len(),
            forall|k: int| 0 <= k < r@.len() ==> self@.contains(#[trigger] r@[k]),
            exists|keep: Seq<bool>|
                {
                    &&& keep.len() == spec_unique(self@).len()
                    &&& r@ == mask_filter(spec_unique(self@), keep)
                    &&& forall|i: int|
                        0 <= i < keep.len() ==> ((#[trigger] keep[i] ==> pool_cleared(
                            f,
                            spec_unique(other@),
                            spec_unique(self@)[i],
                        )) && (!keep[i] ==> pool_matched(
                            f,
                            spec_unique(other@),
                            spec_unique(self@)[i],
                        )))
                },
    {
        let u = self.unique();
        let pool = other.unique();
        let ghost su = spec_unique(self@);
        let ghost pu = spec_unique(other@);
        let n = u.len();
        let m = pool.len();
        proof {
            lemma_spec_unique_len(self@);
        }
        let mut out: Vec<u64> = Vec::new();
        let ghost mut keep: Seq<bool> = Seq::empty();
        for i in 0..n
            invariant
                n == u@.len(),
                m == pool@.len(),
                u@ == su,
                pool@ == pu,
                su == spec_unique(self@),
                pu == spec_unique(other@),
                su.len() <= self@.len(),
                forall|x: &u64, y: &u64| call_requires(f, (x, y)),
                keep.len() == i,
                out@ == mask_filter(su.take(i as int), keep),
                out@.len() <= i,
                forall|k: int| 0 <= k < out@.len() ==> self@.contains(#[trigger] out@[k]),
                forall|t: int|
                    0 <= t < i ==> ((#[trigger] keep[t] ==> pool_cleared(f, pu, su[t])) && (
                    !keep[t] ==> pool_matched(f, pu, su[t]))),
        {
            let mut hit = false;
            for j in 0..m
                invariant_except_break
                    !hit,
                    forall|q: int| 0 <= q < j ==> call_ensures(f, (&pu[q], &su[i as int]), false),
                invariant
                    i < n == u@.len(),
                    m == pool@.len(),
                    u@ == su,
                    pool@ == pu,
                    forall|x: &u64, y: &u64| call_requires(f, (x, y)),
                ensures
                    hit ==> pool_matched(f, pu, su[i as int]),
                    !hit ==> pool_cleared(f, pu, su[i as int]),
            {
                if f(&pool[j], &u[i]) {
                    hit = true;
                    break ;
                }
            }
            if !hit {
                let ghost prev_out = out@;
                out.push(u[i]);
                proof {
                    assert(su.contains(su[i as int]));
                    lemma_spec_unique_membership(self@, su[i as int]);
                    assert forall|k: int| 0 <= k < out@.len() implies self@.contains(
                        #[trigger] out@[k],
                    ) by {
                        if k < prev_out.len() {
                            assert(out@[k] == prev_out[k]);
                        } else {
                            assert(out@[k] == su[i as int]);
                        }
                    }
                }
            }
            proof {
                let prev = keep;
                keep = keep.push(!hit);
                assert(keep.drop_last() =~= prev);
                assert(su.take(i + 1).drop_last() =~= su.take(i as int));
                assert(su.take(i + 1).last() == su[i as int]);
                assert(out@ == mask_filter(su.take(i + 1), keep));
            }
        }
        proof {
            assert(su.take(n as int) =~= su);
        }
        out
    }

    /// Keeps exactly the elements of `self` for which the comparator, asked
    /// against every earlier element of `self`, never answered true; the
    /// first element always survives.
    fn unique_via<F: Fn(&u64, &u64) -> bool>(&self, f: F) -> (r: Vec<u64>)
        ensures
            r@.len() <= self@.len(),
            self@.len() > 0 ==> r@.len() > 0 && r@[0] == self@[0],
            forall|k: int| 0 <= k < r@.len() ==> self@.contains(#[trigger] r@[k]),
            exists|keep: Seq<bool>|
                {
                    &&& keep.len() == self@.len()
                    &&& r@ == mask_filter(self@, keep)
                    &&& forall|i: int|
                        0 <= i < keep.len() ==> ((#[trigger] keep[i] ==> cleared_by_predecessors(
                            f,
                            self@,
                            i,
                        )) && (!keep[i] ==> condemned_by_predecessor(f, self@, i)))
                },
    {
        let n = self.len();
        let mut out: Vec<u64> = Vec::new();
        let ghost mut keep: Seq<bool> = Seq::empty();
        for i in 0..n
            invariant
                n == self@.len(),
                forall|x: &u64, y: &u64| call_requires(f, (x, y)),
                keep.len() == i,
                out@ == mask_filter(self@.take(i as int), keep),
                out@.len() <= i,
                i > 0 ==> out@.len() > 0 && out@[0] == self@[0],
                forall|k: int| 0 <= k < out@.len() ==> self@.contains(#[trigger] out@[k]),
                forall|t: int|
                    0 <= t < i ==> ((#[trigger] keep[t] ==> cleared_by_predecessors(
                        f,
                        self@,
                        t,
                    )) && (!keep[t] ==> condemned_by_predecessor(f, self@, t))),
        {
            let mut hit = false;
            for p in 0..i
                invariant_except_break
                    !hit,
                    forall|q: int|
                        0 <= q < p ==> call_ensures(f, (&self@[q], &self@[i as int]), false),
                invariant
                    i < n == self@.len(),
                    forall|x: &u64, y: &u64| call_requires(f, (x, y)),
                ensures
                    hit ==> condemned_by_predecessor(f, self@, i as int),
                    !hit ==> cleared_by_predecessors(f, self@, i as int),
            {
                if f(&self[p], &self[i]) {
                    hit = true;
                    break ;
                }
            }
            if !hit {
                out.push(self[i]);
                proof {
                    assert(self@.contains(self@[i as int]));
                }
            }
            proof {
                let prev = keep;
                keep = keep.push(!hit);
                assert(keep.drop_last() =~= prev);
                assert(self@.take(i + 1).drop_last() =~= self@.take(i as int));
                assert(self@.take(i + 1).last() == self@[i as int]);
                assert(out@ == mask_filter(self@.take(i + 1), keep));
            }
        }
        proof {
            assert(self@.take(n as int) =~= self@);
        }
        out
    }

    fn is_unique_via<F: Fn(&u64, &u64) -> bool>(&self, f: F) -> (r: bool)
        ensures
            !r ==> exists|i: int, j: int|
                0 <= i < j < self@.len() && call_ensures(f, (&self@[i], &self@[j]), true),
            r ==> forall|i: int, j: int|
                0 <= i < j < self@.len() ==> call_ensures(f, (&self@[i], &self@[j]), false),
    {
        let n = self.len();
        for i in 0..n
            invariant
                n == self@.len(),
                forall|x: &u64, y: &u64| call_requires(f, (x, y)),
                forall|p: int, q: int|
                    0 <= p < i && p < q < n ==> call_ensures(f, (&self@[p], &self@[q]), false),
        {
            for j in i + 1..n
                invariant
                    i < n == self@.len(),
                    forall|x: &u64, y: &u64| call_requires(f, (x, y)),
                    forall|p: int, q: int|
                        0 <= p < i && p < q < n ==> call_ensures(f, (&self@[p], &self@[q]), false),
                    forall|q: int|
                        i < q < j ==> call_ensures(f, (&self@[i as int], &self@[q]), false),
            {
                if f(&self[i], &self[j]) {
                    return false;
                }
            }
        }
        true
    }
}

impl Intersect<u64> for Vec<u64> {
    fn intersect(&self, other: Vec<u64>) -> (r: Vec<u64>)
        ensures
            r@ == spec_unique(self@).filter(|x: u64| other@.contains(x)),
    {
        let u = self.unique();
        let ghost su = spec_unique(self@);
        let mut out: Vec<u64> = Vec::new();
        let n = u.len();
        for i in 0..n
            invariant
                n == u@.len(),
                u@ == su,
                out@ == su.take(i as int).filter(|x: u64| other@.contains(x)),
        {
            proof {
                reveal(Seq::filter);
                assert(su.take(i + 1).drop_last() =~= su.take(i as int));
            }
            if contains_u64(&other, u[i]) {
                out.push(u[i]);
            }
        }
        proof {
            assert(su.take(n as int) =~= su);
        }
        out
    }

    /// From the deduplicated `self`, keeps exactly the elements for which
    /// the comparator, asked with the element first against some member of
    /// `other`, answered true.
    fn intersect_if<F: Fn(&u64, &u64) -> bool>(&self, other: Vec<u64>, validator: F) -> (r: Vec<
        u64,
    >)
        ensures
            r@.len() <= self@.len(),
            forall|k: int| 0 <= k < r@.len() ==> self@.contains(#[trigger] r@[k]),
            exists|keep: Seq<bool>|
                {
                    &&& keep.len() == spec_unique(self@).len()
                    &&& r@ == mask_filter(spec_unique(self@), keep)
                    &&& forall|i: int|
                        0 <= i < keep.len() ==> ((#[trigger] keep[i] ==> matched_in(
                            validator,
                            spec_unique(self@)[i],
                            other@,
                        )) && (!keep[i] ==> unmatched_in(validator, spec_unique(self@)[i], other@)))
                },
    {
        let a = self.unique();
        let ghost su = spec_unique(self@);
        let n = a.len();
        let m = other.len();
        proof {
            lemma_spec_unique_len(self@);
        }
        let mut out: Vec<u64> = Vec::new();
        let ghost mut keep: Seq<bool> = Seq::empty();
        for i in 0..n
            invariant
                n == a@.len(),
                m == other@.len(),
                a@ == su,
                su == spec_unique(self@),
                su.len() <= self@.len(),
                forall|x: &u64, y: &u64| call_requires(validator, (x, y)),
                keep.len() == i,
                out@ == mask_filter(su.take(i as int), keep),
                out@.len() <= i,
                forall|k: int| 0 <= k < out@.len() ==> self@.contains(#[trigger] out@[k]),
                forall|t: int|
                    0 <= t < i ==> ((#[trigger] keep[t] ==> matched_in(validator, su[t], other@))
                        && (!keep[t] ==> unmatched_in(validator, su[t], other@))),
        {
            let mut hit = false;
            for j in 0..m
                invariant_except_break
                    !hit,
                    forall|q: int|
                        0 <= q < j ==> call_ensures(
                            validator,
                            (&su[i as int], &other@[q]),
                            false,
                        ),
                invariant
                    i < n == a@.len(),
                    m == other@.len(),
                    a@ == su,
                    forall|x: &u64, y: &u64| call_requires(validator, (x, y)),
                ensures
                    hit ==> matched_in(validator, su[i as int], other@),
                    !hit ==> unmatched_in(validator, su[i as int], other@),
            {
                if validator(&a[i], &other[j]) {
                    hit = true;
                    break ;
                }
            }
            if hit {
                let ghost prev_out = out@;
                out.push(a[i]);
                proof {
                    assert(su.contains(su[i as int]));
                    lemma_spec_unique_membership(self@, su[i as int]);
                    assert forall|k: int| 0 <= k < out@.len() implies self@.contains(
                        #[trigger] out@[k],
                    ) by {
                        if k < prev_out.len() {
                            assert(out@[k] == prev_out[k]);
                        } else {
                            assert(out@[k] == su[i as int]);
                        }
                    }
                }
            }
            proof {
                let prev = keep;
                keep = keep.push(hit);
                assert(keep.drop_last() =~= prev);
                assert(su.take(i + 1).drop_last() =~= su.take(i as int));
                assert(su.take(i + 1).last() == su[i as int]);
                assert(out@ == mask_filter(su.take(i + 1), keep));
            }
        }
        proof {
            assert(su.take(n as int) =~= su);
        }
        out
    }
}

impl Union for Vec<u64> {
    fn union(&self, other: Vec<u64>) -> (r: Vec<u64>)
        ensures
            r@ == spec_unique(self@ + other@),
    {
        let mut stack: Vec<u64> = Vec::new();
        let n = self.len();
        for i in 0..n
            invariant
                n == self@.len(),
                stack@ == self@.take(i as int),
        {
            stack.push(self[i]);
            proof {
                assert(stack@ =~= self@.take(i + 1));
            }
        }
        let m = other.len();
        for i in 0..m
            invariant
                m == other@.len(),
                stack@ == self@ + other@.take(i as int),
            {
            stack.push(other[i]);
            proof {
                assert(stack@ =~= self@ + other@.take(i + 1));
            }
        }
        proof {
            assert(self@.take(n as int) =~= self@);
            assert(self@ + other@.take(m as int) =~= self@ + other@);
        }
        stack.unique()
    }
}

} // verus!
