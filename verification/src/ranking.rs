//! Putting a list in order, the first in rank at the front. Of two entries that
//! rank alike, the one that came first stays first.

use vstd::prelude::*;

verus! {

/// Things that have a rank.
pub trait Ranked: Sized {
    /// Whether this one comes before the other.
    spec fn outranks(self, other: Self) -> bool;

    /// Tells whether this one comes before the other.
    fn is_above(&self, other: &Self) -> (b: bool)
        ensures
            b == self.outranks(*other),
    ;

    /// Nothing comes before something that comes before it.
    proof fn one_way(a: Self, b: Self)
        ensures
            a.outranks(b) ==> !b.outranks(a),
    ;

    /// What comes before a second thing comes before or after any third.
    proof fn comparable(a: Self, b: Self, c: Self)
        ensures
            a.outranks(c) ==> a.outranks(b) || b.outranks(c),
    ;
}

/// Whether two things rank alike.
pub open spec fn tied<T: Ranked>(a: T, b: T) -> bool {
    !a.outranks(b) && !b.outranks(a)
}

/// The entries that rank like the given one.
pub open spec fn ties<T: Ranked>(s: Seq<T>, t: T) -> Seq<T> {
    s.filter(|y: T| tied(y, t))
}

/// An ordered list with one more entry, behind all that it does not outrank.
pub open spec fn placed<T: Ranked>(s: Seq<T>, x: T) -> Seq<T>
    decreases s.len(),
{
    if s.len() > 0 && x.outranks(s.last()) {
        placed(s.drop_last(), x).push(s.last())
    } else {
        s.push(x)
    }
}

/// The list in order.
pub open spec fn ranked<T: Ranked>(s: Seq<T>) -> Seq<T>
    decreases s.len(),
{
    if s.len() == 0 {
        s
    } else {
        placed(ranked(s.drop_last()), s.last())
    }
}

/// Whether nothing stands behind something that it outranks.
pub open spec fn in_order<T: Ranked>(s: Seq<T>) -> bool {
    forall|i: int, j: int| 0 <= i < j < s.len() ==> !(#[trigger] s[j]).outranks(#[trigger] s[i])
}

proof fn lemma_placed_len<T: Ranked>(s: Seq<T>, x: T)
    ensures
        placed(s, x).len() == s.len() + 1,
    decreases s.len(),
{
    if s.len() > 0 && x.outranks(s.last()) {
        lemma_placed_len(s.drop_last(), x);
    }
}

proof fn lemma_ranked_len<T: Ranked>(s: Seq<T>)
    ensures
        ranked(s).len() == s.len(),
    decreases s.len(),
{
    if s.len() > 0 {
        lemma_ranked_len(s.drop_last());
        lemma_placed_len(ranked(s.drop_last()), s.last());
    }
}

proof fn lemma_placed_at<T: Ranked>(s: Seq<T>, x: T, p: int)
    requires
        0 <= p <= s.len(),
        p > 0 ==> !x.outranks(s[p - 1]),
        forall|i: int| p <= i < s.len() ==> x.outranks(#[trigger] s[i]),
    ensures
        placed(s, x) == s.insert(p, x),
    decreases s.len(),
{
    if p < s.len() {
        let rest = s.drop_last();
        assert(x.outranks(s[s.len() - 1]));
        lemma_placed_at(rest, x, p);
        assert(rest.insert(p, x).push(s.last()) =~= s.insert(p, x));
    } else {
        assert(s.insert(p, x) =~= s.push(x));
    }
}

proof fn lemma_placed_multiset<T: Ranked>(s: Seq<T>, x: T)
    ensures
        placed(s, x).to_multiset() == s.to_multiset().insert(x),
    decreases s.len(),
{
    broadcast use vstd::seq_lib::group_to_multiset_ensures;

    if s.len() > 0 && x.outranks(s.last()) {
        let rest = s.drop_last();
        lemma_placed_multiset(rest, x);
        assert(rest.push(s.last()) =~= s);
        assert(placed(s, x) == placed(rest, x).push(s.last()));
        assert(placed(s, x).to_multiset() =~= s.to_multiset().insert(x));
    }
}

proof fn lemma_placed_order<T: Ranked>(s: Seq<T>, x: T)
    requires
        in_order(s),
    ensures
        in_order(placed(s, x)),
        forall|i: int|
            0 <= i < placed(s, x).len() ==> (#[trigger] placed(s, x)[i]) == x || s.contains(
                placed(s, x)[i],
            ),
    decreases s.len(),
{
    lemma_placed_len(s, x);
    if s.len() > 0 && x.outranks(s.last()) {
        let rest = s.drop_last();
        assert(in_order(rest)) by {
            assert forall|i: int, j: int| 0 <= i < j < rest.len() implies !(
            #[trigger] rest[j]).outranks(#[trigger] rest[i]) by {
                assert(!s[j].outranks(s[i]));
            }
        }
        lemma_placed_order(rest, x);
        let front = placed(rest, x);
        let all = placed(s, x);
        lemma_placed_len(rest, x);
        assert(all == front.push(s.last()));
        assert forall|i: int| 0 <= i < front.len() implies !s.last().outranks(
            #[trigger] front[i],
        ) by {
            if front[i] == x {
                T::one_way(x, s.last());
            } else {
                let k = choose|k: int| 0 <= k < rest.len() && rest[k] == front[i];
                assert(!s[s.len() - 1].outranks(s[k]));
            }
        }
        assert forall|i: int| 0 <= i < all.len() implies (#[trigger] all[i]) == x || s.contains(
            all[i],
        ) by {
            if i < front.len() && front[i] != x {
                let k = choose|k: int| 0 <= k < rest.len() && rest[k] == front[i];
                assert(s[k] == all[i]);
            } else if i == front.len() {
                assert(s[s.len() - 1] == all[i]);
            }
        }
    } else {
        let all = placed(s, x);
        assert(all == s.push(x));
        assert forall|i: int, j: int| 0 <= i < j < all.len() implies !(#[trigger] all[j]).outranks(
            #[trigger] all[i],
        ) by {
            if j == s.len() {
                let last = s.last();
                if i < s.len() - 1 {
                    assert(!s[s.len() - 1].outranks(s[i]));
                    T::comparable(x, last, s[i]);
                }
            } else {
                assert(!s[j].outranks(s[i]));
            }
        }
        assert forall|i: int| 0 <= i < all.len() implies (#[trigger] all[i]) == x || s.contains(
            all[i],
        ) by {
            if i < s.len() {
                assert(s[i] == all[i]);
            }
        }
    }
}

proof fn lemma_ties_push<T: Ranked>(s: Seq<T>, x: T, t: T)
    ensures
        ties(s.push(x), t) == if tied(x, t) {
            ties(s, t).push(x)
        } else {
            ties(s, t)
        },
{
    reveal(Seq::filter);
    assert(s.push(x).drop_last() =~= s);
}

proof fn lemma_placed_stable<T: Ranked>(s: Seq<T>, x: T, t: T)
    ensures
        ties(placed(s, x), t) == ties(s.push(x), t),
    decreases s.len(),
{
    if s.len() > 0 && x.outranks(s.last()) {
        let rest = s.drop_last();
        let last = s.last();
        assert(rest.push(last) =~= s);
        lemma_placed_stable(rest, x, t);
        lemma_ties_push(placed(rest, x), last, t);
        lemma_ties_push(rest, x, t);
        lemma_ties_push(rest, last, t);
        lemma_ties_push(s, x, t);
        // Not both of them are tied with `t`, or they would be tied with each
        // other.
        T::comparable(x, t, last);
    }
}

/// Putting a list in order keeps every entry, leaves nothing behind something
/// that it outranks, and keeps entries that rank alike in the order they had.
pub proof fn law_ranked<T: Ranked>(s: Seq<T>)
    ensures
        ranked(s).len() == s.len(),
        ranked(s).to_multiset() == s.to_multiset(),
        in_order(ranked(s)),
        forall|t: T| (#[trigger] ties(ranked(s), t)) == ties(s, t),
    decreases s.len(),
{
    broadcast use vstd::seq_lib::group_to_multiset_ensures;

    if s.len() > 0 {
        let rest = s.drop_last();
        law_ranked(rest);
        lemma_placed_len(ranked(rest), s.last());
        lemma_placed_multiset(ranked(rest), s.last());
        lemma_placed_order(ranked(rest), s.last());
        assert(rest.push(s.last()) =~= s);
        assert forall|t: T| (#[trigger] ties(ranked(s), t)) == ties(s, t) by {
            lemma_placed_stable(ranked(rest), s.last(), t);
            lemma_ties_push(ranked(rest), s.last(), t);
            lemma_ties_push(rest, s.last(), t);
            assert(ties(ranked(rest), t) == ties(rest, t));
        }
    }
}

/// The entries of an ordered list are those of the list.
pub proof fn lemma_ranked_contains<T: Ranked>(s: Seq<T>, x: T)
    ensures
        ranked(s).contains(x) == s.contains(x),
{
    broadcast use vstd::seq_lib::group_to_multiset_ensures;

    law_ranked(s);
    assert(ranked(s).contains(x) <==> ranked(s).to_multiset().count(x) > 0);
    assert(s.contains(x) <==> s.to_multiset().count(x) > 0);
}

/// Puts a list in order.
pub fn rank<T: Ranked>(v: &mut Vec<T>)
    ensures
        final(v)@ == ranked(old(v)@),
{
    let ghost all = v@;
    let n: usize = v.len();
    let mut i: usize = 0;
    assert(all.take(0) + all.skip(0) =~= all);
    while i < n
        invariant
            i <= n,
            n == all.len(),
            v@ == ranked(all.take(i as int)) + all.skip(i as int),
        decreases n - i,
    {
        let ghost front = ranked(all.take(i as int));
        proof {
            lemma_ranked_len(all.take(i as int));
        }
        assert(v@.len() == n);
        assert(v@[i as int] == all[i as int]);
        let x = v.remove(i);
        assert(v@ =~= front + all.skip(i + 1));
        let mut p: usize = i;
        while p > 0 && x.is_above(&v[p - 1])
            invariant
                p <= i < n,
                n == all.len(),
                front.len() == i,
                v@ == front + all.skip(i + 1),
                forall|j: int| p <= j < i ==> x.outranks(#[trigger] front[j]),
            decreases p,
        {
            assert(v@[p - 1] == front[p - 1]);
            p -= 1;
        }
        if p > 0 {
            assert(v@[p - 1] == front[p - 1]);
        }
        v.insert(p, x);
        proof {
            lemma_placed_at(front, x, p as int);
            assert(all.take(i + 1).drop_last() =~= all.take(i as int));
            assert(all.take(i + 1).last() == x);
            assert(v@ =~= front.insert(p as int, x) + all.skip(i + 1));
        }
        i += 1;
    }
    assert(all.take(n as int) =~= all);
    assert(ranked(all) + all.skip(n as int) =~= ranked(all));
}

} // verus!
