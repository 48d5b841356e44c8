//! Keeping some entries of a list and dropping the rest.

use vstd::prelude::*;

verus! {

/// A list's kept entries with one more entry.
pub proof fn lemma_filter_push<T>(s: Seq<T>, x: T, p: spec_fn(T) -> bool)
    ensures
        s.push(x).filter(p) == if p(x) {
            s.filter(p).push(x)
        } else {
            s.filter(p)
        },
{
    reveal(Seq::filter);
    assert(s.push(x).drop_last() =~= s);
}

/// What is kept of a list was in it and is of the kind to be kept; and all of
/// that kind is kept.
pub proof fn lemma_filter_contains<T>(s: Seq<T>, p: spec_fn(T) -> bool, x: T)
    ensures
        s.filter(p).contains(x) == (s.contains(x) && p(x)),
    decreases s.len(),
{
    reveal(Seq::filter);
    if s.len() > 0 {
        let rest = s.drop_last();
        lemma_filter_contains(rest, p, x);
        assert(rest.push(s.last()) =~= s);
        lemma_filter_push(rest, s.last(), p);
        let kept = rest.filter(p);
        if p(s.last()) {
            assert(s.filter(p) == kept.push(s.last()));
            assert(kept.push(s.last())[kept.len() as int] == s.last());
            if kept.contains(x) {
                let k = choose|k: int| 0 <= k < kept.len() && kept[k] == x;
                assert(kept.push(s.last())[k] == x);
            }
        }
        if rest.contains(x) {
            let k = choose|k: int| 0 <= k < rest.len() && rest[k] == x;
            assert(s[k] == x);
        }
        if s.contains(x) {
            let k = choose|k: int| 0 <= k < s.len() && s[k] == x;
            if k < rest.len() {
                assert(rest[k] == x);
            }
        }
    }
}

/// Keeps the entries that the test accepts, in their order.
pub(crate) fn retain<T, F: Fn(&T) -> bool>(v: &mut Vec<T>, test: F, p: Ghost<spec_fn(T) -> bool>)
    requires
        forall|x: &T| test.requires((x,)),
        forall|x: &T, b: bool| test.ensures((x,), b) ==> b == (p@)(*x),
    ensures
        final(v)@ == old(v)@.filter(p@),
{
    let ghost all = v@;
    let ghost mut k: int = 0;
    let mut i: usize = 0;
    proof {
        reveal(Seq::filter);
        assert(all.take(0).filter(p@) + all.skip(0) =~= all);
    }
    while i < v.len()
        invariant
            0 <= k <= all.len(),
            i == all.take(k).filter(p@).len(),
            v@ == all.take(k).filter(p@) + all.skip(k),
            forall|x: &T| test.requires((x,)),
            forall|x: &T, b: bool| test.ensures((x,), b) ==> b == (p@)(*x),
        decreases all.len() - k,
    {
        let ghost front = all.take(k).filter(p@);
        assert(v@[i as int] == all[k]);
        proof {
            assert(all.take(k).push(all[k]) =~= all.take(k + 1));
            lemma_filter_push(all.take(k), all[k], p@);
        }
        let keep = test(&v[i]);
        if keep {
            assert(front.push(all[k]) + all.skip(k + 1) =~= v@);
            i += 1;
        } else {
            let _dropped = v.remove(i);
            assert(v@ =~= front + all.skip(k + 1));
        }
        proof {
            k = k + 1;
        }
    }
    assert(k == all.len());
    assert(all.take(k) =~= all);
    assert(v@ =~= all.filter(p@));
}

} // verus!
