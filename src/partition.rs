use vstd::prelude::*;

verus! {

/// The `Ok` values of `s`, in order.
pub open spec fn oks<T, E>(s: Seq<Result<T, E>>) -> Seq<T>
    decreases s.len(),
{
    if s.len() == 0 {
        Seq::empty()
    } else {
        match s.last() {
            Ok(v) => oks(s.drop_last()).push(v),
            Err(_) => oks(s.drop_last()),
        }
    }
}

/// The `Err` values of `s`, in order.
pub open spec fn errs<T, E>(s: Seq<Result<T, E>>) -> Seq<E>
    decreases s.len(),
{
    if s.len() == 0 {
        Seq::empty()
    } else {
        match s.last() {
            Ok(_) => errs(s.drop_last()),
            Err(e) => errs(s.drop_last()).push(e),
        }
    }
}

/// Splits outcomes into successes and failures, each in the order given.
pub fn partition<T, E>(outcomes: Vec<Result<T, E>>) -> (r: (Vec<T>, Vec<E>))
    ensures
        r.0@ == oks(outcomes@),
        r.1@ == errs(outcomes@),
{
    let ghost all = outcomes@;
    let n = outcomes.len();
    let mut rest = outcomes;
    let mut good: Vec<T> = Vec::new();
    let mut bad: Vec<E> = Vec::new();
    let mut i: usize = 0;
    while rest.len() > 0
        invariant
            n == all.len(),
            i <= n,
            rest@ == all.subrange(i as int, all.len() as int),
            good@ == oks(all.subrange(0, i as int)),
            bad@ == errs(all.subrange(0, i as int)),
        decreases rest@.len(),
    {
        let ghost next = all.subrange(0, i + 1);
        assert(next.drop_last() =~= all.subrange(0, i as int));
        let o = rest.remove(0);
        assert(o == all[i as int]);
        match o {
            Ok(v) => good.push(v),
            Err(e) => bad.push(e),
        }
        i = i + 1;
        assert(rest@ =~= all.subrange(i as int, all.len() as int));
    }
    assert(all.subrange(0, i as int) =~= all);
    (good, bad)
}

/// No outcome is lost or counted twice: the successes and the failures
/// together are as many as the outcomes.
pub proof fn lemma_partition_complete<T, E>(s: Seq<Result<T, E>>)
    ensures
        oks(s).len() + errs(s).len() == s.len(),
    decreases s.len(),
{
    if s.len() > 0 {
        lemma_partition_complete(s.drop_last());
    }
}

} // verus!
