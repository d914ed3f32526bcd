use vstd::prelude::*;

verus! {

/// The present items of `optional`, in order.
pub open spec fn present<T>(optional: Seq<Option<T>>) -> Seq<T>
    decreases optional.len(),
{
    if optional.len() == 0 {
        Seq::empty()
    } else {
        let front = present(optional.drop_last());
        match optional.last() {
            Some(x) => front.push(x),
            None => front,
        }
    }
}

/// Combines a list of `T` and a list of [`Option<T>`]: all of `required`,
/// then the present items of `optional`, each in the order it came in.
pub fn chain_iterator<T>(required: Vec<T>, optional: Vec<Option<T>>) -> (r: Vec<T>)
    ensures
        r@ == required@ + present(optional@),
{
    let mut out = required;
    let ghost base = out@;
    let ghost all = optional@;
    for item in it: optional
        invariant
            it.seq() == all,
            out@ == base + present(all.take(it.index())),
    {
        proof {
            let k = it.index();
            assert(all.take(k + 1).drop_last() == all.take(k));
        }
        match item {
            Some(x) => {
                out.push(x);
            },
            None => {},
        }
    }
    proof {
        assert(all.take(all.len() as int) == all);
    }
    out
}

} // verus!
