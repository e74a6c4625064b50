use vstd::prelude::*;

use crate::calc::Operation;

verus! {

/// `accs` walks the queue left to right: it starts at `seed`, and each entry
/// is what `step` gave for the one before it and the next operation.
pub open spec fn folds_left<T, E, F: Fn(T, &Operation) -> Result<T, E>>(
    step: F,
    seed: T,
    ops: Seq<Operation>,
    accs: Seq<T>,
) -> bool {
    &&& accs.len() == ops.len() + 1
    &&& accs[0] == seed
    &&& forall|i: int|
        0 <= i < ops.len() ==> #[trigger] step.ensures((accs[i], &ops[i]), Ok::<T, E>(accs[i + 1]))
}

/// `accs` walks the first `k` operations left to right, and `step` then
/// fails on operation `k` with `e`.
pub open spec fn fails_at<T, E, F: Fn(T, &Operation) -> Result<T, E>>(
    step: F,
    seed: T,
    ops: Seq<Operation>,
    accs: Seq<T>,
    k: int,
    e: E,
) -> bool {
    &&& 0 <= k < ops.len()
    &&& accs.len() == k + 1
    &&& accs[0] == seed
    &&& forall|i: int|
        0 <= i < k ==> #[trigger] step.ensures((accs[i], &ops[i]), Ok::<T, E>(accs[i + 1]))
    &&& step.ensures((accs[k], &ops[k]), Err::<T, E>(e))
}

/// Some left-to-right walk of the queue from `seed` ends in the failure `e`.
pub open spec fn walk_fails<T, E, F: Fn(T, &Operation) -> Result<T, E>>(
    step: F,
    seed: T,
    ops: Seq<Operation>,
    e: E,
) -> bool {
    exists|accs: Seq<T>, k: int| fails_at(step, seed, ops, accs, k, e)
}

/// Reduces a seed value and a queue of operations strictly left to right,
/// with no operator precedence: the first operation applies to the seed, each
/// later one to the result of the one before. `step` applies one operation
/// (and parses its operand); its first failure stops the walk and is returned.
pub fn evaluate<T, E, F: Fn(T, &Operation) -> Result<T, E>>(
    seed: T,
    ops: &Vec<Operation>,
    step: &F,
) -> (r: Result<T, E>)
    requires
        forall|t: T, o: &Operation| #[trigger] step.requires((t, o)),
    ensures
        r is Ok ==> exists|accs: Seq<T>|
            folds_left(*step, seed, ops@, accs) && accs.last() == r->Ok_0,
        r is Err ==> walk_fails(*step, seed, ops@, r->Err_0),
{
    let ghost seed0 = seed;
    let mut acc = seed;
    let ghost mut accs: Seq<T> = seq![seed];
    let mut i: usize = 0;
    while i < ops.len()
        invariant
            forall|t: T, o: &Operation| #[trigger] step.requires((t, o)),
            i <= ops.len(),
            accs.len() == i + 1,
            accs[0] == seed0,
            seed0 == seed,
            accs.last() == acc,
            forall|j: int|
                0 <= j < i ==> #[trigger] step.ensures(
                    (accs[j], &ops@[j]),
                    Ok::<T, E>(accs[j + 1]),
                ),
        decreases ops.len() - i,
    {
        let out = step(acc, &ops[i]);
        match out {
            Ok(v) => {
                proof {
                    accs = accs.push(v);
                }
                acc = v;
            },
            Err(e) => {
                assert(fails_at(*step, seed0, ops@, accs, i as int, e));
                assert(walk_fails(*step, seed0, ops@, e));
                return Err(e);
            },
        }
        i = i + 1;
    }
    assert(folds_left(*step, seed0, ops@, accs));
    Ok(acc)
}

} // verus!
