//! Sequences of steps that may fail: what comes of taking the steps in order
//! and stopping at the first failure.

use vstd::prelude::*;

verus! {

/// The values of `step` on the items in order where every step succeeds,
/// else the error of the first step that fails.
pub open spec fn collect<A, B, E>(items: Seq<A>, step: spec_fn(A) -> Result<B, E>) -> Result<
    Seq<B>,
    E,
>
    decreases items.len(),
{
    if items.len() == 0 {
        Ok(Seq::empty())
    } else {
        match collect(items.drop_last(), step) {
            Err(error) => Err(error),
            Ok(values) => match step(items.last()) {
                Err(error) => Err(error),
                Ok(value) => Ok(values.push(value)),
            },
        }
    }
}

/// As [`collect`], for steps that yield sequences: their concatenation in
/// order where every step succeeds, else the error of the first step that
/// fails.
pub open spec fn gather<A, B, E>(
    items: Seq<A>,
    step: spec_fn(A) -> Result<Seq<B>, E>,
) -> Result<Seq<B>, E>
    decreases items.len(),
{
    if items.len() == 0 {
        Ok(Seq::empty())
    } else {
        match gather(items.drop_last(), step) {
            Err(error) => Err(error),
            Ok(values) => match step(items.last()) {
                Err(error) => Err(error),
                Ok(more) => Ok(values + more),
            },
        }
    }
}

/// What joining two outcomes in order gives: the first error, else both
/// sequences, the first one in front.
pub open spec fn chain<B, E>(first: Result<Seq<B>, E>, second: Result<Seq<B>, E>) -> Result<
    Seq<B>,
    E,
> {
    match first {
        Err(error) => Err(error),
        Ok(front) => match second {
            Err(error) => Err(error),
            Ok(back) => Ok(front + back),
        },
    }
}

/// One more item: the outcome of the first `taken + 1` items from that of
/// the first `taken`.
pub proof fn lemma_collect_next<A, B, E>(
    items: Seq<A>,
    step: spec_fn(A) -> Result<B, E>,
    taken: int,
)
    requires
        0 <= taken < items.len(),
    ensures
        collect(items.take(taken + 1), step) == match collect(items.take(taken), step) {
            Err(error) => Err(error),
            Ok(values) => match step(items[taken]) {
                Err(error) => Err(error),
                Ok(value) => Ok(values.push(value)),
            },
        },
{
    assert(items.take(taken + 1).drop_last() =~= items.take(taken));
}

/// A failure is final: once the first `taken` items fail, so do all of
/// them, with the same error.
pub proof fn lemma_collect_fails<A, B, E>(
    items: Seq<A>,
    step: spec_fn(A) -> Result<B, E>,
    taken: int,
)
    requires
        0 <= taken <= items.len(),
        collect(items.take(taken), step) is Err,
    ensures
        collect(items, step) == collect(items.take(taken), step),
    decreases items.len() - taken,
{
    if taken == items.len() {
        assert(items.take(taken) =~= items);
    } else {
        lemma_collect_next(items, step, taken);
        lemma_collect_fails(items, step, taken + 1);
    }
}

/// [`collect`] succeeds exactly when every step does, and then holds the
/// value of each step at the place of its item.
pub proof fn lemma_collect_ok<A, B, E>(items: Seq<A>, step: spec_fn(A) -> Result<B, E>)
    ensures
        collect(items, step) is Ok <==> forall|i: int|
            0 <= i < items.len() ==> (#[trigger] step(items[i])) is Ok,
        collect(items, step) matches Ok(values) ==> values.len() == items.len() && forall|i: int|
            0 <= i < items.len() ==> step(items[i]) == Ok::<B, E>(#[trigger] values[i]),
    decreases items.len(),
{
    if items.len() > 0 {
        let front = items.drop_last();
        lemma_collect_ok(front, step);
        assert forall|i: int| 0 <= i < front.len() implies front[i] == items[i] by {}
    }
}

/// Where [`collect`] fails, its error is that of the first failing step.
pub proof fn lemma_collect_err<A, B, E>(items: Seq<A>, step: spec_fn(A) -> Result<B, E>)
    requires
        collect(items, step) is Err,
    ensures
        exists|at: int|
            {
                &&& 0 <= at < items.len()
                &&& #[trigger] step(items[at]) == Err::<B, E>(collect(items, step)->Err_0)
                &&& forall|i: int| 0 <= i < at ==> (#[trigger] step(items[i])) is Ok
            },
    decreases items.len(),
{
    let front = items.drop_last();
    assert forall|i: int| 0 <= i < front.len() implies front[i] == items[i] by {}
    if collect(front, step) is Err {
        lemma_collect_err(front, step);
    } else {
        lemma_collect_ok(front, step);
    }
}

/// One more item: the outcome of the first `taken + 1` items from that of
/// the first `taken`.
pub proof fn lemma_gather_next<A, B, E>(
    items: Seq<A>,
    step: spec_fn(A) -> Result<Seq<B>, E>,
    taken: int,
)
    requires
        0 <= taken < items.len(),
    ensures
        gather(items.take(taken + 1), step) == chain(
            gather(items.take(taken), step),
            step(items[taken]),
        ),
{
    assert(items.take(taken + 1).drop_last() =~= items.take(taken));
}

/// What [`gather`] gives on two sequences one after the other is what it
/// gives on each, joined in that order.
pub proof fn lemma_gather_concat<A, B, E>(
    front: Seq<A>,
    back: Seq<A>,
    step: spec_fn(A) -> Result<Seq<B>, E>,
)
    ensures
        gather(front + back, step) == chain(gather(front, step), gather(back, step)),
    decreases back.len(),
{
    if back.len() > 0 {
        assert((front + back).drop_last() =~= front + back.drop_last());
        lemma_gather_concat(front, back.drop_last(), step);
        if gather(front, step) is Ok && gather(back.drop_last(), step) is Ok && step(
            back.last(),
        ) is Ok {
            let a = gather(front, step)->Ok_0;
            let b = gather(back.drop_last(), step)->Ok_0;
            let c = step(back.last())->Ok_0;
            assert((a + b) + c =~= a + (b + c));
        }
    }
}

/// A failure is final: once the first `taken` items fail, so do all of
/// them, with the same error.
pub proof fn lemma_gather_fails<A, B, E>(
    items: Seq<A>,
    step: spec_fn(A) -> Result<Seq<B>, E>,
    taken: int,
)
    requires
        0 <= taken <= items.len(),
        gather(items.take(taken), step) is Err,
    ensures
        gather(items, step) == gather(items.take(taken), step),
{
    assert(items.take(taken) + items.skip(taken) =~= items);
    lemma_gather_concat(items.take(taken), items.skip(taken), step);
}

/// [`gather`] succeeds exactly when every step does.
pub proof fn lemma_gather_ok<A, B, E>(items: Seq<A>, step: spec_fn(A) -> Result<Seq<B>, E>)
    ensures
        gather(items, step) is Ok <==> forall|i: int|
            0 <= i < items.len() ==> (#[trigger] step(items[i])) is Ok,
    decreases items.len(),
{
    if items.len() > 0 {
        let front = items.drop_last();
        lemma_gather_ok(front, step);
        assert forall|i: int| 0 <= i < front.len() implies front[i] == items[i] by {}
    }
}

/// Where [`gather`] fails, its error is that of the first failing step.
pub proof fn lemma_gather_err<A, B, E>(items: Seq<A>, step: spec_fn(A) -> Result<Seq<B>, E>)
    requires
        gather(items, step) is Err,
    ensures
        exists|at: int|
            {
                &&& 0 <= at < items.len()
                &&& #[trigger] step(items[at]) == Err::<Seq<B>, E>(gather(items, step)->Err_0)
                &&& forall|i: int| 0 <= i < at ==> (#[trigger] step(items[i])) is Ok
            },
    decreases items.len(),
{
    let front = items.drop_last();
    assert forall|i: int| 0 <= i < front.len() implies front[i] == items[i] by {}
    if gather(front, step) is Err {
        lemma_gather_err(front, step);
    } else {
        lemma_gather_ok(front, step);
    }
}

} // verus!
