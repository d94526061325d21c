//! What holds of every run of answered calls, whatever the arguments.

use crate::bot::FunnyBot;
use crate::source::GeneratorSource;
use crate::source::ListSource;
use crate::source::RepeatSource;
use crate::source::ResultSource;
use vstd::prelude::*;

verus! {

/// Whether call number `i` of a run is an answered call: it takes the recorder
/// from `states[i]` to `states[i + 1]`, with argument `args[i]` and result
/// `results[i]`.
pub open spec fn answered_at<A, S: ResultSource>(
    states: Seq<FunnyBot<A, S>>,
    args: Seq<A>,
    results: Seq<S::Item>,
    i: int,
) -> bool {
    states[i].answers(args[i], results[i], &states[i + 1])
}

/// Whether `states`, `args` and `results` describe a run of answered calls on
/// one recorder: `states[0]` is the recorder before the first call, and each
/// call in turn is an answered call.
pub open spec fn is_run<A, S: ResultSource>(
    states: Seq<FunnyBot<A, S>>,
    args: Seq<A>,
    results: Seq<S::Item>,
) -> bool {
    &&& states.len() == args.len() + 1
    &&& results.len() == args.len()
    &&& forall|i: int| 0 <= i < args.len() ==> #[trigger] answered_at(states, args, results, i)
}

/// After the first `k` calls of a run the log is the log from before the run
/// followed by the first `k` arguments, in call order. So a look at the log in
/// the middle of a run shows exactly the calls made so far, and after the whole
/// run of a fresh recorder the log is exactly the arguments.
pub proof fn law_log_records_calls<A, S: ResultSource>(
    states: Seq<FunnyBot<A, S>>,
    args: Seq<A>,
    results: Seq<S::Item>,
    k: int,
)
    requires
        is_run(states, args, results),
        0 <= k <= args.len(),
    ensures
        states[k].log() == states[0].log() + args.take(k),
        states[0].log().len() == 0 ==> states[k].log() == args.take(k),
        states[0].log().len() == 0 ==> states.last().log() == args,
{
    lemma_log_grows(states, args, results, k);
    lemma_log_grows(states, args, results, args.len() as int);
    if states[0].log().len() == 0 {
        assert(states[k].log() =~= args.take(k));
        assert(states.last().log() =~= args);
    }
}

proof fn lemma_log_grows<A, S: ResultSource>(
    states: Seq<FunnyBot<A, S>>,
    args: Seq<A>,
    results: Seq<S::Item>,
    k: int,
)
    requires
        is_run(states, args, results),
        0 <= k <= args.len(),
    ensures
        states[k].log() == states[0].log() + args.take(k),
    decreases k,
{
    if k == 0 {
        assert(states[0].log() =~= states[0].log() + args.take(0));
    } else {
        lemma_log_grows(states, args, results, k - 1);
        assert(answered_at(states, args, results, k - 1));
        assert(states[k].log() =~= states[0].log() + args.take(k));
    }
}

/// After a run of `n` answered calls the log has grown by exactly `n` entries,
/// and exactly `n` values were pulled from the source: pull number `i` handed
/// out the result of call number `i`.
pub proof fn law_counts_agree<A, S: ResultSource>(
    states: Seq<FunnyBot<A, S>>,
    args: Seq<A>,
    results: Seq<S::Item>,
)
    requires
        is_run(states, args, results),
    ensures
        states.last().log().len() == states[0].log().len() + args.len(),
        results.len() == args.len(),
        forall|i: int|
            0 <= i < args.len() ==> #[trigger] states[i].source().yields(
                results[i],
                &states[i + 1].source(),
            ),
{
    law_log_records_calls(states, args, results, args.len() as int);
    assert forall|i: int| 0 <= i < args.len() implies #[trigger] states[i].source().yields(
        results[i],
        &states[i + 1].source(),
    ) by {
        assert(answered_at(states, args, results, i));
    }
}

/// A recorder that repeats `v` answers every call of a run, however long, with
/// a duplicate of `v`, and is never exhausted.
pub proof fn law_repeat_never_ends<A, R: Clone>(
    states: Seq<FunnyBot<A, RepeatSource<R>>>,
    args: Seq<A>,
    results: Seq<R>,
    v: R,
)
    requires
        is_run(states, args, results),
        states[0].source().value() == v,
    ensures
        forall|i: int| 0 <= i < results.len() ==> cloned(v, #[trigger] results[i]),
        forall|k: int| 0 <= k < states.len() ==> !(#[trigger] states[k]).exhausted(),
        forall|k: int| 0 <= k < states.len() ==> (#[trigger] states[k]).source().value() == v,
{
    assert forall|k: int| 0 <= k < states.len() implies (#[trigger] states[k]).source().value()
        == v by {
        lemma_repeat_source_stays(states, args, results, k);
    }
    assert forall|i: int| 0 <= i < results.len() implies cloned(v, #[trigger] results[i]) by {
        lemma_repeat_source_stays(states, args, results, i);
        assert(answered_at(states, args, results, i));
    }
}

proof fn lemma_repeat_source_stays<A, R: Clone>(
    states: Seq<FunnyBot<A, RepeatSource<R>>>,
    args: Seq<A>,
    results: Seq<R>,
    k: int,
)
    requires
        is_run(states, args, results),
        0 <= k <= args.len(),
    ensures
        states[k].source() == states[0].source(),
    decreases k,
{
    if k > 0 {
        lemma_repeat_source_stays(states, args, results, k - 1);
        assert(answered_at(states, args, results, k - 1));
    }
}

/// A recorder programmed with the list `values` answers at most `values.len()`
/// calls. The calls of a run return `values[0]`, `values[1]`, ... in order;
/// after `k` of them the values from `values[k]` on are left, and the recorder
/// is exhausted exactly when `k` is the list's length.
pub proof fn law_list_in_order<A, R>(
    states: Seq<FunnyBot<A, ListSource<R>>>,
    args: Seq<A>,
    results: Seq<R>,
    values: Seq<R>,
    k: int,
)
    requires
        is_run(states, args, results),
        states[0].source().remaining() == values,
        0 <= k <= args.len(),
    ensures
        k <= values.len(),
        results.take(k) == values.take(k),
        states[k].source().remaining() == values.skip(k),
        states[k].exhausted() <==> k == values.len(),
    decreases k,
{
    if k == 0 {
        assert(results.take(0) =~= values.take(0));
        assert(values.skip(0) =~= values);
    } else {
        law_list_in_order(states, args, results, values, k - 1);
        assert(answered_at(states, args, results, k - 1));
        assert(results.take(k) =~= results.take(k - 1).push(results[k - 1]));
        assert(values.take(k) =~= values.take(k - 1).push(values[k - 1]));
        assert(states[k].source().remaining() =~= values.skip(k));
    }
}

/// A recorder that was made from a generator keeps that generator and is never
/// exhausted, and each call of a run returns what an invocation of the
/// generator returns.
pub proof fn law_generator_answers<A, R, F: Fn() -> R>(
    states: Seq<FunnyBot<A, GeneratorSource<R, F>>>,
    args: Seq<A>,
    results: Seq<R>,
    f: F,
)
    requires
        is_run(states, args, results),
        states[0].source().generator() == f,
    ensures
        forall|i: int| 0 <= i < results.len() ==> f.ensures((), #[trigger] results[i]),
        forall|k: int| 0 <= k < states.len() ==> !(#[trigger] states[k]).exhausted(),
        forall|k: int| 0 <= k < states.len() ==> (#[trigger] states[k]).source().generator() == f,
{
    assert forall|k: int| 0 <= k < states.len() implies (#[trigger] states[k]).source().generator()
        == f by {
        lemma_generator_source_stays(states, args, results, k);
    }
    assert forall|i: int| 0 <= i < results.len() implies f.ensures((), #[trigger] results[i]) by {
        lemma_generator_source_stays(states, args, results, i);
        assert(answered_at(states, args, results, i));
    }
}

proof fn lemma_generator_source_stays<A, R, F: Fn() -> R>(
    states: Seq<FunnyBot<A, GeneratorSource<R, F>>>,
    args: Seq<A>,
    results: Seq<R>,
    k: int,
)
    requires
        is_run(states, args, results),
        0 <= k <= args.len(),
    ensures
        states[k].source() == states[0].source(),
    decreases k,
{
    if k > 0 {
        lemma_generator_source_stays(states, args, results, k - 1);
        assert(answered_at(states, args, results, k - 1));
    }
}

} // verus!
