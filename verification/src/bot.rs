//! The recorder: a log of the arguments received, and a source of results.

use crate::source::GeneratorSource;
use crate::source::ListSource;
use crate::source::RepeatSource;
use crate::source::ResultSource;
use vstd::prelude::*;

verus! {

/// Records the argument of every call and answers each call with the next
/// value of its result source.
///
/// Its state is the pair of [`FunnyBot::log`], the arguments in call order, and
/// [`FunnyBot::source`], the source at its current position.
pub struct FunnyBot<A, S> {
    arguments: Vec<A>,
    results: S,
}

impl<A, S: ResultSource> FunnyBot<A, S> {
    /// The arguments recorded so far, oldest first.
    pub closed spec fn log(&self) -> Seq<A> {
        self.arguments@
    }

    /// The result source, at the position that the calls so far have left it in.
    pub closed spec fn source(&self) -> S {
        self.results
    }

    /// Whether no further call can be answered.
    pub open spec fn exhausted(&self) -> bool {
        self.source().exhausted()
    }

    /// Whether one answered call with argument `a` may return `r` and leave the
    /// recorder as `next`: `a` is appended to the log, and `r` is what one pull
    /// hands out.
    pub open spec fn answers(&self, a: A, r: S::Item, next: &Self) -> bool {
        &&& next.log() == self.log().push(a)
        &&& self.source().yields(r, &next.source())
    }

    /// A recorder with an empty log that draws its results from `source`.
    #[must_use]
    pub fn new(source: S) -> (bot: Self)
        ensures
            bot.log() == Seq::<A>::empty(),
            bot.source() == source,
    {
        FunnyBot { arguments: Vec::new(), results: source }
    }

    /// Simulates a call: records `a`, then returns the next pre-programmed value.
    ///
    /// The source must not be exhausted: a mock that is called more often than
    /// it was programmed for is a mistake of the test's author.
    pub fn call(&mut self, a: A) -> (r: S::Item)
        requires
            !old(self).exhausted(),
        ensures
            old(self).answers(a, r, final(self)),
    {
        self.arguments.push(a);
        self.results.pull().unwrap()
    }

    /// Simulates a call that may find the source exhausted: records `a` first,
    /// then pulls. `None` says that no pre-programmed value was left; the
    /// argument is on the log all the same, and the source is as it was, so
    /// exhaustion is terminal.
    pub fn try_call(&mut self, a: A) -> (out: Option<S::Item>)
        ensures
            final(self).log() == old(self).log().push(a),
            out is None <==> old(self).exhausted(),
            out is None ==> final(self).source() == old(self).source() && final(self).exhausted(),
            out matches Some(r) ==> old(self).answers(a, r, final(self)),
    {
        self.arguments.push(a);
        self.results.pull()
    }

    /// Consumes the recorder and returns the recorded arguments, oldest first.
    pub fn into_args(self) -> (args: Vec<A>)
        ensures
            args@ == self.log(),
    {
        self.arguments
    }

    /// The arguments recorded so far, oldest first. The recorder is only read.
    pub fn args(&self) -> (args: &Vec<A>)
        ensures
            args@ == self.log(),
    {
        &self.arguments
    }
}

impl<A, R: Clone> FunnyBot<A, RepeatSource<R>> {
    /// A recorder that answers every call with a duplicate of `elt`, forever.
    pub fn repeat(elt: R) -> (bot: Self)
        ensures
            bot.log() == Seq::<A>::empty(),
            bot.source().value() == elt,
    {
        FunnyBot::new(RepeatSource::new(elt))
    }
}

impl<A, R> FunnyBot<A, ListSource<R>> {
    /// A recorder that answers exactly one call, with `value`.
    #[must_use]
    pub fn from_single(value: R) -> (bot: Self)
        ensures
            bot.log() == Seq::<A>::empty(),
            bot.source().remaining() == seq![value],
    {
        Self::from_list(vec![value])
    }

    /// A recorder that answers its calls with `values[0]`, `values[1]`, ... in
    /// order, and is exhausted once each value was returned.
    #[must_use]
    pub fn from_list(values: Vec<R>) -> (bot: Self)
        ensures
            bot.log() == Seq::<A>::empty(),
            bot.source().remaining() == values@,
    {
        FunnyBot::new(ListSource::new(values))
    }
}

impl<A, R, F: Fn() -> R> FunnyBot<A, GeneratorSource<R, F>> {
    /// A recorder that answers every call with what a fresh invocation of
    /// `repeater` returns.
    pub fn repeat_with(repeater: F) -> (bot: Self)
        requires
            repeater.requires(()),
        ensures
            bot.log() == Seq::<A>::empty(),
            bot.source().generator() == repeater,
    {
        FunnyBot::new(GeneratorSource::new(repeater))
    }
}

} // verus!
