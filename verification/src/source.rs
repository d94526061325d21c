//! Result sources: where a recorder's pre-programmed answers come from.
//!
//! A source hands out one value per pull and remembers its position. It may be
//! finite (a list) or endless (a repeated constant, a generator).

use std::marker::PhantomData;
use vstd::prelude::*;

verus! {

/// The pull-one capability: produce the next value, or signal exhaustion.
pub trait ResultSource: Sized {
    /// The type of the values that the source hands out.
    type Item;

    /// Whether the source has run dry: the next pull yields nothing.
    spec fn exhausted(&self) -> bool;

    /// Whether one pull from `self` may hand out `r` and leave the source as `next`.
    spec fn yields(&self, r: Self::Item, next: &Self) -> bool;

    /// Pulls the next value. `None` signals exhaustion, which is terminal: the
    /// source is left as it was, so every later pull signals it again.
    fn pull(&mut self) -> (out: Option<Self::Item>)
        ensures
            out is None <==> old(self).exhausted(),
            out is None ==> *final(self) == *old(self),
            out matches Some(r) ==> old(self).yields(r, final(self)),
    ;
}

/// An endless source: every pull hands out a duplicate of one fixed value.
pub struct RepeatSource<R> {
    value: R,
}

impl<R> RepeatSource<R> {
    /// The value whose duplicates are handed out.
    pub closed spec fn value(&self) -> R {
        self.value
    }

    /// A source that repeats `value` forever.
    pub fn new(value: R) -> (s: Self)
        ensures
            s.value() == value,
    {
        RepeatSource { value }
    }
}

impl<R: Clone> ResultSource for RepeatSource<R> {
    type Item = R;

    open spec fn exhausted(&self) -> bool {
        false
    }

    open spec fn yields(&self, r: R, next: &Self) -> bool {
        cloned(self.value(), r) && *next == *self
    }

    fn pull(&mut self) -> (out: Option<R>) {
        Some(self.value.clone())
    }
}

/// A finite source: the values of a list, front first, each handed out once.
pub struct ListSource<R> {
    /// What is still to be handed out, last value first.
    pending: Vec<R>,
}

impl<R> ListSource<R> {
    /// The values still to be handed out, next one first.
    pub closed spec fn remaining(&self) -> Seq<R> {
        self.pending@.reverse()
    }

    /// A source that hands out `values[0]`, `values[1]`, ... and then runs dry.
    pub fn new(values: Vec<R>) -> (s: Self)
        ensures
            s.remaining() == values@,
    {
        let ghost all = values@;
        let mut rest = values;
        let mut pending: Vec<R> = Vec::new();
        while rest.len() > 0
            invariant
                rest@.len() + pending@.len() == all.len(),
                rest@ == all.subrange(0, rest@.len() as int),
                forall|j: int|
                    0 <= j < pending@.len() ==> #[trigger] pending@[j] == all[all.len() - 1 - j],
            decreases rest@.len(),
        {
            let last = rest.pop();
            pending.push(last.unwrap());
        }
        assert(pending@.reverse() =~= all);
        ListSource { pending }
    }
}

impl<R> ResultSource for ListSource<R> {
    type Item = R;

    open spec fn exhausted(&self) -> bool {
        self.remaining().len() == 0
    }

    open spec fn yields(&self, r: R, next: &Self) -> bool {
        &&& self.remaining().len() > 0
        &&& r == self.remaining()[0]
        &&& next.remaining() == self.remaining().skip(1)
    }

    fn pull(&mut self) -> (out: Option<R>) {
        if self.pending.len() == 0 {
            return None;
        }
        let out = self.pending.pop();
        assert(self.remaining() =~= old(self).remaining().skip(1));
        out
    }
}

/// An endless source: every pull invokes a generator afresh.
#[verifier::reject_recursive_types(R)]
pub struct GeneratorSource<R, F: Fn() -> R> {
    generator: F,
    produced: PhantomData<R>,
}

impl<R, F: Fn() -> R> GeneratorSource<R, F> {
    /// The function that is invoked at each pull.
    pub closed spec fn generator(&self) -> F {
        self.generator
    }

    #[verifier::type_invariant]
    spec fn callable(&self) -> bool {
        self.generator.requires(())
    }

    /// A source that invokes `generator` once per pull.
    pub fn new(generator: F) -> (s: Self)
        requires
            generator.requires(()),
        ensures
            s.generator() == generator,
    {
        GeneratorSource { generator, produced: PhantomData }
    }
}

impl<R, F: Fn() -> R> ResultSource for GeneratorSource<R, F> {
    type Item = R;

    open spec fn exhausted(&self) -> bool {
        false
    }

    open spec fn yields(&self, r: R, next: &Self) -> bool {
        self.generator().ensures((), r) && *next == *self
    }

    fn pull(&mut self) -> (out: Option<R>) {
        proof {
            use_type_invariant(&*self);
        }
        Some((self.generator)())
    }
}

} // verus!
