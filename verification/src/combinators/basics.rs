//! Basic combinators.
use std::marker::PhantomData;
use vstd::prelude::*;

use crate::parser::{
    Parser,
    accepts_clones,
    clones_are_equal,
    deterministic,
    fails_on_clone,
    lemma_yields_on_clone_is_yields,
    yields_on_clone,
};

verus! {

/// The parser returned by [`optional`].
pub struct Optional<I, P> {
    p: P,
    _ghost: PhantomData<I>,
}

impl<I, P> Optional<I, P> {
    /// The parser that is tried.
    pub closed spec fn inner(self) -> P {
        self.p
    }
}

/// A parser that always succeeds: with `Some` of the output of `p` when `p`
/// succeeds on a clone of the input, and with `None` and the unaltered input
/// when it fails.
pub fn optional<I, P>(p: P) -> (o: Optional<I, P>) where I: Clone, P: Parser<I>
    ensures
        o.inner() == p,
{
    Optional { p, _ghost: PhantomData }
}

impl<I: Clone, P: Parser<I>> Parser<I> for Optional<I, P> {
    type Out = Option<P::Out>;

    type Error = P::Error;

    open spec fn parse_requires(&self, input: I) -> bool {
        accepts_clones(self.inner(), input)
    }

    open spec fn parse_ensures(&self, input: I, res: Result<(Option<P::Out>, I), P::Error>) -> bool {
        match res {
            Ok((Some(v), rest)) => yields_on_clone(self.inner(), input, Ok((v, rest))),
            Ok((None, rest)) => rest == input && fails_on_clone(self.inner(), input),
            Err(_) => false,
        }
    }

    fn parse(&self, txt: I) -> (res: Result<(Option<P::Out>, I), P::Error>) {
        let c = txt.clone();
        match self.p.parse(c) {
            Ok((v, r)) => {
                assert(yields_on_clone(self.p, txt, Ok((v, r))));
                Ok((Some(v), r))
            },
            Err(e) => {
                assert(yields_on_clone(self.p, txt, Err(e)));
                Ok((None, txt))
            },
        }
    }
}

/// Over inputs whose clones are equal, `optional` of a deterministic parser
/// is deterministic.
pub proof fn lemma_optional_deterministic<I: Clone, P: Parser<I>>(o: Optional<I, P>)
    requires
        deterministic(o.inner()),
        clones_are_equal::<I>(),
    ensures
        deterministic::<I, Optional<I, P>>(o),
{
    let p = o.inner();
    assert forall|
        input: I,
        r1: Result<(Option<P::Out>, I), P::Error>,
        r2: Result<(Option<P::Out>, I), P::Error>,
    | o.parse_ensures(input, r1) && o.parse_ensures(input, r2) implies r1 == r2 by {
        let res_of = |r: Result<(Option<P::Out>, I), P::Error>|
            match r {
                Ok((Some(v), rest)) => Ok((v, rest)),
                _ => Err(choose|e: P::Error| yields_on_clone(p, input, Err(e))),
            };
        lemma_yields_on_clone_is_yields(p, input, res_of(r1));
        lemma_yields_on_clone_is_yields(p, input, res_of(r2));
    }
}

} // verus!
