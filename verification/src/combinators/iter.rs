//! Running a parser again and again on what it leaves over.
use std::marker::PhantomData;
use vstd::prelude::*;

use crate::parser::{
    Parser,
    accepts_clones,
    clones_are_equal,
    deterministic,
    fails_on_clone,
    lemma_yields_on_clone_is_yields,
    yields_on_clone,
};

pub mod vector;

verus! {

/// `p` may succeed `vs.len()` times in a row, each time on a clone of the
/// residual of the run before, starting at `input`, producing the outputs
/// `vs` and leaving `cur`.
pub open spec fn runs<I: Clone, P: Parser<I>>(p: P, input: I, vs: Seq<P::Out>, cur: I) -> bool
    decreases vs.len(),
{
    if vs.len() == 0 {
        cur == input
    } else {
        exists|mid: I|
            runs(p, input, vs.drop_last(), mid) && #[trigger] yields_on_clone(
                p,
                mid,
                Ok((vs.last(), cur)),
            )
    }
}

/// From `input`, `p` may be run on every clone of every residual it may
/// reach, and no chain of successive successes is longer than `n`.
pub open spec fn repeats_at_most<I: Clone, P: Parser<I>>(p: P, input: I, n: nat) -> bool
    decreases n,
{
    &&& accepts_clones(p, input)
    &&& forall|o: P::Out, rest: I| #[trigger]
        yields_on_clone(p, input, Ok((o, rest))) ==> n > 0 && repeats_at_most(
            p,
            rest,
            (n - 1) as nat,
        )
}

/// Repeating `p` from `input` stops after finitely many successes whatever
/// the outcomes, so collecting its results terminates.
pub open spec fn finitely_repeats<I: Clone, P: Parser<I>>(p: P, input: I) -> bool {
    exists|n: nat| repeats_at_most(p, input, n)
}

/// A run read from the front: its first success is on a clone of `input`, and
/// the rest of the run starts at that success's residual.
pub proof fn lemma_runs_first<I: Clone, P: Parser<I>>(p: P, input: I, vs: Seq<P::Out>, cur: I)
    requires
        runs(p, input, vs, cur),
        vs.len() > 0,
    ensures
        exists|mid: I|
            #[trigger] yields_on_clone(p, input, Ok((vs[0], mid))) && runs(
                p,
                mid,
                vs.drop_first(),
                cur,
            ),
    decreases vs.len(),
{
    let m = choose|mid: I|
        runs(p, input, vs.drop_last(), mid) && #[trigger] yields_on_clone(
            p,
            mid,
            Ok((vs.last(), cur)),
        );
    if vs.len() == 1 {
        assert(m == input);
        assert(vs.drop_first().len() == 0);
        assert(yields_on_clone(p, input, Ok((vs[0], cur))));
    } else {
        lemma_runs_first(p, input, vs.drop_last(), m);
        let mid = choose|mid: I|
            #[trigger] yields_on_clone(p, input, Ok((vs.drop_last()[0], mid))) && runs(
                p,
                mid,
                vs.drop_last().drop_first(),
                m,
            );
        let tail = vs.drop_first();
        assert(tail.drop_last() == vs.drop_last().drop_first());
        assert(tail.last() == vs.last());
        assert(runs(p, mid, tail, cur));
        assert(yields_on_clone(p, input, Ok((vs[0], mid))));
    }
}

/// A success on a clone of `input` followed by a run from its residual is a
/// run from `input`.
pub proof fn lemma_runs_cons<I: Clone, P: Parser<I>>(
    p: P,
    input: I,
    first: P::Out,
    mid: I,
    vs: Seq<P::Out>,
    cur: I,
)
    requires
        yields_on_clone(p, input, Ok((first, mid))),
        runs(p, mid, vs, cur),
    ensures
        runs(p, input, seq![first] + vs, cur),
    decreases vs.len(),
{
    let all = seq![first] + vs;
    if vs.len() == 0 {
        assert(all.drop_last() == Seq::<P::Out>::empty());
        assert(runs(p, input, all.drop_last(), input));
        assert(yields_on_clone(p, input, Ok((all.last(), cur))));
    } else {
        let m = choose|m: I|
            runs(p, mid, vs.drop_last(), m) && #[trigger] yields_on_clone(
                p,
                m,
                Ok((vs.last(), cur)),
            );
        lemma_runs_cons(p, input, first, mid, vs.drop_last(), m);
        assert(all.drop_last() == seq![first] + vs.drop_last());
        assert(all.last() == vs.last());
        assert(yields_on_clone(p, m, Ok((all.last(), cur))));
    }
}

/// For a deterministic parser over inputs whose clones are equal, there is
/// at most one maximal run from `input`: one that ends where `p` fails.
pub proof fn lemma_runs_unique<I: Clone, P: Parser<I>>(
    p: P,
    input: I,
    vs1: Seq<P::Out>,
    rest1: I,
    vs2: Seq<P::Out>,
    rest2: I,
)
    requires
        deterministic(p),
        clones_are_equal::<I>(),
        runs(p, input, vs1, rest1),
        fails_on_clone(p, rest1),
        runs(p, input, vs2, rest2),
        fails_on_clone(p, rest2),
    ensures
        vs1 == vs2,
        rest1 == rest2,
    decreases vs1.len(),
{
    if vs1.len() == 0 {
        if vs2.len() > 0 {
            lemma_runs_first(p, input, vs2, rest2);
            let mid = choose|mid: I|
                #[trigger] yields_on_clone(p, input, Ok((vs2[0], mid))) && runs(
                    p,
                    mid,
                    vs2.drop_first(),
                    rest2,
                );
            let e = choose|e: P::Error| #[trigger] yields_on_clone(p, rest1, Err(e));
            lemma_yields_on_clone_is_yields(p, input, Ok((vs2[0], mid)));
            lemma_yields_on_clone_is_yields(p, input, Err(e));
        }
    } else if vs2.len() == 0 {
        lemma_runs_unique(p, input, vs2, rest2, vs1, rest1);
    } else {
        lemma_runs_first(p, input, vs1, rest1);
        lemma_runs_first(p, input, vs2, rest2);
        let mid1 = choose|mid: I|
            #[trigger] yields_on_clone(p, input, Ok((vs1[0], mid))) && runs(
                p,
                mid,
                vs1.drop_first(),
                rest1,
            );
        let mid2 = choose|mid: I|
            #[trigger] yields_on_clone(p, input, Ok((vs2[0], mid))) && runs(
                p,
                mid,
                vs2.drop_first(),
                rest2,
            );
        lemma_yields_on_clone_is_yields(p, input, Ok((vs1[0], mid1)));
        lemma_yields_on_clone_is_yields(p, input, Ok((vs2[0], mid2)));
        assert(vs1[0] == vs2[0] && mid1 == mid2);
        lemma_runs_unique(p, mid1, vs1.drop_first(), rest1, vs2.drop_first(), rest2);
        assert(vs1 == seq![vs1[0]] + vs1.drop_first());
        assert(vs2 == seq![vs2[0]] + vs2.drop_first());
    }
}

/// Runs `p` on clones of `input`, then of each residual, one result at a time.
pub struct ParseIter<'a, I, O, P> {
    parser: &'a P,
    input: I,
    _ghost: PhantomData<O>,
}

impl<'a, I, O, P> ParseIter<'a, I, O, P> {
    /// The parser that is run.
    pub closed spec fn parser(self) -> P {
        *self.parser
    }

    /// The input that is still to be parsed.
    pub closed spec fn input(self) -> I {
        self.input
    }
}

impl<'a, I, O, P> ParseIter<'a, I, O, P> where I: Clone, P: Parser<I, Out = O> {
    /// Starts at `input`.
    pub fn new(parser: &'a P, input: I) -> (it: Self)
        ensures
            it.parser() == *parser,
            it.input() == input,
    {
        Self { parser, input, _ghost: PhantomData }
    }

    /// The input that was not consumed.
    pub fn remains(self) -> (rest: I)
        ensures
            rest == self.input(),
    {
        self.input
    }

    /// Parses a clone of the remaining input. On success the output is
    /// returned and the residual becomes the remaining input; on failure
    /// `None` is returned and the remaining input is left as it was.
    pub fn next(&mut self) -> (item: Option<O>)
        requires
            accepts_clones(old(self).parser(), old(self).input()),
        ensures
            final(self).parser() == old(self).parser(),
            match item {
                Some(o) => yields_on_clone(
                    old(self).parser(),
                    old(self).input(),
                    Ok((o, final(self).input())),
                ),
                None => final(self).input() == old(self).input() && fails_on_clone(
                    old(self).parser(),
                    old(self).input(),
                ),
            },
    {
        let inp = self.input.clone();
        match self.parser.parse(inp) {
            Ok((out, rest)) => {
                assert(yields_on_clone(*self.parser, self.input, Ok((out, rest))));
                self.input = rest;
                Some(out)
            },
            Err(e) => {
                assert(yields_on_clone(*self.parser, self.input, Err(e)));
                None
            },
        }
    }
}

} // verus!
