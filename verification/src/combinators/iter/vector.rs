//! Repetitions that collect their outputs into a `Vec`.
use std::marker::PhantomData;
use vstd::prelude::*;

use crate::combinators::basics::{Optional, lemma_optional_deterministic, optional};
use crate::combinators::iter::{
    ParseIter,
    finitely_repeats,
    lemma_runs_cons,
    lemma_runs_first,
    lemma_runs_unique,
    repeats_at_most,
    runs,
};
use crate::combinators::sequential::lemma_tuple2_deterministic;
use crate::parser::{
    Parser,
    clones_are_equal,
    deterministic,
    fails_on_clone,
    lemma_clones_are_transparent,
    yields_on_clone,
};

verus! {

/// Extending a run by one more success.
proof fn lemma_runs_push<I: Clone, P: Parser<I>>(
    p: P,
    input: I,
    vs: Seq<P::Out>,
    cur: I,
    o: P::Out,
    next: I,
)
    requires
        runs(p, input, vs, cur),
        yields_on_clone(p, cur, Ok((o, next))),
    ensures
        runs(p, input, vs.push(o), next),
{
    assert(vs.push(o).drop_last() == vs);
    assert(vs.push(o).last() == o);
}

/// The parser returned by [`star`].
pub struct Star<I, P> {
    parser: P,
    _ghost: PhantomData<I>,
}

impl<I, P> Star<I, P> {
    /// The parser that is repeated.
    pub closed spec fn inner(self) -> P {
        self.parser
    }
}

/// Zero or more: runs `parser` until it fails and returns all its outputs,
/// in order, with the input that the last success left. It never fails.
pub fn star<I: Clone, O, P: Parser<I, Out = O>>(parser: P) -> (s: Star<I, P>)
    ensures
        s.inner() == parser,
{
    Star { parser, _ghost: PhantomData }
}

/// Runs `p` from `txt` until it fails, appending each output to `v`;
/// returns the remaining input.
fn collect_runs<I: Clone, P: Parser<I>>(p: &P, txt: I, v: &mut Vec<P::Out>) -> (rest: I)
    requires
        finitely_repeats(*p, txt),
    ensures
        exists|vs: Seq<P::Out>|
            #![trigger runs(*p, txt, vs, rest)]
            final(v)@ == old(v)@ + vs && runs(*p, txt, vs, rest),
        fails_on_clone(*p, rest),
{
    let mut iter = ParseIter::new(p, txt);
    let ghost mut n = choose|n: nat| repeats_at_most(*p, txt, n);
    let ghost v0 = v@;
    let ghost mut vs: Seq<P::Out> = Seq::empty();
    assert(v@ == v0 + vs);
    loop
        invariant
            iter.parser() == *p,
            repeats_at_most(*p, iter.input(), n),
            runs(*p, txt, vs, iter.input()),
            v0 == old(v)@,
            v@ == v0 + vs,
        decreases n,
    {
        let ghost cur = iter.input();
        match iter.next() {
            Some(o) => {
                proof {
                    lemma_runs_push(*p, txt, vs, cur, o, iter.input());
                    vs = vs.push(o);
                    n = (n - 1) as nat;
                }
                v.push(o);
            },
            None => {
                let rest = iter.remains();
                assert(runs(*p, txt, vs, rest));
                return rest;
            },
        }
    }
}

impl<I: Clone, P: Parser<I>> Parser<I> for Star<I, P> {
    type Out = Vec<P::Out>;

    type Error = P::Error;

    open spec fn parse_requires(&self, input: I) -> bool {
        finitely_repeats(self.inner(), input)
    }

    open spec fn parse_ensures(&self, input: I, res: Result<(Vec<P::Out>, I), P::Error>) -> bool {
        match res {
            Ok((vs, rest)) => runs(self.inner(), input, vs@, rest) && fails_on_clone(
                self.inner(),
                rest,
            ),
            Err(_) => false,
        }
    }

    fn parse(&self, txt: I) -> (res: Result<(Vec<P::Out>, I), P::Error>) {
        let mut v = Vec::new();
        let rest = collect_runs(&self.parser, txt, &mut v);
        assert(v@ =~= Seq::empty() + v@);
        Ok((v, rest))
    }
}

/// `p` may succeed on `input` with the first of `vs`, and then repeat from
/// the residual producing the rest of `vs`, until it may fail on `rest`.
pub open spec fn plus_ok<I: Clone, P: Parser<I>>(p: P, input: I, vs: Seq<P::Out>, rest: I) -> bool {
    &&& vs.len() > 0
    &&& exists|mid: I|
        #[trigger] p.parse_ensures(input, Ok((vs[0], mid))) && runs(p, mid, vs.drop_first(), rest)
    &&& fails_on_clone(p, rest)
}

/// `p` may be run on `input`, and repeating it from any residual of a
/// success terminates.
pub open spec fn plus_requires<I: Clone, P: Parser<I>>(p: P, input: I) -> bool {
    &&& p.parse_requires(input)
    &&& forall|o: P::Out, rest: I| #[trigger]
        p.parse_ensures(input, Ok((o, rest))) ==> finitely_repeats(p, rest)
}

/// The parser returned by [`plus`].
pub struct Plus<I, P> {
    parser: P,
    _ghost: PhantomData<I>,
}

impl<I, P> Plus<I, P> {
    /// The parser that is repeated.
    pub closed spec fn inner(self) -> P {
        self.parser
    }
}

/// One or more: runs `parser` once on the input itself, failing with its
/// error if it fails, and then as [`star`] on the residual.
pub fn plus<I: Clone, O, P: Parser<I, Out = O>>(parser: P) -> (s: Plus<I, P>)
    ensures
        s.inner() == parser,
{
    Plus { parser, _ghost: PhantomData }
}

impl<I: Clone, P: Parser<I>> Parser<I> for Plus<I, P> {
    type Out = Vec<P::Out>;

    type Error = P::Error;

    open spec fn parse_requires(&self, input: I) -> bool {
        plus_requires(self.inner(), input)
    }

    open spec fn parse_ensures(&self, input: I, res: Result<(Vec<P::Out>, I), P::Error>) -> bool {
        match res {
            Ok((vs, rest)) => plus_ok(self.inner(), input, vs@, rest),
            Err(e) => self.inner().parse_ensures(input, Err(e)),
        }
    }

    fn parse(&self, txt: I) -> (res: Result<(Vec<P::Out>, I), P::Error>) {
        let (iv, rest) = match self.parser.parse(txt) {
            Ok(r) => r,
            Err(e) => return Err(e),
        };
        let mut v = Vec::new();
        v.push(iv);
        let rest2 = collect_runs(&self.parser, rest, &mut v);
        proof {
            let vs = choose|vs: Seq<P::Out>| v@ == seq![iv] + vs && runs(self.parser, rest, vs, rest2);
            assert(v@.drop_first() == vs);
            assert(self.parser.parse_ensures(txt, Ok((v@[0], rest))));
        }
        Ok((v, rest2))
    }
}

/// The first components of a sequence of pairs.
pub open spec fn firsts<O, O2>(pairs: Seq<(O, O2)>) -> Seq<O> {
    pairs.map_values(|x: (O, O2)| x.0)
}

/// Runs the pair parser `p` from `txt` until it fails, appending the first
/// component of each output to `v`; returns the remaining input.
fn collect_firsts<I: Clone, O, O2, P: Parser<I, Out = (O, O2)>>(
    p: &P,
    txt: I,
    v: &mut Vec<O>,
) -> (rest: I)
    requires
        finitely_repeats(*p, txt),
    ensures
        exists|pairs: Seq<(O, O2)>|
            #![trigger runs(*p, txt, pairs, rest)]
            final(v)@ == old(v)@ + firsts(pairs) && runs(*p, txt, pairs, rest),
        fails_on_clone(*p, rest),
{
    let mut iter = ParseIter::new(p, txt);
    let ghost mut n = choose|n: nat| repeats_at_most(*p, txt, n);
    let ghost v0 = v@;
    let ghost mut pairs: Seq<(O, O2)> = Seq::empty();
    assert(v@ == v0 + firsts(pairs));
    loop
        invariant
            iter.parser() == *p,
            repeats_at_most(*p, iter.input(), n),
            runs(*p, txt, pairs, iter.input()),
            v0 == old(v)@,
            v@ == v0 + firsts(pairs),
        decreases n,
    {
        let ghost cur = iter.input();
        match iter.next() {
            Some(x) => {
                proof {
                    lemma_runs_push(*p, txt, pairs, cur, x, iter.input());
                    assert(firsts(pairs.push(x)) == firsts(pairs).push(x.0));
                    pairs = pairs.push(x);
                    n = (n - 1) as nat;
                }
                let (o, _s) = x;
                v.push(o);
            },
            None => {
                let rest = iter.remains();
                assert(runs(*p, txt, pairs, rest));
                return rest;
            },
        }
    }
}

/// The pair parser `p` may repeat from `input` with outputs whose first
/// components are `vs`, until it may fail on `rest`.
pub open spec fn sep_list_ok<I: Clone, O, O2, P: Parser<I, Out = (O, O2)>>(
    p: P,
    input: I,
    vs: Seq<O>,
    rest: I,
) -> bool {
    &&& exists|pairs: Seq<(O, O2)>| #[trigger] runs(p, input, pairs, rest) && vs == firsts(pairs)
    &&& fails_on_clone(p, rest)
}

/// The parser returned by [`sep_list`].
pub struct SepList<I, P, P2> {
    parse_seq: (P, Optional<I, P2>),
}

impl<I, P, P2> SepList<I, P, P2> {
    /// The parser of an item followed by an optional separator.
    pub closed spec fn item_then_sep(self) -> (P, Optional<I, P2>) {
        self.parse_seq
    }
}

/// A list of items, each followed by an optional separator: repeats
/// `(item, optional(sep))` until it fails and returns the items. It never
/// fails; the list may be empty.
pub fn sep_list<I, O, O2, E, P, P2>(item: P, sep: P2) -> (s: SepList<I, P, P2>) where
    I: Clone,
    P: Parser<I, Out = O, Error = E>,
    P2: Parser<I, Out = O2, Error = E>,

    ensures
        s.item_then_sep().0 == item,
        s.item_then_sep().1.inner() == sep,
{
    SepList { parse_seq: (item, optional(sep)) }
}

impl<I: Clone, E, P, P2> Parser<I> for SepList<I, P, P2> where
    P: Parser<I, Error = E>,
    P2: Parser<I, Error = E>,
 {
    type Out = Vec<P::Out>;

    type Error = E;

    open spec fn parse_requires(&self, input: I) -> bool {
        finitely_repeats(self.item_then_sep(), input)
    }

    open spec fn parse_ensures(&self, input: I, res: Result<(Vec<P::Out>, I), E>) -> bool {
        match res {
            Ok((vs, rest)) => sep_list_ok(self.item_then_sep(), input, vs@, rest),
            Err(_) => false,
        }
    }

    fn parse(&self, txt: I) -> (res: Result<(Vec<P::Out>, I), E>) {
        let mut v = Vec::new();
        let rest = collect_firsts(&self.parse_seq, txt, &mut v);
        assert(v@ =~= Seq::empty() + v@);
        Ok((v, rest))
    }
}

/// The pair parser `p` may succeed on `input` with the first of `vs`, and
/// the list goes on as [`sep_list_ok`] from that success's residual, whether
/// or not a separator followed the first item.
pub open spec fn sep_list_plus_ok<I: Clone, O, O2, P: Parser<I, Out = (O, O2)>>(
    p: P,
    input: I,
    vs: Seq<O>,
    rest: I,
) -> bool {
    &&& vs.len() > 0
    &&& exists|s: O2, mid: I|
        #[trigger] p.parse_ensures(input, Ok(((vs[0], s), mid))) && sep_list_ok(
            p,
            mid,
            vs.drop_first(),
            rest,
        )
}

/// The pair parser `p` may be run on `input`, and repeating it terminates
/// from every residual of a success.
pub open spec fn sep_list_plus_requires<I: Clone, O, O2, P: Parser<I, Out = (O, O2)>>(
    p: P,
    input: I,
) -> bool {
    &&& p.parse_requires(input)
    &&& forall|o: O, s: O2, mid: I| #[trigger]
        p.parse_ensures(input, Ok(((o, s), mid))) ==> finitely_repeats(p, mid)
}

/// The parser returned by [`sep_list_plus`].
pub struct SepListPlus<I, P, P2> {
    parse_seq: (P, Optional<I, P2>),
}

impl<I, P, P2> SepListPlus<I, P, P2> {
    /// The parser of an item followed by an optional separator.
    pub closed spec fn item_then_sep(self) -> (P, Optional<I, P2>) {
        self.parse_seq
    }
}

/// A separated list with a minimum of one match: parses an item and an
/// optional separator on the input itself, failing with its error if that
/// fails, and then goes on as [`sep_list`] from the residual.
pub fn sep_list_plus<I, O, O2, E, P, P2>(item: P, sep: P2) -> (s: SepListPlus<I, P, P2>) where
    I: Clone,
    P: Parser<I, Out = O, Error = E>,
    P2: Parser<I, Out = O2, Error = E>,

    ensures
        s.item_then_sep().0 == item,
        s.item_then_sep().1.inner() == sep,
{
    SepListPlus { parse_seq: (item, optional(sep)) }
}

impl<I: Clone, E, P, P2> Parser<I> for SepListPlus<I, P, P2> where
    P: Parser<I, Error = E>,
    P2: Parser<I, Error = E>,
 {
    type Out = Vec<P::Out>;

    type Error = E;

    open spec fn parse_requires(&self, input: I) -> bool {
        sep_list_plus_requires(self.item_then_sep(), input)
    }

    open spec fn parse_ensures(&self, input: I, res: Result<(Vec<P::Out>, I), E>) -> bool {
        match res {
            Ok((vs, rest)) => sep_list_plus_ok(self.item_then_sep(), input, vs@, rest),
            Err(e) => self.item_then_sep().parse_ensures(input, Err(e)),
        }
    }

    fn parse(&self, txt: I) -> (res: Result<(Vec<P::Out>, I), E>) {
        match self.parse_seq.parse(txt) {
            Err(e) => Err(e),
            Ok(((item, s), rest)) => {
                let ghost first = (item, s);
                let mut v = Vec::new();
                v.push(item);
                let rest2 = collect_firsts(&self.parse_seq, rest, &mut v);
                proof {
                    let pairs = choose|pairs: Seq<(P::Out, Option<P2::Out>)>|
                        v@ == seq![first.0] + firsts(pairs) && runs(self.parse_seq, rest, pairs, rest2);
                    assert(v@.drop_first() == firsts(pairs));
                    assert(self.parse_seq.parse_ensures(txt, Ok(((v@[0], first.1), rest))));
                }
                Ok((v, rest2))
            },
        }
    }
}

/// Over inputs whose clones are equal, `star` of a deterministic parser has
/// one result on each input: the same items and the same residual.
pub proof fn lemma_star_result_unique<I: Clone, P: Parser<I>>(
    s: Star<I, P>,
    input: I,
    v1: Vec<P::Out>,
    rest1: I,
    v2: Vec<P::Out>,
    rest2: I,
)
    requires
        deterministic(s.inner()),
        clones_are_equal::<I>(),
        s.parse_ensures(input, Ok((v1, rest1))),
        s.parse_ensures(input, Ok((v2, rest2))),
    ensures
        v1@ == v2@,
        rest1 == rest2,
{
    lemma_runs_unique(s.inner(), input, v1@, rest1, v2@, rest2);
}

/// `plus(p)` is `p` run once on the input, followed by `star(p)` on its
/// residual: it succeeds with a first item and the rest exactly when `p`
/// succeeds with that item and `star(p)` then yields the rest.
pub proof fn lemma_plus_is_one_then_star<I: Clone, P: Parser<I>>(
    pl: Plus<I, P>,
    st: Star<I, P>,
    input: I,
    v: Vec<P::Out>,
    tail: Vec<P::Out>,
    rest: I,
)
    requires
        pl.inner() == st.inner(),
        v@.len() > 0,
        tail@ == v@.drop_first(),
    ensures
        pl.parse_ensures(input, Ok((v, rest))) <==> exists|mid: I|
            #[trigger] pl.inner().parse_ensures(input, Ok((v@[0], mid))) && st.parse_ensures(
                mid,
                Ok((tail, rest)),
            ),
{
}

/// Over inputs whose clones are equal, `plus` of a deterministic parser has
/// one result on each input: both succeed with the same items and residual,
/// or both fail with the same error.
pub proof fn lemma_plus_result_unique<I: Clone, P: Parser<I>>(
    pl: Plus<I, P>,
    input: I,
    r1: Result<(Vec<P::Out>, I), P::Error>,
    r2: Result<(Vec<P::Out>, I), P::Error>,
)
    requires
        deterministic(pl.inner()),
        clones_are_equal::<I>(),
        pl.parse_ensures(input, r1),
        pl.parse_ensures(input, r2),
    ensures
        r1 is Ok <==> r2 is Ok,
        r1 is Ok ==> r1->Ok_0.0@ == r2->Ok_0.0@ && r1->Ok_0.1 == r2->Ok_0.1,
        r1 is Err ==> r1 == r2,
{
    let p = pl.inner();
    match (r1, r2) {
        (Ok((v1, rest1)), Ok((v2, rest2))) => {
            let m1 = choose|mid: I|
                #[trigger] p.parse_ensures(input, Ok((v1@[0], mid))) && runs(
                    p,
                    mid,
                    v1@.drop_first(),
                    rest1,
                );
            let m2 = choose|mid: I|
                #[trigger] p.parse_ensures(input, Ok((v2@[0], mid))) && runs(
                    p,
                    mid,
                    v2@.drop_first(),
                    rest2,
                );
            assert(p.parse_ensures(input, Ok((v1@[0], m1))));
            assert(p.parse_ensures(input, Ok((v2@[0], m2))));
            lemma_runs_unique(p, m1, v1@.drop_first(), rest1, v2@.drop_first(), rest2);
            assert(v1@ == seq![v1@[0]] + v1@.drop_first());
            assert(v2@ == seq![v2@[0]] + v2@.drop_first());
        },
        (Ok((v1, rest1)), Err(e2)) => {
            let m1 = choose|mid: I|
                #[trigger] p.parse_ensures(input, Ok((v1@[0], mid))) && runs(
                    p,
                    mid,
                    v1@.drop_first(),
                    rest1,
                );
            assert(p.parse_ensures(input, Ok((v1@[0], m1))));
            assert(p.parse_ensures(input, Err(e2)));
        },
        (Err(e1), Ok((v2, rest2))) => {
            let m2 = choose|mid: I|
                #[trigger] p.parse_ensures(input, Ok((v2@[0], mid))) && runs(
                    p,
                    mid,
                    v2@.drop_first(),
                    rest2,
                );
            assert(p.parse_ensures(input, Ok((v2@[0], m2))));
            assert(p.parse_ensures(input, Err(e1)));
        },
        (Err(e1), Err(e2)) => {
            assert(p.parse_ensures(input, Err(e1)));
            assert(p.parse_ensures(input, Err(e2)));
        },
    }
}

/// Over inputs whose clones are equal, an item followed by an optional
/// separator is deterministic when the item and separator parsers are.
pub proof fn lemma_item_then_sep_deterministic<I: Clone, E, P, P2>(pair: (P, Optional<I, P2>))
    where
        P: Parser<I, Error = E>,
        P2: Parser<I, Error = E>,
    requires
        clones_are_equal::<I>(),
        deterministic(pair.0),
        deterministic(pair.1.inner()),
    ensures
        deterministic::<I, (P, Optional<I, P2>)>(pair),
{
    lemma_optional_deterministic(pair.1);
    lemma_tuple2_deterministic::<I, E, P, Optional<I, P2>>(pair);
}

/// Over inputs whose clones are equal, `sep_list` of deterministic item and
/// separator parsers has one result on each input: the same items and the
/// same residual.
pub proof fn lemma_sep_list_result_unique<I: Clone, E, P, P2>(
    s: SepList<I, P, P2>,
    input: I,
    v1: Vec<P::Out>,
    rest1: I,
    v2: Vec<P::Out>,
    rest2: I,
)
    where
        P: Parser<I, Error = E>,
        P2: Parser<I, Error = E>,
    requires
        clones_are_equal::<I>(),
        deterministic(s.item_then_sep().0),
        deterministic(s.item_then_sep().1.inner()),
        s.parse_ensures(input, Ok((v1, rest1))),
        s.parse_ensures(input, Ok((v2, rest2))),
    ensures
        v1@ == v2@,
        rest1 == rest2,
{
    let pair = s.item_then_sep();
    lemma_item_then_sep_deterministic(pair);
    let pairs1 = choose|pairs: Seq<(P::Out, Option<P2::Out>)>|
        #[trigger] runs(pair, input, pairs, rest1) && v1@ == firsts(pairs);
    let pairs2 = choose|pairs: Seq<(P::Out, Option<P2::Out>)>|
        #[trigger] runs(pair, input, pairs, rest2) && v2@ == firsts(pairs);
    lemma_runs_unique(pair, input, pairs1, rest1, pairs2, rest2);
}

/// Over inputs whose clones are equal, `sep_list_plus` of deterministic item
/// and separator parsers has one result on each input: both succeed with the
/// same items and residual, or both fail with the same error.
pub proof fn lemma_sep_list_plus_result_unique<I: Clone, E, P, P2>(
    s: SepListPlus<I, P, P2>,
    input: I,
    r1: Result<(Vec<P::Out>, I), E>,
    r2: Result<(Vec<P::Out>, I), E>,
)
    where
        P: Parser<I, Error = E>,
        P2: Parser<I, Error = E>,
    requires
        clones_are_equal::<I>(),
        deterministic(s.item_then_sep().0),
        deterministic(s.item_then_sep().1.inner()),
        s.parse_ensures(input, r1),
        s.parse_ensures(input, r2),
    ensures
        r1 is Ok <==> r2 is Ok,
        r1 is Ok ==> r1->Ok_0.0@ == r2->Ok_0.0@ && r1->Ok_0.1 == r2->Ok_0.1,
        r1 is Err ==> r1 == r2,
{
    let pair = s.item_then_sep();
    lemma_item_then_sep_deterministic(pair);
    match (r1, r2) {
        (Ok((v1, rest1)), Ok((v2, rest2))) => {
            let (s1, m1) = choose|s: Option<P2::Out>, mid: I|
                #[trigger] pair.parse_ensures(input, Ok(((v1@[0], s), mid))) && sep_list_ok(
                    pair,
                    mid,
                    v1@.drop_first(),
                    rest1,
                );
            let (s2, m2) = choose|s: Option<P2::Out>, mid: I|
                #[trigger] pair.parse_ensures(input, Ok(((v2@[0], s), mid))) && sep_list_ok(
                    pair,
                    mid,
                    v2@.drop_first(),
                    rest2,
                );
            assert(pair.parse_ensures(input, Ok(((v1@[0], s1), m1))));
            assert(pair.parse_ensures(input, Ok(((v2@[0], s2), m2))));
            assert(v1@[0] == v2@[0] && s1 == s2 && m1 == m2);
            let pairs1 = choose|pairs: Seq<(P::Out, Option<P2::Out>)>|
                #[trigger] runs(pair, m1, pairs, rest1) && v1@.drop_first() == firsts(pairs);
            let pairs2 = choose|pairs: Seq<(P::Out, Option<P2::Out>)>|
                #[trigger] runs(pair, m1, pairs, rest2) && v2@.drop_first() == firsts(pairs);
            lemma_runs_unique(pair, m1, pairs1, rest1, pairs2, rest2);
            assert(v1@ == seq![v1@[0]] + v1@.drop_first());
            assert(v2@ == seq![v2@[0]] + v2@.drop_first());
        },
        (Ok((v1, rest1)), Err(e2)) => {
            let (s1, m1) = choose|s: Option<P2::Out>, mid: I|
                #[trigger] pair.parse_ensures(input, Ok(((v1@[0], s), mid))) && sep_list_ok(
                    pair,
                    mid,
                    v1@.drop_first(),
                    rest1,
                );
            assert(pair.parse_ensures(input, Ok(((v1@[0], s1), m1))));
            assert(pair.parse_ensures(input, Err(e2)));
        },
        (Err(e1), Ok((v2, rest2))) => {
            let (s2, m2) = choose|s: Option<P2::Out>, mid: I|
                #[trigger] pair.parse_ensures(input, Ok(((v2@[0], s), mid))) && sep_list_ok(
                    pair,
                    mid,
                    v2@.drop_first(),
                    rest2,
                );
            assert(pair.parse_ensures(input, Ok(((v2@[0], s2), m2))));
            assert(pair.parse_ensures(input, Err(e1)));
        },
        (Err(e1), Err(e2)) => {
            assert(pair.parse_ensures(input, Err(e1)));
            assert(pair.parse_ensures(input, Err(e2)));
        },
    }
}

/// `sep_list_plus` is `sep_list` with a minimum of one match: over inputs
/// whose clones are equal, it succeeds with a list and a residual exactly
/// when `sep_list` succeeds with that list, non-empty, and that residual.
pub proof fn lemma_sep_list_plus_is_non_empty_sep_list<I: Clone, E, P, P2>(
    slp: SepListPlus<I, P, P2>,
    sl: SepList<I, P, P2>,
    input: I,
    v: Vec<P::Out>,
    rest: I,
)
    where
        P: Parser<I, Error = E>,
        P2: Parser<I, Error = E>,
    requires
        clones_are_equal::<I>(),
        slp.item_then_sep() == sl.item_then_sep(),
    ensures
        slp.parse_ensures(input, Ok((v, rest))) <==> v@.len() > 0 && sl.parse_ensures(
            input,
            Ok((v, rest)),
        ),
{
    let pair = slp.item_then_sep();
    if slp.parse_ensures(input, Ok((v, rest))) {
        let (s, mid) = choose|s: Option<P2::Out>, mid: I|
            #[trigger] pair.parse_ensures(input, Ok(((v@[0], s), mid))) && sep_list_ok(
                pair,
                mid,
                v@.drop_first(),
                rest,
            );
        let pairs = choose|pairs: Seq<(P::Out, Option<P2::Out>)>|
            #[trigger] runs(pair, mid, pairs, rest) && v@.drop_first() == firsts(pairs);
        let first = (v@[0], s);
        assert(cloned(input, input));
        assert(yields_on_clone(pair, input, Ok((first, mid))));
        lemma_runs_cons(pair, input, first, mid, pairs, rest);
        let all = seq![first] + pairs;
        assert(firsts(all) == seq![v@[0]] + firsts(pairs));
        assert(v@ == seq![v@[0]] + v@.drop_first());
        assert(runs(pair, input, all, rest));
    }
    if v@.len() > 0 && sl.parse_ensures(input, Ok((v, rest))) {
        let pairs = choose|pairs: Seq<(P::Out, Option<P2::Out>)>|
            #[trigger] runs(pair, input, pairs, rest) && v@ == firsts(pairs);
        assert(pairs.len() > 0);
        lemma_runs_first(pair, input, pairs, rest);
        let mid = choose|mid: I|
            #[trigger] yields_on_clone(pair, input, Ok((pairs[0], mid))) && runs(
                pair,
                mid,
                pairs.drop_first(),
                rest,
            );
        lemma_clones_are_transparent(pair);
        assert(pair.parse_ensures(input, Ok(((v@[0], pairs[0].1), mid))));
        assert(firsts(pairs.drop_first()) == v@.drop_first());
        assert(runs(pair, mid, pairs.drop_first(), rest));
    }
}

/// `sep_list(item, sep)` is `star` of an item followed by an optional
/// separator, keeping the first of each pair: a result of the repetition
/// gives the list of its first components with the same residual, and every
/// result of `sep_list` comes from such a result.
pub proof fn lemma_sep_list_is_star_of_pairs<I: Clone, E, P, P2>(
    sl: SepList<I, P, P2>,
    st: Star<I, (P, Optional<I, P2>)>,
    input: I,
    v: Vec<P::Out>,
    rest: I,
)
    where
        P: Parser<I, Error = E>,
        P2: Parser<I, Error = E>,
    requires
        st.inner() == sl.item_then_sep(),
    ensures
        forall|pv: Vec<(P::Out, Option<P2::Out>)>|
            v@ == firsts(pv@) && #[trigger] st.parse_ensures(input, Ok((pv, rest)))
                ==> sl.parse_ensures(input, Ok((v, rest))),
        sl.parse_ensures(input, Ok((v, rest))) ==> exists|pairs: Seq<(P::Out, Option<P2::Out>)>|
            v@ == #[trigger] firsts(pairs) && forall|pv: Vec<(P::Out, Option<P2::Out>)>|
                pv@ == pairs ==> #[trigger] st.parse_ensures(input, Ok((pv, rest))),
{
    let pair = sl.item_then_sep();
    assert forall|pv: Vec<(P::Out, Option<P2::Out>)>|
        v@ == firsts(pv@) && #[trigger] st.parse_ensures(input, Ok((pv, rest))) implies sl.parse_ensures(
        input,
        Ok((v, rest)),
    ) by {
        assert(runs(pair, input, pv@, rest));
    }
    if sl.parse_ensures(input, Ok((v, rest))) {
        let pairs = choose|pairs: Seq<(P::Out, Option<P2::Out>)>|
            #[trigger] runs(pair, input, pairs, rest) && v@ == firsts(pairs);
        assert(v@ == firsts(pairs));
    }
}

} // verus!
