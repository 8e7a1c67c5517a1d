//! The parser trait, its implementation for plain functions and closures,
//! and the output/error adapters `map`, `and_then` and `map_err`.
//!
//! A parser is specified by a relation: `parse_ensures(input, res)` holds when
//! `res` is a possible outcome of parsing `input`. For a closure this is the
//! closure's own postcondition, so parsers need not be deterministic; where a
//! combinator's law needs a single outcome, it asks for `deterministic`.
use vstd::prelude::*;

verus! {

/// A parser over inputs of type `I`.
///
/// `parse` either fails with an error, or returns an output and the residual
/// input that was not consumed.
pub trait Parser<I> {
    /// The value a successful parse produces.
    type Out;

    /// The error a failed parse produces.
    type Error;

    /// The inputs on which `parse` may be called.
    spec fn parse_requires(&self, input: I) -> bool;

    /// `res` is a possible result of parsing `input`.
    spec fn parse_ensures(&self, input: I, res: Result<(Self::Out, I), Self::Error>) -> bool;

    /// Runs the parser on `input`.
    fn parse(&self, input: I) -> (res: Result<(Self::Out, I), Self::Error>)
        requires
            self.parse_requires(input),
        ensures
            self.parse_ensures(input, res),
    ;

    /// A parser that applies `f` to the output of this one; errors and the
    /// residual input are left as they are.
    fn map<O2, F: Fn(Self::Out) -> O2>(self, f: F) -> (m: Mapped<Self, F>) where Self: Sized
        ensures
            m.inner() == self,
            m.func() == f,
    {
        Mapped { parser: self, f }
    }

    /// A parser that feeds the output of this one to `f`, which may fail with
    /// an error of the same type.
    fn and_then<O2, F: Fn(Self::Out) -> Result<O2, Self::Error>>(self, f: F) -> (m: AndThen<
        Self,
        F,
    >) where Self: Sized
        ensures
            m.inner() == self,
            m.func() == f,
    {
        AndThen { parser: self, f }
    }

    /// A parser that applies `f` to the error of this one; successes are left
    /// as they are.
    fn map_err<E2, F: Fn(Self::Error) -> E2>(self, f: F) -> (m: MapErr<Self, F>) where
        Self: Sized,

        ensures
            m.inner() == self,
            m.func() == f,
    {
        MapErr { parser: self, f }
    }
}

/// Every function or closure from an input to `Result<(output, residual), error>`
/// is a parser; parsing calls it.
impl<I, O, E, F> Parser<I> for F where F: Fn(I) -> Result<(O, I), E> {
    type Out = O;

    type Error = E;

    open spec fn parse_requires(&self, input: I) -> bool {
        call_requires(*self, (input,))
    }

    open spec fn parse_ensures(&self, input: I, res: Result<(O, I), E>) -> bool {
        call_ensures(*self, (input,), res)
    }

    fn parse(&self, input: I) -> (res: Result<(O, I), E>) {
        (self)(input)
    }
}

/// A function used as a parser may be run where the function may be called,
/// and its results are exactly the function's own results.
///
/// Stated for any function type, so that a caller reasoning about one
/// particular function or closure can instantiate it.
pub proof fn lemma_function_is_parser<I, O, E, F: Fn(I) -> Result<(O, I), E>>(f: F)
    ensures
        forall|input: I| #[trigger] f.parse_requires(input) == call_requires(f, (input,)),
        forall|input: I, res: Result<(O, I), E>| #[trigger]
            f.parse_ensures(input, res) == call_ensures(f, (input,), res),
{
}

/// `res` is a possible result of running `p` on some clone of `input`.
pub open spec fn yields_on_clone<I: Clone, P: Parser<I>>(
    p: P,
    input: I,
    res: Result<(P::Out, I), P::Error>,
) -> bool {
    exists|c: I| cloned(input, c) && #[trigger] p.parse_ensures(c, res)
}

/// `p` may fail on some clone of `input`.
pub open spec fn fails_on_clone<I: Clone, P: Parser<I>>(p: P, input: I) -> bool {
    exists|e: P::Error| #[trigger] yields_on_clone(p, input, Err(e))
}

/// `p` may be run on every clone of `input`.
pub open spec fn accepts_clones<I: Clone, P: Parser<I>>(p: P, input: I) -> bool {
    forall|c: I| cloned(input, c) ==> #[trigger] p.parse_requires(c)
}

/// `p` has at most one possible result on each input.
pub open spec fn deterministic<I, P: Parser<I>>(p: P) -> bool {
    forall|input: I, r1: Result<(P::Out, I), P::Error>, r2: Result<(P::Out, I), P::Error>|
        #![trigger p.parse_ensures(input, r1), p.parse_ensures(input, r2)]
        p.parse_ensures(input, r1) && p.parse_ensures(input, r2) ==> r1 == r2
}

/// Cloning an `I` gives back an equal value (as for `&str` and `&[u8]`).
pub open spec fn clones_are_equal<I: Clone>() -> bool {
    forall|a: I, b: I| #[trigger] cloned(a, b) ==> a == b
}

/// `p` may succeed on `input` with residual `rest` and an output that `f`
/// may map to `o2`.
pub open spec fn map_ok<I, P: Parser<I>, F: Fn(P::Out) -> O2, O2>(
    p: P,
    f: F,
    input: I,
    o2: O2,
    rest: I,
) -> bool {
    exists|o: P::Out| #[trigger] p.parse_ensures(input, Ok((o, rest))) && call_ensures(f, (o,), o2)
}

/// `f` has at most one possible result on each argument.
pub open spec fn functional<A, B, F: Fn(A) -> B>(f: F) -> bool {
    forall|a: A, b1: B, b2: B|
        #![trigger call_ensures(f, (a,), b1), call_ensures(f, (a,), b2)]
        call_ensures(f, (a,), b1) && call_ensures(f, (a,), b2) ==> b1 == b2
}

/// Where clones are equal, running on a clone of `input` is running on
/// `input` itself.
pub proof fn lemma_yields_on_clone_is_yields<I: Clone, P: Parser<I>>(
    p: P,
    input: I,
    res: Result<(P::Out, I), P::Error>,
)
    requires
        clones_are_equal::<I>(),
    ensures
        yields_on_clone(p, input, res) <==> p.parse_ensures(input, res),
{
    if p.parse_ensures(input, res) {
        assert(cloned(input, input));
    }
}

/// Where clones are equal, `p` runs on clones of its input as on the input
/// itself, for every input and result.
pub proof fn lemma_clones_are_transparent<I: Clone, P: Parser<I>>(p: P)
    requires
        clones_are_equal::<I>(),
    ensures
        forall|input: I, res: Result<(P::Out, I), P::Error>|
            #[trigger] yields_on_clone(p, input, res) <==> p.parse_ensures(input, res),
{
    assert forall|input: I, res: Result<(P::Out, I), P::Error>|
        #[trigger] yields_on_clone(p, input, res) <==> p.parse_ensures(input, res) by {
        lemma_yields_on_clone_is_yields(p, input, res);
    }
}

/// Cloning a shared reference gives back the same reference, so inputs such
/// as `&str` and `&[u8]` have equal clones.
pub proof fn lemma_reference_clones_are_equal<'a, T: ?Sized>()
    ensures
        clones_are_equal::<&'a T>(),
{
}

/// The parser returned by [`Parser::map`].
pub struct Mapped<P, F> {
    parser: P,
    f: F,
}

impl<P, F> Mapped<P, F> {
    /// The parser whose output is mapped.
    pub closed spec fn inner(self) -> P {
        self.parser
    }

    /// The function applied to the output.
    pub closed spec fn func(self) -> F {
        self.f
    }
}

impl<I, P, F, O2> Parser<I> for Mapped<P, F> where P: Parser<I>, F: Fn(P::Out) -> O2 {
    type Out = O2;

    type Error = P::Error;

    open spec fn parse_requires(&self, input: I) -> bool {
        &&& self.inner().parse_requires(input)
        &&& forall|o: P::Out, rest: I|
            #[trigger] self.inner().parse_ensures(input, Ok((o, rest))) ==> call_requires(
                self.func(),
                (o,),
            )
    }

    open spec fn parse_ensures(&self, input: I, res: Result<(O2, I), P::Error>) -> bool {
        match res {
            Ok((o2, rest)) => map_ok(self.inner(), self.func(), input, o2, rest),
            Err(e) => self.inner().parse_ensures(input, Err(e)),
        }
    }

    fn parse(&self, input: I) -> (res: Result<(O2, I), P::Error>) {
        match self.parser.parse(input) {
            Ok((out, rest)) => {
                let o2 = (self.f)(out);
                assert(self.inner().parse_ensures(input, Ok((out, rest))));
                Ok((o2, rest))
            },
            Err(e) => Err(e),
        }
    }
}

/// `p` may succeed on `input` with residual `rest` and an output that `f`
/// may turn into `Ok(o2)`.
pub open spec fn and_then_ok<I, P: Parser<I>, F: Fn(P::Out) -> Result<O2, P::Error>, O2>(
    p: P,
    f: F,
    input: I,
    o2: O2,
    rest: I,
) -> bool {
    exists|o: P::Out|
        #[trigger] p.parse_ensures(input, Ok((o, rest))) && call_ensures(f, (o,), Ok(o2))
}

/// `p` may succeed on `input` with an output that `f` may reject with `e`.
pub open spec fn and_then_err<I, P: Parser<I>, F: Fn(P::Out) -> Result<O2, P::Error>, O2>(
    p: P,
    f: F,
    input: I,
    e: P::Error,
) -> bool {
    exists|o: P::Out, rest: I|
        #[trigger] p.parse_ensures(input, Ok((o, rest))) && call_ensures(f, (o,), Err(e))
}

/// The parser returned by [`Parser::and_then`].
pub struct AndThen<P, F> {
    parser: P,
    f: F,
}

impl<P, F> AndThen<P, F> {
    /// The parser whose output is fed to the function.
    pub closed spec fn inner(self) -> P {
        self.parser
    }

    /// The function applied to the output.
    pub closed spec fn func(self) -> F {
        self.f
    }
}

impl<I, P, F, O2> Parser<I> for AndThen<P, F> where
    P: Parser<I>,
    F: Fn(P::Out) -> Result<O2, P::Error>,
 {
    type Out = O2;

    type Error = P::Error;

    open spec fn parse_requires(&self, input: I) -> bool {
        &&& self.inner().parse_requires(input)
        &&& forall|o: P::Out, rest: I|
            #[trigger] self.inner().parse_ensures(input, Ok((o, rest))) ==> call_requires(
                self.func(),
                (o,),
            )
    }

    open spec fn parse_ensures(&self, input: I, res: Result<(O2, I), P::Error>) -> bool {
        match res {
            Ok((o2, rest)) => and_then_ok(self.inner(), self.func(), input, o2, rest),
            Err(e) => {
                ||| self.inner().parse_ensures(input, Err(e))
                ||| and_then_err(self.inner(), self.func(), input, e)
            },
        }
    }

    fn parse(&self, input: I) -> (res: Result<(O2, I), P::Error>) {
        match self.parser.parse(input) {
            Ok((out, rest)) => {
                assert(self.inner().parse_ensures(input, Ok((out, rest))));
                match (self.f)(out) {
                    Ok(o2) => Ok((o2, rest)),
                    Err(e) => Err(e),
                }
            },
            Err(e) => Err(e),
        }
    }
}

/// The parser returned by [`Parser::map_err`].
pub struct MapErr<P, F> {
    parser: P,
    f: F,
}

impl<P, F> MapErr<P, F> {
    /// The parser whose error is mapped.
    pub closed spec fn inner(self) -> P {
        self.parser
    }

    /// The function applied to the error.
    pub closed spec fn func(self) -> F {
        self.f
    }
}

impl<I, P, F, E2> Parser<I> for MapErr<P, F> where P: Parser<I>, F: Fn(P::Error) -> E2 {
    type Out = P::Out;

    type Error = E2;

    open spec fn parse_requires(&self, input: I) -> bool {
        &&& self.inner().parse_requires(input)
        &&& forall|e: P::Error| #[trigger]
            self.inner().parse_ensures(input, Err(e)) ==> call_requires(self.func(), (e,))
    }

    open spec fn parse_ensures(&self, input: I, res: Result<(P::Out, I), E2>) -> bool {
        match res {
            Ok(v) => self.inner().parse_ensures(input, Ok(v)),
            Err(e2) => exists|e: P::Error| #[trigger]
                self.inner().parse_ensures(input, Err(e)) && call_ensures(self.func(), (e,), e2),
        }
    }

    fn parse(&self, input: I) -> (res: Result<(P::Out, I), E2>) {
        match self.parser.parse(input) {
            Ok(v) => Ok(v),
            Err(e) => {
                let e2 = (self.f)(e);
                Err(e2)
            },
        }
    }
}

/// Mapping the output of a deterministic parser with a functional `f` gives a
/// deterministic parser.
pub proof fn lemma_map_deterministic<I, P: Parser<I>, F: Fn(P::Out) -> O2, O2>(m: Mapped<P, F>)
    requires
        deterministic(m.inner()),
        functional(m.func()),
    ensures
        deterministic::<I, Mapped<P, F>>(m),
{
    let p = m.inner();
    assert forall|input: I, r1: Result<(O2, I), P::Error>, r2: Result<(O2, I), P::Error>|
        m.parse_ensures(input, r1) && m.parse_ensures(input, r2) implies r1 == r2 by {
        match (r1, r2) {
            (Ok((y1, rest1)), Ok((y2, rest2))) => {
                let o1 = choose|o: P::Out|
                    #[trigger] p.parse_ensures(input, Ok((o, rest1))) && call_ensures(
                        m.func(),
                        (o,),
                        y1,
                    );
                let o2 = choose|o: P::Out|
                    #[trigger] p.parse_ensures(input, Ok((o, rest2))) && call_ensures(
                        m.func(),
                        (o,),
                        y2,
                    );
                assert(p.parse_ensures(input, Ok((o1, rest1))));
                assert(p.parse_ensures(input, Ok((o2, rest2))));
            },
            (Ok((y1, rest1)), Err(e2)) => {
                let o1 = choose|o: P::Out|
                    #[trigger] p.parse_ensures(input, Ok((o, rest1))) && call_ensures(
                        m.func(),
                        (o,),
                        y1,
                    );
                assert(p.parse_ensures(input, Ok((o1, rest1))));
                assert(p.parse_ensures(input, Err(e2)));
            },
            (Err(e1), Ok((y2, rest2))) => {
                let o2 = choose|o: P::Out|
                    #[trigger] p.parse_ensures(input, Ok((o, rest2))) && call_ensures(
                        m.func(),
                        (o,),
                        y2,
                    );
                assert(p.parse_ensures(input, Ok((o2, rest2))));
                assert(p.parse_ensures(input, Err(e1)));
            },
            (Err(e1), Err(e2)) => {
                assert(p.parse_ensures(input, Err(e1)));
                assert(p.parse_ensures(input, Err(e2)));
            },
        }
    }
}

/// Mapping the error of a deterministic parser with a functional `f` gives a
/// deterministic parser.
pub proof fn lemma_map_err_deterministic<I, P: Parser<I>, F: Fn(P::Error) -> E2, E2>(
    m: MapErr<P, F>,
)
    requires
        deterministic(m.inner()),
        functional(m.func()),
    ensures
        deterministic::<I, MapErr<P, F>>(m),
{
    let p = m.inner();
    assert forall|input: I, r1: Result<(P::Out, I), E2>, r2: Result<(P::Out, I), E2>|
        m.parse_ensures(input, r1) && m.parse_ensures(input, r2) implies r1 == r2 by {
        match (r1, r2) {
            (Ok(v1), Ok(v2)) => {
                assert(p.parse_ensures(input, Ok(v1)));
                assert(p.parse_ensures(input, Ok(v2)));
            },
            (Ok(v1), Err(y2)) => {
                let e2 = choose|e: P::Error|
                    #[trigger] p.parse_ensures(input, Err(e)) && call_ensures(m.func(), (e,), y2);
                assert(p.parse_ensures(input, Ok(v1)));
                assert(p.parse_ensures(input, Err(e2)));
            },
            (Err(y1), Ok(v2)) => {
                let e1 = choose|e: P::Error|
                    #[trigger] p.parse_ensures(input, Err(e)) && call_ensures(m.func(), (e,), y1);
                assert(p.parse_ensures(input, Ok(v2)));
                assert(p.parse_ensures(input, Err(e1)));
            },
            (Err(y1), Err(y2)) => {
                let e1 = choose|e: P::Error|
                    #[trigger] p.parse_ensures(input, Err(e)) && call_ensures(m.func(), (e,), y1);
                let e2 = choose|e: P::Error|
                    #[trigger] p.parse_ensures(input, Err(e)) && call_ensures(m.func(), (e,), y2);
                assert(p.parse_ensures(input, Err(e1)));
                assert(p.parse_ensures(input, Err(e2)));
            },
        }
    }
}

/// Feeding the output of a deterministic parser to a functional `f` gives a
/// deterministic parser.
pub proof fn lemma_and_then_deterministic<
    I,
    P: Parser<I>,
    F: Fn(P::Out) -> Result<O2, P::Error>,
    O2,
>(m: AndThen<P, F>)
    requires
        deterministic(m.inner()),
        functional(m.func()),
    ensures
        deterministic::<I, AndThen<P, F>>(m),
{
    let p = m.inner();
    let f = m.func();
    assert forall|input: I, r1: Result<(O2, I), P::Error>, r2: Result<(O2, I), P::Error>|
        m.parse_ensures(input, r1) && m.parse_ensures(input, r2) implies r1 == r2 by {
        // every outcome comes from one outcome of `p`, and possibly of `f`
        let (o1, rest1, fr1) = if r1 is Ok {
            let (y1, rest1) = r1->Ok_0;
            let o1 = choose|o: P::Out|
                #[trigger] p.parse_ensures(input, Ok((o, rest1))) && call_ensures(f, (o,), Ok(y1));
            (Some(o1), rest1, Ok(y1))
        } else if p.parse_ensures(input, Err(r1->Err_0)) {
            (None, input, Err(r1->Err_0))
        } else {
            let (o1, rest1) = choose|o: P::Out, rest: I|
                #[trigger] p.parse_ensures(input, Ok((o, rest))) && call_ensures(
                    f,
                    (o,),
                    Err(r1->Err_0),
                );
            (Some(o1), rest1, Err(r1->Err_0))
        };
        let (o2, rest2, fr2) = if r2 is Ok {
            let (y2, rest2) = r2->Ok_0;
            let o2 = choose|o: P::Out|
                #[trigger] p.parse_ensures(input, Ok((o, rest2))) && call_ensures(f, (o,), Ok(y2));
            (Some(o2), rest2, Ok(y2))
        } else if p.parse_ensures(input, Err(r2->Err_0)) {
            (None, input, Err(r2->Err_0))
        } else {
            let (o2, rest2) = choose|o: P::Out, rest: I|
                #[trigger] p.parse_ensures(input, Ok((o, rest))) && call_ensures(
                    f,
                    (o,),
                    Err(r2->Err_0),
                );
            (Some(o2), rest2, Err(r2->Err_0))
        };
        match (o1, o2) {
            (Some(a1), Some(a2)) => {
                assert(p.parse_ensures(input, Ok((a1, rest1))));
                assert(p.parse_ensures(input, Ok((a2, rest2))));
                assert(call_ensures(f, (a1,), fr1));
                assert(call_ensures(f, (a2,), fr2));
            },
            (Some(a1), None) => {
                assert(p.parse_ensures(input, Ok((a1, rest1))));
                assert(p.parse_ensures(input, Err(r2->Err_0)));
            },
            (None, Some(a2)) => {
                assert(p.parse_ensures(input, Ok((a2, rest2))));
                assert(p.parse_ensures(input, Err(r1->Err_0)));
            },
            (None, None) => {
                assert(p.parse_ensures(input, Err(r1->Err_0)));
                assert(p.parse_ensures(input, Err(r2->Err_0)));
            },
        }
    }
}

/// Mapping with the identity leaves a parser as it is: same inputs, same
/// results.
pub proof fn lemma_map_identity<I, P: Parser<I>, F: Fn(P::Out) -> P::Out>(m: Mapped<P, F>)
    requires
        forall|o: P::Out| call_requires(m.func(), (o,)),
        forall|o: P::Out, o2: P::Out| #[trigger] call_ensures(m.func(), (o,), o2) <==> o2 == o,
    ensures
        forall|input: I| #[trigger] m.parse_requires(input) <==> m.inner().parse_requires(input),
        forall|input: I, res: Result<(P::Out, I), P::Error>|
            #[trigger] m.parse_ensures(input, res) <==> m.inner().parse_ensures(input, res),
{
    let p = m.inner();
    assert forall|input: I, res: Result<(P::Out, I), P::Error>|
        #[trigger] m.parse_ensures(input, res) <==> p.parse_ensures(input, res) by {
        if let Ok((o2, rest)) = res {
            if p.parse_ensures(input, res) {
                assert(call_ensures(m.func(), (o2,), o2));
            }
        }
    }
}

/// Mapping with `f` and then with `g` is mapping with their composition:
/// where `h` may turn `o` into `o3` exactly when `f` may turn it into some
/// `o2` that `g` may turn into `o3`, both parsers have the same results.
pub proof fn lemma_map_composition<
    I,
    P: Parser<I>,
    F: Fn(P::Out) -> O2,
    G: Fn(O2) -> O3,
    H: Fn(P::Out) -> O3,
    O2,
    O3,
>(mm: Mapped<Mapped<P, F>, G>, m: Mapped<P, H>)
    requires
        mm.inner().inner() == m.inner(),
        forall|o: P::Out, o3: O3|
            #[trigger] call_ensures(m.func(), (o,), o3) <==> exists|o2: O2|
                call_ensures(mm.inner().func(), (o,), o2) && #[trigger] call_ensures(
                    mm.func(),
                    (o2,),
                    o3,
                ),
    ensures
        forall|input: I, res: Result<(O3, I), P::Error>|
            #[trigger] mm.parse_ensures(input, res) <==> m.parse_ensures(input, res),
{
    let p = m.inner();
    let f = mm.inner().func();
    let g = mm.func();
    let h = m.func();
    assert forall|input: I, res: Result<(O3, I), P::Error>|
        #[trigger] mm.parse_ensures(input, res) <==> m.parse_ensures(input, res) by {
        if let Ok((o3, rest)) = res {
            if mm.parse_ensures(input, res) {
                let o2 = choose|o2: O2|
                    #[trigger] mm.inner().parse_ensures(input, Ok((o2, rest))) && call_ensures(
                        g,
                        (o2,),
                        o3,
                    );
                assert(mm.inner().parse_ensures(input, Ok((o2, rest))));
                let o = choose|o: P::Out|
                    #[trigger] p.parse_ensures(input, Ok((o, rest))) && call_ensures(f, (o,), o2);
                assert(p.parse_ensures(input, Ok((o, rest))));
                assert(call_ensures(h, (o,), o3));
            }
            if m.parse_ensures(input, res) {
                let o = choose|o: P::Out|
                    #[trigger] p.parse_ensures(input, Ok((o, rest))) && call_ensures(h, (o,), o3);
                assert(p.parse_ensures(input, Ok((o, rest))));
                assert(call_ensures(h, (o,), o3));
                let o2 = choose|o2: O2|
                    call_ensures(f, (o,), o2) && #[trigger] call_ensures(g, (o2,), o3);
                assert(map_ok(p, f, input, o2, rest));
                assert(mm.inner().parse_ensures(input, Ok((o2, rest))));
            }
        }
    }
}

/// `and_then` with a function that always succeeds is `map`: where `g` may
/// give `Ok(y)` exactly when `f` may give `y`, and never gives an error, both
/// parsers have the same results.
pub proof fn lemma_and_then_ok_is_map<
    I,
    P: Parser<I>,
    G: Fn(P::Out) -> Result<O2, P::Error>,
    F: Fn(P::Out) -> O2,
    O2,
>(a: AndThen<P, G>, m: Mapped<P, F>)
    requires
        a.inner() == m.inner(),
        forall|o: P::Out, y: O2|
            #[trigger] call_ensures(a.func(), (o,), Ok(y)) <==> #[trigger] call_ensures(
                m.func(),
                (o,),
                y,
            ),
        forall|o: P::Out, e: P::Error| !#[trigger] call_ensures(a.func(), (o,), Err(e)),
    ensures
        forall|input: I, res: Result<(O2, I), P::Error>|
            #[trigger] a.parse_ensures(input, res) <==> m.parse_ensures(input, res),
{
    let p = m.inner();
    assert forall|input: I, res: Result<(O2, I), P::Error>|
        #[trigger] a.parse_ensures(input, res) <==> m.parse_ensures(input, res) by {
        match res {
            Ok((y, rest)) => {
                if a.parse_ensures(input, res) {
                    let o = choose|o: P::Out|
                        #[trigger] p.parse_ensures(input, Ok((o, rest))) && call_ensures(
                            a.func(),
                            (o,),
                            Ok(y),
                        );
                    assert(p.parse_ensures(input, Ok((o, rest))));
                    assert(call_ensures(m.func(), (o,), y));
                }
                if m.parse_ensures(input, res) {
                    let o = choose|o: P::Out|
                        #[trigger] p.parse_ensures(input, Ok((o, rest))) && call_ensures(
                            m.func(),
                            (o,),
                            y,
                        );
                    assert(p.parse_ensures(input, Ok((o, rest))));
                    assert(call_ensures(a.func(), (o,), Ok(y)));
                }
            },
            Err(e) => {
                if and_then_err(p, a.func(), input, e) {
                    let (o, rest) = choose|o: P::Out, rest: I|
                        #[trigger] p.parse_ensures(input, Ok((o, rest))) && call_ensures(
                            a.func(),
                            (o,),
                            Err(e),
                        );
                    assert(call_ensures(a.func(), (o,), Err(e)));
                }
            },
        }
    }
}

} // verus!
