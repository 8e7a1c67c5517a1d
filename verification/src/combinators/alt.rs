//! Ordered alternatives: the first parser that succeeds wins.
//!
//! Order matters: on an ambiguous input the first matching alternative is the
//! one whose result is returned, so a keyword must be tried before a general
//! word that would also match it. When every alternative fails, the error is
//! the tuple of all their errors.
use std::marker::PhantomData;
use vstd::prelude::*;
use vstd::std_specs::convert::FromSpecImpl;

use crate::parser::{
    Parser,
    clones_are_equal,
    deterministic,
    lemma_clones_are_transparent,
    accepts_clones,
    fails_on_clone,
    yields_on_clone,
};

verus! {

/// An ordered choice between the parsers of the tuple `P`.
pub struct Alt<I, P> {
    ps: P,
    _ghost: PhantomData<I>,
}

impl<I, P> Alt<I, P> {
    /// Wraps a tuple of alternatives.
    pub fn new(ps: P) -> (a: Self)
        ensures
            a.parsers() == ps,
    {
        Self { ps, _ghost: PhantomData }
    }

    /// The tuple of alternatives, in the order they are tried.
    pub closed spec fn parsers(self) -> P {
        self.ps
    }
}

/// Builds an alternative from a tuple of parsers.
pub fn alt<I, P: Into<Alt<I, P>>>(ps: P) -> (a: Alt<I, P>)
    ensures
        a.parsers() == ps,
{
    Alt::new(ps)
}

/// An alternative is determined by its parsers: the one that `choose` picks
/// for `a.parsers()` is `a` itself.
proof fn lemma_alt_determined_by_parsers<I, P>(a: Alt<I, P>, ps: P)
    requires
        a.parsers() == ps,
    ensures
        a == (choose|b: Alt<I, P>| b.parsers() == ps),
{
    let b = choose|b: Alt<I, P>| b.parsers() == ps;
    assert(b.ps == a.ps);
    assert(b._ghost == a._ghost);
}

impl<IN: Clone, OUT, A, B> From<(A, B)> for Alt<IN, (A, B)> where
    A: Parser<IN, Out = OUT>,
    B: Parser<IN, Out = OUT>,
 {
    fn from(ps: (A, B)) -> (r: Self) {
        let r = Self { ps, _ghost: PhantomData };
        proof {
            lemma_alt_determined_by_parsers(r, ps);
        }
        r
    }
}

impl<IN: Clone, OUT, A, B> FromSpecImpl<(A, B)> for Alt<IN, (A, B)> where
    A: Parser<IN, Out = OUT>,
    B: Parser<IN, Out = OUT>,
 {
    open spec fn obeys_from_spec() -> bool {
        true
    }

    open spec fn from_spec(ps: (A, B)) -> Self {
        choose|a: Self| a.parsers() == ps
    }
}

/// An alternative of 2 parsers with one output type.
impl<IN: Clone, OUT, A, B> Parser<IN> for Alt<IN, (A, B)> where
    A: Parser<IN, Out = OUT>,
    B: Parser<IN, Out = OUT>,
 {
    type Out = OUT;

    type Error = (A::Error, B::Error);

    open spec fn parse_requires(&self, input: IN) -> bool {
        let ps = self.parsers();
        &&& accepts_clones(ps.0, input)
        &&& fails_on_clone(ps.0, input)
            ==> accepts_clones(ps.1, input)
    }

    open spec fn parse_ensures(&self, input: IN, res: Result<(OUT, IN), (A::Error, B::Error)>) -> bool {
        let ps = self.parsers();
        match res {
            Ok(x) => {
                ||| yields_on_clone(ps.0, input, Ok(x))
                ||| fails_on_clone(ps.0, input)
                    && yields_on_clone(ps.1, input, Ok(x))
            },
            Err((a, b)) => {
                &&& yields_on_clone(ps.0, input, Err(a))
                &&& yields_on_clone(ps.1, input, Err(b))
            },
        }
    }

    fn parse(&self, txt: IN) -> (res: Result<(OUT, IN), (A::Error, B::Error)>) {
        let c0 = txt.clone();
        let a = match self.ps.0.parse(c0) {
            Ok(r) => {
                assert(yields_on_clone(self.ps.0, txt, Ok(r)));
                return Ok(r);
            },
            Err(e) => e,
        };
        assert(yields_on_clone(self.ps.0, txt, Err(a)));
        let c1 = txt.clone();
        let b = match self.ps.1.parse(c1) {
            Ok(r) => {
                assert(yields_on_clone(self.ps.1, txt, Ok(r)));
                return Ok(r);
            },
            Err(e) => e,
        };
        assert(yields_on_clone(self.ps.1, txt, Err(b)));
        Err((a, b))
    }
}

/// Over inputs whose clones are equal, an alternative of 2 deterministic
/// parsers is deterministic.
pub proof fn lemma_alt2_deterministic<IN: Clone, OUT, A, B>(a: Alt<IN, (A, B)>)
    where
        A: Parser<IN, Out = OUT>,
        B: Parser<IN, Out = OUT>,
    requires
        clones_are_equal::<IN>(),
        deterministic::<IN, A>(a.parsers().0),
        deterministic::<IN, B>(a.parsers().1),
    ensures
        deterministic::<IN, Alt<IN, (A, B)>>(a),
{
    lemma_clones_are_transparent::<IN, A>(a.parsers().0);
    lemma_clones_are_transparent::<IN, B>(a.parsers().1);
}

impl<IN: Clone, OUT, A, B, C> From<(A, B, C)> for Alt<IN, (A, B, C)> where
    A: Parser<IN, Out = OUT>,
    B: Parser<IN, Out = OUT>,
    C: Parser<IN, Out = OUT>,
 {
    fn from(ps: (A, B, C)) -> (r: Self) {
        let r = Self { ps, _ghost: PhantomData };
        proof {
            lemma_alt_determined_by_parsers(r, ps);
        }
        r
    }
}

impl<IN: Clone, OUT, A, B, C> FromSpecImpl<(A, B, C)> for Alt<IN, (A, B, C)> where
    A: Parser<IN, Out = OUT>,
    B: Parser<IN, Out = OUT>,
    C: Parser<IN, Out = OUT>,
 {
    open spec fn obeys_from_spec() -> bool {
        true
    }

    open spec fn from_spec(ps: (A, B, C)) -> Self {
        choose|a: Self| a.parsers() == ps
    }
}

/// An alternative of 3 parsers with one output type.
impl<IN: Clone, OUT, A, B, C> Parser<IN> for Alt<IN, (A, B, C)> where
    A: Parser<IN, Out = OUT>,
    B: Parser<IN, Out = OUT>,
    C: Parser<IN, Out = OUT>,
 {
    type Out = OUT;

    type Error = (A::Error, B::Error, C::Error);

    open spec fn parse_requires(&self, input: IN) -> bool {
        let ps = self.parsers();
        &&& accepts_clones(ps.0, input)
        &&& fails_on_clone(ps.0, input)
            ==> accepts_clones(ps.1, input)
        &&& fails_on_clone(ps.0, input)
            && fails_on_clone(ps.1, input)
            ==> accepts_clones(ps.2, input)
    }

    open spec fn parse_ensures(&self, input: IN, res: Result<(OUT, IN), (A::Error, B::Error, C::Error)>) -> bool {
        let ps = self.parsers();
        match res {
            Ok(x) => {
                ||| yields_on_clone(ps.0, input, Ok(x))
                ||| fails_on_clone(ps.0, input)
                    && yields_on_clone(ps.1, input, Ok(x))
                ||| fails_on_clone(ps.0, input)
                    && fails_on_clone(ps.1, input)
                    && yields_on_clone(ps.2, input, Ok(x))
            },
            Err((a, b, c)) => {
                &&& yields_on_clone(ps.0, input, Err(a))
                &&& yields_on_clone(ps.1, input, Err(b))
                &&& yields_on_clone(ps.2, input, Err(c))
            },
        }
    }

    fn parse(&self, txt: IN) -> (res: Result<(OUT, IN), (A::Error, B::Error, C::Error)>) {
        let c0 = txt.clone();
        let a = match self.ps.0.parse(c0) {
            Ok(r) => {
                assert(yields_on_clone(self.ps.0, txt, Ok(r)));
                return Ok(r);
            },
            Err(e) => e,
        };
        assert(yields_on_clone(self.ps.0, txt, Err(a)));
        let c1 = txt.clone();
        let b = match self.ps.1.parse(c1) {
            Ok(r) => {
                assert(yields_on_clone(self.ps.1, txt, Ok(r)));
                return Ok(r);
            },
            Err(e) => e,
        };
        assert(yields_on_clone(self.ps.1, txt, Err(b)));
        let c2 = txt.clone();
        let c = match self.ps.2.parse(c2) {
            Ok(r) => {
                assert(yields_on_clone(self.ps.2, txt, Ok(r)));
                return Ok(r);
            },
            Err(e) => e,
        };
        assert(yields_on_clone(self.ps.2, txt, Err(c)));
        Err((a, b, c))
    }
}

/// Over inputs whose clones are equal, an alternative of 3 deterministic
/// parsers is deterministic.
pub proof fn lemma_alt3_deterministic<IN: Clone, OUT, A, B, C>(a: Alt<IN, (A, B, C)>)
    where
        A: Parser<IN, Out = OUT>,
        B: Parser<IN, Out = OUT>,
        C: Parser<IN, Out = OUT>,
    requires
        clones_are_equal::<IN>(),
        deterministic::<IN, A>(a.parsers().0),
        deterministic::<IN, B>(a.parsers().1),
        deterministic::<IN, C>(a.parsers().2),
    ensures
        deterministic::<IN, Alt<IN, (A, B, C)>>(a),
{
    lemma_clones_are_transparent::<IN, A>(a.parsers().0);
    lemma_clones_are_transparent::<IN, B>(a.parsers().1);
    lemma_clones_are_transparent::<IN, C>(a.parsers().2);
}

impl<IN: Clone, OUT, A, B, C, D> From<(A, B, C, D)> for Alt<IN, (A, B, C, D)> where
    A: Parser<IN, Out = OUT>,
    B: Parser<IN, Out = OUT>,
    C: Parser<IN, Out = OUT>,
    D: Parser<IN, Out = OUT>,
 {
    fn from(ps: (A, B, C, D)) -> (r: Self) {
        let r = Self { ps, _ghost: PhantomData };
        proof {
            lemma_alt_determined_by_parsers(r, ps);
        }
        r
    }
}

impl<IN: Clone, OUT, A, B, C, D> FromSpecImpl<(A, B, C, D)> for Alt<IN, (A, B, C, D)> where
    A: Parser<IN, Out = OUT>,
    B: Parser<IN, Out = OUT>,
    C: Parser<IN, Out = OUT>,
    D: Parser<IN, Out = OUT>,
 {
    open spec fn obeys_from_spec() -> bool {
        true
    }

    open spec fn from_spec(ps: (A, B, C, D)) -> Self {
        choose|a: Self| a.parsers() == ps
    }
}

/// An alternative of 4 parsers with one output type.
impl<IN: Clone, OUT, A, B, C, D> Parser<IN> for Alt<IN, (A, B, C, D)> where
    A: Parser<IN, Out = OUT>,
    B: Parser<IN, Out = OUT>,
    C: Parser<IN, Out = OUT>,
    D: Parser<IN, Out = OUT>,
 {
    type Out = OUT;

    type Error = (A::Error, B::Error, C::Error, D::Error);

    open spec fn parse_requires(&self, input: IN) -> bool {
        let ps = self.parsers();
        &&& accepts_clones(ps.0, input)
        &&& fails_on_clone(ps.0, input)
            ==> accepts_clones(ps.1, input)
        &&& fails_on_clone(ps.0, input)
            && fails_on_clone(ps.1, input)
            ==> accepts_clones(ps.2, input)
        &&& fails_on_clone(ps.0, input)
            && fails_on_clone(ps.1, input)
            && fails_on_clone(ps.2, input)
            ==> accepts_clones(ps.3, input)
    }

    open spec fn parse_ensures(&self, input: IN, res: Result<(OUT, IN), (A::Error, B::Error, C::Error, D::Error)>) -> bool {
        let ps = self.parsers();
        match res {
            Ok(x) => {
                ||| yields_on_clone(ps.0, input, Ok(x))
                ||| fails_on_clone(ps.0, input)
                    && yields_on_clone(ps.1, input, Ok(x))
                ||| fails_on_clone(ps.0, input)
                    && fails_on_clone(ps.1, input)
                    && yields_on_clone(ps.2, input, Ok(x))
                ||| fails_on_clone(ps.0, input)
                    && fails_on_clone(ps.1, input)
                    && fails_on_clone(ps.2, input)
                    && yields_on_clone(ps.3, input, Ok(x))
            },
            Err((a, b, c, d)) => {
                &&& yields_on_clone(ps.0, input, Err(a))
                &&& yields_on_clone(ps.1, input, Err(b))
                &&& yields_on_clone(ps.2, input, Err(c))
                &&& yields_on_clone(ps.3, input, Err(d))
            },
        }
    }

    fn parse(&self, txt: IN) -> (res: Result<(OUT, IN), (A::Error, B::Error, C::Error, D::Error)>) {
        let c0 = txt.clone();
        let a = match self.ps.0.parse(c0) {
            Ok(r) => {
                assert(yields_on_clone(self.ps.0, txt, Ok(r)));
                return Ok(r);
            },
            Err(e) => e,
        };
        assert(yields_on_clone(self.ps.0, txt, Err(a)));
        let c1 = txt.clone();
        let b = match self.ps.1.parse(c1) {
            Ok(r) => {
                assert(yields_on_clone(self.ps.1, txt, Ok(r)));
                return Ok(r);
            },
            Err(e) => e,
        };
        assert(yields_on_clone(self.ps.1, txt, Err(b)));
        let c2 = txt.clone();
        let c = match self.ps.2.parse(c2) {
            Ok(r) => {
                assert(yields_on_clone(self.ps.2, txt, Ok(r)));
                return Ok(r);
            },
            Err(e) => e,
        };
        assert(yields_on_clone(self.ps.2, txt, Err(c)));
        let c3 = txt.clone();
        let d = match self.ps.3.parse(c3) {
            Ok(r) => {
                assert(yields_on_clone(self.ps.3, txt, Ok(r)));
                return Ok(r);
            },
            Err(e) => e,
        };
        assert(yields_on_clone(self.ps.3, txt, Err(d)));
        Err((a, b, c, d))
    }
}

/// Over inputs whose clones are equal, an alternative of 4 deterministic
/// parsers is deterministic.
pub proof fn lemma_alt4_deterministic<IN: Clone, OUT, A, B, C, D>(a: Alt<IN, (A, B, C, D)>)
    where
        A: Parser<IN, Out = OUT>,
        B: Parser<IN, Out = OUT>,
        C: Parser<IN, Out = OUT>,
        D: Parser<IN, Out = OUT>,
    requires
        clones_are_equal::<IN>(),
        deterministic::<IN, A>(a.parsers().0),
        deterministic::<IN, B>(a.parsers().1),
        deterministic::<IN, C>(a.parsers().2),
        deterministic::<IN, D>(a.parsers().3),
    ensures
        deterministic::<IN, Alt<IN, (A, B, C, D)>>(a),
{
    lemma_clones_are_transparent::<IN, A>(a.parsers().0);
    lemma_clones_are_transparent::<IN, B>(a.parsers().1);
    lemma_clones_are_transparent::<IN, C>(a.parsers().2);
    lemma_clones_are_transparent::<IN, D>(a.parsers().3);
}

impl<IN: Clone, OUT, A, B, C, D, E> From<(A, B, C, D, E)> for Alt<IN, (A, B, C, D, E)> where
    A: Parser<IN, Out = OUT>,
    B: Parser<IN, Out = OUT>,
    C: Parser<IN, Out = OUT>,
    D: Parser<IN, Out = OUT>,
    E: Parser<IN, Out = OUT>,
 {
    fn from(ps: (A, B, C, D, E)) -> (r: Self) {
        let r = Self { ps, _ghost: PhantomData };
        proof {
            lemma_alt_determined_by_parsers(r, ps);
        }
        r
    }
}

impl<IN: Clone, OUT, A, B, C, D, E> FromSpecImpl<(A, B, C, D, E)> for Alt<IN, (A, B, C, D, E)> where
    A: Parser<IN, Out = OUT>,
    B: Parser<IN, Out = OUT>,
    C: Parser<IN, Out = OUT>,
    D: Parser<IN, Out = OUT>,
    E: Parser<IN, Out = OUT>,
 {
    open spec fn obeys_from_spec() -> bool {
        true
    }

    open spec fn from_spec(ps: (A, B, C, D, E)) -> Self {
        choose|a: Self| a.parsers() == ps
    }
}

/// An alternative of 5 parsers with one output type.
impl<IN: Clone, OUT, A, B, C, D, E> Parser<IN> for Alt<IN, (A, B, C, D, E)> where
    A: Parser<IN, Out = OUT>,
    B: Parser<IN, Out = OUT>,
    C: Parser<IN, Out = OUT>,
    D: Parser<IN, Out = OUT>,
    E: Parser<IN, Out = OUT>,
 {
    type Out = OUT;

    type Error = (A::Error, B::Error, C::Error, D::Error, E::Error);

    open spec fn parse_requires(&self, input: IN) -> bool {
        let ps = self.parsers();
        &&& accepts_clones(ps.0, input)
        &&& fails_on_clone(ps.0, input)
            ==> accepts_clones(ps.1, input)
        &&& fails_on_clone(ps.0, input)
            && fails_on_clone(ps.1, input)
            ==> accepts_clones(ps.2, input)
        &&& fails_on_clone(ps.0, input)
            && fails_on_clone(ps.1, input)
            && fails_on_clone(ps.2, input)
            ==> accepts_clones(ps.3, input)
        &&& fails_on_clone(ps.0, input)
            && fails_on_clone(ps.1, input)
            && fails_on_clone(ps.2, input)
            && fails_on_clone(ps.3, input)
            ==> accepts_clones(ps.4, input)
    }

    open spec fn parse_ensures(&self, input: IN, res: Result<(OUT, IN), (A::Error, B::Error, C::Error, D::Error, E::Error)>) -> bool {
        let ps = self.parsers();
        match res {
            Ok(x) => {
                ||| yields_on_clone(ps.0, input, Ok(x))
                ||| fails_on_clone(ps.0, input)
                    && yields_on_clone(ps.1, input, Ok(x))
                ||| fails_on_clone(ps.0, input)
                    && fails_on_clone(ps.1, input)
                    && yields_on_clone(ps.2, input, Ok(x))
                ||| fails_on_clone(ps.0, input)
                    && fails_on_clone(ps.1, input)
                    && fails_on_clone(ps.2, input)
                    && yields_on_clone(ps.3, input, Ok(x))
                ||| fails_on_clone(ps.0, input)
                    && fails_on_clone(ps.1, input)
                    && fails_on_clone(ps.2, input)
                    && fails_on_clone(ps.3, input)
                    && yields_on_clone(ps.4, input, Ok(x))
            },
            Err((a, b, c, d, e)) => {
                &&& yields_on_clone(ps.0, input, Err(a))
                &&& yields_on_clone(ps.1, input, Err(b))
                &&& yields_on_clone(ps.2, input, Err(c))
                &&& yields_on_clone(ps.3, input, Err(d))
                &&& yields_on_clone(ps.4, input, Err(e))
            },
        }
    }

    fn parse(&self, txt: IN) -> (res: Result<(OUT, IN), (A::Error, B::Error, C::Error, D::Error, E::Error)>) {
        let c0 = txt.clone();
        let a = match self.ps.0.parse(c0) {
            Ok(r) => {
                assert(yields_on_clone(self.ps.0, txt, Ok(r)));
                return Ok(r);
            },
            Err(e) => e,
        };
        assert(yields_on_clone(self.ps.0, txt, Err(a)));
        let c1 = txt.clone();
        let b = match self.ps.1.parse(c1) {
            Ok(r) => {
                assert(yields_on_clone(self.ps.1, txt, Ok(r)));
                return Ok(r);
            },
            Err(e) => e,
        };
        assert(yields_on_clone(self.ps.1, txt, Err(b)));
        let c2 = txt.clone();
        let c = match self.ps.2.parse(c2) {
            Ok(r) => {
                assert(yields_on_clone(self.ps.2, txt, Ok(r)));
                return Ok(r);
            },
            Err(e) => e,
        };
        assert(yields_on_clone(self.ps.2, txt, Err(c)));
        let c3 = txt.clone();
        let d = match self.ps.3.parse(c3) {
            Ok(r) => {
                assert(yields_on_clone(self.ps.3, txt, Ok(r)));
                return Ok(r);
            },
            Err(e) => e,
        };
        assert(yields_on_clone(self.ps.3, txt, Err(d)));
        let c4 = txt.clone();
        let e = match self.ps.4.parse(c4) {
            Ok(r) => {
                assert(yields_on_clone(self.ps.4, txt, Ok(r)));
                return Ok(r);
            },
            Err(e) => e,
        };
        assert(yields_on_clone(self.ps.4, txt, Err(e)));
        Err((a, b, c, d, e))
    }
}

/// Over inputs whose clones are equal, an alternative of 5 deterministic
/// parsers is deterministic.
pub proof fn lemma_alt5_deterministic<IN: Clone, OUT, A, B, C, D, E>(a: Alt<IN, (A, B, C, D, E)>)
    where
        A: Parser<IN, Out = OUT>,
        B: Parser<IN, Out = OUT>,
        C: Parser<IN, Out = OUT>,
        D: Parser<IN, Out = OUT>,
        E: Parser<IN, Out = OUT>,
    requires
        clones_are_equal::<IN>(),
        deterministic::<IN, A>(a.parsers().0),
        deterministic::<IN, B>(a.parsers().1),
        deterministic::<IN, C>(a.parsers().2),
        deterministic::<IN, D>(a.parsers().3),
        deterministic::<IN, E>(a.parsers().4),
    ensures
        deterministic::<IN, Alt<IN, (A, B, C, D, E)>>(a),
{
    lemma_clones_are_transparent::<IN, A>(a.parsers().0);
    lemma_clones_are_transparent::<IN, B>(a.parsers().1);
    lemma_clones_are_transparent::<IN, C>(a.parsers().2);
    lemma_clones_are_transparent::<IN, D>(a.parsers().3);
    lemma_clones_are_transparent::<IN, E>(a.parsers().4);
}

impl<IN: Clone, OUT, A, B, C, D, E, F> From<(A, B, C, D, E, F)> for Alt<IN, (A, B, C, D, E, F)> where
    A: Parser<IN, Out = OUT>,
    B: Parser<IN, Out = OUT>,
    C: Parser<IN, Out = OUT>,
    D: Parser<IN, Out = OUT>,
    E: Parser<IN, Out = OUT>,
    F: Parser<IN, Out = OUT>,
 {
    fn from(ps: (A, B, C, D, E, F)) -> (r: Self) {
        let r = Self { ps, _ghost: PhantomData };
        proof {
            lemma_alt_determined_by_parsers(r, ps);
        }
        r
    }
}

impl<IN: Clone, OUT, A, B, C, D, E, F> FromSpecImpl<(A, B, C, D, E, F)> for Alt<IN, (A, B, C, D, E, F)> where
    A: Parser<IN, Out = OUT>,
    B: Parser<IN, Out = OUT>,
    C: Parser<IN, Out = OUT>,
    D: Parser<IN, Out = OUT>,
    E: Parser<IN, Out = OUT>,
    F: Parser<IN, Out = OUT>,
 {
    open spec fn obeys_from_spec() -> bool {
        true
    }

    open spec fn from_spec(ps: (A, B, C, D, E, F)) -> Self {
        choose|a: Self| a.parsers() == ps
    }
}

/// An alternative of 6 parsers with one output type.
impl<IN: Clone, OUT, A, B, C, D, E, F> Parser<IN> for Alt<IN, (A, B, C, D, E, F)> where
    A: Parser<IN, Out = OUT>,
    B: Parser<IN, Out = OUT>,
    C: Parser<IN, Out = OUT>,
    D: Parser<IN, Out = OUT>,
    E: Parser<IN, Out = OUT>,
    F: Parser<IN, Out = OUT>,
 {
    type Out = OUT;

    type Error = (A::Error, B::Error, C::Error, D::Error, E::Error, F::Error);

    open spec fn parse_requires(&self, input: IN) -> bool {
        let ps = self.parsers();
        &&& accepts_clones(ps.0, input)
        &&& fails_on_clone(ps.0, input)
            ==> accepts_clones(ps.1, input)
        &&& fails_on_clone(ps.0, input)
            && fails_on_clone(ps.1, input)
            ==> accepts_clones(ps.2, input)
        &&& fails_on_clone(ps.0, input)
            && fails_on_clone(ps.1, input)
            && fails_on_clone(ps.2, input)
            ==> accepts_clones(ps.3, input)
        &&& fails_on_clone(ps.0, input)
            && fails_on_clone(ps.1, input)
            && fails_on_clone(ps.2, input)
            && fails_on_clone(ps.3, input)
            ==> accepts_clones(ps.4, input)
        &&& fails_on_clone(ps.0, input)
            && fails_on_clone(ps.1, input)
            && fails_on_clone(ps.2, input)
            && fails_on_clone(ps.3, input)
            && fails_on_clone(ps.4, input)
            ==> accepts_clones(ps.5, input)
    }

    open spec fn parse_ensures(&self, input: IN, res: Result<(OUT, IN), (A::Error, B::Error, C::Error, D::Error, E::Error, F::Error)>) -> bool {
        let ps = self.parsers();
        match res {
            Ok(x) => {
                ||| yields_on_clone(ps.0, input, Ok(x))
                ||| fails_on_clone(ps.0, input)
                    && yields_on_clone(ps.1, input, Ok(x))
                ||| fails_on_clone(ps.0, input)
                    && fails_on_clone(ps.1, input)
                    && yields_on_clone(ps.2, input, Ok(x))
                ||| fails_on_clone(ps.0, input)
                    && fails_on_clone(ps.1, input)
                    && fails_on_clone(ps.2, input)
                    && yields_on_clone(ps.3, input, Ok(x))
                ||| fails_on_clone(ps.0, input)
                    && fails_on_clone(ps.1, input)
                    && fails_on_clone(ps.2, input)
                    && fails_on_clone(ps.3, input)
                    && yields_on_clone(ps.4, input, Ok(x))
                ||| fails_on_clone(ps.0, input)
                    && fails_on_clone(ps.1, input)
                    && fails_on_clone(ps.2, input)
                    && fails_on_clone(ps.3, input)
                    && fails_on_clone(ps.4, input)
                    && yields_on_clone(ps.5, input, Ok(x))
            },
            Err((a, b, c, d, e, f)) => {
                &&& yields_on_clone(ps.0, input, Err(a))
                &&& yields_on_clone(ps.1, input, Err(b))
                &&& yields_on_clone(ps.2, input, Err(c))
                &&& yields_on_clone(ps.3, input, Err(d))
                &&& yields_on_clone(ps.4, input, Err(e))
                &&& yields_on_clone(ps.5, input, Err(f))
            },
        }
    }

    fn parse(&self, txt: IN) -> (res: Result<(OUT, IN), (A::Error, B::Error, C::Error, D::Error, E::Error, F::Error)>) {
        let c0 = txt.clone();
        let a = match self.ps.0.parse(c0) {
            Ok(r) => {
                assert(yields_on_clone(self.ps.0, txt, Ok(r)));
                return Ok(r);
            },
            Err(e) => e,
        };
        assert(yields_on_clone(self.ps.0, txt, Err(a)));
        let c1 = txt.clone();
        let b = match self.ps.1.parse(c1) {
            Ok(r) => {
                assert(yields_on_clone(self.ps.1, txt, Ok(r)));
                return Ok(r);
            },
            Err(e) => e,
        };
        assert(yields_on_clone(self.ps.1, txt, Err(b)));
        let c2 = txt.clone();
        let c = match self.ps.2.parse(c2) {
            Ok(r) => {
                assert(yields_on_clone(self.ps.2, txt, Ok(r)));
                return Ok(r);
            },
            Err(e) => e,
        };
        assert(yields_on_clone(self.ps.2, txt, Err(c)));
        let c3 = txt.clone();
        let d = match self.ps.3.parse(c3) {
            Ok(r) => {
                assert(yields_on_clone(self.ps.3, txt, Ok(r)));
                return Ok(r);
            },
            Err(e) => e,
        };
        assert(yields_on_clone(self.ps.3, txt, Err(d)));
        let c4 = txt.clone();
        let e = match self.ps.4.parse(c4) {
            Ok(r) => {
                assert(yields_on_clone(self.ps.4, txt, Ok(r)));
                return Ok(r);
            },
            Err(e) => e,
        };
        assert(yields_on_clone(self.ps.4, txt, Err(e)));
        let c5 = txt.clone();
        let f = match self.ps.5.parse(c5) {
            Ok(r) => {
                assert(yields_on_clone(self.ps.5, txt, Ok(r)));
                return Ok(r);
            },
            Err(e) => e,
        };
        assert(yields_on_clone(self.ps.5, txt, Err(f)));
        Err((a, b, c, d, e, f))
    }
}

/// Over inputs whose clones are equal, an alternative of 6 deterministic
/// parsers is deterministic.
pub proof fn lemma_alt6_deterministic<IN: Clone, OUT, A, B, C, D, E, F>(a: Alt<IN, (A, B, C, D, E, F)>)
    where
        A: Parser<IN, Out = OUT>,
        B: Parser<IN, Out = OUT>,
        C: Parser<IN, Out = OUT>,
        D: Parser<IN, Out = OUT>,
        E: Parser<IN, Out = OUT>,
        F: Parser<IN, Out = OUT>,
    requires
        clones_are_equal::<IN>(),
        deterministic::<IN, A>(a.parsers().0),
        deterministic::<IN, B>(a.parsers().1),
        deterministic::<IN, C>(a.parsers().2),
        deterministic::<IN, D>(a.parsers().3),
        deterministic::<IN, E>(a.parsers().4),
        deterministic::<IN, F>(a.parsers().5),
    ensures
        deterministic::<IN, Alt<IN, (A, B, C, D, E, F)>>(a),
{
    lemma_clones_are_transparent::<IN, A>(a.parsers().0);
    lemma_clones_are_transparent::<IN, B>(a.parsers().1);
    lemma_clones_are_transparent::<IN, C>(a.parsers().2);
    lemma_clones_are_transparent::<IN, D>(a.parsers().3);
    lemma_clones_are_transparent::<IN, E>(a.parsers().4);
    lemma_clones_are_transparent::<IN, F>(a.parsers().5);
}

impl<IN: Clone, OUT, A, B, C, D, E, F, G> From<(A, B, C, D, E, F, G)> for Alt<IN, (A, B, C, D, E, F, G)> where
    A: Parser<IN, Out = OUT>,
    B: Parser<IN, Out = OUT>,
    C: Parser<IN, Out = OUT>,
    D: Parser<IN, Out = OUT>,
    E: Parser<IN, Out = OUT>,
    F: Parser<IN, Out = OUT>,
    G: Parser<IN, Out = OUT>,
 {
    fn from(ps: (A, B, C, D, E, F, G)) -> (r: Self) {
        let r = Self { ps, _ghost: PhantomData };
        proof {
            lemma_alt_determined_by_parsers(r, ps);
        }
        r
    }
}

impl<IN: Clone, OUT, A, B, C, D, E, F, G> FromSpecImpl<(A, B, C, D, E, F, G)> for Alt<IN, (A, B, C, D, E, F, G)> where
    A: Parser<IN, Out = OUT>,
    B: Parser<IN, Out = OUT>,
    C: Parser<IN, Out = OUT>,
    D: Parser<IN, Out = OUT>,
    E: Parser<IN, Out = OUT>,
    F: Parser<IN, Out = OUT>,
    G: Parser<IN, Out = OUT>,
 {
    open spec fn obeys_from_spec() -> bool {
        true
    }

    open spec fn from_spec(ps: (A, B, C, D, E, F, G)) -> Self {
        choose|a: Self| a.parsers() == ps
    }
}

/// An alternative of 7 parsers with one output type.
impl<IN: Clone, OUT, A, B, C, D, E, F, G> Parser<IN> for Alt<IN, (A, B, C, D, E, F, G)> where
    A: Parser<IN, Out = OUT>,
    B: Parser<IN, Out = OUT>,
    C: Parser<IN, Out = OUT>,
    D: Parser<IN, Out = OUT>,
    E: Parser<IN, Out = OUT>,
    F: Parser<IN, Out = OUT>,
    G: Parser<IN, Out = OUT>,
 {
    type Out = OUT;

    type Error = (A::Error, B::Error, C::Error, D::Error, E::Error, F::Error, G::Error);

    open spec fn parse_requires(&self, input: IN) -> bool {
        let ps = self.parsers();
        &&& accepts_clones(ps.0, input)
        &&& fails_on_clone(ps.0, input)
            ==> accepts_clones(ps.1, input)
        &&& fails_on_clone(ps.0, input)
            && fails_on_clone(ps.1, input)
            ==> accepts_clones(ps.2, input)
        &&& fails_on_clone(ps.0, input)
            && fails_on_clone(ps.1, input)
            && fails_on_clone(ps.2, input)
            ==> accepts_clones(ps.3, input)
        &&& fails_on_clone(ps.0, input)
            && fails_on_clone(ps.1, input)
            && fails_on_clone(ps.2, input)
            && fails_on_clone(ps.3, input)
            ==> accepts_clones(ps.4, input)
        &&& fails_on_clone(ps.0, input)
            && fails_on_clone(ps.1, input)
            && fails_on_clone(ps.2, input)
            && fails_on_clone(ps.3, input)
            && fails_on_clone(ps.4, input)
            ==> accepts_clones(ps.5, input)
        &&& fails_on_clone(ps.0, input)
            && fails_on_clone(ps.1, input)
            && fails_on_clone(ps.2, input)
            && fails_on_clone(ps.3, input)
            && fails_on_clone(ps.4, input)
            && fails_on_clone(ps.5, input)
            ==> accepts_clones(ps.6, input)
    }

    open spec fn parse_ensures(&self, input: IN, res: Result<(OUT, IN), (A::Error, B::Error, C::Error, D::Error, E::Error, F::Error, G::Error)>) -> bool {
        let ps = self.parsers();
        match res {
            Ok(x) => {
                ||| yields_on_clone(ps.0, input, Ok(x))
                ||| fails_on_clone(ps.0, input)
                    && yields_on_clone(ps.1, input, Ok(x))
                ||| fails_on_clone(ps.0, input)
                    && fails_on_clone(ps.1, input)
                    && yields_on_clone(ps.2, input, Ok(x))
                ||| fails_on_clone(ps.0, input)
                    && fails_on_clone(ps.1, input)
                    && fails_on_clone(ps.2, input)
                    && yields_on_clone(ps.3, input, Ok(x))
                ||| fails_on_clone(ps.0, input)
                    && fails_on_clone(ps.1, input)
                    && fails_on_clone(ps.2, input)
                    && fails_on_clone(ps.3, input)
                    && yields_on_clone(ps.4, input, Ok(x))
                ||| fails_on_clone(ps.0, input)
                    && fails_on_clone(ps.1, input)
                    && fails_on_clone(ps.2, input)
                    && fails_on_clone(ps.3, input)
                    && fails_on_clone(ps.4, input)
                    && yields_on_clone(ps.5, input, Ok(x))
                ||| fails_on_clone(ps.0, input)
                    && fails_on_clone(ps.1, input)
                    && fails_on_clone(ps.2, input)
                    && fails_on_clone(ps.3, input)
                    && fails_on_clone(ps.4, input)
                    && fails_on_clone(ps.5, input)
                    && yields_on_clone(ps.6, input, Ok(x))
            },
            Err((a, b, c, d, e, f, g)) => {
                &&& yields_on_clone(ps.0, input, Err(a))
                &&& yields_on_clone(ps.1, input, Err(b))
                &&& yields_on_clone(ps.2, input, Err(c))
                &&& yields_on_clone(ps.3, input, Err(d))
                &&& yields_on_clone(ps.4, input, Err(e))
                &&& yields_on_clone(ps.5, input, Err(f))
                &&& yields_on_clone(ps.6, input, Err(g))
            },
        }
    }

    fn parse(&self, txt: IN) -> (res: Result<(OUT, IN), (A::Error, B::Error, C::Error, D::Error, E::Error, F::Error, G::Error)>) {
        let c0 = txt.clone();
        let a = match self.ps.0.parse(c0) {
            Ok(r) => {
                assert(yields_on_clone(self.ps.0, txt, Ok(r)));
                return Ok(r);
            },
            Err(e) => e,
        };
        assert(yields_on_clone(self.ps.0, txt, Err(a)));
        let c1 = txt.clone();
        let b = match self.ps.1.parse(c1) {
            Ok(r) => {
                assert(yields_on_clone(self.ps.1, txt, Ok(r)));
                return Ok(r);
            },
            Err(e) => e,
        };
        assert(yields_on_clone(self.ps.1, txt, Err(b)));
        let c2 = txt.clone();
        let c = match self.ps.2.parse(c2) {
            Ok(r) => {
                assert(yields_on_clone(self.ps.2, txt, Ok(r)));
                return Ok(r);
            },
            Err(e) => e,
        };
        assert(yields_on_clone(self.ps.2, txt, Err(c)));
        let c3 = txt.clone();
        let d = match self.ps.3.parse(c3) {
            Ok(r) => {
                assert(yields_on_clone(self.ps.3, txt, Ok(r)));
                return Ok(r);
            },
            Err(e) => e,
        };
        assert(yields_on_clone(self.ps.3, txt, Err(d)));
        let c4 = txt.clone();
        let e = match self.ps.4.parse(c4) {
            Ok(r) => {
                assert(yields_on_clone(self.ps.4, txt, Ok(r)));
                return Ok(r);
            },
            Err(e) => e,
        };
        assert(yields_on_clone(self.ps.4, txt, Err(e)));
        let c5 = txt.clone();
        let f = match self.ps.5.parse(c5) {
            Ok(r) => {
                assert(yields_on_clone(self.ps.5, txt, Ok(r)));
                return Ok(r);
            },
            Err(e) => e,
        };
        assert(yields_on_clone(self.ps.5, txt, Err(f)));
        let c6 = txt.clone();
        let g = match self.ps.6.parse(c6) {
            Ok(r) => {
                assert(yields_on_clone(self.ps.6, txt, Ok(r)));
                return Ok(r);
            },
            Err(e) => e,
        };
        assert(yields_on_clone(self.ps.6, txt, Err(g)));
        Err((a, b, c, d, e, f, g))
    }
}

/// Over inputs whose clones are equal, an alternative of 7 deterministic
/// parsers is deterministic.
pub proof fn lemma_alt7_deterministic<IN: Clone, OUT, A, B, C, D, E, F, G>(a: Alt<IN, (A, B, C, D, E, F, G)>)
    where
        A: Parser<IN, Out = OUT>,
        B: Parser<IN, Out = OUT>,
        C: Parser<IN, Out = OUT>,
        D: Parser<IN, Out = OUT>,
        E: Parser<IN, Out = OUT>,
        F: Parser<IN, Out = OUT>,
        G: Parser<IN, Out = OUT>,
    requires
        clones_are_equal::<IN>(),
        deterministic::<IN, A>(a.parsers().0),
        deterministic::<IN, B>(a.parsers().1),
        deterministic::<IN, C>(a.parsers().2),
        deterministic::<IN, D>(a.parsers().3),
        deterministic::<IN, E>(a.parsers().4),
        deterministic::<IN, F>(a.parsers().5),
        deterministic::<IN, G>(a.parsers().6),
    ensures
        deterministic::<IN, Alt<IN, (A, B, C, D, E, F, G)>>(a),
{
    lemma_clones_are_transparent::<IN, A>(a.parsers().0);
    lemma_clones_are_transparent::<IN, B>(a.parsers().1);
    lemma_clones_are_transparent::<IN, C>(a.parsers().2);
    lemma_clones_are_transparent::<IN, D>(a.parsers().3);
    lemma_clones_are_transparent::<IN, E>(a.parsers().4);
    lemma_clones_are_transparent::<IN, F>(a.parsers().5);
    lemma_clones_are_transparent::<IN, G>(a.parsers().6);
}

impl<IN: Clone, OUT, A, B, C, D, E, F, G, H> From<(A, B, C, D, E, F, G, H)> for Alt<IN, (A, B, C, D, E, F, G, H)> where
    A: Parser<IN, Out = OUT>,
    B: Parser<IN, Out = OUT>,
    C: Parser<IN, Out = OUT>,
    D: Parser<IN, Out = OUT>,
    E: Parser<IN, Out = OUT>,
    F: Parser<IN, Out = OUT>,
    G: Parser<IN, Out = OUT>,
    H: Parser<IN, Out = OUT>,
 {
    fn from(ps: (A, B, C, D, E, F, G, H)) -> (r: Self) {
        let r = Self { ps, _ghost: PhantomData };
        proof {
            lemma_alt_determined_by_parsers(r, ps);
        }
        r
    }
}

impl<IN: Clone, OUT, A, B, C, D, E, F, G, H> FromSpecImpl<(A, B, C, D, E, F, G, H)> for Alt<IN, (A, B, C, D, E, F, G, H)> where
    A: Parser<IN, Out = OUT>,
    B: Parser<IN, Out = OUT>,
    C: Parser<IN, Out = OUT>,
    D: Parser<IN, Out = OUT>,
    E: Parser<IN, Out = OUT>,
    F: Parser<IN, Out = OUT>,
    G: Parser<IN, Out = OUT>,
    H: Parser<IN, Out = OUT>,
 {
    open spec fn obeys_from_spec() -> bool {
        true
    }

    open spec fn from_spec(ps: (A, B, C, D, E, F, G, H)) -> Self {
        choose|a: Self| a.parsers() == ps
    }
}

/// An alternative of 8 parsers with one output type.
impl<IN: Clone, OUT, A, B, C, D, E, F, G, H> Parser<IN> for Alt<IN, (A, B, C, D, E, F, G, H)> where
    A: Parser<IN, Out = OUT>,
    B: Parser<IN, Out = OUT>,
    C: Parser<IN, Out = OUT>,
    D: Parser<IN, Out = OUT>,
    E: Parser<IN, Out = OUT>,
    F: Parser<IN, Out = OUT>,
    G: Parser<IN, Out = OUT>,
    H: Parser<IN, Out = OUT>,
 {
    type Out = OUT;

    type Error = (A::Error, B::Error, C::Error, D::Error, E::Error, F::Error, G::Error, H::Error);

    open spec fn parse_requires(&self, input: IN) -> bool {
        let ps = self.parsers();
        &&& accepts_clones(ps.0, input)
        &&& fails_on_clone(ps.0, input)
            ==> accepts_clones(ps.1, input)
        &&& fails_on_clone(ps.0, input)
            && fails_on_clone(ps.1, input)
            ==> accepts_clones(ps.2, input)
        &&& fails_on_clone(ps.0, input)
            && fails_on_clone(ps.1, input)
            && fails_on_clone(ps.2, input)
            ==> accepts_clones(ps.3, input)
        &&& fails_on_clone(ps.0, input)
            && fails_on_clone(ps.1, input)
            && fails_on_clone(ps.2, input)
            && fails_on_clone(ps.3, input)
            ==> accepts_clones(ps.4, input)
        &&& fails_on_clone(ps.0, input)
            && fails_on_clone(ps.1, input)
            && fails_on_clone(ps.2, input)
            && fails_on_clone(ps.3, input)
            && fails_on_clone(ps.4, input)
            ==> accepts_clones(ps.5, input)
        &&& fails_on_clone(ps.0, input)
            && fails_on_clone(ps.1, input)
            && fails_on_clone(ps.2, input)
            && fails_on_clone(ps.3, input)
            && fails_on_clone(ps.4, input)
            && fails_on_clone(ps.5, input)
            ==> accepts_clones(ps.6, input)
        &&& fails_on_clone(ps.0, input)
            && fails_on_clone(ps.1, input)
            && fails_on_clone(ps.2, input)
            && fails_on_clone(ps.3, input)
            && fails_on_clone(ps.4, input)
            && fails_on_clone(ps.5, input)
            && fails_on_clone(ps.6, input)
            ==> accepts_clones(ps.7, input)
    }

    open spec fn parse_ensures(&self, input: IN, res: Result<(OUT, IN), (A::Error, B::Error, C::Error, D::Error, E::Error, F::Error, G::Error, H::Error)>) -> bool {
        let ps = self.parsers();
        match res {
            Ok(x) => {
                ||| yields_on_clone(ps.0, input, Ok(x))
                ||| fails_on_clone(ps.0, input)
                    && yields_on_clone(ps.1, input, Ok(x))
                ||| fails_on_clone(ps.0, input)
                    && fails_on_clone(ps.1, input)
                    && yields_on_clone(ps.2, input, Ok(x))
                ||| fails_on_clone(ps.0, input)
                    && fails_on_clone(ps.1, input)
                    && fails_on_clone(ps.2, input)
                    && yields_on_clone(ps.3, input, Ok(x))
                ||| fails_on_clone(ps.0, input)
                    && fails_on_clone(ps.1, input)
                    && fails_on_clone(ps.2, input)
                    && fails_on_clone(ps.3, input)
                    && yields_on_clone(ps.4, input, Ok(x))
                ||| fails_on_clone(ps.0, input)
                    && fails_on_clone(ps.1, input)
                    && fails_on_clone(ps.2, input)
                    && fails_on_clone(ps.3, input)
                    && fails_on_clone(ps.4, input)
                    && yields_on_clone(ps.5, input, Ok(x))
                ||| fails_on_clone(ps.0, input)
                    && fails_on_clone(ps.1, input)
                    && fails_on_clone(ps.2, input)
                    && fails_on_clone(ps.3, input)
                    && fails_on_clone(ps.4, input)
                    && fails_on_clone(ps.5, input)
                    && yields_on_clone(ps.6, input, Ok(x))
                ||| fails_on_clone(ps.0, input)
                    && fails_on_clone(ps.1, input)
                    && fails_on_clone(ps.2, input)
                    && fails_on_clone(ps.3, input)
                    && fails_on_clone(ps.4, input)
                    && fails_on_clone(ps.5, input)
                    && fails_on_clone(ps.6, input)
                    && yields_on_clone(ps.7, input, Ok(x))
            },
            Err((a, b, c, d, e, f, g, h)) => {
                &&& yields_on_clone(ps.0, input, Err(a))
                &&& yields_on_clone(ps.1, input, Err(b))
                &&& yields_on_clone(ps.2, input, Err(c))
                &&& yields_on_clone(ps.3, input, Err(d))
                &&& yields_on_clone(ps.4, input, Err(e))
                &&& yields_on_clone(ps.5, input, Err(f))
                &&& yields_on_clone(ps.6, input, Err(g))
                &&& yields_on_clone(ps.7, input, Err(h))
            },
        }
    }

    fn parse(&self, txt: IN) -> (res: Result<(OUT, IN), (A::Error, B::Error, C::Error, D::Error, E::Error, F::Error, G::Error, H::Error)>) {
        let c0 = txt.clone();
        let a = match self.ps.0.parse(c0) {
            Ok(r) => {
                assert(yields_on_clone(self.ps.0, txt, Ok(r)));
                return Ok(r);
            },
            Err(e) => e,
        };
        assert(yields_on_clone(self.ps.0, txt, Err(a)));
        let c1 = txt.clone();
        let b = match self.ps.1.parse(c1) {
            Ok(r) => {
                assert(yields_on_clone(self.ps.1, txt, Ok(r)));
                return Ok(r);
            },
            Err(e) => e,
        };
        assert(yields_on_clone(self.ps.1, txt, Err(b)));
        let c2 = txt.clone();
        let c = match self.ps.2.parse(c2) {
            Ok(r) => {
                assert(yields_on_clone(self.ps.2, txt, Ok(r)));
                return Ok(r);
            },
            Err(e) => e,
        };
        assert(yields_on_clone(self.ps.2, txt, Err(c)));
        let c3 = txt.clone();
        let d = match self.ps.3.parse(c3) {
            Ok(r) => {
                assert(yields_on_clone(self.ps.3, txt, Ok(r)));
                return Ok(r);
            },
            Err(e) => e,
        };
        assert(yields_on_clone(self.ps.3, txt, Err(d)));
        let c4 = txt.clone();
        let e = match self.ps.4.parse(c4) {
            Ok(r) => {
                assert(yields_on_clone(self.ps.4, txt, Ok(r)));
                return Ok(r);
            },
            Err(e) => e,
        };
        assert(yields_on_clone(self.ps.4, txt, Err(e)));
        let c5 = txt.clone();
        let f = match self.ps.5.parse(c5) {
            Ok(r) => {
                assert(yields_on_clone(self.ps.5, txt, Ok(r)));
                return Ok(r);
            },
            Err(e) => e,
        };
        assert(yields_on_clone(self.ps.5, txt, Err(f)));
        let c6 = txt.clone();
        let g = match self.ps.6.parse(c6) {
            Ok(r) => {
                assert(yields_on_clone(self.ps.6, txt, Ok(r)));
                return Ok(r);
            },
            Err(e) => e,
        };
        assert(yields_on_clone(self.ps.6, txt, Err(g)));
        let c7 = txt.clone();
        let h = match self.ps.7.parse(c7) {
            Ok(r) => {
                assert(yields_on_clone(self.ps.7, txt, Ok(r)));
                return Ok(r);
            },
            Err(e) => e,
        };
        assert(yields_on_clone(self.ps.7, txt, Err(h)));
        Err((a, b, c, d, e, f, g, h))
    }
}

/// Over inputs whose clones are equal, an alternative of 8 deterministic
/// parsers is deterministic.
pub proof fn lemma_alt8_deterministic<IN: Clone, OUT, A, B, C, D, E, F, G, H>(a: Alt<IN, (A, B, C, D, E, F, G, H)>)
    where
        A: Parser<IN, Out = OUT>,
        B: Parser<IN, Out = OUT>,
        C: Parser<IN, Out = OUT>,
        D: Parser<IN, Out = OUT>,
        E: Parser<IN, Out = OUT>,
        F: Parser<IN, Out = OUT>,
        G: Parser<IN, Out = OUT>,
        H: Parser<IN, Out = OUT>,
    requires
        clones_are_equal::<IN>(),
        deterministic::<IN, A>(a.parsers().0),
        deterministic::<IN, B>(a.parsers().1),
        deterministic::<IN, C>(a.parsers().2),
        deterministic::<IN, D>(a.parsers().3),
        deterministic::<IN, E>(a.parsers().4),
        deterministic::<IN, F>(a.parsers().5),
        deterministic::<IN, G>(a.parsers().6),
        deterministic::<IN, H>(a.parsers().7),
    ensures
        deterministic::<IN, Alt<IN, (A, B, C, D, E, F, G, H)>>(a),
{
    lemma_clones_are_transparent::<IN, A>(a.parsers().0);
    lemma_clones_are_transparent::<IN, B>(a.parsers().1);
    lemma_clones_are_transparent::<IN, C>(a.parsers().2);
    lemma_clones_are_transparent::<IN, D>(a.parsers().3);
    lemma_clones_are_transparent::<IN, E>(a.parsers().4);
    lemma_clones_are_transparent::<IN, F>(a.parsers().5);
    lemma_clones_are_transparent::<IN, G>(a.parsers().6);
    lemma_clones_are_transparent::<IN, H>(a.parsers().7);
}

impl<IN: Clone, OUT, A, B, C, D, E, F, G, H, I> From<(A, B, C, D, E, F, G, H, I)> for Alt<IN, (A, B, C, D, E, F, G, H, I)> where
    A: Parser<IN, Out = OUT>,
    B: Parser<IN, Out = OUT>,
    C: Parser<IN, Out = OUT>,
    D: Parser<IN, Out = OUT>,
    E: Parser<IN, Out = OUT>,
    F: Parser<IN, Out = OUT>,
    G: Parser<IN, Out = OUT>,
    H: Parser<IN, Out = OUT>,
    I: Parser<IN, Out = OUT>,
 {
    fn from(ps: (A, B, C, D, E, F, G, H, I)) -> (r: Self) {
        let r = Self { ps, _ghost: PhantomData };
        proof {
            lemma_alt_determined_by_parsers(r, ps);
        }
        r
    }
}

impl<IN: Clone, OUT, A, B, C, D, E, F, G, H, I> FromSpecImpl<(A, B, C, D, E, F, G, H, I)> for Alt<IN, (A, B, C, D, E, F, G, H, I)> where
    A: Parser<IN, Out = OUT>,
    B: Parser<IN, Out = OUT>,
    C: Parser<IN, Out = OUT>,
    D: Parser<IN, Out = OUT>,
    E: Parser<IN, Out = OUT>,
    F: Parser<IN, Out = OUT>,
    G: Parser<IN, Out = OUT>,
    H: Parser<IN, Out = OUT>,
    I: Parser<IN, Out = OUT>,
 {
    open spec fn obeys_from_spec() -> bool {
        true
    }

    open spec fn from_spec(ps: (A, B, C, D, E, F, G, H, I)) -> Self {
        choose|a: Self| a.parsers() == ps
    }
}

/// An alternative of 9 parsers with one output type.
impl<IN: Clone, OUT, A, B, C, D, E, F, G, H, I> Parser<IN> for Alt<IN, (A, B, C, D, E, F, G, H, I)> where
    A: Parser<IN, Out = OUT>,
    B: Parser<IN, Out = OUT>,
    C: Parser<IN, Out = OUT>,
    D: Parser<IN, Out = OUT>,
    E: Parser<IN, Out = OUT>,
    F: Parser<IN, Out = OUT>,
    G: Parser<IN, Out = OUT>,
    H: Parser<IN, Out = OUT>,
    I: Parser<IN, Out = OUT>,
 {
    type Out = OUT;

    type Error = (A::Error, B::Error, C::Error, D::Error, E::Error, F::Error, G::Error, H::Error, I::Error);

    open spec fn parse_requires(&self, input: IN) -> bool {
        let ps = self.parsers();
        &&& accepts_clones(ps.0, input)
        &&& fails_on_clone(ps.0, input)
            ==> accepts_clones(ps.1, input)
        &&& fails_on_clone(ps.0, input)
            && fails_on_clone(ps.1, input)
            ==> accepts_clones(ps.2, input)
        &&& fails_on_clone(ps.0, input)
            && fails_on_clone(ps.1, input)
            && fails_on_clone(ps.2, input)
            ==> accepts_clones(ps.3, input)
        &&& fails_on_clone(ps.0, input)
            && fails_on_clone(ps.1, input)
            && fails_on_clone(ps.2, input)
            && fails_on_clone(ps.3, input)
            ==> accepts_clones(ps.4, input)
        &&& fails_on_clone(ps.0, input)
            && fails_on_clone(ps.1, input)
            && fails_on_clone(ps.2, input)
            && fails_on_clone(ps.3, input)
            && fails_on_clone(ps.4, input)
            ==> accepts_clones(ps.5, input)
        &&& fails_on_clone(ps.0, input)
            && fails_on_clone(ps.1, input)
            && fails_on_clone(ps.2, input)
            && fails_on_clone(ps.3, input)
            && fails_on_clone(ps.4, input)
            && fails_on_clone(ps.5, input)
            ==> accepts_clones(ps.6, input)
        &&& fails_on_clone(ps.0, input)
            && fails_on_clone(ps.1, input)
            && fails_on_clone(ps.2, input)
            && fails_on_clone(ps.3, input)
            && fails_on_clone(ps.4, input)
            && fails_on_clone(ps.5, input)
            && fails_on_clone(ps.6, input)
            ==> accepts_clones(ps.7, input)
        &&& fails_on_clone(ps.0, input)
            && fails_on_clone(ps.1, input)
            && fails_on_clone(ps.2, input)
            && fails_on_clone(ps.3, input)
            && fails_on_clone(ps.4, input)
            && fails_on_clone(ps.5, input)
            && fails_on_clone(ps.6, input)
            && fails_on_clone(ps.7, input)
            ==> accepts_clones(ps.8, input)
    }

    open spec fn parse_ensures(&self, input: IN, res: Result<(OUT, IN), (A::Error, B::Error, C::Error, D::Error, E::Error, F::Error, G::Error, H::Error, I::Error)>) -> bool {
        let ps = self.parsers();
        match res {
            Ok(x) => {
                ||| yields_on_clone(ps.0, input, Ok(x))
                ||| fails_on_clone(ps.0, input)
                    && yields_on_clone(ps.1, input, Ok(x))
                ||| fails_on_clone(ps.0, input)
                    && fails_on_clone(ps.1, input)
                    && yields_on_clone(ps.2, input, Ok(x))
                ||| fails_on_clone(ps.0, input)
                    && fails_on_clone(ps.1, input)
                    && fails_on_clone(ps.2, input)
                    && yields_on_clone(ps.3, input, Ok(x))
                ||| fails_on_clone(ps.0, input)
                    && fails_on_clone(ps.1, input)
                    && fails_on_clone(ps.2, input)
                    && fails_on_clone(ps.3, input)
                    && yields_on_clone(ps.4, input, Ok(x))
                ||| fails_on_clone(ps.0, input)
                    && fails_on_clone(ps.1, input)
                    && fails_on_clone(ps.2, input)
                    && fails_on_clone(ps.3, input)
                    && fails_on_clone(ps.4, input)
                    && yields_on_clone(ps.5, input, Ok(x))
                ||| fails_on_clone(ps.0, input)
                    && fails_on_clone(ps.1, input)
                    && fails_on_clone(ps.2, input)
                    && fails_on_clone(ps.3, input)
                    && fails_on_clone(ps.4, input)
                    && fails_on_clone(ps.5, input)
                    && yields_on_clone(ps.6, input, Ok(x))
                ||| fails_on_clone(ps.0, input)
                    && fails_on_clone(ps.1, input)
                    && fails_on_clone(ps.2, input)
                    && fails_on_clone(ps.3, input)
                    && fails_on_clone(ps.4, input)
                    && fails_on_clone(ps.5, input)
                    && fails_on_clone(ps.6, input)
                    && yields_on_clone(ps.7, input, Ok(x))
                ||| fails_on_clone(ps.0, input)
                    && fails_on_clone(ps.1, input)
                    && fails_on_clone(ps.2, input)
                    && fails_on_clone(ps.3, input)
                    && fails_on_clone(ps.4, input)
                    && fails_on_clone(ps.5, input)
                    && fails_on_clone(ps.6, input)
                    && fails_on_clone(ps.7, input)
                    && yields_on_clone(ps.8, input, Ok(x))
            },
            Err((a, b, c, d, e, f, g, h, i)) => {
                &&& yields_on_clone(ps.0, input, Err(a))
                &&& yields_on_clone(ps.1, input, Err(b))
                &&& yields_on_clone(ps.2, input, Err(c))
                &&& yields_on_clone(ps.3, input, Err(d))
                &&& yields_on_clone(ps.4, input, Err(e))
                &&& yields_on_clone(ps.5, input, Err(f))
                &&& yields_on_clone(ps.6, input, Err(g))
                &&& yields_on_clone(ps.7, input, Err(h))
                &&& yields_on_clone(ps.8, input, Err(i))
            },
        }
    }

    fn parse(&self, txt: IN) -> (res: Result<(OUT, IN), (A::Error, B::Error, C::Error, D::Error, E::Error, F::Error, G::Error, H::Error, I::Error)>) {
        let c0 = txt.clone();
        let a = match self.ps.0.parse(c0) {
            Ok(r) => {
                assert(yields_on_clone(self.ps.0, txt, Ok(r)));
                return Ok(r);
            },
            Err(e) => e,
        };
        assert(yields_on_clone(self.ps.0, txt, Err(a)));
        let c1 = txt.clone();
        let b = match self.ps.1.parse(c1) {
            Ok(r) => {
                assert(yields_on_clone(self.ps.1, txt, Ok(r)));
                return Ok(r);
            },
            Err(e) => e,
        };
        assert(yields_on_clone(self.ps.1, txt, Err(b)));
        let c2 = txt.clone();
        let c = match self.ps.2.parse(c2) {
            Ok(r) => {
                assert(yields_on_clone(self.ps.2, txt, Ok(r)));
                return Ok(r);
            },
            Err(e) => e,
        };
        assert(yields_on_clone(self.ps.2, txt, Err(c)));
        let c3 = txt.clone();
        let d = match self.ps.3.parse(c3) {
            Ok(r) => {
                assert(yields_on_clone(self.ps.3, txt, Ok(r)));
                return Ok(r);
            },
            Err(e) => e,
        };
        assert(yields_on_clone(self.ps.3, txt, Err(d)));
        let c4 = txt.clone();
        let e = match self.ps.4.parse(c4) {
            Ok(r) => {
                assert(yields_on_clone(self.ps.4, txt, Ok(r)));
                return Ok(r);
            },
            Err(e) => e,
        };
        assert(yields_on_clone(self.ps.4, txt, Err(e)));
        let c5 = txt.clone();
        let f = match self.ps.5.parse(c5) {
            Ok(r) => {
                assert(yields_on_clone(self.ps.5, txt, Ok(r)));
                return Ok(r);
            },
            Err(e) => e,
        };
        assert(yields_on_clone(self.ps.5, txt, Err(f)));
        let c6 = txt.clone();
        let g = match self.ps.6.parse(c6) {
            Ok(r) => {
                assert(yields_on_clone(self.ps.6, txt, Ok(r)));
                return Ok(r);
            },
            Err(e) => e,
        };
        assert(yields_on_clone(self.ps.6, txt, Err(g)));
        let c7 = txt.clone();
        let h = match self.ps.7.parse(c7) {
            Ok(r) => {
                assert(yields_on_clone(self.ps.7, txt, Ok(r)));
                return Ok(r);
            },
            Err(e) => e,
        };
        assert(yields_on_clone(self.ps.7, txt, Err(h)));
        let c8 = txt.clone();
        let i = match self.ps.8.parse(c8) {
            Ok(r) => {
                assert(yields_on_clone(self.ps.8, txt, Ok(r)));
                return Ok(r);
            },
            Err(e) => e,
        };
        assert(yields_on_clone(self.ps.8, txt, Err(i)));
        Err((a, b, c, d, e, f, g, h, i))
    }
}

/// Over inputs whose clones are equal, an alternative of 9 deterministic
/// parsers is deterministic.
pub proof fn lemma_alt9_deterministic<IN: Clone, OUT, A, B, C, D, E, F, G, H, I>(a: Alt<IN, (A, B, C, D, E, F, G, H, I)>)
    where
        A: Parser<IN, Out = OUT>,
        B: Parser<IN, Out = OUT>,
        C: Parser<IN, Out = OUT>,
        D: Parser<IN, Out = OUT>,
        E: Parser<IN, Out = OUT>,
        F: Parser<IN, Out = OUT>,
        G: Parser<IN, Out = OUT>,
        H: Parser<IN, Out = OUT>,
        I: Parser<IN, Out = OUT>,
    requires
        clones_are_equal::<IN>(),
        deterministic::<IN, A>(a.parsers().0),
        deterministic::<IN, B>(a.parsers().1),
        deterministic::<IN, C>(a.parsers().2),
        deterministic::<IN, D>(a.parsers().3),
        deterministic::<IN, E>(a.parsers().4),
        deterministic::<IN, F>(a.parsers().5),
        deterministic::<IN, G>(a.parsers().6),
        deterministic::<IN, H>(a.parsers().7),
        deterministic::<IN, I>(a.parsers().8),
    ensures
        deterministic::<IN, Alt<IN, (A, B, C, D, E, F, G, H, I)>>(a),
{
    lemma_clones_are_transparent::<IN, A>(a.parsers().0);
    lemma_clones_are_transparent::<IN, B>(a.parsers().1);
    lemma_clones_are_transparent::<IN, C>(a.parsers().2);
    lemma_clones_are_transparent::<IN, D>(a.parsers().3);
    lemma_clones_are_transparent::<IN, E>(a.parsers().4);
    lemma_clones_are_transparent::<IN, F>(a.parsers().5);
    lemma_clones_are_transparent::<IN, G>(a.parsers().6);
    lemma_clones_are_transparent::<IN, H>(a.parsers().7);
    lemma_clones_are_transparent::<IN, I>(a.parsers().8);
}

impl<IN: Clone, OUT, A, B, C, D, E, F, G, H, I, J> From<(A, B, C, D, E, F, G, H, I, J)> for Alt<IN, (A, B, C, D, E, F, G, H, I, J)> where
    A: Parser<IN, Out = OUT>,
    B: Parser<IN, Out = OUT>,
    C: Parser<IN, Out = OUT>,
    D: Parser<IN, Out = OUT>,
    E: Parser<IN, Out = OUT>,
    F: Parser<IN, Out = OUT>,
    G: Parser<IN, Out = OUT>,
    H: Parser<IN, Out = OUT>,
    I: Parser<IN, Out = OUT>,
    J: Parser<IN, Out = OUT>,
 {
    fn from(ps: (A, B, C, D, E, F, G, H, I, J)) -> (r: Self) {
        let r = Self { ps, _ghost: PhantomData };
        proof {
            lemma_alt_determined_by_parsers(r, ps);
        }
        r
    }
}

impl<IN: Clone, OUT, A, B, C, D, E, F, G, H, I, J> FromSpecImpl<(A, B, C, D, E, F, G, H, I, J)> for Alt<IN, (A, B, C, D, E, F, G, H, I, J)> where
    A: Parser<IN, Out = OUT>,
    B: Parser<IN, Out = OUT>,
    C: Parser<IN, Out = OUT>,
    D: Parser<IN, Out = OUT>,
    E: Parser<IN, Out = OUT>,
    F: Parser<IN, Out = OUT>,
    G: Parser<IN, Out = OUT>,
    H: Parser<IN, Out = OUT>,
    I: Parser<IN, Out = OUT>,
    J: Parser<IN, Out = OUT>,
 {
    open spec fn obeys_from_spec() -> bool {
        true
    }

    open spec fn from_spec(ps: (A, B, C, D, E, F, G, H, I, J)) -> Self {
        choose|a: Self| a.parsers() == ps
    }
}

/// An alternative of 10 parsers with one output type.
impl<IN: Clone, OUT, A, B, C, D, E, F, G, H, I, J> Parser<IN> for Alt<IN, (A, B, C, D, E, F, G, H, I, J)> where
    A: Parser<IN, Out = OUT>,
    B: Parser<IN, Out = OUT>,
    C: Parser<IN, Out = OUT>,
    D: Parser<IN, Out = OUT>,
    E: Parser<IN, Out = OUT>,
    F: Parser<IN, Out = OUT>,
    G: Parser<IN, Out = OUT>,
    H: Parser<IN, Out = OUT>,
    I: Parser<IN, Out = OUT>,
    J: Parser<IN, Out = OUT>,
 {
    type Out = OUT;

    type Error = (A::Error, B::Error, C::Error, D::Error, E::Error, F::Error, G::Error, H::Error, I::Error, J::Error);

    open spec fn parse_requires(&self, input: IN) -> bool {
        let ps = self.parsers();
        &&& accepts_clones(ps.0, input)
        &&& fails_on_clone(ps.0, input)
            ==> accepts_clones(ps.1, input)
        &&& fails_on_clone(ps.0, input)
            && fails_on_clone(ps.1, input)
            ==> accepts_clones(ps.2, input)
        &&& fails_on_clone(ps.0, input)
            && fails_on_clone(ps.1, input)
            && fails_on_clone(ps.2, input)
            ==> accepts_clones(ps.3, input)
        &&& fails_on_clone(ps.0, input)
            && fails_on_clone(ps.1, input)
            && fails_on_clone(ps.2, input)
            && fails_on_clone(ps.3, input)
            ==> accepts_clones(ps.4, input)
        &&& fails_on_clone(ps.0, input)
            && fails_on_clone(ps.1, input)
            && fails_on_clone(ps.2, input)
            && fails_on_clone(ps.3, input)
            && fails_on_clone(ps.4, input)
            ==> accepts_clones(ps.5, input)
        &&& fails_on_clone(ps.0, input)
            && fails_on_clone(ps.1, input)
            && fails_on_clone(ps.2, input)
            && fails_on_clone(ps.3, input)
            && fails_on_clone(ps.4, input)
            && fails_on_clone(ps.5, input)
            ==> accepts_clones(ps.6, input)
        &&& fails_on_clone(ps.0, input)
            && fails_on_clone(ps.1, input)
            && fails_on_clone(ps.2, input)
            && fails_on_clone(ps.3, input)
            && fails_on_clone(ps.4, input)
            && fails_on_clone(ps.5, input)
            && fails_on_clone(ps.6, input)
            ==> accepts_clones(ps.7, input)
        &&& fails_on_clone(ps.0, input)
            && fails_on_clone(ps.1, input)
            && fails_on_clone(ps.2, input)
            && fails_on_clone(ps.3, input)
            && fails_on_clone(ps.4, input)
            && fails_on_clone(ps.5, input)
            && fails_on_clone(ps.6, input)
            && fails_on_clone(ps.7, input)
            ==> accepts_clones(ps.8, input)
        &&& fails_on_clone(ps.0, input)
            && fails_on_clone(ps.1, input)
            && fails_on_clone(ps.2, input)
            && fails_on_clone(ps.3, input)
            && fails_on_clone(ps.4, input)
            && fails_on_clone(ps.5, input)
            && fails_on_clone(ps.6, input)
            && fails_on_clone(ps.7, input)
            && fails_on_clone(ps.8, input)
            ==> accepts_clones(ps.9, input)
    }

    open spec fn parse_ensures(&self, input: IN, res: Result<(OUT, IN), (A::Error, B::Error, C::Error, D::Error, E::Error, F::Error, G::Error, H::Error, I::Error, J::Error)>) -> bool {
        let ps = self.parsers();
        match res {
            Ok(x) => {
                ||| yields_on_clone(ps.0, input, Ok(x))
                ||| fails_on_clone(ps.0, input)
                    && yields_on_clone(ps.1, input, Ok(x))
                ||| fails_on_clone(ps.0, input)
                    && fails_on_clone(ps.1, input)
                    && yields_on_clone(ps.2, input, Ok(x))
                ||| fails_on_clone(ps.0, input)
                    && fails_on_clone(ps.1, input)
                    && fails_on_clone(ps.2, input)
                    && yields_on_clone(ps.3, input, Ok(x))
                ||| fails_on_clone(ps.0, input)
                    && fails_on_clone(ps.1, input)
                    && fails_on_clone(ps.2, input)
                    && fails_on_clone(ps.3, input)
                    && yields_on_clone(ps.4, input, Ok(x))
                ||| fails_on_clone(ps.0, input)
                    && fails_on_clone(ps.1, input)
                    && fails_on_clone(ps.2, input)
                    && fails_on_clone(ps.3, input)
                    && fails_on_clone(ps.4, input)
                    && yields_on_clone(ps.5, input, Ok(x))
                ||| fails_on_clone(ps.0, input)
                    && fails_on_clone(ps.1, input)
                    && fails_on_clone(ps.2, input)
                    && fails_on_clone(ps.3, input)
                    && fails_on_clone(ps.4, input)
                    && fails_on_clone(ps.5, input)
                    && yields_on_clone(ps.6, input, Ok(x))
                ||| fails_on_clone(ps.0, input)
                    && fails_on_clone(ps.1, input)
                    && fails_on_clone(ps.2, input)
                    && fails_on_clone(ps.3, input)
                    && fails_on_clone(ps.4, input)
                    && fails_on_clone(ps.5, input)
                    && fails_on_clone(ps.6, input)
                    && yields_on_clone(ps.7, input, Ok(x))
                ||| fails_on_clone(ps.0, input)
                    && fails_on_clone(ps.1, input)
                    && fails_on_clone(ps.2, input)
                    && fails_on_clone(ps.3, input)
                    && fails_on_clone(ps.4, input)
                    && fails_on_clone(ps.5, input)
                    && fails_on_clone(ps.6, input)
                    && fails_on_clone(ps.7, input)
                    && yields_on_clone(ps.8, input, Ok(x))
                ||| fails_on_clone(ps.0, input)
                    && fails_on_clone(ps.1, input)
                    && fails_on_clone(ps.2, input)
                    && fails_on_clone(ps.3, input)
                    && fails_on_clone(ps.4, input)
                    && fails_on_clone(ps.5, input)
                    && fails_on_clone(ps.6, input)
                    && fails_on_clone(ps.7, input)
                    && fails_on_clone(ps.8, input)
                    && yields_on_clone(ps.9, input, Ok(x))
            },
            Err((a, b, c, d, e, f, g, h, i, j)) => {
                &&& yields_on_clone(ps.0, input, Err(a))
                &&& yields_on_clone(ps.1, input, Err(b))
                &&& yields_on_clone(ps.2, input, Err(c))
                &&& yields_on_clone(ps.3, input, Err(d))
                &&& yields_on_clone(ps.4, input, Err(e))
                &&& yields_on_clone(ps.5, input, Err(f))
                &&& yields_on_clone(ps.6, input, Err(g))
                &&& yields_on_clone(ps.7, input, Err(h))
                &&& yields_on_clone(ps.8, input, Err(i))
                &&& yields_on_clone(ps.9, input, Err(j))
            },
        }
    }

    fn parse(&self, txt: IN) -> (res: Result<(OUT, IN), (A::Error, B::Error, C::Error, D::Error, E::Error, F::Error, G::Error, H::Error, I::Error, J::Error)>) {
        let c0 = txt.clone();
        let a = match self.ps.0.parse(c0) {
            Ok(r) => {
                assert(yields_on_clone(self.ps.0, txt, Ok(r)));
                return Ok(r);
            },
            Err(e) => e,
        };
        assert(yields_on_clone(self.ps.0, txt, Err(a)));
        let c1 = txt.clone();
        let b = match self.ps.1.parse(c1) {
            Ok(r) => {
                assert(yields_on_clone(self.ps.1, txt, Ok(r)));
                return Ok(r);
            },
            Err(e) => e,
        };
        assert(yields_on_clone(self.ps.1, txt, Err(b)));
        let c2 = txt.clone();
        let c = match self.ps.2.parse(c2) {
            Ok(r) => {
                assert(yields_on_clone(self.ps.2, txt, Ok(r)));
                return Ok(r);
            },
            Err(e) => e,
        };
        assert(yields_on_clone(self.ps.2, txt, Err(c)));
        let c3 = txt.clone();
        let d = match self.ps.3.parse(c3) {
            Ok(r) => {
                assert(yields_on_clone(self.ps.3, txt, Ok(r)));
                return Ok(r);
            },
            Err(e) => e,
        };
        assert(yields_on_clone(self.ps.3, txt, Err(d)));
        let c4 = txt.clone();
        let e = match self.ps.4.parse(c4) {
            Ok(r) => {
                assert(yields_on_clone(self.ps.4, txt, Ok(r)));
                return Ok(r);
            },
            Err(e) => e,
        };
        assert(yields_on_clone(self.ps.4, txt, Err(e)));
        let c5 = txt.clone();
        let f = match self.ps.5.parse(c5) {
            Ok(r) => {
                assert(yields_on_clone(self.ps.5, txt, Ok(r)));
                return Ok(r);
            },
            Err(e) => e,
        };
        assert(yields_on_clone(self.ps.5, txt, Err(f)));
        let c6 = txt.clone();
        let g = match self.ps.6.parse(c6) {
            Ok(r) => {
                assert(yields_on_clone(self.ps.6, txt, Ok(r)));
                return Ok(r);
            },
            Err(e) => e,
        };
        assert(yields_on_clone(self.ps.6, txt, Err(g)));
        let c7 = txt.clone();
        let h = match self.ps.7.parse(c7) {
            Ok(r) => {
                assert(yields_on_clone(self.ps.7, txt, Ok(r)));
                return Ok(r);
            },
            Err(e) => e,
        };
        assert(yields_on_clone(self.ps.7, txt, Err(h)));
        let c8 = txt.clone();
        let i = match self.ps.8.parse(c8) {
            Ok(r) => {
                assert(yields_on_clone(self.ps.8, txt, Ok(r)));
                return Ok(r);
            },
            Err(e) => e,
        };
        assert(yields_on_clone(self.ps.8, txt, Err(i)));
        let c9 = txt.clone();
        let j = match self.ps.9.parse(c9) {
            Ok(r) => {
                assert(yields_on_clone(self.ps.9, txt, Ok(r)));
                return Ok(r);
            },
            Err(e) => e,
        };
        assert(yields_on_clone(self.ps.9, txt, Err(j)));
        Err((a, b, c, d, e, f, g, h, i, j))
    }
}

/// Over inputs whose clones are equal, an alternative of 10 deterministic
/// parsers is deterministic.
pub proof fn lemma_alt10_deterministic<IN: Clone, OUT, A, B, C, D, E, F, G, H, I, J>(a: Alt<IN, (A, B, C, D, E, F, G, H, I, J)>)
    where
        A: Parser<IN, Out = OUT>,
        B: Parser<IN, Out = OUT>,
        C: Parser<IN, Out = OUT>,
        D: Parser<IN, Out = OUT>,
        E: Parser<IN, Out = OUT>,
        F: Parser<IN, Out = OUT>,
        G: Parser<IN, Out = OUT>,
        H: Parser<IN, Out = OUT>,
        I: Parser<IN, Out = OUT>,
        J: Parser<IN, Out = OUT>,
    requires
        clones_are_equal::<IN>(),
        deterministic::<IN, A>(a.parsers().0),
        deterministic::<IN, B>(a.parsers().1),
        deterministic::<IN, C>(a.parsers().2),
        deterministic::<IN, D>(a.parsers().3),
        deterministic::<IN, E>(a.parsers().4),
        deterministic::<IN, F>(a.parsers().5),
        deterministic::<IN, G>(a.parsers().6),
        deterministic::<IN, H>(a.parsers().7),
        deterministic::<IN, I>(a.parsers().8),
        deterministic::<IN, J>(a.parsers().9),
    ensures
        deterministic::<IN, Alt<IN, (A, B, C, D, E, F, G, H, I, J)>>(a),
{
    lemma_clones_are_transparent::<IN, A>(a.parsers().0);
    lemma_clones_are_transparent::<IN, B>(a.parsers().1);
    lemma_clones_are_transparent::<IN, C>(a.parsers().2);
    lemma_clones_are_transparent::<IN, D>(a.parsers().3);
    lemma_clones_are_transparent::<IN, E>(a.parsers().4);
    lemma_clones_are_transparent::<IN, F>(a.parsers().5);
    lemma_clones_are_transparent::<IN, G>(a.parsers().6);
    lemma_clones_are_transparent::<IN, H>(a.parsers().7);
    lemma_clones_are_transparent::<IN, I>(a.parsers().8);
    lemma_clones_are_transparent::<IN, J>(a.parsers().9);
}

impl<IN: Clone, OUT, A, B, C, D, E, F, G, H, I, J, K> From<(A, B, C, D, E, F, G, H, I, J, K)> for Alt<IN, (A, B, C, D, E, F, G, H, I, J, K)> where
    A: Parser<IN, Out = OUT>,
    B: Parser<IN, Out = OUT>,
    C: Parser<IN, Out = OUT>,
    D: Parser<IN, Out = OUT>,
    E: Parser<IN, Out = OUT>,
    F: Parser<IN, Out = OUT>,
    G: Parser<IN, Out = OUT>,
    H: Parser<IN, Out = OUT>,
    I: Parser<IN, Out = OUT>,
    J: Parser<IN, Out = OUT>,
    K: Parser<IN, Out = OUT>,
 {
    fn from(ps: (A, B, C, D, E, F, G, H, I, J, K)) -> (r: Self) {
        let r = Self { ps, _ghost: PhantomData };
        proof {
            lemma_alt_determined_by_parsers(r, ps);
        }
        r
    }
}

impl<IN: Clone, OUT, A, B, C, D, E, F, G, H, I, J, K> FromSpecImpl<(A, B, C, D, E, F, G, H, I, J, K)> for Alt<IN, (A, B, C, D, E, F, G, H, I, J, K)> where
    A: Parser<IN, Out = OUT>,
    B: Parser<IN, Out = OUT>,
    C: Parser<IN, Out = OUT>,
    D: Parser<IN, Out = OUT>,
    E: Parser<IN, Out = OUT>,
    F: Parser<IN, Out = OUT>,
    G: Parser<IN, Out = OUT>,
    H: Parser<IN, Out = OUT>,
    I: Parser<IN, Out = OUT>,
    J: Parser<IN, Out = OUT>,
    K: Parser<IN, Out = OUT>,
 {
    open spec fn obeys_from_spec() -> bool {
        true
    }

    open spec fn from_spec(ps: (A, B, C, D, E, F, G, H, I, J, K)) -> Self {
        choose|a: Self| a.parsers() == ps
    }
}

/// An alternative of 11 parsers with one output type.
impl<IN: Clone, OUT, A, B, C, D, E, F, G, H, I, J, K> Parser<IN> for Alt<IN, (A, B, C, D, E, F, G, H, I, J, K)> where
    A: Parser<IN, Out = OUT>,
    B: Parser<IN, Out = OUT>,
    C: Parser<IN, Out = OUT>,
    D: Parser<IN, Out = OUT>,
    E: Parser<IN, Out = OUT>,
    F: Parser<IN, Out = OUT>,
    G: Parser<IN, Out = OUT>,
    H: Parser<IN, Out = OUT>,
    I: Parser<IN, Out = OUT>,
    J: Parser<IN, Out = OUT>,
    K: Parser<IN, Out = OUT>,
 {
    type Out = OUT;

    type Error = (A::Error, B::Error, C::Error, D::Error, E::Error, F::Error, G::Error, H::Error, I::Error, J::Error, K::Error);

    open spec fn parse_requires(&self, input: IN) -> bool {
        let ps = self.parsers();
        &&& accepts_clones(ps.0, input)
        &&& fails_on_clone(ps.0, input)
            ==> accepts_clones(ps.1, input)
        &&& fails_on_clone(ps.0, input)
            && fails_on_clone(ps.1, input)
            ==> accepts_clones(ps.2, input)
        &&& fails_on_clone(ps.0, input)
            && fails_on_clone(ps.1, input)
            && fails_on_clone(ps.2, input)
            ==> accepts_clones(ps.3, input)
        &&& fails_on_clone(ps.0, input)
            && fails_on_clone(ps.1, input)
            && fails_on_clone(ps.2, input)
            && fails_on_clone(ps.3, input)
            ==> accepts_clones(ps.4, input)
        &&& fails_on_clone(ps.0, input)
            && fails_on_clone(ps.1, input)
            && fails_on_clone(ps.2, input)
            && fails_on_clone(ps.3, input)
            && fails_on_clone(ps.4, input)
            ==> accepts_clones(ps.5, input)
        &&& fails_on_clone(ps.0, input)
            && fails_on_clone(ps.1, input)
            && fails_on_clone(ps.2, input)
            && fails_on_clone(ps.3, input)
            && fails_on_clone(ps.4, input)
            && fails_on_clone(ps.5, input)
            ==> accepts_clones(ps.6, input)
        &&& fails_on_clone(ps.0, input)
            && fails_on_clone(ps.1, input)
            && fails_on_clone(ps.2, input)
            && fails_on_clone(ps.3, input)
            && fails_on_clone(ps.4, input)
            && fails_on_clone(ps.5, input)
            && fails_on_clone(ps.6, input)
            ==> accepts_clones(ps.7, input)
        &&& fails_on_clone(ps.0, input)
            && fails_on_clone(ps.1, input)
            && fails_on_clone(ps.2, input)
            && fails_on_clone(ps.3, input)
            && fails_on_clone(ps.4, input)
            && fails_on_clone(ps.5, input)
            && fails_on_clone(ps.6, input)
            && fails_on_clone(ps.7, input)
            ==> accepts_clones(ps.8, input)
        &&& fails_on_clone(ps.0, input)
            && fails_on_clone(ps.1, input)
            && fails_on_clone(ps.2, input)
            && fails_on_clone(ps.3, input)
            && fails_on_clone(ps.4, input)
            && fails_on_clone(ps.5, input)
            && fails_on_clone(ps.6, input)
            && fails_on_clone(ps.7, input)
            && fails_on_clone(ps.8, input)
            ==> accepts_clones(ps.9, input)
        &&& fails_on_clone(ps.0, input)
            && fails_on_clone(ps.1, input)
            && fails_on_clone(ps.2, input)
            && fails_on_clone(ps.3, input)
            && fails_on_clone(ps.4, input)
            && fails_on_clone(ps.5, input)
            && fails_on_clone(ps.6, input)
            && fails_on_clone(ps.7, input)
            && fails_on_clone(ps.8, input)
            && fails_on_clone(ps.9, input)
            ==> accepts_clones(ps.10, input)
    }

    open spec fn parse_ensures(&self, input: IN, res: Result<(OUT, IN), (A::Error, B::Error, C::Error, D::Error, E::Error, F::Error, G::Error, H::Error, I::Error, J::Error, K::Error)>) -> bool {
        let ps = self.parsers();
        match res {
            Ok(x) => {
                ||| yields_on_clone(ps.0, input, Ok(x))
                ||| fails_on_clone(ps.0, input)
                    && yields_on_clone(ps.1, input, Ok(x))
                ||| fails_on_clone(ps.0, input)
                    && fails_on_clone(ps.1, input)
                    && yields_on_clone(ps.2, input, Ok(x))
                ||| fails_on_clone(ps.0, input)
                    && fails_on_clone(ps.1, input)
                    && fails_on_clone(ps.2, input)
                    && yields_on_clone(ps.3, input, Ok(x))
                ||| fails_on_clone(ps.0, input)
                    && fails_on_clone(ps.1, input)
                    && fails_on_clone(ps.2, input)
                    && fails_on_clone(ps.3, input)
                    && yields_on_clone(ps.4, input, Ok(x))
                ||| fails_on_clone(ps.0, input)
                    && fails_on_clone(ps.1, input)
                    && fails_on_clone(ps.2, input)
                    && fails_on_clone(ps.3, input)
                    && fails_on_clone(ps.4, input)
                    && yields_on_clone(ps.5, input, Ok(x))
                ||| fails_on_clone(ps.0, input)
                    && fails_on_clone(ps.1, input)
                    && fails_on_clone(ps.2, input)
                    && fails_on_clone(ps.3, input)
                    && fails_on_clone(ps.4, input)
                    && fails_on_clone(ps.5, input)
                    && yields_on_clone(ps.6, input, Ok(x))
                ||| fails_on_clone(ps.0, input)
                    && fails_on_clone(ps.1, input)
                    && fails_on_clone(ps.2, input)
                    && fails_on_clone(ps.3, input)
                    && fails_on_clone(ps.4, input)
                    && fails_on_clone(ps.5, input)
                    && fails_on_clone(ps.6, input)
                    && yields_on_clone(ps.7, input, Ok(x))
                ||| fails_on_clone(ps.0, input)
                    && fails_on_clone(ps.1, input)
                    && fails_on_clone(ps.2, input)
                    && fails_on_clone(ps.3, input)
                    && fails_on_clone(ps.4, input)
                    && fails_on_clone(ps.5, input)
                    && fails_on_clone(ps.6, input)
                    && fails_on_clone(ps.7, input)
                    && yields_on_clone(ps.8, input, Ok(x))
                ||| fails_on_clone(ps.0, input)
                    && fails_on_clone(ps.1, input)
                    && fails_on_clone(ps.2, input)
                    && fails_on_clone(ps.3, input)
                    && fails_on_clone(ps.4, input)
                    && fails_on_clone(ps.5, input)
                    && fails_on_clone(ps.6, input)
                    && fails_on_clone(ps.7, input)
                    && fails_on_clone(ps.8, input)
                    && yields_on_clone(ps.9, input, Ok(x))
                ||| fails_on_clone(ps.0, input)
                    && fails_on_clone(ps.1, input)
                    && fails_on_clone(ps.2, input)
                    && fails_on_clone(ps.3, input)
                    && fails_on_clone(ps.4, input)
                    && fails_on_clone(ps.5, input)
                    && fails_on_clone(ps.6, input)
                    && fails_on_clone(ps.7, input)
                    && fails_on_clone(ps.8, input)
                    && fails_on_clone(ps.9, input)
                    && yields_on_clone(ps.10, input, Ok(x))
            },
            Err((a, b, c, d, e, f, g, h, i, j, k)) => {
                &&& yields_on_clone(ps.0, input, Err(a))
                &&& yields_on_clone(ps.1, input, Err(b))
                &&& yields_on_clone(ps.2, input, Err(c))
                &&& yields_on_clone(ps.3, input, Err(d))
                &&& yields_on_clone(ps.4, input, Err(e))
                &&& yields_on_clone(ps.5, input, Err(f))
                &&& yields_on_clone(ps.6, input, Err(g))
                &&& yields_on_clone(ps.7, input, Err(h))
                &&& yields_on_clone(ps.8, input, Err(i))
                &&& yields_on_clone(ps.9, input, Err(j))
                &&& yields_on_clone(ps.10, input, Err(k))
            },
        }
    }

    fn parse(&self, txt: IN) -> (res: Result<(OUT, IN), (A::Error, B::Error, C::Error, D::Error, E::Error, F::Error, G::Error, H::Error, I::Error, J::Error, K::Error)>) {
        let c0 = txt.clone();
        let a = match self.ps.0.parse(c0) {
            Ok(r) => {
                assert(yields_on_clone(self.ps.0, txt, Ok(r)));
                return Ok(r);
            },
            Err(e) => e,
        };
        assert(yields_on_clone(self.ps.0, txt, Err(a)));
        let c1 = txt.clone();
        let b = match self.ps.1.parse(c1) {
            Ok(r) => {
                assert(yields_on_clone(self.ps.1, txt, Ok(r)));
                return Ok(r);
            },
            Err(e) => e,
        };
        assert(yields_on_clone(self.ps.1, txt, Err(b)));
        let c2 = txt.clone();
        let c = match self.ps.2.parse(c2) {
            Ok(r) => {
                assert(yields_on_clone(self.ps.2, txt, Ok(r)));
                return Ok(r);
            },
            Err(e) => e,
        };
        assert(yields_on_clone(self.ps.2, txt, Err(c)));
        let c3 = txt.clone();
        let d = match self.ps.3.parse(c3) {
            Ok(r) => {
                assert(yields_on_clone(self.ps.3, txt, Ok(r)));
                return Ok(r);
            },
            Err(e) => e,
        };
        assert(yields_on_clone(self.ps.3, txt, Err(d)));
        let c4 = txt.clone();
        let e = match self.ps.4.parse(c4) {
            Ok(r) => {
                assert(yields_on_clone(self.ps.4, txt, Ok(r)));
                return Ok(r);
            },
            Err(e) => e,
        };
        assert(yields_on_clone(self.ps.4, txt, Err(e)));
        let c5 = txt.clone();
        let f = match self.ps.5.parse(c5) {
            Ok(r) => {
                assert(yields_on_clone(self.ps.5, txt, Ok(r)));
                return Ok(r);
            },
            Err(e) => e,
        };
        assert(yields_on_clone(self.ps.5, txt, Err(f)));
        let c6 = txt.clone();
        let g = match self.ps.6.parse(c6) {
            Ok(r) => {
                assert(yields_on_clone(self.ps.6, txt, Ok(r)));
                return Ok(r);
            },
            Err(e) => e,
        };
        assert(yields_on_clone(self.ps.6, txt, Err(g)));
        let c7 = txt.clone();
        let h = match self.ps.7.parse(c7) {
            Ok(r) => {
                assert(yields_on_clone(self.ps.7, txt, Ok(r)));
                return Ok(r);
            },
            Err(e) => e,
        };
        assert(yields_on_clone(self.ps.7, txt, Err(h)));
        let c8 = txt.clone();
        let i = match self.ps.8.parse(c8) {
            Ok(r) => {
                assert(yields_on_clone(self.ps.8, txt, Ok(r)));
                return Ok(r);
            },
            Err(e) => e,
        };
        assert(yields_on_clone(self.ps.8, txt, Err(i)));
        let c9 = txt.clone();
        let j = match self.ps.9.parse(c9) {
            Ok(r) => {
                assert(yields_on_clone(self.ps.9, txt, Ok(r)));
                return Ok(r);
            },
            Err(e) => e,
        };
        assert(yields_on_clone(self.ps.9, txt, Err(j)));
        let c10 = txt.clone();
        let k = match self.ps.10.parse(c10) {
            Ok(r) => {
                assert(yields_on_clone(self.ps.10, txt, Ok(r)));
                return Ok(r);
            },
            Err(e) => e,
        };
        assert(yields_on_clone(self.ps.10, txt, Err(k)));
        Err((a, b, c, d, e, f, g, h, i, j, k))
    }
}

/// Over inputs whose clones are equal, an alternative of 11 deterministic
/// parsers is deterministic.
pub proof fn lemma_alt11_deterministic<IN: Clone, OUT, A, B, C, D, E, F, G, H, I, J, K>(a: Alt<IN, (A, B, C, D, E, F, G, H, I, J, K)>)
    where
        A: Parser<IN, Out = OUT>,
        B: Parser<IN, Out = OUT>,
        C: Parser<IN, Out = OUT>,
        D: Parser<IN, Out = OUT>,
        E: Parser<IN, Out = OUT>,
        F: Parser<IN, Out = OUT>,
        G: Parser<IN, Out = OUT>,
        H: Parser<IN, Out = OUT>,
        I: Parser<IN, Out = OUT>,
        J: Parser<IN, Out = OUT>,
        K: Parser<IN, Out = OUT>,
    requires
        clones_are_equal::<IN>(),
        deterministic::<IN, A>(a.parsers().0),
        deterministic::<IN, B>(a.parsers().1),
        deterministic::<IN, C>(a.parsers().2),
        deterministic::<IN, D>(a.parsers().3),
        deterministic::<IN, E>(a.parsers().4),
        deterministic::<IN, F>(a.parsers().5),
        deterministic::<IN, G>(a.parsers().6),
        deterministic::<IN, H>(a.parsers().7),
        deterministic::<IN, I>(a.parsers().8),
        deterministic::<IN, J>(a.parsers().9),
        deterministic::<IN, K>(a.parsers().10),
    ensures
        deterministic::<IN, Alt<IN, (A, B, C, D, E, F, G, H, I, J, K)>>(a),
{
    lemma_clones_are_transparent::<IN, A>(a.parsers().0);
    lemma_clones_are_transparent::<IN, B>(a.parsers().1);
    lemma_clones_are_transparent::<IN, C>(a.parsers().2);
    lemma_clones_are_transparent::<IN, D>(a.parsers().3);
    lemma_clones_are_transparent::<IN, E>(a.parsers().4);
    lemma_clones_are_transparent::<IN, F>(a.parsers().5);
    lemma_clones_are_transparent::<IN, G>(a.parsers().6);
    lemma_clones_are_transparent::<IN, H>(a.parsers().7);
    lemma_clones_are_transparent::<IN, I>(a.parsers().8);
    lemma_clones_are_transparent::<IN, J>(a.parsers().9);
    lemma_clones_are_transparent::<IN, K>(a.parsers().10);
}

impl<IN: Clone, OUT, A, B, C, D, E, F, G, H, I, J, K, L> From<(A, B, C, D, E, F, G, H, I, J, K, L)> for Alt<IN, (A, B, C, D, E, F, G, H, I, J, K, L)> where
    A: Parser<IN, Out = OUT>,
    B: Parser<IN, Out = OUT>,
    C: Parser<IN, Out = OUT>,
    D: Parser<IN, Out = OUT>,
    E: Parser<IN, Out = OUT>,
    F: Parser<IN, Out = OUT>,
    G: Parser<IN, Out = OUT>,
    H: Parser<IN, Out = OUT>,
    I: Parser<IN, Out = OUT>,
    J: Parser<IN, Out = OUT>,
    K: Parser<IN, Out = OUT>,
    L: Parser<IN, Out = OUT>,
 {
    fn from(ps: (A, B, C, D, E, F, G, H, I, J, K, L)) -> (r: Self) {
        let r = Self { ps, _ghost: PhantomData };
        proof {
            lemma_alt_determined_by_parsers(r, ps);
        }
        r
    }
}

impl<IN: Clone, OUT, A, B, C, D, E, F, G, H, I, J, K, L> FromSpecImpl<(A, B, C, D, E, F, G, H, I, J, K, L)> for Alt<IN, (A, B, C, D, E, F, G, H, I, J, K, L)> where
    A: Parser<IN, Out = OUT>,
    B: Parser<IN, Out = OUT>,
    C: Parser<IN, Out = OUT>,
    D: Parser<IN, Out = OUT>,
    E: Parser<IN, Out = OUT>,
    F: Parser<IN, Out = OUT>,
    G: Parser<IN, Out = OUT>,
    H: Parser<IN, Out = OUT>,
    I: Parser<IN, Out = OUT>,
    J: Parser<IN, Out = OUT>,
    K: Parser<IN, Out = OUT>,
    L: Parser<IN, Out = OUT>,
 {
    open spec fn obeys_from_spec() -> bool {
        true
    }

    open spec fn from_spec(ps: (A, B, C, D, E, F, G, H, I, J, K, L)) -> Self {
        choose|a: Self| a.parsers() == ps
    }
}

/// An alternative of 12 parsers with one output type.
impl<IN: Clone, OUT, A, B, C, D, E, F, G, H, I, J, K, L> Parser<IN> for Alt<IN, (A, B, C, D, E, F, G, H, I, J, K, L)> where
    A: Parser<IN, Out = OUT>,
    B: Parser<IN, Out = OUT>,
    C: Parser<IN, Out = OUT>,
    D: Parser<IN, Out = OUT>,
    E: Parser<IN, Out = OUT>,
    F: Parser<IN, Out = OUT>,
    G: Parser<IN, Out = OUT>,
    H: Parser<IN, Out = OUT>,
    I: Parser<IN, Out = OUT>,
    J: Parser<IN, Out = OUT>,
    K: Parser<IN, Out = OUT>,
    L: Parser<IN, Out = OUT>,
 {
    type Out = OUT;

    type Error = (A::Error, B::Error, C::Error, D::Error, E::Error, F::Error, G::Error, H::Error, I::Error, J::Error, K::Error, L::Error);

    open spec fn parse_requires(&self, input: IN) -> bool {
        let ps = self.parsers();
        &&& accepts_clones(ps.0, input)
        &&& fails_on_clone(ps.0, input)
            ==> accepts_clones(ps.1, input)
        &&& fails_on_clone(ps.0, input)
            && fails_on_clone(ps.1, input)
            ==> accepts_clones(ps.2, input)
        &&& fails_on_clone(ps.0, input)
            && fails_on_clone(ps.1, input)
            && fails_on_clone(ps.2, input)
            ==> accepts_clones(ps.3, input)
        &&& fails_on_clone(ps.0, input)
            && fails_on_clone(ps.1, input)
            && fails_on_clone(ps.2, input)
            && fails_on_clone(ps.3, input)
            ==> accepts_clones(ps.4, input)
        &&& fails_on_clone(ps.0, input)
            && fails_on_clone(ps.1, input)
            && fails_on_clone(ps.2, input)
            && fails_on_clone(ps.3, input)
            && fails_on_clone(ps.4, input)
            ==> accepts_clones(ps.5, input)
        &&& fails_on_clone(ps.0, input)
            && fails_on_clone(ps.1, input)
            && fails_on_clone(ps.2, input)
            && fails_on_clone(ps.3, input)
            && fails_on_clone(ps.4, input)
            && fails_on_clone(ps.5, input)
            ==> accepts_clones(ps.6, input)
        &&& fails_on_clone(ps.0, input)
            && fails_on_clone(ps.1, input)
            && fails_on_clone(ps.2, input)
            && fails_on_clone(ps.3, input)
            && fails_on_clone(ps.4, input)
            && fails_on_clone(ps.5, input)
            && fails_on_clone(ps.6, input)
            ==> accepts_clones(ps.7, input)
        &&& fails_on_clone(ps.0, input)
            && fails_on_clone(ps.1, input)
            && fails_on_clone(ps.2, input)
            && fails_on_clone(ps.3, input)
            && fails_on_clone(ps.4, input)
            && fails_on_clone(ps.5, input)
            && fails_on_clone(ps.6, input)
            && fails_on_clone(ps.7, input)
            ==> accepts_clones(ps.8, input)
        &&& fails_on_clone(ps.0, input)
            && fails_on_clone(ps.1, input)
            && fails_on_clone(ps.2, input)
            && fails_on_clone(ps.3, input)
            && fails_on_clone(ps.4, input)
            && fails_on_clone(ps.5, input)
            && fails_on_clone(ps.6, input)
            && fails_on_clone(ps.7, input)
            && fails_on_clone(ps.8, input)
            ==> accepts_clones(ps.9, input)
        &&& fails_on_clone(ps.0, input)
            && fails_on_clone(ps.1, input)
            && fails_on_clone(ps.2, input)
            && fails_on_clone(ps.3, input)
            && fails_on_clone(ps.4, input)
            && fails_on_clone(ps.5, input)
            && fails_on_clone(ps.6, input)
            && fails_on_clone(ps.7, input)
            && fails_on_clone(ps.8, input)
            && fails_on_clone(ps.9, input)
            ==> accepts_clones(ps.10, input)
        &&& fails_on_clone(ps.0, input)
            && fails_on_clone(ps.1, input)
            && fails_on_clone(ps.2, input)
            && fails_on_clone(ps.3, input)
            && fails_on_clone(ps.4, input)
            && fails_on_clone(ps.5, input)
            && fails_on_clone(ps.6, input)
            && fails_on_clone(ps.7, input)
            && fails_on_clone(ps.8, input)
            && fails_on_clone(ps.9, input)
            && fails_on_clone(ps.10, input)
            ==> accepts_clones(ps.11, input)
    }

    open spec fn parse_ensures(&self, input: IN, res: Result<(OUT, IN), (A::Error, B::Error, C::Error, D::Error, E::Error, F::Error, G::Error, H::Error, I::Error, J::Error, K::Error, L::Error)>) -> bool {
        let ps = self.parsers();
        match res {
            Ok(x) => {
                ||| yields_on_clone(ps.0, input, Ok(x))
                ||| fails_on_clone(ps.0, input)
                    && yields_on_clone(ps.1, input, Ok(x))
                ||| fails_on_clone(ps.0, input)
                    && fails_on_clone(ps.1, input)
                    && yields_on_clone(ps.2, input, Ok(x))
                ||| fails_on_clone(ps.0, input)
                    && fails_on_clone(ps.1, input)
                    && fails_on_clone(ps.2, input)
                    && yields_on_clone(ps.3, input, Ok(x))
                ||| fails_on_clone(ps.0, input)
                    && fails_on_clone(ps.1, input)
                    && fails_on_clone(ps.2, input)
                    && fails_on_clone(ps.3, input)
                    && yields_on_clone(ps.4, input, Ok(x))
                ||| fails_on_clone(ps.0, input)
                    && fails_on_clone(ps.1, input)
                    && fails_on_clone(ps.2, input)
                    && fails_on_clone(ps.3, input)
                    && fails_on_clone(ps.4, input)
                    && yields_on_clone(ps.5, input, Ok(x))
                ||| fails_on_clone(ps.0, input)
                    && fails_on_clone(ps.1, input)
                    && fails_on_clone(ps.2, input)
                    && fails_on_clone(ps.3, input)
                    && fails_on_clone(ps.4, input)
                    && fails_on_clone(ps.5, input)
                    && yields_on_clone(ps.6, input, Ok(x))
                ||| fails_on_clone(ps.0, input)
                    && fails_on_clone(ps.1, input)
                    && fails_on_clone(ps.2, input)
                    && fails_on_clone(ps.3, input)
                    && fails_on_clone(ps.4, input)
                    && fails_on_clone(ps.5, input)
                    && fails_on_clone(ps.6, input)
                    && yields_on_clone(ps.7, input, Ok(x))
                ||| fails_on_clone(ps.0, input)
                    && fails_on_clone(ps.1, input)
                    && fails_on_clone(ps.2, input)
                    && fails_on_clone(ps.3, input)
                    && fails_on_clone(ps.4, input)
                    && fails_on_clone(ps.5, input)
                    && fails_on_clone(ps.6, input)
                    && fails_on_clone(ps.7, input)
                    && yields_on_clone(ps.8, input, Ok(x))
                ||| fails_on_clone(ps.0, input)
                    && fails_on_clone(ps.1, input)
                    && fails_on_clone(ps.2, input)
                    && fails_on_clone(ps.3, input)
                    && fails_on_clone(ps.4, input)
                    && fails_on_clone(ps.5, input)
                    && fails_on_clone(ps.6, input)
                    && fails_on_clone(ps.7, input)
                    && fails_on_clone(ps.8, input)
                    && yields_on_clone(ps.9, input, Ok(x))
                ||| fails_on_clone(ps.0, input)
                    && fails_on_clone(ps.1, input)
                    && fails_on_clone(ps.2, input)
                    && fails_on_clone(ps.3, input)
                    && fails_on_clone(ps.4, input)
                    && fails_on_clone(ps.5, input)
                    && fails_on_clone(ps.6, input)
                    && fails_on_clone(ps.7, input)
                    && fails_on_clone(ps.8, input)
                    && fails_on_clone(ps.9, input)
                    && yields_on_clone(ps.10, input, Ok(x))
                ||| fails_on_clone(ps.0, input)
                    && fails_on_clone(ps.1, input)
                    && fails_on_clone(ps.2, input)
                    && fails_on_clone(ps.3, input)
                    && fails_on_clone(ps.4, input)
                    && fails_on_clone(ps.5, input)
                    && fails_on_clone(ps.6, input)
                    && fails_on_clone(ps.7, input)
                    && fails_on_clone(ps.8, input)
                    && fails_on_clone(ps.9, input)
                    && fails_on_clone(ps.10, input)
                    && yields_on_clone(ps.11, input, Ok(x))
            },
            Err((a, b, c, d, e, f, g, h, i, j, k, l)) => {
                &&& yields_on_clone(ps.0, input, Err(a))
                &&& yields_on_clone(ps.1, input, Err(b))
                &&& yields_on_clone(ps.2, input, Err(c))
                &&& yields_on_clone(ps.3, input, Err(d))
                &&& yields_on_clone(ps.4, input, Err(e))
                &&& yields_on_clone(ps.5, input, Err(f))
                &&& yields_on_clone(ps.6, input, Err(g))
                &&& yields_on_clone(ps.7, input, Err(h))
                &&& yields_on_clone(ps.8, input, Err(i))
                &&& yields_on_clone(ps.9, input, Err(j))
                &&& yields_on_clone(ps.10, input, Err(k))
                &&& yields_on_clone(ps.11, input, Err(l))
            },
        }
    }

    fn parse(&self, txt: IN) -> (res: Result<(OUT, IN), (A::Error, B::Error, C::Error, D::Error, E::Error, F::Error, G::Error, H::Error, I::Error, J::Error, K::Error, L::Error)>) {
        let c0 = txt.clone();
        let a = match self.ps.0.parse(c0) {
            Ok(r) => {
                assert(yields_on_clone(self.ps.0, txt, Ok(r)));
                return Ok(r);
            },
            Err(e) => e,
        };
        assert(yields_on_clone(self.ps.0, txt, Err(a)));
        let c1 = txt.clone();
        let b = match self.ps.1.parse(c1) {
            Ok(r) => {
                assert(yields_on_clone(self.ps.1, txt, Ok(r)));
                return Ok(r);
            },
            Err(e) => e,
        };
        assert(yields_on_clone(self.ps.1, txt, Err(b)));
        let c2 = txt.clone();
        let c = match self.ps.2.parse(c2) {
            Ok(r) => {
                assert(yields_on_clone(self.ps.2, txt, Ok(r)));
                return Ok(r);
            },
            Err(e) => e,
        };
        assert(yields_on_clone(self.ps.2, txt, Err(c)));
        let c3 = txt.clone();
        let d = match self.ps.3.parse(c3) {
            Ok(r) => {
                assert(yields_on_clone(self.ps.3, txt, Ok(r)));
                return Ok(r);
            },
            Err(e) => e,
        };
        assert(yields_on_clone(self.ps.3, txt, Err(d)));
        let c4 = txt.clone();
        let e = match self.ps.4.parse(c4) {
            Ok(r) => {
                assert(yields_on_clone(self.ps.4, txt, Ok(r)));
                return Ok(r);
            },
            Err(e) => e,
        };
        assert(yields_on_clone(self.ps.4, txt, Err(e)));
        let c5 = txt.clone();
        let f = match self.ps.5.parse(c5) {
            Ok(r) => {
                assert(yields_on_clone(self.ps.5, txt, Ok(r)));
                return Ok(r);
            },
            Err(e) => e,
        };
        assert(yields_on_clone(self.ps.5, txt, Err(f)));
        let c6 = txt.clone();
        let g = match self.ps.6.parse(c6) {
            Ok(r) => {
                assert(yields_on_clone(self.ps.6, txt, Ok(r)));
                return Ok(r);
            },
            Err(e) => e,
        };
        assert(yields_on_clone(self.ps.6, txt, Err(g)));
        let c7 = txt.clone();
        let h = match self.ps.7.parse(c7) {
            Ok(r) => {
                assert(yields_on_clone(self.ps.7, txt, Ok(r)));
                return Ok(r);
            },
            Err(e) => e,
        };
        assert(yields_on_clone(self.ps.7, txt, Err(h)));
        let c8 = txt.clone();
        let i = match self.ps.8.parse(c8) {
            Ok(r) => {
                assert(yields_on_clone(self.ps.8, txt, Ok(r)));
                return Ok(r);
            },
            Err(e) => e,
        };
        assert(yields_on_clone(self.ps.8, txt, Err(i)));
        let c9 = txt.clone();
        let j = match self.ps.9.parse(c9) {
            Ok(r) => {
                assert(yields_on_clone(self.ps.9, txt, Ok(r)));
                return Ok(r);
            },
            Err(e) => e,
        };
        assert(yields_on_clone(self.ps.9, txt, Err(j)));
        let c10 = txt.clone();
        let k = match self.ps.10.parse(c10) {
            Ok(r) => {
                assert(yields_on_clone(self.ps.10, txt, Ok(r)));
                return Ok(r);
            },
            Err(e) => e,
        };
        assert(yields_on_clone(self.ps.10, txt, Err(k)));
        let c11 = txt.clone();
        let l = match self.ps.11.parse(c11) {
            Ok(r) => {
                assert(yields_on_clone(self.ps.11, txt, Ok(r)));
                return Ok(r);
            },
            Err(e) => e,
        };
        assert(yields_on_clone(self.ps.11, txt, Err(l)));
        Err((a, b, c, d, e, f, g, h, i, j, k, l))
    }
}

/// Over inputs whose clones are equal, an alternative of 12 deterministic
/// parsers is deterministic.
pub proof fn lemma_alt12_deterministic<IN: Clone, OUT, A, B, C, D, E, F, G, H, I, J, K, L>(a: Alt<IN, (A, B, C, D, E, F, G, H, I, J, K, L)>)
    where
        A: Parser<IN, Out = OUT>,
        B: Parser<IN, Out = OUT>,
        C: Parser<IN, Out = OUT>,
        D: Parser<IN, Out = OUT>,
        E: Parser<IN, Out = OUT>,
        F: Parser<IN, Out = OUT>,
        G: Parser<IN, Out = OUT>,
        H: Parser<IN, Out = OUT>,
        I: Parser<IN, Out = OUT>,
        J: Parser<IN, Out = OUT>,
        K: Parser<IN, Out = OUT>,
        L: Parser<IN, Out = OUT>,
    requires
        clones_are_equal::<IN>(),
        deterministic::<IN, A>(a.parsers().0),
        deterministic::<IN, B>(a.parsers().1),
        deterministic::<IN, C>(a.parsers().2),
        deterministic::<IN, D>(a.parsers().3),
        deterministic::<IN, E>(a.parsers().4),
        deterministic::<IN, F>(a.parsers().5),
        deterministic::<IN, G>(a.parsers().6),
        deterministic::<IN, H>(a.parsers().7),
        deterministic::<IN, I>(a.parsers().8),
        deterministic::<IN, J>(a.parsers().9),
        deterministic::<IN, K>(a.parsers().10),
        deterministic::<IN, L>(a.parsers().11),
    ensures
        deterministic::<IN, Alt<IN, (A, B, C, D, E, F, G, H, I, J, K, L)>>(a),
{
    lemma_clones_are_transparent::<IN, A>(a.parsers().0);
    lemma_clones_are_transparent::<IN, B>(a.parsers().1);
    lemma_clones_are_transparent::<IN, C>(a.parsers().2);
    lemma_clones_are_transparent::<IN, D>(a.parsers().3);
    lemma_clones_are_transparent::<IN, E>(a.parsers().4);
    lemma_clones_are_transparent::<IN, F>(a.parsers().5);
    lemma_clones_are_transparent::<IN, G>(a.parsers().6);
    lemma_clones_are_transparent::<IN, H>(a.parsers().7);
    lemma_clones_are_transparent::<IN, I>(a.parsers().8);
    lemma_clones_are_transparent::<IN, J>(a.parsers().9);
    lemma_clones_are_transparent::<IN, K>(a.parsers().10);
    lemma_clones_are_transparent::<IN, L>(a.parsers().11);
}

impl<IN: Clone, OUT, A, B, C, D, E, F, G, H, I, J, K, L, M> From<(A, B, C, D, E, F, G, H, I, J, K, L, M)> for Alt<IN, (A, B, C, D, E, F, G, H, I, J, K, L, M)> where
    A: Parser<IN, Out = OUT>,
    B: Parser<IN, Out = OUT>,
    C: Parser<IN, Out = OUT>,
    D: Parser<IN, Out = OUT>,
    E: Parser<IN, Out = OUT>,
    F: Parser<IN, Out = OUT>,
    G: Parser<IN, Out = OUT>,
    H: Parser<IN, Out = OUT>,
    I: Parser<IN, Out = OUT>,
    J: Parser<IN, Out = OUT>,
    K: Parser<IN, Out = OUT>,
    L: Parser<IN, Out = OUT>,
    M: Parser<IN, Out = OUT>,
 {
    fn from(ps: (A, B, C, D, E, F, G, H, I, J, K, L, M)) -> (r: Self) {
        let r = Self { ps, _ghost: PhantomData };
        proof {
            lemma_alt_determined_by_parsers(r, ps);
        }
        r
    }
}

impl<IN: Clone, OUT, A, B, C, D, E, F, G, H, I, J, K, L, M> FromSpecImpl<(A, B, C, D, E, F, G, H, I, J, K, L, M)> for Alt<IN, (A, B, C, D, E, F, G, H, I, J, K, L, M)> where
    A: Parser<IN, Out = OUT>,
    B: Parser<IN, Out = OUT>,
    C: Parser<IN, Out = OUT>,
    D: Parser<IN, Out = OUT>,
    E: Parser<IN, Out = OUT>,
    F: Parser<IN, Out = OUT>,
    G: Parser<IN, Out = OUT>,
    H: Parser<IN, Out = OUT>,
    I: Parser<IN, Out = OUT>,
    J: Parser<IN, Out = OUT>,
    K: Parser<IN, Out = OUT>,
    L: Parser<IN, Out = OUT>,
    M: Parser<IN, Out = OUT>,
 {
    open spec fn obeys_from_spec() -> bool {
        true
    }

    open spec fn from_spec(ps: (A, B, C, D, E, F, G, H, I, J, K, L, M)) -> Self {
        choose|a: Self| a.parsers() == ps
    }
}

/// An alternative of 13 parsers with one output type.
impl<IN: Clone, OUT, A, B, C, D, E, F, G, H, I, J, K, L, M> Parser<IN> for Alt<IN, (A, B, C, D, E, F, G, H, I, J, K, L, M)> where
    A: Parser<IN, Out = OUT>,
    B: Parser<IN, Out = OUT>,
    C: Parser<IN, Out = OUT>,
    D: Parser<IN, Out = OUT>,
    E: Parser<IN, Out = OUT>,
    F: Parser<IN, Out = OUT>,
    G: Parser<IN, Out = OUT>,
    H: Parser<IN, Out = OUT>,
    I: Parser<IN, Out = OUT>,
    J: Parser<IN, Out = OUT>,
    K: Parser<IN, Out = OUT>,
    L: Parser<IN, Out = OUT>,
    M: Parser<IN, Out = OUT>,
 {
    type Out = OUT;

    type Error = (A::Error, B::Error, C::Error, D::Error, E::Error, F::Error, G::Error, H::Error, I::Error, J::Error, K::Error, L::Error, M::Error);

    open spec fn parse_requires(&self, input: IN) -> bool {
        let ps = self.parsers();
        &&& accepts_clones(ps.0, input)
        &&& fails_on_clone(ps.0, input)
            ==> accepts_clones(ps.1, input)
        &&& fails_on_clone(ps.0, input)
            && fails_on_clone(ps.1, input)
            ==> accepts_clones(ps.2, input)
        &&& fails_on_clone(ps.0, input)
            && fails_on_clone(ps.1, input)
            && fails_on_clone(ps.2, input)
            ==> accepts_clones(ps.3, input)
        &&& fails_on_clone(ps.0, input)
            && fails_on_clone(ps.1, input)
            && fails_on_clone(ps.2, input)
            && fails_on_clone(ps.3, input)
            ==> accepts_clones(ps.4, input)
        &&& fails_on_clone(ps.0, input)
            && fails_on_clone(ps.1, input)
            && fails_on_clone(ps.2, input)
            && fails_on_clone(ps.3, input)
            && fails_on_clone(ps.4, input)
            ==> accepts_clones(ps.5, input)
        &&& fails_on_clone(ps.0, input)
            && fails_on_clone(ps.1, input)
            && fails_on_clone(ps.2, input)
            && fails_on_clone(ps.3, input)
            && fails_on_clone(ps.4, input)
            && fails_on_clone(ps.5, input)
            ==> accepts_clones(ps.6, input)
        &&& fails_on_clone(ps.0, input)
            && fails_on_clone(ps.1, input)
            && fails_on_clone(ps.2, input)
            && fails_on_clone(ps.3, input)
            && fails_on_clone(ps.4, input)
            && fails_on_clone(ps.5, input)
            && fails_on_clone(ps.6, input)
            ==> accepts_clones(ps.7, input)
        &&& fails_on_clone(ps.0, input)
            && fails_on_clone(ps.1, input)
            && fails_on_clone(ps.2, input)
            && fails_on_clone(ps.3, input)
            && fails_on_clone(ps.4, input)
            && fails_on_clone(ps.5, input)
            && fails_on_clone(ps.6, input)
            && fails_on_clone(ps.7, input)
            ==> accepts_clones(ps.8, input)
        &&& fails_on_clone(ps.0, input)
            && fails_on_clone(ps.1, input)
            && fails_on_clone(ps.2, input)
            && fails_on_clone(ps.3, input)
            && fails_on_clone(ps.4, input)
            && fails_on_clone(ps.5, input)
            && fails_on_clone(ps.6, input)
            && fails_on_clone(ps.7, input)
            && fails_on_clone(ps.8, input)
            ==> accepts_clones(ps.9, input)
        &&& fails_on_clone(ps.0, input)
            && fails_on_clone(ps.1, input)
            && fails_on_clone(ps.2, input)
            && fails_on_clone(ps.3, input)
            && fails_on_clone(ps.4, input)
            && fails_on_clone(ps.5, input)
            && fails_on_clone(ps.6, input)
            && fails_on_clone(ps.7, input)
            && fails_on_clone(ps.8, input)
            && fails_on_clone(ps.9, input)
            ==> accepts_clones(ps.10, input)
        &&& fails_on_clone(ps.0, input)
            && fails_on_clone(ps.1, input)
            && fails_on_clone(ps.2, input)
            && fails_on_clone(ps.3, input)
            && fails_on_clone(ps.4, input)
            && fails_on_clone(ps.5, input)
            && fails_on_clone(ps.6, input)
            && fails_on_clone(ps.7, input)
            && fails_on_clone(ps.8, input)
            && fails_on_clone(ps.9, input)
            && fails_on_clone(ps.10, input)
            ==> accepts_clones(ps.11, input)
        &&& fails_on_clone(ps.0, input)
            && fails_on_clone(ps.1, input)
            && fails_on_clone(ps.2, input)
            && fails_on_clone(ps.3, input)
            && fails_on_clone(ps.4, input)
            && fails_on_clone(ps.5, input)
            && fails_on_clone(ps.6, input)
            && fails_on_clone(ps.7, input)
            && fails_on_clone(ps.8, input)
            && fails_on_clone(ps.9, input)
            && fails_on_clone(ps.10, input)
            && fails_on_clone(ps.11, input)
            ==> accepts_clones(ps.12, input)
    }

    open spec fn parse_ensures(&self, input: IN, res: Result<(OUT, IN), (A::Error, B::Error, C::Error, D::Error, E::Error, F::Error, G::Error, H::Error, I::Error, J::Error, K::Error, L::Error, M::Error)>) -> bool {
        let ps = self.parsers();
        match res {
            Ok(x) => {
                ||| yields_on_clone(ps.0, input, Ok(x))
                ||| fails_on_clone(ps.0, input)
                    && yields_on_clone(ps.1, input, Ok(x))
                ||| fails_on_clone(ps.0, input)
                    && fails_on_clone(ps.1, input)
                    && yields_on_clone(ps.2, input, Ok(x))
                ||| fails_on_clone(ps.0, input)
                    && fails_on_clone(ps.1, input)
                    && fails_on_clone(ps.2, input)
                    && yields_on_clone(ps.3, input, Ok(x))
                ||| fails_on_clone(ps.0, input)
                    && fails_on_clone(ps.1, input)
                    && fails_on_clone(ps.2, input)
                    && fails_on_clone(ps.3, input)
                    && yields_on_clone(ps.4, input, Ok(x))
                ||| fails_on_clone(ps.0, input)
                    && fails_on_clone(ps.1, input)
                    && fails_on_clone(ps.2, input)
                    && fails_on_clone(ps.3, input)
                    && fails_on_clone(ps.4, input)
                    && yields_on_clone(ps.5, input, Ok(x))
                ||| fails_on_clone(ps.0, input)
                    && fails_on_clone(ps.1, input)
                    && fails_on_clone(ps.2, input)
                    && fails_on_clone(ps.3, input)
                    && fails_on_clone(ps.4, input)
                    && fails_on_clone(ps.5, input)
                    && yields_on_clone(ps.6, input, Ok(x))
                ||| fails_on_clone(ps.0, input)
                    && fails_on_clone(ps.1, input)
                    && fails_on_clone(ps.2, input)
                    && fails_on_clone(ps.3, input)
                    && fails_on_clone(ps.4, input)
                    && fails_on_clone(ps.5, input)
                    && fails_on_clone(ps.6, input)
                    && yields_on_clone(ps.7, input, Ok(x))
                ||| fails_on_clone(ps.0, input)
                    && fails_on_clone(ps.1, input)
                    && fails_on_clone(ps.2, input)
                    && fails_on_clone(ps.3, input)
                    && fails_on_clone(ps.4, input)
                    && fails_on_clone(ps.5, input)
                    && fails_on_clone(ps.6, input)
                    && fails_on_clone(ps.7, input)
                    && yields_on_clone(ps.8, input, Ok(x))
                ||| fails_on_clone(ps.0, input)
                    && fails_on_clone(ps.1, input)
                    && fails_on_clone(ps.2, input)
                    && fails_on_clone(ps.3, input)
                    && fails_on_clone(ps.4, input)
                    && fails_on_clone(ps.5, input)
                    && fails_on_clone(ps.6, input)
                    && fails_on_clone(ps.7, input)
                    && fails_on_clone(ps.8, input)
                    && yields_on_clone(ps.9, input, Ok(x))
                ||| fails_on_clone(ps.0, input)
                    && fails_on_clone(ps.1, input)
                    && fails_on_clone(ps.2, input)
                    && fails_on_clone(ps.3, input)
                    && fails_on_clone(ps.4, input)
                    && fails_on_clone(ps.5, input)
                    && fails_on_clone(ps.6, input)
                    && fails_on_clone(ps.7, input)
                    && fails_on_clone(ps.8, input)
                    && fails_on_clone(ps.9, input)
                    && yields_on_clone(ps.10, input, Ok(x))
                ||| fails_on_clone(ps.0, input)
                    && fails_on_clone(ps.1, input)
                    && fails_on_clone(ps.2, input)
                    && fails_on_clone(ps.3, input)
                    && fails_on_clone(ps.4, input)
                    && fails_on_clone(ps.5, input)
                    && fails_on_clone(ps.6, input)
                    && fails_on_clone(ps.7, input)
                    && fails_on_clone(ps.8, input)
                    && fails_on_clone(ps.9, input)
                    && fails_on_clone(ps.10, input)
                    && yields_on_clone(ps.11, input, Ok(x))
                ||| fails_on_clone(ps.0, input)
                    && fails_on_clone(ps.1, input)
                    && fails_on_clone(ps.2, input)
                    && fails_on_clone(ps.3, input)
                    && fails_on_clone(ps.4, input)
                    && fails_on_clone(ps.5, input)
                    && fails_on_clone(ps.6, input)
                    && fails_on_clone(ps.7, input)
                    && fails_on_clone(ps.8, input)
                    && fails_on_clone(ps.9, input)
                    && fails_on_clone(ps.10, input)
                    && fails_on_clone(ps.11, input)
                    && yields_on_clone(ps.12, input, Ok(x))
            },
            Err((a, b, c, d, e, f, g, h, i, j, k, l, m)) => {
                &&& yields_on_clone(ps.0, input, Err(a))
                &&& yields_on_clone(ps.1, input, Err(b))
                &&& yields_on_clone(ps.2, input, Err(c))
                &&& yields_on_clone(ps.3, input, Err(d))
                &&& yields_on_clone(ps.4, input, Err(e))
                &&& yields_on_clone(ps.5, input, Err(f))
                &&& yields_on_clone(ps.6, input, Err(g))
                &&& yields_on_clone(ps.7, input, Err(h))
                &&& yields_on_clone(ps.8, input, Err(i))
                &&& yields_on_clone(ps.9, input, Err(j))
                &&& yields_on_clone(ps.10, input, Err(k))
                &&& yields_on_clone(ps.11, input, Err(l))
                &&& yields_on_clone(ps.12, input, Err(m))
            },
        }
    }

    fn parse(&self, txt: IN) -> (res: Result<(OUT, IN), (A::Error, B::Error, C::Error, D::Error, E::Error, F::Error, G::Error, H::Error, I::Error, J::Error, K::Error, L::Error, M::Error)>) {
        let c0 = txt.clone();
        let a = match self.ps.0.parse(c0) {
            Ok(r) => {
                assert(yields_on_clone(self.ps.0, txt, Ok(r)));
                return Ok(r);
            },
            Err(e) => e,
        };
        assert(yields_on_clone(self.ps.0, txt, Err(a)));
        let c1 = txt.clone();
        let b = match self.ps.1.parse(c1) {
            Ok(r) => {
                assert(yields_on_clone(self.ps.1, txt, Ok(r)));
                return Ok(r);
            },
            Err(e) => e,
        };
        assert(yields_on_clone(self.ps.1, txt, Err(b)));
        let c2 = txt.clone();
        let c = match self.ps.2.parse(c2) {
            Ok(r) => {
                assert(yields_on_clone(self.ps.2, txt, Ok(r)));
                return Ok(r);
            },
            Err(e) => e,
        };
        assert(yields_on_clone(self.ps.2, txt, Err(c)));
        let c3 = txt.clone();
        let d = match self.ps.3.parse(c3) {
            Ok(r) => {
                assert(yields_on_clone(self.ps.3, txt, Ok(r)));
                return Ok(r);
            },
            Err(e) => e,
        };
        assert(yields_on_clone(self.ps.3, txt, Err(d)));
        let c4 = txt.clone();
        let e = match self.ps.4.parse(c4) {
            Ok(r) => {
                assert(yields_on_clone(self.ps.4, txt, Ok(r)));
                return Ok(r);
            },
            Err(e) => e,
        };
        assert(yields_on_clone(self.ps.4, txt, Err(e)));
        let c5 = txt.clone();
        let f = match self.ps.5.parse(c5) {
            Ok(r) => {
                assert(yields_on_clone(self.ps.5, txt, Ok(r)));
                return Ok(r);
            },
            Err(e) => e,
        };
        assert(yields_on_clone(self.ps.5, txt, Err(f)));
        let c6 = txt.clone();
        let g = match self.ps.6.parse(c6) {
            Ok(r) => {
                assert(yields_on_clone(self.ps.6, txt, Ok(r)));
                return Ok(r);
            },
            Err(e) => e,
        };
        assert(yields_on_clone(self.ps.6, txt, Err(g)));
        let c7 = txt.clone();
        let h = match self.ps.7.parse(c7) {
            Ok(r) => {
                assert(yields_on_clone(self.ps.7, txt, Ok(r)));
                return Ok(r);
            },
            Err(e) => e,
        };
        assert(yields_on_clone(self.ps.7, txt, Err(h)));
        let c8 = txt.clone();
        let i = match self.ps.8.parse(c8) {
            Ok(r) => {
                assert(yields_on_clone(self.ps.8, txt, Ok(r)));
                return Ok(r);
            },
            Err(e) => e,
        };
        assert(yields_on_clone(self.ps.8, txt, Err(i)));
        let c9 = txt.clone();
        let j = match self.ps.9.parse(c9) {
            Ok(r) => {
                assert(yields_on_clone(self.ps.9, txt, Ok(r)));
                return Ok(r);
            },
            Err(e) => e,
        };
        assert(yields_on_clone(self.ps.9, txt, Err(j)));
        let c10 = txt.clone();
        let k = match self.ps.10.parse(c10) {
            Ok(r) => {
                assert(yields_on_clone(self.ps.10, txt, Ok(r)));
                return Ok(r);
            },
            Err(e) => e,
        };
        assert(yields_on_clone(self.ps.10, txt, Err(k)));
        let c11 = txt.clone();
        let l = match self.ps.11.parse(c11) {
            Ok(r) => {
                assert(yields_on_clone(self.ps.11, txt, Ok(r)));
                return Ok(r);
            },
            Err(e) => e,
        };
        assert(yields_on_clone(self.ps.11, txt, Err(l)));
        let c12 = txt.clone();
        let m = match self.ps.12.parse(c12) {
            Ok(r) => {
                assert(yields_on_clone(self.ps.12, txt, Ok(r)));
                return Ok(r);
            },
            Err(e) => e,
        };
        assert(yields_on_clone(self.ps.12, txt, Err(m)));
        Err((a, b, c, d, e, f, g, h, i, j, k, l, m))
    }
}

/// Over inputs whose clones are equal, an alternative of 13 deterministic
/// parsers is deterministic.
pub proof fn lemma_alt13_deterministic<IN: Clone, OUT, A, B, C, D, E, F, G, H, I, J, K, L, M>(a: Alt<IN, (A, B, C, D, E, F, G, H, I, J, K, L, M)>)
    where
        A: Parser<IN, Out = OUT>,
        B: Parser<IN, Out = OUT>,
        C: Parser<IN, Out = OUT>,
        D: Parser<IN, Out = OUT>,
        E: Parser<IN, Out = OUT>,
        F: Parser<IN, Out = OUT>,
        G: Parser<IN, Out = OUT>,
        H: Parser<IN, Out = OUT>,
        I: Parser<IN, Out = OUT>,
        J: Parser<IN, Out = OUT>,
        K: Parser<IN, Out = OUT>,
        L: Parser<IN, Out = OUT>,
        M: Parser<IN, Out = OUT>,
    requires
        clones_are_equal::<IN>(),
        deterministic::<IN, A>(a.parsers().0),
        deterministic::<IN, B>(a.parsers().1),
        deterministic::<IN, C>(a.parsers().2),
        deterministic::<IN, D>(a.parsers().3),
        deterministic::<IN, E>(a.parsers().4),
        deterministic::<IN, F>(a.parsers().5),
        deterministic::<IN, G>(a.parsers().6),
        deterministic::<IN, H>(a.parsers().7),
        deterministic::<IN, I>(a.parsers().8),
        deterministic::<IN, J>(a.parsers().9),
        deterministic::<IN, K>(a.parsers().10),
        deterministic::<IN, L>(a.parsers().11),
        deterministic::<IN, M>(a.parsers().12),
    ensures
        deterministic::<IN, Alt<IN, (A, B, C, D, E, F, G, H, I, J, K, L, M)>>(a),
{
    lemma_clones_are_transparent::<IN, A>(a.parsers().0);
    lemma_clones_are_transparent::<IN, B>(a.parsers().1);
    lemma_clones_are_transparent::<IN, C>(a.parsers().2);
    lemma_clones_are_transparent::<IN, D>(a.parsers().3);
    lemma_clones_are_transparent::<IN, E>(a.parsers().4);
    lemma_clones_are_transparent::<IN, F>(a.parsers().5);
    lemma_clones_are_transparent::<IN, G>(a.parsers().6);
    lemma_clones_are_transparent::<IN, H>(a.parsers().7);
    lemma_clones_are_transparent::<IN, I>(a.parsers().8);
    lemma_clones_are_transparent::<IN, J>(a.parsers().9);
    lemma_clones_are_transparent::<IN, K>(a.parsers().10);
    lemma_clones_are_transparent::<IN, L>(a.parsers().11);
    lemma_clones_are_transparent::<IN, M>(a.parsers().12);
}

impl<IN: Clone, OUT, A, B, C, D, E, F, G, H, I, J, K, L, M, N> From<(A, B, C, D, E, F, G, H, I, J, K, L, M, N)> for Alt<IN, (A, B, C, D, E, F, G, H, I, J, K, L, M, N)> where
    A: Parser<IN, Out = OUT>,
    B: Parser<IN, Out = OUT>,
    C: Parser<IN, Out = OUT>,
    D: Parser<IN, Out = OUT>,
    E: Parser<IN, Out = OUT>,
    F: Parser<IN, Out = OUT>,
    G: Parser<IN, Out = OUT>,
    H: Parser<IN, Out = OUT>,
    I: Parser<IN, Out = OUT>,
    J: Parser<IN, Out = OUT>,
    K: Parser<IN, Out = OUT>,
    L: Parser<IN, Out = OUT>,
    M: Parser<IN, Out = OUT>,
    N: Parser<IN, Out = OUT>,
 {
    fn from(ps: (A, B, C, D, E, F, G, H, I, J, K, L, M, N)) -> (r: Self) {
        let r = Self { ps, _ghost: PhantomData };
        proof {
            lemma_alt_determined_by_parsers(r, ps);
        }
        r
    }
}

impl<IN: Clone, OUT, A, B, C, D, E, F, G, H, I, J, K, L, M, N> FromSpecImpl<(A, B, C, D, E, F, G, H, I, J, K, L, M, N)> for Alt<IN, (A, B, C, D, E, F, G, H, I, J, K, L, M, N)> where
    A: Parser<IN, Out = OUT>,
    B: Parser<IN, Out = OUT>,
    C: Parser<IN, Out = OUT>,
    D: Parser<IN, Out = OUT>,
    E: Parser<IN, Out = OUT>,
    F: Parser<IN, Out = OUT>,
    G: Parser<IN, Out = OUT>,
    H: Parser<IN, Out = OUT>,
    I: Parser<IN, Out = OUT>,
    J: Parser<IN, Out = OUT>,
    K: Parser<IN, Out = OUT>,
    L: Parser<IN, Out = OUT>,
    M: Parser<IN, Out = OUT>,
    N: Parser<IN, Out = OUT>,
 {
    open spec fn obeys_from_spec() -> bool {
        true
    }

    open spec fn from_spec(ps: (A, B, C, D, E, F, G, H, I, J, K, L, M, N)) -> Self {
        choose|a: Self| a.parsers() == ps
    }
}

/// An alternative of 14 parsers with one output type.
impl<IN: Clone, OUT, A, B, C, D, E, F, G, H, I, J, K, L, M, N> Parser<IN> for Alt<IN, (A, B, C, D, E, F, G, H, I, J, K, L, M, N)> where
    A: Parser<IN, Out = OUT>,
    B: Parser<IN, Out = OUT>,
    C: Parser<IN, Out = OUT>,
    D: Parser<IN, Out = OUT>,
    E: Parser<IN, Out = OUT>,
    F: Parser<IN, Out = OUT>,
    G: Parser<IN, Out = OUT>,
    H: Parser<IN, Out = OUT>,
    I: Parser<IN, Out = OUT>,
    J: Parser<IN, Out = OUT>,
    K: Parser<IN, Out = OUT>,
    L: Parser<IN, Out = OUT>,
    M: Parser<IN, Out = OUT>,
    N: Parser<IN, Out = OUT>,
 {
    type Out = OUT;

    type Error = (A::Error, B::Error, C::Error, D::Error, E::Error, F::Error, G::Error, H::Error, I::Error, J::Error, K::Error, L::Error, M::Error, N::Error);

    open spec fn parse_requires(&self, input: IN) -> bool {
        let ps = self.parsers();
        &&& accepts_clones(ps.0, input)
        &&& fails_on_clone(ps.0, input)
            ==> accepts_clones(ps.1, input)
        &&& fails_on_clone(ps.0, input)
            && fails_on_clone(ps.1, input)
            ==> accepts_clones(ps.2, input)
        &&& fails_on_clone(ps.0, input)
            && fails_on_clone(ps.1, input)
            && fails_on_clone(ps.2, input)
            ==> accepts_clones(ps.3, input)
        &&& fails_on_clone(ps.0, input)
            && fails_on_clone(ps.1, input)
            && fails_on_clone(ps.2, input)
            && fails_on_clone(ps.3, input)
            ==> accepts_clones(ps.4, input)
        &&& fails_on_clone(ps.0, input)
            && fails_on_clone(ps.1, input)
            && fails_on_clone(ps.2, input)
            && fails_on_clone(ps.3, input)
            && fails_on_clone(ps.4, input)
            ==> accepts_clones(ps.5, input)
        &&& fails_on_clone(ps.0, input)
            && fails_on_clone(ps.1, input)
            && fails_on_clone(ps.2, input)
            && fails_on_clone(ps.3, input)
            && fails_on_clone(ps.4, input)
            && fails_on_clone(ps.5, input)
            ==> accepts_clones(ps.6, input)
        &&& fails_on_clone(ps.0, input)
            && fails_on_clone(ps.1, input)
            && fails_on_clone(ps.2, input)
            && fails_on_clone(ps.3, input)
            && fails_on_clone(ps.4, input)
            && fails_on_clone(ps.5, input)
            && fails_on_clone(ps.6, input)
            ==> accepts_clones(ps.7, input)
        &&& fails_on_clone(ps.0, input)
            && fails_on_clone(ps.1, input)
            && fails_on_clone(ps.2, input)
            && fails_on_clone(ps.3, input)
            && fails_on_clone(ps.4, input)
            && fails_on_clone(ps.5, input)
            && fails_on_clone(ps.6, input)
            && fails_on_clone(ps.7, input)
            ==> accepts_clones(ps.8, input)
        &&& fails_on_clone(ps.0, input)
            && fails_on_clone(ps.1, input)
            && fails_on_clone(ps.2, input)
            && fails_on_clone(ps.3, input)
            && fails_on_clone(ps.4, input)
            && fails_on_clone(ps.5, input)
            && fails_on_clone(ps.6, input)
            && fails_on_clone(ps.7, input)
            && fails_on_clone(ps.8, input)
            ==> accepts_clones(ps.9, input)
        &&& fails_on_clone(ps.0, input)
            && fails_on_clone(ps.1, input)
            && fails_on_clone(ps.2, input)
            && fails_on_clone(ps.3, input)
            && fails_on_clone(ps.4, input)
            && fails_on_clone(ps.5, input)
            && fails_on_clone(ps.6, input)
            && fails_on_clone(ps.7, input)
            && fails_on_clone(ps.8, input)
            && fails_on_clone(ps.9, input)
            ==> accepts_clones(ps.10, input)
        &&& fails_on_clone(ps.0, input)
            && fails_on_clone(ps.1, input)
            && fails_on_clone(ps.2, input)
            && fails_on_clone(ps.3, input)
            && fails_on_clone(ps.4, input)
            && fails_on_clone(ps.5, input)
            && fails_on_clone(ps.6, input)
            && fails_on_clone(ps.7, input)
            && fails_on_clone(ps.8, input)
            && fails_on_clone(ps.9, input)
            && fails_on_clone(ps.10, input)
            ==> accepts_clones(ps.11, input)
        &&& fails_on_clone(ps.0, input)
            && fails_on_clone(ps.1, input)
            && fails_on_clone(ps.2, input)
            && fails_on_clone(ps.3, input)
            && fails_on_clone(ps.4, input)
            && fails_on_clone(ps.5, input)
            && fails_on_clone(ps.6, input)
            && fails_on_clone(ps.7, input)
            && fails_on_clone(ps.8, input)
            && fails_on_clone(ps.9, input)
            && fails_on_clone(ps.10, input)
            && fails_on_clone(ps.11, input)
            ==> accepts_clones(ps.12, input)
        &&& fails_on_clone(ps.0, input)
            && fails_on_clone(ps.1, input)
            && fails_on_clone(ps.2, input)
            && fails_on_clone(ps.3, input)
            && fails_on_clone(ps.4, input)
            && fails_on_clone(ps.5, input)
            && fails_on_clone(ps.6, input)
            && fails_on_clone(ps.7, input)
            && fails_on_clone(ps.8, input)
            && fails_on_clone(ps.9, input)
            && fails_on_clone(ps.10, input)
            && fails_on_clone(ps.11, input)
            && fails_on_clone(ps.12, input)
            ==> accepts_clones(ps.13, input)
    }

    open spec fn parse_ensures(&self, input: IN, res: Result<(OUT, IN), (A::Error, B::Error, C::Error, D::Error, E::Error, F::Error, G::Error, H::Error, I::Error, J::Error, K::Error, L::Error, M::Error, N::Error)>) -> bool {
        let ps = self.parsers();
        match res {
            Ok(x) => {
                ||| yields_on_clone(ps.0, input, Ok(x))
                ||| fails_on_clone(ps.0, input)
                    && yields_on_clone(ps.1, input, Ok(x))
                ||| fails_on_clone(ps.0, input)
                    && fails_on_clone(ps.1, input)
                    && yields_on_clone(ps.2, input, Ok(x))
                ||| fails_on_clone(ps.0, input)
                    && fails_on_clone(ps.1, input)
                    && fails_on_clone(ps.2, input)
                    && yields_on_clone(ps.3, input, Ok(x))
                ||| fails_on_clone(ps.0, input)
                    && fails_on_clone(ps.1, input)
                    && fails_on_clone(ps.2, input)
                    && fails_on_clone(ps.3, input)
                    && yields_on_clone(ps.4, input, Ok(x))
                ||| fails_on_clone(ps.0, input)
                    && fails_on_clone(ps.1, input)
                    && fails_on_clone(ps.2, input)
                    && fails_on_clone(ps.3, input)
                    && fails_on_clone(ps.4, input)
                    && yields_on_clone(ps.5, input, Ok(x))
                ||| fails_on_clone(ps.0, input)
                    && fails_on_clone(ps.1, input)
                    && fails_on_clone(ps.2, input)
                    && fails_on_clone(ps.3, input)
                    && fails_on_clone(ps.4, input)
                    && fails_on_clone(ps.5, input)
                    && yields_on_clone(ps.6, input, Ok(x))
                ||| fails_on_clone(ps.0, input)
                    && fails_on_clone(ps.1, input)
                    && fails_on_clone(ps.2, input)
                    && fails_on_clone(ps.3, input)
                    && fails_on_clone(ps.4, input)
                    && fails_on_clone(ps.5, input)
                    && fails_on_clone(ps.6, input)
                    && yields_on_clone(ps.7, input, Ok(x))
                ||| fails_on_clone(ps.0, input)
                    && fails_on_clone(ps.1, input)
                    && fails_on_clone(ps.2, input)
                    && fails_on_clone(ps.3, input)
                    && fails_on_clone(ps.4, input)
                    && fails_on_clone(ps.5, input)
                    && fails_on_clone(ps.6, input)
                    && fails_on_clone(ps.7, input)
                    && yields_on_clone(ps.8, input, Ok(x))
                ||| fails_on_clone(ps.0, input)
                    && fails_on_clone(ps.1, input)
                    && fails_on_clone(ps.2, input)
                    && fails_on_clone(ps.3, input)
                    && fails_on_clone(ps.4, input)
                    && fails_on_clone(ps.5, input)
                    && fails_on_clone(ps.6, input)
                    && fails_on_clone(ps.7, input)
                    && fails_on_clone(ps.8, input)
                    && yields_on_clone(ps.9, input, Ok(x))
                ||| fails_on_clone(ps.0, input)
                    && fails_on_clone(ps.1, input)
                    && fails_on_clone(ps.2, input)
                    && fails_on_clone(ps.3, input)
                    && fails_on_clone(ps.4, input)
                    && fails_on_clone(ps.5, input)
                    && fails_on_clone(ps.6, input)
                    && fails_on_clone(ps.7, input)
                    && fails_on_clone(ps.8, input)
                    && fails_on_clone(ps.9, input)
                    && yields_on_clone(ps.10, input, Ok(x))
                ||| fails_on_clone(ps.0, input)
                    && fails_on_clone(ps.1, input)
                    && fails_on_clone(ps.2, input)
                    && fails_on_clone(ps.3, input)
                    && fails_on_clone(ps.4, input)
                    && fails_on_clone(ps.5, input)
                    && fails_on_clone(ps.6, input)
                    && fails_on_clone(ps.7, input)
                    && fails_on_clone(ps.8, input)
                    && fails_on_clone(ps.9, input)
                    && fails_on_clone(ps.10, input)
                    && yields_on_clone(ps.11, input, Ok(x))
                ||| fails_on_clone(ps.0, input)
                    && fails_on_clone(ps.1, input)
                    && fails_on_clone(ps.2, input)
                    && fails_on_clone(ps.3, input)
                    && fails_on_clone(ps.4, input)
                    && fails_on_clone(ps.5, input)
                    && fails_on_clone(ps.6, input)
                    && fails_on_clone(ps.7, input)
                    && fails_on_clone(ps.8, input)
                    && fails_on_clone(ps.9, input)
                    && fails_on_clone(ps.10, input)
                    && fails_on_clone(ps.11, input)
                    && yields_on_clone(ps.12, input, Ok(x))
                ||| fails_on_clone(ps.0, input)
                    && fails_on_clone(ps.1, input)
                    && fails_on_clone(ps.2, input)
                    && fails_on_clone(ps.3, input)
                    && fails_on_clone(ps.4, input)
                    && fails_on_clone(ps.5, input)
                    && fails_on_clone(ps.6, input)
                    && fails_on_clone(ps.7, input)
                    && fails_on_clone(ps.8, input)
                    && fails_on_clone(ps.9, input)
                    && fails_on_clone(ps.10, input)
                    && fails_on_clone(ps.11, input)
                    && fails_on_clone(ps.12, input)
                    && yields_on_clone(ps.13, input, Ok(x))
            },
            Err((a, b, c, d, e, f, g, h, i, j, k, l, m, n)) => {
                &&& yields_on_clone(ps.0, input, Err(a))
                &&& yields_on_clone(ps.1, input, Err(b))
                &&& yields_on_clone(ps.2, input, Err(c))
                &&& yields_on_clone(ps.3, input, Err(d))
                &&& yields_on_clone(ps.4, input, Err(e))
                &&& yields_on_clone(ps.5, input, Err(f))
                &&& yields_on_clone(ps.6, input, Err(g))
                &&& yields_on_clone(ps.7, input, Err(h))
                &&& yields_on_clone(ps.8, input, Err(i))
                &&& yields_on_clone(ps.9, input, Err(j))
                &&& yields_on_clone(ps.10, input, Err(k))
                &&& yields_on_clone(ps.11, input, Err(l))
                &&& yields_on_clone(ps.12, input, Err(m))
                &&& yields_on_clone(ps.13, input, Err(n))
            },
        }
    }

    fn parse(&self, txt: IN) -> (res: Result<(OUT, IN), (A::Error, B::Error, C::Error, D::Error, E::Error, F::Error, G::Error, H::Error, I::Error, J::Error, K::Error, L::Error, M::Error, N::Error)>) {
        let c0 = txt.clone();
        let a = match self.ps.0.parse(c0) {
            Ok(r) => {
                assert(yields_on_clone(self.ps.0, txt, Ok(r)));
                return Ok(r);
            },
            Err(e) => e,
        };
        assert(yields_on_clone(self.ps.0, txt, Err(a)));
        let c1 = txt.clone();
        let b = match self.ps.1.parse(c1) {
            Ok(r) => {
                assert(yields_on_clone(self.ps.1, txt, Ok(r)));
                return Ok(r);
            },
            Err(e) => e,
        };
        assert(yields_on_clone(self.ps.1, txt, Err(b)));
        let c2 = txt.clone();
        let c = match self.ps.2.parse(c2) {
            Ok(r) => {
                assert(yields_on_clone(self.ps.2, txt, Ok(r)));
                return Ok(r);
            },
            Err(e) => e,
        };
        assert(yields_on_clone(self.ps.2, txt, Err(c)));
        let c3 = txt.clone();
        let d = match self.ps.3.parse(c3) {
            Ok(r) => {
                assert(yields_on_clone(self.ps.3, txt, Ok(r)));
                return Ok(r);
            },
            Err(e) => e,
        };
        assert(yields_on_clone(self.ps.3, txt, Err(d)));
        let c4 = txt.clone();
        let e = match self.ps.4.parse(c4) {
            Ok(r) => {
                assert(yields_on_clone(self.ps.4, txt, Ok(r)));
                return Ok(r);
            },
            Err(e) => e,
        };
        assert(yields_on_clone(self.ps.4, txt, Err(e)));
        let c5 = txt.clone();
        let f = match self.ps.5.parse(c5) {
            Ok(r) => {
                assert(yields_on_clone(self.ps.5, txt, Ok(r)));
                return Ok(r);
            },
            Err(e) => e,
        };
        assert(yields_on_clone(self.ps.5, txt, Err(f)));
        let c6 = txt.clone();
        let g = match self.ps.6.parse(c6) {
            Ok(r) => {
                assert(yields_on_clone(self.ps.6, txt, Ok(r)));
                return Ok(r);
            },
            Err(e) => e,
        };
        assert(yields_on_clone(self.ps.6, txt, Err(g)));
        let c7 = txt.clone();
        let h = match self.ps.7.parse(c7) {
            Ok(r) => {
                assert(yields_on_clone(self.ps.7, txt, Ok(r)));
                return Ok(r);
            },
            Err(e) => e,
        };
        assert(yields_on_clone(self.ps.7, txt, Err(h)));
        let c8 = txt.clone();
        let i = match self.ps.8.parse(c8) {
            Ok(r) => {
                assert(yields_on_clone(self.ps.8, txt, Ok(r)));
                return Ok(r);
            },
            Err(e) => e,
        };
        assert(yields_on_clone(self.ps.8, txt, Err(i)));
        let c9 = txt.clone();
        let j = match self.ps.9.parse(c9) {
            Ok(r) => {
                assert(yields_on_clone(self.ps.9, txt, Ok(r)));
                return Ok(r);
            },
            Err(e) => e,
        };
        assert(yields_on_clone(self.ps.9, txt, Err(j)));
        let c10 = txt.clone();
        let k = match self.ps.10.parse(c10) {
            Ok(r) => {
                assert(yields_on_clone(self.ps.10, txt, Ok(r)));
                return Ok(r);
            },
            Err(e) => e,
        };
        assert(yields_on_clone(self.ps.10, txt, Err(k)));
        let c11 = txt.clone();
        let l = match self.ps.11.parse(c11) {
            Ok(r) => {
                assert(yields_on_clone(self.ps.11, txt, Ok(r)));
                return Ok(r);
            },
            Err(e) => e,
        };
        assert(yields_on_clone(self.ps.11, txt, Err(l)));
        let c12 = txt.clone();
        let m = match self.ps.12.parse(c12) {
            Ok(r) => {
                assert(yields_on_clone(self.ps.12, txt, Ok(r)));
                return Ok(r);
            },
            Err(e) => e,
        };
        assert(yields_on_clone(self.ps.12, txt, Err(m)));
        let c13 = txt.clone();
        let n = match self.ps.13.parse(c13) {
            Ok(r) => {
                assert(yields_on_clone(self.ps.13, txt, Ok(r)));
                return Ok(r);
            },
            Err(e) => e,
        };
        assert(yields_on_clone(self.ps.13, txt, Err(n)));
        Err((a, b, c, d, e, f, g, h, i, j, k, l, m, n))
    }
}

/// Over inputs whose clones are equal, an alternative of 14 deterministic
/// parsers is deterministic.
pub proof fn lemma_alt14_deterministic<IN: Clone, OUT, A, B, C, D, E, F, G, H, I, J, K, L, M, N>(a: Alt<IN, (A, B, C, D, E, F, G, H, I, J, K, L, M, N)>)
    where
        A: Parser<IN, Out = OUT>,
        B: Parser<IN, Out = OUT>,
        C: Parser<IN, Out = OUT>,
        D: Parser<IN, Out = OUT>,
        E: Parser<IN, Out = OUT>,
        F: Parser<IN, Out = OUT>,
        G: Parser<IN, Out = OUT>,
        H: Parser<IN, Out = OUT>,
        I: Parser<IN, Out = OUT>,
        J: Parser<IN, Out = OUT>,
        K: Parser<IN, Out = OUT>,
        L: Parser<IN, Out = OUT>,
        M: Parser<IN, Out = OUT>,
        N: Parser<IN, Out = OUT>,
    requires
        clones_are_equal::<IN>(),
        deterministic::<IN, A>(a.parsers().0),
        deterministic::<IN, B>(a.parsers().1),
        deterministic::<IN, C>(a.parsers().2),
        deterministic::<IN, D>(a.parsers().3),
        deterministic::<IN, E>(a.parsers().4),
        deterministic::<IN, F>(a.parsers().5),
        deterministic::<IN, G>(a.parsers().6),
        deterministic::<IN, H>(a.parsers().7),
        deterministic::<IN, I>(a.parsers().8),
        deterministic::<IN, J>(a.parsers().9),
        deterministic::<IN, K>(a.parsers().10),
        deterministic::<IN, L>(a.parsers().11),
        deterministic::<IN, M>(a.parsers().12),
        deterministic::<IN, N>(a.parsers().13),
    ensures
        deterministic::<IN, Alt<IN, (A, B, C, D, E, F, G, H, I, J, K, L, M, N)>>(a),
{
    lemma_clones_are_transparent::<IN, A>(a.parsers().0);
    lemma_clones_are_transparent::<IN, B>(a.parsers().1);
    lemma_clones_are_transparent::<IN, C>(a.parsers().2);
    lemma_clones_are_transparent::<IN, D>(a.parsers().3);
    lemma_clones_are_transparent::<IN, E>(a.parsers().4);
    lemma_clones_are_transparent::<IN, F>(a.parsers().5);
    lemma_clones_are_transparent::<IN, G>(a.parsers().6);
    lemma_clones_are_transparent::<IN, H>(a.parsers().7);
    lemma_clones_are_transparent::<IN, I>(a.parsers().8);
    lemma_clones_are_transparent::<IN, J>(a.parsers().9);
    lemma_clones_are_transparent::<IN, K>(a.parsers().10);
    lemma_clones_are_transparent::<IN, L>(a.parsers().11);
    lemma_clones_are_transparent::<IN, M>(a.parsers().12);
    lemma_clones_are_transparent::<IN, N>(a.parsers().13);
}

impl<IN: Clone, OUT, A, B, C, D, E, F, G, H, I, J, K, L, M, N, O> From<(A, B, C, D, E, F, G, H, I, J, K, L, M, N, O)> for Alt<IN, (A, B, C, D, E, F, G, H, I, J, K, L, M, N, O)> where
    A: Parser<IN, Out = OUT>,
    B: Parser<IN, Out = OUT>,
    C: Parser<IN, Out = OUT>,
    D: Parser<IN, Out = OUT>,
    E: Parser<IN, Out = OUT>,
    F: Parser<IN, Out = OUT>,
    G: Parser<IN, Out = OUT>,
    H: Parser<IN, Out = OUT>,
    I: Parser<IN, Out = OUT>,
    J: Parser<IN, Out = OUT>,
    K: Parser<IN, Out = OUT>,
    L: Parser<IN, Out = OUT>,
    M: Parser<IN, Out = OUT>,
    N: Parser<IN, Out = OUT>,
    O: Parser<IN, Out = OUT>,
 {
    fn from(ps: (A, B, C, D, E, F, G, H, I, J, K, L, M, N, O)) -> (r: Self) {
        let r = Self { ps, _ghost: PhantomData };
        proof {
            lemma_alt_determined_by_parsers(r, ps);
        }
        r
    }
}

impl<IN: Clone, OUT, A, B, C, D, E, F, G, H, I, J, K, L, M, N, O> FromSpecImpl<(A, B, C, D, E, F, G, H, I, J, K, L, M, N, O)> for Alt<IN, (A, B, C, D, E, F, G, H, I, J, K, L, M, N, O)> where
    A: Parser<IN, Out = OUT>,
    B: Parser<IN, Out = OUT>,
    C: Parser<IN, Out = OUT>,
    D: Parser<IN, Out = OUT>,
    E: Parser<IN, Out = OUT>,
    F: Parser<IN, Out = OUT>,
    G: Parser<IN, Out = OUT>,
    H: Parser<IN, Out = OUT>,
    I: Parser<IN, Out = OUT>,
    J: Parser<IN, Out = OUT>,
    K: Parser<IN, Out = OUT>,
    L: Parser<IN, Out = OUT>,
    M: Parser<IN, Out = OUT>,
    N: Parser<IN, Out = OUT>,
    O: Parser<IN, Out = OUT>,
 {
    open spec fn obeys_from_spec() -> bool {
        true
    }

    open spec fn from_spec(ps: (A, B, C, D, E, F, G, H, I, J, K, L, M, N, O)) -> Self {
        choose|a: Self| a.parsers() == ps
    }
}

/// An alternative of 15 parsers with one output type.
impl<IN: Clone, OUT, A, B, C, D, E, F, G, H, I, J, K, L, M, N, O> Parser<IN> for Alt<IN, (A, B, C, D, E, F, G, H, I, J, K, L, M, N, O)> where
    A: Parser<IN, Out = OUT>,
    B: Parser<IN, Out = OUT>,
    C: Parser<IN, Out = OUT>,
    D: Parser<IN, Out = OUT>,
    E: Parser<IN, Out = OUT>,
    F: Parser<IN, Out = OUT>,
    G: Parser<IN, Out = OUT>,
    H: Parser<IN, Out = OUT>,
    I: Parser<IN, Out = OUT>,
    J: Parser<IN, Out = OUT>,
    K: Parser<IN, Out = OUT>,
    L: Parser<IN, Out = OUT>,
    M: Parser<IN, Out = OUT>,
    N: Parser<IN, Out = OUT>,
    O: Parser<IN, Out = OUT>,
 {
    type Out = OUT;

    type Error = (A::Error, B::Error, C::Error, D::Error, E::Error, F::Error, G::Error, H::Error, I::Error, J::Error, K::Error, L::Error, M::Error, N::Error, O::Error);

    open spec fn parse_requires(&self, input: IN) -> bool {
        let ps = self.parsers();
        &&& accepts_clones(ps.0, input)
        &&& fails_on_clone(ps.0, input)
            ==> accepts_clones(ps.1, input)
        &&& fails_on_clone(ps.0, input)
            && fails_on_clone(ps.1, input)
            ==> accepts_clones(ps.2, input)
        &&& fails_on_clone(ps.0, input)
            && fails_on_clone(ps.1, input)
            && fails_on_clone(ps.2, input)
            ==> accepts_clones(ps.3, input)
        &&& fails_on_clone(ps.0, input)
            && fails_on_clone(ps.1, input)
            && fails_on_clone(ps.2, input)
            && fails_on_clone(ps.3, input)
            ==> accepts_clones(ps.4, input)
        &&& fails_on_clone(ps.0, input)
            && fails_on_clone(ps.1, input)
            && fails_on_clone(ps.2, input)
            && fails_on_clone(ps.3, input)
            && fails_on_clone(ps.4, input)
            ==> accepts_clones(ps.5, input)
        &&& fails_on_clone(ps.0, input)
            && fails_on_clone(ps.1, input)
            && fails_on_clone(ps.2, input)
            && fails_on_clone(ps.3, input)
            && fails_on_clone(ps.4, input)
            && fails_on_clone(ps.5, input)
            ==> accepts_clones(ps.6, input)
        &&& fails_on_clone(ps.0, input)
            && fails_on_clone(ps.1, input)
            && fails_on_clone(ps.2, input)
            && fails_on_clone(ps.3, input)
            && fails_on_clone(ps.4, input)
            && fails_on_clone(ps.5, input)
            && fails_on_clone(ps.6, input)
            ==> accepts_clones(ps.7, input)
        &&& fails_on_clone(ps.0, input)
            && fails_on_clone(ps.1, input)
            && fails_on_clone(ps.2, input)
            && fails_on_clone(ps.3, input)
            && fails_on_clone(ps.4, input)
            && fails_on_clone(ps.5, input)
            && fails_on_clone(ps.6, input)
            && fails_on_clone(ps.7, input)
            ==> accepts_clones(ps.8, input)
        &&& fails_on_clone(ps.0, input)
            && fails_on_clone(ps.1, input)
            && fails_on_clone(ps.2, input)
            && fails_on_clone(ps.3, input)
            && fails_on_clone(ps.4, input)
            && fails_on_clone(ps.5, input)
            && fails_on_clone(ps.6, input)
            && fails_on_clone(ps.7, input)
            && fails_on_clone(ps.8, input)
            ==> accepts_clones(ps.9, input)
        &&& fails_on_clone(ps.0, input)
            && fails_on_clone(ps.1, input)
            && fails_on_clone(ps.2, input)
            && fails_on_clone(ps.3, input)
            && fails_on_clone(ps.4, input)
            && fails_on_clone(ps.5, input)
            && fails_on_clone(ps.6, input)
            && fails_on_clone(ps.7, input)
            && fails_on_clone(ps.8, input)
            && fails_on_clone(ps.9, input)
            ==> accepts_clones(ps.10, input)
        &&& fails_on_clone(ps.0, input)
            && fails_on_clone(ps.1, input)
            && fails_on_clone(ps.2, input)
            && fails_on_clone(ps.3, input)
            && fails_on_clone(ps.4, input)
            && fails_on_clone(ps.5, input)
            && fails_on_clone(ps.6, input)
            && fails_on_clone(ps.7, input)
            && fails_on_clone(ps.8, input)
            && fails_on_clone(ps.9, input)
            && fails_on_clone(ps.10, input)
            ==> accepts_clones(ps.11, input)
        &&& fails_on_clone(ps.0, input)
            && fails_on_clone(ps.1, input)
            && fails_on_clone(ps.2, input)
            && fails_on_clone(ps.3, input)
            && fails_on_clone(ps.4, input)
            && fails_on_clone(ps.5, input)
            && fails_on_clone(ps.6, input)
            && fails_on_clone(ps.7, input)
            && fails_on_clone(ps.8, input)
            && fails_on_clone(ps.9, input)
            && fails_on_clone(ps.10, input)
            && fails_on_clone(ps.11, input)
            ==> accepts_clones(ps.12, input)
        &&& fails_on_clone(ps.0, input)
            && fails_on_clone(ps.1, input)
            && fails_on_clone(ps.2, input)
            && fails_on_clone(ps.3, input)
            && fails_on_clone(ps.4, input)
            && fails_on_clone(ps.5, input)
            && fails_on_clone(ps.6, input)
            && fails_on_clone(ps.7, input)
            && fails_on_clone(ps.8, input)
            && fails_on_clone(ps.9, input)
            && fails_on_clone(ps.10, input)
            && fails_on_clone(ps.11, input)
            && fails_on_clone(ps.12, input)
            ==> accepts_clones(ps.13, input)
        &&& fails_on_clone(ps.0, input)
            && fails_on_clone(ps.1, input)
            && fails_on_clone(ps.2, input)
            && fails_on_clone(ps.3, input)
            && fails_on_clone(ps.4, input)
            && fails_on_clone(ps.5, input)
            && fails_on_clone(ps.6, input)
            && fails_on_clone(ps.7, input)
            && fails_on_clone(ps.8, input)
            && fails_on_clone(ps.9, input)
            && fails_on_clone(ps.10, input)
            && fails_on_clone(ps.11, input)
            && fails_on_clone(ps.12, input)
            && fails_on_clone(ps.13, input)
            ==> accepts_clones(ps.14, input)
    }

    open spec fn parse_ensures(&self, input: IN, res: Result<(OUT, IN), (A::Error, B::Error, C::Error, D::Error, E::Error, F::Error, G::Error, H::Error, I::Error, J::Error, K::Error, L::Error, M::Error, N::Error, O::Error)>) -> bool {
        let ps = self.parsers();
        match res {
            Ok(x) => {
                ||| yields_on_clone(ps.0, input, Ok(x))
                ||| fails_on_clone(ps.0, input)
                    && yields_on_clone(ps.1, input, Ok(x))
                ||| fails_on_clone(ps.0, input)
                    && fails_on_clone(ps.1, input)
                    && yields_on_clone(ps.2, input, Ok(x))
                ||| fails_on_clone(ps.0, input)
                    && fails_on_clone(ps.1, input)
                    && fails_on_clone(ps.2, input)
                    && yields_on_clone(ps.3, input, Ok(x))
                ||| fails_on_clone(ps.0, input)
                    && fails_on_clone(ps.1, input)
                    && fails_on_clone(ps.2, input)
                    && fails_on_clone(ps.3, input)
                    && yields_on_clone(ps.4, input, Ok(x))
                ||| fails_on_clone(ps.0, input)
                    && fails_on_clone(ps.1, input)
                    && fails_on_clone(ps.2, input)
                    && fails_on_clone(ps.3, input)
                    && fails_on_clone(ps.4, input)
                    && yields_on_clone(ps.5, input, Ok(x))
                ||| fails_on_clone(ps.0, input)
                    && fails_on_clone(ps.1, input)
                    && fails_on_clone(ps.2, input)
                    && fails_on_clone(ps.3, input)
                    && fails_on_clone(ps.4, input)
                    && fails_on_clone(ps.5, input)
                    && yields_on_clone(ps.6, input, Ok(x))
                ||| fails_on_clone(ps.0, input)
                    && fails_on_clone(ps.1, input)
                    && fails_on_clone(ps.2, input)
                    && fails_on_clone(ps.3, input)
                    && fails_on_clone(ps.4, input)
                    && fails_on_clone(ps.5, input)
                    && fails_on_clone(ps.6, input)
                    && yields_on_clone(ps.7, input, Ok(x))
                ||| fails_on_clone(ps.0, input)
                    && fails_on_clone(ps.1, input)
                    && fails_on_clone(ps.2, input)
                    && fails_on_clone(ps.3, input)
                    && fails_on_clone(ps.4, input)
                    && fails_on_clone(ps.5, input)
                    && fails_on_clone(ps.6, input)
                    && fails_on_clone(ps.7, input)
                    && yields_on_clone(ps.8, input, Ok(x))
                ||| fails_on_clone(ps.0, input)
                    && fails_on_clone(ps.1, input)
                    && fails_on_clone(ps.2, input)
                    && fails_on_clone(ps.3, input)
                    && fails_on_clone(ps.4, input)
                    && fails_on_clone(ps.5, input)
                    && fails_on_clone(ps.6, input)
                    && fails_on_clone(ps.7, input)
                    && fails_on_clone(ps.8, input)
                    && yields_on_clone(ps.9, input, Ok(x))
                ||| fails_on_clone(ps.0, input)
                    && fails_on_clone(ps.1, input)
                    && fails_on_clone(ps.2, input)
                    && fails_on_clone(ps.3, input)
                    && fails_on_clone(ps.4, input)
                    && fails_on_clone(ps.5, input)
                    && fails_on_clone(ps.6, input)
                    && fails_on_clone(ps.7, input)
                    && fails_on_clone(ps.8, input)
                    && fails_on_clone(ps.9, input)
                    && yields_on_clone(ps.10, input, Ok(x))
                ||| fails_on_clone(ps.0, input)
                    && fails_on_clone(ps.1, input)
                    && fails_on_clone(ps.2, input)
                    && fails_on_clone(ps.3, input)
                    && fails_on_clone(ps.4, input)
                    && fails_on_clone(ps.5, input)
                    && fails_on_clone(ps.6, input)
                    && fails_on_clone(ps.7, input)
                    && fails_on_clone(ps.8, input)
                    && fails_on_clone(ps.9, input)
                    && fails_on_clone(ps.10, input)
                    && yields_on_clone(ps.11, input, Ok(x))
                ||| fails_on_clone(ps.0, input)
                    && fails_on_clone(ps.1, input)
                    && fails_on_clone(ps.2, input)
                    && fails_on_clone(ps.3, input)
                    && fails_on_clone(ps.4, input)
                    && fails_on_clone(ps.5, input)
                    && fails_on_clone(ps.6, input)
                    && fails_on_clone(ps.7, input)
                    && fails_on_clone(ps.8, input)
                    && fails_on_clone(ps.9, input)
                    && fails_on_clone(ps.10, input)
                    && fails_on_clone(ps.11, input)
                    && yields_on_clone(ps.12, input, Ok(x))
                ||| fails_on_clone(ps.0, input)
                    && fails_on_clone(ps.1, input)
                    && fails_on_clone(ps.2, input)
                    && fails_on_clone(ps.3, input)
                    && fails_on_clone(ps.4, input)
                    && fails_on_clone(ps.5, input)
                    && fails_on_clone(ps.6, input)
                    && fails_on_clone(ps.7, input)
                    && fails_on_clone(ps.8, input)
                    && fails_on_clone(ps.9, input)
                    && fails_on_clone(ps.10, input)
                    && fails_on_clone(ps.11, input)
                    && fails_on_clone(ps.12, input)
                    && yields_on_clone(ps.13, input, Ok(x))
                ||| fails_on_clone(ps.0, input)
                    && fails_on_clone(ps.1, input)
                    && fails_on_clone(ps.2, input)
                    && fails_on_clone(ps.3, input)
                    && fails_on_clone(ps.4, input)
                    && fails_on_clone(ps.5, input)
                    && fails_on_clone(ps.6, input)
                    && fails_on_clone(ps.7, input)
                    && fails_on_clone(ps.8, input)
                    && fails_on_clone(ps.9, input)
                    && fails_on_clone(ps.10, input)
                    && fails_on_clone(ps.11, input)
                    && fails_on_clone(ps.12, input)
                    && fails_on_clone(ps.13, input)
                    && yields_on_clone(ps.14, input, Ok(x))
            },
            Err((a, b, c, d, e, f, g, h, i, j, k, l, m, n, o)) => {
                &&& yields_on_clone(ps.0, input, Err(a))
                &&& yields_on_clone(ps.1, input, Err(b))
                &&& yields_on_clone(ps.2, input, Err(c))
                &&& yields_on_clone(ps.3, input, Err(d))
                &&& yields_on_clone(ps.4, input, Err(e))
                &&& yields_on_clone(ps.5, input, Err(f))
                &&& yields_on_clone(ps.6, input, Err(g))
                &&& yields_on_clone(ps.7, input, Err(h))
                &&& yields_on_clone(ps.8, input, Err(i))
                &&& yields_on_clone(ps.9, input, Err(j))
                &&& yields_on_clone(ps.10, input, Err(k))
                &&& yields_on_clone(ps.11, input, Err(l))
                &&& yields_on_clone(ps.12, input, Err(m))
                &&& yields_on_clone(ps.13, input, Err(n))
                &&& yields_on_clone(ps.14, input, Err(o))
            },
        }
    }

    fn parse(&self, txt: IN) -> (res: Result<(OUT, IN), (A::Error, B::Error, C::Error, D::Error, E::Error, F::Error, G::Error, H::Error, I::Error, J::Error, K::Error, L::Error, M::Error, N::Error, O::Error)>) {
        let c0 = txt.clone();
        let a = match self.ps.0.parse(c0) {
            Ok(r) => {
                assert(yields_on_clone(self.ps.0, txt, Ok(r)));
                return Ok(r);
            },
            Err(e) => e,
        };
        assert(yields_on_clone(self.ps.0, txt, Err(a)));
        let c1 = txt.clone();
        let b = match self.ps.1.parse(c1) {
            Ok(r) => {
                assert(yields_on_clone(self.ps.1, txt, Ok(r)));
                return Ok(r);
            },
            Err(e) => e,
        };
        assert(yields_on_clone(self.ps.1, txt, Err(b)));
        let c2 = txt.clone();
        let c = match self.ps.2.parse(c2) {
            Ok(r) => {
                assert(yields_on_clone(self.ps.2, txt, Ok(r)));
                return Ok(r);
            },
            Err(e) => e,
        };
        assert(yields_on_clone(self.ps.2, txt, Err(c)));
        let c3 = txt.clone();
        let d = match self.ps.3.parse(c3) {
            Ok(r) => {
                assert(yields_on_clone(self.ps.3, txt, Ok(r)));
                return Ok(r);
            },
            Err(e) => e,
        };
        assert(yields_on_clone(self.ps.3, txt, Err(d)));
        let c4 = txt.clone();
        let e = match self.ps.4.parse(c4) {
            Ok(r) => {
                assert(yields_on_clone(self.ps.4, txt, Ok(r)));
                return Ok(r);
            },
            Err(e) => e,
        };
        assert(yields_on_clone(self.ps.4, txt, Err(e)));
        let c5 = txt.clone();
        let f = match self.ps.5.parse(c5) {
            Ok(r) => {
                assert(yields_on_clone(self.ps.5, txt, Ok(r)));
                return Ok(r);
            },
            Err(e) => e,
        };
        assert(yields_on_clone(self.ps.5, txt, Err(f)));
        let c6 = txt.clone();
        let g = match self.ps.6.parse(c6) {
            Ok(r) => {
                assert(yields_on_clone(self.ps.6, txt, Ok(r)));
                return Ok(r);
            },
            Err(e) => e,
        };
        assert(yields_on_clone(self.ps.6, txt, Err(g)));
        let c7 = txt.clone();
        let h = match self.ps.7.parse(c7) {
            Ok(r) => {
                assert(yields_on_clone(self.ps.7, txt, Ok(r)));
                return Ok(r);
            },
            Err(e) => e,
        };
        assert(yields_on_clone(self.ps.7, txt, Err(h)));
        let c8 = txt.clone();
        let i = match self.ps.8.parse(c8) {
            Ok(r) => {
                assert(yields_on_clone(self.ps.8, txt, Ok(r)));
                return Ok(r);
            },
            Err(e) => e,
        };
        assert(yields_on_clone(self.ps.8, txt, Err(i)));
        let c9 = txt.clone();
        let j = match self.ps.9.parse(c9) {
            Ok(r) => {
                assert(yields_on_clone(self.ps.9, txt, Ok(r)));
                return Ok(r);
            },
            Err(e) => e,
        };
        assert(yields_on_clone(self.ps.9, txt, Err(j)));
        let c10 = txt.clone();
        let k = match self.ps.10.parse(c10) {
            Ok(r) => {
                assert(yields_on_clone(self.ps.10, txt, Ok(r)));
                return Ok(r);
            },
            Err(e) => e,
        };
        assert(yields_on_clone(self.ps.10, txt, Err(k)));
        let c11 = txt.clone();
        let l = match self.ps.11.parse(c11) {
            Ok(r) => {
                assert(yields_on_clone(self.ps.11, txt, Ok(r)));
                return Ok(r);
            },
            Err(e) => e,
        };
        assert(yields_on_clone(self.ps.11, txt, Err(l)));
        let c12 = txt.clone();
        let m = match self.ps.12.parse(c12) {
            Ok(r) => {
                assert(yields_on_clone(self.ps.12, txt, Ok(r)));
                return Ok(r);
            },
            Err(e) => e,
        };
        assert(yields_on_clone(self.ps.12, txt, Err(m)));
        let c13 = txt.clone();
        let n = match self.ps.13.parse(c13) {
            Ok(r) => {
                assert(yields_on_clone(self.ps.13, txt, Ok(r)));
                return Ok(r);
            },
            Err(e) => e,
        };
        assert(yields_on_clone(self.ps.13, txt, Err(n)));
        let c14 = txt.clone();
        let o = match self.ps.14.parse(c14) {
            Ok(r) => {
                assert(yields_on_clone(self.ps.14, txt, Ok(r)));
                return Ok(r);
            },
            Err(e) => e,
        };
        assert(yields_on_clone(self.ps.14, txt, Err(o)));
        Err((a, b, c, d, e, f, g, h, i, j, k, l, m, n, o))
    }
}

/// Over inputs whose clones are equal, an alternative of 15 deterministic
/// parsers is deterministic.
pub proof fn lemma_alt15_deterministic<IN: Clone, OUT, A, B, C, D, E, F, G, H, I, J, K, L, M, N, O>(a: Alt<IN, (A, B, C, D, E, F, G, H, I, J, K, L, M, N, O)>)
    where
        A: Parser<IN, Out = OUT>,
        B: Parser<IN, Out = OUT>,
        C: Parser<IN, Out = OUT>,
        D: Parser<IN, Out = OUT>,
        E: Parser<IN, Out = OUT>,
        F: Parser<IN, Out = OUT>,
        G: Parser<IN, Out = OUT>,
        H: Parser<IN, Out = OUT>,
        I: Parser<IN, Out = OUT>,
        J: Parser<IN, Out = OUT>,
        K: Parser<IN, Out = OUT>,
        L: Parser<IN, Out = OUT>,
        M: Parser<IN, Out = OUT>,
        N: Parser<IN, Out = OUT>,
        O: Parser<IN, Out = OUT>,
    requires
        clones_are_equal::<IN>(),
        deterministic::<IN, A>(a.parsers().0),
        deterministic::<IN, B>(a.parsers().1),
        deterministic::<IN, C>(a.parsers().2),
        deterministic::<IN, D>(a.parsers().3),
        deterministic::<IN, E>(a.parsers().4),
        deterministic::<IN, F>(a.parsers().5),
        deterministic::<IN, G>(a.parsers().6),
        deterministic::<IN, H>(a.parsers().7),
        deterministic::<IN, I>(a.parsers().8),
        deterministic::<IN, J>(a.parsers().9),
        deterministic::<IN, K>(a.parsers().10),
        deterministic::<IN, L>(a.parsers().11),
        deterministic::<IN, M>(a.parsers().12),
        deterministic::<IN, N>(a.parsers().13),
        deterministic::<IN, O>(a.parsers().14),
    ensures
        deterministic::<IN, Alt<IN, (A, B, C, D, E, F, G, H, I, J, K, L, M, N, O)>>(a),
{
    lemma_clones_are_transparent::<IN, A>(a.parsers().0);
    lemma_clones_are_transparent::<IN, B>(a.parsers().1);
    lemma_clones_are_transparent::<IN, C>(a.parsers().2);
    lemma_clones_are_transparent::<IN, D>(a.parsers().3);
    lemma_clones_are_transparent::<IN, E>(a.parsers().4);
    lemma_clones_are_transparent::<IN, F>(a.parsers().5);
    lemma_clones_are_transparent::<IN, G>(a.parsers().6);
    lemma_clones_are_transparent::<IN, H>(a.parsers().7);
    lemma_clones_are_transparent::<IN, I>(a.parsers().8);
    lemma_clones_are_transparent::<IN, J>(a.parsers().9);
    lemma_clones_are_transparent::<IN, K>(a.parsers().10);
    lemma_clones_are_transparent::<IN, L>(a.parsers().11);
    lemma_clones_are_transparent::<IN, M>(a.parsers().12);
    lemma_clones_are_transparent::<IN, N>(a.parsers().13);
    lemma_clones_are_transparent::<IN, O>(a.parsers().14);
}

impl<IN: Clone, OUT, A, B, C, D, E, F, G, H, I, J, K, L, M, N, O, P> From<(A, B, C, D, E, F, G, H, I, J, K, L, M, N, O, P)> for Alt<IN, (A, B, C, D, E, F, G, H, I, J, K, L, M, N, O, P)> where
    A: Parser<IN, Out = OUT>,
    B: Parser<IN, Out = OUT>,
    C: Parser<IN, Out = OUT>,
    D: Parser<IN, Out = OUT>,
    E: Parser<IN, Out = OUT>,
    F: Parser<IN, Out = OUT>,
    G: Parser<IN, Out = OUT>,
    H: Parser<IN, Out = OUT>,
    I: Parser<IN, Out = OUT>,
    J: Parser<IN, Out = OUT>,
    K: Parser<IN, Out = OUT>,
    L: Parser<IN, Out = OUT>,
    M: Parser<IN, Out = OUT>,
    N: Parser<IN, Out = OUT>,
    O: Parser<IN, Out = OUT>,
    P: Parser<IN, Out = OUT>,
 {
    fn from(ps: (A, B, C, D, E, F, G, H, I, J, K, L, M, N, O, P)) -> (r: Self) {
        let r = Self { ps, _ghost: PhantomData };
        proof {
            lemma_alt_determined_by_parsers(r, ps);
        }
        r
    }
}

impl<IN: Clone, OUT, A, B, C, D, E, F, G, H, I, J, K, L, M, N, O, P> FromSpecImpl<(A, B, C, D, E, F, G, H, I, J, K, L, M, N, O, P)> for Alt<IN, (A, B, C, D, E, F, G, H, I, J, K, L, M, N, O, P)> where
    A: Parser<IN, Out = OUT>,
    B: Parser<IN, Out = OUT>,
    C: Parser<IN, Out = OUT>,
    D: Parser<IN, Out = OUT>,
    E: Parser<IN, Out = OUT>,
    F: Parser<IN, Out = OUT>,
    G: Parser<IN, Out = OUT>,
    H: Parser<IN, Out = OUT>,
    I: Parser<IN, Out = OUT>,
    J: Parser<IN, Out = OUT>,
    K: Parser<IN, Out = OUT>,
    L: Parser<IN, Out = OUT>,
    M: Parser<IN, Out = OUT>,
    N: Parser<IN, Out = OUT>,
    O: Parser<IN, Out = OUT>,
    P: Parser<IN, Out = OUT>,
 {
    open spec fn obeys_from_spec() -> bool {
        true
    }

    open spec fn from_spec(ps: (A, B, C, D, E, F, G, H, I, J, K, L, M, N, O, P)) -> Self {
        choose|a: Self| a.parsers() == ps
    }
}

/// An alternative of 16 parsers with one output type.
impl<IN: Clone, OUT, A, B, C, D, E, F, G, H, I, J, K, L, M, N, O, P> Parser<IN> for Alt<IN, (A, B, C, D, E, F, G, H, I, J, K, L, M, N, O, P)> where
    A: Parser<IN, Out = OUT>,
    B: Parser<IN, Out = OUT>,
    C: Parser<IN, Out = OUT>,
    D: Parser<IN, Out = OUT>,
    E: Parser<IN, Out = OUT>,
    F: Parser<IN, Out = OUT>,
    G: Parser<IN, Out = OUT>,
    H: Parser<IN, Out = OUT>,
    I: Parser<IN, Out = OUT>,
    J: Parser<IN, Out = OUT>,
    K: Parser<IN, Out = OUT>,
    L: Parser<IN, Out = OUT>,
    M: Parser<IN, Out = OUT>,
    N: Parser<IN, Out = OUT>,
    O: Parser<IN, Out = OUT>,
    P: Parser<IN, Out = OUT>,
 {
    type Out = OUT;

    type Error = (A::Error, B::Error, C::Error, D::Error, E::Error, F::Error, G::Error, H::Error, I::Error, J::Error, K::Error, L::Error, M::Error, N::Error, O::Error, P::Error);

    open spec fn parse_requires(&self, input: IN) -> bool {
        let ps = self.parsers();
        &&& accepts_clones(ps.0, input)
        &&& fails_on_clone(ps.0, input)
            ==> accepts_clones(ps.1, input)
        &&& fails_on_clone(ps.0, input)
            && fails_on_clone(ps.1, input)
            ==> accepts_clones(ps.2, input)
        &&& fails_on_clone(ps.0, input)
            && fails_on_clone(ps.1, input)
            && fails_on_clone(ps.2, input)
            ==> accepts_clones(ps.3, input)
        &&& fails_on_clone(ps.0, input)
            && fails_on_clone(ps.1, input)
            && fails_on_clone(ps.2, input)
            && fails_on_clone(ps.3, input)
            ==> accepts_clones(ps.4, input)
        &&& fails_on_clone(ps.0, input)
            && fails_on_clone(ps.1, input)
            && fails_on_clone(ps.2, input)
            && fails_on_clone(ps.3, input)
            && fails_on_clone(ps.4, input)
            ==> accepts_clones(ps.5, input)
        &&& fails_on_clone(ps.0, input)
            && fails_on_clone(ps.1, input)
            && fails_on_clone(ps.2, input)
            && fails_on_clone(ps.3, input)
            && fails_on_clone(ps.4, input)
            && fails_on_clone(ps.5, input)
            ==> accepts_clones(ps.6, input)
        &&& fails_on_clone(ps.0, input)
            && fails_on_clone(ps.1, input)
            && fails_on_clone(ps.2, input)
            && fails_on_clone(ps.3, input)
            && fails_on_clone(ps.4, input)
            && fails_on_clone(ps.5, input)
            && fails_on_clone(ps.6, input)
            ==> accepts_clones(ps.7, input)
        &&& fails_on_clone(ps.0, input)
            && fails_on_clone(ps.1, input)
            && fails_on_clone(ps.2, input)
            && fails_on_clone(ps.3, input)
            && fails_on_clone(ps.4, input)
            && fails_on_clone(ps.5, input)
            && fails_on_clone(ps.6, input)
            && fails_on_clone(ps.7, input)
            ==> accepts_clones(ps.8, input)
        &&& fails_on_clone(ps.0, input)
            && fails_on_clone(ps.1, input)
            && fails_on_clone(ps.2, input)
            && fails_on_clone(ps.3, input)
            && fails_on_clone(ps.4, input)
            && fails_on_clone(ps.5, input)
            && fails_on_clone(ps.6, input)
            && fails_on_clone(ps.7, input)
            && fails_on_clone(ps.8, input)
            ==> accepts_clones(ps.9, input)
        &&& fails_on_clone(ps.0, input)
            && fails_on_clone(ps.1, input)
            && fails_on_clone(ps.2, input)
            && fails_on_clone(ps.3, input)
            && fails_on_clone(ps.4, input)
            && fails_on_clone(ps.5, input)
            && fails_on_clone(ps.6, input)
            && fails_on_clone(ps.7, input)
            && fails_on_clone(ps.8, input)
            && fails_on_clone(ps.9, input)
            ==> accepts_clones(ps.10, input)
        &&& fails_on_clone(ps.0, input)
            && fails_on_clone(ps.1, input)
            && fails_on_clone(ps.2, input)
            && fails_on_clone(ps.3, input)
            && fails_on_clone(ps.4, input)
            && fails_on_clone(ps.5, input)
            && fails_on_clone(ps.6, input)
            && fails_on_clone(ps.7, input)
            && fails_on_clone(ps.8, input)
            && fails_on_clone(ps.9, input)
            && fails_on_clone(ps.10, input)
            ==> accepts_clones(ps.11, input)
        &&& fails_on_clone(ps.0, input)
            && fails_on_clone(ps.1, input)
            && fails_on_clone(ps.2, input)
            && fails_on_clone(ps.3, input)
            && fails_on_clone(ps.4, input)
            && fails_on_clone(ps.5, input)
            && fails_on_clone(ps.6, input)
            && fails_on_clone(ps.7, input)
            && fails_on_clone(ps.8, input)
            && fails_on_clone(ps.9, input)
            && fails_on_clone(ps.10, input)
            && fails_on_clone(ps.11, input)
            ==> accepts_clones(ps.12, input)
        &&& fails_on_clone(ps.0, input)
            && fails_on_clone(ps.1, input)
            && fails_on_clone(ps.2, input)
            && fails_on_clone(ps.3, input)
            && fails_on_clone(ps.4, input)
            && fails_on_clone(ps.5, input)
            && fails_on_clone(ps.6, input)
            && fails_on_clone(ps.7, input)
            && fails_on_clone(ps.8, input)
            && fails_on_clone(ps.9, input)
            && fails_on_clone(ps.10, input)
            && fails_on_clone(ps.11, input)
            && fails_on_clone(ps.12, input)
            ==> accepts_clones(ps.13, input)
        &&& fails_on_clone(ps.0, input)
            && fails_on_clone(ps.1, input)
            && fails_on_clone(ps.2, input)
            && fails_on_clone(ps.3, input)
            && fails_on_clone(ps.4, input)
            && fails_on_clone(ps.5, input)
            && fails_on_clone(ps.6, input)
            && fails_on_clone(ps.7, input)
            && fails_on_clone(ps.8, input)
            && fails_on_clone(ps.9, input)
            && fails_on_clone(ps.10, input)
            && fails_on_clone(ps.11, input)
            && fails_on_clone(ps.12, input)
            && fails_on_clone(ps.13, input)
            ==> accepts_clones(ps.14, input)
        &&& fails_on_clone(ps.0, input)
            && fails_on_clone(ps.1, input)
            && fails_on_clone(ps.2, input)
            && fails_on_clone(ps.3, input)
            && fails_on_clone(ps.4, input)
            && fails_on_clone(ps.5, input)
            && fails_on_clone(ps.6, input)
            && fails_on_clone(ps.7, input)
            && fails_on_clone(ps.8, input)
            && fails_on_clone(ps.9, input)
            && fails_on_clone(ps.10, input)
            && fails_on_clone(ps.11, input)
            && fails_on_clone(ps.12, input)
            && fails_on_clone(ps.13, input)
            && fails_on_clone(ps.14, input)
            ==> accepts_clones(ps.15, input)
    }

    open spec fn parse_ensures(&self, input: IN, res: Result<(OUT, IN), (A::Error, B::Error, C::Error, D::Error, E::Error, F::Error, G::Error, H::Error, I::Error, J::Error, K::Error, L::Error, M::Error, N::Error, O::Error, P::Error)>) -> bool {
        let ps = self.parsers();
        match res {
            Ok(x) => {
                ||| yields_on_clone(ps.0, input, Ok(x))
                ||| fails_on_clone(ps.0, input)
                    && yields_on_clone(ps.1, input, Ok(x))
                ||| fails_on_clone(ps.0, input)
                    && fails_on_clone(ps.1, input)
                    && yields_on_clone(ps.2, input, Ok(x))
                ||| fails_on_clone(ps.0, input)
                    && fails_on_clone(ps.1, input)
                    && fails_on_clone(ps.2, input)
                    && yields_on_clone(ps.3, input, Ok(x))
                ||| fails_on_clone(ps.0, input)
                    && fails_on_clone(ps.1, input)
                    && fails_on_clone(ps.2, input)
                    && fails_on_clone(ps.3, input)
                    && yields_on_clone(ps.4, input, Ok(x))
                ||| fails_on_clone(ps.0, input)
                    && fails_on_clone(ps.1, input)
                    && fails_on_clone(ps.2, input)
                    && fails_on_clone(ps.3, input)
                    && fails_on_clone(ps.4, input)
                    && yields_on_clone(ps.5, input, Ok(x))
                ||| fails_on_clone(ps.0, input)
                    && fails_on_clone(ps.1, input)
                    && fails_on_clone(ps.2, input)
                    && fails_on_clone(ps.3, input)
                    && fails_on_clone(ps.4, input)
                    && fails_on_clone(ps.5, input)
                    && yields_on_clone(ps.6, input, Ok(x))
                ||| fails_on_clone(ps.0, input)
                    && fails_on_clone(ps.1, input)
                    && fails_on_clone(ps.2, input)
                    && fails_on_clone(ps.3, input)
                    && fails_on_clone(ps.4, input)
                    && fails_on_clone(ps.5, input)
                    && fails_on_clone(ps.6, input)
                    && yields_on_clone(ps.7, input, Ok(x))
                ||| fails_on_clone(ps.0, input)
                    && fails_on_clone(ps.1, input)
                    && fails_on_clone(ps.2, input)
                    && fails_on_clone(ps.3, input)
                    && fails_on_clone(ps.4, input)
                    && fails_on_clone(ps.5, input)
                    && fails_on_clone(ps.6, input)
                    && fails_on_clone(ps.7, input)
                    && yields_on_clone(ps.8, input, Ok(x))
                ||| fails_on_clone(ps.0, input)
                    && fails_on_clone(ps.1, input)
                    && fails_on_clone(ps.2, input)
                    && fails_on_clone(ps.3, input)
                    && fails_on_clone(ps.4, input)
                    && fails_on_clone(ps.5, input)
                    && fails_on_clone(ps.6, input)
                    && fails_on_clone(ps.7, input)
                    && fails_on_clone(ps.8, input)
                    && yields_on_clone(ps.9, input, Ok(x))
                ||| fails_on_clone(ps.0, input)
                    && fails_on_clone(ps.1, input)
                    && fails_on_clone(ps.2, input)
                    && fails_on_clone(ps.3, input)
                    && fails_on_clone(ps.4, input)
                    && fails_on_clone(ps.5, input)
                    && fails_on_clone(ps.6, input)
                    && fails_on_clone(ps.7, input)
                    && fails_on_clone(ps.8, input)
                    && fails_on_clone(ps.9, input)
                    && yields_on_clone(ps.10, input, Ok(x))
                ||| fails_on_clone(ps.0, input)
                    && fails_on_clone(ps.1, input)
                    && fails_on_clone(ps.2, input)
                    && fails_on_clone(ps.3, input)
                    && fails_on_clone(ps.4, input)
                    && fails_on_clone(ps.5, input)
                    && fails_on_clone(ps.6, input)
                    && fails_on_clone(ps.7, input)
                    && fails_on_clone(ps.8, input)
                    && fails_on_clone(ps.9, input)
                    && fails_on_clone(ps.10, input)
                    && yields_on_clone(ps.11, input, Ok(x))
                ||| fails_on_clone(ps.0, input)
                    && fails_on_clone(ps.1, input)
                    && fails_on_clone(ps.2, input)
                    && fails_on_clone(ps.3, input)
                    && fails_on_clone(ps.4, input)
                    && fails_on_clone(ps.5, input)
                    && fails_on_clone(ps.6, input)
                    && fails_on_clone(ps.7, input)
                    && fails_on_clone(ps.8, input)
                    && fails_on_clone(ps.9, input)
                    && fails_on_clone(ps.10, input)
                    && fails_on_clone(ps.11, input)
                    && yields_on_clone(ps.12, input, Ok(x))
                ||| fails_on_clone(ps.0, input)
                    && fails_on_clone(ps.1, input)
                    && fails_on_clone(ps.2, input)
                    && fails_on_clone(ps.3, input)
                    && fails_on_clone(ps.4, input)
                    && fails_on_clone(ps.5, input)
                    && fails_on_clone(ps.6, input)
                    && fails_on_clone(ps.7, input)
                    && fails_on_clone(ps.8, input)
                    && fails_on_clone(ps.9, input)
                    && fails_on_clone(ps.10, input)
                    && fails_on_clone(ps.11, input)
                    && fails_on_clone(ps.12, input)
                    && yields_on_clone(ps.13, input, Ok(x))
                ||| fails_on_clone(ps.0, input)
                    && fails_on_clone(ps.1, input)
                    && fails_on_clone(ps.2, input)
                    && fails_on_clone(ps.3, input)
                    && fails_on_clone(ps.4, input)
                    && fails_on_clone(ps.5, input)
                    && fails_on_clone(ps.6, input)
                    && fails_on_clone(ps.7, input)
                    && fails_on_clone(ps.8, input)
                    && fails_on_clone(ps.9, input)
                    && fails_on_clone(ps.10, input)
                    && fails_on_clone(ps.11, input)
                    && fails_on_clone(ps.12, input)
                    && fails_on_clone(ps.13, input)
                    && yields_on_clone(ps.14, input, Ok(x))
                ||| fails_on_clone(ps.0, input)
                    && fails_on_clone(ps.1, input)
                    && fails_on_clone(ps.2, input)
                    && fails_on_clone(ps.3, input)
                    && fails_on_clone(ps.4, input)
                    && fails_on_clone(ps.5, input)
                    && fails_on_clone(ps.6, input)
                    && fails_on_clone(ps.7, input)
                    && fails_on_clone(ps.8, input)
                    && fails_on_clone(ps.9, input)
                    && fails_on_clone(ps.10, input)
                    && fails_on_clone(ps.11, input)
                    && fails_on_clone(ps.12, input)
                    && fails_on_clone(ps.13, input)
                    && fails_on_clone(ps.14, input)
                    && yields_on_clone(ps.15, input, Ok(x))
            },
            Err((a, b, c, d, e, f, g, h, i, j, k, l, m, n, o, p)) => {
                &&& yields_on_clone(ps.0, input, Err(a))
                &&& yields_on_clone(ps.1, input, Err(b))
                &&& yields_on_clone(ps.2, input, Err(c))
                &&& yields_on_clone(ps.3, input, Err(d))
                &&& yields_on_clone(ps.4, input, Err(e))
                &&& yields_on_clone(ps.5, input, Err(f))
                &&& yields_on_clone(ps.6, input, Err(g))
                &&& yields_on_clone(ps.7, input, Err(h))
                &&& yields_on_clone(ps.8, input, Err(i))
                &&& yields_on_clone(ps.9, input, Err(j))
                &&& yields_on_clone(ps.10, input, Err(k))
                &&& yields_on_clone(ps.11, input, Err(l))
                &&& yields_on_clone(ps.12, input, Err(m))
                &&& yields_on_clone(ps.13, input, Err(n))
                &&& yields_on_clone(ps.14, input, Err(o))
                &&& yields_on_clone(ps.15, input, Err(p))
            },
        }
    }

    fn parse(&self, txt: IN) -> (res: Result<(OUT, IN), (A::Error, B::Error, C::Error, D::Error, E::Error, F::Error, G::Error, H::Error, I::Error, J::Error, K::Error, L::Error, M::Error, N::Error, O::Error, P::Error)>) {
        let c0 = txt.clone();
        let a = match self.ps.0.parse(c0) {
            Ok(r) => {
                assert(yields_on_clone(self.ps.0, txt, Ok(r)));
                return Ok(r);
            },
            Err(e) => e,
        };
        assert(yields_on_clone(self.ps.0, txt, Err(a)));
        let c1 = txt.clone();
        let b = match self.ps.1.parse(c1) {
            Ok(r) => {
                assert(yields_on_clone(self.ps.1, txt, Ok(r)));
                return Ok(r);
            },
            Err(e) => e,
        };
        assert(yields_on_clone(self.ps.1, txt, Err(b)));
        let c2 = txt.clone();
        let c = match self.ps.2.parse(c2) {
            Ok(r) => {
                assert(yields_on_clone(self.ps.2, txt, Ok(r)));
                return Ok(r);
            },
            Err(e) => e,
        };
        assert(yields_on_clone(self.ps.2, txt, Err(c)));
        let c3 = txt.clone();
        let d = match self.ps.3.parse(c3) {
            Ok(r) => {
                assert(yields_on_clone(self.ps.3, txt, Ok(r)));
                return Ok(r);
            },
            Err(e) => e,
        };
        assert(yields_on_clone(self.ps.3, txt, Err(d)));
        let c4 = txt.clone();
        let e = match self.ps.4.parse(c4) {
            Ok(r) => {
                assert(yields_on_clone(self.ps.4, txt, Ok(r)));
                return Ok(r);
            },
            Err(e) => e,
        };
        assert(yields_on_clone(self.ps.4, txt, Err(e)));
        let c5 = txt.clone();
        let f = match self.ps.5.parse(c5) {
            Ok(r) => {
                assert(yields_on_clone(self.ps.5, txt, Ok(r)));
                return Ok(r);
            },
            Err(e) => e,
        };
        assert(yields_on_clone(self.ps.5, txt, Err(f)));
        let c6 = txt.clone();
        let g = match self.ps.6.parse(c6) {
            Ok(r) => {
                assert(yields_on_clone(self.ps.6, txt, Ok(r)));
                return Ok(r);
            },
            Err(e) => e,
        };
        assert(yields_on_clone(self.ps.6, txt, Err(g)));
        let c7 = txt.clone();
        let h = match self.ps.7.parse(c7) {
            Ok(r) => {
                assert(yields_on_clone(self.ps.7, txt, Ok(r)));
                return Ok(r);
            },
            Err(e) => e,
        };
        assert(yields_on_clone(self.ps.7, txt, Err(h)));
        let c8 = txt.clone();
        let i = match self.ps.8.parse(c8) {
            Ok(r) => {
                assert(yields_on_clone(self.ps.8, txt, Ok(r)));
                return Ok(r);
            },
            Err(e) => e,
        };
        assert(yields_on_clone(self.ps.8, txt, Err(i)));
        let c9 = txt.clone();
        let j = match self.ps.9.parse(c9) {
            Ok(r) => {
                assert(yields_on_clone(self.ps.9, txt, Ok(r)));
                return Ok(r);
            },
            Err(e) => e,
        };
        assert(yields_on_clone(self.ps.9, txt, Err(j)));
        let c10 = txt.clone();
        let k = match self.ps.10.parse(c10) {
            Ok(r) => {
                assert(yields_on_clone(self.ps.10, txt, Ok(r)));
                return Ok(r);
            },
            Err(e) => e,
        };
        assert(yields_on_clone(self.ps.10, txt, Err(k)));
        let c11 = txt.clone();
        let l = match self.ps.11.parse(c11) {
            Ok(r) => {
                assert(yields_on_clone(self.ps.11, txt, Ok(r)));
                return Ok(r);
            },
            Err(e) => e,
        };
        assert(yields_on_clone(self.ps.11, txt, Err(l)));
        let c12 = txt.clone();
        let m = match self.ps.12.parse(c12) {
            Ok(r) => {
                assert(yields_on_clone(self.ps.12, txt, Ok(r)));
                return Ok(r);
            },
            Err(e) => e,
        };
        assert(yields_on_clone(self.ps.12, txt, Err(m)));
        let c13 = txt.clone();
        let n = match self.ps.13.parse(c13) {
            Ok(r) => {
                assert(yields_on_clone(self.ps.13, txt, Ok(r)));
                return Ok(r);
            },
            Err(e) => e,
        };
        assert(yields_on_clone(self.ps.13, txt, Err(n)));
        let c14 = txt.clone();
        let o = match self.ps.14.parse(c14) {
            Ok(r) => {
                assert(yields_on_clone(self.ps.14, txt, Ok(r)));
                return Ok(r);
            },
            Err(e) => e,
        };
        assert(yields_on_clone(self.ps.14, txt, Err(o)));
        let c15 = txt.clone();
        let p = match self.ps.15.parse(c15) {
            Ok(r) => {
                assert(yields_on_clone(self.ps.15, txt, Ok(r)));
                return Ok(r);
            },
            Err(e) => e,
        };
        assert(yields_on_clone(self.ps.15, txt, Err(p)));
        Err((a, b, c, d, e, f, g, h, i, j, k, l, m, n, o, p))
    }
}

/// Over inputs whose clones are equal, an alternative of 16 deterministic
/// parsers is deterministic.
pub proof fn lemma_alt16_deterministic<IN: Clone, OUT, A, B, C, D, E, F, G, H, I, J, K, L, M, N, O, P>(a: Alt<IN, (A, B, C, D, E, F, G, H, I, J, K, L, M, N, O, P)>)
    where
        A: Parser<IN, Out = OUT>,
        B: Parser<IN, Out = OUT>,
        C: Parser<IN, Out = OUT>,
        D: Parser<IN, Out = OUT>,
        E: Parser<IN, Out = OUT>,
        F: Parser<IN, Out = OUT>,
        G: Parser<IN, Out = OUT>,
        H: Parser<IN, Out = OUT>,
        I: Parser<IN, Out = OUT>,
        J: Parser<IN, Out = OUT>,
        K: Parser<IN, Out = OUT>,
        L: Parser<IN, Out = OUT>,
        M: Parser<IN, Out = OUT>,
        N: Parser<IN, Out = OUT>,
        O: Parser<IN, Out = OUT>,
        P: Parser<IN, Out = OUT>,
    requires
        clones_are_equal::<IN>(),
        deterministic::<IN, A>(a.parsers().0),
        deterministic::<IN, B>(a.parsers().1),
        deterministic::<IN, C>(a.parsers().2),
        deterministic::<IN, D>(a.parsers().3),
        deterministic::<IN, E>(a.parsers().4),
        deterministic::<IN, F>(a.parsers().5),
        deterministic::<IN, G>(a.parsers().6),
        deterministic::<IN, H>(a.parsers().7),
        deterministic::<IN, I>(a.parsers().8),
        deterministic::<IN, J>(a.parsers().9),
        deterministic::<IN, K>(a.parsers().10),
        deterministic::<IN, L>(a.parsers().11),
        deterministic::<IN, M>(a.parsers().12),
        deterministic::<IN, N>(a.parsers().13),
        deterministic::<IN, O>(a.parsers().14),
        deterministic::<IN, P>(a.parsers().15),
    ensures
        deterministic::<IN, Alt<IN, (A, B, C, D, E, F, G, H, I, J, K, L, M, N, O, P)>>(a),
{
    lemma_clones_are_transparent::<IN, A>(a.parsers().0);
    lemma_clones_are_transparent::<IN, B>(a.parsers().1);
    lemma_clones_are_transparent::<IN, C>(a.parsers().2);
    lemma_clones_are_transparent::<IN, D>(a.parsers().3);
    lemma_clones_are_transparent::<IN, E>(a.parsers().4);
    lemma_clones_are_transparent::<IN, F>(a.parsers().5);
    lemma_clones_are_transparent::<IN, G>(a.parsers().6);
    lemma_clones_are_transparent::<IN, H>(a.parsers().7);
    lemma_clones_are_transparent::<IN, I>(a.parsers().8);
    lemma_clones_are_transparent::<IN, J>(a.parsers().9);
    lemma_clones_are_transparent::<IN, K>(a.parsers().10);
    lemma_clones_are_transparent::<IN, L>(a.parsers().11);
    lemma_clones_are_transparent::<IN, M>(a.parsers().12);
    lemma_clones_are_transparent::<IN, N>(a.parsers().13);
    lemma_clones_are_transparent::<IN, O>(a.parsers().14);
    lemma_clones_are_transparent::<IN, P>(a.parsers().15);
}

impl<IN: Clone, OUT, A, B, C, D, E, F, G, H, I, J, K, L, M, N, O, P, Q> From<(A, B, C, D, E, F, G, H, I, J, K, L, M, N, O, P, Q)> for Alt<IN, (A, B, C, D, E, F, G, H, I, J, K, L, M, N, O, P, Q)> where
    A: Parser<IN, Out = OUT>,
    B: Parser<IN, Out = OUT>,
    C: Parser<IN, Out = OUT>,
    D: Parser<IN, Out = OUT>,
    E: Parser<IN, Out = OUT>,
    F: Parser<IN, Out = OUT>,
    G: Parser<IN, Out = OUT>,
    H: Parser<IN, Out = OUT>,
    I: Parser<IN, Out = OUT>,
    J: Parser<IN, Out = OUT>,
    K: Parser<IN, Out = OUT>,
    L: Parser<IN, Out = OUT>,
    M: Parser<IN, Out = OUT>,
    N: Parser<IN, Out = OUT>,
    O: Parser<IN, Out = OUT>,
    P: Parser<IN, Out = OUT>,
    Q: Parser<IN, Out = OUT>,
 {
    fn from(ps: (A, B, C, D, E, F, G, H, I, J, K, L, M, N, O, P, Q)) -> (r: Self) {
        let r = Self { ps, _ghost: PhantomData };
        proof {
            lemma_alt_determined_by_parsers(r, ps);
        }
        r
    }
}

impl<IN: Clone, OUT, A, B, C, D, E, F, G, H, I, J, K, L, M, N, O, P, Q> FromSpecImpl<(A, B, C, D, E, F, G, H, I, J, K, L, M, N, O, P, Q)> for Alt<IN, (A, B, C, D, E, F, G, H, I, J, K, L, M, N, O, P, Q)> where
    A: Parser<IN, Out = OUT>,
    B: Parser<IN, Out = OUT>,
    C: Parser<IN, Out = OUT>,
    D: Parser<IN, Out = OUT>,
    E: Parser<IN, Out = OUT>,
    F: Parser<IN, Out = OUT>,
    G: Parser<IN, Out = OUT>,
    H: Parser<IN, Out = OUT>,
    I: Parser<IN, Out = OUT>,
    J: Parser<IN, Out = OUT>,
    K: Parser<IN, Out = OUT>,
    L: Parser<IN, Out = OUT>,
    M: Parser<IN, Out = OUT>,
    N: Parser<IN, Out = OUT>,
    O: Parser<IN, Out = OUT>,
    P: Parser<IN, Out = OUT>,
    Q: Parser<IN, Out = OUT>,
 {
    open spec fn obeys_from_spec() -> bool {
        true
    }

    open spec fn from_spec(ps: (A, B, C, D, E, F, G, H, I, J, K, L, M, N, O, P, Q)) -> Self {
        choose|a: Self| a.parsers() == ps
    }
}

/// An alternative of 17 parsers with one output type.
impl<IN: Clone, OUT, A, B, C, D, E, F, G, H, I, J, K, L, M, N, O, P, Q> Parser<IN> for Alt<IN, (A, B, C, D, E, F, G, H, I, J, K, L, M, N, O, P, Q)> where
    A: Parser<IN, Out = OUT>,
    B: Parser<IN, Out = OUT>,
    C: Parser<IN, Out = OUT>,
    D: Parser<IN, Out = OUT>,
    E: Parser<IN, Out = OUT>,
    F: Parser<IN, Out = OUT>,
    G: Parser<IN, Out = OUT>,
    H: Parser<IN, Out = OUT>,
    I: Parser<IN, Out = OUT>,
    J: Parser<IN, Out = OUT>,
    K: Parser<IN, Out = OUT>,
    L: Parser<IN, Out = OUT>,
    M: Parser<IN, Out = OUT>,
    N: Parser<IN, Out = OUT>,
    O: Parser<IN, Out = OUT>,
    P: Parser<IN, Out = OUT>,
    Q: Parser<IN, Out = OUT>,
 {
    type Out = OUT;

    type Error = (A::Error, B::Error, C::Error, D::Error, E::Error, F::Error, G::Error, H::Error, I::Error, J::Error, K::Error, L::Error, M::Error, N::Error, O::Error, P::Error, Q::Error);

    open spec fn parse_requires(&self, input: IN) -> bool {
        let ps = self.parsers();
        &&& accepts_clones(ps.0, input)
        &&& fails_on_clone(ps.0, input)
            ==> accepts_clones(ps.1, input)
        &&& fails_on_clone(ps.0, input)
            && fails_on_clone(ps.1, input)
            ==> accepts_clones(ps.2, input)
        &&& fails_on_clone(ps.0, input)
            && fails_on_clone(ps.1, input)
            && fails_on_clone(ps.2, input)
            ==> accepts_clones(ps.3, input)
        &&& fails_on_clone(ps.0, input)
            && fails_on_clone(ps.1, input)
            && fails_on_clone(ps.2, input)
            && fails_on_clone(ps.3, input)
            ==> accepts_clones(ps.4, input)
        &&& fails_on_clone(ps.0, input)
            && fails_on_clone(ps.1, input)
            && fails_on_clone(ps.2, input)
            && fails_on_clone(ps.3, input)
            && fails_on_clone(ps.4, input)
            ==> accepts_clones(ps.5, input)
        &&& fails_on_clone(ps.0, input)
            && fails_on_clone(ps.1, input)
            && fails_on_clone(ps.2, input)
            && fails_on_clone(ps.3, input)
            && fails_on_clone(ps.4, input)
            && fails_on_clone(ps.5, input)
            ==> accepts_clones(ps.6, input)
        &&& fails_on_clone(ps.0, input)
            && fails_on_clone(ps.1, input)
            && fails_on_clone(ps.2, input)
            && fails_on_clone(ps.3, input)
            && fails_on_clone(ps.4, input)
            && fails_on_clone(ps.5, input)
            && fails_on_clone(ps.6, input)
            ==> accepts_clones(ps.7, input)
        &&& fails_on_clone(ps.0, input)
            && fails_on_clone(ps.1, input)
            && fails_on_clone(ps.2, input)
            && fails_on_clone(ps.3, input)
            && fails_on_clone(ps.4, input)
            && fails_on_clone(ps.5, input)
            && fails_on_clone(ps.6, input)
            && fails_on_clone(ps.7, input)
            ==> accepts_clones(ps.8, input)
        &&& fails_on_clone(ps.0, input)
            && fails_on_clone(ps.1, input)
            && fails_on_clone(ps.2, input)
            && fails_on_clone(ps.3, input)
            && fails_on_clone(ps.4, input)
            && fails_on_clone(ps.5, input)
            && fails_on_clone(ps.6, input)
            && fails_on_clone(ps.7, input)
            && fails_on_clone(ps.8, input)
            ==> accepts_clones(ps.9, input)
        &&& fails_on_clone(ps.0, input)
            && fails_on_clone(ps.1, input)
            && fails_on_clone(ps.2, input)
            && fails_on_clone(ps.3, input)
            && fails_on_clone(ps.4, input)
            && fails_on_clone(ps.5, input)
            && fails_on_clone(ps.6, input)
            && fails_on_clone(ps.7, input)
            && fails_on_clone(ps.8, input)
            && fails_on_clone(ps.9, input)
            ==> accepts_clones(ps.10, input)
        &&& fails_on_clone(ps.0, input)
            && fails_on_clone(ps.1, input)
            && fails_on_clone(ps.2, input)
            && fails_on_clone(ps.3, input)
            && fails_on_clone(ps.4, input)
            && fails_on_clone(ps.5, input)
            && fails_on_clone(ps.6, input)
            && fails_on_clone(ps.7, input)
            && fails_on_clone(ps.8, input)
            && fails_on_clone(ps.9, input)
            && fails_on_clone(ps.10, input)
            ==> accepts_clones(ps.11, input)
        &&& fails_on_clone(ps.0, input)
            && fails_on_clone(ps.1, input)
            && fails_on_clone(ps.2, input)
            && fails_on_clone(ps.3, input)
            && fails_on_clone(ps.4, input)
            && fails_on_clone(ps.5, input)
            && fails_on_clone(ps.6, input)
            && fails_on_clone(ps.7, input)
            && fails_on_clone(ps.8, input)
            && fails_on_clone(ps.9, input)
            && fails_on_clone(ps.10, input)
            && fails_on_clone(ps.11, input)
            ==> accepts_clones(ps.12, input)
        &&& fails_on_clone(ps.0, input)
            && fails_on_clone(ps.1, input)
            && fails_on_clone(ps.2, input)
            && fails_on_clone(ps.3, input)
            && fails_on_clone(ps.4, input)
            && fails_on_clone(ps.5, input)
            && fails_on_clone(ps.6, input)
            && fails_on_clone(ps.7, input)
            && fails_on_clone(ps.8, input)
            && fails_on_clone(ps.9, input)
            && fails_on_clone(ps.10, input)
            && fails_on_clone(ps.11, input)
            && fails_on_clone(ps.12, input)
            ==> accepts_clones(ps.13, input)
        &&& fails_on_clone(ps.0, input)
            && fails_on_clone(ps.1, input)
            && fails_on_clone(ps.2, input)
            && fails_on_clone(ps.3, input)
            && fails_on_clone(ps.4, input)
            && fails_on_clone(ps.5, input)
            && fails_on_clone(ps.6, input)
            && fails_on_clone(ps.7, input)
            && fails_on_clone(ps.8, input)
            && fails_on_clone(ps.9, input)
            && fails_on_clone(ps.10, input)
            && fails_on_clone(ps.11, input)
            && fails_on_clone(ps.12, input)
            && fails_on_clone(ps.13, input)
            ==> accepts_clones(ps.14, input)
        &&& fails_on_clone(ps.0, input)
            && fails_on_clone(ps.1, input)
            && fails_on_clone(ps.2, input)
            && fails_on_clone(ps.3, input)
            && fails_on_clone(ps.4, input)
            && fails_on_clone(ps.5, input)
            && fails_on_clone(ps.6, input)
            && fails_on_clone(ps.7, input)
            && fails_on_clone(ps.8, input)
            && fails_on_clone(ps.9, input)
            && fails_on_clone(ps.10, input)
            && fails_on_clone(ps.11, input)
            && fails_on_clone(ps.12, input)
            && fails_on_clone(ps.13, input)
            && fails_on_clone(ps.14, input)
            ==> accepts_clones(ps.15, input)
        &&& fails_on_clone(ps.0, input)
            && fails_on_clone(ps.1, input)
            && fails_on_clone(ps.2, input)
            && fails_on_clone(ps.3, input)
            && fails_on_clone(ps.4, input)
            && fails_on_clone(ps.5, input)
            && fails_on_clone(ps.6, input)
            && fails_on_clone(ps.7, input)
            && fails_on_clone(ps.8, input)
            && fails_on_clone(ps.9, input)
            && fails_on_clone(ps.10, input)
            && fails_on_clone(ps.11, input)
            && fails_on_clone(ps.12, input)
            && fails_on_clone(ps.13, input)
            && fails_on_clone(ps.14, input)
            && fails_on_clone(ps.15, input)
            ==> accepts_clones(ps.16, input)
    }

    open spec fn parse_ensures(&self, input: IN, res: Result<(OUT, IN), (A::Error, B::Error, C::Error, D::Error, E::Error, F::Error, G::Error, H::Error, I::Error, J::Error, K::Error, L::Error, M::Error, N::Error, O::Error, P::Error, Q::Error)>) -> bool {
        let ps = self.parsers();
        match res {
            Ok(x) => {
                ||| yields_on_clone(ps.0, input, Ok(x))
                ||| fails_on_clone(ps.0, input)
                    && yields_on_clone(ps.1, input, Ok(x))
                ||| fails_on_clone(ps.0, input)
                    && fails_on_clone(ps.1, input)
                    && yields_on_clone(ps.2, input, Ok(x))
                ||| fails_on_clone(ps.0, input)
                    && fails_on_clone(ps.1, input)
                    && fails_on_clone(ps.2, input)
                    && yields_on_clone(ps.3, input, Ok(x))
                ||| fails_on_clone(ps.0, input)
                    && fails_on_clone(ps.1, input)
                    && fails_on_clone(ps.2, input)
                    && fails_on_clone(ps.3, input)
                    && yields_on_clone(ps.4, input, Ok(x))
                ||| fails_on_clone(ps.0, input)
                    && fails_on_clone(ps.1, input)
                    && fails_on_clone(ps.2, input)
                    && fails_on_clone(ps.3, input)
                    && fails_on_clone(ps.4, input)
                    && yields_on_clone(ps.5, input, Ok(x))
                ||| fails_on_clone(ps.0, input)
                    && fails_on_clone(ps.1, input)
                    && fails_on_clone(ps.2, input)
                    && fails_on_clone(ps.3, input)
                    && fails_on_clone(ps.4, input)
                    && fails_on_clone(ps.5, input)
                    && yields_on_clone(ps.6, input, Ok(x))
                ||| fails_on_clone(ps.0, input)
                    && fails_on_clone(ps.1, input)
                    && fails_on_clone(ps.2, input)
                    && fails_on_clone(ps.3, input)
                    && fails_on_clone(ps.4, input)
                    && fails_on_clone(ps.5, input)
                    && fails_on_clone(ps.6, input)
                    && yields_on_clone(ps.7, input, Ok(x))
                ||| fails_on_clone(ps.0, input)
                    && fails_on_clone(ps.1, input)
                    && fails_on_clone(ps.2, input)
                    && fails_on_clone(ps.3, input)
                    && fails_on_clone(ps.4, input)
                    && fails_on_clone(ps.5, input)
                    && fails_on_clone(ps.6, input)
                    && fails_on_clone(ps.7, input)
                    && yields_on_clone(ps.8, input, Ok(x))
                ||| fails_on_clone(ps.0, input)
                    && fails_on_clone(ps.1, input)
                    && fails_on_clone(ps.2, input)
                    && fails_on_clone(ps.3, input)
                    && fails_on_clone(ps.4, input)
                    && fails_on_clone(ps.5, input)
                    && fails_on_clone(ps.6, input)
                    && fails_on_clone(ps.7, input)
                    && fails_on_clone(ps.8, input)
                    && yields_on_clone(ps.9, input, Ok(x))
                ||| fails_on_clone(ps.0, input)
                    && fails_on_clone(ps.1, input)
                    && fails_on_clone(ps.2, input)
                    && fails_on_clone(ps.3, input)
                    && fails_on_clone(ps.4, input)
                    && fails_on_clone(ps.5, input)
                    && fails_on_clone(ps.6, input)
                    && fails_on_clone(ps.7, input)
                    && fails_on_clone(ps.8, input)
                    && fails_on_clone(ps.9, input)
                    && yields_on_clone(ps.10, input, Ok(x))
                ||| fails_on_clone(ps.0, input)
                    && fails_on_clone(ps.1, input)
                    && fails_on_clone(ps.2, input)
                    && fails_on_clone(ps.3, input)
                    && fails_on_clone(ps.4, input)
                    && fails_on_clone(ps.5, input)
                    && fails_on_clone(ps.6, input)
                    && fails_on_clone(ps.7, input)
                    && fails_on_clone(ps.8, input)
                    && fails_on_clone(ps.9, input)
                    && fails_on_clone(ps.10, input)
                    && yields_on_clone(ps.11, input, Ok(x))
                ||| fails_on_clone(ps.0, input)
                    && fails_on_clone(ps.1, input)
                    && fails_on_clone(ps.2, input)
                    && fails_on_clone(ps.3, input)
                    && fails_on_clone(ps.4, input)
                    && fails_on_clone(ps.5, input)
                    && fails_on_clone(ps.6, input)
                    && fails_on_clone(ps.7, input)
                    && fails_on_clone(ps.8, input)
                    && fails_on_clone(ps.9, input)
                    && fails_on_clone(ps.10, input)
                    && fails_on_clone(ps.11, input)
                    && yields_on_clone(ps.12, input, Ok(x))
                ||| fails_on_clone(ps.0, input)
                    && fails_on_clone(ps.1, input)
                    && fails_on_clone(ps.2, input)
                    && fails_on_clone(ps.3, input)
                    && fails_on_clone(ps.4, input)
                    && fails_on_clone(ps.5, input)
                    && fails_on_clone(ps.6, input)
                    && fails_on_clone(ps.7, input)
                    && fails_on_clone(ps.8, input)
                    && fails_on_clone(ps.9, input)
                    && fails_on_clone(ps.10, input)
                    && fails_on_clone(ps.11, input)
                    && fails_on_clone(ps.12, input)
                    && yields_on_clone(ps.13, input, Ok(x))
                ||| fails_on_clone(ps.0, input)
                    && fails_on_clone(ps.1, input)
                    && fails_on_clone(ps.2, input)
                    && fails_on_clone(ps.3, input)
                    && fails_on_clone(ps.4, input)
                    && fails_on_clone(ps.5, input)
                    && fails_on_clone(ps.6, input)
                    && fails_on_clone(ps.7, input)
                    && fails_on_clone(ps.8, input)
                    && fails_on_clone(ps.9, input)
                    && fails_on_clone(ps.10, input)
                    && fails_on_clone(ps.11, input)
                    && fails_on_clone(ps.12, input)
                    && fails_on_clone(ps.13, input)
                    && yields_on_clone(ps.14, input, Ok(x))
                ||| fails_on_clone(ps.0, input)
                    && fails_on_clone(ps.1, input)
                    && fails_on_clone(ps.2, input)
                    && fails_on_clone(ps.3, input)
                    && fails_on_clone(ps.4, input)
                    && fails_on_clone(ps.5, input)
                    && fails_on_clone(ps.6, input)
                    && fails_on_clone(ps.7, input)
                    && fails_on_clone(ps.8, input)
                    && fails_on_clone(ps.9, input)
                    && fails_on_clone(ps.10, input)
                    && fails_on_clone(ps.11, input)
                    && fails_on_clone(ps.12, input)
                    && fails_on_clone(ps.13, input)
                    && fails_on_clone(ps.14, input)
                    && yields_on_clone(ps.15, input, Ok(x))
                ||| fails_on_clone(ps.0, input)
                    && fails_on_clone(ps.1, input)
                    && fails_on_clone(ps.2, input)
                    && fails_on_clone(ps.3, input)
                    && fails_on_clone(ps.4, input)
                    && fails_on_clone(ps.5, input)
                    && fails_on_clone(ps.6, input)
                    && fails_on_clone(ps.7, input)
                    && fails_on_clone(ps.8, input)
                    && fails_on_clone(ps.9, input)
                    && fails_on_clone(ps.10, input)
                    && fails_on_clone(ps.11, input)
                    && fails_on_clone(ps.12, input)
                    && fails_on_clone(ps.13, input)
                    && fails_on_clone(ps.14, input)
                    && fails_on_clone(ps.15, input)
                    && yields_on_clone(ps.16, input, Ok(x))
            },
            Err((a, b, c, d, e, f, g, h, i, j, k, l, m, n, o, p, q)) => {
                &&& yields_on_clone(ps.0, input, Err(a))
                &&& yields_on_clone(ps.1, input, Err(b))
                &&& yields_on_clone(ps.2, input, Err(c))
                &&& yields_on_clone(ps.3, input, Err(d))
                &&& yields_on_clone(ps.4, input, Err(e))
                &&& yields_on_clone(ps.5, input, Err(f))
                &&& yields_on_clone(ps.6, input, Err(g))
                &&& yields_on_clone(ps.7, input, Err(h))
                &&& yields_on_clone(ps.8, input, Err(i))
                &&& yields_on_clone(ps.9, input, Err(j))
                &&& yields_on_clone(ps.10, input, Err(k))
                &&& yields_on_clone(ps.11, input, Err(l))
                &&& yields_on_clone(ps.12, input, Err(m))
                &&& yields_on_clone(ps.13, input, Err(n))
                &&& yields_on_clone(ps.14, input, Err(o))
                &&& yields_on_clone(ps.15, input, Err(p))
                &&& yields_on_clone(ps.16, input, Err(q))
            },
        }
    }

    fn parse(&self, txt: IN) -> (res: Result<(OUT, IN), (A::Error, B::Error, C::Error, D::Error, E::Error, F::Error, G::Error, H::Error, I::Error, J::Error, K::Error, L::Error, M::Error, N::Error, O::Error, P::Error, Q::Error)>) {
        let c0 = txt.clone();
        let a = match self.ps.0.parse(c0) {
            Ok(r) => {
                assert(yields_on_clone(self.ps.0, txt, Ok(r)));
                return Ok(r);
            },
            Err(e) => e,
        };
        assert(yields_on_clone(self.ps.0, txt, Err(a)));
        let c1 = txt.clone();
        let b = match self.ps.1.parse(c1) {
            Ok(r) => {
                assert(yields_on_clone(self.ps.1, txt, Ok(r)));
                return Ok(r);
            },
            Err(e) => e,
        };
        assert(yields_on_clone(self.ps.1, txt, Err(b)));
        let c2 = txt.clone();
        let c = match self.ps.2.parse(c2) {
            Ok(r) => {
                assert(yields_on_clone(self.ps.2, txt, Ok(r)));
                return Ok(r);
            },
            Err(e) => e,
        };
        assert(yields_on_clone(self.ps.2, txt, Err(c)));
        let c3 = txt.clone();
        let d = match self.ps.3.parse(c3) {
            Ok(r) => {
                assert(yields_on_clone(self.ps.3, txt, Ok(r)));
                return Ok(r);
            },
            Err(e) => e,
        };
        assert(yields_on_clone(self.ps.3, txt, Err(d)));
        let c4 = txt.clone();
        let e = match self.ps.4.parse(c4) {
            Ok(r) => {
                assert(yields_on_clone(self.ps.4, txt, Ok(r)));
                return Ok(r);
            },
            Err(e) => e,
        };
        assert(yields_on_clone(self.ps.4, txt, Err(e)));
        let c5 = txt.clone();
        let f = match self.ps.5.parse(c5) {
            Ok(r) => {
                assert(yields_on_clone(self.ps.5, txt, Ok(r)));
                return Ok(r);
            },
            Err(e) => e,
        };
        assert(yields_on_clone(self.ps.5, txt, Err(f)));
        let c6 = txt.clone();
        let g = match self.ps.6.parse(c6) {
            Ok(r) => {
                assert(yields_on_clone(self.ps.6, txt, Ok(r)));
                return Ok(r);
            },
            Err(e) => e,
        };
        assert(yields_on_clone(self.ps.6, txt, Err(g)));
        let c7 = txt.clone();
        let h = match self.ps.7.parse(c7) {
            Ok(r) => {
                assert(yields_on_clone(self.ps.7, txt, Ok(r)));
                return Ok(r);
            },
            Err(e) => e,
        };
        assert(yields_on_clone(self.ps.7, txt, Err(h)));
        let c8 = txt.clone();
        let i = match self.ps.8.parse(c8) {
            Ok(r) => {
                assert(yields_on_clone(self.ps.8, txt, Ok(r)));
                return Ok(r);
            },
            Err(e) => e,
        };
        assert(yields_on_clone(self.ps.8, txt, Err(i)));
        let c9 = txt.clone();
        let j = match self.ps.9.parse(c9) {
            Ok(r) => {
                assert(yields_on_clone(self.ps.9, txt, Ok(r)));
                return Ok(r);
            },
            Err(e) => e,
        };
        assert(yields_on_clone(self.ps.9, txt, Err(j)));
        let c10 = txt.clone();
        let k = match self.ps.10.parse(c10) {
            Ok(r) => {
                assert(yields_on_clone(self.ps.10, txt, Ok(r)));
                return Ok(r);
            },
            Err(e) => e,
        };
        assert(yields_on_clone(self.ps.10, txt, Err(k)));
        let c11 = txt.clone();
        let l = match self.ps.11.parse(c11) {
            Ok(r) => {
                assert(yields_on_clone(self.ps.11, txt, Ok(r)));
                return Ok(r);
            },
            Err(e) => e,
        };
        assert(yields_on_clone(self.ps.11, txt, Err(l)));
        let c12 = txt.clone();
        let m = match self.ps.12.parse(c12) {
            Ok(r) => {
                assert(yields_on_clone(self.ps.12, txt, Ok(r)));
                return Ok(r);
            },
            Err(e) => e,
        };
        assert(yields_on_clone(self.ps.12, txt, Err(m)));
        let c13 = txt.clone();
        let n = match self.ps.13.parse(c13) {
            Ok(r) => {
                assert(yields_on_clone(self.ps.13, txt, Ok(r)));
                return Ok(r);
            },
            Err(e) => e,
        };
        assert(yields_on_clone(self.ps.13, txt, Err(n)));
        let c14 = txt.clone();
        let o = match self.ps.14.parse(c14) {
            Ok(r) => {
                assert(yields_on_clone(self.ps.14, txt, Ok(r)));
                return Ok(r);
            },
            Err(e) => e,
        };
        assert(yields_on_clone(self.ps.14, txt, Err(o)));
        let c15 = txt.clone();
        let p = match self.ps.15.parse(c15) {
            Ok(r) => {
                assert(yields_on_clone(self.ps.15, txt, Ok(r)));
                return Ok(r);
            },
            Err(e) => e,
        };
        assert(yields_on_clone(self.ps.15, txt, Err(p)));
        let c16 = txt.clone();
        let q = match self.ps.16.parse(c16) {
            Ok(r) => {
                assert(yields_on_clone(self.ps.16, txt, Ok(r)));
                return Ok(r);
            },
            Err(e) => e,
        };
        assert(yields_on_clone(self.ps.16, txt, Err(q)));
        Err((a, b, c, d, e, f, g, h, i, j, k, l, m, n, o, p, q))
    }
}

/// Over inputs whose clones are equal, an alternative of 17 deterministic
/// parsers is deterministic.
pub proof fn lemma_alt17_deterministic<IN: Clone, OUT, A, B, C, D, E, F, G, H, I, J, K, L, M, N, O, P, Q>(a: Alt<IN, (A, B, C, D, E, F, G, H, I, J, K, L, M, N, O, P, Q)>)
    where
        A: Parser<IN, Out = OUT>,
        B: Parser<IN, Out = OUT>,
        C: Parser<IN, Out = OUT>,
        D: Parser<IN, Out = OUT>,
        E: Parser<IN, Out = OUT>,
        F: Parser<IN, Out = OUT>,
        G: Parser<IN, Out = OUT>,
        H: Parser<IN, Out = OUT>,
        I: Parser<IN, Out = OUT>,
        J: Parser<IN, Out = OUT>,
        K: Parser<IN, Out = OUT>,
        L: Parser<IN, Out = OUT>,
        M: Parser<IN, Out = OUT>,
        N: Parser<IN, Out = OUT>,
        O: Parser<IN, Out = OUT>,
        P: Parser<IN, Out = OUT>,
        Q: Parser<IN, Out = OUT>,
    requires
        clones_are_equal::<IN>(),
        deterministic::<IN, A>(a.parsers().0),
        deterministic::<IN, B>(a.parsers().1),
        deterministic::<IN, C>(a.parsers().2),
        deterministic::<IN, D>(a.parsers().3),
        deterministic::<IN, E>(a.parsers().4),
        deterministic::<IN, F>(a.parsers().5),
        deterministic::<IN, G>(a.parsers().6),
        deterministic::<IN, H>(a.parsers().7),
        deterministic::<IN, I>(a.parsers().8),
        deterministic::<IN, J>(a.parsers().9),
        deterministic::<IN, K>(a.parsers().10),
        deterministic::<IN, L>(a.parsers().11),
        deterministic::<IN, M>(a.parsers().12),
        deterministic::<IN, N>(a.parsers().13),
        deterministic::<IN, O>(a.parsers().14),
        deterministic::<IN, P>(a.parsers().15),
        deterministic::<IN, Q>(a.parsers().16),
    ensures
        deterministic::<IN, Alt<IN, (A, B, C, D, E, F, G, H, I, J, K, L, M, N, O, P, Q)>>(a),
{
    lemma_clones_are_transparent::<IN, A>(a.parsers().0);
    lemma_clones_are_transparent::<IN, B>(a.parsers().1);
    lemma_clones_are_transparent::<IN, C>(a.parsers().2);
    lemma_clones_are_transparent::<IN, D>(a.parsers().3);
    lemma_clones_are_transparent::<IN, E>(a.parsers().4);
    lemma_clones_are_transparent::<IN, F>(a.parsers().5);
    lemma_clones_are_transparent::<IN, G>(a.parsers().6);
    lemma_clones_are_transparent::<IN, H>(a.parsers().7);
    lemma_clones_are_transparent::<IN, I>(a.parsers().8);
    lemma_clones_are_transparent::<IN, J>(a.parsers().9);
    lemma_clones_are_transparent::<IN, K>(a.parsers().10);
    lemma_clones_are_transparent::<IN, L>(a.parsers().11);
    lemma_clones_are_transparent::<IN, M>(a.parsers().12);
    lemma_clones_are_transparent::<IN, N>(a.parsers().13);
    lemma_clones_are_transparent::<IN, O>(a.parsers().14);
    lemma_clones_are_transparent::<IN, P>(a.parsers().15);
    lemma_clones_are_transparent::<IN, Q>(a.parsers().16);
}

impl<IN: Clone, OUT, A, B, C, D, E, F, G, H, I, J, K, L, M, N, O, P, Q, R> From<(A, B, C, D, E, F, G, H, I, J, K, L, M, N, O, P, Q, R)> for Alt<IN, (A, B, C, D, E, F, G, H, I, J, K, L, M, N, O, P, Q, R)> where
    A: Parser<IN, Out = OUT>,
    B: Parser<IN, Out = OUT>,
    C: Parser<IN, Out = OUT>,
    D: Parser<IN, Out = OUT>,
    E: Parser<IN, Out = OUT>,
    F: Parser<IN, Out = OUT>,
    G: Parser<IN, Out = OUT>,
    H: Parser<IN, Out = OUT>,
    I: Parser<IN, Out = OUT>,
    J: Parser<IN, Out = OUT>,
    K: Parser<IN, Out = OUT>,
    L: Parser<IN, Out = OUT>,
    M: Parser<IN, Out = OUT>,
    N: Parser<IN, Out = OUT>,
    O: Parser<IN, Out = OUT>,
    P: Parser<IN, Out = OUT>,
    Q: Parser<IN, Out = OUT>,
    R: Parser<IN, Out = OUT>,
 {
    fn from(ps: (A, B, C, D, E, F, G, H, I, J, K, L, M, N, O, P, Q, R)) -> (r: Self) {
        let r = Self { ps, _ghost: PhantomData };
        proof {
            lemma_alt_determined_by_parsers(r, ps);
        }
        r
    }
}

impl<IN: Clone, OUT, A, B, C, D, E, F, G, H, I, J, K, L, M, N, O, P, Q, R> FromSpecImpl<(A, B, C, D, E, F, G, H, I, J, K, L, M, N, O, P, Q, R)> for Alt<IN, (A, B, C, D, E, F, G, H, I, J, K, L, M, N, O, P, Q, R)> where
    A: Parser<IN, Out = OUT>,
    B: Parser<IN, Out = OUT>,
    C: Parser<IN, Out = OUT>,
    D: Parser<IN, Out = OUT>,
    E: Parser<IN, Out = OUT>,
    F: Parser<IN, Out = OUT>,
    G: Parser<IN, Out = OUT>,
    H: Parser<IN, Out = OUT>,
    I: Parser<IN, Out = OUT>,
    J: Parser<IN, Out = OUT>,
    K: Parser<IN, Out = OUT>,
    L: Parser<IN, Out = OUT>,
    M: Parser<IN, Out = OUT>,
    N: Parser<IN, Out = OUT>,
    O: Parser<IN, Out = OUT>,
    P: Parser<IN, Out = OUT>,
    Q: Parser<IN, Out = OUT>,
    R: Parser<IN, Out = OUT>,
 {
    open spec fn obeys_from_spec() -> bool {
        true
    }

    open spec fn from_spec(ps: (A, B, C, D, E, F, G, H, I, J, K, L, M, N, O, P, Q, R)) -> Self {
        choose|a: Self| a.parsers() == ps
    }
}

/// An alternative of 18 parsers with one output type.
impl<IN: Clone, OUT, A, B, C, D, E, F, G, H, I, J, K, L, M, N, O, P, Q, R> Parser<IN> for Alt<IN, (A, B, C, D, E, F, G, H, I, J, K, L, M, N, O, P, Q, R)> where
    A: Parser<IN, Out = OUT>,
    B: Parser<IN, Out = OUT>,
    C: Parser<IN, Out = OUT>,
    D: Parser<IN, Out = OUT>,
    E: Parser<IN, Out = OUT>,
    F: Parser<IN, Out = OUT>,
    G: Parser<IN, Out = OUT>,
    H: Parser<IN, Out = OUT>,
    I: Parser<IN, Out = OUT>,
    J: Parser<IN, Out = OUT>,
    K: Parser<IN, Out = OUT>,
    L: Parser<IN, Out = OUT>,
    M: Parser<IN, Out = OUT>,
    N: Parser<IN, Out = OUT>,
    O: Parser<IN, Out = OUT>,
    P: Parser<IN, Out = OUT>,
    Q: Parser<IN, Out = OUT>,
    R: Parser<IN, Out = OUT>,
 {
    type Out = OUT;

    type Error = (A::Error, B::Error, C::Error, D::Error, E::Error, F::Error, G::Error, H::Error, I::Error, J::Error, K::Error, L::Error, M::Error, N::Error, O::Error, P::Error, Q::Error, R::Error);

    open spec fn parse_requires(&self, input: IN) -> bool {
        let ps = self.parsers();
        &&& accepts_clones(ps.0, input)
        &&& fails_on_clone(ps.0, input)
            ==> accepts_clones(ps.1, input)
        &&& fails_on_clone(ps.0, input)
            && fails_on_clone(ps.1, input)
            ==> accepts_clones(ps.2, input)
        &&& fails_on_clone(ps.0, input)
            && fails_on_clone(ps.1, input)
            && fails_on_clone(ps.2, input)
            ==> accepts_clones(ps.3, input)
        &&& fails_on_clone(ps.0, input)
            && fails_on_clone(ps.1, input)
            && fails_on_clone(ps.2, input)
            && fails_on_clone(ps.3, input)
            ==> accepts_clones(ps.4, input)
        &&& fails_on_clone(ps.0, input)
            && fails_on_clone(ps.1, input)
            && fails_on_clone(ps.2, input)
            && fails_on_clone(ps.3, input)
            && fails_on_clone(ps.4, input)
            ==> accepts_clones(ps.5, input)
        &&& fails_on_clone(ps.0, input)
            && fails_on_clone(ps.1, input)
            && fails_on_clone(ps.2, input)
            && fails_on_clone(ps.3, input)
            && fails_on_clone(ps.4, input)
            && fails_on_clone(ps.5, input)
            ==> accepts_clones(ps.6, input)
        &&& fails_on_clone(ps.0, input)
            && fails_on_clone(ps.1, input)
            && fails_on_clone(ps.2, input)
            && fails_on_clone(ps.3, input)
            && fails_on_clone(ps.4, input)
            && fails_on_clone(ps.5, input)
            && fails_on_clone(ps.6, input)
            ==> accepts_clones(ps.7, input)
        &&& fails_on_clone(ps.0, input)
            && fails_on_clone(ps.1, input)
            && fails_on_clone(ps.2, input)
            && fails_on_clone(ps.3, input)
            && fails_on_clone(ps.4, input)
            && fails_on_clone(ps.5, input)
            && fails_on_clone(ps.6, input)
            && fails_on_clone(ps.7, input)
            ==> accepts_clones(ps.8, input)
        &&& fails_on_clone(ps.0, input)
            && fails_on_clone(ps.1, input)
            && fails_on_clone(ps.2, input)
            && fails_on_clone(ps.3, input)
            && fails_on_clone(ps.4, input)
            && fails_on_clone(ps.5, input)
            && fails_on_clone(ps.6, input)
            && fails_on_clone(ps.7, input)
            && fails_on_clone(ps.8, input)
            ==> accepts_clones(ps.9, input)
        &&& fails_on_clone(ps.0, input)
            && fails_on_clone(ps.1, input)
            && fails_on_clone(ps.2, input)
            && fails_on_clone(ps.3, input)
            && fails_on_clone(ps.4, input)
            && fails_on_clone(ps.5, input)
            && fails_on_clone(ps.6, input)
            && fails_on_clone(ps.7, input)
            && fails_on_clone(ps.8, input)
            && fails_on_clone(ps.9, input)
            ==> accepts_clones(ps.10, input)
        &&& fails_on_clone(ps.0, input)
            && fails_on_clone(ps.1, input)
            && fails_on_clone(ps.2, input)
            && fails_on_clone(ps.3, input)
            && fails_on_clone(ps.4, input)
            && fails_on_clone(ps.5, input)
            && fails_on_clone(ps.6, input)
            && fails_on_clone(ps.7, input)
            && fails_on_clone(ps.8, input)
            && fails_on_clone(ps.9, input)
            && fails_on_clone(ps.10, input)
            ==> accepts_clones(ps.11, input)
        &&& fails_on_clone(ps.0, input)
            && fails_on_clone(ps.1, input)
            && fails_on_clone(ps.2, input)
            && fails_on_clone(ps.3, input)
            && fails_on_clone(ps.4, input)
            && fails_on_clone(ps.5, input)
            && fails_on_clone(ps.6, input)
            && fails_on_clone(ps.7, input)
            && fails_on_clone(ps.8, input)
            && fails_on_clone(ps.9, input)
            && fails_on_clone(ps.10, input)
            && fails_on_clone(ps.11, input)
            ==> accepts_clones(ps.12, input)
        &&& fails_on_clone(ps.0, input)
            && fails_on_clone(ps.1, input)
            && fails_on_clone(ps.2, input)
            && fails_on_clone(ps.3, input)
            && fails_on_clone(ps.4, input)
            && fails_on_clone(ps.5, input)
            && fails_on_clone(ps.6, input)
            && fails_on_clone(ps.7, input)
            && fails_on_clone(ps.8, input)
            && fails_on_clone(ps.9, input)
            && fails_on_clone(ps.10, input)
            && fails_on_clone(ps.11, input)
            && fails_on_clone(ps.12, input)
            ==> accepts_clones(ps.13, input)
        &&& fails_on_clone(ps.0, input)
            && fails_on_clone(ps.1, input)
            && fails_on_clone(ps.2, input)
            && fails_on_clone(ps.3, input)
            && fails_on_clone(ps.4, input)
            && fails_on_clone(ps.5, input)
            && fails_on_clone(ps.6, input)
            && fails_on_clone(ps.7, input)
            && fails_on_clone(ps.8, input)
            && fails_on_clone(ps.9, input)
            && fails_on_clone(ps.10, input)
            && fails_on_clone(ps.11, input)
            && fails_on_clone(ps.12, input)
            && fails_on_clone(ps.13, input)
            ==> accepts_clones(ps.14, input)
        &&& fails_on_clone(ps.0, input)
            && fails_on_clone(ps.1, input)
            && fails_on_clone(ps.2, input)
            && fails_on_clone(ps.3, input)
            && fails_on_clone(ps.4, input)
            && fails_on_clone(ps.5, input)
            && fails_on_clone(ps.6, input)
            && fails_on_clone(ps.7, input)
            && fails_on_clone(ps.8, input)
            && fails_on_clone(ps.9, input)
            && fails_on_clone(ps.10, input)
            && fails_on_clone(ps.11, input)
            && fails_on_clone(ps.12, input)
            && fails_on_clone(ps.13, input)
            && fails_on_clone(ps.14, input)
            ==> accepts_clones(ps.15, input)
        &&& fails_on_clone(ps.0, input)
            && fails_on_clone(ps.1, input)
            && fails_on_clone(ps.2, input)
            && fails_on_clone(ps.3, input)
            && fails_on_clone(ps.4, input)
            && fails_on_clone(ps.5, input)
            && fails_on_clone(ps.6, input)
            && fails_on_clone(ps.7, input)
            && fails_on_clone(ps.8, input)
            && fails_on_clone(ps.9, input)
            && fails_on_clone(ps.10, input)
            && fails_on_clone(ps.11, input)
            && fails_on_clone(ps.12, input)
            && fails_on_clone(ps.13, input)
            && fails_on_clone(ps.14, input)
            && fails_on_clone(ps.15, input)
            ==> accepts_clones(ps.16, input)
        &&& fails_on_clone(ps.0, input)
            && fails_on_clone(ps.1, input)
            && fails_on_clone(ps.2, input)
            && fails_on_clone(ps.3, input)
            && fails_on_clone(ps.4, input)
            && fails_on_clone(ps.5, input)
            && fails_on_clone(ps.6, input)
            && fails_on_clone(ps.7, input)
            && fails_on_clone(ps.8, input)
            && fails_on_clone(ps.9, input)
            && fails_on_clone(ps.10, input)
            && fails_on_clone(ps.11, input)
            && fails_on_clone(ps.12, input)
            && fails_on_clone(ps.13, input)
            && fails_on_clone(ps.14, input)
            && fails_on_clone(ps.15, input)
            && fails_on_clone(ps.16, input)
            ==> accepts_clones(ps.17, input)
    }

    open spec fn parse_ensures(&self, input: IN, res: Result<(OUT, IN), (A::Error, B::Error, C::Error, D::Error, E::Error, F::Error, G::Error, H::Error, I::Error, J::Error, K::Error, L::Error, M::Error, N::Error, O::Error, P::Error, Q::Error, R::Error)>) -> bool {
        let ps = self.parsers();
        match res {
            Ok(x) => {
                ||| yields_on_clone(ps.0, input, Ok(x))
                ||| fails_on_clone(ps.0, input)
                    && yields_on_clone(ps.1, input, Ok(x))
                ||| fails_on_clone(ps.0, input)
                    && fails_on_clone(ps.1, input)
                    && yields_on_clone(ps.2, input, Ok(x))
                ||| fails_on_clone(ps.0, input)
                    && fails_on_clone(ps.1, input)
                    && fails_on_clone(ps.2, input)
                    && yields_on_clone(ps.3, input, Ok(x))
                ||| fails_on_clone(ps.0, input)
                    && fails_on_clone(ps.1, input)
                    && fails_on_clone(ps.2, input)
                    && fails_on_clone(ps.3, input)
                    && yields_on_clone(ps.4, input, Ok(x))
                ||| fails_on_clone(ps.0, input)
                    && fails_on_clone(ps.1, input)
                    && fails_on_clone(ps.2, input)
                    && fails_on_clone(ps.3, input)
                    && fails_on_clone(ps.4, input)
                    && yields_on_clone(ps.5, input, Ok(x))
                ||| fails_on_clone(ps.0, input)
                    && fails_on_clone(ps.1, input)
                    && fails_on_clone(ps.2, input)
                    && fails_on_clone(ps.3, input)
                    && fails_on_clone(ps.4, input)
                    && fails_on_clone(ps.5, input)
                    && yields_on_clone(ps.6, input, Ok(x))
                ||| fails_on_clone(ps.0, input)
                    && fails_on_clone(ps.1, input)
                    && fails_on_clone(ps.2, input)
                    && fails_on_clone(ps.3, input)
                    && fails_on_clone(ps.4, input)
                    && fails_on_clone(ps.5, input)
                    && fails_on_clone(ps.6, input)
                    && yields_on_clone(ps.7, input, Ok(x))
                ||| fails_on_clone(ps.0, input)
                    && fails_on_clone(ps.1, input)
                    && fails_on_clone(ps.2, input)
                    && fails_on_clone(ps.3, input)
                    && fails_on_clone(ps.4, input)
                    && fails_on_clone(ps.5, input)
                    && fails_on_clone(ps.6, input)
                    && fails_on_clone(ps.7, input)
                    && yields_on_clone(ps.8, input, Ok(x))
                ||| fails_on_clone(ps.0, input)
                    && fails_on_clone(ps.1, input)
                    && fails_on_clone(ps.2, input)
                    && fails_on_clone(ps.3, input)
                    && fails_on_clone(ps.4, input)
                    && fails_on_clone(ps.5, input)
                    && fails_on_clone(ps.6, input)
                    && fails_on_clone(ps.7, input)
                    && fails_on_clone(ps.8, input)
                    && yields_on_clone(ps.9, input, Ok(x))
                ||| fails_on_clone(ps.0, input)
                    && fails_on_clone(ps.1, input)
                    && fails_on_clone(ps.2, input)
                    && fails_on_clone(ps.3, input)
                    && fails_on_clone(ps.4, input)
                    && fails_on_clone(ps.5, input)
                    && fails_on_clone(ps.6, input)
                    && fails_on_clone(ps.7, input)
                    && fails_on_clone(ps.8, input)
                    && fails_on_clone(ps.9, input)
                    && yields_on_clone(ps.10, input, Ok(x))
                ||| fails_on_clone(ps.0, input)
                    && fails_on_clone(ps.1, input)
                    && fails_on_clone(ps.2, input)
                    && fails_on_clone(ps.3, input)
                    && fails_on_clone(ps.4, input)
                    && fails_on_clone(ps.5, input)
                    && fails_on_clone(ps.6, input)
                    && fails_on_clone(ps.7, input)
                    && fails_on_clone(ps.8, input)
                    && fails_on_clone(ps.9, input)
                    && fails_on_clone(ps.10, input)
                    && yields_on_clone(ps.11, input, Ok(x))
                ||| fails_on_clone(ps.0, input)
                    && fails_on_clone(ps.1, input)
                    && fails_on_clone(ps.2, input)
                    && fails_on_clone(ps.3, input)
                    && fails_on_clone(ps.4, input)
                    && fails_on_clone(ps.5, input)
                    && fails_on_clone(ps.6, input)
                    && fails_on_clone(ps.7, input)
                    && fails_on_clone(ps.8, input)
                    && fails_on_clone(ps.9, input)
                    && fails_on_clone(ps.10, input)
                    && fails_on_clone(ps.11, input)
                    && yields_on_clone(ps.12, input, Ok(x))
                ||| fails_on_clone(ps.0, input)
                    && fails_on_clone(ps.1, input)
                    && fails_on_clone(ps.2, input)
                    && fails_on_clone(ps.3, input)
                    && fails_on_clone(ps.4, input)
                    && fails_on_clone(ps.5, input)
                    && fails_on_clone(ps.6, input)
                    && fails_on_clone(ps.7, input)
                    && fails_on_clone(ps.8, input)
                    && fails_on_clone(ps.9, input)
                    && fails_on_clone(ps.10, input)
                    && fails_on_clone(ps.11, input)
                    && fails_on_clone(ps.12, input)
                    && yields_on_clone(ps.13, input, Ok(x))
                ||| fails_on_clone(ps.0, input)
                    && fails_on_clone(ps.1, input)
                    && fails_on_clone(ps.2, input)
                    && fails_on_clone(ps.3, input)
                    && fails_on_clone(ps.4, input)
                    && fails_on_clone(ps.5, input)
                    && fails_on_clone(ps.6, input)
                    && fails_on_clone(ps.7, input)
                    && fails_on_clone(ps.8, input)
                    && fails_on_clone(ps.9, input)
                    && fails_on_clone(ps.10, input)
                    && fails_on_clone(ps.11, input)
                    && fails_on_clone(ps.12, input)
                    && fails_on_clone(ps.13, input)
                    && yields_on_clone(ps.14, input, Ok(x))
                ||| fails_on_clone(ps.0, input)
                    && fails_on_clone(ps.1, input)
                    && fails_on_clone(ps.2, input)
                    && fails_on_clone(ps.3, input)
                    && fails_on_clone(ps.4, input)
                    && fails_on_clone(ps.5, input)
                    && fails_on_clone(ps.6, input)
                    && fails_on_clone(ps.7, input)
                    && fails_on_clone(ps.8, input)
                    && fails_on_clone(ps.9, input)
                    && fails_on_clone(ps.10, input)
                    && fails_on_clone(ps.11, input)
                    && fails_on_clone(ps.12, input)
                    && fails_on_clone(ps.13, input)
                    && fails_on_clone(ps.14, input)
                    && yields_on_clone(ps.15, input, Ok(x))
                ||| fails_on_clone(ps.0, input)
                    && fails_on_clone(ps.1, input)
                    && fails_on_clone(ps.2, input)
                    && fails_on_clone(ps.3, input)
                    && fails_on_clone(ps.4, input)
                    && fails_on_clone(ps.5, input)
                    && fails_on_clone(ps.6, input)
                    && fails_on_clone(ps.7, input)
                    && fails_on_clone(ps.8, input)
                    && fails_on_clone(ps.9, input)
                    && fails_on_clone(ps.10, input)
                    && fails_on_clone(ps.11, input)
                    && fails_on_clone(ps.12, input)
                    && fails_on_clone(ps.13, input)
                    && fails_on_clone(ps.14, input)
                    && fails_on_clone(ps.15, input)
                    && yields_on_clone(ps.16, input, Ok(x))
                ||| fails_on_clone(ps.0, input)
                    && fails_on_clone(ps.1, input)
                    && fails_on_clone(ps.2, input)
                    && fails_on_clone(ps.3, input)
                    && fails_on_clone(ps.4, input)
                    && fails_on_clone(ps.5, input)
                    && fails_on_clone(ps.6, input)
                    && fails_on_clone(ps.7, input)
                    && fails_on_clone(ps.8, input)
                    && fails_on_clone(ps.9, input)
                    && fails_on_clone(ps.10, input)
                    && fails_on_clone(ps.11, input)
                    && fails_on_clone(ps.12, input)
                    && fails_on_clone(ps.13, input)
                    && fails_on_clone(ps.14, input)
                    && fails_on_clone(ps.15, input)
                    && fails_on_clone(ps.16, input)
                    && yields_on_clone(ps.17, input, Ok(x))
            },
            Err((a, b, c, d, e, f, g, h, i, j, k, l, m, n, o, p, q, r)) => {
                &&& yields_on_clone(ps.0, input, Err(a))
                &&& yields_on_clone(ps.1, input, Err(b))
                &&& yields_on_clone(ps.2, input, Err(c))
                &&& yields_on_clone(ps.3, input, Err(d))
                &&& yields_on_clone(ps.4, input, Err(e))
                &&& yields_on_clone(ps.5, input, Err(f))
                &&& yields_on_clone(ps.6, input, Err(g))
                &&& yields_on_clone(ps.7, input, Err(h))
                &&& yields_on_clone(ps.8, input, Err(i))
                &&& yields_on_clone(ps.9, input, Err(j))
                &&& yields_on_clone(ps.10, input, Err(k))
                &&& yields_on_clone(ps.11, input, Err(l))
                &&& yields_on_clone(ps.12, input, Err(m))
                &&& yields_on_clone(ps.13, input, Err(n))
                &&& yields_on_clone(ps.14, input, Err(o))
                &&& yields_on_clone(ps.15, input, Err(p))
                &&& yields_on_clone(ps.16, input, Err(q))
                &&& yields_on_clone(ps.17, input, Err(r))
            },
        }
    }

    fn parse(&self, txt: IN) -> (res: Result<(OUT, IN), (A::Error, B::Error, C::Error, D::Error, E::Error, F::Error, G::Error, H::Error, I::Error, J::Error, K::Error, L::Error, M::Error, N::Error, O::Error, P::Error, Q::Error, R::Error)>) {
        let c0 = txt.clone();
        let a = match self.ps.0.parse(c0) {
            Ok(r) => {
                assert(yields_on_clone(self.ps.0, txt, Ok(r)));
                return Ok(r);
            },
            Err(e) => e,
        };
        assert(yields_on_clone(self.ps.0, txt, Err(a)));
        let c1 = txt.clone();
        let b = match self.ps.1.parse(c1) {
            Ok(r) => {
                assert(yields_on_clone(self.ps.1, txt, Ok(r)));
                return Ok(r);
            },
            Err(e) => e,
        };
        assert(yields_on_clone(self.ps.1, txt, Err(b)));
        let c2 = txt.clone();
        let c = match self.ps.2.parse(c2) {
            Ok(r) => {
                assert(yields_on_clone(self.ps.2, txt, Ok(r)));
                return Ok(r);
            },
            Err(e) => e,
        };
        assert(yields_on_clone(self.ps.2, txt, Err(c)));
        let c3 = txt.clone();
        let d = match self.ps.3.parse(c3) {
            Ok(r) => {
                assert(yields_on_clone(self.ps.3, txt, Ok(r)));
                return Ok(r);
            },
            Err(e) => e,
        };
        assert(yields_on_clone(self.ps.3, txt, Err(d)));
        let c4 = txt.clone();
        let e = match self.ps.4.parse(c4) {
            Ok(r) => {
                assert(yields_on_clone(self.ps.4, txt, Ok(r)));
                return Ok(r);
            },
            Err(e) => e,
        };
        assert(yields_on_clone(self.ps.4, txt, Err(e)));
        let c5 = txt.clone();
        let f = match self.ps.5.parse(c5) {
            Ok(r) => {
                assert(yields_on_clone(self.ps.5, txt, Ok(r)));
                return Ok(r);
            },
            Err(e) => e,
        };
        assert(yields_on_clone(self.ps.5, txt, Err(f)));
        let c6 = txt.clone();
        let g = match self.ps.6.parse(c6) {
            Ok(r) => {
                assert(yields_on_clone(self.ps.6, txt, Ok(r)));
                return Ok(r);
            },
            Err(e) => e,
        };
        assert(yields_on_clone(self.ps.6, txt, Err(g)));
        let c7 = txt.clone();
        let h = match self.ps.7.parse(c7) {
            Ok(r) => {
                assert(yields_on_clone(self.ps.7, txt, Ok(r)));
                return Ok(r);
            },
            Err(e) => e,
        };
        assert(yields_on_clone(self.ps.7, txt, Err(h)));
        let c8 = txt.clone();
        let i = match self.ps.8.parse(c8) {
            Ok(r) => {
                assert(yields_on_clone(self.ps.8, txt, Ok(r)));
                return Ok(r);
            },
            Err(e) => e,
        };
        assert(yields_on_clone(self.ps.8, txt, Err(i)));
        let c9 = txt.clone();
        let j = match self.ps.9.parse(c9) {
            Ok(r) => {
                assert(yields_on_clone(self.ps.9, txt, Ok(r)));
                return Ok(r);
            },
            Err(e) => e,
        };
        assert(yields_on_clone(self.ps.9, txt, Err(j)));
        let c10 = txt.clone();
        let k = match self.ps.10.parse(c10) {
            Ok(r) => {
                assert(yields_on_clone(self.ps.10, txt, Ok(r)));
                return Ok(r);
            },
            Err(e) => e,
        };
        assert(yields_on_clone(self.ps.10, txt, Err(k)));
        let c11 = txt.clone();
        let l = match self.ps.11.parse(c11) {
            Ok(r) => {
                assert(yields_on_clone(self.ps.11, txt, Ok(r)));
                return Ok(r);
            },
            Err(e) => e,
        };
        assert(yields_on_clone(self.ps.11, txt, Err(l)));
        let c12 = txt.clone();
        let m = match self.ps.12.parse(c12) {
            Ok(r) => {
                assert(yields_on_clone(self.ps.12, txt, Ok(r)));
                return Ok(r);
            },
            Err(e) => e,
        };
        assert(yields_on_clone(self.ps.12, txt, Err(m)));
        let c13 = txt.clone();
        let n = match self.ps.13.parse(c13) {
            Ok(r) => {
                assert(yields_on_clone(self.ps.13, txt, Ok(r)));
                return Ok(r);
            },
            Err(e) => e,
        };
        assert(yields_on_clone(self.ps.13, txt, Err(n)));
        let c14 = txt.clone();
        let o = match self.ps.14.parse(c14) {
            Ok(r) => {
                assert(yields_on_clone(self.ps.14, txt, Ok(r)));
                return Ok(r);
            },
            Err(e) => e,
        };
        assert(yields_on_clone(self.ps.14, txt, Err(o)));
        let c15 = txt.clone();
        let p = match self.ps.15.parse(c15) {
            Ok(r) => {
                assert(yields_on_clone(self.ps.15, txt, Ok(r)));
                return Ok(r);
            },
            Err(e) => e,
        };
        assert(yields_on_clone(self.ps.15, txt, Err(p)));
        let c16 = txt.clone();
        let q = match self.ps.16.parse(c16) {
            Ok(r) => {
                assert(yields_on_clone(self.ps.16, txt, Ok(r)));
                return Ok(r);
            },
            Err(e) => e,
        };
        assert(yields_on_clone(self.ps.16, txt, Err(q)));
        let c17 = txt.clone();
        let r = match self.ps.17.parse(c17) {
            Ok(r) => {
                assert(yields_on_clone(self.ps.17, txt, Ok(r)));
                return Ok(r);
            },
            Err(e) => e,
        };
        assert(yields_on_clone(self.ps.17, txt, Err(r)));
        Err((a, b, c, d, e, f, g, h, i, j, k, l, m, n, o, p, q, r))
    }
}

/// Over inputs whose clones are equal, an alternative of 18 deterministic
/// parsers is deterministic.
pub proof fn lemma_alt18_deterministic<IN: Clone, OUT, A, B, C, D, E, F, G, H, I, J, K, L, M, N, O, P, Q, R>(a: Alt<IN, (A, B, C, D, E, F, G, H, I, J, K, L, M, N, O, P, Q, R)>)
    where
        A: Parser<IN, Out = OUT>,
        B: Parser<IN, Out = OUT>,
        C: Parser<IN, Out = OUT>,
        D: Parser<IN, Out = OUT>,
        E: Parser<IN, Out = OUT>,
        F: Parser<IN, Out = OUT>,
        G: Parser<IN, Out = OUT>,
        H: Parser<IN, Out = OUT>,
        I: Parser<IN, Out = OUT>,
        J: Parser<IN, Out = OUT>,
        K: Parser<IN, Out = OUT>,
        L: Parser<IN, Out = OUT>,
        M: Parser<IN, Out = OUT>,
        N: Parser<IN, Out = OUT>,
        O: Parser<IN, Out = OUT>,
        P: Parser<IN, Out = OUT>,
        Q: Parser<IN, Out = OUT>,
        R: Parser<IN, Out = OUT>,
    requires
        clones_are_equal::<IN>(),
        deterministic::<IN, A>(a.parsers().0),
        deterministic::<IN, B>(a.parsers().1),
        deterministic::<IN, C>(a.parsers().2),
        deterministic::<IN, D>(a.parsers().3),
        deterministic::<IN, E>(a.parsers().4),
        deterministic::<IN, F>(a.parsers().5),
        deterministic::<IN, G>(a.parsers().6),
        deterministic::<IN, H>(a.parsers().7),
        deterministic::<IN, I>(a.parsers().8),
        deterministic::<IN, J>(a.parsers().9),
        deterministic::<IN, K>(a.parsers().10),
        deterministic::<IN, L>(a.parsers().11),
        deterministic::<IN, M>(a.parsers().12),
        deterministic::<IN, N>(a.parsers().13),
        deterministic::<IN, O>(a.parsers().14),
        deterministic::<IN, P>(a.parsers().15),
        deterministic::<IN, Q>(a.parsers().16),
        deterministic::<IN, R>(a.parsers().17),
    ensures
        deterministic::<IN, Alt<IN, (A, B, C, D, E, F, G, H, I, J, K, L, M, N, O, P, Q, R)>>(a),
{
    lemma_clones_are_transparent::<IN, A>(a.parsers().0);
    lemma_clones_are_transparent::<IN, B>(a.parsers().1);
    lemma_clones_are_transparent::<IN, C>(a.parsers().2);
    lemma_clones_are_transparent::<IN, D>(a.parsers().3);
    lemma_clones_are_transparent::<IN, E>(a.parsers().4);
    lemma_clones_are_transparent::<IN, F>(a.parsers().5);
    lemma_clones_are_transparent::<IN, G>(a.parsers().6);
    lemma_clones_are_transparent::<IN, H>(a.parsers().7);
    lemma_clones_are_transparent::<IN, I>(a.parsers().8);
    lemma_clones_are_transparent::<IN, J>(a.parsers().9);
    lemma_clones_are_transparent::<IN, K>(a.parsers().10);
    lemma_clones_are_transparent::<IN, L>(a.parsers().11);
    lemma_clones_are_transparent::<IN, M>(a.parsers().12);
    lemma_clones_are_transparent::<IN, N>(a.parsers().13);
    lemma_clones_are_transparent::<IN, O>(a.parsers().14);
    lemma_clones_are_transparent::<IN, P>(a.parsers().15);
    lemma_clones_are_transparent::<IN, Q>(a.parsers().16);
    lemma_clones_are_transparent::<IN, R>(a.parsers().17);
}

impl<IN: Clone, OUT, A, B, C, D, E, F, G, H, I, J, K, L, M, N, O, P, Q, R, S> From<(A, B, C, D, E, F, G, H, I, J, K, L, M, N, O, P, Q, R, S)> for Alt<IN, (A, B, C, D, E, F, G, H, I, J, K, L, M, N, O, P, Q, R, S)> where
    A: Parser<IN, Out = OUT>,
    B: Parser<IN, Out = OUT>,
    C: Parser<IN, Out = OUT>,
    D: Parser<IN, Out = OUT>,
    E: Parser<IN, Out = OUT>,
    F: Parser<IN, Out = OUT>,
    G: Parser<IN, Out = OUT>,
    H: Parser<IN, Out = OUT>,
    I: Parser<IN, Out = OUT>,
    J: Parser<IN, Out = OUT>,
    K: Parser<IN, Out = OUT>,
    L: Parser<IN, Out = OUT>,
    M: Parser<IN, Out = OUT>,
    N: Parser<IN, Out = OUT>,
    O: Parser<IN, Out = OUT>,
    P: Parser<IN, Out = OUT>,
    Q: Parser<IN, Out = OUT>,
    R: Parser<IN, Out = OUT>,
    S: Parser<IN, Out = OUT>,
 {
    fn from(ps: (A, B, C, D, E, F, G, H, I, J, K, L, M, N, O, P, Q, R, S)) -> (r: Self) {
        let r = Self { ps, _ghost: PhantomData };
        proof {
            lemma_alt_determined_by_parsers(r, ps);
        }
        r
    }
}

impl<IN: Clone, OUT, A, B, C, D, E, F, G, H, I, J, K, L, M, N, O, P, Q, R, S> FromSpecImpl<(A, B, C, D, E, F, G, H, I, J, K, L, M, N, O, P, Q, R, S)> for Alt<IN, (A, B, C, D, E, F, G, H, I, J, K, L, M, N, O, P, Q, R, S)> where
    A: Parser<IN, Out = OUT>,
    B: Parser<IN, Out = OUT>,
    C: Parser<IN, Out = OUT>,
    D: Parser<IN, Out = OUT>,
    E: Parser<IN, Out = OUT>,
    F: Parser<IN, Out = OUT>,
    G: Parser<IN, Out = OUT>,
    H: Parser<IN, Out = OUT>,
    I: Parser<IN, Out = OUT>,
    J: Parser<IN, Out = OUT>,
    K: Parser<IN, Out = OUT>,
    L: Parser<IN, Out = OUT>,
    M: Parser<IN, Out = OUT>,
    N: Parser<IN, Out = OUT>,
    O: Parser<IN, Out = OUT>,
    P: Parser<IN, Out = OUT>,
    Q: Parser<IN, Out = OUT>,
    R: Parser<IN, Out = OUT>,
    S: Parser<IN, Out = OUT>,
 {
    open spec fn obeys_from_spec() -> bool {
        true
    }

    open spec fn from_spec(ps: (A, B, C, D, E, F, G, H, I, J, K, L, M, N, O, P, Q, R, S)) -> Self {
        choose|a: Self| a.parsers() == ps
    }
}

/// An alternative of 19 parsers with one output type.
impl<IN: Clone, OUT, A, B, C, D, E, F, G, H, I, J, K, L, M, N, O, P, Q, R, S> Parser<IN> for Alt<IN, (A, B, C, D, E, F, G, H, I, J, K, L, M, N, O, P, Q, R, S)> where
    A: Parser<IN, Out = OUT>,
    B: Parser<IN, Out = OUT>,
    C: Parser<IN, Out = OUT>,
    D: Parser<IN, Out = OUT>,
    E: Parser<IN, Out = OUT>,
    F: Parser<IN, Out = OUT>,
    G: Parser<IN, Out = OUT>,
    H: Parser<IN, Out = OUT>,
    I: Parser<IN, Out = OUT>,
    J: Parser<IN, Out = OUT>,
    K: Parser<IN, Out = OUT>,
    L: Parser<IN, Out = OUT>,
    M: Parser<IN, Out = OUT>,
    N: Parser<IN, Out = OUT>,
    O: Parser<IN, Out = OUT>,
    P: Parser<IN, Out = OUT>,
    Q: Parser<IN, Out = OUT>,
    R: Parser<IN, Out = OUT>,
    S: Parser<IN, Out = OUT>,
 {
    type Out = OUT;

    type Error = (A::Error, B::Error, C::Error, D::Error, E::Error, F::Error, G::Error, H::Error, I::Error, J::Error, K::Error, L::Error, M::Error, N::Error, O::Error, P::Error, Q::Error, R::Error, S::Error);

    open spec fn parse_requires(&self, input: IN) -> bool {
        let ps = self.parsers();
        &&& accepts_clones(ps.0, input)
        &&& fails_on_clone(ps.0, input)
            ==> accepts_clones(ps.1, input)
        &&& fails_on_clone(ps.0, input)
            && fails_on_clone(ps.1, input)
            ==> accepts_clones(ps.2, input)
        &&& fails_on_clone(ps.0, input)
            && fails_on_clone(ps.1, input)
            && fails_on_clone(ps.2, input)
            ==> accepts_clones(ps.3, input)
        &&& fails_on_clone(ps.0, input)
            && fails_on_clone(ps.1, input)
            && fails_on_clone(ps.2, input)
            && fails_on_clone(ps.3, input)
            ==> accepts_clones(ps.4, input)
        &&& fails_on_clone(ps.0, input)
            && fails_on_clone(ps.1, input)
            && fails_on_clone(ps.2, input)
            && fails_on_clone(ps.3, input)
            && fails_on_clone(ps.4, input)
            ==> accepts_clones(ps.5, input)
        &&& fails_on_clone(ps.0, input)
            && fails_on_clone(ps.1, input)
            && fails_on_clone(ps.2, input)
            && fails_on_clone(ps.3, input)
            && fails_on_clone(ps.4, input)
            && fails_on_clone(ps.5, input)
            ==> accepts_clones(ps.6, input)
        &&& fails_on_clone(ps.0, input)
            && fails_on_clone(ps.1, input)
            && fails_on_clone(ps.2, input)
            && fails_on_clone(ps.3, input)
            && fails_on_clone(ps.4, input)
            && fails_on_clone(ps.5, input)
            && fails_on_clone(ps.6, input)
            ==> accepts_clones(ps.7, input)
        &&& fails_on_clone(ps.0, input)
            && fails_on_clone(ps.1, input)
            && fails_on_clone(ps.2, input)
            && fails_on_clone(ps.3, input)
            && fails_on_clone(ps.4, input)
            && fails_on_clone(ps.5, input)
            && fails_on_clone(ps.6, input)
            && fails_on_clone(ps.7, input)
            ==> accepts_clones(ps.8, input)
        &&& fails_on_clone(ps.0, input)
            && fails_on_clone(ps.1, input)
            && fails_on_clone(ps.2, input)
            && fails_on_clone(ps.3, input)
            && fails_on_clone(ps.4, input)
            && fails_on_clone(ps.5, input)
            && fails_on_clone(ps.6, input)
            && fails_on_clone(ps.7, input)
            && fails_on_clone(ps.8, input)
            ==> accepts_clones(ps.9, input)
        &&& fails_on_clone(ps.0, input)
            && fails_on_clone(ps.1, input)
            && fails_on_clone(ps.2, input)
            && fails_on_clone(ps.3, input)
            && fails_on_clone(ps.4, input)
            && fails_on_clone(ps.5, input)
            && fails_on_clone(ps.6, input)
            && fails_on_clone(ps.7, input)
            && fails_on_clone(ps.8, input)
            && fails_on_clone(ps.9, input)
            ==> accepts_clones(ps.10, input)
        &&& fails_on_clone(ps.0, input)
            && fails_on_clone(ps.1, input)
            && fails_on_clone(ps.2, input)
            && fails_on_clone(ps.3, input)
            && fails_on_clone(ps.4, input)
            && fails_on_clone(ps.5, input)
            && fails_on_clone(ps.6, input)
            && fails_on_clone(ps.7, input)
            && fails_on_clone(ps.8, input)
            && fails_on_clone(ps.9, input)
            && fails_on_clone(ps.10, input)
            ==> accepts_clones(ps.11, input)
        &&& fails_on_clone(ps.0, input)
            && fails_on_clone(ps.1, input)
            && fails_on_clone(ps.2, input)
            && fails_on_clone(ps.3, input)
            && fails_on_clone(ps.4, input)
            && fails_on_clone(ps.5, input)
            && fails_on_clone(ps.6, input)
            && fails_on_clone(ps.7, input)
            && fails_on_clone(ps.8, input)
            && fails_on_clone(ps.9, input)
            && fails_on_clone(ps.10, input)
            && fails_on_clone(ps.11, input)
            ==> accepts_clones(ps.12, input)
        &&& fails_on_clone(ps.0, input)
            && fails_on_clone(ps.1, input)
            && fails_on_clone(ps.2, input)
            && fails_on_clone(ps.3, input)
            && fails_on_clone(ps.4, input)
            && fails_on_clone(ps.5, input)
            && fails_on_clone(ps.6, input)
            && fails_on_clone(ps.7, input)
            && fails_on_clone(ps.8, input)
            && fails_on_clone(ps.9, input)
            && fails_on_clone(ps.10, input)
            && fails_on_clone(ps.11, input)
            && fails_on_clone(ps.12, input)
            ==> accepts_clones(ps.13, input)
        &&& fails_on_clone(ps.0, input)
            && fails_on_clone(ps.1, input)
            && fails_on_clone(ps.2, input)
            && fails_on_clone(ps.3, input)
            && fails_on_clone(ps.4, input)
            && fails_on_clone(ps.5, input)
            && fails_on_clone(ps.6, input)
            && fails_on_clone(ps.7, input)
            && fails_on_clone(ps.8, input)
            && fails_on_clone(ps.9, input)
            && fails_on_clone(ps.10, input)
            && fails_on_clone(ps.11, input)
            && fails_on_clone(ps.12, input)
            && fails_on_clone(ps.13, input)
            ==> accepts_clones(ps.14, input)
        &&& fails_on_clone(ps.0, input)
            && fails_on_clone(ps.1, input)
            && fails_on_clone(ps.2, input)
            && fails_on_clone(ps.3, input)
            && fails_on_clone(ps.4, input)
            && fails_on_clone(ps.5, input)
            && fails_on_clone(ps.6, input)
            && fails_on_clone(ps.7, input)
            && fails_on_clone(ps.8, input)
            && fails_on_clone(ps.9, input)
            && fails_on_clone(ps.10, input)
            && fails_on_clone(ps.11, input)
            && fails_on_clone(ps.12, input)
            && fails_on_clone(ps.13, input)
            && fails_on_clone(ps.14, input)
            ==> accepts_clones(ps.15, input)
        &&& fails_on_clone(ps.0, input)
            && fails_on_clone(ps.1, input)
            && fails_on_clone(ps.2, input)
            && fails_on_clone(ps.3, input)
            && fails_on_clone(ps.4, input)
            && fails_on_clone(ps.5, input)
            && fails_on_clone(ps.6, input)
            && fails_on_clone(ps.7, input)
            && fails_on_clone(ps.8, input)
            && fails_on_clone(ps.9, input)
            && fails_on_clone(ps.10, input)
            && fails_on_clone(ps.11, input)
            && fails_on_clone(ps.12, input)
            && fails_on_clone(ps.13, input)
            && fails_on_clone(ps.14, input)
            && fails_on_clone(ps.15, input)
            ==> accepts_clones(ps.16, input)
        &&& fails_on_clone(ps.0, input)
            && fails_on_clone(ps.1, input)
            && fails_on_clone(ps.2, input)
            && fails_on_clone(ps.3, input)
            && fails_on_clone(ps.4, input)
            && fails_on_clone(ps.5, input)
            && fails_on_clone(ps.6, input)
            && fails_on_clone(ps.7, input)
            && fails_on_clone(ps.8, input)
            && fails_on_clone(ps.9, input)
            && fails_on_clone(ps.10, input)
            && fails_on_clone(ps.11, input)
            && fails_on_clone(ps.12, input)
            && fails_on_clone(ps.13, input)
            && fails_on_clone(ps.14, input)
            && fails_on_clone(ps.15, input)
            && fails_on_clone(ps.16, input)
            ==> accepts_clones(ps.17, input)
        &&& fails_on_clone(ps.0, input)
            && fails_on_clone(ps.1, input)
            && fails_on_clone(ps.2, input)
            && fails_on_clone(ps.3, input)
            && fails_on_clone(ps.4, input)
            && fails_on_clone(ps.5, input)
            && fails_on_clone(ps.6, input)
            && fails_on_clone(ps.7, input)
            && fails_on_clone(ps.8, input)
            && fails_on_clone(ps.9, input)
            && fails_on_clone(ps.10, input)
            && fails_on_clone(ps.11, input)
            && fails_on_clone(ps.12, input)
            && fails_on_clone(ps.13, input)
            && fails_on_clone(ps.14, input)
            && fails_on_clone(ps.15, input)
            && fails_on_clone(ps.16, input)
            && fails_on_clone(ps.17, input)
            ==> accepts_clones(ps.18, input)
    }

    open spec fn parse_ensures(&self, input: IN, res: Result<(OUT, IN), (A::Error, B::Error, C::Error, D::Error, E::Error, F::Error, G::Error, H::Error, I::Error, J::Error, K::Error, L::Error, M::Error, N::Error, O::Error, P::Error, Q::Error, R::Error, S::Error)>) -> bool {
        let ps = self.parsers();
        match res {
            Ok(x) => {
                ||| yields_on_clone(ps.0, input, Ok(x))
                ||| fails_on_clone(ps.0, input)
                    && yields_on_clone(ps.1, input, Ok(x))
                ||| fails_on_clone(ps.0, input)
                    && fails_on_clone(ps.1, input)
                    && yields_on_clone(ps.2, input, Ok(x))
                ||| fails_on_clone(ps.0, input)
                    && fails_on_clone(ps.1, input)
                    && fails_on_clone(ps.2, input)
                    && yields_on_clone(ps.3, input, Ok(x))
                ||| fails_on_clone(ps.0, input)
                    && fails_on_clone(ps.1, input)
                    && fails_on_clone(ps.2, input)
                    && fails_on_clone(ps.3, input)
                    && yields_on_clone(ps.4, input, Ok(x))
                ||| fails_on_clone(ps.0, input)
                    && fails_on_clone(ps.1, input)
                    && fails_on_clone(ps.2, input)
                    && fails_on_clone(ps.3, input)
                    && fails_on_clone(ps.4, input)
                    && yields_on_clone(ps.5, input, Ok(x))
                ||| fails_on_clone(ps.0, input)
                    && fails_on_clone(ps.1, input)
                    && fails_on_clone(ps.2, input)
                    && fails_on_clone(ps.3, input)
                    && fails_on_clone(ps.4, input)
                    && fails_on_clone(ps.5, input)
                    && yields_on_clone(ps.6, input, Ok(x))
                ||| fails_on_clone(ps.0, input)
                    && fails_on_clone(ps.1, input)
                    && fails_on_clone(ps.2, input)
                    && fails_on_clone(ps.3, input)
                    && fails_on_clone(ps.4, input)
                    && fails_on_clone(ps.5, input)
                    && fails_on_clone(ps.6, input)
                    && yields_on_clone(ps.7, input, Ok(x))
                ||| fails_on_clone(ps.0, input)
                    && fails_on_clone(ps.1, input)
                    && fails_on_clone(ps.2, input)
                    && fails_on_clone(ps.3, input)
                    && fails_on_clone(ps.4, input)
                    && fails_on_clone(ps.5, input)
                    && fails_on_clone(ps.6, input)
                    && fails_on_clone(ps.7, input)
                    && yields_on_clone(ps.8, input, Ok(x))
                ||| fails_on_clone(ps.0, input)
                    && fails_on_clone(ps.1, input)
                    && fails_on_clone(ps.2, input)
                    && fails_on_clone(ps.3, input)
                    && fails_on_clone(ps.4, input)
                    && fails_on_clone(ps.5, input)
                    && fails_on_clone(ps.6, input)
                    && fails_on_clone(ps.7, input)
                    && fails_on_clone(ps.8, input)
                    && yields_on_clone(ps.9, input, Ok(x))
                ||| fails_on_clone(ps.0, input)
                    && fails_on_clone(ps.1, input)
                    && fails_on_clone(ps.2, input)
                    && fails_on_clone(ps.3, input)
                    && fails_on_clone(ps.4, input)
                    && fails_on_clone(ps.5, input)
                    && fails_on_clone(ps.6, input)
                    && fails_on_clone(ps.7, input)
                    && fails_on_clone(ps.8, input)
                    && fails_on_clone(ps.9, input)
                    && yields_on_clone(ps.10, input, Ok(x))
                ||| fails_on_clone(ps.0, input)
                    && fails_on_clone(ps.1, input)
                    && fails_on_clone(ps.2, input)
                    && fails_on_clone(ps.3, input)
                    && fails_on_clone(ps.4, input)
                    && fails_on_clone(ps.5, input)
                    && fails_on_clone(ps.6, input)
                    && fails_on_clone(ps.7, input)
                    && fails_on_clone(ps.8, input)
                    && fails_on_clone(ps.9, input)
                    && fails_on_clone(ps.10, input)
                    && yields_on_clone(ps.11, input, Ok(x))
                ||| fails_on_clone(ps.0, input)
                    && fails_on_clone(ps.1, input)
                    && fails_on_clone(ps.2, input)
                    && fails_on_clone(ps.3, input)
                    && fails_on_clone(ps.4, input)
                    && fails_on_clone(ps.5, input)
                    && fails_on_clone(ps.6, input)
                    && fails_on_clone(ps.7, input)
                    && fails_on_clone(ps.8, input)
                    && fails_on_clone(ps.9, input)
                    && fails_on_clone(ps.10, input)
                    && fails_on_clone(ps.11, input)
                    && yields_on_clone(ps.12, input, Ok(x))
                ||| fails_on_clone(ps.0, input)
                    && fails_on_clone(ps.1, input)
                    && fails_on_clone(ps.2, input)
                    && fails_on_clone(ps.3, input)
                    && fails_on_clone(ps.4, input)
                    && fails_on_clone(ps.5, input)
                    && fails_on_clone(ps.6, input)
                    && fails_on_clone(ps.7, input)
                    && fails_on_clone(ps.8, input)
                    && fails_on_clone(ps.9, input)
                    && fails_on_clone(ps.10, input)
                    && fails_on_clone(ps.11, input)
                    && fails_on_clone(ps.12, input)
                    && yields_on_clone(ps.13, input, Ok(x))
                ||| fails_on_clone(ps.0, input)
                    && fails_on_clone(ps.1, input)
                    && fails_on_clone(ps.2, input)
                    && fails_on_clone(ps.3, input)
                    && fails_on_clone(ps.4, input)
                    && fails_on_clone(ps.5, input)
                    && fails_on_clone(ps.6, input)
                    && fails_on_clone(ps.7, input)
                    && fails_on_clone(ps.8, input)
                    && fails_on_clone(ps.9, input)
                    && fails_on_clone(ps.10, input)
                    && fails_on_clone(ps.11, input)
                    && fails_on_clone(ps.12, input)
                    && fails_on_clone(ps.13, input)
                    && yields_on_clone(ps.14, input, Ok(x))
                ||| fails_on_clone(ps.0, input)
                    && fails_on_clone(ps.1, input)
                    && fails_on_clone(ps.2, input)
                    && fails_on_clone(ps.3, input)
                    && fails_on_clone(ps.4, input)
                    && fails_on_clone(ps.5, input)
                    && fails_on_clone(ps.6, input)
                    && fails_on_clone(ps.7, input)
                    && fails_on_clone(ps.8, input)
                    && fails_on_clone(ps.9, input)
                    && fails_on_clone(ps.10, input)
                    && fails_on_clone(ps.11, input)
                    && fails_on_clone(ps.12, input)
                    && fails_on_clone(ps.13, input)
                    && fails_on_clone(ps.14, input)
                    && yields_on_clone(ps.15, input, Ok(x))
                ||| fails_on_clone(ps.0, input)
                    && fails_on_clone(ps.1, input)
                    && fails_on_clone(ps.2, input)
                    && fails_on_clone(ps.3, input)
                    && fails_on_clone(ps.4, input)
                    && fails_on_clone(ps.5, input)
                    && fails_on_clone(ps.6, input)
                    && fails_on_clone(ps.7, input)
                    && fails_on_clone(ps.8, input)
                    && fails_on_clone(ps.9, input)
                    && fails_on_clone(ps.10, input)
                    && fails_on_clone(ps.11, input)
                    && fails_on_clone(ps.12, input)
                    && fails_on_clone(ps.13, input)
                    && fails_on_clone(ps.14, input)
                    && fails_on_clone(ps.15, input)
                    && yields_on_clone(ps.16, input, Ok(x))
                ||| fails_on_clone(ps.0, input)
                    && fails_on_clone(ps.1, input)
                    && fails_on_clone(ps.2, input)
                    && fails_on_clone(ps.3, input)
                    && fails_on_clone(ps.4, input)
                    && fails_on_clone(ps.5, input)
                    && fails_on_clone(ps.6, input)
                    && fails_on_clone(ps.7, input)
                    && fails_on_clone(ps.8, input)
                    && fails_on_clone(ps.9, input)
                    && fails_on_clone(ps.10, input)
                    && fails_on_clone(ps.11, input)
                    && fails_on_clone(ps.12, input)
                    && fails_on_clone(ps.13, input)
                    && fails_on_clone(ps.14, input)
                    && fails_on_clone(ps.15, input)
                    && fails_on_clone(ps.16, input)
                    && yields_on_clone(ps.17, input, Ok(x))
                ||| fails_on_clone(ps.0, input)
                    && fails_on_clone(ps.1, input)
                    && fails_on_clone(ps.2, input)
                    && fails_on_clone(ps.3, input)
                    && fails_on_clone(ps.4, input)
                    && fails_on_clone(ps.5, input)
                    && fails_on_clone(ps.6, input)
                    && fails_on_clone(ps.7, input)
                    && fails_on_clone(ps.8, input)
                    && fails_on_clone(ps.9, input)
                    && fails_on_clone(ps.10, input)
                    && fails_on_clone(ps.11, input)
                    && fails_on_clone(ps.12, input)
                    && fails_on_clone(ps.13, input)
                    && fails_on_clone(ps.14, input)
                    && fails_on_clone(ps.15, input)
                    && fails_on_clone(ps.16, input)
                    && fails_on_clone(ps.17, input)
                    && yields_on_clone(ps.18, input, Ok(x))
            },
            Err((a, b, c, d, e, f, g, h, i, j, k, l, m, n, o, p, q, r, s)) => {
                &&& yields_on_clone(ps.0, input, Err(a))
                &&& yields_on_clone(ps.1, input, Err(b))
                &&& yields_on_clone(ps.2, input, Err(c))
                &&& yields_on_clone(ps.3, input, Err(d))
                &&& yields_on_clone(ps.4, input, Err(e))
                &&& yields_on_clone(ps.5, input, Err(f))
                &&& yields_on_clone(ps.6, input, Err(g))
                &&& yields_on_clone(ps.7, input, Err(h))
                &&& yields_on_clone(ps.8, input, Err(i))
                &&& yields_on_clone(ps.9, input, Err(j))
                &&& yields_on_clone(ps.10, input, Err(k))
                &&& yields_on_clone(ps.11, input, Err(l))
                &&& yields_on_clone(ps.12, input, Err(m))
                &&& yields_on_clone(ps.13, input, Err(n))
                &&& yields_on_clone(ps.14, input, Err(o))
                &&& yields_on_clone(ps.15, input, Err(p))
                &&& yields_on_clone(ps.16, input, Err(q))
                &&& yields_on_clone(ps.17, input, Err(r))
                &&& yields_on_clone(ps.18, input, Err(s))
            },
        }
    }

    fn parse(&self, txt: IN) -> (res: Result<(OUT, IN), (A::Error, B::Error, C::Error, D::Error, E::Error, F::Error, G::Error, H::Error, I::Error, J::Error, K::Error, L::Error, M::Error, N::Error, O::Error, P::Error, Q::Error, R::Error, S::Error)>) {
        let c0 = txt.clone();
        let a = match self.ps.0.parse(c0) {
            Ok(r) => {
                assert(yields_on_clone(self.ps.0, txt, Ok(r)));
                return Ok(r);
            },
            Err(e) => e,
        };
        assert(yields_on_clone(self.ps.0, txt, Err(a)));
        let c1 = txt.clone();
        let b = match self.ps.1.parse(c1) {
            Ok(r) => {
                assert(yields_on_clone(self.ps.1, txt, Ok(r)));
                return Ok(r);
            },
            Err(e) => e,
        };
        assert(yields_on_clone(self.ps.1, txt, Err(b)));
        let c2 = txt.clone();
        let c = match self.ps.2.parse(c2) {
            Ok(r) => {
                assert(yields_on_clone(self.ps.2, txt, Ok(r)));
                return Ok(r);
            },
            Err(e) => e,
        };
        assert(yields_on_clone(self.ps.2, txt, Err(c)));
        let c3 = txt.clone();
        let d = match self.ps.3.parse(c3) {
            Ok(r) => {
                assert(yields_on_clone(self.ps.3, txt, Ok(r)));
                return Ok(r);
            },
            Err(e) => e,
        };
        assert(yields_on_clone(self.ps.3, txt, Err(d)));
        let c4 = txt.clone();
        let e = match self.ps.4.parse(c4) {
            Ok(r) => {
                assert(yields_on_clone(self.ps.4, txt, Ok(r)));
                return Ok(r);
            },
            Err(e) => e,
        };
        assert(yields_on_clone(self.ps.4, txt, Err(e)));
        let c5 = txt.clone();
        let f = match self.ps.5.parse(c5) {
            Ok(r) => {
                assert(yields_on_clone(self.ps.5, txt, Ok(r)));
                return Ok(r);
            },
            Err(e) => e,
        };
        assert(yields_on_clone(self.ps.5, txt, Err(f)));
        let c6 = txt.clone();
        let g = match self.ps.6.parse(c6) {
            Ok(r) => {
                assert(yields_on_clone(self.ps.6, txt, Ok(r)));
                return Ok(r);
            },
            Err(e) => e,
        };
        assert(yields_on_clone(self.ps.6, txt, Err(g)));
        let c7 = txt.clone();
        let h = match self.ps.7.parse(c7) {
            Ok(r) => {
                assert(yields_on_clone(self.ps.7, txt, Ok(r)));
                return Ok(r);
            },
            Err(e) => e,
        };
        assert(yields_on_clone(self.ps.7, txt, Err(h)));
        let c8 = txt.clone();
        let i = match self.ps.8.parse(c8) {
            Ok(r) => {
                assert(yields_on_clone(self.ps.8, txt, Ok(r)));
                return Ok(r);
            },
            Err(e) => e,
        };
        assert(yields_on_clone(self.ps.8, txt, Err(i)));
        let c9 = txt.clone();
        let j = match self.ps.9.parse(c9) {
            Ok(r) => {
                assert(yields_on_clone(self.ps.9, txt, Ok(r)));
                return Ok(r);
            },
            Err(e) => e,
        };
        assert(yields_on_clone(self.ps.9, txt, Err(j)));
        let c10 = txt.clone();
        let k = match self.ps.10.parse(c10) {
            Ok(r) => {
                assert(yields_on_clone(self.ps.10, txt, Ok(r)));
                return Ok(r);
            },
            Err(e) => e,
        };
        assert(yields_on_clone(self.ps.10, txt, Err(k)));
        let c11 = txt.clone();
        let l = match self.ps.11.parse(c11) {
            Ok(r) => {
                assert(yields_on_clone(self.ps.11, txt, Ok(r)));
                return Ok(r);
            },
            Err(e) => e,
        };
        assert(yields_on_clone(self.ps.11, txt, Err(l)));
        let c12 = txt.clone();
        let m = match self.ps.12.parse(c12) {
            Ok(r) => {
                assert(yields_on_clone(self.ps.12, txt, Ok(r)));
                return Ok(r);
            },
            Err(e) => e,
        };
        assert(yields_on_clone(self.ps.12, txt, Err(m)));
        let c13 = txt.clone();
        let n = match self.ps.13.parse(c13) {
            Ok(r) => {
                assert(yields_on_clone(self.ps.13, txt, Ok(r)));
                return Ok(r);
            },
            Err(e) => e,
        };
        assert(yields_on_clone(self.ps.13, txt, Err(n)));
        let c14 = txt.clone();
        let o = match self.ps.14.parse(c14) {
            Ok(r) => {
                assert(yields_on_clone(self.ps.14, txt, Ok(r)));
                return Ok(r);
            },
            Err(e) => e,
        };
        assert(yields_on_clone(self.ps.14, txt, Err(o)));
        let c15 = txt.clone();
        let p = match self.ps.15.parse(c15) {
            Ok(r) => {
                assert(yields_on_clone(self.ps.15, txt, Ok(r)));
                return Ok(r);
            },
            Err(e) => e,
        };
        assert(yields_on_clone(self.ps.15, txt, Err(p)));
        let c16 = txt.clone();
        let q = match self.ps.16.parse(c16) {
            Ok(r) => {
                assert(yields_on_clone(self.ps.16, txt, Ok(r)));
                return Ok(r);
            },
            Err(e) => e,
        };
        assert(yields_on_clone(self.ps.16, txt, Err(q)));
        let c17 = txt.clone();
        let r = match self.ps.17.parse(c17) {
            Ok(r) => {
                assert(yields_on_clone(self.ps.17, txt, Ok(r)));
                return Ok(r);
            },
            Err(e) => e,
        };
        assert(yields_on_clone(self.ps.17, txt, Err(r)));
        let c18 = txt.clone();
        let s = match self.ps.18.parse(c18) {
            Ok(r) => {
                assert(yields_on_clone(self.ps.18, txt, Ok(r)));
                return Ok(r);
            },
            Err(e) => e,
        };
        assert(yields_on_clone(self.ps.18, txt, Err(s)));
        Err((a, b, c, d, e, f, g, h, i, j, k, l, m, n, o, p, q, r, s))
    }
}

/// Over inputs whose clones are equal, an alternative of 19 deterministic
/// parsers is deterministic.
pub proof fn lemma_alt19_deterministic<IN: Clone, OUT, A, B, C, D, E, F, G, H, I, J, K, L, M, N, O, P, Q, R, S>(a: Alt<IN, (A, B, C, D, E, F, G, H, I, J, K, L, M, N, O, P, Q, R, S)>)
    where
        A: Parser<IN, Out = OUT>,
        B: Parser<IN, Out = OUT>,
        C: Parser<IN, Out = OUT>,
        D: Parser<IN, Out = OUT>,
        E: Parser<IN, Out = OUT>,
        F: Parser<IN, Out = OUT>,
        G: Parser<IN, Out = OUT>,
        H: Parser<IN, Out = OUT>,
        I: Parser<IN, Out = OUT>,
        J: Parser<IN, Out = OUT>,
        K: Parser<IN, Out = OUT>,
        L: Parser<IN, Out = OUT>,
        M: Parser<IN, Out = OUT>,
        N: Parser<IN, Out = OUT>,
        O: Parser<IN, Out = OUT>,
        P: Parser<IN, Out = OUT>,
        Q: Parser<IN, Out = OUT>,
        R: Parser<IN, Out = OUT>,
        S: Parser<IN, Out = OUT>,
    requires
        clones_are_equal::<IN>(),
        deterministic::<IN, A>(a.parsers().0),
        deterministic::<IN, B>(a.parsers().1),
        deterministic::<IN, C>(a.parsers().2),
        deterministic::<IN, D>(a.parsers().3),
        deterministic::<IN, E>(a.parsers().4),
        deterministic::<IN, F>(a.parsers().5),
        deterministic::<IN, G>(a.parsers().6),
        deterministic::<IN, H>(a.parsers().7),
        deterministic::<IN, I>(a.parsers().8),
        deterministic::<IN, J>(a.parsers().9),
        deterministic::<IN, K>(a.parsers().10),
        deterministic::<IN, L>(a.parsers().11),
        deterministic::<IN, M>(a.parsers().12),
        deterministic::<IN, N>(a.parsers().13),
        deterministic::<IN, O>(a.parsers().14),
        deterministic::<IN, P>(a.parsers().15),
        deterministic::<IN, Q>(a.parsers().16),
        deterministic::<IN, R>(a.parsers().17),
        deterministic::<IN, S>(a.parsers().18),
    ensures
        deterministic::<IN, Alt<IN, (A, B, C, D, E, F, G, H, I, J, K, L, M, N, O, P, Q, R, S)>>(a),
{
    lemma_clones_are_transparent::<IN, A>(a.parsers().0);
    lemma_clones_are_transparent::<IN, B>(a.parsers().1);
    lemma_clones_are_transparent::<IN, C>(a.parsers().2);
    lemma_clones_are_transparent::<IN, D>(a.parsers().3);
    lemma_clones_are_transparent::<IN, E>(a.parsers().4);
    lemma_clones_are_transparent::<IN, F>(a.parsers().5);
    lemma_clones_are_transparent::<IN, G>(a.parsers().6);
    lemma_clones_are_transparent::<IN, H>(a.parsers().7);
    lemma_clones_are_transparent::<IN, I>(a.parsers().8);
    lemma_clones_are_transparent::<IN, J>(a.parsers().9);
    lemma_clones_are_transparent::<IN, K>(a.parsers().10);
    lemma_clones_are_transparent::<IN, L>(a.parsers().11);
    lemma_clones_are_transparent::<IN, M>(a.parsers().12);
    lemma_clones_are_transparent::<IN, N>(a.parsers().13);
    lemma_clones_are_transparent::<IN, O>(a.parsers().14);
    lemma_clones_are_transparent::<IN, P>(a.parsers().15);
    lemma_clones_are_transparent::<IN, Q>(a.parsers().16);
    lemma_clones_are_transparent::<IN, R>(a.parsers().17);
    lemma_clones_are_transparent::<IN, S>(a.parsers().18);
}

impl<IN: Clone, OUT, A, B, C, D, E, F, G, H, I, J, K, L, M, N, O, P, Q, R, S, T> From<(A, B, C, D, E, F, G, H, I, J, K, L, M, N, O, P, Q, R, S, T)> for Alt<IN, (A, B, C, D, E, F, G, H, I, J, K, L, M, N, O, P, Q, R, S, T)> where
    A: Parser<IN, Out = OUT>,
    B: Parser<IN, Out = OUT>,
    C: Parser<IN, Out = OUT>,
    D: Parser<IN, Out = OUT>,
    E: Parser<IN, Out = OUT>,
    F: Parser<IN, Out = OUT>,
    G: Parser<IN, Out = OUT>,
    H: Parser<IN, Out = OUT>,
    I: Parser<IN, Out = OUT>,
    J: Parser<IN, Out = OUT>,
    K: Parser<IN, Out = OUT>,
    L: Parser<IN, Out = OUT>,
    M: Parser<IN, Out = OUT>,
    N: Parser<IN, Out = OUT>,
    O: Parser<IN, Out = OUT>,
    P: Parser<IN, Out = OUT>,
    Q: Parser<IN, Out = OUT>,
    R: Parser<IN, Out = OUT>,
    S: Parser<IN, Out = OUT>,
    T: Parser<IN, Out = OUT>,
 {
    fn from(ps: (A, B, C, D, E, F, G, H, I, J, K, L, M, N, O, P, Q, R, S, T)) -> (r: Self) {
        let r = Self { ps, _ghost: PhantomData };
        proof {
            lemma_alt_determined_by_parsers(r, ps);
        }
        r
    }
}

impl<IN: Clone, OUT, A, B, C, D, E, F, G, H, I, J, K, L, M, N, O, P, Q, R, S, T> FromSpecImpl<(A, B, C, D, E, F, G, H, I, J, K, L, M, N, O, P, Q, R, S, T)> for Alt<IN, (A, B, C, D, E, F, G, H, I, J, K, L, M, N, O, P, Q, R, S, T)> where
    A: Parser<IN, Out = OUT>,
    B: Parser<IN, Out = OUT>,
    C: Parser<IN, Out = OUT>,
    D: Parser<IN, Out = OUT>,
    E: Parser<IN, Out = OUT>,
    F: Parser<IN, Out = OUT>,
    G: Parser<IN, Out = OUT>,
    H: Parser<IN, Out = OUT>,
    I: Parser<IN, Out = OUT>,
    J: Parser<IN, Out = OUT>,
    K: Parser<IN, Out = OUT>,
    L: Parser<IN, Out = OUT>,
    M: Parser<IN, Out = OUT>,
    N: Parser<IN, Out = OUT>,
    O: Parser<IN, Out = OUT>,
    P: Parser<IN, Out = OUT>,
    Q: Parser<IN, Out = OUT>,
    R: Parser<IN, Out = OUT>,
    S: Parser<IN, Out = OUT>,
    T: Parser<IN, Out = OUT>,
 {
    open spec fn obeys_from_spec() -> bool {
        true
    }

    open spec fn from_spec(ps: (A, B, C, D, E, F, G, H, I, J, K, L, M, N, O, P, Q, R, S, T)) -> Self {
        choose|a: Self| a.parsers() == ps
    }
}

/// An alternative of 20 parsers with one output type.
impl<IN: Clone, OUT, A, B, C, D, E, F, G, H, I, J, K, L, M, N, O, P, Q, R, S, T> Parser<IN> for Alt<IN, (A, B, C, D, E, F, G, H, I, J, K, L, M, N, O, P, Q, R, S, T)> where
    A: Parser<IN, Out = OUT>,
    B: Parser<IN, Out = OUT>,
    C: Parser<IN, Out = OUT>,
    D: Parser<IN, Out = OUT>,
    E: Parser<IN, Out = OUT>,
    F: Parser<IN, Out = OUT>,
    G: Parser<IN, Out = OUT>,
    H: Parser<IN, Out = OUT>,
    I: Parser<IN, Out = OUT>,
    J: Parser<IN, Out = OUT>,
    K: Parser<IN, Out = OUT>,
    L: Parser<IN, Out = OUT>,
    M: Parser<IN, Out = OUT>,
    N: Parser<IN, Out = OUT>,
    O: Parser<IN, Out = OUT>,
    P: Parser<IN, Out = OUT>,
    Q: Parser<IN, Out = OUT>,
    R: Parser<IN, Out = OUT>,
    S: Parser<IN, Out = OUT>,
    T: Parser<IN, Out = OUT>,
 {
    type Out = OUT;

    type Error = (A::Error, B::Error, C::Error, D::Error, E::Error, F::Error, G::Error, H::Error, I::Error, J::Error, K::Error, L::Error, M::Error, N::Error, O::Error, P::Error, Q::Error, R::Error, S::Error, T::Error);

    open spec fn parse_requires(&self, input: IN) -> bool {
        let ps = self.parsers();
        &&& accepts_clones(ps.0, input)
        &&& fails_on_clone(ps.0, input)
            ==> accepts_clones(ps.1, input)
        &&& fails_on_clone(ps.0, input)
            && fails_on_clone(ps.1, input)
            ==> accepts_clones(ps.2, input)
        &&& fails_on_clone(ps.0, input)
            && fails_on_clone(ps.1, input)
            && fails_on_clone(ps.2, input)
            ==> accepts_clones(ps.3, input)
        &&& fails_on_clone(ps.0, input)
            && fails_on_clone(ps.1, input)
            && fails_on_clone(ps.2, input)
            && fails_on_clone(ps.3, input)
            ==> accepts_clones(ps.4, input)
        &&& fails_on_clone(ps.0, input)
            && fails_on_clone(ps.1, input)
            && fails_on_clone(ps.2, input)
            && fails_on_clone(ps.3, input)
            && fails_on_clone(ps.4, input)
            ==> accepts_clones(ps.5, input)
        &&& fails_on_clone(ps.0, input)
            && fails_on_clone(ps.1, input)
            && fails_on_clone(ps.2, input)
            && fails_on_clone(ps.3, input)
            && fails_on_clone(ps.4, input)
            && fails_on_clone(ps.5, input)
            ==> accepts_clones(ps.6, input)
        &&& fails_on_clone(ps.0, input)
            && fails_on_clone(ps.1, input)
            && fails_on_clone(ps.2, input)
            && fails_on_clone(ps.3, input)
            && fails_on_clone(ps.4, input)
            && fails_on_clone(ps.5, input)
            && fails_on_clone(ps.6, input)
            ==> accepts_clones(ps.7, input)
        &&& fails_on_clone(ps.0, input)
            && fails_on_clone(ps.1, input)
            && fails_on_clone(ps.2, input)
            && fails_on_clone(ps.3, input)
            && fails_on_clone(ps.4, input)
            && fails_on_clone(ps.5, input)
            && fails_on_clone(ps.6, input)
            && fails_on_clone(ps.7, input)
            ==> accepts_clones(ps.8, input)
        &&& fails_on_clone(ps.0, input)
            && fails_on_clone(ps.1, input)
            && fails_on_clone(ps.2, input)
            && fails_on_clone(ps.3, input)
            && fails_on_clone(ps.4, input)
            && fails_on_clone(ps.5, input)
            && fails_on_clone(ps.6, input)
            && fails_on_clone(ps.7, input)
            && fails_on_clone(ps.8, input)
            ==> accepts_clones(ps.9, input)
        &&& fails_on_clone(ps.0, input)
            && fails_on_clone(ps.1, input)
            && fails_on_clone(ps.2, input)
            && fails_on_clone(ps.3, input)
            && fails_on_clone(ps.4, input)
            && fails_on_clone(ps.5, input)
            && fails_on_clone(ps.6, input)
            && fails_on_clone(ps.7, input)
            && fails_on_clone(ps.8, input)
            && fails_on_clone(ps.9, input)
            ==> accepts_clones(ps.10, input)
        &&& fails_on_clone(ps.0, input)
            && fails_on_clone(ps.1, input)
            && fails_on_clone(ps.2, input)
            && fails_on_clone(ps.3, input)
            && fails_on_clone(ps.4, input)
            && fails_on_clone(ps.5, input)
            && fails_on_clone(ps.6, input)
            && fails_on_clone(ps.7, input)
            && fails_on_clone(ps.8, input)
            && fails_on_clone(ps.9, input)
            && fails_on_clone(ps.10, input)
            ==> accepts_clones(ps.11, input)
        &&& fails_on_clone(ps.0, input)
            && fails_on_clone(ps.1, input)
            && fails_on_clone(ps.2, input)
            && fails_on_clone(ps.3, input)
            && fails_on_clone(ps.4, input)
            && fails_on_clone(ps.5, input)
            && fails_on_clone(ps.6, input)
            && fails_on_clone(ps.7, input)
            && fails_on_clone(ps.8, input)
            && fails_on_clone(ps.9, input)
            && fails_on_clone(ps.10, input)
            && fails_on_clone(ps.11, input)
            ==> accepts_clones(ps.12, input)
        &&& fails_on_clone(ps.0, input)
            && fails_on_clone(ps.1, input)
            && fails_on_clone(ps.2, input)
            && fails_on_clone(ps.3, input)
            && fails_on_clone(ps.4, input)
            && fails_on_clone(ps.5, input)
            && fails_on_clone(ps.6, input)
            && fails_on_clone(ps.7, input)
            && fails_on_clone(ps.8, input)
            && fails_on_clone(ps.9, input)
            && fails_on_clone(ps.10, input)
            && fails_on_clone(ps.11, input)
            && fails_on_clone(ps.12, input)
            ==> accepts_clones(ps.13, input)
        &&& fails_on_clone(ps.0, input)
            && fails_on_clone(ps.1, input)
            && fails_on_clone(ps.2, input)
            && fails_on_clone(ps.3, input)
            && fails_on_clone(ps.4, input)
            && fails_on_clone(ps.5, input)
            && fails_on_clone(ps.6, input)
            && fails_on_clone(ps.7, input)
            && fails_on_clone(ps.8, input)
            && fails_on_clone(ps.9, input)
            && fails_on_clone(ps.10, input)
            && fails_on_clone(ps.11, input)
            && fails_on_clone(ps.12, input)
            && fails_on_clone(ps.13, input)
            ==> accepts_clones(ps.14, input)
        &&& fails_on_clone(ps.0, input)
            && fails_on_clone(ps.1, input)
            && fails_on_clone(ps.2, input)
            && fails_on_clone(ps.3, input)
            && fails_on_clone(ps.4, input)
            && fails_on_clone(ps.5, input)
            && fails_on_clone(ps.6, input)
            && fails_on_clone(ps.7, input)
            && fails_on_clone(ps.8, input)
            && fails_on_clone(ps.9, input)
            && fails_on_clone(ps.10, input)
            && fails_on_clone(ps.11, input)
            && fails_on_clone(ps.12, input)
            && fails_on_clone(ps.13, input)
            && fails_on_clone(ps.14, input)
            ==> accepts_clones(ps.15, input)
        &&& fails_on_clone(ps.0, input)
            && fails_on_clone(ps.1, input)
            && fails_on_clone(ps.2, input)
            && fails_on_clone(ps.3, input)
            && fails_on_clone(ps.4, input)
            && fails_on_clone(ps.5, input)
            && fails_on_clone(ps.6, input)
            && fails_on_clone(ps.7, input)
            && fails_on_clone(ps.8, input)
            && fails_on_clone(ps.9, input)
            && fails_on_clone(ps.10, input)
            && fails_on_clone(ps.11, input)
            && fails_on_clone(ps.12, input)
            && fails_on_clone(ps.13, input)
            && fails_on_clone(ps.14, input)
            && fails_on_clone(ps.15, input)
            ==> accepts_clones(ps.16, input)
        &&& fails_on_clone(ps.0, input)
            && fails_on_clone(ps.1, input)
            && fails_on_clone(ps.2, input)
            && fails_on_clone(ps.3, input)
            && fails_on_clone(ps.4, input)
            && fails_on_clone(ps.5, input)
            && fails_on_clone(ps.6, input)
            && fails_on_clone(ps.7, input)
            && fails_on_clone(ps.8, input)
            && fails_on_clone(ps.9, input)
            && fails_on_clone(ps.10, input)
            && fails_on_clone(ps.11, input)
            && fails_on_clone(ps.12, input)
            && fails_on_clone(ps.13, input)
            && fails_on_clone(ps.14, input)
            && fails_on_clone(ps.15, input)
            && fails_on_clone(ps.16, input)
            ==> accepts_clones(ps.17, input)
        &&& fails_on_clone(ps.0, input)
            && fails_on_clone(ps.1, input)
            && fails_on_clone(ps.2, input)
            && fails_on_clone(ps.3, input)
            && fails_on_clone(ps.4, input)
            && fails_on_clone(ps.5, input)
            && fails_on_clone(ps.6, input)
            && fails_on_clone(ps.7, input)
            && fails_on_clone(ps.8, input)
            && fails_on_clone(ps.9, input)
            && fails_on_clone(ps.10, input)
            && fails_on_clone(ps.11, input)
            && fails_on_clone(ps.12, input)
            && fails_on_clone(ps.13, input)
            && fails_on_clone(ps.14, input)
            && fails_on_clone(ps.15, input)
            && fails_on_clone(ps.16, input)
            && fails_on_clone(ps.17, input)
            ==> accepts_clones(ps.18, input)
        &&& fails_on_clone(ps.0, input)
            && fails_on_clone(ps.1, input)
            && fails_on_clone(ps.2, input)
            && fails_on_clone(ps.3, input)
            && fails_on_clone(ps.4, input)
            && fails_on_clone(ps.5, input)
            && fails_on_clone(ps.6, input)
            && fails_on_clone(ps.7, input)
            && fails_on_clone(ps.8, input)
            && fails_on_clone(ps.9, input)
            && fails_on_clone(ps.10, input)
            && fails_on_clone(ps.11, input)
            && fails_on_clone(ps.12, input)
            && fails_on_clone(ps.13, input)
            && fails_on_clone(ps.14, input)
            && fails_on_clone(ps.15, input)
            && fails_on_clone(ps.16, input)
            && fails_on_clone(ps.17, input)
            && fails_on_clone(ps.18, input)
            ==> accepts_clones(ps.19, input)
    }

    open spec fn parse_ensures(&self, input: IN, res: Result<(OUT, IN), (A::Error, B::Error, C::Error, D::Error, E::Error, F::Error, G::Error, H::Error, I::Error, J::Error, K::Error, L::Error, M::Error, N::Error, O::Error, P::Error, Q::Error, R::Error, S::Error, T::Error)>) -> bool {
        let ps = self.parsers();
        match res {
            Ok(x) => {
                ||| yields_on_clone(ps.0, input, Ok(x))
                ||| fails_on_clone(ps.0, input)
                    && yields_on_clone(ps.1, input, Ok(x))
                ||| fails_on_clone(ps.0, input)
                    && fails_on_clone(ps.1, input)
                    && yields_on_clone(ps.2, input, Ok(x))
                ||| fails_on_clone(ps.0, input)
                    && fails_on_clone(ps.1, input)
                    && fails_on_clone(ps.2, input)
                    && yields_on_clone(ps.3, input, Ok(x))
                ||| fails_on_clone(ps.0, input)
                    && fails_on_clone(ps.1, input)
                    && fails_on_clone(ps.2, input)
                    && fails_on_clone(ps.3, input)
                    && yields_on_clone(ps.4, input, Ok(x))
                ||| fails_on_clone(ps.0, input)
                    && fails_on_clone(ps.1, input)
                    && fails_on_clone(ps.2, input)
                    && fails_on_clone(ps.3, input)
                    && fails_on_clone(ps.4, input)
                    && yields_on_clone(ps.5, input, Ok(x))
                ||| fails_on_clone(ps.0, input)
                    && fails_on_clone(ps.1, input)
                    && fails_on_clone(ps.2, input)
                    && fails_on_clone(ps.3, input)
                    && fails_on_clone(ps.4, input)
                    && fails_on_clone(ps.5, input)
                    && yields_on_clone(ps.6, input, Ok(x))
                ||| fails_on_clone(ps.0, input)
                    && fails_on_clone(ps.1, input)
                    && fails_on_clone(ps.2, input)
                    && fails_on_clone(ps.3, input)
                    && fails_on_clone(ps.4, input)
                    && fails_on_clone(ps.5, input)
                    && fails_on_clone(ps.6, input)
                    && yields_on_clone(ps.7, input, Ok(x))
                ||| fails_on_clone(ps.0, input)
                    && fails_on_clone(ps.1, input)
                    && fails_on_clone(ps.2, input)
                    && fails_on_clone(ps.3, input)
                    && fails_on_clone(ps.4, input)
                    && fails_on_clone(ps.5, input)
                    && fails_on_clone(ps.6, input)
                    && fails_on_clone(ps.7, input)
                    && yields_on_clone(ps.8, input, Ok(x))
                ||| fails_on_clone(ps.0, input)
                    && fails_on_clone(ps.1, input)
                    && fails_on_clone(ps.2, input)
                    && fails_on_clone(ps.3, input)
                    && fails_on_clone(ps.4, input)
                    && fails_on_clone(ps.5, input)
                    && fails_on_clone(ps.6, input)
                    && fails_on_clone(ps.7, input)
                    && fails_on_clone(ps.8, input)
                    && yields_on_clone(ps.9, input, Ok(x))
                ||| fails_on_clone(ps.0, input)
                    && fails_on_clone(ps.1, input)
                    && fails_on_clone(ps.2, input)
                    && fails_on_clone(ps.3, input)
                    && fails_on_clone(ps.4, input)
                    && fails_on_clone(ps.5, input)
                    && fails_on_clone(ps.6, input)
                    && fails_on_clone(ps.7, input)
                    && fails_on_clone(ps.8, input)
                    && fails_on_clone(ps.9, input)
                    && yields_on_clone(ps.10, input, Ok(x))
                ||| fails_on_clone(ps.0, input)
                    && fails_on_clone(ps.1, input)
                    && fails_on_clone(ps.2, input)
                    && fails_on_clone(ps.3, input)
                    && fails_on_clone(ps.4, input)
                    && fails_on_clone(ps.5, input)
                    && fails_on_clone(ps.6, input)
                    && fails_on_clone(ps.7, input)
                    && fails_on_clone(ps.8, input)
                    && fails_on_clone(ps.9, input)
                    && fails_on_clone(ps.10, input)
                    && yields_on_clone(ps.11, input, Ok(x))
                ||| fails_on_clone(ps.0, input)
                    && fails_on_clone(ps.1, input)
                    && fails_on_clone(ps.2, input)
                    && fails_on_clone(ps.3, input)
                    && fails_on_clone(ps.4, input)
                    && fails_on_clone(ps.5, input)
                    && fails_on_clone(ps.6, input)
                    && fails_on_clone(ps.7, input)
                    && fails_on_clone(ps.8, input)
                    && fails_on_clone(ps.9, input)
                    && fails_on_clone(ps.10, input)
                    && fails_on_clone(ps.11, input)
                    && yields_on_clone(ps.12, input, Ok(x))
                ||| fails_on_clone(ps.0, input)
                    && fails_on_clone(ps.1, input)
                    && fails_on_clone(ps.2, input)
                    && fails_on_clone(ps.3, input)
                    && fails_on_clone(ps.4, input)
                    && fails_on_clone(ps.5, input)
                    && fails_on_clone(ps.6, input)
                    && fails_on_clone(ps.7, input)
                    && fails_on_clone(ps.8, input)
                    && fails_on_clone(ps.9, input)
                    && fails_on_clone(ps.10, input)
                    && fails_on_clone(ps.11, input)
                    && fails_on_clone(ps.12, input)
                    && yields_on_clone(ps.13, input, Ok(x))
                ||| fails_on_clone(ps.0, input)
                    && fails_on_clone(ps.1, input)
                    && fails_on_clone(ps.2, input)
                    && fails_on_clone(ps.3, input)
                    && fails_on_clone(ps.4, input)
                    && fails_on_clone(ps.5, input)
                    && fails_on_clone(ps.6, input)
                    && fails_on_clone(ps.7, input)
                    && fails_on_clone(ps.8, input)
                    && fails_on_clone(ps.9, input)
                    && fails_on_clone(ps.10, input)
                    && fails_on_clone(ps.11, input)
                    && fails_on_clone(ps.12, input)
                    && fails_on_clone(ps.13, input)
                    && yields_on_clone(ps.14, input, Ok(x))
                ||| fails_on_clone(ps.0, input)
                    && fails_on_clone(ps.1, input)
                    && fails_on_clone(ps.2, input)
                    && fails_on_clone(ps.3, input)
                    && fails_on_clone(ps.4, input)
                    && fails_on_clone(ps.5, input)
                    && fails_on_clone(ps.6, input)
                    && fails_on_clone(ps.7, input)
                    && fails_on_clone(ps.8, input)
                    && fails_on_clone(ps.9, input)
                    && fails_on_clone(ps.10, input)
                    && fails_on_clone(ps.11, input)
                    && fails_on_clone(ps.12, input)
                    && fails_on_clone(ps.13, input)
                    && fails_on_clone(ps.14, input)
                    && yields_on_clone(ps.15, input, Ok(x))
                ||| fails_on_clone(ps.0, input)
                    && fails_on_clone(ps.1, input)
                    && fails_on_clone(ps.2, input)
                    && fails_on_clone(ps.3, input)
                    && fails_on_clone(ps.4, input)
                    && fails_on_clone(ps.5, input)
                    && fails_on_clone(ps.6, input)
                    && fails_on_clone(ps.7, input)
                    && fails_on_clone(ps.8, input)
                    && fails_on_clone(ps.9, input)
                    && fails_on_clone(ps.10, input)
                    && fails_on_clone(ps.11, input)
                    && fails_on_clone(ps.12, input)
                    && fails_on_clone(ps.13, input)
                    && fails_on_clone(ps.14, input)
                    && fails_on_clone(ps.15, input)
                    && yields_on_clone(ps.16, input, Ok(x))
                ||| fails_on_clone(ps.0, input)
                    && fails_on_clone(ps.1, input)
                    && fails_on_clone(ps.2, input)
                    && fails_on_clone(ps.3, input)
                    && fails_on_clone(ps.4, input)
                    && fails_on_clone(ps.5, input)
                    && fails_on_clone(ps.6, input)
                    && fails_on_clone(ps.7, input)
                    && fails_on_clone(ps.8, input)
                    && fails_on_clone(ps.9, input)
                    && fails_on_clone(ps.10, input)
                    && fails_on_clone(ps.11, input)
                    && fails_on_clone(ps.12, input)
                    && fails_on_clone(ps.13, input)
                    && fails_on_clone(ps.14, input)
                    && fails_on_clone(ps.15, input)
                    && fails_on_clone(ps.16, input)
                    && yields_on_clone(ps.17, input, Ok(x))
                ||| fails_on_clone(ps.0, input)
                    && fails_on_clone(ps.1, input)
                    && fails_on_clone(ps.2, input)
                    && fails_on_clone(ps.3, input)
                    && fails_on_clone(ps.4, input)
                    && fails_on_clone(ps.5, input)
                    && fails_on_clone(ps.6, input)
                    && fails_on_clone(ps.7, input)
                    && fails_on_clone(ps.8, input)
                    && fails_on_clone(ps.9, input)
                    && fails_on_clone(ps.10, input)
                    && fails_on_clone(ps.11, input)
                    && fails_on_clone(ps.12, input)
                    && fails_on_clone(ps.13, input)
                    && fails_on_clone(ps.14, input)
                    && fails_on_clone(ps.15, input)
                    && fails_on_clone(ps.16, input)
                    && fails_on_clone(ps.17, input)
                    && yields_on_clone(ps.18, input, Ok(x))
                ||| fails_on_clone(ps.0, input)
                    && fails_on_clone(ps.1, input)
                    && fails_on_clone(ps.2, input)
                    && fails_on_clone(ps.3, input)
                    && fails_on_clone(ps.4, input)
                    && fails_on_clone(ps.5, input)
                    && fails_on_clone(ps.6, input)
                    && fails_on_clone(ps.7, input)
                    && fails_on_clone(ps.8, input)
                    && fails_on_clone(ps.9, input)
                    && fails_on_clone(ps.10, input)
                    && fails_on_clone(ps.11, input)
                    && fails_on_clone(ps.12, input)
                    && fails_on_clone(ps.13, input)
                    && fails_on_clone(ps.14, input)
                    && fails_on_clone(ps.15, input)
                    && fails_on_clone(ps.16, input)
                    && fails_on_clone(ps.17, input)
                    && fails_on_clone(ps.18, input)
                    && yields_on_clone(ps.19, input, Ok(x))
            },
            Err((a, b, c, d, e, f, g, h, i, j, k, l, m, n, o, p, q, r, s, t)) => {
                &&& yields_on_clone(ps.0, input, Err(a))
                &&& yields_on_clone(ps.1, input, Err(b))
                &&& yields_on_clone(ps.2, input, Err(c))
                &&& yields_on_clone(ps.3, input, Err(d))
                &&& yields_on_clone(ps.4, input, Err(e))
                &&& yields_on_clone(ps.5, input, Err(f))
                &&& yields_on_clone(ps.6, input, Err(g))
                &&& yields_on_clone(ps.7, input, Err(h))
                &&& yields_on_clone(ps.8, input, Err(i))
                &&& yields_on_clone(ps.9, input, Err(j))
                &&& yields_on_clone(ps.10, input, Err(k))
                &&& yields_on_clone(ps.11, input, Err(l))
                &&& yields_on_clone(ps.12, input, Err(m))
                &&& yields_on_clone(ps.13, input, Err(n))
                &&& yields_on_clone(ps.14, input, Err(o))
                &&& yields_on_clone(ps.15, input, Err(p))
                &&& yields_on_clone(ps.16, input, Err(q))
                &&& yields_on_clone(ps.17, input, Err(r))
                &&& yields_on_clone(ps.18, input, Err(s))
                &&& yields_on_clone(ps.19, input, Err(t))
            },
        }
    }

    fn parse(&self, txt: IN) -> (res: Result<(OUT, IN), (A::Error, B::Error, C::Error, D::Error, E::Error, F::Error, G::Error, H::Error, I::Error, J::Error, K::Error, L::Error, M::Error, N::Error, O::Error, P::Error, Q::Error, R::Error, S::Error, T::Error)>) {
        let c0 = txt.clone();
        let a = match self.ps.0.parse(c0) {
            Ok(r) => {
                assert(yields_on_clone(self.ps.0, txt, Ok(r)));
                return Ok(r);
            },
            Err(e) => e,
        };
        assert(yields_on_clone(self.ps.0, txt, Err(a)));
        let c1 = txt.clone();
        let b = match self.ps.1.parse(c1) {
            Ok(r) => {
                assert(yields_on_clone(self.ps.1, txt, Ok(r)));
                return Ok(r);
            },
            Err(e) => e,
        };
        assert(yields_on_clone(self.ps.1, txt, Err(b)));
        let c2 = txt.clone();
        let c = match self.ps.2.parse(c2) {
            Ok(r) => {
                assert(yields_on_clone(self.ps.2, txt, Ok(r)));
                return Ok(r);
            },
            Err(e) => e,
        };
        assert(yields_on_clone(self.ps.2, txt, Err(c)));
        let c3 = txt.clone();
        let d = match self.ps.3.parse(c3) {
            Ok(r) => {
                assert(yields_on_clone(self.ps.3, txt, Ok(r)));
                return Ok(r);
            },
            Err(e) => e,
        };
        assert(yields_on_clone(self.ps.3, txt, Err(d)));
        let c4 = txt.clone();
        let e = match self.ps.4.parse(c4) {
            Ok(r) => {
                assert(yields_on_clone(self.ps.4, txt, Ok(r)));
                return Ok(r);
            },
            Err(e) => e,
        };
        assert(yields_on_clone(self.ps.4, txt, Err(e)));
        let c5 = txt.clone();
        let f = match self.ps.5.parse(c5) {
            Ok(r) => {
                assert(yields_on_clone(self.ps.5, txt, Ok(r)));
                return Ok(r);
            },
            Err(e) => e,
        };
        assert(yields_on_clone(self.ps.5, txt, Err(f)));
        let c6 = txt.clone();
        let g = match self.ps.6.parse(c6) {
            Ok(r) => {
                assert(yields_on_clone(self.ps.6, txt, Ok(r)));
                return Ok(r);
            },
            Err(e) => e,
        };
        assert(yields_on_clone(self.ps.6, txt, Err(g)));
        let c7 = txt.clone();
        let h = match self.ps.7.parse(c7) {
            Ok(r) => {
                assert(yields_on_clone(self.ps.7, txt, Ok(r)));
                return Ok(r);
            },
            Err(e) => e,
        };
        assert(yields_on_clone(self.ps.7, txt, Err(h)));
        let c8 = txt.clone();
        let i = match self.ps.8.parse(c8) {
            Ok(r) => {
                assert(yields_on_clone(self.ps.8, txt, Ok(r)));
                return Ok(r);
            },
            Err(e) => e,
        };
        assert(yields_on_clone(self.ps.8, txt, Err(i)));
        let c9 = txt.clone();
        let j = match self.ps.9.parse(c9) {
            Ok(r) => {
                assert(yields_on_clone(self.ps.9, txt, Ok(r)));
                return Ok(r);
            },
            Err(e) => e,
        };
        assert(yields_on_clone(self.ps.9, txt, Err(j)));
        let c10 = txt.clone();
        let k = match self.ps.10.parse(c10) {
            Ok(r) => {
                assert(yields_on_clone(self.ps.10, txt, Ok(r)));
                return Ok(r);
            },
            Err(e) => e,
        };
        assert(yields_on_clone(self.ps.10, txt, Err(k)));
        let c11 = txt.clone();
        let l = match self.ps.11.parse(c11) {
            Ok(r) => {
                assert(yields_on_clone(self.ps.11, txt, Ok(r)));
                return Ok(r);
            },
            Err(e) => e,
        };
        assert(yields_on_clone(self.ps.11, txt, Err(l)));
        let c12 = txt.clone();
        let m = match self.ps.12.parse(c12) {
            Ok(r) => {
                assert(yields_on_clone(self.ps.12, txt, Ok(r)));
                return Ok(r);
            },
            Err(e) => e,
        };
        assert(yields_on_clone(self.ps.12, txt, Err(m)));
        let c13 = txt.clone();
        let n = match self.ps.13.parse(c13) {
            Ok(r) => {
                assert(yields_on_clone(self.ps.13, txt, Ok(r)));
                return Ok(r);
            },
            Err(e) => e,
        };
        assert(yields_on_clone(self.ps.13, txt, Err(n)));
        let c14 = txt.clone();
        let o = match self.ps.14.parse(c14) {
            Ok(r) => {
                assert(yields_on_clone(self.ps.14, txt, Ok(r)));
                return Ok(r);
            },
            Err(e) => e,
        };
        assert(yields_on_clone(self.ps.14, txt, Err(o)));
        let c15 = txt.clone();
        let p = match self.ps.15.parse(c15) {
            Ok(r) => {
                assert(yields_on_clone(self.ps.15, txt, Ok(r)));
                return Ok(r);
            },
            Err(e) => e,
        };
        assert(yields_on_clone(self.ps.15, txt, Err(p)));
        let c16 = txt.clone();
        let q = match self.ps.16.parse(c16) {
            Ok(r) => {
                assert(yields_on_clone(self.ps.16, txt, Ok(r)));
                return Ok(r);
            },
            Err(e) => e,
        };
        assert(yields_on_clone(self.ps.16, txt, Err(q)));
        let c17 = txt.clone();
        let r = match self.ps.17.parse(c17) {
            Ok(r) => {
                assert(yields_on_clone(self.ps.17, txt, Ok(r)));
                return Ok(r);
            },
            Err(e) => e,
        };
        assert(yields_on_clone(self.ps.17, txt, Err(r)));
        let c18 = txt.clone();
        let s = match self.ps.18.parse(c18) {
            Ok(r) => {
                assert(yields_on_clone(self.ps.18, txt, Ok(r)));
                return Ok(r);
            },
            Err(e) => e,
        };
        assert(yields_on_clone(self.ps.18, txt, Err(s)));
        let c19 = txt.clone();
        let t = match self.ps.19.parse(c19) {
            Ok(r) => {
                assert(yields_on_clone(self.ps.19, txt, Ok(r)));
                return Ok(r);
            },
            Err(e) => e,
        };
        assert(yields_on_clone(self.ps.19, txt, Err(t)));
        Err((a, b, c, d, e, f, g, h, i, j, k, l, m, n, o, p, q, r, s, t))
    }
}

/// Over inputs whose clones are equal, an alternative of 20 deterministic
/// parsers is deterministic.
pub proof fn lemma_alt20_deterministic<IN: Clone, OUT, A, B, C, D, E, F, G, H, I, J, K, L, M, N, O, P, Q, R, S, T>(a: Alt<IN, (A, B, C, D, E, F, G, H, I, J, K, L, M, N, O, P, Q, R, S, T)>)
    where
        A: Parser<IN, Out = OUT>,
        B: Parser<IN, Out = OUT>,
        C: Parser<IN, Out = OUT>,
        D: Parser<IN, Out = OUT>,
        E: Parser<IN, Out = OUT>,
        F: Parser<IN, Out = OUT>,
        G: Parser<IN, Out = OUT>,
        H: Parser<IN, Out = OUT>,
        I: Parser<IN, Out = OUT>,
        J: Parser<IN, Out = OUT>,
        K: Parser<IN, Out = OUT>,
        L: Parser<IN, Out = OUT>,
        M: Parser<IN, Out = OUT>,
        N: Parser<IN, Out = OUT>,
        O: Parser<IN, Out = OUT>,
        P: Parser<IN, Out = OUT>,
        Q: Parser<IN, Out = OUT>,
        R: Parser<IN, Out = OUT>,
        S: Parser<IN, Out = OUT>,
        T: Parser<IN, Out = OUT>,
    requires
        clones_are_equal::<IN>(),
        deterministic::<IN, A>(a.parsers().0),
        deterministic::<IN, B>(a.parsers().1),
        deterministic::<IN, C>(a.parsers().2),
        deterministic::<IN, D>(a.parsers().3),
        deterministic::<IN, E>(a.parsers().4),
        deterministic::<IN, F>(a.parsers().5),
        deterministic::<IN, G>(a.parsers().6),
        deterministic::<IN, H>(a.parsers().7),
        deterministic::<IN, I>(a.parsers().8),
        deterministic::<IN, J>(a.parsers().9),
        deterministic::<IN, K>(a.parsers().10),
        deterministic::<IN, L>(a.parsers().11),
        deterministic::<IN, M>(a.parsers().12),
        deterministic::<IN, N>(a.parsers().13),
        deterministic::<IN, O>(a.parsers().14),
        deterministic::<IN, P>(a.parsers().15),
        deterministic::<IN, Q>(a.parsers().16),
        deterministic::<IN, R>(a.parsers().17),
        deterministic::<IN, S>(a.parsers().18),
        deterministic::<IN, T>(a.parsers().19),
    ensures
        deterministic::<IN, Alt<IN, (A, B, C, D, E, F, G, H, I, J, K, L, M, N, O, P, Q, R, S, T)>>(a),
{
    lemma_clones_are_transparent::<IN, A>(a.parsers().0);
    lemma_clones_are_transparent::<IN, B>(a.parsers().1);
    lemma_clones_are_transparent::<IN, C>(a.parsers().2);
    lemma_clones_are_transparent::<IN, D>(a.parsers().3);
    lemma_clones_are_transparent::<IN, E>(a.parsers().4);
    lemma_clones_are_transparent::<IN, F>(a.parsers().5);
    lemma_clones_are_transparent::<IN, G>(a.parsers().6);
    lemma_clones_are_transparent::<IN, H>(a.parsers().7);
    lemma_clones_are_transparent::<IN, I>(a.parsers().8);
    lemma_clones_are_transparent::<IN, J>(a.parsers().9);
    lemma_clones_are_transparent::<IN, K>(a.parsers().10);
    lemma_clones_are_transparent::<IN, L>(a.parsers().11);
    lemma_clones_are_transparent::<IN, M>(a.parsers().12);
    lemma_clones_are_transparent::<IN, N>(a.parsers().13);
    lemma_clones_are_transparent::<IN, O>(a.parsers().14);
    lemma_clones_are_transparent::<IN, P>(a.parsers().15);
    lemma_clones_are_transparent::<IN, Q>(a.parsers().16);
    lemma_clones_are_transparent::<IN, R>(a.parsers().17);
    lemma_clones_are_transparent::<IN, S>(a.parsers().18);
    lemma_clones_are_transparent::<IN, T>(a.parsers().19);
}

impl<IN: Clone, OUT, A, B, C, D, E, F, G, H, I, J, K, L, M, N, O, P, Q, R, S, T, U> From<(A, B, C, D, E, F, G, H, I, J, K, L, M, N, O, P, Q, R, S, T, U)> for Alt<IN, (A, B, C, D, E, F, G, H, I, J, K, L, M, N, O, P, Q, R, S, T, U)> where
    A: Parser<IN, Out = OUT>,
    B: Parser<IN, Out = OUT>,
    C: Parser<IN, Out = OUT>,
    D: Parser<IN, Out = OUT>,
    E: Parser<IN, Out = OUT>,
    F: Parser<IN, Out = OUT>,
    G: Parser<IN, Out = OUT>,
    H: Parser<IN, Out = OUT>,
    I: Parser<IN, Out = OUT>,
    J: Parser<IN, Out = OUT>,
    K: Parser<IN, Out = OUT>,
    L: Parser<IN, Out = OUT>,
    M: Parser<IN, Out = OUT>,
    N: Parser<IN, Out = OUT>,
    O: Parser<IN, Out = OUT>,
    P: Parser<IN, Out = OUT>,
    Q: Parser<IN, Out = OUT>,
    R: Parser<IN, Out = OUT>,
    S: Parser<IN, Out = OUT>,
    T: Parser<IN, Out = OUT>,
    U: Parser<IN, Out = OUT>,
 {
    fn from(ps: (A, B, C, D, E, F, G, H, I, J, K, L, M, N, O, P, Q, R, S, T, U)) -> (r: Self) {
        let r = Self { ps, _ghost: PhantomData };
        proof {
            lemma_alt_determined_by_parsers(r, ps);
        }
        r
    }
}

impl<IN: Clone, OUT, A, B, C, D, E, F, G, H, I, J, K, L, M, N, O, P, Q, R, S, T, U> FromSpecImpl<(A, B, C, D, E, F, G, H, I, J, K, L, M, N, O, P, Q, R, S, T, U)> for Alt<IN, (A, B, C, D, E, F, G, H, I, J, K, L, M, N, O, P, Q, R, S, T, U)> where
    A: Parser<IN, Out = OUT>,
    B: Parser<IN, Out = OUT>,
    C: Parser<IN, Out = OUT>,
    D: Parser<IN, Out = OUT>,
    E: Parser<IN, Out = OUT>,
    F: Parser<IN, Out = OUT>,
    G: Parser<IN, Out = OUT>,
    H: Parser<IN, Out = OUT>,
    I: Parser<IN, Out = OUT>,
    J: Parser<IN, Out = OUT>,
    K: Parser<IN, Out = OUT>,
    L: Parser<IN, Out = OUT>,
    M: Parser<IN, Out = OUT>,
    N: Parser<IN, Out = OUT>,
    O: Parser<IN, Out = OUT>,
    P: Parser<IN, Out = OUT>,
    Q: Parser<IN, Out = OUT>,
    R: Parser<IN, Out = OUT>,
    S: Parser<IN, Out = OUT>,
    T: Parser<IN, Out = OUT>,
    U: Parser<IN, Out = OUT>,
 {
    open spec fn obeys_from_spec() -> bool {
        true
    }

    open spec fn from_spec(ps: (A, B, C, D, E, F, G, H, I, J, K, L, M, N, O, P, Q, R, S, T, U)) -> Self {
        choose|a: Self| a.parsers() == ps
    }
}

/// An alternative of 21 parsers with one output type.
impl<IN: Clone, OUT, A, B, C, D, E, F, G, H, I, J, K, L, M, N, O, P, Q, R, S, T, U> Parser<IN> for Alt<IN, (A, B, C, D, E, F, G, H, I, J, K, L, M, N, O, P, Q, R, S, T, U)> where
    A: Parser<IN, Out = OUT>,
    B: Parser<IN, Out = OUT>,
    C: Parser<IN, Out = OUT>,
    D: Parser<IN, Out = OUT>,
    E: Parser<IN, Out = OUT>,
    F: Parser<IN, Out = OUT>,
    G: Parser<IN, Out = OUT>,
    H: Parser<IN, Out = OUT>,
    I: Parser<IN, Out = OUT>,
    J: Parser<IN, Out = OUT>,
    K: Parser<IN, Out = OUT>,
    L: Parser<IN, Out = OUT>,
    M: Parser<IN, Out = OUT>,
    N: Parser<IN, Out = OUT>,
    O: Parser<IN, Out = OUT>,
    P: Parser<IN, Out = OUT>,
    Q: Parser<IN, Out = OUT>,
    R: Parser<IN, Out = OUT>,
    S: Parser<IN, Out = OUT>,
    T: Parser<IN, Out = OUT>,
    U: Parser<IN, Out = OUT>,
 {
    type Out = OUT;

    type Error = (A::Error, B::Error, C::Error, D::Error, E::Error, F::Error, G::Error, H::Error, I::Error, J::Error, K::Error, L::Error, M::Error, N::Error, O::Error, P::Error, Q::Error, R::Error, S::Error, T::Error, U::Error);

    open spec fn parse_requires(&self, input: IN) -> bool {
        let ps = self.parsers();
        &&& accepts_clones(ps.0, input)
        &&& fails_on_clone(ps.0, input)
            ==> accepts_clones(ps.1, input)
        &&& fails_on_clone(ps.0, input)
            && fails_on_clone(ps.1, input)
            ==> accepts_clones(ps.2, input)
        &&& fails_on_clone(ps.0, input)
            && fails_on_clone(ps.1, input)
            && fails_on_clone(ps.2, input)
            ==> accepts_clones(ps.3, input)
        &&& fails_on_clone(ps.0, input)
            && fails_on_clone(ps.1, input)
            && fails_on_clone(ps.2, input)
            && fails_on_clone(ps.3, input)
            ==> accepts_clones(ps.4, input)
        &&& fails_on_clone(ps.0, input)
            && fails_on_clone(ps.1, input)
            && fails_on_clone(ps.2, input)
            && fails_on_clone(ps.3, input)
            && fails_on_clone(ps.4, input)
            ==> accepts_clones(ps.5, input)
        &&& fails_on_clone(ps.0, input)
            && fails_on_clone(ps.1, input)
            && fails_on_clone(ps.2, input)
            && fails_on_clone(ps.3, input)
            && fails_on_clone(ps.4, input)
            && fails_on_clone(ps.5, input)
            ==> accepts_clones(ps.6, input)
        &&& fails_on_clone(ps.0, input)
            && fails_on_clone(ps.1, input)
            && fails_on_clone(ps.2, input)
            && fails_on_clone(ps.3, input)
            && fails_on_clone(ps.4, input)
            && fails_on_clone(ps.5, input)
            && fails_on_clone(ps.6, input)
            ==> accepts_clones(ps.7, input)
        &&& fails_on_clone(ps.0, input)
            && fails_on_clone(ps.1, input)
            && fails_on_clone(ps.2, input)
            && fails_on_clone(ps.3, input)
            && fails_on_clone(ps.4, input)
            && fails_on_clone(ps.5, input)
            && fails_on_clone(ps.6, input)
            && fails_on_clone(ps.7, input)
            ==> accepts_clones(ps.8, input)
        &&& fails_on_clone(ps.0, input)
            && fails_on_clone(ps.1, input)
            && fails_on_clone(ps.2, input)
            && fails_on_clone(ps.3, input)
            && fails_on_clone(ps.4, input)
            && fails_on_clone(ps.5, input)
            && fails_on_clone(ps.6, input)
            && fails_on_clone(ps.7, input)
            && fails_on_clone(ps.8, input)
            ==> accepts_clones(ps.9, input)
        &&& fails_on_clone(ps.0, input)
            && fails_on_clone(ps.1, input)
            && fails_on_clone(ps.2, input)
            && fails_on_clone(ps.3, input)
            && fails_on_clone(ps.4, input)
            && fails_on_clone(ps.5, input)
            && fails_on_clone(ps.6, input)
            && fails_on_clone(ps.7, input)
            && fails_on_clone(ps.8, input)
            && fails_on_clone(ps.9, input)
            ==> accepts_clones(ps.10, input)
        &&& fails_on_clone(ps.0, input)
            && fails_on_clone(ps.1, input)
            && fails_on_clone(ps.2, input)
            && fails_on_clone(ps.3, input)
            && fails_on_clone(ps.4, input)
            && fails_on_clone(ps.5, input)
            && fails_on_clone(ps.6, input)
            && fails_on_clone(ps.7, input)
            && fails_on_clone(ps.8, input)
            && fails_on_clone(ps.9, input)
            && fails_on_clone(ps.10, input)
            ==> accepts_clones(ps.11, input)
        &&& fails_on_clone(ps.0, input)
            && fails_on_clone(ps.1, input)
            && fails_on_clone(ps.2, input)
            && fails_on_clone(ps.3, input)
            && fails_on_clone(ps.4, input)
            && fails_on_clone(ps.5, input)
            && fails_on_clone(ps.6, input)
            && fails_on_clone(ps.7, input)
            && fails_on_clone(ps.8, input)
            && fails_on_clone(ps.9, input)
            && fails_on_clone(ps.10, input)
            && fails_on_clone(ps.11, input)
            ==> accepts_clones(ps.12, input)
        &&& fails_on_clone(ps.0, input)
            && fails_on_clone(ps.1, input)
            && fails_on_clone(ps.2, input)
            && fails_on_clone(ps.3, input)
            && fails_on_clone(ps.4, input)
            && fails_on_clone(ps.5, input)
            && fails_on_clone(ps.6, input)
            && fails_on_clone(ps.7, input)
            && fails_on_clone(ps.8, input)
            && fails_on_clone(ps.9, input)
            && fails_on_clone(ps.10, input)
            && fails_on_clone(ps.11, input)
            && fails_on_clone(ps.12, input)
            ==> accepts_clones(ps.13, input)
        &&& fails_on_clone(ps.0, input)
            && fails_on_clone(ps.1, input)
            && fails_on_clone(ps.2, input)
            && fails_on_clone(ps.3, input)
            && fails_on_clone(ps.4, input)
            && fails_on_clone(ps.5, input)
            && fails_on_clone(ps.6, input)
            && fails_on_clone(ps.7, input)
            && fails_on_clone(ps.8, input)
            && fails_on_clone(ps.9, input)
            && fails_on_clone(ps.10, input)
            && fails_on_clone(ps.11, input)
            && fails_on_clone(ps.12, input)
            && fails_on_clone(ps.13, input)
            ==> accepts_clones(ps.14, input)
        &&& fails_on_clone(ps.0, input)
            && fails_on_clone(ps.1, input)
            && fails_on_clone(ps.2, input)
            && fails_on_clone(ps.3, input)
            && fails_on_clone(ps.4, input)
            && fails_on_clone(ps.5, input)
            && fails_on_clone(ps.6, input)
            && fails_on_clone(ps.7, input)
            && fails_on_clone(ps.8, input)
            && fails_on_clone(ps.9, input)
            && fails_on_clone(ps.10, input)
            && fails_on_clone(ps.11, input)
            && fails_on_clone(ps.12, input)
            && fails_on_clone(ps.13, input)
            && fails_on_clone(ps.14, input)
            ==> accepts_clones(ps.15, input)
        &&& fails_on_clone(ps.0, input)
            && fails_on_clone(ps.1, input)
            && fails_on_clone(ps.2, input)
            && fails_on_clone(ps.3, input)
            && fails_on_clone(ps.4, input)
            && fails_on_clone(ps.5, input)
            && fails_on_clone(ps.6, input)
            && fails_on_clone(ps.7, input)
            && fails_on_clone(ps.8, input)
            && fails_on_clone(ps.9, input)
            && fails_on_clone(ps.10, input)
            && fails_on_clone(ps.11, input)
            && fails_on_clone(ps.12, input)
            && fails_on_clone(ps.13, input)
            && fails_on_clone(ps.14, input)
            && fails_on_clone(ps.15, input)
            ==> accepts_clones(ps.16, input)
        &&& fails_on_clone(ps.0, input)
            && fails_on_clone(ps.1, input)
            && fails_on_clone(ps.2, input)
            && fails_on_clone(ps.3, input)
            && fails_on_clone(ps.4, input)
            && fails_on_clone(ps.5, input)
            && fails_on_clone(ps.6, input)
            && fails_on_clone(ps.7, input)
            && fails_on_clone(ps.8, input)
            && fails_on_clone(ps.9, input)
            && fails_on_clone(ps.10, input)
            && fails_on_clone(ps.11, input)
            && fails_on_clone(ps.12, input)
            && fails_on_clone(ps.13, input)
            && fails_on_clone(ps.14, input)
            && fails_on_clone(ps.15, input)
            && fails_on_clone(ps.16, input)
            ==> accepts_clones(ps.17, input)
        &&& fails_on_clone(ps.0, input)
            && fails_on_clone(ps.1, input)
            && fails_on_clone(ps.2, input)
            && fails_on_clone(ps.3, input)
            && fails_on_clone(ps.4, input)
            && fails_on_clone(ps.5, input)
            && fails_on_clone(ps.6, input)
            && fails_on_clone(ps.7, input)
            && fails_on_clone(ps.8, input)
            && fails_on_clone(ps.9, input)
            && fails_on_clone(ps.10, input)
            && fails_on_clone(ps.11, input)
            && fails_on_clone(ps.12, input)
            && fails_on_clone(ps.13, input)
            && fails_on_clone(ps.14, input)
            && fails_on_clone(ps.15, input)
            && fails_on_clone(ps.16, input)
            && fails_on_clone(ps.17, input)
            ==> accepts_clones(ps.18, input)
        &&& fails_on_clone(ps.0, input)
            && fails_on_clone(ps.1, input)
            && fails_on_clone(ps.2, input)
            && fails_on_clone(ps.3, input)
            && fails_on_clone(ps.4, input)
            && fails_on_clone(ps.5, input)
            && fails_on_clone(ps.6, input)
            && fails_on_clone(ps.7, input)
            && fails_on_clone(ps.8, input)
            && fails_on_clone(ps.9, input)
            && fails_on_clone(ps.10, input)
            && fails_on_clone(ps.11, input)
            && fails_on_clone(ps.12, input)
            && fails_on_clone(ps.13, input)
            && fails_on_clone(ps.14, input)
            && fails_on_clone(ps.15, input)
            && fails_on_clone(ps.16, input)
            && fails_on_clone(ps.17, input)
            && fails_on_clone(ps.18, input)
            ==> accepts_clones(ps.19, input)
        &&& fails_on_clone(ps.0, input)
            && fails_on_clone(ps.1, input)
            && fails_on_clone(ps.2, input)
            && fails_on_clone(ps.3, input)
            && fails_on_clone(ps.4, input)
            && fails_on_clone(ps.5, input)
            && fails_on_clone(ps.6, input)
            && fails_on_clone(ps.7, input)
            && fails_on_clone(ps.8, input)
            && fails_on_clone(ps.9, input)
            && fails_on_clone(ps.10, input)
            && fails_on_clone(ps.11, input)
            && fails_on_clone(ps.12, input)
            && fails_on_clone(ps.13, input)
            && fails_on_clone(ps.14, input)
            && fails_on_clone(ps.15, input)
            && fails_on_clone(ps.16, input)
            && fails_on_clone(ps.17, input)
            && fails_on_clone(ps.18, input)
            && fails_on_clone(ps.19, input)
            ==> accepts_clones(ps.20, input)
    }

    open spec fn parse_ensures(&self, input: IN, res: Result<(OUT, IN), (A::Error, B::Error, C::Error, D::Error, E::Error, F::Error, G::Error, H::Error, I::Error, J::Error, K::Error, L::Error, M::Error, N::Error, O::Error, P::Error, Q::Error, R::Error, S::Error, T::Error, U::Error)>) -> bool {
        let ps = self.parsers();
        match res {
            Ok(x) => {
                ||| yields_on_clone(ps.0, input, Ok(x))
                ||| fails_on_clone(ps.0, input)
                    && yields_on_clone(ps.1, input, Ok(x))
                ||| fails_on_clone(ps.0, input)
                    && fails_on_clone(ps.1, input)
                    && yields_on_clone(ps.2, input, Ok(x))
                ||| fails_on_clone(ps.0, input)
                    && fails_on_clone(ps.1, input)
                    && fails_on_clone(ps.2, input)
                    && yields_on_clone(ps.3, input, Ok(x))
                ||| fails_on_clone(ps.0, input)
                    && fails_on_clone(ps.1, input)
                    && fails_on_clone(ps.2, input)
                    && fails_on_clone(ps.3, input)
                    && yields_on_clone(ps.4, input, Ok(x))
                ||| fails_on_clone(ps.0, input)
                    && fails_on_clone(ps.1, input)
                    && fails_on_clone(ps.2, input)
                    && fails_on_clone(ps.3, input)
                    && fails_on_clone(ps.4, input)
                    && yields_on_clone(ps.5, input, Ok(x))
                ||| fails_on_clone(ps.0, input)
                    && fails_on_clone(ps.1, input)
                    && fails_on_clone(ps.2, input)
                    && fails_on_clone(ps.3, input)
                    && fails_on_clone(ps.4, input)
                    && fails_on_clone(ps.5, input)
                    && yields_on_clone(ps.6, input, Ok(x))
                ||| fails_on_clone(ps.0, input)
                    && fails_on_clone(ps.1, input)
                    && fails_on_clone(ps.2, input)
                    && fails_on_clone(ps.3, input)
                    && fails_on_clone(ps.4, input)
                    && fails_on_clone(ps.5, input)
                    && fails_on_clone(ps.6, input)
                    && yields_on_clone(ps.7, input, Ok(x))
                ||| fails_on_clone(ps.0, input)
                    && fails_on_clone(ps.1, input)
                    && fails_on_clone(ps.2, input)
                    && fails_on_clone(ps.3, input)
                    && fails_on_clone(ps.4, input)
                    && fails_on_clone(ps.5, input)
                    && fails_on_clone(ps.6, input)
                    && fails_on_clone(ps.7, input)
                    && yields_on_clone(ps.8, input, Ok(x))
                ||| fails_on_clone(ps.0, input)
                    && fails_on_clone(ps.1, input)
                    && fails_on_clone(ps.2, input)
                    && fails_on_clone(ps.3, input)
                    && fails_on_clone(ps.4, input)
                    && fails_on_clone(ps.5, input)
                    && fails_on_clone(ps.6, input)
                    && fails_on_clone(ps.7, input)
                    && fails_on_clone(ps.8, input)
                    && yields_on_clone(ps.9, input, Ok(x))
                ||| fails_on_clone(ps.0, input)
                    && fails_on_clone(ps.1, input)
                    && fails_on_clone(ps.2, input)
                    && fails_on_clone(ps.3, input)
                    && fails_on_clone(ps.4, input)
                    && fails_on_clone(ps.5, input)
                    && fails_on_clone(ps.6, input)
                    && fails_on_clone(ps.7, input)
                    && fails_on_clone(ps.8, input)
                    && fails_on_clone(ps.9, input)
                    && yields_on_clone(ps.10, input, Ok(x))
                ||| fails_on_clone(ps.0, input)
                    && fails_on_clone(ps.1, input)
                    && fails_on_clone(ps.2, input)
                    && fails_on_clone(ps.3, input)
                    && fails_on_clone(ps.4, input)
                    && fails_on_clone(ps.5, input)
                    && fails_on_clone(ps.6, input)
                    && fails_on_clone(ps.7, input)
                    && fails_on_clone(ps.8, input)
                    && fails_on_clone(ps.9, input)
                    && fails_on_clone(ps.10, input)
                    && yields_on_clone(ps.11, input, Ok(x))
                ||| fails_on_clone(ps.0, input)
                    && fails_on_clone(ps.1, input)
                    && fails_on_clone(ps.2, input)
                    && fails_on_clone(ps.3, input)
                    && fails_on_clone(ps.4, input)
                    && fails_on_clone(ps.5, input)
                    && fails_on_clone(ps.6, input)
                    && fails_on_clone(ps.7, input)
                    && fails_on_clone(ps.8, input)
                    && fails_on_clone(ps.9, input)
                    && fails_on_clone(ps.10, input)
                    && fails_on_clone(ps.11, input)
                    && yields_on_clone(ps.12, input, Ok(x))
                ||| fails_on_clone(ps.0, input)
                    && fails_on_clone(ps.1, input)
                    && fails_on_clone(ps.2, input)
                    && fails_on_clone(ps.3, input)
                    && fails_on_clone(ps.4, input)
                    && fails_on_clone(ps.5, input)
                    && fails_on_clone(ps.6, input)
                    && fails_on_clone(ps.7, input)
                    && fails_on_clone(ps.8, input)
                    && fails_on_clone(ps.9, input)
                    && fails_on_clone(ps.10, input)
                    && fails_on_clone(ps.11, input)
                    && fails_on_clone(ps.12, input)
                    && yields_on_clone(ps.13, input, Ok(x))
                ||| fails_on_clone(ps.0, input)
                    && fails_on_clone(ps.1, input)
                    && fails_on_clone(ps.2, input)
                    && fails_on_clone(ps.3, input)
                    && fails_on_clone(ps.4, input)
                    && fails_on_clone(ps.5, input)
                    && fails_on_clone(ps.6, input)
                    && fails_on_clone(ps.7, input)
                    && fails_on_clone(ps.8, input)
                    && fails_on_clone(ps.9, input)
                    && fails_on_clone(ps.10, input)
                    && fails_on_clone(ps.11, input)
                    && fails_on_clone(ps.12, input)
                    && fails_on_clone(ps.13, input)
                    && yields_on_clone(ps.14, input, Ok(x))
                ||| fails_on_clone(ps.0, input)
                    && fails_on_clone(ps.1, input)
                    && fails_on_clone(ps.2, input)
                    && fails_on_clone(ps.3, input)
                    && fails_on_clone(ps.4, input)
                    && fails_on_clone(ps.5, input)
                    && fails_on_clone(ps.6, input)
                    && fails_on_clone(ps.7, input)
                    && fails_on_clone(ps.8, input)
                    && fails_on_clone(ps.9, input)
                    && fails_on_clone(ps.10, input)
                    && fails_on_clone(ps.11, input)
                    && fails_on_clone(ps.12, input)
                    && fails_on_clone(ps.13, input)
                    && fails_on_clone(ps.14, input)
                    && yields_on_clone(ps.15, input, Ok(x))
                ||| fails_on_clone(ps.0, input)
                    && fails_on_clone(ps.1, input)
                    && fails_on_clone(ps.2, input)
                    && fails_on_clone(ps.3, input)
                    && fails_on_clone(ps.4, input)
                    && fails_on_clone(ps.5, input)
                    && fails_on_clone(ps.6, input)
                    && fails_on_clone(ps.7, input)
                    && fails_on_clone(ps.8, input)
                    && fails_on_clone(ps.9, input)
                    && fails_on_clone(ps.10, input)
                    && fails_on_clone(ps.11, input)
                    && fails_on_clone(ps.12, input)
                    && fails_on_clone(ps.13, input)
                    && fails_on_clone(ps.14, input)
                    && fails_on_clone(ps.15, input)
                    && yields_on_clone(ps.16, input, Ok(x))
                ||| fails_on_clone(ps.0, input)
                    && fails_on_clone(ps.1, input)
                    && fails_on_clone(ps.2, input)
                    && fails_on_clone(ps.3, input)
                    && fails_on_clone(ps.4, input)
                    && fails_on_clone(ps.5, input)
                    && fails_on_clone(ps.6, input)
                    && fails_on_clone(ps.7, input)
                    && fails_on_clone(ps.8, input)
                    && fails_on_clone(ps.9, input)
                    && fails_on_clone(ps.10, input)
                    && fails_on_clone(ps.11, input)
                    && fails_on_clone(ps.12, input)
                    && fails_on_clone(ps.13, input)
                    && fails_on_clone(ps.14, input)
                    && fails_on_clone(ps.15, input)
                    && fails_on_clone(ps.16, input)
                    && yields_on_clone(ps.17, input, Ok(x))
                ||| fails_on_clone(ps.0, input)
                    && fails_on_clone(ps.1, input)
                    && fails_on_clone(ps.2, input)
                    && fails_on_clone(ps.3, input)
                    && fails_on_clone(ps.4, input)
                    && fails_on_clone(ps.5, input)
                    && fails_on_clone(ps.6, input)
                    && fails_on_clone(ps.7, input)
                    && fails_on_clone(ps.8, input)
                    && fails_on_clone(ps.9, input)
                    && fails_on_clone(ps.10, input)
                    && fails_on_clone(ps.11, input)
                    && fails_on_clone(ps.12, input)
                    && fails_on_clone(ps.13, input)
                    && fails_on_clone(ps.14, input)
                    && fails_on_clone(ps.15, input)
                    && fails_on_clone(ps.16, input)
                    && fails_on_clone(ps.17, input)
                    && yields_on_clone(ps.18, input, Ok(x))
                ||| fails_on_clone(ps.0, input)
                    && fails_on_clone(ps.1, input)
                    && fails_on_clone(ps.2, input)
                    && fails_on_clone(ps.3, input)
                    && fails_on_clone(ps.4, input)
                    && fails_on_clone(ps.5, input)
                    && fails_on_clone(ps.6, input)
                    && fails_on_clone(ps.7, input)
                    && fails_on_clone(ps.8, input)
                    && fails_on_clone(ps.9, input)
                    && fails_on_clone(ps.10, input)
                    && fails_on_clone(ps.11, input)
                    && fails_on_clone(ps.12, input)
                    && fails_on_clone(ps.13, input)
                    && fails_on_clone(ps.14, input)
                    && fails_on_clone(ps.15, input)
                    && fails_on_clone(ps.16, input)
                    && fails_on_clone(ps.17, input)
                    && fails_on_clone(ps.18, input)
                    && yields_on_clone(ps.19, input, Ok(x))
                ||| fails_on_clone(ps.0, input)
                    && fails_on_clone(ps.1, input)
                    && fails_on_clone(ps.2, input)
                    && fails_on_clone(ps.3, input)
                    && fails_on_clone(ps.4, input)
                    && fails_on_clone(ps.5, input)
                    && fails_on_clone(ps.6, input)
                    && fails_on_clone(ps.7, input)
                    && fails_on_clone(ps.8, input)
                    && fails_on_clone(ps.9, input)
                    && fails_on_clone(ps.10, input)
                    && fails_on_clone(ps.11, input)
                    && fails_on_clone(ps.12, input)
                    && fails_on_clone(ps.13, input)
                    && fails_on_clone(ps.14, input)
                    && fails_on_clone(ps.15, input)
                    && fails_on_clone(ps.16, input)
                    && fails_on_clone(ps.17, input)
                    && fails_on_clone(ps.18, input)
                    && fails_on_clone(ps.19, input)
                    && yields_on_clone(ps.20, input, Ok(x))
            },
            Err((a, b, c, d, e, f, g, h, i, j, k, l, m, n, o, p, q, r, s, t, u)) => {
                &&& yields_on_clone(ps.0, input, Err(a))
                &&& yields_on_clone(ps.1, input, Err(b))
                &&& yields_on_clone(ps.2, input, Err(c))
                &&& yields_on_clone(ps.3, input, Err(d))
                &&& yields_on_clone(ps.4, input, Err(e))
                &&& yields_on_clone(ps.5, input, Err(f))
                &&& yields_on_clone(ps.6, input, Err(g))
                &&& yields_on_clone(ps.7, input, Err(h))
                &&& yields_on_clone(ps.8, input, Err(i))
                &&& yields_on_clone(ps.9, input, Err(j))
                &&& yields_on_clone(ps.10, input, Err(k))
                &&& yields_on_clone(ps.11, input, Err(l))
                &&& yields_on_clone(ps.12, input, Err(m))
                &&& yields_on_clone(ps.13, input, Err(n))
                &&& yields_on_clone(ps.14, input, Err(o))
                &&& yields_on_clone(ps.15, input, Err(p))
                &&& yields_on_clone(ps.16, input, Err(q))
                &&& yields_on_clone(ps.17, input, Err(r))
                &&& yields_on_clone(ps.18, input, Err(s))
                &&& yields_on_clone(ps.19, input, Err(t))
                &&& yields_on_clone(ps.20, input, Err(u))
            },
        }
    }

    fn parse(&self, txt: IN) -> (res: Result<(OUT, IN), (A::Error, B::Error, C::Error, D::Error, E::Error, F::Error, G::Error, H::Error, I::Error, J::Error, K::Error, L::Error, M::Error, N::Error, O::Error, P::Error, Q::Error, R::Error, S::Error, T::Error, U::Error)>) {
        let c0 = txt.clone();
        let a = match self.ps.0.parse(c0) {
            Ok(r) => {
                assert(yields_on_clone(self.ps.0, txt, Ok(r)));
                return Ok(r);
            },
            Err(e) => e,
        };
        assert(yields_on_clone(self.ps.0, txt, Err(a)));
        let c1 = txt.clone();
        let b = match self.ps.1.parse(c1) {
            Ok(r) => {
                assert(yields_on_clone(self.ps.1, txt, Ok(r)));
                return Ok(r);
            },
            Err(e) => e,
        };
        assert(yields_on_clone(self.ps.1, txt, Err(b)));
        let c2 = txt.clone();
        let c = match self.ps.2.parse(c2) {
            Ok(r) => {
                assert(yields_on_clone(self.ps.2, txt, Ok(r)));
                return Ok(r);
            },
            Err(e) => e,
        };
        assert(yields_on_clone(self.ps.2, txt, Err(c)));
        let c3 = txt.clone();
        let d = match self.ps.3.parse(c3) {
            Ok(r) => {
                assert(yields_on_clone(self.ps.3, txt, Ok(r)));
                return Ok(r);
            },
            Err(e) => e,
        };
        assert(yields_on_clone(self.ps.3, txt, Err(d)));
        let c4 = txt.clone();
        let e = match self.ps.4.parse(c4) {
            Ok(r) => {
                assert(yields_on_clone(self.ps.4, txt, Ok(r)));
                return Ok(r);
            },
            Err(e) => e,
        };
        assert(yields_on_clone(self.ps.4, txt, Err(e)));
        let c5 = txt.clone();
        let f = match self.ps.5.parse(c5) {
            Ok(r) => {
                assert(yields_on_clone(self.ps.5, txt, Ok(r)));
                return Ok(r);
            },
            Err(e) => e,
        };
        assert(yields_on_clone(self.ps.5, txt, Err(f)));
        let c6 = txt.clone();
        let g = match self.ps.6.parse(c6) {
            Ok(r) => {
                assert(yields_on_clone(self.ps.6, txt, Ok(r)));
                return Ok(r);
            },
            Err(e) => e,
        };
        assert(yields_on_clone(self.ps.6, txt, Err(g)));
        let c7 = txt.clone();
        let h = match self.ps.7.parse(c7) {
            Ok(r) => {
                assert(yields_on_clone(self.ps.7, txt, Ok(r)));
                return Ok(r);
            },
            Err(e) => e,
        };
        assert(yields_on_clone(self.ps.7, txt, Err(h)));
        let c8 = txt.clone();
        let i = match self.ps.8.parse(c8) {
            Ok(r) => {
                assert(yields_on_clone(self.ps.8, txt, Ok(r)));
                return Ok(r);
            },
            Err(e) => e,
        };
        assert(yields_on_clone(self.ps.8, txt, Err(i)));
        let c9 = txt.clone();
        let j = match self.ps.9.parse(c9) {
            Ok(r) => {
                assert(yields_on_clone(self.ps.9, txt, Ok(r)));
                return Ok(r);
            },
            Err(e) => e,
        };
        assert(yields_on_clone(self.ps.9, txt, Err(j)));
        let c10 = txt.clone();
        let k = match self.ps.10.parse(c10) {
            Ok(r) => {
                assert(yields_on_clone(self.ps.10, txt, Ok(r)));
                return Ok(r);
            },
            Err(e) => e,
        };
        assert(yields_on_clone(self.ps.10, txt, Err(k)));
        let c11 = txt.clone();
        let l = match self.ps.11.parse(c11) {
            Ok(r) => {
                assert(yields_on_clone(self.ps.11, txt, Ok(r)));
                return Ok(r);
            },
            Err(e) => e,
        };
        assert(yields_on_clone(self.ps.11, txt, Err(l)));
        let c12 = txt.clone();
        let m = match self.ps.12.parse(c12) {
            Ok(r) => {
                assert(yields_on_clone(self.ps.12, txt, Ok(r)));
                return Ok(r);
            },
            Err(e) => e,
        };
        assert(yields_on_clone(self.ps.12, txt, Err(m)));
        let c13 = txt.clone();
        let n = match self.ps.13.parse(c13) {
            Ok(r) => {
                assert(yields_on_clone(self.ps.13, txt, Ok(r)));
                return Ok(r);
            },
            Err(e) => e,
        };
        assert(yields_on_clone(self.ps.13, txt, Err(n)));
        let c14 = txt.clone();
        let o = match self.ps.14.parse(c14) {
            Ok(r) => {
                assert(yields_on_clone(self.ps.14, txt, Ok(r)));
                return Ok(r);
            },
            Err(e) => e,
        };
        assert(yields_on_clone(self.ps.14, txt, Err(o)));
        let c15 = txt.clone();
        let p = match self.ps.15.parse(c15) {
            Ok(r) => {
                assert(yields_on_clone(self.ps.15, txt, Ok(r)));
                return Ok(r);
            },
            Err(e) => e,
        };
        assert(yields_on_clone(self.ps.15, txt, Err(p)));
        let c16 = txt.clone();
        let q = match self.ps.16.parse(c16) {
            Ok(r) => {
                assert(yields_on_clone(self.ps.16, txt, Ok(r)));
                return Ok(r);
            },
            Err(e) => e,
        };
        assert(yields_on_clone(self.ps.16, txt, Err(q)));
        let c17 = txt.clone();
        let r = match self.ps.17.parse(c17) {
            Ok(r) => {
                assert(yields_on_clone(self.ps.17, txt, Ok(r)));
                return Ok(r);
            },
            Err(e) => e,
        };
        assert(yields_on_clone(self.ps.17, txt, Err(r)));
        let c18 = txt.clone();
        let s = match self.ps.18.parse(c18) {
            Ok(r) => {
                assert(yields_on_clone(self.ps.18, txt, Ok(r)));
                return Ok(r);
            },
            Err(e) => e,
        };
        assert(yields_on_clone(self.ps.18, txt, Err(s)));
        let c19 = txt.clone();
        let t = match self.ps.19.parse(c19) {
            Ok(r) => {
                assert(yields_on_clone(self.ps.19, txt, Ok(r)));
                return Ok(r);
            },
            Err(e) => e,
        };
        assert(yields_on_clone(self.ps.19, txt, Err(t)));
        let c20 = txt.clone();
        let u = match self.ps.20.parse(c20) {
            Ok(r) => {
                assert(yields_on_clone(self.ps.20, txt, Ok(r)));
                return Ok(r);
            },
            Err(e) => e,
        };
        assert(yields_on_clone(self.ps.20, txt, Err(u)));
        Err((a, b, c, d, e, f, g, h, i, j, k, l, m, n, o, p, q, r, s, t, u))
    }
}

/// Over inputs whose clones are equal, an alternative of 21 deterministic
/// parsers is deterministic.
pub proof fn lemma_alt21_deterministic<IN: Clone, OUT, A, B, C, D, E, F, G, H, I, J, K, L, M, N, O, P, Q, R, S, T, U>(a: Alt<IN, (A, B, C, D, E, F, G, H, I, J, K, L, M, N, O, P, Q, R, S, T, U)>)
    where
        A: Parser<IN, Out = OUT>,
        B: Parser<IN, Out = OUT>,
        C: Parser<IN, Out = OUT>,
        D: Parser<IN, Out = OUT>,
        E: Parser<IN, Out = OUT>,
        F: Parser<IN, Out = OUT>,
        G: Parser<IN, Out = OUT>,
        H: Parser<IN, Out = OUT>,
        I: Parser<IN, Out = OUT>,
        J: Parser<IN, Out = OUT>,
        K: Parser<IN, Out = OUT>,
        L: Parser<IN, Out = OUT>,
        M: Parser<IN, Out = OUT>,
        N: Parser<IN, Out = OUT>,
        O: Parser<IN, Out = OUT>,
        P: Parser<IN, Out = OUT>,
        Q: Parser<IN, Out = OUT>,
        R: Parser<IN, Out = OUT>,
        S: Parser<IN, Out = OUT>,
        T: Parser<IN, Out = OUT>,
        U: Parser<IN, Out = OUT>,
    requires
        clones_are_equal::<IN>(),
        deterministic::<IN, A>(a.parsers().0),
        deterministic::<IN, B>(a.parsers().1),
        deterministic::<IN, C>(a.parsers().2),
        deterministic::<IN, D>(a.parsers().3),
        deterministic::<IN, E>(a.parsers().4),
        deterministic::<IN, F>(a.parsers().5),
        deterministic::<IN, G>(a.parsers().6),
        deterministic::<IN, H>(a.parsers().7),
        deterministic::<IN, I>(a.parsers().8),
        deterministic::<IN, J>(a.parsers().9),
        deterministic::<IN, K>(a.parsers().10),
        deterministic::<IN, L>(a.parsers().11),
        deterministic::<IN, M>(a.parsers().12),
        deterministic::<IN, N>(a.parsers().13),
        deterministic::<IN, O>(a.parsers().14),
        deterministic::<IN, P>(a.parsers().15),
        deterministic::<IN, Q>(a.parsers().16),
        deterministic::<IN, R>(a.parsers().17),
        deterministic::<IN, S>(a.parsers().18),
        deterministic::<IN, T>(a.parsers().19),
        deterministic::<IN, U>(a.parsers().20),
    ensures
        deterministic::<IN, Alt<IN, (A, B, C, D, E, F, G, H, I, J, K, L, M, N, O, P, Q, R, S, T, U)>>(a),
{
    lemma_clones_are_transparent::<IN, A>(a.parsers().0);
    lemma_clones_are_transparent::<IN, B>(a.parsers().1);
    lemma_clones_are_transparent::<IN, C>(a.parsers().2);
    lemma_clones_are_transparent::<IN, D>(a.parsers().3);
    lemma_clones_are_transparent::<IN, E>(a.parsers().4);
    lemma_clones_are_transparent::<IN, F>(a.parsers().5);
    lemma_clones_are_transparent::<IN, G>(a.parsers().6);
    lemma_clones_are_transparent::<IN, H>(a.parsers().7);
    lemma_clones_are_transparent::<IN, I>(a.parsers().8);
    lemma_clones_are_transparent::<IN, J>(a.parsers().9);
    lemma_clones_are_transparent::<IN, K>(a.parsers().10);
    lemma_clones_are_transparent::<IN, L>(a.parsers().11);
    lemma_clones_are_transparent::<IN, M>(a.parsers().12);
    lemma_clones_are_transparent::<IN, N>(a.parsers().13);
    lemma_clones_are_transparent::<IN, O>(a.parsers().14);
    lemma_clones_are_transparent::<IN, P>(a.parsers().15);
    lemma_clones_are_transparent::<IN, Q>(a.parsers().16);
    lemma_clones_are_transparent::<IN, R>(a.parsers().17);
    lemma_clones_are_transparent::<IN, S>(a.parsers().18);
    lemma_clones_are_transparent::<IN, T>(a.parsers().19);
    lemma_clones_are_transparent::<IN, U>(a.parsers().20);
}

impl<IN: Clone, OUT, A, B, C, D, E, F, G, H, I, J, K, L, M, N, O, P, Q, R, S, T, U, V> From<(A, B, C, D, E, F, G, H, I, J, K, L, M, N, O, P, Q, R, S, T, U, V)> for Alt<IN, (A, B, C, D, E, F, G, H, I, J, K, L, M, N, O, P, Q, R, S, T, U, V)> where
    A: Parser<IN, Out = OUT>,
    B: Parser<IN, Out = OUT>,
    C: Parser<IN, Out = OUT>,
    D: Parser<IN, Out = OUT>,
    E: Parser<IN, Out = OUT>,
    F: Parser<IN, Out = OUT>,
    G: Parser<IN, Out = OUT>,
    H: Parser<IN, Out = OUT>,
    I: Parser<IN, Out = OUT>,
    J: Parser<IN, Out = OUT>,
    K: Parser<IN, Out = OUT>,
    L: Parser<IN, Out = OUT>,
    M: Parser<IN, Out = OUT>,
    N: Parser<IN, Out = OUT>,
    O: Parser<IN, Out = OUT>,
    P: Parser<IN, Out = OUT>,
    Q: Parser<IN, Out = OUT>,
    R: Parser<IN, Out = OUT>,
    S: Parser<IN, Out = OUT>,
    T: Parser<IN, Out = OUT>,
    U: Parser<IN, Out = OUT>,
    V: Parser<IN, Out = OUT>,
 {
    fn from(ps: (A, B, C, D, E, F, G, H, I, J, K, L, M, N, O, P, Q, R, S, T, U, V)) -> (r: Self) {
        let r = Self { ps, _ghost: PhantomData };
        proof {
            lemma_alt_determined_by_parsers(r, ps);
        }
        r
    }
}

impl<IN: Clone, OUT, A, B, C, D, E, F, G, H, I, J, K, L, M, N, O, P, Q, R, S, T, U, V> FromSpecImpl<(A, B, C, D, E, F, G, H, I, J, K, L, M, N, O, P, Q, R, S, T, U, V)> for Alt<IN, (A, B, C, D, E, F, G, H, I, J, K, L, M, N, O, P, Q, R, S, T, U, V)> where
    A: Parser<IN, Out = OUT>,
    B: Parser<IN, Out = OUT>,
    C: Parser<IN, Out = OUT>,
    D: Parser<IN, Out = OUT>,
    E: Parser<IN, Out = OUT>,
    F: Parser<IN, Out = OUT>,
    G: Parser<IN, Out = OUT>,
    H: Parser<IN, Out = OUT>,
    I: Parser<IN, Out = OUT>,
    J: Parser<IN, Out = OUT>,
    K: Parser<IN, Out = OUT>,
    L: Parser<IN, Out = OUT>,
    M: Parser<IN, Out = OUT>,
    N: Parser<IN, Out = OUT>,
    O: Parser<IN, Out = OUT>,
    P: Parser<IN, Out = OUT>,
    Q: Parser<IN, Out = OUT>,
    R: Parser<IN, Out = OUT>,
    S: Parser<IN, Out = OUT>,
    T: Parser<IN, Out = OUT>,
    U: Parser<IN, Out = OUT>,
    V: Parser<IN, Out = OUT>,
 {
    open spec fn obeys_from_spec() -> bool {
        true
    }

    open spec fn from_spec(ps: (A, B, C, D, E, F, G, H, I, J, K, L, M, N, O, P, Q, R, S, T, U, V)) -> Self {
        choose|a: Self| a.parsers() == ps
    }
}

/// An alternative of 22 parsers with one output type.
impl<IN: Clone, OUT, A, B, C, D, E, F, G, H, I, J, K, L, M, N, O, P, Q, R, S, T, U, V> Parser<IN> for Alt<IN, (A, B, C, D, E, F, G, H, I, J, K, L, M, N, O, P, Q, R, S, T, U, V)> where
    A: Parser<IN, Out = OUT>,
    B: Parser<IN, Out = OUT>,
    C: Parser<IN, Out = OUT>,
    D: Parser<IN, Out = OUT>,
    E: Parser<IN, Out = OUT>,
    F: Parser<IN, Out = OUT>,
    G: Parser<IN, Out = OUT>,
    H: Parser<IN, Out = OUT>,
    I: Parser<IN, Out = OUT>,
    J: Parser<IN, Out = OUT>,
    K: Parser<IN, Out = OUT>,
    L: Parser<IN, Out = OUT>,
    M: Parser<IN, Out = OUT>,
    N: Parser<IN, Out = OUT>,
    O: Parser<IN, Out = OUT>,
    P: Parser<IN, Out = OUT>,
    Q: Parser<IN, Out = OUT>,
    R: Parser<IN, Out = OUT>,
    S: Parser<IN, Out = OUT>,
    T: Parser<IN, Out = OUT>,
    U: Parser<IN, Out = OUT>,
    V: Parser<IN, Out = OUT>,
 {
    type Out = OUT;

    type Error = (A::Error, B::Error, C::Error, D::Error, E::Error, F::Error, G::Error, H::Error, I::Error, J::Error, K::Error, L::Error, M::Error, N::Error, O::Error, P::Error, Q::Error, R::Error, S::Error, T::Error, U::Error, V::Error);

    open spec fn parse_requires(&self, input: IN) -> bool {
        let ps = self.parsers();
        &&& accepts_clones(ps.0, input)
        &&& fails_on_clone(ps.0, input)
            ==> accepts_clones(ps.1, input)
        &&& fails_on_clone(ps.0, input)
            && fails_on_clone(ps.1, input)
            ==> accepts_clones(ps.2, input)
        &&& fails_on_clone(ps.0, input)
            && fails_on_clone(ps.1, input)
            && fails_on_clone(ps.2, input)
            ==> accepts_clones(ps.3, input)
        &&& fails_on_clone(ps.0, input)
            && fails_on_clone(ps.1, input)
            && fails_on_clone(ps.2, input)
            && fails_on_clone(ps.3, input)
            ==> accepts_clones(ps.4, input)
        &&& fails_on_clone(ps.0, input)
            && fails_on_clone(ps.1, input)
            && fails_on_clone(ps.2, input)
            && fails_on_clone(ps.3, input)
            && fails_on_clone(ps.4, input)
            ==> accepts_clones(ps.5, input)
        &&& fails_on_clone(ps.0, input)
            && fails_on_clone(ps.1, input)
            && fails_on_clone(ps.2, input)
            && fails_on_clone(ps.3, input)
            && fails_on_clone(ps.4, input)
            && fails_on_clone(ps.5, input)
            ==> accepts_clones(ps.6, input)
        &&& fails_on_clone(ps.0, input)
            && fails_on_clone(ps.1, input)
            && fails_on_clone(ps.2, input)
            && fails_on_clone(ps.3, input)
            && fails_on_clone(ps.4, input)
            && fails_on_clone(ps.5, input)
            && fails_on_clone(ps.6, input)
            ==> accepts_clones(ps.7, input)
        &&& fails_on_clone(ps.0, input)
            && fails_on_clone(ps.1, input)
            && fails_on_clone(ps.2, input)
            && fails_on_clone(ps.3, input)
            && fails_on_clone(ps.4, input)
            && fails_on_clone(ps.5, input)
            && fails_on_clone(ps.6, input)
            && fails_on_clone(ps.7, input)
            ==> accepts_clones(ps.8, input)
        &&& fails_on_clone(ps.0, input)
            && fails_on_clone(ps.1, input)
            && fails_on_clone(ps.2, input)
            && fails_on_clone(ps.3, input)
            && fails_on_clone(ps.4, input)
            && fails_on_clone(ps.5, input)
            && fails_on_clone(ps.6, input)
            && fails_on_clone(ps.7, input)
            && fails_on_clone(ps.8, input)
            ==> accepts_clones(ps.9, input)
        &&& fails_on_clone(ps.0, input)
            && fails_on_clone(ps.1, input)
            && fails_on_clone(ps.2, input)
            && fails_on_clone(ps.3, input)
            && fails_on_clone(ps.4, input)
            && fails_on_clone(ps.5, input)
            && fails_on_clone(ps.6, input)
            && fails_on_clone(ps.7, input)
            && fails_on_clone(ps.8, input)
            && fails_on_clone(ps.9, input)
            ==> accepts_clones(ps.10, input)
        &&& fails_on_clone(ps.0, input)
            && fails_on_clone(ps.1, input)
            && fails_on_clone(ps.2, input)
            && fails_on_clone(ps.3, input)
            && fails_on_clone(ps.4, input)
            && fails_on_clone(ps.5, input)
            && fails_on_clone(ps.6, input)
            && fails_on_clone(ps.7, input)
            && fails_on_clone(ps.8, input)
            && fails_on_clone(ps.9, input)
            && fails_on_clone(ps.10, input)
            ==> accepts_clones(ps.11, input)
        &&& fails_on_clone(ps.0, input)
            && fails_on_clone(ps.1, input)
            && fails_on_clone(ps.2, input)
            && fails_on_clone(ps.3, input)
            && fails_on_clone(ps.4, input)
            && fails_on_clone(ps.5, input)
            && fails_on_clone(ps.6, input)
            && fails_on_clone(ps.7, input)
            && fails_on_clone(ps.8, input)
            && fails_on_clone(ps.9, input)
            && fails_on_clone(ps.10, input)
            && fails_on_clone(ps.11, input)
            ==> accepts_clones(ps.12, input)
        &&& fails_on_clone(ps.0, input)
            && fails_on_clone(ps.1, input)
            && fails_on_clone(ps.2, input)
            && fails_on_clone(ps.3, input)
            && fails_on_clone(ps.4, input)
            && fails_on_clone(ps.5, input)
            && fails_on_clone(ps.6, input)
            && fails_on_clone(ps.7, input)
            && fails_on_clone(ps.8, input)
            && fails_on_clone(ps.9, input)
            && fails_on_clone(ps.10, input)
            && fails_on_clone(ps.11, input)
            && fails_on_clone(ps.12, input)
            ==> accepts_clones(ps.13, input)
        &&& fails_on_clone(ps.0, input)
            && fails_on_clone(ps.1, input)
            && fails_on_clone(ps.2, input)
            && fails_on_clone(ps.3, input)
            && fails_on_clone(ps.4, input)
            && fails_on_clone(ps.5, input)
            && fails_on_clone(ps.6, input)
            && fails_on_clone(ps.7, input)
            && fails_on_clone(ps.8, input)
            && fails_on_clone(ps.9, input)
            && fails_on_clone(ps.10, input)
            && fails_on_clone(ps.11, input)
            && fails_on_clone(ps.12, input)
            && fails_on_clone(ps.13, input)
            ==> accepts_clones(ps.14, input)
        &&& fails_on_clone(ps.0, input)
            && fails_on_clone(ps.1, input)
            && fails_on_clone(ps.2, input)
            && fails_on_clone(ps.3, input)
            && fails_on_clone(ps.4, input)
            && fails_on_clone(ps.5, input)
            && fails_on_clone(ps.6, input)
            && fails_on_clone(ps.7, input)
            && fails_on_clone(ps.8, input)
            && fails_on_clone(ps.9, input)
            && fails_on_clone(ps.10, input)
            && fails_on_clone(ps.11, input)
            && fails_on_clone(ps.12, input)
            && fails_on_clone(ps.13, input)
            && fails_on_clone(ps.14, input)
            ==> accepts_clones(ps.15, input)
        &&& fails_on_clone(ps.0, input)
            && fails_on_clone(ps.1, input)
            && fails_on_clone(ps.2, input)
            && fails_on_clone(ps.3, input)
            && fails_on_clone(ps.4, input)
            && fails_on_clone(ps.5, input)
            && fails_on_clone(ps.6, input)
            && fails_on_clone(ps.7, input)
            && fails_on_clone(ps.8, input)
            && fails_on_clone(ps.9, input)
            && fails_on_clone(ps.10, input)
            && fails_on_clone(ps.11, input)
            && fails_on_clone(ps.12, input)
            && fails_on_clone(ps.13, input)
            && fails_on_clone(ps.14, input)
            && fails_on_clone(ps.15, input)
            ==> accepts_clones(ps.16, input)
        &&& fails_on_clone(ps.0, input)
            && fails_on_clone(ps.1, input)
            && fails_on_clone(ps.2, input)
            && fails_on_clone(ps.3, input)
            && fails_on_clone(ps.4, input)
            && fails_on_clone(ps.5, input)
            && fails_on_clone(ps.6, input)
            && fails_on_clone(ps.7, input)
            && fails_on_clone(ps.8, input)
            && fails_on_clone(ps.9, input)
            && fails_on_clone(ps.10, input)
            && fails_on_clone(ps.11, input)
            && fails_on_clone(ps.12, input)
            && fails_on_clone(ps.13, input)
            && fails_on_clone(ps.14, input)
            && fails_on_clone(ps.15, input)
            && fails_on_clone(ps.16, input)
            ==> accepts_clones(ps.17, input)
        &&& fails_on_clone(ps.0, input)
            && fails_on_clone(ps.1, input)
            && fails_on_clone(ps.2, input)
            && fails_on_clone(ps.3, input)
            && fails_on_clone(ps.4, input)
            && fails_on_clone(ps.5, input)
            && fails_on_clone(ps.6, input)
            && fails_on_clone(ps.7, input)
            && fails_on_clone(ps.8, input)
            && fails_on_clone(ps.9, input)
            && fails_on_clone(ps.10, input)
            && fails_on_clone(ps.11, input)
            && fails_on_clone(ps.12, input)
            && fails_on_clone(ps.13, input)
            && fails_on_clone(ps.14, input)
            && fails_on_clone(ps.15, input)
            && fails_on_clone(ps.16, input)
            && fails_on_clone(ps.17, input)
            ==> accepts_clones(ps.18, input)
        &&& fails_on_clone(ps.0, input)
            && fails_on_clone(ps.1, input)
            && fails_on_clone(ps.2, input)
            && fails_on_clone(ps.3, input)
            && fails_on_clone(ps.4, input)
            && fails_on_clone(ps.5, input)
            && fails_on_clone(ps.6, input)
            && fails_on_clone(ps.7, input)
            && fails_on_clone(ps.8, input)
            && fails_on_clone(ps.9, input)
            && fails_on_clone(ps.10, input)
            && fails_on_clone(ps.11, input)
            && fails_on_clone(ps.12, input)
            && fails_on_clone(ps.13, input)
            && fails_on_clone(ps.14, input)
            && fails_on_clone(ps.15, input)
            && fails_on_clone(ps.16, input)
            && fails_on_clone(ps.17, input)
            && fails_on_clone(ps.18, input)
            ==> accepts_clones(ps.19, input)
        &&& fails_on_clone(ps.0, input)
            && fails_on_clone(ps.1, input)
            && fails_on_clone(ps.2, input)
            && fails_on_clone(ps.3, input)
            && fails_on_clone(ps.4, input)
            && fails_on_clone(ps.5, input)
            && fails_on_clone(ps.6, input)
            && fails_on_clone(ps.7, input)
            && fails_on_clone(ps.8, input)
            && fails_on_clone(ps.9, input)
            && fails_on_clone(ps.10, input)
            && fails_on_clone(ps.11, input)
            && fails_on_clone(ps.12, input)
            && fails_on_clone(ps.13, input)
            && fails_on_clone(ps.14, input)
            && fails_on_clone(ps.15, input)
            && fails_on_clone(ps.16, input)
            && fails_on_clone(ps.17, input)
            && fails_on_clone(ps.18, input)
            && fails_on_clone(ps.19, input)
            ==> accepts_clones(ps.20, input)
        &&& fails_on_clone(ps.0, input)
            && fails_on_clone(ps.1, input)
            && fails_on_clone(ps.2, input)
            && fails_on_clone(ps.3, input)
            && fails_on_clone(ps.4, input)
            && fails_on_clone(ps.5, input)
            && fails_on_clone(ps.6, input)
            && fails_on_clone(ps.7, input)
            && fails_on_clone(ps.8, input)
            && fails_on_clone(ps.9, input)
            && fails_on_clone(ps.10, input)
            && fails_on_clone(ps.11, input)
            && fails_on_clone(ps.12, input)
            && fails_on_clone(ps.13, input)
            && fails_on_clone(ps.14, input)
            && fails_on_clone(ps.15, input)
            && fails_on_clone(ps.16, input)
            && fails_on_clone(ps.17, input)
            && fails_on_clone(ps.18, input)
            && fails_on_clone(ps.19, input)
            && fails_on_clone(ps.20, input)
            ==> accepts_clones(ps.21, input)
    }

    open spec fn parse_ensures(&self, input: IN, res: Result<(OUT, IN), (A::Error, B::Error, C::Error, D::Error, E::Error, F::Error, G::Error, H::Error, I::Error, J::Error, K::Error, L::Error, M::Error, N::Error, O::Error, P::Error, Q::Error, R::Error, S::Error, T::Error, U::Error, V::Error)>) -> bool {
        let ps = self.parsers();
        match res {
            Ok(x) => {
                ||| yields_on_clone(ps.0, input, Ok(x))
                ||| fails_on_clone(ps.0, input)
                    && yields_on_clone(ps.1, input, Ok(x))
                ||| fails_on_clone(ps.0, input)
                    && fails_on_clone(ps.1, input)
                    && yields_on_clone(ps.2, input, Ok(x))
                ||| fails_on_clone(ps.0, input)
                    && fails_on_clone(ps.1, input)
                    && fails_on_clone(ps.2, input)
                    && yields_on_clone(ps.3, input, Ok(x))
                ||| fails_on_clone(ps.0, input)
                    && fails_on_clone(ps.1, input)
                    && fails_on_clone(ps.2, input)
                    && fails_on_clone(ps.3, input)
                    && yields_on_clone(ps.4, input, Ok(x))
                ||| fails_on_clone(ps.0, input)
                    && fails_on_clone(ps.1, input)
                    && fails_on_clone(ps.2, input)
                    && fails_on_clone(ps.3, input)
                    && fails_on_clone(ps.4, input)
                    && yields_on_clone(ps.5, input, Ok(x))
                ||| fails_on_clone(ps.0, input)
                    && fails_on_clone(ps.1, input)
                    && fails_on_clone(ps.2, input)
                    && fails_on_clone(ps.3, input)
                    && fails_on_clone(ps.4, input)
                    && fails_on_clone(ps.5, input)
                    && yields_on_clone(ps.6, input, Ok(x))
                ||| fails_on_clone(ps.0, input)
                    && fails_on_clone(ps.1, input)
                    && fails_on_clone(ps.2, input)
                    && fails_on_clone(ps.3, input)
                    && fails_on_clone(ps.4, input)
                    && fails_on_clone(ps.5, input)
                    && fails_on_clone(ps.6, input)
                    && yields_on_clone(ps.7, input, Ok(x))
                ||| fails_on_clone(ps.0, input)
                    && fails_on_clone(ps.1, input)
                    && fails_on_clone(ps.2, input)
                    && fails_on_clone(ps.3, input)
                    && fails_on_clone(ps.4, input)
                    && fails_on_clone(ps.5, input)
                    && fails_on_clone(ps.6, input)
                    && fails_on_clone(ps.7, input)
                    && yields_on_clone(ps.8, input, Ok(x))
                ||| fails_on_clone(ps.0, input)
                    && fails_on_clone(ps.1, input)
                    && fails_on_clone(ps.2, input)
                    && fails_on_clone(ps.3, input)
                    && fails_on_clone(ps.4, input)
                    && fails_on_clone(ps.5, input)
                    && fails_on_clone(ps.6, input)
                    && fails_on_clone(ps.7, input)
                    && fails_on_clone(ps.8, input)
                    && yields_on_clone(ps.9, input, Ok(x))
                ||| fails_on_clone(ps.0, input)
                    && fails_on_clone(ps.1, input)
                    && fails_on_clone(ps.2, input)
                    && fails_on_clone(ps.3, input)
                    && fails_on_clone(ps.4, input)
                    && fails_on_clone(ps.5, input)
                    && fails_on_clone(ps.6, input)
                    && fails_on_clone(ps.7, input)
                    && fails_on_clone(ps.8, input)
                    && fails_on_clone(ps.9, input)
                    && yields_on_clone(ps.10, input, Ok(x))
                ||| fails_on_clone(ps.0, input)
                    && fails_on_clone(ps.1, input)
                    && fails_on_clone(ps.2, input)
                    && fails_on_clone(ps.3, input)
                    && fails_on_clone(ps.4, input)
                    && fails_on_clone(ps.5, input)
                    && fails_on_clone(ps.6, input)
                    && fails_on_clone(ps.7, input)
                    && fails_on_clone(ps.8, input)
                    && fails_on_clone(ps.9, input)
                    && fails_on_clone(ps.10, input)
                    && yields_on_clone(ps.11, input, Ok(x))
                ||| fails_on_clone(ps.0, input)
                    && fails_on_clone(ps.1, input)
                    && fails_on_clone(ps.2, input)
                    && fails_on_clone(ps.3, input)
                    && fails_on_clone(ps.4, input)
                    && fails_on_clone(ps.5, input)
                    && fails_on_clone(ps.6, input)
                    && fails_on_clone(ps.7, input)
                    && fails_on_clone(ps.8, input)
                    && fails_on_clone(ps.9, input)
                    && fails_on_clone(ps.10, input)
                    && fails_on_clone(ps.11, input)
                    && yields_on_clone(ps.12, input, Ok(x))
                ||| fails_on_clone(ps.0, input)
                    && fails_on_clone(ps.1, input)
                    && fails_on_clone(ps.2, input)
                    && fails_on_clone(ps.3, input)
                    && fails_on_clone(ps.4, input)
                    && fails_on_clone(ps.5, input)
                    && fails_on_clone(ps.6, input)
                    && fails_on_clone(ps.7, input)
                    && fails_on_clone(ps.8, input)
                    && fails_on_clone(ps.9, input)
                    && fails_on_clone(ps.10, input)
                    && fails_on_clone(ps.11, input)
                    && fails_on_clone(ps.12, input)
                    && yields_on_clone(ps.13, input, Ok(x))
                ||| fails_on_clone(ps.0, input)
                    && fails_on_clone(ps.1, input)
                    && fails_on_clone(ps.2, input)
                    && fails_on_clone(ps.3, input)
                    && fails_on_clone(ps.4, input)
                    && fails_on_clone(ps.5, input)
                    && fails_on_clone(ps.6, input)
                    && fails_on_clone(ps.7, input)
                    && fails_on_clone(ps.8, input)
                    && fails_on_clone(ps.9, input)
                    && fails_on_clone(ps.10, input)
                    && fails_on_clone(ps.11, input)
                    && fails_on_clone(ps.12, input)
                    && fails_on_clone(ps.13, input)
                    && yields_on_clone(ps.14, input, Ok(x))
                ||| fails_on_clone(ps.0, input)
                    && fails_on_clone(ps.1, input)
                    && fails_on_clone(ps.2, input)
                    && fails_on_clone(ps.3, input)
                    && fails_on_clone(ps.4, input)
                    && fails_on_clone(ps.5, input)
                    && fails_on_clone(ps.6, input)
                    && fails_on_clone(ps.7, input)
                    && fails_on_clone(ps.8, input)
                    && fails_on_clone(ps.9, input)
                    && fails_on_clone(ps.10, input)
                    && fails_on_clone(ps.11, input)
                    && fails_on_clone(ps.12, input)
                    && fails_on_clone(ps.13, input)
                    && fails_on_clone(ps.14, input)
                    && yields_on_clone(ps.15, input, Ok(x))
                ||| fails_on_clone(ps.0, input)
                    && fails_on_clone(ps.1, input)
                    && fails_on_clone(ps.2, input)
                    && fails_on_clone(ps.3, input)
                    && fails_on_clone(ps.4, input)
                    && fails_on_clone(ps.5, input)
                    && fails_on_clone(ps.6, input)
                    && fails_on_clone(ps.7, input)
                    && fails_on_clone(ps.8, input)
                    && fails_on_clone(ps.9, input)
                    && fails_on_clone(ps.10, input)
                    && fails_on_clone(ps.11, input)
                    && fails_on_clone(ps.12, input)
                    && fails_on_clone(ps.13, input)
                    && fails_on_clone(ps.14, input)
                    && fails_on_clone(ps.15, input)
                    && yields_on_clone(ps.16, input, Ok(x))
                ||| fails_on_clone(ps.0, input)
                    && fails_on_clone(ps.1, input)
                    && fails_on_clone(ps.2, input)
                    && fails_on_clone(ps.3, input)
                    && fails_on_clone(ps.4, input)
                    && fails_on_clone(ps.5, input)
                    && fails_on_clone(ps.6, input)
                    && fails_on_clone(ps.7, input)
                    && fails_on_clone(ps.8, input)
                    && fails_on_clone(ps.9, input)
                    && fails_on_clone(ps.10, input)
                    && fails_on_clone(ps.11, input)
                    && fails_on_clone(ps.12, input)
                    && fails_on_clone(ps.13, input)
                    && fails_on_clone(ps.14, input)
                    && fails_on_clone(ps.15, input)
                    && fails_on_clone(ps.16, input)
                    && yields_on_clone(ps.17, input, Ok(x))
                ||| fails_on_clone(ps.0, input)
                    && fails_on_clone(ps.1, input)
                    && fails_on_clone(ps.2, input)
                    && fails_on_clone(ps.3, input)
                    && fails_on_clone(ps.4, input)
                    && fails_on_clone(ps.5, input)
                    && fails_on_clone(ps.6, input)
                    && fails_on_clone(ps.7, input)
                    && fails_on_clone(ps.8, input)
                    && fails_on_clone(ps.9, input)
                    && fails_on_clone(ps.10, input)
                    && fails_on_clone(ps.11, input)
                    && fails_on_clone(ps.12, input)
                    && fails_on_clone(ps.13, input)
                    && fails_on_clone(ps.14, input)
                    && fails_on_clone(ps.15, input)
                    && fails_on_clone(ps.16, input)
                    && fails_on_clone(ps.17, input)
                    && yields_on_clone(ps.18, input, Ok(x))
                ||| fails_on_clone(ps.0, input)
                    && fails_on_clone(ps.1, input)
                    && fails_on_clone(ps.2, input)
                    && fails_on_clone(ps.3, input)
                    && fails_on_clone(ps.4, input)
                    && fails_on_clone(ps.5, input)
                    && fails_on_clone(ps.6, input)
                    && fails_on_clone(ps.7, input)
                    && fails_on_clone(ps.8, input)
                    && fails_on_clone(ps.9, input)
                    && fails_on_clone(ps.10, input)
                    && fails_on_clone(ps.11, input)
                    && fails_on_clone(ps.12, input)
                    && fails_on_clone(ps.13, input)
                    && fails_on_clone(ps.14, input)
                    && fails_on_clone(ps.15, input)
                    && fails_on_clone(ps.16, input)
                    && fails_on_clone(ps.17, input)
                    && fails_on_clone(ps.18, input)
                    && yields_on_clone(ps.19, input, Ok(x))
                ||| fails_on_clone(ps.0, input)
                    && fails_on_clone(ps.1, input)
                    && fails_on_clone(ps.2, input)
                    && fails_on_clone(ps.3, input)
                    && fails_on_clone(ps.4, input)
                    && fails_on_clone(ps.5, input)
                    && fails_on_clone(ps.6, input)
                    && fails_on_clone(ps.7, input)
                    && fails_on_clone(ps.8, input)
                    && fails_on_clone(ps.9, input)
                    && fails_on_clone(ps.10, input)
                    && fails_on_clone(ps.11, input)
                    && fails_on_clone(ps.12, input)
                    && fails_on_clone(ps.13, input)
                    && fails_on_clone(ps.14, input)
                    && fails_on_clone(ps.15, input)
                    && fails_on_clone(ps.16, input)
                    && fails_on_clone(ps.17, input)
                    && fails_on_clone(ps.18, input)
                    && fails_on_clone(ps.19, input)
                    && yields_on_clone(ps.20, input, Ok(x))
                ||| fails_on_clone(ps.0, input)
                    && fails_on_clone(ps.1, input)
                    && fails_on_clone(ps.2, input)
                    && fails_on_clone(ps.3, input)
                    && fails_on_clone(ps.4, input)
                    && fails_on_clone(ps.5, input)
                    && fails_on_clone(ps.6, input)
                    && fails_on_clone(ps.7, input)
                    && fails_on_clone(ps.8, input)
                    && fails_on_clone(ps.9, input)
                    && fails_on_clone(ps.10, input)
                    && fails_on_clone(ps.11, input)
                    && fails_on_clone(ps.12, input)
                    && fails_on_clone(ps.13, input)
                    && fails_on_clone(ps.14, input)
                    && fails_on_clone(ps.15, input)
                    && fails_on_clone(ps.16, input)
                    && fails_on_clone(ps.17, input)
                    && fails_on_clone(ps.18, input)
                    && fails_on_clone(ps.19, input)
                    && fails_on_clone(ps.20, input)
                    && yields_on_clone(ps.21, input, Ok(x))
            },
            Err((a, b, c, d, e, f, g, h, i, j, k, l, m, n, o, p, q, r, s, t, u, v)) => {
                &&& yields_on_clone(ps.0, input, Err(a))
                &&& yields_on_clone(ps.1, input, Err(b))
                &&& yields_on_clone(ps.2, input, Err(c))
                &&& yields_on_clone(ps.3, input, Err(d))
                &&& yields_on_clone(ps.4, input, Err(e))
                &&& yields_on_clone(ps.5, input, Err(f))
                &&& yields_on_clone(ps.6, input, Err(g))
                &&& yields_on_clone(ps.7, input, Err(h))
                &&& yields_on_clone(ps.8, input, Err(i))
                &&& yields_on_clone(ps.9, input, Err(j))
                &&& yields_on_clone(ps.10, input, Err(k))
                &&& yields_on_clone(ps.11, input, Err(l))
                &&& yields_on_clone(ps.12, input, Err(m))
                &&& yields_on_clone(ps.13, input, Err(n))
                &&& yields_on_clone(ps.14, input, Err(o))
                &&& yields_on_clone(ps.15, input, Err(p))
                &&& yields_on_clone(ps.16, input, Err(q))
                &&& yields_on_clone(ps.17, input, Err(r))
                &&& yields_on_clone(ps.18, input, Err(s))
                &&& yields_on_clone(ps.19, input, Err(t))
                &&& yields_on_clone(ps.20, input, Err(u))
                &&& yields_on_clone(ps.21, input, Err(v))
            },
        }
    }

    fn parse(&self, txt: IN) -> (res: Result<(OUT, IN), (A::Error, B::Error, C::Error, D::Error, E::Error, F::Error, G::Error, H::Error, I::Error, J::Error, K::Error, L::Error, M::Error, N::Error, O::Error, P::Error, Q::Error, R::Error, S::Error, T::Error, U::Error, V::Error)>) {
        let c0 = txt.clone();
        let a = match self.ps.0.parse(c0) {
            Ok(r) => {
                assert(yields_on_clone(self.ps.0, txt, Ok(r)));
                return Ok(r);
            },
            Err(e) => e,
        };
        assert(yields_on_clone(self.ps.0, txt, Err(a)));
        let c1 = txt.clone();
        let b = match self.ps.1.parse(c1) {
            Ok(r) => {
                assert(yields_on_clone(self.ps.1, txt, Ok(r)));
                return Ok(r);
            },
            Err(e) => e,
        };
        assert(yields_on_clone(self.ps.1, txt, Err(b)));
        let c2 = txt.clone();
        let c = match self.ps.2.parse(c2) {
            Ok(r) => {
                assert(yields_on_clone(self.ps.2, txt, Ok(r)));
                return Ok(r);
            },
            Err(e) => e,
        };
        assert(yields_on_clone(self.ps.2, txt, Err(c)));
        let c3 = txt.clone();
        let d = match self.ps.3.parse(c3) {
            Ok(r) => {
                assert(yields_on_clone(self.ps.3, txt, Ok(r)));
                return Ok(r);
            },
            Err(e) => e,
        };
        assert(yields_on_clone(self.ps.3, txt, Err(d)));
        let c4 = txt.clone();
        let e = match self.ps.4.parse(c4) {
            Ok(r) => {
                assert(yields_on_clone(self.ps.4, txt, Ok(r)));
                return Ok(r);
            },
            Err(e) => e,
        };
        assert(yields_on_clone(self.ps.4, txt, Err(e)));
        let c5 = txt.clone();
        let f = match self.ps.5.parse(c5) {
            Ok(r) => {
                assert(yields_on_clone(self.ps.5, txt, Ok(r)));
                return Ok(r);
            },
            Err(e) => e,
        };
        assert(yields_on_clone(self.ps.5, txt, Err(f)));
        let c6 = txt.clone();
        let g = match self.ps.6.parse(c6) {
            Ok(r) => {
                assert(yields_on_clone(self.ps.6, txt, Ok(r)));
                return Ok(r);
            },
            Err(e) => e,
        };
        assert(yields_on_clone(self.ps.6, txt, Err(g)));
        let c7 = txt.clone();
        let h = match self.ps.7.parse(c7) {
            Ok(r) => {
                assert(yields_on_clone(self.ps.7, txt, Ok(r)));
                return Ok(r);
            },
            Err(e) => e,
        };
        assert(yields_on_clone(self.ps.7, txt, Err(h)));
        let c8 = txt.clone();
        let i = match self.ps.8.parse(c8) {
            Ok(r) => {
                assert(yields_on_clone(self.ps.8, txt, Ok(r)));
                return Ok(r);
            },
            Err(e) => e,
        };
        assert(yields_on_clone(self.ps.8, txt, Err(i)));
        let c9 = txt.clone();
        let j = match self.ps.9.parse(c9) {
            Ok(r) => {
                assert(yields_on_clone(self.ps.9, txt, Ok(r)));
                return Ok(r);
            },
            Err(e) => e,
        };
        assert(yields_on_clone(self.ps.9, txt, Err(j)));
        let c10 = txt.clone();
        let k = match self.ps.10.parse(c10) {
            Ok(r) => {
                assert(yields_on_clone(self.ps.10, txt, Ok(r)));
                return Ok(r);
            },
            Err(e) => e,
        };
        assert(yields_on_clone(self.ps.10, txt, Err(k)));
        let c11 = txt.clone();
        let l = match self.ps.11.parse(c11) {
            Ok(r) => {
                assert(yields_on_clone(self.ps.11, txt, Ok(r)));
                return Ok(r);
            },
            Err(e) => e,
        };
        assert(yields_on_clone(self.ps.11, txt, Err(l)));
        let c12 = txt.clone();
        let m = match self.ps.12.parse(c12) {
            Ok(r) => {
                assert(yields_on_clone(self.ps.12, txt, Ok(r)));
                return Ok(r);
            },
            Err(e) => e,
        };
        assert(yields_on_clone(self.ps.12, txt, Err(m)));
        let c13 = txt.clone();
        let n = match self.ps.13.parse(c13) {
            Ok(r) => {
                assert(yields_on_clone(self.ps.13, txt, Ok(r)));
                return Ok(r);
            },
            Err(e) => e,
        };
        assert(yields_on_clone(self.ps.13, txt, Err(n)));
        let c14 = txt.clone();
        let o = match self.ps.14.parse(c14) {
            Ok(r) => {
                assert(yields_on_clone(self.ps.14, txt, Ok(r)));
                return Ok(r);
            },
            Err(e) => e,
        };
        assert(yields_on_clone(self.ps.14, txt, Err(o)));
        let c15 = txt.clone();
        let p = match self.ps.15.parse(c15) {
            Ok(r) => {
                assert(yields_on_clone(self.ps.15, txt, Ok(r)));
                return Ok(r);
            },
            Err(e) => e,
        };
        assert(yields_on_clone(self.ps.15, txt, Err(p)));
        let c16 = txt.clone();
        let q = match self.ps.16.parse(c16) {
            Ok(r) => {
                assert(yields_on_clone(self.ps.16, txt, Ok(r)));
                return Ok(r);
            },
            Err(e) => e,
        };
        assert(yields_on_clone(self.ps.16, txt, Err(q)));
        let c17 = txt.clone();
        let r = match self.ps.17.parse(c17) {
            Ok(r) => {
                assert(yields_on_clone(self.ps.17, txt, Ok(r)));
                return Ok(r);
            },
            Err(e) => e,
        };
        assert(yields_on_clone(self.ps.17, txt, Err(r)));
        let c18 = txt.clone();
        let s = match self.ps.18.parse(c18) {
            Ok(r) => {
                assert(yields_on_clone(self.ps.18, txt, Ok(r)));
                return Ok(r);
            },
            Err(e) => e,
        };
        assert(yields_on_clone(self.ps.18, txt, Err(s)));
        let c19 = txt.clone();
        let t = match self.ps.19.parse(c19) {
            Ok(r) => {
                assert(yields_on_clone(self.ps.19, txt, Ok(r)));
                return Ok(r);
            },
            Err(e) => e,
        };
        assert(yields_on_clone(self.ps.19, txt, Err(t)));
        let c20 = txt.clone();
        let u = match self.ps.20.parse(c20) {
            Ok(r) => {
                assert(yields_on_clone(self.ps.20, txt, Ok(r)));
                return Ok(r);
            },
            Err(e) => e,
        };
        assert(yields_on_clone(self.ps.20, txt, Err(u)));
        let c21 = txt.clone();
        let v = match self.ps.21.parse(c21) {
            Ok(r) => {
                assert(yields_on_clone(self.ps.21, txt, Ok(r)));
                return Ok(r);
            },
            Err(e) => e,
        };
        assert(yields_on_clone(self.ps.21, txt, Err(v)));
        Err((a, b, c, d, e, f, g, h, i, j, k, l, m, n, o, p, q, r, s, t, u, v))
    }
}

/// Over inputs whose clones are equal, an alternative of 22 deterministic
/// parsers is deterministic.
pub proof fn lemma_alt22_deterministic<IN: Clone, OUT, A, B, C, D, E, F, G, H, I, J, K, L, M, N, O, P, Q, R, S, T, U, V>(a: Alt<IN, (A, B, C, D, E, F, G, H, I, J, K, L, M, N, O, P, Q, R, S, T, U, V)>)
    where
        A: Parser<IN, Out = OUT>,
        B: Parser<IN, Out = OUT>,
        C: Parser<IN, Out = OUT>,
        D: Parser<IN, Out = OUT>,
        E: Parser<IN, Out = OUT>,
        F: Parser<IN, Out = OUT>,
        G: Parser<IN, Out = OUT>,
        H: Parser<IN, Out = OUT>,
        I: Parser<IN, Out = OUT>,
        J: Parser<IN, Out = OUT>,
        K: Parser<IN, Out = OUT>,
        L: Parser<IN, Out = OUT>,
        M: Parser<IN, Out = OUT>,
        N: Parser<IN, Out = OUT>,
        O: Parser<IN, Out = OUT>,
        P: Parser<IN, Out = OUT>,
        Q: Parser<IN, Out = OUT>,
        R: Parser<IN, Out = OUT>,
        S: Parser<IN, Out = OUT>,
        T: Parser<IN, Out = OUT>,
        U: Parser<IN, Out = OUT>,
        V: Parser<IN, Out = OUT>,
    requires
        clones_are_equal::<IN>(),
        deterministic::<IN, A>(a.parsers().0),
        deterministic::<IN, B>(a.parsers().1),
        deterministic::<IN, C>(a.parsers().2),
        deterministic::<IN, D>(a.parsers().3),
        deterministic::<IN, E>(a.parsers().4),
        deterministic::<IN, F>(a.parsers().5),
        deterministic::<IN, G>(a.parsers().6),
        deterministic::<IN, H>(a.parsers().7),
        deterministic::<IN, I>(a.parsers().8),
        deterministic::<IN, J>(a.parsers().9),
        deterministic::<IN, K>(a.parsers().10),
        deterministic::<IN, L>(a.parsers().11),
        deterministic::<IN, M>(a.parsers().12),
        deterministic::<IN, N>(a.parsers().13),
        deterministic::<IN, O>(a.parsers().14),
        deterministic::<IN, P>(a.parsers().15),
        deterministic::<IN, Q>(a.parsers().16),
        deterministic::<IN, R>(a.parsers().17),
        deterministic::<IN, S>(a.parsers().18),
        deterministic::<IN, T>(a.parsers().19),
        deterministic::<IN, U>(a.parsers().20),
        deterministic::<IN, V>(a.parsers().21),
    ensures
        deterministic::<IN, Alt<IN, (A, B, C, D, E, F, G, H, I, J, K, L, M, N, O, P, Q, R, S, T, U, V)>>(a),
{
    lemma_clones_are_transparent::<IN, A>(a.parsers().0);
    lemma_clones_are_transparent::<IN, B>(a.parsers().1);
    lemma_clones_are_transparent::<IN, C>(a.parsers().2);
    lemma_clones_are_transparent::<IN, D>(a.parsers().3);
    lemma_clones_are_transparent::<IN, E>(a.parsers().4);
    lemma_clones_are_transparent::<IN, F>(a.parsers().5);
    lemma_clones_are_transparent::<IN, G>(a.parsers().6);
    lemma_clones_are_transparent::<IN, H>(a.parsers().7);
    lemma_clones_are_transparent::<IN, I>(a.parsers().8);
    lemma_clones_are_transparent::<IN, J>(a.parsers().9);
    lemma_clones_are_transparent::<IN, K>(a.parsers().10);
    lemma_clones_are_transparent::<IN, L>(a.parsers().11);
    lemma_clones_are_transparent::<IN, M>(a.parsers().12);
    lemma_clones_are_transparent::<IN, N>(a.parsers().13);
    lemma_clones_are_transparent::<IN, O>(a.parsers().14);
    lemma_clones_are_transparent::<IN, P>(a.parsers().15);
    lemma_clones_are_transparent::<IN, Q>(a.parsers().16);
    lemma_clones_are_transparent::<IN, R>(a.parsers().17);
    lemma_clones_are_transparent::<IN, S>(a.parsers().18);
    lemma_clones_are_transparent::<IN, T>(a.parsers().19);
    lemma_clones_are_transparent::<IN, U>(a.parsers().20);
    lemma_clones_are_transparent::<IN, V>(a.parsers().21);
}

impl<IN: Clone, OUT, A, B, C, D, E, F, G, H, I, J, K, L, M, N, O, P, Q, R, S, T, U, V, W> From<(A, B, C, D, E, F, G, H, I, J, K, L, M, N, O, P, Q, R, S, T, U, V, W)> for Alt<IN, (A, B, C, D, E, F, G, H, I, J, K, L, M, N, O, P, Q, R, S, T, U, V, W)> where
    A: Parser<IN, Out = OUT>,
    B: Parser<IN, Out = OUT>,
    C: Parser<IN, Out = OUT>,
    D: Parser<IN, Out = OUT>,
    E: Parser<IN, Out = OUT>,
    F: Parser<IN, Out = OUT>,
    G: Parser<IN, Out = OUT>,
    H: Parser<IN, Out = OUT>,
    I: Parser<IN, Out = OUT>,
    J: Parser<IN, Out = OUT>,
    K: Parser<IN, Out = OUT>,
    L: Parser<IN, Out = OUT>,
    M: Parser<IN, Out = OUT>,
    N: Parser<IN, Out = OUT>,
    O: Parser<IN, Out = OUT>,
    P: Parser<IN, Out = OUT>,
    Q: Parser<IN, Out = OUT>,
    R: Parser<IN, Out = OUT>,
    S: Parser<IN, Out = OUT>,
    T: Parser<IN, Out = OUT>,
    U: Parser<IN, Out = OUT>,
    V: Parser<IN, Out = OUT>,
    W: Parser<IN, Out = OUT>,
 {
    fn from(ps: (A, B, C, D, E, F, G, H, I, J, K, L, M, N, O, P, Q, R, S, T, U, V, W)) -> (r: Self) {
        let r = Self { ps, _ghost: PhantomData };
        proof {
            lemma_alt_determined_by_parsers(r, ps);
        }
        r
    }
}

impl<IN: Clone, OUT, A, B, C, D, E, F, G, H, I, J, K, L, M, N, O, P, Q, R, S, T, U, V, W> FromSpecImpl<(A, B, C, D, E, F, G, H, I, J, K, L, M, N, O, P, Q, R, S, T, U, V, W)> for Alt<IN, (A, B, C, D, E, F, G, H, I, J, K, L, M, N, O, P, Q, R, S, T, U, V, W)> where
    A: Parser<IN, Out = OUT>,
    B: Parser<IN, Out = OUT>,
    C: Parser<IN, Out = OUT>,
    D: Parser<IN, Out = OUT>,
    E: Parser<IN, Out = OUT>,
    F: Parser<IN, Out = OUT>,
    G: Parser<IN, Out = OUT>,
    H: Parser<IN, Out = OUT>,
    I: Parser<IN, Out = OUT>,
    J: Parser<IN, Out = OUT>,
    K: Parser<IN, Out = OUT>,
    L: Parser<IN, Out = OUT>,
    M: Parser<IN, Out = OUT>,
    N: Parser<IN, Out = OUT>,
    O: Parser<IN, Out = OUT>,
    P: Parser<IN, Out = OUT>,
    Q: Parser<IN, Out = OUT>,
    R: Parser<IN, Out = OUT>,
    S: Parser<IN, Out = OUT>,
    T: Parser<IN, Out = OUT>,
    U: Parser<IN, Out = OUT>,
    V: Parser<IN, Out = OUT>,
    W: Parser<IN, Out = OUT>,
 {
    open spec fn obeys_from_spec() -> bool {
        true
    }

    open spec fn from_spec(ps: (A, B, C, D, E, F, G, H, I, J, K, L, M, N, O, P, Q, R, S, T, U, V, W)) -> Self {
        choose|a: Self| a.parsers() == ps
    }
}

/// An alternative of 23 parsers with one output type.
impl<IN: Clone, OUT, A, B, C, D, E, F, G, H, I, J, K, L, M, N, O, P, Q, R, S, T, U, V, W> Parser<IN> for Alt<IN, (A, B, C, D, E, F, G, H, I, J, K, L, M, N, O, P, Q, R, S, T, U, V, W)> where
    A: Parser<IN, Out = OUT>,
    B: Parser<IN, Out = OUT>,
    C: Parser<IN, Out = OUT>,
    D: Parser<IN, Out = OUT>,
    E: Parser<IN, Out = OUT>,
    F: Parser<IN, Out = OUT>,
    G: Parser<IN, Out = OUT>,
    H: Parser<IN, Out = OUT>,
    I: Parser<IN, Out = OUT>,
    J: Parser<IN, Out = OUT>,
    K: Parser<IN, Out = OUT>,
    L: Parser<IN, Out = OUT>,
    M: Parser<IN, Out = OUT>,
    N: Parser<IN, Out = OUT>,
    O: Parser<IN, Out = OUT>,
    P: Parser<IN, Out = OUT>,
    Q: Parser<IN, Out = OUT>,
    R: Parser<IN, Out = OUT>,
    S: Parser<IN, Out = OUT>,
    T: Parser<IN, Out = OUT>,
    U: Parser<IN, Out = OUT>,
    V: Parser<IN, Out = OUT>,
    W: Parser<IN, Out = OUT>,
 {
    type Out = OUT;

    type Error = (A::Error, B::Error, C::Error, D::Error, E::Error, F::Error, G::Error, H::Error, I::Error, J::Error, K::Error, L::Error, M::Error, N::Error, O::Error, P::Error, Q::Error, R::Error, S::Error, T::Error, U::Error, V::Error, W::Error);

    open spec fn parse_requires(&self, input: IN) -> bool {
        let ps = self.parsers();
        &&& accepts_clones(ps.0, input)
        &&& fails_on_clone(ps.0, input)
            ==> accepts_clones(ps.1, input)
        &&& fails_on_clone(ps.0, input)
            && fails_on_clone(ps.1, input)
            ==> accepts_clones(ps.2, input)
        &&& fails_on_clone(ps.0, input)
            && fails_on_clone(ps.1, input)
            && fails_on_clone(ps.2, input)
            ==> accepts_clones(ps.3, input)
        &&& fails_on_clone(ps.0, input)
            && fails_on_clone(ps.1, input)
            && fails_on_clone(ps.2, input)
            && fails_on_clone(ps.3, input)
            ==> accepts_clones(ps.4, input)
        &&& fails_on_clone(ps.0, input)
            && fails_on_clone(ps.1, input)
            && fails_on_clone(ps.2, input)
            && fails_on_clone(ps.3, input)
            && fails_on_clone(ps.4, input)
            ==> accepts_clones(ps.5, input)
        &&& fails_on_clone(ps.0, input)
            && fails_on_clone(ps.1, input)
            && fails_on_clone(ps.2, input)
            && fails_on_clone(ps.3, input)
            && fails_on_clone(ps.4, input)
            && fails_on_clone(ps.5, input)
            ==> accepts_clones(ps.6, input)
        &&& fails_on_clone(ps.0, input)
            && fails_on_clone(ps.1, input)
            && fails_on_clone(ps.2, input)
            && fails_on_clone(ps.3, input)
            && fails_on_clone(ps.4, input)
            && fails_on_clone(ps.5, input)
            && fails_on_clone(ps.6, input)
            ==> accepts_clones(ps.7, input)
        &&& fails_on_clone(ps.0, input)
            && fails_on_clone(ps.1, input)
            && fails_on_clone(ps.2, input)
            && fails_on_clone(ps.3, input)
            && fails_on_clone(ps.4, input)
            && fails_on_clone(ps.5, input)
            && fails_on_clone(ps.6, input)
            && fails_on_clone(ps.7, input)
            ==> accepts_clones(ps.8, input)
        &&& fails_on_clone(ps.0, input)
            && fails_on_clone(ps.1, input)
            && fails_on_clone(ps.2, input)
            && fails_on_clone(ps.3, input)
            && fails_on_clone(ps.4, input)
            && fails_on_clone(ps.5, input)
            && fails_on_clone(ps.6, input)
            && fails_on_clone(ps.7, input)
            && fails_on_clone(ps.8, input)
            ==> accepts_clones(ps.9, input)
        &&& fails_on_clone(ps.0, input)
            && fails_on_clone(ps.1, input)
            && fails_on_clone(ps.2, input)
            && fails_on_clone(ps.3, input)
            && fails_on_clone(ps.4, input)
            && fails_on_clone(ps.5, input)
            && fails_on_clone(ps.6, input)
            && fails_on_clone(ps.7, input)
            && fails_on_clone(ps.8, input)
            && fails_on_clone(ps.9, input)
            ==> accepts_clones(ps.10, input)
        &&& fails_on_clone(ps.0, input)
            && fails_on_clone(ps.1, input)
            && fails_on_clone(ps.2, input)
            && fails_on_clone(ps.3, input)
            && fails_on_clone(ps.4, input)
            && fails_on_clone(ps.5, input)
            && fails_on_clone(ps.6, input)
            && fails_on_clone(ps.7, input)
            && fails_on_clone(ps.8, input)
            && fails_on_clone(ps.9, input)
            && fails_on_clone(ps.10, input)
            ==> accepts_clones(ps.11, input)
        &&& fails_on_clone(ps.0, input)
            && fails_on_clone(ps.1, input)
            && fails_on_clone(ps.2, input)
            && fails_on_clone(ps.3, input)
            && fails_on_clone(ps.4, input)
            && fails_on_clone(ps.5, input)
            && fails_on_clone(ps.6, input)
            && fails_on_clone(ps.7, input)
            && fails_on_clone(ps.8, input)
            && fails_on_clone(ps.9, input)
            && fails_on_clone(ps.10, input)
            && fails_on_clone(ps.11, input)
            ==> accepts_clones(ps.12, input)
        &&& fails_on_clone(ps.0, input)
            && fails_on_clone(ps.1, input)
            && fails_on_clone(ps.2, input)
            && fails_on_clone(ps.3, input)
            && fails_on_clone(ps.4, input)
            && fails_on_clone(ps.5, input)
            && fails_on_clone(ps.6, input)
            && fails_on_clone(ps.7, input)
            && fails_on_clone(ps.8, input)
            && fails_on_clone(ps.9, input)
            && fails_on_clone(ps.10, input)
            && fails_on_clone(ps.11, input)
            && fails_on_clone(ps.12, input)
            ==> accepts_clones(ps.13, input)
        &&& fails_on_clone(ps.0, input)
            && fails_on_clone(ps.1, input)
            && fails_on_clone(ps.2, input)
            && fails_on_clone(ps.3, input)
            && fails_on_clone(ps.4, input)
            && fails_on_clone(ps.5, input)
            && fails_on_clone(ps.6, input)
            && fails_on_clone(ps.7, input)
            && fails_on_clone(ps.8, input)
            && fails_on_clone(ps.9, input)
            && fails_on_clone(ps.10, input)
            && fails_on_clone(ps.11, input)
            && fails_on_clone(ps.12, input)
            && fails_on_clone(ps.13, input)
            ==> accepts_clones(ps.14, input)
        &&& fails_on_clone(ps.0, input)
            && fails_on_clone(ps.1, input)
            && fails_on_clone(ps.2, input)
            && fails_on_clone(ps.3, input)
            && fails_on_clone(ps.4, input)
            && fails_on_clone(ps.5, input)
            && fails_on_clone(ps.6, input)
            && fails_on_clone(ps.7, input)
            && fails_on_clone(ps.8, input)
            && fails_on_clone(ps.9, input)
            && fails_on_clone(ps.10, input)
            && fails_on_clone(ps.11, input)
            && fails_on_clone(ps.12, input)
            && fails_on_clone(ps.13, input)
            && fails_on_clone(ps.14, input)
            ==> accepts_clones(ps.15, input)
        &&& fails_on_clone(ps.0, input)
            && fails_on_clone(ps.1, input)
            && fails_on_clone(ps.2, input)
            && fails_on_clone(ps.3, input)
            && fails_on_clone(ps.4, input)
            && fails_on_clone(ps.5, input)
            && fails_on_clone(ps.6, input)
            && fails_on_clone(ps.7, input)
            && fails_on_clone(ps.8, input)
            && fails_on_clone(ps.9, input)
            && fails_on_clone(ps.10, input)
            && fails_on_clone(ps.11, input)
            && fails_on_clone(ps.12, input)
            && fails_on_clone(ps.13, input)
            && fails_on_clone(ps.14, input)
            && fails_on_clone(ps.15, input)
            ==> accepts_clones(ps.16, input)
        &&& fails_on_clone(ps.0, input)
            && fails_on_clone(ps.1, input)
            && fails_on_clone(ps.2, input)
            && fails_on_clone(ps.3, input)
            && fails_on_clone(ps.4, input)
            && fails_on_clone(ps.5, input)
            && fails_on_clone(ps.6, input)
            && fails_on_clone(ps.7, input)
            && fails_on_clone(ps.8, input)
            && fails_on_clone(ps.9, input)
            && fails_on_clone(ps.10, input)
            && fails_on_clone(ps.11, input)
            && fails_on_clone(ps.12, input)
            && fails_on_clone(ps.13, input)
            && fails_on_clone(ps.14, input)
            && fails_on_clone(ps.15, input)
            && fails_on_clone(ps.16, input)
            ==> accepts_clones(ps.17, input)
        &&& fails_on_clone(ps.0, input)
            && fails_on_clone(ps.1, input)
            && fails_on_clone(ps.2, input)
            && fails_on_clone(ps.3, input)
            && fails_on_clone(ps.4, input)
            && fails_on_clone(ps.5, input)
            && fails_on_clone(ps.6, input)
            && fails_on_clone(ps.7, input)
            && fails_on_clone(ps.8, input)
            && fails_on_clone(ps.9, input)
            && fails_on_clone(ps.10, input)
            && fails_on_clone(ps.11, input)
            && fails_on_clone(ps.12, input)
            && fails_on_clone(ps.13, input)
            && fails_on_clone(ps.14, input)
            && fails_on_clone(ps.15, input)
            && fails_on_clone(ps.16, input)
            && fails_on_clone(ps.17, input)
            ==> accepts_clones(ps.18, input)
        &&& fails_on_clone(ps.0, input)
            && fails_on_clone(ps.1, input)
            && fails_on_clone(ps.2, input)
            && fails_on_clone(ps.3, input)
            && fails_on_clone(ps.4, input)
            && fails_on_clone(ps.5, input)
            && fails_on_clone(ps.6, input)
            && fails_on_clone(ps.7, input)
            && fails_on_clone(ps.8, input)
            && fails_on_clone(ps.9, input)
            && fails_on_clone(ps.10, input)
            && fails_on_clone(ps.11, input)
            && fails_on_clone(ps.12, input)
            && fails_on_clone(ps.13, input)
            && fails_on_clone(ps.14, input)
            && fails_on_clone(ps.15, input)
            && fails_on_clone(ps.16, input)
            && fails_on_clone(ps.17, input)
            && fails_on_clone(ps.18, input)
            ==> accepts_clones(ps.19, input)
        &&& fails_on_clone(ps.0, input)
            && fails_on_clone(ps.1, input)
            && fails_on_clone(ps.2, input)
            && fails_on_clone(ps.3, input)
            && fails_on_clone(ps.4, input)
            && fails_on_clone(ps.5, input)
            && fails_on_clone(ps.6, input)
            && fails_on_clone(ps.7, input)
            && fails_on_clone(ps.8, input)
            && fails_on_clone(ps.9, input)
            && fails_on_clone(ps.10, input)
            && fails_on_clone(ps.11, input)
            && fails_on_clone(ps.12, input)
            && fails_on_clone(ps.13, input)
            && fails_on_clone(ps.14, input)
            && fails_on_clone(ps.15, input)
            && fails_on_clone(ps.16, input)
            && fails_on_clone(ps.17, input)
            && fails_on_clone(ps.18, input)
            && fails_on_clone(ps.19, input)
            ==> accepts_clones(ps.20, input)
        &&& fails_on_clone(ps.0, input)
            && fails_on_clone(ps.1, input)
            && fails_on_clone(ps.2, input)
            && fails_on_clone(ps.3, input)
            && fails_on_clone(ps.4, input)
            && fails_on_clone(ps.5, input)
            && fails_on_clone(ps.6, input)
            && fails_on_clone(ps.7, input)
            && fails_on_clone(ps.8, input)
            && fails_on_clone(ps.9, input)
            && fails_on_clone(ps.10, input)
            && fails_on_clone(ps.11, input)
            && fails_on_clone(ps.12, input)
            && fails_on_clone(ps.13, input)
            && fails_on_clone(ps.14, input)
            && fails_on_clone(ps.15, input)
            && fails_on_clone(ps.16, input)
            && fails_on_clone(ps.17, input)
            && fails_on_clone(ps.18, input)
            && fails_on_clone(ps.19, input)
            && fails_on_clone(ps.20, input)
            ==> accepts_clones(ps.21, input)
        &&& fails_on_clone(ps.0, input)
            && fails_on_clone(ps.1, input)
            && fails_on_clone(ps.2, input)
            && fails_on_clone(ps.3, input)
            && fails_on_clone(ps.4, input)
            && fails_on_clone(ps.5, input)
            && fails_on_clone(ps.6, input)
            && fails_on_clone(ps.7, input)
            && fails_on_clone(ps.8, input)
            && fails_on_clone(ps.9, input)
            && fails_on_clone(ps.10, input)
            && fails_on_clone(ps.11, input)
            && fails_on_clone(ps.12, input)
            && fails_on_clone(ps.13, input)
            && fails_on_clone(ps.14, input)
            && fails_on_clone(ps.15, input)
            && fails_on_clone(ps.16, input)
            && fails_on_clone(ps.17, input)
            && fails_on_clone(ps.18, input)
            && fails_on_clone(ps.19, input)
            && fails_on_clone(ps.20, input)
            && fails_on_clone(ps.21, input)
            ==> accepts_clones(ps.22, input)
    }

    open spec fn parse_ensures(&self, input: IN, res: Result<(OUT, IN), (A::Error, B::Error, C::Error, D::Error, E::Error, F::Error, G::Error, H::Error, I::Error, J::Error, K::Error, L::Error, M::Error, N::Error, O::Error, P::Error, Q::Error, R::Error, S::Error, T::Error, U::Error, V::Error, W::Error)>) -> bool {
        let ps = self.parsers();
        match res {
            Ok(x) => {
                ||| yields_on_clone(ps.0, input, Ok(x))
                ||| fails_on_clone(ps.0, input)
                    && yields_on_clone(ps.1, input, Ok(x))
                ||| fails_on_clone(ps.0, input)
                    && fails_on_clone(ps.1, input)
                    && yields_on_clone(ps.2, input, Ok(x))
                ||| fails_on_clone(ps.0, input)
                    && fails_on_clone(ps.1, input)
                    && fails_on_clone(ps.2, input)
                    && yields_on_clone(ps.3, input, Ok(x))
                ||| fails_on_clone(ps.0, input)
                    && fails_on_clone(ps.1, input)
                    && fails_on_clone(ps.2, input)
                    && fails_on_clone(ps.3, input)
                    && yields_on_clone(ps.4, input, Ok(x))
                ||| fails_on_clone(ps.0, input)
                    && fails_on_clone(ps.1, input)
                    && fails_on_clone(ps.2, input)
                    && fails_on_clone(ps.3, input)
                    && fails_on_clone(ps.4, input)
                    && yields_on_clone(ps.5, input, Ok(x))
                ||| fails_on_clone(ps.0, input)
                    && fails_on_clone(ps.1, input)
                    && fails_on_clone(ps.2, input)
                    && fails_on_clone(ps.3, input)
                    && fails_on_clone(ps.4, input)
                    && fails_on_clone(ps.5, input)
                    && yields_on_clone(ps.6, input, Ok(x))
                ||| fails_on_clone(ps.0, input)
                    && fails_on_clone(ps.1, input)
                    && fails_on_clone(ps.2, input)
                    && fails_on_clone(ps.3, input)
                    && fails_on_clone(ps.4, input)
                    && fails_on_clone(ps.5, input)
                    && fails_on_clone(ps.6, input)
                    && yields_on_clone(ps.7, input, Ok(x))
                ||| fails_on_clone(ps.0, input)
                    && fails_on_clone(ps.1, input)
                    && fails_on_clone(ps.2, input)
                    && fails_on_clone(ps.3, input)
                    && fails_on_clone(ps.4, input)
                    && fails_on_clone(ps.5, input)
                    && fails_on_clone(ps.6, input)
                    && fails_on_clone(ps.7, input)
                    && yields_on_clone(ps.8, input, Ok(x))
                ||| fails_on_clone(ps.0, input)
                    && fails_on_clone(ps.1, input)
                    && fails_on_clone(ps.2, input)
                    && fails_on_clone(ps.3, input)
                    && fails_on_clone(ps.4, input)
                    && fails_on_clone(ps.5, input)
                    && fails_on_clone(ps.6, input)
                    && fails_on_clone(ps.7, input)
                    && fails_on_clone(ps.8, input)
                    && yields_on_clone(ps.9, input, Ok(x))
                ||| fails_on_clone(ps.0, input)
                    && fails_on_clone(ps.1, input)
                    && fails_on_clone(ps.2, input)
                    && fails_on_clone(ps.3, input)
                    && fails_on_clone(ps.4, input)
                    && fails_on_clone(ps.5, input)
                    && fails_on_clone(ps.6, input)
                    && fails_on_clone(ps.7, input)
                    && fails_on_clone(ps.8, input)
                    && fails_on_clone(ps.9, input)
                    && yields_on_clone(ps.10, input, Ok(x))
                ||| fails_on_clone(ps.0, input)
                    && fails_on_clone(ps.1, input)
                    && fails_on_clone(ps.2, input)
                    && fails_on_clone(ps.3, input)
                    && fails_on_clone(ps.4, input)
                    && fails_on_clone(ps.5, input)
                    && fails_on_clone(ps.6, input)
                    && fails_on_clone(ps.7, input)
                    && fails_on_clone(ps.8, input)
                    && fails_on_clone(ps.9, input)
                    && fails_on_clone(ps.10, input)
                    && yields_on_clone(ps.11, input, Ok(x))
                ||| fails_on_clone(ps.0, input)
                    && fails_on_clone(ps.1, input)
                    && fails_on_clone(ps.2, input)
                    && fails_on_clone(ps.3, input)
                    && fails_on_clone(ps.4, input)
                    && fails_on_clone(ps.5, input)
                    && fails_on_clone(ps.6, input)
                    && fails_on_clone(ps.7, input)
                    && fails_on_clone(ps.8, input)
                    && fails_on_clone(ps.9, input)
                    && fails_on_clone(ps.10, input)
                    && fails_on_clone(ps.11, input)
                    && yields_on_clone(ps.12, input, Ok(x))
                ||| fails_on_clone(ps.0, input)
                    && fails_on_clone(ps.1, input)
                    && fails_on_clone(ps.2, input)
                    && fails_on_clone(ps.3, input)
                    && fails_on_clone(ps.4, input)
                    && fails_on_clone(ps.5, input)
                    && fails_on_clone(ps.6, input)
                    && fails_on_clone(ps.7, input)
                    && fails_on_clone(ps.8, input)
                    && fails_on_clone(ps.9, input)
                    && fails_on_clone(ps.10, input)
                    && fails_on_clone(ps.11, input)
                    && fails_on_clone(ps.12, input)
                    && yields_on_clone(ps.13, input, Ok(x))
                ||| fails_on_clone(ps.0, input)
                    && fails_on_clone(ps.1, input)
                    && fails_on_clone(ps.2, input)
                    && fails_on_clone(ps.3, input)
                    && fails_on_clone(ps.4, input)
                    && fails_on_clone(ps.5, input)
                    && fails_on_clone(ps.6, input)
                    && fails_on_clone(ps.7, input)
                    && fails_on_clone(ps.8, input)
                    && fails_on_clone(ps.9, input)
                    && fails_on_clone(ps.10, input)
                    && fails_on_clone(ps.11, input)
                    && fails_on_clone(ps.12, input)
                    && fails_on_clone(ps.13, input)
                    && yields_on_clone(ps.14, input, Ok(x))
                ||| fails_on_clone(ps.0, input)
                    && fails_on_clone(ps.1, input)
                    && fails_on_clone(ps.2, input)
                    && fails_on_clone(ps.3, input)
                    && fails_on_clone(ps.4, input)
                    && fails_on_clone(ps.5, input)
                    && fails_on_clone(ps.6, input)
                    && fails_on_clone(ps.7, input)
                    && fails_on_clone(ps.8, input)
                    && fails_on_clone(ps.9, input)
                    && fails_on_clone(ps.10, input)
                    && fails_on_clone(ps.11, input)
                    && fails_on_clone(ps.12, input)
                    && fails_on_clone(ps.13, input)
                    && fails_on_clone(ps.14, input)
                    && yields_on_clone(ps.15, input, Ok(x))
                ||| fails_on_clone(ps.0, input)
                    && fails_on_clone(ps.1, input)
                    && fails_on_clone(ps.2, input)
                    && fails_on_clone(ps.3, input)
                    && fails_on_clone(ps.4, input)
                    && fails_on_clone(ps.5, input)
                    && fails_on_clone(ps.6, input)
                    && fails_on_clone(ps.7, input)
                    && fails_on_clone(ps.8, input)
                    && fails_on_clone(ps.9, input)
                    && fails_on_clone(ps.10, input)
                    && fails_on_clone(ps.11, input)
                    && fails_on_clone(ps.12, input)
                    && fails_on_clone(ps.13, input)
                    && fails_on_clone(ps.14, input)
                    && fails_on_clone(ps.15, input)
                    && yields_on_clone(ps.16, input, Ok(x))
                ||| fails_on_clone(ps.0, input)
                    && fails_on_clone(ps.1, input)
                    && fails_on_clone(ps.2, input)
                    && fails_on_clone(ps.3, input)
                    && fails_on_clone(ps.4, input)
                    && fails_on_clone(ps.5, input)
                    && fails_on_clone(ps.6, input)
                    && fails_on_clone(ps.7, input)
                    && fails_on_clone(ps.8, input)
                    && fails_on_clone(ps.9, input)
                    && fails_on_clone(ps.10, input)
                    && fails_on_clone(ps.11, input)
                    && fails_on_clone(ps.12, input)
                    && fails_on_clone(ps.13, input)
                    && fails_on_clone(ps.14, input)
                    && fails_on_clone(ps.15, input)
                    && fails_on_clone(ps.16, input)
                    && yields_on_clone(ps.17, input, Ok(x))
                ||| fails_on_clone(ps.0, input)
                    && fails_on_clone(ps.1, input)
                    && fails_on_clone(ps.2, input)
                    && fails_on_clone(ps.3, input)
                    && fails_on_clone(ps.4, input)
                    && fails_on_clone(ps.5, input)
                    && fails_on_clone(ps.6, input)
                    && fails_on_clone(ps.7, input)
                    && fails_on_clone(ps.8, input)
                    && fails_on_clone(ps.9, input)
                    && fails_on_clone(ps.10, input)
                    && fails_on_clone(ps.11, input)
                    && fails_on_clone(ps.12, input)
                    && fails_on_clone(ps.13, input)
                    && fails_on_clone(ps.14, input)
                    && fails_on_clone(ps.15, input)
                    && fails_on_clone(ps.16, input)
                    && fails_on_clone(ps.17, input)
                    && yields_on_clone(ps.18, input, Ok(x))
                ||| fails_on_clone(ps.0, input)
                    && fails_on_clone(ps.1, input)
                    && fails_on_clone(ps.2, input)
                    && fails_on_clone(ps.3, input)
                    && fails_on_clone(ps.4, input)
                    && fails_on_clone(ps.5, input)
                    && fails_on_clone(ps.6, input)
                    && fails_on_clone(ps.7, input)
                    && fails_on_clone(ps.8, input)
                    && fails_on_clone(ps.9, input)
                    && fails_on_clone(ps.10, input)
                    && fails_on_clone(ps.11, input)
                    && fails_on_clone(ps.12, input)
                    && fails_on_clone(ps.13, input)
                    && fails_on_clone(ps.14, input)
                    && fails_on_clone(ps.15, input)
                    && fails_on_clone(ps.16, input)
                    && fails_on_clone(ps.17, input)
                    && fails_on_clone(ps.18, input)
                    && yields_on_clone(ps.19, input, Ok(x))
                ||| fails_on_clone(ps.0, input)
                    && fails_on_clone(ps.1, input)
                    && fails_on_clone(ps.2, input)
                    && fails_on_clone(ps.3, input)
                    && fails_on_clone(ps.4, input)
                    && fails_on_clone(ps.5, input)
                    && fails_on_clone(ps.6, input)
                    && fails_on_clone(ps.7, input)
                    && fails_on_clone(ps.8, input)
                    && fails_on_clone(ps.9, input)
                    && fails_on_clone(ps.10, input)
                    && fails_on_clone(ps.11, input)
                    && fails_on_clone(ps.12, input)
                    && fails_on_clone(ps.13, input)
                    && fails_on_clone(ps.14, input)
                    && fails_on_clone(ps.15, input)
                    && fails_on_clone(ps.16, input)
                    && fails_on_clone(ps.17, input)
                    && fails_on_clone(ps.18, input)
                    && fails_on_clone(ps.19, input)
                    && yields_on_clone(ps.20, input, Ok(x))
                ||| fails_on_clone(ps.0, input)
                    && fails_on_clone(ps.1, input)
                    && fails_on_clone(ps.2, input)
                    && fails_on_clone(ps.3, input)
                    && fails_on_clone(ps.4, input)
                    && fails_on_clone(ps.5, input)
                    && fails_on_clone(ps.6, input)
                    && fails_on_clone(ps.7, input)
                    && fails_on_clone(ps.8, input)
                    && fails_on_clone(ps.9, input)
                    && fails_on_clone(ps.10, input)
                    && fails_on_clone(ps.11, input)
                    && fails_on_clone(ps.12, input)
                    && fails_on_clone(ps.13, input)
                    && fails_on_clone(ps.14, input)
                    && fails_on_clone(ps.15, input)
                    && fails_on_clone(ps.16, input)
                    && fails_on_clone(ps.17, input)
                    && fails_on_clone(ps.18, input)
                    && fails_on_clone(ps.19, input)
                    && fails_on_clone(ps.20, input)
                    && yields_on_clone(ps.21, input, Ok(x))
                ||| fails_on_clone(ps.0, input)
                    && fails_on_clone(ps.1, input)
                    && fails_on_clone(ps.2, input)
                    && fails_on_clone(ps.3, input)
                    && fails_on_clone(ps.4, input)
                    && fails_on_clone(ps.5, input)
                    && fails_on_clone(ps.6, input)
                    && fails_on_clone(ps.7, input)
                    && fails_on_clone(ps.8, input)
                    && fails_on_clone(ps.9, input)
                    && fails_on_clone(ps.10, input)
                    && fails_on_clone(ps.11, input)
                    && fails_on_clone(ps.12, input)
                    && fails_on_clone(ps.13, input)
                    && fails_on_clone(ps.14, input)
                    && fails_on_clone(ps.15, input)
                    && fails_on_clone(ps.16, input)
                    && fails_on_clone(ps.17, input)
                    && fails_on_clone(ps.18, input)
                    && fails_on_clone(ps.19, input)
                    && fails_on_clone(ps.20, input)
                    && fails_on_clone(ps.21, input)
                    && yields_on_clone(ps.22, input, Ok(x))
            },
            Err((a, b, c, d, e, f, g, h, i, j, k, l, m, n, o, p, q, r, s, t, u, v, w)) => {
                &&& yields_on_clone(ps.0, input, Err(a))
                &&& yields_on_clone(ps.1, input, Err(b))
                &&& yields_on_clone(ps.2, input, Err(c))
                &&& yields_on_clone(ps.3, input, Err(d))
                &&& yields_on_clone(ps.4, input, Err(e))
                &&& yields_on_clone(ps.5, input, Err(f))
                &&& yields_on_clone(ps.6, input, Err(g))
                &&& yields_on_clone(ps.7, input, Err(h))
                &&& yields_on_clone(ps.8, input, Err(i))
                &&& yields_on_clone(ps.9, input, Err(j))
                &&& yields_on_clone(ps.10, input, Err(k))
                &&& yields_on_clone(ps.11, input, Err(l))
                &&& yields_on_clone(ps.12, input, Err(m))
                &&& yields_on_clone(ps.13, input, Err(n))
                &&& yields_on_clone(ps.14, input, Err(o))
                &&& yields_on_clone(ps.15, input, Err(p))
                &&& yields_on_clone(ps.16, input, Err(q))
                &&& yields_on_clone(ps.17, input, Err(r))
                &&& yields_on_clone(ps.18, input, Err(s))
                &&& yields_on_clone(ps.19, input, Err(t))
                &&& yields_on_clone(ps.20, input, Err(u))
                &&& yields_on_clone(ps.21, input, Err(v))
                &&& yields_on_clone(ps.22, input, Err(w))
            },
        }
    }

    fn parse(&self, txt: IN) -> (res: Result<(OUT, IN), (A::Error, B::Error, C::Error, D::Error, E::Error, F::Error, G::Error, H::Error, I::Error, J::Error, K::Error, L::Error, M::Error, N::Error, O::Error, P::Error, Q::Error, R::Error, S::Error, T::Error, U::Error, V::Error, W::Error)>) {
        let c0 = txt.clone();
        let a = match self.ps.0.parse(c0) {
            Ok(r) => {
                assert(yields_on_clone(self.ps.0, txt, Ok(r)));
                return Ok(r);
            },
            Err(e) => e,
        };
        assert(yields_on_clone(self.ps.0, txt, Err(a)));
        let c1 = txt.clone();
        let b = match self.ps.1.parse(c1) {
            Ok(r) => {
                assert(yields_on_clone(self.ps.1, txt, Ok(r)));
                return Ok(r);
            },
            Err(e) => e,
        };
        assert(yields_on_clone(self.ps.1, txt, Err(b)));
        let c2 = txt.clone();
        let c = match self.ps.2.parse(c2) {
            Ok(r) => {
                assert(yields_on_clone(self.ps.2, txt, Ok(r)));
                return Ok(r);
            },
            Err(e) => e,
        };
        assert(yields_on_clone(self.ps.2, txt, Err(c)));
        let c3 = txt.clone();
        let d = match self.ps.3.parse(c3) {
            Ok(r) => {
                assert(yields_on_clone(self.ps.3, txt, Ok(r)));
                return Ok(r);
            },
            Err(e) => e,
        };
        assert(yields_on_clone(self.ps.3, txt, Err(d)));
        let c4 = txt.clone();
        let e = match self.ps.4.parse(c4) {
            Ok(r) => {
                assert(yields_on_clone(self.ps.4, txt, Ok(r)));
                return Ok(r);
            },
            Err(e) => e,
        };
        assert(yields_on_clone(self.ps.4, txt, Err(e)));
        let c5 = txt.clone();
        let f = match self.ps.5.parse(c5) {
            Ok(r) => {
                assert(yields_on_clone(self.ps.5, txt, Ok(r)));
                return Ok(r);
            },
            Err(e) => e,
        };
        assert(yields_on_clone(self.ps.5, txt, Err(f)));
        let c6 = txt.clone();
        let g = match self.ps.6.parse(c6) {
            Ok(r) => {
                assert(yields_on_clone(self.ps.6, txt, Ok(r)));
                return Ok(r);
            },
            Err(e) => e,
        };
        assert(yields_on_clone(self.ps.6, txt, Err(g)));
        let c7 = txt.clone();
        let h = match self.ps.7.parse(c7) {
            Ok(r) => {
                assert(yields_on_clone(self.ps.7, txt, Ok(r)));
                return Ok(r);
            },
            Err(e) => e,
        };
        assert(yields_on_clone(self.ps.7, txt, Err(h)));
        let c8 = txt.clone();
        let i = match self.ps.8.parse(c8) {
            Ok(r) => {
                assert(yields_on_clone(self.ps.8, txt, Ok(r)));
                return Ok(r);
            },
            Err(e) => e,
        };
        assert(yields_on_clone(self.ps.8, txt, Err(i)));
        let c9 = txt.clone();
        let j = match self.ps.9.parse(c9) {
            Ok(r) => {
                assert(yields_on_clone(self.ps.9, txt, Ok(r)));
                return Ok(r);
            },
            Err(e) => e,
        };
        assert(yields_on_clone(self.ps.9, txt, Err(j)));
        let c10 = txt.clone();
        let k = match self.ps.10.parse(c10) {
            Ok(r) => {
                assert(yields_on_clone(self.ps.10, txt, Ok(r)));
                return Ok(r);
            },
            Err(e) => e,
        };
        assert(yields_on_clone(self.ps.10, txt, Err(k)));
        let c11 = txt.clone();
        let l = match self.ps.11.parse(c11) {
            Ok(r) => {
                assert(yields_on_clone(self.ps.11, txt, Ok(r)));
                return Ok(r);
            },
            Err(e) => e,
        };
        assert(yields_on_clone(self.ps.11, txt, Err(l)));
        let c12 = txt.clone();
        let m = match self.ps.12.parse(c12) {
            Ok(r) => {
                assert(yields_on_clone(self.ps.12, txt, Ok(r)));
                return Ok(r);
            },
            Err(e) => e,
        };
        assert(yields_on_clone(self.ps.12, txt, Err(m)));
        let c13 = txt.clone();
        let n = match self.ps.13.parse(c13) {
            Ok(r) => {
                assert(yields_on_clone(self.ps.13, txt, Ok(r)));
                return Ok(r);
            },
            Err(e) => e,
        };
        assert(yields_on_clone(self.ps.13, txt, Err(n)));
        let c14 = txt.clone();
        let o = match self.ps.14.parse(c14) {
            Ok(r) => {
                assert(yields_on_clone(self.ps.14, txt, Ok(r)));
                return Ok(r);
            },
            Err(e) => e,
        };
        assert(yields_on_clone(self.ps.14, txt, Err(o)));
        let c15 = txt.clone();
        let p = match self.ps.15.parse(c15) {
            Ok(r) => {
                assert(yields_on_clone(self.ps.15, txt, Ok(r)));
                return Ok(r);
            },
            Err(e) => e,
        };
        assert(yields_on_clone(self.ps.15, txt, Err(p)));
        let c16 = txt.clone();
        let q = match self.ps.16.parse(c16) {
            Ok(r) => {
                assert(yields_on_clone(self.ps.16, txt, Ok(r)));
                return Ok(r);
            },
            Err(e) => e,
        };
        assert(yields_on_clone(self.ps.16, txt, Err(q)));
        let c17 = txt.clone();
        let r = match self.ps.17.parse(c17) {
            Ok(r) => {
                assert(yields_on_clone(self.ps.17, txt, Ok(r)));
                return Ok(r);
            },
            Err(e) => e,
        };
        assert(yields_on_clone(self.ps.17, txt, Err(r)));
        let c18 = txt.clone();
        let s = match self.ps.18.parse(c18) {
            Ok(r) => {
                assert(yields_on_clone(self.ps.18, txt, Ok(r)));
                return Ok(r);
            },
            Err(e) => e,
        };
        assert(yields_on_clone(self.ps.18, txt, Err(s)));
        let c19 = txt.clone();
        let t = match self.ps.19.parse(c19) {
            Ok(r) => {
                assert(yields_on_clone(self.ps.19, txt, Ok(r)));
                return Ok(r);
            },
            Err(e) => e,
        };
        assert(yields_on_clone(self.ps.19, txt, Err(t)));
        let c20 = txt.clone();
        let u = match self.ps.20.parse(c20) {
            Ok(r) => {
                assert(yields_on_clone(self.ps.20, txt, Ok(r)));
                return Ok(r);
            },
            Err(e) => e,
        };
        assert(yields_on_clone(self.ps.20, txt, Err(u)));
        let c21 = txt.clone();
        let v = match self.ps.21.parse(c21) {
            Ok(r) => {
                assert(yields_on_clone(self.ps.21, txt, Ok(r)));
                return Ok(r);
            },
            Err(e) => e,
        };
        assert(yields_on_clone(self.ps.21, txt, Err(v)));
        let c22 = txt.clone();
        let w = match self.ps.22.parse(c22) {
            Ok(r) => {
                assert(yields_on_clone(self.ps.22, txt, Ok(r)));
                return Ok(r);
            },
            Err(e) => e,
        };
        assert(yields_on_clone(self.ps.22, txt, Err(w)));
        Err((a, b, c, d, e, f, g, h, i, j, k, l, m, n, o, p, q, r, s, t, u, v, w))
    }
}

/// Over inputs whose clones are equal, an alternative of 23 deterministic
/// parsers is deterministic.
pub proof fn lemma_alt23_deterministic<IN: Clone, OUT, A, B, C, D, E, F, G, H, I, J, K, L, M, N, O, P, Q, R, S, T, U, V, W>(a: Alt<IN, (A, B, C, D, E, F, G, H, I, J, K, L, M, N, O, P, Q, R, S, T, U, V, W)>)
    where
        A: Parser<IN, Out = OUT>,
        B: Parser<IN, Out = OUT>,
        C: Parser<IN, Out = OUT>,
        D: Parser<IN, Out = OUT>,
        E: Parser<IN, Out = OUT>,
        F: Parser<IN, Out = OUT>,
        G: Parser<IN, Out = OUT>,
        H: Parser<IN, Out = OUT>,
        I: Parser<IN, Out = OUT>,
        J: Parser<IN, Out = OUT>,
        K: Parser<IN, Out = OUT>,
        L: Parser<IN, Out = OUT>,
        M: Parser<IN, Out = OUT>,
        N: Parser<IN, Out = OUT>,
        O: Parser<IN, Out = OUT>,
        P: Parser<IN, Out = OUT>,
        Q: Parser<IN, Out = OUT>,
        R: Parser<IN, Out = OUT>,
        S: Parser<IN, Out = OUT>,
        T: Parser<IN, Out = OUT>,
        U: Parser<IN, Out = OUT>,
        V: Parser<IN, Out = OUT>,
        W: Parser<IN, Out = OUT>,
    requires
        clones_are_equal::<IN>(),
        deterministic::<IN, A>(a.parsers().0),
        deterministic::<IN, B>(a.parsers().1),
        deterministic::<IN, C>(a.parsers().2),
        deterministic::<IN, D>(a.parsers().3),
        deterministic::<IN, E>(a.parsers().4),
        deterministic::<IN, F>(a.parsers().5),
        deterministic::<IN, G>(a.parsers().6),
        deterministic::<IN, H>(a.parsers().7),
        deterministic::<IN, I>(a.parsers().8),
        deterministic::<IN, J>(a.parsers().9),
        deterministic::<IN, K>(a.parsers().10),
        deterministic::<IN, L>(a.parsers().11),
        deterministic::<IN, M>(a.parsers().12),
        deterministic::<IN, N>(a.parsers().13),
        deterministic::<IN, O>(a.parsers().14),
        deterministic::<IN, P>(a.parsers().15),
        deterministic::<IN, Q>(a.parsers().16),
        deterministic::<IN, R>(a.parsers().17),
        deterministic::<IN, S>(a.parsers().18),
        deterministic::<IN, T>(a.parsers().19),
        deterministic::<IN, U>(a.parsers().20),
        deterministic::<IN, V>(a.parsers().21),
        deterministic::<IN, W>(a.parsers().22),
    ensures
        deterministic::<IN, Alt<IN, (A, B, C, D, E, F, G, H, I, J, K, L, M, N, O, P, Q, R, S, T, U, V, W)>>(a),
{
    lemma_clones_are_transparent::<IN, A>(a.parsers().0);
    lemma_clones_are_transparent::<IN, B>(a.parsers().1);
    lemma_clones_are_transparent::<IN, C>(a.parsers().2);
    lemma_clones_are_transparent::<IN, D>(a.parsers().3);
    lemma_clones_are_transparent::<IN, E>(a.parsers().4);
    lemma_clones_are_transparent::<IN, F>(a.parsers().5);
    lemma_clones_are_transparent::<IN, G>(a.parsers().6);
    lemma_clones_are_transparent::<IN, H>(a.parsers().7);
    lemma_clones_are_transparent::<IN, I>(a.parsers().8);
    lemma_clones_are_transparent::<IN, J>(a.parsers().9);
    lemma_clones_are_transparent::<IN, K>(a.parsers().10);
    lemma_clones_are_transparent::<IN, L>(a.parsers().11);
    lemma_clones_are_transparent::<IN, M>(a.parsers().12);
    lemma_clones_are_transparent::<IN, N>(a.parsers().13);
    lemma_clones_are_transparent::<IN, O>(a.parsers().14);
    lemma_clones_are_transparent::<IN, P>(a.parsers().15);
    lemma_clones_are_transparent::<IN, Q>(a.parsers().16);
    lemma_clones_are_transparent::<IN, R>(a.parsers().17);
    lemma_clones_are_transparent::<IN, S>(a.parsers().18);
    lemma_clones_are_transparent::<IN, T>(a.parsers().19);
    lemma_clones_are_transparent::<IN, U>(a.parsers().20);
    lemma_clones_are_transparent::<IN, V>(a.parsers().21);
    lemma_clones_are_transparent::<IN, W>(a.parsers().22);
}

impl<IN: Clone, OUT, A, B, C, D, E, F, G, H, I, J, K, L, M, N, O, P, Q, R, S, T, U, V, W, X> From<(A, B, C, D, E, F, G, H, I, J, K, L, M, N, O, P, Q, R, S, T, U, V, W, X)> for Alt<IN, (A, B, C, D, E, F, G, H, I, J, K, L, M, N, O, P, Q, R, S, T, U, V, W, X)> where
    A: Parser<IN, Out = OUT>,
    B: Parser<IN, Out = OUT>,
    C: Parser<IN, Out = OUT>,
    D: Parser<IN, Out = OUT>,
    E: Parser<IN, Out = OUT>,
    F: Parser<IN, Out = OUT>,
    G: Parser<IN, Out = OUT>,
    H: Parser<IN, Out = OUT>,
    I: Parser<IN, Out = OUT>,
    J: Parser<IN, Out = OUT>,
    K: Parser<IN, Out = OUT>,
    L: Parser<IN, Out = OUT>,
    M: Parser<IN, Out = OUT>,
    N: Parser<IN, Out = OUT>,
    O: Parser<IN, Out = OUT>,
    P: Parser<IN, Out = OUT>,
    Q: Parser<IN, Out = OUT>,
    R: Parser<IN, Out = OUT>,
    S: Parser<IN, Out = OUT>,
    T: Parser<IN, Out = OUT>,
    U: Parser<IN, Out = OUT>,
    V: Parser<IN, Out = OUT>,
    W: Parser<IN, Out = OUT>,
    X: Parser<IN, Out = OUT>,
 {
    fn from(ps: (A, B, C, D, E, F, G, H, I, J, K, L, M, N, O, P, Q, R, S, T, U, V, W, X)) -> (r: Self) {
        let r = Self { ps, _ghost: PhantomData };
        proof {
            lemma_alt_determined_by_parsers(r, ps);
        }
        r
    }
}

impl<IN: Clone, OUT, A, B, C, D, E, F, G, H, I, J, K, L, M, N, O, P, Q, R, S, T, U, V, W, X> FromSpecImpl<(A, B, C, D, E, F, G, H, I, J, K, L, M, N, O, P, Q, R, S, T, U, V, W, X)> for Alt<IN, (A, B, C, D, E, F, G, H, I, J, K, L, M, N, O, P, Q, R, S, T, U, V, W, X)> where
    A: Parser<IN, Out = OUT>,
    B: Parser<IN, Out = OUT>,
    C: Parser<IN, Out = OUT>,
    D: Parser<IN, Out = OUT>,
    E: Parser<IN, Out = OUT>,
    F: Parser<IN, Out = OUT>,
    G: Parser<IN, Out = OUT>,
    H: Parser<IN, Out = OUT>,
    I: Parser<IN, Out = OUT>,
    J: Parser<IN, Out = OUT>,
    K: Parser<IN, Out = OUT>,
    L: Parser<IN, Out = OUT>,
    M: Parser<IN, Out = OUT>,
    N: Parser<IN, Out = OUT>,
    O: Parser<IN, Out = OUT>,
    P: Parser<IN, Out = OUT>,
    Q: Parser<IN, Out = OUT>,
    R: Parser<IN, Out = OUT>,
    S: Parser<IN, Out = OUT>,
    T: Parser<IN, Out = OUT>,
    U: Parser<IN, Out = OUT>,
    V: Parser<IN, Out = OUT>,
    W: Parser<IN, Out = OUT>,
    X: Parser<IN, Out = OUT>,
 {
    open spec fn obeys_from_spec() -> bool {
        true
    }

    open spec fn from_spec(ps: (A, B, C, D, E, F, G, H, I, J, K, L, M, N, O, P, Q, R, S, T, U, V, W, X)) -> Self {
        choose|a: Self| a.parsers() == ps
    }
}

/// An alternative of 24 parsers with one output type.
impl<IN: Clone, OUT, A, B, C, D, E, F, G, H, I, J, K, L, M, N, O, P, Q, R, S, T, U, V, W, X> Parser<IN> for Alt<IN, (A, B, C, D, E, F, G, H, I, J, K, L, M, N, O, P, Q, R, S, T, U, V, W, X)> where
    A: Parser<IN, Out = OUT>,
    B: Parser<IN, Out = OUT>,
    C: Parser<IN, Out = OUT>,
    D: Parser<IN, Out = OUT>,
    E: Parser<IN, Out = OUT>,
    F: Parser<IN, Out = OUT>,
    G: Parser<IN, Out = OUT>,
    H: Parser<IN, Out = OUT>,
    I: Parser<IN, Out = OUT>,
    J: Parser<IN, Out = OUT>,
    K: Parser<IN, Out = OUT>,
    L: Parser<IN, Out = OUT>,
    M: Parser<IN, Out = OUT>,
    N: Parser<IN, Out = OUT>,
    O: Parser<IN, Out = OUT>,
    P: Parser<IN, Out = OUT>,
    Q: Parser<IN, Out = OUT>,
    R: Parser<IN, Out = OUT>,
    S: Parser<IN, Out = OUT>,
    T: Parser<IN, Out = OUT>,
    U: Parser<IN, Out = OUT>,
    V: Parser<IN, Out = OUT>,
    W: Parser<IN, Out = OUT>,
    X: Parser<IN, Out = OUT>,
 {
    type Out = OUT;

    type Error = (A::Error, B::Error, C::Error, D::Error, E::Error, F::Error, G::Error, H::Error, I::Error, J::Error, K::Error, L::Error, M::Error, N::Error, O::Error, P::Error, Q::Error, R::Error, S::Error, T::Error, U::Error, V::Error, W::Error, X::Error);

    open spec fn parse_requires(&self, input: IN) -> bool {
        let ps = self.parsers();
        &&& accepts_clones(ps.0, input)
        &&& fails_on_clone(ps.0, input)
            ==> accepts_clones(ps.1, input)
        &&& fails_on_clone(ps.0, input)
            && fails_on_clone(ps.1, input)
            ==> accepts_clones(ps.2, input)
        &&& fails_on_clone(ps.0, input)
            && fails_on_clone(ps.1, input)
            && fails_on_clone(ps.2, input)
            ==> accepts_clones(ps.3, input)
        &&& fails_on_clone(ps.0, input)
            && fails_on_clone(ps.1, input)
            && fails_on_clone(ps.2, input)
            && fails_on_clone(ps.3, input)
            ==> accepts_clones(ps.4, input)
        &&& fails_on_clone(ps.0, input)
            && fails_on_clone(ps.1, input)
            && fails_on_clone(ps.2, input)
            && fails_on_clone(ps.3, input)
            && fails_on_clone(ps.4, input)
            ==> accepts_clones(ps.5, input)
        &&& fails_on_clone(ps.0, input)
            && fails_on_clone(ps.1, input)
            && fails_on_clone(ps.2, input)
            && fails_on_clone(ps.3, input)
            && fails_on_clone(ps.4, input)
            && fails_on_clone(ps.5, input)
            ==> accepts_clones(ps.6, input)
        &&& fails_on_clone(ps.0, input)
            && fails_on_clone(ps.1, input)
            && fails_on_clone(ps.2, input)
            && fails_on_clone(ps.3, input)
            && fails_on_clone(ps.4, input)
            && fails_on_clone(ps.5, input)
            && fails_on_clone(ps.6, input)
            ==> accepts_clones(ps.7, input)
        &&& fails_on_clone(ps.0, input)
            && fails_on_clone(ps.1, input)
            && fails_on_clone(ps.2, input)
            && fails_on_clone(ps.3, input)
            && fails_on_clone(ps.4, input)
            && fails_on_clone(ps.5, input)
            && fails_on_clone(ps.6, input)
            && fails_on_clone(ps.7, input)
            ==> accepts_clones(ps.8, input)
        &&& fails_on_clone(ps.0, input)
            && fails_on_clone(ps.1, input)
            && fails_on_clone(ps.2, input)
            && fails_on_clone(ps.3, input)
            && fails_on_clone(ps.4, input)
            && fails_on_clone(ps.5, input)
            && fails_on_clone(ps.6, input)
            && fails_on_clone(ps.7, input)
            && fails_on_clone(ps.8, input)
            ==> accepts_clones(ps.9, input)
        &&& fails_on_clone(ps.0, input)
            && fails_on_clone(ps.1, input)
            && fails_on_clone(ps.2, input)
            && fails_on_clone(ps.3, input)
            && fails_on_clone(ps.4, input)
            && fails_on_clone(ps.5, input)
            && fails_on_clone(ps.6, input)
            && fails_on_clone(ps.7, input)
            && fails_on_clone(ps.8, input)
            && fails_on_clone(ps.9, input)
            ==> accepts_clones(ps.10, input)
        &&& fails_on_clone(ps.0, input)
            && fails_on_clone(ps.1, input)
            && fails_on_clone(ps.2, input)
            && fails_on_clone(ps.3, input)
            && fails_on_clone(ps.4, input)
            && fails_on_clone(ps.5, input)
            && fails_on_clone(ps.6, input)
            && fails_on_clone(ps.7, input)
            && fails_on_clone(ps.8, input)
            && fails_on_clone(ps.9, input)
            && fails_on_clone(ps.10, input)
            ==> accepts_clones(ps.11, input)
        &&& fails_on_clone(ps.0, input)
            && fails_on_clone(ps.1, input)
            && fails_on_clone(ps.2, input)
            && fails_on_clone(ps.3, input)
            && fails_on_clone(ps.4, input)
            && fails_on_clone(ps.5, input)
            && fails_on_clone(ps.6, input)
            && fails_on_clone(ps.7, input)
            && fails_on_clone(ps.8, input)
            && fails_on_clone(ps.9, input)
            && fails_on_clone(ps.10, input)
            && fails_on_clone(ps.11, input)
            ==> accepts_clones(ps.12, input)
        &&& fails_on_clone(ps.0, input)
            && fails_on_clone(ps.1, input)
            && fails_on_clone(ps.2, input)
            && fails_on_clone(ps.3, input)
            && fails_on_clone(ps.4, input)
            && fails_on_clone(ps.5, input)
            && fails_on_clone(ps.6, input)
            && fails_on_clone(ps.7, input)
            && fails_on_clone(ps.8, input)
            && fails_on_clone(ps.9, input)
            && fails_on_clone(ps.10, input)
            && fails_on_clone(ps.11, input)
            && fails_on_clone(ps.12, input)
            ==> accepts_clones(ps.13, input)
        &&& fails_on_clone(ps.0, input)
            && fails_on_clone(ps.1, input)
            && fails_on_clone(ps.2, input)
            && fails_on_clone(ps.3, input)
            && fails_on_clone(ps.4, input)
            && fails_on_clone(ps.5, input)
            && fails_on_clone(ps.6, input)
            && fails_on_clone(ps.7, input)
            && fails_on_clone(ps.8, input)
            && fails_on_clone(ps.9, input)
            && fails_on_clone(ps.10, input)
            && fails_on_clone(ps.11, input)
            && fails_on_clone(ps.12, input)
            && fails_on_clone(ps.13, input)
            ==> accepts_clones(ps.14, input)
        &&& fails_on_clone(ps.0, input)
            && fails_on_clone(ps.1, input)
            && fails_on_clone(ps.2, input)
            && fails_on_clone(ps.3, input)
            && fails_on_clone(ps.4, input)
            && fails_on_clone(ps.5, input)
            && fails_on_clone(ps.6, input)
            && fails_on_clone(ps.7, input)
            && fails_on_clone(ps.8, input)
            && fails_on_clone(ps.9, input)
            && fails_on_clone(ps.10, input)
            && fails_on_clone(ps.11, input)
            && fails_on_clone(ps.12, input)
            && fails_on_clone(ps.13, input)
            && fails_on_clone(ps.14, input)
            ==> accepts_clones(ps.15, input)
        &&& fails_on_clone(ps.0, input)
            && fails_on_clone(ps.1, input)
            && fails_on_clone(ps.2, input)
            && fails_on_clone(ps.3, input)
            && fails_on_clone(ps.4, input)
            && fails_on_clone(ps.5, input)
            && fails_on_clone(ps.6, input)
            && fails_on_clone(ps.7, input)
            && fails_on_clone(ps.8, input)
            && fails_on_clone(ps.9, input)
            && fails_on_clone(ps.10, input)
            && fails_on_clone(ps.11, input)
            && fails_on_clone(ps.12, input)
            && fails_on_clone(ps.13, input)
            && fails_on_clone(ps.14, input)
            && fails_on_clone(ps.15, input)
            ==> accepts_clones(ps.16, input)
        &&& fails_on_clone(ps.0, input)
            && fails_on_clone(ps.1, input)
            && fails_on_clone(ps.2, input)
            && fails_on_clone(ps.3, input)
            && fails_on_clone(ps.4, input)
            && fails_on_clone(ps.5, input)
            && fails_on_clone(ps.6, input)
            && fails_on_clone(ps.7, input)
            && fails_on_clone(ps.8, input)
            && fails_on_clone(ps.9, input)
            && fails_on_clone(ps.10, input)
            && fails_on_clone(ps.11, input)
            && fails_on_clone(ps.12, input)
            && fails_on_clone(ps.13, input)
            && fails_on_clone(ps.14, input)
            && fails_on_clone(ps.15, input)
            && fails_on_clone(ps.16, input)
            ==> accepts_clones(ps.17, input)
        &&& fails_on_clone(ps.0, input)
            && fails_on_clone(ps.1, input)
            && fails_on_clone(ps.2, input)
            && fails_on_clone(ps.3, input)
            && fails_on_clone(ps.4, input)
            && fails_on_clone(ps.5, input)
            && fails_on_clone(ps.6, input)
            && fails_on_clone(ps.7, input)
            && fails_on_clone(ps.8, input)
            && fails_on_clone(ps.9, input)
            && fails_on_clone(ps.10, input)
            && fails_on_clone(ps.11, input)
            && fails_on_clone(ps.12, input)
            && fails_on_clone(ps.13, input)
            && fails_on_clone(ps.14, input)
            && fails_on_clone(ps.15, input)
            && fails_on_clone(ps.16, input)
            && fails_on_clone(ps.17, input)
            ==> accepts_clones(ps.18, input)
        &&& fails_on_clone(ps.0, input)
            && fails_on_clone(ps.1, input)
            && fails_on_clone(ps.2, input)
            && fails_on_clone(ps.3, input)
            && fails_on_clone(ps.4, input)
            && fails_on_clone(ps.5, input)
            && fails_on_clone(ps.6, input)
            && fails_on_clone(ps.7, input)
            && fails_on_clone(ps.8, input)
            && fails_on_clone(ps.9, input)
            && fails_on_clone(ps.10, input)
            && fails_on_clone(ps.11, input)
            && fails_on_clone(ps.12, input)
            && fails_on_clone(ps.13, input)
            && fails_on_clone(ps.14, input)
            && fails_on_clone(ps.15, input)
            && fails_on_clone(ps.16, input)
            && fails_on_clone(ps.17, input)
            && fails_on_clone(ps.18, input)
            ==> accepts_clones(ps.19, input)
        &&& fails_on_clone(ps.0, input)
            && fails_on_clone(ps.1, input)
            && fails_on_clone(ps.2, input)
            && fails_on_clone(ps.3, input)
            && fails_on_clone(ps.4, input)
            && fails_on_clone(ps.5, input)
            && fails_on_clone(ps.6, input)
            && fails_on_clone(ps.7, input)
            && fails_on_clone(ps.8, input)
            && fails_on_clone(ps.9, input)
            && fails_on_clone(ps.10, input)
            && fails_on_clone(ps.11, input)
            && fails_on_clone(ps.12, input)
            && fails_on_clone(ps.13, input)
            && fails_on_clone(ps.14, input)
            && fails_on_clone(ps.15, input)
            && fails_on_clone(ps.16, input)
            && fails_on_clone(ps.17, input)
            && fails_on_clone(ps.18, input)
            && fails_on_clone(ps.19, input)
            ==> accepts_clones(ps.20, input)
        &&& fails_on_clone(ps.0, input)
            && fails_on_clone(ps.1, input)
            && fails_on_clone(ps.2, input)
            && fails_on_clone(ps.3, input)
            && fails_on_clone(ps.4, input)
            && fails_on_clone(ps.5, input)
            && fails_on_clone(ps.6, input)
            && fails_on_clone(ps.7, input)
            && fails_on_clone(ps.8, input)
            && fails_on_clone(ps.9, input)
            && fails_on_clone(ps.10, input)
            && fails_on_clone(ps.11, input)
            && fails_on_clone(ps.12, input)
            && fails_on_clone(ps.13, input)
            && fails_on_clone(ps.14, input)
            && fails_on_clone(ps.15, input)
            && fails_on_clone(ps.16, input)
            && fails_on_clone(ps.17, input)
            && fails_on_clone(ps.18, input)
            && fails_on_clone(ps.19, input)
            && fails_on_clone(ps.20, input)
            ==> accepts_clones(ps.21, input)
        &&& fails_on_clone(ps.0, input)
            && fails_on_clone(ps.1, input)
            && fails_on_clone(ps.2, input)
            && fails_on_clone(ps.3, input)
            && fails_on_clone(ps.4, input)
            && fails_on_clone(ps.5, input)
            && fails_on_clone(ps.6, input)
            && fails_on_clone(ps.7, input)
            && fails_on_clone(ps.8, input)
            && fails_on_clone(ps.9, input)
            && fails_on_clone(ps.10, input)
            && fails_on_clone(ps.11, input)
            && fails_on_clone(ps.12, input)
            && fails_on_clone(ps.13, input)
            && fails_on_clone(ps.14, input)
            && fails_on_clone(ps.15, input)
            && fails_on_clone(ps.16, input)
            && fails_on_clone(ps.17, input)
            && fails_on_clone(ps.18, input)
            && fails_on_clone(ps.19, input)
            && fails_on_clone(ps.20, input)
            && fails_on_clone(ps.21, input)
            ==> accepts_clones(ps.22, input)
        &&& fails_on_clone(ps.0, input)
            && fails_on_clone(ps.1, input)
            && fails_on_clone(ps.2, input)
            && fails_on_clone(ps.3, input)
            && fails_on_clone(ps.4, input)
            && fails_on_clone(ps.5, input)
            && fails_on_clone(ps.6, input)
            && fails_on_clone(ps.7, input)
            && fails_on_clone(ps.8, input)
            && fails_on_clone(ps.9, input)
            && fails_on_clone(ps.10, input)
            && fails_on_clone(ps.11, input)
            && fails_on_clone(ps.12, input)
            && fails_on_clone(ps.13, input)
            && fails_on_clone(ps.14, input)
            && fails_on_clone(ps.15, input)
            && fails_on_clone(ps.16, input)
            && fails_on_clone(ps.17, input)
            && fails_on_clone(ps.18, input)
            && fails_on_clone(ps.19, input)
            && fails_on_clone(ps.20, input)
            && fails_on_clone(ps.21, input)
            && fails_on_clone(ps.22, input)
            ==> accepts_clones(ps.23, input)
    }

    open spec fn parse_ensures(&self, input: IN, res: Result<(OUT, IN), (A::Error, B::Error, C::Error, D::Error, E::Error, F::Error, G::Error, H::Error, I::Error, J::Error, K::Error, L::Error, M::Error, N::Error, O::Error, P::Error, Q::Error, R::Error, S::Error, T::Error, U::Error, V::Error, W::Error, X::Error)>) -> bool {
        let ps = self.parsers();
        match res {
            Ok(x) => {
                ||| yields_on_clone(ps.0, input, Ok(x))
                ||| fails_on_clone(ps.0, input)
                    && yields_on_clone(ps.1, input, Ok(x))
                ||| fails_on_clone(ps.0, input)
                    && fails_on_clone(ps.1, input)
                    && yields_on_clone(ps.2, input, Ok(x))
                ||| fails_on_clone(ps.0, input)
                    && fails_on_clone(ps.1, input)
                    && fails_on_clone(ps.2, input)
                    && yields_on_clone(ps.3, input, Ok(x))
                ||| fails_on_clone(ps.0, input)
                    && fails_on_clone(ps.1, input)
                    && fails_on_clone(ps.2, input)
                    && fails_on_clone(ps.3, input)
                    && yields_on_clone(ps.4, input, Ok(x))
                ||| fails_on_clone(ps.0, input)
                    && fails_on_clone(ps.1, input)
                    && fails_on_clone(ps.2, input)
                    && fails_on_clone(ps.3, input)
                    && fails_on_clone(ps.4, input)
                    && yields_on_clone(ps.5, input, Ok(x))
                ||| fails_on_clone(ps.0, input)
                    && fails_on_clone(ps.1, input)
                    && fails_on_clone(ps.2, input)
                    && fails_on_clone(ps.3, input)
                    && fails_on_clone(ps.4, input)
                    && fails_on_clone(ps.5, input)
                    && yields_on_clone(ps.6, input, Ok(x))
                ||| fails_on_clone(ps.0, input)
                    && fails_on_clone(ps.1, input)
                    && fails_on_clone(ps.2, input)
                    && fails_on_clone(ps.3, input)
                    && fails_on_clone(ps.4, input)
                    && fails_on_clone(ps.5, input)
                    && fails_on_clone(ps.6, input)
                    && yields_on_clone(ps.7, input, Ok(x))
                ||| fails_on_clone(ps.0, input)
                    && fails_on_clone(ps.1, input)
                    && fails_on_clone(ps.2, input)
                    && fails_on_clone(ps.3, input)
                    && fails_on_clone(ps.4, input)
                    && fails_on_clone(ps.5, input)
                    && fails_on_clone(ps.6, input)
                    && fails_on_clone(ps.7, input)
                    && yields_on_clone(ps.8, input, Ok(x))
                ||| fails_on_clone(ps.0, input)
                    && fails_on_clone(ps.1, input)
                    && fails_on_clone(ps.2, input)
                    && fails_on_clone(ps.3, input)
                    && fails_on_clone(ps.4, input)
                    && fails_on_clone(ps.5, input)
                    && fails_on_clone(ps.6, input)
                    && fails_on_clone(ps.7, input)
                    && fails_on_clone(ps.8, input)
                    && yields_on_clone(ps.9, input, Ok(x))
                ||| fails_on_clone(ps.0, input)
                    && fails_on_clone(ps.1, input)
                    && fails_on_clone(ps.2, input)
                    && fails_on_clone(ps.3, input)
                    && fails_on_clone(ps.4, input)
                    && fails_on_clone(ps.5, input)
                    && fails_on_clone(ps.6, input)
                    && fails_on_clone(ps.7, input)
                    && fails_on_clone(ps.8, input)
                    && fails_on_clone(ps.9, input)
                    && yields_on_clone(ps.10, input, Ok(x))
                ||| fails_on_clone(ps.0, input)
                    && fails_on_clone(ps.1, input)
                    && fails_on_clone(ps.2, input)
                    && fails_on_clone(ps.3, input)
                    && fails_on_clone(ps.4, input)
                    && fails_on_clone(ps.5, input)
                    && fails_on_clone(ps.6, input)
                    && fails_on_clone(ps.7, input)
                    && fails_on_clone(ps.8, input)
                    && fails_on_clone(ps.9, input)
                    && fails_on_clone(ps.10, input)
                    && yields_on_clone(ps.11, input, Ok(x))
                ||| fails_on_clone(ps.0, input)
                    && fails_on_clone(ps.1, input)
                    && fails_on_clone(ps.2, input)
                    && fails_on_clone(ps.3, input)
                    && fails_on_clone(ps.4, input)
                    && fails_on_clone(ps.5, input)
                    && fails_on_clone(ps.6, input)
                    && fails_on_clone(ps.7, input)
                    && fails_on_clone(ps.8, input)
                    && fails_on_clone(ps.9, input)
                    && fails_on_clone(ps.10, input)
                    && fails_on_clone(ps.11, input)
                    && yields_on_clone(ps.12, input, Ok(x))
                ||| fails_on_clone(ps.0, input)
                    && fails_on_clone(ps.1, input)
                    && fails_on_clone(ps.2, input)
                    && fails_on_clone(ps.3, input)
                    && fails_on_clone(ps.4, input)
                    && fails_on_clone(ps.5, input)
                    && fails_on_clone(ps.6, input)
                    && fails_on_clone(ps.7, input)
                    && fails_on_clone(ps.8, input)
                    && fails_on_clone(ps.9, input)
                    && fails_on_clone(ps.10, input)
                    && fails_on_clone(ps.11, input)
                    && fails_on_clone(ps.12, input)
                    && yields_on_clone(ps.13, input, Ok(x))
                ||| fails_on_clone(ps.0, input)
                    && fails_on_clone(ps.1, input)
                    && fails_on_clone(ps.2, input)
                    && fails_on_clone(ps.3, input)
                    && fails_on_clone(ps.4, input)
                    && fails_on_clone(ps.5, input)
                    && fails_on_clone(ps.6, input)
                    && fails_on_clone(ps.7, input)
                    && fails_on_clone(ps.8, input)
                    && fails_on_clone(ps.9, input)
                    && fails_on_clone(ps.10, input)
                    && fails_on_clone(ps.11, input)
                    && fails_on_clone(ps.12, input)
                    && fails_on_clone(ps.13, input)
                    && yields_on_clone(ps.14, input, Ok(x))
                ||| fails_on_clone(ps.0, input)
                    && fails_on_clone(ps.1, input)
                    && fails_on_clone(ps.2, input)
                    && fails_on_clone(ps.3, input)
                    && fails_on_clone(ps.4, input)
                    && fails_on_clone(ps.5, input)
                    && fails_on_clone(ps.6, input)
                    && fails_on_clone(ps.7, input)
                    && fails_on_clone(ps.8, input)
                    && fails_on_clone(ps.9, input)
                    && fails_on_clone(ps.10, input)
                    && fails_on_clone(ps.11, input)
                    && fails_on_clone(ps.12, input)
                    && fails_on_clone(ps.13, input)
                    && fails_on_clone(ps.14, input)
                    && yields_on_clone(ps.15, input, Ok(x))
                ||| fails_on_clone(ps.0, input)
                    && fails_on_clone(ps.1, input)
                    && fails_on_clone(ps.2, input)
                    && fails_on_clone(ps.3, input)
                    && fails_on_clone(ps.4, input)
                    && fails_on_clone(ps.5, input)
                    && fails_on_clone(ps.6, input)
                    && fails_on_clone(ps.7, input)
                    && fails_on_clone(ps.8, input)
                    && fails_on_clone(ps.9, input)
                    && fails_on_clone(ps.10, input)
                    && fails_on_clone(ps.11, input)
                    && fails_on_clone(ps.12, input)
                    && fails_on_clone(ps.13, input)
                    && fails_on_clone(ps.14, input)
                    && fails_on_clone(ps.15, input)
                    && yields_on_clone(ps.16, input, Ok(x))
                ||| fails_on_clone(ps.0, input)
                    && fails_on_clone(ps.1, input)
                    && fails_on_clone(ps.2, input)
                    && fails_on_clone(ps.3, input)
                    && fails_on_clone(ps.4, input)
                    && fails_on_clone(ps.5, input)
                    && fails_on_clone(ps.6, input)
                    && fails_on_clone(ps.7, input)
                    && fails_on_clone(ps.8, input)
                    && fails_on_clone(ps.9, input)
                    && fails_on_clone(ps.10, input)
                    && fails_on_clone(ps.11, input)
                    && fails_on_clone(ps.12, input)
                    && fails_on_clone(ps.13, input)
                    && fails_on_clone(ps.14, input)
                    && fails_on_clone(ps.15, input)
                    && fails_on_clone(ps.16, input)
                    && yields_on_clone(ps.17, input, Ok(x))
                ||| fails_on_clone(ps.0, input)
                    && fails_on_clone(ps.1, input)
                    && fails_on_clone(ps.2, input)
                    && fails_on_clone(ps.3, input)
                    && fails_on_clone(ps.4, input)
                    && fails_on_clone(ps.5, input)
                    && fails_on_clone(ps.6, input)
                    && fails_on_clone(ps.7, input)
                    && fails_on_clone(ps.8, input)
                    && fails_on_clone(ps.9, input)
                    && fails_on_clone(ps.10, input)
                    && fails_on_clone(ps.11, input)
                    && fails_on_clone(ps.12, input)
                    && fails_on_clone(ps.13, input)
                    && fails_on_clone(ps.14, input)
                    && fails_on_clone(ps.15, input)
                    && fails_on_clone(ps.16, input)
                    && fails_on_clone(ps.17, input)
                    && yields_on_clone(ps.18, input, Ok(x))
                ||| fails_on_clone(ps.0, input)
                    && fails_on_clone(ps.1, input)
                    && fails_on_clone(ps.2, input)
                    && fails_on_clone(ps.3, input)
                    && fails_on_clone(ps.4, input)
                    && fails_on_clone(ps.5, input)
                    && fails_on_clone(ps.6, input)
                    && fails_on_clone(ps.7, input)
                    && fails_on_clone(ps.8, input)
                    && fails_on_clone(ps.9, input)
                    && fails_on_clone(ps.10, input)
                    && fails_on_clone(ps.11, input)
                    && fails_on_clone(ps.12, input)
                    && fails_on_clone(ps.13, input)
                    && fails_on_clone(ps.14, input)
                    && fails_on_clone(ps.15, input)
                    && fails_on_clone(ps.16, input)
                    && fails_on_clone(ps.17, input)
                    && fails_on_clone(ps.18, input)
                    && yields_on_clone(ps.19, input, Ok(x))
                ||| fails_on_clone(ps.0, input)
                    && fails_on_clone(ps.1, input)
                    && fails_on_clone(ps.2, input)
                    && fails_on_clone(ps.3, input)
                    && fails_on_clone(ps.4, input)
                    && fails_on_clone(ps.5, input)
                    && fails_on_clone(ps.6, input)
                    && fails_on_clone(ps.7, input)
                    && fails_on_clone(ps.8, input)
                    && fails_on_clone(ps.9, input)
                    && fails_on_clone(ps.10, input)
                    && fails_on_clone(ps.11, input)
                    && fails_on_clone(ps.12, input)
                    && fails_on_clone(ps.13, input)
                    && fails_on_clone(ps.14, input)
                    && fails_on_clone(ps.15, input)
                    && fails_on_clone(ps.16, input)
                    && fails_on_clone(ps.17, input)
                    && fails_on_clone(ps.18, input)
                    && fails_on_clone(ps.19, input)
                    && yields_on_clone(ps.20, input, Ok(x))
                ||| fails_on_clone(ps.0, input)
                    && fails_on_clone(ps.1, input)
                    && fails_on_clone(ps.2, input)
                    && fails_on_clone(ps.3, input)
                    && fails_on_clone(ps.4, input)
                    && fails_on_clone(ps.5, input)
                    && fails_on_clone(ps.6, input)
                    && fails_on_clone(ps.7, input)
                    && fails_on_clone(ps.8, input)
                    && fails_on_clone(ps.9, input)
                    && fails_on_clone(ps.10, input)
                    && fails_on_clone(ps.11, input)
                    && fails_on_clone(ps.12, input)
                    && fails_on_clone(ps.13, input)
                    && fails_on_clone(ps.14, input)
                    && fails_on_clone(ps.15, input)
                    && fails_on_clone(ps.16, input)
                    && fails_on_clone(ps.17, input)
                    && fails_on_clone(ps.18, input)
                    && fails_on_clone(ps.19, input)
                    && fails_on_clone(ps.20, input)
                    && yields_on_clone(ps.21, input, Ok(x))
                ||| fails_on_clone(ps.0, input)
                    && fails_on_clone(ps.1, input)
                    && fails_on_clone(ps.2, input)
                    && fails_on_clone(ps.3, input)
                    && fails_on_clone(ps.4, input)
                    && fails_on_clone(ps.5, input)
                    && fails_on_clone(ps.6, input)
                    && fails_on_clone(ps.7, input)
                    && fails_on_clone(ps.8, input)
                    && fails_on_clone(ps.9, input)
                    && fails_on_clone(ps.10, input)
                    && fails_on_clone(ps.11, input)
                    && fails_on_clone(ps.12, input)
                    && fails_on_clone(ps.13, input)
                    && fails_on_clone(ps.14, input)
                    && fails_on_clone(ps.15, input)
                    && fails_on_clone(ps.16, input)
                    && fails_on_clone(ps.17, input)
                    && fails_on_clone(ps.18, input)
                    && fails_on_clone(ps.19, input)
                    && fails_on_clone(ps.20, input)
                    && fails_on_clone(ps.21, input)
                    && yields_on_clone(ps.22, input, Ok(x))
                ||| fails_on_clone(ps.0, input)
                    && fails_on_clone(ps.1, input)
                    && fails_on_clone(ps.2, input)
                    && fails_on_clone(ps.3, input)
                    && fails_on_clone(ps.4, input)
                    && fails_on_clone(ps.5, input)
                    && fails_on_clone(ps.6, input)
                    && fails_on_clone(ps.7, input)
                    && fails_on_clone(ps.8, input)
                    && fails_on_clone(ps.9, input)
                    && fails_on_clone(ps.10, input)
                    && fails_on_clone(ps.11, input)
                    && fails_on_clone(ps.12, input)
                    && fails_on_clone(ps.13, input)
                    && fails_on_clone(ps.14, input)
                    && fails_on_clone(ps.15, input)
                    && fails_on_clone(ps.16, input)
                    && fails_on_clone(ps.17, input)
                    && fails_on_clone(ps.18, input)
                    && fails_on_clone(ps.19, input)
                    && fails_on_clone(ps.20, input)
                    && fails_on_clone(ps.21, input)
                    && fails_on_clone(ps.22, input)
                    && yields_on_clone(ps.23, input, Ok(x))
            },
            Err((a, b, c, d, e, f, g, h, i, j, k, l, m, n, o, p, q, r, s, t, u, v, w, x)) => {
                &&& yields_on_clone(ps.0, input, Err(a))
                &&& yields_on_clone(ps.1, input, Err(b))
                &&& yields_on_clone(ps.2, input, Err(c))
                &&& yields_on_clone(ps.3, input, Err(d))
                &&& yields_on_clone(ps.4, input, Err(e))
                &&& yields_on_clone(ps.5, input, Err(f))
                &&& yields_on_clone(ps.6, input, Err(g))
                &&& yields_on_clone(ps.7, input, Err(h))
                &&& yields_on_clone(ps.8, input, Err(i))
                &&& yields_on_clone(ps.9, input, Err(j))
                &&& yields_on_clone(ps.10, input, Err(k))
                &&& yields_on_clone(ps.11, input, Err(l))
                &&& yields_on_clone(ps.12, input, Err(m))
                &&& yields_on_clone(ps.13, input, Err(n))
                &&& yields_on_clone(ps.14, input, Err(o))
                &&& yields_on_clone(ps.15, input, Err(p))
                &&& yields_on_clone(ps.16, input, Err(q))
                &&& yields_on_clone(ps.17, input, Err(r))
                &&& yields_on_clone(ps.18, input, Err(s))
                &&& yields_on_clone(ps.19, input, Err(t))
                &&& yields_on_clone(ps.20, input, Err(u))
                &&& yields_on_clone(ps.21, input, Err(v))
                &&& yields_on_clone(ps.22, input, Err(w))
                &&& yields_on_clone(ps.23, input, Err(x))
            },
        }
    }

    fn parse(&self, txt: IN) -> (res: Result<(OUT, IN), (A::Error, B::Error, C::Error, D::Error, E::Error, F::Error, G::Error, H::Error, I::Error, J::Error, K::Error, L::Error, M::Error, N::Error, O::Error, P::Error, Q::Error, R::Error, S::Error, T::Error, U::Error, V::Error, W::Error, X::Error)>) {
        let c0 = txt.clone();
        let a = match self.ps.0.parse(c0) {
            Ok(r) => {
                assert(yields_on_clone(self.ps.0, txt, Ok(r)));
                return Ok(r);
            },
            Err(e) => e,
        };
        assert(yields_on_clone(self.ps.0, txt, Err(a)));
        let c1 = txt.clone();
        let b = match self.ps.1.parse(c1) {
            Ok(r) => {
                assert(yields_on_clone(self.ps.1, txt, Ok(r)));
                return Ok(r);
            },
            Err(e) => e,
        };
        assert(yields_on_clone(self.ps.1, txt, Err(b)));
        let c2 = txt.clone();
        let c = match self.ps.2.parse(c2) {
            Ok(r) => {
                assert(yields_on_clone(self.ps.2, txt, Ok(r)));
                return Ok(r);
            },
            Err(e) => e,
        };
        assert(yields_on_clone(self.ps.2, txt, Err(c)));
        let c3 = txt.clone();
        let d = match self.ps.3.parse(c3) {
            Ok(r) => {
                assert(yields_on_clone(self.ps.3, txt, Ok(r)));
                return Ok(r);
            },
            Err(e) => e,
        };
        assert(yields_on_clone(self.ps.3, txt, Err(d)));
        let c4 = txt.clone();
        let e = match self.ps.4.parse(c4) {
            Ok(r) => {
                assert(yields_on_clone(self.ps.4, txt, Ok(r)));
                return Ok(r);
            },
            Err(e) => e,
        };
        assert(yields_on_clone(self.ps.4, txt, Err(e)));
        let c5 = txt.clone();
        let f = match self.ps.5.parse(c5) {
            Ok(r) => {
                assert(yields_on_clone(self.ps.5, txt, Ok(r)));
                return Ok(r);
            },
            Err(e) => e,
        };
        assert(yields_on_clone(self.ps.5, txt, Err(f)));
        let c6 = txt.clone();
        let g = match self.ps.6.parse(c6) {
            Ok(r) => {
                assert(yields_on_clone(self.ps.6, txt, Ok(r)));
                return Ok(r);
            },
            Err(e) => e,
        };
        assert(yields_on_clone(self.ps.6, txt, Err(g)));
        let c7 = txt.clone();
        let h = match self.ps.7.parse(c7) {
            Ok(r) => {
                assert(yields_on_clone(self.ps.7, txt, Ok(r)));
                return Ok(r);
            },
            Err(e) => e,
        };
        assert(yields_on_clone(self.ps.7, txt, Err(h)));
        let c8 = txt.clone();
        let i = match self.ps.8.parse(c8) {
            Ok(r) => {
                assert(yields_on_clone(self.ps.8, txt, Ok(r)));
                return Ok(r);
            },
            Err(e) => e,
        };
        assert(yields_on_clone(self.ps.8, txt, Err(i)));
        let c9 = txt.clone();
        let j = match self.ps.9.parse(c9) {
            Ok(r) => {
                assert(yields_on_clone(self.ps.9, txt, Ok(r)));
                return Ok(r);
            },
            Err(e) => e,
        };
        assert(yields_on_clone(self.ps.9, txt, Err(j)));
        let c10 = txt.clone();
        let k = match self.ps.10.parse(c10) {
            Ok(r) => {
                assert(yields_on_clone(self.ps.10, txt, Ok(r)));
                return Ok(r);
            },
            Err(e) => e,
        };
        assert(yields_on_clone(self.ps.10, txt, Err(k)));
        let c11 = txt.clone();
        let l = match self.ps.11.parse(c11) {
            Ok(r) => {
                assert(yields_on_clone(self.ps.11, txt, Ok(r)));
                return Ok(r);
            },
            Err(e) => e,
        };
        assert(yields_on_clone(self.ps.11, txt, Err(l)));
        let c12 = txt.clone();
        let m = match self.ps.12.parse(c12) {
            Ok(r) => {
                assert(yields_on_clone(self.ps.12, txt, Ok(r)));
                return Ok(r);
            },
            Err(e) => e,
        };
        assert(yields_on_clone(self.ps.12, txt, Err(m)));
        let c13 = txt.clone();
        let n = match self.ps.13.parse(c13) {
            Ok(r) => {
                assert(yields_on_clone(self.ps.13, txt, Ok(r)));
                return Ok(r);
            },
            Err(e) => e,
        };
        assert(yields_on_clone(self.ps.13, txt, Err(n)));
        let c14 = txt.clone();
        let o = match self.ps.14.parse(c14) {
            Ok(r) => {
                assert(yields_on_clone(self.ps.14, txt, Ok(r)));
                return Ok(r);
            },
            Err(e) => e,
        };
        assert(yields_on_clone(self.ps.14, txt, Err(o)));
        let c15 = txt.clone();
        let p = match self.ps.15.parse(c15) {
            Ok(r) => {
                assert(yields_on_clone(self.ps.15, txt, Ok(r)));
                return Ok(r);
            },
            Err(e) => e,
        };
        assert(yields_on_clone(self.ps.15, txt, Err(p)));
        let c16 = txt.clone();
        let q = match self.ps.16.parse(c16) {
            Ok(r) => {
                assert(yields_on_clone(self.ps.16, txt, Ok(r)));
                return Ok(r);
            },
            Err(e) => e,
        };
        assert(yields_on_clone(self.ps.16, txt, Err(q)));
        let c17 = txt.clone();
        let r = match self.ps.17.parse(c17) {
            Ok(r) => {
                assert(yields_on_clone(self.ps.17, txt, Ok(r)));
                return Ok(r);
            },
            Err(e) => e,
        };
        assert(yields_on_clone(self.ps.17, txt, Err(r)));
        let c18 = txt.clone();
        let s = match self.ps.18.parse(c18) {
            Ok(r) => {
                assert(yields_on_clone(self.ps.18, txt, Ok(r)));
                return Ok(r);
            },
            Err(e) => e,
        };
        assert(yields_on_clone(self.ps.18, txt, Err(s)));
        let c19 = txt.clone();
        let t = match self.ps.19.parse(c19) {
            Ok(r) => {
                assert(yields_on_clone(self.ps.19, txt, Ok(r)));
                return Ok(r);
            },
            Err(e) => e,
        };
        assert(yields_on_clone(self.ps.19, txt, Err(t)));
        let c20 = txt.clone();
        let u = match self.ps.20.parse(c20) {
            Ok(r) => {
                assert(yields_on_clone(self.ps.20, txt, Ok(r)));
                return Ok(r);
            },
            Err(e) => e,
        };
        assert(yields_on_clone(self.ps.20, txt, Err(u)));
        let c21 = txt.clone();
        let v = match self.ps.21.parse(c21) {
            Ok(r) => {
                assert(yields_on_clone(self.ps.21, txt, Ok(r)));
                return Ok(r);
            },
            Err(e) => e,
        };
        assert(yields_on_clone(self.ps.21, txt, Err(v)));
        let c22 = txt.clone();
        let w = match self.ps.22.parse(c22) {
            Ok(r) => {
                assert(yields_on_clone(self.ps.22, txt, Ok(r)));
                return Ok(r);
            },
            Err(e) => e,
        };
        assert(yields_on_clone(self.ps.22, txt, Err(w)));
        let c23 = txt.clone();
        let x = match self.ps.23.parse(c23) {
            Ok(r) => {
                assert(yields_on_clone(self.ps.23, txt, Ok(r)));
                return Ok(r);
            },
            Err(e) => e,
        };
        assert(yields_on_clone(self.ps.23, txt, Err(x)));
        Err((a, b, c, d, e, f, g, h, i, j, k, l, m, n, o, p, q, r, s, t, u, v, w, x))
    }
}

/// Over inputs whose clones are equal, an alternative of 24 deterministic
/// parsers is deterministic.
pub proof fn lemma_alt24_deterministic<IN: Clone, OUT, A, B, C, D, E, F, G, H, I, J, K, L, M, N, O, P, Q, R, S, T, U, V, W, X>(a: Alt<IN, (A, B, C, D, E, F, G, H, I, J, K, L, M, N, O, P, Q, R, S, T, U, V, W, X)>)
    where
        A: Parser<IN, Out = OUT>,
        B: Parser<IN, Out = OUT>,
        C: Parser<IN, Out = OUT>,
        D: Parser<IN, Out = OUT>,
        E: Parser<IN, Out = OUT>,
        F: Parser<IN, Out = OUT>,
        G: Parser<IN, Out = OUT>,
        H: Parser<IN, Out = OUT>,
        I: Parser<IN, Out = OUT>,
        J: Parser<IN, Out = OUT>,
        K: Parser<IN, Out = OUT>,
        L: Parser<IN, Out = OUT>,
        M: Parser<IN, Out = OUT>,
        N: Parser<IN, Out = OUT>,
        O: Parser<IN, Out = OUT>,
        P: Parser<IN, Out = OUT>,
        Q: Parser<IN, Out = OUT>,
        R: Parser<IN, Out = OUT>,
        S: Parser<IN, Out = OUT>,
        T: Parser<IN, Out = OUT>,
        U: Parser<IN, Out = OUT>,
        V: Parser<IN, Out = OUT>,
        W: Parser<IN, Out = OUT>,
        X: Parser<IN, Out = OUT>,
    requires
        clones_are_equal::<IN>(),
        deterministic::<IN, A>(a.parsers().0),
        deterministic::<IN, B>(a.parsers().1),
        deterministic::<IN, C>(a.parsers().2),
        deterministic::<IN, D>(a.parsers().3),
        deterministic::<IN, E>(a.parsers().4),
        deterministic::<IN, F>(a.parsers().5),
        deterministic::<IN, G>(a.parsers().6),
        deterministic::<IN, H>(a.parsers().7),
        deterministic::<IN, I>(a.parsers().8),
        deterministic::<IN, J>(a.parsers().9),
        deterministic::<IN, K>(a.parsers().10),
        deterministic::<IN, L>(a.parsers().11),
        deterministic::<IN, M>(a.parsers().12),
        deterministic::<IN, N>(a.parsers().13),
        deterministic::<IN, O>(a.parsers().14),
        deterministic::<IN, P>(a.parsers().15),
        deterministic::<IN, Q>(a.parsers().16),
        deterministic::<IN, R>(a.parsers().17),
        deterministic::<IN, S>(a.parsers().18),
        deterministic::<IN, T>(a.parsers().19),
        deterministic::<IN, U>(a.parsers().20),
        deterministic::<IN, V>(a.parsers().21),
        deterministic::<IN, W>(a.parsers().22),
        deterministic::<IN, X>(a.parsers().23),
    ensures
        deterministic::<IN, Alt<IN, (A, B, C, D, E, F, G, H, I, J, K, L, M, N, O, P, Q, R, S, T, U, V, W, X)>>(a),
{
    lemma_clones_are_transparent::<IN, A>(a.parsers().0);
    lemma_clones_are_transparent::<IN, B>(a.parsers().1);
    lemma_clones_are_transparent::<IN, C>(a.parsers().2);
    lemma_clones_are_transparent::<IN, D>(a.parsers().3);
    lemma_clones_are_transparent::<IN, E>(a.parsers().4);
    lemma_clones_are_transparent::<IN, F>(a.parsers().5);
    lemma_clones_are_transparent::<IN, G>(a.parsers().6);
    lemma_clones_are_transparent::<IN, H>(a.parsers().7);
    lemma_clones_are_transparent::<IN, I>(a.parsers().8);
    lemma_clones_are_transparent::<IN, J>(a.parsers().9);
    lemma_clones_are_transparent::<IN, K>(a.parsers().10);
    lemma_clones_are_transparent::<IN, L>(a.parsers().11);
    lemma_clones_are_transparent::<IN, M>(a.parsers().12);
    lemma_clones_are_transparent::<IN, N>(a.parsers().13);
    lemma_clones_are_transparent::<IN, O>(a.parsers().14);
    lemma_clones_are_transparent::<IN, P>(a.parsers().15);
    lemma_clones_are_transparent::<IN, Q>(a.parsers().16);
    lemma_clones_are_transparent::<IN, R>(a.parsers().17);
    lemma_clones_are_transparent::<IN, S>(a.parsers().18);
    lemma_clones_are_transparent::<IN, T>(a.parsers().19);
    lemma_clones_are_transparent::<IN, U>(a.parsers().20);
    lemma_clones_are_transparent::<IN, V>(a.parsers().21);
    lemma_clones_are_transparent::<IN, W>(a.parsers().22);
    lemma_clones_are_transparent::<IN, X>(a.parsers().23);
}

impl<IN: Clone, OUT, A, B, C, D, E, F, G, H, I, J, K, L, M, N, O, P, Q, R, S, T, U, V, W, X, Y> From<(A, B, C, D, E, F, G, H, I, J, K, L, M, N, O, P, Q, R, S, T, U, V, W, X, Y)> for Alt<IN, (A, B, C, D, E, F, G, H, I, J, K, L, M, N, O, P, Q, R, S, T, U, V, W, X, Y)> where
    A: Parser<IN, Out = OUT>,
    B: Parser<IN, Out = OUT>,
    C: Parser<IN, Out = OUT>,
    D: Parser<IN, Out = OUT>,
    E: Parser<IN, Out = OUT>,
    F: Parser<IN, Out = OUT>,
    G: Parser<IN, Out = OUT>,
    H: Parser<IN, Out = OUT>,
    I: Parser<IN, Out = OUT>,
    J: Parser<IN, Out = OUT>,
    K: Parser<IN, Out = OUT>,
    L: Parser<IN, Out = OUT>,
    M: Parser<IN, Out = OUT>,
    N: Parser<IN, Out = OUT>,
    O: Parser<IN, Out = OUT>,
    P: Parser<IN, Out = OUT>,
    Q: Parser<IN, Out = OUT>,
    R: Parser<IN, Out = OUT>,
    S: Parser<IN, Out = OUT>,
    T: Parser<IN, Out = OUT>,
    U: Parser<IN, Out = OUT>,
    V: Parser<IN, Out = OUT>,
    W: Parser<IN, Out = OUT>,
    X: Parser<IN, Out = OUT>,
    Y: Parser<IN, Out = OUT>,
 {
    fn from(ps: (A, B, C, D, E, F, G, H, I, J, K, L, M, N, O, P, Q, R, S, T, U, V, W, X, Y)) -> (r: Self) {
        let r = Self { ps, _ghost: PhantomData };
        proof {
            lemma_alt_determined_by_parsers(r, ps);
        }
        r
    }
}

impl<IN: Clone, OUT, A, B, C, D, E, F, G, H, I, J, K, L, M, N, O, P, Q, R, S, T, U, V, W, X, Y> FromSpecImpl<(A, B, C, D, E, F, G, H, I, J, K, L, M, N, O, P, Q, R, S, T, U, V, W, X, Y)> for Alt<IN, (A, B, C, D, E, F, G, H, I, J, K, L, M, N, O, P, Q, R, S, T, U, V, W, X, Y)> where
    A: Parser<IN, Out = OUT>,
    B: Parser<IN, Out = OUT>,
    C: Parser<IN, Out = OUT>,
    D: Parser<IN, Out = OUT>,
    E: Parser<IN, Out = OUT>,
    F: Parser<IN, Out = OUT>,
    G: Parser<IN, Out = OUT>,
    H: Parser<IN, Out = OUT>,
    I: Parser<IN, Out = OUT>,
    J: Parser<IN, Out = OUT>,
    K: Parser<IN, Out = OUT>,
    L: Parser<IN, Out = OUT>,
    M: Parser<IN, Out = OUT>,
    N: Parser<IN, Out = OUT>,
    O: Parser<IN, Out = OUT>,
    P: Parser<IN, Out = OUT>,
    Q: Parser<IN, Out = OUT>,
    R: Parser<IN, Out = OUT>,
    S: Parser<IN, Out = OUT>,
    T: Parser<IN, Out = OUT>,
    U: Parser<IN, Out = OUT>,
    V: Parser<IN, Out = OUT>,
    W: Parser<IN, Out = OUT>,
    X: Parser<IN, Out = OUT>,
    Y: Parser<IN, Out = OUT>,
 {
    open spec fn obeys_from_spec() -> bool {
        true
    }

    open spec fn from_spec(ps: (A, B, C, D, E, F, G, H, I, J, K, L, M, N, O, P, Q, R, S, T, U, V, W, X, Y)) -> Self {
        choose|a: Self| a.parsers() == ps
    }
}

/// An alternative of 25 parsers with one output type.
impl<IN: Clone, OUT, A, B, C, D, E, F, G, H, I, J, K, L, M, N, O, P, Q, R, S, T, U, V, W, X, Y> Parser<IN> for Alt<IN, (A, B, C, D, E, F, G, H, I, J, K, L, M, N, O, P, Q, R, S, T, U, V, W, X, Y)> where
    A: Parser<IN, Out = OUT>,
    B: Parser<IN, Out = OUT>,
    C: Parser<IN, Out = OUT>,
    D: Parser<IN, Out = OUT>,
    E: Parser<IN, Out = OUT>,
    F: Parser<IN, Out = OUT>,
    G: Parser<IN, Out = OUT>,
    H: Parser<IN, Out = OUT>,
    I: Parser<IN, Out = OUT>,
    J: Parser<IN, Out = OUT>,
    K: Parser<IN, Out = OUT>,
    L: Parser<IN, Out = OUT>,
    M: Parser<IN, Out = OUT>,
    N: Parser<IN, Out = OUT>,
    O: Parser<IN, Out = OUT>,
    P: Parser<IN, Out = OUT>,
    Q: Parser<IN, Out = OUT>,
    R: Parser<IN, Out = OUT>,
    S: Parser<IN, Out = OUT>,
    T: Parser<IN, Out = OUT>,
    U: Parser<IN, Out = OUT>,
    V: Parser<IN, Out = OUT>,
    W: Parser<IN, Out = OUT>,
    X: Parser<IN, Out = OUT>,
    Y: Parser<IN, Out = OUT>,
 {
    type Out = OUT;

    type Error = (A::Error, B::Error, C::Error, D::Error, E::Error, F::Error, G::Error, H::Error, I::Error, J::Error, K::Error, L::Error, M::Error, N::Error, O::Error, P::Error, Q::Error, R::Error, S::Error, T::Error, U::Error, V::Error, W::Error, X::Error, Y::Error);

    open spec fn parse_requires(&self, input: IN) -> bool {
        let ps = self.parsers();
        &&& accepts_clones(ps.0, input)
        &&& fails_on_clone(ps.0, input)
            ==> accepts_clones(ps.1, input)
        &&& fails_on_clone(ps.0, input)
            && fails_on_clone(ps.1, input)
            ==> accepts_clones(ps.2, input)
        &&& fails_on_clone(ps.0, input)
            && fails_on_clone(ps.1, input)
            && fails_on_clone(ps.2, input)
            ==> accepts_clones(ps.3, input)
        &&& fails_on_clone(ps.0, input)
            && fails_on_clone(ps.1, input)
            && fails_on_clone(ps.2, input)
            && fails_on_clone(ps.3, input)
            ==> accepts_clones(ps.4, input)
        &&& fails_on_clone(ps.0, input)
            && fails_on_clone(ps.1, input)
            && fails_on_clone(ps.2, input)
            && fails_on_clone(ps.3, input)
            && fails_on_clone(ps.4, input)
            ==> accepts_clones(ps.5, input)
        &&& fails_on_clone(ps.0, input)
            && fails_on_clone(ps.1, input)
            && fails_on_clone(ps.2, input)
            && fails_on_clone(ps.3, input)
            && fails_on_clone(ps.4, input)
            && fails_on_clone(ps.5, input)
            ==> accepts_clones(ps.6, input)
        &&& fails_on_clone(ps.0, input)
            && fails_on_clone(ps.1, input)
            && fails_on_clone(ps.2, input)
            && fails_on_clone(ps.3, input)
            && fails_on_clone(ps.4, input)
            && fails_on_clone(ps.5, input)
            && fails_on_clone(ps.6, input)
            ==> accepts_clones(ps.7, input)
        &&& fails_on_clone(ps.0, input)
            && fails_on_clone(ps.1, input)
            && fails_on_clone(ps.2, input)
            && fails_on_clone(ps.3, input)
            && fails_on_clone(ps.4, input)
            && fails_on_clone(ps.5, input)
            && fails_on_clone(ps.6, input)
            && fails_on_clone(ps.7, input)
            ==> accepts_clones(ps.8, input)
        &&& fails_on_clone(ps.0, input)
            && fails_on_clone(ps.1, input)
            && fails_on_clone(ps.2, input)
            && fails_on_clone(ps.3, input)
            && fails_on_clone(ps.4, input)
            && fails_on_clone(ps.5, input)
            && fails_on_clone(ps.6, input)
            && fails_on_clone(ps.7, input)
            && fails_on_clone(ps.8, input)
            ==> accepts_clones(ps.9, input)
        &&& fails_on_clone(ps.0, input)
            && fails_on_clone(ps.1, input)
            && fails_on_clone(ps.2, input)
            && fails_on_clone(ps.3, input)
            && fails_on_clone(ps.4, input)
            && fails_on_clone(ps.5, input)
            && fails_on_clone(ps.6, input)
            && fails_on_clone(ps.7, input)
            && fails_on_clone(ps.8, input)
            && fails_on_clone(ps.9, input)
            ==> accepts_clones(ps.10, input)
        &&& fails_on_clone(ps.0, input)
            && fails_on_clone(ps.1, input)
            && fails_on_clone(ps.2, input)
            && fails_on_clone(ps.3, input)
            && fails_on_clone(ps.4, input)
            && fails_on_clone(ps.5, input)
            && fails_on_clone(ps.6, input)
            && fails_on_clone(ps.7, input)
            && fails_on_clone(ps.8, input)
            && fails_on_clone(ps.9, input)
            && fails_on_clone(ps.10, input)
            ==> accepts_clones(ps.11, input)
        &&& fails_on_clone(ps.0, input)
            && fails_on_clone(ps.1, input)
            && fails_on_clone(ps.2, input)
            && fails_on_clone(ps.3, input)
            && fails_on_clone(ps.4, input)
            && fails_on_clone(ps.5, input)
            && fails_on_clone(ps.6, input)
            && fails_on_clone(ps.7, input)
            && fails_on_clone(ps.8, input)
            && fails_on_clone(ps.9, input)
            && fails_on_clone(ps.10, input)
            && fails_on_clone(ps.11, input)
            ==> accepts_clones(ps.12, input)
        &&& fails_on_clone(ps.0, input)
            && fails_on_clone(ps.1, input)
            && fails_on_clone(ps.2, input)
            && fails_on_clone(ps.3, input)
            && fails_on_clone(ps.4, input)
            && fails_on_clone(ps.5, input)
            && fails_on_clone(ps.6, input)
            && fails_on_clone(ps.7, input)
            && fails_on_clone(ps.8, input)
            && fails_on_clone(ps.9, input)
            && fails_on_clone(ps.10, input)
            && fails_on_clone(ps.11, input)
            && fails_on_clone(ps.12, input)
            ==> accepts_clones(ps.13, input)
        &&& fails_on_clone(ps.0, input)
            && fails_on_clone(ps.1, input)
            && fails_on_clone(ps.2, input)
            && fails_on_clone(ps.3, input)
            && fails_on_clone(ps.4, input)
            && fails_on_clone(ps.5, input)
            && fails_on_clone(ps.6, input)
            && fails_on_clone(ps.7, input)
            && fails_on_clone(ps.8, input)
            && fails_on_clone(ps.9, input)
            && fails_on_clone(ps.10, input)
            && fails_on_clone(ps.11, input)
            && fails_on_clone(ps.12, input)
            && fails_on_clone(ps.13, input)
            ==> accepts_clones(ps.14, input)
        &&& fails_on_clone(ps.0, input)
            && fails_on_clone(ps.1, input)
            && fails_on_clone(ps.2, input)
            && fails_on_clone(ps.3, input)
            && fails_on_clone(ps.4, input)
            && fails_on_clone(ps.5, input)
            && fails_on_clone(ps.6, input)
            && fails_on_clone(ps.7, input)
            && fails_on_clone(ps.8, input)
            && fails_on_clone(ps.9, input)
            && fails_on_clone(ps.10, input)
            && fails_on_clone(ps.11, input)
            && fails_on_clone(ps.12, input)
            && fails_on_clone(ps.13, input)
            && fails_on_clone(ps.14, input)
            ==> accepts_clones(ps.15, input)
        &&& fails_on_clone(ps.0, input)
            && fails_on_clone(ps.1, input)
            && fails_on_clone(ps.2, input)
            && fails_on_clone(ps.3, input)
            && fails_on_clone(ps.4, input)
            && fails_on_clone(ps.5, input)
            && fails_on_clone(ps.6, input)
            && fails_on_clone(ps.7, input)
            && fails_on_clone(ps.8, input)
            && fails_on_clone(ps.9, input)
            && fails_on_clone(ps.10, input)
            && fails_on_clone(ps.11, input)
            && fails_on_clone(ps.12, input)
            && fails_on_clone(ps.13, input)
            && fails_on_clone(ps.14, input)
            && fails_on_clone(ps.15, input)
            ==> accepts_clones(ps.16, input)
        &&& fails_on_clone(ps.0, input)
            && fails_on_clone(ps.1, input)
            && fails_on_clone(ps.2, input)
            && fails_on_clone(ps.3, input)
            && fails_on_clone(ps.4, input)
            && fails_on_clone(ps.5, input)
            && fails_on_clone(ps.6, input)
            && fails_on_clone(ps.7, input)
            && fails_on_clone(ps.8, input)
            && fails_on_clone(ps.9, input)
            && fails_on_clone(ps.10, input)
            && fails_on_clone(ps.11, input)
            && fails_on_clone(ps.12, input)
            && fails_on_clone(ps.13, input)
            && fails_on_clone(ps.14, input)
            && fails_on_clone(ps.15, input)
            && fails_on_clone(ps.16, input)
            ==> accepts_clones(ps.17, input)
        &&& fails_on_clone(ps.0, input)
            && fails_on_clone(ps.1, input)
            && fails_on_clone(ps.2, input)
            && fails_on_clone(ps.3, input)
            && fails_on_clone(ps.4, input)
            && fails_on_clone(ps.5, input)
            && fails_on_clone(ps.6, input)
            && fails_on_clone(ps.7, input)
            && fails_on_clone(ps.8, input)
            && fails_on_clone(ps.9, input)
            && fails_on_clone(ps.10, input)
            && fails_on_clone(ps.11, input)
            && fails_on_clone(ps.12, input)
            && fails_on_clone(ps.13, input)
            && fails_on_clone(ps.14, input)
            && fails_on_clone(ps.15, input)
            && fails_on_clone(ps.16, input)
            && fails_on_clone(ps.17, input)
            ==> accepts_clones(ps.18, input)
        &&& fails_on_clone(ps.0, input)
            && fails_on_clone(ps.1, input)
            && fails_on_clone(ps.2, input)
            && fails_on_clone(ps.3, input)
            && fails_on_clone(ps.4, input)
            && fails_on_clone(ps.5, input)
            && fails_on_clone(ps.6, input)
            && fails_on_clone(ps.7, input)
            && fails_on_clone(ps.8, input)
            && fails_on_clone(ps.9, input)
            && fails_on_clone(ps.10, input)
            && fails_on_clone(ps.11, input)
            && fails_on_clone(ps.12, input)
            && fails_on_clone(ps.13, input)
            && fails_on_clone(ps.14, input)
            && fails_on_clone(ps.15, input)
            && fails_on_clone(ps.16, input)
            && fails_on_clone(ps.17, input)
            && fails_on_clone(ps.18, input)
            ==> accepts_clones(ps.19, input)
        &&& fails_on_clone(ps.0, input)
            && fails_on_clone(ps.1, input)
            && fails_on_clone(ps.2, input)
            && fails_on_clone(ps.3, input)
            && fails_on_clone(ps.4, input)
            && fails_on_clone(ps.5, input)
            && fails_on_clone(ps.6, input)
            && fails_on_clone(ps.7, input)
            && fails_on_clone(ps.8, input)
            && fails_on_clone(ps.9, input)
            && fails_on_clone(ps.10, input)
            && fails_on_clone(ps.11, input)
            && fails_on_clone(ps.12, input)
            && fails_on_clone(ps.13, input)
            && fails_on_clone(ps.14, input)
            && fails_on_clone(ps.15, input)
            && fails_on_clone(ps.16, input)
            && fails_on_clone(ps.17, input)
            && fails_on_clone(ps.18, input)
            && fails_on_clone(ps.19, input)
            ==> accepts_clones(ps.20, input)
        &&& fails_on_clone(ps.0, input)
            && fails_on_clone(ps.1, input)
            && fails_on_clone(ps.2, input)
            && fails_on_clone(ps.3, input)
            && fails_on_clone(ps.4, input)
            && fails_on_clone(ps.5, input)
            && fails_on_clone(ps.6, input)
            && fails_on_clone(ps.7, input)
            && fails_on_clone(ps.8, input)
            && fails_on_clone(ps.9, input)
            && fails_on_clone(ps.10, input)
            && fails_on_clone(ps.11, input)
            && fails_on_clone(ps.12, input)
            && fails_on_clone(ps.13, input)
            && fails_on_clone(ps.14, input)
            && fails_on_clone(ps.15, input)
            && fails_on_clone(ps.16, input)
            && fails_on_clone(ps.17, input)
            && fails_on_clone(ps.18, input)
            && fails_on_clone(ps.19, input)
            && fails_on_clone(ps.20, input)
            ==> accepts_clones(ps.21, input)
        &&& fails_on_clone(ps.0, input)
            && fails_on_clone(ps.1, input)
            && fails_on_clone(ps.2, input)
            && fails_on_clone(ps.3, input)
            && fails_on_clone(ps.4, input)
            && fails_on_clone(ps.5, input)
            && fails_on_clone(ps.6, input)
            && fails_on_clone(ps.7, input)
            && fails_on_clone(ps.8, input)
            && fails_on_clone(ps.9, input)
            && fails_on_clone(ps.10, input)
            && fails_on_clone(ps.11, input)
            && fails_on_clone(ps.12, input)
            && fails_on_clone(ps.13, input)
            && fails_on_clone(ps.14, input)
            && fails_on_clone(ps.15, input)
            && fails_on_clone(ps.16, input)
            && fails_on_clone(ps.17, input)
            && fails_on_clone(ps.18, input)
            && fails_on_clone(ps.19, input)
            && fails_on_clone(ps.20, input)
            && fails_on_clone(ps.21, input)
            ==> accepts_clones(ps.22, input)
        &&& fails_on_clone(ps.0, input)
            && fails_on_clone(ps.1, input)
            && fails_on_clone(ps.2, input)
            && fails_on_clone(ps.3, input)
            && fails_on_clone(ps.4, input)
            && fails_on_clone(ps.5, input)
            && fails_on_clone(ps.6, input)
            && fails_on_clone(ps.7, input)
            && fails_on_clone(ps.8, input)
            && fails_on_clone(ps.9, input)
            && fails_on_clone(ps.10, input)
            && fails_on_clone(ps.11, input)
            && fails_on_clone(ps.12, input)
            && fails_on_clone(ps.13, input)
            && fails_on_clone(ps.14, input)
            && fails_on_clone(ps.15, input)
            && fails_on_clone(ps.16, input)
            && fails_on_clone(ps.17, input)
            && fails_on_clone(ps.18, input)
            && fails_on_clone(ps.19, input)
            && fails_on_clone(ps.20, input)
            && fails_on_clone(ps.21, input)
            && fails_on_clone(ps.22, input)
            ==> accepts_clones(ps.23, input)
        &&& fails_on_clone(ps.0, input)
            && fails_on_clone(ps.1, input)
            && fails_on_clone(ps.2, input)
            && fails_on_clone(ps.3, input)
            && fails_on_clone(ps.4, input)
            && fails_on_clone(ps.5, input)
            && fails_on_clone(ps.6, input)
            && fails_on_clone(ps.7, input)
            && fails_on_clone(ps.8, input)
            && fails_on_clone(ps.9, input)
            && fails_on_clone(ps.10, input)
            && fails_on_clone(ps.11, input)
            && fails_on_clone(ps.12, input)
            && fails_on_clone(ps.13, input)
            && fails_on_clone(ps.14, input)
            && fails_on_clone(ps.15, input)
            && fails_on_clone(ps.16, input)
            && fails_on_clone(ps.17, input)
            && fails_on_clone(ps.18, input)
            && fails_on_clone(ps.19, input)
            && fails_on_clone(ps.20, input)
            && fails_on_clone(ps.21, input)
            && fails_on_clone(ps.22, input)
            && fails_on_clone(ps.23, input)
            ==> accepts_clones(ps.24, input)
    }

    open spec fn parse_ensures(&self, input: IN, res: Result<(OUT, IN), (A::Error, B::Error, C::Error, D::Error, E::Error, F::Error, G::Error, H::Error, I::Error, J::Error, K::Error, L::Error, M::Error, N::Error, O::Error, P::Error, Q::Error, R::Error, S::Error, T::Error, U::Error, V::Error, W::Error, X::Error, Y::Error)>) -> bool {
        let ps = self.parsers();
        match res {
            Ok(x) => {
                ||| yields_on_clone(ps.0, input, Ok(x))
                ||| fails_on_clone(ps.0, input)
                    && yields_on_clone(ps.1, input, Ok(x))
                ||| fails_on_clone(ps.0, input)
                    && fails_on_clone(ps.1, input)
                    && yields_on_clone(ps.2, input, Ok(x))
                ||| fails_on_clone(ps.0, input)
                    && fails_on_clone(ps.1, input)
                    && fails_on_clone(ps.2, input)
                    && yields_on_clone(ps.3, input, Ok(x))
                ||| fails_on_clone(ps.0, input)
                    && fails_on_clone(ps.1, input)
                    && fails_on_clone(ps.2, input)
                    && fails_on_clone(ps.3, input)
                    && yields_on_clone(ps.4, input, Ok(x))
                ||| fails_on_clone(ps.0, input)
                    && fails_on_clone(ps.1, input)
                    && fails_on_clone(ps.2, input)
                    && fails_on_clone(ps.3, input)
                    && fails_on_clone(ps.4, input)
                    && yields_on_clone(ps.5, input, Ok(x))
                ||| fails_on_clone(ps.0, input)
                    && fails_on_clone(ps.1, input)
                    && fails_on_clone(ps.2, input)
                    && fails_on_clone(ps.3, input)
                    && fails_on_clone(ps.4, input)
                    && fails_on_clone(ps.5, input)
                    && yields_on_clone(ps.6, input, Ok(x))
                ||| fails_on_clone(ps.0, input)
                    && fails_on_clone(ps.1, input)
                    && fails_on_clone(ps.2, input)
                    && fails_on_clone(ps.3, input)
                    && fails_on_clone(ps.4, input)
                    && fails_on_clone(ps.5, input)
                    && fails_on_clone(ps.6, input)
                    && yields_on_clone(ps.7, input, Ok(x))
                ||| fails_on_clone(ps.0, input)
                    && fails_on_clone(ps.1, input)
                    && fails_on_clone(ps.2, input)
                    && fails_on_clone(ps.3, input)
                    && fails_on_clone(ps.4, input)
                    && fails_on_clone(ps.5, input)
                    && fails_on_clone(ps.6, input)
                    && fails_on_clone(ps.7, input)
                    && yields_on_clone(ps.8, input, Ok(x))
                ||| fails_on_clone(ps.0, input)
                    && fails_on_clone(ps.1, input)
                    && fails_on_clone(ps.2, input)
                    && fails_on_clone(ps.3, input)
                    && fails_on_clone(ps.4, input)
                    && fails_on_clone(ps.5, input)
                    && fails_on_clone(ps.6, input)
                    && fails_on_clone(ps.7, input)
                    && fails_on_clone(ps.8, input)
                    && yields_on_clone(ps.9, input, Ok(x))
                ||| fails_on_clone(ps.0, input)
                    && fails_on_clone(ps.1, input)
                    && fails_on_clone(ps.2, input)
                    && fails_on_clone(ps.3, input)
                    && fails_on_clone(ps.4, input)
                    && fails_on_clone(ps.5, input)
                    && fails_on_clone(ps.6, input)
                    && fails_on_clone(ps.7, input)
                    && fails_on_clone(ps.8, input)
                    && fails_on_clone(ps.9, input)
                    && yields_on_clone(ps.10, input, Ok(x))
                ||| fails_on_clone(ps.0, input)
                    && fails_on_clone(ps.1, input)
                    && fails_on_clone(ps.2, input)
                    && fails_on_clone(ps.3, input)
                    && fails_on_clone(ps.4, input)
                    && fails_on_clone(ps.5, input)
                    && fails_on_clone(ps.6, input)
                    && fails_on_clone(ps.7, input)
                    && fails_on_clone(ps.8, input)
                    && fails_on_clone(ps.9, input)
                    && fails_on_clone(ps.10, input)
                    && yields_on_clone(ps.11, input, Ok(x))
                ||| fails_on_clone(ps.0, input)
                    && fails_on_clone(ps.1, input)
                    && fails_on_clone(ps.2, input)
                    && fails_on_clone(ps.3, input)
                    && fails_on_clone(ps.4, input)
                    && fails_on_clone(ps.5, input)
                    && fails_on_clone(ps.6, input)
                    && fails_on_clone(ps.7, input)
                    && fails_on_clone(ps.8, input)
                    && fails_on_clone(ps.9, input)
                    && fails_on_clone(ps.10, input)
                    && fails_on_clone(ps.11, input)
                    && yields_on_clone(ps.12, input, Ok(x))
                ||| fails_on_clone(ps.0, input)
                    && fails_on_clone(ps.1, input)
                    && fails_on_clone(ps.2, input)
                    && fails_on_clone(ps.3, input)
                    && fails_on_clone(ps.4, input)
                    && fails_on_clone(ps.5, input)
                    && fails_on_clone(ps.6, input)
                    && fails_on_clone(ps.7, input)
                    && fails_on_clone(ps.8, input)
                    && fails_on_clone(ps.9, input)
                    && fails_on_clone(ps.10, input)
                    && fails_on_clone(ps.11, input)
                    && fails_on_clone(ps.12, input)
                    && yields_on_clone(ps.13, input, Ok(x))
                ||| fails_on_clone(ps.0, input)
                    && fails_on_clone(ps.1, input)
                    && fails_on_clone(ps.2, input)
                    && fails_on_clone(ps.3, input)
                    && fails_on_clone(ps.4, input)
                    && fails_on_clone(ps.5, input)
                    && fails_on_clone(ps.6, input)
                    && fails_on_clone(ps.7, input)
                    && fails_on_clone(ps.8, input)
                    && fails_on_clone(ps.9, input)
                    && fails_on_clone(ps.10, input)
                    && fails_on_clone(ps.11, input)
                    && fails_on_clone(ps.12, input)
                    && fails_on_clone(ps.13, input)
                    && yields_on_clone(ps.14, input, Ok(x))
                ||| fails_on_clone(ps.0, input)
                    && fails_on_clone(ps.1, input)
                    && fails_on_clone(ps.2, input)
                    && fails_on_clone(ps.3, input)
                    && fails_on_clone(ps.4, input)
                    && fails_on_clone(ps.5, input)
                    && fails_on_clone(ps.6, input)
                    && fails_on_clone(ps.7, input)
                    && fails_on_clone(ps.8, input)
                    && fails_on_clone(ps.9, input)
                    && fails_on_clone(ps.10, input)
                    && fails_on_clone(ps.11, input)
                    && fails_on_clone(ps.12, input)
                    && fails_on_clone(ps.13, input)
                    && fails_on_clone(ps.14, input)
                    && yields_on_clone(ps.15, input, Ok(x))
                ||| fails_on_clone(ps.0, input)
                    && fails_on_clone(ps.1, input)
                    && fails_on_clone(ps.2, input)
                    && fails_on_clone(ps.3, input)
                    && fails_on_clone(ps.4, input)
                    && fails_on_clone(ps.5, input)
                    && fails_on_clone(ps.6, input)
                    && fails_on_clone(ps.7, input)
                    && fails_on_clone(ps.8, input)
                    && fails_on_clone(ps.9, input)
                    && fails_on_clone(ps.10, input)
                    && fails_on_clone(ps.11, input)
                    && fails_on_clone(ps.12, input)
                    && fails_on_clone(ps.13, input)
                    && fails_on_clone(ps.14, input)
                    && fails_on_clone(ps.15, input)
                    && yields_on_clone(ps.16, input, Ok(x))
                ||| fails_on_clone(ps.0, input)
                    && fails_on_clone(ps.1, input)
                    && fails_on_clone(ps.2, input)
                    && fails_on_clone(ps.3, input)
                    && fails_on_clone(ps.4, input)
                    && fails_on_clone(ps.5, input)
                    && fails_on_clone(ps.6, input)
                    && fails_on_clone(ps.7, input)
                    && fails_on_clone(ps.8, input)
                    && fails_on_clone(ps.9, input)
                    && fails_on_clone(ps.10, input)
                    && fails_on_clone(ps.11, input)
                    && fails_on_clone(ps.12, input)
                    && fails_on_clone(ps.13, input)
                    && fails_on_clone(ps.14, input)
                    && fails_on_clone(ps.15, input)
                    && fails_on_clone(ps.16, input)
                    && yields_on_clone(ps.17, input, Ok(x))
                ||| fails_on_clone(ps.0, input)
                    && fails_on_clone(ps.1, input)
                    && fails_on_clone(ps.2, input)
                    && fails_on_clone(ps.3, input)
                    && fails_on_clone(ps.4, input)
                    && fails_on_clone(ps.5, input)
                    && fails_on_clone(ps.6, input)
                    && fails_on_clone(ps.7, input)
                    && fails_on_clone(ps.8, input)
                    && fails_on_clone(ps.9, input)
                    && fails_on_clone(ps.10, input)
                    && fails_on_clone(ps.11, input)
                    && fails_on_clone(ps.12, input)
                    && fails_on_clone(ps.13, input)
                    && fails_on_clone(ps.14, input)
                    && fails_on_clone(ps.15, input)
                    && fails_on_clone(ps.16, input)
                    && fails_on_clone(ps.17, input)
                    && yields_on_clone(ps.18, input, Ok(x))
                ||| fails_on_clone(ps.0, input)
                    && fails_on_clone(ps.1, input)
                    && fails_on_clone(ps.2, input)
                    && fails_on_clone(ps.3, input)
                    && fails_on_clone(ps.4, input)
                    && fails_on_clone(ps.5, input)
                    && fails_on_clone(ps.6, input)
                    && fails_on_clone(ps.7, input)
                    && fails_on_clone(ps.8, input)
                    && fails_on_clone(ps.9, input)
                    && fails_on_clone(ps.10, input)
                    && fails_on_clone(ps.11, input)
                    && fails_on_clone(ps.12, input)
                    && fails_on_clone(ps.13, input)
                    && fails_on_clone(ps.14, input)
                    && fails_on_clone(ps.15, input)
                    && fails_on_clone(ps.16, input)
                    && fails_on_clone(ps.17, input)
                    && fails_on_clone(ps.18, input)
                    && yields_on_clone(ps.19, input, Ok(x))
                ||| fails_on_clone(ps.0, input)
                    && fails_on_clone(ps.1, input)
                    && fails_on_clone(ps.2, input)
                    && fails_on_clone(ps.3, input)
                    && fails_on_clone(ps.4, input)
                    && fails_on_clone(ps.5, input)
                    && fails_on_clone(ps.6, input)
                    && fails_on_clone(ps.7, input)
                    && fails_on_clone(ps.8, input)
                    && fails_on_clone(ps.9, input)
                    && fails_on_clone(ps.10, input)
                    && fails_on_clone(ps.11, input)
                    && fails_on_clone(ps.12, input)
                    && fails_on_clone(ps.13, input)
                    && fails_on_clone(ps.14, input)
                    && fails_on_clone(ps.15, input)
                    && fails_on_clone(ps.16, input)
                    && fails_on_clone(ps.17, input)
                    && fails_on_clone(ps.18, input)
                    && fails_on_clone(ps.19, input)
                    && yields_on_clone(ps.20, input, Ok(x))
                ||| fails_on_clone(ps.0, input)
                    && fails_on_clone(ps.1, input)
                    && fails_on_clone(ps.2, input)
                    && fails_on_clone(ps.3, input)
                    && fails_on_clone(ps.4, input)
                    && fails_on_clone(ps.5, input)
                    && fails_on_clone(ps.6, input)
                    && fails_on_clone(ps.7, input)
                    && fails_on_clone(ps.8, input)
                    && fails_on_clone(ps.9, input)
                    && fails_on_clone(ps.10, input)
                    && fails_on_clone(ps.11, input)
                    && fails_on_clone(ps.12, input)
                    && fails_on_clone(ps.13, input)
                    && fails_on_clone(ps.14, input)
                    && fails_on_clone(ps.15, input)
                    && fails_on_clone(ps.16, input)
                    && fails_on_clone(ps.17, input)
                    && fails_on_clone(ps.18, input)
                    && fails_on_clone(ps.19, input)
                    && fails_on_clone(ps.20, input)
                    && yields_on_clone(ps.21, input, Ok(x))
                ||| fails_on_clone(ps.0, input)
                    && fails_on_clone(ps.1, input)
                    && fails_on_clone(ps.2, input)
                    && fails_on_clone(ps.3, input)
                    && fails_on_clone(ps.4, input)
                    && fails_on_clone(ps.5, input)
                    && fails_on_clone(ps.6, input)
                    && fails_on_clone(ps.7, input)
                    && fails_on_clone(ps.8, input)
                    && fails_on_clone(ps.9, input)
                    && fails_on_clone(ps.10, input)
                    && fails_on_clone(ps.11, input)
                    && fails_on_clone(ps.12, input)
                    && fails_on_clone(ps.13, input)
                    && fails_on_clone(ps.14, input)
                    && fails_on_clone(ps.15, input)
                    && fails_on_clone(ps.16, input)
                    && fails_on_clone(ps.17, input)
                    && fails_on_clone(ps.18, input)
                    && fails_on_clone(ps.19, input)
                    && fails_on_clone(ps.20, input)
                    && fails_on_clone(ps.21, input)
                    && yields_on_clone(ps.22, input, Ok(x))
                ||| fails_on_clone(ps.0, input)
                    && fails_on_clone(ps.1, input)
                    && fails_on_clone(ps.2, input)
                    && fails_on_clone(ps.3, input)
                    && fails_on_clone(ps.4, input)
                    && fails_on_clone(ps.5, input)
                    && fails_on_clone(ps.6, input)
                    && fails_on_clone(ps.7, input)
                    && fails_on_clone(ps.8, input)
                    && fails_on_clone(ps.9, input)
                    && fails_on_clone(ps.10, input)
                    && fails_on_clone(ps.11, input)
                    && fails_on_clone(ps.12, input)
                    && fails_on_clone(ps.13, input)
                    && fails_on_clone(ps.14, input)
                    && fails_on_clone(ps.15, input)
                    && fails_on_clone(ps.16, input)
                    && fails_on_clone(ps.17, input)
                    && fails_on_clone(ps.18, input)
                    && fails_on_clone(ps.19, input)
                    && fails_on_clone(ps.20, input)
                    && fails_on_clone(ps.21, input)
                    && fails_on_clone(ps.22, input)
                    && yields_on_clone(ps.23, input, Ok(x))
                ||| fails_on_clone(ps.0, input)
                    && fails_on_clone(ps.1, input)
                    && fails_on_clone(ps.2, input)
                    && fails_on_clone(ps.3, input)
                    && fails_on_clone(ps.4, input)
                    && fails_on_clone(ps.5, input)
                    && fails_on_clone(ps.6, input)
                    && fails_on_clone(ps.7, input)
                    && fails_on_clone(ps.8, input)
                    && fails_on_clone(ps.9, input)
                    && fails_on_clone(ps.10, input)
                    && fails_on_clone(ps.11, input)
                    && fails_on_clone(ps.12, input)
                    && fails_on_clone(ps.13, input)
                    && fails_on_clone(ps.14, input)
                    && fails_on_clone(ps.15, input)
                    && fails_on_clone(ps.16, input)
                    && fails_on_clone(ps.17, input)
                    && fails_on_clone(ps.18, input)
                    && fails_on_clone(ps.19, input)
                    && fails_on_clone(ps.20, input)
                    && fails_on_clone(ps.21, input)
                    && fails_on_clone(ps.22, input)
                    && fails_on_clone(ps.23, input)
                    && yields_on_clone(ps.24, input, Ok(x))
            },
            Err((a, b, c, d, e, f, g, h, i, j, k, l, m, n, o, p, q, r, s, t, u, v, w, x, y)) => {
                &&& yields_on_clone(ps.0, input, Err(a))
                &&& yields_on_clone(ps.1, input, Err(b))
                &&& yields_on_clone(ps.2, input, Err(c))
                &&& yields_on_clone(ps.3, input, Err(d))
                &&& yields_on_clone(ps.4, input, Err(e))
                &&& yields_on_clone(ps.5, input, Err(f))
                &&& yields_on_clone(ps.6, input, Err(g))
                &&& yields_on_clone(ps.7, input, Err(h))
                &&& yields_on_clone(ps.8, input, Err(i))
                &&& yields_on_clone(ps.9, input, Err(j))
                &&& yields_on_clone(ps.10, input, Err(k))
                &&& yields_on_clone(ps.11, input, Err(l))
                &&& yields_on_clone(ps.12, input, Err(m))
                &&& yields_on_clone(ps.13, input, Err(n))
                &&& yields_on_clone(ps.14, input, Err(o))
                &&& yields_on_clone(ps.15, input, Err(p))
                &&& yields_on_clone(ps.16, input, Err(q))
                &&& yields_on_clone(ps.17, input, Err(r))
                &&& yields_on_clone(ps.18, input, Err(s))
                &&& yields_on_clone(ps.19, input, Err(t))
                &&& yields_on_clone(ps.20, input, Err(u))
                &&& yields_on_clone(ps.21, input, Err(v))
                &&& yields_on_clone(ps.22, input, Err(w))
                &&& yields_on_clone(ps.23, input, Err(x))
                &&& yields_on_clone(ps.24, input, Err(y))
            },
        }
    }

    fn parse(&self, txt: IN) -> (res: Result<(OUT, IN), (A::Error, B::Error, C::Error, D::Error, E::Error, F::Error, G::Error, H::Error, I::Error, J::Error, K::Error, L::Error, M::Error, N::Error, O::Error, P::Error, Q::Error, R::Error, S::Error, T::Error, U::Error, V::Error, W::Error, X::Error, Y::Error)>) {
        let c0 = txt.clone();
        let a = match self.ps.0.parse(c0) {
            Ok(r) => {
                assert(yields_on_clone(self.ps.0, txt, Ok(r)));
                return Ok(r);
            },
            Err(e) => e,
        };
        assert(yields_on_clone(self.ps.0, txt, Err(a)));
        let c1 = txt.clone();
        let b = match self.ps.1.parse(c1) {
            Ok(r) => {
                assert(yields_on_clone(self.ps.1, txt, Ok(r)));
                return Ok(r);
            },
            Err(e) => e,
        };
        assert(yields_on_clone(self.ps.1, txt, Err(b)));
        let c2 = txt.clone();
        let c = match self.ps.2.parse(c2) {
            Ok(r) => {
                assert(yields_on_clone(self.ps.2, txt, Ok(r)));
                return Ok(r);
            },
            Err(e) => e,
        };
        assert(yields_on_clone(self.ps.2, txt, Err(c)));
        let c3 = txt.clone();
        let d = match self.ps.3.parse(c3) {
            Ok(r) => {
                assert(yields_on_clone(self.ps.3, txt, Ok(r)));
                return Ok(r);
            },
            Err(e) => e,
        };
        assert(yields_on_clone(self.ps.3, txt, Err(d)));
        let c4 = txt.clone();
        let e = match self.ps.4.parse(c4) {
            Ok(r) => {
                assert(yields_on_clone(self.ps.4, txt, Ok(r)));
                return Ok(r);
            },
            Err(e) => e,
        };
        assert(yields_on_clone(self.ps.4, txt, Err(e)));
        let c5 = txt.clone();
        let f = match self.ps.5.parse(c5) {
            Ok(r) => {
                assert(yields_on_clone(self.ps.5, txt, Ok(r)));
                return Ok(r);
            },
            Err(e) => e,
        };
        assert(yields_on_clone(self.ps.5, txt, Err(f)));
        let c6 = txt.clone();
        let g = match self.ps.6.parse(c6) {
            Ok(r) => {
                assert(yields_on_clone(self.ps.6, txt, Ok(r)));
                return Ok(r);
            },
            Err(e) => e,
        };
        assert(yields_on_clone(self.ps.6, txt, Err(g)));
        let c7 = txt.clone();
        let h = match self.ps.7.parse(c7) {
            Ok(r) => {
                assert(yields_on_clone(self.ps.7, txt, Ok(r)));
                return Ok(r);
            },
            Err(e) => e,
        };
        assert(yields_on_clone(self.ps.7, txt, Err(h)));
        let c8 = txt.clone();
        let i = match self.ps.8.parse(c8) {
            Ok(r) => {
                assert(yields_on_clone(self.ps.8, txt, Ok(r)));
                return Ok(r);
            },
            Err(e) => e,
        };
        assert(yields_on_clone(self.ps.8, txt, Err(i)));
        let c9 = txt.clone();
        let j = match self.ps.9.parse(c9) {
            Ok(r) => {
                assert(yields_on_clone(self.ps.9, txt, Ok(r)));
                return Ok(r);
            },
            Err(e) => e,
        };
        assert(yields_on_clone(self.ps.9, txt, Err(j)));
        let c10 = txt.clone();
        let k = match self.ps.10.parse(c10) {
            Ok(r) => {
                assert(yields_on_clone(self.ps.10, txt, Ok(r)));
                return Ok(r);
            },
            Err(e) => e,
        };
        assert(yields_on_clone(self.ps.10, txt, Err(k)));
        let c11 = txt.clone();
        let l = match self.ps.11.parse(c11) {
            Ok(r) => {
                assert(yields_on_clone(self.ps.11, txt, Ok(r)));
                return Ok(r);
            },
            Err(e) => e,
        };
        assert(yields_on_clone(self.ps.11, txt, Err(l)));
        let c12 = txt.clone();
        let m = match self.ps.12.parse(c12) {
            Ok(r) => {
                assert(yields_on_clone(self.ps.12, txt, Ok(r)));
                return Ok(r);
            },
            Err(e) => e,
        };
        assert(yields_on_clone(self.ps.12, txt, Err(m)));
        let c13 = txt.clone();
        let n = match self.ps.13.parse(c13) {
            Ok(r) => {
                assert(yields_on_clone(self.ps.13, txt, Ok(r)));
                return Ok(r);
            },
            Err(e) => e,
        };
        assert(yields_on_clone(self.ps.13, txt, Err(n)));
        let c14 = txt.clone();
        let o = match self.ps.14.parse(c14) {
            Ok(r) => {
                assert(yields_on_clone(self.ps.14, txt, Ok(r)));
                return Ok(r);
            },
            Err(e) => e,
        };
        assert(yields_on_clone(self.ps.14, txt, Err(o)));
        let c15 = txt.clone();
        let p = match self.ps.15.parse(c15) {
            Ok(r) => {
                assert(yields_on_clone(self.ps.15, txt, Ok(r)));
                return Ok(r);
            },
            Err(e) => e,
        };
        assert(yields_on_clone(self.ps.15, txt, Err(p)));
        let c16 = txt.clone();
        let q = match self.ps.16.parse(c16) {
            Ok(r) => {
                assert(yields_on_clone(self.ps.16, txt, Ok(r)));
                return Ok(r);
            },
            Err(e) => e,
        };
        assert(yields_on_clone(self.ps.16, txt, Err(q)));
        let c17 = txt.clone();
        let r = match self.ps.17.parse(c17) {
            Ok(r) => {
                assert(yields_on_clone(self.ps.17, txt, Ok(r)));
                return Ok(r);
            },
            Err(e) => e,
        };
        assert(yields_on_clone(self.ps.17, txt, Err(r)));
        let c18 = txt.clone();
        let s = match self.ps.18.parse(c18) {
            Ok(r) => {
                assert(yields_on_clone(self.ps.18, txt, Ok(r)));
                return Ok(r);
            },
            Err(e) => e,
        };
        assert(yields_on_clone(self.ps.18, txt, Err(s)));
        let c19 = txt.clone();
        let t = match self.ps.19.parse(c19) {
            Ok(r) => {
                assert(yields_on_clone(self.ps.19, txt, Ok(r)));
                return Ok(r);
            },
            Err(e) => e,
        };
        assert(yields_on_clone(self.ps.19, txt, Err(t)));
        let c20 = txt.clone();
        let u = match self.ps.20.parse(c20) {
            Ok(r) => {
                assert(yields_on_clone(self.ps.20, txt, Ok(r)));
                return Ok(r);
            },
            Err(e) => e,
        };
        assert(yields_on_clone(self.ps.20, txt, Err(u)));
        let c21 = txt.clone();
        let v = match self.ps.21.parse(c21) {
            Ok(r) => {
                assert(yields_on_clone(self.ps.21, txt, Ok(r)));
                return Ok(r);
            },
            Err(e) => e,
        };
        assert(yields_on_clone(self.ps.21, txt, Err(v)));
        let c22 = txt.clone();
        let w = match self.ps.22.parse(c22) {
            Ok(r) => {
                assert(yields_on_clone(self.ps.22, txt, Ok(r)));
                return Ok(r);
            },
            Err(e) => e,
        };
        assert(yields_on_clone(self.ps.22, txt, Err(w)));
        let c23 = txt.clone();
        let x = match self.ps.23.parse(c23) {
            Ok(r) => {
                assert(yields_on_clone(self.ps.23, txt, Ok(r)));
                return Ok(r);
            },
            Err(e) => e,
        };
        assert(yields_on_clone(self.ps.23, txt, Err(x)));
        let c24 = txt.clone();
        let y = match self.ps.24.parse(c24) {
            Ok(r) => {
                assert(yields_on_clone(self.ps.24, txt, Ok(r)));
                return Ok(r);
            },
            Err(e) => e,
        };
        assert(yields_on_clone(self.ps.24, txt, Err(y)));
        Err((a, b, c, d, e, f, g, h, i, j, k, l, m, n, o, p, q, r, s, t, u, v, w, x, y))
    }
}

/// Over inputs whose clones are equal, an alternative of 25 deterministic
/// parsers is deterministic.
pub proof fn lemma_alt25_deterministic<IN: Clone, OUT, A, B, C, D, E, F, G, H, I, J, K, L, M, N, O, P, Q, R, S, T, U, V, W, X, Y>(a: Alt<IN, (A, B, C, D, E, F, G, H, I, J, K, L, M, N, O, P, Q, R, S, T, U, V, W, X, Y)>)
    where
        A: Parser<IN, Out = OUT>,
        B: Parser<IN, Out = OUT>,
        C: Parser<IN, Out = OUT>,
        D: Parser<IN, Out = OUT>,
        E: Parser<IN, Out = OUT>,
        F: Parser<IN, Out = OUT>,
        G: Parser<IN, Out = OUT>,
        H: Parser<IN, Out = OUT>,
        I: Parser<IN, Out = OUT>,
        J: Parser<IN, Out = OUT>,
        K: Parser<IN, Out = OUT>,
        L: Parser<IN, Out = OUT>,
        M: Parser<IN, Out = OUT>,
        N: Parser<IN, Out = OUT>,
        O: Parser<IN, Out = OUT>,
        P: Parser<IN, Out = OUT>,
        Q: Parser<IN, Out = OUT>,
        R: Parser<IN, Out = OUT>,
        S: Parser<IN, Out = OUT>,
        T: Parser<IN, Out = OUT>,
        U: Parser<IN, Out = OUT>,
        V: Parser<IN, Out = OUT>,
        W: Parser<IN, Out = OUT>,
        X: Parser<IN, Out = OUT>,
        Y: Parser<IN, Out = OUT>,
    requires
        clones_are_equal::<IN>(),
        deterministic::<IN, A>(a.parsers().0),
        deterministic::<IN, B>(a.parsers().1),
        deterministic::<IN, C>(a.parsers().2),
        deterministic::<IN, D>(a.parsers().3),
        deterministic::<IN, E>(a.parsers().4),
        deterministic::<IN, F>(a.parsers().5),
        deterministic::<IN, G>(a.parsers().6),
        deterministic::<IN, H>(a.parsers().7),
        deterministic::<IN, I>(a.parsers().8),
        deterministic::<IN, J>(a.parsers().9),
        deterministic::<IN, K>(a.parsers().10),
        deterministic::<IN, L>(a.parsers().11),
        deterministic::<IN, M>(a.parsers().12),
        deterministic::<IN, N>(a.parsers().13),
        deterministic::<IN, O>(a.parsers().14),
        deterministic::<IN, P>(a.parsers().15),
        deterministic::<IN, Q>(a.parsers().16),
        deterministic::<IN, R>(a.parsers().17),
        deterministic::<IN, S>(a.parsers().18),
        deterministic::<IN, T>(a.parsers().19),
        deterministic::<IN, U>(a.parsers().20),
        deterministic::<IN, V>(a.parsers().21),
        deterministic::<IN, W>(a.parsers().22),
        deterministic::<IN, X>(a.parsers().23),
        deterministic::<IN, Y>(a.parsers().24),
    ensures
        deterministic::<IN, Alt<IN, (A, B, C, D, E, F, G, H, I, J, K, L, M, N, O, P, Q, R, S, T, U, V, W, X, Y)>>(a),
{
    lemma_clones_are_transparent::<IN, A>(a.parsers().0);
    lemma_clones_are_transparent::<IN, B>(a.parsers().1);
    lemma_clones_are_transparent::<IN, C>(a.parsers().2);
    lemma_clones_are_transparent::<IN, D>(a.parsers().3);
    lemma_clones_are_transparent::<IN, E>(a.parsers().4);
    lemma_clones_are_transparent::<IN, F>(a.parsers().5);
    lemma_clones_are_transparent::<IN, G>(a.parsers().6);
    lemma_clones_are_transparent::<IN, H>(a.parsers().7);
    lemma_clones_are_transparent::<IN, I>(a.parsers().8);
    lemma_clones_are_transparent::<IN, J>(a.parsers().9);
    lemma_clones_are_transparent::<IN, K>(a.parsers().10);
    lemma_clones_are_transparent::<IN, L>(a.parsers().11);
    lemma_clones_are_transparent::<IN, M>(a.parsers().12);
    lemma_clones_are_transparent::<IN, N>(a.parsers().13);
    lemma_clones_are_transparent::<IN, O>(a.parsers().14);
    lemma_clones_are_transparent::<IN, P>(a.parsers().15);
    lemma_clones_are_transparent::<IN, Q>(a.parsers().16);
    lemma_clones_are_transparent::<IN, R>(a.parsers().17);
    lemma_clones_are_transparent::<IN, S>(a.parsers().18);
    lemma_clones_are_transparent::<IN, T>(a.parsers().19);
    lemma_clones_are_transparent::<IN, U>(a.parsers().20);
    lemma_clones_are_transparent::<IN, V>(a.parsers().21);
    lemma_clones_are_transparent::<IN, W>(a.parsers().22);
    lemma_clones_are_transparent::<IN, X>(a.parsers().23);
    lemma_clones_are_transparent::<IN, Y>(a.parsers().24);
}

impl<IN: Clone, OUT, A, B, C, D, E, F, G, H, I, J, K, L, M, N, O, P, Q, R, S, T, U, V, W, X, Y, Z> From<(A, B, C, D, E, F, G, H, I, J, K, L, M, N, O, P, Q, R, S, T, U, V, W, X, Y, Z)> for Alt<IN, (A, B, C, D, E, F, G, H, I, J, K, L, M, N, O, P, Q, R, S, T, U, V, W, X, Y, Z)> where
    A: Parser<IN, Out = OUT>,
    B: Parser<IN, Out = OUT>,
    C: Parser<IN, Out = OUT>,
    D: Parser<IN, Out = OUT>,
    E: Parser<IN, Out = OUT>,
    F: Parser<IN, Out = OUT>,
    G: Parser<IN, Out = OUT>,
    H: Parser<IN, Out = OUT>,
    I: Parser<IN, Out = OUT>,
    J: Parser<IN, Out = OUT>,
    K: Parser<IN, Out = OUT>,
    L: Parser<IN, Out = OUT>,
    M: Parser<IN, Out = OUT>,
    N: Parser<IN, Out = OUT>,
    O: Parser<IN, Out = OUT>,
    P: Parser<IN, Out = OUT>,
    Q: Parser<IN, Out = OUT>,
    R: Parser<IN, Out = OUT>,
    S: Parser<IN, Out = OUT>,
    T: Parser<IN, Out = OUT>,
    U: Parser<IN, Out = OUT>,
    V: Parser<IN, Out = OUT>,
    W: Parser<IN, Out = OUT>,
    X: Parser<IN, Out = OUT>,
    Y: Parser<IN, Out = OUT>,
    Z: Parser<IN, Out = OUT>,
 {
    fn from(ps: (A, B, C, D, E, F, G, H, I, J, K, L, M, N, O, P, Q, R, S, T, U, V, W, X, Y, Z)) -> (r: Self) {
        let r = Self { ps, _ghost: PhantomData };
        proof {
            lemma_alt_determined_by_parsers(r, ps);
        }
        r
    }
}

impl<IN: Clone, OUT, A, B, C, D, E, F, G, H, I, J, K, L, M, N, O, P, Q, R, S, T, U, V, W, X, Y, Z> FromSpecImpl<(A, B, C, D, E, F, G, H, I, J, K, L, M, N, O, P, Q, R, S, T, U, V, W, X, Y, Z)> for Alt<IN, (A, B, C, D, E, F, G, H, I, J, K, L, M, N, O, P, Q, R, S, T, U, V, W, X, Y, Z)> where
    A: Parser<IN, Out = OUT>,
    B: Parser<IN, Out = OUT>,
    C: Parser<IN, Out = OUT>,
    D: Parser<IN, Out = OUT>,
    E: Parser<IN, Out = OUT>,
    F: Parser<IN, Out = OUT>,
    G: Parser<IN, Out = OUT>,
    H: Parser<IN, Out = OUT>,
    I: Parser<IN, Out = OUT>,
    J: Parser<IN, Out = OUT>,
    K: Parser<IN, Out = OUT>,
    L: Parser<IN, Out = OUT>,
    M: Parser<IN, Out = OUT>,
    N: Parser<IN, Out = OUT>,
    O: Parser<IN, Out = OUT>,
    P: Parser<IN, Out = OUT>,
    Q: Parser<IN, Out = OUT>,
    R: Parser<IN, Out = OUT>,
    S: Parser<IN, Out = OUT>,
    T: Parser<IN, Out = OUT>,
    U: Parser<IN, Out = OUT>,
    V: Parser<IN, Out = OUT>,
    W: Parser<IN, Out = OUT>,
    X: Parser<IN, Out = OUT>,
    Y: Parser<IN, Out = OUT>,
    Z: Parser<IN, Out = OUT>,
 {
    open spec fn obeys_from_spec() -> bool {
        true
    }

    open spec fn from_spec(ps: (A, B, C, D, E, F, G, H, I, J, K, L, M, N, O, P, Q, R, S, T, U, V, W, X, Y, Z)) -> Self {
        choose|a: Self| a.parsers() == ps
    }
}

/// An alternative of 26 parsers with one output type.
impl<IN: Clone, OUT, A, B, C, D, E, F, G, H, I, J, K, L, M, N, O, P, Q, R, S, T, U, V, W, X, Y, Z> Parser<IN> for Alt<IN, (A, B, C, D, E, F, G, H, I, J, K, L, M, N, O, P, Q, R, S, T, U, V, W, X, Y, Z)> where
    A: Parser<IN, Out = OUT>,
    B: Parser<IN, Out = OUT>,
    C: Parser<IN, Out = OUT>,
    D: Parser<IN, Out = OUT>,
    E: Parser<IN, Out = OUT>,
    F: Parser<IN, Out = OUT>,
    G: Parser<IN, Out = OUT>,
    H: Parser<IN, Out = OUT>,
    I: Parser<IN, Out = OUT>,
    J: Parser<IN, Out = OUT>,
    K: Parser<IN, Out = OUT>,
    L: Parser<IN, Out = OUT>,
    M: Parser<IN, Out = OUT>,
    N: Parser<IN, Out = OUT>,
    O: Parser<IN, Out = OUT>,
    P: Parser<IN, Out = OUT>,
    Q: Parser<IN, Out = OUT>,
    R: Parser<IN, Out = OUT>,
    S: Parser<IN, Out = OUT>,
    T: Parser<IN, Out = OUT>,
    U: Parser<IN, Out = OUT>,
    V: Parser<IN, Out = OUT>,
    W: Parser<IN, Out = OUT>,
    X: Parser<IN, Out = OUT>,
    Y: Parser<IN, Out = OUT>,
    Z: Parser<IN, Out = OUT>,
 {
    type Out = OUT;

    type Error = (A::Error, B::Error, C::Error, D::Error, E::Error, F::Error, G::Error, H::Error, I::Error, J::Error, K::Error, L::Error, M::Error, N::Error, O::Error, P::Error, Q::Error, R::Error, S::Error, T::Error, U::Error, V::Error, W::Error, X::Error, Y::Error, Z::Error);

    open spec fn parse_requires(&self, input: IN) -> bool {
        let ps = self.parsers();
        &&& accepts_clones(ps.0, input)
        &&& fails_on_clone(ps.0, input)
            ==> accepts_clones(ps.1, input)
        &&& fails_on_clone(ps.0, input)
            && fails_on_clone(ps.1, input)
            ==> accepts_clones(ps.2, input)
        &&& fails_on_clone(ps.0, input)
            && fails_on_clone(ps.1, input)
            && fails_on_clone(ps.2, input)
            ==> accepts_clones(ps.3, input)
        &&& fails_on_clone(ps.0, input)
            && fails_on_clone(ps.1, input)
            && fails_on_clone(ps.2, input)
            && fails_on_clone(ps.3, input)
            ==> accepts_clones(ps.4, input)
        &&& fails_on_clone(ps.0, input)
            && fails_on_clone(ps.1, input)
            && fails_on_clone(ps.2, input)
            && fails_on_clone(ps.3, input)
            && fails_on_clone(ps.4, input)
            ==> accepts_clones(ps.5, input)
        &&& fails_on_clone(ps.0, input)
            && fails_on_clone(ps.1, input)
            && fails_on_clone(ps.2, input)
            && fails_on_clone(ps.3, input)
            && fails_on_clone(ps.4, input)
            && fails_on_clone(ps.5, input)
            ==> accepts_clones(ps.6, input)
        &&& fails_on_clone(ps.0, input)
            && fails_on_clone(ps.1, input)
            && fails_on_clone(ps.2, input)
            && fails_on_clone(ps.3, input)
            && fails_on_clone(ps.4, input)
            && fails_on_clone(ps.5, input)
            && fails_on_clone(ps.6, input)
            ==> accepts_clones(ps.7, input)
        &&& fails_on_clone(ps.0, input)
            && fails_on_clone(ps.1, input)
            && fails_on_clone(ps.2, input)
            && fails_on_clone(ps.3, input)
            && fails_on_clone(ps.4, input)
            && fails_on_clone(ps.5, input)
            && fails_on_clone(ps.6, input)
            && fails_on_clone(ps.7, input)
            ==> accepts_clones(ps.8, input)
        &&& fails_on_clone(ps.0, input)
            && fails_on_clone(ps.1, input)
            && fails_on_clone(ps.2, input)
            && fails_on_clone(ps.3, input)
            && fails_on_clone(ps.4, input)
            && fails_on_clone(ps.5, input)
            && fails_on_clone(ps.6, input)
            && fails_on_clone(ps.7, input)
            && fails_on_clone(ps.8, input)
            ==> accepts_clones(ps.9, input)
        &&& fails_on_clone(ps.0, input)
            && fails_on_clone(ps.1, input)
            && fails_on_clone(ps.2, input)
            && fails_on_clone(ps.3, input)
            && fails_on_clone(ps.4, input)
            && fails_on_clone(ps.5, input)
            && fails_on_clone(ps.6, input)
            && fails_on_clone(ps.7, input)
            && fails_on_clone(ps.8, input)
            && fails_on_clone(ps.9, input)
            ==> accepts_clones(ps.10, input)
        &&& fails_on_clone(ps.0, input)
            && fails_on_clone(ps.1, input)
            && fails_on_clone(ps.2, input)
            && fails_on_clone(ps.3, input)
            && fails_on_clone(ps.4, input)
            && fails_on_clone(ps.5, input)
            && fails_on_clone(ps.6, input)
            && fails_on_clone(ps.7, input)
            && fails_on_clone(ps.8, input)
            && fails_on_clone(ps.9, input)
            && fails_on_clone(ps.10, input)
            ==> accepts_clones(ps.11, input)
        &&& fails_on_clone(ps.0, input)
            && fails_on_clone(ps.1, input)
            && fails_on_clone(ps.2, input)
            && fails_on_clone(ps.3, input)
            && fails_on_clone(ps.4, input)
            && fails_on_clone(ps.5, input)
            && fails_on_clone(ps.6, input)
            && fails_on_clone(ps.7, input)
            && fails_on_clone(ps.8, input)
            && fails_on_clone(ps.9, input)
            && fails_on_clone(ps.10, input)
            && fails_on_clone(ps.11, input)
            ==> accepts_clones(ps.12, input)
        &&& fails_on_clone(ps.0, input)
            && fails_on_clone(ps.1, input)
            && fails_on_clone(ps.2, input)
            && fails_on_clone(ps.3, input)
            && fails_on_clone(ps.4, input)
            && fails_on_clone(ps.5, input)
            && fails_on_clone(ps.6, input)
            && fails_on_clone(ps.7, input)
            && fails_on_clone(ps.8, input)
            && fails_on_clone(ps.9, input)
            && fails_on_clone(ps.10, input)
            && fails_on_clone(ps.11, input)
            && fails_on_clone(ps.12, input)
            ==> accepts_clones(ps.13, input)
        &&& fails_on_clone(ps.0, input)
            && fails_on_clone(ps.1, input)
            && fails_on_clone(ps.2, input)
            && fails_on_clone(ps.3, input)
            && fails_on_clone(ps.4, input)
            && fails_on_clone(ps.5, input)
            && fails_on_clone(ps.6, input)
            && fails_on_clone(ps.7, input)
            && fails_on_clone(ps.8, input)
            && fails_on_clone(ps.9, input)
            && fails_on_clone(ps.10, input)
            && fails_on_clone(ps.11, input)
            && fails_on_clone(ps.12, input)
            && fails_on_clone(ps.13, input)
            ==> accepts_clones(ps.14, input)
        &&& fails_on_clone(ps.0, input)
            && fails_on_clone(ps.1, input)
            && fails_on_clone(ps.2, input)
            && fails_on_clone(ps.3, input)
            && fails_on_clone(ps.4, input)
            && fails_on_clone(ps.5, input)
            && fails_on_clone(ps.6, input)
            && fails_on_clone(ps.7, input)
            && fails_on_clone(ps.8, input)
            && fails_on_clone(ps.9, input)
            && fails_on_clone(ps.10, input)
            && fails_on_clone(ps.11, input)
            && fails_on_clone(ps.12, input)
            && fails_on_clone(ps.13, input)
            && fails_on_clone(ps.14, input)
            ==> accepts_clones(ps.15, input)
        &&& fails_on_clone(ps.0, input)
            && fails_on_clone(ps.1, input)
            && fails_on_clone(ps.2, input)
            && fails_on_clone(ps.3, input)
            && fails_on_clone(ps.4, input)
            && fails_on_clone(ps.5, input)
            && fails_on_clone(ps.6, input)
            && fails_on_clone(ps.7, input)
            && fails_on_clone(ps.8, input)
            && fails_on_clone(ps.9, input)
            && fails_on_clone(ps.10, input)
            && fails_on_clone(ps.11, input)
            && fails_on_clone(ps.12, input)
            && fails_on_clone(ps.13, input)
            && fails_on_clone(ps.14, input)
            && fails_on_clone(ps.15, input)
            ==> accepts_clones(ps.16, input)
        &&& fails_on_clone(ps.0, input)
            && fails_on_clone(ps.1, input)
            && fails_on_clone(ps.2, input)
            && fails_on_clone(ps.3, input)
            && fails_on_clone(ps.4, input)
            && fails_on_clone(ps.5, input)
            && fails_on_clone(ps.6, input)
            && fails_on_clone(ps.7, input)
            && fails_on_clone(ps.8, input)
            && fails_on_clone(ps.9, input)
            && fails_on_clone(ps.10, input)
            && fails_on_clone(ps.11, input)
            && fails_on_clone(ps.12, input)
            && fails_on_clone(ps.13, input)
            && fails_on_clone(ps.14, input)
            && fails_on_clone(ps.15, input)
            && fails_on_clone(ps.16, input)
            ==> accepts_clones(ps.17, input)
        &&& fails_on_clone(ps.0, input)
            && fails_on_clone(ps.1, input)
            && fails_on_clone(ps.2, input)
            && fails_on_clone(ps.3, input)
            && fails_on_clone(ps.4, input)
            && fails_on_clone(ps.5, input)
            && fails_on_clone(ps.6, input)
            && fails_on_clone(ps.7, input)
            && fails_on_clone(ps.8, input)
            && fails_on_clone(ps.9, input)
            && fails_on_clone(ps.10, input)
            && fails_on_clone(ps.11, input)
            && fails_on_clone(ps.12, input)
            && fails_on_clone(ps.13, input)
            && fails_on_clone(ps.14, input)
            && fails_on_clone(ps.15, input)
            && fails_on_clone(ps.16, input)
            && fails_on_clone(ps.17, input)
            ==> accepts_clones(ps.18, input)
        &&& fails_on_clone(ps.0, input)
            && fails_on_clone(ps.1, input)
            && fails_on_clone(ps.2, input)
            && fails_on_clone(ps.3, input)
            && fails_on_clone(ps.4, input)
            && fails_on_clone(ps.5, input)
            && fails_on_clone(ps.6, input)
            && fails_on_clone(ps.7, input)
            && fails_on_clone(ps.8, input)
            && fails_on_clone(ps.9, input)
            && fails_on_clone(ps.10, input)
            && fails_on_clone(ps.11, input)
            && fails_on_clone(ps.12, input)
            && fails_on_clone(ps.13, input)
            && fails_on_clone(ps.14, input)
            && fails_on_clone(ps.15, input)
            && fails_on_clone(ps.16, input)
            && fails_on_clone(ps.17, input)
            && fails_on_clone(ps.18, input)
            ==> accepts_clones(ps.19, input)
        &&& fails_on_clone(ps.0, input)
            && fails_on_clone(ps.1, input)
            && fails_on_clone(ps.2, input)
            && fails_on_clone(ps.3, input)
            && fails_on_clone(ps.4, input)
            && fails_on_clone(ps.5, input)
            && fails_on_clone(ps.6, input)
            && fails_on_clone(ps.7, input)
            && fails_on_clone(ps.8, input)
            && fails_on_clone(ps.9, input)
            && fails_on_clone(ps.10, input)
            && fails_on_clone(ps.11, input)
            && fails_on_clone(ps.12, input)
            && fails_on_clone(ps.13, input)
            && fails_on_clone(ps.14, input)
            && fails_on_clone(ps.15, input)
            && fails_on_clone(ps.16, input)
            && fails_on_clone(ps.17, input)
            && fails_on_clone(ps.18, input)
            && fails_on_clone(ps.19, input)
            ==> accepts_clones(ps.20, input)
        &&& fails_on_clone(ps.0, input)
            && fails_on_clone(ps.1, input)
            && fails_on_clone(ps.2, input)
            && fails_on_clone(ps.3, input)
            && fails_on_clone(ps.4, input)
            && fails_on_clone(ps.5, input)
            && fails_on_clone(ps.6, input)
            && fails_on_clone(ps.7, input)
            && fails_on_clone(ps.8, input)
            && fails_on_clone(ps.9, input)
            && fails_on_clone(ps.10, input)
            && fails_on_clone(ps.11, input)
            && fails_on_clone(ps.12, input)
            && fails_on_clone(ps.13, input)
            && fails_on_clone(ps.14, input)
            && fails_on_clone(ps.15, input)
            && fails_on_clone(ps.16, input)
            && fails_on_clone(ps.17, input)
            && fails_on_clone(ps.18, input)
            && fails_on_clone(ps.19, input)
            && fails_on_clone(ps.20, input)
            ==> accepts_clones(ps.21, input)
        &&& fails_on_clone(ps.0, input)
            && fails_on_clone(ps.1, input)
            && fails_on_clone(ps.2, input)
            && fails_on_clone(ps.3, input)
            && fails_on_clone(ps.4, input)
            && fails_on_clone(ps.5, input)
            && fails_on_clone(ps.6, input)
            && fails_on_clone(ps.7, input)
            && fails_on_clone(ps.8, input)
            && fails_on_clone(ps.9, input)
            && fails_on_clone(ps.10, input)
            && fails_on_clone(ps.11, input)
            && fails_on_clone(ps.12, input)
            && fails_on_clone(ps.13, input)
            && fails_on_clone(ps.14, input)
            && fails_on_clone(ps.15, input)
            && fails_on_clone(ps.16, input)
            && fails_on_clone(ps.17, input)
            && fails_on_clone(ps.18, input)
            && fails_on_clone(ps.19, input)
            && fails_on_clone(ps.20, input)
            && fails_on_clone(ps.21, input)
            ==> accepts_clones(ps.22, input)
        &&& fails_on_clone(ps.0, input)
            && fails_on_clone(ps.1, input)
            && fails_on_clone(ps.2, input)
            && fails_on_clone(ps.3, input)
            && fails_on_clone(ps.4, input)
            && fails_on_clone(ps.5, input)
            && fails_on_clone(ps.6, input)
            && fails_on_clone(ps.7, input)
            && fails_on_clone(ps.8, input)
            && fails_on_clone(ps.9, input)
            && fails_on_clone(ps.10, input)
            && fails_on_clone(ps.11, input)
            && fails_on_clone(ps.12, input)
            && fails_on_clone(ps.13, input)
            && fails_on_clone(ps.14, input)
            && fails_on_clone(ps.15, input)
            && fails_on_clone(ps.16, input)
            && fails_on_clone(ps.17, input)
            && fails_on_clone(ps.18, input)
            && fails_on_clone(ps.19, input)
            && fails_on_clone(ps.20, input)
            && fails_on_clone(ps.21, input)
            && fails_on_clone(ps.22, input)
            ==> accepts_clones(ps.23, input)
        &&& fails_on_clone(ps.0, input)
            && fails_on_clone(ps.1, input)
            && fails_on_clone(ps.2, input)
            && fails_on_clone(ps.3, input)
            && fails_on_clone(ps.4, input)
            && fails_on_clone(ps.5, input)
            && fails_on_clone(ps.6, input)
            && fails_on_clone(ps.7, input)
            && fails_on_clone(ps.8, input)
            && fails_on_clone(ps.9, input)
            && fails_on_clone(ps.10, input)
            && fails_on_clone(ps.11, input)
            && fails_on_clone(ps.12, input)
            && fails_on_clone(ps.13, input)
            && fails_on_clone(ps.14, input)
            && fails_on_clone(ps.15, input)
            && fails_on_clone(ps.16, input)
            && fails_on_clone(ps.17, input)
            && fails_on_clone(ps.18, input)
            && fails_on_clone(ps.19, input)
            && fails_on_clone(ps.20, input)
            && fails_on_clone(ps.21, input)
            && fails_on_clone(ps.22, input)
            && fails_on_clone(ps.23, input)
            ==> accepts_clones(ps.24, input)
        &&& fails_on_clone(ps.0, input)
            && fails_on_clone(ps.1, input)
            && fails_on_clone(ps.2, input)
            && fails_on_clone(ps.3, input)
            && fails_on_clone(ps.4, input)
            && fails_on_clone(ps.5, input)
            && fails_on_clone(ps.6, input)
            && fails_on_clone(ps.7, input)
            && fails_on_clone(ps.8, input)
            && fails_on_clone(ps.9, input)
            && fails_on_clone(ps.10, input)
            && fails_on_clone(ps.11, input)
            && fails_on_clone(ps.12, input)
            && fails_on_clone(ps.13, input)
            && fails_on_clone(ps.14, input)
            && fails_on_clone(ps.15, input)
            && fails_on_clone(ps.16, input)
            && fails_on_clone(ps.17, input)
            && fails_on_clone(ps.18, input)
            && fails_on_clone(ps.19, input)
            && fails_on_clone(ps.20, input)
            && fails_on_clone(ps.21, input)
            && fails_on_clone(ps.22, input)
            && fails_on_clone(ps.23, input)
            && fails_on_clone(ps.24, input)
            ==> accepts_clones(ps.25, input)
    }

    open spec fn parse_ensures(&self, input: IN, res: Result<(OUT, IN), (A::Error, B::Error, C::Error, D::Error, E::Error, F::Error, G::Error, H::Error, I::Error, J::Error, K::Error, L::Error, M::Error, N::Error, O::Error, P::Error, Q::Error, R::Error, S::Error, T::Error, U::Error, V::Error, W::Error, X::Error, Y::Error, Z::Error)>) -> bool {
        let ps = self.parsers();
        match res {
            Ok(x) => {
                ||| yields_on_clone(ps.0, input, Ok(x))
                ||| fails_on_clone(ps.0, input)
                    && yields_on_clone(ps.1, input, Ok(x))
                ||| fails_on_clone(ps.0, input)
                    && fails_on_clone(ps.1, input)
                    && yields_on_clone(ps.2, input, Ok(x))
                ||| fails_on_clone(ps.0, input)
                    && fails_on_clone(ps.1, input)
                    && fails_on_clone(ps.2, input)
                    && yields_on_clone(ps.3, input, Ok(x))
                ||| fails_on_clone(ps.0, input)
                    && fails_on_clone(ps.1, input)
                    && fails_on_clone(ps.2, input)
                    && fails_on_clone(ps.3, input)
                    && yields_on_clone(ps.4, input, Ok(x))
                ||| fails_on_clone(ps.0, input)
                    && fails_on_clone(ps.1, input)
                    && fails_on_clone(ps.2, input)
                    && fails_on_clone(ps.3, input)
                    && fails_on_clone(ps.4, input)
                    && yields_on_clone(ps.5, input, Ok(x))
                ||| fails_on_clone(ps.0, input)
                    && fails_on_clone(ps.1, input)
                    && fails_on_clone(ps.2, input)
                    && fails_on_clone(ps.3, input)
                    && fails_on_clone(ps.4, input)
                    && fails_on_clone(ps.5, input)
                    && yields_on_clone(ps.6, input, Ok(x))
                ||| fails_on_clone(ps.0, input)
                    && fails_on_clone(ps.1, input)
                    && fails_on_clone(ps.2, input)
                    && fails_on_clone(ps.3, input)
                    && fails_on_clone(ps.4, input)
                    && fails_on_clone(ps.5, input)
                    && fails_on_clone(ps.6, input)
                    && yields_on_clone(ps.7, input, Ok(x))
                ||| fails_on_clone(ps.0, input)
                    && fails_on_clone(ps.1, input)
                    && fails_on_clone(ps.2, input)
                    && fails_on_clone(ps.3, input)
                    && fails_on_clone(ps.4, input)
                    && fails_on_clone(ps.5, input)
                    && fails_on_clone(ps.6, input)
                    && fails_on_clone(ps.7, input)
                    && yields_on_clone(ps.8, input, Ok(x))
                ||| fails_on_clone(ps.0, input)
                    && fails_on_clone(ps.1, input)
                    && fails_on_clone(ps.2, input)
                    && fails_on_clone(ps.3, input)
                    && fails_on_clone(ps.4, input)
                    && fails_on_clone(ps.5, input)
                    && fails_on_clone(ps.6, input)
                    && fails_on_clone(ps.7, input)
                    && fails_on_clone(ps.8, input)
                    && yields_on_clone(ps.9, input, Ok(x))
                ||| fails_on_clone(ps.0, input)
                    && fails_on_clone(ps.1, input)
                    && fails_on_clone(ps.2, input)
                    && fails_on_clone(ps.3, input)
                    && fails_on_clone(ps.4, input)
                    && fails_on_clone(ps.5, input)
                    && fails_on_clone(ps.6, input)
                    && fails_on_clone(ps.7, input)
                    && fails_on_clone(ps.8, input)
                    && fails_on_clone(ps.9, input)
                    && yields_on_clone(ps.10, input, Ok(x))
                ||| fails_on_clone(ps.0, input)
                    && fails_on_clone(ps.1, input)
                    && fails_on_clone(ps.2, input)
                    && fails_on_clone(ps.3, input)
                    && fails_on_clone(ps.4, input)
                    && fails_on_clone(ps.5, input)
                    && fails_on_clone(ps.6, input)
                    && fails_on_clone(ps.7, input)
                    && fails_on_clone(ps.8, input)
                    && fails_on_clone(ps.9, input)
                    && fails_on_clone(ps.10, input)
                    && yields_on_clone(ps.11, input, Ok(x))
                ||| fails_on_clone(ps.0, input)
                    && fails_on_clone(ps.1, input)
                    && fails_on_clone(ps.2, input)
                    && fails_on_clone(ps.3, input)
                    && fails_on_clone(ps.4, input)
                    && fails_on_clone(ps.5, input)
                    && fails_on_clone(ps.6, input)
                    && fails_on_clone(ps.7, input)
                    && fails_on_clone(ps.8, input)
                    && fails_on_clone(ps.9, input)
                    && fails_on_clone(ps.10, input)
                    && fails_on_clone(ps.11, input)
                    && yields_on_clone(ps.12, input, Ok(x))
                ||| fails_on_clone(ps.0, input)
                    && fails_on_clone(ps.1, input)
                    && fails_on_clone(ps.2, input)
                    && fails_on_clone(ps.3, input)
                    && fails_on_clone(ps.4, input)
                    && fails_on_clone(ps.5, input)
                    && fails_on_clone(ps.6, input)
                    && fails_on_clone(ps.7, input)
                    && fails_on_clone(ps.8, input)
                    && fails_on_clone(ps.9, input)
                    && fails_on_clone(ps.10, input)
                    && fails_on_clone(ps.11, input)
                    && fails_on_clone(ps.12, input)
                    && yields_on_clone(ps.13, input, Ok(x))
                ||| fails_on_clone(ps.0, input)
                    && fails_on_clone(ps.1, input)
                    && fails_on_clone(ps.2, input)
                    && fails_on_clone(ps.3, input)
                    && fails_on_clone(ps.4, input)
                    && fails_on_clone(ps.5, input)
                    && fails_on_clone(ps.6, input)
                    && fails_on_clone(ps.7, input)
                    && fails_on_clone(ps.8, input)
                    && fails_on_clone(ps.9, input)
                    && fails_on_clone(ps.10, input)
                    && fails_on_clone(ps.11, input)
                    && fails_on_clone(ps.12, input)
                    && fails_on_clone(ps.13, input)
                    && yields_on_clone(ps.14, input, Ok(x))
                ||| fails_on_clone(ps.0, input)
                    && fails_on_clone(ps.1, input)
                    && fails_on_clone(ps.2, input)
                    && fails_on_clone(ps.3, input)
                    && fails_on_clone(ps.4, input)
                    && fails_on_clone(ps.5, input)
                    && fails_on_clone(ps.6, input)
                    && fails_on_clone(ps.7, input)
                    && fails_on_clone(ps.8, input)
                    && fails_on_clone(ps.9, input)
                    && fails_on_clone(ps.10, input)
                    && fails_on_clone(ps.11, input)
                    && fails_on_clone(ps.12, input)
                    && fails_on_clone(ps.13, input)
                    && fails_on_clone(ps.14, input)
                    && yields_on_clone(ps.15, input, Ok(x))
                ||| fails_on_clone(ps.0, input)
                    && fails_on_clone(ps.1, input)
                    && fails_on_clone(ps.2, input)
                    && fails_on_clone(ps.3, input)
                    && fails_on_clone(ps.4, input)
                    && fails_on_clone(ps.5, input)
                    && fails_on_clone(ps.6, input)
                    && fails_on_clone(ps.7, input)
                    && fails_on_clone(ps.8, input)
                    && fails_on_clone(ps.9, input)
                    && fails_on_clone(ps.10, input)
                    && fails_on_clone(ps.11, input)
                    && fails_on_clone(ps.12, input)
                    && fails_on_clone(ps.13, input)
                    && fails_on_clone(ps.14, input)
                    && fails_on_clone(ps.15, input)
                    && yields_on_clone(ps.16, input, Ok(x))
                ||| fails_on_clone(ps.0, input)
                    && fails_on_clone(ps.1, input)
                    && fails_on_clone(ps.2, input)
                    && fails_on_clone(ps.3, input)
                    && fails_on_clone(ps.4, input)
                    && fails_on_clone(ps.5, input)
                    && fails_on_clone(ps.6, input)
                    && fails_on_clone(ps.7, input)
                    && fails_on_clone(ps.8, input)
                    && fails_on_clone(ps.9, input)
                    && fails_on_clone(ps.10, input)
                    && fails_on_clone(ps.11, input)
                    && fails_on_clone(ps.12, input)
                    && fails_on_clone(ps.13, input)
                    && fails_on_clone(ps.14, input)
                    && fails_on_clone(ps.15, input)
                    && fails_on_clone(ps.16, input)
                    && yields_on_clone(ps.17, input, Ok(x))
                ||| fails_on_clone(ps.0, input)
                    && fails_on_clone(ps.1, input)
                    && fails_on_clone(ps.2, input)
                    && fails_on_clone(ps.3, input)
                    && fails_on_clone(ps.4, input)
                    && fails_on_clone(ps.5, input)
                    && fails_on_clone(ps.6, input)
                    && fails_on_clone(ps.7, input)
                    && fails_on_clone(ps.8, input)
                    && fails_on_clone(ps.9, input)
                    && fails_on_clone(ps.10, input)
                    && fails_on_clone(ps.11, input)
                    && fails_on_clone(ps.12, input)
                    && fails_on_clone(ps.13, input)
                    && fails_on_clone(ps.14, input)
                    && fails_on_clone(ps.15, input)
                    && fails_on_clone(ps.16, input)
                    && fails_on_clone(ps.17, input)
                    && yields_on_clone(ps.18, input, Ok(x))
                ||| fails_on_clone(ps.0, input)
                    && fails_on_clone(ps.1, input)
                    && fails_on_clone(ps.2, input)
                    && fails_on_clone(ps.3, input)
                    && fails_on_clone(ps.4, input)
                    && fails_on_clone(ps.5, input)
                    && fails_on_clone(ps.6, input)
                    && fails_on_clone(ps.7, input)
                    && fails_on_clone(ps.8, input)
                    && fails_on_clone(ps.9, input)
                    && fails_on_clone(ps.10, input)
                    && fails_on_clone(ps.11, input)
                    && fails_on_clone(ps.12, input)
                    && fails_on_clone(ps.13, input)
                    && fails_on_clone(ps.14, input)
                    && fails_on_clone(ps.15, input)
                    && fails_on_clone(ps.16, input)
                    && fails_on_clone(ps.17, input)
                    && fails_on_clone(ps.18, input)
                    && yields_on_clone(ps.19, input, Ok(x))
                ||| fails_on_clone(ps.0, input)
                    && fails_on_clone(ps.1, input)
                    && fails_on_clone(ps.2, input)
                    && fails_on_clone(ps.3, input)
                    && fails_on_clone(ps.4, input)
                    && fails_on_clone(ps.5, input)
                    && fails_on_clone(ps.6, input)
                    && fails_on_clone(ps.7, input)
                    && fails_on_clone(ps.8, input)
                    && fails_on_clone(ps.9, input)
                    && fails_on_clone(ps.10, input)
                    && fails_on_clone(ps.11, input)
                    && fails_on_clone(ps.12, input)
                    && fails_on_clone(ps.13, input)
                    && fails_on_clone(ps.14, input)
                    && fails_on_clone(ps.15, input)
                    && fails_on_clone(ps.16, input)
                    && fails_on_clone(ps.17, input)
                    && fails_on_clone(ps.18, input)
                    && fails_on_clone(ps.19, input)
                    && yields_on_clone(ps.20, input, Ok(x))
                ||| fails_on_clone(ps.0, input)
                    && fails_on_clone(ps.1, input)
                    && fails_on_clone(ps.2, input)
                    && fails_on_clone(ps.3, input)
                    && fails_on_clone(ps.4, input)
                    && fails_on_clone(ps.5, input)
                    && fails_on_clone(ps.6, input)
                    && fails_on_clone(ps.7, input)
                    && fails_on_clone(ps.8, input)
                    && fails_on_clone(ps.9, input)
                    && fails_on_clone(ps.10, input)
                    && fails_on_clone(ps.11, input)
                    && fails_on_clone(ps.12, input)
                    && fails_on_clone(ps.13, input)
                    && fails_on_clone(ps.14, input)
                    && fails_on_clone(ps.15, input)
                    && fails_on_clone(ps.16, input)
                    && fails_on_clone(ps.17, input)
                    && fails_on_clone(ps.18, input)
                    && fails_on_clone(ps.19, input)
                    && fails_on_clone(ps.20, input)
                    && yields_on_clone(ps.21, input, Ok(x))
                ||| fails_on_clone(ps.0, input)
                    && fails_on_clone(ps.1, input)
                    && fails_on_clone(ps.2, input)
                    && fails_on_clone(ps.3, input)
                    && fails_on_clone(ps.4, input)
                    && fails_on_clone(ps.5, input)
                    && fails_on_clone(ps.6, input)
                    && fails_on_clone(ps.7, input)
                    && fails_on_clone(ps.8, input)
                    && fails_on_clone(ps.9, input)
                    && fails_on_clone(ps.10, input)
                    && fails_on_clone(ps.11, input)
                    && fails_on_clone(ps.12, input)
                    && fails_on_clone(ps.13, input)
                    && fails_on_clone(ps.14, input)
                    && fails_on_clone(ps.15, input)
                    && fails_on_clone(ps.16, input)
                    && fails_on_clone(ps.17, input)
                    && fails_on_clone(ps.18, input)
                    && fails_on_clone(ps.19, input)
                    && fails_on_clone(ps.20, input)
                    && fails_on_clone(ps.21, input)
                    && yields_on_clone(ps.22, input, Ok(x))
                ||| fails_on_clone(ps.0, input)
                    && fails_on_clone(ps.1, input)
                    && fails_on_clone(ps.2, input)
                    && fails_on_clone(ps.3, input)
                    && fails_on_clone(ps.4, input)
                    && fails_on_clone(ps.5, input)
                    && fails_on_clone(ps.6, input)
                    && fails_on_clone(ps.7, input)
                    && fails_on_clone(ps.8, input)
                    && fails_on_clone(ps.9, input)
                    && fails_on_clone(ps.10, input)
                    && fails_on_clone(ps.11, input)
                    && fails_on_clone(ps.12, input)
                    && fails_on_clone(ps.13, input)
                    && fails_on_clone(ps.14, input)
                    && fails_on_clone(ps.15, input)
                    && fails_on_clone(ps.16, input)
                    && fails_on_clone(ps.17, input)
                    && fails_on_clone(ps.18, input)
                    && fails_on_clone(ps.19, input)
                    && fails_on_clone(ps.20, input)
                    && fails_on_clone(ps.21, input)
                    && fails_on_clone(ps.22, input)
                    && yields_on_clone(ps.23, input, Ok(x))
                ||| fails_on_clone(ps.0, input)
                    && fails_on_clone(ps.1, input)
                    && fails_on_clone(ps.2, input)
                    && fails_on_clone(ps.3, input)
                    && fails_on_clone(ps.4, input)
                    && fails_on_clone(ps.5, input)
                    && fails_on_clone(ps.6, input)
                    && fails_on_clone(ps.7, input)
                    && fails_on_clone(ps.8, input)
                    && fails_on_clone(ps.9, input)
                    && fails_on_clone(ps.10, input)
                    && fails_on_clone(ps.11, input)
                    && fails_on_clone(ps.12, input)
                    && fails_on_clone(ps.13, input)
                    && fails_on_clone(ps.14, input)
                    && fails_on_clone(ps.15, input)
                    && fails_on_clone(ps.16, input)
                    && fails_on_clone(ps.17, input)
                    && fails_on_clone(ps.18, input)
                    && fails_on_clone(ps.19, input)
                    && fails_on_clone(ps.20, input)
                    && fails_on_clone(ps.21, input)
                    && fails_on_clone(ps.22, input)
                    && fails_on_clone(ps.23, input)
                    && yields_on_clone(ps.24, input, Ok(x))
                ||| fails_on_clone(ps.0, input)
                    && fails_on_clone(ps.1, input)
                    && fails_on_clone(ps.2, input)
                    && fails_on_clone(ps.3, input)
                    && fails_on_clone(ps.4, input)
                    && fails_on_clone(ps.5, input)
                    && fails_on_clone(ps.6, input)
                    && fails_on_clone(ps.7, input)
                    && fails_on_clone(ps.8, input)
                    && fails_on_clone(ps.9, input)
                    && fails_on_clone(ps.10, input)
                    && fails_on_clone(ps.11, input)
                    && fails_on_clone(ps.12, input)
                    && fails_on_clone(ps.13, input)
                    && fails_on_clone(ps.14, input)
                    && fails_on_clone(ps.15, input)
                    && fails_on_clone(ps.16, input)
                    && fails_on_clone(ps.17, input)
                    && fails_on_clone(ps.18, input)
                    && fails_on_clone(ps.19, input)
                    && fails_on_clone(ps.20, input)
                    && fails_on_clone(ps.21, input)
                    && fails_on_clone(ps.22, input)
                    && fails_on_clone(ps.23, input)
                    && fails_on_clone(ps.24, input)
                    && yields_on_clone(ps.25, input, Ok(x))
            },
            Err((a, b, c, d, e, f, g, h, i, j, k, l, m, n, o, p, q, r, s, t, u, v, w, x, y, z)) => {
                &&& yields_on_clone(ps.0, input, Err(a))
                &&& yields_on_clone(ps.1, input, Err(b))
                &&& yields_on_clone(ps.2, input, Err(c))
                &&& yields_on_clone(ps.3, input, Err(d))
                &&& yields_on_clone(ps.4, input, Err(e))
                &&& yields_on_clone(ps.5, input, Err(f))
                &&& yields_on_clone(ps.6, input, Err(g))
                &&& yields_on_clone(ps.7, input, Err(h))
                &&& yields_on_clone(ps.8, input, Err(i))
                &&& yields_on_clone(ps.9, input, Err(j))
                &&& yields_on_clone(ps.10, input, Err(k))
                &&& yields_on_clone(ps.11, input, Err(l))
                &&& yields_on_clone(ps.12, input, Err(m))
                &&& yields_on_clone(ps.13, input, Err(n))
                &&& yields_on_clone(ps.14, input, Err(o))
                &&& yields_on_clone(ps.15, input, Err(p))
                &&& yields_on_clone(ps.16, input, Err(q))
                &&& yields_on_clone(ps.17, input, Err(r))
                &&& yields_on_clone(ps.18, input, Err(s))
                &&& yields_on_clone(ps.19, input, Err(t))
                &&& yields_on_clone(ps.20, input, Err(u))
                &&& yields_on_clone(ps.21, input, Err(v))
                &&& yields_on_clone(ps.22, input, Err(w))
                &&& yields_on_clone(ps.23, input, Err(x))
                &&& yields_on_clone(ps.24, input, Err(y))
                &&& yields_on_clone(ps.25, input, Err(z))
            },
        }
    }

    fn parse(&self, txt: IN) -> (res: Result<(OUT, IN), (A::Error, B::Error, C::Error, D::Error, E::Error, F::Error, G::Error, H::Error, I::Error, J::Error, K::Error, L::Error, M::Error, N::Error, O::Error, P::Error, Q::Error, R::Error, S::Error, T::Error, U::Error, V::Error, W::Error, X::Error, Y::Error, Z::Error)>) {
        let c0 = txt.clone();
        let a = match self.ps.0.parse(c0) {
            Ok(r) => {
                assert(yields_on_clone(self.ps.0, txt, Ok(r)));
                return Ok(r);
            },
            Err(e) => e,
        };
        assert(yields_on_clone(self.ps.0, txt, Err(a)));
        let c1 = txt.clone();
        let b = match self.ps.1.parse(c1) {
            Ok(r) => {
                assert(yields_on_clone(self.ps.1, txt, Ok(r)));
                return Ok(r);
            },
            Err(e) => e,
        };
        assert(yields_on_clone(self.ps.1, txt, Err(b)));
        let c2 = txt.clone();
        let c = match self.ps.2.parse(c2) {
            Ok(r) => {
                assert(yields_on_clone(self.ps.2, txt, Ok(r)));
                return Ok(r);
            },
            Err(e) => e,
        };
        assert(yields_on_clone(self.ps.2, txt, Err(c)));
        let c3 = txt.clone();
        let d = match self.ps.3.parse(c3) {
            Ok(r) => {
                assert(yields_on_clone(self.ps.3, txt, Ok(r)));
                return Ok(r);
            },
            Err(e) => e,
        };
        assert(yields_on_clone(self.ps.3, txt, Err(d)));
        let c4 = txt.clone();
        let e = match self.ps.4.parse(c4) {
            Ok(r) => {
                assert(yields_on_clone(self.ps.4, txt, Ok(r)));
                return Ok(r);
            },
            Err(e) => e,
        };
        assert(yields_on_clone(self.ps.4, txt, Err(e)));
        let c5 = txt.clone();
        let f = match self.ps.5.parse(c5) {
            Ok(r) => {
                assert(yields_on_clone(self.ps.5, txt, Ok(r)));
                return Ok(r);
            },
            Err(e) => e,
        };
        assert(yields_on_clone(self.ps.5, txt, Err(f)));
        let c6 = txt.clone();
        let g = match self.ps.6.parse(c6) {
            Ok(r) => {
                assert(yields_on_clone(self.ps.6, txt, Ok(r)));
                return Ok(r);
            },
            Err(e) => e,
        };
        assert(yields_on_clone(self.ps.6, txt, Err(g)));
        let c7 = txt.clone();
        let h = match self.ps.7.parse(c7) {
            Ok(r) => {
                assert(yields_on_clone(self.ps.7, txt, Ok(r)));
                return Ok(r);
            },
            Err(e) => e,
        };
        assert(yields_on_clone(self.ps.7, txt, Err(h)));
        let c8 = txt.clone();
        let i = match self.ps.8.parse(c8) {
            Ok(r) => {
                assert(yields_on_clone(self.ps.8, txt, Ok(r)));
                return Ok(r);
            },
            Err(e) => e,
        };
        assert(yields_on_clone(self.ps.8, txt, Err(i)));
        let c9 = txt.clone();
        let j = match self.ps.9.parse(c9) {
            Ok(r) => {
                assert(yields_on_clone(self.ps.9, txt, Ok(r)));
                return Ok(r);
            },
            Err(e) => e,
        };
        assert(yields_on_clone(self.ps.9, txt, Err(j)));
        let c10 = txt.clone();
        let k = match self.ps.10.parse(c10) {
            Ok(r) => {
                assert(yields_on_clone(self.ps.10, txt, Ok(r)));
                return Ok(r);
            },
            Err(e) => e,
        };
        assert(yields_on_clone(self.ps.10, txt, Err(k)));
        let c11 = txt.clone();
        let l = match self.ps.11.parse(c11) {
            Ok(r) => {
                assert(yields_on_clone(self.ps.11, txt, Ok(r)));
                return Ok(r);
            },
            Err(e) => e,
        };
        assert(yields_on_clone(self.ps.11, txt, Err(l)));
        let c12 = txt.clone();
        let m = match self.ps.12.parse(c12) {
            Ok(r) => {
                assert(yields_on_clone(self.ps.12, txt, Ok(r)));
                return Ok(r);
            },
            Err(e) => e,
        };
        assert(yields_on_clone(self.ps.12, txt, Err(m)));
        let c13 = txt.clone();
        let n = match self.ps.13.parse(c13) {
            Ok(r) => {
                assert(yields_on_clone(self.ps.13, txt, Ok(r)));
                return Ok(r);
            },
            Err(e) => e,
        };
        assert(yields_on_clone(self.ps.13, txt, Err(n)));
        let c14 = txt.clone();
        let o = match self.ps.14.parse(c14) {
            Ok(r) => {
                assert(yields_on_clone(self.ps.14, txt, Ok(r)));
                return Ok(r);
            },
            Err(e) => e,
        };
        assert(yields_on_clone(self.ps.14, txt, Err(o)));
        let c15 = txt.clone();
        let p = match self.ps.15.parse(c15) {
            Ok(r) => {
                assert(yields_on_clone(self.ps.15, txt, Ok(r)));
                return Ok(r);
            },
            Err(e) => e,
        };
        assert(yields_on_clone(self.ps.15, txt, Err(p)));
        let c16 = txt.clone();
        let q = match self.ps.16.parse(c16) {
            Ok(r) => {
                assert(yields_on_clone(self.ps.16, txt, Ok(r)));
                return Ok(r);
            },
            Err(e) => e,
        };
        assert(yields_on_clone(self.ps.16, txt, Err(q)));
        let c17 = txt.clone();
        let r = match self.ps.17.parse(c17) {
            Ok(r) => {
                assert(yields_on_clone(self.ps.17, txt, Ok(r)));
                return Ok(r);
            },
            Err(e) => e,
        };
        assert(yields_on_clone(self.ps.17, txt, Err(r)));
        let c18 = txt.clone();
        let s = match self.ps.18.parse(c18) {
            Ok(r) => {
                assert(yields_on_clone(self.ps.18, txt, Ok(r)));
                return Ok(r);
            },
            Err(e) => e,
        };
        assert(yields_on_clone(self.ps.18, txt, Err(s)));
        let c19 = txt.clone();
        let t = match self.ps.19.parse(c19) {
            Ok(r) => {
                assert(yields_on_clone(self.ps.19, txt, Ok(r)));
                return Ok(r);
            },
            Err(e) => e,
        };
        assert(yields_on_clone(self.ps.19, txt, Err(t)));
        let c20 = txt.clone();
        let u = match self.ps.20.parse(c20) {
            Ok(r) => {
                assert(yields_on_clone(self.ps.20, txt, Ok(r)));
                return Ok(r);
            },
            Err(e) => e,
        };
        assert(yields_on_clone(self.ps.20, txt, Err(u)));
        let c21 = txt.clone();
        let v = match self.ps.21.parse(c21) {
            Ok(r) => {
                assert(yields_on_clone(self.ps.21, txt, Ok(r)));
                return Ok(r);
            },
            Err(e) => e,
        };
        assert(yields_on_clone(self.ps.21, txt, Err(v)));
        let c22 = txt.clone();
        let w = match self.ps.22.parse(c22) {
            Ok(r) => {
                assert(yields_on_clone(self.ps.22, txt, Ok(r)));
                return Ok(r);
            },
            Err(e) => e,
        };
        assert(yields_on_clone(self.ps.22, txt, Err(w)));
        let c23 = txt.clone();
        let x = match self.ps.23.parse(c23) {
            Ok(r) => {
                assert(yields_on_clone(self.ps.23, txt, Ok(r)));
                return Ok(r);
            },
            Err(e) => e,
        };
        assert(yields_on_clone(self.ps.23, txt, Err(x)));
        let c24 = txt.clone();
        let y = match self.ps.24.parse(c24) {
            Ok(r) => {
                assert(yields_on_clone(self.ps.24, txt, Ok(r)));
                return Ok(r);
            },
            Err(e) => e,
        };
        assert(yields_on_clone(self.ps.24, txt, Err(y)));
        let c25 = txt.clone();
        let z = match self.ps.25.parse(c25) {
            Ok(r) => {
                assert(yields_on_clone(self.ps.25, txt, Ok(r)));
                return Ok(r);
            },
            Err(e) => e,
        };
        assert(yields_on_clone(self.ps.25, txt, Err(z)));
        Err((a, b, c, d, e, f, g, h, i, j, k, l, m, n, o, p, q, r, s, t, u, v, w, x, y, z))
    }
}

/// Over inputs whose clones are equal, an alternative of 26 deterministic
/// parsers is deterministic.
pub proof fn lemma_alt26_deterministic<IN: Clone, OUT, A, B, C, D, E, F, G, H, I, J, K, L, M, N, O, P, Q, R, S, T, U, V, W, X, Y, Z>(a: Alt<IN, (A, B, C, D, E, F, G, H, I, J, K, L, M, N, O, P, Q, R, S, T, U, V, W, X, Y, Z)>)
    where
        A: Parser<IN, Out = OUT>,
        B: Parser<IN, Out = OUT>,
        C: Parser<IN, Out = OUT>,
        D: Parser<IN, Out = OUT>,
        E: Parser<IN, Out = OUT>,
        F: Parser<IN, Out = OUT>,
        G: Parser<IN, Out = OUT>,
        H: Parser<IN, Out = OUT>,
        I: Parser<IN, Out = OUT>,
        J: Parser<IN, Out = OUT>,
        K: Parser<IN, Out = OUT>,
        L: Parser<IN, Out = OUT>,
        M: Parser<IN, Out = OUT>,
        N: Parser<IN, Out = OUT>,
        O: Parser<IN, Out = OUT>,
        P: Parser<IN, Out = OUT>,
        Q: Parser<IN, Out = OUT>,
        R: Parser<IN, Out = OUT>,
        S: Parser<IN, Out = OUT>,
        T: Parser<IN, Out = OUT>,
        U: Parser<IN, Out = OUT>,
        V: Parser<IN, Out = OUT>,
        W: Parser<IN, Out = OUT>,
        X: Parser<IN, Out = OUT>,
        Y: Parser<IN, Out = OUT>,
        Z: Parser<IN, Out = OUT>,
    requires
        clones_are_equal::<IN>(),
        deterministic::<IN, A>(a.parsers().0),
        deterministic::<IN, B>(a.parsers().1),
        deterministic::<IN, C>(a.parsers().2),
        deterministic::<IN, D>(a.parsers().3),
        deterministic::<IN, E>(a.parsers().4),
        deterministic::<IN, F>(a.parsers().5),
        deterministic::<IN, G>(a.parsers().6),
        deterministic::<IN, H>(a.parsers().7),
        deterministic::<IN, I>(a.parsers().8),
        deterministic::<IN, J>(a.parsers().9),
        deterministic::<IN, K>(a.parsers().10),
        deterministic::<IN, L>(a.parsers().11),
        deterministic::<IN, M>(a.parsers().12),
        deterministic::<IN, N>(a.parsers().13),
        deterministic::<IN, O>(a.parsers().14),
        deterministic::<IN, P>(a.parsers().15),
        deterministic::<IN, Q>(a.parsers().16),
        deterministic::<IN, R>(a.parsers().17),
        deterministic::<IN, S>(a.parsers().18),
        deterministic::<IN, T>(a.parsers().19),
        deterministic::<IN, U>(a.parsers().20),
        deterministic::<IN, V>(a.parsers().21),
        deterministic::<IN, W>(a.parsers().22),
        deterministic::<IN, X>(a.parsers().23),
        deterministic::<IN, Y>(a.parsers().24),
        deterministic::<IN, Z>(a.parsers().25),
    ensures
        deterministic::<IN, Alt<IN, (A, B, C, D, E, F, G, H, I, J, K, L, M, N, O, P, Q, R, S, T, U, V, W, X, Y, Z)>>(a),
{
    lemma_clones_are_transparent::<IN, A>(a.parsers().0);
    lemma_clones_are_transparent::<IN, B>(a.parsers().1);
    lemma_clones_are_transparent::<IN, C>(a.parsers().2);
    lemma_clones_are_transparent::<IN, D>(a.parsers().3);
    lemma_clones_are_transparent::<IN, E>(a.parsers().4);
    lemma_clones_are_transparent::<IN, F>(a.parsers().5);
    lemma_clones_are_transparent::<IN, G>(a.parsers().6);
    lemma_clones_are_transparent::<IN, H>(a.parsers().7);
    lemma_clones_are_transparent::<IN, I>(a.parsers().8);
    lemma_clones_are_transparent::<IN, J>(a.parsers().9);
    lemma_clones_are_transparent::<IN, K>(a.parsers().10);
    lemma_clones_are_transparent::<IN, L>(a.parsers().11);
    lemma_clones_are_transparent::<IN, M>(a.parsers().12);
    lemma_clones_are_transparent::<IN, N>(a.parsers().13);
    lemma_clones_are_transparent::<IN, O>(a.parsers().14);
    lemma_clones_are_transparent::<IN, P>(a.parsers().15);
    lemma_clones_are_transparent::<IN, Q>(a.parsers().16);
    lemma_clones_are_transparent::<IN, R>(a.parsers().17);
    lemma_clones_are_transparent::<IN, S>(a.parsers().18);
    lemma_clones_are_transparent::<IN, T>(a.parsers().19);
    lemma_clones_are_transparent::<IN, U>(a.parsers().20);
    lemma_clones_are_transparent::<IN, V>(a.parsers().21);
    lemma_clones_are_transparent::<IN, W>(a.parsers().22);
    lemma_clones_are_transparent::<IN, X>(a.parsers().23);
    lemma_clones_are_transparent::<IN, Y>(a.parsers().24);
    lemma_clones_are_transparent::<IN, Z>(a.parsers().25);
}

} // verus!
