//! Branches: ordered alternatives whose segments report `Err(None)` for "not
//! my case, try the next one" and `Err(Some(e))` for "my case, but it is
//! malformed", which stops the search.
use std::marker::PhantomData;
use vstd::prelude::*;
use vstd::std_specs::convert::FromSpecImpl;

use crate::parser::{
    Parser,
    clones_are_equal,
    deterministic,
    lemma_clones_are_transparent,
    accepts_clones,
    yields_on_clone,
};

verus! {

/// A branch over the segments of the tuple `P`, each failing with
/// `Option<ER>`.
pub struct Branch<I, ER, P> {
    ps: P,
    _ghost: PhantomData<(I, ER)>,
}

impl<I, ER, P> Branch<I, ER, P> {
    /// Wraps a tuple of segments.
    pub fn new(ps: P) -> (b: Self)
        ensures
            b.segments() == ps,
    {
        Self { ps, _ghost: PhantomData }
    }

    /// The tuple of segments, in the order they are tried.
    pub closed spec fn segments(self) -> P {
        self.ps
    }
}

/// Builds a branch from a tuple of segments.
pub fn branch<I, E, P: Into<Branch<I, E, P>>>(ps: P) -> (b: Branch<I, E, P>)
    ensures
        b.segments() == ps,
{
    Branch::new(ps)
}

/// A branch is determined by its segments: the one that `choose` picks for
/// `b.segments()` is `b` itself.
proof fn lemma_branch_determined_by_segments<I, ER, P>(b: Branch<I, ER, P>, ps: P)
    requires
        b.segments() == ps,
    ensures
        b == (choose|c: Branch<I, ER, P>| c.segments() == ps),
{
    let c = choose|c: Branch<I, ER, P>| c.segments() == ps;
    assert(c.ps == b.ps);
    assert(c._ghost == b._ghost);
}

impl<IN: Clone, OUT, ER, A, B> From<(A, B)> for Branch<IN, ER, (A, B)> where
    A: Parser<IN, Out = OUT, Error = Option<ER>>,
    B: Parser<IN, Out = OUT, Error = Option<ER>>,
 {
    fn from(ps: (A, B)) -> (r: Self) {
        let r = Self { ps, _ghost: PhantomData };
        proof {
            lemma_branch_determined_by_segments(r, ps);
        }
        r
    }
}

impl<IN: Clone, OUT, ER, A, B> FromSpecImpl<(A, B)> for Branch<IN, ER, (A, B)> where
    A: Parser<IN, Out = OUT, Error = Option<ER>>,
    B: Parser<IN, Out = OUT, Error = Option<ER>>,
 {
    open spec fn obeys_from_spec() -> bool {
        true
    }

    open spec fn from_spec(ps: (A, B)) -> Self {
        choose|b: Self| b.segments() == ps
    }
}

/// A branch between 2 segments with one output type.
impl<IN: Clone, OUT, ER, A, B> Parser<IN> for Branch<IN, ER, (A, B)> where
    A: Parser<IN, Out = OUT, Error = Option<ER>>,
    B: Parser<IN, Out = OUT, Error = Option<ER>>,
 {
    type Out = OUT;

    type Error = Option<ER>;

    open spec fn parse_requires(&self, input: IN) -> bool {
        let ps = self.segments();
        &&& accepts_clones(ps.0, input)
        &&& yields_on_clone(ps.0, input, Err(None))
            ==> accepts_clones(ps.1, input)
    }

    open spec fn parse_ensures(&self, input: IN, res: Result<(OUT, IN), Option<ER>>) -> bool {
        let ps = self.segments();
        match res {
            Err(None) => {
                &&& yields_on_clone(ps.0, input, Err(None))
                &&& yields_on_clone(ps.1, input, Err(None))
            },
            _ => {
                ||| yields_on_clone(ps.0, input, res)
                ||| yields_on_clone(ps.0, input, Err(None))
                    && yields_on_clone(ps.1, input, res)
            },
        }
    }

    fn parse(&self, txt: IN) -> (res: Result<(OUT, IN), Option<ER>>) {
        let c0 = txt.clone();
        let r0 = self.ps.0.parse(c0);
        assert(yields_on_clone(self.ps.0, txt, r0));
        match r0 {
            Err(None) => {},
            _ => return r0,
        }
        let c1 = txt.clone();
        let r1 = self.ps.1.parse(c1);
        assert(yields_on_clone(self.ps.1, txt, r1));
        match r1 {
            Err(None) => {},
            _ => return r1,
        }
        Err(None)
    }
}

/// Over inputs whose clones are equal, a branch of 2 deterministic
/// segments is deterministic.
pub proof fn lemma_branch2_deterministic<IN: Clone, OUT, ER, A, B>(b: Branch<IN, ER, (A, B)>)
    where
        A: Parser<IN, Out = OUT, Error = Option<ER>>,
        B: Parser<IN, Out = OUT, Error = Option<ER>>,
    requires
        clones_are_equal::<IN>(),
        deterministic::<IN, A>(b.segments().0),
        deterministic::<IN, B>(b.segments().1),
    ensures
        deterministic::<IN, Branch<IN, ER, (A, B)>>(b),
{
    lemma_clones_are_transparent::<IN, A>(b.segments().0);
    lemma_clones_are_transparent::<IN, B>(b.segments().1);
}

impl<IN: Clone, OUT, ER, A, B, C> From<(A, B, C)> for Branch<IN, ER, (A, B, C)> where
    A: Parser<IN, Out = OUT, Error = Option<ER>>,
    B: Parser<IN, Out = OUT, Error = Option<ER>>,
    C: Parser<IN, Out = OUT, Error = Option<ER>>,
 {
    fn from(ps: (A, B, C)) -> (r: Self) {
        let r = Self { ps, _ghost: PhantomData };
        proof {
            lemma_branch_determined_by_segments(r, ps);
        }
        r
    }
}

impl<IN: Clone, OUT, ER, A, B, C> FromSpecImpl<(A, B, C)> for Branch<IN, ER, (A, B, C)> where
    A: Parser<IN, Out = OUT, Error = Option<ER>>,
    B: Parser<IN, Out = OUT, Error = Option<ER>>,
    C: Parser<IN, Out = OUT, Error = Option<ER>>,
 {
    open spec fn obeys_from_spec() -> bool {
        true
    }

    open spec fn from_spec(ps: (A, B, C)) -> Self {
        choose|b: Self| b.segments() == ps
    }
}

/// A branch between 3 segments with one output type.
impl<IN: Clone, OUT, ER, A, B, C> Parser<IN> for Branch<IN, ER, (A, B, C)> where
    A: Parser<IN, Out = OUT, Error = Option<ER>>,
    B: Parser<IN, Out = OUT, Error = Option<ER>>,
    C: Parser<IN, Out = OUT, Error = Option<ER>>,
 {
    type Out = OUT;

    type Error = Option<ER>;

    open spec fn parse_requires(&self, input: IN) -> bool {
        let ps = self.segments();
        &&& accepts_clones(ps.0, input)
        &&& yields_on_clone(ps.0, input, Err(None))
            ==> accepts_clones(ps.1, input)
        &&& yields_on_clone(ps.0, input, Err(None))
            && yields_on_clone(ps.1, input, Err(None))
            ==> accepts_clones(ps.2, input)
    }

    open spec fn parse_ensures(&self, input: IN, res: Result<(OUT, IN), Option<ER>>) -> bool {
        let ps = self.segments();
        match res {
            Err(None) => {
                &&& yields_on_clone(ps.0, input, Err(None))
                &&& yields_on_clone(ps.1, input, Err(None))
                &&& yields_on_clone(ps.2, input, Err(None))
            },
            _ => {
                ||| yields_on_clone(ps.0, input, res)
                ||| yields_on_clone(ps.0, input, Err(None))
                    && yields_on_clone(ps.1, input, res)
                ||| yields_on_clone(ps.0, input, Err(None))
                    && yields_on_clone(ps.1, input, Err(None))
                    && yields_on_clone(ps.2, input, res)
            },
        }
    }

    fn parse(&self, txt: IN) -> (res: Result<(OUT, IN), Option<ER>>) {
        let c0 = txt.clone();
        let r0 = self.ps.0.parse(c0);
        assert(yields_on_clone(self.ps.0, txt, r0));
        match r0 {
            Err(None) => {},
            _ => return r0,
        }
        let c1 = txt.clone();
        let r1 = self.ps.1.parse(c1);
        assert(yields_on_clone(self.ps.1, txt, r1));
        match r1 {
            Err(None) => {},
            _ => return r1,
        }
        let c2 = txt.clone();
        let r2 = self.ps.2.parse(c2);
        assert(yields_on_clone(self.ps.2, txt, r2));
        match r2 {
            Err(None) => {},
            _ => return r2,
        }
        Err(None)
    }
}

/// Over inputs whose clones are equal, a branch of 3 deterministic
/// segments is deterministic.
pub proof fn lemma_branch3_deterministic<IN: Clone, OUT, ER, A, B, C>(b: Branch<IN, ER, (A, B, C)>)
    where
        A: Parser<IN, Out = OUT, Error = Option<ER>>,
        B: Parser<IN, Out = OUT, Error = Option<ER>>,
        C: Parser<IN, Out = OUT, Error = Option<ER>>,
    requires
        clones_are_equal::<IN>(),
        deterministic::<IN, A>(b.segments().0),
        deterministic::<IN, B>(b.segments().1),
        deterministic::<IN, C>(b.segments().2),
    ensures
        deterministic::<IN, Branch<IN, ER, (A, B, C)>>(b),
{
    lemma_clones_are_transparent::<IN, A>(b.segments().0);
    lemma_clones_are_transparent::<IN, B>(b.segments().1);
    lemma_clones_are_transparent::<IN, C>(b.segments().2);
}

impl<IN: Clone, OUT, ER, A, B, C, D> From<(A, B, C, D)> for Branch<IN, ER, (A, B, C, D)> where
    A: Parser<IN, Out = OUT, Error = Option<ER>>,
    B: Parser<IN, Out = OUT, Error = Option<ER>>,
    C: Parser<IN, Out = OUT, Error = Option<ER>>,
    D: Parser<IN, Out = OUT, Error = Option<ER>>,
 {
    fn from(ps: (A, B, C, D)) -> (r: Self) {
        let r = Self { ps, _ghost: PhantomData };
        proof {
            lemma_branch_determined_by_segments(r, ps);
        }
        r
    }
}

impl<IN: Clone, OUT, ER, A, B, C, D> FromSpecImpl<(A, B, C, D)> for Branch<IN, ER, (A, B, C, D)> where
    A: Parser<IN, Out = OUT, Error = Option<ER>>,
    B: Parser<IN, Out = OUT, Error = Option<ER>>,
    C: Parser<IN, Out = OUT, Error = Option<ER>>,
    D: Parser<IN, Out = OUT, Error = Option<ER>>,
 {
    open spec fn obeys_from_spec() -> bool {
        true
    }

    open spec fn from_spec(ps: (A, B, C, D)) -> Self {
        choose|b: Self| b.segments() == ps
    }
}

/// A branch between 4 segments with one output type.
impl<IN: Clone, OUT, ER, A, B, C, D> Parser<IN> for Branch<IN, ER, (A, B, C, D)> where
    A: Parser<IN, Out = OUT, Error = Option<ER>>,
    B: Parser<IN, Out = OUT, Error = Option<ER>>,
    C: Parser<IN, Out = OUT, Error = Option<ER>>,
    D: Parser<IN, Out = OUT, Error = Option<ER>>,
 {
    type Out = OUT;

    type Error = Option<ER>;

    open spec fn parse_requires(&self, input: IN) -> bool {
        let ps = self.segments();
        &&& accepts_clones(ps.0, input)
        &&& yields_on_clone(ps.0, input, Err(None))
            ==> accepts_clones(ps.1, input)
        &&& yields_on_clone(ps.0, input, Err(None))
            && yields_on_clone(ps.1, input, Err(None))
            ==> accepts_clones(ps.2, input)
        &&& yields_on_clone(ps.0, input, Err(None))
            && yields_on_clone(ps.1, input, Err(None))
            && yields_on_clone(ps.2, input, Err(None))
            ==> accepts_clones(ps.3, input)
    }

    open spec fn parse_ensures(&self, input: IN, res: Result<(OUT, IN), Option<ER>>) -> bool {
        let ps = self.segments();
        match res {
            Err(None) => {
                &&& yields_on_clone(ps.0, input, Err(None))
                &&& yields_on_clone(ps.1, input, Err(None))
                &&& yields_on_clone(ps.2, input, Err(None))
                &&& yields_on_clone(ps.3, input, Err(None))
            },
            _ => {
                ||| yields_on_clone(ps.0, input, res)
                ||| yields_on_clone(ps.0, input, Err(None))
                    && yields_on_clone(ps.1, input, res)
                ||| yields_on_clone(ps.0, input, Err(None))
                    && yields_on_clone(ps.1, input, Err(None))
                    && yields_on_clone(ps.2, input, res)
                ||| yields_on_clone(ps.0, input, Err(None))
                    && yields_on_clone(ps.1, input, Err(None))
                    && yields_on_clone(ps.2, input, Err(None))
                    && yields_on_clone(ps.3, input, res)
            },
        }
    }

    fn parse(&self, txt: IN) -> (res: Result<(OUT, IN), Option<ER>>) {
        let c0 = txt.clone();
        let r0 = self.ps.0.parse(c0);
        assert(yields_on_clone(self.ps.0, txt, r0));
        match r0 {
            Err(None) => {},
            _ => return r0,
        }
        let c1 = txt.clone();
        let r1 = self.ps.1.parse(c1);
        assert(yields_on_clone(self.ps.1, txt, r1));
        match r1 {
            Err(None) => {},
            _ => return r1,
        }
        let c2 = txt.clone();
        let r2 = self.ps.2.parse(c2);
        assert(yields_on_clone(self.ps.2, txt, r2));
        match r2 {
            Err(None) => {},
            _ => return r2,
        }
        let c3 = txt.clone();
        let r3 = self.ps.3.parse(c3);
        assert(yields_on_clone(self.ps.3, txt, r3));
        match r3 {
            Err(None) => {},
            _ => return r3,
        }
        Err(None)
    }
}

/// Over inputs whose clones are equal, a branch of 4 deterministic
/// segments is deterministic.
pub proof fn lemma_branch4_deterministic<IN: Clone, OUT, ER, A, B, C, D>(b: Branch<IN, ER, (A, B, C, D)>)
    where
        A: Parser<IN, Out = OUT, Error = Option<ER>>,
        B: Parser<IN, Out = OUT, Error = Option<ER>>,
        C: Parser<IN, Out = OUT, Error = Option<ER>>,
        D: Parser<IN, Out = OUT, Error = Option<ER>>,
    requires
        clones_are_equal::<IN>(),
        deterministic::<IN, A>(b.segments().0),
        deterministic::<IN, B>(b.segments().1),
        deterministic::<IN, C>(b.segments().2),
        deterministic::<IN, D>(b.segments().3),
    ensures
        deterministic::<IN, Branch<IN, ER, (A, B, C, D)>>(b),
{
    lemma_clones_are_transparent::<IN, A>(b.segments().0);
    lemma_clones_are_transparent::<IN, B>(b.segments().1);
    lemma_clones_are_transparent::<IN, C>(b.segments().2);
    lemma_clones_are_transparent::<IN, D>(b.segments().3);
}

impl<IN: Clone, OUT, ER, A, B, C, D, E> From<(A, B, C, D, E)> for Branch<IN, ER, (A, B, C, D, E)> where
    A: Parser<IN, Out = OUT, Error = Option<ER>>,
    B: Parser<IN, Out = OUT, Error = Option<ER>>,
    C: Parser<IN, Out = OUT, Error = Option<ER>>,
    D: Parser<IN, Out = OUT, Error = Option<ER>>,
    E: Parser<IN, Out = OUT, Error = Option<ER>>,
 {
    fn from(ps: (A, B, C, D, E)) -> (r: Self) {
        let r = Self { ps, _ghost: PhantomData };
        proof {
            lemma_branch_determined_by_segments(r, ps);
        }
        r
    }
}

impl<IN: Clone, OUT, ER, A, B, C, D, E> FromSpecImpl<(A, B, C, D, E)> for Branch<IN, ER, (A, B, C, D, E)> where
    A: Parser<IN, Out = OUT, Error = Option<ER>>,
    B: Parser<IN, Out = OUT, Error = Option<ER>>,
    C: Parser<IN, Out = OUT, Error = Option<ER>>,
    D: Parser<IN, Out = OUT, Error = Option<ER>>,
    E: Parser<IN, Out = OUT, Error = Option<ER>>,
 {
    open spec fn obeys_from_spec() -> bool {
        true
    }

    open spec fn from_spec(ps: (A, B, C, D, E)) -> Self {
        choose|b: Self| b.segments() == ps
    }
}

/// A branch between 5 segments with one output type.
impl<IN: Clone, OUT, ER, A, B, C, D, E> Parser<IN> for Branch<IN, ER, (A, B, C, D, E)> where
    A: Parser<IN, Out = OUT, Error = Option<ER>>,
    B: Parser<IN, Out = OUT, Error = Option<ER>>,
    C: Parser<IN, Out = OUT, Error = Option<ER>>,
    D: Parser<IN, Out = OUT, Error = Option<ER>>,
    E: Parser<IN, Out = OUT, Error = Option<ER>>,
 {
    type Out = OUT;

    type Error = Option<ER>;

    open spec fn parse_requires(&self, input: IN) -> bool {
        let ps = self.segments();
        &&& accepts_clones(ps.0, input)
        &&& yields_on_clone(ps.0, input, Err(None))
            ==> accepts_clones(ps.1, input)
        &&& yields_on_clone(ps.0, input, Err(None))
            && yields_on_clone(ps.1, input, Err(None))
            ==> accepts_clones(ps.2, input)
        &&& yields_on_clone(ps.0, input, Err(None))
            && yields_on_clone(ps.1, input, Err(None))
            && yields_on_clone(ps.2, input, Err(None))
            ==> accepts_clones(ps.3, input)
        &&& yields_on_clone(ps.0, input, Err(None))
            && yields_on_clone(ps.1, input, Err(None))
            && yields_on_clone(ps.2, input, Err(None))
            && yields_on_clone(ps.3, input, Err(None))
            ==> accepts_clones(ps.4, input)
    }

    open spec fn parse_ensures(&self, input: IN, res: Result<(OUT, IN), Option<ER>>) -> bool {
        let ps = self.segments();
        match res {
            Err(None) => {
                &&& yields_on_clone(ps.0, input, Err(None))
                &&& yields_on_clone(ps.1, input, Err(None))
                &&& yields_on_clone(ps.2, input, Err(None))
                &&& yields_on_clone(ps.3, input, Err(None))
                &&& yields_on_clone(ps.4, input, Err(None))
            },
            _ => {
                ||| yields_on_clone(ps.0, input, res)
                ||| yields_on_clone(ps.0, input, Err(None))
                    && yields_on_clone(ps.1, input, res)
                ||| yields_on_clone(ps.0, input, Err(None))
                    && yields_on_clone(ps.1, input, Err(None))
                    && yields_on_clone(ps.2, input, res)
                ||| yields_on_clone(ps.0, input, Err(None))
                    && yields_on_clone(ps.1, input, Err(None))
                    && yields_on_clone(ps.2, input, Err(None))
                    && yields_on_clone(ps.3, input, res)
                ||| yields_on_clone(ps.0, input, Err(None))
                    && yields_on_clone(ps.1, input, Err(None))
                    && yields_on_clone(ps.2, input, Err(None))
                    && yields_on_clone(ps.3, input, Err(None))
                    && yields_on_clone(ps.4, input, res)
            },
        }
    }

    fn parse(&self, txt: IN) -> (res: Result<(OUT, IN), Option<ER>>) {
        let c0 = txt.clone();
        let r0 = self.ps.0.parse(c0);
        assert(yields_on_clone(self.ps.0, txt, r0));
        match r0 {
            Err(None) => {},
            _ => return r0,
        }
        let c1 = txt.clone();
        let r1 = self.ps.1.parse(c1);
        assert(yields_on_clone(self.ps.1, txt, r1));
        match r1 {
            Err(None) => {},
            _ => return r1,
        }
        let c2 = txt.clone();
        let r2 = self.ps.2.parse(c2);
        assert(yields_on_clone(self.ps.2, txt, r2));
        match r2 {
            Err(None) => {},
            _ => return r2,
        }
        let c3 = txt.clone();
        let r3 = self.ps.3.parse(c3);
        assert(yields_on_clone(self.ps.3, txt, r3));
        match r3 {
            Err(None) => {},
            _ => return r3,
        }
        let c4 = txt.clone();
        let r4 = self.ps.4.parse(c4);
        assert(yields_on_clone(self.ps.4, txt, r4));
        match r4 {
            Err(None) => {},
            _ => return r4,
        }
        Err(None)
    }
}

/// Over inputs whose clones are equal, a branch of 5 deterministic
/// segments is deterministic.
pub proof fn lemma_branch5_deterministic<IN: Clone, OUT, ER, A, B, C, D, E>(b: Branch<IN, ER, (A, B, C, D, E)>)
    where
        A: Parser<IN, Out = OUT, Error = Option<ER>>,
        B: Parser<IN, Out = OUT, Error = Option<ER>>,
        C: Parser<IN, Out = OUT, Error = Option<ER>>,
        D: Parser<IN, Out = OUT, Error = Option<ER>>,
        E: Parser<IN, Out = OUT, Error = Option<ER>>,
    requires
        clones_are_equal::<IN>(),
        deterministic::<IN, A>(b.segments().0),
        deterministic::<IN, B>(b.segments().1),
        deterministic::<IN, C>(b.segments().2),
        deterministic::<IN, D>(b.segments().3),
        deterministic::<IN, E>(b.segments().4),
    ensures
        deterministic::<IN, Branch<IN, ER, (A, B, C, D, E)>>(b),
{
    lemma_clones_are_transparent::<IN, A>(b.segments().0);
    lemma_clones_are_transparent::<IN, B>(b.segments().1);
    lemma_clones_are_transparent::<IN, C>(b.segments().2);
    lemma_clones_are_transparent::<IN, D>(b.segments().3);
    lemma_clones_are_transparent::<IN, E>(b.segments().4);
}

impl<IN: Clone, OUT, ER, A, B, C, D, E, F> From<(A, B, C, D, E, F)> for Branch<IN, ER, (A, B, C, D, E, F)> where
    A: Parser<IN, Out = OUT, Error = Option<ER>>,
    B: Parser<IN, Out = OUT, Error = Option<ER>>,
    C: Parser<IN, Out = OUT, Error = Option<ER>>,
    D: Parser<IN, Out = OUT, Error = Option<ER>>,
    E: Parser<IN, Out = OUT, Error = Option<ER>>,
    F: Parser<IN, Out = OUT, Error = Option<ER>>,
 {
    fn from(ps: (A, B, C, D, E, F)) -> (r: Self) {
        let r = Self { ps, _ghost: PhantomData };
        proof {
            lemma_branch_determined_by_segments(r, ps);
        }
        r
    }
}

impl<IN: Clone, OUT, ER, A, B, C, D, E, F> FromSpecImpl<(A, B, C, D, E, F)> for Branch<IN, ER, (A, B, C, D, E, F)> where
    A: Parser<IN, Out = OUT, Error = Option<ER>>,
    B: Parser<IN, Out = OUT, Error = Option<ER>>,
    C: Parser<IN, Out = OUT, Error = Option<ER>>,
    D: Parser<IN, Out = OUT, Error = Option<ER>>,
    E: Parser<IN, Out = OUT, Error = Option<ER>>,
    F: Parser<IN, Out = OUT, Error = Option<ER>>,
 {
    open spec fn obeys_from_spec() -> bool {
        true
    }

    open spec fn from_spec(ps: (A, B, C, D, E, F)) -> Self {
        choose|b: Self| b.segments() == ps
    }
}

/// A branch between 6 segments with one output type.
impl<IN: Clone, OUT, ER, A, B, C, D, E, F> Parser<IN> for Branch<IN, ER, (A, B, C, D, E, F)> where
    A: Parser<IN, Out = OUT, Error = Option<ER>>,
    B: Parser<IN, Out = OUT, Error = Option<ER>>,
    C: Parser<IN, Out = OUT, Error = Option<ER>>,
    D: Parser<IN, Out = OUT, Error = Option<ER>>,
    E: Parser<IN, Out = OUT, Error = Option<ER>>,
    F: Parser<IN, Out = OUT, Error = Option<ER>>,
 {
    type Out = OUT;

    type Error = Option<ER>;

    open spec fn parse_requires(&self, input: IN) -> bool {
        let ps = self.segments();
        &&& accepts_clones(ps.0, input)
        &&& yields_on_clone(ps.0, input, Err(None))
            ==> accepts_clones(ps.1, input)
        &&& yields_on_clone(ps.0, input, Err(None))
            && yields_on_clone(ps.1, input, Err(None))
            ==> accepts_clones(ps.2, input)
        &&& yields_on_clone(ps.0, input, Err(None))
            && yields_on_clone(ps.1, input, Err(None))
            && yields_on_clone(ps.2, input, Err(None))
            ==> accepts_clones(ps.3, input)
        &&& yields_on_clone(ps.0, input, Err(None))
            && yields_on_clone(ps.1, input, Err(None))
            && yields_on_clone(ps.2, input, Err(None))
            && yields_on_clone(ps.3, input, Err(None))
            ==> accepts_clones(ps.4, input)
        &&& yields_on_clone(ps.0, input, Err(None))
            && yields_on_clone(ps.1, input, Err(None))
            && yields_on_clone(ps.2, input, Err(None))
            && yields_on_clone(ps.3, input, Err(None))
            && yields_on_clone(ps.4, input, Err(None))
            ==> accepts_clones(ps.5, input)
    }

    open spec fn parse_ensures(&self, input: IN, res: Result<(OUT, IN), Option<ER>>) -> bool {
        let ps = self.segments();
        match res {
            Err(None) => {
                &&& yields_on_clone(ps.0, input, Err(None))
                &&& yields_on_clone(ps.1, input, Err(None))
                &&& yields_on_clone(ps.2, input, Err(None))
                &&& yields_on_clone(ps.3, input, Err(None))
                &&& yields_on_clone(ps.4, input, Err(None))
                &&& yields_on_clone(ps.5, input, Err(None))
            },
            _ => {
                ||| yields_on_clone(ps.0, input, res)
                ||| yields_on_clone(ps.0, input, Err(None))
                    && yields_on_clone(ps.1, input, res)
                ||| yields_on_clone(ps.0, input, Err(None))
                    && yields_on_clone(ps.1, input, Err(None))
                    && yields_on_clone(ps.2, input, res)
                ||| yields_on_clone(ps.0, input, Err(None))
                    && yields_on_clone(ps.1, input, Err(None))
                    && yields_on_clone(ps.2, input, Err(None))
                    && yields_on_clone(ps.3, input, res)
                ||| yields_on_clone(ps.0, input, Err(None))
                    && yields_on_clone(ps.1, input, Err(None))
                    && yields_on_clone(ps.2, input, Err(None))
                    && yields_on_clone(ps.3, input, Err(None))
                    && yields_on_clone(ps.4, input, res)
                ||| yields_on_clone(ps.0, input, Err(None))
                    && yields_on_clone(ps.1, input, Err(None))
                    && yields_on_clone(ps.2, input, Err(None))
                    && yields_on_clone(ps.3, input, Err(None))
                    && yields_on_clone(ps.4, input, Err(None))
                    && yields_on_clone(ps.5, input, res)
            },
        }
    }

    fn parse(&self, txt: IN) -> (res: Result<(OUT, IN), Option<ER>>) {
        let c0 = txt.clone();
        let r0 = self.ps.0.parse(c0);
        assert(yields_on_clone(self.ps.0, txt, r0));
        match r0 {
            Err(None) => {},
            _ => return r0,
        }
        let c1 = txt.clone();
        let r1 = self.ps.1.parse(c1);
        assert(yields_on_clone(self.ps.1, txt, r1));
        match r1 {
            Err(None) => {},
            _ => return r1,
        }
        let c2 = txt.clone();
        let r2 = self.ps.2.parse(c2);
        assert(yields_on_clone(self.ps.2, txt, r2));
        match r2 {
            Err(None) => {},
            _ => return r2,
        }
        let c3 = txt.clone();
        let r3 = self.ps.3.parse(c3);
        assert(yields_on_clone(self.ps.3, txt, r3));
        match r3 {
            Err(None) => {},
            _ => return r3,
        }
        let c4 = txt.clone();
        let r4 = self.ps.4.parse(c4);
        assert(yields_on_clone(self.ps.4, txt, r4));
        match r4 {
            Err(None) => {},
            _ => return r4,
        }
        let c5 = txt.clone();
        let r5 = self.ps.5.parse(c5);
        assert(yields_on_clone(self.ps.5, txt, r5));
        match r5 {
            Err(None) => {},
            _ => return r5,
        }
        Err(None)
    }
}

/// Over inputs whose clones are equal, a branch of 6 deterministic
/// segments is deterministic.
pub proof fn lemma_branch6_deterministic<IN: Clone, OUT, ER, A, B, C, D, E, F>(b: Branch<IN, ER, (A, B, C, D, E, F)>)
    where
        A: Parser<IN, Out = OUT, Error = Option<ER>>,
        B: Parser<IN, Out = OUT, Error = Option<ER>>,
        C: Parser<IN, Out = OUT, Error = Option<ER>>,
        D: Parser<IN, Out = OUT, Error = Option<ER>>,
        E: Parser<IN, Out = OUT, Error = Option<ER>>,
        F: Parser<IN, Out = OUT, Error = Option<ER>>,
    requires
        clones_are_equal::<IN>(),
        deterministic::<IN, A>(b.segments().0),
        deterministic::<IN, B>(b.segments().1),
        deterministic::<IN, C>(b.segments().2),
        deterministic::<IN, D>(b.segments().3),
        deterministic::<IN, E>(b.segments().4),
        deterministic::<IN, F>(b.segments().5),
    ensures
        deterministic::<IN, Branch<IN, ER, (A, B, C, D, E, F)>>(b),
{
    lemma_clones_are_transparent::<IN, A>(b.segments().0);
    lemma_clones_are_transparent::<IN, B>(b.segments().1);
    lemma_clones_are_transparent::<IN, C>(b.segments().2);
    lemma_clones_are_transparent::<IN, D>(b.segments().3);
    lemma_clones_are_transparent::<IN, E>(b.segments().4);
    lemma_clones_are_transparent::<IN, F>(b.segments().5);
}

impl<IN: Clone, OUT, ER, A, B, C, D, E, F, G> From<(A, B, C, D, E, F, G)> for Branch<IN, ER, (A, B, C, D, E, F, G)> where
    A: Parser<IN, Out = OUT, Error = Option<ER>>,
    B: Parser<IN, Out = OUT, Error = Option<ER>>,
    C: Parser<IN, Out = OUT, Error = Option<ER>>,
    D: Parser<IN, Out = OUT, Error = Option<ER>>,
    E: Parser<IN, Out = OUT, Error = Option<ER>>,
    F: Parser<IN, Out = OUT, Error = Option<ER>>,
    G: Parser<IN, Out = OUT, Error = Option<ER>>,
 {
    fn from(ps: (A, B, C, D, E, F, G)) -> (r: Self) {
        let r = Self { ps, _ghost: PhantomData };
        proof {
            lemma_branch_determined_by_segments(r, ps);
        }
        r
    }
}

impl<IN: Clone, OUT, ER, A, B, C, D, E, F, G> FromSpecImpl<(A, B, C, D, E, F, G)> for Branch<IN, ER, (A, B, C, D, E, F, G)> where
    A: Parser<IN, Out = OUT, Error = Option<ER>>,
    B: Parser<IN, Out = OUT, Error = Option<ER>>,
    C: Parser<IN, Out = OUT, Error = Option<ER>>,
    D: Parser<IN, Out = OUT, Error = Option<ER>>,
    E: Parser<IN, Out = OUT, Error = Option<ER>>,
    F: Parser<IN, Out = OUT, Error = Option<ER>>,
    G: Parser<IN, Out = OUT, Error = Option<ER>>,
 {
    open spec fn obeys_from_spec() -> bool {
        true
    }

    open spec fn from_spec(ps: (A, B, C, D, E, F, G)) -> Self {
        choose|b: Self| b.segments() == ps
    }
}

/// A branch between 7 segments with one output type.
impl<IN: Clone, OUT, ER, A, B, C, D, E, F, G> Parser<IN> for Branch<IN, ER, (A, B, C, D, E, F, G)> where
    A: Parser<IN, Out = OUT, Error = Option<ER>>,
    B: Parser<IN, Out = OUT, Error = Option<ER>>,
    C: Parser<IN, Out = OUT, Error = Option<ER>>,
    D: Parser<IN, Out = OUT, Error = Option<ER>>,
    E: Parser<IN, Out = OUT, Error = Option<ER>>,
    F: Parser<IN, Out = OUT, Error = Option<ER>>,
    G: Parser<IN, Out = OUT, Error = Option<ER>>,
 {
    type Out = OUT;

    type Error = Option<ER>;

    open spec fn parse_requires(&self, input: IN) -> bool {
        let ps = self.segments();
        &&& accepts_clones(ps.0, input)
        &&& yields_on_clone(ps.0, input, Err(None))
            ==> accepts_clones(ps.1, input)
        &&& yields_on_clone(ps.0, input, Err(None))
            && yields_on_clone(ps.1, input, Err(None))
            ==> accepts_clones(ps.2, input)
        &&& yields_on_clone(ps.0, input, Err(None))
            && yields_on_clone(ps.1, input, Err(None))
            && yields_on_clone(ps.2, input, Err(None))
            ==> accepts_clones(ps.3, input)
        &&& yields_on_clone(ps.0, input, Err(None))
            && yields_on_clone(ps.1, input, Err(None))
            && yields_on_clone(ps.2, input, Err(None))
            && yields_on_clone(ps.3, input, Err(None))
            ==> accepts_clones(ps.4, input)
        &&& yields_on_clone(ps.0, input, Err(None))
            && yields_on_clone(ps.1, input, Err(None))
            && yields_on_clone(ps.2, input, Err(None))
            && yields_on_clone(ps.3, input, Err(None))
            && yields_on_clone(ps.4, input, Err(None))
            ==> accepts_clones(ps.5, input)
        &&& yields_on_clone(ps.0, input, Err(None))
            && yields_on_clone(ps.1, input, Err(None))
            && yields_on_clone(ps.2, input, Err(None))
            && yields_on_clone(ps.3, input, Err(None))
            && yields_on_clone(ps.4, input, Err(None))
            && yields_on_clone(ps.5, input, Err(None))
            ==> accepts_clones(ps.6, input)
    }

    open spec fn parse_ensures(&self, input: IN, res: Result<(OUT, IN), Option<ER>>) -> bool {
        let ps = self.segments();
        match res {
            Err(None) => {
                &&& yields_on_clone(ps.0, input, Err(None))
                &&& yields_on_clone(ps.1, input, Err(None))
                &&& yields_on_clone(ps.2, input, Err(None))
                &&& yields_on_clone(ps.3, input, Err(None))
                &&& yields_on_clone(ps.4, input, Err(None))
                &&& yields_on_clone(ps.5, input, Err(None))
                &&& yields_on_clone(ps.6, input, Err(None))
            },
            _ => {
                ||| yields_on_clone(ps.0, input, res)
                ||| yields_on_clone(ps.0, input, Err(None))
                    && yields_on_clone(ps.1, input, res)
                ||| yields_on_clone(ps.0, input, Err(None))
                    && yields_on_clone(ps.1, input, Err(None))
                    && yields_on_clone(ps.2, input, res)
                ||| yields_on_clone(ps.0, input, Err(None))
                    && yields_on_clone(ps.1, input, Err(None))
                    && yields_on_clone(ps.2, input, Err(None))
                    && yields_on_clone(ps.3, input, res)
                ||| yields_on_clone(ps.0, input, Err(None))
                    && yields_on_clone(ps.1, input, Err(None))
                    && yields_on_clone(ps.2, input, Err(None))
                    && yields_on_clone(ps.3, input, Err(None))
                    && yields_on_clone(ps.4, input, res)
                ||| yields_on_clone(ps.0, input, Err(None))
                    && yields_on_clone(ps.1, input, Err(None))
                    && yields_on_clone(ps.2, input, Err(None))
                    && yields_on_clone(ps.3, input, Err(None))
                    && yields_on_clone(ps.4, input, Err(None))
                    && yields_on_clone(ps.5, input, res)
                ||| yields_on_clone(ps.0, input, Err(None))
                    && yields_on_clone(ps.1, input, Err(None))
                    && yields_on_clone(ps.2, input, Err(None))
                    && yields_on_clone(ps.3, input, Err(None))
                    && yields_on_clone(ps.4, input, Err(None))
                    && yields_on_clone(ps.5, input, Err(None))
                    && yields_on_clone(ps.6, input, res)
            },
        }
    }

    fn parse(&self, txt: IN) -> (res: Result<(OUT, IN), Option<ER>>) {
        let c0 = txt.clone();
        let r0 = self.ps.0.parse(c0);
        assert(yields_on_clone(self.ps.0, txt, r0));
        match r0 {
            Err(None) => {},
            _ => return r0,
        }
        let c1 = txt.clone();
        let r1 = self.ps.1.parse(c1);
        assert(yields_on_clone(self.ps.1, txt, r1));
        match r1 {
            Err(None) => {},
            _ => return r1,
        }
        let c2 = txt.clone();
        let r2 = self.ps.2.parse(c2);
        assert(yields_on_clone(self.ps.2, txt, r2));
        match r2 {
            Err(None) => {},
            _ => return r2,
        }
        let c3 = txt.clone();
        let r3 = self.ps.3.parse(c3);
        assert(yields_on_clone(self.ps.3, txt, r3));
        match r3 {
            Err(None) => {},
            _ => return r3,
        }
        let c4 = txt.clone();
        let r4 = self.ps.4.parse(c4);
        assert(yields_on_clone(self.ps.4, txt, r4));
        match r4 {
            Err(None) => {},
            _ => return r4,
        }
        let c5 = txt.clone();
        let r5 = self.ps.5.parse(c5);
        assert(yields_on_clone(self.ps.5, txt, r5));
        match r5 {
            Err(None) => {},
            _ => return r5,
        }
        let c6 = txt.clone();
        let r6 = self.ps.6.parse(c6);
        assert(yields_on_clone(self.ps.6, txt, r6));
        match r6 {
            Err(None) => {},
            _ => return r6,
        }
        Err(None)
    }
}

/// Over inputs whose clones are equal, a branch of 7 deterministic
/// segments is deterministic.
pub proof fn lemma_branch7_deterministic<IN: Clone, OUT, ER, A, B, C, D, E, F, G>(b: Branch<IN, ER, (A, B, C, D, E, F, G)>)
    where
        A: Parser<IN, Out = OUT, Error = Option<ER>>,
        B: Parser<IN, Out = OUT, Error = Option<ER>>,
        C: Parser<IN, Out = OUT, Error = Option<ER>>,
        D: Parser<IN, Out = OUT, Error = Option<ER>>,
        E: Parser<IN, Out = OUT, Error = Option<ER>>,
        F: Parser<IN, Out = OUT, Error = Option<ER>>,
        G: Parser<IN, Out = OUT, Error = Option<ER>>,
    requires
        clones_are_equal::<IN>(),
        deterministic::<IN, A>(b.segments().0),
        deterministic::<IN, B>(b.segments().1),
        deterministic::<IN, C>(b.segments().2),
        deterministic::<IN, D>(b.segments().3),
        deterministic::<IN, E>(b.segments().4),
        deterministic::<IN, F>(b.segments().5),
        deterministic::<IN, G>(b.segments().6),
    ensures
        deterministic::<IN, Branch<IN, ER, (A, B, C, D, E, F, G)>>(b),
{
    lemma_clones_are_transparent::<IN, A>(b.segments().0);
    lemma_clones_are_transparent::<IN, B>(b.segments().1);
    lemma_clones_are_transparent::<IN, C>(b.segments().2);
    lemma_clones_are_transparent::<IN, D>(b.segments().3);
    lemma_clones_are_transparent::<IN, E>(b.segments().4);
    lemma_clones_are_transparent::<IN, F>(b.segments().5);
    lemma_clones_are_transparent::<IN, G>(b.segments().6);
}

impl<IN: Clone, OUT, ER, A, B, C, D, E, F, G, H> From<(A, B, C, D, E, F, G, H)> for Branch<IN, ER, (A, B, C, D, E, F, G, H)> where
    A: Parser<IN, Out = OUT, Error = Option<ER>>,
    B: Parser<IN, Out = OUT, Error = Option<ER>>,
    C: Parser<IN, Out = OUT, Error = Option<ER>>,
    D: Parser<IN, Out = OUT, Error = Option<ER>>,
    E: Parser<IN, Out = OUT, Error = Option<ER>>,
    F: Parser<IN, Out = OUT, Error = Option<ER>>,
    G: Parser<IN, Out = OUT, Error = Option<ER>>,
    H: Parser<IN, Out = OUT, Error = Option<ER>>,
 {
    fn from(ps: (A, B, C, D, E, F, G, H)) -> (r: Self) {
        let r = Self { ps, _ghost: PhantomData };
        proof {
            lemma_branch_determined_by_segments(r, ps);
        }
        r
    }
}

impl<IN: Clone, OUT, ER, A, B, C, D, E, F, G, H> FromSpecImpl<(A, B, C, D, E, F, G, H)> for Branch<IN, ER, (A, B, C, D, E, F, G, H)> where
    A: Parser<IN, Out = OUT, Error = Option<ER>>,
    B: Parser<IN, Out = OUT, Error = Option<ER>>,
    C: Parser<IN, Out = OUT, Error = Option<ER>>,
    D: Parser<IN, Out = OUT, Error = Option<ER>>,
    E: Parser<IN, Out = OUT, Error = Option<ER>>,
    F: Parser<IN, Out = OUT, Error = Option<ER>>,
    G: Parser<IN, Out = OUT, Error = Option<ER>>,
    H: Parser<IN, Out = OUT, Error = Option<ER>>,
 {
    open spec fn obeys_from_spec() -> bool {
        true
    }

    open spec fn from_spec(ps: (A, B, C, D, E, F, G, H)) -> Self {
        choose|b: Self| b.segments() == ps
    }
}

/// A branch between 8 segments with one output type.
impl<IN: Clone, OUT, ER, A, B, C, D, E, F, G, H> Parser<IN> for Branch<IN, ER, (A, B, C, D, E, F, G, H)> where
    A: Parser<IN, Out = OUT, Error = Option<ER>>,
    B: Parser<IN, Out = OUT, Error = Option<ER>>,
    C: Parser<IN, Out = OUT, Error = Option<ER>>,
    D: Parser<IN, Out = OUT, Error = Option<ER>>,
    E: Parser<IN, Out = OUT, Error = Option<ER>>,
    F: Parser<IN, Out = OUT, Error = Option<ER>>,
    G: Parser<IN, Out = OUT, Error = Option<ER>>,
    H: Parser<IN, Out = OUT, Error = Option<ER>>,
 {
    type Out = OUT;

    type Error = Option<ER>;

    open spec fn parse_requires(&self, input: IN) -> bool {
        let ps = self.segments();
        &&& accepts_clones(ps.0, input)
        &&& yields_on_clone(ps.0, input, Err(None))
            ==> accepts_clones(ps.1, input)
        &&& yields_on_clone(ps.0, input, Err(None))
            && yields_on_clone(ps.1, input, Err(None))
            ==> accepts_clones(ps.2, input)
        &&& yields_on_clone(ps.0, input, Err(None))
            && yields_on_clone(ps.1, input, Err(None))
            && yields_on_clone(ps.2, input, Err(None))
            ==> accepts_clones(ps.3, input)
        &&& yields_on_clone(ps.0, input, Err(None))
            && yields_on_clone(ps.1, input, Err(None))
            && yields_on_clone(ps.2, input, Err(None))
            && yields_on_clone(ps.3, input, Err(None))
            ==> accepts_clones(ps.4, input)
        &&& yields_on_clone(ps.0, input, Err(None))
            && yields_on_clone(ps.1, input, Err(None))
            && yields_on_clone(ps.2, input, Err(None))
            && yields_on_clone(ps.3, input, Err(None))
            && yields_on_clone(ps.4, input, Err(None))
            ==> accepts_clones(ps.5, input)
        &&& yields_on_clone(ps.0, input, Err(None))
            && yields_on_clone(ps.1, input, Err(None))
            && yields_on_clone(ps.2, input, Err(None))
            && yields_on_clone(ps.3, input, Err(None))
            && yields_on_clone(ps.4, input, Err(None))
            && yields_on_clone(ps.5, input, Err(None))
            ==> accepts_clones(ps.6, input)
        &&& yields_on_clone(ps.0, input, Err(None))
            && yields_on_clone(ps.1, input, Err(None))
            && yields_on_clone(ps.2, input, Err(None))
            && yields_on_clone(ps.3, input, Err(None))
            && yields_on_clone(ps.4, input, Err(None))
            && yields_on_clone(ps.5, input, Err(None))
            && yields_on_clone(ps.6, input, Err(None))
            ==> accepts_clones(ps.7, input)
    }

    open spec fn parse_ensures(&self, input: IN, res: Result<(OUT, IN), Option<ER>>) -> bool {
        let ps = self.segments();
        match res {
            Err(None) => {
                &&& yields_on_clone(ps.0, input, Err(None))
                &&& yields_on_clone(ps.1, input, Err(None))
                &&& yields_on_clone(ps.2, input, Err(None))
                &&& yields_on_clone(ps.3, input, Err(None))
                &&& yields_on_clone(ps.4, input, Err(None))
                &&& yields_on_clone(ps.5, input, Err(None))
                &&& yields_on_clone(ps.6, input, Err(None))
                &&& yields_on_clone(ps.7, input, Err(None))
            },
            _ => {
                ||| yields_on_clone(ps.0, input, res)
                ||| yields_on_clone(ps.0, input, Err(None))
                    && yields_on_clone(ps.1, input, res)
                ||| yields_on_clone(ps.0, input, Err(None))
                    && yields_on_clone(ps.1, input, Err(None))
                    && yields_on_clone(ps.2, input, res)
                ||| yields_on_clone(ps.0, input, Err(None))
                    && yields_on_clone(ps.1, input, Err(None))
                    && yields_on_clone(ps.2, input, Err(None))
                    && yields_on_clone(ps.3, input, res)
                ||| yields_on_clone(ps.0, input, Err(None))
                    && yields_on_clone(ps.1, input, Err(None))
                    && yields_on_clone(ps.2, input, Err(None))
                    && yields_on_clone(ps.3, input, Err(None))
                    && yields_on_clone(ps.4, input, res)
                ||| yields_on_clone(ps.0, input, Err(None))
                    && yields_on_clone(ps.1, input, Err(None))
                    && yields_on_clone(ps.2, input, Err(None))
                    && yields_on_clone(ps.3, input, Err(None))
                    && yields_on_clone(ps.4, input, Err(None))
                    && yields_on_clone(ps.5, input, res)
                ||| yields_on_clone(ps.0, input, Err(None))
                    && yields_on_clone(ps.1, input, Err(None))
                    && yields_on_clone(ps.2, input, Err(None))
                    && yields_on_clone(ps.3, input, Err(None))
                    && yields_on_clone(ps.4, input, Err(None))
                    && yields_on_clone(ps.5, input, Err(None))
                    && yields_on_clone(ps.6, input, res)
                ||| yields_on_clone(ps.0, input, Err(None))
                    && yields_on_clone(ps.1, input, Err(None))
                    && yields_on_clone(ps.2, input, Err(None))
                    && yields_on_clone(ps.3, input, Err(None))
                    && yields_on_clone(ps.4, input, Err(None))
                    && yields_on_clone(ps.5, input, Err(None))
                    && yields_on_clone(ps.6, input, Err(None))
                    && yields_on_clone(ps.7, input, res)
            },
        }
    }

    fn parse(&self, txt: IN) -> (res: Result<(OUT, IN), Option<ER>>) {
        let c0 = txt.clone();
        let r0 = self.ps.0.parse(c0);
        assert(yields_on_clone(self.ps.0, txt, r0));
        match r0 {
            Err(None) => {},
            _ => return r0,
        }
        let c1 = txt.clone();
        let r1 = self.ps.1.parse(c1);
        assert(yields_on_clone(self.ps.1, txt, r1));
        match r1 {
            Err(None) => {},
            _ => return r1,
        }
        let c2 = txt.clone();
        let r2 = self.ps.2.parse(c2);
        assert(yields_on_clone(self.ps.2, txt, r2));
        match r2 {
            Err(None) => {},
            _ => return r2,
        }
        let c3 = txt.clone();
        let r3 = self.ps.3.parse(c3);
        assert(yields_on_clone(self.ps.3, txt, r3));
        match r3 {
            Err(None) => {},
            _ => return r3,
        }
        let c4 = txt.clone();
        let r4 = self.ps.4.parse(c4);
        assert(yields_on_clone(self.ps.4, txt, r4));
        match r4 {
            Err(None) => {},
            _ => return r4,
        }
        let c5 = txt.clone();
        let r5 = self.ps.5.parse(c5);
        assert(yields_on_clone(self.ps.5, txt, r5));
        match r5 {
            Err(None) => {},
            _ => return r5,
        }
        let c6 = txt.clone();
        let r6 = self.ps.6.parse(c6);
        assert(yields_on_clone(self.ps.6, txt, r6));
        match r6 {
            Err(None) => {},
            _ => return r6,
        }
        let c7 = txt.clone();
        let r7 = self.ps.7.parse(c7);
        assert(yields_on_clone(self.ps.7, txt, r7));
        match r7 {
            Err(None) => {},
            _ => return r7,
        }
        Err(None)
    }
}

/// Over inputs whose clones are equal, a branch of 8 deterministic
/// segments is deterministic.
pub proof fn lemma_branch8_deterministic<IN: Clone, OUT, ER, A, B, C, D, E, F, G, H>(b: Branch<IN, ER, (A, B, C, D, E, F, G, H)>)
    where
        A: Parser<IN, Out = OUT, Error = Option<ER>>,
        B: Parser<IN, Out = OUT, Error = Option<ER>>,
        C: Parser<IN, Out = OUT, Error = Option<ER>>,
        D: Parser<IN, Out = OUT, Error = Option<ER>>,
        E: Parser<IN, Out = OUT, Error = Option<ER>>,
        F: Parser<IN, Out = OUT, Error = Option<ER>>,
        G: Parser<IN, Out = OUT, Error = Option<ER>>,
        H: Parser<IN, Out = OUT, Error = Option<ER>>,
    requires
        clones_are_equal::<IN>(),
        deterministic::<IN, A>(b.segments().0),
        deterministic::<IN, B>(b.segments().1),
        deterministic::<IN, C>(b.segments().2),
        deterministic::<IN, D>(b.segments().3),
        deterministic::<IN, E>(b.segments().4),
        deterministic::<IN, F>(b.segments().5),
        deterministic::<IN, G>(b.segments().6),
        deterministic::<IN, H>(b.segments().7),
    ensures
        deterministic::<IN, Branch<IN, ER, (A, B, C, D, E, F, G, H)>>(b),
{
    lemma_clones_are_transparent::<IN, A>(b.segments().0);
    lemma_clones_are_transparent::<IN, B>(b.segments().1);
    lemma_clones_are_transparent::<IN, C>(b.segments().2);
    lemma_clones_are_transparent::<IN, D>(b.segments().3);
    lemma_clones_are_transparent::<IN, E>(b.segments().4);
    lemma_clones_are_transparent::<IN, F>(b.segments().5);
    lemma_clones_are_transparent::<IN, G>(b.segments().6);
    lemma_clones_are_transparent::<IN, H>(b.segments().7);
}

impl<IN: Clone, OUT, ER, A, B, C, D, E, F, G, H, I> From<(A, B, C, D, E, F, G, H, I)> for Branch<IN, ER, (A, B, C, D, E, F, G, H, I)> where
    A: Parser<IN, Out = OUT, Error = Option<ER>>,
    B: Parser<IN, Out = OUT, Error = Option<ER>>,
    C: Parser<IN, Out = OUT, Error = Option<ER>>,
    D: Parser<IN, Out = OUT, Error = Option<ER>>,
    E: Parser<IN, Out = OUT, Error = Option<ER>>,
    F: Parser<IN, Out = OUT, Error = Option<ER>>,
    G: Parser<IN, Out = OUT, Error = Option<ER>>,
    H: Parser<IN, Out = OUT, Error = Option<ER>>,
    I: Parser<IN, Out = OUT, Error = Option<ER>>,
 {
    fn from(ps: (A, B, C, D, E, F, G, H, I)) -> (r: Self) {
        let r = Self { ps, _ghost: PhantomData };
        proof {
            lemma_branch_determined_by_segments(r, ps);
        }
        r
    }
}

impl<IN: Clone, OUT, ER, A, B, C, D, E, F, G, H, I> FromSpecImpl<(A, B, C, D, E, F, G, H, I)> for Branch<IN, ER, (A, B, C, D, E, F, G, H, I)> where
    A: Parser<IN, Out = OUT, Error = Option<ER>>,
    B: Parser<IN, Out = OUT, Error = Option<ER>>,
    C: Parser<IN, Out = OUT, Error = Option<ER>>,
    D: Parser<IN, Out = OUT, Error = Option<ER>>,
    E: Parser<IN, Out = OUT, Error = Option<ER>>,
    F: Parser<IN, Out = OUT, Error = Option<ER>>,
    G: Parser<IN, Out = OUT, Error = Option<ER>>,
    H: Parser<IN, Out = OUT, Error = Option<ER>>,
    I: Parser<IN, Out = OUT, Error = Option<ER>>,
 {
    open spec fn obeys_from_spec() -> bool {
        true
    }

    open spec fn from_spec(ps: (A, B, C, D, E, F, G, H, I)) -> Self {
        choose|b: Self| b.segments() == ps
    }
}

/// A branch between 9 segments with one output type.
impl<IN: Clone, OUT, ER, A, B, C, D, E, F, G, H, I> Parser<IN> for Branch<IN, ER, (A, B, C, D, E, F, G, H, I)> where
    A: Parser<IN, Out = OUT, Error = Option<ER>>,
    B: Parser<IN, Out = OUT, Error = Option<ER>>,
    C: Parser<IN, Out = OUT, Error = Option<ER>>,
    D: Parser<IN, Out = OUT, Error = Option<ER>>,
    E: Parser<IN, Out = OUT, Error = Option<ER>>,
    F: Parser<IN, Out = OUT, Error = Option<ER>>,
    G: Parser<IN, Out = OUT, Error = Option<ER>>,
    H: Parser<IN, Out = OUT, Error = Option<ER>>,
    I: Parser<IN, Out = OUT, Error = Option<ER>>,
 {
    type Out = OUT;

    type Error = Option<ER>;

    open spec fn parse_requires(&self, input: IN) -> bool {
        let ps = self.segments();
        &&& accepts_clones(ps.0, input)
        &&& yields_on_clone(ps.0, input, Err(None))
            ==> accepts_clones(ps.1, input)
        &&& yields_on_clone(ps.0, input, Err(None))
            && yields_on_clone(ps.1, input, Err(None))
            ==> accepts_clones(ps.2, input)
        &&& yields_on_clone(ps.0, input, Err(None))
            && yields_on_clone(ps.1, input, Err(None))
            && yields_on_clone(ps.2, input, Err(None))
            ==> accepts_clones(ps.3, input)
        &&& yields_on_clone(ps.0, input, Err(None))
            && yields_on_clone(ps.1, input, Err(None))
            && yields_on_clone(ps.2, input, Err(None))
            && yields_on_clone(ps.3, input, Err(None))
            ==> accepts_clones(ps.4, input)
        &&& yields_on_clone(ps.0, input, Err(None))
            && yields_on_clone(ps.1, input, Err(None))
            && yields_on_clone(ps.2, input, Err(None))
            && yields_on_clone(ps.3, input, Err(None))
            && yields_on_clone(ps.4, input, Err(None))
            ==> accepts_clones(ps.5, input)
        &&& yields_on_clone(ps.0, input, Err(None))
            && yields_on_clone(ps.1, input, Err(None))
            && yields_on_clone(ps.2, input, Err(None))
            && yields_on_clone(ps.3, input, Err(None))
            && yields_on_clone(ps.4, input, Err(None))
            && yields_on_clone(ps.5, input, Err(None))
            ==> accepts_clones(ps.6, input)
        &&& yields_on_clone(ps.0, input, Err(None))
            && yields_on_clone(ps.1, input, Err(None))
            && yields_on_clone(ps.2, input, Err(None))
            && yields_on_clone(ps.3, input, Err(None))
            && yields_on_clone(ps.4, input, Err(None))
            && yields_on_clone(ps.5, input, Err(None))
            && yields_on_clone(ps.6, input, Err(None))
            ==> accepts_clones(ps.7, input)
        &&& yields_on_clone(ps.0, input, Err(None))
            && yields_on_clone(ps.1, input, Err(None))
            && yields_on_clone(ps.2, input, Err(None))
            && yields_on_clone(ps.3, input, Err(None))
            && yields_on_clone(ps.4, input, Err(None))
            && yields_on_clone(ps.5, input, Err(None))
            && yields_on_clone(ps.6, input, Err(None))
            && yields_on_clone(ps.7, input, Err(None))
            ==> accepts_clones(ps.8, input)
    }

    open spec fn parse_ensures(&self, input: IN, res: Result<(OUT, IN), Option<ER>>) -> bool {
        let ps = self.segments();
        match res {
            Err(None) => {
                &&& yields_on_clone(ps.0, input, Err(None))
                &&& yields_on_clone(ps.1, input, Err(None))
                &&& yields_on_clone(ps.2, input, Err(None))
                &&& yields_on_clone(ps.3, input, Err(None))
                &&& yields_on_clone(ps.4, input, Err(None))
                &&& yields_on_clone(ps.5, input, Err(None))
                &&& yields_on_clone(ps.6, input, Err(None))
                &&& yields_on_clone(ps.7, input, Err(None))
                &&& yields_on_clone(ps.8, input, Err(None))
            },
            _ => {
                ||| yields_on_clone(ps.0, input, res)
                ||| yields_on_clone(ps.0, input, Err(None))
                    && yields_on_clone(ps.1, input, res)
                ||| yields_on_clone(ps.0, input, Err(None))
                    && yields_on_clone(ps.1, input, Err(None))
                    && yields_on_clone(ps.2, input, res)
                ||| yields_on_clone(ps.0, input, Err(None))
                    && yields_on_clone(ps.1, input, Err(None))
                    && yields_on_clone(ps.2, input, Err(None))
                    && yields_on_clone(ps.3, input, res)
                ||| yields_on_clone(ps.0, input, Err(None))
                    && yields_on_clone(ps.1, input, Err(None))
                    && yields_on_clone(ps.2, input, Err(None))
                    && yields_on_clone(ps.3, input, Err(None))
                    && yields_on_clone(ps.4, input, res)
                ||| yields_on_clone(ps.0, input, Err(None))
                    && yields_on_clone(ps.1, input, Err(None))
                    && yields_on_clone(ps.2, input, Err(None))
                    && yields_on_clone(ps.3, input, Err(None))
                    && yields_on_clone(ps.4, input, Err(None))
                    && yields_on_clone(ps.5, input, res)
                ||| yields_on_clone(ps.0, input, Err(None))
                    && yields_on_clone(ps.1, input, Err(None))
                    && yields_on_clone(ps.2, input, Err(None))
                    && yields_on_clone(ps.3, input, Err(None))
                    && yields_on_clone(ps.4, input, Err(None))
                    && yields_on_clone(ps.5, input, Err(None))
                    && yields_on_clone(ps.6, input, res)
                ||| yields_on_clone(ps.0, input, Err(None))
                    && yields_on_clone(ps.1, input, Err(None))
                    && yields_on_clone(ps.2, input, Err(None))
                    && yields_on_clone(ps.3, input, Err(None))
                    && yields_on_clone(ps.4, input, Err(None))
                    && yields_on_clone(ps.5, input, Err(None))
                    && yields_on_clone(ps.6, input, Err(None))
                    && yields_on_clone(ps.7, input, res)
                ||| yields_on_clone(ps.0, input, Err(None))
                    && yields_on_clone(ps.1, input, Err(None))
                    && yields_on_clone(ps.2, input, Err(None))
                    && yields_on_clone(ps.3, input, Err(None))
                    && yields_on_clone(ps.4, input, Err(None))
                    && yields_on_clone(ps.5, input, Err(None))
                    && yields_on_clone(ps.6, input, Err(None))
                    && yields_on_clone(ps.7, input, Err(None))
                    && yields_on_clone(ps.8, input, res)
            },
        }
    }

    fn parse(&self, txt: IN) -> (res: Result<(OUT, IN), Option<ER>>) {
        let c0 = txt.clone();
        let r0 = self.ps.0.parse(c0);
        assert(yields_on_clone(self.ps.0, txt, r0));
        match r0 {
            Err(None) => {},
            _ => return r0,
        }
        let c1 = txt.clone();
        let r1 = self.ps.1.parse(c1);
        assert(yields_on_clone(self.ps.1, txt, r1));
        match r1 {
            Err(None) => {},
            _ => return r1,
        }
        let c2 = txt.clone();
        let r2 = self.ps.2.parse(c2);
        assert(yields_on_clone(self.ps.2, txt, r2));
        match r2 {
            Err(None) => {},
            _ => return r2,
        }
        let c3 = txt.clone();
        let r3 = self.ps.3.parse(c3);
        assert(yields_on_clone(self.ps.3, txt, r3));
        match r3 {
            Err(None) => {},
            _ => return r3,
        }
        let c4 = txt.clone();
        let r4 = self.ps.4.parse(c4);
        assert(yields_on_clone(self.ps.4, txt, r4));
        match r4 {
            Err(None) => {},
            _ => return r4,
        }
        let c5 = txt.clone();
        let r5 = self.ps.5.parse(c5);
        assert(yields_on_clone(self.ps.5, txt, r5));
        match r5 {
            Err(None) => {},
            _ => return r5,
        }
        let c6 = txt.clone();
        let r6 = self.ps.6.parse(c6);
        assert(yields_on_clone(self.ps.6, txt, r6));
        match r6 {
            Err(None) => {},
            _ => return r6,
        }
        let c7 = txt.clone();
        let r7 = self.ps.7.parse(c7);
        assert(yields_on_clone(self.ps.7, txt, r7));
        match r7 {
            Err(None) => {},
            _ => return r7,
        }
        let c8 = txt.clone();
        let r8 = self.ps.8.parse(c8);
        assert(yields_on_clone(self.ps.8, txt, r8));
        match r8 {
            Err(None) => {},
            _ => return r8,
        }
        Err(None)
    }
}

/// Over inputs whose clones are equal, a branch of 9 deterministic
/// segments is deterministic.
pub proof fn lemma_branch9_deterministic<IN: Clone, OUT, ER, A, B, C, D, E, F, G, H, I>(b: Branch<IN, ER, (A, B, C, D, E, F, G, H, I)>)
    where
        A: Parser<IN, Out = OUT, Error = Option<ER>>,
        B: Parser<IN, Out = OUT, Error = Option<ER>>,
        C: Parser<IN, Out = OUT, Error = Option<ER>>,
        D: Parser<IN, Out = OUT, Error = Option<ER>>,
        E: Parser<IN, Out = OUT, Error = Option<ER>>,
        F: Parser<IN, Out = OUT, Error = Option<ER>>,
        G: Parser<IN, Out = OUT, Error = Option<ER>>,
        H: Parser<IN, Out = OUT, Error = Option<ER>>,
        I: Parser<IN, Out = OUT, Error = Option<ER>>,
    requires
        clones_are_equal::<IN>(),
        deterministic::<IN, A>(b.segments().0),
        deterministic::<IN, B>(b.segments().1),
        deterministic::<IN, C>(b.segments().2),
        deterministic::<IN, D>(b.segments().3),
        deterministic::<IN, E>(b.segments().4),
        deterministic::<IN, F>(b.segments().5),
        deterministic::<IN, G>(b.segments().6),
        deterministic::<IN, H>(b.segments().7),
        deterministic::<IN, I>(b.segments().8),
    ensures
        deterministic::<IN, Branch<IN, ER, (A, B, C, D, E, F, G, H, I)>>(b),
{
    lemma_clones_are_transparent::<IN, A>(b.segments().0);
    lemma_clones_are_transparent::<IN, B>(b.segments().1);
    lemma_clones_are_transparent::<IN, C>(b.segments().2);
    lemma_clones_are_transparent::<IN, D>(b.segments().3);
    lemma_clones_are_transparent::<IN, E>(b.segments().4);
    lemma_clones_are_transparent::<IN, F>(b.segments().5);
    lemma_clones_are_transparent::<IN, G>(b.segments().6);
    lemma_clones_are_transparent::<IN, H>(b.segments().7);
    lemma_clones_are_transparent::<IN, I>(b.segments().8);
}

impl<IN: Clone, OUT, ER, A, B, C, D, E, F, G, H, I, J> From<(A, B, C, D, E, F, G, H, I, J)> for Branch<IN, ER, (A, B, C, D, E, F, G, H, I, J)> where
    A: Parser<IN, Out = OUT, Error = Option<ER>>,
    B: Parser<IN, Out = OUT, Error = Option<ER>>,
    C: Parser<IN, Out = OUT, Error = Option<ER>>,
    D: Parser<IN, Out = OUT, Error = Option<ER>>,
    E: Parser<IN, Out = OUT, Error = Option<ER>>,
    F: Parser<IN, Out = OUT, Error = Option<ER>>,
    G: Parser<IN, Out = OUT, Error = Option<ER>>,
    H: Parser<IN, Out = OUT, Error = Option<ER>>,
    I: Parser<IN, Out = OUT, Error = Option<ER>>,
    J: Parser<IN, Out = OUT, Error = Option<ER>>,
 {
    fn from(ps: (A, B, C, D, E, F, G, H, I, J)) -> (r: Self) {
        let r = Self { ps, _ghost: PhantomData };
        proof {
            lemma_branch_determined_by_segments(r, ps);
        }
        r
    }
}

impl<IN: Clone, OUT, ER, A, B, C, D, E, F, G, H, I, J> FromSpecImpl<(A, B, C, D, E, F, G, H, I, J)> for Branch<IN, ER, (A, B, C, D, E, F, G, H, I, J)> where
    A: Parser<IN, Out = OUT, Error = Option<ER>>,
    B: Parser<IN, Out = OUT, Error = Option<ER>>,
    C: Parser<IN, Out = OUT, Error = Option<ER>>,
    D: Parser<IN, Out = OUT, Error = Option<ER>>,
    E: Parser<IN, Out = OUT, Error = Option<ER>>,
    F: Parser<IN, Out = OUT, Error = Option<ER>>,
    G: Parser<IN, Out = OUT, Error = Option<ER>>,
    H: Parser<IN, Out = OUT, Error = Option<ER>>,
    I: Parser<IN, Out = OUT, Error = Option<ER>>,
    J: Parser<IN, Out = OUT, Error = Option<ER>>,
 {
    open spec fn obeys_from_spec() -> bool {
        true
    }

    open spec fn from_spec(ps: (A, B, C, D, E, F, G, H, I, J)) -> Self {
        choose|b: Self| b.segments() == ps
    }
}

/// A branch between 10 segments with one output type.
impl<IN: Clone, OUT, ER, A, B, C, D, E, F, G, H, I, J> Parser<IN> for Branch<IN, ER, (A, B, C, D, E, F, G, H, I, J)> where
    A: Parser<IN, Out = OUT, Error = Option<ER>>,
    B: Parser<IN, Out = OUT, Error = Option<ER>>,
    C: Parser<IN, Out = OUT, Error = Option<ER>>,
    D: Parser<IN, Out = OUT, Error = Option<ER>>,
    E: Parser<IN, Out = OUT, Error = Option<ER>>,
    F: Parser<IN, Out = OUT, Error = Option<ER>>,
    G: Parser<IN, Out = OUT, Error = Option<ER>>,
    H: Parser<IN, Out = OUT, Error = Option<ER>>,
    I: Parser<IN, Out = OUT, Error = Option<ER>>,
    J: Parser<IN, Out = OUT, Error = Option<ER>>,
 {
    type Out = OUT;

    type Error = Option<ER>;

    open spec fn parse_requires(&self, input: IN) -> bool {
        let ps = self.segments();
        &&& accepts_clones(ps.0, input)
        &&& yields_on_clone(ps.0, input, Err(None))
            ==> accepts_clones(ps.1, input)
        &&& yields_on_clone(ps.0, input, Err(None))
            && yields_on_clone(ps.1, input, Err(None))
            ==> accepts_clones(ps.2, input)
        &&& yields_on_clone(ps.0, input, Err(None))
            && yields_on_clone(ps.1, input, Err(None))
            && yields_on_clone(ps.2, input, Err(None))
            ==> accepts_clones(ps.3, input)
        &&& yields_on_clone(ps.0, input, Err(None))
            && yields_on_clone(ps.1, input, Err(None))
            && yields_on_clone(ps.2, input, Err(None))
            && yields_on_clone(ps.3, input, Err(None))
            ==> accepts_clones(ps.4, input)
        &&& yields_on_clone(ps.0, input, Err(None))
            && yields_on_clone(ps.1, input, Err(None))
            && yields_on_clone(ps.2, input, Err(None))
            && yields_on_clone(ps.3, input, Err(None))
            && yields_on_clone(ps.4, input, Err(None))
            ==> accepts_clones(ps.5, input)
        &&& yields_on_clone(ps.0, input, Err(None))
            && yields_on_clone(ps.1, input, Err(None))
            && yields_on_clone(ps.2, input, Err(None))
            && yields_on_clone(ps.3, input, Err(None))
            && yields_on_clone(ps.4, input, Err(None))
            && yields_on_clone(ps.5, input, Err(None))
            ==> accepts_clones(ps.6, input)
        &&& yields_on_clone(ps.0, input, Err(None))
            && yields_on_clone(ps.1, input, Err(None))
            && yields_on_clone(ps.2, input, Err(None))
            && yields_on_clone(ps.3, input, Err(None))
            && yields_on_clone(ps.4, input, Err(None))
            && yields_on_clone(ps.5, input, Err(None))
            && yields_on_clone(ps.6, input, Err(None))
            ==> accepts_clones(ps.7, input)
        &&& yields_on_clone(ps.0, input, Err(None))
            && yields_on_clone(ps.1, input, Err(None))
            && yields_on_clone(ps.2, input, Err(None))
            && yields_on_clone(ps.3, input, Err(None))
            && yields_on_clone(ps.4, input, Err(None))
            && yields_on_clone(ps.5, input, Err(None))
            && yields_on_clone(ps.6, input, Err(None))
            && yields_on_clone(ps.7, input, Err(None))
            ==> accepts_clones(ps.8, input)
        &&& yields_on_clone(ps.0, input, Err(None))
            && yields_on_clone(ps.1, input, Err(None))
            && yields_on_clone(ps.2, input, Err(None))
            && yields_on_clone(ps.3, input, Err(None))
            && yields_on_clone(ps.4, input, Err(None))
            && yields_on_clone(ps.5, input, Err(None))
            && yields_on_clone(ps.6, input, Err(None))
            && yields_on_clone(ps.7, input, Err(None))
            && yields_on_clone(ps.8, input, Err(None))
            ==> accepts_clones(ps.9, input)
    }

    open spec fn parse_ensures(&self, input: IN, res: Result<(OUT, IN), Option<ER>>) -> bool {
        let ps = self.segments();
        match res {
            Err(None) => {
                &&& yields_on_clone(ps.0, input, Err(None))
                &&& yields_on_clone(ps.1, input, Err(None))
                &&& yields_on_clone(ps.2, input, Err(None))
                &&& yields_on_clone(ps.3, input, Err(None))
                &&& yields_on_clone(ps.4, input, Err(None))
                &&& yields_on_clone(ps.5, input, Err(None))
                &&& yields_on_clone(ps.6, input, Err(None))
                &&& yields_on_clone(ps.7, input, Err(None))
                &&& yields_on_clone(ps.8, input, Err(None))
                &&& yields_on_clone(ps.9, input, Err(None))
            },
            _ => {
                ||| yields_on_clone(ps.0, input, res)
                ||| yields_on_clone(ps.0, input, Err(None))
                    && yields_on_clone(ps.1, input, res)
                ||| yields_on_clone(ps.0, input, Err(None))
                    && yields_on_clone(ps.1, input, Err(None))
                    && yields_on_clone(ps.2, input, res)
                ||| yields_on_clone(ps.0, input, Err(None))
                    && yields_on_clone(ps.1, input, Err(None))
                    && yields_on_clone(ps.2, input, Err(None))
                    && yields_on_clone(ps.3, input, res)
                ||| yields_on_clone(ps.0, input, Err(None))
                    && yields_on_clone(ps.1, input, Err(None))
                    && yields_on_clone(ps.2, input, Err(None))
                    && yields_on_clone(ps.3, input, Err(None))
                    && yields_on_clone(ps.4, input, res)
                ||| yields_on_clone(ps.0, input, Err(None))
                    && yields_on_clone(ps.1, input, Err(None))
                    && yields_on_clone(ps.2, input, Err(None))
                    && yields_on_clone(ps.3, input, Err(None))
                    && yields_on_clone(ps.4, input, Err(None))
                    && yields_on_clone(ps.5, input, res)
                ||| yields_on_clone(ps.0, input, Err(None))
                    && yields_on_clone(ps.1, input, Err(None))
                    && yields_on_clone(ps.2, input, Err(None))
                    && yields_on_clone(ps.3, input, Err(None))
                    && yields_on_clone(ps.4, input, Err(None))
                    && yields_on_clone(ps.5, input, Err(None))
                    && yields_on_clone(ps.6, input, res)
                ||| yields_on_clone(ps.0, input, Err(None))
                    && yields_on_clone(ps.1, input, Err(None))
                    && yields_on_clone(ps.2, input, Err(None))
                    && yields_on_clone(ps.3, input, Err(None))
                    && yields_on_clone(ps.4, input, Err(None))
                    && yields_on_clone(ps.5, input, Err(None))
                    && yields_on_clone(ps.6, input, Err(None))
                    && yields_on_clone(ps.7, input, res)
                ||| yields_on_clone(ps.0, input, Err(None))
                    && yields_on_clone(ps.1, input, Err(None))
                    && yields_on_clone(ps.2, input, Err(None))
                    && yields_on_clone(ps.3, input, Err(None))
                    && yields_on_clone(ps.4, input, Err(None))
                    && yields_on_clone(ps.5, input, Err(None))
                    && yields_on_clone(ps.6, input, Err(None))
                    && yields_on_clone(ps.7, input, Err(None))
                    && yields_on_clone(ps.8, input, res)
                ||| yields_on_clone(ps.0, input, Err(None))
                    && yields_on_clone(ps.1, input, Err(None))
                    && yields_on_clone(ps.2, input, Err(None))
                    && yields_on_clone(ps.3, input, Err(None))
                    && yields_on_clone(ps.4, input, Err(None))
                    && yields_on_clone(ps.5, input, Err(None))
                    && yields_on_clone(ps.6, input, Err(None))
                    && yields_on_clone(ps.7, input, Err(None))
                    && yields_on_clone(ps.8, input, Err(None))
                    && yields_on_clone(ps.9, input, res)
            },
        }
    }

    fn parse(&self, txt: IN) -> (res: Result<(OUT, IN), Option<ER>>) {
        let c0 = txt.clone();
        let r0 = self.ps.0.parse(c0);
        assert(yields_on_clone(self.ps.0, txt, r0));
        match r0 {
            Err(None) => {},
            _ => return r0,
        }
        let c1 = txt.clone();
        let r1 = self.ps.1.parse(c1);
        assert(yields_on_clone(self.ps.1, txt, r1));
        match r1 {
            Err(None) => {},
            _ => return r1,
        }
        let c2 = txt.clone();
        let r2 = self.ps.2.parse(c2);
        assert(yields_on_clone(self.ps.2, txt, r2));
        match r2 {
            Err(None) => {},
            _ => return r2,
        }
        let c3 = txt.clone();
        let r3 = self.ps.3.parse(c3);
        assert(yields_on_clone(self.ps.3, txt, r3));
        match r3 {
            Err(None) => {},
            _ => return r3,
        }
        let c4 = txt.clone();
        let r4 = self.ps.4.parse(c4);
        assert(yields_on_clone(self.ps.4, txt, r4));
        match r4 {
            Err(None) => {},
            _ => return r4,
        }
        let c5 = txt.clone();
        let r5 = self.ps.5.parse(c5);
        assert(yields_on_clone(self.ps.5, txt, r5));
        match r5 {
            Err(None) => {},
            _ => return r5,
        }
        let c6 = txt.clone();
        let r6 = self.ps.6.parse(c6);
        assert(yields_on_clone(self.ps.6, txt, r6));
        match r6 {
            Err(None) => {},
            _ => return r6,
        }
        let c7 = txt.clone();
        let r7 = self.ps.7.parse(c7);
        assert(yields_on_clone(self.ps.7, txt, r7));
        match r7 {
            Err(None) => {},
            _ => return r7,
        }
        let c8 = txt.clone();
        let r8 = self.ps.8.parse(c8);
        assert(yields_on_clone(self.ps.8, txt, r8));
        match r8 {
            Err(None) => {},
            _ => return r8,
        }
        let c9 = txt.clone();
        let r9 = self.ps.9.parse(c9);
        assert(yields_on_clone(self.ps.9, txt, r9));
        match r9 {
            Err(None) => {},
            _ => return r9,
        }
        Err(None)
    }
}

/// Over inputs whose clones are equal, a branch of 10 deterministic
/// segments is deterministic.
pub proof fn lemma_branch10_deterministic<IN: Clone, OUT, ER, A, B, C, D, E, F, G, H, I, J>(b: Branch<IN, ER, (A, B, C, D, E, F, G, H, I, J)>)
    where
        A: Parser<IN, Out = OUT, Error = Option<ER>>,
        B: Parser<IN, Out = OUT, Error = Option<ER>>,
        C: Parser<IN, Out = OUT, Error = Option<ER>>,
        D: Parser<IN, Out = OUT, Error = Option<ER>>,
        E: Parser<IN, Out = OUT, Error = Option<ER>>,
        F: Parser<IN, Out = OUT, Error = Option<ER>>,
        G: Parser<IN, Out = OUT, Error = Option<ER>>,
        H: Parser<IN, Out = OUT, Error = Option<ER>>,
        I: Parser<IN, Out = OUT, Error = Option<ER>>,
        J: Parser<IN, Out = OUT, Error = Option<ER>>,
    requires
        clones_are_equal::<IN>(),
        deterministic::<IN, A>(b.segments().0),
        deterministic::<IN, B>(b.segments().1),
        deterministic::<IN, C>(b.segments().2),
        deterministic::<IN, D>(b.segments().3),
        deterministic::<IN, E>(b.segments().4),
        deterministic::<IN, F>(b.segments().5),
        deterministic::<IN, G>(b.segments().6),
        deterministic::<IN, H>(b.segments().7),
        deterministic::<IN, I>(b.segments().8),
        deterministic::<IN, J>(b.segments().9),
    ensures
        deterministic::<IN, Branch<IN, ER, (A, B, C, D, E, F, G, H, I, J)>>(b),
{
    lemma_clones_are_transparent::<IN, A>(b.segments().0);
    lemma_clones_are_transparent::<IN, B>(b.segments().1);
    lemma_clones_are_transparent::<IN, C>(b.segments().2);
    lemma_clones_are_transparent::<IN, D>(b.segments().3);
    lemma_clones_are_transparent::<IN, E>(b.segments().4);
    lemma_clones_are_transparent::<IN, F>(b.segments().5);
    lemma_clones_are_transparent::<IN, G>(b.segments().6);
    lemma_clones_are_transparent::<IN, H>(b.segments().7);
    lemma_clones_are_transparent::<IN, I>(b.segments().8);
    lemma_clones_are_transparent::<IN, J>(b.segments().9);
}

impl<IN: Clone, OUT, ER, A, B, C, D, E, F, G, H, I, J, K> From<(A, B, C, D, E, F, G, H, I, J, K)> for Branch<IN, ER, (A, B, C, D, E, F, G, H, I, J, K)> where
    A: Parser<IN, Out = OUT, Error = Option<ER>>,
    B: Parser<IN, Out = OUT, Error = Option<ER>>,
    C: Parser<IN, Out = OUT, Error = Option<ER>>,
    D: Parser<IN, Out = OUT, Error = Option<ER>>,
    E: Parser<IN, Out = OUT, Error = Option<ER>>,
    F: Parser<IN, Out = OUT, Error = Option<ER>>,
    G: Parser<IN, Out = OUT, Error = Option<ER>>,
    H: Parser<IN, Out = OUT, Error = Option<ER>>,
    I: Parser<IN, Out = OUT, Error = Option<ER>>,
    J: Parser<IN, Out = OUT, Error = Option<ER>>,
    K: Parser<IN, Out = OUT, Error = Option<ER>>,
 {
    fn from(ps: (A, B, C, D, E, F, G, H, I, J, K)) -> (r: Self) {
        let r = Self { ps, _ghost: PhantomData };
        proof {
            lemma_branch_determined_by_segments(r, ps);
        }
        r
    }
}

impl<IN: Clone, OUT, ER, A, B, C, D, E, F, G, H, I, J, K> FromSpecImpl<(A, B, C, D, E, F, G, H, I, J, K)> for Branch<IN, ER, (A, B, C, D, E, F, G, H, I, J, K)> where
    A: Parser<IN, Out = OUT, Error = Option<ER>>,
    B: Parser<IN, Out = OUT, Error = Option<ER>>,
    C: Parser<IN, Out = OUT, Error = Option<ER>>,
    D: Parser<IN, Out = OUT, Error = Option<ER>>,
    E: Parser<IN, Out = OUT, Error = Option<ER>>,
    F: Parser<IN, Out = OUT, Error = Option<ER>>,
    G: Parser<IN, Out = OUT, Error = Option<ER>>,
    H: Parser<IN, Out = OUT, Error = Option<ER>>,
    I: Parser<IN, Out = OUT, Error = Option<ER>>,
    J: Parser<IN, Out = OUT, Error = Option<ER>>,
    K: Parser<IN, Out = OUT, Error = Option<ER>>,
 {
    open spec fn obeys_from_spec() -> bool {
        true
    }

    open spec fn from_spec(ps: (A, B, C, D, E, F, G, H, I, J, K)) -> Self {
        choose|b: Self| b.segments() == ps
    }
}

/// A branch between 11 segments with one output type.
impl<IN: Clone, OUT, ER, A, B, C, D, E, F, G, H, I, J, K> Parser<IN> for Branch<IN, ER, (A, B, C, D, E, F, G, H, I, J, K)> where
    A: Parser<IN, Out = OUT, Error = Option<ER>>,
    B: Parser<IN, Out = OUT, Error = Option<ER>>,
    C: Parser<IN, Out = OUT, Error = Option<ER>>,
    D: Parser<IN, Out = OUT, Error = Option<ER>>,
    E: Parser<IN, Out = OUT, Error = Option<ER>>,
    F: Parser<IN, Out = OUT, Error = Option<ER>>,
    G: Parser<IN, Out = OUT, Error = Option<ER>>,
    H: Parser<IN, Out = OUT, Error = Option<ER>>,
    I: Parser<IN, Out = OUT, Error = Option<ER>>,
    J: Parser<IN, Out = OUT, Error = Option<ER>>,
    K: Parser<IN, Out = OUT, Error = Option<ER>>,
 {
    type Out = OUT;

    type Error = Option<ER>;

    open spec fn parse_requires(&self, input: IN) -> bool {
        let ps = self.segments();
        &&& accepts_clones(ps.0, input)
        &&& yields_on_clone(ps.0, input, Err(None))
            ==> accepts_clones(ps.1, input)
        &&& yields_on_clone(ps.0, input, Err(None))
            && yields_on_clone(ps.1, input, Err(None))
            ==> accepts_clones(ps.2, input)
        &&& yields_on_clone(ps.0, input, Err(None))
            && yields_on_clone(ps.1, input, Err(None))
            && yields_on_clone(ps.2, input, Err(None))
            ==> accepts_clones(ps.3, input)
        &&& yields_on_clone(ps.0, input, Err(None))
            && yields_on_clone(ps.1, input, Err(None))
            && yields_on_clone(ps.2, input, Err(None))
            && yields_on_clone(ps.3, input, Err(None))
            ==> accepts_clones(ps.4, input)
        &&& yields_on_clone(ps.0, input, Err(None))
            && yields_on_clone(ps.1, input, Err(None))
            && yields_on_clone(ps.2, input, Err(None))
            && yields_on_clone(ps.3, input, Err(None))
            && yields_on_clone(ps.4, input, Err(None))
            ==> accepts_clones(ps.5, input)
        &&& yields_on_clone(ps.0, input, Err(None))
            && yields_on_clone(ps.1, input, Err(None))
            && yields_on_clone(ps.2, input, Err(None))
            && yields_on_clone(ps.3, input, Err(None))
            && yields_on_clone(ps.4, input, Err(None))
            && yields_on_clone(ps.5, input, Err(None))
            ==> accepts_clones(ps.6, input)
        &&& yields_on_clone(ps.0, input, Err(None))
            && yields_on_clone(ps.1, input, Err(None))
            && yields_on_clone(ps.2, input, Err(None))
            && yields_on_clone(ps.3, input, Err(None))
            && yields_on_clone(ps.4, input, Err(None))
            && yields_on_clone(ps.5, input, Err(None))
            && yields_on_clone(ps.6, input, Err(None))
            ==> accepts_clones(ps.7, input)
        &&& yields_on_clone(ps.0, input, Err(None))
            && yields_on_clone(ps.1, input, Err(None))
            && yields_on_clone(ps.2, input, Err(None))
            && yields_on_clone(ps.3, input, Err(None))
            && yields_on_clone(ps.4, input, Err(None))
            && yields_on_clone(ps.5, input, Err(None))
            && yields_on_clone(ps.6, input, Err(None))
            && yields_on_clone(ps.7, input, Err(None))
            ==> accepts_clones(ps.8, input)
        &&& yields_on_clone(ps.0, input, Err(None))
            && yields_on_clone(ps.1, input, Err(None))
            && yields_on_clone(ps.2, input, Err(None))
            && yields_on_clone(ps.3, input, Err(None))
            && yields_on_clone(ps.4, input, Err(None))
            && yields_on_clone(ps.5, input, Err(None))
            && yields_on_clone(ps.6, input, Err(None))
            && yields_on_clone(ps.7, input, Err(None))
            && yields_on_clone(ps.8, input, Err(None))
            ==> accepts_clones(ps.9, input)
        &&& yields_on_clone(ps.0, input, Err(None))
            && yields_on_clone(ps.1, input, Err(None))
            && yields_on_clone(ps.2, input, Err(None))
            && yields_on_clone(ps.3, input, Err(None))
            && yields_on_clone(ps.4, input, Err(None))
            && yields_on_clone(ps.5, input, Err(None))
            && yields_on_clone(ps.6, input, Err(None))
            && yields_on_clone(ps.7, input, Err(None))
            && yields_on_clone(ps.8, input, Err(None))
            && yields_on_clone(ps.9, input, Err(None))
            ==> accepts_clones(ps.10, input)
    }

    open spec fn parse_ensures(&self, input: IN, res: Result<(OUT, IN), Option<ER>>) -> bool {
        let ps = self.segments();
        match res {
            Err(None) => {
                &&& yields_on_clone(ps.0, input, Err(None))
                &&& yields_on_clone(ps.1, input, Err(None))
                &&& yields_on_clone(ps.2, input, Err(None))
                &&& yields_on_clone(ps.3, input, Err(None))
                &&& yields_on_clone(ps.4, input, Err(None))
                &&& yields_on_clone(ps.5, input, Err(None))
                &&& yields_on_clone(ps.6, input, Err(None))
                &&& yields_on_clone(ps.7, input, Err(None))
                &&& yields_on_clone(ps.8, input, Err(None))
                &&& yields_on_clone(ps.9, input, Err(None))
                &&& yields_on_clone(ps.10, input, Err(None))
            },
            _ => {
                ||| yields_on_clone(ps.0, input, res)
                ||| yields_on_clone(ps.0, input, Err(None))
                    && yields_on_clone(ps.1, input, res)
                ||| yields_on_clone(ps.0, input, Err(None))
                    && yields_on_clone(ps.1, input, Err(None))
                    && yields_on_clone(ps.2, input, res)
                ||| yields_on_clone(ps.0, input, Err(None))
                    && yields_on_clone(ps.1, input, Err(None))
                    && yields_on_clone(ps.2, input, Err(None))
                    && yields_on_clone(ps.3, input, res)
                ||| yields_on_clone(ps.0, input, Err(None))
                    && yields_on_clone(ps.1, input, Err(None))
                    && yields_on_clone(ps.2, input, Err(None))
                    && yields_on_clone(ps.3, input, Err(None))
                    && yields_on_clone(ps.4, input, res)
                ||| yields_on_clone(ps.0, input, Err(None))
                    && yields_on_clone(ps.1, input, Err(None))
                    && yields_on_clone(ps.2, input, Err(None))
                    && yields_on_clone(ps.3, input, Err(None))
                    && yields_on_clone(ps.4, input, Err(None))
                    && yields_on_clone(ps.5, input, res)
                ||| yields_on_clone(ps.0, input, Err(None))
                    && yields_on_clone(ps.1, input, Err(None))
                    && yields_on_clone(ps.2, input, Err(None))
                    && yields_on_clone(ps.3, input, Err(None))
                    && yields_on_clone(ps.4, input, Err(None))
                    && yields_on_clone(ps.5, input, Err(None))
                    && yields_on_clone(ps.6, input, res)
                ||| yields_on_clone(ps.0, input, Err(None))
                    && yields_on_clone(ps.1, input, Err(None))
                    && yields_on_clone(ps.2, input, Err(None))
                    && yields_on_clone(ps.3, input, Err(None))
                    && yields_on_clone(ps.4, input, Err(None))
                    && yields_on_clone(ps.5, input, Err(None))
                    && yields_on_clone(ps.6, input, Err(None))
                    && yields_on_clone(ps.7, input, res)
                ||| yields_on_clone(ps.0, input, Err(None))
                    && yields_on_clone(ps.1, input, Err(None))
                    && yields_on_clone(ps.2, input, Err(None))
                    && yields_on_clone(ps.3, input, Err(None))
                    && yields_on_clone(ps.4, input, Err(None))
                    && yields_on_clone(ps.5, input, Err(None))
                    && yields_on_clone(ps.6, input, Err(None))
                    && yields_on_clone(ps.7, input, Err(None))
                    && yields_on_clone(ps.8, input, res)
                ||| yields_on_clone(ps.0, input, Err(None))
                    && yields_on_clone(ps.1, input, Err(None))
                    && yields_on_clone(ps.2, input, Err(None))
                    && yields_on_clone(ps.3, input, Err(None))
                    && yields_on_clone(ps.4, input, Err(None))
                    && yields_on_clone(ps.5, input, Err(None))
                    && yields_on_clone(ps.6, input, Err(None))
                    && yields_on_clone(ps.7, input, Err(None))
                    && yields_on_clone(ps.8, input, Err(None))
                    && yields_on_clone(ps.9, input, res)
                ||| yields_on_clone(ps.0, input, Err(None))
                    && yields_on_clone(ps.1, input, Err(None))
                    && yields_on_clone(ps.2, input, Err(None))
                    && yields_on_clone(ps.3, input, Err(None))
                    && yields_on_clone(ps.4, input, Err(None))
                    && yields_on_clone(ps.5, input, Err(None))
                    && yields_on_clone(ps.6, input, Err(None))
                    && yields_on_clone(ps.7, input, Err(None))
                    && yields_on_clone(ps.8, input, Err(None))
                    && yields_on_clone(ps.9, input, Err(None))
                    && yields_on_clone(ps.10, input, res)
            },
        }
    }

    fn parse(&self, txt: IN) -> (res: Result<(OUT, IN), Option<ER>>) {
        let c0 = txt.clone();
        let r0 = self.ps.0.parse(c0);
        assert(yields_on_clone(self.ps.0, txt, r0));
        match r0 {
            Err(None) => {},
            _ => return r0,
        }
        let c1 = txt.clone();
        let r1 = self.ps.1.parse(c1);
        assert(yields_on_clone(self.ps.1, txt, r1));
        match r1 {
            Err(None) => {},
            _ => return r1,
        }
        let c2 = txt.clone();
        let r2 = self.ps.2.parse(c2);
        assert(yields_on_clone(self.ps.2, txt, r2));
        match r2 {
            Err(None) => {},
            _ => return r2,
        }
        let c3 = txt.clone();
        let r3 = self.ps.3.parse(c3);
        assert(yields_on_clone(self.ps.3, txt, r3));
        match r3 {
            Err(None) => {},
            _ => return r3,
        }
        let c4 = txt.clone();
        let r4 = self.ps.4.parse(c4);
        assert(yields_on_clone(self.ps.4, txt, r4));
        match r4 {
            Err(None) => {},
            _ => return r4,
        }
        let c5 = txt.clone();
        let r5 = self.ps.5.parse(c5);
        assert(yields_on_clone(self.ps.5, txt, r5));
        match r5 {
            Err(None) => {},
            _ => return r5,
        }
        let c6 = txt.clone();
        let r6 = self.ps.6.parse(c6);
        assert(yields_on_clone(self.ps.6, txt, r6));
        match r6 {
            Err(None) => {},
            _ => return r6,
        }
        let c7 = txt.clone();
        let r7 = self.ps.7.parse(c7);
        assert(yields_on_clone(self.ps.7, txt, r7));
        match r7 {
            Err(None) => {},
            _ => return r7,
        }
        let c8 = txt.clone();
        let r8 = self.ps.8.parse(c8);
        assert(yields_on_clone(self.ps.8, txt, r8));
        match r8 {
            Err(None) => {},
            _ => return r8,
        }
        let c9 = txt.clone();
        let r9 = self.ps.9.parse(c9);
        assert(yields_on_clone(self.ps.9, txt, r9));
        match r9 {
            Err(None) => {},
            _ => return r9,
        }
        let c10 = txt.clone();
        let r10 = self.ps.10.parse(c10);
        assert(yields_on_clone(self.ps.10, txt, r10));
        match r10 {
            Err(None) => {},
            _ => return r10,
        }
        Err(None)
    }
}

/// Over inputs whose clones are equal, a branch of 11 deterministic
/// segments is deterministic.
pub proof fn lemma_branch11_deterministic<IN: Clone, OUT, ER, A, B, C, D, E, F, G, H, I, J, K>(b: Branch<IN, ER, (A, B, C, D, E, F, G, H, I, J, K)>)
    where
        A: Parser<IN, Out = OUT, Error = Option<ER>>,
        B: Parser<IN, Out = OUT, Error = Option<ER>>,
        C: Parser<IN, Out = OUT, Error = Option<ER>>,
        D: Parser<IN, Out = OUT, Error = Option<ER>>,
        E: Parser<IN, Out = OUT, Error = Option<ER>>,
        F: Parser<IN, Out = OUT, Error = Option<ER>>,
        G: Parser<IN, Out = OUT, Error = Option<ER>>,
        H: Parser<IN, Out = OUT, Error = Option<ER>>,
        I: Parser<IN, Out = OUT, Error = Option<ER>>,
        J: Parser<IN, Out = OUT, Error = Option<ER>>,
        K: Parser<IN, Out = OUT, Error = Option<ER>>,
    requires
        clones_are_equal::<IN>(),
        deterministic::<IN, A>(b.segments().0),
        deterministic::<IN, B>(b.segments().1),
        deterministic::<IN, C>(b.segments().2),
        deterministic::<IN, D>(b.segments().3),
        deterministic::<IN, E>(b.segments().4),
        deterministic::<IN, F>(b.segments().5),
        deterministic::<IN, G>(b.segments().6),
        deterministic::<IN, H>(b.segments().7),
        deterministic::<IN, I>(b.segments().8),
        deterministic::<IN, J>(b.segments().9),
        deterministic::<IN, K>(b.segments().10),
    ensures
        deterministic::<IN, Branch<IN, ER, (A, B, C, D, E, F, G, H, I, J, K)>>(b),
{
    lemma_clones_are_transparent::<IN, A>(b.segments().0);
    lemma_clones_are_transparent::<IN, B>(b.segments().1);
    lemma_clones_are_transparent::<IN, C>(b.segments().2);
    lemma_clones_are_transparent::<IN, D>(b.segments().3);
    lemma_clones_are_transparent::<IN, E>(b.segments().4);
    lemma_clones_are_transparent::<IN, F>(b.segments().5);
    lemma_clones_are_transparent::<IN, G>(b.segments().6);
    lemma_clones_are_transparent::<IN, H>(b.segments().7);
    lemma_clones_are_transparent::<IN, I>(b.segments().8);
    lemma_clones_are_transparent::<IN, J>(b.segments().9);
    lemma_clones_are_transparent::<IN, K>(b.segments().10);
}

impl<IN: Clone, OUT, ER, A, B, C, D, E, F, G, H, I, J, K, L> From<(A, B, C, D, E, F, G, H, I, J, K, L)> for Branch<IN, ER, (A, B, C, D, E, F, G, H, I, J, K, L)> where
    A: Parser<IN, Out = OUT, Error = Option<ER>>,
    B: Parser<IN, Out = OUT, Error = Option<ER>>,
    C: Parser<IN, Out = OUT, Error = Option<ER>>,
    D: Parser<IN, Out = OUT, Error = Option<ER>>,
    E: Parser<IN, Out = OUT, Error = Option<ER>>,
    F: Parser<IN, Out = OUT, Error = Option<ER>>,
    G: Parser<IN, Out = OUT, Error = Option<ER>>,
    H: Parser<IN, Out = OUT, Error = Option<ER>>,
    I: Parser<IN, Out = OUT, Error = Option<ER>>,
    J: Parser<IN, Out = OUT, Error = Option<ER>>,
    K: Parser<IN, Out = OUT, Error = Option<ER>>,
    L: Parser<IN, Out = OUT, Error = Option<ER>>,
 {
    fn from(ps: (A, B, C, D, E, F, G, H, I, J, K, L)) -> (r: Self) {
        let r = Self { ps, _ghost: PhantomData };
        proof {
            lemma_branch_determined_by_segments(r, ps);
        }
        r
    }
}

impl<IN: Clone, OUT, ER, A, B, C, D, E, F, G, H, I, J, K, L> FromSpecImpl<(A, B, C, D, E, F, G, H, I, J, K, L)> for Branch<IN, ER, (A, B, C, D, E, F, G, H, I, J, K, L)> where
    A: Parser<IN, Out = OUT, Error = Option<ER>>,
    B: Parser<IN, Out = OUT, Error = Option<ER>>,
    C: Parser<IN, Out = OUT, Error = Option<ER>>,
    D: Parser<IN, Out = OUT, Error = Option<ER>>,
    E: Parser<IN, Out = OUT, Error = Option<ER>>,
    F: Parser<IN, Out = OUT, Error = Option<ER>>,
    G: Parser<IN, Out = OUT, Error = Option<ER>>,
    H: Parser<IN, Out = OUT, Error = Option<ER>>,
    I: Parser<IN, Out = OUT, Error = Option<ER>>,
    J: Parser<IN, Out = OUT, Error = Option<ER>>,
    K: Parser<IN, Out = OUT, Error = Option<ER>>,
    L: Parser<IN, Out = OUT, Error = Option<ER>>,
 {
    open spec fn obeys_from_spec() -> bool {
        true
    }

    open spec fn from_spec(ps: (A, B, C, D, E, F, G, H, I, J, K, L)) -> Self {
        choose|b: Self| b.segments() == ps
    }
}

/// A branch between 12 segments with one output type.
impl<IN: Clone, OUT, ER, A, B, C, D, E, F, G, H, I, J, K, L> Parser<IN> for Branch<IN, ER, (A, B, C, D, E, F, G, H, I, J, K, L)> where
    A: Parser<IN, Out = OUT, Error = Option<ER>>,
    B: Parser<IN, Out = OUT, Error = Option<ER>>,
    C: Parser<IN, Out = OUT, Error = Option<ER>>,
    D: Parser<IN, Out = OUT, Error = Option<ER>>,
    E: Parser<IN, Out = OUT, Error = Option<ER>>,
    F: Parser<IN, Out = OUT, Error = Option<ER>>,
    G: Parser<IN, Out = OUT, Error = Option<ER>>,
    H: Parser<IN, Out = OUT, Error = Option<ER>>,
    I: Parser<IN, Out = OUT, Error = Option<ER>>,
    J: Parser<IN, Out = OUT, Error = Option<ER>>,
    K: Parser<IN, Out = OUT, Error = Option<ER>>,
    L: Parser<IN, Out = OUT, Error = Option<ER>>,
 {
    type Out = OUT;

    type Error = Option<ER>;

    open spec fn parse_requires(&self, input: IN) -> bool {
        let ps = self.segments();
        &&& accepts_clones(ps.0, input)
        &&& yields_on_clone(ps.0, input, Err(None))
            ==> accepts_clones(ps.1, input)
        &&& yields_on_clone(ps.0, input, Err(None))
            && yields_on_clone(ps.1, input, Err(None))
            ==> accepts_clones(ps.2, input)
        &&& yields_on_clone(ps.0, input, Err(None))
            && yields_on_clone(ps.1, input, Err(None))
            && yields_on_clone(ps.2, input, Err(None))
            ==> accepts_clones(ps.3, input)
        &&& yields_on_clone(ps.0, input, Err(None))
            && yields_on_clone(ps.1, input, Err(None))
            && yields_on_clone(ps.2, input, Err(None))
            && yields_on_clone(ps.3, input, Err(None))
            ==> accepts_clones(ps.4, input)
        &&& yields_on_clone(ps.0, input, Err(None))
            && yields_on_clone(ps.1, input, Err(None))
            && yields_on_clone(ps.2, input, Err(None))
            && yields_on_clone(ps.3, input, Err(None))
            && yields_on_clone(ps.4, input, Err(None))
            ==> accepts_clones(ps.5, input)
        &&& yields_on_clone(ps.0, input, Err(None))
            && yields_on_clone(ps.1, input, Err(None))
            && yields_on_clone(ps.2, input, Err(None))
            && yields_on_clone(ps.3, input, Err(None))
            && yields_on_clone(ps.4, input, Err(None))
            && yields_on_clone(ps.5, input, Err(None))
            ==> accepts_clones(ps.6, input)
        &&& yields_on_clone(ps.0, input, Err(None))
            && yields_on_clone(ps.1, input, Err(None))
            && yields_on_clone(ps.2, input, Err(None))
            && yields_on_clone(ps.3, input, Err(None))
            && yields_on_clone(ps.4, input, Err(None))
            && yields_on_clone(ps.5, input, Err(None))
            && yields_on_clone(ps.6, input, Err(None))
            ==> accepts_clones(ps.7, input)
        &&& yields_on_clone(ps.0, input, Err(None))
            && yields_on_clone(ps.1, input, Err(None))
            && yields_on_clone(ps.2, input, Err(None))
            && yields_on_clone(ps.3, input, Err(None))
            && yields_on_clone(ps.4, input, Err(None))
            && yields_on_clone(ps.5, input, Err(None))
            && yields_on_clone(ps.6, input, Err(None))
            && yields_on_clone(ps.7, input, Err(None))
            ==> accepts_clones(ps.8, input)
        &&& yields_on_clone(ps.0, input, Err(None))
            && yields_on_clone(ps.1, input, Err(None))
            && yields_on_clone(ps.2, input, Err(None))
            && yields_on_clone(ps.3, input, Err(None))
            && yields_on_clone(ps.4, input, Err(None))
            && yields_on_clone(ps.5, input, Err(None))
            && yields_on_clone(ps.6, input, Err(None))
            && yields_on_clone(ps.7, input, Err(None))
            && yields_on_clone(ps.8, input, Err(None))
            ==> accepts_clones(ps.9, input)
        &&& yields_on_clone(ps.0, input, Err(None))
            && yields_on_clone(ps.1, input, Err(None))
            && yields_on_clone(ps.2, input, Err(None))
            && yields_on_clone(ps.3, input, Err(None))
            && yields_on_clone(ps.4, input, Err(None))
            && yields_on_clone(ps.5, input, Err(None))
            && yields_on_clone(ps.6, input, Err(None))
            && yields_on_clone(ps.7, input, Err(None))
            && yields_on_clone(ps.8, input, Err(None))
            && yields_on_clone(ps.9, input, Err(None))
            ==> accepts_clones(ps.10, input)
        &&& yields_on_clone(ps.0, input, Err(None))
            && yields_on_clone(ps.1, input, Err(None))
            && yields_on_clone(ps.2, input, Err(None))
            && yields_on_clone(ps.3, input, Err(None))
            && yields_on_clone(ps.4, input, Err(None))
            && yields_on_clone(ps.5, input, Err(None))
            && yields_on_clone(ps.6, input, Err(None))
            && yields_on_clone(ps.7, input, Err(None))
            && yields_on_clone(ps.8, input, Err(None))
            && yields_on_clone(ps.9, input, Err(None))
            && yields_on_clone(ps.10, input, Err(None))
            ==> accepts_clones(ps.11, input)
    }

    open spec fn parse_ensures(&self, input: IN, res: Result<(OUT, IN), Option<ER>>) -> bool {
        let ps = self.segments();
        match res {
            Err(None) => {
                &&& yields_on_clone(ps.0, input, Err(None))
                &&& yields_on_clone(ps.1, input, Err(None))
                &&& yields_on_clone(ps.2, input, Err(None))
                &&& yields_on_clone(ps.3, input, Err(None))
                &&& yields_on_clone(ps.4, input, Err(None))
                &&& yields_on_clone(ps.5, input, Err(None))
                &&& yields_on_clone(ps.6, input, Err(None))
                &&& yields_on_clone(ps.7, input, Err(None))
                &&& yields_on_clone(ps.8, input, Err(None))
                &&& yields_on_clone(ps.9, input, Err(None))
                &&& yields_on_clone(ps.10, input, Err(None))
                &&& yields_on_clone(ps.11, input, Err(None))
            },
            _ => {
                ||| yields_on_clone(ps.0, input, res)
                ||| yields_on_clone(ps.0, input, Err(None))
                    && yields_on_clone(ps.1, input, res)
                ||| yields_on_clone(ps.0, input, Err(None))
                    && yields_on_clone(ps.1, input, Err(None))
                    && yields_on_clone(ps.2, input, res)
                ||| yields_on_clone(ps.0, input, Err(None))
                    && yields_on_clone(ps.1, input, Err(None))
                    && yields_on_clone(ps.2, input, Err(None))
                    && yields_on_clone(ps.3, input, res)
                ||| yields_on_clone(ps.0, input, Err(None))
                    && yields_on_clone(ps.1, input, Err(None))
                    && yields_on_clone(ps.2, input, Err(None))
                    && yields_on_clone(ps.3, input, Err(None))
                    && yields_on_clone(ps.4, input, res)
                ||| yields_on_clone(ps.0, input, Err(None))
                    && yields_on_clone(ps.1, input, Err(None))
                    && yields_on_clone(ps.2, input, Err(None))
                    && yields_on_clone(ps.3, input, Err(None))
                    && yields_on_clone(ps.4, input, Err(None))
                    && yields_on_clone(ps.5, input, res)
                ||| yields_on_clone(ps.0, input, Err(None))
                    && yields_on_clone(ps.1, input, Err(None))
                    && yields_on_clone(ps.2, input, Err(None))
                    && yields_on_clone(ps.3, input, Err(None))
                    && yields_on_clone(ps.4, input, Err(None))
                    && yields_on_clone(ps.5, input, Err(None))
                    && yields_on_clone(ps.6, input, res)
                ||| yields_on_clone(ps.0, input, Err(None))
                    && yields_on_clone(ps.1, input, Err(None))
                    && yields_on_clone(ps.2, input, Err(None))
                    && yields_on_clone(ps.3, input, Err(None))
                    && yields_on_clone(ps.4, input, Err(None))
                    && yields_on_clone(ps.5, input, Err(None))
                    && yields_on_clone(ps.6, input, Err(None))
                    && yields_on_clone(ps.7, input, res)
                ||| yields_on_clone(ps.0, input, Err(None))
                    && yields_on_clone(ps.1, input, Err(None))
                    && yields_on_clone(ps.2, input, Err(None))
                    && yields_on_clone(ps.3, input, Err(None))
                    && yields_on_clone(ps.4, input, Err(None))
                    && yields_on_clone(ps.5, input, Err(None))
                    && yields_on_clone(ps.6, input, Err(None))
                    && yields_on_clone(ps.7, input, Err(None))
                    && yields_on_clone(ps.8, input, res)
                ||| yields_on_clone(ps.0, input, Err(None))
                    && yields_on_clone(ps.1, input, Err(None))
                    && yields_on_clone(ps.2, input, Err(None))
                    && yields_on_clone(ps.3, input, Err(None))
                    && yields_on_clone(ps.4, input, Err(None))
                    && yields_on_clone(ps.5, input, Err(None))
                    && yields_on_clone(ps.6, input, Err(None))
                    && yields_on_clone(ps.7, input, Err(None))
                    && yields_on_clone(ps.8, input, Err(None))
                    && yields_on_clone(ps.9, input, res)
                ||| yields_on_clone(ps.0, input, Err(None))
                    && yields_on_clone(ps.1, input, Err(None))
                    && yields_on_clone(ps.2, input, Err(None))
                    && yields_on_clone(ps.3, input, Err(None))
                    && yields_on_clone(ps.4, input, Err(None))
                    && yields_on_clone(ps.5, input, Err(None))
                    && yields_on_clone(ps.6, input, Err(None))
                    && yields_on_clone(ps.7, input, Err(None))
                    && yields_on_clone(ps.8, input, Err(None))
                    && yields_on_clone(ps.9, input, Err(None))
                    && yields_on_clone(ps.10, input, res)
                ||| yields_on_clone(ps.0, input, Err(None))
                    && yields_on_clone(ps.1, input, Err(None))
                    && yields_on_clone(ps.2, input, Err(None))
                    && yields_on_clone(ps.3, input, Err(None))
                    && yields_on_clone(ps.4, input, Err(None))
                    && yields_on_clone(ps.5, input, Err(None))
                    && yields_on_clone(ps.6, input, Err(None))
                    && yields_on_clone(ps.7, input, Err(None))
                    && yields_on_clone(ps.8, input, Err(None))
                    && yields_on_clone(ps.9, input, Err(None))
                    && yields_on_clone(ps.10, input, Err(None))
                    && yields_on_clone(ps.11, input, res)
            },
        }
    }

    fn parse(&self, txt: IN) -> (res: Result<(OUT, IN), Option<ER>>) {
        let c0 = txt.clone();
        let r0 = self.ps.0.parse(c0);
        assert(yields_on_clone(self.ps.0, txt, r0));
        match r0 {
            Err(None) => {},
            _ => return r0,
        }
        let c1 = txt.clone();
        let r1 = self.ps.1.parse(c1);
        assert(yields_on_clone(self.ps.1, txt, r1));
        match r1 {
            Err(None) => {},
            _ => return r1,
        }
        let c2 = txt.clone();
        let r2 = self.ps.2.parse(c2);
        assert(yields_on_clone(self.ps.2, txt, r2));
        match r2 {
            Err(None) => {},
            _ => return r2,
        }
        let c3 = txt.clone();
        let r3 = self.ps.3.parse(c3);
        assert(yields_on_clone(self.ps.3, txt, r3));
        match r3 {
            Err(None) => {},
            _ => return r3,
        }
        let c4 = txt.clone();
        let r4 = self.ps.4.parse(c4);
        assert(yields_on_clone(self.ps.4, txt, r4));
        match r4 {
            Err(None) => {},
            _ => return r4,
        }
        let c5 = txt.clone();
        let r5 = self.ps.5.parse(c5);
        assert(yields_on_clone(self.ps.5, txt, r5));
        match r5 {
            Err(None) => {},
            _ => return r5,
        }
        let c6 = txt.clone();
        let r6 = self.ps.6.parse(c6);
        assert(yields_on_clone(self.ps.6, txt, r6));
        match r6 {
            Err(None) => {},
            _ => return r6,
        }
        let c7 = txt.clone();
        let r7 = self.ps.7.parse(c7);
        assert(yields_on_clone(self.ps.7, txt, r7));
        match r7 {
            Err(None) => {},
            _ => return r7,
        }
        let c8 = txt.clone();
        let r8 = self.ps.8.parse(c8);
        assert(yields_on_clone(self.ps.8, txt, r8));
        match r8 {
            Err(None) => {},
            _ => return r8,
        }
        let c9 = txt.clone();
        let r9 = self.ps.9.parse(c9);
        assert(yields_on_clone(self.ps.9, txt, r9));
        match r9 {
            Err(None) => {},
            _ => return r9,
        }
        let c10 = txt.clone();
        let r10 = self.ps.10.parse(c10);
        assert(yields_on_clone(self.ps.10, txt, r10));
        match r10 {
            Err(None) => {},
            _ => return r10,
        }
        let c11 = txt.clone();
        let r11 = self.ps.11.parse(c11);
        assert(yields_on_clone(self.ps.11, txt, r11));
        match r11 {
            Err(None) => {},
            _ => return r11,
        }
        Err(None)
    }
}

/// Over inputs whose clones are equal, a branch of 12 deterministic
/// segments is deterministic.
pub proof fn lemma_branch12_deterministic<IN: Clone, OUT, ER, A, B, C, D, E, F, G, H, I, J, K, L>(b: Branch<IN, ER, (A, B, C, D, E, F, G, H, I, J, K, L)>)
    where
        A: Parser<IN, Out = OUT, Error = Option<ER>>,
        B: Parser<IN, Out = OUT, Error = Option<ER>>,
        C: Parser<IN, Out = OUT, Error = Option<ER>>,
        D: Parser<IN, Out = OUT, Error = Option<ER>>,
        E: Parser<IN, Out = OUT, Error = Option<ER>>,
        F: Parser<IN, Out = OUT, Error = Option<ER>>,
        G: Parser<IN, Out = OUT, Error = Option<ER>>,
        H: Parser<IN, Out = OUT, Error = Option<ER>>,
        I: Parser<IN, Out = OUT, Error = Option<ER>>,
        J: Parser<IN, Out = OUT, Error = Option<ER>>,
        K: Parser<IN, Out = OUT, Error = Option<ER>>,
        L: Parser<IN, Out = OUT, Error = Option<ER>>,
    requires
        clones_are_equal::<IN>(),
        deterministic::<IN, A>(b.segments().0),
        deterministic::<IN, B>(b.segments().1),
        deterministic::<IN, C>(b.segments().2),
        deterministic::<IN, D>(b.segments().3),
        deterministic::<IN, E>(b.segments().4),
        deterministic::<IN, F>(b.segments().5),
        deterministic::<IN, G>(b.segments().6),
        deterministic::<IN, H>(b.segments().7),
        deterministic::<IN, I>(b.segments().8),
        deterministic::<IN, J>(b.segments().9),
        deterministic::<IN, K>(b.segments().10),
        deterministic::<IN, L>(b.segments().11),
    ensures
        deterministic::<IN, Branch<IN, ER, (A, B, C, D, E, F, G, H, I, J, K, L)>>(b),
{
    lemma_clones_are_transparent::<IN, A>(b.segments().0);
    lemma_clones_are_transparent::<IN, B>(b.segments().1);
    lemma_clones_are_transparent::<IN, C>(b.segments().2);
    lemma_clones_are_transparent::<IN, D>(b.segments().3);
    lemma_clones_are_transparent::<IN, E>(b.segments().4);
    lemma_clones_are_transparent::<IN, F>(b.segments().5);
    lemma_clones_are_transparent::<IN, G>(b.segments().6);
    lemma_clones_are_transparent::<IN, H>(b.segments().7);
    lemma_clones_are_transparent::<IN, I>(b.segments().8);
    lemma_clones_are_transparent::<IN, J>(b.segments().9);
    lemma_clones_are_transparent::<IN, K>(b.segments().10);
    lemma_clones_are_transparent::<IN, L>(b.segments().11);
}

impl<IN: Clone, OUT, ER, A, B, C, D, E, F, G, H, I, J, K, L, M> From<(A, B, C, D, E, F, G, H, I, J, K, L, M)> for Branch<IN, ER, (A, B, C, D, E, F, G, H, I, J, K, L, M)> where
    A: Parser<IN, Out = OUT, Error = Option<ER>>,
    B: Parser<IN, Out = OUT, Error = Option<ER>>,
    C: Parser<IN, Out = OUT, Error = Option<ER>>,
    D: Parser<IN, Out = OUT, Error = Option<ER>>,
    E: Parser<IN, Out = OUT, Error = Option<ER>>,
    F: Parser<IN, Out = OUT, Error = Option<ER>>,
    G: Parser<IN, Out = OUT, Error = Option<ER>>,
    H: Parser<IN, Out = OUT, Error = Option<ER>>,
    I: Parser<IN, Out = OUT, Error = Option<ER>>,
    J: Parser<IN, Out = OUT, Error = Option<ER>>,
    K: Parser<IN, Out = OUT, Error = Option<ER>>,
    L: Parser<IN, Out = OUT, Error = Option<ER>>,
    M: Parser<IN, Out = OUT, Error = Option<ER>>,
 {
    fn from(ps: (A, B, C, D, E, F, G, H, I, J, K, L, M)) -> (r: Self) {
        let r = Self { ps, _ghost: PhantomData };
        proof {
            lemma_branch_determined_by_segments(r, ps);
        }
        r
    }
}

impl<IN: Clone, OUT, ER, A, B, C, D, E, F, G, H, I, J, K, L, M> FromSpecImpl<(A, B, C, D, E, F, G, H, I, J, K, L, M)> for Branch<IN, ER, (A, B, C, D, E, F, G, H, I, J, K, L, M)> where
    A: Parser<IN, Out = OUT, Error = Option<ER>>,
    B: Parser<IN, Out = OUT, Error = Option<ER>>,
    C: Parser<IN, Out = OUT, Error = Option<ER>>,
    D: Parser<IN, Out = OUT, Error = Option<ER>>,
    E: Parser<IN, Out = OUT, Error = Option<ER>>,
    F: Parser<IN, Out = OUT, Error = Option<ER>>,
    G: Parser<IN, Out = OUT, Error = Option<ER>>,
    H: Parser<IN, Out = OUT, Error = Option<ER>>,
    I: Parser<IN, Out = OUT, Error = Option<ER>>,
    J: Parser<IN, Out = OUT, Error = Option<ER>>,
    K: Parser<IN, Out = OUT, Error = Option<ER>>,
    L: Parser<IN, Out = OUT, Error = Option<ER>>,
    M: Parser<IN, Out = OUT, Error = Option<ER>>,
 {
    open spec fn obeys_from_spec() -> bool {
        true
    }

    open spec fn from_spec(ps: (A, B, C, D, E, F, G, H, I, J, K, L, M)) -> Self {
        choose|b: Self| b.segments() == ps
    }
}

/// A branch between 13 segments with one output type.
impl<IN: Clone, OUT, ER, A, B, C, D, E, F, G, H, I, J, K, L, M> Parser<IN> for Branch<IN, ER, (A, B, C, D, E, F, G, H, I, J, K, L, M)> where
    A: Parser<IN, Out = OUT, Error = Option<ER>>,
    B: Parser<IN, Out = OUT, Error = Option<ER>>,
    C: Parser<IN, Out = OUT, Error = Option<ER>>,
    D: Parser<IN, Out = OUT, Error = Option<ER>>,
    E: Parser<IN, Out = OUT, Error = Option<ER>>,
    F: Parser<IN, Out = OUT, Error = Option<ER>>,
    G: Parser<IN, Out = OUT, Error = Option<ER>>,
    H: Parser<IN, Out = OUT, Error = Option<ER>>,
    I: Parser<IN, Out = OUT, Error = Option<ER>>,
    J: Parser<IN, Out = OUT, Error = Option<ER>>,
    K: Parser<IN, Out = OUT, Error = Option<ER>>,
    L: Parser<IN, Out = OUT, Error = Option<ER>>,
    M: Parser<IN, Out = OUT, Error = Option<ER>>,
 {
    type Out = OUT;

    type Error = Option<ER>;

    open spec fn parse_requires(&self, input: IN) -> bool {
        let ps = self.segments();
        &&& accepts_clones(ps.0, input)
        &&& yields_on_clone(ps.0, input, Err(None))
            ==> accepts_clones(ps.1, input)
        &&& yields_on_clone(ps.0, input, Err(None))
            && yields_on_clone(ps.1, input, Err(None))
            ==> accepts_clones(ps.2, input)
        &&& yields_on_clone(ps.0, input, Err(None))
            && yields_on_clone(ps.1, input, Err(None))
            && yields_on_clone(ps.2, input, Err(None))
            ==> accepts_clones(ps.3, input)
        &&& yields_on_clone(ps.0, input, Err(None))
            && yields_on_clone(ps.1, input, Err(None))
            && yields_on_clone(ps.2, input, Err(None))
            && yields_on_clone(ps.3, input, Err(None))
            ==> accepts_clones(ps.4, input)
        &&& yields_on_clone(ps.0, input, Err(None))
            && yields_on_clone(ps.1, input, Err(None))
            && yields_on_clone(ps.2, input, Err(None))
            && yields_on_clone(ps.3, input, Err(None))
            && yields_on_clone(ps.4, input, Err(None))
            ==> accepts_clones(ps.5, input)
        &&& yields_on_clone(ps.0, input, Err(None))
            && yields_on_clone(ps.1, input, Err(None))
            && yields_on_clone(ps.2, input, Err(None))
            && yields_on_clone(ps.3, input, Err(None))
            && yields_on_clone(ps.4, input, Err(None))
            && yields_on_clone(ps.5, input, Err(None))
            ==> accepts_clones(ps.6, input)
        &&& yields_on_clone(ps.0, input, Err(None))
            && yields_on_clone(ps.1, input, Err(None))
            && yields_on_clone(ps.2, input, Err(None))
            && yields_on_clone(ps.3, input, Err(None))
            && yields_on_clone(ps.4, input, Err(None))
            && yields_on_clone(ps.5, input, Err(None))
            && yields_on_clone(ps.6, input, Err(None))
            ==> accepts_clones(ps.7, input)
        &&& yields_on_clone(ps.0, input, Err(None))
            && yields_on_clone(ps.1, input, Err(None))
            && yields_on_clone(ps.2, input, Err(None))
            && yields_on_clone(ps.3, input, Err(None))
            && yields_on_clone(ps.4, input, Err(None))
            && yields_on_clone(ps.5, input, Err(None))
            && yields_on_clone(ps.6, input, Err(None))
            && yields_on_clone(ps.7, input, Err(None))
            ==> accepts_clones(ps.8, input)
        &&& yields_on_clone(ps.0, input, Err(None))
            && yields_on_clone(ps.1, input, Err(None))
            && yields_on_clone(ps.2, input, Err(None))
            && yields_on_clone(ps.3, input, Err(None))
            && yields_on_clone(ps.4, input, Err(None))
            && yields_on_clone(ps.5, input, Err(None))
            && yields_on_clone(ps.6, input, Err(None))
            && yields_on_clone(ps.7, input, Err(None))
            && yields_on_clone(ps.8, input, Err(None))
            ==> accepts_clones(ps.9, input)
        &&& yields_on_clone(ps.0, input, Err(None))
            && yields_on_clone(ps.1, input, Err(None))
            && yields_on_clone(ps.2, input, Err(None))
            && yields_on_clone(ps.3, input, Err(None))
            && yields_on_clone(ps.4, input, Err(None))
            && yields_on_clone(ps.5, input, Err(None))
            && yields_on_clone(ps.6, input, Err(None))
            && yields_on_clone(ps.7, input, Err(None))
            && yields_on_clone(ps.8, input, Err(None))
            && yields_on_clone(ps.9, input, Err(None))
            ==> accepts_clones(ps.10, input)
        &&& yields_on_clone(ps.0, input, Err(None))
            && yields_on_clone(ps.1, input, Err(None))
            && yields_on_clone(ps.2, input, Err(None))
            && yields_on_clone(ps.3, input, Err(None))
            && yields_on_clone(ps.4, input, Err(None))
            && yields_on_clone(ps.5, input, Err(None))
            && yields_on_clone(ps.6, input, Err(None))
            && yields_on_clone(ps.7, input, Err(None))
            && yields_on_clone(ps.8, input, Err(None))
            && yields_on_clone(ps.9, input, Err(None))
            && yields_on_clone(ps.10, input, Err(None))
            ==> accepts_clones(ps.11, input)
        &&& yields_on_clone(ps.0, input, Err(None))
            && yields_on_clone(ps.1, input, Err(None))
            && yields_on_clone(ps.2, input, Err(None))
            && yields_on_clone(ps.3, input, Err(None))
            && yields_on_clone(ps.4, input, Err(None))
            && yields_on_clone(ps.5, input, Err(None))
            && yields_on_clone(ps.6, input, Err(None))
            && yields_on_clone(ps.7, input, Err(None))
            && yields_on_clone(ps.8, input, Err(None))
            && yields_on_clone(ps.9, input, Err(None))
            && yields_on_clone(ps.10, input, Err(None))
            && yields_on_clone(ps.11, input, Err(None))
            ==> accepts_clones(ps.12, input)
    }

    open spec fn parse_ensures(&self, input: IN, res: Result<(OUT, IN), Option<ER>>) -> bool {
        let ps = self.segments();
        match res {
            Err(None) => {
                &&& yields_on_clone(ps.0, input, Err(None))
                &&& yields_on_clone(ps.1, input, Err(None))
                &&& yields_on_clone(ps.2, input, Err(None))
                &&& yields_on_clone(ps.3, input, Err(None))
                &&& yields_on_clone(ps.4, input, Err(None))
                &&& yields_on_clone(ps.5, input, Err(None))
                &&& yields_on_clone(ps.6, input, Err(None))
                &&& yields_on_clone(ps.7, input, Err(None))
                &&& yields_on_clone(ps.8, input, Err(None))
                &&& yields_on_clone(ps.9, input, Err(None))
                &&& yields_on_clone(ps.10, input, Err(None))
                &&& yields_on_clone(ps.11, input, Err(None))
                &&& yields_on_clone(ps.12, input, Err(None))
            },
            _ => {
                ||| yields_on_clone(ps.0, input, res)
                ||| yields_on_clone(ps.0, input, Err(None))
                    && yields_on_clone(ps.1, input, res)
                ||| yields_on_clone(ps.0, input, Err(None))
                    && yields_on_clone(ps.1, input, Err(None))
                    && yields_on_clone(ps.2, input, res)
                ||| yields_on_clone(ps.0, input, Err(None))
                    && yields_on_clone(ps.1, input, Err(None))
                    && yields_on_clone(ps.2, input, Err(None))
                    && yields_on_clone(ps.3, input, res)
                ||| yields_on_clone(ps.0, input, Err(None))
                    && yields_on_clone(ps.1, input, Err(None))
                    && yields_on_clone(ps.2, input, Err(None))
                    && yields_on_clone(ps.3, input, Err(None))
                    && yields_on_clone(ps.4, input, res)
                ||| yields_on_clone(ps.0, input, Err(None))
                    && yields_on_clone(ps.1, input, Err(None))
                    && yields_on_clone(ps.2, input, Err(None))
                    && yields_on_clone(ps.3, input, Err(None))
                    && yields_on_clone(ps.4, input, Err(None))
                    && yields_on_clone(ps.5, input, res)
                ||| yields_on_clone(ps.0, input, Err(None))
                    && yields_on_clone(ps.1, input, Err(None))
                    && yields_on_clone(ps.2, input, Err(None))
                    && yields_on_clone(ps.3, input, Err(None))
                    && yields_on_clone(ps.4, input, Err(None))
                    && yields_on_clone(ps.5, input, Err(None))
                    && yields_on_clone(ps.6, input, res)
                ||| yields_on_clone(ps.0, input, Err(None))
                    && yields_on_clone(ps.1, input, Err(None))
                    && yields_on_clone(ps.2, input, Err(None))
                    && yields_on_clone(ps.3, input, Err(None))
                    && yields_on_clone(ps.4, input, Err(None))
                    && yields_on_clone(ps.5, input, Err(None))
                    && yields_on_clone(ps.6, input, Err(None))
                    && yields_on_clone(ps.7, input, res)
                ||| yields_on_clone(ps.0, input, Err(None))
                    && yields_on_clone(ps.1, input, Err(None))
                    && yields_on_clone(ps.2, input, Err(None))
                    && yields_on_clone(ps.3, input, Err(None))
                    && yields_on_clone(ps.4, input, Err(None))
                    && yields_on_clone(ps.5, input, Err(None))
                    && yields_on_clone(ps.6, input, Err(None))
                    && yields_on_clone(ps.7, input, Err(None))
                    && yields_on_clone(ps.8, input, res)
                ||| yields_on_clone(ps.0, input, Err(None))
                    && yields_on_clone(ps.1, input, Err(None))
                    && yields_on_clone(ps.2, input, Err(None))
                    && yields_on_clone(ps.3, input, Err(None))
                    && yields_on_clone(ps.4, input, Err(None))
                    && yields_on_clone(ps.5, input, Err(None))
                    && yields_on_clone(ps.6, input, Err(None))
                    && yields_on_clone(ps.7, input, Err(None))
                    && yields_on_clone(ps.8, input, Err(None))
                    && yields_on_clone(ps.9, input, res)
                ||| yields_on_clone(ps.0, input, Err(None))
                    && yields_on_clone(ps.1, input, Err(None))
                    && yields_on_clone(ps.2, input, Err(None))
                    && yields_on_clone(ps.3, input, Err(None))
                    && yields_on_clone(ps.4, input, Err(None))
                    && yields_on_clone(ps.5, input, Err(None))
                    && yields_on_clone(ps.6, input, Err(None))
                    && yields_on_clone(ps.7, input, Err(None))
                    && yields_on_clone(ps.8, input, Err(None))
                    && yields_on_clone(ps.9, input, Err(None))
                    && yields_on_clone(ps.10, input, res)
                ||| yields_on_clone(ps.0, input, Err(None))
                    && yields_on_clone(ps.1, input, Err(None))
                    && yields_on_clone(ps.2, input, Err(None))
                    && yields_on_clone(ps.3, input, Err(None))
                    && yields_on_clone(ps.4, input, Err(None))
                    && yields_on_clone(ps.5, input, Err(None))
                    && yields_on_clone(ps.6, input, Err(None))
                    && yields_on_clone(ps.7, input, Err(None))
                    && yields_on_clone(ps.8, input, Err(None))
                    && yields_on_clone(ps.9, input, Err(None))
                    && yields_on_clone(ps.10, input, Err(None))
                    && yields_on_clone(ps.11, input, res)
                ||| yields_on_clone(ps.0, input, Err(None))
                    && yields_on_clone(ps.1, input, Err(None))
                    && yields_on_clone(ps.2, input, Err(None))
                    && yields_on_clone(ps.3, input, Err(None))
                    && yields_on_clone(ps.4, input, Err(None))
                    && yields_on_clone(ps.5, input, Err(None))
                    && yields_on_clone(ps.6, input, Err(None))
                    && yields_on_clone(ps.7, input, Err(None))
                    && yields_on_clone(ps.8, input, Err(None))
                    && yields_on_clone(ps.9, input, Err(None))
                    && yields_on_clone(ps.10, input, Err(None))
                    && yields_on_clone(ps.11, input, Err(None))
                    && yields_on_clone(ps.12, input, res)
            },
        }
    }

    fn parse(&self, txt: IN) -> (res: Result<(OUT, IN), Option<ER>>) {
        let c0 = txt.clone();
        let r0 = self.ps.0.parse(c0);
        assert(yields_on_clone(self.ps.0, txt, r0));
        match r0 {
            Err(None) => {},
            _ => return r0,
        }
        let c1 = txt.clone();
        let r1 = self.ps.1.parse(c1);
        assert(yields_on_clone(self.ps.1, txt, r1));
        match r1 {
            Err(None) => {},
            _ => return r1,
        }
        let c2 = txt.clone();
        let r2 = self.ps.2.parse(c2);
        assert(yields_on_clone(self.ps.2, txt, r2));
        match r2 {
            Err(None) => {},
            _ => return r2,
        }
        let c3 = txt.clone();
        let r3 = self.ps.3.parse(c3);
        assert(yields_on_clone(self.ps.3, txt, r3));
        match r3 {
            Err(None) => {},
            _ => return r3,
        }
        let c4 = txt.clone();
        let r4 = self.ps.4.parse(c4);
        assert(yields_on_clone(self.ps.4, txt, r4));
        match r4 {
            Err(None) => {},
            _ => return r4,
        }
        let c5 = txt.clone();
        let r5 = self.ps.5.parse(c5);
        assert(yields_on_clone(self.ps.5, txt, r5));
        match r5 {
            Err(None) => {},
            _ => return r5,
        }
        let c6 = txt.clone();
        let r6 = self.ps.6.parse(c6);
        assert(yields_on_clone(self.ps.6, txt, r6));
        match r6 {
            Err(None) => {},
            _ => return r6,
        }
        let c7 = txt.clone();
        let r7 = self.ps.7.parse(c7);
        assert(yields_on_clone(self.ps.7, txt, r7));
        match r7 {
            Err(None) => {},
            _ => return r7,
        }
        let c8 = txt.clone();
        let r8 = self.ps.8.parse(c8);
        assert(yields_on_clone(self.ps.8, txt, r8));
        match r8 {
            Err(None) => {},
            _ => return r8,
        }
        let c9 = txt.clone();
        let r9 = self.ps.9.parse(c9);
        assert(yields_on_clone(self.ps.9, txt, r9));
        match r9 {
            Err(None) => {},
            _ => return r9,
        }
        let c10 = txt.clone();
        let r10 = self.ps.10.parse(c10);
        assert(yields_on_clone(self.ps.10, txt, r10));
        match r10 {
            Err(None) => {},
            _ => return r10,
        }
        let c11 = txt.clone();
        let r11 = self.ps.11.parse(c11);
        assert(yields_on_clone(self.ps.11, txt, r11));
        match r11 {
            Err(None) => {},
            _ => return r11,
        }
        let c12 = txt.clone();
        let r12 = self.ps.12.parse(c12);
        assert(yields_on_clone(self.ps.12, txt, r12));
        match r12 {
            Err(None) => {},
            _ => return r12,
        }
        Err(None)
    }
}

/// Over inputs whose clones are equal, a branch of 13 deterministic
/// segments is deterministic.
pub proof fn lemma_branch13_deterministic<IN: Clone, OUT, ER, A, B, C, D, E, F, G, H, I, J, K, L, M>(b: Branch<IN, ER, (A, B, C, D, E, F, G, H, I, J, K, L, M)>)
    where
        A: Parser<IN, Out = OUT, Error = Option<ER>>,
        B: Parser<IN, Out = OUT, Error = Option<ER>>,
        C: Parser<IN, Out = OUT, Error = Option<ER>>,
        D: Parser<IN, Out = OUT, Error = Option<ER>>,
        E: Parser<IN, Out = OUT, Error = Option<ER>>,
        F: Parser<IN, Out = OUT, Error = Option<ER>>,
        G: Parser<IN, Out = OUT, Error = Option<ER>>,
        H: Parser<IN, Out = OUT, Error = Option<ER>>,
        I: Parser<IN, Out = OUT, Error = Option<ER>>,
        J: Parser<IN, Out = OUT, Error = Option<ER>>,
        K: Parser<IN, Out = OUT, Error = Option<ER>>,
        L: Parser<IN, Out = OUT, Error = Option<ER>>,
        M: Parser<IN, Out = OUT, Error = Option<ER>>,
    requires
        clones_are_equal::<IN>(),
        deterministic::<IN, A>(b.segments().0),
        deterministic::<IN, B>(b.segments().1),
        deterministic::<IN, C>(b.segments().2),
        deterministic::<IN, D>(b.segments().3),
        deterministic::<IN, E>(b.segments().4),
        deterministic::<IN, F>(b.segments().5),
        deterministic::<IN, G>(b.segments().6),
        deterministic::<IN, H>(b.segments().7),
        deterministic::<IN, I>(b.segments().8),
        deterministic::<IN, J>(b.segments().9),
        deterministic::<IN, K>(b.segments().10),
        deterministic::<IN, L>(b.segments().11),
        deterministic::<IN, M>(b.segments().12),
    ensures
        deterministic::<IN, Branch<IN, ER, (A, B, C, D, E, F, G, H, I, J, K, L, M)>>(b),
{
    lemma_clones_are_transparent::<IN, A>(b.segments().0);
    lemma_clones_are_transparent::<IN, B>(b.segments().1);
    lemma_clones_are_transparent::<IN, C>(b.segments().2);
    lemma_clones_are_transparent::<IN, D>(b.segments().3);
    lemma_clones_are_transparent::<IN, E>(b.segments().4);
    lemma_clones_are_transparent::<IN, F>(b.segments().5);
    lemma_clones_are_transparent::<IN, G>(b.segments().6);
    lemma_clones_are_transparent::<IN, H>(b.segments().7);
    lemma_clones_are_transparent::<IN, I>(b.segments().8);
    lemma_clones_are_transparent::<IN, J>(b.segments().9);
    lemma_clones_are_transparent::<IN, K>(b.segments().10);
    lemma_clones_are_transparent::<IN, L>(b.segments().11);
    lemma_clones_are_transparent::<IN, M>(b.segments().12);
}

impl<IN: Clone, OUT, ER, A, B, C, D, E, F, G, H, I, J, K, L, M, N> From<(A, B, C, D, E, F, G, H, I, J, K, L, M, N)> for Branch<IN, ER, (A, B, C, D, E, F, G, H, I, J, K, L, M, N)> where
    A: Parser<IN, Out = OUT, Error = Option<ER>>,
    B: Parser<IN, Out = OUT, Error = Option<ER>>,
    C: Parser<IN, Out = OUT, Error = Option<ER>>,
    D: Parser<IN, Out = OUT, Error = Option<ER>>,
    E: Parser<IN, Out = OUT, Error = Option<ER>>,
    F: Parser<IN, Out = OUT, Error = Option<ER>>,
    G: Parser<IN, Out = OUT, Error = Option<ER>>,
    H: Parser<IN, Out = OUT, Error = Option<ER>>,
    I: Parser<IN, Out = OUT, Error = Option<ER>>,
    J: Parser<IN, Out = OUT, Error = Option<ER>>,
    K: Parser<IN, Out = OUT, Error = Option<ER>>,
    L: Parser<IN, Out = OUT, Error = Option<ER>>,
    M: Parser<IN, Out = OUT, Error = Option<ER>>,
    N: Parser<IN, Out = OUT, Error = Option<ER>>,
 {
    fn from(ps: (A, B, C, D, E, F, G, H, I, J, K, L, M, N)) -> (r: Self) {
        let r = Self { ps, _ghost: PhantomData };
        proof {
            lemma_branch_determined_by_segments(r, ps);
        }
        r
    }
}

impl<IN: Clone, OUT, ER, A, B, C, D, E, F, G, H, I, J, K, L, M, N> FromSpecImpl<(A, B, C, D, E, F, G, H, I, J, K, L, M, N)> for Branch<IN, ER, (A, B, C, D, E, F, G, H, I, J, K, L, M, N)> where
    A: Parser<IN, Out = OUT, Error = Option<ER>>,
    B: Parser<IN, Out = OUT, Error = Option<ER>>,
    C: Parser<IN, Out = OUT, Error = Option<ER>>,
    D: Parser<IN, Out = OUT, Error = Option<ER>>,
    E: Parser<IN, Out = OUT, Error = Option<ER>>,
    F: Parser<IN, Out = OUT, Error = Option<ER>>,
    G: Parser<IN, Out = OUT, Error = Option<ER>>,
    H: Parser<IN, Out = OUT, Error = Option<ER>>,
    I: Parser<IN, Out = OUT, Error = Option<ER>>,
    J: Parser<IN, Out = OUT, Error = Option<ER>>,
    K: Parser<IN, Out = OUT, Error = Option<ER>>,
    L: Parser<IN, Out = OUT, Error = Option<ER>>,
    M: Parser<IN, Out = OUT, Error = Option<ER>>,
    N: Parser<IN, Out = OUT, Error = Option<ER>>,
 {
    open spec fn obeys_from_spec() -> bool {
        true
    }

    open spec fn from_spec(ps: (A, B, C, D, E, F, G, H, I, J, K, L, M, N)) -> Self {
        choose|b: Self| b.segments() == ps
    }
}

/// A branch between 14 segments with one output type.
impl<IN: Clone, OUT, ER, A, B, C, D, E, F, G, H, I, J, K, L, M, N> Parser<IN> for Branch<IN, ER, (A, B, C, D, E, F, G, H, I, J, K, L, M, N)> where
    A: Parser<IN, Out = OUT, Error = Option<ER>>,
    B: Parser<IN, Out = OUT, Error = Option<ER>>,
    C: Parser<IN, Out = OUT, Error = Option<ER>>,
    D: Parser<IN, Out = OUT, Error = Option<ER>>,
    E: Parser<IN, Out = OUT, Error = Option<ER>>,
    F: Parser<IN, Out = OUT, Error = Option<ER>>,
    G: Parser<IN, Out = OUT, Error = Option<ER>>,
    H: Parser<IN, Out = OUT, Error = Option<ER>>,
    I: Parser<IN, Out = OUT, Error = Option<ER>>,
    J: Parser<IN, Out = OUT, Error = Option<ER>>,
    K: Parser<IN, Out = OUT, Error = Option<ER>>,
    L: Parser<IN, Out = OUT, Error = Option<ER>>,
    M: Parser<IN, Out = OUT, Error = Option<ER>>,
    N: Parser<IN, Out = OUT, Error = Option<ER>>,
 {
    type Out = OUT;

    type Error = Option<ER>;

    open spec fn parse_requires(&self, input: IN) -> bool {
        let ps = self.segments();
        &&& accepts_clones(ps.0, input)
        &&& yields_on_clone(ps.0, input, Err(None))
            ==> accepts_clones(ps.1, input)
        &&& yields_on_clone(ps.0, input, Err(None))
            && yields_on_clone(ps.1, input, Err(None))
            ==> accepts_clones(ps.2, input)
        &&& yields_on_clone(ps.0, input, Err(None))
            && yields_on_clone(ps.1, input, Err(None))
            && yields_on_clone(ps.2, input, Err(None))
            ==> accepts_clones(ps.3, input)
        &&& yields_on_clone(ps.0, input, Err(None))
            && yields_on_clone(ps.1, input, Err(None))
            && yields_on_clone(ps.2, input, Err(None))
            && yields_on_clone(ps.3, input, Err(None))
            ==> accepts_clones(ps.4, input)
        &&& yields_on_clone(ps.0, input, Err(None))
            && yields_on_clone(ps.1, input, Err(None))
            && yields_on_clone(ps.2, input, Err(None))
            && yields_on_clone(ps.3, input, Err(None))
            && yields_on_clone(ps.4, input, Err(None))
            ==> accepts_clones(ps.5, input)
        &&& yields_on_clone(ps.0, input, Err(None))
            && yields_on_clone(ps.1, input, Err(None))
            && yields_on_clone(ps.2, input, Err(None))
            && yields_on_clone(ps.3, input, Err(None))
            && yields_on_clone(ps.4, input, Err(None))
            && yields_on_clone(ps.5, input, Err(None))
            ==> accepts_clones(ps.6, input)
        &&& yields_on_clone(ps.0, input, Err(None))
            && yields_on_clone(ps.1, input, Err(None))
            && yields_on_clone(ps.2, input, Err(None))
            && yields_on_clone(ps.3, input, Err(None))
            && yields_on_clone(ps.4, input, Err(None))
            && yields_on_clone(ps.5, input, Err(None))
            && yields_on_clone(ps.6, input, Err(None))
            ==> accepts_clones(ps.7, input)
        &&& yields_on_clone(ps.0, input, Err(None))
            && yields_on_clone(ps.1, input, Err(None))
            && yields_on_clone(ps.2, input, Err(None))
            && yields_on_clone(ps.3, input, Err(None))
            && yields_on_clone(ps.4, input, Err(None))
            && yields_on_clone(ps.5, input, Err(None))
            && yields_on_clone(ps.6, input, Err(None))
            && yields_on_clone(ps.7, input, Err(None))
            ==> accepts_clones(ps.8, input)
        &&& yields_on_clone(ps.0, input, Err(None))
            && yields_on_clone(ps.1, input, Err(None))
            && yields_on_clone(ps.2, input, Err(None))
            && yields_on_clone(ps.3, input, Err(None))
            && yields_on_clone(ps.4, input, Err(None))
            && yields_on_clone(ps.5, input, Err(None))
            && yields_on_clone(ps.6, input, Err(None))
            && yields_on_clone(ps.7, input, Err(None))
            && yields_on_clone(ps.8, input, Err(None))
            ==> accepts_clones(ps.9, input)
        &&& yields_on_clone(ps.0, input, Err(None))
            && yields_on_clone(ps.1, input, Err(None))
            && yields_on_clone(ps.2, input, Err(None))
            && yields_on_clone(ps.3, input, Err(None))
            && yields_on_clone(ps.4, input, Err(None))
            && yields_on_clone(ps.5, input, Err(None))
            && yields_on_clone(ps.6, input, Err(None))
            && yields_on_clone(ps.7, input, Err(None))
            && yields_on_clone(ps.8, input, Err(None))
            && yields_on_clone(ps.9, input, Err(None))
            ==> accepts_clones(ps.10, input)
        &&& yields_on_clone(ps.0, input, Err(None))
            && yields_on_clone(ps.1, input, Err(None))
            && yields_on_clone(ps.2, input, Err(None))
            && yields_on_clone(ps.3, input, Err(None))
            && yields_on_clone(ps.4, input, Err(None))
            && yields_on_clone(ps.5, input, Err(None))
            && yields_on_clone(ps.6, input, Err(None))
            && yields_on_clone(ps.7, input, Err(None))
            && yields_on_clone(ps.8, input, Err(None))
            && yields_on_clone(ps.9, input, Err(None))
            && yields_on_clone(ps.10, input, Err(None))
            ==> accepts_clones(ps.11, input)
        &&& yields_on_clone(ps.0, input, Err(None))
            && yields_on_clone(ps.1, input, Err(None))
            && yields_on_clone(ps.2, input, Err(None))
            && yields_on_clone(ps.3, input, Err(None))
            && yields_on_clone(ps.4, input, Err(None))
            && yields_on_clone(ps.5, input, Err(None))
            && yields_on_clone(ps.6, input, Err(None))
            && yields_on_clone(ps.7, input, Err(None))
            && yields_on_clone(ps.8, input, Err(None))
            && yields_on_clone(ps.9, input, Err(None))
            && yields_on_clone(ps.10, input, Err(None))
            && yields_on_clone(ps.11, input, Err(None))
            ==> accepts_clones(ps.12, input)
        &&& yields_on_clone(ps.0, input, Err(None))
            && yields_on_clone(ps.1, input, Err(None))
            && yields_on_clone(ps.2, input, Err(None))
            && yields_on_clone(ps.3, input, Err(None))
            && yields_on_clone(ps.4, input, Err(None))
            && yields_on_clone(ps.5, input, Err(None))
            && yields_on_clone(ps.6, input, Err(None))
            && yields_on_clone(ps.7, input, Err(None))
            && yields_on_clone(ps.8, input, Err(None))
            && yields_on_clone(ps.9, input, Err(None))
            && yields_on_clone(ps.10, input, Err(None))
            && yields_on_clone(ps.11, input, Err(None))
            && yields_on_clone(ps.12, input, Err(None))
            ==> accepts_clones(ps.13, input)
    }

    open spec fn parse_ensures(&self, input: IN, res: Result<(OUT, IN), Option<ER>>) -> bool {
        let ps = self.segments();
        match res {
            Err(None) => {
                &&& yields_on_clone(ps.0, input, Err(None))
                &&& yields_on_clone(ps.1, input, Err(None))
                &&& yields_on_clone(ps.2, input, Err(None))
                &&& yields_on_clone(ps.3, input, Err(None))
                &&& yields_on_clone(ps.4, input, Err(None))
                &&& yields_on_clone(ps.5, input, Err(None))
                &&& yields_on_clone(ps.6, input, Err(None))
                &&& yields_on_clone(ps.7, input, Err(None))
                &&& yields_on_clone(ps.8, input, Err(None))
                &&& yields_on_clone(ps.9, input, Err(None))
                &&& yields_on_clone(ps.10, input, Err(None))
                &&& yields_on_clone(ps.11, input, Err(None))
                &&& yields_on_clone(ps.12, input, Err(None))
                &&& yields_on_clone(ps.13, input, Err(None))
            },
            _ => {
                ||| yields_on_clone(ps.0, input, res)
                ||| yields_on_clone(ps.0, input, Err(None))
                    && yields_on_clone(ps.1, input, res)
                ||| yields_on_clone(ps.0, input, Err(None))
                    && yields_on_clone(ps.1, input, Err(None))
                    && yields_on_clone(ps.2, input, res)
                ||| yields_on_clone(ps.0, input, Err(None))
                    && yields_on_clone(ps.1, input, Err(None))
                    && yields_on_clone(ps.2, input, Err(None))
                    && yields_on_clone(ps.3, input, res)
                ||| yields_on_clone(ps.0, input, Err(None))
                    && yields_on_clone(ps.1, input, Err(None))
                    && yields_on_clone(ps.2, input, Err(None))
                    && yields_on_clone(ps.3, input, Err(None))
                    && yields_on_clone(ps.4, input, res)
                ||| yields_on_clone(ps.0, input, Err(None))
                    && yields_on_clone(ps.1, input, Err(None))
                    && yields_on_clone(ps.2, input, Err(None))
                    && yields_on_clone(ps.3, input, Err(None))
                    && yields_on_clone(ps.4, input, Err(None))
                    && yields_on_clone(ps.5, input, res)
                ||| yields_on_clone(ps.0, input, Err(None))
                    && yields_on_clone(ps.1, input, Err(None))
                    && yields_on_clone(ps.2, input, Err(None))
                    && yields_on_clone(ps.3, input, Err(None))
                    && yields_on_clone(ps.4, input, Err(None))
                    && yields_on_clone(ps.5, input, Err(None))
                    && yields_on_clone(ps.6, input, res)
                ||| yields_on_clone(ps.0, input, Err(None))
                    && yields_on_clone(ps.1, input, Err(None))
                    && yields_on_clone(ps.2, input, Err(None))
                    && yields_on_clone(ps.3, input, Err(None))
                    && yields_on_clone(ps.4, input, Err(None))
                    && yields_on_clone(ps.5, input, Err(None))
                    && yields_on_clone(ps.6, input, Err(None))
                    && yields_on_clone(ps.7, input, res)
                ||| yields_on_clone(ps.0, input, Err(None))
                    && yields_on_clone(ps.1, input, Err(None))
                    && yields_on_clone(ps.2, input, Err(None))
                    && yields_on_clone(ps.3, input, Err(None))
                    && yields_on_clone(ps.4, input, Err(None))
                    && yields_on_clone(ps.5, input, Err(None))
                    && yields_on_clone(ps.6, input, Err(None))
                    && yields_on_clone(ps.7, input, Err(None))
                    && yields_on_clone(ps.8, input, res)
                ||| yields_on_clone(ps.0, input, Err(None))
                    && yields_on_clone(ps.1, input, Err(None))
                    && yields_on_clone(ps.2, input, Err(None))
                    && yields_on_clone(ps.3, input, Err(None))
                    && yields_on_clone(ps.4, input, Err(None))
                    && yields_on_clone(ps.5, input, Err(None))
                    && yields_on_clone(ps.6, input, Err(None))
                    && yields_on_clone(ps.7, input, Err(None))
                    && yields_on_clone(ps.8, input, Err(None))
                    && yields_on_clone(ps.9, input, res)
                ||| yields_on_clone(ps.0, input, Err(None))
                    && yields_on_clone(ps.1, input, Err(None))
                    && yields_on_clone(ps.2, input, Err(None))
                    && yields_on_clone(ps.3, input, Err(None))
                    && yields_on_clone(ps.4, input, Err(None))
                    && yields_on_clone(ps.5, input, Err(None))
                    && yields_on_clone(ps.6, input, Err(None))
                    && yields_on_clone(ps.7, input, Err(None))
                    && yields_on_clone(ps.8, input, Err(None))
                    && yields_on_clone(ps.9, input, Err(None))
                    && yields_on_clone(ps.10, input, res)
                ||| yields_on_clone(ps.0, input, Err(None))
                    && yields_on_clone(ps.1, input, Err(None))
                    && yields_on_clone(ps.2, input, Err(None))
                    && yields_on_clone(ps.3, input, Err(None))
                    && yields_on_clone(ps.4, input, Err(None))
                    && yields_on_clone(ps.5, input, Err(None))
                    && yields_on_clone(ps.6, input, Err(None))
                    && yields_on_clone(ps.7, input, Err(None))
                    && yields_on_clone(ps.8, input, Err(None))
                    && yields_on_clone(ps.9, input, Err(None))
                    && yields_on_clone(ps.10, input, Err(None))
                    && yields_on_clone(ps.11, input, res)
                ||| yields_on_clone(ps.0, input, Err(None))
                    && yields_on_clone(ps.1, input, Err(None))
                    && yields_on_clone(ps.2, input, Err(None))
                    && yields_on_clone(ps.3, input, Err(None))
                    && yields_on_clone(ps.4, input, Err(None))
                    && yields_on_clone(ps.5, input, Err(None))
                    && yields_on_clone(ps.6, input, Err(None))
                    && yields_on_clone(ps.7, input, Err(None))
                    && yields_on_clone(ps.8, input, Err(None))
                    && yields_on_clone(ps.9, input, Err(None))
                    && yields_on_clone(ps.10, input, Err(None))
                    && yields_on_clone(ps.11, input, Err(None))
                    && yields_on_clone(ps.12, input, res)
                ||| yields_on_clone(ps.0, input, Err(None))
                    && yields_on_clone(ps.1, input, Err(None))
                    && yields_on_clone(ps.2, input, Err(None))
                    && yields_on_clone(ps.3, input, Err(None))
                    && yields_on_clone(ps.4, input, Err(None))
                    && yields_on_clone(ps.5, input, Err(None))
                    && yields_on_clone(ps.6, input, Err(None))
                    && yields_on_clone(ps.7, input, Err(None))
                    && yields_on_clone(ps.8, input, Err(None))
                    && yields_on_clone(ps.9, input, Err(None))
                    && yields_on_clone(ps.10, input, Err(None))
                    && yields_on_clone(ps.11, input, Err(None))
                    && yields_on_clone(ps.12, input, Err(None))
                    && yields_on_clone(ps.13, input, res)
            },
        }
    }

    fn parse(&self, txt: IN) -> (res: Result<(OUT, IN), Option<ER>>) {
        let c0 = txt.clone();
        let r0 = self.ps.0.parse(c0);
        assert(yields_on_clone(self.ps.0, txt, r0));
        match r0 {
            Err(None) => {},
            _ => return r0,
        }
        let c1 = txt.clone();
        let r1 = self.ps.1.parse(c1);
        assert(yields_on_clone(self.ps.1, txt, r1));
        match r1 {
            Err(None) => {},
            _ => return r1,
        }
        let c2 = txt.clone();
        let r2 = self.ps.2.parse(c2);
        assert(yields_on_clone(self.ps.2, txt, r2));
        match r2 {
            Err(None) => {},
            _ => return r2,
        }
        let c3 = txt.clone();
        let r3 = self.ps.3.parse(c3);
        assert(yields_on_clone(self.ps.3, txt, r3));
        match r3 {
            Err(None) => {},
            _ => return r3,
        }
        let c4 = txt.clone();
        let r4 = self.ps.4.parse(c4);
        assert(yields_on_clone(self.ps.4, txt, r4));
        match r4 {
            Err(None) => {},
            _ => return r4,
        }
        let c5 = txt.clone();
        let r5 = self.ps.5.parse(c5);
        assert(yields_on_clone(self.ps.5, txt, r5));
        match r5 {
            Err(None) => {},
            _ => return r5,
        }
        let c6 = txt.clone();
        let r6 = self.ps.6.parse(c6);
        assert(yields_on_clone(self.ps.6, txt, r6));
        match r6 {
            Err(None) => {},
            _ => return r6,
        }
        let c7 = txt.clone();
        let r7 = self.ps.7.parse(c7);
        assert(yields_on_clone(self.ps.7, txt, r7));
        match r7 {
            Err(None) => {},
            _ => return r7,
        }
        let c8 = txt.clone();
        let r8 = self.ps.8.parse(c8);
        assert(yields_on_clone(self.ps.8, txt, r8));
        match r8 {
            Err(None) => {},
            _ => return r8,
        }
        let c9 = txt.clone();
        let r9 = self.ps.9.parse(c9);
        assert(yields_on_clone(self.ps.9, txt, r9));
        match r9 {
            Err(None) => {},
            _ => return r9,
        }
        let c10 = txt.clone();
        let r10 = self.ps.10.parse(c10);
        assert(yields_on_clone(self.ps.10, txt, r10));
        match r10 {
            Err(None) => {},
            _ => return r10,
        }
        let c11 = txt.clone();
        let r11 = self.ps.11.parse(c11);
        assert(yields_on_clone(self.ps.11, txt, r11));
        match r11 {
            Err(None) => {},
            _ => return r11,
        }
        let c12 = txt.clone();
        let r12 = self.ps.12.parse(c12);
        assert(yields_on_clone(self.ps.12, txt, r12));
        match r12 {
            Err(None) => {},
            _ => return r12,
        }
        let c13 = txt.clone();
        let r13 = self.ps.13.parse(c13);
        assert(yields_on_clone(self.ps.13, txt, r13));
        match r13 {
            Err(None) => {},
            _ => return r13,
        }
        Err(None)
    }
}

/// Over inputs whose clones are equal, a branch of 14 deterministic
/// segments is deterministic.
pub proof fn lemma_branch14_deterministic<IN: Clone, OUT, ER, A, B, C, D, E, F, G, H, I, J, K, L, M, N>(b: Branch<IN, ER, (A, B, C, D, E, F, G, H, I, J, K, L, M, N)>)
    where
        A: Parser<IN, Out = OUT, Error = Option<ER>>,
        B: Parser<IN, Out = OUT, Error = Option<ER>>,
        C: Parser<IN, Out = OUT, Error = Option<ER>>,
        D: Parser<IN, Out = OUT, Error = Option<ER>>,
        E: Parser<IN, Out = OUT, Error = Option<ER>>,
        F: Parser<IN, Out = OUT, Error = Option<ER>>,
        G: Parser<IN, Out = OUT, Error = Option<ER>>,
        H: Parser<IN, Out = OUT, Error = Option<ER>>,
        I: Parser<IN, Out = OUT, Error = Option<ER>>,
        J: Parser<IN, Out = OUT, Error = Option<ER>>,
        K: Parser<IN, Out = OUT, Error = Option<ER>>,
        L: Parser<IN, Out = OUT, Error = Option<ER>>,
        M: Parser<IN, Out = OUT, Error = Option<ER>>,
        N: Parser<IN, Out = OUT, Error = Option<ER>>,
    requires
        clones_are_equal::<IN>(),
        deterministic::<IN, A>(b.segments().0),
        deterministic::<IN, B>(b.segments().1),
        deterministic::<IN, C>(b.segments().2),
        deterministic::<IN, D>(b.segments().3),
        deterministic::<IN, E>(b.segments().4),
        deterministic::<IN, F>(b.segments().5),
        deterministic::<IN, G>(b.segments().6),
        deterministic::<IN, H>(b.segments().7),
        deterministic::<IN, I>(b.segments().8),
        deterministic::<IN, J>(b.segments().9),
        deterministic::<IN, K>(b.segments().10),
        deterministic::<IN, L>(b.segments().11),
        deterministic::<IN, M>(b.segments().12),
        deterministic::<IN, N>(b.segments().13),
    ensures
        deterministic::<IN, Branch<IN, ER, (A, B, C, D, E, F, G, H, I, J, K, L, M, N)>>(b),
{
    lemma_clones_are_transparent::<IN, A>(b.segments().0);
    lemma_clones_are_transparent::<IN, B>(b.segments().1);
    lemma_clones_are_transparent::<IN, C>(b.segments().2);
    lemma_clones_are_transparent::<IN, D>(b.segments().3);
    lemma_clones_are_transparent::<IN, E>(b.segments().4);
    lemma_clones_are_transparent::<IN, F>(b.segments().5);
    lemma_clones_are_transparent::<IN, G>(b.segments().6);
    lemma_clones_are_transparent::<IN, H>(b.segments().7);
    lemma_clones_are_transparent::<IN, I>(b.segments().8);
    lemma_clones_are_transparent::<IN, J>(b.segments().9);
    lemma_clones_are_transparent::<IN, K>(b.segments().10);
    lemma_clones_are_transparent::<IN, L>(b.segments().11);
    lemma_clones_are_transparent::<IN, M>(b.segments().12);
    lemma_clones_are_transparent::<IN, N>(b.segments().13);
}

impl<IN: Clone, OUT, ER, A, B, C, D, E, F, G, H, I, J, K, L, M, N, O> From<(A, B, C, D, E, F, G, H, I, J, K, L, M, N, O)> for Branch<IN, ER, (A, B, C, D, E, F, G, H, I, J, K, L, M, N, O)> where
    A: Parser<IN, Out = OUT, Error = Option<ER>>,
    B: Parser<IN, Out = OUT, Error = Option<ER>>,
    C: Parser<IN, Out = OUT, Error = Option<ER>>,
    D: Parser<IN, Out = OUT, Error = Option<ER>>,
    E: Parser<IN, Out = OUT, Error = Option<ER>>,
    F: Parser<IN, Out = OUT, Error = Option<ER>>,
    G: Parser<IN, Out = OUT, Error = Option<ER>>,
    H: Parser<IN, Out = OUT, Error = Option<ER>>,
    I: Parser<IN, Out = OUT, Error = Option<ER>>,
    J: Parser<IN, Out = OUT, Error = Option<ER>>,
    K: Parser<IN, Out = OUT, Error = Option<ER>>,
    L: Parser<IN, Out = OUT, Error = Option<ER>>,
    M: Parser<IN, Out = OUT, Error = Option<ER>>,
    N: Parser<IN, Out = OUT, Error = Option<ER>>,
    O: Parser<IN, Out = OUT, Error = Option<ER>>,
 {
    fn from(ps: (A, B, C, D, E, F, G, H, I, J, K, L, M, N, O)) -> (r: Self) {
        let r = Self { ps, _ghost: PhantomData };
        proof {
            lemma_branch_determined_by_segments(r, ps);
        }
        r
    }
}

impl<IN: Clone, OUT, ER, A, B, C, D, E, F, G, H, I, J, K, L, M, N, O> FromSpecImpl<(A, B, C, D, E, F, G, H, I, J, K, L, M, N, O)> for Branch<IN, ER, (A, B, C, D, E, F, G, H, I, J, K, L, M, N, O)> where
    A: Parser<IN, Out = OUT, Error = Option<ER>>,
    B: Parser<IN, Out = OUT, Error = Option<ER>>,
    C: Parser<IN, Out = OUT, Error = Option<ER>>,
    D: Parser<IN, Out = OUT, Error = Option<ER>>,
    E: Parser<IN, Out = OUT, Error = Option<ER>>,
    F: Parser<IN, Out = OUT, Error = Option<ER>>,
    G: Parser<IN, Out = OUT, Error = Option<ER>>,
    H: Parser<IN, Out = OUT, Error = Option<ER>>,
    I: Parser<IN, Out = OUT, Error = Option<ER>>,
    J: Parser<IN, Out = OUT, Error = Option<ER>>,
    K: Parser<IN, Out = OUT, Error = Option<ER>>,
    L: Parser<IN, Out = OUT, Error = Option<ER>>,
    M: Parser<IN, Out = OUT, Error = Option<ER>>,
    N: Parser<IN, Out = OUT, Error = Option<ER>>,
    O: Parser<IN, Out = OUT, Error = Option<ER>>,
 {
    open spec fn obeys_from_spec() -> bool {
        true
    }

    open spec fn from_spec(ps: (A, B, C, D, E, F, G, H, I, J, K, L, M, N, O)) -> Self {
        choose|b: Self| b.segments() == ps
    }
}

/// A branch between 15 segments with one output type.
impl<IN: Clone, OUT, ER, A, B, C, D, E, F, G, H, I, J, K, L, M, N, O> Parser<IN> for Branch<IN, ER, (A, B, C, D, E, F, G, H, I, J, K, L, M, N, O)> where
    A: Parser<IN, Out = OUT, Error = Option<ER>>,
    B: Parser<IN, Out = OUT, Error = Option<ER>>,
    C: Parser<IN, Out = OUT, Error = Option<ER>>,
    D: Parser<IN, Out = OUT, Error = Option<ER>>,
    E: Parser<IN, Out = OUT, Error = Option<ER>>,
    F: Parser<IN, Out = OUT, Error = Option<ER>>,
    G: Parser<IN, Out = OUT, Error = Option<ER>>,
    H: Parser<IN, Out = OUT, Error = Option<ER>>,
    I: Parser<IN, Out = OUT, Error = Option<ER>>,
    J: Parser<IN, Out = OUT, Error = Option<ER>>,
    K: Parser<IN, Out = OUT, Error = Option<ER>>,
    L: Parser<IN, Out = OUT, Error = Option<ER>>,
    M: Parser<IN, Out = OUT, Error = Option<ER>>,
    N: Parser<IN, Out = OUT, Error = Option<ER>>,
    O: Parser<IN, Out = OUT, Error = Option<ER>>,
 {
    type Out = OUT;

    type Error = Option<ER>;

    open spec fn parse_requires(&self, input: IN) -> bool {
        let ps = self.segments();
        &&& accepts_clones(ps.0, input)
        &&& yields_on_clone(ps.0, input, Err(None))
            ==> accepts_clones(ps.1, input)
        &&& yields_on_clone(ps.0, input, Err(None))
            && yields_on_clone(ps.1, input, Err(None))
            ==> accepts_clones(ps.2, input)
        &&& yields_on_clone(ps.0, input, Err(None))
            && yields_on_clone(ps.1, input, Err(None))
            && yields_on_clone(ps.2, input, Err(None))
            ==> accepts_clones(ps.3, input)
        &&& yields_on_clone(ps.0, input, Err(None))
            && yields_on_clone(ps.1, input, Err(None))
            && yields_on_clone(ps.2, input, Err(None))
            && yields_on_clone(ps.3, input, Err(None))
            ==> accepts_clones(ps.4, input)
        &&& yields_on_clone(ps.0, input, Err(None))
            && yields_on_clone(ps.1, input, Err(None))
            && yields_on_clone(ps.2, input, Err(None))
            && yields_on_clone(ps.3, input, Err(None))
            && yields_on_clone(ps.4, input, Err(None))
            ==> accepts_clones(ps.5, input)
        &&& yields_on_clone(ps.0, input, Err(None))
            && yields_on_clone(ps.1, input, Err(None))
            && yields_on_clone(ps.2, input, Err(None))
            && yields_on_clone(ps.3, input, Err(None))
            && yields_on_clone(ps.4, input, Err(None))
            && yields_on_clone(ps.5, input, Err(None))
            ==> accepts_clones(ps.6, input)
        &&& yields_on_clone(ps.0, input, Err(None))
            && yields_on_clone(ps.1, input, Err(None))
            && yields_on_clone(ps.2, input, Err(None))
            && yields_on_clone(ps.3, input, Err(None))
            && yields_on_clone(ps.4, input, Err(None))
            && yields_on_clone(ps.5, input, Err(None))
            && yields_on_clone(ps.6, input, Err(None))
            ==> accepts_clones(ps.7, input)
        &&& yields_on_clone(ps.0, input, Err(None))
            && yields_on_clone(ps.1, input, Err(None))
            && yields_on_clone(ps.2, input, Err(None))
            && yields_on_clone(ps.3, input, Err(None))
            && yields_on_clone(ps.4, input, Err(None))
            && yields_on_clone(ps.5, input, Err(None))
            && yields_on_clone(ps.6, input, Err(None))
            && yields_on_clone(ps.7, input, Err(None))
            ==> accepts_clones(ps.8, input)
        &&& yields_on_clone(ps.0, input, Err(None))
            && yields_on_clone(ps.1, input, Err(None))
            && yields_on_clone(ps.2, input, Err(None))
            && yields_on_clone(ps.3, input, Err(None))
            && yields_on_clone(ps.4, input, Err(None))
            && yields_on_clone(ps.5, input, Err(None))
            && yields_on_clone(ps.6, input, Err(None))
            && yields_on_clone(ps.7, input, Err(None))
            && yields_on_clone(ps.8, input, Err(None))
            ==> accepts_clones(ps.9, input)
        &&& yields_on_clone(ps.0, input, Err(None))
            && yields_on_clone(ps.1, input, Err(None))
            && yields_on_clone(ps.2, input, Err(None))
            && yields_on_clone(ps.3, input, Err(None))
            && yields_on_clone(ps.4, input, Err(None))
            && yields_on_clone(ps.5, input, Err(None))
            && yields_on_clone(ps.6, input, Err(None))
            && yields_on_clone(ps.7, input, Err(None))
            && yields_on_clone(ps.8, input, Err(None))
            && yields_on_clone(ps.9, input, Err(None))
            ==> accepts_clones(ps.10, input)
        &&& yields_on_clone(ps.0, input, Err(None))
            && yields_on_clone(ps.1, input, Err(None))
            && yields_on_clone(ps.2, input, Err(None))
            && yields_on_clone(ps.3, input, Err(None))
            && yields_on_clone(ps.4, input, Err(None))
            && yields_on_clone(ps.5, input, Err(None))
            && yields_on_clone(ps.6, input, Err(None))
            && yields_on_clone(ps.7, input, Err(None))
            && yields_on_clone(ps.8, input, Err(None))
            && yields_on_clone(ps.9, input, Err(None))
            && yields_on_clone(ps.10, input, Err(None))
            ==> accepts_clones(ps.11, input)
        &&& yields_on_clone(ps.0, input, Err(None))
            && yields_on_clone(ps.1, input, Err(None))
            && yields_on_clone(ps.2, input, Err(None))
            && yields_on_clone(ps.3, input, Err(None))
            && yields_on_clone(ps.4, input, Err(None))
            && yields_on_clone(ps.5, input, Err(None))
            && yields_on_clone(ps.6, input, Err(None))
            && yields_on_clone(ps.7, input, Err(None))
            && yields_on_clone(ps.8, input, Err(None))
            && yields_on_clone(ps.9, input, Err(None))
            && yields_on_clone(ps.10, input, Err(None))
            && yields_on_clone(ps.11, input, Err(None))
            ==> accepts_clones(ps.12, input)
        &&& yields_on_clone(ps.0, input, Err(None))
            && yields_on_clone(ps.1, input, Err(None))
            && yields_on_clone(ps.2, input, Err(None))
            && yields_on_clone(ps.3, input, Err(None))
            && yields_on_clone(ps.4, input, Err(None))
            && yields_on_clone(ps.5, input, Err(None))
            && yields_on_clone(ps.6, input, Err(None))
            && yields_on_clone(ps.7, input, Err(None))
            && yields_on_clone(ps.8, input, Err(None))
            && yields_on_clone(ps.9, input, Err(None))
            && yields_on_clone(ps.10, input, Err(None))
            && yields_on_clone(ps.11, input, Err(None))
            && yields_on_clone(ps.12, input, Err(None))
            ==> accepts_clones(ps.13, input)
        &&& yields_on_clone(ps.0, input, Err(None))
            && yields_on_clone(ps.1, input, Err(None))
            && yields_on_clone(ps.2, input, Err(None))
            && yields_on_clone(ps.3, input, Err(None))
            && yields_on_clone(ps.4, input, Err(None))
            && yields_on_clone(ps.5, input, Err(None))
            && yields_on_clone(ps.6, input, Err(None))
            && yields_on_clone(ps.7, input, Err(None))
            && yields_on_clone(ps.8, input, Err(None))
            && yields_on_clone(ps.9, input, Err(None))
            && yields_on_clone(ps.10, input, Err(None))
            && yields_on_clone(ps.11, input, Err(None))
            && yields_on_clone(ps.12, input, Err(None))
            && yields_on_clone(ps.13, input, Err(None))
            ==> accepts_clones(ps.14, input)
    }

    open spec fn parse_ensures(&self, input: IN, res: Result<(OUT, IN), Option<ER>>) -> bool {
        let ps = self.segments();
        match res {
            Err(None) => {
                &&& yields_on_clone(ps.0, input, Err(None))
                &&& yields_on_clone(ps.1, input, Err(None))
                &&& yields_on_clone(ps.2, input, Err(None))
                &&& yields_on_clone(ps.3, input, Err(None))
                &&& yields_on_clone(ps.4, input, Err(None))
                &&& yields_on_clone(ps.5, input, Err(None))
                &&& yields_on_clone(ps.6, input, Err(None))
                &&& yields_on_clone(ps.7, input, Err(None))
                &&& yields_on_clone(ps.8, input, Err(None))
                &&& yields_on_clone(ps.9, input, Err(None))
                &&& yields_on_clone(ps.10, input, Err(None))
                &&& yields_on_clone(ps.11, input, Err(None))
                &&& yields_on_clone(ps.12, input, Err(None))
                &&& yields_on_clone(ps.13, input, Err(None))
                &&& yields_on_clone(ps.14, input, Err(None))
            },
            _ => {
                ||| yields_on_clone(ps.0, input, res)
                ||| yields_on_clone(ps.0, input, Err(None))
                    && yields_on_clone(ps.1, input, res)
                ||| yields_on_clone(ps.0, input, Err(None))
                    && yields_on_clone(ps.1, input, Err(None))
                    && yields_on_clone(ps.2, input, res)
                ||| yields_on_clone(ps.0, input, Err(None))
                    && yields_on_clone(ps.1, input, Err(None))
                    && yields_on_clone(ps.2, input, Err(None))
                    && yields_on_clone(ps.3, input, res)
                ||| yields_on_clone(ps.0, input, Err(None))
                    && yields_on_clone(ps.1, input, Err(None))
                    && yields_on_clone(ps.2, input, Err(None))
                    && yields_on_clone(ps.3, input, Err(None))
                    && yields_on_clone(ps.4, input, res)
                ||| yields_on_clone(ps.0, input, Err(None))
                    && yields_on_clone(ps.1, input, Err(None))
                    && yields_on_clone(ps.2, input, Err(None))
                    && yields_on_clone(ps.3, input, Err(None))
                    && yields_on_clone(ps.4, input, Err(None))
                    && yields_on_clone(ps.5, input, res)
                ||| yields_on_clone(ps.0, input, Err(None))
                    && yields_on_clone(ps.1, input, Err(None))
                    && yields_on_clone(ps.2, input, Err(None))
                    && yields_on_clone(ps.3, input, Err(None))
                    && yields_on_clone(ps.4, input, Err(None))
                    && yields_on_clone(ps.5, input, Err(None))
                    && yields_on_clone(ps.6, input, res)
                ||| yields_on_clone(ps.0, input, Err(None))
                    && yields_on_clone(ps.1, input, Err(None))
                    && yields_on_clone(ps.2, input, Err(None))
                    && yields_on_clone(ps.3, input, Err(None))
                    && yields_on_clone(ps.4, input, Err(None))
                    && yields_on_clone(ps.5, input, Err(None))
                    && yields_on_clone(ps.6, input, Err(None))
                    && yields_on_clone(ps.7, input, res)
                ||| yields_on_clone(ps.0, input, Err(None))
                    && yields_on_clone(ps.1, input, Err(None))
                    && yields_on_clone(ps.2, input, Err(None))
                    && yields_on_clone(ps.3, input, Err(None))
                    && yields_on_clone(ps.4, input, Err(None))
                    && yields_on_clone(ps.5, input, Err(None))
                    && yields_on_clone(ps.6, input, Err(None))
                    && yields_on_clone(ps.7, input, Err(None))
                    && yields_on_clone(ps.8, input, res)
                ||| yields_on_clone(ps.0, input, Err(None))
                    && yields_on_clone(ps.1, input, Err(None))
                    && yields_on_clone(ps.2, input, Err(None))
                    && yields_on_clone(ps.3, input, Err(None))
                    && yields_on_clone(ps.4, input, Err(None))
                    && yields_on_clone(ps.5, input, Err(None))
                    && yields_on_clone(ps.6, input, Err(None))
                    && yields_on_clone(ps.7, input, Err(None))
                    && yields_on_clone(ps.8, input, Err(None))
                    && yields_on_clone(ps.9, input, res)
                ||| yields_on_clone(ps.0, input, Err(None))
                    && yields_on_clone(ps.1, input, Err(None))
                    && yields_on_clone(ps.2, input, Err(None))
                    && yields_on_clone(ps.3, input, Err(None))
                    && yields_on_clone(ps.4, input, Err(None))
                    && yields_on_clone(ps.5, input, Err(None))
                    && yields_on_clone(ps.6, input, Err(None))
                    && yields_on_clone(ps.7, input, Err(None))
                    && yields_on_clone(ps.8, input, Err(None))
                    && yields_on_clone(ps.9, input, Err(None))
                    && yields_on_clone(ps.10, input, res)
                ||| yields_on_clone(ps.0, input, Err(None))
                    && yields_on_clone(ps.1, input, Err(None))
                    && yields_on_clone(ps.2, input, Err(None))
                    && yields_on_clone(ps.3, input, Err(None))
                    && yields_on_clone(ps.4, input, Err(None))
                    && yields_on_clone(ps.5, input, Err(None))
                    && yields_on_clone(ps.6, input, Err(None))
                    && yields_on_clone(ps.7, input, Err(None))
                    && yields_on_clone(ps.8, input, Err(None))
                    && yields_on_clone(ps.9, input, Err(None))
                    && yields_on_clone(ps.10, input, Err(None))
                    && yields_on_clone(ps.11, input, res)
                ||| yields_on_clone(ps.0, input, Err(None))
                    && yields_on_clone(ps.1, input, Err(None))
                    && yields_on_clone(ps.2, input, Err(None))
                    && yields_on_clone(ps.3, input, Err(None))
                    && yields_on_clone(ps.4, input, Err(None))
                    && yields_on_clone(ps.5, input, Err(None))
                    && yields_on_clone(ps.6, input, Err(None))
                    && yields_on_clone(ps.7, input, Err(None))
                    && yields_on_clone(ps.8, input, Err(None))
                    && yields_on_clone(ps.9, input, Err(None))
                    && yields_on_clone(ps.10, input, Err(None))
                    && yields_on_clone(ps.11, input, Err(None))
                    && yields_on_clone(ps.12, input, res)
                ||| yields_on_clone(ps.0, input, Err(None))
                    && yields_on_clone(ps.1, input, Err(None))
                    && yields_on_clone(ps.2, input, Err(None))
                    && yields_on_clone(ps.3, input, Err(None))
                    && yields_on_clone(ps.4, input, Err(None))
                    && yields_on_clone(ps.5, input, Err(None))
                    && yields_on_clone(ps.6, input, Err(None))
                    && yields_on_clone(ps.7, input, Err(None))
                    && yields_on_clone(ps.8, input, Err(None))
                    && yields_on_clone(ps.9, input, Err(None))
                    && yields_on_clone(ps.10, input, Err(None))
                    && yields_on_clone(ps.11, input, Err(None))
                    && yields_on_clone(ps.12, input, Err(None))
                    && yields_on_clone(ps.13, input, res)
                ||| yields_on_clone(ps.0, input, Err(None))
                    && yields_on_clone(ps.1, input, Err(None))
                    && yields_on_clone(ps.2, input, Err(None))
                    && yields_on_clone(ps.3, input, Err(None))
                    && yields_on_clone(ps.4, input, Err(None))
                    && yields_on_clone(ps.5, input, Err(None))
                    && yields_on_clone(ps.6, input, Err(None))
                    && yields_on_clone(ps.7, input, Err(None))
                    && yields_on_clone(ps.8, input, Err(None))
                    && yields_on_clone(ps.9, input, Err(None))
                    && yields_on_clone(ps.10, input, Err(None))
                    && yields_on_clone(ps.11, input, Err(None))
                    && yields_on_clone(ps.12, input, Err(None))
                    && yields_on_clone(ps.13, input, Err(None))
                    && yields_on_clone(ps.14, input, res)
            },
        }
    }

    fn parse(&self, txt: IN) -> (res: Result<(OUT, IN), Option<ER>>) {
        let c0 = txt.clone();
        let r0 = self.ps.0.parse(c0);
        assert(yields_on_clone(self.ps.0, txt, r0));
        match r0 {
            Err(None) => {},
            _ => return r0,
        }
        let c1 = txt.clone();
        let r1 = self.ps.1.parse(c1);
        assert(yields_on_clone(self.ps.1, txt, r1));
        match r1 {
            Err(None) => {},
            _ => return r1,
        }
        let c2 = txt.clone();
        let r2 = self.ps.2.parse(c2);
        assert(yields_on_clone(self.ps.2, txt, r2));
        match r2 {
            Err(None) => {},
            _ => return r2,
        }
        let c3 = txt.clone();
        let r3 = self.ps.3.parse(c3);
        assert(yields_on_clone(self.ps.3, txt, r3));
        match r3 {
            Err(None) => {},
            _ => return r3,
        }
        let c4 = txt.clone();
        let r4 = self.ps.4.parse(c4);
        assert(yields_on_clone(self.ps.4, txt, r4));
        match r4 {
            Err(None) => {},
            _ => return r4,
        }
        let c5 = txt.clone();
        let r5 = self.ps.5.parse(c5);
        assert(yields_on_clone(self.ps.5, txt, r5));
        match r5 {
            Err(None) => {},
            _ => return r5,
        }
        let c6 = txt.clone();
        let r6 = self.ps.6.parse(c6);
        assert(yields_on_clone(self.ps.6, txt, r6));
        match r6 {
            Err(None) => {},
            _ => return r6,
        }
        let c7 = txt.clone();
        let r7 = self.ps.7.parse(c7);
        assert(yields_on_clone(self.ps.7, txt, r7));
        match r7 {
            Err(None) => {},
            _ => return r7,
        }
        let c8 = txt.clone();
        let r8 = self.ps.8.parse(c8);
        assert(yields_on_clone(self.ps.8, txt, r8));
        match r8 {
            Err(None) => {},
            _ => return r8,
        }
        let c9 = txt.clone();
        let r9 = self.ps.9.parse(c9);
        assert(yields_on_clone(self.ps.9, txt, r9));
        match r9 {
            Err(None) => {},
            _ => return r9,
        }
        let c10 = txt.clone();
        let r10 = self.ps.10.parse(c10);
        assert(yields_on_clone(self.ps.10, txt, r10));
        match r10 {
            Err(None) => {},
            _ => return r10,
        }
        let c11 = txt.clone();
        let r11 = self.ps.11.parse(c11);
        assert(yields_on_clone(self.ps.11, txt, r11));
        match r11 {
            Err(None) => {},
            _ => return r11,
        }
        let c12 = txt.clone();
        let r12 = self.ps.12.parse(c12);
        assert(yields_on_clone(self.ps.12, txt, r12));
        match r12 {
            Err(None) => {},
            _ => return r12,
        }
        let c13 = txt.clone();
        let r13 = self.ps.13.parse(c13);
        assert(yields_on_clone(self.ps.13, txt, r13));
        match r13 {
            Err(None) => {},
            _ => return r13,
        }
        let c14 = txt.clone();
        let r14 = self.ps.14.parse(c14);
        assert(yields_on_clone(self.ps.14, txt, r14));
        match r14 {
            Err(None) => {},
            _ => return r14,
        }
        Err(None)
    }
}

/// Over inputs whose clones are equal, a branch of 15 deterministic
/// segments is deterministic.
pub proof fn lemma_branch15_deterministic<IN: Clone, OUT, ER, A, B, C, D, E, F, G, H, I, J, K, L, M, N, O>(b: Branch<IN, ER, (A, B, C, D, E, F, G, H, I, J, K, L, M, N, O)>)
    where
        A: Parser<IN, Out = OUT, Error = Option<ER>>,
        B: Parser<IN, Out = OUT, Error = Option<ER>>,
        C: Parser<IN, Out = OUT, Error = Option<ER>>,
        D: Parser<IN, Out = OUT, Error = Option<ER>>,
        E: Parser<IN, Out = OUT, Error = Option<ER>>,
        F: Parser<IN, Out = OUT, Error = Option<ER>>,
        G: Parser<IN, Out = OUT, Error = Option<ER>>,
        H: Parser<IN, Out = OUT, Error = Option<ER>>,
        I: Parser<IN, Out = OUT, Error = Option<ER>>,
        J: Parser<IN, Out = OUT, Error = Option<ER>>,
        K: Parser<IN, Out = OUT, Error = Option<ER>>,
        L: Parser<IN, Out = OUT, Error = Option<ER>>,
        M: Parser<IN, Out = OUT, Error = Option<ER>>,
        N: Parser<IN, Out = OUT, Error = Option<ER>>,
        O: Parser<IN, Out = OUT, Error = Option<ER>>,
    requires
        clones_are_equal::<IN>(),
        deterministic::<IN, A>(b.segments().0),
        deterministic::<IN, B>(b.segments().1),
        deterministic::<IN, C>(b.segments().2),
        deterministic::<IN, D>(b.segments().3),
        deterministic::<IN, E>(b.segments().4),
        deterministic::<IN, F>(b.segments().5),
        deterministic::<IN, G>(b.segments().6),
        deterministic::<IN, H>(b.segments().7),
        deterministic::<IN, I>(b.segments().8),
        deterministic::<IN, J>(b.segments().9),
        deterministic::<IN, K>(b.segments().10),
        deterministic::<IN, L>(b.segments().11),
        deterministic::<IN, M>(b.segments().12),
        deterministic::<IN, N>(b.segments().13),
        deterministic::<IN, O>(b.segments().14),
    ensures
        deterministic::<IN, Branch<IN, ER, (A, B, C, D, E, F, G, H, I, J, K, L, M, N, O)>>(b),
{
    lemma_clones_are_transparent::<IN, A>(b.segments().0);
    lemma_clones_are_transparent::<IN, B>(b.segments().1);
    lemma_clones_are_transparent::<IN, C>(b.segments().2);
    lemma_clones_are_transparent::<IN, D>(b.segments().3);
    lemma_clones_are_transparent::<IN, E>(b.segments().4);
    lemma_clones_are_transparent::<IN, F>(b.segments().5);
    lemma_clones_are_transparent::<IN, G>(b.segments().6);
    lemma_clones_are_transparent::<IN, H>(b.segments().7);
    lemma_clones_are_transparent::<IN, I>(b.segments().8);
    lemma_clones_are_transparent::<IN, J>(b.segments().9);
    lemma_clones_are_transparent::<IN, K>(b.segments().10);
    lemma_clones_are_transparent::<IN, L>(b.segments().11);
    lemma_clones_are_transparent::<IN, M>(b.segments().12);
    lemma_clones_are_transparent::<IN, N>(b.segments().13);
    lemma_clones_are_transparent::<IN, O>(b.segments().14);
}

impl<IN: Clone, OUT, ER, A, B, C, D, E, F, G, H, I, J, K, L, M, N, O, P> From<(A, B, C, D, E, F, G, H, I, J, K, L, M, N, O, P)> for Branch<IN, ER, (A, B, C, D, E, F, G, H, I, J, K, L, M, N, O, P)> where
    A: Parser<IN, Out = OUT, Error = Option<ER>>,
    B: Parser<IN, Out = OUT, Error = Option<ER>>,
    C: Parser<IN, Out = OUT, Error = Option<ER>>,
    D: Parser<IN, Out = OUT, Error = Option<ER>>,
    E: Parser<IN, Out = OUT, Error = Option<ER>>,
    F: Parser<IN, Out = OUT, Error = Option<ER>>,
    G: Parser<IN, Out = OUT, Error = Option<ER>>,
    H: Parser<IN, Out = OUT, Error = Option<ER>>,
    I: Parser<IN, Out = OUT, Error = Option<ER>>,
    J: Parser<IN, Out = OUT, Error = Option<ER>>,
    K: Parser<IN, Out = OUT, Error = Option<ER>>,
    L: Parser<IN, Out = OUT, Error = Option<ER>>,
    M: Parser<IN, Out = OUT, Error = Option<ER>>,
    N: Parser<IN, Out = OUT, Error = Option<ER>>,
    O: Parser<IN, Out = OUT, Error = Option<ER>>,
    P: Parser<IN, Out = OUT, Error = Option<ER>>,
 {
    fn from(ps: (A, B, C, D, E, F, G, H, I, J, K, L, M, N, O, P)) -> (r: Self) {
        let r = Self { ps, _ghost: PhantomData };
        proof {
            lemma_branch_determined_by_segments(r, ps);
        }
        r
    }
}

impl<IN: Clone, OUT, ER, A, B, C, D, E, F, G, H, I, J, K, L, M, N, O, P> FromSpecImpl<(A, B, C, D, E, F, G, H, I, J, K, L, M, N, O, P)> for Branch<IN, ER, (A, B, C, D, E, F, G, H, I, J, K, L, M, N, O, P)> where
    A: Parser<IN, Out = OUT, Error = Option<ER>>,
    B: Parser<IN, Out = OUT, Error = Option<ER>>,
    C: Parser<IN, Out = OUT, Error = Option<ER>>,
    D: Parser<IN, Out = OUT, Error = Option<ER>>,
    E: Parser<IN, Out = OUT, Error = Option<ER>>,
    F: Parser<IN, Out = OUT, Error = Option<ER>>,
    G: Parser<IN, Out = OUT, Error = Option<ER>>,
    H: Parser<IN, Out = OUT, Error = Option<ER>>,
    I: Parser<IN, Out = OUT, Error = Option<ER>>,
    J: Parser<IN, Out = OUT, Error = Option<ER>>,
    K: Parser<IN, Out = OUT, Error = Option<ER>>,
    L: Parser<IN, Out = OUT, Error = Option<ER>>,
    M: Parser<IN, Out = OUT, Error = Option<ER>>,
    N: Parser<IN, Out = OUT, Error = Option<ER>>,
    O: Parser<IN, Out = OUT, Error = Option<ER>>,
    P: Parser<IN, Out = OUT, Error = Option<ER>>,
 {
    open spec fn obeys_from_spec() -> bool {
        true
    }

    open spec fn from_spec(ps: (A, B, C, D, E, F, G, H, I, J, K, L, M, N, O, P)) -> Self {
        choose|b: Self| b.segments() == ps
    }
}

/// A branch between 16 segments with one output type.
impl<IN: Clone, OUT, ER, A, B, C, D, E, F, G, H, I, J, K, L, M, N, O, P> Parser<IN> for Branch<IN, ER, (A, B, C, D, E, F, G, H, I, J, K, L, M, N, O, P)> where
    A: Parser<IN, Out = OUT, Error = Option<ER>>,
    B: Parser<IN, Out = OUT, Error = Option<ER>>,
    C: Parser<IN, Out = OUT, Error = Option<ER>>,
    D: Parser<IN, Out = OUT, Error = Option<ER>>,
    E: Parser<IN, Out = OUT, Error = Option<ER>>,
    F: Parser<IN, Out = OUT, Error = Option<ER>>,
    G: Parser<IN, Out = OUT, Error = Option<ER>>,
    H: Parser<IN, Out = OUT, Error = Option<ER>>,
    I: Parser<IN, Out = OUT, Error = Option<ER>>,
    J: Parser<IN, Out = OUT, Error = Option<ER>>,
    K: Parser<IN, Out = OUT, Error = Option<ER>>,
    L: Parser<IN, Out = OUT, Error = Option<ER>>,
    M: Parser<IN, Out = OUT, Error = Option<ER>>,
    N: Parser<IN, Out = OUT, Error = Option<ER>>,
    O: Parser<IN, Out = OUT, Error = Option<ER>>,
    P: Parser<IN, Out = OUT, Error = Option<ER>>,
 {
    type Out = OUT;

    type Error = Option<ER>;

    open spec fn parse_requires(&self, input: IN) -> bool {
        let ps = self.segments();
        &&& accepts_clones(ps.0, input)
        &&& yields_on_clone(ps.0, input, Err(None))
            ==> accepts_clones(ps.1, input)
        &&& yields_on_clone(ps.0, input, Err(None))
            && yields_on_clone(ps.1, input, Err(None))
            ==> accepts_clones(ps.2, input)
        &&& yields_on_clone(ps.0, input, Err(None))
            && yields_on_clone(ps.1, input, Err(None))
            && yields_on_clone(ps.2, input, Err(None))
            ==> accepts_clones(ps.3, input)
        &&& yields_on_clone(ps.0, input, Err(None))
            && yields_on_clone(ps.1, input, Err(None))
            && yields_on_clone(ps.2, input, Err(None))
            && yields_on_clone(ps.3, input, Err(None))
            ==> accepts_clones(ps.4, input)
        &&& yields_on_clone(ps.0, input, Err(None))
            && yields_on_clone(ps.1, input, Err(None))
            && yields_on_clone(ps.2, input, Err(None))
            && yields_on_clone(ps.3, input, Err(None))
            && yields_on_clone(ps.4, input, Err(None))
            ==> accepts_clones(ps.5, input)
        &&& yields_on_clone(ps.0, input, Err(None))
            && yields_on_clone(ps.1, input, Err(None))
            && yields_on_clone(ps.2, input, Err(None))
            && yields_on_clone(ps.3, input, Err(None))
            && yields_on_clone(ps.4, input, Err(None))
            && yields_on_clone(ps.5, input, Err(None))
            ==> accepts_clones(ps.6, input)
        &&& yields_on_clone(ps.0, input, Err(None))
            && yields_on_clone(ps.1, input, Err(None))
            && yields_on_clone(ps.2, input, Err(None))
            && yields_on_clone(ps.3, input, Err(None))
            && yields_on_clone(ps.4, input, Err(None))
            && yields_on_clone(ps.5, input, Err(None))
            && yields_on_clone(ps.6, input, Err(None))
            ==> accepts_clones(ps.7, input)
        &&& yields_on_clone(ps.0, input, Err(None))
            && yields_on_clone(ps.1, input, Err(None))
            && yields_on_clone(ps.2, input, Err(None))
            && yields_on_clone(ps.3, input, Err(None))
            && yields_on_clone(ps.4, input, Err(None))
            && yields_on_clone(ps.5, input, Err(None))
            && yields_on_clone(ps.6, input, Err(None))
            && yields_on_clone(ps.7, input, Err(None))
            ==> accepts_clones(ps.8, input)
        &&& yields_on_clone(ps.0, input, Err(None))
            && yields_on_clone(ps.1, input, Err(None))
            && yields_on_clone(ps.2, input, Err(None))
            && yields_on_clone(ps.3, input, Err(None))
            && yields_on_clone(ps.4, input, Err(None))
            && yields_on_clone(ps.5, input, Err(None))
            && yields_on_clone(ps.6, input, Err(None))
            && yields_on_clone(ps.7, input, Err(None))
            && yields_on_clone(ps.8, input, Err(None))
            ==> accepts_clones(ps.9, input)
        &&& yields_on_clone(ps.0, input, Err(None))
            && yields_on_clone(ps.1, input, Err(None))
            && yields_on_clone(ps.2, input, Err(None))
            && yields_on_clone(ps.3, input, Err(None))
            && yields_on_clone(ps.4, input, Err(None))
            && yields_on_clone(ps.5, input, Err(None))
            && yields_on_clone(ps.6, input, Err(None))
            && yields_on_clone(ps.7, input, Err(None))
            && yields_on_clone(ps.8, input, Err(None))
            && yields_on_clone(ps.9, input, Err(None))
            ==> accepts_clones(ps.10, input)
        &&& yields_on_clone(ps.0, input, Err(None))
            && yields_on_clone(ps.1, input, Err(None))
            && yields_on_clone(ps.2, input, Err(None))
            && yields_on_clone(ps.3, input, Err(None))
            && yields_on_clone(ps.4, input, Err(None))
            && yields_on_clone(ps.5, input, Err(None))
            && yields_on_clone(ps.6, input, Err(None))
            && yields_on_clone(ps.7, input, Err(None))
            && yields_on_clone(ps.8, input, Err(None))
            && yields_on_clone(ps.9, input, Err(None))
            && yields_on_clone(ps.10, input, Err(None))
            ==> accepts_clones(ps.11, input)
        &&& yields_on_clone(ps.0, input, Err(None))
            && yields_on_clone(ps.1, input, Err(None))
            && yields_on_clone(ps.2, input, Err(None))
            && yields_on_clone(ps.3, input, Err(None))
            && yields_on_clone(ps.4, input, Err(None))
            && yields_on_clone(ps.5, input, Err(None))
            && yields_on_clone(ps.6, input, Err(None))
            && yields_on_clone(ps.7, input, Err(None))
            && yields_on_clone(ps.8, input, Err(None))
            && yields_on_clone(ps.9, input, Err(None))
            && yields_on_clone(ps.10, input, Err(None))
            && yields_on_clone(ps.11, input, Err(None))
            ==> accepts_clones(ps.12, input)
        &&& yields_on_clone(ps.0, input, Err(None))
            && yields_on_clone(ps.1, input, Err(None))
            && yields_on_clone(ps.2, input, Err(None))
            && yields_on_clone(ps.3, input, Err(None))
            && yields_on_clone(ps.4, input, Err(None))
            && yields_on_clone(ps.5, input, Err(None))
            && yields_on_clone(ps.6, input, Err(None))
            && yields_on_clone(ps.7, input, Err(None))
            && yields_on_clone(ps.8, input, Err(None))
            && yields_on_clone(ps.9, input, Err(None))
            && yields_on_clone(ps.10, input, Err(None))
            && yields_on_clone(ps.11, input, Err(None))
            && yields_on_clone(ps.12, input, Err(None))
            ==> accepts_clones(ps.13, input)
        &&& yields_on_clone(ps.0, input, Err(None))
            && yields_on_clone(ps.1, input, Err(None))
            && yields_on_clone(ps.2, input, Err(None))
            && yields_on_clone(ps.3, input, Err(None))
            && yields_on_clone(ps.4, input, Err(None))
            && yields_on_clone(ps.5, input, Err(None))
            && yields_on_clone(ps.6, input, Err(None))
            && yields_on_clone(ps.7, input, Err(None))
            && yields_on_clone(ps.8, input, Err(None))
            && yields_on_clone(ps.9, input, Err(None))
            && yields_on_clone(ps.10, input, Err(None))
            && yields_on_clone(ps.11, input, Err(None))
            && yields_on_clone(ps.12, input, Err(None))
            && yields_on_clone(ps.13, input, Err(None))
            ==> accepts_clones(ps.14, input)
        &&& yields_on_clone(ps.0, input, Err(None))
            && yields_on_clone(ps.1, input, Err(None))
            && yields_on_clone(ps.2, input, Err(None))
            && yields_on_clone(ps.3, input, Err(None))
            && yields_on_clone(ps.4, input, Err(None))
            && yields_on_clone(ps.5, input, Err(None))
            && yields_on_clone(ps.6, input, Err(None))
            && yields_on_clone(ps.7, input, Err(None))
            && yields_on_clone(ps.8, input, Err(None))
            && yields_on_clone(ps.9, input, Err(None))
            && yields_on_clone(ps.10, input, Err(None))
            && yields_on_clone(ps.11, input, Err(None))
            && yields_on_clone(ps.12, input, Err(None))
            && yields_on_clone(ps.13, input, Err(None))
            && yields_on_clone(ps.14, input, Err(None))
            ==> accepts_clones(ps.15, input)
    }

    open spec fn parse_ensures(&self, input: IN, res: Result<(OUT, IN), Option<ER>>) -> bool {
        let ps = self.segments();
        match res {
            Err(None) => {
                &&& yields_on_clone(ps.0, input, Err(None))
                &&& yields_on_clone(ps.1, input, Err(None))
                &&& yields_on_clone(ps.2, input, Err(None))
                &&& yields_on_clone(ps.3, input, Err(None))
                &&& yields_on_clone(ps.4, input, Err(None))
                &&& yields_on_clone(ps.5, input, Err(None))
                &&& yields_on_clone(ps.6, input, Err(None))
                &&& yields_on_clone(ps.7, input, Err(None))
                &&& yields_on_clone(ps.8, input, Err(None))
                &&& yields_on_clone(ps.9, input, Err(None))
                &&& yields_on_clone(ps.10, input, Err(None))
                &&& yields_on_clone(ps.11, input, Err(None))
                &&& yields_on_clone(ps.12, input, Err(None))
                &&& yields_on_clone(ps.13, input, Err(None))
                &&& yields_on_clone(ps.14, input, Err(None))
                &&& yields_on_clone(ps.15, input, Err(None))
            },
            _ => {
                ||| yields_on_clone(ps.0, input, res)
                ||| yields_on_clone(ps.0, input, Err(None))
                    && yields_on_clone(ps.1, input, res)
                ||| yields_on_clone(ps.0, input, Err(None))
                    && yields_on_clone(ps.1, input, Err(None))
                    && yields_on_clone(ps.2, input, res)
                ||| yields_on_clone(ps.0, input, Err(None))
                    && yields_on_clone(ps.1, input, Err(None))
                    && yields_on_clone(ps.2, input, Err(None))
                    && yields_on_clone(ps.3, input, res)
                ||| yields_on_clone(ps.0, input, Err(None))
                    && yields_on_clone(ps.1, input, Err(None))
                    && yields_on_clone(ps.2, input, Err(None))
                    && yields_on_clone(ps.3, input, Err(None))
                    && yields_on_clone(ps.4, input, res)
                ||| yields_on_clone(ps.0, input, Err(None))
                    && yields_on_clone(ps.1, input, Err(None))
                    && yields_on_clone(ps.2, input, Err(None))
                    && yields_on_clone(ps.3, input, Err(None))
                    && yields_on_clone(ps.4, input, Err(None))
                    && yields_on_clone(ps.5, input, res)
                ||| yields_on_clone(ps.0, input, Err(None))
                    && yields_on_clone(ps.1, input, Err(None))
                    && yields_on_clone(ps.2, input, Err(None))
                    && yields_on_clone(ps.3, input, Err(None))
                    && yields_on_clone(ps.4, input, Err(None))
                    && yields_on_clone(ps.5, input, Err(None))
                    && yields_on_clone(ps.6, input, res)
                ||| yields_on_clone(ps.0, input, Err(None))
                    && yields_on_clone(ps.1, input, Err(None))
                    && yields_on_clone(ps.2, input, Err(None))
                    && yields_on_clone(ps.3, input, Err(None))
                    && yields_on_clone(ps.4, input, Err(None))
                    && yields_on_clone(ps.5, input, Err(None))
                    && yields_on_clone(ps.6, input, Err(None))
                    && yields_on_clone(ps.7, input, res)
                ||| yields_on_clone(ps.0, input, Err(None))
                    && yields_on_clone(ps.1, input, Err(None))
                    && yields_on_clone(ps.2, input, Err(None))
                    && yields_on_clone(ps.3, input, Err(None))
                    && yields_on_clone(ps.4, input, Err(None))
                    && yields_on_clone(ps.5, input, Err(None))
                    && yields_on_clone(ps.6, input, Err(None))
                    && yields_on_clone(ps.7, input, Err(None))
                    && yields_on_clone(ps.8, input, res)
                ||| yields_on_clone(ps.0, input, Err(None))
                    && yields_on_clone(ps.1, input, Err(None))
                    && yields_on_clone(ps.2, input, Err(None))
                    && yields_on_clone(ps.3, input, Err(None))
                    && yields_on_clone(ps.4, input, Err(None))
                    && yields_on_clone(ps.5, input, Err(None))
                    && yields_on_clone(ps.6, input, Err(None))
                    && yields_on_clone(ps.7, input, Err(None))
                    && yields_on_clone(ps.8, input, Err(None))
                    && yields_on_clone(ps.9, input, res)
                ||| yields_on_clone(ps.0, input, Err(None))
                    && yields_on_clone(ps.1, input, Err(None))
                    && yields_on_clone(ps.2, input, Err(None))
                    && yields_on_clone(ps.3, input, Err(None))
                    && yields_on_clone(ps.4, input, Err(None))
                    && yields_on_clone(ps.5, input, Err(None))
                    && yields_on_clone(ps.6, input, Err(None))
                    && yields_on_clone(ps.7, input, Err(None))
                    && yields_on_clone(ps.8, input, Err(None))
                    && yields_on_clone(ps.9, input, Err(None))
                    && yields_on_clone(ps.10, input, res)
                ||| yields_on_clone(ps.0, input, Err(None))
                    && yields_on_clone(ps.1, input, Err(None))
                    && yields_on_clone(ps.2, input, Err(None))
                    && yields_on_clone(ps.3, input, Err(None))
                    && yields_on_clone(ps.4, input, Err(None))
                    && yields_on_clone(ps.5, input, Err(None))
                    && yields_on_clone(ps.6, input, Err(None))
                    && yields_on_clone(ps.7, input, Err(None))
                    && yields_on_clone(ps.8, input, Err(None))
                    && yields_on_clone(ps.9, input, Err(None))
                    && yields_on_clone(ps.10, input, Err(None))
                    && yields_on_clone(ps.11, input, res)
                ||| yields_on_clone(ps.0, input, Err(None))
                    && yields_on_clone(ps.1, input, Err(None))
                    && yields_on_clone(ps.2, input, Err(None))
                    && yields_on_clone(ps.3, input, Err(None))
                    && yields_on_clone(ps.4, input, Err(None))
                    && yields_on_clone(ps.5, input, Err(None))
                    && yields_on_clone(ps.6, input, Err(None))
                    && yields_on_clone(ps.7, input, Err(None))
                    && yields_on_clone(ps.8, input, Err(None))
                    && yields_on_clone(ps.9, input, Err(None))
                    && yields_on_clone(ps.10, input, Err(None))
                    && yields_on_clone(ps.11, input, Err(None))
                    && yields_on_clone(ps.12, input, res)
                ||| yields_on_clone(ps.0, input, Err(None))
                    && yields_on_clone(ps.1, input, Err(None))
                    && yields_on_clone(ps.2, input, Err(None))
                    && yields_on_clone(ps.3, input, Err(None))
                    && yields_on_clone(ps.4, input, Err(None))
                    && yields_on_clone(ps.5, input, Err(None))
                    && yields_on_clone(ps.6, input, Err(None))
                    && yields_on_clone(ps.7, input, Err(None))
                    && yields_on_clone(ps.8, input, Err(None))
                    && yields_on_clone(ps.9, input, Err(None))
                    && yields_on_clone(ps.10, input, Err(None))
                    && yields_on_clone(ps.11, input, Err(None))
                    && yields_on_clone(ps.12, input, Err(None))
                    && yields_on_clone(ps.13, input, res)
                ||| yields_on_clone(ps.0, input, Err(None))
                    && yields_on_clone(ps.1, input, Err(None))
                    && yields_on_clone(ps.2, input, Err(None))
                    && yields_on_clone(ps.3, input, Err(None))
                    && yields_on_clone(ps.4, input, Err(None))
                    && yields_on_clone(ps.5, input, Err(None))
                    && yields_on_clone(ps.6, input, Err(None))
                    && yields_on_clone(ps.7, input, Err(None))
                    && yields_on_clone(ps.8, input, Err(None))
                    && yields_on_clone(ps.9, input, Err(None))
                    && yields_on_clone(ps.10, input, Err(None))
                    && yields_on_clone(ps.11, input, Err(None))
                    && yields_on_clone(ps.12, input, Err(None))
                    && yields_on_clone(ps.13, input, Err(None))
                    && yields_on_clone(ps.14, input, res)
                ||| yields_on_clone(ps.0, input, Err(None))
                    && yields_on_clone(ps.1, input, Err(None))
                    && yields_on_clone(ps.2, input, Err(None))
                    && yields_on_clone(ps.3, input, Err(None))
                    && yields_on_clone(ps.4, input, Err(None))
                    && yields_on_clone(ps.5, input, Err(None))
                    && yields_on_clone(ps.6, input, Err(None))
                    && yields_on_clone(ps.7, input, Err(None))
                    && yields_on_clone(ps.8, input, Err(None))
                    && yields_on_clone(ps.9, input, Err(None))
                    && yields_on_clone(ps.10, input, Err(None))
                    && yields_on_clone(ps.11, input, Err(None))
                    && yields_on_clone(ps.12, input, Err(None))
                    && yields_on_clone(ps.13, input, Err(None))
                    && yields_on_clone(ps.14, input, Err(None))
                    && yields_on_clone(ps.15, input, res)
            },
        }
    }

    fn parse(&self, txt: IN) -> (res: Result<(OUT, IN), Option<ER>>) {
        let c0 = txt.clone();
        let r0 = self.ps.0.parse(c0);
        assert(yields_on_clone(self.ps.0, txt, r0));
        match r0 {
            Err(None) => {},
            _ => return r0,
        }
        let c1 = txt.clone();
        let r1 = self.ps.1.parse(c1);
        assert(yields_on_clone(self.ps.1, txt, r1));
        match r1 {
            Err(None) => {},
            _ => return r1,
        }
        let c2 = txt.clone();
        let r2 = self.ps.2.parse(c2);
        assert(yields_on_clone(self.ps.2, txt, r2));
        match r2 {
            Err(None) => {},
            _ => return r2,
        }
        let c3 = txt.clone();
        let r3 = self.ps.3.parse(c3);
        assert(yields_on_clone(self.ps.3, txt, r3));
        match r3 {
            Err(None) => {},
            _ => return r3,
        }
        let c4 = txt.clone();
        let r4 = self.ps.4.parse(c4);
        assert(yields_on_clone(self.ps.4, txt, r4));
        match r4 {
            Err(None) => {},
            _ => return r4,
        }
        let c5 = txt.clone();
        let r5 = self.ps.5.parse(c5);
        assert(yields_on_clone(self.ps.5, txt, r5));
        match r5 {
            Err(None) => {},
            _ => return r5,
        }
        let c6 = txt.clone();
        let r6 = self.ps.6.parse(c6);
        assert(yields_on_clone(self.ps.6, txt, r6));
        match r6 {
            Err(None) => {},
            _ => return r6,
        }
        let c7 = txt.clone();
        let r7 = self.ps.7.parse(c7);
        assert(yields_on_clone(self.ps.7, txt, r7));
        match r7 {
            Err(None) => {},
            _ => return r7,
        }
        let c8 = txt.clone();
        let r8 = self.ps.8.parse(c8);
        assert(yields_on_clone(self.ps.8, txt, r8));
        match r8 {
            Err(None) => {},
            _ => return r8,
        }
        let c9 = txt.clone();
        let r9 = self.ps.9.parse(c9);
        assert(yields_on_clone(self.ps.9, txt, r9));
        match r9 {
            Err(None) => {},
            _ => return r9,
        }
        let c10 = txt.clone();
        let r10 = self.ps.10.parse(c10);
        assert(yields_on_clone(self.ps.10, txt, r10));
        match r10 {
            Err(None) => {},
            _ => return r10,
        }
        let c11 = txt.clone();
        let r11 = self.ps.11.parse(c11);
        assert(yields_on_clone(self.ps.11, txt, r11));
        match r11 {
            Err(None) => {},
            _ => return r11,
        }
        let c12 = txt.clone();
        let r12 = self.ps.12.parse(c12);
        assert(yields_on_clone(self.ps.12, txt, r12));
        match r12 {
            Err(None) => {},
            _ => return r12,
        }
        let c13 = txt.clone();
        let r13 = self.ps.13.parse(c13);
        assert(yields_on_clone(self.ps.13, txt, r13));
        match r13 {
            Err(None) => {},
            _ => return r13,
        }
        let c14 = txt.clone();
        let r14 = self.ps.14.parse(c14);
        assert(yields_on_clone(self.ps.14, txt, r14));
        match r14 {
            Err(None) => {},
            _ => return r14,
        }
        let c15 = txt.clone();
        let r15 = self.ps.15.parse(c15);
        assert(yields_on_clone(self.ps.15, txt, r15));
        match r15 {
            Err(None) => {},
            _ => return r15,
        }
        Err(None)
    }
}

/// Over inputs whose clones are equal, a branch of 16 deterministic
/// segments is deterministic.
pub proof fn lemma_branch16_deterministic<IN: Clone, OUT, ER, A, B, C, D, E, F, G, H, I, J, K, L, M, N, O, P>(b: Branch<IN, ER, (A, B, C, D, E, F, G, H, I, J, K, L, M, N, O, P)>)
    where
        A: Parser<IN, Out = OUT, Error = Option<ER>>,
        B: Parser<IN, Out = OUT, Error = Option<ER>>,
        C: Parser<IN, Out = OUT, Error = Option<ER>>,
        D: Parser<IN, Out = OUT, Error = Option<ER>>,
        E: Parser<IN, Out = OUT, Error = Option<ER>>,
        F: Parser<IN, Out = OUT, Error = Option<ER>>,
        G: Parser<IN, Out = OUT, Error = Option<ER>>,
        H: Parser<IN, Out = OUT, Error = Option<ER>>,
        I: Parser<IN, Out = OUT, Error = Option<ER>>,
        J: Parser<IN, Out = OUT, Error = Option<ER>>,
        K: Parser<IN, Out = OUT, Error = Option<ER>>,
        L: Parser<IN, Out = OUT, Error = Option<ER>>,
        M: Parser<IN, Out = OUT, Error = Option<ER>>,
        N: Parser<IN, Out = OUT, Error = Option<ER>>,
        O: Parser<IN, Out = OUT, Error = Option<ER>>,
        P: Parser<IN, Out = OUT, Error = Option<ER>>,
    requires
        clones_are_equal::<IN>(),
        deterministic::<IN, A>(b.segments().0),
        deterministic::<IN, B>(b.segments().1),
        deterministic::<IN, C>(b.segments().2),
        deterministic::<IN, D>(b.segments().3),
        deterministic::<IN, E>(b.segments().4),
        deterministic::<IN, F>(b.segments().5),
        deterministic::<IN, G>(b.segments().6),
        deterministic::<IN, H>(b.segments().7),
        deterministic::<IN, I>(b.segments().8),
        deterministic::<IN, J>(b.segments().9),
        deterministic::<IN, K>(b.segments().10),
        deterministic::<IN, L>(b.segments().11),
        deterministic::<IN, M>(b.segments().12),
        deterministic::<IN, N>(b.segments().13),
        deterministic::<IN, O>(b.segments().14),
        deterministic::<IN, P>(b.segments().15),
    ensures
        deterministic::<IN, Branch<IN, ER, (A, B, C, D, E, F, G, H, I, J, K, L, M, N, O, P)>>(b),
{
    lemma_clones_are_transparent::<IN, A>(b.segments().0);
    lemma_clones_are_transparent::<IN, B>(b.segments().1);
    lemma_clones_are_transparent::<IN, C>(b.segments().2);
    lemma_clones_are_transparent::<IN, D>(b.segments().3);
    lemma_clones_are_transparent::<IN, E>(b.segments().4);
    lemma_clones_are_transparent::<IN, F>(b.segments().5);
    lemma_clones_are_transparent::<IN, G>(b.segments().6);
    lemma_clones_are_transparent::<IN, H>(b.segments().7);
    lemma_clones_are_transparent::<IN, I>(b.segments().8);
    lemma_clones_are_transparent::<IN, J>(b.segments().9);
    lemma_clones_are_transparent::<IN, K>(b.segments().10);
    lemma_clones_are_transparent::<IN, L>(b.segments().11);
    lemma_clones_are_transparent::<IN, M>(b.segments().12);
    lemma_clones_are_transparent::<IN, N>(b.segments().13);
    lemma_clones_are_transparent::<IN, O>(b.segments().14);
    lemma_clones_are_transparent::<IN, P>(b.segments().15);
}

impl<IN: Clone, OUT, ER, A, B, C, D, E, F, G, H, I, J, K, L, M, N, O, P, Q> From<(A, B, C, D, E, F, G, H, I, J, K, L, M, N, O, P, Q)> for Branch<IN, ER, (A, B, C, D, E, F, G, H, I, J, K, L, M, N, O, P, Q)> where
    A: Parser<IN, Out = OUT, Error = Option<ER>>,
    B: Parser<IN, Out = OUT, Error = Option<ER>>,
    C: Parser<IN, Out = OUT, Error = Option<ER>>,
    D: Parser<IN, Out = OUT, Error = Option<ER>>,
    E: Parser<IN, Out = OUT, Error = Option<ER>>,
    F: Parser<IN, Out = OUT, Error = Option<ER>>,
    G: Parser<IN, Out = OUT, Error = Option<ER>>,
    H: Parser<IN, Out = OUT, Error = Option<ER>>,
    I: Parser<IN, Out = OUT, Error = Option<ER>>,
    J: Parser<IN, Out = OUT, Error = Option<ER>>,
    K: Parser<IN, Out = OUT, Error = Option<ER>>,
    L: Parser<IN, Out = OUT, Error = Option<ER>>,
    M: Parser<IN, Out = OUT, Error = Option<ER>>,
    N: Parser<IN, Out = OUT, Error = Option<ER>>,
    O: Parser<IN, Out = OUT, Error = Option<ER>>,
    P: Parser<IN, Out = OUT, Error = Option<ER>>,
    Q: Parser<IN, Out = OUT, Error = Option<ER>>,
 {
    fn from(ps: (A, B, C, D, E, F, G, H, I, J, K, L, M, N, O, P, Q)) -> (r: Self) {
        let r = Self { ps, _ghost: PhantomData };
        proof {
            lemma_branch_determined_by_segments(r, ps);
        }
        r
    }
}

impl<IN: Clone, OUT, ER, A, B, C, D, E, F, G, H, I, J, K, L, M, N, O, P, Q> FromSpecImpl<(A, B, C, D, E, F, G, H, I, J, K, L, M, N, O, P, Q)> for Branch<IN, ER, (A, B, C, D, E, F, G, H, I, J, K, L, M, N, O, P, Q)> where
    A: Parser<IN, Out = OUT, Error = Option<ER>>,
    B: Parser<IN, Out = OUT, Error = Option<ER>>,
    C: Parser<IN, Out = OUT, Error = Option<ER>>,
    D: Parser<IN, Out = OUT, Error = Option<ER>>,
    E: Parser<IN, Out = OUT, Error = Option<ER>>,
    F: Parser<IN, Out = OUT, Error = Option<ER>>,
    G: Parser<IN, Out = OUT, Error = Option<ER>>,
    H: Parser<IN, Out = OUT, Error = Option<ER>>,
    I: Parser<IN, Out = OUT, Error = Option<ER>>,
    J: Parser<IN, Out = OUT, Error = Option<ER>>,
    K: Parser<IN, Out = OUT, Error = Option<ER>>,
    L: Parser<IN, Out = OUT, Error = Option<ER>>,
    M: Parser<IN, Out = OUT, Error = Option<ER>>,
    N: Parser<IN, Out = OUT, Error = Option<ER>>,
    O: Parser<IN, Out = OUT, Error = Option<ER>>,
    P: Parser<IN, Out = OUT, Error = Option<ER>>,
    Q: Parser<IN, Out = OUT, Error = Option<ER>>,
 {
    open spec fn obeys_from_spec() -> bool {
        true
    }

    open spec fn from_spec(ps: (A, B, C, D, E, F, G, H, I, J, K, L, M, N, O, P, Q)) -> Self {
        choose|b: Self| b.segments() == ps
    }
}

/// A branch between 17 segments with one output type.
impl<IN: Clone, OUT, ER, A, B, C, D, E, F, G, H, I, J, K, L, M, N, O, P, Q> Parser<IN> for Branch<IN, ER, (A, B, C, D, E, F, G, H, I, J, K, L, M, N, O, P, Q)> where
    A: Parser<IN, Out = OUT, Error = Option<ER>>,
    B: Parser<IN, Out = OUT, Error = Option<ER>>,
    C: Parser<IN, Out = OUT, Error = Option<ER>>,
    D: Parser<IN, Out = OUT, Error = Option<ER>>,
    E: Parser<IN, Out = OUT, Error = Option<ER>>,
    F: Parser<IN, Out = OUT, Error = Option<ER>>,
    G: Parser<IN, Out = OUT, Error = Option<ER>>,
    H: Parser<IN, Out = OUT, Error = Option<ER>>,
    I: Parser<IN, Out = OUT, Error = Option<ER>>,
    J: Parser<IN, Out = OUT, Error = Option<ER>>,
    K: Parser<IN, Out = OUT, Error = Option<ER>>,
    L: Parser<IN, Out = OUT, Error = Option<ER>>,
    M: Parser<IN, Out = OUT, Error = Option<ER>>,
    N: Parser<IN, Out = OUT, Error = Option<ER>>,
    O: Parser<IN, Out = OUT, Error = Option<ER>>,
    P: Parser<IN, Out = OUT, Error = Option<ER>>,
    Q: Parser<IN, Out = OUT, Error = Option<ER>>,
 {
    type Out = OUT;

    type Error = Option<ER>;

    open spec fn parse_requires(&self, input: IN) -> bool {
        let ps = self.segments();
        &&& accepts_clones(ps.0, input)
        &&& yields_on_clone(ps.0, input, Err(None))
            ==> accepts_clones(ps.1, input)
        &&& yields_on_clone(ps.0, input, Err(None))
            && yields_on_clone(ps.1, input, Err(None))
            ==> accepts_clones(ps.2, input)
        &&& yields_on_clone(ps.0, input, Err(None))
            && yields_on_clone(ps.1, input, Err(None))
            && yields_on_clone(ps.2, input, Err(None))
            ==> accepts_clones(ps.3, input)
        &&& yields_on_clone(ps.0, input, Err(None))
            && yields_on_clone(ps.1, input, Err(None))
            && yields_on_clone(ps.2, input, Err(None))
            && yields_on_clone(ps.3, input, Err(None))
            ==> accepts_clones(ps.4, input)
        &&& yields_on_clone(ps.0, input, Err(None))
            && yields_on_clone(ps.1, input, Err(None))
            && yields_on_clone(ps.2, input, Err(None))
            && yields_on_clone(ps.3, input, Err(None))
            && yields_on_clone(ps.4, input, Err(None))
            ==> accepts_clones(ps.5, input)
        &&& yields_on_clone(ps.0, input, Err(None))
            && yields_on_clone(ps.1, input, Err(None))
            && yields_on_clone(ps.2, input, Err(None))
            && yields_on_clone(ps.3, input, Err(None))
            && yields_on_clone(ps.4, input, Err(None))
            && yields_on_clone(ps.5, input, Err(None))
            ==> accepts_clones(ps.6, input)
        &&& yields_on_clone(ps.0, input, Err(None))
            && yields_on_clone(ps.1, input, Err(None))
            && yields_on_clone(ps.2, input, Err(None))
            && yields_on_clone(ps.3, input, Err(None))
            && yields_on_clone(ps.4, input, Err(None))
            && yields_on_clone(ps.5, input, Err(None))
            && yields_on_clone(ps.6, input, Err(None))
            ==> accepts_clones(ps.7, input)
        &&& yields_on_clone(ps.0, input, Err(None))
            && yields_on_clone(ps.1, input, Err(None))
            && yields_on_clone(ps.2, input, Err(None))
            && yields_on_clone(ps.3, input, Err(None))
            && yields_on_clone(ps.4, input, Err(None))
            && yields_on_clone(ps.5, input, Err(None))
            && yields_on_clone(ps.6, input, Err(None))
            && yields_on_clone(ps.7, input, Err(None))
            ==> accepts_clones(ps.8, input)
        &&& yields_on_clone(ps.0, input, Err(None))
            && yields_on_clone(ps.1, input, Err(None))
            && yields_on_clone(ps.2, input, Err(None))
            && yields_on_clone(ps.3, input, Err(None))
            && yields_on_clone(ps.4, input, Err(None))
            && yields_on_clone(ps.5, input, Err(None))
            && yields_on_clone(ps.6, input, Err(None))
            && yields_on_clone(ps.7, input, Err(None))
            && yields_on_clone(ps.8, input, Err(None))
            ==> accepts_clones(ps.9, input)
        &&& yields_on_clone(ps.0, input, Err(None))
            && yields_on_clone(ps.1, input, Err(None))
            && yields_on_clone(ps.2, input, Err(None))
            && yields_on_clone(ps.3, input, Err(None))
            && yields_on_clone(ps.4, input, Err(None))
            && yields_on_clone(ps.5, input, Err(None))
            && yields_on_clone(ps.6, input, Err(None))
            && yields_on_clone(ps.7, input, Err(None))
            && yields_on_clone(ps.8, input, Err(None))
            && yields_on_clone(ps.9, input, Err(None))
            ==> accepts_clones(ps.10, input)
        &&& yields_on_clone(ps.0, input, Err(None))
            && yields_on_clone(ps.1, input, Err(None))
            && yields_on_clone(ps.2, input, Err(None))
            && yields_on_clone(ps.3, input, Err(None))
            && yields_on_clone(ps.4, input, Err(None))
            && yields_on_clone(ps.5, input, Err(None))
            && yields_on_clone(ps.6, input, Err(None))
            && yields_on_clone(ps.7, input, Err(None))
            && yields_on_clone(ps.8, input, Err(None))
            && yields_on_clone(ps.9, input, Err(None))
            && yields_on_clone(ps.10, input, Err(None))
            ==> accepts_clones(ps.11, input)
        &&& yields_on_clone(ps.0, input, Err(None))
            && yields_on_clone(ps.1, input, Err(None))
            && yields_on_clone(ps.2, input, Err(None))
            && yields_on_clone(ps.3, input, Err(None))
            && yields_on_clone(ps.4, input, Err(None))
            && yields_on_clone(ps.5, input, Err(None))
            && yields_on_clone(ps.6, input, Err(None))
            && yields_on_clone(ps.7, input, Err(None))
            && yields_on_clone(ps.8, input, Err(None))
            && yields_on_clone(ps.9, input, Err(None))
            && yields_on_clone(ps.10, input, Err(None))
            && yields_on_clone(ps.11, input, Err(None))
            ==> accepts_clones(ps.12, input)
        &&& yields_on_clone(ps.0, input, Err(None))
            && yields_on_clone(ps.1, input, Err(None))
            && yields_on_clone(ps.2, input, Err(None))
            && yields_on_clone(ps.3, input, Err(None))
            && yields_on_clone(ps.4, input, Err(None))
            && yields_on_clone(ps.5, input, Err(None))
            && yields_on_clone(ps.6, input, Err(None))
            && yields_on_clone(ps.7, input, Err(None))
            && yields_on_clone(ps.8, input, Err(None))
            && yields_on_clone(ps.9, input, Err(None))
            && yields_on_clone(ps.10, input, Err(None))
            && yields_on_clone(ps.11, input, Err(None))
            && yields_on_clone(ps.12, input, Err(None))
            ==> accepts_clones(ps.13, input)
        &&& yields_on_clone(ps.0, input, Err(None))
            && yields_on_clone(ps.1, input, Err(None))
            && yields_on_clone(ps.2, input, Err(None))
            && yields_on_clone(ps.3, input, Err(None))
            && yields_on_clone(ps.4, input, Err(None))
            && yields_on_clone(ps.5, input, Err(None))
            && yields_on_clone(ps.6, input, Err(None))
            && yields_on_clone(ps.7, input, Err(None))
            && yields_on_clone(ps.8, input, Err(None))
            && yields_on_clone(ps.9, input, Err(None))
            && yields_on_clone(ps.10, input, Err(None))
            && yields_on_clone(ps.11, input, Err(None))
            && yields_on_clone(ps.12, input, Err(None))
            && yields_on_clone(ps.13, input, Err(None))
            ==> accepts_clones(ps.14, input)
        &&& yields_on_clone(ps.0, input, Err(None))
            && yields_on_clone(ps.1, input, Err(None))
            && yields_on_clone(ps.2, input, Err(None))
            && yields_on_clone(ps.3, input, Err(None))
            && yields_on_clone(ps.4, input, Err(None))
            && yields_on_clone(ps.5, input, Err(None))
            && yields_on_clone(ps.6, input, Err(None))
            && yields_on_clone(ps.7, input, Err(None))
            && yields_on_clone(ps.8, input, Err(None))
            && yields_on_clone(ps.9, input, Err(None))
            && yields_on_clone(ps.10, input, Err(None))
            && yields_on_clone(ps.11, input, Err(None))
            && yields_on_clone(ps.12, input, Err(None))
            && yields_on_clone(ps.13, input, Err(None))
            && yields_on_clone(ps.14, input, Err(None))
            ==> accepts_clones(ps.15, input)
        &&& yields_on_clone(ps.0, input, Err(None))
            && yields_on_clone(ps.1, input, Err(None))
            && yields_on_clone(ps.2, input, Err(None))
            && yields_on_clone(ps.3, input, Err(None))
            && yields_on_clone(ps.4, input, Err(None))
            && yields_on_clone(ps.5, input, Err(None))
            && yields_on_clone(ps.6, input, Err(None))
            && yields_on_clone(ps.7, input, Err(None))
            && yields_on_clone(ps.8, input, Err(None))
            && yields_on_clone(ps.9, input, Err(None))
            && yields_on_clone(ps.10, input, Err(None))
            && yields_on_clone(ps.11, input, Err(None))
            && yields_on_clone(ps.12, input, Err(None))
            && yields_on_clone(ps.13, input, Err(None))
            && yields_on_clone(ps.14, input, Err(None))
            && yields_on_clone(ps.15, input, Err(None))
            ==> accepts_clones(ps.16, input)
    }

    open spec fn parse_ensures(&self, input: IN, res: Result<(OUT, IN), Option<ER>>) -> bool {
        let ps = self.segments();
        match res {
            Err(None) => {
                &&& yields_on_clone(ps.0, input, Err(None))
                &&& yields_on_clone(ps.1, input, Err(None))
                &&& yields_on_clone(ps.2, input, Err(None))
                &&& yields_on_clone(ps.3, input, Err(None))
                &&& yields_on_clone(ps.4, input, Err(None))
                &&& yields_on_clone(ps.5, input, Err(None))
                &&& yields_on_clone(ps.6, input, Err(None))
                &&& yields_on_clone(ps.7, input, Err(None))
                &&& yields_on_clone(ps.8, input, Err(None))
                &&& yields_on_clone(ps.9, input, Err(None))
                &&& yields_on_clone(ps.10, input, Err(None))
                &&& yields_on_clone(ps.11, input, Err(None))
                &&& yields_on_clone(ps.12, input, Err(None))
                &&& yields_on_clone(ps.13, input, Err(None))
                &&& yields_on_clone(ps.14, input, Err(None))
                &&& yields_on_clone(ps.15, input, Err(None))
                &&& yields_on_clone(ps.16, input, Err(None))
            },
            _ => {
                ||| yields_on_clone(ps.0, input, res)
                ||| yields_on_clone(ps.0, input, Err(None))
                    && yields_on_clone(ps.1, input, res)
                ||| yields_on_clone(ps.0, input, Err(None))
                    && yields_on_clone(ps.1, input, Err(None))
                    && yields_on_clone(ps.2, input, res)
                ||| yields_on_clone(ps.0, input, Err(None))
                    && yields_on_clone(ps.1, input, Err(None))
                    && yields_on_clone(ps.2, input, Err(None))
                    && yields_on_clone(ps.3, input, res)
                ||| yields_on_clone(ps.0, input, Err(None))
                    && yields_on_clone(ps.1, input, Err(None))
                    && yields_on_clone(ps.2, input, Err(None))
                    && yields_on_clone(ps.3, input, Err(None))
                    && yields_on_clone(ps.4, input, res)
                ||| yields_on_clone(ps.0, input, Err(None))
                    && yields_on_clone(ps.1, input, Err(None))
                    && yields_on_clone(ps.2, input, Err(None))
                    && yields_on_clone(ps.3, input, Err(None))
                    && yields_on_clone(ps.4, input, Err(None))
                    && yields_on_clone(ps.5, input, res)
                ||| yields_on_clone(ps.0, input, Err(None))
                    && yields_on_clone(ps.1, input, Err(None))
                    && yields_on_clone(ps.2, input, Err(None))
                    && yields_on_clone(ps.3, input, Err(None))
                    && yields_on_clone(ps.4, input, Err(None))
                    && yields_on_clone(ps.5, input, Err(None))
                    && yields_on_clone(ps.6, input, res)
                ||| yields_on_clone(ps.0, input, Err(None))
                    && yields_on_clone(ps.1, input, Err(None))
                    && yields_on_clone(ps.2, input, Err(None))
                    && yields_on_clone(ps.3, input, Err(None))
                    && yields_on_clone(ps.4, input, Err(None))
                    && yields_on_clone(ps.5, input, Err(None))
                    && yields_on_clone(ps.6, input, Err(None))
                    && yields_on_clone(ps.7, input, res)
                ||| yields_on_clone(ps.0, input, Err(None))
                    && yields_on_clone(ps.1, input, Err(None))
                    && yields_on_clone(ps.2, input, Err(None))
                    && yields_on_clone(ps.3, input, Err(None))
                    && yields_on_clone(ps.4, input, Err(None))
                    && yields_on_clone(ps.5, input, Err(None))
                    && yields_on_clone(ps.6, input, Err(None))
                    && yields_on_clone(ps.7, input, Err(None))
                    && yields_on_clone(ps.8, input, res)
                ||| yields_on_clone(ps.0, input, Err(None))
                    && yields_on_clone(ps.1, input, Err(None))
                    && yields_on_clone(ps.2, input, Err(None))
                    && yields_on_clone(ps.3, input, Err(None))
                    && yields_on_clone(ps.4, input, Err(None))
                    && yields_on_clone(ps.5, input, Err(None))
                    && yields_on_clone(ps.6, input, Err(None))
                    && yields_on_clone(ps.7, input, Err(None))
                    && yields_on_clone(ps.8, input, Err(None))
                    && yields_on_clone(ps.9, input, res)
                ||| yields_on_clone(ps.0, input, Err(None))
                    && yields_on_clone(ps.1, input, Err(None))
                    && yields_on_clone(ps.2, input, Err(None))
                    && yields_on_clone(ps.3, input, Err(None))
                    && yields_on_clone(ps.4, input, Err(None))
                    && yields_on_clone(ps.5, input, Err(None))
                    && yields_on_clone(ps.6, input, Err(None))
                    && yields_on_clone(ps.7, input, Err(None))
                    && yields_on_clone(ps.8, input, Err(None))
                    && yields_on_clone(ps.9, input, Err(None))
                    && yields_on_clone(ps.10, input, res)
                ||| yields_on_clone(ps.0, input, Err(None))
                    && yields_on_clone(ps.1, input, Err(None))
                    && yields_on_clone(ps.2, input, Err(None))
                    && yields_on_clone(ps.3, input, Err(None))
                    && yields_on_clone(ps.4, input, Err(None))
                    && yields_on_clone(ps.5, input, Err(None))
                    && yields_on_clone(ps.6, input, Err(None))
                    && yields_on_clone(ps.7, input, Err(None))
                    && yields_on_clone(ps.8, input, Err(None))
                    && yields_on_clone(ps.9, input, Err(None))
                    && yields_on_clone(ps.10, input, Err(None))
                    && yields_on_clone(ps.11, input, res)
                ||| yields_on_clone(ps.0, input, Err(None))
                    && yields_on_clone(ps.1, input, Err(None))
                    && yields_on_clone(ps.2, input, Err(None))
                    && yields_on_clone(ps.3, input, Err(None))
                    && yields_on_clone(ps.4, input, Err(None))
                    && yields_on_clone(ps.5, input, Err(None))
                    && yields_on_clone(ps.6, input, Err(None))
                    && yields_on_clone(ps.7, input, Err(None))
                    && yields_on_clone(ps.8, input, Err(None))
                    && yields_on_clone(ps.9, input, Err(None))
                    && yields_on_clone(ps.10, input, Err(None))
                    && yields_on_clone(ps.11, input, Err(None))
                    && yields_on_clone(ps.12, input, res)
                ||| yields_on_clone(ps.0, input, Err(None))
                    && yields_on_clone(ps.1, input, Err(None))
                    && yields_on_clone(ps.2, input, Err(None))
                    && yields_on_clone(ps.3, input, Err(None))
                    && yields_on_clone(ps.4, input, Err(None))
                    && yields_on_clone(ps.5, input, Err(None))
                    && yields_on_clone(ps.6, input, Err(None))
                    && yields_on_clone(ps.7, input, Err(None))
                    && yields_on_clone(ps.8, input, Err(None))
                    && yields_on_clone(ps.9, input, Err(None))
                    && yields_on_clone(ps.10, input, Err(None))
                    && yields_on_clone(ps.11, input, Err(None))
                    && yields_on_clone(ps.12, input, Err(None))
                    && yields_on_clone(ps.13, input, res)
                ||| yields_on_clone(ps.0, input, Err(None))
                    && yields_on_clone(ps.1, input, Err(None))
                    && yields_on_clone(ps.2, input, Err(None))
                    && yields_on_clone(ps.3, input, Err(None))
                    && yields_on_clone(ps.4, input, Err(None))
                    && yields_on_clone(ps.5, input, Err(None))
                    && yields_on_clone(ps.6, input, Err(None))
                    && yields_on_clone(ps.7, input, Err(None))
                    && yields_on_clone(ps.8, input, Err(None))
                    && yields_on_clone(ps.9, input, Err(None))
                    && yields_on_clone(ps.10, input, Err(None))
                    && yields_on_clone(ps.11, input, Err(None))
                    && yields_on_clone(ps.12, input, Err(None))
                    && yields_on_clone(ps.13, input, Err(None))
                    && yields_on_clone(ps.14, input, res)
                ||| yields_on_clone(ps.0, input, Err(None))
                    && yields_on_clone(ps.1, input, Err(None))
                    && yields_on_clone(ps.2, input, Err(None))
                    && yields_on_clone(ps.3, input, Err(None))
                    && yields_on_clone(ps.4, input, Err(None))
                    && yields_on_clone(ps.5, input, Err(None))
                    && yields_on_clone(ps.6, input, Err(None))
                    && yields_on_clone(ps.7, input, Err(None))
                    && yields_on_clone(ps.8, input, Err(None))
                    && yields_on_clone(ps.9, input, Err(None))
                    && yields_on_clone(ps.10, input, Err(None))
                    && yields_on_clone(ps.11, input, Err(None))
                    && yields_on_clone(ps.12, input, Err(None))
                    && yields_on_clone(ps.13, input, Err(None))
                    && yields_on_clone(ps.14, input, Err(None))
                    && yields_on_clone(ps.15, input, res)
                ||| yields_on_clone(ps.0, input, Err(None))
                    && yields_on_clone(ps.1, input, Err(None))
                    && yields_on_clone(ps.2, input, Err(None))
                    && yields_on_clone(ps.3, input, Err(None))
                    && yields_on_clone(ps.4, input, Err(None))
                    && yields_on_clone(ps.5, input, Err(None))
                    && yields_on_clone(ps.6, input, Err(None))
                    && yields_on_clone(ps.7, input, Err(None))
                    && yields_on_clone(ps.8, input, Err(None))
                    && yields_on_clone(ps.9, input, Err(None))
                    && yields_on_clone(ps.10, input, Err(None))
                    && yields_on_clone(ps.11, input, Err(None))
                    && yields_on_clone(ps.12, input, Err(None))
                    && yields_on_clone(ps.13, input, Err(None))
                    && yields_on_clone(ps.14, input, Err(None))
                    && yields_on_clone(ps.15, input, Err(None))
                    && yields_on_clone(ps.16, input, res)
            },
        }
    }

    fn parse(&self, txt: IN) -> (res: Result<(OUT, IN), Option<ER>>) {
        let c0 = txt.clone();
        let r0 = self.ps.0.parse(c0);
        assert(yields_on_clone(self.ps.0, txt, r0));
        match r0 {
            Err(None) => {},
            _ => return r0,
        }
        let c1 = txt.clone();
        let r1 = self.ps.1.parse(c1);
        assert(yields_on_clone(self.ps.1, txt, r1));
        match r1 {
            Err(None) => {},
            _ => return r1,
        }
        let c2 = txt.clone();
        let r2 = self.ps.2.parse(c2);
        assert(yields_on_clone(self.ps.2, txt, r2));
        match r2 {
            Err(None) => {},
            _ => return r2,
        }
        let c3 = txt.clone();
        let r3 = self.ps.3.parse(c3);
        assert(yields_on_clone(self.ps.3, txt, r3));
        match r3 {
            Err(None) => {},
            _ => return r3,
        }
        let c4 = txt.clone();
        let r4 = self.ps.4.parse(c4);
        assert(yields_on_clone(self.ps.4, txt, r4));
        match r4 {
            Err(None) => {},
            _ => return r4,
        }
        let c5 = txt.clone();
        let r5 = self.ps.5.parse(c5);
        assert(yields_on_clone(self.ps.5, txt, r5));
        match r5 {
            Err(None) => {},
            _ => return r5,
        }
        let c6 = txt.clone();
        let r6 = self.ps.6.parse(c6);
        assert(yields_on_clone(self.ps.6, txt, r6));
        match r6 {
            Err(None) => {},
            _ => return r6,
        }
        let c7 = txt.clone();
        let r7 = self.ps.7.parse(c7);
        assert(yields_on_clone(self.ps.7, txt, r7));
        match r7 {
            Err(None) => {},
            _ => return r7,
        }
        let c8 = txt.clone();
        let r8 = self.ps.8.parse(c8);
        assert(yields_on_clone(self.ps.8, txt, r8));
        match r8 {
            Err(None) => {},
            _ => return r8,
        }
        let c9 = txt.clone();
        let r9 = self.ps.9.parse(c9);
        assert(yields_on_clone(self.ps.9, txt, r9));
        match r9 {
            Err(None) => {},
            _ => return r9,
        }
        let c10 = txt.clone();
        let r10 = self.ps.10.parse(c10);
        assert(yields_on_clone(self.ps.10, txt, r10));
        match r10 {
            Err(None) => {},
            _ => return r10,
        }
        let c11 = txt.clone();
        let r11 = self.ps.11.parse(c11);
        assert(yields_on_clone(self.ps.11, txt, r11));
        match r11 {
            Err(None) => {},
            _ => return r11,
        }
        let c12 = txt.clone();
        let r12 = self.ps.12.parse(c12);
        assert(yields_on_clone(self.ps.12, txt, r12));
        match r12 {
            Err(None) => {},
            _ => return r12,
        }
        let c13 = txt.clone();
        let r13 = self.ps.13.parse(c13);
        assert(yields_on_clone(self.ps.13, txt, r13));
        match r13 {
            Err(None) => {},
            _ => return r13,
        }
        let c14 = txt.clone();
        let r14 = self.ps.14.parse(c14);
        assert(yields_on_clone(self.ps.14, txt, r14));
        match r14 {
            Err(None) => {},
            _ => return r14,
        }
        let c15 = txt.clone();
        let r15 = self.ps.15.parse(c15);
        assert(yields_on_clone(self.ps.15, txt, r15));
        match r15 {
            Err(None) => {},
            _ => return r15,
        }
        let c16 = txt.clone();
        let r16 = self.ps.16.parse(c16);
        assert(yields_on_clone(self.ps.16, txt, r16));
        match r16 {
            Err(None) => {},
            _ => return r16,
        }
        Err(None)
    }
}

/// Over inputs whose clones are equal, a branch of 17 deterministic
/// segments is deterministic.
pub proof fn lemma_branch17_deterministic<IN: Clone, OUT, ER, A, B, C, D, E, F, G, H, I, J, K, L, M, N, O, P, Q>(b: Branch<IN, ER, (A, B, C, D, E, F, G, H, I, J, K, L, M, N, O, P, Q)>)
    where
        A: Parser<IN, Out = OUT, Error = Option<ER>>,
        B: Parser<IN, Out = OUT, Error = Option<ER>>,
        C: Parser<IN, Out = OUT, Error = Option<ER>>,
        D: Parser<IN, Out = OUT, Error = Option<ER>>,
        E: Parser<IN, Out = OUT, Error = Option<ER>>,
        F: Parser<IN, Out = OUT, Error = Option<ER>>,
        G: Parser<IN, Out = OUT, Error = Option<ER>>,
        H: Parser<IN, Out = OUT, Error = Option<ER>>,
        I: Parser<IN, Out = OUT, Error = Option<ER>>,
        J: Parser<IN, Out = OUT, Error = Option<ER>>,
        K: Parser<IN, Out = OUT, Error = Option<ER>>,
        L: Parser<IN, Out = OUT, Error = Option<ER>>,
        M: Parser<IN, Out = OUT, Error = Option<ER>>,
        N: Parser<IN, Out = OUT, Error = Option<ER>>,
        O: Parser<IN, Out = OUT, Error = Option<ER>>,
        P: Parser<IN, Out = OUT, Error = Option<ER>>,
        Q: Parser<IN, Out = OUT, Error = Option<ER>>,
    requires
        clones_are_equal::<IN>(),
        deterministic::<IN, A>(b.segments().0),
        deterministic::<IN, B>(b.segments().1),
        deterministic::<IN, C>(b.segments().2),
        deterministic::<IN, D>(b.segments().3),
        deterministic::<IN, E>(b.segments().4),
        deterministic::<IN, F>(b.segments().5),
        deterministic::<IN, G>(b.segments().6),
        deterministic::<IN, H>(b.segments().7),
        deterministic::<IN, I>(b.segments().8),
        deterministic::<IN, J>(b.segments().9),
        deterministic::<IN, K>(b.segments().10),
        deterministic::<IN, L>(b.segments().11),
        deterministic::<IN, M>(b.segments().12),
        deterministic::<IN, N>(b.segments().13),
        deterministic::<IN, O>(b.segments().14),
        deterministic::<IN, P>(b.segments().15),
        deterministic::<IN, Q>(b.segments().16),
    ensures
        deterministic::<IN, Branch<IN, ER, (A, B, C, D, E, F, G, H, I, J, K, L, M, N, O, P, Q)>>(b),
{
    lemma_clones_are_transparent::<IN, A>(b.segments().0);
    lemma_clones_are_transparent::<IN, B>(b.segments().1);
    lemma_clones_are_transparent::<IN, C>(b.segments().2);
    lemma_clones_are_transparent::<IN, D>(b.segments().3);
    lemma_clones_are_transparent::<IN, E>(b.segments().4);
    lemma_clones_are_transparent::<IN, F>(b.segments().5);
    lemma_clones_are_transparent::<IN, G>(b.segments().6);
    lemma_clones_are_transparent::<IN, H>(b.segments().7);
    lemma_clones_are_transparent::<IN, I>(b.segments().8);
    lemma_clones_are_transparent::<IN, J>(b.segments().9);
    lemma_clones_are_transparent::<IN, K>(b.segments().10);
    lemma_clones_are_transparent::<IN, L>(b.segments().11);
    lemma_clones_are_transparent::<IN, M>(b.segments().12);
    lemma_clones_are_transparent::<IN, N>(b.segments().13);
    lemma_clones_are_transparent::<IN, O>(b.segments().14);
    lemma_clones_are_transparent::<IN, P>(b.segments().15);
    lemma_clones_are_transparent::<IN, Q>(b.segments().16);
}

impl<IN: Clone, OUT, ER, A, B, C, D, E, F, G, H, I, J, K, L, M, N, O, P, Q, R> From<(A, B, C, D, E, F, G, H, I, J, K, L, M, N, O, P, Q, R)> for Branch<IN, ER, (A, B, C, D, E, F, G, H, I, J, K, L, M, N, O, P, Q, R)> where
    A: Parser<IN, Out = OUT, Error = Option<ER>>,
    B: Parser<IN, Out = OUT, Error = Option<ER>>,
    C: Parser<IN, Out = OUT, Error = Option<ER>>,
    D: Parser<IN, Out = OUT, Error = Option<ER>>,
    E: Parser<IN, Out = OUT, Error = Option<ER>>,
    F: Parser<IN, Out = OUT, Error = Option<ER>>,
    G: Parser<IN, Out = OUT, Error = Option<ER>>,
    H: Parser<IN, Out = OUT, Error = Option<ER>>,
    I: Parser<IN, Out = OUT, Error = Option<ER>>,
    J: Parser<IN, Out = OUT, Error = Option<ER>>,
    K: Parser<IN, Out = OUT, Error = Option<ER>>,
    L: Parser<IN, Out = OUT, Error = Option<ER>>,
    M: Parser<IN, Out = OUT, Error = Option<ER>>,
    N: Parser<IN, Out = OUT, Error = Option<ER>>,
    O: Parser<IN, Out = OUT, Error = Option<ER>>,
    P: Parser<IN, Out = OUT, Error = Option<ER>>,
    Q: Parser<IN, Out = OUT, Error = Option<ER>>,
    R: Parser<IN, Out = OUT, Error = Option<ER>>,
 {
    fn from(ps: (A, B, C, D, E, F, G, H, I, J, K, L, M, N, O, P, Q, R)) -> (r: Self) {
        let r = Self { ps, _ghost: PhantomData };
        proof {
            lemma_branch_determined_by_segments(r, ps);
        }
        r
    }
}

impl<IN: Clone, OUT, ER, A, B, C, D, E, F, G, H, I, J, K, L, M, N, O, P, Q, R> FromSpecImpl<(A, B, C, D, E, F, G, H, I, J, K, L, M, N, O, P, Q, R)> for Branch<IN, ER, (A, B, C, D, E, F, G, H, I, J, K, L, M, N, O, P, Q, R)> where
    A: Parser<IN, Out = OUT, Error = Option<ER>>,
    B: Parser<IN, Out = OUT, Error = Option<ER>>,
    C: Parser<IN, Out = OUT, Error = Option<ER>>,
    D: Parser<IN, Out = OUT, Error = Option<ER>>,
    E: Parser<IN, Out = OUT, Error = Option<ER>>,
    F: Parser<IN, Out = OUT, Error = Option<ER>>,
    G: Parser<IN, Out = OUT, Error = Option<ER>>,
    H: Parser<IN, Out = OUT, Error = Option<ER>>,
    I: Parser<IN, Out = OUT, Error = Option<ER>>,
    J: Parser<IN, Out = OUT, Error = Option<ER>>,
    K: Parser<IN, Out = OUT, Error = Option<ER>>,
    L: Parser<IN, Out = OUT, Error = Option<ER>>,
    M: Parser<IN, Out = OUT, Error = Option<ER>>,
    N: Parser<IN, Out = OUT, Error = Option<ER>>,
    O: Parser<IN, Out = OUT, Error = Option<ER>>,
    P: Parser<IN, Out = OUT, Error = Option<ER>>,
    Q: Parser<IN, Out = OUT, Error = Option<ER>>,
    R: Parser<IN, Out = OUT, Error = Option<ER>>,
 {
    open spec fn obeys_from_spec() -> bool {
        true
    }

    open spec fn from_spec(ps: (A, B, C, D, E, F, G, H, I, J, K, L, M, N, O, P, Q, R)) -> Self {
        choose|b: Self| b.segments() == ps
    }
}

/// A branch between 18 segments with one output type.
impl<IN: Clone, OUT, ER, A, B, C, D, E, F, G, H, I, J, K, L, M, N, O, P, Q, R> Parser<IN> for Branch<IN, ER, (A, B, C, D, E, F, G, H, I, J, K, L, M, N, O, P, Q, R)> where
    A: Parser<IN, Out = OUT, Error = Option<ER>>,
    B: Parser<IN, Out = OUT, Error = Option<ER>>,
    C: Parser<IN, Out = OUT, Error = Option<ER>>,
    D: Parser<IN, Out = OUT, Error = Option<ER>>,
    E: Parser<IN, Out = OUT, Error = Option<ER>>,
    F: Parser<IN, Out = OUT, Error = Option<ER>>,
    G: Parser<IN, Out = OUT, Error = Option<ER>>,
    H: Parser<IN, Out = OUT, Error = Option<ER>>,
    I: Parser<IN, Out = OUT, Error = Option<ER>>,
    J: Parser<IN, Out = OUT, Error = Option<ER>>,
    K: Parser<IN, Out = OUT, Error = Option<ER>>,
    L: Parser<IN, Out = OUT, Error = Option<ER>>,
    M: Parser<IN, Out = OUT, Error = Option<ER>>,
    N: Parser<IN, Out = OUT, Error = Option<ER>>,
    O: Parser<IN, Out = OUT, Error = Option<ER>>,
    P: Parser<IN, Out = OUT, Error = Option<ER>>,
    Q: Parser<IN, Out = OUT, Error = Option<ER>>,
    R: Parser<IN, Out = OUT, Error = Option<ER>>,
 {
    type Out = OUT;

    type Error = Option<ER>;

    open spec fn parse_requires(&self, input: IN) -> bool {
        let ps = self.segments();
        &&& accepts_clones(ps.0, input)
        &&& yields_on_clone(ps.0, input, Err(None))
            ==> accepts_clones(ps.1, input)
        &&& yields_on_clone(ps.0, input, Err(None))
            && yields_on_clone(ps.1, input, Err(None))
            ==> accepts_clones(ps.2, input)
        &&& yields_on_clone(ps.0, input, Err(None))
            && yields_on_clone(ps.1, input, Err(None))
            && yields_on_clone(ps.2, input, Err(None))
            ==> accepts_clones(ps.3, input)
        &&& yields_on_clone(ps.0, input, Err(None))
            && yields_on_clone(ps.1, input, Err(None))
            && yields_on_clone(ps.2, input, Err(None))
            && yields_on_clone(ps.3, input, Err(None))
            ==> accepts_clones(ps.4, input)
        &&& yields_on_clone(ps.0, input, Err(None))
            && yields_on_clone(ps.1, input, Err(None))
            && yields_on_clone(ps.2, input, Err(None))
            && yields_on_clone(ps.3, input, Err(None))
            && yields_on_clone(ps.4, input, Err(None))
            ==> accepts_clones(ps.5, input)
        &&& yields_on_clone(ps.0, input, Err(None))
            && yields_on_clone(ps.1, input, Err(None))
            && yields_on_clone(ps.2, input, Err(None))
            && yields_on_clone(ps.3, input, Err(None))
            && yields_on_clone(ps.4, input, Err(None))
            && yields_on_clone(ps.5, input, Err(None))
            ==> accepts_clones(ps.6, input)
        &&& yields_on_clone(ps.0, input, Err(None))
            && yields_on_clone(ps.1, input, Err(None))
            && yields_on_clone(ps.2, input, Err(None))
            && yields_on_clone(ps.3, input, Err(None))
            && yields_on_clone(ps.4, input, Err(None))
            && yields_on_clone(ps.5, input, Err(None))
            && yields_on_clone(ps.6, input, Err(None))
            ==> accepts_clones(ps.7, input)
        &&& yields_on_clone(ps.0, input, Err(None))
            && yields_on_clone(ps.1, input, Err(None))
            && yields_on_clone(ps.2, input, Err(None))
            && yields_on_clone(ps.3, input, Err(None))
            && yields_on_clone(ps.4, input, Err(None))
            && yields_on_clone(ps.5, input, Err(None))
            && yields_on_clone(ps.6, input, Err(None))
            && yields_on_clone(ps.7, input, Err(None))
            ==> accepts_clones(ps.8, input)
        &&& yields_on_clone(ps.0, input, Err(None))
            && yields_on_clone(ps.1, input, Err(None))
            && yields_on_clone(ps.2, input, Err(None))
            && yields_on_clone(ps.3, input, Err(None))
            && yields_on_clone(ps.4, input, Err(None))
            && yields_on_clone(ps.5, input, Err(None))
            && yields_on_clone(ps.6, input, Err(None))
            && yields_on_clone(ps.7, input, Err(None))
            && yields_on_clone(ps.8, input, Err(None))
            ==> accepts_clones(ps.9, input)
        &&& yields_on_clone(ps.0, input, Err(None))
            && yields_on_clone(ps.1, input, Err(None))
            && yields_on_clone(ps.2, input, Err(None))
            && yields_on_clone(ps.3, input, Err(None))
            && yields_on_clone(ps.4, input, Err(None))
            && yields_on_clone(ps.5, input, Err(None))
            && yields_on_clone(ps.6, input, Err(None))
            && yields_on_clone(ps.7, input, Err(None))
            && yields_on_clone(ps.8, input, Err(None))
            && yields_on_clone(ps.9, input, Err(None))
            ==> accepts_clones(ps.10, input)
        &&& yields_on_clone(ps.0, input, Err(None))
            && yields_on_clone(ps.1, input, Err(None))
            && yields_on_clone(ps.2, input, Err(None))
            && yields_on_clone(ps.3, input, Err(None))
            && yields_on_clone(ps.4, input, Err(None))
            && yields_on_clone(ps.5, input, Err(None))
            && yields_on_clone(ps.6, input, Err(None))
            && yields_on_clone(ps.7, input, Err(None))
            && yields_on_clone(ps.8, input, Err(None))
            && yields_on_clone(ps.9, input, Err(None))
            && yields_on_clone(ps.10, input, Err(None))
            ==> accepts_clones(ps.11, input)
        &&& yields_on_clone(ps.0, input, Err(None))
            && yields_on_clone(ps.1, input, Err(None))
            && yields_on_clone(ps.2, input, Err(None))
            && yields_on_clone(ps.3, input, Err(None))
            && yields_on_clone(ps.4, input, Err(None))
            && yields_on_clone(ps.5, input, Err(None))
            && yields_on_clone(ps.6, input, Err(None))
            && yields_on_clone(ps.7, input, Err(None))
            && yields_on_clone(ps.8, input, Err(None))
            && yields_on_clone(ps.9, input, Err(None))
            && yields_on_clone(ps.10, input, Err(None))
            && yields_on_clone(ps.11, input, Err(None))
            ==> accepts_clones(ps.12, input)
        &&& yields_on_clone(ps.0, input, Err(None))
            && yields_on_clone(ps.1, input, Err(None))
            && yields_on_clone(ps.2, input, Err(None))
            && yields_on_clone(ps.3, input, Err(None))
            && yields_on_clone(ps.4, input, Err(None))
            && yields_on_clone(ps.5, input, Err(None))
            && yields_on_clone(ps.6, input, Err(None))
            && yields_on_clone(ps.7, input, Err(None))
            && yields_on_clone(ps.8, input, Err(None))
            && yields_on_clone(ps.9, input, Err(None))
            && yields_on_clone(ps.10, input, Err(None))
            && yields_on_clone(ps.11, input, Err(None))
            && yields_on_clone(ps.12, input, Err(None))
            ==> accepts_clones(ps.13, input)
        &&& yields_on_clone(ps.0, input, Err(None))
            && yields_on_clone(ps.1, input, Err(None))
            && yields_on_clone(ps.2, input, Err(None))
            && yields_on_clone(ps.3, input, Err(None))
            && yields_on_clone(ps.4, input, Err(None))
            && yields_on_clone(ps.5, input, Err(None))
            && yields_on_clone(ps.6, input, Err(None))
            && yields_on_clone(ps.7, input, Err(None))
            && yields_on_clone(ps.8, input, Err(None))
            && yields_on_clone(ps.9, input, Err(None))
            && yields_on_clone(ps.10, input, Err(None))
            && yields_on_clone(ps.11, input, Err(None))
            && yields_on_clone(ps.12, input, Err(None))
            && yields_on_clone(ps.13, input, Err(None))
            ==> accepts_clones(ps.14, input)
        &&& yields_on_clone(ps.0, input, Err(None))
            && yields_on_clone(ps.1, input, Err(None))
            && yields_on_clone(ps.2, input, Err(None))
            && yields_on_clone(ps.3, input, Err(None))
            && yields_on_clone(ps.4, input, Err(None))
            && yields_on_clone(ps.5, input, Err(None))
            && yields_on_clone(ps.6, input, Err(None))
            && yields_on_clone(ps.7, input, Err(None))
            && yields_on_clone(ps.8, input, Err(None))
            && yields_on_clone(ps.9, input, Err(None))
            && yields_on_clone(ps.10, input, Err(None))
            && yields_on_clone(ps.11, input, Err(None))
            && yields_on_clone(ps.12, input, Err(None))
            && yields_on_clone(ps.13, input, Err(None))
            && yields_on_clone(ps.14, input, Err(None))
            ==> accepts_clones(ps.15, input)
        &&& yields_on_clone(ps.0, input, Err(None))
            && yields_on_clone(ps.1, input, Err(None))
            && yields_on_clone(ps.2, input, Err(None))
            && yields_on_clone(ps.3, input, Err(None))
            && yields_on_clone(ps.4, input, Err(None))
            && yields_on_clone(ps.5, input, Err(None))
            && yields_on_clone(ps.6, input, Err(None))
            && yields_on_clone(ps.7, input, Err(None))
            && yields_on_clone(ps.8, input, Err(None))
            && yields_on_clone(ps.9, input, Err(None))
            && yields_on_clone(ps.10, input, Err(None))
            && yields_on_clone(ps.11, input, Err(None))
            && yields_on_clone(ps.12, input, Err(None))
            && yields_on_clone(ps.13, input, Err(None))
            && yields_on_clone(ps.14, input, Err(None))
            && yields_on_clone(ps.15, input, Err(None))
            ==> accepts_clones(ps.16, input)
        &&& yields_on_clone(ps.0, input, Err(None))
            && yields_on_clone(ps.1, input, Err(None))
            && yields_on_clone(ps.2, input, Err(None))
            && yields_on_clone(ps.3, input, Err(None))
            && yields_on_clone(ps.4, input, Err(None))
            && yields_on_clone(ps.5, input, Err(None))
            && yields_on_clone(ps.6, input, Err(None))
            && yields_on_clone(ps.7, input, Err(None))
            && yields_on_clone(ps.8, input, Err(None))
            && yields_on_clone(ps.9, input, Err(None))
            && yields_on_clone(ps.10, input, Err(None))
            && yields_on_clone(ps.11, input, Err(None))
            && yields_on_clone(ps.12, input, Err(None))
            && yields_on_clone(ps.13, input, Err(None))
            && yields_on_clone(ps.14, input, Err(None))
            && yields_on_clone(ps.15, input, Err(None))
            && yields_on_clone(ps.16, input, Err(None))
            ==> accepts_clones(ps.17, input)
    }

    open spec fn parse_ensures(&self, input: IN, res: Result<(OUT, IN), Option<ER>>) -> bool {
        let ps = self.segments();
        match res {
            Err(None) => {
                &&& yields_on_clone(ps.0, input, Err(None))
                &&& yields_on_clone(ps.1, input, Err(None))
                &&& yields_on_clone(ps.2, input, Err(None))
                &&& yields_on_clone(ps.3, input, Err(None))
                &&& yields_on_clone(ps.4, input, Err(None))
                &&& yields_on_clone(ps.5, input, Err(None))
                &&& yields_on_clone(ps.6, input, Err(None))
                &&& yields_on_clone(ps.7, input, Err(None))
                &&& yields_on_clone(ps.8, input, Err(None))
                &&& yields_on_clone(ps.9, input, Err(None))
                &&& yields_on_clone(ps.10, input, Err(None))
                &&& yields_on_clone(ps.11, input, Err(None))
                &&& yields_on_clone(ps.12, input, Err(None))
                &&& yields_on_clone(ps.13, input, Err(None))
                &&& yields_on_clone(ps.14, input, Err(None))
                &&& yields_on_clone(ps.15, input, Err(None))
                &&& yields_on_clone(ps.16, input, Err(None))
                &&& yields_on_clone(ps.17, input, Err(None))
            },
            _ => {
                ||| yields_on_clone(ps.0, input, res)
                ||| yields_on_clone(ps.0, input, Err(None))
                    && yields_on_clone(ps.1, input, res)
                ||| yields_on_clone(ps.0, input, Err(None))
                    && yields_on_clone(ps.1, input, Err(None))
                    && yields_on_clone(ps.2, input, res)
                ||| yields_on_clone(ps.0, input, Err(None))
                    && yields_on_clone(ps.1, input, Err(None))
                    && yields_on_clone(ps.2, input, Err(None))
                    && yields_on_clone(ps.3, input, res)
                ||| yields_on_clone(ps.0, input, Err(None))
                    && yields_on_clone(ps.1, input, Err(None))
                    && yields_on_clone(ps.2, input, Err(None))
                    && yields_on_clone(ps.3, input, Err(None))
                    && yields_on_clone(ps.4, input, res)
                ||| yields_on_clone(ps.0, input, Err(None))
                    && yields_on_clone(ps.1, input, Err(None))
                    && yields_on_clone(ps.2, input, Err(None))
                    && yields_on_clone(ps.3, input, Err(None))
                    && yields_on_clone(ps.4, input, Err(None))
                    && yields_on_clone(ps.5, input, res)
                ||| yields_on_clone(ps.0, input, Err(None))
                    && yields_on_clone(ps.1, input, Err(None))
                    && yields_on_clone(ps.2, input, Err(None))
                    && yields_on_clone(ps.3, input, Err(None))
                    && yields_on_clone(ps.4, input, Err(None))
                    && yields_on_clone(ps.5, input, Err(None))
                    && yields_on_clone(ps.6, input, res)
                ||| yields_on_clone(ps.0, input, Err(None))
                    && yields_on_clone(ps.1, input, Err(None))
                    && yields_on_clone(ps.2, input, Err(None))
                    && yields_on_clone(ps.3, input, Err(None))
                    && yields_on_clone(ps.4, input, Err(None))
                    && yields_on_clone(ps.5, input, Err(None))
                    && yields_on_clone(ps.6, input, Err(None))
                    && yields_on_clone(ps.7, input, res)
                ||| yields_on_clone(ps.0, input, Err(None))
                    && yields_on_clone(ps.1, input, Err(None))
                    && yields_on_clone(ps.2, input, Err(None))
                    && yields_on_clone(ps.3, input, Err(None))
                    && yields_on_clone(ps.4, input, Err(None))
                    && yields_on_clone(ps.5, input, Err(None))
                    && yields_on_clone(ps.6, input, Err(None))
                    && yields_on_clone(ps.7, input, Err(None))
                    && yields_on_clone(ps.8, input, res)
                ||| yields_on_clone(ps.0, input, Err(None))
                    && yields_on_clone(ps.1, input, Err(None))
                    && yields_on_clone(ps.2, input, Err(None))
                    && yields_on_clone(ps.3, input, Err(None))
                    && yields_on_clone(ps.4, input, Err(None))
                    && yields_on_clone(ps.5, input, Err(None))
                    && yields_on_clone(ps.6, input, Err(None))
                    && yields_on_clone(ps.7, input, Err(None))
                    && yields_on_clone(ps.8, input, Err(None))
                    && yields_on_clone(ps.9, input, res)
                ||| yields_on_clone(ps.0, input, Err(None))
                    && yields_on_clone(ps.1, input, Err(None))
                    && yields_on_clone(ps.2, input, Err(None))
                    && yields_on_clone(ps.3, input, Err(None))
                    && yields_on_clone(ps.4, input, Err(None))
                    && yields_on_clone(ps.5, input, Err(None))
                    && yields_on_clone(ps.6, input, Err(None))
                    && yields_on_clone(ps.7, input, Err(None))
                    && yields_on_clone(ps.8, input, Err(None))
                    && yields_on_clone(ps.9, input, Err(None))
                    && yields_on_clone(ps.10, input, res)
                ||| yields_on_clone(ps.0, input, Err(None))
                    && yields_on_clone(ps.1, input, Err(None))
                    && yields_on_clone(ps.2, input, Err(None))
                    && yields_on_clone(ps.3, input, Err(None))
                    && yields_on_clone(ps.4, input, Err(None))
                    && yields_on_clone(ps.5, input, Err(None))
                    && yields_on_clone(ps.6, input, Err(None))
                    && yields_on_clone(ps.7, input, Err(None))
                    && yields_on_clone(ps.8, input, Err(None))
                    && yields_on_clone(ps.9, input, Err(None))
                    && yields_on_clone(ps.10, input, Err(None))
                    && yields_on_clone(ps.11, input, res)
                ||| yields_on_clone(ps.0, input, Err(None))
                    && yields_on_clone(ps.1, input, Err(None))
                    && yields_on_clone(ps.2, input, Err(None))
                    && yields_on_clone(ps.3, input, Err(None))
                    && yields_on_clone(ps.4, input, Err(None))
                    && yields_on_clone(ps.5, input, Err(None))
                    && yields_on_clone(ps.6, input, Err(None))
                    && yields_on_clone(ps.7, input, Err(None))
                    && yields_on_clone(ps.8, input, Err(None))
                    && yields_on_clone(ps.9, input, Err(None))
                    && yields_on_clone(ps.10, input, Err(None))
                    && yields_on_clone(ps.11, input, Err(None))
                    && yields_on_clone(ps.12, input, res)
                ||| yields_on_clone(ps.0, input, Err(None))
                    && yields_on_clone(ps.1, input, Err(None))
                    && yields_on_clone(ps.2, input, Err(None))
                    && yields_on_clone(ps.3, input, Err(None))
                    && yields_on_clone(ps.4, input, Err(None))
                    && yields_on_clone(ps.5, input, Err(None))
                    && yields_on_clone(ps.6, input, Err(None))
                    && yields_on_clone(ps.7, input, Err(None))
                    && yields_on_clone(ps.8, input, Err(None))
                    && yields_on_clone(ps.9, input, Err(None))
                    && yields_on_clone(ps.10, input, Err(None))
                    && yields_on_clone(ps.11, input, Err(None))
                    && yields_on_clone(ps.12, input, Err(None))
                    && yields_on_clone(ps.13, input, res)
                ||| yields_on_clone(ps.0, input, Err(None))
                    && yields_on_clone(ps.1, input, Err(None))
                    && yields_on_clone(ps.2, input, Err(None))
                    && yields_on_clone(ps.3, input, Err(None))
                    && yields_on_clone(ps.4, input, Err(None))
                    && yields_on_clone(ps.5, input, Err(None))
                    && yields_on_clone(ps.6, input, Err(None))
                    && yields_on_clone(ps.7, input, Err(None))
                    && yields_on_clone(ps.8, input, Err(None))
                    && yields_on_clone(ps.9, input, Err(None))
                    && yields_on_clone(ps.10, input, Err(None))
                    && yields_on_clone(ps.11, input, Err(None))
                    && yields_on_clone(ps.12, input, Err(None))
                    && yields_on_clone(ps.13, input, Err(None))
                    && yields_on_clone(ps.14, input, res)
                ||| yields_on_clone(ps.0, input, Err(None))
                    && yields_on_clone(ps.1, input, Err(None))
                    && yields_on_clone(ps.2, input, Err(None))
                    && yields_on_clone(ps.3, input, Err(None))
                    && yields_on_clone(ps.4, input, Err(None))
                    && yields_on_clone(ps.5, input, Err(None))
                    && yields_on_clone(ps.6, input, Err(None))
                    && yields_on_clone(ps.7, input, Err(None))
                    && yields_on_clone(ps.8, input, Err(None))
                    && yields_on_clone(ps.9, input, Err(None))
                    && yields_on_clone(ps.10, input, Err(None))
                    && yields_on_clone(ps.11, input, Err(None))
                    && yields_on_clone(ps.12, input, Err(None))
                    && yields_on_clone(ps.13, input, Err(None))
                    && yields_on_clone(ps.14, input, Err(None))
                    && yields_on_clone(ps.15, input, res)
                ||| yields_on_clone(ps.0, input, Err(None))
                    && yields_on_clone(ps.1, input, Err(None))
                    && yields_on_clone(ps.2, input, Err(None))
                    && yields_on_clone(ps.3, input, Err(None))
                    && yields_on_clone(ps.4, input, Err(None))
                    && yields_on_clone(ps.5, input, Err(None))
                    && yields_on_clone(ps.6, input, Err(None))
                    && yields_on_clone(ps.7, input, Err(None))
                    && yields_on_clone(ps.8, input, Err(None))
                    && yields_on_clone(ps.9, input, Err(None))
                    && yields_on_clone(ps.10, input, Err(None))
                    && yields_on_clone(ps.11, input, Err(None))
                    && yields_on_clone(ps.12, input, Err(None))
                    && yields_on_clone(ps.13, input, Err(None))
                    && yields_on_clone(ps.14, input, Err(None))
                    && yields_on_clone(ps.15, input, Err(None))
                    && yields_on_clone(ps.16, input, res)
                ||| yields_on_clone(ps.0, input, Err(None))
                    && yields_on_clone(ps.1, input, Err(None))
                    && yields_on_clone(ps.2, input, Err(None))
                    && yields_on_clone(ps.3, input, Err(None))
                    && yields_on_clone(ps.4, input, Err(None))
                    && yields_on_clone(ps.5, input, Err(None))
                    && yields_on_clone(ps.6, input, Err(None))
                    && yields_on_clone(ps.7, input, Err(None))
                    && yields_on_clone(ps.8, input, Err(None))
                    && yields_on_clone(ps.9, input, Err(None))
                    && yields_on_clone(ps.10, input, Err(None))
                    && yields_on_clone(ps.11, input, Err(None))
                    && yields_on_clone(ps.12, input, Err(None))
                    && yields_on_clone(ps.13, input, Err(None))
                    && yields_on_clone(ps.14, input, Err(None))
                    && yields_on_clone(ps.15, input, Err(None))
                    && yields_on_clone(ps.16, input, Err(None))
                    && yields_on_clone(ps.17, input, res)
            },
        }
    }

    fn parse(&self, txt: IN) -> (res: Result<(OUT, IN), Option<ER>>) {
        let c0 = txt.clone();
        let r0 = self.ps.0.parse(c0);
        assert(yields_on_clone(self.ps.0, txt, r0));
        match r0 {
            Err(None) => {},
            _ => return r0,
        }
        let c1 = txt.clone();
        let r1 = self.ps.1.parse(c1);
        assert(yields_on_clone(self.ps.1, txt, r1));
        match r1 {
            Err(None) => {},
            _ => return r1,
        }
        let c2 = txt.clone();
        let r2 = self.ps.2.parse(c2);
        assert(yields_on_clone(self.ps.2, txt, r2));
        match r2 {
            Err(None) => {},
            _ => return r2,
        }
        let c3 = txt.clone();
        let r3 = self.ps.3.parse(c3);
        assert(yields_on_clone(self.ps.3, txt, r3));
        match r3 {
            Err(None) => {},
            _ => return r3,
        }
        let c4 = txt.clone();
        let r4 = self.ps.4.parse(c4);
        assert(yields_on_clone(self.ps.4, txt, r4));
        match r4 {
            Err(None) => {},
            _ => return r4,
        }
        let c5 = txt.clone();
        let r5 = self.ps.5.parse(c5);
        assert(yields_on_clone(self.ps.5, txt, r5));
        match r5 {
            Err(None) => {},
            _ => return r5,
        }
        let c6 = txt.clone();
        let r6 = self.ps.6.parse(c6);
        assert(yields_on_clone(self.ps.6, txt, r6));
        match r6 {
            Err(None) => {},
            _ => return r6,
        }
        let c7 = txt.clone();
        let r7 = self.ps.7.parse(c7);
        assert(yields_on_clone(self.ps.7, txt, r7));
        match r7 {
            Err(None) => {},
            _ => return r7,
        }
        let c8 = txt.clone();
        let r8 = self.ps.8.parse(c8);
        assert(yields_on_clone(self.ps.8, txt, r8));
        match r8 {
            Err(None) => {},
            _ => return r8,
        }
        let c9 = txt.clone();
        let r9 = self.ps.9.parse(c9);
        assert(yields_on_clone(self.ps.9, txt, r9));
        match r9 {
            Err(None) => {},
            _ => return r9,
        }
        let c10 = txt.clone();
        let r10 = self.ps.10.parse(c10);
        assert(yields_on_clone(self.ps.10, txt, r10));
        match r10 {
            Err(None) => {},
            _ => return r10,
        }
        let c11 = txt.clone();
        let r11 = self.ps.11.parse(c11);
        assert(yields_on_clone(self.ps.11, txt, r11));
        match r11 {
            Err(None) => {},
            _ => return r11,
        }
        let c12 = txt.clone();
        let r12 = self.ps.12.parse(c12);
        assert(yields_on_clone(self.ps.12, txt, r12));
        match r12 {
            Err(None) => {},
            _ => return r12,
        }
        let c13 = txt.clone();
        let r13 = self.ps.13.parse(c13);
        assert(yields_on_clone(self.ps.13, txt, r13));
        match r13 {
            Err(None) => {},
            _ => return r13,
        }
        let c14 = txt.clone();
        let r14 = self.ps.14.parse(c14);
        assert(yields_on_clone(self.ps.14, txt, r14));
        match r14 {
            Err(None) => {},
            _ => return r14,
        }
        let c15 = txt.clone();
        let r15 = self.ps.15.parse(c15);
        assert(yields_on_clone(self.ps.15, txt, r15));
        match r15 {
            Err(None) => {},
            _ => return r15,
        }
        let c16 = txt.clone();
        let r16 = self.ps.16.parse(c16);
        assert(yields_on_clone(self.ps.16, txt, r16));
        match r16 {
            Err(None) => {},
            _ => return r16,
        }
        let c17 = txt.clone();
        let r17 = self.ps.17.parse(c17);
        assert(yields_on_clone(self.ps.17, txt, r17));
        match r17 {
            Err(None) => {},
            _ => return r17,
        }
        Err(None)
    }
}

/// Over inputs whose clones are equal, a branch of 18 deterministic
/// segments is deterministic.
pub proof fn lemma_branch18_deterministic<IN: Clone, OUT, ER, A, B, C, D, E, F, G, H, I, J, K, L, M, N, O, P, Q, R>(b: Branch<IN, ER, (A, B, C, D, E, F, G, H, I, J, K, L, M, N, O, P, Q, R)>)
    where
        A: Parser<IN, Out = OUT, Error = Option<ER>>,
        B: Parser<IN, Out = OUT, Error = Option<ER>>,
        C: Parser<IN, Out = OUT, Error = Option<ER>>,
        D: Parser<IN, Out = OUT, Error = Option<ER>>,
        E: Parser<IN, Out = OUT, Error = Option<ER>>,
        F: Parser<IN, Out = OUT, Error = Option<ER>>,
        G: Parser<IN, Out = OUT, Error = Option<ER>>,
        H: Parser<IN, Out = OUT, Error = Option<ER>>,
        I: Parser<IN, Out = OUT, Error = Option<ER>>,
        J: Parser<IN, Out = OUT, Error = Option<ER>>,
        K: Parser<IN, Out = OUT, Error = Option<ER>>,
        L: Parser<IN, Out = OUT, Error = Option<ER>>,
        M: Parser<IN, Out = OUT, Error = Option<ER>>,
        N: Parser<IN, Out = OUT, Error = Option<ER>>,
        O: Parser<IN, Out = OUT, Error = Option<ER>>,
        P: Parser<IN, Out = OUT, Error = Option<ER>>,
        Q: Parser<IN, Out = OUT, Error = Option<ER>>,
        R: Parser<IN, Out = OUT, Error = Option<ER>>,
    requires
        clones_are_equal::<IN>(),
        deterministic::<IN, A>(b.segments().0),
        deterministic::<IN, B>(b.segments().1),
        deterministic::<IN, C>(b.segments().2),
        deterministic::<IN, D>(b.segments().3),
        deterministic::<IN, E>(b.segments().4),
        deterministic::<IN, F>(b.segments().5),
        deterministic::<IN, G>(b.segments().6),
        deterministic::<IN, H>(b.segments().7),
        deterministic::<IN, I>(b.segments().8),
        deterministic::<IN, J>(b.segments().9),
        deterministic::<IN, K>(b.segments().10),
        deterministic::<IN, L>(b.segments().11),
        deterministic::<IN, M>(b.segments().12),
        deterministic::<IN, N>(b.segments().13),
        deterministic::<IN, O>(b.segments().14),
        deterministic::<IN, P>(b.segments().15),
        deterministic::<IN, Q>(b.segments().16),
        deterministic::<IN, R>(b.segments().17),
    ensures
        deterministic::<IN, Branch<IN, ER, (A, B, C, D, E, F, G, H, I, J, K, L, M, N, O, P, Q, R)>>(b),
{
    lemma_clones_are_transparent::<IN, A>(b.segments().0);
    lemma_clones_are_transparent::<IN, B>(b.segments().1);
    lemma_clones_are_transparent::<IN, C>(b.segments().2);
    lemma_clones_are_transparent::<IN, D>(b.segments().3);
    lemma_clones_are_transparent::<IN, E>(b.segments().4);
    lemma_clones_are_transparent::<IN, F>(b.segments().5);
    lemma_clones_are_transparent::<IN, G>(b.segments().6);
    lemma_clones_are_transparent::<IN, H>(b.segments().7);
    lemma_clones_are_transparent::<IN, I>(b.segments().8);
    lemma_clones_are_transparent::<IN, J>(b.segments().9);
    lemma_clones_are_transparent::<IN, K>(b.segments().10);
    lemma_clones_are_transparent::<IN, L>(b.segments().11);
    lemma_clones_are_transparent::<IN, M>(b.segments().12);
    lemma_clones_are_transparent::<IN, N>(b.segments().13);
    lemma_clones_are_transparent::<IN, O>(b.segments().14);
    lemma_clones_are_transparent::<IN, P>(b.segments().15);
    lemma_clones_are_transparent::<IN, Q>(b.segments().16);
    lemma_clones_are_transparent::<IN, R>(b.segments().17);
}

impl<IN: Clone, OUT, ER, A, B, C, D, E, F, G, H, I, J, K, L, M, N, O, P, Q, R, S> From<(A, B, C, D, E, F, G, H, I, J, K, L, M, N, O, P, Q, R, S)> for Branch<IN, ER, (A, B, C, D, E, F, G, H, I, J, K, L, M, N, O, P, Q, R, S)> where
    A: Parser<IN, Out = OUT, Error = Option<ER>>,
    B: Parser<IN, Out = OUT, Error = Option<ER>>,
    C: Parser<IN, Out = OUT, Error = Option<ER>>,
    D: Parser<IN, Out = OUT, Error = Option<ER>>,
    E: Parser<IN, Out = OUT, Error = Option<ER>>,
    F: Parser<IN, Out = OUT, Error = Option<ER>>,
    G: Parser<IN, Out = OUT, Error = Option<ER>>,
    H: Parser<IN, Out = OUT, Error = Option<ER>>,
    I: Parser<IN, Out = OUT, Error = Option<ER>>,
    J: Parser<IN, Out = OUT, Error = Option<ER>>,
    K: Parser<IN, Out = OUT, Error = Option<ER>>,
    L: Parser<IN, Out = OUT, Error = Option<ER>>,
    M: Parser<IN, Out = OUT, Error = Option<ER>>,
    N: Parser<IN, Out = OUT, Error = Option<ER>>,
    O: Parser<IN, Out = OUT, Error = Option<ER>>,
    P: Parser<IN, Out = OUT, Error = Option<ER>>,
    Q: Parser<IN, Out = OUT, Error = Option<ER>>,
    R: Parser<IN, Out = OUT, Error = Option<ER>>,
    S: Parser<IN, Out = OUT, Error = Option<ER>>,
 {
    fn from(ps: (A, B, C, D, E, F, G, H, I, J, K, L, M, N, O, P, Q, R, S)) -> (r: Self) {
        let r = Self { ps, _ghost: PhantomData };
        proof {
            lemma_branch_determined_by_segments(r, ps);
        }
        r
    }
}

impl<IN: Clone, OUT, ER, A, B, C, D, E, F, G, H, I, J, K, L, M, N, O, P, Q, R, S> FromSpecImpl<(A, B, C, D, E, F, G, H, I, J, K, L, M, N, O, P, Q, R, S)> for Branch<IN, ER, (A, B, C, D, E, F, G, H, I, J, K, L, M, N, O, P, Q, R, S)> where
    A: Parser<IN, Out = OUT, Error = Option<ER>>,
    B: Parser<IN, Out = OUT, Error = Option<ER>>,
    C: Parser<IN, Out = OUT, Error = Option<ER>>,
    D: Parser<IN, Out = OUT, Error = Option<ER>>,
    E: Parser<IN, Out = OUT, Error = Option<ER>>,
    F: Parser<IN, Out = OUT, Error = Option<ER>>,
    G: Parser<IN, Out = OUT, Error = Option<ER>>,
    H: Parser<IN, Out = OUT, Error = Option<ER>>,
    I: Parser<IN, Out = OUT, Error = Option<ER>>,
    J: Parser<IN, Out = OUT, Error = Option<ER>>,
    K: Parser<IN, Out = OUT, Error = Option<ER>>,
    L: Parser<IN, Out = OUT, Error = Option<ER>>,
    M: Parser<IN, Out = OUT, Error = Option<ER>>,
    N: Parser<IN, Out = OUT, Error = Option<ER>>,
    O: Parser<IN, Out = OUT, Error = Option<ER>>,
    P: Parser<IN, Out = OUT, Error = Option<ER>>,
    Q: Parser<IN, Out = OUT, Error = Option<ER>>,
    R: Parser<IN, Out = OUT, Error = Option<ER>>,
    S: Parser<IN, Out = OUT, Error = Option<ER>>,
 {
    open spec fn obeys_from_spec() -> bool {
        true
    }

    open spec fn from_spec(ps: (A, B, C, D, E, F, G, H, I, J, K, L, M, N, O, P, Q, R, S)) -> Self {
        choose|b: Self| b.segments() == ps
    }
}

/// A branch between 19 segments with one output type.
impl<IN: Clone, OUT, ER, A, B, C, D, E, F, G, H, I, J, K, L, M, N, O, P, Q, R, S> Parser<IN> for Branch<IN, ER, (A, B, C, D, E, F, G, H, I, J, K, L, M, N, O, P, Q, R, S)> where
    A: Parser<IN, Out = OUT, Error = Option<ER>>,
    B: Parser<IN, Out = OUT, Error = Option<ER>>,
    C: Parser<IN, Out = OUT, Error = Option<ER>>,
    D: Parser<IN, Out = OUT, Error = Option<ER>>,
    E: Parser<IN, Out = OUT, Error = Option<ER>>,
    F: Parser<IN, Out = OUT, Error = Option<ER>>,
    G: Parser<IN, Out = OUT, Error = Option<ER>>,
    H: Parser<IN, Out = OUT, Error = Option<ER>>,
    I: Parser<IN, Out = OUT, Error = Option<ER>>,
    J: Parser<IN, Out = OUT, Error = Option<ER>>,
    K: Parser<IN, Out = OUT, Error = Option<ER>>,
    L: Parser<IN, Out = OUT, Error = Option<ER>>,
    M: Parser<IN, Out = OUT, Error = Option<ER>>,
    N: Parser<IN, Out = OUT, Error = Option<ER>>,
    O: Parser<IN, Out = OUT, Error = Option<ER>>,
    P: Parser<IN, Out = OUT, Error = Option<ER>>,
    Q: Parser<IN, Out = OUT, Error = Option<ER>>,
    R: Parser<IN, Out = OUT, Error = Option<ER>>,
    S: Parser<IN, Out = OUT, Error = Option<ER>>,
 {
    type Out = OUT;

    type Error = Option<ER>;

    open spec fn parse_requires(&self, input: IN) -> bool {
        let ps = self.segments();
        &&& accepts_clones(ps.0, input)
        &&& yields_on_clone(ps.0, input, Err(None))
            ==> accepts_clones(ps.1, input)
        &&& yields_on_clone(ps.0, input, Err(None))
            && yields_on_clone(ps.1, input, Err(None))
            ==> accepts_clones(ps.2, input)
        &&& yields_on_clone(ps.0, input, Err(None))
            && yields_on_clone(ps.1, input, Err(None))
            && yields_on_clone(ps.2, input, Err(None))
            ==> accepts_clones(ps.3, input)
        &&& yields_on_clone(ps.0, input, Err(None))
            && yields_on_clone(ps.1, input, Err(None))
            && yields_on_clone(ps.2, input, Err(None))
            && yields_on_clone(ps.3, input, Err(None))
            ==> accepts_clones(ps.4, input)
        &&& yields_on_clone(ps.0, input, Err(None))
            && yields_on_clone(ps.1, input, Err(None))
            && yields_on_clone(ps.2, input, Err(None))
            && yields_on_clone(ps.3, input, Err(None))
            && yields_on_clone(ps.4, input, Err(None))
            ==> accepts_clones(ps.5, input)
        &&& yields_on_clone(ps.0, input, Err(None))
            && yields_on_clone(ps.1, input, Err(None))
            && yields_on_clone(ps.2, input, Err(None))
            && yields_on_clone(ps.3, input, Err(None))
            && yields_on_clone(ps.4, input, Err(None))
            && yields_on_clone(ps.5, input, Err(None))
            ==> accepts_clones(ps.6, input)
        &&& yields_on_clone(ps.0, input, Err(None))
            && yields_on_clone(ps.1, input, Err(None))
            && yields_on_clone(ps.2, input, Err(None))
            && yields_on_clone(ps.3, input, Err(None))
            && yields_on_clone(ps.4, input, Err(None))
            && yields_on_clone(ps.5, input, Err(None))
            && yields_on_clone(ps.6, input, Err(None))
            ==> accepts_clones(ps.7, input)
        &&& yields_on_clone(ps.0, input, Err(None))
            && yields_on_clone(ps.1, input, Err(None))
            && yields_on_clone(ps.2, input, Err(None))
            && yields_on_clone(ps.3, input, Err(None))
            && yields_on_clone(ps.4, input, Err(None))
            && yields_on_clone(ps.5, input, Err(None))
            && yields_on_clone(ps.6, input, Err(None))
            && yields_on_clone(ps.7, input, Err(None))
            ==> accepts_clones(ps.8, input)
        &&& yields_on_clone(ps.0, input, Err(None))
            && yields_on_clone(ps.1, input, Err(None))
            && yields_on_clone(ps.2, input, Err(None))
            && yields_on_clone(ps.3, input, Err(None))
            && yields_on_clone(ps.4, input, Err(None))
            && yields_on_clone(ps.5, input, Err(None))
            && yields_on_clone(ps.6, input, Err(None))
            && yields_on_clone(ps.7, input, Err(None))
            && yields_on_clone(ps.8, input, Err(None))
            ==> accepts_clones(ps.9, input)
        &&& yields_on_clone(ps.0, input, Err(None))
            && yields_on_clone(ps.1, input, Err(None))
            && yields_on_clone(ps.2, input, Err(None))
            && yields_on_clone(ps.3, input, Err(None))
            && yields_on_clone(ps.4, input, Err(None))
            && yields_on_clone(ps.5, input, Err(None))
            && yields_on_clone(ps.6, input, Err(None))
            && yields_on_clone(ps.7, input, Err(None))
            && yields_on_clone(ps.8, input, Err(None))
            && yields_on_clone(ps.9, input, Err(None))
            ==> accepts_clones(ps.10, input)
        &&& yields_on_clone(ps.0, input, Err(None))
            && yields_on_clone(ps.1, input, Err(None))
            && yields_on_clone(ps.2, input, Err(None))
            && yields_on_clone(ps.3, input, Err(None))
            && yields_on_clone(ps.4, input, Err(None))
            && yields_on_clone(ps.5, input, Err(None))
            && yields_on_clone(ps.6, input, Err(None))
            && yields_on_clone(ps.7, input, Err(None))
            && yields_on_clone(ps.8, input, Err(None))
            && yields_on_clone(ps.9, input, Err(None))
            && yields_on_clone(ps.10, input, Err(None))
            ==> accepts_clones(ps.11, input)
        &&& yields_on_clone(ps.0, input, Err(None))
            && yields_on_clone(ps.1, input, Err(None))
            && yields_on_clone(ps.2, input, Err(None))
            && yields_on_clone(ps.3, input, Err(None))
            && yields_on_clone(ps.4, input, Err(None))
            && yields_on_clone(ps.5, input, Err(None))
            && yields_on_clone(ps.6, input, Err(None))
            && yields_on_clone(ps.7, input, Err(None))
            && yields_on_clone(ps.8, input, Err(None))
            && yields_on_clone(ps.9, input, Err(None))
            && yields_on_clone(ps.10, input, Err(None))
            && yields_on_clone(ps.11, input, Err(None))
            ==> accepts_clones(ps.12, input)
        &&& yields_on_clone(ps.0, input, Err(None))
            && yields_on_clone(ps.1, input, Err(None))
            && yields_on_clone(ps.2, input, Err(None))
            && yields_on_clone(ps.3, input, Err(None))
            && yields_on_clone(ps.4, input, Err(None))
            && yields_on_clone(ps.5, input, Err(None))
            && yields_on_clone(ps.6, input, Err(None))
            && yields_on_clone(ps.7, input, Err(None))
            && yields_on_clone(ps.8, input, Err(None))
            && yields_on_clone(ps.9, input, Err(None))
            && yields_on_clone(ps.10, input, Err(None))
            && yields_on_clone(ps.11, input, Err(None))
            && yields_on_clone(ps.12, input, Err(None))
            ==> accepts_clones(ps.13, input)
        &&& yields_on_clone(ps.0, input, Err(None))
            && yields_on_clone(ps.1, input, Err(None))
            && yields_on_clone(ps.2, input, Err(None))
            && yields_on_clone(ps.3, input, Err(None))
            && yields_on_clone(ps.4, input, Err(None))
            && yields_on_clone(ps.5, input, Err(None))
            && yields_on_clone(ps.6, input, Err(None))
            && yields_on_clone(ps.7, input, Err(None))
            && yields_on_clone(ps.8, input, Err(None))
            && yields_on_clone(ps.9, input, Err(None))
            && yields_on_clone(ps.10, input, Err(None))
            && yields_on_clone(ps.11, input, Err(None))
            && yields_on_clone(ps.12, input, Err(None))
            && yields_on_clone(ps.13, input, Err(None))
            ==> accepts_clones(ps.14, input)
        &&& yields_on_clone(ps.0, input, Err(None))
            && yields_on_clone(ps.1, input, Err(None))
            && yields_on_clone(ps.2, input, Err(None))
            && yields_on_clone(ps.3, input, Err(None))
            && yields_on_clone(ps.4, input, Err(None))
            && yields_on_clone(ps.5, input, Err(None))
            && yields_on_clone(ps.6, input, Err(None))
            && yields_on_clone(ps.7, input, Err(None))
            && yields_on_clone(ps.8, input, Err(None))
            && yields_on_clone(ps.9, input, Err(None))
            && yields_on_clone(ps.10, input, Err(None))
            && yields_on_clone(ps.11, input, Err(None))
            && yields_on_clone(ps.12, input, Err(None))
            && yields_on_clone(ps.13, input, Err(None))
            && yields_on_clone(ps.14, input, Err(None))
            ==> accepts_clones(ps.15, input)
        &&& yields_on_clone(ps.0, input, Err(None))
            && yields_on_clone(ps.1, input, Err(None))
            && yields_on_clone(ps.2, input, Err(None))
            && yields_on_clone(ps.3, input, Err(None))
            && yields_on_clone(ps.4, input, Err(None))
            && yields_on_clone(ps.5, input, Err(None))
            && yields_on_clone(ps.6, input, Err(None))
            && yields_on_clone(ps.7, input, Err(None))
            && yields_on_clone(ps.8, input, Err(None))
            && yields_on_clone(ps.9, input, Err(None))
            && yields_on_clone(ps.10, input, Err(None))
            && yields_on_clone(ps.11, input, Err(None))
            && yields_on_clone(ps.12, input, Err(None))
            && yields_on_clone(ps.13, input, Err(None))
            && yields_on_clone(ps.14, input, Err(None))
            && yields_on_clone(ps.15, input, Err(None))
            ==> accepts_clones(ps.16, input)
        &&& yields_on_clone(ps.0, input, Err(None))
            && yields_on_clone(ps.1, input, Err(None))
            && yields_on_clone(ps.2, input, Err(None))
            && yields_on_clone(ps.3, input, Err(None))
            && yields_on_clone(ps.4, input, Err(None))
            && yields_on_clone(ps.5, input, Err(None))
            && yields_on_clone(ps.6, input, Err(None))
            && yields_on_clone(ps.7, input, Err(None))
            && yields_on_clone(ps.8, input, Err(None))
            && yields_on_clone(ps.9, input, Err(None))
            && yields_on_clone(ps.10, input, Err(None))
            && yields_on_clone(ps.11, input, Err(None))
            && yields_on_clone(ps.12, input, Err(None))
            && yields_on_clone(ps.13, input, Err(None))
            && yields_on_clone(ps.14, input, Err(None))
            && yields_on_clone(ps.15, input, Err(None))
            && yields_on_clone(ps.16, input, Err(None))
            ==> accepts_clones(ps.17, input)
        &&& yields_on_clone(ps.0, input, Err(None))
            && yields_on_clone(ps.1, input, Err(None))
            && yields_on_clone(ps.2, input, Err(None))
            && yields_on_clone(ps.3, input, Err(None))
            && yields_on_clone(ps.4, input, Err(None))
            && yields_on_clone(ps.5, input, Err(None))
            && yields_on_clone(ps.6, input, Err(None))
            && yields_on_clone(ps.7, input, Err(None))
            && yields_on_clone(ps.8, input, Err(None))
            && yields_on_clone(ps.9, input, Err(None))
            && yields_on_clone(ps.10, input, Err(None))
            && yields_on_clone(ps.11, input, Err(None))
            && yields_on_clone(ps.12, input, Err(None))
            && yields_on_clone(ps.13, input, Err(None))
            && yields_on_clone(ps.14, input, Err(None))
            && yields_on_clone(ps.15, input, Err(None))
            && yields_on_clone(ps.16, input, Err(None))
            && yields_on_clone(ps.17, input, Err(None))
            ==> accepts_clones(ps.18, input)
    }

    open spec fn parse_ensures(&self, input: IN, res: Result<(OUT, IN), Option<ER>>) -> bool {
        let ps = self.segments();
        match res {
            Err(None) => {
                &&& yields_on_clone(ps.0, input, Err(None))
                &&& yields_on_clone(ps.1, input, Err(None))
                &&& yields_on_clone(ps.2, input, Err(None))
                &&& yields_on_clone(ps.3, input, Err(None))
                &&& yields_on_clone(ps.4, input, Err(None))
                &&& yields_on_clone(ps.5, input, Err(None))
                &&& yields_on_clone(ps.6, input, Err(None))
                &&& yields_on_clone(ps.7, input, Err(None))
                &&& yields_on_clone(ps.8, input, Err(None))
                &&& yields_on_clone(ps.9, input, Err(None))
                &&& yields_on_clone(ps.10, input, Err(None))
                &&& yields_on_clone(ps.11, input, Err(None))
                &&& yields_on_clone(ps.12, input, Err(None))
                &&& yields_on_clone(ps.13, input, Err(None))
                &&& yields_on_clone(ps.14, input, Err(None))
                &&& yields_on_clone(ps.15, input, Err(None))
                &&& yields_on_clone(ps.16, input, Err(None))
                &&& yields_on_clone(ps.17, input, Err(None))
                &&& yields_on_clone(ps.18, input, Err(None))
            },
            _ => {
                ||| yields_on_clone(ps.0, input, res)
                ||| yields_on_clone(ps.0, input, Err(None))
                    && yields_on_clone(ps.1, input, res)
                ||| yields_on_clone(ps.0, input, Err(None))
                    && yields_on_clone(ps.1, input, Err(None))
                    && yields_on_clone(ps.2, input, res)
                ||| yields_on_clone(ps.0, input, Err(None))
                    && yields_on_clone(ps.1, input, Err(None))
                    && yields_on_clone(ps.2, input, Err(None))
                    && yields_on_clone(ps.3, input, res)
                ||| yields_on_clone(ps.0, input, Err(None))
                    && yields_on_clone(ps.1, input, Err(None))
                    && yields_on_clone(ps.2, input, Err(None))
                    && yields_on_clone(ps.3, input, Err(None))
                    && yields_on_clone(ps.4, input, res)
                ||| yields_on_clone(ps.0, input, Err(None))
                    && yields_on_clone(ps.1, input, Err(None))
                    && yields_on_clone(ps.2, input, Err(None))
                    && yields_on_clone(ps.3, input, Err(None))
                    && yields_on_clone(ps.4, input, Err(None))
                    && yields_on_clone(ps.5, input, res)
                ||| yields_on_clone(ps.0, input, Err(None))
                    && yields_on_clone(ps.1, input, Err(None))
                    && yields_on_clone(ps.2, input, Err(None))
                    && yields_on_clone(ps.3, input, Err(None))
                    && yields_on_clone(ps.4, input, Err(None))
                    && yields_on_clone(ps.5, input, Err(None))
                    && yields_on_clone(ps.6, input, res)
                ||| yields_on_clone(ps.0, input, Err(None))
                    && yields_on_clone(ps.1, input, Err(None))
                    && yields_on_clone(ps.2, input, Err(None))
                    && yields_on_clone(ps.3, input, Err(None))
                    && yields_on_clone(ps.4, input, Err(None))
                    && yields_on_clone(ps.5, input, Err(None))
                    && yields_on_clone(ps.6, input, Err(None))
                    && yields_on_clone(ps.7, input, res)
                ||| yields_on_clone(ps.0, input, Err(None))
                    && yields_on_clone(ps.1, input, Err(None))
                    && yields_on_clone(ps.2, input, Err(None))
                    && yields_on_clone(ps.3, input, Err(None))
                    && yields_on_clone(ps.4, input, Err(None))
                    && yields_on_clone(ps.5, input, Err(None))
                    && yields_on_clone(ps.6, input, Err(None))
                    && yields_on_clone(ps.7, input, Err(None))
                    && yields_on_clone(ps.8, input, res)
                ||| yields_on_clone(ps.0, input, Err(None))
                    && yields_on_clone(ps.1, input, Err(None))
                    && yields_on_clone(ps.2, input, Err(None))
                    && yields_on_clone(ps.3, input, Err(None))
                    && yields_on_clone(ps.4, input, Err(None))
                    && yields_on_clone(ps.5, input, Err(None))
                    && yields_on_clone(ps.6, input, Err(None))
                    && yields_on_clone(ps.7, input, Err(None))
                    && yields_on_clone(ps.8, input, Err(None))
                    && yields_on_clone(ps.9, input, res)
                ||| yields_on_clone(ps.0, input, Err(None))
                    && yields_on_clone(ps.1, input, Err(None))
                    && yields_on_clone(ps.2, input, Err(None))
                    && yields_on_clone(ps.3, input, Err(None))
                    && yields_on_clone(ps.4, input, Err(None))
                    && yields_on_clone(ps.5, input, Err(None))
                    && yields_on_clone(ps.6, input, Err(None))
                    && yields_on_clone(ps.7, input, Err(None))
                    && yields_on_clone(ps.8, input, Err(None))
                    && yields_on_clone(ps.9, input, Err(None))
                    && yields_on_clone(ps.10, input, res)
                ||| yields_on_clone(ps.0, input, Err(None))
                    && yields_on_clone(ps.1, input, Err(None))
                    && yields_on_clone(ps.2, input, Err(None))
                    && yields_on_clone(ps.3, input, Err(None))
                    && yields_on_clone(ps.4, input, Err(None))
                    && yields_on_clone(ps.5, input, Err(None))
                    && yields_on_clone(ps.6, input, Err(None))
                    && yields_on_clone(ps.7, input, Err(None))
                    && yields_on_clone(ps.8, input, Err(None))
                    && yields_on_clone(ps.9, input, Err(None))
                    && yields_on_clone(ps.10, input, Err(None))
                    && yields_on_clone(ps.11, input, res)
                ||| yields_on_clone(ps.0, input, Err(None))
                    && yields_on_clone(ps.1, input, Err(None))
                    && yields_on_clone(ps.2, input, Err(None))
                    && yields_on_clone(ps.3, input, Err(None))
                    && yields_on_clone(ps.4, input, Err(None))
                    && yields_on_clone(ps.5, input, Err(None))
                    && yields_on_clone(ps.6, input, Err(None))
                    && yields_on_clone(ps.7, input, Err(None))
                    && yields_on_clone(ps.8, input, Err(None))
                    && yields_on_clone(ps.9, input, Err(None))
                    && yields_on_clone(ps.10, input, Err(None))
                    && yields_on_clone(ps.11, input, Err(None))
                    && yields_on_clone(ps.12, input, res)
                ||| yields_on_clone(ps.0, input, Err(None))
                    && yields_on_clone(ps.1, input, Err(None))
                    && yields_on_clone(ps.2, input, Err(None))
                    && yields_on_clone(ps.3, input, Err(None))
                    && yields_on_clone(ps.4, input, Err(None))
                    && yields_on_clone(ps.5, input, Err(None))
                    && yields_on_clone(ps.6, input, Err(None))
                    && yields_on_clone(ps.7, input, Err(None))
                    && yields_on_clone(ps.8, input, Err(None))
                    && yields_on_clone(ps.9, input, Err(None))
                    && yields_on_clone(ps.10, input, Err(None))
                    && yields_on_clone(ps.11, input, Err(None))
                    && yields_on_clone(ps.12, input, Err(None))
                    && yields_on_clone(ps.13, input, res)
                ||| yields_on_clone(ps.0, input, Err(None))
                    && yields_on_clone(ps.1, input, Err(None))
                    && yields_on_clone(ps.2, input, Err(None))
                    && yields_on_clone(ps.3, input, Err(None))
                    && yields_on_clone(ps.4, input, Err(None))
                    && yields_on_clone(ps.5, input, Err(None))
                    && yields_on_clone(ps.6, input, Err(None))
                    && yields_on_clone(ps.7, input, Err(None))
                    && yields_on_clone(ps.8, input, Err(None))
                    && yields_on_clone(ps.9, input, Err(None))
                    && yields_on_clone(ps.10, input, Err(None))
                    && yields_on_clone(ps.11, input, Err(None))
                    && yields_on_clone(ps.12, input, Err(None))
                    && yields_on_clone(ps.13, input, Err(None))
                    && yields_on_clone(ps.14, input, res)
                ||| yields_on_clone(ps.0, input, Err(None))
                    && yields_on_clone(ps.1, input, Err(None))
                    && yields_on_clone(ps.2, input, Err(None))
                    && yields_on_clone(ps.3, input, Err(None))
                    && yields_on_clone(ps.4, input, Err(None))
                    && yields_on_clone(ps.5, input, Err(None))
                    && yields_on_clone(ps.6, input, Err(None))
                    && yields_on_clone(ps.7, input, Err(None))
                    && yields_on_clone(ps.8, input, Err(None))
                    && yields_on_clone(ps.9, input, Err(None))
                    && yields_on_clone(ps.10, input, Err(None))
                    && yields_on_clone(ps.11, input, Err(None))
                    && yields_on_clone(ps.12, input, Err(None))
                    && yields_on_clone(ps.13, input, Err(None))
                    && yields_on_clone(ps.14, input, Err(None))
                    && yields_on_clone(ps.15, input, res)
                ||| yields_on_clone(ps.0, input, Err(None))
                    && yields_on_clone(ps.1, input, Err(None))
                    && yields_on_clone(ps.2, input, Err(None))
                    && yields_on_clone(ps.3, input, Err(None))
                    && yields_on_clone(ps.4, input, Err(None))
                    && yields_on_clone(ps.5, input, Err(None))
                    && yields_on_clone(ps.6, input, Err(None))
                    && yields_on_clone(ps.7, input, Err(None))
                    && yields_on_clone(ps.8, input, Err(None))
                    && yields_on_clone(ps.9, input, Err(None))
                    && yields_on_clone(ps.10, input, Err(None))
                    && yields_on_clone(ps.11, input, Err(None))
                    && yields_on_clone(ps.12, input, Err(None))
                    && yields_on_clone(ps.13, input, Err(None))
                    && yields_on_clone(ps.14, input, Err(None))
                    && yields_on_clone(ps.15, input, Err(None))
                    && yields_on_clone(ps.16, input, res)
                ||| yields_on_clone(ps.0, input, Err(None))
                    && yields_on_clone(ps.1, input, Err(None))
                    && yields_on_clone(ps.2, input, Err(None))
                    && yields_on_clone(ps.3, input, Err(None))
                    && yields_on_clone(ps.4, input, Err(None))
                    && yields_on_clone(ps.5, input, Err(None))
                    && yields_on_clone(ps.6, input, Err(None))
                    && yields_on_clone(ps.7, input, Err(None))
                    && yields_on_clone(ps.8, input, Err(None))
                    && yields_on_clone(ps.9, input, Err(None))
                    && yields_on_clone(ps.10, input, Err(None))
                    && yields_on_clone(ps.11, input, Err(None))
                    && yields_on_clone(ps.12, input, Err(None))
                    && yields_on_clone(ps.13, input, Err(None))
                    && yields_on_clone(ps.14, input, Err(None))
                    && yields_on_clone(ps.15, input, Err(None))
                    && yields_on_clone(ps.16, input, Err(None))
                    && yields_on_clone(ps.17, input, res)
                ||| yields_on_clone(ps.0, input, Err(None))
                    && yields_on_clone(ps.1, input, Err(None))
                    && yields_on_clone(ps.2, input, Err(None))
                    && yields_on_clone(ps.3, input, Err(None))
                    && yields_on_clone(ps.4, input, Err(None))
                    && yields_on_clone(ps.5, input, Err(None))
                    && yields_on_clone(ps.6, input, Err(None))
                    && yields_on_clone(ps.7, input, Err(None))
                    && yields_on_clone(ps.8, input, Err(None))
                    && yields_on_clone(ps.9, input, Err(None))
                    && yields_on_clone(ps.10, input, Err(None))
                    && yields_on_clone(ps.11, input, Err(None))
                    && yields_on_clone(ps.12, input, Err(None))
                    && yields_on_clone(ps.13, input, Err(None))
                    && yields_on_clone(ps.14, input, Err(None))
                    && yields_on_clone(ps.15, input, Err(None))
                    && yields_on_clone(ps.16, input, Err(None))
                    && yields_on_clone(ps.17, input, Err(None))
                    && yields_on_clone(ps.18, input, res)
            },
        }
    }

    fn parse(&self, txt: IN) -> (res: Result<(OUT, IN), Option<ER>>) {
        let c0 = txt.clone();
        let r0 = self.ps.0.parse(c0);
        assert(yields_on_clone(self.ps.0, txt, r0));
        match r0 {
            Err(None) => {},
            _ => return r0,
        }
        let c1 = txt.clone();
        let r1 = self.ps.1.parse(c1);
        assert(yields_on_clone(self.ps.1, txt, r1));
        match r1 {
            Err(None) => {},
            _ => return r1,
        }
        let c2 = txt.clone();
        let r2 = self.ps.2.parse(c2);
        assert(yields_on_clone(self.ps.2, txt, r2));
        match r2 {
            Err(None) => {},
            _ => return r2,
        }
        let c3 = txt.clone();
        let r3 = self.ps.3.parse(c3);
        assert(yields_on_clone(self.ps.3, txt, r3));
        match r3 {
            Err(None) => {},
            _ => return r3,
        }
        let c4 = txt.clone();
        let r4 = self.ps.4.parse(c4);
        assert(yields_on_clone(self.ps.4, txt, r4));
        match r4 {
            Err(None) => {},
            _ => return r4,
        }
        let c5 = txt.clone();
        let r5 = self.ps.5.parse(c5);
        assert(yields_on_clone(self.ps.5, txt, r5));
        match r5 {
            Err(None) => {},
            _ => return r5,
        }
        let c6 = txt.clone();
        let r6 = self.ps.6.parse(c6);
        assert(yields_on_clone(self.ps.6, txt, r6));
        match r6 {
            Err(None) => {},
            _ => return r6,
        }
        let c7 = txt.clone();
        let r7 = self.ps.7.parse(c7);
        assert(yields_on_clone(self.ps.7, txt, r7));
        match r7 {
            Err(None) => {},
            _ => return r7,
        }
        let c8 = txt.clone();
        let r8 = self.ps.8.parse(c8);
        assert(yields_on_clone(self.ps.8, txt, r8));
        match r8 {
            Err(None) => {},
            _ => return r8,
        }
        let c9 = txt.clone();
        let r9 = self.ps.9.parse(c9);
        assert(yields_on_clone(self.ps.9, txt, r9));
        match r9 {
            Err(None) => {},
            _ => return r9,
        }
        let c10 = txt.clone();
        let r10 = self.ps.10.parse(c10);
        assert(yields_on_clone(self.ps.10, txt, r10));
        match r10 {
            Err(None) => {},
            _ => return r10,
        }
        let c11 = txt.clone();
        let r11 = self.ps.11.parse(c11);
        assert(yields_on_clone(self.ps.11, txt, r11));
        match r11 {
            Err(None) => {},
            _ => return r11,
        }
        let c12 = txt.clone();
        let r12 = self.ps.12.parse(c12);
        assert(yields_on_clone(self.ps.12, txt, r12));
        match r12 {
            Err(None) => {},
            _ => return r12,
        }
        let c13 = txt.clone();
        let r13 = self.ps.13.parse(c13);
        assert(yields_on_clone(self.ps.13, txt, r13));
        match r13 {
            Err(None) => {},
            _ => return r13,
        }
        let c14 = txt.clone();
        let r14 = self.ps.14.parse(c14);
        assert(yields_on_clone(self.ps.14, txt, r14));
        match r14 {
            Err(None) => {},
            _ => return r14,
        }
        let c15 = txt.clone();
        let r15 = self.ps.15.parse(c15);
        assert(yields_on_clone(self.ps.15, txt, r15));
        match r15 {
            Err(None) => {},
            _ => return r15,
        }
        let c16 = txt.clone();
        let r16 = self.ps.16.parse(c16);
        assert(yields_on_clone(self.ps.16, txt, r16));
        match r16 {
            Err(None) => {},
            _ => return r16,
        }
        let c17 = txt.clone();
        let r17 = self.ps.17.parse(c17);
        assert(yields_on_clone(self.ps.17, txt, r17));
        match r17 {
            Err(None) => {},
            _ => return r17,
        }
        let c18 = txt.clone();
        let r18 = self.ps.18.parse(c18);
        assert(yields_on_clone(self.ps.18, txt, r18));
        match r18 {
            Err(None) => {},
            _ => return r18,
        }
        Err(None)
    }
}

/// Over inputs whose clones are equal, a branch of 19 deterministic
/// segments is deterministic.
pub proof fn lemma_branch19_deterministic<IN: Clone, OUT, ER, A, B, C, D, E, F, G, H, I, J, K, L, M, N, O, P, Q, R, S>(b: Branch<IN, ER, (A, B, C, D, E, F, G, H, I, J, K, L, M, N, O, P, Q, R, S)>)
    where
        A: Parser<IN, Out = OUT, Error = Option<ER>>,
        B: Parser<IN, Out = OUT, Error = Option<ER>>,
        C: Parser<IN, Out = OUT, Error = Option<ER>>,
        D: Parser<IN, Out = OUT, Error = Option<ER>>,
        E: Parser<IN, Out = OUT, Error = Option<ER>>,
        F: Parser<IN, Out = OUT, Error = Option<ER>>,
        G: Parser<IN, Out = OUT, Error = Option<ER>>,
        H: Parser<IN, Out = OUT, Error = Option<ER>>,
        I: Parser<IN, Out = OUT, Error = Option<ER>>,
        J: Parser<IN, Out = OUT, Error = Option<ER>>,
        K: Parser<IN, Out = OUT, Error = Option<ER>>,
        L: Parser<IN, Out = OUT, Error = Option<ER>>,
        M: Parser<IN, Out = OUT, Error = Option<ER>>,
        N: Parser<IN, Out = OUT, Error = Option<ER>>,
        O: Parser<IN, Out = OUT, Error = Option<ER>>,
        P: Parser<IN, Out = OUT, Error = Option<ER>>,
        Q: Parser<IN, Out = OUT, Error = Option<ER>>,
        R: Parser<IN, Out = OUT, Error = Option<ER>>,
        S: Parser<IN, Out = OUT, Error = Option<ER>>,
    requires
        clones_are_equal::<IN>(),
        deterministic::<IN, A>(b.segments().0),
        deterministic::<IN, B>(b.segments().1),
        deterministic::<IN, C>(b.segments().2),
        deterministic::<IN, D>(b.segments().3),
        deterministic::<IN, E>(b.segments().4),
        deterministic::<IN, F>(b.segments().5),
        deterministic::<IN, G>(b.segments().6),
        deterministic::<IN, H>(b.segments().7),
        deterministic::<IN, I>(b.segments().8),
        deterministic::<IN, J>(b.segments().9),
        deterministic::<IN, K>(b.segments().10),
        deterministic::<IN, L>(b.segments().11),
        deterministic::<IN, M>(b.segments().12),
        deterministic::<IN, N>(b.segments().13),
        deterministic::<IN, O>(b.segments().14),
        deterministic::<IN, P>(b.segments().15),
        deterministic::<IN, Q>(b.segments().16),
        deterministic::<IN, R>(b.segments().17),
        deterministic::<IN, S>(b.segments().18),
    ensures
        deterministic::<IN, Branch<IN, ER, (A, B, C, D, E, F, G, H, I, J, K, L, M, N, O, P, Q, R, S)>>(b),
{
    lemma_clones_are_transparent::<IN, A>(b.segments().0);
    lemma_clones_are_transparent::<IN, B>(b.segments().1);
    lemma_clones_are_transparent::<IN, C>(b.segments().2);
    lemma_clones_are_transparent::<IN, D>(b.segments().3);
    lemma_clones_are_transparent::<IN, E>(b.segments().4);
    lemma_clones_are_transparent::<IN, F>(b.segments().5);
    lemma_clones_are_transparent::<IN, G>(b.segments().6);
    lemma_clones_are_transparent::<IN, H>(b.segments().7);
    lemma_clones_are_transparent::<IN, I>(b.segments().8);
    lemma_clones_are_transparent::<IN, J>(b.segments().9);
    lemma_clones_are_transparent::<IN, K>(b.segments().10);
    lemma_clones_are_transparent::<IN, L>(b.segments().11);
    lemma_clones_are_transparent::<IN, M>(b.segments().12);
    lemma_clones_are_transparent::<IN, N>(b.segments().13);
    lemma_clones_are_transparent::<IN, O>(b.segments().14);
    lemma_clones_are_transparent::<IN, P>(b.segments().15);
    lemma_clones_are_transparent::<IN, Q>(b.segments().16);
    lemma_clones_are_transparent::<IN, R>(b.segments().17);
    lemma_clones_are_transparent::<IN, S>(b.segments().18);
}

impl<IN: Clone, OUT, ER, A, B, C, D, E, F, G, H, I, J, K, L, M, N, O, P, Q, R, S, T> From<(A, B, C, D, E, F, G, H, I, J, K, L, M, N, O, P, Q, R, S, T)> for Branch<IN, ER, (A, B, C, D, E, F, G, H, I, J, K, L, M, N, O, P, Q, R, S, T)> where
    A: Parser<IN, Out = OUT, Error = Option<ER>>,
    B: Parser<IN, Out = OUT, Error = Option<ER>>,
    C: Parser<IN, Out = OUT, Error = Option<ER>>,
    D: Parser<IN, Out = OUT, Error = Option<ER>>,
    E: Parser<IN, Out = OUT, Error = Option<ER>>,
    F: Parser<IN, Out = OUT, Error = Option<ER>>,
    G: Parser<IN, Out = OUT, Error = Option<ER>>,
    H: Parser<IN, Out = OUT, Error = Option<ER>>,
    I: Parser<IN, Out = OUT, Error = Option<ER>>,
    J: Parser<IN, Out = OUT, Error = Option<ER>>,
    K: Parser<IN, Out = OUT, Error = Option<ER>>,
    L: Parser<IN, Out = OUT, Error = Option<ER>>,
    M: Parser<IN, Out = OUT, Error = Option<ER>>,
    N: Parser<IN, Out = OUT, Error = Option<ER>>,
    O: Parser<IN, Out = OUT, Error = Option<ER>>,
    P: Parser<IN, Out = OUT, Error = Option<ER>>,
    Q: Parser<IN, Out = OUT, Error = Option<ER>>,
    R: Parser<IN, Out = OUT, Error = Option<ER>>,
    S: Parser<IN, Out = OUT, Error = Option<ER>>,
    T: Parser<IN, Out = OUT, Error = Option<ER>>,
 {
    fn from(ps: (A, B, C, D, E, F, G, H, I, J, K, L, M, N, O, P, Q, R, S, T)) -> (r: Self) {
        let r = Self { ps, _ghost: PhantomData };
        proof {
            lemma_branch_determined_by_segments(r, ps);
        }
        r
    }
}

impl<IN: Clone, OUT, ER, A, B, C, D, E, F, G, H, I, J, K, L, M, N, O, P, Q, R, S, T> FromSpecImpl<(A, B, C, D, E, F, G, H, I, J, K, L, M, N, O, P, Q, R, S, T)> for Branch<IN, ER, (A, B, C, D, E, F, G, H, I, J, K, L, M, N, O, P, Q, R, S, T)> where
    A: Parser<IN, Out = OUT, Error = Option<ER>>,
    B: Parser<IN, Out = OUT, Error = Option<ER>>,
    C: Parser<IN, Out = OUT, Error = Option<ER>>,
    D: Parser<IN, Out = OUT, Error = Option<ER>>,
    E: Parser<IN, Out = OUT, Error = Option<ER>>,
    F: Parser<IN, Out = OUT, Error = Option<ER>>,
    G: Parser<IN, Out = OUT, Error = Option<ER>>,
    H: Parser<IN, Out = OUT, Error = Option<ER>>,
    I: Parser<IN, Out = OUT, Error = Option<ER>>,
    J: Parser<IN, Out = OUT, Error = Option<ER>>,
    K: Parser<IN, Out = OUT, Error = Option<ER>>,
    L: Parser<IN, Out = OUT, Error = Option<ER>>,
    M: Parser<IN, Out = OUT, Error = Option<ER>>,
    N: Parser<IN, Out = OUT, Error = Option<ER>>,
    O: Parser<IN, Out = OUT, Error = Option<ER>>,
    P: Parser<IN, Out = OUT, Error = Option<ER>>,
    Q: Parser<IN, Out = OUT, Error = Option<ER>>,
    R: Parser<IN, Out = OUT, Error = Option<ER>>,
    S: Parser<IN, Out = OUT, Error = Option<ER>>,
    T: Parser<IN, Out = OUT, Error = Option<ER>>,
 {
    open spec fn obeys_from_spec() -> bool {
        true
    }

    open spec fn from_spec(ps: (A, B, C, D, E, F, G, H, I, J, K, L, M, N, O, P, Q, R, S, T)) -> Self {
        choose|b: Self| b.segments() == ps
    }
}

/// A branch between 20 segments with one output type.
impl<IN: Clone, OUT, ER, A, B, C, D, E, F, G, H, I, J, K, L, M, N, O, P, Q, R, S, T> Parser<IN> for Branch<IN, ER, (A, B, C, D, E, F, G, H, I, J, K, L, M, N, O, P, Q, R, S, T)> where
    A: Parser<IN, Out = OUT, Error = Option<ER>>,
    B: Parser<IN, Out = OUT, Error = Option<ER>>,
    C: Parser<IN, Out = OUT, Error = Option<ER>>,
    D: Parser<IN, Out = OUT, Error = Option<ER>>,
    E: Parser<IN, Out = OUT, Error = Option<ER>>,
    F: Parser<IN, Out = OUT, Error = Option<ER>>,
    G: Parser<IN, Out = OUT, Error = Option<ER>>,
    H: Parser<IN, Out = OUT, Error = Option<ER>>,
    I: Parser<IN, Out = OUT, Error = Option<ER>>,
    J: Parser<IN, Out = OUT, Error = Option<ER>>,
    K: Parser<IN, Out = OUT, Error = Option<ER>>,
    L: Parser<IN, Out = OUT, Error = Option<ER>>,
    M: Parser<IN, Out = OUT, Error = Option<ER>>,
    N: Parser<IN, Out = OUT, Error = Option<ER>>,
    O: Parser<IN, Out = OUT, Error = Option<ER>>,
    P: Parser<IN, Out = OUT, Error = Option<ER>>,
    Q: Parser<IN, Out = OUT, Error = Option<ER>>,
    R: Parser<IN, Out = OUT, Error = Option<ER>>,
    S: Parser<IN, Out = OUT, Error = Option<ER>>,
    T: Parser<IN, Out = OUT, Error = Option<ER>>,
 {
    type Out = OUT;

    type Error = Option<ER>;

    open spec fn parse_requires(&self, input: IN) -> bool {
        let ps = self.segments();
        &&& accepts_clones(ps.0, input)
        &&& yields_on_clone(ps.0, input, Err(None))
            ==> accepts_clones(ps.1, input)
        &&& yields_on_clone(ps.0, input, Err(None))
            && yields_on_clone(ps.1, input, Err(None))
            ==> accepts_clones(ps.2, input)
        &&& yields_on_clone(ps.0, input, Err(None))
            && yields_on_clone(ps.1, input, Err(None))
            && yields_on_clone(ps.2, input, Err(None))
            ==> accepts_clones(ps.3, input)
        &&& yields_on_clone(ps.0, input, Err(None))
            && yields_on_clone(ps.1, input, Err(None))
            && yields_on_clone(ps.2, input, Err(None))
            && yields_on_clone(ps.3, input, Err(None))
            ==> accepts_clones(ps.4, input)
        &&& yields_on_clone(ps.0, input, Err(None))
            && yields_on_clone(ps.1, input, Err(None))
            && yields_on_clone(ps.2, input, Err(None))
            && yields_on_clone(ps.3, input, Err(None))
            && yields_on_clone(ps.4, input, Err(None))
            ==> accepts_clones(ps.5, input)
        &&& yields_on_clone(ps.0, input, Err(None))
            && yields_on_clone(ps.1, input, Err(None))
            && yields_on_clone(ps.2, input, Err(None))
            && yields_on_clone(ps.3, input, Err(None))
            && yields_on_clone(ps.4, input, Err(None))
            && yields_on_clone(ps.5, input, Err(None))
            ==> accepts_clones(ps.6, input)
        &&& yields_on_clone(ps.0, input, Err(None))
            && yields_on_clone(ps.1, input, Err(None))
            && yields_on_clone(ps.2, input, Err(None))
            && yields_on_clone(ps.3, input, Err(None))
            && yields_on_clone(ps.4, input, Err(None))
            && yields_on_clone(ps.5, input, Err(None))
            && yields_on_clone(ps.6, input, Err(None))
            ==> accepts_clones(ps.7, input)
        &&& yields_on_clone(ps.0, input, Err(None))
            && yields_on_clone(ps.1, input, Err(None))
            && yields_on_clone(ps.2, input, Err(None))
            && yields_on_clone(ps.3, input, Err(None))
            && yields_on_clone(ps.4, input, Err(None))
            && yields_on_clone(ps.5, input, Err(None))
            && yields_on_clone(ps.6, input, Err(None))
            && yields_on_clone(ps.7, input, Err(None))
            ==> accepts_clones(ps.8, input)
        &&& yields_on_clone(ps.0, input, Err(None))
            && yields_on_clone(ps.1, input, Err(None))
            && yields_on_clone(ps.2, input, Err(None))
            && yields_on_clone(ps.3, input, Err(None))
            && yields_on_clone(ps.4, input, Err(None))
            && yields_on_clone(ps.5, input, Err(None))
            && yields_on_clone(ps.6, input, Err(None))
            && yields_on_clone(ps.7, input, Err(None))
            && yields_on_clone(ps.8, input, Err(None))
            ==> accepts_clones(ps.9, input)
        &&& yields_on_clone(ps.0, input, Err(None))
            && yields_on_clone(ps.1, input, Err(None))
            && yields_on_clone(ps.2, input, Err(None))
            && yields_on_clone(ps.3, input, Err(None))
            && yields_on_clone(ps.4, input, Err(None))
            && yields_on_clone(ps.5, input, Err(None))
            && yields_on_clone(ps.6, input, Err(None))
            && yields_on_clone(ps.7, input, Err(None))
            && yields_on_clone(ps.8, input, Err(None))
            && yields_on_clone(ps.9, input, Err(None))
            ==> accepts_clones(ps.10, input)
        &&& yields_on_clone(ps.0, input, Err(None))
            && yields_on_clone(ps.1, input, Err(None))
            && yields_on_clone(ps.2, input, Err(None))
            && yields_on_clone(ps.3, input, Err(None))
            && yields_on_clone(ps.4, input, Err(None))
            && yields_on_clone(ps.5, input, Err(None))
            && yields_on_clone(ps.6, input, Err(None))
            && yields_on_clone(ps.7, input, Err(None))
            && yields_on_clone(ps.8, input, Err(None))
            && yields_on_clone(ps.9, input, Err(None))
            && yields_on_clone(ps.10, input, Err(None))
            ==> accepts_clones(ps.11, input)
        &&& yields_on_clone(ps.0, input, Err(None))
            && yields_on_clone(ps.1, input, Err(None))
            && yields_on_clone(ps.2, input, Err(None))
            && yields_on_clone(ps.3, input, Err(None))
            && yields_on_clone(ps.4, input, Err(None))
            && yields_on_clone(ps.5, input, Err(None))
            && yields_on_clone(ps.6, input, Err(None))
            && yields_on_clone(ps.7, input, Err(None))
            && yields_on_clone(ps.8, input, Err(None))
            && yields_on_clone(ps.9, input, Err(None))
            && yields_on_clone(ps.10, input, Err(None))
            && yields_on_clone(ps.11, input, Err(None))
            ==> accepts_clones(ps.12, input)
        &&& yields_on_clone(ps.0, input, Err(None))
            && yields_on_clone(ps.1, input, Err(None))
            && yields_on_clone(ps.2, input, Err(None))
            && yields_on_clone(ps.3, input, Err(None))
            && yields_on_clone(ps.4, input, Err(None))
            && yields_on_clone(ps.5, input, Err(None))
            && yields_on_clone(ps.6, input, Err(None))
            && yields_on_clone(ps.7, input, Err(None))
            && yields_on_clone(ps.8, input, Err(None))
            && yields_on_clone(ps.9, input, Err(None))
            && yields_on_clone(ps.10, input, Err(None))
            && yields_on_clone(ps.11, input, Err(None))
            && yields_on_clone(ps.12, input, Err(None))
            ==> accepts_clones(ps.13, input)
        &&& yields_on_clone(ps.0, input, Err(None))
            && yields_on_clone(ps.1, input, Err(None))
            && yields_on_clone(ps.2, input, Err(None))
            && yields_on_clone(ps.3, input, Err(None))
            && yields_on_clone(ps.4, input, Err(None))
            && yields_on_clone(ps.5, input, Err(None))
            && yields_on_clone(ps.6, input, Err(None))
            && yields_on_clone(ps.7, input, Err(None))
            && yields_on_clone(ps.8, input, Err(None))
            && yields_on_clone(ps.9, input, Err(None))
            && yields_on_clone(ps.10, input, Err(None))
            && yields_on_clone(ps.11, input, Err(None))
            && yields_on_clone(ps.12, input, Err(None))
            && yields_on_clone(ps.13, input, Err(None))
            ==> accepts_clones(ps.14, input)
        &&& yields_on_clone(ps.0, input, Err(None))
            && yields_on_clone(ps.1, input, Err(None))
            && yields_on_clone(ps.2, input, Err(None))
            && yields_on_clone(ps.3, input, Err(None))
            && yields_on_clone(ps.4, input, Err(None))
            && yields_on_clone(ps.5, input, Err(None))
            && yields_on_clone(ps.6, input, Err(None))
            && yields_on_clone(ps.7, input, Err(None))
            && yields_on_clone(ps.8, input, Err(None))
            && yields_on_clone(ps.9, input, Err(None))
            && yields_on_clone(ps.10, input, Err(None))
            && yields_on_clone(ps.11, input, Err(None))
            && yields_on_clone(ps.12, input, Err(None))
            && yields_on_clone(ps.13, input, Err(None))
            && yields_on_clone(ps.14, input, Err(None))
            ==> accepts_clones(ps.15, input)
        &&& yields_on_clone(ps.0, input, Err(None))
            && yields_on_clone(ps.1, input, Err(None))
            && yields_on_clone(ps.2, input, Err(None))
            && yields_on_clone(ps.3, input, Err(None))
            && yields_on_clone(ps.4, input, Err(None))
            && yields_on_clone(ps.5, input, Err(None))
            && yields_on_clone(ps.6, input, Err(None))
            && yields_on_clone(ps.7, input, Err(None))
            && yields_on_clone(ps.8, input, Err(None))
            && yields_on_clone(ps.9, input, Err(None))
            && yields_on_clone(ps.10, input, Err(None))
            && yields_on_clone(ps.11, input, Err(None))
            && yields_on_clone(ps.12, input, Err(None))
            && yields_on_clone(ps.13, input, Err(None))
            && yields_on_clone(ps.14, input, Err(None))
            && yields_on_clone(ps.15, input, Err(None))
            ==> accepts_clones(ps.16, input)
        &&& yields_on_clone(ps.0, input, Err(None))
            && yields_on_clone(ps.1, input, Err(None))
            && yields_on_clone(ps.2, input, Err(None))
            && yields_on_clone(ps.3, input, Err(None))
            && yields_on_clone(ps.4, input, Err(None))
            && yields_on_clone(ps.5, input, Err(None))
            && yields_on_clone(ps.6, input, Err(None))
            && yields_on_clone(ps.7, input, Err(None))
            && yields_on_clone(ps.8, input, Err(None))
            && yields_on_clone(ps.9, input, Err(None))
            && yields_on_clone(ps.10, input, Err(None))
            && yields_on_clone(ps.11, input, Err(None))
            && yields_on_clone(ps.12, input, Err(None))
            && yields_on_clone(ps.13, input, Err(None))
            && yields_on_clone(ps.14, input, Err(None))
            && yields_on_clone(ps.15, input, Err(None))
            && yields_on_clone(ps.16, input, Err(None))
            ==> accepts_clones(ps.17, input)
        &&& yields_on_clone(ps.0, input, Err(None))
            && yields_on_clone(ps.1, input, Err(None))
            && yields_on_clone(ps.2, input, Err(None))
            && yields_on_clone(ps.3, input, Err(None))
            && yields_on_clone(ps.4, input, Err(None))
            && yields_on_clone(ps.5, input, Err(None))
            && yields_on_clone(ps.6, input, Err(None))
            && yields_on_clone(ps.7, input, Err(None))
            && yields_on_clone(ps.8, input, Err(None))
            && yields_on_clone(ps.9, input, Err(None))
            && yields_on_clone(ps.10, input, Err(None))
            && yields_on_clone(ps.11, input, Err(None))
            && yields_on_clone(ps.12, input, Err(None))
            && yields_on_clone(ps.13, input, Err(None))
            && yields_on_clone(ps.14, input, Err(None))
            && yields_on_clone(ps.15, input, Err(None))
            && yields_on_clone(ps.16, input, Err(None))
            && yields_on_clone(ps.17, input, Err(None))
            ==> accepts_clones(ps.18, input)
        &&& yields_on_clone(ps.0, input, Err(None))
            && yields_on_clone(ps.1, input, Err(None))
            && yields_on_clone(ps.2, input, Err(None))
            && yields_on_clone(ps.3, input, Err(None))
            && yields_on_clone(ps.4, input, Err(None))
            && yields_on_clone(ps.5, input, Err(None))
            && yields_on_clone(ps.6, input, Err(None))
            && yields_on_clone(ps.7, input, Err(None))
            && yields_on_clone(ps.8, input, Err(None))
            && yields_on_clone(ps.9, input, Err(None))
            && yields_on_clone(ps.10, input, Err(None))
            && yields_on_clone(ps.11, input, Err(None))
            && yields_on_clone(ps.12, input, Err(None))
            && yields_on_clone(ps.13, input, Err(None))
            && yields_on_clone(ps.14, input, Err(None))
            && yields_on_clone(ps.15, input, Err(None))
            && yields_on_clone(ps.16, input, Err(None))
            && yields_on_clone(ps.17, input, Err(None))
            && yields_on_clone(ps.18, input, Err(None))
            ==> accepts_clones(ps.19, input)
    }

    open spec fn parse_ensures(&self, input: IN, res: Result<(OUT, IN), Option<ER>>) -> bool {
        let ps = self.segments();
        match res {
            Err(None) => {
                &&& yields_on_clone(ps.0, input, Err(None))
                &&& yields_on_clone(ps.1, input, Err(None))
                &&& yields_on_clone(ps.2, input, Err(None))
                &&& yields_on_clone(ps.3, input, Err(None))
                &&& yields_on_clone(ps.4, input, Err(None))
                &&& yields_on_clone(ps.5, input, Err(None))
                &&& yields_on_clone(ps.6, input, Err(None))
                &&& yields_on_clone(ps.7, input, Err(None))
                &&& yields_on_clone(ps.8, input, Err(None))
                &&& yields_on_clone(ps.9, input, Err(None))
                &&& yields_on_clone(ps.10, input, Err(None))
                &&& yields_on_clone(ps.11, input, Err(None))
                &&& yields_on_clone(ps.12, input, Err(None))
                &&& yields_on_clone(ps.13, input, Err(None))
                &&& yields_on_clone(ps.14, input, Err(None))
                &&& yields_on_clone(ps.15, input, Err(None))
                &&& yields_on_clone(ps.16, input, Err(None))
                &&& yields_on_clone(ps.17, input, Err(None))
                &&& yields_on_clone(ps.18, input, Err(None))
                &&& yields_on_clone(ps.19, input, Err(None))
            },
            _ => {
                ||| yields_on_clone(ps.0, input, res)
                ||| yields_on_clone(ps.0, input, Err(None))
                    && yields_on_clone(ps.1, input, res)
                ||| yields_on_clone(ps.0, input, Err(None))
                    && yields_on_clone(ps.1, input, Err(None))
                    && yields_on_clone(ps.2, input, res)
                ||| yields_on_clone(ps.0, input, Err(None))
                    && yields_on_clone(ps.1, input, Err(None))
                    && yields_on_clone(ps.2, input, Err(None))
                    && yields_on_clone(ps.3, input, res)
                ||| yields_on_clone(ps.0, input, Err(None))
                    && yields_on_clone(ps.1, input, Err(None))
                    && yields_on_clone(ps.2, input, Err(None))
                    && yields_on_clone(ps.3, input, Err(None))
                    && yields_on_clone(ps.4, input, res)
                ||| yields_on_clone(ps.0, input, Err(None))
                    && yields_on_clone(ps.1, input, Err(None))
                    && yields_on_clone(ps.2, input, Err(None))
                    && yields_on_clone(ps.3, input, Err(None))
                    && yields_on_clone(ps.4, input, Err(None))
                    && yields_on_clone(ps.5, input, res)
                ||| yields_on_clone(ps.0, input, Err(None))
                    && yields_on_clone(ps.1, input, Err(None))
                    && yields_on_clone(ps.2, input, Err(None))
                    && yields_on_clone(ps.3, input, Err(None))
                    && yields_on_clone(ps.4, input, Err(None))
                    && yields_on_clone(ps.5, input, Err(None))
                    && yields_on_clone(ps.6, input, res)
                ||| yields_on_clone(ps.0, input, Err(None))
                    && yields_on_clone(ps.1, input, Err(None))
                    && yields_on_clone(ps.2, input, Err(None))
                    && yields_on_clone(ps.3, input, Err(None))
                    && yields_on_clone(ps.4, input, Err(None))
                    && yields_on_clone(ps.5, input, Err(None))
                    && yields_on_clone(ps.6, input, Err(None))
                    && yields_on_clone(ps.7, input, res)
                ||| yields_on_clone(ps.0, input, Err(None))
                    && yields_on_clone(ps.1, input, Err(None))
                    && yields_on_clone(ps.2, input, Err(None))
                    && yields_on_clone(ps.3, input, Err(None))
                    && yields_on_clone(ps.4, input, Err(None))
                    && yields_on_clone(ps.5, input, Err(None))
                    && yields_on_clone(ps.6, input, Err(None))
                    && yields_on_clone(ps.7, input, Err(None))
                    && yields_on_clone(ps.8, input, res)
                ||| yields_on_clone(ps.0, input, Err(None))
                    && yields_on_clone(ps.1, input, Err(None))
                    && yields_on_clone(ps.2, input, Err(None))
                    && yields_on_clone(ps.3, input, Err(None))
                    && yields_on_clone(ps.4, input, Err(None))
                    && yields_on_clone(ps.5, input, Err(None))
                    && yields_on_clone(ps.6, input, Err(None))
                    && yields_on_clone(ps.7, input, Err(None))
                    && yields_on_clone(ps.8, input, Err(None))
                    && yields_on_clone(ps.9, input, res)
                ||| yields_on_clone(ps.0, input, Err(None))
                    && yields_on_clone(ps.1, input, Err(None))
                    && yields_on_clone(ps.2, input, Err(None))
                    && yields_on_clone(ps.3, input, Err(None))
                    && yields_on_clone(ps.4, input, Err(None))
                    && yields_on_clone(ps.5, input, Err(None))
                    && yields_on_clone(ps.6, input, Err(None))
                    && yields_on_clone(ps.7, input, Err(None))
                    && yields_on_clone(ps.8, input, Err(None))
                    && yields_on_clone(ps.9, input, Err(None))
                    && yields_on_clone(ps.10, input, res)
                ||| yields_on_clone(ps.0, input, Err(None))
                    && yields_on_clone(ps.1, input, Err(None))
                    && yields_on_clone(ps.2, input, Err(None))
                    && yields_on_clone(ps.3, input, Err(None))
                    && yields_on_clone(ps.4, input, Err(None))
                    && yields_on_clone(ps.5, input, Err(None))
                    && yields_on_clone(ps.6, input, Err(None))
                    && yields_on_clone(ps.7, input, Err(None))
                    && yields_on_clone(ps.8, input, Err(None))
                    && yields_on_clone(ps.9, input, Err(None))
                    && yields_on_clone(ps.10, input, Err(None))
                    && yields_on_clone(ps.11, input, res)
                ||| yields_on_clone(ps.0, input, Err(None))
                    && yields_on_clone(ps.1, input, Err(None))
                    && yields_on_clone(ps.2, input, Err(None))
                    && yields_on_clone(ps.3, input, Err(None))
                    && yields_on_clone(ps.4, input, Err(None))
                    && yields_on_clone(ps.5, input, Err(None))
                    && yields_on_clone(ps.6, input, Err(None))
                    && yields_on_clone(ps.7, input, Err(None))
                    && yields_on_clone(ps.8, input, Err(None))
                    && yields_on_clone(ps.9, input, Err(None))
                    && yields_on_clone(ps.10, input, Err(None))
                    && yields_on_clone(ps.11, input, Err(None))
                    && yields_on_clone(ps.12, input, res)
                ||| yields_on_clone(ps.0, input, Err(None))
                    && yields_on_clone(ps.1, input, Err(None))
                    && yields_on_clone(ps.2, input, Err(None))
                    && yields_on_clone(ps.3, input, Err(None))
                    && yields_on_clone(ps.4, input, Err(None))
                    && yields_on_clone(ps.5, input, Err(None))
                    && yields_on_clone(ps.6, input, Err(None))
                    && yields_on_clone(ps.7, input, Err(None))
                    && yields_on_clone(ps.8, input, Err(None))
                    && yields_on_clone(ps.9, input, Err(None))
                    && yields_on_clone(ps.10, input, Err(None))
                    && yields_on_clone(ps.11, input, Err(None))
                    && yields_on_clone(ps.12, input, Err(None))
                    && yields_on_clone(ps.13, input, res)
                ||| yields_on_clone(ps.0, input, Err(None))
                    && yields_on_clone(ps.1, input, Err(None))
                    && yields_on_clone(ps.2, input, Err(None))
                    && yields_on_clone(ps.3, input, Err(None))
                    && yields_on_clone(ps.4, input, Err(None))
                    && yields_on_clone(ps.5, input, Err(None))
                    && yields_on_clone(ps.6, input, Err(None))
                    && yields_on_clone(ps.7, input, Err(None))
                    && yields_on_clone(ps.8, input, Err(None))
                    && yields_on_clone(ps.9, input, Err(None))
                    && yields_on_clone(ps.10, input, Err(None))
                    && yields_on_clone(ps.11, input, Err(None))
                    && yields_on_clone(ps.12, input, Err(None))
                    && yields_on_clone(ps.13, input, Err(None))
                    && yields_on_clone(ps.14, input, res)
                ||| yields_on_clone(ps.0, input, Err(None))
                    && yields_on_clone(ps.1, input, Err(None))
                    && yields_on_clone(ps.2, input, Err(None))
                    && yields_on_clone(ps.3, input, Err(None))
                    && yields_on_clone(ps.4, input, Err(None))
                    && yields_on_clone(ps.5, input, Err(None))
                    && yields_on_clone(ps.6, input, Err(None))
                    && yields_on_clone(ps.7, input, Err(None))
                    && yields_on_clone(ps.8, input, Err(None))
                    && yields_on_clone(ps.9, input, Err(None))
                    && yields_on_clone(ps.10, input, Err(None))
                    && yields_on_clone(ps.11, input, Err(None))
                    && yields_on_clone(ps.12, input, Err(None))
                    && yields_on_clone(ps.13, input, Err(None))
                    && yields_on_clone(ps.14, input, Err(None))
                    && yields_on_clone(ps.15, input, res)
                ||| yields_on_clone(ps.0, input, Err(None))
                    && yields_on_clone(ps.1, input, Err(None))
                    && yields_on_clone(ps.2, input, Err(None))
                    && yields_on_clone(ps.3, input, Err(None))
                    && yields_on_clone(ps.4, input, Err(None))
                    && yields_on_clone(ps.5, input, Err(None))
                    && yields_on_clone(ps.6, input, Err(None))
                    && yields_on_clone(ps.7, input, Err(None))
                    && yields_on_clone(ps.8, input, Err(None))
                    && yields_on_clone(ps.9, input, Err(None))
                    && yields_on_clone(ps.10, input, Err(None))
                    && yields_on_clone(ps.11, input, Err(None))
                    && yields_on_clone(ps.12, input, Err(None))
                    && yields_on_clone(ps.13, input, Err(None))
                    && yields_on_clone(ps.14, input, Err(None))
                    && yields_on_clone(ps.15, input, Err(None))
                    && yields_on_clone(ps.16, input, res)
                ||| yields_on_clone(ps.0, input, Err(None))
                    && yields_on_clone(ps.1, input, Err(None))
                    && yields_on_clone(ps.2, input, Err(None))
                    && yields_on_clone(ps.3, input, Err(None))
                    && yields_on_clone(ps.4, input, Err(None))
                    && yields_on_clone(ps.5, input, Err(None))
                    && yields_on_clone(ps.6, input, Err(None))
                    && yields_on_clone(ps.7, input, Err(None))
                    && yields_on_clone(ps.8, input, Err(None))
                    && yields_on_clone(ps.9, input, Err(None))
                    && yields_on_clone(ps.10, input, Err(None))
                    && yields_on_clone(ps.11, input, Err(None))
                    && yields_on_clone(ps.12, input, Err(None))
                    && yields_on_clone(ps.13, input, Err(None))
                    && yields_on_clone(ps.14, input, Err(None))
                    && yields_on_clone(ps.15, input, Err(None))
                    && yields_on_clone(ps.16, input, Err(None))
                    && yields_on_clone(ps.17, input, res)
                ||| yields_on_clone(ps.0, input, Err(None))
                    && yields_on_clone(ps.1, input, Err(None))
                    && yields_on_clone(ps.2, input, Err(None))
                    && yields_on_clone(ps.3, input, Err(None))
                    && yields_on_clone(ps.4, input, Err(None))
                    && yields_on_clone(ps.5, input, Err(None))
                    && yields_on_clone(ps.6, input, Err(None))
                    && yields_on_clone(ps.7, input, Err(None))
                    && yields_on_clone(ps.8, input, Err(None))
                    && yields_on_clone(ps.9, input, Err(None))
                    && yields_on_clone(ps.10, input, Err(None))
                    && yields_on_clone(ps.11, input, Err(None))
                    && yields_on_clone(ps.12, input, Err(None))
                    && yields_on_clone(ps.13, input, Err(None))
                    && yields_on_clone(ps.14, input, Err(None))
                    && yields_on_clone(ps.15, input, Err(None))
                    && yields_on_clone(ps.16, input, Err(None))
                    && yields_on_clone(ps.17, input, Err(None))
                    && yields_on_clone(ps.18, input, res)
                ||| yields_on_clone(ps.0, input, Err(None))
                    && yields_on_clone(ps.1, input, Err(None))
                    && yields_on_clone(ps.2, input, Err(None))
                    && yields_on_clone(ps.3, input, Err(None))
                    && yields_on_clone(ps.4, input, Err(None))
                    && yields_on_clone(ps.5, input, Err(None))
                    && yields_on_clone(ps.6, input, Err(None))
                    && yields_on_clone(ps.7, input, Err(None))
                    && yields_on_clone(ps.8, input, Err(None))
                    && yields_on_clone(ps.9, input, Err(None))
                    && yields_on_clone(ps.10, input, Err(None))
                    && yields_on_clone(ps.11, input, Err(None))
                    && yields_on_clone(ps.12, input, Err(None))
                    && yields_on_clone(ps.13, input, Err(None))
                    && yields_on_clone(ps.14, input, Err(None))
                    && yields_on_clone(ps.15, input, Err(None))
                    && yields_on_clone(ps.16, input, Err(None))
                    && yields_on_clone(ps.17, input, Err(None))
                    && yields_on_clone(ps.18, input, Err(None))
                    && yields_on_clone(ps.19, input, res)
            },
        }
    }

    fn parse(&self, txt: IN) -> (res: Result<(OUT, IN), Option<ER>>) {
        let c0 = txt.clone();
        let r0 = self.ps.0.parse(c0);
        assert(yields_on_clone(self.ps.0, txt, r0));
        match r0 {
            Err(None) => {},
            _ => return r0,
        }
        let c1 = txt.clone();
        let r1 = self.ps.1.parse(c1);
        assert(yields_on_clone(self.ps.1, txt, r1));
        match r1 {
            Err(None) => {},
            _ => return r1,
        }
        let c2 = txt.clone();
        let r2 = self.ps.2.parse(c2);
        assert(yields_on_clone(self.ps.2, txt, r2));
        match r2 {
            Err(None) => {},
            _ => return r2,
        }
        let c3 = txt.clone();
        let r3 = self.ps.3.parse(c3);
        assert(yields_on_clone(self.ps.3, txt, r3));
        match r3 {
            Err(None) => {},
            _ => return r3,
        }
        let c4 = txt.clone();
        let r4 = self.ps.4.parse(c4);
        assert(yields_on_clone(self.ps.4, txt, r4));
        match r4 {
            Err(None) => {},
            _ => return r4,
        }
        let c5 = txt.clone();
        let r5 = self.ps.5.parse(c5);
        assert(yields_on_clone(self.ps.5, txt, r5));
        match r5 {
            Err(None) => {},
            _ => return r5,
        }
        let c6 = txt.clone();
        let r6 = self.ps.6.parse(c6);
        assert(yields_on_clone(self.ps.6, txt, r6));
        match r6 {
            Err(None) => {},
            _ => return r6,
        }
        let c7 = txt.clone();
        let r7 = self.ps.7.parse(c7);
        assert(yields_on_clone(self.ps.7, txt, r7));
        match r7 {
            Err(None) => {},
            _ => return r7,
        }
        let c8 = txt.clone();
        let r8 = self.ps.8.parse(c8);
        assert(yields_on_clone(self.ps.8, txt, r8));
        match r8 {
            Err(None) => {},
            _ => return r8,
        }
        let c9 = txt.clone();
        let r9 = self.ps.9.parse(c9);
        assert(yields_on_clone(self.ps.9, txt, r9));
        match r9 {
            Err(None) => {},
            _ => return r9,
        }
        let c10 = txt.clone();
        let r10 = self.ps.10.parse(c10);
        assert(yields_on_clone(self.ps.10, txt, r10));
        match r10 {
            Err(None) => {},
            _ => return r10,
        }
        let c11 = txt.clone();
        let r11 = self.ps.11.parse(c11);
        assert(yields_on_clone(self.ps.11, txt, r11));
        match r11 {
            Err(None) => {},
            _ => return r11,
        }
        let c12 = txt.clone();
        let r12 = self.ps.12.parse(c12);
        assert(yields_on_clone(self.ps.12, txt, r12));
        match r12 {
            Err(None) => {},
            _ => return r12,
        }
        let c13 = txt.clone();
        let r13 = self.ps.13.parse(c13);
        assert(yields_on_clone(self.ps.13, txt, r13));
        match r13 {
            Err(None) => {},
            _ => return r13,
        }
        let c14 = txt.clone();
        let r14 = self.ps.14.parse(c14);
        assert(yields_on_clone(self.ps.14, txt, r14));
        match r14 {
            Err(None) => {},
            _ => return r14,
        }
        let c15 = txt.clone();
        let r15 = self.ps.15.parse(c15);
        assert(yields_on_clone(self.ps.15, txt, r15));
        match r15 {
            Err(None) => {},
            _ => return r15,
        }
        let c16 = txt.clone();
        let r16 = self.ps.16.parse(c16);
        assert(yields_on_clone(self.ps.16, txt, r16));
        match r16 {
            Err(None) => {},
            _ => return r16,
        }
        let c17 = txt.clone();
        let r17 = self.ps.17.parse(c17);
        assert(yields_on_clone(self.ps.17, txt, r17));
        match r17 {
            Err(None) => {},
            _ => return r17,
        }
        let c18 = txt.clone();
        let r18 = self.ps.18.parse(c18);
        assert(yields_on_clone(self.ps.18, txt, r18));
        match r18 {
            Err(None) => {},
            _ => return r18,
        }
        let c19 = txt.clone();
        let r19 = self.ps.19.parse(c19);
        assert(yields_on_clone(self.ps.19, txt, r19));
        match r19 {
            Err(None) => {},
            _ => return r19,
        }
        Err(None)
    }
}

/// Over inputs whose clones are equal, a branch of 20 deterministic
/// segments is deterministic.
pub proof fn lemma_branch20_deterministic<IN: Clone, OUT, ER, A, B, C, D, E, F, G, H, I, J, K, L, M, N, O, P, Q, R, S, T>(b: Branch<IN, ER, (A, B, C, D, E, F, G, H, I, J, K, L, M, N, O, P, Q, R, S, T)>)
    where
        A: Parser<IN, Out = OUT, Error = Option<ER>>,
        B: Parser<IN, Out = OUT, Error = Option<ER>>,
        C: Parser<IN, Out = OUT, Error = Option<ER>>,
        D: Parser<IN, Out = OUT, Error = Option<ER>>,
        E: Parser<IN, Out = OUT, Error = Option<ER>>,
        F: Parser<IN, Out = OUT, Error = Option<ER>>,
        G: Parser<IN, Out = OUT, Error = Option<ER>>,
        H: Parser<IN, Out = OUT, Error = Option<ER>>,
        I: Parser<IN, Out = OUT, Error = Option<ER>>,
        J: Parser<IN, Out = OUT, Error = Option<ER>>,
        K: Parser<IN, Out = OUT, Error = Option<ER>>,
        L: Parser<IN, Out = OUT, Error = Option<ER>>,
        M: Parser<IN, Out = OUT, Error = Option<ER>>,
        N: Parser<IN, Out = OUT, Error = Option<ER>>,
        O: Parser<IN, Out = OUT, Error = Option<ER>>,
        P: Parser<IN, Out = OUT, Error = Option<ER>>,
        Q: Parser<IN, Out = OUT, Error = Option<ER>>,
        R: Parser<IN, Out = OUT, Error = Option<ER>>,
        S: Parser<IN, Out = OUT, Error = Option<ER>>,
        T: Parser<IN, Out = OUT, Error = Option<ER>>,
    requires
        clones_are_equal::<IN>(),
        deterministic::<IN, A>(b.segments().0),
        deterministic::<IN, B>(b.segments().1),
        deterministic::<IN, C>(b.segments().2),
        deterministic::<IN, D>(b.segments().3),
        deterministic::<IN, E>(b.segments().4),
        deterministic::<IN, F>(b.segments().5),
        deterministic::<IN, G>(b.segments().6),
        deterministic::<IN, H>(b.segments().7),
        deterministic::<IN, I>(b.segments().8),
        deterministic::<IN, J>(b.segments().9),
        deterministic::<IN, K>(b.segments().10),
        deterministic::<IN, L>(b.segments().11),
        deterministic::<IN, M>(b.segments().12),
        deterministic::<IN, N>(b.segments().13),
        deterministic::<IN, O>(b.segments().14),
        deterministic::<IN, P>(b.segments().15),
        deterministic::<IN, Q>(b.segments().16),
        deterministic::<IN, R>(b.segments().17),
        deterministic::<IN, S>(b.segments().18),
        deterministic::<IN, T>(b.segments().19),
    ensures
        deterministic::<IN, Branch<IN, ER, (A, B, C, D, E, F, G, H, I, J, K, L, M, N, O, P, Q, R, S, T)>>(b),
{
    lemma_clones_are_transparent::<IN, A>(b.segments().0);
    lemma_clones_are_transparent::<IN, B>(b.segments().1);
    lemma_clones_are_transparent::<IN, C>(b.segments().2);
    lemma_clones_are_transparent::<IN, D>(b.segments().3);
    lemma_clones_are_transparent::<IN, E>(b.segments().4);
    lemma_clones_are_transparent::<IN, F>(b.segments().5);
    lemma_clones_are_transparent::<IN, G>(b.segments().6);
    lemma_clones_are_transparent::<IN, H>(b.segments().7);
    lemma_clones_are_transparent::<IN, I>(b.segments().8);
    lemma_clones_are_transparent::<IN, J>(b.segments().9);
    lemma_clones_are_transparent::<IN, K>(b.segments().10);
    lemma_clones_are_transparent::<IN, L>(b.segments().11);
    lemma_clones_are_transparent::<IN, M>(b.segments().12);
    lemma_clones_are_transparent::<IN, N>(b.segments().13);
    lemma_clones_are_transparent::<IN, O>(b.segments().14);
    lemma_clones_are_transparent::<IN, P>(b.segments().15);
    lemma_clones_are_transparent::<IN, Q>(b.segments().16);
    lemma_clones_are_transparent::<IN, R>(b.segments().17);
    lemma_clones_are_transparent::<IN, S>(b.segments().18);
    lemma_clones_are_transparent::<IN, T>(b.segments().19);
}

impl<IN: Clone, OUT, ER, A, B, C, D, E, F, G, H, I, J, K, L, M, N, O, P, Q, R, S, T, U> From<(A, B, C, D, E, F, G, H, I, J, K, L, M, N, O, P, Q, R, S, T, U)> for Branch<IN, ER, (A, B, C, D, E, F, G, H, I, J, K, L, M, N, O, P, Q, R, S, T, U)> where
    A: Parser<IN, Out = OUT, Error = Option<ER>>,
    B: Parser<IN, Out = OUT, Error = Option<ER>>,
    C: Parser<IN, Out = OUT, Error = Option<ER>>,
    D: Parser<IN, Out = OUT, Error = Option<ER>>,
    E: Parser<IN, Out = OUT, Error = Option<ER>>,
    F: Parser<IN, Out = OUT, Error = Option<ER>>,
    G: Parser<IN, Out = OUT, Error = Option<ER>>,
    H: Parser<IN, Out = OUT, Error = Option<ER>>,
    I: Parser<IN, Out = OUT, Error = Option<ER>>,
    J: Parser<IN, Out = OUT, Error = Option<ER>>,
    K: Parser<IN, Out = OUT, Error = Option<ER>>,
    L: Parser<IN, Out = OUT, Error = Option<ER>>,
    M: Parser<IN, Out = OUT, Error = Option<ER>>,
    N: Parser<IN, Out = OUT, Error = Option<ER>>,
    O: Parser<IN, Out = OUT, Error = Option<ER>>,
    P: Parser<IN, Out = OUT, Error = Option<ER>>,
    Q: Parser<IN, Out = OUT, Error = Option<ER>>,
    R: Parser<IN, Out = OUT, Error = Option<ER>>,
    S: Parser<IN, Out = OUT, Error = Option<ER>>,
    T: Parser<IN, Out = OUT, Error = Option<ER>>,
    U: Parser<IN, Out = OUT, Error = Option<ER>>,
 {
    fn from(ps: (A, B, C, D, E, F, G, H, I, J, K, L, M, N, O, P, Q, R, S, T, U)) -> (r: Self) {
        let r = Self { ps, _ghost: PhantomData };
        proof {
            lemma_branch_determined_by_segments(r, ps);
        }
        r
    }
}

impl<IN: Clone, OUT, ER, A, B, C, D, E, F, G, H, I, J, K, L, M, N, O, P, Q, R, S, T, U> FromSpecImpl<(A, B, C, D, E, F, G, H, I, J, K, L, M, N, O, P, Q, R, S, T, U)> for Branch<IN, ER, (A, B, C, D, E, F, G, H, I, J, K, L, M, N, O, P, Q, R, S, T, U)> where
    A: Parser<IN, Out = OUT, Error = Option<ER>>,
    B: Parser<IN, Out = OUT, Error = Option<ER>>,
    C: Parser<IN, Out = OUT, Error = Option<ER>>,
    D: Parser<IN, Out = OUT, Error = Option<ER>>,
    E: Parser<IN, Out = OUT, Error = Option<ER>>,
    F: Parser<IN, Out = OUT, Error = Option<ER>>,
    G: Parser<IN, Out = OUT, Error = Option<ER>>,
    H: Parser<IN, Out = OUT, Error = Option<ER>>,
    I: Parser<IN, Out = OUT, Error = Option<ER>>,
    J: Parser<IN, Out = OUT, Error = Option<ER>>,
    K: Parser<IN, Out = OUT, Error = Option<ER>>,
    L: Parser<IN, Out = OUT, Error = Option<ER>>,
    M: Parser<IN, Out = OUT, Error = Option<ER>>,
    N: Parser<IN, Out = OUT, Error = Option<ER>>,
    O: Parser<IN, Out = OUT, Error = Option<ER>>,
    P: Parser<IN, Out = OUT, Error = Option<ER>>,
    Q: Parser<IN, Out = OUT, Error = Option<ER>>,
    R: Parser<IN, Out = OUT, Error = Option<ER>>,
    S: Parser<IN, Out = OUT, Error = Option<ER>>,
    T: Parser<IN, Out = OUT, Error = Option<ER>>,
    U: Parser<IN, Out = OUT, Error = Option<ER>>,
 {
    open spec fn obeys_from_spec() -> bool {
        true
    }

    open spec fn from_spec(ps: (A, B, C, D, E, F, G, H, I, J, K, L, M, N, O, P, Q, R, S, T, U)) -> Self {
        choose|b: Self| b.segments() == ps
    }
}

/// A branch between 21 segments with one output type.
impl<IN: Clone, OUT, ER, A, B, C, D, E, F, G, H, I, J, K, L, M, N, O, P, Q, R, S, T, U> Parser<IN> for Branch<IN, ER, (A, B, C, D, E, F, G, H, I, J, K, L, M, N, O, P, Q, R, S, T, U)> where
    A: Parser<IN, Out = OUT, Error = Option<ER>>,
    B: Parser<IN, Out = OUT, Error = Option<ER>>,
    C: Parser<IN, Out = OUT, Error = Option<ER>>,
    D: Parser<IN, Out = OUT, Error = Option<ER>>,
    E: Parser<IN, Out = OUT, Error = Option<ER>>,
    F: Parser<IN, Out = OUT, Error = Option<ER>>,
    G: Parser<IN, Out = OUT, Error = Option<ER>>,
    H: Parser<IN, Out = OUT, Error = Option<ER>>,
    I: Parser<IN, Out = OUT, Error = Option<ER>>,
    J: Parser<IN, Out = OUT, Error = Option<ER>>,
    K: Parser<IN, Out = OUT, Error = Option<ER>>,
    L: Parser<IN, Out = OUT, Error = Option<ER>>,
    M: Parser<IN, Out = OUT, Error = Option<ER>>,
    N: Parser<IN, Out = OUT, Error = Option<ER>>,
    O: Parser<IN, Out = OUT, Error = Option<ER>>,
    P: Parser<IN, Out = OUT, Error = Option<ER>>,
    Q: Parser<IN, Out = OUT, Error = Option<ER>>,
    R: Parser<IN, Out = OUT, Error = Option<ER>>,
    S: Parser<IN, Out = OUT, Error = Option<ER>>,
    T: Parser<IN, Out = OUT, Error = Option<ER>>,
    U: Parser<IN, Out = OUT, Error = Option<ER>>,
 {
    type Out = OUT;

    type Error = Option<ER>;

    open spec fn parse_requires(&self, input: IN) -> bool {
        let ps = self.segments();
        &&& accepts_clones(ps.0, input)
        &&& yields_on_clone(ps.0, input, Err(None))
            ==> accepts_clones(ps.1, input)
        &&& yields_on_clone(ps.0, input, Err(None))
            && yields_on_clone(ps.1, input, Err(None))
            ==> accepts_clones(ps.2, input)
        &&& yields_on_clone(ps.0, input, Err(None))
            && yields_on_clone(ps.1, input, Err(None))
            && yields_on_clone(ps.2, input, Err(None))
            ==> accepts_clones(ps.3, input)
        &&& yields_on_clone(ps.0, input, Err(None))
            && yields_on_clone(ps.1, input, Err(None))
            && yields_on_clone(ps.2, input, Err(None))
            && yields_on_clone(ps.3, input, Err(None))
            ==> accepts_clones(ps.4, input)
        &&& yields_on_clone(ps.0, input, Err(None))
            && yields_on_clone(ps.1, input, Err(None))
            && yields_on_clone(ps.2, input, Err(None))
            && yields_on_clone(ps.3, input, Err(None))
            && yields_on_clone(ps.4, input, Err(None))
            ==> accepts_clones(ps.5, input)
        &&& yields_on_clone(ps.0, input, Err(None))
            && yields_on_clone(ps.1, input, Err(None))
            && yields_on_clone(ps.2, input, Err(None))
            && yields_on_clone(ps.3, input, Err(None))
            && yields_on_clone(ps.4, input, Err(None))
            && yields_on_clone(ps.5, input, Err(None))
            ==> accepts_clones(ps.6, input)
        &&& yields_on_clone(ps.0, input, Err(None))
            && yields_on_clone(ps.1, input, Err(None))
            && yields_on_clone(ps.2, input, Err(None))
            && yields_on_clone(ps.3, input, Err(None))
            && yields_on_clone(ps.4, input, Err(None))
            && yields_on_clone(ps.5, input, Err(None))
            && yields_on_clone(ps.6, input, Err(None))
            ==> accepts_clones(ps.7, input)
        &&& yields_on_clone(ps.0, input, Err(None))
            && yields_on_clone(ps.1, input, Err(None))
            && yields_on_clone(ps.2, input, Err(None))
            && yields_on_clone(ps.3, input, Err(None))
            && yields_on_clone(ps.4, input, Err(None))
            && yields_on_clone(ps.5, input, Err(None))
            && yields_on_clone(ps.6, input, Err(None))
            && yields_on_clone(ps.7, input, Err(None))
            ==> accepts_clones(ps.8, input)
        &&& yields_on_clone(ps.0, input, Err(None))
            && yields_on_clone(ps.1, input, Err(None))
            && yields_on_clone(ps.2, input, Err(None))
            && yields_on_clone(ps.3, input, Err(None))
            && yields_on_clone(ps.4, input, Err(None))
            && yields_on_clone(ps.5, input, Err(None))
            && yields_on_clone(ps.6, input, Err(None))
            && yields_on_clone(ps.7, input, Err(None))
            && yields_on_clone(ps.8, input, Err(None))
            ==> accepts_clones(ps.9, input)
        &&& yields_on_clone(ps.0, input, Err(None))
            && yields_on_clone(ps.1, input, Err(None))
            && yields_on_clone(ps.2, input, Err(None))
            && yields_on_clone(ps.3, input, Err(None))
            && yields_on_clone(ps.4, input, Err(None))
            && yields_on_clone(ps.5, input, Err(None))
            && yields_on_clone(ps.6, input, Err(None))
            && yields_on_clone(ps.7, input, Err(None))
            && yields_on_clone(ps.8, input, Err(None))
            && yields_on_clone(ps.9, input, Err(None))
            ==> accepts_clones(ps.10, input)
        &&& yields_on_clone(ps.0, input, Err(None))
            && yields_on_clone(ps.1, input, Err(None))
            && yields_on_clone(ps.2, input, Err(None))
            && yields_on_clone(ps.3, input, Err(None))
            && yields_on_clone(ps.4, input, Err(None))
            && yields_on_clone(ps.5, input, Err(None))
            && yields_on_clone(ps.6, input, Err(None))
            && yields_on_clone(ps.7, input, Err(None))
            && yields_on_clone(ps.8, input, Err(None))
            && yields_on_clone(ps.9, input, Err(None))
            && yields_on_clone(ps.10, input, Err(None))
            ==> accepts_clones(ps.11, input)
        &&& yields_on_clone(ps.0, input, Err(None))
            && yields_on_clone(ps.1, input, Err(None))
            && yields_on_clone(ps.2, input, Err(None))
            && yields_on_clone(ps.3, input, Err(None))
            && yields_on_clone(ps.4, input, Err(None))
            && yields_on_clone(ps.5, input, Err(None))
            && yields_on_clone(ps.6, input, Err(None))
            && yields_on_clone(ps.7, input, Err(None))
            && yields_on_clone(ps.8, input, Err(None))
            && yields_on_clone(ps.9, input, Err(None))
            && yields_on_clone(ps.10, input, Err(None))
            && yields_on_clone(ps.11, input, Err(None))
            ==> accepts_clones(ps.12, input)
        &&& yields_on_clone(ps.0, input, Err(None))
            && yields_on_clone(ps.1, input, Err(None))
            && yields_on_clone(ps.2, input, Err(None))
            && yields_on_clone(ps.3, input, Err(None))
            && yields_on_clone(ps.4, input, Err(None))
            && yields_on_clone(ps.5, input, Err(None))
            && yields_on_clone(ps.6, input, Err(None))
            && yields_on_clone(ps.7, input, Err(None))
            && yields_on_clone(ps.8, input, Err(None))
            && yields_on_clone(ps.9, input, Err(None))
            && yields_on_clone(ps.10, input, Err(None))
            && yields_on_clone(ps.11, input, Err(None))
            && yields_on_clone(ps.12, input, Err(None))
            ==> accepts_clones(ps.13, input)
        &&& yields_on_clone(ps.0, input, Err(None))
            && yields_on_clone(ps.1, input, Err(None))
            && yields_on_clone(ps.2, input, Err(None))
            && yields_on_clone(ps.3, input, Err(None))
            && yields_on_clone(ps.4, input, Err(None))
            && yields_on_clone(ps.5, input, Err(None))
            && yields_on_clone(ps.6, input, Err(None))
            && yields_on_clone(ps.7, input, Err(None))
            && yields_on_clone(ps.8, input, Err(None))
            && yields_on_clone(ps.9, input, Err(None))
            && yields_on_clone(ps.10, input, Err(None))
            && yields_on_clone(ps.11, input, Err(None))
            && yields_on_clone(ps.12, input, Err(None))
            && yields_on_clone(ps.13, input, Err(None))
            ==> accepts_clones(ps.14, input)
        &&& yields_on_clone(ps.0, input, Err(None))
            && yields_on_clone(ps.1, input, Err(None))
            && yields_on_clone(ps.2, input, Err(None))
            && yields_on_clone(ps.3, input, Err(None))
            && yields_on_clone(ps.4, input, Err(None))
            && yields_on_clone(ps.5, input, Err(None))
            && yields_on_clone(ps.6, input, Err(None))
            && yields_on_clone(ps.7, input, Err(None))
            && yields_on_clone(ps.8, input, Err(None))
            && yields_on_clone(ps.9, input, Err(None))
            && yields_on_clone(ps.10, input, Err(None))
            && yields_on_clone(ps.11, input, Err(None))
            && yields_on_clone(ps.12, input, Err(None))
            && yields_on_clone(ps.13, input, Err(None))
            && yields_on_clone(ps.14, input, Err(None))
            ==> accepts_clones(ps.15, input)
        &&& yields_on_clone(ps.0, input, Err(None))
            && yields_on_clone(ps.1, input, Err(None))
            && yields_on_clone(ps.2, input, Err(None))
            && yields_on_clone(ps.3, input, Err(None))
            && yields_on_clone(ps.4, input, Err(None))
            && yields_on_clone(ps.5, input, Err(None))
            && yields_on_clone(ps.6, input, Err(None))
            && yields_on_clone(ps.7, input, Err(None))
            && yields_on_clone(ps.8, input, Err(None))
            && yields_on_clone(ps.9, input, Err(None))
            && yields_on_clone(ps.10, input, Err(None))
            && yields_on_clone(ps.11, input, Err(None))
            && yields_on_clone(ps.12, input, Err(None))
            && yields_on_clone(ps.13, input, Err(None))
            && yields_on_clone(ps.14, input, Err(None))
            && yields_on_clone(ps.15, input, Err(None))
            ==> accepts_clones(ps.16, input)
        &&& yields_on_clone(ps.0, input, Err(None))
            && yields_on_clone(ps.1, input, Err(None))
            && yields_on_clone(ps.2, input, Err(None))
            && yields_on_clone(ps.3, input, Err(None))
            && yields_on_clone(ps.4, input, Err(None))
            && yields_on_clone(ps.5, input, Err(None))
            && yields_on_clone(ps.6, input, Err(None))
            && yields_on_clone(ps.7, input, Err(None))
            && yields_on_clone(ps.8, input, Err(None))
            && yields_on_clone(ps.9, input, Err(None))
            && yields_on_clone(ps.10, input, Err(None))
            && yields_on_clone(ps.11, input, Err(None))
            && yields_on_clone(ps.12, input, Err(None))
            && yields_on_clone(ps.13, input, Err(None))
            && yields_on_clone(ps.14, input, Err(None))
            && yields_on_clone(ps.15, input, Err(None))
            && yields_on_clone(ps.16, input, Err(None))
            ==> accepts_clones(ps.17, input)
        &&& yields_on_clone(ps.0, input, Err(None))
            && yields_on_clone(ps.1, input, Err(None))
            && yields_on_clone(ps.2, input, Err(None))
            && yields_on_clone(ps.3, input, Err(None))
            && yields_on_clone(ps.4, input, Err(None))
            && yields_on_clone(ps.5, input, Err(None))
            && yields_on_clone(ps.6, input, Err(None))
            && yields_on_clone(ps.7, input, Err(None))
            && yields_on_clone(ps.8, input, Err(None))
            && yields_on_clone(ps.9, input, Err(None))
            && yields_on_clone(ps.10, input, Err(None))
            && yields_on_clone(ps.11, input, Err(None))
            && yields_on_clone(ps.12, input, Err(None))
            && yields_on_clone(ps.13, input, Err(None))
            && yields_on_clone(ps.14, input, Err(None))
            && yields_on_clone(ps.15, input, Err(None))
            && yields_on_clone(ps.16, input, Err(None))
            && yields_on_clone(ps.17, input, Err(None))
            ==> accepts_clones(ps.18, input)
        &&& yields_on_clone(ps.0, input, Err(None))
            && yields_on_clone(ps.1, input, Err(None))
            && yields_on_clone(ps.2, input, Err(None))
            && yields_on_clone(ps.3, input, Err(None))
            && yields_on_clone(ps.4, input, Err(None))
            && yields_on_clone(ps.5, input, Err(None))
            && yields_on_clone(ps.6, input, Err(None))
            && yields_on_clone(ps.7, input, Err(None))
            && yields_on_clone(ps.8, input, Err(None))
            && yields_on_clone(ps.9, input, Err(None))
            && yields_on_clone(ps.10, input, Err(None))
            && yields_on_clone(ps.11, input, Err(None))
            && yields_on_clone(ps.12, input, Err(None))
            && yields_on_clone(ps.13, input, Err(None))
            && yields_on_clone(ps.14, input, Err(None))
            && yields_on_clone(ps.15, input, Err(None))
            && yields_on_clone(ps.16, input, Err(None))
            && yields_on_clone(ps.17, input, Err(None))
            && yields_on_clone(ps.18, input, Err(None))
            ==> accepts_clones(ps.19, input)
        &&& yields_on_clone(ps.0, input, Err(None))
            && yields_on_clone(ps.1, input, Err(None))
            && yields_on_clone(ps.2, input, Err(None))
            && yields_on_clone(ps.3, input, Err(None))
            && yields_on_clone(ps.4, input, Err(None))
            && yields_on_clone(ps.5, input, Err(None))
            && yields_on_clone(ps.6, input, Err(None))
            && yields_on_clone(ps.7, input, Err(None))
            && yields_on_clone(ps.8, input, Err(None))
            && yields_on_clone(ps.9, input, Err(None))
            && yields_on_clone(ps.10, input, Err(None))
            && yields_on_clone(ps.11, input, Err(None))
            && yields_on_clone(ps.12, input, Err(None))
            && yields_on_clone(ps.13, input, Err(None))
            && yields_on_clone(ps.14, input, Err(None))
            && yields_on_clone(ps.15, input, Err(None))
            && yields_on_clone(ps.16, input, Err(None))
            && yields_on_clone(ps.17, input, Err(None))
            && yields_on_clone(ps.18, input, Err(None))
            && yields_on_clone(ps.19, input, Err(None))
            ==> accepts_clones(ps.20, input)
    }

    open spec fn parse_ensures(&self, input: IN, res: Result<(OUT, IN), Option<ER>>) -> bool {
        let ps = self.segments();
        match res {
            Err(None) => {
                &&& yields_on_clone(ps.0, input, Err(None))
                &&& yields_on_clone(ps.1, input, Err(None))
                &&& yields_on_clone(ps.2, input, Err(None))
                &&& yields_on_clone(ps.3, input, Err(None))
                &&& yields_on_clone(ps.4, input, Err(None))
                &&& yields_on_clone(ps.5, input, Err(None))
                &&& yields_on_clone(ps.6, input, Err(None))
                &&& yields_on_clone(ps.7, input, Err(None))
                &&& yields_on_clone(ps.8, input, Err(None))
                &&& yields_on_clone(ps.9, input, Err(None))
                &&& yields_on_clone(ps.10, input, Err(None))
                &&& yields_on_clone(ps.11, input, Err(None))
                &&& yields_on_clone(ps.12, input, Err(None))
                &&& yields_on_clone(ps.13, input, Err(None))
                &&& yields_on_clone(ps.14, input, Err(None))
                &&& yields_on_clone(ps.15, input, Err(None))
                &&& yields_on_clone(ps.16, input, Err(None))
                &&& yields_on_clone(ps.17, input, Err(None))
                &&& yields_on_clone(ps.18, input, Err(None))
                &&& yields_on_clone(ps.19, input, Err(None))
                &&& yields_on_clone(ps.20, input, Err(None))
            },
            _ => {
                ||| yields_on_clone(ps.0, input, res)
                ||| yields_on_clone(ps.0, input, Err(None))
                    && yields_on_clone(ps.1, input, res)
                ||| yields_on_clone(ps.0, input, Err(None))
                    && yields_on_clone(ps.1, input, Err(None))
                    && yields_on_clone(ps.2, input, res)
                ||| yields_on_clone(ps.0, input, Err(None))
                    && yields_on_clone(ps.1, input, Err(None))
                    && yields_on_clone(ps.2, input, Err(None))
                    && yields_on_clone(ps.3, input, res)
                ||| yields_on_clone(ps.0, input, Err(None))
                    && yields_on_clone(ps.1, input, Err(None))
                    && yields_on_clone(ps.2, input, Err(None))
                    && yields_on_clone(ps.3, input, Err(None))
                    && yields_on_clone(ps.4, input, res)
                ||| yields_on_clone(ps.0, input, Err(None))
                    && yields_on_clone(ps.1, input, Err(None))
                    && yields_on_clone(ps.2, input, Err(None))
                    && yields_on_clone(ps.3, input, Err(None))
                    && yields_on_clone(ps.4, input, Err(None))
                    && yields_on_clone(ps.5, input, res)
                ||| yields_on_clone(ps.0, input, Err(None))
                    && yields_on_clone(ps.1, input, Err(None))
                    && yields_on_clone(ps.2, input, Err(None))
                    && yields_on_clone(ps.3, input, Err(None))
                    && yields_on_clone(ps.4, input, Err(None))
                    && yields_on_clone(ps.5, input, Err(None))
                    && yields_on_clone(ps.6, input, res)
                ||| yields_on_clone(ps.0, input, Err(None))
                    && yields_on_clone(ps.1, input, Err(None))
                    && yields_on_clone(ps.2, input, Err(None))
                    && yields_on_clone(ps.3, input, Err(None))
                    && yields_on_clone(ps.4, input, Err(None))
                    && yields_on_clone(ps.5, input, Err(None))
                    && yields_on_clone(ps.6, input, Err(None))
                    && yields_on_clone(ps.7, input, res)
                ||| yields_on_clone(ps.0, input, Err(None))
                    && yields_on_clone(ps.1, input, Err(None))
                    && yields_on_clone(ps.2, input, Err(None))
                    && yields_on_clone(ps.3, input, Err(None))
                    && yields_on_clone(ps.4, input, Err(None))
                    && yields_on_clone(ps.5, input, Err(None))
                    && yields_on_clone(ps.6, input, Err(None))
                    && yields_on_clone(ps.7, input, Err(None))
                    && yields_on_clone(ps.8, input, res)
                ||| yields_on_clone(ps.0, input, Err(None))
                    && yields_on_clone(ps.1, input, Err(None))
                    && yields_on_clone(ps.2, input, Err(None))
                    && yields_on_clone(ps.3, input, Err(None))
                    && yields_on_clone(ps.4, input, Err(None))
                    && yields_on_clone(ps.5, input, Err(None))
                    && yields_on_clone(ps.6, input, Err(None))
                    && yields_on_clone(ps.7, input, Err(None))
                    && yields_on_clone(ps.8, input, Err(None))
                    && yields_on_clone(ps.9, input, res)
                ||| yields_on_clone(ps.0, input, Err(None))
                    && yields_on_clone(ps.1, input, Err(None))
                    && yields_on_clone(ps.2, input, Err(None))
                    && yields_on_clone(ps.3, input, Err(None))
                    && yields_on_clone(ps.4, input, Err(None))
                    && yields_on_clone(ps.5, input, Err(None))
                    && yields_on_clone(ps.6, input, Err(None))
                    && yields_on_clone(ps.7, input, Err(None))
                    && yields_on_clone(ps.8, input, Err(None))
                    && yields_on_clone(ps.9, input, Err(None))
                    && yields_on_clone(ps.10, input, res)
                ||| yields_on_clone(ps.0, input, Err(None))
                    && yields_on_clone(ps.1, input, Err(None))
                    && yields_on_clone(ps.2, input, Err(None))
                    && yields_on_clone(ps.3, input, Err(None))
                    && yields_on_clone(ps.4, input, Err(None))
                    && yields_on_clone(ps.5, input, Err(None))
                    && yields_on_clone(ps.6, input, Err(None))
                    && yields_on_clone(ps.7, input, Err(None))
                    && yields_on_clone(ps.8, input, Err(None))
                    && yields_on_clone(ps.9, input, Err(None))
                    && yields_on_clone(ps.10, input, Err(None))
                    && yields_on_clone(ps.11, input, res)
                ||| yields_on_clone(ps.0, input, Err(None))
                    && yields_on_clone(ps.1, input, Err(None))
                    && yields_on_clone(ps.2, input, Err(None))
                    && yields_on_clone(ps.3, input, Err(None))
                    && yields_on_clone(ps.4, input, Err(None))
                    && yields_on_clone(ps.5, input, Err(None))
                    && yields_on_clone(ps.6, input, Err(None))
                    && yields_on_clone(ps.7, input, Err(None))
                    && yields_on_clone(ps.8, input, Err(None))
                    && yields_on_clone(ps.9, input, Err(None))
                    && yields_on_clone(ps.10, input, Err(None))
                    && yields_on_clone(ps.11, input, Err(None))
                    && yields_on_clone(ps.12, input, res)
                ||| yields_on_clone(ps.0, input, Err(None))
                    && yields_on_clone(ps.1, input, Err(None))
                    && yields_on_clone(ps.2, input, Err(None))
                    && yields_on_clone(ps.3, input, Err(None))
                    && yields_on_clone(ps.4, input, Err(None))
                    && yields_on_clone(ps.5, input, Err(None))
                    && yields_on_clone(ps.6, input, Err(None))
                    && yields_on_clone(ps.7, input, Err(None))
                    && yields_on_clone(ps.8, input, Err(None))
                    && yields_on_clone(ps.9, input, Err(None))
                    && yields_on_clone(ps.10, input, Err(None))
                    && yields_on_clone(ps.11, input, Err(None))
                    && yields_on_clone(ps.12, input, Err(None))
                    && yields_on_clone(ps.13, input, res)
                ||| yields_on_clone(ps.0, input, Err(None))
                    && yields_on_clone(ps.1, input, Err(None))
                    && yields_on_clone(ps.2, input, Err(None))
                    && yields_on_clone(ps.3, input, Err(None))
                    && yields_on_clone(ps.4, input, Err(None))
                    && yields_on_clone(ps.5, input, Err(None))
                    && yields_on_clone(ps.6, input, Err(None))
                    && yields_on_clone(ps.7, input, Err(None))
                    && yields_on_clone(ps.8, input, Err(None))
                    && yields_on_clone(ps.9, input, Err(None))
                    && yields_on_clone(ps.10, input, Err(None))
                    && yields_on_clone(ps.11, input, Err(None))
                    && yields_on_clone(ps.12, input, Err(None))
                    && yields_on_clone(ps.13, input, Err(None))
                    && yields_on_clone(ps.14, input, res)
                ||| yields_on_clone(ps.0, input, Err(None))
                    && yields_on_clone(ps.1, input, Err(None))
                    && yields_on_clone(ps.2, input, Err(None))
                    && yields_on_clone(ps.3, input, Err(None))
                    && yields_on_clone(ps.4, input, Err(None))
                    && yields_on_clone(ps.5, input, Err(None))
                    && yields_on_clone(ps.6, input, Err(None))
                    && yields_on_clone(ps.7, input, Err(None))
                    && yields_on_clone(ps.8, input, Err(None))
                    && yields_on_clone(ps.9, input, Err(None))
                    && yields_on_clone(ps.10, input, Err(None))
                    && yields_on_clone(ps.11, input, Err(None))
                    && yields_on_clone(ps.12, input, Err(None))
                    && yields_on_clone(ps.13, input, Err(None))
                    && yields_on_clone(ps.14, input, Err(None))
                    && yields_on_clone(ps.15, input, res)
                ||| yields_on_clone(ps.0, input, Err(None))
                    && yields_on_clone(ps.1, input, Err(None))
                    && yields_on_clone(ps.2, input, Err(None))
                    && yields_on_clone(ps.3, input, Err(None))
                    && yields_on_clone(ps.4, input, Err(None))
                    && yields_on_clone(ps.5, input, Err(None))
                    && yields_on_clone(ps.6, input, Err(None))
                    && yields_on_clone(ps.7, input, Err(None))
                    && yields_on_clone(ps.8, input, Err(None))
                    && yields_on_clone(ps.9, input, Err(None))
                    && yields_on_clone(ps.10, input, Err(None))
                    && yields_on_clone(ps.11, input, Err(None))
                    && yields_on_clone(ps.12, input, Err(None))
                    && yields_on_clone(ps.13, input, Err(None))
                    && yields_on_clone(ps.14, input, Err(None))
                    && yields_on_clone(ps.15, input, Err(None))
                    && yields_on_clone(ps.16, input, res)
                ||| yields_on_clone(ps.0, input, Err(None))
                    && yields_on_clone(ps.1, input, Err(None))
                    && yields_on_clone(ps.2, input, Err(None))
                    && yields_on_clone(ps.3, input, Err(None))
                    && yields_on_clone(ps.4, input, Err(None))
                    && yields_on_clone(ps.5, input, Err(None))
                    && yields_on_clone(ps.6, input, Err(None))
                    && yields_on_clone(ps.7, input, Err(None))
                    && yields_on_clone(ps.8, input, Err(None))
                    && yields_on_clone(ps.9, input, Err(None))
                    && yields_on_clone(ps.10, input, Err(None))
                    && yields_on_clone(ps.11, input, Err(None))
                    && yields_on_clone(ps.12, input, Err(None))
                    && yields_on_clone(ps.13, input, Err(None))
                    && yields_on_clone(ps.14, input, Err(None))
                    && yields_on_clone(ps.15, input, Err(None))
                    && yields_on_clone(ps.16, input, Err(None))
                    && yields_on_clone(ps.17, input, res)
                ||| yields_on_clone(ps.0, input, Err(None))
                    && yields_on_clone(ps.1, input, Err(None))
                    && yields_on_clone(ps.2, input, Err(None))
                    && yields_on_clone(ps.3, input, Err(None))
                    && yields_on_clone(ps.4, input, Err(None))
                    && yields_on_clone(ps.5, input, Err(None))
                    && yields_on_clone(ps.6, input, Err(None))
                    && yields_on_clone(ps.7, input, Err(None))
                    && yields_on_clone(ps.8, input, Err(None))
                    && yields_on_clone(ps.9, input, Err(None))
                    && yields_on_clone(ps.10, input, Err(None))
                    && yields_on_clone(ps.11, input, Err(None))
                    && yields_on_clone(ps.12, input, Err(None))
                    && yields_on_clone(ps.13, input, Err(None))
                    && yields_on_clone(ps.14, input, Err(None))
                    && yields_on_clone(ps.15, input, Err(None))
                    && yields_on_clone(ps.16, input, Err(None))
                    && yields_on_clone(ps.17, input, Err(None))
                    && yields_on_clone(ps.18, input, res)
                ||| yields_on_clone(ps.0, input, Err(None))
                    && yields_on_clone(ps.1, input, Err(None))
                    && yields_on_clone(ps.2, input, Err(None))
                    && yields_on_clone(ps.3, input, Err(None))
                    && yields_on_clone(ps.4, input, Err(None))
                    && yields_on_clone(ps.5, input, Err(None))
                    && yields_on_clone(ps.6, input, Err(None))
                    && yields_on_clone(ps.7, input, Err(None))
                    && yields_on_clone(ps.8, input, Err(None))
                    && yields_on_clone(ps.9, input, Err(None))
                    && yields_on_clone(ps.10, input, Err(None))
                    && yields_on_clone(ps.11, input, Err(None))
                    && yields_on_clone(ps.12, input, Err(None))
                    && yields_on_clone(ps.13, input, Err(None))
                    && yields_on_clone(ps.14, input, Err(None))
                    && yields_on_clone(ps.15, input, Err(None))
                    && yields_on_clone(ps.16, input, Err(None))
                    && yields_on_clone(ps.17, input, Err(None))
                    && yields_on_clone(ps.18, input, Err(None))
                    && yields_on_clone(ps.19, input, res)
                ||| yields_on_clone(ps.0, input, Err(None))
                    && yields_on_clone(ps.1, input, Err(None))
                    && yields_on_clone(ps.2, input, Err(None))
                    && yields_on_clone(ps.3, input, Err(None))
                    && yields_on_clone(ps.4, input, Err(None))
                    && yields_on_clone(ps.5, input, Err(None))
                    && yields_on_clone(ps.6, input, Err(None))
                    && yields_on_clone(ps.7, input, Err(None))
                    && yields_on_clone(ps.8, input, Err(None))
                    && yields_on_clone(ps.9, input, Err(None))
                    && yields_on_clone(ps.10, input, Err(None))
                    && yields_on_clone(ps.11, input, Err(None))
                    && yields_on_clone(ps.12, input, Err(None))
                    && yields_on_clone(ps.13, input, Err(None))
                    && yields_on_clone(ps.14, input, Err(None))
                    && yields_on_clone(ps.15, input, Err(None))
                    && yields_on_clone(ps.16, input, Err(None))
                    && yields_on_clone(ps.17, input, Err(None))
                    && yields_on_clone(ps.18, input, Err(None))
                    && yields_on_clone(ps.19, input, Err(None))
                    && yields_on_clone(ps.20, input, res)
            },
        }
    }

    fn parse(&self, txt: IN) -> (res: Result<(OUT, IN), Option<ER>>) {
        let c0 = txt.clone();
        let r0 = self.ps.0.parse(c0);
        assert(yields_on_clone(self.ps.0, txt, r0));
        match r0 {
            Err(None) => {},
            _ => return r0,
        }
        let c1 = txt.clone();
        let r1 = self.ps.1.parse(c1);
        assert(yields_on_clone(self.ps.1, txt, r1));
        match r1 {
            Err(None) => {},
            _ => return r1,
        }
        let c2 = txt.clone();
        let r2 = self.ps.2.parse(c2);
        assert(yields_on_clone(self.ps.2, txt, r2));
        match r2 {
            Err(None) => {},
            _ => return r2,
        }
        let c3 = txt.clone();
        let r3 = self.ps.3.parse(c3);
        assert(yields_on_clone(self.ps.3, txt, r3));
        match r3 {
            Err(None) => {},
            _ => return r3,
        }
        let c4 = txt.clone();
        let r4 = self.ps.4.parse(c4);
        assert(yields_on_clone(self.ps.4, txt, r4));
        match r4 {
            Err(None) => {},
            _ => return r4,
        }
        let c5 = txt.clone();
        let r5 = self.ps.5.parse(c5);
        assert(yields_on_clone(self.ps.5, txt, r5));
        match r5 {
            Err(None) => {},
            _ => return r5,
        }
        let c6 = txt.clone();
        let r6 = self.ps.6.parse(c6);
        assert(yields_on_clone(self.ps.6, txt, r6));
        match r6 {
            Err(None) => {},
            _ => return r6,
        }
        let c7 = txt.clone();
        let r7 = self.ps.7.parse(c7);
        assert(yields_on_clone(self.ps.7, txt, r7));
        match r7 {
            Err(None) => {},
            _ => return r7,
        }
        let c8 = txt.clone();
        let r8 = self.ps.8.parse(c8);
        assert(yields_on_clone(self.ps.8, txt, r8));
        match r8 {
            Err(None) => {},
            _ => return r8,
        }
        let c9 = txt.clone();
        let r9 = self.ps.9.parse(c9);
        assert(yields_on_clone(self.ps.9, txt, r9));
        match r9 {
            Err(None) => {},
            _ => return r9,
        }
        let c10 = txt.clone();
        let r10 = self.ps.10.parse(c10);
        assert(yields_on_clone(self.ps.10, txt, r10));
        match r10 {
            Err(None) => {},
            _ => return r10,
        }
        let c11 = txt.clone();
        let r11 = self.ps.11.parse(c11);
        assert(yields_on_clone(self.ps.11, txt, r11));
        match r11 {
            Err(None) => {},
            _ => return r11,
        }
        let c12 = txt.clone();
        let r12 = self.ps.12.parse(c12);
        assert(yields_on_clone(self.ps.12, txt, r12));
        match r12 {
            Err(None) => {},
            _ => return r12,
        }
        let c13 = txt.clone();
        let r13 = self.ps.13.parse(c13);
        assert(yields_on_clone(self.ps.13, txt, r13));
        match r13 {
            Err(None) => {},
            _ => return r13,
        }
        let c14 = txt.clone();
        let r14 = self.ps.14.parse(c14);
        assert(yields_on_clone(self.ps.14, txt, r14));
        match r14 {
            Err(None) => {},
            _ => return r14,
        }
        let c15 = txt.clone();
        let r15 = self.ps.15.parse(c15);
        assert(yields_on_clone(self.ps.15, txt, r15));
        match r15 {
            Err(None) => {},
            _ => return r15,
        }
        let c16 = txt.clone();
        let r16 = self.ps.16.parse(c16);
        assert(yields_on_clone(self.ps.16, txt, r16));
        match r16 {
            Err(None) => {},
            _ => return r16,
        }
        let c17 = txt.clone();
        let r17 = self.ps.17.parse(c17);
        assert(yields_on_clone(self.ps.17, txt, r17));
        match r17 {
            Err(None) => {},
            _ => return r17,
        }
        let c18 = txt.clone();
        let r18 = self.ps.18.parse(c18);
        assert(yields_on_clone(self.ps.18, txt, r18));
        match r18 {
            Err(None) => {},
            _ => return r18,
        }
        let c19 = txt.clone();
        let r19 = self.ps.19.parse(c19);
        assert(yields_on_clone(self.ps.19, txt, r19));
        match r19 {
            Err(None) => {},
            _ => return r19,
        }
        let c20 = txt.clone();
        let r20 = self.ps.20.parse(c20);
        assert(yields_on_clone(self.ps.20, txt, r20));
        match r20 {
            Err(None) => {},
            _ => return r20,
        }
        Err(None)
    }
}

/// Over inputs whose clones are equal, a branch of 21 deterministic
/// segments is deterministic.
pub proof fn lemma_branch21_deterministic<IN: Clone, OUT, ER, A, B, C, D, E, F, G, H, I, J, K, L, M, N, O, P, Q, R, S, T, U>(b: Branch<IN, ER, (A, B, C, D, E, F, G, H, I, J, K, L, M, N, O, P, Q, R, S, T, U)>)
    where
        A: Parser<IN, Out = OUT, Error = Option<ER>>,
        B: Parser<IN, Out = OUT, Error = Option<ER>>,
        C: Parser<IN, Out = OUT, Error = Option<ER>>,
        D: Parser<IN, Out = OUT, Error = Option<ER>>,
        E: Parser<IN, Out = OUT, Error = Option<ER>>,
        F: Parser<IN, Out = OUT, Error = Option<ER>>,
        G: Parser<IN, Out = OUT, Error = Option<ER>>,
        H: Parser<IN, Out = OUT, Error = Option<ER>>,
        I: Parser<IN, Out = OUT, Error = Option<ER>>,
        J: Parser<IN, Out = OUT, Error = Option<ER>>,
        K: Parser<IN, Out = OUT, Error = Option<ER>>,
        L: Parser<IN, Out = OUT, Error = Option<ER>>,
        M: Parser<IN, Out = OUT, Error = Option<ER>>,
        N: Parser<IN, Out = OUT, Error = Option<ER>>,
        O: Parser<IN, Out = OUT, Error = Option<ER>>,
        P: Parser<IN, Out = OUT, Error = Option<ER>>,
        Q: Parser<IN, Out = OUT, Error = Option<ER>>,
        R: Parser<IN, Out = OUT, Error = Option<ER>>,
        S: Parser<IN, Out = OUT, Error = Option<ER>>,
        T: Parser<IN, Out = OUT, Error = Option<ER>>,
        U: Parser<IN, Out = OUT, Error = Option<ER>>,
    requires
        clones_are_equal::<IN>(),
        deterministic::<IN, A>(b.segments().0),
        deterministic::<IN, B>(b.segments().1),
        deterministic::<IN, C>(b.segments().2),
        deterministic::<IN, D>(b.segments().3),
        deterministic::<IN, E>(b.segments().4),
        deterministic::<IN, F>(b.segments().5),
        deterministic::<IN, G>(b.segments().6),
        deterministic::<IN, H>(b.segments().7),
        deterministic::<IN, I>(b.segments().8),
        deterministic::<IN, J>(b.segments().9),
        deterministic::<IN, K>(b.segments().10),
        deterministic::<IN, L>(b.segments().11),
        deterministic::<IN, M>(b.segments().12),
        deterministic::<IN, N>(b.segments().13),
        deterministic::<IN, O>(b.segments().14),
        deterministic::<IN, P>(b.segments().15),
        deterministic::<IN, Q>(b.segments().16),
        deterministic::<IN, R>(b.segments().17),
        deterministic::<IN, S>(b.segments().18),
        deterministic::<IN, T>(b.segments().19),
        deterministic::<IN, U>(b.segments().20),
    ensures
        deterministic::<IN, Branch<IN, ER, (A, B, C, D, E, F, G, H, I, J, K, L, M, N, O, P, Q, R, S, T, U)>>(b),
{
    lemma_clones_are_transparent::<IN, A>(b.segments().0);
    lemma_clones_are_transparent::<IN, B>(b.segments().1);
    lemma_clones_are_transparent::<IN, C>(b.segments().2);
    lemma_clones_are_transparent::<IN, D>(b.segments().3);
    lemma_clones_are_transparent::<IN, E>(b.segments().4);
    lemma_clones_are_transparent::<IN, F>(b.segments().5);
    lemma_clones_are_transparent::<IN, G>(b.segments().6);
    lemma_clones_are_transparent::<IN, H>(b.segments().7);
    lemma_clones_are_transparent::<IN, I>(b.segments().8);
    lemma_clones_are_transparent::<IN, J>(b.segments().9);
    lemma_clones_are_transparent::<IN, K>(b.segments().10);
    lemma_clones_are_transparent::<IN, L>(b.segments().11);
    lemma_clones_are_transparent::<IN, M>(b.segments().12);
    lemma_clones_are_transparent::<IN, N>(b.segments().13);
    lemma_clones_are_transparent::<IN, O>(b.segments().14);
    lemma_clones_are_transparent::<IN, P>(b.segments().15);
    lemma_clones_are_transparent::<IN, Q>(b.segments().16);
    lemma_clones_are_transparent::<IN, R>(b.segments().17);
    lemma_clones_are_transparent::<IN, S>(b.segments().18);
    lemma_clones_are_transparent::<IN, T>(b.segments().19);
    lemma_clones_are_transparent::<IN, U>(b.segments().20);
}

impl<IN: Clone, OUT, ER, A, B, C, D, E, F, G, H, I, J, K, L, M, N, O, P, Q, R, S, T, U, V> From<(A, B, C, D, E, F, G, H, I, J, K, L, M, N, O, P, Q, R, S, T, U, V)> for Branch<IN, ER, (A, B, C, D, E, F, G, H, I, J, K, L, M, N, O, P, Q, R, S, T, U, V)> where
    A: Parser<IN, Out = OUT, Error = Option<ER>>,
    B: Parser<IN, Out = OUT, Error = Option<ER>>,
    C: Parser<IN, Out = OUT, Error = Option<ER>>,
    D: Parser<IN, Out = OUT, Error = Option<ER>>,
    E: Parser<IN, Out = OUT, Error = Option<ER>>,
    F: Parser<IN, Out = OUT, Error = Option<ER>>,
    G: Parser<IN, Out = OUT, Error = Option<ER>>,
    H: Parser<IN, Out = OUT, Error = Option<ER>>,
    I: Parser<IN, Out = OUT, Error = Option<ER>>,
    J: Parser<IN, Out = OUT, Error = Option<ER>>,
    K: Parser<IN, Out = OUT, Error = Option<ER>>,
    L: Parser<IN, Out = OUT, Error = Option<ER>>,
    M: Parser<IN, Out = OUT, Error = Option<ER>>,
    N: Parser<IN, Out = OUT, Error = Option<ER>>,
    O: Parser<IN, Out = OUT, Error = Option<ER>>,
    P: Parser<IN, Out = OUT, Error = Option<ER>>,
    Q: Parser<IN, Out = OUT, Error = Option<ER>>,
    R: Parser<IN, Out = OUT, Error = Option<ER>>,
    S: Parser<IN, Out = OUT, Error = Option<ER>>,
    T: Parser<IN, Out = OUT, Error = Option<ER>>,
    U: Parser<IN, Out = OUT, Error = Option<ER>>,
    V: Parser<IN, Out = OUT, Error = Option<ER>>,
 {
    fn from(ps: (A, B, C, D, E, F, G, H, I, J, K, L, M, N, O, P, Q, R, S, T, U, V)) -> (r: Self) {
        let r = Self { ps, _ghost: PhantomData };
        proof {
            lemma_branch_determined_by_segments(r, ps);
        }
        r
    }
}

impl<IN: Clone, OUT, ER, A, B, C, D, E, F, G, H, I, J, K, L, M, N, O, P, Q, R, S, T, U, V> FromSpecImpl<(A, B, C, D, E, F, G, H, I, J, K, L, M, N, O, P, Q, R, S, T, U, V)> for Branch<IN, ER, (A, B, C, D, E, F, G, H, I, J, K, L, M, N, O, P, Q, R, S, T, U, V)> where
    A: Parser<IN, Out = OUT, Error = Option<ER>>,
    B: Parser<IN, Out = OUT, Error = Option<ER>>,
    C: Parser<IN, Out = OUT, Error = Option<ER>>,
    D: Parser<IN, Out = OUT, Error = Option<ER>>,
    E: Parser<IN, Out = OUT, Error = Option<ER>>,
    F: Parser<IN, Out = OUT, Error = Option<ER>>,
    G: Parser<IN, Out = OUT, Error = Option<ER>>,
    H: Parser<IN, Out = OUT, Error = Option<ER>>,
    I: Parser<IN, Out = OUT, Error = Option<ER>>,
    J: Parser<IN, Out = OUT, Error = Option<ER>>,
    K: Parser<IN, Out = OUT, Error = Option<ER>>,
    L: Parser<IN, Out = OUT, Error = Option<ER>>,
    M: Parser<IN, Out = OUT, Error = Option<ER>>,
    N: Parser<IN, Out = OUT, Error = Option<ER>>,
    O: Parser<IN, Out = OUT, Error = Option<ER>>,
    P: Parser<IN, Out = OUT, Error = Option<ER>>,
    Q: Parser<IN, Out = OUT, Error = Option<ER>>,
    R: Parser<IN, Out = OUT, Error = Option<ER>>,
    S: Parser<IN, Out = OUT, Error = Option<ER>>,
    T: Parser<IN, Out = OUT, Error = Option<ER>>,
    U: Parser<IN, Out = OUT, Error = Option<ER>>,
    V: Parser<IN, Out = OUT, Error = Option<ER>>,
 {
    open spec fn obeys_from_spec() -> bool {
        true
    }

    open spec fn from_spec(ps: (A, B, C, D, E, F, G, H, I, J, K, L, M, N, O, P, Q, R, S, T, U, V)) -> Self {
        choose|b: Self| b.segments() == ps
    }
}

/// A branch between 22 segments with one output type.
impl<IN: Clone, OUT, ER, A, B, C, D, E, F, G, H, I, J, K, L, M, N, O, P, Q, R, S, T, U, V> Parser<IN> for Branch<IN, ER, (A, B, C, D, E, F, G, H, I, J, K, L, M, N, O, P, Q, R, S, T, U, V)> where
    A: Parser<IN, Out = OUT, Error = Option<ER>>,
    B: Parser<IN, Out = OUT, Error = Option<ER>>,
    C: Parser<IN, Out = OUT, Error = Option<ER>>,
    D: Parser<IN, Out = OUT, Error = Option<ER>>,
    E: Parser<IN, Out = OUT, Error = Option<ER>>,
    F: Parser<IN, Out = OUT, Error = Option<ER>>,
    G: Parser<IN, Out = OUT, Error = Option<ER>>,
    H: Parser<IN, Out = OUT, Error = Option<ER>>,
    I: Parser<IN, Out = OUT, Error = Option<ER>>,
    J: Parser<IN, Out = OUT, Error = Option<ER>>,
    K: Parser<IN, Out = OUT, Error = Option<ER>>,
    L: Parser<IN, Out = OUT, Error = Option<ER>>,
    M: Parser<IN, Out = OUT, Error = Option<ER>>,
    N: Parser<IN, Out = OUT, Error = Option<ER>>,
    O: Parser<IN, Out = OUT, Error = Option<ER>>,
    P: Parser<IN, Out = OUT, Error = Option<ER>>,
    Q: Parser<IN, Out = OUT, Error = Option<ER>>,
    R: Parser<IN, Out = OUT, Error = Option<ER>>,
    S: Parser<IN, Out = OUT, Error = Option<ER>>,
    T: Parser<IN, Out = OUT, Error = Option<ER>>,
    U: Parser<IN, Out = OUT, Error = Option<ER>>,
    V: Parser<IN, Out = OUT, Error = Option<ER>>,
 {
    type Out = OUT;

    type Error = Option<ER>;

    open spec fn parse_requires(&self, input: IN) -> bool {
        let ps = self.segments();
        &&& accepts_clones(ps.0, input)
        &&& yields_on_clone(ps.0, input, Err(None))
            ==> accepts_clones(ps.1, input)
        &&& yields_on_clone(ps.0, input, Err(None))
            && yields_on_clone(ps.1, input, Err(None))
            ==> accepts_clones(ps.2, input)
        &&& yields_on_clone(ps.0, input, Err(None))
            && yields_on_clone(ps.1, input, Err(None))
            && yields_on_clone(ps.2, input, Err(None))
            ==> accepts_clones(ps.3, input)
        &&& yields_on_clone(ps.0, input, Err(None))
            && yields_on_clone(ps.1, input, Err(None))
            && yields_on_clone(ps.2, input, Err(None))
            && yields_on_clone(ps.3, input, Err(None))
            ==> accepts_clones(ps.4, input)
        &&& yields_on_clone(ps.0, input, Err(None))
            && yields_on_clone(ps.1, input, Err(None))
            && yields_on_clone(ps.2, input, Err(None))
            && yields_on_clone(ps.3, input, Err(None))
            && yields_on_clone(ps.4, input, Err(None))
            ==> accepts_clones(ps.5, input)
        &&& yields_on_clone(ps.0, input, Err(None))
            && yields_on_clone(ps.1, input, Err(None))
            && yields_on_clone(ps.2, input, Err(None))
            && yields_on_clone(ps.3, input, Err(None))
            && yields_on_clone(ps.4, input, Err(None))
            && yields_on_clone(ps.5, input, Err(None))
            ==> accepts_clones(ps.6, input)
        &&& yields_on_clone(ps.0, input, Err(None))
            && yields_on_clone(ps.1, input, Err(None))
            && yields_on_clone(ps.2, input, Err(None))
            && yields_on_clone(ps.3, input, Err(None))
            && yields_on_clone(ps.4, input, Err(None))
            && yields_on_clone(ps.5, input, Err(None))
            && yields_on_clone(ps.6, input, Err(None))
            ==> accepts_clones(ps.7, input)
        &&& yields_on_clone(ps.0, input, Err(None))
            && yields_on_clone(ps.1, input, Err(None))
            && yields_on_clone(ps.2, input, Err(None))
            && yields_on_clone(ps.3, input, Err(None))
            && yields_on_clone(ps.4, input, Err(None))
            && yields_on_clone(ps.5, input, Err(None))
            && yields_on_clone(ps.6, input, Err(None))
            && yields_on_clone(ps.7, input, Err(None))
            ==> accepts_clones(ps.8, input)
        &&& yields_on_clone(ps.0, input, Err(None))
            && yields_on_clone(ps.1, input, Err(None))
            && yields_on_clone(ps.2, input, Err(None))
            && yields_on_clone(ps.3, input, Err(None))
            && yields_on_clone(ps.4, input, Err(None))
            && yields_on_clone(ps.5, input, Err(None))
            && yields_on_clone(ps.6, input, Err(None))
            && yields_on_clone(ps.7, input, Err(None))
            && yields_on_clone(ps.8, input, Err(None))
            ==> accepts_clones(ps.9, input)
        &&& yields_on_clone(ps.0, input, Err(None))
            && yields_on_clone(ps.1, input, Err(None))
            && yields_on_clone(ps.2, input, Err(None))
            && yields_on_clone(ps.3, input, Err(None))
            && yields_on_clone(ps.4, input, Err(None))
            && yields_on_clone(ps.5, input, Err(None))
            && yields_on_clone(ps.6, input, Err(None))
            && yields_on_clone(ps.7, input, Err(None))
            && yields_on_clone(ps.8, input, Err(None))
            && yields_on_clone(ps.9, input, Err(None))
            ==> accepts_clones(ps.10, input)
        &&& yields_on_clone(ps.0, input, Err(None))
            && yields_on_clone(ps.1, input, Err(None))
            && yields_on_clone(ps.2, input, Err(None))
            && yields_on_clone(ps.3, input, Err(None))
            && yields_on_clone(ps.4, input, Err(None))
            && yields_on_clone(ps.5, input, Err(None))
            && yields_on_clone(ps.6, input, Err(None))
            && yields_on_clone(ps.7, input, Err(None))
            && yields_on_clone(ps.8, input, Err(None))
            && yields_on_clone(ps.9, input, Err(None))
            && yields_on_clone(ps.10, input, Err(None))
            ==> accepts_clones(ps.11, input)
        &&& yields_on_clone(ps.0, input, Err(None))
            && yields_on_clone(ps.1, input, Err(None))
            && yields_on_clone(ps.2, input, Err(None))
            && yields_on_clone(ps.3, input, Err(None))
            && yields_on_clone(ps.4, input, Err(None))
            && yields_on_clone(ps.5, input, Err(None))
            && yields_on_clone(ps.6, input, Err(None))
            && yields_on_clone(ps.7, input, Err(None))
            && yields_on_clone(ps.8, input, Err(None))
            && yields_on_clone(ps.9, input, Err(None))
            && yields_on_clone(ps.10, input, Err(None))
            && yields_on_clone(ps.11, input, Err(None))
            ==> accepts_clones(ps.12, input)
        &&& yields_on_clone(ps.0, input, Err(None))
            && yields_on_clone(ps.1, input, Err(None))
            && yields_on_clone(ps.2, input, Err(None))
            && yields_on_clone(ps.3, input, Err(None))
            && yields_on_clone(ps.4, input, Err(None))
            && yields_on_clone(ps.5, input, Err(None))
            && yields_on_clone(ps.6, input, Err(None))
            && yields_on_clone(ps.7, input, Err(None))
            && yields_on_clone(ps.8, input, Err(None))
            && yields_on_clone(ps.9, input, Err(None))
            && yields_on_clone(ps.10, input, Err(None))
            && yields_on_clone(ps.11, input, Err(None))
            && yields_on_clone(ps.12, input, Err(None))
            ==> accepts_clones(ps.13, input)
        &&& yields_on_clone(ps.0, input, Err(None))
            && yields_on_clone(ps.1, input, Err(None))
            && yields_on_clone(ps.2, input, Err(None))
            && yields_on_clone(ps.3, input, Err(None))
            && yields_on_clone(ps.4, input, Err(None))
            && yields_on_clone(ps.5, input, Err(None))
            && yields_on_clone(ps.6, input, Err(None))
            && yields_on_clone(ps.7, input, Err(None))
            && yields_on_clone(ps.8, input, Err(None))
            && yields_on_clone(ps.9, input, Err(None))
            && yields_on_clone(ps.10, input, Err(None))
            && yields_on_clone(ps.11, input, Err(None))
            && yields_on_clone(ps.12, input, Err(None))
            && yields_on_clone(ps.13, input, Err(None))
            ==> accepts_clones(ps.14, input)
        &&& yields_on_clone(ps.0, input, Err(None))
            && yields_on_clone(ps.1, input, Err(None))
            && yields_on_clone(ps.2, input, Err(None))
            && yields_on_clone(ps.3, input, Err(None))
            && yields_on_clone(ps.4, input, Err(None))
            && yields_on_clone(ps.5, input, Err(None))
            && yields_on_clone(ps.6, input, Err(None))
            && yields_on_clone(ps.7, input, Err(None))
            && yields_on_clone(ps.8, input, Err(None))
            && yields_on_clone(ps.9, input, Err(None))
            && yields_on_clone(ps.10, input, Err(None))
            && yields_on_clone(ps.11, input, Err(None))
            && yields_on_clone(ps.12, input, Err(None))
            && yields_on_clone(ps.13, input, Err(None))
            && yields_on_clone(ps.14, input, Err(None))
            ==> accepts_clones(ps.15, input)
        &&& yields_on_clone(ps.0, input, Err(None))
            && yields_on_clone(ps.1, input, Err(None))
            && yields_on_clone(ps.2, input, Err(None))
            && yields_on_clone(ps.3, input, Err(None))
            && yields_on_clone(ps.4, input, Err(None))
            && yields_on_clone(ps.5, input, Err(None))
            && yields_on_clone(ps.6, input, Err(None))
            && yields_on_clone(ps.7, input, Err(None))
            && yields_on_clone(ps.8, input, Err(None))
            && yields_on_clone(ps.9, input, Err(None))
            && yields_on_clone(ps.10, input, Err(None))
            && yields_on_clone(ps.11, input, Err(None))
            && yields_on_clone(ps.12, input, Err(None))
            && yields_on_clone(ps.13, input, Err(None))
            && yields_on_clone(ps.14, input, Err(None))
            && yields_on_clone(ps.15, input, Err(None))
            ==> accepts_clones(ps.16, input)
        &&& yields_on_clone(ps.0, input, Err(None))
            && yields_on_clone(ps.1, input, Err(None))
            && yields_on_clone(ps.2, input, Err(None))
            && yields_on_clone(ps.3, input, Err(None))
            && yields_on_clone(ps.4, input, Err(None))
            && yields_on_clone(ps.5, input, Err(None))
            && yields_on_clone(ps.6, input, Err(None))
            && yields_on_clone(ps.7, input, Err(None))
            && yields_on_clone(ps.8, input, Err(None))
            && yields_on_clone(ps.9, input, Err(None))
            && yields_on_clone(ps.10, input, Err(None))
            && yields_on_clone(ps.11, input, Err(None))
            && yields_on_clone(ps.12, input, Err(None))
            && yields_on_clone(ps.13, input, Err(None))
            && yields_on_clone(ps.14, input, Err(None))
            && yields_on_clone(ps.15, input, Err(None))
            && yields_on_clone(ps.16, input, Err(None))
            ==> accepts_clones(ps.17, input)
        &&& yields_on_clone(ps.0, input, Err(None))
            && yields_on_clone(ps.1, input, Err(None))
            && yields_on_clone(ps.2, input, Err(None))
            && yields_on_clone(ps.3, input, Err(None))
            && yields_on_clone(ps.4, input, Err(None))
            && yields_on_clone(ps.5, input, Err(None))
            && yields_on_clone(ps.6, input, Err(None))
            && yields_on_clone(ps.7, input, Err(None))
            && yields_on_clone(ps.8, input, Err(None))
            && yields_on_clone(ps.9, input, Err(None))
            && yields_on_clone(ps.10, input, Err(None))
            && yields_on_clone(ps.11, input, Err(None))
            && yields_on_clone(ps.12, input, Err(None))
            && yields_on_clone(ps.13, input, Err(None))
            && yields_on_clone(ps.14, input, Err(None))
            && yields_on_clone(ps.15, input, Err(None))
            && yields_on_clone(ps.16, input, Err(None))
            && yields_on_clone(ps.17, input, Err(None))
            ==> accepts_clones(ps.18, input)
        &&& yields_on_clone(ps.0, input, Err(None))
            && yields_on_clone(ps.1, input, Err(None))
            && yields_on_clone(ps.2, input, Err(None))
            && yields_on_clone(ps.3, input, Err(None))
            && yields_on_clone(ps.4, input, Err(None))
            && yields_on_clone(ps.5, input, Err(None))
            && yields_on_clone(ps.6, input, Err(None))
            && yields_on_clone(ps.7, input, Err(None))
            && yields_on_clone(ps.8, input, Err(None))
            && yields_on_clone(ps.9, input, Err(None))
            && yields_on_clone(ps.10, input, Err(None))
            && yields_on_clone(ps.11, input, Err(None))
            && yields_on_clone(ps.12, input, Err(None))
            && yields_on_clone(ps.13, input, Err(None))
            && yields_on_clone(ps.14, input, Err(None))
            && yields_on_clone(ps.15, input, Err(None))
            && yields_on_clone(ps.16, input, Err(None))
            && yields_on_clone(ps.17, input, Err(None))
            && yields_on_clone(ps.18, input, Err(None))
            ==> accepts_clones(ps.19, input)
        &&& yields_on_clone(ps.0, input, Err(None))
            && yields_on_clone(ps.1, input, Err(None))
            && yields_on_clone(ps.2, input, Err(None))
            && yields_on_clone(ps.3, input, Err(None))
            && yields_on_clone(ps.4, input, Err(None))
            && yields_on_clone(ps.5, input, Err(None))
            && yields_on_clone(ps.6, input, Err(None))
            && yields_on_clone(ps.7, input, Err(None))
            && yields_on_clone(ps.8, input, Err(None))
            && yields_on_clone(ps.9, input, Err(None))
            && yields_on_clone(ps.10, input, Err(None))
            && yields_on_clone(ps.11, input, Err(None))
            && yields_on_clone(ps.12, input, Err(None))
            && yields_on_clone(ps.13, input, Err(None))
            && yields_on_clone(ps.14, input, Err(None))
            && yields_on_clone(ps.15, input, Err(None))
            && yields_on_clone(ps.16, input, Err(None))
            && yields_on_clone(ps.17, input, Err(None))
            && yields_on_clone(ps.18, input, Err(None))
            && yields_on_clone(ps.19, input, Err(None))
            ==> accepts_clones(ps.20, input)
        &&& yields_on_clone(ps.0, input, Err(None))
            && yields_on_clone(ps.1, input, Err(None))
            && yields_on_clone(ps.2, input, Err(None))
            && yields_on_clone(ps.3, input, Err(None))
            && yields_on_clone(ps.4, input, Err(None))
            && yields_on_clone(ps.5, input, Err(None))
            && yields_on_clone(ps.6, input, Err(None))
            && yields_on_clone(ps.7, input, Err(None))
            && yields_on_clone(ps.8, input, Err(None))
            && yields_on_clone(ps.9, input, Err(None))
            && yields_on_clone(ps.10, input, Err(None))
            && yields_on_clone(ps.11, input, Err(None))
            && yields_on_clone(ps.12, input, Err(None))
            && yields_on_clone(ps.13, input, Err(None))
            && yields_on_clone(ps.14, input, Err(None))
            && yields_on_clone(ps.15, input, Err(None))
            && yields_on_clone(ps.16, input, Err(None))
            && yields_on_clone(ps.17, input, Err(None))
            && yields_on_clone(ps.18, input, Err(None))
            && yields_on_clone(ps.19, input, Err(None))
            && yields_on_clone(ps.20, input, Err(None))
            ==> accepts_clones(ps.21, input)
    }

    open spec fn parse_ensures(&self, input: IN, res: Result<(OUT, IN), Option<ER>>) -> bool {
        let ps = self.segments();
        match res {
            Err(None) => {
                &&& yields_on_clone(ps.0, input, Err(None))
                &&& yields_on_clone(ps.1, input, Err(None))
                &&& yields_on_clone(ps.2, input, Err(None))
                &&& yields_on_clone(ps.3, input, Err(None))
                &&& yields_on_clone(ps.4, input, Err(None))
                &&& yields_on_clone(ps.5, input, Err(None))
                &&& yields_on_clone(ps.6, input, Err(None))
                &&& yields_on_clone(ps.7, input, Err(None))
                &&& yields_on_clone(ps.8, input, Err(None))
                &&& yields_on_clone(ps.9, input, Err(None))
                &&& yields_on_clone(ps.10, input, Err(None))
                &&& yields_on_clone(ps.11, input, Err(None))
                &&& yields_on_clone(ps.12, input, Err(None))
                &&& yields_on_clone(ps.13, input, Err(None))
                &&& yields_on_clone(ps.14, input, Err(None))
                &&& yields_on_clone(ps.15, input, Err(None))
                &&& yields_on_clone(ps.16, input, Err(None))
                &&& yields_on_clone(ps.17, input, Err(None))
                &&& yields_on_clone(ps.18, input, Err(None))
                &&& yields_on_clone(ps.19, input, Err(None))
                &&& yields_on_clone(ps.20, input, Err(None))
                &&& yields_on_clone(ps.21, input, Err(None))
            },
            _ => {
                ||| yields_on_clone(ps.0, input, res)
                ||| yields_on_clone(ps.0, input, Err(None))
                    && yields_on_clone(ps.1, input, res)
                ||| yields_on_clone(ps.0, input, Err(None))
                    && yields_on_clone(ps.1, input, Err(None))
                    && yields_on_clone(ps.2, input, res)
                ||| yields_on_clone(ps.0, input, Err(None))
                    && yields_on_clone(ps.1, input, Err(None))
                    && yields_on_clone(ps.2, input, Err(None))
                    && yields_on_clone(ps.3, input, res)
                ||| yields_on_clone(ps.0, input, Err(None))
                    && yields_on_clone(ps.1, input, Err(None))
                    && yields_on_clone(ps.2, input, Err(None))
                    && yields_on_clone(ps.3, input, Err(None))
                    && yields_on_clone(ps.4, input, res)
                ||| yields_on_clone(ps.0, input, Err(None))
                    && yields_on_clone(ps.1, input, Err(None))
                    && yields_on_clone(ps.2, input, Err(None))
                    && yields_on_clone(ps.3, input, Err(None))
                    && yields_on_clone(ps.4, input, Err(None))
                    && yields_on_clone(ps.5, input, res)
                ||| yields_on_clone(ps.0, input, Err(None))
                    && yields_on_clone(ps.1, input, Err(None))
                    && yields_on_clone(ps.2, input, Err(None))
                    && yields_on_clone(ps.3, input, Err(None))
                    && yields_on_clone(ps.4, input, Err(None))
                    && yields_on_clone(ps.5, input, Err(None))
                    && yields_on_clone(ps.6, input, res)
                ||| yields_on_clone(ps.0, input, Err(None))
                    && yields_on_clone(ps.1, input, Err(None))
                    && yields_on_clone(ps.2, input, Err(None))
                    && yields_on_clone(ps.3, input, Err(None))
                    && yields_on_clone(ps.4, input, Err(None))
                    && yields_on_clone(ps.5, input, Err(None))
                    && yields_on_clone(ps.6, input, Err(None))
                    && yields_on_clone(ps.7, input, res)
                ||| yields_on_clone(ps.0, input, Err(None))
                    && yields_on_clone(ps.1, input, Err(None))
                    && yields_on_clone(ps.2, input, Err(None))
                    && yields_on_clone(ps.3, input, Err(None))
                    && yields_on_clone(ps.4, input, Err(None))
                    && yields_on_clone(ps.5, input, Err(None))
                    && yields_on_clone(ps.6, input, Err(None))
                    && yields_on_clone(ps.7, input, Err(None))
                    && yields_on_clone(ps.8, input, res)
                ||| yields_on_clone(ps.0, input, Err(None))
                    && yields_on_clone(ps.1, input, Err(None))
                    && yields_on_clone(ps.2, input, Err(None))
                    && yields_on_clone(ps.3, input, Err(None))
                    && yields_on_clone(ps.4, input, Err(None))
                    && yields_on_clone(ps.5, input, Err(None))
                    && yields_on_clone(ps.6, input, Err(None))
                    && yields_on_clone(ps.7, input, Err(None))
                    && yields_on_clone(ps.8, input, Err(None))
                    && yields_on_clone(ps.9, input, res)
                ||| yields_on_clone(ps.0, input, Err(None))
                    && yields_on_clone(ps.1, input, Err(None))
                    && yields_on_clone(ps.2, input, Err(None))
                    && yields_on_clone(ps.3, input, Err(None))
                    && yields_on_clone(ps.4, input, Err(None))
                    && yields_on_clone(ps.5, input, Err(None))
                    && yields_on_clone(ps.6, input, Err(None))
                    && yields_on_clone(ps.7, input, Err(None))
                    && yields_on_clone(ps.8, input, Err(None))
                    && yields_on_clone(ps.9, input, Err(None))
                    && yields_on_clone(ps.10, input, res)
                ||| yields_on_clone(ps.0, input, Err(None))
                    && yields_on_clone(ps.1, input, Err(None))
                    && yields_on_clone(ps.2, input, Err(None))
                    && yields_on_clone(ps.3, input, Err(None))
                    && yields_on_clone(ps.4, input, Err(None))
                    && yields_on_clone(ps.5, input, Err(None))
                    && yields_on_clone(ps.6, input, Err(None))
                    && yields_on_clone(ps.7, input, Err(None))
                    && yields_on_clone(ps.8, input, Err(None))
                    && yields_on_clone(ps.9, input, Err(None))
                    && yields_on_clone(ps.10, input, Err(None))
                    && yields_on_clone(ps.11, input, res)
                ||| yields_on_clone(ps.0, input, Err(None))
                    && yields_on_clone(ps.1, input, Err(None))
                    && yields_on_clone(ps.2, input, Err(None))
                    && yields_on_clone(ps.3, input, Err(None))
                    && yields_on_clone(ps.4, input, Err(None))
                    && yields_on_clone(ps.5, input, Err(None))
                    && yields_on_clone(ps.6, input, Err(None))
                    && yields_on_clone(ps.7, input, Err(None))
                    && yields_on_clone(ps.8, input, Err(None))
                    && yields_on_clone(ps.9, input, Err(None))
                    && yields_on_clone(ps.10, input, Err(None))
                    && yields_on_clone(ps.11, input, Err(None))
                    && yields_on_clone(ps.12, input, res)
                ||| yields_on_clone(ps.0, input, Err(None))
                    && yields_on_clone(ps.1, input, Err(None))
                    && yields_on_clone(ps.2, input, Err(None))
                    && yields_on_clone(ps.3, input, Err(None))
                    && yields_on_clone(ps.4, input, Err(None))
                    && yields_on_clone(ps.5, input, Err(None))
                    && yields_on_clone(ps.6, input, Err(None))
                    && yields_on_clone(ps.7, input, Err(None))
                    && yields_on_clone(ps.8, input, Err(None))
                    && yields_on_clone(ps.9, input, Err(None))
                    && yields_on_clone(ps.10, input, Err(None))
                    && yields_on_clone(ps.11, input, Err(None))
                    && yields_on_clone(ps.12, input, Err(None))
                    && yields_on_clone(ps.13, input, res)
                ||| yields_on_clone(ps.0, input, Err(None))
                    && yields_on_clone(ps.1, input, Err(None))
                    && yields_on_clone(ps.2, input, Err(None))
                    && yields_on_clone(ps.3, input, Err(None))
                    && yields_on_clone(ps.4, input, Err(None))
                    && yields_on_clone(ps.5, input, Err(None))
                    && yields_on_clone(ps.6, input, Err(None))
                    && yields_on_clone(ps.7, input, Err(None))
                    && yields_on_clone(ps.8, input, Err(None))
                    && yields_on_clone(ps.9, input, Err(None))
                    && yields_on_clone(ps.10, input, Err(None))
                    && yields_on_clone(ps.11, input, Err(None))
                    && yields_on_clone(ps.12, input, Err(None))
                    && yields_on_clone(ps.13, input, Err(None))
                    && yields_on_clone(ps.14, input, res)
                ||| yields_on_clone(ps.0, input, Err(None))
                    && yields_on_clone(ps.1, input, Err(None))
                    && yields_on_clone(ps.2, input, Err(None))
                    && yields_on_clone(ps.3, input, Err(None))
                    && yields_on_clone(ps.4, input, Err(None))
                    && yields_on_clone(ps.5, input, Err(None))
                    && yields_on_clone(ps.6, input, Err(None))
                    && yields_on_clone(ps.7, input, Err(None))
                    && yields_on_clone(ps.8, input, Err(None))
                    && yields_on_clone(ps.9, input, Err(None))
                    && yields_on_clone(ps.10, input, Err(None))
                    && yields_on_clone(ps.11, input, Err(None))
                    && yields_on_clone(ps.12, input, Err(None))
                    && yields_on_clone(ps.13, input, Err(None))
                    && yields_on_clone(ps.14, input, Err(None))
                    && yields_on_clone(ps.15, input, res)
                ||| yields_on_clone(ps.0, input, Err(None))
                    && yields_on_clone(ps.1, input, Err(None))
                    && yields_on_clone(ps.2, input, Err(None))
                    && yields_on_clone(ps.3, input, Err(None))
                    && yields_on_clone(ps.4, input, Err(None))
                    && yields_on_clone(ps.5, input, Err(None))
                    && yields_on_clone(ps.6, input, Err(None))
                    && yields_on_clone(ps.7, input, Err(None))
                    && yields_on_clone(ps.8, input, Err(None))
                    && yields_on_clone(ps.9, input, Err(None))
                    && yields_on_clone(ps.10, input, Err(None))
                    && yields_on_clone(ps.11, input, Err(None))
                    && yields_on_clone(ps.12, input, Err(None))
                    && yields_on_clone(ps.13, input, Err(None))
                    && yields_on_clone(ps.14, input, Err(None))
                    && yields_on_clone(ps.15, input, Err(None))
                    && yields_on_clone(ps.16, input, res)
                ||| yields_on_clone(ps.0, input, Err(None))
                    && yields_on_clone(ps.1, input, Err(None))
                    && yields_on_clone(ps.2, input, Err(None))
                    && yields_on_clone(ps.3, input, Err(None))
                    && yields_on_clone(ps.4, input, Err(None))
                    && yields_on_clone(ps.5, input, Err(None))
                    && yields_on_clone(ps.6, input, Err(None))
                    && yields_on_clone(ps.7, input, Err(None))
                    && yields_on_clone(ps.8, input, Err(None))
                    && yields_on_clone(ps.9, input, Err(None))
                    && yields_on_clone(ps.10, input, Err(None))
                    && yields_on_clone(ps.11, input, Err(None))
                    && yields_on_clone(ps.12, input, Err(None))
                    && yields_on_clone(ps.13, input, Err(None))
                    && yields_on_clone(ps.14, input, Err(None))
                    && yields_on_clone(ps.15, input, Err(None))
                    && yields_on_clone(ps.16, input, Err(None))
                    && yields_on_clone(ps.17, input, res)
                ||| yields_on_clone(ps.0, input, Err(None))
                    && yields_on_clone(ps.1, input, Err(None))
                    && yields_on_clone(ps.2, input, Err(None))
                    && yields_on_clone(ps.3, input, Err(None))
                    && yields_on_clone(ps.4, input, Err(None))
                    && yields_on_clone(ps.5, input, Err(None))
                    && yields_on_clone(ps.6, input, Err(None))
                    && yields_on_clone(ps.7, input, Err(None))
                    && yields_on_clone(ps.8, input, Err(None))
                    && yields_on_clone(ps.9, input, Err(None))
                    && yields_on_clone(ps.10, input, Err(None))
                    && yields_on_clone(ps.11, input, Err(None))
                    && yields_on_clone(ps.12, input, Err(None))
                    && yields_on_clone(ps.13, input, Err(None))
                    && yields_on_clone(ps.14, input, Err(None))
                    && yields_on_clone(ps.15, input, Err(None))
                    && yields_on_clone(ps.16, input, Err(None))
                    && yields_on_clone(ps.17, input, Err(None))
                    && yields_on_clone(ps.18, input, res)
                ||| yields_on_clone(ps.0, input, Err(None))
                    && yields_on_clone(ps.1, input, Err(None))
                    && yields_on_clone(ps.2, input, Err(None))
                    && yields_on_clone(ps.3, input, Err(None))
                    && yields_on_clone(ps.4, input, Err(None))
                    && yields_on_clone(ps.5, input, Err(None))
                    && yields_on_clone(ps.6, input, Err(None))
                    && yields_on_clone(ps.7, input, Err(None))
                    && yields_on_clone(ps.8, input, Err(None))
                    && yields_on_clone(ps.9, input, Err(None))
                    && yields_on_clone(ps.10, input, Err(None))
                    && yields_on_clone(ps.11, input, Err(None))
                    && yields_on_clone(ps.12, input, Err(None))
                    && yields_on_clone(ps.13, input, Err(None))
                    && yields_on_clone(ps.14, input, Err(None))
                    && yields_on_clone(ps.15, input, Err(None))
                    && yields_on_clone(ps.16, input, Err(None))
                    && yields_on_clone(ps.17, input, Err(None))
                    && yields_on_clone(ps.18, input, Err(None))
                    && yields_on_clone(ps.19, input, res)
                ||| yields_on_clone(ps.0, input, Err(None))
                    && yields_on_clone(ps.1, input, Err(None))
                    && yields_on_clone(ps.2, input, Err(None))
                    && yields_on_clone(ps.3, input, Err(None))
                    && yields_on_clone(ps.4, input, Err(None))
                    && yields_on_clone(ps.5, input, Err(None))
                    && yields_on_clone(ps.6, input, Err(None))
                    && yields_on_clone(ps.7, input, Err(None))
                    && yields_on_clone(ps.8, input, Err(None))
                    && yields_on_clone(ps.9, input, Err(None))
                    && yields_on_clone(ps.10, input, Err(None))
                    && yields_on_clone(ps.11, input, Err(None))
                    && yields_on_clone(ps.12, input, Err(None))
                    && yields_on_clone(ps.13, input, Err(None))
                    && yields_on_clone(ps.14, input, Err(None))
                    && yields_on_clone(ps.15, input, Err(None))
                    && yields_on_clone(ps.16, input, Err(None))
                    && yields_on_clone(ps.17, input, Err(None))
                    && yields_on_clone(ps.18, input, Err(None))
                    && yields_on_clone(ps.19, input, Err(None))
                    && yields_on_clone(ps.20, input, res)
                ||| yields_on_clone(ps.0, input, Err(None))
                    && yields_on_clone(ps.1, input, Err(None))
                    && yields_on_clone(ps.2, input, Err(None))
                    && yields_on_clone(ps.3, input, Err(None))
                    && yields_on_clone(ps.4, input, Err(None))
                    && yields_on_clone(ps.5, input, Err(None))
                    && yields_on_clone(ps.6, input, Err(None))
                    && yields_on_clone(ps.7, input, Err(None))
                    && yields_on_clone(ps.8, input, Err(None))
                    && yields_on_clone(ps.9, input, Err(None))
                    && yields_on_clone(ps.10, input, Err(None))
                    && yields_on_clone(ps.11, input, Err(None))
                    && yields_on_clone(ps.12, input, Err(None))
                    && yields_on_clone(ps.13, input, Err(None))
                    && yields_on_clone(ps.14, input, Err(None))
                    && yields_on_clone(ps.15, input, Err(None))
                    && yields_on_clone(ps.16, input, Err(None))
                    && yields_on_clone(ps.17, input, Err(None))
                    && yields_on_clone(ps.18, input, Err(None))
                    && yields_on_clone(ps.19, input, Err(None))
                    && yields_on_clone(ps.20, input, Err(None))
                    && yields_on_clone(ps.21, input, res)
            },
        }
    }

    fn parse(&self, txt: IN) -> (res: Result<(OUT, IN), Option<ER>>) {
        let c0 = txt.clone();
        let r0 = self.ps.0.parse(c0);
        assert(yields_on_clone(self.ps.0, txt, r0));
        match r0 {
            Err(None) => {},
            _ => return r0,
        }
        let c1 = txt.clone();
        let r1 = self.ps.1.parse(c1);
        assert(yields_on_clone(self.ps.1, txt, r1));
        match r1 {
            Err(None) => {},
            _ => return r1,
        }
        let c2 = txt.clone();
        let r2 = self.ps.2.parse(c2);
        assert(yields_on_clone(self.ps.2, txt, r2));
        match r2 {
            Err(None) => {},
            _ => return r2,
        }
        let c3 = txt.clone();
        let r3 = self.ps.3.parse(c3);
        assert(yields_on_clone(self.ps.3, txt, r3));
        match r3 {
            Err(None) => {},
            _ => return r3,
        }
        let c4 = txt.clone();
        let r4 = self.ps.4.parse(c4);
        assert(yields_on_clone(self.ps.4, txt, r4));
        match r4 {
            Err(None) => {},
            _ => return r4,
        }
        let c5 = txt.clone();
        let r5 = self.ps.5.parse(c5);
        assert(yields_on_clone(self.ps.5, txt, r5));
        match r5 {
            Err(None) => {},
            _ => return r5,
        }
        let c6 = txt.clone();
        let r6 = self.ps.6.parse(c6);
        assert(yields_on_clone(self.ps.6, txt, r6));
        match r6 {
            Err(None) => {},
            _ => return r6,
        }
        let c7 = txt.clone();
        let r7 = self.ps.7.parse(c7);
        assert(yields_on_clone(self.ps.7, txt, r7));
        match r7 {
            Err(None) => {},
            _ => return r7,
        }
        let c8 = txt.clone();
        let r8 = self.ps.8.parse(c8);
        assert(yields_on_clone(self.ps.8, txt, r8));
        match r8 {
            Err(None) => {},
            _ => return r8,
        }
        let c9 = txt.clone();
        let r9 = self.ps.9.parse(c9);
        assert(yields_on_clone(self.ps.9, txt, r9));
        match r9 {
            Err(None) => {},
            _ => return r9,
        }
        let c10 = txt.clone();
        let r10 = self.ps.10.parse(c10);
        assert(yields_on_clone(self.ps.10, txt, r10));
        match r10 {
            Err(None) => {},
            _ => return r10,
        }
        let c11 = txt.clone();
        let r11 = self.ps.11.parse(c11);
        assert(yields_on_clone(self.ps.11, txt, r11));
        match r11 {
            Err(None) => {},
            _ => return r11,
        }
        let c12 = txt.clone();
        let r12 = self.ps.12.parse(c12);
        assert(yields_on_clone(self.ps.12, txt, r12));
        match r12 {
            Err(None) => {},
            _ => return r12,
        }
        let c13 = txt.clone();
        let r13 = self.ps.13.parse(c13);
        assert(yields_on_clone(self.ps.13, txt, r13));
        match r13 {
            Err(None) => {},
            _ => return r13,
        }
        let c14 = txt.clone();
        let r14 = self.ps.14.parse(c14);
        assert(yields_on_clone(self.ps.14, txt, r14));
        match r14 {
            Err(None) => {},
            _ => return r14,
        }
        let c15 = txt.clone();
        let r15 = self.ps.15.parse(c15);
        assert(yields_on_clone(self.ps.15, txt, r15));
        match r15 {
            Err(None) => {},
            _ => return r15,
        }
        let c16 = txt.clone();
        let r16 = self.ps.16.parse(c16);
        assert(yields_on_clone(self.ps.16, txt, r16));
        match r16 {
            Err(None) => {},
            _ => return r16,
        }
        let c17 = txt.clone();
        let r17 = self.ps.17.parse(c17);
        assert(yields_on_clone(self.ps.17, txt, r17));
        match r17 {
            Err(None) => {},
            _ => return r17,
        }
        let c18 = txt.clone();
        let r18 = self.ps.18.parse(c18);
        assert(yields_on_clone(self.ps.18, txt, r18));
        match r18 {
            Err(None) => {},
            _ => return r18,
        }
        let c19 = txt.clone();
        let r19 = self.ps.19.parse(c19);
        assert(yields_on_clone(self.ps.19, txt, r19));
        match r19 {
            Err(None) => {},
            _ => return r19,
        }
        let c20 = txt.clone();
        let r20 = self.ps.20.parse(c20);
        assert(yields_on_clone(self.ps.20, txt, r20));
        match r20 {
            Err(None) => {},
            _ => return r20,
        }
        let c21 = txt.clone();
        let r21 = self.ps.21.parse(c21);
        assert(yields_on_clone(self.ps.21, txt, r21));
        match r21 {
            Err(None) => {},
            _ => return r21,
        }
        Err(None)
    }
}

/// Over inputs whose clones are equal, a branch of 22 deterministic
/// segments is deterministic.
pub proof fn lemma_branch22_deterministic<IN: Clone, OUT, ER, A, B, C, D, E, F, G, H, I, J, K, L, M, N, O, P, Q, R, S, T, U, V>(b: Branch<IN, ER, (A, B, C, D, E, F, G, H, I, J, K, L, M, N, O, P, Q, R, S, T, U, V)>)
    where
        A: Parser<IN, Out = OUT, Error = Option<ER>>,
        B: Parser<IN, Out = OUT, Error = Option<ER>>,
        C: Parser<IN, Out = OUT, Error = Option<ER>>,
        D: Parser<IN, Out = OUT, Error = Option<ER>>,
        E: Parser<IN, Out = OUT, Error = Option<ER>>,
        F: Parser<IN, Out = OUT, Error = Option<ER>>,
        G: Parser<IN, Out = OUT, Error = Option<ER>>,
        H: Parser<IN, Out = OUT, Error = Option<ER>>,
        I: Parser<IN, Out = OUT, Error = Option<ER>>,
        J: Parser<IN, Out = OUT, Error = Option<ER>>,
        K: Parser<IN, Out = OUT, Error = Option<ER>>,
        L: Parser<IN, Out = OUT, Error = Option<ER>>,
        M: Parser<IN, Out = OUT, Error = Option<ER>>,
        N: Parser<IN, Out = OUT, Error = Option<ER>>,
        O: Parser<IN, Out = OUT, Error = Option<ER>>,
        P: Parser<IN, Out = OUT, Error = Option<ER>>,
        Q: Parser<IN, Out = OUT, Error = Option<ER>>,
        R: Parser<IN, Out = OUT, Error = Option<ER>>,
        S: Parser<IN, Out = OUT, Error = Option<ER>>,
        T: Parser<IN, Out = OUT, Error = Option<ER>>,
        U: Parser<IN, Out = OUT, Error = Option<ER>>,
        V: Parser<IN, Out = OUT, Error = Option<ER>>,
    requires
        clones_are_equal::<IN>(),
        deterministic::<IN, A>(b.segments().0),
        deterministic::<IN, B>(b.segments().1),
        deterministic::<IN, C>(b.segments().2),
        deterministic::<IN, D>(b.segments().3),
        deterministic::<IN, E>(b.segments().4),
        deterministic::<IN, F>(b.segments().5),
        deterministic::<IN, G>(b.segments().6),
        deterministic::<IN, H>(b.segments().7),
        deterministic::<IN, I>(b.segments().8),
        deterministic::<IN, J>(b.segments().9),
        deterministic::<IN, K>(b.segments().10),
        deterministic::<IN, L>(b.segments().11),
        deterministic::<IN, M>(b.segments().12),
        deterministic::<IN, N>(b.segments().13),
        deterministic::<IN, O>(b.segments().14),
        deterministic::<IN, P>(b.segments().15),
        deterministic::<IN, Q>(b.segments().16),
        deterministic::<IN, R>(b.segments().17),
        deterministic::<IN, S>(b.segments().18),
        deterministic::<IN, T>(b.segments().19),
        deterministic::<IN, U>(b.segments().20),
        deterministic::<IN, V>(b.segments().21),
    ensures
        deterministic::<IN, Branch<IN, ER, (A, B, C, D, E, F, G, H, I, J, K, L, M, N, O, P, Q, R, S, T, U, V)>>(b),
{
    lemma_clones_are_transparent::<IN, A>(b.segments().0);
    lemma_clones_are_transparent::<IN, B>(b.segments().1);
    lemma_clones_are_transparent::<IN, C>(b.segments().2);
    lemma_clones_are_transparent::<IN, D>(b.segments().3);
    lemma_clones_are_transparent::<IN, E>(b.segments().4);
    lemma_clones_are_transparent::<IN, F>(b.segments().5);
    lemma_clones_are_transparent::<IN, G>(b.segments().6);
    lemma_clones_are_transparent::<IN, H>(b.segments().7);
    lemma_clones_are_transparent::<IN, I>(b.segments().8);
    lemma_clones_are_transparent::<IN, J>(b.segments().9);
    lemma_clones_are_transparent::<IN, K>(b.segments().10);
    lemma_clones_are_transparent::<IN, L>(b.segments().11);
    lemma_clones_are_transparent::<IN, M>(b.segments().12);
    lemma_clones_are_transparent::<IN, N>(b.segments().13);
    lemma_clones_are_transparent::<IN, O>(b.segments().14);
    lemma_clones_are_transparent::<IN, P>(b.segments().15);
    lemma_clones_are_transparent::<IN, Q>(b.segments().16);
    lemma_clones_are_transparent::<IN, R>(b.segments().17);
    lemma_clones_are_transparent::<IN, S>(b.segments().18);
    lemma_clones_are_transparent::<IN, T>(b.segments().19);
    lemma_clones_are_transparent::<IN, U>(b.segments().20);
    lemma_clones_are_transparent::<IN, V>(b.segments().21);
}

impl<IN: Clone, OUT, ER, A, B, C, D, E, F, G, H, I, J, K, L, M, N, O, P, Q, R, S, T, U, V, W> From<(A, B, C, D, E, F, G, H, I, J, K, L, M, N, O, P, Q, R, S, T, U, V, W)> for Branch<IN, ER, (A, B, C, D, E, F, G, H, I, J, K, L, M, N, O, P, Q, R, S, T, U, V, W)> where
    A: Parser<IN, Out = OUT, Error = Option<ER>>,
    B: Parser<IN, Out = OUT, Error = Option<ER>>,
    C: Parser<IN, Out = OUT, Error = Option<ER>>,
    D: Parser<IN, Out = OUT, Error = Option<ER>>,
    E: Parser<IN, Out = OUT, Error = Option<ER>>,
    F: Parser<IN, Out = OUT, Error = Option<ER>>,
    G: Parser<IN, Out = OUT, Error = Option<ER>>,
    H: Parser<IN, Out = OUT, Error = Option<ER>>,
    I: Parser<IN, Out = OUT, Error = Option<ER>>,
    J: Parser<IN, Out = OUT, Error = Option<ER>>,
    K: Parser<IN, Out = OUT, Error = Option<ER>>,
    L: Parser<IN, Out = OUT, Error = Option<ER>>,
    M: Parser<IN, Out = OUT, Error = Option<ER>>,
    N: Parser<IN, Out = OUT, Error = Option<ER>>,
    O: Parser<IN, Out = OUT, Error = Option<ER>>,
    P: Parser<IN, Out = OUT, Error = Option<ER>>,
    Q: Parser<IN, Out = OUT, Error = Option<ER>>,
    R: Parser<IN, Out = OUT, Error = Option<ER>>,
    S: Parser<IN, Out = OUT, Error = Option<ER>>,
    T: Parser<IN, Out = OUT, Error = Option<ER>>,
    U: Parser<IN, Out = OUT, Error = Option<ER>>,
    V: Parser<IN, Out = OUT, Error = Option<ER>>,
    W: Parser<IN, Out = OUT, Error = Option<ER>>,
 {
    fn from(ps: (A, B, C, D, E, F, G, H, I, J, K, L, M, N, O, P, Q, R, S, T, U, V, W)) -> (r: Self) {
        let r = Self { ps, _ghost: PhantomData };
        proof {
            lemma_branch_determined_by_segments(r, ps);
        }
        r
    }
}

impl<IN: Clone, OUT, ER, A, B, C, D, E, F, G, H, I, J, K, L, M, N, O, P, Q, R, S, T, U, V, W> FromSpecImpl<(A, B, C, D, E, F, G, H, I, J, K, L, M, N, O, P, Q, R, S, T, U, V, W)> for Branch<IN, ER, (A, B, C, D, E, F, G, H, I, J, K, L, M, N, O, P, Q, R, S, T, U, V, W)> where
    A: Parser<IN, Out = OUT, Error = Option<ER>>,
    B: Parser<IN, Out = OUT, Error = Option<ER>>,
    C: Parser<IN, Out = OUT, Error = Option<ER>>,
    D: Parser<IN, Out = OUT, Error = Option<ER>>,
    E: Parser<IN, Out = OUT, Error = Option<ER>>,
    F: Parser<IN, Out = OUT, Error = Option<ER>>,
    G: Parser<IN, Out = OUT, Error = Option<ER>>,
    H: Parser<IN, Out = OUT, Error = Option<ER>>,
    I: Parser<IN, Out = OUT, Error = Option<ER>>,
    J: Parser<IN, Out = OUT, Error = Option<ER>>,
    K: Parser<IN, Out = OUT, Error = Option<ER>>,
    L: Parser<IN, Out = OUT, Error = Option<ER>>,
    M: Parser<IN, Out = OUT, Error = Option<ER>>,
    N: Parser<IN, Out = OUT, Error = Option<ER>>,
    O: Parser<IN, Out = OUT, Error = Option<ER>>,
    P: Parser<IN, Out = OUT, Error = Option<ER>>,
    Q: Parser<IN, Out = OUT, Error = Option<ER>>,
    R: Parser<IN, Out = OUT, Error = Option<ER>>,
    S: Parser<IN, Out = OUT, Error = Option<ER>>,
    T: Parser<IN, Out = OUT, Error = Option<ER>>,
    U: Parser<IN, Out = OUT, Error = Option<ER>>,
    V: Parser<IN, Out = OUT, Error = Option<ER>>,
    W: Parser<IN, Out = OUT, Error = Option<ER>>,
 {
    open spec fn obeys_from_spec() -> bool {
        true
    }

    open spec fn from_spec(ps: (A, B, C, D, E, F, G, H, I, J, K, L, M, N, O, P, Q, R, S, T, U, V, W)) -> Self {
        choose|b: Self| b.segments() == ps
    }
}

/// A branch between 23 segments with one output type.
impl<IN: Clone, OUT, ER, A, B, C, D, E, F, G, H, I, J, K, L, M, N, O, P, Q, R, S, T, U, V, W> Parser<IN> for Branch<IN, ER, (A, B, C, D, E, F, G, H, I, J, K, L, M, N, O, P, Q, R, S, T, U, V, W)> where
    A: Parser<IN, Out = OUT, Error = Option<ER>>,
    B: Parser<IN, Out = OUT, Error = Option<ER>>,
    C: Parser<IN, Out = OUT, Error = Option<ER>>,
    D: Parser<IN, Out = OUT, Error = Option<ER>>,
    E: Parser<IN, Out = OUT, Error = Option<ER>>,
    F: Parser<IN, Out = OUT, Error = Option<ER>>,
    G: Parser<IN, Out = OUT, Error = Option<ER>>,
    H: Parser<IN, Out = OUT, Error = Option<ER>>,
    I: Parser<IN, Out = OUT, Error = Option<ER>>,
    J: Parser<IN, Out = OUT, Error = Option<ER>>,
    K: Parser<IN, Out = OUT, Error = Option<ER>>,
    L: Parser<IN, Out = OUT, Error = Option<ER>>,
    M: Parser<IN, Out = OUT, Error = Option<ER>>,
    N: Parser<IN, Out = OUT, Error = Option<ER>>,
    O: Parser<IN, Out = OUT, Error = Option<ER>>,
    P: Parser<IN, Out = OUT, Error = Option<ER>>,
    Q: Parser<IN, Out = OUT, Error = Option<ER>>,
    R: Parser<IN, Out = OUT, Error = Option<ER>>,
    S: Parser<IN, Out = OUT, Error = Option<ER>>,
    T: Parser<IN, Out = OUT, Error = Option<ER>>,
    U: Parser<IN, Out = OUT, Error = Option<ER>>,
    V: Parser<IN, Out = OUT, Error = Option<ER>>,
    W: Parser<IN, Out = OUT, Error = Option<ER>>,
 {
    type Out = OUT;

    type Error = Option<ER>;

    open spec fn parse_requires(&self, input: IN) -> bool {
        let ps = self.segments();
        &&& accepts_clones(ps.0, input)
        &&& yields_on_clone(ps.0, input, Err(None))
            ==> accepts_clones(ps.1, input)
        &&& yields_on_clone(ps.0, input, Err(None))
            && yields_on_clone(ps.1, input, Err(None))
            ==> accepts_clones(ps.2, input)
        &&& yields_on_clone(ps.0, input, Err(None))
            && yields_on_clone(ps.1, input, Err(None))
            && yields_on_clone(ps.2, input, Err(None))
            ==> accepts_clones(ps.3, input)
        &&& yields_on_clone(ps.0, input, Err(None))
            && yields_on_clone(ps.1, input, Err(None))
            && yields_on_clone(ps.2, input, Err(None))
            && yields_on_clone(ps.3, input, Err(None))
            ==> accepts_clones(ps.4, input)
        &&& yields_on_clone(ps.0, input, Err(None))
            && yields_on_clone(ps.1, input, Err(None))
            && yields_on_clone(ps.2, input, Err(None))
            && yields_on_clone(ps.3, input, Err(None))
            && yields_on_clone(ps.4, input, Err(None))
            ==> accepts_clones(ps.5, input)
        &&& yields_on_clone(ps.0, input, Err(None))
            && yields_on_clone(ps.1, input, Err(None))
            && yields_on_clone(ps.2, input, Err(None))
            && yields_on_clone(ps.3, input, Err(None))
            && yields_on_clone(ps.4, input, Err(None))
            && yields_on_clone(ps.5, input, Err(None))
            ==> accepts_clones(ps.6, input)
        &&& yields_on_clone(ps.0, input, Err(None))
            && yields_on_clone(ps.1, input, Err(None))
            && yields_on_clone(ps.2, input, Err(None))
            && yields_on_clone(ps.3, input, Err(None))
            && yields_on_clone(ps.4, input, Err(None))
            && yields_on_clone(ps.5, input, Err(None))
            && yields_on_clone(ps.6, input, Err(None))
            ==> accepts_clones(ps.7, input)
        &&& yields_on_clone(ps.0, input, Err(None))
            && yields_on_clone(ps.1, input, Err(None))
            && yields_on_clone(ps.2, input, Err(None))
            && yields_on_clone(ps.3, input, Err(None))
            && yields_on_clone(ps.4, input, Err(None))
            && yields_on_clone(ps.5, input, Err(None))
            && yields_on_clone(ps.6, input, Err(None))
            && yields_on_clone(ps.7, input, Err(None))
            ==> accepts_clones(ps.8, input)
        &&& yields_on_clone(ps.0, input, Err(None))
            && yields_on_clone(ps.1, input, Err(None))
            && yields_on_clone(ps.2, input, Err(None))
            && yields_on_clone(ps.3, input, Err(None))
            && yields_on_clone(ps.4, input, Err(None))
            && yields_on_clone(ps.5, input, Err(None))
            && yields_on_clone(ps.6, input, Err(None))
            && yields_on_clone(ps.7, input, Err(None))
            && yields_on_clone(ps.8, input, Err(None))
            ==> accepts_clones(ps.9, input)
        &&& yields_on_clone(ps.0, input, Err(None))
            && yields_on_clone(ps.1, input, Err(None))
            && yields_on_clone(ps.2, input, Err(None))
            && yields_on_clone(ps.3, input, Err(None))
            && yields_on_clone(ps.4, input, Err(None))
            && yields_on_clone(ps.5, input, Err(None))
            && yields_on_clone(ps.6, input, Err(None))
            && yields_on_clone(ps.7, input, Err(None))
            && yields_on_clone(ps.8, input, Err(None))
            && yields_on_clone(ps.9, input, Err(None))
            ==> accepts_clones(ps.10, input)
        &&& yields_on_clone(ps.0, input, Err(None))
            && yields_on_clone(ps.1, input, Err(None))
            && yields_on_clone(ps.2, input, Err(None))
            && yields_on_clone(ps.3, input, Err(None))
            && yields_on_clone(ps.4, input, Err(None))
            && yields_on_clone(ps.5, input, Err(None))
            && yields_on_clone(ps.6, input, Err(None))
            && yields_on_clone(ps.7, input, Err(None))
            && yields_on_clone(ps.8, input, Err(None))
            && yields_on_clone(ps.9, input, Err(None))
            && yields_on_clone(ps.10, input, Err(None))
            ==> accepts_clones(ps.11, input)
        &&& yields_on_clone(ps.0, input, Err(None))
            && yields_on_clone(ps.1, input, Err(None))
            && yields_on_clone(ps.2, input, Err(None))
            && yields_on_clone(ps.3, input, Err(None))
            && yields_on_clone(ps.4, input, Err(None))
            && yields_on_clone(ps.5, input, Err(None))
            && yields_on_clone(ps.6, input, Err(None))
            && yields_on_clone(ps.7, input, Err(None))
            && yields_on_clone(ps.8, input, Err(None))
            && yields_on_clone(ps.9, input, Err(None))
            && yields_on_clone(ps.10, input, Err(None))
            && yields_on_clone(ps.11, input, Err(None))
            ==> accepts_clones(ps.12, input)
        &&& yields_on_clone(ps.0, input, Err(None))
            && yields_on_clone(ps.1, input, Err(None))
            && yields_on_clone(ps.2, input, Err(None))
            && yields_on_clone(ps.3, input, Err(None))
            && yields_on_clone(ps.4, input, Err(None))
            && yields_on_clone(ps.5, input, Err(None))
            && yields_on_clone(ps.6, input, Err(None))
            && yields_on_clone(ps.7, input, Err(None))
            && yields_on_clone(ps.8, input, Err(None))
            && yields_on_clone(ps.9, input, Err(None))
            && yields_on_clone(ps.10, input, Err(None))
            && yields_on_clone(ps.11, input, Err(None))
            && yields_on_clone(ps.12, input, Err(None))
            ==> accepts_clones(ps.13, input)
        &&& yields_on_clone(ps.0, input, Err(None))
            && yields_on_clone(ps.1, input, Err(None))
            && yields_on_clone(ps.2, input, Err(None))
            && yields_on_clone(ps.3, input, Err(None))
            && yields_on_clone(ps.4, input, Err(None))
            && yields_on_clone(ps.5, input, Err(None))
            && yields_on_clone(ps.6, input, Err(None))
            && yields_on_clone(ps.7, input, Err(None))
            && yields_on_clone(ps.8, input, Err(None))
            && yields_on_clone(ps.9, input, Err(None))
            && yields_on_clone(ps.10, input, Err(None))
            && yields_on_clone(ps.11, input, Err(None))
            && yields_on_clone(ps.12, input, Err(None))
            && yields_on_clone(ps.13, input, Err(None))
            ==> accepts_clones(ps.14, input)
        &&& yields_on_clone(ps.0, input, Err(None))
            && yields_on_clone(ps.1, input, Err(None))
            && yields_on_clone(ps.2, input, Err(None))
            && yields_on_clone(ps.3, input, Err(None))
            && yields_on_clone(ps.4, input, Err(None))
            && yields_on_clone(ps.5, input, Err(None))
            && yields_on_clone(ps.6, input, Err(None))
            && yields_on_clone(ps.7, input, Err(None))
            && yields_on_clone(ps.8, input, Err(None))
            && yields_on_clone(ps.9, input, Err(None))
            && yields_on_clone(ps.10, input, Err(None))
            && yields_on_clone(ps.11, input, Err(None))
            && yields_on_clone(ps.12, input, Err(None))
            && yields_on_clone(ps.13, input, Err(None))
            && yields_on_clone(ps.14, input, Err(None))
            ==> accepts_clones(ps.15, input)
        &&& yields_on_clone(ps.0, input, Err(None))
            && yields_on_clone(ps.1, input, Err(None))
            && yields_on_clone(ps.2, input, Err(None))
            && yields_on_clone(ps.3, input, Err(None))
            && yields_on_clone(ps.4, input, Err(None))
            && yields_on_clone(ps.5, input, Err(None))
            && yields_on_clone(ps.6, input, Err(None))
            && yields_on_clone(ps.7, input, Err(None))
            && yields_on_clone(ps.8, input, Err(None))
            && yields_on_clone(ps.9, input, Err(None))
            && yields_on_clone(ps.10, input, Err(None))
            && yields_on_clone(ps.11, input, Err(None))
            && yields_on_clone(ps.12, input, Err(None))
            && yields_on_clone(ps.13, input, Err(None))
            && yields_on_clone(ps.14, input, Err(None))
            && yields_on_clone(ps.15, input, Err(None))
            ==> accepts_clones(ps.16, input)
        &&& yields_on_clone(ps.0, input, Err(None))
            && yields_on_clone(ps.1, input, Err(None))
            && yields_on_clone(ps.2, input, Err(None))
            && yields_on_clone(ps.3, input, Err(None))
            && yields_on_clone(ps.4, input, Err(None))
            && yields_on_clone(ps.5, input, Err(None))
            && yields_on_clone(ps.6, input, Err(None))
            && yields_on_clone(ps.7, input, Err(None))
            && yields_on_clone(ps.8, input, Err(None))
            && yields_on_clone(ps.9, input, Err(None))
            && yields_on_clone(ps.10, input, Err(None))
            && yields_on_clone(ps.11, input, Err(None))
            && yields_on_clone(ps.12, input, Err(None))
            && yields_on_clone(ps.13, input, Err(None))
            && yields_on_clone(ps.14, input, Err(None))
            && yields_on_clone(ps.15, input, Err(None))
            && yields_on_clone(ps.16, input, Err(None))
            ==> accepts_clones(ps.17, input)
        &&& yields_on_clone(ps.0, input, Err(None))
            && yields_on_clone(ps.1, input, Err(None))
            && yields_on_clone(ps.2, input, Err(None))
            && yields_on_clone(ps.3, input, Err(None))
            && yields_on_clone(ps.4, input, Err(None))
            && yields_on_clone(ps.5, input, Err(None))
            && yields_on_clone(ps.6, input, Err(None))
            && yields_on_clone(ps.7, input, Err(None))
            && yields_on_clone(ps.8, input, Err(None))
            && yields_on_clone(ps.9, input, Err(None))
            && yields_on_clone(ps.10, input, Err(None))
            && yields_on_clone(ps.11, input, Err(None))
            && yields_on_clone(ps.12, input, Err(None))
            && yields_on_clone(ps.13, input, Err(None))
            && yields_on_clone(ps.14, input, Err(None))
            && yields_on_clone(ps.15, input, Err(None))
            && yields_on_clone(ps.16, input, Err(None))
            && yields_on_clone(ps.17, input, Err(None))
            ==> accepts_clones(ps.18, input)
        &&& yields_on_clone(ps.0, input, Err(None))
            && yields_on_clone(ps.1, input, Err(None))
            && yields_on_clone(ps.2, input, Err(None))
            && yields_on_clone(ps.3, input, Err(None))
            && yields_on_clone(ps.4, input, Err(None))
            && yields_on_clone(ps.5, input, Err(None))
            && yields_on_clone(ps.6, input, Err(None))
            && yields_on_clone(ps.7, input, Err(None))
            && yields_on_clone(ps.8, input, Err(None))
            && yields_on_clone(ps.9, input, Err(None))
            && yields_on_clone(ps.10, input, Err(None))
            && yields_on_clone(ps.11, input, Err(None))
            && yields_on_clone(ps.12, input, Err(None))
            && yields_on_clone(ps.13, input, Err(None))
            && yields_on_clone(ps.14, input, Err(None))
            && yields_on_clone(ps.15, input, Err(None))
            && yields_on_clone(ps.16, input, Err(None))
            && yields_on_clone(ps.17, input, Err(None))
            && yields_on_clone(ps.18, input, Err(None))
            ==> accepts_clones(ps.19, input)
        &&& yields_on_clone(ps.0, input, Err(None))
            && yields_on_clone(ps.1, input, Err(None))
            && yields_on_clone(ps.2, input, Err(None))
            && yields_on_clone(ps.3, input, Err(None))
            && yields_on_clone(ps.4, input, Err(None))
            && yields_on_clone(ps.5, input, Err(None))
            && yields_on_clone(ps.6, input, Err(None))
            && yields_on_clone(ps.7, input, Err(None))
            && yields_on_clone(ps.8, input, Err(None))
            && yields_on_clone(ps.9, input, Err(None))
            && yields_on_clone(ps.10, input, Err(None))
            && yields_on_clone(ps.11, input, Err(None))
            && yields_on_clone(ps.12, input, Err(None))
            && yields_on_clone(ps.13, input, Err(None))
            && yields_on_clone(ps.14, input, Err(None))
            && yields_on_clone(ps.15, input, Err(None))
            && yields_on_clone(ps.16, input, Err(None))
            && yields_on_clone(ps.17, input, Err(None))
            && yields_on_clone(ps.18, input, Err(None))
            && yields_on_clone(ps.19, input, Err(None))
            ==> accepts_clones(ps.20, input)
        &&& yields_on_clone(ps.0, input, Err(None))
            && yields_on_clone(ps.1, input, Err(None))
            && yields_on_clone(ps.2, input, Err(None))
            && yields_on_clone(ps.3, input, Err(None))
            && yields_on_clone(ps.4, input, Err(None))
            && yields_on_clone(ps.5, input, Err(None))
            && yields_on_clone(ps.6, input, Err(None))
            && yields_on_clone(ps.7, input, Err(None))
            && yields_on_clone(ps.8, input, Err(None))
            && yields_on_clone(ps.9, input, Err(None))
            && yields_on_clone(ps.10, input, Err(None))
            && yields_on_clone(ps.11, input, Err(None))
            && yields_on_clone(ps.12, input, Err(None))
            && yields_on_clone(ps.13, input, Err(None))
            && yields_on_clone(ps.14, input, Err(None))
            && yields_on_clone(ps.15, input, Err(None))
            && yields_on_clone(ps.16, input, Err(None))
            && yields_on_clone(ps.17, input, Err(None))
            && yields_on_clone(ps.18, input, Err(None))
            && yields_on_clone(ps.19, input, Err(None))
            && yields_on_clone(ps.20, input, Err(None))
            ==> accepts_clones(ps.21, input)
        &&& yields_on_clone(ps.0, input, Err(None))
            && yields_on_clone(ps.1, input, Err(None))
            && yields_on_clone(ps.2, input, Err(None))
            && yields_on_clone(ps.3, input, Err(None))
            && yields_on_clone(ps.4, input, Err(None))
            && yields_on_clone(ps.5, input, Err(None))
            && yields_on_clone(ps.6, input, Err(None))
            && yields_on_clone(ps.7, input, Err(None))
            && yields_on_clone(ps.8, input, Err(None))
            && yields_on_clone(ps.9, input, Err(None))
            && yields_on_clone(ps.10, input, Err(None))
            && yields_on_clone(ps.11, input, Err(None))
            && yields_on_clone(ps.12, input, Err(None))
            && yields_on_clone(ps.13, input, Err(None))
            && yields_on_clone(ps.14, input, Err(None))
            && yields_on_clone(ps.15, input, Err(None))
            && yields_on_clone(ps.16, input, Err(None))
            && yields_on_clone(ps.17, input, Err(None))
            && yields_on_clone(ps.18, input, Err(None))
            && yields_on_clone(ps.19, input, Err(None))
            && yields_on_clone(ps.20, input, Err(None))
            && yields_on_clone(ps.21, input, Err(None))
            ==> accepts_clones(ps.22, input)
    }

    open spec fn parse_ensures(&self, input: IN, res: Result<(OUT, IN), Option<ER>>) -> bool {
        let ps = self.segments();
        match res {
            Err(None) => {
                &&& yields_on_clone(ps.0, input, Err(None))
                &&& yields_on_clone(ps.1, input, Err(None))
                &&& yields_on_clone(ps.2, input, Err(None))
                &&& yields_on_clone(ps.3, input, Err(None))
                &&& yields_on_clone(ps.4, input, Err(None))
                &&& yields_on_clone(ps.5, input, Err(None))
                &&& yields_on_clone(ps.6, input, Err(None))
                &&& yields_on_clone(ps.7, input, Err(None))
                &&& yields_on_clone(ps.8, input, Err(None))
                &&& yields_on_clone(ps.9, input, Err(None))
                &&& yields_on_clone(ps.10, input, Err(None))
                &&& yields_on_clone(ps.11, input, Err(None))
                &&& yields_on_clone(ps.12, input, Err(None))
                &&& yields_on_clone(ps.13, input, Err(None))
                &&& yields_on_clone(ps.14, input, Err(None))
                &&& yields_on_clone(ps.15, input, Err(None))
                &&& yields_on_clone(ps.16, input, Err(None))
                &&& yields_on_clone(ps.17, input, Err(None))
                &&& yields_on_clone(ps.18, input, Err(None))
                &&& yields_on_clone(ps.19, input, Err(None))
                &&& yields_on_clone(ps.20, input, Err(None))
                &&& yields_on_clone(ps.21, input, Err(None))
                &&& yields_on_clone(ps.22, input, Err(None))
            },
            _ => {
                ||| yields_on_clone(ps.0, input, res)
                ||| yields_on_clone(ps.0, input, Err(None))
                    && yields_on_clone(ps.1, input, res)
                ||| yields_on_clone(ps.0, input, Err(None))
                    && yields_on_clone(ps.1, input, Err(None))
                    && yields_on_clone(ps.2, input, res)
                ||| yields_on_clone(ps.0, input, Err(None))
                    && yields_on_clone(ps.1, input, Err(None))
                    && yields_on_clone(ps.2, input, Err(None))
                    && yields_on_clone(ps.3, input, res)
                ||| yields_on_clone(ps.0, input, Err(None))
                    && yields_on_clone(ps.1, input, Err(None))
                    && yields_on_clone(ps.2, input, Err(None))
                    && yields_on_clone(ps.3, input, Err(None))
                    && yields_on_clone(ps.4, input, res)
                ||| yields_on_clone(ps.0, input, Err(None))
                    && yields_on_clone(ps.1, input, Err(None))
                    && yields_on_clone(ps.2, input, Err(None))
                    && yields_on_clone(ps.3, input, Err(None))
                    && yields_on_clone(ps.4, input, Err(None))
                    && yields_on_clone(ps.5, input, res)
                ||| yields_on_clone(ps.0, input, Err(None))
                    && yields_on_clone(ps.1, input, Err(None))
                    && yields_on_clone(ps.2, input, Err(None))
                    && yields_on_clone(ps.3, input, Err(None))
                    && yields_on_clone(ps.4, input, Err(None))
                    && yields_on_clone(ps.5, input, Err(None))
                    && yields_on_clone(ps.6, input, res)
                ||| yields_on_clone(ps.0, input, Err(None))
                    && yields_on_clone(ps.1, input, Err(None))
                    && yields_on_clone(ps.2, input, Err(None))
                    && yields_on_clone(ps.3, input, Err(None))
                    && yields_on_clone(ps.4, input, Err(None))
                    && yields_on_clone(ps.5, input, Err(None))
                    && yields_on_clone(ps.6, input, Err(None))
                    && yields_on_clone(ps.7, input, res)
                ||| yields_on_clone(ps.0, input, Err(None))
                    && yields_on_clone(ps.1, input, Err(None))
                    && yields_on_clone(ps.2, input, Err(None))
                    && yields_on_clone(ps.3, input, Err(None))
                    && yields_on_clone(ps.4, input, Err(None))
                    && yields_on_clone(ps.5, input, Err(None))
                    && yields_on_clone(ps.6, input, Err(None))
                    && yields_on_clone(ps.7, input, Err(None))
                    && yields_on_clone(ps.8, input, res)
                ||| yields_on_clone(ps.0, input, Err(None))
                    && yields_on_clone(ps.1, input, Err(None))
                    && yields_on_clone(ps.2, input, Err(None))
                    && yields_on_clone(ps.3, input, Err(None))
                    && yields_on_clone(ps.4, input, Err(None))
                    && yields_on_clone(ps.5, input, Err(None))
                    && yields_on_clone(ps.6, input, Err(None))
                    && yields_on_clone(ps.7, input, Err(None))
                    && yields_on_clone(ps.8, input, Err(None))
                    && yields_on_clone(ps.9, input, res)
                ||| yields_on_clone(ps.0, input, Err(None))
                    && yields_on_clone(ps.1, input, Err(None))
                    && yields_on_clone(ps.2, input, Err(None))
                    && yields_on_clone(ps.3, input, Err(None))
                    && yields_on_clone(ps.4, input, Err(None))
                    && yields_on_clone(ps.5, input, Err(None))
                    && yields_on_clone(ps.6, input, Err(None))
                    && yields_on_clone(ps.7, input, Err(None))
                    && yields_on_clone(ps.8, input, Err(None))
                    && yields_on_clone(ps.9, input, Err(None))
                    && yields_on_clone(ps.10, input, res)
                ||| yields_on_clone(ps.0, input, Err(None))
                    && yields_on_clone(ps.1, input, Err(None))
                    && yields_on_clone(ps.2, input, Err(None))
                    && yields_on_clone(ps.3, input, Err(None))
                    && yields_on_clone(ps.4, input, Err(None))
                    && yields_on_clone(ps.5, input, Err(None))
                    && yields_on_clone(ps.6, input, Err(None))
                    && yields_on_clone(ps.7, input, Err(None))
                    && yields_on_clone(ps.8, input, Err(None))
                    && yields_on_clone(ps.9, input, Err(None))
                    && yields_on_clone(ps.10, input, Err(None))
                    && yields_on_clone(ps.11, input, res)
                ||| yields_on_clone(ps.0, input, Err(None))
                    && yields_on_clone(ps.1, input, Err(None))
                    && yields_on_clone(ps.2, input, Err(None))
                    && yields_on_clone(ps.3, input, Err(None))
                    && yields_on_clone(ps.4, input, Err(None))
                    && yields_on_clone(ps.5, input, Err(None))
                    && yields_on_clone(ps.6, input, Err(None))
                    && yields_on_clone(ps.7, input, Err(None))
                    && yields_on_clone(ps.8, input, Err(None))
                    && yields_on_clone(ps.9, input, Err(None))
                    && yields_on_clone(ps.10, input, Err(None))
                    && yields_on_clone(ps.11, input, Err(None))
                    && yields_on_clone(ps.12, input, res)
                ||| yields_on_clone(ps.0, input, Err(None))
                    && yields_on_clone(ps.1, input, Err(None))
                    && yields_on_clone(ps.2, input, Err(None))
                    && yields_on_clone(ps.3, input, Err(None))
                    && yields_on_clone(ps.4, input, Err(None))
                    && yields_on_clone(ps.5, input, Err(None))
                    && yields_on_clone(ps.6, input, Err(None))
                    && yields_on_clone(ps.7, input, Err(None))
                    && yields_on_clone(ps.8, input, Err(None))
                    && yields_on_clone(ps.9, input, Err(None))
                    && yields_on_clone(ps.10, input, Err(None))
                    && yields_on_clone(ps.11, input, Err(None))
                    && yields_on_clone(ps.12, input, Err(None))
                    && yields_on_clone(ps.13, input, res)
                ||| yields_on_clone(ps.0, input, Err(None))
                    && yields_on_clone(ps.1, input, Err(None))
                    && yields_on_clone(ps.2, input, Err(None))
                    && yields_on_clone(ps.3, input, Err(None))
                    && yields_on_clone(ps.4, input, Err(None))
                    && yields_on_clone(ps.5, input, Err(None))
                    && yields_on_clone(ps.6, input, Err(None))
                    && yields_on_clone(ps.7, input, Err(None))
                    && yields_on_clone(ps.8, input, Err(None))
                    && yields_on_clone(ps.9, input, Err(None))
                    && yields_on_clone(ps.10, input, Err(None))
                    && yields_on_clone(ps.11, input, Err(None))
                    && yields_on_clone(ps.12, input, Err(None))
                    && yields_on_clone(ps.13, input, Err(None))
                    && yields_on_clone(ps.14, input, res)
                ||| yields_on_clone(ps.0, input, Err(None))
                    && yields_on_clone(ps.1, input, Err(None))
                    && yields_on_clone(ps.2, input, Err(None))
                    && yields_on_clone(ps.3, input, Err(None))
                    && yields_on_clone(ps.4, input, Err(None))
                    && yields_on_clone(ps.5, input, Err(None))
                    && yields_on_clone(ps.6, input, Err(None))
                    && yields_on_clone(ps.7, input, Err(None))
                    && yields_on_clone(ps.8, input, Err(None))
                    && yields_on_clone(ps.9, input, Err(None))
                    && yields_on_clone(ps.10, input, Err(None))
                    && yields_on_clone(ps.11, input, Err(None))
                    && yields_on_clone(ps.12, input, Err(None))
                    && yields_on_clone(ps.13, input, Err(None))
                    && yields_on_clone(ps.14, input, Err(None))
                    && yields_on_clone(ps.15, input, res)
                ||| yields_on_clone(ps.0, input, Err(None))
                    && yields_on_clone(ps.1, input, Err(None))
                    && yields_on_clone(ps.2, input, Err(None))
                    && yields_on_clone(ps.3, input, Err(None))
                    && yields_on_clone(ps.4, input, Err(None))
                    && yields_on_clone(ps.5, input, Err(None))
                    && yields_on_clone(ps.6, input, Err(None))
                    && yields_on_clone(ps.7, input, Err(None))
                    && yields_on_clone(ps.8, input, Err(None))
                    && yields_on_clone(ps.9, input, Err(None))
                    && yields_on_clone(ps.10, input, Err(None))
                    && yields_on_clone(ps.11, input, Err(None))
                    && yields_on_clone(ps.12, input, Err(None))
                    && yields_on_clone(ps.13, input, Err(None))
                    && yields_on_clone(ps.14, input, Err(None))
                    && yields_on_clone(ps.15, input, Err(None))
                    && yields_on_clone(ps.16, input, res)
                ||| yields_on_clone(ps.0, input, Err(None))
                    && yields_on_clone(ps.1, input, Err(None))
                    && yields_on_clone(ps.2, input, Err(None))
                    && yields_on_clone(ps.3, input, Err(None))
                    && yields_on_clone(ps.4, input, Err(None))
                    && yields_on_clone(ps.5, input, Err(None))
                    && yields_on_clone(ps.6, input, Err(None))
                    && yields_on_clone(ps.7, input, Err(None))
                    && yields_on_clone(ps.8, input, Err(None))
                    && yields_on_clone(ps.9, input, Err(None))
                    && yields_on_clone(ps.10, input, Err(None))
                    && yields_on_clone(ps.11, input, Err(None))
                    && yields_on_clone(ps.12, input, Err(None))
                    && yields_on_clone(ps.13, input, Err(None))
                    && yields_on_clone(ps.14, input, Err(None))
                    && yields_on_clone(ps.15, input, Err(None))
                    && yields_on_clone(ps.16, input, Err(None))
                    && yields_on_clone(ps.17, input, res)
                ||| yields_on_clone(ps.0, input, Err(None))
                    && yields_on_clone(ps.1, input, Err(None))
                    && yields_on_clone(ps.2, input, Err(None))
                    && yields_on_clone(ps.3, input, Err(None))
                    && yields_on_clone(ps.4, input, Err(None))
                    && yields_on_clone(ps.5, input, Err(None))
                    && yields_on_clone(ps.6, input, Err(None))
                    && yields_on_clone(ps.7, input, Err(None))
                    && yields_on_clone(ps.8, input, Err(None))
                    && yields_on_clone(ps.9, input, Err(None))
                    && yields_on_clone(ps.10, input, Err(None))
                    && yields_on_clone(ps.11, input, Err(None))
                    && yields_on_clone(ps.12, input, Err(None))
                    && yields_on_clone(ps.13, input, Err(None))
                    && yields_on_clone(ps.14, input, Err(None))
                    && yields_on_clone(ps.15, input, Err(None))
                    && yields_on_clone(ps.16, input, Err(None))
                    && yields_on_clone(ps.17, input, Err(None))
                    && yields_on_clone(ps.18, input, res)
                ||| yields_on_clone(ps.0, input, Err(None))
                    && yields_on_clone(ps.1, input, Err(None))
                    && yields_on_clone(ps.2, input, Err(None))
                    && yields_on_clone(ps.3, input, Err(None))
                    && yields_on_clone(ps.4, input, Err(None))
                    && yields_on_clone(ps.5, input, Err(None))
                    && yields_on_clone(ps.6, input, Err(None))
                    && yields_on_clone(ps.7, input, Err(None))
                    && yields_on_clone(ps.8, input, Err(None))
                    && yields_on_clone(ps.9, input, Err(None))
                    && yields_on_clone(ps.10, input, Err(None))
                    && yields_on_clone(ps.11, input, Err(None))
                    && yields_on_clone(ps.12, input, Err(None))
                    && yields_on_clone(ps.13, input, Err(None))
                    && yields_on_clone(ps.14, input, Err(None))
                    && yields_on_clone(ps.15, input, Err(None))
                    && yields_on_clone(ps.16, input, Err(None))
                    && yields_on_clone(ps.17, input, Err(None))
                    && yields_on_clone(ps.18, input, Err(None))
                    && yields_on_clone(ps.19, input, res)
                ||| yields_on_clone(ps.0, input, Err(None))
                    && yields_on_clone(ps.1, input, Err(None))
                    && yields_on_clone(ps.2, input, Err(None))
                    && yields_on_clone(ps.3, input, Err(None))
                    && yields_on_clone(ps.4, input, Err(None))
                    && yields_on_clone(ps.5, input, Err(None))
                    && yields_on_clone(ps.6, input, Err(None))
                    && yields_on_clone(ps.7, input, Err(None))
                    && yields_on_clone(ps.8, input, Err(None))
                    && yields_on_clone(ps.9, input, Err(None))
                    && yields_on_clone(ps.10, input, Err(None))
                    && yields_on_clone(ps.11, input, Err(None))
                    && yields_on_clone(ps.12, input, Err(None))
                    && yields_on_clone(ps.13, input, Err(None))
                    && yields_on_clone(ps.14, input, Err(None))
                    && yields_on_clone(ps.15, input, Err(None))
                    && yields_on_clone(ps.16, input, Err(None))
                    && yields_on_clone(ps.17, input, Err(None))
                    && yields_on_clone(ps.18, input, Err(None))
                    && yields_on_clone(ps.19, input, Err(None))
                    && yields_on_clone(ps.20, input, res)
                ||| yields_on_clone(ps.0, input, Err(None))
                    && yields_on_clone(ps.1, input, Err(None))
                    && yields_on_clone(ps.2, input, Err(None))
                    && yields_on_clone(ps.3, input, Err(None))
                    && yields_on_clone(ps.4, input, Err(None))
                    && yields_on_clone(ps.5, input, Err(None))
                    && yields_on_clone(ps.6, input, Err(None))
                    && yields_on_clone(ps.7, input, Err(None))
                    && yields_on_clone(ps.8, input, Err(None))
                    && yields_on_clone(ps.9, input, Err(None))
                    && yields_on_clone(ps.10, input, Err(None))
                    && yields_on_clone(ps.11, input, Err(None))
                    && yields_on_clone(ps.12, input, Err(None))
                    && yields_on_clone(ps.13, input, Err(None))
                    && yields_on_clone(ps.14, input, Err(None))
                    && yields_on_clone(ps.15, input, Err(None))
                    && yields_on_clone(ps.16, input, Err(None))
                    && yields_on_clone(ps.17, input, Err(None))
                    && yields_on_clone(ps.18, input, Err(None))
                    && yields_on_clone(ps.19, input, Err(None))
                    && yields_on_clone(ps.20, input, Err(None))
                    && yields_on_clone(ps.21, input, res)
                ||| yields_on_clone(ps.0, input, Err(None))
                    && yields_on_clone(ps.1, input, Err(None))
                    && yields_on_clone(ps.2, input, Err(None))
                    && yields_on_clone(ps.3, input, Err(None))
                    && yields_on_clone(ps.4, input, Err(None))
                    && yields_on_clone(ps.5, input, Err(None))
                    && yields_on_clone(ps.6, input, Err(None))
                    && yields_on_clone(ps.7, input, Err(None))
                    && yields_on_clone(ps.8, input, Err(None))
                    && yields_on_clone(ps.9, input, Err(None))
                    && yields_on_clone(ps.10, input, Err(None))
                    && yields_on_clone(ps.11, input, Err(None))
                    && yields_on_clone(ps.12, input, Err(None))
                    && yields_on_clone(ps.13, input, Err(None))
                    && yields_on_clone(ps.14, input, Err(None))
                    && yields_on_clone(ps.15, input, Err(None))
                    && yields_on_clone(ps.16, input, Err(None))
                    && yields_on_clone(ps.17, input, Err(None))
                    && yields_on_clone(ps.18, input, Err(None))
                    && yields_on_clone(ps.19, input, Err(None))
                    && yields_on_clone(ps.20, input, Err(None))
                    && yields_on_clone(ps.21, input, Err(None))
                    && yields_on_clone(ps.22, input, res)
            },
        }
    }

    fn parse(&self, txt: IN) -> (res: Result<(OUT, IN), Option<ER>>) {
        let c0 = txt.clone();
        let r0 = self.ps.0.parse(c0);
        assert(yields_on_clone(self.ps.0, txt, r0));
        match r0 {
            Err(None) => {},
            _ => return r0,
        }
        let c1 = txt.clone();
        let r1 = self.ps.1.parse(c1);
        assert(yields_on_clone(self.ps.1, txt, r1));
        match r1 {
            Err(None) => {},
            _ => return r1,
        }
        let c2 = txt.clone();
        let r2 = self.ps.2.parse(c2);
        assert(yields_on_clone(self.ps.2, txt, r2));
        match r2 {
            Err(None) => {},
            _ => return r2,
        }
        let c3 = txt.clone();
        let r3 = self.ps.3.parse(c3);
        assert(yields_on_clone(self.ps.3, txt, r3));
        match r3 {
            Err(None) => {},
            _ => return r3,
        }
        let c4 = txt.clone();
        let r4 = self.ps.4.parse(c4);
        assert(yields_on_clone(self.ps.4, txt, r4));
        match r4 {
            Err(None) => {},
            _ => return r4,
        }
        let c5 = txt.clone();
        let r5 = self.ps.5.parse(c5);
        assert(yields_on_clone(self.ps.5, txt, r5));
        match r5 {
            Err(None) => {},
            _ => return r5,
        }
        let c6 = txt.clone();
        let r6 = self.ps.6.parse(c6);
        assert(yields_on_clone(self.ps.6, txt, r6));
        match r6 {
            Err(None) => {},
            _ => return r6,
        }
        let c7 = txt.clone();
        let r7 = self.ps.7.parse(c7);
        assert(yields_on_clone(self.ps.7, txt, r7));
        match r7 {
            Err(None) => {},
            _ => return r7,
        }
        let c8 = txt.clone();
        let r8 = self.ps.8.parse(c8);
        assert(yields_on_clone(self.ps.8, txt, r8));
        match r8 {
            Err(None) => {},
            _ => return r8,
        }
        let c9 = txt.clone();
        let r9 = self.ps.9.parse(c9);
        assert(yields_on_clone(self.ps.9, txt, r9));
        match r9 {
            Err(None) => {},
            _ => return r9,
        }
        let c10 = txt.clone();
        let r10 = self.ps.10.parse(c10);
        assert(yields_on_clone(self.ps.10, txt, r10));
        match r10 {
            Err(None) => {},
            _ => return r10,
        }
        let c11 = txt.clone();
        let r11 = self.ps.11.parse(c11);
        assert(yields_on_clone(self.ps.11, txt, r11));
        match r11 {
            Err(None) => {},
            _ => return r11,
        }
        let c12 = txt.clone();
        let r12 = self.ps.12.parse(c12);
        assert(yields_on_clone(self.ps.12, txt, r12));
        match r12 {
            Err(None) => {},
            _ => return r12,
        }
        let c13 = txt.clone();
        let r13 = self.ps.13.parse(c13);
        assert(yields_on_clone(self.ps.13, txt, r13));
        match r13 {
            Err(None) => {},
            _ => return r13,
        }
        let c14 = txt.clone();
        let r14 = self.ps.14.parse(c14);
        assert(yields_on_clone(self.ps.14, txt, r14));
        match r14 {
            Err(None) => {},
            _ => return r14,
        }
        let c15 = txt.clone();
        let r15 = self.ps.15.parse(c15);
        assert(yields_on_clone(self.ps.15, txt, r15));
        match r15 {
            Err(None) => {},
            _ => return r15,
        }
        let c16 = txt.clone();
        let r16 = self.ps.16.parse(c16);
        assert(yields_on_clone(self.ps.16, txt, r16));
        match r16 {
            Err(None) => {},
            _ => return r16,
        }
        let c17 = txt.clone();
        let r17 = self.ps.17.parse(c17);
        assert(yields_on_clone(self.ps.17, txt, r17));
        match r17 {
            Err(None) => {},
            _ => return r17,
        }
        let c18 = txt.clone();
        let r18 = self.ps.18.parse(c18);
        assert(yields_on_clone(self.ps.18, txt, r18));
        match r18 {
            Err(None) => {},
            _ => return r18,
        }
        let c19 = txt.clone();
        let r19 = self.ps.19.parse(c19);
        assert(yields_on_clone(self.ps.19, txt, r19));
        match r19 {
            Err(None) => {},
            _ => return r19,
        }
        let c20 = txt.clone();
        let r20 = self.ps.20.parse(c20);
        assert(yields_on_clone(self.ps.20, txt, r20));
        match r20 {
            Err(None) => {},
            _ => return r20,
        }
        let c21 = txt.clone();
        let r21 = self.ps.21.parse(c21);
        assert(yields_on_clone(self.ps.21, txt, r21));
        match r21 {
            Err(None) => {},
            _ => return r21,
        }
        let c22 = txt.clone();
        let r22 = self.ps.22.parse(c22);
        assert(yields_on_clone(self.ps.22, txt, r22));
        match r22 {
            Err(None) => {},
            _ => return r22,
        }
        Err(None)
    }
}

/// Over inputs whose clones are equal, a branch of 23 deterministic
/// segments is deterministic.
pub proof fn lemma_branch23_deterministic<IN: Clone, OUT, ER, A, B, C, D, E, F, G, H, I, J, K, L, M, N, O, P, Q, R, S, T, U, V, W>(b: Branch<IN, ER, (A, B, C, D, E, F, G, H, I, J, K, L, M, N, O, P, Q, R, S, T, U, V, W)>)
    where
        A: Parser<IN, Out = OUT, Error = Option<ER>>,
        B: Parser<IN, Out = OUT, Error = Option<ER>>,
        C: Parser<IN, Out = OUT, Error = Option<ER>>,
        D: Parser<IN, Out = OUT, Error = Option<ER>>,
        E: Parser<IN, Out = OUT, Error = Option<ER>>,
        F: Parser<IN, Out = OUT, Error = Option<ER>>,
        G: Parser<IN, Out = OUT, Error = Option<ER>>,
        H: Parser<IN, Out = OUT, Error = Option<ER>>,
        I: Parser<IN, Out = OUT, Error = Option<ER>>,
        J: Parser<IN, Out = OUT, Error = Option<ER>>,
        K: Parser<IN, Out = OUT, Error = Option<ER>>,
        L: Parser<IN, Out = OUT, Error = Option<ER>>,
        M: Parser<IN, Out = OUT, Error = Option<ER>>,
        N: Parser<IN, Out = OUT, Error = Option<ER>>,
        O: Parser<IN, Out = OUT, Error = Option<ER>>,
        P: Parser<IN, Out = OUT, Error = Option<ER>>,
        Q: Parser<IN, Out = OUT, Error = Option<ER>>,
        R: Parser<IN, Out = OUT, Error = Option<ER>>,
        S: Parser<IN, Out = OUT, Error = Option<ER>>,
        T: Parser<IN, Out = OUT, Error = Option<ER>>,
        U: Parser<IN, Out = OUT, Error = Option<ER>>,
        V: Parser<IN, Out = OUT, Error = Option<ER>>,
        W: Parser<IN, Out = OUT, Error = Option<ER>>,
    requires
        clones_are_equal::<IN>(),
        deterministic::<IN, A>(b.segments().0),
        deterministic::<IN, B>(b.segments().1),
        deterministic::<IN, C>(b.segments().2),
        deterministic::<IN, D>(b.segments().3),
        deterministic::<IN, E>(b.segments().4),
        deterministic::<IN, F>(b.segments().5),
        deterministic::<IN, G>(b.segments().6),
        deterministic::<IN, H>(b.segments().7),
        deterministic::<IN, I>(b.segments().8),
        deterministic::<IN, J>(b.segments().9),
        deterministic::<IN, K>(b.segments().10),
        deterministic::<IN, L>(b.segments().11),
        deterministic::<IN, M>(b.segments().12),
        deterministic::<IN, N>(b.segments().13),
        deterministic::<IN, O>(b.segments().14),
        deterministic::<IN, P>(b.segments().15),
        deterministic::<IN, Q>(b.segments().16),
        deterministic::<IN, R>(b.segments().17),
        deterministic::<IN, S>(b.segments().18),
        deterministic::<IN, T>(b.segments().19),
        deterministic::<IN, U>(b.segments().20),
        deterministic::<IN, V>(b.segments().21),
        deterministic::<IN, W>(b.segments().22),
    ensures
        deterministic::<IN, Branch<IN, ER, (A, B, C, D, E, F, G, H, I, J, K, L, M, N, O, P, Q, R, S, T, U, V, W)>>(b),
{
    lemma_clones_are_transparent::<IN, A>(b.segments().0);
    lemma_clones_are_transparent::<IN, B>(b.segments().1);
    lemma_clones_are_transparent::<IN, C>(b.segments().2);
    lemma_clones_are_transparent::<IN, D>(b.segments().3);
    lemma_clones_are_transparent::<IN, E>(b.segments().4);
    lemma_clones_are_transparent::<IN, F>(b.segments().5);
    lemma_clones_are_transparent::<IN, G>(b.segments().6);
    lemma_clones_are_transparent::<IN, H>(b.segments().7);
    lemma_clones_are_transparent::<IN, I>(b.segments().8);
    lemma_clones_are_transparent::<IN, J>(b.segments().9);
    lemma_clones_are_transparent::<IN, K>(b.segments().10);
    lemma_clones_are_transparent::<IN, L>(b.segments().11);
    lemma_clones_are_transparent::<IN, M>(b.segments().12);
    lemma_clones_are_transparent::<IN, N>(b.segments().13);
    lemma_clones_are_transparent::<IN, O>(b.segments().14);
    lemma_clones_are_transparent::<IN, P>(b.segments().15);
    lemma_clones_are_transparent::<IN, Q>(b.segments().16);
    lemma_clones_are_transparent::<IN, R>(b.segments().17);
    lemma_clones_are_transparent::<IN, S>(b.segments().18);
    lemma_clones_are_transparent::<IN, T>(b.segments().19);
    lemma_clones_are_transparent::<IN, U>(b.segments().20);
    lemma_clones_are_transparent::<IN, V>(b.segments().21);
    lemma_clones_are_transparent::<IN, W>(b.segments().22);
}

impl<IN: Clone, OUT, ER, A, B, C, D, E, F, G, H, I, J, K, L, M, N, O, P, Q, R, S, T, U, V, W, X> From<(A, B, C, D, E, F, G, H, I, J, K, L, M, N, O, P, Q, R, S, T, U, V, W, X)> for Branch<IN, ER, (A, B, C, D, E, F, G, H, I, J, K, L, M, N, O, P, Q, R, S, T, U, V, W, X)> where
    A: Parser<IN, Out = OUT, Error = Option<ER>>,
    B: Parser<IN, Out = OUT, Error = Option<ER>>,
    C: Parser<IN, Out = OUT, Error = Option<ER>>,
    D: Parser<IN, Out = OUT, Error = Option<ER>>,
    E: Parser<IN, Out = OUT, Error = Option<ER>>,
    F: Parser<IN, Out = OUT, Error = Option<ER>>,
    G: Parser<IN, Out = OUT, Error = Option<ER>>,
    H: Parser<IN, Out = OUT, Error = Option<ER>>,
    I: Parser<IN, Out = OUT, Error = Option<ER>>,
    J: Parser<IN, Out = OUT, Error = Option<ER>>,
    K: Parser<IN, Out = OUT, Error = Option<ER>>,
    L: Parser<IN, Out = OUT, Error = Option<ER>>,
    M: Parser<IN, Out = OUT, Error = Option<ER>>,
    N: Parser<IN, Out = OUT, Error = Option<ER>>,
    O: Parser<IN, Out = OUT, Error = Option<ER>>,
    P: Parser<IN, Out = OUT, Error = Option<ER>>,
    Q: Parser<IN, Out = OUT, Error = Option<ER>>,
    R: Parser<IN, Out = OUT, Error = Option<ER>>,
    S: Parser<IN, Out = OUT, Error = Option<ER>>,
    T: Parser<IN, Out = OUT, Error = Option<ER>>,
    U: Parser<IN, Out = OUT, Error = Option<ER>>,
    V: Parser<IN, Out = OUT, Error = Option<ER>>,
    W: Parser<IN, Out = OUT, Error = Option<ER>>,
    X: Parser<IN, Out = OUT, Error = Option<ER>>,
 {
    fn from(ps: (A, B, C, D, E, F, G, H, I, J, K, L, M, N, O, P, Q, R, S, T, U, V, W, X)) -> (r: Self) {
        let r = Self { ps, _ghost: PhantomData };
        proof {
            lemma_branch_determined_by_segments(r, ps);
        }
        r
    }
}

impl<IN: Clone, OUT, ER, A, B, C, D, E, F, G, H, I, J, K, L, M, N, O, P, Q, R, S, T, U, V, W, X> FromSpecImpl<(A, B, C, D, E, F, G, H, I, J, K, L, M, N, O, P, Q, R, S, T, U, V, W, X)> for Branch<IN, ER, (A, B, C, D, E, F, G, H, I, J, K, L, M, N, O, P, Q, R, S, T, U, V, W, X)> where
    A: Parser<IN, Out = OUT, Error = Option<ER>>,
    B: Parser<IN, Out = OUT, Error = Option<ER>>,
    C: Parser<IN, Out = OUT, Error = Option<ER>>,
    D: Parser<IN, Out = OUT, Error = Option<ER>>,
    E: Parser<IN, Out = OUT, Error = Option<ER>>,
    F: Parser<IN, Out = OUT, Error = Option<ER>>,
    G: Parser<IN, Out = OUT, Error = Option<ER>>,
    H: Parser<IN, Out = OUT, Error = Option<ER>>,
    I: Parser<IN, Out = OUT, Error = Option<ER>>,
    J: Parser<IN, Out = OUT, Error = Option<ER>>,
    K: Parser<IN, Out = OUT, Error = Option<ER>>,
    L: Parser<IN, Out = OUT, Error = Option<ER>>,
    M: Parser<IN, Out = OUT, Error = Option<ER>>,
    N: Parser<IN, Out = OUT, Error = Option<ER>>,
    O: Parser<IN, Out = OUT, Error = Option<ER>>,
    P: Parser<IN, Out = OUT, Error = Option<ER>>,
    Q: Parser<IN, Out = OUT, Error = Option<ER>>,
    R: Parser<IN, Out = OUT, Error = Option<ER>>,
    S: Parser<IN, Out = OUT, Error = Option<ER>>,
    T: Parser<IN, Out = OUT, Error = Option<ER>>,
    U: Parser<IN, Out = OUT, Error = Option<ER>>,
    V: Parser<IN, Out = OUT, Error = Option<ER>>,
    W: Parser<IN, Out = OUT, Error = Option<ER>>,
    X: Parser<IN, Out = OUT, Error = Option<ER>>,
 {
    open spec fn obeys_from_spec() -> bool {
        true
    }

    open spec fn from_spec(ps: (A, B, C, D, E, F, G, H, I, J, K, L, M, N, O, P, Q, R, S, T, U, V, W, X)) -> Self {
        choose|b: Self| b.segments() == ps
    }
}

/// A branch between 24 segments with one output type.
impl<IN: Clone, OUT, ER, A, B, C, D, E, F, G, H, I, J, K, L, M, N, O, P, Q, R, S, T, U, V, W, X> Parser<IN> for Branch<IN, ER, (A, B, C, D, E, F, G, H, I, J, K, L, M, N, O, P, Q, R, S, T, U, V, W, X)> where
    A: Parser<IN, Out = OUT, Error = Option<ER>>,
    B: Parser<IN, Out = OUT, Error = Option<ER>>,
    C: Parser<IN, Out = OUT, Error = Option<ER>>,
    D: Parser<IN, Out = OUT, Error = Option<ER>>,
    E: Parser<IN, Out = OUT, Error = Option<ER>>,
    F: Parser<IN, Out = OUT, Error = Option<ER>>,
    G: Parser<IN, Out = OUT, Error = Option<ER>>,
    H: Parser<IN, Out = OUT, Error = Option<ER>>,
    I: Parser<IN, Out = OUT, Error = Option<ER>>,
    J: Parser<IN, Out = OUT, Error = Option<ER>>,
    K: Parser<IN, Out = OUT, Error = Option<ER>>,
    L: Parser<IN, Out = OUT, Error = Option<ER>>,
    M: Parser<IN, Out = OUT, Error = Option<ER>>,
    N: Parser<IN, Out = OUT, Error = Option<ER>>,
    O: Parser<IN, Out = OUT, Error = Option<ER>>,
    P: Parser<IN, Out = OUT, Error = Option<ER>>,
    Q: Parser<IN, Out = OUT, Error = Option<ER>>,
    R: Parser<IN, Out = OUT, Error = Option<ER>>,
    S: Parser<IN, Out = OUT, Error = Option<ER>>,
    T: Parser<IN, Out = OUT, Error = Option<ER>>,
    U: Parser<IN, Out = OUT, Error = Option<ER>>,
    V: Parser<IN, Out = OUT, Error = Option<ER>>,
    W: Parser<IN, Out = OUT, Error = Option<ER>>,
    X: Parser<IN, Out = OUT, Error = Option<ER>>,
 {
    type Out = OUT;

    type Error = Option<ER>;

    open spec fn parse_requires(&self, input: IN) -> bool {
        let ps = self.segments();
        &&& accepts_clones(ps.0, input)
        &&& yields_on_clone(ps.0, input, Err(None))
            ==> accepts_clones(ps.1, input)
        &&& yields_on_clone(ps.0, input, Err(None))
            && yields_on_clone(ps.1, input, Err(None))
            ==> accepts_clones(ps.2, input)
        &&& yields_on_clone(ps.0, input, Err(None))
            && yields_on_clone(ps.1, input, Err(None))
            && yields_on_clone(ps.2, input, Err(None))
            ==> accepts_clones(ps.3, input)
        &&& yields_on_clone(ps.0, input, Err(None))
            && yields_on_clone(ps.1, input, Err(None))
            && yields_on_clone(ps.2, input, Err(None))
            && yields_on_clone(ps.3, input, Err(None))
            ==> accepts_clones(ps.4, input)
        &&& yields_on_clone(ps.0, input, Err(None))
            && yields_on_clone(ps.1, input, Err(None))
            && yields_on_clone(ps.2, input, Err(None))
            && yields_on_clone(ps.3, input, Err(None))
            && yields_on_clone(ps.4, input, Err(None))
            ==> accepts_clones(ps.5, input)
        &&& yields_on_clone(ps.0, input, Err(None))
            && yields_on_clone(ps.1, input, Err(None))
            && yields_on_clone(ps.2, input, Err(None))
            && yields_on_clone(ps.3, input, Err(None))
            && yields_on_clone(ps.4, input, Err(None))
            && yields_on_clone(ps.5, input, Err(None))
            ==> accepts_clones(ps.6, input)
        &&& yields_on_clone(ps.0, input, Err(None))
            && yields_on_clone(ps.1, input, Err(None))
            && yields_on_clone(ps.2, input, Err(None))
            && yields_on_clone(ps.3, input, Err(None))
            && yields_on_clone(ps.4, input, Err(None))
            && yields_on_clone(ps.5, input, Err(None))
            && yields_on_clone(ps.6, input, Err(None))
            ==> accepts_clones(ps.7, input)
        &&& yields_on_clone(ps.0, input, Err(None))
            && yields_on_clone(ps.1, input, Err(None))
            && yields_on_clone(ps.2, input, Err(None))
            && yields_on_clone(ps.3, input, Err(None))
            && yields_on_clone(ps.4, input, Err(None))
            && yields_on_clone(ps.5, input, Err(None))
            && yields_on_clone(ps.6, input, Err(None))
            && yields_on_clone(ps.7, input, Err(None))
            ==> accepts_clones(ps.8, input)
        &&& yields_on_clone(ps.0, input, Err(None))
            && yields_on_clone(ps.1, input, Err(None))
            && yields_on_clone(ps.2, input, Err(None))
            && yields_on_clone(ps.3, input, Err(None))
            && yields_on_clone(ps.4, input, Err(None))
            && yields_on_clone(ps.5, input, Err(None))
            && yields_on_clone(ps.6, input, Err(None))
            && yields_on_clone(ps.7, input, Err(None))
            && yields_on_clone(ps.8, input, Err(None))
            ==> accepts_clones(ps.9, input)
        &&& yields_on_clone(ps.0, input, Err(None))
            && yields_on_clone(ps.1, input, Err(None))
            && yields_on_clone(ps.2, input, Err(None))
            && yields_on_clone(ps.3, input, Err(None))
            && yields_on_clone(ps.4, input, Err(None))
            && yields_on_clone(ps.5, input, Err(None))
            && yields_on_clone(ps.6, input, Err(None))
            && yields_on_clone(ps.7, input, Err(None))
            && yields_on_clone(ps.8, input, Err(None))
            && yields_on_clone(ps.9, input, Err(None))
            ==> accepts_clones(ps.10, input)
        &&& yields_on_clone(ps.0, input, Err(None))
            && yields_on_clone(ps.1, input, Err(None))
            && yields_on_clone(ps.2, input, Err(None))
            && yields_on_clone(ps.3, input, Err(None))
            && yields_on_clone(ps.4, input, Err(None))
            && yields_on_clone(ps.5, input, Err(None))
            && yields_on_clone(ps.6, input, Err(None))
            && yields_on_clone(ps.7, input, Err(None))
            && yields_on_clone(ps.8, input, Err(None))
            && yields_on_clone(ps.9, input, Err(None))
            && yields_on_clone(ps.10, input, Err(None))
            ==> accepts_clones(ps.11, input)
        &&& yields_on_clone(ps.0, input, Err(None))
            && yields_on_clone(ps.1, input, Err(None))
            && yields_on_clone(ps.2, input, Err(None))
            && yields_on_clone(ps.3, input, Err(None))
            && yields_on_clone(ps.4, input, Err(None))
            && yields_on_clone(ps.5, input, Err(None))
            && yields_on_clone(ps.6, input, Err(None))
            && yields_on_clone(ps.7, input, Err(None))
            && yields_on_clone(ps.8, input, Err(None))
            && yields_on_clone(ps.9, input, Err(None))
            && yields_on_clone(ps.10, input, Err(None))
            && yields_on_clone(ps.11, input, Err(None))
            ==> accepts_clones(ps.12, input)
        &&& yields_on_clone(ps.0, input, Err(None))
            && yields_on_clone(ps.1, input, Err(None))
            && yields_on_clone(ps.2, input, Err(None))
            && yields_on_clone(ps.3, input, Err(None))
            && yields_on_clone(ps.4, input, Err(None))
            && yields_on_clone(ps.5, input, Err(None))
            && yields_on_clone(ps.6, input, Err(None))
            && yields_on_clone(ps.7, input, Err(None))
            && yields_on_clone(ps.8, input, Err(None))
            && yields_on_clone(ps.9, input, Err(None))
            && yields_on_clone(ps.10, input, Err(None))
            && yields_on_clone(ps.11, input, Err(None))
            && yields_on_clone(ps.12, input, Err(None))
            ==> accepts_clones(ps.13, input)
        &&& yields_on_clone(ps.0, input, Err(None))
            && yields_on_clone(ps.1, input, Err(None))
            && yields_on_clone(ps.2, input, Err(None))
            && yields_on_clone(ps.3, input, Err(None))
            && yields_on_clone(ps.4, input, Err(None))
            && yields_on_clone(ps.5, input, Err(None))
            && yields_on_clone(ps.6, input, Err(None))
            && yields_on_clone(ps.7, input, Err(None))
            && yields_on_clone(ps.8, input, Err(None))
            && yields_on_clone(ps.9, input, Err(None))
            && yields_on_clone(ps.10, input, Err(None))
            && yields_on_clone(ps.11, input, Err(None))
            && yields_on_clone(ps.12, input, Err(None))
            && yields_on_clone(ps.13, input, Err(None))
            ==> accepts_clones(ps.14, input)
        &&& yields_on_clone(ps.0, input, Err(None))
            && yields_on_clone(ps.1, input, Err(None))
            && yields_on_clone(ps.2, input, Err(None))
            && yields_on_clone(ps.3, input, Err(None))
            && yields_on_clone(ps.4, input, Err(None))
            && yields_on_clone(ps.5, input, Err(None))
            && yields_on_clone(ps.6, input, Err(None))
            && yields_on_clone(ps.7, input, Err(None))
            && yields_on_clone(ps.8, input, Err(None))
            && yields_on_clone(ps.9, input, Err(None))
            && yields_on_clone(ps.10, input, Err(None))
            && yields_on_clone(ps.11, input, Err(None))
            && yields_on_clone(ps.12, input, Err(None))
            && yields_on_clone(ps.13, input, Err(None))
            && yields_on_clone(ps.14, input, Err(None))
            ==> accepts_clones(ps.15, input)
        &&& yields_on_clone(ps.0, input, Err(None))
            && yields_on_clone(ps.1, input, Err(None))
            && yields_on_clone(ps.2, input, Err(None))
            && yields_on_clone(ps.3, input, Err(None))
            && yields_on_clone(ps.4, input, Err(None))
            && yields_on_clone(ps.5, input, Err(None))
            && yields_on_clone(ps.6, input, Err(None))
            && yields_on_clone(ps.7, input, Err(None))
            && yields_on_clone(ps.8, input, Err(None))
            && yields_on_clone(ps.9, input, Err(None))
            && yields_on_clone(ps.10, input, Err(None))
            && yields_on_clone(ps.11, input, Err(None))
            && yields_on_clone(ps.12, input, Err(None))
            && yields_on_clone(ps.13, input, Err(None))
            && yields_on_clone(ps.14, input, Err(None))
            && yields_on_clone(ps.15, input, Err(None))
            ==> accepts_clones(ps.16, input)
        &&& yields_on_clone(ps.0, input, Err(None))
            && yields_on_clone(ps.1, input, Err(None))
            && yields_on_clone(ps.2, input, Err(None))
            && yields_on_clone(ps.3, input, Err(None))
            && yields_on_clone(ps.4, input, Err(None))
            && yields_on_clone(ps.5, input, Err(None))
            && yields_on_clone(ps.6, input, Err(None))
            && yields_on_clone(ps.7, input, Err(None))
            && yields_on_clone(ps.8, input, Err(None))
            && yields_on_clone(ps.9, input, Err(None))
            && yields_on_clone(ps.10, input, Err(None))
            && yields_on_clone(ps.11, input, Err(None))
            && yields_on_clone(ps.12, input, Err(None))
            && yields_on_clone(ps.13, input, Err(None))
            && yields_on_clone(ps.14, input, Err(None))
            && yields_on_clone(ps.15, input, Err(None))
            && yields_on_clone(ps.16, input, Err(None))
            ==> accepts_clones(ps.17, input)
        &&& yields_on_clone(ps.0, input, Err(None))
            && yields_on_clone(ps.1, input, Err(None))
            && yields_on_clone(ps.2, input, Err(None))
            && yields_on_clone(ps.3, input, Err(None))
            && yields_on_clone(ps.4, input, Err(None))
            && yields_on_clone(ps.5, input, Err(None))
            && yields_on_clone(ps.6, input, Err(None))
            && yields_on_clone(ps.7, input, Err(None))
            && yields_on_clone(ps.8, input, Err(None))
            && yields_on_clone(ps.9, input, Err(None))
            && yields_on_clone(ps.10, input, Err(None))
            && yields_on_clone(ps.11, input, Err(None))
            && yields_on_clone(ps.12, input, Err(None))
            && yields_on_clone(ps.13, input, Err(None))
            && yields_on_clone(ps.14, input, Err(None))
            && yields_on_clone(ps.15, input, Err(None))
            && yields_on_clone(ps.16, input, Err(None))
            && yields_on_clone(ps.17, input, Err(None))
            ==> accepts_clones(ps.18, input)
        &&& yields_on_clone(ps.0, input, Err(None))
            && yields_on_clone(ps.1, input, Err(None))
            && yields_on_clone(ps.2, input, Err(None))
            && yields_on_clone(ps.3, input, Err(None))
            && yields_on_clone(ps.4, input, Err(None))
            && yields_on_clone(ps.5, input, Err(None))
            && yields_on_clone(ps.6, input, Err(None))
            && yields_on_clone(ps.7, input, Err(None))
            && yields_on_clone(ps.8, input, Err(None))
            && yields_on_clone(ps.9, input, Err(None))
            && yields_on_clone(ps.10, input, Err(None))
            && yields_on_clone(ps.11, input, Err(None))
            && yields_on_clone(ps.12, input, Err(None))
            && yields_on_clone(ps.13, input, Err(None))
            && yields_on_clone(ps.14, input, Err(None))
            && yields_on_clone(ps.15, input, Err(None))
            && yields_on_clone(ps.16, input, Err(None))
            && yields_on_clone(ps.17, input, Err(None))
            && yields_on_clone(ps.18, input, Err(None))
            ==> accepts_clones(ps.19, input)
        &&& yields_on_clone(ps.0, input, Err(None))
            && yields_on_clone(ps.1, input, Err(None))
            && yields_on_clone(ps.2, input, Err(None))
            && yields_on_clone(ps.3, input, Err(None))
            && yields_on_clone(ps.4, input, Err(None))
            && yields_on_clone(ps.5, input, Err(None))
            && yields_on_clone(ps.6, input, Err(None))
            && yields_on_clone(ps.7, input, Err(None))
            && yields_on_clone(ps.8, input, Err(None))
            && yields_on_clone(ps.9, input, Err(None))
            && yields_on_clone(ps.10, input, Err(None))
            && yields_on_clone(ps.11, input, Err(None))
            && yields_on_clone(ps.12, input, Err(None))
            && yields_on_clone(ps.13, input, Err(None))
            && yields_on_clone(ps.14, input, Err(None))
            && yields_on_clone(ps.15, input, Err(None))
            && yields_on_clone(ps.16, input, Err(None))
            && yields_on_clone(ps.17, input, Err(None))
            && yields_on_clone(ps.18, input, Err(None))
            && yields_on_clone(ps.19, input, Err(None))
            ==> accepts_clones(ps.20, input)
        &&& yields_on_clone(ps.0, input, Err(None))
            && yields_on_clone(ps.1, input, Err(None))
            && yields_on_clone(ps.2, input, Err(None))
            && yields_on_clone(ps.3, input, Err(None))
            && yields_on_clone(ps.4, input, Err(None))
            && yields_on_clone(ps.5, input, Err(None))
            && yields_on_clone(ps.6, input, Err(None))
            && yields_on_clone(ps.7, input, Err(None))
            && yields_on_clone(ps.8, input, Err(None))
            && yields_on_clone(ps.9, input, Err(None))
            && yields_on_clone(ps.10, input, Err(None))
            && yields_on_clone(ps.11, input, Err(None))
            && yields_on_clone(ps.12, input, Err(None))
            && yields_on_clone(ps.13, input, Err(None))
            && yields_on_clone(ps.14, input, Err(None))
            && yields_on_clone(ps.15, input, Err(None))
            && yields_on_clone(ps.16, input, Err(None))
            && yields_on_clone(ps.17, input, Err(None))
            && yields_on_clone(ps.18, input, Err(None))
            && yields_on_clone(ps.19, input, Err(None))
            && yields_on_clone(ps.20, input, Err(None))
            ==> accepts_clones(ps.21, input)
        &&& yields_on_clone(ps.0, input, Err(None))
            && yields_on_clone(ps.1, input, Err(None))
            && yields_on_clone(ps.2, input, Err(None))
            && yields_on_clone(ps.3, input, Err(None))
            && yields_on_clone(ps.4, input, Err(None))
            && yields_on_clone(ps.5, input, Err(None))
            && yields_on_clone(ps.6, input, Err(None))
            && yields_on_clone(ps.7, input, Err(None))
            && yields_on_clone(ps.8, input, Err(None))
            && yields_on_clone(ps.9, input, Err(None))
            && yields_on_clone(ps.10, input, Err(None))
            && yields_on_clone(ps.11, input, Err(None))
            && yields_on_clone(ps.12, input, Err(None))
            && yields_on_clone(ps.13, input, Err(None))
            && yields_on_clone(ps.14, input, Err(None))
            && yields_on_clone(ps.15, input, Err(None))
            && yields_on_clone(ps.16, input, Err(None))
            && yields_on_clone(ps.17, input, Err(None))
            && yields_on_clone(ps.18, input, Err(None))
            && yields_on_clone(ps.19, input, Err(None))
            && yields_on_clone(ps.20, input, Err(None))
            && yields_on_clone(ps.21, input, Err(None))
            ==> accepts_clones(ps.22, input)
        &&& yields_on_clone(ps.0, input, Err(None))
            && yields_on_clone(ps.1, input, Err(None))
            && yields_on_clone(ps.2, input, Err(None))
            && yields_on_clone(ps.3, input, Err(None))
            && yields_on_clone(ps.4, input, Err(None))
            && yields_on_clone(ps.5, input, Err(None))
            && yields_on_clone(ps.6, input, Err(None))
            && yields_on_clone(ps.7, input, Err(None))
            && yields_on_clone(ps.8, input, Err(None))
            && yields_on_clone(ps.9, input, Err(None))
            && yields_on_clone(ps.10, input, Err(None))
            && yields_on_clone(ps.11, input, Err(None))
            && yields_on_clone(ps.12, input, Err(None))
            && yields_on_clone(ps.13, input, Err(None))
            && yields_on_clone(ps.14, input, Err(None))
            && yields_on_clone(ps.15, input, Err(None))
            && yields_on_clone(ps.16, input, Err(None))
            && yields_on_clone(ps.17, input, Err(None))
            && yields_on_clone(ps.18, input, Err(None))
            && yields_on_clone(ps.19, input, Err(None))
            && yields_on_clone(ps.20, input, Err(None))
            && yields_on_clone(ps.21, input, Err(None))
            && yields_on_clone(ps.22, input, Err(None))
            ==> accepts_clones(ps.23, input)
    }

    open spec fn parse_ensures(&self, input: IN, res: Result<(OUT, IN), Option<ER>>) -> bool {
        let ps = self.segments();
        match res {
            Err(None) => {
                &&& yields_on_clone(ps.0, input, Err(None))
                &&& yields_on_clone(ps.1, input, Err(None))
                &&& yields_on_clone(ps.2, input, Err(None))
                &&& yields_on_clone(ps.3, input, Err(None))
                &&& yields_on_clone(ps.4, input, Err(None))
                &&& yields_on_clone(ps.5, input, Err(None))
                &&& yields_on_clone(ps.6, input, Err(None))
                &&& yields_on_clone(ps.7, input, Err(None))
                &&& yields_on_clone(ps.8, input, Err(None))
                &&& yields_on_clone(ps.9, input, Err(None))
                &&& yields_on_clone(ps.10, input, Err(None))
                &&& yields_on_clone(ps.11, input, Err(None))
                &&& yields_on_clone(ps.12, input, Err(None))
                &&& yields_on_clone(ps.13, input, Err(None))
                &&& yields_on_clone(ps.14, input, Err(None))
                &&& yields_on_clone(ps.15, input, Err(None))
                &&& yields_on_clone(ps.16, input, Err(None))
                &&& yields_on_clone(ps.17, input, Err(None))
                &&& yields_on_clone(ps.18, input, Err(None))
                &&& yields_on_clone(ps.19, input, Err(None))
                &&& yields_on_clone(ps.20, input, Err(None))
                &&& yields_on_clone(ps.21, input, Err(None))
                &&& yields_on_clone(ps.22, input, Err(None))
                &&& yields_on_clone(ps.23, input, Err(None))
            },
            _ => {
                ||| yields_on_clone(ps.0, input, res)
                ||| yields_on_clone(ps.0, input, Err(None))
                    && yields_on_clone(ps.1, input, res)
                ||| yields_on_clone(ps.0, input, Err(None))
                    && yields_on_clone(ps.1, input, Err(None))
                    && yields_on_clone(ps.2, input, res)
                ||| yields_on_clone(ps.0, input, Err(None))
                    && yields_on_clone(ps.1, input, Err(None))
                    && yields_on_clone(ps.2, input, Err(None))
                    && yields_on_clone(ps.3, input, res)
                ||| yields_on_clone(ps.0, input, Err(None))
                    && yields_on_clone(ps.1, input, Err(None))
                    && yields_on_clone(ps.2, input, Err(None))
                    && yields_on_clone(ps.3, input, Err(None))
                    && yields_on_clone(ps.4, input, res)
                ||| yields_on_clone(ps.0, input, Err(None))
                    && yields_on_clone(ps.1, input, Err(None))
                    && yields_on_clone(ps.2, input, Err(None))
                    && yields_on_clone(ps.3, input, Err(None))
                    && yields_on_clone(ps.4, input, Err(None))
                    && yields_on_clone(ps.5, input, res)
                ||| yields_on_clone(ps.0, input, Err(None))
                    && yields_on_clone(ps.1, input, Err(None))
                    && yields_on_clone(ps.2, input, Err(None))
                    && yields_on_clone(ps.3, input, Err(None))
                    && yields_on_clone(ps.4, input, Err(None))
                    && yields_on_clone(ps.5, input, Err(None))
                    && yields_on_clone(ps.6, input, res)
                ||| yields_on_clone(ps.0, input, Err(None))
                    && yields_on_clone(ps.1, input, Err(None))
                    && yields_on_clone(ps.2, input, Err(None))
                    && yields_on_clone(ps.3, input, Err(None))
                    && yields_on_clone(ps.4, input, Err(None))
                    && yields_on_clone(ps.5, input, Err(None))
                    && yields_on_clone(ps.6, input, Err(None))
                    && yields_on_clone(ps.7, input, res)
                ||| yields_on_clone(ps.0, input, Err(None))
                    && yields_on_clone(ps.1, input, Err(None))
                    && yields_on_clone(ps.2, input, Err(None))
                    && yields_on_clone(ps.3, input, Err(None))
                    && yields_on_clone(ps.4, input, Err(None))
                    && yields_on_clone(ps.5, input, Err(None))
                    && yields_on_clone(ps.6, input, Err(None))
                    && yields_on_clone(ps.7, input, Err(None))
                    && yields_on_clone(ps.8, input, res)
                ||| yields_on_clone(ps.0, input, Err(None))
                    && yields_on_clone(ps.1, input, Err(None))
                    && yields_on_clone(ps.2, input, Err(None))
                    && yields_on_clone(ps.3, input, Err(None))
                    && yields_on_clone(ps.4, input, Err(None))
                    && yields_on_clone(ps.5, input, Err(None))
                    && yields_on_clone(ps.6, input, Err(None))
                    && yields_on_clone(ps.7, input, Err(None))
                    && yields_on_clone(ps.8, input, Err(None))
                    && yields_on_clone(ps.9, input, res)
                ||| yields_on_clone(ps.0, input, Err(None))
                    && yields_on_clone(ps.1, input, Err(None))
                    && yields_on_clone(ps.2, input, Err(None))
                    && yields_on_clone(ps.3, input, Err(None))
                    && yields_on_clone(ps.4, input, Err(None))
                    && yields_on_clone(ps.5, input, Err(None))
                    && yields_on_clone(ps.6, input, Err(None))
                    && yields_on_clone(ps.7, input, Err(None))
                    && yields_on_clone(ps.8, input, Err(None))
                    && yields_on_clone(ps.9, input, Err(None))
                    && yields_on_clone(ps.10, input, res)
                ||| yields_on_clone(ps.0, input, Err(None))
                    && yields_on_clone(ps.1, input, Err(None))
                    && yields_on_clone(ps.2, input, Err(None))
                    && yields_on_clone(ps.3, input, Err(None))
                    && yields_on_clone(ps.4, input, Err(None))
                    && yields_on_clone(ps.5, input, Err(None))
                    && yields_on_clone(ps.6, input, Err(None))
                    && yields_on_clone(ps.7, input, Err(None))
                    && yields_on_clone(ps.8, input, Err(None))
                    && yields_on_clone(ps.9, input, Err(None))
                    && yields_on_clone(ps.10, input, Err(None))
                    && yields_on_clone(ps.11, input, res)
                ||| yields_on_clone(ps.0, input, Err(None))
                    && yields_on_clone(ps.1, input, Err(None))
                    && yields_on_clone(ps.2, input, Err(None))
                    && yields_on_clone(ps.3, input, Err(None))
                    && yields_on_clone(ps.4, input, Err(None))
                    && yields_on_clone(ps.5, input, Err(None))
                    && yields_on_clone(ps.6, input, Err(None))
                    && yields_on_clone(ps.7, input, Err(None))
                    && yields_on_clone(ps.8, input, Err(None))
                    && yields_on_clone(ps.9, input, Err(None))
                    && yields_on_clone(ps.10, input, Err(None))
                    && yields_on_clone(ps.11, input, Err(None))
                    && yields_on_clone(ps.12, input, res)
                ||| yields_on_clone(ps.0, input, Err(None))
                    && yields_on_clone(ps.1, input, Err(None))
                    && yields_on_clone(ps.2, input, Err(None))
                    && yields_on_clone(ps.3, input, Err(None))
                    && yields_on_clone(ps.4, input, Err(None))
                    && yields_on_clone(ps.5, input, Err(None))
                    && yields_on_clone(ps.6, input, Err(None))
                    && yields_on_clone(ps.7, input, Err(None))
                    && yields_on_clone(ps.8, input, Err(None))
                    && yields_on_clone(ps.9, input, Err(None))
                    && yields_on_clone(ps.10, input, Err(None))
                    && yields_on_clone(ps.11, input, Err(None))
                    && yields_on_clone(ps.12, input, Err(None))
                    && yields_on_clone(ps.13, input, res)
                ||| yields_on_clone(ps.0, input, Err(None))
                    && yields_on_clone(ps.1, input, Err(None))
                    && yields_on_clone(ps.2, input, Err(None))
                    && yields_on_clone(ps.3, input, Err(None))
                    && yields_on_clone(ps.4, input, Err(None))
                    && yields_on_clone(ps.5, input, Err(None))
                    && yields_on_clone(ps.6, input, Err(None))
                    && yields_on_clone(ps.7, input, Err(None))
                    && yields_on_clone(ps.8, input, Err(None))
                    && yields_on_clone(ps.9, input, Err(None))
                    && yields_on_clone(ps.10, input, Err(None))
                    && yields_on_clone(ps.11, input, Err(None))
                    && yields_on_clone(ps.12, input, Err(None))
                    && yields_on_clone(ps.13, input, Err(None))
                    && yields_on_clone(ps.14, input, res)
                ||| yields_on_clone(ps.0, input, Err(None))
                    && yields_on_clone(ps.1, input, Err(None))
                    && yields_on_clone(ps.2, input, Err(None))
                    && yields_on_clone(ps.3, input, Err(None))
                    && yields_on_clone(ps.4, input, Err(None))
                    && yields_on_clone(ps.5, input, Err(None))
                    && yields_on_clone(ps.6, input, Err(None))
                    && yields_on_clone(ps.7, input, Err(None))
                    && yields_on_clone(ps.8, input, Err(None))
                    && yields_on_clone(ps.9, input, Err(None))
                    && yields_on_clone(ps.10, input, Err(None))
                    && yields_on_clone(ps.11, input, Err(None))
                    && yields_on_clone(ps.12, input, Err(None))
                    && yields_on_clone(ps.13, input, Err(None))
                    && yields_on_clone(ps.14, input, Err(None))
                    && yields_on_clone(ps.15, input, res)
                ||| yields_on_clone(ps.0, input, Err(None))
                    && yields_on_clone(ps.1, input, Err(None))
                    && yields_on_clone(ps.2, input, Err(None))
                    && yields_on_clone(ps.3, input, Err(None))
                    && yields_on_clone(ps.4, input, Err(None))
                    && yields_on_clone(ps.5, input, Err(None))
                    && yields_on_clone(ps.6, input, Err(None))
                    && yields_on_clone(ps.7, input, Err(None))
                    && yields_on_clone(ps.8, input, Err(None))
                    && yields_on_clone(ps.9, input, Err(None))
                    && yields_on_clone(ps.10, input, Err(None))
                    && yields_on_clone(ps.11, input, Err(None))
                    && yields_on_clone(ps.12, input, Err(None))
                    && yields_on_clone(ps.13, input, Err(None))
                    && yields_on_clone(ps.14, input, Err(None))
                    && yields_on_clone(ps.15, input, Err(None))
                    && yields_on_clone(ps.16, input, res)
                ||| yields_on_clone(ps.0, input, Err(None))
                    && yields_on_clone(ps.1, input, Err(None))
                    && yields_on_clone(ps.2, input, Err(None))
                    && yields_on_clone(ps.3, input, Err(None))
                    && yields_on_clone(ps.4, input, Err(None))
                    && yields_on_clone(ps.5, input, Err(None))
                    && yields_on_clone(ps.6, input, Err(None))
                    && yields_on_clone(ps.7, input, Err(None))
                    && yields_on_clone(ps.8, input, Err(None))
                    && yields_on_clone(ps.9, input, Err(None))
                    && yields_on_clone(ps.10, input, Err(None))
                    && yields_on_clone(ps.11, input, Err(None))
                    && yields_on_clone(ps.12, input, Err(None))
                    && yields_on_clone(ps.13, input, Err(None))
                    && yields_on_clone(ps.14, input, Err(None))
                    && yields_on_clone(ps.15, input, Err(None))
                    && yields_on_clone(ps.16, input, Err(None))
                    && yields_on_clone(ps.17, input, res)
                ||| yields_on_clone(ps.0, input, Err(None))
                    && yields_on_clone(ps.1, input, Err(None))
                    && yields_on_clone(ps.2, input, Err(None))
                    && yields_on_clone(ps.3, input, Err(None))
                    && yields_on_clone(ps.4, input, Err(None))
                    && yields_on_clone(ps.5, input, Err(None))
                    && yields_on_clone(ps.6, input, Err(None))
                    && yields_on_clone(ps.7, input, Err(None))
                    && yields_on_clone(ps.8, input, Err(None))
                    && yields_on_clone(ps.9, input, Err(None))
                    && yields_on_clone(ps.10, input, Err(None))
                    && yields_on_clone(ps.11, input, Err(None))
                    && yields_on_clone(ps.12, input, Err(None))
                    && yields_on_clone(ps.13, input, Err(None))
                    && yields_on_clone(ps.14, input, Err(None))
                    && yields_on_clone(ps.15, input, Err(None))
                    && yields_on_clone(ps.16, input, Err(None))
                    && yields_on_clone(ps.17, input, Err(None))
                    && yields_on_clone(ps.18, input, res)
                ||| yields_on_clone(ps.0, input, Err(None))
                    && yields_on_clone(ps.1, input, Err(None))
                    && yields_on_clone(ps.2, input, Err(None))
                    && yields_on_clone(ps.3, input, Err(None))
                    && yields_on_clone(ps.4, input, Err(None))
                    && yields_on_clone(ps.5, input, Err(None))
                    && yields_on_clone(ps.6, input, Err(None))
                    && yields_on_clone(ps.7, input, Err(None))
                    && yields_on_clone(ps.8, input, Err(None))
                    && yields_on_clone(ps.9, input, Err(None))
                    && yields_on_clone(ps.10, input, Err(None))
                    && yields_on_clone(ps.11, input, Err(None))
                    && yields_on_clone(ps.12, input, Err(None))
                    && yields_on_clone(ps.13, input, Err(None))
                    && yields_on_clone(ps.14, input, Err(None))
                    && yields_on_clone(ps.15, input, Err(None))
                    && yields_on_clone(ps.16, input, Err(None))
                    && yields_on_clone(ps.17, input, Err(None))
                    && yields_on_clone(ps.18, input, Err(None))
                    && yields_on_clone(ps.19, input, res)
                ||| yields_on_clone(ps.0, input, Err(None))
                    && yields_on_clone(ps.1, input, Err(None))
                    && yields_on_clone(ps.2, input, Err(None))
                    && yields_on_clone(ps.3, input, Err(None))
                    && yields_on_clone(ps.4, input, Err(None))
                    && yields_on_clone(ps.5, input, Err(None))
                    && yields_on_clone(ps.6, input, Err(None))
                    && yields_on_clone(ps.7, input, Err(None))
                    && yields_on_clone(ps.8, input, Err(None))
                    && yields_on_clone(ps.9, input, Err(None))
                    && yields_on_clone(ps.10, input, Err(None))
                    && yields_on_clone(ps.11, input, Err(None))
                    && yields_on_clone(ps.12, input, Err(None))
                    && yields_on_clone(ps.13, input, Err(None))
                    && yields_on_clone(ps.14, input, Err(None))
                    && yields_on_clone(ps.15, input, Err(None))
                    && yields_on_clone(ps.16, input, Err(None))
                    && yields_on_clone(ps.17, input, Err(None))
                    && yields_on_clone(ps.18, input, Err(None))
                    && yields_on_clone(ps.19, input, Err(None))
                    && yields_on_clone(ps.20, input, res)
                ||| yields_on_clone(ps.0, input, Err(None))
                    && yields_on_clone(ps.1, input, Err(None))
                    && yields_on_clone(ps.2, input, Err(None))
                    && yields_on_clone(ps.3, input, Err(None))
                    && yields_on_clone(ps.4, input, Err(None))
                    && yields_on_clone(ps.5, input, Err(None))
                    && yields_on_clone(ps.6, input, Err(None))
                    && yields_on_clone(ps.7, input, Err(None))
                    && yields_on_clone(ps.8, input, Err(None))
                    && yields_on_clone(ps.9, input, Err(None))
                    && yields_on_clone(ps.10, input, Err(None))
                    && yields_on_clone(ps.11, input, Err(None))
                    && yields_on_clone(ps.12, input, Err(None))
                    && yields_on_clone(ps.13, input, Err(None))
                    && yields_on_clone(ps.14, input, Err(None))
                    && yields_on_clone(ps.15, input, Err(None))
                    && yields_on_clone(ps.16, input, Err(None))
                    && yields_on_clone(ps.17, input, Err(None))
                    && yields_on_clone(ps.18, input, Err(None))
                    && yields_on_clone(ps.19, input, Err(None))
                    && yields_on_clone(ps.20, input, Err(None))
                    && yields_on_clone(ps.21, input, res)
                ||| yields_on_clone(ps.0, input, Err(None))
                    && yields_on_clone(ps.1, input, Err(None))
                    && yields_on_clone(ps.2, input, Err(None))
                    && yields_on_clone(ps.3, input, Err(None))
                    && yields_on_clone(ps.4, input, Err(None))
                    && yields_on_clone(ps.5, input, Err(None))
                    && yields_on_clone(ps.6, input, Err(None))
                    && yields_on_clone(ps.7, input, Err(None))
                    && yields_on_clone(ps.8, input, Err(None))
                    && yields_on_clone(ps.9, input, Err(None))
                    && yields_on_clone(ps.10, input, Err(None))
                    && yields_on_clone(ps.11, input, Err(None))
                    && yields_on_clone(ps.12, input, Err(None))
                    && yields_on_clone(ps.13, input, Err(None))
                    && yields_on_clone(ps.14, input, Err(None))
                    && yields_on_clone(ps.15, input, Err(None))
                    && yields_on_clone(ps.16, input, Err(None))
                    && yields_on_clone(ps.17, input, Err(None))
                    && yields_on_clone(ps.18, input, Err(None))
                    && yields_on_clone(ps.19, input, Err(None))
                    && yields_on_clone(ps.20, input, Err(None))
                    && yields_on_clone(ps.21, input, Err(None))
                    && yields_on_clone(ps.22, input, res)
                ||| yields_on_clone(ps.0, input, Err(None))
                    && yields_on_clone(ps.1, input, Err(None))
                    && yields_on_clone(ps.2, input, Err(None))
                    && yields_on_clone(ps.3, input, Err(None))
                    && yields_on_clone(ps.4, input, Err(None))
                    && yields_on_clone(ps.5, input, Err(None))
                    && yields_on_clone(ps.6, input, Err(None))
                    && yields_on_clone(ps.7, input, Err(None))
                    && yields_on_clone(ps.8, input, Err(None))
                    && yields_on_clone(ps.9, input, Err(None))
                    && yields_on_clone(ps.10, input, Err(None))
                    && yields_on_clone(ps.11, input, Err(None))
                    && yields_on_clone(ps.12, input, Err(None))
                    && yields_on_clone(ps.13, input, Err(None))
                    && yields_on_clone(ps.14, input, Err(None))
                    && yields_on_clone(ps.15, input, Err(None))
                    && yields_on_clone(ps.16, input, Err(None))
                    && yields_on_clone(ps.17, input, Err(None))
                    && yields_on_clone(ps.18, input, Err(None))
                    && yields_on_clone(ps.19, input, Err(None))
                    && yields_on_clone(ps.20, input, Err(None))
                    && yields_on_clone(ps.21, input, Err(None))
                    && yields_on_clone(ps.22, input, Err(None))
                    && yields_on_clone(ps.23, input, res)
            },
        }
    }

    fn parse(&self, txt: IN) -> (res: Result<(OUT, IN), Option<ER>>) {
        let c0 = txt.clone();
        let r0 = self.ps.0.parse(c0);
        assert(yields_on_clone(self.ps.0, txt, r0));
        match r0 {
            Err(None) => {},
            _ => return r0,
        }
        let c1 = txt.clone();
        let r1 = self.ps.1.parse(c1);
        assert(yields_on_clone(self.ps.1, txt, r1));
        match r1 {
            Err(None) => {},
            _ => return r1,
        }
        let c2 = txt.clone();
        let r2 = self.ps.2.parse(c2);
        assert(yields_on_clone(self.ps.2, txt, r2));
        match r2 {
            Err(None) => {},
            _ => return r2,
        }
        let c3 = txt.clone();
        let r3 = self.ps.3.parse(c3);
        assert(yields_on_clone(self.ps.3, txt, r3));
        match r3 {
            Err(None) => {},
            _ => return r3,
        }
        let c4 = txt.clone();
        let r4 = self.ps.4.parse(c4);
        assert(yields_on_clone(self.ps.4, txt, r4));
        match r4 {
            Err(None) => {},
            _ => return r4,
        }
        let c5 = txt.clone();
        let r5 = self.ps.5.parse(c5);
        assert(yields_on_clone(self.ps.5, txt, r5));
        match r5 {
            Err(None) => {},
            _ => return r5,
        }
        let c6 = txt.clone();
        let r6 = self.ps.6.parse(c6);
        assert(yields_on_clone(self.ps.6, txt, r6));
        match r6 {
            Err(None) => {},
            _ => return r6,
        }
        let c7 = txt.clone();
        let r7 = self.ps.7.parse(c7);
        assert(yields_on_clone(self.ps.7, txt, r7));
        match r7 {
            Err(None) => {},
            _ => return r7,
        }
        let c8 = txt.clone();
        let r8 = self.ps.8.parse(c8);
        assert(yields_on_clone(self.ps.8, txt, r8));
        match r8 {
            Err(None) => {},
            _ => return r8,
        }
        let c9 = txt.clone();
        let r9 = self.ps.9.parse(c9);
        assert(yields_on_clone(self.ps.9, txt, r9));
        match r9 {
            Err(None) => {},
            _ => return r9,
        }
        let c10 = txt.clone();
        let r10 = self.ps.10.parse(c10);
        assert(yields_on_clone(self.ps.10, txt, r10));
        match r10 {
            Err(None) => {},
            _ => return r10,
        }
        let c11 = txt.clone();
        let r11 = self.ps.11.parse(c11);
        assert(yields_on_clone(self.ps.11, txt, r11));
        match r11 {
            Err(None) => {},
            _ => return r11,
        }
        let c12 = txt.clone();
        let r12 = self.ps.12.parse(c12);
        assert(yields_on_clone(self.ps.12, txt, r12));
        match r12 {
            Err(None) => {},
            _ => return r12,
        }
        let c13 = txt.clone();
        let r13 = self.ps.13.parse(c13);
        assert(yields_on_clone(self.ps.13, txt, r13));
        match r13 {
            Err(None) => {},
            _ => return r13,
        }
        let c14 = txt.clone();
        let r14 = self.ps.14.parse(c14);
        assert(yields_on_clone(self.ps.14, txt, r14));
        match r14 {
            Err(None) => {},
            _ => return r14,
        }
        let c15 = txt.clone();
        let r15 = self.ps.15.parse(c15);
        assert(yields_on_clone(self.ps.15, txt, r15));
        match r15 {
            Err(None) => {},
            _ => return r15,
        }
        let c16 = txt.clone();
        let r16 = self.ps.16.parse(c16);
        assert(yields_on_clone(self.ps.16, txt, r16));
        match r16 {
            Err(None) => {},
            _ => return r16,
        }
        let c17 = txt.clone();
        let r17 = self.ps.17.parse(c17);
        assert(yields_on_clone(self.ps.17, txt, r17));
        match r17 {
            Err(None) => {},
            _ => return r17,
        }
        let c18 = txt.clone();
        let r18 = self.ps.18.parse(c18);
        assert(yields_on_clone(self.ps.18, txt, r18));
        match r18 {
            Err(None) => {},
            _ => return r18,
        }
        let c19 = txt.clone();
        let r19 = self.ps.19.parse(c19);
        assert(yields_on_clone(self.ps.19, txt, r19));
        match r19 {
            Err(None) => {},
            _ => return r19,
        }
        let c20 = txt.clone();
        let r20 = self.ps.20.parse(c20);
        assert(yields_on_clone(self.ps.20, txt, r20));
        match r20 {
            Err(None) => {},
            _ => return r20,
        }
        let c21 = txt.clone();
        let r21 = self.ps.21.parse(c21);
        assert(yields_on_clone(self.ps.21, txt, r21));
        match r21 {
            Err(None) => {},
            _ => return r21,
        }
        let c22 = txt.clone();
        let r22 = self.ps.22.parse(c22);
        assert(yields_on_clone(self.ps.22, txt, r22));
        match r22 {
            Err(None) => {},
            _ => return r22,
        }
        let c23 = txt.clone();
        let r23 = self.ps.23.parse(c23);
        assert(yields_on_clone(self.ps.23, txt, r23));
        match r23 {
            Err(None) => {},
            _ => return r23,
        }
        Err(None)
    }
}

/// Over inputs whose clones are equal, a branch of 24 deterministic
/// segments is deterministic.
pub proof fn lemma_branch24_deterministic<IN: Clone, OUT, ER, A, B, C, D, E, F, G, H, I, J, K, L, M, N, O, P, Q, R, S, T, U, V, W, X>(b: Branch<IN, ER, (A, B, C, D, E, F, G, H, I, J, K, L, M, N, O, P, Q, R, S, T, U, V, W, X)>)
    where
        A: Parser<IN, Out = OUT, Error = Option<ER>>,
        B: Parser<IN, Out = OUT, Error = Option<ER>>,
        C: Parser<IN, Out = OUT, Error = Option<ER>>,
        D: Parser<IN, Out = OUT, Error = Option<ER>>,
        E: Parser<IN, Out = OUT, Error = Option<ER>>,
        F: Parser<IN, Out = OUT, Error = Option<ER>>,
        G: Parser<IN, Out = OUT, Error = Option<ER>>,
        H: Parser<IN, Out = OUT, Error = Option<ER>>,
        I: Parser<IN, Out = OUT, Error = Option<ER>>,
        J: Parser<IN, Out = OUT, Error = Option<ER>>,
        K: Parser<IN, Out = OUT, Error = Option<ER>>,
        L: Parser<IN, Out = OUT, Error = Option<ER>>,
        M: Parser<IN, Out = OUT, Error = Option<ER>>,
        N: Parser<IN, Out = OUT, Error = Option<ER>>,
        O: Parser<IN, Out = OUT, Error = Option<ER>>,
        P: Parser<IN, Out = OUT, Error = Option<ER>>,
        Q: Parser<IN, Out = OUT, Error = Option<ER>>,
        R: Parser<IN, Out = OUT, Error = Option<ER>>,
        S: Parser<IN, Out = OUT, Error = Option<ER>>,
        T: Parser<IN, Out = OUT, Error = Option<ER>>,
        U: Parser<IN, Out = OUT, Error = Option<ER>>,
        V: Parser<IN, Out = OUT, Error = Option<ER>>,
        W: Parser<IN, Out = OUT, Error = Option<ER>>,
        X: Parser<IN, Out = OUT, Error = Option<ER>>,
    requires
        clones_are_equal::<IN>(),
        deterministic::<IN, A>(b.segments().0),
        deterministic::<IN, B>(b.segments().1),
        deterministic::<IN, C>(b.segments().2),
        deterministic::<IN, D>(b.segments().3),
        deterministic::<IN, E>(b.segments().4),
        deterministic::<IN, F>(b.segments().5),
        deterministic::<IN, G>(b.segments().6),
        deterministic::<IN, H>(b.segments().7),
        deterministic::<IN, I>(b.segments().8),
        deterministic::<IN, J>(b.segments().9),
        deterministic::<IN, K>(b.segments().10),
        deterministic::<IN, L>(b.segments().11),
        deterministic::<IN, M>(b.segments().12),
        deterministic::<IN, N>(b.segments().13),
        deterministic::<IN, O>(b.segments().14),
        deterministic::<IN, P>(b.segments().15),
        deterministic::<IN, Q>(b.segments().16),
        deterministic::<IN, R>(b.segments().17),
        deterministic::<IN, S>(b.segments().18),
        deterministic::<IN, T>(b.segments().19),
        deterministic::<IN, U>(b.segments().20),
        deterministic::<IN, V>(b.segments().21),
        deterministic::<IN, W>(b.segments().22),
        deterministic::<IN, X>(b.segments().23),
    ensures
        deterministic::<IN, Branch<IN, ER, (A, B, C, D, E, F, G, H, I, J, K, L, M, N, O, P, Q, R, S, T, U, V, W, X)>>(b),
{
    lemma_clones_are_transparent::<IN, A>(b.segments().0);
    lemma_clones_are_transparent::<IN, B>(b.segments().1);
    lemma_clones_are_transparent::<IN, C>(b.segments().2);
    lemma_clones_are_transparent::<IN, D>(b.segments().3);
    lemma_clones_are_transparent::<IN, E>(b.segments().4);
    lemma_clones_are_transparent::<IN, F>(b.segments().5);
    lemma_clones_are_transparent::<IN, G>(b.segments().6);
    lemma_clones_are_transparent::<IN, H>(b.segments().7);
    lemma_clones_are_transparent::<IN, I>(b.segments().8);
    lemma_clones_are_transparent::<IN, J>(b.segments().9);
    lemma_clones_are_transparent::<IN, K>(b.segments().10);
    lemma_clones_are_transparent::<IN, L>(b.segments().11);
    lemma_clones_are_transparent::<IN, M>(b.segments().12);
    lemma_clones_are_transparent::<IN, N>(b.segments().13);
    lemma_clones_are_transparent::<IN, O>(b.segments().14);
    lemma_clones_are_transparent::<IN, P>(b.segments().15);
    lemma_clones_are_transparent::<IN, Q>(b.segments().16);
    lemma_clones_are_transparent::<IN, R>(b.segments().17);
    lemma_clones_are_transparent::<IN, S>(b.segments().18);
    lemma_clones_are_transparent::<IN, T>(b.segments().19);
    lemma_clones_are_transparent::<IN, U>(b.segments().20);
    lemma_clones_are_transparent::<IN, V>(b.segments().21);
    lemma_clones_are_transparent::<IN, W>(b.segments().22);
    lemma_clones_are_transparent::<IN, X>(b.segments().23);
}

impl<IN: Clone, OUT, ER, A, B, C, D, E, F, G, H, I, J, K, L, M, N, O, P, Q, R, S, T, U, V, W, X, Y> From<(A, B, C, D, E, F, G, H, I, J, K, L, M, N, O, P, Q, R, S, T, U, V, W, X, Y)> for Branch<IN, ER, (A, B, C, D, E, F, G, H, I, J, K, L, M, N, O, P, Q, R, S, T, U, V, W, X, Y)> where
    A: Parser<IN, Out = OUT, Error = Option<ER>>,
    B: Parser<IN, Out = OUT, Error = Option<ER>>,
    C: Parser<IN, Out = OUT, Error = Option<ER>>,
    D: Parser<IN, Out = OUT, Error = Option<ER>>,
    E: Parser<IN, Out = OUT, Error = Option<ER>>,
    F: Parser<IN, Out = OUT, Error = Option<ER>>,
    G: Parser<IN, Out = OUT, Error = Option<ER>>,
    H: Parser<IN, Out = OUT, Error = Option<ER>>,
    I: Parser<IN, Out = OUT, Error = Option<ER>>,
    J: Parser<IN, Out = OUT, Error = Option<ER>>,
    K: Parser<IN, Out = OUT, Error = Option<ER>>,
    L: Parser<IN, Out = OUT, Error = Option<ER>>,
    M: Parser<IN, Out = OUT, Error = Option<ER>>,
    N: Parser<IN, Out = OUT, Error = Option<ER>>,
    O: Parser<IN, Out = OUT, Error = Option<ER>>,
    P: Parser<IN, Out = OUT, Error = Option<ER>>,
    Q: Parser<IN, Out = OUT, Error = Option<ER>>,
    R: Parser<IN, Out = OUT, Error = Option<ER>>,
    S: Parser<IN, Out = OUT, Error = Option<ER>>,
    T: Parser<IN, Out = OUT, Error = Option<ER>>,
    U: Parser<IN, Out = OUT, Error = Option<ER>>,
    V: Parser<IN, Out = OUT, Error = Option<ER>>,
    W: Parser<IN, Out = OUT, Error = Option<ER>>,
    X: Parser<IN, Out = OUT, Error = Option<ER>>,
    Y: Parser<IN, Out = OUT, Error = Option<ER>>,
 {
    fn from(ps: (A, B, C, D, E, F, G, H, I, J, K, L, M, N, O, P, Q, R, S, T, U, V, W, X, Y)) -> (r: Self) {
        let r = Self { ps, _ghost: PhantomData };
        proof {
            lemma_branch_determined_by_segments(r, ps);
        }
        r
    }
}

impl<IN: Clone, OUT, ER, A, B, C, D, E, F, G, H, I, J, K, L, M, N, O, P, Q, R, S, T, U, V, W, X, Y> FromSpecImpl<(A, B, C, D, E, F, G, H, I, J, K, L, M, N, O, P, Q, R, S, T, U, V, W, X, Y)> for Branch<IN, ER, (A, B, C, D, E, F, G, H, I, J, K, L, M, N, O, P, Q, R, S, T, U, V, W, X, Y)> where
    A: Parser<IN, Out = OUT, Error = Option<ER>>,
    B: Parser<IN, Out = OUT, Error = Option<ER>>,
    C: Parser<IN, Out = OUT, Error = Option<ER>>,
    D: Parser<IN, Out = OUT, Error = Option<ER>>,
    E: Parser<IN, Out = OUT, Error = Option<ER>>,
    F: Parser<IN, Out = OUT, Error = Option<ER>>,
    G: Parser<IN, Out = OUT, Error = Option<ER>>,
    H: Parser<IN, Out = OUT, Error = Option<ER>>,
    I: Parser<IN, Out = OUT, Error = Option<ER>>,
    J: Parser<IN, Out = OUT, Error = Option<ER>>,
    K: Parser<IN, Out = OUT, Error = Option<ER>>,
    L: Parser<IN, Out = OUT, Error = Option<ER>>,
    M: Parser<IN, Out = OUT, Error = Option<ER>>,
    N: Parser<IN, Out = OUT, Error = Option<ER>>,
    O: Parser<IN, Out = OUT, Error = Option<ER>>,
    P: Parser<IN, Out = OUT, Error = Option<ER>>,
    Q: Parser<IN, Out = OUT, Error = Option<ER>>,
    R: Parser<IN, Out = OUT, Error = Option<ER>>,
    S: Parser<IN, Out = OUT, Error = Option<ER>>,
    T: Parser<IN, Out = OUT, Error = Option<ER>>,
    U: Parser<IN, Out = OUT, Error = Option<ER>>,
    V: Parser<IN, Out = OUT, Error = Option<ER>>,
    W: Parser<IN, Out = OUT, Error = Option<ER>>,
    X: Parser<IN, Out = OUT, Error = Option<ER>>,
    Y: Parser<IN, Out = OUT, Error = Option<ER>>,
 {
    open spec fn obeys_from_spec() -> bool {
        true
    }

    open spec fn from_spec(ps: (A, B, C, D, E, F, G, H, I, J, K, L, M, N, O, P, Q, R, S, T, U, V, W, X, Y)) -> Self {
        choose|b: Self| b.segments() == ps
    }
}

/// A branch between 25 segments with one output type.
impl<IN: Clone, OUT, ER, A, B, C, D, E, F, G, H, I, J, K, L, M, N, O, P, Q, R, S, T, U, V, W, X, Y> Parser<IN> for Branch<IN, ER, (A, B, C, D, E, F, G, H, I, J, K, L, M, N, O, P, Q, R, S, T, U, V, W, X, Y)> where
    A: Parser<IN, Out = OUT, Error = Option<ER>>,
    B: Parser<IN, Out = OUT, Error = Option<ER>>,
    C: Parser<IN, Out = OUT, Error = Option<ER>>,
    D: Parser<IN, Out = OUT, Error = Option<ER>>,
    E: Parser<IN, Out = OUT, Error = Option<ER>>,
    F: Parser<IN, Out = OUT, Error = Option<ER>>,
    G: Parser<IN, Out = OUT, Error = Option<ER>>,
    H: Parser<IN, Out = OUT, Error = Option<ER>>,
    I: Parser<IN, Out = OUT, Error = Option<ER>>,
    J: Parser<IN, Out = OUT, Error = Option<ER>>,
    K: Parser<IN, Out = OUT, Error = Option<ER>>,
    L: Parser<IN, Out = OUT, Error = Option<ER>>,
    M: Parser<IN, Out = OUT, Error = Option<ER>>,
    N: Parser<IN, Out = OUT, Error = Option<ER>>,
    O: Parser<IN, Out = OUT, Error = Option<ER>>,
    P: Parser<IN, Out = OUT, Error = Option<ER>>,
    Q: Parser<IN, Out = OUT, Error = Option<ER>>,
    R: Parser<IN, Out = OUT, Error = Option<ER>>,
    S: Parser<IN, Out = OUT, Error = Option<ER>>,
    T: Parser<IN, Out = OUT, Error = Option<ER>>,
    U: Parser<IN, Out = OUT, Error = Option<ER>>,
    V: Parser<IN, Out = OUT, Error = Option<ER>>,
    W: Parser<IN, Out = OUT, Error = Option<ER>>,
    X: Parser<IN, Out = OUT, Error = Option<ER>>,
    Y: Parser<IN, Out = OUT, Error = Option<ER>>,
 {
    type Out = OUT;

    type Error = Option<ER>;

    open spec fn parse_requires(&self, input: IN) -> bool {
        let ps = self.segments();
        &&& accepts_clones(ps.0, input)
        &&& yields_on_clone(ps.0, input, Err(None))
            ==> accepts_clones(ps.1, input)
        &&& yields_on_clone(ps.0, input, Err(None))
            && yields_on_clone(ps.1, input, Err(None))
            ==> accepts_clones(ps.2, input)
        &&& yields_on_clone(ps.0, input, Err(None))
            && yields_on_clone(ps.1, input, Err(None))
            && yields_on_clone(ps.2, input, Err(None))
            ==> accepts_clones(ps.3, input)
        &&& yields_on_clone(ps.0, input, Err(None))
            && yields_on_clone(ps.1, input, Err(None))
            && yields_on_clone(ps.2, input, Err(None))
            && yields_on_clone(ps.3, input, Err(None))
            ==> accepts_clones(ps.4, input)
        &&& yields_on_clone(ps.0, input, Err(None))
            && yields_on_clone(ps.1, input, Err(None))
            && yields_on_clone(ps.2, input, Err(None))
            && yields_on_clone(ps.3, input, Err(None))
            && yields_on_clone(ps.4, input, Err(None))
            ==> accepts_clones(ps.5, input)
        &&& yields_on_clone(ps.0, input, Err(None))
            && yields_on_clone(ps.1, input, Err(None))
            && yields_on_clone(ps.2, input, Err(None))
            && yields_on_clone(ps.3, input, Err(None))
            && yields_on_clone(ps.4, input, Err(None))
            && yields_on_clone(ps.5, input, Err(None))
            ==> accepts_clones(ps.6, input)
        &&& yields_on_clone(ps.0, input, Err(None))
            && yields_on_clone(ps.1, input, Err(None))
            && yields_on_clone(ps.2, input, Err(None))
            && yields_on_clone(ps.3, input, Err(None))
            && yields_on_clone(ps.4, input, Err(None))
            && yields_on_clone(ps.5, input, Err(None))
            && yields_on_clone(ps.6, input, Err(None))
            ==> accepts_clones(ps.7, input)
        &&& yields_on_clone(ps.0, input, Err(None))
            && yields_on_clone(ps.1, input, Err(None))
            && yields_on_clone(ps.2, input, Err(None))
            && yields_on_clone(ps.3, input, Err(None))
            && yields_on_clone(ps.4, input, Err(None))
            && yields_on_clone(ps.5, input, Err(None))
            && yields_on_clone(ps.6, input, Err(None))
            && yields_on_clone(ps.7, input, Err(None))
            ==> accepts_clones(ps.8, input)
        &&& yields_on_clone(ps.0, input, Err(None))
            && yields_on_clone(ps.1, input, Err(None))
            && yields_on_clone(ps.2, input, Err(None))
            && yields_on_clone(ps.3, input, Err(None))
            && yields_on_clone(ps.4, input, Err(None))
            && yields_on_clone(ps.5, input, Err(None))
            && yields_on_clone(ps.6, input, Err(None))
            && yields_on_clone(ps.7, input, Err(None))
            && yields_on_clone(ps.8, input, Err(None))
            ==> accepts_clones(ps.9, input)
        &&& yields_on_clone(ps.0, input, Err(None))
            && yields_on_clone(ps.1, input, Err(None))
            && yields_on_clone(ps.2, input, Err(None))
            && yields_on_clone(ps.3, input, Err(None))
            && yields_on_clone(ps.4, input, Err(None))
            && yields_on_clone(ps.5, input, Err(None))
            && yields_on_clone(ps.6, input, Err(None))
            && yields_on_clone(ps.7, input, Err(None))
            && yields_on_clone(ps.8, input, Err(None))
            && yields_on_clone(ps.9, input, Err(None))
            ==> accepts_clones(ps.10, input)
        &&& yields_on_clone(ps.0, input, Err(None))
            && yields_on_clone(ps.1, input, Err(None))
            && yields_on_clone(ps.2, input, Err(None))
            && yields_on_clone(ps.3, input, Err(None))
            && yields_on_clone(ps.4, input, Err(None))
            && yields_on_clone(ps.5, input, Err(None))
            && yields_on_clone(ps.6, input, Err(None))
            && yields_on_clone(ps.7, input, Err(None))
            && yields_on_clone(ps.8, input, Err(None))
            && yields_on_clone(ps.9, input, Err(None))
            && yields_on_clone(ps.10, input, Err(None))
            ==> accepts_clones(ps.11, input)
        &&& yields_on_clone(ps.0, input, Err(None))
            && yields_on_clone(ps.1, input, Err(None))
            && yields_on_clone(ps.2, input, Err(None))
            && yields_on_clone(ps.3, input, Err(None))
            && yields_on_clone(ps.4, input, Err(None))
            && yields_on_clone(ps.5, input, Err(None))
            && yields_on_clone(ps.6, input, Err(None))
            && yields_on_clone(ps.7, input, Err(None))
            && yields_on_clone(ps.8, input, Err(None))
            && yields_on_clone(ps.9, input, Err(None))
            && yields_on_clone(ps.10, input, Err(None))
            && yields_on_clone(ps.11, input, Err(None))
            ==> accepts_clones(ps.12, input)
        &&& yields_on_clone(ps.0, input, Err(None))
            && yields_on_clone(ps.1, input, Err(None))
            && yields_on_clone(ps.2, input, Err(None))
            && yields_on_clone(ps.3, input, Err(None))
            && yields_on_clone(ps.4, input, Err(None))
            && yields_on_clone(ps.5, input, Err(None))
            && yields_on_clone(ps.6, input, Err(None))
            && yields_on_clone(ps.7, input, Err(None))
            && yields_on_clone(ps.8, input, Err(None))
            && yields_on_clone(ps.9, input, Err(None))
            && yields_on_clone(ps.10, input, Err(None))
            && yields_on_clone(ps.11, input, Err(None))
            && yields_on_clone(ps.12, input, Err(None))
            ==> accepts_clones(ps.13, input)
        &&& yields_on_clone(ps.0, input, Err(None))
            && yields_on_clone(ps.1, input, Err(None))
            && yields_on_clone(ps.2, input, Err(None))
            && yields_on_clone(ps.3, input, Err(None))
            && yields_on_clone(ps.4, input, Err(None))
            && yields_on_clone(ps.5, input, Err(None))
            && yields_on_clone(ps.6, input, Err(None))
            && yields_on_clone(ps.7, input, Err(None))
            && yields_on_clone(ps.8, input, Err(None))
            && yields_on_clone(ps.9, input, Err(None))
            && yields_on_clone(ps.10, input, Err(None))
            && yields_on_clone(ps.11, input, Err(None))
            && yields_on_clone(ps.12, input, Err(None))
            && yields_on_clone(ps.13, input, Err(None))
            ==> accepts_clones(ps.14, input)
        &&& yields_on_clone(ps.0, input, Err(None))
            && yields_on_clone(ps.1, input, Err(None))
            && yields_on_clone(ps.2, input, Err(None))
            && yields_on_clone(ps.3, input, Err(None))
            && yields_on_clone(ps.4, input, Err(None))
            && yields_on_clone(ps.5, input, Err(None))
            && yields_on_clone(ps.6, input, Err(None))
            && yields_on_clone(ps.7, input, Err(None))
            && yields_on_clone(ps.8, input, Err(None))
            && yields_on_clone(ps.9, input, Err(None))
            && yields_on_clone(ps.10, input, Err(None))
            && yields_on_clone(ps.11, input, Err(None))
            && yields_on_clone(ps.12, input, Err(None))
            && yields_on_clone(ps.13, input, Err(None))
            && yields_on_clone(ps.14, input, Err(None))
            ==> accepts_clones(ps.15, input)
        &&& yields_on_clone(ps.0, input, Err(None))
            && yields_on_clone(ps.1, input, Err(None))
            && yields_on_clone(ps.2, input, Err(None))
            && yields_on_clone(ps.3, input, Err(None))
            && yields_on_clone(ps.4, input, Err(None))
            && yields_on_clone(ps.5, input, Err(None))
            && yields_on_clone(ps.6, input, Err(None))
            && yields_on_clone(ps.7, input, Err(None))
            && yields_on_clone(ps.8, input, Err(None))
            && yields_on_clone(ps.9, input, Err(None))
            && yields_on_clone(ps.10, input, Err(None))
            && yields_on_clone(ps.11, input, Err(None))
            && yields_on_clone(ps.12, input, Err(None))
            && yields_on_clone(ps.13, input, Err(None))
            && yields_on_clone(ps.14, input, Err(None))
            && yields_on_clone(ps.15, input, Err(None))
            ==> accepts_clones(ps.16, input)
        &&& yields_on_clone(ps.0, input, Err(None))
            && yields_on_clone(ps.1, input, Err(None))
            && yields_on_clone(ps.2, input, Err(None))
            && yields_on_clone(ps.3, input, Err(None))
            && yields_on_clone(ps.4, input, Err(None))
            && yields_on_clone(ps.5, input, Err(None))
            && yields_on_clone(ps.6, input, Err(None))
            && yields_on_clone(ps.7, input, Err(None))
            && yields_on_clone(ps.8, input, Err(None))
            && yields_on_clone(ps.9, input, Err(None))
            && yields_on_clone(ps.10, input, Err(None))
            && yields_on_clone(ps.11, input, Err(None))
            && yields_on_clone(ps.12, input, Err(None))
            && yields_on_clone(ps.13, input, Err(None))
            && yields_on_clone(ps.14, input, Err(None))
            && yields_on_clone(ps.15, input, Err(None))
            && yields_on_clone(ps.16, input, Err(None))
            ==> accepts_clones(ps.17, input)
        &&& yields_on_clone(ps.0, input, Err(None))
            && yields_on_clone(ps.1, input, Err(None))
            && yields_on_clone(ps.2, input, Err(None))
            && yields_on_clone(ps.3, input, Err(None))
            && yields_on_clone(ps.4, input, Err(None))
            && yields_on_clone(ps.5, input, Err(None))
            && yields_on_clone(ps.6, input, Err(None))
            && yields_on_clone(ps.7, input, Err(None))
            && yields_on_clone(ps.8, input, Err(None))
            && yields_on_clone(ps.9, input, Err(None))
            && yields_on_clone(ps.10, input, Err(None))
            && yields_on_clone(ps.11, input, Err(None))
            && yields_on_clone(ps.12, input, Err(None))
            && yields_on_clone(ps.13, input, Err(None))
            && yields_on_clone(ps.14, input, Err(None))
            && yields_on_clone(ps.15, input, Err(None))
            && yields_on_clone(ps.16, input, Err(None))
            && yields_on_clone(ps.17, input, Err(None))
            ==> accepts_clones(ps.18, input)
        &&& yields_on_clone(ps.0, input, Err(None))
            && yields_on_clone(ps.1, input, Err(None))
            && yields_on_clone(ps.2, input, Err(None))
            && yields_on_clone(ps.3, input, Err(None))
            && yields_on_clone(ps.4, input, Err(None))
            && yields_on_clone(ps.5, input, Err(None))
            && yields_on_clone(ps.6, input, Err(None))
            && yields_on_clone(ps.7, input, Err(None))
            && yields_on_clone(ps.8, input, Err(None))
            && yields_on_clone(ps.9, input, Err(None))
            && yields_on_clone(ps.10, input, Err(None))
            && yields_on_clone(ps.11, input, Err(None))
            && yields_on_clone(ps.12, input, Err(None))
            && yields_on_clone(ps.13, input, Err(None))
            && yields_on_clone(ps.14, input, Err(None))
            && yields_on_clone(ps.15, input, Err(None))
            && yields_on_clone(ps.16, input, Err(None))
            && yields_on_clone(ps.17, input, Err(None))
            && yields_on_clone(ps.18, input, Err(None))
            ==> accepts_clones(ps.19, input)
        &&& yields_on_clone(ps.0, input, Err(None))
            && yields_on_clone(ps.1, input, Err(None))
            && yields_on_clone(ps.2, input, Err(None))
            && yields_on_clone(ps.3, input, Err(None))
            && yields_on_clone(ps.4, input, Err(None))
            && yields_on_clone(ps.5, input, Err(None))
            && yields_on_clone(ps.6, input, Err(None))
            && yields_on_clone(ps.7, input, Err(None))
            && yields_on_clone(ps.8, input, Err(None))
            && yields_on_clone(ps.9, input, Err(None))
            && yields_on_clone(ps.10, input, Err(None))
            && yields_on_clone(ps.11, input, Err(None))
            && yields_on_clone(ps.12, input, Err(None))
            && yields_on_clone(ps.13, input, Err(None))
            && yields_on_clone(ps.14, input, Err(None))
            && yields_on_clone(ps.15, input, Err(None))
            && yields_on_clone(ps.16, input, Err(None))
            && yields_on_clone(ps.17, input, Err(None))
            && yields_on_clone(ps.18, input, Err(None))
            && yields_on_clone(ps.19, input, Err(None))
            ==> accepts_clones(ps.20, input)
        &&& yields_on_clone(ps.0, input, Err(None))
            && yields_on_clone(ps.1, input, Err(None))
            && yields_on_clone(ps.2, input, Err(None))
            && yields_on_clone(ps.3, input, Err(None))
            && yields_on_clone(ps.4, input, Err(None))
            && yields_on_clone(ps.5, input, Err(None))
            && yields_on_clone(ps.6, input, Err(None))
            && yields_on_clone(ps.7, input, Err(None))
            && yields_on_clone(ps.8, input, Err(None))
            && yields_on_clone(ps.9, input, Err(None))
            && yields_on_clone(ps.10, input, Err(None))
            && yields_on_clone(ps.11, input, Err(None))
            && yields_on_clone(ps.12, input, Err(None))
            && yields_on_clone(ps.13, input, Err(None))
            && yields_on_clone(ps.14, input, Err(None))
            && yields_on_clone(ps.15, input, Err(None))
            && yields_on_clone(ps.16, input, Err(None))
            && yields_on_clone(ps.17, input, Err(None))
            && yields_on_clone(ps.18, input, Err(None))
            && yields_on_clone(ps.19, input, Err(None))
            && yields_on_clone(ps.20, input, Err(None))
            ==> accepts_clones(ps.21, input)
        &&& yields_on_clone(ps.0, input, Err(None))
            && yields_on_clone(ps.1, input, Err(None))
            && yields_on_clone(ps.2, input, Err(None))
            && yields_on_clone(ps.3, input, Err(None))
            && yields_on_clone(ps.4, input, Err(None))
            && yields_on_clone(ps.5, input, Err(None))
            && yields_on_clone(ps.6, input, Err(None))
            && yields_on_clone(ps.7, input, Err(None))
            && yields_on_clone(ps.8, input, Err(None))
            && yields_on_clone(ps.9, input, Err(None))
            && yields_on_clone(ps.10, input, Err(None))
            && yields_on_clone(ps.11, input, Err(None))
            && yields_on_clone(ps.12, input, Err(None))
            && yields_on_clone(ps.13, input, Err(None))
            && yields_on_clone(ps.14, input, Err(None))
            && yields_on_clone(ps.15, input, Err(None))
            && yields_on_clone(ps.16, input, Err(None))
            && yields_on_clone(ps.17, input, Err(None))
            && yields_on_clone(ps.18, input, Err(None))
            && yields_on_clone(ps.19, input, Err(None))
            && yields_on_clone(ps.20, input, Err(None))
            && yields_on_clone(ps.21, input, Err(None))
            ==> accepts_clones(ps.22, input)
        &&& yields_on_clone(ps.0, input, Err(None))
            && yields_on_clone(ps.1, input, Err(None))
            && yields_on_clone(ps.2, input, Err(None))
            && yields_on_clone(ps.3, input, Err(None))
            && yields_on_clone(ps.4, input, Err(None))
            && yields_on_clone(ps.5, input, Err(None))
            && yields_on_clone(ps.6, input, Err(None))
            && yields_on_clone(ps.7, input, Err(None))
            && yields_on_clone(ps.8, input, Err(None))
            && yields_on_clone(ps.9, input, Err(None))
            && yields_on_clone(ps.10, input, Err(None))
            && yields_on_clone(ps.11, input, Err(None))
            && yields_on_clone(ps.12, input, Err(None))
            && yields_on_clone(ps.13, input, Err(None))
            && yields_on_clone(ps.14, input, Err(None))
            && yields_on_clone(ps.15, input, Err(None))
            && yields_on_clone(ps.16, input, Err(None))
            && yields_on_clone(ps.17, input, Err(None))
            && yields_on_clone(ps.18, input, Err(None))
            && yields_on_clone(ps.19, input, Err(None))
            && yields_on_clone(ps.20, input, Err(None))
            && yields_on_clone(ps.21, input, Err(None))
            && yields_on_clone(ps.22, input, Err(None))
            ==> accepts_clones(ps.23, input)
        &&& yields_on_clone(ps.0, input, Err(None))
            && yields_on_clone(ps.1, input, Err(None))
            && yields_on_clone(ps.2, input, Err(None))
            && yields_on_clone(ps.3, input, Err(None))
            && yields_on_clone(ps.4, input, Err(None))
            && yields_on_clone(ps.5, input, Err(None))
            && yields_on_clone(ps.6, input, Err(None))
            && yields_on_clone(ps.7, input, Err(None))
            && yields_on_clone(ps.8, input, Err(None))
            && yields_on_clone(ps.9, input, Err(None))
            && yields_on_clone(ps.10, input, Err(None))
            && yields_on_clone(ps.11, input, Err(None))
            && yields_on_clone(ps.12, input, Err(None))
            && yields_on_clone(ps.13, input, Err(None))
            && yields_on_clone(ps.14, input, Err(None))
            && yields_on_clone(ps.15, input, Err(None))
            && yields_on_clone(ps.16, input, Err(None))
            && yields_on_clone(ps.17, input, Err(None))
            && yields_on_clone(ps.18, input, Err(None))
            && yields_on_clone(ps.19, input, Err(None))
            && yields_on_clone(ps.20, input, Err(None))
            && yields_on_clone(ps.21, input, Err(None))
            && yields_on_clone(ps.22, input, Err(None))
            && yields_on_clone(ps.23, input, Err(None))
            ==> accepts_clones(ps.24, input)
    }

    open spec fn parse_ensures(&self, input: IN, res: Result<(OUT, IN), Option<ER>>) -> bool {
        let ps = self.segments();
        match res {
            Err(None) => {
                &&& yields_on_clone(ps.0, input, Err(None))
                &&& yields_on_clone(ps.1, input, Err(None))
                &&& yields_on_clone(ps.2, input, Err(None))
                &&& yields_on_clone(ps.3, input, Err(None))
                &&& yields_on_clone(ps.4, input, Err(None))
                &&& yields_on_clone(ps.5, input, Err(None))
                &&& yields_on_clone(ps.6, input, Err(None))
                &&& yields_on_clone(ps.7, input, Err(None))
                &&& yields_on_clone(ps.8, input, Err(None))
                &&& yields_on_clone(ps.9, input, Err(None))
                &&& yields_on_clone(ps.10, input, Err(None))
                &&& yields_on_clone(ps.11, input, Err(None))
                &&& yields_on_clone(ps.12, input, Err(None))
                &&& yields_on_clone(ps.13, input, Err(None))
                &&& yields_on_clone(ps.14, input, Err(None))
                &&& yields_on_clone(ps.15, input, Err(None))
                &&& yields_on_clone(ps.16, input, Err(None))
                &&& yields_on_clone(ps.17, input, Err(None))
                &&& yields_on_clone(ps.18, input, Err(None))
                &&& yields_on_clone(ps.19, input, Err(None))
                &&& yields_on_clone(ps.20, input, Err(None))
                &&& yields_on_clone(ps.21, input, Err(None))
                &&& yields_on_clone(ps.22, input, Err(None))
                &&& yields_on_clone(ps.23, input, Err(None))
                &&& yields_on_clone(ps.24, input, Err(None))
            },
            _ => {
                ||| yields_on_clone(ps.0, input, res)
                ||| yields_on_clone(ps.0, input, Err(None))
                    && yields_on_clone(ps.1, input, res)
                ||| yields_on_clone(ps.0, input, Err(None))
                    && yields_on_clone(ps.1, input, Err(None))
                    && yields_on_clone(ps.2, input, res)
                ||| yields_on_clone(ps.0, input, Err(None))
                    && yields_on_clone(ps.1, input, Err(None))
                    && yields_on_clone(ps.2, input, Err(None))
                    && yields_on_clone(ps.3, input, res)
                ||| yields_on_clone(ps.0, input, Err(None))
                    && yields_on_clone(ps.1, input, Err(None))
                    && yields_on_clone(ps.2, input, Err(None))
                    && yields_on_clone(ps.3, input, Err(None))
                    && yields_on_clone(ps.4, input, res)
                ||| yields_on_clone(ps.0, input, Err(None))
                    && yields_on_clone(ps.1, input, Err(None))
                    && yields_on_clone(ps.2, input, Err(None))
                    && yields_on_clone(ps.3, input, Err(None))
                    && yields_on_clone(ps.4, input, Err(None))
                    && yields_on_clone(ps.5, input, res)
                ||| yields_on_clone(ps.0, input, Err(None))
                    && yields_on_clone(ps.1, input, Err(None))
                    && yields_on_clone(ps.2, input, Err(None))
                    && yields_on_clone(ps.3, input, Err(None))
                    && yields_on_clone(ps.4, input, Err(None))
                    && yields_on_clone(ps.5, input, Err(None))
                    && yields_on_clone(ps.6, input, res)
                ||| yields_on_clone(ps.0, input, Err(None))
                    && yields_on_clone(ps.1, input, Err(None))
                    && yields_on_clone(ps.2, input, Err(None))
                    && yields_on_clone(ps.3, input, Err(None))
                    && yields_on_clone(ps.4, input, Err(None))
                    && yields_on_clone(ps.5, input, Err(None))
                    && yields_on_clone(ps.6, input, Err(None))
                    && yields_on_clone(ps.7, input, res)
                ||| yields_on_clone(ps.0, input, Err(None))
                    && yields_on_clone(ps.1, input, Err(None))
                    && yields_on_clone(ps.2, input, Err(None))
                    && yields_on_clone(ps.3, input, Err(None))
                    && yields_on_clone(ps.4, input, Err(None))
                    && yields_on_clone(ps.5, input, Err(None))
                    && yields_on_clone(ps.6, input, Err(None))
                    && yields_on_clone(ps.7, input, Err(None))
                    && yields_on_clone(ps.8, input, res)
                ||| yields_on_clone(ps.0, input, Err(None))
                    && yields_on_clone(ps.1, input, Err(None))
                    && yields_on_clone(ps.2, input, Err(None))
                    && yields_on_clone(ps.3, input, Err(None))
                    && yields_on_clone(ps.4, input, Err(None))
                    && yields_on_clone(ps.5, input, Err(None))
                    && yields_on_clone(ps.6, input, Err(None))
                    && yields_on_clone(ps.7, input, Err(None))
                    && yields_on_clone(ps.8, input, Err(None))
                    && yields_on_clone(ps.9, input, res)
                ||| yields_on_clone(ps.0, input, Err(None))
                    && yields_on_clone(ps.1, input, Err(None))
                    && yields_on_clone(ps.2, input, Err(None))
                    && yields_on_clone(ps.3, input, Err(None))
                    && yields_on_clone(ps.4, input, Err(None))
                    && yields_on_clone(ps.5, input, Err(None))
                    && yields_on_clone(ps.6, input, Err(None))
                    && yields_on_clone(ps.7, input, Err(None))
                    && yields_on_clone(ps.8, input, Err(None))
                    && yields_on_clone(ps.9, input, Err(None))
                    && yields_on_clone(ps.10, input, res)
                ||| yields_on_clone(ps.0, input, Err(None))
                    && yields_on_clone(ps.1, input, Err(None))
                    && yields_on_clone(ps.2, input, Err(None))
                    && yields_on_clone(ps.3, input, Err(None))
                    && yields_on_clone(ps.4, input, Err(None))
                    && yields_on_clone(ps.5, input, Err(None))
                    && yields_on_clone(ps.6, input, Err(None))
                    && yields_on_clone(ps.7, input, Err(None))
                    && yields_on_clone(ps.8, input, Err(None))
                    && yields_on_clone(ps.9, input, Err(None))
                    && yields_on_clone(ps.10, input, Err(None))
                    && yields_on_clone(ps.11, input, res)
                ||| yields_on_clone(ps.0, input, Err(None))
                    && yields_on_clone(ps.1, input, Err(None))
                    && yields_on_clone(ps.2, input, Err(None))
                    && yields_on_clone(ps.3, input, Err(None))
                    && yields_on_clone(ps.4, input, Err(None))
                    && yields_on_clone(ps.5, input, Err(None))
                    && yields_on_clone(ps.6, input, Err(None))
                    && yields_on_clone(ps.7, input, Err(None))
                    && yields_on_clone(ps.8, input, Err(None))
                    && yields_on_clone(ps.9, input, Err(None))
                    && yields_on_clone(ps.10, input, Err(None))
                    && yields_on_clone(ps.11, input, Err(None))
                    && yields_on_clone(ps.12, input, res)
                ||| yields_on_clone(ps.0, input, Err(None))
                    && yields_on_clone(ps.1, input, Err(None))
                    && yields_on_clone(ps.2, input, Err(None))
                    && yields_on_clone(ps.3, input, Err(None))
                    && yields_on_clone(ps.4, input, Err(None))
                    && yields_on_clone(ps.5, input, Err(None))
                    && yields_on_clone(ps.6, input, Err(None))
                    && yields_on_clone(ps.7, input, Err(None))
                    && yields_on_clone(ps.8, input, Err(None))
                    && yields_on_clone(ps.9, input, Err(None))
                    && yields_on_clone(ps.10, input, Err(None))
                    && yields_on_clone(ps.11, input, Err(None))
                    && yields_on_clone(ps.12, input, Err(None))
                    && yields_on_clone(ps.13, input, res)
                ||| yields_on_clone(ps.0, input, Err(None))
                    && yields_on_clone(ps.1, input, Err(None))
                    && yields_on_clone(ps.2, input, Err(None))
                    && yields_on_clone(ps.3, input, Err(None))
                    && yields_on_clone(ps.4, input, Err(None))
                    && yields_on_clone(ps.5, input, Err(None))
                    && yields_on_clone(ps.6, input, Err(None))
                    && yields_on_clone(ps.7, input, Err(None))
                    && yields_on_clone(ps.8, input, Err(None))
                    && yields_on_clone(ps.9, input, Err(None))
                    && yields_on_clone(ps.10, input, Err(None))
                    && yields_on_clone(ps.11, input, Err(None))
                    && yields_on_clone(ps.12, input, Err(None))
                    && yields_on_clone(ps.13, input, Err(None))
                    && yields_on_clone(ps.14, input, res)
                ||| yields_on_clone(ps.0, input, Err(None))
                    && yields_on_clone(ps.1, input, Err(None))
                    && yields_on_clone(ps.2, input, Err(None))
                    && yields_on_clone(ps.3, input, Err(None))
                    && yields_on_clone(ps.4, input, Err(None))
                    && yields_on_clone(ps.5, input, Err(None))
                    && yields_on_clone(ps.6, input, Err(None))
                    && yields_on_clone(ps.7, input, Err(None))
                    && yields_on_clone(ps.8, input, Err(None))
                    && yields_on_clone(ps.9, input, Err(None))
                    && yields_on_clone(ps.10, input, Err(None))
                    && yields_on_clone(ps.11, input, Err(None))
                    && yields_on_clone(ps.12, input, Err(None))
                    && yields_on_clone(ps.13, input, Err(None))
                    && yields_on_clone(ps.14, input, Err(None))
                    && yields_on_clone(ps.15, input, res)
                ||| yields_on_clone(ps.0, input, Err(None))
                    && yields_on_clone(ps.1, input, Err(None))
                    && yields_on_clone(ps.2, input, Err(None))
                    && yields_on_clone(ps.3, input, Err(None))
                    && yields_on_clone(ps.4, input, Err(None))
                    && yields_on_clone(ps.5, input, Err(None))
                    && yields_on_clone(ps.6, input, Err(None))
                    && yields_on_clone(ps.7, input, Err(None))
                    && yields_on_clone(ps.8, input, Err(None))
                    && yields_on_clone(ps.9, input, Err(None))
                    && yields_on_clone(ps.10, input, Err(None))
                    && yields_on_clone(ps.11, input, Err(None))
                    && yields_on_clone(ps.12, input, Err(None))
                    && yields_on_clone(ps.13, input, Err(None))
                    && yields_on_clone(ps.14, input, Err(None))
                    && yields_on_clone(ps.15, input, Err(None))
                    && yields_on_clone(ps.16, input, res)
                ||| yields_on_clone(ps.0, input, Err(None))
                    && yields_on_clone(ps.1, input, Err(None))
                    && yields_on_clone(ps.2, input, Err(None))
                    && yields_on_clone(ps.3, input, Err(None))
                    && yields_on_clone(ps.4, input, Err(None))
                    && yields_on_clone(ps.5, input, Err(None))
                    && yields_on_clone(ps.6, input, Err(None))
                    && yields_on_clone(ps.7, input, Err(None))
                    && yields_on_clone(ps.8, input, Err(None))
                    && yields_on_clone(ps.9, input, Err(None))
                    && yields_on_clone(ps.10, input, Err(None))
                    && yields_on_clone(ps.11, input, Err(None))
                    && yields_on_clone(ps.12, input, Err(None))
                    && yields_on_clone(ps.13, input, Err(None))
                    && yields_on_clone(ps.14, input, Err(None))
                    && yields_on_clone(ps.15, input, Err(None))
                    && yields_on_clone(ps.16, input, Err(None))
                    && yields_on_clone(ps.17, input, res)
                ||| yields_on_clone(ps.0, input, Err(None))
                    && yields_on_clone(ps.1, input, Err(None))
                    && yields_on_clone(ps.2, input, Err(None))
                    && yields_on_clone(ps.3, input, Err(None))
                    && yields_on_clone(ps.4, input, Err(None))
                    && yields_on_clone(ps.5, input, Err(None))
                    && yields_on_clone(ps.6, input, Err(None))
                    && yields_on_clone(ps.7, input, Err(None))
                    && yields_on_clone(ps.8, input, Err(None))
                    && yields_on_clone(ps.9, input, Err(None))
                    && yields_on_clone(ps.10, input, Err(None))
                    && yields_on_clone(ps.11, input, Err(None))
                    && yields_on_clone(ps.12, input, Err(None))
                    && yields_on_clone(ps.13, input, Err(None))
                    && yields_on_clone(ps.14, input, Err(None))
                    && yields_on_clone(ps.15, input, Err(None))
                    && yields_on_clone(ps.16, input, Err(None))
                    && yields_on_clone(ps.17, input, Err(None))
                    && yields_on_clone(ps.18, input, res)
                ||| yields_on_clone(ps.0, input, Err(None))
                    && yields_on_clone(ps.1, input, Err(None))
                    && yields_on_clone(ps.2, input, Err(None))
                    && yields_on_clone(ps.3, input, Err(None))
                    && yields_on_clone(ps.4, input, Err(None))
                    && yields_on_clone(ps.5, input, Err(None))
                    && yields_on_clone(ps.6, input, Err(None))
                    && yields_on_clone(ps.7, input, Err(None))
                    && yields_on_clone(ps.8, input, Err(None))
                    && yields_on_clone(ps.9, input, Err(None))
                    && yields_on_clone(ps.10, input, Err(None))
                    && yields_on_clone(ps.11, input, Err(None))
                    && yields_on_clone(ps.12, input, Err(None))
                    && yields_on_clone(ps.13, input, Err(None))
                    && yields_on_clone(ps.14, input, Err(None))
                    && yields_on_clone(ps.15, input, Err(None))
                    && yields_on_clone(ps.16, input, Err(None))
                    && yields_on_clone(ps.17, input, Err(None))
                    && yields_on_clone(ps.18, input, Err(None))
                    && yields_on_clone(ps.19, input, res)
                ||| yields_on_clone(ps.0, input, Err(None))
                    && yields_on_clone(ps.1, input, Err(None))
                    && yields_on_clone(ps.2, input, Err(None))
                    && yields_on_clone(ps.3, input, Err(None))
                    && yields_on_clone(ps.4, input, Err(None))
                    && yields_on_clone(ps.5, input, Err(None))
                    && yields_on_clone(ps.6, input, Err(None))
                    && yields_on_clone(ps.7, input, Err(None))
                    && yields_on_clone(ps.8, input, Err(None))
                    && yields_on_clone(ps.9, input, Err(None))
                    && yields_on_clone(ps.10, input, Err(None))
                    && yields_on_clone(ps.11, input, Err(None))
                    && yields_on_clone(ps.12, input, Err(None))
                    && yields_on_clone(ps.13, input, Err(None))
                    && yields_on_clone(ps.14, input, Err(None))
                    && yields_on_clone(ps.15, input, Err(None))
                    && yields_on_clone(ps.16, input, Err(None))
                    && yields_on_clone(ps.17, input, Err(None))
                    && yields_on_clone(ps.18, input, Err(None))
                    && yields_on_clone(ps.19, input, Err(None))
                    && yields_on_clone(ps.20, input, res)
                ||| yields_on_clone(ps.0, input, Err(None))
                    && yields_on_clone(ps.1, input, Err(None))
                    && yields_on_clone(ps.2, input, Err(None))
                    && yields_on_clone(ps.3, input, Err(None))
                    && yields_on_clone(ps.4, input, Err(None))
                    && yields_on_clone(ps.5, input, Err(None))
                    && yields_on_clone(ps.6, input, Err(None))
                    && yields_on_clone(ps.7, input, Err(None))
                    && yields_on_clone(ps.8, input, Err(None))
                    && yields_on_clone(ps.9, input, Err(None))
                    && yields_on_clone(ps.10, input, Err(None))
                    && yields_on_clone(ps.11, input, Err(None))
                    && yields_on_clone(ps.12, input, Err(None))
                    && yields_on_clone(ps.13, input, Err(None))
                    && yields_on_clone(ps.14, input, Err(None))
                    && yields_on_clone(ps.15, input, Err(None))
                    && yields_on_clone(ps.16, input, Err(None))
                    && yields_on_clone(ps.17, input, Err(None))
                    && yields_on_clone(ps.18, input, Err(None))
                    && yields_on_clone(ps.19, input, Err(None))
                    && yields_on_clone(ps.20, input, Err(None))
                    && yields_on_clone(ps.21, input, res)
                ||| yields_on_clone(ps.0, input, Err(None))
                    && yields_on_clone(ps.1, input, Err(None))
                    && yields_on_clone(ps.2, input, Err(None))
                    && yields_on_clone(ps.3, input, Err(None))
                    && yields_on_clone(ps.4, input, Err(None))
                    && yields_on_clone(ps.5, input, Err(None))
                    && yields_on_clone(ps.6, input, Err(None))
                    && yields_on_clone(ps.7, input, Err(None))
                    && yields_on_clone(ps.8, input, Err(None))
                    && yields_on_clone(ps.9, input, Err(None))
                    && yields_on_clone(ps.10, input, Err(None))
                    && yields_on_clone(ps.11, input, Err(None))
                    && yields_on_clone(ps.12, input, Err(None))
                    && yields_on_clone(ps.13, input, Err(None))
                    && yields_on_clone(ps.14, input, Err(None))
                    && yields_on_clone(ps.15, input, Err(None))
                    && yields_on_clone(ps.16, input, Err(None))
                    && yields_on_clone(ps.17, input, Err(None))
                    && yields_on_clone(ps.18, input, Err(None))
                    && yields_on_clone(ps.19, input, Err(None))
                    && yields_on_clone(ps.20, input, Err(None))
                    && yields_on_clone(ps.21, input, Err(None))
                    && yields_on_clone(ps.22, input, res)
                ||| yields_on_clone(ps.0, input, Err(None))
                    && yields_on_clone(ps.1, input, Err(None))
                    && yields_on_clone(ps.2, input, Err(None))
                    && yields_on_clone(ps.3, input, Err(None))
                    && yields_on_clone(ps.4, input, Err(None))
                    && yields_on_clone(ps.5, input, Err(None))
                    && yields_on_clone(ps.6, input, Err(None))
                    && yields_on_clone(ps.7, input, Err(None))
                    && yields_on_clone(ps.8, input, Err(None))
                    && yields_on_clone(ps.9, input, Err(None))
                    && yields_on_clone(ps.10, input, Err(None))
                    && yields_on_clone(ps.11, input, Err(None))
                    && yields_on_clone(ps.12, input, Err(None))
                    && yields_on_clone(ps.13, input, Err(None))
                    && yields_on_clone(ps.14, input, Err(None))
                    && yields_on_clone(ps.15, input, Err(None))
                    && yields_on_clone(ps.16, input, Err(None))
                    && yields_on_clone(ps.17, input, Err(None))
                    && yields_on_clone(ps.18, input, Err(None))
                    && yields_on_clone(ps.19, input, Err(None))
                    && yields_on_clone(ps.20, input, Err(None))
                    && yields_on_clone(ps.21, input, Err(None))
                    && yields_on_clone(ps.22, input, Err(None))
                    && yields_on_clone(ps.23, input, res)
                ||| yields_on_clone(ps.0, input, Err(None))
                    && yields_on_clone(ps.1, input, Err(None))
                    && yields_on_clone(ps.2, input, Err(None))
                    && yields_on_clone(ps.3, input, Err(None))
                    && yields_on_clone(ps.4, input, Err(None))
                    && yields_on_clone(ps.5, input, Err(None))
                    && yields_on_clone(ps.6, input, Err(None))
                    && yields_on_clone(ps.7, input, Err(None))
                    && yields_on_clone(ps.8, input, Err(None))
                    && yields_on_clone(ps.9, input, Err(None))
                    && yields_on_clone(ps.10, input, Err(None))
                    && yields_on_clone(ps.11, input, Err(None))
                    && yields_on_clone(ps.12, input, Err(None))
                    && yields_on_clone(ps.13, input, Err(None))
                    && yields_on_clone(ps.14, input, Err(None))
                    && yields_on_clone(ps.15, input, Err(None))
                    && yields_on_clone(ps.16, input, Err(None))
                    && yields_on_clone(ps.17, input, Err(None))
                    && yields_on_clone(ps.18, input, Err(None))
                    && yields_on_clone(ps.19, input, Err(None))
                    && yields_on_clone(ps.20, input, Err(None))
                    && yields_on_clone(ps.21, input, Err(None))
                    && yields_on_clone(ps.22, input, Err(None))
                    && yields_on_clone(ps.23, input, Err(None))
                    && yields_on_clone(ps.24, input, res)
            },
        }
    }

    fn parse(&self, txt: IN) -> (res: Result<(OUT, IN), Option<ER>>) {
        let c0 = txt.clone();
        let r0 = self.ps.0.parse(c0);
        assert(yields_on_clone(self.ps.0, txt, r0));
        match r0 {
            Err(None) => {},
            _ => return r0,
        }
        let c1 = txt.clone();
        let r1 = self.ps.1.parse(c1);
        assert(yields_on_clone(self.ps.1, txt, r1));
        match r1 {
            Err(None) => {},
            _ => return r1,
        }
        let c2 = txt.clone();
        let r2 = self.ps.2.parse(c2);
        assert(yields_on_clone(self.ps.2, txt, r2));
        match r2 {
            Err(None) => {},
            _ => return r2,
        }
        let c3 = txt.clone();
        let r3 = self.ps.3.parse(c3);
        assert(yields_on_clone(self.ps.3, txt, r3));
        match r3 {
            Err(None) => {},
            _ => return r3,
        }
        let c4 = txt.clone();
        let r4 = self.ps.4.parse(c4);
        assert(yields_on_clone(self.ps.4, txt, r4));
        match r4 {
            Err(None) => {},
            _ => return r4,
        }
        let c5 = txt.clone();
        let r5 = self.ps.5.parse(c5);
        assert(yields_on_clone(self.ps.5, txt, r5));
        match r5 {
            Err(None) => {},
            _ => return r5,
        }
        let c6 = txt.clone();
        let r6 = self.ps.6.parse(c6);
        assert(yields_on_clone(self.ps.6, txt, r6));
        match r6 {
            Err(None) => {},
            _ => return r6,
        }
        let c7 = txt.clone();
        let r7 = self.ps.7.parse(c7);
        assert(yields_on_clone(self.ps.7, txt, r7));
        match r7 {
            Err(None) => {},
            _ => return r7,
        }
        let c8 = txt.clone();
        let r8 = self.ps.8.parse(c8);
        assert(yields_on_clone(self.ps.8, txt, r8));
        match r8 {
            Err(None) => {},
            _ => return r8,
        }
        let c9 = txt.clone();
        let r9 = self.ps.9.parse(c9);
        assert(yields_on_clone(self.ps.9, txt, r9));
        match r9 {
            Err(None) => {},
            _ => return r9,
        }
        let c10 = txt.clone();
        let r10 = self.ps.10.parse(c10);
        assert(yields_on_clone(self.ps.10, txt, r10));
        match r10 {
            Err(None) => {},
            _ => return r10,
        }
        let c11 = txt.clone();
        let r11 = self.ps.11.parse(c11);
        assert(yields_on_clone(self.ps.11, txt, r11));
        match r11 {
            Err(None) => {},
            _ => return r11,
        }
        let c12 = txt.clone();
        let r12 = self.ps.12.parse(c12);
        assert(yields_on_clone(self.ps.12, txt, r12));
        match r12 {
            Err(None) => {},
            _ => return r12,
        }
        let c13 = txt.clone();
        let r13 = self.ps.13.parse(c13);
        assert(yields_on_clone(self.ps.13, txt, r13));
        match r13 {
            Err(None) => {},
            _ => return r13,
        }
        let c14 = txt.clone();
        let r14 = self.ps.14.parse(c14);
        assert(yields_on_clone(self.ps.14, txt, r14));
        match r14 {
            Err(None) => {},
            _ => return r14,
        }
        let c15 = txt.clone();
        let r15 = self.ps.15.parse(c15);
        assert(yields_on_clone(self.ps.15, txt, r15));
        match r15 {
            Err(None) => {},
            _ => return r15,
        }
        let c16 = txt.clone();
        let r16 = self.ps.16.parse(c16);
        assert(yields_on_clone(self.ps.16, txt, r16));
        match r16 {
            Err(None) => {},
            _ => return r16,
        }
        let c17 = txt.clone();
        let r17 = self.ps.17.parse(c17);
        assert(yields_on_clone(self.ps.17, txt, r17));
        match r17 {
            Err(None) => {},
            _ => return r17,
        }
        let c18 = txt.clone();
        let r18 = self.ps.18.parse(c18);
        assert(yields_on_clone(self.ps.18, txt, r18));
        match r18 {
            Err(None) => {},
            _ => return r18,
        }
        let c19 = txt.clone();
        let r19 = self.ps.19.parse(c19);
        assert(yields_on_clone(self.ps.19, txt, r19));
        match r19 {
            Err(None) => {},
            _ => return r19,
        }
        let c20 = txt.clone();
        let r20 = self.ps.20.parse(c20);
        assert(yields_on_clone(self.ps.20, txt, r20));
        match r20 {
            Err(None) => {},
            _ => return r20,
        }
        let c21 = txt.clone();
        let r21 = self.ps.21.parse(c21);
        assert(yields_on_clone(self.ps.21, txt, r21));
        match r21 {
            Err(None) => {},
            _ => return r21,
        }
        let c22 = txt.clone();
        let r22 = self.ps.22.parse(c22);
        assert(yields_on_clone(self.ps.22, txt, r22));
        match r22 {
            Err(None) => {},
            _ => return r22,
        }
        let c23 = txt.clone();
        let r23 = self.ps.23.parse(c23);
        assert(yields_on_clone(self.ps.23, txt, r23));
        match r23 {
            Err(None) => {},
            _ => return r23,
        }
        let c24 = txt.clone();
        let r24 = self.ps.24.parse(c24);
        assert(yields_on_clone(self.ps.24, txt, r24));
        match r24 {
            Err(None) => {},
            _ => return r24,
        }
        Err(None)
    }
}

/// Over inputs whose clones are equal, a branch of 25 deterministic
/// segments is deterministic.
pub proof fn lemma_branch25_deterministic<IN: Clone, OUT, ER, A, B, C, D, E, F, G, H, I, J, K, L, M, N, O, P, Q, R, S, T, U, V, W, X, Y>(b: Branch<IN, ER, (A, B, C, D, E, F, G, H, I, J, K, L, M, N, O, P, Q, R, S, T, U, V, W, X, Y)>)
    where
        A: Parser<IN, Out = OUT, Error = Option<ER>>,
        B: Parser<IN, Out = OUT, Error = Option<ER>>,
        C: Parser<IN, Out = OUT, Error = Option<ER>>,
        D: Parser<IN, Out = OUT, Error = Option<ER>>,
        E: Parser<IN, Out = OUT, Error = Option<ER>>,
        F: Parser<IN, Out = OUT, Error = Option<ER>>,
        G: Parser<IN, Out = OUT, Error = Option<ER>>,
        H: Parser<IN, Out = OUT, Error = Option<ER>>,
        I: Parser<IN, Out = OUT, Error = Option<ER>>,
        J: Parser<IN, Out = OUT, Error = Option<ER>>,
        K: Parser<IN, Out = OUT, Error = Option<ER>>,
        L: Parser<IN, Out = OUT, Error = Option<ER>>,
        M: Parser<IN, Out = OUT, Error = Option<ER>>,
        N: Parser<IN, Out = OUT, Error = Option<ER>>,
        O: Parser<IN, Out = OUT, Error = Option<ER>>,
        P: Parser<IN, Out = OUT, Error = Option<ER>>,
        Q: Parser<IN, Out = OUT, Error = Option<ER>>,
        R: Parser<IN, Out = OUT, Error = Option<ER>>,
        S: Parser<IN, Out = OUT, Error = Option<ER>>,
        T: Parser<IN, Out = OUT, Error = Option<ER>>,
        U: Parser<IN, Out = OUT, Error = Option<ER>>,
        V: Parser<IN, Out = OUT, Error = Option<ER>>,
        W: Parser<IN, Out = OUT, Error = Option<ER>>,
        X: Parser<IN, Out = OUT, Error = Option<ER>>,
        Y: Parser<IN, Out = OUT, Error = Option<ER>>,
    requires
        clones_are_equal::<IN>(),
        deterministic::<IN, A>(b.segments().0),
        deterministic::<IN, B>(b.segments().1),
        deterministic::<IN, C>(b.segments().2),
        deterministic::<IN, D>(b.segments().3),
        deterministic::<IN, E>(b.segments().4),
        deterministic::<IN, F>(b.segments().5),
        deterministic::<IN, G>(b.segments().6),
        deterministic::<IN, H>(b.segments().7),
        deterministic::<IN, I>(b.segments().8),
        deterministic::<IN, J>(b.segments().9),
        deterministic::<IN, K>(b.segments().10),
        deterministic::<IN, L>(b.segments().11),
        deterministic::<IN, M>(b.segments().12),
        deterministic::<IN, N>(b.segments().13),
        deterministic::<IN, O>(b.segments().14),
        deterministic::<IN, P>(b.segments().15),
        deterministic::<IN, Q>(b.segments().16),
        deterministic::<IN, R>(b.segments().17),
        deterministic::<IN, S>(b.segments().18),
        deterministic::<IN, T>(b.segments().19),
        deterministic::<IN, U>(b.segments().20),
        deterministic::<IN, V>(b.segments().21),
        deterministic::<IN, W>(b.segments().22),
        deterministic::<IN, X>(b.segments().23),
        deterministic::<IN, Y>(b.segments().24),
    ensures
        deterministic::<IN, Branch<IN, ER, (A, B, C, D, E, F, G, H, I, J, K, L, M, N, O, P, Q, R, S, T, U, V, W, X, Y)>>(b),
{
    lemma_clones_are_transparent::<IN, A>(b.segments().0);
    lemma_clones_are_transparent::<IN, B>(b.segments().1);
    lemma_clones_are_transparent::<IN, C>(b.segments().2);
    lemma_clones_are_transparent::<IN, D>(b.segments().3);
    lemma_clones_are_transparent::<IN, E>(b.segments().4);
    lemma_clones_are_transparent::<IN, F>(b.segments().5);
    lemma_clones_are_transparent::<IN, G>(b.segments().6);
    lemma_clones_are_transparent::<IN, H>(b.segments().7);
    lemma_clones_are_transparent::<IN, I>(b.segments().8);
    lemma_clones_are_transparent::<IN, J>(b.segments().9);
    lemma_clones_are_transparent::<IN, K>(b.segments().10);
    lemma_clones_are_transparent::<IN, L>(b.segments().11);
    lemma_clones_are_transparent::<IN, M>(b.segments().12);
    lemma_clones_are_transparent::<IN, N>(b.segments().13);
    lemma_clones_are_transparent::<IN, O>(b.segments().14);
    lemma_clones_are_transparent::<IN, P>(b.segments().15);
    lemma_clones_are_transparent::<IN, Q>(b.segments().16);
    lemma_clones_are_transparent::<IN, R>(b.segments().17);
    lemma_clones_are_transparent::<IN, S>(b.segments().18);
    lemma_clones_are_transparent::<IN, T>(b.segments().19);
    lemma_clones_are_transparent::<IN, U>(b.segments().20);
    lemma_clones_are_transparent::<IN, V>(b.segments().21);
    lemma_clones_are_transparent::<IN, W>(b.segments().22);
    lemma_clones_are_transparent::<IN, X>(b.segments().23);
    lemma_clones_are_transparent::<IN, Y>(b.segments().24);
}

impl<IN: Clone, OUT, ER, A, B, C, D, E, F, G, H, I, J, K, L, M, N, O, P, Q, R, S, T, U, V, W, X, Y, Z> From<(A, B, C, D, E, F, G, H, I, J, K, L, M, N, O, P, Q, R, S, T, U, V, W, X, Y, Z)> for Branch<IN, ER, (A, B, C, D, E, F, G, H, I, J, K, L, M, N, O, P, Q, R, S, T, U, V, W, X, Y, Z)> where
    A: Parser<IN, Out = OUT, Error = Option<ER>>,
    B: Parser<IN, Out = OUT, Error = Option<ER>>,
    C: Parser<IN, Out = OUT, Error = Option<ER>>,
    D: Parser<IN, Out = OUT, Error = Option<ER>>,
    E: Parser<IN, Out = OUT, Error = Option<ER>>,
    F: Parser<IN, Out = OUT, Error = Option<ER>>,
    G: Parser<IN, Out = OUT, Error = Option<ER>>,
    H: Parser<IN, Out = OUT, Error = Option<ER>>,
    I: Parser<IN, Out = OUT, Error = Option<ER>>,
    J: Parser<IN, Out = OUT, Error = Option<ER>>,
    K: Parser<IN, Out = OUT, Error = Option<ER>>,
    L: Parser<IN, Out = OUT, Error = Option<ER>>,
    M: Parser<IN, Out = OUT, Error = Option<ER>>,
    N: Parser<IN, Out = OUT, Error = Option<ER>>,
    O: Parser<IN, Out = OUT, Error = Option<ER>>,
    P: Parser<IN, Out = OUT, Error = Option<ER>>,
    Q: Parser<IN, Out = OUT, Error = Option<ER>>,
    R: Parser<IN, Out = OUT, Error = Option<ER>>,
    S: Parser<IN, Out = OUT, Error = Option<ER>>,
    T: Parser<IN, Out = OUT, Error = Option<ER>>,
    U: Parser<IN, Out = OUT, Error = Option<ER>>,
    V: Parser<IN, Out = OUT, Error = Option<ER>>,
    W: Parser<IN, Out = OUT, Error = Option<ER>>,
    X: Parser<IN, Out = OUT, Error = Option<ER>>,
    Y: Parser<IN, Out = OUT, Error = Option<ER>>,
    Z: Parser<IN, Out = OUT, Error = Option<ER>>,
 {
    fn from(ps: (A, B, C, D, E, F, G, H, I, J, K, L, M, N, O, P, Q, R, S, T, U, V, W, X, Y, Z)) -> (r: Self) {
        let r = Self { ps, _ghost: PhantomData };
        proof {
            lemma_branch_determined_by_segments(r, ps);
        }
        r
    }
}

impl<IN: Clone, OUT, ER, A, B, C, D, E, F, G, H, I, J, K, L, M, N, O, P, Q, R, S, T, U, V, W, X, Y, Z> FromSpecImpl<(A, B, C, D, E, F, G, H, I, J, K, L, M, N, O, P, Q, R, S, T, U, V, W, X, Y, Z)> for Branch<IN, ER, (A, B, C, D, E, F, G, H, I, J, K, L, M, N, O, P, Q, R, S, T, U, V, W, X, Y, Z)> where
    A: Parser<IN, Out = OUT, Error = Option<ER>>,
    B: Parser<IN, Out = OUT, Error = Option<ER>>,
    C: Parser<IN, Out = OUT, Error = Option<ER>>,
    D: Parser<IN, Out = OUT, Error = Option<ER>>,
    E: Parser<IN, Out = OUT, Error = Option<ER>>,
    F: Parser<IN, Out = OUT, Error = Option<ER>>,
    G: Parser<IN, Out = OUT, Error = Option<ER>>,
    H: Parser<IN, Out = OUT, Error = Option<ER>>,
    I: Parser<IN, Out = OUT, Error = Option<ER>>,
    J: Parser<IN, Out = OUT, Error = Option<ER>>,
    K: Parser<IN, Out = OUT, Error = Option<ER>>,
    L: Parser<IN, Out = OUT, Error = Option<ER>>,
    M: Parser<IN, Out = OUT, Error = Option<ER>>,
    N: Parser<IN, Out = OUT, Error = Option<ER>>,
    O: Parser<IN, Out = OUT, Error = Option<ER>>,
    P: Parser<IN, Out = OUT, Error = Option<ER>>,
    Q: Parser<IN, Out = OUT, Error = Option<ER>>,
    R: Parser<IN, Out = OUT, Error = Option<ER>>,
    S: Parser<IN, Out = OUT, Error = Option<ER>>,
    T: Parser<IN, Out = OUT, Error = Option<ER>>,
    U: Parser<IN, Out = OUT, Error = Option<ER>>,
    V: Parser<IN, Out = OUT, Error = Option<ER>>,
    W: Parser<IN, Out = OUT, Error = Option<ER>>,
    X: Parser<IN, Out = OUT, Error = Option<ER>>,
    Y: Parser<IN, Out = OUT, Error = Option<ER>>,
    Z: Parser<IN, Out = OUT, Error = Option<ER>>,
 {
    open spec fn obeys_from_spec() -> bool {
        true
    }

    open spec fn from_spec(ps: (A, B, C, D, E, F, G, H, I, J, K, L, M, N, O, P, Q, R, S, T, U, V, W, X, Y, Z)) -> Self {
        choose|b: Self| b.segments() == ps
    }
}

/// A branch between 26 segments with one output type.
impl<IN: Clone, OUT, ER, A, B, C, D, E, F, G, H, I, J, K, L, M, N, O, P, Q, R, S, T, U, V, W, X, Y, Z> Parser<IN> for Branch<IN, ER, (A, B, C, D, E, F, G, H, I, J, K, L, M, N, O, P, Q, R, S, T, U, V, W, X, Y, Z)> where
    A: Parser<IN, Out = OUT, Error = Option<ER>>,
    B: Parser<IN, Out = OUT, Error = Option<ER>>,
    C: Parser<IN, Out = OUT, Error = Option<ER>>,
    D: Parser<IN, Out = OUT, Error = Option<ER>>,
    E: Parser<IN, Out = OUT, Error = Option<ER>>,
    F: Parser<IN, Out = OUT, Error = Option<ER>>,
    G: Parser<IN, Out = OUT, Error = Option<ER>>,
    H: Parser<IN, Out = OUT, Error = Option<ER>>,
    I: Parser<IN, Out = OUT, Error = Option<ER>>,
    J: Parser<IN, Out = OUT, Error = Option<ER>>,
    K: Parser<IN, Out = OUT, Error = Option<ER>>,
    L: Parser<IN, Out = OUT, Error = Option<ER>>,
    M: Parser<IN, Out = OUT, Error = Option<ER>>,
    N: Parser<IN, Out = OUT, Error = Option<ER>>,
    O: Parser<IN, Out = OUT, Error = Option<ER>>,
    P: Parser<IN, Out = OUT, Error = Option<ER>>,
    Q: Parser<IN, Out = OUT, Error = Option<ER>>,
    R: Parser<IN, Out = OUT, Error = Option<ER>>,
    S: Parser<IN, Out = OUT, Error = Option<ER>>,
    T: Parser<IN, Out = OUT, Error = Option<ER>>,
    U: Parser<IN, Out = OUT, Error = Option<ER>>,
    V: Parser<IN, Out = OUT, Error = Option<ER>>,
    W: Parser<IN, Out = OUT, Error = Option<ER>>,
    X: Parser<IN, Out = OUT, Error = Option<ER>>,
    Y: Parser<IN, Out = OUT, Error = Option<ER>>,
    Z: Parser<IN, Out = OUT, Error = Option<ER>>,
 {
    type Out = OUT;

    type Error = Option<ER>;

    open spec fn parse_requires(&self, input: IN) -> bool {
        let ps = self.segments();
        &&& accepts_clones(ps.0, input)
        &&& yields_on_clone(ps.0, input, Err(None))
            ==> accepts_clones(ps.1, input)
        &&& yields_on_clone(ps.0, input, Err(None))
            && yields_on_clone(ps.1, input, Err(None))
            ==> accepts_clones(ps.2, input)
        &&& yields_on_clone(ps.0, input, Err(None))
            && yields_on_clone(ps.1, input, Err(None))
            && yields_on_clone(ps.2, input, Err(None))
            ==> accepts_clones(ps.3, input)
        &&& yields_on_clone(ps.0, input, Err(None))
            && yields_on_clone(ps.1, input, Err(None))
            && yields_on_clone(ps.2, input, Err(None))
            && yields_on_clone(ps.3, input, Err(None))
            ==> accepts_clones(ps.4, input)
        &&& yields_on_clone(ps.0, input, Err(None))
            && yields_on_clone(ps.1, input, Err(None))
            && yields_on_clone(ps.2, input, Err(None))
            && yields_on_clone(ps.3, input, Err(None))
            && yields_on_clone(ps.4, input, Err(None))
            ==> accepts_clones(ps.5, input)
        &&& yields_on_clone(ps.0, input, Err(None))
            && yields_on_clone(ps.1, input, Err(None))
            && yields_on_clone(ps.2, input, Err(None))
            && yields_on_clone(ps.3, input, Err(None))
            && yields_on_clone(ps.4, input, Err(None))
            && yields_on_clone(ps.5, input, Err(None))
            ==> accepts_clones(ps.6, input)
        &&& yields_on_clone(ps.0, input, Err(None))
            && yields_on_clone(ps.1, input, Err(None))
            && yields_on_clone(ps.2, input, Err(None))
            && yields_on_clone(ps.3, input, Err(None))
            && yields_on_clone(ps.4, input, Err(None))
            && yields_on_clone(ps.5, input, Err(None))
            && yields_on_clone(ps.6, input, Err(None))
            ==> accepts_clones(ps.7, input)
        &&& yields_on_clone(ps.0, input, Err(None))
            && yields_on_clone(ps.1, input, Err(None))
            && yields_on_clone(ps.2, input, Err(None))
            && yields_on_clone(ps.3, input, Err(None))
            && yields_on_clone(ps.4, input, Err(None))
            && yields_on_clone(ps.5, input, Err(None))
            && yields_on_clone(ps.6, input, Err(None))
            && yields_on_clone(ps.7, input, Err(None))
            ==> accepts_clones(ps.8, input)
        &&& yields_on_clone(ps.0, input, Err(None))
            && yields_on_clone(ps.1, input, Err(None))
            && yields_on_clone(ps.2, input, Err(None))
            && yields_on_clone(ps.3, input, Err(None))
            && yields_on_clone(ps.4, input, Err(None))
            && yields_on_clone(ps.5, input, Err(None))
            && yields_on_clone(ps.6, input, Err(None))
            && yields_on_clone(ps.7, input, Err(None))
            && yields_on_clone(ps.8, input, Err(None))
            ==> accepts_clones(ps.9, input)
        &&& yields_on_clone(ps.0, input, Err(None))
            && yields_on_clone(ps.1, input, Err(None))
            && yields_on_clone(ps.2, input, Err(None))
            && yields_on_clone(ps.3, input, Err(None))
            && yields_on_clone(ps.4, input, Err(None))
            && yields_on_clone(ps.5, input, Err(None))
            && yields_on_clone(ps.6, input, Err(None))
            && yields_on_clone(ps.7, input, Err(None))
            && yields_on_clone(ps.8, input, Err(None))
            && yields_on_clone(ps.9, input, Err(None))
            ==> accepts_clones(ps.10, input)
        &&& yields_on_clone(ps.0, input, Err(None))
            && yields_on_clone(ps.1, input, Err(None))
            && yields_on_clone(ps.2, input, Err(None))
            && yields_on_clone(ps.3, input, Err(None))
            && yields_on_clone(ps.4, input, Err(None))
            && yields_on_clone(ps.5, input, Err(None))
            && yields_on_clone(ps.6, input, Err(None))
            && yields_on_clone(ps.7, input, Err(None))
            && yields_on_clone(ps.8, input, Err(None))
            && yields_on_clone(ps.9, input, Err(None))
            && yields_on_clone(ps.10, input, Err(None))
            ==> accepts_clones(ps.11, input)
        &&& yields_on_clone(ps.0, input, Err(None))
            && yields_on_clone(ps.1, input, Err(None))
            && yields_on_clone(ps.2, input, Err(None))
            && yields_on_clone(ps.3, input, Err(None))
            && yields_on_clone(ps.4, input, Err(None))
            && yields_on_clone(ps.5, input, Err(None))
            && yields_on_clone(ps.6, input, Err(None))
            && yields_on_clone(ps.7, input, Err(None))
            && yields_on_clone(ps.8, input, Err(None))
            && yields_on_clone(ps.9, input, Err(None))
            && yields_on_clone(ps.10, input, Err(None))
            && yields_on_clone(ps.11, input, Err(None))
            ==> accepts_clones(ps.12, input)
        &&& yields_on_clone(ps.0, input, Err(None))
            && yields_on_clone(ps.1, input, Err(None))
            && yields_on_clone(ps.2, input, Err(None))
            && yields_on_clone(ps.3, input, Err(None))
            && yields_on_clone(ps.4, input, Err(None))
            && yields_on_clone(ps.5, input, Err(None))
            && yields_on_clone(ps.6, input, Err(None))
            && yields_on_clone(ps.7, input, Err(None))
            && yields_on_clone(ps.8, input, Err(None))
            && yields_on_clone(ps.9, input, Err(None))
            && yields_on_clone(ps.10, input, Err(None))
            && yields_on_clone(ps.11, input, Err(None))
            && yields_on_clone(ps.12, input, Err(None))
            ==> accepts_clones(ps.13, input)
        &&& yields_on_clone(ps.0, input, Err(None))
            && yields_on_clone(ps.1, input, Err(None))
            && yields_on_clone(ps.2, input, Err(None))
            && yields_on_clone(ps.3, input, Err(None))
            && yields_on_clone(ps.4, input, Err(None))
            && yields_on_clone(ps.5, input, Err(None))
            && yields_on_clone(ps.6, input, Err(None))
            && yields_on_clone(ps.7, input, Err(None))
            && yields_on_clone(ps.8, input, Err(None))
            && yields_on_clone(ps.9, input, Err(None))
            && yields_on_clone(ps.10, input, Err(None))
            && yields_on_clone(ps.11, input, Err(None))
            && yields_on_clone(ps.12, input, Err(None))
            && yields_on_clone(ps.13, input, Err(None))
            ==> accepts_clones(ps.14, input)
        &&& yields_on_clone(ps.0, input, Err(None))
            && yields_on_clone(ps.1, input, Err(None))
            && yields_on_clone(ps.2, input, Err(None))
            && yields_on_clone(ps.3, input, Err(None))
            && yields_on_clone(ps.4, input, Err(None))
            && yields_on_clone(ps.5, input, Err(None))
            && yields_on_clone(ps.6, input, Err(None))
            && yields_on_clone(ps.7, input, Err(None))
            && yields_on_clone(ps.8, input, Err(None))
            && yields_on_clone(ps.9, input, Err(None))
            && yields_on_clone(ps.10, input, Err(None))
            && yields_on_clone(ps.11, input, Err(None))
            && yields_on_clone(ps.12, input, Err(None))
            && yields_on_clone(ps.13, input, Err(None))
            && yields_on_clone(ps.14, input, Err(None))
            ==> accepts_clones(ps.15, input)
        &&& yields_on_clone(ps.0, input, Err(None))
            && yields_on_clone(ps.1, input, Err(None))
            && yields_on_clone(ps.2, input, Err(None))
            && yields_on_clone(ps.3, input, Err(None))
            && yields_on_clone(ps.4, input, Err(None))
            && yields_on_clone(ps.5, input, Err(None))
            && yields_on_clone(ps.6, input, Err(None))
            && yields_on_clone(ps.7, input, Err(None))
            && yields_on_clone(ps.8, input, Err(None))
            && yields_on_clone(ps.9, input, Err(None))
            && yields_on_clone(ps.10, input, Err(None))
            && yields_on_clone(ps.11, input, Err(None))
            && yields_on_clone(ps.12, input, Err(None))
            && yields_on_clone(ps.13, input, Err(None))
            && yields_on_clone(ps.14, input, Err(None))
            && yields_on_clone(ps.15, input, Err(None))
            ==> accepts_clones(ps.16, input)
        &&& yields_on_clone(ps.0, input, Err(None))
            && yields_on_clone(ps.1, input, Err(None))
            && yields_on_clone(ps.2, input, Err(None))
            && yields_on_clone(ps.3, input, Err(None))
            && yields_on_clone(ps.4, input, Err(None))
            && yields_on_clone(ps.5, input, Err(None))
            && yields_on_clone(ps.6, input, Err(None))
            && yields_on_clone(ps.7, input, Err(None))
            && yields_on_clone(ps.8, input, Err(None))
            && yields_on_clone(ps.9, input, Err(None))
            && yields_on_clone(ps.10, input, Err(None))
            && yields_on_clone(ps.11, input, Err(None))
            && yields_on_clone(ps.12, input, Err(None))
            && yields_on_clone(ps.13, input, Err(None))
            && yields_on_clone(ps.14, input, Err(None))
            && yields_on_clone(ps.15, input, Err(None))
            && yields_on_clone(ps.16, input, Err(None))
            ==> accepts_clones(ps.17, input)
        &&& yields_on_clone(ps.0, input, Err(None))
            && yields_on_clone(ps.1, input, Err(None))
            && yields_on_clone(ps.2, input, Err(None))
            && yields_on_clone(ps.3, input, Err(None))
            && yields_on_clone(ps.4, input, Err(None))
            && yields_on_clone(ps.5, input, Err(None))
            && yields_on_clone(ps.6, input, Err(None))
            && yields_on_clone(ps.7, input, Err(None))
            && yields_on_clone(ps.8, input, Err(None))
            && yields_on_clone(ps.9, input, Err(None))
            && yields_on_clone(ps.10, input, Err(None))
            && yields_on_clone(ps.11, input, Err(None))
            && yields_on_clone(ps.12, input, Err(None))
            && yields_on_clone(ps.13, input, Err(None))
            && yields_on_clone(ps.14, input, Err(None))
            && yields_on_clone(ps.15, input, Err(None))
            && yields_on_clone(ps.16, input, Err(None))
            && yields_on_clone(ps.17, input, Err(None))
            ==> accepts_clones(ps.18, input)
        &&& yields_on_clone(ps.0, input, Err(None))
            && yields_on_clone(ps.1, input, Err(None))
            && yields_on_clone(ps.2, input, Err(None))
            && yields_on_clone(ps.3, input, Err(None))
            && yields_on_clone(ps.4, input, Err(None))
            && yields_on_clone(ps.5, input, Err(None))
            && yields_on_clone(ps.6, input, Err(None))
            && yields_on_clone(ps.7, input, Err(None))
            && yields_on_clone(ps.8, input, Err(None))
            && yields_on_clone(ps.9, input, Err(None))
            && yields_on_clone(ps.10, input, Err(None))
            && yields_on_clone(ps.11, input, Err(None))
            && yields_on_clone(ps.12, input, Err(None))
            && yields_on_clone(ps.13, input, Err(None))
            && yields_on_clone(ps.14, input, Err(None))
            && yields_on_clone(ps.15, input, Err(None))
            && yields_on_clone(ps.16, input, Err(None))
            && yields_on_clone(ps.17, input, Err(None))
            && yields_on_clone(ps.18, input, Err(None))
            ==> accepts_clones(ps.19, input)
        &&& yields_on_clone(ps.0, input, Err(None))
            && yields_on_clone(ps.1, input, Err(None))
            && yields_on_clone(ps.2, input, Err(None))
            && yields_on_clone(ps.3, input, Err(None))
            && yields_on_clone(ps.4, input, Err(None))
            && yields_on_clone(ps.5, input, Err(None))
            && yields_on_clone(ps.6, input, Err(None))
            && yields_on_clone(ps.7, input, Err(None))
            && yields_on_clone(ps.8, input, Err(None))
            && yields_on_clone(ps.9, input, Err(None))
            && yields_on_clone(ps.10, input, Err(None))
            && yields_on_clone(ps.11, input, Err(None))
            && yields_on_clone(ps.12, input, Err(None))
            && yields_on_clone(ps.13, input, Err(None))
            && yields_on_clone(ps.14, input, Err(None))
            && yields_on_clone(ps.15, input, Err(None))
            && yields_on_clone(ps.16, input, Err(None))
            && yields_on_clone(ps.17, input, Err(None))
            && yields_on_clone(ps.18, input, Err(None))
            && yields_on_clone(ps.19, input, Err(None))
            ==> accepts_clones(ps.20, input)
        &&& yields_on_clone(ps.0, input, Err(None))
            && yields_on_clone(ps.1, input, Err(None))
            && yields_on_clone(ps.2, input, Err(None))
            && yields_on_clone(ps.3, input, Err(None))
            && yields_on_clone(ps.4, input, Err(None))
            && yields_on_clone(ps.5, input, Err(None))
            && yields_on_clone(ps.6, input, Err(None))
            && yields_on_clone(ps.7, input, Err(None))
            && yields_on_clone(ps.8, input, Err(None))
            && yields_on_clone(ps.9, input, Err(None))
            && yields_on_clone(ps.10, input, Err(None))
            && yields_on_clone(ps.11, input, Err(None))
            && yields_on_clone(ps.12, input, Err(None))
            && yields_on_clone(ps.13, input, Err(None))
            && yields_on_clone(ps.14, input, Err(None))
            && yields_on_clone(ps.15, input, Err(None))
            && yields_on_clone(ps.16, input, Err(None))
            && yields_on_clone(ps.17, input, Err(None))
            && yields_on_clone(ps.18, input, Err(None))
            && yields_on_clone(ps.19, input, Err(None))
            && yields_on_clone(ps.20, input, Err(None))
            ==> accepts_clones(ps.21, input)
        &&& yields_on_clone(ps.0, input, Err(None))
            && yields_on_clone(ps.1, input, Err(None))
            && yields_on_clone(ps.2, input, Err(None))
            && yields_on_clone(ps.3, input, Err(None))
            && yields_on_clone(ps.4, input, Err(None))
            && yields_on_clone(ps.5, input, Err(None))
            && yields_on_clone(ps.6, input, Err(None))
            && yields_on_clone(ps.7, input, Err(None))
            && yields_on_clone(ps.8, input, Err(None))
            && yields_on_clone(ps.9, input, Err(None))
            && yields_on_clone(ps.10, input, Err(None))
            && yields_on_clone(ps.11, input, Err(None))
            && yields_on_clone(ps.12, input, Err(None))
            && yields_on_clone(ps.13, input, Err(None))
            && yields_on_clone(ps.14, input, Err(None))
            && yields_on_clone(ps.15, input, Err(None))
            && yields_on_clone(ps.16, input, Err(None))
            && yields_on_clone(ps.17, input, Err(None))
            && yields_on_clone(ps.18, input, Err(None))
            && yields_on_clone(ps.19, input, Err(None))
            && yields_on_clone(ps.20, input, Err(None))
            && yields_on_clone(ps.21, input, Err(None))
            ==> accepts_clones(ps.22, input)
        &&& yields_on_clone(ps.0, input, Err(None))
            && yields_on_clone(ps.1, input, Err(None))
            && yields_on_clone(ps.2, input, Err(None))
            && yields_on_clone(ps.3, input, Err(None))
            && yields_on_clone(ps.4, input, Err(None))
            && yields_on_clone(ps.5, input, Err(None))
            && yields_on_clone(ps.6, input, Err(None))
            && yields_on_clone(ps.7, input, Err(None))
            && yields_on_clone(ps.8, input, Err(None))
            && yields_on_clone(ps.9, input, Err(None))
            && yields_on_clone(ps.10, input, Err(None))
            && yields_on_clone(ps.11, input, Err(None))
            && yields_on_clone(ps.12, input, Err(None))
            && yields_on_clone(ps.13, input, Err(None))
            && yields_on_clone(ps.14, input, Err(None))
            && yields_on_clone(ps.15, input, Err(None))
            && yields_on_clone(ps.16, input, Err(None))
            && yields_on_clone(ps.17, input, Err(None))
            && yields_on_clone(ps.18, input, Err(None))
            && yields_on_clone(ps.19, input, Err(None))
            && yields_on_clone(ps.20, input, Err(None))
            && yields_on_clone(ps.21, input, Err(None))
            && yields_on_clone(ps.22, input, Err(None))
            ==> accepts_clones(ps.23, input)
        &&& yields_on_clone(ps.0, input, Err(None))
            && yields_on_clone(ps.1, input, Err(None))
            && yields_on_clone(ps.2, input, Err(None))
            && yields_on_clone(ps.3, input, Err(None))
            && yields_on_clone(ps.4, input, Err(None))
            && yields_on_clone(ps.5, input, Err(None))
            && yields_on_clone(ps.6, input, Err(None))
            && yields_on_clone(ps.7, input, Err(None))
            && yields_on_clone(ps.8, input, Err(None))
            && yields_on_clone(ps.9, input, Err(None))
            && yields_on_clone(ps.10, input, Err(None))
            && yields_on_clone(ps.11, input, Err(None))
            && yields_on_clone(ps.12, input, Err(None))
            && yields_on_clone(ps.13, input, Err(None))
            && yields_on_clone(ps.14, input, Err(None))
            && yields_on_clone(ps.15, input, Err(None))
            && yields_on_clone(ps.16, input, Err(None))
            && yields_on_clone(ps.17, input, Err(None))
            && yields_on_clone(ps.18, input, Err(None))
            && yields_on_clone(ps.19, input, Err(None))
            && yields_on_clone(ps.20, input, Err(None))
            && yields_on_clone(ps.21, input, Err(None))
            && yields_on_clone(ps.22, input, Err(None))
            && yields_on_clone(ps.23, input, Err(None))
            ==> accepts_clones(ps.24, input)
        &&& yields_on_clone(ps.0, input, Err(None))
            && yields_on_clone(ps.1, input, Err(None))
            && yields_on_clone(ps.2, input, Err(None))
            && yields_on_clone(ps.3, input, Err(None))
            && yields_on_clone(ps.4, input, Err(None))
            && yields_on_clone(ps.5, input, Err(None))
            && yields_on_clone(ps.6, input, Err(None))
            && yields_on_clone(ps.7, input, Err(None))
            && yields_on_clone(ps.8, input, Err(None))
            && yields_on_clone(ps.9, input, Err(None))
            && yields_on_clone(ps.10, input, Err(None))
            && yields_on_clone(ps.11, input, Err(None))
            && yields_on_clone(ps.12, input, Err(None))
            && yields_on_clone(ps.13, input, Err(None))
            && yields_on_clone(ps.14, input, Err(None))
            && yields_on_clone(ps.15, input, Err(None))
            && yields_on_clone(ps.16, input, Err(None))
            && yields_on_clone(ps.17, input, Err(None))
            && yields_on_clone(ps.18, input, Err(None))
            && yields_on_clone(ps.19, input, Err(None))
            && yields_on_clone(ps.20, input, Err(None))
            && yields_on_clone(ps.21, input, Err(None))
            && yields_on_clone(ps.22, input, Err(None))
            && yields_on_clone(ps.23, input, Err(None))
            && yields_on_clone(ps.24, input, Err(None))
            ==> accepts_clones(ps.25, input)
    }

    open spec fn parse_ensures(&self, input: IN, res: Result<(OUT, IN), Option<ER>>) -> bool {
        let ps = self.segments();
        match res {
            Err(None) => {
                &&& yields_on_clone(ps.0, input, Err(None))
                &&& yields_on_clone(ps.1, input, Err(None))
                &&& yields_on_clone(ps.2, input, Err(None))
                &&& yields_on_clone(ps.3, input, Err(None))
                &&& yields_on_clone(ps.4, input, Err(None))
                &&& yields_on_clone(ps.5, input, Err(None))
                &&& yields_on_clone(ps.6, input, Err(None))
                &&& yields_on_clone(ps.7, input, Err(None))
                &&& yields_on_clone(ps.8, input, Err(None))
                &&& yields_on_clone(ps.9, input, Err(None))
                &&& yields_on_clone(ps.10, input, Err(None))
                &&& yields_on_clone(ps.11, input, Err(None))
                &&& yields_on_clone(ps.12, input, Err(None))
                &&& yields_on_clone(ps.13, input, Err(None))
                &&& yields_on_clone(ps.14, input, Err(None))
                &&& yields_on_clone(ps.15, input, Err(None))
                &&& yields_on_clone(ps.16, input, Err(None))
                &&& yields_on_clone(ps.17, input, Err(None))
                &&& yields_on_clone(ps.18, input, Err(None))
                &&& yields_on_clone(ps.19, input, Err(None))
                &&& yields_on_clone(ps.20, input, Err(None))
                &&& yields_on_clone(ps.21, input, Err(None))
                &&& yields_on_clone(ps.22, input, Err(None))
                &&& yields_on_clone(ps.23, input, Err(None))
                &&& yields_on_clone(ps.24, input, Err(None))
                &&& yields_on_clone(ps.25, input, Err(None))
            },
            _ => {
                ||| yields_on_clone(ps.0, input, res)
                ||| yields_on_clone(ps.0, input, Err(None))
                    && yields_on_clone(ps.1, input, res)
                ||| yields_on_clone(ps.0, input, Err(None))
                    && yields_on_clone(ps.1, input, Err(None))
                    && yields_on_clone(ps.2, input, res)
                ||| yields_on_clone(ps.0, input, Err(None))
                    && yields_on_clone(ps.1, input, Err(None))
                    && yields_on_clone(ps.2, input, Err(None))
                    && yields_on_clone(ps.3, input, res)
                ||| yields_on_clone(ps.0, input, Err(None))
                    && yields_on_clone(ps.1, input, Err(None))
                    && yields_on_clone(ps.2, input, Err(None))
                    && yields_on_clone(ps.3, input, Err(None))
                    && yields_on_clone(ps.4, input, res)
                ||| yields_on_clone(ps.0, input, Err(None))
                    && yields_on_clone(ps.1, input, Err(None))
                    && yields_on_clone(ps.2, input, Err(None))
                    && yields_on_clone(ps.3, input, Err(None))
                    && yields_on_clone(ps.4, input, Err(None))
                    && yields_on_clone(ps.5, input, res)
                ||| yields_on_clone(ps.0, input, Err(None))
                    && yields_on_clone(ps.1, input, Err(None))
                    && yields_on_clone(ps.2, input, Err(None))
                    && yields_on_clone(ps.3, input, Err(None))
                    && yields_on_clone(ps.4, input, Err(None))
                    && yields_on_clone(ps.5, input, Err(None))
                    && yields_on_clone(ps.6, input, res)
                ||| yields_on_clone(ps.0, input, Err(None))
                    && yields_on_clone(ps.1, input, Err(None))
                    && yields_on_clone(ps.2, input, Err(None))
                    && yields_on_clone(ps.3, input, Err(None))
                    && yields_on_clone(ps.4, input, Err(None))
                    && yields_on_clone(ps.5, input, Err(None))
                    && yields_on_clone(ps.6, input, Err(None))
                    && yields_on_clone(ps.7, input, res)
                ||| yields_on_clone(ps.0, input, Err(None))
                    && yields_on_clone(ps.1, input, Err(None))
                    && yields_on_clone(ps.2, input, Err(None))
                    && yields_on_clone(ps.3, input, Err(None))
                    && yields_on_clone(ps.4, input, Err(None))
                    && yields_on_clone(ps.5, input, Err(None))
                    && yields_on_clone(ps.6, input, Err(None))
                    && yields_on_clone(ps.7, input, Err(None))
                    && yields_on_clone(ps.8, input, res)
                ||| yields_on_clone(ps.0, input, Err(None))
                    && yields_on_clone(ps.1, input, Err(None))
                    && yields_on_clone(ps.2, input, Err(None))
                    && yields_on_clone(ps.3, input, Err(None))
                    && yields_on_clone(ps.4, input, Err(None))
                    && yields_on_clone(ps.5, input, Err(None))
                    && yields_on_clone(ps.6, input, Err(None))
                    && yields_on_clone(ps.7, input, Err(None))
                    && yields_on_clone(ps.8, input, Err(None))
                    && yields_on_clone(ps.9, input, res)
                ||| yields_on_clone(ps.0, input, Err(None))
                    && yields_on_clone(ps.1, input, Err(None))
                    && yields_on_clone(ps.2, input, Err(None))
                    && yields_on_clone(ps.3, input, Err(None))
                    && yields_on_clone(ps.4, input, Err(None))
                    && yields_on_clone(ps.5, input, Err(None))
                    && yields_on_clone(ps.6, input, Err(None))
                    && yields_on_clone(ps.7, input, Err(None))
                    && yields_on_clone(ps.8, input, Err(None))
                    && yields_on_clone(ps.9, input, Err(None))
                    && yields_on_clone(ps.10, input, res)
                ||| yields_on_clone(ps.0, input, Err(None))
                    && yields_on_clone(ps.1, input, Err(None))
                    && yields_on_clone(ps.2, input, Err(None))
                    && yields_on_clone(ps.3, input, Err(None))
                    && yields_on_clone(ps.4, input, Err(None))
                    && yields_on_clone(ps.5, input, Err(None))
                    && yields_on_clone(ps.6, input, Err(None))
                    && yields_on_clone(ps.7, input, Err(None))
                    && yields_on_clone(ps.8, input, Err(None))
                    && yields_on_clone(ps.9, input, Err(None))
                    && yields_on_clone(ps.10, input, Err(None))
                    && yields_on_clone(ps.11, input, res)
                ||| yields_on_clone(ps.0, input, Err(None))
                    && yields_on_clone(ps.1, input, Err(None))
                    && yields_on_clone(ps.2, input, Err(None))
                    && yields_on_clone(ps.3, input, Err(None))
                    && yields_on_clone(ps.4, input, Err(None))
                    && yields_on_clone(ps.5, input, Err(None))
                    && yields_on_clone(ps.6, input, Err(None))
                    && yields_on_clone(ps.7, input, Err(None))
                    && yields_on_clone(ps.8, input, Err(None))
                    && yields_on_clone(ps.9, input, Err(None))
                    && yields_on_clone(ps.10, input, Err(None))
                    && yields_on_clone(ps.11, input, Err(None))
                    && yields_on_clone(ps.12, input, res)
                ||| yields_on_clone(ps.0, input, Err(None))
                    && yields_on_clone(ps.1, input, Err(None))
                    && yields_on_clone(ps.2, input, Err(None))
                    && yields_on_clone(ps.3, input, Err(None))
                    && yields_on_clone(ps.4, input, Err(None))
                    && yields_on_clone(ps.5, input, Err(None))
                    && yields_on_clone(ps.6, input, Err(None))
                    && yields_on_clone(ps.7, input, Err(None))
                    && yields_on_clone(ps.8, input, Err(None))
                    && yields_on_clone(ps.9, input, Err(None))
                    && yields_on_clone(ps.10, input, Err(None))
                    && yields_on_clone(ps.11, input, Err(None))
                    && yields_on_clone(ps.12, input, Err(None))
                    && yields_on_clone(ps.13, input, res)
                ||| yields_on_clone(ps.0, input, Err(None))
                    && yields_on_clone(ps.1, input, Err(None))
                    && yields_on_clone(ps.2, input, Err(None))
                    && yields_on_clone(ps.3, input, Err(None))
                    && yields_on_clone(ps.4, input, Err(None))
                    && yields_on_clone(ps.5, input, Err(None))
                    && yields_on_clone(ps.6, input, Err(None))
                    && yields_on_clone(ps.7, input, Err(None))
                    && yields_on_clone(ps.8, input, Err(None))
                    && yields_on_clone(ps.9, input, Err(None))
                    && yields_on_clone(ps.10, input, Err(None))
                    && yields_on_clone(ps.11, input, Err(None))
                    && yields_on_clone(ps.12, input, Err(None))
                    && yields_on_clone(ps.13, input, Err(None))
                    && yields_on_clone(ps.14, input, res)
                ||| yields_on_clone(ps.0, input, Err(None))
                    && yields_on_clone(ps.1, input, Err(None))
                    && yields_on_clone(ps.2, input, Err(None))
                    && yields_on_clone(ps.3, input, Err(None))
                    && yields_on_clone(ps.4, input, Err(None))
                    && yields_on_clone(ps.5, input, Err(None))
                    && yields_on_clone(ps.6, input, Err(None))
                    && yields_on_clone(ps.7, input, Err(None))
                    && yields_on_clone(ps.8, input, Err(None))
                    && yields_on_clone(ps.9, input, Err(None))
                    && yields_on_clone(ps.10, input, Err(None))
                    && yields_on_clone(ps.11, input, Err(None))
                    && yields_on_clone(ps.12, input, Err(None))
                    && yields_on_clone(ps.13, input, Err(None))
                    && yields_on_clone(ps.14, input, Err(None))
                    && yields_on_clone(ps.15, input, res)
                ||| yields_on_clone(ps.0, input, Err(None))
                    && yields_on_clone(ps.1, input, Err(None))
                    && yields_on_clone(ps.2, input, Err(None))
                    && yields_on_clone(ps.3, input, Err(None))
                    && yields_on_clone(ps.4, input, Err(None))
                    && yields_on_clone(ps.5, input, Err(None))
                    && yields_on_clone(ps.6, input, Err(None))
                    && yields_on_clone(ps.7, input, Err(None))
                    && yields_on_clone(ps.8, input, Err(None))
                    && yields_on_clone(ps.9, input, Err(None))
                    && yields_on_clone(ps.10, input, Err(None))
                    && yields_on_clone(ps.11, input, Err(None))
                    && yields_on_clone(ps.12, input, Err(None))
                    && yields_on_clone(ps.13, input, Err(None))
                    && yields_on_clone(ps.14, input, Err(None))
                    && yields_on_clone(ps.15, input, Err(None))
                    && yields_on_clone(ps.16, input, res)
                ||| yields_on_clone(ps.0, input, Err(None))
                    && yields_on_clone(ps.1, input, Err(None))
                    && yields_on_clone(ps.2, input, Err(None))
                    && yields_on_clone(ps.3, input, Err(None))
                    && yields_on_clone(ps.4, input, Err(None))
                    && yields_on_clone(ps.5, input, Err(None))
                    && yields_on_clone(ps.6, input, Err(None))
                    && yields_on_clone(ps.7, input, Err(None))
                    && yields_on_clone(ps.8, input, Err(None))
                    && yields_on_clone(ps.9, input, Err(None))
                    && yields_on_clone(ps.10, input, Err(None))
                    && yields_on_clone(ps.11, input, Err(None))
                    && yields_on_clone(ps.12, input, Err(None))
                    && yields_on_clone(ps.13, input, Err(None))
                    && yields_on_clone(ps.14, input, Err(None))
                    && yields_on_clone(ps.15, input, Err(None))
                    && yields_on_clone(ps.16, input, Err(None))
                    && yields_on_clone(ps.17, input, res)
                ||| yields_on_clone(ps.0, input, Err(None))
                    && yields_on_clone(ps.1, input, Err(None))
                    && yields_on_clone(ps.2, input, Err(None))
                    && yields_on_clone(ps.3, input, Err(None))
                    && yields_on_clone(ps.4, input, Err(None))
                    && yields_on_clone(ps.5, input, Err(None))
                    && yields_on_clone(ps.6, input, Err(None))
                    && yields_on_clone(ps.7, input, Err(None))
                    && yields_on_clone(ps.8, input, Err(None))
                    && yields_on_clone(ps.9, input, Err(None))
                    && yields_on_clone(ps.10, input, Err(None))
                    && yields_on_clone(ps.11, input, Err(None))
                    && yields_on_clone(ps.12, input, Err(None))
                    && yields_on_clone(ps.13, input, Err(None))
                    && yields_on_clone(ps.14, input, Err(None))
                    && yields_on_clone(ps.15, input, Err(None))
                    && yields_on_clone(ps.16, input, Err(None))
                    && yields_on_clone(ps.17, input, Err(None))
                    && yields_on_clone(ps.18, input, res)
                ||| yields_on_clone(ps.0, input, Err(None))
                    && yields_on_clone(ps.1, input, Err(None))
                    && yields_on_clone(ps.2, input, Err(None))
                    && yields_on_clone(ps.3, input, Err(None))
                    && yields_on_clone(ps.4, input, Err(None))
                    && yields_on_clone(ps.5, input, Err(None))
                    && yields_on_clone(ps.6, input, Err(None))
                    && yields_on_clone(ps.7, input, Err(None))
                    && yields_on_clone(ps.8, input, Err(None))
                    && yields_on_clone(ps.9, input, Err(None))
                    && yields_on_clone(ps.10, input, Err(None))
                    && yields_on_clone(ps.11, input, Err(None))
                    && yields_on_clone(ps.12, input, Err(None))
                    && yields_on_clone(ps.13, input, Err(None))
                    && yields_on_clone(ps.14, input, Err(None))
                    && yields_on_clone(ps.15, input, Err(None))
                    && yields_on_clone(ps.16, input, Err(None))
                    && yields_on_clone(ps.17, input, Err(None))
                    && yields_on_clone(ps.18, input, Err(None))
                    && yields_on_clone(ps.19, input, res)
                ||| yields_on_clone(ps.0, input, Err(None))
                    && yields_on_clone(ps.1, input, Err(None))
                    && yields_on_clone(ps.2, input, Err(None))
                    && yields_on_clone(ps.3, input, Err(None))
                    && yields_on_clone(ps.4, input, Err(None))
                    && yields_on_clone(ps.5, input, Err(None))
                    && yields_on_clone(ps.6, input, Err(None))
                    && yields_on_clone(ps.7, input, Err(None))
                    && yields_on_clone(ps.8, input, Err(None))
                    && yields_on_clone(ps.9, input, Err(None))
                    && yields_on_clone(ps.10, input, Err(None))
                    && yields_on_clone(ps.11, input, Err(None))
                    && yields_on_clone(ps.12, input, Err(None))
                    && yields_on_clone(ps.13, input, Err(None))
                    && yields_on_clone(ps.14, input, Err(None))
                    && yields_on_clone(ps.15, input, Err(None))
                    && yields_on_clone(ps.16, input, Err(None))
                    && yields_on_clone(ps.17, input, Err(None))
                    && yields_on_clone(ps.18, input, Err(None))
                    && yields_on_clone(ps.19, input, Err(None))
                    && yields_on_clone(ps.20, input, res)
                ||| yields_on_clone(ps.0, input, Err(None))
                    && yields_on_clone(ps.1, input, Err(None))
                    && yields_on_clone(ps.2, input, Err(None))
                    && yields_on_clone(ps.3, input, Err(None))
                    && yields_on_clone(ps.4, input, Err(None))
                    && yields_on_clone(ps.5, input, Err(None))
                    && yields_on_clone(ps.6, input, Err(None))
                    && yields_on_clone(ps.7, input, Err(None))
                    && yields_on_clone(ps.8, input, Err(None))
                    && yields_on_clone(ps.9, input, Err(None))
                    && yields_on_clone(ps.10, input, Err(None))
                    && yields_on_clone(ps.11, input, Err(None))
                    && yields_on_clone(ps.12, input, Err(None))
                    && yields_on_clone(ps.13, input, Err(None))
                    && yields_on_clone(ps.14, input, Err(None))
                    && yields_on_clone(ps.15, input, Err(None))
                    && yields_on_clone(ps.16, input, Err(None))
                    && yields_on_clone(ps.17, input, Err(None))
                    && yields_on_clone(ps.18, input, Err(None))
                    && yields_on_clone(ps.19, input, Err(None))
                    && yields_on_clone(ps.20, input, Err(None))
                    && yields_on_clone(ps.21, input, res)
                ||| yields_on_clone(ps.0, input, Err(None))
                    && yields_on_clone(ps.1, input, Err(None))
                    && yields_on_clone(ps.2, input, Err(None))
                    && yields_on_clone(ps.3, input, Err(None))
                    && yields_on_clone(ps.4, input, Err(None))
                    && yields_on_clone(ps.5, input, Err(None))
                    && yields_on_clone(ps.6, input, Err(None))
                    && yields_on_clone(ps.7, input, Err(None))
                    && yields_on_clone(ps.8, input, Err(None))
                    && yields_on_clone(ps.9, input, Err(None))
                    && yields_on_clone(ps.10, input, Err(None))
                    && yields_on_clone(ps.11, input, Err(None))
                    && yields_on_clone(ps.12, input, Err(None))
                    && yields_on_clone(ps.13, input, Err(None))
                    && yields_on_clone(ps.14, input, Err(None))
                    && yields_on_clone(ps.15, input, Err(None))
                    && yields_on_clone(ps.16, input, Err(None))
                    && yields_on_clone(ps.17, input, Err(None))
                    && yields_on_clone(ps.18, input, Err(None))
                    && yields_on_clone(ps.19, input, Err(None))
                    && yields_on_clone(ps.20, input, Err(None))
                    && yields_on_clone(ps.21, input, Err(None))
                    && yields_on_clone(ps.22, input, res)
                ||| yields_on_clone(ps.0, input, Err(None))
                    && yields_on_clone(ps.1, input, Err(None))
                    && yields_on_clone(ps.2, input, Err(None))
                    && yields_on_clone(ps.3, input, Err(None))
                    && yields_on_clone(ps.4, input, Err(None))
                    && yields_on_clone(ps.5, input, Err(None))
                    && yields_on_clone(ps.6, input, Err(None))
                    && yields_on_clone(ps.7, input, Err(None))
                    && yields_on_clone(ps.8, input, Err(None))
                    && yields_on_clone(ps.9, input, Err(None))
                    && yields_on_clone(ps.10, input, Err(None))
                    && yields_on_clone(ps.11, input, Err(None))
                    && yields_on_clone(ps.12, input, Err(None))
                    && yields_on_clone(ps.13, input, Err(None))
                    && yields_on_clone(ps.14, input, Err(None))
                    && yields_on_clone(ps.15, input, Err(None))
                    && yields_on_clone(ps.16, input, Err(None))
                    && yields_on_clone(ps.17, input, Err(None))
                    && yields_on_clone(ps.18, input, Err(None))
                    && yields_on_clone(ps.19, input, Err(None))
                    && yields_on_clone(ps.20, input, Err(None))
                    && yields_on_clone(ps.21, input, Err(None))
                    && yields_on_clone(ps.22, input, Err(None))
                    && yields_on_clone(ps.23, input, res)
                ||| yields_on_clone(ps.0, input, Err(None))
                    && yields_on_clone(ps.1, input, Err(None))
                    && yields_on_clone(ps.2, input, Err(None))
                    && yields_on_clone(ps.3, input, Err(None))
                    && yields_on_clone(ps.4, input, Err(None))
                    && yields_on_clone(ps.5, input, Err(None))
                    && yields_on_clone(ps.6, input, Err(None))
                    && yields_on_clone(ps.7, input, Err(None))
                    && yields_on_clone(ps.8, input, Err(None))
                    && yields_on_clone(ps.9, input, Err(None))
                    && yields_on_clone(ps.10, input, Err(None))
                    && yields_on_clone(ps.11, input, Err(None))
                    && yields_on_clone(ps.12, input, Err(None))
                    && yields_on_clone(ps.13, input, Err(None))
                    && yields_on_clone(ps.14, input, Err(None))
                    && yields_on_clone(ps.15, input, Err(None))
                    && yields_on_clone(ps.16, input, Err(None))
                    && yields_on_clone(ps.17, input, Err(None))
                    && yields_on_clone(ps.18, input, Err(None))
                    && yields_on_clone(ps.19, input, Err(None))
                    && yields_on_clone(ps.20, input, Err(None))
                    && yields_on_clone(ps.21, input, Err(None))
                    && yields_on_clone(ps.22, input, Err(None))
                    && yields_on_clone(ps.23, input, Err(None))
                    && yields_on_clone(ps.24, input, res)
                ||| yields_on_clone(ps.0, input, Err(None))
                    && yields_on_clone(ps.1, input, Err(None))
                    && yields_on_clone(ps.2, input, Err(None))
                    && yields_on_clone(ps.3, input, Err(None))
                    && yields_on_clone(ps.4, input, Err(None))
                    && yields_on_clone(ps.5, input, Err(None))
                    && yields_on_clone(ps.6, input, Err(None))
                    && yields_on_clone(ps.7, input, Err(None))
                    && yields_on_clone(ps.8, input, Err(None))
                    && yields_on_clone(ps.9, input, Err(None))
                    && yields_on_clone(ps.10, input, Err(None))
                    && yields_on_clone(ps.11, input, Err(None))
                    && yields_on_clone(ps.12, input, Err(None))
                    && yields_on_clone(ps.13, input, Err(None))
                    && yields_on_clone(ps.14, input, Err(None))
                    && yields_on_clone(ps.15, input, Err(None))
                    && yields_on_clone(ps.16, input, Err(None))
                    && yields_on_clone(ps.17, input, Err(None))
                    && yields_on_clone(ps.18, input, Err(None))
                    && yields_on_clone(ps.19, input, Err(None))
                    && yields_on_clone(ps.20, input, Err(None))
                    && yields_on_clone(ps.21, input, Err(None))
                    && yields_on_clone(ps.22, input, Err(None))
                    && yields_on_clone(ps.23, input, Err(None))
                    && yields_on_clone(ps.24, input, Err(None))
                    && yields_on_clone(ps.25, input, res)
            },
        }
    }

    fn parse(&self, txt: IN) -> (res: Result<(OUT, IN), Option<ER>>) {
        let c0 = txt.clone();
        let r0 = self.ps.0.parse(c0);
        assert(yields_on_clone(self.ps.0, txt, r0));
        match r0 {
            Err(None) => {},
            _ => return r0,
        }
        let c1 = txt.clone();
        let r1 = self.ps.1.parse(c1);
        assert(yields_on_clone(self.ps.1, txt, r1));
        match r1 {
            Err(None) => {},
            _ => return r1,
        }
        let c2 = txt.clone();
        let r2 = self.ps.2.parse(c2);
        assert(yields_on_clone(self.ps.2, txt, r2));
        match r2 {
            Err(None) => {},
            _ => return r2,
        }
        let c3 = txt.clone();
        let r3 = self.ps.3.parse(c3);
        assert(yields_on_clone(self.ps.3, txt, r3));
        match r3 {
            Err(None) => {},
            _ => return r3,
        }
        let c4 = txt.clone();
        let r4 = self.ps.4.parse(c4);
        assert(yields_on_clone(self.ps.4, txt, r4));
        match r4 {
            Err(None) => {},
            _ => return r4,
        }
        let c5 = txt.clone();
        let r5 = self.ps.5.parse(c5);
        assert(yields_on_clone(self.ps.5, txt, r5));
        match r5 {
            Err(None) => {},
            _ => return r5,
        }
        let c6 = txt.clone();
        let r6 = self.ps.6.parse(c6);
        assert(yields_on_clone(self.ps.6, txt, r6));
        match r6 {
            Err(None) => {},
            _ => return r6,
        }
        let c7 = txt.clone();
        let r7 = self.ps.7.parse(c7);
        assert(yields_on_clone(self.ps.7, txt, r7));
        match r7 {
            Err(None) => {},
            _ => return r7,
        }
        let c8 = txt.clone();
        let r8 = self.ps.8.parse(c8);
        assert(yields_on_clone(self.ps.8, txt, r8));
        match r8 {
            Err(None) => {},
            _ => return r8,
        }
        let c9 = txt.clone();
        let r9 = self.ps.9.parse(c9);
        assert(yields_on_clone(self.ps.9, txt, r9));
        match r9 {
            Err(None) => {},
            _ => return r9,
        }
        let c10 = txt.clone();
        let r10 = self.ps.10.parse(c10);
        assert(yields_on_clone(self.ps.10, txt, r10));
        match r10 {
            Err(None) => {},
            _ => return r10,
        }
        let c11 = txt.clone();
        let r11 = self.ps.11.parse(c11);
        assert(yields_on_clone(self.ps.11, txt, r11));
        match r11 {
            Err(None) => {},
            _ => return r11,
        }
        let c12 = txt.clone();
        let r12 = self.ps.12.parse(c12);
        assert(yields_on_clone(self.ps.12, txt, r12));
        match r12 {
            Err(None) => {},
            _ => return r12,
        }
        let c13 = txt.clone();
        let r13 = self.ps.13.parse(c13);
        assert(yields_on_clone(self.ps.13, txt, r13));
        match r13 {
            Err(None) => {},
            _ => return r13,
        }
        let c14 = txt.clone();
        let r14 = self.ps.14.parse(c14);
        assert(yields_on_clone(self.ps.14, txt, r14));
        match r14 {
            Err(None) => {},
            _ => return r14,
        }
        let c15 = txt.clone();
        let r15 = self.ps.15.parse(c15);
        assert(yields_on_clone(self.ps.15, txt, r15));
        match r15 {
            Err(None) => {},
            _ => return r15,
        }
        let c16 = txt.clone();
        let r16 = self.ps.16.parse(c16);
        assert(yields_on_clone(self.ps.16, txt, r16));
        match r16 {
            Err(None) => {},
            _ => return r16,
        }
        let c17 = txt.clone();
        let r17 = self.ps.17.parse(c17);
        assert(yields_on_clone(self.ps.17, txt, r17));
        match r17 {
            Err(None) => {},
            _ => return r17,
        }
        let c18 = txt.clone();
        let r18 = self.ps.18.parse(c18);
        assert(yields_on_clone(self.ps.18, txt, r18));
        match r18 {
            Err(None) => {},
            _ => return r18,
        }
        let c19 = txt.clone();
        let r19 = self.ps.19.parse(c19);
        assert(yields_on_clone(self.ps.19, txt, r19));
        match r19 {
            Err(None) => {},
            _ => return r19,
        }
        let c20 = txt.clone();
        let r20 = self.ps.20.parse(c20);
        assert(yields_on_clone(self.ps.20, txt, r20));
        match r20 {
            Err(None) => {},
            _ => return r20,
        }
        let c21 = txt.clone();
        let r21 = self.ps.21.parse(c21);
        assert(yields_on_clone(self.ps.21, txt, r21));
        match r21 {
            Err(None) => {},
            _ => return r21,
        }
        let c22 = txt.clone();
        let r22 = self.ps.22.parse(c22);
        assert(yields_on_clone(self.ps.22, txt, r22));
        match r22 {
            Err(None) => {},
            _ => return r22,
        }
        let c23 = txt.clone();
        let r23 = self.ps.23.parse(c23);
        assert(yields_on_clone(self.ps.23, txt, r23));
        match r23 {
            Err(None) => {},
            _ => return r23,
        }
        let c24 = txt.clone();
        let r24 = self.ps.24.parse(c24);
        assert(yields_on_clone(self.ps.24, txt, r24));
        match r24 {
            Err(None) => {},
            _ => return r24,
        }
        let c25 = txt.clone();
        let r25 = self.ps.25.parse(c25);
        assert(yields_on_clone(self.ps.25, txt, r25));
        match r25 {
            Err(None) => {},
            _ => return r25,
        }
        Err(None)
    }
}

/// Over inputs whose clones are equal, a branch of 26 deterministic
/// segments is deterministic.
pub proof fn lemma_branch26_deterministic<IN: Clone, OUT, ER, A, B, C, D, E, F, G, H, I, J, K, L, M, N, O, P, Q, R, S, T, U, V, W, X, Y, Z>(b: Branch<IN, ER, (A, B, C, D, E, F, G, H, I, J, K, L, M, N, O, P, Q, R, S, T, U, V, W, X, Y, Z)>)
    where
        A: Parser<IN, Out = OUT, Error = Option<ER>>,
        B: Parser<IN, Out = OUT, Error = Option<ER>>,
        C: Parser<IN, Out = OUT, Error = Option<ER>>,
        D: Parser<IN, Out = OUT, Error = Option<ER>>,
        E: Parser<IN, Out = OUT, Error = Option<ER>>,
        F: Parser<IN, Out = OUT, Error = Option<ER>>,
        G: Parser<IN, Out = OUT, Error = Option<ER>>,
        H: Parser<IN, Out = OUT, Error = Option<ER>>,
        I: Parser<IN, Out = OUT, Error = Option<ER>>,
        J: Parser<IN, Out = OUT, Error = Option<ER>>,
        K: Parser<IN, Out = OUT, Error = Option<ER>>,
        L: Parser<IN, Out = OUT, Error = Option<ER>>,
        M: Parser<IN, Out = OUT, Error = Option<ER>>,
        N: Parser<IN, Out = OUT, Error = Option<ER>>,
        O: Parser<IN, Out = OUT, Error = Option<ER>>,
        P: Parser<IN, Out = OUT, Error = Option<ER>>,
        Q: Parser<IN, Out = OUT, Error = Option<ER>>,
        R: Parser<IN, Out = OUT, Error = Option<ER>>,
        S: Parser<IN, Out = OUT, Error = Option<ER>>,
        T: Parser<IN, Out = OUT, Error = Option<ER>>,
        U: Parser<IN, Out = OUT, Error = Option<ER>>,
        V: Parser<IN, Out = OUT, Error = Option<ER>>,
        W: Parser<IN, Out = OUT, Error = Option<ER>>,
        X: Parser<IN, Out = OUT, Error = Option<ER>>,
        Y: Parser<IN, Out = OUT, Error = Option<ER>>,
        Z: Parser<IN, Out = OUT, Error = Option<ER>>,
    requires
        clones_are_equal::<IN>(),
        deterministic::<IN, A>(b.segments().0),
        deterministic::<IN, B>(b.segments().1),
        deterministic::<IN, C>(b.segments().2),
        deterministic::<IN, D>(b.segments().3),
        deterministic::<IN, E>(b.segments().4),
        deterministic::<IN, F>(b.segments().5),
        deterministic::<IN, G>(b.segments().6),
        deterministic::<IN, H>(b.segments().7),
        deterministic::<IN, I>(b.segments().8),
        deterministic::<IN, J>(b.segments().9),
        deterministic::<IN, K>(b.segments().10),
        deterministic::<IN, L>(b.segments().11),
        deterministic::<IN, M>(b.segments().12),
        deterministic::<IN, N>(b.segments().13),
        deterministic::<IN, O>(b.segments().14),
        deterministic::<IN, P>(b.segments().15),
        deterministic::<IN, Q>(b.segments().16),
        deterministic::<IN, R>(b.segments().17),
        deterministic::<IN, S>(b.segments().18),
        deterministic::<IN, T>(b.segments().19),
        deterministic::<IN, U>(b.segments().20),
        deterministic::<IN, V>(b.segments().21),
        deterministic::<IN, W>(b.segments().22),
        deterministic::<IN, X>(b.segments().23),
        deterministic::<IN, Y>(b.segments().24),
        deterministic::<IN, Z>(b.segments().25),
    ensures
        deterministic::<IN, Branch<IN, ER, (A, B, C, D, E, F, G, H, I, J, K, L, M, N, O, P, Q, R, S, T, U, V, W, X, Y, Z)>>(b),
{
    lemma_clones_are_transparent::<IN, A>(b.segments().0);
    lemma_clones_are_transparent::<IN, B>(b.segments().1);
    lemma_clones_are_transparent::<IN, C>(b.segments().2);
    lemma_clones_are_transparent::<IN, D>(b.segments().3);
    lemma_clones_are_transparent::<IN, E>(b.segments().4);
    lemma_clones_are_transparent::<IN, F>(b.segments().5);
    lemma_clones_are_transparent::<IN, G>(b.segments().6);
    lemma_clones_are_transparent::<IN, H>(b.segments().7);
    lemma_clones_are_transparent::<IN, I>(b.segments().8);
    lemma_clones_are_transparent::<IN, J>(b.segments().9);
    lemma_clones_are_transparent::<IN, K>(b.segments().10);
    lemma_clones_are_transparent::<IN, L>(b.segments().11);
    lemma_clones_are_transparent::<IN, M>(b.segments().12);
    lemma_clones_are_transparent::<IN, N>(b.segments().13);
    lemma_clones_are_transparent::<IN, O>(b.segments().14);
    lemma_clones_are_transparent::<IN, P>(b.segments().15);
    lemma_clones_are_transparent::<IN, Q>(b.segments().16);
    lemma_clones_are_transparent::<IN, R>(b.segments().17);
    lemma_clones_are_transparent::<IN, S>(b.segments().18);
    lemma_clones_are_transparent::<IN, T>(b.segments().19);
    lemma_clones_are_transparent::<IN, U>(b.segments().20);
    lemma_clones_are_transparent::<IN, V>(b.segments().21);
    lemma_clones_are_transparent::<IN, W>(b.segments().22);
    lemma_clones_are_transparent::<IN, X>(b.segments().23);
    lemma_clones_are_transparent::<IN, Y>(b.segments().24);
    lemma_clones_are_transparent::<IN, Z>(b.segments().25);
}

} // verus!
