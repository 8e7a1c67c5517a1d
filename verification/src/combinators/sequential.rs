//! A tuple of parsers is a parser that runs them one after the other, each
//! on the residual input of the one before. The output is the tuple of their
//! outputs; the first error stops the sequence and is returned.
use vstd::prelude::*;

use crate::parser::{Parser, deterministic};

verus! {

/// `a` may succeed on `input` with output `va`, and `b` may then succeed on
/// the residual with output `vb` and residual `rest`.
pub open spec fn seq_ok<I, A: Parser<I>, B: Parser<I>>(
    a: A,
    b: B,
    input: I,
    va: A::Out,
    vb: B::Out,
    rest: I,
) -> bool {
    exists|mid: I|
        #[trigger] a.parse_ensures(input, Ok((va, mid))) && b.parse_ensures(mid, Ok((vb, rest)))
}

/// Running `a` and then `b` on `input` may fail with `e`: either `a` fails
/// with it, or `a` succeeds and `b` fails with it on the residual.
pub open spec fn seq_err<I, A: Parser<I>, B: Parser<I, Error = A::Error>>(
    a: A,
    b: B,
    input: I,
    e: A::Error,
) -> bool {
    ||| a.parse_ensures(input, Err(e))
    ||| exists|va: A::Out, mid: I|
        #[trigger] a.parse_ensures(input, Ok((va, mid))) && b.parse_ensures(mid, Err(e))
}

/// `a` may be run on `input`, and `b` on every residual that `a` may leave.
pub open spec fn seq_requires<I, A: Parser<I>, B: Parser<I>>(a: A, b: B, input: I) -> bool {
    &&& a.parse_requires(input)
    &&& forall|va: A::Out, mid: I| #[trigger]
        a.parse_ensures(input, Ok((va, mid))) ==> b.parse_requires(mid)
}

/// A one-element tuple parses as its only element.
impl<Inp, A> Parser<Inp> for (A,) where A: Parser<Inp> {
    type Out = A::Out;

    type Error = A::Error;

    open spec fn parse_requires(&self, input: Inp) -> bool {
        self.0.parse_requires(input)
    }

    open spec fn parse_ensures(&self, input: Inp, res: Result<(A::Out, Inp), A::Error>) -> bool {
        self.0.parse_ensures(input, res)
    }

    fn parse(&self, txt: Inp) -> (res: Result<(A::Out, Inp), A::Error>) {
        self.0.parse(txt)
    }
}

/// Running a deterministic `a` and then a deterministic `b` has at most one
/// result: two successes agree, a success and a failure exclude each other,
/// and two failures agree.
pub proof fn lemma_seq_unique<I, A: Parser<I>, B: Parser<I, Error = A::Error>>(a: A, b: B)
    requires
        deterministic(a),
        deterministic(b),
    ensures
        forall|input: I, va1: A::Out, vb1: B::Out, rest1: I, va2: A::Out, vb2: B::Out, rest2: I|
            #![trigger seq_ok(a, b, input, va1, vb1, rest1), seq_ok(a, b, input, va2, vb2, rest2)]
            seq_ok(a, b, input, va1, vb1, rest1) && seq_ok(a, b, input, va2, vb2, rest2) ==> va1
                == va2 && vb1 == vb2 && rest1 == rest2,
        forall|input: I, va: A::Out, vb: B::Out, rest: I, e: A::Error|
            #![trigger seq_ok(a, b, input, va, vb, rest), seq_err(a, b, input, e)]
            !(seq_ok(a, b, input, va, vb, rest) && seq_err(a, b, input, e)),
        forall|input: I, e1: A::Error, e2: A::Error|
            #![trigger seq_err(a, b, input, e1), seq_err(a, b, input, e2)]
            seq_err(a, b, input, e1) && seq_err(a, b, input, e2) ==> e1 == e2,
{
    assert forall|input: I, va1: A::Out, vb1: B::Out, rest1: I, va2: A::Out, vb2: B::Out, rest2: I|
        seq_ok(a, b, input, va1, vb1, rest1) && seq_ok(a, b, input, va2, vb2, rest2) implies va1
        == va2 && vb1 == vb2 && rest1 == rest2 by {
        let m1 = choose|mid: I|
            #[trigger] a.parse_ensures(input, Ok((va1, mid))) && b.parse_ensures(
                mid,
                Ok((vb1, rest1)),
            );
        let m2 = choose|mid: I|
            #[trigger] a.parse_ensures(input, Ok((va2, mid))) && b.parse_ensures(
                mid,
                Ok((vb2, rest2)),
            );
        assert(a.parse_ensures(input, Ok((va1, m1))));
        assert(a.parse_ensures(input, Ok((va2, m2))));
        assert(b.parse_ensures(m1, Ok((vb1, rest1))));
        assert(b.parse_ensures(m1, Ok((vb2, rest2))));
    }
    assert forall|input: I, va: A::Out, vb: B::Out, rest: I, e: A::Error|
        !(seq_ok(a, b, input, va, vb, rest) && seq_err(a, b, input, e)) by {
        if seq_ok(a, b, input, va, vb, rest) && seq_err(a, b, input, e) {
            let m = choose|mid: I|
                #[trigger] a.parse_ensures(input, Ok((va, mid))) && b.parse_ensures(
                    mid,
                    Ok((vb, rest)),
                );
            assert(a.parse_ensures(input, Ok((va, m))));
            if !a.parse_ensures(input, Err(e)) {
                let (va2, m2) = choose|va2: A::Out, mid: I|
                    #[trigger] a.parse_ensures(input, Ok((va2, mid))) && b.parse_ensures(
                        mid,
                        Err(e),
                    );
                assert(a.parse_ensures(input, Ok((va2, m2))));
                assert(b.parse_ensures(m, Err(e)));
                assert(b.parse_ensures(m, Ok((vb, rest))));
            }
        }
    }
    assert forall|input: I, e1: A::Error, e2: A::Error|
        seq_err(a, b, input, e1) && seq_err(a, b, input, e2) implies e1 == e2 by {
        if a.parse_ensures(input, Err(e1)) {
            if !a.parse_ensures(input, Err(e2)) {
                let (va2, m2) = choose|va2: A::Out, mid: I|
                    #[trigger] a.parse_ensures(input, Ok((va2, mid))) && b.parse_ensures(
                        mid,
                        Err(e2),
                    );
                assert(a.parse_ensures(input, Ok((va2, m2))));
            }
        } else {
            let (va1, m1) = choose|va1: A::Out, mid: I|
                #[trigger] a.parse_ensures(input, Ok((va1, mid))) && b.parse_ensures(
                    mid,
                    Err(e1),
                );
            assert(a.parse_ensures(input, Ok((va1, m1))));
            if !a.parse_ensures(input, Err(e2)) {
                let (va2, m2) = choose|va2: A::Out, mid: I|
                    #[trigger] a.parse_ensures(input, Ok((va2, mid))) && b.parse_ensures(
                        mid,
                        Err(e2),
                    );
                assert(a.parse_ensures(input, Ok((va2, m2))));
                assert(b.parse_ensures(m1, Err(e2)));
            }
        }
    }
}

/// A tuple of 2 parsers sharing one error type runs them in order.
impl<Inp, Er, A, B> Parser<Inp> for (A, B) where
    A: Parser<Inp, Error = Er>,
    B: Parser<Inp, Error = Er>,
 {
    type Out = (A::Out, B::Out);

    type Error = Er;

    open spec fn parse_requires(&self, input: Inp) -> bool {
        seq_requires(self.0, self.1, input)
    }

    open spec fn parse_ensures(&self, input: Inp, res: Result<((A::Out, B::Out), Inp), Er>) -> bool {
        match res {
            Ok(((a, b), rest)) => seq_ok(self.0, self.1, input, a, b, rest),
            Err(e) => seq_err(self.0, self.1, input, e),
        }
    }

    fn parse(&self, txt: Inp) -> (res: Result<((A::Out, B::Out), Inp), Er>) {
        let ghost t0 = txt;
        let (a, t1) = match self.0.parse(txt) {
            Ok(r) => r,
            Err(e) => return Err(e),
        };
        assert(self.0.parse_ensures(t0, Ok((a, t1))));
        let (b, t2) = match self.1.parse(t1) {
            Ok(r) => r,
            Err(e) => {
                return Err(e);
            },
        };
        Ok(((a, b), t2))
    }
}

/// A tuple of 2 deterministic parsers is deterministic.
pub proof fn lemma_tuple2_deterministic<Inp, Er, A, B>(t: (A, B))
    where
        A: Parser<Inp, Error = Er>,
        B: Parser<Inp, Error = Er>,
    requires
        deterministic::<Inp, A>(t.0),
        deterministic::<Inp, B>(t.1),
    ensures
        deterministic::<Inp, (A, B)>(t),
{
    lemma_seq_unique::<Inp, A, B>(t.0, t.1);
}

/// A tuple of 3 parsers sharing one error type runs them in order.
impl<Inp, Er, A, B, C> Parser<Inp> for (A, B, C) where
    A: Parser<Inp, Error = Er>,
    B: Parser<Inp, Error = Er>,
    C: Parser<Inp, Error = Er>,
 {
    type Out = (A::Out, B::Out, C::Out);

    type Error = Er;

    open spec fn parse_requires(&self, input: Inp) -> bool {
        seq_requires(self.0, (self.1, self.2), input)
    }

    open spec fn parse_ensures(&self, input: Inp, res: Result<((A::Out, B::Out, C::Out), Inp), Er>) -> bool {
        match res {
            Ok(((a, b, c), rest)) => seq_ok(self.0, (self.1, self.2), input, a, (b, c), rest),
            Err(e) => seq_err(self.0, (self.1, self.2), input, e),
        }
    }

    fn parse(&self, txt: Inp) -> (res: Result<((A::Out, B::Out, C::Out), Inp), Er>) {
        let ghost t0 = txt;
        let (a, t1) = match self.0.parse(txt) {
            Ok(r) => r,
            Err(e) => return Err(e),
        };
        assert(self.0.parse_ensures(t0, Ok((a, t1))));
        assert((self.1, self.2).parse_requires(t1));
        let (b, t2) = match self.1.parse(t1) {
            Ok(r) => r,
            Err(e) => {
                assert((self.1, self.2).parse_ensures(t1, Err(e)));
                return Err(e);
            },
        };
        assert(self.1.parse_ensures(t1, Ok((b, t2))));
        let (c, t3) = match self.2.parse(t2) {
            Ok(r) => r,
            Err(e) => {
                assert((self.1, self.2).parse_ensures(t1, Err(e)));
                return Err(e);
            },
        };
        assert((self.1, self.2).parse_ensures(t1, Ok(((b, c), t3))));
        Ok(((a, b, c), t3))
    }
}

/// A tuple of 3 deterministic parsers is deterministic.
pub proof fn lemma_tuple3_deterministic<Inp, Er, A, B, C>(t: (A, B, C))
    where
        A: Parser<Inp, Error = Er>,
        B: Parser<Inp, Error = Er>,
        C: Parser<Inp, Error = Er>,
    requires
        deterministic::<Inp, A>(t.0),
        deterministic::<Inp, B>(t.1),
        deterministic::<Inp, C>(t.2),
    ensures
        deterministic::<Inp, (A, B, C)>(t),
{
    lemma_tuple2_deterministic::<Inp, Er, B, C>((t.1, t.2));
    lemma_seq_unique::<Inp, A, (B, C)>(t.0, (t.1, t.2));
}

/// A tuple of 4 parsers sharing one error type runs them in order.
impl<Inp, Er, A, B, C, D> Parser<Inp> for (A, B, C, D) where
    A: Parser<Inp, Error = Er>,
    B: Parser<Inp, Error = Er>,
    C: Parser<Inp, Error = Er>,
    D: Parser<Inp, Error = Er>,
 {
    type Out = (A::Out, B::Out, C::Out, D::Out);

    type Error = Er;

    open spec fn parse_requires(&self, input: Inp) -> bool {
        seq_requires(self.0, (self.1, self.2, self.3), input)
    }

    open spec fn parse_ensures(&self, input: Inp, res: Result<((A::Out, B::Out, C::Out, D::Out), Inp), Er>) -> bool {
        match res {
            Ok(((a, b, c, d), rest)) => seq_ok(self.0, (self.1, self.2, self.3), input, a, (b, c, d), rest),
            Err(e) => seq_err(self.0, (self.1, self.2, self.3), input, e),
        }
    }

    fn parse(&self, txt: Inp) -> (res: Result<((A::Out, B::Out, C::Out, D::Out), Inp), Er>) {
        let ghost t0 = txt;
        let (a, t1) = match self.0.parse(txt) {
            Ok(r) => r,
            Err(e) => return Err(e),
        };
        assert(self.0.parse_ensures(t0, Ok((a, t1))));
        assert((self.1, self.2, self.3).parse_requires(t1));
        let (b, t2) = match self.1.parse(t1) {
            Ok(r) => r,
            Err(e) => {
                assert((self.1, self.2, self.3).parse_ensures(t1, Err(e)));
                return Err(e);
            },
        };
        assert(self.1.parse_ensures(t1, Ok((b, t2))));
        assert((self.2, self.3).parse_requires(t2));
        let (c, t3) = match self.2.parse(t2) {
            Ok(r) => r,
            Err(e) => {
                assert((self.2, self.3).parse_ensures(t2, Err(e)));
                assert((self.1, self.2, self.3).parse_ensures(t1, Err(e)));
                return Err(e);
            },
        };
        assert(self.2.parse_ensures(t2, Ok((c, t3))));
        let (d, t4) = match self.3.parse(t3) {
            Ok(r) => r,
            Err(e) => {
                assert((self.2, self.3).parse_ensures(t2, Err(e)));
                assert((self.1, self.2, self.3).parse_ensures(t1, Err(e)));
                return Err(e);
            },
        };
        assert((self.2, self.3).parse_ensures(t2, Ok(((c, d), t4))));
        assert((self.1, self.2, self.3).parse_ensures(t1, Ok(((b, c, d), t4))));
        Ok(((a, b, c, d), t4))
    }
}

/// A tuple of 4 deterministic parsers is deterministic.
pub proof fn lemma_tuple4_deterministic<Inp, Er, A, B, C, D>(t: (A, B, C, D))
    where
        A: Parser<Inp, Error = Er>,
        B: Parser<Inp, Error = Er>,
        C: Parser<Inp, Error = Er>,
        D: Parser<Inp, Error = Er>,
    requires
        deterministic::<Inp, A>(t.0),
        deterministic::<Inp, B>(t.1),
        deterministic::<Inp, C>(t.2),
        deterministic::<Inp, D>(t.3),
    ensures
        deterministic::<Inp, (A, B, C, D)>(t),
{
    lemma_tuple3_deterministic::<Inp, Er, B, C, D>((t.1, t.2, t.3));
    lemma_seq_unique::<Inp, A, (B, C, D)>(t.0, (t.1, t.2, t.3));
}

/// A tuple of 5 parsers sharing one error type runs them in order.
impl<Inp, Er, A, B, C, D, E> Parser<Inp> for (A, B, C, D, E) where
    A: Parser<Inp, Error = Er>,
    B: Parser<Inp, Error = Er>,
    C: Parser<Inp, Error = Er>,
    D: Parser<Inp, Error = Er>,
    E: Parser<Inp, Error = Er>,
 {
    type Out = (A::Out, B::Out, C::Out, D::Out, E::Out);

    type Error = Er;

    open spec fn parse_requires(&self, input: Inp) -> bool {
        seq_requires(self.0, (self.1, self.2, self.3, self.4), input)
    }

    open spec fn parse_ensures(&self, input: Inp, res: Result<((A::Out, B::Out, C::Out, D::Out, E::Out), Inp), Er>) -> bool {
        match res {
            Ok(((a, b, c, d, e), rest)) => seq_ok(self.0, (self.1, self.2, self.3, self.4), input, a, (b, c, d, e), rest),
            Err(e) => seq_err(self.0, (self.1, self.2, self.3, self.4), input, e),
        }
    }

    fn parse(&self, txt: Inp) -> (res: Result<((A::Out, B::Out, C::Out, D::Out, E::Out), Inp), Er>) {
        let ghost t0 = txt;
        let (a, t1) = match self.0.parse(txt) {
            Ok(r) => r,
            Err(e) => return Err(e),
        };
        assert(self.0.parse_ensures(t0, Ok((a, t1))));
        assert((self.1, self.2, self.3, self.4).parse_requires(t1));
        let (b, t2) = match self.1.parse(t1) {
            Ok(r) => r,
            Err(e) => {
                assert((self.1, self.2, self.3, self.4).parse_ensures(t1, Err(e)));
                return Err(e);
            },
        };
        assert(self.1.parse_ensures(t1, Ok((b, t2))));
        assert((self.2, self.3, self.4).parse_requires(t2));
        let (c, t3) = match self.2.parse(t2) {
            Ok(r) => r,
            Err(e) => {
                assert((self.2, self.3, self.4).parse_ensures(t2, Err(e)));
                assert((self.1, self.2, self.3, self.4).parse_ensures(t1, Err(e)));
                return Err(e);
            },
        };
        assert(self.2.parse_ensures(t2, Ok((c, t3))));
        assert((self.3, self.4).parse_requires(t3));
        let (d, t4) = match self.3.parse(t3) {
            Ok(r) => r,
            Err(e) => {
                assert((self.3, self.4).parse_ensures(t3, Err(e)));
                assert((self.2, self.3, self.4).parse_ensures(t2, Err(e)));
                assert((self.1, self.2, self.3, self.4).parse_ensures(t1, Err(e)));
                return Err(e);
            },
        };
        assert(self.3.parse_ensures(t3, Ok((d, t4))));
        let (e, t5) = match self.4.parse(t4) {
            Ok(r) => r,
            Err(e) => {
                assert((self.3, self.4).parse_ensures(t3, Err(e)));
                assert((self.2, self.3, self.4).parse_ensures(t2, Err(e)));
                assert((self.1, self.2, self.3, self.4).parse_ensures(t1, Err(e)));
                return Err(e);
            },
        };
        assert((self.3, self.4).parse_ensures(t3, Ok(((d, e), t5))));
        assert((self.2, self.3, self.4).parse_ensures(t2, Ok(((c, d, e), t5))));
        assert((self.1, self.2, self.3, self.4).parse_ensures(t1, Ok(((b, c, d, e), t5))));
        Ok(((a, b, c, d, e), t5))
    }
}

/// A tuple of 5 deterministic parsers is deterministic.
pub proof fn lemma_tuple5_deterministic<Inp, Er, A, B, C, D, E>(t: (A, B, C, D, E))
    where
        A: Parser<Inp, Error = Er>,
        B: Parser<Inp, Error = Er>,
        C: Parser<Inp, Error = Er>,
        D: Parser<Inp, Error = Er>,
        E: Parser<Inp, Error = Er>,
    requires
        deterministic::<Inp, A>(t.0),
        deterministic::<Inp, B>(t.1),
        deterministic::<Inp, C>(t.2),
        deterministic::<Inp, D>(t.3),
        deterministic::<Inp, E>(t.4),
    ensures
        deterministic::<Inp, (A, B, C, D, E)>(t),
{
    lemma_tuple4_deterministic::<Inp, Er, B, C, D, E>((t.1, t.2, t.3, t.4));
    lemma_seq_unique::<Inp, A, (B, C, D, E)>(t.0, (t.1, t.2, t.3, t.4));
}

/// A tuple of 6 parsers sharing one error type runs them in order.
impl<Inp, Er, A, B, C, D, E, F> Parser<Inp> for (A, B, C, D, E, F) where
    A: Parser<Inp, Error = Er>,
    B: Parser<Inp, Error = Er>,
    C: Parser<Inp, Error = Er>,
    D: Parser<Inp, Error = Er>,
    E: Parser<Inp, Error = Er>,
    F: Parser<Inp, Error = Er>,
 {
    type Out = (A::Out, B::Out, C::Out, D::Out, E::Out, F::Out);

    type Error = Er;

    open spec fn parse_requires(&self, input: Inp) -> bool {
        seq_requires(self.0, (self.1, self.2, self.3, self.4, self.5), input)
    }

    open spec fn parse_ensures(&self, input: Inp, res: Result<((A::Out, B::Out, C::Out, D::Out, E::Out, F::Out), Inp), Er>) -> bool {
        match res {
            Ok(((a, b, c, d, e, f), rest)) => seq_ok(self.0, (self.1, self.2, self.3, self.4, self.5), input, a, (b, c, d, e, f), rest),
            Err(e) => seq_err(self.0, (self.1, self.2, self.3, self.4, self.5), input, e),
        }
    }

    fn parse(&self, txt: Inp) -> (res: Result<((A::Out, B::Out, C::Out, D::Out, E::Out, F::Out), Inp), Er>) {
        let ghost t0 = txt;
        let (a, t1) = match self.0.parse(txt) {
            Ok(r) => r,
            Err(e) => return Err(e),
        };
        assert(self.0.parse_ensures(t0, Ok((a, t1))));
        assert((self.1, self.2, self.3, self.4, self.5).parse_requires(t1));
        let (b, t2) = match self.1.parse(t1) {
            Ok(r) => r,
            Err(e) => {
                assert((self.1, self.2, self.3, self.4, self.5).parse_ensures(t1, Err(e)));
                return Err(e);
            },
        };
        assert(self.1.parse_ensures(t1, Ok((b, t2))));
        assert((self.2, self.3, self.4, self.5).parse_requires(t2));
        let (c, t3) = match self.2.parse(t2) {
            Ok(r) => r,
            Err(e) => {
                assert((self.2, self.3, self.4, self.5).parse_ensures(t2, Err(e)));
                assert((self.1, self.2, self.3, self.4, self.5).parse_ensures(t1, Err(e)));
                return Err(e);
            },
        };
        assert(self.2.parse_ensures(t2, Ok((c, t3))));
        assert((self.3, self.4, self.5).parse_requires(t3));
        let (d, t4) = match self.3.parse(t3) {
            Ok(r) => r,
            Err(e) => {
                assert((self.3, self.4, self.5).parse_ensures(t3, Err(e)));
                assert((self.2, self.3, self.4, self.5).parse_ensures(t2, Err(e)));
                assert((self.1, self.2, self.3, self.4, self.5).parse_ensures(t1, Err(e)));
                return Err(e);
            },
        };
        assert(self.3.parse_ensures(t3, Ok((d, t4))));
        assert((self.4, self.5).parse_requires(t4));
        let (e, t5) = match self.4.parse(t4) {
            Ok(r) => r,
            Err(e) => {
                assert((self.4, self.5).parse_ensures(t4, Err(e)));
                assert((self.3, self.4, self.5).parse_ensures(t3, Err(e)));
                assert((self.2, self.3, self.4, self.5).parse_ensures(t2, Err(e)));
                assert((self.1, self.2, self.3, self.4, self.5).parse_ensures(t1, Err(e)));
                return Err(e);
            },
        };
        assert(self.4.parse_ensures(t4, Ok((e, t5))));
        let (f, t6) = match self.5.parse(t5) {
            Ok(r) => r,
            Err(e) => {
                assert((self.4, self.5).parse_ensures(t4, Err(e)));
                assert((self.3, self.4, self.5).parse_ensures(t3, Err(e)));
                assert((self.2, self.3, self.4, self.5).parse_ensures(t2, Err(e)));
                assert((self.1, self.2, self.3, self.4, self.5).parse_ensures(t1, Err(e)));
                return Err(e);
            },
        };
        assert((self.4, self.5).parse_ensures(t4, Ok(((e, f), t6))));
        assert((self.3, self.4, self.5).parse_ensures(t3, Ok(((d, e, f), t6))));
        assert((self.2, self.3, self.4, self.5).parse_ensures(t2, Ok(((c, d, e, f), t6))));
        assert((self.1, self.2, self.3, self.4, self.5).parse_ensures(t1, Ok(((b, c, d, e, f), t6))));
        Ok(((a, b, c, d, e, f), t6))
    }
}

/// A tuple of 6 deterministic parsers is deterministic.
pub proof fn lemma_tuple6_deterministic<Inp, Er, A, B, C, D, E, F>(t: (A, B, C, D, E, F))
    where
        A: Parser<Inp, Error = Er>,
        B: Parser<Inp, Error = Er>,
        C: Parser<Inp, Error = Er>,
        D: Parser<Inp, Error = Er>,
        E: Parser<Inp, Error = Er>,
        F: Parser<Inp, Error = Er>,
    requires
        deterministic::<Inp, A>(t.0),
        deterministic::<Inp, B>(t.1),
        deterministic::<Inp, C>(t.2),
        deterministic::<Inp, D>(t.3),
        deterministic::<Inp, E>(t.4),
        deterministic::<Inp, F>(t.5),
    ensures
        deterministic::<Inp, (A, B, C, D, E, F)>(t),
{
    lemma_tuple5_deterministic::<Inp, Er, B, C, D, E, F>((t.1, t.2, t.3, t.4, t.5));
    lemma_seq_unique::<Inp, A, (B, C, D, E, F)>(t.0, (t.1, t.2, t.3, t.4, t.5));
}

/// A tuple of 7 parsers sharing one error type runs them in order.
impl<Inp, Er, A, B, C, D, E, F, G> Parser<Inp> for (A, B, C, D, E, F, G) where
    A: Parser<Inp, Error = Er>,
    B: Parser<Inp, Error = Er>,
    C: Parser<Inp, Error = Er>,
    D: Parser<Inp, Error = Er>,
    E: Parser<Inp, Error = Er>,
    F: Parser<Inp, Error = Er>,
    G: Parser<Inp, Error = Er>,
 {
    type Out = (A::Out, B::Out, C::Out, D::Out, E::Out, F::Out, G::Out);

    type Error = Er;

    open spec fn parse_requires(&self, input: Inp) -> bool {
        seq_requires(self.0, (self.1, self.2, self.3, self.4, self.5, self.6), input)
    }

    open spec fn parse_ensures(&self, input: Inp, res: Result<((A::Out, B::Out, C::Out, D::Out, E::Out, F::Out, G::Out), Inp), Er>) -> bool {
        match res {
            Ok(((a, b, c, d, e, f, g), rest)) => seq_ok(self.0, (self.1, self.2, self.3, self.4, self.5, self.6), input, a, (b, c, d, e, f, g), rest),
            Err(e) => seq_err(self.0, (self.1, self.2, self.3, self.4, self.5, self.6), input, e),
        }
    }

    fn parse(&self, txt: Inp) -> (res: Result<((A::Out, B::Out, C::Out, D::Out, E::Out, F::Out, G::Out), Inp), Er>) {
        let ghost t0 = txt;
        let (a, t1) = match self.0.parse(txt) {
            Ok(r) => r,
            Err(e) => return Err(e),
        };
        assert(self.0.parse_ensures(t0, Ok((a, t1))));
        assert((self.1, self.2, self.3, self.4, self.5, self.6).parse_requires(t1));
        let (b, t2) = match self.1.parse(t1) {
            Ok(r) => r,
            Err(e) => {
                assert((self.1, self.2, self.3, self.4, self.5, self.6).parse_ensures(t1, Err(e)));
                return Err(e);
            },
        };
        assert(self.1.parse_ensures(t1, Ok((b, t2))));
        assert((self.2, self.3, self.4, self.5, self.6).parse_requires(t2));
        let (c, t3) = match self.2.parse(t2) {
            Ok(r) => r,
            Err(e) => {
                assert((self.2, self.3, self.4, self.5, self.6).parse_ensures(t2, Err(e)));
                assert((self.1, self.2, self.3, self.4, self.5, self.6).parse_ensures(t1, Err(e)));
                return Err(e);
            },
        };
        assert(self.2.parse_ensures(t2, Ok((c, t3))));
        assert((self.3, self.4, self.5, self.6).parse_requires(t3));
        let (d, t4) = match self.3.parse(t3) {
            Ok(r) => r,
            Err(e) => {
                assert((self.3, self.4, self.5, self.6).parse_ensures(t3, Err(e)));
                assert((self.2, self.3, self.4, self.5, self.6).parse_ensures(t2, Err(e)));
                assert((self.1, self.2, self.3, self.4, self.5, self.6).parse_ensures(t1, Err(e)));
                return Err(e);
            },
        };
        assert(self.3.parse_ensures(t3, Ok((d, t4))));
        assert((self.4, self.5, self.6).parse_requires(t4));
        let (e, t5) = match self.4.parse(t4) {
            Ok(r) => r,
            Err(e) => {
                assert((self.4, self.5, self.6).parse_ensures(t4, Err(e)));
                assert((self.3, self.4, self.5, self.6).parse_ensures(t3, Err(e)));
                assert((self.2, self.3, self.4, self.5, self.6).parse_ensures(t2, Err(e)));
                assert((self.1, self.2, self.3, self.4, self.5, self.6).parse_ensures(t1, Err(e)));
                return Err(e);
            },
        };
        assert(self.4.parse_ensures(t4, Ok((e, t5))));
        assert((self.5, self.6).parse_requires(t5));
        let (f, t6) = match self.5.parse(t5) {
            Ok(r) => r,
            Err(e) => {
                assert((self.5, self.6).parse_ensures(t5, Err(e)));
                assert((self.4, self.5, self.6).parse_ensures(t4, Err(e)));
                assert((self.3, self.4, self.5, self.6).parse_ensures(t3, Err(e)));
                assert((self.2, self.3, self.4, self.5, self.6).parse_ensures(t2, Err(e)));
                assert((self.1, self.2, self.3, self.4, self.5, self.6).parse_ensures(t1, Err(e)));
                return Err(e);
            },
        };
        assert(self.5.parse_ensures(t5, Ok((f, t6))));
        let (g, t7) = match self.6.parse(t6) {
            Ok(r) => r,
            Err(e) => {
                assert((self.5, self.6).parse_ensures(t5, Err(e)));
                assert((self.4, self.5, self.6).parse_ensures(t4, Err(e)));
                assert((self.3, self.4, self.5, self.6).parse_ensures(t3, Err(e)));
                assert((self.2, self.3, self.4, self.5, self.6).parse_ensures(t2, Err(e)));
                assert((self.1, self.2, self.3, self.4, self.5, self.6).parse_ensures(t1, Err(e)));
                return Err(e);
            },
        };
        assert((self.5, self.6).parse_ensures(t5, Ok(((f, g), t7))));
        assert((self.4, self.5, self.6).parse_ensures(t4, Ok(((e, f, g), t7))));
        assert((self.3, self.4, self.5, self.6).parse_ensures(t3, Ok(((d, e, f, g), t7))));
        assert((self.2, self.3, self.4, self.5, self.6).parse_ensures(t2, Ok(((c, d, e, f, g), t7))));
        assert((self.1, self.2, self.3, self.4, self.5, self.6).parse_ensures(t1, Ok(((b, c, d, e, f, g), t7))));
        Ok(((a, b, c, d, e, f, g), t7))
    }
}

/// A tuple of 7 deterministic parsers is deterministic.
pub proof fn lemma_tuple7_deterministic<Inp, Er, A, B, C, D, E, F, G>(t: (A, B, C, D, E, F, G))
    where
        A: Parser<Inp, Error = Er>,
        B: Parser<Inp, Error = Er>,
        C: Parser<Inp, Error = Er>,
        D: Parser<Inp, Error = Er>,
        E: Parser<Inp, Error = Er>,
        F: Parser<Inp, Error = Er>,
        G: Parser<Inp, Error = Er>,
    requires
        deterministic::<Inp, A>(t.0),
        deterministic::<Inp, B>(t.1),
        deterministic::<Inp, C>(t.2),
        deterministic::<Inp, D>(t.3),
        deterministic::<Inp, E>(t.4),
        deterministic::<Inp, F>(t.5),
        deterministic::<Inp, G>(t.6),
    ensures
        deterministic::<Inp, (A, B, C, D, E, F, G)>(t),
{
    lemma_tuple6_deterministic::<Inp, Er, B, C, D, E, F, G>((t.1, t.2, t.3, t.4, t.5, t.6));
    lemma_seq_unique::<Inp, A, (B, C, D, E, F, G)>(t.0, (t.1, t.2, t.3, t.4, t.5, t.6));
}

/// A tuple of 8 parsers sharing one error type runs them in order.
impl<Inp, Er, A, B, C, D, E, F, G, H> Parser<Inp> for (A, B, C, D, E, F, G, H) where
    A: Parser<Inp, Error = Er>,
    B: Parser<Inp, Error = Er>,
    C: Parser<Inp, Error = Er>,
    D: Parser<Inp, Error = Er>,
    E: Parser<Inp, Error = Er>,
    F: Parser<Inp, Error = Er>,
    G: Parser<Inp, Error = Er>,
    H: Parser<Inp, Error = Er>,
 {
    type Out = (A::Out, B::Out, C::Out, D::Out, E::Out, F::Out, G::Out, H::Out);

    type Error = Er;

    open spec fn parse_requires(&self, input: Inp) -> bool {
        seq_requires(self.0, (self.1, self.2, self.3, self.4, self.5, self.6, self.7), input)
    }

    open spec fn parse_ensures(&self, input: Inp, res: Result<((A::Out, B::Out, C::Out, D::Out, E::Out, F::Out, G::Out, H::Out), Inp), Er>) -> bool {
        match res {
            Ok(((a, b, c, d, e, f, g, h), rest)) => seq_ok(self.0, (self.1, self.2, self.3, self.4, self.5, self.6, self.7), input, a, (b, c, d, e, f, g, h), rest),
            Err(e) => seq_err(self.0, (self.1, self.2, self.3, self.4, self.5, self.6, self.7), input, e),
        }
    }

    fn parse(&self, txt: Inp) -> (res: Result<((A::Out, B::Out, C::Out, D::Out, E::Out, F::Out, G::Out, H::Out), Inp), Er>) {
        let ghost t0 = txt;
        let (a, t1) = match self.0.parse(txt) {
            Ok(r) => r,
            Err(e) => return Err(e),
        };
        assert(self.0.parse_ensures(t0, Ok((a, t1))));
        assert((self.1, self.2, self.3, self.4, self.5, self.6, self.7).parse_requires(t1));
        let (b, t2) = match self.1.parse(t1) {
            Ok(r) => r,
            Err(e) => {
                assert((self.1, self.2, self.3, self.4, self.5, self.6, self.7).parse_ensures(t1, Err(e)));
                return Err(e);
            },
        };
        assert(self.1.parse_ensures(t1, Ok((b, t2))));
        assert((self.2, self.3, self.4, self.5, self.6, self.7).parse_requires(t2));
        let (c, t3) = match self.2.parse(t2) {
            Ok(r) => r,
            Err(e) => {
                assert((self.2, self.3, self.4, self.5, self.6, self.7).parse_ensures(t2, Err(e)));
                assert((self.1, self.2, self.3, self.4, self.5, self.6, self.7).parse_ensures(t1, Err(e)));
                return Err(e);
            },
        };
        assert(self.2.parse_ensures(t2, Ok((c, t3))));
        assert((self.3, self.4, self.5, self.6, self.7).parse_requires(t3));
        let (d, t4) = match self.3.parse(t3) {
            Ok(r) => r,
            Err(e) => {
                assert((self.3, self.4, self.5, self.6, self.7).parse_ensures(t3, Err(e)));
                assert((self.2, self.3, self.4, self.5, self.6, self.7).parse_ensures(t2, Err(e)));
                assert((self.1, self.2, self.3, self.4, self.5, self.6, self.7).parse_ensures(t1, Err(e)));
                return Err(e);
            },
        };
        assert(self.3.parse_ensures(t3, Ok((d, t4))));
        assert((self.4, self.5, self.6, self.7).parse_requires(t4));
        let (e, t5) = match self.4.parse(t4) {
            Ok(r) => r,
            Err(e) => {
                assert((self.4, self.5, self.6, self.7).parse_ensures(t4, Err(e)));
                assert((self.3, self.4, self.5, self.6, self.7).parse_ensures(t3, Err(e)));
                assert((self.2, self.3, self.4, self.5, self.6, self.7).parse_ensures(t2, Err(e)));
                assert((self.1, self.2, self.3, self.4, self.5, self.6, self.7).parse_ensures(t1, Err(e)));
                return Err(e);
            },
        };
        assert(self.4.parse_ensures(t4, Ok((e, t5))));
        assert((self.5, self.6, self.7).parse_requires(t5));
        let (f, t6) = match self.5.parse(t5) {
            Ok(r) => r,
            Err(e) => {
                assert((self.5, self.6, self.7).parse_ensures(t5, Err(e)));
                assert((self.4, self.5, self.6, self.7).parse_ensures(t4, Err(e)));
                assert((self.3, self.4, self.5, self.6, self.7).parse_ensures(t3, Err(e)));
                assert((self.2, self.3, self.4, self.5, self.6, self.7).parse_ensures(t2, Err(e)));
                assert((self.1, self.2, self.3, self.4, self.5, self.6, self.7).parse_ensures(t1, Err(e)));
                return Err(e);
            },
        };
        assert(self.5.parse_ensures(t5, Ok((f, t6))));
        assert((self.6, self.7).parse_requires(t6));
        let (g, t7) = match self.6.parse(t6) {
            Ok(r) => r,
            Err(e) => {
                assert((self.6, self.7).parse_ensures(t6, Err(e)));
                assert((self.5, self.6, self.7).parse_ensures(t5, Err(e)));
                assert((self.4, self.5, self.6, self.7).parse_ensures(t4, Err(e)));
                assert((self.3, self.4, self.5, self.6, self.7).parse_ensures(t3, Err(e)));
                assert((self.2, self.3, self.4, self.5, self.6, self.7).parse_ensures(t2, Err(e)));
                assert((self.1, self.2, self.3, self.4, self.5, self.6, self.7).parse_ensures(t1, Err(e)));
                return Err(e);
            },
        };
        assert(self.6.parse_ensures(t6, Ok((g, t7))));
        let (h, t8) = match self.7.parse(t7) {
            Ok(r) => r,
            Err(e) => {
                assert((self.6, self.7).parse_ensures(t6, Err(e)));
                assert((self.5, self.6, self.7).parse_ensures(t5, Err(e)));
                assert((self.4, self.5, self.6, self.7).parse_ensures(t4, Err(e)));
                assert((self.3, self.4, self.5, self.6, self.7).parse_ensures(t3, Err(e)));
                assert((self.2, self.3, self.4, self.5, self.6, self.7).parse_ensures(t2, Err(e)));
                assert((self.1, self.2, self.3, self.4, self.5, self.6, self.7).parse_ensures(t1, Err(e)));
                return Err(e);
            },
        };
        assert((self.6, self.7).parse_ensures(t6, Ok(((g, h), t8))));
        assert((self.5, self.6, self.7).parse_ensures(t5, Ok(((f, g, h), t8))));
        assert((self.4, self.5, self.6, self.7).parse_ensures(t4, Ok(((e, f, g, h), t8))));
        assert((self.3, self.4, self.5, self.6, self.7).parse_ensures(t3, Ok(((d, e, f, g, h), t8))));
        assert((self.2, self.3, self.4, self.5, self.6, self.7).parse_ensures(t2, Ok(((c, d, e, f, g, h), t8))));
        assert((self.1, self.2, self.3, self.4, self.5, self.6, self.7).parse_ensures(t1, Ok(((b, c, d, e, f, g, h), t8))));
        Ok(((a, b, c, d, e, f, g, h), t8))
    }
}

/// A tuple of 8 deterministic parsers is deterministic.
pub proof fn lemma_tuple8_deterministic<Inp, Er, A, B, C, D, E, F, G, H>(t: (A, B, C, D, E, F, G, H))
    where
        A: Parser<Inp, Error = Er>,
        B: Parser<Inp, Error = Er>,
        C: Parser<Inp, Error = Er>,
        D: Parser<Inp, Error = Er>,
        E: Parser<Inp, Error = Er>,
        F: Parser<Inp, Error = Er>,
        G: Parser<Inp, Error = Er>,
        H: Parser<Inp, Error = Er>,
    requires
        deterministic::<Inp, A>(t.0),
        deterministic::<Inp, B>(t.1),
        deterministic::<Inp, C>(t.2),
        deterministic::<Inp, D>(t.3),
        deterministic::<Inp, E>(t.4),
        deterministic::<Inp, F>(t.5),
        deterministic::<Inp, G>(t.6),
        deterministic::<Inp, H>(t.7),
    ensures
        deterministic::<Inp, (A, B, C, D, E, F, G, H)>(t),
{
    lemma_tuple7_deterministic::<Inp, Er, B, C, D, E, F, G, H>((t.1, t.2, t.3, t.4, t.5, t.6, t.7));
    lemma_seq_unique::<Inp, A, (B, C, D, E, F, G, H)>(t.0, (t.1, t.2, t.3, t.4, t.5, t.6, t.7));
}

/// A tuple of 9 parsers sharing one error type runs them in order.
impl<Inp, Er, A, B, C, D, E, F, G, H, I> Parser<Inp> for (A, B, C, D, E, F, G, H, I) where
    A: Parser<Inp, Error = Er>,
    B: Parser<Inp, Error = Er>,
    C: Parser<Inp, Error = Er>,
    D: Parser<Inp, Error = Er>,
    E: Parser<Inp, Error = Er>,
    F: Parser<Inp, Error = Er>,
    G: Parser<Inp, Error = Er>,
    H: Parser<Inp, Error = Er>,
    I: Parser<Inp, Error = Er>,
 {
    type Out = (A::Out, B::Out, C::Out, D::Out, E::Out, F::Out, G::Out, H::Out, I::Out);

    type Error = Er;

    open spec fn parse_requires(&self, input: Inp) -> bool {
        seq_requires(self.0, (self.1, self.2, self.3, self.4, self.5, self.6, self.7, self.8), input)
    }

    open spec fn parse_ensures(&self, input: Inp, res: Result<((A::Out, B::Out, C::Out, D::Out, E::Out, F::Out, G::Out, H::Out, I::Out), Inp), Er>) -> bool {
        match res {
            Ok(((a, b, c, d, e, f, g, h, i), rest)) => seq_ok(self.0, (self.1, self.2, self.3, self.4, self.5, self.6, self.7, self.8), input, a, (b, c, d, e, f, g, h, i), rest),
            Err(e) => seq_err(self.0, (self.1, self.2, self.3, self.4, self.5, self.6, self.7, self.8), input, e),
        }
    }

    fn parse(&self, txt: Inp) -> (res: Result<((A::Out, B::Out, C::Out, D::Out, E::Out, F::Out, G::Out, H::Out, I::Out), Inp), Er>) {
        let ghost t0 = txt;
        let (a, t1) = match self.0.parse(txt) {
            Ok(r) => r,
            Err(e) => return Err(e),
        };
        assert(self.0.parse_ensures(t0, Ok((a, t1))));
        assert((self.1, self.2, self.3, self.4, self.5, self.6, self.7, self.8).parse_requires(t1));
        let (b, t2) = match self.1.parse(t1) {
            Ok(r) => r,
            Err(e) => {
                assert((self.1, self.2, self.3, self.4, self.5, self.6, self.7, self.8).parse_ensures(t1, Err(e)));
                return Err(e);
            },
        };
        assert(self.1.parse_ensures(t1, Ok((b, t2))));
        assert((self.2, self.3, self.4, self.5, self.6, self.7, self.8).parse_requires(t2));
        let (c, t3) = match self.2.parse(t2) {
            Ok(r) => r,
            Err(e) => {
                assert((self.2, self.3, self.4, self.5, self.6, self.7, self.8).parse_ensures(t2, Err(e)));
                assert((self.1, self.2, self.3, self.4, self.5, self.6, self.7, self.8).parse_ensures(t1, Err(e)));
                return Err(e);
            },
        };
        assert(self.2.parse_ensures(t2, Ok((c, t3))));
        assert((self.3, self.4, self.5, self.6, self.7, self.8).parse_requires(t3));
        let (d, t4) = match self.3.parse(t3) {
            Ok(r) => r,
            Err(e) => {
                assert((self.3, self.4, self.5, self.6, self.7, self.8).parse_ensures(t3, Err(e)));
                assert((self.2, self.3, self.4, self.5, self.6, self.7, self.8).parse_ensures(t2, Err(e)));
                assert((self.1, self.2, self.3, self.4, self.5, self.6, self.7, self.8).parse_ensures(t1, Err(e)));
                return Err(e);
            },
        };
        assert(self.3.parse_ensures(t3, Ok((d, t4))));
        assert((self.4, self.5, self.6, self.7, self.8).parse_requires(t4));
        let (e, t5) = match self.4.parse(t4) {
            Ok(r) => r,
            Err(e) => {
                assert((self.4, self.5, self.6, self.7, self.8).parse_ensures(t4, Err(e)));
                assert((self.3, self.4, self.5, self.6, self.7, self.8).parse_ensures(t3, Err(e)));
                assert((self.2, self.3, self.4, self.5, self.6, self.7, self.8).parse_ensures(t2, Err(e)));
                assert((self.1, self.2, self.3, self.4, self.5, self.6, self.7, self.8).parse_ensures(t1, Err(e)));
                return Err(e);
            },
        };
        assert(self.4.parse_ensures(t4, Ok((e, t5))));
        assert((self.5, self.6, self.7, self.8).parse_requires(t5));
        let (f, t6) = match self.5.parse(t5) {
            Ok(r) => r,
            Err(e) => {
                assert((self.5, self.6, self.7, self.8).parse_ensures(t5, Err(e)));
                assert((self.4, self.5, self.6, self.7, self.8).parse_ensures(t4, Err(e)));
                assert((self.3, self.4, self.5, self.6, self.7, self.8).parse_ensures(t3, Err(e)));
                assert((self.2, self.3, self.4, self.5, self.6, self.7, self.8).parse_ensures(t2, Err(e)));
                assert((self.1, self.2, self.3, self.4, self.5, self.6, self.7, self.8).parse_ensures(t1, Err(e)));
                return Err(e);
            },
        };
        assert(self.5.parse_ensures(t5, Ok((f, t6))));
        assert((self.6, self.7, self.8).parse_requires(t6));
        let (g, t7) = match self.6.parse(t6) {
            Ok(r) => r,
            Err(e) => {
                assert((self.6, self.7, self.8).parse_ensures(t6, Err(e)));
                assert((self.5, self.6, self.7, self.8).parse_ensures(t5, Err(e)));
                assert((self.4, self.5, self.6, self.7, self.8).parse_ensures(t4, Err(e)));
                assert((self.3, self.4, self.5, self.6, self.7, self.8).parse_ensures(t3, Err(e)));
                assert((self.2, self.3, self.4, self.5, self.6, self.7, self.8).parse_ensures(t2, Err(e)));
                assert((self.1, self.2, self.3, self.4, self.5, self.6, self.7, self.8).parse_ensures(t1, Err(e)));
                return Err(e);
            },
        };
        assert(self.6.parse_ensures(t6, Ok((g, t7))));
        assert((self.7, self.8).parse_requires(t7));
        let (h, t8) = match self.7.parse(t7) {
            Ok(r) => r,
            Err(e) => {
                assert((self.7, self.8).parse_ensures(t7, Err(e)));
                assert((self.6, self.7, self.8).parse_ensures(t6, Err(e)));
                assert((self.5, self.6, self.7, self.8).parse_ensures(t5, Err(e)));
                assert((self.4, self.5, self.6, self.7, self.8).parse_ensures(t4, Err(e)));
                assert((self.3, self.4, self.5, self.6, self.7, self.8).parse_ensures(t3, Err(e)));
                assert((self.2, self.3, self.4, self.5, self.6, self.7, self.8).parse_ensures(t2, Err(e)));
                assert((self.1, self.2, self.3, self.4, self.5, self.6, self.7, self.8).parse_ensures(t1, Err(e)));
                return Err(e);
            },
        };
        assert(self.7.parse_ensures(t7, Ok((h, t8))));
        let (i, t9) = match self.8.parse(t8) {
            Ok(r) => r,
            Err(e) => {
                assert((self.7, self.8).parse_ensures(t7, Err(e)));
                assert((self.6, self.7, self.8).parse_ensures(t6, Err(e)));
                assert((self.5, self.6, self.7, self.8).parse_ensures(t5, Err(e)));
                assert((self.4, self.5, self.6, self.7, self.8).parse_ensures(t4, Err(e)));
                assert((self.3, self.4, self.5, self.6, self.7, self.8).parse_ensures(t3, Err(e)));
                assert((self.2, self.3, self.4, self.5, self.6, self.7, self.8).parse_ensures(t2, Err(e)));
                assert((self.1, self.2, self.3, self.4, self.5, self.6, self.7, self.8).parse_ensures(t1, Err(e)));
                return Err(e);
            },
        };
        assert((self.7, self.8).parse_ensures(t7, Ok(((h, i), t9))));
        assert((self.6, self.7, self.8).parse_ensures(t6, Ok(((g, h, i), t9))));
        assert((self.5, self.6, self.7, self.8).parse_ensures(t5, Ok(((f, g, h, i), t9))));
        assert((self.4, self.5, self.6, self.7, self.8).parse_ensures(t4, Ok(((e, f, g, h, i), t9))));
        assert((self.3, self.4, self.5, self.6, self.7, self.8).parse_ensures(t3, Ok(((d, e, f, g, h, i), t9))));
        assert((self.2, self.3, self.4, self.5, self.6, self.7, self.8).parse_ensures(t2, Ok(((c, d, e, f, g, h, i), t9))));
        assert((self.1, self.2, self.3, self.4, self.5, self.6, self.7, self.8).parse_ensures(t1, Ok(((b, c, d, e, f, g, h, i), t9))));
        Ok(((a, b, c, d, e, f, g, h, i), t9))
    }
}

/// A tuple of 9 deterministic parsers is deterministic.
pub proof fn lemma_tuple9_deterministic<Inp, Er, A, B, C, D, E, F, G, H, I>(t: (A, B, C, D, E, F, G, H, I))
    where
        A: Parser<Inp, Error = Er>,
        B: Parser<Inp, Error = Er>,
        C: Parser<Inp, Error = Er>,
        D: Parser<Inp, Error = Er>,
        E: Parser<Inp, Error = Er>,
        F: Parser<Inp, Error = Er>,
        G: Parser<Inp, Error = Er>,
        H: Parser<Inp, Error = Er>,
        I: Parser<Inp, Error = Er>,
    requires
        deterministic::<Inp, A>(t.0),
        deterministic::<Inp, B>(t.1),
        deterministic::<Inp, C>(t.2),
        deterministic::<Inp, D>(t.3),
        deterministic::<Inp, E>(t.4),
        deterministic::<Inp, F>(t.5),
        deterministic::<Inp, G>(t.6),
        deterministic::<Inp, H>(t.7),
        deterministic::<Inp, I>(t.8),
    ensures
        deterministic::<Inp, (A, B, C, D, E, F, G, H, I)>(t),
{
    lemma_tuple8_deterministic::<Inp, Er, B, C, D, E, F, G, H, I>((t.1, t.2, t.3, t.4, t.5, t.6, t.7, t.8));
    lemma_seq_unique::<Inp, A, (B, C, D, E, F, G, H, I)>(t.0, (t.1, t.2, t.3, t.4, t.5, t.6, t.7, t.8));
}

/// A tuple of 10 parsers sharing one error type runs them in order.
impl<Inp, Er, A, B, C, D, E, F, G, H, I, J> Parser<Inp> for (A, B, C, D, E, F, G, H, I, J) where
    A: Parser<Inp, Error = Er>,
    B: Parser<Inp, Error = Er>,
    C: Parser<Inp, Error = Er>,
    D: Parser<Inp, Error = Er>,
    E: Parser<Inp, Error = Er>,
    F: Parser<Inp, Error = Er>,
    G: Parser<Inp, Error = Er>,
    H: Parser<Inp, Error = Er>,
    I: Parser<Inp, Error = Er>,
    J: Parser<Inp, Error = Er>,
 {
    type Out = (A::Out, B::Out, C::Out, D::Out, E::Out, F::Out, G::Out, H::Out, I::Out, J::Out);

    type Error = Er;

    open spec fn parse_requires(&self, input: Inp) -> bool {
        seq_requires(self.0, (self.1, self.2, self.3, self.4, self.5, self.6, self.7, self.8, self.9), input)
    }

    open spec fn parse_ensures(&self, input: Inp, res: Result<((A::Out, B::Out, C::Out, D::Out, E::Out, F::Out, G::Out, H::Out, I::Out, J::Out), Inp), Er>) -> bool {
        match res {
            Ok(((a, b, c, d, e, f, g, h, i, j), rest)) => seq_ok(self.0, (self.1, self.2, self.3, self.4, self.5, self.6, self.7, self.8, self.9), input, a, (b, c, d, e, f, g, h, i, j), rest),
            Err(e) => seq_err(self.0, (self.1, self.2, self.3, self.4, self.5, self.6, self.7, self.8, self.9), input, e),
        }
    }

    fn parse(&self, txt: Inp) -> (res: Result<((A::Out, B::Out, C::Out, D::Out, E::Out, F::Out, G::Out, H::Out, I::Out, J::Out), Inp), Er>) {
        let ghost t0 = txt;
        let (a, t1) = match self.0.parse(txt) {
            Ok(r) => r,
            Err(e) => return Err(e),
        };
        assert(self.0.parse_ensures(t0, Ok((a, t1))));
        assert((self.1, self.2, self.3, self.4, self.5, self.6, self.7, self.8, self.9).parse_requires(t1));
        let (b, t2) = match self.1.parse(t1) {
            Ok(r) => r,
            Err(e) => {
                assert((self.1, self.2, self.3, self.4, self.5, self.6, self.7, self.8, self.9).parse_ensures(t1, Err(e)));
                return Err(e);
            },
        };
        assert(self.1.parse_ensures(t1, Ok((b, t2))));
        assert((self.2, self.3, self.4, self.5, self.6, self.7, self.8, self.9).parse_requires(t2));
        let (c, t3) = match self.2.parse(t2) {
            Ok(r) => r,
            Err(e) => {
                assert((self.2, self.3, self.4, self.5, self.6, self.7, self.8, self.9).parse_ensures(t2, Err(e)));
                assert((self.1, self.2, self.3, self.4, self.5, self.6, self.7, self.8, self.9).parse_ensures(t1, Err(e)));
                return Err(e);
            },
        };
        assert(self.2.parse_ensures(t2, Ok((c, t3))));
        assert((self.3, self.4, self.5, self.6, self.7, self.8, self.9).parse_requires(t3));
        let (d, t4) = match self.3.parse(t3) {
            Ok(r) => r,
            Err(e) => {
                assert((self.3, self.4, self.5, self.6, self.7, self.8, self.9).parse_ensures(t3, Err(e)));
                assert((self.2, self.3, self.4, self.5, self.6, self.7, self.8, self.9).parse_ensures(t2, Err(e)));
                assert((self.1, self.2, self.3, self.4, self.5, self.6, self.7, self.8, self.9).parse_ensures(t1, Err(e)));
                return Err(e);
            },
        };
        assert(self.3.parse_ensures(t3, Ok((d, t4))));
        assert((self.4, self.5, self.6, self.7, self.8, self.9).parse_requires(t4));
        let (e, t5) = match self.4.parse(t4) {
            Ok(r) => r,
            Err(e) => {
                assert((self.4, self.5, self.6, self.7, self.8, self.9).parse_ensures(t4, Err(e)));
                assert((self.3, self.4, self.5, self.6, self.7, self.8, self.9).parse_ensures(t3, Err(e)));
                assert((self.2, self.3, self.4, self.5, self.6, self.7, self.8, self.9).parse_ensures(t2, Err(e)));
                assert((self.1, self.2, self.3, self.4, self.5, self.6, self.7, self.8, self.9).parse_ensures(t1, Err(e)));
                return Err(e);
            },
        };
        assert(self.4.parse_ensures(t4, Ok((e, t5))));
        assert((self.5, self.6, self.7, self.8, self.9).parse_requires(t5));
        let (f, t6) = match self.5.parse(t5) {
            Ok(r) => r,
            Err(e) => {
                assert((self.5, self.6, self.7, self.8, self.9).parse_ensures(t5, Err(e)));
                assert((self.4, self.5, self.6, self.7, self.8, self.9).parse_ensures(t4, Err(e)));
                assert((self.3, self.4, self.5, self.6, self.7, self.8, self.9).parse_ensures(t3, Err(e)));
                assert((self.2, self.3, self.4, self.5, self.6, self.7, self.8, self.9).parse_ensures(t2, Err(e)));
                assert((self.1, self.2, self.3, self.4, self.5, self.6, self.7, self.8, self.9).parse_ensures(t1, Err(e)));
                return Err(e);
            },
        };
        assert(self.5.parse_ensures(t5, Ok((f, t6))));
        assert((self.6, self.7, self.8, self.9).parse_requires(t6));
        let (g, t7) = match self.6.parse(t6) {
            Ok(r) => r,
            Err(e) => {
                assert((self.6, self.7, self.8, self.9).parse_ensures(t6, Err(e)));
                assert((self.5, self.6, self.7, self.8, self.9).parse_ensures(t5, Err(e)));
                assert((self.4, self.5, self.6, self.7, self.8, self.9).parse_ensures(t4, Err(e)));
                assert((self.3, self.4, self.5, self.6, self.7, self.8, self.9).parse_ensures(t3, Err(e)));
                assert((self.2, self.3, self.4, self.5, self.6, self.7, self.8, self.9).parse_ensures(t2, Err(e)));
                assert((self.1, self.2, self.3, self.4, self.5, self.6, self.7, self.8, self.9).parse_ensures(t1, Err(e)));
                return Err(e);
            },
        };
        assert(self.6.parse_ensures(t6, Ok((g, t7))));
        assert((self.7, self.8, self.9).parse_requires(t7));
        let (h, t8) = match self.7.parse(t7) {
            Ok(r) => r,
            Err(e) => {
                assert((self.7, self.8, self.9).parse_ensures(t7, Err(e)));
                assert((self.6, self.7, self.8, self.9).parse_ensures(t6, Err(e)));
                assert((self.5, self.6, self.7, self.8, self.9).parse_ensures(t5, Err(e)));
                assert((self.4, self.5, self.6, self.7, self.8, self.9).parse_ensures(t4, Err(e)));
                assert((self.3, self.4, self.5, self.6, self.7, self.8, self.9).parse_ensures(t3, Err(e)));
                assert((self.2, self.3, self.4, self.5, self.6, self.7, self.8, self.9).parse_ensures(t2, Err(e)));
                assert((self.1, self.2, self.3, self.4, self.5, self.6, self.7, self.8, self.9).parse_ensures(t1, Err(e)));
                return Err(e);
            },
        };
        assert(self.7.parse_ensures(t7, Ok((h, t8))));
        assert((self.8, self.9).parse_requires(t8));
        let (i, t9) = match self.8.parse(t8) {
            Ok(r) => r,
            Err(e) => {
                assert((self.8, self.9).parse_ensures(t8, Err(e)));
                assert((self.7, self.8, self.9).parse_ensures(t7, Err(e)));
                assert((self.6, self.7, self.8, self.9).parse_ensures(t6, Err(e)));
                assert((self.5, self.6, self.7, self.8, self.9).parse_ensures(t5, Err(e)));
                assert((self.4, self.5, self.6, self.7, self.8, self.9).parse_ensures(t4, Err(e)));
                assert((self.3, self.4, self.5, self.6, self.7, self.8, self.9).parse_ensures(t3, Err(e)));
                assert((self.2, self.3, self.4, self.5, self.6, self.7, self.8, self.9).parse_ensures(t2, Err(e)));
                assert((self.1, self.2, self.3, self.4, self.5, self.6, self.7, self.8, self.9).parse_ensures(t1, Err(e)));
                return Err(e);
            },
        };
        assert(self.8.parse_ensures(t8, Ok((i, t9))));
        let (j, t10) = match self.9.parse(t9) {
            Ok(r) => r,
            Err(e) => {
                assert((self.8, self.9).parse_ensures(t8, Err(e)));
                assert((self.7, self.8, self.9).parse_ensures(t7, Err(e)));
                assert((self.6, self.7, self.8, self.9).parse_ensures(t6, Err(e)));
                assert((self.5, self.6, self.7, self.8, self.9).parse_ensures(t5, Err(e)));
                assert((self.4, self.5, self.6, self.7, self.8, self.9).parse_ensures(t4, Err(e)));
                assert((self.3, self.4, self.5, self.6, self.7, self.8, self.9).parse_ensures(t3, Err(e)));
                assert((self.2, self.3, self.4, self.5, self.6, self.7, self.8, self.9).parse_ensures(t2, Err(e)));
                assert((self.1, self.2, self.3, self.4, self.5, self.6, self.7, self.8, self.9).parse_ensures(t1, Err(e)));
                return Err(e);
            },
        };
        assert((self.8, self.9).parse_ensures(t8, Ok(((i, j), t10))));
        assert((self.7, self.8, self.9).parse_ensures(t7, Ok(((h, i, j), t10))));
        assert((self.6, self.7, self.8, self.9).parse_ensures(t6, Ok(((g, h, i, j), t10))));
        assert((self.5, self.6, self.7, self.8, self.9).parse_ensures(t5, Ok(((f, g, h, i, j), t10))));
        assert((self.4, self.5, self.6, self.7, self.8, self.9).parse_ensures(t4, Ok(((e, f, g, h, i, j), t10))));
        assert((self.3, self.4, self.5, self.6, self.7, self.8, self.9).parse_ensures(t3, Ok(((d, e, f, g, h, i, j), t10))));
        assert((self.2, self.3, self.4, self.5, self.6, self.7, self.8, self.9).parse_ensures(t2, Ok(((c, d, e, f, g, h, i, j), t10))));
        assert((self.1, self.2, self.3, self.4, self.5, self.6, self.7, self.8, self.9).parse_ensures(t1, Ok(((b, c, d, e, f, g, h, i, j), t10))));
        Ok(((a, b, c, d, e, f, g, h, i, j), t10))
    }
}

/// A tuple of 10 deterministic parsers is deterministic.
pub proof fn lemma_tuple10_deterministic<Inp, Er, A, B, C, D, E, F, G, H, I, J>(t: (A, B, C, D, E, F, G, H, I, J))
    where
        A: Parser<Inp, Error = Er>,
        B: Parser<Inp, Error = Er>,
        C: Parser<Inp, Error = Er>,
        D: Parser<Inp, Error = Er>,
        E: Parser<Inp, Error = Er>,
        F: Parser<Inp, Error = Er>,
        G: Parser<Inp, Error = Er>,
        H: Parser<Inp, Error = Er>,
        I: Parser<Inp, Error = Er>,
        J: Parser<Inp, Error = Er>,
    requires
        deterministic::<Inp, A>(t.0),
        deterministic::<Inp, B>(t.1),
        deterministic::<Inp, C>(t.2),
        deterministic::<Inp, D>(t.3),
        deterministic::<Inp, E>(t.4),
        deterministic::<Inp, F>(t.5),
        deterministic::<Inp, G>(t.6),
        deterministic::<Inp, H>(t.7),
        deterministic::<Inp, I>(t.8),
        deterministic::<Inp, J>(t.9),
    ensures
        deterministic::<Inp, (A, B, C, D, E, F, G, H, I, J)>(t),
{
    lemma_tuple9_deterministic::<Inp, Er, B, C, D, E, F, G, H, I, J>((t.1, t.2, t.3, t.4, t.5, t.6, t.7, t.8, t.9));
    lemma_seq_unique::<Inp, A, (B, C, D, E, F, G, H, I, J)>(t.0, (t.1, t.2, t.3, t.4, t.5, t.6, t.7, t.8, t.9));
}

/// A tuple of 11 parsers sharing one error type runs them in order.
impl<Inp, Er, A, B, C, D, E, F, G, H, I, J, K> Parser<Inp> for (A, B, C, D, E, F, G, H, I, J, K) where
    A: Parser<Inp, Error = Er>,
    B: Parser<Inp, Error = Er>,
    C: Parser<Inp, Error = Er>,
    D: Parser<Inp, Error = Er>,
    E: Parser<Inp, Error = Er>,
    F: Parser<Inp, Error = Er>,
    G: Parser<Inp, Error = Er>,
    H: Parser<Inp, Error = Er>,
    I: Parser<Inp, Error = Er>,
    J: Parser<Inp, Error = Er>,
    K: Parser<Inp, Error = Er>,
 {
    type Out = (A::Out, B::Out, C::Out, D::Out, E::Out, F::Out, G::Out, H::Out, I::Out, J::Out, K::Out);

    type Error = Er;

    open spec fn parse_requires(&self, input: Inp) -> bool {
        seq_requires(self.0, (self.1, self.2, self.3, self.4, self.5, self.6, self.7, self.8, self.9, self.10), input)
    }

    open spec fn parse_ensures(&self, input: Inp, res: Result<((A::Out, B::Out, C::Out, D::Out, E::Out, F::Out, G::Out, H::Out, I::Out, J::Out, K::Out), Inp), Er>) -> bool {
        match res {
            Ok(((a, b, c, d, e, f, g, h, i, j, k), rest)) => seq_ok(self.0, (self.1, self.2, self.3, self.4, self.5, self.6, self.7, self.8, self.9, self.10), input, a, (b, c, d, e, f, g, h, i, j, k), rest),
            Err(e) => seq_err(self.0, (self.1, self.2, self.3, self.4, self.5, self.6, self.7, self.8, self.9, self.10), input, e),
        }
    }

    fn parse(&self, txt: Inp) -> (res: Result<((A::Out, B::Out, C::Out, D::Out, E::Out, F::Out, G::Out, H::Out, I::Out, J::Out, K::Out), Inp), Er>) {
        let ghost t0 = txt;
        let (a, t1) = match self.0.parse(txt) {
            Ok(r) => r,
            Err(e) => return Err(e),
        };
        assert(self.0.parse_ensures(t0, Ok((a, t1))));
        assert((self.1, self.2, self.3, self.4, self.5, self.6, self.7, self.8, self.9, self.10).parse_requires(t1));
        let (b, t2) = match self.1.parse(t1) {
            Ok(r) => r,
            Err(e) => {
                assert((self.1, self.2, self.3, self.4, self.5, self.6, self.7, self.8, self.9, self.10).parse_ensures(t1, Err(e)));
                return Err(e);
            },
        };
        assert(self.1.parse_ensures(t1, Ok((b, t2))));
        assert((self.2, self.3, self.4, self.5, self.6, self.7, self.8, self.9, self.10).parse_requires(t2));
        let (c, t3) = match self.2.parse(t2) {
            Ok(r) => r,
            Err(e) => {
                assert((self.2, self.3, self.4, self.5, self.6, self.7, self.8, self.9, self.10).parse_ensures(t2, Err(e)));
                assert((self.1, self.2, self.3, self.4, self.5, self.6, self.7, self.8, self.9, self.10).parse_ensures(t1, Err(e)));
                return Err(e);
            },
        };
        assert(self.2.parse_ensures(t2, Ok((c, t3))));
        assert((self.3, self.4, self.5, self.6, self.7, self.8, self.9, self.10).parse_requires(t3));
        let (d, t4) = match self.3.parse(t3) {
            Ok(r) => r,
            Err(e) => {
                assert((self.3, self.4, self.5, self.6, self.7, self.8, self.9, self.10).parse_ensures(t3, Err(e)));
                assert((self.2, self.3, self.4, self.5, self.6, self.7, self.8, self.9, self.10).parse_ensures(t2, Err(e)));
                assert((self.1, self.2, self.3, self.4, self.5, self.6, self.7, self.8, self.9, self.10).parse_ensures(t1, Err(e)));
                return Err(e);
            },
        };
        assert(self.3.parse_ensures(t3, Ok((d, t4))));
        assert((self.4, self.5, self.6, self.7, self.8, self.9, self.10).parse_requires(t4));
        let (e, t5) = match self.4.parse(t4) {
            Ok(r) => r,
            Err(e) => {
                assert((self.4, self.5, self.6, self.7, self.8, self.9, self.10).parse_ensures(t4, Err(e)));
                assert((self.3, self.4, self.5, self.6, self.7, self.8, self.9, self.10).parse_ensures(t3, Err(e)));
                assert((self.2, self.3, self.4, self.5, self.6, self.7, self.8, self.9, self.10).parse_ensures(t2, Err(e)));
                assert((self.1, self.2, self.3, self.4, self.5, self.6, self.7, self.8, self.9, self.10).parse_ensures(t1, Err(e)));
                return Err(e);
            },
        };
        assert(self.4.parse_ensures(t4, Ok((e, t5))));
        assert((self.5, self.6, self.7, self.8, self.9, self.10).parse_requires(t5));
        let (f, t6) = match self.5.parse(t5) {
            Ok(r) => r,
            Err(e) => {
                assert((self.5, self.6, self.7, self.8, self.9, self.10).parse_ensures(t5, Err(e)));
                assert((self.4, self.5, self.6, self.7, self.8, self.9, self.10).parse_ensures(t4, Err(e)));
                assert((self.3, self.4, self.5, self.6, self.7, self.8, self.9, self.10).parse_ensures(t3, Err(e)));
                assert((self.2, self.3, self.4, self.5, self.6, self.7, self.8, self.9, self.10).parse_ensures(t2, Err(e)));
                assert((self.1, self.2, self.3, self.4, self.5, self.6, self.7, self.8, self.9, self.10).parse_ensures(t1, Err(e)));
                return Err(e);
            },
        };
        assert(self.5.parse_ensures(t5, Ok((f, t6))));
        assert((self.6, self.7, self.8, self.9, self.10).parse_requires(t6));
        let (g, t7) = match self.6.parse(t6) {
            Ok(r) => r,
            Err(e) => {
                assert((self.6, self.7, self.8, self.9, self.10).parse_ensures(t6, Err(e)));
                assert((self.5, self.6, self.7, self.8, self.9, self.10).parse_ensures(t5, Err(e)));
                assert((self.4, self.5, self.6, self.7, self.8, self.9, self.10).parse_ensures(t4, Err(e)));
                assert((self.3, self.4, self.5, self.6, self.7, self.8, self.9, self.10).parse_ensures(t3, Err(e)));
                assert((self.2, self.3, self.4, self.5, self.6, self.7, self.8, self.9, self.10).parse_ensures(t2, Err(e)));
                assert((self.1, self.2, self.3, self.4, self.5, self.6, self.7, self.8, self.9, self.10).parse_ensures(t1, Err(e)));
                return Err(e);
            },
        };
        assert(self.6.parse_ensures(t6, Ok((g, t7))));
        assert((self.7, self.8, self.9, self.10).parse_requires(t7));
        let (h, t8) = match self.7.parse(t7) {
            Ok(r) => r,
            Err(e) => {
                assert((self.7, self.8, self.9, self.10).parse_ensures(t7, Err(e)));
                assert((self.6, self.7, self.8, self.9, self.10).parse_ensures(t6, Err(e)));
                assert((self.5, self.6, self.7, self.8, self.9, self.10).parse_ensures(t5, Err(e)));
                assert((self.4, self.5, self.6, self.7, self.8, self.9, self.10).parse_ensures(t4, Err(e)));
                assert((self.3, self.4, self.5, self.6, self.7, self.8, self.9, self.10).parse_ensures(t3, Err(e)));
                assert((self.2, self.3, self.4, self.5, self.6, self.7, self.8, self.9, self.10).parse_ensures(t2, Err(e)));
                assert((self.1, self.2, self.3, self.4, self.5, self.6, self.7, self.8, self.9, self.10).parse_ensures(t1, Err(e)));
                return Err(e);
            },
        };
        assert(self.7.parse_ensures(t7, Ok((h, t8))));
        assert((self.8, self.9, self.10).parse_requires(t8));
        let (i, t9) = match self.8.parse(t8) {
            Ok(r) => r,
            Err(e) => {
                assert((self.8, self.9, self.10).parse_ensures(t8, Err(e)));
                assert((self.7, self.8, self.9, self.10).parse_ensures(t7, Err(e)));
                assert((self.6, self.7, self.8, self.9, self.10).parse_ensures(t6, Err(e)));
                assert((self.5, self.6, self.7, self.8, self.9, self.10).parse_ensures(t5, Err(e)));
                assert((self.4, self.5, self.6, self.7, self.8, self.9, self.10).parse_ensures(t4, Err(e)));
                assert((self.3, self.4, self.5, self.6, self.7, self.8, self.9, self.10).parse_ensures(t3, Err(e)));
                assert((self.2, self.3, self.4, self.5, self.6, self.7, self.8, self.9, self.10).parse_ensures(t2, Err(e)));
                assert((self.1, self.2, self.3, self.4, self.5, self.6, self.7, self.8, self.9, self.10).parse_ensures(t1, Err(e)));
                return Err(e);
            },
        };
        assert(self.8.parse_ensures(t8, Ok((i, t9))));
        assert((self.9, self.10).parse_requires(t9));
        let (j, t10) = match self.9.parse(t9) {
            Ok(r) => r,
            Err(e) => {
                assert((self.9, self.10).parse_ensures(t9, Err(e)));
                assert((self.8, self.9, self.10).parse_ensures(t8, Err(e)));
                assert((self.7, self.8, self.9, self.10).parse_ensures(t7, Err(e)));
                assert((self.6, self.7, self.8, self.9, self.10).parse_ensures(t6, Err(e)));
                assert((self.5, self.6, self.7, self.8, self.9, self.10).parse_ensures(t5, Err(e)));
                assert((self.4, self.5, self.6, self.7, self.8, self.9, self.10).parse_ensures(t4, Err(e)));
                assert((self.3, self.4, self.5, self.6, self.7, self.8, self.9, self.10).parse_ensures(t3, Err(e)));
                assert((self.2, self.3, self.4, self.5, self.6, self.7, self.8, self.9, self.10).parse_ensures(t2, Err(e)));
                assert((self.1, self.2, self.3, self.4, self.5, self.6, self.7, self.8, self.9, self.10).parse_ensures(t1, Err(e)));
                return Err(e);
            },
        };
        assert(self.9.parse_ensures(t9, Ok((j, t10))));
        let (k, t11) = match self.10.parse(t10) {
            Ok(r) => r,
            Err(e) => {
                assert((self.9, self.10).parse_ensures(t9, Err(e)));
                assert((self.8, self.9, self.10).parse_ensures(t8, Err(e)));
                assert((self.7, self.8, self.9, self.10).parse_ensures(t7, Err(e)));
                assert((self.6, self.7, self.8, self.9, self.10).parse_ensures(t6, Err(e)));
                assert((self.5, self.6, self.7, self.8, self.9, self.10).parse_ensures(t5, Err(e)));
                assert((self.4, self.5, self.6, self.7, self.8, self.9, self.10).parse_ensures(t4, Err(e)));
                assert((self.3, self.4, self.5, self.6, self.7, self.8, self.9, self.10).parse_ensures(t3, Err(e)));
                assert((self.2, self.3, self.4, self.5, self.6, self.7, self.8, self.9, self.10).parse_ensures(t2, Err(e)));
                assert((self.1, self.2, self.3, self.4, self.5, self.6, self.7, self.8, self.9, self.10).parse_ensures(t1, Err(e)));
                return Err(e);
            },
        };
        assert((self.9, self.10).parse_ensures(t9, Ok(((j, k), t11))));
        assert((self.8, self.9, self.10).parse_ensures(t8, Ok(((i, j, k), t11))));
        assert((self.7, self.8, self.9, self.10).parse_ensures(t7, Ok(((h, i, j, k), t11))));
        assert((self.6, self.7, self.8, self.9, self.10).parse_ensures(t6, Ok(((g, h, i, j, k), t11))));
        assert((self.5, self.6, self.7, self.8, self.9, self.10).parse_ensures(t5, Ok(((f, g, h, i, j, k), t11))));
        assert((self.4, self.5, self.6, self.7, self.8, self.9, self.10).parse_ensures(t4, Ok(((e, f, g, h, i, j, k), t11))));
        assert((self.3, self.4, self.5, self.6, self.7, self.8, self.9, self.10).parse_ensures(t3, Ok(((d, e, f, g, h, i, j, k), t11))));
        assert((self.2, self.3, self.4, self.5, self.6, self.7, self.8, self.9, self.10).parse_ensures(t2, Ok(((c, d, e, f, g, h, i, j, k), t11))));
        assert((self.1, self.2, self.3, self.4, self.5, self.6, self.7, self.8, self.9, self.10).parse_ensures(t1, Ok(((b, c, d, e, f, g, h, i, j, k), t11))));
        Ok(((a, b, c, d, e, f, g, h, i, j, k), t11))
    }
}

/// A tuple of 11 deterministic parsers is deterministic.
pub proof fn lemma_tuple11_deterministic<Inp, Er, A, B, C, D, E, F, G, H, I, J, K>(t: (A, B, C, D, E, F, G, H, I, J, K))
    where
        A: Parser<Inp, Error = Er>,
        B: Parser<Inp, Error = Er>,
        C: Parser<Inp, Error = Er>,
        D: Parser<Inp, Error = Er>,
        E: Parser<Inp, Error = Er>,
        F: Parser<Inp, Error = Er>,
        G: Parser<Inp, Error = Er>,
        H: Parser<Inp, Error = Er>,
        I: Parser<Inp, Error = Er>,
        J: Parser<Inp, Error = Er>,
        K: Parser<Inp, Error = Er>,
    requires
        deterministic::<Inp, A>(t.0),
        deterministic::<Inp, B>(t.1),
        deterministic::<Inp, C>(t.2),
        deterministic::<Inp, D>(t.3),
        deterministic::<Inp, E>(t.4),
        deterministic::<Inp, F>(t.5),
        deterministic::<Inp, G>(t.6),
        deterministic::<Inp, H>(t.7),
        deterministic::<Inp, I>(t.8),
        deterministic::<Inp, J>(t.9),
        deterministic::<Inp, K>(t.10),
    ensures
        deterministic::<Inp, (A, B, C, D, E, F, G, H, I, J, K)>(t),
{
    lemma_tuple10_deterministic::<Inp, Er, B, C, D, E, F, G, H, I, J, K>((t.1, t.2, t.3, t.4, t.5, t.6, t.7, t.8, t.9, t.10));
    lemma_seq_unique::<Inp, A, (B, C, D, E, F, G, H, I, J, K)>(t.0, (t.1, t.2, t.3, t.4, t.5, t.6, t.7, t.8, t.9, t.10));
}

/// A tuple of 12 parsers sharing one error type runs them in order.
impl<Inp, Er, A, B, C, D, E, F, G, H, I, J, K, L> Parser<Inp> for (A, B, C, D, E, F, G, H, I, J, K, L) where
    A: Parser<Inp, Error = Er>,
    B: Parser<Inp, Error = Er>,
    C: Parser<Inp, Error = Er>,
    D: Parser<Inp, Error = Er>,
    E: Parser<Inp, Error = Er>,
    F: Parser<Inp, Error = Er>,
    G: Parser<Inp, Error = Er>,
    H: Parser<Inp, Error = Er>,
    I: Parser<Inp, Error = Er>,
    J: Parser<Inp, Error = Er>,
    K: Parser<Inp, Error = Er>,
    L: Parser<Inp, Error = Er>,
 {
    type Out = (A::Out, B::Out, C::Out, D::Out, E::Out, F::Out, G::Out, H::Out, I::Out, J::Out, K::Out, L::Out);

    type Error = Er;

    open spec fn parse_requires(&self, input: Inp) -> bool {
        seq_requires(self.0, (self.1, self.2, self.3, self.4, self.5, self.6, self.7, self.8, self.9, self.10, self.11), input)
    }

    open spec fn parse_ensures(&self, input: Inp, res: Result<((A::Out, B::Out, C::Out, D::Out, E::Out, F::Out, G::Out, H::Out, I::Out, J::Out, K::Out, L::Out), Inp), Er>) -> bool {
        match res {
            Ok(((a, b, c, d, e, f, g, h, i, j, k, l), rest)) => seq_ok(self.0, (self.1, self.2, self.3, self.4, self.5, self.6, self.7, self.8, self.9, self.10, self.11), input, a, (b, c, d, e, f, g, h, i, j, k, l), rest),
            Err(e) => seq_err(self.0, (self.1, self.2, self.3, self.4, self.5, self.6, self.7, self.8, self.9, self.10, self.11), input, e),
        }
    }

    fn parse(&self, txt: Inp) -> (res: Result<((A::Out, B::Out, C::Out, D::Out, E::Out, F::Out, G::Out, H::Out, I::Out, J::Out, K::Out, L::Out), Inp), Er>) {
        let ghost t0 = txt;
        let (a, t1) = match self.0.parse(txt) {
            Ok(r) => r,
            Err(e) => return Err(e),
        };
        assert(self.0.parse_ensures(t0, Ok((a, t1))));
        assert((self.1, self.2, self.3, self.4, self.5, self.6, self.7, self.8, self.9, self.10, self.11).parse_requires(t1));
        let (b, t2) = match self.1.parse(t1) {
            Ok(r) => r,
            Err(e) => {
                assert((self.1, self.2, self.3, self.4, self.5, self.6, self.7, self.8, self.9, self.10, self.11).parse_ensures(t1, Err(e)));
                return Err(e);
            },
        };
        assert(self.1.parse_ensures(t1, Ok((b, t2))));
        assert((self.2, self.3, self.4, self.5, self.6, self.7, self.8, self.9, self.10, self.11).parse_requires(t2));
        let (c, t3) = match self.2.parse(t2) {
            Ok(r) => r,
            Err(e) => {
                assert((self.2, self.3, self.4, self.5, self.6, self.7, self.8, self.9, self.10, self.11).parse_ensures(t2, Err(e)));
                assert((self.1, self.2, self.3, self.4, self.5, self.6, self.7, self.8, self.9, self.10, self.11).parse_ensures(t1, Err(e)));
                return Err(e);
            },
        };
        assert(self.2.parse_ensures(t2, Ok((c, t3))));
        assert((self.3, self.4, self.5, self.6, self.7, self.8, self.9, self.10, self.11).parse_requires(t3));
        let (d, t4) = match self.3.parse(t3) {
            Ok(r) => r,
            Err(e) => {
                assert((self.3, self.4, self.5, self.6, self.7, self.8, self.9, self.10, self.11).parse_ensures(t3, Err(e)));
                assert((self.2, self.3, self.4, self.5, self.6, self.7, self.8, self.9, self.10, self.11).parse_ensures(t2, Err(e)));
                assert((self.1, self.2, self.3, self.4, self.5, self.6, self.7, self.8, self.9, self.10, self.11).parse_ensures(t1, Err(e)));
                return Err(e);
            },
        };
        assert(self.3.parse_ensures(t3, Ok((d, t4))));
        assert((self.4, self.5, self.6, self.7, self.8, self.9, self.10, self.11).parse_requires(t4));
        let (e, t5) = match self.4.parse(t4) {
            Ok(r) => r,
            Err(e) => {
                assert((self.4, self.5, self.6, self.7, self.8, self.9, self.10, self.11).parse_ensures(t4, Err(e)));
                assert((self.3, self.4, self.5, self.6, self.7, self.8, self.9, self.10, self.11).parse_ensures(t3, Err(e)));
                assert((self.2, self.3, self.4, self.5, self.6, self.7, self.8, self.9, self.10, self.11).parse_ensures(t2, Err(e)));
                assert((self.1, self.2, self.3, self.4, self.5, self.6, self.7, self.8, self.9, self.10, self.11).parse_ensures(t1, Err(e)));
                return Err(e);
            },
        };
        assert(self.4.parse_ensures(t4, Ok((e, t5))));
        assert((self.5, self.6, self.7, self.8, self.9, self.10, self.11).parse_requires(t5));
        let (f, t6) = match self.5.parse(t5) {
            Ok(r) => r,
            Err(e) => {
                assert((self.5, self.6, self.7, self.8, self.9, self.10, self.11).parse_ensures(t5, Err(e)));
                assert((self.4, self.5, self.6, self.7, self.8, self.9, self.10, self.11).parse_ensures(t4, Err(e)));
                assert((self.3, self.4, self.5, self.6, self.7, self.8, self.9, self.10, self.11).parse_ensures(t3, Err(e)));
                assert((self.2, self.3, self.4, self.5, self.6, self.7, self.8, self.9, self.10, self.11).parse_ensures(t2, Err(e)));
                assert((self.1, self.2, self.3, self.4, self.5, self.6, self.7, self.8, self.9, self.10, self.11).parse_ensures(t1, Err(e)));
                return Err(e);
            },
        };
        assert(self.5.parse_ensures(t5, Ok((f, t6))));
        assert((self.6, self.7, self.8, self.9, self.10, self.11).parse_requires(t6));
        let (g, t7) = match self.6.parse(t6) {
            Ok(r) => r,
            Err(e) => {
                assert((self.6, self.7, self.8, self.9, self.10, self.11).parse_ensures(t6, Err(e)));
                assert((self.5, self.6, self.7, self.8, self.9, self.10, self.11).parse_ensures(t5, Err(e)));
                assert((self.4, self.5, self.6, self.7, self.8, self.9, self.10, self.11).parse_ensures(t4, Err(e)));
                assert((self.3, self.4, self.5, self.6, self.7, self.8, self.9, self.10, self.11).parse_ensures(t3, Err(e)));
                assert((self.2, self.3, self.4, self.5, self.6, self.7, self.8, self.9, self.10, self.11).parse_ensures(t2, Err(e)));
                assert((self.1, self.2, self.3, self.4, self.5, self.6, self.7, self.8, self.9, self.10, self.11).parse_ensures(t1, Err(e)));
                return Err(e);
            },
        };
        assert(self.6.parse_ensures(t6, Ok((g, t7))));
        assert((self.7, self.8, self.9, self.10, self.11).parse_requires(t7));
        let (h, t8) = match self.7.parse(t7) {
            Ok(r) => r,
            Err(e) => {
                assert((self.7, self.8, self.9, self.10, self.11).parse_ensures(t7, Err(e)));
                assert((self.6, self.7, self.8, self.9, self.10, self.11).parse_ensures(t6, Err(e)));
                assert((self.5, self.6, self.7, self.8, self.9, self.10, self.11).parse_ensures(t5, Err(e)));
                assert((self.4, self.5, self.6, self.7, self.8, self.9, self.10, self.11).parse_ensures(t4, Err(e)));
                assert((self.3, self.4, self.5, self.6, self.7, self.8, self.9, self.10, self.11).parse_ensures(t3, Err(e)));
                assert((self.2, self.3, self.4, self.5, self.6, self.7, self.8, self.9, self.10, self.11).parse_ensures(t2, Err(e)));
                assert((self.1, self.2, self.3, self.4, self.5, self.6, self.7, self.8, self.9, self.10, self.11).parse_ensures(t1, Err(e)));
                return Err(e);
            },
        };
        assert(self.7.parse_ensures(t7, Ok((h, t8))));
        assert((self.8, self.9, self.10, self.11).parse_requires(t8));
        let (i, t9) = match self.8.parse(t8) {
            Ok(r) => r,
            Err(e) => {
                assert((self.8, self.9, self.10, self.11).parse_ensures(t8, Err(e)));
                assert((self.7, self.8, self.9, self.10, self.11).parse_ensures(t7, Err(e)));
                assert((self.6, self.7, self.8, self.9, self.10, self.11).parse_ensures(t6, Err(e)));
                assert((self.5, self.6, self.7, self.8, self.9, self.10, self.11).parse_ensures(t5, Err(e)));
                assert((self.4, self.5, self.6, self.7, self.8, self.9, self.10, self.11).parse_ensures(t4, Err(e)));
                assert((self.3, self.4, self.5, self.6, self.7, self.8, self.9, self.10, self.11).parse_ensures(t3, Err(e)));
                assert((self.2, self.3, self.4, self.5, self.6, self.7, self.8, self.9, self.10, self.11).parse_ensures(t2, Err(e)));
                assert((self.1, self.2, self.3, self.4, self.5, self.6, self.7, self.8, self.9, self.10, self.11).parse_ensures(t1, Err(e)));
                return Err(e);
            },
        };
        assert(self.8.parse_ensures(t8, Ok((i, t9))));
        assert((self.9, self.10, self.11).parse_requires(t9));
        let (j, t10) = match self.9.parse(t9) {
            Ok(r) => r,
            Err(e) => {
                assert((self.9, self.10, self.11).parse_ensures(t9, Err(e)));
                assert((self.8, self.9, self.10, self.11).parse_ensures(t8, Err(e)));
                assert((self.7, self.8, self.9, self.10, self.11).parse_ensures(t7, Err(e)));
                assert((self.6, self.7, self.8, self.9, self.10, self.11).parse_ensures(t6, Err(e)));
                assert((self.5, self.6, self.7, self.8, self.9, self.10, self.11).parse_ensures(t5, Err(e)));
                assert((self.4, self.5, self.6, self.7, self.8, self.9, self.10, self.11).parse_ensures(t4, Err(e)));
                assert((self.3, self.4, self.5, self.6, self.7, self.8, self.9, self.10, self.11).parse_ensures(t3, Err(e)));
                assert((self.2, self.3, self.4, self.5, self.6, self.7, self.8, self.9, self.10, self.11).parse_ensures(t2, Err(e)));
                assert((self.1, self.2, self.3, self.4, self.5, self.6, self.7, self.8, self.9, self.10, self.11).parse_ensures(t1, Err(e)));
                return Err(e);
            },
        };
        assert(self.9.parse_ensures(t9, Ok((j, t10))));
        assert((self.10, self.11).parse_requires(t10));
        let (k, t11) = match self.10.parse(t10) {
            Ok(r) => r,
            Err(e) => {
                assert((self.10, self.11).parse_ensures(t10, Err(e)));
                assert((self.9, self.10, self.11).parse_ensures(t9, Err(e)));
                assert((self.8, self.9, self.10, self.11).parse_ensures(t8, Err(e)));
                assert((self.7, self.8, self.9, self.10, self.11).parse_ensures(t7, Err(e)));
                assert((self.6, self.7, self.8, self.9, self.10, self.11).parse_ensures(t6, Err(e)));
                assert((self.5, self.6, self.7, self.8, self.9, self.10, self.11).parse_ensures(t5, Err(e)));
                assert((self.4, self.5, self.6, self.7, self.8, self.9, self.10, self.11).parse_ensures(t4, Err(e)));
                assert((self.3, self.4, self.5, self.6, self.7, self.8, self.9, self.10, self.11).parse_ensures(t3, Err(e)));
                assert((self.2, self.3, self.4, self.5, self.6, self.7, self.8, self.9, self.10, self.11).parse_ensures(t2, Err(e)));
                assert((self.1, self.2, self.3, self.4, self.5, self.6, self.7, self.8, self.9, self.10, self.11).parse_ensures(t1, Err(e)));
                return Err(e);
            },
        };
        assert(self.10.parse_ensures(t10, Ok((k, t11))));
        let (l, t12) = match self.11.parse(t11) {
            Ok(r) => r,
            Err(e) => {
                assert((self.10, self.11).parse_ensures(t10, Err(e)));
                assert((self.9, self.10, self.11).parse_ensures(t9, Err(e)));
                assert((self.8, self.9, self.10, self.11).parse_ensures(t8, Err(e)));
                assert((self.7, self.8, self.9, self.10, self.11).parse_ensures(t7, Err(e)));
                assert((self.6, self.7, self.8, self.9, self.10, self.11).parse_ensures(t6, Err(e)));
                assert((self.5, self.6, self.7, self.8, self.9, self.10, self.11).parse_ensures(t5, Err(e)));
                assert((self.4, self.5, self.6, self.7, self.8, self.9, self.10, self.11).parse_ensures(t4, Err(e)));
                assert((self.3, self.4, self.5, self.6, self.7, self.8, self.9, self.10, self.11).parse_ensures(t3, Err(e)));
                assert((self.2, self.3, self.4, self.5, self.6, self.7, self.8, self.9, self.10, self.11).parse_ensures(t2, Err(e)));
                assert((self.1, self.2, self.3, self.4, self.5, self.6, self.7, self.8, self.9, self.10, self.11).parse_ensures(t1, Err(e)));
                return Err(e);
            },
        };
        assert((self.10, self.11).parse_ensures(t10, Ok(((k, l), t12))));
        assert((self.9, self.10, self.11).parse_ensures(t9, Ok(((j, k, l), t12))));
        assert((self.8, self.9, self.10, self.11).parse_ensures(t8, Ok(((i, j, k, l), t12))));
        assert((self.7, self.8, self.9, self.10, self.11).parse_ensures(t7, Ok(((h, i, j, k, l), t12))));
        assert((self.6, self.7, self.8, self.9, self.10, self.11).parse_ensures(t6, Ok(((g, h, i, j, k, l), t12))));
        assert((self.5, self.6, self.7, self.8, self.9, self.10, self.11).parse_ensures(t5, Ok(((f, g, h, i, j, k, l), t12))));
        assert((self.4, self.5, self.6, self.7, self.8, self.9, self.10, self.11).parse_ensures(t4, Ok(((e, f, g, h, i, j, k, l), t12))));
        assert((self.3, self.4, self.5, self.6, self.7, self.8, self.9, self.10, self.11).parse_ensures(t3, Ok(((d, e, f, g, h, i, j, k, l), t12))));
        assert((self.2, self.3, self.4, self.5, self.6, self.7, self.8, self.9, self.10, self.11).parse_ensures(t2, Ok(((c, d, e, f, g, h, i, j, k, l), t12))));
        assert((self.1, self.2, self.3, self.4, self.5, self.6, self.7, self.8, self.9, self.10, self.11).parse_ensures(t1, Ok(((b, c, d, e, f, g, h, i, j, k, l), t12))));
        Ok(((a, b, c, d, e, f, g, h, i, j, k, l), t12))
    }
}

/// A tuple of 12 deterministic parsers is deterministic.
pub proof fn lemma_tuple12_deterministic<Inp, Er, A, B, C, D, E, F, G, H, I, J, K, L>(t: (A, B, C, D, E, F, G, H, I, J, K, L))
    where
        A: Parser<Inp, Error = Er>,
        B: Parser<Inp, Error = Er>,
        C: Parser<Inp, Error = Er>,
        D: Parser<Inp, Error = Er>,
        E: Parser<Inp, Error = Er>,
        F: Parser<Inp, Error = Er>,
        G: Parser<Inp, Error = Er>,
        H: Parser<Inp, Error = Er>,
        I: Parser<Inp, Error = Er>,
        J: Parser<Inp, Error = Er>,
        K: Parser<Inp, Error = Er>,
        L: Parser<Inp, Error = Er>,
    requires
        deterministic::<Inp, A>(t.0),
        deterministic::<Inp, B>(t.1),
        deterministic::<Inp, C>(t.2),
        deterministic::<Inp, D>(t.3),
        deterministic::<Inp, E>(t.4),
        deterministic::<Inp, F>(t.5),
        deterministic::<Inp, G>(t.6),
        deterministic::<Inp, H>(t.7),
        deterministic::<Inp, I>(t.8),
        deterministic::<Inp, J>(t.9),
        deterministic::<Inp, K>(t.10),
        deterministic::<Inp, L>(t.11),
    ensures
        deterministic::<Inp, (A, B, C, D, E, F, G, H, I, J, K, L)>(t),
{
    lemma_tuple11_deterministic::<Inp, Er, B, C, D, E, F, G, H, I, J, K, L>((t.1, t.2, t.3, t.4, t.5, t.6, t.7, t.8, t.9, t.10, t.11));
    lemma_seq_unique::<Inp, A, (B, C, D, E, F, G, H, I, J, K, L)>(t.0, (t.1, t.2, t.3, t.4, t.5, t.6, t.7, t.8, t.9, t.10, t.11));
}

/// A tuple of 13 parsers sharing one error type runs them in order.
impl<Inp, Er, A, B, C, D, E, F, G, H, I, J, K, L, M> Parser<Inp> for (A, B, C, D, E, F, G, H, I, J, K, L, M) where
    A: Parser<Inp, Error = Er>,
    B: Parser<Inp, Error = Er>,
    C: Parser<Inp, Error = Er>,
    D: Parser<Inp, Error = Er>,
    E: Parser<Inp, Error = Er>,
    F: Parser<Inp, Error = Er>,
    G: Parser<Inp, Error = Er>,
    H: Parser<Inp, Error = Er>,
    I: Parser<Inp, Error = Er>,
    J: Parser<Inp, Error = Er>,
    K: Parser<Inp, Error = Er>,
    L: Parser<Inp, Error = Er>,
    M: Parser<Inp, Error = Er>,
 {
    type Out = (A::Out, B::Out, C::Out, D::Out, E::Out, F::Out, G::Out, H::Out, I::Out, J::Out, K::Out, L::Out, M::Out);

    type Error = Er;

    open spec fn parse_requires(&self, input: Inp) -> bool {
        seq_requires(self.0, (self.1, self.2, self.3, self.4, self.5, self.6, self.7, self.8, self.9, self.10, self.11, self.12), input)
    }

    open spec fn parse_ensures(&self, input: Inp, res: Result<((A::Out, B::Out, C::Out, D::Out, E::Out, F::Out, G::Out, H::Out, I::Out, J::Out, K::Out, L::Out, M::Out), Inp), Er>) -> bool {
        match res {
            Ok(((a, b, c, d, e, f, g, h, i, j, k, l, m), rest)) => seq_ok(self.0, (self.1, self.2, self.3, self.4, self.5, self.6, self.7, self.8, self.9, self.10, self.11, self.12), input, a, (b, c, d, e, f, g, h, i, j, k, l, m), rest),
            Err(e) => seq_err(self.0, (self.1, self.2, self.3, self.4, self.5, self.6, self.7, self.8, self.9, self.10, self.11, self.12), input, e),
        }
    }

    fn parse(&self, txt: Inp) -> (res: Result<((A::Out, B::Out, C::Out, D::Out, E::Out, F::Out, G::Out, H::Out, I::Out, J::Out, K::Out, L::Out, M::Out), Inp), Er>) {
        let ghost t0 = txt;
        let (a, t1) = match self.0.parse(txt) {
            Ok(r) => r,
            Err(e) => return Err(e),
        };
        assert(self.0.parse_ensures(t0, Ok((a, t1))));
        assert((self.1, self.2, self.3, self.4, self.5, self.6, self.7, self.8, self.9, self.10, self.11, self.12).parse_requires(t1));
        let (b, t2) = match self.1.parse(t1) {
            Ok(r) => r,
            Err(e) => {
                assert((self.1, self.2, self.3, self.4, self.5, self.6, self.7, self.8, self.9, self.10, self.11, self.12).parse_ensures(t1, Err(e)));
                return Err(e);
            },
        };
        assert(self.1.parse_ensures(t1, Ok((b, t2))));
        assert((self.2, self.3, self.4, self.5, self.6, self.7, self.8, self.9, self.10, self.11, self.12).parse_requires(t2));
        let (c, t3) = match self.2.parse(t2) {
            Ok(r) => r,
            Err(e) => {
                assert((self.2, self.3, self.4, self.5, self.6, self.7, self.8, self.9, self.10, self.11, self.12).parse_ensures(t2, Err(e)));
                assert((self.1, self.2, self.3, self.4, self.5, self.6, self.7, self.8, self.9, self.10, self.11, self.12).parse_ensures(t1, Err(e)));
                return Err(e);
            },
        };
        assert(self.2.parse_ensures(t2, Ok((c, t3))));
        assert((self.3, self.4, self.5, self.6, self.7, self.8, self.9, self.10, self.11, self.12).parse_requires(t3));
        let (d, t4) = match self.3.parse(t3) {
            Ok(r) => r,
            Err(e) => {
                assert((self.3, self.4, self.5, self.6, self.7, self.8, self.9, self.10, self.11, self.12).parse_ensures(t3, Err(e)));
                assert((self.2, self.3, self.4, self.5, self.6, self.7, self.8, self.9, self.10, self.11, self.12).parse_ensures(t2, Err(e)));
                assert((self.1, self.2, self.3, self.4, self.5, self.6, self.7, self.8, self.9, self.10, self.11, self.12).parse_ensures(t1, Err(e)));
                return Err(e);
            },
        };
        assert(self.3.parse_ensures(t3, Ok((d, t4))));
        assert((self.4, self.5, self.6, self.7, self.8, self.9, self.10, self.11, self.12).parse_requires(t4));
        let (e, t5) = match self.4.parse(t4) {
            Ok(r) => r,
            Err(e) => {
                assert((self.4, self.5, self.6, self.7, self.8, self.9, self.10, self.11, self.12).parse_ensures(t4, Err(e)));
                assert((self.3, self.4, self.5, self.6, self.7, self.8, self.9, self.10, self.11, self.12).parse_ensures(t3, Err(e)));
                assert((self.2, self.3, self.4, self.5, self.6, self.7, self.8, self.9, self.10, self.11, self.12).parse_ensures(t2, Err(e)));
                assert((self.1, self.2, self.3, self.4, self.5, self.6, self.7, self.8, self.9, self.10, self.11, self.12).parse_ensures(t1, Err(e)));
                return Err(e);
            },
        };
        assert(self.4.parse_ensures(t4, Ok((e, t5))));
        assert((self.5, self.6, self.7, self.8, self.9, self.10, self.11, self.12).parse_requires(t5));
        let (f, t6) = match self.5.parse(t5) {
            Ok(r) => r,
            Err(e) => {
                assert((self.5, self.6, self.7, self.8, self.9, self.10, self.11, self.12).parse_ensures(t5, Err(e)));
                assert((self.4, self.5, self.6, self.7, self.8, self.9, self.10, self.11, self.12).parse_ensures(t4, Err(e)));
                assert((self.3, self.4, self.5, self.6, self.7, self.8, self.9, self.10, self.11, self.12).parse_ensures(t3, Err(e)));
                assert((self.2, self.3, self.4, self.5, self.6, self.7, self.8, self.9, self.10, self.11, self.12).parse_ensures(t2, Err(e)));
                assert((self.1, self.2, self.3, self.4, self.5, self.6, self.7, self.8, self.9, self.10, self.11, self.12).parse_ensures(t1, Err(e)));
                return Err(e);
            },
        };
        assert(self.5.parse_ensures(t5, Ok((f, t6))));
        assert((self.6, self.7, self.8, self.9, self.10, self.11, self.12).parse_requires(t6));
        let (g, t7) = match self.6.parse(t6) {
            Ok(r) => r,
            Err(e) => {
                assert((self.6, self.7, self.8, self.9, self.10, self.11, self.12).parse_ensures(t6, Err(e)));
                assert((self.5, self.6, self.7, self.8, self.9, self.10, self.11, self.12).parse_ensures(t5, Err(e)));
                assert((self.4, self.5, self.6, self.7, self.8, self.9, self.10, self.11, self.12).parse_ensures(t4, Err(e)));
                assert((self.3, self.4, self.5, self.6, self.7, self.8, self.9, self.10, self.11, self.12).parse_ensures(t3, Err(e)));
                assert((self.2, self.3, self.4, self.5, self.6, self.7, self.8, self.9, self.10, self.11, self.12).parse_ensures(t2, Err(e)));
                assert((self.1, self.2, self.3, self.4, self.5, self.6, self.7, self.8, self.9, self.10, self.11, self.12).parse_ensures(t1, Err(e)));
                return Err(e);
            },
        };
        assert(self.6.parse_ensures(t6, Ok((g, t7))));
        assert((self.7, self.8, self.9, self.10, self.11, self.12).parse_requires(t7));
        let (h, t8) = match self.7.parse(t7) {
            Ok(r) => r,
            Err(e) => {
                assert((self.7, self.8, self.9, self.10, self.11, self.12).parse_ensures(t7, Err(e)));
                assert((self.6, self.7, self.8, self.9, self.10, self.11, self.12).parse_ensures(t6, Err(e)));
                assert((self.5, self.6, self.7, self.8, self.9, self.10, self.11, self.12).parse_ensures(t5, Err(e)));
                assert((self.4, self.5, self.6, self.7, self.8, self.9, self.10, self.11, self.12).parse_ensures(t4, Err(e)));
                assert((self.3, self.4, self.5, self.6, self.7, self.8, self.9, self.10, self.11, self.12).parse_ensures(t3, Err(e)));
                assert((self.2, self.3, self.4, self.5, self.6, self.7, self.8, self.9, self.10, self.11, self.12).parse_ensures(t2, Err(e)));
                assert((self.1, self.2, self.3, self.4, self.5, self.6, self.7, self.8, self.9, self.10, self.11, self.12).parse_ensures(t1, Err(e)));
                return Err(e);
            },
        };
        assert(self.7.parse_ensures(t7, Ok((h, t8))));
        assert((self.8, self.9, self.10, self.11, self.12).parse_requires(t8));
        let (i, t9) = match self.8.parse(t8) {
            Ok(r) => r,
            Err(e) => {
                assert((self.8, self.9, self.10, self.11, self.12).parse_ensures(t8, Err(e)));
                assert((self.7, self.8, self.9, self.10, self.11, self.12).parse_ensures(t7, Err(e)));
                assert((self.6, self.7, self.8, self.9, self.10, self.11, self.12).parse_ensures(t6, Err(e)));
                assert((self.5, self.6, self.7, self.8, self.9, self.10, self.11, self.12).parse_ensures(t5, Err(e)));
                assert((self.4, self.5, self.6, self.7, self.8, self.9, self.10, self.11, self.12).parse_ensures(t4, Err(e)));
                assert((self.3, self.4, self.5, self.6, self.7, self.8, self.9, self.10, self.11, self.12).parse_ensures(t3, Err(e)));
                assert((self.2, self.3, self.4, self.5, self.6, self.7, self.8, self.9, self.10, self.11, self.12).parse_ensures(t2, Err(e)));
                assert((self.1, self.2, self.3, self.4, self.5, self.6, self.7, self.8, self.9, self.10, self.11, self.12).parse_ensures(t1, Err(e)));
                return Err(e);
            },
        };
        assert(self.8.parse_ensures(t8, Ok((i, t9))));
        assert((self.9, self.10, self.11, self.12).parse_requires(t9));
        let (j, t10) = match self.9.parse(t9) {
            Ok(r) => r,
            Err(e) => {
                assert((self.9, self.10, self.11, self.12).parse_ensures(t9, Err(e)));
                assert((self.8, self.9, self.10, self.11, self.12).parse_ensures(t8, Err(e)));
                assert((self.7, self.8, self.9, self.10, self.11, self.12).parse_ensures(t7, Err(e)));
                assert((self.6, self.7, self.8, self.9, self.10, self.11, self.12).parse_ensures(t6, Err(e)));
                assert((self.5, self.6, self.7, self.8, self.9, self.10, self.11, self.12).parse_ensures(t5, Err(e)));
                assert((self.4, self.5, self.6, self.7, self.8, self.9, self.10, self.11, self.12).parse_ensures(t4, Err(e)));
                assert((self.3, self.4, self.5, self.6, self.7, self.8, self.9, self.10, self.11, self.12).parse_ensures(t3, Err(e)));
                assert((self.2, self.3, self.4, self.5, self.6, self.7, self.8, self.9, self.10, self.11, self.12).parse_ensures(t2, Err(e)));
                assert((self.1, self.2, self.3, self.4, self.5, self.6, self.7, self.8, self.9, self.10, self.11, self.12).parse_ensures(t1, Err(e)));
                return Err(e);
            },
        };
        assert(self.9.parse_ensures(t9, Ok((j, t10))));
        assert((self.10, self.11, self.12).parse_requires(t10));
        let (k, t11) = match self.10.parse(t10) {
            Ok(r) => r,
            Err(e) => {
                assert((self.10, self.11, self.12).parse_ensures(t10, Err(e)));
                assert((self.9, self.10, self.11, self.12).parse_ensures(t9, Err(e)));
                assert((self.8, self.9, self.10, self.11, self.12).parse_ensures(t8, Err(e)));
                assert((self.7, self.8, self.9, self.10, self.11, self.12).parse_ensures(t7, Err(e)));
                assert((self.6, self.7, self.8, self.9, self.10, self.11, self.12).parse_ensures(t6, Err(e)));
                assert((self.5, self.6, self.7, self.8, self.9, self.10, self.11, self.12).parse_ensures(t5, Err(e)));
                assert((self.4, self.5, self.6, self.7, self.8, self.9, self.10, self.11, self.12).parse_ensures(t4, Err(e)));
                assert((self.3, self.4, self.5, self.6, self.7, self.8, self.9, self.10, self.11, self.12).parse_ensures(t3, Err(e)));
                assert((self.2, self.3, self.4, self.5, self.6, self.7, self.8, self.9, self.10, self.11, self.12).parse_ensures(t2, Err(e)));
                assert((self.1, self.2, self.3, self.4, self.5, self.6, self.7, self.8, self.9, self.10, self.11, self.12).parse_ensures(t1, Err(e)));
                return Err(e);
            },
        };
        assert(self.10.parse_ensures(t10, Ok((k, t11))));
        assert((self.11, self.12).parse_requires(t11));
        let (l, t12) = match self.11.parse(t11) {
            Ok(r) => r,
            Err(e) => {
                assert((self.11, self.12).parse_ensures(t11, Err(e)));
                assert((self.10, self.11, self.12).parse_ensures(t10, Err(e)));
                assert((self.9, self.10, self.11, self.12).parse_ensures(t9, Err(e)));
                assert((self.8, self.9, self.10, self.11, self.12).parse_ensures(t8, Err(e)));
                assert((self.7, self.8, self.9, self.10, self.11, self.12).parse_ensures(t7, Err(e)));
                assert((self.6, self.7, self.8, self.9, self.10, self.11, self.12).parse_ensures(t6, Err(e)));
                assert((self.5, self.6, self.7, self.8, self.9, self.10, self.11, self.12).parse_ensures(t5, Err(e)));
                assert((self.4, self.5, self.6, self.7, self.8, self.9, self.10, self.11, self.12).parse_ensures(t4, Err(e)));
                assert((self.3, self.4, self.5, self.6, self.7, self.8, self.9, self.10, self.11, self.12).parse_ensures(t3, Err(e)));
                assert((self.2, self.3, self.4, self.5, self.6, self.7, self.8, self.9, self.10, self.11, self.12).parse_ensures(t2, Err(e)));
                assert((self.1, self.2, self.3, self.4, self.5, self.6, self.7, self.8, self.9, self.10, self.11, self.12).parse_ensures(t1, Err(e)));
                return Err(e);
            },
        };
        assert(self.11.parse_ensures(t11, Ok((l, t12))));
        let (m, t13) = match self.12.parse(t12) {
            Ok(r) => r,
            Err(e) => {
                assert((self.11, self.12).parse_ensures(t11, Err(e)));
                assert((self.10, self.11, self.12).parse_ensures(t10, Err(e)));
                assert((self.9, self.10, self.11, self.12).parse_ensures(t9, Err(e)));
                assert((self.8, self.9, self.10, self.11, self.12).parse_ensures(t8, Err(e)));
                assert((self.7, self.8, self.9, self.10, self.11, self.12).parse_ensures(t7, Err(e)));
                assert((self.6, self.7, self.8, self.9, self.10, self.11, self.12).parse_ensures(t6, Err(e)));
                assert((self.5, self.6, self.7, self.8, self.9, self.10, self.11, self.12).parse_ensures(t5, Err(e)));
                assert((self.4, self.5, self.6, self.7, self.8, self.9, self.10, self.11, self.12).parse_ensures(t4, Err(e)));
                assert((self.3, self.4, self.5, self.6, self.7, self.8, self.9, self.10, self.11, self.12).parse_ensures(t3, Err(e)));
                assert((self.2, self.3, self.4, self.5, self.6, self.7, self.8, self.9, self.10, self.11, self.12).parse_ensures(t2, Err(e)));
                assert((self.1, self.2, self.3, self.4, self.5, self.6, self.7, self.8, self.9, self.10, self.11, self.12).parse_ensures(t1, Err(e)));
                return Err(e);
            },
        };
        assert((self.11, self.12).parse_ensures(t11, Ok(((l, m), t13))));
        assert((self.10, self.11, self.12).parse_ensures(t10, Ok(((k, l, m), t13))));
        assert((self.9, self.10, self.11, self.12).parse_ensures(t9, Ok(((j, k, l, m), t13))));
        assert((self.8, self.9, self.10, self.11, self.12).parse_ensures(t8, Ok(((i, j, k, l, m), t13))));
        assert((self.7, self.8, self.9, self.10, self.11, self.12).parse_ensures(t7, Ok(((h, i, j, k, l, m), t13))));
        assert((self.6, self.7, self.8, self.9, self.10, self.11, self.12).parse_ensures(t6, Ok(((g, h, i, j, k, l, m), t13))));
        assert((self.5, self.6, self.7, self.8, self.9, self.10, self.11, self.12).parse_ensures(t5, Ok(((f, g, h, i, j, k, l, m), t13))));
        assert((self.4, self.5, self.6, self.7, self.8, self.9, self.10, self.11, self.12).parse_ensures(t4, Ok(((e, f, g, h, i, j, k, l, m), t13))));
        assert((self.3, self.4, self.5, self.6, self.7, self.8, self.9, self.10, self.11, self.12).parse_ensures(t3, Ok(((d, e, f, g, h, i, j, k, l, m), t13))));
        assert((self.2, self.3, self.4, self.5, self.6, self.7, self.8, self.9, self.10, self.11, self.12).parse_ensures(t2, Ok(((c, d, e, f, g, h, i, j, k, l, m), t13))));
        assert((self.1, self.2, self.3, self.4, self.5, self.6, self.7, self.8, self.9, self.10, self.11, self.12).parse_ensures(t1, Ok(((b, c, d, e, f, g, h, i, j, k, l, m), t13))));
        Ok(((a, b, c, d, e, f, g, h, i, j, k, l, m), t13))
    }
}

/// A tuple of 13 deterministic parsers is deterministic.
pub proof fn lemma_tuple13_deterministic<Inp, Er, A, B, C, D, E, F, G, H, I, J, K, L, M>(t: (A, B, C, D, E, F, G, H, I, J, K, L, M))
    where
        A: Parser<Inp, Error = Er>,
        B: Parser<Inp, Error = Er>,
        C: Parser<Inp, Error = Er>,
        D: Parser<Inp, Error = Er>,
        E: Parser<Inp, Error = Er>,
        F: Parser<Inp, Error = Er>,
        G: Parser<Inp, Error = Er>,
        H: Parser<Inp, Error = Er>,
        I: Parser<Inp, Error = Er>,
        J: Parser<Inp, Error = Er>,
        K: Parser<Inp, Error = Er>,
        L: Parser<Inp, Error = Er>,
        M: Parser<Inp, Error = Er>,
    requires
        deterministic::<Inp, A>(t.0),
        deterministic::<Inp, B>(t.1),
        deterministic::<Inp, C>(t.2),
        deterministic::<Inp, D>(t.3),
        deterministic::<Inp, E>(t.4),
        deterministic::<Inp, F>(t.5),
        deterministic::<Inp, G>(t.6),
        deterministic::<Inp, H>(t.7),
        deterministic::<Inp, I>(t.8),
        deterministic::<Inp, J>(t.9),
        deterministic::<Inp, K>(t.10),
        deterministic::<Inp, L>(t.11),
        deterministic::<Inp, M>(t.12),
    ensures
        deterministic::<Inp, (A, B, C, D, E, F, G, H, I, J, K, L, M)>(t),
{
    lemma_tuple12_deterministic::<Inp, Er, B, C, D, E, F, G, H, I, J, K, L, M>((t.1, t.2, t.3, t.4, t.5, t.6, t.7, t.8, t.9, t.10, t.11, t.12));
    lemma_seq_unique::<Inp, A, (B, C, D, E, F, G, H, I, J, K, L, M)>(t.0, (t.1, t.2, t.3, t.4, t.5, t.6, t.7, t.8, t.9, t.10, t.11, t.12));
}

/// A tuple of 14 parsers sharing one error type runs them in order.
impl<Inp, Er, A, B, C, D, E, F, G, H, I, J, K, L, M, N> Parser<Inp> for (A, B, C, D, E, F, G, H, I, J, K, L, M, N) where
    A: Parser<Inp, Error = Er>,
    B: Parser<Inp, Error = Er>,
    C: Parser<Inp, Error = Er>,
    D: Parser<Inp, Error = Er>,
    E: Parser<Inp, Error = Er>,
    F: Parser<Inp, Error = Er>,
    G: Parser<Inp, Error = Er>,
    H: Parser<Inp, Error = Er>,
    I: Parser<Inp, Error = Er>,
    J: Parser<Inp, Error = Er>,
    K: Parser<Inp, Error = Er>,
    L: Parser<Inp, Error = Er>,
    M: Parser<Inp, Error = Er>,
    N: Parser<Inp, Error = Er>,
 {
    type Out = (A::Out, B::Out, C::Out, D::Out, E::Out, F::Out, G::Out, H::Out, I::Out, J::Out, K::Out, L::Out, M::Out, N::Out);

    type Error = Er;

    open spec fn parse_requires(&self, input: Inp) -> bool {
        seq_requires(self.0, (self.1, self.2, self.3, self.4, self.5, self.6, self.7, self.8, self.9, self.10, self.11, self.12, self.13), input)
    }

    open spec fn parse_ensures(&self, input: Inp, res: Result<((A::Out, B::Out, C::Out, D::Out, E::Out, F::Out, G::Out, H::Out, I::Out, J::Out, K::Out, L::Out, M::Out, N::Out), Inp), Er>) -> bool {
        match res {
            Ok(((a, b, c, d, e, f, g, h, i, j, k, l, m, n), rest)) => seq_ok(self.0, (self.1, self.2, self.3, self.4, self.5, self.6, self.7, self.8, self.9, self.10, self.11, self.12, self.13), input, a, (b, c, d, e, f, g, h, i, j, k, l, m, n), rest),
            Err(e) => seq_err(self.0, (self.1, self.2, self.3, self.4, self.5, self.6, self.7, self.8, self.9, self.10, self.11, self.12, self.13), input, e),
        }
    }

    fn parse(&self, txt: Inp) -> (res: Result<((A::Out, B::Out, C::Out, D::Out, E::Out, F::Out, G::Out, H::Out, I::Out, J::Out, K::Out, L::Out, M::Out, N::Out), Inp), Er>) {
        let ghost t0 = txt;
        let (a, t1) = match self.0.parse(txt) {
            Ok(r) => r,
            Err(e) => return Err(e),
        };
        assert(self.0.parse_ensures(t0, Ok((a, t1))));
        assert((self.1, self.2, self.3, self.4, self.5, self.6, self.7, self.8, self.9, self.10, self.11, self.12, self.13).parse_requires(t1));
        let (b, t2) = match self.1.parse(t1) {
            Ok(r) => r,
            Err(e) => {
                assert((self.1, self.2, self.3, self.4, self.5, self.6, self.7, self.8, self.9, self.10, self.11, self.12, self.13).parse_ensures(t1, Err(e)));
                return Err(e);
            },
        };
        assert(self.1.parse_ensures(t1, Ok((b, t2))));
        assert((self.2, self.3, self.4, self.5, self.6, self.7, self.8, self.9, self.10, self.11, self.12, self.13).parse_requires(t2));
        let (c, t3) = match self.2.parse(t2) {
            Ok(r) => r,
            Err(e) => {
                assert((self.2, self.3, self.4, self.5, self.6, self.7, self.8, self.9, self.10, self.11, self.12, self.13).parse_ensures(t2, Err(e)));
                assert((self.1, self.2, self.3, self.4, self.5, self.6, self.7, self.8, self.9, self.10, self.11, self.12, self.13).parse_ensures(t1, Err(e)));
                return Err(e);
            },
        };
        assert(self.2.parse_ensures(t2, Ok((c, t3))));
        assert((self.3, self.4, self.5, self.6, self.7, self.8, self.9, self.10, self.11, self.12, self.13).parse_requires(t3));
        let (d, t4) = match self.3.parse(t3) {
            Ok(r) => r,
            Err(e) => {
                assert((self.3, self.4, self.5, self.6, self.7, self.8, self.9, self.10, self.11, self.12, self.13).parse_ensures(t3, Err(e)));
                assert((self.2, self.3, self.4, self.5, self.6, self.7, self.8, self.9, self.10, self.11, self.12, self.13).parse_ensures(t2, Err(e)));
                assert((self.1, self.2, self.3, self.4, self.5, self.6, self.7, self.8, self.9, self.10, self.11, self.12, self.13).parse_ensures(t1, Err(e)));
                return Err(e);
            },
        };
        assert(self.3.parse_ensures(t3, Ok((d, t4))));
        assert((self.4, self.5, self.6, self.7, self.8, self.9, self.10, self.11, self.12, self.13).parse_requires(t4));
        let (e, t5) = match self.4.parse(t4) {
            Ok(r) => r,
            Err(e) => {
                assert((self.4, self.5, self.6, self.7, self.8, self.9, self.10, self.11, self.12, self.13).parse_ensures(t4, Err(e)));
                assert((self.3, self.4, self.5, self.6, self.7, self.8, self.9, self.10, self.11, self.12, self.13).parse_ensures(t3, Err(e)));
                assert((self.2, self.3, self.4, self.5, self.6, self.7, self.8, self.9, self.10, self.11, self.12, self.13).parse_ensures(t2, Err(e)));
                assert((self.1, self.2, self.3, self.4, self.5, self.6, self.7, self.8, self.9, self.10, self.11, self.12, self.13).parse_ensures(t1, Err(e)));
                return Err(e);
            },
        };
        assert(self.4.parse_ensures(t4, Ok((e, t5))));
        assert((self.5, self.6, self.7, self.8, self.9, self.10, self.11, self.12, self.13).parse_requires(t5));
        let (f, t6) = match self.5.parse(t5) {
            Ok(r) => r,
            Err(e) => {
                assert((self.5, self.6, self.7, self.8, self.9, self.10, self.11, self.12, self.13).parse_ensures(t5, Err(e)));
                assert((self.4, self.5, self.6, self.7, self.8, self.9, self.10, self.11, self.12, self.13).parse_ensures(t4, Err(e)));
                assert((self.3, self.4, self.5, self.6, self.7, self.8, self.9, self.10, self.11, self.12, self.13).parse_ensures(t3, Err(e)));
                assert((self.2, self.3, self.4, self.5, self.6, self.7, self.8, self.9, self.10, self.11, self.12, self.13).parse_ensures(t2, Err(e)));
                assert((self.1, self.2, self.3, self.4, self.5, self.6, self.7, self.8, self.9, self.10, self.11, self.12, self.13).parse_ensures(t1, Err(e)));
                return Err(e);
            },
        };
        assert(self.5.parse_ensures(t5, Ok((f, t6))));
        assert((self.6, self.7, self.8, self.9, self.10, self.11, self.12, self.13).parse_requires(t6));
        let (g, t7) = match self.6.parse(t6) {
            Ok(r) => r,
            Err(e) => {
                assert((self.6, self.7, self.8, self.9, self.10, self.11, self.12, self.13).parse_ensures(t6, Err(e)));
                assert((self.5, self.6, self.7, self.8, self.9, self.10, self.11, self.12, self.13).parse_ensures(t5, Err(e)));
                assert((self.4, self.5, self.6, self.7, self.8, self.9, self.10, self.11, self.12, self.13).parse_ensures(t4, Err(e)));
                assert((self.3, self.4, self.5, self.6, self.7, self.8, self.9, self.10, self.11, self.12, self.13).parse_ensures(t3, Err(e)));
                assert((self.2, self.3, self.4, self.5, self.6, self.7, self.8, self.9, self.10, self.11, self.12, self.13).parse_ensures(t2, Err(e)));
                assert((self.1, self.2, self.3, self.4, self.5, self.6, self.7, self.8, self.9, self.10, self.11, self.12, self.13).parse_ensures(t1, Err(e)));
                return Err(e);
            },
        };
        assert(self.6.parse_ensures(t6, Ok((g, t7))));
        assert((self.7, self.8, self.9, self.10, self.11, self.12, self.13).parse_requires(t7));
        let (h, t8) = match self.7.parse(t7) {
            Ok(r) => r,
            Err(e) => {
                assert((self.7, self.8, self.9, self.10, self.11, self.12, self.13).parse_ensures(t7, Err(e)));
                assert((self.6, self.7, self.8, self.9, self.10, self.11, self.12, self.13).parse_ensures(t6, Err(e)));
                assert((self.5, self.6, self.7, self.8, self.9, self.10, self.11, self.12, self.13).parse_ensures(t5, Err(e)));
                assert((self.4, self.5, self.6, self.7, self.8, self.9, self.10, self.11, self.12, self.13).parse_ensures(t4, Err(e)));
                assert((self.3, self.4, self.5, self.6, self.7, self.8, self.9, self.10, self.11, self.12, self.13).parse_ensures(t3, Err(e)));
                assert((self.2, self.3, self.4, self.5, self.6, self.7, self.8, self.9, self.10, self.11, self.12, self.13).parse_ensures(t2, Err(e)));
                assert((self.1, self.2, self.3, self.4, self.5, self.6, self.7, self.8, self.9, self.10, self.11, self.12, self.13).parse_ensures(t1, Err(e)));
                return Err(e);
            },
        };
        assert(self.7.parse_ensures(t7, Ok((h, t8))));
        assert((self.8, self.9, self.10, self.11, self.12, self.13).parse_requires(t8));
        let (i, t9) = match self.8.parse(t8) {
            Ok(r) => r,
            Err(e) => {
                assert((self.8, self.9, self.10, self.11, self.12, self.13).parse_ensures(t8, Err(e)));
                assert((self.7, self.8, self.9, self.10, self.11, self.12, self.13).parse_ensures(t7, Err(e)));
                assert((self.6, self.7, self.8, self.9, self.10, self.11, self.12, self.13).parse_ensures(t6, Err(e)));
                assert((self.5, self.6, self.7, self.8, self.9, self.10, self.11, self.12, self.13).parse_ensures(t5, Err(e)));
                assert((self.4, self.5, self.6, self.7, self.8, self.9, self.10, self.11, self.12, self.13).parse_ensures(t4, Err(e)));
                assert((self.3, self.4, self.5, self.6, self.7, self.8, self.9, self.10, self.11, self.12, self.13).parse_ensures(t3, Err(e)));
                assert((self.2, self.3, self.4, self.5, self.6, self.7, self.8, self.9, self.10, self.11, self.12, self.13).parse_ensures(t2, Err(e)));
                assert((self.1, self.2, self.3, self.4, self.5, self.6, self.7, self.8, self.9, self.10, self.11, self.12, self.13).parse_ensures(t1, Err(e)));
                return Err(e);
            },
        };
        assert(self.8.parse_ensures(t8, Ok((i, t9))));
        assert((self.9, self.10, self.11, self.12, self.13).parse_requires(t9));
        let (j, t10) = match self.9.parse(t9) {
            Ok(r) => r,
            Err(e) => {
                assert((self.9, self.10, self.11, self.12, self.13).parse_ensures(t9, Err(e)));
                assert((self.8, self.9, self.10, self.11, self.12, self.13).parse_ensures(t8, Err(e)));
                assert((self.7, self.8, self.9, self.10, self.11, self.12, self.13).parse_ensures(t7, Err(e)));
                assert((self.6, self.7, self.8, self.9, self.10, self.11, self.12, self.13).parse_ensures(t6, Err(e)));
                assert((self.5, self.6, self.7, self.8, self.9, self.10, self.11, self.12, self.13).parse_ensures(t5, Err(e)));
                assert((self.4, self.5, self.6, self.7, self.8, self.9, self.10, self.11, self.12, self.13).parse_ensures(t4, Err(e)));
                assert((self.3, self.4, self.5, self.6, self.7, self.8, self.9, self.10, self.11, self.12, self.13).parse_ensures(t3, Err(e)));
                assert((self.2, self.3, self.4, self.5, self.6, self.7, self.8, self.9, self.10, self.11, self.12, self.13).parse_ensures(t2, Err(e)));
                assert((self.1, self.2, self.3, self.4, self.5, self.6, self.7, self.8, self.9, self.10, self.11, self.12, self.13).parse_ensures(t1, Err(e)));
                return Err(e);
            },
        };
        assert(self.9.parse_ensures(t9, Ok((j, t10))));
        assert((self.10, self.11, self.12, self.13).parse_requires(t10));
        let (k, t11) = match self.10.parse(t10) {
            Ok(r) => r,
            Err(e) => {
                assert((self.10, self.11, self.12, self.13).parse_ensures(t10, Err(e)));
                assert((self.9, self.10, self.11, self.12, self.13).parse_ensures(t9, Err(e)));
                assert((self.8, self.9, self.10, self.11, self.12, self.13).parse_ensures(t8, Err(e)));
                assert((self.7, self.8, self.9, self.10, self.11, self.12, self.13).parse_ensures(t7, Err(e)));
                assert((self.6, self.7, self.8, self.9, self.10, self.11, self.12, self.13).parse_ensures(t6, Err(e)));
                assert((self.5, self.6, self.7, self.8, self.9, self.10, self.11, self.12, self.13).parse_ensures(t5, Err(e)));
                assert((self.4, self.5, self.6, self.7, self.8, self.9, self.10, self.11, self.12, self.13).parse_ensures(t4, Err(e)));
                assert((self.3, self.4, self.5, self.6, self.7, self.8, self.9, self.10, self.11, self.12, self.13).parse_ensures(t3, Err(e)));
                assert((self.2, self.3, self.4, self.5, self.6, self.7, self.8, self.9, self.10, self.11, self.12, self.13).parse_ensures(t2, Err(e)));
                assert((self.1, self.2, self.3, self.4, self.5, self.6, self.7, self.8, self.9, self.10, self.11, self.12, self.13).parse_ensures(t1, Err(e)));
                return Err(e);
            },
        };
        assert(self.10.parse_ensures(t10, Ok((k, t11))));
        assert((self.11, self.12, self.13).parse_requires(t11));
        let (l, t12) = match self.11.parse(t11) {
            Ok(r) => r,
            Err(e) => {
                assert((self.11, self.12, self.13).parse_ensures(t11, Err(e)));
                assert((self.10, self.11, self.12, self.13).parse_ensures(t10, Err(e)));
                assert((self.9, self.10, self.11, self.12, self.13).parse_ensures(t9, Err(e)));
                assert((self.8, self.9, self.10, self.11, self.12, self.13).parse_ensures(t8, Err(e)));
                assert((self.7, self.8, self.9, self.10, self.11, self.12, self.13).parse_ensures(t7, Err(e)));
                assert((self.6, self.7, self.8, self.9, self.10, self.11, self.12, self.13).parse_ensures(t6, Err(e)));
                assert((self.5, self.6, self.7, self.8, self.9, self.10, self.11, self.12, self.13).parse_ensures(t5, Err(e)));
                assert((self.4, self.5, self.6, self.7, self.8, self.9, self.10, self.11, self.12, self.13).parse_ensures(t4, Err(e)));
                assert((self.3, self.4, self.5, self.6, self.7, self.8, self.9, self.10, self.11, self.12, self.13).parse_ensures(t3, Err(e)));
                assert((self.2, self.3, self.4, self.5, self.6, self.7, self.8, self.9, self.10, self.11, self.12, self.13).parse_ensures(t2, Err(e)));
                assert((self.1, self.2, self.3, self.4, self.5, self.6, self.7, self.8, self.9, self.10, self.11, self.12, self.13).parse_ensures(t1, Err(e)));
                return Err(e);
            },
        };
        assert(self.11.parse_ensures(t11, Ok((l, t12))));
        assert((self.12, self.13).parse_requires(t12));
        let (m, t13) = match self.12.parse(t12) {
            Ok(r) => r,
            Err(e) => {
                assert((self.12, self.13).parse_ensures(t12, Err(e)));
                assert((self.11, self.12, self.13).parse_ensures(t11, Err(e)));
                assert((self.10, self.11, self.12, self.13).parse_ensures(t10, Err(e)));
                assert((self.9, self.10, self.11, self.12, self.13).parse_ensures(t9, Err(e)));
                assert((self.8, self.9, self.10, self.11, self.12, self.13).parse_ensures(t8, Err(e)));
                assert((self.7, self.8, self.9, self.10, self.11, self.12, self.13).parse_ensures(t7, Err(e)));
                assert((self.6, self.7, self.8, self.9, self.10, self.11, self.12, self.13).parse_ensures(t6, Err(e)));
                assert((self.5, self.6, self.7, self.8, self.9, self.10, self.11, self.12, self.13).parse_ensures(t5, Err(e)));
                assert((self.4, self.5, self.6, self.7, self.8, self.9, self.10, self.11, self.12, self.13).parse_ensures(t4, Err(e)));
                assert((self.3, self.4, self.5, self.6, self.7, self.8, self.9, self.10, self.11, self.12, self.13).parse_ensures(t3, Err(e)));
                assert((self.2, self.3, self.4, self.5, self.6, self.7, self.8, self.9, self.10, self.11, self.12, self.13).parse_ensures(t2, Err(e)));
                assert((self.1, self.2, self.3, self.4, self.5, self.6, self.7, self.8, self.9, self.10, self.11, self.12, self.13).parse_ensures(t1, Err(e)));
                return Err(e);
            },
        };
        assert(self.12.parse_ensures(t12, Ok((m, t13))));
        let (n, t14) = match self.13.parse(t13) {
            Ok(r) => r,
            Err(e) => {
                assert((self.12, self.13).parse_ensures(t12, Err(e)));
                assert((self.11, self.12, self.13).parse_ensures(t11, Err(e)));
                assert((self.10, self.11, self.12, self.13).parse_ensures(t10, Err(e)));
                assert((self.9, self.10, self.11, self.12, self.13).parse_ensures(t9, Err(e)));
                assert((self.8, self.9, self.10, self.11, self.12, self.13).parse_ensures(t8, Err(e)));
                assert((self.7, self.8, self.9, self.10, self.11, self.12, self.13).parse_ensures(t7, Err(e)));
                assert((self.6, self.7, self.8, self.9, self.10, self.11, self.12, self.13).parse_ensures(t6, Err(e)));
                assert((self.5, self.6, self.7, self.8, self.9, self.10, self.11, self.12, self.13).parse_ensures(t5, Err(e)));
                assert((self.4, self.5, self.6, self.7, self.8, self.9, self.10, self.11, self.12, self.13).parse_ensures(t4, Err(e)));
                assert((self.3, self.4, self.5, self.6, self.7, self.8, self.9, self.10, self.11, self.12, self.13).parse_ensures(t3, Err(e)));
                assert((self.2, self.3, self.4, self.5, self.6, self.7, self.8, self.9, self.10, self.11, self.12, self.13).parse_ensures(t2, Err(e)));
                assert((self.1, self.2, self.3, self.4, self.5, self.6, self.7, self.8, self.9, self.10, self.11, self.12, self.13).parse_ensures(t1, Err(e)));
                return Err(e);
            },
        };
        assert((self.12, self.13).parse_ensures(t12, Ok(((m, n), t14))));
        assert((self.11, self.12, self.13).parse_ensures(t11, Ok(((l, m, n), t14))));
        assert((self.10, self.11, self.12, self.13).parse_ensures(t10, Ok(((k, l, m, n), t14))));
        assert((self.9, self.10, self.11, self.12, self.13).parse_ensures(t9, Ok(((j, k, l, m, n), t14))));
        assert((self.8, self.9, self.10, self.11, self.12, self.13).parse_ensures(t8, Ok(((i, j, k, l, m, n), t14))));
        assert((self.7, self.8, self.9, self.10, self.11, self.12, self.13).parse_ensures(t7, Ok(((h, i, j, k, l, m, n), t14))));
        assert((self.6, self.7, self.8, self.9, self.10, self.11, self.12, self.13).parse_ensures(t6, Ok(((g, h, i, j, k, l, m, n), t14))));
        assert((self.5, self.6, self.7, self.8, self.9, self.10, self.11, self.12, self.13).parse_ensures(t5, Ok(((f, g, h, i, j, k, l, m, n), t14))));
        assert((self.4, self.5, self.6, self.7, self.8, self.9, self.10, self.11, self.12, self.13).parse_ensures(t4, Ok(((e, f, g, h, i, j, k, l, m, n), t14))));
        assert((self.3, self.4, self.5, self.6, self.7, self.8, self.9, self.10, self.11, self.12, self.13).parse_ensures(t3, Ok(((d, e, f, g, h, i, j, k, l, m, n), t14))));
        assert((self.2, self.3, self.4, self.5, self.6, self.7, self.8, self.9, self.10, self.11, self.12, self.13).parse_ensures(t2, Ok(((c, d, e, f, g, h, i, j, k, l, m, n), t14))));
        assert((self.1, self.2, self.3, self.4, self.5, self.6, self.7, self.8, self.9, self.10, self.11, self.12, self.13).parse_ensures(t1, Ok(((b, c, d, e, f, g, h, i, j, k, l, m, n), t14))));
        Ok(((a, b, c, d, e, f, g, h, i, j, k, l, m, n), t14))
    }
}

/// A tuple of 14 deterministic parsers is deterministic.
pub proof fn lemma_tuple14_deterministic<Inp, Er, A, B, C, D, E, F, G, H, I, J, K, L, M, N>(t: (A, B, C, D, E, F, G, H, I, J, K, L, M, N))
    where
        A: Parser<Inp, Error = Er>,
        B: Parser<Inp, Error = Er>,
        C: Parser<Inp, Error = Er>,
        D: Parser<Inp, Error = Er>,
        E: Parser<Inp, Error = Er>,
        F: Parser<Inp, Error = Er>,
        G: Parser<Inp, Error = Er>,
        H: Parser<Inp, Error = Er>,
        I: Parser<Inp, Error = Er>,
        J: Parser<Inp, Error = Er>,
        K: Parser<Inp, Error = Er>,
        L: Parser<Inp, Error = Er>,
        M: Parser<Inp, Error = Er>,
        N: Parser<Inp, Error = Er>,
    requires
        deterministic::<Inp, A>(t.0),
        deterministic::<Inp, B>(t.1),
        deterministic::<Inp, C>(t.2),
        deterministic::<Inp, D>(t.3),
        deterministic::<Inp, E>(t.4),
        deterministic::<Inp, F>(t.5),
        deterministic::<Inp, G>(t.6),
        deterministic::<Inp, H>(t.7),
        deterministic::<Inp, I>(t.8),
        deterministic::<Inp, J>(t.9),
        deterministic::<Inp, K>(t.10),
        deterministic::<Inp, L>(t.11),
        deterministic::<Inp, M>(t.12),
        deterministic::<Inp, N>(t.13),
    ensures
        deterministic::<Inp, (A, B, C, D, E, F, G, H, I, J, K, L, M, N)>(t),
{
    lemma_tuple13_deterministic::<Inp, Er, B, C, D, E, F, G, H, I, J, K, L, M, N>((t.1, t.2, t.3, t.4, t.5, t.6, t.7, t.8, t.9, t.10, t.11, t.12, t.13));
    lemma_seq_unique::<Inp, A, (B, C, D, E, F, G, H, I, J, K, L, M, N)>(t.0, (t.1, t.2, t.3, t.4, t.5, t.6, t.7, t.8, t.9, t.10, t.11, t.12, t.13));
}

/// A tuple of 15 parsers sharing one error type runs them in order.
impl<Inp, Er, A, B, C, D, E, F, G, H, I, J, K, L, M, N, O> Parser<Inp> for (A, B, C, D, E, F, G, H, I, J, K, L, M, N, O) where
    A: Parser<Inp, Error = Er>,
    B: Parser<Inp, Error = Er>,
    C: Parser<Inp, Error = Er>,
    D: Parser<Inp, Error = Er>,
    E: Parser<Inp, Error = Er>,
    F: Parser<Inp, Error = Er>,
    G: Parser<Inp, Error = Er>,
    H: Parser<Inp, Error = Er>,
    I: Parser<Inp, Error = Er>,
    J: Parser<Inp, Error = Er>,
    K: Parser<Inp, Error = Er>,
    L: Parser<Inp, Error = Er>,
    M: Parser<Inp, Error = Er>,
    N: Parser<Inp, Error = Er>,
    O: Parser<Inp, Error = Er>,
 {
    type Out = (A::Out, B::Out, C::Out, D::Out, E::Out, F::Out, G::Out, H::Out, I::Out, J::Out, K::Out, L::Out, M::Out, N::Out, O::Out);

    type Error = Er;

    open spec fn parse_requires(&self, input: Inp) -> bool {
        seq_requires(self.0, (self.1, self.2, self.3, self.4, self.5, self.6, self.7, self.8, self.9, self.10, self.11, self.12, self.13, self.14), input)
    }

    open spec fn parse_ensures(&self, input: Inp, res: Result<((A::Out, B::Out, C::Out, D::Out, E::Out, F::Out, G::Out, H::Out, I::Out, J::Out, K::Out, L::Out, M::Out, N::Out, O::Out), Inp), Er>) -> bool {
        match res {
            Ok(((a, b, c, d, e, f, g, h, i, j, k, l, m, n, o), rest)) => seq_ok(self.0, (self.1, self.2, self.3, self.4, self.5, self.6, self.7, self.8, self.9, self.10, self.11, self.12, self.13, self.14), input, a, (b, c, d, e, f, g, h, i, j, k, l, m, n, o), rest),
            Err(e) => seq_err(self.0, (self.1, self.2, self.3, self.4, self.5, self.6, self.7, self.8, self.9, self.10, self.11, self.12, self.13, self.14), input, e),
        }
    }

    fn parse(&self, txt: Inp) -> (res: Result<((A::Out, B::Out, C::Out, D::Out, E::Out, F::Out, G::Out, H::Out, I::Out, J::Out, K::Out, L::Out, M::Out, N::Out, O::Out), Inp), Er>) {
        let ghost t0 = txt;
        let (a, t1) = match self.0.parse(txt) {
            Ok(r) => r,
            Err(e) => return Err(e),
        };
        assert(self.0.parse_ensures(t0, Ok((a, t1))));
        assert((self.1, self.2, self.3, self.4, self.5, self.6, self.7, self.8, self.9, self.10, self.11, self.12, self.13, self.14).parse_requires(t1));
        let (b, t2) = match self.1.parse(t1) {
            Ok(r) => r,
            Err(e) => {
                assert((self.1, self.2, self.3, self.4, self.5, self.6, self.7, self.8, self.9, self.10, self.11, self.12, self.13, self.14).parse_ensures(t1, Err(e)));
                return Err(e);
            },
        };
        assert(self.1.parse_ensures(t1, Ok((b, t2))));
        assert((self.2, self.3, self.4, self.5, self.6, self.7, self.8, self.9, self.10, self.11, self.12, self.13, self.14).parse_requires(t2));
        let (c, t3) = match self.2.parse(t2) {
            Ok(r) => r,
            Err(e) => {
                assert((self.2, self.3, self.4, self.5, self.6, self.7, self.8, self.9, self.10, self.11, self.12, self.13, self.14).parse_ensures(t2, Err(e)));
                assert((self.1, self.2, self.3, self.4, self.5, self.6, self.7, self.8, self.9, self.10, self.11, self.12, self.13, self.14).parse_ensures(t1, Err(e)));
                return Err(e);
            },
        };
        assert(self.2.parse_ensures(t2, Ok((c, t3))));
        assert((self.3, self.4, self.5, self.6, self.7, self.8, self.9, self.10, self.11, self.12, self.13, self.14).parse_requires(t3));
        let (d, t4) = match self.3.parse(t3) {
            Ok(r) => r,
            Err(e) => {
                assert((self.3, self.4, self.5, self.6, self.7, self.8, self.9, self.10, self.11, self.12, self.13, self.14).parse_ensures(t3, Err(e)));
                assert((self.2, self.3, self.4, self.5, self.6, self.7, self.8, self.9, self.10, self.11, self.12, self.13, self.14).parse_ensures(t2, Err(e)));
                assert((self.1, self.2, self.3, self.4, self.5, self.6, self.7, self.8, self.9, self.10, self.11, self.12, self.13, self.14).parse_ensures(t1, Err(e)));
                return Err(e);
            },
        };
        assert(self.3.parse_ensures(t3, Ok((d, t4))));
        assert((self.4, self.5, self.6, self.7, self.8, self.9, self.10, self.11, self.12, self.13, self.14).parse_requires(t4));
        let (e, t5) = match self.4.parse(t4) {
            Ok(r) => r,
            Err(e) => {
                assert((self.4, self.5, self.6, self.7, self.8, self.9, self.10, self.11, self.12, self.13, self.14).parse_ensures(t4, Err(e)));
                assert((self.3, self.4, self.5, self.6, self.7, self.8, self.9, self.10, self.11, self.12, self.13, self.14).parse_ensures(t3, Err(e)));
                assert((self.2, self.3, self.4, self.5, self.6, self.7, self.8, self.9, self.10, self.11, self.12, self.13, self.14).parse_ensures(t2, Err(e)));
                assert((self.1, self.2, self.3, self.4, self.5, self.6, self.7, self.8, self.9, self.10, self.11, self.12, self.13, self.14).parse_ensures(t1, Err(e)));
                return Err(e);
            },
        };
        assert(self.4.parse_ensures(t4, Ok((e, t5))));
        assert((self.5, self.6, self.7, self.8, self.9, self.10, self.11, self.12, self.13, self.14).parse_requires(t5));
        let (f, t6) = match self.5.parse(t5) {
            Ok(r) => r,
            Err(e) => {
                assert((self.5, self.6, self.7, self.8, self.9, self.10, self.11, self.12, self.13, self.14).parse_ensures(t5, Err(e)));
                assert((self.4, self.5, self.6, self.7, self.8, self.9, self.10, self.11, self.12, self.13, self.14).parse_ensures(t4, Err(e)));
                assert((self.3, self.4, self.5, self.6, self.7, self.8, self.9, self.10, self.11, self.12, self.13, self.14).parse_ensures(t3, Err(e)));
                assert((self.2, self.3, self.4, self.5, self.6, self.7, self.8, self.9, self.10, self.11, self.12, self.13, self.14).parse_ensures(t2, Err(e)));
                assert((self.1, self.2, self.3, self.4, self.5, self.6, self.7, self.8, self.9, self.10, self.11, self.12, self.13, self.14).parse_ensures(t1, Err(e)));
                return Err(e);
            },
        };
        assert(self.5.parse_ensures(t5, Ok((f, t6))));
        assert((self.6, self.7, self.8, self.9, self.10, self.11, self.12, self.13, self.14).parse_requires(t6));
        let (g, t7) = match self.6.parse(t6) {
            Ok(r) => r,
            Err(e) => {
                assert((self.6, self.7, self.8, self.9, self.10, self.11, self.12, self.13, self.14).parse_ensures(t6, Err(e)));
                assert((self.5, self.6, self.7, self.8, self.9, self.10, self.11, self.12, self.13, self.14).parse_ensures(t5, Err(e)));
                assert((self.4, self.5, self.6, self.7, self.8, self.9, self.10, self.11, self.12, self.13, self.14).parse_ensures(t4, Err(e)));
                assert((self.3, self.4, self.5, self.6, self.7, self.8, self.9, self.10, self.11, self.12, self.13, self.14).parse_ensures(t3, Err(e)));
                assert((self.2, self.3, self.4, self.5, self.6, self.7, self.8, self.9, self.10, self.11, self.12, self.13, self.14).parse_ensures(t2, Err(e)));
                assert((self.1, self.2, self.3, self.4, self.5, self.6, self.7, self.8, self.9, self.10, self.11, self.12, self.13, self.14).parse_ensures(t1, Err(e)));
                return Err(e);
            },
        };
        assert(self.6.parse_ensures(t6, Ok((g, t7))));
        assert((self.7, self.8, self.9, self.10, self.11, self.12, self.13, self.14).parse_requires(t7));
        let (h, t8) = match self.7.parse(t7) {
            Ok(r) => r,
            Err(e) => {
                assert((self.7, self.8, self.9, self.10, self.11, self.12, self.13, self.14).parse_ensures(t7, Err(e)));
                assert((self.6, self.7, self.8, self.9, self.10, self.11, self.12, self.13, self.14).parse_ensures(t6, Err(e)));
                assert((self.5, self.6, self.7, self.8, self.9, self.10, self.11, self.12, self.13, self.14).parse_ensures(t5, Err(e)));
                assert((self.4, self.5, self.6, self.7, self.8, self.9, self.10, self.11, self.12, self.13, self.14).parse_ensures(t4, Err(e)));
                assert((self.3, self.4, self.5, self.6, self.7, self.8, self.9, self.10, self.11, self.12, self.13, self.14).parse_ensures(t3, Err(e)));
                assert((self.2, self.3, self.4, self.5, self.6, self.7, self.8, self.9, self.10, self.11, self.12, self.13, self.14).parse_ensures(t2, Err(e)));
                assert((self.1, self.2, self.3, self.4, self.5, self.6, self.7, self.8, self.9, self.10, self.11, self.12, self.13, self.14).parse_ensures(t1, Err(e)));
                return Err(e);
            },
        };
        assert(self.7.parse_ensures(t7, Ok((h, t8))));
        assert((self.8, self.9, self.10, self.11, self.12, self.13, self.14).parse_requires(t8));
        let (i, t9) = match self.8.parse(t8) {
            Ok(r) => r,
            Err(e) => {
                assert((self.8, self.9, self.10, self.11, self.12, self.13, self.14).parse_ensures(t8, Err(e)));
                assert((self.7, self.8, self.9, self.10, self.11, self.12, self.13, self.14).parse_ensures(t7, Err(e)));
                assert((self.6, self.7, self.8, self.9, self.10, self.11, self.12, self.13, self.14).parse_ensures(t6, Err(e)));
                assert((self.5, self.6, self.7, self.8, self.9, self.10, self.11, self.12, self.13, self.14).parse_ensures(t5, Err(e)));
                assert((self.4, self.5, self.6, self.7, self.8, self.9, self.10, self.11, self.12, self.13, self.14).parse_ensures(t4, Err(e)));
                assert((self.3, self.4, self.5, self.6, self.7, self.8, self.9, self.10, self.11, self.12, self.13, self.14).parse_ensures(t3, Err(e)));
                assert((self.2, self.3, self.4, self.5, self.6, self.7, self.8, self.9, self.10, self.11, self.12, self.13, self.14).parse_ensures(t2, Err(e)));
                assert((self.1, self.2, self.3, self.4, self.5, self.6, self.7, self.8, self.9, self.10, self.11, self.12, self.13, self.14).parse_ensures(t1, Err(e)));
                return Err(e);
            },
        };
        assert(self.8.parse_ensures(t8, Ok((i, t9))));
        assert((self.9, self.10, self.11, self.12, self.13, self.14).parse_requires(t9));
        let (j, t10) = match self.9.parse(t9) {
            Ok(r) => r,
            Err(e) => {
                assert((self.9, self.10, self.11, self.12, self.13, self.14).parse_ensures(t9, Err(e)));
                assert((self.8, self.9, self.10, self.11, self.12, self.13, self.14).parse_ensures(t8, Err(e)));
                assert((self.7, self.8, self.9, self.10, self.11, self.12, self.13, self.14).parse_ensures(t7, Err(e)));
                assert((self.6, self.7, self.8, self.9, self.10, self.11, self.12, self.13, self.14).parse_ensures(t6, Err(e)));
                assert((self.5, self.6, self.7, self.8, self.9, self.10, self.11, self.12, self.13, self.14).parse_ensures(t5, Err(e)));
                assert((self.4, self.5, self.6, self.7, self.8, self.9, self.10, self.11, self.12, self.13, self.14).parse_ensures(t4, Err(e)));
                assert((self.3, self.4, self.5, self.6, self.7, self.8, self.9, self.10, self.11, self.12, self.13, self.14).parse_ensures(t3, Err(e)));
                assert((self.2, self.3, self.4, self.5, self.6, self.7, self.8, self.9, self.10, self.11, self.12, self.13, self.14).parse_ensures(t2, Err(e)));
                assert((self.1, self.2, self.3, self.4, self.5, self.6, self.7, self.8, self.9, self.10, self.11, self.12, self.13, self.14).parse_ensures(t1, Err(e)));
                return Err(e);
            },
        };
        assert(self.9.parse_ensures(t9, Ok((j, t10))));
        assert((self.10, self.11, self.12, self.13, self.14).parse_requires(t10));
        let (k, t11) = match self.10.parse(t10) {
            Ok(r) => r,
            Err(e) => {
                assert((self.10, self.11, self.12, self.13, self.14).parse_ensures(t10, Err(e)));
                assert((self.9, self.10, self.11, self.12, self.13, self.14).parse_ensures(t9, Err(e)));
                assert((self.8, self.9, self.10, self.11, self.12, self.13, self.14).parse_ensures(t8, Err(e)));
                assert((self.7, self.8, self.9, self.10, self.11, self.12, self.13, self.14).parse_ensures(t7, Err(e)));
                assert((self.6, self.7, self.8, self.9, self.10, self.11, self.12, self.13, self.14).parse_ensures(t6, Err(e)));
                assert((self.5, self.6, self.7, self.8, self.9, self.10, self.11, self.12, self.13, self.14).parse_ensures(t5, Err(e)));
                assert((self.4, self.5, self.6, self.7, self.8, self.9, self.10, self.11, self.12, self.13, self.14).parse_ensures(t4, Err(e)));
                assert((self.3, self.4, self.5, self.6, self.7, self.8, self.9, self.10, self.11, self.12, self.13, self.14).parse_ensures(t3, Err(e)));
                assert((self.2, self.3, self.4, self.5, self.6, self.7, self.8, self.9, self.10, self.11, self.12, self.13, self.14).parse_ensures(t2, Err(e)));
                assert((self.1, self.2, self.3, self.4, self.5, self.6, self.7, self.8, self.9, self.10, self.11, self.12, self.13, self.14).parse_ensures(t1, Err(e)));
                return Err(e);
            },
        };
        assert(self.10.parse_ensures(t10, Ok((k, t11))));
        assert((self.11, self.12, self.13, self.14).parse_requires(t11));
        let (l, t12) = match self.11.parse(t11) {
            Ok(r) => r,
            Err(e) => {
                assert((self.11, self.12, self.13, self.14).parse_ensures(t11, Err(e)));
                assert((self.10, self.11, self.12, self.13, self.14).parse_ensures(t10, Err(e)));
                assert((self.9, self.10, self.11, self.12, self.13, self.14).parse_ensures(t9, Err(e)));
                assert((self.8, self.9, self.10, self.11, self.12, self.13, self.14).parse_ensures(t8, Err(e)));
                assert((self.7, self.8, self.9, self.10, self.11, self.12, self.13, self.14).parse_ensures(t7, Err(e)));
                assert((self.6, self.7, self.8, self.9, self.10, self.11, self.12, self.13, self.14).parse_ensures(t6, Err(e)));
                assert((self.5, self.6, self.7, self.8, self.9, self.10, self.11, self.12, self.13, self.14).parse_ensures(t5, Err(e)));
                assert((self.4, self.5, self.6, self.7, self.8, self.9, self.10, self.11, self.12, self.13, self.14).parse_ensures(t4, Err(e)));
                assert((self.3, self.4, self.5, self.6, self.7, self.8, self.9, self.10, self.11, self.12, self.13, self.14).parse_ensures(t3, Err(e)));
                assert((self.2, self.3, self.4, self.5, self.6, self.7, self.8, self.9, self.10, self.11, self.12, self.13, self.14).parse_ensures(t2, Err(e)));
                assert((self.1, self.2, self.3, self.4, self.5, self.6, self.7, self.8, self.9, self.10, self.11, self.12, self.13, self.14).parse_ensures(t1, Err(e)));
                return Err(e);
            },
        };
        assert(self.11.parse_ensures(t11, Ok((l, t12))));
        assert((self.12, self.13, self.14).parse_requires(t12));
        let (m, t13) = match self.12.parse(t12) {
            Ok(r) => r,
            Err(e) => {
                assert((self.12, self.13, self.14).parse_ensures(t12, Err(e)));
                assert((self.11, self.12, self.13, self.14).parse_ensures(t11, Err(e)));
                assert((self.10, self.11, self.12, self.13, self.14).parse_ensures(t10, Err(e)));
                assert((self.9, self.10, self.11, self.12, self.13, self.14).parse_ensures(t9, Err(e)));
                assert((self.8, self.9, self.10, self.11, self.12, self.13, self.14).parse_ensures(t8, Err(e)));
                assert((self.7, self.8, self.9, self.10, self.11, self.12, self.13, self.14).parse_ensures(t7, Err(e)));
                assert((self.6, self.7, self.8, self.9, self.10, self.11, self.12, self.13, self.14).parse_ensures(t6, Err(e)));
                assert((self.5, self.6, self.7, self.8, self.9, self.10, self.11, self.12, self.13, self.14).parse_ensures(t5, Err(e)));
                assert((self.4, self.5, self.6, self.7, self.8, self.9, self.10, self.11, self.12, self.13, self.14).parse_ensures(t4, Err(e)));
                assert((self.3, self.4, self.5, self.6, self.7, self.8, self.9, self.10, self.11, self.12, self.13, self.14).parse_ensures(t3, Err(e)));
                assert((self.2, self.3, self.4, self.5, self.6, self.7, self.8, self.9, self.10, self.11, self.12, self.13, self.14).parse_ensures(t2, Err(e)));
                assert((self.1, self.2, self.3, self.4, self.5, self.6, self.7, self.8, self.9, self.10, self.11, self.12, self.13, self.14).parse_ensures(t1, Err(e)));
                return Err(e);
            },
        };
        assert(self.12.parse_ensures(t12, Ok((m, t13))));
        assert((self.13, self.14).parse_requires(t13));
        let (n, t14) = match self.13.parse(t13) {
            Ok(r) => r,
            Err(e) => {
                assert((self.13, self.14).parse_ensures(t13, Err(e)));
                assert((self.12, self.13, self.14).parse_ensures(t12, Err(e)));
                assert((self.11, self.12, self.13, self.14).parse_ensures(t11, Err(e)));
                assert((self.10, self.11, self.12, self.13, self.14).parse_ensures(t10, Err(e)));
                assert((self.9, self.10, self.11, self.12, self.13, self.14).parse_ensures(t9, Err(e)));
                assert((self.8, self.9, self.10, self.11, self.12, self.13, self.14).parse_ensures(t8, Err(e)));
                assert((self.7, self.8, self.9, self.10, self.11, self.12, self.13, self.14).parse_ensures(t7, Err(e)));
                assert((self.6, self.7, self.8, self.9, self.10, self.11, self.12, self.13, self.14).parse_ensures(t6, Err(e)));
                assert((self.5, self.6, self.7, self.8, self.9, self.10, self.11, self.12, self.13, self.14).parse_ensures(t5, Err(e)));
                assert((self.4, self.5, self.6, self.7, self.8, self.9, self.10, self.11, self.12, self.13, self.14).parse_ensures(t4, Err(e)));
                assert((self.3, self.4, self.5, self.6, self.7, self.8, self.9, self.10, self.11, self.12, self.13, self.14).parse_ensures(t3, Err(e)));
                assert((self.2, self.3, self.4, self.5, self.6, self.7, self.8, self.9, self.10, self.11, self.12, self.13, self.14).parse_ensures(t2, Err(e)));
                assert((self.1, self.2, self.3, self.4, self.5, self.6, self.7, self.8, self.9, self.10, self.11, self.12, self.13, self.14).parse_ensures(t1, Err(e)));
                return Err(e);
            },
        };
        assert(self.13.parse_ensures(t13, Ok((n, t14))));
        let (o, t15) = match self.14.parse(t14) {
            Ok(r) => r,
            Err(e) => {
                assert((self.13, self.14).parse_ensures(t13, Err(e)));
                assert((self.12, self.13, self.14).parse_ensures(t12, Err(e)));
                assert((self.11, self.12, self.13, self.14).parse_ensures(t11, Err(e)));
                assert((self.10, self.11, self.12, self.13, self.14).parse_ensures(t10, Err(e)));
                assert((self.9, self.10, self.11, self.12, self.13, self.14).parse_ensures(t9, Err(e)));
                assert((self.8, self.9, self.10, self.11, self.12, self.13, self.14).parse_ensures(t8, Err(e)));
                assert((self.7, self.8, self.9, self.10, self.11, self.12, self.13, self.14).parse_ensures(t7, Err(e)));
                assert((self.6, self.7, self.8, self.9, self.10, self.11, self.12, self.13, self.14).parse_ensures(t6, Err(e)));
                assert((self.5, self.6, self.7, self.8, self.9, self.10, self.11, self.12, self.13, self.14).parse_ensures(t5, Err(e)));
                assert((self.4, self.5, self.6, self.7, self.8, self.9, self.10, self.11, self.12, self.13, self.14).parse_ensures(t4, Err(e)));
                assert((self.3, self.4, self.5, self.6, self.7, self.8, self.9, self.10, self.11, self.12, self.13, self.14).parse_ensures(t3, Err(e)));
                assert((self.2, self.3, self.4, self.5, self.6, self.7, self.8, self.9, self.10, self.11, self.12, self.13, self.14).parse_ensures(t2, Err(e)));
                assert((self.1, self.2, self.3, self.4, self.5, self.6, self.7, self.8, self.9, self.10, self.11, self.12, self.13, self.14).parse_ensures(t1, Err(e)));
                return Err(e);
            },
        };
        assert((self.13, self.14).parse_ensures(t13, Ok(((n, o), t15))));
        assert((self.12, self.13, self.14).parse_ensures(t12, Ok(((m, n, o), t15))));
        assert((self.11, self.12, self.13, self.14).parse_ensures(t11, Ok(((l, m, n, o), t15))));
        assert((self.10, self.11, self.12, self.13, self.14).parse_ensures(t10, Ok(((k, l, m, n, o), t15))));
        assert((self.9, self.10, self.11, self.12, self.13, self.14).parse_ensures(t9, Ok(((j, k, l, m, n, o), t15))));
        assert((self.8, self.9, self.10, self.11, self.12, self.13, self.14).parse_ensures(t8, Ok(((i, j, k, l, m, n, o), t15))));
        assert((self.7, self.8, self.9, self.10, self.11, self.12, self.13, self.14).parse_ensures(t7, Ok(((h, i, j, k, l, m, n, o), t15))));
        assert((self.6, self.7, self.8, self.9, self.10, self.11, self.12, self.13, self.14).parse_ensures(t6, Ok(((g, h, i, j, k, l, m, n, o), t15))));
        assert((self.5, self.6, self.7, self.8, self.9, self.10, self.11, self.12, self.13, self.14).parse_ensures(t5, Ok(((f, g, h, i, j, k, l, m, n, o), t15))));
        assert((self.4, self.5, self.6, self.7, self.8, self.9, self.10, self.11, self.12, self.13, self.14).parse_ensures(t4, Ok(((e, f, g, h, i, j, k, l, m, n, o), t15))));
        assert((self.3, self.4, self.5, self.6, self.7, self.8, self.9, self.10, self.11, self.12, self.13, self.14).parse_ensures(t3, Ok(((d, e, f, g, h, i, j, k, l, m, n, o), t15))));
        assert((self.2, self.3, self.4, self.5, self.6, self.7, self.8, self.9, self.10, self.11, self.12, self.13, self.14).parse_ensures(t2, Ok(((c, d, e, f, g, h, i, j, k, l, m, n, o), t15))));
        assert((self.1, self.2, self.3, self.4, self.5, self.6, self.7, self.8, self.9, self.10, self.11, self.12, self.13, self.14).parse_ensures(t1, Ok(((b, c, d, e, f, g, h, i, j, k, l, m, n, o), t15))));
        Ok(((a, b, c, d, e, f, g, h, i, j, k, l, m, n, o), t15))
    }
}

/// A tuple of 15 deterministic parsers is deterministic.
pub proof fn lemma_tuple15_deterministic<Inp, Er, A, B, C, D, E, F, G, H, I, J, K, L, M, N, O>(t: (A, B, C, D, E, F, G, H, I, J, K, L, M, N, O))
    where
        A: Parser<Inp, Error = Er>,
        B: Parser<Inp, Error = Er>,
        C: Parser<Inp, Error = Er>,
        D: Parser<Inp, Error = Er>,
        E: Parser<Inp, Error = Er>,
        F: Parser<Inp, Error = Er>,
        G: Parser<Inp, Error = Er>,
        H: Parser<Inp, Error = Er>,
        I: Parser<Inp, Error = Er>,
        J: Parser<Inp, Error = Er>,
        K: Parser<Inp, Error = Er>,
        L: Parser<Inp, Error = Er>,
        M: Parser<Inp, Error = Er>,
        N: Parser<Inp, Error = Er>,
        O: Parser<Inp, Error = Er>,
    requires
        deterministic::<Inp, A>(t.0),
        deterministic::<Inp, B>(t.1),
        deterministic::<Inp, C>(t.2),
        deterministic::<Inp, D>(t.3),
        deterministic::<Inp, E>(t.4),
        deterministic::<Inp, F>(t.5),
        deterministic::<Inp, G>(t.6),
        deterministic::<Inp, H>(t.7),
        deterministic::<Inp, I>(t.8),
        deterministic::<Inp, J>(t.9),
        deterministic::<Inp, K>(t.10),
        deterministic::<Inp, L>(t.11),
        deterministic::<Inp, M>(t.12),
        deterministic::<Inp, N>(t.13),
        deterministic::<Inp, O>(t.14),
    ensures
        deterministic::<Inp, (A, B, C, D, E, F, G, H, I, J, K, L, M, N, O)>(t),
{
    lemma_tuple14_deterministic::<Inp, Er, B, C, D, E, F, G, H, I, J, K, L, M, N, O>((t.1, t.2, t.3, t.4, t.5, t.6, t.7, t.8, t.9, t.10, t.11, t.12, t.13, t.14));
    lemma_seq_unique::<Inp, A, (B, C, D, E, F, G, H, I, J, K, L, M, N, O)>(t.0, (t.1, t.2, t.3, t.4, t.5, t.6, t.7, t.8, t.9, t.10, t.11, t.12, t.13, t.14));
}

/// A tuple of 16 parsers sharing one error type runs them in order.
impl<Inp, Er, A, B, C, D, E, F, G, H, I, J, K, L, M, N, O, P> Parser<Inp> for (A, B, C, D, E, F, G, H, I, J, K, L, M, N, O, P) where
    A: Parser<Inp, Error = Er>,
    B: Parser<Inp, Error = Er>,
    C: Parser<Inp, Error = Er>,
    D: Parser<Inp, Error = Er>,
    E: Parser<Inp, Error = Er>,
    F: Parser<Inp, Error = Er>,
    G: Parser<Inp, Error = Er>,
    H: Parser<Inp, Error = Er>,
    I: Parser<Inp, Error = Er>,
    J: Parser<Inp, Error = Er>,
    K: Parser<Inp, Error = Er>,
    L: Parser<Inp, Error = Er>,
    M: Parser<Inp, Error = Er>,
    N: Parser<Inp, Error = Er>,
    O: Parser<Inp, Error = Er>,
    P: Parser<Inp, Error = Er>,
 {
    type Out = (A::Out, B::Out, C::Out, D::Out, E::Out, F::Out, G::Out, H::Out, I::Out, J::Out, K::Out, L::Out, M::Out, N::Out, O::Out, P::Out);

    type Error = Er;

    open spec fn parse_requires(&self, input: Inp) -> bool {
        seq_requires(self.0, (self.1, self.2, self.3, self.4, self.5, self.6, self.7, self.8, self.9, self.10, self.11, self.12, self.13, self.14, self.15), input)
    }

    open spec fn parse_ensures(&self, input: Inp, res: Result<((A::Out, B::Out, C::Out, D::Out, E::Out, F::Out, G::Out, H::Out, I::Out, J::Out, K::Out, L::Out, M::Out, N::Out, O::Out, P::Out), Inp), Er>) -> bool {
        match res {
            Ok(((a, b, c, d, e, f, g, h, i, j, k, l, m, n, o, p), rest)) => seq_ok(self.0, (self.1, self.2, self.3, self.4, self.5, self.6, self.7, self.8, self.9, self.10, self.11, self.12, self.13, self.14, self.15), input, a, (b, c, d, e, f, g, h, i, j, k, l, m, n, o, p), rest),
            Err(e) => seq_err(self.0, (self.1, self.2, self.3, self.4, self.5, self.6, self.7, self.8, self.9, self.10, self.11, self.12, self.13, self.14, self.15), input, e),
        }
    }

    fn parse(&self, txt: Inp) -> (res: Result<((A::Out, B::Out, C::Out, D::Out, E::Out, F::Out, G::Out, H::Out, I::Out, J::Out, K::Out, L::Out, M::Out, N::Out, O::Out, P::Out), Inp), Er>) {
        let ghost t0 = txt;
        let (a, t1) = match self.0.parse(txt) {
            Ok(r) => r,
            Err(e) => return Err(e),
        };
        assert(self.0.parse_ensures(t0, Ok((a, t1))));
        assert((self.1, self.2, self.3, self.4, self.5, self.6, self.7, self.8, self.9, self.10, self.11, self.12, self.13, self.14, self.15).parse_requires(t1));
        let (b, t2) = match self.1.parse(t1) {
            Ok(r) => r,
            Err(e) => {
                assert((self.1, self.2, self.3, self.4, self.5, self.6, self.7, self.8, self.9, self.10, self.11, self.12, self.13, self.14, self.15).parse_ensures(t1, Err(e)));
                return Err(e);
            },
        };
        assert(self.1.parse_ensures(t1, Ok((b, t2))));
        assert((self.2, self.3, self.4, self.5, self.6, self.7, self.8, self.9, self.10, self.11, self.12, self.13, self.14, self.15).parse_requires(t2));
        let (c, t3) = match self.2.parse(t2) {
            Ok(r) => r,
            Err(e) => {
                assert((self.2, self.3, self.4, self.5, self.6, self.7, self.8, self.9, self.10, self.11, self.12, self.13, self.14, self.15).parse_ensures(t2, Err(e)));
                assert((self.1, self.2, self.3, self.4, self.5, self.6, self.7, self.8, self.9, self.10, self.11, self.12, self.13, self.14, self.15).parse_ensures(t1, Err(e)));
                return Err(e);
            },
        };
        assert(self.2.parse_ensures(t2, Ok((c, t3))));
        assert((self.3, self.4, self.5, self.6, self.7, self.8, self.9, self.10, self.11, self.12, self.13, self.14, self.15).parse_requires(t3));
        let (d, t4) = match self.3.parse(t3) {
            Ok(r) => r,
            Err(e) => {
                assert((self.3, self.4, self.5, self.6, self.7, self.8, self.9, self.10, self.11, self.12, self.13, self.14, self.15).parse_ensures(t3, Err(e)));
                assert((self.2, self.3, self.4, self.5, self.6, self.7, self.8, self.9, self.10, self.11, self.12, self.13, self.14, self.15).parse_ensures(t2, Err(e)));
                assert((self.1, self.2, self.3, self.4, self.5, self.6, self.7, self.8, self.9, self.10, self.11, self.12, self.13, self.14, self.15).parse_ensures(t1, Err(e)));
                return Err(e);
            },
        };
        assert(self.3.parse_ensures(t3, Ok((d, t4))));
        assert((self.4, self.5, self.6, self.7, self.8, self.9, self.10, self.11, self.12, self.13, self.14, self.15).parse_requires(t4));
        let (e, t5) = match self.4.parse(t4) {
            Ok(r) => r,
            Err(e) => {
                assert((self.4, self.5, self.6, self.7, self.8, self.9, self.10, self.11, self.12, self.13, self.14, self.15).parse_ensures(t4, Err(e)));
                assert((self.3, self.4, self.5, self.6, self.7, self.8, self.9, self.10, self.11, self.12, self.13, self.14, self.15).parse_ensures(t3, Err(e)));
                assert((self.2, self.3, self.4, self.5, self.6, self.7, self.8, self.9, self.10, self.11, self.12, self.13, self.14, self.15).parse_ensures(t2, Err(e)));
                assert((self.1, self.2, self.3, self.4, self.5, self.6, self.7, self.8, self.9, self.10, self.11, self.12, self.13, self.14, self.15).parse_ensures(t1, Err(e)));
                return Err(e);
            },
        };
        assert(self.4.parse_ensures(t4, Ok((e, t5))));
        assert((self.5, self.6, self.7, self.8, self.9, self.10, self.11, self.12, self.13, self.14, self.15).parse_requires(t5));
        let (f, t6) = match self.5.parse(t5) {
            Ok(r) => r,
            Err(e) => {
                assert((self.5, self.6, self.7, self.8, self.9, self.10, self.11, self.12, self.13, self.14, self.15).parse_ensures(t5, Err(e)));
                assert((self.4, self.5, self.6, self.7, self.8, self.9, self.10, self.11, self.12, self.13, self.14, self.15).parse_ensures(t4, Err(e)));
                assert((self.3, self.4, self.5, self.6, self.7, self.8, self.9, self.10, self.11, self.12, self.13, self.14, self.15).parse_ensures(t3, Err(e)));
                assert((self.2, self.3, self.4, self.5, self.6, self.7, self.8, self.9, self.10, self.11, self.12, self.13, self.14, self.15).parse_ensures(t2, Err(e)));
                assert((self.1, self.2, self.3, self.4, self.5, self.6, self.7, self.8, self.9, self.10, self.11, self.12, self.13, self.14, self.15).parse_ensures(t1, Err(e)));
                return Err(e);
            },
        };
        assert(self.5.parse_ensures(t5, Ok((f, t6))));
        assert((self.6, self.7, self.8, self.9, self.10, self.11, self.12, self.13, self.14, self.15).parse_requires(t6));
        let (g, t7) = match self.6.parse(t6) {
            Ok(r) => r,
            Err(e) => {
                assert((self.6, self.7, self.8, self.9, self.10, self.11, self.12, self.13, self.14, self.15).parse_ensures(t6, Err(e)));
                assert((self.5, self.6, self.7, self.8, self.9, self.10, self.11, self.12, self.13, self.14, self.15).parse_ensures(t5, Err(e)));
                assert((self.4, self.5, self.6, self.7, self.8, self.9, self.10, self.11, self.12, self.13, self.14, self.15).parse_ensures(t4, Err(e)));
                assert((self.3, self.4, self.5, self.6, self.7, self.8, self.9, self.10, self.11, self.12, self.13, self.14, self.15).parse_ensures(t3, Err(e)));
                assert((self.2, self.3, self.4, self.5, self.6, self.7, self.8, self.9, self.10, self.11, self.12, self.13, self.14, self.15).parse_ensures(t2, Err(e)));
                assert((self.1, self.2, self.3, self.4, self.5, self.6, self.7, self.8, self.9, self.10, self.11, self.12, self.13, self.14, self.15).parse_ensures(t1, Err(e)));
                return Err(e);
            },
        };
        assert(self.6.parse_ensures(t6, Ok((g, t7))));
        assert((self.7, self.8, self.9, self.10, self.11, self.12, self.13, self.14, self.15).parse_requires(t7));
        let (h, t8) = match self.7.parse(t7) {
            Ok(r) => r,
            Err(e) => {
                assert((self.7, self.8, self.9, self.10, self.11, self.12, self.13, self.14, self.15).parse_ensures(t7, Err(e)));
                assert((self.6, self.7, self.8, self.9, self.10, self.11, self.12, self.13, self.14, self.15).parse_ensures(t6, Err(e)));
                assert((self.5, self.6, self.7, self.8, self.9, self.10, self.11, self.12, self.13, self.14, self.15).parse_ensures(t5, Err(e)));
                assert((self.4, self.5, self.6, self.7, self.8, self.9, self.10, self.11, self.12, self.13, self.14, self.15).parse_ensures(t4, Err(e)));
                assert((self.3, self.4, self.5, self.6, self.7, self.8, self.9, self.10, self.11, self.12, self.13, self.14, self.15).parse_ensures(t3, Err(e)));
                assert((self.2, self.3, self.4, self.5, self.6, self.7, self.8, self.9, self.10, self.11, self.12, self.13, self.14, self.15).parse_ensures(t2, Err(e)));
                assert((self.1, self.2, self.3, self.4, self.5, self.6, self.7, self.8, self.9, self.10, self.11, self.12, self.13, self.14, self.15).parse_ensures(t1, Err(e)));
                return Err(e);
            },
        };
        assert(self.7.parse_ensures(t7, Ok((h, t8))));
        assert((self.8, self.9, self.10, self.11, self.12, self.13, self.14, self.15).parse_requires(t8));
        let (i, t9) = match self.8.parse(t8) {
            Ok(r) => r,
            Err(e) => {
                assert((self.8, self.9, self.10, self.11, self.12, self.13, self.14, self.15).parse_ensures(t8, Err(e)));
                assert((self.7, self.8, self.9, self.10, self.11, self.12, self.13, self.14, self.15).parse_ensures(t7, Err(e)));
                assert((self.6, self.7, self.8, self.9, self.10, self.11, self.12, self.13, self.14, self.15).parse_ensures(t6, Err(e)));
                assert((self.5, self.6, self.7, self.8, self.9, self.10, self.11, self.12, self.13, self.14, self.15).parse_ensures(t5, Err(e)));
                assert((self.4, self.5, self.6, self.7, self.8, self.9, self.10, self.11, self.12, self.13, self.14, self.15).parse_ensures(t4, Err(e)));
                assert((self.3, self.4, self.5, self.6, self.7, self.8, self.9, self.10, self.11, self.12, self.13, self.14, self.15).parse_ensures(t3, Err(e)));
                assert((self.2, self.3, self.4, self.5, self.6, self.7, self.8, self.9, self.10, self.11, self.12, self.13, self.14, self.15).parse_ensures(t2, Err(e)));
                assert((self.1, self.2, self.3, self.4, self.5, self.6, self.7, self.8, self.9, self.10, self.11, self.12, self.13, self.14, self.15).parse_ensures(t1, Err(e)));
                return Err(e);
            },
        };
        assert(self.8.parse_ensures(t8, Ok((i, t9))));
        assert((self.9, self.10, self.11, self.12, self.13, self.14, self.15).parse_requires(t9));
        let (j, t10) = match self.9.parse(t9) {
            Ok(r) => r,
            Err(e) => {
                assert((self.9, self.10, self.11, self.12, self.13, self.14, self.15).parse_ensures(t9, Err(e)));
                assert((self.8, self.9, self.10, self.11, self.12, self.13, self.14, self.15).parse_ensures(t8, Err(e)));
                assert((self.7, self.8, self.9, self.10, self.11, self.12, self.13, self.14, self.15).parse_ensures(t7, Err(e)));
                assert((self.6, self.7, self.8, self.9, self.10, self.11, self.12, self.13, self.14, self.15).parse_ensures(t6, Err(e)));
                assert((self.5, self.6, self.7, self.8, self.9, self.10, self.11, self.12, self.13, self.14, self.15).parse_ensures(t5, Err(e)));
                assert((self.4, self.5, self.6, self.7, self.8, self.9, self.10, self.11, self.12, self.13, self.14, self.15).parse_ensures(t4, Err(e)));
                assert((self.3, self.4, self.5, self.6, self.7, self.8, self.9, self.10, self.11, self.12, self.13, self.14, self.15).parse_ensures(t3, Err(e)));
                assert((self.2, self.3, self.4, self.5, self.6, self.7, self.8, self.9, self.10, self.11, self.12, self.13, self.14, self.15).parse_ensures(t2, Err(e)));
                assert((self.1, self.2, self.3, self.4, self.5, self.6, self.7, self.8, self.9, self.10, self.11, self.12, self.13, self.14, self.15).parse_ensures(t1, Err(e)));
                return Err(e);
            },
        };
        assert(self.9.parse_ensures(t9, Ok((j, t10))));
        assert((self.10, self.11, self.12, self.13, self.14, self.15).parse_requires(t10));
        let (k, t11) = match self.10.parse(t10) {
            Ok(r) => r,
            Err(e) => {
                assert((self.10, self.11, self.12, self.13, self.14, self.15).parse_ensures(t10, Err(e)));
                assert((self.9, self.10, self.11, self.12, self.13, self.14, self.15).parse_ensures(t9, Err(e)));
                assert((self.8, self.9, self.10, self.11, self.12, self.13, self.14, self.15).parse_ensures(t8, Err(e)));
                assert((self.7, self.8, self.9, self.10, self.11, self.12, self.13, self.14, self.15).parse_ensures(t7, Err(e)));
                assert((self.6, self.7, self.8, self.9, self.10, self.11, self.12, self.13, self.14, self.15).parse_ensures(t6, Err(e)));
                assert((self.5, self.6, self.7, self.8, self.9, self.10, self.11, self.12, self.13, self.14, self.15).parse_ensures(t5, Err(e)));
                assert((self.4, self.5, self.6, self.7, self.8, self.9, self.10, self.11, self.12, self.13, self.14, self.15).parse_ensures(t4, Err(e)));
                assert((self.3, self.4, self.5, self.6, self.7, self.8, self.9, self.10, self.11, self.12, self.13, self.14, self.15).parse_ensures(t3, Err(e)));
                assert((self.2, self.3, self.4, self.5, self.6, self.7, self.8, self.9, self.10, self.11, self.12, self.13, self.14, self.15).parse_ensures(t2, Err(e)));
                assert((self.1, self.2, self.3, self.4, self.5, self.6, self.7, self.8, self.9, self.10, self.11, self.12, self.13, self.14, self.15).parse_ensures(t1, Err(e)));
                return Err(e);
            },
        };
        assert(self.10.parse_ensures(t10, Ok((k, t11))));
        assert((self.11, self.12, self.13, self.14, self.15).parse_requires(t11));
        let (l, t12) = match self.11.parse(t11) {
            Ok(r) => r,
            Err(e) => {
                assert((self.11, self.12, self.13, self.14, self.15).parse_ensures(t11, Err(e)));
                assert((self.10, self.11, self.12, self.13, self.14, self.15).parse_ensures(t10, Err(e)));
                assert((self.9, self.10, self.11, self.12, self.13, self.14, self.15).parse_ensures(t9, Err(e)));
                assert((self.8, self.9, self.10, self.11, self.12, self.13, self.14, self.15).parse_ensures(t8, Err(e)));
                assert((self.7, self.8, self.9, self.10, self.11, self.12, self.13, self.14, self.15).parse_ensures(t7, Err(e)));
                assert((self.6, self.7, self.8, self.9, self.10, self.11, self.12, self.13, self.14, self.15).parse_ensures(t6, Err(e)));
                assert((self.5, self.6, self.7, self.8, self.9, self.10, self.11, self.12, self.13, self.14, self.15).parse_ensures(t5, Err(e)));
                assert((self.4, self.5, self.6, self.7, self.8, self.9, self.10, self.11, self.12, self.13, self.14, self.15).parse_ensures(t4, Err(e)));
                assert((self.3, self.4, self.5, self.6, self.7, self.8, self.9, self.10, self.11, self.12, self.13, self.14, self.15).parse_ensures(t3, Err(e)));
                assert((self.2, self.3, self.4, self.5, self.6, self.7, self.8, self.9, self.10, self.11, self.12, self.13, self.14, self.15).parse_ensures(t2, Err(e)));
                assert((self.1, self.2, self.3, self.4, self.5, self.6, self.7, self.8, self.9, self.10, self.11, self.12, self.13, self.14, self.15).parse_ensures(t1, Err(e)));
                return Err(e);
            },
        };
        assert(self.11.parse_ensures(t11, Ok((l, t12))));
        assert((self.12, self.13, self.14, self.15).parse_requires(t12));
        let (m, t13) = match self.12.parse(t12) {
            Ok(r) => r,
            Err(e) => {
                assert((self.12, self.13, self.14, self.15).parse_ensures(t12, Err(e)));
                assert((self.11, self.12, self.13, self.14, self.15).parse_ensures(t11, Err(e)));
                assert((self.10, self.11, self.12, self.13, self.14, self.15).parse_ensures(t10, Err(e)));
                assert((self.9, self.10, self.11, self.12, self.13, self.14, self.15).parse_ensures(t9, Err(e)));
                assert((self.8, self.9, self.10, self.11, self.12, self.13, self.14, self.15).parse_ensures(t8, Err(e)));
                assert((self.7, self.8, self.9, self.10, self.11, self.12, self.13, self.14, self.15).parse_ensures(t7, Err(e)));
                assert((self.6, self.7, self.8, self.9, self.10, self.11, self.12, self.13, self.14, self.15).parse_ensures(t6, Err(e)));
                assert((self.5, self.6, self.7, self.8, self.9, self.10, self.11, self.12, self.13, self.14, self.15).parse_ensures(t5, Err(e)));
                assert((self.4, self.5, self.6, self.7, self.8, self.9, self.10, self.11, self.12, self.13, self.14, self.15).parse_ensures(t4, Err(e)));
                assert((self.3, self.4, self.5, self.6, self.7, self.8, self.9, self.10, self.11, self.12, self.13, self.14, self.15).parse_ensures(t3, Err(e)));
                assert((self.2, self.3, self.4, self.5, self.6, self.7, self.8, self.9, self.10, self.11, self.12, self.13, self.14, self.15).parse_ensures(t2, Err(e)));
                assert((self.1, self.2, self.3, self.4, self.5, self.6, self.7, self.8, self.9, self.10, self.11, self.12, self.13, self.14, self.15).parse_ensures(t1, Err(e)));
                return Err(e);
            },
        };
        assert(self.12.parse_ensures(t12, Ok((m, t13))));
        assert((self.13, self.14, self.15).parse_requires(t13));
        let (n, t14) = match self.13.parse(t13) {
            Ok(r) => r,
            Err(e) => {
                assert((self.13, self.14, self.15).parse_ensures(t13, Err(e)));
                assert((self.12, self.13, self.14, self.15).parse_ensures(t12, Err(e)));
                assert((self.11, self.12, self.13, self.14, self.15).parse_ensures(t11, Err(e)));
                assert((self.10, self.11, self.12, self.13, self.14, self.15).parse_ensures(t10, Err(e)));
                assert((self.9, self.10, self.11, self.12, self.13, self.14, self.15).parse_ensures(t9, Err(e)));
                assert((self.8, self.9, self.10, self.11, self.12, self.13, self.14, self.15).parse_ensures(t8, Err(e)));
                assert((self.7, self.8, self.9, self.10, self.11, self.12, self.13, self.14, self.15).parse_ensures(t7, Err(e)));
                assert((self.6, self.7, self.8, self.9, self.10, self.11, self.12, self.13, self.14, self.15).parse_ensures(t6, Err(e)));
                assert((self.5, self.6, self.7, self.8, self.9, self.10, self.11, self.12, self.13, self.14, self.15).parse_ensures(t5, Err(e)));
                assert((self.4, self.5, self.6, self.7, self.8, self.9, self.10, self.11, self.12, self.13, self.14, self.15).parse_ensures(t4, Err(e)));
                assert((self.3, self.4, self.5, self.6, self.7, self.8, self.9, self.10, self.11, self.12, self.13, self.14, self.15).parse_ensures(t3, Err(e)));
                assert((self.2, self.3, self.4, self.5, self.6, self.7, self.8, self.9, self.10, self.11, self.12, self.13, self.14, self.15).parse_ensures(t2, Err(e)));
                assert((self.1, self.2, self.3, self.4, self.5, self.6, self.7, self.8, self.9, self.10, self.11, self.12, self.13, self.14, self.15).parse_ensures(t1, Err(e)));
                return Err(e);
            },
        };
        assert(self.13.parse_ensures(t13, Ok((n, t14))));
        assert((self.14, self.15).parse_requires(t14));
        let (o, t15) = match self.14.parse(t14) {
            Ok(r) => r,
            Err(e) => {
                assert((self.14, self.15).parse_ensures(t14, Err(e)));
                assert((self.13, self.14, self.15).parse_ensures(t13, Err(e)));
                assert((self.12, self.13, self.14, self.15).parse_ensures(t12, Err(e)));
                assert((self.11, self.12, self.13, self.14, self.15).parse_ensures(t11, Err(e)));
                assert((self.10, self.11, self.12, self.13, self.14, self.15).parse_ensures(t10, Err(e)));
                assert((self.9, self.10, self.11, self.12, self.13, self.14, self.15).parse_ensures(t9, Err(e)));
                assert((self.8, self.9, self.10, self.11, self.12, self.13, self.14, self.15).parse_ensures(t8, Err(e)));
                assert((self.7, self.8, self.9, self.10, self.11, self.12, self.13, self.14, self.15).parse_ensures(t7, Err(e)));
                assert((self.6, self.7, self.8, self.9, self.10, self.11, self.12, self.13, self.14, self.15).parse_ensures(t6, Err(e)));
                assert((self.5, self.6, self.7, self.8, self.9, self.10, self.11, self.12, self.13, self.14, self.15).parse_ensures(t5, Err(e)));
                assert((self.4, self.5, self.6, self.7, self.8, self.9, self.10, self.11, self.12, self.13, self.14, self.15).parse_ensures(t4, Err(e)));
                assert((self.3, self.4, self.5, self.6, self.7, self.8, self.9, self.10, self.11, self.12, self.13, self.14, self.15).parse_ensures(t3, Err(e)));
                assert((self.2, self.3, self.4, self.5, self.6, self.7, self.8, self.9, self.10, self.11, self.12, self.13, self.14, self.15).parse_ensures(t2, Err(e)));
                assert((self.1, self.2, self.3, self.4, self.5, self.6, self.7, self.8, self.9, self.10, self.11, self.12, self.13, self.14, self.15).parse_ensures(t1, Err(e)));
                return Err(e);
            },
        };
        assert(self.14.parse_ensures(t14, Ok((o, t15))));
        let (p, t16) = match self.15.parse(t15) {
            Ok(r) => r,
            Err(e) => {
                assert((self.14, self.15).parse_ensures(t14, Err(e)));
                assert((self.13, self.14, self.15).parse_ensures(t13, Err(e)));
                assert((self.12, self.13, self.14, self.15).parse_ensures(t12, Err(e)));
                assert((self.11, self.12, self.13, self.14, self.15).parse_ensures(t11, Err(e)));
                assert((self.10, self.11, self.12, self.13, self.14, self.15).parse_ensures(t10, Err(e)));
                assert((self.9, self.10, self.11, self.12, self.13, self.14, self.15).parse_ensures(t9, Err(e)));
                assert((self.8, self.9, self.10, self.11, self.12, self.13, self.14, self.15).parse_ensures(t8, Err(e)));
                assert((self.7, self.8, self.9, self.10, self.11, self.12, self.13, self.14, self.15).parse_ensures(t7, Err(e)));
                assert((self.6, self.7, self.8, self.9, self.10, self.11, self.12, self.13, self.14, self.15).parse_ensures(t6, Err(e)));
                assert((self.5, self.6, self.7, self.8, self.9, self.10, self.11, self.12, self.13, self.14, self.15).parse_ensures(t5, Err(e)));
                assert((self.4, self.5, self.6, self.7, self.8, self.9, self.10, self.11, self.12, self.13, self.14, self.15).parse_ensures(t4, Err(e)));
                assert((self.3, self.4, self.5, self.6, self.7, self.8, self.9, self.10, self.11, self.12, self.13, self.14, self.15).parse_ensures(t3, Err(e)));
                assert((self.2, self.3, self.4, self.5, self.6, self.7, self.8, self.9, self.10, self.11, self.12, self.13, self.14, self.15).parse_ensures(t2, Err(e)));
                assert((self.1, self.2, self.3, self.4, self.5, self.6, self.7, self.8, self.9, self.10, self.11, self.12, self.13, self.14, self.15).parse_ensures(t1, Err(e)));
                return Err(e);
            },
        };
        assert((self.14, self.15).parse_ensures(t14, Ok(((o, p), t16))));
        assert((self.13, self.14, self.15).parse_ensures(t13, Ok(((n, o, p), t16))));
        assert((self.12, self.13, self.14, self.15).parse_ensures(t12, Ok(((m, n, o, p), t16))));
        assert((self.11, self.12, self.13, self.14, self.15).parse_ensures(t11, Ok(((l, m, n, o, p), t16))));
        assert((self.10, self.11, self.12, self.13, self.14, self.15).parse_ensures(t10, Ok(((k, l, m, n, o, p), t16))));
        assert((self.9, self.10, self.11, self.12, self.13, self.14, self.15).parse_ensures(t9, Ok(((j, k, l, m, n, o, p), t16))));
        assert((self.8, self.9, self.10, self.11, self.12, self.13, self.14, self.15).parse_ensures(t8, Ok(((i, j, k, l, m, n, o, p), t16))));
        assert((self.7, self.8, self.9, self.10, self.11, self.12, self.13, self.14, self.15).parse_ensures(t7, Ok(((h, i, j, k, l, m, n, o, p), t16))));
        assert((self.6, self.7, self.8, self.9, self.10, self.11, self.12, self.13, self.14, self.15).parse_ensures(t6, Ok(((g, h, i, j, k, l, m, n, o, p), t16))));
        assert((self.5, self.6, self.7, self.8, self.9, self.10, self.11, self.12, self.13, self.14, self.15).parse_ensures(t5, Ok(((f, g, h, i, j, k, l, m, n, o, p), t16))));
        assert((self.4, self.5, self.6, self.7, self.8, self.9, self.10, self.11, self.12, self.13, self.14, self.15).parse_ensures(t4, Ok(((e, f, g, h, i, j, k, l, m, n, o, p), t16))));
        assert((self.3, self.4, self.5, self.6, self.7, self.8, self.9, self.10, self.11, self.12, self.13, self.14, self.15).parse_ensures(t3, Ok(((d, e, f, g, h, i, j, k, l, m, n, o, p), t16))));
        assert((self.2, self.3, self.4, self.5, self.6, self.7, self.8, self.9, self.10, self.11, self.12, self.13, self.14, self.15).parse_ensures(t2, Ok(((c, d, e, f, g, h, i, j, k, l, m, n, o, p), t16))));
        assert((self.1, self.2, self.3, self.4, self.5, self.6, self.7, self.8, self.9, self.10, self.11, self.12, self.13, self.14, self.15).parse_ensures(t1, Ok(((b, c, d, e, f, g, h, i, j, k, l, m, n, o, p), t16))));
        Ok(((a, b, c, d, e, f, g, h, i, j, k, l, m, n, o, p), t16))
    }
}

/// A tuple of 16 deterministic parsers is deterministic.
pub proof fn lemma_tuple16_deterministic<Inp, Er, A, B, C, D, E, F, G, H, I, J, K, L, M, N, O, P>(t: (A, B, C, D, E, F, G, H, I, J, K, L, M, N, O, P))
    where
        A: Parser<Inp, Error = Er>,
        B: Parser<Inp, Error = Er>,
        C: Parser<Inp, Error = Er>,
        D: Parser<Inp, Error = Er>,
        E: Parser<Inp, Error = Er>,
        F: Parser<Inp, Error = Er>,
        G: Parser<Inp, Error = Er>,
        H: Parser<Inp, Error = Er>,
        I: Parser<Inp, Error = Er>,
        J: Parser<Inp, Error = Er>,
        K: Parser<Inp, Error = Er>,
        L: Parser<Inp, Error = Er>,
        M: Parser<Inp, Error = Er>,
        N: Parser<Inp, Error = Er>,
        O: Parser<Inp, Error = Er>,
        P: Parser<Inp, Error = Er>,
    requires
        deterministic::<Inp, A>(t.0),
        deterministic::<Inp, B>(t.1),
        deterministic::<Inp, C>(t.2),
        deterministic::<Inp, D>(t.3),
        deterministic::<Inp, E>(t.4),
        deterministic::<Inp, F>(t.5),
        deterministic::<Inp, G>(t.6),
        deterministic::<Inp, H>(t.7),
        deterministic::<Inp, I>(t.8),
        deterministic::<Inp, J>(t.9),
        deterministic::<Inp, K>(t.10),
        deterministic::<Inp, L>(t.11),
        deterministic::<Inp, M>(t.12),
        deterministic::<Inp, N>(t.13),
        deterministic::<Inp, O>(t.14),
        deterministic::<Inp, P>(t.15),
    ensures
        deterministic::<Inp, (A, B, C, D, E, F, G, H, I, J, K, L, M, N, O, P)>(t),
{
    lemma_tuple15_deterministic::<Inp, Er, B, C, D, E, F, G, H, I, J, K, L, M, N, O, P>((t.1, t.2, t.3, t.4, t.5, t.6, t.7, t.8, t.9, t.10, t.11, t.12, t.13, t.14, t.15));
    lemma_seq_unique::<Inp, A, (B, C, D, E, F, G, H, I, J, K, L, M, N, O, P)>(t.0, (t.1, t.2, t.3, t.4, t.5, t.6, t.7, t.8, t.9, t.10, t.11, t.12, t.13, t.14, t.15));
}

/// A tuple of 17 parsers sharing one error type runs them in order.
impl<Inp, Er, A, B, C, D, E, F, G, H, I, J, K, L, M, N, O, P, Q> Parser<Inp> for (A, B, C, D, E, F, G, H, I, J, K, L, M, N, O, P, Q) where
    A: Parser<Inp, Error = Er>,
    B: Parser<Inp, Error = Er>,
    C: Parser<Inp, Error = Er>,
    D: Parser<Inp, Error = Er>,
    E: Parser<Inp, Error = Er>,
    F: Parser<Inp, Error = Er>,
    G: Parser<Inp, Error = Er>,
    H: Parser<Inp, Error = Er>,
    I: Parser<Inp, Error = Er>,
    J: Parser<Inp, Error = Er>,
    K: Parser<Inp, Error = Er>,
    L: Parser<Inp, Error = Er>,
    M: Parser<Inp, Error = Er>,
    N: Parser<Inp, Error = Er>,
    O: Parser<Inp, Error = Er>,
    P: Parser<Inp, Error = Er>,
    Q: Parser<Inp, Error = Er>,
 {
    type Out = (A::Out, B::Out, C::Out, D::Out, E::Out, F::Out, G::Out, H::Out, I::Out, J::Out, K::Out, L::Out, M::Out, N::Out, O::Out, P::Out, Q::Out);

    type Error = Er;

    open spec fn parse_requires(&self, input: Inp) -> bool {
        seq_requires(self.0, (self.1, self.2, self.3, self.4, self.5, self.6, self.7, self.8, self.9, self.10, self.11, self.12, self.13, self.14, self.15, self.16), input)
    }

    open spec fn parse_ensures(&self, input: Inp, res: Result<((A::Out, B::Out, C::Out, D::Out, E::Out, F::Out, G::Out, H::Out, I::Out, J::Out, K::Out, L::Out, M::Out, N::Out, O::Out, P::Out, Q::Out), Inp), Er>) -> bool {
        match res {
            Ok(((a, b, c, d, e, f, g, h, i, j, k, l, m, n, o, p, q), rest)) => seq_ok(self.0, (self.1, self.2, self.3, self.4, self.5, self.6, self.7, self.8, self.9, self.10, self.11, self.12, self.13, self.14, self.15, self.16), input, a, (b, c, d, e, f, g, h, i, j, k, l, m, n, o, p, q), rest),
            Err(e) => seq_err(self.0, (self.1, self.2, self.3, self.4, self.5, self.6, self.7, self.8, self.9, self.10, self.11, self.12, self.13, self.14, self.15, self.16), input, e),
        }
    }

    fn parse(&self, txt: Inp) -> (res: Result<((A::Out, B::Out, C::Out, D::Out, E::Out, F::Out, G::Out, H::Out, I::Out, J::Out, K::Out, L::Out, M::Out, N::Out, O::Out, P::Out, Q::Out), Inp), Er>) {
        let ghost t0 = txt;
        let (a, t1) = match self.0.parse(txt) {
            Ok(r) => r,
            Err(e) => return Err(e),
        };
        assert(self.0.parse_ensures(t0, Ok((a, t1))));
        assert((self.1, self.2, self.3, self.4, self.5, self.6, self.7, self.8, self.9, self.10, self.11, self.12, self.13, self.14, self.15, self.16).parse_requires(t1));
        let (b, t2) = match self.1.parse(t1) {
            Ok(r) => r,
            Err(e) => {
                assert((self.1, self.2, self.3, self.4, self.5, self.6, self.7, self.8, self.9, self.10, self.11, self.12, self.13, self.14, self.15, self.16).parse_ensures(t1, Err(e)));
                return Err(e);
            },
        };
        assert(self.1.parse_ensures(t1, Ok((b, t2))));
        assert((self.2, self.3, self.4, self.5, self.6, self.7, self.8, self.9, self.10, self.11, self.12, self.13, self.14, self.15, self.16).parse_requires(t2));
        let (c, t3) = match self.2.parse(t2) {
            Ok(r) => r,
            Err(e) => {
                assert((self.2, self.3, self.4, self.5, self.6, self.7, self.8, self.9, self.10, self.11, self.12, self.13, self.14, self.15, self.16).parse_ensures(t2, Err(e)));
                assert((self.1, self.2, self.3, self.4, self.5, self.6, self.7, self.8, self.9, self.10, self.11, self.12, self.13, self.14, self.15, self.16).parse_ensures(t1, Err(e)));
                return Err(e);
            },
        };
        assert(self.2.parse_ensures(t2, Ok((c, t3))));
        assert((self.3, self.4, self.5, self.6, self.7, self.8, self.9, self.10, self.11, self.12, self.13, self.14, self.15, self.16).parse_requires(t3));
        let (d, t4) = match self.3.parse(t3) {
            Ok(r) => r,
            Err(e) => {
                assert((self.3, self.4, self.5, self.6, self.7, self.8, self.9, self.10, self.11, self.12, self.13, self.14, self.15, self.16).parse_ensures(t3, Err(e)));
                assert((self.2, self.3, self.4, self.5, self.6, self.7, self.8, self.9, self.10, self.11, self.12, self.13, self.14, self.15, self.16).parse_ensures(t2, Err(e)));
                assert((self.1, self.2, self.3, self.4, self.5, self.6, self.7, self.8, self.9, self.10, self.11, self.12, self.13, self.14, self.15, self.16).parse_ensures(t1, Err(e)));
                return Err(e);
            },
        };
        assert(self.3.parse_ensures(t3, Ok((d, t4))));
        assert((self.4, self.5, self.6, self.7, self.8, self.9, self.10, self.11, self.12, self.13, self.14, self.15, self.16).parse_requires(t4));
        let (e, t5) = match self.4.parse(t4) {
            Ok(r) => r,
            Err(e) => {
                assert((self.4, self.5, self.6, self.7, self.8, self.9, self.10, self.11, self.12, self.13, self.14, self.15, self.16).parse_ensures(t4, Err(e)));
                assert((self.3, self.4, self.5, self.6, self.7, self.8, self.9, self.10, self.11, self.12, self.13, self.14, self.15, self.16).parse_ensures(t3, Err(e)));
                assert((self.2, self.3, self.4, self.5, self.6, self.7, self.8, self.9, self.10, self.11, self.12, self.13, self.14, self.15, self.16).parse_ensures(t2, Err(e)));
                assert((self.1, self.2, self.3, self.4, self.5, self.6, self.7, self.8, self.9, self.10, self.11, self.12, self.13, self.14, self.15, self.16).parse_ensures(t1, Err(e)));
                return Err(e);
            },
        };
        assert(self.4.parse_ensures(t4, Ok((e, t5))));
        assert((self.5, self.6, self.7, self.8, self.9, self.10, self.11, self.12, self.13, self.14, self.15, self.16).parse_requires(t5));
        let (f, t6) = match self.5.parse(t5) {
            Ok(r) => r,
            Err(e) => {
                assert((self.5, self.6, self.7, self.8, self.9, self.10, self.11, self.12, self.13, self.14, self.15, self.16).parse_ensures(t5, Err(e)));
                assert((self.4, self.5, self.6, self.7, self.8, self.9, self.10, self.11, self.12, self.13, self.14, self.15, self.16).parse_ensures(t4, Err(e)));
                assert((self.3, self.4, self.5, self.6, self.7, self.8, self.9, self.10, self.11, self.12, self.13, self.14, self.15, self.16).parse_ensures(t3, Err(e)));
                assert((self.2, self.3, self.4, self.5, self.6, self.7, self.8, self.9, self.10, self.11, self.12, self.13, self.14, self.15, self.16).parse_ensures(t2, Err(e)));
                assert((self.1, self.2, self.3, self.4, self.5, self.6, self.7, self.8, self.9, self.10, self.11, self.12, self.13, self.14, self.15, self.16).parse_ensures(t1, Err(e)));
                return Err(e);
            },
        };
        assert(self.5.parse_ensures(t5, Ok((f, t6))));
        assert((self.6, self.7, self.8, self.9, self.10, self.11, self.12, self.13, self.14, self.15, self.16).parse_requires(t6));
        let (g, t7) = match self.6.parse(t6) {
            Ok(r) => r,
            Err(e) => {
                assert((self.6, self.7, self.8, self.9, self.10, self.11, self.12, self.13, self.14, self.15, self.16).parse_ensures(t6, Err(e)));
                assert((self.5, self.6, self.7, self.8, self.9, self.10, self.11, self.12, self.13, self.14, self.15, self.16).parse_ensures(t5, Err(e)));
                assert((self.4, self.5, self.6, self.7, self.8, self.9, self.10, self.11, self.12, self.13, self.14, self.15, self.16).parse_ensures(t4, Err(e)));
                assert((self.3, self.4, self.5, self.6, self.7, self.8, self.9, self.10, self.11, self.12, self.13, self.14, self.15, self.16).parse_ensures(t3, Err(e)));
                assert((self.2, self.3, self.4, self.5, self.6, self.7, self.8, self.9, self.10, self.11, self.12, self.13, self.14, self.15, self.16).parse_ensures(t2, Err(e)));
                assert((self.1, self.2, self.3, self.4, self.5, self.6, self.7, self.8, self.9, self.10, self.11, self.12, self.13, self.14, self.15, self.16).parse_ensures(t1, Err(e)));
                return Err(e);
            },
        };
        assert(self.6.parse_ensures(t6, Ok((g, t7))));
        assert((self.7, self.8, self.9, self.10, self.11, self.12, self.13, self.14, self.15, self.16).parse_requires(t7));
        let (h, t8) = match self.7.parse(t7) {
            Ok(r) => r,
            Err(e) => {
                assert((self.7, self.8, self.9, self.10, self.11, self.12, self.13, self.14, self.15, self.16).parse_ensures(t7, Err(e)));
                assert((self.6, self.7, self.8, self.9, self.10, self.11, self.12, self.13, self.14, self.15, self.16).parse_ensures(t6, Err(e)));
                assert((self.5, self.6, self.7, self.8, self.9, self.10, self.11, self.12, self.13, self.14, self.15, self.16).parse_ensures(t5, Err(e)));
                assert((self.4, self.5, self.6, self.7, self.8, self.9, self.10, self.11, self.12, self.13, self.14, self.15, self.16).parse_ensures(t4, Err(e)));
                assert((self.3, self.4, self.5, self.6, self.7, self.8, self.9, self.10, self.11, self.12, self.13, self.14, self.15, self.16).parse_ensures(t3, Err(e)));
                assert((self.2, self.3, self.4, self.5, self.6, self.7, self.8, self.9, self.10, self.11, self.12, self.13, self.14, self.15, self.16).parse_ensures(t2, Err(e)));
                assert((self.1, self.2, self.3, self.4, self.5, self.6, self.7, self.8, self.9, self.10, self.11, self.12, self.13, self.14, self.15, self.16).parse_ensures(t1, Err(e)));
                return Err(e);
            },
        };
        assert(self.7.parse_ensures(t7, Ok((h, t8))));
        assert((self.8, self.9, self.10, self.11, self.12, self.13, self.14, self.15, self.16).parse_requires(t8));
        let (i, t9) = match self.8.parse(t8) {
            Ok(r) => r,
            Err(e) => {
                assert((self.8, self.9, self.10, self.11, self.12, self.13, self.14, self.15, self.16).parse_ensures(t8, Err(e)));
                assert((self.7, self.8, self.9, self.10, self.11, self.12, self.13, self.14, self.15, self.16).parse_ensures(t7, Err(e)));
                assert((self.6, self.7, self.8, self.9, self.10, self.11, self.12, self.13, self.14, self.15, self.16).parse_ensures(t6, Err(e)));
                assert((self.5, self.6, self.7, self.8, self.9, self.10, self.11, self.12, self.13, self.14, self.15, self.16).parse_ensures(t5, Err(e)));
                assert((self.4, self.5, self.6, self.7, self.8, self.9, self.10, self.11, self.12, self.13, self.14, self.15, self.16).parse_ensures(t4, Err(e)));
                assert((self.3, self.4, self.5, self.6, self.7, self.8, self.9, self.10, self.11, self.12, self.13, self.14, self.15, self.16).parse_ensures(t3, Err(e)));
                assert((self.2, self.3, self.4, self.5, self.6, self.7, self.8, self.9, self.10, self.11, self.12, self.13, self.14, self.15, self.16).parse_ensures(t2, Err(e)));
                assert((self.1, self.2, self.3, self.4, self.5, self.6, self.7, self.8, self.9, self.10, self.11, self.12, self.13, self.14, self.15, self.16).parse_ensures(t1, Err(e)));
                return Err(e);
            },
        };
        assert(self.8.parse_ensures(t8, Ok((i, t9))));
        assert((self.9, self.10, self.11, self.12, self.13, self.14, self.15, self.16).parse_requires(t9));
        let (j, t10) = match self.9.parse(t9) {
            Ok(r) => r,
            Err(e) => {
                assert((self.9, self.10, self.11, self.12, self.13, self.14, self.15, self.16).parse_ensures(t9, Err(e)));
                assert((self.8, self.9, self.10, self.11, self.12, self.13, self.14, self.15, self.16).parse_ensures(t8, Err(e)));
                assert((self.7, self.8, self.9, self.10, self.11, self.12, self.13, self.14, self.15, self.16).parse_ensures(t7, Err(e)));
                assert((self.6, self.7, self.8, self.9, self.10, self.11, self.12, self.13, self.14, self.15, self.16).parse_ensures(t6, Err(e)));
                assert((self.5, self.6, self.7, self.8, self.9, self.10, self.11, self.12, self.13, self.14, self.15, self.16).parse_ensures(t5, Err(e)));
                assert((self.4, self.5, self.6, self.7, self.8, self.9, self.10, self.11, self.12, self.13, self.14, self.15, self.16).parse_ensures(t4, Err(e)));
                assert((self.3, self.4, self.5, self.6, self.7, self.8, self.9, self.10, self.11, self.12, self.13, self.14, self.15, self.16).parse_ensures(t3, Err(e)));
                assert((self.2, self.3, self.4, self.5, self.6, self.7, self.8, self.9, self.10, self.11, self.12, self.13, self.14, self.15, self.16).parse_ensures(t2, Err(e)));
                assert((self.1, self.2, self.3, self.4, self.5, self.6, self.7, self.8, self.9, self.10, self.11, self.12, self.13, self.14, self.15, self.16).parse_ensures(t1, Err(e)));
                return Err(e);
            },
        };
        assert(self.9.parse_ensures(t9, Ok((j, t10))));
        assert((self.10, self.11, self.12, self.13, self.14, self.15, self.16).parse_requires(t10));
        let (k, t11) = match self.10.parse(t10) {
            Ok(r) => r,
            Err(e) => {
                assert((self.10, self.11, self.12, self.13, self.14, self.15, self.16).parse_ensures(t10, Err(e)));
                assert((self.9, self.10, self.11, self.12, self.13, self.14, self.15, self.16).parse_ensures(t9, Err(e)));
                assert((self.8, self.9, self.10, self.11, self.12, self.13, self.14, self.15, self.16).parse_ensures(t8, Err(e)));
                assert((self.7, self.8, self.9, self.10, self.11, self.12, self.13, self.14, self.15, self.16).parse_ensures(t7, Err(e)));
                assert((self.6, self.7, self.8, self.9, self.10, self.11, self.12, self.13, self.14, self.15, self.16).parse_ensures(t6, Err(e)));
                assert((self.5, self.6, self.7, self.8, self.9, self.10, self.11, self.12, self.13, self.14, self.15, self.16).parse_ensures(t5, Err(e)));
                assert((self.4, self.5, self.6, self.7, self.8, self.9, self.10, self.11, self.12, self.13, self.14, self.15, self.16).parse_ensures(t4, Err(e)));
                assert((self.3, self.4, self.5, self.6, self.7, self.8, self.9, self.10, self.11, self.12, self.13, self.14, self.15, self.16).parse_ensures(t3, Err(e)));
                assert((self.2, self.3, self.4, self.5, self.6, self.7, self.8, self.9, self.10, self.11, self.12, self.13, self.14, self.15, self.16).parse_ensures(t2, Err(e)));
                assert((self.1, self.2, self.3, self.4, self.5, self.6, self.7, self.8, self.9, self.10, self.11, self.12, self.13, self.14, self.15, self.16).parse_ensures(t1, Err(e)));
                return Err(e);
            },
        };
        assert(self.10.parse_ensures(t10, Ok((k, t11))));
        assert((self.11, self.12, self.13, self.14, self.15, self.16).parse_requires(t11));
        let (l, t12) = match self.11.parse(t11) {
            Ok(r) => r,
            Err(e) => {
                assert((self.11, self.12, self.13, self.14, self.15, self.16).parse_ensures(t11, Err(e)));
                assert((self.10, self.11, self.12, self.13, self.14, self.15, self.16).parse_ensures(t10, Err(e)));
                assert((self.9, self.10, self.11, self.12, self.13, self.14, self.15, self.16).parse_ensures(t9, Err(e)));
                assert((self.8, self.9, self.10, self.11, self.12, self.13, self.14, self.15, self.16).parse_ensures(t8, Err(e)));
                assert((self.7, self.8, self.9, self.10, self.11, self.12, self.13, self.14, self.15, self.16).parse_ensures(t7, Err(e)));
                assert((self.6, self.7, self.8, self.9, self.10, self.11, self.12, self.13, self.14, self.15, self.16).parse_ensures(t6, Err(e)));
                assert((self.5, self.6, self.7, self.8, self.9, self.10, self.11, self.12, self.13, self.14, self.15, self.16).parse_ensures(t5, Err(e)));
                assert((self.4, self.5, self.6, self.7, self.8, self.9, self.10, self.11, self.12, self.13, self.14, self.15, self.16).parse_ensures(t4, Err(e)));
                assert((self.3, self.4, self.5, self.6, self.7, self.8, self.9, self.10, self.11, self.12, self.13, self.14, self.15, self.16).parse_ensures(t3, Err(e)));
                assert((self.2, self.3, self.4, self.5, self.6, self.7, self.8, self.9, self.10, self.11, self.12, self.13, self.14, self.15, self.16).parse_ensures(t2, Err(e)));
                assert((self.1, self.2, self.3, self.4, self.5, self.6, self.7, self.8, self.9, self.10, self.11, self.12, self.13, self.14, self.15, self.16).parse_ensures(t1, Err(e)));
                return Err(e);
            },
        };
        assert(self.11.parse_ensures(t11, Ok((l, t12))));
        assert((self.12, self.13, self.14, self.15, self.16).parse_requires(t12));
        let (m, t13) = match self.12.parse(t12) {
            Ok(r) => r,
            Err(e) => {
                assert((self.12, self.13, self.14, self.15, self.16).parse_ensures(t12, Err(e)));
                assert((self.11, self.12, self.13, self.14, self.15, self.16).parse_ensures(t11, Err(e)));
                assert((self.10, self.11, self.12, self.13, self.14, self.15, self.16).parse_ensures(t10, Err(e)));
                assert((self.9, self.10, self.11, self.12, self.13, self.14, self.15, self.16).parse_ensures(t9, Err(e)));
                assert((self.8, self.9, self.10, self.11, self.12, self.13, self.14, self.15, self.16).parse_ensures(t8, Err(e)));
                assert((self.7, self.8, self.9, self.10, self.11, self.12, self.13, self.14, self.15, self.16).parse_ensures(t7, Err(e)));
                assert((self.6, self.7, self.8, self.9, self.10, self.11, self.12, self.13, self.14, self.15, self.16).parse_ensures(t6, Err(e)));
                assert((self.5, self.6, self.7, self.8, self.9, self.10, self.11, self.12, self.13, self.14, self.15, self.16).parse_ensures(t5, Err(e)));
                assert((self.4, self.5, self.6, self.7, self.8, self.9, self.10, self.11, self.12, self.13, self.14, self.15, self.16).parse_ensures(t4, Err(e)));
                assert((self.3, self.4, self.5, self.6, self.7, self.8, self.9, self.10, self.11, self.12, self.13, self.14, self.15, self.16).parse_ensures(t3, Err(e)));
                assert((self.2, self.3, self.4, self.5, self.6, self.7, self.8, self.9, self.10, self.11, self.12, self.13, self.14, self.15, self.16).parse_ensures(t2, Err(e)));
                assert((self.1, self.2, self.3, self.4, self.5, self.6, self.7, self.8, self.9, self.10, self.11, self.12, self.13, self.14, self.15, self.16).parse_ensures(t1, Err(e)));
                return Err(e);
            },
        };
        assert(self.12.parse_ensures(t12, Ok((m, t13))));
        assert((self.13, self.14, self.15, self.16).parse_requires(t13));
        let (n, t14) = match self.13.parse(t13) {
            Ok(r) => r,
            Err(e) => {
                assert((self.13, self.14, self.15, self.16).parse_ensures(t13, Err(e)));
                assert((self.12, self.13, self.14, self.15, self.16).parse_ensures(t12, Err(e)));
                assert((self.11, self.12, self.13, self.14, self.15, self.16).parse_ensures(t11, Err(e)));
                assert((self.10, self.11, self.12, self.13, self.14, self.15, self.16).parse_ensures(t10, Err(e)));
                assert((self.9, self.10, self.11, self.12, self.13, self.14, self.15, self.16).parse_ensures(t9, Err(e)));
                assert((self.8, self.9, self.10, self.11, self.12, self.13, self.14, self.15, self.16).parse_ensures(t8, Err(e)));
                assert((self.7, self.8, self.9, self.10, self.11, self.12, self.13, self.14, self.15, self.16).parse_ensures(t7, Err(e)));
                assert((self.6, self.7, self.8, self.9, self.10, self.11, self.12, self.13, self.14, self.15, self.16).parse_ensures(t6, Err(e)));
                assert((self.5, self.6, self.7, self.8, self.9, self.10, self.11, self.12, self.13, self.14, self.15, self.16).parse_ensures(t5, Err(e)));
                assert((self.4, self.5, self.6, self.7, self.8, self.9, self.10, self.11, self.12, self.13, self.14, self.15, self.16).parse_ensures(t4, Err(e)));
                assert((self.3, self.4, self.5, self.6, self.7, self.8, self.9, self.10, self.11, self.12, self.13, self.14, self.15, self.16).parse_ensures(t3, Err(e)));
                assert((self.2, self.3, self.4, self.5, self.6, self.7, self.8, self.9, self.10, self.11, self.12, self.13, self.14, self.15, self.16).parse_ensures(t2, Err(e)));
                assert((self.1, self.2, self.3, self.4, self.5, self.6, self.7, self.8, self.9, self.10, self.11, self.12, self.13, self.14, self.15, self.16).parse_ensures(t1, Err(e)));
                return Err(e);
            },
        };
        assert(self.13.parse_ensures(t13, Ok((n, t14))));
        assert((self.14, self.15, self.16).parse_requires(t14));
        let (o, t15) = match self.14.parse(t14) {
            Ok(r) => r,
            Err(e) => {
                assert((self.14, self.15, self.16).parse_ensures(t14, Err(e)));
                assert((self.13, self.14, self.15, self.16).parse_ensures(t13, Err(e)));
                assert((self.12, self.13, self.14, self.15, self.16).parse_ensures(t12, Err(e)));
                assert((self.11, self.12, self.13, self.14, self.15, self.16).parse_ensures(t11, Err(e)));
                assert((self.10, self.11, self.12, self.13, self.14, self.15, self.16).parse_ensures(t10, Err(e)));
                assert((self.9, self.10, self.11, self.12, self.13, self.14, self.15, self.16).parse_ensures(t9, Err(e)));
                assert((self.8, self.9, self.10, self.11, self.12, self.13, self.14, self.15, self.16).parse_ensures(t8, Err(e)));
                assert((self.7, self.8, self.9, self.10, self.11, self.12, self.13, self.14, self.15, self.16).parse_ensures(t7, Err(e)));
                assert((self.6, self.7, self.8, self.9, self.10, self.11, self.12, self.13, self.14, self.15, self.16).parse_ensures(t6, Err(e)));
                assert((self.5, self.6, self.7, self.8, self.9, self.10, self.11, self.12, self.13, self.14, self.15, self.16).parse_ensures(t5, Err(e)));
                assert((self.4, self.5, self.6, self.7, self.8, self.9, self.10, self.11, self.12, self.13, self.14, self.15, self.16).parse_ensures(t4, Err(e)));
                assert((self.3, self.4, self.5, self.6, self.7, self.8, self.9, self.10, self.11, self.12, self.13, self.14, self.15, self.16).parse_ensures(t3, Err(e)));
                assert((self.2, self.3, self.4, self.5, self.6, self.7, self.8, self.9, self.10, self.11, self.12, self.13, self.14, self.15, self.16).parse_ensures(t2, Err(e)));
                assert((self.1, self.2, self.3, self.4, self.5, self.6, self.7, self.8, self.9, self.10, self.11, self.12, self.13, self.14, self.15, self.16).parse_ensures(t1, Err(e)));
                return Err(e);
            },
        };
        assert(self.14.parse_ensures(t14, Ok((o, t15))));
        assert((self.15, self.16).parse_requires(t15));
        let (p, t16) = match self.15.parse(t15) {
            Ok(r) => r,
            Err(e) => {
                assert((self.15, self.16).parse_ensures(t15, Err(e)));
                assert((self.14, self.15, self.16).parse_ensures(t14, Err(e)));
                assert((self.13, self.14, self.15, self.16).parse_ensures(t13, Err(e)));
                assert((self.12, self.13, self.14, self.15, self.16).parse_ensures(t12, Err(e)));
                assert((self.11, self.12, self.13, self.14, self.15, self.16).parse_ensures(t11, Err(e)));
                assert((self.10, self.11, self.12, self.13, self.14, self.15, self.16).parse_ensures(t10, Err(e)));
                assert((self.9, self.10, self.11, self.12, self.13, self.14, self.15, self.16).parse_ensures(t9, Err(e)));
                assert((self.8, self.9, self.10, self.11, self.12, self.13, self.14, self.15, self.16).parse_ensures(t8, Err(e)));
                assert((self.7, self.8, self.9, self.10, self.11, self.12, self.13, self.14, self.15, self.16).parse_ensures(t7, Err(e)));
                assert((self.6, self.7, self.8, self.9, self.10, self.11, self.12, self.13, self.14, self.15, self.16).parse_ensures(t6, Err(e)));
                assert((self.5, self.6, self.7, self.8, self.9, self.10, self.11, self.12, self.13, self.14, self.15, self.16).parse_ensures(t5, Err(e)));
                assert((self.4, self.5, self.6, self.7, self.8, self.9, self.10, self.11, self.12, self.13, self.14, self.15, self.16).parse_ensures(t4, Err(e)));
                assert((self.3, self.4, self.5, self.6, self.7, self.8, self.9, self.10, self.11, self.12, self.13, self.14, self.15, self.16).parse_ensures(t3, Err(e)));
                assert((self.2, self.3, self.4, self.5, self.6, self.7, self.8, self.9, self.10, self.11, self.12, self.13, self.14, self.15, self.16).parse_ensures(t2, Err(e)));
                assert((self.1, self.2, self.3, self.4, self.5, self.6, self.7, self.8, self.9, self.10, self.11, self.12, self.13, self.14, self.15, self.16).parse_ensures(t1, Err(e)));
                return Err(e);
            },
        };
        assert(self.15.parse_ensures(t15, Ok((p, t16))));
        let (q, t17) = match self.16.parse(t16) {
            Ok(r) => r,
            Err(e) => {
                assert((self.15, self.16).parse_ensures(t15, Err(e)));
                assert((self.14, self.15, self.16).parse_ensures(t14, Err(e)));
                assert((self.13, self.14, self.15, self.16).parse_ensures(t13, Err(e)));
                assert((self.12, self.13, self.14, self.15, self.16).parse_ensures(t12, Err(e)));
                assert((self.11, self.12, self.13, self.14, self.15, self.16).parse_ensures(t11, Err(e)));
                assert((self.10, self.11, self.12, self.13, self.14, self.15, self.16).parse_ensures(t10, Err(e)));
                assert((self.9, self.10, self.11, self.12, self.13, self.14, self.15, self.16).parse_ensures(t9, Err(e)));
                assert((self.8, self.9, self.10, self.11, self.12, self.13, self.14, self.15, self.16).parse_ensures(t8, Err(e)));
                assert((self.7, self.8, self.9, self.10, self.11, self.12, self.13, self.14, self.15, self.16).parse_ensures(t7, Err(e)));
                assert((self.6, self.7, self.8, self.9, self.10, self.11, self.12, self.13, self.14, self.15, self.16).parse_ensures(t6, Err(e)));
                assert((self.5, self.6, self.7, self.8, self.9, self.10, self.11, self.12, self.13, self.14, self.15, self.16).parse_ensures(t5, Err(e)));
                assert((self.4, self.5, self.6, self.7, self.8, self.9, self.10, self.11, self.12, self.13, self.14, self.15, self.16).parse_ensures(t4, Err(e)));
                assert((self.3, self.4, self.5, self.6, self.7, self.8, self.9, self.10, self.11, self.12, self.13, self.14, self.15, self.16).parse_ensures(t3, Err(e)));
                assert((self.2, self.3, self.4, self.5, self.6, self.7, self.8, self.9, self.10, self.11, self.12, self.13, self.14, self.15, self.16).parse_ensures(t2, Err(e)));
                assert((self.1, self.2, self.3, self.4, self.5, self.6, self.7, self.8, self.9, self.10, self.11, self.12, self.13, self.14, self.15, self.16).parse_ensures(t1, Err(e)));
                return Err(e);
            },
        };
        assert((self.15, self.16).parse_ensures(t15, Ok(((p, q), t17))));
        assert((self.14, self.15, self.16).parse_ensures(t14, Ok(((o, p, q), t17))));
        assert((self.13, self.14, self.15, self.16).parse_ensures(t13, Ok(((n, o, p, q), t17))));
        assert((self.12, self.13, self.14, self.15, self.16).parse_ensures(t12, Ok(((m, n, o, p, q), t17))));
        assert((self.11, self.12, self.13, self.14, self.15, self.16).parse_ensures(t11, Ok(((l, m, n, o, p, q), t17))));
        assert((self.10, self.11, self.12, self.13, self.14, self.15, self.16).parse_ensures(t10, Ok(((k, l, m, n, o, p, q), t17))));
        assert((self.9, self.10, self.11, self.12, self.13, self.14, self.15, self.16).parse_ensures(t9, Ok(((j, k, l, m, n, o, p, q), t17))));
        assert((self.8, self.9, self.10, self.11, self.12, self.13, self.14, self.15, self.16).parse_ensures(t8, Ok(((i, j, k, l, m, n, o, p, q), t17))));
        assert((self.7, self.8, self.9, self.10, self.11, self.12, self.13, self.14, self.15, self.16).parse_ensures(t7, Ok(((h, i, j, k, l, m, n, o, p, q), t17))));
        assert((self.6, self.7, self.8, self.9, self.10, self.11, self.12, self.13, self.14, self.15, self.16).parse_ensures(t6, Ok(((g, h, i, j, k, l, m, n, o, p, q), t17))));
        assert((self.5, self.6, self.7, self.8, self.9, self.10, self.11, self.12, self.13, self.14, self.15, self.16).parse_ensures(t5, Ok(((f, g, h, i, j, k, l, m, n, o, p, q), t17))));
        assert((self.4, self.5, self.6, self.7, self.8, self.9, self.10, self.11, self.12, self.13, self.14, self.15, self.16).parse_ensures(t4, Ok(((e, f, g, h, i, j, k, l, m, n, o, p, q), t17))));
        assert((self.3, self.4, self.5, self.6, self.7, self.8, self.9, self.10, self.11, self.12, self.13, self.14, self.15, self.16).parse_ensures(t3, Ok(((d, e, f, g, h, i, j, k, l, m, n, o, p, q), t17))));
        assert((self.2, self.3, self.4, self.5, self.6, self.7, self.8, self.9, self.10, self.11, self.12, self.13, self.14, self.15, self.16).parse_ensures(t2, Ok(((c, d, e, f, g, h, i, j, k, l, m, n, o, p, q), t17))));
        assert((self.1, self.2, self.3, self.4, self.5, self.6, self.7, self.8, self.9, self.10, self.11, self.12, self.13, self.14, self.15, self.16).parse_ensures(t1, Ok(((b, c, d, e, f, g, h, i, j, k, l, m, n, o, p, q), t17))));
        Ok(((a, b, c, d, e, f, g, h, i, j, k, l, m, n, o, p, q), t17))
    }
}

/// A tuple of 17 deterministic parsers is deterministic.
pub proof fn lemma_tuple17_deterministic<Inp, Er, A, B, C, D, E, F, G, H, I, J, K, L, M, N, O, P, Q>(t: (A, B, C, D, E, F, G, H, I, J, K, L, M, N, O, P, Q))
    where
        A: Parser<Inp, Error = Er>,
        B: Parser<Inp, Error = Er>,
        C: Parser<Inp, Error = Er>,
        D: Parser<Inp, Error = Er>,
        E: Parser<Inp, Error = Er>,
        F: Parser<Inp, Error = Er>,
        G: Parser<Inp, Error = Er>,
        H: Parser<Inp, Error = Er>,
        I: Parser<Inp, Error = Er>,
        J: Parser<Inp, Error = Er>,
        K: Parser<Inp, Error = Er>,
        L: Parser<Inp, Error = Er>,
        M: Parser<Inp, Error = Er>,
        N: Parser<Inp, Error = Er>,
        O: Parser<Inp, Error = Er>,
        P: Parser<Inp, Error = Er>,
        Q: Parser<Inp, Error = Er>,
    requires
        deterministic::<Inp, A>(t.0),
        deterministic::<Inp, B>(t.1),
        deterministic::<Inp, C>(t.2),
        deterministic::<Inp, D>(t.3),
        deterministic::<Inp, E>(t.4),
        deterministic::<Inp, F>(t.5),
        deterministic::<Inp, G>(t.6),
        deterministic::<Inp, H>(t.7),
        deterministic::<Inp, I>(t.8),
        deterministic::<Inp, J>(t.9),
        deterministic::<Inp, K>(t.10),
        deterministic::<Inp, L>(t.11),
        deterministic::<Inp, M>(t.12),
        deterministic::<Inp, N>(t.13),
        deterministic::<Inp, O>(t.14),
        deterministic::<Inp, P>(t.15),
        deterministic::<Inp, Q>(t.16),
    ensures
        deterministic::<Inp, (A, B, C, D, E, F, G, H, I, J, K, L, M, N, O, P, Q)>(t),
{
    lemma_tuple16_deterministic::<Inp, Er, B, C, D, E, F, G, H, I, J, K, L, M, N, O, P, Q>((t.1, t.2, t.3, t.4, t.5, t.6, t.7, t.8, t.9, t.10, t.11, t.12, t.13, t.14, t.15, t.16));
    lemma_seq_unique::<Inp, A, (B, C, D, E, F, G, H, I, J, K, L, M, N, O, P, Q)>(t.0, (t.1, t.2, t.3, t.4, t.5, t.6, t.7, t.8, t.9, t.10, t.11, t.12, t.13, t.14, t.15, t.16));
}

/// A tuple of 18 parsers sharing one error type runs them in order.
impl<Inp, Er, A, B, C, D, E, F, G, H, I, J, K, L, M, N, O, P, Q, R> Parser<Inp> for (A, B, C, D, E, F, G, H, I, J, K, L, M, N, O, P, Q, R) where
    A: Parser<Inp, Error = Er>,
    B: Parser<Inp, Error = Er>,
    C: Parser<Inp, Error = Er>,
    D: Parser<Inp, Error = Er>,
    E: Parser<Inp, Error = Er>,
    F: Parser<Inp, Error = Er>,
    G: Parser<Inp, Error = Er>,
    H: Parser<Inp, Error = Er>,
    I: Parser<Inp, Error = Er>,
    J: Parser<Inp, Error = Er>,
    K: Parser<Inp, Error = Er>,
    L: Parser<Inp, Error = Er>,
    M: Parser<Inp, Error = Er>,
    N: Parser<Inp, Error = Er>,
    O: Parser<Inp, Error = Er>,
    P: Parser<Inp, Error = Er>,
    Q: Parser<Inp, Error = Er>,
    R: Parser<Inp, Error = Er>,
 {
    type Out = (A::Out, B::Out, C::Out, D::Out, E::Out, F::Out, G::Out, H::Out, I::Out, J::Out, K::Out, L::Out, M::Out, N::Out, O::Out, P::Out, Q::Out, R::Out);

    type Error = Er;

    open spec fn parse_requires(&self, input: Inp) -> bool {
        seq_requires(self.0, (self.1, self.2, self.3, self.4, self.5, self.6, self.7, self.8, self.9, self.10, self.11, self.12, self.13, self.14, self.15, self.16, self.17), input)
    }

    open spec fn parse_ensures(&self, input: Inp, res: Result<((A::Out, B::Out, C::Out, D::Out, E::Out, F::Out, G::Out, H::Out, I::Out, J::Out, K::Out, L::Out, M::Out, N::Out, O::Out, P::Out, Q::Out, R::Out), Inp), Er>) -> bool {
        match res {
            Ok(((a, b, c, d, e, f, g, h, i, j, k, l, m, n, o, p, q, r), rest)) => seq_ok(self.0, (self.1, self.2, self.3, self.4, self.5, self.6, self.7, self.8, self.9, self.10, self.11, self.12, self.13, self.14, self.15, self.16, self.17), input, a, (b, c, d, e, f, g, h, i, j, k, l, m, n, o, p, q, r), rest),
            Err(e) => seq_err(self.0, (self.1, self.2, self.3, self.4, self.5, self.6, self.7, self.8, self.9, self.10, self.11, self.12, self.13, self.14, self.15, self.16, self.17), input, e),
        }
    }

    fn parse(&self, txt: Inp) -> (res: Result<((A::Out, B::Out, C::Out, D::Out, E::Out, F::Out, G::Out, H::Out, I::Out, J::Out, K::Out, L::Out, M::Out, N::Out, O::Out, P::Out, Q::Out, R::Out), Inp), Er>) {
        let ghost t0 = txt;
        let (a, t1) = match self.0.parse(txt) {
            Ok(r) => r,
            Err(e) => return Err(e),
        };
        assert(self.0.parse_ensures(t0, Ok((a, t1))));
        assert((self.1, self.2, self.3, self.4, self.5, self.6, self.7, self.8, self.9, self.10, self.11, self.12, self.13, self.14, self.15, self.16, self.17).parse_requires(t1));
        let (b, t2) = match self.1.parse(t1) {
            Ok(r) => r,
            Err(e) => {
                assert((self.1, self.2, self.3, self.4, self.5, self.6, self.7, self.8, self.9, self.10, self.11, self.12, self.13, self.14, self.15, self.16, self.17).parse_ensures(t1, Err(e)));
                return Err(e);
            },
        };
        assert(self.1.parse_ensures(t1, Ok((b, t2))));
        assert((self.2, self.3, self.4, self.5, self.6, self.7, self.8, self.9, self.10, self.11, self.12, self.13, self.14, self.15, self.16, self.17).parse_requires(t2));
        let (c, t3) = match self.2.parse(t2) {
            Ok(r) => r,
            Err(e) => {
                assert((self.2, self.3, self.4, self.5, self.6, self.7, self.8, self.9, self.10, self.11, self.12, self.13, self.14, self.15, self.16, self.17).parse_ensures(t2, Err(e)));
                assert((self.1, self.2, self.3, self.4, self.5, self.6, self.7, self.8, self.9, self.10, self.11, self.12, self.13, self.14, self.15, self.16, self.17).parse_ensures(t1, Err(e)));
                return Err(e);
            },
        };
        assert(self.2.parse_ensures(t2, Ok((c, t3))));
        assert((self.3, self.4, self.5, self.6, self.7, self.8, self.9, self.10, self.11, self.12, self.13, self.14, self.15, self.16, self.17).parse_requires(t3));
        let (d, t4) = match self.3.parse(t3) {
            Ok(r) => r,
            Err(e) => {
                assert((self.3, self.4, self.5, self.6, self.7, self.8, self.9, self.10, self.11, self.12, self.13, self.14, self.15, self.16, self.17).parse_ensures(t3, Err(e)));
                assert((self.2, self.3, self.4, self.5, self.6, self.7, self.8, self.9, self.10, self.11, self.12, self.13, self.14, self.15, self.16, self.17).parse_ensures(t2, Err(e)));
                assert((self.1, self.2, self.3, self.4, self.5, self.6, self.7, self.8, self.9, self.10, self.11, self.12, self.13, self.14, self.15, self.16, self.17).parse_ensures(t1, Err(e)));
                return Err(e);
            },
        };
        assert(self.3.parse_ensures(t3, Ok((d, t4))));
        assert((self.4, self.5, self.6, self.7, self.8, self.9, self.10, self.11, self.12, self.13, self.14, self.15, self.16, self.17).parse_requires(t4));
        let (e, t5) = match self.4.parse(t4) {
            Ok(r) => r,
            Err(e) => {
                assert((self.4, self.5, self.6, self.7, self.8, self.9, self.10, self.11, self.12, self.13, self.14, self.15, self.16, self.17).parse_ensures(t4, Err(e)));
                assert((self.3, self.4, self.5, self.6, self.7, self.8, self.9, self.10, self.11, self.12, self.13, self.14, self.15, self.16, self.17).parse_ensures(t3, Err(e)));
                assert((self.2, self.3, self.4, self.5, self.6, self.7, self.8, self.9, self.10, self.11, self.12, self.13, self.14, self.15, self.16, self.17).parse_ensures(t2, Err(e)));
                assert((self.1, self.2, self.3, self.4, self.5, self.6, self.7, self.8, self.9, self.10, self.11, self.12, self.13, self.14, self.15, self.16, self.17).parse_ensures(t1, Err(e)));
                return Err(e);
            },
        };
        assert(self.4.parse_ensures(t4, Ok((e, t5))));
        assert((self.5, self.6, self.7, self.8, self.9, self.10, self.11, self.12, self.13, self.14, self.15, self.16, self.17).parse_requires(t5));
        let (f, t6) = match self.5.parse(t5) {
            Ok(r) => r,
            Err(e) => {
                assert((self.5, self.6, self.7, self.8, self.9, self.10, self.11, self.12, self.13, self.14, self.15, self.16, self.17).parse_ensures(t5, Err(e)));
                assert((self.4, self.5, self.6, self.7, self.8, self.9, self.10, self.11, self.12, self.13, self.14, self.15, self.16, self.17).parse_ensures(t4, Err(e)));
                assert((self.3, self.4, self.5, self.6, self.7, self.8, self.9, self.10, self.11, self.12, self.13, self.14, self.15, self.16, self.17).parse_ensures(t3, Err(e)));
                assert((self.2, self.3, self.4, self.5, self.6, self.7, self.8, self.9, self.10, self.11, self.12, self.13, self.14, self.15, self.16, self.17).parse_ensures(t2, Err(e)));
                assert((self.1, self.2, self.3, self.4, self.5, self.6, self.7, self.8, self.9, self.10, self.11, self.12, self.13, self.14, self.15, self.16, self.17).parse_ensures(t1, Err(e)));
                return Err(e);
            },
        };
        assert(self.5.parse_ensures(t5, Ok((f, t6))));
        assert((self.6, self.7, self.8, self.9, self.10, self.11, self.12, self.13, self.14, self.15, self.16, self.17).parse_requires(t6));
        let (g, t7) = match self.6.parse(t6) {
            Ok(r) => r,
            Err(e) => {
                assert((self.6, self.7, self.8, self.9, self.10, self.11, self.12, self.13, self.14, self.15, self.16, self.17).parse_ensures(t6, Err(e)));
                assert((self.5, self.6, self.7, self.8, self.9, self.10, self.11, self.12, self.13, self.14, self.15, self.16, self.17).parse_ensures(t5, Err(e)));
                assert((self.4, self.5, self.6, self.7, self.8, self.9, self.10, self.11, self.12, self.13, self.14, self.15, self.16, self.17).parse_ensures(t4, Err(e)));
                assert((self.3, self.4, self.5, self.6, self.7, self.8, self.9, self.10, self.11, self.12, self.13, self.14, self.15, self.16, self.17).parse_ensures(t3, Err(e)));
                assert((self.2, self.3, self.4, self.5, self.6, self.7, self.8, self.9, self.10, self.11, self.12, self.13, self.14, self.15, self.16, self.17).parse_ensures(t2, Err(e)));
                assert((self.1, self.2, self.3, self.4, self.5, self.6, self.7, self.8, self.9, self.10, self.11, self.12, self.13, self.14, self.15, self.16, self.17).parse_ensures(t1, Err(e)));
                return Err(e);
            },
        };
        assert(self.6.parse_ensures(t6, Ok((g, t7))));
        assert((self.7, self.8, self.9, self.10, self.11, self.12, self.13, self.14, self.15, self.16, self.17).parse_requires(t7));
        let (h, t8) = match self.7.parse(t7) {
            Ok(r) => r,
            Err(e) => {
                assert((self.7, self.8, self.9, self.10, self.11, self.12, self.13, self.14, self.15, self.16, self.17).parse_ensures(t7, Err(e)));
                assert((self.6, self.7, self.8, self.9, self.10, self.11, self.12, self.13, self.14, self.15, self.16, self.17).parse_ensures(t6, Err(e)));
                assert((self.5, self.6, self.7, self.8, self.9, self.10, self.11, self.12, self.13, self.14, self.15, self.16, self.17).parse_ensures(t5, Err(e)));
                assert((self.4, self.5, self.6, self.7, self.8, self.9, self.10, self.11, self.12, self.13, self.14, self.15, self.16, self.17).parse_ensures(t4, Err(e)));
                assert((self.3, self.4, self.5, self.6, self.7, self.8, self.9, self.10, self.11, self.12, self.13, self.14, self.15, self.16, self.17).parse_ensures(t3, Err(e)));
                assert((self.2, self.3, self.4, self.5, self.6, self.7, self.8, self.9, self.10, self.11, self.12, self.13, self.14, self.15, self.16, self.17).parse_ensures(t2, Err(e)));
                assert((self.1, self.2, self.3, self.4, self.5, self.6, self.7, self.8, self.9, self.10, self.11, self.12, self.13, self.14, self.15, self.16, self.17).parse_ensures(t1, Err(e)));
                return Err(e);
            },
        };
        assert(self.7.parse_ensures(t7, Ok((h, t8))));
        assert((self.8, self.9, self.10, self.11, self.12, self.13, self.14, self.15, self.16, self.17).parse_requires(t8));
        let (i, t9) = match self.8.parse(t8) {
            Ok(r) => r,
            Err(e) => {
                assert((self.8, self.9, self.10, self.11, self.12, self.13, self.14, self.15, self.16, self.17).parse_ensures(t8, Err(e)));
                assert((self.7, self.8, self.9, self.10, self.11, self.12, self.13, self.14, self.15, self.16, self.17).parse_ensures(t7, Err(e)));
                assert((self.6, self.7, self.8, self.9, self.10, self.11, self.12, self.13, self.14, self.15, self.16, self.17).parse_ensures(t6, Err(e)));
                assert((self.5, self.6, self.7, self.8, self.9, self.10, self.11, self.12, self.13, self.14, self.15, self.16, self.17).parse_ensures(t5, Err(e)));
                assert((self.4, self.5, self.6, self.7, self.8, self.9, self.10, self.11, self.12, self.13, self.14, self.15, self.16, self.17).parse_ensures(t4, Err(e)));
                assert((self.3, self.4, self.5, self.6, self.7, self.8, self.9, self.10, self.11, self.12, self.13, self.14, self.15, self.16, self.17).parse_ensures(t3, Err(e)));
                assert((self.2, self.3, self.4, self.5, self.6, self.7, self.8, self.9, self.10, self.11, self.12, self.13, self.14, self.15, self.16, self.17).parse_ensures(t2, Err(e)));
                assert((self.1, self.2, self.3, self.4, self.5, self.6, self.7, self.8, self.9, self.10, self.11, self.12, self.13, self.14, self.15, self.16, self.17).parse_ensures(t1, Err(e)));
                return Err(e);
            },
        };
        assert(self.8.parse_ensures(t8, Ok((i, t9))));
        assert((self.9, self.10, self.11, self.12, self.13, self.14, self.15, self.16, self.17).parse_requires(t9));
        let (j, t10) = match self.9.parse(t9) {
            Ok(r) => r,
            Err(e) => {
                assert((self.9, self.10, self.11, self.12, self.13, self.14, self.15, self.16, self.17).parse_ensures(t9, Err(e)));
                assert((self.8, self.9, self.10, self.11, self.12, self.13, self.14, self.15, self.16, self.17).parse_ensures(t8, Err(e)));
                assert((self.7, self.8, self.9, self.10, self.11, self.12, self.13, self.14, self.15, self.16, self.17).parse_ensures(t7, Err(e)));
                assert((self.6, self.7, self.8, self.9, self.10, self.11, self.12, self.13, self.14, self.15, self.16, self.17).parse_ensures(t6, Err(e)));
                assert((self.5, self.6, self.7, self.8, self.9, self.10, self.11, self.12, self.13, self.14, self.15, self.16, self.17).parse_ensures(t5, Err(e)));
                assert((self.4, self.5, self.6, self.7, self.8, self.9, self.10, self.11, self.12, self.13, self.14, self.15, self.16, self.17).parse_ensures(t4, Err(e)));
                assert((self.3, self.4, self.5, self.6, self.7, self.8, self.9, self.10, self.11, self.12, self.13, self.14, self.15, self.16, self.17).parse_ensures(t3, Err(e)));
                assert((self.2, self.3, self.4, self.5, self.6, self.7, self.8, self.9, self.10, self.11, self.12, self.13, self.14, self.15, self.16, self.17).parse_ensures(t2, Err(e)));
                assert((self.1, self.2, self.3, self.4, self.5, self.6, self.7, self.8, self.9, self.10, self.11, self.12, self.13, self.14, self.15, self.16, self.17).parse_ensures(t1, Err(e)));
                return Err(e);
            },
        };
        assert(self.9.parse_ensures(t9, Ok((j, t10))));
        assert((self.10, self.11, self.12, self.13, self.14, self.15, self.16, self.17).parse_requires(t10));
        let (k, t11) = match self.10.parse(t10) {
            Ok(r) => r,
            Err(e) => {
                assert((self.10, self.11, self.12, self.13, self.14, self.15, self.16, self.17).parse_ensures(t10, Err(e)));
                assert((self.9, self.10, self.11, self.12, self.13, self.14, self.15, self.16, self.17).parse_ensures(t9, Err(e)));
                assert((self.8, self.9, self.10, self.11, self.12, self.13, self.14, self.15, self.16, self.17).parse_ensures(t8, Err(e)));
                assert((self.7, self.8, self.9, self.10, self.11, self.12, self.13, self.14, self.15, self.16, self.17).parse_ensures(t7, Err(e)));
                assert((self.6, self.7, self.8, self.9, self.10, self.11, self.12, self.13, self.14, self.15, self.16, self.17).parse_ensures(t6, Err(e)));
                assert((self.5, self.6, self.7, self.8, self.9, self.10, self.11, self.12, self.13, self.14, self.15, self.16, self.17).parse_ensures(t5, Err(e)));
                assert((self.4, self.5, self.6, self.7, self.8, self.9, self.10, self.11, self.12, self.13, self.14, self.15, self.16, self.17).parse_ensures(t4, Err(e)));
                assert((self.3, self.4, self.5, self.6, self.7, self.8, self.9, self.10, self.11, self.12, self.13, self.14, self.15, self.16, self.17).parse_ensures(t3, Err(e)));
                assert((self.2, self.3, self.4, self.5, self.6, self.7, self.8, self.9, self.10, self.11, self.12, self.13, self.14, self.15, self.16, self.17).parse_ensures(t2, Err(e)));
                assert((self.1, self.2, self.3, self.4, self.5, self.6, self.7, self.8, self.9, self.10, self.11, self.12, self.13, self.14, self.15, self.16, self.17).parse_ensures(t1, Err(e)));
                return Err(e);
            },
        };
        assert(self.10.parse_ensures(t10, Ok((k, t11))));
        assert((self.11, self.12, self.13, self.14, self.15, self.16, self.17).parse_requires(t11));
        let (l, t12) = match self.11.parse(t11) {
            Ok(r) => r,
            Err(e) => {
                assert((self.11, self.12, self.13, self.14, self.15, self.16, self.17).parse_ensures(t11, Err(e)));
                assert((self.10, self.11, self.12, self.13, self.14, self.15, self.16, self.17).parse_ensures(t10, Err(e)));
                assert((self.9, self.10, self.11, self.12, self.13, self.14, self.15, self.16, self.17).parse_ensures(t9, Err(e)));
                assert((self.8, self.9, self.10, self.11, self.12, self.13, self.14, self.15, self.16, self.17).parse_ensures(t8, Err(e)));
                assert((self.7, self.8, self.9, self.10, self.11, self.12, self.13, self.14, self.15, self.16, self.17).parse_ensures(t7, Err(e)));
                assert((self.6, self.7, self.8, self.9, self.10, self.11, self.12, self.13, self.14, self.15, self.16, self.17).parse_ensures(t6, Err(e)));
                assert((self.5, self.6, self.7, self.8, self.9, self.10, self.11, self.12, self.13, self.14, self.15, self.16, self.17).parse_ensures(t5, Err(e)));
                assert((self.4, self.5, self.6, self.7, self.8, self.9, self.10, self.11, self.12, self.13, self.14, self.15, self.16, self.17).parse_ensures(t4, Err(e)));
                assert((self.3, self.4, self.5, self.6, self.7, self.8, self.9, self.10, self.11, self.12, self.13, self.14, self.15, self.16, self.17).parse_ensures(t3, Err(e)));
                assert((self.2, self.3, self.4, self.5, self.6, self.7, self.8, self.9, self.10, self.11, self.12, self.13, self.14, self.15, self.16, self.17).parse_ensures(t2, Err(e)));
                assert((self.1, self.2, self.3, self.4, self.5, self.6, self.7, self.8, self.9, self.10, self.11, self.12, self.13, self.14, self.15, self.16, self.17).parse_ensures(t1, Err(e)));
                return Err(e);
            },
        };
        assert(self.11.parse_ensures(t11, Ok((l, t12))));
        assert((self.12, self.13, self.14, self.15, self.16, self.17).parse_requires(t12));
        let (m, t13) = match self.12.parse(t12) {
            Ok(r) => r,
            Err(e) => {
                assert((self.12, self.13, self.14, self.15, self.16, self.17).parse_ensures(t12, Err(e)));
                assert((self.11, self.12, self.13, self.14, self.15, self.16, self.17).parse_ensures(t11, Err(e)));
                assert((self.10, self.11, self.12, self.13, self.14, self.15, self.16, self.17).parse_ensures(t10, Err(e)));
                assert((self.9, self.10, self.11, self.12, self.13, self.14, self.15, self.16, self.17).parse_ensures(t9, Err(e)));
                assert((self.8, self.9, self.10, self.11, self.12, self.13, self.14, self.15, self.16, self.17).parse_ensures(t8, Err(e)));
                assert((self.7, self.8, self.9, self.10, self.11, self.12, self.13, self.14, self.15, self.16, self.17).parse_ensures(t7, Err(e)));
                assert((self.6, self.7, self.8, self.9, self.10, self.11, self.12, self.13, self.14, self.15, self.16, self.17).parse_ensures(t6, Err(e)));
                assert((self.5, self.6, self.7, self.8, self.9, self.10, self.11, self.12, self.13, self.14, self.15, self.16, self.17).parse_ensures(t5, Err(e)));
                assert((self.4, self.5, self.6, self.7, self.8, self.9, self.10, self.11, self.12, self.13, self.14, self.15, self.16, self.17).parse_ensures(t4, Err(e)));
                assert((self.3, self.4, self.5, self.6, self.7, self.8, self.9, self.10, self.11, self.12, self.13, self.14, self.15, self.16, self.17).parse_ensures(t3, Err(e)));
                assert((self.2, self.3, self.4, self.5, self.6, self.7, self.8, self.9, self.10, self.11, self.12, self.13, self.14, self.15, self.16, self.17).parse_ensures(t2, Err(e)));
                assert((self.1, self.2, self.3, self.4, self.5, self.6, self.7, self.8, self.9, self.10, self.11, self.12, self.13, self.14, self.15, self.16, self.17).parse_ensures(t1, Err(e)));
                return Err(e);
            },
        };
        assert(self.12.parse_ensures(t12, Ok((m, t13))));
        assert((self.13, self.14, self.15, self.16, self.17).parse_requires(t13));
        let (n, t14) = match self.13.parse(t13) {
            Ok(r) => r,
            Err(e) => {
                assert((self.13, self.14, self.15, self.16, self.17).parse_ensures(t13, Err(e)));
                assert((self.12, self.13, self.14, self.15, self.16, self.17).parse_ensures(t12, Err(e)));
                assert((self.11, self.12, self.13, self.14, self.15, self.16, self.17).parse_ensures(t11, Err(e)));
                assert((self.10, self.11, self.12, self.13, self.14, self.15, self.16, self.17).parse_ensures(t10, Err(e)));
                assert((self.9, self.10, self.11, self.12, self.13, self.14, self.15, self.16, self.17).parse_ensures(t9, Err(e)));
                assert((self.8, self.9, self.10, self.11, self.12, self.13, self.14, self.15, self.16, self.17).parse_ensures(t8, Err(e)));
                assert((self.7, self.8, self.9, self.10, self.11, self.12, self.13, self.14, self.15, self.16, self.17).parse_ensures(t7, Err(e)));
                assert((self.6, self.7, self.8, self.9, self.10, self.11, self.12, self.13, self.14, self.15, self.16, self.17).parse_ensures(t6, Err(e)));
                assert((self.5, self.6, self.7, self.8, self.9, self.10, self.11, self.12, self.13, self.14, self.15, self.16, self.17).parse_ensures(t5, Err(e)));
                assert((self.4, self.5, self.6, self.7, self.8, self.9, self.10, self.11, self.12, self.13, self.14, self.15, self.16, self.17).parse_ensures(t4, Err(e)));
                assert((self.3, self.4, self.5, self.6, self.7, self.8, self.9, self.10, self.11, self.12, self.13, self.14, self.15, self.16, self.17).parse_ensures(t3, Err(e)));
                assert((self.2, self.3, self.4, self.5, self.6, self.7, self.8, self.9, self.10, self.11, self.12, self.13, self.14, self.15, self.16, self.17).parse_ensures(t2, Err(e)));
                assert((self.1, self.2, self.3, self.4, self.5, self.6, self.7, self.8, self.9, self.10, self.11, self.12, self.13, self.14, self.15, self.16, self.17).parse_ensures(t1, Err(e)));
                return Err(e);
            },
        };
        assert(self.13.parse_ensures(t13, Ok((n, t14))));
        assert((self.14, self.15, self.16, self.17).parse_requires(t14));
        let (o, t15) = match self.14.parse(t14) {
            Ok(r) => r,
            Err(e) => {
                assert((self.14, self.15, self.16, self.17).parse_ensures(t14, Err(e)));
                assert((self.13, self.14, self.15, self.16, self.17).parse_ensures(t13, Err(e)));
                assert((self.12, self.13, self.14, self.15, self.16, self.17).parse_ensures(t12, Err(e)));
                assert((self.11, self.12, self.13, self.14, self.15, self.16, self.17).parse_ensures(t11, Err(e)));
                assert((self.10, self.11, self.12, self.13, self.14, self.15, self.16, self.17).parse_ensures(t10, Err(e)));
                assert((self.9, self.10, self.11, self.12, self.13, self.14, self.15, self.16, self.17).parse_ensures(t9, Err(e)));
                assert((self.8, self.9, self.10, self.11, self.12, self.13, self.14, self.15, self.16, self.17).parse_ensures(t8, Err(e)));
                assert((self.7, self.8, self.9, self.10, self.11, self.12, self.13, self.14, self.15, self.16, self.17).parse_ensures(t7, Err(e)));
                assert((self.6, self.7, self.8, self.9, self.10, self.11, self.12, self.13, self.14, self.15, self.16, self.17).parse_ensures(t6, Err(e)));
                assert((self.5, self.6, self.7, self.8, self.9, self.10, self.11, self.12, self.13, self.14, self.15, self.16, self.17).parse_ensures(t5, Err(e)));
                assert((self.4, self.5, self.6, self.7, self.8, self.9, self.10, self.11, self.12, self.13, self.14, self.15, self.16, self.17).parse_ensures(t4, Err(e)));
                assert((self.3, self.4, self.5, self.6, self.7, self.8, self.9, self.10, self.11, self.12, self.13, self.14, self.15, self.16, self.17).parse_ensures(t3, Err(e)));
                assert((self.2, self.3, self.4, self.5, self.6, self.7, self.8, self.9, self.10, self.11, self.12, self.13, self.14, self.15, self.16, self.17).parse_ensures(t2, Err(e)));
                assert((self.1, self.2, self.3, self.4, self.5, self.6, self.7, self.8, self.9, self.10, self.11, self.12, self.13, self.14, self.15, self.16, self.17).parse_ensures(t1, Err(e)));
                return Err(e);
            },
        };
        assert(self.14.parse_ensures(t14, Ok((o, t15))));
        assert((self.15, self.16, self.17).parse_requires(t15));
        let (p, t16) = match self.15.parse(t15) {
            Ok(r) => r,
            Err(e) => {
                assert((self.15, self.16, self.17).parse_ensures(t15, Err(e)));
                assert((self.14, self.15, self.16, self.17).parse_ensures(t14, Err(e)));
                assert((self.13, self.14, self.15, self.16, self.17).parse_ensures(t13, Err(e)));
                assert((self.12, self.13, self.14, self.15, self.16, self.17).parse_ensures(t12, Err(e)));
                assert((self.11, self.12, self.13, self.14, self.15, self.16, self.17).parse_ensures(t11, Err(e)));
                assert((self.10, self.11, self.12, self.13, self.14, self.15, self.16, self.17).parse_ensures(t10, Err(e)));
                assert((self.9, self.10, self.11, self.12, self.13, self.14, self.15, self.16, self.17).parse_ensures(t9, Err(e)));
                assert((self.8, self.9, self.10, self.11, self.12, self.13, self.14, self.15, self.16, self.17).parse_ensures(t8, Err(e)));
                assert((self.7, self.8, self.9, self.10, self.11, self.12, self.13, self.14, self.15, self.16, self.17).parse_ensures(t7, Err(e)));
                assert((self.6, self.7, self.8, self.9, self.10, self.11, self.12, self.13, self.14, self.15, self.16, self.17).parse_ensures(t6, Err(e)));
                assert((self.5, self.6, self.7, self.8, self.9, self.10, self.11, self.12, self.13, self.14, self.15, self.16, self.17).parse_ensures(t5, Err(e)));
                assert((self.4, self.5, self.6, self.7, self.8, self.9, self.10, self.11, self.12, self.13, self.14, self.15, self.16, self.17).parse_ensures(t4, Err(e)));
                assert((self.3, self.4, self.5, self.6, self.7, self.8, self.9, self.10, self.11, self.12, self.13, self.14, self.15, self.16, self.17).parse_ensures(t3, Err(e)));
                assert((self.2, self.3, self.4, self.5, self.6, self.7, self.8, self.9, self.10, self.11, self.12, self.13, self.14, self.15, self.16, self.17).parse_ensures(t2, Err(e)));
                assert((self.1, self.2, self.3, self.4, self.5, self.6, self.7, self.8, self.9, self.10, self.11, self.12, self.13, self.14, self.15, self.16, self.17).parse_ensures(t1, Err(e)));
                return Err(e);
            },
        };
        assert(self.15.parse_ensures(t15, Ok((p, t16))));
        assert((self.16, self.17).parse_requires(t16));
        let (q, t17) = match self.16.parse(t16) {
            Ok(r) => r,
            Err(e) => {
                assert((self.16, self.17).parse_ensures(t16, Err(e)));
                assert((self.15, self.16, self.17).parse_ensures(t15, Err(e)));
                assert((self.14, self.15, self.16, self.17).parse_ensures(t14, Err(e)));
                assert((self.13, self.14, self.15, self.16, self.17).parse_ensures(t13, Err(e)));
                assert((self.12, self.13, self.14, self.15, self.16, self.17).parse_ensures(t12, Err(e)));
                assert((self.11, self.12, self.13, self.14, self.15, self.16, self.17).parse_ensures(t11, Err(e)));
                assert((self.10, self.11, self.12, self.13, self.14, self.15, self.16, self.17).parse_ensures(t10, Err(e)));
                assert((self.9, self.10, self.11, self.12, self.13, self.14, self.15, self.16, self.17).parse_ensures(t9, Err(e)));
                assert((self.8, self.9, self.10, self.11, self.12, self.13, self.14, self.15, self.16, self.17).parse_ensures(t8, Err(e)));
                assert((self.7, self.8, self.9, self.10, self.11, self.12, self.13, self.14, self.15, self.16, self.17).parse_ensures(t7, Err(e)));
                assert((self.6, self.7, self.8, self.9, self.10, self.11, self.12, self.13, self.14, self.15, self.16, self.17).parse_ensures(t6, Err(e)));
                assert((self.5, self.6, self.7, self.8, self.9, self.10, self.11, self.12, self.13, self.14, self.15, self.16, self.17).parse_ensures(t5, Err(e)));
                assert((self.4, self.5, self.6, self.7, self.8, self.9, self.10, self.11, self.12, self.13, self.14, self.15, self.16, self.17).parse_ensures(t4, Err(e)));
                assert((self.3, self.4, self.5, self.6, self.7, self.8, self.9, self.10, self.11, self.12, self.13, self.14, self.15, self.16, self.17).parse_ensures(t3, Err(e)));
                assert((self.2, self.3, self.4, self.5, self.6, self.7, self.8, self.9, self.10, self.11, self.12, self.13, self.14, self.15, self.16, self.17).parse_ensures(t2, Err(e)));
                assert((self.1, self.2, self.3, self.4, self.5, self.6, self.7, self.8, self.9, self.10, self.11, self.12, self.13, self.14, self.15, self.16, self.17).parse_ensures(t1, Err(e)));
                return Err(e);
            },
        };
        assert(self.16.parse_ensures(t16, Ok((q, t17))));
        let (r, t18) = match self.17.parse(t17) {
            Ok(r) => r,
            Err(e) => {
                assert((self.16, self.17).parse_ensures(t16, Err(e)));
                assert((self.15, self.16, self.17).parse_ensures(t15, Err(e)));
                assert((self.14, self.15, self.16, self.17).parse_ensures(t14, Err(e)));
                assert((self.13, self.14, self.15, self.16, self.17).parse_ensures(t13, Err(e)));
                assert((self.12, self.13, self.14, self.15, self.16, self.17).parse_ensures(t12, Err(e)));
                assert((self.11, self.12, self.13, self.14, self.15, self.16, self.17).parse_ensures(t11, Err(e)));
                assert((self.10, self.11, self.12, self.13, self.14, self.15, self.16, self.17).parse_ensures(t10, Err(e)));
                assert((self.9, self.10, self.11, self.12, self.13, self.14, self.15, self.16, self.17).parse_ensures(t9, Err(e)));
                assert((self.8, self.9, self.10, self.11, self.12, self.13, self.14, self.15, self.16, self.17).parse_ensures(t8, Err(e)));
                assert((self.7, self.8, self.9, self.10, self.11, self.12, self.13, self.14, self.15, self.16, self.17).parse_ensures(t7, Err(e)));
                assert((self.6, self.7, self.8, self.9, self.10, self.11, self.12, self.13, self.14, self.15, self.16, self.17).parse_ensures(t6, Err(e)));
                assert((self.5, self.6, self.7, self.8, self.9, self.10, self.11, self.12, self.13, self.14, self.15, self.16, self.17).parse_ensures(t5, Err(e)));
                assert((self.4, self.5, self.6, self.7, self.8, self.9, self.10, self.11, self.12, self.13, self.14, self.15, self.16, self.17).parse_ensures(t4, Err(e)));
                assert((self.3, self.4, self.5, self.6, self.7, self.8, self.9, self.10, self.11, self.12, self.13, self.14, self.15, self.16, self.17).parse_ensures(t3, Err(e)));
                assert((self.2, self.3, self.4, self.5, self.6, self.7, self.8, self.9, self.10, self.11, self.12, self.13, self.14, self.15, self.16, self.17).parse_ensures(t2, Err(e)));
                assert((self.1, self.2, self.3, self.4, self.5, self.6, self.7, self.8, self.9, self.10, self.11, self.12, self.13, self.14, self.15, self.16, self.17).parse_ensures(t1, Err(e)));
                return Err(e);
            },
        };
        assert((self.16, self.17).parse_ensures(t16, Ok(((q, r), t18))));
        assert((self.15, self.16, self.17).parse_ensures(t15, Ok(((p, q, r), t18))));
        assert((self.14, self.15, self.16, self.17).parse_ensures(t14, Ok(((o, p, q, r), t18))));
        assert((self.13, self.14, self.15, self.16, self.17).parse_ensures(t13, Ok(((n, o, p, q, r), t18))));
        assert((self.12, self.13, self.14, self.15, self.16, self.17).parse_ensures(t12, Ok(((m, n, o, p, q, r), t18))));
        assert((self.11, self.12, self.13, self.14, self.15, self.16, self.17).parse_ensures(t11, Ok(((l, m, n, o, p, q, r), t18))));
        assert((self.10, self.11, self.12, self.13, self.14, self.15, self.16, self.17).parse_ensures(t10, Ok(((k, l, m, n, o, p, q, r), t18))));
        assert((self.9, self.10, self.11, self.12, self.13, self.14, self.15, self.16, self.17).parse_ensures(t9, Ok(((j, k, l, m, n, o, p, q, r), t18))));
        assert((self.8, self.9, self.10, self.11, self.12, self.13, self.14, self.15, self.16, self.17).parse_ensures(t8, Ok(((i, j, k, l, m, n, o, p, q, r), t18))));
        assert((self.7, self.8, self.9, self.10, self.11, self.12, self.13, self.14, self.15, self.16, self.17).parse_ensures(t7, Ok(((h, i, j, k, l, m, n, o, p, q, r), t18))));
        assert((self.6, self.7, self.8, self.9, self.10, self.11, self.12, self.13, self.14, self.15, self.16, self.17).parse_ensures(t6, Ok(((g, h, i, j, k, l, m, n, o, p, q, r), t18))));
        assert((self.5, self.6, self.7, self.8, self.9, self.10, self.11, self.12, self.13, self.14, self.15, self.16, self.17).parse_ensures(t5, Ok(((f, g, h, i, j, k, l, m, n, o, p, q, r), t18))));
        assert((self.4, self.5, self.6, self.7, self.8, self.9, self.10, self.11, self.12, self.13, self.14, self.15, self.16, self.17).parse_ensures(t4, Ok(((e, f, g, h, i, j, k, l, m, n, o, p, q, r), t18))));
        assert((self.3, self.4, self.5, self.6, self.7, self.8, self.9, self.10, self.11, self.12, self.13, self.14, self.15, self.16, self.17).parse_ensures(t3, Ok(((d, e, f, g, h, i, j, k, l, m, n, o, p, q, r), t18))));
        assert((self.2, self.3, self.4, self.5, self.6, self.7, self.8, self.9, self.10, self.11, self.12, self.13, self.14, self.15, self.16, self.17).parse_ensures(t2, Ok(((c, d, e, f, g, h, i, j, k, l, m, n, o, p, q, r), t18))));
        assert((self.1, self.2, self.3, self.4, self.5, self.6, self.7, self.8, self.9, self.10, self.11, self.12, self.13, self.14, self.15, self.16, self.17).parse_ensures(t1, Ok(((b, c, d, e, f, g, h, i, j, k, l, m, n, o, p, q, r), t18))));
        Ok(((a, b, c, d, e, f, g, h, i, j, k, l, m, n, o, p, q, r), t18))
    }
}

/// A tuple of 18 deterministic parsers is deterministic.
pub proof fn lemma_tuple18_deterministic<Inp, Er, A, B, C, D, E, F, G, H, I, J, K, L, M, N, O, P, Q, R>(t: (A, B, C, D, E, F, G, H, I, J, K, L, M, N, O, P, Q, R))
    where
        A: Parser<Inp, Error = Er>,
        B: Parser<Inp, Error = Er>,
        C: Parser<Inp, Error = Er>,
        D: Parser<Inp, Error = Er>,
        E: Parser<Inp, Error = Er>,
        F: Parser<Inp, Error = Er>,
        G: Parser<Inp, Error = Er>,
        H: Parser<Inp, Error = Er>,
        I: Parser<Inp, Error = Er>,
        J: Parser<Inp, Error = Er>,
        K: Parser<Inp, Error = Er>,
        L: Parser<Inp, Error = Er>,
        M: Parser<Inp, Error = Er>,
        N: Parser<Inp, Error = Er>,
        O: Parser<Inp, Error = Er>,
        P: Parser<Inp, Error = Er>,
        Q: Parser<Inp, Error = Er>,
        R: Parser<Inp, Error = Er>,
    requires
        deterministic::<Inp, A>(t.0),
        deterministic::<Inp, B>(t.1),
        deterministic::<Inp, C>(t.2),
        deterministic::<Inp, D>(t.3),
        deterministic::<Inp, E>(t.4),
        deterministic::<Inp, F>(t.5),
        deterministic::<Inp, G>(t.6),
        deterministic::<Inp, H>(t.7),
        deterministic::<Inp, I>(t.8),
        deterministic::<Inp, J>(t.9),
        deterministic::<Inp, K>(t.10),
        deterministic::<Inp, L>(t.11),
        deterministic::<Inp, M>(t.12),
        deterministic::<Inp, N>(t.13),
        deterministic::<Inp, O>(t.14),
        deterministic::<Inp, P>(t.15),
        deterministic::<Inp, Q>(t.16),
        deterministic::<Inp, R>(t.17),
    ensures
        deterministic::<Inp, (A, B, C, D, E, F, G, H, I, J, K, L, M, N, O, P, Q, R)>(t),
{
    lemma_tuple17_deterministic::<Inp, Er, B, C, D, E, F, G, H, I, J, K, L, M, N, O, P, Q, R>((t.1, t.2, t.3, t.4, t.5, t.6, t.7, t.8, t.9, t.10, t.11, t.12, t.13, t.14, t.15, t.16, t.17));
    lemma_seq_unique::<Inp, A, (B, C, D, E, F, G, H, I, J, K, L, M, N, O, P, Q, R)>(t.0, (t.1, t.2, t.3, t.4, t.5, t.6, t.7, t.8, t.9, t.10, t.11, t.12, t.13, t.14, t.15, t.16, t.17));
}

/// A tuple of 19 parsers sharing one error type runs them in order.
impl<Inp, Er, A, B, C, D, E, F, G, H, I, J, K, L, M, N, O, P, Q, R, S> Parser<Inp> for (A, B, C, D, E, F, G, H, I, J, K, L, M, N, O, P, Q, R, S) where
    A: Parser<Inp, Error = Er>,
    B: Parser<Inp, Error = Er>,
    C: Parser<Inp, Error = Er>,
    D: Parser<Inp, Error = Er>,
    E: Parser<Inp, Error = Er>,
    F: Parser<Inp, Error = Er>,
    G: Parser<Inp, Error = Er>,
    H: Parser<Inp, Error = Er>,
    I: Parser<Inp, Error = Er>,
    J: Parser<Inp, Error = Er>,
    K: Parser<Inp, Error = Er>,
    L: Parser<Inp, Error = Er>,
    M: Parser<Inp, Error = Er>,
    N: Parser<Inp, Error = Er>,
    O: Parser<Inp, Error = Er>,
    P: Parser<Inp, Error = Er>,
    Q: Parser<Inp, Error = Er>,
    R: Parser<Inp, Error = Er>,
    S: Parser<Inp, Error = Er>,
 {
    type Out = (A::Out, B::Out, C::Out, D::Out, E::Out, F::Out, G::Out, H::Out, I::Out, J::Out, K::Out, L::Out, M::Out, N::Out, O::Out, P::Out, Q::Out, R::Out, S::Out);

    type Error = Er;

    open spec fn parse_requires(&self, input: Inp) -> bool {
        seq_requires(self.0, (self.1, self.2, self.3, self.4, self.5, self.6, self.7, self.8, self.9, self.10, self.11, self.12, self.13, self.14, self.15, self.16, self.17, self.18), input)
    }

    open spec fn parse_ensures(&self, input: Inp, res: Result<((A::Out, B::Out, C::Out, D::Out, E::Out, F::Out, G::Out, H::Out, I::Out, J::Out, K::Out, L::Out, M::Out, N::Out, O::Out, P::Out, Q::Out, R::Out, S::Out), Inp), Er>) -> bool {
        match res {
            Ok(((a, b, c, d, e, f, g, h, i, j, k, l, m, n, o, p, q, r, s), rest)) => seq_ok(self.0, (self.1, self.2, self.3, self.4, self.5, self.6, self.7, self.8, self.9, self.10, self.11, self.12, self.13, self.14, self.15, self.16, self.17, self.18), input, a, (b, c, d, e, f, g, h, i, j, k, l, m, n, o, p, q, r, s), rest),
            Err(e) => seq_err(self.0, (self.1, self.2, self.3, self.4, self.5, self.6, self.7, self.8, self.9, self.10, self.11, self.12, self.13, self.14, self.15, self.16, self.17, self.18), input, e),
        }
    }

    fn parse(&self, txt: Inp) -> (res: Result<((A::Out, B::Out, C::Out, D::Out, E::Out, F::Out, G::Out, H::Out, I::Out, J::Out, K::Out, L::Out, M::Out, N::Out, O::Out, P::Out, Q::Out, R::Out, S::Out), Inp), Er>) {
        let ghost t0 = txt;
        let (a, t1) = match self.0.parse(txt) {
            Ok(r) => r,
            Err(e) => return Err(e),
        };
        assert(self.0.parse_ensures(t0, Ok((a, t1))));
        assert((self.1, self.2, self.3, self.4, self.5, self.6, self.7, self.8, self.9, self.10, self.11, self.12, self.13, self.14, self.15, self.16, self.17, self.18).parse_requires(t1));
        let (b, t2) = match self.1.parse(t1) {
            Ok(r) => r,
            Err(e) => {
                assert((self.1, self.2, self.3, self.4, self.5, self.6, self.7, self.8, self.9, self.10, self.11, self.12, self.13, self.14, self.15, self.16, self.17, self.18).parse_ensures(t1, Err(e)));
                return Err(e);
            },
        };
        assert(self.1.parse_ensures(t1, Ok((b, t2))));
        assert((self.2, self.3, self.4, self.5, self.6, self.7, self.8, self.9, self.10, self.11, self.12, self.13, self.14, self.15, self.16, self.17, self.18).parse_requires(t2));
        let (c, t3) = match self.2.parse(t2) {
            Ok(r) => r,
            Err(e) => {
                assert((self.2, self.3, self.4, self.5, self.6, self.7, self.8, self.9, self.10, self.11, self.12, self.13, self.14, self.15, self.16, self.17, self.18).parse_ensures(t2, Err(e)));
                assert((self.1, self.2, self.3, self.4, self.5, self.6, self.7, self.8, self.9, self.10, self.11, self.12, self.13, self.14, self.15, self.16, self.17, self.18).parse_ensures(t1, Err(e)));
                return Err(e);
            },
        };
        assert(self.2.parse_ensures(t2, Ok((c, t3))));
        assert((self.3, self.4, self.5, self.6, self.7, self.8, self.9, self.10, self.11, self.12, self.13, self.14, self.15, self.16, self.17, self.18).parse_requires(t3));
        let (d, t4) = match self.3.parse(t3) {
            Ok(r) => r,
            Err(e) => {
                assert((self.3, self.4, self.5, self.6, self.7, self.8, self.9, self.10, self.11, self.12, self.13, self.14, self.15, self.16, self.17, self.18).parse_ensures(t3, Err(e)));
                assert((self.2, self.3, self.4, self.5, self.6, self.7, self.8, self.9, self.10, self.11, self.12, self.13, self.14, self.15, self.16, self.17, self.18).parse_ensures(t2, Err(e)));
                assert((self.1, self.2, self.3, self.4, self.5, self.6, self.7, self.8, self.9, self.10, self.11, self.12, self.13, self.14, self.15, self.16, self.17, self.18).parse_ensures(t1, Err(e)));
                return Err(e);
            },
        };
        assert(self.3.parse_ensures(t3, Ok((d, t4))));
        assert((self.4, self.5, self.6, self.7, self.8, self.9, self.10, self.11, self.12, self.13, self.14, self.15, self.16, self.17, self.18).parse_requires(t4));
        let (e, t5) = match self.4.parse(t4) {
            Ok(r) => r,
            Err(e) => {
                assert((self.4, self.5, self.6, self.7, self.8, self.9, self.10, self.11, self.12, self.13, self.14, self.15, self.16, self.17, self.18).parse_ensures(t4, Err(e)));
                assert((self.3, self.4, self.5, self.6, self.7, self.8, self.9, self.10, self.11, self.12, self.13, self.14, self.15, self.16, self.17, self.18).parse_ensures(t3, Err(e)));
                assert((self.2, self.3, self.4, self.5, self.6, self.7, self.8, self.9, self.10, self.11, self.12, self.13, self.14, self.15, self.16, self.17, self.18).parse_ensures(t2, Err(e)));
                assert((self.1, self.2, self.3, self.4, self.5, self.6, self.7, self.8, self.9, self.10, self.11, self.12, self.13, self.14, self.15, self.16, self.17, self.18).parse_ensures(t1, Err(e)));
                return Err(e);
            },
        };
        assert(self.4.parse_ensures(t4, Ok((e, t5))));
        assert((self.5, self.6, self.7, self.8, self.9, self.10, self.11, self.12, self.13, self.14, self.15, self.16, self.17, self.18).parse_requires(t5));
        let (f, t6) = match self.5.parse(t5) {
            Ok(r) => r,
            Err(e) => {
                assert((self.5, self.6, self.7, self.8, self.9, self.10, self.11, self.12, self.13, self.14, self.15, self.16, self.17, self.18).parse_ensures(t5, Err(e)));
                assert((self.4, self.5, self.6, self.7, self.8, self.9, self.10, self.11, self.12, self.13, self.14, self.15, self.16, self.17, self.18).parse_ensures(t4, Err(e)));
                assert((self.3, self.4, self.5, self.6, self.7, self.8, self.9, self.10, self.11, self.12, self.13, self.14, self.15, self.16, self.17, self.18).parse_ensures(t3, Err(e)));
                assert((self.2, self.3, self.4, self.5, self.6, self.7, self.8, self.9, self.10, self.11, self.12, self.13, self.14, self.15, self.16, self.17, self.18).parse_ensures(t2, Err(e)));
                assert((self.1, self.2, self.3, self.4, self.5, self.6, self.7, self.8, self.9, self.10, self.11, self.12, self.13, self.14, self.15, self.16, self.17, self.18).parse_ensures(t1, Err(e)));
                return Err(e);
            },
        };
        assert(self.5.parse_ensures(t5, Ok((f, t6))));
        assert((self.6, self.7, self.8, self.9, self.10, self.11, self.12, self.13, self.14, self.15, self.16, self.17, self.18).parse_requires(t6));
        let (g, t7) = match self.6.parse(t6) {
            Ok(r) => r,
            Err(e) => {
                assert((self.6, self.7, self.8, self.9, self.10, self.11, self.12, self.13, self.14, self.15, self.16, self.17, self.18).parse_ensures(t6, Err(e)));
                assert((self.5, self.6, self.7, self.8, self.9, self.10, self.11, self.12, self.13, self.14, self.15, self.16, self.17, self.18).parse_ensures(t5, Err(e)));
                assert((self.4, self.5, self.6, self.7, self.8, self.9, self.10, self.11, self.12, self.13, self.14, self.15, self.16, self.17, self.18).parse_ensures(t4, Err(e)));
                assert((self.3, self.4, self.5, self.6, self.7, self.8, self.9, self.10, self.11, self.12, self.13, self.14, self.15, self.16, self.17, self.18).parse_ensures(t3, Err(e)));
                assert((self.2, self.3, self.4, self.5, self.6, self.7, self.8, self.9, self.10, self.11, self.12, self.13, self.14, self.15, self.16, self.17, self.18).parse_ensures(t2, Err(e)));
                assert((self.1, self.2, self.3, self.4, self.5, self.6, self.7, self.8, self.9, self.10, self.11, self.12, self.13, self.14, self.15, self.16, self.17, self.18).parse_ensures(t1, Err(e)));
                return Err(e);
            },
        };
        assert(self.6.parse_ensures(t6, Ok((g, t7))));
        assert((self.7, self.8, self.9, self.10, self.11, self.12, self.13, self.14, self.15, self.16, self.17, self.18).parse_requires(t7));
        let (h, t8) = match self.7.parse(t7) {
            Ok(r) => r,
            Err(e) => {
                assert((self.7, self.8, self.9, self.10, self.11, self.12, self.13, self.14, self.15, self.16, self.17, self.18).parse_ensures(t7, Err(e)));
                assert((self.6, self.7, self.8, self.9, self.10, self.11, self.12, self.13, self.14, self.15, self.16, self.17, self.18).parse_ensures(t6, Err(e)));
                assert((self.5, self.6, self.7, self.8, self.9, self.10, self.11, self.12, self.13, self.14, self.15, self.16, self.17, self.18).parse_ensures(t5, Err(e)));
                assert((self.4, self.5, self.6, self.7, self.8, self.9, self.10, self.11, self.12, self.13, self.14, self.15, self.16, self.17, self.18).parse_ensures(t4, Err(e)));
                assert((self.3, self.4, self.5, self.6, self.7, self.8, self.9, self.10, self.11, self.12, self.13, self.14, self.15, self.16, self.17, self.18).parse_ensures(t3, Err(e)));
                assert((self.2, self.3, self.4, self.5, self.6, self.7, self.8, self.9, self.10, self.11, self.12, self.13, self.14, self.15, self.16, self.17, self.18).parse_ensures(t2, Err(e)));
                assert((self.1, self.2, self.3, self.4, self.5, self.6, self.7, self.8, self.9, self.10, self.11, self.12, self.13, self.14, self.15, self.16, self.17, self.18).parse_ensures(t1, Err(e)));
                return Err(e);
            },
        };
        assert(self.7.parse_ensures(t7, Ok((h, t8))));
        assert((self.8, self.9, self.10, self.11, self.12, self.13, self.14, self.15, self.16, self.17, self.18).parse_requires(t8));
        let (i, t9) = match self.8.parse(t8) {
            Ok(r) => r,
            Err(e) => {
                assert((self.8, self.9, self.10, self.11, self.12, self.13, self.14, self.15, self.16, self.17, self.18).parse_ensures(t8, Err(e)));
                assert((self.7, self.8, self.9, self.10, self.11, self.12, self.13, self.14, self.15, self.16, self.17, self.18).parse_ensures(t7, Err(e)));
                assert((self.6, self.7, self.8, self.9, self.10, self.11, self.12, self.13, self.14, self.15, self.16, self.17, self.18).parse_ensures(t6, Err(e)));
                assert((self.5, self.6, self.7, self.8, self.9, self.10, self.11, self.12, self.13, self.14, self.15, self.16, self.17, self.18).parse_ensures(t5, Err(e)));
                assert((self.4, self.5, self.6, self.7, self.8, self.9, self.10, self.11, self.12, self.13, self.14, self.15, self.16, self.17, self.18).parse_ensures(t4, Err(e)));
                assert((self.3, self.4, self.5, self.6, self.7, self.8, self.9, self.10, self.11, self.12, self.13, self.14, self.15, self.16, self.17, self.18).parse_ensures(t3, Err(e)));
                assert((self.2, self.3, self.4, self.5, self.6, self.7, self.8, self.9, self.10, self.11, self.12, self.13, self.14, self.15, self.16, self.17, self.18).parse_ensures(t2, Err(e)));
                assert((self.1, self.2, self.3, self.4, self.5, self.6, self.7, self.8, self.9, self.10, self.11, self.12, self.13, self.14, self.15, self.16, self.17, self.18).parse_ensures(t1, Err(e)));
                return Err(e);
            },
        };
        assert(self.8.parse_ensures(t8, Ok((i, t9))));
        assert((self.9, self.10, self.11, self.12, self.13, self.14, self.15, self.16, self.17, self.18).parse_requires(t9));
        let (j, t10) = match self.9.parse(t9) {
            Ok(r) => r,
            Err(e) => {
                assert((self.9, self.10, self.11, self.12, self.13, self.14, self.15, self.16, self.17, self.18).parse_ensures(t9, Err(e)));
                assert((self.8, self.9, self.10, self.11, self.12, self.13, self.14, self.15, self.16, self.17, self.18).parse_ensures(t8, Err(e)));
                assert((self.7, self.8, self.9, self.10, self.11, self.12, self.13, self.14, self.15, self.16, self.17, self.18).parse_ensures(t7, Err(e)));
                assert((self.6, self.7, self.8, self.9, self.10, self.11, self.12, self.13, self.14, self.15, self.16, self.17, self.18).parse_ensures(t6, Err(e)));
                assert((self.5, self.6, self.7, self.8, self.9, self.10, self.11, self.12, self.13, self.14, self.15, self.16, self.17, self.18).parse_ensures(t5, Err(e)));
                assert((self.4, self.5, self.6, self.7, self.8, self.9, self.10, self.11, self.12, self.13, self.14, self.15, self.16, self.17, self.18).parse_ensures(t4, Err(e)));
                assert((self.3, self.4, self.5, self.6, self.7, self.8, self.9, self.10, self.11, self.12, self.13, self.14, self.15, self.16, self.17, self.18).parse_ensures(t3, Err(e)));
                assert((self.2, self.3, self.4, self.5, self.6, self.7, self.8, self.9, self.10, self.11, self.12, self.13, self.14, self.15, self.16, self.17, self.18).parse_ensures(t2, Err(e)));
                assert((self.1, self.2, self.3, self.4, self.5, self.6, self.7, self.8, self.9, self.10, self.11, self.12, self.13, self.14, self.15, self.16, self.17, self.18).parse_ensures(t1, Err(e)));
                return Err(e);
            },
        };
        assert(self.9.parse_ensures(t9, Ok((j, t10))));
        assert((self.10, self.11, self.12, self.13, self.14, self.15, self.16, self.17, self.18).parse_requires(t10));
        let (k, t11) = match self.10.parse(t10) {
            Ok(r) => r,
            Err(e) => {
                assert((self.10, self.11, self.12, self.13, self.14, self.15, self.16, self.17, self.18).parse_ensures(t10, Err(e)));
                assert((self.9, self.10, self.11, self.12, self.13, self.14, self.15, self.16, self.17, self.18).parse_ensures(t9, Err(e)));
                assert((self.8, self.9, self.10, self.11, self.12, self.13, self.14, self.15, self.16, self.17, self.18).parse_ensures(t8, Err(e)));
                assert((self.7, self.8, self.9, self.10, self.11, self.12, self.13, self.14, self.15, self.16, self.17, self.18).parse_ensures(t7, Err(e)));
                assert((self.6, self.7, self.8, self.9, self.10, self.11, self.12, self.13, self.14, self.15, self.16, self.17, self.18).parse_ensures(t6, Err(e)));
                assert((self.5, self.6, self.7, self.8, self.9, self.10, self.11, self.12, self.13, self.14, self.15, self.16, self.17, self.18).parse_ensures(t5, Err(e)));
                assert((self.4, self.5, self.6, self.7, self.8, self.9, self.10, self.11, self.12, self.13, self.14, self.15, self.16, self.17, self.18).parse_ensures(t4, Err(e)));
                assert((self.3, self.4, self.5, self.6, self.7, self.8, self.9, self.10, self.11, self.12, self.13, self.14, self.15, self.16, self.17, self.18).parse_ensures(t3, Err(e)));
                assert((self.2, self.3, self.4, self.5, self.6, self.7, self.8, self.9, self.10, self.11, self.12, self.13, self.14, self.15, self.16, self.17, self.18).parse_ensures(t2, Err(e)));
                assert((self.1, self.2, self.3, self.4, self.5, self.6, self.7, self.8, self.9, self.10, self.11, self.12, self.13, self.14, self.15, self.16, self.17, self.18).parse_ensures(t1, Err(e)));
                return Err(e);
            },
        };
        assert(self.10.parse_ensures(t10, Ok((k, t11))));
        assert((self.11, self.12, self.13, self.14, self.15, self.16, self.17, self.18).parse_requires(t11));
        let (l, t12) = match self.11.parse(t11) {
            Ok(r) => r,
            Err(e) => {
                assert((self.11, self.12, self.13, self.14, self.15, self.16, self.17, self.18).parse_ensures(t11, Err(e)));
                assert((self.10, self.11, self.12, self.13, self.14, self.15, self.16, self.17, self.18).parse_ensures(t10, Err(e)));
                assert((self.9, self.10, self.11, self.12, self.13, self.14, self.15, self.16, self.17, self.18).parse_ensures(t9, Err(e)));
                assert((self.8, self.9, self.10, self.11, self.12, self.13, self.14, self.15, self.16, self.17, self.18).parse_ensures(t8, Err(e)));
                assert((self.7, self.8, self.9, self.10, self.11, self.12, self.13, self.14, self.15, self.16, self.17, self.18).parse_ensures(t7, Err(e)));
                assert((self.6, self.7, self.8, self.9, self.10, self.11, self.12, self.13, self.14, self.15, self.16, self.17, self.18).parse_ensures(t6, Err(e)));
                assert((self.5, self.6, self.7, self.8, self.9, self.10, self.11, self.12, self.13, self.14, self.15, self.16, self.17, self.18).parse_ensures(t5, Err(e)));
                assert((self.4, self.5, self.6, self.7, self.8, self.9, self.10, self.11, self.12, self.13, self.14, self.15, self.16, self.17, self.18).parse_ensures(t4, Err(e)));
                assert((self.3, self.4, self.5, self.6, self.7, self.8, self.9, self.10, self.11, self.12, self.13, self.14, self.15, self.16, self.17, self.18).parse_ensures(t3, Err(e)));
                assert((self.2, self.3, self.4, self.5, self.6, self.7, self.8, self.9, self.10, self.11, self.12, self.13, self.14, self.15, self.16, self.17, self.18).parse_ensures(t2, Err(e)));
                assert((self.1, self.2, self.3, self.4, self.5, self.6, self.7, self.8, self.9, self.10, self.11, self.12, self.13, self.14, self.15, self.16, self.17, self.18).parse_ensures(t1, Err(e)));
                return Err(e);
            },
        };
        assert(self.11.parse_ensures(t11, Ok((l, t12))));
        assert((self.12, self.13, self.14, self.15, self.16, self.17, self.18).parse_requires(t12));
        let (m, t13) = match self.12.parse(t12) {
            Ok(r) => r,
            Err(e) => {
                assert((self.12, self.13, self.14, self.15, self.16, self.17, self.18).parse_ensures(t12, Err(e)));
                assert((self.11, self.12, self.13, self.14, self.15, self.16, self.17, self.18).parse_ensures(t11, Err(e)));
                assert((self.10, self.11, self.12, self.13, self.14, self.15, self.16, self.17, self.18).parse_ensures(t10, Err(e)));
                assert((self.9, self.10, self.11, self.12, self.13, self.14, self.15, self.16, self.17, self.18).parse_ensures(t9, Err(e)));
                assert((self.8, self.9, self.10, self.11, self.12, self.13, self.14, self.15, self.16, self.17, self.18).parse_ensures(t8, Err(e)));
                assert((self.7, self.8, self.9, self.10, self.11, self.12, self.13, self.14, self.15, self.16, self.17, self.18).parse_ensures(t7, Err(e)));
                assert((self.6, self.7, self.8, self.9, self.10, self.11, self.12, self.13, self.14, self.15, self.16, self.17, self.18).parse_ensures(t6, Err(e)));
                assert((self.5, self.6, self.7, self.8, self.9, self.10, self.11, self.12, self.13, self.14, self.15, self.16, self.17, self.18).parse_ensures(t5, Err(e)));
                assert((self.4, self.5, self.6, self.7, self.8, self.9, self.10, self.11, self.12, self.13, self.14, self.15, self.16, self.17, self.18).parse_ensures(t4, Err(e)));
                assert((self.3, self.4, self.5, self.6, self.7, self.8, self.9, self.10, self.11, self.12, self.13, self.14, self.15, self.16, self.17, self.18).parse_ensures(t3, Err(e)));
                assert((self.2, self.3, self.4, self.5, self.6, self.7, self.8, self.9, self.10, self.11, self.12, self.13, self.14, self.15, self.16, self.17, self.18).parse_ensures(t2, Err(e)));
                assert((self.1, self.2, self.3, self.4, self.5, self.6, self.7, self.8, self.9, self.10, self.11, self.12, self.13, self.14, self.15, self.16, self.17, self.18).parse_ensures(t1, Err(e)));
                return Err(e);
            },
        };
        assert(self.12.parse_ensures(t12, Ok((m, t13))));
        assert((self.13, self.14, self.15, self.16, self.17, self.18).parse_requires(t13));
        let (n, t14) = match self.13.parse(t13) {
            Ok(r) => r,
            Err(e) => {
                assert((self.13, self.14, self.15, self.16, self.17, self.18).parse_ensures(t13, Err(e)));
                assert((self.12, self.13, self.14, self.15, self.16, self.17, self.18).parse_ensures(t12, Err(e)));
                assert((self.11, self.12, self.13, self.14, self.15, self.16, self.17, self.18).parse_ensures(t11, Err(e)));
                assert((self.10, self.11, self.12, self.13, self.14, self.15, self.16, self.17, self.18).parse_ensures(t10, Err(e)));
                assert((self.9, self.10, self.11, self.12, self.13, self.14, self.15, self.16, self.17, self.18).parse_ensures(t9, Err(e)));
                assert((self.8, self.9, self.10, self.11, self.12, self.13, self.14, self.15, self.16, self.17, self.18).parse_ensures(t8, Err(e)));
                assert((self.7, self.8, self.9, self.10, self.11, self.12, self.13, self.14, self.15, self.16, self.17, self.18).parse_ensures(t7, Err(e)));
                assert((self.6, self.7, self.8, self.9, self.10, self.11, self.12, self.13, self.14, self.15, self.16, self.17, self.18).parse_ensures(t6, Err(e)));
                assert((self.5, self.6, self.7, self.8, self.9, self.10, self.11, self.12, self.13, self.14, self.15, self.16, self.17, self.18).parse_ensures(t5, Err(e)));
                assert((self.4, self.5, self.6, self.7, self.8, self.9, self.10, self.11, self.12, self.13, self.14, self.15, self.16, self.17, self.18).parse_ensures(t4, Err(e)));
                assert((self.3, self.4, self.5, self.6, self.7, self.8, self.9, self.10, self.11, self.12, self.13, self.14, self.15, self.16, self.17, self.18).parse_ensures(t3, Err(e)));
                assert((self.2, self.3, self.4, self.5, self.6, self.7, self.8, self.9, self.10, self.11, self.12, self.13, self.14, self.15, self.16, self.17, self.18).parse_ensures(t2, Err(e)));
                assert((self.1, self.2, self.3, self.4, self.5, self.6, self.7, self.8, self.9, self.10, self.11, self.12, self.13, self.14, self.15, self.16, self.17, self.18).parse_ensures(t1, Err(e)));
                return Err(e);
            },
        };
        assert(self.13.parse_ensures(t13, Ok((n, t14))));
        assert((self.14, self.15, self.16, self.17, self.18).parse_requires(t14));
        let (o, t15) = match self.14.parse(t14) {
            Ok(r) => r,
            Err(e) => {
                assert((self.14, self.15, self.16, self.17, self.18).parse_ensures(t14, Err(e)));
                assert((self.13, self.14, self.15, self.16, self.17, self.18).parse_ensures(t13, Err(e)));
                assert((self.12, self.13, self.14, self.15, self.16, self.17, self.18).parse_ensures(t12, Err(e)));
                assert((self.11, self.12, self.13, self.14, self.15, self.16, self.17, self.18).parse_ensures(t11, Err(e)));
                assert((self.10, self.11, self.12, self.13, self.14, self.15, self.16, self.17, self.18).parse_ensures(t10, Err(e)));
                assert((self.9, self.10, self.11, self.12, self.13, self.14, self.15, self.16, self.17, self.18).parse_ensures(t9, Err(e)));
                assert((self.8, self.9, self.10, self.11, self.12, self.13, self.14, self.15, self.16, self.17, self.18).parse_ensures(t8, Err(e)));
                assert((self.7, self.8, self.9, self.10, self.11, self.12, self.13, self.14, self.15, self.16, self.17, self.18).parse_ensures(t7, Err(e)));
                assert((self.6, self.7, self.8, self.9, self.10, self.11, self.12, self.13, self.14, self.15, self.16, self.17, self.18).parse_ensures(t6, Err(e)));
                assert((self.5, self.6, self.7, self.8, self.9, self.10, self.11, self.12, self.13, self.14, self.15, self.16, self.17, self.18).parse_ensures(t5, Err(e)));
                assert((self.4, self.5, self.6, self.7, self.8, self.9, self.10, self.11, self.12, self.13, self.14, self.15, self.16, self.17, self.18).parse_ensures(t4, Err(e)));
                assert((self.3, self.4, self.5, self.6, self.7, self.8, self.9, self.10, self.11, self.12, self.13, self.14, self.15, self.16, self.17, self.18).parse_ensures(t3, Err(e)));
                assert((self.2, self.3, self.4, self.5, self.6, self.7, self.8, self.9, self.10, self.11, self.12, self.13, self.14, self.15, self.16, self.17, self.18).parse_ensures(t2, Err(e)));
                assert((self.1, self.2, self.3, self.4, self.5, self.6, self.7, self.8, self.9, self.10, self.11, self.12, self.13, self.14, self.15, self.16, self.17, self.18).parse_ensures(t1, Err(e)));
                return Err(e);
            },
        };
        assert(self.14.parse_ensures(t14, Ok((o, t15))));
        assert((self.15, self.16, self.17, self.18).parse_requires(t15));
        let (p, t16) = match self.15.parse(t15) {
            Ok(r) => r,
            Err(e) => {
                assert((self.15, self.16, self.17, self.18).parse_ensures(t15, Err(e)));
                assert((self.14, self.15, self.16, self.17, self.18).parse_ensures(t14, Err(e)));
                assert((self.13, self.14, self.15, self.16, self.17, self.18).parse_ensures(t13, Err(e)));
                assert((self.12, self.13, self.14, self.15, self.16, self.17, self.18).parse_ensures(t12, Err(e)));
                assert((self.11, self.12, self.13, self.14, self.15, self.16, self.17, self.18).parse_ensures(t11, Err(e)));
                assert((self.10, self.11, self.12, self.13, self.14, self.15, self.16, self.17, self.18).parse_ensures(t10, Err(e)));
                assert((self.9, self.10, self.11, self.12, self.13, self.14, self.15, self.16, self.17, self.18).parse_ensures(t9, Err(e)));
                assert((self.8, self.9, self.10, self.11, self.12, self.13, self.14, self.15, self.16, self.17, self.18).parse_ensures(t8, Err(e)));
                assert((self.7, self.8, self.9, self.10, self.11, self.12, self.13, self.14, self.15, self.16, self.17, self.18).parse_ensures(t7, Err(e)));
                assert((self.6, self.7, self.8, self.9, self.10, self.11, self.12, self.13, self.14, self.15, self.16, self.17, self.18).parse_ensures(t6, Err(e)));
                assert((self.5, self.6, self.7, self.8, self.9, self.10, self.11, self.12, self.13, self.14, self.15, self.16, self.17, self.18).parse_ensures(t5, Err(e)));
                assert((self.4, self.5, self.6, self.7, self.8, self.9, self.10, self.11, self.12, self.13, self.14, self.15, self.16, self.17, self.18).parse_ensures(t4, Err(e)));
                assert((self.3, self.4, self.5, self.6, self.7, self.8, self.9, self.10, self.11, self.12, self.13, self.14, self.15, self.16, self.17, self.18).parse_ensures(t3, Err(e)));
                assert((self.2, self.3, self.4, self.5, self.6, self.7, self.8, self.9, self.10, self.11, self.12, self.13, self.14, self.15, self.16, self.17, self.18).parse_ensures(t2, Err(e)));
                assert((self.1, self.2, self.3, self.4, self.5, self.6, self.7, self.8, self.9, self.10, self.11, self.12, self.13, self.14, self.15, self.16, self.17, self.18).parse_ensures(t1, Err(e)));
                return Err(e);
            },
        };
        assert(self.15.parse_ensures(t15, Ok((p, t16))));
        assert((self.16, self.17, self.18).parse_requires(t16));
        let (q, t17) = match self.16.parse(t16) {
            Ok(r) => r,
            Err(e) => {
                assert((self.16, self.17, self.18).parse_ensures(t16, Err(e)));
                assert((self.15, self.16, self.17, self.18).parse_ensures(t15, Err(e)));
                assert((self.14, self.15, self.16, self.17, self.18).parse_ensures(t14, Err(e)));
                assert((self.13, self.14, self.15, self.16, self.17, self.18).parse_ensures(t13, Err(e)));
                assert((self.12, self.13, self.14, self.15, self.16, self.17, self.18).parse_ensures(t12, Err(e)));
                assert((self.11, self.12, self.13, self.14, self.15, self.16, self.17, self.18).parse_ensures(t11, Err(e)));
                assert((self.10, self.11, self.12, self.13, self.14, self.15, self.16, self.17, self.18).parse_ensures(t10, Err(e)));
                assert((self.9, self.10, self.11, self.12, self.13, self.14, self.15, self.16, self.17, self.18).parse_ensures(t9, Err(e)));
                assert((self.8, self.9, self.10, self.11, self.12, self.13, self.14, self.15, self.16, self.17, self.18).parse_ensures(t8, Err(e)));
                assert((self.7, self.8, self.9, self.10, self.11, self.12, self.13, self.14, self.15, self.16, self.17, self.18).parse_ensures(t7, Err(e)));
                assert((self.6, self.7, self.8, self.9, self.10, self.11, self.12, self.13, self.14, self.15, self.16, self.17, self.18).parse_ensures(t6, Err(e)));
                assert((self.5, self.6, self.7, self.8, self.9, self.10, self.11, self.12, self.13, self.14, self.15, self.16, self.17, self.18).parse_ensures(t5, Err(e)));
                assert((self.4, self.5, self.6, self.7, self.8, self.9, self.10, self.11, self.12, self.13, self.14, self.15, self.16, self.17, self.18).parse_ensures(t4, Err(e)));
                assert((self.3, self.4, self.5, self.6, self.7, self.8, self.9, self.10, self.11, self.12, self.13, self.14, self.15, self.16, self.17, self.18).parse_ensures(t3, Err(e)));
                assert((self.2, self.3, self.4, self.5, self.6, self.7, self.8, self.9, self.10, self.11, self.12, self.13, self.14, self.15, self.16, self.17, self.18).parse_ensures(t2, Err(e)));
                assert((self.1, self.2, self.3, self.4, self.5, self.6, self.7, self.8, self.9, self.10, self.11, self.12, self.13, self.14, self.15, self.16, self.17, self.18).parse_ensures(t1, Err(e)));
                return Err(e);
            },
        };
        assert(self.16.parse_ensures(t16, Ok((q, t17))));
        assert((self.17, self.18).parse_requires(t17));
        let (r, t18) = match self.17.parse(t17) {
            Ok(r) => r,
            Err(e) => {
                assert((self.17, self.18).parse_ensures(t17, Err(e)));
                assert((self.16, self.17, self.18).parse_ensures(t16, Err(e)));
                assert((self.15, self.16, self.17, self.18).parse_ensures(t15, Err(e)));
                assert((self.14, self.15, self.16, self.17, self.18).parse_ensures(t14, Err(e)));
                assert((self.13, self.14, self.15, self.16, self.17, self.18).parse_ensures(t13, Err(e)));
                assert((self.12, self.13, self.14, self.15, self.16, self.17, self.18).parse_ensures(t12, Err(e)));
                assert((self.11, self.12, self.13, self.14, self.15, self.16, self.17, self.18).parse_ensures(t11, Err(e)));
                assert((self.10, self.11, self.12, self.13, self.14, self.15, self.16, self.17, self.18).parse_ensures(t10, Err(e)));
                assert((self.9, self.10, self.11, self.12, self.13, self.14, self.15, self.16, self.17, self.18).parse_ensures(t9, Err(e)));
                assert((self.8, self.9, self.10, self.11, self.12, self.13, self.14, self.15, self.16, self.17, self.18).parse_ensures(t8, Err(e)));
                assert((self.7, self.8, self.9, self.10, self.11, self.12, self.13, self.14, self.15, self.16, self.17, self.18).parse_ensures(t7, Err(e)));
                assert((self.6, self.7, self.8, self.9, self.10, self.11, self.12, self.13, self.14, self.15, self.16, self.17, self.18).parse_ensures(t6, Err(e)));
                assert((self.5, self.6, self.7, self.8, self.9, self.10, self.11, self.12, self.13, self.14, self.15, self.16, self.17, self.18).parse_ensures(t5, Err(e)));
                assert((self.4, self.5, self.6, self.7, self.8, self.9, self.10, self.11, self.12, self.13, self.14, self.15, self.16, self.17, self.18).parse_ensures(t4, Err(e)));
                assert((self.3, self.4, self.5, self.6, self.7, self.8, self.9, self.10, self.11, self.12, self.13, self.14, self.15, self.16, self.17, self.18).parse_ensures(t3, Err(e)));
                assert((self.2, self.3, self.4, self.5, self.6, self.7, self.8, self.9, self.10, self.11, self.12, self.13, self.14, self.15, self.16, self.17, self.18).parse_ensures(t2, Err(e)));
                assert((self.1, self.2, self.3, self.4, self.5, self.6, self.7, self.8, self.9, self.10, self.11, self.12, self.13, self.14, self.15, self.16, self.17, self.18).parse_ensures(t1, Err(e)));
                return Err(e);
            },
        };
        assert(self.17.parse_ensures(t17, Ok((r, t18))));
        let (s, t19) = match self.18.parse(t18) {
            Ok(r) => r,
            Err(e) => {
                assert((self.17, self.18).parse_ensures(t17, Err(e)));
                assert((self.16, self.17, self.18).parse_ensures(t16, Err(e)));
                assert((self.15, self.16, self.17, self.18).parse_ensures(t15, Err(e)));
                assert((self.14, self.15, self.16, self.17, self.18).parse_ensures(t14, Err(e)));
                assert((self.13, self.14, self.15, self.16, self.17, self.18).parse_ensures(t13, Err(e)));
                assert((self.12, self.13, self.14, self.15, self.16, self.17, self.18).parse_ensures(t12, Err(e)));
                assert((self.11, self.12, self.13, self.14, self.15, self.16, self.17, self.18).parse_ensures(t11, Err(e)));
                assert((self.10, self.11, self.12, self.13, self.14, self.15, self.16, self.17, self.18).parse_ensures(t10, Err(e)));
                assert((self.9, self.10, self.11, self.12, self.13, self.14, self.15, self.16, self.17, self.18).parse_ensures(t9, Err(e)));
                assert((self.8, self.9, self.10, self.11, self.12, self.13, self.14, self.15, self.16, self.17, self.18).parse_ensures(t8, Err(e)));
                assert((self.7, self.8, self.9, self.10, self.11, self.12, self.13, self.14, self.15, self.16, self.17, self.18).parse_ensures(t7, Err(e)));
                assert((self.6, self.7, self.8, self.9, self.10, self.11, self.12, self.13, self.14, self.15, self.16, self.17, self.18).parse_ensures(t6, Err(e)));
                assert((self.5, self.6, self.7, self.8, self.9, self.10, self.11, self.12, self.13, self.14, self.15, self.16, self.17, self.18).parse_ensures(t5, Err(e)));
                assert((self.4, self.5, self.6, self.7, self.8, self.9, self.10, self.11, self.12, self.13, self.14, self.15, self.16, self.17, self.18).parse_ensures(t4, Err(e)));
                assert((self.3, self.4, self.5, self.6, self.7, self.8, self.9, self.10, self.11, self.12, self.13, self.14, self.15, self.16, self.17, self.18).parse_ensures(t3, Err(e)));
                assert((self.2, self.3, self.4, self.5, self.6, self.7, self.8, self.9, self.10, self.11, self.12, self.13, self.14, self.15, self.16, self.17, self.18).parse_ensures(t2, Err(e)));
                assert((self.1, self.2, self.3, self.4, self.5, self.6, self.7, self.8, self.9, self.10, self.11, self.12, self.13, self.14, self.15, self.16, self.17, self.18).parse_ensures(t1, Err(e)));
                return Err(e);
            },
        };
        assert((self.17, self.18).parse_ensures(t17, Ok(((r, s), t19))));
        assert((self.16, self.17, self.18).parse_ensures(t16, Ok(((q, r, s), t19))));
        assert((self.15, self.16, self.17, self.18).parse_ensures(t15, Ok(((p, q, r, s), t19))));
        assert((self.14, self.15, self.16, self.17, self.18).parse_ensures(t14, Ok(((o, p, q, r, s), t19))));
        assert((self.13, self.14, self.15, self.16, self.17, self.18).parse_ensures(t13, Ok(((n, o, p, q, r, s), t19))));
        assert((self.12, self.13, self.14, self.15, self.16, self.17, self.18).parse_ensures(t12, Ok(((m, n, o, p, q, r, s), t19))));
        assert((self.11, self.12, self.13, self.14, self.15, self.16, self.17, self.18).parse_ensures(t11, Ok(((l, m, n, o, p, q, r, s), t19))));
        assert((self.10, self.11, self.12, self.13, self.14, self.15, self.16, self.17, self.18).parse_ensures(t10, Ok(((k, l, m, n, o, p, q, r, s), t19))));
        assert((self.9, self.10, self.11, self.12, self.13, self.14, self.15, self.16, self.17, self.18).parse_ensures(t9, Ok(((j, k, l, m, n, o, p, q, r, s), t19))));
        assert((self.8, self.9, self.10, self.11, self.12, self.13, self.14, self.15, self.16, self.17, self.18).parse_ensures(t8, Ok(((i, j, k, l, m, n, o, p, q, r, s), t19))));
        assert((self.7, self.8, self.9, self.10, self.11, self.12, self.13, self.14, self.15, self.16, self.17, self.18).parse_ensures(t7, Ok(((h, i, j, k, l, m, n, o, p, q, r, s), t19))));
        assert((self.6, self.7, self.8, self.9, self.10, self.11, self.12, self.13, self.14, self.15, self.16, self.17, self.18).parse_ensures(t6, Ok(((g, h, i, j, k, l, m, n, o, p, q, r, s), t19))));
        assert((self.5, self.6, self.7, self.8, self.9, self.10, self.11, self.12, self.13, self.14, self.15, self.16, self.17, self.18).parse_ensures(t5, Ok(((f, g, h, i, j, k, l, m, n, o, p, q, r, s), t19))));
        assert((self.4, self.5, self.6, self.7, self.8, self.9, self.10, self.11, self.12, self.13, self.14, self.15, self.16, self.17, self.18).parse_ensures(t4, Ok(((e, f, g, h, i, j, k, l, m, n, o, p, q, r, s), t19))));
        assert((self.3, self.4, self.5, self.6, self.7, self.8, self.9, self.10, self.11, self.12, self.13, self.14, self.15, self.16, self.17, self.18).parse_ensures(t3, Ok(((d, e, f, g, h, i, j, k, l, m, n, o, p, q, r, s), t19))));
        assert((self.2, self.3, self.4, self.5, self.6, self.7, self.8, self.9, self.10, self.11, self.12, self.13, self.14, self.15, self.16, self.17, self.18).parse_ensures(t2, Ok(((c, d, e, f, g, h, i, j, k, l, m, n, o, p, q, r, s), t19))));
        assert((self.1, self.2, self.3, self.4, self.5, self.6, self.7, self.8, self.9, self.10, self.11, self.12, self.13, self.14, self.15, self.16, self.17, self.18).parse_ensures(t1, Ok(((b, c, d, e, f, g, h, i, j, k, l, m, n, o, p, q, r, s), t19))));
        Ok(((a, b, c, d, e, f, g, h, i, j, k, l, m, n, o, p, q, r, s), t19))
    }
}

/// A tuple of 19 deterministic parsers is deterministic.
pub proof fn lemma_tuple19_deterministic<Inp, Er, A, B, C, D, E, F, G, H, I, J, K, L, M, N, O, P, Q, R, S>(t: (A, B, C, D, E, F, G, H, I, J, K, L, M, N, O, P, Q, R, S))
    where
        A: Parser<Inp, Error = Er>,
        B: Parser<Inp, Error = Er>,
        C: Parser<Inp, Error = Er>,
        D: Parser<Inp, Error = Er>,
        E: Parser<Inp, Error = Er>,
        F: Parser<Inp, Error = Er>,
        G: Parser<Inp, Error = Er>,
        H: Parser<Inp, Error = Er>,
        I: Parser<Inp, Error = Er>,
        J: Parser<Inp, Error = Er>,
        K: Parser<Inp, Error = Er>,
        L: Parser<Inp, Error = Er>,
        M: Parser<Inp, Error = Er>,
        N: Parser<Inp, Error = Er>,
        O: Parser<Inp, Error = Er>,
        P: Parser<Inp, Error = Er>,
        Q: Parser<Inp, Error = Er>,
        R: Parser<Inp, Error = Er>,
        S: Parser<Inp, Error = Er>,
    requires
        deterministic::<Inp, A>(t.0),
        deterministic::<Inp, B>(t.1),
        deterministic::<Inp, C>(t.2),
        deterministic::<Inp, D>(t.3),
        deterministic::<Inp, E>(t.4),
        deterministic::<Inp, F>(t.5),
        deterministic::<Inp, G>(t.6),
        deterministic::<Inp, H>(t.7),
        deterministic::<Inp, I>(t.8),
        deterministic::<Inp, J>(t.9),
        deterministic::<Inp, K>(t.10),
        deterministic::<Inp, L>(t.11),
        deterministic::<Inp, M>(t.12),
        deterministic::<Inp, N>(t.13),
        deterministic::<Inp, O>(t.14),
        deterministic::<Inp, P>(t.15),
        deterministic::<Inp, Q>(t.16),
        deterministic::<Inp, R>(t.17),
        deterministic::<Inp, S>(t.18),
    ensures
        deterministic::<Inp, (A, B, C, D, E, F, G, H, I, J, K, L, M, N, O, P, Q, R, S)>(t),
{
    lemma_tuple18_deterministic::<Inp, Er, B, C, D, E, F, G, H, I, J, K, L, M, N, O, P, Q, R, S>((t.1, t.2, t.3, t.4, t.5, t.6, t.7, t.8, t.9, t.10, t.11, t.12, t.13, t.14, t.15, t.16, t.17, t.18));
    lemma_seq_unique::<Inp, A, (B, C, D, E, F, G, H, I, J, K, L, M, N, O, P, Q, R, S)>(t.0, (t.1, t.2, t.3, t.4, t.5, t.6, t.7, t.8, t.9, t.10, t.11, t.12, t.13, t.14, t.15, t.16, t.17, t.18));
}

/// A tuple of 20 parsers sharing one error type runs them in order.
impl<Inp, Er, A, B, C, D, E, F, G, H, I, J, K, L, M, N, O, P, Q, R, S, T> Parser<Inp> for (A, B, C, D, E, F, G, H, I, J, K, L, M, N, O, P, Q, R, S, T) where
    A: Parser<Inp, Error = Er>,
    B: Parser<Inp, Error = Er>,
    C: Parser<Inp, Error = Er>,
    D: Parser<Inp, Error = Er>,
    E: Parser<Inp, Error = Er>,
    F: Parser<Inp, Error = Er>,
    G: Parser<Inp, Error = Er>,
    H: Parser<Inp, Error = Er>,
    I: Parser<Inp, Error = Er>,
    J: Parser<Inp, Error = Er>,
    K: Parser<Inp, Error = Er>,
    L: Parser<Inp, Error = Er>,
    M: Parser<Inp, Error = Er>,
    N: Parser<Inp, Error = Er>,
    O: Parser<Inp, Error = Er>,
    P: Parser<Inp, Error = Er>,
    Q: Parser<Inp, Error = Er>,
    R: Parser<Inp, Error = Er>,
    S: Parser<Inp, Error = Er>,
    T: Parser<Inp, Error = Er>,
 {
    type Out = (A::Out, B::Out, C::Out, D::Out, E::Out, F::Out, G::Out, H::Out, I::Out, J::Out, K::Out, L::Out, M::Out, N::Out, O::Out, P::Out, Q::Out, R::Out, S::Out, T::Out);

    type Error = Er;

    open spec fn parse_requires(&self, input: Inp) -> bool {
        seq_requires(self.0, (self.1, self.2, self.3, self.4, self.5, self.6, self.7, self.8, self.9, self.10, self.11, self.12, self.13, self.14, self.15, self.16, self.17, self.18, self.19), input)
    }

    open spec fn parse_ensures(&self, input: Inp, res: Result<((A::Out, B::Out, C::Out, D::Out, E::Out, F::Out, G::Out, H::Out, I::Out, J::Out, K::Out, L::Out, M::Out, N::Out, O::Out, P::Out, Q::Out, R::Out, S::Out, T::Out), Inp), Er>) -> bool {
        match res {
            Ok(((a, b, c, d, e, f, g, h, i, j, k, l, m, n, o, p, q, r, s, t), rest)) => seq_ok(self.0, (self.1, self.2, self.3, self.4, self.5, self.6, self.7, self.8, self.9, self.10, self.11, self.12, self.13, self.14, self.15, self.16, self.17, self.18, self.19), input, a, (b, c, d, e, f, g, h, i, j, k, l, m, n, o, p, q, r, s, t), rest),
            Err(e) => seq_err(self.0, (self.1, self.2, self.3, self.4, self.5, self.6, self.7, self.8, self.9, self.10, self.11, self.12, self.13, self.14, self.15, self.16, self.17, self.18, self.19), input, e),
        }
    }

    fn parse(&self, txt: Inp) -> (res: Result<((A::Out, B::Out, C::Out, D::Out, E::Out, F::Out, G::Out, H::Out, I::Out, J::Out, K::Out, L::Out, M::Out, N::Out, O::Out, P::Out, Q::Out, R::Out, S::Out, T::Out), Inp), Er>) {
        let ghost t0 = txt;
        let (a, t1) = match self.0.parse(txt) {
            Ok(r) => r,
            Err(e) => return Err(e),
        };
        assert(self.0.parse_ensures(t0, Ok((a, t1))));
        assert((self.1, self.2, self.3, self.4, self.5, self.6, self.7, self.8, self.9, self.10, self.11, self.12, self.13, self.14, self.15, self.16, self.17, self.18, self.19).parse_requires(t1));
        let (b, t2) = match self.1.parse(t1) {
            Ok(r) => r,
            Err(e) => {
                assert((self.1, self.2, self.3, self.4, self.5, self.6, self.7, self.8, self.9, self.10, self.11, self.12, self.13, self.14, self.15, self.16, self.17, self.18, self.19).parse_ensures(t1, Err(e)));
                return Err(e);
            },
        };
        assert(self.1.parse_ensures(t1, Ok((b, t2))));
        assert((self.2, self.3, self.4, self.5, self.6, self.7, self.8, self.9, self.10, self.11, self.12, self.13, self.14, self.15, self.16, self.17, self.18, self.19).parse_requires(t2));
        let (c, t3) = match self.2.parse(t2) {
            Ok(r) => r,
            Err(e) => {
                assert((self.2, self.3, self.4, self.5, self.6, self.7, self.8, self.9, self.10, self.11, self.12, self.13, self.14, self.15, self.16, self.17, self.18, self.19).parse_ensures(t2, Err(e)));
                assert((self.1, self.2, self.3, self.4, self.5, self.6, self.7, self.8, self.9, self.10, self.11, self.12, self.13, self.14, self.15, self.16, self.17, self.18, self.19).parse_ensures(t1, Err(e)));
                return Err(e);
            },
        };
        assert(self.2.parse_ensures(t2, Ok((c, t3))));
        assert((self.3, self.4, self.5, self.6, self.7, self.8, self.9, self.10, self.11, self.12, self.13, self.14, self.15, self.16, self.17, self.18, self.19).parse_requires(t3));
        let (d, t4) = match self.3.parse(t3) {
            Ok(r) => r,
            Err(e) => {
                assert((self.3, self.4, self.5, self.6, self.7, self.8, self.9, self.10, self.11, self.12, self.13, self.14, self.15, self.16, self.17, self.18, self.19).parse_ensures(t3, Err(e)));
                assert((self.2, self.3, self.4, self.5, self.6, self.7, self.8, self.9, self.10, self.11, self.12, self.13, self.14, self.15, self.16, self.17, self.18, self.19).parse_ensures(t2, Err(e)));
                assert((self.1, self.2, self.3, self.4, self.5, self.6, self.7, self.8, self.9, self.10, self.11, self.12, self.13, self.14, self.15, self.16, self.17, self.18, self.19).parse_ensures(t1, Err(e)));
                return Err(e);
            },
        };
        assert(self.3.parse_ensures(t3, Ok((d, t4))));
        assert((self.4, self.5, self.6, self.7, self.8, self.9, self.10, self.11, self.12, self.13, self.14, self.15, self.16, self.17, self.18, self.19).parse_requires(t4));
        let (e, t5) = match self.4.parse(t4) {
            Ok(r) => r,
            Err(e) => {
                assert((self.4, self.5, self.6, self.7, self.8, self.9, self.10, self.11, self.12, self.13, self.14, self.15, self.16, self.17, self.18, self.19).parse_ensures(t4, Err(e)));
                assert((self.3, self.4, self.5, self.6, self.7, self.8, self.9, self.10, self.11, self.12, self.13, self.14, self.15, self.16, self.17, self.18, self.19).parse_ensures(t3, Err(e)));
                assert((self.2, self.3, self.4, self.5, self.6, self.7, self.8, self.9, self.10, self.11, self.12, self.13, self.14, self.15, self.16, self.17, self.18, self.19).parse_ensures(t2, Err(e)));
                assert((self.1, self.2, self.3, self.4, self.5, self.6, self.7, self.8, self.9, self.10, self.11, self.12, self.13, self.14, self.15, self.16, self.17, self.18, self.19).parse_ensures(t1, Err(e)));
                return Err(e);
            },
        };
        assert(self.4.parse_ensures(t4, Ok((e, t5))));
        assert((self.5, self.6, self.7, self.8, self.9, self.10, self.11, self.12, self.13, self.14, self.15, self.16, self.17, self.18, self.19).parse_requires(t5));
        let (f, t6) = match self.5.parse(t5) {
            Ok(r) => r,
            Err(e) => {
                assert((self.5, self.6, self.7, self.8, self.9, self.10, self.11, self.12, self.13, self.14, self.15, self.16, self.17, self.18, self.19).parse_ensures(t5, Err(e)));
                assert((self.4, self.5, self.6, self.7, self.8, self.9, self.10, self.11, self.12, self.13, self.14, self.15, self.16, self.17, self.18, self.19).parse_ensures(t4, Err(e)));
                assert((self.3, self.4, self.5, self.6, self.7, self.8, self.9, self.10, self.11, self.12, self.13, self.14, self.15, self.16, self.17, self.18, self.19).parse_ensures(t3, Err(e)));
                assert((self.2, self.3, self.4, self.5, self.6, self.7, self.8, self.9, self.10, self.11, self.12, self.13, self.14, self.15, self.16, self.17, self.18, self.19).parse_ensures(t2, Err(e)));
                assert((self.1, self.2, self.3, self.4, self.5, self.6, self.7, self.8, self.9, self.10, self.11, self.12, self.13, self.14, self.15, self.16, self.17, self.18, self.19).parse_ensures(t1, Err(e)));
                return Err(e);
            },
        };
        assert(self.5.parse_ensures(t5, Ok((f, t6))));
        assert((self.6, self.7, self.8, self.9, self.10, self.11, self.12, self.13, self.14, self.15, self.16, self.17, self.18, self.19).parse_requires(t6));
        let (g, t7) = match self.6.parse(t6) {
            Ok(r) => r,
            Err(e) => {
                assert((self.6, self.7, self.8, self.9, self.10, self.11, self.12, self.13, self.14, self.15, self.16, self.17, self.18, self.19).parse_ensures(t6, Err(e)));
                assert((self.5, self.6, self.7, self.8, self.9, self.10, self.11, self.12, self.13, self.14, self.15, self.16, self.17, self.18, self.19).parse_ensures(t5, Err(e)));
                assert((self.4, self.5, self.6, self.7, self.8, self.9, self.10, self.11, self.12, self.13, self.14, self.15, self.16, self.17, self.18, self.19).parse_ensures(t4, Err(e)));
                assert((self.3, self.4, self.5, self.6, self.7, self.8, self.9, self.10, self.11, self.12, self.13, self.14, self.15, self.16, self.17, self.18, self.19).parse_ensures(t3, Err(e)));
                assert((self.2, self.3, self.4, self.5, self.6, self.7, self.8, self.9, self.10, self.11, self.12, self.13, self.14, self.15, self.16, self.17, self.18, self.19).parse_ensures(t2, Err(e)));
                assert((self.1, self.2, self.3, self.4, self.5, self.6, self.7, self.8, self.9, self.10, self.11, self.12, self.13, self.14, self.15, self.16, self.17, self.18, self.19).parse_ensures(t1, Err(e)));
                return Err(e);
            },
        };
        assert(self.6.parse_ensures(t6, Ok((g, t7))));
        assert((self.7, self.8, self.9, self.10, self.11, self.12, self.13, self.14, self.15, self.16, self.17, self.18, self.19).parse_requires(t7));
        let (h, t8) = match self.7.parse(t7) {
            Ok(r) => r,
            Err(e) => {
                assert((self.7, self.8, self.9, self.10, self.11, self.12, self.13, self.14, self.15, self.16, self.17, self.18, self.19).parse_ensures(t7, Err(e)));
                assert((self.6, self.7, self.8, self.9, self.10, self.11, self.12, self.13, self.14, self.15, self.16, self.17, self.18, self.19).parse_ensures(t6, Err(e)));
                assert((self.5, self.6, self.7, self.8, self.9, self.10, self.11, self.12, self.13, self.14, self.15, self.16, self.17, self.18, self.19).parse_ensures(t5, Err(e)));
                assert((self.4, self.5, self.6, self.7, self.8, self.9, self.10, self.11, self.12, self.13, self.14, self.15, self.16, self.17, self.18, self.19).parse_ensures(t4, Err(e)));
                assert((self.3, self.4, self.5, self.6, self.7, self.8, self.9, self.10, self.11, self.12, self.13, self.14, self.15, self.16, self.17, self.18, self.19).parse_ensures(t3, Err(e)));
                assert((self.2, self.3, self.4, self.5, self.6, self.7, self.8, self.9, self.10, self.11, self.12, self.13, self.14, self.15, self.16, self.17, self.18, self.19).parse_ensures(t2, Err(e)));
                assert((self.1, self.2, self.3, self.4, self.5, self.6, self.7, self.8, self.9, self.10, self.11, self.12, self.13, self.14, self.15, self.16, self.17, self.18, self.19).parse_ensures(t1, Err(e)));
                return Err(e);
            },
        };
        assert(self.7.parse_ensures(t7, Ok((h, t8))));
        assert((self.8, self.9, self.10, self.11, self.12, self.13, self.14, self.15, self.16, self.17, self.18, self.19).parse_requires(t8));
        let (i, t9) = match self.8.parse(t8) {
            Ok(r) => r,
            Err(e) => {
                assert((self.8, self.9, self.10, self.11, self.12, self.13, self.14, self.15, self.16, self.17, self.18, self.19).parse_ensures(t8, Err(e)));
                assert((self.7, self.8, self.9, self.10, self.11, self.12, self.13, self.14, self.15, self.16, self.17, self.18, self.19).parse_ensures(t7, Err(e)));
                assert((self.6, self.7, self.8, self.9, self.10, self.11, self.12, self.13, self.14, self.15, self.16, self.17, self.18, self.19).parse_ensures(t6, Err(e)));
                assert((self.5, self.6, self.7, self.8, self.9, self.10, self.11, self.12, self.13, self.14, self.15, self.16, self.17, self.18, self.19).parse_ensures(t5, Err(e)));
                assert((self.4, self.5, self.6, self.7, self.8, self.9, self.10, self.11, self.12, self.13, self.14, self.15, self.16, self.17, self.18, self.19).parse_ensures(t4, Err(e)));
                assert((self.3, self.4, self.5, self.6, self.7, self.8, self.9, self.10, self.11, self.12, self.13, self.14, self.15, self.16, self.17, self.18, self.19).parse_ensures(t3, Err(e)));
                assert((self.2, self.3, self.4, self.5, self.6, self.7, self.8, self.9, self.10, self.11, self.12, self.13, self.14, self.15, self.16, self.17, self.18, self.19).parse_ensures(t2, Err(e)));
                assert((self.1, self.2, self.3, self.4, self.5, self.6, self.7, self.8, self.9, self.10, self.11, self.12, self.13, self.14, self.15, self.16, self.17, self.18, self.19).parse_ensures(t1, Err(e)));
                return Err(e);
            },
        };
        assert(self.8.parse_ensures(t8, Ok((i, t9))));
        assert((self.9, self.10, self.11, self.12, self.13, self.14, self.15, self.16, self.17, self.18, self.19).parse_requires(t9));
        let (j, t10) = match self.9.parse(t9) {
            Ok(r) => r,
            Err(e) => {
                assert((self.9, self.10, self.11, self.12, self.13, self.14, self.15, self.16, self.17, self.18, self.19).parse_ensures(t9, Err(e)));
                assert((self.8, self.9, self.10, self.11, self.12, self.13, self.14, self.15, self.16, self.17, self.18, self.19).parse_ensures(t8, Err(e)));
                assert((self.7, self.8, self.9, self.10, self.11, self.12, self.13, self.14, self.15, self.16, self.17, self.18, self.19).parse_ensures(t7, Err(e)));
                assert((self.6, self.7, self.8, self.9, self.10, self.11, self.12, self.13, self.14, self.15, self.16, self.17, self.18, self.19).parse_ensures(t6, Err(e)));
                assert((self.5, self.6, self.7, self.8, self.9, self.10, self.11, self.12, self.13, self.14, self.15, self.16, self.17, self.18, self.19).parse_ensures(t5, Err(e)));
                assert((self.4, self.5, self.6, self.7, self.8, self.9, self.10, self.11, self.12, self.13, self.14, self.15, self.16, self.17, self.18, self.19).parse_ensures(t4, Err(e)));
                assert((self.3, self.4, self.5, self.6, self.7, self.8, self.9, self.10, self.11, self.12, self.13, self.14, self.15, self.16, self.17, self.18, self.19).parse_ensures(t3, Err(e)));
                assert((self.2, self.3, self.4, self.5, self.6, self.7, self.8, self.9, self.10, self.11, self.12, self.13, self.14, self.15, self.16, self.17, self.18, self.19).parse_ensures(t2, Err(e)));
                assert((self.1, self.2, self.3, self.4, self.5, self.6, self.7, self.8, self.9, self.10, self.11, self.12, self.13, self.14, self.15, self.16, self.17, self.18, self.19).parse_ensures(t1, Err(e)));
                return Err(e);
            },
        };
        assert(self.9.parse_ensures(t9, Ok((j, t10))));
        assert((self.10, self.11, self.12, self.13, self.14, self.15, self.16, self.17, self.18, self.19).parse_requires(t10));
        let (k, t11) = match self.10.parse(t10) {
            Ok(r) => r,
            Err(e) => {
                assert((self.10, self.11, self.12, self.13, self.14, self.15, self.16, self.17, self.18, self.19).parse_ensures(t10, Err(e)));
                assert((self.9, self.10, self.11, self.12, self.13, self.14, self.15, self.16, self.17, self.18, self.19).parse_ensures(t9, Err(e)));
                assert((self.8, self.9, self.10, self.11, self.12, self.13, self.14, self.15, self.16, self.17, self.18, self.19).parse_ensures(t8, Err(e)));
                assert((self.7, self.8, self.9, self.10, self.11, self.12, self.13, self.14, self.15, self.16, self.17, self.18, self.19).parse_ensures(t7, Err(e)));
                assert((self.6, self.7, self.8, self.9, self.10, self.11, self.12, self.13, self.14, self.15, self.16, self.17, self.18, self.19).parse_ensures(t6, Err(e)));
                assert((self.5, self.6, self.7, self.8, self.9, self.10, self.11, self.12, self.13, self.14, self.15, self.16, self.17, self.18, self.19).parse_ensures(t5, Err(e)));
                assert((self.4, self.5, self.6, self.7, self.8, self.9, self.10, self.11, self.12, self.13, self.14, self.15, self.16, self.17, self.18, self.19).parse_ensures(t4, Err(e)));
                assert((self.3, self.4, self.5, self.6, self.7, self.8, self.9, self.10, self.11, self.12, self.13, self.14, self.15, self.16, self.17, self.18, self.19).parse_ensures(t3, Err(e)));
                assert((self.2, self.3, self.4, self.5, self.6, self.7, self.8, self.9, self.10, self.11, self.12, self.13, self.14, self.15, self.16, self.17, self.18, self.19).parse_ensures(t2, Err(e)));
                assert((self.1, self.2, self.3, self.4, self.5, self.6, self.7, self.8, self.9, self.10, self.11, self.12, self.13, self.14, self.15, self.16, self.17, self.18, self.19).parse_ensures(t1, Err(e)));
                return Err(e);
            },
        };
        assert(self.10.parse_ensures(t10, Ok((k, t11))));
        assert((self.11, self.12, self.13, self.14, self.15, self.16, self.17, self.18, self.19).parse_requires(t11));
        let (l, t12) = match self.11.parse(t11) {
            Ok(r) => r,
            Err(e) => {
                assert((self.11, self.12, self.13, self.14, self.15, self.16, self.17, self.18, self.19).parse_ensures(t11, Err(e)));
                assert((self.10, self.11, self.12, self.13, self.14, self.15, self.16, self.17, self.18, self.19).parse_ensures(t10, Err(e)));
                assert((self.9, self.10, self.11, self.12, self.13, self.14, self.15, self.16, self.17, self.18, self.19).parse_ensures(t9, Err(e)));
                assert((self.8, self.9, self.10, self.11, self.12, self.13, self.14, self.15, self.16, self.17, self.18, self.19).parse_ensures(t8, Err(e)));
                assert((self.7, self.8, self.9, self.10, self.11, self.12, self.13, self.14, self.15, self.16, self.17, self.18, self.19).parse_ensures(t7, Err(e)));
                assert((self.6, self.7, self.8, self.9, self.10, self.11, self.12, self.13, self.14, self.15, self.16, self.17, self.18, self.19).parse_ensures(t6, Err(e)));
                assert((self.5, self.6, self.7, self.8, self.9, self.10, self.11, self.12, self.13, self.14, self.15, self.16, self.17, self.18, self.19).parse_ensures(t5, Err(e)));
                assert((self.4, self.5, self.6, self.7, self.8, self.9, self.10, self.11, self.12, self.13, self.14, self.15, self.16, self.17, self.18, self.19).parse_ensures(t4, Err(e)));
                assert((self.3, self.4, self.5, self.6, self.7, self.8, self.9, self.10, self.11, self.12, self.13, self.14, self.15, self.16, self.17, self.18, self.19).parse_ensures(t3, Err(e)));
                assert((self.2, self.3, self.4, self.5, self.6, self.7, self.8, self.9, self.10, self.11, self.12, self.13, self.14, self.15, self.16, self.17, self.18, self.19).parse_ensures(t2, Err(e)));
                assert((self.1, self.2, self.3, self.4, self.5, self.6, self.7, self.8, self.9, self.10, self.11, self.12, self.13, self.14, self.15, self.16, self.17, self.18, self.19).parse_ensures(t1, Err(e)));
                return Err(e);
            },
        };
        assert(self.11.parse_ensures(t11, Ok((l, t12))));
        assert((self.12, self.13, self.14, self.15, self.16, self.17, self.18, self.19).parse_requires(t12));
        let (m, t13) = match self.12.parse(t12) {
            Ok(r) => r,
            Err(e) => {
                assert((self.12, self.13, self.14, self.15, self.16, self.17, self.18, self.19).parse_ensures(t12, Err(e)));
                assert((self.11, self.12, self.13, self.14, self.15, self.16, self.17, self.18, self.19).parse_ensures(t11, Err(e)));
                assert((self.10, self.11, self.12, self.13, self.14, self.15, self.16, self.17, self.18, self.19).parse_ensures(t10, Err(e)));
                assert((self.9, self.10, self.11, self.12, self.13, self.14, self.15, self.16, self.17, self.18, self.19).parse_ensures(t9, Err(e)));
                assert((self.8, self.9, self.10, self.11, self.12, self.13, self.14, self.15, self.16, self.17, self.18, self.19).parse_ensures(t8, Err(e)));
                assert((self.7, self.8, self.9, self.10, self.11, self.12, self.13, self.14, self.15, self.16, self.17, self.18, self.19).parse_ensures(t7, Err(e)));
                assert((self.6, self.7, self.8, self.9, self.10, self.11, self.12, self.13, self.14, self.15, self.16, self.17, self.18, self.19).parse_ensures(t6, Err(e)));
                assert((self.5, self.6, self.7, self.8, self.9, self.10, self.11, self.12, self.13, self.14, self.15, self.16, self.17, self.18, self.19).parse_ensures(t5, Err(e)));
                assert((self.4, self.5, self.6, self.7, self.8, self.9, self.10, self.11, self.12, self.13, self.14, self.15, self.16, self.17, self.18, self.19).parse_ensures(t4, Err(e)));
                assert((self.3, self.4, self.5, self.6, self.7, self.8, self.9, self.10, self.11, self.12, self.13, self.14, self.15, self.16, self.17, self.18, self.19).parse_ensures(t3, Err(e)));
                assert((self.2, self.3, self.4, self.5, self.6, self.7, self.8, self.9, self.10, self.11, self.12, self.13, self.14, self.15, self.16, self.17, self.18, self.19).parse_ensures(t2, Err(e)));
                assert((self.1, self.2, self.3, self.4, self.5, self.6, self.7, self.8, self.9, self.10, self.11, self.12, self.13, self.14, self.15, self.16, self.17, self.18, self.19).parse_ensures(t1, Err(e)));
                return Err(e);
            },
        };
        assert(self.12.parse_ensures(t12, Ok((m, t13))));
        assert((self.13, self.14, self.15, self.16, self.17, self.18, self.19).parse_requires(t13));
        let (n, t14) = match self.13.parse(t13) {
            Ok(r) => r,
            Err(e) => {
                assert((self.13, self.14, self.15, self.16, self.17, self.18, self.19).parse_ensures(t13, Err(e)));
                assert((self.12, self.13, self.14, self.15, self.16, self.17, self.18, self.19).parse_ensures(t12, Err(e)));
                assert((self.11, self.12, self.13, self.14, self.15, self.16, self.17, self.18, self.19).parse_ensures(t11, Err(e)));
                assert((self.10, self.11, self.12, self.13, self.14, self.15, self.16, self.17, self.18, self.19).parse_ensures(t10, Err(e)));
                assert((self.9, self.10, self.11, self.12, self.13, self.14, self.15, self.16, self.17, self.18, self.19).parse_ensures(t9, Err(e)));
                assert((self.8, self.9, self.10, self.11, self.12, self.13, self.14, self.15, self.16, self.17, self.18, self.19).parse_ensures(t8, Err(e)));
                assert((self.7, self.8, self.9, self.10, self.11, self.12, self.13, self.14, self.15, self.16, self.17, self.18, self.19).parse_ensures(t7, Err(e)));
                assert((self.6, self.7, self.8, self.9, self.10, self.11, self.12, self.13, self.14, self.15, self.16, self.17, self.18, self.19).parse_ensures(t6, Err(e)));
                assert((self.5, self.6, self.7, self.8, self.9, self.10, self.11, self.12, self.13, self.14, self.15, self.16, self.17, self.18, self.19).parse_ensures(t5, Err(e)));
                assert((self.4, self.5, self.6, self.7, self.8, self.9, self.10, self.11, self.12, self.13, self.14, self.15, self.16, self.17, self.18, self.19).parse_ensures(t4, Err(e)));
                assert((self.3, self.4, self.5, self.6, self.7, self.8, self.9, self.10, self.11, self.12, self.13, self.14, self.15, self.16, self.17, self.18, self.19).parse_ensures(t3, Err(e)));
                assert((self.2, self.3, self.4, self.5, self.6, self.7, self.8, self.9, self.10, self.11, self.12, self.13, self.14, self.15, self.16, self.17, self.18, self.19).parse_ensures(t2, Err(e)));
                assert((self.1, self.2, self.3, self.4, self.5, self.6, self.7, self.8, self.9, self.10, self.11, self.12, self.13, self.14, self.15, self.16, self.17, self.18, self.19).parse_ensures(t1, Err(e)));
                return Err(e);
            },
        };
        assert(self.13.parse_ensures(t13, Ok((n, t14))));
        assert((self.14, self.15, self.16, self.17, self.18, self.19).parse_requires(t14));
        let (o, t15) = match self.14.parse(t14) {
            Ok(r) => r,
            Err(e) => {
                assert((self.14, self.15, self.16, self.17, self.18, self.19).parse_ensures(t14, Err(e)));
                assert((self.13, self.14, self.15, self.16, self.17, self.18, self.19).parse_ensures(t13, Err(e)));
                assert((self.12, self.13, self.14, self.15, self.16, self.17, self.18, self.19).parse_ensures(t12, Err(e)));
                assert((self.11, self.12, self.13, self.14, self.15, self.16, self.17, self.18, self.19).parse_ensures(t11, Err(e)));
                assert((self.10, self.11, self.12, self.13, self.14, self.15, self.16, self.17, self.18, self.19).parse_ensures(t10, Err(e)));
                assert((self.9, self.10, self.11, self.12, self.13, self.14, self.15, self.16, self.17, self.18, self.19).parse_ensures(t9, Err(e)));
                assert((self.8, self.9, self.10, self.11, self.12, self.13, self.14, self.15, self.16, self.17, self.18, self.19).parse_ensures(t8, Err(e)));
                assert((self.7, self.8, self.9, self.10, self.11, self.12, self.13, self.14, self.15, self.16, self.17, self.18, self.19).parse_ensures(t7, Err(e)));
                assert((self.6, self.7, self.8, self.9, self.10, self.11, self.12, self.13, self.14, self.15, self.16, self.17, self.18, self.19).parse_ensures(t6, Err(e)));
                assert((self.5, self.6, self.7, self.8, self.9, self.10, self.11, self.12, self.13, self.14, self.15, self.16, self.17, self.18, self.19).parse_ensures(t5, Err(e)));
                assert((self.4, self.5, self.6, self.7, self.8, self.9, self.10, self.11, self.12, self.13, self.14, self.15, self.16, self.17, self.18, self.19).parse_ensures(t4, Err(e)));
                assert((self.3, self.4, self.5, self.6, self.7, self.8, self.9, self.10, self.11, self.12, self.13, self.14, self.15, self.16, self.17, self.18, self.19).parse_ensures(t3, Err(e)));
                assert((self.2, self.3, self.4, self.5, self.6, self.7, self.8, self.9, self.10, self.11, self.12, self.13, self.14, self.15, self.16, self.17, self.18, self.19).parse_ensures(t2, Err(e)));
                assert((self.1, self.2, self.3, self.4, self.5, self.6, self.7, self.8, self.9, self.10, self.11, self.12, self.13, self.14, self.15, self.16, self.17, self.18, self.19).parse_ensures(t1, Err(e)));
                return Err(e);
            },
        };
        assert(self.14.parse_ensures(t14, Ok((o, t15))));
        assert((self.15, self.16, self.17, self.18, self.19).parse_requires(t15));
        let (p, t16) = match self.15.parse(t15) {
            Ok(r) => r,
            Err(e) => {
                assert((self.15, self.16, self.17, self.18, self.19).parse_ensures(t15, Err(e)));
                assert((self.14, self.15, self.16, self.17, self.18, self.19).parse_ensures(t14, Err(e)));
                assert((self.13, self.14, self.15, self.16, self.17, self.18, self.19).parse_ensures(t13, Err(e)));
                assert((self.12, self.13, self.14, self.15, self.16, self.17, self.18, self.19).parse_ensures(t12, Err(e)));
                assert((self.11, self.12, self.13, self.14, self.15, self.16, self.17, self.18, self.19).parse_ensures(t11, Err(e)));
                assert((self.10, self.11, self.12, self.13, self.14, self.15, self.16, self.17, self.18, self.19).parse_ensures(t10, Err(e)));
                assert((self.9, self.10, self.11, self.12, self.13, self.14, self.15, self.16, self.17, self.18, self.19).parse_ensures(t9, Err(e)));
                assert((self.8, self.9, self.10, self.11, self.12, self.13, self.14, self.15, self.16, self.17, self.18, self.19).parse_ensures(t8, Err(e)));
                assert((self.7, self.8, self.9, self.10, self.11, self.12, self.13, self.14, self.15, self.16, self.17, self.18, self.19).parse_ensures(t7, Err(e)));
                assert((self.6, self.7, self.8, self.9, self.10, self.11, self.12, self.13, self.14, self.15, self.16, self.17, self.18, self.19).parse_ensures(t6, Err(e)));
                assert((self.5, self.6, self.7, self.8, self.9, self.10, self.11, self.12, self.13, self.14, self.15, self.16, self.17, self.18, self.19).parse_ensures(t5, Err(e)));
                assert((self.4, self.5, self.6, self.7, self.8, self.9, self.10, self.11, self.12, self.13, self.14, self.15, self.16, self.17, self.18, self.19).parse_ensures(t4, Err(e)));
                assert((self.3, self.4, self.5, self.6, self.7, self.8, self.9, self.10, self.11, self.12, self.13, self.14, self.15, self.16, self.17, self.18, self.19).parse_ensures(t3, Err(e)));
                assert((self.2, self.3, self.4, self.5, self.6, self.7, self.8, self.9, self.10, self.11, self.12, self.13, self.14, self.15, self.16, self.17, self.18, self.19).parse_ensures(t2, Err(e)));
                assert((self.1, self.2, self.3, self.4, self.5, self.6, self.7, self.8, self.9, self.10, self.11, self.12, self.13, self.14, self.15, self.16, self.17, self.18, self.19).parse_ensures(t1, Err(e)));
                return Err(e);
            },
        };
        assert(self.15.parse_ensures(t15, Ok((p, t16))));
        assert((self.16, self.17, self.18, self.19).parse_requires(t16));
        let (q, t17) = match self.16.parse(t16) {
            Ok(r) => r,
            Err(e) => {
                assert((self.16, self.17, self.18, self.19).parse_ensures(t16, Err(e)));
                assert((self.15, self.16, self.17, self.18, self.19).parse_ensures(t15, Err(e)));
                assert((self.14, self.15, self.16, self.17, self.18, self.19).parse_ensures(t14, Err(e)));
                assert((self.13, self.14, self.15, self.16, self.17, self.18, self.19).parse_ensures(t13, Err(e)));
                assert((self.12, self.13, self.14, self.15, self.16, self.17, self.18, self.19).parse_ensures(t12, Err(e)));
                assert((self.11, self.12, self.13, self.14, self.15, self.16, self.17, self.18, self.19).parse_ensures(t11, Err(e)));
                assert((self.10, self.11, self.12, self.13, self.14, self.15, self.16, self.17, self.18, self.19).parse_ensures(t10, Err(e)));
                assert((self.9, self.10, self.11, self.12, self.13, self.14, self.15, self.16, self.17, self.18, self.19).parse_ensures(t9, Err(e)));
                assert((self.8, self.9, self.10, self.11, self.12, self.13, self.14, self.15, self.16, self.17, self.18, self.19).parse_ensures(t8, Err(e)));
                assert((self.7, self.8, self.9, self.10, self.11, self.12, self.13, self.14, self.15, self.16, self.17, self.18, self.19).parse_ensures(t7, Err(e)));
                assert((self.6, self.7, self.8, self.9, self.10, self.11, self.12, self.13, self.14, self.15, self.16, self.17, self.18, self.19).parse_ensures(t6, Err(e)));
                assert((self.5, self.6, self.7, self.8, self.9, self.10, self.11, self.12, self.13, self.14, self.15, self.16, self.17, self.18, self.19).parse_ensures(t5, Err(e)));
                assert((self.4, self.5, self.6, self.7, self.8, self.9, self.10, self.11, self.12, self.13, self.14, self.15, self.16, self.17, self.18, self.19).parse_ensures(t4, Err(e)));
                assert((self.3, self.4, self.5, self.6, self.7, self.8, self.9, self.10, self.11, self.12, self.13, self.14, self.15, self.16, self.17, self.18, self.19).parse_ensures(t3, Err(e)));
                assert((self.2, self.3, self.4, self.5, self.6, self.7, self.8, self.9, self.10, self.11, self.12, self.13, self.14, self.15, self.16, self.17, self.18, self.19).parse_ensures(t2, Err(e)));
                assert((self.1, self.2, self.3, self.4, self.5, self.6, self.7, self.8, self.9, self.10, self.11, self.12, self.13, self.14, self.15, self.16, self.17, self.18, self.19).parse_ensures(t1, Err(e)));
                return Err(e);
            },
        };
        assert(self.16.parse_ensures(t16, Ok((q, t17))));
        assert((self.17, self.18, self.19).parse_requires(t17));
        let (r, t18) = match self.17.parse(t17) {
            Ok(r) => r,
            Err(e) => {
                assert((self.17, self.18, self.19).parse_ensures(t17, Err(e)));
                assert((self.16, self.17, self.18, self.19).parse_ensures(t16, Err(e)));
                assert((self.15, self.16, self.17, self.18, self.19).parse_ensures(t15, Err(e)));
                assert((self.14, self.15, self.16, self.17, self.18, self.19).parse_ensures(t14, Err(e)));
                assert((self.13, self.14, self.15, self.16, self.17, self.18, self.19).parse_ensures(t13, Err(e)));
                assert((self.12, self.13, self.14, self.15, self.16, self.17, self.18, self.19).parse_ensures(t12, Err(e)));
                assert((self.11, self.12, self.13, self.14, self.15, self.16, self.17, self.18, self.19).parse_ensures(t11, Err(e)));
                assert((self.10, self.11, self.12, self.13, self.14, self.15, self.16, self.17, self.18, self.19).parse_ensures(t10, Err(e)));
                assert((self.9, self.10, self.11, self.12, self.13, self.14, self.15, self.16, self.17, self.18, self.19).parse_ensures(t9, Err(e)));
                assert((self.8, self.9, self.10, self.11, self.12, self.13, self.14, self.15, self.16, self.17, self.18, self.19).parse_ensures(t8, Err(e)));
                assert((self.7, self.8, self.9, self.10, self.11, self.12, self.13, self.14, self.15, self.16, self.17, self.18, self.19).parse_ensures(t7, Err(e)));
                assert((self.6, self.7, self.8, self.9, self.10, self.11, self.12, self.13, self.14, self.15, self.16, self.17, self.18, self.19).parse_ensures(t6, Err(e)));
                assert((self.5, self.6, self.7, self.8, self.9, self.10, self.11, self.12, self.13, self.14, self.15, self.16, self.17, self.18, self.19).parse_ensures(t5, Err(e)));
                assert((self.4, self.5, self.6, self.7, self.8, self.9, self.10, self.11, self.12, self.13, self.14, self.15, self.16, self.17, self.18, self.19).parse_ensures(t4, Err(e)));
                assert((self.3, self.4, self.5, self.6, self.7, self.8, self.9, self.10, self.11, self.12, self.13, self.14, self.15, self.16, self.17, self.18, self.19).parse_ensures(t3, Err(e)));
                assert((self.2, self.3, self.4, self.5, self.6, self.7, self.8, self.9, self.10, self.11, self.12, self.13, self.14, self.15, self.16, self.17, self.18, self.19).parse_ensures(t2, Err(e)));
                assert((self.1, self.2, self.3, self.4, self.5, self.6, self.7, self.8, self.9, self.10, self.11, self.12, self.13, self.14, self.15, self.16, self.17, self.18, self.19).parse_ensures(t1, Err(e)));
                return Err(e);
            },
        };
        assert(self.17.parse_ensures(t17, Ok((r, t18))));
        assert((self.18, self.19).parse_requires(t18));
        let (s, t19) = match self.18.parse(t18) {
            Ok(r) => r,
            Err(e) => {
                assert((self.18, self.19).parse_ensures(t18, Err(e)));
                assert((self.17, self.18, self.19).parse_ensures(t17, Err(e)));
                assert((self.16, self.17, self.18, self.19).parse_ensures(t16, Err(e)));
                assert((self.15, self.16, self.17, self.18, self.19).parse_ensures(t15, Err(e)));
                assert((self.14, self.15, self.16, self.17, self.18, self.19).parse_ensures(t14, Err(e)));
                assert((self.13, self.14, self.15, self.16, self.17, self.18, self.19).parse_ensures(t13, Err(e)));
                assert((self.12, self.13, self.14, self.15, self.16, self.17, self.18, self.19).parse_ensures(t12, Err(e)));
                assert((self.11, self.12, self.13, self.14, self.15, self.16, self.17, self.18, self.19).parse_ensures(t11, Err(e)));
                assert((self.10, self.11, self.12, self.13, self.14, self.15, self.16, self.17, self.18, self.19).parse_ensures(t10, Err(e)));
                assert((self.9, self.10, self.11, self.12, self.13, self.14, self.15, self.16, self.17, self.18, self.19).parse_ensures(t9, Err(e)));
                assert((self.8, self.9, self.10, self.11, self.12, self.13, self.14, self.15, self.16, self.17, self.18, self.19).parse_ensures(t8, Err(e)));
                assert((self.7, self.8, self.9, self.10, self.11, self.12, self.13, self.14, self.15, self.16, self.17, self.18, self.19).parse_ensures(t7, Err(e)));
                assert((self.6, self.7, self.8, self.9, self.10, self.11, self.12, self.13, self.14, self.15, self.16, self.17, self.18, self.19).parse_ensures(t6, Err(e)));
                assert((self.5, self.6, self.7, self.8, self.9, self.10, self.11, self.12, self.13, self.14, self.15, self.16, self.17, self.18, self.19).parse_ensures(t5, Err(e)));
                assert((self.4, self.5, self.6, self.7, self.8, self.9, self.10, self.11, self.12, self.13, self.14, self.15, self.16, self.17, self.18, self.19).parse_ensures(t4, Err(e)));
                assert((self.3, self.4, self.5, self.6, self.7, self.8, self.9, self.10, self.11, self.12, self.13, self.14, self.15, self.16, self.17, self.18, self.19).parse_ensures(t3, Err(e)));
                assert((self.2, self.3, self.4, self.5, self.6, self.7, self.8, self.9, self.10, self.11, self.12, self.13, self.14, self.15, self.16, self.17, self.18, self.19).parse_ensures(t2, Err(e)));
                assert((self.1, self.2, self.3, self.4, self.5, self.6, self.7, self.8, self.9, self.10, self.11, self.12, self.13, self.14, self.15, self.16, self.17, self.18, self.19).parse_ensures(t1, Err(e)));
                return Err(e);
            },
        };
        assert(self.18.parse_ensures(t18, Ok((s, t19))));
        let (t, t20) = match self.19.parse(t19) {
            Ok(r) => r,
            Err(e) => {
                assert((self.18, self.19).parse_ensures(t18, Err(e)));
                assert((self.17, self.18, self.19).parse_ensures(t17, Err(e)));
                assert((self.16, self.17, self.18, self.19).parse_ensures(t16, Err(e)));
                assert((self.15, self.16, self.17, self.18, self.19).parse_ensures(t15, Err(e)));
                assert((self.14, self.15, self.16, self.17, self.18, self.19).parse_ensures(t14, Err(e)));
                assert((self.13, self.14, self.15, self.16, self.17, self.18, self.19).parse_ensures(t13, Err(e)));
                assert((self.12, self.13, self.14, self.15, self.16, self.17, self.18, self.19).parse_ensures(t12, Err(e)));
                assert((self.11, self.12, self.13, self.14, self.15, self.16, self.17, self.18, self.19).parse_ensures(t11, Err(e)));
                assert((self.10, self.11, self.12, self.13, self.14, self.15, self.16, self.17, self.18, self.19).parse_ensures(t10, Err(e)));
                assert((self.9, self.10, self.11, self.12, self.13, self.14, self.15, self.16, self.17, self.18, self.19).parse_ensures(t9, Err(e)));
                assert((self.8, self.9, self.10, self.11, self.12, self.13, self.14, self.15, self.16, self.17, self.18, self.19).parse_ensures(t8, Err(e)));
                assert((self.7, self.8, self.9, self.10, self.11, self.12, self.13, self.14, self.15, self.16, self.17, self.18, self.19).parse_ensures(t7, Err(e)));
                assert((self.6, self.7, self.8, self.9, self.10, self.11, self.12, self.13, self.14, self.15, self.16, self.17, self.18, self.19).parse_ensures(t6, Err(e)));
                assert((self.5, self.6, self.7, self.8, self.9, self.10, self.11, self.12, self.13, self.14, self.15, self.16, self.17, self.18, self.19).parse_ensures(t5, Err(e)));
                assert((self.4, self.5, self.6, self.7, self.8, self.9, self.10, self.11, self.12, self.13, self.14, self.15, self.16, self.17, self.18, self.19).parse_ensures(t4, Err(e)));
                assert((self.3, self.4, self.5, self.6, self.7, self.8, self.9, self.10, self.11, self.12, self.13, self.14, self.15, self.16, self.17, self.18, self.19).parse_ensures(t3, Err(e)));
                assert((self.2, self.3, self.4, self.5, self.6, self.7, self.8, self.9, self.10, self.11, self.12, self.13, self.14, self.15, self.16, self.17, self.18, self.19).parse_ensures(t2, Err(e)));
                assert((self.1, self.2, self.3, self.4, self.5, self.6, self.7, self.8, self.9, self.10, self.11, self.12, self.13, self.14, self.15, self.16, self.17, self.18, self.19).parse_ensures(t1, Err(e)));
                return Err(e);
            },
        };
        assert((self.18, self.19).parse_ensures(t18, Ok(((s, t), t20))));
        assert((self.17, self.18, self.19).parse_ensures(t17, Ok(((r, s, t), t20))));
        assert((self.16, self.17, self.18, self.19).parse_ensures(t16, Ok(((q, r, s, t), t20))));
        assert((self.15, self.16, self.17, self.18, self.19).parse_ensures(t15, Ok(((p, q, r, s, t), t20))));
        assert((self.14, self.15, self.16, self.17, self.18, self.19).parse_ensures(t14, Ok(((o, p, q, r, s, t), t20))));
        assert((self.13, self.14, self.15, self.16, self.17, self.18, self.19).parse_ensures(t13, Ok(((n, o, p, q, r, s, t), t20))));
        assert((self.12, self.13, self.14, self.15, self.16, self.17, self.18, self.19).parse_ensures(t12, Ok(((m, n, o, p, q, r, s, t), t20))));
        assert((self.11, self.12, self.13, self.14, self.15, self.16, self.17, self.18, self.19).parse_ensures(t11, Ok(((l, m, n, o, p, q, r, s, t), t20))));
        assert((self.10, self.11, self.12, self.13, self.14, self.15, self.16, self.17, self.18, self.19).parse_ensures(t10, Ok(((k, l, m, n, o, p, q, r, s, t), t20))));
        assert((self.9, self.10, self.11, self.12, self.13, self.14, self.15, self.16, self.17, self.18, self.19).parse_ensures(t9, Ok(((j, k, l, m, n, o, p, q, r, s, t), t20))));
        assert((self.8, self.9, self.10, self.11, self.12, self.13, self.14, self.15, self.16, self.17, self.18, self.19).parse_ensures(t8, Ok(((i, j, k, l, m, n, o, p, q, r, s, t), t20))));
        assert((self.7, self.8, self.9, self.10, self.11, self.12, self.13, self.14, self.15, self.16, self.17, self.18, self.19).parse_ensures(t7, Ok(((h, i, j, k, l, m, n, o, p, q, r, s, t), t20))));
        assert((self.6, self.7, self.8, self.9, self.10, self.11, self.12, self.13, self.14, self.15, self.16, self.17, self.18, self.19).parse_ensures(t6, Ok(((g, h, i, j, k, l, m, n, o, p, q, r, s, t), t20))));
        assert((self.5, self.6, self.7, self.8, self.9, self.10, self.11, self.12, self.13, self.14, self.15, self.16, self.17, self.18, self.19).parse_ensures(t5, Ok(((f, g, h, i, j, k, l, m, n, o, p, q, r, s, t), t20))));
        assert((self.4, self.5, self.6, self.7, self.8, self.9, self.10, self.11, self.12, self.13, self.14, self.15, self.16, self.17, self.18, self.19).parse_ensures(t4, Ok(((e, f, g, h, i, j, k, l, m, n, o, p, q, r, s, t), t20))));
        assert((self.3, self.4, self.5, self.6, self.7, self.8, self.9, self.10, self.11, self.12, self.13, self.14, self.15, self.16, self.17, self.18, self.19).parse_ensures(t3, Ok(((d, e, f, g, h, i, j, k, l, m, n, o, p, q, r, s, t), t20))));
        assert((self.2, self.3, self.4, self.5, self.6, self.7, self.8, self.9, self.10, self.11, self.12, self.13, self.14, self.15, self.16, self.17, self.18, self.19).parse_ensures(t2, Ok(((c, d, e, f, g, h, i, j, k, l, m, n, o, p, q, r, s, t), t20))));
        assert((self.1, self.2, self.3, self.4, self.5, self.6, self.7, self.8, self.9, self.10, self.11, self.12, self.13, self.14, self.15, self.16, self.17, self.18, self.19).parse_ensures(t1, Ok(((b, c, d, e, f, g, h, i, j, k, l, m, n, o, p, q, r, s, t), t20))));
        Ok(((a, b, c, d, e, f, g, h, i, j, k, l, m, n, o, p, q, r, s, t), t20))
    }
}

/// A tuple of 20 deterministic parsers is deterministic.
pub proof fn lemma_tuple20_deterministic<Inp, Er, A, B, C, D, E, F, G, H, I, J, K, L, M, N, O, P, Q, R, S, T>(t: (A, B, C, D, E, F, G, H, I, J, K, L, M, N, O, P, Q, R, S, T))
    where
        A: Parser<Inp, Error = Er>,
        B: Parser<Inp, Error = Er>,
        C: Parser<Inp, Error = Er>,
        D: Parser<Inp, Error = Er>,
        E: Parser<Inp, Error = Er>,
        F: Parser<Inp, Error = Er>,
        G: Parser<Inp, Error = Er>,
        H: Parser<Inp, Error = Er>,
        I: Parser<Inp, Error = Er>,
        J: Parser<Inp, Error = Er>,
        K: Parser<Inp, Error = Er>,
        L: Parser<Inp, Error = Er>,
        M: Parser<Inp, Error = Er>,
        N: Parser<Inp, Error = Er>,
        O: Parser<Inp, Error = Er>,
        P: Parser<Inp, Error = Er>,
        Q: Parser<Inp, Error = Er>,
        R: Parser<Inp, Error = Er>,
        S: Parser<Inp, Error = Er>,
        T: Parser<Inp, Error = Er>,
    requires
        deterministic::<Inp, A>(t.0),
        deterministic::<Inp, B>(t.1),
        deterministic::<Inp, C>(t.2),
        deterministic::<Inp, D>(t.3),
        deterministic::<Inp, E>(t.4),
        deterministic::<Inp, F>(t.5),
        deterministic::<Inp, G>(t.6),
        deterministic::<Inp, H>(t.7),
        deterministic::<Inp, I>(t.8),
        deterministic::<Inp, J>(t.9),
        deterministic::<Inp, K>(t.10),
        deterministic::<Inp, L>(t.11),
        deterministic::<Inp, M>(t.12),
        deterministic::<Inp, N>(t.13),
        deterministic::<Inp, O>(t.14),
        deterministic::<Inp, P>(t.15),
        deterministic::<Inp, Q>(t.16),
        deterministic::<Inp, R>(t.17),
        deterministic::<Inp, S>(t.18),
        deterministic::<Inp, T>(t.19),
    ensures
        deterministic::<Inp, (A, B, C, D, E, F, G, H, I, J, K, L, M, N, O, P, Q, R, S, T)>(t),
{
    lemma_tuple19_deterministic::<Inp, Er, B, C, D, E, F, G, H, I, J, K, L, M, N, O, P, Q, R, S, T>((t.1, t.2, t.3, t.4, t.5, t.6, t.7, t.8, t.9, t.10, t.11, t.12, t.13, t.14, t.15, t.16, t.17, t.18, t.19));
    lemma_seq_unique::<Inp, A, (B, C, D, E, F, G, H, I, J, K, L, M, N, O, P, Q, R, S, T)>(t.0, (t.1, t.2, t.3, t.4, t.5, t.6, t.7, t.8, t.9, t.10, t.11, t.12, t.13, t.14, t.15, t.16, t.17, t.18, t.19));
}

/// A tuple of 21 parsers sharing one error type runs them in order.
impl<Inp, Er, A, B, C, D, E, F, G, H, I, J, K, L, M, N, O, P, Q, R, S, T, U> Parser<Inp> for (A, B, C, D, E, F, G, H, I, J, K, L, M, N, O, P, Q, R, S, T, U) where
    A: Parser<Inp, Error = Er>,
    B: Parser<Inp, Error = Er>,
    C: Parser<Inp, Error = Er>,
    D: Parser<Inp, Error = Er>,
    E: Parser<Inp, Error = Er>,
    F: Parser<Inp, Error = Er>,
    G: Parser<Inp, Error = Er>,
    H: Parser<Inp, Error = Er>,
    I: Parser<Inp, Error = Er>,
    J: Parser<Inp, Error = Er>,
    K: Parser<Inp, Error = Er>,
    L: Parser<Inp, Error = Er>,
    M: Parser<Inp, Error = Er>,
    N: Parser<Inp, Error = Er>,
    O: Parser<Inp, Error = Er>,
    P: Parser<Inp, Error = Er>,
    Q: Parser<Inp, Error = Er>,
    R: Parser<Inp, Error = Er>,
    S: Parser<Inp, Error = Er>,
    T: Parser<Inp, Error = Er>,
    U: Parser<Inp, Error = Er>,
 {
    type Out = (A::Out, B::Out, C::Out, D::Out, E::Out, F::Out, G::Out, H::Out, I::Out, J::Out, K::Out, L::Out, M::Out, N::Out, O::Out, P::Out, Q::Out, R::Out, S::Out, T::Out, U::Out);

    type Error = Er;

    open spec fn parse_requires(&self, input: Inp) -> bool {
        seq_requires(self.0, (self.1, self.2, self.3, self.4, self.5, self.6, self.7, self.8, self.9, self.10, self.11, self.12, self.13, self.14, self.15, self.16, self.17, self.18, self.19, self.20), input)
    }

    open spec fn parse_ensures(&self, input: Inp, res: Result<((A::Out, B::Out, C::Out, D::Out, E::Out, F::Out, G::Out, H::Out, I::Out, J::Out, K::Out, L::Out, M::Out, N::Out, O::Out, P::Out, Q::Out, R::Out, S::Out, T::Out, U::Out), Inp), Er>) -> bool {
        match res {
            Ok(((a, b, c, d, e, f, g, h, i, j, k, l, m, n, o, p, q, r, s, t, u), rest)) => seq_ok(self.0, (self.1, self.2, self.3, self.4, self.5, self.6, self.7, self.8, self.9, self.10, self.11, self.12, self.13, self.14, self.15, self.16, self.17, self.18, self.19, self.20), input, a, (b, c, d, e, f, g, h, i, j, k, l, m, n, o, p, q, r, s, t, u), rest),
            Err(e) => seq_err(self.0, (self.1, self.2, self.3, self.4, self.5, self.6, self.7, self.8, self.9, self.10, self.11, self.12, self.13, self.14, self.15, self.16, self.17, self.18, self.19, self.20), input, e),
        }
    }

    fn parse(&self, txt: Inp) -> (res: Result<((A::Out, B::Out, C::Out, D::Out, E::Out, F::Out, G::Out, H::Out, I::Out, J::Out, K::Out, L::Out, M::Out, N::Out, O::Out, P::Out, Q::Out, R::Out, S::Out, T::Out, U::Out), Inp), Er>) {
        let ghost t0 = txt;
        let (a, t1) = match self.0.parse(txt) {
            Ok(r) => r,
            Err(e) => return Err(e),
        };
        assert(self.0.parse_ensures(t0, Ok((a, t1))));
        assert((self.1, self.2, self.3, self.4, self.5, self.6, self.7, self.8, self.9, self.10, self.11, self.12, self.13, self.14, self.15, self.16, self.17, self.18, self.19, self.20).parse_requires(t1));
        let (b, t2) = match self.1.parse(t1) {
            Ok(r) => r,
            Err(e) => {
                assert((self.1, self.2, self.3, self.4, self.5, self.6, self.7, self.8, self.9, self.10, self.11, self.12, self.13, self.14, self.15, self.16, self.17, self.18, self.19, self.20).parse_ensures(t1, Err(e)));
                return Err(e);
            },
        };
        assert(self.1.parse_ensures(t1, Ok((b, t2))));
        assert((self.2, self.3, self.4, self.5, self.6, self.7, self.8, self.9, self.10, self.11, self.12, self.13, self.14, self.15, self.16, self.17, self.18, self.19, self.20).parse_requires(t2));
        let (c, t3) = match self.2.parse(t2) {
            Ok(r) => r,
            Err(e) => {
                assert((self.2, self.3, self.4, self.5, self.6, self.7, self.8, self.9, self.10, self.11, self.12, self.13, self.14, self.15, self.16, self.17, self.18, self.19, self.20).parse_ensures(t2, Err(e)));
                assert((self.1, self.2, self.3, self.4, self.5, self.6, self.7, self.8, self.9, self.10, self.11, self.12, self.13, self.14, self.15, self.16, self.17, self.18, self.19, self.20).parse_ensures(t1, Err(e)));
                return Err(e);
            },
        };
        assert(self.2.parse_ensures(t2, Ok((c, t3))));
        assert((self.3, self.4, self.5, self.6, self.7, self.8, self.9, self.10, self.11, self.12, self.13, self.14, self.15, self.16, self.17, self.18, self.19, self.20).parse_requires(t3));
        let (d, t4) = match self.3.parse(t3) {
            Ok(r) => r,
            Err(e) => {
                assert((self.3, self.4, self.5, self.6, self.7, self.8, self.9, self.10, self.11, self.12, self.13, self.14, self.15, self.16, self.17, self.18, self.19, self.20).parse_ensures(t3, Err(e)));
                assert((self.2, self.3, self.4, self.5, self.6, self.7, self.8, self.9, self.10, self.11, self.12, self.13, self.14, self.15, self.16, self.17, self.18, self.19, self.20).parse_ensures(t2, Err(e)));
                assert((self.1, self.2, self.3, self.4, self.5, self.6, self.7, self.8, self.9, self.10, self.11, self.12, self.13, self.14, self.15, self.16, self.17, self.18, self.19, self.20).parse_ensures(t1, Err(e)));
                return Err(e);
            },
        };
        assert(self.3.parse_ensures(t3, Ok((d, t4))));
        assert((self.4, self.5, self.6, self.7, self.8, self.9, self.10, self.11, self.12, self.13, self.14, self.15, self.16, self.17, self.18, self.19, self.20).parse_requires(t4));
        let (e, t5) = match self.4.parse(t4) {
            Ok(r) => r,
            Err(e) => {
                assert((self.4, self.5, self.6, self.7, self.8, self.9, self.10, self.11, self.12, self.13, self.14, self.15, self.16, self.17, self.18, self.19, self.20).parse_ensures(t4, Err(e)));
                assert((self.3, self.4, self.5, self.6, self.7, self.8, self.9, self.10, self.11, self.12, self.13, self.14, self.15, self.16, self.17, self.18, self.19, self.20).parse_ensures(t3, Err(e)));
                assert((self.2, self.3, self.4, self.5, self.6, self.7, self.8, self.9, self.10, self.11, self.12, self.13, self.14, self.15, self.16, self.17, self.18, self.19, self.20).parse_ensures(t2, Err(e)));
                assert((self.1, self.2, self.3, self.4, self.5, self.6, self.7, self.8, self.9, self.10, self.11, self.12, self.13, self.14, self.15, self.16, self.17, self.18, self.19, self.20).parse_ensures(t1, Err(e)));
                return Err(e);
            },
        };
        assert(self.4.parse_ensures(t4, Ok((e, t5))));
        assert((self.5, self.6, self.7, self.8, self.9, self.10, self.11, self.12, self.13, self.14, self.15, self.16, self.17, self.18, self.19, self.20).parse_requires(t5));
        let (f, t6) = match self.5.parse(t5) {
            Ok(r) => r,
            Err(e) => {
                assert((self.5, self.6, self.7, self.8, self.9, self.10, self.11, self.12, self.13, self.14, self.15, self.16, self.17, self.18, self.19, self.20).parse_ensures(t5, Err(e)));
                assert((self.4, self.5, self.6, self.7, self.8, self.9, self.10, self.11, self.12, self.13, self.14, self.15, self.16, self.17, self.18, self.19, self.20).parse_ensures(t4, Err(e)));
                assert((self.3, self.4, self.5, self.6, self.7, self.8, self.9, self.10, self.11, self.12, self.13, self.14, self.15, self.16, self.17, self.18, self.19, self.20).parse_ensures(t3, Err(e)));
                assert((self.2, self.3, self.4, self.5, self.6, self.7, self.8, self.9, self.10, self.11, self.12, self.13, self.14, self.15, self.16, self.17, self.18, self.19, self.20).parse_ensures(t2, Err(e)));
                assert((self.1, self.2, self.3, self.4, self.5, self.6, self.7, self.8, self.9, self.10, self.11, self.12, self.13, self.14, self.15, self.16, self.17, self.18, self.19, self.20).parse_ensures(t1, Err(e)));
                return Err(e);
            },
        };
        assert(self.5.parse_ensures(t5, Ok((f, t6))));
        assert((self.6, self.7, self.8, self.9, self.10, self.11, self.12, self.13, self.14, self.15, self.16, self.17, self.18, self.19, self.20).parse_requires(t6));
        let (g, t7) = match self.6.parse(t6) {
            Ok(r) => r,
            Err(e) => {
                assert((self.6, self.7, self.8, self.9, self.10, self.11, self.12, self.13, self.14, self.15, self.16, self.17, self.18, self.19, self.20).parse_ensures(t6, Err(e)));
                assert((self.5, self.6, self.7, self.8, self.9, self.10, self.11, self.12, self.13, self.14, self.15, self.16, self.17, self.18, self.19, self.20).parse_ensures(t5, Err(e)));
                assert((self.4, self.5, self.6, self.7, self.8, self.9, self.10, self.11, self.12, self.13, self.14, self.15, self.16, self.17, self.18, self.19, self.20).parse_ensures(t4, Err(e)));
                assert((self.3, self.4, self.5, self.6, self.7, self.8, self.9, self.10, self.11, self.12, self.13, self.14, self.15, self.16, self.17, self.18, self.19, self.20).parse_ensures(t3, Err(e)));
                assert((self.2, self.3, self.4, self.5, self.6, self.7, self.8, self.9, self.10, self.11, self.12, self.13, self.14, self.15, self.16, self.17, self.18, self.19, self.20).parse_ensures(t2, Err(e)));
                assert((self.1, self.2, self.3, self.4, self.5, self.6, self.7, self.8, self.9, self.10, self.11, self.12, self.13, self.14, self.15, self.16, self.17, self.18, self.19, self.20).parse_ensures(t1, Err(e)));
                return Err(e);
            },
        };
        assert(self.6.parse_ensures(t6, Ok((g, t7))));
        assert((self.7, self.8, self.9, self.10, self.11, self.12, self.13, self.14, self.15, self.16, self.17, self.18, self.19, self.20).parse_requires(t7));
        let (h, t8) = match self.7.parse(t7) {
            Ok(r) => r,
            Err(e) => {
                assert((self.7, self.8, self.9, self.10, self.11, self.12, self.13, self.14, self.15, self.16, self.17, self.18, self.19, self.20).parse_ensures(t7, Err(e)));
                assert((self.6, self.7, self.8, self.9, self.10, self.11, self.12, self.13, self.14, self.15, self.16, self.17, self.18, self.19, self.20).parse_ensures(t6, Err(e)));
                assert((self.5, self.6, self.7, self.8, self.9, self.10, self.11, self.12, self.13, self.14, self.15, self.16, self.17, self.18, self.19, self.20).parse_ensures(t5, Err(e)));
                assert((self.4, self.5, self.6, self.7, self.8, self.9, self.10, self.11, self.12, self.13, self.14, self.15, self.16, self.17, self.18, self.19, self.20).parse_ensures(t4, Err(e)));
                assert((self.3, self.4, self.5, self.6, self.7, self.8, self.9, self.10, self.11, self.12, self.13, self.14, self.15, self.16, self.17, self.18, self.19, self.20).parse_ensures(t3, Err(e)));
                assert((self.2, self.3, self.4, self.5, self.6, self.7, self.8, self.9, self.10, self.11, self.12, self.13, self.14, self.15, self.16, self.17, self.18, self.19, self.20).parse_ensures(t2, Err(e)));
                assert((self.1, self.2, self.3, self.4, self.5, self.6, self.7, self.8, self.9, self.10, self.11, self.12, self.13, self.14, self.15, self.16, self.17, self.18, self.19, self.20).parse_ensures(t1, Err(e)));
                return Err(e);
            },
        };
        assert(self.7.parse_ensures(t7, Ok((h, t8))));
        assert((self.8, self.9, self.10, self.11, self.12, self.13, self.14, self.15, self.16, self.17, self.18, self.19, self.20).parse_requires(t8));
        let (i, t9) = match self.8.parse(t8) {
            Ok(r) => r,
            Err(e) => {
                assert((self.8, self.9, self.10, self.11, self.12, self.13, self.14, self.15, self.16, self.17, self.18, self.19, self.20).parse_ensures(t8, Err(e)));
                assert((self.7, self.8, self.9, self.10, self.11, self.12, self.13, self.14, self.15, self.16, self.17, self.18, self.19, self.20).parse_ensures(t7, Err(e)));
                assert((self.6, self.7, self.8, self.9, self.10, self.11, self.12, self.13, self.14, self.15, self.16, self.17, self.18, self.19, self.20).parse_ensures(t6, Err(e)));
                assert((self.5, self.6, self.7, self.8, self.9, self.10, self.11, self.12, self.13, self.14, self.15, self.16, self.17, self.18, self.19, self.20).parse_ensures(t5, Err(e)));
                assert((self.4, self.5, self.6, self.7, self.8, self.9, self.10, self.11, self.12, self.13, self.14, self.15, self.16, self.17, self.18, self.19, self.20).parse_ensures(t4, Err(e)));
                assert((self.3, self.4, self.5, self.6, self.7, self.8, self.9, self.10, self.11, self.12, self.13, self.14, self.15, self.16, self.17, self.18, self.19, self.20).parse_ensures(t3, Err(e)));
                assert((self.2, self.3, self.4, self.5, self.6, self.7, self.8, self.9, self.10, self.11, self.12, self.13, self.14, self.15, self.16, self.17, self.18, self.19, self.20).parse_ensures(t2, Err(e)));
                assert((self.1, self.2, self.3, self.4, self.5, self.6, self.7, self.8, self.9, self.10, self.11, self.12, self.13, self.14, self.15, self.16, self.17, self.18, self.19, self.20).parse_ensures(t1, Err(e)));
                return Err(e);
            },
        };
        assert(self.8.parse_ensures(t8, Ok((i, t9))));
        assert((self.9, self.10, self.11, self.12, self.13, self.14, self.15, self.16, self.17, self.18, self.19, self.20).parse_requires(t9));
        let (j, t10) = match self.9.parse(t9) {
            Ok(r) => r,
            Err(e) => {
                assert((self.9, self.10, self.11, self.12, self.13, self.14, self.15, self.16, self.17, self.18, self.19, self.20).parse_ensures(t9, Err(e)));
                assert((self.8, self.9, self.10, self.11, self.12, self.13, self.14, self.15, self.16, self.17, self.18, self.19, self.20).parse_ensures(t8, Err(e)));
                assert((self.7, self.8, self.9, self.10, self.11, self.12, self.13, self.14, self.15, self.16, self.17, self.18, self.19, self.20).parse_ensures(t7, Err(e)));
                assert((self.6, self.7, self.8, self.9, self.10, self.11, self.12, self.13, self.14, self.15, self.16, self.17, self.18, self.19, self.20).parse_ensures(t6, Err(e)));
                assert((self.5, self.6, self.7, self.8, self.9, self.10, self.11, self.12, self.13, self.14, self.15, self.16, self.17, self.18, self.19, self.20).parse_ensures(t5, Err(e)));
                assert((self.4, self.5, self.6, self.7, self.8, self.9, self.10, self.11, self.12, self.13, self.14, self.15, self.16, self.17, self.18, self.19, self.20).parse_ensures(t4, Err(e)));
                assert((self.3, self.4, self.5, self.6, self.7, self.8, self.9, self.10, self.11, self.12, self.13, self.14, self.15, self.16, self.17, self.18, self.19, self.20).parse_ensures(t3, Err(e)));
                assert((self.2, self.3, self.4, self.5, self.6, self.7, self.8, self.9, self.10, self.11, self.12, self.13, self.14, self.15, self.16, self.17, self.18, self.19, self.20).parse_ensures(t2, Err(e)));
                assert((self.1, self.2, self.3, self.4, self.5, self.6, self.7, self.8, self.9, self.10, self.11, self.12, self.13, self.14, self.15, self.16, self.17, self.18, self.19, self.20).parse_ensures(t1, Err(e)));
                return Err(e);
            },
        };
        assert(self.9.parse_ensures(t9, Ok((j, t10))));
        assert((self.10, self.11, self.12, self.13, self.14, self.15, self.16, self.17, self.18, self.19, self.20).parse_requires(t10));
        let (k, t11) = match self.10.parse(t10) {
            Ok(r) => r,
            Err(e) => {
                assert((self.10, self.11, self.12, self.13, self.14, self.15, self.16, self.17, self.18, self.19, self.20).parse_ensures(t10, Err(e)));
                assert((self.9, self.10, self.11, self.12, self.13, self.14, self.15, self.16, self.17, self.18, self.19, self.20).parse_ensures(t9, Err(e)));
                assert((self.8, self.9, self.10, self.11, self.12, self.13, self.14, self.15, self.16, self.17, self.18, self.19, self.20).parse_ensures(t8, Err(e)));
                assert((self.7, self.8, self.9, self.10, self.11, self.12, self.13, self.14, self.15, self.16, self.17, self.18, self.19, self.20).parse_ensures(t7, Err(e)));
                assert((self.6, self.7, self.8, self.9, self.10, self.11, self.12, self.13, self.14, self.15, self.16, self.17, self.18, self.19, self.20).parse_ensures(t6, Err(e)));
                assert((self.5, self.6, self.7, self.8, self.9, self.10, self.11, self.12, self.13, self.14, self.15, self.16, self.17, self.18, self.19, self.20).parse_ensures(t5, Err(e)));
                assert((self.4, self.5, self.6, self.7, self.8, self.9, self.10, self.11, self.12, self.13, self.14, self.15, self.16, self.17, self.18, self.19, self.20).parse_ensures(t4, Err(e)));
                assert((self.3, self.4, self.5, self.6, self.7, self.8, self.9, self.10, self.11, self.12, self.13, self.14, self.15, self.16, self.17, self.18, self.19, self.20).parse_ensures(t3, Err(e)));
                assert((self.2, self.3, self.4, self.5, self.6, self.7, self.8, self.9, self.10, self.11, self.12, self.13, self.14, self.15, self.16, self.17, self.18, self.19, self.20).parse_ensures(t2, Err(e)));
                assert((self.1, self.2, self.3, self.4, self.5, self.6, self.7, self.8, self.9, self.10, self.11, self.12, self.13, self.14, self.15, self.16, self.17, self.18, self.19, self.20).parse_ensures(t1, Err(e)));
                return Err(e);
            },
        };
        assert(self.10.parse_ensures(t10, Ok((k, t11))));
        assert((self.11, self.12, self.13, self.14, self.15, self.16, self.17, self.18, self.19, self.20).parse_requires(t11));
        let (l, t12) = match self.11.parse(t11) {
            Ok(r) => r,
            Err(e) => {
                assert((self.11, self.12, self.13, self.14, self.15, self.16, self.17, self.18, self.19, self.20).parse_ensures(t11, Err(e)));
                assert((self.10, self.11, self.12, self.13, self.14, self.15, self.16, self.17, self.18, self.19, self.20).parse_ensures(t10, Err(e)));
                assert((self.9, self.10, self.11, self.12, self.13, self.14, self.15, self.16, self.17, self.18, self.19, self.20).parse_ensures(t9, Err(e)));
                assert((self.8, self.9, self.10, self.11, self.12, self.13, self.14, self.15, self.16, self.17, self.18, self.19, self.20).parse_ensures(t8, Err(e)));
                assert((self.7, self.8, self.9, self.10, self.11, self.12, self.13, self.14, self.15, self.16, self.17, self.18, self.19, self.20).parse_ensures(t7, Err(e)));
                assert((self.6, self.7, self.8, self.9, self.10, self.11, self.12, self.13, self.14, self.15, self.16, self.17, self.18, self.19, self.20).parse_ensures(t6, Err(e)));
                assert((self.5, self.6, self.7, self.8, self.9, self.10, self.11, self.12, self.13, self.14, self.15, self.16, self.17, self.18, self.19, self.20).parse_ensures(t5, Err(e)));
                assert((self.4, self.5, self.6, self.7, self.8, self.9, self.10, self.11, self.12, self.13, self.14, self.15, self.16, self.17, self.18, self.19, self.20).parse_ensures(t4, Err(e)));
                assert((self.3, self.4, self.5, self.6, self.7, self.8, self.9, self.10, self.11, self.12, self.13, self.14, self.15, self.16, self.17, self.18, self.19, self.20).parse_ensures(t3, Err(e)));
                assert((self.2, self.3, self.4, self.5, self.6, self.7, self.8, self.9, self.10, self.11, self.12, self.13, self.14, self.15, self.16, self.17, self.18, self.19, self.20).parse_ensures(t2, Err(e)));
                assert((self.1, self.2, self.3, self.4, self.5, self.6, self.7, self.8, self.9, self.10, self.11, self.12, self.13, self.14, self.15, self.16, self.17, self.18, self.19, self.20).parse_ensures(t1, Err(e)));
                return Err(e);
            },
        };
        assert(self.11.parse_ensures(t11, Ok((l, t12))));
        assert((self.12, self.13, self.14, self.15, self.16, self.17, self.18, self.19, self.20).parse_requires(t12));
        let (m, t13) = match self.12.parse(t12) {
            Ok(r) => r,
            Err(e) => {
                assert((self.12, self.13, self.14, self.15, self.16, self.17, self.18, self.19, self.20).parse_ensures(t12, Err(e)));
                assert((self.11, self.12, self.13, self.14, self.15, self.16, self.17, self.18, self.19, self.20).parse_ensures(t11, Err(e)));
                assert((self.10, self.11, self.12, self.13, self.14, self.15, self.16, self.17, self.18, self.19, self.20).parse_ensures(t10, Err(e)));
                assert((self.9, self.10, self.11, self.12, self.13, self.14, self.15, self.16, self.17, self.18, self.19, self.20).parse_ensures(t9, Err(e)));
                assert((self.8, self.9, self.10, self.11, self.12, self.13, self.14, self.15, self.16, self.17, self.18, self.19, self.20).parse_ensures(t8, Err(e)));
                assert((self.7, self.8, self.9, self.10, self.11, self.12, self.13, self.14, self.15, self.16, self.17, self.18, self.19, self.20).parse_ensures(t7, Err(e)));
                assert((self.6, self.7, self.8, self.9, self.10, self.11, self.12, self.13, self.14, self.15, self.16, self.17, self.18, self.19, self.20).parse_ensures(t6, Err(e)));
                assert((self.5, self.6, self.7, self.8, self.9, self.10, self.11, self.12, self.13, self.14, self.15, self.16, self.17, self.18, self.19, self.20).parse_ensures(t5, Err(e)));
                assert((self.4, self.5, self.6, self.7, self.8, self.9, self.10, self.11, self.12, self.13, self.14, self.15, self.16, self.17, self.18, self.19, self.20).parse_ensures(t4, Err(e)));
                assert((self.3, self.4, self.5, self.6, self.7, self.8, self.9, self.10, self.11, self.12, self.13, self.14, self.15, self.16, self.17, self.18, self.19, self.20).parse_ensures(t3, Err(e)));
                assert((self.2, self.3, self.4, self.5, self.6, self.7, self.8, self.9, self.10, self.11, self.12, self.13, self.14, self.15, self.16, self.17, self.18, self.19, self.20).parse_ensures(t2, Err(e)));
                assert((self.1, self.2, self.3, self.4, self.5, self.6, self.7, self.8, self.9, self.10, self.11, self.12, self.13, self.14, self.15, self.16, self.17, self.18, self.19, self.20).parse_ensures(t1, Err(e)));
                return Err(e);
            },
        };
        assert(self.12.parse_ensures(t12, Ok((m, t13))));
        assert((self.13, self.14, self.15, self.16, self.17, self.18, self.19, self.20).parse_requires(t13));
        let (n, t14) = match self.13.parse(t13) {
            Ok(r) => r,
            Err(e) => {
                assert((self.13, self.14, self.15, self.16, self.17, self.18, self.19, self.20).parse_ensures(t13, Err(e)));
                assert((self.12, self.13, self.14, self.15, self.16, self.17, self.18, self.19, self.20).parse_ensures(t12, Err(e)));
                assert((self.11, self.12, self.13, self.14, self.15, self.16, self.17, self.18, self.19, self.20).parse_ensures(t11, Err(e)));
                assert((self.10, self.11, self.12, self.13, self.14, self.15, self.16, self.17, self.18, self.19, self.20).parse_ensures(t10, Err(e)));
                assert((self.9, self.10, self.11, self.12, self.13, self.14, self.15, self.16, self.17, self.18, self.19, self.20).parse_ensures(t9, Err(e)));
                assert((self.8, self.9, self.10, self.11, self.12, self.13, self.14, self.15, self.16, self.17, self.18, self.19, self.20).parse_ensures(t8, Err(e)));
                assert((self.7, self.8, self.9, self.10, self.11, self.12, self.13, self.14, self.15, self.16, self.17, self.18, self.19, self.20).parse_ensures(t7, Err(e)));
                assert((self.6, self.7, self.8, self.9, self.10, self.11, self.12, self.13, self.14, self.15, self.16, self.17, self.18, self.19, self.20).parse_ensures(t6, Err(e)));
                assert((self.5, self.6, self.7, self.8, self.9, self.10, self.11, self.12, self.13, self.14, self.15, self.16, self.17, self.18, self.19, self.20).parse_ensures(t5, Err(e)));
                assert((self.4, self.5, self.6, self.7, self.8, self.9, self.10, self.11, self.12, self.13, self.14, self.15, self.16, self.17, self.18, self.19, self.20).parse_ensures(t4, Err(e)));
                assert((self.3, self.4, self.5, self.6, self.7, self.8, self.9, self.10, self.11, self.12, self.13, self.14, self.15, self.16, self.17, self.18, self.19, self.20).parse_ensures(t3, Err(e)));
                assert((self.2, self.3, self.4, self.5, self.6, self.7, self.8, self.9, self.10, self.11, self.12, self.13, self.14, self.15, self.16, self.17, self.18, self.19, self.20).parse_ensures(t2, Err(e)));
                assert((self.1, self.2, self.3, self.4, self.5, self.6, self.7, self.8, self.9, self.10, self.11, self.12, self.13, self.14, self.15, self.16, self.17, self.18, self.19, self.20).parse_ensures(t1, Err(e)));
                return Err(e);
            },
        };
        assert(self.13.parse_ensures(t13, Ok((n, t14))));
        assert((self.14, self.15, self.16, self.17, self.18, self.19, self.20).parse_requires(t14));
        let (o, t15) = match self.14.parse(t14) {
            Ok(r) => r,
            Err(e) => {
                assert((self.14, self.15, self.16, self.17, self.18, self.19, self.20).parse_ensures(t14, Err(e)));
                assert((self.13, self.14, self.15, self.16, self.17, self.18, self.19, self.20).parse_ensures(t13, Err(e)));
                assert((self.12, self.13, self.14, self.15, self.16, self.17, self.18, self.19, self.20).parse_ensures(t12, Err(e)));
                assert((self.11, self.12, self.13, self.14, self.15, self.16, self.17, self.18, self.19, self.20).parse_ensures(t11, Err(e)));
                assert((self.10, self.11, self.12, self.13, self.14, self.15, self.16, self.17, self.18, self.19, self.20).parse_ensures(t10, Err(e)));
                assert((self.9, self.10, self.11, self.12, self.13, self.14, self.15, self.16, self.17, self.18, self.19, self.20).parse_ensures(t9, Err(e)));
                assert((self.8, self.9, self.10, self.11, self.12, self.13, self.14, self.15, self.16, self.17, self.18, self.19, self.20).parse_ensures(t8, Err(e)));
                assert((self.7, self.8, self.9, self.10, self.11, self.12, self.13, self.14, self.15, self.16, self.17, self.18, self.19, self.20).parse_ensures(t7, Err(e)));
                assert((self.6, self.7, self.8, self.9, self.10, self.11, self.12, self.13, self.14, self.15, self.16, self.17, self.18, self.19, self.20).parse_ensures(t6, Err(e)));
                assert((self.5, self.6, self.7, self.8, self.9, self.10, self.11, self.12, self.13, self.14, self.15, self.16, self.17, self.18, self.19, self.20).parse_ensures(t5, Err(e)));
                assert((self.4, self.5, self.6, self.7, self.8, self.9, self.10, self.11, self.12, self.13, self.14, self.15, self.16, self.17, self.18, self.19, self.20).parse_ensures(t4, Err(e)));
                assert((self.3, self.4, self.5, self.6, self.7, self.8, self.9, self.10, self.11, self.12, self.13, self.14, self.15, self.16, self.17, self.18, self.19, self.20).parse_ensures(t3, Err(e)));
                assert((self.2, self.3, self.4, self.5, self.6, self.7, self.8, self.9, self.10, self.11, self.12, self.13, self.14, self.15, self.16, self.17, self.18, self.19, self.20).parse_ensures(t2, Err(e)));
                assert((self.1, self.2, self.3, self.4, self.5, self.6, self.7, self.8, self.9, self.10, self.11, self.12, self.13, self.14, self.15, self.16, self.17, self.18, self.19, self.20).parse_ensures(t1, Err(e)));
                return Err(e);
            },
        };
        assert(self.14.parse_ensures(t14, Ok((o, t15))));
        assert((self.15, self.16, self.17, self.18, self.19, self.20).parse_requires(t15));
        let (p, t16) = match self.15.parse(t15) {
            Ok(r) => r,
            Err(e) => {
                assert((self.15, self.16, self.17, self.18, self.19, self.20).parse_ensures(t15, Err(e)));
                assert((self.14, self.15, self.16, self.17, self.18, self.19, self.20).parse_ensures(t14, Err(e)));
                assert((self.13, self.14, self.15, self.16, self.17, self.18, self.19, self.20).parse_ensures(t13, Err(e)));
                assert((self.12, self.13, self.14, self.15, self.16, self.17, self.18, self.19, self.20).parse_ensures(t12, Err(e)));
                assert((self.11, self.12, self.13, self.14, self.15, self.16, self.17, self.18, self.19, self.20).parse_ensures(t11, Err(e)));
                assert((self.10, self.11, self.12, self.13, self.14, self.15, self.16, self.17, self.18, self.19, self.20).parse_ensures(t10, Err(e)));
                assert((self.9, self.10, self.11, self.12, self.13, self.14, self.15, self.16, self.17, self.18, self.19, self.20).parse_ensures(t9, Err(e)));
                assert((self.8, self.9, self.10, self.11, self.12, self.13, self.14, self.15, self.16, self.17, self.18, self.19, self.20).parse_ensures(t8, Err(e)));
                assert((self.7, self.8, self.9, self.10, self.11, self.12, self.13, self.14, self.15, self.16, self.17, self.18, self.19, self.20).parse_ensures(t7, Err(e)));
                assert((self.6, self.7, self.8, self.9, self.10, self.11, self.12, self.13, self.14, self.15, self.16, self.17, self.18, self.19, self.20).parse_ensures(t6, Err(e)));
                assert((self.5, self.6, self.7, self.8, self.9, self.10, self.11, self.12, self.13, self.14, self.15, self.16, self.17, self.18, self.19, self.20).parse_ensures(t5, Err(e)));
                assert((self.4, self.5, self.6, self.7, self.8, self.9, self.10, self.11, self.12, self.13, self.14, self.15, self.16, self.17, self.18, self.19, self.20).parse_ensures(t4, Err(e)));
                assert((self.3, self.4, self.5, self.6, self.7, self.8, self.9, self.10, self.11, self.12, self.13, self.14, self.15, self.16, self.17, self.18, self.19, self.20).parse_ensures(t3, Err(e)));
                assert((self.2, self.3, self.4, self.5, self.6, self.7, self.8, self.9, self.10, self.11, self.12, self.13, self.14, self.15, self.16, self.17, self.18, self.19, self.20).parse_ensures(t2, Err(e)));
                assert((self.1, self.2, self.3, self.4, self.5, self.6, self.7, self.8, self.9, self.10, self.11, self.12, self.13, self.14, self.15, self.16, self.17, self.18, self.19, self.20).parse_ensures(t1, Err(e)));
                return Err(e);
            },
        };
        assert(self.15.parse_ensures(t15, Ok((p, t16))));
        assert((self.16, self.17, self.18, self.19, self.20).parse_requires(t16));
        let (q, t17) = match self.16.parse(t16) {
            Ok(r) => r,
            Err(e) => {
                assert((self.16, self.17, self.18, self.19, self.20).parse_ensures(t16, Err(e)));
                assert((self.15, self.16, self.17, self.18, self.19, self.20).parse_ensures(t15, Err(e)));
                assert((self.14, self.15, self.16, self.17, self.18, self.19, self.20).parse_ensures(t14, Err(e)));
                assert((self.13, self.14, self.15, self.16, self.17, self.18, self.19, self.20).parse_ensures(t13, Err(e)));
                assert((self.12, self.13, self.14, self.15, self.16, self.17, self.18, self.19, self.20).parse_ensures(t12, Err(e)));
                assert((self.11, self.12, self.13, self.14, self.15, self.16, self.17, self.18, self.19, self.20).parse_ensures(t11, Err(e)));
                assert((self.10, self.11, self.12, self.13, self.14, self.15, self.16, self.17, self.18, self.19, self.20).parse_ensures(t10, Err(e)));
                assert((self.9, self.10, self.11, self.12, self.13, self.14, self.15, self.16, self.17, self.18, self.19, self.20).parse_ensures(t9, Err(e)));
                assert((self.8, self.9, self.10, self.11, self.12, self.13, self.14, self.15, self.16, self.17, self.18, self.19, self.20).parse_ensures(t8, Err(e)));
                assert((self.7, self.8, self.9, self.10, self.11, self.12, self.13, self.14, self.15, self.16, self.17, self.18, self.19, self.20).parse_ensures(t7, Err(e)));
                assert((self.6, self.7, self.8, self.9, self.10, self.11, self.12, self.13, self.14, self.15, self.16, self.17, self.18, self.19, self.20).parse_ensures(t6, Err(e)));
                assert((self.5, self.6, self.7, self.8, self.9, self.10, self.11, self.12, self.13, self.14, self.15, self.16, self.17, self.18, self.19, self.20).parse_ensures(t5, Err(e)));
                assert((self.4, self.5, self.6, self.7, self.8, self.9, self.10, self.11, self.12, self.13, self.14, self.15, self.16, self.17, self.18, self.19, self.20).parse_ensures(t4, Err(e)));
                assert((self.3, self.4, self.5, self.6, self.7, self.8, self.9, self.10, self.11, self.12, self.13, self.14, self.15, self.16, self.17, self.18, self.19, self.20).parse_ensures(t3, Err(e)));
                assert((self.2, self.3, self.4, self.5, self.6, self.7, self.8, self.9, self.10, self.11, self.12, self.13, self.14, self.15, self.16, self.17, self.18, self.19, self.20).parse_ensures(t2, Err(e)));
                assert((self.1, self.2, self.3, self.4, self.5, self.6, self.7, self.8, self.9, self.10, self.11, self.12, self.13, self.14, self.15, self.16, self.17, self.18, self.19, self.20).parse_ensures(t1, Err(e)));
                return Err(e);
            },
        };
        assert(self.16.parse_ensures(t16, Ok((q, t17))));
        assert((self.17, self.18, self.19, self.20).parse_requires(t17));
        let (r, t18) = match self.17.parse(t17) {
            Ok(r) => r,
            Err(e) => {
                assert((self.17, self.18, self.19, self.20).parse_ensures(t17, Err(e)));
                assert((self.16, self.17, self.18, self.19, self.20).parse_ensures(t16, Err(e)));
                assert((self.15, self.16, self.17, self.18, self.19, self.20).parse_ensures(t15, Err(e)));
                assert((self.14, self.15, self.16, self.17, self.18, self.19, self.20).parse_ensures(t14, Err(e)));
                assert((self.13, self.14, self.15, self.16, self.17, self.18, self.19, self.20).parse_ensures(t13, Err(e)));
                assert((self.12, self.13, self.14, self.15, self.16, self.17, self.18, self.19, self.20).parse_ensures(t12, Err(e)));
                assert((self.11, self.12, self.13, self.14, self.15, self.16, self.17, self.18, self.19, self.20).parse_ensures(t11, Err(e)));
                assert((self.10, self.11, self.12, self.13, self.14, self.15, self.16, self.17, self.18, self.19, self.20).parse_ensures(t10, Err(e)));
                assert((self.9, self.10, self.11, self.12, self.13, self.14, self.15, self.16, self.17, self.18, self.19, self.20).parse_ensures(t9, Err(e)));
                assert((self.8, self.9, self.10, self.11, self.12, self.13, self.14, self.15, self.16, self.17, self.18, self.19, self.20).parse_ensures(t8, Err(e)));
                assert((self.7, self.8, self.9, self.10, self.11, self.12, self.13, self.14, self.15, self.16, self.17, self.18, self.19, self.20).parse_ensures(t7, Err(e)));
                assert((self.6, self.7, self.8, self.9, self.10, self.11, self.12, self.13, self.14, self.15, self.16, self.17, self.18, self.19, self.20).parse_ensures(t6, Err(e)));
                assert((self.5, self.6, self.7, self.8, self.9, self.10, self.11, self.12, self.13, self.14, self.15, self.16, self.17, self.18, self.19, self.20).parse_ensures(t5, Err(e)));
                assert((self.4, self.5, self.6, self.7, self.8, self.9, self.10, self.11, self.12, self.13, self.14, self.15, self.16, self.17, self.18, self.19, self.20).parse_ensures(t4, Err(e)));
                assert((self.3, self.4, self.5, self.6, self.7, self.8, self.9, self.10, self.11, self.12, self.13, self.14, self.15, self.16, self.17, self.18, self.19, self.20).parse_ensures(t3, Err(e)));
                assert((self.2, self.3, self.4, self.5, self.6, self.7, self.8, self.9, self.10, self.11, self.12, self.13, self.14, self.15, self.16, self.17, self.18, self.19, self.20).parse_ensures(t2, Err(e)));
                assert((self.1, self.2, self.3, self.4, self.5, self.6, self.7, self.8, self.9, self.10, self.11, self.12, self.13, self.14, self.15, self.16, self.17, self.18, self.19, self.20).parse_ensures(t1, Err(e)));
                return Err(e);
            },
        };
        assert(self.17.parse_ensures(t17, Ok((r, t18))));
        assert((self.18, self.19, self.20).parse_requires(t18));
        let (s, t19) = match self.18.parse(t18) {
            Ok(r) => r,
            Err(e) => {
                assert((self.18, self.19, self.20).parse_ensures(t18, Err(e)));
                assert((self.17, self.18, self.19, self.20).parse_ensures(t17, Err(e)));
                assert((self.16, self.17, self.18, self.19, self.20).parse_ensures(t16, Err(e)));
                assert((self.15, self.16, self.17, self.18, self.19, self.20).parse_ensures(t15, Err(e)));
                assert((self.14, self.15, self.16, self.17, self.18, self.19, self.20).parse_ensures(t14, Err(e)));
                assert((self.13, self.14, self.15, self.16, self.17, self.18, self.19, self.20).parse_ensures(t13, Err(e)));
                assert((self.12, self.13, self.14, self.15, self.16, self.17, self.18, self.19, self.20).parse_ensures(t12, Err(e)));
                assert((self.11, self.12, self.13, self.14, self.15, self.16, self.17, self.18, self.19, self.20).parse_ensures(t11, Err(e)));
                assert((self.10, self.11, self.12, self.13, self.14, self.15, self.16, self.17, self.18, self.19, self.20).parse_ensures(t10, Err(e)));
                assert((self.9, self.10, self.11, self.12, self.13, self.14, self.15, self.16, self.17, self.18, self.19, self.20).parse_ensures(t9, Err(e)));
                assert((self.8, self.9, self.10, self.11, self.12, self.13, self.14, self.15, self.16, self.17, self.18, self.19, self.20).parse_ensures(t8, Err(e)));
                assert((self.7, self.8, self.9, self.10, self.11, self.12, self.13, self.14, self.15, self.16, self.17, self.18, self.19, self.20).parse_ensures(t7, Err(e)));
                assert((self.6, self.7, self.8, self.9, self.10, self.11, self.12, self.13, self.14, self.15, self.16, self.17, self.18, self.19, self.20).parse_ensures(t6, Err(e)));
                assert((self.5, self.6, self.7, self.8, self.9, self.10, self.11, self.12, self.13, self.14, self.15, self.16, self.17, self.18, self.19, self.20).parse_ensures(t5, Err(e)));
                assert((self.4, self.5, self.6, self.7, self.8, self.9, self.10, self.11, self.12, self.13, self.14, self.15, self.16, self.17, self.18, self.19, self.20).parse_ensures(t4, Err(e)));
                assert((self.3, self.4, self.5, self.6, self.7, self.8, self.9, self.10, self.11, self.12, self.13, self.14, self.15, self.16, self.17, self.18, self.19, self.20).parse_ensures(t3, Err(e)));
                assert((self.2, self.3, self.4, self.5, self.6, self.7, self.8, self.9, self.10, self.11, self.12, self.13, self.14, self.15, self.16, self.17, self.18, self.19, self.20).parse_ensures(t2, Err(e)));
                assert((self.1, self.2, self.3, self.4, self.5, self.6, self.7, self.8, self.9, self.10, self.11, self.12, self.13, self.14, self.15, self.16, self.17, self.18, self.19, self.20).parse_ensures(t1, Err(e)));
                return Err(e);
            },
        };
        assert(self.18.parse_ensures(t18, Ok((s, t19))));
        assert((self.19, self.20).parse_requires(t19));
        let (t, t20) = match self.19.parse(t19) {
            Ok(r) => r,
            Err(e) => {
                assert((self.19, self.20).parse_ensures(t19, Err(e)));
                assert((self.18, self.19, self.20).parse_ensures(t18, Err(e)));
                assert((self.17, self.18, self.19, self.20).parse_ensures(t17, Err(e)));
                assert((self.16, self.17, self.18, self.19, self.20).parse_ensures(t16, Err(e)));
                assert((self.15, self.16, self.17, self.18, self.19, self.20).parse_ensures(t15, Err(e)));
                assert((self.14, self.15, self.16, self.17, self.18, self.19, self.20).parse_ensures(t14, Err(e)));
                assert((self.13, self.14, self.15, self.16, self.17, self.18, self.19, self.20).parse_ensures(t13, Err(e)));
                assert((self.12, self.13, self.14, self.15, self.16, self.17, self.18, self.19, self.20).parse_ensures(t12, Err(e)));
                assert((self.11, self.12, self.13, self.14, self.15, self.16, self.17, self.18, self.19, self.20).parse_ensures(t11, Err(e)));
                assert((self.10, self.11, self.12, self.13, self.14, self.15, self.16, self.17, self.18, self.19, self.20).parse_ensures(t10, Err(e)));
                assert((self.9, self.10, self.11, self.12, self.13, self.14, self.15, self.16, self.17, self.18, self.19, self.20).parse_ensures(t9, Err(e)));
                assert((self.8, self.9, self.10, self.11, self.12, self.13, self.14, self.15, self.16, self.17, self.18, self.19, self.20).parse_ensures(t8, Err(e)));
                assert((self.7, self.8, self.9, self.10, self.11, self.12, self.13, self.14, self.15, self.16, self.17, self.18, self.19, self.20).parse_ensures(t7, Err(e)));
                assert((self.6, self.7, self.8, self.9, self.10, self.11, self.12, self.13, self.14, self.15, self.16, self.17, self.18, self.19, self.20).parse_ensures(t6, Err(e)));
                assert((self.5, self.6, self.7, self.8, self.9, self.10, self.11, self.12, self.13, self.14, self.15, self.16, self.17, self.18, self.19, self.20).parse_ensures(t5, Err(e)));
                assert((self.4, self.5, self.6, self.7, self.8, self.9, self.10, self.11, self.12, self.13, self.14, self.15, self.16, self.17, self.18, self.19, self.20).parse_ensures(t4, Err(e)));
                assert((self.3, self.4, self.5, self.6, self.7, self.8, self.9, self.10, self.11, self.12, self.13, self.14, self.15, self.16, self.17, self.18, self.19, self.20).parse_ensures(t3, Err(e)));
                assert((self.2, self.3, self.4, self.5, self.6, self.7, self.8, self.9, self.10, self.11, self.12, self.13, self.14, self.15, self.16, self.17, self.18, self.19, self.20).parse_ensures(t2, Err(e)));
                assert((self.1, self.2, self.3, self.4, self.5, self.6, self.7, self.8, self.9, self.10, self.11, self.12, self.13, self.14, self.15, self.16, self.17, self.18, self.19, self.20).parse_ensures(t1, Err(e)));
                return Err(e);
            },
        };
        assert(self.19.parse_ensures(t19, Ok((t, t20))));
        let (u, t21) = match self.20.parse(t20) {
            Ok(r) => r,
            Err(e) => {
                assert((self.19, self.20).parse_ensures(t19, Err(e)));
                assert((self.18, self.19, self.20).parse_ensures(t18, Err(e)));
                assert((self.17, self.18, self.19, self.20).parse_ensures(t17, Err(e)));
                assert((self.16, self.17, self.18, self.19, self.20).parse_ensures(t16, Err(e)));
                assert((self.15, self.16, self.17, self.18, self.19, self.20).parse_ensures(t15, Err(e)));
                assert((self.14, self.15, self.16, self.17, self.18, self.19, self.20).parse_ensures(t14, Err(e)));
                assert((self.13, self.14, self.15, self.16, self.17, self.18, self.19, self.20).parse_ensures(t13, Err(e)));
                assert((self.12, self.13, self.14, self.15, self.16, self.17, self.18, self.19, self.20).parse_ensures(t12, Err(e)));
                assert((self.11, self.12, self.13, self.14, self.15, self.16, self.17, self.18, self.19, self.20).parse_ensures(t11, Err(e)));
                assert((self.10, self.11, self.12, self.13, self.14, self.15, self.16, self.17, self.18, self.19, self.20).parse_ensures(t10, Err(e)));
                assert((self.9, self.10, self.11, self.12, self.13, self.14, self.15, self.16, self.17, self.18, self.19, self.20).parse_ensures(t9, Err(e)));
                assert((self.8, self.9, self.10, self.11, self.12, self.13, self.14, self.15, self.16, self.17, self.18, self.19, self.20).parse_ensures(t8, Err(e)));
                assert((self.7, self.8, self.9, self.10, self.11, self.12, self.13, self.14, self.15, self.16, self.17, self.18, self.19, self.20).parse_ensures(t7, Err(e)));
                assert((self.6, self.7, self.8, self.9, self.10, self.11, self.12, self.13, self.14, self.15, self.16, self.17, self.18, self.19, self.20).parse_ensures(t6, Err(e)));
                assert((self.5, self.6, self.7, self.8, self.9, self.10, self.11, self.12, self.13, self.14, self.15, self.16, self.17, self.18, self.19, self.20).parse_ensures(t5, Err(e)));
                assert((self.4, self.5, self.6, self.7, self.8, self.9, self.10, self.11, self.12, self.13, self.14, self.15, self.16, self.17, self.18, self.19, self.20).parse_ensures(t4, Err(e)));
                assert((self.3, self.4, self.5, self.6, self.7, self.8, self.9, self.10, self.11, self.12, self.13, self.14, self.15, self.16, self.17, self.18, self.19, self.20).parse_ensures(t3, Err(e)));
                assert((self.2, self.3, self.4, self.5, self.6, self.7, self.8, self.9, self.10, self.11, self.12, self.13, self.14, self.15, self.16, self.17, self.18, self.19, self.20).parse_ensures(t2, Err(e)));
                assert((self.1, self.2, self.3, self.4, self.5, self.6, self.7, self.8, self.9, self.10, self.11, self.12, self.13, self.14, self.15, self.16, self.17, self.18, self.19, self.20).parse_ensures(t1, Err(e)));
                return Err(e);
            },
        };
        assert((self.19, self.20).parse_ensures(t19, Ok(((t, u), t21))));
        assert((self.18, self.19, self.20).parse_ensures(t18, Ok(((s, t, u), t21))));
        assert((self.17, self.18, self.19, self.20).parse_ensures(t17, Ok(((r, s, t, u), t21))));
        assert((self.16, self.17, self.18, self.19, self.20).parse_ensures(t16, Ok(((q, r, s, t, u), t21))));
        assert((self.15, self.16, self.17, self.18, self.19, self.20).parse_ensures(t15, Ok(((p, q, r, s, t, u), t21))));
        assert((self.14, self.15, self.16, self.17, self.18, self.19, self.20).parse_ensures(t14, Ok(((o, p, q, r, s, t, u), t21))));
        assert((self.13, self.14, self.15, self.16, self.17, self.18, self.19, self.20).parse_ensures(t13, Ok(((n, o, p, q, r, s, t, u), t21))));
        assert((self.12, self.13, self.14, self.15, self.16, self.17, self.18, self.19, self.20).parse_ensures(t12, Ok(((m, n, o, p, q, r, s, t, u), t21))));
        assert((self.11, self.12, self.13, self.14, self.15, self.16, self.17, self.18, self.19, self.20).parse_ensures(t11, Ok(((l, m, n, o, p, q, r, s, t, u), t21))));
        assert((self.10, self.11, self.12, self.13, self.14, self.15, self.16, self.17, self.18, self.19, self.20).parse_ensures(t10, Ok(((k, l, m, n, o, p, q, r, s, t, u), t21))));
        assert((self.9, self.10, self.11, self.12, self.13, self.14, self.15, self.16, self.17, self.18, self.19, self.20).parse_ensures(t9, Ok(((j, k, l, m, n, o, p, q, r, s, t, u), t21))));
        assert((self.8, self.9, self.10, self.11, self.12, self.13, self.14, self.15, self.16, self.17, self.18, self.19, self.20).parse_ensures(t8, Ok(((i, j, k, l, m, n, o, p, q, r, s, t, u), t21))));
        assert((self.7, self.8, self.9, self.10, self.11, self.12, self.13, self.14, self.15, self.16, self.17, self.18, self.19, self.20).parse_ensures(t7, Ok(((h, i, j, k, l, m, n, o, p, q, r, s, t, u), t21))));
        assert((self.6, self.7, self.8, self.9, self.10, self.11, self.12, self.13, self.14, self.15, self.16, self.17, self.18, self.19, self.20).parse_ensures(t6, Ok(((g, h, i, j, k, l, m, n, o, p, q, r, s, t, u), t21))));
        assert((self.5, self.6, self.7, self.8, self.9, self.10, self.11, self.12, self.13, self.14, self.15, self.16, self.17, self.18, self.19, self.20).parse_ensures(t5, Ok(((f, g, h, i, j, k, l, m, n, o, p, q, r, s, t, u), t21))));
        assert((self.4, self.5, self.6, self.7, self.8, self.9, self.10, self.11, self.12, self.13, self.14, self.15, self.16, self.17, self.18, self.19, self.20).parse_ensures(t4, Ok(((e, f, g, h, i, j, k, l, m, n, o, p, q, r, s, t, u), t21))));
        assert((self.3, self.4, self.5, self.6, self.7, self.8, self.9, self.10, self.11, self.12, self.13, self.14, self.15, self.16, self.17, self.18, self.19, self.20).parse_ensures(t3, Ok(((d, e, f, g, h, i, j, k, l, m, n, o, p, q, r, s, t, u), t21))));
        assert((self.2, self.3, self.4, self.5, self.6, self.7, self.8, self.9, self.10, self.11, self.12, self.13, self.14, self.15, self.16, self.17, self.18, self.19, self.20).parse_ensures(t2, Ok(((c, d, e, f, g, h, i, j, k, l, m, n, o, p, q, r, s, t, u), t21))));
        assert((self.1, self.2, self.3, self.4, self.5, self.6, self.7, self.8, self.9, self.10, self.11, self.12, self.13, self.14, self.15, self.16, self.17, self.18, self.19, self.20).parse_ensures(t1, Ok(((b, c, d, e, f, g, h, i, j, k, l, m, n, o, p, q, r, s, t, u), t21))));
        Ok(((a, b, c, d, e, f, g, h, i, j, k, l, m, n, o, p, q, r, s, t, u), t21))
    }
}

/// A tuple of 21 deterministic parsers is deterministic.
pub proof fn lemma_tuple21_deterministic<Inp, Er, A, B, C, D, E, F, G, H, I, J, K, L, M, N, O, P, Q, R, S, T, U>(t: (A, B, C, D, E, F, G, H, I, J, K, L, M, N, O, P, Q, R, S, T, U))
    where
        A: Parser<Inp, Error = Er>,
        B: Parser<Inp, Error = Er>,
        C: Parser<Inp, Error = Er>,
        D: Parser<Inp, Error = Er>,
        E: Parser<Inp, Error = Er>,
        F: Parser<Inp, Error = Er>,
        G: Parser<Inp, Error = Er>,
        H: Parser<Inp, Error = Er>,
        I: Parser<Inp, Error = Er>,
        J: Parser<Inp, Error = Er>,
        K: Parser<Inp, Error = Er>,
        L: Parser<Inp, Error = Er>,
        M: Parser<Inp, Error = Er>,
        N: Parser<Inp, Error = Er>,
        O: Parser<Inp, Error = Er>,
        P: Parser<Inp, Error = Er>,
        Q: Parser<Inp, Error = Er>,
        R: Parser<Inp, Error = Er>,
        S: Parser<Inp, Error = Er>,
        T: Parser<Inp, Error = Er>,
        U: Parser<Inp, Error = Er>,
    requires
        deterministic::<Inp, A>(t.0),
        deterministic::<Inp, B>(t.1),
        deterministic::<Inp, C>(t.2),
        deterministic::<Inp, D>(t.3),
        deterministic::<Inp, E>(t.4),
        deterministic::<Inp, F>(t.5),
        deterministic::<Inp, G>(t.6),
        deterministic::<Inp, H>(t.7),
        deterministic::<Inp, I>(t.8),
        deterministic::<Inp, J>(t.9),
        deterministic::<Inp, K>(t.10),
        deterministic::<Inp, L>(t.11),
        deterministic::<Inp, M>(t.12),
        deterministic::<Inp, N>(t.13),
        deterministic::<Inp, O>(t.14),
        deterministic::<Inp, P>(t.15),
        deterministic::<Inp, Q>(t.16),
        deterministic::<Inp, R>(t.17),
        deterministic::<Inp, S>(t.18),
        deterministic::<Inp, T>(t.19),
        deterministic::<Inp, U>(t.20),
    ensures
        deterministic::<Inp, (A, B, C, D, E, F, G, H, I, J, K, L, M, N, O, P, Q, R, S, T, U)>(t),
{
    lemma_tuple20_deterministic::<Inp, Er, B, C, D, E, F, G, H, I, J, K, L, M, N, O, P, Q, R, S, T, U>((t.1, t.2, t.3, t.4, t.5, t.6, t.7, t.8, t.9, t.10, t.11, t.12, t.13, t.14, t.15, t.16, t.17, t.18, t.19, t.20));
    lemma_seq_unique::<Inp, A, (B, C, D, E, F, G, H, I, J, K, L, M, N, O, P, Q, R, S, T, U)>(t.0, (t.1, t.2, t.3, t.4, t.5, t.6, t.7, t.8, t.9, t.10, t.11, t.12, t.13, t.14, t.15, t.16, t.17, t.18, t.19, t.20));
}

/// A tuple of 22 parsers sharing one error type runs them in order.
impl<Inp, Er, A, B, C, D, E, F, G, H, I, J, K, L, M, N, O, P, Q, R, S, T, U, V> Parser<Inp> for (A, B, C, D, E, F, G, H, I, J, K, L, M, N, O, P, Q, R, S, T, U, V) where
    A: Parser<Inp, Error = Er>,
    B: Parser<Inp, Error = Er>,
    C: Parser<Inp, Error = Er>,
    D: Parser<Inp, Error = Er>,
    E: Parser<Inp, Error = Er>,
    F: Parser<Inp, Error = Er>,
    G: Parser<Inp, Error = Er>,
    H: Parser<Inp, Error = Er>,
    I: Parser<Inp, Error = Er>,
    J: Parser<Inp, Error = Er>,
    K: Parser<Inp, Error = Er>,
    L: Parser<Inp, Error = Er>,
    M: Parser<Inp, Error = Er>,
    N: Parser<Inp, Error = Er>,
    O: Parser<Inp, Error = Er>,
    P: Parser<Inp, Error = Er>,
    Q: Parser<Inp, Error = Er>,
    R: Parser<Inp, Error = Er>,
    S: Parser<Inp, Error = Er>,
    T: Parser<Inp, Error = Er>,
    U: Parser<Inp, Error = Er>,
    V: Parser<Inp, Error = Er>,
 {
    type Out = (A::Out, B::Out, C::Out, D::Out, E::Out, F::Out, G::Out, H::Out, I::Out, J::Out, K::Out, L::Out, M::Out, N::Out, O::Out, P::Out, Q::Out, R::Out, S::Out, T::Out, U::Out, V::Out);

    type Error = Er;

    open spec fn parse_requires(&self, input: Inp) -> bool {
        seq_requires(self.0, (self.1, self.2, self.3, self.4, self.5, self.6, self.7, self.8, self.9, self.10, self.11, self.12, self.13, self.14, self.15, self.16, self.17, self.18, self.19, self.20, self.21), input)
    }

    open spec fn parse_ensures(&self, input: Inp, res: Result<((A::Out, B::Out, C::Out, D::Out, E::Out, F::Out, G::Out, H::Out, I::Out, J::Out, K::Out, L::Out, M::Out, N::Out, O::Out, P::Out, Q::Out, R::Out, S::Out, T::Out, U::Out, V::Out), Inp), Er>) -> bool {
        match res {
            Ok(((a, b, c, d, e, f, g, h, i, j, k, l, m, n, o, p, q, r, s, t, u, v), rest)) => seq_ok(self.0, (self.1, self.2, self.3, self.4, self.5, self.6, self.7, self.8, self.9, self.10, self.11, self.12, self.13, self.14, self.15, self.16, self.17, self.18, self.19, self.20, self.21), input, a, (b, c, d, e, f, g, h, i, j, k, l, m, n, o, p, q, r, s, t, u, v), rest),
            Err(e) => seq_err(self.0, (self.1, self.2, self.3, self.4, self.5, self.6, self.7, self.8, self.9, self.10, self.11, self.12, self.13, self.14, self.15, self.16, self.17, self.18, self.19, self.20, self.21), input, e),
        }
    }

    fn parse(&self, txt: Inp) -> (res: Result<((A::Out, B::Out, C::Out, D::Out, E::Out, F::Out, G::Out, H::Out, I::Out, J::Out, K::Out, L::Out, M::Out, N::Out, O::Out, P::Out, Q::Out, R::Out, S::Out, T::Out, U::Out, V::Out), Inp), Er>) {
        let ghost t0 = txt;
        let (a, t1) = match self.0.parse(txt) {
            Ok(r) => r,
            Err(e) => return Err(e),
        };
        assert(self.0.parse_ensures(t0, Ok((a, t1))));
        assert((self.1, self.2, self.3, self.4, self.5, self.6, self.7, self.8, self.9, self.10, self.11, self.12, self.13, self.14, self.15, self.16, self.17, self.18, self.19, self.20, self.21).parse_requires(t1));
        let (b, t2) = match self.1.parse(t1) {
            Ok(r) => r,
            Err(e) => {
                assert((self.1, self.2, self.3, self.4, self.5, self.6, self.7, self.8, self.9, self.10, self.11, self.12, self.13, self.14, self.15, self.16, self.17, self.18, self.19, self.20, self.21).parse_ensures(t1, Err(e)));
                return Err(e);
            },
        };
        assert(self.1.parse_ensures(t1, Ok((b, t2))));
        assert((self.2, self.3, self.4, self.5, self.6, self.7, self.8, self.9, self.10, self.11, self.12, self.13, self.14, self.15, self.16, self.17, self.18, self.19, self.20, self.21).parse_requires(t2));
        let (c, t3) = match self.2.parse(t2) {
            Ok(r) => r,
            Err(e) => {
                assert((self.2, self.3, self.4, self.5, self.6, self.7, self.8, self.9, self.10, self.11, self.12, self.13, self.14, self.15, self.16, self.17, self.18, self.19, self.20, self.21).parse_ensures(t2, Err(e)));
                assert((self.1, self.2, self.3, self.4, self.5, self.6, self.7, self.8, self.9, self.10, self.11, self.12, self.13, self.14, self.15, self.16, self.17, self.18, self.19, self.20, self.21).parse_ensures(t1, Err(e)));
                return Err(e);
            },
        };
        assert(self.2.parse_ensures(t2, Ok((c, t3))));
        assert((self.3, self.4, self.5, self.6, self.7, self.8, self.9, self.10, self.11, self.12, self.13, self.14, self.15, self.16, self.17, self.18, self.19, self.20, self.21).parse_requires(t3));
        let (d, t4) = match self.3.parse(t3) {
            Ok(r) => r,
            Err(e) => {
                assert((self.3, self.4, self.5, self.6, self.7, self.8, self.9, self.10, self.11, self.12, self.13, self.14, self.15, self.16, self.17, self.18, self.19, self.20, self.21).parse_ensures(t3, Err(e)));
                assert((self.2, self.3, self.4, self.5, self.6, self.7, self.8, self.9, self.10, self.11, self.12, self.13, self.14, self.15, self.16, self.17, self.18, self.19, self.20, self.21).parse_ensures(t2, Err(e)));
                assert((self.1, self.2, self.3, self.4, self.5, self.6, self.7, self.8, self.9, self.10, self.11, self.12, self.13, self.14, self.15, self.16, self.17, self.18, self.19, self.20, self.21).parse_ensures(t1, Err(e)));
                return Err(e);
            },
        };
        assert(self.3.parse_ensures(t3, Ok((d, t4))));
        assert((self.4, self.5, self.6, self.7, self.8, self.9, self.10, self.11, self.12, self.13, self.14, self.15, self.16, self.17, self.18, self.19, self.20, self.21).parse_requires(t4));
        let (e, t5) = match self.4.parse(t4) {
            Ok(r) => r,
            Err(e) => {
                assert((self.4, self.5, self.6, self.7, self.8, self.9, self.10, self.11, self.12, self.13, self.14, self.15, self.16, self.17, self.18, self.19, self.20, self.21).parse_ensures(t4, Err(e)));
                assert((self.3, self.4, self.5, self.6, self.7, self.8, self.9, self.10, self.11, self.12, self.13, self.14, self.15, self.16, self.17, self.18, self.19, self.20, self.21).parse_ensures(t3, Err(e)));
                assert((self.2, self.3, self.4, self.5, self.6, self.7, self.8, self.9, self.10, self.11, self.12, self.13, self.14, self.15, self.16, self.17, self.18, self.19, self.20, self.21).parse_ensures(t2, Err(e)));
                assert((self.1, self.2, self.3, self.4, self.5, self.6, self.7, self.8, self.9, self.10, self.11, self.12, self.13, self.14, self.15, self.16, self.17, self.18, self.19, self.20, self.21).parse_ensures(t1, Err(e)));
                return Err(e);
            },
        };
        assert(self.4.parse_ensures(t4, Ok((e, t5))));
        assert((self.5, self.6, self.7, self.8, self.9, self.10, self.11, self.12, self.13, self.14, self.15, self.16, self.17, self.18, self.19, self.20, self.21).parse_requires(t5));
        let (f, t6) = match self.5.parse(t5) {
            Ok(r) => r,
            Err(e) => {
                assert((self.5, self.6, self.7, self.8, self.9, self.10, self.11, self.12, self.13, self.14, self.15, self.16, self.17, self.18, self.19, self.20, self.21).parse_ensures(t5, Err(e)));
                assert((self.4, self.5, self.6, self.7, self.8, self.9, self.10, self.11, self.12, self.13, self.14, self.15, self.16, self.17, self.18, self.19, self.20, self.21).parse_ensures(t4, Err(e)));
                assert((self.3, self.4, self.5, self.6, self.7, self.8, self.9, self.10, self.11, self.12, self.13, self.14, self.15, self.16, self.17, self.18, self.19, self.20, self.21).parse_ensures(t3, Err(e)));
                assert((self.2, self.3, self.4, self.5, self.6, self.7, self.8, self.9, self.10, self.11, self.12, self.13, self.14, self.15, self.16, self.17, self.18, self.19, self.20, self.21).parse_ensures(t2, Err(e)));
                assert((self.1, self.2, self.3, self.4, self.5, self.6, self.7, self.8, self.9, self.10, self.11, self.12, self.13, self.14, self.15, self.16, self.17, self.18, self.19, self.20, self.21).parse_ensures(t1, Err(e)));
                return Err(e);
            },
        };
        assert(self.5.parse_ensures(t5, Ok((f, t6))));
        assert((self.6, self.7, self.8, self.9, self.10, self.11, self.12, self.13, self.14, self.15, self.16, self.17, self.18, self.19, self.20, self.21).parse_requires(t6));
        let (g, t7) = match self.6.parse(t6) {
            Ok(r) => r,
            Err(e) => {
                assert((self.6, self.7, self.8, self.9, self.10, self.11, self.12, self.13, self.14, self.15, self.16, self.17, self.18, self.19, self.20, self.21).parse_ensures(t6, Err(e)));
                assert((self.5, self.6, self.7, self.8, self.9, self.10, self.11, self.12, self.13, self.14, self.15, self.16, self.17, self.18, self.19, self.20, self.21).parse_ensures(t5, Err(e)));
                assert((self.4, self.5, self.6, self.7, self.8, self.9, self.10, self.11, self.12, self.13, self.14, self.15, self.16, self.17, self.18, self.19, self.20, self.21).parse_ensures(t4, Err(e)));
                assert((self.3, self.4, self.5, self.6, self.7, self.8, self.9, self.10, self.11, self.12, self.13, self.14, self.15, self.16, self.17, self.18, self.19, self.20, self.21).parse_ensures(t3, Err(e)));
                assert((self.2, self.3, self.4, self.5, self.6, self.7, self.8, self.9, self.10, self.11, self.12, self.13, self.14, self.15, self.16, self.17, self.18, self.19, self.20, self.21).parse_ensures(t2, Err(e)));
                assert((self.1, self.2, self.3, self.4, self.5, self.6, self.7, self.8, self.9, self.10, self.11, self.12, self.13, self.14, self.15, self.16, self.17, self.18, self.19, self.20, self.21).parse_ensures(t1, Err(e)));
                return Err(e);
            },
        };
        assert(self.6.parse_ensures(t6, Ok((g, t7))));
        assert((self.7, self.8, self.9, self.10, self.11, self.12, self.13, self.14, self.15, self.16, self.17, self.18, self.19, self.20, self.21).parse_requires(t7));
        let (h, t8) = match self.7.parse(t7) {
            Ok(r) => r,
            Err(e) => {
                assert((self.7, self.8, self.9, self.10, self.11, self.12, self.13, self.14, self.15, self.16, self.17, self.18, self.19, self.20, self.21).parse_ensures(t7, Err(e)));
                assert((self.6, self.7, self.8, self.9, self.10, self.11, self.12, self.13, self.14, self.15, self.16, self.17, self.18, self.19, self.20, self.21).parse_ensures(t6, Err(e)));
                assert((self.5, self.6, self.7, self.8, self.9, self.10, self.11, self.12, self.13, self.14, self.15, self.16, self.17, self.18, self.19, self.20, self.21).parse_ensures(t5, Err(e)));
                assert((self.4, self.5, self.6, self.7, self.8, self.9, self.10, self.11, self.12, self.13, self.14, self.15, self.16, self.17, self.18, self.19, self.20, self.21).parse_ensures(t4, Err(e)));
                assert((self.3, self.4, self.5, self.6, self.7, self.8, self.9, self.10, self.11, self.12, self.13, self.14, self.15, self.16, self.17, self.18, self.19, self.20, self.21).parse_ensures(t3, Err(e)));
                assert((self.2, self.3, self.4, self.5, self.6, self.7, self.8, self.9, self.10, self.11, self.12, self.13, self.14, self.15, self.16, self.17, self.18, self.19, self.20, self.21).parse_ensures(t2, Err(e)));
                assert((self.1, self.2, self.3, self.4, self.5, self.6, self.7, self.8, self.9, self.10, self.11, self.12, self.13, self.14, self.15, self.16, self.17, self.18, self.19, self.20, self.21).parse_ensures(t1, Err(e)));
                return Err(e);
            },
        };
        assert(self.7.parse_ensures(t7, Ok((h, t8))));
        assert((self.8, self.9, self.10, self.11, self.12, self.13, self.14, self.15, self.16, self.17, self.18, self.19, self.20, self.21).parse_requires(t8));
        let (i, t9) = match self.8.parse(t8) {
            Ok(r) => r,
            Err(e) => {
                assert((self.8, self.9, self.10, self.11, self.12, self.13, self.14, self.15, self.16, self.17, self.18, self.19, self.20, self.21).parse_ensures(t8, Err(e)));
                assert((self.7, self.8, self.9, self.10, self.11, self.12, self.13, self.14, self.15, self.16, self.17, self.18, self.19, self.20, self.21).parse_ensures(t7, Err(e)));
                assert((self.6, self.7, self.8, self.9, self.10, self.11, self.12, self.13, self.14, self.15, self.16, self.17, self.18, self.19, self.20, self.21).parse_ensures(t6, Err(e)));
                assert((self.5, self.6, self.7, self.8, self.9, self.10, self.11, self.12, self.13, self.14, self.15, self.16, self.17, self.18, self.19, self.20, self.21).parse_ensures(t5, Err(e)));
                assert((self.4, self.5, self.6, self.7, self.8, self.9, self.10, self.11, self.12, self.13, self.14, self.15, self.16, self.17, self.18, self.19, self.20, self.21).parse_ensures(t4, Err(e)));
                assert((self.3, self.4, self.5, self.6, self.7, self.8, self.9, self.10, self.11, self.12, self.13, self.14, self.15, self.16, self.17, self.18, self.19, self.20, self.21).parse_ensures(t3, Err(e)));
                assert((self.2, self.3, self.4, self.5, self.6, self.7, self.8, self.9, self.10, self.11, self.12, self.13, self.14, self.15, self.16, self.17, self.18, self.19, self.20, self.21).parse_ensures(t2, Err(e)));
                assert((self.1, self.2, self.3, self.4, self.5, self.6, self.7, self.8, self.9, self.10, self.11, self.12, self.13, self.14, self.15, self.16, self.17, self.18, self.19, self.20, self.21).parse_ensures(t1, Err(e)));
                return Err(e);
            },
        };
        assert(self.8.parse_ensures(t8, Ok((i, t9))));
        assert((self.9, self.10, self.11, self.12, self.13, self.14, self.15, self.16, self.17, self.18, self.19, self.20, self.21).parse_requires(t9));
        let (j, t10) = match self.9.parse(t9) {
            Ok(r) => r,
            Err(e) => {
                assert((self.9, self.10, self.11, self.12, self.13, self.14, self.15, self.16, self.17, self.18, self.19, self.20, self.21).parse_ensures(t9, Err(e)));
                assert((self.8, self.9, self.10, self.11, self.12, self.13, self.14, self.15, self.16, self.17, self.18, self.19, self.20, self.21).parse_ensures(t8, Err(e)));
                assert((self.7, self.8, self.9, self.10, self.11, self.12, self.13, self.14, self.15, self.16, self.17, self.18, self.19, self.20, self.21).parse_ensures(t7, Err(e)));
                assert((self.6, self.7, self.8, self.9, self.10, self.11, self.12, self.13, self.14, self.15, self.16, self.17, self.18, self.19, self.20, self.21).parse_ensures(t6, Err(e)));
                assert((self.5, self.6, self.7, self.8, self.9, self.10, self.11, self.12, self.13, self.14, self.15, self.16, self.17, self.18, self.19, self.20, self.21).parse_ensures(t5, Err(e)));
                assert((self.4, self.5, self.6, self.7, self.8, self.9, self.10, self.11, self.12, self.13, self.14, self.15, self.16, self.17, self.18, self.19, self.20, self.21).parse_ensures(t4, Err(e)));
                assert((self.3, self.4, self.5, self.6, self.7, self.8, self.9, self.10, self.11, self.12, self.13, self.14, self.15, self.16, self.17, self.18, self.19, self.20, self.21).parse_ensures(t3, Err(e)));
                assert((self.2, self.3, self.4, self.5, self.6, self.7, self.8, self.9, self.10, self.11, self.12, self.13, self.14, self.15, self.16, self.17, self.18, self.19, self.20, self.21).parse_ensures(t2, Err(e)));
                assert((self.1, self.2, self.3, self.4, self.5, self.6, self.7, self.8, self.9, self.10, self.11, self.12, self.13, self.14, self.15, self.16, self.17, self.18, self.19, self.20, self.21).parse_ensures(t1, Err(e)));
                return Err(e);
            },
        };
        assert(self.9.parse_ensures(t9, Ok((j, t10))));
        assert((self.10, self.11, self.12, self.13, self.14, self.15, self.16, self.17, self.18, self.19, self.20, self.21).parse_requires(t10));
        let (k, t11) = match self.10.parse(t10) {
            Ok(r) => r,
            Err(e) => {
                assert((self.10, self.11, self.12, self.13, self.14, self.15, self.16, self.17, self.18, self.19, self.20, self.21).parse_ensures(t10, Err(e)));
                assert((self.9, self.10, self.11, self.12, self.13, self.14, self.15, self.16, self.17, self.18, self.19, self.20, self.21).parse_ensures(t9, Err(e)));
                assert((self.8, self.9, self.10, self.11, self.12, self.13, self.14, self.15, self.16, self.17, self.18, self.19, self.20, self.21).parse_ensures(t8, Err(e)));
                assert((self.7, self.8, self.9, self.10, self.11, self.12, self.13, self.14, self.15, self.16, self.17, self.18, self.19, self.20, self.21).parse_ensures(t7, Err(e)));
                assert((self.6, self.7, self.8, self.9, self.10, self.11, self.12, self.13, self.14, self.15, self.16, self.17, self.18, self.19, self.20, self.21).parse_ensures(t6, Err(e)));
                assert((self.5, self.6, self.7, self.8, self.9, self.10, self.11, self.12, self.13, self.14, self.15, self.16, self.17, self.18, self.19, self.20, self.21).parse_ensures(t5, Err(e)));
                assert((self.4, self.5, self.6, self.7, self.8, self.9, self.10, self.11, self.12, self.13, self.14, self.15, self.16, self.17, self.18, self.19, self.20, self.21).parse_ensures(t4, Err(e)));
                assert((self.3, self.4, self.5, self.6, self.7, self.8, self.9, self.10, self.11, self.12, self.13, self.14, self.15, self.16, self.17, self.18, self.19, self.20, self.21).parse_ensures(t3, Err(e)));
                assert((self.2, self.3, self.4, self.5, self.6, self.7, self.8, self.9, self.10, self.11, self.12, self.13, self.14, self.15, self.16, self.17, self.18, self.19, self.20, self.21).parse_ensures(t2, Err(e)));
                assert((self.1, self.2, self.3, self.4, self.5, self.6, self.7, self.8, self.9, self.10, self.11, self.12, self.13, self.14, self.15, self.16, self.17, self.18, self.19, self.20, self.21).parse_ensures(t1, Err(e)));
                return Err(e);
            },
        };
        assert(self.10.parse_ensures(t10, Ok((k, t11))));
        assert((self.11, self.12, self.13, self.14, self.15, self.16, self.17, self.18, self.19, self.20, self.21).parse_requires(t11));
        let (l, t12) = match self.11.parse(t11) {
            Ok(r) => r,
            Err(e) => {
                assert((self.11, self.12, self.13, self.14, self.15, self.16, self.17, self.18, self.19, self.20, self.21).parse_ensures(t11, Err(e)));
                assert((self.10, self.11, self.12, self.13, self.14, self.15, self.16, self.17, self.18, self.19, self.20, self.21).parse_ensures(t10, Err(e)));
                assert((self.9, self.10, self.11, self.12, self.13, self.14, self.15, self.16, self.17, self.18, self.19, self.20, self.21).parse_ensures(t9, Err(e)));
                assert((self.8, self.9, self.10, self.11, self.12, self.13, self.14, self.15, self.16, self.17, self.18, self.19, self.20, self.21).parse_ensures(t8, Err(e)));
                assert((self.7, self.8, self.9, self.10, self.11, self.12, self.13, self.14, self.15, self.16, self.17, self.18, self.19, self.20, self.21).parse_ensures(t7, Err(e)));
                assert((self.6, self.7, self.8, self.9, self.10, self.11, self.12, self.13, self.14, self.15, self.16, self.17, self.18, self.19, self.20, self.21).parse_ensures(t6, Err(e)));
                assert((self.5, self.6, self.7, self.8, self.9, self.10, self.11, self.12, self.13, self.14, self.15, self.16, self.17, self.18, self.19, self.20, self.21).parse_ensures(t5, Err(e)));
                assert((self.4, self.5, self.6, self.7, self.8, self.9, self.10, self.11, self.12, self.13, self.14, self.15, self.16, self.17, self.18, self.19, self.20, self.21).parse_ensures(t4, Err(e)));
                assert((self.3, self.4, self.5, self.6, self.7, self.8, self.9, self.10, self.11, self.12, self.13, self.14, self.15, self.16, self.17, self.18, self.19, self.20, self.21).parse_ensures(t3, Err(e)));
                assert((self.2, self.3, self.4, self.5, self.6, self.7, self.8, self.9, self.10, self.11, self.12, self.13, self.14, self.15, self.16, self.17, self.18, self.19, self.20, self.21).parse_ensures(t2, Err(e)));
                assert((self.1, self.2, self.3, self.4, self.5, self.6, self.7, self.8, self.9, self.10, self.11, self.12, self.13, self.14, self.15, self.16, self.17, self.18, self.19, self.20, self.21).parse_ensures(t1, Err(e)));
                return Err(e);
            },
        };
        assert(self.11.parse_ensures(t11, Ok((l, t12))));
        assert((self.12, self.13, self.14, self.15, self.16, self.17, self.18, self.19, self.20, self.21).parse_requires(t12));
        let (m, t13) = match self.12.parse(t12) {
            Ok(r) => r,
            Err(e) => {
                assert((self.12, self.13, self.14, self.15, self.16, self.17, self.18, self.19, self.20, self.21).parse_ensures(t12, Err(e)));
                assert((self.11, self.12, self.13, self.14, self.15, self.16, self.17, self.18, self.19, self.20, self.21).parse_ensures(t11, Err(e)));
                assert((self.10, self.11, self.12, self.13, self.14, self.15, self.16, self.17, self.18, self.19, self.20, self.21).parse_ensures(t10, Err(e)));
                assert((self.9, self.10, self.11, self.12, self.13, self.14, self.15, self.16, self.17, self.18, self.19, self.20, self.21).parse_ensures(t9, Err(e)));
                assert((self.8, self.9, self.10, self.11, self.12, self.13, self.14, self.15, self.16, self.17, self.18, self.19, self.20, self.21).parse_ensures(t8, Err(e)));
                assert((self.7, self.8, self.9, self.10, self.11, self.12, self.13, self.14, self.15, self.16, self.17, self.18, self.19, self.20, self.21).parse_ensures(t7, Err(e)));
                assert((self.6, self.7, self.8, self.9, self.10, self.11, self.12, self.13, self.14, self.15, self.16, self.17, self.18, self.19, self.20, self.21).parse_ensures(t6, Err(e)));
                assert((self.5, self.6, self.7, self.8, self.9, self.10, self.11, self.12, self.13, self.14, self.15, self.16, self.17, self.18, self.19, self.20, self.21).parse_ensures(t5, Err(e)));
                assert((self.4, self.5, self.6, self.7, self.8, self.9, self.10, self.11, self.12, self.13, self.14, self.15, self.16, self.17, self.18, self.19, self.20, self.21).parse_ensures(t4, Err(e)));
                assert((self.3, self.4, self.5, self.6, self.7, self.8, self.9, self.10, self.11, self.12, self.13, self.14, self.15, self.16, self.17, self.18, self.19, self.20, self.21).parse_ensures(t3, Err(e)));
                assert((self.2, self.3, self.4, self.5, self.6, self.7, self.8, self.9, self.10, self.11, self.12, self.13, self.14, self.15, self.16, self.17, self.18, self.19, self.20, self.21).parse_ensures(t2, Err(e)));
                assert((self.1, self.2, self.3, self.4, self.5, self.6, self.7, self.8, self.9, self.10, self.11, self.12, self.13, self.14, self.15, self.16, self.17, self.18, self.19, self.20, self.21).parse_ensures(t1, Err(e)));
                return Err(e);
            },
        };
        assert(self.12.parse_ensures(t12, Ok((m, t13))));
        assert((self.13, self.14, self.15, self.16, self.17, self.18, self.19, self.20, self.21).parse_requires(t13));
        let (n, t14) = match self.13.parse(t13) {
            Ok(r) => r,
            Err(e) => {
                assert((self.13, self.14, self.15, self.16, self.17, self.18, self.19, self.20, self.21).parse_ensures(t13, Err(e)));
                assert((self.12, self.13, self.14, self.15, self.16, self.17, self.18, self.19, self.20, self.21).parse_ensures(t12, Err(e)));
                assert((self.11, self.12, self.13, self.14, self.15, self.16, self.17, self.18, self.19, self.20, self.21).parse_ensures(t11, Err(e)));
                assert((self.10, self.11, self.12, self.13, self.14, self.15, self.16, self.17, self.18, self.19, self.20, self.21).parse_ensures(t10, Err(e)));
                assert((self.9, self.10, self.11, self.12, self.13, self.14, self.15, self.16, self.17, self.18, self.19, self.20, self.21).parse_ensures(t9, Err(e)));
                assert((self.8, self.9, self.10, self.11, self.12, self.13, self.14, self.15, self.16, self.17, self.18, self.19, self.20, self.21).parse_ensures(t8, Err(e)));
                assert((self.7, self.8, self.9, self.10, self.11, self.12, self.13, self.14, self.15, self.16, self.17, self.18, self.19, self.20, self.21).parse_ensures(t7, Err(e)));
                assert((self.6, self.7, self.8, self.9, self.10, self.11, self.12, self.13, self.14, self.15, self.16, self.17, self.18, self.19, self.20, self.21).parse_ensures(t6, Err(e)));
                assert((self.5, self.6, self.7, self.8, self.9, self.10, self.11, self.12, self.13, self.14, self.15, self.16, self.17, self.18, self.19, self.20, self.21).parse_ensures(t5, Err(e)));
                assert((self.4, self.5, self.6, self.7, self.8, self.9, self.10, self.11, self.12, self.13, self.14, self.15, self.16, self.17, self.18, self.19, self.20, self.21).parse_ensures(t4, Err(e)));
                assert((self.3, self.4, self.5, self.6, self.7, self.8, self.9, self.10, self.11, self.12, self.13, self.14, self.15, self.16, self.17, self.18, self.19, self.20, self.21).parse_ensures(t3, Err(e)));
                assert((self.2, self.3, self.4, self.5, self.6, self.7, self.8, self.9, self.10, self.11, self.12, self.13, self.14, self.15, self.16, self.17, self.18, self.19, self.20, self.21).parse_ensures(t2, Err(e)));
                assert((self.1, self.2, self.3, self.4, self.5, self.6, self.7, self.8, self.9, self.10, self.11, self.12, self.13, self.14, self.15, self.16, self.17, self.18, self.19, self.20, self.21).parse_ensures(t1, Err(e)));
                return Err(e);
            },
        };
        assert(self.13.parse_ensures(t13, Ok((n, t14))));
        assert((self.14, self.15, self.16, self.17, self.18, self.19, self.20, self.21).parse_requires(t14));
        let (o, t15) = match self.14.parse(t14) {
            Ok(r) => r,
            Err(e) => {
                assert((self.14, self.15, self.16, self.17, self.18, self.19, self.20, self.21).parse_ensures(t14, Err(e)));
                assert((self.13, self.14, self.15, self.16, self.17, self.18, self.19, self.20, self.21).parse_ensures(t13, Err(e)));
                assert((self.12, self.13, self.14, self.15, self.16, self.17, self.18, self.19, self.20, self.21).parse_ensures(t12, Err(e)));
                assert((self.11, self.12, self.13, self.14, self.15, self.16, self.17, self.18, self.19, self.20, self.21).parse_ensures(t11, Err(e)));
                assert((self.10, self.11, self.12, self.13, self.14, self.15, self.16, self.17, self.18, self.19, self.20, self.21).parse_ensures(t10, Err(e)));
                assert((self.9, self.10, self.11, self.12, self.13, self.14, self.15, self.16, self.17, self.18, self.19, self.20, self.21).parse_ensures(t9, Err(e)));
                assert((self.8, self.9, self.10, self.11, self.12, self.13, self.14, self.15, self.16, self.17, self.18, self.19, self.20, self.21).parse_ensures(t8, Err(e)));
                assert((self.7, self.8, self.9, self.10, self.11, self.12, self.13, self.14, self.15, self.16, self.17, self.18, self.19, self.20, self.21).parse_ensures(t7, Err(e)));
                assert((self.6, self.7, self.8, self.9, self.10, self.11, self.12, self.13, self.14, self.15, self.16, self.17, self.18, self.19, self.20, self.21).parse_ensures(t6, Err(e)));
                assert((self.5, self.6, self.7, self.8, self.9, self.10, self.11, self.12, self.13, self.14, self.15, self.16, self.17, self.18, self.19, self.20, self.21).parse_ensures(t5, Err(e)));
                assert((self.4, self.5, self.6, self.7, self.8, self.9, self.10, self.11, self.12, self.13, self.14, self.15, self.16, self.17, self.18, self.19, self.20, self.21).parse_ensures(t4, Err(e)));
                assert((self.3, self.4, self.5, self.6, self.7, self.8, self.9, self.10, self.11, self.12, self.13, self.14, self.15, self.16, self.17, self.18, self.19, self.20, self.21).parse_ensures(t3, Err(e)));
                assert((self.2, self.3, self.4, self.5, self.6, self.7, self.8, self.9, self.10, self.11, self.12, self.13, self.14, self.15, self.16, self.17, self.18, self.19, self.20, self.21).parse_ensures(t2, Err(e)));
                assert((self.1, self.2, self.3, self.4, self.5, self.6, self.7, self.8, self.9, self.10, self.11, self.12, self.13, self.14, self.15, self.16, self.17, self.18, self.19, self.20, self.21).parse_ensures(t1, Err(e)));
                return Err(e);
            },
        };
        assert(self.14.parse_ensures(t14, Ok((o, t15))));
        assert((self.15, self.16, self.17, self.18, self.19, self.20, self.21).parse_requires(t15));
        let (p, t16) = match self.15.parse(t15) {
            Ok(r) => r,
            Err(e) => {
                assert((self.15, self.16, self.17, self.18, self.19, self.20, self.21).parse_ensures(t15, Err(e)));
                assert((self.14, self.15, self.16, self.17, self.18, self.19, self.20, self.21).parse_ensures(t14, Err(e)));
                assert((self.13, self.14, self.15, self.16, self.17, self.18, self.19, self.20, self.21).parse_ensures(t13, Err(e)));
                assert((self.12, self.13, self.14, self.15, self.16, self.17, self.18, self.19, self.20, self.21).parse_ensures(t12, Err(e)));
                assert((self.11, self.12, self.13, self.14, self.15, self.16, self.17, self.18, self.19, self.20, self.21).parse_ensures(t11, Err(e)));
                assert((self.10, self.11, self.12, self.13, self.14, self.15, self.16, self.17, self.18, self.19, self.20, self.21).parse_ensures(t10, Err(e)));
                assert((self.9, self.10, self.11, self.12, self.13, self.14, self.15, self.16, self.17, self.18, self.19, self.20, self.21).parse_ensures(t9, Err(e)));
                assert((self.8, self.9, self.10, self.11, self.12, self.13, self.14, self.15, self.16, self.17, self.18, self.19, self.20, self.21).parse_ensures(t8, Err(e)));
                assert((self.7, self.8, self.9, self.10, self.11, self.12, self.13, self.14, self.15, self.16, self.17, self.18, self.19, self.20, self.21).parse_ensures(t7, Err(e)));
                assert((self.6, self.7, self.8, self.9, self.10, self.11, self.12, self.13, self.14, self.15, self.16, self.17, self.18, self.19, self.20, self.21).parse_ensures(t6, Err(e)));
                assert((self.5, self.6, self.7, self.8, self.9, self.10, self.11, self.12, self.13, self.14, self.15, self.16, self.17, self.18, self.19, self.20, self.21).parse_ensures(t5, Err(e)));
                assert((self.4, self.5, self.6, self.7, self.8, self.9, self.10, self.11, self.12, self.13, self.14, self.15, self.16, self.17, self.18, self.19, self.20, self.21).parse_ensures(t4, Err(e)));
                assert((self.3, self.4, self.5, self.6, self.7, self.8, self.9, self.10, self.11, self.12, self.13, self.14, self.15, self.16, self.17, self.18, self.19, self.20, self.21).parse_ensures(t3, Err(e)));
                assert((self.2, self.3, self.4, self.5, self.6, self.7, self.8, self.9, self.10, self.11, self.12, self.13, self.14, self.15, self.16, self.17, self.18, self.19, self.20, self.21).parse_ensures(t2, Err(e)));
                assert((self.1, self.2, self.3, self.4, self.5, self.6, self.7, self.8, self.9, self.10, self.11, self.12, self.13, self.14, self.15, self.16, self.17, self.18, self.19, self.20, self.21).parse_ensures(t1, Err(e)));
                return Err(e);
            },
        };
        assert(self.15.parse_ensures(t15, Ok((p, t16))));
        assert((self.16, self.17, self.18, self.19, self.20, self.21).parse_requires(t16));
        let (q, t17) = match self.16.parse(t16) {
            Ok(r) => r,
            Err(e) => {
                assert((self.16, self.17, self.18, self.19, self.20, self.21).parse_ensures(t16, Err(e)));
                assert((self.15, self.16, self.17, self.18, self.19, self.20, self.21).parse_ensures(t15, Err(e)));
                assert((self.14, self.15, self.16, self.17, self.18, self.19, self.20, self.21).parse_ensures(t14, Err(e)));
                assert((self.13, self.14, self.15, self.16, self.17, self.18, self.19, self.20, self.21).parse_ensures(t13, Err(e)));
                assert((self.12, self.13, self.14, self.15, self.16, self.17, self.18, self.19, self.20, self.21).parse_ensures(t12, Err(e)));
                assert((self.11, self.12, self.13, self.14, self.15, self.16, self.17, self.18, self.19, self.20, self.21).parse_ensures(t11, Err(e)));
                assert((self.10, self.11, self.12, self.13, self.14, self.15, self.16, self.17, self.18, self.19, self.20, self.21).parse_ensures(t10, Err(e)));
                assert((self.9, self.10, self.11, self.12, self.13, self.14, self.15, self.16, self.17, self.18, self.19, self.20, self.21).parse_ensures(t9, Err(e)));
                assert((self.8, self.9, self.10, self.11, self.12, self.13, self.14, self.15, self.16, self.17, self.18, self.19, self.20, self.21).parse_ensures(t8, Err(e)));
                assert((self.7, self.8, self.9, self.10, self.11, self.12, self.13, self.14, self.15, self.16, self.17, self.18, self.19, self.20, self.21).parse_ensures(t7, Err(e)));
                assert((self.6, self.7, self.8, self.9, self.10, self.11, self.12, self.13, self.14, self.15, self.16, self.17, self.18, self.19, self.20, self.21).parse_ensures(t6, Err(e)));
                assert((self.5, self.6, self.7, self.8, self.9, self.10, self.11, self.12, self.13, self.14, self.15, self.16, self.17, self.18, self.19, self.20, self.21).parse_ensures(t5, Err(e)));
                assert((self.4, self.5, self.6, self.7, self.8, self.9, self.10, self.11, self.12, self.13, self.14, self.15, self.16, self.17, self.18, self.19, self.20, self.21).parse_ensures(t4, Err(e)));
                assert((self.3, self.4, self.5, self.6, self.7, self.8, self.9, self.10, self.11, self.12, self.13, self.14, self.15, self.16, self.17, self.18, self.19, self.20, self.21).parse_ensures(t3, Err(e)));
                assert((self.2, self.3, self.4, self.5, self.6, self.7, self.8, self.9, self.10, self.11, self.12, self.13, self.14, self.15, self.16, self.17, self.18, self.19, self.20, self.21).parse_ensures(t2, Err(e)));
                assert((self.1, self.2, self.3, self.4, self.5, self.6, self.7, self.8, self.9, self.10, self.11, self.12, self.13, self.14, self.15, self.16, self.17, self.18, self.19, self.20, self.21).parse_ensures(t1, Err(e)));
                return Err(e);
            },
        };
        assert(self.16.parse_ensures(t16, Ok((q, t17))));
        assert((self.17, self.18, self.19, self.20, self.21).parse_requires(t17));
        let (r, t18) = match self.17.parse(t17) {
            Ok(r) => r,
            Err(e) => {
                assert((self.17, self.18, self.19, self.20, self.21).parse_ensures(t17, Err(e)));
                assert((self.16, self.17, self.18, self.19, self.20, self.21).parse_ensures(t16, Err(e)));
                assert((self.15, self.16, self.17, self.18, self.19, self.20, self.21).parse_ensures(t15, Err(e)));
                assert((self.14, self.15, self.16, self.17, self.18, self.19, self.20, self.21).parse_ensures(t14, Err(e)));
                assert((self.13, self.14, self.15, self.16, self.17, self.18, self.19, self.20, self.21).parse_ensures(t13, Err(e)));
                assert((self.12, self.13, self.14, self.15, self.16, self.17, self.18, self.19, self.20, self.21).parse_ensures(t12, Err(e)));
                assert((self.11, self.12, self.13, self.14, self.15, self.16, self.17, self.18, self.19, self.20, self.21).parse_ensures(t11, Err(e)));
                assert((self.10, self.11, self.12, self.13, self.14, self.15, self.16, self.17, self.18, self.19, self.20, self.21).parse_ensures(t10, Err(e)));
                assert((self.9, self.10, self.11, self.12, self.13, self.14, self.15, self.16, self.17, self.18, self.19, self.20, self.21).parse_ensures(t9, Err(e)));
                assert((self.8, self.9, self.10, self.11, self.12, self.13, self.14, self.15, self.16, self.17, self.18, self.19, self.20, self.21).parse_ensures(t8, Err(e)));
                assert((self.7, self.8, self.9, self.10, self.11, self.12, self.13, self.14, self.15, self.16, self.17, self.18, self.19, self.20, self.21).parse_ensures(t7, Err(e)));
                assert((self.6, self.7, self.8, self.9, self.10, self.11, self.12, self.13, self.14, self.15, self.16, self.17, self.18, self.19, self.20, self.21).parse_ensures(t6, Err(e)));
                assert((self.5, self.6, self.7, self.8, self.9, self.10, self.11, self.12, self.13, self.14, self.15, self.16, self.17, self.18, self.19, self.20, self.21).parse_ensures(t5, Err(e)));
                assert((self.4, self.5, self.6, self.7, self.8, self.9, self.10, self.11, self.12, self.13, self.14, self.15, self.16, self.17, self.18, self.19, self.20, self.21).parse_ensures(t4, Err(e)));
                assert((self.3, self.4, self.5, self.6, self.7, self.8, self.9, self.10, self.11, self.12, self.13, self.14, self.15, self.16, self.17, self.18, self.19, self.20, self.21).parse_ensures(t3, Err(e)));
                assert((self.2, self.3, self.4, self.5, self.6, self.7, self.8, self.9, self.10, self.11, self.12, self.13, self.14, self.15, self.16, self.17, self.18, self.19, self.20, self.21).parse_ensures(t2, Err(e)));
                assert((self.1, self.2, self.3, self.4, self.5, self.6, self.7, self.8, self.9, self.10, self.11, self.12, self.13, self.14, self.15, self.16, self.17, self.18, self.19, self.20, self.21).parse_ensures(t1, Err(e)));
                return Err(e);
            },
        };
        assert(self.17.parse_ensures(t17, Ok((r, t18))));
        assert((self.18, self.19, self.20, self.21).parse_requires(t18));
        let (s, t19) = match self.18.parse(t18) {
            Ok(r) => r,
            Err(e) => {
                assert((self.18, self.19, self.20, self.21).parse_ensures(t18, Err(e)));
                assert((self.17, self.18, self.19, self.20, self.21).parse_ensures(t17, Err(e)));
                assert((self.16, self.17, self.18, self.19, self.20, self.21).parse_ensures(t16, Err(e)));
                assert((self.15, self.16, self.17, self.18, self.19, self.20, self.21).parse_ensures(t15, Err(e)));
                assert((self.14, self.15, self.16, self.17, self.18, self.19, self.20, self.21).parse_ensures(t14, Err(e)));
                assert((self.13, self.14, self.15, self.16, self.17, self.18, self.19, self.20, self.21).parse_ensures(t13, Err(e)));
                assert((self.12, self.13, self.14, self.15, self.16, self.17, self.18, self.19, self.20, self.21).parse_ensures(t12, Err(e)));
                assert((self.11, self.12, self.13, self.14, self.15, self.16, self.17, self.18, self.19, self.20, self.21).parse_ensures(t11, Err(e)));
                assert((self.10, self.11, self.12, self.13, self.14, self.15, self.16, self.17, self.18, self.19, self.20, self.21).parse_ensures(t10, Err(e)));
                assert((self.9, self.10, self.11, self.12, self.13, self.14, self.15, self.16, self.17, self.18, self.19, self.20, self.21).parse_ensures(t9, Err(e)));
                assert((self.8, self.9, self.10, self.11, self.12, self.13, self.14, self.15, self.16, self.17, self.18, self.19, self.20, self.21).parse_ensures(t8, Err(e)));
                assert((self.7, self.8, self.9, self.10, self.11, self.12, self.13, self.14, self.15, self.16, self.17, self.18, self.19, self.20, self.21).parse_ensures(t7, Err(e)));
                assert((self.6, self.7, self.8, self.9, self.10, self.11, self.12, self.13, self.14, self.15, self.16, self.17, self.18, self.19, self.20, self.21).parse_ensures(t6, Err(e)));
                assert((self.5, self.6, self.7, self.8, self.9, self.10, self.11, self.12, self.13, self.14, self.15, self.16, self.17, self.18, self.19, self.20, self.21).parse_ensures(t5, Err(e)));
                assert((self.4, self.5, self.6, self.7, self.8, self.9, self.10, self.11, self.12, self.13, self.14, self.15, self.16, self.17, self.18, self.19, self.20, self.21).parse_ensures(t4, Err(e)));
                assert((self.3, self.4, self.5, self.6, self.7, self.8, self.9, self.10, self.11, self.12, self.13, self.14, self.15, self.16, self.17, self.18, self.19, self.20, self.21).parse_ensures(t3, Err(e)));
                assert((self.2, self.3, self.4, self.5, self.6, self.7, self.8, self.9, self.10, self.11, self.12, self.13, self.14, self.15, self.16, self.17, self.18, self.19, self.20, self.21).parse_ensures(t2, Err(e)));
                assert((self.1, self.2, self.3, self.4, self.5, self.6, self.7, self.8, self.9, self.10, self.11, self.12, self.13, self.14, self.15, self.16, self.17, self.18, self.19, self.20, self.21).parse_ensures(t1, Err(e)));
                return Err(e);
            },
        };
        assert(self.18.parse_ensures(t18, Ok((s, t19))));
        assert((self.19, self.20, self.21).parse_requires(t19));
        let (t, t20) = match self.19.parse(t19) {
            Ok(r) => r,
            Err(e) => {
                assert((self.19, self.20, self.21).parse_ensures(t19, Err(e)));
                assert((self.18, self.19, self.20, self.21).parse_ensures(t18, Err(e)));
                assert((self.17, self.18, self.19, self.20, self.21).parse_ensures(t17, Err(e)));
                assert((self.16, self.17, self.18, self.19, self.20, self.21).parse_ensures(t16, Err(e)));
                assert((self.15, self.16, self.17, self.18, self.19, self.20, self.21).parse_ensures(t15, Err(e)));
                assert((self.14, self.15, self.16, self.17, self.18, self.19, self.20, self.21).parse_ensures(t14, Err(e)));
                assert((self.13, self.14, self.15, self.16, self.17, self.18, self.19, self.20, self.21).parse_ensures(t13, Err(e)));
                assert((self.12, self.13, self.14, self.15, self.16, self.17, self.18, self.19, self.20, self.21).parse_ensures(t12, Err(e)));
                assert((self.11, self.12, self.13, self.14, self.15, self.16, self.17, self.18, self.19, self.20, self.21).parse_ensures(t11, Err(e)));
                assert((self.10, self.11, self.12, self.13, self.14, self.15, self.16, self.17, self.18, self.19, self.20, self.21).parse_ensures(t10, Err(e)));
                assert((self.9, self.10, self.11, self.12, self.13, self.14, self.15, self.16, self.17, self.18, self.19, self.20, self.21).parse_ensures(t9, Err(e)));
                assert((self.8, self.9, self.10, self.11, self.12, self.13, self.14, self.15, self.16, self.17, self.18, self.19, self.20, self.21).parse_ensures(t8, Err(e)));
                assert((self.7, self.8, self.9, self.10, self.11, self.12, self.13, self.14, self.15, self.16, self.17, self.18, self.19, self.20, self.21).parse_ensures(t7, Err(e)));
                assert((self.6, self.7, self.8, self.9, self.10, self.11, self.12, self.13, self.14, self.15, self.16, self.17, self.18, self.19, self.20, self.21).parse_ensures(t6, Err(e)));
                assert((self.5, self.6, self.7, self.8, self.9, self.10, self.11, self.12, self.13, self.14, self.15, self.16, self.17, self.18, self.19, self.20, self.21).parse_ensures(t5, Err(e)));
                assert((self.4, self.5, self.6, self.7, self.8, self.9, self.10, self.11, self.12, self.13, self.14, self.15, self.16, self.17, self.18, self.19, self.20, self.21).parse_ensures(t4, Err(e)));
                assert((self.3, self.4, self.5, self.6, self.7, self.8, self.9, self.10, self.11, self.12, self.13, self.14, self.15, self.16, self.17, self.18, self.19, self.20, self.21).parse_ensures(t3, Err(e)));
                assert((self.2, self.3, self.4, self.5, self.6, self.7, self.8, self.9, self.10, self.11, self.12, self.13, self.14, self.15, self.16, self.17, self.18, self.19, self.20, self.21).parse_ensures(t2, Err(e)));
                assert((self.1, self.2, self.3, self.4, self.5, self.6, self.7, self.8, self.9, self.10, self.11, self.12, self.13, self.14, self.15, self.16, self.17, self.18, self.19, self.20, self.21).parse_ensures(t1, Err(e)));
                return Err(e);
            },
        };
        assert(self.19.parse_ensures(t19, Ok((t, t20))));
        assert((self.20, self.21).parse_requires(t20));
        let (u, t21) = match self.20.parse(t20) {
            Ok(r) => r,
            Err(e) => {
                assert((self.20, self.21).parse_ensures(t20, Err(e)));
                assert((self.19, self.20, self.21).parse_ensures(t19, Err(e)));
                assert((self.18, self.19, self.20, self.21).parse_ensures(t18, Err(e)));
                assert((self.17, self.18, self.19, self.20, self.21).parse_ensures(t17, Err(e)));
                assert((self.16, self.17, self.18, self.19, self.20, self.21).parse_ensures(t16, Err(e)));
                assert((self.15, self.16, self.17, self.18, self.19, self.20, self.21).parse_ensures(t15, Err(e)));
                assert((self.14, self.15, self.16, self.17, self.18, self.19, self.20, self.21).parse_ensures(t14, Err(e)));
                assert((self.13, self.14, self.15, self.16, self.17, self.18, self.19, self.20, self.21).parse_ensures(t13, Err(e)));
                assert((self.12, self.13, self.14, self.15, self.16, self.17, self.18, self.19, self.20, self.21).parse_ensures(t12, Err(e)));
                assert((self.11, self.12, self.13, self.14, self.15, self.16, self.17, self.18, self.19, self.20, self.21).parse_ensures(t11, Err(e)));
                assert((self.10, self.11, self.12, self.13, self.14, self.15, self.16, self.17, self.18, self.19, self.20, self.21).parse_ensures(t10, Err(e)));
                assert((self.9, self.10, self.11, self.12, self.13, self.14, self.15, self.16, self.17, self.18, self.19, self.20, self.21).parse_ensures(t9, Err(e)));
                assert((self.8, self.9, self.10, self.11, self.12, self.13, self.14, self.15, self.16, self.17, self.18, self.19, self.20, self.21).parse_ensures(t8, Err(e)));
                assert((self.7, self.8, self.9, self.10, self.11, self.12, self.13, self.14, self.15, self.16, self.17, self.18, self.19, self.20, self.21).parse_ensures(t7, Err(e)));
                assert((self.6, self.7, self.8, self.9, self.10, self.11, self.12, self.13, self.14, self.15, self.16, self.17, self.18, self.19, self.20, self.21).parse_ensures(t6, Err(e)));
                assert((self.5, self.6, self.7, self.8, self.9, self.10, self.11, self.12, self.13, self.14, self.15, self.16, self.17, self.18, self.19, self.20, self.21).parse_ensures(t5, Err(e)));
                assert((self.4, self.5, self.6, self.7, self.8, self.9, self.10, self.11, self.12, self.13, self.14, self.15, self.16, self.17, self.18, self.19, self.20, self.21).parse_ensures(t4, Err(e)));
                assert((self.3, self.4, self.5, self.6, self.7, self.8, self.9, self.10, self.11, self.12, self.13, self.14, self.15, self.16, self.17, self.18, self.19, self.20, self.21).parse_ensures(t3, Err(e)));
                assert((self.2, self.3, self.4, self.5, self.6, self.7, self.8, self.9, self.10, self.11, self.12, self.13, self.14, self.15, self.16, self.17, self.18, self.19, self.20, self.21).parse_ensures(t2, Err(e)));
                assert((self.1, self.2, self.3, self.4, self.5, self.6, self.7, self.8, self.9, self.10, self.11, self.12, self.13, self.14, self.15, self.16, self.17, self.18, self.19, self.20, self.21).parse_ensures(t1, Err(e)));
                return Err(e);
            },
        };
        assert(self.20.parse_ensures(t20, Ok((u, t21))));
        let (v, t22) = match self.21.parse(t21) {
            Ok(r) => r,
            Err(e) => {
                assert((self.20, self.21).parse_ensures(t20, Err(e)));
                assert((self.19, self.20, self.21).parse_ensures(t19, Err(e)));
                assert((self.18, self.19, self.20, self.21).parse_ensures(t18, Err(e)));
                assert((self.17, self.18, self.19, self.20, self.21).parse_ensures(t17, Err(e)));
                assert((self.16, self.17, self.18, self.19, self.20, self.21).parse_ensures(t16, Err(e)));
                assert((self.15, self.16, self.17, self.18, self.19, self.20, self.21).parse_ensures(t15, Err(e)));
                assert((self.14, self.15, self.16, self.17, self.18, self.19, self.20, self.21).parse_ensures(t14, Err(e)));
                assert((self.13, self.14, self.15, self.16, self.17, self.18, self.19, self.20, self.21).parse_ensures(t13, Err(e)));
                assert((self.12, self.13, self.14, self.15, self.16, self.17, self.18, self.19, self.20, self.21).parse_ensures(t12, Err(e)));
                assert((self.11, self.12, self.13, self.14, self.15, self.16, self.17, self.18, self.19, self.20, self.21).parse_ensures(t11, Err(e)));
                assert((self.10, self.11, self.12, self.13, self.14, self.15, self.16, self.17, self.18, self.19, self.20, self.21).parse_ensures(t10, Err(e)));
                assert((self.9, self.10, self.11, self.12, self.13, self.14, self.15, self.16, self.17, self.18, self.19, self.20, self.21).parse_ensures(t9, Err(e)));
                assert((self.8, self.9, self.10, self.11, self.12, self.13, self.14, self.15, self.16, self.17, self.18, self.19, self.20, self.21).parse_ensures(t8, Err(e)));
                assert((self.7, self.8, self.9, self.10, self.11, self.12, self.13, self.14, self.15, self.16, self.17, self.18, self.19, self.20, self.21).parse_ensures(t7, Err(e)));
                assert((self.6, self.7, self.8, self.9, self.10, self.11, self.12, self.13, self.14, self.15, self.16, self.17, self.18, self.19, self.20, self.21).parse_ensures(t6, Err(e)));
                assert((self.5, self.6, self.7, self.8, self.9, self.10, self.11, self.12, self.13, self.14, self.15, self.16, self.17, self.18, self.19, self.20, self.21).parse_ensures(t5, Err(e)));
                assert((self.4, self.5, self.6, self.7, self.8, self.9, self.10, self.11, self.12, self.13, self.14, self.15, self.16, self.17, self.18, self.19, self.20, self.21).parse_ensures(t4, Err(e)));
                assert((self.3, self.4, self.5, self.6, self.7, self.8, self.9, self.10, self.11, self.12, self.13, self.14, self.15, self.16, self.17, self.18, self.19, self.20, self.21).parse_ensures(t3, Err(e)));
                assert((self.2, self.3, self.4, self.5, self.6, self.7, self.8, self.9, self.10, self.11, self.12, self.13, self.14, self.15, self.16, self.17, self.18, self.19, self.20, self.21).parse_ensures(t2, Err(e)));
                assert((self.1, self.2, self.3, self.4, self.5, self.6, self.7, self.8, self.9, self.10, self.11, self.12, self.13, self.14, self.15, self.16, self.17, self.18, self.19, self.20, self.21).parse_ensures(t1, Err(e)));
                return Err(e);
            },
        };
        assert((self.20, self.21).parse_ensures(t20, Ok(((u, v), t22))));
        assert((self.19, self.20, self.21).parse_ensures(t19, Ok(((t, u, v), t22))));
        assert((self.18, self.19, self.20, self.21).parse_ensures(t18, Ok(((s, t, u, v), t22))));
        assert((self.17, self.18, self.19, self.20, self.21).parse_ensures(t17, Ok(((r, s, t, u, v), t22))));
        assert((self.16, self.17, self.18, self.19, self.20, self.21).parse_ensures(t16, Ok(((q, r, s, t, u, v), t22))));
        assert((self.15, self.16, self.17, self.18, self.19, self.20, self.21).parse_ensures(t15, Ok(((p, q, r, s, t, u, v), t22))));
        assert((self.14, self.15, self.16, self.17, self.18, self.19, self.20, self.21).parse_ensures(t14, Ok(((o, p, q, r, s, t, u, v), t22))));
        assert((self.13, self.14, self.15, self.16, self.17, self.18, self.19, self.20, self.21).parse_ensures(t13, Ok(((n, o, p, q, r, s, t, u, v), t22))));
        assert((self.12, self.13, self.14, self.15, self.16, self.17, self.18, self.19, self.20, self.21).parse_ensures(t12, Ok(((m, n, o, p, q, r, s, t, u, v), t22))));
        assert((self.11, self.12, self.13, self.14, self.15, self.16, self.17, self.18, self.19, self.20, self.21).parse_ensures(t11, Ok(((l, m, n, o, p, q, r, s, t, u, v), t22))));
        assert((self.10, self.11, self.12, self.13, self.14, self.15, self.16, self.17, self.18, self.19, self.20, self.21).parse_ensures(t10, Ok(((k, l, m, n, o, p, q, r, s, t, u, v), t22))));
        assert((self.9, self.10, self.11, self.12, self.13, self.14, self.15, self.16, self.17, self.18, self.19, self.20, self.21).parse_ensures(t9, Ok(((j, k, l, m, n, o, p, q, r, s, t, u, v), t22))));
        assert((self.8, self.9, self.10, self.11, self.12, self.13, self.14, self.15, self.16, self.17, self.18, self.19, self.20, self.21).parse_ensures(t8, Ok(((i, j, k, l, m, n, o, p, q, r, s, t, u, v), t22))));
        assert((self.7, self.8, self.9, self.10, self.11, self.12, self.13, self.14, self.15, self.16, self.17, self.18, self.19, self.20, self.21).parse_ensures(t7, Ok(((h, i, j, k, l, m, n, o, p, q, r, s, t, u, v), t22))));
        assert((self.6, self.7, self.8, self.9, self.10, self.11, self.12, self.13, self.14, self.15, self.16, self.17, self.18, self.19, self.20, self.21).parse_ensures(t6, Ok(((g, h, i, j, k, l, m, n, o, p, q, r, s, t, u, v), t22))));
        assert((self.5, self.6, self.7, self.8, self.9, self.10, self.11, self.12, self.13, self.14, self.15, self.16, self.17, self.18, self.19, self.20, self.21).parse_ensures(t5, Ok(((f, g, h, i, j, k, l, m, n, o, p, q, r, s, t, u, v), t22))));
        assert((self.4, self.5, self.6, self.7, self.8, self.9, self.10, self.11, self.12, self.13, self.14, self.15, self.16, self.17, self.18, self.19, self.20, self.21).parse_ensures(t4, Ok(((e, f, g, h, i, j, k, l, m, n, o, p, q, r, s, t, u, v), t22))));
        assert((self.3, self.4, self.5, self.6, self.7, self.8, self.9, self.10, self.11, self.12, self.13, self.14, self.15, self.16, self.17, self.18, self.19, self.20, self.21).parse_ensures(t3, Ok(((d, e, f, g, h, i, j, k, l, m, n, o, p, q, r, s, t, u, v), t22))));
        assert((self.2, self.3, self.4, self.5, self.6, self.7, self.8, self.9, self.10, self.11, self.12, self.13, self.14, self.15, self.16, self.17, self.18, self.19, self.20, self.21).parse_ensures(t2, Ok(((c, d, e, f, g, h, i, j, k, l, m, n, o, p, q, r, s, t, u, v), t22))));
        assert((self.1, self.2, self.3, self.4, self.5, self.6, self.7, self.8, self.9, self.10, self.11, self.12, self.13, self.14, self.15, self.16, self.17, self.18, self.19, self.20, self.21).parse_ensures(t1, Ok(((b, c, d, e, f, g, h, i, j, k, l, m, n, o, p, q, r, s, t, u, v), t22))));
        Ok(((a, b, c, d, e, f, g, h, i, j, k, l, m, n, o, p, q, r, s, t, u, v), t22))
    }
}

/// A tuple of 22 deterministic parsers is deterministic.
pub proof fn lemma_tuple22_deterministic<Inp, Er, A, B, C, D, E, F, G, H, I, J, K, L, M, N, O, P, Q, R, S, T, U, V>(t: (A, B, C, D, E, F, G, H, I, J, K, L, M, N, O, P, Q, R, S, T, U, V))
    where
        A: Parser<Inp, Error = Er>,
        B: Parser<Inp, Error = Er>,
        C: Parser<Inp, Error = Er>,
        D: Parser<Inp, Error = Er>,
        E: Parser<Inp, Error = Er>,
        F: Parser<Inp, Error = Er>,
        G: Parser<Inp, Error = Er>,
        H: Parser<Inp, Error = Er>,
        I: Parser<Inp, Error = Er>,
        J: Parser<Inp, Error = Er>,
        K: Parser<Inp, Error = Er>,
        L: Parser<Inp, Error = Er>,
        M: Parser<Inp, Error = Er>,
        N: Parser<Inp, Error = Er>,
        O: Parser<Inp, Error = Er>,
        P: Parser<Inp, Error = Er>,
        Q: Parser<Inp, Error = Er>,
        R: Parser<Inp, Error = Er>,
        S: Parser<Inp, Error = Er>,
        T: Parser<Inp, Error = Er>,
        U: Parser<Inp, Error = Er>,
        V: Parser<Inp, Error = Er>,
    requires
        deterministic::<Inp, A>(t.0),
        deterministic::<Inp, B>(t.1),
        deterministic::<Inp, C>(t.2),
        deterministic::<Inp, D>(t.3),
        deterministic::<Inp, E>(t.4),
        deterministic::<Inp, F>(t.5),
        deterministic::<Inp, G>(t.6),
        deterministic::<Inp, H>(t.7),
        deterministic::<Inp, I>(t.8),
        deterministic::<Inp, J>(t.9),
        deterministic::<Inp, K>(t.10),
        deterministic::<Inp, L>(t.11),
        deterministic::<Inp, M>(t.12),
        deterministic::<Inp, N>(t.13),
        deterministic::<Inp, O>(t.14),
        deterministic::<Inp, P>(t.15),
        deterministic::<Inp, Q>(t.16),
        deterministic::<Inp, R>(t.17),
        deterministic::<Inp, S>(t.18),
        deterministic::<Inp, T>(t.19),
        deterministic::<Inp, U>(t.20),
        deterministic::<Inp, V>(t.21),
    ensures
        deterministic::<Inp, (A, B, C, D, E, F, G, H, I, J, K, L, M, N, O, P, Q, R, S, T, U, V)>(t),
{
    lemma_tuple21_deterministic::<Inp, Er, B, C, D, E, F, G, H, I, J, K, L, M, N, O, P, Q, R, S, T, U, V>((t.1, t.2, t.3, t.4, t.5, t.6, t.7, t.8, t.9, t.10, t.11, t.12, t.13, t.14, t.15, t.16, t.17, t.18, t.19, t.20, t.21));
    lemma_seq_unique::<Inp, A, (B, C, D, E, F, G, H, I, J, K, L, M, N, O, P, Q, R, S, T, U, V)>(t.0, (t.1, t.2, t.3, t.4, t.5, t.6, t.7, t.8, t.9, t.10, t.11, t.12, t.13, t.14, t.15, t.16, t.17, t.18, t.19, t.20, t.21));
}

/// A tuple of 23 parsers sharing one error type runs them in order.
impl<Inp, Er, A, B, C, D, E, F, G, H, I, J, K, L, M, N, O, P, Q, R, S, T, U, V, W> Parser<Inp> for (A, B, C, D, E, F, G, H, I, J, K, L, M, N, O, P, Q, R, S, T, U, V, W) where
    A: Parser<Inp, Error = Er>,
    B: Parser<Inp, Error = Er>,
    C: Parser<Inp, Error = Er>,
    D: Parser<Inp, Error = Er>,
    E: Parser<Inp, Error = Er>,
    F: Parser<Inp, Error = Er>,
    G: Parser<Inp, Error = Er>,
    H: Parser<Inp, Error = Er>,
    I: Parser<Inp, Error = Er>,
    J: Parser<Inp, Error = Er>,
    K: Parser<Inp, Error = Er>,
    L: Parser<Inp, Error = Er>,
    M: Parser<Inp, Error = Er>,
    N: Parser<Inp, Error = Er>,
    O: Parser<Inp, Error = Er>,
    P: Parser<Inp, Error = Er>,
    Q: Parser<Inp, Error = Er>,
    R: Parser<Inp, Error = Er>,
    S: Parser<Inp, Error = Er>,
    T: Parser<Inp, Error = Er>,
    U: Parser<Inp, Error = Er>,
    V: Parser<Inp, Error = Er>,
    W: Parser<Inp, Error = Er>,
 {
    type Out = (A::Out, B::Out, C::Out, D::Out, E::Out, F::Out, G::Out, H::Out, I::Out, J::Out, K::Out, L::Out, M::Out, N::Out, O::Out, P::Out, Q::Out, R::Out, S::Out, T::Out, U::Out, V::Out, W::Out);

    type Error = Er;

    open spec fn parse_requires(&self, input: Inp) -> bool {
        seq_requires(self.0, (self.1, self.2, self.3, self.4, self.5, self.6, self.7, self.8, self.9, self.10, self.11, self.12, self.13, self.14, self.15, self.16, self.17, self.18, self.19, self.20, self.21, self.22), input)
    }

    open spec fn parse_ensures(&self, input: Inp, res: Result<((A::Out, B::Out, C::Out, D::Out, E::Out, F::Out, G::Out, H::Out, I::Out, J::Out, K::Out, L::Out, M::Out, N::Out, O::Out, P::Out, Q::Out, R::Out, S::Out, T::Out, U::Out, V::Out, W::Out), Inp), Er>) -> bool {
        match res {
            Ok(((a, b, c, d, e, f, g, h, i, j, k, l, m, n, o, p, q, r, s, t, u, v, w), rest)) => seq_ok(self.0, (self.1, self.2, self.3, self.4, self.5, self.6, self.7, self.8, self.9, self.10, self.11, self.12, self.13, self.14, self.15, self.16, self.17, self.18, self.19, self.20, self.21, self.22), input, a, (b, c, d, e, f, g, h, i, j, k, l, m, n, o, p, q, r, s, t, u, v, w), rest),
            Err(e) => seq_err(self.0, (self.1, self.2, self.3, self.4, self.5, self.6, self.7, self.8, self.9, self.10, self.11, self.12, self.13, self.14, self.15, self.16, self.17, self.18, self.19, self.20, self.21, self.22), input, e),
        }
    }

    fn parse(&self, txt: Inp) -> (res: Result<((A::Out, B::Out, C::Out, D::Out, E::Out, F::Out, G::Out, H::Out, I::Out, J::Out, K::Out, L::Out, M::Out, N::Out, O::Out, P::Out, Q::Out, R::Out, S::Out, T::Out, U::Out, V::Out, W::Out), Inp), Er>) {
        let ghost t0 = txt;
        let (a, t1) = match self.0.parse(txt) {
            Ok(r) => r,
            Err(e) => return Err(e),
        };
        assert(self.0.parse_ensures(t0, Ok((a, t1))));
        assert((self.1, self.2, self.3, self.4, self.5, self.6, self.7, self.8, self.9, self.10, self.11, self.12, self.13, self.14, self.15, self.16, self.17, self.18, self.19, self.20, self.21, self.22).parse_requires(t1));
        let (b, t2) = match self.1.parse(t1) {
            Ok(r) => r,
            Err(e) => {
                assert((self.1, self.2, self.3, self.4, self.5, self.6, self.7, self.8, self.9, self.10, self.11, self.12, self.13, self.14, self.15, self.16, self.17, self.18, self.19, self.20, self.21, self.22).parse_ensures(t1, Err(e)));
                return Err(e);
            },
        };
        assert(self.1.parse_ensures(t1, Ok((b, t2))));
        assert((self.2, self.3, self.4, self.5, self.6, self.7, self.8, self.9, self.10, self.11, self.12, self.13, self.14, self.15, self.16, self.17, self.18, self.19, self.20, self.21, self.22).parse_requires(t2));
        let (c, t3) = match self.2.parse(t2) {
            Ok(r) => r,
            Err(e) => {
                assert((self.2, self.3, self.4, self.5, self.6, self.7, self.8, self.9, self.10, self.11, self.12, self.13, self.14, self.15, self.16, self.17, self.18, self.19, self.20, self.21, self.22).parse_ensures(t2, Err(e)));
                assert((self.1, self.2, self.3, self.4, self.5, self.6, self.7, self.8, self.9, self.10, self.11, self.12, self.13, self.14, self.15, self.16, self.17, self.18, self.19, self.20, self.21, self.22).parse_ensures(t1, Err(e)));
                return Err(e);
            },
        };
        assert(self.2.parse_ensures(t2, Ok((c, t3))));
        assert((self.3, self.4, self.5, self.6, self.7, self.8, self.9, self.10, self.11, self.12, self.13, self.14, self.15, self.16, self.17, self.18, self.19, self.20, self.21, self.22).parse_requires(t3));
        let (d, t4) = match self.3.parse(t3) {
            Ok(r) => r,
            Err(e) => {
                assert((self.3, self.4, self.5, self.6, self.7, self.8, self.9, self.10, self.11, self.12, self.13, self.14, self.15, self.16, self.17, self.18, self.19, self.20, self.21, self.22).parse_ensures(t3, Err(e)));
                assert((self.2, self.3, self.4, self.5, self.6, self.7, self.8, self.9, self.10, self.11, self.12, self.13, self.14, self.15, self.16, self.17, self.18, self.19, self.20, self.21, self.22).parse_ensures(t2, Err(e)));
                assert((self.1, self.2, self.3, self.4, self.5, self.6, self.7, self.8, self.9, self.10, self.11, self.12, self.13, self.14, self.15, self.16, self.17, self.18, self.19, self.20, self.21, self.22).parse_ensures(t1, Err(e)));
                return Err(e);
            },
        };
        assert(self.3.parse_ensures(t3, Ok((d, t4))));
        assert((self.4, self.5, self.6, self.7, self.8, self.9, self.10, self.11, self.12, self.13, self.14, self.15, self.16, self.17, self.18, self.19, self.20, self.21, self.22).parse_requires(t4));
        let (e, t5) = match self.4.parse(t4) {
            Ok(r) => r,
            Err(e) => {
                assert((self.4, self.5, self.6, self.7, self.8, self.9, self.10, self.11, self.12, self.13, self.14, self.15, self.16, self.17, self.18, self.19, self.20, self.21, self.22).parse_ensures(t4, Err(e)));
                assert((self.3, self.4, self.5, self.6, self.7, self.8, self.9, self.10, self.11, self.12, self.13, self.14, self.15, self.16, self.17, self.18, self.19, self.20, self.21, self.22).parse_ensures(t3, Err(e)));
                assert((self.2, self.3, self.4, self.5, self.6, self.7, self.8, self.9, self.10, self.11, self.12, self.13, self.14, self.15, self.16, self.17, self.18, self.19, self.20, self.21, self.22).parse_ensures(t2, Err(e)));
                assert((self.1, self.2, self.3, self.4, self.5, self.6, self.7, self.8, self.9, self.10, self.11, self.12, self.13, self.14, self.15, self.16, self.17, self.18, self.19, self.20, self.21, self.22).parse_ensures(t1, Err(e)));
                return Err(e);
            },
        };
        assert(self.4.parse_ensures(t4, Ok((e, t5))));
        assert((self.5, self.6, self.7, self.8, self.9, self.10, self.11, self.12, self.13, self.14, self.15, self.16, self.17, self.18, self.19, self.20, self.21, self.22).parse_requires(t5));
        let (f, t6) = match self.5.parse(t5) {
            Ok(r) => r,
            Err(e) => {
                assert((self.5, self.6, self.7, self.8, self.9, self.10, self.11, self.12, self.13, self.14, self.15, self.16, self.17, self.18, self.19, self.20, self.21, self.22).parse_ensures(t5, Err(e)));
                assert((self.4, self.5, self.6, self.7, self.8, self.9, self.10, self.11, self.12, self.13, self.14, self.15, self.16, self.17, self.18, self.19, self.20, self.21, self.22).parse_ensures(t4, Err(e)));
                assert((self.3, self.4, self.5, self.6, self.7, self.8, self.9, self.10, self.11, self.12, self.13, self.14, self.15, self.16, self.17, self.18, self.19, self.20, self.21, self.22).parse_ensures(t3, Err(e)));
                assert((self.2, self.3, self.4, self.5, self.6, self.7, self.8, self.9, self.10, self.11, self.12, self.13, self.14, self.15, self.16, self.17, self.18, self.19, self.20, self.21, self.22).parse_ensures(t2, Err(e)));
                assert((self.1, self.2, self.3, self.4, self.5, self.6, self.7, self.8, self.9, self.10, self.11, self.12, self.13, self.14, self.15, self.16, self.17, self.18, self.19, self.20, self.21, self.22).parse_ensures(t1, Err(e)));
                return Err(e);
            },
        };
        assert(self.5.parse_ensures(t5, Ok((f, t6))));
        assert((self.6, self.7, self.8, self.9, self.10, self.11, self.12, self.13, self.14, self.15, self.16, self.17, self.18, self.19, self.20, self.21, self.22).parse_requires(t6));
        let (g, t7) = match self.6.parse(t6) {
            Ok(r) => r,
            Err(e) => {
                assert((self.6, self.7, self.8, self.9, self.10, self.11, self.12, self.13, self.14, self.15, self.16, self.17, self.18, self.19, self.20, self.21, self.22).parse_ensures(t6, Err(e)));
                assert((self.5, self.6, self.7, self.8, self.9, self.10, self.11, self.12, self.13, self.14, self.15, self.16, self.17, self.18, self.19, self.20, self.21, self.22).parse_ensures(t5, Err(e)));
                assert((self.4, self.5, self.6, self.7, self.8, self.9, self.10, self.11, self.12, self.13, self.14, self.15, self.16, self.17, self.18, self.19, self.20, self.21, self.22).parse_ensures(t4, Err(e)));
                assert((self.3, self.4, self.5, self.6, self.7, self.8, self.9, self.10, self.11, self.12, self.13, self.14, self.15, self.16, self.17, self.18, self.19, self.20, self.21, self.22).parse_ensures(t3, Err(e)));
                assert((self.2, self.3, self.4, self.5, self.6, self.7, self.8, self.9, self.10, self.11, self.12, self.13, self.14, self.15, self.16, self.17, self.18, self.19, self.20, self.21, self.22).parse_ensures(t2, Err(e)));
                assert((self.1, self.2, self.3, self.4, self.5, self.6, self.7, self.8, self.9, self.10, self.11, self.12, self.13, self.14, self.15, self.16, self.17, self.18, self.19, self.20, self.21, self.22).parse_ensures(t1, Err(e)));
                return Err(e);
            },
        };
        assert(self.6.parse_ensures(t6, Ok((g, t7))));
        assert((self.7, self.8, self.9, self.10, self.11, self.12, self.13, self.14, self.15, self.16, self.17, self.18, self.19, self.20, self.21, self.22).parse_requires(t7));
        let (h, t8) = match self.7.parse(t7) {
            Ok(r) => r,
            Err(e) => {
                assert((self.7, self.8, self.9, self.10, self.11, self.12, self.13, self.14, self.15, self.16, self.17, self.18, self.19, self.20, self.21, self.22).parse_ensures(t7, Err(e)));
                assert((self.6, self.7, self.8, self.9, self.10, self.11, self.12, self.13, self.14, self.15, self.16, self.17, self.18, self.19, self.20, self.21, self.22).parse_ensures(t6, Err(e)));
                assert((self.5, self.6, self.7, self.8, self.9, self.10, self.11, self.12, self.13, self.14, self.15, self.16, self.17, self.18, self.19, self.20, self.21, self.22).parse_ensures(t5, Err(e)));
                assert((self.4, self.5, self.6, self.7, self.8, self.9, self.10, self.11, self.12, self.13, self.14, self.15, self.16, self.17, self.18, self.19, self.20, self.21, self.22).parse_ensures(t4, Err(e)));
                assert((self.3, self.4, self.5, self.6, self.7, self.8, self.9, self.10, self.11, self.12, self.13, self.14, self.15, self.16, self.17, self.18, self.19, self.20, self.21, self.22).parse_ensures(t3, Err(e)));
                assert((self.2, self.3, self.4, self.5, self.6, self.7, self.8, self.9, self.10, self.11, self.12, self.13, self.14, self.15, self.16, self.17, self.18, self.19, self.20, self.21, self.22).parse_ensures(t2, Err(e)));
                assert((self.1, self.2, self.3, self.4, self.5, self.6, self.7, self.8, self.9, self.10, self.11, self.12, self.13, self.14, self.15, self.16, self.17, self.18, self.19, self.20, self.21, self.22).parse_ensures(t1, Err(e)));
                return Err(e);
            },
        };
        assert(self.7.parse_ensures(t7, Ok((h, t8))));
        assert((self.8, self.9, self.10, self.11, self.12, self.13, self.14, self.15, self.16, self.17, self.18, self.19, self.20, self.21, self.22).parse_requires(t8));
        let (i, t9) = match self.8.parse(t8) {
            Ok(r) => r,
            Err(e) => {
                assert((self.8, self.9, self.10, self.11, self.12, self.13, self.14, self.15, self.16, self.17, self.18, self.19, self.20, self.21, self.22).parse_ensures(t8, Err(e)));
                assert((self.7, self.8, self.9, self.10, self.11, self.12, self.13, self.14, self.15, self.16, self.17, self.18, self.19, self.20, self.21, self.22).parse_ensures(t7, Err(e)));
                assert((self.6, self.7, self.8, self.9, self.10, self.11, self.12, self.13, self.14, self.15, self.16, self.17, self.18, self.19, self.20, self.21, self.22).parse_ensures(t6, Err(e)));
                assert((self.5, self.6, self.7, self.8, self.9, self.10, self.11, self.12, self.13, self.14, self.15, self.16, self.17, self.18, self.19, self.20, self.21, self.22).parse_ensures(t5, Err(e)));
                assert((self.4, self.5, self.6, self.7, self.8, self.9, self.10, self.11, self.12, self.13, self.14, self.15, self.16, self.17, self.18, self.19, self.20, self.21, self.22).parse_ensures(t4, Err(e)));
                assert((self.3, self.4, self.5, self.6, self.7, self.8, self.9, self.10, self.11, self.12, self.13, self.14, self.15, self.16, self.17, self.18, self.19, self.20, self.21, self.22).parse_ensures(t3, Err(e)));
                assert((self.2, self.3, self.4, self.5, self.6, self.7, self.8, self.9, self.10, self.11, self.12, self.13, self.14, self.15, self.16, self.17, self.18, self.19, self.20, self.21, self.22).parse_ensures(t2, Err(e)));
                assert((self.1, self.2, self.3, self.4, self.5, self.6, self.7, self.8, self.9, self.10, self.11, self.12, self.13, self.14, self.15, self.16, self.17, self.18, self.19, self.20, self.21, self.22).parse_ensures(t1, Err(e)));
                return Err(e);
            },
        };
        assert(self.8.parse_ensures(t8, Ok((i, t9))));
        assert((self.9, self.10, self.11, self.12, self.13, self.14, self.15, self.16, self.17, self.18, self.19, self.20, self.21, self.22).parse_requires(t9));
        let (j, t10) = match self.9.parse(t9) {
            Ok(r) => r,
            Err(e) => {
                assert((self.9, self.10, self.11, self.12, self.13, self.14, self.15, self.16, self.17, self.18, self.19, self.20, self.21, self.22).parse_ensures(t9, Err(e)));
                assert((self.8, self.9, self.10, self.11, self.12, self.13, self.14, self.15, self.16, self.17, self.18, self.19, self.20, self.21, self.22).parse_ensures(t8, Err(e)));
                assert((self.7, self.8, self.9, self.10, self.11, self.12, self.13, self.14, self.15, self.16, self.17, self.18, self.19, self.20, self.21, self.22).parse_ensures(t7, Err(e)));
                assert((self.6, self.7, self.8, self.9, self.10, self.11, self.12, self.13, self.14, self.15, self.16, self.17, self.18, self.19, self.20, self.21, self.22).parse_ensures(t6, Err(e)));
                assert((self.5, self.6, self.7, self.8, self.9, self.10, self.11, self.12, self.13, self.14, self.15, self.16, self.17, self.18, self.19, self.20, self.21, self.22).parse_ensures(t5, Err(e)));
                assert((self.4, self.5, self.6, self.7, self.8, self.9, self.10, self.11, self.12, self.13, self.14, self.15, self.16, self.17, self.18, self.19, self.20, self.21, self.22).parse_ensures(t4, Err(e)));
                assert((self.3, self.4, self.5, self.6, self.7, self.8, self.9, self.10, self.11, self.12, self.13, self.14, self.15, self.16, self.17, self.18, self.19, self.20, self.21, self.22).parse_ensures(t3, Err(e)));
                assert((self.2, self.3, self.4, self.5, self.6, self.7, self.8, self.9, self.10, self.11, self.12, self.13, self.14, self.15, self.16, self.17, self.18, self.19, self.20, self.21, self.22).parse_ensures(t2, Err(e)));
                assert((self.1, self.2, self.3, self.4, self.5, self.6, self.7, self.8, self.9, self.10, self.11, self.12, self.13, self.14, self.15, self.16, self.17, self.18, self.19, self.20, self.21, self.22).parse_ensures(t1, Err(e)));
                return Err(e);
            },
        };
        assert(self.9.parse_ensures(t9, Ok((j, t10))));
        assert((self.10, self.11, self.12, self.13, self.14, self.15, self.16, self.17, self.18, self.19, self.20, self.21, self.22).parse_requires(t10));
        let (k, t11) = match self.10.parse(t10) {
            Ok(r) => r,
            Err(e) => {
                assert((self.10, self.11, self.12, self.13, self.14, self.15, self.16, self.17, self.18, self.19, self.20, self.21, self.22).parse_ensures(t10, Err(e)));
                assert((self.9, self.10, self.11, self.12, self.13, self.14, self.15, self.16, self.17, self.18, self.19, self.20, self.21, self.22).parse_ensures(t9, Err(e)));
                assert((self.8, self.9, self.10, self.11, self.12, self.13, self.14, self.15, self.16, self.17, self.18, self.19, self.20, self.21, self.22).parse_ensures(t8, Err(e)));
                assert((self.7, self.8, self.9, self.10, self.11, self.12, self.13, self.14, self.15, self.16, self.17, self.18, self.19, self.20, self.21, self.22).parse_ensures(t7, Err(e)));
                assert((self.6, self.7, self.8, self.9, self.10, self.11, self.12, self.13, self.14, self.15, self.16, self.17, self.18, self.19, self.20, self.21, self.22).parse_ensures(t6, Err(e)));
                assert((self.5, self.6, self.7, self.8, self.9, self.10, self.11, self.12, self.13, self.14, self.15, self.16, self.17, self.18, self.19, self.20, self.21, self.22).parse_ensures(t5, Err(e)));
                assert((self.4, self.5, self.6, self.7, self.8, self.9, self.10, self.11, self.12, self.13, self.14, self.15, self.16, self.17, self.18, self.19, self.20, self.21, self.22).parse_ensures(t4, Err(e)));
                assert((self.3, self.4, self.5, self.6, self.7, self.8, self.9, self.10, self.11, self.12, self.13, self.14, self.15, self.16, self.17, self.18, self.19, self.20, self.21, self.22).parse_ensures(t3, Err(e)));
                assert((self.2, self.3, self.4, self.5, self.6, self.7, self.8, self.9, self.10, self.11, self.12, self.13, self.14, self.15, self.16, self.17, self.18, self.19, self.20, self.21, self.22).parse_ensures(t2, Err(e)));
                assert((self.1, self.2, self.3, self.4, self.5, self.6, self.7, self.8, self.9, self.10, self.11, self.12, self.13, self.14, self.15, self.16, self.17, self.18, self.19, self.20, self.21, self.22).parse_ensures(t1, Err(e)));
                return Err(e);
            },
        };
        assert(self.10.parse_ensures(t10, Ok((k, t11))));
        assert((self.11, self.12, self.13, self.14, self.15, self.16, self.17, self.18, self.19, self.20, self.21, self.22).parse_requires(t11));
        let (l, t12) = match self.11.parse(t11) {
            Ok(r) => r,
            Err(e) => {
                assert((self.11, self.12, self.13, self.14, self.15, self.16, self.17, self.18, self.19, self.20, self.21, self.22).parse_ensures(t11, Err(e)));
                assert((self.10, self.11, self.12, self.13, self.14, self.15, self.16, self.17, self.18, self.19, self.20, self.21, self.22).parse_ensures(t10, Err(e)));
                assert((self.9, self.10, self.11, self.12, self.13, self.14, self.15, self.16, self.17, self.18, self.19, self.20, self.21, self.22).parse_ensures(t9, Err(e)));
                assert((self.8, self.9, self.10, self.11, self.12, self.13, self.14, self.15, self.16, self.17, self.18, self.19, self.20, self.21, self.22).parse_ensures(t8, Err(e)));
                assert((self.7, self.8, self.9, self.10, self.11, self.12, self.13, self.14, self.15, self.16, self.17, self.18, self.19, self.20, self.21, self.22).parse_ensures(t7, Err(e)));
                assert((self.6, self.7, self.8, self.9, self.10, self.11, self.12, self.13, self.14, self.15, self.16, self.17, self.18, self.19, self.20, self.21, self.22).parse_ensures(t6, Err(e)));
                assert((self.5, self.6, self.7, self.8, self.9, self.10, self.11, self.12, self.13, self.14, self.15, self.16, self.17, self.18, self.19, self.20, self.21, self.22).parse_ensures(t5, Err(e)));
                assert((self.4, self.5, self.6, self.7, self.8, self.9, self.10, self.11, self.12, self.13, self.14, self.15, self.16, self.17, self.18, self.19, self.20, self.21, self.22).parse_ensures(t4, Err(e)));
                assert((self.3, self.4, self.5, self.6, self.7, self.8, self.9, self.10, self.11, self.12, self.13, self.14, self.15, self.16, self.17, self.18, self.19, self.20, self.21, self.22).parse_ensures(t3, Err(e)));
                assert((self.2, self.3, self.4, self.5, self.6, self.7, self.8, self.9, self.10, self.11, self.12, self.13, self.14, self.15, self.16, self.17, self.18, self.19, self.20, self.21, self.22).parse_ensures(t2, Err(e)));
                assert((self.1, self.2, self.3, self.4, self.5, self.6, self.7, self.8, self.9, self.10, self.11, self.12, self.13, self.14, self.15, self.16, self.17, self.18, self.19, self.20, self.21, self.22).parse_ensures(t1, Err(e)));
                return Err(e);
            },
        };
        assert(self.11.parse_ensures(t11, Ok((l, t12))));
        assert((self.12, self.13, self.14, self.15, self.16, self.17, self.18, self.19, self.20, self.21, self.22).parse_requires(t12));
        let (m, t13) = match self.12.parse(t12) {
            Ok(r) => r,
            Err(e) => {
                assert((self.12, self.13, self.14, self.15, self.16, self.17, self.18, self.19, self.20, self.21, self.22).parse_ensures(t12, Err(e)));
                assert((self.11, self.12, self.13, self.14, self.15, self.16, self.17, self.18, self.19, self.20, self.21, self.22).parse_ensures(t11, Err(e)));
                assert((self.10, self.11, self.12, self.13, self.14, self.15, self.16, self.17, self.18, self.19, self.20, self.21, self.22).parse_ensures(t10, Err(e)));
                assert((self.9, self.10, self.11, self.12, self.13, self.14, self.15, self.16, self.17, self.18, self.19, self.20, self.21, self.22).parse_ensures(t9, Err(e)));
                assert((self.8, self.9, self.10, self.11, self.12, self.13, self.14, self.15, self.16, self.17, self.18, self.19, self.20, self.21, self.22).parse_ensures(t8, Err(e)));
                assert((self.7, self.8, self.9, self.10, self.11, self.12, self.13, self.14, self.15, self.16, self.17, self.18, self.19, self.20, self.21, self.22).parse_ensures(t7, Err(e)));
                assert((self.6, self.7, self.8, self.9, self.10, self.11, self.12, self.13, self.14, self.15, self.16, self.17, self.18, self.19, self.20, self.21, self.22).parse_ensures(t6, Err(e)));
                assert((self.5, self.6, self.7, self.8, self.9, self.10, self.11, self.12, self.13, self.14, self.15, self.16, self.17, self.18, self.19, self.20, self.21, self.22).parse_ensures(t5, Err(e)));
                assert((self.4, self.5, self.6, self.7, self.8, self.9, self.10, self.11, self.12, self.13, self.14, self.15, self.16, self.17, self.18, self.19, self.20, self.21, self.22).parse_ensures(t4, Err(e)));
                assert((self.3, self.4, self.5, self.6, self.7, self.8, self.9, self.10, self.11, self.12, self.13, self.14, self.15, self.16, self.17, self.18, self.19, self.20, self.21, self.22).parse_ensures(t3, Err(e)));
                assert((self.2, self.3, self.4, self.5, self.6, self.7, self.8, self.9, self.10, self.11, self.12, self.13, self.14, self.15, self.16, self.17, self.18, self.19, self.20, self.21, self.22).parse_ensures(t2, Err(e)));
                assert((self.1, self.2, self.3, self.4, self.5, self.6, self.7, self.8, self.9, self.10, self.11, self.12, self.13, self.14, self.15, self.16, self.17, self.18, self.19, self.20, self.21, self.22).parse_ensures(t1, Err(e)));
                return Err(e);
            },
        };
        assert(self.12.parse_ensures(t12, Ok((m, t13))));
        assert((self.13, self.14, self.15, self.16, self.17, self.18, self.19, self.20, self.21, self.22).parse_requires(t13));
        let (n, t14) = match self.13.parse(t13) {
            Ok(r) => r,
            Err(e) => {
                assert((self.13, self.14, self.15, self.16, self.17, self.18, self.19, self.20, self.21, self.22).parse_ensures(t13, Err(e)));
                assert((self.12, self.13, self.14, self.15, self.16, self.17, self.18, self.19, self.20, self.21, self.22).parse_ensures(t12, Err(e)));
                assert((self.11, self.12, self.13, self.14, self.15, self.16, self.17, self.18, self.19, self.20, self.21, self.22).parse_ensures(t11, Err(e)));
                assert((self.10, self.11, self.12, self.13, self.14, self.15, self.16, self.17, self.18, self.19, self.20, self.21, self.22).parse_ensures(t10, Err(e)));
                assert((self.9, self.10, self.11, self.12, self.13, self.14, self.15, self.16, self.17, self.18, self.19, self.20, self.21, self.22).parse_ensures(t9, Err(e)));
                assert((self.8, self.9, self.10, self.11, self.12, self.13, self.14, self.15, self.16, self.17, self.18, self.19, self.20, self.21, self.22).parse_ensures(t8, Err(e)));
                assert((self.7, self.8, self.9, self.10, self.11, self.12, self.13, self.14, self.15, self.16, self.17, self.18, self.19, self.20, self.21, self.22).parse_ensures(t7, Err(e)));
                assert((self.6, self.7, self.8, self.9, self.10, self.11, self.12, self.13, self.14, self.15, self.16, self.17, self.18, self.19, self.20, self.21, self.22).parse_ensures(t6, Err(e)));
                assert((self.5, self.6, self.7, self.8, self.9, self.10, self.11, self.12, self.13, self.14, self.15, self.16, self.17, self.18, self.19, self.20, self.21, self.22).parse_ensures(t5, Err(e)));
                assert((self.4, self.5, self.6, self.7, self.8, self.9, self.10, self.11, self.12, self.13, self.14, self.15, self.16, self.17, self.18, self.19, self.20, self.21, self.22).parse_ensures(t4, Err(e)));
                assert((self.3, self.4, self.5, self.6, self.7, self.8, self.9, self.10, self.11, self.12, self.13, self.14, self.15, self.16, self.17, self.18, self.19, self.20, self.21, self.22).parse_ensures(t3, Err(e)));
                assert((self.2, self.3, self.4, self.5, self.6, self.7, self.8, self.9, self.10, self.11, self.12, self.13, self.14, self.15, self.16, self.17, self.18, self.19, self.20, self.21, self.22).parse_ensures(t2, Err(e)));
                assert((self.1, self.2, self.3, self.4, self.5, self.6, self.7, self.8, self.9, self.10, self.11, self.12, self.13, self.14, self.15, self.16, self.17, self.18, self.19, self.20, self.21, self.22).parse_ensures(t1, Err(e)));
                return Err(e);
            },
        };
        assert(self.13.parse_ensures(t13, Ok((n, t14))));
        assert((self.14, self.15, self.16, self.17, self.18, self.19, self.20, self.21, self.22).parse_requires(t14));
        let (o, t15) = match self.14.parse(t14) {
            Ok(r) => r,
            Err(e) => {
                assert((self.14, self.15, self.16, self.17, self.18, self.19, self.20, self.21, self.22).parse_ensures(t14, Err(e)));
                assert((self.13, self.14, self.15, self.16, self.17, self.18, self.19, self.20, self.21, self.22).parse_ensures(t13, Err(e)));
                assert((self.12, self.13, self.14, self.15, self.16, self.17, self.18, self.19, self.20, self.21, self.22).parse_ensures(t12, Err(e)));
                assert((self.11, self.12, self.13, self.14, self.15, self.16, self.17, self.18, self.19, self.20, self.21, self.22).parse_ensures(t11, Err(e)));
                assert((self.10, self.11, self.12, self.13, self.14, self.15, self.16, self.17, self.18, self.19, self.20, self.21, self.22).parse_ensures(t10, Err(e)));
                assert((self.9, self.10, self.11, self.12, self.13, self.14, self.15, self.16, self.17, self.18, self.19, self.20, self.21, self.22).parse_ensures(t9, Err(e)));
                assert((self.8, self.9, self.10, self.11, self.12, self.13, self.14, self.15, self.16, self.17, self.18, self.19, self.20, self.21, self.22).parse_ensures(t8, Err(e)));
                assert((self.7, self.8, self.9, self.10, self.11, self.12, self.13, self.14, self.15, self.16, self.17, self.18, self.19, self.20, self.21, self.22).parse_ensures(t7, Err(e)));
                assert((self.6, self.7, self.8, self.9, self.10, self.11, self.12, self.13, self.14, self.15, self.16, self.17, self.18, self.19, self.20, self.21, self.22).parse_ensures(t6, Err(e)));
                assert((self.5, self.6, self.7, self.8, self.9, self.10, self.11, self.12, self.13, self.14, self.15, self.16, self.17, self.18, self.19, self.20, self.21, self.22).parse_ensures(t5, Err(e)));
                assert((self.4, self.5, self.6, self.7, self.8, self.9, self.10, self.11, self.12, self.13, self.14, self.15, self.16, self.17, self.18, self.19, self.20, self.21, self.22).parse_ensures(t4, Err(e)));
                assert((self.3, self.4, self.5, self.6, self.7, self.8, self.9, self.10, self.11, self.12, self.13, self.14, self.15, self.16, self.17, self.18, self.19, self.20, self.21, self.22).parse_ensures(t3, Err(e)));
                assert((self.2, self.3, self.4, self.5, self.6, self.7, self.8, self.9, self.10, self.11, self.12, self.13, self.14, self.15, self.16, self.17, self.18, self.19, self.20, self.21, self.22).parse_ensures(t2, Err(e)));
                assert((self.1, self.2, self.3, self.4, self.5, self.6, self.7, self.8, self.9, self.10, self.11, self.12, self.13, self.14, self.15, self.16, self.17, self.18, self.19, self.20, self.21, self.22).parse_ensures(t1, Err(e)));
                return Err(e);
            },
        };
        assert(self.14.parse_ensures(t14, Ok((o, t15))));
        assert((self.15, self.16, self.17, self.18, self.19, self.20, self.21, self.22).parse_requires(t15));
        let (p, t16) = match self.15.parse(t15) {
            Ok(r) => r,
            Err(e) => {
                assert((self.15, self.16, self.17, self.18, self.19, self.20, self.21, self.22).parse_ensures(t15, Err(e)));
                assert((self.14, self.15, self.16, self.17, self.18, self.19, self.20, self.21, self.22).parse_ensures(t14, Err(e)));
                assert((self.13, self.14, self.15, self.16, self.17, self.18, self.19, self.20, self.21, self.22).parse_ensures(t13, Err(e)));
                assert((self.12, self.13, self.14, self.15, self.16, self.17, self.18, self.19, self.20, self.21, self.22).parse_ensures(t12, Err(e)));
                assert((self.11, self.12, self.13, self.14, self.15, self.16, self.17, self.18, self.19, self.20, self.21, self.22).parse_ensures(t11, Err(e)));
                assert((self.10, self.11, self.12, self.13, self.14, self.15, self.16, self.17, self.18, self.19, self.20, self.21, self.22).parse_ensures(t10, Err(e)));
                assert((self.9, self.10, self.11, self.12, self.13, self.14, self.15, self.16, self.17, self.18, self.19, self.20, self.21, self.22).parse_ensures(t9, Err(e)));
                assert((self.8, self.9, self.10, self.11, self.12, self.13, self.14, self.15, self.16, self.17, self.18, self.19, self.20, self.21, self.22).parse_ensures(t8, Err(e)));
                assert((self.7, self.8, self.9, self.10, self.11, self.12, self.13, self.14, self.15, self.16, self.17, self.18, self.19, self.20, self.21, self.22).parse_ensures(t7, Err(e)));
                assert((self.6, self.7, self.8, self.9, self.10, self.11, self.12, self.13, self.14, self.15, self.16, self.17, self.18, self.19, self.20, self.21, self.22).parse_ensures(t6, Err(e)));
                assert((self.5, self.6, self.7, self.8, self.9, self.10, self.11, self.12, self.13, self.14, self.15, self.16, self.17, self.18, self.19, self.20, self.21, self.22).parse_ensures(t5, Err(e)));
                assert((self.4, self.5, self.6, self.7, self.8, self.9, self.10, self.11, self.12, self.13, self.14, self.15, self.16, self.17, self.18, self.19, self.20, self.21, self.22).parse_ensures(t4, Err(e)));
                assert((self.3, self.4, self.5, self.6, self.7, self.8, self.9, self.10, self.11, self.12, self.13, self.14, self.15, self.16, self.17, self.18, self.19, self.20, self.21, self.22).parse_ensures(t3, Err(e)));
                assert((self.2, self.3, self.4, self.5, self.6, self.7, self.8, self.9, self.10, self.11, self.12, self.13, self.14, self.15, self.16, self.17, self.18, self.19, self.20, self.21, self.22).parse_ensures(t2, Err(e)));
                assert((self.1, self.2, self.3, self.4, self.5, self.6, self.7, self.8, self.9, self.10, self.11, self.12, self.13, self.14, self.15, self.16, self.17, self.18, self.19, self.20, self.21, self.22).parse_ensures(t1, Err(e)));
                return Err(e);
            },
        };
        assert(self.15.parse_ensures(t15, Ok((p, t16))));
        assert((self.16, self.17, self.18, self.19, self.20, self.21, self.22).parse_requires(t16));
        let (q, t17) = match self.16.parse(t16) {
            Ok(r) => r,
            Err(e) => {
                assert((self.16, self.17, self.18, self.19, self.20, self.21, self.22).parse_ensures(t16, Err(e)));
                assert((self.15, self.16, self.17, self.18, self.19, self.20, self.21, self.22).parse_ensures(t15, Err(e)));
                assert((self.14, self.15, self.16, self.17, self.18, self.19, self.20, self.21, self.22).parse_ensures(t14, Err(e)));
                assert((self.13, self.14, self.15, self.16, self.17, self.18, self.19, self.20, self.21, self.22).parse_ensures(t13, Err(e)));
                assert((self.12, self.13, self.14, self.15, self.16, self.17, self.18, self.19, self.20, self.21, self.22).parse_ensures(t12, Err(e)));
                assert((self.11, self.12, self.13, self.14, self.15, self.16, self.17, self.18, self.19, self.20, self.21, self.22).parse_ensures(t11, Err(e)));
                assert((self.10, self.11, self.12, self.13, self.14, self.15, self.16, self.17, self.18, self.19, self.20, self.21, self.22).parse_ensures(t10, Err(e)));
                assert((self.9, self.10, self.11, self.12, self.13, self.14, self.15, self.16, self.17, self.18, self.19, self.20, self.21, self.22).parse_ensures(t9, Err(e)));
                assert((self.8, self.9, self.10, self.11, self.12, self.13, self.14, self.15, self.16, self.17, self.18, self.19, self.20, self.21, self.22).parse_ensures(t8, Err(e)));
                assert((self.7, self.8, self.9, self.10, self.11, self.12, self.13, self.14, self.15, self.16, self.17, self.18, self.19, self.20, self.21, self.22).parse_ensures(t7, Err(e)));
                assert((self.6, self.7, self.8, self.9, self.10, self.11, self.12, self.13, self.14, self.15, self.16, self.17, self.18, self.19, self.20, self.21, self.22).parse_ensures(t6, Err(e)));
                assert((self.5, self.6, self.7, self.8, self.9, self.10, self.11, self.12, self.13, self.14, self.15, self.16, self.17, self.18, self.19, self.20, self.21, self.22).parse_ensures(t5, Err(e)));
                assert((self.4, self.5, self.6, self.7, self.8, self.9, self.10, self.11, self.12, self.13, self.14, self.15, self.16, self.17, self.18, self.19, self.20, self.21, self.22).parse_ensures(t4, Err(e)));
                assert((self.3, self.4, self.5, self.6, self.7, self.8, self.9, self.10, self.11, self.12, self.13, self.14, self.15, self.16, self.17, self.18, self.19, self.20, self.21, self.22).parse_ensures(t3, Err(e)));
                assert((self.2, self.3, self.4, self.5, self.6, self.7, self.8, self.9, self.10, self.11, self.12, self.13, self.14, self.15, self.16, self.17, self.18, self.19, self.20, self.21, self.22).parse_ensures(t2, Err(e)));
                assert((self.1, self.2, self.3, self.4, self.5, self.6, self.7, self.8, self.9, self.10, self.11, self.12, self.13, self.14, self.15, self.16, self.17, self.18, self.19, self.20, self.21, self.22).parse_ensures(t1, Err(e)));
                return Err(e);
            },
        };
        assert(self.16.parse_ensures(t16, Ok((q, t17))));
        assert((self.17, self.18, self.19, self.20, self.21, self.22).parse_requires(t17));
        let (r, t18) = match self.17.parse(t17) {
            Ok(r) => r,
            Err(e) => {
                assert((self.17, self.18, self.19, self.20, self.21, self.22).parse_ensures(t17, Err(e)));
                assert((self.16, self.17, self.18, self.19, self.20, self.21, self.22).parse_ensures(t16, Err(e)));
                assert((self.15, self.16, self.17, self.18, self.19, self.20, self.21, self.22).parse_ensures(t15, Err(e)));
                assert((self.14, self.15, self.16, self.17, self.18, self.19, self.20, self.21, self.22).parse_ensures(t14, Err(e)));
                assert((self.13, self.14, self.15, self.16, self.17, self.18, self.19, self.20, self.21, self.22).parse_ensures(t13, Err(e)));
                assert((self.12, self.13, self.14, self.15, self.16, self.17, self.18, self.19, self.20, self.21, self.22).parse_ensures(t12, Err(e)));
                assert((self.11, self.12, self.13, self.14, self.15, self.16, self.17, self.18, self.19, self.20, self.21, self.22).parse_ensures(t11, Err(e)));
                assert((self.10, self.11, self.12, self.13, self.14, self.15, self.16, self.17, self.18, self.19, self.20, self.21, self.22).parse_ensures(t10, Err(e)));
                assert((self.9, self.10, self.11, self.12, self.13, self.14, self.15, self.16, self.17, self.18, self.19, self.20, self.21, self.22).parse_ensures(t9, Err(e)));
                assert((self.8, self.9, self.10, self.11, self.12, self.13, self.14, self.15, self.16, self.17, self.18, self.19, self.20, self.21, self.22).parse_ensures(t8, Err(e)));
                assert((self.7, self.8, self.9, self.10, self.11, self.12, self.13, self.14, self.15, self.16, self.17, self.18, self.19, self.20, self.21, self.22).parse_ensures(t7, Err(e)));
                assert((self.6, self.7, self.8, self.9, self.10, self.11, self.12, self.13, self.14, self.15, self.16, self.17, self.18, self.19, self.20, self.21, self.22).parse_ensures(t6, Err(e)));
                assert((self.5, self.6, self.7, self.8, self.9, self.10, self.11, self.12, self.13, self.14, self.15, self.16, self.17, self.18, self.19, self.20, self.21, self.22).parse_ensures(t5, Err(e)));
                assert((self.4, self.5, self.6, self.7, self.8, self.9, self.10, self.11, self.12, self.13, self.14, self.15, self.16, self.17, self.18, self.19, self.20, self.21, self.22).parse_ensures(t4, Err(e)));
                assert((self.3, self.4, self.5, self.6, self.7, self.8, self.9, self.10, self.11, self.12, self.13, self.14, self.15, self.16, self.17, self.18, self.19, self.20, self.21, self.22).parse_ensures(t3, Err(e)));
                assert((self.2, self.3, self.4, self.5, self.6, self.7, self.8, self.9, self.10, self.11, self.12, self.13, self.14, self.15, self.16, self.17, self.18, self.19, self.20, self.21, self.22).parse_ensures(t2, Err(e)));
                assert((self.1, self.2, self.3, self.4, self.5, self.6, self.7, self.8, self.9, self.10, self.11, self.12, self.13, self.14, self.15, self.16, self.17, self.18, self.19, self.20, self.21, self.22).parse_ensures(t1, Err(e)));
                return Err(e);
            },
        };
        assert(self.17.parse_ensures(t17, Ok((r, t18))));
        assert((self.18, self.19, self.20, self.21, self.22).parse_requires(t18));
        let (s, t19) = match self.18.parse(t18) {
            Ok(r) => r,
            Err(e) => {
                assert((self.18, self.19, self.20, self.21, self.22).parse_ensures(t18, Err(e)));
                assert((self.17, self.18, self.19, self.20, self.21, self.22).parse_ensures(t17, Err(e)));
                assert((self.16, self.17, self.18, self.19, self.20, self.21, self.22).parse_ensures(t16, Err(e)));
                assert((self.15, self.16, self.17, self.18, self.19, self.20, self.21, self.22).parse_ensures(t15, Err(e)));
                assert((self.14, self.15, self.16, self.17, self.18, self.19, self.20, self.21, self.22).parse_ensures(t14, Err(e)));
                assert((self.13, self.14, self.15, self.16, self.17, self.18, self.19, self.20, self.21, self.22).parse_ensures(t13, Err(e)));
                assert((self.12, self.13, self.14, self.15, self.16, self.17, self.18, self.19, self.20, self.21, self.22).parse_ensures(t12, Err(e)));
                assert((self.11, self.12, self.13, self.14, self.15, self.16, self.17, self.18, self.19, self.20, self.21, self.22).parse_ensures(t11, Err(e)));
                assert((self.10, self.11, self.12, self.13, self.14, self.15, self.16, self.17, self.18, self.19, self.20, self.21, self.22).parse_ensures(t10, Err(e)));
                assert((self.9, self.10, self.11, self.12, self.13, self.14, self.15, self.16, self.17, self.18, self.19, self.20, self.21, self.22).parse_ensures(t9, Err(e)));
                assert((self.8, self.9, self.10, self.11, self.12, self.13, self.14, self.15, self.16, self.17, self.18, self.19, self.20, self.21, self.22).parse_ensures(t8, Err(e)));
                assert((self.7, self.8, self.9, self.10, self.11, self.12, self.13, self.14, self.15, self.16, self.17, self.18, self.19, self.20, self.21, self.22).parse_ensures(t7, Err(e)));
                assert((self.6, self.7, self.8, self.9, self.10, self.11, self.12, self.13, self.14, self.15, self.16, self.17, self.18, self.19, self.20, self.21, self.22).parse_ensures(t6, Err(e)));
                assert((self.5, self.6, self.7, self.8, self.9, self.10, self.11, self.12, self.13, self.14, self.15, self.16, self.17, self.18, self.19, self.20, self.21, self.22).parse_ensures(t5, Err(e)));
                assert((self.4, self.5, self.6, self.7, self.8, self.9, self.10, self.11, self.12, self.13, self.14, self.15, self.16, self.17, self.18, self.19, self.20, self.21, self.22).parse_ensures(t4, Err(e)));
                assert((self.3, self.4, self.5, self.6, self.7, self.8, self.9, self.10, self.11, self.12, self.13, self.14, self.15, self.16, self.17, self.18, self.19, self.20, self.21, self.22).parse_ensures(t3, Err(e)));
                assert((self.2, self.3, self.4, self.5, self.6, self.7, self.8, self.9, self.10, self.11, self.12, self.13, self.14, self.15, self.16, self.17, self.18, self.19, self.20, self.21, self.22).parse_ensures(t2, Err(e)));
                assert((self.1, self.2, self.3, self.4, self.5, self.6, self.7, self.8, self.9, self.10, self.11, self.12, self.13, self.14, self.15, self.16, self.17, self.18, self.19, self.20, self.21, self.22).parse_ensures(t1, Err(e)));
                return Err(e);
            },
        };
        assert(self.18.parse_ensures(t18, Ok((s, t19))));
        assert((self.19, self.20, self.21, self.22).parse_requires(t19));
        let (t, t20) = match self.19.parse(t19) {
            Ok(r) => r,
            Err(e) => {
                assert((self.19, self.20, self.21, self.22).parse_ensures(t19, Err(e)));
                assert((self.18, self.19, self.20, self.21, self.22).parse_ensures(t18, Err(e)));
                assert((self.17, self.18, self.19, self.20, self.21, self.22).parse_ensures(t17, Err(e)));
                assert((self.16, self.17, self.18, self.19, self.20, self.21, self.22).parse_ensures(t16, Err(e)));
                assert((self.15, self.16, self.17, self.18, self.19, self.20, self.21, self.22).parse_ensures(t15, Err(e)));
                assert((self.14, self.15, self.16, self.17, self.18, self.19, self.20, self.21, self.22).parse_ensures(t14, Err(e)));
                assert((self.13, self.14, self.15, self.16, self.17, self.18, self.19, self.20, self.21, self.22).parse_ensures(t13, Err(e)));
                assert((self.12, self.13, self.14, self.15, self.16, self.17, self.18, self.19, self.20, self.21, self.22).parse_ensures(t12, Err(e)));
                assert((self.11, self.12, self.13, self.14, self.15, self.16, self.17, self.18, self.19, self.20, self.21, self.22).parse_ensures(t11, Err(e)));
                assert((self.10, self.11, self.12, self.13, self.14, self.15, self.16, self.17, self.18, self.19, self.20, self.21, self.22).parse_ensures(t10, Err(e)));
                assert((self.9, self.10, self.11, self.12, self.13, self.14, self.15, self.16, self.17, self.18, self.19, self.20, self.21, self.22).parse_ensures(t9, Err(e)));
                assert((self.8, self.9, self.10, self.11, self.12, self.13, self.14, self.15, self.16, self.17, self.18, self.19, self.20, self.21, self.22).parse_ensures(t8, Err(e)));
                assert((self.7, self.8, self.9, self.10, self.11, self.12, self.13, self.14, self.15, self.16, self.17, self.18, self.19, self.20, self.21, self.22).parse_ensures(t7, Err(e)));
                assert((self.6, self.7, self.8, self.9, self.10, self.11, self.12, self.13, self.14, self.15, self.16, self.17, self.18, self.19, self.20, self.21, self.22).parse_ensures(t6, Err(e)));
                assert((self.5, self.6, self.7, self.8, self.9, self.10, self.11, self.12, self.13, self.14, self.15, self.16, self.17, self.18, self.19, self.20, self.21, self.22).parse_ensures(t5, Err(e)));
                assert((self.4, self.5, self.6, self.7, self.8, self.9, self.10, self.11, self.12, self.13, self.14, self.15, self.16, self.17, self.18, self.19, self.20, self.21, self.22).parse_ensures(t4, Err(e)));
                assert((self.3, self.4, self.5, self.6, self.7, self.8, self.9, self.10, self.11, self.12, self.13, self.14, self.15, self.16, self.17, self.18, self.19, self.20, self.21, self.22).parse_ensures(t3, Err(e)));
                assert((self.2, self.3, self.4, self.5, self.6, self.7, self.8, self.9, self.10, self.11, self.12, self.13, self.14, self.15, self.16, self.17, self.18, self.19, self.20, self.21, self.22).parse_ensures(t2, Err(e)));
                assert((self.1, self.2, self.3, self.4, self.5, self.6, self.7, self.8, self.9, self.10, self.11, self.12, self.13, self.14, self.15, self.16, self.17, self.18, self.19, self.20, self.21, self.22).parse_ensures(t1, Err(e)));
                return Err(e);
            },
        };
        assert(self.19.parse_ensures(t19, Ok((t, t20))));
        assert((self.20, self.21, self.22).parse_requires(t20));
        let (u, t21) = match self.20.parse(t20) {
            Ok(r) => r,
            Err(e) => {
                assert((self.20, self.21, self.22).parse_ensures(t20, Err(e)));
                assert((self.19, self.20, self.21, self.22).parse_ensures(t19, Err(e)));
                assert((self.18, self.19, self.20, self.21, self.22).parse_ensures(t18, Err(e)));
                assert((self.17, self.18, self.19, self.20, self.21, self.22).parse_ensures(t17, Err(e)));
                assert((self.16, self.17, self.18, self.19, self.20, self.21, self.22).parse_ensures(t16, Err(e)));
                assert((self.15, self.16, self.17, self.18, self.19, self.20, self.21, self.22).parse_ensures(t15, Err(e)));
                assert((self.14, self.15, self.16, self.17, self.18, self.19, self.20, self.21, self.22).parse_ensures(t14, Err(e)));
                assert((self.13, self.14, self.15, self.16, self.17, self.18, self.19, self.20, self.21, self.22).parse_ensures(t13, Err(e)));
                assert((self.12, self.13, self.14, self.15, self.16, self.17, self.18, self.19, self.20, self.21, self.22).parse_ensures(t12, Err(e)));
                assert((self.11, self.12, self.13, self.14, self.15, self.16, self.17, self.18, self.19, self.20, self.21, self.22).parse_ensures(t11, Err(e)));
                assert((self.10, self.11, self.12, self.13, self.14, self.15, self.16, self.17, self.18, self.19, self.20, self.21, self.22).parse_ensures(t10, Err(e)));
                assert((self.9, self.10, self.11, self.12, self.13, self.14, self.15, self.16, self.17, self.18, self.19, self.20, self.21, self.22).parse_ensures(t9, Err(e)));
                assert((self.8, self.9, self.10, self.11, self.12, self.13, self.14, self.15, self.16, self.17, self.18, self.19, self.20, self.21, self.22).parse_ensures(t8, Err(e)));
                assert((self.7, self.8, self.9, self.10, self.11, self.12, self.13, self.14, self.15, self.16, self.17, self.18, self.19, self.20, self.21, self.22).parse_ensures(t7, Err(e)));
                assert((self.6, self.7, self.8, self.9, self.10, self.11, self.12, self.13, self.14, self.15, self.16, self.17, self.18, self.19, self.20, self.21, self.22).parse_ensures(t6, Err(e)));
                assert((self.5, self.6, self.7, self.8, self.9, self.10, self.11, self.12, self.13, self.14, self.15, self.16, self.17, self.18, self.19, self.20, self.21, self.22).parse_ensures(t5, Err(e)));
                assert((self.4, self.5, self.6, self.7, self.8, self.9, self.10, self.11, self.12, self.13, self.14, self.15, self.16, self.17, self.18, self.19, self.20, self.21, self.22).parse_ensures(t4, Err(e)));
                assert((self.3, self.4, self.5, self.6, self.7, self.8, self.9, self.10, self.11, self.12, self.13, self.14, self.15, self.16, self.17, self.18, self.19, self.20, self.21, self.22).parse_ensures(t3, Err(e)));
                assert((self.2, self.3, self.4, self.5, self.6, self.7, self.8, self.9, self.10, self.11, self.12, self.13, self.14, self.15, self.16, self.17, self.18, self.19, self.20, self.21, self.22).parse_ensures(t2, Err(e)));
                assert((self.1, self.2, self.3, self.4, self.5, self.6, self.7, self.8, self.9, self.10, self.11, self.12, self.13, self.14, self.15, self.16, self.17, self.18, self.19, self.20, self.21, self.22).parse_ensures(t1, Err(e)));
                return Err(e);
            },
        };
        assert(self.20.parse_ensures(t20, Ok((u, t21))));
        assert((self.21, self.22).parse_requires(t21));
        let (v, t22) = match self.21.parse(t21) {
            Ok(r) => r,
            Err(e) => {
                assert((self.21, self.22).parse_ensures(t21, Err(e)));
                assert((self.20, self.21, self.22).parse_ensures(t20, Err(e)));
                assert((self.19, self.20, self.21, self.22).parse_ensures(t19, Err(e)));
                assert((self.18, self.19, self.20, self.21, self.22).parse_ensures(t18, Err(e)));
                assert((self.17, self.18, self.19, self.20, self.21, self.22).parse_ensures(t17, Err(e)));
                assert((self.16, self.17, self.18, self.19, self.20, self.21, self.22).parse_ensures(t16, Err(e)));
                assert((self.15, self.16, self.17, self.18, self.19, self.20, self.21, self.22).parse_ensures(t15, Err(e)));
                assert((self.14, self.15, self.16, self.17, self.18, self.19, self.20, self.21, self.22).parse_ensures(t14, Err(e)));
                assert((self.13, self.14, self.15, self.16, self.17, self.18, self.19, self.20, self.21, self.22).parse_ensures(t13, Err(e)));
                assert((self.12, self.13, self.14, self.15, self.16, self.17, self.18, self.19, self.20, self.21, self.22).parse_ensures(t12, Err(e)));
                assert((self.11, self.12, self.13, self.14, self.15, self.16, self.17, self.18, self.19, self.20, self.21, self.22).parse_ensures(t11, Err(e)));
                assert((self.10, self.11, self.12, self.13, self.14, self.15, self.16, self.17, self.18, self.19, self.20, self.21, self.22).parse_ensures(t10, Err(e)));
                assert((self.9, self.10, self.11, self.12, self.13, self.14, self.15, self.16, self.17, self.18, self.19, self.20, self.21, self.22).parse_ensures(t9, Err(e)));
                assert((self.8, self.9, self.10, self.11, self.12, self.13, self.14, self.15, self.16, self.17, self.18, self.19, self.20, self.21, self.22).parse_ensures(t8, Err(e)));
                assert((self.7, self.8, self.9, self.10, self.11, self.12, self.13, self.14, self.15, self.16, self.17, self.18, self.19, self.20, self.21, self.22).parse_ensures(t7, Err(e)));
                assert((self.6, self.7, self.8, self.9, self.10, self.11, self.12, self.13, self.14, self.15, self.16, self.17, self.18, self.19, self.20, self.21, self.22).parse_ensures(t6, Err(e)));
                assert((self.5, self.6, self.7, self.8, self.9, self.10, self.11, self.12, self.13, self.14, self.15, self.16, self.17, self.18, self.19, self.20, self.21, self.22).parse_ensures(t5, Err(e)));
                assert((self.4, self.5, self.6, self.7, self.8, self.9, self.10, self.11, self.12, self.13, self.14, self.15, self.16, self.17, self.18, self.19, self.20, self.21, self.22).parse_ensures(t4, Err(e)));
                assert((self.3, self.4, self.5, self.6, self.7, self.8, self.9, self.10, self.11, self.12, self.13, self.14, self.15, self.16, self.17, self.18, self.19, self.20, self.21, self.22).parse_ensures(t3, Err(e)));
                assert((self.2, self.3, self.4, self.5, self.6, self.7, self.8, self.9, self.10, self.11, self.12, self.13, self.14, self.15, self.16, self.17, self.18, self.19, self.20, self.21, self.22).parse_ensures(t2, Err(e)));
                assert((self.1, self.2, self.3, self.4, self.5, self.6, self.7, self.8, self.9, self.10, self.11, self.12, self.13, self.14, self.15, self.16, self.17, self.18, self.19, self.20, self.21, self.22).parse_ensures(t1, Err(e)));
                return Err(e);
            },
        };
        assert(self.21.parse_ensures(t21, Ok((v, t22))));
        let (w, t23) = match self.22.parse(t22) {
            Ok(r) => r,
            Err(e) => {
                assert((self.21, self.22).parse_ensures(t21, Err(e)));
                assert((self.20, self.21, self.22).parse_ensures(t20, Err(e)));
                assert((self.19, self.20, self.21, self.22).parse_ensures(t19, Err(e)));
                assert((self.18, self.19, self.20, self.21, self.22).parse_ensures(t18, Err(e)));
                assert((self.17, self.18, self.19, self.20, self.21, self.22).parse_ensures(t17, Err(e)));
                assert((self.16, self.17, self.18, self.19, self.20, self.21, self.22).parse_ensures(t16, Err(e)));
                assert((self.15, self.16, self.17, self.18, self.19, self.20, self.21, self.22).parse_ensures(t15, Err(e)));
                assert((self.14, self.15, self.16, self.17, self.18, self.19, self.20, self.21, self.22).parse_ensures(t14, Err(e)));
                assert((self.13, self.14, self.15, self.16, self.17, self.18, self.19, self.20, self.21, self.22).parse_ensures(t13, Err(e)));
                assert((self.12, self.13, self.14, self.15, self.16, self.17, self.18, self.19, self.20, self.21, self.22).parse_ensures(t12, Err(e)));
                assert((self.11, self.12, self.13, self.14, self.15, self.16, self.17, self.18, self.19, self.20, self.21, self.22).parse_ensures(t11, Err(e)));
                assert((self.10, self.11, self.12, self.13, self.14, self.15, self.16, self.17, self.18, self.19, self.20, self.21, self.22).parse_ensures(t10, Err(e)));
                assert((self.9, self.10, self.11, self.12, self.13, self.14, self.15, self.16, self.17, self.18, self.19, self.20, self.21, self.22).parse_ensures(t9, Err(e)));
                assert((self.8, self.9, self.10, self.11, self.12, self.13, self.14, self.15, self.16, self.17, self.18, self.19, self.20, self.21, self.22).parse_ensures(t8, Err(e)));
                assert((self.7, self.8, self.9, self.10, self.11, self.12, self.13, self.14, self.15, self.16, self.17, self.18, self.19, self.20, self.21, self.22).parse_ensures(t7, Err(e)));
                assert((self.6, self.7, self.8, self.9, self.10, self.11, self.12, self.13, self.14, self.15, self.16, self.17, self.18, self.19, self.20, self.21, self.22).parse_ensures(t6, Err(e)));
                assert((self.5, self.6, self.7, self.8, self.9, self.10, self.11, self.12, self.13, self.14, self.15, self.16, self.17, self.18, self.19, self.20, self.21, self.22).parse_ensures(t5, Err(e)));
                assert((self.4, self.5, self.6, self.7, self.8, self.9, self.10, self.11, self.12, self.13, self.14, self.15, self.16, self.17, self.18, self.19, self.20, self.21, self.22).parse_ensures(t4, Err(e)));
                assert((self.3, self.4, self.5, self.6, self.7, self.8, self.9, self.10, self.11, self.12, self.13, self.14, self.15, self.16, self.17, self.18, self.19, self.20, self.21, self.22).parse_ensures(t3, Err(e)));
                assert((self.2, self.3, self.4, self.5, self.6, self.7, self.8, self.9, self.10, self.11, self.12, self.13, self.14, self.15, self.16, self.17, self.18, self.19, self.20, self.21, self.22).parse_ensures(t2, Err(e)));
                assert((self.1, self.2, self.3, self.4, self.5, self.6, self.7, self.8, self.9, self.10, self.11, self.12, self.13, self.14, self.15, self.16, self.17, self.18, self.19, self.20, self.21, self.22).parse_ensures(t1, Err(e)));
                return Err(e);
            },
        };
        assert((self.21, self.22).parse_ensures(t21, Ok(((v, w), t23))));
        assert((self.20, self.21, self.22).parse_ensures(t20, Ok(((u, v, w), t23))));
        assert((self.19, self.20, self.21, self.22).parse_ensures(t19, Ok(((t, u, v, w), t23))));
        assert((self.18, self.19, self.20, self.21, self.22).parse_ensures(t18, Ok(((s, t, u, v, w), t23))));
        assert((self.17, self.18, self.19, self.20, self.21, self.22).parse_ensures(t17, Ok(((r, s, t, u, v, w), t23))));
        assert((self.16, self.17, self.18, self.19, self.20, self.21, self.22).parse_ensures(t16, Ok(((q, r, s, t, u, v, w), t23))));
        assert((self.15, self.16, self.17, self.18, self.19, self.20, self.21, self.22).parse_ensures(t15, Ok(((p, q, r, s, t, u, v, w), t23))));
        assert((self.14, self.15, self.16, self.17, self.18, self.19, self.20, self.21, self.22).parse_ensures(t14, Ok(((o, p, q, r, s, t, u, v, w), t23))));
        assert((self.13, self.14, self.15, self.16, self.17, self.18, self.19, self.20, self.21, self.22).parse_ensures(t13, Ok(((n, o, p, q, r, s, t, u, v, w), t23))));
        assert((self.12, self.13, self.14, self.15, self.16, self.17, self.18, self.19, self.20, self.21, self.22).parse_ensures(t12, Ok(((m, n, o, p, q, r, s, t, u, v, w), t23))));
        assert((self.11, self.12, self.13, self.14, self.15, self.16, self.17, self.18, self.19, self.20, self.21, self.22).parse_ensures(t11, Ok(((l, m, n, o, p, q, r, s, t, u, v, w), t23))));
        assert((self.10, self.11, self.12, self.13, self.14, self.15, self.16, self.17, self.18, self.19, self.20, self.21, self.22).parse_ensures(t10, Ok(((k, l, m, n, o, p, q, r, s, t, u, v, w), t23))));
        assert((self.9, self.10, self.11, self.12, self.13, self.14, self.15, self.16, self.17, self.18, self.19, self.20, self.21, self.22).parse_ensures(t9, Ok(((j, k, l, m, n, o, p, q, r, s, t, u, v, w), t23))));
        assert((self.8, self.9, self.10, self.11, self.12, self.13, self.14, self.15, self.16, self.17, self.18, self.19, self.20, self.21, self.22).parse_ensures(t8, Ok(((i, j, k, l, m, n, o, p, q, r, s, t, u, v, w), t23))));
        assert((self.7, self.8, self.9, self.10, self.11, self.12, self.13, self.14, self.15, self.16, self.17, self.18, self.19, self.20, self.21, self.22).parse_ensures(t7, Ok(((h, i, j, k, l, m, n, o, p, q, r, s, t, u, v, w), t23))));
        assert((self.6, self.7, self.8, self.9, self.10, self.11, self.12, self.13, self.14, self.15, self.16, self.17, self.18, self.19, self.20, self.21, self.22).parse_ensures(t6, Ok(((g, h, i, j, k, l, m, n, o, p, q, r, s, t, u, v, w), t23))));
        assert((self.5, self.6, self.7, self.8, self.9, self.10, self.11, self.12, self.13, self.14, self.15, self.16, self.17, self.18, self.19, self.20, self.21, self.22).parse_ensures(t5, Ok(((f, g, h, i, j, k, l, m, n, o, p, q, r, s, t, u, v, w), t23))));
        assert((self.4, self.5, self.6, self.7, self.8, self.9, self.10, self.11, self.12, self.13, self.14, self.15, self.16, self.17, self.18, self.19, self.20, self.21, self.22).parse_ensures(t4, Ok(((e, f, g, h, i, j, k, l, m, n, o, p, q, r, s, t, u, v, w), t23))));
        assert((self.3, self.4, self.5, self.6, self.7, self.8, self.9, self.10, self.11, self.12, self.13, self.14, self.15, self.16, self.17, self.18, self.19, self.20, self.21, self.22).parse_ensures(t3, Ok(((d, e, f, g, h, i, j, k, l, m, n, o, p, q, r, s, t, u, v, w), t23))));
        assert((self.2, self.3, self.4, self.5, self.6, self.7, self.8, self.9, self.10, self.11, self.12, self.13, self.14, self.15, self.16, self.17, self.18, self.19, self.20, self.21, self.22).parse_ensures(t2, Ok(((c, d, e, f, g, h, i, j, k, l, m, n, o, p, q, r, s, t, u, v, w), t23))));
        assert((self.1, self.2, self.3, self.4, self.5, self.6, self.7, self.8, self.9, self.10, self.11, self.12, self.13, self.14, self.15, self.16, self.17, self.18, self.19, self.20, self.21, self.22).parse_ensures(t1, Ok(((b, c, d, e, f, g, h, i, j, k, l, m, n, o, p, q, r, s, t, u, v, w), t23))));
        Ok(((a, b, c, d, e, f, g, h, i, j, k, l, m, n, o, p, q, r, s, t, u, v, w), t23))
    }
}

/// A tuple of 23 deterministic parsers is deterministic.
pub proof fn lemma_tuple23_deterministic<Inp, Er, A, B, C, D, E, F, G, H, I, J, K, L, M, N, O, P, Q, R, S, T, U, V, W>(t: (A, B, C, D, E, F, G, H, I, J, K, L, M, N, O, P, Q, R, S, T, U, V, W))
    where
        A: Parser<Inp, Error = Er>,
        B: Parser<Inp, Error = Er>,
        C: Parser<Inp, Error = Er>,
        D: Parser<Inp, Error = Er>,
        E: Parser<Inp, Error = Er>,
        F: Parser<Inp, Error = Er>,
        G: Parser<Inp, Error = Er>,
        H: Parser<Inp, Error = Er>,
        I: Parser<Inp, Error = Er>,
        J: Parser<Inp, Error = Er>,
        K: Parser<Inp, Error = Er>,
        L: Parser<Inp, Error = Er>,
        M: Parser<Inp, Error = Er>,
        N: Parser<Inp, Error = Er>,
        O: Parser<Inp, Error = Er>,
        P: Parser<Inp, Error = Er>,
        Q: Parser<Inp, Error = Er>,
        R: Parser<Inp, Error = Er>,
        S: Parser<Inp, Error = Er>,
        T: Parser<Inp, Error = Er>,
        U: Parser<Inp, Error = Er>,
        V: Parser<Inp, Error = Er>,
        W: Parser<Inp, Error = Er>,
    requires
        deterministic::<Inp, A>(t.0),
        deterministic::<Inp, B>(t.1),
        deterministic::<Inp, C>(t.2),
        deterministic::<Inp, D>(t.3),
        deterministic::<Inp, E>(t.4),
        deterministic::<Inp, F>(t.5),
        deterministic::<Inp, G>(t.6),
        deterministic::<Inp, H>(t.7),
        deterministic::<Inp, I>(t.8),
        deterministic::<Inp, J>(t.9),
        deterministic::<Inp, K>(t.10),
        deterministic::<Inp, L>(t.11),
        deterministic::<Inp, M>(t.12),
        deterministic::<Inp, N>(t.13),
        deterministic::<Inp, O>(t.14),
        deterministic::<Inp, P>(t.15),
        deterministic::<Inp, Q>(t.16),
        deterministic::<Inp, R>(t.17),
        deterministic::<Inp, S>(t.18),
        deterministic::<Inp, T>(t.19),
        deterministic::<Inp, U>(t.20),
        deterministic::<Inp, V>(t.21),
        deterministic::<Inp, W>(t.22),
    ensures
        deterministic::<Inp, (A, B, C, D, E, F, G, H, I, J, K, L, M, N, O, P, Q, R, S, T, U, V, W)>(t),
{
    lemma_tuple22_deterministic::<Inp, Er, B, C, D, E, F, G, H, I, J, K, L, M, N, O, P, Q, R, S, T, U, V, W>((t.1, t.2, t.3, t.4, t.5, t.6, t.7, t.8, t.9, t.10, t.11, t.12, t.13, t.14, t.15, t.16, t.17, t.18, t.19, t.20, t.21, t.22));
    lemma_seq_unique::<Inp, A, (B, C, D, E, F, G, H, I, J, K, L, M, N, O, P, Q, R, S, T, U, V, W)>(t.0, (t.1, t.2, t.3, t.4, t.5, t.6, t.7, t.8, t.9, t.10, t.11, t.12, t.13, t.14, t.15, t.16, t.17, t.18, t.19, t.20, t.21, t.22));
}

/// A tuple of 24 parsers sharing one error type runs them in order.
impl<Inp, Er, A, B, C, D, E, F, G, H, I, J, K, L, M, N, O, P, Q, R, S, T, U, V, W, X> Parser<Inp> for (A, B, C, D, E, F, G, H, I, J, K, L, M, N, O, P, Q, R, S, T, U, V, W, X) where
    A: Parser<Inp, Error = Er>,
    B: Parser<Inp, Error = Er>,
    C: Parser<Inp, Error = Er>,
    D: Parser<Inp, Error = Er>,
    E: Parser<Inp, Error = Er>,
    F: Parser<Inp, Error = Er>,
    G: Parser<Inp, Error = Er>,
    H: Parser<Inp, Error = Er>,
    I: Parser<Inp, Error = Er>,
    J: Parser<Inp, Error = Er>,
    K: Parser<Inp, Error = Er>,
    L: Parser<Inp, Error = Er>,
    M: Parser<Inp, Error = Er>,
    N: Parser<Inp, Error = Er>,
    O: Parser<Inp, Error = Er>,
    P: Parser<Inp, Error = Er>,
    Q: Parser<Inp, Error = Er>,
    R: Parser<Inp, Error = Er>,
    S: Parser<Inp, Error = Er>,
    T: Parser<Inp, Error = Er>,
    U: Parser<Inp, Error = Er>,
    V: Parser<Inp, Error = Er>,
    W: Parser<Inp, Error = Er>,
    X: Parser<Inp, Error = Er>,
 {
    type Out = (A::Out, B::Out, C::Out, D::Out, E::Out, F::Out, G::Out, H::Out, I::Out, J::Out, K::Out, L::Out, M::Out, N::Out, O::Out, P::Out, Q::Out, R::Out, S::Out, T::Out, U::Out, V::Out, W::Out, X::Out);

    type Error = Er;

    open spec fn parse_requires(&self, input: Inp) -> bool {
        seq_requires(self.0, (self.1, self.2, self.3, self.4, self.5, self.6, self.7, self.8, self.9, self.10, self.11, self.12, self.13, self.14, self.15, self.16, self.17, self.18, self.19, self.20, self.21, self.22, self.23), input)
    }

    open spec fn parse_ensures(&self, input: Inp, res: Result<((A::Out, B::Out, C::Out, D::Out, E::Out, F::Out, G::Out, H::Out, I::Out, J::Out, K::Out, L::Out, M::Out, N::Out, O::Out, P::Out, Q::Out, R::Out, S::Out, T::Out, U::Out, V::Out, W::Out, X::Out), Inp), Er>) -> bool {
        match res {
            Ok(((a, b, c, d, e, f, g, h, i, j, k, l, m, n, o, p, q, r, s, t, u, v, w, x), rest)) => seq_ok(self.0, (self.1, self.2, self.3, self.4, self.5, self.6, self.7, self.8, self.9, self.10, self.11, self.12, self.13, self.14, self.15, self.16, self.17, self.18, self.19, self.20, self.21, self.22, self.23), input, a, (b, c, d, e, f, g, h, i, j, k, l, m, n, o, p, q, r, s, t, u, v, w, x), rest),
            Err(e) => seq_err(self.0, (self.1, self.2, self.3, self.4, self.5, self.6, self.7, self.8, self.9, self.10, self.11, self.12, self.13, self.14, self.15, self.16, self.17, self.18, self.19, self.20, self.21, self.22, self.23), input, e),
        }
    }

    fn parse(&self, txt: Inp) -> (res: Result<((A::Out, B::Out, C::Out, D::Out, E::Out, F::Out, G::Out, H::Out, I::Out, J::Out, K::Out, L::Out, M::Out, N::Out, O::Out, P::Out, Q::Out, R::Out, S::Out, T::Out, U::Out, V::Out, W::Out, X::Out), Inp), Er>) {
        let ghost t0 = txt;
        let (a, t1) = match self.0.parse(txt) {
            Ok(r) => r,
            Err(e) => return Err(e),
        };
        assert(self.0.parse_ensures(t0, Ok((a, t1))));
        assert((self.1, self.2, self.3, self.4, self.5, self.6, self.7, self.8, self.9, self.10, self.11, self.12, self.13, self.14, self.15, self.16, self.17, self.18, self.19, self.20, self.21, self.22, self.23).parse_requires(t1));
        let (b, t2) = match self.1.parse(t1) {
            Ok(r) => r,
            Err(e) => {
                assert((self.1, self.2, self.3, self.4, self.5, self.6, self.7, self.8, self.9, self.10, self.11, self.12, self.13, self.14, self.15, self.16, self.17, self.18, self.19, self.20, self.21, self.22, self.23).parse_ensures(t1, Err(e)));
                return Err(e);
            },
        };
        assert(self.1.parse_ensures(t1, Ok((b, t2))));
        assert((self.2, self.3, self.4, self.5, self.6, self.7, self.8, self.9, self.10, self.11, self.12, self.13, self.14, self.15, self.16, self.17, self.18, self.19, self.20, self.21, self.22, self.23).parse_requires(t2));
        let (c, t3) = match self.2.parse(t2) {
            Ok(r) => r,
            Err(e) => {
                assert((self.2, self.3, self.4, self.5, self.6, self.7, self.8, self.9, self.10, self.11, self.12, self.13, self.14, self.15, self.16, self.17, self.18, self.19, self.20, self.21, self.22, self.23).parse_ensures(t2, Err(e)));
                assert((self.1, self.2, self.3, self.4, self.5, self.6, self.7, self.8, self.9, self.10, self.11, self.12, self.13, self.14, self.15, self.16, self.17, self.18, self.19, self.20, self.21, self.22, self.23).parse_ensures(t1, Err(e)));
                return Err(e);
            },
        };
        assert(self.2.parse_ensures(t2, Ok((c, t3))));
        assert((self.3, self.4, self.5, self.6, self.7, self.8, self.9, self.10, self.11, self.12, self.13, self.14, self.15, self.16, self.17, self.18, self.19, self.20, self.21, self.22, self.23).parse_requires(t3));
        let (d, t4) = match self.3.parse(t3) {
            Ok(r) => r,
            Err(e) => {
                assert((self.3, self.4, self.5, self.6, self.7, self.8, self.9, self.10, self.11, self.12, self.13, self.14, self.15, self.16, self.17, self.18, self.19, self.20, self.21, self.22, self.23).parse_ensures(t3, Err(e)));
                assert((self.2, self.3, self.4, self.5, self.6, self.7, self.8, self.9, self.10, self.11, self.12, self.13, self.14, self.15, self.16, self.17, self.18, self.19, self.20, self.21, self.22, self.23).parse_ensures(t2, Err(e)));
                assert((self.1, self.2, self.3, self.4, self.5, self.6, self.7, self.8, self.9, self.10, self.11, self.12, self.13, self.14, self.15, self.16, self.17, self.18, self.19, self.20, self.21, self.22, self.23).parse_ensures(t1, Err(e)));
                return Err(e);
            },
        };
        assert(self.3.parse_ensures(t3, Ok((d, t4))));
        assert((self.4, self.5, self.6, self.7, self.8, self.9, self.10, self.11, self.12, self.13, self.14, self.15, self.16, self.17, self.18, self.19, self.20, self.21, self.22, self.23).parse_requires(t4));
        let (e, t5) = match self.4.parse(t4) {
            Ok(r) => r,
            Err(e) => {
                assert((self.4, self.5, self.6, self.7, self.8, self.9, self.10, self.11, self.12, self.13, self.14, self.15, self.16, self.17, self.18, self.19, self.20, self.21, self.22, self.23).parse_ensures(t4, Err(e)));
                assert((self.3, self.4, self.5, self.6, self.7, self.8, self.9, self.10, self.11, self.12, self.13, self.14, self.15, self.16, self.17, self.18, self.19, self.20, self.21, self.22, self.23).parse_ensures(t3, Err(e)));
                assert((self.2, self.3, self.4, self.5, self.6, self.7, self.8, self.9, self.10, self.11, self.12, self.13, self.14, self.15, self.16, self.17, self.18, self.19, self.20, self.21, self.22, self.23).parse_ensures(t2, Err(e)));
                assert((self.1, self.2, self.3, self.4, self.5, self.6, self.7, self.8, self.9, self.10, self.11, self.12, self.13, self.14, self.15, self.16, self.17, self.18, self.19, self.20, self.21, self.22, self.23).parse_ensures(t1, Err(e)));
                return Err(e);
            },
        };
        assert(self.4.parse_ensures(t4, Ok((e, t5))));
        assert((self.5, self.6, self.7, self.8, self.9, self.10, self.11, self.12, self.13, self.14, self.15, self.16, self.17, self.18, self.19, self.20, self.21, self.22, self.23).parse_requires(t5));
        let (f, t6) = match self.5.parse(t5) {
            Ok(r) => r,
            Err(e) => {
                assert((self.5, self.6, self.7, self.8, self.9, self.10, self.11, self.12, self.13, self.14, self.15, self.16, self.17, self.18, self.19, self.20, self.21, self.22, self.23).parse_ensures(t5, Err(e)));
                assert((self.4, self.5, self.6, self.7, self.8, self.9, self.10, self.11, self.12, self.13, self.14, self.15, self.16, self.17, self.18, self.19, self.20, self.21, self.22, self.23).parse_ensures(t4, Err(e)));
                assert((self.3, self.4, self.5, self.6, self.7, self.8, self.9, self.10, self.11, self.12, self.13, self.14, self.15, self.16, self.17, self.18, self.19, self.20, self.21, self.22, self.23).parse_ensures(t3, Err(e)));
                assert((self.2, self.3, self.4, self.5, self.6, self.7, self.8, self.9, self.10, self.11, self.12, self.13, self.14, self.15, self.16, self.17, self.18, self.19, self.20, self.21, self.22, self.23).parse_ensures(t2, Err(e)));
                assert((self.1, self.2, self.3, self.4, self.5, self.6, self.7, self.8, self.9, self.10, self.11, self.12, self.13, self.14, self.15, self.16, self.17, self.18, self.19, self.20, self.21, self.22, self.23).parse_ensures(t1, Err(e)));
                return Err(e);
            },
        };
        assert(self.5.parse_ensures(t5, Ok((f, t6))));
        assert((self.6, self.7, self.8, self.9, self.10, self.11, self.12, self.13, self.14, self.15, self.16, self.17, self.18, self.19, self.20, self.21, self.22, self.23).parse_requires(t6));
        let (g, t7) = match self.6.parse(t6) {
            Ok(r) => r,
            Err(e) => {
                assert((self.6, self.7, self.8, self.9, self.10, self.11, self.12, self.13, self.14, self.15, self.16, self.17, self.18, self.19, self.20, self.21, self.22, self.23).parse_ensures(t6, Err(e)));
                assert((self.5, self.6, self.7, self.8, self.9, self.10, self.11, self.12, self.13, self.14, self.15, self.16, self.17, self.18, self.19, self.20, self.21, self.22, self.23).parse_ensures(t5, Err(e)));
                assert((self.4, self.5, self.6, self.7, self.8, self.9, self.10, self.11, self.12, self.13, self.14, self.15, self.16, self.17, self.18, self.19, self.20, self.21, self.22, self.23).parse_ensures(t4, Err(e)));
                assert((self.3, self.4, self.5, self.6, self.7, self.8, self.9, self.10, self.11, self.12, self.13, self.14, self.15, self.16, self.17, self.18, self.19, self.20, self.21, self.22, self.23).parse_ensures(t3, Err(e)));
                assert((self.2, self.3, self.4, self.5, self.6, self.7, self.8, self.9, self.10, self.11, self.12, self.13, self.14, self.15, self.16, self.17, self.18, self.19, self.20, self.21, self.22, self.23).parse_ensures(t2, Err(e)));
                assert((self.1, self.2, self.3, self.4, self.5, self.6, self.7, self.8, self.9, self.10, self.11, self.12, self.13, self.14, self.15, self.16, self.17, self.18, self.19, self.20, self.21, self.22, self.23).parse_ensures(t1, Err(e)));
                return Err(e);
            },
        };
        assert(self.6.parse_ensures(t6, Ok((g, t7))));
        assert((self.7, self.8, self.9, self.10, self.11, self.12, self.13, self.14, self.15, self.16, self.17, self.18, self.19, self.20, self.21, self.22, self.23).parse_requires(t7));
        let (h, t8) = match self.7.parse(t7) {
            Ok(r) => r,
            Err(e) => {
                assert((self.7, self.8, self.9, self.10, self.11, self.12, self.13, self.14, self.15, self.16, self.17, self.18, self.19, self.20, self.21, self.22, self.23).parse_ensures(t7, Err(e)));
                assert((self.6, self.7, self.8, self.9, self.10, self.11, self.12, self.13, self.14, self.15, self.16, self.17, self.18, self.19, self.20, self.21, self.22, self.23).parse_ensures(t6, Err(e)));
                assert((self.5, self.6, self.7, self.8, self.9, self.10, self.11, self.12, self.13, self.14, self.15, self.16, self.17, self.18, self.19, self.20, self.21, self.22, self.23).parse_ensures(t5, Err(e)));
                assert((self.4, self.5, self.6, self.7, self.8, self.9, self.10, self.11, self.12, self.13, self.14, self.15, self.16, self.17, self.18, self.19, self.20, self.21, self.22, self.23).parse_ensures(t4, Err(e)));
                assert((self.3, self.4, self.5, self.6, self.7, self.8, self.9, self.10, self.11, self.12, self.13, self.14, self.15, self.16, self.17, self.18, self.19, self.20, self.21, self.22, self.23).parse_ensures(t3, Err(e)));
                assert((self.2, self.3, self.4, self.5, self.6, self.7, self.8, self.9, self.10, self.11, self.12, self.13, self.14, self.15, self.16, self.17, self.18, self.19, self.20, self.21, self.22, self.23).parse_ensures(t2, Err(e)));
                assert((self.1, self.2, self.3, self.4, self.5, self.6, self.7, self.8, self.9, self.10, self.11, self.12, self.13, self.14, self.15, self.16, self.17, self.18, self.19, self.20, self.21, self.22, self.23).parse_ensures(t1, Err(e)));
                return Err(e);
            },
        };
        assert(self.7.parse_ensures(t7, Ok((h, t8))));
        assert((self.8, self.9, self.10, self.11, self.12, self.13, self.14, self.15, self.16, self.17, self.18, self.19, self.20, self.21, self.22, self.23).parse_requires(t8));
        let (i, t9) = match self.8.parse(t8) {
            Ok(r) => r,
            Err(e) => {
                assert((self.8, self.9, self.10, self.11, self.12, self.13, self.14, self.15, self.16, self.17, self.18, self.19, self.20, self.21, self.22, self.23).parse_ensures(t8, Err(e)));
                assert((self.7, self.8, self.9, self.10, self.11, self.12, self.13, self.14, self.15, self.16, self.17, self.18, self.19, self.20, self.21, self.22, self.23).parse_ensures(t7, Err(e)));
                assert((self.6, self.7, self.8, self.9, self.10, self.11, self.12, self.13, self.14, self.15, self.16, self.17, self.18, self.19, self.20, self.21, self.22, self.23).parse_ensures(t6, Err(e)));
                assert((self.5, self.6, self.7, self.8, self.9, self.10, self.11, self.12, self.13, self.14, self.15, self.16, self.17, self.18, self.19, self.20, self.21, self.22, self.23).parse_ensures(t5, Err(e)));
                assert((self.4, self.5, self.6, self.7, self.8, self.9, self.10, self.11, self.12, self.13, self.14, self.15, self.16, self.17, self.18, self.19, self.20, self.21, self.22, self.23).parse_ensures(t4, Err(e)));
                assert((self.3, self.4, self.5, self.6, self.7, self.8, self.9, self.10, self.11, self.12, self.13, self.14, self.15, self.16, self.17, self.18, self.19, self.20, self.21, self.22, self.23).parse_ensures(t3, Err(e)));
                assert((self.2, self.3, self.4, self.5, self.6, self.7, self.8, self.9, self.10, self.11, self.12, self.13, self.14, self.15, self.16, self.17, self.18, self.19, self.20, self.21, self.22, self.23).parse_ensures(t2, Err(e)));
                assert((self.1, self.2, self.3, self.4, self.5, self.6, self.7, self.8, self.9, self.10, self.11, self.12, self.13, self.14, self.15, self.16, self.17, self.18, self.19, self.20, self.21, self.22, self.23).parse_ensures(t1, Err(e)));
                return Err(e);
            },
        };
        assert(self.8.parse_ensures(t8, Ok((i, t9))));
        assert((self.9, self.10, self.11, self.12, self.13, self.14, self.15, self.16, self.17, self.18, self.19, self.20, self.21, self.22, self.23).parse_requires(t9));
        let (j, t10) = match self.9.parse(t9) {
            Ok(r) => r,
            Err(e) => {
                assert((self.9, self.10, self.11, self.12, self.13, self.14, self.15, self.16, self.17, self.18, self.19, self.20, self.21, self.22, self.23).parse_ensures(t9, Err(e)));
                assert((self.8, self.9, self.10, self.11, self.12, self.13, self.14, self.15, self.16, self.17, self.18, self.19, self.20, self.21, self.22, self.23).parse_ensures(t8, Err(e)));
                assert((self.7, self.8, self.9, self.10, self.11, self.12, self.13, self.14, self.15, self.16, self.17, self.18, self.19, self.20, self.21, self.22, self.23).parse_ensures(t7, Err(e)));
                assert((self.6, self.7, self.8, self.9, self.10, self.11, self.12, self.13, self.14, self.15, self.16, self.17, self.18, self.19, self.20, self.21, self.22, self.23).parse_ensures(t6, Err(e)));
                assert((self.5, self.6, self.7, self.8, self.9, self.10, self.11, self.12, self.13, self.14, self.15, self.16, self.17, self.18, self.19, self.20, self.21, self.22, self.23).parse_ensures(t5, Err(e)));
                assert((self.4, self.5, self.6, self.7, self.8, self.9, self.10, self.11, self.12, self.13, self.14, self.15, self.16, self.17, self.18, self.19, self.20, self.21, self.22, self.23).parse_ensures(t4, Err(e)));
                assert((self.3, self.4, self.5, self.6, self.7, self.8, self.9, self.10, self.11, self.12, self.13, self.14, self.15, self.16, self.17, self.18, self.19, self.20, self.21, self.22, self.23).parse_ensures(t3, Err(e)));
                assert((self.2, self.3, self.4, self.5, self.6, self.7, self.8, self.9, self.10, self.11, self.12, self.13, self.14, self.15, self.16, self.17, self.18, self.19, self.20, self.21, self.22, self.23).parse_ensures(t2, Err(e)));
                assert((self.1, self.2, self.3, self.4, self.5, self.6, self.7, self.8, self.9, self.10, self.11, self.12, self.13, self.14, self.15, self.16, self.17, self.18, self.19, self.20, self.21, self.22, self.23).parse_ensures(t1, Err(e)));
                return Err(e);
            },
        };
        assert(self.9.parse_ensures(t9, Ok((j, t10))));
        assert((self.10, self.11, self.12, self.13, self.14, self.15, self.16, self.17, self.18, self.19, self.20, self.21, self.22, self.23).parse_requires(t10));
        let (k, t11) = match self.10.parse(t10) {
            Ok(r) => r,
            Err(e) => {
                assert((self.10, self.11, self.12, self.13, self.14, self.15, self.16, self.17, self.18, self.19, self.20, self.21, self.22, self.23).parse_ensures(t10, Err(e)));
                assert((self.9, self.10, self.11, self.12, self.13, self.14, self.15, self.16, self.17, self.18, self.19, self.20, self.21, self.22, self.23).parse_ensures(t9, Err(e)));
                assert((self.8, self.9, self.10, self.11, self.12, self.13, self.14, self.15, self.16, self.17, self.18, self.19, self.20, self.21, self.22, self.23).parse_ensures(t8, Err(e)));
                assert((self.7, self.8, self.9, self.10, self.11, self.12, self.13, self.14, self.15, self.16, self.17, self.18, self.19, self.20, self.21, self.22, self.23).parse_ensures(t7, Err(e)));
                assert((self.6, self.7, self.8, self.9, self.10, self.11, self.12, self.13, self.14, self.15, self.16, self.17, self.18, self.19, self.20, self.21, self.22, self.23).parse_ensures(t6, Err(e)));
                assert((self.5, self.6, self.7, self.8, self.9, self.10, self.11, self.12, self.13, self.14, self.15, self.16, self.17, self.18, self.19, self.20, self.21, self.22, self.23).parse_ensures(t5, Err(e)));
                assert((self.4, self.5, self.6, self.7, self.8, self.9, self.10, self.11, self.12, self.13, self.14, self.15, self.16, self.17, self.18, self.19, self.20, self.21, self.22, self.23).parse_ensures(t4, Err(e)));
                assert((self.3, self.4, self.5, self.6, self.7, self.8, self.9, self.10, self.11, self.12, self.13, self.14, self.15, self.16, self.17, self.18, self.19, self.20, self.21, self.22, self.23).parse_ensures(t3, Err(e)));
                assert((self.2, self.3, self.4, self.5, self.6, self.7, self.8, self.9, self.10, self.11, self.12, self.13, self.14, self.15, self.16, self.17, self.18, self.19, self.20, self.21, self.22, self.23).parse_ensures(t2, Err(e)));
                assert((self.1, self.2, self.3, self.4, self.5, self.6, self.7, self.8, self.9, self.10, self.11, self.12, self.13, self.14, self.15, self.16, self.17, self.18, self.19, self.20, self.21, self.22, self.23).parse_ensures(t1, Err(e)));
                return Err(e);
            },
        };
        assert(self.10.parse_ensures(t10, Ok((k, t11))));
        assert((self.11, self.12, self.13, self.14, self.15, self.16, self.17, self.18, self.19, self.20, self.21, self.22, self.23).parse_requires(t11));
        let (l, t12) = match self.11.parse(t11) {
            Ok(r) => r,
            Err(e) => {
                assert((self.11, self.12, self.13, self.14, self.15, self.16, self.17, self.18, self.19, self.20, self.21, self.22, self.23).parse_ensures(t11, Err(e)));
                assert((self.10, self.11, self.12, self.13, self.14, self.15, self.16, self.17, self.18, self.19, self.20, self.21, self.22, self.23).parse_ensures(t10, Err(e)));
                assert((self.9, self.10, self.11, self.12, self.13, self.14, self.15, self.16, self.17, self.18, self.19, self.20, self.21, self.22, self.23).parse_ensures(t9, Err(e)));
                assert((self.8, self.9, self.10, self.11, self.12, self.13, self.14, self.15, self.16, self.17, self.18, self.19, self.20, self.21, self.22, self.23).parse_ensures(t8, Err(e)));
                assert((self.7, self.8, self.9, self.10, self.11, self.12, self.13, self.14, self.15, self.16, self.17, self.18, self.19, self.20, self.21, self.22, self.23).parse_ensures(t7, Err(e)));
                assert((self.6, self.7, self.8, self.9, self.10, self.11, self.12, self.13, self.14, self.15, self.16, self.17, self.18, self.19, self.20, self.21, self.22, self.23).parse_ensures(t6, Err(e)));
                assert((self.5, self.6, self.7, self.8, self.9, self.10, self.11, self.12, self.13, self.14, self.15, self.16, self.17, self.18, self.19, self.20, self.21, self.22, self.23).parse_ensures(t5, Err(e)));
                assert((self.4, self.5, self.6, self.7, self.8, self.9, self.10, self.11, self.12, self.13, self.14, self.15, self.16, self.17, self.18, self.19, self.20, self.21, self.22, self.23).parse_ensures(t4, Err(e)));
                assert((self.3, self.4, self.5, self.6, self.7, self.8, self.9, self.10, self.11, self.12, self.13, self.14, self.15, self.16, self.17, self.18, self.19, self.20, self.21, self.22, self.23).parse_ensures(t3, Err(e)));
                assert((self.2, self.3, self.4, self.5, self.6, self.7, self.8, self.9, self.10, self.11, self.12, self.13, self.14, self.15, self.16, self.17, self.18, self.19, self.20, self.21, self.22, self.23).parse_ensures(t2, Err(e)));
                assert((self.1, self.2, self.3, self.4, self.5, self.6, self.7, self.8, self.9, self.10, self.11, self.12, self.13, self.14, self.15, self.16, self.17, self.18, self.19, self.20, self.21, self.22, self.23).parse_ensures(t1, Err(e)));
                return Err(e);
            },
        };
        assert(self.11.parse_ensures(t11, Ok((l, t12))));
        assert((self.12, self.13, self.14, self.15, self.16, self.17, self.18, self.19, self.20, self.21, self.22, self.23).parse_requires(t12));
        let (m, t13) = match self.12.parse(t12) {
            Ok(r) => r,
            Err(e) => {
                assert((self.12, self.13, self.14, self.15, self.16, self.17, self.18, self.19, self.20, self.21, self.22, self.23).parse_ensures(t12, Err(e)));
                assert((self.11, self.12, self.13, self.14, self.15, self.16, self.17, self.18, self.19, self.20, self.21, self.22, self.23).parse_ensures(t11, Err(e)));
                assert((self.10, self.11, self.12, self.13, self.14, self.15, self.16, self.17, self.18, self.19, self.20, self.21, self.22, self.23).parse_ensures(t10, Err(e)));
                assert((self.9, self.10, self.11, self.12, self.13, self.14, self.15, self.16, self.17, self.18, self.19, self.20, self.21, self.22, self.23).parse_ensures(t9, Err(e)));
                assert((self.8, self.9, self.10, self.11, self.12, self.13, self.14, self.15, self.16, self.17, self.18, self.19, self.20, self.21, self.22, self.23).parse_ensures(t8, Err(e)));
                assert((self.7, self.8, self.9, self.10, self.11, self.12, self.13, self.14, self.15, self.16, self.17, self.18, self.19, self.20, self.21, self.22, self.23).parse_ensures(t7, Err(e)));
                assert((self.6, self.7, self.8, self.9, self.10, self.11, self.12, self.13, self.14, self.15, self.16, self.17, self.18, self.19, self.20, self.21, self.22, self.23).parse_ensures(t6, Err(e)));
                assert((self.5, self.6, self.7, self.8, self.9, self.10, self.11, self.12, self.13, self.14, self.15, self.16, self.17, self.18, self.19, self.20, self.21, self.22, self.23).parse_ensures(t5, Err(e)));
                assert((self.4, self.5, self.6, self.7, self.8, self.9, self.10, self.11, self.12, self.13, self.14, self.15, self.16, self.17, self.18, self.19, self.20, self.21, self.22, self.23).parse_ensures(t4, Err(e)));
                assert((self.3, self.4, self.5, self.6, self.7, self.8, self.9, self.10, self.11, self.12, self.13, self.14, self.15, self.16, self.17, self.18, self.19, self.20, self.21, self.22, self.23).parse_ensures(t3, Err(e)));
                assert((self.2, self.3, self.4, self.5, self.6, self.7, self.8, self.9, self.10, self.11, self.12, self.13, self.14, self.15, self.16, self.17, self.18, self.19, self.20, self.21, self.22, self.23).parse_ensures(t2, Err(e)));
                assert((self.1, self.2, self.3, self.4, self.5, self.6, self.7, self.8, self.9, self.10, self.11, self.12, self.13, self.14, self.15, self.16, self.17, self.18, self.19, self.20, self.21, self.22, self.23).parse_ensures(t1, Err(e)));
                return Err(e);
            },
        };
        assert(self.12.parse_ensures(t12, Ok((m, t13))));
        assert((self.13, self.14, self.15, self.16, self.17, self.18, self.19, self.20, self.21, self.22, self.23).parse_requires(t13));
        let (n, t14) = match self.13.parse(t13) {
            Ok(r) => r,
            Err(e) => {
                assert((self.13, self.14, self.15, self.16, self.17, self.18, self.19, self.20, self.21, self.22, self.23).parse_ensures(t13, Err(e)));
                assert((self.12, self.13, self.14, self.15, self.16, self.17, self.18, self.19, self.20, self.21, self.22, self.23).parse_ensures(t12, Err(e)));
                assert((self.11, self.12, self.13, self.14, self.15, self.16, self.17, self.18, self.19, self.20, self.21, self.22, self.23).parse_ensures(t11, Err(e)));
                assert((self.10, self.11, self.12, self.13, self.14, self.15, self.16, self.17, self.18, self.19, self.20, self.21, self.22, self.23).parse_ensures(t10, Err(e)));
                assert((self.9, self.10, self.11, self.12, self.13, self.14, self.15, self.16, self.17, self.18, self.19, self.20, self.21, self.22, self.23).parse_ensures(t9, Err(e)));
                assert((self.8, self.9, self.10, self.11, self.12, self.13, self.14, self.15, self.16, self.17, self.18, self.19, self.20, self.21, self.22, self.23).parse_ensures(t8, Err(e)));
                assert((self.7, self.8, self.9, self.10, self.11, self.12, self.13, self.14, self.15, self.16, self.17, self.18, self.19, self.20, self.21, self.22, self.23).parse_ensures(t7, Err(e)));
                assert((self.6, self.7, self.8, self.9, self.10, self.11, self.12, self.13, self.14, self.15, self.16, self.17, self.18, self.19, self.20, self.21, self.22, self.23).parse_ensures(t6, Err(e)));
                assert((self.5, self.6, self.7, self.8, self.9, self.10, self.11, self.12, self.13, self.14, self.15, self.16, self.17, self.18, self.19, self.20, self.21, self.22, self.23).parse_ensures(t5, Err(e)));
                assert((self.4, self.5, self.6, self.7, self.8, self.9, self.10, self.11, self.12, self.13, self.14, self.15, self.16, self.17, self.18, self.19, self.20, self.21, self.22, self.23).parse_ensures(t4, Err(e)));
                assert((self.3, self.4, self.5, self.6, self.7, self.8, self.9, self.10, self.11, self.12, self.13, self.14, self.15, self.16, self.17, self.18, self.19, self.20, self.21, self.22, self.23).parse_ensures(t3, Err(e)));
                assert((self.2, self.3, self.4, self.5, self.6, self.7, self.8, self.9, self.10, self.11, self.12, self.13, self.14, self.15, self.16, self.17, self.18, self.19, self.20, self.21, self.22, self.23).parse_ensures(t2, Err(e)));
                assert((self.1, self.2, self.3, self.4, self.5, self.6, self.7, self.8, self.9, self.10, self.11, self.12, self.13, self.14, self.15, self.16, self.17, self.18, self.19, self.20, self.21, self.22, self.23).parse_ensures(t1, Err(e)));
                return Err(e);
            },
        };
        assert(self.13.parse_ensures(t13, Ok((n, t14))));
        assert((self.14, self.15, self.16, self.17, self.18, self.19, self.20, self.21, self.22, self.23).parse_requires(t14));
        let (o, t15) = match self.14.parse(t14) {
            Ok(r) => r,
            Err(e) => {
                assert((self.14, self.15, self.16, self.17, self.18, self.19, self.20, self.21, self.22, self.23).parse_ensures(t14, Err(e)));
                assert((self.13, self.14, self.15, self.16, self.17, self.18, self.19, self.20, self.21, self.22, self.23).parse_ensures(t13, Err(e)));
                assert((self.12, self.13, self.14, self.15, self.16, self.17, self.18, self.19, self.20, self.21, self.22, self.23).parse_ensures(t12, Err(e)));
                assert((self.11, self.12, self.13, self.14, self.15, self.16, self.17, self.18, self.19, self.20, self.21, self.22, self.23).parse_ensures(t11, Err(e)));
                assert((self.10, self.11, self.12, self.13, self.14, self.15, self.16, self.17, self.18, self.19, self.20, self.21, self.22, self.23).parse_ensures(t10, Err(e)));
                assert((self.9, self.10, self.11, self.12, self.13, self.14, self.15, self.16, self.17, self.18, self.19, self.20, self.21, self.22, self.23).parse_ensures(t9, Err(e)));
                assert((self.8, self.9, self.10, self.11, self.12, self.13, self.14, self.15, self.16, self.17, self.18, self.19, self.20, self.21, self.22, self.23).parse_ensures(t8, Err(e)));
                assert((self.7, self.8, self.9, self.10, self.11, self.12, self.13, self.14, self.15, self.16, self.17, self.18, self.19, self.20, self.21, self.22, self.23).parse_ensures(t7, Err(e)));
                assert((self.6, self.7, self.8, self.9, self.10, self.11, self.12, self.13, self.14, self.15, self.16, self.17, self.18, self.19, self.20, self.21, self.22, self.23).parse_ensures(t6, Err(e)));
                assert((self.5, self.6, self.7, self.8, self.9, self.10, self.11, self.12, self.13, self.14, self.15, self.16, self.17, self.18, self.19, self.20, self.21, self.22, self.23).parse_ensures(t5, Err(e)));
                assert((self.4, self.5, self.6, self.7, self.8, self.9, self.10, self.11, self.12, self.13, self.14, self.15, self.16, self.17, self.18, self.19, self.20, self.21, self.22, self.23).parse_ensures(t4, Err(e)));
                assert((self.3, self.4, self.5, self.6, self.7, self.8, self.9, self.10, self.11, self.12, self.13, self.14, self.15, self.16, self.17, self.18, self.19, self.20, self.21, self.22, self.23).parse_ensures(t3, Err(e)));
                assert((self.2, self.3, self.4, self.5, self.6, self.7, self.8, self.9, self.10, self.11, self.12, self.13, self.14, self.15, self.16, self.17, self.18, self.19, self.20, self.21, self.22, self.23).parse_ensures(t2, Err(e)));
                assert((self.1, self.2, self.3, self.4, self.5, self.6, self.7, self.8, self.9, self.10, self.11, self.12, self.13, self.14, self.15, self.16, self.17, self.18, self.19, self.20, self.21, self.22, self.23).parse_ensures(t1, Err(e)));
                return Err(e);
            },
        };
        assert(self.14.parse_ensures(t14, Ok((o, t15))));
        assert((self.15, self.16, self.17, self.18, self.19, self.20, self.21, self.22, self.23).parse_requires(t15));
        let (p, t16) = match self.15.parse(t15) {
            Ok(r) => r,
            Err(e) => {
                assert((self.15, self.16, self.17, self.18, self.19, self.20, self.21, self.22, self.23).parse_ensures(t15, Err(e)));
                assert((self.14, self.15, self.16, self.17, self.18, self.19, self.20, self.21, self.22, self.23).parse_ensures(t14, Err(e)));
                assert((self.13, self.14, self.15, self.16, self.17, self.18, self.19, self.20, self.21, self.22, self.23).parse_ensures(t13, Err(e)));
                assert((self.12, self.13, self.14, self.15, self.16, self.17, self.18, self.19, self.20, self.21, self.22, self.23).parse_ensures(t12, Err(e)));
                assert((self.11, self.12, self.13, self.14, self.15, self.16, self.17, self.18, self.19, self.20, self.21, self.22, self.23).parse_ensures(t11, Err(e)));
                assert((self.10, self.11, self.12, self.13, self.14, self.15, self.16, self.17, self.18, self.19, self.20, self.21, self.22, self.23).parse_ensures(t10, Err(e)));
                assert((self.9, self.10, self.11, self.12, self.13, self.14, self.15, self.16, self.17, self.18, self.19, self.20, self.21, self.22, self.23).parse_ensures(t9, Err(e)));
                assert((self.8, self.9, self.10, self.11, self.12, self.13, self.14, self.15, self.16, self.17, self.18, self.19, self.20, self.21, self.22, self.23).parse_ensures(t8, Err(e)));
                assert((self.7, self.8, self.9, self.10, self.11, self.12, self.13, self.14, self.15, self.16, self.17, self.18, self.19, self.20, self.21, self.22, self.23).parse_ensures(t7, Err(e)));
                assert((self.6, self.7, self.8, self.9, self.10, self.11, self.12, self.13, self.14, self.15, self.16, self.17, self.18, self.19, self.20, self.21, self.22, self.23).parse_ensures(t6, Err(e)));
                assert((self.5, self.6, self.7, self.8, self.9, self.10, self.11, self.12, self.13, self.14, self.15, self.16, self.17, self.18, self.19, self.20, self.21, self.22, self.23).parse_ensures(t5, Err(e)));
                assert((self.4, self.5, self.6, self.7, self.8, self.9, self.10, self.11, self.12, self.13, self.14, self.15, self.16, self.17, self.18, self.19, self.20, self.21, self.22, self.23).parse_ensures(t4, Err(e)));
                assert((self.3, self.4, self.5, self.6, self.7, self.8, self.9, self.10, self.11, self.12, self.13, self.14, self.15, self.16, self.17, self.18, self.19, self.20, self.21, self.22, self.23).parse_ensures(t3, Err(e)));
                assert((self.2, self.3, self.4, self.5, self.6, self.7, self.8, self.9, self.10, self.11, self.12, self.13, self.14, self.15, self.16, self.17, self.18, self.19, self.20, self.21, self.22, self.23).parse_ensures(t2, Err(e)));
                assert((self.1, self.2, self.3, self.4, self.5, self.6, self.7, self.8, self.9, self.10, self.11, self.12, self.13, self.14, self.15, self.16, self.17, self.18, self.19, self.20, self.21, self.22, self.23).parse_ensures(t1, Err(e)));
                return Err(e);
            },
        };
        assert(self.15.parse_ensures(t15, Ok((p, t16))));
        assert((self.16, self.17, self.18, self.19, self.20, self.21, self.22, self.23).parse_requires(t16));
        let (q, t17) = match self.16.parse(t16) {
            Ok(r) => r,
            Err(e) => {
                assert((self.16, self.17, self.18, self.19, self.20, self.21, self.22, self.23).parse_ensures(t16, Err(e)));
                assert((self.15, self.16, self.17, self.18, self.19, self.20, self.21, self.22, self.23).parse_ensures(t15, Err(e)));
                assert((self.14, self.15, self.16, self.17, self.18, self.19, self.20, self.21, self.22, self.23).parse_ensures(t14, Err(e)));
                assert((self.13, self.14, self.15, self.16, self.17, self.18, self.19, self.20, self.21, self.22, self.23).parse_ensures(t13, Err(e)));
                assert((self.12, self.13, self.14, self.15, self.16, self.17, self.18, self.19, self.20, self.21, self.22, self.23).parse_ensures(t12, Err(e)));
                assert((self.11, self.12, self.13, self.14, self.15, self.16, self.17, self.18, self.19, self.20, self.21, self.22, self.23).parse_ensures(t11, Err(e)));
                assert((self.10, self.11, self.12, self.13, self.14, self.15, self.16, self.17, self.18, self.19, self.20, self.21, self.22, self.23).parse_ensures(t10, Err(e)));
                assert((self.9, self.10, self.11, self.12, self.13, self.14, self.15, self.16, self.17, self.18, self.19, self.20, self.21, self.22, self.23).parse_ensures(t9, Err(e)));
                assert((self.8, self.9, self.10, self.11, self.12, self.13, self.14, self.15, self.16, self.17, self.18, self.19, self.20, self.21, self.22, self.23).parse_ensures(t8, Err(e)));
                assert((self.7, self.8, self.9, self.10, self.11, self.12, self.13, self.14, self.15, self.16, self.17, self.18, self.19, self.20, self.21, self.22, self.23).parse_ensures(t7, Err(e)));
                assert((self.6, self.7, self.8, self.9, self.10, self.11, self.12, self.13, self.14, self.15, self.16, self.17, self.18, self.19, self.20, self.21, self.22, self.23).parse_ensures(t6, Err(e)));
                assert((self.5, self.6, self.7, self.8, self.9, self.10, self.11, self.12, self.13, self.14, self.15, self.16, self.17, self.18, self.19, self.20, self.21, self.22, self.23).parse_ensures(t5, Err(e)));
                assert((self.4, self.5, self.6, self.7, self.8, self.9, self.10, self.11, self.12, self.13, self.14, self.15, self.16, self.17, self.18, self.19, self.20, self.21, self.22, self.23).parse_ensures(t4, Err(e)));
                assert((self.3, self.4, self.5, self.6, self.7, self.8, self.9, self.10, self.11, self.12, self.13, self.14, self.15, self.16, self.17, self.18, self.19, self.20, self.21, self.22, self.23).parse_ensures(t3, Err(e)));
                assert((self.2, self.3, self.4, self.5, self.6, self.7, self.8, self.9, self.10, self.11, self.12, self.13, self.14, self.15, self.16, self.17, self.18, self.19, self.20, self.21, self.22, self.23).parse_ensures(t2, Err(e)));
                assert((self.1, self.2, self.3, self.4, self.5, self.6, self.7, self.8, self.9, self.10, self.11, self.12, self.13, self.14, self.15, self.16, self.17, self.18, self.19, self.20, self.21, self.22, self.23).parse_ensures(t1, Err(e)));
                return Err(e);
            },
        };
        assert(self.16.parse_ensures(t16, Ok((q, t17))));
        assert((self.17, self.18, self.19, self.20, self.21, self.22, self.23).parse_requires(t17));
        let (r, t18) = match self.17.parse(t17) {
            Ok(r) => r,
            Err(e) => {
                assert((self.17, self.18, self.19, self.20, self.21, self.22, self.23).parse_ensures(t17, Err(e)));
                assert((self.16, self.17, self.18, self.19, self.20, self.21, self.22, self.23).parse_ensures(t16, Err(e)));
                assert((self.15, self.16, self.17, self.18, self.19, self.20, self.21, self.22, self.23).parse_ensures(t15, Err(e)));
                assert((self.14, self.15, self.16, self.17, self.18, self.19, self.20, self.21, self.22, self.23).parse_ensures(t14, Err(e)));
                assert((self.13, self.14, self.15, self.16, self.17, self.18, self.19, self.20, self.21, self.22, self.23).parse_ensures(t13, Err(e)));
                assert((self.12, self.13, self.14, self.15, self.16, self.17, self.18, self.19, self.20, self.21, self.22, self.23).parse_ensures(t12, Err(e)));
                assert((self.11, self.12, self.13, self.14, self.15, self.16, self.17, self.18, self.19, self.20, self.21, self.22, self.23).parse_ensures(t11, Err(e)));
                assert((self.10, self.11, self.12, self.13, self.14, self.15, self.16, self.17, self.18, self.19, self.20, self.21, self.22, self.23).parse_ensures(t10, Err(e)));
                assert((self.9, self.10, self.11, self.12, self.13, self.14, self.15, self.16, self.17, self.18, self.19, self.20, self.21, self.22, self.23).parse_ensures(t9, Err(e)));
                assert((self.8, self.9, self.10, self.11, self.12, self.13, self.14, self.15, self.16, self.17, self.18, self.19, self.20, self.21, self.22, self.23).parse_ensures(t8, Err(e)));
                assert((self.7, self.8, self.9, self.10, self.11, self.12, self.13, self.14, self.15, self.16, self.17, self.18, self.19, self.20, self.21, self.22, self.23).parse_ensures(t7, Err(e)));
                assert((self.6, self.7, self.8, self.9, self.10, self.11, self.12, self.13, self.14, self.15, self.16, self.17, self.18, self.19, self.20, self.21, self.22, self.23).parse_ensures(t6, Err(e)));
                assert((self.5, self.6, self.7, self.8, self.9, self.10, self.11, self.12, self.13, self.14, self.15, self.16, self.17, self.18, self.19, self.20, self.21, self.22, self.23).parse_ensures(t5, Err(e)));
                assert((self.4, self.5, self.6, self.7, self.8, self.9, self.10, self.11, self.12, self.13, self.14, self.15, self.16, self.17, self.18, self.19, self.20, self.21, self.22, self.23).parse_ensures(t4, Err(e)));
                assert((self.3, self.4, self.5, self.6, self.7, self.8, self.9, self.10, self.11, self.12, self.13, self.14, self.15, self.16, self.17, self.18, self.19, self.20, self.21, self.22, self.23).parse_ensures(t3, Err(e)));
                assert((self.2, self.3, self.4, self.5, self.6, self.7, self.8, self.9, self.10, self.11, self.12, self.13, self.14, self.15, self.16, self.17, self.18, self.19, self.20, self.21, self.22, self.23).parse_ensures(t2, Err(e)));
                assert((self.1, self.2, self.3, self.4, self.5, self.6, self.7, self.8, self.9, self.10, self.11, self.12, self.13, self.14, self.15, self.16, self.17, self.18, self.19, self.20, self.21, self.22, self.23).parse_ensures(t1, Err(e)));
                return Err(e);
            },
        };
        assert(self.17.parse_ensures(t17, Ok((r, t18))));
        assert((self.18, self.19, self.20, self.21, self.22, self.23).parse_requires(t18));
        let (s, t19) = match self.18.parse(t18) {
            Ok(r) => r,
            Err(e) => {
                assert((self.18, self.19, self.20, self.21, self.22, self.23).parse_ensures(t18, Err(e)));
                assert((self.17, self.18, self.19, self.20, self.21, self.22, self.23).parse_ensures(t17, Err(e)));
                assert((self.16, self.17, self.18, self.19, self.20, self.21, self.22, self.23).parse_ensures(t16, Err(e)));
                assert((self.15, self.16, self.17, self.18, self.19, self.20, self.21, self.22, self.23).parse_ensures(t15, Err(e)));
                assert((self.14, self.15, self.16, self.17, self.18, self.19, self.20, self.21, self.22, self.23).parse_ensures(t14, Err(e)));
                assert((self.13, self.14, self.15, self.16, self.17, self.18, self.19, self.20, self.21, self.22, self.23).parse_ensures(t13, Err(e)));
                assert((self.12, self.13, self.14, self.15, self.16, self.17, self.18, self.19, self.20, self.21, self.22, self.23).parse_ensures(t12, Err(e)));
                assert((self.11, self.12, self.13, self.14, self.15, self.16, self.17, self.18, self.19, self.20, self.21, self.22, self.23).parse_ensures(t11, Err(e)));
                assert((self.10, self.11, self.12, self.13, self.14, self.15, self.16, self.17, self.18, self.19, self.20, self.21, self.22, self.23).parse_ensures(t10, Err(e)));
                assert((self.9, self.10, self.11, self.12, self.13, self.14, self.15, self.16, self.17, self.18, self.19, self.20, self.21, self.22, self.23).parse_ensures(t9, Err(e)));
                assert((self.8, self.9, self.10, self.11, self.12, self.13, self.14, self.15, self.16, self.17, self.18, self.19, self.20, self.21, self.22, self.23).parse_ensures(t8, Err(e)));
                assert((self.7, self.8, self.9, self.10, self.11, self.12, self.13, self.14, self.15, self.16, self.17, self.18, self.19, self.20, self.21, self.22, self.23).parse_ensures(t7, Err(e)));
                assert((self.6, self.7, self.8, self.9, self.10, self.11, self.12, self.13, self.14, self.15, self.16, self.17, self.18, self.19, self.20, self.21, self.22, self.23).parse_ensures(t6, Err(e)));
                assert((self.5, self.6, self.7, self.8, self.9, self.10, self.11, self.12, self.13, self.14, self.15, self.16, self.17, self.18, self.19, self.20, self.21, self.22, self.23).parse_ensures(t5, Err(e)));
                assert((self.4, self.5, self.6, self.7, self.8, self.9, self.10, self.11, self.12, self.13, self.14, self.15, self.16, self.17, self.18, self.19, self.20, self.21, self.22, self.23).parse_ensures(t4, Err(e)));
                assert((self.3, self.4, self.5, self.6, self.7, self.8, self.9, self.10, self.11, self.12, self.13, self.14, self.15, self.16, self.17, self.18, self.19, self.20, self.21, self.22, self.23).parse_ensures(t3, Err(e)));
                assert((self.2, self.3, self.4, self.5, self.6, self.7, self.8, self.9, self.10, self.11, self.12, self.13, self.14, self.15, self.16, self.17, self.18, self.19, self.20, self.21, self.22, self.23).parse_ensures(t2, Err(e)));
                assert((self.1, self.2, self.3, self.4, self.5, self.6, self.7, self.8, self.9, self.10, self.11, self.12, self.13, self.14, self.15, self.16, self.17, self.18, self.19, self.20, self.21, self.22, self.23).parse_ensures(t1, Err(e)));
                return Err(e);
            },
        };
        assert(self.18.parse_ensures(t18, Ok((s, t19))));
        assert((self.19, self.20, self.21, self.22, self.23).parse_requires(t19));
        let (t, t20) = match self.19.parse(t19) {
            Ok(r) => r,
            Err(e) => {
                assert((self.19, self.20, self.21, self.22, self.23).parse_ensures(t19, Err(e)));
                assert((self.18, self.19, self.20, self.21, self.22, self.23).parse_ensures(t18, Err(e)));
                assert((self.17, self.18, self.19, self.20, self.21, self.22, self.23).parse_ensures(t17, Err(e)));
                assert((self.16, self.17, self.18, self.19, self.20, self.21, self.22, self.23).parse_ensures(t16, Err(e)));
                assert((self.15, self.16, self.17, self.18, self.19, self.20, self.21, self.22, self.23).parse_ensures(t15, Err(e)));
                assert((self.14, self.15, self.16, self.17, self.18, self.19, self.20, self.21, self.22, self.23).parse_ensures(t14, Err(e)));
                assert((self.13, self.14, self.15, self.16, self.17, self.18, self.19, self.20, self.21, self.22, self.23).parse_ensures(t13, Err(e)));
                assert((self.12, self.13, self.14, self.15, self.16, self.17, self.18, self.19, self.20, self.21, self.22, self.23).parse_ensures(t12, Err(e)));
                assert((self.11, self.12, self.13, self.14, self.15, self.16, self.17, self.18, self.19, self.20, self.21, self.22, self.23).parse_ensures(t11, Err(e)));
                assert((self.10, self.11, self.12, self.13, self.14, self.15, self.16, self.17, self.18, self.19, self.20, self.21, self.22, self.23).parse_ensures(t10, Err(e)));
                assert((self.9, self.10, self.11, self.12, self.13, self.14, self.15, self.16, self.17, self.18, self.19, self.20, self.21, self.22, self.23).parse_ensures(t9, Err(e)));
                assert((self.8, self.9, self.10, self.11, self.12, self.13, self.14, self.15, self.16, self.17, self.18, self.19, self.20, self.21, self.22, self.23).parse_ensures(t8, Err(e)));
                assert((self.7, self.8, self.9, self.10, self.11, self.12, self.13, self.14, self.15, self.16, self.17, self.18, self.19, self.20, self.21, self.22, self.23).parse_ensures(t7, Err(e)));
                assert((self.6, self.7, self.8, self.9, self.10, self.11, self.12, self.13, self.14, self.15, self.16, self.17, self.18, self.19, self.20, self.21, self.22, self.23).parse_ensures(t6, Err(e)));
                assert((self.5, self.6, self.7, self.8, self.9, self.10, self.11, self.12, self.13, self.14, self.15, self.16, self.17, self.18, self.19, self.20, self.21, self.22, self.23).parse_ensures(t5, Err(e)));
                assert((self.4, self.5, self.6, self.7, self.8, self.9, self.10, self.11, self.12, self.13, self.14, self.15, self.16, self.17, self.18, self.19, self.20, self.21, self.22, self.23).parse_ensures(t4, Err(e)));
                assert((self.3, self.4, self.5, self.6, self.7, self.8, self.9, self.10, self.11, self.12, self.13, self.14, self.15, self.16, self.17, self.18, self.19, self.20, self.21, self.22, self.23).parse_ensures(t3, Err(e)));
                assert((self.2, self.3, self.4, self.5, self.6, self.7, self.8, self.9, self.10, self.11, self.12, self.13, self.14, self.15, self.16, self.17, self.18, self.19, self.20, self.21, self.22, self.23).parse_ensures(t2, Err(e)));
                assert((self.1, self.2, self.3, self.4, self.5, self.6, self.7, self.8, self.9, self.10, self.11, self.12, self.13, self.14, self.15, self.16, self.17, self.18, self.19, self.20, self.21, self.22, self.23).parse_ensures(t1, Err(e)));
                return Err(e);
            },
        };
        assert(self.19.parse_ensures(t19, Ok((t, t20))));
        assert((self.20, self.21, self.22, self.23).parse_requires(t20));
        let (u, t21) = match self.20.parse(t20) {
            Ok(r) => r,
            Err(e) => {
                assert((self.20, self.21, self.22, self.23).parse_ensures(t20, Err(e)));
                assert((self.19, self.20, self.21, self.22, self.23).parse_ensures(t19, Err(e)));
                assert((self.18, self.19, self.20, self.21, self.22, self.23).parse_ensures(t18, Err(e)));
                assert((self.17, self.18, self.19, self.20, self.21, self.22, self.23).parse_ensures(t17, Err(e)));
                assert((self.16, self.17, self.18, self.19, self.20, self.21, self.22, self.23).parse_ensures(t16, Err(e)));
                assert((self.15, self.16, self.17, self.18, self.19, self.20, self.21, self.22, self.23).parse_ensures(t15, Err(e)));
                assert((self.14, self.15, self.16, self.17, self.18, self.19, self.20, self.21, self.22, self.23).parse_ensures(t14, Err(e)));
                assert((self.13, self.14, self.15, self.16, self.17, self.18, self.19, self.20, self.21, self.22, self.23).parse_ensures(t13, Err(e)));
                assert((self.12, self.13, self.14, self.15, self.16, self.17, self.18, self.19, self.20, self.21, self.22, self.23).parse_ensures(t12, Err(e)));
                assert((self.11, self.12, self.13, self.14, self.15, self.16, self.17, self.18, self.19, self.20, self.21, self.22, self.23).parse_ensures(t11, Err(e)));
                assert((self.10, self.11, self.12, self.13, self.14, self.15, self.16, self.17, self.18, self.19, self.20, self.21, self.22, self.23).parse_ensures(t10, Err(e)));
                assert((self.9, self.10, self.11, self.12, self.13, self.14, self.15, self.16, self.17, self.18, self.19, self.20, self.21, self.22, self.23).parse_ensures(t9, Err(e)));
                assert((self.8, self.9, self.10, self.11, self.12, self.13, self.14, self.15, self.16, self.17, self.18, self.19, self.20, self.21, self.22, self.23).parse_ensures(t8, Err(e)));
                assert((self.7, self.8, self.9, self.10, self.11, self.12, self.13, self.14, self.15, self.16, self.17, self.18, self.19, self.20, self.21, self.22, self.23).parse_ensures(t7, Err(e)));
                assert((self.6, self.7, self.8, self.9, self.10, self.11, self.12, self.13, self.14, self.15, self.16, self.17, self.18, self.19, self.20, self.21, self.22, self.23).parse_ensures(t6, Err(e)));
                assert((self.5, self.6, self.7, self.8, self.9, self.10, self.11, self.12, self.13, self.14, self.15, self.16, self.17, self.18, self.19, self.20, self.21, self.22, self.23).parse_ensures(t5, Err(e)));
                assert((self.4, self.5, self.6, self.7, self.8, self.9, self.10, self.11, self.12, self.13, self.14, self.15, self.16, self.17, self.18, self.19, self.20, self.21, self.22, self.23).parse_ensures(t4, Err(e)));
                assert((self.3, self.4, self.5, self.6, self.7, self.8, self.9, self.10, self.11, self.12, self.13, self.14, self.15, self.16, self.17, self.18, self.19, self.20, self.21, self.22, self.23).parse_ensures(t3, Err(e)));
                assert((self.2, self.3, self.4, self.5, self.6, self.7, self.8, self.9, self.10, self.11, self.12, self.13, self.14, self.15, self.16, self.17, self.18, self.19, self.20, self.21, self.22, self.23).parse_ensures(t2, Err(e)));
                assert((self.1, self.2, self.3, self.4, self.5, self.6, self.7, self.8, self.9, self.10, self.11, self.12, self.13, self.14, self.15, self.16, self.17, self.18, self.19, self.20, self.21, self.22, self.23).parse_ensures(t1, Err(e)));
                return Err(e);
            },
        };
        assert(self.20.parse_ensures(t20, Ok((u, t21))));
        assert((self.21, self.22, self.23).parse_requires(t21));
        let (v, t22) = match self.21.parse(t21) {
            Ok(r) => r,
            Err(e) => {
                assert((self.21, self.22, self.23).parse_ensures(t21, Err(e)));
                assert((self.20, self.21, self.22, self.23).parse_ensures(t20, Err(e)));
                assert((self.19, self.20, self.21, self.22, self.23).parse_ensures(t19, Err(e)));
                assert((self.18, self.19, self.20, self.21, self.22, self.23).parse_ensures(t18, Err(e)));
                assert((self.17, self.18, self.19, self.20, self.21, self.22, self.23).parse_ensures(t17, Err(e)));
                assert((self.16, self.17, self.18, self.19, self.20, self.21, self.22, self.23).parse_ensures(t16, Err(e)));
                assert((self.15, self.16, self.17, self.18, self.19, self.20, self.21, self.22, self.23).parse_ensures(t15, Err(e)));
                assert((self.14, self.15, self.16, self.17, self.18, self.19, self.20, self.21, self.22, self.23).parse_ensures(t14, Err(e)));
                assert((self.13, self.14, self.15, self.16, self.17, self.18, self.19, self.20, self.21, self.22, self.23).parse_ensures(t13, Err(e)));
                assert((self.12, self.13, self.14, self.15, self.16, self.17, self.18, self.19, self.20, self.21, self.22, self.23).parse_ensures(t12, Err(e)));
                assert((self.11, self.12, self.13, self.14, self.15, self.16, self.17, self.18, self.19, self.20, self.21, self.22, self.23).parse_ensures(t11, Err(e)));
                assert((self.10, self.11, self.12, self.13, self.14, self.15, self.16, self.17, self.18, self.19, self.20, self.21, self.22, self.23).parse_ensures(t10, Err(e)));
                assert((self.9, self.10, self.11, self.12, self.13, self.14, self.15, self.16, self.17, self.18, self.19, self.20, self.21, self.22, self.23).parse_ensures(t9, Err(e)));
                assert((self.8, self.9, self.10, self.11, self.12, self.13, self.14, self.15, self.16, self.17, self.18, self.19, self.20, self.21, self.22, self.23).parse_ensures(t8, Err(e)));
                assert((self.7, self.8, self.9, self.10, self.11, self.12, self.13, self.14, self.15, self.16, self.17, self.18, self.19, self.20, self.21, self.22, self.23).parse_ensures(t7, Err(e)));
                assert((self.6, self.7, self.8, self.9, self.10, self.11, self.12, self.13, self.14, self.15, self.16, self.17, self.18, self.19, self.20, self.21, self.22, self.23).parse_ensures(t6, Err(e)));
                assert((self.5, self.6, self.7, self.8, self.9, self.10, self.11, self.12, self.13, self.14, self.15, self.16, self.17, self.18, self.19, self.20, self.21, self.22, self.23).parse_ensures(t5, Err(e)));
                assert((self.4, self.5, self.6, self.7, self.8, self.9, self.10, self.11, self.12, self.13, self.14, self.15, self.16, self.17, self.18, self.19, self.20, self.21, self.22, self.23).parse_ensures(t4, Err(e)));
                assert((self.3, self.4, self.5, self.6, self.7, self.8, self.9, self.10, self.11, self.12, self.13, self.14, self.15, self.16, self.17, self.18, self.19, self.20, self.21, self.22, self.23).parse_ensures(t3, Err(e)));
                assert((self.2, self.3, self.4, self.5, self.6, self.7, self.8, self.9, self.10, self.11, self.12, self.13, self.14, self.15, self.16, self.17, self.18, self.19, self.20, self.21, self.22, self.23).parse_ensures(t2, Err(e)));
                assert((self.1, self.2, self.3, self.4, self.5, self.6, self.7, self.8, self.9, self.10, self.11, self.12, self.13, self.14, self.15, self.16, self.17, self.18, self.19, self.20, self.21, self.22, self.23).parse_ensures(t1, Err(e)));
                return Err(e);
            },
        };
        assert(self.21.parse_ensures(t21, Ok((v, t22))));
        assert((self.22, self.23).parse_requires(t22));
        let (w, t23) = match self.22.parse(t22) {
            Ok(r) => r,
            Err(e) => {
                assert((self.22, self.23).parse_ensures(t22, Err(e)));
                assert((self.21, self.22, self.23).parse_ensures(t21, Err(e)));
                assert((self.20, self.21, self.22, self.23).parse_ensures(t20, Err(e)));
                assert((self.19, self.20, self.21, self.22, self.23).parse_ensures(t19, Err(e)));
                assert((self.18, self.19, self.20, self.21, self.22, self.23).parse_ensures(t18, Err(e)));
                assert((self.17, self.18, self.19, self.20, self.21, self.22, self.23).parse_ensures(t17, Err(e)));
                assert((self.16, self.17, self.18, self.19, self.20, self.21, self.22, self.23).parse_ensures(t16, Err(e)));
                assert((self.15, self.16, self.17, self.18, self.19, self.20, self.21, self.22, self.23).parse_ensures(t15, Err(e)));
                assert((self.14, self.15, self.16, self.17, self.18, self.19, self.20, self.21, self.22, self.23).parse_ensures(t14, Err(e)));
                assert((self.13, self.14, self.15, self.16, self.17, self.18, self.19, self.20, self.21, self.22, self.23).parse_ensures(t13, Err(e)));
                assert((self.12, self.13, self.14, self.15, self.16, self.17, self.18, self.19, self.20, self.21, self.22, self.23).parse_ensures(t12, Err(e)));
                assert((self.11, self.12, self.13, self.14, self.15, self.16, self.17, self.18, self.19, self.20, self.21, self.22, self.23).parse_ensures(t11, Err(e)));
                assert((self.10, self.11, self.12, self.13, self.14, self.15, self.16, self.17, self.18, self.19, self.20, self.21, self.22, self.23).parse_ensures(t10, Err(e)));
                assert((self.9, self.10, self.11, self.12, self.13, self.14, self.15, self.16, self.17, self.18, self.19, self.20, self.21, self.22, self.23).parse_ensures(t9, Err(e)));
                assert((self.8, self.9, self.10, self.11, self.12, self.13, self.14, self.15, self.16, self.17, self.18, self.19, self.20, self.21, self.22, self.23).parse_ensures(t8, Err(e)));
                assert((self.7, self.8, self.9, self.10, self.11, self.12, self.13, self.14, self.15, self.16, self.17, self.18, self.19, self.20, self.21, self.22, self.23).parse_ensures(t7, Err(e)));
                assert((self.6, self.7, self.8, self.9, self.10, self.11, self.12, self.13, self.14, self.15, self.16, self.17, self.18, self.19, self.20, self.21, self.22, self.23).parse_ensures(t6, Err(e)));
                assert((self.5, self.6, self.7, self.8, self.9, self.10, self.11, self.12, self.13, self.14, self.15, self.16, self.17, self.18, self.19, self.20, self.21, self.22, self.23).parse_ensures(t5, Err(e)));
                assert((self.4, self.5, self.6, self.7, self.8, self.9, self.10, self.11, self.12, self.13, self.14, self.15, self.16, self.17, self.18, self.19, self.20, self.21, self.22, self.23).parse_ensures(t4, Err(e)));
                assert((self.3, self.4, self.5, self.6, self.7, self.8, self.9, self.10, self.11, self.12, self.13, self.14, self.15, self.16, self.17, self.18, self.19, self.20, self.21, self.22, self.23).parse_ensures(t3, Err(e)));
                assert((self.2, self.3, self.4, self.5, self.6, self.7, self.8, self.9, self.10, self.11, self.12, self.13, self.14, self.15, self.16, self.17, self.18, self.19, self.20, self.21, self.22, self.23).parse_ensures(t2, Err(e)));
                assert((self.1, self.2, self.3, self.4, self.5, self.6, self.7, self.8, self.9, self.10, self.11, self.12, self.13, self.14, self.15, self.16, self.17, self.18, self.19, self.20, self.21, self.22, self.23).parse_ensures(t1, Err(e)));
                return Err(e);
            },
        };
        assert(self.22.parse_ensures(t22, Ok((w, t23))));
        let (x, t24) = match self.23.parse(t23) {
            Ok(r) => r,
            Err(e) => {
                assert((self.22, self.23).parse_ensures(t22, Err(e)));
                assert((self.21, self.22, self.23).parse_ensures(t21, Err(e)));
                assert((self.20, self.21, self.22, self.23).parse_ensures(t20, Err(e)));
                assert((self.19, self.20, self.21, self.22, self.23).parse_ensures(t19, Err(e)));
                assert((self.18, self.19, self.20, self.21, self.22, self.23).parse_ensures(t18, Err(e)));
                assert((self.17, self.18, self.19, self.20, self.21, self.22, self.23).parse_ensures(t17, Err(e)));
                assert((self.16, self.17, self.18, self.19, self.20, self.21, self.22, self.23).parse_ensures(t16, Err(e)));
                assert((self.15, self.16, self.17, self.18, self.19, self.20, self.21, self.22, self.23).parse_ensures(t15, Err(e)));
                assert((self.14, self.15, self.16, self.17, self.18, self.19, self.20, self.21, self.22, self.23).parse_ensures(t14, Err(e)));
                assert((self.13, self.14, self.15, self.16, self.17, self.18, self.19, self.20, self.21, self.22, self.23).parse_ensures(t13, Err(e)));
                assert((self.12, self.13, self.14, self.15, self.16, self.17, self.18, self.19, self.20, self.21, self.22, self.23).parse_ensures(t12, Err(e)));
                assert((self.11, self.12, self.13, self.14, self.15, self.16, self.17, self.18, self.19, self.20, self.21, self.22, self.23).parse_ensures(t11, Err(e)));
                assert((self.10, self.11, self.12, self.13, self.14, self.15, self.16, self.17, self.18, self.19, self.20, self.21, self.22, self.23).parse_ensures(t10, Err(e)));
                assert((self.9, self.10, self.11, self.12, self.13, self.14, self.15, self.16, self.17, self.18, self.19, self.20, self.21, self.22, self.23).parse_ensures(t9, Err(e)));
                assert((self.8, self.9, self.10, self.11, self.12, self.13, self.14, self.15, self.16, self.17, self.18, self.19, self.20, self.21, self.22, self.23).parse_ensures(t8, Err(e)));
                assert((self.7, self.8, self.9, self.10, self.11, self.12, self.13, self.14, self.15, self.16, self.17, self.18, self.19, self.20, self.21, self.22, self.23).parse_ensures(t7, Err(e)));
                assert((self.6, self.7, self.8, self.9, self.10, self.11, self.12, self.13, self.14, self.15, self.16, self.17, self.18, self.19, self.20, self.21, self.22, self.23).parse_ensures(t6, Err(e)));
                assert((self.5, self.6, self.7, self.8, self.9, self.10, self.11, self.12, self.13, self.14, self.15, self.16, self.17, self.18, self.19, self.20, self.21, self.22, self.23).parse_ensures(t5, Err(e)));
                assert((self.4, self.5, self.6, self.7, self.8, self.9, self.10, self.11, self.12, self.13, self.14, self.15, self.16, self.17, self.18, self.19, self.20, self.21, self.22, self.23).parse_ensures(t4, Err(e)));
                assert((self.3, self.4, self.5, self.6, self.7, self.8, self.9, self.10, self.11, self.12, self.13, self.14, self.15, self.16, self.17, self.18, self.19, self.20, self.21, self.22, self.23).parse_ensures(t3, Err(e)));
                assert((self.2, self.3, self.4, self.5, self.6, self.7, self.8, self.9, self.10, self.11, self.12, self.13, self.14, self.15, self.16, self.17, self.18, self.19, self.20, self.21, self.22, self.23).parse_ensures(t2, Err(e)));
                assert((self.1, self.2, self.3, self.4, self.5, self.6, self.7, self.8, self.9, self.10, self.11, self.12, self.13, self.14, self.15, self.16, self.17, self.18, self.19, self.20, self.21, self.22, self.23).parse_ensures(t1, Err(e)));
                return Err(e);
            },
        };
        assert((self.22, self.23).parse_ensures(t22, Ok(((w, x), t24))));
        assert((self.21, self.22, self.23).parse_ensures(t21, Ok(((v, w, x), t24))));
        assert((self.20, self.21, self.22, self.23).parse_ensures(t20, Ok(((u, v, w, x), t24))));
        assert((self.19, self.20, self.21, self.22, self.23).parse_ensures(t19, Ok(((t, u, v, w, x), t24))));
        assert((self.18, self.19, self.20, self.21, self.22, self.23).parse_ensures(t18, Ok(((s, t, u, v, w, x), t24))));
        assert((self.17, self.18, self.19, self.20, self.21, self.22, self.23).parse_ensures(t17, Ok(((r, s, t, u, v, w, x), t24))));
        assert((self.16, self.17, self.18, self.19, self.20, self.21, self.22, self.23).parse_ensures(t16, Ok(((q, r, s, t, u, v, w, x), t24))));
        assert((self.15, self.16, self.17, self.18, self.19, self.20, self.21, self.22, self.23).parse_ensures(t15, Ok(((p, q, r, s, t, u, v, w, x), t24))));
        assert((self.14, self.15, self.16, self.17, self.18, self.19, self.20, self.21, self.22, self.23).parse_ensures(t14, Ok(((o, p, q, r, s, t, u, v, w, x), t24))));
        assert((self.13, self.14, self.15, self.16, self.17, self.18, self.19, self.20, self.21, self.22, self.23).parse_ensures(t13, Ok(((n, o, p, q, r, s, t, u, v, w, x), t24))));
        assert((self.12, self.13, self.14, self.15, self.16, self.17, self.18, self.19, self.20, self.21, self.22, self.23).parse_ensures(t12, Ok(((m, n, o, p, q, r, s, t, u, v, w, x), t24))));
        assert((self.11, self.12, self.13, self.14, self.15, self.16, self.17, self.18, self.19, self.20, self.21, self.22, self.23).parse_ensures(t11, Ok(((l, m, n, o, p, q, r, s, t, u, v, w, x), t24))));
        assert((self.10, self.11, self.12, self.13, self.14, self.15, self.16, self.17, self.18, self.19, self.20, self.21, self.22, self.23).parse_ensures(t10, Ok(((k, l, m, n, o, p, q, r, s, t, u, v, w, x), t24))));
        assert((self.9, self.10, self.11, self.12, self.13, self.14, self.15, self.16, self.17, self.18, self.19, self.20, self.21, self.22, self.23).parse_ensures(t9, Ok(((j, k, l, m, n, o, p, q, r, s, t, u, v, w, x), t24))));
        assert((self.8, self.9, self.10, self.11, self.12, self.13, self.14, self.15, self.16, self.17, self.18, self.19, self.20, self.21, self.22, self.23).parse_ensures(t8, Ok(((i, j, k, l, m, n, o, p, q, r, s, t, u, v, w, x), t24))));
        assert((self.7, self.8, self.9, self.10, self.11, self.12, self.13, self.14, self.15, self.16, self.17, self.18, self.19, self.20, self.21, self.22, self.23).parse_ensures(t7, Ok(((h, i, j, k, l, m, n, o, p, q, r, s, t, u, v, w, x), t24))));
        assert((self.6, self.7, self.8, self.9, self.10, self.11, self.12, self.13, self.14, self.15, self.16, self.17, self.18, self.19, self.20, self.21, self.22, self.23).parse_ensures(t6, Ok(((g, h, i, j, k, l, m, n, o, p, q, r, s, t, u, v, w, x), t24))));
        assert((self.5, self.6, self.7, self.8, self.9, self.10, self.11, self.12, self.13, self.14, self.15, self.16, self.17, self.18, self.19, self.20, self.21, self.22, self.23).parse_ensures(t5, Ok(((f, g, h, i, j, k, l, m, n, o, p, q, r, s, t, u, v, w, x), t24))));
        assert((self.4, self.5, self.6, self.7, self.8, self.9, self.10, self.11, self.12, self.13, self.14, self.15, self.16, self.17, self.18, self.19, self.20, self.21, self.22, self.23).parse_ensures(t4, Ok(((e, f, g, h, i, j, k, l, m, n, o, p, q, r, s, t, u, v, w, x), t24))));
        assert((self.3, self.4, self.5, self.6, self.7, self.8, self.9, self.10, self.11, self.12, self.13, self.14, self.15, self.16, self.17, self.18, self.19, self.20, self.21, self.22, self.23).parse_ensures(t3, Ok(((d, e, f, g, h, i, j, k, l, m, n, o, p, q, r, s, t, u, v, w, x), t24))));
        assert((self.2, self.3, self.4, self.5, self.6, self.7, self.8, self.9, self.10, self.11, self.12, self.13, self.14, self.15, self.16, self.17, self.18, self.19, self.20, self.21, self.22, self.23).parse_ensures(t2, Ok(((c, d, e, f, g, h, i, j, k, l, m, n, o, p, q, r, s, t, u, v, w, x), t24))));
        assert((self.1, self.2, self.3, self.4, self.5, self.6, self.7, self.8, self.9, self.10, self.11, self.12, self.13, self.14, self.15, self.16, self.17, self.18, self.19, self.20, self.21, self.22, self.23).parse_ensures(t1, Ok(((b, c, d, e, f, g, h, i, j, k, l, m, n, o, p, q, r, s, t, u, v, w, x), t24))));
        Ok(((a, b, c, d, e, f, g, h, i, j, k, l, m, n, o, p, q, r, s, t, u, v, w, x), t24))
    }
}

/// A tuple of 24 deterministic parsers is deterministic.
pub proof fn lemma_tuple24_deterministic<Inp, Er, A, B, C, D, E, F, G, H, I, J, K, L, M, N, O, P, Q, R, S, T, U, V, W, X>(t: (A, B, C, D, E, F, G, H, I, J, K, L, M, N, O, P, Q, R, S, T, U, V, W, X))
    where
        A: Parser<Inp, Error = Er>,
        B: Parser<Inp, Error = Er>,
        C: Parser<Inp, Error = Er>,
        D: Parser<Inp, Error = Er>,
        E: Parser<Inp, Error = Er>,
        F: Parser<Inp, Error = Er>,
        G: Parser<Inp, Error = Er>,
        H: Parser<Inp, Error = Er>,
        I: Parser<Inp, Error = Er>,
        J: Parser<Inp, Error = Er>,
        K: Parser<Inp, Error = Er>,
        L: Parser<Inp, Error = Er>,
        M: Parser<Inp, Error = Er>,
        N: Parser<Inp, Error = Er>,
        O: Parser<Inp, Error = Er>,
        P: Parser<Inp, Error = Er>,
        Q: Parser<Inp, Error = Er>,
        R: Parser<Inp, Error = Er>,
        S: Parser<Inp, Error = Er>,
        T: Parser<Inp, Error = Er>,
        U: Parser<Inp, Error = Er>,
        V: Parser<Inp, Error = Er>,
        W: Parser<Inp, Error = Er>,
        X: Parser<Inp, Error = Er>,
    requires
        deterministic::<Inp, A>(t.0),
        deterministic::<Inp, B>(t.1),
        deterministic::<Inp, C>(t.2),
        deterministic::<Inp, D>(t.3),
        deterministic::<Inp, E>(t.4),
        deterministic::<Inp, F>(t.5),
        deterministic::<Inp, G>(t.6),
        deterministic::<Inp, H>(t.7),
        deterministic::<Inp, I>(t.8),
        deterministic::<Inp, J>(t.9),
        deterministic::<Inp, K>(t.10),
        deterministic::<Inp, L>(t.11),
        deterministic::<Inp, M>(t.12),
        deterministic::<Inp, N>(t.13),
        deterministic::<Inp, O>(t.14),
        deterministic::<Inp, P>(t.15),
        deterministic::<Inp, Q>(t.16),
        deterministic::<Inp, R>(t.17),
        deterministic::<Inp, S>(t.18),
        deterministic::<Inp, T>(t.19),
        deterministic::<Inp, U>(t.20),
        deterministic::<Inp, V>(t.21),
        deterministic::<Inp, W>(t.22),
        deterministic::<Inp, X>(t.23),
    ensures
        deterministic::<Inp, (A, B, C, D, E, F, G, H, I, J, K, L, M, N, O, P, Q, R, S, T, U, V, W, X)>(t),
{
    lemma_tuple23_deterministic::<Inp, Er, B, C, D, E, F, G, H, I, J, K, L, M, N, O, P, Q, R, S, T, U, V, W, X>((t.1, t.2, t.3, t.4, t.5, t.6, t.7, t.8, t.9, t.10, t.11, t.12, t.13, t.14, t.15, t.16, t.17, t.18, t.19, t.20, t.21, t.22, t.23));
    lemma_seq_unique::<Inp, A, (B, C, D, E, F, G, H, I, J, K, L, M, N, O, P, Q, R, S, T, U, V, W, X)>(t.0, (t.1, t.2, t.3, t.4, t.5, t.6, t.7, t.8, t.9, t.10, t.11, t.12, t.13, t.14, t.15, t.16, t.17, t.18, t.19, t.20, t.21, t.22, t.23));
}

/// A tuple of 25 parsers sharing one error type runs them in order.
impl<Inp, Er, A, B, C, D, E, F, G, H, I, J, K, L, M, N, O, P, Q, R, S, T, U, V, W, X, Y> Parser<Inp> for (A, B, C, D, E, F, G, H, I, J, K, L, M, N, O, P, Q, R, S, T, U, V, W, X, Y) where
    A: Parser<Inp, Error = Er>,
    B: Parser<Inp, Error = Er>,
    C: Parser<Inp, Error = Er>,
    D: Parser<Inp, Error = Er>,
    E: Parser<Inp, Error = Er>,
    F: Parser<Inp, Error = Er>,
    G: Parser<Inp, Error = Er>,
    H: Parser<Inp, Error = Er>,
    I: Parser<Inp, Error = Er>,
    J: Parser<Inp, Error = Er>,
    K: Parser<Inp, Error = Er>,
    L: Parser<Inp, Error = Er>,
    M: Parser<Inp, Error = Er>,
    N: Parser<Inp, Error = Er>,
    O: Parser<Inp, Error = Er>,
    P: Parser<Inp, Error = Er>,
    Q: Parser<Inp, Error = Er>,
    R: Parser<Inp, Error = Er>,
    S: Parser<Inp, Error = Er>,
    T: Parser<Inp, Error = Er>,
    U: Parser<Inp, Error = Er>,
    V: Parser<Inp, Error = Er>,
    W: Parser<Inp, Error = Er>,
    X: Parser<Inp, Error = Er>,
    Y: Parser<Inp, Error = Er>,
 {
    type Out = (A::Out, B::Out, C::Out, D::Out, E::Out, F::Out, G::Out, H::Out, I::Out, J::Out, K::Out, L::Out, M::Out, N::Out, O::Out, P::Out, Q::Out, R::Out, S::Out, T::Out, U::Out, V::Out, W::Out, X::Out, Y::Out);

    type Error = Er;

    open spec fn parse_requires(&self, input: Inp) -> bool {
        seq_requires(self.0, (self.1, self.2, self.3, self.4, self.5, self.6, self.7, self.8, self.9, self.10, self.11, self.12, self.13, self.14, self.15, self.16, self.17, self.18, self.19, self.20, self.21, self.22, self.23, self.24), input)
    }

    open spec fn parse_ensures(&self, input: Inp, res: Result<((A::Out, B::Out, C::Out, D::Out, E::Out, F::Out, G::Out, H::Out, I::Out, J::Out, K::Out, L::Out, M::Out, N::Out, O::Out, P::Out, Q::Out, R::Out, S::Out, T::Out, U::Out, V::Out, W::Out, X::Out, Y::Out), Inp), Er>) -> bool {
        match res {
            Ok(((a, b, c, d, e, f, g, h, i, j, k, l, m, n, o, p, q, r, s, t, u, v, w, x, y), rest)) => seq_ok(self.0, (self.1, self.2, self.3, self.4, self.5, self.6, self.7, self.8, self.9, self.10, self.11, self.12, self.13, self.14, self.15, self.16, self.17, self.18, self.19, self.20, self.21, self.22, self.23, self.24), input, a, (b, c, d, e, f, g, h, i, j, k, l, m, n, o, p, q, r, s, t, u, v, w, x, y), rest),
            Err(e) => seq_err(self.0, (self.1, self.2, self.3, self.4, self.5, self.6, self.7, self.8, self.9, self.10, self.11, self.12, self.13, self.14, self.15, self.16, self.17, self.18, self.19, self.20, self.21, self.22, self.23, self.24), input, e),
        }
    }

    fn parse(&self, txt: Inp) -> (res: Result<((A::Out, B::Out, C::Out, D::Out, E::Out, F::Out, G::Out, H::Out, I::Out, J::Out, K::Out, L::Out, M::Out, N::Out, O::Out, P::Out, Q::Out, R::Out, S::Out, T::Out, U::Out, V::Out, W::Out, X::Out, Y::Out), Inp), Er>) {
        let ghost t0 = txt;
        let (a, t1) = match self.0.parse(txt) {
            Ok(r) => r,
            Err(e) => return Err(e),
        };
        assert(self.0.parse_ensures(t0, Ok((a, t1))));
        assert((self.1, self.2, self.3, self.4, self.5, self.6, self.7, self.8, self.9, self.10, self.11, self.12, self.13, self.14, self.15, self.16, self.17, self.18, self.19, self.20, self.21, self.22, self.23, self.24).parse_requires(t1));
        let (b, t2) = match self.1.parse(t1) {
            Ok(r) => r,
            Err(e) => {
                assert((self.1, self.2, self.3, self.4, self.5, self.6, self.7, self.8, self.9, self.10, self.11, self.12, self.13, self.14, self.15, self.16, self.17, self.18, self.19, self.20, self.21, self.22, self.23, self.24).parse_ensures(t1, Err(e)));
                return Err(e);
            },
        };
        assert(self.1.parse_ensures(t1, Ok((b, t2))));
        assert((self.2, self.3, self.4, self.5, self.6, self.7, self.8, self.9, self.10, self.11, self.12, self.13, self.14, self.15, self.16, self.17, self.18, self.19, self.20, self.21, self.22, self.23, self.24).parse_requires(t2));
        let (c, t3) = match self.2.parse(t2) {
            Ok(r) => r,
            Err(e) => {
                assert((self.2, self.3, self.4, self.5, self.6, self.7, self.8, self.9, self.10, self.11, self.12, self.13, self.14, self.15, self.16, self.17, self.18, self.19, self.20, self.21, self.22, self.23, self.24).parse_ensures(t2, Err(e)));
                assert((self.1, self.2, self.3, self.4, self.5, self.6, self.7, self.8, self.9, self.10, self.11, self.12, self.13, self.14, self.15, self.16, self.17, self.18, self.19, self.20, self.21, self.22, self.23, self.24).parse_ensures(t1, Err(e)));
                return Err(e);
            },
        };
        assert(self.2.parse_ensures(t2, Ok((c, t3))));
        assert((self.3, self.4, self.5, self.6, self.7, self.8, self.9, self.10, self.11, self.12, self.13, self.14, self.15, self.16, self.17, self.18, self.19, self.20, self.21, self.22, self.23, self.24).parse_requires(t3));
        let (d, t4) = match self.3.parse(t3) {
            Ok(r) => r,
            Err(e) => {
                assert((self.3, self.4, self.5, self.6, self.7, self.8, self.9, self.10, self.11, self.12, self.13, self.14, self.15, self.16, self.17, self.18, self.19, self.20, self.21, self.22, self.23, self.24).parse_ensures(t3, Err(e)));
                assert((self.2, self.3, self.4, self.5, self.6, self.7, self.8, self.9, self.10, self.11, self.12, self.13, self.14, self.15, self.16, self.17, self.18, self.19, self.20, self.21, self.22, self.23, self.24).parse_ensures(t2, Err(e)));
                assert((self.1, self.2, self.3, self.4, self.5, self.6, self.7, self.8, self.9, self.10, self.11, self.12, self.13, self.14, self.15, self.16, self.17, self.18, self.19, self.20, self.21, self.22, self.23, self.24).parse_ensures(t1, Err(e)));
                return Err(e);
            },
        };
        assert(self.3.parse_ensures(t3, Ok((d, t4))));
        assert((self.4, self.5, self.6, self.7, self.8, self.9, self.10, self.11, self.12, self.13, self.14, self.15, self.16, self.17, self.18, self.19, self.20, self.21, self.22, self.23, self.24).parse_requires(t4));
        let (e, t5) = match self.4.parse(t4) {
            Ok(r) => r,
            Err(e) => {
                assert((self.4, self.5, self.6, self.7, self.8, self.9, self.10, self.11, self.12, self.13, self.14, self.15, self.16, self.17, self.18, self.19, self.20, self.21, self.22, self.23, self.24).parse_ensures(t4, Err(e)));
                assert((self.3, self.4, self.5, self.6, self.7, self.8, self.9, self.10, self.11, self.12, self.13, self.14, self.15, self.16, self.17, self.18, self.19, self.20, self.21, self.22, self.23, self.24).parse_ensures(t3, Err(e)));
                assert((self.2, self.3, self.4, self.5, self.6, self.7, self.8, self.9, self.10, self.11, self.12, self.13, self.14, self.15, self.16, self.17, self.18, self.19, self.20, self.21, self.22, self.23, self.24).parse_ensures(t2, Err(e)));
                assert((self.1, self.2, self.3, self.4, self.5, self.6, self.7, self.8, self.9, self.10, self.11, self.12, self.13, self.14, self.15, self.16, self.17, self.18, self.19, self.20, self.21, self.22, self.23, self.24).parse_ensures(t1, Err(e)));
                return Err(e);
            },
        };
        assert(self.4.parse_ensures(t4, Ok((e, t5))));
        assert((self.5, self.6, self.7, self.8, self.9, self.10, self.11, self.12, self.13, self.14, self.15, self.16, self.17, self.18, self.19, self.20, self.21, self.22, self.23, self.24).parse_requires(t5));
        let (f, t6) = match self.5.parse(t5) {
            Ok(r) => r,
            Err(e) => {
                assert((self.5, self.6, self.7, self.8, self.9, self.10, self.11, self.12, self.13, self.14, self.15, self.16, self.17, self.18, self.19, self.20, self.21, self.22, self.23, self.24).parse_ensures(t5, Err(e)));
                assert((self.4, self.5, self.6, self.7, self.8, self.9, self.10, self.11, self.12, self.13, self.14, self.15, self.16, self.17, self.18, self.19, self.20, self.21, self.22, self.23, self.24).parse_ensures(t4, Err(e)));
                assert((self.3, self.4, self.5, self.6, self.7, self.8, self.9, self.10, self.11, self.12, self.13, self.14, self.15, self.16, self.17, self.18, self.19, self.20, self.21, self.22, self.23, self.24).parse_ensures(t3, Err(e)));
                assert((self.2, self.3, self.4, self.5, self.6, self.7, self.8, self.9, self.10, self.11, self.12, self.13, self.14, self.15, self.16, self.17, self.18, self.19, self.20, self.21, self.22, self.23, self.24).parse_ensures(t2, Err(e)));
                assert((self.1, self.2, self.3, self.4, self.5, self.6, self.7, self.8, self.9, self.10, self.11, self.12, self.13, self.14, self.15, self.16, self.17, self.18, self.19, self.20, self.21, self.22, self.23, self.24).parse_ensures(t1, Err(e)));
                return Err(e);
            },
        };
        assert(self.5.parse_ensures(t5, Ok((f, t6))));
        assert((self.6, self.7, self.8, self.9, self.10, self.11, self.12, self.13, self.14, self.15, self.16, self.17, self.18, self.19, self.20, self.21, self.22, self.23, self.24).parse_requires(t6));
        let (g, t7) = match self.6.parse(t6) {
            Ok(r) => r,
            Err(e) => {
                assert((self.6, self.7, self.8, self.9, self.10, self.11, self.12, self.13, self.14, self.15, self.16, self.17, self.18, self.19, self.20, self.21, self.22, self.23, self.24).parse_ensures(t6, Err(e)));
                assert((self.5, self.6, self.7, self.8, self.9, self.10, self.11, self.12, self.13, self.14, self.15, self.16, self.17, self.18, self.19, self.20, self.21, self.22, self.23, self.24).parse_ensures(t5, Err(e)));
                assert((self.4, self.5, self.6, self.7, self.8, self.9, self.10, self.11, self.12, self.13, self.14, self.15, self.16, self.17, self.18, self.19, self.20, self.21, self.22, self.23, self.24).parse_ensures(t4, Err(e)));
                assert((self.3, self.4, self.5, self.6, self.7, self.8, self.9, self.10, self.11, self.12, self.13, self.14, self.15, self.16, self.17, self.18, self.19, self.20, self.21, self.22, self.23, self.24).parse_ensures(t3, Err(e)));
                assert((self.2, self.3, self.4, self.5, self.6, self.7, self.8, self.9, self.10, self.11, self.12, self.13, self.14, self.15, self.16, self.17, self.18, self.19, self.20, self.21, self.22, self.23, self.24).parse_ensures(t2, Err(e)));
                assert((self.1, self.2, self.3, self.4, self.5, self.6, self.7, self.8, self.9, self.10, self.11, self.12, self.13, self.14, self.15, self.16, self.17, self.18, self.19, self.20, self.21, self.22, self.23, self.24).parse_ensures(t1, Err(e)));
                return Err(e);
            },
        };
        assert(self.6.parse_ensures(t6, Ok((g, t7))));
        assert((self.7, self.8, self.9, self.10, self.11, self.12, self.13, self.14, self.15, self.16, self.17, self.18, self.19, self.20, self.21, self.22, self.23, self.24).parse_requires(t7));
        let (h, t8) = match self.7.parse(t7) {
            Ok(r) => r,
            Err(e) => {
                assert((self.7, self.8, self.9, self.10, self.11, self.12, self.13, self.14, self.15, self.16, self.17, self.18, self.19, self.20, self.21, self.22, self.23, self.24).parse_ensures(t7, Err(e)));
                assert((self.6, self.7, self.8, self.9, self.10, self.11, self.12, self.13, self.14, self.15, self.16, self.17, self.18, self.19, self.20, self.21, self.22, self.23, self.24).parse_ensures(t6, Err(e)));
                assert((self.5, self.6, self.7, self.8, self.9, self.10, self.11, self.12, self.13, self.14, self.15, self.16, self.17, self.18, self.19, self.20, self.21, self.22, self.23, self.24).parse_ensures(t5, Err(e)));
                assert((self.4, self.5, self.6, self.7, self.8, self.9, self.10, self.11, self.12, self.13, self.14, self.15, self.16, self.17, self.18, self.19, self.20, self.21, self.22, self.23, self.24).parse_ensures(t4, Err(e)));
                assert((self.3, self.4, self.5, self.6, self.7, self.8, self.9, self.10, self.11, self.12, self.13, self.14, self.15, self.16, self.17, self.18, self.19, self.20, self.21, self.22, self.23, self.24).parse_ensures(t3, Err(e)));
                assert((self.2, self.3, self.4, self.5, self.6, self.7, self.8, self.9, self.10, self.11, self.12, self.13, self.14, self.15, self.16, self.17, self.18, self.19, self.20, self.21, self.22, self.23, self.24).parse_ensures(t2, Err(e)));
                assert((self.1, self.2, self.3, self.4, self.5, self.6, self.7, self.8, self.9, self.10, self.11, self.12, self.13, self.14, self.15, self.16, self.17, self.18, self.19, self.20, self.21, self.22, self.23, self.24).parse_ensures(t1, Err(e)));
                return Err(e);
            },
        };
        assert(self.7.parse_ensures(t7, Ok((h, t8))));
        assert((self.8, self.9, self.10, self.11, self.12, self.13, self.14, self.15, self.16, self.17, self.18, self.19, self.20, self.21, self.22, self.23, self.24).parse_requires(t8));
        let (i, t9) = match self.8.parse(t8) {
            Ok(r) => r,
            Err(e) => {
                assert((self.8, self.9, self.10, self.11, self.12, self.13, self.14, self.15, self.16, self.17, self.18, self.19, self.20, self.21, self.22, self.23, self.24).parse_ensures(t8, Err(e)));
                assert((self.7, self.8, self.9, self.10, self.11, self.12, self.13, self.14, self.15, self.16, self.17, self.18, self.19, self.20, self.21, self.22, self.23, self.24).parse_ensures(t7, Err(e)));
                assert((self.6, self.7, self.8, self.9, self.10, self.11, self.12, self.13, self.14, self.15, self.16, self.17, self.18, self.19, self.20, self.21, self.22, self.23, self.24).parse_ensures(t6, Err(e)));
                assert((self.5, self.6, self.7, self.8, self.9, self.10, self.11, self.12, self.13, self.14, self.15, self.16, self.17, self.18, self.19, self.20, self.21, self.22, self.23, self.24).parse_ensures(t5, Err(e)));
                assert((self.4, self.5, self.6, self.7, self.8, self.9, self.10, self.11, self.12, self.13, self.14, self.15, self.16, self.17, self.18, self.19, self.20, self.21, self.22, self.23, self.24).parse_ensures(t4, Err(e)));
                assert((self.3, self.4, self.5, self.6, self.7, self.8, self.9, self.10, self.11, self.12, self.13, self.14, self.15, self.16, self.17, self.18, self.19, self.20, self.21, self.22, self.23, self.24).parse_ensures(t3, Err(e)));
                assert((self.2, self.3, self.4, self.5, self.6, self.7, self.8, self.9, self.10, self.11, self.12, self.13, self.14, self.15, self.16, self.17, self.18, self.19, self.20, self.21, self.22, self.23, self.24).parse_ensures(t2, Err(e)));
                assert((self.1, self.2, self.3, self.4, self.5, self.6, self.7, self.8, self.9, self.10, self.11, self.12, self.13, self.14, self.15, self.16, self.17, self.18, self.19, self.20, self.21, self.22, self.23, self.24).parse_ensures(t1, Err(e)));
                return Err(e);
            },
        };
        assert(self.8.parse_ensures(t8, Ok((i, t9))));
        assert((self.9, self.10, self.11, self.12, self.13, self.14, self.15, self.16, self.17, self.18, self.19, self.20, self.21, self.22, self.23, self.24).parse_requires(t9));
        let (j, t10) = match self.9.parse(t9) {
            Ok(r) => r,
            Err(e) => {
                assert((self.9, self.10, self.11, self.12, self.13, self.14, self.15, self.16, self.17, self.18, self.19, self.20, self.21, self.22, self.23, self.24).parse_ensures(t9, Err(e)));
                assert((self.8, self.9, self.10, self.11, self.12, self.13, self.14, self.15, self.16, self.17, self.18, self.19, self.20, self.21, self.22, self.23, self.24).parse_ensures(t8, Err(e)));
                assert((self.7, self.8, self.9, self.10, self.11, self.12, self.13, self.14, self.15, self.16, self.17, self.18, self.19, self.20, self.21, self.22, self.23, self.24).parse_ensures(t7, Err(e)));
                assert((self.6, self.7, self.8, self.9, self.10, self.11, self.12, self.13, self.14, self.15, self.16, self.17, self.18, self.19, self.20, self.21, self.22, self.23, self.24).parse_ensures(t6, Err(e)));
                assert((self.5, self.6, self.7, self.8, self.9, self.10, self.11, self.12, self.13, self.14, self.15, self.16, self.17, self.18, self.19, self.20, self.21, self.22, self.23, self.24).parse_ensures(t5, Err(e)));
                assert((self.4, self.5, self.6, self.7, self.8, self.9, self.10, self.11, self.12, self.13, self.14, self.15, self.16, self.17, self.18, self.19, self.20, self.21, self.22, self.23, self.24).parse_ensures(t4, Err(e)));
                assert((self.3, self.4, self.5, self.6, self.7, self.8, self.9, self.10, self.11, self.12, self.13, self.14, self.15, self.16, self.17, self.18, self.19, self.20, self.21, self.22, self.23, self.24).parse_ensures(t3, Err(e)));
                assert((self.2, self.3, self.4, self.5, self.6, self.7, self.8, self.9, self.10, self.11, self.12, self.13, self.14, self.15, self.16, self.17, self.18, self.19, self.20, self.21, self.22, self.23, self.24).parse_ensures(t2, Err(e)));
                assert((self.1, self.2, self.3, self.4, self.5, self.6, self.7, self.8, self.9, self.10, self.11, self.12, self.13, self.14, self.15, self.16, self.17, self.18, self.19, self.20, self.21, self.22, self.23, self.24).parse_ensures(t1, Err(e)));
                return Err(e);
            },
        };
        assert(self.9.parse_ensures(t9, Ok((j, t10))));
        assert((self.10, self.11, self.12, self.13, self.14, self.15, self.16, self.17, self.18, self.19, self.20, self.21, self.22, self.23, self.24).parse_requires(t10));
        let (k, t11) = match self.10.parse(t10) {
            Ok(r) => r,
            Err(e) => {
                assert((self.10, self.11, self.12, self.13, self.14, self.15, self.16, self.17, self.18, self.19, self.20, self.21, self.22, self.23, self.24).parse_ensures(t10, Err(e)));
                assert((self.9, self.10, self.11, self.12, self.13, self.14, self.15, self.16, self.17, self.18, self.19, self.20, self.21, self.22, self.23, self.24).parse_ensures(t9, Err(e)));
                assert((self.8, self.9, self.10, self.11, self.12, self.13, self.14, self.15, self.16, self.17, self.18, self.19, self.20, self.21, self.22, self.23, self.24).parse_ensures(t8, Err(e)));
                assert((self.7, self.8, self.9, self.10, self.11, self.12, self.13, self.14, self.15, self.16, self.17, self.18, self.19, self.20, self.21, self.22, self.23, self.24).parse_ensures(t7, Err(e)));
                assert((self.6, self.7, self.8, self.9, self.10, self.11, self.12, self.13, self.14, self.15, self.16, self.17, self.18, self.19, self.20, self.21, self.22, self.23, self.24).parse_ensures(t6, Err(e)));
                assert((self.5, self.6, self.7, self.8, self.9, self.10, self.11, self.12, self.13, self.14, self.15, self.16, self.17, self.18, self.19, self.20, self.21, self.22, self.23, self.24).parse_ensures(t5, Err(e)));
                assert((self.4, self.5, self.6, self.7, self.8, self.9, self.10, self.11, self.12, self.13, self.14, self.15, self.16, self.17, self.18, self.19, self.20, self.21, self.22, self.23, self.24).parse_ensures(t4, Err(e)));
                assert((self.3, self.4, self.5, self.6, self.7, self.8, self.9, self.10, self.11, self.12, self.13, self.14, self.15, self.16, self.17, self.18, self.19, self.20, self.21, self.22, self.23, self.24).parse_ensures(t3, Err(e)));
                assert((self.2, self.3, self.4, self.5, self.6, self.7, self.8, self.9, self.10, self.11, self.12, self.13, self.14, self.15, self.16, self.17, self.18, self.19, self.20, self.21, self.22, self.23, self.24).parse_ensures(t2, Err(e)));
                assert((self.1, self.2, self.3, self.4, self.5, self.6, self.7, self.8, self.9, self.10, self.11, self.12, self.13, self.14, self.15, self.16, self.17, self.18, self.19, self.20, self.21, self.22, self.23, self.24).parse_ensures(t1, Err(e)));
                return Err(e);
            },
        };
        assert(self.10.parse_ensures(t10, Ok((k, t11))));
        assert((self.11, self.12, self.13, self.14, self.15, self.16, self.17, self.18, self.19, self.20, self.21, self.22, self.23, self.24).parse_requires(t11));
        let (l, t12) = match self.11.parse(t11) {
            Ok(r) => r,
            Err(e) => {
                assert((self.11, self.12, self.13, self.14, self.15, self.16, self.17, self.18, self.19, self.20, self.21, self.22, self.23, self.24).parse_ensures(t11, Err(e)));
                assert((self.10, self.11, self.12, self.13, self.14, self.15, self.16, self.17, self.18, self.19, self.20, self.21, self.22, self.23, self.24).parse_ensures(t10, Err(e)));
                assert((self.9, self.10, self.11, self.12, self.13, self.14, self.15, self.16, self.17, self.18, self.19, self.20, self.21, self.22, self.23, self.24).parse_ensures(t9, Err(e)));
                assert((self.8, self.9, self.10, self.11, self.12, self.13, self.14, self.15, self.16, self.17, self.18, self.19, self.20, self.21, self.22, self.23, self.24).parse_ensures(t8, Err(e)));
                assert((self.7, self.8, self.9, self.10, self.11, self.12, self.13, self.14, self.15, self.16, self.17, self.18, self.19, self.20, self.21, self.22, self.23, self.24).parse_ensures(t7, Err(e)));
                assert((self.6, self.7, self.8, self.9, self.10, self.11, self.12, self.13, self.14, self.15, self.16, self.17, self.18, self.19, self.20, self.21, self.22, self.23, self.24).parse_ensures(t6, Err(e)));
                assert((self.5, self.6, self.7, self.8, self.9, self.10, self.11, self.12, self.13, self.14, self.15, self.16, self.17, self.18, self.19, self.20, self.21, self.22, self.23, self.24).parse_ensures(t5, Err(e)));
                assert((self.4, self.5, self.6, self.7, self.8, self.9, self.10, self.11, self.12, self.13, self.14, self.15, self.16, self.17, self.18, self.19, self.20, self.21, self.22, self.23, self.24).parse_ensures(t4, Err(e)));
                assert((self.3, self.4, self.5, self.6, self.7, self.8, self.9, self.10, self.11, self.12, self.13, self.14, self.15, self.16, self.17, self.18, self.19, self.20, self.21, self.22, self.23, self.24).parse_ensures(t3, Err(e)));
                assert((self.2, self.3, self.4, self.5, self.6, self.7, self.8, self.9, self.10, self.11, self.12, self.13, self.14, self.15, self.16, self.17, self.18, self.19, self.20, self.21, self.22, self.23, self.24).parse_ensures(t2, Err(e)));
                assert((self.1, self.2, self.3, self.4, self.5, self.6, self.7, self.8, self.9, self.10, self.11, self.12, self.13, self.14, self.15, self.16, self.17, self.18, self.19, self.20, self.21, self.22, self.23, self.24).parse_ensures(t1, Err(e)));
                return Err(e);
            },
        };
        assert(self.11.parse_ensures(t11, Ok((l, t12))));
        assert((self.12, self.13, self.14, self.15, self.16, self.17, self.18, self.19, self.20, self.21, self.22, self.23, self.24).parse_requires(t12));
        let (m, t13) = match self.12.parse(t12) {
            Ok(r) => r,
            Err(e) => {
                assert((self.12, self.13, self.14, self.15, self.16, self.17, self.18, self.19, self.20, self.21, self.22, self.23, self.24).parse_ensures(t12, Err(e)));
                assert((self.11, self.12, self.13, self.14, self.15, self.16, self.17, self.18, self.19, self.20, self.21, self.22, self.23, self.24).parse_ensures(t11, Err(e)));
                assert((self.10, self.11, self.12, self.13, self.14, self.15, self.16, self.17, self.18, self.19, self.20, self.21, self.22, self.23, self.24).parse_ensures(t10, Err(e)));
                assert((self.9, self.10, self.11, self.12, self.13, self.14, self.15, self.16, self.17, self.18, self.19, self.20, self.21, self.22, self.23, self.24).parse_ensures(t9, Err(e)));
                assert((self.8, self.9, self.10, self.11, self.12, self.13, self.14, self.15, self.16, self.17, self.18, self.19, self.20, self.21, self.22, self.23, self.24).parse_ensures(t8, Err(e)));
                assert((self.7, self.8, self.9, self.10, self.11, self.12, self.13, self.14, self.15, self.16, self.17, self.18, self.19, self.20, self.21, self.22, self.23, self.24).parse_ensures(t7, Err(e)));
                assert((self.6, self.7, self.8, self.9, self.10, self.11, self.12, self.13, self.14, self.15, self.16, self.17, self.18, self.19, self.20, self.21, self.22, self.23, self.24).parse_ensures(t6, Err(e)));
                assert((self.5, self.6, self.7, self.8, self.9, self.10, self.11, self.12, self.13, self.14, self.15, self.16, self.17, self.18, self.19, self.20, self.21, self.22, self.23, self.24).parse_ensures(t5, Err(e)));
                assert((self.4, self.5, self.6, self.7, self.8, self.9, self.10, self.11, self.12, self.13, self.14, self.15, self.16, self.17, self.18, self.19, self.20, self.21, self.22, self.23, self.24).parse_ensures(t4, Err(e)));
                assert((self.3, self.4, self.5, self.6, self.7, self.8, self.9, self.10, self.11, self.12, self.13, self.14, self.15, self.16, self.17, self.18, self.19, self.20, self.21, self.22, self.23, self.24).parse_ensures(t3, Err(e)));
                assert((self.2, self.3, self.4, self.5, self.6, self.7, self.8, self.9, self.10, self.11, self.12, self.13, self.14, self.15, self.16, self.17, self.18, self.19, self.20, self.21, self.22, self.23, self.24).parse_ensures(t2, Err(e)));
                assert((self.1, self.2, self.3, self.4, self.5, self.6, self.7, self.8, self.9, self.10, self.11, self.12, self.13, self.14, self.15, self.16, self.17, self.18, self.19, self.20, self.21, self.22, self.23, self.24).parse_ensures(t1, Err(e)));
                return Err(e);
            },
        };
        assert(self.12.parse_ensures(t12, Ok((m, t13))));
        assert((self.13, self.14, self.15, self.16, self.17, self.18, self.19, self.20, self.21, self.22, self.23, self.24).parse_requires(t13));
        let (n, t14) = match self.13.parse(t13) {
            Ok(r) => r,
            Err(e) => {
                assert((self.13, self.14, self.15, self.16, self.17, self.18, self.19, self.20, self.21, self.22, self.23, self.24).parse_ensures(t13, Err(e)));
                assert((self.12, self.13, self.14, self.15, self.16, self.17, self.18, self.19, self.20, self.21, self.22, self.23, self.24).parse_ensures(t12, Err(e)));
                assert((self.11, self.12, self.13, self.14, self.15, self.16, self.17, self.18, self.19, self.20, self.21, self.22, self.23, self.24).parse_ensures(t11, Err(e)));
                assert((self.10, self.11, self.12, self.13, self.14, self.15, self.16, self.17, self.18, self.19, self.20, self.21, self.22, self.23, self.24).parse_ensures(t10, Err(e)));
                assert((self.9, self.10, self.11, self.12, self.13, self.14, self.15, self.16, self.17, self.18, self.19, self.20, self.21, self.22, self.23, self.24).parse_ensures(t9, Err(e)));
                assert((self.8, self.9, self.10, self.11, self.12, self.13, self.14, self.15, self.16, self.17, self.18, self.19, self.20, self.21, self.22, self.23, self.24).parse_ensures(t8, Err(e)));
                assert((self.7, self.8, self.9, self.10, self.11, self.12, self.13, self.14, self.15, self.16, self.17, self.18, self.19, self.20, self.21, self.22, self.23, self.24).parse_ensures(t7, Err(e)));
                assert((self.6, self.7, self.8, self.9, self.10, self.11, self.12, self.13, self.14, self.15, self.16, self.17, self.18, self.19, self.20, self.21, self.22, self.23, self.24).parse_ensures(t6, Err(e)));
                assert((self.5, self.6, self.7, self.8, self.9, self.10, self.11, self.12, self.13, self.14, self.15, self.16, self.17, self.18, self.19, self.20, self.21, self.22, self.23, self.24).parse_ensures(t5, Err(e)));
                assert((self.4, self.5, self.6, self.7, self.8, self.9, self.10, self.11, self.12, self.13, self.14, self.15, self.16, self.17, self.18, self.19, self.20, self.21, self.22, self.23, self.24).parse_ensures(t4, Err(e)));
                assert((self.3, self.4, self.5, self.6, self.7, self.8, self.9, self.10, self.11, self.12, self.13, self.14, self.15, self.16, self.17, self.18, self.19, self.20, self.21, self.22, self.23, self.24).parse_ensures(t3, Err(e)));
                assert((self.2, self.3, self.4, self.5, self.6, self.7, self.8, self.9, self.10, self.11, self.12, self.13, self.14, self.15, self.16, self.17, self.18, self.19, self.20, self.21, self.22, self.23, self.24).parse_ensures(t2, Err(e)));
                assert((self.1, self.2, self.3, self.4, self.5, self.6, self.7, self.8, self.9, self.10, self.11, self.12, self.13, self.14, self.15, self.16, self.17, self.18, self.19, self.20, self.21, self.22, self.23, self.24).parse_ensures(t1, Err(e)));
                return Err(e);
            },
        };
        assert(self.13.parse_ensures(t13, Ok((n, t14))));
        assert((self.14, self.15, self.16, self.17, self.18, self.19, self.20, self.21, self.22, self.23, self.24).parse_requires(t14));
        let (o, t15) = match self.14.parse(t14) {
            Ok(r) => r,
            Err(e) => {
                assert((self.14, self.15, self.16, self.17, self.18, self.19, self.20, self.21, self.22, self.23, self.24).parse_ensures(t14, Err(e)));
                assert((self.13, self.14, self.15, self.16, self.17, self.18, self.19, self.20, self.21, self.22, self.23, self.24).parse_ensures(t13, Err(e)));
                assert((self.12, self.13, self.14, self.15, self.16, self.17, self.18, self.19, self.20, self.21, self.22, self.23, self.24).parse_ensures(t12, Err(e)));
                assert((self.11, self.12, self.13, self.14, self.15, self.16, self.17, self.18, self.19, self.20, self.21, self.22, self.23, self.24).parse_ensures(t11, Err(e)));
                assert((self.10, self.11, self.12, self.13, self.14, self.15, self.16, self.17, self.18, self.19, self.20, self.21, self.22, self.23, self.24).parse_ensures(t10, Err(e)));
                assert((self.9, self.10, self.11, self.12, self.13, self.14, self.15, self.16, self.17, self.18, self.19, self.20, self.21, self.22, self.23, self.24).parse_ensures(t9, Err(e)));
                assert((self.8, self.9, self.10, self.11, self.12, self.13, self.14, self.15, self.16, self.17, self.18, self.19, self.20, self.21, self.22, self.23, self.24).parse_ensures(t8, Err(e)));
                assert((self.7, self.8, self.9, self.10, self.11, self.12, self.13, self.14, self.15, self.16, self.17, self.18, self.19, self.20, self.21, self.22, self.23, self.24).parse_ensures(t7, Err(e)));
                assert((self.6, self.7, self.8, self.9, self.10, self.11, self.12, self.13, self.14, self.15, self.16, self.17, self.18, self.19, self.20, self.21, self.22, self.23, self.24).parse_ensures(t6, Err(e)));
                assert((self.5, self.6, self.7, self.8, self.9, self.10, self.11, self.12, self.13, self.14, self.15, self.16, self.17, self.18, self.19, self.20, self.21, self.22, self.23, self.24).parse_ensures(t5, Err(e)));
                assert((self.4, self.5, self.6, self.7, self.8, self.9, self.10, self.11, self.12, self.13, self.14, self.15, self.16, self.17, self.18, self.19, self.20, self.21, self.22, self.23, self.24).parse_ensures(t4, Err(e)));
                assert((self.3, self.4, self.5, self.6, self.7, self.8, self.9, self.10, self.11, self.12, self.13, self.14, self.15, self.16, self.17, self.18, self.19, self.20, self.21, self.22, self.23, self.24).parse_ensures(t3, Err(e)));
                assert((self.2, self.3, self.4, self.5, self.6, self.7, self.8, self.9, self.10, self.11, self.12, self.13, self.14, self.15, self.16, self.17, self.18, self.19, self.20, self.21, self.22, self.23, self.24).parse_ensures(t2, Err(e)));
                assert((self.1, self.2, self.3, self.4, self.5, self.6, self.7, self.8, self.9, self.10, self.11, self.12, self.13, self.14, self.15, self.16, self.17, self.18, self.19, self.20, self.21, self.22, self.23, self.24).parse_ensures(t1, Err(e)));
                return Err(e);
            },
        };
        assert(self.14.parse_ensures(t14, Ok((o, t15))));
        assert((self.15, self.16, self.17, self.18, self.19, self.20, self.21, self.22, self.23, self.24).parse_requires(t15));
        let (p, t16) = match self.15.parse(t15) {
            Ok(r) => r,
            Err(e) => {
                assert((self.15, self.16, self.17, self.18, self.19, self.20, self.21, self.22, self.23, self.24).parse_ensures(t15, Err(e)));
                assert((self.14, self.15, self.16, self.17, self.18, self.19, self.20, self.21, self.22, self.23, self.24).parse_ensures(t14, Err(e)));
                assert((self.13, self.14, self.15, self.16, self.17, self.18, self.19, self.20, self.21, self.22, self.23, self.24).parse_ensures(t13, Err(e)));
                assert((self.12, self.13, self.14, self.15, self.16, self.17, self.18, self.19, self.20, self.21, self.22, self.23, self.24).parse_ensures(t12, Err(e)));
                assert((self.11, self.12, self.13, self.14, self.15, self.16, self.17, self.18, self.19, self.20, self.21, self.22, self.23, self.24).parse_ensures(t11, Err(e)));
                assert((self.10, self.11, self.12, self.13, self.14, self.15, self.16, self.17, self.18, self.19, self.20, self.21, self.22, self.23, self.24).parse_ensures(t10, Err(e)));
                assert((self.9, self.10, self.11, self.12, self.13, self.14, self.15, self.16, self.17, self.18, self.19, self.20, self.21, self.22, self.23, self.24).parse_ensures(t9, Err(e)));
                assert((self.8, self.9, self.10, self.11, self.12, self.13, self.14, self.15, self.16, self.17, self.18, self.19, self.20, self.21, self.22, self.23, self.24).parse_ensures(t8, Err(e)));
                assert((self.7, self.8, self.9, self.10, self.11, self.12, self.13, self.14, self.15, self.16, self.17, self.18, self.19, self.20, self.21, self.22, self.23, self.24).parse_ensures(t7, Err(e)));
                assert((self.6, self.7, self.8, self.9, self.10, self.11, self.12, self.13, self.14, self.15, self.16, self.17, self.18, self.19, self.20, self.21, self.22, self.23, self.24).parse_ensures(t6, Err(e)));
                assert((self.5, self.6, self.7, self.8, self.9, self.10, self.11, self.12, self.13, self.14, self.15, self.16, self.17, self.18, self.19, self.20, self.21, self.22, self.23, self.24).parse_ensures(t5, Err(e)));
                assert((self.4, self.5, self.6, self.7, self.8, self.9, self.10, self.11, self.12, self.13, self.14, self.15, self.16, self.17, self.18, self.19, self.20, self.21, self.22, self.23, self.24).parse_ensures(t4, Err(e)));
                assert((self.3, self.4, self.5, self.6, self.7, self.8, self.9, self.10, self.11, self.12, self.13, self.14, self.15, self.16, self.17, self.18, self.19, self.20, self.21, self.22, self.23, self.24).parse_ensures(t3, Err(e)));
                assert((self.2, self.3, self.4, self.5, self.6, self.7, self.8, self.9, self.10, self.11, self.12, self.13, self.14, self.15, self.16, self.17, self.18, self.19, self.20, self.21, self.22, self.23, self.24).parse_ensures(t2, Err(e)));
                assert((self.1, self.2, self.3, self.4, self.5, self.6, self.7, self.8, self.9, self.10, self.11, self.12, self.13, self.14, self.15, self.16, self.17, self.18, self.19, self.20, self.21, self.22, self.23, self.24).parse_ensures(t1, Err(e)));
                return Err(e);
            },
        };
        assert(self.15.parse_ensures(t15, Ok((p, t16))));
        assert((self.16, self.17, self.18, self.19, self.20, self.21, self.22, self.23, self.24).parse_requires(t16));
        let (q, t17) = match self.16.parse(t16) {
            Ok(r) => r,
            Err(e) => {
                assert((self.16, self.17, self.18, self.19, self.20, self.21, self.22, self.23, self.24).parse_ensures(t16, Err(e)));
                assert((self.15, self.16, self.17, self.18, self.19, self.20, self.21, self.22, self.23, self.24).parse_ensures(t15, Err(e)));
                assert((self.14, self.15, self.16, self.17, self.18, self.19, self.20, self.21, self.22, self.23, self.24).parse_ensures(t14, Err(e)));
                assert((self.13, self.14, self.15, self.16, self.17, self.18, self.19, self.20, self.21, self.22, self.23, self.24).parse_ensures(t13, Err(e)));
                assert((self.12, self.13, self.14, self.15, self.16, self.17, self.18, self.19, self.20, self.21, self.22, self.23, self.24).parse_ensures(t12, Err(e)));
                assert((self.11, self.12, self.13, self.14, self.15, self.16, self.17, self.18, self.19, self.20, self.21, self.22, self.23, self.24).parse_ensures(t11, Err(e)));
                assert((self.10, self.11, self.12, self.13, self.14, self.15, self.16, self.17, self.18, self.19, self.20, self.21, self.22, self.23, self.24).parse_ensures(t10, Err(e)));
                assert((self.9, self.10, self.11, self.12, self.13, self.14, self.15, self.16, self.17, self.18, self.19, self.20, self.21, self.22, self.23, self.24).parse_ensures(t9, Err(e)));
                assert((self.8, self.9, self.10, self.11, self.12, self.13, self.14, self.15, self.16, self.17, self.18, self.19, self.20, self.21, self.22, self.23, self.24).parse_ensures(t8, Err(e)));
                assert((self.7, self.8, self.9, self.10, self.11, self.12, self.13, self.14, self.15, self.16, self.17, self.18, self.19, self.20, self.21, self.22, self.23, self.24).parse_ensures(t7, Err(e)));
                assert((self.6, self.7, self.8, self.9, self.10, self.11, self.12, self.13, self.14, self.15, self.16, self.17, self.18, self.19, self.20, self.21, self.22, self.23, self.24).parse_ensures(t6, Err(e)));
                assert((self.5, self.6, self.7, self.8, self.9, self.10, self.11, self.12, self.13, self.14, self.15, self.16, self.17, self.18, self.19, self.20, self.21, self.22, self.23, self.24).parse_ensures(t5, Err(e)));
                assert((self.4, self.5, self.6, self.7, self.8, self.9, self.10, self.11, self.12, self.13, self.14, self.15, self.16, self.17, self.18, self.19, self.20, self.21, self.22, self.23, self.24).parse_ensures(t4, Err(e)));
                assert((self.3, self.4, self.5, self.6, self.7, self.8, self.9, self.10, self.11, self.12, self.13, self.14, self.15, self.16, self.17, self.18, self.19, self.20, self.21, self.22, self.23, self.24).parse_ensures(t3, Err(e)));
                assert((self.2, self.3, self.4, self.5, self.6, self.7, self.8, self.9, self.10, self.11, self.12, self.13, self.14, self.15, self.16, self.17, self.18, self.19, self.20, self.21, self.22, self.23, self.24).parse_ensures(t2, Err(e)));
                assert((self.1, self.2, self.3, self.4, self.5, self.6, self.7, self.8, self.9, self.10, self.11, self.12, self.13, self.14, self.15, self.16, self.17, self.18, self.19, self.20, self.21, self.22, self.23, self.24).parse_ensures(t1, Err(e)));
                return Err(e);
            },
        };
        assert(self.16.parse_ensures(t16, Ok((q, t17))));
        assert((self.17, self.18, self.19, self.20, self.21, self.22, self.23, self.24).parse_requires(t17));
        let (r, t18) = match self.17.parse(t17) {
            Ok(r) => r,
            Err(e) => {
                assert((self.17, self.18, self.19, self.20, self.21, self.22, self.23, self.24).parse_ensures(t17, Err(e)));
                assert((self.16, self.17, self.18, self.19, self.20, self.21, self.22, self.23, self.24).parse_ensures(t16, Err(e)));
                assert((self.15, self.16, self.17, self.18, self.19, self.20, self.21, self.22, self.23, self.24).parse_ensures(t15, Err(e)));
                assert((self.14, self.15, self.16, self.17, self.18, self.19, self.20, self.21, self.22, self.23, self.24).parse_ensures(t14, Err(e)));
                assert((self.13, self.14, self.15, self.16, self.17, self.18, self.19, self.20, self.21, self.22, self.23, self.24).parse_ensures(t13, Err(e)));
                assert((self.12, self.13, self.14, self.15, self.16, self.17, self.18, self.19, self.20, self.21, self.22, self.23, self.24).parse_ensures(t12, Err(e)));
                assert((self.11, self.12, self.13, self.14, self.15, self.16, self.17, self.18, self.19, self.20, self.21, self.22, self.23, self.24).parse_ensures(t11, Err(e)));
                assert((self.10, self.11, self.12, self.13, self.14, self.15, self.16, self.17, self.18, self.19, self.20, self.21, self.22, self.23, self.24).parse_ensures(t10, Err(e)));
                assert((self.9, self.10, self.11, self.12, self.13, self.14, self.15, self.16, self.17, self.18, self.19, self.20, self.21, self.22, self.23, self.24).parse_ensures(t9, Err(e)));
                assert((self.8, self.9, self.10, self.11, self.12, self.13, self.14, self.15, self.16, self.17, self.18, self.19, self.20, self.21, self.22, self.23, self.24).parse_ensures(t8, Err(e)));
                assert((self.7, self.8, self.9, self.10, self.11, self.12, self.13, self.14, self.15, self.16, self.17, self.18, self.19, self.20, self.21, self.22, self.23, self.24).parse_ensures(t7, Err(e)));
                assert((self.6, self.7, self.8, self.9, self.10, self.11, self.12, self.13, self.14, self.15, self.16, self.17, self.18, self.19, self.20, self.21, self.22, self.23, self.24).parse_ensures(t6, Err(e)));
                assert((self.5, self.6, self.7, self.8, self.9, self.10, self.11, self.12, self.13, self.14, self.15, self.16, self.17, self.18, self.19, self.20, self.21, self.22, self.23, self.24).parse_ensures(t5, Err(e)));
                assert((self.4, self.5, self.6, self.7, self.8, self.9, self.10, self.11, self.12, self.13, self.14, self.15, self.16, self.17, self.18, self.19, self.20, self.21, self.22, self.23, self.24).parse_ensures(t4, Err(e)));
                assert((self.3, self.4, self.5, self.6, self.7, self.8, self.9, self.10, self.11, self.12, self.13, self.14, self.15, self.16, self.17, self.18, self.19, self.20, self.21, self.22, self.23, self.24).parse_ensures(t3, Err(e)));
                assert((self.2, self.3, self.4, self.5, self.6, self.7, self.8, self.9, self.10, self.11, self.12, self.13, self.14, self.15, self.16, self.17, self.18, self.19, self.20, self.21, self.22, self.23, self.24).parse_ensures(t2, Err(e)));
                assert((self.1, self.2, self.3, self.4, self.5, self.6, self.7, self.8, self.9, self.10, self.11, self.12, self.13, self.14, self.15, self.16, self.17, self.18, self.19, self.20, self.21, self.22, self.23, self.24).parse_ensures(t1, Err(e)));
                return Err(e);
            },
        };
        assert(self.17.parse_ensures(t17, Ok((r, t18))));
        assert((self.18, self.19, self.20, self.21, self.22, self.23, self.24).parse_requires(t18));
        let (s, t19) = match self.18.parse(t18) {
            Ok(r) => r,
            Err(e) => {
                assert((self.18, self.19, self.20, self.21, self.22, self.23, self.24).parse_ensures(t18, Err(e)));
                assert((self.17, self.18, self.19, self.20, self.21, self.22, self.23, self.24).parse_ensures(t17, Err(e)));
                assert((self.16, self.17, self.18, self.19, self.20, self.21, self.22, self.23, self.24).parse_ensures(t16, Err(e)));
                assert((self.15, self.16, self.17, self.18, self.19, self.20, self.21, self.22, self.23, self.24).parse_ensures(t15, Err(e)));
                assert((self.14, self.15, self.16, self.17, self.18, self.19, self.20, self.21, self.22, self.23, self.24).parse_ensures(t14, Err(e)));
                assert((self.13, self.14, self.15, self.16, self.17, self.18, self.19, self.20, self.21, self.22, self.23, self.24).parse_ensures(t13, Err(e)));
                assert((self.12, self.13, self.14, self.15, self.16, self.17, self.18, self.19, self.20, self.21, self.22, self.23, self.24).parse_ensures(t12, Err(e)));
                assert((self.11, self.12, self.13, self.14, self.15, self.16, self.17, self.18, self.19, self.20, self.21, self.22, self.23, self.24).parse_ensures(t11, Err(e)));
                assert((self.10, self.11, self.12, self.13, self.14, self.15, self.16, self.17, self.18, self.19, self.20, self.21, self.22, self.23, self.24).parse_ensures(t10, Err(e)));
                assert((self.9, self.10, self.11, self.12, self.13, self.14, self.15, self.16, self.17, self.18, self.19, self.20, self.21, self.22, self.23, self.24).parse_ensures(t9, Err(e)));
                assert((self.8, self.9, self.10, self.11, self.12, self.13, self.14, self.15, self.16, self.17, self.18, self.19, self.20, self.21, self.22, self.23, self.24).parse_ensures(t8, Err(e)));
                assert((self.7, self.8, self.9, self.10, self.11, self.12, self.13, self.14, self.15, self.16, self.17, self.18, self.19, self.20, self.21, self.22, self.23, self.24).parse_ensures(t7, Err(e)));
                assert((self.6, self.7, self.8, self.9, self.10, self.11, self.12, self.13, self.14, self.15, self.16, self.17, self.18, self.19, self.20, self.21, self.22, self.23, self.24).parse_ensures(t6, Err(e)));
                assert((self.5, self.6, self.7, self.8, self.9, self.10, self.11, self.12, self.13, self.14, self.15, self.16, self.17, self.18, self.19, self.20, self.21, self.22, self.23, self.24).parse_ensures(t5, Err(e)));
                assert((self.4, self.5, self.6, self.7, self.8, self.9, self.10, self.11, self.12, self.13, self.14, self.15, self.16, self.17, self.18, self.19, self.20, self.21, self.22, self.23, self.24).parse_ensures(t4, Err(e)));
                assert((self.3, self.4, self.5, self.6, self.7, self.8, self.9, self.10, self.11, self.12, self.13, self.14, self.15, self.16, self.17, self.18, self.19, self.20, self.21, self.22, self.23, self.24).parse_ensures(t3, Err(e)));
                assert((self.2, self.3, self.4, self.5, self.6, self.7, self.8, self.9, self.10, self.11, self.12, self.13, self.14, self.15, self.16, self.17, self.18, self.19, self.20, self.21, self.22, self.23, self.24).parse_ensures(t2, Err(e)));
                assert((self.1, self.2, self.3, self.4, self.5, self.6, self.7, self.8, self.9, self.10, self.11, self.12, self.13, self.14, self.15, self.16, self.17, self.18, self.19, self.20, self.21, self.22, self.23, self.24).parse_ensures(t1, Err(e)));
                return Err(e);
            },
        };
        assert(self.18.parse_ensures(t18, Ok((s, t19))));
        assert((self.19, self.20, self.21, self.22, self.23, self.24).parse_requires(t19));
        let (t, t20) = match self.19.parse(t19) {
            Ok(r) => r,
            Err(e) => {
                assert((self.19, self.20, self.21, self.22, self.23, self.24).parse_ensures(t19, Err(e)));
                assert((self.18, self.19, self.20, self.21, self.22, self.23, self.24).parse_ensures(t18, Err(e)));
                assert((self.17, self.18, self.19, self.20, self.21, self.22, self.23, self.24).parse_ensures(t17, Err(e)));
                assert((self.16, self.17, self.18, self.19, self.20, self.21, self.22, self.23, self.24).parse_ensures(t16, Err(e)));
                assert((self.15, self.16, self.17, self.18, self.19, self.20, self.21, self.22, self.23, self.24).parse_ensures(t15, Err(e)));
                assert((self.14, self.15, self.16, self.17, self.18, self.19, self.20, self.21, self.22, self.23, self.24).parse_ensures(t14, Err(e)));
                assert((self.13, self.14, self.15, self.16, self.17, self.18, self.19, self.20, self.21, self.22, self.23, self.24).parse_ensures(t13, Err(e)));
                assert((self.12, self.13, self.14, self.15, self.16, self.17, self.18, self.19, self.20, self.21, self.22, self.23, self.24).parse_ensures(t12, Err(e)));
                assert((self.11, self.12, self.13, self.14, self.15, self.16, self.17, self.18, self.19, self.20, self.21, self.22, self.23, self.24).parse_ensures(t11, Err(e)));
                assert((self.10, self.11, self.12, self.13, self.14, self.15, self.16, self.17, self.18, self.19, self.20, self.21, self.22, self.23, self.24).parse_ensures(t10, Err(e)));
                assert((self.9, self.10, self.11, self.12, self.13, self.14, self.15, self.16, self.17, self.18, self.19, self.20, self.21, self.22, self.23, self.24).parse_ensures(t9, Err(e)));
                assert((self.8, self.9, self.10, self.11, self.12, self.13, self.14, self.15, self.16, self.17, self.18, self.19, self.20, self.21, self.22, self.23, self.24).parse_ensures(t8, Err(e)));
                assert((self.7, self.8, self.9, self.10, self.11, self.12, self.13, self.14, self.15, self.16, self.17, self.18, self.19, self.20, self.21, self.22, self.23, self.24).parse_ensures(t7, Err(e)));
                assert((self.6, self.7, self.8, self.9, self.10, self.11, self.12, self.13, self.14, self.15, self.16, self.17, self.18, self.19, self.20, self.21, self.22, self.23, self.24).parse_ensures(t6, Err(e)));
                assert((self.5, self.6, self.7, self.8, self.9, self.10, self.11, self.12, self.13, self.14, self.15, self.16, self.17, self.18, self.19, self.20, self.21, self.22, self.23, self.24).parse_ensures(t5, Err(e)));
                assert((self.4, self.5, self.6, self.7, self.8, self.9, self.10, self.11, self.12, self.13, self.14, self.15, self.16, self.17, self.18, self.19, self.20, self.21, self.22, self.23, self.24).parse_ensures(t4, Err(e)));
                assert((self.3, self.4, self.5, self.6, self.7, self.8, self.9, self.10, self.11, self.12, self.13, self.14, self.15, self.16, self.17, self.18, self.19, self.20, self.21, self.22, self.23, self.24).parse_ensures(t3, Err(e)));
                assert((self.2, self.3, self.4, self.5, self.6, self.7, self.8, self.9, self.10, self.11, self.12, self.13, self.14, self.15, self.16, self.17, self.18, self.19, self.20, self.21, self.22, self.23, self.24).parse_ensures(t2, Err(e)));
                assert((self.1, self.2, self.3, self.4, self.5, self.6, self.7, self.8, self.9, self.10, self.11, self.12, self.13, self.14, self.15, self.16, self.17, self.18, self.19, self.20, self.21, self.22, self.23, self.24).parse_ensures(t1, Err(e)));
                return Err(e);
            },
        };
        assert(self.19.parse_ensures(t19, Ok((t, t20))));
        assert((self.20, self.21, self.22, self.23, self.24).parse_requires(t20));
        let (u, t21) = match self.20.parse(t20) {
            Ok(r) => r,
            Err(e) => {
                assert((self.20, self.21, self.22, self.23, self.24).parse_ensures(t20, Err(e)));
                assert((self.19, self.20, self.21, self.22, self.23, self.24).parse_ensures(t19, Err(e)));
                assert((self.18, self.19, self.20, self.21, self.22, self.23, self.24).parse_ensures(t18, Err(e)));
                assert((self.17, self.18, self.19, self.20, self.21, self.22, self.23, self.24).parse_ensures(t17, Err(e)));
                assert((self.16, self.17, self.18, self.19, self.20, self.21, self.22, self.23, self.24).parse_ensures(t16, Err(e)));
                assert((self.15, self.16, self.17, self.18, self.19, self.20, self.21, self.22, self.23, self.24).parse_ensures(t15, Err(e)));
                assert((self.14, self.15, self.16, self.17, self.18, self.19, self.20, self.21, self.22, self.23, self.24).parse_ensures(t14, Err(e)));
                assert((self.13, self.14, self.15, self.16, self.17, self.18, self.19, self.20, self.21, self.22, self.23, self.24).parse_ensures(t13, Err(e)));
                assert((self.12, self.13, self.14, self.15, self.16, self.17, self.18, self.19, self.20, self.21, self.22, self.23, self.24).parse_ensures(t12, Err(e)));
                assert((self.11, self.12, self.13, self.14, self.15, self.16, self.17, self.18, self.19, self.20, self.21, self.22, self.23, self.24).parse_ensures(t11, Err(e)));
                assert((self.10, self.11, self.12, self.13, self.14, self.15, self.16, self.17, self.18, self.19, self.20, self.21, self.22, self.23, self.24).parse_ensures(t10, Err(e)));
                assert((self.9, self.10, self.11, self.12, self.13, self.14, self.15, self.16, self.17, self.18, self.19, self.20, self.21, self.22, self.23, self.24).parse_ensures(t9, Err(e)));
                assert((self.8, self.9, self.10, self.11, self.12, self.13, self.14, self.15, self.16, self.17, self.18, self.19, self.20, self.21, self.22, self.23, self.24).parse_ensures(t8, Err(e)));
                assert((self.7, self.8, self.9, self.10, self.11, self.12, self.13, self.14, self.15, self.16, self.17, self.18, self.19, self.20, self.21, self.22, self.23, self.24).parse_ensures(t7, Err(e)));
                assert((self.6, self.7, self.8, self.9, self.10, self.11, self.12, self.13, self.14, self.15, self.16, self.17, self.18, self.19, self.20, self.21, self.22, self.23, self.24).parse_ensures(t6, Err(e)));
                assert((self.5, self.6, self.7, self.8, self.9, self.10, self.11, self.12, self.13, self.14, self.15, self.16, self.17, self.18, self.19, self.20, self.21, self.22, self.23, self.24).parse_ensures(t5, Err(e)));
                assert((self.4, self.5, self.6, self.7, self.8, self.9, self.10, self.11, self.12, self.13, self.14, self.15, self.16, self.17, self.18, self.19, self.20, self.21, self.22, self.23, self.24).parse_ensures(t4, Err(e)));
                assert((self.3, self.4, self.5, self.6, self.7, self.8, self.9, self.10, self.11, self.12, self.13, self.14, self.15, self.16, self.17, self.18, self.19, self.20, self.21, self.22, self.23, self.24).parse_ensures(t3, Err(e)));
                assert((self.2, self.3, self.4, self.5, self.6, self.7, self.8, self.9, self.10, self.11, self.12, self.13, self.14, self.15, self.16, self.17, self.18, self.19, self.20, self.21, self.22, self.23, self.24).parse_ensures(t2, Err(e)));
                assert((self.1, self.2, self.3, self.4, self.5, self.6, self.7, self.8, self.9, self.10, self.11, self.12, self.13, self.14, self.15, self.16, self.17, self.18, self.19, self.20, self.21, self.22, self.23, self.24).parse_ensures(t1, Err(e)));
                return Err(e);
            },
        };
        assert(self.20.parse_ensures(t20, Ok((u, t21))));
        assert((self.21, self.22, self.23, self.24).parse_requires(t21));
        let (v, t22) = match self.21.parse(t21) {
            Ok(r) => r,
            Err(e) => {
                assert((self.21, self.22, self.23, self.24).parse_ensures(t21, Err(e)));
                assert((self.20, self.21, self.22, self.23, self.24).parse_ensures(t20, Err(e)));
                assert((self.19, self.20, self.21, self.22, self.23, self.24).parse_ensures(t19, Err(e)));
                assert((self.18, self.19, self.20, self.21, self.22, self.23, self.24).parse_ensures(t18, Err(e)));
                assert((self.17, self.18, self.19, self.20, self.21, self.22, self.23, self.24).parse_ensures(t17, Err(e)));
                assert((self.16, self.17, self.18, self.19, self.20, self.21, self.22, self.23, self.24).parse_ensures(t16, Err(e)));
                assert((self.15, self.16, self.17, self.18, self.19, self.20, self.21, self.22, self.23, self.24).parse_ensures(t15, Err(e)));
                assert((self.14, self.15, self.16, self.17, self.18, self.19, self.20, self.21, self.22, self.23, self.24).parse_ensures(t14, Err(e)));
                assert((self.13, self.14, self.15, self.16, self.17, self.18, self.19, self.20, self.21, self.22, self.23, self.24).parse_ensures(t13, Err(e)));
                assert((self.12, self.13, self.14, self.15, self.16, self.17, self.18, self.19, self.20, self.21, self.22, self.23, self.24).parse_ensures(t12, Err(e)));
                assert((self.11, self.12, self.13, self.14, self.15, self.16, self.17, self.18, self.19, self.20, self.21, self.22, self.23, self.24).parse_ensures(t11, Err(e)));
                assert((self.10, self.11, self.12, self.13, self.14, self.15, self.16, self.17, self.18, self.19, self.20, self.21, self.22, self.23, self.24).parse_ensures(t10, Err(e)));
                assert((self.9, self.10, self.11, self.12, self.13, self.14, self.15, self.16, self.17, self.18, self.19, self.20, self.21, self.22, self.23, self.24).parse_ensures(t9, Err(e)));
                assert((self.8, self.9, self.10, self.11, self.12, self.13, self.14, self.15, self.16, self.17, self.18, self.19, self.20, self.21, self.22, self.23, self.24).parse_ensures(t8, Err(e)));
                assert((self.7, self.8, self.9, self.10, self.11, self.12, self.13, self.14, self.15, self.16, self.17, self.18, self.19, self.20, self.21, self.22, self.23, self.24).parse_ensures(t7, Err(e)));
                assert((self.6, self.7, self.8, self.9, self.10, self.11, self.12, self.13, self.14, self.15, self.16, self.17, self.18, self.19, self.20, self.21, self.22, self.23, self.24).parse_ensures(t6, Err(e)));
                assert((self.5, self.6, self.7, self.8, self.9, self.10, self.11, self.12, self.13, self.14, self.15, self.16, self.17, self.18, self.19, self.20, self.21, self.22, self.23, self.24).parse_ensures(t5, Err(e)));
                assert((self.4, self.5, self.6, self.7, self.8, self.9, self.10, self.11, self.12, self.13, self.14, self.15, self.16, self.17, self.18, self.19, self.20, self.21, self.22, self.23, self.24).parse_ensures(t4, Err(e)));
                assert((self.3, self.4, self.5, self.6, self.7, self.8, self.9, self.10, self.11, self.12, self.13, self.14, self.15, self.16, self.17, self.18, self.19, self.20, self.21, self.22, self.23, self.24).parse_ensures(t3, Err(e)));
                assert((self.2, self.3, self.4, self.5, self.6, self.7, self.8, self.9, self.10, self.11, self.12, self.13, self.14, self.15, self.16, self.17, self.18, self.19, self.20, self.21, self.22, self.23, self.24).parse_ensures(t2, Err(e)));
                assert((self.1, self.2, self.3, self.4, self.5, self.6, self.7, self.8, self.9, self.10, self.11, self.12, self.13, self.14, self.15, self.16, self.17, self.18, self.19, self.20, self.21, self.22, self.23, self.24).parse_ensures(t1, Err(e)));
                return Err(e);
            },
        };
        assert(self.21.parse_ensures(t21, Ok((v, t22))));
        assert((self.22, self.23, self.24).parse_requires(t22));
        let (w, t23) = match self.22.parse(t22) {
            Ok(r) => r,
            Err(e) => {
                assert((self.22, self.23, self.24).parse_ensures(t22, Err(e)));
                assert((self.21, self.22, self.23, self.24).parse_ensures(t21, Err(e)));
                assert((self.20, self.21, self.22, self.23, self.24).parse_ensures(t20, Err(e)));
                assert((self.19, self.20, self.21, self.22, self.23, self.24).parse_ensures(t19, Err(e)));
                assert((self.18, self.19, self.20, self.21, self.22, self.23, self.24).parse_ensures(t18, Err(e)));
                assert((self.17, self.18, self.19, self.20, self.21, self.22, self.23, self.24).parse_ensures(t17, Err(e)));
                assert((self.16, self.17, self.18, self.19, self.20, self.21, self.22, self.23, self.24).parse_ensures(t16, Err(e)));
                assert((self.15, self.16, self.17, self.18, self.19, self.20, self.21, self.22, self.23, self.24).parse_ensures(t15, Err(e)));
                assert((self.14, self.15, self.16, self.17, self.18, self.19, self.20, self.21, self.22, self.23, self.24).parse_ensures(t14, Err(e)));
                assert((self.13, self.14, self.15, self.16, self.17, self.18, self.19, self.20, self.21, self.22, self.23, self.24).parse_ensures(t13, Err(e)));
                assert((self.12, self.13, self.14, self.15, self.16, self.17, self.18, self.19, self.20, self.21, self.22, self.23, self.24).parse_ensures(t12, Err(e)));
                assert((self.11, self.12, self.13, self.14, self.15, self.16, self.17, self.18, self.19, self.20, self.21, self.22, self.23, self.24).parse_ensures(t11, Err(e)));
                assert((self.10, self.11, self.12, self.13, self.14, self.15, self.16, self.17, self.18, self.19, self.20, self.21, self.22, self.23, self.24).parse_ensures(t10, Err(e)));
                assert((self.9, self.10, self.11, self.12, self.13, self.14, self.15, self.16, self.17, self.18, self.19, self.20, self.21, self.22, self.23, self.24).parse_ensures(t9, Err(e)));
                assert((self.8, self.9, self.10, self.11, self.12, self.13, self.14, self.15, self.16, self.17, self.18, self.19, self.20, self.21, self.22, self.23, self.24).parse_ensures(t8, Err(e)));
                assert((self.7, self.8, self.9, self.10, self.11, self.12, self.13, self.14, self.15, self.16, self.17, self.18, self.19, self.20, self.21, self.22, self.23, self.24).parse_ensures(t7, Err(e)));
                assert((self.6, self.7, self.8, self.9, self.10, self.11, self.12, self.13, self.14, self.15, self.16, self.17, self.18, self.19, self.20, self.21, self.22, self.23, self.24).parse_ensures(t6, Err(e)));
                assert((self.5, self.6, self.7, self.8, self.9, self.10, self.11, self.12, self.13, self.14, self.15, self.16, self.17, self.18, self.19, self.20, self.21, self.22, self.23, self.24).parse_ensures(t5, Err(e)));
                assert((self.4, self.5, self.6, self.7, self.8, self.9, self.10, self.11, self.12, self.13, self.14, self.15, self.16, self.17, self.18, self.19, self.20, self.21, self.22, self.23, self.24).parse_ensures(t4, Err(e)));
                assert((self.3, self.4, self.5, self.6, self.7, self.8, self.9, self.10, self.11, self.12, self.13, self.14, self.15, self.16, self.17, self.18, self.19, self.20, self.21, self.22, self.23, self.24).parse_ensures(t3, Err(e)));
                assert((self.2, self.3, self.4, self.5, self.6, self.7, self.8, self.9, self.10, self.11, self.12, self.13, self.14, self.15, self.16, self.17, self.18, self.19, self.20, self.21, self.22, self.23, self.24).parse_ensures(t2, Err(e)));
                assert((self.1, self.2, self.3, self.4, self.5, self.6, self.7, self.8, self.9, self.10, self.11, self.12, self.13, self.14, self.15, self.16, self.17, self.18, self.19, self.20, self.21, self.22, self.23, self.24).parse_ensures(t1, Err(e)));
                return Err(e);
            },
        };
        assert(self.22.parse_ensures(t22, Ok((w, t23))));
        assert((self.23, self.24).parse_requires(t23));
        let (x, t24) = match self.23.parse(t23) {
            Ok(r) => r,
            Err(e) => {
                assert((self.23, self.24).parse_ensures(t23, Err(e)));
                assert((self.22, self.23, self.24).parse_ensures(t22, Err(e)));
                assert((self.21, self.22, self.23, self.24).parse_ensures(t21, Err(e)));
                assert((self.20, self.21, self.22, self.23, self.24).parse_ensures(t20, Err(e)));
                assert((self.19, self.20, self.21, self.22, self.23, self.24).parse_ensures(t19, Err(e)));
                assert((self.18, self.19, self.20, self.21, self.22, self.23, self.24).parse_ensures(t18, Err(e)));
                assert((self.17, self.18, self.19, self.20, self.21, self.22, self.23, self.24).parse_ensures(t17, Err(e)));
                assert((self.16, self.17, self.18, self.19, self.20, self.21, self.22, self.23, self.24).parse_ensures(t16, Err(e)));
                assert((self.15, self.16, self.17, self.18, self.19, self.20, self.21, self.22, self.23, self.24).parse_ensures(t15, Err(e)));
                assert((self.14, self.15, self.16, self.17, self.18, self.19, self.20, self.21, self.22, self.23, self.24).parse_ensures(t14, Err(e)));
                assert((self.13, self.14, self.15, self.16, self.17, self.18, self.19, self.20, self.21, self.22, self.23, self.24).parse_ensures(t13, Err(e)));
                assert((self.12, self.13, self.14, self.15, self.16, self.17, self.18, self.19, self.20, self.21, self.22, self.23, self.24).parse_ensures(t12, Err(e)));
                assert((self.11, self.12, self.13, self.14, self.15, self.16, self.17, self.18, self.19, self.20, self.21, self.22, self.23, self.24).parse_ensures(t11, Err(e)));
                assert((self.10, self.11, self.12, self.13, self.14, self.15, self.16, self.17, self.18, self.19, self.20, self.21, self.22, self.23, self.24).parse_ensures(t10, Err(e)));
                assert((self.9, self.10, self.11, self.12, self.13, self.14, self.15, self.16, self.17, self.18, self.19, self.20, self.21, self.22, self.23, self.24).parse_ensures(t9, Err(e)));
                assert((self.8, self.9, self.10, self.11, self.12, self.13, self.14, self.15, self.16, self.17, self.18, self.19, self.20, self.21, self.22, self.23, self.24).parse_ensures(t8, Err(e)));
                assert((self.7, self.8, self.9, self.10, self.11, self.12, self.13, self.14, self.15, self.16, self.17, self.18, self.19, self.20, self.21, self.22, self.23, self.24).parse_ensures(t7, Err(e)));
                assert((self.6, self.7, self.8, self.9, self.10, self.11, self.12, self.13, self.14, self.15, self.16, self.17, self.18, self.19, self.20, self.21, self.22, self.23, self.24).parse_ensures(t6, Err(e)));
                assert((self.5, self.6, self.7, self.8, self.9, self.10, self.11, self.12, self.13, self.14, self.15, self.16, self.17, self.18, self.19, self.20, self.21, self.22, self.23, self.24).parse_ensures(t5, Err(e)));
                assert((self.4, self.5, self.6, self.7, self.8, self.9, self.10, self.11, self.12, self.13, self.14, self.15, self.16, self.17, self.18, self.19, self.20, self.21, self.22, self.23, self.24).parse_ensures(t4, Err(e)));
                assert((self.3, self.4, self.5, self.6, self.7, self.8, self.9, self.10, self.11, self.12, self.13, self.14, self.15, self.16, self.17, self.18, self.19, self.20, self.21, self.22, self.23, self.24).parse_ensures(t3, Err(e)));
                assert((self.2, self.3, self.4, self.5, self.6, self.7, self.8, self.9, self.10, self.11, self.12, self.13, self.14, self.15, self.16, self.17, self.18, self.19, self.20, self.21, self.22, self.23, self.24).parse_ensures(t2, Err(e)));
                assert((self.1, self.2, self.3, self.4, self.5, self.6, self.7, self.8, self.9, self.10, self.11, self.12, self.13, self.14, self.15, self.16, self.17, self.18, self.19, self.20, self.21, self.22, self.23, self.24).parse_ensures(t1, Err(e)));
                return Err(e);
            },
        };
        assert(self.23.parse_ensures(t23, Ok((x, t24))));
        let (y, t25) = match self.24.parse(t24) {
            Ok(r) => r,
            Err(e) => {
                assert((self.23, self.24).parse_ensures(t23, Err(e)));
                assert((self.22, self.23, self.24).parse_ensures(t22, Err(e)));
                assert((self.21, self.22, self.23, self.24).parse_ensures(t21, Err(e)));
                assert((self.20, self.21, self.22, self.23, self.24).parse_ensures(t20, Err(e)));
                assert((self.19, self.20, self.21, self.22, self.23, self.24).parse_ensures(t19, Err(e)));
                assert((self.18, self.19, self.20, self.21, self.22, self.23, self.24).parse_ensures(t18, Err(e)));
                assert((self.17, self.18, self.19, self.20, self.21, self.22, self.23, self.24).parse_ensures(t17, Err(e)));
                assert((self.16, self.17, self.18, self.19, self.20, self.21, self.22, self.23, self.24).parse_ensures(t16, Err(e)));
                assert((self.15, self.16, self.17, self.18, self.19, self.20, self.21, self.22, self.23, self.24).parse_ensures(t15, Err(e)));
                assert((self.14, self.15, self.16, self.17, self.18, self.19, self.20, self.21, self.22, self.23, self.24).parse_ensures(t14, Err(e)));
                assert((self.13, self.14, self.15, self.16, self.17, self.18, self.19, self.20, self.21, self.22, self.23, self.24).parse_ensures(t13, Err(e)));
                assert((self.12, self.13, self.14, self.15, self.16, self.17, self.18, self.19, self.20, self.21, self.22, self.23, self.24).parse_ensures(t12, Err(e)));
                assert((self.11, self.12, self.13, self.14, self.15, self.16, self.17, self.18, self.19, self.20, self.21, self.22, self.23, self.24).parse_ensures(t11, Err(e)));
                assert((self.10, self.11, self.12, self.13, self.14, self.15, self.16, self.17, self.18, self.19, self.20, self.21, self.22, self.23, self.24).parse_ensures(t10, Err(e)));
                assert((self.9, self.10, self.11, self.12, self.13, self.14, self.15, self.16, self.17, self.18, self.19, self.20, self.21, self.22, self.23, self.24).parse_ensures(t9, Err(e)));
                assert((self.8, self.9, self.10, self.11, self.12, self.13, self.14, self.15, self.16, self.17, self.18, self.19, self.20, self.21, self.22, self.23, self.24).parse_ensures(t8, Err(e)));
                assert((self.7, self.8, self.9, self.10, self.11, self.12, self.13, self.14, self.15, self.16, self.17, self.18, self.19, self.20, self.21, self.22, self.23, self.24).parse_ensures(t7, Err(e)));
                assert((self.6, self.7, self.8, self.9, self.10, self.11, self.12, self.13, self.14, self.15, self.16, self.17, self.18, self.19, self.20, self.21, self.22, self.23, self.24).parse_ensures(t6, Err(e)));
                assert((self.5, self.6, self.7, self.8, self.9, self.10, self.11, self.12, self.13, self.14, self.15, self.16, self.17, self.18, self.19, self.20, self.21, self.22, self.23, self.24).parse_ensures(t5, Err(e)));
                assert((self.4, self.5, self.6, self.7, self.8, self.9, self.10, self.11, self.12, self.13, self.14, self.15, self.16, self.17, self.18, self.19, self.20, self.21, self.22, self.23, self.24).parse_ensures(t4, Err(e)));
                assert((self.3, self.4, self.5, self.6, self.7, self.8, self.9, self.10, self.11, self.12, self.13, self.14, self.15, self.16, self.17, self.18, self.19, self.20, self.21, self.22, self.23, self.24).parse_ensures(t3, Err(e)));
                assert((self.2, self.3, self.4, self.5, self.6, self.7, self.8, self.9, self.10, self.11, self.12, self.13, self.14, self.15, self.16, self.17, self.18, self.19, self.20, self.21, self.22, self.23, self.24).parse_ensures(t2, Err(e)));
                assert((self.1, self.2, self.3, self.4, self.5, self.6, self.7, self.8, self.9, self.10, self.11, self.12, self.13, self.14, self.15, self.16, self.17, self.18, self.19, self.20, self.21, self.22, self.23, self.24).parse_ensures(t1, Err(e)));
                return Err(e);
            },
        };
        assert((self.23, self.24).parse_ensures(t23, Ok(((x, y), t25))));
        assert((self.22, self.23, self.24).parse_ensures(t22, Ok(((w, x, y), t25))));
        assert((self.21, self.22, self.23, self.24).parse_ensures(t21, Ok(((v, w, x, y), t25))));
        assert((self.20, self.21, self.22, self.23, self.24).parse_ensures(t20, Ok(((u, v, w, x, y), t25))));
        assert((self.19, self.20, self.21, self.22, self.23, self.24).parse_ensures(t19, Ok(((t, u, v, w, x, y), t25))));
        assert((self.18, self.19, self.20, self.21, self.22, self.23, self.24).parse_ensures(t18, Ok(((s, t, u, v, w, x, y), t25))));
        assert((self.17, self.18, self.19, self.20, self.21, self.22, self.23, self.24).parse_ensures(t17, Ok(((r, s, t, u, v, w, x, y), t25))));
        assert((self.16, self.17, self.18, self.19, self.20, self.21, self.22, self.23, self.24).parse_ensures(t16, Ok(((q, r, s, t, u, v, w, x, y), t25))));
        assert((self.15, self.16, self.17, self.18, self.19, self.20, self.21, self.22, self.23, self.24).parse_ensures(t15, Ok(((p, q, r, s, t, u, v, w, x, y), t25))));
        assert((self.14, self.15, self.16, self.17, self.18, self.19, self.20, self.21, self.22, self.23, self.24).parse_ensures(t14, Ok(((o, p, q, r, s, t, u, v, w, x, y), t25))));
        assert((self.13, self.14, self.15, self.16, self.17, self.18, self.19, self.20, self.21, self.22, self.23, self.24).parse_ensures(t13, Ok(((n, o, p, q, r, s, t, u, v, w, x, y), t25))));
        assert((self.12, self.13, self.14, self.15, self.16, self.17, self.18, self.19, self.20, self.21, self.22, self.23, self.24).parse_ensures(t12, Ok(((m, n, o, p, q, r, s, t, u, v, w, x, y), t25))));
        assert((self.11, self.12, self.13, self.14, self.15, self.16, self.17, self.18, self.19, self.20, self.21, self.22, self.23, self.24).parse_ensures(t11, Ok(((l, m, n, o, p, q, r, s, t, u, v, w, x, y), t25))));
        assert((self.10, self.11, self.12, self.13, self.14, self.15, self.16, self.17, self.18, self.19, self.20, self.21, self.22, self.23, self.24).parse_ensures(t10, Ok(((k, l, m, n, o, p, q, r, s, t, u, v, w, x, y), t25))));
        assert((self.9, self.10, self.11, self.12, self.13, self.14, self.15, self.16, self.17, self.18, self.19, self.20, self.21, self.22, self.23, self.24).parse_ensures(t9, Ok(((j, k, l, m, n, o, p, q, r, s, t, u, v, w, x, y), t25))));
        assert((self.8, self.9, self.10, self.11, self.12, self.13, self.14, self.15, self.16, self.17, self.18, self.19, self.20, self.21, self.22, self.23, self.24).parse_ensures(t8, Ok(((i, j, k, l, m, n, o, p, q, r, s, t, u, v, w, x, y), t25))));
        assert((self.7, self.8, self.9, self.10, self.11, self.12, self.13, self.14, self.15, self.16, self.17, self.18, self.19, self.20, self.21, self.22, self.23, self.24).parse_ensures(t7, Ok(((h, i, j, k, l, m, n, o, p, q, r, s, t, u, v, w, x, y), t25))));
        assert((self.6, self.7, self.8, self.9, self.10, self.11, self.12, self.13, self.14, self.15, self.16, self.17, self.18, self.19, self.20, self.21, self.22, self.23, self.24).parse_ensures(t6, Ok(((g, h, i, j, k, l, m, n, o, p, q, r, s, t, u, v, w, x, y), t25))));
        assert((self.5, self.6, self.7, self.8, self.9, self.10, self.11, self.12, self.13, self.14, self.15, self.16, self.17, self.18, self.19, self.20, self.21, self.22, self.23, self.24).parse_ensures(t5, Ok(((f, g, h, i, j, k, l, m, n, o, p, q, r, s, t, u, v, w, x, y), t25))));
        assert((self.4, self.5, self.6, self.7, self.8, self.9, self.10, self.11, self.12, self.13, self.14, self.15, self.16, self.17, self.18, self.19, self.20, self.21, self.22, self.23, self.24).parse_ensures(t4, Ok(((e, f, g, h, i, j, k, l, m, n, o, p, q, r, s, t, u, v, w, x, y), t25))));
        assert((self.3, self.4, self.5, self.6, self.7, self.8, self.9, self.10, self.11, self.12, self.13, self.14, self.15, self.16, self.17, self.18, self.19, self.20, self.21, self.22, self.23, self.24).parse_ensures(t3, Ok(((d, e, f, g, h, i, j, k, l, m, n, o, p, q, r, s, t, u, v, w, x, y), t25))));
        assert((self.2, self.3, self.4, self.5, self.6, self.7, self.8, self.9, self.10, self.11, self.12, self.13, self.14, self.15, self.16, self.17, self.18, self.19, self.20, self.21, self.22, self.23, self.24).parse_ensures(t2, Ok(((c, d, e, f, g, h, i, j, k, l, m, n, o, p, q, r, s, t, u, v, w, x, y), t25))));
        assert((self.1, self.2, self.3, self.4, self.5, self.6, self.7, self.8, self.9, self.10, self.11, self.12, self.13, self.14, self.15, self.16, self.17, self.18, self.19, self.20, self.21, self.22, self.23, self.24).parse_ensures(t1, Ok(((b, c, d, e, f, g, h, i, j, k, l, m, n, o, p, q, r, s, t, u, v, w, x, y), t25))));
        Ok(((a, b, c, d, e, f, g, h, i, j, k, l, m, n, o, p, q, r, s, t, u, v, w, x, y), t25))
    }
}

/// A tuple of 25 deterministic parsers is deterministic.
pub proof fn lemma_tuple25_deterministic<Inp, Er, A, B, C, D, E, F, G, H, I, J, K, L, M, N, O, P, Q, R, S, T, U, V, W, X, Y>(t: (A, B, C, D, E, F, G, H, I, J, K, L, M, N, O, P, Q, R, S, T, U, V, W, X, Y))
    where
        A: Parser<Inp, Error = Er>,
        B: Parser<Inp, Error = Er>,
        C: Parser<Inp, Error = Er>,
        D: Parser<Inp, Error = Er>,
        E: Parser<Inp, Error = Er>,
        F: Parser<Inp, Error = Er>,
        G: Parser<Inp, Error = Er>,
        H: Parser<Inp, Error = Er>,
        I: Parser<Inp, Error = Er>,
        J: Parser<Inp, Error = Er>,
        K: Parser<Inp, Error = Er>,
        L: Parser<Inp, Error = Er>,
        M: Parser<Inp, Error = Er>,
        N: Parser<Inp, Error = Er>,
        O: Parser<Inp, Error = Er>,
        P: Parser<Inp, Error = Er>,
        Q: Parser<Inp, Error = Er>,
        R: Parser<Inp, Error = Er>,
        S: Parser<Inp, Error = Er>,
        T: Parser<Inp, Error = Er>,
        U: Parser<Inp, Error = Er>,
        V: Parser<Inp, Error = Er>,
        W: Parser<Inp, Error = Er>,
        X: Parser<Inp, Error = Er>,
        Y: Parser<Inp, Error = Er>,
    requires
        deterministic::<Inp, A>(t.0),
        deterministic::<Inp, B>(t.1),
        deterministic::<Inp, C>(t.2),
        deterministic::<Inp, D>(t.3),
        deterministic::<Inp, E>(t.4),
        deterministic::<Inp, F>(t.5),
        deterministic::<Inp, G>(t.6),
        deterministic::<Inp, H>(t.7),
        deterministic::<Inp, I>(t.8),
        deterministic::<Inp, J>(t.9),
        deterministic::<Inp, K>(t.10),
        deterministic::<Inp, L>(t.11),
        deterministic::<Inp, M>(t.12),
        deterministic::<Inp, N>(t.13),
        deterministic::<Inp, O>(t.14),
        deterministic::<Inp, P>(t.15),
        deterministic::<Inp, Q>(t.16),
        deterministic::<Inp, R>(t.17),
        deterministic::<Inp, S>(t.18),
        deterministic::<Inp, T>(t.19),
        deterministic::<Inp, U>(t.20),
        deterministic::<Inp, V>(t.21),
        deterministic::<Inp, W>(t.22),
        deterministic::<Inp, X>(t.23),
        deterministic::<Inp, Y>(t.24),
    ensures
        deterministic::<Inp, (A, B, C, D, E, F, G, H, I, J, K, L, M, N, O, P, Q, R, S, T, U, V, W, X, Y)>(t),
{
    lemma_tuple24_deterministic::<Inp, Er, B, C, D, E, F, G, H, I, J, K, L, M, N, O, P, Q, R, S, T, U, V, W, X, Y>((t.1, t.2, t.3, t.4, t.5, t.6, t.7, t.8, t.9, t.10, t.11, t.12, t.13, t.14, t.15, t.16, t.17, t.18, t.19, t.20, t.21, t.22, t.23, t.24));
    lemma_seq_unique::<Inp, A, (B, C, D, E, F, G, H, I, J, K, L, M, N, O, P, Q, R, S, T, U, V, W, X, Y)>(t.0, (t.1, t.2, t.3, t.4, t.5, t.6, t.7, t.8, t.9, t.10, t.11, t.12, t.13, t.14, t.15, t.16, t.17, t.18, t.19, t.20, t.21, t.22, t.23, t.24));
}

/// A tuple of 26 parsers sharing one error type runs them in order.
impl<Inp, Er, A, B, C, D, E, F, G, H, I, J, K, L, M, N, O, P, Q, R, S, T, U, V, W, X, Y, Z> Parser<Inp> for (A, B, C, D, E, F, G, H, I, J, K, L, M, N, O, P, Q, R, S, T, U, V, W, X, Y, Z) where
    A: Parser<Inp, Error = Er>,
    B: Parser<Inp, Error = Er>,
    C: Parser<Inp, Error = Er>,
    D: Parser<Inp, Error = Er>,
    E: Parser<Inp, Error = Er>,
    F: Parser<Inp, Error = Er>,
    G: Parser<Inp, Error = Er>,
    H: Parser<Inp, Error = Er>,
    I: Parser<Inp, Error = Er>,
    J: Parser<Inp, Error = Er>,
    K: Parser<Inp, Error = Er>,
    L: Parser<Inp, Error = Er>,
    M: Parser<Inp, Error = Er>,
    N: Parser<Inp, Error = Er>,
    O: Parser<Inp, Error = Er>,
    P: Parser<Inp, Error = Er>,
    Q: Parser<Inp, Error = Er>,
    R: Parser<Inp, Error = Er>,
    S: Parser<Inp, Error = Er>,
    T: Parser<Inp, Error = Er>,
    U: Parser<Inp, Error = Er>,
    V: Parser<Inp, Error = Er>,
    W: Parser<Inp, Error = Er>,
    X: Parser<Inp, Error = Er>,
    Y: Parser<Inp, Error = Er>,
    Z: Parser<Inp, Error = Er>,
 {
    type Out = (A::Out, B::Out, C::Out, D::Out, E::Out, F::Out, G::Out, H::Out, I::Out, J::Out, K::Out, L::Out, M::Out, N::Out, O::Out, P::Out, Q::Out, R::Out, S::Out, T::Out, U::Out, V::Out, W::Out, X::Out, Y::Out, Z::Out);

    type Error = Er;

    open spec fn parse_requires(&self, input: Inp) -> bool {
        seq_requires(self.0, (self.1, self.2, self.3, self.4, self.5, self.6, self.7, self.8, self.9, self.10, self.11, self.12, self.13, self.14, self.15, self.16, self.17, self.18, self.19, self.20, self.21, self.22, self.23, self.24, self.25), input)
    }

    open spec fn parse_ensures(&self, input: Inp, res: Result<((A::Out, B::Out, C::Out, D::Out, E::Out, F::Out, G::Out, H::Out, I::Out, J::Out, K::Out, L::Out, M::Out, N::Out, O::Out, P::Out, Q::Out, R::Out, S::Out, T::Out, U::Out, V::Out, W::Out, X::Out, Y::Out, Z::Out), Inp), Er>) -> bool {
        match res {
            Ok(((a, b, c, d, e, f, g, h, i, j, k, l, m, n, o, p, q, r, s, t, u, v, w, x, y, z), rest)) => seq_ok(self.0, (self.1, self.2, self.3, self.4, self.5, self.6, self.7, self.8, self.9, self.10, self.11, self.12, self.13, self.14, self.15, self.16, self.17, self.18, self.19, self.20, self.21, self.22, self.23, self.24, self.25), input, a, (b, c, d, e, f, g, h, i, j, k, l, m, n, o, p, q, r, s, t, u, v, w, x, y, z), rest),
            Err(e) => seq_err(self.0, (self.1, self.2, self.3, self.4, self.5, self.6, self.7, self.8, self.9, self.10, self.11, self.12, self.13, self.14, self.15, self.16, self.17, self.18, self.19, self.20, self.21, self.22, self.23, self.24, self.25), input, e),
        }
    }

    fn parse(&self, txt: Inp) -> (res: Result<((A::Out, B::Out, C::Out, D::Out, E::Out, F::Out, G::Out, H::Out, I::Out, J::Out, K::Out, L::Out, M::Out, N::Out, O::Out, P::Out, Q::Out, R::Out, S::Out, T::Out, U::Out, V::Out, W::Out, X::Out, Y::Out, Z::Out), Inp), Er>) {
        let ghost t0 = txt;
        let (a, t1) = match self.0.parse(txt) {
            Ok(r) => r,
            Err(e) => return Err(e),
        };
        assert(self.0.parse_ensures(t0, Ok((a, t1))));
        assert((self.1, self.2, self.3, self.4, self.5, self.6, self.7, self.8, self.9, self.10, self.11, self.12, self.13, self.14, self.15, self.16, self.17, self.18, self.19, self.20, self.21, self.22, self.23, self.24, self.25).parse_requires(t1));
        let (b, t2) = match self.1.parse(t1) {
            Ok(r) => r,
            Err(e) => {
                assert((self.1, self.2, self.3, self.4, self.5, self.6, self.7, self.8, self.9, self.10, self.11, self.12, self.13, self.14, self.15, self.16, self.17, self.18, self.19, self.20, self.21, self.22, self.23, self.24, self.25).parse_ensures(t1, Err(e)));
                return Err(e);
            },
        };
        assert(self.1.parse_ensures(t1, Ok((b, t2))));
        assert((self.2, self.3, self.4, self.5, self.6, self.7, self.8, self.9, self.10, self.11, self.12, self.13, self.14, self.15, self.16, self.17, self.18, self.19, self.20, self.21, self.22, self.23, self.24, self.25).parse_requires(t2));
        let (c, t3) = match self.2.parse(t2) {
            Ok(r) => r,
            Err(e) => {
                assert((self.2, self.3, self.4, self.5, self.6, self.7, self.8, self.9, self.10, self.11, self.12, self.13, self.14, self.15, self.16, self.17, self.18, self.19, self.20, self.21, self.22, self.23, self.24, self.25).parse_ensures(t2, Err(e)));
                assert((self.1, self.2, self.3, self.4, self.5, self.6, self.7, self.8, self.9, self.10, self.11, self.12, self.13, self.14, self.15, self.16, self.17, self.18, self.19, self.20, self.21, self.22, self.23, self.24, self.25).parse_ensures(t1, Err(e)));
                return Err(e);
            },
        };
        assert(self.2.parse_ensures(t2, Ok((c, t3))));
        assert((self.3, self.4, self.5, self.6, self.7, self.8, self.9, self.10, self.11, self.12, self.13, self.14, self.15, self.16, self.17, self.18, self.19, self.20, self.21, self.22, self.23, self.24, self.25).parse_requires(t3));
        let (d, t4) = match self.3.parse(t3) {
            Ok(r) => r,
            Err(e) => {
                assert((self.3, self.4, self.5, self.6, self.7, self.8, self.9, self.10, self.11, self.12, self.13, self.14, self.15, self.16, self.17, self.18, self.19, self.20, self.21, self.22, self.23, self.24, self.25).parse_ensures(t3, Err(e)));
                assert((self.2, self.3, self.4, self.5, self.6, self.7, self.8, self.9, self.10, self.11, self.12, self.13, self.14, self.15, self.16, self.17, self.18, self.19, self.20, self.21, self.22, self.23, self.24, self.25).parse_ensures(t2, Err(e)));
                assert((self.1, self.2, self.3, self.4, self.5, self.6, self.7, self.8, self.9, self.10, self.11, self.12, self.13, self.14, self.15, self.16, self.17, self.18, self.19, self.20, self.21, self.22, self.23, self.24, self.25).parse_ensures(t1, Err(e)));
                return Err(e);
            },
        };
        assert(self.3.parse_ensures(t3, Ok((d, t4))));
        assert((self.4, self.5, self.6, self.7, self.8, self.9, self.10, self.11, self.12, self.13, self.14, self.15, self.16, self.17, self.18, self.19, self.20, self.21, self.22, self.23, self.24, self.25).parse_requires(t4));
        let (e, t5) = match self.4.parse(t4) {
            Ok(r) => r,
            Err(e) => {
                assert((self.4, self.5, self.6, self.7, self.8, self.9, self.10, self.11, self.12, self.13, self.14, self.15, self.16, self.17, self.18, self.19, self.20, self.21, self.22, self.23, self.24, self.25).parse_ensures(t4, Err(e)));
                assert((self.3, self.4, self.5, self.6, self.7, self.8, self.9, self.10, self.11, self.12, self.13, self.14, self.15, self.16, self.17, self.18, self.19, self.20, self.21, self.22, self.23, self.24, self.25).parse_ensures(t3, Err(e)));
                assert((self.2, self.3, self.4, self.5, self.6, self.7, self.8, self.9, self.10, self.11, self.12, self.13, self.14, self.15, self.16, self.17, self.18, self.19, self.20, self.21, self.22, self.23, self.24, self.25).parse_ensures(t2, Err(e)));
                assert((self.1, self.2, self.3, self.4, self.5, self.6, self.7, self.8, self.9, self.10, self.11, self.12, self.13, self.14, self.15, self.16, self.17, self.18, self.19, self.20, self.21, self.22, self.23, self.24, self.25).parse_ensures(t1, Err(e)));
                return Err(e);
            },
        };
        assert(self.4.parse_ensures(t4, Ok((e, t5))));
        assert((self.5, self.6, self.7, self.8, self.9, self.10, self.11, self.12, self.13, self.14, self.15, self.16, self.17, self.18, self.19, self.20, self.21, self.22, self.23, self.24, self.25).parse_requires(t5));
        let (f, t6) = match self.5.parse(t5) {
            Ok(r) => r,
            Err(e) => {
                assert((self.5, self.6, self.7, self.8, self.9, self.10, self.11, self.12, self.13, self.14, self.15, self.16, self.17, self.18, self.19, self.20, self.21, self.22, self.23, self.24, self.25).parse_ensures(t5, Err(e)));
                assert((self.4, self.5, self.6, self.7, self.8, self.9, self.10, self.11, self.12, self.13, self.14, self.15, self.16, self.17, self.18, self.19, self.20, self.21, self.22, self.23, self.24, self.25).parse_ensures(t4, Err(e)));
                assert((self.3, self.4, self.5, self.6, self.7, self.8, self.9, self.10, self.11, self.12, self.13, self.14, self.15, self.16, self.17, self.18, self.19, self.20, self.21, self.22, self.23, self.24, self.25).parse_ensures(t3, Err(e)));
                assert((self.2, self.3, self.4, self.5, self.6, self.7, self.8, self.9, self.10, self.11, self.12, self.13, self.14, self.15, self.16, self.17, self.18, self.19, self.20, self.21, self.22, self.23, self.24, self.25).parse_ensures(t2, Err(e)));
                assert((self.1, self.2, self.3, self.4, self.5, self.6, self.7, self.8, self.9, self.10, self.11, self.12, self.13, self.14, self.15, self.16, self.17, self.18, self.19, self.20, self.21, self.22, self.23, self.24, self.25).parse_ensures(t1, Err(e)));
                return Err(e);
            },
        };
        assert(self.5.parse_ensures(t5, Ok((f, t6))));
        assert((self.6, self.7, self.8, self.9, self.10, self.11, self.12, self.13, self.14, self.15, self.16, self.17, self.18, self.19, self.20, self.21, self.22, self.23, self.24, self.25).parse_requires(t6));
        let (g, t7) = match self.6.parse(t6) {
            Ok(r) => r,
            Err(e) => {
                assert((self.6, self.7, self.8, self.9, self.10, self.11, self.12, self.13, self.14, self.15, self.16, self.17, self.18, self.19, self.20, self.21, self.22, self.23, self.24, self.25).parse_ensures(t6, Err(e)));
                assert((self.5, self.6, self.7, self.8, self.9, self.10, self.11, self.12, self.13, self.14, self.15, self.16, self.17, self.18, self.19, self.20, self.21, self.22, self.23, self.24, self.25).parse_ensures(t5, Err(e)));
                assert((self.4, self.5, self.6, self.7, self.8, self.9, self.10, self.11, self.12, self.13, self.14, self.15, self.16, self.17, self.18, self.19, self.20, self.21, self.22, self.23, self.24, self.25).parse_ensures(t4, Err(e)));
                assert((self.3, self.4, self.5, self.6, self.7, self.8, self.9, self.10, self.11, self.12, self.13, self.14, self.15, self.16, self.17, self.18, self.19, self.20, self.21, self.22, self.23, self.24, self.25).parse_ensures(t3, Err(e)));
                assert((self.2, self.3, self.4, self.5, self.6, self.7, self.8, self.9, self.10, self.11, self.12, self.13, self.14, self.15, self.16, self.17, self.18, self.19, self.20, self.21, self.22, self.23, self.24, self.25).parse_ensures(t2, Err(e)));
                assert((self.1, self.2, self.3, self.4, self.5, self.6, self.7, self.8, self.9, self.10, self.11, self.12, self.13, self.14, self.15, self.16, self.17, self.18, self.19, self.20, self.21, self.22, self.23, self.24, self.25).parse_ensures(t1, Err(e)));
                return Err(e);
            },
        };
        assert(self.6.parse_ensures(t6, Ok((g, t7))));
        assert((self.7, self.8, self.9, self.10, self.11, self.12, self.13, self.14, self.15, self.16, self.17, self.18, self.19, self.20, self.21, self.22, self.23, self.24, self.25).parse_requires(t7));
        let (h, t8) = match self.7.parse(t7) {
            Ok(r) => r,
            Err(e) => {
                assert((self.7, self.8, self.9, self.10, self.11, self.12, self.13, self.14, self.15, self.16, self.17, self.18, self.19, self.20, self.21, self.22, self.23, self.24, self.25).parse_ensures(t7, Err(e)));
                assert((self.6, self.7, self.8, self.9, self.10, self.11, self.12, self.13, self.14, self.15, self.16, self.17, self.18, self.19, self.20, self.21, self.22, self.23, self.24, self.25).parse_ensures(t6, Err(e)));
                assert((self.5, self.6, self.7, self.8, self.9, self.10, self.11, self.12, self.13, self.14, self.15, self.16, self.17, self.18, self.19, self.20, self.21, self.22, self.23, self.24, self.25).parse_ensures(t5, Err(e)));
                assert((self.4, self.5, self.6, self.7, self.8, self.9, self.10, self.11, self.12, self.13, self.14, self.15, self.16, self.17, self.18, self.19, self.20, self.21, self.22, self.23, self.24, self.25).parse_ensures(t4, Err(e)));
                assert((self.3, self.4, self.5, self.6, self.7, self.8, self.9, self.10, self.11, self.12, self.13, self.14, self.15, self.16, self.17, self.18, self.19, self.20, self.21, self.22, self.23, self.24, self.25).parse_ensures(t3, Err(e)));
                assert((self.2, self.3, self.4, self.5, self.6, self.7, self.8, self.9, self.10, self.11, self.12, self.13, self.14, self.15, self.16, self.17, self.18, self.19, self.20, self.21, self.22, self.23, self.24, self.25).parse_ensures(t2, Err(e)));
                assert((self.1, self.2, self.3, self.4, self.5, self.6, self.7, self.8, self.9, self.10, self.11, self.12, self.13, self.14, self.15, self.16, self.17, self.18, self.19, self.20, self.21, self.22, self.23, self.24, self.25).parse_ensures(t1, Err(e)));
                return Err(e);
            },
        };
        assert(self.7.parse_ensures(t7, Ok((h, t8))));
        assert((self.8, self.9, self.10, self.11, self.12, self.13, self.14, self.15, self.16, self.17, self.18, self.19, self.20, self.21, self.22, self.23, self.24, self.25).parse_requires(t8));
        let (i, t9) = match self.8.parse(t8) {
            Ok(r) => r,
            Err(e) => {
                assert((self.8, self.9, self.10, self.11, self.12, self.13, self.14, self.15, self.16, self.17, self.18, self.19, self.20, self.21, self.22, self.23, self.24, self.25).parse_ensures(t8, Err(e)));
                assert((self.7, self.8, self.9, self.10, self.11, self.12, self.13, self.14, self.15, self.16, self.17, self.18, self.19, self.20, self.21, self.22, self.23, self.24, self.25).parse_ensures(t7, Err(e)));
                assert((self.6, self.7, self.8, self.9, self.10, self.11, self.12, self.13, self.14, self.15, self.16, self.17, self.18, self.19, self.20, self.21, self.22, self.23, self.24, self.25).parse_ensures(t6, Err(e)));
                assert((self.5, self.6, self.7, self.8, self.9, self.10, self.11, self.12, self.13, self.14, self.15, self.16, self.17, self.18, self.19, self.20, self.21, self.22, self.23, self.24, self.25).parse_ensures(t5, Err(e)));
                assert((self.4, self.5, self.6, self.7, self.8, self.9, self.10, self.11, self.12, self.13, self.14, self.15, self.16, self.17, self.18, self.19, self.20, self.21, self.22, self.23, self.24, self.25).parse_ensures(t4, Err(e)));
                assert((self.3, self.4, self.5, self.6, self.7, self.8, self.9, self.10, self.11, self.12, self.13, self.14, self.15, self.16, self.17, self.18, self.19, self.20, self.21, self.22, self.23, self.24, self.25).parse_ensures(t3, Err(e)));
                assert((self.2, self.3, self.4, self.5, self.6, self.7, self.8, self.9, self.10, self.11, self.12, self.13, self.14, self.15, self.16, self.17, self.18, self.19, self.20, self.21, self.22, self.23, self.24, self.25).parse_ensures(t2, Err(e)));
                assert((self.1, self.2, self.3, self.4, self.5, self.6, self.7, self.8, self.9, self.10, self.11, self.12, self.13, self.14, self.15, self.16, self.17, self.18, self.19, self.20, self.21, self.22, self.23, self.24, self.25).parse_ensures(t1, Err(e)));
                return Err(e);
            },
        };
        assert(self.8.parse_ensures(t8, Ok((i, t9))));
        assert((self.9, self.10, self.11, self.12, self.13, self.14, self.15, self.16, self.17, self.18, self.19, self.20, self.21, self.22, self.23, self.24, self.25).parse_requires(t9));
        let (j, t10) = match self.9.parse(t9) {
            Ok(r) => r,
            Err(e) => {
                assert((self.9, self.10, self.11, self.12, self.13, self.14, self.15, self.16, self.17, self.18, self.19, self.20, self.21, self.22, self.23, self.24, self.25).parse_ensures(t9, Err(e)));
                assert((self.8, self.9, self.10, self.11, self.12, self.13, self.14, self.15, self.16, self.17, self.18, self.19, self.20, self.21, self.22, self.23, self.24, self.25).parse_ensures(t8, Err(e)));
                assert((self.7, self.8, self.9, self.10, self.11, self.12, self.13, self.14, self.15, self.16, self.17, self.18, self.19, self.20, self.21, self.22, self.23, self.24, self.25).parse_ensures(t7, Err(e)));
                assert((self.6, self.7, self.8, self.9, self.10, self.11, self.12, self.13, self.14, self.15, self.16, self.17, self.18, self.19, self.20, self.21, self.22, self.23, self.24, self.25).parse_ensures(t6, Err(e)));
                assert((self.5, self.6, self.7, self.8, self.9, self.10, self.11, self.12, self.13, self.14, self.15, self.16, self.17, self.18, self.19, self.20, self.21, self.22, self.23, self.24, self.25).parse_ensures(t5, Err(e)));
                assert((self.4, self.5, self.6, self.7, self.8, self.9, self.10, self.11, self.12, self.13, self.14, self.15, self.16, self.17, self.18, self.19, self.20, self.21, self.22, self.23, self.24, self.25).parse_ensures(t4, Err(e)));
                assert((self.3, self.4, self.5, self.6, self.7, self.8, self.9, self.10, self.11, self.12, self.13, self.14, self.15, self.16, self.17, self.18, self.19, self.20, self.21, self.22, self.23, self.24, self.25).parse_ensures(t3, Err(e)));
                assert((self.2, self.3, self.4, self.5, self.6, self.7, self.8, self.9, self.10, self.11, self.12, self.13, self.14, self.15, self.16, self.17, self.18, self.19, self.20, self.21, self.22, self.23, self.24, self.25).parse_ensures(t2, Err(e)));
                assert((self.1, self.2, self.3, self.4, self.5, self.6, self.7, self.8, self.9, self.10, self.11, self.12, self.13, self.14, self.15, self.16, self.17, self.18, self.19, self.20, self.21, self.22, self.23, self.24, self.25).parse_ensures(t1, Err(e)));
                return Err(e);
            },
        };
        assert(self.9.parse_ensures(t9, Ok((j, t10))));
        assert((self.10, self.11, self.12, self.13, self.14, self.15, self.16, self.17, self.18, self.19, self.20, self.21, self.22, self.23, self.24, self.25).parse_requires(t10));
        let (k, t11) = match self.10.parse(t10) {
            Ok(r) => r,
            Err(e) => {
                assert((self.10, self.11, self.12, self.13, self.14, self.15, self.16, self.17, self.18, self.19, self.20, self.21, self.22, self.23, self.24, self.25).parse_ensures(t10, Err(e)));
                assert((self.9, self.10, self.11, self.12, self.13, self.14, self.15, self.16, self.17, self.18, self.19, self.20, self.21, self.22, self.23, self.24, self.25).parse_ensures(t9, Err(e)));
                assert((self.8, self.9, self.10, self.11, self.12, self.13, self.14, self.15, self.16, self.17, self.18, self.19, self.20, self.21, self.22, self.23, self.24, self.25).parse_ensures(t8, Err(e)));
                assert((self.7, self.8, self.9, self.10, self.11, self.12, self.13, self.14, self.15, self.16, self.17, self.18, self.19, self.20, self.21, self.22, self.23, self.24, self.25).parse_ensures(t7, Err(e)));
                assert((self.6, self.7, self.8, self.9, self.10, self.11, self.12, self.13, self.14, self.15, self.16, self.17, self.18, self.19, self.20, self.21, self.22, self.23, self.24, self.25).parse_ensures(t6, Err(e)));
                assert((self.5, self.6, self.7, self.8, self.9, self.10, self.11, self.12, self.13, self.14, self.15, self.16, self.17, self.18, self.19, self.20, self.21, self.22, self.23, self.24, self.25).parse_ensures(t5, Err(e)));
                assert((self.4, self.5, self.6, self.7, self.8, self.9, self.10, self.11, self.12, self.13, self.14, self.15, self.16, self.17, self.18, self.19, self.20, self.21, self.22, self.23, self.24, self.25).parse_ensures(t4, Err(e)));
                assert((self.3, self.4, self.5, self.6, self.7, self.8, self.9, self.10, self.11, self.12, self.13, self.14, self.15, self.16, self.17, self.18, self.19, self.20, self.21, self.22, self.23, self.24, self.25).parse_ensures(t3, Err(e)));
                assert((self.2, self.3, self.4, self.5, self.6, self.7, self.8, self.9, self.10, self.11, self.12, self.13, self.14, self.15, self.16, self.17, self.18, self.19, self.20, self.21, self.22, self.23, self.24, self.25).parse_ensures(t2, Err(e)));
                assert((self.1, self.2, self.3, self.4, self.5, self.6, self.7, self.8, self.9, self.10, self.11, self.12, self.13, self.14, self.15, self.16, self.17, self.18, self.19, self.20, self.21, self.22, self.23, self.24, self.25).parse_ensures(t1, Err(e)));
                return Err(e);
            },
        };
        assert(self.10.parse_ensures(t10, Ok((k, t11))));
        assert((self.11, self.12, self.13, self.14, self.15, self.16, self.17, self.18, self.19, self.20, self.21, self.22, self.23, self.24, self.25).parse_requires(t11));
        let (l, t12) = match self.11.parse(t11) {
            Ok(r) => r,
            Err(e) => {
                assert((self.11, self.12, self.13, self.14, self.15, self.16, self.17, self.18, self.19, self.20, self.21, self.22, self.23, self.24, self.25).parse_ensures(t11, Err(e)));
                assert((self.10, self.11, self.12, self.13, self.14, self.15, self.16, self.17, self.18, self.19, self.20, self.21, self.22, self.23, self.24, self.25).parse_ensures(t10, Err(e)));
                assert((self.9, self.10, self.11, self.12, self.13, self.14, self.15, self.16, self.17, self.18, self.19, self.20, self.21, self.22, self.23, self.24, self.25).parse_ensures(t9, Err(e)));
                assert((self.8, self.9, self.10, self.11, self.12, self.13, self.14, self.15, self.16, self.17, self.18, self.19, self.20, self.21, self.22, self.23, self.24, self.25).parse_ensures(t8, Err(e)));
                assert((self.7, self.8, self.9, self.10, self.11, self.12, self.13, self.14, self.15, self.16, self.17, self.18, self.19, self.20, self.21, self.22, self.23, self.24, self.25).parse_ensures(t7, Err(e)));
                assert((self.6, self.7, self.8, self.9, self.10, self.11, self.12, self.13, self.14, self.15, self.16, self.17, self.18, self.19, self.20, self.21, self.22, self.23, self.24, self.25).parse_ensures(t6, Err(e)));
                assert((self.5, self.6, self.7, self.8, self.9, self.10, self.11, self.12, self.13, self.14, self.15, self.16, self.17, self.18, self.19, self.20, self.21, self.22, self.23, self.24, self.25).parse_ensures(t5, Err(e)));
                assert((self.4, self.5, self.6, self.7, self.8, self.9, self.10, self.11, self.12, self.13, self.14, self.15, self.16, self.17, self.18, self.19, self.20, self.21, self.22, self.23, self.24, self.25).parse_ensures(t4, Err(e)));
                assert((self.3, self.4, self.5, self.6, self.7, self.8, self.9, self.10, self.11, self.12, self.13, self.14, self.15, self.16, self.17, self.18, self.19, self.20, self.21, self.22, self.23, self.24, self.25).parse_ensures(t3, Err(e)));
                assert((self.2, self.3, self.4, self.5, self.6, self.7, self.8, self.9, self.10, self.11, self.12, self.13, self.14, self.15, self.16, self.17, self.18, self.19, self.20, self.21, self.22, self.23, self.24, self.25).parse_ensures(t2, Err(e)));
                assert((self.1, self.2, self.3, self.4, self.5, self.6, self.7, self.8, self.9, self.10, self.11, self.12, self.13, self.14, self.15, self.16, self.17, self.18, self.19, self.20, self.21, self.22, self.23, self.24, self.25).parse_ensures(t1, Err(e)));
                return Err(e);
            },
        };
        assert(self.11.parse_ensures(t11, Ok((l, t12))));
        assert((self.12, self.13, self.14, self.15, self.16, self.17, self.18, self.19, self.20, self.21, self.22, self.23, self.24, self.25).parse_requires(t12));
        let (m, t13) = match self.12.parse(t12) {
            Ok(r) => r,
            Err(e) => {
                assert((self.12, self.13, self.14, self.15, self.16, self.17, self.18, self.19, self.20, self.21, self.22, self.23, self.24, self.25).parse_ensures(t12, Err(e)));
                assert((self.11, self.12, self.13, self.14, self.15, self.16, self.17, self.18, self.19, self.20, self.21, self.22, self.23, self.24, self.25).parse_ensures(t11, Err(e)));
                assert((self.10, self.11, self.12, self.13, self.14, self.15, self.16, self.17, self.18, self.19, self.20, self.21, self.22, self.23, self.24, self.25).parse_ensures(t10, Err(e)));
                assert((self.9, self.10, self.11, self.12, self.13, self.14, self.15, self.16, self.17, self.18, self.19, self.20, self.21, self.22, self.23, self.24, self.25).parse_ensures(t9, Err(e)));
                assert((self.8, self.9, self.10, self.11, self.12, self.13, self.14, self.15, self.16, self.17, self.18, self.19, self.20, self.21, self.22, self.23, self.24, self.25).parse_ensures(t8, Err(e)));
                assert((self.7, self.8, self.9, self.10, self.11, self.12, self.13, self.14, self.15, self.16, self.17, self.18, self.19, self.20, self.21, self.22, self.23, self.24, self.25).parse_ensures(t7, Err(e)));
                assert((self.6, self.7, self.8, self.9, self.10, self.11, self.12, self.13, self.14, self.15, self.16, self.17, self.18, self.19, self.20, self.21, self.22, self.23, self.24, self.25).parse_ensures(t6, Err(e)));
                assert((self.5, self.6, self.7, self.8, self.9, self.10, self.11, self.12, self.13, self.14, self.15, self.16, self.17, self.18, self.19, self.20, self.21, self.22, self.23, self.24, self.25).parse_ensures(t5, Err(e)));
                assert((self.4, self.5, self.6, self.7, self.8, self.9, self.10, self.11, self.12, self.13, self.14, self.15, self.16, self.17, self.18, self.19, self.20, self.21, self.22, self.23, self.24, self.25).parse_ensures(t4, Err(e)));
                assert((self.3, self.4, self.5, self.6, self.7, self.8, self.9, self.10, self.11, self.12, self.13, self.14, self.15, self.16, self.17, self.18, self.19, self.20, self.21, self.22, self.23, self.24, self.25).parse_ensures(t3, Err(e)));
                assert((self.2, self.3, self.4, self.5, self.6, self.7, self.8, self.9, self.10, self.11, self.12, self.13, self.14, self.15, self.16, self.17, self.18, self.19, self.20, self.21, self.22, self.23, self.24, self.25).parse_ensures(t2, Err(e)));
                assert((self.1, self.2, self.3, self.4, self.5, self.6, self.7, self.8, self.9, self.10, self.11, self.12, self.13, self.14, self.15, self.16, self.17, self.18, self.19, self.20, self.21, self.22, self.23, self.24, self.25).parse_ensures(t1, Err(e)));
                return Err(e);
            },
        };
        assert(self.12.parse_ensures(t12, Ok((m, t13))));
        assert((self.13, self.14, self.15, self.16, self.17, self.18, self.19, self.20, self.21, self.22, self.23, self.24, self.25).parse_requires(t13));
        let (n, t14) = match self.13.parse(t13) {
            Ok(r) => r,
            Err(e) => {
                assert((self.13, self.14, self.15, self.16, self.17, self.18, self.19, self.20, self.21, self.22, self.23, self.24, self.25).parse_ensures(t13, Err(e)));
                assert((self.12, self.13, self.14, self.15, self.16, self.17, self.18, self.19, self.20, self.21, self.22, self.23, self.24, self.25).parse_ensures(t12, Err(e)));
                assert((self.11, self.12, self.13, self.14, self.15, self.16, self.17, self.18, self.19, self.20, self.21, self.22, self.23, self.24, self.25).parse_ensures(t11, Err(e)));
                assert((self.10, self.11, self.12, self.13, self.14, self.15, self.16, self.17, self.18, self.19, self.20, self.21, self.22, self.23, self.24, self.25).parse_ensures(t10, Err(e)));
                assert((self.9, self.10, self.11, self.12, self.13, self.14, self.15, self.16, self.17, self.18, self.19, self.20, self.21, self.22, self.23, self.24, self.25).parse_ensures(t9, Err(e)));
                assert((self.8, self.9, self.10, self.11, self.12, self.13, self.14, self.15, self.16, self.17, self.18, self.19, self.20, self.21, self.22, self.23, self.24, self.25).parse_ensures(t8, Err(e)));
                assert((self.7, self.8, self.9, self.10, self.11, self.12, self.13, self.14, self.15, self.16, self.17, self.18, self.19, self.20, self.21, self.22, self.23, self.24, self.25).parse_ensures(t7, Err(e)));
                assert((self.6, self.7, self.8, self.9, self.10, self.11, self.12, self.13, self.14, self.15, self.16, self.17, self.18, self.19, self.20, self.21, self.22, self.23, self.24, self.25).parse_ensures(t6, Err(e)));
                assert((self.5, self.6, self.7, self.8, self.9, self.10, self.11, self.12, self.13, self.14, self.15, self.16, self.17, self.18, self.19, self.20, self.21, self.22, self.23, self.24, self.25).parse_ensures(t5, Err(e)));
                assert((self.4, self.5, self.6, self.7, self.8, self.9, self.10, self.11, self.12, self.13, self.14, self.15, self.16, self.17, self.18, self.19, self.20, self.21, self.22, self.23, self.24, self.25).parse_ensures(t4, Err(e)));
                assert((self.3, self.4, self.5, self.6, self.7, self.8, self.9, self.10, self.11, self.12, self.13, self.14, self.15, self.16, self.17, self.18, self.19, self.20, self.21, self.22, self.23, self.24, self.25).parse_ensures(t3, Err(e)));
                assert((self.2, self.3, self.4, self.5, self.6, self.7, self.8, self.9, self.10, self.11, self.12, self.13, self.14, self.15, self.16, self.17, self.18, self.19, self.20, self.21, self.22, self.23, self.24, self.25).parse_ensures(t2, Err(e)));
                assert((self.1, self.2, self.3, self.4, self.5, self.6, self.7, self.8, self.9, self.10, self.11, self.12, self.13, self.14, self.15, self.16, self.17, self.18, self.19, self.20, self.21, self.22, self.23, self.24, self.25).parse_ensures(t1, Err(e)));
                return Err(e);
            },
        };
        assert(self.13.parse_ensures(t13, Ok((n, t14))));
        assert((self.14, self.15, self.16, self.17, self.18, self.19, self.20, self.21, self.22, self.23, self.24, self.25).parse_requires(t14));
        let (o, t15) = match self.14.parse(t14) {
            Ok(r) => r,
            Err(e) => {
                assert((self.14, self.15, self.16, self.17, self.18, self.19, self.20, self.21, self.22, self.23, self.24, self.25).parse_ensures(t14, Err(e)));
                assert((self.13, self.14, self.15, self.16, self.17, self.18, self.19, self.20, self.21, self.22, self.23, self.24, self.25).parse_ensures(t13, Err(e)));
                assert((self.12, self.13, self.14, self.15, self.16, self.17, self.18, self.19, self.20, self.21, self.22, self.23, self.24, self.25).parse_ensures(t12, Err(e)));
                assert((self.11, self.12, self.13, self.14, self.15, self.16, self.17, self.18, self.19, self.20, self.21, self.22, self.23, self.24, self.25).parse_ensures(t11, Err(e)));
                assert((self.10, self.11, self.12, self.13, self.14, self.15, self.16, self.17, self.18, self.19, self.20, self.21, self.22, self.23, self.24, self.25).parse_ensures(t10, Err(e)));
                assert((self.9, self.10, self.11, self.12, self.13, self.14, self.15, self.16, self.17, self.18, self.19, self.20, self.21, self.22, self.23, self.24, self.25).parse_ensures(t9, Err(e)));
                assert((self.8, self.9, self.10, self.11, self.12, self.13, self.14, self.15, self.16, self.17, self.18, self.19, self.20, self.21, self.22, self.23, self.24, self.25).parse_ensures(t8, Err(e)));
                assert((self.7, self.8, self.9, self.10, self.11, self.12, self.13, self.14, self.15, self.16, self.17, self.18, self.19, self.20, self.21, self.22, self.23, self.24, self.25).parse_ensures(t7, Err(e)));
                assert((self.6, self.7, self.8, self.9, self.10, self.11, self.12, self.13, self.14, self.15, self.16, self.17, self.18, self.19, self.20, self.21, self.22, self.23, self.24, self.25).parse_ensures(t6, Err(e)));
                assert((self.5, self.6, self.7, self.8, self.9, self.10, self.11, self.12, self.13, self.14, self.15, self.16, self.17, self.18, self.19, self.20, self.21, self.22, self.23, self.24, self.25).parse_ensures(t5, Err(e)));
                assert((self.4, self.5, self.6, self.7, self.8, self.9, self.10, self.11, self.12, self.13, self.14, self.15, self.16, self.17, self.18, self.19, self.20, self.21, self.22, self.23, self.24, self.25).parse_ensures(t4, Err(e)));
                assert((self.3, self.4, self.5, self.6, self.7, self.8, self.9, self.10, self.11, self.12, self.13, self.14, self.15, self.16, self.17, self.18, self.19, self.20, self.21, self.22, self.23, self.24, self.25).parse_ensures(t3, Err(e)));
                assert((self.2, self.3, self.4, self.5, self.6, self.7, self.8, self.9, self.10, self.11, self.12, self.13, self.14, self.15, self.16, self.17, self.18, self.19, self.20, self.21, self.22, self.23, self.24, self.25).parse_ensures(t2, Err(e)));
                assert((self.1, self.2, self.3, self.4, self.5, self.6, self.7, self.8, self.9, self.10, self.11, self.12, self.13, self.14, self.15, self.16, self.17, self.18, self.19, self.20, self.21, self.22, self.23, self.24, self.25).parse_ensures(t1, Err(e)));
                return Err(e);
            },
        };
        assert(self.14.parse_ensures(t14, Ok((o, t15))));
        assert((self.15, self.16, self.17, self.18, self.19, self.20, self.21, self.22, self.23, self.24, self.25).parse_requires(t15));
        let (p, t16) = match self.15.parse(t15) {
            Ok(r) => r,
            Err(e) => {
                assert((self.15, self.16, self.17, self.18, self.19, self.20, self.21, self.22, self.23, self.24, self.25).parse_ensures(t15, Err(e)));
                assert((self.14, self.15, self.16, self.17, self.18, self.19, self.20, self.21, self.22, self.23, self.24, self.25).parse_ensures(t14, Err(e)));
                assert((self.13, self.14, self.15, self.16, self.17, self.18, self.19, self.20, self.21, self.22, self.23, self.24, self.25).parse_ensures(t13, Err(e)));
                assert((self.12, self.13, self.14, self.15, self.16, self.17, self.18, self.19, self.20, self.21, self.22, self.23, self.24, self.25).parse_ensures(t12, Err(e)));
                assert((self.11, self.12, self.13, self.14, self.15, self.16, self.17, self.18, self.19, self.20, self.21, self.22, self.23, self.24, self.25).parse_ensures(t11, Err(e)));
                assert((self.10, self.11, self.12, self.13, self.14, self.15, self.16, self.17, self.18, self.19, self.20, self.21, self.22, self.23, self.24, self.25).parse_ensures(t10, Err(e)));
                assert((self.9, self.10, self.11, self.12, self.13, self.14, self.15, self.16, self.17, self.18, self.19, self.20, self.21, self.22, self.23, self.24, self.25).parse_ensures(t9, Err(e)));
                assert((self.8, self.9, self.10, self.11, self.12, self.13, self.14, self.15, self.16, self.17, self.18, self.19, self.20, self.21, self.22, self.23, self.24, self.25).parse_ensures(t8, Err(e)));
                assert((self.7, self.8, self.9, self.10, self.11, self.12, self.13, self.14, self.15, self.16, self.17, self.18, self.19, self.20, self.21, self.22, self.23, self.24, self.25).parse_ensures(t7, Err(e)));
                assert((self.6, self.7, self.8, self.9, self.10, self.11, self.12, self.13, self.14, self.15, self.16, self.17, self.18, self.19, self.20, self.21, self.22, self.23, self.24, self.25).parse_ensures(t6, Err(e)));
                assert((self.5, self.6, self.7, self.8, self.9, self.10, self.11, self.12, self.13, self.14, self.15, self.16, self.17, self.18, self.19, self.20, self.21, self.22, self.23, self.24, self.25).parse_ensures(t5, Err(e)));
                assert((self.4, self.5, self.6, self.7, self.8, self.9, self.10, self.11, self.12, self.13, self.14, self.15, self.16, self.17, self.18, self.19, self.20, self.21, self.22, self.23, self.24, self.25).parse_ensures(t4, Err(e)));
                assert((self.3, self.4, self.5, self.6, self.7, self.8, self.9, self.10, self.11, self.12, self.13, self.14, self.15, self.16, self.17, self.18, self.19, self.20, self.21, self.22, self.23, self.24, self.25).parse_ensures(t3, Err(e)));
                assert((self.2, self.3, self.4, self.5, self.6, self.7, self.8, self.9, self.10, self.11, self.12, self.13, self.14, self.15, self.16, self.17, self.18, self.19, self.20, self.21, self.22, self.23, self.24, self.25).parse_ensures(t2, Err(e)));
                assert((self.1, self.2, self.3, self.4, self.5, self.6, self.7, self.8, self.9, self.10, self.11, self.12, self.13, self.14, self.15, self.16, self.17, self.18, self.19, self.20, self.21, self.22, self.23, self.24, self.25).parse_ensures(t1, Err(e)));
                return Err(e);
            },
        };
        assert(self.15.parse_ensures(t15, Ok((p, t16))));
        assert((self.16, self.17, self.18, self.19, self.20, self.21, self.22, self.23, self.24, self.25).parse_requires(t16));
        let (q, t17) = match self.16.parse(t16) {
            Ok(r) => r,
            Err(e) => {
                assert((self.16, self.17, self.18, self.19, self.20, self.21, self.22, self.23, self.24, self.25).parse_ensures(t16, Err(e)));
                assert((self.15, self.16, self.17, self.18, self.19, self.20, self.21, self.22, self.23, self.24, self.25).parse_ensures(t15, Err(e)));
                assert((self.14, self.15, self.16, self.17, self.18, self.19, self.20, self.21, self.22, self.23, self.24, self.25).parse_ensures(t14, Err(e)));
                assert((self.13, self.14, self.15, self.16, self.17, self.18, self.19, self.20, self.21, self.22, self.23, self.24, self.25).parse_ensures(t13, Err(e)));
                assert((self.12, self.13, self.14, self.15, self.16, self.17, self.18, self.19, self.20, self.21, self.22, self.23, self.24, self.25).parse_ensures(t12, Err(e)));
                assert((self.11, self.12, self.13, self.14, self.15, self.16, self.17, self.18, self.19, self.20, self.21, self.22, self.23, self.24, self.25).parse_ensures(t11, Err(e)));
                assert((self.10, self.11, self.12, self.13, self.14, self.15, self.16, self.17, self.18, self.19, self.20, self.21, self.22, self.23, self.24, self.25).parse_ensures(t10, Err(e)));
                assert((self.9, self.10, self.11, self.12, self.13, self.14, self.15, self.16, self.17, self.18, self.19, self.20, self.21, self.22, self.23, self.24, self.25).parse_ensures(t9, Err(e)));
                assert((self.8, self.9, self.10, self.11, self.12, self.13, self.14, self.15, self.16, self.17, self.18, self.19, self.20, self.21, self.22, self.23, self.24, self.25).parse_ensures(t8, Err(e)));
                assert((self.7, self.8, self.9, self.10, self.11, self.12, self.13, self.14, self.15, self.16, self.17, self.18, self.19, self.20, self.21, self.22, self.23, self.24, self.25).parse_ensures(t7, Err(e)));
                assert((self.6, self.7, self.8, self.9, self.10, self.11, self.12, self.13, self.14, self.15, self.16, self.17, self.18, self.19, self.20, self.21, self.22, self.23, self.24, self.25).parse_ensures(t6, Err(e)));
                assert((self.5, self.6, self.7, self.8, self.9, self.10, self.11, self.12, self.13, self.14, self.15, self.16, self.17, self.18, self.19, self.20, self.21, self.22, self.23, self.24, self.25).parse_ensures(t5, Err(e)));
                assert((self.4, self.5, self.6, self.7, self.8, self.9, self.10, self.11, self.12, self.13, self.14, self.15, self.16, self.17, self.18, self.19, self.20, self.21, self.22, self.23, self.24, self.25).parse_ensures(t4, Err(e)));
                assert((self.3, self.4, self.5, self.6, self.7, self.8, self.9, self.10, self.11, self.12, self.13, self.14, self.15, self.16, self.17, self.18, self.19, self.20, self.21, self.22, self.23, self.24, self.25).parse_ensures(t3, Err(e)));
                assert((self.2, self.3, self.4, self.5, self.6, self.7, self.8, self.9, self.10, self.11, self.12, self.13, self.14, self.15, self.16, self.17, self.18, self.19, self.20, self.21, self.22, self.23, self.24, self.25).parse_ensures(t2, Err(e)));
                assert((self.1, self.2, self.3, self.4, self.5, self.6, self.7, self.8, self.9, self.10, self.11, self.12, self.13, self.14, self.15, self.16, self.17, self.18, self.19, self.20, self.21, self.22, self.23, self.24, self.25).parse_ensures(t1, Err(e)));
                return Err(e);
            },
        };
        assert(self.16.parse_ensures(t16, Ok((q, t17))));
        assert((self.17, self.18, self.19, self.20, self.21, self.22, self.23, self.24, self.25).parse_requires(t17));
        let (r, t18) = match self.17.parse(t17) {
            Ok(r) => r,
            Err(e) => {
                assert((self.17, self.18, self.19, self.20, self.21, self.22, self.23, self.24, self.25).parse_ensures(t17, Err(e)));
                assert((self.16, self.17, self.18, self.19, self.20, self.21, self.22, self.23, self.24, self.25).parse_ensures(t16, Err(e)));
                assert((self.15, self.16, self.17, self.18, self.19, self.20, self.21, self.22, self.23, self.24, self.25).parse_ensures(t15, Err(e)));
                assert((self.14, self.15, self.16, self.17, self.18, self.19, self.20, self.21, self.22, self.23, self.24, self.25).parse_ensures(t14, Err(e)));
                assert((self.13, self.14, self.15, self.16, self.17, self.18, self.19, self.20, self.21, self.22, self.23, self.24, self.25).parse_ensures(t13, Err(e)));
                assert((self.12, self.13, self.14, self.15, self.16, self.17, self.18, self.19, self.20, self.21, self.22, self.23, self.24, self.25).parse_ensures(t12, Err(e)));
                assert((self.11, self.12, self.13, self.14, self.15, self.16, self.17, self.18, self.19, self.20, self.21, self.22, self.23, self.24, self.25).parse_ensures(t11, Err(e)));
                assert((self.10, self.11, self.12, self.13, self.14, self.15, self.16, self.17, self.18, self.19, self.20, self.21, self.22, self.23, self.24, self.25).parse_ensures(t10, Err(e)));
                assert((self.9, self.10, self.11, self.12, self.13, self.14, self.15, self.16, self.17, self.18, self.19, self.20, self.21, self.22, self.23, self.24, self.25).parse_ensures(t9, Err(e)));
                assert((self.8, self.9, self.10, self.11, self.12, self.13, self.14, self.15, self.16, self.17, self.18, self.19, self.20, self.21, self.22, self.23, self.24, self.25).parse_ensures(t8, Err(e)));
                assert((self.7, self.8, self.9, self.10, self.11, self.12, self.13, self.14, self.15, self.16, self.17, self.18, self.19, self.20, self.21, self.22, self.23, self.24, self.25).parse_ensures(t7, Err(e)));
                assert((self.6, self.7, self.8, self.9, self.10, self.11, self.12, self.13, self.14, self.15, self.16, self.17, self.18, self.19, self.20, self.21, self.22, self.23, self.24, self.25).parse_ensures(t6, Err(e)));
                assert((self.5, self.6, self.7, self.8, self.9, self.10, self.11, self.12, self.13, self.14, self.15, self.16, self.17, self.18, self.19, self.20, self.21, self.22, self.23, self.24, self.25).parse_ensures(t5, Err(e)));
                assert((self.4, self.5, self.6, self.7, self.8, self.9, self.10, self.11, self.12, self.13, self.14, self.15, self.16, self.17, self.18, self.19, self.20, self.21, self.22, self.23, self.24, self.25).parse_ensures(t4, Err(e)));
                assert((self.3, self.4, self.5, self.6, self.7, self.8, self.9, self.10, self.11, self.12, self.13, self.14, self.15, self.16, self.17, self.18, self.19, self.20, self.21, self.22, self.23, self.24, self.25).parse_ensures(t3, Err(e)));
                assert((self.2, self.3, self.4, self.5, self.6, self.7, self.8, self.9, self.10, self.11, self.12, self.13, self.14, self.15, self.16, self.17, self.18, self.19, self.20, self.21, self.22, self.23, self.24, self.25).parse_ensures(t2, Err(e)));
                assert((self.1, self.2, self.3, self.4, self.5, self.6, self.7, self.8, self.9, self.10, self.11, self.12, self.13, self.14, self.15, self.16, self.17, self.18, self.19, self.20, self.21, self.22, self.23, self.24, self.25).parse_ensures(t1, Err(e)));
                return Err(e);
            },
        };
        assert(self.17.parse_ensures(t17, Ok((r, t18))));
        assert((self.18, self.19, self.20, self.21, self.22, self.23, self.24, self.25).parse_requires(t18));
        let (s, t19) = match self.18.parse(t18) {
            Ok(r) => r,
            Err(e) => {
                assert((self.18, self.19, self.20, self.21, self.22, self.23, self.24, self.25).parse_ensures(t18, Err(e)));
                assert((self.17, self.18, self.19, self.20, self.21, self.22, self.23, self.24, self.25).parse_ensures(t17, Err(e)));
                assert((self.16, self.17, self.18, self.19, self.20, self.21, self.22, self.23, self.24, self.25).parse_ensures(t16, Err(e)));
                assert((self.15, self.16, self.17, self.18, self.19, self.20, self.21, self.22, self.23, self.24, self.25).parse_ensures(t15, Err(e)));
                assert((self.14, self.15, self.16, self.17, self.18, self.19, self.20, self.21, self.22, self.23, self.24, self.25).parse_ensures(t14, Err(e)));
                assert((self.13, self.14, self.15, self.16, self.17, self.18, self.19, self.20, self.21, self.22, self.23, self.24, self.25).parse_ensures(t13, Err(e)));
                assert((self.12, self.13, self.14, self.15, self.16, self.17, self.18, self.19, self.20, self.21, self.22, self.23, self.24, self.25).parse_ensures(t12, Err(e)));
                assert((self.11, self.12, self.13, self.14, self.15, self.16, self.17, self.18, self.19, self.20, self.21, self.22, self.23, self.24, self.25).parse_ensures(t11, Err(e)));
                assert((self.10, self.11, self.12, self.13, self.14, self.15, self.16, self.17, self.18, self.19, self.20, self.21, self.22, self.23, self.24, self.25).parse_ensures(t10, Err(e)));
                assert((self.9, self.10, self.11, self.12, self.13, self.14, self.15, self.16, self.17, self.18, self.19, self.20, self.21, self.22, self.23, self.24, self.25).parse_ensures(t9, Err(e)));
                assert((self.8, self.9, self.10, self.11, self.12, self.13, self.14, self.15, self.16, self.17, self.18, self.19, self.20, self.21, self.22, self.23, self.24, self.25).parse_ensures(t8, Err(e)));
                assert((self.7, self.8, self.9, self.10, self.11, self.12, self.13, self.14, self.15, self.16, self.17, self.18, self.19, self.20, self.21, self.22, self.23, self.24, self.25).parse_ensures(t7, Err(e)));
                assert((self.6, self.7, self.8, self.9, self.10, self.11, self.12, self.13, self.14, self.15, self.16, self.17, self.18, self.19, self.20, self.21, self.22, self.23, self.24, self.25).parse_ensures(t6, Err(e)));
                assert((self.5, self.6, self.7, self.8, self.9, self.10, self.11, self.12, self.13, self.14, self.15, self.16, self.17, self.18, self.19, self.20, self.21, self.22, self.23, self.24, self.25).parse_ensures(t5, Err(e)));
                assert((self.4, self.5, self.6, self.7, self.8, self.9, self.10, self.11, self.12, self.13, self.14, self.15, self.16, self.17, self.18, self.19, self.20, self.21, self.22, self.23, self.24, self.25).parse_ensures(t4, Err(e)));
                assert((self.3, self.4, self.5, self.6, self.7, self.8, self.9, self.10, self.11, self.12, self.13, self.14, self.15, self.16, self.17, self.18, self.19, self.20, self.21, self.22, self.23, self.24, self.25).parse_ensures(t3, Err(e)));
                assert((self.2, self.3, self.4, self.5, self.6, self.7, self.8, self.9, self.10, self.11, self.12, self.13, self.14, self.15, self.16, self.17, self.18, self.19, self.20, self.21, self.22, self.23, self.24, self.25).parse_ensures(t2, Err(e)));
                assert((self.1, self.2, self.3, self.4, self.5, self.6, self.7, self.8, self.9, self.10, self.11, self.12, self.13, self.14, self.15, self.16, self.17, self.18, self.19, self.20, self.21, self.22, self.23, self.24, self.25).parse_ensures(t1, Err(e)));
                return Err(e);
            },
        };
        assert(self.18.parse_ensures(t18, Ok((s, t19))));
        assert((self.19, self.20, self.21, self.22, self.23, self.24, self.25).parse_requires(t19));
        let (t, t20) = match self.19.parse(t19) {
            Ok(r) => r,
            Err(e) => {
                assert((self.19, self.20, self.21, self.22, self.23, self.24, self.25).parse_ensures(t19, Err(e)));
                assert((self.18, self.19, self.20, self.21, self.22, self.23, self.24, self.25).parse_ensures(t18, Err(e)));
                assert((self.17, self.18, self.19, self.20, self.21, self.22, self.23, self.24, self.25).parse_ensures(t17, Err(e)));
                assert((self.16, self.17, self.18, self.19, self.20, self.21, self.22, self.23, self.24, self.25).parse_ensures(t16, Err(e)));
                assert((self.15, self.16, self.17, self.18, self.19, self.20, self.21, self.22, self.23, self.24, self.25).parse_ensures(t15, Err(e)));
                assert((self.14, self.15, self.16, self.17, self.18, self.19, self.20, self.21, self.22, self.23, self.24, self.25).parse_ensures(t14, Err(e)));
                assert((self.13, self.14, self.15, self.16, self.17, self.18, self.19, self.20, self.21, self.22, self.23, self.24, self.25).parse_ensures(t13, Err(e)));
                assert((self.12, self.13, self.14, self.15, self.16, self.17, self.18, self.19, self.20, self.21, self.22, self.23, self.24, self.25).parse_ensures(t12, Err(e)));
                assert((self.11, self.12, self.13, self.14, self.15, self.16, self.17, self.18, self.19, self.20, self.21, self.22, self.23, self.24, self.25).parse_ensures(t11, Err(e)));
                assert((self.10, self.11, self.12, self.13, self.14, self.15, self.16, self.17, self.18, self.19, self.20, self.21, self.22, self.23, self.24, self.25).parse_ensures(t10, Err(e)));
                assert((self.9, self.10, self.11, self.12, self.13, self.14, self.15, self.16, self.17, self.18, self.19, self.20, self.21, self.22, self.23, self.24, self.25).parse_ensures(t9, Err(e)));
                assert((self.8, self.9, self.10, self.11, self.12, self.13, self.14, self.15, self.16, self.17, self.18, self.19, self.20, self.21, self.22, self.23, self.24, self.25).parse_ensures(t8, Err(e)));
                assert((self.7, self.8, self.9, self.10, self.11, self.12, self.13, self.14, self.15, self.16, self.17, self.18, self.19, self.20, self.21, self.22, self.23, self.24, self.25).parse_ensures(t7, Err(e)));
                assert((self.6, self.7, self.8, self.9, self.10, self.11, self.12, self.13, self.14, self.15, self.16, self.17, self.18, self.19, self.20, self.21, self.22, self.23, self.24, self.25).parse_ensures(t6, Err(e)));
                assert((self.5, self.6, self.7, self.8, self.9, self.10, self.11, self.12, self.13, self.14, self.15, self.16, self.17, self.18, self.19, self.20, self.21, self.22, self.23, self.24, self.25).parse_ensures(t5, Err(e)));
                assert((self.4, self.5, self.6, self.7, self.8, self.9, self.10, self.11, self.12, self.13, self.14, self.15, self.16, self.17, self.18, self.19, self.20, self.21, self.22, self.23, self.24, self.25).parse_ensures(t4, Err(e)));
                assert((self.3, self.4, self.5, self.6, self.7, self.8, self.9, self.10, self.11, self.12, self.13, self.14, self.15, self.16, self.17, self.18, self.19, self.20, self.21, self.22, self.23, self.24, self.25).parse_ensures(t3, Err(e)));
                assert((self.2, self.3, self.4, self.5, self.6, self.7, self.8, self.9, self.10, self.11, self.12, self.13, self.14, self.15, self.16, self.17, self.18, self.19, self.20, self.21, self.22, self.23, self.24, self.25).parse_ensures(t2, Err(e)));
                assert((self.1, self.2, self.3, self.4, self.5, self.6, self.7, self.8, self.9, self.10, self.11, self.12, self.13, self.14, self.15, self.16, self.17, self.18, self.19, self.20, self.21, self.22, self.23, self.24, self.25).parse_ensures(t1, Err(e)));
                return Err(e);
            },
        };
        assert(self.19.parse_ensures(t19, Ok((t, t20))));
        assert((self.20, self.21, self.22, self.23, self.24, self.25).parse_requires(t20));
        let (u, t21) = match self.20.parse(t20) {
            Ok(r) => r,
            Err(e) => {
                assert((self.20, self.21, self.22, self.23, self.24, self.25).parse_ensures(t20, Err(e)));
                assert((self.19, self.20, self.21, self.22, self.23, self.24, self.25).parse_ensures(t19, Err(e)));
                assert((self.18, self.19, self.20, self.21, self.22, self.23, self.24, self.25).parse_ensures(t18, Err(e)));
                assert((self.17, self.18, self.19, self.20, self.21, self.22, self.23, self.24, self.25).parse_ensures(t17, Err(e)));
                assert((self.16, self.17, self.18, self.19, self.20, self.21, self.22, self.23, self.24, self.25).parse_ensures(t16, Err(e)));
                assert((self.15, self.16, self.17, self.18, self.19, self.20, self.21, self.22, self.23, self.24, self.25).parse_ensures(t15, Err(e)));
                assert((self.14, self.15, self.16, self.17, self.18, self.19, self.20, self.21, self.22, self.23, self.24, self.25).parse_ensures(t14, Err(e)));
                assert((self.13, self.14, self.15, self.16, self.17, self.18, self.19, self.20, self.21, self.22, self.23, self.24, self.25).parse_ensures(t13, Err(e)));
                assert((self.12, self.13, self.14, self.15, self.16, self.17, self.18, self.19, self.20, self.21, self.22, self.23, self.24, self.25).parse_ensures(t12, Err(e)));
                assert((self.11, self.12, self.13, self.14, self.15, self.16, self.17, self.18, self.19, self.20, self.21, self.22, self.23, self.24, self.25).parse_ensures(t11, Err(e)));
                assert((self.10, self.11, self.12, self.13, self.14, self.15, self.16, self.17, self.18, self.19, self.20, self.21, self.22, self.23, self.24, self.25).parse_ensures(t10, Err(e)));
                assert((self.9, self.10, self.11, self.12, self.13, self.14, self.15, self.16, self.17, self.18, self.19, self.20, self.21, self.22, self.23, self.24, self.25).parse_ensures(t9, Err(e)));
                assert((self.8, self.9, self.10, self.11, self.12, self.13, self.14, self.15, self.16, self.17, self.18, self.19, self.20, self.21, self.22, self.23, self.24, self.25).parse_ensures(t8, Err(e)));
                assert((self.7, self.8, self.9, self.10, self.11, self.12, self.13, self.14, self.15, self.16, self.17, self.18, self.19, self.20, self.21, self.22, self.23, self.24, self.25).parse_ensures(t7, Err(e)));
                assert((self.6, self.7, self.8, self.9, self.10, self.11, self.12, self.13, self.14, self.15, self.16, self.17, self.18, self.19, self.20, self.21, self.22, self.23, self.24, self.25).parse_ensures(t6, Err(e)));
                assert((self.5, self.6, self.7, self.8, self.9, self.10, self.11, self.12, self.13, self.14, self.15, self.16, self.17, self.18, self.19, self.20, self.21, self.22, self.23, self.24, self.25).parse_ensures(t5, Err(e)));
                assert((self.4, self.5, self.6, self.7, self.8, self.9, self.10, self.11, self.12, self.13, self.14, self.15, self.16, self.17, self.18, self.19, self.20, self.21, self.22, self.23, self.24, self.25).parse_ensures(t4, Err(e)));
                assert((self.3, self.4, self.5, self.6, self.7, self.8, self.9, self.10, self.11, self.12, self.13, self.14, self.15, self.16, self.17, self.18, self.19, self.20, self.21, self.22, self.23, self.24, self.25).parse_ensures(t3, Err(e)));
                assert((self.2, self.3, self.4, self.5, self.6, self.7, self.8, self.9, self.10, self.11, self.12, self.13, self.14, self.15, self.16, self.17, self.18, self.19, self.20, self.21, self.22, self.23, self.24, self.25).parse_ensures(t2, Err(e)));
                assert((self.1, self.2, self.3, self.4, self.5, self.6, self.7, self.8, self.9, self.10, self.11, self.12, self.13, self.14, self.15, self.16, self.17, self.18, self.19, self.20, self.21, self.22, self.23, self.24, self.25).parse_ensures(t1, Err(e)));
                return Err(e);
            },
        };
        assert(self.20.parse_ensures(t20, Ok((u, t21))));
        assert((self.21, self.22, self.23, self.24, self.25).parse_requires(t21));
        let (v, t22) = match self.21.parse(t21) {
            Ok(r) => r,
            Err(e) => {
                assert((self.21, self.22, self.23, self.24, self.25).parse_ensures(t21, Err(e)));
                assert((self.20, self.21, self.22, self.23, self.24, self.25).parse_ensures(t20, Err(e)));
                assert((self.19, self.20, self.21, self.22, self.23, self.24, self.25).parse_ensures(t19, Err(e)));
                assert((self.18, self.19, self.20, self.21, self.22, self.23, self.24, self.25).parse_ensures(t18, Err(e)));
                assert((self.17, self.18, self.19, self.20, self.21, self.22, self.23, self.24, self.25).parse_ensures(t17, Err(e)));
                assert((self.16, self.17, self.18, self.19, self.20, self.21, self.22, self.23, self.24, self.25).parse_ensures(t16, Err(e)));
                assert((self.15, self.16, self.17, self.18, self.19, self.20, self.21, self.22, self.23, self.24, self.25).parse_ensures(t15, Err(e)));
                assert((self.14, self.15, self.16, self.17, self.18, self.19, self.20, self.21, self.22, self.23, self.24, self.25).parse_ensures(t14, Err(e)));
                assert((self.13, self.14, self.15, self.16, self.17, self.18, self.19, self.20, self.21, self.22, self.23, self.24, self.25).parse_ensures(t13, Err(e)));
                assert((self.12, self.13, self.14, self.15, self.16, self.17, self.18, self.19, self.20, self.21, self.22, self.23, self.24, self.25).parse_ensures(t12, Err(e)));
                assert((self.11, self.12, self.13, self.14, self.15, self.16, self.17, self.18, self.19, self.20, self.21, self.22, self.23, self.24, self.25).parse_ensures(t11, Err(e)));
                assert((self.10, self.11, self.12, self.13, self.14, self.15, self.16, self.17, self.18, self.19, self.20, self.21, self.22, self.23, self.24, self.25).parse_ensures(t10, Err(e)));
                assert((self.9, self.10, self.11, self.12, self.13, self.14, self.15, self.16, self.17, self.18, self.19, self.20, self.21, self.22, self.23, self.24, self.25).parse_ensures(t9, Err(e)));
                assert((self.8, self.9, self.10, self.11, self.12, self.13, self.14, self.15, self.16, self.17, self.18, self.19, self.20, self.21, self.22, self.23, self.24, self.25).parse_ensures(t8, Err(e)));
                assert((self.7, self.8, self.9, self.10, self.11, self.12, self.13, self.14, self.15, self.16, self.17, self.18, self.19, self.20, self.21, self.22, self.23, self.24, self.25).parse_ensures(t7, Err(e)));
                assert((self.6, self.7, self.8, self.9, self.10, self.11, self.12, self.13, self.14, self.15, self.16, self.17, self.18, self.19, self.20, self.21, self.22, self.23, self.24, self.25).parse_ensures(t6, Err(e)));
                assert((self.5, self.6, self.7, self.8, self.9, self.10, self.11, self.12, self.13, self.14, self.15, self.16, self.17, self.18, self.19, self.20, self.21, self.22, self.23, self.24, self.25).parse_ensures(t5, Err(e)));
                assert((self.4, self.5, self.6, self.7, self.8, self.9, self.10, self.11, self.12, self.13, self.14, self.15, self.16, self.17, self.18, self.19, self.20, self.21, self.22, self.23, self.24, self.25).parse_ensures(t4, Err(e)));
                assert((self.3, self.4, self.5, self.6, self.7, self.8, self.9, self.10, self.11, self.12, self.13, self.14, self.15, self.16, self.17, self.18, self.19, self.20, self.21, self.22, self.23, self.24, self.25).parse_ensures(t3, Err(e)));
                assert((self.2, self.3, self.4, self.5, self.6, self.7, self.8, self.9, self.10, self.11, self.12, self.13, self.14, self.15, self.16, self.17, self.18, self.19, self.20, self.21, self.22, self.23, self.24, self.25).parse_ensures(t2, Err(e)));
                assert((self.1, self.2, self.3, self.4, self.5, self.6, self.7, self.8, self.9, self.10, self.11, self.12, self.13, self.14, self.15, self.16, self.17, self.18, self.19, self.20, self.21, self.22, self.23, self.24, self.25).parse_ensures(t1, Err(e)));
                return Err(e);
            },
        };
        assert(self.21.parse_ensures(t21, Ok((v, t22))));
        assert((self.22, self.23, self.24, self.25).parse_requires(t22));
        let (w, t23) = match self.22.parse(t22) {
            Ok(r) => r,
            Err(e) => {
                assert((self.22, self.23, self.24, self.25).parse_ensures(t22, Err(e)));
                assert((self.21, self.22, self.23, self.24, self.25).parse_ensures(t21, Err(e)));
                assert((self.20, self.21, self.22, self.23, self.24, self.25).parse_ensures(t20, Err(e)));
                assert((self.19, self.20, self.21, self.22, self.23, self.24, self.25).parse_ensures(t19, Err(e)));
                assert((self.18, self.19, self.20, self.21, self.22, self.23, self.24, self.25).parse_ensures(t18, Err(e)));
                assert((self.17, self.18, self.19, self.20, self.21, self.22, self.23, self.24, self.25).parse_ensures(t17, Err(e)));
                assert((self.16, self.17, self.18, self.19, self.20, self.21, self.22, self.23, self.24, self.25).parse_ensures(t16, Err(e)));
                assert((self.15, self.16, self.17, self.18, self.19, self.20, self.21, self.22, self.23, self.24, self.25).parse_ensures(t15, Err(e)));
                assert((self.14, self.15, self.16, self.17, self.18, self.19, self.20, self.21, self.22, self.23, self.24, self.25).parse_ensures(t14, Err(e)));
                assert((self.13, self.14, self.15, self.16, self.17, self.18, self.19, self.20, self.21, self.22, self.23, self.24, self.25).parse_ensures(t13, Err(e)));
                assert((self.12, self.13, self.14, self.15, self.16, self.17, self.18, self.19, self.20, self.21, self.22, self.23, self.24, self.25).parse_ensures(t12, Err(e)));
                assert((self.11, self.12, self.13, self.14, self.15, self.16, self.17, self.18, self.19, self.20, self.21, self.22, self.23, self.24, self.25).parse_ensures(t11, Err(e)));
                assert((self.10, self.11, self.12, self.13, self.14, self.15, self.16, self.17, self.18, self.19, self.20, self.21, self.22, self.23, self.24, self.25).parse_ensures(t10, Err(e)));
                assert((self.9, self.10, self.11, self.12, self.13, self.14, self.15, self.16, self.17, self.18, self.19, self.20, self.21, self.22, self.23, self.24, self.25).parse_ensures(t9, Err(e)));
                assert((self.8, self.9, self.10, self.11, self.12, self.13, self.14, self.15, self.16, self.17, self.18, self.19, self.20, self.21, self.22, self.23, self.24, self.25).parse_ensures(t8, Err(e)));
                assert((self.7, self.8, self.9, self.10, self.11, self.12, self.13, self.14, self.15, self.16, self.17, self.18, self.19, self.20, self.21, self.22, self.23, self.24, self.25).parse_ensures(t7, Err(e)));
                assert((self.6, self.7, self.8, self.9, self.10, self.11, self.12, self.13, self.14, self.15, self.16, self.17, self.18, self.19, self.20, self.21, self.22, self.23, self.24, self.25).parse_ensures(t6, Err(e)));
                assert((self.5, self.6, self.7, self.8, self.9, self.10, self.11, self.12, self.13, self.14, self.15, self.16, self.17, self.18, self.19, self.20, self.21, self.22, self.23, self.24, self.25).parse_ensures(t5, Err(e)));
                assert((self.4, self.5, self.6, self.7, self.8, self.9, self.10, self.11, self.12, self.13, self.14, self.15, self.16, self.17, self.18, self.19, self.20, self.21, self.22, self.23, self.24, self.25).parse_ensures(t4, Err(e)));
                assert((self.3, self.4, self.5, self.6, self.7, self.8, self.9, self.10, self.11, self.12, self.13, self.14, self.15, self.16, self.17, self.18, self.19, self.20, self.21, self.22, self.23, self.24, self.25).parse_ensures(t3, Err(e)));
                assert((self.2, self.3, self.4, self.5, self.6, self.7, self.8, self.9, self.10, self.11, self.12, self.13, self.14, self.15, self.16, self.17, self.18, self.19, self.20, self.21, self.22, self.23, self.24, self.25).parse_ensures(t2, Err(e)));
                assert((self.1, self.2, self.3, self.4, self.5, self.6, self.7, self.8, self.9, self.10, self.11, self.12, self.13, self.14, self.15, self.16, self.17, self.18, self.19, self.20, self.21, self.22, self.23, self.24, self.25).parse_ensures(t1, Err(e)));
                return Err(e);
            },
        };
        assert(self.22.parse_ensures(t22, Ok((w, t23))));
        assert((self.23, self.24, self.25).parse_requires(t23));
        let (x, t24) = match self.23.parse(t23) {
            Ok(r) => r,
            Err(e) => {
                assert((self.23, self.24, self.25).parse_ensures(t23, Err(e)));
                assert((self.22, self.23, self.24, self.25).parse_ensures(t22, Err(e)));
                assert((self.21, self.22, self.23, self.24, self.25).parse_ensures(t21, Err(e)));
                assert((self.20, self.21, self.22, self.23, self.24, self.25).parse_ensures(t20, Err(e)));
                assert((self.19, self.20, self.21, self.22, self.23, self.24, self.25).parse_ensures(t19, Err(e)));
                assert((self.18, self.19, self.20, self.21, self.22, self.23, self.24, self.25).parse_ensures(t18, Err(e)));
                assert((self.17, self.18, self.19, self.20, self.21, self.22, self.23, self.24, self.25).parse_ensures(t17, Err(e)));
                assert((self.16, self.17, self.18, self.19, self.20, self.21, self.22, self.23, self.24, self.25).parse_ensures(t16, Err(e)));
                assert((self.15, self.16, self.17, self.18, self.19, self.20, self.21, self.22, self.23, self.24, self.25).parse_ensures(t15, Err(e)));
                assert((self.14, self.15, self.16, self.17, self.18, self.19, self.20, self.21, self.22, self.23, self.24, self.25).parse_ensures(t14, Err(e)));
                assert((self.13, self.14, self.15, self.16, self.17, self.18, self.19, self.20, self.21, self.22, self.23, self.24, self.25).parse_ensures(t13, Err(e)));
                assert((self.12, self.13, self.14, self.15, self.16, self.17, self.18, self.19, self.20, self.21, self.22, self.23, self.24, self.25).parse_ensures(t12, Err(e)));
                assert((self.11, self.12, self.13, self.14, self.15, self.16, self.17, self.18, self.19, self.20, self.21, self.22, self.23, self.24, self.25).parse_ensures(t11, Err(e)));
                assert((self.10, self.11, self.12, self.13, self.14, self.15, self.16, self.17, self.18, self.19, self.20, self.21, self.22, self.23, self.24, self.25).parse_ensures(t10, Err(e)));
                assert((self.9, self.10, self.11, self.12, self.13, self.14, self.15, self.16, self.17, self.18, self.19, self.20, self.21, self.22, self.23, self.24, self.25).parse_ensures(t9, Err(e)));
                assert((self.8, self.9, self.10, self.11, self.12, self.13, self.14, self.15, self.16, self.17, self.18, self.19, self.20, self.21, self.22, self.23, self.24, self.25).parse_ensures(t8, Err(e)));
                assert((self.7, self.8, self.9, self.10, self.11, self.12, self.13, self.14, self.15, self.16, self.17, self.18, self.19, self.20, self.21, self.22, self.23, self.24, self.25).parse_ensures(t7, Err(e)));
                assert((self.6, self.7, self.8, self.9, self.10, self.11, self.12, self.13, self.14, self.15, self.16, self.17, self.18, self.19, self.20, self.21, self.22, self.23, self.24, self.25).parse_ensures(t6, Err(e)));
                assert((self.5, self.6, self.7, self.8, self.9, self.10, self.11, self.12, self.13, self.14, self.15, self.16, self.17, self.18, self.19, self.20, self.21, self.22, self.23, self.24, self.25).parse_ensures(t5, Err(e)));
                assert((self.4, self.5, self.6, self.7, self.8, self.9, self.10, self.11, self.12, self.13, self.14, self.15, self.16, self.17, self.18, self.19, self.20, self.21, self.22, self.23, self.24, self.25).parse_ensures(t4, Err(e)));
                assert((self.3, self.4, self.5, self.6, self.7, self.8, self.9, self.10, self.11, self.12, self.13, self.14, self.15, self.16, self.17, self.18, self.19, self.20, self.21, self.22, self.23, self.24, self.25).parse_ensures(t3, Err(e)));
                assert((self.2, self.3, self.4, self.5, self.6, self.7, self.8, self.9, self.10, self.11, self.12, self.13, self.14, self.15, self.16, self.17, self.18, self.19, self.20, self.21, self.22, self.23, self.24, self.25).parse_ensures(t2, Err(e)));
                assert((self.1, self.2, self.3, self.4, self.5, self.6, self.7, self.8, self.9, self.10, self.11, self.12, self.13, self.14, self.15, self.16, self.17, self.18, self.19, self.20, self.21, self.22, self.23, self.24, self.25).parse_ensures(t1, Err(e)));
                return Err(e);
            },
        };
        assert(self.23.parse_ensures(t23, Ok((x, t24))));
        assert((self.24, self.25).parse_requires(t24));
        let (y, t25) = match self.24.parse(t24) {
            Ok(r) => r,
            Err(e) => {
                assert((self.24, self.25).parse_ensures(t24, Err(e)));
                assert((self.23, self.24, self.25).parse_ensures(t23, Err(e)));
                assert((self.22, self.23, self.24, self.25).parse_ensures(t22, Err(e)));
                assert((self.21, self.22, self.23, self.24, self.25).parse_ensures(t21, Err(e)));
                assert((self.20, self.21, self.22, self.23, self.24, self.25).parse_ensures(t20, Err(e)));
                assert((self.19, self.20, self.21, self.22, self.23, self.24, self.25).parse_ensures(t19, Err(e)));
                assert((self.18, self.19, self.20, self.21, self.22, self.23, self.24, self.25).parse_ensures(t18, Err(e)));
                assert((self.17, self.18, self.19, self.20, self.21, self.22, self.23, self.24, self.25).parse_ensures(t17, Err(e)));
                assert((self.16, self.17, self.18, self.19, self.20, self.21, self.22, self.23, self.24, self.25).parse_ensures(t16, Err(e)));
                assert((self.15, self.16, self.17, self.18, self.19, self.20, self.21, self.22, self.23, self.24, self.25).parse_ensures(t15, Err(e)));
                assert((self.14, self.15, self.16, self.17, self.18, self.19, self.20, self.21, self.22, self.23, self.24, self.25).parse_ensures(t14, Err(e)));
                assert((self.13, self.14, self.15, self.16, self.17, self.18, self.19, self.20, self.21, self.22, self.23, self.24, self.25).parse_ensures(t13, Err(e)));
                assert((self.12, self.13, self.14, self.15, self.16, self.17, self.18, self.19, self.20, self.21, self.22, self.23, self.24, self.25).parse_ensures(t12, Err(e)));
                assert((self.11, self.12, self.13, self.14, self.15, self.16, self.17, self.18, self.19, self.20, self.21, self.22, self.23, self.24, self.25).parse_ensures(t11, Err(e)));
                assert((self.10, self.11, self.12, self.13, self.14, self.15, self.16, self.17, self.18, self.19, self.20, self.21, self.22, self.23, self.24, self.25).parse_ensures(t10, Err(e)));
                assert((self.9, self.10, self.11, self.12, self.13, self.14, self.15, self.16, self.17, self.18, self.19, self.20, self.21, self.22, self.23, self.24, self.25).parse_ensures(t9, Err(e)));
                assert((self.8, self.9, self.10, self.11, self.12, self.13, self.14, self.15, self.16, self.17, self.18, self.19, self.20, self.21, self.22, self.23, self.24, self.25).parse_ensures(t8, Err(e)));
                assert((self.7, self.8, self.9, self.10, self.11, self.12, self.13, self.14, self.15, self.16, self.17, self.18, self.19, self.20, self.21, self.22, self.23, self.24, self.25).parse_ensures(t7, Err(e)));
                assert((self.6, self.7, self.8, self.9, self.10, self.11, self.12, self.13, self.14, self.15, self.16, self.17, self.18, self.19, self.20, self.21, self.22, self.23, self.24, self.25).parse_ensures(t6, Err(e)));
                assert((self.5, self.6, self.7, self.8, self.9, self.10, self.11, self.12, self.13, self.14, self.15, self.16, self.17, self.18, self.19, self.20, self.21, self.22, self.23, self.24, self.25).parse_ensures(t5, Err(e)));
                assert((self.4, self.5, self.6, self.7, self.8, self.9, self.10, self.11, self.12, self.13, self.14, self.15, self.16, self.17, self.18, self.19, self.20, self.21, self.22, self.23, self.24, self.25).parse_ensures(t4, Err(e)));
                assert((self.3, self.4, self.5, self.6, self.7, self.8, self.9, self.10, self.11, self.12, self.13, self.14, self.15, self.16, self.17, self.18, self.19, self.20, self.21, self.22, self.23, self.24, self.25).parse_ensures(t3, Err(e)));
                assert((self.2, self.3, self.4, self.5, self.6, self.7, self.8, self.9, self.10, self.11, self.12, self.13, self.14, self.15, self.16, self.17, self.18, self.19, self.20, self.21, self.22, self.23, self.24, self.25).parse_ensures(t2, Err(e)));
                assert((self.1, self.2, self.3, self.4, self.5, self.6, self.7, self.8, self.9, self.10, self.11, self.12, self.13, self.14, self.15, self.16, self.17, self.18, self.19, self.20, self.21, self.22, self.23, self.24, self.25).parse_ensures(t1, Err(e)));
                return Err(e);
            },
        };
        assert(self.24.parse_ensures(t24, Ok((y, t25))));
        let (z, t26) = match self.25.parse(t25) {
            Ok(r) => r,
            Err(e) => {
                assert((self.24, self.25).parse_ensures(t24, Err(e)));
                assert((self.23, self.24, self.25).parse_ensures(t23, Err(e)));
                assert((self.22, self.23, self.24, self.25).parse_ensures(t22, Err(e)));
                assert((self.21, self.22, self.23, self.24, self.25).parse_ensures(t21, Err(e)));
                assert((self.20, self.21, self.22, self.23, self.24, self.25).parse_ensures(t20, Err(e)));
                assert((self.19, self.20, self.21, self.22, self.23, self.24, self.25).parse_ensures(t19, Err(e)));
                assert((self.18, self.19, self.20, self.21, self.22, self.23, self.24, self.25).parse_ensures(t18, Err(e)));
                assert((self.17, self.18, self.19, self.20, self.21, self.22, self.23, self.24, self.25).parse_ensures(t17, Err(e)));
                assert((self.16, self.17, self.18, self.19, self.20, self.21, self.22, self.23, self.24, self.25).parse_ensures(t16, Err(e)));
                assert((self.15, self.16, self.17, self.18, self.19, self.20, self.21, self.22, self.23, self.24, self.25).parse_ensures(t15, Err(e)));
                assert((self.14, self.15, self.16, self.17, self.18, self.19, self.20, self.21, self.22, self.23, self.24, self.25).parse_ensures(t14, Err(e)));
                assert((self.13, self.14, self.15, self.16, self.17, self.18, self.19, self.20, self.21, self.22, self.23, self.24, self.25).parse_ensures(t13, Err(e)));
                assert((self.12, self.13, self.14, self.15, self.16, self.17, self.18, self.19, self.20, self.21, self.22, self.23, self.24, self.25).parse_ensures(t12, Err(e)));
                assert((self.11, self.12, self.13, self.14, self.15, self.16, self.17, self.18, self.19, self.20, self.21, self.22, self.23, self.24, self.25).parse_ensures(t11, Err(e)));
                assert((self.10, self.11, self.12, self.13, self.14, self.15, self.16, self.17, self.18, self.19, self.20, self.21, self.22, self.23, self.24, self.25).parse_ensures(t10, Err(e)));
                assert((self.9, self.10, self.11, self.12, self.13, self.14, self.15, self.16, self.17, self.18, self.19, self.20, self.21, self.22, self.23, self.24, self.25).parse_ensures(t9, Err(e)));
                assert((self.8, self.9, self.10, self.11, self.12, self.13, self.14, self.15, self.16, self.17, self.18, self.19, self.20, self.21, self.22, self.23, self.24, self.25).parse_ensures(t8, Err(e)));
                assert((self.7, self.8, self.9, self.10, self.11, self.12, self.13, self.14, self.15, self.16, self.17, self.18, self.19, self.20, self.21, self.22, self.23, self.24, self.25).parse_ensures(t7, Err(e)));
                assert((self.6, self.7, self.8, self.9, self.10, self.11, self.12, self.13, self.14, self.15, self.16, self.17, self.18, self.19, self.20, self.21, self.22, self.23, self.24, self.25).parse_ensures(t6, Err(e)));
                assert((self.5, self.6, self.7, self.8, self.9, self.10, self.11, self.12, self.13, self.14, self.15, self.16, self.17, self.18, self.19, self.20, self.21, self.22, self.23, self.24, self.25).parse_ensures(t5, Err(e)));
                assert((self.4, self.5, self.6, self.7, self.8, self.9, self.10, self.11, self.12, self.13, self.14, self.15, self.16, self.17, self.18, self.19, self.20, self.21, self.22, self.23, self.24, self.25).parse_ensures(t4, Err(e)));
                assert((self.3, self.4, self.5, self.6, self.7, self.8, self.9, self.10, self.11, self.12, self.13, self.14, self.15, self.16, self.17, self.18, self.19, self.20, self.21, self.22, self.23, self.24, self.25).parse_ensures(t3, Err(e)));
                assert((self.2, self.3, self.4, self.5, self.6, self.7, self.8, self.9, self.10, self.11, self.12, self.13, self.14, self.15, self.16, self.17, self.18, self.19, self.20, self.21, self.22, self.23, self.24, self.25).parse_ensures(t2, Err(e)));
                assert((self.1, self.2, self.3, self.4, self.5, self.6, self.7, self.8, self.9, self.10, self.11, self.12, self.13, self.14, self.15, self.16, self.17, self.18, self.19, self.20, self.21, self.22, self.23, self.24, self.25).parse_ensures(t1, Err(e)));
                return Err(e);
            },
        };
        assert((self.24, self.25).parse_ensures(t24, Ok(((y, z), t26))));
        assert((self.23, self.24, self.25).parse_ensures(t23, Ok(((x, y, z), t26))));
        assert((self.22, self.23, self.24, self.25).parse_ensures(t22, Ok(((w, x, y, z), t26))));
        assert((self.21, self.22, self.23, self.24, self.25).parse_ensures(t21, Ok(((v, w, x, y, z), t26))));
        assert((self.20, self.21, self.22, self.23, self.24, self.25).parse_ensures(t20, Ok(((u, v, w, x, y, z), t26))));
        assert((self.19, self.20, self.21, self.22, self.23, self.24, self.25).parse_ensures(t19, Ok(((t, u, v, w, x, y, z), t26))));
        assert((self.18, self.19, self.20, self.21, self.22, self.23, self.24, self.25).parse_ensures(t18, Ok(((s, t, u, v, w, x, y, z), t26))));
        assert((self.17, self.18, self.19, self.20, self.21, self.22, self.23, self.24, self.25).parse_ensures(t17, Ok(((r, s, t, u, v, w, x, y, z), t26))));
        assert((self.16, self.17, self.18, self.19, self.20, self.21, self.22, self.23, self.24, self.25).parse_ensures(t16, Ok(((q, r, s, t, u, v, w, x, y, z), t26))));
        assert((self.15, self.16, self.17, self.18, self.19, self.20, self.21, self.22, self.23, self.24, self.25).parse_ensures(t15, Ok(((p, q, r, s, t, u, v, w, x, y, z), t26))));
        assert((self.14, self.15, self.16, self.17, self.18, self.19, self.20, self.21, self.22, self.23, self.24, self.25).parse_ensures(t14, Ok(((o, p, q, r, s, t, u, v, w, x, y, z), t26))));
        assert((self.13, self.14, self.15, self.16, self.17, self.18, self.19, self.20, self.21, self.22, self.23, self.24, self.25).parse_ensures(t13, Ok(((n, o, p, q, r, s, t, u, v, w, x, y, z), t26))));
        assert((self.12, self.13, self.14, self.15, self.16, self.17, self.18, self.19, self.20, self.21, self.22, self.23, self.24, self.25).parse_ensures(t12, Ok(((m, n, o, p, q, r, s, t, u, v, w, x, y, z), t26))));
        assert((self.11, self.12, self.13, self.14, self.15, self.16, self.17, self.18, self.19, self.20, self.21, self.22, self.23, self.24, self.25).parse_ensures(t11, Ok(((l, m, n, o, p, q, r, s, t, u, v, w, x, y, z), t26))));
        assert((self.10, self.11, self.12, self.13, self.14, self.15, self.16, self.17, self.18, self.19, self.20, self.21, self.22, self.23, self.24, self.25).parse_ensures(t10, Ok(((k, l, m, n, o, p, q, r, s, t, u, v, w, x, y, z), t26))));
        assert((self.9, self.10, self.11, self.12, self.13, self.14, self.15, self.16, self.17, self.18, self.19, self.20, self.21, self.22, self.23, self.24, self.25).parse_ensures(t9, Ok(((j, k, l, m, n, o, p, q, r, s, t, u, v, w, x, y, z), t26))));
        assert((self.8, self.9, self.10, self.11, self.12, self.13, self.14, self.15, self.16, self.17, self.18, self.19, self.20, self.21, self.22, self.23, self.24, self.25).parse_ensures(t8, Ok(((i, j, k, l, m, n, o, p, q, r, s, t, u, v, w, x, y, z), t26))));
        assert((self.7, self.8, self.9, self.10, self.11, self.12, self.13, self.14, self.15, self.16, self.17, self.18, self.19, self.20, self.21, self.22, self.23, self.24, self.25).parse_ensures(t7, Ok(((h, i, j, k, l, m, n, o, p, q, r, s, t, u, v, w, x, y, z), t26))));
        assert((self.6, self.7, self.8, self.9, self.10, self.11, self.12, self.13, self.14, self.15, self.16, self.17, self.18, self.19, self.20, self.21, self.22, self.23, self.24, self.25).parse_ensures(t6, Ok(((g, h, i, j, k, l, m, n, o, p, q, r, s, t, u, v, w, x, y, z), t26))));
        assert((self.5, self.6, self.7, self.8, self.9, self.10, self.11, self.12, self.13, self.14, self.15, self.16, self.17, self.18, self.19, self.20, self.21, self.22, self.23, self.24, self.25).parse_ensures(t5, Ok(((f, g, h, i, j, k, l, m, n, o, p, q, r, s, t, u, v, w, x, y, z), t26))));
        assert((self.4, self.5, self.6, self.7, self.8, self.9, self.10, self.11, self.12, self.13, self.14, self.15, self.16, self.17, self.18, self.19, self.20, self.21, self.22, self.23, self.24, self.25).parse_ensures(t4, Ok(((e, f, g, h, i, j, k, l, m, n, o, p, q, r, s, t, u, v, w, x, y, z), t26))));
        assert((self.3, self.4, self.5, self.6, self.7, self.8, self.9, self.10, self.11, self.12, self.13, self.14, self.15, self.16, self.17, self.18, self.19, self.20, self.21, self.22, self.23, self.24, self.25).parse_ensures(t3, Ok(((d, e, f, g, h, i, j, k, l, m, n, o, p, q, r, s, t, u, v, w, x, y, z), t26))));
        assert((self.2, self.3, self.4, self.5, self.6, self.7, self.8, self.9, self.10, self.11, self.12, self.13, self.14, self.15, self.16, self.17, self.18, self.19, self.20, self.21, self.22, self.23, self.24, self.25).parse_ensures(t2, Ok(((c, d, e, f, g, h, i, j, k, l, m, n, o, p, q, r, s, t, u, v, w, x, y, z), t26))));
        assert((self.1, self.2, self.3, self.4, self.5, self.6, self.7, self.8, self.9, self.10, self.11, self.12, self.13, self.14, self.15, self.16, self.17, self.18, self.19, self.20, self.21, self.22, self.23, self.24, self.25).parse_ensures(t1, Ok(((b, c, d, e, f, g, h, i, j, k, l, m, n, o, p, q, r, s, t, u, v, w, x, y, z), t26))));
        Ok(((a, b, c, d, e, f, g, h, i, j, k, l, m, n, o, p, q, r, s, t, u, v, w, x, y, z), t26))
    }
}

/// A tuple of 26 deterministic parsers is deterministic.
pub proof fn lemma_tuple26_deterministic<Inp, Er, A, B, C, D, E, F, G, H, I, J, K, L, M, N, O, P, Q, R, S, T, U, V, W, X, Y, Z>(t: (A, B, C, D, E, F, G, H, I, J, K, L, M, N, O, P, Q, R, S, T, U, V, W, X, Y, Z))
    where
        A: Parser<Inp, Error = Er>,
        B: Parser<Inp, Error = Er>,
        C: Parser<Inp, Error = Er>,
        D: Parser<Inp, Error = Er>,
        E: Parser<Inp, Error = Er>,
        F: Parser<Inp, Error = Er>,
        G: Parser<Inp, Error = Er>,
        H: Parser<Inp, Error = Er>,
        I: Parser<Inp, Error = Er>,
        J: Parser<Inp, Error = Er>,
        K: Parser<Inp, Error = Er>,
        L: Parser<Inp, Error = Er>,
        M: Parser<Inp, Error = Er>,
        N: Parser<Inp, Error = Er>,
        O: Parser<Inp, Error = Er>,
        P: Parser<Inp, Error = Er>,
        Q: Parser<Inp, Error = Er>,
        R: Parser<Inp, Error = Er>,
        S: Parser<Inp, Error = Er>,
        T: Parser<Inp, Error = Er>,
        U: Parser<Inp, Error = Er>,
        V: Parser<Inp, Error = Er>,
        W: Parser<Inp, Error = Er>,
        X: Parser<Inp, Error = Er>,
        Y: Parser<Inp, Error = Er>,
        Z: Parser<Inp, Error = Er>,
    requires
        deterministic::<Inp, A>(t.0),
        deterministic::<Inp, B>(t.1),
        deterministic::<Inp, C>(t.2),
        deterministic::<Inp, D>(t.3),
        deterministic::<Inp, E>(t.4),
        deterministic::<Inp, F>(t.5),
        deterministic::<Inp, G>(t.6),
        deterministic::<Inp, H>(t.7),
        deterministic::<Inp, I>(t.8),
        deterministic::<Inp, J>(t.9),
        deterministic::<Inp, K>(t.10),
        deterministic::<Inp, L>(t.11),
        deterministic::<Inp, M>(t.12),
        deterministic::<Inp, N>(t.13),
        deterministic::<Inp, O>(t.14),
        deterministic::<Inp, P>(t.15),
        deterministic::<Inp, Q>(t.16),
        deterministic::<Inp, R>(t.17),
        deterministic::<Inp, S>(t.18),
        deterministic::<Inp, T>(t.19),
        deterministic::<Inp, U>(t.20),
        deterministic::<Inp, V>(t.21),
        deterministic::<Inp, W>(t.22),
        deterministic::<Inp, X>(t.23),
        deterministic::<Inp, Y>(t.24),
        deterministic::<Inp, Z>(t.25),
    ensures
        deterministic::<Inp, (A, B, C, D, E, F, G, H, I, J, K, L, M, N, O, P, Q, R, S, T, U, V, W, X, Y, Z)>(t),
{
    lemma_tuple25_deterministic::<Inp, Er, B, C, D, E, F, G, H, I, J, K, L, M, N, O, P, Q, R, S, T, U, V, W, X, Y, Z>((t.1, t.2, t.3, t.4, t.5, t.6, t.7, t.8, t.9, t.10, t.11, t.12, t.13, t.14, t.15, t.16, t.17, t.18, t.19, t.20, t.21, t.22, t.23, t.24, t.25));
    lemma_seq_unique::<Inp, A, (B, C, D, E, F, G, H, I, J, K, L, M, N, O, P, Q, R, S, T, U, V, W, X, Y, Z)>(t.0, (t.1, t.2, t.3, t.4, t.5, t.6, t.7, t.8, t.9, t.10, t.11, t.12, t.13, t.14, t.15, t.16, t.17, t.18, t.19, t.20, t.21, t.22, t.23, t.24, t.25));
}

} // verus!
