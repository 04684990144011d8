use vstd::prelude::*;

use core::marker::PhantomData;

use crate::error::Error;
use crate::error::SpecError;
use crate::parser::Output;
use crate::parser::Parser;
use crate::parser::is_remainder;
use crate::parser::lemma_remainder_refl;
use crate::parser::lemma_remainder_trans;

verus! {

/// A sequence: a homogeneous collection or a fixed heterogeneous group of
/// parsers run strictly left to right over successively shrinking
/// remainders. The first failure aborts the whole sequence and is returned
/// untouched; success yields every component's value, in order.
pub trait Series<'a, O> {
    spec fn series_wf(&self) -> bool;

    spec fn series_ok(&self, input: Seq<char>, out: O, rem: Seq<char>) -> bool;

    spec fn series_err(&self, input: Seq<char>, e: SpecError) -> bool;

    fn parse_series(&self, input: &'a str) -> (r: Output<'a, O>)
        requires
            self.series_wf(),
        ensures
            r matches Ok((out, rem)) ==> (self.series_ok(input@, out, rem@) && is_remainder(
                input@,
                rem@,
            )),
            r matches Err(e) ==> self.series_err(input@, e@),
    ;
}

/// The parser that `series` builds: its components in order.
pub struct SeriesOf<S> {
    pub components: S,
}

/// A parser that runs the given components strictly left to right; see
/// `Series` for the outcome.
pub fn series<S>(components: S) -> (r: SeriesOf<S>)
    ensures
        r.components == components,
{
    SeriesOf { components }
}

impl<'a, O, S: Series<'a, O>> Parser<'a, O> for SeriesOf<S> {
    open spec fn wf(&self) -> bool {
        self.components.series_wf()
    }

    open spec fn ok(&self, input: Seq<char>, out: O, rem: Seq<char>) -> bool {
        self.components.series_ok(input, out, rem)
    }

    open spec fn err(&self, input: Seq<char>, e: SpecError) -> bool {
        self.components.series_err(input, e)
    }

    fn parse(&self, input: &'a str) -> (r: Output<'a, O>) {
        self.components.parse_series(input)
    }
}

/// The parser that `pair` builds: two parsers in order, both values kept.
pub struct Pair<A, B> {
    pub first: A,
    pub second: B,
}

/// A parser that runs `a`, then `b` on what `a` left, and yields both
/// values; the first failure aborts and is returned untouched.
pub fn pair<A, B>(a: A, b: B) -> (r: Pair<A, B>)
    ensures
        r.first == a,
        r.second == b,
{
    Pair { first: a, second: b }
}

impl<'a, OA, OB, A, B> Parser<'a, (OA, OB)> for Pair<A, B> where
    A: Parser<'a, OA>,
    B: Parser<'a, OB>,
 {
    open spec fn wf(&self) -> bool {
        &&& self.first.wf()
        &&& self.second.wf()
    }

    open spec fn ok(&self, input: Seq<char>, out: (OA, OB), rem: Seq<char>) -> bool {
        exists|r0: Seq<char>|
            #[trigger] self.first.ok(input, out.0, r0) && self.second.ok(r0, out.1, rem)
    }

    open spec fn err(&self, input: Seq<char>, e: SpecError) -> bool {
        ||| self.first.err(input, e)
        ||| exists|v: OA, r0: Seq<char>|
            #[trigger] self.first.ok(input, v, r0) && self.second.err(r0, e)
    }

    fn parse(&self, input: &'a str) -> (r: Output<'a, (OA, OB)>) {
        let (va, r0) = match self.first.parse(input) {
            Ok(x) => x,
            Err(e) => {
                return Err(e);
            },
        };
        match self.second.parse(r0) {
            Ok((vb, rem)) => {
                let out = (va, vb);
                proof {
                    lemma_remainder_trans(input@, r0@, rem@);
                    assert(self.first.ok(input@, out.0, r0@));
                }
                Ok((out, rem))
            },
            Err(e) => {
                proof {
                    assert(self.first.ok(input@, va, r0@));
                }
                Err(e)
            },
        }
    }
}

/// The parser that `trio` builds: three parsers in order, all values kept.
pub struct Trio<A, B, C> {
    pub first: A,
    pub second: B,
    pub third: C,
}

/// A parser that runs `a`, `b` and `c` in order over shrinking remainders
/// and yields all three values; the first failure aborts and is returned
/// untouched.
pub fn trio<A, B, C>(a: A, b: B, c: C) -> (r: Trio<A, B, C>)
    ensures
        r.first == a,
        r.second == b,
        r.third == c,
{
    Trio { first: a, second: b, third: c }
}

impl<'a, OA, OB, OC, A, B, C> Parser<'a, (OA, OB, OC)> for Trio<A, B, C> where
    A: Parser<'a, OA>,
    B: Parser<'a, OB>,
    C: Parser<'a, OC>,
 {
    open spec fn wf(&self) -> bool {
        &&& self.first.wf()
        &&& self.second.wf()
        &&& self.third.wf()
    }

    open spec fn ok(&self, input: Seq<char>, out: (OA, OB, OC), rem: Seq<char>) -> bool {
        exists|r0: Seq<char>, r1: Seq<char>|
            {
                &&& #[trigger] self.first.ok(input, out.0, r0)
                &&& #[trigger] self.second.ok(r0, out.1, r1)
                &&& self.third.ok(r1, out.2, rem)
            }
    }

    open spec fn err(&self, input: Seq<char>, e: SpecError) -> bool {
        ||| self.first.err(input, e)
        ||| exists|v: OA, r0: Seq<char>|
            #[trigger] self.first.ok(input, v, r0) && ({
                ||| self.second.err(r0, e)
                ||| exists|w: OB, r1: Seq<char>|
                    #[trigger] self.second.ok(r0, w, r1) && self.third.err(r1, e)
            })
    }

    fn parse(&self, input: &'a str) -> (r: Output<'a, (OA, OB, OC)>) {
        let (va, r0) = match self.first.parse(input) {
            Ok(x) => x,
            Err(e) => {
                return Err(e);
            },
        };
        let (vb, r1) = match self.second.parse(r0) {
            Ok(x) => x,
            Err(e) => {
                proof {
                    assert(self.first.ok(input@, va, r0@));
                }
                return Err(e);
            },
        };
        match self.third.parse(r1) {
            Ok((vc, rem)) => {
                let out = (va, vb, vc);
                proof {
                    lemma_remainder_trans(input@, r0@, r1@);
                    lemma_remainder_trans(input@, r1@, rem@);
                    assert(self.first.ok(input@, out.0, r0@));
                    assert(self.second.ok(r0@, out.1, r1@));
                }
                Ok((out, rem))
            },
            Err(e) => {
                proof {
                    assert(self.second.ok(r0@, vb, r1@));
                    assert(self.first.ok(input@, va, r0@));
                }
                Err(e)
            },
        }
    }
}

/// The parser that `leading` builds: a skipped opener, then the kept parser.
pub struct Leading<L, P, S> {
    pub leading: L,
    pub parser: P,
    pub marker: PhantomData<S>,
}

/// A parser that runs `skip`, discards its value, then runs `parser` on the
/// remainder and keeps its value; either failure propagates untouched.
pub fn leading<S, L, P>(skip: L, parser: P) -> (r: Leading<L, P, S>)
    ensures
        r.leading == skip,
        r.parser == parser,
{
    Leading { leading: skip, parser, marker: PhantomData }
}

impl<'a, S, O, L, P> Parser<'a, O> for Leading<L, P, S> where L: Parser<'a, S>, P: Parser<'a, O> {
    open spec fn wf(&self) -> bool {
        &&& self.leading.wf()
        &&& self.parser.wf()
    }

    open spec fn ok(&self, input: Seq<char>, out: O, rem: Seq<char>) -> bool {
        exists|v: S, r0: Seq<char>|
            #[trigger] self.leading.ok(input, v, r0) && self.parser.ok(r0, out, rem)
    }

    open spec fn err(&self, input: Seq<char>, e: SpecError) -> bool {
        ||| self.leading.err(input, e)
        ||| exists|v: S, r0: Seq<char>|
            #[trigger] self.leading.ok(input, v, r0) && self.parser.err(r0, e)
    }

    fn parse(&self, input: &'a str) -> (r: Output<'a, O>) {
        let (vl, r0) = match self.leading.parse(input) {
            Ok(x) => x,
            Err(e) => {
                return Err(e);
            },
        };
        match self.parser.parse(r0) {
            Ok((v, rem)) => {
                proof {
                    lemma_remainder_trans(input@, r0@, rem@);
                    assert(self.leading.ok(input@, vl, r0@));
                }
                Ok((v, rem))
            },
            Err(e) => {
                proof {
                    assert(self.leading.ok(input@, vl, r0@));
                }
                Err(e)
            },
        }
    }
}

/// The parser that `trailing` builds: the kept parser, then a skipped
/// closer.
pub struct Trailing<P, T, S> {
    pub parser: P,
    pub trailing: T,
    pub marker: PhantomData<S>,
}

/// A parser that runs `parser`, keeps its value, then runs `skip` on the
/// remainder and discards its value; either failure propagates untouched.
pub fn trailing<S, P, T>(parser: P, skip: T) -> (r: Trailing<P, T, S>)
    ensures
        r.parser == parser,
        r.trailing == skip,
{
    Trailing { parser, trailing: skip, marker: PhantomData }
}

impl<'a, S, O, P, T> Parser<'a, O> for Trailing<P, T, S> where P: Parser<'a, O>, T: Parser<'a, S> {
    open spec fn wf(&self) -> bool {
        &&& self.parser.wf()
        &&& self.trailing.wf()
    }

    open spec fn ok(&self, input: Seq<char>, out: O, rem: Seq<char>) -> bool {
        exists|r0: Seq<char>, v: S|
            #[trigger] self.parser.ok(input, out, r0) && #[trigger] self.trailing.ok(r0, v, rem)
    }

    open spec fn err(&self, input: Seq<char>, e: SpecError) -> bool {
        ||| self.parser.err(input, e)
        ||| exists|v: O, r0: Seq<char>|
            #[trigger] self.parser.ok(input, v, r0) && self.trailing.err(r0, e)
    }

    fn parse(&self, input: &'a str) -> (r: Output<'a, O>) {
        let (v, r0) = match self.parser.parse(input) {
            Ok(x) => x,
            Err(e) => {
                return Err(e);
            },
        };
        match self.trailing.parse(r0) {
            Ok((vt, rem)) => {
                proof {
                    lemma_remainder_trans(input@, r0@, rem@);
                    assert(self.parser.ok(input@, v, r0@));
                    assert(self.trailing.ok(r0@, vt, rem@));
                }
                Ok((v, rem))
            },
            Err(e) => {
                proof {
                    assert(self.parser.ok(input@, v, r0@));
                }
                Err(e)
            },
        }
    }
}

/// A parser that runs `open`, `inner` and `close` in order and keeps only
/// `inner`'s value: `leading(open, trailing(inner, close))`.
pub fn delimited<SA, SC, A, B, C>(a: A, b: B, c: C) -> (r: Leading<A, Trailing<B, C, SC>, SA>)
    ensures
        r.leading == a,
        r.parser.parser == b,
        r.parser.trailing == c,
{
    leading(a, trailing(b, c))
}

/// The parser that `list` builds: items separated by a separator.
pub struct List<P, S, OS> {
    pub parser: P,
    pub separator: S,
    pub marker: PhantomData<OS>,
}

/// A parser for a non-empty list: one item, then separator-item pairs for
/// as long as both match. An attempt that fails stops the loop without
/// consuming anything of it, so a trailing separator is left in the
/// remainder; the list fails only when the first item fails. A round that
/// would consume nothing also stops the loop, since such a grammar could
/// never terminate.
pub fn list<OS, P, S>(parser: P, separator: S) -> (r: List<P, S, OS>)
    ensures
        r.parser == parser,
        r.separator == separator,
{
    List { parser, separator, marker: PhantomData }
}

/// `vals` are parsed one after another, each preceded by one match of the
/// separator, from `input` down to `rem`.
pub open spec fn sep_chain<'a, OT, OS, T: Parser<'a, OT>, S: Parser<'a, OS>>(
    item: T,
    sep: S,
    input: Seq<char>,
    vals: Seq<OT>,
    rem: Seq<char>,
) -> bool
    decreases vals.len(),
{
    if vals.len() == 0 {
        rem == input
    } else {
        exists|sv: OS, rs: Seq<char>, ri: Seq<char>|
            {
                &&& #[trigger] sep.ok(input, sv, rs)
                &&& #[trigger] item.ok(rs, vals[0], ri)
                &&& sep_chain(item, sep, ri, vals.skip(1), rem)
            }
    }
}

/// Why a list stopped looking for further items at `rem`: the separator
/// fails there, or an item fails after the separator, or a whole further
/// round would consume nothing.
pub open spec fn list_stop<'a, OT, OS, T: Parser<'a, OT>, S: Parser<'a, OS>>(
    item: T,
    sep: S,
    rem: Seq<char>,
) -> bool {
    ||| exists|e: SpecError| sep.err(rem, e)
    ||| exists|sv: OS, rs: Seq<char>|
        #[trigger] sep.ok(rem, sv, rs) && exists|e: SpecError| item.err(rs, e)
    ||| exists|sv: OS, rs: Seq<char>, v: OT|
        #[trigger] sep.ok(rem, sv, rs) && #[trigger] item.ok(rs, v, rem)
}

/// A chain extends at its end: one more separator-item round appends one
/// value.
proof fn lemma_sep_chain_snoc<'a, OT, OS, T: Parser<'a, OT>, S: Parser<'a, OS>>(
    item: T,
    sep: S,
    input: Seq<char>,
    vals: Seq<OT>,
    rem: Seq<char>,
    sv: OS,
    rs: Seq<char>,
    v: OT,
    r2: Seq<char>,
)
    requires
        sep_chain(item, sep, input, vals, rem),
        sep.ok(rem, sv, rs),
        item.ok(rs, v, r2),
    ensures
        sep_chain(item, sep, input, vals.push(v), r2),
    decreases vals.len(),
{
    if vals.len() == 0 {
        assert(vals.push(v)[0] == v);
        assert(vals.push(v).skip(1) =~= Seq::<OT>::empty());
        assert(sep_chain(item, sep, r2, vals.push(v).skip(1), r2));
        assert(sep.ok(input, sv, rs));
    } else {
        let (sv0, rs0, ri0) = choose|sv0: OS, rs0: Seq<char>, ri0: Seq<char>|
            {
                &&& #[trigger] sep.ok(input, sv0, rs0)
                &&& #[trigger] item.ok(rs0, vals[0], ri0)
                &&& sep_chain(item, sep, ri0, vals.skip(1), rem)
            };
        lemma_sep_chain_snoc(item, sep, ri0, vals.skip(1), rem, sv, rs, v, r2);
        assert(vals.skip(1).push(v) =~= vals.push(v).skip(1));
        assert(vals.push(v)[0] == vals[0]);
        assert(item.ok(rs0, vals.push(v)[0], ri0));
    }
}

impl<'a, O, OS, P, S> Parser<'a, Vec<O>> for List<P, S, OS> where
    P: Parser<'a, O>,
    S: Parser<'a, OS>,
 {
    open spec fn wf(&self) -> bool {
        &&& self.parser.wf()
        &&& self.separator.wf()
    }

    open spec fn ok(&self, input: Seq<char>, out: Vec<O>, rem: Seq<char>) -> bool {
        &&& out@.len() >= 1
        &&& exists|r1: Seq<char>|
            #[trigger] self.parser.ok(input, out@[0], r1) && sep_chain(
                self.parser,
                self.separator,
                r1,
                out@.skip(1),
                rem,
            )
        &&& list_stop(self.parser, self.separator, rem)
    }

    open spec fn err(&self, input: Seq<char>, e: SpecError) -> bool {
        self.parser.err(input, e)
    }

    fn parse(&self, input: &'a str) -> (r: Output<'a, Vec<O>>) {
        let (v0, first_rem) = match self.parser.parse(input) {
            Ok(x) => x,
            Err(e) => {
                return Err(e);
            },
        };
        let mut out: Vec<O> = Vec::new();
        out.push(v0);
        let mut rem: &'a str = first_rem;
        proof {
            assert(out@.skip(1) =~= Seq::<O>::empty());
            crate::parser::lemma_remainder_refl(first_rem@);
        }
        loop
            invariant
                self.parser.wf(),
                self.separator.wf(),
                out@.len() >= 1,
                self.parser.ok(input@, out@[0], first_rem@),
                sep_chain(self.parser, self.separator, first_rem@, out@.skip(1), rem@),
                is_remainder(input@, rem@),
                is_remainder(first_rem@, rem@),
            ensures
                out@.len() >= 1,
                self.parser.ok(input@, out@[0], first_rem@),
                sep_chain(self.parser, self.separator, first_rem@, out@.skip(1), rem@),
                list_stop(self.parser, self.separator, rem@),
                is_remainder(input@, rem@),
            decreases rem@.len(),
        {
            let (sv, rs) = match self.separator.parse(rem) {
                Ok(x) => x,
                Err(e) => {
                    proof {
                        assert(self.separator.err(rem@, e@));
                    }
                    break ;
                },
            };
            let (v, r2) = match self.parser.parse(rs) {
                Ok(x) => x,
                Err(e) => {
                    proof {
                        assert(self.separator.ok(rem@, sv, rs@));
                        assert(self.parser.err(rs@, e@));
                    }
                    break ;
                },
            };
            if r2.unicode_len() < rem.unicode_len() {
                proof {
                    lemma_sep_chain_snoc(
                        self.parser,
                        self.separator,
                        first_rem@,
                        out@.skip(1),
                        rem@,
                        sv,
                        rs@,
                        v,
                        r2@,
                    );
                    assert(out@.push(v)[0] == out@[0]);
                    assert(out@.push(v).skip(1) =~= out@.skip(1).push(v));
                    lemma_remainder_trans(rem@, rs@, r2@);
                    lemma_remainder_trans(input@, rem@, r2@);
                    lemma_remainder_trans(first_rem@, rem@, r2@);
                }
                out.push(v);
                rem = r2;
            } else {
                proof {
                    assert(rs@ =~= rem@);
                    assert(r2@ =~= rem@);
                    assert(self.separator.ok(rem@, sv, rs@));
                    assert(self.parser.ok(rs@, v, rem@));
                }
                break ;
            }
        }
        Ok((out, rem))
    }
}

/// The empty group is a trivially successful series: it yields `()` and
/// consumes nothing.
impl<'a> Series<'a, ()> for () {
    open spec fn series_wf(&self) -> bool {
        true
    }

    open spec fn series_ok(&self, input: Seq<char>, out: (), rem: Seq<char>) -> bool {
        rem == input
    }

    open spec fn series_err(&self, input: Seq<char>, e: SpecError) -> bool {
        false
    }

    fn parse_series(&self, input: &'a str) -> (r: Output<'a, ()>) {
        proof {
            lemma_remainder_refl(input@);
        }
        Ok(((), input))
    }
}

/// The parsers of `ps`, run one after another from `input` down to `rem`,
/// yield exactly the values of `outs`, in order.
pub open spec fn vec_series_ok<'a, O, T: Parser<'a, O>>(
    ps: Seq<T>,
    input: Seq<char>,
    outs: Seq<O>,
    rem: Seq<char>,
) -> bool
    decreases ps.len(),
{
    if ps.len() == 0 {
        outs.len() == 0 && rem == input
    } else {
        &&& outs.len() >= 1
        &&& exists|r0: Seq<char>|
            #[trigger] ps[0].ok(input, outs[0], r0) && vec_series_ok(
                ps.skip(1),
                r0,
                outs.skip(1),
                rem,
            )
    }
}

/// Some prefix of `ps` succeeds and the next parser fails with `e`: the
/// error a run of the whole list reports.
pub open spec fn vec_series_err<'a, O, T: Parser<'a, O>>(
    ps: Seq<T>,
    input: Seq<char>,
    e: SpecError,
) -> bool {
    exists|j: int, outs: Seq<O>, mid: Seq<char>|
        {
            &&& 0 <= j < ps.len()
            &&& #[trigger] vec_series_ok(ps.take(j), input, outs, mid)
            &&& ps[j].err(mid, e)
        }
}

/// A successful run extends at its end: one more parser appends one value.
proof fn lemma_vec_series_ok_snoc<'a, O, T: Parser<'a, O>>(
    ps: Seq<T>,
    input: Seq<char>,
    outs: Seq<O>,
    rem: Seq<char>,
    p: T,
    v: O,
    r2: Seq<char>,
)
    requires
        vec_series_ok(ps, input, outs, rem),
        p.ok(rem, v, r2),
    ensures
        vec_series_ok(ps.push(p), input, outs.push(v), r2),
    decreases ps.len(),
{
    if ps.len() == 0 {
        assert(ps.push(p)[0] == p);
        assert(outs.push(v)[0] == v);
        assert(ps.push(p).skip(1) =~= Seq::<T>::empty());
        assert(outs.push(v).skip(1) =~= Seq::<O>::empty());
        assert(vec_series_ok(ps.push(p).skip(1), r2, outs.push(v).skip(1), r2));
        assert(p.ok(input, v, r2));
    } else {
        let r0 = choose|r0: Seq<char>|
            #[trigger] ps[0].ok(input, outs[0], r0) && vec_series_ok(
                ps.skip(1),
                r0,
                outs.skip(1),
                rem,
            );
        lemma_vec_series_ok_snoc(ps.skip(1), r0, outs.skip(1), rem, p, v, r2);
        assert(ps.skip(1).push(p) =~= ps.push(p).skip(1));
        assert(outs.skip(1).push(v) =~= outs.push(v).skip(1));
        assert(ps.push(p)[0] == ps[0]);
        assert(outs.push(v)[0] == outs[0]);
        assert(ps.push(p)[0].ok(input, outs.push(v)[0], r0));
    }
}

/// A homogeneous list of parsers run as a series. An empty list succeeds
/// with no values and consumes nothing.
impl<'a, O, T> Series<'a, Vec<O>> for Vec<T> where T: Parser<'a, O> {
    open spec fn series_wf(&self) -> bool {
        forall|k: int| 0 <= k < self@.len() ==> (#[trigger] self@[k]).wf()
    }

    open spec fn series_ok(&self, input: Seq<char>, out: Vec<O>, rem: Seq<char>) -> bool {
        vec_series_ok(self@, input, out@, rem)
    }

    open spec fn series_err(&self, input: Seq<char>, e: SpecError) -> bool {
        vec_series_err(self@, input, e)
    }

    fn parse_series(&self, input: &'a str) -> (r: Output<'a, Vec<O>>) {
        let mut out: Vec<O> = Vec::new();
        let mut rem: &'a str = input;
        let mut idx: usize = 0;
        proof {
            lemma_remainder_refl(input@);
            assert(self@.take(0) =~= Seq::<T>::empty());
            assert(vec_series_ok(self@.take(0), input@, out@, rem@));
        }
        while idx < self.len()
            invariant
                0 <= idx <= self@.len(),
                self.series_wf(),
                vec_series_ok(self@.take(idx as int), input@, out@, rem@),
                is_remainder(input@, rem@),
            decreases self@.len() - idx,
        {
            let component = &self[idx];
            match component.parse(rem) {
                Ok((v, r2)) => {
                    proof {
                        lemma_vec_series_ok_snoc(
                            self@.take(idx as int),
                            input@,
                            out@,
                            rem@,
                            self@[idx as int],
                            v,
                            r2@,
                        );
                        assert(self@.take(idx as int).push(self@[idx as int]) =~= self@.take(
                            idx as int + 1,
                        ));
                        lemma_remainder_trans(input@, rem@, r2@);
                    }
                    out.push(v);
                    rem = r2;
                },
                Err(e) => {
                    proof {
                        assert(vec_series_ok(self@.take(idx as int), input@, out@, rem@));
                        assert(self@[idx as int].err(rem@, e@));
                        assert(vec_series_err(self@, input@, e@));
                    }
                    return Err(e);
                },
            }
            idx += 1;
        }
        proof {
            assert(self@.take(idx as int) =~= self@);
        }
        Ok((out, rem))
    }
}

/// A fixed group of one parser run as a series.
impl<'a, N, A: Parser<'a, N>> Series<'a, (N,)> for (A,) {
    open spec fn series_wf(&self) -> bool {
        self.0.wf()
    }

    open spec fn series_ok(&self, input: Seq<char>, out: (N,), rem: Seq<char>) -> bool {
        self.0.ok(input, out.0, rem)
    }

    open spec fn series_err(&self, input: Seq<char>, e: SpecError) -> bool {
        self.0.err(input, e)
    }

    fn parse_series(&self, input: &'a str) -> (r: Output<'a, (N,)>) {
        let (v0, r0) = match self.0.parse(input) {
            Ok(x) => x,
            Err(e) => {
                return Err(e);
            },
        };
        let out = (v0,);
        proof {
            assert(out.0 == v0);
            assert({
                self.0.ok(input@, out.0, r0@)
            });
        }
        Ok((out, r0))
    }
}

/// A tuple of one parser is itself a parser: its components run as a
/// series.
impl<'a, N, A: Parser<'a, N>> Parser<'a, (N,)> for (A,) {
    open spec fn wf(&self) -> bool {
        self.series_wf()
    }

    open spec fn ok(&self, input: Seq<char>, out: (N,), rem: Seq<char>) -> bool {
        self.series_ok(input, out, rem)
    }

    open spec fn err(&self, input: Seq<char>, e: SpecError) -> bool {
        self.series_err(input, e)
    }

    fn parse(&self, input: &'a str) -> (r: Output<'a, (N,)>) {
        self.parse_series(input)
    }
}

/// A fixed group of two parsers run as a series.
impl<'a, N, O, A: Parser<'a, N>, B: Parser<'a, O>> Series<'a, (N, O)> for (A, B) {
    open spec fn series_wf(&self) -> bool {
        &&& self.0.wf()
        &&& self.1.wf()
    }

    open spec fn series_ok(&self, input: Seq<char>, out: (N, O), rem: Seq<char>) -> bool {
        exists|s0: Seq<char>|
            #[trigger] self.0.ok(input, out.0, s0) && ({
            self.1.ok(s0, out.1, rem)
            })
    }

    open spec fn series_err(&self, input: Seq<char>, e: SpecError) -> bool {
        ||| self.0.err(input, e)
        ||| exists|w0: N, s0: Seq<char>|
            #[trigger] self.0.ok(input, w0, s0) && ({
            self.1.err(s0, e)
            })
    }

    fn parse_series(&self, input: &'a str) -> (r: Output<'a, (N, O)>) {
        let (v0, r0) = match self.0.parse(input) {
            Ok(x) => x,
            Err(e) => {
                return Err(e);
            },
        };
        let (v1, r1) = match self.1.parse(r0) {
            Ok(x) => x,
            Err(e) => {
                proof {
                    assert({
                        ||| self.0.err(input@, e@)
                        ||| exists|w0: N, s0: Seq<char>|
                            #[trigger] self.0.ok(input@, w0, s0) && ({
                            self.1.err(s0, e@)
                            })
                    });
                }
                return Err(e);
            },
        };
        let out = (v0, v1);
        proof {
            assert(out.0 == v0);
            assert(out.1 == v1);
            lemma_remainder_trans(input@, r0@, r1@);
            assert({
                self.1.ok(r0@, out.1, r1@)
            });
            assert({
                exists|s0: Seq<char>|
                    #[trigger] self.0.ok(input@, out.0, s0) && ({
                    self.1.ok(s0, out.1, r1@)
                    })
            });
        }
        Ok((out, r1))
    }
}

/// A tuple of two parsers is itself a parser: its components run as a
/// series.
impl<'a, N, O, A: Parser<'a, N>, B: Parser<'a, O>> Parser<'a, (N, O)> for (A, B) {
    open spec fn wf(&self) -> bool {
        self.series_wf()
    }

    open spec fn ok(&self, input: Seq<char>, out: (N, O), rem: Seq<char>) -> bool {
        self.series_ok(input, out, rem)
    }

    open spec fn err(&self, input: Seq<char>, e: SpecError) -> bool {
        self.series_err(input, e)
    }

    fn parse(&self, input: &'a str) -> (r: Output<'a, (N, O)>) {
        self.parse_series(input)
    }
}

/// A fixed group of three parsers run as a series.
impl<'a, N, O, P, A: Parser<'a, N>, B: Parser<'a, O>, C: Parser<'a, P>> Series<'a, (N, O, P)> for (A, B, C) {
    open spec fn series_wf(&self) -> bool {
        &&& self.0.wf()
        &&& self.1.wf()
        &&& self.2.wf()
    }

    open spec fn series_ok(&self, input: Seq<char>, out: (N, O, P), rem: Seq<char>) -> bool {
        exists|s0: Seq<char>|
            #[trigger] self.0.ok(input, out.0, s0) && ({
            exists|s1: Seq<char>|
                #[trigger] self.1.ok(s0, out.1, s1) && ({
                self.2.ok(s1, out.2, rem)
                })
            })
    }

    open spec fn series_err(&self, input: Seq<char>, e: SpecError) -> bool {
        ||| self.0.err(input, e)
        ||| exists|w0: N, s0: Seq<char>|
            #[trigger] self.0.ok(input, w0, s0) && ({
            ||| self.1.err(s0, e)
            ||| exists|w1: O, s1: Seq<char>|
                #[trigger] self.1.ok(s0, w1, s1) && ({
                self.2.err(s1, e)
                })
            })
    }

    fn parse_series(&self, input: &'a str) -> (r: Output<'a, (N, O, P)>) {
        let (v0, r0) = match self.0.parse(input) {
            Ok(x) => x,
            Err(e) => {
                return Err(e);
            },
        };
        let (v1, r1) = match self.1.parse(r0) {
            Ok(x) => x,
            Err(e) => {
                proof {
                    assert({
                        ||| self.0.err(input@, e@)
                        ||| exists|w0: N, s0: Seq<char>|
                            #[trigger] self.0.ok(input@, w0, s0) && ({
                            ||| self.1.err(s0, e@)
                            ||| exists|w1: O, s1: Seq<char>|
                                #[trigger] self.1.ok(s0, w1, s1) && ({
                                self.2.err(s1, e@)
                                })
                            })
                    });
                }
                return Err(e);
            },
        };
        let (v2, r2) = match self.2.parse(r1) {
            Ok(x) => x,
            Err(e) => {
                proof {
                    assert({
                        ||| self.1.err(r0@, e@)
                        ||| exists|w1: O, s1: Seq<char>|
                            #[trigger] self.1.ok(r0@, w1, s1) && ({
                            self.2.err(s1, e@)
                            })
                    });
                    assert({
                        ||| self.0.err(input@, e@)
                        ||| exists|w0: N, s0: Seq<char>|
                            #[trigger] self.0.ok(input@, w0, s0) && ({
                            ||| self.1.err(s0, e@)
                            ||| exists|w1: O, s1: Seq<char>|
                                #[trigger] self.1.ok(s0, w1, s1) && ({
                                self.2.err(s1, e@)
                                })
                            })
                    });
                }
                return Err(e);
            },
        };
        let out = (v0, v1, v2);
        proof {
            assert(out.0 == v0);
            assert(out.1 == v1);
            assert(out.2 == v2);
            lemma_remainder_trans(input@, r0@, r1@);
            lemma_remainder_trans(input@, r1@, r2@);
            assert({
                self.2.ok(r1@, out.2, r2@)
            });
            assert({
                exists|s1: Seq<char>|
                    #[trigger] self.1.ok(r0@, out.1, s1) && ({
                    self.2.ok(s1, out.2, r2@)
                    })
            });
            assert({
                exists|s0: Seq<char>|
                    #[trigger] self.0.ok(input@, out.0, s0) && ({
                    exists|s1: Seq<char>|
                        #[trigger] self.1.ok(s0, out.1, s1) && ({
                        self.2.ok(s1, out.2, r2@)
                        })
                    })
            });
        }
        Ok((out, r2))
    }
}

/// A tuple of three parsers is itself a parser: its components run as a
/// series.
impl<'a, N, O, P, A: Parser<'a, N>, B: Parser<'a, O>, C: Parser<'a, P>> Parser<'a, (N, O, P)> for (A, B, C) {
    open spec fn wf(&self) -> bool {
        self.series_wf()
    }

    open spec fn ok(&self, input: Seq<char>, out: (N, O, P), rem: Seq<char>) -> bool {
        self.series_ok(input, out, rem)
    }

    open spec fn err(&self, input: Seq<char>, e: SpecError) -> bool {
        self.series_err(input, e)
    }

    fn parse(&self, input: &'a str) -> (r: Output<'a, (N, O, P)>) {
        self.parse_series(input)
    }
}

/// A fixed group of four parsers run as a series.
impl<'a, N, O, P, Q, A: Parser<'a, N>, B: Parser<'a, O>, C: Parser<'a, P>, D: Parser<'a, Q>> Series<'a, (N, O, P, Q)> for (A, B, C, D) {
    open spec fn series_wf(&self) -> bool {
        &&& self.0.wf()
        &&& self.1.wf()
        &&& self.2.wf()
        &&& self.3.wf()
    }

    open spec fn series_ok(&self, input: Seq<char>, out: (N, O, P, Q), rem: Seq<char>) -> bool {
        exists|s0: Seq<char>|
            #[trigger] self.0.ok(input, out.0, s0) && ({
            exists|s1: Seq<char>|
                #[trigger] self.1.ok(s0, out.1, s1) && ({
                exists|s2: Seq<char>|
                    #[trigger] self.2.ok(s1, out.2, s2) && ({
                    self.3.ok(s2, out.3, rem)
                    })
                })
            })
    }

    open spec fn series_err(&self, input: Seq<char>, e: SpecError) -> bool {
        ||| self.0.err(input, e)
        ||| exists|w0: N, s0: Seq<char>|
            #[trigger] self.0.ok(input, w0, s0) && ({
            ||| self.1.err(s0, e)
            ||| exists|w1: O, s1: Seq<char>|
                #[trigger] self.1.ok(s0, w1, s1) && ({
                ||| self.2.err(s1, e)
                ||| exists|w2: P, s2: Seq<char>|
                    #[trigger] self.2.ok(s1, w2, s2) && ({
                    self.3.err(s2, e)
                    })
                })
            })
    }

    fn parse_series(&self, input: &'a str) -> (r: Output<'a, (N, O, P, Q)>) {
        let (v0, r0) = match self.0.parse(input) {
            Ok(x) => x,
            Err(e) => {
                return Err(e);
            },
        };
        let (v1, r1) = match self.1.parse(r0) {
            Ok(x) => x,
            Err(e) => {
                proof {
                    assert({
                        ||| self.0.err(input@, e@)
                        ||| exists|w0: N, s0: Seq<char>|
                            #[trigger] self.0.ok(input@, w0, s0) && ({
                            ||| self.1.err(s0, e@)
                            ||| exists|w1: O, s1: Seq<char>|
                                #[trigger] self.1.ok(s0, w1, s1) && ({
                                ||| self.2.err(s1, e@)
                                ||| exists|w2: P, s2: Seq<char>|
                                    #[trigger] self.2.ok(s1, w2, s2) && ({
                                    self.3.err(s2, e@)
                                    })
                                })
                            })
                    });
                }
                return Err(e);
            },
        };
        let (v2, r2) = match self.2.parse(r1) {
            Ok(x) => x,
            Err(e) => {
                proof {
                    assert({
                        ||| self.1.err(r0@, e@)
                        ||| exists|w1: O, s1: Seq<char>|
                            #[trigger] self.1.ok(r0@, w1, s1) && ({
                            ||| self.2.err(s1, e@)
                            ||| exists|w2: P, s2: Seq<char>|
                                #[trigger] self.2.ok(s1, w2, s2) && ({
                                self.3.err(s2, e@)
                                })
                            })
                    });
                    assert({
                        ||| self.0.err(input@, e@)
                        ||| exists|w0: N, s0: Seq<char>|
                            #[trigger] self.0.ok(input@, w0, s0) && ({
                            ||| self.1.err(s0, e@)
                            ||| exists|w1: O, s1: Seq<char>|
                                #[trigger] self.1.ok(s0, w1, s1) && ({
                                ||| self.2.err(s1, e@)
                                ||| exists|w2: P, s2: Seq<char>|
                                    #[trigger] self.2.ok(s1, w2, s2) && ({
                                    self.3.err(s2, e@)
                                    })
                                })
                            })
                    });
                }
                return Err(e);
            },
        };
        let (v3, r3) = match self.3.parse(r2) {
            Ok(x) => x,
            Err(e) => {
                proof {
                    assert({
                        ||| self.2.err(r1@, e@)
                        ||| exists|w2: P, s2: Seq<char>|
                            #[trigger] self.2.ok(r1@, w2, s2) && ({
                            self.3.err(s2, e@)
                            })
                    });
                    assert({
                        ||| self.1.err(r0@, e@)
                        ||| exists|w1: O, s1: Seq<char>|
                            #[trigger] self.1.ok(r0@, w1, s1) && ({
                            ||| self.2.err(s1, e@)
                            ||| exists|w2: P, s2: Seq<char>|
                                #[trigger] self.2.ok(s1, w2, s2) && ({
                                self.3.err(s2, e@)
                                })
                            })
                    });
                    assert({
                        ||| self.0.err(input@, e@)
                        ||| exists|w0: N, s0: Seq<char>|
                            #[trigger] self.0.ok(input@, w0, s0) && ({
                            ||| self.1.err(s0, e@)
                            ||| exists|w1: O, s1: Seq<char>|
                                #[trigger] self.1.ok(s0, w1, s1) && ({
                                ||| self.2.err(s1, e@)
                                ||| exists|w2: P, s2: Seq<char>|
                                    #[trigger] self.2.ok(s1, w2, s2) && ({
                                    self.3.err(s2, e@)
                                    })
                                })
                            })
                    });
                }
                return Err(e);
            },
        };
        let out = (v0, v1, v2, v3);
        proof {
            assert(out.0 == v0);
            assert(out.1 == v1);
            assert(out.2 == v2);
            assert(out.3 == v3);
            lemma_remainder_trans(input@, r0@, r1@);
            lemma_remainder_trans(input@, r1@, r2@);
            lemma_remainder_trans(input@, r2@, r3@);
            assert({
                self.3.ok(r2@, out.3, r3@)
            });
            assert({
                exists|s2: Seq<char>|
                    #[trigger] self.2.ok(r1@, out.2, s2) && ({
                    self.3.ok(s2, out.3, r3@)
                    })
            });
            assert({
                exists|s1: Seq<char>|
                    #[trigger] self.1.ok(r0@, out.1, s1) && ({
                    exists|s2: Seq<char>|
                        #[trigger] self.2.ok(s1, out.2, s2) && ({
                        self.3.ok(s2, out.3, r3@)
                        })
                    })
            });
            assert({
                exists|s0: Seq<char>|
                    #[trigger] self.0.ok(input@, out.0, s0) && ({
                    exists|s1: Seq<char>|
                        #[trigger] self.1.ok(s0, out.1, s1) && ({
                        exists|s2: Seq<char>|
                            #[trigger] self.2.ok(s1, out.2, s2) && ({
                            self.3.ok(s2, out.3, r3@)
                            })
                        })
                    })
            });
        }
        Ok((out, r3))
    }
}

/// A tuple of four parsers is itself a parser: its components run as a
/// series.
impl<'a, N, O, P, Q, A: Parser<'a, N>, B: Parser<'a, O>, C: Parser<'a, P>, D: Parser<'a, Q>> Parser<'a, (N, O, P, Q)> for (A, B, C, D) {
    open spec fn wf(&self) -> bool {
        self.series_wf()
    }

    open spec fn ok(&self, input: Seq<char>, out: (N, O, P, Q), rem: Seq<char>) -> bool {
        self.series_ok(input, out, rem)
    }

    open spec fn err(&self, input: Seq<char>, e: SpecError) -> bool {
        self.series_err(input, e)
    }

    fn parse(&self, input: &'a str) -> (r: Output<'a, (N, O, P, Q)>) {
        self.parse_series(input)
    }
}

/// A fixed group of five parsers run as a series.
impl<'a, N, O, P, Q, R, A: Parser<'a, N>, B: Parser<'a, O>, C: Parser<'a, P>, D: Parser<'a, Q>, E: Parser<'a, R>> Series<'a, (N, O, P, Q, R)> for (A, B, C, D, E) {
    open spec fn series_wf(&self) -> bool {
        &&& self.0.wf()
        &&& self.1.wf()
        &&& self.2.wf()
        &&& self.3.wf()
        &&& self.4.wf()
    }

    open spec fn series_ok(&self, input: Seq<char>, out: (N, O, P, Q, R), rem: Seq<char>) -> bool {
        exists|s0: Seq<char>|
            #[trigger] self.0.ok(input, out.0, s0) && ({
            exists|s1: Seq<char>|
                #[trigger] self.1.ok(s0, out.1, s1) && ({
                exists|s2: Seq<char>|
                    #[trigger] self.2.ok(s1, out.2, s2) && ({
                    exists|s3: Seq<char>|
                        #[trigger] self.3.ok(s2, out.3, s3) && ({
                        self.4.ok(s3, out.4, rem)
                        })
                    })
                })
            })
    }

    open spec fn series_err(&self, input: Seq<char>, e: SpecError) -> bool {
        ||| self.0.err(input, e)
        ||| exists|w0: N, s0: Seq<char>|
            #[trigger] self.0.ok(input, w0, s0) && ({
            ||| self.1.err(s0, e)
            ||| exists|w1: O, s1: Seq<char>|
                #[trigger] self.1.ok(s0, w1, s1) && ({
                ||| self.2.err(s1, e)
                ||| exists|w2: P, s2: Seq<char>|
                    #[trigger] self.2.ok(s1, w2, s2) && ({
                    ||| self.3.err(s2, e)
                    ||| exists|w3: Q, s3: Seq<char>|
                        #[trigger] self.3.ok(s2, w3, s3) && ({
                        self.4.err(s3, e)
                        })
                    })
                })
            })
    }

    fn parse_series(&self, input: &'a str) -> (r: Output<'a, (N, O, P, Q, R)>) {
        let (v0, r0) = match self.0.parse(input) {
            Ok(x) => x,
            Err(e) => {
                return Err(e);
            },
        };
        let (v1, r1) = match self.1.parse(r0) {
            Ok(x) => x,
            Err(e) => {
                proof {
                    assert({
                        ||| self.0.err(input@, e@)
                        ||| exists|w0: N, s0: Seq<char>|
                            #[trigger] self.0.ok(input@, w0, s0) && ({
                            ||| self.1.err(s0, e@)
                            ||| exists|w1: O, s1: Seq<char>|
                                #[trigger] self.1.ok(s0, w1, s1) && ({
                                ||| self.2.err(s1, e@)
                                ||| exists|w2: P, s2: Seq<char>|
                                    #[trigger] self.2.ok(s1, w2, s2) && ({
                                    ||| self.3.err(s2, e@)
                                    ||| exists|w3: Q, s3: Seq<char>|
                                        #[trigger] self.3.ok(s2, w3, s3) && ({
                                        self.4.err(s3, e@)
                                        })
                                    })
                                })
                            })
                    });
                }
                return Err(e);
            },
        };
        let (v2, r2) = match self.2.parse(r1) {
            Ok(x) => x,
            Err(e) => {
                proof {
                    assert({
                        ||| self.1.err(r0@, e@)
                        ||| exists|w1: O, s1: Seq<char>|
                            #[trigger] self.1.ok(r0@, w1, s1) && ({
                            ||| self.2.err(s1, e@)
                            ||| exists|w2: P, s2: Seq<char>|
                                #[trigger] self.2.ok(s1, w2, s2) && ({
                                ||| self.3.err(s2, e@)
                                ||| exists|w3: Q, s3: Seq<char>|
                                    #[trigger] self.3.ok(s2, w3, s3) && ({
                                    self.4.err(s3, e@)
                                    })
                                })
                            })
                    });
                    assert({
                        ||| self.0.err(input@, e@)
                        ||| exists|w0: N, s0: Seq<char>|
                            #[trigger] self.0.ok(input@, w0, s0) && ({
                            ||| self.1.err(s0, e@)
                            ||| exists|w1: O, s1: Seq<char>|
                                #[trigger] self.1.ok(s0, w1, s1) && ({
                                ||| self.2.err(s1, e@)
                                ||| exists|w2: P, s2: Seq<char>|
                                    #[trigger] self.2.ok(s1, w2, s2) && ({
                                    ||| self.3.err(s2, e@)
                                    ||| exists|w3: Q, s3: Seq<char>|
                                        #[trigger] self.3.ok(s2, w3, s3) && ({
                                        self.4.err(s3, e@)
                                        })
                                    })
                                })
                            })
                    });
                }
                return Err(e);
            },
        };
        let (v3, r3) = match self.3.parse(r2) {
            Ok(x) => x,
            Err(e) => {
                proof {
                    assert({
                        ||| self.2.err(r1@, e@)
                        ||| exists|w2: P, s2: Seq<char>|
                            #[trigger] self.2.ok(r1@, w2, s2) && ({
                            ||| self.3.err(s2, e@)
                            ||| exists|w3: Q, s3: Seq<char>|
                                #[trigger] self.3.ok(s2, w3, s3) && ({
                                self.4.err(s3, e@)
                                })
                            })
                    });
                    assert({
                        ||| self.1.err(r0@, e@)
                        ||| exists|w1: O, s1: Seq<char>|
                            #[trigger] self.1.ok(r0@, w1, s1) && ({
                            ||| self.2.err(s1, e@)
                            ||| exists|w2: P, s2: Seq<char>|
                                #[trigger] self.2.ok(s1, w2, s2) && ({
                                ||| self.3.err(s2, e@)
                                ||| exists|w3: Q, s3: Seq<char>|
                                    #[trigger] self.3.ok(s2, w3, s3) && ({
                                    self.4.err(s3, e@)
                                    })
                                })
                            })
                    });
                    assert({
                        ||| self.0.err(input@, e@)
                        ||| exists|w0: N, s0: Seq<char>|
                            #[trigger] self.0.ok(input@, w0, s0) && ({
                            ||| self.1.err(s0, e@)
                            ||| exists|w1: O, s1: Seq<char>|
                                #[trigger] self.1.ok(s0, w1, s1) && ({
                                ||| self.2.err(s1, e@)
                                ||| exists|w2: P, s2: Seq<char>|
                                    #[trigger] self.2.ok(s1, w2, s2) && ({
                                    ||| self.3.err(s2, e@)
                                    ||| exists|w3: Q, s3: Seq<char>|
                                        #[trigger] self.3.ok(s2, w3, s3) && ({
                                        self.4.err(s3, e@)
                                        })
                                    })
                                })
                            })
                    });
                }
                return Err(e);
            },
        };
        let (v4, r4) = match self.4.parse(r3) {
            Ok(x) => x,
            Err(e) => {
                proof {
                    assert({
                        ||| self.3.err(r2@, e@)
                        ||| exists|w3: Q, s3: Seq<char>|
                            #[trigger] self.3.ok(r2@, w3, s3) && ({
                            self.4.err(s3, e@)
                            })
                    });
                    assert({
                        ||| self.2.err(r1@, e@)
                        ||| exists|w2: P, s2: Seq<char>|
                            #[trigger] self.2.ok(r1@, w2, s2) && ({
                            ||| self.3.err(s2, e@)
                            ||| exists|w3: Q, s3: Seq<char>|
                                #[trigger] self.3.ok(s2, w3, s3) && ({
                                self.4.err(s3, e@)
                                })
                            })
                    });
                    assert({
                        ||| self.1.err(r0@, e@)
                        ||| exists|w1: O, s1: Seq<char>|
                            #[trigger] self.1.ok(r0@, w1, s1) && ({
                            ||| self.2.err(s1, e@)
                            ||| exists|w2: P, s2: Seq<char>|
                                #[trigger] self.2.ok(s1, w2, s2) && ({
                                ||| self.3.err(s2, e@)
                                ||| exists|w3: Q, s3: Seq<char>|
                                    #[trigger] self.3.ok(s2, w3, s3) && ({
                                    self.4.err(s3, e@)
                                    })
                                })
                            })
                    });
                    assert({
                        ||| self.0.err(input@, e@)
                        ||| exists|w0: N, s0: Seq<char>|
                            #[trigger] self.0.ok(input@, w0, s0) && ({
                            ||| self.1.err(s0, e@)
                            ||| exists|w1: O, s1: Seq<char>|
                                #[trigger] self.1.ok(s0, w1, s1) && ({
                                ||| self.2.err(s1, e@)
                                ||| exists|w2: P, s2: Seq<char>|
                                    #[trigger] self.2.ok(s1, w2, s2) && ({
                                    ||| self.3.err(s2, e@)
                                    ||| exists|w3: Q, s3: Seq<char>|
                                        #[trigger] self.3.ok(s2, w3, s3) && ({
                                        self.4.err(s3, e@)
                                        })
                                    })
                                })
                            })
                    });
                }
                return Err(e);
            },
        };
        let out = (v0, v1, v2, v3, v4);
        proof {
            assert(out.0 == v0);
            assert(out.1 == v1);
            assert(out.2 == v2);
            assert(out.3 == v3);
            assert(out.4 == v4);
            lemma_remainder_trans(input@, r0@, r1@);
            lemma_remainder_trans(input@, r1@, r2@);
            lemma_remainder_trans(input@, r2@, r3@);
            lemma_remainder_trans(input@, r3@, r4@);
            assert({
                self.4.ok(r3@, out.4, r4@)
            });
            assert({
                exists|s3: Seq<char>|
                    #[trigger] self.3.ok(r2@, out.3, s3) && ({
                    self.4.ok(s3, out.4, r4@)
                    })
            });
            assert({
                exists|s2: Seq<char>|
                    #[trigger] self.2.ok(r1@, out.2, s2) && ({
                    exists|s3: Seq<char>|
                        #[trigger] self.3.ok(s2, out.3, s3) && ({
                        self.4.ok(s3, out.4, r4@)
                        })
                    })
            });
            assert({
                exists|s1: Seq<char>|
                    #[trigger] self.1.ok(r0@, out.1, s1) && ({
                    exists|s2: Seq<char>|
                        #[trigger] self.2.ok(s1, out.2, s2) && ({
                        exists|s3: Seq<char>|
                            #[trigger] self.3.ok(s2, out.3, s3) && ({
                            self.4.ok(s3, out.4, r4@)
                            })
                        })
                    })
            });
            assert({
                exists|s0: Seq<char>|
                    #[trigger] self.0.ok(input@, out.0, s0) && ({
                    exists|s1: Seq<char>|
                        #[trigger] self.1.ok(s0, out.1, s1) && ({
                        exists|s2: Seq<char>|
                            #[trigger] self.2.ok(s1, out.2, s2) && ({
                            exists|s3: Seq<char>|
                                #[trigger] self.3.ok(s2, out.3, s3) && ({
                                self.4.ok(s3, out.4, r4@)
                                })
                            })
                        })
                    })
            });
        }
        Ok((out, r4))
    }
}

/// A tuple of five parsers is itself a parser: its components run as a
/// series.
impl<'a, N, O, P, Q, R, A: Parser<'a, N>, B: Parser<'a, O>, C: Parser<'a, P>, D: Parser<'a, Q>, E: Parser<'a, R>> Parser<'a, (N, O, P, Q, R)> for (A, B, C, D, E) {
    open spec fn wf(&self) -> bool {
        self.series_wf()
    }

    open spec fn ok(&self, input: Seq<char>, out: (N, O, P, Q, R), rem: Seq<char>) -> bool {
        self.series_ok(input, out, rem)
    }

    open spec fn err(&self, input: Seq<char>, e: SpecError) -> bool {
        self.series_err(input, e)
    }

    fn parse(&self, input: &'a str) -> (r: Output<'a, (N, O, P, Q, R)>) {
        self.parse_series(input)
    }
}

/// A fixed group of six parsers run as a series.
impl<'a, N, O, P, Q, R, S, A: Parser<'a, N>, B: Parser<'a, O>, C: Parser<'a, P>, D: Parser<'a, Q>, E: Parser<'a, R>, F: Parser<'a, S>> Series<'a, (N, O, P, Q, R, S)> for (A, B, C, D, E, F) {
    open spec fn series_wf(&self) -> bool {
        &&& self.0.wf()
        &&& self.1.wf()
        &&& self.2.wf()
        &&& self.3.wf()
        &&& self.4.wf()
        &&& self.5.wf()
    }

    open spec fn series_ok(&self, input: Seq<char>, out: (N, O, P, Q, R, S), rem: Seq<char>) -> bool {
        exists|s0: Seq<char>|
            #[trigger] self.0.ok(input, out.0, s0) && ({
            exists|s1: Seq<char>|
                #[trigger] self.1.ok(s0, out.1, s1) && ({
                exists|s2: Seq<char>|
                    #[trigger] self.2.ok(s1, out.2, s2) && ({
                    exists|s3: Seq<char>|
                        #[trigger] self.3.ok(s2, out.3, s3) && ({
                        exists|s4: Seq<char>|
                            #[trigger] self.4.ok(s3, out.4, s4) && ({
                            self.5.ok(s4, out.5, rem)
                            })
                        })
                    })
                })
            })
    }

    open spec fn series_err(&self, input: Seq<char>, e: SpecError) -> bool {
        ||| self.0.err(input, e)
        ||| exists|w0: N, s0: Seq<char>|
            #[trigger] self.0.ok(input, w0, s0) && ({
            ||| self.1.err(s0, e)
            ||| exists|w1: O, s1: Seq<char>|
                #[trigger] self.1.ok(s0, w1, s1) && ({
                ||| self.2.err(s1, e)
                ||| exists|w2: P, s2: Seq<char>|
                    #[trigger] self.2.ok(s1, w2, s2) && ({
                    ||| self.3.err(s2, e)
                    ||| exists|w3: Q, s3: Seq<char>|
                        #[trigger] self.3.ok(s2, w3, s3) && ({
                        ||| self.4.err(s3, e)
                        ||| exists|w4: R, s4: Seq<char>|
                            #[trigger] self.4.ok(s3, w4, s4) && ({
                            self.5.err(s4, e)
                            })
                        })
                    })
                })
            })
    }

    fn parse_series(&self, input: &'a str) -> (r: Output<'a, (N, O, P, Q, R, S)>) {
        let (v0, r0) = match self.0.parse(input) {
            Ok(x) => x,
            Err(e) => {
                return Err(e);
            },
        };
        let (v1, r1) = match self.1.parse(r0) {
            Ok(x) => x,
            Err(e) => {
                proof {
                    assert({
                        ||| self.0.err(input@, e@)
                        ||| exists|w0: N, s0: Seq<char>|
                            #[trigger] self.0.ok(input@, w0, s0) && ({
                            ||| self.1.err(s0, e@)
                            ||| exists|w1: O, s1: Seq<char>|
                                #[trigger] self.1.ok(s0, w1, s1) && ({
                                ||| self.2.err(s1, e@)
                                ||| exists|w2: P, s2: Seq<char>|
                                    #[trigger] self.2.ok(s1, w2, s2) && ({
                                    ||| self.3.err(s2, e@)
                                    ||| exists|w3: Q, s3: Seq<char>|
                                        #[trigger] self.3.ok(s2, w3, s3) && ({
                                        ||| self.4.err(s3, e@)
                                        ||| exists|w4: R, s4: Seq<char>|
                                            #[trigger] self.4.ok(s3, w4, s4) && ({
                                            self.5.err(s4, e@)
                                            })
                                        })
                                    })
                                })
                            })
                    });
                }
                return Err(e);
            },
        };
        let (v2, r2) = match self.2.parse(r1) {
            Ok(x) => x,
            Err(e) => {
                proof {
                    assert({
                        ||| self.1.err(r0@, e@)
                        ||| exists|w1: O, s1: Seq<char>|
                            #[trigger] self.1.ok(r0@, w1, s1) && ({
                            ||| self.2.err(s1, e@)
                            ||| exists|w2: P, s2: Seq<char>|
                                #[trigger] self.2.ok(s1, w2, s2) && ({
                                ||| self.3.err(s2, e@)
                                ||| exists|w3: Q, s3: Seq<char>|
                                    #[trigger] self.3.ok(s2, w3, s3) && ({
                                    ||| self.4.err(s3, e@)
                                    ||| exists|w4: R, s4: Seq<char>|
                                        #[trigger] self.4.ok(s3, w4, s4) && ({
                                        self.5.err(s4, e@)
                                        })
                                    })
                                })
                            })
                    });
                    assert({
                        ||| self.0.err(input@, e@)
                        ||| exists|w0: N, s0: Seq<char>|
                            #[trigger] self.0.ok(input@, w0, s0) && ({
                            ||| self.1.err(s0, e@)
                            ||| exists|w1: O, s1: Seq<char>|
                                #[trigger] self.1.ok(s0, w1, s1) && ({
                                ||| self.2.err(s1, e@)
                                ||| exists|w2: P, s2: Seq<char>|
                                    #[trigger] self.2.ok(s1, w2, s2) && ({
                                    ||| self.3.err(s2, e@)
                                    ||| exists|w3: Q, s3: Seq<char>|
                                        #[trigger] self.3.ok(s2, w3, s3) && ({
                                        ||| self.4.err(s3, e@)
                                        ||| exists|w4: R, s4: Seq<char>|
                                            #[trigger] self.4.ok(s3, w4, s4) && ({
                                            self.5.err(s4, e@)
                                            })
                                        })
                                    })
                                })
                            })
                    });
                }
                return Err(e);
            },
        };
        let (v3, r3) = match self.3.parse(r2) {
            Ok(x) => x,
            Err(e) => {
                proof {
                    assert({
                        ||| self.2.err(r1@, e@)
                        ||| exists|w2: P, s2: Seq<char>|
                            #[trigger] self.2.ok(r1@, w2, s2) && ({
                            ||| self.3.err(s2, e@)
                            ||| exists|w3: Q, s3: Seq<char>|
                                #[trigger] self.3.ok(s2, w3, s3) && ({
                                ||| self.4.err(s3, e@)
                                ||| exists|w4: R, s4: Seq<char>|
                                    #[trigger] self.4.ok(s3, w4, s4) && ({
                                    self.5.err(s4, e@)
                                    })
                                })
                            })
                    });
                    assert({
                        ||| self.1.err(r0@, e@)
                        ||| exists|w1: O, s1: Seq<char>|
                            #[trigger] self.1.ok(r0@, w1, s1) && ({
                            ||| self.2.err(s1, e@)
                            ||| exists|w2: P, s2: Seq<char>|
                                #[trigger] self.2.ok(s1, w2, s2) && ({
                                ||| self.3.err(s2, e@)
                                ||| exists|w3: Q, s3: Seq<char>|
                                    #[trigger] self.3.ok(s2, w3, s3) && ({
                                    ||| self.4.err(s3, e@)
                                    ||| exists|w4: R, s4: Seq<char>|
                                        #[trigger] self.4.ok(s3, w4, s4) && ({
                                        self.5.err(s4, e@)
                                        })
                                    })
                                })
                            })
                    });
                    assert({
                        ||| self.0.err(input@, e@)
                        ||| exists|w0: N, s0: Seq<char>|
                            #[trigger] self.0.ok(input@, w0, s0) && ({
                            ||| self.1.err(s0, e@)
                            ||| exists|w1: O, s1: Seq<char>|
                                #[trigger] self.1.ok(s0, w1, s1) && ({
                                ||| self.2.err(s1, e@)
                                ||| exists|w2: P, s2: Seq<char>|
                                    #[trigger] self.2.ok(s1, w2, s2) && ({
                                    ||| self.3.err(s2, e@)
                                    ||| exists|w3: Q, s3: Seq<char>|
                                        #[trigger] self.3.ok(s2, w3, s3) && ({
                                        ||| self.4.err(s3, e@)
                                        ||| exists|w4: R, s4: Seq<char>|
                                            #[trigger] self.4.ok(s3, w4, s4) && ({
                                            self.5.err(s4, e@)
                                            })
                                        })
                                    })
                                })
                            })
                    });
                }
                return Err(e);
            },
        };
        let (v4, r4) = match self.4.parse(r3) {
            Ok(x) => x,
            Err(e) => {
                proof {
                    assert({
                        ||| self.3.err(r2@, e@)
                        ||| exists|w3: Q, s3: Seq<char>|
                            #[trigger] self.3.ok(r2@, w3, s3) && ({
                            ||| self.4.err(s3, e@)
                            ||| exists|w4: R, s4: Seq<char>|
                                #[trigger] self.4.ok(s3, w4, s4) && ({
                                self.5.err(s4, e@)
                                })
                            })
                    });
                    assert({
                        ||| self.2.err(r1@, e@)
                        ||| exists|w2: P, s2: Seq<char>|
                            #[trigger] self.2.ok(r1@, w2, s2) && ({
                            ||| self.3.err(s2, e@)
                            ||| exists|w3: Q, s3: Seq<char>|
                                #[trigger] self.3.ok(s2, w3, s3) && ({
                                ||| self.4.err(s3, e@)
                                ||| exists|w4: R, s4: Seq<char>|
                                    #[trigger] self.4.ok(s3, w4, s4) && ({
                                    self.5.err(s4, e@)
                                    })
                                })
                            })
                    });
                    assert({
                        ||| self.1.err(r0@, e@)
                        ||| exists|w1: O, s1: Seq<char>|
                            #[trigger] self.1.ok(r0@, w1, s1) && ({
                            ||| self.2.err(s1, e@)
                            ||| exists|w2: P, s2: Seq<char>|
                                #[trigger] self.2.ok(s1, w2, s2) && ({
                                ||| self.3.err(s2, e@)
                                ||| exists|w3: Q, s3: Seq<char>|
                                    #[trigger] self.3.ok(s2, w3, s3) && ({
                                    ||| self.4.err(s3, e@)
                                    ||| exists|w4: R, s4: Seq<char>|
                                        #[trigger] self.4.ok(s3, w4, s4) && ({
                                        self.5.err(s4, e@)
                                        })
                                    })
                                })
                            })
                    });
                    assert({
                        ||| self.0.err(input@, e@)
                        ||| exists|w0: N, s0: Seq<char>|
                            #[trigger] self.0.ok(input@, w0, s0) && ({
                            ||| self.1.err(s0, e@)
                            ||| exists|w1: O, s1: Seq<char>|
                                #[trigger] self.1.ok(s0, w1, s1) && ({
                                ||| self.2.err(s1, e@)
                                ||| exists|w2: P, s2: Seq<char>|
                                    #[trigger] self.2.ok(s1, w2, s2) && ({
                                    ||| self.3.err(s2, e@)
                                    ||| exists|w3: Q, s3: Seq<char>|
                                        #[trigger] self.3.ok(s2, w3, s3) && ({
                                        ||| self.4.err(s3, e@)
                                        ||| exists|w4: R, s4: Seq<char>|
                                            #[trigger] self.4.ok(s3, w4, s4) && ({
                                            self.5.err(s4, e@)
                                            })
                                        })
                                    })
                                })
                            })
                    });
                }
                return Err(e);
            },
        };
        let (v5, r5) = match self.5.parse(r4) {
            Ok(x) => x,
            Err(e) => {
                proof {
                    assert({
                        ||| self.4.err(r3@, e@)
                        ||| exists|w4: R, s4: Seq<char>|
                            #[trigger] self.4.ok(r3@, w4, s4) && ({
                            self.5.err(s4, e@)
                            })
                    });
                    assert({
                        ||| self.3.err(r2@, e@)
                        ||| exists|w3: Q, s3: Seq<char>|
                            #[trigger] self.3.ok(r2@, w3, s3) && ({
                            ||| self.4.err(s3, e@)
                            ||| exists|w4: R, s4: Seq<char>|
                                #[trigger] self.4.ok(s3, w4, s4) && ({
                                self.5.err(s4, e@)
                                })
                            })
                    });
                    assert({
                        ||| self.2.err(r1@, e@)
                        ||| exists|w2: P, s2: Seq<char>|
                            #[trigger] self.2.ok(r1@, w2, s2) && ({
                            ||| self.3.err(s2, e@)
                            ||| exists|w3: Q, s3: Seq<char>|
                                #[trigger] self.3.ok(s2, w3, s3) && ({
                                ||| self.4.err(s3, e@)
                                ||| exists|w4: R, s4: Seq<char>|
                                    #[trigger] self.4.ok(s3, w4, s4) && ({
                                    self.5.err(s4, e@)
                                    })
                                })
                            })
                    });
                    assert({
                        ||| self.1.err(r0@, e@)
                        ||| exists|w1: O, s1: Seq<char>|
                            #[trigger] self.1.ok(r0@, w1, s1) && ({
                            ||| self.2.err(s1, e@)
                            ||| exists|w2: P, s2: Seq<char>|
                                #[trigger] self.2.ok(s1, w2, s2) && ({
                                ||| self.3.err(s2, e@)
                                ||| exists|w3: Q, s3: Seq<char>|
                                    #[trigger] self.3.ok(s2, w3, s3) && ({
                                    ||| self.4.err(s3, e@)
                                    ||| exists|w4: R, s4: Seq<char>|
                                        #[trigger] self.4.ok(s3, w4, s4) && ({
                                        self.5.err(s4, e@)
                                        })
                                    })
                                })
                            })
                    });
                    assert({
                        ||| self.0.err(input@, e@)
                        ||| exists|w0: N, s0: Seq<char>|
                            #[trigger] self.0.ok(input@, w0, s0) && ({
                            ||| self.1.err(s0, e@)
                            ||| exists|w1: O, s1: Seq<char>|
                                #[trigger] self.1.ok(s0, w1, s1) && ({
                                ||| self.2.err(s1, e@)
                                ||| exists|w2: P, s2: Seq<char>|
                                    #[trigger] self.2.ok(s1, w2, s2) && ({
                                    ||| self.3.err(s2, e@)
                                    ||| exists|w3: Q, s3: Seq<char>|
                                        #[trigger] self.3.ok(s2, w3, s3) && ({
                                        ||| self.4.err(s3, e@)
                                        ||| exists|w4: R, s4: Seq<char>|
                                            #[trigger] self.4.ok(s3, w4, s4) && ({
                                            self.5.err(s4, e@)
                                            })
                                        })
                                    })
                                })
                            })
                    });
                }
                return Err(e);
            },
        };
        let out = (v0, v1, v2, v3, v4, v5);
        proof {
            assert(out.0 == v0);
            assert(out.1 == v1);
            assert(out.2 == v2);
            assert(out.3 == v3);
            assert(out.4 == v4);
            assert(out.5 == v5);
            lemma_remainder_trans(input@, r0@, r1@);
            lemma_remainder_trans(input@, r1@, r2@);
            lemma_remainder_trans(input@, r2@, r3@);
            lemma_remainder_trans(input@, r3@, r4@);
            lemma_remainder_trans(input@, r4@, r5@);
            assert({
                self.5.ok(r4@, out.5, r5@)
            });
            assert({
                exists|s4: Seq<char>|
                    #[trigger] self.4.ok(r3@, out.4, s4) && ({
                    self.5.ok(s4, out.5, r5@)
                    })
            });
            assert({
                exists|s3: Seq<char>|
                    #[trigger] self.3.ok(r2@, out.3, s3) && ({
                    exists|s4: Seq<char>|
                        #[trigger] self.4.ok(s3, out.4, s4) && ({
                        self.5.ok(s4, out.5, r5@)
                        })
                    })
            });
            assert({
                exists|s2: Seq<char>|
                    #[trigger] self.2.ok(r1@, out.2, s2) && ({
                    exists|s3: Seq<char>|
                        #[trigger] self.3.ok(s2, out.3, s3) && ({
                        exists|s4: Seq<char>|
                            #[trigger] self.4.ok(s3, out.4, s4) && ({
                            self.5.ok(s4, out.5, r5@)
                            })
                        })
                    })
            });
            assert({
                exists|s1: Seq<char>|
                    #[trigger] self.1.ok(r0@, out.1, s1) && ({
                    exists|s2: Seq<char>|
                        #[trigger] self.2.ok(s1, out.2, s2) && ({
                        exists|s3: Seq<char>|
                            #[trigger] self.3.ok(s2, out.3, s3) && ({
                            exists|s4: Seq<char>|
                                #[trigger] self.4.ok(s3, out.4, s4) && ({
                                self.5.ok(s4, out.5, r5@)
                                })
                            })
                        })
                    })
            });
            assert({
                exists|s0: Seq<char>|
                    #[trigger] self.0.ok(input@, out.0, s0) && ({
                    exists|s1: Seq<char>|
                        #[trigger] self.1.ok(s0, out.1, s1) && ({
                        exists|s2: Seq<char>|
                            #[trigger] self.2.ok(s1, out.2, s2) && ({
                            exists|s3: Seq<char>|
                                #[trigger] self.3.ok(s2, out.3, s3) && ({
                                exists|s4: Seq<char>|
                                    #[trigger] self.4.ok(s3, out.4, s4) && ({
                                    self.5.ok(s4, out.5, r5@)
                                    })
                                })
                            })
                        })
                    })
            });
        }
        Ok((out, r5))
    }
}

/// A tuple of six parsers is itself a parser: its components run as a
/// series.
impl<'a, N, O, P, Q, R, S, A: Parser<'a, N>, B: Parser<'a, O>, C: Parser<'a, P>, D: Parser<'a, Q>, E: Parser<'a, R>, F: Parser<'a, S>> Parser<'a, (N, O, P, Q, R, S)> for (A, B, C, D, E, F) {
    open spec fn wf(&self) -> bool {
        self.series_wf()
    }

    open spec fn ok(&self, input: Seq<char>, out: (N, O, P, Q, R, S), rem: Seq<char>) -> bool {
        self.series_ok(input, out, rem)
    }

    open spec fn err(&self, input: Seq<char>, e: SpecError) -> bool {
        self.series_err(input, e)
    }

    fn parse(&self, input: &'a str) -> (r: Output<'a, (N, O, P, Q, R, S)>) {
        self.parse_series(input)
    }
}

/// A fixed group of seven parsers run as a series.
impl<'a, N, O, P, Q, R, S, T, A: Parser<'a, N>, B: Parser<'a, O>, C: Parser<'a, P>, D: Parser<'a, Q>, E: Parser<'a, R>, F: Parser<'a, S>, G: Parser<'a, T>> Series<'a, (N, O, P, Q, R, S, T)> for (A, B, C, D, E, F, G) {
    open spec fn series_wf(&self) -> bool {
        &&& self.0.wf()
        &&& self.1.wf()
        &&& self.2.wf()
        &&& self.3.wf()
        &&& self.4.wf()
        &&& self.5.wf()
        &&& self.6.wf()
    }

    open spec fn series_ok(&self, input: Seq<char>, out: (N, O, P, Q, R, S, T), rem: Seq<char>) -> bool {
        exists|s0: Seq<char>|
            #[trigger] self.0.ok(input, out.0, s0) && ({
            exists|s1: Seq<char>|
                #[trigger] self.1.ok(s0, out.1, s1) && ({
                exists|s2: Seq<char>|
                    #[trigger] self.2.ok(s1, out.2, s2) && ({
                    exists|s3: Seq<char>|
                        #[trigger] self.3.ok(s2, out.3, s3) && ({
                        exists|s4: Seq<char>|
                            #[trigger] self.4.ok(s3, out.4, s4) && ({
                            exists|s5: Seq<char>|
                                #[trigger] self.5.ok(s4, out.5, s5) && ({
                                self.6.ok(s5, out.6, rem)
                                })
                            })
                        })
                    })
                })
            })
    }

    open spec fn series_err(&self, input: Seq<char>, e: SpecError) -> bool {
        ||| self.0.err(input, e)
        ||| exists|w0: N, s0: Seq<char>|
            #[trigger] self.0.ok(input, w0, s0) && ({
            ||| self.1.err(s0, e)
            ||| exists|w1: O, s1: Seq<char>|
                #[trigger] self.1.ok(s0, w1, s1) && ({
                ||| self.2.err(s1, e)
                ||| exists|w2: P, s2: Seq<char>|
                    #[trigger] self.2.ok(s1, w2, s2) && ({
                    ||| self.3.err(s2, e)
                    ||| exists|w3: Q, s3: Seq<char>|
                        #[trigger] self.3.ok(s2, w3, s3) && ({
                        ||| self.4.err(s3, e)
                        ||| exists|w4: R, s4: Seq<char>|
                            #[trigger] self.4.ok(s3, w4, s4) && ({
                            ||| self.5.err(s4, e)
                            ||| exists|w5: S, s5: Seq<char>|
                                #[trigger] self.5.ok(s4, w5, s5) && ({
                                self.6.err(s5, e)
                                })
                            })
                        })
                    })
                })
            })
    }

    fn parse_series(&self, input: &'a str) -> (r: Output<'a, (N, O, P, Q, R, S, T)>) {
        let (v0, r0) = match self.0.parse(input) {
            Ok(x) => x,
            Err(e) => {
                return Err(e);
            },
        };
        let (v1, r1) = match self.1.parse(r0) {
            Ok(x) => x,
            Err(e) => {
                proof {
                    assert({
                        ||| self.0.err(input@, e@)
                        ||| exists|w0: N, s0: Seq<char>|
                            #[trigger] self.0.ok(input@, w0, s0) && ({
                            ||| self.1.err(s0, e@)
                            ||| exists|w1: O, s1: Seq<char>|
                                #[trigger] self.1.ok(s0, w1, s1) && ({
                                ||| self.2.err(s1, e@)
                                ||| exists|w2: P, s2: Seq<char>|
                                    #[trigger] self.2.ok(s1, w2, s2) && ({
                                    ||| self.3.err(s2, e@)
                                    ||| exists|w3: Q, s3: Seq<char>|
                                        #[trigger] self.3.ok(s2, w3, s3) && ({
                                        ||| self.4.err(s3, e@)
                                        ||| exists|w4: R, s4: Seq<char>|
                                            #[trigger] self.4.ok(s3, w4, s4) && ({
                                            ||| self.5.err(s4, e@)
                                            ||| exists|w5: S, s5: Seq<char>|
                                                #[trigger] self.5.ok(s4, w5, s5) && ({
                                                self.6.err(s5, e@)
                                                })
                                            })
                                        })
                                    })
                                })
                            })
                    });
                }
                return Err(e);
            },
        };
        let (v2, r2) = match self.2.parse(r1) {
            Ok(x) => x,
            Err(e) => {
                proof {
                    assert({
                        ||| self.1.err(r0@, e@)
                        ||| exists|w1: O, s1: Seq<char>|
                            #[trigger] self.1.ok(r0@, w1, s1) && ({
                            ||| self.2.err(s1, e@)
                            ||| exists|w2: P, s2: Seq<char>|
                                #[trigger] self.2.ok(s1, w2, s2) && ({
                                ||| self.3.err(s2, e@)
                                ||| exists|w3: Q, s3: Seq<char>|
                                    #[trigger] self.3.ok(s2, w3, s3) && ({
                                    ||| self.4.err(s3, e@)
                                    ||| exists|w4: R, s4: Seq<char>|
                                        #[trigger] self.4.ok(s3, w4, s4) && ({
                                        ||| self.5.err(s4, e@)
                                        ||| exists|w5: S, s5: Seq<char>|
                                            #[trigger] self.5.ok(s4, w5, s5) && ({
                                            self.6.err(s5, e@)
                                            })
                                        })
                                    })
                                })
                            })
                    });
                    assert({
                        ||| self.0.err(input@, e@)
                        ||| exists|w0: N, s0: Seq<char>|
                            #[trigger] self.0.ok(input@, w0, s0) && ({
                            ||| self.1.err(s0, e@)
                            ||| exists|w1: O, s1: Seq<char>|
                                #[trigger] self.1.ok(s0, w1, s1) && ({
                                ||| self.2.err(s1, e@)
                                ||| exists|w2: P, s2: Seq<char>|
                                    #[trigger] self.2.ok(s1, w2, s2) && ({
                                    ||| self.3.err(s2, e@)
                                    ||| exists|w3: Q, s3: Seq<char>|
                                        #[trigger] self.3.ok(s2, w3, s3) && ({
                                        ||| self.4.err(s3, e@)
                                        ||| exists|w4: R, s4: Seq<char>|
                                            #[trigger] self.4.ok(s3, w4, s4) && ({
                                            ||| self.5.err(s4, e@)
                                            ||| exists|w5: S, s5: Seq<char>|
                                                #[trigger] self.5.ok(s4, w5, s5) && ({
                                                self.6.err(s5, e@)
                                                })
                                            })
                                        })
                                    })
                                })
                            })
                    });
                }
                return Err(e);
            },
        };
        let (v3, r3) = match self.3.parse(r2) {
            Ok(x) => x,
            Err(e) => {
                proof {
                    assert({
                        ||| self.2.err(r1@, e@)
                        ||| exists|w2: P, s2: Seq<char>|
                            #[trigger] self.2.ok(r1@, w2, s2) && ({
                            ||| self.3.err(s2, e@)
                            ||| exists|w3: Q, s3: Seq<char>|
                                #[trigger] self.3.ok(s2, w3, s3) && ({
                                ||| self.4.err(s3, e@)
                                ||| exists|w4: R, s4: Seq<char>|
                                    #[trigger] self.4.ok(s3, w4, s4) && ({
                                    ||| self.5.err(s4, e@)
                                    ||| exists|w5: S, s5: Seq<char>|
                                        #[trigger] self.5.ok(s4, w5, s5) && ({
                                        self.6.err(s5, e@)
                                        })
                                    })
                                })
                            })
                    });
                    assert({
                        ||| self.1.err(r0@, e@)
                        ||| exists|w1: O, s1: Seq<char>|
                            #[trigger] self.1.ok(r0@, w1, s1) && ({
                            ||| self.2.err(s1, e@)
                            ||| exists|w2: P, s2: Seq<char>|
                                #[trigger] self.2.ok(s1, w2, s2) && ({
                                ||| self.3.err(s2, e@)
                                ||| exists|w3: Q, s3: Seq<char>|
                                    #[trigger] self.3.ok(s2, w3, s3) && ({
                                    ||| self.4.err(s3, e@)
                                    ||| exists|w4: R, s4: Seq<char>|
                                        #[trigger] self.4.ok(s3, w4, s4) && ({
                                        ||| self.5.err(s4, e@)
                                        ||| exists|w5: S, s5: Seq<char>|
                                            #[trigger] self.5.ok(s4, w5, s5) && ({
                                            self.6.err(s5, e@)
                                            })
                                        })
                                    })
                                })
                            })
                    });
                    assert({
                        ||| self.0.err(input@, e@)
                        ||| exists|w0: N, s0: Seq<char>|
                            #[trigger] self.0.ok(input@, w0, s0) && ({
                            ||| self.1.err(s0, e@)
                            ||| exists|w1: O, s1: Seq<char>|
                                #[trigger] self.1.ok(s0, w1, s1) && ({
                                ||| self.2.err(s1, e@)
                                ||| exists|w2: P, s2: Seq<char>|
                                    #[trigger] self.2.ok(s1, w2, s2) && ({
                                    ||| self.3.err(s2, e@)
                                    ||| exists|w3: Q, s3: Seq<char>|
                                        #[trigger] self.3.ok(s2, w3, s3) && ({
                                        ||| self.4.err(s3, e@)
                                        ||| exists|w4: R, s4: Seq<char>|
                                            #[trigger] self.4.ok(s3, w4, s4) && ({
                                            ||| self.5.err(s4, e@)
                                            ||| exists|w5: S, s5: Seq<char>|
                                                #[trigger] self.5.ok(s4, w5, s5) && ({
                                                self.6.err(s5, e@)
                                                })
                                            })
                                        })
                                    })
                                })
                            })
                    });
                }
                return Err(e);
            },
        };
        let (v4, r4) = match self.4.parse(r3) {
            Ok(x) => x,
            Err(e) => {
                proof {
                    assert({
                        ||| self.3.err(r2@, e@)
                        ||| exists|w3: Q, s3: Seq<char>|
                            #[trigger] self.3.ok(r2@, w3, s3) && ({
                            ||| self.4.err(s3, e@)
                            ||| exists|w4: R, s4: Seq<char>|
                                #[trigger] self.4.ok(s3, w4, s4) && ({
                                ||| self.5.err(s4, e@)
                                ||| exists|w5: S, s5: Seq<char>|
                                    #[trigger] self.5.ok(s4, w5, s5) && ({
                                    self.6.err(s5, e@)
                                    })
                                })
                            })
                    });
                    assert({
                        ||| self.2.err(r1@, e@)
                        ||| exists|w2: P, s2: Seq<char>|
                            #[trigger] self.2.ok(r1@, w2, s2) && ({
                            ||| self.3.err(s2, e@)
                            ||| exists|w3: Q, s3: Seq<char>|
                                #[trigger] self.3.ok(s2, w3, s3) && ({
                                ||| self.4.err(s3, e@)
                                ||| exists|w4: R, s4: Seq<char>|
                                    #[trigger] self.4.ok(s3, w4, s4) && ({
                                    ||| self.5.err(s4, e@)
                                    ||| exists|w5: S, s5: Seq<char>|
                                        #[trigger] self.5.ok(s4, w5, s5) && ({
                                        self.6.err(s5, e@)
                                        })
                                    })
                                })
                            })
                    });
                    assert({
                        ||| self.1.err(r0@, e@)
                        ||| exists|w1: O, s1: Seq<char>|
                            #[trigger] self.1.ok(r0@, w1, s1) && ({
                            ||| self.2.err(s1, e@)
                            ||| exists|w2: P, s2: Seq<char>|
                                #[trigger] self.2.ok(s1, w2, s2) && ({
                                ||| self.3.err(s2, e@)
                                ||| exists|w3: Q, s3: Seq<char>|
                                    #[trigger] self.3.ok(s2, w3, s3) && ({
                                    ||| self.4.err(s3, e@)
                                    ||| exists|w4: R, s4: Seq<char>|
                                        #[trigger] self.4.ok(s3, w4, s4) && ({
                                        ||| self.5.err(s4, e@)
                                        ||| exists|w5: S, s5: Seq<char>|
                                            #[trigger] self.5.ok(s4, w5, s5) && ({
                                            self.6.err(s5, e@)
                                            })
                                        })
                                    })
                                })
                            })
                    });
                    assert({
                        ||| self.0.err(input@, e@)
                        ||| exists|w0: N, s0: Seq<char>|
                            #[trigger] self.0.ok(input@, w0, s0) && ({
                            ||| self.1.err(s0, e@)
                            ||| exists|w1: O, s1: Seq<char>|
                                #[trigger] self.1.ok(s0, w1, s1) && ({
                                ||| self.2.err(s1, e@)
                                ||| exists|w2: P, s2: Seq<char>|
                                    #[trigger] self.2.ok(s1, w2, s2) && ({
                                    ||| self.3.err(s2, e@)
                                    ||| exists|w3: Q, s3: Seq<char>|
                                        #[trigger] self.3.ok(s2, w3, s3) && ({
                                        ||| self.4.err(s3, e@)
                                        ||| exists|w4: R, s4: Seq<char>|
                                            #[trigger] self.4.ok(s3, w4, s4) && ({
                                            ||| self.5.err(s4, e@)
                                            ||| exists|w5: S, s5: Seq<char>|
                                                #[trigger] self.5.ok(s4, w5, s5) && ({
                                                self.6.err(s5, e@)
                                                })
                                            })
                                        })
                                    })
                                })
                            })
                    });
                }
                return Err(e);
            },
        };
        let (v5, r5) = match self.5.parse(r4) {
            Ok(x) => x,
            Err(e) => {
                proof {
                    assert({
                        ||| self.4.err(r3@, e@)
                        ||| exists|w4: R, s4: Seq<char>|
                            #[trigger] self.4.ok(r3@, w4, s4) && ({
                            ||| self.5.err(s4, e@)
                            ||| exists|w5: S, s5: Seq<char>|
                                #[trigger] self.5.ok(s4, w5, s5) && ({
                                self.6.err(s5, e@)
                                })
                            })
                    });
                    assert({
                        ||| self.3.err(r2@, e@)
                        ||| exists|w3: Q, s3: Seq<char>|
                            #[trigger] self.3.ok(r2@, w3, s3) && ({
                            ||| self.4.err(s3, e@)
                            ||| exists|w4: R, s4: Seq<char>|
                                #[trigger] self.4.ok(s3, w4, s4) && ({
                                ||| self.5.err(s4, e@)
                                ||| exists|w5: S, s5: Seq<char>|
                                    #[trigger] self.5.ok(s4, w5, s5) && ({
                                    self.6.err(s5, e@)
                                    })
                                })
                            })
                    });
                    assert({
                        ||| self.2.err(r1@, e@)
                        ||| exists|w2: P, s2: Seq<char>|
                            #[trigger] self.2.ok(r1@, w2, s2) && ({
                            ||| self.3.err(s2, e@)
                            ||| exists|w3: Q, s3: Seq<char>|
                                #[trigger] self.3.ok(s2, w3, s3) && ({
                                ||| self.4.err(s3, e@)
                                ||| exists|w4: R, s4: Seq<char>|
                                    #[trigger] self.4.ok(s3, w4, s4) && ({
                                    ||| self.5.err(s4, e@)
                                    ||| exists|w5: S, s5: Seq<char>|
                                        #[trigger] self.5.ok(s4, w5, s5) && ({
                                        self.6.err(s5, e@)
                                        })
                                    })
                                })
                            })
                    });
                    assert({
                        ||| self.1.err(r0@, e@)
                        ||| exists|w1: O, s1: Seq<char>|
                            #[trigger] self.1.ok(r0@, w1, s1) && ({
                            ||| self.2.err(s1, e@)
                            ||| exists|w2: P, s2: Seq<char>|
                                #[trigger] self.2.ok(s1, w2, s2) && ({
                                ||| self.3.err(s2, e@)
                                ||| exists|w3: Q, s3: Seq<char>|
                                    #[trigger] self.3.ok(s2, w3, s3) && ({
                                    ||| self.4.err(s3, e@)
                                    ||| exists|w4: R, s4: Seq<char>|
                                        #[trigger] self.4.ok(s3, w4, s4) && ({
                                        ||| self.5.err(s4, e@)
                                        ||| exists|w5: S, s5: Seq<char>|
                                            #[trigger] self.5.ok(s4, w5, s5) && ({
                                            self.6.err(s5, e@)
                                            })
                                        })
                                    })
                                })
                            })
                    });
                    assert({
                        ||| self.0.err(input@, e@)
                        ||| exists|w0: N, s0: Seq<char>|
                            #[trigger] self.0.ok(input@, w0, s0) && ({
                            ||| self.1.err(s0, e@)
                            ||| exists|w1: O, s1: Seq<char>|
                                #[trigger] self.1.ok(s0, w1, s1) && ({
                                ||| self.2.err(s1, e@)
                                ||| exists|w2: P, s2: Seq<char>|
                                    #[trigger] self.2.ok(s1, w2, s2) && ({
                                    ||| self.3.err(s2, e@)
                                    ||| exists|w3: Q, s3: Seq<char>|
                                        #[trigger] self.3.ok(s2, w3, s3) && ({
                                        ||| self.4.err(s3, e@)
                                        ||| exists|w4: R, s4: Seq<char>|
                                            #[trigger] self.4.ok(s3, w4, s4) && ({
                                            ||| self.5.err(s4, e@)
                                            ||| exists|w5: S, s5: Seq<char>|
                                                #[trigger] self.5.ok(s4, w5, s5) && ({
                                                self.6.err(s5, e@)
                                                })
                                            })
                                        })
                                    })
                                })
                            })
                    });
                }
                return Err(e);
            },
        };
        let (v6, r6) = match self.6.parse(r5) {
            Ok(x) => x,
            Err(e) => {
                proof {
                    assert({
                        ||| self.5.err(r4@, e@)
                        ||| exists|w5: S, s5: Seq<char>|
                            #[trigger] self.5.ok(r4@, w5, s5) && ({
                            self.6.err(s5, e@)
                            })
                    });
                    assert({
                        ||| self.4.err(r3@, e@)
                        ||| exists|w4: R, s4: Seq<char>|
                            #[trigger] self.4.ok(r3@, w4, s4) && ({
                            ||| self.5.err(s4, e@)
                            ||| exists|w5: S, s5: Seq<char>|
                                #[trigger] self.5.ok(s4, w5, s5) && ({
                                self.6.err(s5, e@)
                                })
                            })
                    });
                    assert({
                        ||| self.3.err(r2@, e@)
                        ||| exists|w3: Q, s3: Seq<char>|
                            #[trigger] self.3.ok(r2@, w3, s3) && ({
                            ||| self.4.err(s3, e@)
                            ||| exists|w4: R, s4: Seq<char>|
                                #[trigger] self.4.ok(s3, w4, s4) && ({
                                ||| self.5.err(s4, e@)
                                ||| exists|w5: S, s5: Seq<char>|
                                    #[trigger] self.5.ok(s4, w5, s5) && ({
                                    self.6.err(s5, e@)
                                    })
                                })
                            })
                    });
                    assert({
                        ||| self.2.err(r1@, e@)
                        ||| exists|w2: P, s2: Seq<char>|
                            #[trigger] self.2.ok(r1@, w2, s2) && ({
                            ||| self.3.err(s2, e@)
                            ||| exists|w3: Q, s3: Seq<char>|
                                #[trigger] self.3.ok(s2, w3, s3) && ({
                                ||| self.4.err(s3, e@)
                                ||| exists|w4: R, s4: Seq<char>|
                                    #[trigger] self.4.ok(s3, w4, s4) && ({
                                    ||| self.5.err(s4, e@)
                                    ||| exists|w5: S, s5: Seq<char>|
                                        #[trigger] self.5.ok(s4, w5, s5) && ({
                                        self.6.err(s5, e@)
                                        })
                                    })
                                })
                            })
                    });
                    assert({
                        ||| self.1.err(r0@, e@)
                        ||| exists|w1: O, s1: Seq<char>|
                            #[trigger] self.1.ok(r0@, w1, s1) && ({
                            ||| self.2.err(s1, e@)
                            ||| exists|w2: P, s2: Seq<char>|
                                #[trigger] self.2.ok(s1, w2, s2) && ({
                                ||| self.3.err(s2, e@)
                                ||| exists|w3: Q, s3: Seq<char>|
                                    #[trigger] self.3.ok(s2, w3, s3) && ({
                                    ||| self.4.err(s3, e@)
                                    ||| exists|w4: R, s4: Seq<char>|
                                        #[trigger] self.4.ok(s3, w4, s4) && ({
                                        ||| self.5.err(s4, e@)
                                        ||| exists|w5: S, s5: Seq<char>|
                                            #[trigger] self.5.ok(s4, w5, s5) && ({
                                            self.6.err(s5, e@)
                                            })
                                        })
                                    })
                                })
                            })
                    });
                    assert({
                        ||| self.0.err(input@, e@)
                        ||| exists|w0: N, s0: Seq<char>|
                            #[trigger] self.0.ok(input@, w0, s0) && ({
                            ||| self.1.err(s0, e@)
                            ||| exists|w1: O, s1: Seq<char>|
                                #[trigger] self.1.ok(s0, w1, s1) && ({
                                ||| self.2.err(s1, e@)
                                ||| exists|w2: P, s2: Seq<char>|
                                    #[trigger] self.2.ok(s1, w2, s2) && ({
                                    ||| self.3.err(s2, e@)
                                    ||| exists|w3: Q, s3: Seq<char>|
                                        #[trigger] self.3.ok(s2, w3, s3) && ({
                                        ||| self.4.err(s3, e@)
                                        ||| exists|w4: R, s4: Seq<char>|
                                            #[trigger] self.4.ok(s3, w4, s4) && ({
                                            ||| self.5.err(s4, e@)
                                            ||| exists|w5: S, s5: Seq<char>|
                                                #[trigger] self.5.ok(s4, w5, s5) && ({
                                                self.6.err(s5, e@)
                                                })
                                            })
                                        })
                                    })
                                })
                            })
                    });
                }
                return Err(e);
            },
        };
        let out = (v0, v1, v2, v3, v4, v5, v6);
        proof {
            assert(out.0 == v0);
            assert(out.1 == v1);
            assert(out.2 == v2);
            assert(out.3 == v3);
            assert(out.4 == v4);
            assert(out.5 == v5);
            assert(out.6 == v6);
            lemma_remainder_trans(input@, r0@, r1@);
            lemma_remainder_trans(input@, r1@, r2@);
            lemma_remainder_trans(input@, r2@, r3@);
            lemma_remainder_trans(input@, r3@, r4@);
            lemma_remainder_trans(input@, r4@, r5@);
            lemma_remainder_trans(input@, r5@, r6@);
            assert({
                self.6.ok(r5@, out.6, r6@)
            });
            assert({
                exists|s5: Seq<char>|
                    #[trigger] self.5.ok(r4@, out.5, s5) && ({
                    self.6.ok(s5, out.6, r6@)
                    })
            });
            assert({
                exists|s4: Seq<char>|
                    #[trigger] self.4.ok(r3@, out.4, s4) && ({
                    exists|s5: Seq<char>|
                        #[trigger] self.5.ok(s4, out.5, s5) && ({
                        self.6.ok(s5, out.6, r6@)
                        })
                    })
            });
            assert({
                exists|s3: Seq<char>|
                    #[trigger] self.3.ok(r2@, out.3, s3) && ({
                    exists|s4: Seq<char>|
                        #[trigger] self.4.ok(s3, out.4, s4) && ({
                        exists|s5: Seq<char>|
                            #[trigger] self.5.ok(s4, out.5, s5) && ({
                            self.6.ok(s5, out.6, r6@)
                            })
                        })
                    })
            });
            assert({
                exists|s2: Seq<char>|
                    #[trigger] self.2.ok(r1@, out.2, s2) && ({
                    exists|s3: Seq<char>|
                        #[trigger] self.3.ok(s2, out.3, s3) && ({
                        exists|s4: Seq<char>|
                            #[trigger] self.4.ok(s3, out.4, s4) && ({
                            exists|s5: Seq<char>|
                                #[trigger] self.5.ok(s4, out.5, s5) && ({
                                self.6.ok(s5, out.6, r6@)
                                })
                            })
                        })
                    })
            });
            assert({
                exists|s1: Seq<char>|
                    #[trigger] self.1.ok(r0@, out.1, s1) && ({
                    exists|s2: Seq<char>|
                        #[trigger] self.2.ok(s1, out.2, s2) && ({
                        exists|s3: Seq<char>|
                            #[trigger] self.3.ok(s2, out.3, s3) && ({
                            exists|s4: Seq<char>|
                                #[trigger] self.4.ok(s3, out.4, s4) && ({
                                exists|s5: Seq<char>|
                                    #[trigger] self.5.ok(s4, out.5, s5) && ({
                                    self.6.ok(s5, out.6, r6@)
                                    })
                                })
                            })
                        })
                    })
            });
            assert({
                exists|s0: Seq<char>|
                    #[trigger] self.0.ok(input@, out.0, s0) && ({
                    exists|s1: Seq<char>|
                        #[trigger] self.1.ok(s0, out.1, s1) && ({
                        exists|s2: Seq<char>|
                            #[trigger] self.2.ok(s1, out.2, s2) && ({
                            exists|s3: Seq<char>|
                                #[trigger] self.3.ok(s2, out.3, s3) && ({
                                exists|s4: Seq<char>|
                                    #[trigger] self.4.ok(s3, out.4, s4) && ({
                                    exists|s5: Seq<char>|
                                        #[trigger] self.5.ok(s4, out.5, s5) && ({
                                        self.6.ok(s5, out.6, r6@)
                                        })
                                    })
                                })
                            })
                        })
                    })
            });
        }
        Ok((out, r6))
    }
}

/// A tuple of seven parsers is itself a parser: its components run as a
/// series.
impl<'a, N, O, P, Q, R, S, T, A: Parser<'a, N>, B: Parser<'a, O>, C: Parser<'a, P>, D: Parser<'a, Q>, E: Parser<'a, R>, F: Parser<'a, S>, G: Parser<'a, T>> Parser<'a, (N, O, P, Q, R, S, T)> for (A, B, C, D, E, F, G) {
    open spec fn wf(&self) -> bool {
        self.series_wf()
    }

    open spec fn ok(&self, input: Seq<char>, out: (N, O, P, Q, R, S, T), rem: Seq<char>) -> bool {
        self.series_ok(input, out, rem)
    }

    open spec fn err(&self, input: Seq<char>, e: SpecError) -> bool {
        self.series_err(input, e)
    }

    fn parse(&self, input: &'a str) -> (r: Output<'a, (N, O, P, Q, R, S, T)>) {
        self.parse_series(input)
    }
}

/// A fixed group of eight parsers run as a series.
impl<'a, N, O, P, Q, R, S, T, U, A: Parser<'a, N>, B: Parser<'a, O>, C: Parser<'a, P>, D: Parser<'a, Q>, E: Parser<'a, R>, F: Parser<'a, S>, G: Parser<'a, T>, H: Parser<'a, U>> Series<'a, (N, O, P, Q, R, S, T, U)> for (A, B, C, D, E, F, G, H) {
    open spec fn series_wf(&self) -> bool {
        &&& self.0.wf()
        &&& self.1.wf()
        &&& self.2.wf()
        &&& self.3.wf()
        &&& self.4.wf()
        &&& self.5.wf()
        &&& self.6.wf()
        &&& self.7.wf()
    }

    open spec fn series_ok(&self, input: Seq<char>, out: (N, O, P, Q, R, S, T, U), rem: Seq<char>) -> bool {
        exists|s0: Seq<char>|
            #[trigger] self.0.ok(input, out.0, s0) && ({
            exists|s1: Seq<char>|
                #[trigger] self.1.ok(s0, out.1, s1) && ({
                exists|s2: Seq<char>|
                    #[trigger] self.2.ok(s1, out.2, s2) && ({
                    exists|s3: Seq<char>|
                        #[trigger] self.3.ok(s2, out.3, s3) && ({
                        exists|s4: Seq<char>|
                            #[trigger] self.4.ok(s3, out.4, s4) && ({
                            exists|s5: Seq<char>|
                                #[trigger] self.5.ok(s4, out.5, s5) && ({
                                exists|s6: Seq<char>|
                                    #[trigger] self.6.ok(s5, out.6, s6) && ({
                                    self.7.ok(s6, out.7, rem)
                                    })
                                })
                            })
                        })
                    })
                })
            })
    }

    open spec fn series_err(&self, input: Seq<char>, e: SpecError) -> bool {
        ||| self.0.err(input, e)
        ||| exists|w0: N, s0: Seq<char>|
            #[trigger] self.0.ok(input, w0, s0) && ({
            ||| self.1.err(s0, e)
            ||| exists|w1: O, s1: Seq<char>|
                #[trigger] self.1.ok(s0, w1, s1) && ({
                ||| self.2.err(s1, e)
                ||| exists|w2: P, s2: Seq<char>|
                    #[trigger] self.2.ok(s1, w2, s2) && ({
                    ||| self.3.err(s2, e)
                    ||| exists|w3: Q, s3: Seq<char>|
                        #[trigger] self.3.ok(s2, w3, s3) && ({
                        ||| self.4.err(s3, e)
                        ||| exists|w4: R, s4: Seq<char>|
                            #[trigger] self.4.ok(s3, w4, s4) && ({
                            ||| self.5.err(s4, e)
                            ||| exists|w5: S, s5: Seq<char>|
                                #[trigger] self.5.ok(s4, w5, s5) && ({
                                ||| self.6.err(s5, e)
                                ||| exists|w6: T, s6: Seq<char>|
                                    #[trigger] self.6.ok(s5, w6, s6) && ({
                                    self.7.err(s6, e)
                                    })
                                })
                            })
                        })
                    })
                })
            })
    }

    fn parse_series(&self, input: &'a str) -> (r: Output<'a, (N, O, P, Q, R, S, T, U)>) {
        let (v0, r0) = match self.0.parse(input) {
            Ok(x) => x,
            Err(e) => {
                return Err(e);
            },
        };
        let (v1, r1) = match self.1.parse(r0) {
            Ok(x) => x,
            Err(e) => {
                proof {
                    assert({
                        ||| self.0.err(input@, e@)
                        ||| exists|w0: N, s0: Seq<char>|
                            #[trigger] self.0.ok(input@, w0, s0) && ({
                            ||| self.1.err(s0, e@)
                            ||| exists|w1: O, s1: Seq<char>|
                                #[trigger] self.1.ok(s0, w1, s1) && ({
                                ||| self.2.err(s1, e@)
                                ||| exists|w2: P, s2: Seq<char>|
                                    #[trigger] self.2.ok(s1, w2, s2) && ({
                                    ||| self.3.err(s2, e@)
                                    ||| exists|w3: Q, s3: Seq<char>|
                                        #[trigger] self.3.ok(s2, w3, s3) && ({
                                        ||| self.4.err(s3, e@)
                                        ||| exists|w4: R, s4: Seq<char>|
                                            #[trigger] self.4.ok(s3, w4, s4) && ({
                                            ||| self.5.err(s4, e@)
                                            ||| exists|w5: S, s5: Seq<char>|
                                                #[trigger] self.5.ok(s4, w5, s5) && ({
                                                ||| self.6.err(s5, e@)
                                                ||| exists|w6: T, s6: Seq<char>|
                                                    #[trigger] self.6.ok(s5, w6, s6) && ({
                                                    self.7.err(s6, e@)
                                                    })
                                                })
                                            })
                                        })
                                    })
                                })
                            })
                    });
                }
                return Err(e);
            },
        };
        let (v2, r2) = match self.2.parse(r1) {
            Ok(x) => x,
            Err(e) => {
                proof {
                    assert({
                        ||| self.1.err(r0@, e@)
                        ||| exists|w1: O, s1: Seq<char>|
                            #[trigger] self.1.ok(r0@, w1, s1) && ({
                            ||| self.2.err(s1, e@)
                            ||| exists|w2: P, s2: Seq<char>|
                                #[trigger] self.2.ok(s1, w2, s2) && ({
                                ||| self.3.err(s2, e@)
                                ||| exists|w3: Q, s3: Seq<char>|
                                    #[trigger] self.3.ok(s2, w3, s3) && ({
                                    ||| self.4.err(s3, e@)
                                    ||| exists|w4: R, s4: Seq<char>|
                                        #[trigger] self.4.ok(s3, w4, s4) && ({
                                        ||| self.5.err(s4, e@)
                                        ||| exists|w5: S, s5: Seq<char>|
                                            #[trigger] self.5.ok(s4, w5, s5) && ({
                                            ||| self.6.err(s5, e@)
                                            ||| exists|w6: T, s6: Seq<char>|
                                                #[trigger] self.6.ok(s5, w6, s6) && ({
                                                self.7.err(s6, e@)
                                                })
                                            })
                                        })
                                    })
                                })
                            })
                    });
                    assert({
                        ||| self.0.err(input@, e@)
                        ||| exists|w0: N, s0: Seq<char>|
                            #[trigger] self.0.ok(input@, w0, s0) && ({
                            ||| self.1.err(s0, e@)
                            ||| exists|w1: O, s1: Seq<char>|
                                #[trigger] self.1.ok(s0, w1, s1) && ({
                                ||| self.2.err(s1, e@)
                                ||| exists|w2: P, s2: Seq<char>|
                                    #[trigger] self.2.ok(s1, w2, s2) && ({
                                    ||| self.3.err(s2, e@)
                                    ||| exists|w3: Q, s3: Seq<char>|
                                        #[trigger] self.3.ok(s2, w3, s3) && ({
                                        ||| self.4.err(s3, e@)
                                        ||| exists|w4: R, s4: Seq<char>|
                                            #[trigger] self.4.ok(s3, w4, s4) && ({
                                            ||| self.5.err(s4, e@)
                                            ||| exists|w5: S, s5: Seq<char>|
                                                #[trigger] self.5.ok(s4, w5, s5) && ({
                                                ||| self.6.err(s5, e@)
                                                ||| exists|w6: T, s6: Seq<char>|
                                                    #[trigger] self.6.ok(s5, w6, s6) && ({
                                                    self.7.err(s6, e@)
                                                    })
                                                })
                                            })
                                        })
                                    })
                                })
                            })
                    });
                }
                return Err(e);
            },
        };
        let (v3, r3) = match self.3.parse(r2) {
            Ok(x) => x,
            Err(e) => {
                proof {
                    assert({
                        ||| self.2.err(r1@, e@)
                        ||| exists|w2: P, s2: Seq<char>|
                            #[trigger] self.2.ok(r1@, w2, s2) && ({
                            ||| self.3.err(s2, e@)
                            ||| exists|w3: Q, s3: Seq<char>|
                                #[trigger] self.3.ok(s2, w3, s3) && ({
                                ||| self.4.err(s3, e@)
                                ||| exists|w4: R, s4: Seq<char>|
                                    #[trigger] self.4.ok(s3, w4, s4) && ({
                                    ||| self.5.err(s4, e@)
                                    ||| exists|w5: S, s5: Seq<char>|
                                        #[trigger] self.5.ok(s4, w5, s5) && ({
                                        ||| self.6.err(s5, e@)
                                        ||| exists|w6: T, s6: Seq<char>|
                                            #[trigger] self.6.ok(s5, w6, s6) && ({
                                            self.7.err(s6, e@)
                                            })
                                        })
                                    })
                                })
                            })
                    });
                    assert({
                        ||| self.1.err(r0@, e@)
                        ||| exists|w1: O, s1: Seq<char>|
                            #[trigger] self.1.ok(r0@, w1, s1) && ({
                            ||| self.2.err(s1, e@)
                            ||| exists|w2: P, s2: Seq<char>|
                                #[trigger] self.2.ok(s1, w2, s2) && ({
                                ||| self.3.err(s2, e@)
                                ||| exists|w3: Q, s3: Seq<char>|
                                    #[trigger] self.3.ok(s2, w3, s3) && ({
                                    ||| self.4.err(s3, e@)
                                    ||| exists|w4: R, s4: Seq<char>|
                                        #[trigger] self.4.ok(s3, w4, s4) && ({
                                        ||| self.5.err(s4, e@)
                                        ||| exists|w5: S, s5: Seq<char>|
                                            #[trigger] self.5.ok(s4, w5, s5) && ({
                                            ||| self.6.err(s5, e@)
                                            ||| exists|w6: T, s6: Seq<char>|
                                                #[trigger] self.6.ok(s5, w6, s6) && ({
                                                self.7.err(s6, e@)
                                                })
                                            })
                                        })
                                    })
                                })
                            })
                    });
                    assert({
                        ||| self.0.err(input@, e@)
                        ||| exists|w0: N, s0: Seq<char>|
                            #[trigger] self.0.ok(input@, w0, s0) && ({
                            ||| self.1.err(s0, e@)
                            ||| exists|w1: O, s1: Seq<char>|
                                #[trigger] self.1.ok(s0, w1, s1) && ({
                                ||| self.2.err(s1, e@)
                                ||| exists|w2: P, s2: Seq<char>|
                                    #[trigger] self.2.ok(s1, w2, s2) && ({
                                    ||| self.3.err(s2, e@)
                                    ||| exists|w3: Q, s3: Seq<char>|
                                        #[trigger] self.3.ok(s2, w3, s3) && ({
                                        ||| self.4.err(s3, e@)
                                        ||| exists|w4: R, s4: Seq<char>|
                                            #[trigger] self.4.ok(s3, w4, s4) && ({
                                            ||| self.5.err(s4, e@)
                                            ||| exists|w5: S, s5: Seq<char>|
                                                #[trigger] self.5.ok(s4, w5, s5) && ({
                                                ||| self.6.err(s5, e@)
                                                ||| exists|w6: T, s6: Seq<char>|
                                                    #[trigger] self.6.ok(s5, w6, s6) && ({
                                                    self.7.err(s6, e@)
                                                    })
                                                })
                                            })
                                        })
                                    })
                                })
                            })
                    });
                }
                return Err(e);
            },
        };
        let (v4, r4) = match self.4.parse(r3) {
            Ok(x) => x,
            Err(e) => {
                proof {
                    assert({
                        ||| self.3.err(r2@, e@)
                        ||| exists|w3: Q, s3: Seq<char>|
                            #[trigger] self.3.ok(r2@, w3, s3) && ({
                            ||| self.4.err(s3, e@)
                            ||| exists|w4: R, s4: Seq<char>|
                                #[trigger] self.4.ok(s3, w4, s4) && ({
                                ||| self.5.err(s4, e@)
                                ||| exists|w5: S, s5: Seq<char>|
                                    #[trigger] self.5.ok(s4, w5, s5) && ({
                                    ||| self.6.err(s5, e@)
                                    ||| exists|w6: T, s6: Seq<char>|
                                        #[trigger] self.6.ok(s5, w6, s6) && ({
                                        self.7.err(s6, e@)
                                        })
                                    })
                                })
                            })
                    });
                    assert({
                        ||| self.2.err(r1@, e@)
                        ||| exists|w2: P, s2: Seq<char>|
                            #[trigger] self.2.ok(r1@, w2, s2) && ({
                            ||| self.3.err(s2, e@)
                            ||| exists|w3: Q, s3: Seq<char>|
                                #[trigger] self.3.ok(s2, w3, s3) && ({
                                ||| self.4.err(s3, e@)
                                ||| exists|w4: R, s4: Seq<char>|
                                    #[trigger] self.4.ok(s3, w4, s4) && ({
                                    ||| self.5.err(s4, e@)
                                    ||| exists|w5: S, s5: Seq<char>|
                                        #[trigger] self.5.ok(s4, w5, s5) && ({
                                        ||| self.6.err(s5, e@)
                                        ||| exists|w6: T, s6: Seq<char>|
                                            #[trigger] self.6.ok(s5, w6, s6) && ({
                                            self.7.err(s6, e@)
                                            })
                                        })
                                    })
                                })
                            })
                    });
                    assert({
                        ||| self.1.err(r0@, e@)
                        ||| exists|w1: O, s1: Seq<char>|
                            #[trigger] self.1.ok(r0@, w1, s1) && ({
                            ||| self.2.err(s1, e@)
                            ||| exists|w2: P, s2: Seq<char>|
                                #[trigger] self.2.ok(s1, w2, s2) && ({
                                ||| self.3.err(s2, e@)
                                ||| exists|w3: Q, s3: Seq<char>|
                                    #[trigger] self.3.ok(s2, w3, s3) && ({
                                    ||| self.4.err(s3, e@)
                                    ||| exists|w4: R, s4: Seq<char>|
                                        #[trigger] self.4.ok(s3, w4, s4) && ({
                                        ||| self.5.err(s4, e@)
                                        ||| exists|w5: S, s5: Seq<char>|
                                            #[trigger] self.5.ok(s4, w5, s5) && ({
                                            ||| self.6.err(s5, e@)
                                            ||| exists|w6: T, s6: Seq<char>|
                                                #[trigger] self.6.ok(s5, w6, s6) && ({
                                                self.7.err(s6, e@)
                                                })
                                            })
                                        })
                                    })
                                })
                            })
                    });
                    assert({
                        ||| self.0.err(input@, e@)
                        ||| exists|w0: N, s0: Seq<char>|
                            #[trigger] self.0.ok(input@, w0, s0) && ({
                            ||| self.1.err(s0, e@)
                            ||| exists|w1: O, s1: Seq<char>|
                                #[trigger] self.1.ok(s0, w1, s1) && ({
                                ||| self.2.err(s1, e@)
                                ||| exists|w2: P, s2: Seq<char>|
                                    #[trigger] self.2.ok(s1, w2, s2) && ({
                                    ||| self.3.err(s2, e@)
                                    ||| exists|w3: Q, s3: Seq<char>|
                                        #[trigger] self.3.ok(s2, w3, s3) && ({
                                        ||| self.4.err(s3, e@)
                                        ||| exists|w4: R, s4: Seq<char>|
                                            #[trigger] self.4.ok(s3, w4, s4) && ({
                                            ||| self.5.err(s4, e@)
                                            ||| exists|w5: S, s5: Seq<char>|
                                                #[trigger] self.5.ok(s4, w5, s5) && ({
                                                ||| self.6.err(s5, e@)
                                                ||| exists|w6: T, s6: Seq<char>|
                                                    #[trigger] self.6.ok(s5, w6, s6) && ({
                                                    self.7.err(s6, e@)
                                                    })
                                                })
                                            })
                                        })
                                    })
                                })
                            })
                    });
                }
                return Err(e);
            },
        };
        let (v5, r5) = match self.5.parse(r4) {
            Ok(x) => x,
            Err(e) => {
                proof {
                    assert({
                        ||| self.4.err(r3@, e@)
                        ||| exists|w4: R, s4: Seq<char>|
                            #[trigger] self.4.ok(r3@, w4, s4) && ({
                            ||| self.5.err(s4, e@)
                            ||| exists|w5: S, s5: Seq<char>|
                                #[trigger] self.5.ok(s4, w5, s5) && ({
                                ||| self.6.err(s5, e@)
                                ||| exists|w6: T, s6: Seq<char>|
                                    #[trigger] self.6.ok(s5, w6, s6) && ({
                                    self.7.err(s6, e@)
                                    })
                                })
                            })
                    });
                    assert({
                        ||| self.3.err(r2@, e@)
                        ||| exists|w3: Q, s3: Seq<char>|
                            #[trigger] self.3.ok(r2@, w3, s3) && ({
                            ||| self.4.err(s3, e@)
                            ||| exists|w4: R, s4: Seq<char>|
                                #[trigger] self.4.ok(s3, w4, s4) && ({
                                ||| self.5.err(s4, e@)
                                ||| exists|w5: S, s5: Seq<char>|
                                    #[trigger] self.5.ok(s4, w5, s5) && ({
                                    ||| self.6.err(s5, e@)
                                    ||| exists|w6: T, s6: Seq<char>|
                                        #[trigger] self.6.ok(s5, w6, s6) && ({
                                        self.7.err(s6, e@)
                                        })
                                    })
                                })
                            })
                    });
                    assert({
                        ||| self.2.err(r1@, e@)
                        ||| exists|w2: P, s2: Seq<char>|
                            #[trigger] self.2.ok(r1@, w2, s2) && ({
                            ||| self.3.err(s2, e@)
                            ||| exists|w3: Q, s3: Seq<char>|
                                #[trigger] self.3.ok(s2, w3, s3) && ({
                                ||| self.4.err(s3, e@)
                                ||| exists|w4: R, s4: Seq<char>|
                                    #[trigger] self.4.ok(s3, w4, s4) && ({
                                    ||| self.5.err(s4, e@)
                                    ||| exists|w5: S, s5: Seq<char>|
                                        #[trigger] self.5.ok(s4, w5, s5) && ({
                                        ||| self.6.err(s5, e@)
                                        ||| exists|w6: T, s6: Seq<char>|
                                            #[trigger] self.6.ok(s5, w6, s6) && ({
                                            self.7.err(s6, e@)
                                            })
                                        })
                                    })
                                })
                            })
                    });
                    assert({
                        ||| self.1.err(r0@, e@)
                        ||| exists|w1: O, s1: Seq<char>|
                            #[trigger] self.1.ok(r0@, w1, s1) && ({
                            ||| self.2.err(s1, e@)
                            ||| exists|w2: P, s2: Seq<char>|
                                #[trigger] self.2.ok(s1, w2, s2) && ({
                                ||| self.3.err(s2, e@)
                                ||| exists|w3: Q, s3: Seq<char>|
                                    #[trigger] self.3.ok(s2, w3, s3) && ({
                                    ||| self.4.err(s3, e@)
                                    ||| exists|w4: R, s4: Seq<char>|
                                        #[trigger] self.4.ok(s3, w4, s4) && ({
                                        ||| self.5.err(s4, e@)
                                        ||| exists|w5: S, s5: Seq<char>|
                                            #[trigger] self.5.ok(s4, w5, s5) && ({
                                            ||| self.6.err(s5, e@)
                                            ||| exists|w6: T, s6: Seq<char>|
                                                #[trigger] self.6.ok(s5, w6, s6) && ({
                                                self.7.err(s6, e@)
                                                })
                                            })
                                        })
                                    })
                                })
                            })
                    });
                    assert({
                        ||| self.0.err(input@, e@)
                        ||| exists|w0: N, s0: Seq<char>|
                            #[trigger] self.0.ok(input@, w0, s0) && ({
                            ||| self.1.err(s0, e@)
                            ||| exists|w1: O, s1: Seq<char>|
                                #[trigger] self.1.ok(s0, w1, s1) && ({
                                ||| self.2.err(s1, e@)
                                ||| exists|w2: P, s2: Seq<char>|
                                    #[trigger] self.2.ok(s1, w2, s2) && ({
                                    ||| self.3.err(s2, e@)
                                    ||| exists|w3: Q, s3: Seq<char>|
                                        #[trigger] self.3.ok(s2, w3, s3) && ({
                                        ||| self.4.err(s3, e@)
                                        ||| exists|w4: R, s4: Seq<char>|
                                            #[trigger] self.4.ok(s3, w4, s4) && ({
                                            ||| self.5.err(s4, e@)
                                            ||| exists|w5: S, s5: Seq<char>|
                                                #[trigger] self.5.ok(s4, w5, s5) && ({
                                                ||| self.6.err(s5, e@)
                                                ||| exists|w6: T, s6: Seq<char>|
                                                    #[trigger] self.6.ok(s5, w6, s6) && ({
                                                    self.7.err(s6, e@)
                                                    })
                                                })
                                            })
                                        })
                                    })
                                })
                            })
                    });
                }
                return Err(e);
            },
        };
        let (v6, r6) = match self.6.parse(r5) {
            Ok(x) => x,
            Err(e) => {
                proof {
                    assert({
                        ||| self.5.err(r4@, e@)
                        ||| exists|w5: S, s5: Seq<char>|
                            #[trigger] self.5.ok(r4@, w5, s5) && ({
                            ||| self.6.err(s5, e@)
                            ||| exists|w6: T, s6: Seq<char>|
                                #[trigger] self.6.ok(s5, w6, s6) && ({
                                self.7.err(s6, e@)
                                })
                            })
                    });
                    assert({
                        ||| self.4.err(r3@, e@)
                        ||| exists|w4: R, s4: Seq<char>|
                            #[trigger] self.4.ok(r3@, w4, s4) && ({
                            ||| self.5.err(s4, e@)
                            ||| exists|w5: S, s5: Seq<char>|
                                #[trigger] self.5.ok(s4, w5, s5) && ({
                                ||| self.6.err(s5, e@)
                                ||| exists|w6: T, s6: Seq<char>|
                                    #[trigger] self.6.ok(s5, w6, s6) && ({
                                    self.7.err(s6, e@)
                                    })
                                })
                            })
                    });
                    assert({
                        ||| self.3.err(r2@, e@)
                        ||| exists|w3: Q, s3: Seq<char>|
                            #[trigger] self.3.ok(r2@, w3, s3) && ({
                            ||| self.4.err(s3, e@)
                            ||| exists|w4: R, s4: Seq<char>|
                                #[trigger] self.4.ok(s3, w4, s4) && ({
                                ||| self.5.err(s4, e@)
                                ||| exists|w5: S, s5: Seq<char>|
                                    #[trigger] self.5.ok(s4, w5, s5) && ({
                                    ||| self.6.err(s5, e@)
                                    ||| exists|w6: T, s6: Seq<char>|
                                        #[trigger] self.6.ok(s5, w6, s6) && ({
                                        self.7.err(s6, e@)
                                        })
                                    })
                                })
                            })
                    });
                    assert({
                        ||| self.2.err(r1@, e@)
                        ||| exists|w2: P, s2: Seq<char>|
                            #[trigger] self.2.ok(r1@, w2, s2) && ({
                            ||| self.3.err(s2, e@)
                            ||| exists|w3: Q, s3: Seq<char>|
                                #[trigger] self.3.ok(s2, w3, s3) && ({
                                ||| self.4.err(s3, e@)
                                ||| exists|w4: R, s4: Seq<char>|
                                    #[trigger] self.4.ok(s3, w4, s4) && ({
                                    ||| self.5.err(s4, e@)
                                    ||| exists|w5: S, s5: Seq<char>|
                                        #[trigger] self.5.ok(s4, w5, s5) && ({
                                        ||| self.6.err(s5, e@)
                                        ||| exists|w6: T, s6: Seq<char>|
                                            #[trigger] self.6.ok(s5, w6, s6) && ({
                                            self.7.err(s6, e@)
                                            })
                                        })
                                    })
                                })
                            })
                    });
                    assert({
                        ||| self.1.err(r0@, e@)
                        ||| exists|w1: O, s1: Seq<char>|
                            #[trigger] self.1.ok(r0@, w1, s1) && ({
                            ||| self.2.err(s1, e@)
                            ||| exists|w2: P, s2: Seq<char>|
                                #[trigger] self.2.ok(s1, w2, s2) && ({
                                ||| self.3.err(s2, e@)
                                ||| exists|w3: Q, s3: Seq<char>|
                                    #[trigger] self.3.ok(s2, w3, s3) && ({
                                    ||| self.4.err(s3, e@)
                                    ||| exists|w4: R, s4: Seq<char>|
                                        #[trigger] self.4.ok(s3, w4, s4) && ({
                                        ||| self.5.err(s4, e@)
                                        ||| exists|w5: S, s5: Seq<char>|
                                            #[trigger] self.5.ok(s4, w5, s5) && ({
                                            ||| self.6.err(s5, e@)
                                            ||| exists|w6: T, s6: Seq<char>|
                                                #[trigger] self.6.ok(s5, w6, s6) && ({
                                                self.7.err(s6, e@)
                                                })
                                            })
                                        })
                                    })
                                })
                            })
                    });
                    assert({
                        ||| self.0.err(input@, e@)
                        ||| exists|w0: N, s0: Seq<char>|
                            #[trigger] self.0.ok(input@, w0, s0) && ({
                            ||| self.1.err(s0, e@)
                            ||| exists|w1: O, s1: Seq<char>|
                                #[trigger] self.1.ok(s0, w1, s1) && ({
                                ||| self.2.err(s1, e@)
                                ||| exists|w2: P, s2: Seq<char>|
                                    #[trigger] self.2.ok(s1, w2, s2) && ({
                                    ||| self.3.err(s2, e@)
                                    ||| exists|w3: Q, s3: Seq<char>|
                                        #[trigger] self.3.ok(s2, w3, s3) && ({
                                        ||| self.4.err(s3, e@)
                                        ||| exists|w4: R, s4: Seq<char>|
                                            #[trigger] self.4.ok(s3, w4, s4) && ({
                                            ||| self.5.err(s4, e@)
                                            ||| exists|w5: S, s5: Seq<char>|
                                                #[trigger] self.5.ok(s4, w5, s5) && ({
                                                ||| self.6.err(s5, e@)
                                                ||| exists|w6: T, s6: Seq<char>|
                                                    #[trigger] self.6.ok(s5, w6, s6) && ({
                                                    self.7.err(s6, e@)
                                                    })
                                                })
                                            })
                                        })
                                    })
                                })
                            })
                    });
                }
                return Err(e);
            },
        };
        let (v7, r7) = match self.7.parse(r6) {
            Ok(x) => x,
            Err(e) => {
                proof {
                    assert({
                        ||| self.6.err(r5@, e@)
                        ||| exists|w6: T, s6: Seq<char>|
                            #[trigger] self.6.ok(r5@, w6, s6) && ({
                            self.7.err(s6, e@)
                            })
                    });
                    assert({
                        ||| self.5.err(r4@, e@)
                        ||| exists|w5: S, s5: Seq<char>|
                            #[trigger] self.5.ok(r4@, w5, s5) && ({
                            ||| self.6.err(s5, e@)
                            ||| exists|w6: T, s6: Seq<char>|
                                #[trigger] self.6.ok(s5, w6, s6) && ({
                                self.7.err(s6, e@)
                                })
                            })
                    });
                    assert({
                        ||| self.4.err(r3@, e@)
                        ||| exists|w4: R, s4: Seq<char>|
                            #[trigger] self.4.ok(r3@, w4, s4) && ({
                            ||| self.5.err(s4, e@)
                            ||| exists|w5: S, s5: Seq<char>|
                                #[trigger] self.5.ok(s4, w5, s5) && ({
                                ||| self.6.err(s5, e@)
                                ||| exists|w6: T, s6: Seq<char>|
                                    #[trigger] self.6.ok(s5, w6, s6) && ({
                                    self.7.err(s6, e@)
                                    })
                                })
                            })
                    });
                    assert({
                        ||| self.3.err(r2@, e@)
                        ||| exists|w3: Q, s3: Seq<char>|
                            #[trigger] self.3.ok(r2@, w3, s3) && ({
                            ||| self.4.err(s3, e@)
                            ||| exists|w4: R, s4: Seq<char>|
                                #[trigger] self.4.ok(s3, w4, s4) && ({
                                ||| self.5.err(s4, e@)
                                ||| exists|w5: S, s5: Seq<char>|
                                    #[trigger] self.5.ok(s4, w5, s5) && ({
                                    ||| self.6.err(s5, e@)
                                    ||| exists|w6: T, s6: Seq<char>|
                                        #[trigger] self.6.ok(s5, w6, s6) && ({
                                        self.7.err(s6, e@)
                                        })
                                    })
                                })
                            })
                    });
                    assert({
                        ||| self.2.err(r1@, e@)
                        ||| exists|w2: P, s2: Seq<char>|
                            #[trigger] self.2.ok(r1@, w2, s2) && ({
                            ||| self.3.err(s2, e@)
                            ||| exists|w3: Q, s3: Seq<char>|
                                #[trigger] self.3.ok(s2, w3, s3) && ({
                                ||| self.4.err(s3, e@)
                                ||| exists|w4: R, s4: Seq<char>|
                                    #[trigger] self.4.ok(s3, w4, s4) && ({
                                    ||| self.5.err(s4, e@)
                                    ||| exists|w5: S, s5: Seq<char>|
                                        #[trigger] self.5.ok(s4, w5, s5) && ({
                                        ||| self.6.err(s5, e@)
                                        ||| exists|w6: T, s6: Seq<char>|
                                            #[trigger] self.6.ok(s5, w6, s6) && ({
                                            self.7.err(s6, e@)
                                            })
                                        })
                                    })
                                })
                            })
                    });
                    assert({
                        ||| self.1.err(r0@, e@)
                        ||| exists|w1: O, s1: Seq<char>|
                            #[trigger] self.1.ok(r0@, w1, s1) && ({
                            ||| self.2.err(s1, e@)
                            ||| exists|w2: P, s2: Seq<char>|
                                #[trigger] self.2.ok(s1, w2, s2) && ({
                                ||| self.3.err(s2, e@)
                                ||| exists|w3: Q, s3: Seq<char>|
                                    #[trigger] self.3.ok(s2, w3, s3) && ({
                                    ||| self.4.err(s3, e@)
                                    ||| exists|w4: R, s4: Seq<char>|
                                        #[trigger] self.4.ok(s3, w4, s4) && ({
                                        ||| self.5.err(s4, e@)
                                        ||| exists|w5: S, s5: Seq<char>|
                                            #[trigger] self.5.ok(s4, w5, s5) && ({
                                            ||| self.6.err(s5, e@)
                                            ||| exists|w6: T, s6: Seq<char>|
                                                #[trigger] self.6.ok(s5, w6, s6) && ({
                                                self.7.err(s6, e@)
                                                })
                                            })
                                        })
                                    })
                                })
                            })
                    });
                    assert({
                        ||| self.0.err(input@, e@)
                        ||| exists|w0: N, s0: Seq<char>|
                            #[trigger] self.0.ok(input@, w0, s0) && ({
                            ||| self.1.err(s0, e@)
                            ||| exists|w1: O, s1: Seq<char>|
                                #[trigger] self.1.ok(s0, w1, s1) && ({
                                ||| self.2.err(s1, e@)
                                ||| exists|w2: P, s2: Seq<char>|
                                    #[trigger] self.2.ok(s1, w2, s2) && ({
                                    ||| self.3.err(s2, e@)
                                    ||| exists|w3: Q, s3: Seq<char>|
                                        #[trigger] self.3.ok(s2, w3, s3) && ({
                                        ||| self.4.err(s3, e@)
                                        ||| exists|w4: R, s4: Seq<char>|
                                            #[trigger] self.4.ok(s3, w4, s4) && ({
                                            ||| self.5.err(s4, e@)
                                            ||| exists|w5: S, s5: Seq<char>|
                                                #[trigger] self.5.ok(s4, w5, s5) && ({
                                                ||| self.6.err(s5, e@)
                                                ||| exists|w6: T, s6: Seq<char>|
                                                    #[trigger] self.6.ok(s5, w6, s6) && ({
                                                    self.7.err(s6, e@)
                                                    })
                                                })
                                            })
                                        })
                                    })
                                })
                            })
                    });
                }
                return Err(e);
            },
        };
        let out = (v0, v1, v2, v3, v4, v5, v6, v7);
        proof {
            assert(out.0 == v0);
            assert(out.1 == v1);
            assert(out.2 == v2);
            assert(out.3 == v3);
            assert(out.4 == v4);
            assert(out.5 == v5);
            assert(out.6 == v6);
            assert(out.7 == v7);
            lemma_remainder_trans(input@, r0@, r1@);
            lemma_remainder_trans(input@, r1@, r2@);
            lemma_remainder_trans(input@, r2@, r3@);
            lemma_remainder_trans(input@, r3@, r4@);
            lemma_remainder_trans(input@, r4@, r5@);
            lemma_remainder_trans(input@, r5@, r6@);
            lemma_remainder_trans(input@, r6@, r7@);
            assert({
                self.7.ok(r6@, out.7, r7@)
            });
            assert({
                exists|s6: Seq<char>|
                    #[trigger] self.6.ok(r5@, out.6, s6) && ({
                    self.7.ok(s6, out.7, r7@)
                    })
            });
            assert({
                exists|s5: Seq<char>|
                    #[trigger] self.5.ok(r4@, out.5, s5) && ({
                    exists|s6: Seq<char>|
                        #[trigger] self.6.ok(s5, out.6, s6) && ({
                        self.7.ok(s6, out.7, r7@)
                        })
                    })
            });
            assert({
                exists|s4: Seq<char>|
                    #[trigger] self.4.ok(r3@, out.4, s4) && ({
                    exists|s5: Seq<char>|
                        #[trigger] self.5.ok(s4, out.5, s5) && ({
                        exists|s6: Seq<char>|
                            #[trigger] self.6.ok(s5, out.6, s6) && ({
                            self.7.ok(s6, out.7, r7@)
                            })
                        })
                    })
            });
            assert({
                exists|s3: Seq<char>|
                    #[trigger] self.3.ok(r2@, out.3, s3) && ({
                    exists|s4: Seq<char>|
                        #[trigger] self.4.ok(s3, out.4, s4) && ({
                        exists|s5: Seq<char>|
                            #[trigger] self.5.ok(s4, out.5, s5) && ({
                            exists|s6: Seq<char>|
                                #[trigger] self.6.ok(s5, out.6, s6) && ({
                                self.7.ok(s6, out.7, r7@)
                                })
                            })
                        })
                    })
            });
            assert({
                exists|s2: Seq<char>|
                    #[trigger] self.2.ok(r1@, out.2, s2) && ({
                    exists|s3: Seq<char>|
                        #[trigger] self.3.ok(s2, out.3, s3) && ({
                        exists|s4: Seq<char>|
                            #[trigger] self.4.ok(s3, out.4, s4) && ({
                            exists|s5: Seq<char>|
                                #[trigger] self.5.ok(s4, out.5, s5) && ({
                                exists|s6: Seq<char>|
                                    #[trigger] self.6.ok(s5, out.6, s6) && ({
                                    self.7.ok(s6, out.7, r7@)
                                    })
                                })
                            })
                        })
                    })
            });
            assert({
                exists|s1: Seq<char>|
                    #[trigger] self.1.ok(r0@, out.1, s1) && ({
                    exists|s2: Seq<char>|
                        #[trigger] self.2.ok(s1, out.2, s2) && ({
                        exists|s3: Seq<char>|
                            #[trigger] self.3.ok(s2, out.3, s3) && ({
                            exists|s4: Seq<char>|
                                #[trigger] self.4.ok(s3, out.4, s4) && ({
                                exists|s5: Seq<char>|
                                    #[trigger] self.5.ok(s4, out.5, s5) && ({
                                    exists|s6: Seq<char>|
                                        #[trigger] self.6.ok(s5, out.6, s6) && ({
                                        self.7.ok(s6, out.7, r7@)
                                        })
                                    })
                                })
                            })
                        })
                    })
            });
            assert({
                exists|s0: Seq<char>|
                    #[trigger] self.0.ok(input@, out.0, s0) && ({
                    exists|s1: Seq<char>|
                        #[trigger] self.1.ok(s0, out.1, s1) && ({
                        exists|s2: Seq<char>|
                            #[trigger] self.2.ok(s1, out.2, s2) && ({
                            exists|s3: Seq<char>|
                                #[trigger] self.3.ok(s2, out.3, s3) && ({
                                exists|s4: Seq<char>|
                                    #[trigger] self.4.ok(s3, out.4, s4) && ({
                                    exists|s5: Seq<char>|
                                        #[trigger] self.5.ok(s4, out.5, s5) && ({
                                        exists|s6: Seq<char>|
                                            #[trigger] self.6.ok(s5, out.6, s6) && ({
                                            self.7.ok(s6, out.7, r7@)
                                            })
                                        })
                                    })
                                })
                            })
                        })
                    })
            });
        }
        Ok((out, r7))
    }
}

/// A tuple of eight parsers is itself a parser: its components run as a
/// series.
impl<'a, N, O, P, Q, R, S, T, U, A: Parser<'a, N>, B: Parser<'a, O>, C: Parser<'a, P>, D: Parser<'a, Q>, E: Parser<'a, R>, F: Parser<'a, S>, G: Parser<'a, T>, H: Parser<'a, U>> Parser<'a, (N, O, P, Q, R, S, T, U)> for (A, B, C, D, E, F, G, H) {
    open spec fn wf(&self) -> bool {
        self.series_wf()
    }

    open spec fn ok(&self, input: Seq<char>, out: (N, O, P, Q, R, S, T, U), rem: Seq<char>) -> bool {
        self.series_ok(input, out, rem)
    }

    open spec fn err(&self, input: Seq<char>, e: SpecError) -> bool {
        self.series_err(input, e)
    }

    fn parse(&self, input: &'a str) -> (r: Output<'a, (N, O, P, Q, R, S, T, U)>) {
        self.parse_series(input)
    }
}

/// A fixed group of nine parsers run as a series.
impl<'a, N, O, P, Q, R, S, T, U, V, A: Parser<'a, N>, B: Parser<'a, O>, C: Parser<'a, P>, D: Parser<'a, Q>, E: Parser<'a, R>, F: Parser<'a, S>, G: Parser<'a, T>, H: Parser<'a, U>, I: Parser<'a, V>> Series<'a, (N, O, P, Q, R, S, T, U, V)> for (A, B, C, D, E, F, G, H, I) {
    open spec fn series_wf(&self) -> bool {
        &&& self.0.wf()
        &&& self.1.wf()
        &&& self.2.wf()
        &&& self.3.wf()
        &&& self.4.wf()
        &&& self.5.wf()
        &&& self.6.wf()
        &&& self.7.wf()
        &&& self.8.wf()
    }

    open spec fn series_ok(&self, input: Seq<char>, out: (N, O, P, Q, R, S, T, U, V), rem: Seq<char>) -> bool {
        exists|s0: Seq<char>|
            #[trigger] self.0.ok(input, out.0, s0) && ({
            exists|s1: Seq<char>|
                #[trigger] self.1.ok(s0, out.1, s1) && ({
                exists|s2: Seq<char>|
                    #[trigger] self.2.ok(s1, out.2, s2) && ({
                    exists|s3: Seq<char>|
                        #[trigger] self.3.ok(s2, out.3, s3) && ({
                        exists|s4: Seq<char>|
                            #[trigger] self.4.ok(s3, out.4, s4) && ({
                            exists|s5: Seq<char>|
                                #[trigger] self.5.ok(s4, out.5, s5) && ({
                                exists|s6: Seq<char>|
                                    #[trigger] self.6.ok(s5, out.6, s6) && ({
                                    exists|s7: Seq<char>|
                                        #[trigger] self.7.ok(s6, out.7, s7) && ({
                                        self.8.ok(s7, out.8, rem)
                                        })
                                    })
                                })
                            })
                        })
                    })
                })
            })
    }

    open spec fn series_err(&self, input: Seq<char>, e: SpecError) -> bool {
        ||| self.0.err(input, e)
        ||| exists|w0: N, s0: Seq<char>|
            #[trigger] self.0.ok(input, w0, s0) && ({
            ||| self.1.err(s0, e)
            ||| exists|w1: O, s1: Seq<char>|
                #[trigger] self.1.ok(s0, w1, s1) && ({
                ||| self.2.err(s1, e)
                ||| exists|w2: P, s2: Seq<char>|
                    #[trigger] self.2.ok(s1, w2, s2) && ({
                    ||| self.3.err(s2, e)
                    ||| exists|w3: Q, s3: Seq<char>|
                        #[trigger] self.3.ok(s2, w3, s3) && ({
                        ||| self.4.err(s3, e)
                        ||| exists|w4: R, s4: Seq<char>|
                            #[trigger] self.4.ok(s3, w4, s4) && ({
                            ||| self.5.err(s4, e)
                            ||| exists|w5: S, s5: Seq<char>|
                                #[trigger] self.5.ok(s4, w5, s5) && ({
                                ||| self.6.err(s5, e)
                                ||| exists|w6: T, s6: Seq<char>|
                                    #[trigger] self.6.ok(s5, w6, s6) && ({
                                    ||| self.7.err(s6, e)
                                    ||| exists|w7: U, s7: Seq<char>|
                                        #[trigger] self.7.ok(s6, w7, s7) && ({
                                        self.8.err(s7, e)
                                        })
                                    })
                                })
                            })
                        })
                    })
                })
            })
    }

    fn parse_series(&self, input: &'a str) -> (r: Output<'a, (N, O, P, Q, R, S, T, U, V)>) {
        let (v0, r0) = match self.0.parse(input) {
            Ok(x) => x,
            Err(e) => {
                return Err(e);
            },
        };
        let (v1, r1) = match self.1.parse(r0) {
            Ok(x) => x,
            Err(e) => {
                proof {
                    assert({
                        ||| self.0.err(input@, e@)
                        ||| exists|w0: N, s0: Seq<char>|
                            #[trigger] self.0.ok(input@, w0, s0) && ({
                            ||| self.1.err(s0, e@)
                            ||| exists|w1: O, s1: Seq<char>|
                                #[trigger] self.1.ok(s0, w1, s1) && ({
                                ||| self.2.err(s1, e@)
                                ||| exists|w2: P, s2: Seq<char>|
                                    #[trigger] self.2.ok(s1, w2, s2) && ({
                                    ||| self.3.err(s2, e@)
                                    ||| exists|w3: Q, s3: Seq<char>|
                                        #[trigger] self.3.ok(s2, w3, s3) && ({
                                        ||| self.4.err(s3, e@)
                                        ||| exists|w4: R, s4: Seq<char>|
                                            #[trigger] self.4.ok(s3, w4, s4) && ({
                                            ||| self.5.err(s4, e@)
                                            ||| exists|w5: S, s5: Seq<char>|
                                                #[trigger] self.5.ok(s4, w5, s5) && ({
                                                ||| self.6.err(s5, e@)
                                                ||| exists|w6: T, s6: Seq<char>|
                                                    #[trigger] self.6.ok(s5, w6, s6) && ({
                                                    ||| self.7.err(s6, e@)
                                                    ||| exists|w7: U, s7: Seq<char>|
                                                        #[trigger] self.7.ok(s6, w7, s7) && ({
                                                        self.8.err(s7, e@)
                                                        })
                                                    })
                                                })
                                            })
                                        })
                                    })
                                })
                            })
                    });
                }
                return Err(e);
            },
        };
        let (v2, r2) = match self.2.parse(r1) {
            Ok(x) => x,
            Err(e) => {
                proof {
                    assert({
                        ||| self.1.err(r0@, e@)
                        ||| exists|w1: O, s1: Seq<char>|
                            #[trigger] self.1.ok(r0@, w1, s1) && ({
                            ||| self.2.err(s1, e@)
                            ||| exists|w2: P, s2: Seq<char>|
                                #[trigger] self.2.ok(s1, w2, s2) && ({
                                ||| self.3.err(s2, e@)
                                ||| exists|w3: Q, s3: Seq<char>|
                                    #[trigger] self.3.ok(s2, w3, s3) && ({
                                    ||| self.4.err(s3, e@)
                                    ||| exists|w4: R, s4: Seq<char>|
                                        #[trigger] self.4.ok(s3, w4, s4) && ({
                                        ||| self.5.err(s4, e@)
                                        ||| exists|w5: S, s5: Seq<char>|
                                            #[trigger] self.5.ok(s4, w5, s5) && ({
                                            ||| self.6.err(s5, e@)
                                            ||| exists|w6: T, s6: Seq<char>|
                                                #[trigger] self.6.ok(s5, w6, s6) && ({
                                                ||| self.7.err(s6, e@)
                                                ||| exists|w7: U, s7: Seq<char>|
                                                    #[trigger] self.7.ok(s6, w7, s7) && ({
                                                    self.8.err(s7, e@)
                                                    })
                                                })
                                            })
                                        })
                                    })
                                })
                            })
                    });
                    assert({
                        ||| self.0.err(input@, e@)
                        ||| exists|w0: N, s0: Seq<char>|
                            #[trigger] self.0.ok(input@, w0, s0) && ({
                            ||| self.1.err(s0, e@)
                            ||| exists|w1: O, s1: Seq<char>|
                                #[trigger] self.1.ok(s0, w1, s1) && ({
                                ||| self.2.err(s1, e@)
                                ||| exists|w2: P, s2: Seq<char>|
                                    #[trigger] self.2.ok(s1, w2, s2) && ({
                                    ||| self.3.err(s2, e@)
                                    ||| exists|w3: Q, s3: Seq<char>|
                                        #[trigger] self.3.ok(s2, w3, s3) && ({
                                        ||| self.4.err(s3, e@)
                                        ||| exists|w4: R, s4: Seq<char>|
                                            #[trigger] self.4.ok(s3, w4, s4) && ({
                                            ||| self.5.err(s4, e@)
                                            ||| exists|w5: S, s5: Seq<char>|
                                                #[trigger] self.5.ok(s4, w5, s5) && ({
                                                ||| self.6.err(s5, e@)
                                                ||| exists|w6: T, s6: Seq<char>|
                                                    #[trigger] self.6.ok(s5, w6, s6) && ({
                                                    ||| self.7.err(s6, e@)
                                                    ||| exists|w7: U, s7: Seq<char>|
                                                        #[trigger] self.7.ok(s6, w7, s7) && ({
                                                        self.8.err(s7, e@)
                                                        })
                                                    })
                                                })
                                            })
                                        })
                                    })
                                })
                            })
                    });
                }
                return Err(e);
            },
        };
        let (v3, r3) = match self.3.parse(r2) {
            Ok(x) => x,
            Err(e) => {
                proof {
                    assert({
                        ||| self.2.err(r1@, e@)
                        ||| exists|w2: P, s2: Seq<char>|
                            #[trigger] self.2.ok(r1@, w2, s2) && ({
                            ||| self.3.err(s2, e@)
                            ||| exists|w3: Q, s3: Seq<char>|
                                #[trigger] self.3.ok(s2, w3, s3) && ({
                                ||| self.4.err(s3, e@)
                                ||| exists|w4: R, s4: Seq<char>|
                                    #[trigger] self.4.ok(s3, w4, s4) && ({
                                    ||| self.5.err(s4, e@)
                                    ||| exists|w5: S, s5: Seq<char>|
                                        #[trigger] self.5.ok(s4, w5, s5) && ({
                                        ||| self.6.err(s5, e@)
                                        ||| exists|w6: T, s6: Seq<char>|
                                            #[trigger] self.6.ok(s5, w6, s6) && ({
                                            ||| self.7.err(s6, e@)
                                            ||| exists|w7: U, s7: Seq<char>|
                                                #[trigger] self.7.ok(s6, w7, s7) && ({
                                                self.8.err(s7, e@)
                                                })
                                            })
                                        })
                                    })
                                })
                            })
                    });
                    assert({
                        ||| self.1.err(r0@, e@)
                        ||| exists|w1: O, s1: Seq<char>|
                            #[trigger] self.1.ok(r0@, w1, s1) && ({
                            ||| self.2.err(s1, e@)
                            ||| exists|w2: P, s2: Seq<char>|
                                #[trigger] self.2.ok(s1, w2, s2) && ({
                                ||| self.3.err(s2, e@)
                                ||| exists|w3: Q, s3: Seq<char>|
                                    #[trigger] self.3.ok(s2, w3, s3) && ({
                                    ||| self.4.err(s3, e@)
                                    ||| exists|w4: R, s4: Seq<char>|
                                        #[trigger] self.4.ok(s3, w4, s4) && ({
                                        ||| self.5.err(s4, e@)
                                        ||| exists|w5: S, s5: Seq<char>|
                                            #[trigger] self.5.ok(s4, w5, s5) && ({
                                            ||| self.6.err(s5, e@)
                                            ||| exists|w6: T, s6: Seq<char>|
                                                #[trigger] self.6.ok(s5, w6, s6) && ({
                                                ||| self.7.err(s6, e@)
                                                ||| exists|w7: U, s7: Seq<char>|
                                                    #[trigger] self.7.ok(s6, w7, s7) && ({
                                                    self.8.err(s7, e@)
                                                    })
                                                })
                                            })
                                        })
                                    })
                                })
                            })
                    });
                    assert({
                        ||| self.0.err(input@, e@)
                        ||| exists|w0: N, s0: Seq<char>|
                            #[trigger] self.0.ok(input@, w0, s0) && ({
                            ||| self.1.err(s0, e@)
                            ||| exists|w1: O, s1: Seq<char>|
                                #[trigger] self.1.ok(s0, w1, s1) && ({
                                ||| self.2.err(s1, e@)
                                ||| exists|w2: P, s2: Seq<char>|
                                    #[trigger] self.2.ok(s1, w2, s2) && ({
                                    ||| self.3.err(s2, e@)
                                    ||| exists|w3: Q, s3: Seq<char>|
                                        #[trigger] self.3.ok(s2, w3, s3) && ({
                                        ||| self.4.err(s3, e@)
                                        ||| exists|w4: R, s4: Seq<char>|
                                            #[trigger] self.4.ok(s3, w4, s4) && ({
                                            ||| self.5.err(s4, e@)
                                            ||| exists|w5: S, s5: Seq<char>|
                                                #[trigger] self.5.ok(s4, w5, s5) && ({
                                                ||| self.6.err(s5, e@)
                                                ||| exists|w6: T, s6: Seq<char>|
                                                    #[trigger] self.6.ok(s5, w6, s6) && ({
                                                    ||| self.7.err(s6, e@)
                                                    ||| exists|w7: U, s7: Seq<char>|
                                                        #[trigger] self.7.ok(s6, w7, s7) && ({
                                                        self.8.err(s7, e@)
                                                        })
                                                    })
                                                })
                                            })
                                        })
                                    })
                                })
                            })
                    });
                }
                return Err(e);
            },
        };
        let (v4, r4) = match self.4.parse(r3) {
            Ok(x) => x,
            Err(e) => {
                proof {
                    assert({
                        ||| self.3.err(r2@, e@)
                        ||| exists|w3: Q, s3: Seq<char>|
                            #[trigger] self.3.ok(r2@, w3, s3) && ({
                            ||| self.4.err(s3, e@)
                            ||| exists|w4: R, s4: Seq<char>|
                                #[trigger] self.4.ok(s3, w4, s4) && ({
                                ||| self.5.err(s4, e@)
                                ||| exists|w5: S, s5: Seq<char>|
                                    #[trigger] self.5.ok(s4, w5, s5) && ({
                                    ||| self.6.err(s5, e@)
                                    ||| exists|w6: T, s6: Seq<char>|
                                        #[trigger] self.6.ok(s5, w6, s6) && ({
                                        ||| self.7.err(s6, e@)
                                        ||| exists|w7: U, s7: Seq<char>|
                                            #[trigger] self.7.ok(s6, w7, s7) && ({
                                            self.8.err(s7, e@)
                                            })
                                        })
                                    })
                                })
                            })
                    });
                    assert({
                        ||| self.2.err(r1@, e@)
                        ||| exists|w2: P, s2: Seq<char>|
                            #[trigger] self.2.ok(r1@, w2, s2) && ({
                            ||| self.3.err(s2, e@)
                            ||| exists|w3: Q, s3: Seq<char>|
                                #[trigger] self.3.ok(s2, w3, s3) && ({
                                ||| self.4.err(s3, e@)
                                ||| exists|w4: R, s4: Seq<char>|
                                    #[trigger] self.4.ok(s3, w4, s4) && ({
                                    ||| self.5.err(s4, e@)
                                    ||| exists|w5: S, s5: Seq<char>|
                                        #[trigger] self.5.ok(s4, w5, s5) && ({
                                        ||| self.6.err(s5, e@)
                                        ||| exists|w6: T, s6: Seq<char>|
                                            #[trigger] self.6.ok(s5, w6, s6) && ({
                                            ||| self.7.err(s6, e@)
                                            ||| exists|w7: U, s7: Seq<char>|
                                                #[trigger] self.7.ok(s6, w7, s7) && ({
                                                self.8.err(s7, e@)
                                                })
                                            })
                                        })
                                    })
                                })
                            })
                    });
                    assert({
                        ||| self.1.err(r0@, e@)
                        ||| exists|w1: O, s1: Seq<char>|
                            #[trigger] self.1.ok(r0@, w1, s1) && ({
                            ||| self.2.err(s1, e@)
                            ||| exists|w2: P, s2: Seq<char>|
                                #[trigger] self.2.ok(s1, w2, s2) && ({
                                ||| self.3.err(s2, e@)
                                ||| exists|w3: Q, s3: Seq<char>|
                                    #[trigger] self.3.ok(s2, w3, s3) && ({
                                    ||| self.4.err(s3, e@)
                                    ||| exists|w4: R, s4: Seq<char>|
                                        #[trigger] self.4.ok(s3, w4, s4) && ({
                                        ||| self.5.err(s4, e@)
                                        ||| exists|w5: S, s5: Seq<char>|
                                            #[trigger] self.5.ok(s4, w5, s5) && ({
                                            ||| self.6.err(s5, e@)
                                            ||| exists|w6: T, s6: Seq<char>|
                                                #[trigger] self.6.ok(s5, w6, s6) && ({
                                                ||| self.7.err(s6, e@)
                                                ||| exists|w7: U, s7: Seq<char>|
                                                    #[trigger] self.7.ok(s6, w7, s7) && ({
                                                    self.8.err(s7, e@)
                                                    })
                                                })
                                            })
                                        })
                                    })
                                })
                            })
                    });
                    assert({
                        ||| self.0.err(input@, e@)
                        ||| exists|w0: N, s0: Seq<char>|
                            #[trigger] self.0.ok(input@, w0, s0) && ({
                            ||| self.1.err(s0, e@)
                            ||| exists|w1: O, s1: Seq<char>|
                                #[trigger] self.1.ok(s0, w1, s1) && ({
                                ||| self.2.err(s1, e@)
                                ||| exists|w2: P, s2: Seq<char>|
                                    #[trigger] self.2.ok(s1, w2, s2) && ({
                                    ||| self.3.err(s2, e@)
                                    ||| exists|w3: Q, s3: Seq<char>|
                                        #[trigger] self.3.ok(s2, w3, s3) && ({
                                        ||| self.4.err(s3, e@)
                                        ||| exists|w4: R, s4: Seq<char>|
                                            #[trigger] self.4.ok(s3, w4, s4) && ({
                                            ||| self.5.err(s4, e@)
                                            ||| exists|w5: S, s5: Seq<char>|
                                                #[trigger] self.5.ok(s4, w5, s5) && ({
                                                ||| self.6.err(s5, e@)
                                                ||| exists|w6: T, s6: Seq<char>|
                                                    #[trigger] self.6.ok(s5, w6, s6) && ({
                                                    ||| self.7.err(s6, e@)
                                                    ||| exists|w7: U, s7: Seq<char>|
                                                        #[trigger] self.7.ok(s6, w7, s7) && ({
                                                        self.8.err(s7, e@)
                                                        })
                                                    })
                                                })
                                            })
                                        })
                                    })
                                })
                            })
                    });
                }
                return Err(e);
            },
        };
        let (v5, r5) = match self.5.parse(r4) {
            Ok(x) => x,
            Err(e) => {
                proof {
                    assert({
                        ||| self.4.err(r3@, e@)
                        ||| exists|w4: R, s4: Seq<char>|
                            #[trigger] self.4.ok(r3@, w4, s4) && ({
                            ||| self.5.err(s4, e@)
                            ||| exists|w5: S, s5: Seq<char>|
                                #[trigger] self.5.ok(s4, w5, s5) && ({
                                ||| self.6.err(s5, e@)
                                ||| exists|w6: T, s6: Seq<char>|
                                    #[trigger] self.6.ok(s5, w6, s6) && ({
                                    ||| self.7.err(s6, e@)
                                    ||| exists|w7: U, s7: Seq<char>|
                                        #[trigger] self.7.ok(s6, w7, s7) && ({
                                        self.8.err(s7, e@)
                                        })
                                    })
                                })
                            })
                    });
                    assert({
                        ||| self.3.err(r2@, e@)
                        ||| exists|w3: Q, s3: Seq<char>|
                            #[trigger] self.3.ok(r2@, w3, s3) && ({
                            ||| self.4.err(s3, e@)
                            ||| exists|w4: R, s4: Seq<char>|
                                #[trigger] self.4.ok(s3, w4, s4) && ({
                                ||| self.5.err(s4, e@)
                                ||| exists|w5: S, s5: Seq<char>|
                                    #[trigger] self.5.ok(s4, w5, s5) && ({
                                    ||| self.6.err(s5, e@)
                                    ||| exists|w6: T, s6: Seq<char>|
                                        #[trigger] self.6.ok(s5, w6, s6) && ({
                                        ||| self.7.err(s6, e@)
                                        ||| exists|w7: U, s7: Seq<char>|
                                            #[trigger] self.7.ok(s6, w7, s7) && ({
                                            self.8.err(s7, e@)
                                            })
                                        })
                                    })
                                })
                            })
                    });
                    assert({
                        ||| self.2.err(r1@, e@)
                        ||| exists|w2: P, s2: Seq<char>|
                            #[trigger] self.2.ok(r1@, w2, s2) && ({
                            ||| self.3.err(s2, e@)
                            ||| exists|w3: Q, s3: Seq<char>|
                                #[trigger] self.3.ok(s2, w3, s3) && ({
                                ||| self.4.err(s3, e@)
                                ||| exists|w4: R, s4: Seq<char>|
                                    #[trigger] self.4.ok(s3, w4, s4) && ({
                                    ||| self.5.err(s4, e@)
                                    ||| exists|w5: S, s5: Seq<char>|
                                        #[trigger] self.5.ok(s4, w5, s5) && ({
                                        ||| self.6.err(s5, e@)
                                        ||| exists|w6: T, s6: Seq<char>|
                                            #[trigger] self.6.ok(s5, w6, s6) && ({
                                            ||| self.7.err(s6, e@)
                                            ||| exists|w7: U, s7: Seq<char>|
                                                #[trigger] self.7.ok(s6, w7, s7) && ({
                                                self.8.err(s7, e@)
                                                })
                                            })
                                        })
                                    })
                                })
                            })
                    });
                    assert({
                        ||| self.1.err(r0@, e@)
                        ||| exists|w1: O, s1: Seq<char>|
                            #[trigger] self.1.ok(r0@, w1, s1) && ({
                            ||| self.2.err(s1, e@)
                            ||| exists|w2: P, s2: Seq<char>|
                                #[trigger] self.2.ok(s1, w2, s2) && ({
                                ||| self.3.err(s2, e@)
                                ||| exists|w3: Q, s3: Seq<char>|
                                    #[trigger] self.3.ok(s2, w3, s3) && ({
                                    ||| self.4.err(s3, e@)
                                    ||| exists|w4: R, s4: Seq<char>|
                                        #[trigger] self.4.ok(s3, w4, s4) && ({
                                        ||| self.5.err(s4, e@)
                                        ||| exists|w5: S, s5: Seq<char>|
                                            #[trigger] self.5.ok(s4, w5, s5) && ({
                                            ||| self.6.err(s5, e@)
                                            ||| exists|w6: T, s6: Seq<char>|
                                                #[trigger] self.6.ok(s5, w6, s6) && ({
                                                ||| self.7.err(s6, e@)
                                                ||| exists|w7: U, s7: Seq<char>|
                                                    #[trigger] self.7.ok(s6, w7, s7) && ({
                                                    self.8.err(s7, e@)
                                                    })
                                                })
                                            })
                                        })
                                    })
                                })
                            })
                    });
                    assert({
                        ||| self.0.err(input@, e@)
                        ||| exists|w0: N, s0: Seq<char>|
                            #[trigger] self.0.ok(input@, w0, s0) && ({
                            ||| self.1.err(s0, e@)
                            ||| exists|w1: O, s1: Seq<char>|
                                #[trigger] self.1.ok(s0, w1, s1) && ({
                                ||| self.2.err(s1, e@)
                                ||| exists|w2: P, s2: Seq<char>|
                                    #[trigger] self.2.ok(s1, w2, s2) && ({
                                    ||| self.3.err(s2, e@)
                                    ||| exists|w3: Q, s3: Seq<char>|
                                        #[trigger] self.3.ok(s2, w3, s3) && ({
                                        ||| self.4.err(s3, e@)
                                        ||| exists|w4: R, s4: Seq<char>|
                                            #[trigger] self.4.ok(s3, w4, s4) && ({
                                            ||| self.5.err(s4, e@)
                                            ||| exists|w5: S, s5: Seq<char>|
                                                #[trigger] self.5.ok(s4, w5, s5) && ({
                                                ||| self.6.err(s5, e@)
                                                ||| exists|w6: T, s6: Seq<char>|
                                                    #[trigger] self.6.ok(s5, w6, s6) && ({
                                                    ||| self.7.err(s6, e@)
                                                    ||| exists|w7: U, s7: Seq<char>|
                                                        #[trigger] self.7.ok(s6, w7, s7) && ({
                                                        self.8.err(s7, e@)
                                                        })
                                                    })
                                                })
                                            })
                                        })
                                    })
                                })
                            })
                    });
                }
                return Err(e);
            },
        };
        let (v6, r6) = match self.6.parse(r5) {
            Ok(x) => x,
            Err(e) => {
                proof {
                    assert({
                        ||| self.5.err(r4@, e@)
                        ||| exists|w5: S, s5: Seq<char>|
                            #[trigger] self.5.ok(r4@, w5, s5) && ({
                            ||| self.6.err(s5, e@)
                            ||| exists|w6: T, s6: Seq<char>|
                                #[trigger] self.6.ok(s5, w6, s6) && ({
                                ||| self.7.err(s6, e@)
                                ||| exists|w7: U, s7: Seq<char>|
                                    #[trigger] self.7.ok(s6, w7, s7) && ({
                                    self.8.err(s7, e@)
                                    })
                                })
                            })
                    });
                    assert({
                        ||| self.4.err(r3@, e@)
                        ||| exists|w4: R, s4: Seq<char>|
                            #[trigger] self.4.ok(r3@, w4, s4) && ({
                            ||| self.5.err(s4, e@)
                            ||| exists|w5: S, s5: Seq<char>|
                                #[trigger] self.5.ok(s4, w5, s5) && ({
                                ||| self.6.err(s5, e@)
                                ||| exists|w6: T, s6: Seq<char>|
                                    #[trigger] self.6.ok(s5, w6, s6) && ({
                                    ||| self.7.err(s6, e@)
                                    ||| exists|w7: U, s7: Seq<char>|
                                        #[trigger] self.7.ok(s6, w7, s7) && ({
                                        self.8.err(s7, e@)
                                        })
                                    })
                                })
                            })
                    });
                    assert({
                        ||| self.3.err(r2@, e@)
                        ||| exists|w3: Q, s3: Seq<char>|
                            #[trigger] self.3.ok(r2@, w3, s3) && ({
                            ||| self.4.err(s3, e@)
                            ||| exists|w4: R, s4: Seq<char>|
                                #[trigger] self.4.ok(s3, w4, s4) && ({
                                ||| self.5.err(s4, e@)
                                ||| exists|w5: S, s5: Seq<char>|
                                    #[trigger] self.5.ok(s4, w5, s5) && ({
                                    ||| self.6.err(s5, e@)
                                    ||| exists|w6: T, s6: Seq<char>|
                                        #[trigger] self.6.ok(s5, w6, s6) && ({
                                        ||| self.7.err(s6, e@)
                                        ||| exists|w7: U, s7: Seq<char>|
                                            #[trigger] self.7.ok(s6, w7, s7) && ({
                                            self.8.err(s7, e@)
                                            })
                                        })
                                    })
                                })
                            })
                    });
                    assert({
                        ||| self.2.err(r1@, e@)
                        ||| exists|w2: P, s2: Seq<char>|
                            #[trigger] self.2.ok(r1@, w2, s2) && ({
                            ||| self.3.err(s2, e@)
                            ||| exists|w3: Q, s3: Seq<char>|
                                #[trigger] self.3.ok(s2, w3, s3) && ({
                                ||| self.4.err(s3, e@)
                                ||| exists|w4: R, s4: Seq<char>|
                                    #[trigger] self.4.ok(s3, w4, s4) && ({
                                    ||| self.5.err(s4, e@)
                                    ||| exists|w5: S, s5: Seq<char>|
                                        #[trigger] self.5.ok(s4, w5, s5) && ({
                                        ||| self.6.err(s5, e@)
                                        ||| exists|w6: T, s6: Seq<char>|
                                            #[trigger] self.6.ok(s5, w6, s6) && ({
                                            ||| self.7.err(s6, e@)
                                            ||| exists|w7: U, s7: Seq<char>|
                                                #[trigger] self.7.ok(s6, w7, s7) && ({
                                                self.8.err(s7, e@)
                                                })
                                            })
                                        })
                                    })
                                })
                            })
                    });
                    assert({
                        ||| self.1.err(r0@, e@)
                        ||| exists|w1: O, s1: Seq<char>|
                            #[trigger] self.1.ok(r0@, w1, s1) && ({
                            ||| self.2.err(s1, e@)
                            ||| exists|w2: P, s2: Seq<char>|
                                #[trigger] self.2.ok(s1, w2, s2) && ({
                                ||| self.3.err(s2, e@)
                                ||| exists|w3: Q, s3: Seq<char>|
                                    #[trigger] self.3.ok(s2, w3, s3) && ({
                                    ||| self.4.err(s3, e@)
                                    ||| exists|w4: R, s4: Seq<char>|
                                        #[trigger] self.4.ok(s3, w4, s4) && ({
                                        ||| self.5.err(s4, e@)
                                        ||| exists|w5: S, s5: Seq<char>|
                                            #[trigger] self.5.ok(s4, w5, s5) && ({
                                            ||| self.6.err(s5, e@)
                                            ||| exists|w6: T, s6: Seq<char>|
                                                #[trigger] self.6.ok(s5, w6, s6) && ({
                                                ||| self.7.err(s6, e@)
                                                ||| exists|w7: U, s7: Seq<char>|
                                                    #[trigger] self.7.ok(s6, w7, s7) && ({
                                                    self.8.err(s7, e@)
                                                    })
                                                })
                                            })
                                        })
                                    })
                                })
                            })
                    });
                    assert({
                        ||| self.0.err(input@, e@)
                        ||| exists|w0: N, s0: Seq<char>|
                            #[trigger] self.0.ok(input@, w0, s0) && ({
                            ||| self.1.err(s0, e@)
                            ||| exists|w1: O, s1: Seq<char>|
                                #[trigger] self.1.ok(s0, w1, s1) && ({
                                ||| self.2.err(s1, e@)
                                ||| exists|w2: P, s2: Seq<char>|
                                    #[trigger] self.2.ok(s1, w2, s2) && ({
                                    ||| self.3.err(s2, e@)
                                    ||| exists|w3: Q, s3: Seq<char>|
                                        #[trigger] self.3.ok(s2, w3, s3) && ({
                                        ||| self.4.err(s3, e@)
                                        ||| exists|w4: R, s4: Seq<char>|
                                            #[trigger] self.4.ok(s3, w4, s4) && ({
                                            ||| self.5.err(s4, e@)
                                            ||| exists|w5: S, s5: Seq<char>|
                                                #[trigger] self.5.ok(s4, w5, s5) && ({
                                                ||| self.6.err(s5, e@)
                                                ||| exists|w6: T, s6: Seq<char>|
                                                    #[trigger] self.6.ok(s5, w6, s6) && ({
                                                    ||| self.7.err(s6, e@)
                                                    ||| exists|w7: U, s7: Seq<char>|
                                                        #[trigger] self.7.ok(s6, w7, s7) && ({
                                                        self.8.err(s7, e@)
                                                        })
                                                    })
                                                })
                                            })
                                        })
                                    })
                                })
                            })
                    });
                }
                return Err(e);
            },
        };
        let (v7, r7) = match self.7.parse(r6) {
            Ok(x) => x,
            Err(e) => {
                proof {
                    assert({
                        ||| self.6.err(r5@, e@)
                        ||| exists|w6: T, s6: Seq<char>|
                            #[trigger] self.6.ok(r5@, w6, s6) && ({
                            ||| self.7.err(s6, e@)
                            ||| exists|w7: U, s7: Seq<char>|
                                #[trigger] self.7.ok(s6, w7, s7) && ({
                                self.8.err(s7, e@)
                                })
                            })
                    });
                    assert({
                        ||| self.5.err(r4@, e@)
                        ||| exists|w5: S, s5: Seq<char>|
                            #[trigger] self.5.ok(r4@, w5, s5) && ({
                            ||| self.6.err(s5, e@)
                            ||| exists|w6: T, s6: Seq<char>|
                                #[trigger] self.6.ok(s5, w6, s6) && ({
                                ||| self.7.err(s6, e@)
                                ||| exists|w7: U, s7: Seq<char>|
                                    #[trigger] self.7.ok(s6, w7, s7) && ({
                                    self.8.err(s7, e@)
                                    })
                                })
                            })
                    });
                    assert({
                        ||| self.4.err(r3@, e@)
                        ||| exists|w4: R, s4: Seq<char>|
                            #[trigger] self.4.ok(r3@, w4, s4) && ({
                            ||| self.5.err(s4, e@)
                            ||| exists|w5: S, s5: Seq<char>|
                                #[trigger] self.5.ok(s4, w5, s5) && ({
                                ||| self.6.err(s5, e@)
                                ||| exists|w6: T, s6: Seq<char>|
                                    #[trigger] self.6.ok(s5, w6, s6) && ({
                                    ||| self.7.err(s6, e@)
                                    ||| exists|w7: U, s7: Seq<char>|
                                        #[trigger] self.7.ok(s6, w7, s7) && ({
                                        self.8.err(s7, e@)
                                        })
                                    })
                                })
                            })
                    });
                    assert({
                        ||| self.3.err(r2@, e@)
                        ||| exists|w3: Q, s3: Seq<char>|
                            #[trigger] self.3.ok(r2@, w3, s3) && ({
                            ||| self.4.err(s3, e@)
                            ||| exists|w4: R, s4: Seq<char>|
                                #[trigger] self.4.ok(s3, w4, s4) && ({
                                ||| self.5.err(s4, e@)
                                ||| exists|w5: S, s5: Seq<char>|
                                    #[trigger] self.5.ok(s4, w5, s5) && ({
                                    ||| self.6.err(s5, e@)
                                    ||| exists|w6: T, s6: Seq<char>|
                                        #[trigger] self.6.ok(s5, w6, s6) && ({
                                        ||| self.7.err(s6, e@)
                                        ||| exists|w7: U, s7: Seq<char>|
                                            #[trigger] self.7.ok(s6, w7, s7) && ({
                                            self.8.err(s7, e@)
                                            })
                                        })
                                    })
                                })
                            })
                    });
                    assert({
                        ||| self.2.err(r1@, e@)
                        ||| exists|w2: P, s2: Seq<char>|
                            #[trigger] self.2.ok(r1@, w2, s2) && ({
                            ||| self.3.err(s2, e@)
                            ||| exists|w3: Q, s3: Seq<char>|
                                #[trigger] self.3.ok(s2, w3, s3) && ({
                                ||| self.4.err(s3, e@)
                                ||| exists|w4: R, s4: Seq<char>|
                                    #[trigger] self.4.ok(s3, w4, s4) && ({
                                    ||| self.5.err(s4, e@)
                                    ||| exists|w5: S, s5: Seq<char>|
                                        #[trigger] self.5.ok(s4, w5, s5) && ({
                                        ||| self.6.err(s5, e@)
                                        ||| exists|w6: T, s6: Seq<char>|
                                            #[trigger] self.6.ok(s5, w6, s6) && ({
                                            ||| self.7.err(s6, e@)
                                            ||| exists|w7: U, s7: Seq<char>|
                                                #[trigger] self.7.ok(s6, w7, s7) && ({
                                                self.8.err(s7, e@)
                                                })
                                            })
                                        })
                                    })
                                })
                            })
                    });
                    assert({
                        ||| self.1.err(r0@, e@)
                        ||| exists|w1: O, s1: Seq<char>|
                            #[trigger] self.1.ok(r0@, w1, s1) && ({
                            ||| self.2.err(s1, e@)
                            ||| exists|w2: P, s2: Seq<char>|
                                #[trigger] self.2.ok(s1, w2, s2) && ({
                                ||| self.3.err(s2, e@)
                                ||| exists|w3: Q, s3: Seq<char>|
                                    #[trigger] self.3.ok(s2, w3, s3) && ({
                                    ||| self.4.err(s3, e@)
                                    ||| exists|w4: R, s4: Seq<char>|
                                        #[trigger] self.4.ok(s3, w4, s4) && ({
                                        ||| self.5.err(s4, e@)
                                        ||| exists|w5: S, s5: Seq<char>|
                                            #[trigger] self.5.ok(s4, w5, s5) && ({
                                            ||| self.6.err(s5, e@)
                                            ||| exists|w6: T, s6: Seq<char>|
                                                #[trigger] self.6.ok(s5, w6, s6) && ({
                                                ||| self.7.err(s6, e@)
                                                ||| exists|w7: U, s7: Seq<char>|
                                                    #[trigger] self.7.ok(s6, w7, s7) && ({
                                                    self.8.err(s7, e@)
                                                    })
                                                })
                                            })
                                        })
                                    })
                                })
                            })
                    });
                    assert({
                        ||| self.0.err(input@, e@)
                        ||| exists|w0: N, s0: Seq<char>|
                            #[trigger] self.0.ok(input@, w0, s0) && ({
                            ||| self.1.err(s0, e@)
                            ||| exists|w1: O, s1: Seq<char>|
                                #[trigger] self.1.ok(s0, w1, s1) && ({
                                ||| self.2.err(s1, e@)
                                ||| exists|w2: P, s2: Seq<char>|
                                    #[trigger] self.2.ok(s1, w2, s2) && ({
                                    ||| self.3.err(s2, e@)
                                    ||| exists|w3: Q, s3: Seq<char>|
                                        #[trigger] self.3.ok(s2, w3, s3) && ({
                                        ||| self.4.err(s3, e@)
                                        ||| exists|w4: R, s4: Seq<char>|
                                            #[trigger] self.4.ok(s3, w4, s4) && ({
                                            ||| self.5.err(s4, e@)
                                            ||| exists|w5: S, s5: Seq<char>|
                                                #[trigger] self.5.ok(s4, w5, s5) && ({
                                                ||| self.6.err(s5, e@)
                                                ||| exists|w6: T, s6: Seq<char>|
                                                    #[trigger] self.6.ok(s5, w6, s6) && ({
                                                    ||| self.7.err(s6, e@)
                                                    ||| exists|w7: U, s7: Seq<char>|
                                                        #[trigger] self.7.ok(s6, w7, s7) && ({
                                                        self.8.err(s7, e@)
                                                        })
                                                    })
                                                })
                                            })
                                        })
                                    })
                                })
                            })
                    });
                }
                return Err(e);
            },
        };
        let (v8, r8) = match self.8.parse(r7) {
            Ok(x) => x,
            Err(e) => {
                proof {
                    assert({
                        ||| self.7.err(r6@, e@)
                        ||| exists|w7: U, s7: Seq<char>|
                            #[trigger] self.7.ok(r6@, w7, s7) && ({
                            self.8.err(s7, e@)
                            })
                    });
                    assert({
                        ||| self.6.err(r5@, e@)
                        ||| exists|w6: T, s6: Seq<char>|
                            #[trigger] self.6.ok(r5@, w6, s6) && ({
                            ||| self.7.err(s6, e@)
                            ||| exists|w7: U, s7: Seq<char>|
                                #[trigger] self.7.ok(s6, w7, s7) && ({
                                self.8.err(s7, e@)
                                })
                            })
                    });
                    assert({
                        ||| self.5.err(r4@, e@)
                        ||| exists|w5: S, s5: Seq<char>|
                            #[trigger] self.5.ok(r4@, w5, s5) && ({
                            ||| self.6.err(s5, e@)
                            ||| exists|w6: T, s6: Seq<char>|
                                #[trigger] self.6.ok(s5, w6, s6) && ({
                                ||| self.7.err(s6, e@)
                                ||| exists|w7: U, s7: Seq<char>|
                                    #[trigger] self.7.ok(s6, w7, s7) && ({
                                    self.8.err(s7, e@)
                                    })
                                })
                            })
                    });
                    assert({
                        ||| self.4.err(r3@, e@)
                        ||| exists|w4: R, s4: Seq<char>|
                            #[trigger] self.4.ok(r3@, w4, s4) && ({
                            ||| self.5.err(s4, e@)
                            ||| exists|w5: S, s5: Seq<char>|
                                #[trigger] self.5.ok(s4, w5, s5) && ({
                                ||| self.6.err(s5, e@)
                                ||| exists|w6: T, s6: Seq<char>|
                                    #[trigger] self.6.ok(s5, w6, s6) && ({
                                    ||| self.7.err(s6, e@)
                                    ||| exists|w7: U, s7: Seq<char>|
                                        #[trigger] self.7.ok(s6, w7, s7) && ({
                                        self.8.err(s7, e@)
                                        })
                                    })
                                })
                            })
                    });
                    assert({
                        ||| self.3.err(r2@, e@)
                        ||| exists|w3: Q, s3: Seq<char>|
                            #[trigger] self.3.ok(r2@, w3, s3) && ({
                            ||| self.4.err(s3, e@)
                            ||| exists|w4: R, s4: Seq<char>|
                                #[trigger] self.4.ok(s3, w4, s4) && ({
                                ||| self.5.err(s4, e@)
                                ||| exists|w5: S, s5: Seq<char>|
                                    #[trigger] self.5.ok(s4, w5, s5) && ({
                                    ||| self.6.err(s5, e@)
                                    ||| exists|w6: T, s6: Seq<char>|
                                        #[trigger] self.6.ok(s5, w6, s6) && ({
                                        ||| self.7.err(s6, e@)
                                        ||| exists|w7: U, s7: Seq<char>|
                                            #[trigger] self.7.ok(s6, w7, s7) && ({
                                            self.8.err(s7, e@)
                                            })
                                        })
                                    })
                                })
                            })
                    });
                    assert({
                        ||| self.2.err(r1@, e@)
                        ||| exists|w2: P, s2: Seq<char>|
                            #[trigger] self.2.ok(r1@, w2, s2) && ({
                            ||| self.3.err(s2, e@)
                            ||| exists|w3: Q, s3: Seq<char>|
                                #[trigger] self.3.ok(s2, w3, s3) && ({
                                ||| self.4.err(s3, e@)
                                ||| exists|w4: R, s4: Seq<char>|
                                    #[trigger] self.4.ok(s3, w4, s4) && ({
                                    ||| self.5.err(s4, e@)
                                    ||| exists|w5: S, s5: Seq<char>|
                                        #[trigger] self.5.ok(s4, w5, s5) && ({
                                        ||| self.6.err(s5, e@)
                                        ||| exists|w6: T, s6: Seq<char>|
                                            #[trigger] self.6.ok(s5, w6, s6) && ({
                                            ||| self.7.err(s6, e@)
                                            ||| exists|w7: U, s7: Seq<char>|
                                                #[trigger] self.7.ok(s6, w7, s7) && ({
                                                self.8.err(s7, e@)
                                                })
                                            })
                                        })
                                    })
                                })
                            })
                    });
                    assert({
                        ||| self.1.err(r0@, e@)
                        ||| exists|w1: O, s1: Seq<char>|
                            #[trigger] self.1.ok(r0@, w1, s1) && ({
                            ||| self.2.err(s1, e@)
                            ||| exists|w2: P, s2: Seq<char>|
                                #[trigger] self.2.ok(s1, w2, s2) && ({
                                ||| self.3.err(s2, e@)
                                ||| exists|w3: Q, s3: Seq<char>|
                                    #[trigger] self.3.ok(s2, w3, s3) && ({
                                    ||| self.4.err(s3, e@)
                                    ||| exists|w4: R, s4: Seq<char>|
                                        #[trigger] self.4.ok(s3, w4, s4) && ({
                                        ||| self.5.err(s4, e@)
                                        ||| exists|w5: S, s5: Seq<char>|
                                            #[trigger] self.5.ok(s4, w5, s5) && ({
                                            ||| self.6.err(s5, e@)
                                            ||| exists|w6: T, s6: Seq<char>|
                                                #[trigger] self.6.ok(s5, w6, s6) && ({
                                                ||| self.7.err(s6, e@)
                                                ||| exists|w7: U, s7: Seq<char>|
                                                    #[trigger] self.7.ok(s6, w7, s7) && ({
                                                    self.8.err(s7, e@)
                                                    })
                                                })
                                            })
                                        })
                                    })
                                })
                            })
                    });
                    assert({
                        ||| self.0.err(input@, e@)
                        ||| exists|w0: N, s0: Seq<char>|
                            #[trigger] self.0.ok(input@, w0, s0) && ({
                            ||| self.1.err(s0, e@)
                            ||| exists|w1: O, s1: Seq<char>|
                                #[trigger] self.1.ok(s0, w1, s1) && ({
                                ||| self.2.err(s1, e@)
                                ||| exists|w2: P, s2: Seq<char>|
                                    #[trigger] self.2.ok(s1, w2, s2) && ({
                                    ||| self.3.err(s2, e@)
                                    ||| exists|w3: Q, s3: Seq<char>|
                                        #[trigger] self.3.ok(s2, w3, s3) && ({
                                        ||| self.4.err(s3, e@)
                                        ||| exists|w4: R, s4: Seq<char>|
                                            #[trigger] self.4.ok(s3, w4, s4) && ({
                                            ||| self.5.err(s4, e@)
                                            ||| exists|w5: S, s5: Seq<char>|
                                                #[trigger] self.5.ok(s4, w5, s5) && ({
                                                ||| self.6.err(s5, e@)
                                                ||| exists|w6: T, s6: Seq<char>|
                                                    #[trigger] self.6.ok(s5, w6, s6) && ({
                                                    ||| self.7.err(s6, e@)
                                                    ||| exists|w7: U, s7: Seq<char>|
                                                        #[trigger] self.7.ok(s6, w7, s7) && ({
                                                        self.8.err(s7, e@)
                                                        })
                                                    })
                                                })
                                            })
                                        })
                                    })
                                })
                            })
                    });
                }
                return Err(e);
            },
        };
        let out = (v0, v1, v2, v3, v4, v5, v6, v7, v8);
        proof {
            assert(out.0 == v0);
            assert(out.1 == v1);
            assert(out.2 == v2);
            assert(out.3 == v3);
            assert(out.4 == v4);
            assert(out.5 == v5);
            assert(out.6 == v6);
            assert(out.7 == v7);
            assert(out.8 == v8);
            lemma_remainder_trans(input@, r0@, r1@);
            lemma_remainder_trans(input@, r1@, r2@);
            lemma_remainder_trans(input@, r2@, r3@);
            lemma_remainder_trans(input@, r3@, r4@);
            lemma_remainder_trans(input@, r4@, r5@);
            lemma_remainder_trans(input@, r5@, r6@);
            lemma_remainder_trans(input@, r6@, r7@);
            lemma_remainder_trans(input@, r7@, r8@);
            assert({
                self.8.ok(r7@, out.8, r8@)
            });
            assert({
                exists|s7: Seq<char>|
                    #[trigger] self.7.ok(r6@, out.7, s7) && ({
                    self.8.ok(s7, out.8, r8@)
                    })
            });
            assert({
                exists|s6: Seq<char>|
                    #[trigger] self.6.ok(r5@, out.6, s6) && ({
                    exists|s7: Seq<char>|
                        #[trigger] self.7.ok(s6, out.7, s7) && ({
                        self.8.ok(s7, out.8, r8@)
                        })
                    })
            });
            assert({
                exists|s5: Seq<char>|
                    #[trigger] self.5.ok(r4@, out.5, s5) && ({
                    exists|s6: Seq<char>|
                        #[trigger] self.6.ok(s5, out.6, s6) && ({
                        exists|s7: Seq<char>|
                            #[trigger] self.7.ok(s6, out.7, s7) && ({
                            self.8.ok(s7, out.8, r8@)
                            })
                        })
                    })
            });
            assert({
                exists|s4: Seq<char>|
                    #[trigger] self.4.ok(r3@, out.4, s4) && ({
                    exists|s5: Seq<char>|
                        #[trigger] self.5.ok(s4, out.5, s5) && ({
                        exists|s6: Seq<char>|
                            #[trigger] self.6.ok(s5, out.6, s6) && ({
                            exists|s7: Seq<char>|
                                #[trigger] self.7.ok(s6, out.7, s7) && ({
                                self.8.ok(s7, out.8, r8@)
                                })
                            })
                        })
                    })
            });
            assert({
                exists|s3: Seq<char>|
                    #[trigger] self.3.ok(r2@, out.3, s3) && ({
                    exists|s4: Seq<char>|
                        #[trigger] self.4.ok(s3, out.4, s4) && ({
                        exists|s5: Seq<char>|
                            #[trigger] self.5.ok(s4, out.5, s5) && ({
                            exists|s6: Seq<char>|
                                #[trigger] self.6.ok(s5, out.6, s6) && ({
                                exists|s7: Seq<char>|
                                    #[trigger] self.7.ok(s6, out.7, s7) && ({
                                    self.8.ok(s7, out.8, r8@)
                                    })
                                })
                            })
                        })
                    })
            });
            assert({
                exists|s2: Seq<char>|
                    #[trigger] self.2.ok(r1@, out.2, s2) && ({
                    exists|s3: Seq<char>|
                        #[trigger] self.3.ok(s2, out.3, s3) && ({
                        exists|s4: Seq<char>|
                            #[trigger] self.4.ok(s3, out.4, s4) && ({
                            exists|s5: Seq<char>|
                                #[trigger] self.5.ok(s4, out.5, s5) && ({
                                exists|s6: Seq<char>|
                                    #[trigger] self.6.ok(s5, out.6, s6) && ({
                                    exists|s7: Seq<char>|
                                        #[trigger] self.7.ok(s6, out.7, s7) && ({
                                        self.8.ok(s7, out.8, r8@)
                                        })
                                    })
                                })
                            })
                        })
                    })
            });
            assert({
                exists|s1: Seq<char>|
                    #[trigger] self.1.ok(r0@, out.1, s1) && ({
                    exists|s2: Seq<char>|
                        #[trigger] self.2.ok(s1, out.2, s2) && ({
                        exists|s3: Seq<char>|
                            #[trigger] self.3.ok(s2, out.3, s3) && ({
                            exists|s4: Seq<char>|
                                #[trigger] self.4.ok(s3, out.4, s4) && ({
                                exists|s5: Seq<char>|
                                    #[trigger] self.5.ok(s4, out.5, s5) && ({
                                    exists|s6: Seq<char>|
                                        #[trigger] self.6.ok(s5, out.6, s6) && ({
                                        exists|s7: Seq<char>|
                                            #[trigger] self.7.ok(s6, out.7, s7) && ({
                                            self.8.ok(s7, out.8, r8@)
                                            })
                                        })
                                    })
                                })
                            })
                        })
                    })
            });
            assert({
                exists|s0: Seq<char>|
                    #[trigger] self.0.ok(input@, out.0, s0) && ({
                    exists|s1: Seq<char>|
                        #[trigger] self.1.ok(s0, out.1, s1) && ({
                        exists|s2: Seq<char>|
                            #[trigger] self.2.ok(s1, out.2, s2) && ({
                            exists|s3: Seq<char>|
                                #[trigger] self.3.ok(s2, out.3, s3) && ({
                                exists|s4: Seq<char>|
                                    #[trigger] self.4.ok(s3, out.4, s4) && ({
                                    exists|s5: Seq<char>|
                                        #[trigger] self.5.ok(s4, out.5, s5) && ({
                                        exists|s6: Seq<char>|
                                            #[trigger] self.6.ok(s5, out.6, s6) && ({
                                            exists|s7: Seq<char>|
                                                #[trigger] self.7.ok(s6, out.7, s7) && ({
                                                self.8.ok(s7, out.8, r8@)
                                                })
                                            })
                                        })
                                    })
                                })
                            })
                        })
                    })
            });
        }
        Ok((out, r8))
    }
}

/// A tuple of nine parsers is itself a parser: its components run as a
/// series.
impl<'a, N, O, P, Q, R, S, T, U, V, A: Parser<'a, N>, B: Parser<'a, O>, C: Parser<'a, P>, D: Parser<'a, Q>, E: Parser<'a, R>, F: Parser<'a, S>, G: Parser<'a, T>, H: Parser<'a, U>, I: Parser<'a, V>> Parser<'a, (N, O, P, Q, R, S, T, U, V)> for (A, B, C, D, E, F, G, H, I) {
    open spec fn wf(&self) -> bool {
        self.series_wf()
    }

    open spec fn ok(&self, input: Seq<char>, out: (N, O, P, Q, R, S, T, U, V), rem: Seq<char>) -> bool {
        self.series_ok(input, out, rem)
    }

    open spec fn err(&self, input: Seq<char>, e: SpecError) -> bool {
        self.series_err(input, e)
    }

    fn parse(&self, input: &'a str) -> (r: Output<'a, (N, O, P, Q, R, S, T, U, V)>) {
        self.parse_series(input)
    }
}

/// A fixed group of ten parsers run as a series.
impl<'a, N, O, P, Q, R, S, T, U, V, W, A: Parser<'a, N>, B: Parser<'a, O>, C: Parser<'a, P>, D: Parser<'a, Q>, E: Parser<'a, R>, F: Parser<'a, S>, G: Parser<'a, T>, H: Parser<'a, U>, I: Parser<'a, V>, J: Parser<'a, W>> Series<'a, (N, O, P, Q, R, S, T, U, V, W)> for (A, B, C, D, E, F, G, H, I, J) {
    open spec fn series_wf(&self) -> bool {
        &&& self.0.wf()
        &&& self.1.wf()
        &&& self.2.wf()
        &&& self.3.wf()
        &&& self.4.wf()
        &&& self.5.wf()
        &&& self.6.wf()
        &&& self.7.wf()
        &&& self.8.wf()
        &&& self.9.wf()
    }

    open spec fn series_ok(&self, input: Seq<char>, out: (N, O, P, Q, R, S, T, U, V, W), rem: Seq<char>) -> bool {
        exists|s0: Seq<char>|
            #[trigger] self.0.ok(input, out.0, s0) && ({
            exists|s1: Seq<char>|
                #[trigger] self.1.ok(s0, out.1, s1) && ({
                exists|s2: Seq<char>|
                    #[trigger] self.2.ok(s1, out.2, s2) && ({
                    exists|s3: Seq<char>|
                        #[trigger] self.3.ok(s2, out.3, s3) && ({
                        exists|s4: Seq<char>|
                            #[trigger] self.4.ok(s3, out.4, s4) && ({
                            exists|s5: Seq<char>|
                                #[trigger] self.5.ok(s4, out.5, s5) && ({
                                exists|s6: Seq<char>|
                                    #[trigger] self.6.ok(s5, out.6, s6) && ({
                                    exists|s7: Seq<char>|
                                        #[trigger] self.7.ok(s6, out.7, s7) && ({
                                        exists|s8: Seq<char>|
                                            #[trigger] self.8.ok(s7, out.8, s8) && ({
                                            self.9.ok(s8, out.9, rem)
                                            })
                                        })
                                    })
                                })
                            })
                        })
                    })
                })
            })
    }

    open spec fn series_err(&self, input: Seq<char>, e: SpecError) -> bool {
        ||| self.0.err(input, e)
        ||| exists|w0: N, s0: Seq<char>|
            #[trigger] self.0.ok(input, w0, s0) && ({
            ||| self.1.err(s0, e)
            ||| exists|w1: O, s1: Seq<char>|
                #[trigger] self.1.ok(s0, w1, s1) && ({
                ||| self.2.err(s1, e)
                ||| exists|w2: P, s2: Seq<char>|
                    #[trigger] self.2.ok(s1, w2, s2) && ({
                    ||| self.3.err(s2, e)
                    ||| exists|w3: Q, s3: Seq<char>|
                        #[trigger] self.3.ok(s2, w3, s3) && ({
                        ||| self.4.err(s3, e)
                        ||| exists|w4: R, s4: Seq<char>|
                            #[trigger] self.4.ok(s3, w4, s4) && ({
                            ||| self.5.err(s4, e)
                            ||| exists|w5: S, s5: Seq<char>|
                                #[trigger] self.5.ok(s4, w5, s5) && ({
                                ||| self.6.err(s5, e)
                                ||| exists|w6: T, s6: Seq<char>|
                                    #[trigger] self.6.ok(s5, w6, s6) && ({
                                    ||| self.7.err(s6, e)
                                    ||| exists|w7: U, s7: Seq<char>|
                                        #[trigger] self.7.ok(s6, w7, s7) && ({
                                        ||| self.8.err(s7, e)
                                        ||| exists|w8: V, s8: Seq<char>|
                                            #[trigger] self.8.ok(s7, w8, s8) && ({
                                            self.9.err(s8, e)
                                            })
                                        })
                                    })
                                })
                            })
                        })
                    })
                })
            })
    }

    fn parse_series(&self, input: &'a str) -> (r: Output<'a, (N, O, P, Q, R, S, T, U, V, W)>) {
        let (v0, r0) = match self.0.parse(input) {
            Ok(x) => x,
            Err(e) => {
                return Err(e);
            },
        };
        let (v1, r1) = match self.1.parse(r0) {
            Ok(x) => x,
            Err(e) => {
                proof {
                    assert({
                        ||| self.0.err(input@, e@)
                        ||| exists|w0: N, s0: Seq<char>|
                            #[trigger] self.0.ok(input@, w0, s0) && ({
                            ||| self.1.err(s0, e@)
                            ||| exists|w1: O, s1: Seq<char>|
                                #[trigger] self.1.ok(s0, w1, s1) && ({
                                ||| self.2.err(s1, e@)
                                ||| exists|w2: P, s2: Seq<char>|
                                    #[trigger] self.2.ok(s1, w2, s2) && ({
                                    ||| self.3.err(s2, e@)
                                    ||| exists|w3: Q, s3: Seq<char>|
                                        #[trigger] self.3.ok(s2, w3, s3) && ({
                                        ||| self.4.err(s3, e@)
                                        ||| exists|w4: R, s4: Seq<char>|
                                            #[trigger] self.4.ok(s3, w4, s4) && ({
                                            ||| self.5.err(s4, e@)
                                            ||| exists|w5: S, s5: Seq<char>|
                                                #[trigger] self.5.ok(s4, w5, s5) && ({
                                                ||| self.6.err(s5, e@)
                                                ||| exists|w6: T, s6: Seq<char>|
                                                    #[trigger] self.6.ok(s5, w6, s6) && ({
                                                    ||| self.7.err(s6, e@)
                                                    ||| exists|w7: U, s7: Seq<char>|
                                                        #[trigger] self.7.ok(s6, w7, s7) && ({
                                                        ||| self.8.err(s7, e@)
                                                        ||| exists|w8: V, s8: Seq<char>|
                                                            #[trigger] self.8.ok(s7, w8, s8) && ({
                                                            self.9.err(s8, e@)
                                                            })
                                                        })
                                                    })
                                                })
                                            })
                                        })
                                    })
                                })
                            })
                    });
                }
                return Err(e);
            },
        };
        let (v2, r2) = match self.2.parse(r1) {
            Ok(x) => x,
            Err(e) => {
                proof {
                    assert({
                        ||| self.1.err(r0@, e@)
                        ||| exists|w1: O, s1: Seq<char>|
                            #[trigger] self.1.ok(r0@, w1, s1) && ({
                            ||| self.2.err(s1, e@)
                            ||| exists|w2: P, s2: Seq<char>|
                                #[trigger] self.2.ok(s1, w2, s2) && ({
                                ||| self.3.err(s2, e@)
                                ||| exists|w3: Q, s3: Seq<char>|
                                    #[trigger] self.3.ok(s2, w3, s3) && ({
                                    ||| self.4.err(s3, e@)
                                    ||| exists|w4: R, s4: Seq<char>|
                                        #[trigger] self.4.ok(s3, w4, s4) && ({
                                        ||| self.5.err(s4, e@)
                                        ||| exists|w5: S, s5: Seq<char>|
                                            #[trigger] self.5.ok(s4, w5, s5) && ({
                                            ||| self.6.err(s5, e@)
                                            ||| exists|w6: T, s6: Seq<char>|
                                                #[trigger] self.6.ok(s5, w6, s6) && ({
                                                ||| self.7.err(s6, e@)
                                                ||| exists|w7: U, s7: Seq<char>|
                                                    #[trigger] self.7.ok(s6, w7, s7) && ({
                                                    ||| self.8.err(s7, e@)
                                                    ||| exists|w8: V, s8: Seq<char>|
                                                        #[trigger] self.8.ok(s7, w8, s8) && ({
                                                        self.9.err(s8, e@)
                                                        })
                                                    })
                                                })
                                            })
                                        })
                                    })
                                })
                            })
                    });
                    assert({
                        ||| self.0.err(input@, e@)
                        ||| exists|w0: N, s0: Seq<char>|
                            #[trigger] self.0.ok(input@, w0, s0) && ({
                            ||| self.1.err(s0, e@)
                            ||| exists|w1: O, s1: Seq<char>|
                                #[trigger] self.1.ok(s0, w1, s1) && ({
                                ||| self.2.err(s1, e@)
                                ||| exists|w2: P, s2: Seq<char>|
                                    #[trigger] self.2.ok(s1, w2, s2) && ({
                                    ||| self.3.err(s2, e@)
                                    ||| exists|w3: Q, s3: Seq<char>|
                                        #[trigger] self.3.ok(s2, w3, s3) && ({
                                        ||| self.4.err(s3, e@)
                                        ||| exists|w4: R, s4: Seq<char>|
                                            #[trigger] self.4.ok(s3, w4, s4) && ({
                                            ||| self.5.err(s4, e@)
                                            ||| exists|w5: S, s5: Seq<char>|
                                                #[trigger] self.5.ok(s4, w5, s5) && ({
                                                ||| self.6.err(s5, e@)
                                                ||| exists|w6: T, s6: Seq<char>|
                                                    #[trigger] self.6.ok(s5, w6, s6) && ({
                                                    ||| self.7.err(s6, e@)
                                                    ||| exists|w7: U, s7: Seq<char>|
                                                        #[trigger] self.7.ok(s6, w7, s7) && ({
                                                        ||| self.8.err(s7, e@)
                                                        ||| exists|w8: V, s8: Seq<char>|
                                                            #[trigger] self.8.ok(s7, w8, s8) && ({
                                                            self.9.err(s8, e@)
                                                            })
                                                        })
                                                    })
                                                })
                                            })
                                        })
                                    })
                                })
                            })
                    });
                }
                return Err(e);
            },
        };
        let (v3, r3) = match self.3.parse(r2) {
            Ok(x) => x,
            Err(e) => {
                proof {
                    assert({
                        ||| self.2.err(r1@, e@)
                        ||| exists|w2: P, s2: Seq<char>|
                            #[trigger] self.2.ok(r1@, w2, s2) && ({
                            ||| self.3.err(s2, e@)
                            ||| exists|w3: Q, s3: Seq<char>|
                                #[trigger] self.3.ok(s2, w3, s3) && ({
                                ||| self.4.err(s3, e@)
                                ||| exists|w4: R, s4: Seq<char>|
                                    #[trigger] self.4.ok(s3, w4, s4) && ({
                                    ||| self.5.err(s4, e@)
                                    ||| exists|w5: S, s5: Seq<char>|
                                        #[trigger] self.5.ok(s4, w5, s5) && ({
                                        ||| self.6.err(s5, e@)
                                        ||| exists|w6: T, s6: Seq<char>|
                                            #[trigger] self.6.ok(s5, w6, s6) && ({
                                            ||| self.7.err(s6, e@)
                                            ||| exists|w7: U, s7: Seq<char>|
                                                #[trigger] self.7.ok(s6, w7, s7) && ({
                                                ||| self.8.err(s7, e@)
                                                ||| exists|w8: V, s8: Seq<char>|
                                                    #[trigger] self.8.ok(s7, w8, s8) && ({
                                                    self.9.err(s8, e@)
                                                    })
                                                })
                                            })
                                        })
                                    })
                                })
                            })
                    });
                    assert({
                        ||| self.1.err(r0@, e@)
                        ||| exists|w1: O, s1: Seq<char>|
                            #[trigger] self.1.ok(r0@, w1, s1) && ({
                            ||| self.2.err(s1, e@)
                            ||| exists|w2: P, s2: Seq<char>|
                                #[trigger] self.2.ok(s1, w2, s2) && ({
                                ||| self.3.err(s2, e@)
                                ||| exists|w3: Q, s3: Seq<char>|
                                    #[trigger] self.3.ok(s2, w3, s3) && ({
                                    ||| self.4.err(s3, e@)
                                    ||| exists|w4: R, s4: Seq<char>|
                                        #[trigger] self.4.ok(s3, w4, s4) && ({
                                        ||| self.5.err(s4, e@)
                                        ||| exists|w5: S, s5: Seq<char>|
                                            #[trigger] self.5.ok(s4, w5, s5) && ({
                                            ||| self.6.err(s5, e@)
                                            ||| exists|w6: T, s6: Seq<char>|
                                                #[trigger] self.6.ok(s5, w6, s6) && ({
                                                ||| self.7.err(s6, e@)
                                                ||| exists|w7: U, s7: Seq<char>|
                                                    #[trigger] self.7.ok(s6, w7, s7) && ({
                                                    ||| self.8.err(s7, e@)
                                                    ||| exists|w8: V, s8: Seq<char>|
                                                        #[trigger] self.8.ok(s7, w8, s8) && ({
                                                        self.9.err(s8, e@)
                                                        })
                                                    })
                                                })
                                            })
                                        })
                                    })
                                })
                            })
                    });
                    assert({
                        ||| self.0.err(input@, e@)
                        ||| exists|w0: N, s0: Seq<char>|
                            #[trigger] self.0.ok(input@, w0, s0) && ({
                            ||| self.1.err(s0, e@)
                            ||| exists|w1: O, s1: Seq<char>|
                                #[trigger] self.1.ok(s0, w1, s1) && ({
                                ||| self.2.err(s1, e@)
                                ||| exists|w2: P, s2: Seq<char>|
                                    #[trigger] self.2.ok(s1, w2, s2) && ({
                                    ||| self.3.err(s2, e@)
                                    ||| exists|w3: Q, s3: Seq<char>|
                                        #[trigger] self.3.ok(s2, w3, s3) && ({
                                        ||| self.4.err(s3, e@)
                                        ||| exists|w4: R, s4: Seq<char>|
                                            #[trigger] self.4.ok(s3, w4, s4) && ({
                                            ||| self.5.err(s4, e@)
                                            ||| exists|w5: S, s5: Seq<char>|
                                                #[trigger] self.5.ok(s4, w5, s5) && ({
                                                ||| self.6.err(s5, e@)
                                                ||| exists|w6: T, s6: Seq<char>|
                                                    #[trigger] self.6.ok(s5, w6, s6) && ({
                                                    ||| self.7.err(s6, e@)
                                                    ||| exists|w7: U, s7: Seq<char>|
                                                        #[trigger] self.7.ok(s6, w7, s7) && ({
                                                        ||| self.8.err(s7, e@)
                                                        ||| exists|w8: V, s8: Seq<char>|
                                                            #[trigger] self.8.ok(s7, w8, s8) && ({
                                                            self.9.err(s8, e@)
                                                            })
                                                        })
                                                    })
                                                })
                                            })
                                        })
                                    })
                                })
                            })
                    });
                }
                return Err(e);
            },
        };
        let (v4, r4) = match self.4.parse(r3) {
            Ok(x) => x,
            Err(e) => {
                proof {
                    assert({
                        ||| self.3.err(r2@, e@)
                        ||| exists|w3: Q, s3: Seq<char>|
                            #[trigger] self.3.ok(r2@, w3, s3) && ({
                            ||| self.4.err(s3, e@)
                            ||| exists|w4: R, s4: Seq<char>|
                                #[trigger] self.4.ok(s3, w4, s4) && ({
                                ||| self.5.err(s4, e@)
                                ||| exists|w5: S, s5: Seq<char>|
                                    #[trigger] self.5.ok(s4, w5, s5) && ({
                                    ||| self.6.err(s5, e@)
                                    ||| exists|w6: T, s6: Seq<char>|
                                        #[trigger] self.6.ok(s5, w6, s6) && ({
                                        ||| self.7.err(s6, e@)
                                        ||| exists|w7: U, s7: Seq<char>|
                                            #[trigger] self.7.ok(s6, w7, s7) && ({
                                            ||| self.8.err(s7, e@)
                                            ||| exists|w8: V, s8: Seq<char>|
                                                #[trigger] self.8.ok(s7, w8, s8) && ({
                                                self.9.err(s8, e@)
                                                })
                                            })
                                        })
                                    })
                                })
                            })
                    });
                    assert({
                        ||| self.2.err(r1@, e@)
                        ||| exists|w2: P, s2: Seq<char>|
                            #[trigger] self.2.ok(r1@, w2, s2) && ({
                            ||| self.3.err(s2, e@)
                            ||| exists|w3: Q, s3: Seq<char>|
                                #[trigger] self.3.ok(s2, w3, s3) && ({
                                ||| self.4.err(s3, e@)
                                ||| exists|w4: R, s4: Seq<char>|
                                    #[trigger] self.4.ok(s3, w4, s4) && ({
                                    ||| self.5.err(s4, e@)
                                    ||| exists|w5: S, s5: Seq<char>|
                                        #[trigger] self.5.ok(s4, w5, s5) && ({
                                        ||| self.6.err(s5, e@)
                                        ||| exists|w6: T, s6: Seq<char>|
                                            #[trigger] self.6.ok(s5, w6, s6) && ({
                                            ||| self.7.err(s6, e@)
                                            ||| exists|w7: U, s7: Seq<char>|
                                                #[trigger] self.7.ok(s6, w7, s7) && ({
                                                ||| self.8.err(s7, e@)
                                                ||| exists|w8: V, s8: Seq<char>|
                                                    #[trigger] self.8.ok(s7, w8, s8) && ({
                                                    self.9.err(s8, e@)
                                                    })
                                                })
                                            })
                                        })
                                    })
                                })
                            })
                    });
                    assert({
                        ||| self.1.err(r0@, e@)
                        ||| exists|w1: O, s1: Seq<char>|
                            #[trigger] self.1.ok(r0@, w1, s1) && ({
                            ||| self.2.err(s1, e@)
                            ||| exists|w2: P, s2: Seq<char>|
                                #[trigger] self.2.ok(s1, w2, s2) && ({
                                ||| self.3.err(s2, e@)
                                ||| exists|w3: Q, s3: Seq<char>|
                                    #[trigger] self.3.ok(s2, w3, s3) && ({
                                    ||| self.4.err(s3, e@)
                                    ||| exists|w4: R, s4: Seq<char>|
                                        #[trigger] self.4.ok(s3, w4, s4) && ({
                                        ||| self.5.err(s4, e@)
                                        ||| exists|w5: S, s5: Seq<char>|
                                            #[trigger] self.5.ok(s4, w5, s5) && ({
                                            ||| self.6.err(s5, e@)
                                            ||| exists|w6: T, s6: Seq<char>|
                                                #[trigger] self.6.ok(s5, w6, s6) && ({
                                                ||| self.7.err(s6, e@)
                                                ||| exists|w7: U, s7: Seq<char>|
                                                    #[trigger] self.7.ok(s6, w7, s7) && ({
                                                    ||| self.8.err(s7, e@)
                                                    ||| exists|w8: V, s8: Seq<char>|
                                                        #[trigger] self.8.ok(s7, w8, s8) && ({
                                                        self.9.err(s8, e@)
                                                        })
                                                    })
                                                })
                                            })
                                        })
                                    })
                                })
                            })
                    });
                    assert({
                        ||| self.0.err(input@, e@)
                        ||| exists|w0: N, s0: Seq<char>|
                            #[trigger] self.0.ok(input@, w0, s0) && ({
                            ||| self.1.err(s0, e@)
                            ||| exists|w1: O, s1: Seq<char>|
                                #[trigger] self.1.ok(s0, w1, s1) && ({
                                ||| self.2.err(s1, e@)
                                ||| exists|w2: P, s2: Seq<char>|
                                    #[trigger] self.2.ok(s1, w2, s2) && ({
                                    ||| self.3.err(s2, e@)
                                    ||| exists|w3: Q, s3: Seq<char>|
                                        #[trigger] self.3.ok(s2, w3, s3) && ({
                                        ||| self.4.err(s3, e@)
                                        ||| exists|w4: R, s4: Seq<char>|
                                            #[trigger] self.4.ok(s3, w4, s4) && ({
                                            ||| self.5.err(s4, e@)
                                            ||| exists|w5: S, s5: Seq<char>|
                                                #[trigger] self.5.ok(s4, w5, s5) && ({
                                                ||| self.6.err(s5, e@)
                                                ||| exists|w6: T, s6: Seq<char>|
                                                    #[trigger] self.6.ok(s5, w6, s6) && ({
                                                    ||| self.7.err(s6, e@)
                                                    ||| exists|w7: U, s7: Seq<char>|
                                                        #[trigger] self.7.ok(s6, w7, s7) && ({
                                                        ||| self.8.err(s7, e@)
                                                        ||| exists|w8: V, s8: Seq<char>|
                                                            #[trigger] self.8.ok(s7, w8, s8) && ({
                                                            self.9.err(s8, e@)
                                                            })
                                                        })
                                                    })
                                                })
                                            })
                                        })
                                    })
                                })
                            })
                    });
                }
                return Err(e);
            },
        };
        let (v5, r5) = match self.5.parse(r4) {
            Ok(x) => x,
            Err(e) => {
                proof {
                    assert({
                        ||| self.4.err(r3@, e@)
                        ||| exists|w4: R, s4: Seq<char>|
                            #[trigger] self.4.ok(r3@, w4, s4) && ({
                            ||| self.5.err(s4, e@)
                            ||| exists|w5: S, s5: Seq<char>|
                                #[trigger] self.5.ok(s4, w5, s5) && ({
                                ||| self.6.err(s5, e@)
                                ||| exists|w6: T, s6: Seq<char>|
                                    #[trigger] self.6.ok(s5, w6, s6) && ({
                                    ||| self.7.err(s6, e@)
                                    ||| exists|w7: U, s7: Seq<char>|
                                        #[trigger] self.7.ok(s6, w7, s7) && ({
                                        ||| self.8.err(s7, e@)
                                        ||| exists|w8: V, s8: Seq<char>|
                                            #[trigger] self.8.ok(s7, w8, s8) && ({
                                            self.9.err(s8, e@)
                                            })
                                        })
                                    })
                                })
                            })
                    });
                    assert({
                        ||| self.3.err(r2@, e@)
                        ||| exists|w3: Q, s3: Seq<char>|
                            #[trigger] self.3.ok(r2@, w3, s3) && ({
                            ||| self.4.err(s3, e@)
                            ||| exists|w4: R, s4: Seq<char>|
                                #[trigger] self.4.ok(s3, w4, s4) && ({
                                ||| self.5.err(s4, e@)
                                ||| exists|w5: S, s5: Seq<char>|
                                    #[trigger] self.5.ok(s4, w5, s5) && ({
                                    ||| self.6.err(s5, e@)
                                    ||| exists|w6: T, s6: Seq<char>|
                                        #[trigger] self.6.ok(s5, w6, s6) && ({
                                        ||| self.7.err(s6, e@)
                                        ||| exists|w7: U, s7: Seq<char>|
                                            #[trigger] self.7.ok(s6, w7, s7) && ({
                                            ||| self.8.err(s7, e@)
                                            ||| exists|w8: V, s8: Seq<char>|
                                                #[trigger] self.8.ok(s7, w8, s8) && ({
                                                self.9.err(s8, e@)
                                                })
                                            })
                                        })
                                    })
                                })
                            })
                    });
                    assert({
                        ||| self.2.err(r1@, e@)
                        ||| exists|w2: P, s2: Seq<char>|
                            #[trigger] self.2.ok(r1@, w2, s2) && ({
                            ||| self.3.err(s2, e@)
                            ||| exists|w3: Q, s3: Seq<char>|
                                #[trigger] self.3.ok(s2, w3, s3) && ({
                                ||| self.4.err(s3, e@)
                                ||| exists|w4: R, s4: Seq<char>|
                                    #[trigger] self.4.ok(s3, w4, s4) && ({
                                    ||| self.5.err(s4, e@)
                                    ||| exists|w5: S, s5: Seq<char>|
                                        #[trigger] self.5.ok(s4, w5, s5) && ({
                                        ||| self.6.err(s5, e@)
                                        ||| exists|w6: T, s6: Seq<char>|
                                            #[trigger] self.6.ok(s5, w6, s6) && ({
                                            ||| self.7.err(s6, e@)
                                            ||| exists|w7: U, s7: Seq<char>|
                                                #[trigger] self.7.ok(s6, w7, s7) && ({
                                                ||| self.8.err(s7, e@)
                                                ||| exists|w8: V, s8: Seq<char>|
                                                    #[trigger] self.8.ok(s7, w8, s8) && ({
                                                    self.9.err(s8, e@)
                                                    })
                                                })
                                            })
                                        })
                                    })
                                })
                            })
                    });
                    assert({
                        ||| self.1.err(r0@, e@)
                        ||| exists|w1: O, s1: Seq<char>|
                            #[trigger] self.1.ok(r0@, w1, s1) && ({
                            ||| self.2.err(s1, e@)
                            ||| exists|w2: P, s2: Seq<char>|
                                #[trigger] self.2.ok(s1, w2, s2) && ({
                                ||| self.3.err(s2, e@)
                                ||| exists|w3: Q, s3: Seq<char>|
                                    #[trigger] self.3.ok(s2, w3, s3) && ({
                                    ||| self.4.err(s3, e@)
                                    ||| exists|w4: R, s4: Seq<char>|
                                        #[trigger] self.4.ok(s3, w4, s4) && ({
                                        ||| self.5.err(s4, e@)
                                        ||| exists|w5: S, s5: Seq<char>|
                                            #[trigger] self.5.ok(s4, w5, s5) && ({
                                            ||| self.6.err(s5, e@)
                                            ||| exists|w6: T, s6: Seq<char>|
                                                #[trigger] self.6.ok(s5, w6, s6) && ({
                                                ||| self.7.err(s6, e@)
                                                ||| exists|w7: U, s7: Seq<char>|
                                                    #[trigger] self.7.ok(s6, w7, s7) && ({
                                                    ||| self.8.err(s7, e@)
                                                    ||| exists|w8: V, s8: Seq<char>|
                                                        #[trigger] self.8.ok(s7, w8, s8) && ({
                                                        self.9.err(s8, e@)
                                                        })
                                                    })
                                                })
                                            })
                                        })
                                    })
                                })
                            })
                    });
                    assert({
                        ||| self.0.err(input@, e@)
                        ||| exists|w0: N, s0: Seq<char>|
                            #[trigger] self.0.ok(input@, w0, s0) && ({
                            ||| self.1.err(s0, e@)
                            ||| exists|w1: O, s1: Seq<char>|
                                #[trigger] self.1.ok(s0, w1, s1) && ({
                                ||| self.2.err(s1, e@)
                                ||| exists|w2: P, s2: Seq<char>|
                                    #[trigger] self.2.ok(s1, w2, s2) && ({
                                    ||| self.3.err(s2, e@)
                                    ||| exists|w3: Q, s3: Seq<char>|
                                        #[trigger] self.3.ok(s2, w3, s3) && ({
                                        ||| self.4.err(s3, e@)
                                        ||| exists|w4: R, s4: Seq<char>|
                                            #[trigger] self.4.ok(s3, w4, s4) && ({
                                            ||| self.5.err(s4, e@)
                                            ||| exists|w5: S, s5: Seq<char>|
                                                #[trigger] self.5.ok(s4, w5, s5) && ({
                                                ||| self.6.err(s5, e@)
                                                ||| exists|w6: T, s6: Seq<char>|
                                                    #[trigger] self.6.ok(s5, w6, s6) && ({
                                                    ||| self.7.err(s6, e@)
                                                    ||| exists|w7: U, s7: Seq<char>|
                                                        #[trigger] self.7.ok(s6, w7, s7) && ({
                                                        ||| self.8.err(s7, e@)
                                                        ||| exists|w8: V, s8: Seq<char>|
                                                            #[trigger] self.8.ok(s7, w8, s8) && ({
                                                            self.9.err(s8, e@)
                                                            })
                                                        })
                                                    })
                                                })
                                            })
                                        })
                                    })
                                })
                            })
                    });
                }
                return Err(e);
            },
        };
        let (v6, r6) = match self.6.parse(r5) {
            Ok(x) => x,
            Err(e) => {
                proof {
                    assert({
                        ||| self.5.err(r4@, e@)
                        ||| exists|w5: S, s5: Seq<char>|
                            #[trigger] self.5.ok(r4@, w5, s5) && ({
                            ||| self.6.err(s5, e@)
                            ||| exists|w6: T, s6: Seq<char>|
                                #[trigger] self.6.ok(s5, w6, s6) && ({
                                ||| self.7.err(s6, e@)
                                ||| exists|w7: U, s7: Seq<char>|
                                    #[trigger] self.7.ok(s6, w7, s7) && ({
                                    ||| self.8.err(s7, e@)
                                    ||| exists|w8: V, s8: Seq<char>|
                                        #[trigger] self.8.ok(s7, w8, s8) && ({
                                        self.9.err(s8, e@)
                                        })
                                    })
                                })
                            })
                    });
                    assert({
                        ||| self.4.err(r3@, e@)
                        ||| exists|w4: R, s4: Seq<char>|
                            #[trigger] self.4.ok(r3@, w4, s4) && ({
                            ||| self.5.err(s4, e@)
                            ||| exists|w5: S, s5: Seq<char>|
                                #[trigger] self.5.ok(s4, w5, s5) && ({
                                ||| self.6.err(s5, e@)
                                ||| exists|w6: T, s6: Seq<char>|
                                    #[trigger] self.6.ok(s5, w6, s6) && ({
                                    ||| self.7.err(s6, e@)
                                    ||| exists|w7: U, s7: Seq<char>|
                                        #[trigger] self.7.ok(s6, w7, s7) && ({
                                        ||| self.8.err(s7, e@)
                                        ||| exists|w8: V, s8: Seq<char>|
                                            #[trigger] self.8.ok(s7, w8, s8) && ({
                                            self.9.err(s8, e@)
                                            })
                                        })
                                    })
                                })
                            })
                    });
                    assert({
                        ||| self.3.err(r2@, e@)
                        ||| exists|w3: Q, s3: Seq<char>|
                            #[trigger] self.3.ok(r2@, w3, s3) && ({
                            ||| self.4.err(s3, e@)
                            ||| exists|w4: R, s4: Seq<char>|
                                #[trigger] self.4.ok(s3, w4, s4) && ({
                                ||| self.5.err(s4, e@)
                                ||| exists|w5: S, s5: Seq<char>|
                                    #[trigger] self.5.ok(s4, w5, s5) && ({
                                    ||| self.6.err(s5, e@)
                                    ||| exists|w6: T, s6: Seq<char>|
                                        #[trigger] self.6.ok(s5, w6, s6) && ({
                                        ||| self.7.err(s6, e@)
                                        ||| exists|w7: U, s7: Seq<char>|
                                            #[trigger] self.7.ok(s6, w7, s7) && ({
                                            ||| self.8.err(s7, e@)
                                            ||| exists|w8: V, s8: Seq<char>|
                                                #[trigger] self.8.ok(s7, w8, s8) && ({
                                                self.9.err(s8, e@)
                                                })
                                            })
                                        })
                                    })
                                })
                            })
                    });
                    assert({
                        ||| self.2.err(r1@, e@)
                        ||| exists|w2: P, s2: Seq<char>|
                            #[trigger] self.2.ok(r1@, w2, s2) && ({
                            ||| self.3.err(s2, e@)
                            ||| exists|w3: Q, s3: Seq<char>|
                                #[trigger] self.3.ok(s2, w3, s3) && ({
                                ||| self.4.err(s3, e@)
                                ||| exists|w4: R, s4: Seq<char>|
                                    #[trigger] self.4.ok(s3, w4, s4) && ({
                                    ||| self.5.err(s4, e@)
                                    ||| exists|w5: S, s5: Seq<char>|
                                        #[trigger] self.5.ok(s4, w5, s5) && ({
                                        ||| self.6.err(s5, e@)
                                        ||| exists|w6: T, s6: Seq<char>|
                                            #[trigger] self.6.ok(s5, w6, s6) && ({
                                            ||| self.7.err(s6, e@)
                                            ||| exists|w7: U, s7: Seq<char>|
                                                #[trigger] self.7.ok(s6, w7, s7) && ({
                                                ||| self.8.err(s7, e@)
                                                ||| exists|w8: V, s8: Seq<char>|
                                                    #[trigger] self.8.ok(s7, w8, s8) && ({
                                                    self.9.err(s8, e@)
                                                    })
                                                })
                                            })
                                        })
                                    })
                                })
                            })
                    });
                    assert({
                        ||| self.1.err(r0@, e@)
                        ||| exists|w1: O, s1: Seq<char>|
                            #[trigger] self.1.ok(r0@, w1, s1) && ({
                            ||| self.2.err(s1, e@)
                            ||| exists|w2: P, s2: Seq<char>|
                                #[trigger] self.2.ok(s1, w2, s2) && ({
                                ||| self.3.err(s2, e@)
                                ||| exists|w3: Q, s3: Seq<char>|
                                    #[trigger] self.3.ok(s2, w3, s3) && ({
                                    ||| self.4.err(s3, e@)
                                    ||| exists|w4: R, s4: Seq<char>|
                                        #[trigger] self.4.ok(s3, w4, s4) && ({
                                        ||| self.5.err(s4, e@)
                                        ||| exists|w5: S, s5: Seq<char>|
                                            #[trigger] self.5.ok(s4, w5, s5) && ({
                                            ||| self.6.err(s5, e@)
                                            ||| exists|w6: T, s6: Seq<char>|
                                                #[trigger] self.6.ok(s5, w6, s6) && ({
                                                ||| self.7.err(s6, e@)
                                                ||| exists|w7: U, s7: Seq<char>|
                                                    #[trigger] self.7.ok(s6, w7, s7) && ({
                                                    ||| self.8.err(s7, e@)
                                                    ||| exists|w8: V, s8: Seq<char>|
                                                        #[trigger] self.8.ok(s7, w8, s8) && ({
                                                        self.9.err(s8, e@)
                                                        })
                                                    })
                                                })
                                            })
                                        })
                                    })
                                })
                            })
                    });
                    assert({
                        ||| self.0.err(input@, e@)
                        ||| exists|w0: N, s0: Seq<char>|
                            #[trigger] self.0.ok(input@, w0, s0) && ({
                            ||| self.1.err(s0, e@)
                            ||| exists|w1: O, s1: Seq<char>|
                                #[trigger] self.1.ok(s0, w1, s1) && ({
                                ||| self.2.err(s1, e@)
                                ||| exists|w2: P, s2: Seq<char>|
                                    #[trigger] self.2.ok(s1, w2, s2) && ({
                                    ||| self.3.err(s2, e@)
                                    ||| exists|w3: Q, s3: Seq<char>|
                                        #[trigger] self.3.ok(s2, w3, s3) && ({
                                        ||| self.4.err(s3, e@)
                                        ||| exists|w4: R, s4: Seq<char>|
                                            #[trigger] self.4.ok(s3, w4, s4) && ({
                                            ||| self.5.err(s4, e@)
                                            ||| exists|w5: S, s5: Seq<char>|
                                                #[trigger] self.5.ok(s4, w5, s5) && ({
                                                ||| self.6.err(s5, e@)
                                                ||| exists|w6: T, s6: Seq<char>|
                                                    #[trigger] self.6.ok(s5, w6, s6) && ({
                                                    ||| self.7.err(s6, e@)
                                                    ||| exists|w7: U, s7: Seq<char>|
                                                        #[trigger] self.7.ok(s6, w7, s7) && ({
                                                        ||| self.8.err(s7, e@)
                                                        ||| exists|w8: V, s8: Seq<char>|
                                                            #[trigger] self.8.ok(s7, w8, s8) && ({
                                                            self.9.err(s8, e@)
                                                            })
                                                        })
                                                    })
                                                })
                                            })
                                        })
                                    })
                                })
                            })
                    });
                }
                return Err(e);
            },
        };
        let (v7, r7) = match self.7.parse(r6) {
            Ok(x) => x,
            Err(e) => {
                proof {
                    assert({
                        ||| self.6.err(r5@, e@)
                        ||| exists|w6: T, s6: Seq<char>|
                            #[trigger] self.6.ok(r5@, w6, s6) && ({
                            ||| self.7.err(s6, e@)
                            ||| exists|w7: U, s7: Seq<char>|
                                #[trigger] self.7.ok(s6, w7, s7) && ({
                                ||| self.8.err(s7, e@)
                                ||| exists|w8: V, s8: Seq<char>|
                                    #[trigger] self.8.ok(s7, w8, s8) && ({
                                    self.9.err(s8, e@)
                                    })
                                })
                            })
                    });
                    assert({
                        ||| self.5.err(r4@, e@)
                        ||| exists|w5: S, s5: Seq<char>|
                            #[trigger] self.5.ok(r4@, w5, s5) && ({
                            ||| self.6.err(s5, e@)
                            ||| exists|w6: T, s6: Seq<char>|
                                #[trigger] self.6.ok(s5, w6, s6) && ({
                                ||| self.7.err(s6, e@)
                                ||| exists|w7: U, s7: Seq<char>|
                                    #[trigger] self.7.ok(s6, w7, s7) && ({
                                    ||| self.8.err(s7, e@)
                                    ||| exists|w8: V, s8: Seq<char>|
                                        #[trigger] self.8.ok(s7, w8, s8) && ({
                                        self.9.err(s8, e@)
                                        })
                                    })
                                })
                            })
                    });
                    assert({
                        ||| self.4.err(r3@, e@)
                        ||| exists|w4: R, s4: Seq<char>|
                            #[trigger] self.4.ok(r3@, w4, s4) && ({
                            ||| self.5.err(s4, e@)
                            ||| exists|w5: S, s5: Seq<char>|
                                #[trigger] self.5.ok(s4, w5, s5) && ({
                                ||| self.6.err(s5, e@)
                                ||| exists|w6: T, s6: Seq<char>|
                                    #[trigger] self.6.ok(s5, w6, s6) && ({
                                    ||| self.7.err(s6, e@)
                                    ||| exists|w7: U, s7: Seq<char>|
                                        #[trigger] self.7.ok(s6, w7, s7) && ({
                                        ||| self.8.err(s7, e@)
                                        ||| exists|w8: V, s8: Seq<char>|
                                            #[trigger] self.8.ok(s7, w8, s8) && ({
                                            self.9.err(s8, e@)
                                            })
                                        })
                                    })
                                })
                            })
                    });
                    assert({
                        ||| self.3.err(r2@, e@)
                        ||| exists|w3: Q, s3: Seq<char>|
                            #[trigger] self.3.ok(r2@, w3, s3) && ({
                            ||| self.4.err(s3, e@)
                            ||| exists|w4: R, s4: Seq<char>|
                                #[trigger] self.4.ok(s3, w4, s4) && ({
                                ||| self.5.err(s4, e@)
                                ||| exists|w5: S, s5: Seq<char>|
                                    #[trigger] self.5.ok(s4, w5, s5) && ({
                                    ||| self.6.err(s5, e@)
                                    ||| exists|w6: T, s6: Seq<char>|
                                        #[trigger] self.6.ok(s5, w6, s6) && ({
                                        ||| self.7.err(s6, e@)
                                        ||| exists|w7: U, s7: Seq<char>|
                                            #[trigger] self.7.ok(s6, w7, s7) && ({
                                            ||| self.8.err(s7, e@)
                                            ||| exists|w8: V, s8: Seq<char>|
                                                #[trigger] self.8.ok(s7, w8, s8) && ({
                                                self.9.err(s8, e@)
                                                })
                                            })
                                        })
                                    })
                                })
                            })
                    });
                    assert({
                        ||| self.2.err(r1@, e@)
                        ||| exists|w2: P, s2: Seq<char>|
                            #[trigger] self.2.ok(r1@, w2, s2) && ({
                            ||| self.3.err(s2, e@)
                            ||| exists|w3: Q, s3: Seq<char>|
                                #[trigger] self.3.ok(s2, w3, s3) && ({
                                ||| self.4.err(s3, e@)
                                ||| exists|w4: R, s4: Seq<char>|
                                    #[trigger] self.4.ok(s3, w4, s4) && ({
                                    ||| self.5.err(s4, e@)
                                    ||| exists|w5: S, s5: Seq<char>|
                                        #[trigger] self.5.ok(s4, w5, s5) && ({
                                        ||| self.6.err(s5, e@)
                                        ||| exists|w6: T, s6: Seq<char>|
                                            #[trigger] self.6.ok(s5, w6, s6) && ({
                                            ||| self.7.err(s6, e@)
                                            ||| exists|w7: U, s7: Seq<char>|
                                                #[trigger] self.7.ok(s6, w7, s7) && ({
                                                ||| self.8.err(s7, e@)
                                                ||| exists|w8: V, s8: Seq<char>|
                                                    #[trigger] self.8.ok(s7, w8, s8) && ({
                                                    self.9.err(s8, e@)
                                                    })
                                                })
                                            })
                                        })
                                    })
                                })
                            })
                    });
                    assert({
                        ||| self.1.err(r0@, e@)
                        ||| exists|w1: O, s1: Seq<char>|
                            #[trigger] self.1.ok(r0@, w1, s1) && ({
                            ||| self.2.err(s1, e@)
                            ||| exists|w2: P, s2: Seq<char>|
                                #[trigger] self.2.ok(s1, w2, s2) && ({
                                ||| self.3.err(s2, e@)
                                ||| exists|w3: Q, s3: Seq<char>|
                                    #[trigger] self.3.ok(s2, w3, s3) && ({
                                    ||| self.4.err(s3, e@)
                                    ||| exists|w4: R, s4: Seq<char>|
                                        #[trigger] self.4.ok(s3, w4, s4) && ({
                                        ||| self.5.err(s4, e@)
                                        ||| exists|w5: S, s5: Seq<char>|
                                            #[trigger] self.5.ok(s4, w5, s5) && ({
                                            ||| self.6.err(s5, e@)
                                            ||| exists|w6: T, s6: Seq<char>|
                                                #[trigger] self.6.ok(s5, w6, s6) && ({
                                                ||| self.7.err(s6, e@)
                                                ||| exists|w7: U, s7: Seq<char>|
                                                    #[trigger] self.7.ok(s6, w7, s7) && ({
                                                    ||| self.8.err(s7, e@)
                                                    ||| exists|w8: V, s8: Seq<char>|
                                                        #[trigger] self.8.ok(s7, w8, s8) && ({
                                                        self.9.err(s8, e@)
                                                        })
                                                    })
                                                })
                                            })
                                        })
                                    })
                                })
                            })
                    });
                    assert({
                        ||| self.0.err(input@, e@)
                        ||| exists|w0: N, s0: Seq<char>|
                            #[trigger] self.0.ok(input@, w0, s0) && ({
                            ||| self.1.err(s0, e@)
                            ||| exists|w1: O, s1: Seq<char>|
                                #[trigger] self.1.ok(s0, w1, s1) && ({
                                ||| self.2.err(s1, e@)
                                ||| exists|w2: P, s2: Seq<char>|
                                    #[trigger] self.2.ok(s1, w2, s2) && ({
                                    ||| self.3.err(s2, e@)
                                    ||| exists|w3: Q, s3: Seq<char>|
                                        #[trigger] self.3.ok(s2, w3, s3) && ({
                                        ||| self.4.err(s3, e@)
                                        ||| exists|w4: R, s4: Seq<char>|
                                            #[trigger] self.4.ok(s3, w4, s4) && ({
                                            ||| self.5.err(s4, e@)
                                            ||| exists|w5: S, s5: Seq<char>|
                                                #[trigger] self.5.ok(s4, w5, s5) && ({
                                                ||| self.6.err(s5, e@)
                                                ||| exists|w6: T, s6: Seq<char>|
                                                    #[trigger] self.6.ok(s5, w6, s6) && ({
                                                    ||| self.7.err(s6, e@)
                                                    ||| exists|w7: U, s7: Seq<char>|
                                                        #[trigger] self.7.ok(s6, w7, s7) && ({
                                                        ||| self.8.err(s7, e@)
                                                        ||| exists|w8: V, s8: Seq<char>|
                                                            #[trigger] self.8.ok(s7, w8, s8) && ({
                                                            self.9.err(s8, e@)
                                                            })
                                                        })
                                                    })
                                                })
                                            })
                                        })
                                    })
                                })
                            })
                    });
                }
                return Err(e);
            },
        };
        let (v8, r8) = match self.8.parse(r7) {
            Ok(x) => x,
            Err(e) => {
                proof {
                    assert({
                        ||| self.7.err(r6@, e@)
                        ||| exists|w7: U, s7: Seq<char>|
                            #[trigger] self.7.ok(r6@, w7, s7) && ({
                            ||| self.8.err(s7, e@)
                            ||| exists|w8: V, s8: Seq<char>|
                                #[trigger] self.8.ok(s7, w8, s8) && ({
                                self.9.err(s8, e@)
                                })
                            })
                    });
                    assert({
                        ||| self.6.err(r5@, e@)
                        ||| exists|w6: T, s6: Seq<char>|
                            #[trigger] self.6.ok(r5@, w6, s6) && ({
                            ||| self.7.err(s6, e@)
                            ||| exists|w7: U, s7: Seq<char>|
                                #[trigger] self.7.ok(s6, w7, s7) && ({
                                ||| self.8.err(s7, e@)
                                ||| exists|w8: V, s8: Seq<char>|
                                    #[trigger] self.8.ok(s7, w8, s8) && ({
                                    self.9.err(s8, e@)
                                    })
                                })
                            })
                    });
                    assert({
                        ||| self.5.err(r4@, e@)
                        ||| exists|w5: S, s5: Seq<char>|
                            #[trigger] self.5.ok(r4@, w5, s5) && ({
                            ||| self.6.err(s5, e@)
                            ||| exists|w6: T, s6: Seq<char>|
                                #[trigger] self.6.ok(s5, w6, s6) && ({
                                ||| self.7.err(s6, e@)
                                ||| exists|w7: U, s7: Seq<char>|
                                    #[trigger] self.7.ok(s6, w7, s7) && ({
                                    ||| self.8.err(s7, e@)
                                    ||| exists|w8: V, s8: Seq<char>|
                                        #[trigger] self.8.ok(s7, w8, s8) && ({
                                        self.9.err(s8, e@)
                                        })
                                    })
                                })
                            })
                    });
                    assert({
                        ||| self.4.err(r3@, e@)
                        ||| exists|w4: R, s4: Seq<char>|
                            #[trigger] self.4.ok(r3@, w4, s4) && ({
                            ||| self.5.err(s4, e@)
                            ||| exists|w5: S, s5: Seq<char>|
                                #[trigger] self.5.ok(s4, w5, s5) && ({
                                ||| self.6.err(s5, e@)
                                ||| exists|w6: T, s6: Seq<char>|
                                    #[trigger] self.6.ok(s5, w6, s6) && ({
                                    ||| self.7.err(s6, e@)
                                    ||| exists|w7: U, s7: Seq<char>|
                                        #[trigger] self.7.ok(s6, w7, s7) && ({
                                        ||| self.8.err(s7, e@)
                                        ||| exists|w8: V, s8: Seq<char>|
                                            #[trigger] self.8.ok(s7, w8, s8) && ({
                                            self.9.err(s8, e@)
                                            })
                                        })
                                    })
                                })
                            })
                    });
                    assert({
                        ||| self.3.err(r2@, e@)
                        ||| exists|w3: Q, s3: Seq<char>|
                            #[trigger] self.3.ok(r2@, w3, s3) && ({
                            ||| self.4.err(s3, e@)
                            ||| exists|w4: R, s4: Seq<char>|
                                #[trigger] self.4.ok(s3, w4, s4) && ({
                                ||| self.5.err(s4, e@)
                                ||| exists|w5: S, s5: Seq<char>|
                                    #[trigger] self.5.ok(s4, w5, s5) && ({
                                    ||| self.6.err(s5, e@)
                                    ||| exists|w6: T, s6: Seq<char>|
                                        #[trigger] self.6.ok(s5, w6, s6) && ({
                                        ||| self.7.err(s6, e@)
                                        ||| exists|w7: U, s7: Seq<char>|
                                            #[trigger] self.7.ok(s6, w7, s7) && ({
                                            ||| self.8.err(s7, e@)
                                            ||| exists|w8: V, s8: Seq<char>|
                                                #[trigger] self.8.ok(s7, w8, s8) && ({
                                                self.9.err(s8, e@)
                                                })
                                            })
                                        })
                                    })
                                })
                            })
                    });
                    assert({
                        ||| self.2.err(r1@, e@)
                        ||| exists|w2: P, s2: Seq<char>|
                            #[trigger] self.2.ok(r1@, w2, s2) && ({
                            ||| self.3.err(s2, e@)
                            ||| exists|w3: Q, s3: Seq<char>|
                                #[trigger] self.3.ok(s2, w3, s3) && ({
                                ||| self.4.err(s3, e@)
                                ||| exists|w4: R, s4: Seq<char>|
                                    #[trigger] self.4.ok(s3, w4, s4) && ({
                                    ||| self.5.err(s4, e@)
                                    ||| exists|w5: S, s5: Seq<char>|
                                        #[trigger] self.5.ok(s4, w5, s5) && ({
                                        ||| self.6.err(s5, e@)
                                        ||| exists|w6: T, s6: Seq<char>|
                                            #[trigger] self.6.ok(s5, w6, s6) && ({
                                            ||| self.7.err(s6, e@)
                                            ||| exists|w7: U, s7: Seq<char>|
                                                #[trigger] self.7.ok(s6, w7, s7) && ({
                                                ||| self.8.err(s7, e@)
                                                ||| exists|w8: V, s8: Seq<char>|
                                                    #[trigger] self.8.ok(s7, w8, s8) && ({
                                                    self.9.err(s8, e@)
                                                    })
                                                })
                                            })
                                        })
                                    })
                                })
                            })
                    });
                    assert({
                        ||| self.1.err(r0@, e@)
                        ||| exists|w1: O, s1: Seq<char>|
                            #[trigger] self.1.ok(r0@, w1, s1) && ({
                            ||| self.2.err(s1, e@)
                            ||| exists|w2: P, s2: Seq<char>|
                                #[trigger] self.2.ok(s1, w2, s2) && ({
                                ||| self.3.err(s2, e@)
                                ||| exists|w3: Q, s3: Seq<char>|
                                    #[trigger] self.3.ok(s2, w3, s3) && ({
                                    ||| self.4.err(s3, e@)
                                    ||| exists|w4: R, s4: Seq<char>|
                                        #[trigger] self.4.ok(s3, w4, s4) && ({
                                        ||| self.5.err(s4, e@)
                                        ||| exists|w5: S, s5: Seq<char>|
                                            #[trigger] self.5.ok(s4, w5, s5) && ({
                                            ||| self.6.err(s5, e@)
                                            ||| exists|w6: T, s6: Seq<char>|
                                                #[trigger] self.6.ok(s5, w6, s6) && ({
                                                ||| self.7.err(s6, e@)
                                                ||| exists|w7: U, s7: Seq<char>|
                                                    #[trigger] self.7.ok(s6, w7, s7) && ({
                                                    ||| self.8.err(s7, e@)
                                                    ||| exists|w8: V, s8: Seq<char>|
                                                        #[trigger] self.8.ok(s7, w8, s8) && ({
                                                        self.9.err(s8, e@)
                                                        })
                                                    })
                                                })
                                            })
                                        })
                                    })
                                })
                            })
                    });
                    assert({
                        ||| self.0.err(input@, e@)
                        ||| exists|w0: N, s0: Seq<char>|
                            #[trigger] self.0.ok(input@, w0, s0) && ({
                            ||| self.1.err(s0, e@)
                            ||| exists|w1: O, s1: Seq<char>|
                                #[trigger] self.1.ok(s0, w1, s1) && ({
                                ||| self.2.err(s1, e@)
                                ||| exists|w2: P, s2: Seq<char>|
                                    #[trigger] self.2.ok(s1, w2, s2) && ({
                                    ||| self.3.err(s2, e@)
                                    ||| exists|w3: Q, s3: Seq<char>|
                                        #[trigger] self.3.ok(s2, w3, s3) && ({
                                        ||| self.4.err(s3, e@)
                                        ||| exists|w4: R, s4: Seq<char>|
                                            #[trigger] self.4.ok(s3, w4, s4) && ({
                                            ||| self.5.err(s4, e@)
                                            ||| exists|w5: S, s5: Seq<char>|
                                                #[trigger] self.5.ok(s4, w5, s5) && ({
                                                ||| self.6.err(s5, e@)
                                                ||| exists|w6: T, s6: Seq<char>|
                                                    #[trigger] self.6.ok(s5, w6, s6) && ({
                                                    ||| self.7.err(s6, e@)
                                                    ||| exists|w7: U, s7: Seq<char>|
                                                        #[trigger] self.7.ok(s6, w7, s7) && ({
                                                        ||| self.8.err(s7, e@)
                                                        ||| exists|w8: V, s8: Seq<char>|
                                                            #[trigger] self.8.ok(s7, w8, s8) && ({
                                                            self.9.err(s8, e@)
                                                            })
                                                        })
                                                    })
                                                })
                                            })
                                        })
                                    })
                                })
                            })
                    });
                }
                return Err(e);
            },
        };
        let (v9, r9) = match self.9.parse(r8) {
            Ok(x) => x,
            Err(e) => {
                proof {
                    assert({
                        ||| self.8.err(r7@, e@)
                        ||| exists|w8: V, s8: Seq<char>|
                            #[trigger] self.8.ok(r7@, w8, s8) && ({
                            self.9.err(s8, e@)
                            })
                    });
                    assert({
                        ||| self.7.err(r6@, e@)
                        ||| exists|w7: U, s7: Seq<char>|
                            #[trigger] self.7.ok(r6@, w7, s7) && ({
                            ||| self.8.err(s7, e@)
                            ||| exists|w8: V, s8: Seq<char>|
                                #[trigger] self.8.ok(s7, w8, s8) && ({
                                self.9.err(s8, e@)
                                })
                            })
                    });
                    assert({
                        ||| self.6.err(r5@, e@)
                        ||| exists|w6: T, s6: Seq<char>|
                            #[trigger] self.6.ok(r5@, w6, s6) && ({
                            ||| self.7.err(s6, e@)
                            ||| exists|w7: U, s7: Seq<char>|
                                #[trigger] self.7.ok(s6, w7, s7) && ({
                                ||| self.8.err(s7, e@)
                                ||| exists|w8: V, s8: Seq<char>|
                                    #[trigger] self.8.ok(s7, w8, s8) && ({
                                    self.9.err(s8, e@)
                                    })
                                })
                            })
                    });
                    assert({
                        ||| self.5.err(r4@, e@)
                        ||| exists|w5: S, s5: Seq<char>|
                            #[trigger] self.5.ok(r4@, w5, s5) && ({
                            ||| self.6.err(s5, e@)
                            ||| exists|w6: T, s6: Seq<char>|
                                #[trigger] self.6.ok(s5, w6, s6) && ({
                                ||| self.7.err(s6, e@)
                                ||| exists|w7: U, s7: Seq<char>|
                                    #[trigger] self.7.ok(s6, w7, s7) && ({
                                    ||| self.8.err(s7, e@)
                                    ||| exists|w8: V, s8: Seq<char>|
                                        #[trigger] self.8.ok(s7, w8, s8) && ({
                                        self.9.err(s8, e@)
                                        })
                                    })
                                })
                            })
                    });
                    assert({
                        ||| self.4.err(r3@, e@)
                        ||| exists|w4: R, s4: Seq<char>|
                            #[trigger] self.4.ok(r3@, w4, s4) && ({
                            ||| self.5.err(s4, e@)
                            ||| exists|w5: S, s5: Seq<char>|
                                #[trigger] self.5.ok(s4, w5, s5) && ({
                                ||| self.6.err(s5, e@)
                                ||| exists|w6: T, s6: Seq<char>|
                                    #[trigger] self.6.ok(s5, w6, s6) && ({
                                    ||| self.7.err(s6, e@)
                                    ||| exists|w7: U, s7: Seq<char>|
                                        #[trigger] self.7.ok(s6, w7, s7) && ({
                                        ||| self.8.err(s7, e@)
                                        ||| exists|w8: V, s8: Seq<char>|
                                            #[trigger] self.8.ok(s7, w8, s8) && ({
                                            self.9.err(s8, e@)
                                            })
                                        })
                                    })
                                })
                            })
                    });
                    assert({
                        ||| self.3.err(r2@, e@)
                        ||| exists|w3: Q, s3: Seq<char>|
                            #[trigger] self.3.ok(r2@, w3, s3) && ({
                            ||| self.4.err(s3, e@)
                            ||| exists|w4: R, s4: Seq<char>|
                                #[trigger] self.4.ok(s3, w4, s4) && ({
                                ||| self.5.err(s4, e@)
                                ||| exists|w5: S, s5: Seq<char>|
                                    #[trigger] self.5.ok(s4, w5, s5) && ({
                                    ||| self.6.err(s5, e@)
                                    ||| exists|w6: T, s6: Seq<char>|
                                        #[trigger] self.6.ok(s5, w6, s6) && ({
                                        ||| self.7.err(s6, e@)
                                        ||| exists|w7: U, s7: Seq<char>|
                                            #[trigger] self.7.ok(s6, w7, s7) && ({
                                            ||| self.8.err(s7, e@)
                                            ||| exists|w8: V, s8: Seq<char>|
                                                #[trigger] self.8.ok(s7, w8, s8) && ({
                                                self.9.err(s8, e@)
                                                })
                                            })
                                        })
                                    })
                                })
                            })
                    });
                    assert({
                        ||| self.2.err(r1@, e@)
                        ||| exists|w2: P, s2: Seq<char>|
                            #[trigger] self.2.ok(r1@, w2, s2) && ({
                            ||| self.3.err(s2, e@)
                            ||| exists|w3: Q, s3: Seq<char>|
                                #[trigger] self.3.ok(s2, w3, s3) && ({
                                ||| self.4.err(s3, e@)
                                ||| exists|w4: R, s4: Seq<char>|
                                    #[trigger] self.4.ok(s3, w4, s4) && ({
                                    ||| self.5.err(s4, e@)
                                    ||| exists|w5: S, s5: Seq<char>|
                                        #[trigger] self.5.ok(s4, w5, s5) && ({
                                        ||| self.6.err(s5, e@)
                                        ||| exists|w6: T, s6: Seq<char>|
                                            #[trigger] self.6.ok(s5, w6, s6) && ({
                                            ||| self.7.err(s6, e@)
                                            ||| exists|w7: U, s7: Seq<char>|
                                                #[trigger] self.7.ok(s6, w7, s7) && ({
                                                ||| self.8.err(s7, e@)
                                                ||| exists|w8: V, s8: Seq<char>|
                                                    #[trigger] self.8.ok(s7, w8, s8) && ({
                                                    self.9.err(s8, e@)
                                                    })
                                                })
                                            })
                                        })
                                    })
                                })
                            })
                    });
                    assert({
                        ||| self.1.err(r0@, e@)
                        ||| exists|w1: O, s1: Seq<char>|
                            #[trigger] self.1.ok(r0@, w1, s1) && ({
                            ||| self.2.err(s1, e@)
                            ||| exists|w2: P, s2: Seq<char>|
                                #[trigger] self.2.ok(s1, w2, s2) && ({
                                ||| self.3.err(s2, e@)
                                ||| exists|w3: Q, s3: Seq<char>|
                                    #[trigger] self.3.ok(s2, w3, s3) && ({
                                    ||| self.4.err(s3, e@)
                                    ||| exists|w4: R, s4: Seq<char>|
                                        #[trigger] self.4.ok(s3, w4, s4) && ({
                                        ||| self.5.err(s4, e@)
                                        ||| exists|w5: S, s5: Seq<char>|
                                            #[trigger] self.5.ok(s4, w5, s5) && ({
                                            ||| self.6.err(s5, e@)
                                            ||| exists|w6: T, s6: Seq<char>|
                                                #[trigger] self.6.ok(s5, w6, s6) && ({
                                                ||| self.7.err(s6, e@)
                                                ||| exists|w7: U, s7: Seq<char>|
                                                    #[trigger] self.7.ok(s6, w7, s7) && ({
                                                    ||| self.8.err(s7, e@)
                                                    ||| exists|w8: V, s8: Seq<char>|
                                                        #[trigger] self.8.ok(s7, w8, s8) && ({
                                                        self.9.err(s8, e@)
                                                        })
                                                    })
                                                })
                                            })
                                        })
                                    })
                                })
                            })
                    });
                    assert({
                        ||| self.0.err(input@, e@)
                        ||| exists|w0: N, s0: Seq<char>|
                            #[trigger] self.0.ok(input@, w0, s0) && ({
                            ||| self.1.err(s0, e@)
                            ||| exists|w1: O, s1: Seq<char>|
                                #[trigger] self.1.ok(s0, w1, s1) && ({
                                ||| self.2.err(s1, e@)
                                ||| exists|w2: P, s2: Seq<char>|
                                    #[trigger] self.2.ok(s1, w2, s2) && ({
                                    ||| self.3.err(s2, e@)
                                    ||| exists|w3: Q, s3: Seq<char>|
                                        #[trigger] self.3.ok(s2, w3, s3) && ({
                                        ||| self.4.err(s3, e@)
                                        ||| exists|w4: R, s4: Seq<char>|
                                            #[trigger] self.4.ok(s3, w4, s4) && ({
                                            ||| self.5.err(s4, e@)
                                            ||| exists|w5: S, s5: Seq<char>|
                                                #[trigger] self.5.ok(s4, w5, s5) && ({
                                                ||| self.6.err(s5, e@)
                                                ||| exists|w6: T, s6: Seq<char>|
                                                    #[trigger] self.6.ok(s5, w6, s6) && ({
                                                    ||| self.7.err(s6, e@)
                                                    ||| exists|w7: U, s7: Seq<char>|
                                                        #[trigger] self.7.ok(s6, w7, s7) && ({
                                                        ||| self.8.err(s7, e@)
                                                        ||| exists|w8: V, s8: Seq<char>|
                                                            #[trigger] self.8.ok(s7, w8, s8) && ({
                                                            self.9.err(s8, e@)
                                                            })
                                                        })
                                                    })
                                                })
                                            })
                                        })
                                    })
                                })
                            })
                    });
                }
                return Err(e);
            },
        };
        let out = (v0, v1, v2, v3, v4, v5, v6, v7, v8, v9);
        proof {
            assert(out.0 == v0);
            assert(out.1 == v1);
            assert(out.2 == v2);
            assert(out.3 == v3);
            assert(out.4 == v4);
            assert(out.5 == v5);
            assert(out.6 == v6);
            assert(out.7 == v7);
            assert(out.8 == v8);
            assert(out.9 == v9);
            lemma_remainder_trans(input@, r0@, r1@);
            lemma_remainder_trans(input@, r1@, r2@);
            lemma_remainder_trans(input@, r2@, r3@);
            lemma_remainder_trans(input@, r3@, r4@);
            lemma_remainder_trans(input@, r4@, r5@);
            lemma_remainder_trans(input@, r5@, r6@);
            lemma_remainder_trans(input@, r6@, r7@);
            lemma_remainder_trans(input@, r7@, r8@);
            lemma_remainder_trans(input@, r8@, r9@);
            assert({
                self.9.ok(r8@, out.9, r9@)
            });
            assert({
                exists|s8: Seq<char>|
                    #[trigger] self.8.ok(r7@, out.8, s8) && ({
                    self.9.ok(s8, out.9, r9@)
                    })
            });
            assert({
                exists|s7: Seq<char>|
                    #[trigger] self.7.ok(r6@, out.7, s7) && ({
                    exists|s8: Seq<char>|
                        #[trigger] self.8.ok(s7, out.8, s8) && ({
                        self.9.ok(s8, out.9, r9@)
                        })
                    })
            });
            assert({
                exists|s6: Seq<char>|
                    #[trigger] self.6.ok(r5@, out.6, s6) && ({
                    exists|s7: Seq<char>|
                        #[trigger] self.7.ok(s6, out.7, s7) && ({
                        exists|s8: Seq<char>|
                            #[trigger] self.8.ok(s7, out.8, s8) && ({
                            self.9.ok(s8, out.9, r9@)
                            })
                        })
                    })
            });
            assert({
                exists|s5: Seq<char>|
                    #[trigger] self.5.ok(r4@, out.5, s5) && ({
                    exists|s6: Seq<char>|
                        #[trigger] self.6.ok(s5, out.6, s6) && ({
                        exists|s7: Seq<char>|
                            #[trigger] self.7.ok(s6, out.7, s7) && ({
                            exists|s8: Seq<char>|
                                #[trigger] self.8.ok(s7, out.8, s8) && ({
                                self.9.ok(s8, out.9, r9@)
                                })
                            })
                        })
                    })
            });
            assert({
                exists|s4: Seq<char>|
                    #[trigger] self.4.ok(r3@, out.4, s4) && ({
                    exists|s5: Seq<char>|
                        #[trigger] self.5.ok(s4, out.5, s5) && ({
                        exists|s6: Seq<char>|
                            #[trigger] self.6.ok(s5, out.6, s6) && ({
                            exists|s7: Seq<char>|
                                #[trigger] self.7.ok(s6, out.7, s7) && ({
                                exists|s8: Seq<char>|
                                    #[trigger] self.8.ok(s7, out.8, s8) && ({
                                    self.9.ok(s8, out.9, r9@)
                                    })
                                })
                            })
                        })
                    })
            });
            assert({
                exists|s3: Seq<char>|
                    #[trigger] self.3.ok(r2@, out.3, s3) && ({
                    exists|s4: Seq<char>|
                        #[trigger] self.4.ok(s3, out.4, s4) && ({
                        exists|s5: Seq<char>|
                            #[trigger] self.5.ok(s4, out.5, s5) && ({
                            exists|s6: Seq<char>|
                                #[trigger] self.6.ok(s5, out.6, s6) && ({
                                exists|s7: Seq<char>|
                                    #[trigger] self.7.ok(s6, out.7, s7) && ({
                                    exists|s8: Seq<char>|
                                        #[trigger] self.8.ok(s7, out.8, s8) && ({
                                        self.9.ok(s8, out.9, r9@)
                                        })
                                    })
                                })
                            })
                        })
                    })
            });
            assert({
                exists|s2: Seq<char>|
                    #[trigger] self.2.ok(r1@, out.2, s2) && ({
                    exists|s3: Seq<char>|
                        #[trigger] self.3.ok(s2, out.3, s3) && ({
                        exists|s4: Seq<char>|
                            #[trigger] self.4.ok(s3, out.4, s4) && ({
                            exists|s5: Seq<char>|
                                #[trigger] self.5.ok(s4, out.5, s5) && ({
                                exists|s6: Seq<char>|
                                    #[trigger] self.6.ok(s5, out.6, s6) && ({
                                    exists|s7: Seq<char>|
                                        #[trigger] self.7.ok(s6, out.7, s7) && ({
                                        exists|s8: Seq<char>|
                                            #[trigger] self.8.ok(s7, out.8, s8) && ({
                                            self.9.ok(s8, out.9, r9@)
                                            })
                                        })
                                    })
                                })
                            })
                        })
                    })
            });
            assert({
                exists|s1: Seq<char>|
                    #[trigger] self.1.ok(r0@, out.1, s1) && ({
                    exists|s2: Seq<char>|
                        #[trigger] self.2.ok(s1, out.2, s2) && ({
                        exists|s3: Seq<char>|
                            #[trigger] self.3.ok(s2, out.3, s3) && ({
                            exists|s4: Seq<char>|
                                #[trigger] self.4.ok(s3, out.4, s4) && ({
                                exists|s5: Seq<char>|
                                    #[trigger] self.5.ok(s4, out.5, s5) && ({
                                    exists|s6: Seq<char>|
                                        #[trigger] self.6.ok(s5, out.6, s6) && ({
                                        exists|s7: Seq<char>|
                                            #[trigger] self.7.ok(s6, out.7, s7) && ({
                                            exists|s8: Seq<char>|
                                                #[trigger] self.8.ok(s7, out.8, s8) && ({
                                                self.9.ok(s8, out.9, r9@)
                                                })
                                            })
                                        })
                                    })
                                })
                            })
                        })
                    })
            });
            assert({
                exists|s0: Seq<char>|
                    #[trigger] self.0.ok(input@, out.0, s0) && ({
                    exists|s1: Seq<char>|
                        #[trigger] self.1.ok(s0, out.1, s1) && ({
                        exists|s2: Seq<char>|
                            #[trigger] self.2.ok(s1, out.2, s2) && ({
                            exists|s3: Seq<char>|
                                #[trigger] self.3.ok(s2, out.3, s3) && ({
                                exists|s4: Seq<char>|
                                    #[trigger] self.4.ok(s3, out.4, s4) && ({
                                    exists|s5: Seq<char>|
                                        #[trigger] self.5.ok(s4, out.5, s5) && ({
                                        exists|s6: Seq<char>|
                                            #[trigger] self.6.ok(s5, out.6, s6) && ({
                                            exists|s7: Seq<char>|
                                                #[trigger] self.7.ok(s6, out.7, s7) && ({
                                                exists|s8: Seq<char>|
                                                    #[trigger] self.8.ok(s7, out.8, s8) && ({
                                                    self.9.ok(s8, out.9, r9@)
                                                    })
                                                })
                                            })
                                        })
                                    })
                                })
                            })
                        })
                    })
            });
        }
        Ok((out, r9))
    }
}

/// A tuple of ten parsers is itself a parser: its components run as a
/// series.
impl<'a, N, O, P, Q, R, S, T, U, V, W, A: Parser<'a, N>, B: Parser<'a, O>, C: Parser<'a, P>, D: Parser<'a, Q>, E: Parser<'a, R>, F: Parser<'a, S>, G: Parser<'a, T>, H: Parser<'a, U>, I: Parser<'a, V>, J: Parser<'a, W>> Parser<'a, (N, O, P, Q, R, S, T, U, V, W)> for (A, B, C, D, E, F, G, H, I, J) {
    open spec fn wf(&self) -> bool {
        self.series_wf()
    }

    open spec fn ok(&self, input: Seq<char>, out: (N, O, P, Q, R, S, T, U, V, W), rem: Seq<char>) -> bool {
        self.series_ok(input, out, rem)
    }

    open spec fn err(&self, input: Seq<char>, e: SpecError) -> bool {
        self.series_err(input, e)
    }

    fn parse(&self, input: &'a str) -> (r: Output<'a, (N, O, P, Q, R, S, T, U, V, W)>) {
        self.parse_series(input)
    }
}

/// A fixed group of eleven parsers run as a series.
impl<'a, N, O, P, Q, R, S, T, U, V, W, X, A: Parser<'a, N>, B: Parser<'a, O>, C: Parser<'a, P>, D: Parser<'a, Q>, E: Parser<'a, R>, F: Parser<'a, S>, G: Parser<'a, T>, H: Parser<'a, U>, I: Parser<'a, V>, J: Parser<'a, W>, K: Parser<'a, X>> Series<'a, (N, O, P, Q, R, S, T, U, V, W, X)> for (A, B, C, D, E, F, G, H, I, J, K) {
    open spec fn series_wf(&self) -> bool {
        &&& self.0.wf()
        &&& self.1.wf()
        &&& self.2.wf()
        &&& self.3.wf()
        &&& self.4.wf()
        &&& self.5.wf()
        &&& self.6.wf()
        &&& self.7.wf()
        &&& self.8.wf()
        &&& self.9.wf()
        &&& self.10.wf()
    }

    open spec fn series_ok(&self, input: Seq<char>, out: (N, O, P, Q, R, S, T, U, V, W, X), rem: Seq<char>) -> bool {
        exists|s0: Seq<char>|
            #[trigger] self.0.ok(input, out.0, s0) && ({
            exists|s1: Seq<char>|
                #[trigger] self.1.ok(s0, out.1, s1) && ({
                exists|s2: Seq<char>|
                    #[trigger] self.2.ok(s1, out.2, s2) && ({
                    exists|s3: Seq<char>|
                        #[trigger] self.3.ok(s2, out.3, s3) && ({
                        exists|s4: Seq<char>|
                            #[trigger] self.4.ok(s3, out.4, s4) && ({
                            exists|s5: Seq<char>|
                                #[trigger] self.5.ok(s4, out.5, s5) && ({
                                exists|s6: Seq<char>|
                                    #[trigger] self.6.ok(s5, out.6, s6) && ({
                                    exists|s7: Seq<char>|
                                        #[trigger] self.7.ok(s6, out.7, s7) && ({
                                        exists|s8: Seq<char>|
                                            #[trigger] self.8.ok(s7, out.8, s8) && ({
                                            exists|s9: Seq<char>|
                                                #[trigger] self.9.ok(s8, out.9, s9) && ({
                                                self.10.ok(s9, out.10, rem)
                                                })
                                            })
                                        })
                                    })
                                })
                            })
                        })
                    })
                })
            })
    }

    open spec fn series_err(&self, input: Seq<char>, e: SpecError) -> bool {
        ||| self.0.err(input, e)
        ||| exists|w0: N, s0: Seq<char>|
            #[trigger] self.0.ok(input, w0, s0) && ({
            ||| self.1.err(s0, e)
            ||| exists|w1: O, s1: Seq<char>|
                #[trigger] self.1.ok(s0, w1, s1) && ({
                ||| self.2.err(s1, e)
                ||| exists|w2: P, s2: Seq<char>|
                    #[trigger] self.2.ok(s1, w2, s2) && ({
                    ||| self.3.err(s2, e)
                    ||| exists|w3: Q, s3: Seq<char>|
                        #[trigger] self.3.ok(s2, w3, s3) && ({
                        ||| self.4.err(s3, e)
                        ||| exists|w4: R, s4: Seq<char>|
                            #[trigger] self.4.ok(s3, w4, s4) && ({
                            ||| self.5.err(s4, e)
                            ||| exists|w5: S, s5: Seq<char>|
                                #[trigger] self.5.ok(s4, w5, s5) && ({
                                ||| self.6.err(s5, e)
                                ||| exists|w6: T, s6: Seq<char>|
                                    #[trigger] self.6.ok(s5, w6, s6) && ({
                                    ||| self.7.err(s6, e)
                                    ||| exists|w7: U, s7: Seq<char>|
                                        #[trigger] self.7.ok(s6, w7, s7) && ({
                                        ||| self.8.err(s7, e)
                                        ||| exists|w8: V, s8: Seq<char>|
                                            #[trigger] self.8.ok(s7, w8, s8) && ({
                                            ||| self.9.err(s8, e)
                                            ||| exists|w9: W, s9: Seq<char>|
                                                #[trigger] self.9.ok(s8, w9, s9) && ({
                                                self.10.err(s9, e)
                                                })
                                            })
                                        })
                                    })
                                })
                            })
                        })
                    })
                })
            })
    }

    fn parse_series(&self, input: &'a str) -> (r: Output<'a, (N, O, P, Q, R, S, T, U, V, W, X)>) {
        let (v0, r0) = match self.0.parse(input) {
            Ok(x) => x,
            Err(e) => {
                return Err(e);
            },
        };
        let (v1, r1) = match self.1.parse(r0) {
            Ok(x) => x,
            Err(e) => {
                proof {
                    assert({
                        ||| self.0.err(input@, e@)
                        ||| exists|w0: N, s0: Seq<char>|
                            #[trigger] self.0.ok(input@, w0, s0) && ({
                            ||| self.1.err(s0, e@)
                            ||| exists|w1: O, s1: Seq<char>|
                                #[trigger] self.1.ok(s0, w1, s1) && ({
                                ||| self.2.err(s1, e@)
                                ||| exists|w2: P, s2: Seq<char>|
                                    #[trigger] self.2.ok(s1, w2, s2) && ({
                                    ||| self.3.err(s2, e@)
                                    ||| exists|w3: Q, s3: Seq<char>|
                                        #[trigger] self.3.ok(s2, w3, s3) && ({
                                        ||| self.4.err(s3, e@)
                                        ||| exists|w4: R, s4: Seq<char>|
                                            #[trigger] self.4.ok(s3, w4, s4) && ({
                                            ||| self.5.err(s4, e@)
                                            ||| exists|w5: S, s5: Seq<char>|
                                                #[trigger] self.5.ok(s4, w5, s5) && ({
                                                ||| self.6.err(s5, e@)
                                                ||| exists|w6: T, s6: Seq<char>|
                                                    #[trigger] self.6.ok(s5, w6, s6) && ({
                                                    ||| self.7.err(s6, e@)
                                                    ||| exists|w7: U, s7: Seq<char>|
                                                        #[trigger] self.7.ok(s6, w7, s7) && ({
                                                        ||| self.8.err(s7, e@)
                                                        ||| exists|w8: V, s8: Seq<char>|
                                                            #[trigger] self.8.ok(s7, w8, s8) && ({
                                                            ||| self.9.err(s8, e@)
                                                            ||| exists|w9: W, s9: Seq<char>|
                                                                #[trigger] self.9.ok(s8, w9, s9) && ({
                                                                self.10.err(s9, e@)
                                                                })
                                                            })
                                                        })
                                                    })
                                                })
                                            })
                                        })
                                    })
                                })
                            })
                    });
                }
                return Err(e);
            },
        };
        let (v2, r2) = match self.2.parse(r1) {
            Ok(x) => x,
            Err(e) => {
                proof {
                    assert({
                        ||| self.1.err(r0@, e@)
                        ||| exists|w1: O, s1: Seq<char>|
                            #[trigger] self.1.ok(r0@, w1, s1) && ({
                            ||| self.2.err(s1, e@)
                            ||| exists|w2: P, s2: Seq<char>|
                                #[trigger] self.2.ok(s1, w2, s2) && ({
                                ||| self.3.err(s2, e@)
                                ||| exists|w3: Q, s3: Seq<char>|
                                    #[trigger] self.3.ok(s2, w3, s3) && ({
                                    ||| self.4.err(s3, e@)
                                    ||| exists|w4: R, s4: Seq<char>|
                                        #[trigger] self.4.ok(s3, w4, s4) && ({
                                        ||| self.5.err(s4, e@)
                                        ||| exists|w5: S, s5: Seq<char>|
                                            #[trigger] self.5.ok(s4, w5, s5) && ({
                                            ||| self.6.err(s5, e@)
                                            ||| exists|w6: T, s6: Seq<char>|
                                                #[trigger] self.6.ok(s5, w6, s6) && ({
                                                ||| self.7.err(s6, e@)
                                                ||| exists|w7: U, s7: Seq<char>|
                                                    #[trigger] self.7.ok(s6, w7, s7) && ({
                                                    ||| self.8.err(s7, e@)
                                                    ||| exists|w8: V, s8: Seq<char>|
                                                        #[trigger] self.8.ok(s7, w8, s8) && ({
                                                        ||| self.9.err(s8, e@)
                                                        ||| exists|w9: W, s9: Seq<char>|
                                                            #[trigger] self.9.ok(s8, w9, s9) && ({
                                                            self.10.err(s9, e@)
                                                            })
                                                        })
                                                    })
                                                })
                                            })
                                        })
                                    })
                                })
                            })
                    });
                    assert({
                        ||| self.0.err(input@, e@)
                        ||| exists|w0: N, s0: Seq<char>|
                            #[trigger] self.0.ok(input@, w0, s0) && ({
                            ||| self.1.err(s0, e@)
                            ||| exists|w1: O, s1: Seq<char>|
                                #[trigger] self.1.ok(s0, w1, s1) && ({
                                ||| self.2.err(s1, e@)
                                ||| exists|w2: P, s2: Seq<char>|
                                    #[trigger] self.2.ok(s1, w2, s2) && ({
                                    ||| self.3.err(s2, e@)
                                    ||| exists|w3: Q, s3: Seq<char>|
                                        #[trigger] self.3.ok(s2, w3, s3) && ({
                                        ||| self.4.err(s3, e@)
                                        ||| exists|w4: R, s4: Seq<char>|
                                            #[trigger] self.4.ok(s3, w4, s4) && ({
                                            ||| self.5.err(s4, e@)
                                            ||| exists|w5: S, s5: Seq<char>|
                                                #[trigger] self.5.ok(s4, w5, s5) && ({
                                                ||| self.6.err(s5, e@)
                                                ||| exists|w6: T, s6: Seq<char>|
                                                    #[trigger] self.6.ok(s5, w6, s6) && ({
                                                    ||| self.7.err(s6, e@)
                                                    ||| exists|w7: U, s7: Seq<char>|
                                                        #[trigger] self.7.ok(s6, w7, s7) && ({
                                                        ||| self.8.err(s7, e@)
                                                        ||| exists|w8: V, s8: Seq<char>|
                                                            #[trigger] self.8.ok(s7, w8, s8) && ({
                                                            ||| self.9.err(s8, e@)
                                                            ||| exists|w9: W, s9: Seq<char>|
                                                                #[trigger] self.9.ok(s8, w9, s9) && ({
                                                                self.10.err(s9, e@)
                                                                })
                                                            })
                                                        })
                                                    })
                                                })
                                            })
                                        })
                                    })
                                })
                            })
                    });
                }
                return Err(e);
            },
        };
        let (v3, r3) = match self.3.parse(r2) {
            Ok(x) => x,
            Err(e) => {
                proof {
                    assert({
                        ||| self.2.err(r1@, e@)
                        ||| exists|w2: P, s2: Seq<char>|
                            #[trigger] self.2.ok(r1@, w2, s2) && ({
                            ||| self.3.err(s2, e@)
                            ||| exists|w3: Q, s3: Seq<char>|
                                #[trigger] self.3.ok(s2, w3, s3) && ({
                                ||| self.4.err(s3, e@)
                                ||| exists|w4: R, s4: Seq<char>|
                                    #[trigger] self.4.ok(s3, w4, s4) && ({
                                    ||| self.5.err(s4, e@)
                                    ||| exists|w5: S, s5: Seq<char>|
                                        #[trigger] self.5.ok(s4, w5, s5) && ({
                                        ||| self.6.err(s5, e@)
                                        ||| exists|w6: T, s6: Seq<char>|
                                            #[trigger] self.6.ok(s5, w6, s6) && ({
                                            ||| self.7.err(s6, e@)
                                            ||| exists|w7: U, s7: Seq<char>|
                                                #[trigger] self.7.ok(s6, w7, s7) && ({
                                                ||| self.8.err(s7, e@)
                                                ||| exists|w8: V, s8: Seq<char>|
                                                    #[trigger] self.8.ok(s7, w8, s8) && ({
                                                    ||| self.9.err(s8, e@)
                                                    ||| exists|w9: W, s9: Seq<char>|
                                                        #[trigger] self.9.ok(s8, w9, s9) && ({
                                                        self.10.err(s9, e@)
                                                        })
                                                    })
                                                })
                                            })
                                        })
                                    })
                                })
                            })
                    });
                    assert({
                        ||| self.1.err(r0@, e@)
                        ||| exists|w1: O, s1: Seq<char>|
                            #[trigger] self.1.ok(r0@, w1, s1) && ({
                            ||| self.2.err(s1, e@)
                            ||| exists|w2: P, s2: Seq<char>|
                                #[trigger] self.2.ok(s1, w2, s2) && ({
                                ||| self.3.err(s2, e@)
                                ||| exists|w3: Q, s3: Seq<char>|
                                    #[trigger] self.3.ok(s2, w3, s3) && ({
                                    ||| self.4.err(s3, e@)
                                    ||| exists|w4: R, s4: Seq<char>|
                                        #[trigger] self.4.ok(s3, w4, s4) && ({
                                        ||| self.5.err(s4, e@)
                                        ||| exists|w5: S, s5: Seq<char>|
                                            #[trigger] self.5.ok(s4, w5, s5) && ({
                                            ||| self.6.err(s5, e@)
                                            ||| exists|w6: T, s6: Seq<char>|
                                                #[trigger] self.6.ok(s5, w6, s6) && ({
                                                ||| self.7.err(s6, e@)
                                                ||| exists|w7: U, s7: Seq<char>|
                                                    #[trigger] self.7.ok(s6, w7, s7) && ({
                                                    ||| self.8.err(s7, e@)
                                                    ||| exists|w8: V, s8: Seq<char>|
                                                        #[trigger] self.8.ok(s7, w8, s8) && ({
                                                        ||| self.9.err(s8, e@)
                                                        ||| exists|w9: W, s9: Seq<char>|
                                                            #[trigger] self.9.ok(s8, w9, s9) && ({
                                                            self.10.err(s9, e@)
                                                            })
                                                        })
                                                    })
                                                })
                                            })
                                        })
                                    })
                                })
                            })
                    });
                    assert({
                        ||| self.0.err(input@, e@)
                        ||| exists|w0: N, s0: Seq<char>|
                            #[trigger] self.0.ok(input@, w0, s0) && ({
                            ||| self.1.err(s0, e@)
                            ||| exists|w1: O, s1: Seq<char>|
                                #[trigger] self.1.ok(s0, w1, s1) && ({
                                ||| self.2.err(s1, e@)
                                ||| exists|w2: P, s2: Seq<char>|
                                    #[trigger] self.2.ok(s1, w2, s2) && ({
                                    ||| self.3.err(s2, e@)
                                    ||| exists|w3: Q, s3: Seq<char>|
                                        #[trigger] self.3.ok(s2, w3, s3) && ({
                                        ||| self.4.err(s3, e@)
                                        ||| exists|w4: R, s4: Seq<char>|
                                            #[trigger] self.4.ok(s3, w4, s4) && ({
                                            ||| self.5.err(s4, e@)
                                            ||| exists|w5: S, s5: Seq<char>|
                                                #[trigger] self.5.ok(s4, w5, s5) && ({
                                                ||| self.6.err(s5, e@)
                                                ||| exists|w6: T, s6: Seq<char>|
                                                    #[trigger] self.6.ok(s5, w6, s6) && ({
                                                    ||| self.7.err(s6, e@)
                                                    ||| exists|w7: U, s7: Seq<char>|
                                                        #[trigger] self.7.ok(s6, w7, s7) && ({
                                                        ||| self.8.err(s7, e@)
                                                        ||| exists|w8: V, s8: Seq<char>|
                                                            #[trigger] self.8.ok(s7, w8, s8) && ({
                                                            ||| self.9.err(s8, e@)
                                                            ||| exists|w9: W, s9: Seq<char>|
                                                                #[trigger] self.9.ok(s8, w9, s9) && ({
                                                                self.10.err(s9, e@)
                                                                })
                                                            })
                                                        })
                                                    })
                                                })
                                            })
                                        })
                                    })
                                })
                            })
                    });
                }
                return Err(e);
            },
        };
        let (v4, r4) = match self.4.parse(r3) {
            Ok(x) => x,
            Err(e) => {
                proof {
                    assert({
                        ||| self.3.err(r2@, e@)
                        ||| exists|w3: Q, s3: Seq<char>|
                            #[trigger] self.3.ok(r2@, w3, s3) && ({
                            ||| self.4.err(s3, e@)
                            ||| exists|w4: R, s4: Seq<char>|
                                #[trigger] self.4.ok(s3, w4, s4) && ({
                                ||| self.5.err(s4, e@)
                                ||| exists|w5: S, s5: Seq<char>|
                                    #[trigger] self.5.ok(s4, w5, s5) && ({
                                    ||| self.6.err(s5, e@)
                                    ||| exists|w6: T, s6: Seq<char>|
                                        #[trigger] self.6.ok(s5, w6, s6) && ({
                                        ||| self.7.err(s6, e@)
                                        ||| exists|w7: U, s7: Seq<char>|
                                            #[trigger] self.7.ok(s6, w7, s7) && ({
                                            ||| self.8.err(s7, e@)
                                            ||| exists|w8: V, s8: Seq<char>|
                                                #[trigger] self.8.ok(s7, w8, s8) && ({
                                                ||| self.9.err(s8, e@)
                                                ||| exists|w9: W, s9: Seq<char>|
                                                    #[trigger] self.9.ok(s8, w9, s9) && ({
                                                    self.10.err(s9, e@)
                                                    })
                                                })
                                            })
                                        })
                                    })
                                })
                            })
                    });
                    assert({
                        ||| self.2.err(r1@, e@)
                        ||| exists|w2: P, s2: Seq<char>|
                            #[trigger] self.2.ok(r1@, w2, s2) && ({
                            ||| self.3.err(s2, e@)
                            ||| exists|w3: Q, s3: Seq<char>|
                                #[trigger] self.3.ok(s2, w3, s3) && ({
                                ||| self.4.err(s3, e@)
                                ||| exists|w4: R, s4: Seq<char>|
                                    #[trigger] self.4.ok(s3, w4, s4) && ({
                                    ||| self.5.err(s4, e@)
                                    ||| exists|w5: S, s5: Seq<char>|
                                        #[trigger] self.5.ok(s4, w5, s5) && ({
                                        ||| self.6.err(s5, e@)
                                        ||| exists|w6: T, s6: Seq<char>|
                                            #[trigger] self.6.ok(s5, w6, s6) && ({
                                            ||| self.7.err(s6, e@)
                                            ||| exists|w7: U, s7: Seq<char>|
                                                #[trigger] self.7.ok(s6, w7, s7) && ({
                                                ||| self.8.err(s7, e@)
                                                ||| exists|w8: V, s8: Seq<char>|
                                                    #[trigger] self.8.ok(s7, w8, s8) && ({
                                                    ||| self.9.err(s8, e@)
                                                    ||| exists|w9: W, s9: Seq<char>|
                                                        #[trigger] self.9.ok(s8, w9, s9) && ({
                                                        self.10.err(s9, e@)
                                                        })
                                                    })
                                                })
                                            })
                                        })
                                    })
                                })
                            })
                    });
                    assert({
                        ||| self.1.err(r0@, e@)
                        ||| exists|w1: O, s1: Seq<char>|
                            #[trigger] self.1.ok(r0@, w1, s1) && ({
                            ||| self.2.err(s1, e@)
                            ||| exists|w2: P, s2: Seq<char>|
                                #[trigger] self.2.ok(s1, w2, s2) && ({
                                ||| self.3.err(s2, e@)
                                ||| exists|w3: Q, s3: Seq<char>|
                                    #[trigger] self.3.ok(s2, w3, s3) && ({
                                    ||| self.4.err(s3, e@)
                                    ||| exists|w4: R, s4: Seq<char>|
                                        #[trigger] self.4.ok(s3, w4, s4) && ({
                                        ||| self.5.err(s4, e@)
                                        ||| exists|w5: S, s5: Seq<char>|
                                            #[trigger] self.5.ok(s4, w5, s5) && ({
                                            ||| self.6.err(s5, e@)
                                            ||| exists|w6: T, s6: Seq<char>|
                                                #[trigger] self.6.ok(s5, w6, s6) && ({
                                                ||| self.7.err(s6, e@)
                                                ||| exists|w7: U, s7: Seq<char>|
                                                    #[trigger] self.7.ok(s6, w7, s7) && ({
                                                    ||| self.8.err(s7, e@)
                                                    ||| exists|w8: V, s8: Seq<char>|
                                                        #[trigger] self.8.ok(s7, w8, s8) && ({
                                                        ||| self.9.err(s8, e@)
                                                        ||| exists|w9: W, s9: Seq<char>|
                                                            #[trigger] self.9.ok(s8, w9, s9) && ({
                                                            self.10.err(s9, e@)
                                                            })
                                                        })
                                                    })
                                                })
                                            })
                                        })
                                    })
                                })
                            })
                    });
                    assert({
                        ||| self.0.err(input@, e@)
                        ||| exists|w0: N, s0: Seq<char>|
                            #[trigger] self.0.ok(input@, w0, s0) && ({
                            ||| self.1.err(s0, e@)
                            ||| exists|w1: O, s1: Seq<char>|
                                #[trigger] self.1.ok(s0, w1, s1) && ({
                                ||| self.2.err(s1, e@)
                                ||| exists|w2: P, s2: Seq<char>|
                                    #[trigger] self.2.ok(s1, w2, s2) && ({
                                    ||| self.3.err(s2, e@)
                                    ||| exists|w3: Q, s3: Seq<char>|
                                        #[trigger] self.3.ok(s2, w3, s3) && ({
                                        ||| self.4.err(s3, e@)
                                        ||| exists|w4: R, s4: Seq<char>|
                                            #[trigger] self.4.ok(s3, w4, s4) && ({
                                            ||| self.5.err(s4, e@)
                                            ||| exists|w5: S, s5: Seq<char>|
                                                #[trigger] self.5.ok(s4, w5, s5) && ({
                                                ||| self.6.err(s5, e@)
                                                ||| exists|w6: T, s6: Seq<char>|
                                                    #[trigger] self.6.ok(s5, w6, s6) && ({
                                                    ||| self.7.err(s6, e@)
                                                    ||| exists|w7: U, s7: Seq<char>|
                                                        #[trigger] self.7.ok(s6, w7, s7) && ({
                                                        ||| self.8.err(s7, e@)
                                                        ||| exists|w8: V, s8: Seq<char>|
                                                            #[trigger] self.8.ok(s7, w8, s8) && ({
                                                            ||| self.9.err(s8, e@)
                                                            ||| exists|w9: W, s9: Seq<char>|
                                                                #[trigger] self.9.ok(s8, w9, s9) && ({
                                                                self.10.err(s9, e@)
                                                                })
                                                            })
                                                        })
                                                    })
                                                })
                                            })
                                        })
                                    })
                                })
                            })
                    });
                }
                return Err(e);
            },
        };
        let (v5, r5) = match self.5.parse(r4) {
            Ok(x) => x,
            Err(e) => {
                proof {
                    assert({
                        ||| self.4.err(r3@, e@)
                        ||| exists|w4: R, s4: Seq<char>|
                            #[trigger] self.4.ok(r3@, w4, s4) && ({
                            ||| self.5.err(s4, e@)
                            ||| exists|w5: S, s5: Seq<char>|
                                #[trigger] self.5.ok(s4, w5, s5) && ({
                                ||| self.6.err(s5, e@)
                                ||| exists|w6: T, s6: Seq<char>|
                                    #[trigger] self.6.ok(s5, w6, s6) && ({
                                    ||| self.7.err(s6, e@)
                                    ||| exists|w7: U, s7: Seq<char>|
                                        #[trigger] self.7.ok(s6, w7, s7) && ({
                                        ||| self.8.err(s7, e@)
                                        ||| exists|w8: V, s8: Seq<char>|
                                            #[trigger] self.8.ok(s7, w8, s8) && ({
                                            ||| self.9.err(s8, e@)
                                            ||| exists|w9: W, s9: Seq<char>|
                                                #[trigger] self.9.ok(s8, w9, s9) && ({
                                                self.10.err(s9, e@)
                                                })
                                            })
                                        })
                                    })
                                })
                            })
                    });
                    assert({
                        ||| self.3.err(r2@, e@)
                        ||| exists|w3: Q, s3: Seq<char>|
                            #[trigger] self.3.ok(r2@, w3, s3) && ({
                            ||| self.4.err(s3, e@)
                            ||| exists|w4: R, s4: Seq<char>|
                                #[trigger] self.4.ok(s3, w4, s4) && ({
                                ||| self.5.err(s4, e@)
                                ||| exists|w5: S, s5: Seq<char>|
                                    #[trigger] self.5.ok(s4, w5, s5) && ({
                                    ||| self.6.err(s5, e@)
                                    ||| exists|w6: T, s6: Seq<char>|
                                        #[trigger] self.6.ok(s5, w6, s6) && ({
                                        ||| self.7.err(s6, e@)
                                        ||| exists|w7: U, s7: Seq<char>|
                                            #[trigger] self.7.ok(s6, w7, s7) && ({
                                            ||| self.8.err(s7, e@)
                                            ||| exists|w8: V, s8: Seq<char>|
                                                #[trigger] self.8.ok(s7, w8, s8) && ({
                                                ||| self.9.err(s8, e@)
                                                ||| exists|w9: W, s9: Seq<char>|
                                                    #[trigger] self.9.ok(s8, w9, s9) && ({
                                                    self.10.err(s9, e@)
                                                    })
                                                })
                                            })
                                        })
                                    })
                                })
                            })
                    });
                    assert({
                        ||| self.2.err(r1@, e@)
                        ||| exists|w2: P, s2: Seq<char>|
                            #[trigger] self.2.ok(r1@, w2, s2) && ({
                            ||| self.3.err(s2, e@)
                            ||| exists|w3: Q, s3: Seq<char>|
                                #[trigger] self.3.ok(s2, w3, s3) && ({
                                ||| self.4.err(s3, e@)
                                ||| exists|w4: R, s4: Seq<char>|
                                    #[trigger] self.4.ok(s3, w4, s4) && ({
                                    ||| self.5.err(s4, e@)
                                    ||| exists|w5: S, s5: Seq<char>|
                                        #[trigger] self.5.ok(s4, w5, s5) && ({
                                        ||| self.6.err(s5, e@)
                                        ||| exists|w6: T, s6: Seq<char>|
                                            #[trigger] self.6.ok(s5, w6, s6) && ({
                                            ||| self.7.err(s6, e@)
                                            ||| exists|w7: U, s7: Seq<char>|
                                                #[trigger] self.7.ok(s6, w7, s7) && ({
                                                ||| self.8.err(s7, e@)
                                                ||| exists|w8: V, s8: Seq<char>|
                                                    #[trigger] self.8.ok(s7, w8, s8) && ({
                                                    ||| self.9.err(s8, e@)
                                                    ||| exists|w9: W, s9: Seq<char>|
                                                        #[trigger] self.9.ok(s8, w9, s9) && ({
                                                        self.10.err(s9, e@)
                                                        })
                                                    })
                                                })
                                            })
                                        })
                                    })
                                })
                            })
                    });
                    assert({
                        ||| self.1.err(r0@, e@)
                        ||| exists|w1: O, s1: Seq<char>|
                            #[trigger] self.1.ok(r0@, w1, s1) && ({
                            ||| self.2.err(s1, e@)
                            ||| exists|w2: P, s2: Seq<char>|
                                #[trigger] self.2.ok(s1, w2, s2) && ({
                                ||| self.3.err(s2, e@)
                                ||| exists|w3: Q, s3: Seq<char>|
                                    #[trigger] self.3.ok(s2, w3, s3) && ({
                                    ||| self.4.err(s3, e@)
                                    ||| exists|w4: R, s4: Seq<char>|
                                        #[trigger] self.4.ok(s3, w4, s4) && ({
                                        ||| self.5.err(s4, e@)
                                        ||| exists|w5: S, s5: Seq<char>|
                                            #[trigger] self.5.ok(s4, w5, s5) && ({
                                            ||| self.6.err(s5, e@)
                                            ||| exists|w6: T, s6: Seq<char>|
                                                #[trigger] self.6.ok(s5, w6, s6) && ({
                                                ||| self.7.err(s6, e@)
                                                ||| exists|w7: U, s7: Seq<char>|
                                                    #[trigger] self.7.ok(s6, w7, s7) && ({
                                                    ||| self.8.err(s7, e@)
                                                    ||| exists|w8: V, s8: Seq<char>|
                                                        #[trigger] self.8.ok(s7, w8, s8) && ({
                                                        ||| self.9.err(s8, e@)
                                                        ||| exists|w9: W, s9: Seq<char>|
                                                            #[trigger] self.9.ok(s8, w9, s9) && ({
                                                            self.10.err(s9, e@)
                                                            })
                                                        })
                                                    })
                                                })
                                            })
                                        })
                                    })
                                })
                            })
                    });
                    assert({
                        ||| self.0.err(input@, e@)
                        ||| exists|w0: N, s0: Seq<char>|
                            #[trigger] self.0.ok(input@, w0, s0) && ({
                            ||| self.1.err(s0, e@)
                            ||| exists|w1: O, s1: Seq<char>|
                                #[trigger] self.1.ok(s0, w1, s1) && ({
                                ||| self.2.err(s1, e@)
                                ||| exists|w2: P, s2: Seq<char>|
                                    #[trigger] self.2.ok(s1, w2, s2) && ({
                                    ||| self.3.err(s2, e@)
                                    ||| exists|w3: Q, s3: Seq<char>|
                                        #[trigger] self.3.ok(s2, w3, s3) && ({
                                        ||| self.4.err(s3, e@)
                                        ||| exists|w4: R, s4: Seq<char>|
                                            #[trigger] self.4.ok(s3, w4, s4) && ({
                                            ||| self.5.err(s4, e@)
                                            ||| exists|w5: S, s5: Seq<char>|
                                                #[trigger] self.5.ok(s4, w5, s5) && ({
                                                ||| self.6.err(s5, e@)
                                                ||| exists|w6: T, s6: Seq<char>|
                                                    #[trigger] self.6.ok(s5, w6, s6) && ({
                                                    ||| self.7.err(s6, e@)
                                                    ||| exists|w7: U, s7: Seq<char>|
                                                        #[trigger] self.7.ok(s6, w7, s7) && ({
                                                        ||| self.8.err(s7, e@)
                                                        ||| exists|w8: V, s8: Seq<char>|
                                                            #[trigger] self.8.ok(s7, w8, s8) && ({
                                                            ||| self.9.err(s8, e@)
                                                            ||| exists|w9: W, s9: Seq<char>|
                                                                #[trigger] self.9.ok(s8, w9, s9) && ({
                                                                self.10.err(s9, e@)
                                                                })
                                                            })
                                                        })
                                                    })
                                                })
                                            })
                                        })
                                    })
                                })
                            })
                    });
                }
                return Err(e);
            },
        };
        let (v6, r6) = match self.6.parse(r5) {
            Ok(x) => x,
            Err(e) => {
                proof {
                    assert({
                        ||| self.5.err(r4@, e@)
                        ||| exists|w5: S, s5: Seq<char>|
                            #[trigger] self.5.ok(r4@, w5, s5) && ({
                            ||| self.6.err(s5, e@)
                            ||| exists|w6: T, s6: Seq<char>|
                                #[trigger] self.6.ok(s5, w6, s6) && ({
                                ||| self.7.err(s6, e@)
                                ||| exists|w7: U, s7: Seq<char>|
                                    #[trigger] self.7.ok(s6, w7, s7) && ({
                                    ||| self.8.err(s7, e@)
                                    ||| exists|w8: V, s8: Seq<char>|
                                        #[trigger] self.8.ok(s7, w8, s8) && ({
                                        ||| self.9.err(s8, e@)
                                        ||| exists|w9: W, s9: Seq<char>|
                                            #[trigger] self.9.ok(s8, w9, s9) && ({
                                            self.10.err(s9, e@)
                                            })
                                        })
                                    })
                                })
                            })
                    });
                    assert({
                        ||| self.4.err(r3@, e@)
                        ||| exists|w4: R, s4: Seq<char>|
                            #[trigger] self.4.ok(r3@, w4, s4) && ({
                            ||| self.5.err(s4, e@)
                            ||| exists|w5: S, s5: Seq<char>|
                                #[trigger] self.5.ok(s4, w5, s5) && ({
                                ||| self.6.err(s5, e@)
                                ||| exists|w6: T, s6: Seq<char>|
                                    #[trigger] self.6.ok(s5, w6, s6) && ({
                                    ||| self.7.err(s6, e@)
                                    ||| exists|w7: U, s7: Seq<char>|
                                        #[trigger] self.7.ok(s6, w7, s7) && ({
                                        ||| self.8.err(s7, e@)
                                        ||| exists|w8: V, s8: Seq<char>|
                                            #[trigger] self.8.ok(s7, w8, s8) && ({
                                            ||| self.9.err(s8, e@)
                                            ||| exists|w9: W, s9: Seq<char>|
                                                #[trigger] self.9.ok(s8, w9, s9) && ({
                                                self.10.err(s9, e@)
                                                })
                                            })
                                        })
                                    })
                                })
                            })
                    });
                    assert({
                        ||| self.3.err(r2@, e@)
                        ||| exists|w3: Q, s3: Seq<char>|
                            #[trigger] self.3.ok(r2@, w3, s3) && ({
                            ||| self.4.err(s3, e@)
                            ||| exists|w4: R, s4: Seq<char>|
                                #[trigger] self.4.ok(s3, w4, s4) && ({
                                ||| self.5.err(s4, e@)
                                ||| exists|w5: S, s5: Seq<char>|
                                    #[trigger] self.5.ok(s4, w5, s5) && ({
                                    ||| self.6.err(s5, e@)
                                    ||| exists|w6: T, s6: Seq<char>|
                                        #[trigger] self.6.ok(s5, w6, s6) && ({
                                        ||| self.7.err(s6, e@)
                                        ||| exists|w7: U, s7: Seq<char>|
                                            #[trigger] self.7.ok(s6, w7, s7) && ({
                                            ||| self.8.err(s7, e@)
                                            ||| exists|w8: V, s8: Seq<char>|
                                                #[trigger] self.8.ok(s7, w8, s8) && ({
                                                ||| self.9.err(s8, e@)
                                                ||| exists|w9: W, s9: Seq<char>|
                                                    #[trigger] self.9.ok(s8, w9, s9) && ({
                                                    self.10.err(s9, e@)
                                                    })
                                                })
                                            })
                                        })
                                    })
                                })
                            })
                    });
                    assert({
                        ||| self.2.err(r1@, e@)
                        ||| exists|w2: P, s2: Seq<char>|
                            #[trigger] self.2.ok(r1@, w2, s2) && ({
                            ||| self.3.err(s2, e@)
                            ||| exists|w3: Q, s3: Seq<char>|
                                #[trigger] self.3.ok(s2, w3, s3) && ({
                                ||| self.4.err(s3, e@)
                                ||| exists|w4: R, s4: Seq<char>|
                                    #[trigger] self.4.ok(s3, w4, s4) && ({
                                    ||| self.5.err(s4, e@)
                                    ||| exists|w5: S, s5: Seq<char>|
                                        #[trigger] self.5.ok(s4, w5, s5) && ({
                                        ||| self.6.err(s5, e@)
                                        ||| exists|w6: T, s6: Seq<char>|
                                            #[trigger] self.6.ok(s5, w6, s6) && ({
                                            ||| self.7.err(s6, e@)
                                            ||| exists|w7: U, s7: Seq<char>|
                                                #[trigger] self.7.ok(s6, w7, s7) && ({
                                                ||| self.8.err(s7, e@)
                                                ||| exists|w8: V, s8: Seq<char>|
                                                    #[trigger] self.8.ok(s7, w8, s8) && ({
                                                    ||| self.9.err(s8, e@)
                                                    ||| exists|w9: W, s9: Seq<char>|
                                                        #[trigger] self.9.ok(s8, w9, s9) && ({
                                                        self.10.err(s9, e@)
                                                        })
                                                    })
                                                })
                                            })
                                        })
                                    })
                                })
                            })
                    });
                    assert({
                        ||| self.1.err(r0@, e@)
                        ||| exists|w1: O, s1: Seq<char>|
                            #[trigger] self.1.ok(r0@, w1, s1) && ({
                            ||| self.2.err(s1, e@)
                            ||| exists|w2: P, s2: Seq<char>|
                                #[trigger] self.2.ok(s1, w2, s2) && ({
                                ||| self.3.err(s2, e@)
                                ||| exists|w3: Q, s3: Seq<char>|
                                    #[trigger] self.3.ok(s2, w3, s3) && ({
                                    ||| self.4.err(s3, e@)
                                    ||| exists|w4: R, s4: Seq<char>|
                                        #[trigger] self.4.ok(s3, w4, s4) && ({
                                        ||| self.5.err(s4, e@)
                                        ||| exists|w5: S, s5: Seq<char>|
                                            #[trigger] self.5.ok(s4, w5, s5) && ({
                                            ||| self.6.err(s5, e@)
                                            ||| exists|w6: T, s6: Seq<char>|
                                                #[trigger] self.6.ok(s5, w6, s6) && ({
                                                ||| self.7.err(s6, e@)
                                                ||| exists|w7: U, s7: Seq<char>|
                                                    #[trigger] self.7.ok(s6, w7, s7) && ({
                                                    ||| self.8.err(s7, e@)
                                                    ||| exists|w8: V, s8: Seq<char>|
                                                        #[trigger] self.8.ok(s7, w8, s8) && ({
                                                        ||| self.9.err(s8, e@)
                                                        ||| exists|w9: W, s9: Seq<char>|
                                                            #[trigger] self.9.ok(s8, w9, s9) && ({
                                                            self.10.err(s9, e@)
                                                            })
                                                        })
                                                    })
                                                })
                                            })
                                        })
                                    })
                                })
                            })
                    });
                    assert({
                        ||| self.0.err(input@, e@)
                        ||| exists|w0: N, s0: Seq<char>|
                            #[trigger] self.0.ok(input@, w0, s0) && ({
                            ||| self.1.err(s0, e@)
                            ||| exists|w1: O, s1: Seq<char>|
                                #[trigger] self.1.ok(s0, w1, s1) && ({
                                ||| self.2.err(s1, e@)
                                ||| exists|w2: P, s2: Seq<char>|
                                    #[trigger] self.2.ok(s1, w2, s2) && ({
                                    ||| self.3.err(s2, e@)
                                    ||| exists|w3: Q, s3: Seq<char>|
                                        #[trigger] self.3.ok(s2, w3, s3) && ({
                                        ||| self.4.err(s3, e@)
                                        ||| exists|w4: R, s4: Seq<char>|
                                            #[trigger] self.4.ok(s3, w4, s4) && ({
                                            ||| self.5.err(s4, e@)
                                            ||| exists|w5: S, s5: Seq<char>|
                                                #[trigger] self.5.ok(s4, w5, s5) && ({
                                                ||| self.6.err(s5, e@)
                                                ||| exists|w6: T, s6: Seq<char>|
                                                    #[trigger] self.6.ok(s5, w6, s6) && ({
                                                    ||| self.7.err(s6, e@)
                                                    ||| exists|w7: U, s7: Seq<char>|
                                                        #[trigger] self.7.ok(s6, w7, s7) && ({
                                                        ||| self.8.err(s7, e@)
                                                        ||| exists|w8: V, s8: Seq<char>|
                                                            #[trigger] self.8.ok(s7, w8, s8) && ({
                                                            ||| self.9.err(s8, e@)
                                                            ||| exists|w9: W, s9: Seq<char>|
                                                                #[trigger] self.9.ok(s8, w9, s9) && ({
                                                                self.10.err(s9, e@)
                                                                })
                                                            })
                                                        })
                                                    })
                                                })
                                            })
                                        })
                                    })
                                })
                            })
                    });
                }
                return Err(e);
            },
        };
        let (v7, r7) = match self.7.parse(r6) {
            Ok(x) => x,
            Err(e) => {
                proof {
                    assert({
                        ||| self.6.err(r5@, e@)
                        ||| exists|w6: T, s6: Seq<char>|
                            #[trigger] self.6.ok(r5@, w6, s6) && ({
                            ||| self.7.err(s6, e@)
                            ||| exists|w7: U, s7: Seq<char>|
                                #[trigger] self.7.ok(s6, w7, s7) && ({
                                ||| self.8.err(s7, e@)
                                ||| exists|w8: V, s8: Seq<char>|
                                    #[trigger] self.8.ok(s7, w8, s8) && ({
                                    ||| self.9.err(s8, e@)
                                    ||| exists|w9: W, s9: Seq<char>|
                                        #[trigger] self.9.ok(s8, w9, s9) && ({
                                        self.10.err(s9, e@)
                                        })
                                    })
                                })
                            })
                    });
                    assert({
                        ||| self.5.err(r4@, e@)
                        ||| exists|w5: S, s5: Seq<char>|
                            #[trigger] self.5.ok(r4@, w5, s5) && ({
                            ||| self.6.err(s5, e@)
                            ||| exists|w6: T, s6: Seq<char>|
                                #[trigger] self.6.ok(s5, w6, s6) && ({
                                ||| self.7.err(s6, e@)
                                ||| exists|w7: U, s7: Seq<char>|
                                    #[trigger] self.7.ok(s6, w7, s7) && ({
                                    ||| self.8.err(s7, e@)
                                    ||| exists|w8: V, s8: Seq<char>|
                                        #[trigger] self.8.ok(s7, w8, s8) && ({
                                        ||| self.9.err(s8, e@)
                                        ||| exists|w9: W, s9: Seq<char>|
                                            #[trigger] self.9.ok(s8, w9, s9) && ({
                                            self.10.err(s9, e@)
                                            })
                                        })
                                    })
                                })
                            })
                    });
                    assert({
                        ||| self.4.err(r3@, e@)
                        ||| exists|w4: R, s4: Seq<char>|
                            #[trigger] self.4.ok(r3@, w4, s4) && ({
                            ||| self.5.err(s4, e@)
                            ||| exists|w5: S, s5: Seq<char>|
                                #[trigger] self.5.ok(s4, w5, s5) && ({
                                ||| self.6.err(s5, e@)
                                ||| exists|w6: T, s6: Seq<char>|
                                    #[trigger] self.6.ok(s5, w6, s6) && ({
                                    ||| self.7.err(s6, e@)
                                    ||| exists|w7: U, s7: Seq<char>|
                                        #[trigger] self.7.ok(s6, w7, s7) && ({
                                        ||| self.8.err(s7, e@)
                                        ||| exists|w8: V, s8: Seq<char>|
                                            #[trigger] self.8.ok(s7, w8, s8) && ({
                                            ||| self.9.err(s8, e@)
                                            ||| exists|w9: W, s9: Seq<char>|
                                                #[trigger] self.9.ok(s8, w9, s9) && ({
                                                self.10.err(s9, e@)
                                                })
                                            })
                                        })
                                    })
                                })
                            })
                    });
                    assert({
                        ||| self.3.err(r2@, e@)
                        ||| exists|w3: Q, s3: Seq<char>|
                            #[trigger] self.3.ok(r2@, w3, s3) && ({
                            ||| self.4.err(s3, e@)
                            ||| exists|w4: R, s4: Seq<char>|
                                #[trigger] self.4.ok(s3, w4, s4) && ({
                                ||| self.5.err(s4, e@)
                                ||| exists|w5: S, s5: Seq<char>|
                                    #[trigger] self.5.ok(s4, w5, s5) && ({
                                    ||| self.6.err(s5, e@)
                                    ||| exists|w6: T, s6: Seq<char>|
                                        #[trigger] self.6.ok(s5, w6, s6) && ({
                                        ||| self.7.err(s6, e@)
                                        ||| exists|w7: U, s7: Seq<char>|
                                            #[trigger] self.7.ok(s6, w7, s7) && ({
                                            ||| self.8.err(s7, e@)
                                            ||| exists|w8: V, s8: Seq<char>|
                                                #[trigger] self.8.ok(s7, w8, s8) && ({
                                                ||| self.9.err(s8, e@)
                                                ||| exists|w9: W, s9: Seq<char>|
                                                    #[trigger] self.9.ok(s8, w9, s9) && ({
                                                    self.10.err(s9, e@)
                                                    })
                                                })
                                            })
                                        })
                                    })
                                })
                            })
                    });
                    assert({
                        ||| self.2.err(r1@, e@)
                        ||| exists|w2: P, s2: Seq<char>|
                            #[trigger] self.2.ok(r1@, w2, s2) && ({
                            ||| self.3.err(s2, e@)
                            ||| exists|w3: Q, s3: Seq<char>|
                                #[trigger] self.3.ok(s2, w3, s3) && ({
                                ||| self.4.err(s3, e@)
                                ||| exists|w4: R, s4: Seq<char>|
                                    #[trigger] self.4.ok(s3, w4, s4) && ({
                                    ||| self.5.err(s4, e@)
                                    ||| exists|w5: S, s5: Seq<char>|
                                        #[trigger] self.5.ok(s4, w5, s5) && ({
                                        ||| self.6.err(s5, e@)
                                        ||| exists|w6: T, s6: Seq<char>|
                                            #[trigger] self.6.ok(s5, w6, s6) && ({
                                            ||| self.7.err(s6, e@)
                                            ||| exists|w7: U, s7: Seq<char>|
                                                #[trigger] self.7.ok(s6, w7, s7) && ({
                                                ||| self.8.err(s7, e@)
                                                ||| exists|w8: V, s8: Seq<char>|
                                                    #[trigger] self.8.ok(s7, w8, s8) && ({
                                                    ||| self.9.err(s8, e@)
                                                    ||| exists|w9: W, s9: Seq<char>|
                                                        #[trigger] self.9.ok(s8, w9, s9) && ({
                                                        self.10.err(s9, e@)
                                                        })
                                                    })
                                                })
                                            })
                                        })
                                    })
                                })
                            })
                    });
                    assert({
                        ||| self.1.err(r0@, e@)
                        ||| exists|w1: O, s1: Seq<char>|
                            #[trigger] self.1.ok(r0@, w1, s1) && ({
                            ||| self.2.err(s1, e@)
                            ||| exists|w2: P, s2: Seq<char>|
                                #[trigger] self.2.ok(s1, w2, s2) && ({
                                ||| self.3.err(s2, e@)
                                ||| exists|w3: Q, s3: Seq<char>|
                                    #[trigger] self.3.ok(s2, w3, s3) && ({
                                    ||| self.4.err(s3, e@)
                                    ||| exists|w4: R, s4: Seq<char>|
                                        #[trigger] self.4.ok(s3, w4, s4) && ({
                                        ||| self.5.err(s4, e@)
                                        ||| exists|w5: S, s5: Seq<char>|
                                            #[trigger] self.5.ok(s4, w5, s5) && ({
                                            ||| self.6.err(s5, e@)
                                            ||| exists|w6: T, s6: Seq<char>|
                                                #[trigger] self.6.ok(s5, w6, s6) && ({
                                                ||| self.7.err(s6, e@)
                                                ||| exists|w7: U, s7: Seq<char>|
                                                    #[trigger] self.7.ok(s6, w7, s7) && ({
                                                    ||| self.8.err(s7, e@)
                                                    ||| exists|w8: V, s8: Seq<char>|
                                                        #[trigger] self.8.ok(s7, w8, s8) && ({
                                                        ||| self.9.err(s8, e@)
                                                        ||| exists|w9: W, s9: Seq<char>|
                                                            #[trigger] self.9.ok(s8, w9, s9) && ({
                                                            self.10.err(s9, e@)
                                                            })
                                                        })
                                                    })
                                                })
                                            })
                                        })
                                    })
                                })
                            })
                    });
                    assert({
                        ||| self.0.err(input@, e@)
                        ||| exists|w0: N, s0: Seq<char>|
                            #[trigger] self.0.ok(input@, w0, s0) && ({
                            ||| self.1.err(s0, e@)
                            ||| exists|w1: O, s1: Seq<char>|
                                #[trigger] self.1.ok(s0, w1, s1) && ({
                                ||| self.2.err(s1, e@)
                                ||| exists|w2: P, s2: Seq<char>|
                                    #[trigger] self.2.ok(s1, w2, s2) && ({
                                    ||| self.3.err(s2, e@)
                                    ||| exists|w3: Q, s3: Seq<char>|
                                        #[trigger] self.3.ok(s2, w3, s3) && ({
                                        ||| self.4.err(s3, e@)
                                        ||| exists|w4: R, s4: Seq<char>|
                                            #[trigger] self.4.ok(s3, w4, s4) && ({
                                            ||| self.5.err(s4, e@)
                                            ||| exists|w5: S, s5: Seq<char>|
                                                #[trigger] self.5.ok(s4, w5, s5) && ({
                                                ||| self.6.err(s5, e@)
                                                ||| exists|w6: T, s6: Seq<char>|
                                                    #[trigger] self.6.ok(s5, w6, s6) && ({
                                                    ||| self.7.err(s6, e@)
                                                    ||| exists|w7: U, s7: Seq<char>|
                                                        #[trigger] self.7.ok(s6, w7, s7) && ({
                                                        ||| self.8.err(s7, e@)
                                                        ||| exists|w8: V, s8: Seq<char>|
                                                            #[trigger] self.8.ok(s7, w8, s8) && ({
                                                            ||| self.9.err(s8, e@)
                                                            ||| exists|w9: W, s9: Seq<char>|
                                                                #[trigger] self.9.ok(s8, w9, s9) && ({
                                                                self.10.err(s9, e@)
                                                                })
                                                            })
                                                        })
                                                    })
                                                })
                                            })
                                        })
                                    })
                                })
                            })
                    });
                }
                return Err(e);
            },
        };
        let (v8, r8) = match self.8.parse(r7) {
            Ok(x) => x,
            Err(e) => {
                proof {
                    assert({
                        ||| self.7.err(r6@, e@)
                        ||| exists|w7: U, s7: Seq<char>|
                            #[trigger] self.7.ok(r6@, w7, s7) && ({
                            ||| self.8.err(s7, e@)
                            ||| exists|w8: V, s8: Seq<char>|
                                #[trigger] self.8.ok(s7, w8, s8) && ({
                                ||| self.9.err(s8, e@)
                                ||| exists|w9: W, s9: Seq<char>|
                                    #[trigger] self.9.ok(s8, w9, s9) && ({
                                    self.10.err(s9, e@)
                                    })
                                })
                            })
                    });
                    assert({
                        ||| self.6.err(r5@, e@)
                        ||| exists|w6: T, s6: Seq<char>|
                            #[trigger] self.6.ok(r5@, w6, s6) && ({
                            ||| self.7.err(s6, e@)
                            ||| exists|w7: U, s7: Seq<char>|
                                #[trigger] self.7.ok(s6, w7, s7) && ({
                                ||| self.8.err(s7, e@)
                                ||| exists|w8: V, s8: Seq<char>|
                                    #[trigger] self.8.ok(s7, w8, s8) && ({
                                    ||| self.9.err(s8, e@)
                                    ||| exists|w9: W, s9: Seq<char>|
                                        #[trigger] self.9.ok(s8, w9, s9) && ({
                                        self.10.err(s9, e@)
                                        })
                                    })
                                })
                            })
                    });
                    assert({
                        ||| self.5.err(r4@, e@)
                        ||| exists|w5: S, s5: Seq<char>|
                            #[trigger] self.5.ok(r4@, w5, s5) && ({
                            ||| self.6.err(s5, e@)
                            ||| exists|w6: T, s6: Seq<char>|
                                #[trigger] self.6.ok(s5, w6, s6) && ({
                                ||| self.7.err(s6, e@)
                                ||| exists|w7: U, s7: Seq<char>|
                                    #[trigger] self.7.ok(s6, w7, s7) && ({
                                    ||| self.8.err(s7, e@)
                                    ||| exists|w8: V, s8: Seq<char>|
                                        #[trigger] self.8.ok(s7, w8, s8) && ({
                                        ||| self.9.err(s8, e@)
                                        ||| exists|w9: W, s9: Seq<char>|
                                            #[trigger] self.9.ok(s8, w9, s9) && ({
                                            self.10.err(s9, e@)
                                            })
                                        })
                                    })
                                })
                            })
                    });
                    assert({
                        ||| self.4.err(r3@, e@)
                        ||| exists|w4: R, s4: Seq<char>|
                            #[trigger] self.4.ok(r3@, w4, s4) && ({
                            ||| self.5.err(s4, e@)
                            ||| exists|w5: S, s5: Seq<char>|
                                #[trigger] self.5.ok(s4, w5, s5) && ({
                                ||| self.6.err(s5, e@)
                                ||| exists|w6: T, s6: Seq<char>|
                                    #[trigger] self.6.ok(s5, w6, s6) && ({
                                    ||| self.7.err(s6, e@)
                                    ||| exists|w7: U, s7: Seq<char>|
                                        #[trigger] self.7.ok(s6, w7, s7) && ({
                                        ||| self.8.err(s7, e@)
                                        ||| exists|w8: V, s8: Seq<char>|
                                            #[trigger] self.8.ok(s7, w8, s8) && ({
                                            ||| self.9.err(s8, e@)
                                            ||| exists|w9: W, s9: Seq<char>|
                                                #[trigger] self.9.ok(s8, w9, s9) && ({
                                                self.10.err(s9, e@)
                                                })
                                            })
                                        })
                                    })
                                })
                            })
                    });
                    assert({
                        ||| self.3.err(r2@, e@)
                        ||| exists|w3: Q, s3: Seq<char>|
                            #[trigger] self.3.ok(r2@, w3, s3) && ({
                            ||| self.4.err(s3, e@)
                            ||| exists|w4: R, s4: Seq<char>|
                                #[trigger] self.4.ok(s3, w4, s4) && ({
                                ||| self.5.err(s4, e@)
                                ||| exists|w5: S, s5: Seq<char>|
                                    #[trigger] self.5.ok(s4, w5, s5) && ({
                                    ||| self.6.err(s5, e@)
                                    ||| exists|w6: T, s6: Seq<char>|
                                        #[trigger] self.6.ok(s5, w6, s6) && ({
                                        ||| self.7.err(s6, e@)
                                        ||| exists|w7: U, s7: Seq<char>|
                                            #[trigger] self.7.ok(s6, w7, s7) && ({
                                            ||| self.8.err(s7, e@)
                                            ||| exists|w8: V, s8: Seq<char>|
                                                #[trigger] self.8.ok(s7, w8, s8) && ({
                                                ||| self.9.err(s8, e@)
                                                ||| exists|w9: W, s9: Seq<char>|
                                                    #[trigger] self.9.ok(s8, w9, s9) && ({
                                                    self.10.err(s9, e@)
                                                    })
                                                })
                                            })
                                        })
                                    })
                                })
                            })
                    });
                    assert({
                        ||| self.2.err(r1@, e@)
                        ||| exists|w2: P, s2: Seq<char>|
                            #[trigger] self.2.ok(r1@, w2, s2) && ({
                            ||| self.3.err(s2, e@)
                            ||| exists|w3: Q, s3: Seq<char>|
                                #[trigger] self.3.ok(s2, w3, s3) && ({
                                ||| self.4.err(s3, e@)
                                ||| exists|w4: R, s4: Seq<char>|
                                    #[trigger] self.4.ok(s3, w4, s4) && ({
                                    ||| self.5.err(s4, e@)
                                    ||| exists|w5: S, s5: Seq<char>|
                                        #[trigger] self.5.ok(s4, w5, s5) && ({
                                        ||| self.6.err(s5, e@)
                                        ||| exists|w6: T, s6: Seq<char>|
                                            #[trigger] self.6.ok(s5, w6, s6) && ({
                                            ||| self.7.err(s6, e@)
                                            ||| exists|w7: U, s7: Seq<char>|
                                                #[trigger] self.7.ok(s6, w7, s7) && ({
                                                ||| self.8.err(s7, e@)
                                                ||| exists|w8: V, s8: Seq<char>|
                                                    #[trigger] self.8.ok(s7, w8, s8) && ({
                                                    ||| self.9.err(s8, e@)
                                                    ||| exists|w9: W, s9: Seq<char>|
                                                        #[trigger] self.9.ok(s8, w9, s9) && ({
                                                        self.10.err(s9, e@)
                                                        })
                                                    })
                                                })
                                            })
                                        })
                                    })
                                })
                            })
                    });
                    assert({
                        ||| self.1.err(r0@, e@)
                        ||| exists|w1: O, s1: Seq<char>|
                            #[trigger] self.1.ok(r0@, w1, s1) && ({
                            ||| self.2.err(s1, e@)
                            ||| exists|w2: P, s2: Seq<char>|
                                #[trigger] self.2.ok(s1, w2, s2) && ({
                                ||| self.3.err(s2, e@)
                                ||| exists|w3: Q, s3: Seq<char>|
                                    #[trigger] self.3.ok(s2, w3, s3) && ({
                                    ||| self.4.err(s3, e@)
                                    ||| exists|w4: R, s4: Seq<char>|
                                        #[trigger] self.4.ok(s3, w4, s4) && ({
                                        ||| self.5.err(s4, e@)
                                        ||| exists|w5: S, s5: Seq<char>|
                                            #[trigger] self.5.ok(s4, w5, s5) && ({
                                            ||| self.6.err(s5, e@)
                                            ||| exists|w6: T, s6: Seq<char>|
                                                #[trigger] self.6.ok(s5, w6, s6) && ({
                                                ||| self.7.err(s6, e@)
                                                ||| exists|w7: U, s7: Seq<char>|
                                                    #[trigger] self.7.ok(s6, w7, s7) && ({
                                                    ||| self.8.err(s7, e@)
                                                    ||| exists|w8: V, s8: Seq<char>|
                                                        #[trigger] self.8.ok(s7, w8, s8) && ({
                                                        ||| self.9.err(s8, e@)
                                                        ||| exists|w9: W, s9: Seq<char>|
                                                            #[trigger] self.9.ok(s8, w9, s9) && ({
                                                            self.10.err(s9, e@)
                                                            })
                                                        })
                                                    })
                                                })
                                            })
                                        })
                                    })
                                })
                            })
                    });
                    assert({
                        ||| self.0.err(input@, e@)
                        ||| exists|w0: N, s0: Seq<char>|
                            #[trigger] self.0.ok(input@, w0, s0) && ({
                            ||| self.1.err(s0, e@)
                            ||| exists|w1: O, s1: Seq<char>|
                                #[trigger] self.1.ok(s0, w1, s1) && ({
                                ||| self.2.err(s1, e@)
                                ||| exists|w2: P, s2: Seq<char>|
                                    #[trigger] self.2.ok(s1, w2, s2) && ({
                                    ||| self.3.err(s2, e@)
                                    ||| exists|w3: Q, s3: Seq<char>|
                                        #[trigger] self.3.ok(s2, w3, s3) && ({
                                        ||| self.4.err(s3, e@)
                                        ||| exists|w4: R, s4: Seq<char>|
                                            #[trigger] self.4.ok(s3, w4, s4) && ({
                                            ||| self.5.err(s4, e@)
                                            ||| exists|w5: S, s5: Seq<char>|
                                                #[trigger] self.5.ok(s4, w5, s5) && ({
                                                ||| self.6.err(s5, e@)
                                                ||| exists|w6: T, s6: Seq<char>|
                                                    #[trigger] self.6.ok(s5, w6, s6) && ({
                                                    ||| self.7.err(s6, e@)
                                                    ||| exists|w7: U, s7: Seq<char>|
                                                        #[trigger] self.7.ok(s6, w7, s7) && ({
                                                        ||| self.8.err(s7, e@)
                                                        ||| exists|w8: V, s8: Seq<char>|
                                                            #[trigger] self.8.ok(s7, w8, s8) && ({
                                                            ||| self.9.err(s8, e@)
                                                            ||| exists|w9: W, s9: Seq<char>|
                                                                #[trigger] self.9.ok(s8, w9, s9) && ({
                                                                self.10.err(s9, e@)
                                                                })
                                                            })
                                                        })
                                                    })
                                                })
                                            })
                                        })
                                    })
                                })
                            })
                    });
                }
                return Err(e);
            },
        };
        let (v9, r9) = match self.9.parse(r8) {
            Ok(x) => x,
            Err(e) => {
                proof {
                    assert({
                        ||| self.8.err(r7@, e@)
                        ||| exists|w8: V, s8: Seq<char>|
                            #[trigger] self.8.ok(r7@, w8, s8) && ({
                            ||| self.9.err(s8, e@)
                            ||| exists|w9: W, s9: Seq<char>|
                                #[trigger] self.9.ok(s8, w9, s9) && ({
                                self.10.err(s9, e@)
                                })
                            })
                    });
                    assert({
                        ||| self.7.err(r6@, e@)
                        ||| exists|w7: U, s7: Seq<char>|
                            #[trigger] self.7.ok(r6@, w7, s7) && ({
                            ||| self.8.err(s7, e@)
                            ||| exists|w8: V, s8: Seq<char>|
                                #[trigger] self.8.ok(s7, w8, s8) && ({
                                ||| self.9.err(s8, e@)
                                ||| exists|w9: W, s9: Seq<char>|
                                    #[trigger] self.9.ok(s8, w9, s9) && ({
                                    self.10.err(s9, e@)
                                    })
                                })
                            })
                    });
                    assert({
                        ||| self.6.err(r5@, e@)
                        ||| exists|w6: T, s6: Seq<char>|
                            #[trigger] self.6.ok(r5@, w6, s6) && ({
                            ||| self.7.err(s6, e@)
                            ||| exists|w7: U, s7: Seq<char>|
                                #[trigger] self.7.ok(s6, w7, s7) && ({
                                ||| self.8.err(s7, e@)
                                ||| exists|w8: V, s8: Seq<char>|
                                    #[trigger] self.8.ok(s7, w8, s8) && ({
                                    ||| self.9.err(s8, e@)
                                    ||| exists|w9: W, s9: Seq<char>|
                                        #[trigger] self.9.ok(s8, w9, s9) && ({
                                        self.10.err(s9, e@)
                                        })
                                    })
                                })
                            })
                    });
                    assert({
                        ||| self.5.err(r4@, e@)
                        ||| exists|w5: S, s5: Seq<char>|
                            #[trigger] self.5.ok(r4@, w5, s5) && ({
                            ||| self.6.err(s5, e@)
                            ||| exists|w6: T, s6: Seq<char>|
                                #[trigger] self.6.ok(s5, w6, s6) && ({
                                ||| self.7.err(s6, e@)
                                ||| exists|w7: U, s7: Seq<char>|
                                    #[trigger] self.7.ok(s6, w7, s7) && ({
                                    ||| self.8.err(s7, e@)
                                    ||| exists|w8: V, s8: Seq<char>|
                                        #[trigger] self.8.ok(s7, w8, s8) && ({
                                        ||| self.9.err(s8, e@)
                                        ||| exists|w9: W, s9: Seq<char>|
                                            #[trigger] self.9.ok(s8, w9, s9) && ({
                                            self.10.err(s9, e@)
                                            })
                                        })
                                    })
                                })
                            })
                    });
                    assert({
                        ||| self.4.err(r3@, e@)
                        ||| exists|w4: R, s4: Seq<char>|
                            #[trigger] self.4.ok(r3@, w4, s4) && ({
                            ||| self.5.err(s4, e@)
                            ||| exists|w5: S, s5: Seq<char>|
                                #[trigger] self.5.ok(s4, w5, s5) && ({
                                ||| self.6.err(s5, e@)
                                ||| exists|w6: T, s6: Seq<char>|
                                    #[trigger] self.6.ok(s5, w6, s6) && ({
                                    ||| self.7.err(s6, e@)
                                    ||| exists|w7: U, s7: Seq<char>|
                                        #[trigger] self.7.ok(s6, w7, s7) && ({
                                        ||| self.8.err(s7, e@)
                                        ||| exists|w8: V, s8: Seq<char>|
                                            #[trigger] self.8.ok(s7, w8, s8) && ({
                                            ||| self.9.err(s8, e@)
                                            ||| exists|w9: W, s9: Seq<char>|
                                                #[trigger] self.9.ok(s8, w9, s9) && ({
                                                self.10.err(s9, e@)
                                                })
                                            })
                                        })
                                    })
                                })
                            })
                    });
                    assert({
                        ||| self.3.err(r2@, e@)
                        ||| exists|w3: Q, s3: Seq<char>|
                            #[trigger] self.3.ok(r2@, w3, s3) && ({
                            ||| self.4.err(s3, e@)
                            ||| exists|w4: R, s4: Seq<char>|
                                #[trigger] self.4.ok(s3, w4, s4) && ({
                                ||| self.5.err(s4, e@)
                                ||| exists|w5: S, s5: Seq<char>|
                                    #[trigger] self.5.ok(s4, w5, s5) && ({
                                    ||| self.6.err(s5, e@)
                                    ||| exists|w6: T, s6: Seq<char>|
                                        #[trigger] self.6.ok(s5, w6, s6) && ({
                                        ||| self.7.err(s6, e@)
                                        ||| exists|w7: U, s7: Seq<char>|
                                            #[trigger] self.7.ok(s6, w7, s7) && ({
                                            ||| self.8.err(s7, e@)
                                            ||| exists|w8: V, s8: Seq<char>|
                                                #[trigger] self.8.ok(s7, w8, s8) && ({
                                                ||| self.9.err(s8, e@)
                                                ||| exists|w9: W, s9: Seq<char>|
                                                    #[trigger] self.9.ok(s8, w9, s9) && ({
                                                    self.10.err(s9, e@)
                                                    })
                                                })
                                            })
                                        })
                                    })
                                })
                            })
                    });
                    assert({
                        ||| self.2.err(r1@, e@)
                        ||| exists|w2: P, s2: Seq<char>|
                            #[trigger] self.2.ok(r1@, w2, s2) && ({
                            ||| self.3.err(s2, e@)
                            ||| exists|w3: Q, s3: Seq<char>|
                                #[trigger] self.3.ok(s2, w3, s3) && ({
                                ||| self.4.err(s3, e@)
                                ||| exists|w4: R, s4: Seq<char>|
                                    #[trigger] self.4.ok(s3, w4, s4) && ({
                                    ||| self.5.err(s4, e@)
                                    ||| exists|w5: S, s5: Seq<char>|
                                        #[trigger] self.5.ok(s4, w5, s5) && ({
                                        ||| self.6.err(s5, e@)
                                        ||| exists|w6: T, s6: Seq<char>|
                                            #[trigger] self.6.ok(s5, w6, s6) && ({
                                            ||| self.7.err(s6, e@)
                                            ||| exists|w7: U, s7: Seq<char>|
                                                #[trigger] self.7.ok(s6, w7, s7) && ({
                                                ||| self.8.err(s7, e@)
                                                ||| exists|w8: V, s8: Seq<char>|
                                                    #[trigger] self.8.ok(s7, w8, s8) && ({
                                                    ||| self.9.err(s8, e@)
                                                    ||| exists|w9: W, s9: Seq<char>|
                                                        #[trigger] self.9.ok(s8, w9, s9) && ({
                                                        self.10.err(s9, e@)
                                                        })
                                                    })
                                                })
                                            })
                                        })
                                    })
                                })
                            })
                    });
                    assert({
                        ||| self.1.err(r0@, e@)
                        ||| exists|w1: O, s1: Seq<char>|
                            #[trigger] self.1.ok(r0@, w1, s1) && ({
                            ||| self.2.err(s1, e@)
                            ||| exists|w2: P, s2: Seq<char>|
                                #[trigger] self.2.ok(s1, w2, s2) && ({
                                ||| self.3.err(s2, e@)
                                ||| exists|w3: Q, s3: Seq<char>|
                                    #[trigger] self.3.ok(s2, w3, s3) && ({
                                    ||| self.4.err(s3, e@)
                                    ||| exists|w4: R, s4: Seq<char>|
                                        #[trigger] self.4.ok(s3, w4, s4) && ({
                                        ||| self.5.err(s4, e@)
                                        ||| exists|w5: S, s5: Seq<char>|
                                            #[trigger] self.5.ok(s4, w5, s5) && ({
                                            ||| self.6.err(s5, e@)
                                            ||| exists|w6: T, s6: Seq<char>|
                                                #[trigger] self.6.ok(s5, w6, s6) && ({
                                                ||| self.7.err(s6, e@)
                                                ||| exists|w7: U, s7: Seq<char>|
                                                    #[trigger] self.7.ok(s6, w7, s7) && ({
                                                    ||| self.8.err(s7, e@)
                                                    ||| exists|w8: V, s8: Seq<char>|
                                                        #[trigger] self.8.ok(s7, w8, s8) && ({
                                                        ||| self.9.err(s8, e@)
                                                        ||| exists|w9: W, s9: Seq<char>|
                                                            #[trigger] self.9.ok(s8, w9, s9) && ({
                                                            self.10.err(s9, e@)
                                                            })
                                                        })
                                                    })
                                                })
                                            })
                                        })
                                    })
                                })
                            })
                    });
                    assert({
                        ||| self.0.err(input@, e@)
                        ||| exists|w0: N, s0: Seq<char>|
                            #[trigger] self.0.ok(input@, w0, s0) && ({
                            ||| self.1.err(s0, e@)
                            ||| exists|w1: O, s1: Seq<char>|
                                #[trigger] self.1.ok(s0, w1, s1) && ({
                                ||| self.2.err(s1, e@)
                                ||| exists|w2: P, s2: Seq<char>|
                                    #[trigger] self.2.ok(s1, w2, s2) && ({
                                    ||| self.3.err(s2, e@)
                                    ||| exists|w3: Q, s3: Seq<char>|
                                        #[trigger] self.3.ok(s2, w3, s3) && ({
                                        ||| self.4.err(s3, e@)
                                        ||| exists|w4: R, s4: Seq<char>|
                                            #[trigger] self.4.ok(s3, w4, s4) && ({
                                            ||| self.5.err(s4, e@)
                                            ||| exists|w5: S, s5: Seq<char>|
                                                #[trigger] self.5.ok(s4, w5, s5) && ({
                                                ||| self.6.err(s5, e@)
                                                ||| exists|w6: T, s6: Seq<char>|
                                                    #[trigger] self.6.ok(s5, w6, s6) && ({
                                                    ||| self.7.err(s6, e@)
                                                    ||| exists|w7: U, s7: Seq<char>|
                                                        #[trigger] self.7.ok(s6, w7, s7) && ({
                                                        ||| self.8.err(s7, e@)
                                                        ||| exists|w8: V, s8: Seq<char>|
                                                            #[trigger] self.8.ok(s7, w8, s8) && ({
                                                            ||| self.9.err(s8, e@)
                                                            ||| exists|w9: W, s9: Seq<char>|
                                                                #[trigger] self.9.ok(s8, w9, s9) && ({
                                                                self.10.err(s9, e@)
                                                                })
                                                            })
                                                        })
                                                    })
                                                })
                                            })
                                        })
                                    })
                                })
                            })
                    });
                }
                return Err(e);
            },
        };
        let (v10, r10) = match self.10.parse(r9) {
            Ok(x) => x,
            Err(e) => {
                proof {
                    assert({
                        ||| self.9.err(r8@, e@)
                        ||| exists|w9: W, s9: Seq<char>|
                            #[trigger] self.9.ok(r8@, w9, s9) && ({
                            self.10.err(s9, e@)
                            })
                    });
                    assert({
                        ||| self.8.err(r7@, e@)
                        ||| exists|w8: V, s8: Seq<char>|
                            #[trigger] self.8.ok(r7@, w8, s8) && ({
                            ||| self.9.err(s8, e@)
                            ||| exists|w9: W, s9: Seq<char>|
                                #[trigger] self.9.ok(s8, w9, s9) && ({
                                self.10.err(s9, e@)
                                })
                            })
                    });
                    assert({
                        ||| self.7.err(r6@, e@)
                        ||| exists|w7: U, s7: Seq<char>|
                            #[trigger] self.7.ok(r6@, w7, s7) && ({
                            ||| self.8.err(s7, e@)
                            ||| exists|w8: V, s8: Seq<char>|
                                #[trigger] self.8.ok(s7, w8, s8) && ({
                                ||| self.9.err(s8, e@)
                                ||| exists|w9: W, s9: Seq<char>|
                                    #[trigger] self.9.ok(s8, w9, s9) && ({
                                    self.10.err(s9, e@)
                                    })
                                })
                            })
                    });
                    assert({
                        ||| self.6.err(r5@, e@)
                        ||| exists|w6: T, s6: Seq<char>|
                            #[trigger] self.6.ok(r5@, w6, s6) && ({
                            ||| self.7.err(s6, e@)
                            ||| exists|w7: U, s7: Seq<char>|
                                #[trigger] self.7.ok(s6, w7, s7) && ({
                                ||| self.8.err(s7, e@)
                                ||| exists|w8: V, s8: Seq<char>|
                                    #[trigger] self.8.ok(s7, w8, s8) && ({
                                    ||| self.9.err(s8, e@)
                                    ||| exists|w9: W, s9: Seq<char>|
                                        #[trigger] self.9.ok(s8, w9, s9) && ({
                                        self.10.err(s9, e@)
                                        })
                                    })
                                })
                            })
                    });
                    assert({
                        ||| self.5.err(r4@, e@)
                        ||| exists|w5: S, s5: Seq<char>|
                            #[trigger] self.5.ok(r4@, w5, s5) && ({
                            ||| self.6.err(s5, e@)
                            ||| exists|w6: T, s6: Seq<char>|
                                #[trigger] self.6.ok(s5, w6, s6) && ({
                                ||| self.7.err(s6, e@)
                                ||| exists|w7: U, s7: Seq<char>|
                                    #[trigger] self.7.ok(s6, w7, s7) && ({
                                    ||| self.8.err(s7, e@)
                                    ||| exists|w8: V, s8: Seq<char>|
                                        #[trigger] self.8.ok(s7, w8, s8) && ({
                                        ||| self.9.err(s8, e@)
                                        ||| exists|w9: W, s9: Seq<char>|
                                            #[trigger] self.9.ok(s8, w9, s9) && ({
                                            self.10.err(s9, e@)
                                            })
                                        })
                                    })
                                })
                            })
                    });
                    assert({
                        ||| self.4.err(r3@, e@)
                        ||| exists|w4: R, s4: Seq<char>|
                            #[trigger] self.4.ok(r3@, w4, s4) && ({
                            ||| self.5.err(s4, e@)
                            ||| exists|w5: S, s5: Seq<char>|
                                #[trigger] self.5.ok(s4, w5, s5) && ({
                                ||| self.6.err(s5, e@)
                                ||| exists|w6: T, s6: Seq<char>|
                                    #[trigger] self.6.ok(s5, w6, s6) && ({
                                    ||| self.7.err(s6, e@)
                                    ||| exists|w7: U, s7: Seq<char>|
                                        #[trigger] self.7.ok(s6, w7, s7) && ({
                                        ||| self.8.err(s7, e@)
                                        ||| exists|w8: V, s8: Seq<char>|
                                            #[trigger] self.8.ok(s7, w8, s8) && ({
                                            ||| self.9.err(s8, e@)
                                            ||| exists|w9: W, s9: Seq<char>|
                                                #[trigger] self.9.ok(s8, w9, s9) && ({
                                                self.10.err(s9, e@)
                                                })
                                            })
                                        })
                                    })
                                })
                            })
                    });
                    assert({
                        ||| self.3.err(r2@, e@)
                        ||| exists|w3: Q, s3: Seq<char>|
                            #[trigger] self.3.ok(r2@, w3, s3) && ({
                            ||| self.4.err(s3, e@)
                            ||| exists|w4: R, s4: Seq<char>|
                                #[trigger] self.4.ok(s3, w4, s4) && ({
                                ||| self.5.err(s4, e@)
                                ||| exists|w5: S, s5: Seq<char>|
                                    #[trigger] self.5.ok(s4, w5, s5) && ({
                                    ||| self.6.err(s5, e@)
                                    ||| exists|w6: T, s6: Seq<char>|
                                        #[trigger] self.6.ok(s5, w6, s6) && ({
                                        ||| self.7.err(s6, e@)
                                        ||| exists|w7: U, s7: Seq<char>|
                                            #[trigger] self.7.ok(s6, w7, s7) && ({
                                            ||| self.8.err(s7, e@)
                                            ||| exists|w8: V, s8: Seq<char>|
                                                #[trigger] self.8.ok(s7, w8, s8) && ({
                                                ||| self.9.err(s8, e@)
                                                ||| exists|w9: W, s9: Seq<char>|
                                                    #[trigger] self.9.ok(s8, w9, s9) && ({
                                                    self.10.err(s9, e@)
                                                    })
                                                })
                                            })
                                        })
                                    })
                                })
                            })
                    });
                    assert({
                        ||| self.2.err(r1@, e@)
                        ||| exists|w2: P, s2: Seq<char>|
                            #[trigger] self.2.ok(r1@, w2, s2) && ({
                            ||| self.3.err(s2, e@)
                            ||| exists|w3: Q, s3: Seq<char>|
                                #[trigger] self.3.ok(s2, w3, s3) && ({
                                ||| self.4.err(s3, e@)
                                ||| exists|w4: R, s4: Seq<char>|
                                    #[trigger] self.4.ok(s3, w4, s4) && ({
                                    ||| self.5.err(s4, e@)
                                    ||| exists|w5: S, s5: Seq<char>|
                                        #[trigger] self.5.ok(s4, w5, s5) && ({
                                        ||| self.6.err(s5, e@)
                                        ||| exists|w6: T, s6: Seq<char>|
                                            #[trigger] self.6.ok(s5, w6, s6) && ({
                                            ||| self.7.err(s6, e@)
                                            ||| exists|w7: U, s7: Seq<char>|
                                                #[trigger] self.7.ok(s6, w7, s7) && ({
                                                ||| self.8.err(s7, e@)
                                                ||| exists|w8: V, s8: Seq<char>|
                                                    #[trigger] self.8.ok(s7, w8, s8) && ({
                                                    ||| self.9.err(s8, e@)
                                                    ||| exists|w9: W, s9: Seq<char>|
                                                        #[trigger] self.9.ok(s8, w9, s9) && ({
                                                        self.10.err(s9, e@)
                                                        })
                                                    })
                                                })
                                            })
                                        })
                                    })
                                })
                            })
                    });
                    assert({
                        ||| self.1.err(r0@, e@)
                        ||| exists|w1: O, s1: Seq<char>|
                            #[trigger] self.1.ok(r0@, w1, s1) && ({
                            ||| self.2.err(s1, e@)
                            ||| exists|w2: P, s2: Seq<char>|
                                #[trigger] self.2.ok(s1, w2, s2) && ({
                                ||| self.3.err(s2, e@)
                                ||| exists|w3: Q, s3: Seq<char>|
                                    #[trigger] self.3.ok(s2, w3, s3) && ({
                                    ||| self.4.err(s3, e@)
                                    ||| exists|w4: R, s4: Seq<char>|
                                        #[trigger] self.4.ok(s3, w4, s4) && ({
                                        ||| self.5.err(s4, e@)
                                        ||| exists|w5: S, s5: Seq<char>|
                                            #[trigger] self.5.ok(s4, w5, s5) && ({
                                            ||| self.6.err(s5, e@)
                                            ||| exists|w6: T, s6: Seq<char>|
                                                #[trigger] self.6.ok(s5, w6, s6) && ({
                                                ||| self.7.err(s6, e@)
                                                ||| exists|w7: U, s7: Seq<char>|
                                                    #[trigger] self.7.ok(s6, w7, s7) && ({
                                                    ||| self.8.err(s7, e@)
                                                    ||| exists|w8: V, s8: Seq<char>|
                                                        #[trigger] self.8.ok(s7, w8, s8) && ({
                                                        ||| self.9.err(s8, e@)
                                                        ||| exists|w9: W, s9: Seq<char>|
                                                            #[trigger] self.9.ok(s8, w9, s9) && ({
                                                            self.10.err(s9, e@)
                                                            })
                                                        })
                                                    })
                                                })
                                            })
                                        })
                                    })
                                })
                            })
                    });
                    assert({
                        ||| self.0.err(input@, e@)
                        ||| exists|w0: N, s0: Seq<char>|
                            #[trigger] self.0.ok(input@, w0, s0) && ({
                            ||| self.1.err(s0, e@)
                            ||| exists|w1: O, s1: Seq<char>|
                                #[trigger] self.1.ok(s0, w1, s1) && ({
                                ||| self.2.err(s1, e@)
                                ||| exists|w2: P, s2: Seq<char>|
                                    #[trigger] self.2.ok(s1, w2, s2) && ({
                                    ||| self.3.err(s2, e@)
                                    ||| exists|w3: Q, s3: Seq<char>|
                                        #[trigger] self.3.ok(s2, w3, s3) && ({
                                        ||| self.4.err(s3, e@)
                                        ||| exists|w4: R, s4: Seq<char>|
                                            #[trigger] self.4.ok(s3, w4, s4) && ({
                                            ||| self.5.err(s4, e@)
                                            ||| exists|w5: S, s5: Seq<char>|
                                                #[trigger] self.5.ok(s4, w5, s5) && ({
                                                ||| self.6.err(s5, e@)
                                                ||| exists|w6: T, s6: Seq<char>|
                                                    #[trigger] self.6.ok(s5, w6, s6) && ({
                                                    ||| self.7.err(s6, e@)
                                                    ||| exists|w7: U, s7: Seq<char>|
                                                        #[trigger] self.7.ok(s6, w7, s7) && ({
                                                        ||| self.8.err(s7, e@)
                                                        ||| exists|w8: V, s8: Seq<char>|
                                                            #[trigger] self.8.ok(s7, w8, s8) && ({
                                                            ||| self.9.err(s8, e@)
                                                            ||| exists|w9: W, s9: Seq<char>|
                                                                #[trigger] self.9.ok(s8, w9, s9) && ({
                                                                self.10.err(s9, e@)
                                                                })
                                                            })
                                                        })
                                                    })
                                                })
                                            })
                                        })
                                    })
                                })
                            })
                    });
                }
                return Err(e);
            },
        };
        let out = (v0, v1, v2, v3, v4, v5, v6, v7, v8, v9, v10);
        proof {
            assert(out.0 == v0);
            assert(out.1 == v1);
            assert(out.2 == v2);
            assert(out.3 == v3);
            assert(out.4 == v4);
            assert(out.5 == v5);
            assert(out.6 == v6);
            assert(out.7 == v7);
            assert(out.8 == v8);
            assert(out.9 == v9);
            assert(out.10 == v10);
            lemma_remainder_trans(input@, r0@, r1@);
            lemma_remainder_trans(input@, r1@, r2@);
            lemma_remainder_trans(input@, r2@, r3@);
            lemma_remainder_trans(input@, r3@, r4@);
            lemma_remainder_trans(input@, r4@, r5@);
            lemma_remainder_trans(input@, r5@, r6@);
            lemma_remainder_trans(input@, r6@, r7@);
            lemma_remainder_trans(input@, r7@, r8@);
            lemma_remainder_trans(input@, r8@, r9@);
            lemma_remainder_trans(input@, r9@, r10@);
            assert({
                self.10.ok(r9@, out.10, r10@)
            });
            assert({
                exists|s9: Seq<char>|
                    #[trigger] self.9.ok(r8@, out.9, s9) && ({
                    self.10.ok(s9, out.10, r10@)
                    })
            });
            assert({
                exists|s8: Seq<char>|
                    #[trigger] self.8.ok(r7@, out.8, s8) && ({
                    exists|s9: Seq<char>|
                        #[trigger] self.9.ok(s8, out.9, s9) && ({
                        self.10.ok(s9, out.10, r10@)
                        })
                    })
            });
            assert({
                exists|s7: Seq<char>|
                    #[trigger] self.7.ok(r6@, out.7, s7) && ({
                    exists|s8: Seq<char>|
                        #[trigger] self.8.ok(s7, out.8, s8) && ({
                        exists|s9: Seq<char>|
                            #[trigger] self.9.ok(s8, out.9, s9) && ({
                            self.10.ok(s9, out.10, r10@)
                            })
                        })
                    })
            });
            assert({
                exists|s6: Seq<char>|
                    #[trigger] self.6.ok(r5@, out.6, s6) && ({
                    exists|s7: Seq<char>|
                        #[trigger] self.7.ok(s6, out.7, s7) && ({
                        exists|s8: Seq<char>|
                            #[trigger] self.8.ok(s7, out.8, s8) && ({
                            exists|s9: Seq<char>|
                                #[trigger] self.9.ok(s8, out.9, s9) && ({
                                self.10.ok(s9, out.10, r10@)
                                })
                            })
                        })
                    })
            });
            assert({
                exists|s5: Seq<char>|
                    #[trigger] self.5.ok(r4@, out.5, s5) && ({
                    exists|s6: Seq<char>|
                        #[trigger] self.6.ok(s5, out.6, s6) && ({
                        exists|s7: Seq<char>|
                            #[trigger] self.7.ok(s6, out.7, s7) && ({
                            exists|s8: Seq<char>|
                                #[trigger] self.8.ok(s7, out.8, s8) && ({
                                exists|s9: Seq<char>|
                                    #[trigger] self.9.ok(s8, out.9, s9) && ({
                                    self.10.ok(s9, out.10, r10@)
                                    })
                                })
                            })
                        })
                    })
            });
            assert({
                exists|s4: Seq<char>|
                    #[trigger] self.4.ok(r3@, out.4, s4) && ({
                    exists|s5: Seq<char>|
                        #[trigger] self.5.ok(s4, out.5, s5) && ({
                        exists|s6: Seq<char>|
                            #[trigger] self.6.ok(s5, out.6, s6) && ({
                            exists|s7: Seq<char>|
                                #[trigger] self.7.ok(s6, out.7, s7) && ({
                                exists|s8: Seq<char>|
                                    #[trigger] self.8.ok(s7, out.8, s8) && ({
                                    exists|s9: Seq<char>|
                                        #[trigger] self.9.ok(s8, out.9, s9) && ({
                                        self.10.ok(s9, out.10, r10@)
                                        })
                                    })
                                })
                            })
                        })
                    })
            });
            assert({
                exists|s3: Seq<char>|
                    #[trigger] self.3.ok(r2@, out.3, s3) && ({
                    exists|s4: Seq<char>|
                        #[trigger] self.4.ok(s3, out.4, s4) && ({
                        exists|s5: Seq<char>|
                            #[trigger] self.5.ok(s4, out.5, s5) && ({
                            exists|s6: Seq<char>|
                                #[trigger] self.6.ok(s5, out.6, s6) && ({
                                exists|s7: Seq<char>|
                                    #[trigger] self.7.ok(s6, out.7, s7) && ({
                                    exists|s8: Seq<char>|
                                        #[trigger] self.8.ok(s7, out.8, s8) && ({
                                        exists|s9: Seq<char>|
                                            #[trigger] self.9.ok(s8, out.9, s9) && ({
                                            self.10.ok(s9, out.10, r10@)
                                            })
                                        })
                                    })
                                })
                            })
                        })
                    })
            });
            assert({
                exists|s2: Seq<char>|
                    #[trigger] self.2.ok(r1@, out.2, s2) && ({
                    exists|s3: Seq<char>|
                        #[trigger] self.3.ok(s2, out.3, s3) && ({
                        exists|s4: Seq<char>|
                            #[trigger] self.4.ok(s3, out.4, s4) && ({
                            exists|s5: Seq<char>|
                                #[trigger] self.5.ok(s4, out.5, s5) && ({
                                exists|s6: Seq<char>|
                                    #[trigger] self.6.ok(s5, out.6, s6) && ({
                                    exists|s7: Seq<char>|
                                        #[trigger] self.7.ok(s6, out.7, s7) && ({
                                        exists|s8: Seq<char>|
                                            #[trigger] self.8.ok(s7, out.8, s8) && ({
                                            exists|s9: Seq<char>|
                                                #[trigger] self.9.ok(s8, out.9, s9) && ({
                                                self.10.ok(s9, out.10, r10@)
                                                })
                                            })
                                        })
                                    })
                                })
                            })
                        })
                    })
            });
            assert({
                exists|s1: Seq<char>|
                    #[trigger] self.1.ok(r0@, out.1, s1) && ({
                    exists|s2: Seq<char>|
                        #[trigger] self.2.ok(s1, out.2, s2) && ({
                        exists|s3: Seq<char>|
                            #[trigger] self.3.ok(s2, out.3, s3) && ({
                            exists|s4: Seq<char>|
                                #[trigger] self.4.ok(s3, out.4, s4) && ({
                                exists|s5: Seq<char>|
                                    #[trigger] self.5.ok(s4, out.5, s5) && ({
                                    exists|s6: Seq<char>|
                                        #[trigger] self.6.ok(s5, out.6, s6) && ({
                                        exists|s7: Seq<char>|
                                            #[trigger] self.7.ok(s6, out.7, s7) && ({
                                            exists|s8: Seq<char>|
                                                #[trigger] self.8.ok(s7, out.8, s8) && ({
                                                exists|s9: Seq<char>|
                                                    #[trigger] self.9.ok(s8, out.9, s9) && ({
                                                    self.10.ok(s9, out.10, r10@)
                                                    })
                                                })
                                            })
                                        })
                                    })
                                })
                            })
                        })
                    })
            });
            assert({
                exists|s0: Seq<char>|
                    #[trigger] self.0.ok(input@, out.0, s0) && ({
                    exists|s1: Seq<char>|
                        #[trigger] self.1.ok(s0, out.1, s1) && ({
                        exists|s2: Seq<char>|
                            #[trigger] self.2.ok(s1, out.2, s2) && ({
                            exists|s3: Seq<char>|
                                #[trigger] self.3.ok(s2, out.3, s3) && ({
                                exists|s4: Seq<char>|
                                    #[trigger] self.4.ok(s3, out.4, s4) && ({
                                    exists|s5: Seq<char>|
                                        #[trigger] self.5.ok(s4, out.5, s5) && ({
                                        exists|s6: Seq<char>|
                                            #[trigger] self.6.ok(s5, out.6, s6) && ({
                                            exists|s7: Seq<char>|
                                                #[trigger] self.7.ok(s6, out.7, s7) && ({
                                                exists|s8: Seq<char>|
                                                    #[trigger] self.8.ok(s7, out.8, s8) && ({
                                                    exists|s9: Seq<char>|
                                                        #[trigger] self.9.ok(s8, out.9, s9) && ({
                                                        self.10.ok(s9, out.10, r10@)
                                                        })
                                                    })
                                                })
                                            })
                                        })
                                    })
                                })
                            })
                        })
                    })
            });
        }
        Ok((out, r10))
    }
}

/// A tuple of eleven parsers is itself a parser: its components run as a
/// series.
impl<'a, N, O, P, Q, R, S, T, U, V, W, X, A: Parser<'a, N>, B: Parser<'a, O>, C: Parser<'a, P>, D: Parser<'a, Q>, E: Parser<'a, R>, F: Parser<'a, S>, G: Parser<'a, T>, H: Parser<'a, U>, I: Parser<'a, V>, J: Parser<'a, W>, K: Parser<'a, X>> Parser<'a, (N, O, P, Q, R, S, T, U, V, W, X)> for (A, B, C, D, E, F, G, H, I, J, K) {
    open spec fn wf(&self) -> bool {
        self.series_wf()
    }

    open spec fn ok(&self, input: Seq<char>, out: (N, O, P, Q, R, S, T, U, V, W, X), rem: Seq<char>) -> bool {
        self.series_ok(input, out, rem)
    }

    open spec fn err(&self, input: Seq<char>, e: SpecError) -> bool {
        self.series_err(input, e)
    }

    fn parse(&self, input: &'a str) -> (r: Output<'a, (N, O, P, Q, R, S, T, U, V, W, X)>) {
        self.parse_series(input)
    }
}

/// A fixed group of twelve parsers run as a series.
impl<'a, N, O, P, Q, R, S, T, U, V, W, X, Y, A: Parser<'a, N>, B: Parser<'a, O>, C: Parser<'a, P>, D: Parser<'a, Q>, E: Parser<'a, R>, F: Parser<'a, S>, G: Parser<'a, T>, H: Parser<'a, U>, I: Parser<'a, V>, J: Parser<'a, W>, K: Parser<'a, X>, L: Parser<'a, Y>> Series<'a, (N, O, P, Q, R, S, T, U, V, W, X, Y)> for (A, B, C, D, E, F, G, H, I, J, K, L) {
    open spec fn series_wf(&self) -> bool {
        &&& self.0.wf()
        &&& self.1.wf()
        &&& self.2.wf()
        &&& self.3.wf()
        &&& self.4.wf()
        &&& self.5.wf()
        &&& self.6.wf()
        &&& self.7.wf()
        &&& self.8.wf()
        &&& self.9.wf()
        &&& self.10.wf()
        &&& self.11.wf()
    }

    open spec fn series_ok(&self, input: Seq<char>, out: (N, O, P, Q, R, S, T, U, V, W, X, Y), rem: Seq<char>) -> bool {
        exists|s0: Seq<char>|
            #[trigger] self.0.ok(input, out.0, s0) && ({
            exists|s1: Seq<char>|
                #[trigger] self.1.ok(s0, out.1, s1) && ({
                exists|s2: Seq<char>|
                    #[trigger] self.2.ok(s1, out.2, s2) && ({
                    exists|s3: Seq<char>|
                        #[trigger] self.3.ok(s2, out.3, s3) && ({
                        exists|s4: Seq<char>|
                            #[trigger] self.4.ok(s3, out.4, s4) && ({
                            exists|s5: Seq<char>|
                                #[trigger] self.5.ok(s4, out.5, s5) && ({
                                exists|s6: Seq<char>|
                                    #[trigger] self.6.ok(s5, out.6, s6) && ({
                                    exists|s7: Seq<char>|
                                        #[trigger] self.7.ok(s6, out.7, s7) && ({
                                        exists|s8: Seq<char>|
                                            #[trigger] self.8.ok(s7, out.8, s8) && ({
                                            exists|s9: Seq<char>|
                                                #[trigger] self.9.ok(s8, out.9, s9) && ({
                                                exists|s10: Seq<char>|
                                                    #[trigger] self.10.ok(s9, out.10, s10) && ({
                                                    self.11.ok(s10, out.11, rem)
                                                    })
                                                })
                                            })
                                        })
                                    })
                                })
                            })
                        })
                    })
                })
            })
    }

    open spec fn series_err(&self, input: Seq<char>, e: SpecError) -> bool {
        ||| self.0.err(input, e)
        ||| exists|w0: N, s0: Seq<char>|
            #[trigger] self.0.ok(input, w0, s0) && ({
            ||| self.1.err(s0, e)
            ||| exists|w1: O, s1: Seq<char>|
                #[trigger] self.1.ok(s0, w1, s1) && ({
                ||| self.2.err(s1, e)
                ||| exists|w2: P, s2: Seq<char>|
                    #[trigger] self.2.ok(s1, w2, s2) && ({
                    ||| self.3.err(s2, e)
                    ||| exists|w3: Q, s3: Seq<char>|
                        #[trigger] self.3.ok(s2, w3, s3) && ({
                        ||| self.4.err(s3, e)
                        ||| exists|w4: R, s4: Seq<char>|
                            #[trigger] self.4.ok(s3, w4, s4) && ({
                            ||| self.5.err(s4, e)
                            ||| exists|w5: S, s5: Seq<char>|
                                #[trigger] self.5.ok(s4, w5, s5) && ({
                                ||| self.6.err(s5, e)
                                ||| exists|w6: T, s6: Seq<char>|
                                    #[trigger] self.6.ok(s5, w6, s6) && ({
                                    ||| self.7.err(s6, e)
                                    ||| exists|w7: U, s7: Seq<char>|
                                        #[trigger] self.7.ok(s6, w7, s7) && ({
                                        ||| self.8.err(s7, e)
                                        ||| exists|w8: V, s8: Seq<char>|
                                            #[trigger] self.8.ok(s7, w8, s8) && ({
                                            ||| self.9.err(s8, e)
                                            ||| exists|w9: W, s9: Seq<char>|
                                                #[trigger] self.9.ok(s8, w9, s9) && ({
                                                ||| self.10.err(s9, e)
                                                ||| exists|w10: X, s10: Seq<char>|
                                                    #[trigger] self.10.ok(s9, w10, s10) && ({
                                                    self.11.err(s10, e)
                                                    })
                                                })
                                            })
                                        })
                                    })
                                })
                            })
                        })
                    })
                })
            })
    }

    fn parse_series(&self, input: &'a str) -> (r: Output<'a, (N, O, P, Q, R, S, T, U, V, W, X, Y)>) {
        let (v0, r0) = match self.0.parse(input) {
            Ok(x) => x,
            Err(e) => {
                return Err(e);
            },
        };
        let (v1, r1) = match self.1.parse(r0) {
            Ok(x) => x,
            Err(e) => {
                proof {
                    assert({
                        ||| self.0.err(input@, e@)
                        ||| exists|w0: N, s0: Seq<char>|
                            #[trigger] self.0.ok(input@, w0, s0) && ({
                            ||| self.1.err(s0, e@)
                            ||| exists|w1: O, s1: Seq<char>|
                                #[trigger] self.1.ok(s0, w1, s1) && ({
                                ||| self.2.err(s1, e@)
                                ||| exists|w2: P, s2: Seq<char>|
                                    #[trigger] self.2.ok(s1, w2, s2) && ({
                                    ||| self.3.err(s2, e@)
                                    ||| exists|w3: Q, s3: Seq<char>|
                                        #[trigger] self.3.ok(s2, w3, s3) && ({
                                        ||| self.4.err(s3, e@)
                                        ||| exists|w4: R, s4: Seq<char>|
                                            #[trigger] self.4.ok(s3, w4, s4) && ({
                                            ||| self.5.err(s4, e@)
                                            ||| exists|w5: S, s5: Seq<char>|
                                                #[trigger] self.5.ok(s4, w5, s5) && ({
                                                ||| self.6.err(s5, e@)
                                                ||| exists|w6: T, s6: Seq<char>|
                                                    #[trigger] self.6.ok(s5, w6, s6) && ({
                                                    ||| self.7.err(s6, e@)
                                                    ||| exists|w7: U, s7: Seq<char>|
                                                        #[trigger] self.7.ok(s6, w7, s7) && ({
                                                        ||| self.8.err(s7, e@)
                                                        ||| exists|w8: V, s8: Seq<char>|
                                                            #[trigger] self.8.ok(s7, w8, s8) && ({
                                                            ||| self.9.err(s8, e@)
                                                            ||| exists|w9: W, s9: Seq<char>|
                                                                #[trigger] self.9.ok(s8, w9, s9) && ({
                                                                ||| self.10.err(s9, e@)
                                                                ||| exists|w10: X, s10: Seq<char>|
                                                                    #[trigger] self.10.ok(s9, w10, s10) && ({
                                                                    self.11.err(s10, e@)
                                                                    })
                                                                })
                                                            })
                                                        })
                                                    })
                                                })
                                            })
                                        })
                                    })
                                })
                            })
                    });
                }
                return Err(e);
            },
        };
        let (v2, r2) = match self.2.parse(r1) {
            Ok(x) => x,
            Err(e) => {
                proof {
                    assert({
                        ||| self.1.err(r0@, e@)
                        ||| exists|w1: O, s1: Seq<char>|
                            #[trigger] self.1.ok(r0@, w1, s1) && ({
                            ||| self.2.err(s1, e@)
                            ||| exists|w2: P, s2: Seq<char>|
                                #[trigger] self.2.ok(s1, w2, s2) && ({
                                ||| self.3.err(s2, e@)
                                ||| exists|w3: Q, s3: Seq<char>|
                                    #[trigger] self.3.ok(s2, w3, s3) && ({
                                    ||| self.4.err(s3, e@)
                                    ||| exists|w4: R, s4: Seq<char>|
                                        #[trigger] self.4.ok(s3, w4, s4) && ({
                                        ||| self.5.err(s4, e@)
                                        ||| exists|w5: S, s5: Seq<char>|
                                            #[trigger] self.5.ok(s4, w5, s5) && ({
                                            ||| self.6.err(s5, e@)
                                            ||| exists|w6: T, s6: Seq<char>|
                                                #[trigger] self.6.ok(s5, w6, s6) && ({
                                                ||| self.7.err(s6, e@)
                                                ||| exists|w7: U, s7: Seq<char>|
                                                    #[trigger] self.7.ok(s6, w7, s7) && ({
                                                    ||| self.8.err(s7, e@)
                                                    ||| exists|w8: V, s8: Seq<char>|
                                                        #[trigger] self.8.ok(s7, w8, s8) && ({
                                                        ||| self.9.err(s8, e@)
                                                        ||| exists|w9: W, s9: Seq<char>|
                                                            #[trigger] self.9.ok(s8, w9, s9) && ({
                                                            ||| self.10.err(s9, e@)
                                                            ||| exists|w10: X, s10: Seq<char>|
                                                                #[trigger] self.10.ok(s9, w10, s10) && ({
                                                                self.11.err(s10, e@)
                                                                })
                                                            })
                                                        })
                                                    })
                                                })
                                            })
                                        })
                                    })
                                })
                            })
                    });
                    assert({
                        ||| self.0.err(input@, e@)
                        ||| exists|w0: N, s0: Seq<char>|
                            #[trigger] self.0.ok(input@, w0, s0) && ({
                            ||| self.1.err(s0, e@)
                            ||| exists|w1: O, s1: Seq<char>|
                                #[trigger] self.1.ok(s0, w1, s1) && ({
                                ||| self.2.err(s1, e@)
                                ||| exists|w2: P, s2: Seq<char>|
                                    #[trigger] self.2.ok(s1, w2, s2) && ({
                                    ||| self.3.err(s2, e@)
                                    ||| exists|w3: Q, s3: Seq<char>|
                                        #[trigger] self.3.ok(s2, w3, s3) && ({
                                        ||| self.4.err(s3, e@)
                                        ||| exists|w4: R, s4: Seq<char>|
                                            #[trigger] self.4.ok(s3, w4, s4) && ({
                                            ||| self.5.err(s4, e@)
                                            ||| exists|w5: S, s5: Seq<char>|
                                                #[trigger] self.5.ok(s4, w5, s5) && ({
                                                ||| self.6.err(s5, e@)
                                                ||| exists|w6: T, s6: Seq<char>|
                                                    #[trigger] self.6.ok(s5, w6, s6) && ({
                                                    ||| self.7.err(s6, e@)
                                                    ||| exists|w7: U, s7: Seq<char>|
                                                        #[trigger] self.7.ok(s6, w7, s7) && ({
                                                        ||| self.8.err(s7, e@)
                                                        ||| exists|w8: V, s8: Seq<char>|
                                                            #[trigger] self.8.ok(s7, w8, s8) && ({
                                                            ||| self.9.err(s8, e@)
                                                            ||| exists|w9: W, s9: Seq<char>|
                                                                #[trigger] self.9.ok(s8, w9, s9) && ({
                                                                ||| self.10.err(s9, e@)
                                                                ||| exists|w10: X, s10: Seq<char>|
                                                                    #[trigger] self.10.ok(s9, w10, s10) && ({
                                                                    self.11.err(s10, e@)
                                                                    })
                                                                })
                                                            })
                                                        })
                                                    })
                                                })
                                            })
                                        })
                                    })
                                })
                            })
                    });
                }
                return Err(e);
            },
        };
        let (v3, r3) = match self.3.parse(r2) {
            Ok(x) => x,
            Err(e) => {
                proof {
                    assert({
                        ||| self.2.err(r1@, e@)
                        ||| exists|w2: P, s2: Seq<char>|
                            #[trigger] self.2.ok(r1@, w2, s2) && ({
                            ||| self.3.err(s2, e@)
                            ||| exists|w3: Q, s3: Seq<char>|
                                #[trigger] self.3.ok(s2, w3, s3) && ({
                                ||| self.4.err(s3, e@)
                                ||| exists|w4: R, s4: Seq<char>|
                                    #[trigger] self.4.ok(s3, w4, s4) && ({
                                    ||| self.5.err(s4, e@)
                                    ||| exists|w5: S, s5: Seq<char>|
                                        #[trigger] self.5.ok(s4, w5, s5) && ({
                                        ||| self.6.err(s5, e@)
                                        ||| exists|w6: T, s6: Seq<char>|
                                            #[trigger] self.6.ok(s5, w6, s6) && ({
                                            ||| self.7.err(s6, e@)
                                            ||| exists|w7: U, s7: Seq<char>|
                                                #[trigger] self.7.ok(s6, w7, s7) && ({
                                                ||| self.8.err(s7, e@)
                                                ||| exists|w8: V, s8: Seq<char>|
                                                    #[trigger] self.8.ok(s7, w8, s8) && ({
                                                    ||| self.9.err(s8, e@)
                                                    ||| exists|w9: W, s9: Seq<char>|
                                                        #[trigger] self.9.ok(s8, w9, s9) && ({
                                                        ||| self.10.err(s9, e@)
                                                        ||| exists|w10: X, s10: Seq<char>|
                                                            #[trigger] self.10.ok(s9, w10, s10) && ({
                                                            self.11.err(s10, e@)
                                                            })
                                                        })
                                                    })
                                                })
                                            })
                                        })
                                    })
                                })
                            })
                    });
                    assert({
                        ||| self.1.err(r0@, e@)
                        ||| exists|w1: O, s1: Seq<char>|
                            #[trigger] self.1.ok(r0@, w1, s1) && ({
                            ||| self.2.err(s1, e@)
                            ||| exists|w2: P, s2: Seq<char>|
                                #[trigger] self.2.ok(s1, w2, s2) && ({
                                ||| self.3.err(s2, e@)
                                ||| exists|w3: Q, s3: Seq<char>|
                                    #[trigger] self.3.ok(s2, w3, s3) && ({
                                    ||| self.4.err(s3, e@)
                                    ||| exists|w4: R, s4: Seq<char>|
                                        #[trigger] self.4.ok(s3, w4, s4) && ({
                                        ||| self.5.err(s4, e@)
                                        ||| exists|w5: S, s5: Seq<char>|
                                            #[trigger] self.5.ok(s4, w5, s5) && ({
                                            ||| self.6.err(s5, e@)
                                            ||| exists|w6: T, s6: Seq<char>|
                                                #[trigger] self.6.ok(s5, w6, s6) && ({
                                                ||| self.7.err(s6, e@)
                                                ||| exists|w7: U, s7: Seq<char>|
                                                    #[trigger] self.7.ok(s6, w7, s7) && ({
                                                    ||| self.8.err(s7, e@)
                                                    ||| exists|w8: V, s8: Seq<char>|
                                                        #[trigger] self.8.ok(s7, w8, s8) && ({
                                                        ||| self.9.err(s8, e@)
                                                        ||| exists|w9: W, s9: Seq<char>|
                                                            #[trigger] self.9.ok(s8, w9, s9) && ({
                                                            ||| self.10.err(s9, e@)
                                                            ||| exists|w10: X, s10: Seq<char>|
                                                                #[trigger] self.10.ok(s9, w10, s10) && ({
                                                                self.11.err(s10, e@)
                                                                })
                                                            })
                                                        })
                                                    })
                                                })
                                            })
                                        })
                                    })
                                })
                            })
                    });
                    assert({
                        ||| self.0.err(input@, e@)
                        ||| exists|w0: N, s0: Seq<char>|
                            #[trigger] self.0.ok(input@, w0, s0) && ({
                            ||| self.1.err(s0, e@)
                            ||| exists|w1: O, s1: Seq<char>|
                                #[trigger] self.1.ok(s0, w1, s1) && ({
                                ||| self.2.err(s1, e@)
                                ||| exists|w2: P, s2: Seq<char>|
                                    #[trigger] self.2.ok(s1, w2, s2) && ({
                                    ||| self.3.err(s2, e@)
                                    ||| exists|w3: Q, s3: Seq<char>|
                                        #[trigger] self.3.ok(s2, w3, s3) && ({
                                        ||| self.4.err(s3, e@)
                                        ||| exists|w4: R, s4: Seq<char>|
                                            #[trigger] self.4.ok(s3, w4, s4) && ({
                                            ||| self.5.err(s4, e@)
                                            ||| exists|w5: S, s5: Seq<char>|
                                                #[trigger] self.5.ok(s4, w5, s5) && ({
                                                ||| self.6.err(s5, e@)
                                                ||| exists|w6: T, s6: Seq<char>|
                                                    #[trigger] self.6.ok(s5, w6, s6) && ({
                                                    ||| self.7.err(s6, e@)
                                                    ||| exists|w7: U, s7: Seq<char>|
                                                        #[trigger] self.7.ok(s6, w7, s7) && ({
                                                        ||| self.8.err(s7, e@)
                                                        ||| exists|w8: V, s8: Seq<char>|
                                                            #[trigger] self.8.ok(s7, w8, s8) && ({
                                                            ||| self.9.err(s8, e@)
                                                            ||| exists|w9: W, s9: Seq<char>|
                                                                #[trigger] self.9.ok(s8, w9, s9) && ({
                                                                ||| self.10.err(s9, e@)
                                                                ||| exists|w10: X, s10: Seq<char>|
                                                                    #[trigger] self.10.ok(s9, w10, s10) && ({
                                                                    self.11.err(s10, e@)
                                                                    })
                                                                })
                                                            })
                                                        })
                                                    })
                                                })
                                            })
                                        })
                                    })
                                })
                            })
                    });
                }
                return Err(e);
            },
        };
        let (v4, r4) = match self.4.parse(r3) {
            Ok(x) => x,
            Err(e) => {
                proof {
                    assert({
                        ||| self.3.err(r2@, e@)
                        ||| exists|w3: Q, s3: Seq<char>|
                            #[trigger] self.3.ok(r2@, w3, s3) && ({
                            ||| self.4.err(s3, e@)
                            ||| exists|w4: R, s4: Seq<char>|
                                #[trigger] self.4.ok(s3, w4, s4) && ({
                                ||| self.5.err(s4, e@)
                                ||| exists|w5: S, s5: Seq<char>|
                                    #[trigger] self.5.ok(s4, w5, s5) && ({
                                    ||| self.6.err(s5, e@)
                                    ||| exists|w6: T, s6: Seq<char>|
                                        #[trigger] self.6.ok(s5, w6, s6) && ({
                                        ||| self.7.err(s6, e@)
                                        ||| exists|w7: U, s7: Seq<char>|
                                            #[trigger] self.7.ok(s6, w7, s7) && ({
                                            ||| self.8.err(s7, e@)
                                            ||| exists|w8: V, s8: Seq<char>|
                                                #[trigger] self.8.ok(s7, w8, s8) && ({
                                                ||| self.9.err(s8, e@)
                                                ||| exists|w9: W, s9: Seq<char>|
                                                    #[trigger] self.9.ok(s8, w9, s9) && ({
                                                    ||| self.10.err(s9, e@)
                                                    ||| exists|w10: X, s10: Seq<char>|
                                                        #[trigger] self.10.ok(s9, w10, s10) && ({
                                                        self.11.err(s10, e@)
                                                        })
                                                    })
                                                })
                                            })
                                        })
                                    })
                                })
                            })
                    });
                    assert({
                        ||| self.2.err(r1@, e@)
                        ||| exists|w2: P, s2: Seq<char>|
                            #[trigger] self.2.ok(r1@, w2, s2) && ({
                            ||| self.3.err(s2, e@)
                            ||| exists|w3: Q, s3: Seq<char>|
                                #[trigger] self.3.ok(s2, w3, s3) && ({
                                ||| self.4.err(s3, e@)
                                ||| exists|w4: R, s4: Seq<char>|
                                    #[trigger] self.4.ok(s3, w4, s4) && ({
                                    ||| self.5.err(s4, e@)
                                    ||| exists|w5: S, s5: Seq<char>|
                                        #[trigger] self.5.ok(s4, w5, s5) && ({
                                        ||| self.6.err(s5, e@)
                                        ||| exists|w6: T, s6: Seq<char>|
                                            #[trigger] self.6.ok(s5, w6, s6) && ({
                                            ||| self.7.err(s6, e@)
                                            ||| exists|w7: U, s7: Seq<char>|
                                                #[trigger] self.7.ok(s6, w7, s7) && ({
                                                ||| self.8.err(s7, e@)
                                                ||| exists|w8: V, s8: Seq<char>|
                                                    #[trigger] self.8.ok(s7, w8, s8) && ({
                                                    ||| self.9.err(s8, e@)
                                                    ||| exists|w9: W, s9: Seq<char>|
                                                        #[trigger] self.9.ok(s8, w9, s9) && ({
                                                        ||| self.10.err(s9, e@)
                                                        ||| exists|w10: X, s10: Seq<char>|
                                                            #[trigger] self.10.ok(s9, w10, s10) && ({
                                                            self.11.err(s10, e@)
                                                            })
                                                        })
                                                    })
                                                })
                                            })
                                        })
                                    })
                                })
                            })
                    });
                    assert({
                        ||| self.1.err(r0@, e@)
                        ||| exists|w1: O, s1: Seq<char>|
                            #[trigger] self.1.ok(r0@, w1, s1) && ({
                            ||| self.2.err(s1, e@)
                            ||| exists|w2: P, s2: Seq<char>|
                                #[trigger] self.2.ok(s1, w2, s2) && ({
                                ||| self.3.err(s2, e@)
                                ||| exists|w3: Q, s3: Seq<char>|
                                    #[trigger] self.3.ok(s2, w3, s3) && ({
                                    ||| self.4.err(s3, e@)
                                    ||| exists|w4: R, s4: Seq<char>|
                                        #[trigger] self.4.ok(s3, w4, s4) && ({
                                        ||| self.5.err(s4, e@)
                                        ||| exists|w5: S, s5: Seq<char>|
                                            #[trigger] self.5.ok(s4, w5, s5) && ({
                                            ||| self.6.err(s5, e@)
                                            ||| exists|w6: T, s6: Seq<char>|
                                                #[trigger] self.6.ok(s5, w6, s6) && ({
                                                ||| self.7.err(s6, e@)
                                                ||| exists|w7: U, s7: Seq<char>|
                                                    #[trigger] self.7.ok(s6, w7, s7) && ({
                                                    ||| self.8.err(s7, e@)
                                                    ||| exists|w8: V, s8: Seq<char>|
                                                        #[trigger] self.8.ok(s7, w8, s8) && ({
                                                        ||| self.9.err(s8, e@)
                                                        ||| exists|w9: W, s9: Seq<char>|
                                                            #[trigger] self.9.ok(s8, w9, s9) && ({
                                                            ||| self.10.err(s9, e@)
                                                            ||| exists|w10: X, s10: Seq<char>|
                                                                #[trigger] self.10.ok(s9, w10, s10) && ({
                                                                self.11.err(s10, e@)
                                                                })
                                                            })
                                                        })
                                                    })
                                                })
                                            })
                                        })
                                    })
                                })
                            })
                    });
                    assert({
                        ||| self.0.err(input@, e@)
                        ||| exists|w0: N, s0: Seq<char>|
                            #[trigger] self.0.ok(input@, w0, s0) && ({
                            ||| self.1.err(s0, e@)
                            ||| exists|w1: O, s1: Seq<char>|
                                #[trigger] self.1.ok(s0, w1, s1) && ({
                                ||| self.2.err(s1, e@)
                                ||| exists|w2: P, s2: Seq<char>|
                                    #[trigger] self.2.ok(s1, w2, s2) && ({
                                    ||| self.3.err(s2, e@)
                                    ||| exists|w3: Q, s3: Seq<char>|
                                        #[trigger] self.3.ok(s2, w3, s3) && ({
                                        ||| self.4.err(s3, e@)
                                        ||| exists|w4: R, s4: Seq<char>|
                                            #[trigger] self.4.ok(s3, w4, s4) && ({
                                            ||| self.5.err(s4, e@)
                                            ||| exists|w5: S, s5: Seq<char>|
                                                #[trigger] self.5.ok(s4, w5, s5) && ({
                                                ||| self.6.err(s5, e@)
                                                ||| exists|w6: T, s6: Seq<char>|
                                                    #[trigger] self.6.ok(s5, w6, s6) && ({
                                                    ||| self.7.err(s6, e@)
                                                    ||| exists|w7: U, s7: Seq<char>|
                                                        #[trigger] self.7.ok(s6, w7, s7) && ({
                                                        ||| self.8.err(s7, e@)
                                                        ||| exists|w8: V, s8: Seq<char>|
                                                            #[trigger] self.8.ok(s7, w8, s8) && ({
                                                            ||| self.9.err(s8, e@)
                                                            ||| exists|w9: W, s9: Seq<char>|
                                                                #[trigger] self.9.ok(s8, w9, s9) && ({
                                                                ||| self.10.err(s9, e@)
                                                                ||| exists|w10: X, s10: Seq<char>|
                                                                    #[trigger] self.10.ok(s9, w10, s10) && ({
                                                                    self.11.err(s10, e@)
                                                                    })
                                                                })
                                                            })
                                                        })
                                                    })
                                                })
                                            })
                                        })
                                    })
                                })
                            })
                    });
                }
                return Err(e);
            },
        };
        let (v5, r5) = match self.5.parse(r4) {
            Ok(x) => x,
            Err(e) => {
                proof {
                    assert({
                        ||| self.4.err(r3@, e@)
                        ||| exists|w4: R, s4: Seq<char>|
                            #[trigger] self.4.ok(r3@, w4, s4) && ({
                            ||| self.5.err(s4, e@)
                            ||| exists|w5: S, s5: Seq<char>|
                                #[trigger] self.5.ok(s4, w5, s5) && ({
                                ||| self.6.err(s5, e@)
                                ||| exists|w6: T, s6: Seq<char>|
                                    #[trigger] self.6.ok(s5, w6, s6) && ({
                                    ||| self.7.err(s6, e@)
                                    ||| exists|w7: U, s7: Seq<char>|
                                        #[trigger] self.7.ok(s6, w7, s7) && ({
                                        ||| self.8.err(s7, e@)
                                        ||| exists|w8: V, s8: Seq<char>|
                                            #[trigger] self.8.ok(s7, w8, s8) && ({
                                            ||| self.9.err(s8, e@)
                                            ||| exists|w9: W, s9: Seq<char>|
                                                #[trigger] self.9.ok(s8, w9, s9) && ({
                                                ||| self.10.err(s9, e@)
                                                ||| exists|w10: X, s10: Seq<char>|
                                                    #[trigger] self.10.ok(s9, w10, s10) && ({
                                                    self.11.err(s10, e@)
                                                    })
                                                })
                                            })
                                        })
                                    })
                                })
                            })
                    });
                    assert({
                        ||| self.3.err(r2@, e@)
                        ||| exists|w3: Q, s3: Seq<char>|
                            #[trigger] self.3.ok(r2@, w3, s3) && ({
                            ||| self.4.err(s3, e@)
                            ||| exists|w4: R, s4: Seq<char>|
                                #[trigger] self.4.ok(s3, w4, s4) && ({
                                ||| self.5.err(s4, e@)
                                ||| exists|w5: S, s5: Seq<char>|
                                    #[trigger] self.5.ok(s4, w5, s5) && ({
                                    ||| self.6.err(s5, e@)
                                    ||| exists|w6: T, s6: Seq<char>|
                                        #[trigger] self.6.ok(s5, w6, s6) && ({
                                        ||| self.7.err(s6, e@)
                                        ||| exists|w7: U, s7: Seq<char>|
                                            #[trigger] self.7.ok(s6, w7, s7) && ({
                                            ||| self.8.err(s7, e@)
                                            ||| exists|w8: V, s8: Seq<char>|
                                                #[trigger] self.8.ok(s7, w8, s8) && ({
                                                ||| self.9.err(s8, e@)
                                                ||| exists|w9: W, s9: Seq<char>|
                                                    #[trigger] self.9.ok(s8, w9, s9) && ({
                                                    ||| self.10.err(s9, e@)
                                                    ||| exists|w10: X, s10: Seq<char>|
                                                        #[trigger] self.10.ok(s9, w10, s10) && ({
                                                        self.11.err(s10, e@)
                                                        })
                                                    })
                                                })
                                            })
                                        })
                                    })
                                })
                            })
                    });
                    assert({
                        ||| self.2.err(r1@, e@)
                        ||| exists|w2: P, s2: Seq<char>|
                            #[trigger] self.2.ok(r1@, w2, s2) && ({
                            ||| self.3.err(s2, e@)
                            ||| exists|w3: Q, s3: Seq<char>|
                                #[trigger] self.3.ok(s2, w3, s3) && ({
                                ||| self.4.err(s3, e@)
                                ||| exists|w4: R, s4: Seq<char>|
                                    #[trigger] self.4.ok(s3, w4, s4) && ({
                                    ||| self.5.err(s4, e@)
                                    ||| exists|w5: S, s5: Seq<char>|
                                        #[trigger] self.5.ok(s4, w5, s5) && ({
                                        ||| self.6.err(s5, e@)
                                        ||| exists|w6: T, s6: Seq<char>|
                                            #[trigger] self.6.ok(s5, w6, s6) && ({
                                            ||| self.7.err(s6, e@)
                                            ||| exists|w7: U, s7: Seq<char>|
                                                #[trigger] self.7.ok(s6, w7, s7) && ({
                                                ||| self.8.err(s7, e@)
                                                ||| exists|w8: V, s8: Seq<char>|
                                                    #[trigger] self.8.ok(s7, w8, s8) && ({
                                                    ||| self.9.err(s8, e@)
                                                    ||| exists|w9: W, s9: Seq<char>|
                                                        #[trigger] self.9.ok(s8, w9, s9) && ({
                                                        ||| self.10.err(s9, e@)
                                                        ||| exists|w10: X, s10: Seq<char>|
                                                            #[trigger] self.10.ok(s9, w10, s10) && ({
                                                            self.11.err(s10, e@)
                                                            })
                                                        })
                                                    })
                                                })
                                            })
                                        })
                                    })
                                })
                            })
                    });
                    assert({
                        ||| self.1.err(r0@, e@)
                        ||| exists|w1: O, s1: Seq<char>|
                            #[trigger] self.1.ok(r0@, w1, s1) && ({
                            ||| self.2.err(s1, e@)
                            ||| exists|w2: P, s2: Seq<char>|
                                #[trigger] self.2.ok(s1, w2, s2) && ({
                                ||| self.3.err(s2, e@)
                                ||| exists|w3: Q, s3: Seq<char>|
                                    #[trigger] self.3.ok(s2, w3, s3) && ({
                                    ||| self.4.err(s3, e@)
                                    ||| exists|w4: R, s4: Seq<char>|
                                        #[trigger] self.4.ok(s3, w4, s4) && ({
                                        ||| self.5.err(s4, e@)
                                        ||| exists|w5: S, s5: Seq<char>|
                                            #[trigger] self.5.ok(s4, w5, s5) && ({
                                            ||| self.6.err(s5, e@)
                                            ||| exists|w6: T, s6: Seq<char>|
                                                #[trigger] self.6.ok(s5, w6, s6) && ({
                                                ||| self.7.err(s6, e@)
                                                ||| exists|w7: U, s7: Seq<char>|
                                                    #[trigger] self.7.ok(s6, w7, s7) && ({
                                                    ||| self.8.err(s7, e@)
                                                    ||| exists|w8: V, s8: Seq<char>|
                                                        #[trigger] self.8.ok(s7, w8, s8) && ({
                                                        ||| self.9.err(s8, e@)
                                                        ||| exists|w9: W, s9: Seq<char>|
                                                            #[trigger] self.9.ok(s8, w9, s9) && ({
                                                            ||| self.10.err(s9, e@)
                                                            ||| exists|w10: X, s10: Seq<char>|
                                                                #[trigger] self.10.ok(s9, w10, s10) && ({
                                                                self.11.err(s10, e@)
                                                                })
                                                            })
                                                        })
                                                    })
                                                })
                                            })
                                        })
                                    })
                                })
                            })
                    });
                    assert({
                        ||| self.0.err(input@, e@)
                        ||| exists|w0: N, s0: Seq<char>|
                            #[trigger] self.0.ok(input@, w0, s0) && ({
                            ||| self.1.err(s0, e@)
                            ||| exists|w1: O, s1: Seq<char>|
                                #[trigger] self.1.ok(s0, w1, s1) && ({
                                ||| self.2.err(s1, e@)
                                ||| exists|w2: P, s2: Seq<char>|
                                    #[trigger] self.2.ok(s1, w2, s2) && ({
                                    ||| self.3.err(s2, e@)
                                    ||| exists|w3: Q, s3: Seq<char>|
                                        #[trigger] self.3.ok(s2, w3, s3) && ({
                                        ||| self.4.err(s3, e@)
                                        ||| exists|w4: R, s4: Seq<char>|
                                            #[trigger] self.4.ok(s3, w4, s4) && ({
                                            ||| self.5.err(s4, e@)
                                            ||| exists|w5: S, s5: Seq<char>|
                                                #[trigger] self.5.ok(s4, w5, s5) && ({
                                                ||| self.6.err(s5, e@)
                                                ||| exists|w6: T, s6: Seq<char>|
                                                    #[trigger] self.6.ok(s5, w6, s6) && ({
                                                    ||| self.7.err(s6, e@)
                                                    ||| exists|w7: U, s7: Seq<char>|
                                                        #[trigger] self.7.ok(s6, w7, s7) && ({
                                                        ||| self.8.err(s7, e@)
                                                        ||| exists|w8: V, s8: Seq<char>|
                                                            #[trigger] self.8.ok(s7, w8, s8) && ({
                                                            ||| self.9.err(s8, e@)
                                                            ||| exists|w9: W, s9: Seq<char>|
                                                                #[trigger] self.9.ok(s8, w9, s9) && ({
                                                                ||| self.10.err(s9, e@)
                                                                ||| exists|w10: X, s10: Seq<char>|
                                                                    #[trigger] self.10.ok(s9, w10, s10) && ({
                                                                    self.11.err(s10, e@)
                                                                    })
                                                                })
                                                            })
                                                        })
                                                    })
                                                })
                                            })
                                        })
                                    })
                                })
                            })
                    });
                }
                return Err(e);
            },
        };
        let (v6, r6) = match self.6.parse(r5) {
            Ok(x) => x,
            Err(e) => {
                proof {
                    assert({
                        ||| self.5.err(r4@, e@)
                        ||| exists|w5: S, s5: Seq<char>|
                            #[trigger] self.5.ok(r4@, w5, s5) && ({
                            ||| self.6.err(s5, e@)
                            ||| exists|w6: T, s6: Seq<char>|
                                #[trigger] self.6.ok(s5, w6, s6) && ({
                                ||| self.7.err(s6, e@)
                                ||| exists|w7: U, s7: Seq<char>|
                                    #[trigger] self.7.ok(s6, w7, s7) && ({
                                    ||| self.8.err(s7, e@)
                                    ||| exists|w8: V, s8: Seq<char>|
                                        #[trigger] self.8.ok(s7, w8, s8) && ({
                                        ||| self.9.err(s8, e@)
                                        ||| exists|w9: W, s9: Seq<char>|
                                            #[trigger] self.9.ok(s8, w9, s9) && ({
                                            ||| self.10.err(s9, e@)
                                            ||| exists|w10: X, s10: Seq<char>|
                                                #[trigger] self.10.ok(s9, w10, s10) && ({
                                                self.11.err(s10, e@)
                                                })
                                            })
                                        })
                                    })
                                })
                            })
                    });
                    assert({
                        ||| self.4.err(r3@, e@)
                        ||| exists|w4: R, s4: Seq<char>|
                            #[trigger] self.4.ok(r3@, w4, s4) && ({
                            ||| self.5.err(s4, e@)
                            ||| exists|w5: S, s5: Seq<char>|
                                #[trigger] self.5.ok(s4, w5, s5) && ({
                                ||| self.6.err(s5, e@)
                                ||| exists|w6: T, s6: Seq<char>|
                                    #[trigger] self.6.ok(s5, w6, s6) && ({
                                    ||| self.7.err(s6, e@)
                                    ||| exists|w7: U, s7: Seq<char>|
                                        #[trigger] self.7.ok(s6, w7, s7) && ({
                                        ||| self.8.err(s7, e@)
                                        ||| exists|w8: V, s8: Seq<char>|
                                            #[trigger] self.8.ok(s7, w8, s8) && ({
                                            ||| self.9.err(s8, e@)
                                            ||| exists|w9: W, s9: Seq<char>|
                                                #[trigger] self.9.ok(s8, w9, s9) && ({
                                                ||| self.10.err(s9, e@)
                                                ||| exists|w10: X, s10: Seq<char>|
                                                    #[trigger] self.10.ok(s9, w10, s10) && ({
                                                    self.11.err(s10, e@)
                                                    })
                                                })
                                            })
                                        })
                                    })
                                })
                            })
                    });
                    assert({
                        ||| self.3.err(r2@, e@)
                        ||| exists|w3: Q, s3: Seq<char>|
                            #[trigger] self.3.ok(r2@, w3, s3) && ({
                            ||| self.4.err(s3, e@)
                            ||| exists|w4: R, s4: Seq<char>|
                                #[trigger] self.4.ok(s3, w4, s4) && ({
                                ||| self.5.err(s4, e@)
                                ||| exists|w5: S, s5: Seq<char>|
                                    #[trigger] self.5.ok(s4, w5, s5) && ({
                                    ||| self.6.err(s5, e@)
                                    ||| exists|w6: T, s6: Seq<char>|
                                        #[trigger] self.6.ok(s5, w6, s6) && ({
                                        ||| self.7.err(s6, e@)
                                        ||| exists|w7: U, s7: Seq<char>|
                                            #[trigger] self.7.ok(s6, w7, s7) && ({
                                            ||| self.8.err(s7, e@)
                                            ||| exists|w8: V, s8: Seq<char>|
                                                #[trigger] self.8.ok(s7, w8, s8) && ({
                                                ||| self.9.err(s8, e@)
                                                ||| exists|w9: W, s9: Seq<char>|
                                                    #[trigger] self.9.ok(s8, w9, s9) && ({
                                                    ||| self.10.err(s9, e@)
                                                    ||| exists|w10: X, s10: Seq<char>|
                                                        #[trigger] self.10.ok(s9, w10, s10) && ({
                                                        self.11.err(s10, e@)
                                                        })
                                                    })
                                                })
                                            })
                                        })
                                    })
                                })
                            })
                    });
                    assert({
                        ||| self.2.err(r1@, e@)
                        ||| exists|w2: P, s2: Seq<char>|
                            #[trigger] self.2.ok(r1@, w2, s2) && ({
                            ||| self.3.err(s2, e@)
                            ||| exists|w3: Q, s3: Seq<char>|
                                #[trigger] self.3.ok(s2, w3, s3) && ({
                                ||| self.4.err(s3, e@)
                                ||| exists|w4: R, s4: Seq<char>|
                                    #[trigger] self.4.ok(s3, w4, s4) && ({
                                    ||| self.5.err(s4, e@)
                                    ||| exists|w5: S, s5: Seq<char>|
                                        #[trigger] self.5.ok(s4, w5, s5) && ({
                                        ||| self.6.err(s5, e@)
                                        ||| exists|w6: T, s6: Seq<char>|
                                            #[trigger] self.6.ok(s5, w6, s6) && ({
                                            ||| self.7.err(s6, e@)
                                            ||| exists|w7: U, s7: Seq<char>|
                                                #[trigger] self.7.ok(s6, w7, s7) && ({
                                                ||| self.8.err(s7, e@)
                                                ||| exists|w8: V, s8: Seq<char>|
                                                    #[trigger] self.8.ok(s7, w8, s8) && ({
                                                    ||| self.9.err(s8, e@)
                                                    ||| exists|w9: W, s9: Seq<char>|
                                                        #[trigger] self.9.ok(s8, w9, s9) && ({
                                                        ||| self.10.err(s9, e@)
                                                        ||| exists|w10: X, s10: Seq<char>|
                                                            #[trigger] self.10.ok(s9, w10, s10) && ({
                                                            self.11.err(s10, e@)
                                                            })
                                                        })
                                                    })
                                                })
                                            })
                                        })
                                    })
                                })
                            })
                    });
                    assert({
                        ||| self.1.err(r0@, e@)
                        ||| exists|w1: O, s1: Seq<char>|
                            #[trigger] self.1.ok(r0@, w1, s1) && ({
                            ||| self.2.err(s1, e@)
                            ||| exists|w2: P, s2: Seq<char>|
                                #[trigger] self.2.ok(s1, w2, s2) && ({
                                ||| self.3.err(s2, e@)
                                ||| exists|w3: Q, s3: Seq<char>|
                                    #[trigger] self.3.ok(s2, w3, s3) && ({
                                    ||| self.4.err(s3, e@)
                                    ||| exists|w4: R, s4: Seq<char>|
                                        #[trigger] self.4.ok(s3, w4, s4) && ({
                                        ||| self.5.err(s4, e@)
                                        ||| exists|w5: S, s5: Seq<char>|
                                            #[trigger] self.5.ok(s4, w5, s5) && ({
                                            ||| self.6.err(s5, e@)
                                            ||| exists|w6: T, s6: Seq<char>|
                                                #[trigger] self.6.ok(s5, w6, s6) && ({
                                                ||| self.7.err(s6, e@)
                                                ||| exists|w7: U, s7: Seq<char>|
                                                    #[trigger] self.7.ok(s6, w7, s7) && ({
                                                    ||| self.8.err(s7, e@)
                                                    ||| exists|w8: V, s8: Seq<char>|
                                                        #[trigger] self.8.ok(s7, w8, s8) && ({
                                                        ||| self.9.err(s8, e@)
                                                        ||| exists|w9: W, s9: Seq<char>|
                                                            #[trigger] self.9.ok(s8, w9, s9) && ({
                                                            ||| self.10.err(s9, e@)
                                                            ||| exists|w10: X, s10: Seq<char>|
                                                                #[trigger] self.10.ok(s9, w10, s10) && ({
                                                                self.11.err(s10, e@)
                                                                })
                                                            })
                                                        })
                                                    })
                                                })
                                            })
                                        })
                                    })
                                })
                            })
                    });
                    assert({
                        ||| self.0.err(input@, e@)
                        ||| exists|w0: N, s0: Seq<char>|
                            #[trigger] self.0.ok(input@, w0, s0) && ({
                            ||| self.1.err(s0, e@)
                            ||| exists|w1: O, s1: Seq<char>|
                                #[trigger] self.1.ok(s0, w1, s1) && ({
                                ||| self.2.err(s1, e@)
                                ||| exists|w2: P, s2: Seq<char>|
                                    #[trigger] self.2.ok(s1, w2, s2) && ({
                                    ||| self.3.err(s2, e@)
                                    ||| exists|w3: Q, s3: Seq<char>|
                                        #[trigger] self.3.ok(s2, w3, s3) && ({
                                        ||| self.4.err(s3, e@)
                                        ||| exists|w4: R, s4: Seq<char>|
                                            #[trigger] self.4.ok(s3, w4, s4) && ({
                                            ||| self.5.err(s4, e@)
                                            ||| exists|w5: S, s5: Seq<char>|
                                                #[trigger] self.5.ok(s4, w5, s5) && ({
                                                ||| self.6.err(s5, e@)
                                                ||| exists|w6: T, s6: Seq<char>|
                                                    #[trigger] self.6.ok(s5, w6, s6) && ({
                                                    ||| self.7.err(s6, e@)
                                                    ||| exists|w7: U, s7: Seq<char>|
                                                        #[trigger] self.7.ok(s6, w7, s7) && ({
                                                        ||| self.8.err(s7, e@)
                                                        ||| exists|w8: V, s8: Seq<char>|
                                                            #[trigger] self.8.ok(s7, w8, s8) && ({
                                                            ||| self.9.err(s8, e@)
                                                            ||| exists|w9: W, s9: Seq<char>|
                                                                #[trigger] self.9.ok(s8, w9, s9) && ({
                                                                ||| self.10.err(s9, e@)
                                                                ||| exists|w10: X, s10: Seq<char>|
                                                                    #[trigger] self.10.ok(s9, w10, s10) && ({
                                                                    self.11.err(s10, e@)
                                                                    })
                                                                })
                                                            })
                                                        })
                                                    })
                                                })
                                            })
                                        })
                                    })
                                })
                            })
                    });
                }
                return Err(e);
            },
        };
        let (v7, r7) = match self.7.parse(r6) {
            Ok(x) => x,
            Err(e) => {
                proof {
                    assert({
                        ||| self.6.err(r5@, e@)
                        ||| exists|w6: T, s6: Seq<char>|
                            #[trigger] self.6.ok(r5@, w6, s6) && ({
                            ||| self.7.err(s6, e@)
                            ||| exists|w7: U, s7: Seq<char>|
                                #[trigger] self.7.ok(s6, w7, s7) && ({
                                ||| self.8.err(s7, e@)
                                ||| exists|w8: V, s8: Seq<char>|
                                    #[trigger] self.8.ok(s7, w8, s8) && ({
                                    ||| self.9.err(s8, e@)
                                    ||| exists|w9: W, s9: Seq<char>|
                                        #[trigger] self.9.ok(s8, w9, s9) && ({
                                        ||| self.10.err(s9, e@)
                                        ||| exists|w10: X, s10: Seq<char>|
                                            #[trigger] self.10.ok(s9, w10, s10) && ({
                                            self.11.err(s10, e@)
                                            })
                                        })
                                    })
                                })
                            })
                    });
                    assert({
                        ||| self.5.err(r4@, e@)
                        ||| exists|w5: S, s5: Seq<char>|
                            #[trigger] self.5.ok(r4@, w5, s5) && ({
                            ||| self.6.err(s5, e@)
                            ||| exists|w6: T, s6: Seq<char>|
                                #[trigger] self.6.ok(s5, w6, s6) && ({
                                ||| self.7.err(s6, e@)
                                ||| exists|w7: U, s7: Seq<char>|
                                    #[trigger] self.7.ok(s6, w7, s7) && ({
                                    ||| self.8.err(s7, e@)
                                    ||| exists|w8: V, s8: Seq<char>|
                                        #[trigger] self.8.ok(s7, w8, s8) && ({
                                        ||| self.9.err(s8, e@)
                                        ||| exists|w9: W, s9: Seq<char>|
                                            #[trigger] self.9.ok(s8, w9, s9) && ({
                                            ||| self.10.err(s9, e@)
                                            ||| exists|w10: X, s10: Seq<char>|
                                                #[trigger] self.10.ok(s9, w10, s10) && ({
                                                self.11.err(s10, e@)
                                                })
                                            })
                                        })
                                    })
                                })
                            })
                    });
                    assert({
                        ||| self.4.err(r3@, e@)
                        ||| exists|w4: R, s4: Seq<char>|
                            #[trigger] self.4.ok(r3@, w4, s4) && ({
                            ||| self.5.err(s4, e@)
                            ||| exists|w5: S, s5: Seq<char>|
                                #[trigger] self.5.ok(s4, w5, s5) && ({
                                ||| self.6.err(s5, e@)
                                ||| exists|w6: T, s6: Seq<char>|
                                    #[trigger] self.6.ok(s5, w6, s6) && ({
                                    ||| self.7.err(s6, e@)
                                    ||| exists|w7: U, s7: Seq<char>|
                                        #[trigger] self.7.ok(s6, w7, s7) && ({
                                        ||| self.8.err(s7, e@)
                                        ||| exists|w8: V, s8: Seq<char>|
                                            #[trigger] self.8.ok(s7, w8, s8) && ({
                                            ||| self.9.err(s8, e@)
                                            ||| exists|w9: W, s9: Seq<char>|
                                                #[trigger] self.9.ok(s8, w9, s9) && ({
                                                ||| self.10.err(s9, e@)
                                                ||| exists|w10: X, s10: Seq<char>|
                                                    #[trigger] self.10.ok(s9, w10, s10) && ({
                                                    self.11.err(s10, e@)
                                                    })
                                                })
                                            })
                                        })
                                    })
                                })
                            })
                    });
                    assert({
                        ||| self.3.err(r2@, e@)
                        ||| exists|w3: Q, s3: Seq<char>|
                            #[trigger] self.3.ok(r2@, w3, s3) && ({
                            ||| self.4.err(s3, e@)
                            ||| exists|w4: R, s4: Seq<char>|
                                #[trigger] self.4.ok(s3, w4, s4) && ({
                                ||| self.5.err(s4, e@)
                                ||| exists|w5: S, s5: Seq<char>|
                                    #[trigger] self.5.ok(s4, w5, s5) && ({
                                    ||| self.6.err(s5, e@)
                                    ||| exists|w6: T, s6: Seq<char>|
                                        #[trigger] self.6.ok(s5, w6, s6) && ({
                                        ||| self.7.err(s6, e@)
                                        ||| exists|w7: U, s7: Seq<char>|
                                            #[trigger] self.7.ok(s6, w7, s7) && ({
                                            ||| self.8.err(s7, e@)
                                            ||| exists|w8: V, s8: Seq<char>|
                                                #[trigger] self.8.ok(s7, w8, s8) && ({
                                                ||| self.9.err(s8, e@)
                                                ||| exists|w9: W, s9: Seq<char>|
                                                    #[trigger] self.9.ok(s8, w9, s9) && ({
                                                    ||| self.10.err(s9, e@)
                                                    ||| exists|w10: X, s10: Seq<char>|
                                                        #[trigger] self.10.ok(s9, w10, s10) && ({
                                                        self.11.err(s10, e@)
                                                        })
                                                    })
                                                })
                                            })
                                        })
                                    })
                                })
                            })
                    });
                    assert({
                        ||| self.2.err(r1@, e@)
                        ||| exists|w2: P, s2: Seq<char>|
                            #[trigger] self.2.ok(r1@, w2, s2) && ({
                            ||| self.3.err(s2, e@)
                            ||| exists|w3: Q, s3: Seq<char>|
                                #[trigger] self.3.ok(s2, w3, s3) && ({
                                ||| self.4.err(s3, e@)
                                ||| exists|w4: R, s4: Seq<char>|
                                    #[trigger] self.4.ok(s3, w4, s4) && ({
                                    ||| self.5.err(s4, e@)
                                    ||| exists|w5: S, s5: Seq<char>|
                                        #[trigger] self.5.ok(s4, w5, s5) && ({
                                        ||| self.6.err(s5, e@)
                                        ||| exists|w6: T, s6: Seq<char>|
                                            #[trigger] self.6.ok(s5, w6, s6) && ({
                                            ||| self.7.err(s6, e@)
                                            ||| exists|w7: U, s7: Seq<char>|
                                                #[trigger] self.7.ok(s6, w7, s7) && ({
                                                ||| self.8.err(s7, e@)
                                                ||| exists|w8: V, s8: Seq<char>|
                                                    #[trigger] self.8.ok(s7, w8, s8) && ({
                                                    ||| self.9.err(s8, e@)
                                                    ||| exists|w9: W, s9: Seq<char>|
                                                        #[trigger] self.9.ok(s8, w9, s9) && ({
                                                        ||| self.10.err(s9, e@)
                                                        ||| exists|w10: X, s10: Seq<char>|
                                                            #[trigger] self.10.ok(s9, w10, s10) && ({
                                                            self.11.err(s10, e@)
                                                            })
                                                        })
                                                    })
                                                })
                                            })
                                        })
                                    })
                                })
                            })
                    });
                    assert({
                        ||| self.1.err(r0@, e@)
                        ||| exists|w1: O, s1: Seq<char>|
                            #[trigger] self.1.ok(r0@, w1, s1) && ({
                            ||| self.2.err(s1, e@)
                            ||| exists|w2: P, s2: Seq<char>|
                                #[trigger] self.2.ok(s1, w2, s2) && ({
                                ||| self.3.err(s2, e@)
                                ||| exists|w3: Q, s3: Seq<char>|
                                    #[trigger] self.3.ok(s2, w3, s3) && ({
                                    ||| self.4.err(s3, e@)
                                    ||| exists|w4: R, s4: Seq<char>|
                                        #[trigger] self.4.ok(s3, w4, s4) && ({
                                        ||| self.5.err(s4, e@)
                                        ||| exists|w5: S, s5: Seq<char>|
                                            #[trigger] self.5.ok(s4, w5, s5) && ({
                                            ||| self.6.err(s5, e@)
                                            ||| exists|w6: T, s6: Seq<char>|
                                                #[trigger] self.6.ok(s5, w6, s6) && ({
                                                ||| self.7.err(s6, e@)
                                                ||| exists|w7: U, s7: Seq<char>|
                                                    #[trigger] self.7.ok(s6, w7, s7) && ({
                                                    ||| self.8.err(s7, e@)
                                                    ||| exists|w8: V, s8: Seq<char>|
                                                        #[trigger] self.8.ok(s7, w8, s8) && ({
                                                        ||| self.9.err(s8, e@)
                                                        ||| exists|w9: W, s9: Seq<char>|
                                                            #[trigger] self.9.ok(s8, w9, s9) && ({
                                                            ||| self.10.err(s9, e@)
                                                            ||| exists|w10: X, s10: Seq<char>|
                                                                #[trigger] self.10.ok(s9, w10, s10) && ({
                                                                self.11.err(s10, e@)
                                                                })
                                                            })
                                                        })
                                                    })
                                                })
                                            })
                                        })
                                    })
                                })
                            })
                    });
                    assert({
                        ||| self.0.err(input@, e@)
                        ||| exists|w0: N, s0: Seq<char>|
                            #[trigger] self.0.ok(input@, w0, s0) && ({
                            ||| self.1.err(s0, e@)
                            ||| exists|w1: O, s1: Seq<char>|
                                #[trigger] self.1.ok(s0, w1, s1) && ({
                                ||| self.2.err(s1, e@)
                                ||| exists|w2: P, s2: Seq<char>|
                                    #[trigger] self.2.ok(s1, w2, s2) && ({
                                    ||| self.3.err(s2, e@)
                                    ||| exists|w3: Q, s3: Seq<char>|
                                        #[trigger] self.3.ok(s2, w3, s3) && ({
                                        ||| self.4.err(s3, e@)
                                        ||| exists|w4: R, s4: Seq<char>|
                                            #[trigger] self.4.ok(s3, w4, s4) && ({
                                            ||| self.5.err(s4, e@)
                                            ||| exists|w5: S, s5: Seq<char>|
                                                #[trigger] self.5.ok(s4, w5, s5) && ({
                                                ||| self.6.err(s5, e@)
                                                ||| exists|w6: T, s6: Seq<char>|
                                                    #[trigger] self.6.ok(s5, w6, s6) && ({
                                                    ||| self.7.err(s6, e@)
                                                    ||| exists|w7: U, s7: Seq<char>|
                                                        #[trigger] self.7.ok(s6, w7, s7) && ({
                                                        ||| self.8.err(s7, e@)
                                                        ||| exists|w8: V, s8: Seq<char>|
                                                            #[trigger] self.8.ok(s7, w8, s8) && ({
                                                            ||| self.9.err(s8, e@)
                                                            ||| exists|w9: W, s9: Seq<char>|
                                                                #[trigger] self.9.ok(s8, w9, s9) && ({
                                                                ||| self.10.err(s9, e@)
                                                                ||| exists|w10: X, s10: Seq<char>|
                                                                    #[trigger] self.10.ok(s9, w10, s10) && ({
                                                                    self.11.err(s10, e@)
                                                                    })
                                                                })
                                                            })
                                                        })
                                                    })
                                                })
                                            })
                                        })
                                    })
                                })
                            })
                    });
                }
                return Err(e);
            },
        };
        let (v8, r8) = match self.8.parse(r7) {
            Ok(x) => x,
            Err(e) => {
                proof {
                    assert({
                        ||| self.7.err(r6@, e@)
                        ||| exists|w7: U, s7: Seq<char>|
                            #[trigger] self.7.ok(r6@, w7, s7) && ({
                            ||| self.8.err(s7, e@)
                            ||| exists|w8: V, s8: Seq<char>|
                                #[trigger] self.8.ok(s7, w8, s8) && ({
                                ||| self.9.err(s8, e@)
                                ||| exists|w9: W, s9: Seq<char>|
                                    #[trigger] self.9.ok(s8, w9, s9) && ({
                                    ||| self.10.err(s9, e@)
                                    ||| exists|w10: X, s10: Seq<char>|
                                        #[trigger] self.10.ok(s9, w10, s10) && ({
                                        self.11.err(s10, e@)
                                        })
                                    })
                                })
                            })
                    });
                    assert({
                        ||| self.6.err(r5@, e@)
                        ||| exists|w6: T, s6: Seq<char>|
                            #[trigger] self.6.ok(r5@, w6, s6) && ({
                            ||| self.7.err(s6, e@)
                            ||| exists|w7: U, s7: Seq<char>|
                                #[trigger] self.7.ok(s6, w7, s7) && ({
                                ||| self.8.err(s7, e@)
                                ||| exists|w8: V, s8: Seq<char>|
                                    #[trigger] self.8.ok(s7, w8, s8) && ({
                                    ||| self.9.err(s8, e@)
                                    ||| exists|w9: W, s9: Seq<char>|
                                        #[trigger] self.9.ok(s8, w9, s9) && ({
                                        ||| self.10.err(s9, e@)
                                        ||| exists|w10: X, s10: Seq<char>|
                                            #[trigger] self.10.ok(s9, w10, s10) && ({
                                            self.11.err(s10, e@)
                                            })
                                        })
                                    })
                                })
                            })
                    });
                    assert({
                        ||| self.5.err(r4@, e@)
                        ||| exists|w5: S, s5: Seq<char>|
                            #[trigger] self.5.ok(r4@, w5, s5) && ({
                            ||| self.6.err(s5, e@)
                            ||| exists|w6: T, s6: Seq<char>|
                                #[trigger] self.6.ok(s5, w6, s6) && ({
                                ||| self.7.err(s6, e@)
                                ||| exists|w7: U, s7: Seq<char>|
                                    #[trigger] self.7.ok(s6, w7, s7) && ({
                                    ||| self.8.err(s7, e@)
                                    ||| exists|w8: V, s8: Seq<char>|
                                        #[trigger] self.8.ok(s7, w8, s8) && ({
                                        ||| self.9.err(s8, e@)
                                        ||| exists|w9: W, s9: Seq<char>|
                                            #[trigger] self.9.ok(s8, w9, s9) && ({
                                            ||| self.10.err(s9, e@)
                                            ||| exists|w10: X, s10: Seq<char>|
                                                #[trigger] self.10.ok(s9, w10, s10) && ({
                                                self.11.err(s10, e@)
                                                })
                                            })
                                        })
                                    })
                                })
                            })
                    });
                    assert({
                        ||| self.4.err(r3@, e@)
                        ||| exists|w4: R, s4: Seq<char>|
                            #[trigger] self.4.ok(r3@, w4, s4) && ({
                            ||| self.5.err(s4, e@)
                            ||| exists|w5: S, s5: Seq<char>|
                                #[trigger] self.5.ok(s4, w5, s5) && ({
                                ||| self.6.err(s5, e@)
                                ||| exists|w6: T, s6: Seq<char>|
                                    #[trigger] self.6.ok(s5, w6, s6) && ({
                                    ||| self.7.err(s6, e@)
                                    ||| exists|w7: U, s7: Seq<char>|
                                        #[trigger] self.7.ok(s6, w7, s7) && ({
                                        ||| self.8.err(s7, e@)
                                        ||| exists|w8: V, s8: Seq<char>|
                                            #[trigger] self.8.ok(s7, w8, s8) && ({
                                            ||| self.9.err(s8, e@)
                                            ||| exists|w9: W, s9: Seq<char>|
                                                #[trigger] self.9.ok(s8, w9, s9) && ({
                                                ||| self.10.err(s9, e@)
                                                ||| exists|w10: X, s10: Seq<char>|
                                                    #[trigger] self.10.ok(s9, w10, s10) && ({
                                                    self.11.err(s10, e@)
                                                    })
                                                })
                                            })
                                        })
                                    })
                                })
                            })
                    });
                    assert({
                        ||| self.3.err(r2@, e@)
                        ||| exists|w3: Q, s3: Seq<char>|
                            #[trigger] self.3.ok(r2@, w3, s3) && ({
                            ||| self.4.err(s3, e@)
                            ||| exists|w4: R, s4: Seq<char>|
                                #[trigger] self.4.ok(s3, w4, s4) && ({
                                ||| self.5.err(s4, e@)
                                ||| exists|w5: S, s5: Seq<char>|
                                    #[trigger] self.5.ok(s4, w5, s5) && ({
                                    ||| self.6.err(s5, e@)
                                    ||| exists|w6: T, s6: Seq<char>|
                                        #[trigger] self.6.ok(s5, w6, s6) && ({
                                        ||| self.7.err(s6, e@)
                                        ||| exists|w7: U, s7: Seq<char>|
                                            #[trigger] self.7.ok(s6, w7, s7) && ({
                                            ||| self.8.err(s7, e@)
                                            ||| exists|w8: V, s8: Seq<char>|
                                                #[trigger] self.8.ok(s7, w8, s8) && ({
                                                ||| self.9.err(s8, e@)
                                                ||| exists|w9: W, s9: Seq<char>|
                                                    #[trigger] self.9.ok(s8, w9, s9) && ({
                                                    ||| self.10.err(s9, e@)
                                                    ||| exists|w10: X, s10: Seq<char>|
                                                        #[trigger] self.10.ok(s9, w10, s10) && ({
                                                        self.11.err(s10, e@)
                                                        })
                                                    })
                                                })
                                            })
                                        })
                                    })
                                })
                            })
                    });
                    assert({
                        ||| self.2.err(r1@, e@)
                        ||| exists|w2: P, s2: Seq<char>|
                            #[trigger] self.2.ok(r1@, w2, s2) && ({
                            ||| self.3.err(s2, e@)
                            ||| exists|w3: Q, s3: Seq<char>|
                                #[trigger] self.3.ok(s2, w3, s3) && ({
                                ||| self.4.err(s3, e@)
                                ||| exists|w4: R, s4: Seq<char>|
                                    #[trigger] self.4.ok(s3, w4, s4) && ({
                                    ||| self.5.err(s4, e@)
                                    ||| exists|w5: S, s5: Seq<char>|
                                        #[trigger] self.5.ok(s4, w5, s5) && ({
                                        ||| self.6.err(s5, e@)
                                        ||| exists|w6: T, s6: Seq<char>|
                                            #[trigger] self.6.ok(s5, w6, s6) && ({
                                            ||| self.7.err(s6, e@)
                                            ||| exists|w7: U, s7: Seq<char>|
                                                #[trigger] self.7.ok(s6, w7, s7) && ({
                                                ||| self.8.err(s7, e@)
                                                ||| exists|w8: V, s8: Seq<char>|
                                                    #[trigger] self.8.ok(s7, w8, s8) && ({
                                                    ||| self.9.err(s8, e@)
                                                    ||| exists|w9: W, s9: Seq<char>|
                                                        #[trigger] self.9.ok(s8, w9, s9) && ({
                                                        ||| self.10.err(s9, e@)
                                                        ||| exists|w10: X, s10: Seq<char>|
                                                            #[trigger] self.10.ok(s9, w10, s10) && ({
                                                            self.11.err(s10, e@)
                                                            })
                                                        })
                                                    })
                                                })
                                            })
                                        })
                                    })
                                })
                            })
                    });
                    assert({
                        ||| self.1.err(r0@, e@)
                        ||| exists|w1: O, s1: Seq<char>|
                            #[trigger] self.1.ok(r0@, w1, s1) && ({
                            ||| self.2.err(s1, e@)
                            ||| exists|w2: P, s2: Seq<char>|
                                #[trigger] self.2.ok(s1, w2, s2) && ({
                                ||| self.3.err(s2, e@)
                                ||| exists|w3: Q, s3: Seq<char>|
                                    #[trigger] self.3.ok(s2, w3, s3) && ({
                                    ||| self.4.err(s3, e@)
                                    ||| exists|w4: R, s4: Seq<char>|
                                        #[trigger] self.4.ok(s3, w4, s4) && ({
                                        ||| self.5.err(s4, e@)
                                        ||| exists|w5: S, s5: Seq<char>|
                                            #[trigger] self.5.ok(s4, w5, s5) && ({
                                            ||| self.6.err(s5, e@)
                                            ||| exists|w6: T, s6: Seq<char>|
                                                #[trigger] self.6.ok(s5, w6, s6) && ({
                                                ||| self.7.err(s6, e@)
                                                ||| exists|w7: U, s7: Seq<char>|
                                                    #[trigger] self.7.ok(s6, w7, s7) && ({
                                                    ||| self.8.err(s7, e@)
                                                    ||| exists|w8: V, s8: Seq<char>|
                                                        #[trigger] self.8.ok(s7, w8, s8) && ({
                                                        ||| self.9.err(s8, e@)
                                                        ||| exists|w9: W, s9: Seq<char>|
                                                            #[trigger] self.9.ok(s8, w9, s9) && ({
                                                            ||| self.10.err(s9, e@)
                                                            ||| exists|w10: X, s10: Seq<char>|
                                                                #[trigger] self.10.ok(s9, w10, s10) && ({
                                                                self.11.err(s10, e@)
                                                                })
                                                            })
                                                        })
                                                    })
                                                })
                                            })
                                        })
                                    })
                                })
                            })
                    });
                    assert({
                        ||| self.0.err(input@, e@)
                        ||| exists|w0: N, s0: Seq<char>|
                            #[trigger] self.0.ok(input@, w0, s0) && ({
                            ||| self.1.err(s0, e@)
                            ||| exists|w1: O, s1: Seq<char>|
                                #[trigger] self.1.ok(s0, w1, s1) && ({
                                ||| self.2.err(s1, e@)
                                ||| exists|w2: P, s2: Seq<char>|
                                    #[trigger] self.2.ok(s1, w2, s2) && ({
                                    ||| self.3.err(s2, e@)
                                    ||| exists|w3: Q, s3: Seq<char>|
                                        #[trigger] self.3.ok(s2, w3, s3) && ({
                                        ||| self.4.err(s3, e@)
                                        ||| exists|w4: R, s4: Seq<char>|
                                            #[trigger] self.4.ok(s3, w4, s4) && ({
                                            ||| self.5.err(s4, e@)
                                            ||| exists|w5: S, s5: Seq<char>|
                                                #[trigger] self.5.ok(s4, w5, s5) && ({
                                                ||| self.6.err(s5, e@)
                                                ||| exists|w6: T, s6: Seq<char>|
                                                    #[trigger] self.6.ok(s5, w6, s6) && ({
                                                    ||| self.7.err(s6, e@)
                                                    ||| exists|w7: U, s7: Seq<char>|
                                                        #[trigger] self.7.ok(s6, w7, s7) && ({
                                                        ||| self.8.err(s7, e@)
                                                        ||| exists|w8: V, s8: Seq<char>|
                                                            #[trigger] self.8.ok(s7, w8, s8) && ({
                                                            ||| self.9.err(s8, e@)
                                                            ||| exists|w9: W, s9: Seq<char>|
                                                                #[trigger] self.9.ok(s8, w9, s9) && ({
                                                                ||| self.10.err(s9, e@)
                                                                ||| exists|w10: X, s10: Seq<char>|
                                                                    #[trigger] self.10.ok(s9, w10, s10) && ({
                                                                    self.11.err(s10, e@)
                                                                    })
                                                                })
                                                            })
                                                        })
                                                    })
                                                })
                                            })
                                        })
                                    })
                                })
                            })
                    });
                }
                return Err(e);
            },
        };
        let (v9, r9) = match self.9.parse(r8) {
            Ok(x) => x,
            Err(e) => {
                proof {
                    assert({
                        ||| self.8.err(r7@, e@)
                        ||| exists|w8: V, s8: Seq<char>|
                            #[trigger] self.8.ok(r7@, w8, s8) && ({
                            ||| self.9.err(s8, e@)
                            ||| exists|w9: W, s9: Seq<char>|
                                #[trigger] self.9.ok(s8, w9, s9) && ({
                                ||| self.10.err(s9, e@)
                                ||| exists|w10: X, s10: Seq<char>|
                                    #[trigger] self.10.ok(s9, w10, s10) && ({
                                    self.11.err(s10, e@)
                                    })
                                })
                            })
                    });
                    assert({
                        ||| self.7.err(r6@, e@)
                        ||| exists|w7: U, s7: Seq<char>|
                            #[trigger] self.7.ok(r6@, w7, s7) && ({
                            ||| self.8.err(s7, e@)
                            ||| exists|w8: V, s8: Seq<char>|
                                #[trigger] self.8.ok(s7, w8, s8) && ({
                                ||| self.9.err(s8, e@)
                                ||| exists|w9: W, s9: Seq<char>|
                                    #[trigger] self.9.ok(s8, w9, s9) && ({
                                    ||| self.10.err(s9, e@)
                                    ||| exists|w10: X, s10: Seq<char>|
                                        #[trigger] self.10.ok(s9, w10, s10) && ({
                                        self.11.err(s10, e@)
                                        })
                                    })
                                })
                            })
                    });
                    assert({
                        ||| self.6.err(r5@, e@)
                        ||| exists|w6: T, s6: Seq<char>|
                            #[trigger] self.6.ok(r5@, w6, s6) && ({
                            ||| self.7.err(s6, e@)
                            ||| exists|w7: U, s7: Seq<char>|
                                #[trigger] self.7.ok(s6, w7, s7) && ({
                                ||| self.8.err(s7, e@)
                                ||| exists|w8: V, s8: Seq<char>|
                                    #[trigger] self.8.ok(s7, w8, s8) && ({
                                    ||| self.9.err(s8, e@)
                                    ||| exists|w9: W, s9: Seq<char>|
                                        #[trigger] self.9.ok(s8, w9, s9) && ({
                                        ||| self.10.err(s9, e@)
                                        ||| exists|w10: X, s10: Seq<char>|
                                            #[trigger] self.10.ok(s9, w10, s10) && ({
                                            self.11.err(s10, e@)
                                            })
                                        })
                                    })
                                })
                            })
                    });
                    assert({
                        ||| self.5.err(r4@, e@)
                        ||| exists|w5: S, s5: Seq<char>|
                            #[trigger] self.5.ok(r4@, w5, s5) && ({
                            ||| self.6.err(s5, e@)
                            ||| exists|w6: T, s6: Seq<char>|
                                #[trigger] self.6.ok(s5, w6, s6) && ({
                                ||| self.7.err(s6, e@)
                                ||| exists|w7: U, s7: Seq<char>|
                                    #[trigger] self.7.ok(s6, w7, s7) && ({
                                    ||| self.8.err(s7, e@)
                                    ||| exists|w8: V, s8: Seq<char>|
                                        #[trigger] self.8.ok(s7, w8, s8) && ({
                                        ||| self.9.err(s8, e@)
                                        ||| exists|w9: W, s9: Seq<char>|
                                            #[trigger] self.9.ok(s8, w9, s9) && ({
                                            ||| self.10.err(s9, e@)
                                            ||| exists|w10: X, s10: Seq<char>|
                                                #[trigger] self.10.ok(s9, w10, s10) && ({
                                                self.11.err(s10, e@)
                                                })
                                            })
                                        })
                                    })
                                })
                            })
                    });
                    assert({
                        ||| self.4.err(r3@, e@)
                        ||| exists|w4: R, s4: Seq<char>|
                            #[trigger] self.4.ok(r3@, w4, s4) && ({
                            ||| self.5.err(s4, e@)
                            ||| exists|w5: S, s5: Seq<char>|
                                #[trigger] self.5.ok(s4, w5, s5) && ({
                                ||| self.6.err(s5, e@)
                                ||| exists|w6: T, s6: Seq<char>|
                                    #[trigger] self.6.ok(s5, w6, s6) && ({
                                    ||| self.7.err(s6, e@)
                                    ||| exists|w7: U, s7: Seq<char>|
                                        #[trigger] self.7.ok(s6, w7, s7) && ({
                                        ||| self.8.err(s7, e@)
                                        ||| exists|w8: V, s8: Seq<char>|
                                            #[trigger] self.8.ok(s7, w8, s8) && ({
                                            ||| self.9.err(s8, e@)
                                            ||| exists|w9: W, s9: Seq<char>|
                                                #[trigger] self.9.ok(s8, w9, s9) && ({
                                                ||| self.10.err(s9, e@)
                                                ||| exists|w10: X, s10: Seq<char>|
                                                    #[trigger] self.10.ok(s9, w10, s10) && ({
                                                    self.11.err(s10, e@)
                                                    })
                                                })
                                            })
                                        })
                                    })
                                })
                            })
                    });
                    assert({
                        ||| self.3.err(r2@, e@)
                        ||| exists|w3: Q, s3: Seq<char>|
                            #[trigger] self.3.ok(r2@, w3, s3) && ({
                            ||| self.4.err(s3, e@)
                            ||| exists|w4: R, s4: Seq<char>|
                                #[trigger] self.4.ok(s3, w4, s4) && ({
                                ||| self.5.err(s4, e@)
                                ||| exists|w5: S, s5: Seq<char>|
                                    #[trigger] self.5.ok(s4, w5, s5) && ({
                                    ||| self.6.err(s5, e@)
                                    ||| exists|w6: T, s6: Seq<char>|
                                        #[trigger] self.6.ok(s5, w6, s6) && ({
                                        ||| self.7.err(s6, e@)
                                        ||| exists|w7: U, s7: Seq<char>|
                                            #[trigger] self.7.ok(s6, w7, s7) && ({
                                            ||| self.8.err(s7, e@)
                                            ||| exists|w8: V, s8: Seq<char>|
                                                #[trigger] self.8.ok(s7, w8, s8) && ({
                                                ||| self.9.err(s8, e@)
                                                ||| exists|w9: W, s9: Seq<char>|
                                                    #[trigger] self.9.ok(s8, w9, s9) && ({
                                                    ||| self.10.err(s9, e@)
                                                    ||| exists|w10: X, s10: Seq<char>|
                                                        #[trigger] self.10.ok(s9, w10, s10) && ({
                                                        self.11.err(s10, e@)
                                                        })
                                                    })
                                                })
                                            })
                                        })
                                    })
                                })
                            })
                    });
                    assert({
                        ||| self.2.err(r1@, e@)
                        ||| exists|w2: P, s2: Seq<char>|
                            #[trigger] self.2.ok(r1@, w2, s2) && ({
                            ||| self.3.err(s2, e@)
                            ||| exists|w3: Q, s3: Seq<char>|
                                #[trigger] self.3.ok(s2, w3, s3) && ({
                                ||| self.4.err(s3, e@)
                                ||| exists|w4: R, s4: Seq<char>|
                                    #[trigger] self.4.ok(s3, w4, s4) && ({
                                    ||| self.5.err(s4, e@)
                                    ||| exists|w5: S, s5: Seq<char>|
                                        #[trigger] self.5.ok(s4, w5, s5) && ({
                                        ||| self.6.err(s5, e@)
                                        ||| exists|w6: T, s6: Seq<char>|
                                            #[trigger] self.6.ok(s5, w6, s6) && ({
                                            ||| self.7.err(s6, e@)
                                            ||| exists|w7: U, s7: Seq<char>|
                                                #[trigger] self.7.ok(s6, w7, s7) && ({
                                                ||| self.8.err(s7, e@)
                                                ||| exists|w8: V, s8: Seq<char>|
                                                    #[trigger] self.8.ok(s7, w8, s8) && ({
                                                    ||| self.9.err(s8, e@)
                                                    ||| exists|w9: W, s9: Seq<char>|
                                                        #[trigger] self.9.ok(s8, w9, s9) && ({
                                                        ||| self.10.err(s9, e@)
                                                        ||| exists|w10: X, s10: Seq<char>|
                                                            #[trigger] self.10.ok(s9, w10, s10) && ({
                                                            self.11.err(s10, e@)
                                                            })
                                                        })
                                                    })
                                                })
                                            })
                                        })
                                    })
                                })
                            })
                    });
                    assert({
                        ||| self.1.err(r0@, e@)
                        ||| exists|w1: O, s1: Seq<char>|
                            #[trigger] self.1.ok(r0@, w1, s1) && ({
                            ||| self.2.err(s1, e@)
                            ||| exists|w2: P, s2: Seq<char>|
                                #[trigger] self.2.ok(s1, w2, s2) && ({
                                ||| self.3.err(s2, e@)
                                ||| exists|w3: Q, s3: Seq<char>|
                                    #[trigger] self.3.ok(s2, w3, s3) && ({
                                    ||| self.4.err(s3, e@)
                                    ||| exists|w4: R, s4: Seq<char>|
                                        #[trigger] self.4.ok(s3, w4, s4) && ({
                                        ||| self.5.err(s4, e@)
                                        ||| exists|w5: S, s5: Seq<char>|
                                            #[trigger] self.5.ok(s4, w5, s5) && ({
                                            ||| self.6.err(s5, e@)
                                            ||| exists|w6: T, s6: Seq<char>|
                                                #[trigger] self.6.ok(s5, w6, s6) && ({
                                                ||| self.7.err(s6, e@)
                                                ||| exists|w7: U, s7: Seq<char>|
                                                    #[trigger] self.7.ok(s6, w7, s7) && ({
                                                    ||| self.8.err(s7, e@)
                                                    ||| exists|w8: V, s8: Seq<char>|
                                                        #[trigger] self.8.ok(s7, w8, s8) && ({
                                                        ||| self.9.err(s8, e@)
                                                        ||| exists|w9: W, s9: Seq<char>|
                                                            #[trigger] self.9.ok(s8, w9, s9) && ({
                                                            ||| self.10.err(s9, e@)
                                                            ||| exists|w10: X, s10: Seq<char>|
                                                                #[trigger] self.10.ok(s9, w10, s10) && ({
                                                                self.11.err(s10, e@)
                                                                })
                                                            })
                                                        })
                                                    })
                                                })
                                            })
                                        })
                                    })
                                })
                            })
                    });
                    assert({
                        ||| self.0.err(input@, e@)
                        ||| exists|w0: N, s0: Seq<char>|
                            #[trigger] self.0.ok(input@, w0, s0) && ({
                            ||| self.1.err(s0, e@)
                            ||| exists|w1: O, s1: Seq<char>|
                                #[trigger] self.1.ok(s0, w1, s1) && ({
                                ||| self.2.err(s1, e@)
                                ||| exists|w2: P, s2: Seq<char>|
                                    #[trigger] self.2.ok(s1, w2, s2) && ({
                                    ||| self.3.err(s2, e@)
                                    ||| exists|w3: Q, s3: Seq<char>|
                                        #[trigger] self.3.ok(s2, w3, s3) && ({
                                        ||| self.4.err(s3, e@)
                                        ||| exists|w4: R, s4: Seq<char>|
                                            #[trigger] self.4.ok(s3, w4, s4) && ({
                                            ||| self.5.err(s4, e@)
                                            ||| exists|w5: S, s5: Seq<char>|
                                                #[trigger] self.5.ok(s4, w5, s5) && ({
                                                ||| self.6.err(s5, e@)
                                                ||| exists|w6: T, s6: Seq<char>|
                                                    #[trigger] self.6.ok(s5, w6, s6) && ({
                                                    ||| self.7.err(s6, e@)
                                                    ||| exists|w7: U, s7: Seq<char>|
                                                        #[trigger] self.7.ok(s6, w7, s7) && ({
                                                        ||| self.8.err(s7, e@)
                                                        ||| exists|w8: V, s8: Seq<char>|
                                                            #[trigger] self.8.ok(s7, w8, s8) && ({
                                                            ||| self.9.err(s8, e@)
                                                            ||| exists|w9: W, s9: Seq<char>|
                                                                #[trigger] self.9.ok(s8, w9, s9) && ({
                                                                ||| self.10.err(s9, e@)
                                                                ||| exists|w10: X, s10: Seq<char>|
                                                                    #[trigger] self.10.ok(s9, w10, s10) && ({
                                                                    self.11.err(s10, e@)
                                                                    })
                                                                })
                                                            })
                                                        })
                                                    })
                                                })
                                            })
                                        })
                                    })
                                })
                            })
                    });
                }
                return Err(e);
            },
        };
        let (v10, r10) = match self.10.parse(r9) {
            Ok(x) => x,
            Err(e) => {
                proof {
                    assert({
                        ||| self.9.err(r8@, e@)
                        ||| exists|w9: W, s9: Seq<char>|
                            #[trigger] self.9.ok(r8@, w9, s9) && ({
                            ||| self.10.err(s9, e@)
                            ||| exists|w10: X, s10: Seq<char>|
                                #[trigger] self.10.ok(s9, w10, s10) && ({
                                self.11.err(s10, e@)
                                })
                            })
                    });
                    assert({
                        ||| self.8.err(r7@, e@)
                        ||| exists|w8: V, s8: Seq<char>|
                            #[trigger] self.8.ok(r7@, w8, s8) && ({
                            ||| self.9.err(s8, e@)
                            ||| exists|w9: W, s9: Seq<char>|
                                #[trigger] self.9.ok(s8, w9, s9) && ({
                                ||| self.10.err(s9, e@)
                                ||| exists|w10: X, s10: Seq<char>|
                                    #[trigger] self.10.ok(s9, w10, s10) && ({
                                    self.11.err(s10, e@)
                                    })
                                })
                            })
                    });
                    assert({
                        ||| self.7.err(r6@, e@)
                        ||| exists|w7: U, s7: Seq<char>|
                            #[trigger] self.7.ok(r6@, w7, s7) && ({
                            ||| self.8.err(s7, e@)
                            ||| exists|w8: V, s8: Seq<char>|
                                #[trigger] self.8.ok(s7, w8, s8) && ({
                                ||| self.9.err(s8, e@)
                                ||| exists|w9: W, s9: Seq<char>|
                                    #[trigger] self.9.ok(s8, w9, s9) && ({
                                    ||| self.10.err(s9, e@)
                                    ||| exists|w10: X, s10: Seq<char>|
                                        #[trigger] self.10.ok(s9, w10, s10) && ({
                                        self.11.err(s10, e@)
                                        })
                                    })
                                })
                            })
                    });
                    assert({
                        ||| self.6.err(r5@, e@)
                        ||| exists|w6: T, s6: Seq<char>|
                            #[trigger] self.6.ok(r5@, w6, s6) && ({
                            ||| self.7.err(s6, e@)
                            ||| exists|w7: U, s7: Seq<char>|
                                #[trigger] self.7.ok(s6, w7, s7) && ({
                                ||| self.8.err(s7, e@)
                                ||| exists|w8: V, s8: Seq<char>|
                                    #[trigger] self.8.ok(s7, w8, s8) && ({
                                    ||| self.9.err(s8, e@)
                                    ||| exists|w9: W, s9: Seq<char>|
                                        #[trigger] self.9.ok(s8, w9, s9) && ({
                                        ||| self.10.err(s9, e@)
                                        ||| exists|w10: X, s10: Seq<char>|
                                            #[trigger] self.10.ok(s9, w10, s10) && ({
                                            self.11.err(s10, e@)
                                            })
                                        })
                                    })
                                })
                            })
                    });
                    assert({
                        ||| self.5.err(r4@, e@)
                        ||| exists|w5: S, s5: Seq<char>|
                            #[trigger] self.5.ok(r4@, w5, s5) && ({
                            ||| self.6.err(s5, e@)
                            ||| exists|w6: T, s6: Seq<char>|
                                #[trigger] self.6.ok(s5, w6, s6) && ({
                                ||| self.7.err(s6, e@)
                                ||| exists|w7: U, s7: Seq<char>|
                                    #[trigger] self.7.ok(s6, w7, s7) && ({
                                    ||| self.8.err(s7, e@)
                                    ||| exists|w8: V, s8: Seq<char>|
                                        #[trigger] self.8.ok(s7, w8, s8) && ({
                                        ||| self.9.err(s8, e@)
                                        ||| exists|w9: W, s9: Seq<char>|
                                            #[trigger] self.9.ok(s8, w9, s9) && ({
                                            ||| self.10.err(s9, e@)
                                            ||| exists|w10: X, s10: Seq<char>|
                                                #[trigger] self.10.ok(s9, w10, s10) && ({
                                                self.11.err(s10, e@)
                                                })
                                            })
                                        })
                                    })
                                })
                            })
                    });
                    assert({
                        ||| self.4.err(r3@, e@)
                        ||| exists|w4: R, s4: Seq<char>|
                            #[trigger] self.4.ok(r3@, w4, s4) && ({
                            ||| self.5.err(s4, e@)
                            ||| exists|w5: S, s5: Seq<char>|
                                #[trigger] self.5.ok(s4, w5, s5) && ({
                                ||| self.6.err(s5, e@)
                                ||| exists|w6: T, s6: Seq<char>|
                                    #[trigger] self.6.ok(s5, w6, s6) && ({
                                    ||| self.7.err(s6, e@)
                                    ||| exists|w7: U, s7: Seq<char>|
                                        #[trigger] self.7.ok(s6, w7, s7) && ({
                                        ||| self.8.err(s7, e@)
                                        ||| exists|w8: V, s8: Seq<char>|
                                            #[trigger] self.8.ok(s7, w8, s8) && ({
                                            ||| self.9.err(s8, e@)
                                            ||| exists|w9: W, s9: Seq<char>|
                                                #[trigger] self.9.ok(s8, w9, s9) && ({
                                                ||| self.10.err(s9, e@)
                                                ||| exists|w10: X, s10: Seq<char>|
                                                    #[trigger] self.10.ok(s9, w10, s10) && ({
                                                    self.11.err(s10, e@)
                                                    })
                                                })
                                            })
                                        })
                                    })
                                })
                            })
                    });
                    assert({
                        ||| self.3.err(r2@, e@)
                        ||| exists|w3: Q, s3: Seq<char>|
                            #[trigger] self.3.ok(r2@, w3, s3) && ({
                            ||| self.4.err(s3, e@)
                            ||| exists|w4: R, s4: Seq<char>|
                                #[trigger] self.4.ok(s3, w4, s4) && ({
                                ||| self.5.err(s4, e@)
                                ||| exists|w5: S, s5: Seq<char>|
                                    #[trigger] self.5.ok(s4, w5, s5) && ({
                                    ||| self.6.err(s5, e@)
                                    ||| exists|w6: T, s6: Seq<char>|
                                        #[trigger] self.6.ok(s5, w6, s6) && ({
                                        ||| self.7.err(s6, e@)
                                        ||| exists|w7: U, s7: Seq<char>|
                                            #[trigger] self.7.ok(s6, w7, s7) && ({
                                            ||| self.8.err(s7, e@)
                                            ||| exists|w8: V, s8: Seq<char>|
                                                #[trigger] self.8.ok(s7, w8, s8) && ({
                                                ||| self.9.err(s8, e@)
                                                ||| exists|w9: W, s9: Seq<char>|
                                                    #[trigger] self.9.ok(s8, w9, s9) && ({
                                                    ||| self.10.err(s9, e@)
                                                    ||| exists|w10: X, s10: Seq<char>|
                                                        #[trigger] self.10.ok(s9, w10, s10) && ({
                                                        self.11.err(s10, e@)
                                                        })
                                                    })
                                                })
                                            })
                                        })
                                    })
                                })
                            })
                    });
                    assert({
                        ||| self.2.err(r1@, e@)
                        ||| exists|w2: P, s2: Seq<char>|
                            #[trigger] self.2.ok(r1@, w2, s2) && ({
                            ||| self.3.err(s2, e@)
                            ||| exists|w3: Q, s3: Seq<char>|
                                #[trigger] self.3.ok(s2, w3, s3) && ({
                                ||| self.4.err(s3, e@)
                                ||| exists|w4: R, s4: Seq<char>|
                                    #[trigger] self.4.ok(s3, w4, s4) && ({
                                    ||| self.5.err(s4, e@)
                                    ||| exists|w5: S, s5: Seq<char>|
                                        #[trigger] self.5.ok(s4, w5, s5) && ({
                                        ||| self.6.err(s5, e@)
                                        ||| exists|w6: T, s6: Seq<char>|
                                            #[trigger] self.6.ok(s5, w6, s6) && ({
                                            ||| self.7.err(s6, e@)
                                            ||| exists|w7: U, s7: Seq<char>|
                                                #[trigger] self.7.ok(s6, w7, s7) && ({
                                                ||| self.8.err(s7, e@)
                                                ||| exists|w8: V, s8: Seq<char>|
                                                    #[trigger] self.8.ok(s7, w8, s8) && ({
                                                    ||| self.9.err(s8, e@)
                                                    ||| exists|w9: W, s9: Seq<char>|
                                                        #[trigger] self.9.ok(s8, w9, s9) && ({
                                                        ||| self.10.err(s9, e@)
                                                        ||| exists|w10: X, s10: Seq<char>|
                                                            #[trigger] self.10.ok(s9, w10, s10) && ({
                                                            self.11.err(s10, e@)
                                                            })
                                                        })
                                                    })
                                                })
                                            })
                                        })
                                    })
                                })
                            })
                    });
                    assert({
                        ||| self.1.err(r0@, e@)
                        ||| exists|w1: O, s1: Seq<char>|
                            #[trigger] self.1.ok(r0@, w1, s1) && ({
                            ||| self.2.err(s1, e@)
                            ||| exists|w2: P, s2: Seq<char>|
                                #[trigger] self.2.ok(s1, w2, s2) && ({
                                ||| self.3.err(s2, e@)
                                ||| exists|w3: Q, s3: Seq<char>|
                                    #[trigger] self.3.ok(s2, w3, s3) && ({
                                    ||| self.4.err(s3, e@)
                                    ||| exists|w4: R, s4: Seq<char>|
                                        #[trigger] self.4.ok(s3, w4, s4) && ({
                                        ||| self.5.err(s4, e@)
                                        ||| exists|w5: S, s5: Seq<char>|
                                            #[trigger] self.5.ok(s4, w5, s5) && ({
                                            ||| self.6.err(s5, e@)
                                            ||| exists|w6: T, s6: Seq<char>|
                                                #[trigger] self.6.ok(s5, w6, s6) && ({
                                                ||| self.7.err(s6, e@)
                                                ||| exists|w7: U, s7: Seq<char>|
                                                    #[trigger] self.7.ok(s6, w7, s7) && ({
                                                    ||| self.8.err(s7, e@)
                                                    ||| exists|w8: V, s8: Seq<char>|
                                                        #[trigger] self.8.ok(s7, w8, s8) && ({
                                                        ||| self.9.err(s8, e@)
                                                        ||| exists|w9: W, s9: Seq<char>|
                                                            #[trigger] self.9.ok(s8, w9, s9) && ({
                                                            ||| self.10.err(s9, e@)
                                                            ||| exists|w10: X, s10: Seq<char>|
                                                                #[trigger] self.10.ok(s9, w10, s10) && ({
                                                                self.11.err(s10, e@)
                                                                })
                                                            })
                                                        })
                                                    })
                                                })
                                            })
                                        })
                                    })
                                })
                            })
                    });
                    assert({
                        ||| self.0.err(input@, e@)
                        ||| exists|w0: N, s0: Seq<char>|
                            #[trigger] self.0.ok(input@, w0, s0) && ({
                            ||| self.1.err(s0, e@)
                            ||| exists|w1: O, s1: Seq<char>|
                                #[trigger] self.1.ok(s0, w1, s1) && ({
                                ||| self.2.err(s1, e@)
                                ||| exists|w2: P, s2: Seq<char>|
                                    #[trigger] self.2.ok(s1, w2, s2) && ({
                                    ||| self.3.err(s2, e@)
                                    ||| exists|w3: Q, s3: Seq<char>|
                                        #[trigger] self.3.ok(s2, w3, s3) && ({
                                        ||| self.4.err(s3, e@)
                                        ||| exists|w4: R, s4: Seq<char>|
                                            #[trigger] self.4.ok(s3, w4, s4) && ({
                                            ||| self.5.err(s4, e@)
                                            ||| exists|w5: S, s5: Seq<char>|
                                                #[trigger] self.5.ok(s4, w5, s5) && ({
                                                ||| self.6.err(s5, e@)
                                                ||| exists|w6: T, s6: Seq<char>|
                                                    #[trigger] self.6.ok(s5, w6, s6) && ({
                                                    ||| self.7.err(s6, e@)
                                                    ||| exists|w7: U, s7: Seq<char>|
                                                        #[trigger] self.7.ok(s6, w7, s7) && ({
                                                        ||| self.8.err(s7, e@)
                                                        ||| exists|w8: V, s8: Seq<char>|
                                                            #[trigger] self.8.ok(s7, w8, s8) && ({
                                                            ||| self.9.err(s8, e@)
                                                            ||| exists|w9: W, s9: Seq<char>|
                                                                #[trigger] self.9.ok(s8, w9, s9) && ({
                                                                ||| self.10.err(s9, e@)
                                                                ||| exists|w10: X, s10: Seq<char>|
                                                                    #[trigger] self.10.ok(s9, w10, s10) && ({
                                                                    self.11.err(s10, e@)
                                                                    })
                                                                })
                                                            })
                                                        })
                                                    })
                                                })
                                            })
                                        })
                                    })
                                })
                            })
                    });
                }
                return Err(e);
            },
        };
        let (v11, r11) = match self.11.parse(r10) {
            Ok(x) => x,
            Err(e) => {
                proof {
                    assert({
                        ||| self.10.err(r9@, e@)
                        ||| exists|w10: X, s10: Seq<char>|
                            #[trigger] self.10.ok(r9@, w10, s10) && ({
                            self.11.err(s10, e@)
                            })
                    });
                    assert({
                        ||| self.9.err(r8@, e@)
                        ||| exists|w9: W, s9: Seq<char>|
                            #[trigger] self.9.ok(r8@, w9, s9) && ({
                            ||| self.10.err(s9, e@)
                            ||| exists|w10: X, s10: Seq<char>|
                                #[trigger] self.10.ok(s9, w10, s10) && ({
                                self.11.err(s10, e@)
                                })
                            })
                    });
                    assert({
                        ||| self.8.err(r7@, e@)
                        ||| exists|w8: V, s8: Seq<char>|
                            #[trigger] self.8.ok(r7@, w8, s8) && ({
                            ||| self.9.err(s8, e@)
                            ||| exists|w9: W, s9: Seq<char>|
                                #[trigger] self.9.ok(s8, w9, s9) && ({
                                ||| self.10.err(s9, e@)
                                ||| exists|w10: X, s10: Seq<char>|
                                    #[trigger] self.10.ok(s9, w10, s10) && ({
                                    self.11.err(s10, e@)
                                    })
                                })
                            })
                    });
                    assert({
                        ||| self.7.err(r6@, e@)
                        ||| exists|w7: U, s7: Seq<char>|
                            #[trigger] self.7.ok(r6@, w7, s7) && ({
                            ||| self.8.err(s7, e@)
                            ||| exists|w8: V, s8: Seq<char>|
                                #[trigger] self.8.ok(s7, w8, s8) && ({
                                ||| self.9.err(s8, e@)
                                ||| exists|w9: W, s9: Seq<char>|
                                    #[trigger] self.9.ok(s8, w9, s9) && ({
                                    ||| self.10.err(s9, e@)
                                    ||| exists|w10: X, s10: Seq<char>|
                                        #[trigger] self.10.ok(s9, w10, s10) && ({
                                        self.11.err(s10, e@)
                                        })
                                    })
                                })
                            })
                    });
                    assert({
                        ||| self.6.err(r5@, e@)
                        ||| exists|w6: T, s6: Seq<char>|
                            #[trigger] self.6.ok(r5@, w6, s6) && ({
                            ||| self.7.err(s6, e@)
                            ||| exists|w7: U, s7: Seq<char>|
                                #[trigger] self.7.ok(s6, w7, s7) && ({
                                ||| self.8.err(s7, e@)
                                ||| exists|w8: V, s8: Seq<char>|
                                    #[trigger] self.8.ok(s7, w8, s8) && ({
                                    ||| self.9.err(s8, e@)
                                    ||| exists|w9: W, s9: Seq<char>|
                                        #[trigger] self.9.ok(s8, w9, s9) && ({
                                        ||| self.10.err(s9, e@)
                                        ||| exists|w10: X, s10: Seq<char>|
                                            #[trigger] self.10.ok(s9, w10, s10) && ({
                                            self.11.err(s10, e@)
                                            })
                                        })
                                    })
                                })
                            })
                    });
                    assert({
                        ||| self.5.err(r4@, e@)
                        ||| exists|w5: S, s5: Seq<char>|
                            #[trigger] self.5.ok(r4@, w5, s5) && ({
                            ||| self.6.err(s5, e@)
                            ||| exists|w6: T, s6: Seq<char>|
                                #[trigger] self.6.ok(s5, w6, s6) && ({
                                ||| self.7.err(s6, e@)
                                ||| exists|w7: U, s7: Seq<char>|
                                    #[trigger] self.7.ok(s6, w7, s7) && ({
                                    ||| self.8.err(s7, e@)
                                    ||| exists|w8: V, s8: Seq<char>|
                                        #[trigger] self.8.ok(s7, w8, s8) && ({
                                        ||| self.9.err(s8, e@)
                                        ||| exists|w9: W, s9: Seq<char>|
                                            #[trigger] self.9.ok(s8, w9, s9) && ({
                                            ||| self.10.err(s9, e@)
                                            ||| exists|w10: X, s10: Seq<char>|
                                                #[trigger] self.10.ok(s9, w10, s10) && ({
                                                self.11.err(s10, e@)
                                                })
                                            })
                                        })
                                    })
                                })
                            })
                    });
                    assert({
                        ||| self.4.err(r3@, e@)
                        ||| exists|w4: R, s4: Seq<char>|
                            #[trigger] self.4.ok(r3@, w4, s4) && ({
                            ||| self.5.err(s4, e@)
                            ||| exists|w5: S, s5: Seq<char>|
                                #[trigger] self.5.ok(s4, w5, s5) && ({
                                ||| self.6.err(s5, e@)
                                ||| exists|w6: T, s6: Seq<char>|
                                    #[trigger] self.6.ok(s5, w6, s6) && ({
                                    ||| self.7.err(s6, e@)
                                    ||| exists|w7: U, s7: Seq<char>|
                                        #[trigger] self.7.ok(s6, w7, s7) && ({
                                        ||| self.8.err(s7, e@)
                                        ||| exists|w8: V, s8: Seq<char>|
                                            #[trigger] self.8.ok(s7, w8, s8) && ({
                                            ||| self.9.err(s8, e@)
                                            ||| exists|w9: W, s9: Seq<char>|
                                                #[trigger] self.9.ok(s8, w9, s9) && ({
                                                ||| self.10.err(s9, e@)
                                                ||| exists|w10: X, s10: Seq<char>|
                                                    #[trigger] self.10.ok(s9, w10, s10) && ({
                                                    self.11.err(s10, e@)
                                                    })
                                                })
                                            })
                                        })
                                    })
                                })
                            })
                    });
                    assert({
                        ||| self.3.err(r2@, e@)
                        ||| exists|w3: Q, s3: Seq<char>|
                            #[trigger] self.3.ok(r2@, w3, s3) && ({
                            ||| self.4.err(s3, e@)
                            ||| exists|w4: R, s4: Seq<char>|
                                #[trigger] self.4.ok(s3, w4, s4) && ({
                                ||| self.5.err(s4, e@)
                                ||| exists|w5: S, s5: Seq<char>|
                                    #[trigger] self.5.ok(s4, w5, s5) && ({
                                    ||| self.6.err(s5, e@)
                                    ||| exists|w6: T, s6: Seq<char>|
                                        #[trigger] self.6.ok(s5, w6, s6) && ({
                                        ||| self.7.err(s6, e@)
                                        ||| exists|w7: U, s7: Seq<char>|
                                            #[trigger] self.7.ok(s6, w7, s7) && ({
                                            ||| self.8.err(s7, e@)
                                            ||| exists|w8: V, s8: Seq<char>|
                                                #[trigger] self.8.ok(s7, w8, s8) && ({
                                                ||| self.9.err(s8, e@)
                                                ||| exists|w9: W, s9: Seq<char>|
                                                    #[trigger] self.9.ok(s8, w9, s9) && ({
                                                    ||| self.10.err(s9, e@)
                                                    ||| exists|w10: X, s10: Seq<char>|
                                                        #[trigger] self.10.ok(s9, w10, s10) && ({
                                                        self.11.err(s10, e@)
                                                        })
                                                    })
                                                })
                                            })
                                        })
                                    })
                                })
                            })
                    });
                    assert({
                        ||| self.2.err(r1@, e@)
                        ||| exists|w2: P, s2: Seq<char>|
                            #[trigger] self.2.ok(r1@, w2, s2) && ({
                            ||| self.3.err(s2, e@)
                            ||| exists|w3: Q, s3: Seq<char>|
                                #[trigger] self.3.ok(s2, w3, s3) && ({
                                ||| self.4.err(s3, e@)
                                ||| exists|w4: R, s4: Seq<char>|
                                    #[trigger] self.4.ok(s3, w4, s4) && ({
                                    ||| self.5.err(s4, e@)
                                    ||| exists|w5: S, s5: Seq<char>|
                                        #[trigger] self.5.ok(s4, w5, s5) && ({
                                        ||| self.6.err(s5, e@)
                                        ||| exists|w6: T, s6: Seq<char>|
                                            #[trigger] self.6.ok(s5, w6, s6) && ({
                                            ||| self.7.err(s6, e@)
                                            ||| exists|w7: U, s7: Seq<char>|
                                                #[trigger] self.7.ok(s6, w7, s7) && ({
                                                ||| self.8.err(s7, e@)
                                                ||| exists|w8: V, s8: Seq<char>|
                                                    #[trigger] self.8.ok(s7, w8, s8) && ({
                                                    ||| self.9.err(s8, e@)
                                                    ||| exists|w9: W, s9: Seq<char>|
                                                        #[trigger] self.9.ok(s8, w9, s9) && ({
                                                        ||| self.10.err(s9, e@)
                                                        ||| exists|w10: X, s10: Seq<char>|
                                                            #[trigger] self.10.ok(s9, w10, s10) && ({
                                                            self.11.err(s10, e@)
                                                            })
                                                        })
                                                    })
                                                })
                                            })
                                        })
                                    })
                                })
                            })
                    });
                    assert({
                        ||| self.1.err(r0@, e@)
                        ||| exists|w1: O, s1: Seq<char>|
                            #[trigger] self.1.ok(r0@, w1, s1) && ({
                            ||| self.2.err(s1, e@)
                            ||| exists|w2: P, s2: Seq<char>|
                                #[trigger] self.2.ok(s1, w2, s2) && ({
                                ||| self.3.err(s2, e@)
                                ||| exists|w3: Q, s3: Seq<char>|
                                    #[trigger] self.3.ok(s2, w3, s3) && ({
                                    ||| self.4.err(s3, e@)
                                    ||| exists|w4: R, s4: Seq<char>|
                                        #[trigger] self.4.ok(s3, w4, s4) && ({
                                        ||| self.5.err(s4, e@)
                                        ||| exists|w5: S, s5: Seq<char>|
                                            #[trigger] self.5.ok(s4, w5, s5) && ({
                                            ||| self.6.err(s5, e@)
                                            ||| exists|w6: T, s6: Seq<char>|
                                                #[trigger] self.6.ok(s5, w6, s6) && ({
                                                ||| self.7.err(s6, e@)
                                                ||| exists|w7: U, s7: Seq<char>|
                                                    #[trigger] self.7.ok(s6, w7, s7) && ({
                                                    ||| self.8.err(s7, e@)
                                                    ||| exists|w8: V, s8: Seq<char>|
                                                        #[trigger] self.8.ok(s7, w8, s8) && ({
                                                        ||| self.9.err(s8, e@)
                                                        ||| exists|w9: W, s9: Seq<char>|
                                                            #[trigger] self.9.ok(s8, w9, s9) && ({
                                                            ||| self.10.err(s9, e@)
                                                            ||| exists|w10: X, s10: Seq<char>|
                                                                #[trigger] self.10.ok(s9, w10, s10) && ({
                                                                self.11.err(s10, e@)
                                                                })
                                                            })
                                                        })
                                                    })
                                                })
                                            })
                                        })
                                    })
                                })
                            })
                    });
                    assert({
                        ||| self.0.err(input@, e@)
                        ||| exists|w0: N, s0: Seq<char>|
                            #[trigger] self.0.ok(input@, w0, s0) && ({
                            ||| self.1.err(s0, e@)
                            ||| exists|w1: O, s1: Seq<char>|
                                #[trigger] self.1.ok(s0, w1, s1) && ({
                                ||| self.2.err(s1, e@)
                                ||| exists|w2: P, s2: Seq<char>|
                                    #[trigger] self.2.ok(s1, w2, s2) && ({
                                    ||| self.3.err(s2, e@)
                                    ||| exists|w3: Q, s3: Seq<char>|
                                        #[trigger] self.3.ok(s2, w3, s3) && ({
                                        ||| self.4.err(s3, e@)
                                        ||| exists|w4: R, s4: Seq<char>|
                                            #[trigger] self.4.ok(s3, w4, s4) && ({
                                            ||| self.5.err(s4, e@)
                                            ||| exists|w5: S, s5: Seq<char>|
                                                #[trigger] self.5.ok(s4, w5, s5) && ({
                                                ||| self.6.err(s5, e@)
                                                ||| exists|w6: T, s6: Seq<char>|
                                                    #[trigger] self.6.ok(s5, w6, s6) && ({
                                                    ||| self.7.err(s6, e@)
                                                    ||| exists|w7: U, s7: Seq<char>|
                                                        #[trigger] self.7.ok(s6, w7, s7) && ({
                                                        ||| self.8.err(s7, e@)
                                                        ||| exists|w8: V, s8: Seq<char>|
                                                            #[trigger] self.8.ok(s7, w8, s8) && ({
                                                            ||| self.9.err(s8, e@)
                                                            ||| exists|w9: W, s9: Seq<char>|
                                                                #[trigger] self.9.ok(s8, w9, s9) && ({
                                                                ||| self.10.err(s9, e@)
                                                                ||| exists|w10: X, s10: Seq<char>|
                                                                    #[trigger] self.10.ok(s9, w10, s10) && ({
                                                                    self.11.err(s10, e@)
                                                                    })
                                                                })
                                                            })
                                                        })
                                                    })
                                                })
                                            })
                                        })
                                    })
                                })
                            })
                    });
                }
                return Err(e);
            },
        };
        let out = (v0, v1, v2, v3, v4, v5, v6, v7, v8, v9, v10, v11);
        proof {
            assert(out.0 == v0);
            assert(out.1 == v1);
            assert(out.2 == v2);
            assert(out.3 == v3);
            assert(out.4 == v4);
            assert(out.5 == v5);
            assert(out.6 == v6);
            assert(out.7 == v7);
            assert(out.8 == v8);
            assert(out.9 == v9);
            assert(out.10 == v10);
            assert(out.11 == v11);
            lemma_remainder_trans(input@, r0@, r1@);
            lemma_remainder_trans(input@, r1@, r2@);
            lemma_remainder_trans(input@, r2@, r3@);
            lemma_remainder_trans(input@, r3@, r4@);
            lemma_remainder_trans(input@, r4@, r5@);
            lemma_remainder_trans(input@, r5@, r6@);
            lemma_remainder_trans(input@, r6@, r7@);
            lemma_remainder_trans(input@, r7@, r8@);
            lemma_remainder_trans(input@, r8@, r9@);
            lemma_remainder_trans(input@, r9@, r10@);
            lemma_remainder_trans(input@, r10@, r11@);
            assert({
                self.11.ok(r10@, out.11, r11@)
            });
            assert({
                exists|s10: Seq<char>|
                    #[trigger] self.10.ok(r9@, out.10, s10) && ({
                    self.11.ok(s10, out.11, r11@)
                    })
            });
            assert({
                exists|s9: Seq<char>|
                    #[trigger] self.9.ok(r8@, out.9, s9) && ({
                    exists|s10: Seq<char>|
                        #[trigger] self.10.ok(s9, out.10, s10) && ({
                        self.11.ok(s10, out.11, r11@)
                        })
                    })
            });
            assert({
                exists|s8: Seq<char>|
                    #[trigger] self.8.ok(r7@, out.8, s8) && ({
                    exists|s9: Seq<char>|
                        #[trigger] self.9.ok(s8, out.9, s9) && ({
                        exists|s10: Seq<char>|
                            #[trigger] self.10.ok(s9, out.10, s10) && ({
                            self.11.ok(s10, out.11, r11@)
                            })
                        })
                    })
            });
            assert({
                exists|s7: Seq<char>|
                    #[trigger] self.7.ok(r6@, out.7, s7) && ({
                    exists|s8: Seq<char>|
                        #[trigger] self.8.ok(s7, out.8, s8) && ({
                        exists|s9: Seq<char>|
                            #[trigger] self.9.ok(s8, out.9, s9) && ({
                            exists|s10: Seq<char>|
                                #[trigger] self.10.ok(s9, out.10, s10) && ({
                                self.11.ok(s10, out.11, r11@)
                                })
                            })
                        })
                    })
            });
            assert({
                exists|s6: Seq<char>|
                    #[trigger] self.6.ok(r5@, out.6, s6) && ({
                    exists|s7: Seq<char>|
                        #[trigger] self.7.ok(s6, out.7, s7) && ({
                        exists|s8: Seq<char>|
                            #[trigger] self.8.ok(s7, out.8, s8) && ({
                            exists|s9: Seq<char>|
                                #[trigger] self.9.ok(s8, out.9, s9) && ({
                                exists|s10: Seq<char>|
                                    #[trigger] self.10.ok(s9, out.10, s10) && ({
                                    self.11.ok(s10, out.11, r11@)
                                    })
                                })
                            })
                        })
                    })
            });
            assert({
                exists|s5: Seq<char>|
                    #[trigger] self.5.ok(r4@, out.5, s5) && ({
                    exists|s6: Seq<char>|
                        #[trigger] self.6.ok(s5, out.6, s6) && ({
                        exists|s7: Seq<char>|
                            #[trigger] self.7.ok(s6, out.7, s7) && ({
                            exists|s8: Seq<char>|
                                #[trigger] self.8.ok(s7, out.8, s8) && ({
                                exists|s9: Seq<char>|
                                    #[trigger] self.9.ok(s8, out.9, s9) && ({
                                    exists|s10: Seq<char>|
                                        #[trigger] self.10.ok(s9, out.10, s10) && ({
                                        self.11.ok(s10, out.11, r11@)
                                        })
                                    })
                                })
                            })
                        })
                    })
            });
            assert({
                exists|s4: Seq<char>|
                    #[trigger] self.4.ok(r3@, out.4, s4) && ({
                    exists|s5: Seq<char>|
                        #[trigger] self.5.ok(s4, out.5, s5) && ({
                        exists|s6: Seq<char>|
                            #[trigger] self.6.ok(s5, out.6, s6) && ({
                            exists|s7: Seq<char>|
                                #[trigger] self.7.ok(s6, out.7, s7) && ({
                                exists|s8: Seq<char>|
                                    #[trigger] self.8.ok(s7, out.8, s8) && ({
                                    exists|s9: Seq<char>|
                                        #[trigger] self.9.ok(s8, out.9, s9) && ({
                                        exists|s10: Seq<char>|
                                            #[trigger] self.10.ok(s9, out.10, s10) && ({
                                            self.11.ok(s10, out.11, r11@)
                                            })
                                        })
                                    })
                                })
                            })
                        })
                    })
            });
            assert({
                exists|s3: Seq<char>|
                    #[trigger] self.3.ok(r2@, out.3, s3) && ({
                    exists|s4: Seq<char>|
                        #[trigger] self.4.ok(s3, out.4, s4) && ({
                        exists|s5: Seq<char>|
                            #[trigger] self.5.ok(s4, out.5, s5) && ({
                            exists|s6: Seq<char>|
                                #[trigger] self.6.ok(s5, out.6, s6) && ({
                                exists|s7: Seq<char>|
                                    #[trigger] self.7.ok(s6, out.7, s7) && ({
                                    exists|s8: Seq<char>|
                                        #[trigger] self.8.ok(s7, out.8, s8) && ({
                                        exists|s9: Seq<char>|
                                            #[trigger] self.9.ok(s8, out.9, s9) && ({
                                            exists|s10: Seq<char>|
                                                #[trigger] self.10.ok(s9, out.10, s10) && ({
                                                self.11.ok(s10, out.11, r11@)
                                                })
                                            })
                                        })
                                    })
                                })
                            })
                        })
                    })
            });
            assert({
                exists|s2: Seq<char>|
                    #[trigger] self.2.ok(r1@, out.2, s2) && ({
                    exists|s3: Seq<char>|
                        #[trigger] self.3.ok(s2, out.3, s3) && ({
                        exists|s4: Seq<char>|
                            #[trigger] self.4.ok(s3, out.4, s4) && ({
                            exists|s5: Seq<char>|
                                #[trigger] self.5.ok(s4, out.5, s5) && ({
                                exists|s6: Seq<char>|
                                    #[trigger] self.6.ok(s5, out.6, s6) && ({
                                    exists|s7: Seq<char>|
                                        #[trigger] self.7.ok(s6, out.7, s7) && ({
                                        exists|s8: Seq<char>|
                                            #[trigger] self.8.ok(s7, out.8, s8) && ({
                                            exists|s9: Seq<char>|
                                                #[trigger] self.9.ok(s8, out.9, s9) && ({
                                                exists|s10: Seq<char>|
                                                    #[trigger] self.10.ok(s9, out.10, s10) && ({
                                                    self.11.ok(s10, out.11, r11@)
                                                    })
                                                })
                                            })
                                        })
                                    })
                                })
                            })
                        })
                    })
            });
            assert({
                exists|s1: Seq<char>|
                    #[trigger] self.1.ok(r0@, out.1, s1) && ({
                    exists|s2: Seq<char>|
                        #[trigger] self.2.ok(s1, out.2, s2) && ({
                        exists|s3: Seq<char>|
                            #[trigger] self.3.ok(s2, out.3, s3) && ({
                            exists|s4: Seq<char>|
                                #[trigger] self.4.ok(s3, out.4, s4) && ({
                                exists|s5: Seq<char>|
                                    #[trigger] self.5.ok(s4, out.5, s5) && ({
                                    exists|s6: Seq<char>|
                                        #[trigger] self.6.ok(s5, out.6, s6) && ({
                                        exists|s7: Seq<char>|
                                            #[trigger] self.7.ok(s6, out.7, s7) && ({
                                            exists|s8: Seq<char>|
                                                #[trigger] self.8.ok(s7, out.8, s8) && ({
                                                exists|s9: Seq<char>|
                                                    #[trigger] self.9.ok(s8, out.9, s9) && ({
                                                    exists|s10: Seq<char>|
                                                        #[trigger] self.10.ok(s9, out.10, s10) && ({
                                                        self.11.ok(s10, out.11, r11@)
                                                        })
                                                    })
                                                })
                                            })
                                        })
                                    })
                                })
                            })
                        })
                    })
            });
            assert({
                exists|s0: Seq<char>|
                    #[trigger] self.0.ok(input@, out.0, s0) && ({
                    exists|s1: Seq<char>|
                        #[trigger] self.1.ok(s0, out.1, s1) && ({
                        exists|s2: Seq<char>|
                            #[trigger] self.2.ok(s1, out.2, s2) && ({
                            exists|s3: Seq<char>|
                                #[trigger] self.3.ok(s2, out.3, s3) && ({
                                exists|s4: Seq<char>|
                                    #[trigger] self.4.ok(s3, out.4, s4) && ({
                                    exists|s5: Seq<char>|
                                        #[trigger] self.5.ok(s4, out.5, s5) && ({
                                        exists|s6: Seq<char>|
                                            #[trigger] self.6.ok(s5, out.6, s6) && ({
                                            exists|s7: Seq<char>|
                                                #[trigger] self.7.ok(s6, out.7, s7) && ({
                                                exists|s8: Seq<char>|
                                                    #[trigger] self.8.ok(s7, out.8, s8) && ({
                                                    exists|s9: Seq<char>|
                                                        #[trigger] self.9.ok(s8, out.9, s9) && ({
                                                        exists|s10: Seq<char>|
                                                            #[trigger] self.10.ok(s9, out.10, s10) && ({
                                                            self.11.ok(s10, out.11, r11@)
                                                            })
                                                        })
                                                    })
                                                })
                                            })
                                        })
                                    })
                                })
                            })
                        })
                    })
            });
        }
        Ok((out, r11))
    }
}

/// A tuple of twelve parsers is itself a parser: its components run as a
/// series.
impl<'a, N, O, P, Q, R, S, T, U, V, W, X, Y, A: Parser<'a, N>, B: Parser<'a, O>, C: Parser<'a, P>, D: Parser<'a, Q>, E: Parser<'a, R>, F: Parser<'a, S>, G: Parser<'a, T>, H: Parser<'a, U>, I: Parser<'a, V>, J: Parser<'a, W>, K: Parser<'a, X>, L: Parser<'a, Y>> Parser<'a, (N, O, P, Q, R, S, T, U, V, W, X, Y)> for (A, B, C, D, E, F, G, H, I, J, K, L) {
    open spec fn wf(&self) -> bool {
        self.series_wf()
    }

    open spec fn ok(&self, input: Seq<char>, out: (N, O, P, Q, R, S, T, U, V, W, X, Y), rem: Seq<char>) -> bool {
        self.series_ok(input, out, rem)
    }

    open spec fn err(&self, input: Seq<char>, e: SpecError) -> bool {
        self.series_err(input, e)
    }

    fn parse(&self, input: &'a str) -> (r: Output<'a, (N, O, P, Q, R, S, T, U, V, W, X, Y)>) {
        self.parse_series(input)
    }
}

} // verus!
