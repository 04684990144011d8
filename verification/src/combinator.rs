use vstd::prelude::*;

pub mod branch;
pub mod series;

use core::marker::PhantomData;

use crate::error::Error;
use crate::error::SpecError;
use crate::error::spec_found_char;
use crate::error::spec_found_end;
use crate::error::to_fail;
use crate::error::to_pass;
use crate::error::with_label;
use crate::parser::Output;
use crate::parser::Parser;
use crate::parser::is_remainder;
use crate::parser::lemma_remainder_refl;
use crate::parser::lemma_remainder_skip;
use crate::util::push_char;

verus! {

/// The parser that `map` builds: the wrapped parser with its success value
/// transformed.
pub struct Mapped<P, M, A> {
    pub parser: P,
    pub map: M,
    pub marker: PhantomData<A>,
}

/// A parser that runs `parser` and transforms its success value with `map`;
/// errors pass through unchanged.
pub fn map<'a, A, B, P, M>(parser: P, apply: M) -> (r: Mapped<P, M, A>) where
    M: Fn(A) -> B,
    P: Parser<'a, A>,

    ensures
        r.parser == parser,
        r.map == apply,
{
    Mapped { parser, map: apply, marker: PhantomData }
}

/// What the ghost contract of a `map` parser says: the wrapped parser's
/// outcome, with a success value that the mapping can produce from it.
pub open spec fn map_wf<'a, A, B, P: Parser<'a, A>, M: Fn(A) -> B>(parser: P, apply: M) -> bool {
    &&& parser.wf()
    &&& forall|v: A| call_requires(apply, (v,))
}

/// A success of `map`: the wrapped parser produced some value at this
/// remainder, and the mapping can turn that value into `out`.
pub open spec fn map_ok<'a, A, B, P: Parser<'a, A>, M: Fn(A) -> B>(
    parser: P,
    apply: M,
    input: Seq<char>,
    out: B,
    rem: Seq<char>,
) -> bool {
    exists|v: A| #[trigger] parser.ok(input, v, rem) && call_ensures(apply, (v,), out)
}

impl<'a, A, B, P, M> Parser<'a, B> for Mapped<P, M, A> where P: Parser<'a, A>, M: Fn(A) -> B {
    open spec fn wf(&self) -> bool {
        map_wf(self.parser, self.map)
    }

    open spec fn ok(&self, input: Seq<char>, out: B, rem: Seq<char>) -> bool {
        map_ok(self.parser, self.map, input, out, rem)
    }

    open spec fn err(&self, input: Seq<char>, e: SpecError) -> bool {
        self.parser.err(input, e)
    }

    fn parse(&self, input: &'a str) -> (r: Output<'a, B>) {
        match self.parser.parse(input) {
            Ok((v, rem)) => {
                let ghost gv = v;
                let out = (self.map)(v);
                proof {
                    assert(self.parser.ok(input@, gv, rem@) && call_ensures(
                        self.map,
                        (gv,),
                        out,
                    ));
                }
                Ok((out, rem))
            },
            Err(e) => Err(e),
        }
    }
}

/// Restates the contract of a `map` parser over its fields. A trait bound
/// of the `Fn` family keeps the spec members of an impl from unfolding at a
/// concrete mapping type, so callers take the definitions from here.
pub proof fn lemma_map_contract<'a, A, B, P: Parser<'a, A>, M: Fn(A) -> B>(t: Mapped<P, M, A>)
    ensures
        <Mapped<P, M, A> as Parser<'a, B>>::wf(&t) == map_wf(t.parser, t.map),
        forall|input: Seq<char>, out: B, rem: Seq<char>|
            #[trigger] <Mapped<P, M, A> as Parser<'a, B>>::ok(&t, input, out, rem) == map_ok(
                t.parser,
                t.map,
                input,
                out,
                rem,
            ),
        forall|input: Seq<char>, e: SpecError|
            #[trigger] <Mapped<P, M, A> as Parser<'a, B>>::err(&t, input, e) == t.parser.err(
                input,
                e,
            ),
{
}

/// The parser that `map_err` builds: the wrapped parser with its error
/// transformed.
pub struct MappedErr<P, M> {
    pub parser: P,
    pub map: M,
}

/// A parser that runs `parser` and transforms its error with `map`;
/// successes pass through unchanged.
pub fn map_err<'a, O, P, M>(parser: P, apply: M) -> (r: MappedErr<P, M>) where
    M: Fn(Error) -> Error,
    P: Parser<'a, O>,

    ensures
        r.parser == parser,
        r.map == apply,
{
    MappedErr { parser, map: apply }
}

/// The wrapped parser can run, and the error mapping accepts every error.
pub open spec fn map_err_wf<'a, O, P: Parser<'a, O>, M: Fn(Error) -> Error>(
    parser: P,
    apply: M,
) -> bool {
    &&& parser.wf()
    &&& forall|e: Error| call_requires(apply, (e,))
}

/// A failure of `map_err`: the wrapped parser produced some error, and the
/// mapping can turn that error into `e`.
pub open spec fn map_err_err<'a, O, P: Parser<'a, O>, M: Fn(Error) -> Error>(
    parser: P,
    apply: M,
    input: Seq<char>,
    e: SpecError,
) -> bool {
    exists|e0: Error, e1: Error|
        {
            &&& parser.err(input, e0@)
            &&& #[trigger] call_ensures(apply, (e0,), e1)
            &&& e1@ == e
        }
}

impl<'a, O, P, M> Parser<'a, O> for MappedErr<P, M> where P: Parser<'a, O>, M: Fn(Error) -> Error {
    open spec fn wf(&self) -> bool {
        map_err_wf(self.parser, self.map)
    }

    open spec fn ok(&self, input: Seq<char>, out: O, rem: Seq<char>) -> bool {
        self.parser.ok(input, out, rem)
    }

    open spec fn err(&self, input: Seq<char>, e: SpecError) -> bool {
        map_err_err(self.parser, self.map, input, e)
    }

    fn parse(&self, input: &'a str) -> (r: Output<'a, O>) {
        match self.parser.parse(input) {
            Ok(success) => Ok(success),
            Err(e0) => {
                let ghost g0 = e0;
                let e1 = (self.map)(e0);
                proof {
                    assert(self.parser.err(input@, g0@) && call_ensures(self.map, (g0,), e1));
                }
                Err(e1)
            },
        }
    }
}

/// Restates the contract of a `map_err` parser over its fields, as
/// `lemma_map_contract` does for `map`.
pub proof fn lemma_map_err_contract<'a, O, P: Parser<'a, O>, M: Fn(Error) -> Error>(
    t: MappedErr<P, M>,
)
    ensures
        <MappedErr<P, M> as Parser<'a, O>>::wf(&t) == map_err_wf(t.parser, t.map),
        forall|input: Seq<char>, out: O, rem: Seq<char>|
            #[trigger] <MappedErr<P, M> as Parser<'a, O>>::ok(&t, input, out, rem) == t.parser.ok(
                input,
                out,
                rem,
            ),
        forall|input: Seq<char>, e: SpecError|
            #[trigger] <MappedErr<P, M> as Parser<'a, O>>::err(&t, input, e) == map_err_err(
                t.parser,
                t.map,
                input,
                e,
            ),
{
}

/// The parser that `context` builds: the wrapped parser, with failures
/// labelled for diagnostics.
pub struct WithContext<P> {
    pub label: String,
    pub parser: P,
}

/// A parser that runs `parser` and, on failure, decorates the error with the
/// diagnostic label `ctx`; severity and content are kept.
pub fn context<P>(ctx: &str, parser: P) -> (r: WithContext<P>)
    ensures
        r.label@ == ctx@,
        r.parser == parser,
{
    WithContext { label: ctx.to_owned(), parser }
}

impl<'a, O, P> Parser<'a, O> for WithContext<P> where P: Parser<'a, O> {
    open spec fn wf(&self) -> bool {
        self.parser.wf()
    }

    open spec fn ok(&self, input: Seq<char>, out: O, rem: Seq<char>) -> bool {
        self.parser.ok(input, out, rem)
    }

    open spec fn err(&self, input: Seq<char>, e: SpecError) -> bool {
        exists|e0: SpecError| #[trigger] self.parser.err(input, e0) && e == with_label(
            e0,
            self.label@,
        )
    }

    fn parse(&self, input: &'a str) -> (r: Output<'a, O>) {
        match self.parser.parse(input) {
            Ok(success) => Ok(success),
            Err(e0) => {
                let ghost g0 = e0@;
                let e1 = e0.with_context(self.label.as_str());
                proof {
                    assert(self.parser.err(input@, g0));
                }
                Err(e1)
            },
        }
    }
}

/// The parser that `consume` builds: the wrapped parser, with the raw span
/// it advanced over as the value.
pub struct Consume<P, O> {
    pub parser: P,
    pub marker: PhantomData<O>,
}

/// A parser that runs `parser`, discards its typed value, and returns the
/// exact substring of the input that it consumed; errors pass through.
pub fn consume<O, P>(parser: P) -> (r: Consume<P, O>)
    ensures
        r.parser == parser,
{
    Consume { parser, marker: PhantomData }
}

impl<'a, O, P> Parser<'a, &'a str> for Consume<P, O> where P: Parser<'a, O> {
    open spec fn wf(&self) -> bool {
        self.parser.wf()
    }

    open spec fn ok(&self, input: Seq<char>, out: &'a str, rem: Seq<char>) -> bool {
        &&& rem.len() <= input.len()
        &&& out@ == input.take(input.len() - rem.len())
        &&& exists|v: O| self.parser.ok(input, v, rem)
    }

    open spec fn err(&self, input: Seq<char>, e: SpecError) -> bool {
        self.parser.err(input, e)
    }

    fn parse(&self, input: &'a str) -> (r: Output<'a, &'a str>) {
        match self.parser.parse(input) {
            Ok((v, rem)) => {
                let ghost gv = v;
                let n = input.unicode_len();
                let k = rem.unicode_len();
                let out = input.substring_char(0, n - k);
                proof {
                    assert(self.parser.ok(input@, gv, rem@));
                }
                Ok((out, rem))
            },
            Err(e) => Err(e),
        }
    }
}

/// The parser that `not` builds: one code point, taken only where the
/// wrapped parser does not match.
pub struct Negate<P> {
    pub parser: P,
}

/// A parser that consumes exactly one code point if and only if `parser`
/// would not match here; if it would, the code point it matched is reported
/// as found.
pub fn not<P>(parser: P) -> (r: Negate<P>)
    ensures
        r.parser == parser,
{
    Negate { parser }
}

impl<'a, P> Parser<'a, char> for Negate<P> where P: Parser<'a, char> {
    open spec fn wf(&self) -> bool {
        self.parser.wf()
    }

    open spec fn ok(&self, input: Seq<char>, out: char, rem: Seq<char>) -> bool {
        &&& input.len() >= 1
        &&& out == input[0]
        &&& rem == input.skip(1)
        &&& exists|e: SpecError| self.parser.err(input, e)
    }

    open spec fn err(&self, input: Seq<char>, e: SpecError) -> bool {
        ||| exists|c: char, r0: Seq<char>|
            #[trigger] self.parser.ok(input, c, r0) && e == spec_found_char(c)
        ||| (exists|e0: SpecError| self.parser.err(input, e0)) && input.len() == 0 && e
            == spec_found_end()
    }

    fn parse(&self, input: &'a str) -> (r: Output<'a, char>) {
        match self.parser.parse(input) {
            Ok((c, _)) => Err(Error::found(c)),
            Err(e0) => {
                let ghost g0 = e0@;
                proof {
                    assert(self.parser.err(input@, g0));
                }
                let n = input.unicode_len();
                if n == 0 {
                    Err(Error::found_end())
                } else {
                    let c = input.get_char(0);
                    let rem = input.substring_char(1, n);
                    proof {
                        crate::parser::lemma_remainder_skip(input@, 1);
                    }
                    Ok((c, rem))
                }
            },
        }
    }
}

/// The parser that `pass` builds: the wrapped parser, its failures demoted
/// to recoverable.
pub struct ToPass<P> {
    pub parser: P,
}

/// A parser that runs `parser` and demotes any error it produces to
/// recoverable severity, so that alternation may try a sibling branch.
pub fn pass<P>(parser: P) -> (r: ToPass<P>)
    ensures
        r.parser == parser,
{
    ToPass { parser }
}

impl<'a, O, P> Parser<'a, O> for ToPass<P> where P: Parser<'a, O> {
    open spec fn wf(&self) -> bool {
        self.parser.wf()
    }

    open spec fn ok(&self, input: Seq<char>, out: O, rem: Seq<char>) -> bool {
        self.parser.ok(input, out, rem)
    }

    open spec fn err(&self, input: Seq<char>, e: SpecError) -> bool {
        exists|e0: SpecError| #[trigger] self.parser.err(input, e0) && e == to_pass(e0)
    }

    fn parse(&self, input: &'a str) -> (r: Output<'a, O>) {
        match self.parser.parse(input) {
            Ok(success) => Ok(success),
            Err(e0) => {
                let ghost g0 = e0@;
                let e1 = e0.into_pass();
                proof {
                    assert(self.parser.err(input@, g0));
                }
                Err(e1)
            },
        }
    }
}

/// The parser that `fail` builds: the wrapped parser, its failures promoted
/// to committed.
pub struct ToFail<P> {
    pub parser: P,
}

/// A parser that runs `parser` and promotes any error it produces to
/// committed severity: the cut that forbids backtracking past this point.
pub fn fail<P>(parser: P) -> (r: ToFail<P>)
    ensures
        r.parser == parser,
{
    ToFail { parser }
}

impl<'a, O, P> Parser<'a, O> for ToFail<P> where P: Parser<'a, O> {
    open spec fn wf(&self) -> bool {
        self.parser.wf()
    }

    open spec fn ok(&self, input: Seq<char>, out: O, rem: Seq<char>) -> bool {
        self.parser.ok(input, out, rem)
    }

    open spec fn err(&self, input: Seq<char>, e: SpecError) -> bool {
        exists|e0: SpecError| #[trigger] self.parser.err(input, e0) && e == to_fail(e0)
    }

    fn parse(&self, input: &'a str) -> (r: Output<'a, O>) {
        match self.parser.parse(input) {
            Ok(success) => Ok(success),
            Err(e0) => {
                let ghost g0 = e0@;
                let e1 = e0.into_fail();
                proof {
                    assert(self.parser.err(input@, g0));
                }
                Err(e1)
            },
        }
    }
}

/// The parser that `peek` builds: zero-width lookahead.
pub struct Peek<P> {
    pub parser: P,
}

/// A parser that runs `parser` and, on success, returns its value but
/// resets the remainder to the whole input: lookahead without consumption.
pub fn peek<P>(parser: P) -> (r: Peek<P>)
    ensures
        r.parser == parser,
{
    Peek { parser }
}

impl<'a, O, P> Parser<'a, O> for Peek<P> where P: Parser<'a, O> {
    open spec fn wf(&self) -> bool {
        self.parser.wf()
    }

    open spec fn ok(&self, input: Seq<char>, out: O, rem: Seq<char>) -> bool {
        &&& rem == input
        &&& exists|r0: Seq<char>| self.parser.ok(input, out, r0)
    }

    open spec fn err(&self, input: Seq<char>, e: SpecError) -> bool {
        self.parser.err(input, e)
    }

    fn parse(&self, input: &'a str) -> (r: Output<'a, O>) {
        match self.parser.parse(input) {
            Ok((v, rem)) => {
                proof {
                    lemma_remainder_refl(input@);
                    assert(self.parser.ok(input@, v, rem@));
                }
                Ok((v, input))
            },
            Err(e) => Err(e),
        }
    }
}

/// The first `k` code points of `s` are a well-formed scan: every backslash
/// starts an escape pair whose follower the marker accepts, and every other
/// code point is accepted by `valid` from its own position on.
pub open spec fn scan_chain<'a, V: Parser<'a, char>, E: Parser<'a, char>>(
    valid: V,
    marker: E,
    s: Seq<char>,
    k: int,
) -> bool
    decreases k,
{
    if k <= 0 {
        k == 0
    } else if s.len() == 0 {
        false
    } else if s[0] == '\\' {
        &&& k >= 2
        &&& s.len() >= 2
        &&& exists|c: char, mr: Seq<char>| marker.ok(s.skip(1), c, mr)
        &&& scan_chain(valid, marker, s.skip(2), k - 2)
    } else {
        &&& exists|c: char, vr: Seq<char>| valid.ok(s, c, vr)
        &&& scan_chain(valid, marker, s.skip(1), k - 1)
    }
}

/// A scan extends by one ordinary code point accepted by `valid`.
proof fn lemma_scan_chain_plain<'a, V: Parser<'a, char>, E: Parser<'a, char>>(
    valid: V,
    marker: E,
    s: Seq<char>,
    k: int,
)
    requires
        scan_chain(valid, marker, s, k),
        0 <= k < s.len(),
        s[k] != '\\',
        exists|c: char, vr: Seq<char>| #[trigger] valid.ok(s.skip(k), c, vr),
    ensures
        scan_chain(valid, marker, s, k + 1),
    decreases k,
{
    if k == 0 {
        assert(s.skip(0) =~= s);
        assert(scan_chain(valid, marker, s.skip(1), 0));
    } else if s[0] == '\\' {
        assert(s.skip(2).skip(k - 2) =~= s.skip(k));
        assert(s.skip(2)[k - 2] == s[k]);
        lemma_scan_chain_plain(valid, marker, s.skip(2), k - 2);
    } else {
        assert(s.skip(1).skip(k - 1) =~= s.skip(k));
        assert(s.skip(1)[k - 1] == s[k]);
        lemma_scan_chain_plain(valid, marker, s.skip(1), k - 1);
    }
}

/// A scan extends by an escape pair whose follower the marker accepts.
proof fn lemma_scan_chain_escape<'a, V: Parser<'a, char>, E: Parser<'a, char>>(
    valid: V,
    marker: E,
    s: Seq<char>,
    k: int,
)
    requires
        scan_chain(valid, marker, s, k),
        0 <= k,
        k + 1 < s.len(),
        s[k] == '\\',
        exists|c: char, mr: Seq<char>| #[trigger] marker.ok(s.skip(k + 1), c, mr),
    ensures
        scan_chain(valid, marker, s, k + 2),
    decreases k,
{
    if k == 0 {
        assert(scan_chain(valid, marker, s.skip(2), 0));
    } else if s[0] == '\\' {
        assert(s.skip(2).skip(k - 2) =~= s.skip(k));
        assert(s.skip(2).skip(k - 2 + 1) =~= s.skip(k + 1));
        assert(s.skip(2)[k - 2] == s[k]);
        lemma_scan_chain_escape(valid, marker, s.skip(2), k - 2);
    } else {
        assert(s.skip(1).skip(k - 1) =~= s.skip(k));
        assert(s.skip(1).skip(k - 1 + 1) =~= s.skip(k + 1));
        assert(s.skip(1)[k - 1] == s[k]);
        lemma_scan_chain_escape(valid, marker, s.skip(1), k - 1);
    }
}

/// The parser that `escaped` builds: a raw escape-aware span.
pub struct Escaped<V, E> {
    pub valid: V,
    pub escape: E,
}

/// A parser that scans code point by code point: a backslash must be
/// followed by a code point the marker accepts, and both are taken; any
/// other code point must be accepted by `valid`. The scan ends, with the
/// raw span kept verbatim, at the first code point rejected by both rules;
/// it fails if nothing at all was scanned, if a backslash ends the input,
/// or with the marker's own error where the marker rejects a follower.
pub fn escaped<V, E>(valid: V, marker: E) -> (r: Escaped<V, E>)
    ensures
        r.valid == valid,
        r.escape == marker,
{
    Escaped { valid, escape: marker }
}

impl<'a, V, E> Parser<'a, &'a str> for Escaped<V, E> where V: Parser<'a, char>, E: Parser<'a, char> {
    open spec fn wf(&self) -> bool {
        &&& self.valid.wf()
        &&& self.escape.wf()
    }

    open spec fn ok(&self, input: Seq<char>, out: &'a str, rem: Seq<char>) -> bool {
        let k = input.len() - rem.len();
        &&& 1 <= k <= input.len()
        &&& scan_chain(self.valid, self.escape, input, k)
        &&& out@ == input.take(k)
        &&& rem == input.skip(k)
        &&& (k == input.len() || (input[k] != '\\' && exists|e: SpecError|
            self.valid.err(input.skip(k), e)))
    }

    open spec fn err(&self, input: Seq<char>, e: SpecError) -> bool {
        ||| input.len() == 0 && e == spec_found_end()
        ||| exists|k: int|
            {
                &&& 0 <= k
                &&& #[trigger] scan_chain(self.valid, self.escape, input, k)
                &&& k + 1 == input.len()
                &&& input[k] == '\\'
                &&& e == spec_found_char('\\')
            }
        ||| exists|k: int|
            {
                &&& 0 <= k
                &&& #[trigger] scan_chain(self.valid, self.escape, input, k)
                &&& k + 1 < input.len()
                &&& input[k] == '\\'
                &&& self.escape.err(input.skip(k + 1), e)
            }
        ||| input.len() >= 1 && input[0] != '\\' && self.valid.err(input, e)
    }

    fn parse(&self, input: &'a str) -> (r: Output<'a, &'a str>) {
        let n = input.unicode_len();
        let mut idx: usize = 0;
        while idx < n
            invariant
                0 <= idx <= n,
                n == input@.len(),
                self.valid.wf(),
                self.escape.wf(),
                scan_chain(self.valid, self.escape, input@, idx as int),
            ensures
                0 <= idx <= n,
                idx == n || idx > 0,
                scan_chain(self.valid, self.escape, input@, idx as int),
                idx == n || (input@[idx as int] != '\\' && exists|e: SpecError|
                    self.valid.err(input@.skip(idx as int), e)),
            decreases n - idx,
        {
            let ch = input.get_char(idx);
            if ch == '\\' {
                if idx + 1 >= n {
                    return Err(Error::found('\\'));
                }
                let tail = input.substring_char(idx + 1, n);
                proof {
                    assert(tail@ =~= input@.skip(idx as int + 1));
                }
                match self.escape.parse(tail) {
                    Ok((c, _)) => {
                        proof {
                            lemma_scan_chain_escape(
                                self.valid,
                                self.escape,
                                input@,
                                idx as int,
                            );
                        }
                        idx += 2;
                    },
                    Err(e) => {
                        proof {
                            assert(self.escape.err(input@.skip(idx as int + 1), e@));
                        }
                        return Err(e);
                    },
                }
            } else {
                let tail = input.substring_char(idx, n);
                proof {
                    assert(tail@ =~= input@.skip(idx as int));
                }
                match self.valid.parse(tail) {
                    Ok((c, vr)) => {
                        proof {
                            assert(self.valid.ok(input@.skip(idx as int), c, vr@));
                            lemma_scan_chain_plain(self.valid, self.escape, input@, idx as int);
                        }
                        idx += 1;
                    },
                    Err(e) => {
                        if idx == 0 {
                            proof {
                                assert(input@.skip(0) =~= input@);
                                assert(self.valid.err(input@, e@));
                            }
                            return Err(e);
                        }
                        proof {
                            assert(self.valid.err(input@.skip(idx as int), e@));
                        }
                        break ;
                    },
                }
            }
        }
        if idx == 0 {
            return Err(Error::found_end());
        }
        let out = input.substring_char(0, idx);
        let rem = input.substring_char(idx, n);
        proof {
            lemma_remainder_skip(input@, idx as int);
        }
        Ok((out, rem))
    }
}

/// The first `i` code points of `s` decode to `part`: ordinary code points
/// are copied verbatim, and each backslash-prefixed code point is replaced
/// by the value the marker produces for what follows the backslash.
pub open spec fn unesc_prefix<'a, E: Parser<'a, char>>(
    marker: E,
    s: Seq<char>,
    i: int,
    part: Seq<char>,
) -> bool
    decreases i,
{
    if i <= 0 {
        i == 0 && part.len() == 0
    } else if s.len() == 0 {
        false
    } else if s[0] == '\\' {
        &&& i >= 2
        &&& s.len() >= 2
        &&& part.len() >= 1
        &&& exists|mr: Seq<char>| marker.ok(s.skip(1), part[0], mr)
        &&& unesc_prefix(marker, s.skip(2), i - 2, part.skip(1))
    } else {
        &&& part.len() >= 1
        &&& part[0] == s[0]
        &&& unesc_prefix(marker, s.skip(1), i - 1, part.skip(1))
    }
}

/// A decoding extends by one ordinary code point, copied verbatim.
proof fn lemma_unesc_plain<'a, E: Parser<'a, char>>(
    marker: E,
    s: Seq<char>,
    i: int,
    part: Seq<char>,
)
    requires
        unesc_prefix(marker, s, i, part),
        0 <= i < s.len(),
        s[i] != '\\',
    ensures
        unesc_prefix(marker, s, i + 1, part.push(s[i])),
    decreases i,
{
    if i == 0 {
        assert(part.push(s[0]).skip(1) =~= Seq::<char>::empty());
        assert(unesc_prefix(marker, s.skip(1), 0, part.push(s[i]).skip(1)));
    } else if s[0] == '\\' {
        assert(s.skip(2)[i - 2] == s[i]);
        lemma_unesc_plain(marker, s.skip(2), i - 2, part.skip(1));
        assert(part.skip(1).push(s[i]) =~= part.push(s[i]).skip(1));
        assert(part.push(s[i])[0] == part[0]);
    } else {
        assert(s.skip(1)[i - 1] == s[i]);
        lemma_unesc_plain(marker, s.skip(1), i - 1, part.skip(1));
        assert(part.skip(1).push(s[i]) =~= part.push(s[i]).skip(1));
        assert(part.push(s[i])[0] == part[0]);
    }
}

/// A decoding extends by an escape pair, replaced by the marker's value.
proof fn lemma_unesc_escape<'a, E: Parser<'a, char>>(
    marker: E,
    s: Seq<char>,
    i: int,
    part: Seq<char>,
    c: char,
)
    requires
        unesc_prefix(marker, s, i, part),
        0 <= i,
        i + 1 < s.len(),
        s[i] == '\\',
        exists|mr: Seq<char>| #[trigger] marker.ok(s.skip(i + 1), c, mr),
    ensures
        unesc_prefix(marker, s, i + 2, part.push(c)),
    decreases i,
{
    if i == 0 {
        assert(part.push(c)[0] == c);
        assert(part.push(c).skip(1) =~= Seq::<char>::empty());
        assert(unesc_prefix(marker, s.skip(2), 0, part.push(c).skip(1)));
    } else if s[0] == '\\' {
        assert(s.skip(2)[i - 2] == s[i]);
        assert(s.skip(2).skip(i - 2 + 1) =~= s.skip(i + 1));
        lemma_unesc_escape(marker, s.skip(2), i - 2, part.skip(1), c);
        assert(part.skip(1).push(c) =~= part.push(c).skip(1));
        assert(part.push(c)[0] == part[0]);
    } else {
        assert(s.skip(1)[i - 1] == s[i]);
        assert(s.skip(1).skip(i - 1 + 1) =~= s.skip(i + 1));
        lemma_unesc_escape(marker, s.skip(1), i - 1, part.skip(1), c);
        assert(part.skip(1).push(c) =~= part.push(c).skip(1));
        assert(part.push(c)[0] == part[0]);
    }
}

/// The parser that `unescape` builds: a decoded copy of a scanned span.
pub struct Unescape<P, E> {
    pub parser: P,
    pub escape: E,
}

/// A parser that runs `parser` to delimit a span, then decodes that span
/// into a fresh owned string: ordinary code points are copied verbatim, and
/// each backslash-prefixed code point is replaced by the value `marker`
/// produces for the text after the backslash. This is the one operation of
/// the library that allocates instead of borrowing.
pub fn unescape<P, E>(parser: P, marker: E) -> (r: Unescape<P, E>)
    ensures
        r.parser == parser,
        r.escape == marker,
{
    Unescape { parser, escape: marker }
}

impl<'a, P, E> Parser<'a, String> for Unescape<P, E> where
    P: Parser<'a, &'a str>,
    E: Parser<'a, char>,
 {
    open spec fn wf(&self) -> bool {
        &&& self.parser.wf()
        &&& self.escape.wf()
    }

    open spec fn ok(&self, input: Seq<char>, out: String, rem: Seq<char>) -> bool {
        exists|span: &'a str|
            #[trigger] self.parser.ok(input, span, rem) && unesc_prefix(
                self.escape,
                span@,
                span@.len() as int,
                out@,
            )
    }

    open spec fn err(&self, input: Seq<char>, e: SpecError) -> bool {
        ||| self.parser.err(input, e)
        ||| exists|span: &'a str, rem0: Seq<char>, i: int, part: Seq<char>|
            #![trigger self.parser.ok(input, span, rem0), unesc_prefix(self.escape, span@, i, part)]
            {
                &&& self.parser.ok(input, span, rem0)
                &&& unesc_prefix(self.escape, span@, i, part)
                &&& 0 <= i < span@.len()
                &&& span@[i] == '\\'
                &&& ((i + 1 == span@.len() && e == spec_found_char('\\')) || (i + 1 < span@.len()
                    && self.escape.err(span@.skip(i + 1), e)))
            }
    }

    fn parse(&self, input: &'a str) -> (r: Output<'a, String>) {
        let (span, rem) = match self.parser.parse(input) {
            Ok(x) => x,
            Err(e) => {
                return Err(e);
            },
        };
        let sn = span.unicode_len();
        let mut out = String::new();
        let mut idx: usize = 0;
        while idx < sn
            invariant
                0 <= idx <= sn,
                sn == span@.len(),
                self.escape.wf(),
                self.parser.ok(input@, span, rem@),
                is_remainder(input@, rem@),
                unesc_prefix(self.escape, span@, idx as int, out@),
            decreases sn - idx,
        {
            let ch = span.get_char(idx);
            if ch == '\\' {
                if idx + 1 >= sn {
                    return Err(Error::found('\\'));
                }
                let tail = span.substring_char(idx + 1, sn);
                proof {
                    assert(tail@ =~= span@.skip(idx as int + 1));
                }
                match self.escape.parse(tail) {
                    Ok((c, _)) => {
                        let ghost gout = out@;
                        push_char(&mut out, c);
                        proof {
                            lemma_unesc_escape(self.escape, span@, idx as int, gout, c);
                        }
                        idx += 2;
                    },
                    Err(e) => {
                        proof {
                            assert(self.escape.err(span@.skip(idx as int + 1), e@));
                        }
                        return Err(e);
                    },
                }
            } else {
                let ghost gout = out@;
                push_char(&mut out, ch);
                proof {
                    lemma_unesc_plain(self.escape, span@, idx as int, gout);
                }
                idx += 1;
            }
        }
        Ok((out, rem))
    }
}

} // verus!
