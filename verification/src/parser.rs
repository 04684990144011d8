use vstd::prelude::*;

use crate::character::Character;
use crate::error::Error;
use crate::error::SpecError;
use crate::error::SpecExpect;
use crate::error::spec_expect;
use crate::error::spec_found_char;
use crate::error::spec_found_end;
use crate::error::spec_unexpected;
use crate::error::spec_unexpected_end;

verus! {

/// What invoking a parser yields: a typed value plus the unconsumed
/// remainder of the input, or a structured error.
pub type Output<'a, O> = Result<(O, &'a str), Error>;

/// `rem` is the suffix of `input` that a parse left unconsumed.
pub open spec fn is_remainder(input: Seq<char>, rem: Seq<char>) -> bool {
    &&& rem.len() <= input.len()
    &&& rem == input.subrange(input.len() - rem.len(), input.len() as int)
}

/// Every sequence is a remainder of itself: a parse may consume nothing.
pub proof fn lemma_remainder_refl(input: Seq<char>)
    ensures
        is_remainder(input, input),
{
    assert(input.subrange(0, input.len() as int) =~= input);
}

/// Dropping a prefix of `n` code points leaves a remainder.
pub proof fn lemma_remainder_skip(input: Seq<char>, n: int)
    requires
        0 <= n <= input.len(),
    ensures
        is_remainder(input, input.skip(n)),
{
    assert(input.skip(n) =~= input.subrange(n, input.len() as int));
}

/// Remainders compose: what a second parse leaves of the first parse's
/// remainder is still a remainder of the whole input.
pub proof fn lemma_remainder_trans(input: Seq<char>, mid: Seq<char>, rem: Seq<char>)
    requires
        is_remainder(input, mid),
        is_remainder(mid, rem),
    ensures
        is_remainder(input, rem),
{
    assert(rem =~= input.subrange(input.len() - rem.len(), input.len() as int));
}

/// A parser: anything that can consume a prefix of an input view and return
/// a typed value plus the remainder, or an error.
///
/// `ok(input, out, rem)` says what a success can look like, `err(input, e)`
/// what a failure can look like, both over the ghost views of the values
/// involved; `wf` is what the parser needs of itself before it can run.
/// Every success leaves a remainder that is a literal suffix of the input:
/// the input is never copied, only narrowed.
pub trait Parser<'a, O> {
    spec fn wf(&self) -> bool;

    spec fn ok(&self, input: Seq<char>, out: O, rem: Seq<char>) -> bool;

    spec fn err(&self, input: Seq<char>, e: SpecError) -> bool;

    fn parse(&self, input: &'a str) -> (r: Output<'a, O>)
        requires
            self.wf(),
        ensures
            r matches Ok((out, rem)) ==> self.ok(input@, out, rem@) && is_remainder(
                input@,
                rem@,
            ),
            r matches Err(e) ==> self.err(input@, e@),
    ;
}

/// Runs `parser` on `input`: a thin entry point for call-site uniformity.
pub fn parse<'a, P, O>(input: &'a str, parser: P) -> (r: Output<'a, O>) where
    P: Parser<'a, O>,

    requires
        parser.wf(),
    ensures
        r matches Ok((out, rem)) ==> parser.ok(input@, out, rem@) && is_remainder(input@, rem@),
        r matches Err(e) ==> parser.err(input@, e@),
{
    parser.parse(input)
}

/// The parser that `take` builds: exactly one code point accepted by the
/// predicate.
pub struct Take<P> {
    pub predicate: P,
}

/// The predicate can be run on every code point.
pub open spec fn pred_total<P: Fn(char) -> bool>(p: P) -> bool {
    forall|c: char| call_requires(p, (c,))
}

/// A success of `take`: the first code point was accepted, exactly it was
/// consumed, and the rest of the input is the remainder.
pub open spec fn take_ok<P: Fn(char) -> bool>(
    p: P,
    input: Seq<char>,
    out: Seq<char>,
    rem: Seq<char>,
) -> bool {
    &&& input.len() >= 1
    &&& call_ensures(p, (input[0],), true)
    &&& out == input.take(1)
    &&& rem == input.skip(1)
}

/// A failure of `take` or `take_while`: the input was empty, or its first
/// code point was rejected and is reported as found, nothing consumed.
pub open spec fn take_err<P: Fn(char) -> bool>(p: P, input: Seq<char>, e: SpecError) -> bool {
    ||| input.len() == 0 && e == spec_found_end()
    ||| input.len() >= 1 && call_ensures(p, (input[0],), false) && e == spec_found_char(input[0])
}

/// A parser that consumes exactly one code point if `predicate` accepts it,
/// and otherwise fails without consuming, reporting what was found.
pub fn take<P: Fn(char) -> bool>(predicate: P) -> (r: Take<P>)
    ensures
        r.predicate == predicate,
{
    Take { predicate }
}

impl<'a, P: Fn(char) -> bool> Parser<'a, &'a str> for Take<P> {
    open spec fn wf(&self) -> bool {
        pred_total(self.predicate)
    }

    open spec fn ok(&self, input: Seq<char>, out: &'a str, rem: Seq<char>) -> bool {
        take_ok(self.predicate, input, out@, rem)
    }

    open spec fn err(&self, input: Seq<char>, e: SpecError) -> bool {
        take_err(self.predicate, input, e)
    }

    fn parse(&self, input: &'a str) -> (r: Output<'a, &'a str>) {
        let n = input.unicode_len();
        if n == 0 {
            Err(Error::found_end())
        } else {
            let c = input.get_char(0);
            if (self.predicate)(c) {
                let out = input.substring_char(0, 1);
                let rem = input.substring_char(1, n);
                proof {
                    lemma_remainder_skip(input@, 1);
                }
                Ok((out, rem))
            } else {
                Err(Error::found(c))
            }
        }
    }
}

/// Restates the contract of a `take` parser over its fields. A trait
/// bound of the `Fn` family keeps the spec members of an impl from
/// unfolding at a concrete predicate type, so callers take the definitions
/// from here.
pub proof fn lemma_take_contract<'a, P: Fn(char) -> bool>(t: Take<P>)
    ensures
        <Take<P> as Parser<'a, &'a str>>::wf(&t) == pred_total(t.predicate),
        forall|input: Seq<char>, out: &'a str, rem: Seq<char>|
            #[trigger] <Take<P> as Parser<'a, &'a str>>::ok(&t, input, out, rem) == take_ok(
                t.predicate,
                input,
                out@,
                rem,
            ),
        forall|input: Seq<char>, e: SpecError|
            #[trigger] <Take<P> as Parser<'a, &'a str>>::err(&t, input, e) == take_err(
                t.predicate,
                input,
                e,
            ),
{
}

/// The parser that `take_while` builds: the maximal non-empty run of code
/// points accepted by the predicate.
pub struct TakeWhile<P> {
    pub predicate: P,
}

/// A success of `take_while`: a non-empty run of accepted code points was
/// consumed, and the run could not have been extended.
pub open spec fn take_while_ok<P: Fn(char) -> bool>(
    p: P,
    input: Seq<char>,
    out: Seq<char>,
    rem: Seq<char>,
) -> bool {
    let n = input.len() - rem.len();
    &&& 1 <= n <= input.len()
    &&& out == input.take(n)
    &&& rem == input.skip(n)
    &&& forall|j: int| 0 <= j < n ==> call_ensures(p, (input[j],), true)
    &&& (n == input.len() || call_ensures(p, (input[n],), false))
}

/// A parser that consumes the maximal non-empty run of leading code points
/// accepted by `predicate`, and fails without consuming if the first code
/// point is rejected or the input is empty.
pub fn take_while<P: Fn(char) -> bool>(predicate: P) -> (r: TakeWhile<P>)
    ensures
        r.predicate == predicate,
{
    TakeWhile { predicate }
}

impl<'a, P: Fn(char) -> bool> Parser<'a, &'a str> for TakeWhile<P> {
    open spec fn wf(&self) -> bool {
        pred_total(self.predicate)
    }

    open spec fn ok(&self, input: Seq<char>, out: &'a str, rem: Seq<char>) -> bool {
        take_while_ok(self.predicate, input, out@, rem)
    }

    open spec fn err(&self, input: Seq<char>, e: SpecError) -> bool {
        take_err(self.predicate, input, e)
    }

    fn parse(&self, input: &'a str) -> (r: Output<'a, &'a str>) {
        let n = input.unicode_len();
        if n == 0 {
            return Err(Error::found_end());
        }
        let c0 = input.get_char(0);
        if !(self.predicate)(c0) {
            return Err(Error::found(c0));
        }
        let mut i: usize = 1;
        while i < n
            invariant
                1 <= i <= n,
                n == input@.len(),
                forall|c: char| call_requires(self.predicate, (c,)),
                forall|j: int| 0 <= j < i ==> call_ensures(self.predicate, (input@[j],), true),
            ensures
                1 <= i <= n,
                forall|j: int| 0 <= j < i ==> call_ensures(self.predicate, (input@[j],), true),
                i == n || call_ensures(self.predicate, (input@[i as int],), false),
            decreases n - i,
        {
            let c = input.get_char(i);
            if !(self.predicate)(c) {
                break ;
            }
            i += 1;
        }
        let out = input.substring_char(0, i);
        let rem = input.substring_char(i, n);
        proof {
            lemma_remainder_skip(input@, i as int);
        }
        Ok((out, rem))
    }
}

/// Restates the contract of a `take_while` parser over its fields, as
/// `lemma_take_contract` does for `take`.
pub proof fn lemma_take_while_contract<'a, P: Fn(char) -> bool>(t: TakeWhile<P>)
    ensures
        <TakeWhile<P> as Parser<'a, &'a str>>::wf(&t) == pred_total(t.predicate),
        forall|input: Seq<char>, out: &'a str, rem: Seq<char>|
            #[trigger] <TakeWhile<P> as Parser<'a, &'a str>>::ok(&t, input, out, rem)
                == take_while_ok(t.predicate, input, out@, rem),
        forall|input: Seq<char>, e: SpecError|
            #[trigger] <TakeWhile<P> as Parser<'a, &'a str>>::err(&t, input, e) == take_err(
                t.predicate,
                input,
                e,
            ),
{
}

/// The trivial parser: succeeds with `()` and consumes nothing.
impl<'a> Parser<'a, ()> for () {
    open spec fn wf(&self) -> bool {
        true
    }

    open spec fn ok(&self, input: Seq<char>, out: (), rem: Seq<char>) -> bool {
        rem == input
    }

    open spec fn err(&self, input: Seq<char>, e: SpecError) -> bool {
        false
    }

    fn parse(&self, input: &'a str) -> (r: Output<'a, ()>) {
        proof {
            lemma_remainder_refl(input@);
        }
        Ok(((), input))
    }
}

/// A literal character is a parser: it succeeds exactly when the next code
/// point equals it.
impl<'a> Parser<'a, char> for char {
    open spec fn wf(&self) -> bool {
        true
    }

    open spec fn ok(&self, input: Seq<char>, out: char, rem: Seq<char>) -> bool {
        &&& input.len() >= 1
        &&& input[0] == *self
        &&& out == *self
        &&& rem == input.skip(1)
    }

    open spec fn err(&self, input: Seq<char>, e: SpecError) -> bool {
        ||| input.len() == 0 && e == spec_unexpected_end(
            SpecExpect::Character(Character::Custom(*self)),
        )
        ||| input.len() >= 1 && input[0] != *self && e == spec_unexpected(
            SpecExpect::Character(Character::Custom(*self)),
            input[0],
        )
    }

    fn parse(&self, input: &'a str) -> (r: Output<'a, char>) {
        let n = input.unicode_len();
        if n == 0 {
            Err(Error::found_end().but_expect(*self))
        } else {
            let c = input.get_char(0);
            if c == *self {
                let rem = input.substring_char(1, n);
                proof {
                    lemma_remainder_skip(input@, 1);
                }
                Ok((*self, rem))
            } else {
                Err(Error::found(c).but_expect(*self))
            }
        }
    }
}

/// Literal text matches `input` character by character: success leaves the
/// matched prefix and the remainder.
pub open spec fn text_ok(pat: Seq<char>, input: Seq<char>, out: Seq<char>, rem: Seq<char>) -> bool {
    &&& pat.len() <= input.len()
    &&& input.take(pat.len() as int) == pat
    &&& out == pat
    &&& rem == input.skip(pat.len() as int)
}

/// Literal text fails at the first position where `input` diverges from it,
/// reporting the character expected there and what stood in its place.
pub open spec fn text_err(pat: Seq<char>, input: Seq<char>, e: SpecError) -> bool {
    exists|i: int|
        {
            &&& 0 <= i < pat.len()
            &&& #[trigger] input.take(i) == pat.take(i)
            &&& {
                ||| input.len() == i && e == spec_unexpected_end(
                    SpecExpect::Character(Character::Custom(pat[i])),
                )
                ||| input.len() > i && input[i] != pat[i] && e == spec_unexpected(
                    SpecExpect::Character(Character::Custom(pat[i])),
                    input[i],
                )
            }
        }
}

/// Matches the literal text `pat` against the front of `input`.
pub(crate) fn text_parse<'a>(pat: &str, input: &'a str) -> (r: Output<'a, &'a str>)
    ensures
        r matches Ok((out, rem)) ==> text_ok(pat@, input@, out@, rem@) && is_remainder(
            input@,
            rem@,
        ),
        r matches Err(e) ==> text_err(pat@, input@, e@),
{
    let pn = pat.unicode_len();
    let n = input.unicode_len();
    let mut i: usize = 0;
    while i < pn
        invariant
            0 <= i <= pn,
            i <= n,
            pn == pat@.len(),
            n == input@.len(),
            forall|j: int| 0 <= j < i ==> input@[j] == pat@[j],
        decreases pn - i,
    {
        proof {
            assert(input@.take(i as int) =~= pat@.take(i as int));
        }
        if i >= n {
            let c = pat.get_char(i);
            return Err(Error::expect(c).but_found_end());
        }
        let ci = input.get_char(i);
        let pi = pat.get_char(i);
        if ci != pi {
            return Err(Error::expect(pi).but_found(ci));
        }
        i += 1;
    }
    let out = input.substring_char(0, pn);
    let rem = input.substring_char(pn, n);
    proof {
        assert(input@.take(pn as int) =~= pat@);
        lemma_remainder_skip(input@, pn as int);
    }
    Ok((out, rem))
}

/// Literal text is a parser: it succeeds exactly when the input starts with
/// it, matched character by character.
impl<'a, 'b> Parser<'a, &'a str> for &'b str {
    open spec fn wf(&self) -> bool {
        true
    }

    open spec fn ok(&self, input: Seq<char>, out: &'a str, rem: Seq<char>) -> bool {
        text_ok(self@, input, out@, rem)
    }

    open spec fn err(&self, input: Seq<char>, e: SpecError) -> bool {
        text_err(self@, input, e)
    }

    fn parse(&self, input: &'a str) -> (r: Output<'a, &'a str>) {
        text_parse(*self, input)
    }
}

/// An owned literal text is a parser, exactly as its borrowed form is.
impl<'a> Parser<'a, &'a str> for String {
    open spec fn wf(&self) -> bool {
        true
    }

    open spec fn ok(&self, input: Seq<char>, out: &'a str, rem: Seq<char>) -> bool {
        text_ok(self@, input, out@, rem)
    }

    open spec fn err(&self, input: Seq<char>, e: SpecError) -> bool {
        text_err(self@, input, e)
    }

    fn parse(&self, input: &'a str) -> (r: Output<'a, &'a str>) {
        text_parse(self.as_str(), input)
    }
}

/// The function can be run on every input, and every success it can return
/// leaves a remainder that is a suffix of the input.
pub open spec fn fn_parser_wf<'a, O, T: Fn(&'a str) -> Output<'a, O>>(f: T) -> bool {
    &&& forall|s: &'a str| call_requires(f, (s,))
    &&& forall|s: &'a str, out: O, rem: &'a str|
        call_ensures(f, (s,), Ok((out, rem))) ==> is_remainder(s@, rem@)
}

/// A success the function can return on an input with this view.
pub open spec fn fn_parser_ok<'a, O, T: Fn(&'a str) -> Output<'a, O>>(
    f: T,
    input: Seq<char>,
    out: O,
    rem: Seq<char>,
) -> bool {
    exists|s: &'a str, rs: &'a str|
        {
            &&& s@ == input
            &&& rs@ == rem
            &&& #[trigger] call_ensures(f, (s,), Ok((out, rs)))
        }
}

/// An error the function can return on an input with this view.
pub open spec fn fn_parser_err<'a, O, T: Fn(&'a str) -> Output<'a, O>>(
    f: T,
    input: Seq<char>,
    e: SpecError,
) -> bool {
    exists|s: &'a str, e0: Error|
        {
            &&& s@ == input
            &&& e0@ == e
            &&& #[trigger] call_ensures(f, (s,), Err(e0))
        }
}

/// A plain function or closure from an input view to an `Output` is itself a
/// parser, provided it can run on every input and only ever narrows it.
impl<'a, O, T> Parser<'a, O> for T where T: Fn(&'a str) -> Output<'a, O> {
    open spec fn wf(&self) -> bool {
        fn_parser_wf(*self)
    }

    open spec fn ok(&self, input: Seq<char>, out: O, rem: Seq<char>) -> bool {
        fn_parser_ok(*self, input, out, rem)
    }

    open spec fn err(&self, input: Seq<char>, e: SpecError) -> bool {
        fn_parser_err(*self, input, e)
    }

    fn parse(&self, input: &'a str) -> (r: Output<'a, O>) {
        let r = (self)(input);
        proof {
            if let Ok((out, rem)) = &r {
                assert(call_ensures(*self, (input,), Ok((*out, *rem))));
                assert(self.ok(input@, *out, rem@));
            } else if let Err(e) = &r {
                assert(call_ensures(*self, (input,), Err(*e)));
                assert(self.err(input@, e@));
            }
        }
        r
    }
}

/// Restates the contract of a plain function used as a parser, as
/// `lemma_take_contract` does for `take`.
pub proof fn lemma_fn_contract<'a, O, T: Fn(&'a str) -> Output<'a, O>>(f: T)
    ensures
        <T as Parser<'a, O>>::wf(&f) == fn_parser_wf(f),
        forall|input: Seq<char>, out: O, rem: Seq<char>|
            #[trigger] <T as Parser<'a, O>>::ok(&f, input, out, rem) == fn_parser_ok(
                f,
                input,
                out,
                rem,
            ),
        forall|input: Seq<char>, e: SpecError|
            #[trigger] <T as Parser<'a, O>>::err(&f, input, e) == fn_parser_err(f, input, e),
{
}

} // verus!
