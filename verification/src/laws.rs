use vstd::prelude::*;

use crate::character::spec_is_alphabetic;
use crate::character::spec_is_decimal;
use crate::character::spec_is_indent;
use crate::character::spec_is_linebreak;
use crate::character::spec_is_lowercase;
use crate::character::spec_is_uppercase;
use crate::character::spec_is_whitespace;
use crate::combinator::ToFail;
use crate::combinator::branch::Either;
use crate::error::SpecError;
use crate::error::to_fail;
use crate::parser::Parser;
use crate::parser::Take;
use crate::parser::TakeWhile;
use crate::parser::is_remainder;

verus! {

/// Whatever a successful parse consumed, the input is exactly the consumed
/// prefix followed by the remainder it left: nothing is skipped, nothing is
/// invented. Every parser of this library leaves such a remainder.
pub proof fn lemma_consumption(input: Seq<char>, rem: Seq<char>)
    requires
        is_remainder(input, rem),
    ensures
        rem.len() <= input.len(),
        input == input.take(input.len() - rem.len()) + rem,
{
    assert(input =~= input.take(input.len() - rem.len()) + rem);
}

/// `take` and `take_while` over one predicate fail in exactly the same
/// ways — in particular, identically on input whose first code point the
/// predicate rejects, with nothing consumed — while a success of `take`
/// consumes exactly one code point and a success of `take_while` consumes a
/// maximal non-empty accepted run.
pub proof fn lemma_take_vs_take_while<'a, P: Fn(char) -> bool>(
    t: Take<P>,
    w: TakeWhile<P>,
    input: Seq<char>,
)
    requires
        t.predicate == w.predicate,
    ensures
        forall|e: SpecError| #[trigger] t.err(input, e) == #[trigger] w.err(input, e),
        forall|out: &'a str, rem: Seq<char>| #[trigger] t.ok(input, out, rem) ==> rem == input.skip(1),
        forall|out: &'a str, rem: Seq<char>|
            #[trigger] w.ok(input, out, rem) ==> {
                let n = input.len() - rem.len();
                &&& 1 <= n <= input.len()
                &&& rem == input.skip(n)
                &&& forall|j: int| 0 <= j < n ==> call_ensures(w.predicate, (input[j],), true)
                &&& (n == input.len() || call_ensures(w.predicate, (input[n],), false))
            },
{
}

/// In `either(fail(p), q)`, a failure of the committed first branch is
/// final: the whole choice fails with `p`'s error made committed, and it
/// succeeds only as `p` does — `q` never enters the outcome.
pub proof fn lemma_either_short_circuit<'a, O, P: Parser<'a, O>, Q: Parser<'a, O>>(
    c: Either<ToFail<P>, Q>,
    input: Seq<char>,
)
    ensures
        forall|e: SpecError|
            #[trigger] c.err(input, e) == (exists|e0: SpecError|
                #[trigger] c.first.parser.err(input, e0) && e == to_fail(e0)),
        forall|out: O, rem: Seq<char>|
            #[trigger] c.ok(input, out, rem) == c.first.parser.ok(input, out, rem),
{
}

/// The primitive character classes partition their ground: no code point is
/// in two of the decimal, alphabetic, indent and linebreak classes at once;
/// the alphabetic class is exactly the union of the lowercase and uppercase
/// classes, which do not meet; and the whitespace class is exactly the
/// union of the indent and linebreak classes, so there is no whitespace
/// code point outside those two.
pub proof fn lemma_classifier_partition(c: char)
    ensures
        spec_is_whitespace(c) == (spec_is_indent(c) || spec_is_linebreak(c)),
        !(spec_is_decimal(c) && spec_is_alphabetic(c)),
        !(spec_is_decimal(c) && spec_is_indent(c)),
        !(spec_is_decimal(c) && spec_is_linebreak(c)),
        !(spec_is_alphabetic(c) && spec_is_indent(c)),
        !(spec_is_alphabetic(c) && spec_is_linebreak(c)),
        !(spec_is_indent(c) && spec_is_linebreak(c)),
        spec_is_alphabetic(c) == (spec_is_lowercase(c) || spec_is_uppercase(c)),
        !(spec_is_lowercase(c) && spec_is_uppercase(c)),
{
}

} // verus!
